//! The scan of incoming transactions: filter for the target program, decode
//! its instructions, keep the reserve ledger current and report each buy as
//! a snipe candidate priced as of just before it.
use vstd::prelude::*;
use crate::address::Address;
use crate::codec::{DecodedInstruction, EventView, decode_spec, parse_instruction_data};
use crate::protocol::PUMP_PROGRAM_ID;
use crate::reserves::{
    Price,
    ReserveLedger,
    TokenReserves,
    ledger_after_buy,
    ledger_after_create,
    quoted_price,
};

verus! {

/// One instruction of a transaction message: the index of its program in
/// the account list, and its payload.
#[derive(Clone, Debug)]
pub struct CompiledInstruction {
    pub program_id_index: u8,
    pub data: Vec<u8>,
}

/// A transaction message: its accounts, in order, and its instructions.
#[derive(Clone, Debug)]
pub struct Message {
    pub account_keys: Vec<Address>,
    pub instructions: Vec<CompiledInstruction>,
}

/// An observed buy, handed to a snipe evaluation: the token, the SOL the
/// buyer spent, the price quoted before the buy, and the slot.
#[derive(Clone, Copy, Debug, PartialEq, Eq)]
pub struct SnipeCandidate {
    pub mint: Address,
    pub sol_amount: u64,
    pub token_price: Price,
    pub slot: u64,
}

/// The ledger and the candidates emitted so far.
pub struct ScanState {
    pub ledger: Map<Seq<u8>, TokenReserves>,
    pub candidates: Seq<SnipeCandidate>,
}

/// The scanner. It alone writes the ledger.
pub struct TransactionProcessor {
    token_creator_pubkey: Address,
    token_reserves: ReserveLedger,
    auto_trader: bool,
}

pub open spec fn has_key(keys: Seq<Address>, k: Seq<u8>) -> bool {
    exists|i: int| 0 <= i < keys.len() && keys[i]@ == k
}

/// A transaction is scanned when it names the target account and has the
/// token and bonding-curve accounts in second and third place.
pub open spec fn is_relevant(msg: Message, target: Seq<u8>) -> bool {
    has_key(msg.account_keys@, target) && msg.account_keys@.len() >= 3
}

/// The event an instruction carries: one addressed to the target or to the
/// protocol's program that decodes; `None` for any other.
pub open spec fn instruction_event(msg: Message, ix: CompiledInstruction, target: Seq<u8>) -> Option<
    EventView,
> {
    let idx = ix.program_id_index as int;
    if idx < msg.account_keys@.len() && (msg.account_keys@[idx]@ == target
        || msg.account_keys@[idx]@ == PUMP_PROGRAM_ID@) {
        match decode_spec(ix.data@) {
            Ok(ev) => Some(ev),
            Err(_) => None,
        }
    } else {
        None
    }
}

/// One event applied to the scan state.
pub open spec fn apply_event(
    st: ScanState,
    mint: Address,
    ev: EventView,
    slot: u64,
    report: bool,
) -> ScanState {
    match ev {
        EventView::Create(_) => ScanState {
            ledger: ledger_after_create(st.ledger, mint@),
            candidates: st.candidates,
        },
        EventView::Buy(b) => ScanState {
            ledger: ledger_after_buy(st.ledger, mint@, b.amount, b.max_sol_cost),
            candidates: if report {
                st.candidates.push(
                    SnipeCandidate {
                        mint,
                        sol_amount: b.max_sol_cost,
                        token_price: quoted_price(st.ledger, mint@),
                        slot,
                    },
                )
            } else {
                st.candidates
            },
        },
    }
}

/// The first `n` instructions of `msg` applied in order.
pub open spec fn scan_instructions(
    st: ScanState,
    msg: Message,
    target: Seq<u8>,
    slot: u64,
    report: bool,
    n: int,
) -> ScanState
    decreases n,
{
    if n <= 0 {
        st
    } else {
        let prev = scan_instructions(st, msg, target, slot, report, n - 1);
        match instruction_event(msg, msg.instructions@[n - 1], target) {
            Some(ev) => apply_event(prev, msg.account_keys@[1], ev, slot, report),
            None => prev,
        }
    }
}

/// One message applied to the scan state.
pub open spec fn scan_message(
    st: ScanState,
    msg: Message,
    target: Seq<u8>,
    slot: u64,
    report: bool,
) -> ScanState {
    if is_relevant(msg, target) {
        scan_instructions(st, msg, target, slot, report, msg.instructions@.len() as int)
    } else {
        st
    }
}

/// The first `n` messages applied in order.
pub open spec fn scan_messages(
    st: ScanState,
    msgs: Seq<Message>,
    target: Seq<u8>,
    slot: u64,
    report: bool,
    n: int,
) -> ScanState
    decreases n,
{
    if n <= 0 {
        st
    } else {
        scan_message(scan_messages(st, msgs, target, slot, report, n - 1), msgs[n - 1], target, slot, report)
    }
}

fn contains_key(keys: &Vec<Address>, k: &Address) -> (r: bool)
    ensures
        r == has_key(keys@, k@),
{
    let mut i: usize = 0;
    while i < keys.len()
        invariant
            i <= keys@.len(),
            forall|j: int| 0 <= j < i ==> keys@[j]@ != k@,
        decreases keys@.len() - i,
    {
        if keys[i].same_as(k) {
            return true;
        }
        i = i + 1;
    }
    false
}

impl TransactionProcessor {
    pub closed spec fn wf(&self) -> bool {
        self.token_reserves.wf()
    }

    /// The reserve ledger.
    pub closed spec fn ledger(&self) -> Map<Seq<u8>, TokenReserves> {
        self.token_reserves.view()
    }

    /// The account that marks transactions of interest.
    pub closed spec fn target(&self) -> Seq<u8> {
        self.token_creator_pubkey@
    }

    /// Whether buys are emitted as snipe candidates.
    pub closed spec fn reports(&self) -> bool {
        self.auto_trader
    }

    /// A scanner for transactions naming `token_creator_pubkey`, with an
    /// empty ledger and candidate reporting off.
    pub fn new(token_creator_pubkey: Address) -> (r: TransactionProcessor)
        ensures
            r.wf(),
            r.ledger() == Map::<Seq<u8>, TokenReserves>::empty(),
            r.target() == token_creator_pubkey@,
            !r.reports(),
    {
        TransactionProcessor {
            token_creator_pubkey,
            token_reserves: ReserveLedger::new(),
            auto_trader: false,
        }
    }

    /// Turns on the reporting of buys as snipe candidates.
    pub fn set_auto_trader(&mut self)
        ensures
            final(self).wf() == old(self).wf(),
            final(self).ledger() == old(self).ledger(),
            final(self).target() == old(self).target(),
            final(self).reports(),
    {
        self.auto_trader = true;
    }

    /// The price quoted for `mint` now: from its reserves, or the default.
    pub fn price_of(&self, mint: &Address) -> (r: Price)
        requires
            self.wf(),
        ensures
            r == quoted_price(self.ledger(), mint@),
    {
        self.token_reserves.price_or_default(mint)
    }

    /// The reserves recorded for `mint`.
    pub fn reserves_of(&self, mint: &Address) -> (r: Option<TokenReserves>)
        requires
            self.wf(),
        ensures
            r == (if self.ledger().contains_key(mint@) {
                Some(self.ledger()[mint@])
            } else {
                None
            }),
    {
        self.token_reserves.reserves_of(mint)
    }

    fn is_target_program(&self, msg: &Message, idx: u8) -> (r: bool)
        ensures
            r == ((idx as int) < msg.account_keys@.len() && (msg.account_keys@[idx as int]@
                == self.target() || msg.account_keys@[idx as int]@ == PUMP_PROGRAM_ID@)),
    {
        let i = idx as usize;
        if i >= msg.account_keys.len() {
            return false;
        }
        let program = Address { bytes: PUMP_PROGRAM_ID };
        msg.account_keys[i].same_as(&self.token_creator_pubkey) || msg.account_keys[i].same_as(
            &program,
        )
    }

    /// Scans one message, appending a candidate for each buy it emits.
    fn process_message(&mut self, msg: &Message, slot: u64, out: &mut Vec<SnipeCandidate>)
        requires
            old(self).wf(),
        ensures
            final(self).wf(),
            final(self).target() == old(self).target(),
            final(self).reports() == old(self).reports(),
            (ScanState { ledger: final(self).ledger(), candidates: final(out)@ }) == scan_message(
                ScanState { ledger: old(self).ledger(), candidates: old(out)@ },
                *msg,
                old(self).target(),
                slot,
                old(self).reports(),
            ),
    {
        let ghost st0 = ScanState { ledger: self.ledger(), candidates: out@ };
        if msg.account_keys.len() < 3 || !contains_key(&msg.account_keys, &self.token_creator_pubkey) {
            return;
        }
        let mint: Address = msg.account_keys[1];
        let mut i: usize = 0;
        while i < msg.instructions.len()
            invariant
                self.wf(),
                self.target() == old(self).target(),
                self.reports() == old(self).reports(),
                i <= msg.instructions@.len(),
                msg.account_keys@.len() >= 3,
                mint == msg.account_keys@[1],
                st0 == (ScanState { ledger: old(self).ledger(), candidates: old(out)@ }),
                (ScanState { ledger: self.ledger(), candidates: out@ }) == scan_instructions(
                    st0,
                    *msg,
                    self.target(),
                    slot,
                    self.reports(),
                    i as int,
                ),
            decreases msg.instructions@.len() - i,
        {
            let ix = &msg.instructions[i];
            if self.is_target_program(msg, ix.program_id_index) {
                match parse_instruction_data(ix.data.as_slice()) {
                    Ok(DecodedInstruction::Create(_)) => {
                        self.token_reserves.on_create(&mint);
                    },
                    Ok(DecodedInstruction::Buy(b)) => {
                        let price = self.token_reserves.price_or_default(&mint);
                        if self.auto_trader {
                            out.push(
                                SnipeCandidate {
                                    mint,
                                    sol_amount: b.max_sol_cost,
                                    token_price: price,
                                    slot,
                                },
                            );
                        }
                        self.token_reserves.on_buy(&mint, b.amount, b.max_sol_cost);
                    },
                    Err(_) => {},
                }
            }
            i = i + 1;
        }
    }

    /// Scans the transactions of one slot in order. A transaction or an
    /// instruction that does not qualify or does not decode is skipped; the
    /// rest of the scan goes on. Returns the candidates emitted, in order.
    pub fn process_entries(&mut self, transactions: &Vec<Message>, slot: u64) -> (r: Vec<
        SnipeCandidate,
    >)
        requires
            old(self).wf(),
        ensures
            final(self).wf(),
            final(self).target() == old(self).target(),
            final(self).reports() == old(self).reports(),
            (ScanState { ledger: final(self).ledger(), candidates: r@ }) == scan_messages(
                ScanState { ledger: old(self).ledger(), candidates: Seq::empty() },
                transactions@,
                old(self).target(),
                slot,
                old(self).reports(),
                transactions@.len() as int,
            ),
    {
        let mut out: Vec<SnipeCandidate> = Vec::new();
        let mut i: usize = 0;
        while i < transactions.len()
            invariant
                self.wf(),
                self.target() == old(self).target(),
                self.reports() == old(self).reports(),
                i <= transactions@.len(),
                (ScanState { ledger: self.ledger(), candidates: out@ }) == scan_messages(
                    ScanState { ledger: old(self).ledger(), candidates: Seq::empty() },
                    transactions@,
                    self.target(),
                    slot,
                    self.reports(),
                    i as int,
                ),
            decreases transactions@.len() - i,
        {
            self.process_message(&transactions[i], slot, &mut out);
            i = i + 1;
        }
        out
    }
}

} // verus!
