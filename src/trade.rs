//! Trade planning: the exact instructions of a buy or a sell, addressed to
//! the protocol's accounts. Signing and submission happen elsewhere, with no
//! retry and no preflight; this module decides what is sent.
use vstd::prelude::*;
use vstd::array::array_as_slice;
use vstd::bytes::{spec_u64_to_le_bytes, u64_to_le_bytes};
use vstd::slice::slice_to_vec;
use crate::address::Address;
use crate::protocol::{
    ASSOCIATED_TOKEN_PROGRAM,
    ATA_SELECTOR,
    BONDING_CURVE_SEED,
    EVENT_AUTHORITY,
    FEE_RECIPIENT,
    GLOBAL_ACCOUNT,
    PROXY_PROGRAM,
    PUMP_BUY_SELECTOR,
    PUMP_PROGRAM_ID,
    PUMP_SELL_SELECTOR,
    SYSTEM_PROGRAM,
    SYSVAR_RENT,
    TOKEN_PROGRAM,
};

verus! {

/// Priority fee of every trade, in micro-lamports per compute unit.
pub const COMPUTE_UNIT_PRICE: u64 = 200_000;

/// Compute-unit limit of every trade.
pub const COMPUTE_UNIT_LIMIT: u32 = 200_000;

/// An account an instruction reads or writes.
#[derive(Clone, Copy, Debug, PartialEq, Eq)]
pub struct AccountMeta {
    pub pubkey: Address,
    pub is_signer: bool,
    pub is_writable: bool,
}

/// One instruction: program, payload and accounts.
#[derive(Clone, Debug, PartialEq, Eq)]
pub struct InstructionPlan {
    pub program_id: Address,
    pub data: Vec<u8>,
    pub accounts: Vec<AccountMeta>,
}

/// A whole transaction: the compute-budget directives, then the instructions.
#[derive(Clone, Debug, PartialEq, Eq)]
pub struct TradePlan {
    pub compute_unit_price: u64,
    pub compute_unit_limit: u32,
    pub instructions: Vec<InstructionPlan>,
}

/// Why no plan could be made.
#[derive(Clone, Copy, Debug, PartialEq, Eq, Structural)]
pub enum TradeError {
    /// No program-derived address exists for the token's accounts.
    NoProgramAddress,
}

/// Where a trade's blockhash comes from.
#[derive(Clone, Copy, Debug, PartialEq, Eq)]
pub enum AnchorSource {
    /// The caller's cached blockhash.
    Cached(Address),
    /// None was given: fetch one from the network.
    Fetch,
}

impl View for AccountMeta {
    type V = (Seq<u8>, bool, bool);

    open spec fn view(&self) -> (Seq<u8>, bool, bool) {
        (self.pubkey@, self.is_signer, self.is_writable)
    }
}

/// What `Pubkey::try_find_program_address` yields for `seeds` under `program`.
pub uninterp spec fn program_address(seeds: Seq<Seq<u8>>, program: Seq<u8>) -> Option<Seq<u8>>;

pub open spec fn writable(k: Seq<u8>) -> (Seq<u8>, bool, bool) {
    (k, false, true)
}

pub open spec fn readonly(k: Seq<u8>) -> (Seq<u8>, bool, bool) {
    (k, false, false)
}

pub open spec fn signer(k: Seq<u8>) -> (Seq<u8>, bool, bool) {
    (k, true, true)
}

pub open spec fn seed_views(v: Seq<Vec<u8>>) -> Seq<Seq<u8>> {
    v.map_values(|s: Vec<u8>| s@)
}

pub open spec fn metas(v: Seq<AccountMeta>) -> Seq<(Seq<u8>, bool, bool)> {
    v.map_values(|m: AccountMeta| m@)
}

/// Seeds of a token's bonding-curve address.
pub open spec fn curve_seeds(mint: Seq<u8>) -> Seq<Seq<u8>> {
    seq![BONDING_CURVE_SEED@, mint]
}

/// Seeds of the associated token account of `wallet` for `mint`.
pub open spec fn ata_seeds(wallet: Seq<u8>, mint: Seq<u8>) -> Seq<Seq<u8>> {
    seq![wallet, TOKEN_PROGRAM@, mint]
}

/// The payload of a trade: selector, token amount, SOL limit.
pub open spec fn trade_data(selector: Seq<u8>, token_amount: u64, sol_limit: u64) -> Seq<u8> {
    selector + spec_u64_to_le_bytes(token_amount) + spec_u64_to_le_bytes(sol_limit)
}

/// The accounts of a buy.
pub open spec fn buy_accounts(
    user: Seq<u8>,
    mint: Seq<u8>,
    curve: Seq<u8>,
    curve_ata: Seq<u8>,
    user_ata: Seq<u8>,
) -> Seq<(Seq<u8>, bool, bool)> {
    seq![
        readonly(GLOBAL_ACCOUNT@),
        writable(FEE_RECIPIENT@),
        readonly(mint),
        writable(curve),
        writable(curve_ata),
        writable(user_ata),
        signer(user),
        readonly(SYSTEM_PROGRAM@),
        readonly(TOKEN_PROGRAM@),
        readonly(SYSVAR_RENT@),
        readonly(EVENT_AUTHORITY@),
        readonly(PUMP_PROGRAM_ID@),
    ]
}

/// The accounts of a sell.
pub open spec fn sell_accounts(
    user: Seq<u8>,
    mint: Seq<u8>,
    curve: Seq<u8>,
    curve_ata: Seq<u8>,
    user_ata: Seq<u8>,
) -> Seq<(Seq<u8>, bool, bool)> {
    seq![
        readonly(GLOBAL_ACCOUNT@),
        writable(FEE_RECIPIENT@),
        readonly(mint),
        writable(curve),
        writable(curve_ata),
        writable(user_ata),
        signer(user),
        readonly(SYSTEM_PROGRAM@),
        readonly(ASSOCIATED_TOKEN_PROGRAM@),
        readonly(TOKEN_PROGRAM@),
        readonly(EVENT_AUTHORITY@),
        readonly(PUMP_PROGRAM_ID@),
    ]
}

/// The accounts of the "ensure the buyer's token account exists" directive.
pub open spec fn ata_accounts(user: Seq<u8>, mint: Seq<u8>, user_ata: Seq<u8>) -> Seq<
    (Seq<u8>, bool, bool),
> {
    seq![
        signer(user),
        writable(user_ata),
        readonly(mint),
        readonly(SYSTEM_PROGRAM@),
        readonly(TOKEN_PROGRAM@),
        readonly(ASSOCIATED_TOKEN_PROGRAM@),
    ]
}

/// The three derived accounts of a trade by `user` in `mint`: bonding curve,
/// its token account, and the user's token account.
pub open spec fn derived_accounts(user: Seq<u8>, mint: Seq<u8>) -> Option<(Seq<u8>, Seq<u8>, Seq<u8>)> {
    match program_address(curve_seeds(mint), PUMP_PROGRAM_ID@) {
        None => None,
        Some(curve) => match program_address(ata_seeds(curve, mint), ASSOCIATED_TOKEN_PROGRAM@) {
            None => None,
            Some(curve_ata) => match program_address(
                ata_seeds(user, mint),
                ASSOCIATED_TOKEN_PROGRAM@,
            ) {
                None => None,
                Some(user_ata) => Some((curve, curve_ata, user_ata)),
            },
        },
    }
}

/// Relies on `Pubkey::try_find_program_address`: the derived address for
/// `seeds` under `program`, or `None` when no bump seed gives one. It depends
/// on its arguments alone.
#[verifier::external_body]
fn find_program_address(seeds: &Vec<Vec<u8>>, program: &Address) -> (r: Option<Address>)
    ensures
        match r {
            Some(a) => program_address(seed_views(seeds@), program@) == Some(a@),
            None => program_address(seed_views(seeds@), program@) == None::<Seq<u8>>,
        },
{
    let refs: Vec<&[u8]> = seeds.iter().map(|s| s.as_slice()).collect();
    let program_id = solana_sdk::pubkey::Pubkey::new_from_array(program.bytes);
    solana_sdk::pubkey::Pubkey::try_find_program_address(&refs, &program_id).map(
        |found| Address { bytes: found.0.to_bytes() },
    )
}

fn bytes_of(a: &Address) -> (r: Vec<u8>)
    ensures
        r@ == a@,
{
    slice_to_vec(array_as_slice(&a.bytes))
}

/// Derives the bonding curve, its token account and `user`'s token account.
fn derive_accounts(user: &Address, mint: &Address) -> (r: Option<(Address, Address, Address)>)
    ensures
        match r {
            Some(t) => derived_accounts(user@, mint@) == Some((t.0@, t.1@, t.2@)),
            None => derived_accounts(user@, mint@) == None::<(Seq<u8>, Seq<u8>, Seq<u8>)>,
        },
{
    let seed = slice_to_vec(array_as_slice(&BONDING_CURVE_SEED));
    let curve_seeds_v: Vec<Vec<u8>> = vec![seed, bytes_of(mint)];
    assert(seed_views(curve_seeds_v@) =~= curve_seeds(mint@));
    let curve = match find_program_address(&curve_seeds_v, &Address { bytes: PUMP_PROGRAM_ID }) {
        Some(c) => c,
        None => return None,
    };
    let ata_program = Address { bytes: ASSOCIATED_TOKEN_PROGRAM };
    let curve_ata_seeds: Vec<Vec<u8>> = vec![bytes_of(&curve), bytes_of(&Address { bytes: TOKEN_PROGRAM }), bytes_of(mint)];
    assert(seed_views(curve_ata_seeds@) =~= ata_seeds(curve@, mint@));
    let curve_ata = match find_program_address(&curve_ata_seeds, &ata_program) {
        Some(c) => c,
        None => return None,
    };
    let user_ata_seeds: Vec<Vec<u8>> = vec![bytes_of(user), bytes_of(&Address { bytes: TOKEN_PROGRAM }), bytes_of(mint)];
    assert(seed_views(user_ata_seeds@) =~= ata_seeds(user@, mint@));
    let user_ata = match find_program_address(&user_ata_seeds, &ata_program) {
        Some(c) => c,
        None => return None,
    };
    Some((curve, curve_ata, user_ata))
}

fn trade_payload(selector: &[u8; 8], token_amount: u64, sol_limit: u64) -> (r: Vec<u8>)
    ensures
        r@ == trade_data(selector@, token_amount, sol_limit),
{
    let mut data = slice_to_vec(array_as_slice(selector));
    let mut a = u64_to_le_bytes(token_amount);
    let mut b = u64_to_le_bytes(sol_limit);
    data.append(&mut a);
    data.append(&mut b);
    data
}

fn ro(k: Address) -> (r: AccountMeta)
    ensures
        r@ == readonly(k@),
{
    AccountMeta { pubkey: k, is_signer: false, is_writable: false }
}

fn rw(k: Address) -> (r: AccountMeta)
    ensures
        r@ == writable(k@),
{
    AccountMeta { pubkey: k, is_signer: false, is_writable: true }
}

fn sg(k: Address) -> (r: AccountMeta)
    ensures
        r@ == signer(k@),
{
    AccountMeta { pubkey: k, is_signer: true, is_writable: true }
}

/// Plans a buy of `token_amount` of `token_mint` by `user`, spending at most
/// `max_sol_cost`: first the idempotent creation of the buyer's token
/// account, then the buy, both routed through the proxy program.
pub fn pump_buy(user: &Address, token_mint: &Address, token_amount: u64, max_sol_cost: u64) -> (r:
    Result<TradePlan, TradeError>)
    ensures
        match derived_accounts(user@, token_mint@) {
            None => r == Err::<TradePlan, TradeError>(TradeError::NoProgramAddress),
            Some((curve, curve_ata, user_ata)) => r is Ok && {
                let p = r->Ok_0;
                &&& p.compute_unit_price == COMPUTE_UNIT_PRICE
                &&& p.compute_unit_limit == COMPUTE_UNIT_LIMIT
                &&& p.instructions@.len() == 2
                &&& p.instructions@[0].program_id@ == PROXY_PROGRAM@
                &&& p.instructions@[0].data@ == ATA_SELECTOR@.push(0)
                &&& metas(p.instructions@[0].accounts@) == ata_accounts(user@, token_mint@, user_ata)
                &&& p.instructions@[1].program_id@ == PROXY_PROGRAM@
                &&& p.instructions@[1].data@ == trade_data(
                    PUMP_BUY_SELECTOR@,
                    token_amount,
                    max_sol_cost,
                )
                &&& metas(p.instructions@[1].accounts@) == buy_accounts(
                    user@,
                    token_mint@,
                    curve,
                    curve_ata,
                    user_ata,
                )
            },
        },
{
    let (curve, curve_ata, user_ata) = match derive_accounts(user, token_mint) {
        Some(t) => t,
        None => return Err(TradeError::NoProgramAddress),
    };
    let mint = *token_mint;
    let ata_accounts_v: Vec<AccountMeta> = vec![
        sg(*user),
        rw(user_ata),
        ro(mint),
        ro(Address { bytes: SYSTEM_PROGRAM }),
        ro(Address { bytes: TOKEN_PROGRAM }),
        ro(Address { bytes: ASSOCIATED_TOKEN_PROGRAM }),
    ];
    assert(metas(ata_accounts_v@) =~= ata_accounts(user@, mint@, user_ata@));
    let mut ata_data = slice_to_vec(array_as_slice(&ATA_SELECTOR));
    ata_data.push(0);
    let ata_ix = InstructionPlan {
        program_id: Address { bytes: PROXY_PROGRAM },
        data: ata_data,
        accounts: ata_accounts_v,
    };
    let buy_accounts_v: Vec<AccountMeta> = vec![
        ro(Address { bytes: GLOBAL_ACCOUNT }),
        rw(Address { bytes: FEE_RECIPIENT }),
        ro(mint),
        rw(curve),
        rw(curve_ata),
        rw(user_ata),
        sg(*user),
        ro(Address { bytes: SYSTEM_PROGRAM }),
        ro(Address { bytes: TOKEN_PROGRAM }),
        ro(Address { bytes: SYSVAR_RENT }),
        ro(Address { bytes: EVENT_AUTHORITY }),
        ro(Address { bytes: PUMP_PROGRAM_ID }),
    ];
    assert(metas(buy_accounts_v@) =~= buy_accounts(user@, mint@, curve@, curve_ata@, user_ata@));
    let buy_ix = InstructionPlan {
        program_id: Address { bytes: PROXY_PROGRAM },
        data: trade_payload(&PUMP_BUY_SELECTOR, token_amount, max_sol_cost),
        accounts: buy_accounts_v,
    };
    Ok(
        TradePlan {
            compute_unit_price: COMPUTE_UNIT_PRICE,
            compute_unit_limit: COMPUTE_UNIT_LIMIT,
            instructions: vec![ata_ix, buy_ix],
        },
    )
}

/// Plans a sell of `token_amount` of `token_mint` by `user`, accepting no
/// less than `min_sol_receive`, routed through the proxy program.
pub fn pump_sell(user: &Address, token_mint: &Address, token_amount: u64, min_sol_receive: u64) -> (r:
    Result<TradePlan, TradeError>)
    ensures
        match derived_accounts(user@, token_mint@) {
            None => r == Err::<TradePlan, TradeError>(TradeError::NoProgramAddress),
            Some((curve, curve_ata, user_ata)) => r is Ok && {
                let p = r->Ok_0;
                &&& p.compute_unit_price == COMPUTE_UNIT_PRICE
                &&& p.compute_unit_limit == COMPUTE_UNIT_LIMIT
                &&& p.instructions@.len() == 1
                &&& p.instructions@[0].program_id@ == PROXY_PROGRAM@
                &&& p.instructions@[0].data@ == trade_data(
                    PUMP_SELL_SELECTOR@,
                    token_amount,
                    min_sol_receive,
                )
                &&& metas(p.instructions@[0].accounts@) == sell_accounts(
                    user@,
                    token_mint@,
                    curve,
                    curve_ata,
                    user_ata,
                )
            },
        },
{
    let (curve, curve_ata, user_ata) = match derive_accounts(user, token_mint) {
        Some(t) => t,
        None => return Err(TradeError::NoProgramAddress),
    };
    let mint = *token_mint;
    let sell_accounts_v: Vec<AccountMeta> = vec![
        ro(Address { bytes: GLOBAL_ACCOUNT }),
        rw(Address { bytes: FEE_RECIPIENT }),
        ro(mint),
        rw(curve),
        rw(curve_ata),
        rw(user_ata),
        sg(*user),
        ro(Address { bytes: SYSTEM_PROGRAM }),
        ro(Address { bytes: ASSOCIATED_TOKEN_PROGRAM }),
        ro(Address { bytes: TOKEN_PROGRAM }),
        ro(Address { bytes: EVENT_AUTHORITY }),
        ro(Address { bytes: PUMP_PROGRAM_ID }),
    ];
    assert(metas(sell_accounts_v@) =~= sell_accounts(user@, mint@, curve@, curve_ata@, user_ata@));
    let sell_ix = InstructionPlan {
        program_id: Address { bytes: PROXY_PROGRAM },
        data: trade_payload(&PUMP_SELL_SELECTOR, token_amount, min_sol_receive),
        accounts: sell_accounts_v,
    };
    Ok(
        TradePlan {
            compute_unit_price: COMPUTE_UNIT_PRICE,
            compute_unit_limit: COMPUTE_UNIT_LIMIT,
            instructions: vec![sell_ix],
        },
    )
}

/// The blockhash source of a trade: the cached one if given, else a fetch.
pub fn resolve_anchor(cached_blockhash: Option<Address>) -> (r: AnchorSource)
    ensures
        r == (match cached_blockhash {
            Some(h) => AnchorSource::Cached(h),
            None => AnchorSource::Fetch,
        }),
{
    match cached_blockhash {
        Some(h) => AnchorSource::Cached(h),
        None => AnchorSource::Fetch,
    }
}

} // verus!
