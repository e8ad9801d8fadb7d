//! Per-token virtual reserves, built from observed trades, and the price
//! derived from them.
use vstd::prelude::*;
use crate::address::Address;

verus! {

/// Virtual SOL reserves of a new token, in lamports (30 SOL).
pub const INITIAL_VIRTUAL_SOL_RESERVES: u64 = 30_000_000_000;

/// Virtual token reserves of a new token, in base units (6 decimals).
pub const INITIAL_VIRTUAL_TOKEN_RESERVES: u64 = 1_073_000_000_000_000;

/// Numerator of the price assumed for a token with no reserve state.
pub const DEFAULT_PRICE_LAMPORTS: u64 = 33;

/// Denominator of the price assumed for a token with no reserve state.
pub const DEFAULT_PRICE_UNITS: u64 = 1_000_000;

/// The virtual reserves of one token.
#[derive(Clone, Copy, Debug, PartialEq, Eq, Structural)]
pub struct TokenReserves {
    pub virtual_sol_reserves: u64,
    pub virtual_token_reserves: u64,
}

/// A price as the ratio `lamports / units`: lamports per token base unit.
/// In SOL per whole token it is `(lamports / 1e9) / (units / 1e6)`.
#[derive(Clone, Copy, Debug, PartialEq, Eq, Structural)]
pub struct Price {
    pub lamports: u64,
    pub units: u64,
}

/// One token's entry in the ledger.
#[derive(Clone, Copy, Debug)]
pub struct ReserveEntry {
    pub mint: Address,
    pub reserves: TokenReserves,
}

/// Virtual reserves by token. Each token has at most one entry.
pub struct ReserveLedger {
    entries: Vec<ReserveEntry>,
}

pub open spec fn initial_reserves() -> TokenReserves {
    TokenReserves {
        virtual_sol_reserves: INITIAL_VIRTUAL_SOL_RESERVES,
        virtual_token_reserves: INITIAL_VIRTUAL_TOKEN_RESERVES,
    }
}

pub open spec fn default_price() -> Price {
    Price { lamports: DEFAULT_PRICE_LAMPORTS, units: DEFAULT_PRICE_UNITS }
}

pub open spec fn saturating_add_spec(a: u64, b: u64) -> u64 {
    if a + b > u64::MAX {
        u64::MAX
    } else {
        (a + b) as u64
    }
}

pub open spec fn saturating_sub_spec(a: u64, b: u64) -> u64 {
    if a < b {
        0
    } else {
        (a - b) as u64
    }
}

/// The reserves after a buy of `token_amount` for `sol_amount`: SOL side up,
/// token side down, both saturating.
pub open spec fn apply_buy(r: TokenReserves, token_amount: u64, sol_amount: u64) -> TokenReserves {
    TokenReserves {
        virtual_sol_reserves: saturating_add_spec(r.virtual_sol_reserves, sol_amount),
        virtual_token_reserves: saturating_sub_spec(r.virtual_token_reserves, token_amount),
    }
}

/// The reserves after a sequence of buys `(token_amount, sol_amount)`, in order.
pub open spec fn apply_buys(r: TokenReserves, buys: Seq<(u64, u64)>) -> TokenReserves
    decreases buys.len(),
{
    if buys.len() == 0 {
        r
    } else {
        apply_buy(apply_buys(r, buys.drop_last()), buys.last().0, buys.last().1)
    }
}

/// The price that reserves imply.
pub open spec fn reserves_price(r: TokenReserves) -> Price {
    Price { lamports: r.virtual_sol_reserves, units: r.virtual_token_reserves }
}

/// The price quoted for `k`: from its reserves, or the default.
pub open spec fn quoted_price(m: Map<Seq<u8>, TokenReserves>, k: Seq<u8>) -> Price {
    if m.contains_key(k) {
        reserves_price(m[k])
    } else {
        default_price()
    }
}

/// The ledger after a create event for `k`: seeded if `k` is new.
pub open spec fn ledger_after_create(m: Map<Seq<u8>, TokenReserves>, k: Seq<u8>) -> Map<
    Seq<u8>,
    TokenReserves,
> {
    if m.contains_key(k) {
        m
    } else {
        m.insert(k, initial_reserves())
    }
}

/// The ledger after a buy event on `k`: a token with no state stays absent.
pub open spec fn ledger_after_buy(
    m: Map<Seq<u8>, TokenReserves>,
    k: Seq<u8>,
    token_amount: u64,
    sol_amount: u64,
) -> Map<Seq<u8>, TokenReserves> {
    if m.contains_key(k) {
        m.insert(k, apply_buy(m[k], token_amount, sol_amount))
    } else {
        m
    }
}

pub open spec fn keys_unique(s: Seq<ReserveEntry>) -> bool {
    forall|i: int, j: int| 0 <= i < j < s.len() ==> s[i].mint@ != s[j].mint@
}

pub open spec fn entries_map(s: Seq<ReserveEntry>) -> Map<Seq<u8>, TokenReserves>
    decreases s.len(),
{
    if s.len() == 0 {
        Map::empty()
    } else {
        entries_map(s.drop_last()).insert(s.last().mint@, s.last().reserves)
    }
}

proof fn lemma_entries_map_index(s: Seq<ReserveEntry>, i: int)
    requires
        keys_unique(s),
        0 <= i < s.len(),
    ensures
        entries_map(s).contains_key(s[i].mint@),
        entries_map(s)[s[i].mint@] == s[i].reserves,
    decreases s.len(),
{
    if i < s.len() - 1 {
        lemma_entries_map_index(s.drop_last(), i);
    }
}

proof fn lemma_entries_map_absent(s: Seq<ReserveEntry>, k: Seq<u8>)
    requires
        forall|i: int| 0 <= i < s.len() ==> s[i].mint@ != k,
    ensures
        !entries_map(s).contains_key(k),
    decreases s.len(),
{
    if s.len() > 0 {
        lemma_entries_map_absent(s.drop_last(), k);
    }
}

proof fn lemma_entries_map_update(s: Seq<ReserveEntry>, i: int, e: ReserveEntry)
    requires
        keys_unique(s),
        0 <= i < s.len(),
        e.mint@ == s[i].mint@,
    ensures
        entries_map(s.update(i, e)) == entries_map(s).insert(e.mint@, e.reserves),
    decreases s.len(),
{
    let t = s.update(i, e);
    if i == s.len() - 1 {
        assert(t.drop_last() =~= s.drop_last());
        assert(entries_map(t) =~= entries_map(s).insert(e.mint@, e.reserves));
    } else {
        assert(t.drop_last() =~= s.drop_last().update(i, e));
        lemma_entries_map_update(s.drop_last(), i, e);
        assert(s.last().mint@ != e.mint@);
        assert(entries_map(t) =~= entries_map(s).insert(e.mint@, e.reserves));
    }
}

impl ReserveLedger {
    pub closed spec fn wf(&self) -> bool {
        keys_unique(self.entries@)
    }

    /// The ledger as a map from token identifier to reserves.
    pub closed spec fn view(&self) -> Map<Seq<u8>, TokenReserves> {
        entries_map(self.entries@)
    }

    /// An empty ledger.
    pub fn new() -> (r: ReserveLedger)
        ensures
            r.wf(),
            r.view() == Map::<Seq<u8>, TokenReserves>::empty(),
    {
        ReserveLedger { entries: Vec::new() }
    }

    fn find(&self, mint: &Address) -> (r: Option<usize>)
        requires
            self.wf(),
        ensures
            match r {
                Some(i) => i < self.entries@.len() && self.entries@[i as int].mint@ == mint@
                    && self.view().contains_key(mint@) && self.view()[mint@]
                    == self.entries@[i as int].reserves,
                None => !self.view().contains_key(mint@) && forall|j: int|
                    0 <= j < self.entries@.len() ==> self.entries@[j].mint@ != mint@,
            },
    {
        let mut i: usize = 0;
        while i < self.entries.len()
            invariant
                self.wf(),
                i <= self.entries@.len(),
                forall|j: int| 0 <= j < i ==> self.entries@[j].mint@ != mint@,
            decreases self.entries@.len() - i,
        {
            if self.entries[i].mint.same_as(mint) {
                proof {
                    lemma_entries_map_index(self.entries@, i as int);
                }
                return Some(i);
            }
            i = i + 1;
        }
        proof {
            lemma_entries_map_absent(self.entries@, mint@);
        }
        None
    }

    /// The reserves of `mint`, if a create event for it was seen.
    pub fn reserves_of(&self, mint: &Address) -> (r: Option<TokenReserves>)
        requires
            self.wf(),
        ensures
            r == (if self.view().contains_key(mint@) {
                Some(self.view()[mint@])
            } else {
                None
            }),
    {
        match self.find(mint) {
            Some(i) => Some(self.entries[i].reserves),
            None => None,
        }
    }

    /// Seeds `mint` with the initial virtual reserves, unless it has some.
    pub fn on_create(&mut self, mint: &Address)
        requires
            old(self).wf(),
        ensures
            final(self).wf(),
            final(self).view() == ledger_after_create(old(self).view(), mint@),
    {
        match self.find(mint) {
            Some(_) => {},
            None => {
                let e = ReserveEntry {
                    mint: *mint,
                    reserves: TokenReserves {
                        virtual_sol_reserves: INITIAL_VIRTUAL_SOL_RESERVES,
                        virtual_token_reserves: INITIAL_VIRTUAL_TOKEN_RESERVES,
                    },
                };
                proof {
                    assert(self.entries@.push(e).drop_last() =~= self.entries@);
                }
                self.entries.push(e);
                proof {
                    assert forall|a: int, b: int|
                        0 <= a < b < self.entries@.len() implies self.entries@[a].mint@
                        != self.entries@[b].mint@ by {
                        if b == self.entries@.len() - 1 {
                            assert(old(self).entries@[a].mint@ != mint@);
                        } else {
                            assert(old(self).entries@[a] == self.entries@[a]);
                            assert(old(self).entries@[b] == self.entries@[b]);
                        }
                    }
                }
            },
        }
    }

    /// The price of `mint` from its reserves, if it has any.
    pub fn price_of(&self, mint: &Address) -> (r: Option<Price>)
        requires
            self.wf(),
        ensures
            r == (if self.view().contains_key(mint@) {
                Some(reserves_price(self.view()[mint@]))
            } else {
                None
            }),
    {
        match self.find(mint) {
            Some(i) => {
                let res = self.entries[i].reserves;
                Some(Price { lamports: res.virtual_sol_reserves, units: res.virtual_token_reserves })
            },
            None => None,
        }
    }

    /// The price of `mint`, or the default estimate for an unknown token.
    pub fn price_or_default(&self, mint: &Address) -> (r: Price)
        requires
            self.wf(),
        ensures
            r == quoted_price(self.view(), mint@),
    {
        match self.price_of(mint) {
            Some(p) => p,
            None => Price { lamports: DEFAULT_PRICE_LAMPORTS, units: DEFAULT_PRICE_UNITS },
        }
    }

    /// Records a buy on `mint` and returns the price quoted just before it.
    pub fn on_buy(&mut self, mint: &Address, token_amount: u64, sol_amount: u64) -> (r: Price)
        requires
            old(self).wf(),
        ensures
            final(self).wf(),
            r == quoted_price(old(self).view(), mint@),
            final(self).view() == ledger_after_buy(old(self).view(), mint@, token_amount, sol_amount),
    {
        let price = self.price_or_default(mint);
        match self.find(mint) {
            Some(i) => {
                let old_res = self.entries[i].reserves;
                let e = ReserveEntry {
                    mint: self.entries[i].mint,
                    reserves: TokenReserves {
                        virtual_sol_reserves: old_res.virtual_sol_reserves.saturating_add(sol_amount),
                        virtual_token_reserves: old_res.virtual_token_reserves.saturating_sub(
                            token_amount,
                        ),
                    },
                };
                proof {
                    lemma_entries_map_update(self.entries@, i as int, e);
                    assert(self.entries@.update(i as int, e)[i as int] == e);
                }
                self.entries.set(i, e);
                proof {
                    assert forall|a: int, b: int|
                        0 <= a < b < self.entries@.len() implies self.entries@[a].mint@
                        != self.entries@[b].mint@ by {
                        assert(old(self).entries@[a].mint@ == self.entries@[a].mint@);
                        assert(old(self).entries@[b].mint@ == self.entries@[b].mint@);
                    }
                }
            },
            None => {},
        }
        price
    }
}

/// Over any sequence of buys, the SOL reserves never fall and the token
/// reserves never rise, whatever the amounts.
pub proof fn lemma_reserves_monotone(r: TokenReserves, buys: Seq<(u64, u64)>)
    ensures
        apply_buys(r, buys).virtual_sol_reserves >= r.virtual_sol_reserves,
        apply_buys(r, buys).virtual_token_reserves <= r.virtual_token_reserves,
    decreases buys.len(),
{
    if buys.len() > 0 {
        lemma_reserves_monotone(r, buys.drop_last());
    }
}

/// From a token's creation on, through any buys, its price stays strictly
/// positive while its token reserves are positive.
pub proof fn lemma_price_positive(buys: Seq<(u64, u64)>)
    ensures
        apply_buys(initial_reserves(), buys).virtual_token_reserves > 0 ==> {
            let p = reserves_price(apply_buys(initial_reserves(), buys));
            p.lamports > 0 && p.units > 0
        },
{
    lemma_reserves_monotone(initial_reserves(), buys);
}

} // verus!
