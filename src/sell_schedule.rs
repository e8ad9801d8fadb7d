//! The delayed-sell schedule: tokens bought, with the amount to sell and
//! when. A claim releases every entry that is due and removes it in the same
//! step, so no entry is released twice.
use vstd::prelude::*;
use crate::address::Address;
use crate::auto_trader::estimated_sell_amount;
use crate::auto_trader::order_amount;
use crate::auto_trader::DEFAULT_BUY_AMOUNT;
use crate::reserves::{default_price, saturating_add_spec};

verus! {

/// A scheduled sell.
#[derive(Clone, Copy, Debug, PartialEq, Eq)]
pub struct PendingSell {
    pub mint: Address,
    pub amount: u64,
    pub due_ms: u64,
}

/// Scheduled sells; each token appears at most once.
pub struct SellSchedule {
    pending: Vec<PendingSell>,
}

/// The entries of `s` that are due at `now`, in order.
pub open spec fn due_part(s: Seq<PendingSell>, now: u64) -> Seq<PendingSell>
    decreases s.len(),
{
    if s.len() == 0 {
        s
    } else if s.last().due_ms <= now {
        due_part(s.drop_last(), now).push(s.last())
    } else {
        due_part(s.drop_last(), now)
    }
}

/// The entries of `s` that are not yet due at `now`, in order.
pub open spec fn later_part(s: Seq<PendingSell>, now: u64) -> Seq<PendingSell>
    decreases s.len(),
{
    if s.len() == 0 {
        s
    } else if s.last().due_ms > now {
        later_part(s.drop_last(), now).push(s.last())
    } else {
        later_part(s.drop_last(), now)
    }
}

/// The entries of `s` for token `k`, in order.
pub open spec fn for_token(s: Seq<PendingSell>, k: Seq<u8>) -> Seq<PendingSell>
    decreases s.len(),
{
    if s.len() == 0 {
        s
    } else if s.last().mint@ == k {
        for_token(s.drop_last(), k).push(s.last())
    } else {
        for_token(s.drop_last(), k)
    }
}

/// The entries of `s` for any token but `k`, in order.
pub open spec fn without_token(s: Seq<PendingSell>, k: Seq<u8>) -> Seq<PendingSell>
    decreases s.len(),
{
    if s.len() == 0 {
        s
    } else if s.last().mint@ != k {
        without_token(s.drop_last(), k).push(s.last())
    } else {
        without_token(s.drop_last(), k)
    }
}

/// When a sell scheduled at `now` with `delay` falls due (saturating).
pub open spec fn due_time(now: u64, delay: u64) -> u64 {
    saturating_add_spec(now, delay)
}

/// The schedule after recording `mint`: any earlier entry for it is replaced.
pub open spec fn scheduled(s: Seq<PendingSell>, mint: Address, amount: u64, due: u64) -> Seq<
    PendingSell,
> {
    without_token(s, mint@).push(PendingSell { mint, amount, due_ms: due })
}

pub open spec fn tokens_unique(s: Seq<PendingSell>) -> bool {
    forall|i: int, j: int| 0 <= i < j < s.len() ==> s[i].mint@ != s[j].mint@
}

/// The amount to sell: the recorded one, or the default estimate.
pub open spec fn sell_amount(recorded: Option<u64>) -> u64 {
    match recorded {
        Some(a) => a,
        None => order_amount(DEFAULT_BUY_AMOUNT, default_price()),
    }
}

proof fn lemma_without_token_keeps(s: Seq<PendingSell>, k: Seq<u8>)
    ensures
        forall|i: int| 0 <= i < without_token(s, k).len() ==> s.contains(#[trigger] without_token(s, k)[i]),
        forall|i: int|
            0 <= i < without_token(s, k).len() ==> (#[trigger] without_token(s, k)[i]).mint@ != k,
        tokens_unique(s) ==> tokens_unique(without_token(s, k)),
    decreases s.len(),
{
    if s.len() > 0 {
        lemma_without_token_keeps(s.drop_last(), k);
        let w = without_token(s.drop_last(), k);
        assert forall|i: int| 0 <= i < without_token(s, k).len() implies s.contains(
            #[trigger] without_token(s, k)[i],
        ) && without_token(s, k)[i].mint@ != k by {
            if i < w.len() {
                let x = w[i];
                assert(without_token(s.drop_last(), k)[i].mint@ != k && s.drop_last().contains(
                    without_token(s.drop_last(), k)[i],
                ));
                let j = choose|j: int| 0 <= j < s.drop_last().len() && s.drop_last()[j] == x;
                assert(s[j] == x);
            } else {
                assert(s[s.len() - 1] == s.last());
            }
        }
        if tokens_unique(s) {
            assert(tokens_unique(s.drop_last()));
            if s.last().mint@ != k {
                assert forall|i: int, j: int|
                    0 <= i < j < without_token(s, k).len() implies without_token(s, k)[i].mint@
                    != without_token(s, k)[j].mint@ by {
                    if j == w.len() {
                        let x = w[i];
                        assert(without_token(s.drop_last(), k)[i].mint@ != k && s.drop_last().contains(
                            without_token(s.drop_last(), k)[i],
                        ));
                        let m = choose|m: int| 0 <= m < s.drop_last().len() && s.drop_last()[m] == x;
                        assert(s[m] == x);
                    }
                }
            }
        }
    }
}

proof fn lemma_for_token_without(s: Seq<PendingSell>, k: Seq<u8>)
    ensures
        for_token(without_token(s, k), k) == Seq::<PendingSell>::empty(),
    decreases s.len(),
{
    if s.len() > 0 {
        lemma_for_token_without(s.drop_last(), k);
        let w = without_token(s.drop_last(), k);
        if s.last().mint@ != k {
            assert(w.push(s.last()).drop_last() =~= w);
        }
    }
}

proof fn lemma_for_token_due(s: Seq<PendingSell>, k: Seq<u8>, now: u64)
    ensures
        for_token(due_part(s, now), k) == due_part(for_token(s, k), now),
    decreases s.len(),
{
    if s.len() > 0 {
        lemma_for_token_due(s.drop_last(), k, now);
        let d = due_part(s.drop_last(), now);
        let f = for_token(s.drop_last(), k);
        assert(d.push(s.last()).drop_last() =~= d);
        assert(f.push(s.last()).drop_last() =~= f);
    }
}

proof fn lemma_due_of_later(s: Seq<PendingSell>, now: u64)
    ensures
        due_part(later_part(s, now), now) == Seq::<PendingSell>::empty(),
    decreases s.len(),
{
    if s.len() > 0 {
        lemma_due_of_later(s.drop_last(), now);
        let l = later_part(s.drop_last(), now);
        assert(l.push(s.last()).drop_last() =~= l);
    }
}

proof fn lemma_parts_unique(s: Seq<PendingSell>, now: u64)
    requires
        tokens_unique(s),
    ensures
        tokens_unique(later_part(s, now)),
        forall|i: int|
            0 <= i < later_part(s, now).len() ==> s.contains(#[trigger] later_part(s, now)[i]),
    decreases s.len(),
{
    if s.len() > 0 {
        assert(tokens_unique(s.drop_last()));
        lemma_parts_unique(s.drop_last(), now);
        let l = later_part(s.drop_last(), now);
        assert forall|i: int| 0 <= i < later_part(s, now).len() implies s.contains(
            #[trigger] later_part(s, now)[i],
        ) by {
            if i < l.len() {
                let x = l[i];
                assert(s.drop_last().contains(x));
                let j = choose|j: int| 0 <= j < s.drop_last().len() && s.drop_last()[j] == x;
                assert(s[j] == x);
            } else {
                assert(s[s.len() - 1] == s.last());
            }
        }
        if s.last().due_ms > now {
            assert forall|i: int, j: int|
                0 <= i < j < later_part(s, now).len() implies later_part(s, now)[i].mint@
                != later_part(s, now)[j].mint@ by {
                if j == l.len() {
                    let x = l[i];
                    assert(s.drop_last().contains(x));
                    let m = choose|m: int| 0 <= m < s.drop_last().len() && s.drop_last()[m] == x;
                    assert(s[m] == x);
                }
            }
        }
    }
}

impl SellSchedule {
    pub closed spec fn wf(&self) -> bool {
        tokens_unique(self.pending@)
    }

    /// The scheduled sells, in the order they were recorded.
    pub closed spec fn view(&self) -> Seq<PendingSell> {
        self.pending@
    }

    /// An empty schedule.
    pub fn new() -> (r: SellSchedule)
        ensures
            r.wf(),
            r@ == Seq::<PendingSell>::empty(),
    {
        SellSchedule { pending: Vec::new() }
    }

    /// Schedules the sale of `amount` of `mint`, due `delay_ms` after
    /// `now_ms`; an earlier entry for the same token is replaced.
    pub fn store_mint_with_amount(&mut self, mint: &Address, amount: u64, delay_ms: u64, now_ms: u64)
        requires
            old(self).wf(),
        ensures
            final(self).wf(),
            final(self)@ == scheduled(old(self)@, *mint, amount, due_time(now_ms, delay_ms)),
    {
        let due = now_ms.saturating_add(delay_ms);
        let mut kept: Vec<PendingSell> = Vec::new();
        let mut i: usize = 0;
        while i < self.pending.len()
            invariant
                i <= self.pending@.len(),
                kept@ == without_token(self.pending@.subrange(0, i as int), mint@),
            decreases self.pending@.len() - i,
        {
            let p = self.pending[i];
            proof {
                assert(self.pending@.subrange(0, i + 1).drop_last() =~= self.pending@.subrange(
                    0,
                    i as int,
                ));
            }
            if !p.mint.same_as(mint) {
                kept.push(p);
            }
            i = i + 1;
        }
        proof {
            assert(self.pending@.subrange(0, self.pending@.len() as int) =~= self.pending@);
            lemma_without_token_keeps(self.pending@, mint@);
        }
        let entry = PendingSell { mint: *mint, amount, due_ms: due };
        kept.push(entry);
        proof {
            let w = without_token(self.pending@, mint@);
            assert forall|a: int, b: int| 0 <= a < b < kept@.len() implies kept@[a].mint@
                != kept@[b].mint@ by {
                if b == kept@.len() - 1 {
                    assert(w[a].mint@ != mint@);
                } else {
                    assert(kept@[a] == w[a]);
                    assert(kept@[b] == w[b]);
                }
            }
        }
        self.pending = kept;
    }

    /// The amount recorded for `mint`, if it is scheduled.
    pub fn get_mint_amount(&self, mint: &Address) -> (r: Option<u64>)
        requires
            self.wf(),
        ensures
            match r {
                Some(a) => exists|i: int|
                    0 <= i < self@.len() && self@[i].mint@ == mint@ && self@[i].amount == a,
                None => forall|i: int| 0 <= i < self@.len() ==> self@[i].mint@ != mint@,
            },
    {
        let mut i: usize = 0;
        while i < self.pending.len()
            invariant
                i <= self.pending@.len(),
                forall|j: int| 0 <= j < i ==> self.pending@[j].mint@ != mint@,
            decreases self.pending@.len() - i,
        {
            if self.pending[i].mint.same_as(mint) {
                proof {
                    assert(self@[i as int].mint@ == mint@ && self@[i as int].amount
                        == self.pending@[i as int].amount);
                }
                return Some(self.pending[i].amount);
            }
            i = i + 1;
        }
        None
    }

    /// Releases every entry due at `now_ms` and removes it, in one step.
    pub fn get_and_remove_mints_to_sell(&mut self, now_ms: u64) -> (r: Vec<PendingSell>)
        requires
            old(self).wf(),
        ensures
            final(self).wf(),
            r@ == due_part(old(self)@, now_ms),
            final(self)@ == later_part(old(self)@, now_ms),
    {
        let mut due: Vec<PendingSell> = Vec::new();
        let mut later: Vec<PendingSell> = Vec::new();
        let mut i: usize = 0;
        while i < self.pending.len()
            invariant
                i <= self.pending@.len(),
                due@ == due_part(self.pending@.subrange(0, i as int), now_ms),
                later@ == later_part(self.pending@.subrange(0, i as int), now_ms),
            decreases self.pending@.len() - i,
        {
            let p = self.pending[i];
            proof {
                assert(self.pending@.subrange(0, i + 1).drop_last() =~= self.pending@.subrange(
                    0,
                    i as int,
                ));
            }
            if p.due_ms <= now_ms {
                due.push(p);
            } else {
                later.push(p);
            }
            i = i + 1;
        }
        proof {
            assert(self.pending@.subrange(0, self.pending@.len() as int) =~= self.pending@);
            lemma_parts_unique(self.pending@, now_ms);
        }
        self.pending = later;
        due
    }
}

/// When a sell scheduled now with `delay_ms` falls due.
pub fn sell_due_time(now_ms: u64, delay_ms: u64) -> (r: u64)
    ensures
        r == due_time(now_ms, delay_ms),
{
    now_ms.saturating_add(delay_ms)
}

/// The amount to sell for a claimed token: the recorded amount, or the
/// estimate from the default buy size and price when none was recorded.
pub fn resolve_sell_amount(recorded: Option<u64>) -> (r: u64)
    ensures
        r == sell_amount(recorded),
{
    match recorded {
        Some(a) => a,
        None => estimated_sell_amount(),
    }
}

/// A sell scheduled at `now` with `delay` is not released by a claim before
/// it is due, is released exactly once, with its amount, by a claim at or
/// after that time, and a second claim at the same time releases nothing.
pub proof fn lemma_schedule_exact(
    s: Seq<PendingSell>,
    mint: Address,
    amount: u64,
    now: u64,
    delay: u64,
    claim_at: u64,
)
    ensures
        ({
            let after = scheduled(s, mint, amount, due_time(now, delay));
            &&& claim_at < due_time(now, delay) ==> for_token(due_part(after, claim_at), mint@)
                == Seq::<PendingSell>::empty()
            &&& claim_at >= due_time(now, delay) ==> for_token(due_part(after, claim_at), mint@)
                == seq![PendingSell { mint, amount, due_ms: due_time(now, delay) }]
            &&& due_part(later_part(after, claim_at), claim_at) == Seq::<PendingSell>::empty()
        }),
{
    let e = PendingSell { mint, amount, due_ms: due_time(now, delay) };
    let w = without_token(s, mint@);
    let after = w.push(e);
    lemma_for_token_due(after, mint@, claim_at);
    lemma_for_token_without(s, mint@);
    assert(after.drop_last() =~= w);
    assert(for_token(after, mint@) =~= seq![e]) by {
        assert(for_token(after, mint@) == for_token(w, mint@).push(e));
    }
    let one = seq![e];
    let none = Seq::<PendingSell>::empty();
    assert(one.drop_last() =~= none);
    assert(one.last() == e);
    assert(due_part(none, claim_at) == none);
    if claim_at >= e.due_ms {
        assert(due_part(one, claim_at) == due_part(none, claim_at).push(e));
        assert(none.push(e) =~= one);
    } else {
        assert(due_part(one, claim_at) == due_part(none, claim_at));
    }
    lemma_due_of_later(after, claim_at);
}

} // verus!
