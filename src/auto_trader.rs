//! The snipe decision: the configured thresholds, whether an observed buy
//! qualifies, and the size of the order that mirrors it.
use vstd::prelude::*;
use vstd::arithmetic::div_mod::{lemma_fundamental_div_mod, lemma_fundamental_div_mod_converse};
use crate::reserves::{Price, DEFAULT_PRICE_LAMPORTS, DEFAULT_PRICE_UNITS, default_price};

verus! {

/// Default lower bound of the observed SOL amount that triggers a snipe (0.5 SOL).
pub const DEFAULT_MIN_SOL_PRICE: u64 = 500_000_000;

/// Default upper bound of the observed SOL amount that triggers a snipe (1 SOL).
pub const DEFAULT_MAX_SOL_PRICE: u64 = 1_000_000_000;

/// Default SOL spent per snipe (0.1 SOL).
pub const DEFAULT_BUY_AMOUNT: u64 = 100_000_000;

/// Default delay before the bought tokens are sold, in milliseconds.
pub const DEFAULT_SELL_DELAY_MS: u64 = 5000;

/// Default lifetime of a cached blockhash, in milliseconds.
pub const DEFAULT_BLOCKHASH_TTL_MS: u64 = 500;

/// Orders are sized at this percentage of the nominal amount, as a slippage margin.
pub const SLIPPAGE_PERCENT: u64 = 85;

/// The snipe configuration, set at startup and read by every decision.
#[derive(Clone, Copy, Debug, PartialEq, Eq, Structural)]
pub struct AutoTrader {
    pub running: bool,
    pub min_sol_price: u64,
    pub max_sol_price: u64,
    pub buy_amount: u64,
    pub sell_delay_ms: u64,
}

/// A buy to submit, and when to sell what it bought.
#[derive(Clone, Copy, Debug, PartialEq, Eq, Structural)]
pub struct SnipeOrder {
    pub token_amount: u64,
    pub max_sol_cost: u64,
    pub sell_delay_ms: u64,
}

/// Why no order was made.
#[derive(Clone, Copy, Debug, PartialEq, Eq, Structural)]
pub enum SnipeError {
    /// The quoted price is zero, so no amount can be derived from it.
    ZeroPrice,
}

/// Tokens (base units) that `sol` lamports buy at `price`, less the slippage
/// margin, rounded down and capped at `u64::MAX`:
/// `sol / (lamports / units) * 85 / 100`.
pub open spec fn order_amount(sol: u64, price: Price) -> u64
    recommends
        price.lamports > 0,
{
    let exact = (sol as int * price.units as int * SLIPPAGE_PERCENT as int) / (price.lamports as int
        * 100);
    if exact > u64::MAX {
        u64::MAX
    } else {
        exact as u64
    }
}

proof fn lemma_scaled_div(q: int, d: int, m: int)
    requires
        q >= 0,
        d > 0,
        m >= 0,
    ensures
        (q * m) / d == (q / d) * m + ((q % d) * m) / d,
        (q / d) * m <= (q * m) / d,
{
    let a = q / d;
    let b = q % d;
    lemma_fundamental_div_mod(q, d);
    let c = (b * m) / d;
    let e = (b * m) % d;
    lemma_fundamental_div_mod(b * m, d);
    assert(b * m >= 0) by (nonlinear_arith)
        requires
            b >= 0,
            m >= 0,
    ;
    assert(0 <= e < d);
    assert(q * m == (a * m + c) * d + e) by (nonlinear_arith)
        requires
            q == d * a + b,
            b * m == d * c + e,
    ;
    lemma_fundamental_div_mod_converse(q * m, d, a * m + c, e);
    assert(c >= 0) by (nonlinear_arith)
        requires
            b * m >= 0,
            d > 0,
            c == (b * m) / d,
    ;
}

/// Computes `order_amount` without overflow.
pub fn order_amount_for(sol: u64, price: Price) -> (r: u64)
    requires
        price.lamports > 0,
    ensures
        r == order_amount(sol, price),
{
    proof {
        assert((sol as int) * (price.units as int) <= 0xffff_ffff_ffff_ffff * 0xffff_ffff_ffff_ffff)
            by (nonlinear_arith)
            requires
                sol as int <= 0xffff_ffff_ffff_ffff,
                price.units as int <= 0xffff_ffff_ffff_ffff,
                sol >= 0,
                price.units >= 0,
        ;
    }
    let q: u128 = (sol as u128) * (price.units as u128);
    let d: u128 = (price.lamports as u128) * 100;
    let a: u128 = q / d;
    let b: u128 = q % d;
    proof {
        assert(a <= q / 100) by (nonlinear_arith)
            requires
                a == q / d,
                d >= 100,
                q >= 0,
        ;
        lemma_scaled_div(q as int, d as int, 85);
    }
    let high: u128 = a * 85;
    let low: u128 = (b * 85) / d;
    let total: u128 = high + low;
    proof {
        assert(total as int == (q as int * 85) / (d as int));
        assert((sol as int * price.units as int * 85) == q as int * 85);
    }
    if total > u64::MAX as u128 {
        u64::MAX
    } else {
        total as u64
    }
}

impl AutoTrader {
    /// The default configuration, not yet running.
    pub fn new() -> (r: AutoTrader)
        ensures
            r == (AutoTrader {
                running: false,
                min_sol_price: DEFAULT_MIN_SOL_PRICE,
                max_sol_price: DEFAULT_MAX_SOL_PRICE,
                buy_amount: DEFAULT_BUY_AMOUNT,
                sell_delay_ms: DEFAULT_SELL_DELAY_MS,
            }),
    {
        AutoTrader {
            running: false,
            min_sol_price: DEFAULT_MIN_SOL_PRICE,
            max_sol_price: DEFAULT_MAX_SOL_PRICE,
            buy_amount: DEFAULT_BUY_AMOUNT,
            sell_delay_ms: DEFAULT_SELL_DELAY_MS,
        }
    }

    /// Sets the inclusive window of observed SOL amounts that trigger a snipe.
    pub fn set_price_range(&mut self, min_sol_price: u64, max_sol_price: u64)
        ensures
            *final(self) == (AutoTrader { min_sol_price, max_sol_price, ..*old(self) }),
    {
        self.min_sol_price = min_sol_price;
        self.max_sol_price = max_sol_price;
    }

    /// Sets the SOL spent per snipe.
    pub fn set_buy_amount(&mut self, buy_amount: u64)
        ensures
            *final(self) == (AutoTrader { buy_amount, ..*old(self) }),
    {
        self.buy_amount = buy_amount;
    }

    /// Sets the delay before bought tokens are sold.
    pub fn set_sell_delay(&mut self, sell_delay_ms: u64)
        ensures
            *final(self) == (AutoTrader { sell_delay_ms, ..*old(self) }),
    {
        self.sell_delay_ms = sell_delay_ms;
    }

    /// Marks the trader as running; the sell poller is started alongside.
    pub fn start(&mut self)
        ensures
            *final(self) == (AutoTrader { running: true, ..*old(self) }),
    {
        self.running = true;
    }

    /// Whether an observed buy of `sol_amount` lamports is mirrored: inside
    /// the configured window, both ends included.
    pub fn should_snipe(&self, sol_amount: u64) -> (r: bool)
        ensures
            r == (self.min_sol_price <= sol_amount && sol_amount <= self.max_sol_price),
    {
        sol_amount >= self.min_sol_price && sol_amount <= self.max_sol_price
    }

    /// The order that mirrors a buy quoted at `token_price`: the configured
    /// SOL amount, converted to tokens at that price less the slippage margin.
    pub fn snipe_token(&self, token_price: Price) -> (r: Result<SnipeOrder, SnipeError>)
        ensures
            token_price.lamports == 0 <==> r == Err::<SnipeOrder, SnipeError>(SnipeError::ZeroPrice),
            token_price.lamports > 0 ==> r == Ok::<SnipeOrder, SnipeError>(
                SnipeOrder {
                    token_amount: order_amount(self.buy_amount, token_price),
                    max_sol_cost: self.buy_amount,
                    sell_delay_ms: self.sell_delay_ms,
                },
            ),
    {
        if token_price.lamports == 0 {
            return Err(SnipeError::ZeroPrice);
        }
        let token_amount = order_amount_for(self.buy_amount, token_price);
        Ok(SnipeOrder { token_amount, max_sol_cost: self.buy_amount, sell_delay_ms: self.sell_delay_ms })
    }
}

/// The amount to sell when none was recorded for a token: what the default
/// buy size would have bought at the default price, less the slippage margin.
pub fn estimated_sell_amount() -> (r: u64)
    ensures
        r == order_amount(DEFAULT_BUY_AMOUNT, default_price()),
{
    order_amount_for(DEFAULT_BUY_AMOUNT, Price { lamports: DEFAULT_PRICE_LAMPORTS, units: DEFAULT_PRICE_UNITS })
}

} // verus!
