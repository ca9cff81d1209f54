//! A single-loop engine: ticks are handled one after another; each tick updates the
//! symbol's indicators, the strategy decides, a simple risk check turns the decision
//! into an order, and the order is counted.  The loop itself belongs to the caller.
//!
//! Decimal arithmetic that would overflow makes a tick fail as a whole (nothing is
//! changed); the caller treats that as fatal.
use vstd::prelude::*;
use crate::decimal::{
    Dec, add_spec, sub_spec, mul_spec, div_spec, sum_in_range, product_in_range,
    quotient_in_range, lemma_int_quotient_in_range,
};
use crate::decimal::pow10;
use crate::engine::mock_binance_gateway::{zero, zero_dec};
use crate::f_engine::types::{OrderRequest, OrderType, Side, TradingAction, TradingDecision};
use crate::keyed::{find_key, keys_unique, to_map, lemma_to_map_index, lemma_to_map_update, lemma_to_map_push};

verus! {

// ---------------------------------------------------------------- indicator formulas

/// The smoothing factor `2 / (period + 1)`.
pub open spec fn ema_factor(period: nat) -> Dec {
    div_spec(Dec::int_dec(2), Dec::int_dec(period + 1int))
}

/// The EMA of the prices `s` with factor `k`: the first price, then each next price `p`
/// moves it to `p * k + ema * (1 - k)`; zero for no prices.
pub open spec fn ema_of(s: Seq<Dec>, k: Dec) -> Dec
    decreases s.len(),
{
    if s.len() == 0 {
        zero_dec()
    } else if s.len() == 1 {
        s[0]
    } else {
        add_spec(mul_spec(s.last(), k), mul_spec(ema_of(s.drop_last(), k), sub_spec(Dec::int_dec(1), k)))
    }
}

/// Every step of `ema_of(s, k)` stays below the decimal limit.
pub open spec fn ema_steps_ok(s: Seq<Dec>, k: Dec) -> bool
    decreases s.len(),
{
    if s.len() <= 1 {
        true
    } else {
        let prev = ema_of(s.drop_last(), k);
        let j = sub_spec(Dec::int_dec(1), k);
        &&& ema_steps_ok(s.drop_last(), k)
        &&& product_in_range(s.last(), k)
        &&& product_in_range(prev, j)
        &&& sum_in_range(mul_spec(s.last(), k), mul_spec(prev, j), 1)
    }
}

/// The EMA of `s` over `period` can be computed without overflow.
pub open spec fn ema_ok(s: Seq<Dec>, period: nat) -> bool {
    s.len() <= 1 || (sum_in_range(Dec::int_dec(1), ema_factor(period), -1) && ema_steps_ok(
        s,
        ema_factor(period),
    ))
}

/// The steps of a prefix are among the steps of the whole.
proof fn lemma_steps_ok_prefix(s: Seq<Dec>, k: Dec, m: int)
    requires
        ema_steps_ok(s, k),
        1 <= m <= s.len(),
    ensures
        ema_steps_ok(s.take(m), k),
    decreases s.len(),
{
    if m == s.len() {
        assert(s.take(m) =~= s);
    } else {
        assert(s.drop_last().take(m) =~= s.take(m));
        lemma_steps_ok_prefix(s.drop_last(), k, m);
    }
}

/// The sums of the rises and of the falls between neighbouring prices.
pub open spec fn move_sums(s: Seq<Dec>) -> (Dec, Dec)
    decreases s.len(),
{
    if s.len() <= 1 {
        (zero_dec(), zero_dec())
    } else {
        let prev = move_sums(s.drop_last());
        let change = sub_spec(s.last(), s[s.len() - 2]);
        if change.val() > 0 {
            (add_spec(prev.0, change), prev.1)
        } else {
            (prev.0, sub_spec(prev.1, change))
        }
    }
}

/// Every step of `move_sums(s)` stays below the decimal limit.
pub open spec fn move_sums_ok(s: Seq<Dec>) -> bool
    decreases s.len(),
{
    if s.len() <= 1 {
        true
    } else {
        let prev = move_sums(s.drop_last());
        let change = sub_spec(s.last(), s[s.len() - 2]);
        &&& move_sums_ok(s.drop_last())
        &&& sum_in_range(s.last(), s[s.len() - 2], -1)
        &&& if change.val() > 0 {
            sum_in_range(prev.0, change, 1)
        } else {
            sum_in_range(prev.1, change, -1)
        }
    }
}

/// The steps of a prefix are among the steps of the whole.
proof fn lemma_sums_ok_prefix(s: Seq<Dec>, m: int)
    requires
        move_sums_ok(s),
        1 <= m <= s.len(),
    ensures
        move_sums_ok(s.take(m)),
    decreases s.len(),
{
    if m == s.len() {
        assert(s.take(m) =~= s);
    } else {
        assert(s.drop_last().take(m) =~= s.take(m));
        lemma_sums_ok_prefix(s.drop_last(), m);
    }
}

/// The RSI of the prices: the rises and falls are averaged over 14; with no falls it
/// is 100, else `100 - 100 / (1 + average rise / average fall)`.
pub open spec fn rsi_of(s: Seq<Dec>) -> Dec {
    let sums = move_sums(s);
    let avg_gain = div_spec(sums.0, Dec::int_dec(14));
    let avg_loss = div_spec(sums.1, Dec::int_dec(14));
    if avg_loss.val() == 0 {
        Dec::int_dec(100)
    } else {
        let rs = div_spec(avg_gain, avg_loss);
        sub_spec(Dec::int_dec(100), div_spec(Dec::int_dec(100), add_spec(Dec::int_dec(1), rs)))
    }
}

/// The RSI of the prices can be computed without overflow.
pub open spec fn rsi_ok(s: Seq<Dec>) -> bool {
    let sums = move_sums(s);
    let avg_gain = div_spec(sums.0, Dec::int_dec(14));
    let avg_loss = div_spec(sums.1, Dec::int_dec(14));
    let rs = div_spec(avg_gain, avg_loss);
    let q = div_spec(Dec::int_dec(100), add_spec(Dec::int_dec(1), rs));
    &&& move_sums_ok(s)
    &&& quotient_in_range(sums.0, Dec::int_dec(14))
    &&& quotient_in_range(sums.1, Dec::int_dec(14))
    &&& avg_loss.val() != 0 ==> {
        &&& quotient_in_range(avg_gain, avg_loss)
        &&& sum_in_range(Dec::int_dec(1), rs, 1)
        &&& quotient_in_range(Dec::int_dec(100), add_spec(Dec::int_dec(1), rs))
        &&& sum_in_range(Dec::int_dec(100), q, -1)
    }
}

/// The EMA over `period` of the prices (zero for none), or `None` where the decimal
/// arithmetic overflows.
pub fn calc_ema(prices: &Vec<Dec>, period: usize) -> (r: Option<Dec>)
    requires
        period < usize::MAX,
    ensures
        r matches Some(v) ==> v == ema_of(prices@, ema_factor(period as nat)),
        ema_ok(prices@, period as nat) ==> r is Some,
{
    let n = prices.len();
    if n == 0 {
        return Some(zero());
    }
    let two = Dec::from_u64(2);
    let den = Dec::from_u64((period + 1) as u64);
    proof {
        lemma_int_quotient_in_range(2, period + 1);
    }
    let k = two.div(&den);
    let mut ema = prices[0].clone();
    if n == 1 {
        return Some(ema);
    }
    let one = Dec::from_u64(1);
    let j = match one.checked_sub(&k) {
        Some(j) => j,
        None => return None,
    };
    let ghost s = prices@;
    proof {
        assert(s.take(1) =~= seq![s[0]]);
    }
    let mut i: usize = 1;
    while i < n
        invariant
            1 <= i <= n,
            n == s.len(),
            s == prices@,
            k == ema_factor(period as nat),
            j == sub_spec(Dec::int_dec(1), k),
            ema == ema_of(s.take(i as int), k),
            ema_ok(s, period as nat) ==> ema_steps_ok(s.take(i as int), k),
        decreases n - i,
    {
        let ghost t = s.take(i + 1);
        proof {
            assert(t.drop_last() =~= s.take(i as int));
            assert(t.last() == s[i as int]);
            if ema_ok(s, period as nat) {
                lemma_steps_ok_prefix(s, k, i + 1);
            }
        }
        let a = match prices[i].checked_mul(&k) {
            Some(a) => a,
            None => return None,
        };
        let b = match ema.checked_mul(&j) {
            Some(b) => b,
            None => return None,
        };
        let next = match a.checked_add(&b) {
            Some(x) => x,
            None => return None,
        };
        ema = next;
        i = i + 1;
    }
    proof {
        assert(s.take(n as int) =~= s);
    }
    Some(ema)
}

/// The RSI of the prices, or `None` where the decimal arithmetic overflows.
pub fn calc_rsi(prices: &Vec<Dec>) -> (r: Option<Dec>)
    ensures
        r matches Some(v) ==> v == rsi_of(prices@),
        rsi_ok(prices@) ==> r is Some,
{
    let ghost s = prices@;
    let n = prices.len();
    let mut gains = zero();
    let mut losses = zero();
    let mut i: usize = 1;
    proof {
        if n >= 1 {
            assert(s.take(1).len() == 1);
        } else {
            assert(s.take(0).len() == 0);
        }
    }
    while i < n
        invariant
            1 <= i,
            n == s.len(),
            s == prices@,
            i <= n || n == 0,
            n == 0 ==> i == 1 && gains == zero_dec() && losses == zero_dec(),
            n > 0 ==> (gains, losses) == move_sums(s.take(i as int)),
            n > 0 && move_sums_ok(s) ==> move_sums_ok(s.take(i as int)),
        decreases n - i,
    {
        let ghost t = s.take(i + 1);
        proof {
            assert(t.drop_last() =~= s.take(i as int));
            assert(t.last() == s[i as int]);
            assert(t[t.len() - 2] == s[i - 1]);
            if move_sums_ok(s) {
                lemma_sums_ok_prefix(s, i + 1);
            }
        }
        let change = match prices[i].checked_sub(&prices[i - 1]) {
            Some(c) => c,
            None => return None,
        };
        proof {
            assert(change == sub_spec(t.last(), t[t.len() - 2]));
        }
        let z = Dec::zero();
        if change.gt(&z) {
            gains = match gains.checked_add(&change) {
                Some(g) => g,
                None => return None,
            };
        } else {
            losses = match losses.checked_sub(&change) {
                Some(l) => l,
                None => return None,
            };
        }
        proof {
            assert((gains, losses) == move_sums(t));
        }
        i = i + 1;
    }
    proof {
        if n > 0 {
            assert(s.take(n as int) =~= s);
        } else {
            assert(move_sums(s) == (zero_dec(), zero_dec()));
        }
    }
    let fourteen = Dec::from_u64(14);
    let avg_gain = match gains.checked_div(&fourteen) {
        Some(x) => x,
        None => return None,
    };
    let avg_loss = match losses.checked_div(&fourteen) {
        Some(x) => x,
        None => return None,
    };
    let hundred = Dec::from_u64(100);
    if avg_loss.is_zero() {
        return Some(hundred);
    }
    let rs = match avg_gain.checked_div(&avg_loss) {
        Some(x) => x,
        None => return None,
    };
    let one = Dec::from_u64(1);
    let denom = match one.checked_add(&rs) {
        Some(x) => x,
        None => return None,
    };
    let q = match hundred.checked_div(&denom) {
        Some(x) => x,
        None => return None,
    };
    hundred.checked_sub(&q)
}

// ---------------------------------------------------------------- the engine

/// The most prices kept per symbol.
pub const PRICE_HISTORY_LIMIT: usize = 100;

/// What the engine reads of a tick.
#[derive(Debug, Clone)]
pub struct Tick {
    pub symbol: String,
    pub price: Dec,
}

/// The indicators of one symbol.
#[derive(Debug, Clone)]
pub struct IndicatorData {
    pub ema5: Option<Dec>,
    pub ema20: Option<Dec>,
    pub rsi: Option<Dec>,
    /// The latest prices, oldest first.
    pub price_history: Vec<Dec>,
}

/// A symbol's position as the engine sees it.
#[derive(Debug, Clone)]
pub struct PositionState {
    pub has_position: bool,
    pub entry_price: Dec,
    pub side: Option<Side>,
}

impl Default for PositionState {
    /// No position.
    fn default() -> (r: PositionState)
        ensures
            !r.has_position,
            r.entry_price == Dec::of_parts(0, 0),
            r.side is None,
    {
        PositionState { has_position: false, entry_price: Dec::zero(), side: None }
    }
}

/// Counters.
#[derive(Debug, Clone)]
pub struct EngineStats {
    pub total_orders: u64,
    pub total_trades: u64,
    pub total_errors: u64,
}

/// The engine of one symbol.
pub struct EventDrivenEngine {
    pub symbol: String,
    /// Indicators by symbol.
    pub indicators: Vec<(String, IndicatorData)>,
    /// Positions by symbol.
    pub positions: Vec<(String, PositionState)>,
    pub stats: EngineStats,
}

/// The history after a new price: appended, and the oldest price dropped when more
/// than `PRICE_HISTORY_LIMIT` would be kept.
pub open spec fn next_history(h: Seq<Dec>, price: Dec) -> Seq<Dec> {
    let a = h.push(price);
    if a.len() > PRICE_HISTORY_LIMIT { a.remove(0) } else { a }
}

/// `d` is what the indicators (history, EMA5, EMA20, RSI) become with a new price: the
/// history moves on; each indicator is recomputed over it once it holds enough prices
/// (5, 20 and 14), and is kept before.
pub open spec fn indicators_after(
    hist: Seq<Dec>,
    ema5: Option<Dec>,
    ema20: Option<Dec>,
    rsi: Option<Dec>,
    price: Dec,
    d: IndicatorData,
) -> bool {
    let h = next_history(hist, price);
    &&& d.price_history@ == h
    &&& d.ema5 == if h.len() >= 5 { Some(ema_of(h, ema_factor(5))) } else { ema5 }
    &&& d.ema20 == if h.len() >= 20 { Some(ema_of(h, ema_factor(20))) } else { ema20 }
    &&& d.rsi == if h.len() >= 14 { Some(rsi_of(h)) } else { rsi }
}

/// The indicators after a new price can be computed without overflow.
pub open spec fn indicators_ok(hist: Seq<Dec>, price: Dec) -> bool {
    let h = next_history(hist, price);
    &&& h.len() >= 5 ==> ema_ok(h, 5)
    &&& h.len() >= 20 ==> ema_ok(h, 20)
    &&& h.len() >= 14 ==> rsi_ok(h)
}

/// The decision of the strategy: flat, it goes long when EMA5 is above EMA20 and the
/// RSI lies strictly between 30 and 70; holding a position, it goes flat when EMA5 is
/// below EMA20 or the RSI is above 70.
pub open spec fn decision_action(ema5: Dec, ema20: Dec, rsi: Dec, has_position: bool) -> Option<TradingAction> {
    if !has_position {
        if ema5.val() > ema20.val() && rsi.val() < 70 * pow10(28) && rsi.val() > 30 * pow10(28) {
            Some(TradingAction::Long)
        } else {
            None
        }
    } else if ema5.val() < ema20.val() || rsi.val() > 70 * pow10(28) {
        Some(TradingAction::Flat)
    } else {
        None
    }
}

/// `after` is the indicator map `before` after a price for `symbol`: the symbol's
/// indicators move on (from nothing when it had none) and the others stay.
pub open spec fn indicators_updated(
    before: Map<Seq<char>, IndicatorData>,
    after: Map<Seq<char>, IndicatorData>,
    symbol: Seq<char>,
    price: Dec,
) -> bool {
    let had = before.dom().contains(symbol);
    &&& after.dom() == before.dom().insert(symbol)
    &&& forall|k: Seq<char>| k != symbol && before.dom().contains(k) ==> after[k] == before[k]
    &&& had ==> indicators_after(
        before[symbol].price_history@,
        before[symbol].ema5,
        before[symbol].ema20,
        before[symbol].rsi,
        price,
        after[symbol],
    )
    &&& !had ==> indicators_after(Seq::empty(), None, None, None, price, after[symbol])
}

/// A price for `symbol` can be taken into the indicator map without overflow.
pub open spec fn tick_ok(m: Map<Seq<char>, IndicatorData>, symbol: Seq<char>, price: Dec) -> bool {
    let hist = if m.dom().contains(symbol) { m[symbol].price_history@ } else { Seq::<Dec>::empty() };
    indicators_ok(hist, price)
}

/// The strategy's decision on the indicators `d` and the position flag.
pub open spec fn decided(d: IndicatorData, has_position: bool) -> Option<TradingAction> {
    match (d.ema5, d.ema20, d.rsi) {
        (Some(e5), Some(e20), Some(r)) => decision_action(e5, e20, r, has_position),
        _ => None,
    }
}

/// The order side of an action: buying for a long, selling for anything else.
pub open spec fn action_side(a: TradingAction) -> Side {
    if a == TradingAction::Long { Side::Buy } else { Side::Sell }
}

/// Copies an optional decimal.
fn copy_opt(o: &Option<Dec>) -> (r: Option<Dec>)
    ensures
        r == *o,
{
    match o {
        Some(x) => Some(x.copy()),
        None => None,
    }
}

/// The indicators after a new price, or `None` where the arithmetic overflows.
fn updated_indicators(
    hist: &Vec<Dec>,
    ema5: &Option<Dec>,
    ema20: &Option<Dec>,
    rsi: &Option<Dec>,
    price: &Dec,
) -> (r: Option<IndicatorData>)
    ensures
        r matches Some(d) ==> indicators_after(hist@, *ema5, *ema20, *rsi, *price, d),
        indicators_ok(hist@, *price) ==> r is Some,
{
    let mut h: Vec<Dec> = Vec::new();
    let n = hist.len();
    let mut i: usize = 0;
    while i < n
        invariant
            i <= n,
            n == hist@.len(),
            h@ == hist@.take(i as int),
        decreases n - i,
    {
        h.push(hist[i].clone());
        proof {
            assert(h@ =~= hist@.take(i + 1));
        }
        i = i + 1;
    }
    proof {
        assert(hist@.take(n as int) =~= hist@);
    }
    h.push(price.clone());
    if h.len() > PRICE_HISTORY_LIMIT {
        h.remove(0);
    }
    let ghost hh = next_history(hist@, *price);
    assert(h@ == hh);
    let e5 = if h.len() >= 5 {
        match calc_ema(&h, 5) {
            Some(v) => Some(v),
            None => return None,
        }
    } else {
        copy_opt(ema5)
    };
    let e20 = if h.len() >= 20 {
        match calc_ema(&h, 20) {
            Some(v) => Some(v),
            None => return None,
        }
    } else {
        copy_opt(ema20)
    };
    let r14 = if h.len() >= 14 {
        match calc_rsi(&h) {
            Some(v) => Some(v),
            None => return None,
        }
    } else {
        copy_opt(rsi)
    };
    Some(IndicatorData { ema5: e5, ema20: e20, rsi: r14, price_history: h })
}

impl EventDrivenEngine {
    /// Symbols have at most one indicator entry and one position each.
    pub open spec fn wf(&self) -> bool {
        keys_unique(self.indicators@) && keys_unique(self.positions@)
    }

    /// The indicators by symbol.
    pub open spec fn indicator_map(&self) -> Map<Seq<char>, IndicatorData> {
        to_map(self.indicators@)
    }

    /// Whether the engine holds a position in `symbol`.
    pub open spec fn holds(&self, symbol: Seq<char>) -> bool {
        to_map(self.positions@).dom().contains(symbol) && to_map(self.positions@)[symbol].has_position
    }

    /// An engine for `symbol` with no indicators, positions or counts.
    pub fn new(symbol: String) -> (r: EventDrivenEngine)
        ensures
            r.wf(),
            r.symbol == symbol,
            r.indicators@.len() == 0,
            r.positions@.len() == 0,
            r.stats.total_orders == 0 && r.stats.total_trades == 0 && r.stats.total_errors == 0,
    {
        EventDrivenEngine {
            symbol,
            indicators: Vec::new(),
            positions: Vec::new(),
            stats: EngineStats { total_orders: 0, total_trades: 0, total_errors: 0 },
        }
    }

    /// The counters.
    pub fn stats(&self) -> (r: &EngineStats)
        ensures
            *r == self.stats,
    {
        &self.stats
    }

    /// The strategy's decision on a tick at `now`: none without all three indicators
    /// of the tick's symbol; otherwise `decided` on them, for 0.01 at the tick's price,
    /// with confidence 80.
    pub fn decide_at(&self, tick: &Tick, now: i64) -> (r: Option<TradingDecision>)
        requires
            self.wf(),
        ensures
            !self.indicator_map().dom().contains(tick.symbol@) ==> r is None,
            self.indicator_map().dom().contains(tick.symbol@) ==> {
                let act = decided(self.indicator_map()[tick.symbol@], self.holds(tick.symbol@));
                &&& act is None ==> r is None
                &&& act matches Some(a) ==> (r matches Some(d) && {
                    &&& d.action == a
                    &&& d.reason@ == if a == TradingAction::Long { "EMA金叉"@ } else { "EMA死叉或RSI超买"@ }
                    &&& d.confidence == 80
                    &&& d.symbol == tick.symbol
                    &&& d.qty == Dec::of_parts(1, 2)
                    &&& d.price == tick.price
                    &&& d.timestamp == now
                })
            },
    {
        let i = match find_key(&self.indicators, tick.symbol.as_str()) {
            Some(i) => i,
            None => {
                proof {
                    crate::keyed::lemma_to_map_dom(self.indicators@, tick.symbol@);
                }
                return None;
            },
        };
        proof {
            lemma_to_map_index(self.indicators@, i as int);
        }
        let ind = &self.indicators[i].1;
        let (ema5, ema20, rsi) = match (&ind.ema5, &ind.ema20, &ind.rsi) {
            (Some(e5), Some(e20), Some(r)) => (e5, e20, r),
            _ => return None,
        };
        let has_position = match find_key(&self.positions, tick.symbol.as_str()) {
            Some(p) => {
                proof {
                    lemma_to_map_index(self.positions@, p as int);
                }
                self.positions[p].1.has_position
            },
            None => {
                proof {
                    crate::keyed::lemma_to_map_dom(self.positions@, tick.symbol@);
                }
                false
            },
        };
        let seventy = Dec::from_int(70);
        let thirty = Dec::from_int(30);
        let qty = Dec::new(1, 2);
        proof {
            Dec::lemma_of_parts(1, 2);
            Dec::lemma_parts_eq(qty, Dec::of_parts(1, 2));
        }
        if !has_position {
            if ema5.gt(ema20) && rsi.lt(&seventy) && rsi.gt(&thirty) {
                return Some(
                    TradingDecision::new(
                        TradingAction::Long,
                        "EMA金叉",
                        80,
                        tick.symbol.clone(),
                        qty,
                        tick.price.clone(),
                        now,
                    ),
                );
            }
        } else {
            if ema5.lt(ema20) || rsi.gt(&seventy) {
                return Some(
                    TradingDecision::new(
                        TradingAction::Flat,
                        "EMA死叉或RSI超买",
                        80,
                        tick.symbol.clone(),
                        qty,
                        tick.price.clone(),
                        now,
                    ),
                );
            }
        }
        None
    }

    /// The order of a decision: a market order for its quantity and price, buying for
    /// a long and selling otherwise; none for a quantity of zero or less.
    pub fn check_risk(&self, decision: &TradingDecision) -> (r: Option<OrderRequest>)
        ensures
            decision.qty.val() <= 0 ==> r is None,
            decision.qty.val() > 0 ==> (r matches Some(o) && {
                &&& o.symbol == decision.symbol
                &&& o.side == action_side(decision.action)
                &&& o.order_type == OrderType::Market
                &&& o.qty == decision.qty
                &&& o.price == Some(decision.price)
            }),
    {
        let side = match decision.action {
            TradingAction::Long => Side::Buy,
            TradingAction::Short | TradingAction::Flat | TradingAction::Add | TradingAction::Reduce
            | TradingAction::Hedge | TradingAction::Wait => Side::Sell,
        };
        let order = OrderRequest {
            symbol: decision.symbol.clone(),
            side,
            order_type: OrderType::Market,
            qty: decision.qty.clone(),
            price: Some(decision.price.clone()),
        };
        if order.qty.le(&Dec::zero()) {
            return None;
        }
        Some(order)
    }

    /// Counts a submitted order; the count overflowing is left out.
    pub fn submit_order(&mut self, order: OrderRequest)
        requires
            old(self).stats.total_orders < u64::MAX,
        ensures
            final(self).stats.total_orders == old(self).stats.total_orders + 1,
            final(self).stats.total_trades == old(self).stats.total_trades,
            final(self).stats.total_errors == old(self).stats.total_errors,
            final(self).indicators == old(self).indicators,
            final(self).positions == old(self).positions,
            final(self).symbol == old(self).symbol,
    {
        self.stats.total_orders = self.stats.total_orders + 1;
    }

    /// Updates the tick's symbol's indicators, or returns `false` and changes nothing
    /// where the arithmetic overflows.
    pub fn update_indicators(&mut self, tick: &Tick) -> (r: bool)
        requires
            old(self).wf(),
        ensures
            final(self).wf(),
            final(self).positions == old(self).positions,
            final(self).stats == old(self).stats,
            final(self).symbol == old(self).symbol,
            !r ==> final(self).indicators == old(self).indicators,
            r ==> indicators_updated(old(self).indicator_map(), final(self).indicator_map(), tick.symbol@, tick.price),
            tick_ok(old(self).indicator_map(), tick.symbol@, tick.price) ==> r,
    {
        match find_key(&self.indicators, tick.symbol.as_str()) {
            Some(i) => {
                proof {
                    lemma_to_map_index(self.indicators@, i as int);
                }
                let d = {
                    let old_d = &self.indicators[i].1;
                    updated_indicators(&old_d.price_history, &old_d.ema5, &old_d.ema20, &old_d.rsi, &tick.price)
                };
                match d {
                    Some(d) => {
                        let key = self.indicators[i].0.clone();
                        let ghost e = (key, d);
                        proof {
                            lemma_to_map_update(self.indicators@, i as int, e);
                        }
                        self.indicators.set(i, (key, d));
                        proof {
                            assert(self.indicators@ == old(self).indicators@.update(i as int, e));
                        }
                        true
                    },
                    None => false,
                }
            },
            None => {
                proof {
                    crate::keyed::lemma_to_map_dom(self.indicators@, tick.symbol@);
                }
                let empty: Vec<Dec> = Vec::new();
                proof {
                    assert(empty@ =~= Seq::<Dec>::empty());
                }
                match updated_indicators(&empty, &None, &None, &None, &tick.price) {
                    Some(d) => {
                        let key = tick.symbol.clone();
                        let ghost e = (key, d);
                        proof {
                            lemma_to_map_push(self.indicators@, e);
                        }
                        self.indicators.push((key, d));
                        true
                    },
                    None => false,
                }
            },
        }
    }

    /// Handles a tick at `now`: updates its symbol's indicators, and when the strategy
    /// decides and the risk check passes, submits (counts) the order.  Returns `false`
    /// and changes nothing where the decimal arithmetic overflows.  The order count
    /// overflowing is left out.
    pub fn on_tick_at(&mut self, tick: &Tick, now: i64) -> (r: bool)
        requires
            old(self).wf(),
            old(self).stats.total_orders < u64::MAX,
        ensures
            final(self).wf(),
            final(self).positions == old(self).positions,
            final(self).symbol == old(self).symbol,
            !r ==> final(self).indicators == old(self).indicators && final(self).stats == old(self).stats,
            r ==> indicators_updated(old(self).indicator_map(), final(self).indicator_map(), tick.symbol@, tick.price),
            r ==> {
                let sym = tick.symbol@;
                &&& final(self).stats.total_orders == old(self).stats.total_orders + if decided(
                    final(self).indicator_map()[sym],
                    final(self).holds(sym),
                ) is Some {
                    1int
                } else {
                    0int
                }
                &&& final(self).stats.total_trades == old(self).stats.total_trades
                &&& final(self).stats.total_errors == old(self).stats.total_errors
            },
            tick_ok(old(self).indicator_map(), tick.symbol@, tick.price) ==> r,
    {
        if !self.update_indicators(tick) {
            return false;
        }
        assert(self.indicator_map().dom().contains(tick.symbol@));
        if let Some(decision) = self.decide_at(tick, now) {
            proof {
                Dec::lemma_of_parts(1, 2);
                crate::decimal::lemma_pow10_pos(26);
            }
            if let Some(order) = self.check_risk(&decision) {
                self.submit_order(order);
            }
        }
        true
    }

    /// Handles a tick now; see `on_tick_at`.
    pub fn on_tick(&mut self, tick: &Tick) -> (r: bool)
        requires
            old(self).wf(),
            old(self).stats.total_orders < u64::MAX,
        ensures
            final(self).wf(),
            final(self).positions == old(self).positions,
            !r ==> final(self).indicators == old(self).indicators && final(self).stats == old(self).stats,
            r ==> indicators_updated(old(self).indicator_map(), final(self).indicator_map(), tick.symbol@, tick.price),
            tick_ok(old(self).indicator_map(), tick.symbol@, tick.price) ==> r,
    {
        self.on_tick_at(tick, crate::clock::utc_now_secs())
    }
}

/// The price history stays within `PRICE_HISTORY_LIMIT` prices, ends with the newest
/// price, and grows by one until it is full.
pub proof fn lemma_history_bounded(h: Seq<Dec>, price: Dec)
    requires
        h.len() <= PRICE_HISTORY_LIMIT,
    ensures
        next_history(h, price).len() <= PRICE_HISTORY_LIMIT,
        next_history(h, price).last() == price,
        h.len() < PRICE_HISTORY_LIMIT ==> next_history(h, price) == h.push(price),
        h.len() == PRICE_HISTORY_LIMIT ==> next_history(h, price) == h.push(price).subrange(1, h.len() + 1int),
{
    let a = h.push(price);
    if a.len() > PRICE_HISTORY_LIMIT {
        assert(a.remove(0) =~= a.subrange(1, h.len() + 1int));
        assert(a.remove(0).last() == a.last());
    }
}

} // verus!
