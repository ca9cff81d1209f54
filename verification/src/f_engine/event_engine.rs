//! The event-driven engine: its configuration and state, the risk check a decision
//! must pass, and the bookkeeping around an order.  Receiving ticks, asking the
//! strategy and talking to the exchange are the caller's; each step here takes what
//! came back and says what to do next.
use vstd::prelude::*;
use crate::decimal::{
    Dec, pow10, add_spec, sub_spec, mul_spec, div_spec, abs_spec, neg_spec, sum_in_range, product_in_range,
    quotient_in_range,
};
use crate::f_engine::types::{OrderRequest, OrderType, Side, TradingAction, TradingDecision};

verus! {

/// A 1m bar delivered with a tick.
#[derive(Debug, Clone)]
pub struct KlineData {
    pub symbol: String,
    pub period: String,
    pub open: Dec,
    pub high: Dec,
    pub low: Dec,
    pub close: Dec,
    pub volume: Dec,
    /// Milliseconds since the epoch.
    pub open_time: i64,
    /// Milliseconds since the epoch.
    pub close_time: i64,
    pub is_closed: bool,
}

/// A tick event.
#[derive(Debug, Clone)]
pub struct TickEvent {
    pub symbol: String,
    pub price: Dec,
    pub qty: Dec,
    /// Milliseconds since the epoch.
    pub timestamp: i64,
    pub kline: Option<KlineData>,
    pub is_kline_closed: bool,
}

/// Pine colour: the trend of the fast against the slow average.
#[derive(Debug, Clone, Copy, PartialEq, Eq, Structural)]
pub enum PineColor {
    Red,
    Green,
    Neutral,
}

/// The latest indicator values.
#[derive(Debug, Clone)]
pub struct IndicatorCache {
    pub ema_fast: Option<Dec>,
    pub ema_slow: Option<Dec>,
    pub rsi: Option<Dec>,
    pub volatility: Dec,
    pub price_position: Option<Dec>,
    pub pine_color: PineColor,
}

impl Default for IndicatorCache {
    /// Nothing computed yet: no values, zero volatility, neutral colour.
    fn default() -> (r: IndicatorCache)
        ensures
            r.ema_fast is None,
            r.ema_slow is None,
            r.rsi is None,
            r.volatility == Dec::of_parts(0, 0),
            r.price_position is None,
            r.pine_color == PineColor::Neutral,
    {
        IndicatorCache {
            ema_fast: None,
            ema_slow: None,
            rsi: None,
            volatility: Dec::zero(),
            price_position: None,
            pine_color: PineColor::Neutral,
        }
    }
}

/// The engine's configuration.
#[derive(Debug, Clone)]
pub struct EngineConfig {
    pub symbol: String,
    pub initial_fund: Dec,
    pub max_position: Dec,
    pub initial_ratio: Dec,
    /// The smallest quantity that may be ordered.
    pub lot_size: Dec,
    pub enable_risk_check: bool,
    pub enable_strategy: bool,
    pub log_timing: bool,
}

impl Default for EngineConfig {
    /// BTCUSDT, fund 10000, position up to 0.15, initial ratio 0.05, lot 0.001, risk
    /// check and strategy on, no timing.
    fn default() -> (r: EngineConfig)
        ensures
            r.symbol@ == "BTCUSDT"@,
            r.initial_fund.mant() == 10000 && r.initial_fund.scl() == 0,
            r.max_position.mant() == 15 && r.max_position.scl() == 2,
            r.initial_ratio.mant() == 5 && r.initial_ratio.scl() == 2,
            r.lot_size.mant() == 1 && r.lot_size.scl() == 3,
            r.enable_risk_check,
            r.enable_strategy,
            !r.log_timing,
    {
        EngineConfig {
            symbol: "BTCUSDT".to_string(),
            initial_fund: Dec::new(10000, 0),
            max_position: Dec::new(15, 2),
            initial_ratio: Dec::new(5, 2),
            lot_size: Dec::new(1, 3),
            enable_risk_check: true,
            enable_strategy: true,
            log_timing: false,
        }
    }
}

/// The engine's state.
#[derive(Debug, Clone)]
pub struct EngineState {
    pub symbol: String,
    pub current_price: Option<Dec>,
    pub indicators: IndicatorCache,
    pub has_position: bool,
    pub position_qty: Dec,
    pub position_price: Dec,
    pub position_side: Option<Side>,
    pub tick_count: u64,
    pub total_orders: u64,
    pub filled_orders: u64,
    pub rejected_orders: u64,
    /// Nanoseconds the last tick took, when timing is on.
    pub last_process_time: Option<u64>,
}

impl Default for EngineState {
    /// No symbol, no price, no position, all counts zero.
    fn default() -> (r: EngineState)
        ensures
            r.symbol@.len() == 0,
            r.current_price is None,
            r.indicators.ema_fast is None && r.indicators.ema_slow is None && r.indicators.rsi is None,
            r.indicators.pine_color == PineColor::Neutral,
            !r.has_position,
            r.position_qty == Dec::of_parts(0, 0),
            r.position_price == Dec::of_parts(0, 0),
            r.position_side is None,
            r.tick_count == 0,
            r.total_orders == 0,
            r.filled_orders == 0,
            r.rejected_orders == 0,
            r.last_process_time is None,
    {
        EngineState {
            symbol: String::new(),
            current_price: None,
            indicators: IndicatorCache::default(),
            has_position: false,
            position_qty: Dec::zero(),
            position_price: Dec::zero(),
            position_side: None,
            tick_count: 0,
            total_orders: 0,
            filled_orders: 0,
            rejected_orders: 0,
            last_process_time: None,
        }
    }
}

/// The exchange account as the gateway reports it.
#[derive(Debug, Clone)]
pub struct AccountInfo {
    pub total_equity: Dec,
    pub available: Dec,
    pub frozen_margin: Dec,
    pub unrealized_pnl: Dec,
    pub update_ts: i64,
}

/// A position as the gateway reports it.
#[derive(Debug, Clone)]
pub struct PositionInfo {
    pub symbol: String,
    pub long_qty: Dec,
    pub long_avg_price: Dec,
    pub short_qty: Dec,
    pub short_avg_price: Dec,
    pub unrealized_pnl: Dec,
    pub margin_used: Dec,
}

/// The state of an order at the exchange.
#[derive(Debug, Clone, Copy, PartialEq, Eq, Structural)]
pub enum OrderStatus {
    New,
    PartiallyFilled,
    Filled,
    Cancelled,
    Rejected,
}

/// What the gateway answered to an order.
#[derive(Debug, Clone)]
pub struct OrderResult {
    pub order_id: String,
    pub status: OrderStatus,
    pub filled_qty: Dec,
    pub filled_price: Dec,
    pub side: Side,
}

/// A gateway failure.
#[derive(Debug, Clone)]
pub enum GatewayError {
    OrderFailed(String),
    GetAccountFailed(String),
    GetPositionFailed(String),
}

/// The text of a gateway error.
pub open spec fn gateway_error_text(e: GatewayError) -> Seq<char> {
    match e {
        GatewayError::OrderFailed(m) => "下单失败: "@ + m@,
        GatewayError::GetAccountFailed(m) => "获取账户失败: "@ + m@,
        GatewayError::GetPositionFailed(m) => "获取持仓失败: "@ + m@,
    }
}

impl GatewayError {
    /// The error's message.
    pub fn to_string(&self) -> (r: String)
        ensures
            r@ == gateway_error_text(*self),
    {
        let (prefix, m) = match self {
            GatewayError::OrderFailed(m) => ("下单失败: ", m),
            GatewayError::GetAccountFailed(m) => ("获取账户失败: ", m),
            GatewayError::GetPositionFailed(m) => ("获取持仓失败: ", m),
        };
        let mut s = prefix.to_string();
        s.append(m.as_str());
        s
    }
}

/// Buffer of a channel without its own setting.
pub const DEFAULT_CHANNEL_BUFFER: usize = 1024;
/// Buffer of the tick channel.
pub const TICK_CHANNEL_BUFFER: usize = 1024;
/// Buffer of the closed-bar channel.
pub const KLINE_CHANNEL_BUFFER: usize = 256;
/// Buffer of the order channel.
pub const ORDER_CHANNEL_BUFFER: usize = 128;

/// A bar closed.
#[derive(Debug, Clone)]
pub struct KlineClosedEvent {
    pub symbol: String,
    pub period: String,
    pub kline: KlineData,
    pub prev_kline: Option<KlineData>,
}

/// The answer to an order.
#[derive(Debug, Clone)]
pub struct OrderEvent {
    pub order_id: String,
    pub symbol: String,
    pub result: OrderResult,
}

/// The weight of a new price in an exponential average over `period`:
/// `2 / (period + 1)`.
pub open spec fn ema_weight(period: int) -> Dec {
    div_spec(Dec::of_parts(2, 0), Dec::of_parts(period + 1, 0))
}

/// The next exponential average: the price itself at first, then
/// `price * w + prev * (1 - w)`.
pub open spec fn ema_next(prev: Option<Dec>, price: Dec, period: int) -> Dec {
    let w = ema_weight(period);
    match prev {
        None => price,
        Some(p) => add_spec(mul_spec(price, w), mul_spec(p, sub_spec(Dec::of_parts(1, 0), w))),
    }
}

/// Every step of `ema_next` stays below the limit.
pub open spec fn ema_in_range(prev: Option<Dec>, price: Dec, period: int) -> bool {
    let w = ema_weight(period);
    let one = Dec::of_parts(1, 0);
    match prev {
        None => true,
        Some(p) => {
            &&& product_in_range(price, w)
            &&& sum_in_range(one, w, -1)
            &&& product_in_range(p, sub_spec(one, w))
            &&& sum_in_range(mul_spec(price, w), mul_spec(p, sub_spec(one, w)), 1)
        },
    }
}

/// The gain of a price change as the engine counts it: the size of the change.
pub open spec fn rsi_gain(change: Dec) -> Dec {
    if change.val() > 0 { change } else { neg_spec(change) }
}

/// The loss of a price change: the size of a fall, zero otherwise.
pub open spec fn rsi_loss(change: Dec) -> Dec {
    if change.val() < 0 { neg_spec(change) } else { Dec::of_parts(0, 0) }
}

/// `avg * (1 - m) + x * m`.
pub open spec fn smoothed(avg: Dec, x: Dec, m: Dec) -> Dec {
    add_spec(mul_spec(avg, sub_spec(Dec::of_parts(1, 0), m)), mul_spec(x, m))
}

/// Its steps stay below the limit.
pub open spec fn smoothed_in_range(avg: Dec, x: Dec, m: Dec) -> bool {
    let one = Dec::of_parts(1, 0);
    &&& sum_in_range(one, m, -1)
    &&& product_in_range(avg, sub_spec(one, m))
    &&& product_in_range(x, m)
    &&& sum_in_range(mul_spec(avg, sub_spec(one, m)), mul_spec(x, m), 1)
}

/// The strength index of average gain and loss: 100 without losses, else
/// `100 - 100 / (1 + gain / loss)`.
pub open spec fn rsi_of(ag: Dec, al: Dec) -> Dec {
    let hundred = Dec::of_parts(100, 0);
    if al.val() == 0 {
        hundred
    } else {
        sub_spec(hundred, div_spec(hundred, add_spec(Dec::of_parts(1, 0), div_spec(ag, al))))
    }
}

/// Its steps stay below the limit.
pub open spec fn rsi_of_in_range(ag: Dec, al: Dec) -> bool {
    let hundred = Dec::of_parts(100, 0);
    let one = Dec::of_parts(1, 0);
    al.val() != 0 ==> {
        &&& quotient_in_range(ag, al)
        &&& sum_in_range(one, div_spec(ag, al), 1)
        &&& quotient_in_range(hundred, add_spec(one, div_spec(ag, al)))
        &&& sum_in_range(hundred, div_spec(hundred, add_spec(one, div_spec(ag, al))), -1)
    }
}

/// The weight of a new gain or loss: `1 / (rsi_period + 1)`.
pub open spec fn rsi_weight(c: IndicatorCalculator) -> Dec {
    div_spec(Dec::of_parts(1, 0), Dec::of_parts(c.rsi_period + 1, 0))
}

/// The RSI step: (average gain, average loss, index).  Without a previous price
/// there is no index and nothing changes; the first change sets the averages and
/// gives 50; later changes smooth them.
pub open spec fn rsi_step(c: IndicatorCalculator, price: Dec) -> (Option<Dec>, Option<Dec>, Option<Dec>) {
    match c.prev_price {
        None => (c.avg_gain, c.avg_loss, None),
        Some(prev) => {
            let change = sub_spec(price, prev);
            let gain = rsi_gain(change);
            let loss = rsi_loss(change);
            match (c.avg_gain, c.avg_loss) {
                (None, None) => (Some(gain), Some(loss), Some(Dec::of_parts(50, 0))),
                (Some(ag), Some(al)) => {
                    let m = rsi_weight(c);
                    let new_ag = smoothed(ag, gain, m);
                    let new_al = smoothed(al, loss, m);
                    (Some(new_ag), Some(new_al), Some(rsi_of(new_ag, new_al)))
                },
                _ => (c.avg_gain, c.avg_loss, Some(Dec::of_parts(50, 0))),
            }
        },
    }
}

/// Every step of `rsi_step` stays below the limit.
pub open spec fn rsi_in_range(c: IndicatorCalculator, price: Dec) -> bool {
    match c.prev_price {
        None => true,
        Some(prev) => {
            let change = sub_spec(price, prev);
            &&& sum_in_range(price, prev, -1)
            &&& match (c.avg_gain, c.avg_loss) {
                (Some(ag), Some(al)) => {
                    let m = rsi_weight(c);
                    &&& smoothed_in_range(ag, rsi_gain(change), m)
                    &&& smoothed_in_range(al, rsi_loss(change), m)
                    &&& rsi_of_in_range(smoothed(ag, rsi_gain(change), m), smoothed(al, rsi_loss(change), m))
                },
                _ => true,
            }
        },
    }
}

/// Green when the fast average is above the slow one, red when below, neutral when
/// equal or not yet known.
pub open spec fn pine_color_of(fast: Option<Dec>, slow: Option<Dec>) -> PineColor {
    match (fast, slow) {
        (Some(f), Some(s)) => if f.val() > s.val() {
            PineColor::Green
        } else if f.val() < s.val() {
            PineColor::Red
        } else {
            PineColor::Neutral
        },
        _ => PineColor::Neutral,
    }
}

/// The price change against the previous price, in percent and without sign; zero
/// without a (non-zero) previous price.
pub open spec fn volatility_of(prev: Option<Dec>, price: Dec) -> Dec {
    match prev {
        Some(p) => if p.val() != 0 {
            mul_spec(abs_spec(div_spec(sub_spec(price, p), p)), Dec::of_parts(100, 0))
        } else {
            Dec::of_parts(0, 0)
        },
        None => Dec::of_parts(0, 0),
    }
}

/// Its steps stay below the limit.
pub open spec fn volatility_in_range(prev: Option<Dec>, price: Dec) -> bool {
    match prev {
        Some(p) => p.val() != 0 ==> {
            &&& sum_in_range(price, p, -1)
            &&& quotient_in_range(sub_spec(price, p), p)
            &&& product_in_range(abs_spec(div_spec(sub_spec(price, p), p)), Dec::of_parts(100, 0))
        },
        None => true,
    }
}

/// Incremental indicators over a stream of prices.
#[derive(Debug, Clone)]
pub struct IndicatorCalculator {
    pub ema_period_fast: u64,
    pub ema_period_slow: u64,
    pub rsi_period: u64,
    pub prev_price: Option<Dec>,
    pub ema_fast_prev: Option<Dec>,
    pub ema_slow_prev: Option<Dec>,
    pub avg_gain: Option<Dec>,
    pub avg_loss: Option<Dec>,
}

impl Default for IndicatorCalculator {
    /// Nothing seen yet; all periods zero.
    fn default() -> (r: IndicatorCalculator)
        ensures
            r.ema_period_fast == 0 && r.ema_period_slow == 0 && r.rsi_period == 0,
            r.prev_price is None && r.ema_fast_prev is None && r.ema_slow_prev is None,
            r.avg_gain is None && r.avg_loss is None,
    {
        IndicatorCalculator {
            ema_period_fast: 0,
            ema_period_slow: 0,
            rsi_period: 0,
            prev_price: None,
            ema_fast_prev: None,
            ema_slow_prev: None,
            avg_gain: None,
            avg_loss: None,
        }
    }
}

/// Every step of an update stays below the limit, so the crate's arithmetic cannot
/// overflow.
pub open spec fn update_in_range(c: IndicatorCalculator, price: Dec) -> bool {
    &&& ema_in_range(c.ema_fast_prev, price, 5)
    &&& ema_in_range(c.ema_slow_prev, price, 20)
    &&& rsi_in_range(c, price)
    &&& volatility_in_range(c.prev_price, price)
}

/// The calculator after an update.
pub open spec fn updated(c: IndicatorCalculator, price: Dec) -> IndicatorCalculator {
    let rsi = rsi_step(c, price);
    IndicatorCalculator {
        prev_price: Some(price),
        ema_fast_prev: Some(ema_next(c.ema_fast_prev, price, 5)),
        ema_slow_prev: Some(ema_next(c.ema_slow_prev, price, 20)),
        avg_gain: rsi.0,
        avg_loss: rsi.1,
        ..c
    }
}

/// The indicator values an update reports.
pub open spec fn update_cache(c: IndicatorCalculator, price: Dec) -> IndicatorCache {
    let fast = ema_next(c.ema_fast_prev, price, 5);
    let slow = ema_next(c.ema_slow_prev, price, 20);
    IndicatorCache {
        ema_fast: Some(fast),
        ema_slow: Some(slow),
        rsi: rsi_step(c, price).2,
        volatility: volatility_of(c.prev_price, price),
        price_position: None,
        pine_color: pine_color_of(Some(fast), Some(slow)),
    }
}

/// The colour an update reports follows its two averages: red exactly when the fast
/// average is below the slow one, green exactly when above, neutral exactly when they
/// are equal.
pub proof fn lemma_pine_color_follows_averages(c: IndicatorCalculator, price: Dec)
    ensures
        ({
            let cache = update_cache(c, price);
            &&& cache.ema_fast is Some && cache.ema_slow is Some
            &&& (cache.pine_color == PineColor::Red) == (cache.ema_fast.unwrap().val() < cache.ema_slow.unwrap().val())
            &&& (cache.pine_color == PineColor::Green) == (cache.ema_fast.unwrap().val()
                > cache.ema_slow.unwrap().val())
            &&& (cache.pine_color == PineColor::Neutral) == (cache.ema_fast.unwrap().val()
                == cache.ema_slow.unwrap().val())
        }),
{
}

/// The weight `2 / (period + 1)` of an average.
fn ema_weight_exec(period: u64) -> (r: Dec)
    requires
        1 <= period <= 20,
    ensures
        r == ema_weight(period as int),
{
    let two = Dec::new(2, 0);
    let n = Dec::new((period + 1) as i64, 0);
    proof {
        crate::decimal::lemma_pow10_28();
        Dec::lemma_of_parts(2, 0);
        Dec::lemma_of_parts(period + 1, 0);
        Dec::lemma_parts_eq(two, Dec::of_parts(2, 0));
        Dec::lemma_parts_eq(n, Dec::of_parts(period + 1, 0));
        let p = pow10(28);
        assert(two.val() * p < crate::decimal::value_limit() * crate::decimal::abs_int(n.val())) by (nonlinear_arith)
            requires
                two.val() == 2 * p,
                n.val() == (period + 1) * p,
                p == 10000000000000000000000000000,
                1 <= period <= 20,
                crate::decimal::value_limit() == 100000000000000000000000000000000000000000000000000000000,
        ;
    }
    two.div(&n)
}

/// One step of an exponential average; `None` where the arithmetic overflows.
fn calc_ema(prev: &Option<Dec>, price: &Dec, period: u64) -> (r: Option<Dec>)
    requires
        1 <= period <= 20,
    ensures
        ema_in_range(*prev, *price, period as int) ==> r is Some,
        r matches Some(e) ==> e == ema_next(*prev, *price, period as int),
{
    let w = ema_weight_exec(period);
    match prev {
        None => Some(price.copy()),
        Some(p) => {
            let one = Dec::new(1, 0);
            proof {
                Dec::lemma_of_parts(1, 0);
                Dec::lemma_parts_eq(one, Dec::of_parts(1, 0));
            }
            let a = price.checked_mul(&w)?;
            let rest = one.checked_sub(&w)?;
            let b = p.checked_mul(&rest)?;
            a.checked_add(&b)
        },
    }
}

/// `avg * (1 - m) + x * m`; `None` where the arithmetic overflows.
fn calc_smoothed(avg: &Dec, x: &Dec, m: &Dec) -> (r: Option<Dec>)
    ensures
        smoothed_in_range(*avg, *x, *m) ==> r is Some,
        r matches Some(v) ==> v == smoothed(*avg, *x, *m),
{
    let one = Dec::new(1, 0);
    proof {
        Dec::lemma_of_parts(1, 0);
        Dec::lemma_parts_eq(one, Dec::of_parts(1, 0));
    }
    let rest = one.checked_sub(m)?;
    let a = avg.checked_mul(&rest)?;
    let b = x.checked_mul(m)?;
    a.checked_add(&b)
}

/// The strength index of two averages; `None` where the arithmetic overflows.
fn calc_rsi_of(ag: &Dec, al: &Dec) -> (r: Option<Dec>)
    ensures
        rsi_of_in_range(*ag, *al) ==> r is Some,
        r matches Some(v) ==> v == rsi_of(*ag, *al),
{
    let hundred = Dec::new(100, 0);
    let one = Dec::new(1, 0);
    proof {
        Dec::lemma_of_parts(100, 0);
        Dec::lemma_parts_eq(hundred, Dec::of_parts(100, 0));
        Dec::lemma_of_parts(1, 0);
        Dec::lemma_parts_eq(one, Dec::of_parts(1, 0));
    }
    if al.is_zero() {
        return Some(hundred);
    }
    let rs = ag.checked_div(al)?;
    let denom = one.checked_add(&rs)?;
    let q = hundred.checked_div(&denom)?;
    hundred.checked_sub(&q)
}

impl IndicatorCalculator {
    /// One step of the strength index; `None` where the arithmetic overflows.
    fn calc_rsi(&self, price: &Dec) -> (r: Option<(Option<Dec>, Option<Dec>, Option<Dec>)>)
        requires
            self.rsi_period < 1000000,
        ensures
            rsi_in_range(*self, *price) ==> r is Some,
            r matches Some(t) ==> t == rsi_step(*self, *price),
    {
        let prev = match &self.prev_price {
            None => {
                return Some((self.avg_gain.clone(), self.avg_loss.clone(), None));
            },
            Some(p) => p,
        };
        let change = price.checked_sub(prev)?;
        let zero = Dec::zero();
        let gain = if change.gt(&zero) { change.copy() } else { change.neg() };
        let loss = if change.lt(&zero) { change.neg() } else { Dec::zero() };
        proof {
            Dec::lemma_of_parts(0, 0);
            Dec::lemma_of_parts(50, 0);
            if !(change.val() < 0) {
                Dec::lemma_parts_eq(loss, Dec::of_parts(0, 0));
            }
        }
        let fifty = Dec::new(50, 0);
        proof {
            Dec::lemma_parts_eq(fifty, Dec::of_parts(50, 0));
        }
        match (&self.avg_gain, &self.avg_loss) {
            (None, None) => Some((Some(gain), Some(loss), Some(fifty))),
            (Some(ag), Some(al)) => {
                let one = Dec::new(1, 0);
                let n = Dec::new((self.rsi_period + 1) as i64, 0);
                proof {
                    crate::decimal::lemma_pow10_28();
                    Dec::lemma_of_parts(1, 0);
                    Dec::lemma_of_parts(self.rsi_period + 1, 0);
                    Dec::lemma_parts_eq(one, Dec::of_parts(1, 0));
                    Dec::lemma_parts_eq(n, Dec::of_parts(self.rsi_period + 1, 0));
                    let p = pow10(28);
                    assert(one.val() * p < crate::decimal::value_limit() * crate::decimal::abs_int(n.val())) by (nonlinear_arith)
                        requires
                            one.val() == p,
                            n.val() == (self.rsi_period + 1) * p,
                            p == 10000000000000000000000000000,
                            0 <= self.rsi_period,
                            crate::decimal::value_limit() == 100000000000000000000000000000000000000000000000000000000,
                    ;
                }
                let m = one.div(&n);
                let new_ag = calc_smoothed(ag, &gain, &m)?;
                let new_al = calc_smoothed(al, &loss, &m)?;
                let rsi = calc_rsi_of(&new_ag, &new_al)?;
                Some((Some(new_ag), Some(new_al), Some(rsi)))
            },
            _ => Some((self.avg_gain.clone(), self.avg_loss.clone(), Some(fifty))),
        }
    }

    /// The price change in percent; `None` where the arithmetic overflows.
    fn calc_volatility(&self, price: &Dec) -> (r: Option<Dec>)
        ensures
            volatility_in_range(self.prev_price, *price) ==> r is Some,
            r matches Some(v) ==> v == volatility_of(self.prev_price, *price),
    {
        proof {
            Dec::lemma_of_parts(0, 0);
            Dec::lemma_of_parts(100, 0);
        }
        match &self.prev_price {
            Some(p) => {
                if p.is_zero() {
                    let z = Dec::zero();
                    proof {
                        Dec::lemma_parts_eq(z, Dec::of_parts(0, 0));
                    }
                    return Some(z);
                }
                let change = price.checked_sub(p)?;
                let ratio = change.checked_div(p)?;
                let hundred = Dec::new(100, 0);
                proof {
                    Dec::lemma_parts_eq(hundred, Dec::of_parts(100, 0));
                }
                ratio.abs().checked_mul(&hundred)
            },
            None => {
                let z = Dec::zero();
                proof {
                    Dec::lemma_parts_eq(z, Dec::of_parts(0, 0));
                }
                Some(z)
            },
        }
    }

    /// Takes a new price: both averages, the strength index, the colour and the
    /// change in percent.  `None` (and the calculator unchanged) where the crate's
    /// arithmetic overflows; whenever every step stays below the limit there is a
    /// result.
    pub fn update(&mut self, price: Dec) -> (r: Option<IndicatorCache>)
        requires
            old(self).rsi_period < 1000000,
        ensures
            update_in_range(*old(self), price) ==> r is Some,
            r matches Some(cache) ==> cache == update_cache(*old(self), price) && *final(self) == updated(
                *old(self),
                price,
            ),
            r matches Some(cache) ==> cache.ema_fast is Some && cache.ema_slow is Some && (cache.pine_color
                == PineColor::Red) == (cache.ema_fast.unwrap().val() < cache.ema_slow.unwrap().val()) && (
            cache.pine_color == PineColor::Green) == (cache.ema_fast.unwrap().val() > cache.ema_slow.unwrap().val()),
            r is None ==> *final(self) == *old(self),
    {
        let fast = match calc_ema(&self.ema_fast_prev, &price, 5) {
            Some(v) => v,
            None => return None,
        };
        let slow = match calc_ema(&self.ema_slow_prev, &price, 20) {
            Some(v) => v,
            None => return None,
        };
        let rsi = match self.calc_rsi(&price) {
            Some(t) => t,
            None => return None,
        };
        let volatility = match self.calc_volatility(&price) {
            Some(v) => v,
            None => return None,
        };
        let pine_color = if fast.gt(&slow) {
            PineColor::Green
        } else if fast.lt(&slow) {
            PineColor::Red
        } else {
            PineColor::Neutral
        };
        let (avg_gain, avg_loss, rsi_value) = rsi;
        self.ema_fast_prev = Some(fast.copy());
        self.ema_slow_prev = Some(slow.copy());
        self.avg_gain = avg_gain;
        self.avg_loss = avg_loss;
        self.prev_price = Some(price);
        Some(IndicatorCache {
            ema_fast: Some(fast),
            ema_slow: Some(slow),
            rsi: rsi_value,
            volatility,
            price_position: None,
            pine_color,
        })
    }
}

/// The largest price deviation a decision may have: 0.1, i.e. 10 %.
pub open spec fn max_price_deviation() -> Dec {
    Dec::of_parts(1, 1)
}

/// `|(price - current) / current|` for a positive decision price, else zero.
pub open spec fn price_diff(price: Dec, current: Dec) -> int {
    if price.val() > 0 {
        abs_spec(div_spec(sub_spec(price, current), current)).val()
    } else {
        0
    }
}

/// A position exists and the decision would add to it.
pub open spec fn adds_to_position(state: EngineState, action: TradingAction) -> bool {
    &&& state.has_position
    &&& state.position_side is Some
    &&& action == TradingAction::Add
}

/// Too many orders for the ticks seen: at least 1000 orders within fewer than 10000
/// ticks.
pub open spec fn ordering_too_often(state: EngineState) -> bool {
    state.total_orders >= 1000 && state.tick_count < 10000
}

/// The risk check a decision passes: it does not add to an open position, its
/// quantity reaches the lot size, its price is within 10 % of the current one (when
/// there is one), and orders are not too frequent.
pub open spec fn risk_passes(config: EngineConfig, state: EngineState, decision: TradingDecision) -> bool {
    &&& !adds_to_position(state, decision.action)
    &&& decision.qty.val() >= config.lot_size.val()
    &&& match state.current_price {
        Some(cp) => price_diff(decision.price, cp) <= max_price_deviation().val(),
        None => true,
    }
    &&& !ordering_too_often(state)
}

/// The deviation of the decision's price from the current one can be computed.
pub open spec fn price_check_ok(state: EngineState, decision: TradingDecision) -> bool {
    match state.current_price {
        Some(cp) => decision.price.val() > 0 ==> {
            &&& sum_in_range(decision.price, cp, -1)
            &&& quotient_in_range(sub_spec(decision.price, cp), cp)
        },
        None => true,
    }
}

/// The risk check on a decision.
pub fn check_risk(config: &EngineConfig, state: &EngineState, decision: &TradingDecision) -> (r: bool)
    requires
        price_check_ok(*state, *decision),
    ensures
        r == risk_passes(*config, *state, *decision),
{
    if state.has_position && decision.action != TradingAction::Flat {
        match (state.position_side, decision.action) {
            (Some(Side::Buy), TradingAction::Short) => {},
            (Some(Side::Sell), TradingAction::Long) => {},
            (Some(_), TradingAction::Add) => {
                return false;
            },
            _ => {},
        }
    }
    if decision.qty.lt(&config.lot_size) {
        return false;
    }
    if let Some(current_price) = &state.current_price {
        let zero = Dec::zero();
        let price_diff = if decision.price.gt(&zero) {
            decision.price.sub(current_price).div(current_price).abs()
        } else {
            Dec::zero()
        };
        let limit = Dec::new(1, 1);
        proof {
            Dec::lemma_of_parts(1, 1);
            Dec::lemma_parts_eq(limit, max_price_deviation());
        }
        if price_diff.gt(&limit) {
            return false;
        }
    }
    if state.total_orders >= 1000 && state.tick_count < 10000 {
        return false;
    }
    true
}

/// The order a decision leads to: a market order to buy for `Long`, to sell for
/// `Short`, at the decision's quantity and price; no order otherwise.
pub open spec fn order_side_of(action: TradingAction) -> Option<Side> {
    match action {
        TradingAction::Long => Some(Side::Buy),
        TradingAction::Short => Some(Side::Sell),
        _ => None,
    }
}

/// The order for a decision, if it calls for one.
pub fn order_for_decision(decision: &TradingDecision) -> (r: Option<OrderRequest>)
    ensures
        order_side_of(decision.action) is None ==> r is None,
        order_side_of(decision.action) matches Some(side) ==> (r matches Some(o) && o.symbol@ == decision.symbol@
            && o.side == side && o.order_type == OrderType::Market && o.qty == decision.qty && o.price == Some(
            decision.price,
        )),
{
    let side = match decision.action {
        TradingAction::Long => Side::Buy,
        TradingAction::Short => Side::Sell,
        _ => return None,
    };
    Some(OrderRequest {
        symbol: decision.symbol.clone(),
        side,
        order_type: OrderType::Market,
        qty: decision.qty.copy(),
        price: Some(decision.price.copy()),
    })
}

impl EngineState {
    /// A tick arrived at `price`: it becomes the current price and is counted.  The
    /// count overflowing `u64` is left out.
    pub fn record_tick(&mut self, price: Dec)
        requires
            old(self).tick_count < u64::MAX,
        ensures
            final(self).current_price == Some(price),
            final(self).tick_count == old(self).tick_count + 1,
            final(self).total_orders == old(self).total_orders,
            final(self).filled_orders == old(self).filled_orders,
            final(self).rejected_orders == old(self).rejected_orders,
            final(self).has_position == old(self).has_position,
            final(self).position_side == old(self).position_side,
    {
        self.current_price = Some(price);
        self.tick_count = self.tick_count + 1;
    }

    /// Handles a decision: it is counted as an order when it passes the risk check
    /// (or the check is off); the order to send is returned for `Long` and `Short`.
    pub fn submit_decision(&mut self, config: &EngineConfig, decision: &TradingDecision) -> (r: Option<OrderRequest>)
        requires
            config.enable_risk_check ==> price_check_ok(*old(self), *decision),
            old(self).total_orders < u64::MAX,
        ensures
            ({
                let passes = !config.enable_risk_check || risk_passes(*config, *old(self), *decision);
                &&& passes ==> final(self).total_orders == old(self).total_orders + 1
                &&& !passes ==> final(self).total_orders == old(self).total_orders && r is None
                &&& passes && order_side_of(decision.action) is None ==> r is None
                &&& passes && order_side_of(decision.action) is Some ==> (r matches Some(o) && Some(o.side)
                    == order_side_of(decision.action) && o.qty == decision.qty && o.price == Some(decision.price))
            }),
            final(self).tick_count == old(self).tick_count,
            final(self).filled_orders == old(self).filled_orders,
            final(self).rejected_orders == old(self).rejected_orders,
            final(self).current_price == old(self).current_price,
    {
        if config.enable_risk_check && !check_risk(config, self, decision) {
            return None;
        }
        self.total_orders = self.total_orders + 1;
        order_for_decision(decision)
    }

    /// Records the gateway's answer: a filled order is counted as filled, a failure
    /// as rejected; other answers change nothing.
    pub fn record_order_outcome(&mut self, outcome: &Result<OrderResult, GatewayError>)
        requires
            old(self).filled_orders < u64::MAX,
            old(self).rejected_orders < u64::MAX,
        ensures
            outcome matches Ok(res) && res.status == OrderStatus::Filled ==> final(self).filled_orders
                == old(self).filled_orders + 1 && final(self).rejected_orders == old(self).rejected_orders,
            outcome matches Ok(res) && res.status != OrderStatus::Filled ==> final(self).filled_orders
                == old(self).filled_orders && final(self).rejected_orders == old(self).rejected_orders,
            outcome is Err ==> final(self).rejected_orders == old(self).rejected_orders + 1
                && final(self).filled_orders == old(self).filled_orders,
            final(self).total_orders == old(self).total_orders,
            final(self).tick_count == old(self).tick_count,
    {
        match outcome {
            Ok(res) => {
                if res.status == OrderStatus::Filled {
                    self.filled_orders = self.filled_orders + 1;
                }
            },
            Err(_) => {
                self.rejected_orders = self.rejected_orders + 1;
            },
        }
    }
}

} // verus!
