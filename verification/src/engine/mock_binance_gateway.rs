//! A simulated Binance futures gateway: account, positions, orders and fills with
//! pre-trade risk checks and liquidation, and the layer that turns signals into
//! decisions by channel.
use vstd::prelude::*;
use crate::decimal::{
    Dec, pow10, rd_text, rd_text_prec, text_prec_fits, add_spec, sub_spec, mul_spec, div_spec, max_spec, sum_in_range,
    product_in_range, quotient_in_range,
};
use crate::engine::account_pool::{AccountPool, CircuitBreakerState};
use crate::engine::error::EngineError;
use crate::engine::position_manager::LocalPositionManager;
use crate::engine::strategy_pool::StrategyPool;
use crate::keyed::{keys_unique, to_map, find_key, lemma_to_map_index, lemma_to_map_dom, lemma_to_map_update, lemma_to_map_push};
use crate::text::{zero_padded, zero_padded_digits, with_amount};
use crate::engine::minute_risk::{
    calculate_minute_open_notional, calculate_minute_open_notional_checked, minute_ok, minute_new_open, per_symbol_notional,
};
use crate::engine::position_manager::Direction;
use crate::engine::strategy_types::{Side, OrderType, OrderRequest, Signal, TradingDecision, DecisionAction};

verus! {

/// Why the simulated exchange refused an order.
#[derive(Debug, Clone, Copy, PartialEq, Eq, Structural)]
pub enum RejectReason {
    InsufficientBalance,
    PositionLimitExceeded,
    MarginInsufficient,
    PriceDeviationExceeded,
    SymbolNotTradable,
    OrderFrequencyExceeded,
    SystemError,
}

/// The exchange's code of a reason.
pub open spec fn reject_reason_text(r: RejectReason) -> Seq<char> {
    match r {
        RejectReason::InsufficientBalance => "INSUFFICIENT_BALANCE"@,
        RejectReason::PositionLimitExceeded => "POSITION_LIMIT_EXCEEDED"@,
        RejectReason::MarginInsufficient => "MARGIN_INSUFFICIENT"@,
        RejectReason::PriceDeviationExceeded => "PRICE_DEVIATION_EXCEEDED"@,
        RejectReason::SymbolNotTradable => "SYMBOL_NOT_TRADABLE"@,
        RejectReason::OrderFrequencyExceeded => "ORDER_FREQUENCY_EXCEEDED"@,
        RejectReason::SystemError => "SYSTEM_ERROR"@,
    }
}

impl RejectReason {
    pub fn to_string(&self) -> (r: String)
        ensures
            r@ == reject_reason_text(*self),
    {
        match self {
            RejectReason::InsufficientBalance => "INSUFFICIENT_BALANCE".to_string(),
            RejectReason::PositionLimitExceeded => "POSITION_LIMIT_EXCEEDED".to_string(),
            RejectReason::MarginInsufficient => "MARGIN_INSUFFICIENT".to_string(),
            RejectReason::PriceDeviationExceeded => "PRICE_DEVIATION_EXCEEDED".to_string(),
            RejectReason::SymbolNotTradable => "SYMBOL_NOT_TRADABLE".to_string(),
            RejectReason::OrderFrequencyExceeded => "ORDER_FREQUENCY_EXCEEDED".to_string(),
            RejectReason::SystemError => "SYSTEM_ERROR".to_string(),
        }
    }
}

/// The simulated account.
#[derive(Debug, Clone)]
pub struct MockAccount {
    pub account_id: String,
    pub total_equity: Dec,
    pub available: Dec,
    pub frozen_margin: Dec,
    pub unrealized_pnl: Dec,
    pub update_ts: i64,
}

/// Frozen margin over equity, zero without equity.
pub open spec fn margin_ratio_spec(a: MockAccount) -> Dec {
    if a.total_equity.val() == 0 {
        Dec::of_parts(0, 0)
    } else {
        div_spec(a.frozen_margin, a.total_equity)
    }
}

pub open spec fn zero_dec() -> Dec {
    Dec::of_parts(0, 0)
}

pub(crate) fn zero() -> (r: Dec)
    ensures
        r == zero_dec(),
{
    proof {
        Dec::lemma_of_parts(0, 0);
    }
    let z = Dec::zero();
    proof {
        Dec::lemma_parts_eq(z, Dec::of_parts(0, 0));
    }
    z
}

impl MockAccount {
    /// An account holding `initial_balance`, all available, stamped `ts`.
    pub fn new_at(account_id: String, initial_balance: Dec, ts: i64) -> (r: MockAccount)
        ensures
            r.account_id == account_id,
            r.total_equity == initial_balance,
            r.available == initial_balance,
            r.frozen_margin == zero_dec(),
            r.unrealized_pnl == zero_dec(),
            r.update_ts == ts,
    {
        MockAccount {
            account_id,
            total_equity: initial_balance.copy(),
            available: initial_balance,
            frozen_margin: zero(),
            unrealized_pnl: zero(),
            update_ts: ts,
        }
    }

    /// An account holding `initial_balance`, stamped now.
    pub fn new(account_id: String, initial_balance: Dec) -> (r: MockAccount)
        ensures
            r.account_id == account_id,
            r.total_equity == initial_balance,
            r.available == initial_balance,
            r.frozen_margin == zero_dec(),
            r.unrealized_pnl == zero_dec(),
    {
        MockAccount::new_at(account_id, initial_balance, crate::clock::utc_now_secs())
    }

    /// Frozen margin over equity.
    pub fn margin_ratio(&self) -> (r: Dec)
        requires
            self.total_equity.val() != 0 ==> quotient_in_range(self.frozen_margin, self.total_equity),
        ensures
            r == margin_ratio_spec(*self),
    {
        if self.total_equity.is_zero() {
            return zero();
        }
        self.frozen_margin.div(&self.total_equity)
    }
}

/// A simulated position with separate long and short legs.
#[derive(Debug, Clone)]
pub struct MockPosition {
    pub symbol: String,
    pub long_qty: Dec,
    pub long_avg_price: Dec,
    pub short_qty: Dec,
    pub short_avg_price: Dec,
    pub unrealized_pnl: Dec,
    pub margin_used: Dec,
}

/// The profit of both legs at `price`: long `(price - avg) * qty`, short
/// `(avg - price) * qty`, each zero without quantity.
pub open spec fn legs_pnl(p: MockPosition, price: Dec) -> Dec {
    let long_pnl = if p.long_qty.val() > 0 {
        mul_spec(sub_spec(price, p.long_avg_price), p.long_qty)
    } else {
        zero_dec()
    };
    let short_pnl = if p.short_qty.val() > 0 {
        mul_spec(sub_spec(p.short_avg_price, price), p.short_qty)
    } else {
        zero_dec()
    };
    add_spec(long_pnl, short_pnl)
}

/// The legs' profit computes.
pub open spec fn legs_pnl_ok(p: MockPosition, price: Dec) -> bool {
    let long_pnl = if p.long_qty.val() > 0 {
        mul_spec(sub_spec(price, p.long_avg_price), p.long_qty)
    } else {
        zero_dec()
    };
    let short_pnl = if p.short_qty.val() > 0 {
        mul_spec(sub_spec(p.short_avg_price, price), p.short_qty)
    } else {
        zero_dec()
    };
    &&& p.long_qty.val() > 0 ==> sum_in_range(price, p.long_avg_price, -1) && product_in_range(
        sub_spec(price, p.long_avg_price),
        p.long_qty,
    )
    &&& p.short_qty.val() > 0 ==> sum_in_range(p.short_avg_price, price, -1) && product_in_range(
        sub_spec(p.short_avg_price, price),
        p.short_qty,
    )
    &&& sum_in_range(long_pnl, short_pnl, 1)
}

/// The net direction: the only leg held, or the larger leg (short on a tie), or none.
pub open spec fn net_direction_spec(p: MockPosition) -> Option<Direction> {
    let l = p.long_qty.val();
    let s = p.short_qty.val();
    if l > 0 && s == 0 {
        Some(Direction::Long)
    } else if s > 0 && l == 0 {
        Some(Direction::Short)
    } else if l > 0 && s > 0 {
        if l > s { Some(Direction::Long) } else { Some(Direction::Short) }
    } else {
        None
    }
}

fn legs_profit(p: &MockPosition, current_price: &Dec) -> (r: Dec)
    requires
        legs_pnl_ok(*p, *current_price),
    ensures
        r == legs_pnl(*p, *current_price),
{
    let long_pnl = if p.long_qty.gt(&Dec::zero()) {
        current_price.sub(&p.long_avg_price).mul(&p.long_qty)
    } else {
        zero()
    };
    let short_pnl = if p.short_qty.gt(&Dec::zero()) {
        p.short_avg_price.sub(current_price).mul(&p.short_qty)
    } else {
        zero()
    };
    long_pnl.add(&short_pnl)
}

impl MockPosition {
    /// An empty position.
    pub fn new(symbol: String) -> (r: MockPosition)
        ensures
            r.symbol == symbol,
            r.long_qty == zero_dec(),
            r.long_avg_price == zero_dec(),
            r.short_qty == zero_dec(),
            r.short_avg_price == zero_dec(),
            r.unrealized_pnl == zero_dec(),
            r.margin_used == zero_dec(),
    {
        MockPosition {
            symbol,
            long_qty: zero(),
            long_avg_price: zero(),
            short_qty: zero(),
            short_avg_price: zero(),
            unrealized_pnl: zero(),
            margin_used: zero(),
        }
    }

    /// Long plus short quantity.
    pub fn total_qty(&self) -> (r: Dec)
        requires
            sum_in_range(self.long_qty, self.short_qty, 1),
        ensures
            r == add_spec(self.long_qty, self.short_qty),
    {
        self.long_qty.add(&self.short_qty)
    }

    pub fn net_direction(&self) -> (r: Option<Direction>)
        ensures
            r == net_direction_spec(*self),
    {
        let z = Dec::zero();
        if self.long_qty.gt(&z) && self.short_qty.eq_val(&z) {
            Some(Direction::Long)
        } else if self.short_qty.gt(&z) && self.long_qty.eq_val(&z) {
            Some(Direction::Short)
        } else if self.long_qty.gt(&z) && self.short_qty.gt(&z) {
            if self.long_qty.gt(&self.short_qty) {
                Some(Direction::Long)
            } else {
                Some(Direction::Short)
            }
        } else {
            None
        }
    }

    /// Sets the unrealized profit at `current_price`.
    pub fn calc_unrealized_pnl(&mut self, current_price: Dec)
        requires
            legs_pnl_ok(*old(self), current_price),
        ensures
            *final(self) == (MockPosition { unrealized_pnl: legs_pnl(*old(self), current_price), ..*old(self) }),
    {
        self.unrealized_pnl = legs_profit(self, &current_price);
    }
}

/// Order status.
#[derive(Debug, Clone, Copy, PartialEq, Eq, Structural)]
pub enum OrderStatus {
    Pending,
    Filled,
    Cancelled,
    Rejected,
}

/// A simulated order.
#[derive(Debug, Clone)]
pub struct MockOrder {
    pub order_id: String,
    pub symbol: String,
    pub side: Side,
    pub qty: Dec,
    pub price: Dec,
    pub order_type: OrderType,
    pub status: OrderStatus,
    pub filled_qty: Dec,
    pub filled_price: Dec,
    pub created_ts: i64,
    pub filled_ts: Option<i64>,
    pub reject_reason: Option<RejectReason>,
}

/// A fill.
#[derive(Debug, Clone)]
pub struct MockTrade {
    pub trade_id: String,
    pub order_id: String,
    pub symbol: String,
    pub side: Side,
    pub qty: Dec,
    pub price: Dec,
    pub commission: Dec,
    pub realized_pnl: Dec,
    pub ts: i64,
}

/// Risk limits of the simulated exchange.
#[derive(Debug, Clone)]
pub struct RiskConfig {
    pub max_position_ratio: Dec,
    pub min_reserve_ratio: Dec,
    pub max_order_value_ratio: Dec,
    pub maintenance_margin_rate: Dec,
    /// Orders per second.
    pub order_frequency_limit: u32,
    pub price_deviation_limit: Dec,
}

impl Default for RiskConfig {
    /// Positions up to 95 % of equity, 5 % reserve, orders up to 10 %, 0.5 %
    /// maintenance margin, ten orders a second, 1 % price deviation.
    fn default() -> (r: RiskConfig)
        ensures
            r.max_position_ratio == Dec::of_parts(95, 2),
            r.min_reserve_ratio == Dec::of_parts(5, 2),
            r.max_order_value_ratio == Dec::of_parts(10, 2),
            r.maintenance_margin_rate == Dec::of_parts(5, 3),
            r.order_frequency_limit == 10,
            r.price_deviation_limit == Dec::of_parts(1, 2),
    {
        let a = Dec::new(95, 2);
        let b = Dec::new(5, 2);
        let c = Dec::new(10, 2);
        let d = Dec::new(5, 3);
        let e = Dec::new(1, 2);
        proof {
            Dec::lemma_of_parts(95, 2);
            Dec::lemma_of_parts(5, 2);
            Dec::lemma_of_parts(10, 2);
            Dec::lemma_of_parts(5, 3);
            Dec::lemma_of_parts(1, 2);
            Dec::lemma_parts_eq(a, Dec::of_parts(95, 2));
            Dec::lemma_parts_eq(b, Dec::of_parts(5, 2));
            Dec::lemma_parts_eq(c, Dec::of_parts(10, 2));
            Dec::lemma_parts_eq(d, Dec::of_parts(5, 3));
            Dec::lemma_parts_eq(e, Dec::of_parts(1, 2));
        }
        RiskConfig {
            max_position_ratio: a,
            min_reserve_ratio: b,
            max_order_value_ratio: c,
            maintenance_margin_rate: d,
            order_frequency_limit: 10,
            price_deviation_limit: e,
        }
    }
}

impl RiskConfig {
    pub fn production() -> (r: RiskConfig)
        ensures
            r.max_position_ratio == Dec::of_parts(95, 2),
            r.max_order_value_ratio == Dec::of_parts(10, 2),
            r.maintenance_margin_rate == Dec::of_parts(5, 3),
            r.order_frequency_limit == 10,
    {
        RiskConfig::default()
    }
}

/// The outcome of an order.
#[derive(Debug, Clone)]
pub struct OrderResult {
    pub order_id: String,
    pub status: OrderStatus,
    pub filled_qty: Dec,
    pub filled_price: Dec,
    pub commission: Dec,
    pub reject_reason: Option<RejectReason>,
    pub message: String,
}

/// Where the CSV logs go.
#[derive(Debug, Clone)]
pub struct CsvWriter {
    pub trades_path: String,
    pub positions_path: String,
    pub risk_log_path: String,
    pub account_snapshot_path: String,
    pub indicator_comparison_path: String,
}

impl Default for CsvWriter {
    fn default() -> (r: CsvWriter)
        ensures
            r.trades_path@ == "trades.csv"@,
            r.positions_path@ == "positions.csv"@,
            r.risk_log_path@ == "risk_log.csv"@,
            r.account_snapshot_path@ == "account_snapshot.csv"@,
            r.indicator_comparison_path@ == "indicator_comparison.csv"@,
    {
        CsvWriter {
            trades_path: "trades.csv".to_string(),
            positions_path: "positions.csv".to_string(),
            risk_log_path: "risk_log.csv".to_string(),
            account_snapshot_path: "account_snapshot.csv".to_string(),
            indicator_comparison_path: "indicator_comparison.csv".to_string(),
        }
    }
}

/// A snapshot of the account.
#[derive(Debug, Clone)]
pub struct AccountSnapshot {
    pub ts: i64,
    pub total_equity: Dec,
    pub available: Dec,
    pub frozen_margin: Dec,
    pub unrealized_pnl: Dec,
    pub margin_ratio: Dec,
}

/// The gateway's channel.
#[derive(Debug, Clone, Copy, PartialEq, Eq, Structural)]
pub enum GatewayChannelType {
    /// Daily.
    Slow,
    /// Minute, high frequency.
    Fast,
}

/// The channel's name.
pub open spec fn channel_name(c: GatewayChannelType) -> Seq<char> {
    match c {
        GatewayChannelType::Slow => "Slow"@,
        GatewayChannelType::Fast => "Fast"@,
    }
}

fn channel_text(c: GatewayChannelType) -> (r: &'static str)
    ensures
        r@ == channel_name(c),
{
    match c {
        GatewayChannelType::Slow => "Slow",
        GatewayChannelType::Fast => "Fast",
    }
}

/// Pine indicator colour.
#[derive(Debug, Clone, Copy, PartialEq, Eq, Structural)]
pub enum PineColorState {
    Red,
    Green,
    Yellow,
}

/// The colour's name.
pub open spec fn color_name(c: PineColorState) -> Seq<char> {
    match c {
        PineColorState::Red => "Red"@,
        PineColorState::Green => "Green"@,
        PineColorState::Yellow => "Yellow"@,
    }
}

fn color_text(c: PineColorState) -> (r: &'static str)
    ensures
        r@ == color_name(c),
{
    match c {
        PineColorState::Red => "Red",
        PineColorState::Green => "Green",
        PineColorState::Yellow => "Yellow",
    }
}

/// The channel and the indicators that drive it.
#[derive(Debug, Clone)]
pub struct ChannelState {
    pub channel_type: GatewayChannelType,
    /// When the fast channel was entered.
    pub enter_fast_ts: Option<i64>,
    pub tr_ratio: Dec,
    /// Where ma5 sits within the 20-day range.
    pub ma5_in_20d_pos: Dec,
    pub pine_color: PineColorState,
}

/// A reason to exit.
#[derive(Debug, Clone)]
pub struct ExitSignal {
    pub reason: String,
    pub ts: i64,
    pub details: String,
}

/// A log line of the channel triggers.
#[derive(Debug, Clone)]
pub struct TriggerLogEntry {
    pub ts: i64,
    pub event: String,
    pub channel_type: String,
    pub tr_ratio: Dec,
    pub ma5_in_20d_pos: Dec,
    pub pine_color: String,
    pub details: String,
}

/// Turns signals into decisions, by channel.
pub struct SignalSynthesisLayer {
    pub channel_state: ChannelState,
    /// Fast channel from 13 % in 15 minutes or 3 % in a minute.
    pub high_vol_threshold_15m: Dec,
    pub high_vol_threshold_1m: Dec,
    /// Back to slow below a tr ratio of 1.
    pub low_vol_exit_threshold: Dec,
}

/// The quantity to open on the minute channel: the minute notional per symbol over
/// the price, at least 0.001; zero when the notional misses its threshold; 0.001
/// without a positive price.
pub open spec fn open_qty_spec(pool: AccountPool, count: Dec, price: Dec, lev: Dec) -> Dec {
    let actual = per_symbol_notional(
        minute_new_open(pool),
        count,
        lev,
        Dec::of_parts(5, 0),
        Dec::of_parts(250, 0),
        Dec::of_parts(50, 0),
        Dec::of_parts(50, 0),
    );
    if actual.val() < 250 * pow10(28) {
        zero_dec()
    } else if price.val() <= 0 {
        Dec::of_parts(1, 3)
    } else {
        max_spec(div_spec(actual, price), Dec::of_parts(1, 3))
    }
}

/// What the open quantity needs to compute.
pub open spec fn open_qty_ok(pool: AccountPool, count: Dec, price: Dec, lev: Dec) -> bool {
    let actual = per_symbol_notional(
        minute_new_open(pool),
        count,
        lev,
        Dec::of_parts(5, 0),
        Dec::of_parts(250, 0),
        Dec::of_parts(50, 0),
        Dec::of_parts(50, 0),
    );
    &&& minute_ok(pool, count, lev)
    &&& actual.val() >= 250 * pow10(28) && price.val() > 0 ==> quotient_in_range(actual, price)
}

/// "通道 <channel> <text>".
pub open spec fn channel_reason(c: GatewayChannelType, text: Seq<char>) -> Seq<char> {
    "通道 "@ + channel_name(c) + " "@ + text
}

fn channel_message(c: GatewayChannelType, text: &str) -> (r: String)
    ensures
        r@ == channel_reason(c, text@),
{
    let mut s = "通道 ".to_string();
    s.append(channel_text(c));
    s.append(" ");
    s.append(text);
    s
}

/// The decision for a signal: entries against the opposite position close it first;
/// exits close their side; a high-volatility exit closes whatever is held; hedges
/// wait.  Reasons name the channel.
pub open spec fn synthesized(
    signal: Signal,
    position_side: Option<Side>,
    price: Dec,
    symbol: Seq<char>,
    qty: Dec,
    c: GatewayChannelType,
    d: TradingDecision,
) -> bool {
    let close = d.price == price && d.qty == zero_dec();
    let open = d.price == price && d.qty == qty;
    &&& d.symbol@ == symbol
    &&& match signal {
        Signal::LongEntry => if position_side == Some(Side::Short) {
            d.action == DecisionAction::CloseShort && close && d.reason@ == channel_reason(c, "平空入场做多"@)
        } else {
            d.action == DecisionAction::OpenLong && open && d.reason@ == channel_reason(c, "做多入场"@)
        },
        Signal::ShortEntry => if position_side == Some(Side::Long) {
            d.action == DecisionAction::CloseLong && close && d.reason@ == channel_reason(c, "平多入场做空"@)
        } else {
            d.action == DecisionAction::OpenShort && open && d.reason@ == channel_reason(c, "做空入场"@)
        },
        Signal::LongExit => d.action == DecisionAction::CloseLong && close && d.reason@ == channel_reason(c, "平多"@),
        Signal::ShortExit => d.action == DecisionAction::CloseShort && close && d.reason@ == channel_reason(
            c,
            "平空"@,
        ),
        Signal::ExitHighVol => match position_side {
            Some(Side::Long) => d.action == DecisionAction::CloseLong && close && d.reason@ == "高波动退出 "@
                + channel_reason(c, "平多"@),
            Some(Side::Short) => d.action == DecisionAction::CloseShort && close && d.reason@ == "高波动退出 "@
                + channel_reason(c, "平空"@),
            None => d.action == DecisionAction::NoAction && d.reason@ == "高波动退出 无持仓"@,
        },
        Signal::LongHedge => d.action == DecisionAction::NoAction && d.reason@ == channel_reason(c, "多头对冲观望"@),
        Signal::ShortHedge => d.action == DecisionAction::NoAction && d.reason@ == channel_reason(
            c,
            "空头对冲观望"@,
        ),
    }
}

impl SignalSynthesisLayer {
    /// Starts slow and yellow; thresholds 13 %, 3 % and 1.
    pub fn new() -> (r: SignalSynthesisLayer)
        ensures
            r.channel_state.channel_type == GatewayChannelType::Slow,
            r.channel_state.enter_fast_ts is None,
            r.channel_state.tr_ratio == zero_dec(),
            r.channel_state.ma5_in_20d_pos == zero_dec(),
            r.channel_state.pine_color == PineColorState::Yellow,
            r.high_vol_threshold_15m.mant() == 13 && r.high_vol_threshold_15m.scl() == 2,
            r.high_vol_threshold_1m.mant() == 3 && r.high_vol_threshold_1m.scl() == 2,
            r.low_vol_exit_threshold.mant() == 10 && r.low_vol_exit_threshold.scl() == 1,
    {
        SignalSynthesisLayer {
            channel_state: ChannelState {
                channel_type: GatewayChannelType::Slow,
                enter_fast_ts: None,
                tr_ratio: zero(),
                ma5_in_20d_pos: zero(),
                pine_color: PineColorState::Yellow,
            },
            high_vol_threshold_15m: Dec::new(13, 2),
            high_vol_threshold_1m: Dec::new(3, 2),
            low_vol_exit_threshold: Dec::new(10, 1),
        }
    }

    /// Fast when either volatility reaches its threshold.
    pub fn check_enter_high_volatility(&self, volatility_15m: Dec, volatility_1m: Dec) -> (r: bool)
        ensures
            r == (volatility_15m.val() >= self.high_vol_threshold_15m.val() || volatility_1m.val()
                >= self.high_vol_threshold_1m.val()),
    {
        volatility_15m.ge(&self.high_vol_threshold_15m) || volatility_1m.ge(&self.high_vol_threshold_1m)
    }

    /// Leave the fast channel when the tr ratio is below the exit threshold.
    pub fn check_exit_high_volatility(&self, tr_ratio: Dec) -> (r: bool)
        ensures
            r == (tr_ratio.val() < self.low_vol_exit_threshold.val() && self.channel_state.channel_type
                == GatewayChannelType::Fast),
    {
        tr_ratio.lt(&self.low_vol_exit_threshold) && self.channel_state.channel_type == GatewayChannelType::Fast
    }

    /// Takes the new channel and indicators; entering fast stamps the time, leaving
    /// it clears the stamp.
    pub fn update_channel(
        &mut self,
        channel_type: GatewayChannelType,
        tr_ratio: Dec,
        ma5_in_20d_pos: Dec,
        pine_color: PineColorState,
        current_ts: i64,
    )
        ensures
            final(self).channel_state.channel_type == channel_type,
            final(self).channel_state.tr_ratio == tr_ratio,
            final(self).channel_state.ma5_in_20d_pos == ma5_in_20d_pos,
            final(self).channel_state.pine_color == pine_color,
            final(self).channel_state.enter_fast_ts == if channel_type == GatewayChannelType::Fast && old(
                self).channel_state.channel_type == GatewayChannelType::Slow {
                Some(current_ts)
            } else if channel_type == GatewayChannelType::Slow && old(self).channel_state.channel_type
                == GatewayChannelType::Fast {
                None
            } else {
                old(self).channel_state.enter_fast_ts
            },
            final(self).high_vol_threshold_15m == old(self).high_vol_threshold_15m,
            final(self).high_vol_threshold_1m == old(self).high_vol_threshold_1m,
            final(self).low_vol_exit_threshold == old(self).low_vol_exit_threshold,
    {
        let old_type = self.channel_state.channel_type;
        self.channel_state.channel_type = channel_type;
        self.channel_state.tr_ratio = tr_ratio;
        self.channel_state.ma5_in_20d_pos = ma5_in_20d_pos;
        self.channel_state.pine_color = pine_color;
        if channel_type == GatewayChannelType::Fast && old_type == GatewayChannelType::Slow {
            self.channel_state.enter_fast_ts = Some(current_ts);
        } else if channel_type == GatewayChannelType::Slow && old_type == GatewayChannelType::Fast {
            self.channel_state.enter_fast_ts = None;
        }
    }

    pub fn get_channel_type(&self) -> (r: GatewayChannelType)
        ensures
            r == self.channel_state.channel_type,
    {
        self.channel_state.channel_type
    }

    pub fn get_channel_state(&self) -> (r: ChannelState)
        ensures
            r == self.channel_state,
    {
        ChannelState {
            channel_type: self.channel_state.channel_type,
            enter_fast_ts: self.channel_state.enter_fast_ts,
            tr_ratio: self.channel_state.tr_ratio.copy(),
            ma5_in_20d_pos: self.channel_state.ma5_in_20d_pos.copy(),
            pine_color: self.channel_state.pine_color,
        }
    }

    /// Daily trend exit at `now`: ma5 below the middle of its 20-day range and a red
    /// Pine colour.
    pub fn check_daily_trend_exit_at(&self, now: i64) -> (r: Option<ExitSignal>)
        ensures
            (self.channel_state.ma5_in_20d_pos.val() < Dec::of_parts(5, 1).val() && self.channel_state.pine_color
                == PineColorState::Red) ==> r is Some && r.unwrap().reason@ == "日线趋势反转"@ && r.unwrap().ts
                == now && r.unwrap().details@ == "ma5_in_20d_pos="@ + rd_text_prec(
                self.channel_state.ma5_in_20d_pos.mant(),
                self.channel_state.ma5_in_20d_pos.scl(),
                2,
            ) + " PineColor="@ + color_name(self.channel_state.pine_color),
            !(self.channel_state.ma5_in_20d_pos.val() < Dec::of_parts(5, 1).val() && self.channel_state.pine_color
                == PineColorState::Red) ==> r is None,
    {
        let half = Dec::new(5, 1);
        proof {
            Dec::lemma_of_parts(5, 1);
            Dec::lemma_parts_eq(half, Dec::of_parts(5, 1));
        }
        let ma5_below_ma20 = self.channel_state.ma5_in_20d_pos.lt(&half);
        let pine_is_red = self.channel_state.pine_color == PineColorState::Red;
        if ma5_below_ma20 && pine_is_red {
            let mut details = "ma5_in_20d_pos=".to_string();
            proof {
                use_type_invariant(&self.channel_state.ma5_in_20d_pos);
                crate::decimal::lemma_text_fits(self.channel_state.ma5_in_20d_pos);
            }
            let pos = self.channel_state.ma5_in_20d_pos.to_text_prec(2);
            details.append(pos.as_str());
            details.append(" PineColor=");
            details.append(color_text(self.channel_state.pine_color));
            Some(ExitSignal { reason: "日线趋势反转".to_string(), ts: now, details })
        } else {
            None
        }
    }

    /// `check_daily_trend_exit_at`, stamped now.
    pub fn check_daily_trend_exit(&self) -> (r: Option<ExitSignal>)
        ensures
            (r is Some) == (self.channel_state.ma5_in_20d_pos.val() < Dec::of_parts(5, 1).val()
                && self.channel_state.pine_color == PineColorState::Red),
    {
        self.check_daily_trend_exit_at(crate::clock::utc_now_secs())
    }

    /// Channel exit at `now`: in the fast channel with the tr ratio below 1.
    pub fn check_channel_exit_at(&self, tr_ratio: Dec, now: i64) -> (r: Option<ExitSignal>)
        requires
            text_prec_fits(tr_ratio.mant(), tr_ratio.scl(), 4),
        ensures
            (tr_ratio.val() < self.low_vol_exit_threshold.val() && self.channel_state.channel_type
                == GatewayChannelType::Fast) ==> r is Some && r.unwrap().reason@ == "tr_ratio < 1 退出高速通道"@
                && r.unwrap().ts == now && r.unwrap().details@ == "tr_ratio="@ + rd_text_prec(
                tr_ratio.mant(),
                tr_ratio.scl(),
                4,
            ),
            !(tr_ratio.val() < self.low_vol_exit_threshold.val() && self.channel_state.channel_type
                == GatewayChannelType::Fast) ==> r is None,
    {
        if self.check_exit_high_volatility(tr_ratio.copy()) {
            let mut details = "tr_ratio=".to_string();
            let t = tr_ratio.to_text_prec(4);
            details.append(t.as_str());
            Some(ExitSignal { reason: "tr_ratio < 1 退出高速通道".to_string(), ts: now, details })
        } else {
            None
        }
    }

    /// `check_channel_exit_at`, stamped now.
    pub fn check_channel_exit(&self, tr_ratio: Dec) -> (r: Option<ExitSignal>)
        requires
            text_prec_fits(tr_ratio.mant(), tr_ratio.scl(), 4),
        ensures
            (r is Some) == (tr_ratio.val() < self.low_vol_exit_threshold.val() && self.channel_state.channel_type
                == GatewayChannelType::Fast),
    {
        self.check_channel_exit_at(tr_ratio, crate::clock::utc_now_secs())
    }

    /// The decision for `signal` given the position side.
    pub fn synthesize(
        &self,
        signal: Signal,
        position_side: Option<Side>,
        current_price: Dec,
        symbol: &str,
        account_pool: &AccountPool,
        current_symbol_count: Dec,
        leverage: Dec,
    ) -> (r: TradingDecision)
        requires
            open_qty_ok(*account_pool, current_symbol_count, current_price, leverage),
        ensures
            synthesized(
                signal,
                position_side,
                current_price,
                symbol@,
                open_qty_spec(*account_pool, current_symbol_count, current_price, leverage),
                self.channel_state.channel_type,
                r,
            ),
    {
        let open_qty = self.calculate_open_qty_for_channel(
            account_pool,
            current_symbol_count,
            current_price.copy(),
            leverage,
        );
        self.decide(signal, position_side, current_price, symbol, open_qty)
    }

    /// `synthesize` for any input: `None` where a step of the decimal arithmetic of
    /// the open quantity would overflow or divide by zero (never when `open_qty_ok`
    /// holds), the decision otherwise.
    pub fn synthesize_checked(
        &self,
        signal: Signal,
        position_side: Option<Side>,
        current_price: Dec,
        symbol: &str,
        account_pool: &AccountPool,
        current_symbol_count: Dec,
        leverage: Dec,
    ) -> (r: Option<TradingDecision>)
        ensures
            open_qty_ok(*account_pool, current_symbol_count, current_price, leverage) ==> r is Some,
            r matches Some(d) ==> synthesized(
                signal,
                position_side,
                current_price,
                symbol@,
                open_qty_spec(*account_pool, current_symbol_count, current_price, leverage),
                self.channel_state.channel_type,
                d,
            ),
    {
        let open_qty = match self.calculate_open_qty_for_channel_checked(
            account_pool,
            current_symbol_count,
            current_price.copy(),
            leverage,
        ) {
            Some(q) => q,
            None => return None,
        };
        Some(self.decide(signal, position_side, current_price, symbol, open_qty))
    }

    /// The decision for `signal` given the position side, opening `open_qty`.
    fn decide(&self, signal: Signal, position_side: Option<Side>, current_price: Dec, symbol: &str, open_qty: Dec) -> (r: TradingDecision)
        ensures
            synthesized(signal, position_side, current_price, symbol@, open_qty, self.channel_state.channel_type, r),
    {
        let channel_type = self.channel_state.channel_type;
        match signal {
            Signal::LongEntry => {
                if position_side == Some(Side::Short) {
                    TradingDecision::close_short(
                        symbol.to_string(),
                        current_price,
                        channel_message(channel_type, "平空入场做多"),
                    )
                } else {
                    TradingDecision::open_long(
                        symbol.to_string(),
                        current_price,
                        open_qty,
                        channel_message(channel_type, "做多入场"),
                    )
                }
            },
            Signal::ShortEntry => {
                if position_side == Some(Side::Long) {
                    TradingDecision::close_long(
                        symbol.to_string(),
                        current_price,
                        channel_message(channel_type, "平多入场做空"),
                    )
                } else {
                    TradingDecision::open_short(
                        symbol.to_string(),
                        current_price,
                        open_qty,
                        channel_message(channel_type, "做空入场"),
                    )
                }
            },
            Signal::LongExit => {
                TradingDecision::close_long(symbol.to_string(), current_price, channel_message(channel_type, "平多"))
            },
            Signal::ShortExit => {
                TradingDecision::close_short(symbol.to_string(), current_price, channel_message(channel_type, "平空"))
            },
            Signal::ExitHighVol => {
                match position_side {
                    Some(Side::Long) => {
                        let mut reason = "高波动退出 ".to_string();
                        let tail = channel_message(channel_type, "平多");
                        reason.append(tail.as_str());
                        TradingDecision::close_long(symbol.to_string(), current_price, reason)
                    },
                    Some(Side::Short) => {
                        let mut reason = "高波动退出 ".to_string();
                        let tail = channel_message(channel_type, "平空");
                        reason.append(tail.as_str());
                        TradingDecision::close_short(symbol.to_string(), current_price, reason)
                    },
                    None => TradingDecision::no_action(symbol.to_string(), "高波动退出 无持仓".to_string()),
                }
            },
            Signal::LongHedge => {
                TradingDecision::no_action(symbol.to_string(), channel_message(channel_type, "多头对冲观望"))
            },
            Signal::ShortHedge => {
                TradingDecision::no_action(symbol.to_string(), channel_message(channel_type, "空头对冲观望"))
            },
        }
    }

    /// The quantity to open: the minute notional per symbol over the price.
    pub fn calculate_open_qty_for_channel(
        &self,
        account_pool: &AccountPool,
        current_symbol_count: Dec,
        current_price: Dec,
        leverage: Dec,
    ) -> (r: Dec)
        requires
            open_qty_ok(*account_pool, current_symbol_count, current_price, leverage),
        ensures
            r == open_qty_spec(*account_pool, current_symbol_count, current_price, leverage),
    {
        let result = calculate_minute_open_notional(account_pool, current_symbol_count, leverage);
        if !result.meets_min_threshold {
            return zero();
        }
        let notional = result.actual_notional_per_symbol;
        let min_qty = Dec::new(1, 3);
        proof {
            Dec::lemma_of_parts(1, 3);
            Dec::lemma_parts_eq(min_qty, Dec::of_parts(1, 3));
        }
        if current_price.le(&Dec::zero()) {
            return min_qty;
        }
        notional.div(&current_price).max(&min_qty)
    }

    /// `calculate_open_qty_for_channel` for any input: `None` where a step of the
    /// decimal arithmetic would overflow or divide by zero (never when `open_qty_ok`
    /// holds), the quantity otherwise.
    pub fn calculate_open_qty_for_channel_checked(
        &self,
        account_pool: &AccountPool,
        current_symbol_count: Dec,
        current_price: Dec,
        leverage: Dec,
    ) -> (r: Option<Dec>)
        ensures
            open_qty_ok(*account_pool, current_symbol_count, current_price, leverage) ==> r is Some,
            r matches Some(q) ==> q == open_qty_spec(*account_pool, current_symbol_count, current_price, leverage),
    {
        let result = match calculate_minute_open_notional_checked(account_pool, current_symbol_count, leverage) {
            Some(x) => x,
            None => return None,
        };
        proof {
            crate::decimal::lemma_pow10_28();
        }
        if !result.meets_min_threshold {
            return Some(zero());
        }
        let notional = result.actual_notional_per_symbol;
        let min_qty = Dec::new(1, 3);
        proof {
            Dec::lemma_of_parts(1, 3);
            Dec::lemma_parts_eq(min_qty, Dec::of_parts(1, 3));
        }
        if current_price.le(&Dec::zero()) {
            return Some(min_qty);
        }
        match notional.checked_div(&current_price) {
            Some(q) => Some(q.max(&min_qty)),
            None => None,
        }
    }

    /// A trigger log entry at `now`.
    pub fn create_trigger_log_at(&self, event: &str, details: &str, now: i64) -> (r: TriggerLogEntry)
        ensures
            r.ts == now,
            r.event@ == event@,
            r.channel_type@ == channel_name(self.channel_state.channel_type),
            r.tr_ratio == self.channel_state.tr_ratio,
            r.ma5_in_20d_pos == self.channel_state.ma5_in_20d_pos,
            r.pine_color@ == color_name(self.channel_state.pine_color),
            r.details@ == details@,
    {
        TriggerLogEntry {
            ts: now,
            event: event.to_string(),
            channel_type: channel_text(self.channel_state.channel_type).to_string(),
            tr_ratio: self.channel_state.tr_ratio.copy(),
            ma5_in_20d_pos: self.channel_state.ma5_in_20d_pos.copy(),
            pine_color: color_text(self.channel_state.pine_color).to_string(),
            details: details.to_string(),
        }
    }

    /// A trigger log entry stamped now.
    pub fn create_trigger_log(&self, event: &str, details: &str) -> (r: TriggerLogEntry)
        ensures
            r.event@ == event@,
            r.channel_type@ == channel_name(self.channel_state.channel_type),
            r.tr_ratio == self.channel_state.tr_ratio,
            r.pine_color@ == color_name(self.channel_state.pine_color),
            r.details@ == details@,
    {
        self.create_trigger_log_at(event, details, crate::clock::utc_now_secs())
    }
}

impl Default for SignalSynthesisLayer {
    fn default() -> (r: SignalSynthesisLayer)
        ensures
            r.channel_state.channel_type == GatewayChannelType::Slow,
    {
        SignalSynthesisLayer::new()
    }
}

/// A position with nothing in it.
pub open spec fn fresh_position(symbol: String) -> MockPosition {
    MockPosition {
        symbol,
        long_qty: zero_dec(),
        long_avg_price: zero_dec(),
        short_qty: zero_dec(),
        short_avg_price: zero_dec(),
        unrealized_pnl: zero_dec(),
        margin_used: zero_dec(),
    }
}

/// The quantity and average price of a leg after adding `fq` at `fp`: the average
/// is the total cost over the total quantity (zero without quantity).
pub open spec fn added_leg(q: Dec, avg: Dec, fq: Dec, fp: Dec) -> (Dec, Dec) {
    let total_cost = add_spec(mul_spec(q, avg), mul_spec(fq, fp));
    let total_qty = add_spec(q, fq);
    (total_qty, if total_qty.val() > 0 { div_spec(total_cost, total_qty) } else { zero_dec() })
}

/// No step of a fill on a leg rounds: both costs, both sums and the division giving
/// the new average are exact.
pub open spec fn fill_exact(q: Dec, avg: Dec, fq: Dec, fp: Dec) -> bool {
    &&& (q.mant() == 0 || avg.mant() == 0 || crate::decimal::exact_product(q, avg))
    &&& (fq.mant() == 0 || fp.mant() == 0 || crate::decimal::exact_product(fq, fp))
    &&& crate::decimal::exact_sum(mul_spec(q, avg), mul_spec(fq, fp), 1)
    &&& crate::decimal::exact_sum(q, fq, 1)
    &&& crate::decimal::exact_quotient(add_spec(mul_spec(q, avg), mul_spec(fq, fp)), add_spec(q, fq))
}

/// A fill keeps a leg's average at its total cost over its total quantity: the
/// quantity grows by the fill, the new average times the new quantity is the old
/// cost plus the fill's cost, so the average lies between the old average and the
/// fill price, and is the fill price on an empty leg.  Stated where no step rounds.
pub proof fn lemma_leg_average(q: Dec, avg: Dec, fq: Dec, fp: Dec)
    requires
        q.wf(),
        avg.wf(),
        fq.wf(),
        fp.wf(),
        q.val() >= 0,
        fq.val() > 0,
        fill_exact(q, avg, fq, fp),
    ensures
        added_leg(q, avg, fq, fp).0.val() == q.val() + fq.val(),
        added_leg(q, avg, fq, fp).1.val() * added_leg(q, avg, fq, fp).0.val() == q.val() * avg.val() + fq.val()
            * fp.val(),
        q.val() == 0 ==> added_leg(q, avg, fq, fp).1.val() == fp.val(),
        q.val() > 0 && avg.val() <= fp.val() ==> avg.val() <= added_leg(q, avg, fq, fp).1.val() <= fp.val(),
        q.val() > 0 && fp.val() <= avg.val() ==> fp.val() <= added_leg(q, avg, fq, fp).1.val() <= avg.val(),
{
    let c1 = mul_spec(q, avg);
    let c2 = mul_spec(fq, fp);
    crate::decimal::lemma_mul_value(q, avg);
    crate::decimal::lemma_mul_value(fq, fp);
    crate::decimal::lemma_add_exact(c1, c2);
    crate::decimal::lemma_add_exact(q, fq);
    let cost = add_spec(c1, c2);
    let nq = add_spec(q, fq);
    crate::decimal::lemma_div_value(cost, nq);
    let na = div_spec(cost, nq);
    let p = pow10(28);
    crate::decimal::lemma_pow10_pos(28);
    assert(na.val() * nq.val() == q.val() * avg.val() + fq.val() * fp.val()) by (nonlinear_arith)
        requires
            na.val() * nq.val() == cost.val() * p,
            cost.val() == c1.val() + c2.val(),
            c1.val() * p == q.val() * avg.val(),
            c2.val() * p == fq.val() * fp.val(),
    ;
    let a = q.val();
    let b = fq.val();
    let x = avg.val();
    let y = fp.val();
    let m = na.val();
    assert(a == 0 ==> m == y) by (nonlinear_arith)
        requires
            m * (a + b) == a * x + b * y,
            b > 0,
    ;
    assert(a > 0 && x <= y ==> x <= m <= y) by (nonlinear_arith)
        requires
            m * (a + b) == a * x + b * y,
            b > 0,
    ;
    assert(a > 0 && y <= x ==> y <= m <= x) by (nonlinear_arith)
        requires
            m * (a + b) == a * x + b * y,
            b > 0,
    ;
}

/// The leg of a side: (quantity, average price).
pub open spec fn leg_of(p: MockPosition, side: Side) -> (Dec, Dec) {
    match side {
        Side::Long => (p.long_qty, p.long_avg_price),
        Side::Short => (p.short_qty, p.short_avg_price),
    }
}

/// A fill of `fq` at `fp` on one side of a position adds to that side's leg at its
/// cost-weighted average (`lemma_leg_average`) and leaves the other leg as it was.
pub proof fn lemma_fill_averages_cost(p: MockPosition, side: Side, fq: Dec, fp: Dec)
    requires
        leg_of(p, side).0.wf(),
        leg_of(p, side).1.wf(),
        fq.wf(),
        fp.wf(),
        leg_of(p, side).0.val() >= 0,
        fq.val() > 0,
        fill_exact(leg_of(p, side).0, leg_of(p, side).1, fq, fp),
    ensures
        ({
            let (q, avg) = leg_of(p, side);
            let (nq, na) = leg_of(filled_position(p, side, fq, fp), side);
            &&& nq.val() == q.val() + fq.val()
            &&& na.val() * nq.val() == q.val() * avg.val() + fq.val() * fp.val()
            &&& q.val() == 0 ==> na.val() == fp.val()
            &&& q.val() > 0 && avg.val() <= fp.val() ==> avg.val() <= na.val() <= fp.val()
            &&& q.val() > 0 && fp.val() <= avg.val() ==> fp.val() <= na.val() <= avg.val()
        }),
        leg_of(filled_position(p, side, fq, fp), if side == Side::Long { Side::Short } else { Side::Long }) == leg_of(
            p,
            if side == Side::Long { Side::Short } else { Side::Long },
        ),
{
    lemma_leg_average(leg_of(p, side).0, leg_of(p, side).1, fq, fp);
}

/// The leg's addition computes.
pub open spec fn added_leg_ok(q: Dec, avg: Dec, fq: Dec, fp: Dec) -> bool {
    &&& product_in_range(q, avg)
    &&& product_in_range(fq, fp)
    &&& sum_in_range(mul_spec(q, avg), mul_spec(fq, fp), 1)
    &&& sum_in_range(q, fq, 1)
    &&& add_spec(q, fq).val() > 0 ==> quotient_in_range(
        add_spec(mul_spec(q, avg), mul_spec(fq, fp)),
        add_spec(q, fq),
    )
}

/// The position before its profit is revalued: the side's leg takes the fill, and
/// the margin is the fill's value.
pub open spec fn filled_legs(p: MockPosition, side: Side, fq: Dec, fp: Dec) -> MockPosition {
    match side {
        Side::Long => {
            let l = added_leg(p.long_qty, p.long_avg_price, fq, fp);
            MockPosition { long_qty: l.0, long_avg_price: l.1, margin_used: mul_spec(fq, fp), ..p }
        },
        Side::Short => {
            let l = added_leg(p.short_qty, p.short_avg_price, fq, fp);
            MockPosition { short_qty: l.0, short_avg_price: l.1, margin_used: mul_spec(fq, fp), ..p }
        },
    }
}

/// The position after a fill of `fq` at `fp`, revalued at `fp`.
pub open spec fn filled_position(p: MockPosition, side: Side, fq: Dec, fp: Dec) -> MockPosition {
    let q = filled_legs(p, side, fq, fp);
    MockPosition { unrealized_pnl: legs_pnl(q, fp), ..q }
}

/// The fill computes.
pub open spec fn fill_position_ok(p: MockPosition, side: Side, fq: Dec, fp: Dec) -> bool {
    &&& match side {
        Side::Long => added_leg_ok(p.long_qty, p.long_avg_price, fq, fp),
        Side::Short => added_leg_ok(p.short_qty, p.short_avg_price, fq, fp),
    }
    &&& legs_pnl_ok(filled_legs(p, side, fq, fp), fp)
}

/// The taker commission: 0.04 % of the value.
pub open spec fn commission_spec(qty: Dec, price: Dec) -> Dec {
    mul_spec(mul_spec(qty, price), Dec::of_parts(4, 4))
}

/// An order id: "O" and the counter, six digits at least.
pub open spec fn order_id_text(n: u64) -> Seq<char> {
    "O"@ + zero_padded_digits(n as nat, 6)
}

/// A trade id: "T" and the counter.
pub open spec fn trade_id_text(n: u64) -> Seq<char> {
    "T"@ + zero_padded_digits(n as nat, 6)
}

/// The order counters still within the second that ends at `cur`: those stamped at
/// or after `cur - 1` (not below zero) and later than it.
pub open spec fn recent_counts(s: Seq<(u64, u32)>, cur: u64) -> Seq<(u64, u32)>
    decreases s.len(),
{
    let floor = if cur >= 1 { (cur - 1) as int } else { 0 };
    if s.len() == 0 {
        Seq::empty()
    } else if s.last().0 > floor {
        recent_counts(s.drop_last(), cur).push(s.last())
    } else {
        recent_counts(s.drop_last(), cur)
    }
}

proof fn lemma_recent_counts_sub(s: Seq<(u64, u32)>, cur: u64)
    ensures
        recent_counts(s, cur).len() <= s.len(),
        forall|i: int| 0 <= i < recent_counts(s, cur).len() ==> s.contains(#[trigger] recent_counts(s, cur)[i]),
    decreases s.len(),
{
    if s.len() > 0 {
        lemma_recent_counts_sub(s.drop_last(), cur);
        let r = recent_counts(s.drop_last(), cur);
        assert forall|i: int| 0 <= i < recent_counts(s, cur).len() implies s.contains(#[trigger] recent_counts(s, cur)[i]) by {
            if i < r.len() {
                assert(s.drop_last().contains(r[i]));
                let j = choose|j: int| 0 <= j < s.drop_last().len() && s.drop_last()[j] == r[i];
                assert(s[j] == r[i]);
            } else {
                assert(s[s.len() - 1] == s.last());
            }
        }
    }
}

/// The simulated exchange.
pub struct MockBinanceGateway {
    pub account: MockAccount,
    pub positions: Vec<(String, MockPosition)>,
    pub orders: Vec<(String, MockOrder)>,
    pub trades: Vec<MockTrade>,
    pub risk_config: RiskConfig,
    pub csv_writer: CsvWriter,
    pub position_manager: LocalPositionManager,
    pub account_pool: AccountPool,
    pub strategy_pool: StrategyPool,
    /// (second, orders) of the orders placed in the current second.
    pub order_count_last_second: Vec<(u64, u32)>,
    pub next_order_id: u64,
    pub next_trade_id: u64,
}

/// The value of the symbol's position at `price`: both legs, zero without a position.
pub open spec fn position_value_spec(m: Map<Seq<char>, MockPosition>, symbol: Seq<char>, price: Dec) -> Dec {
    if m.dom().contains(symbol) {
        mul_spec(add_spec(m[symbol].long_qty, m[symbol].short_qty), price)
    } else {
        zero_dec()
    }
}

/// Why the pre-trade check refuses an order of `value` at `price`, or `None`: not
/// enough available funds; the position would exceed its share of equity; the margin
/// ratio would pass 95 %; the order exceeds its share of equity.
pub open spec fn pre_risk_reason(g: MockBinanceGateway, symbol: Seq<char>, value: Dec, price: Dec) -> Option<RejectReason> {
    let a = g.account;
    let cpv = position_value_spec(g.position_map(), symbol, price);
    let max_pv = mul_spec(a.total_equity, g.risk_config.max_position_ratio);
    let margin = div_spec(add_spec(a.frozen_margin, value), a.total_equity);
    let max_order = mul_spec(a.total_equity, g.risk_config.max_order_value_ratio);
    if a.available.val() < value.val() {
        Some(RejectReason::InsufficientBalance)
    } else if add_spec(cpv, value).val() > max_pv.val() {
        Some(RejectReason::PositionLimitExceeded)
    } else if a.total_equity.val() != 0 && margin.val() > Dec::of_parts(95, 2).val() {
        Some(RejectReason::MarginInsufficient)
    } else if value.val() > max_order.val() {
        Some(RejectReason::PositionLimitExceeded)
    } else {
        None
    }
}

/// The pre-trade check computes, at each step it reaches.
pub open spec fn pre_risk_ok(g: MockBinanceGateway, symbol: Seq<char>, value: Dec, price: Dec) -> bool {
    let a = g.account;
    let m = g.position_map();
    let cpv = position_value_spec(m, symbol, price);
    a.available.val() >= value.val() ==> {
        &&& m.dom().contains(symbol) ==> sum_in_range(m[symbol].long_qty, m[symbol].short_qty, 1) && product_in_range(
            add_spec(m[symbol].long_qty, m[symbol].short_qty),
            price,
        )
        &&& product_in_range(a.total_equity, g.risk_config.max_position_ratio)
        &&& sum_in_range(cpv, value, 1)
        &&& sum_in_range(a.frozen_margin, value, 1)
        &&& a.total_equity.val() != 0 ==> quotient_in_range(add_spec(a.frozen_margin, value), a.total_equity)
        &&& product_in_range(a.total_equity, g.risk_config.max_order_value_ratio)
    }
}

/// The fill of `req` computes.
pub open spec fn fill_ok(g: MockBinanceGateway, req: OrderRequest, fp: Dec, fq: Dec) -> bool {
    let m = g.position_map();
    let k = req.symbol@;
    let base = if m.dom().contains(k) { m[k] } else { fresh_position(req.symbol) };
    &&& product_in_range(fq, fp)
    &&& product_in_range(mul_spec(fq, fp), Dec::of_parts(4, 4))
    &&& sum_in_range(g.account.available, mul_spec(fq, fp), -1)
    &&& sum_in_range(g.account.frozen_margin, mul_spec(fq, fp), 1)
    &&& fill_position_ok(base, req.side, fq, fp)
    &&& g.next_trade_id < u64::MAX
}

/// The price an order is valued and filled at: its limit price, or (without one) its
/// quantity, as the gateway does.
pub open spec fn order_price(req: OrderRequest) -> Dec {
    match req.price {
        Some(p) => p,
        None => req.qty,
    }
}

impl MockBinanceGateway {
    /// Positions and orders are keyed once each; the frequency counters hold one order
    /// each, no more than the limit.
    pub open spec fn wf(self) -> bool {
        &&& keys_unique(self.positions@)
        &&& keys_unique(self.orders@)
        &&& self.order_count_last_second@.len() <= self.risk_config.order_frequency_limit
        &&& forall|i: int| 0 <= i < self.order_count_last_second@.len() ==> (#[trigger] self.order_count_last_second@[i]).1 == 1
    }

    pub open spec fn position_map(self) -> Map<Seq<char>, MockPosition> {
        to_map(self.positions@)
    }

    pub open spec fn order_map(self) -> Map<Seq<char>, MockOrder> {
        to_map(self.orders@)
    }

    /// A gateway over an account of `initial_balance`, with the account pool's breaker
    /// at 20 % and 10 % loss, stamped `ts`.
    pub fn new_at(initial_balance: Dec, risk_config: RiskConfig, csv_writer: CsvWriter, ts: i64) -> (r: MockBinanceGateway)
        ensures
            r.wf(),
            r.account.account_id@ == "mock_account_001"@,
            r.account.total_equity == initial_balance,
            r.account.available == initial_balance,
            r.account.frozen_margin == zero_dec(),
            r.account.update_ts == ts,
            r.position_map() == Map::<Seq<char>, MockPosition>::empty(),
            r.order_map() == Map::<Seq<char>, MockOrder>::empty(),
            r.trades@.len() == 0,
            r.risk_config == risk_config,
            r.csv_writer == csv_writer,
            r.account_pool.initial_balance == initial_balance,
            r.next_order_id == 1,
            r.next_trade_id == 1,
    {
        let ct = Dec::new(20, 2);
        let pct = Dec::new(10, 2);
        proof {
            Dec::lemma_of_parts(20, 2);
            Dec::lemma_of_parts(4, 0);
            reveal_with_fuel(pow10, 30);
            assert(pow10(26) == 100000000000000000000000000);
            assert(pow10(28) == 10000000000000000000000000000);
            assert(ct.val() == 2000000000000000000000000000);
            assert(Dec::of_parts(4, 0).val() == 40000000000000000000000000000);
            assert(ct.val() * pow10(28) == 20000000000000000000000000000000000000000000000000000000);
            assert(crate::decimal::abs_int(Dec::of_parts(4, 0).val()) == 40000000000000000000000000000);
            assert(crate::decimal::value_limit() * 40000000000000000000000000000 == 4000000000000000000000000000000000000000000000000000000000000000000000000000000000000int);
            assert(crate::decimal::quotient_in_range(ct, Dec::of_parts(4, 0)));
        }
        let account_pool = AccountPool::with_config(initial_balance.copy(), ct, pct);
        MockBinanceGateway {
            account: MockAccount::new_at("mock_account_001".to_string(), initial_balance, ts),
            positions: Vec::new(),
            orders: Vec::new(),
            trades: Vec::new(),
            risk_config,
            csv_writer,
            position_manager: LocalPositionManager::new(),
            account_pool,
            strategy_pool: StrategyPool::new(),
            order_count_last_second: Vec::new(),
            next_order_id: 1,
            next_trade_id: 1,
        }
    }

    /// `new_at`, stamped now.
    pub fn new(initial_balance: Dec, risk_config: RiskConfig, csv_writer: CsvWriter) -> (r: MockBinanceGateway)
        ensures
            r.wf(),
            r.account.total_equity == initial_balance,
            r.account.available == initial_balance,
            r.position_map() == Map::<Seq<char>, MockPosition>::empty(),
            r.risk_config == risk_config,
            r.next_order_id == 1,
            r.next_trade_id == 1,
    {
        MockBinanceGateway::new_at(initial_balance, risk_config, csv_writer, crate::clock::utc_now_secs())
    }

    /// The next order id; the counter moves on.
    fn generate_order_id(&mut self) -> (r: String)
        requires
            old(self).next_order_id < u64::MAX,
        ensures
            r@ == order_id_text(old(self).next_order_id),
            final(self).next_order_id == old(self).next_order_id + 1,
            *final(self) == (MockBinanceGateway { next_order_id: final(self).next_order_id, ..*old(self) }),
    {
        let mut id = "O".to_string();
        let digits = zero_padded(self.next_order_id, 6);
        id.append(digits.as_str());
        self.next_order_id = self.next_order_id + 1;
        id
    }

    /// The next trade id; the counter moves on.
    fn generate_trade_id(&mut self) -> (r: String)
        requires
            old(self).next_trade_id < u64::MAX,
        ensures
            r@ == trade_id_text(old(self).next_trade_id),
            final(self).next_trade_id == old(self).next_trade_id + 1,
            *final(self) == (MockBinanceGateway { next_trade_id: final(self).next_trade_id, ..*old(self) }),
    {
        let mut id = "T".to_string();
        let digits = zero_padded(self.next_trade_id, 6);
        id.append(digits.as_str());
        self.next_trade_id = self.next_trade_id + 1;
        id
    }

    /// Keeps the counters of the current second and counts one more order when fewer
    /// than the limit were placed in it.
    fn check_order_frequency(&mut self, current_ts: u64) -> (r: bool)
        requires
            old(self).wf(),
        ensures
            final(self).wf(),
            ({
                let kept = recent_counts(old(self).order_count_last_second@, current_ts);
                &&& r == (kept.len() < old(self).risk_config.order_frequency_limit)
                &&& final(self).order_count_last_second@ == if r { kept.push((current_ts, 1u32)) } else { kept }
            }),
            *final(self) == (MockBinanceGateway {
                order_count_last_second: final(self).order_count_last_second,
                ..*old(self)
            }),
    {
        let ghost s = self.order_count_last_second@;
        let floor: u64 = if current_ts >= 1 { current_ts - 1 } else { 0 };
        let mut kept: Vec<(u64, u32)> = Vec::new();
        let mut count: u32 = 0;
        let mut i: usize = 0;
        proof {
            assert(s.take(0) =~= Seq::<(u64, u32)>::empty());
        }
        while i < self.order_count_last_second.len()
            invariant
                self.order_count_last_second@ == s,
                i <= s.len(),
                s.len() <= self.risk_config.order_frequency_limit,
                forall|j: int| 0 <= j < s.len() ==> (#[trigger] s[j]).1 == 1,
                floor == (if current_ts >= 1 { (current_ts - 1) as int } else { 0 }),
                kept@ == recent_counts(s.take(i as int), current_ts),
                count == kept@.len(),
                kept@.len() <= i,
            decreases s.len() - i,
        {
            proof {
                assert(s.take(i as int + 1).drop_last() =~= s.take(i as int));
                assert(s.take(i as int + 1).last() == s[i as int]);
            }
            let e = self.order_count_last_second[i];
            if e.0 > floor {
                kept.push(e);
                count = count + e.1;
            }
            i = i + 1;
        }
        proof {
            assert(s.take(i as int) =~= s);
            lemma_recent_counts_sub(s, current_ts);
        }
        if count >= self.risk_config.order_frequency_limit {
            self.order_count_last_second = kept;
            proof {
                let k = self.order_count_last_second@;
                assert forall|j: int| 0 <= j < k.len() implies (#[trigger] k[j]).1 == 1 by {
                    assert(s.contains(recent_counts(s, current_ts)[j]));
                }
            }
            return false;
        }
        kept.push((current_ts, 1));
        self.order_count_last_second = kept;
        proof {
            let k = self.order_count_last_second@;
            assert forall|j: int| 0 <= j < k.len() implies (#[trigger] k[j]).1 == 1 by {
                if j < k.len() - 1 {
                    assert(s.contains(recent_counts(s, current_ts)[j]));
                }
            }
        }
        true
    }

    /// The value of the symbol's position at `current_price`.
    fn get_position_value(&self, symbol: &str, current_price: &Dec) -> (r: Dec)
        requires
            self.wf(),
            self.position_map().dom().contains(symbol@) ==> sum_in_range(
                self.position_map()[symbol@].long_qty,
                self.position_map()[symbol@].short_qty,
                1,
            ) && product_in_range(
                add_spec(self.position_map()[symbol@].long_qty, self.position_map()[symbol@].short_qty),
                *current_price,
            ),
        ensures
            r == position_value_spec(self.position_map(), symbol@, *current_price),
    {
        match find_key(&self.positions, symbol) {
            Some(i) => {
                proof {
                    lemma_to_map_index(self.positions@, i as int);
                }
                let p = &self.positions[i].1;
                p.long_qty.add(&p.short_qty).mul(current_price)
            },
            None => {
                proof {
                    lemma_to_map_dom(self.positions@, symbol@);
                }
                zero()
            },
        }
    }

    /// The pre-trade risk check.
    fn pre_risk_check(&self, req: &OrderRequest, order_value: &Dec, current_price: &Dec) -> (r: Option<RejectReason>)
        requires
            self.wf(),
            pre_risk_ok(*self, req.symbol@, *order_value, *current_price),
        ensures
            r == pre_risk_reason(*self, req.symbol@, *order_value, *current_price),
    {
        if self.account.available.lt(order_value) {
            return Some(RejectReason::InsufficientBalance);
        }
        let current_position_value = self.get_position_value(req.symbol.as_str(), current_price);
        let max_position_value = self.account.total_equity.mul(&self.risk_config.max_position_ratio);
        if current_position_value.add(order_value).gt(&max_position_value) {
            return Some(RejectReason::PositionLimitExceeded);
        }
        let new_frozen_margin = self.account.frozen_margin.add(order_value);
        if !self.account.total_equity.is_zero() {
            let new_margin_ratio = new_frozen_margin.div(&self.account.total_equity);
            let limit = Dec::new(95, 2);
            proof {
                Dec::lemma_of_parts(95, 2);
                Dec::lemma_parts_eq(limit, Dec::of_parts(95, 2));
            }
            if new_margin_ratio.gt(&limit) {
                return Some(RejectReason::MarginInsufficient);
            }
        }
        let max_order_value = self.account.total_equity.mul(&self.risk_config.max_order_value_ratio);
        if order_value.gt(&max_order_value) {
            return Some(RejectReason::PositionLimitExceeded);
        }
        None
    }

    /// Records `order` under its id.
    fn put_order(&mut self, order: MockOrder)
        requires
            old(self).wf(),
        ensures
            final(self).wf(),
            final(self).order_map() == old(self).order_map().insert(order.order_id@, order),
            *final(self) == (MockBinanceGateway { orders: final(self).orders, ..*old(self) }),
    {
        let ghost s = self.orders@;
        let key = order.order_id.clone();
        match find_key(&self.orders, key.as_str()) {
            Some(i) => {
                let e = (key, order);
                proof {
                    lemma_to_map_update(s, i as int, e);
                }
                self.orders.set(i, e);
            },
            None => {
                let e = (key, order);
                proof {
                    lemma_to_map_push(s, e);
                }
                self.orders.push(e);
            },
        }
    }

    /// Refuses an order: it is recorded as rejected at `ts`.
    fn reject_order(&mut self, order_id: String, req: OrderRequest, reason: RejectReason, message: String, ts: i64) -> (r: OrderResult)
        requires
            old(self).wf(),
        ensures
            final(self).wf(),
            r.order_id == order_id,
            r.status == OrderStatus::Rejected,
            r.filled_qty == zero_dec(),
            r.filled_price == zero_dec(),
            r.commission == zero_dec(),
            r.reject_reason == Some(reason),
            r.message == message,
            final(self).order_map().dom() == old(self).order_map().dom().insert(order_id@),
            final(self).order_map()[order_id@].status == OrderStatus::Rejected,
            final(self).order_map()[order_id@].reject_reason == Some(reason),
            final(self).order_map()[order_id@].created_ts == ts,
            *final(self) == (MockBinanceGateway { orders: final(self).orders, ..*old(self) }),
    {
        let price = match &req.price {
            Some(p) => p.copy(),
            None => zero(),
        };
        let order = MockOrder {
            order_id: order_id.clone(),
            symbol: req.symbol,
            side: req.side,
            qty: req.qty,
            price,
            order_type: req.order_type,
            status: OrderStatus::Rejected,
            filled_qty: zero(),
            filled_price: zero(),
            created_ts: ts,
            filled_ts: None,
            reject_reason: Some(reason),
        };
        self.put_order(order);
        OrderResult {
            order_id,
            status: OrderStatus::Rejected,
            filled_qty: zero(),
            filled_price: zero(),
            commission: zero(),
            reject_reason: Some(reason),
            message,
        }
    }

    /// Fills `filled_qty` of `req` at `filled_price` at `ts`: the value moves from
    /// available funds to frozen margin, the position takes the fill and is revalued,
    /// and the trade and the filled order are recorded.
    fn execute_fill(&mut self, order_id: &str, req: &OrderRequest, filled_price: Dec, filled_qty: Dec, ts: i64) -> (r: OrderResult)
        requires
            old(self).wf(),
            fill_ok(*old(self), *req, filled_price, filled_qty),
        ensures
            final(self).wf(),
            ({
                let o = *old(self);
                let m = o.position_map();
                let k = req.symbol@;
                let base = if m.dom().contains(k) { m[k] } else { fresh_position(req.symbol) };
                let value = mul_spec(filled_qty, filled_price);
                &&& final(self).account == (MockAccount {
                    available: sub_spec(o.account.available, value),
                    frozen_margin: add_spec(o.account.frozen_margin, value),
                    update_ts: ts,
                    ..o.account
                })
                &&& final(self).position_map() == m.insert(k, filled_position(base, req.side, filled_qty, filled_price))
                &&& final(self).trades@.len() == o.trades@.len() + 1
                &&& final(self).trades@.drop_last() == o.trades@
                &&& final(self).trades@.last().trade_id@ == trade_id_text(o.next_trade_id)
                &&& final(self).trades@.last().order_id@ == order_id@
                &&& final(self).trades@.last().symbol == req.symbol
                &&& final(self).trades@.last().side == req.side
                &&& final(self).trades@.last().qty == filled_qty
                &&& final(self).trades@.last().price == filled_price
                &&& final(self).trades@.last().commission == commission_spec(filled_qty, filled_price)
                &&& final(self).trades@.last().realized_pnl == zero_dec()
                &&& final(self).trades@.last().ts == ts
                &&& final(self).next_trade_id == o.next_trade_id + 1
                &&& final(self).next_order_id == o.next_order_id
                &&& final(self).order_map().dom() == o.order_map().dom().insert(order_id@)
                &&& final(self).order_map()[order_id@].status == OrderStatus::Filled
                &&& final(self).order_map()[order_id@].filled_qty == filled_qty
                &&& final(self).order_map()[order_id@].filled_price == filled_price
                &&& final(self).order_map()[order_id@].qty == req.qty
                &&& final(self).order_map()[order_id@].filled_ts == Some(ts)
                &&& final(self).risk_config == o.risk_config
                &&& final(self).order_count_last_second == o.order_count_last_second
            }),
            r.order_id@ == order_id@,
            r.status == OrderStatus::Filled,
            r.filled_qty == filled_qty,
            r.filled_price == filled_price,
            r.commission == commission_spec(filled_qty, filled_price),
            r.reject_reason is None,
            r.message@ == "成交成功"@,
    {
        let rate = Dec::new(4, 4);
        proof {
            Dec::lemma_of_parts(4, 4);
            Dec::lemma_parts_eq(rate, Dec::of_parts(4, 4));
        }
        let commission = filled_qty.mul(&filled_price).mul(&rate);
        let order_value = filled_qty.mul(&filled_price);
        self.account.available = self.account.available.sub(&order_value);
        self.account.frozen_margin = self.account.frozen_margin.add(&order_value);
        self.account.update_ts = ts;
        let ghost s = self.positions@;
        let found = find_key(&self.positions, req.symbol.as_str());
        let base = match found {
            Some(i) => {
                proof {
                    lemma_to_map_index(s, i as int);
                }
                self.positions[i].1.clone_position()
            },
            None => {
                proof {
                    lemma_to_map_dom(s, req.symbol@);
                }
                MockPosition::new(req.symbol.clone())
            },
        };
        let mut position = base;
        match req.side {
            Side::Long => {
                let total_cost = position.long_qty.mul(&position.long_avg_price).add(&filled_qty.mul(&filled_price));
                let total_qty = position.long_qty.add(&filled_qty);
                position.long_avg_price = if total_qty.gt(&Dec::zero()) {
                    total_cost.div(&total_qty)
                } else {
                    zero()
                };
                position.long_qty = total_qty;
            },
            Side::Short => {
                let total_cost = position.short_qty.mul(&position.short_avg_price).add(&filled_qty.mul(&filled_price));
                let total_qty = position.short_qty.add(&filled_qty);
                position.short_avg_price = if total_qty.gt(&Dec::zero()) {
                    total_cost.div(&total_qty)
                } else {
                    zero()
                };
                position.short_qty = total_qty;
            },
        }
        position.margin_used = order_value.copy();
        position.calc_unrealized_pnl(filled_price.copy());
        let key = req.symbol.clone();
        let e = (key, position);
        match found {
            Some(i) => {
                proof {
                    lemma_to_map_update(s, i as int, e);
                }
                self.positions.set(i, e);
            },
            None => {
                proof {
                    lemma_to_map_push(s, e);
                }
                self.positions.push(e);
            },
        }
        let trade_id = self.generate_trade_id();
        let trade = MockTrade {
            trade_id,
            order_id: order_id.to_string(),
            symbol: req.symbol.clone(),
            side: req.side,
            qty: filled_qty.copy(),
            price: filled_price.copy(),
            commission: commission.copy(),
            realized_pnl: zero(),
            ts,
        };
        let ghost before_trades = self.trades@;
        self.trades.push(trade);
        proof {
            assert(self.trades@.drop_last() =~= before_trades);
        }
        let order = MockOrder {
            order_id: order_id.to_string(),
            symbol: req.symbol.clone(),
            side: req.side,
            qty: req.qty.copy(),
            price: filled_price.copy(),
            order_type: req.order_type,
            status: OrderStatus::Filled,
            filled_qty: filled_qty.copy(),
            filled_price: filled_price.copy(),
            created_ts: ts,
            filled_ts: Some(ts),
            reject_reason: None,
        };
        self.put_order(order);
        OrderResult {
            order_id: order_id.to_string(),
            status: OrderStatus::Filled,
            filled_qty,
            filled_price,
            commission,
            reject_reason: None,
            message: "成交成功".to_string(),
        }
    }
}

/// What placing an order needs, on each path it takes.
pub open spec fn place_order_ok(g: MockBinanceGateway, req: OrderRequest, now: i64) -> bool {
    let kept = recent_counts(g.order_count_last_second@, now as u64);
    let price = order_price(req);
    let value = mul_spec(req.qty, price);
    &&& now >= 0
    &&& g.next_order_id < u64::MAX
    &&& kept.len() < g.risk_config.order_frequency_limit ==> {
        &&& product_in_range(req.qty, price)
        &&& pre_risk_ok(g, req.symbol@, value, price)
        &&& pre_risk_reason(g, req.symbol@, value, price) is None ==> fill_ok(g, req, price, req.qty)
    }
}

/// A position emptied by liquidation.
pub open spec fn emptied(p: MockPosition) -> MockPosition {
    MockPosition {
        long_qty: zero_dec(),
        short_qty: zero_dec(),
        long_avg_price: zero_dec(),
        short_avg_price: zero_dec(),
        unrealized_pnl: zero_dec(),
        margin_used: zero_dec(),
        ..p
    }
}

/// The symbol holds a position with a positive total quantity.
pub open spec fn has_open_qty(g: MockBinanceGateway, symbol: Seq<char>) -> bool {
    let m = g.position_map();
    m.dom().contains(symbol) && add_spec(m[symbol].long_qty, m[symbol].short_qty).val() > 0
}

/// What liquidation needs to compute.
pub open spec fn liquidation_ok(g: MockBinanceGateway, symbol: Seq<char>, price: Dec) -> bool {
    let m = g.position_map();
    let p = m[symbol];
    let total = add_spec(p.long_qty, p.short_qty);
    &&& g.next_order_id < u64::MAX
    &&& g.next_trade_id < u64::MAX
    &&& m.dom().contains(symbol) ==> sum_in_range(p.long_qty, p.short_qty, 1)
    &&& has_open_qty(g, symbol) ==> {
        &&& legs_pnl_ok(p, price)
        &&& sum_in_range(g.account.available, p.margin_used, 1)
        &&& sum_in_range(g.account.frozen_margin, p.margin_used, -1)
        &&& sum_in_range(g.account.unrealized_pnl, legs_pnl(p, price), 1)
        &&& product_in_range(total, price)
        &&& product_in_range(mul_spec(total, price), Dec::of_parts(4, 4))
    }
}

/// The gateway after liquidating `symbol` at `price` at `now`, with result `r`.
pub open spec fn liquidated(o: MockBinanceGateway, f: MockBinanceGateway, symbol: Seq<char>, price: Dec, now: i64, r: OrderResult) -> bool {
    let m = o.position_map();
    let p = m[symbol];
    let total = add_spec(p.long_qty, p.short_qty);
    let realized = legs_pnl(p, price);
    if has_open_qty(o, symbol) {
        &&& f.account == (MockAccount {
            available: add_spec(o.account.available, p.margin_used),
            frozen_margin: sub_spec(o.account.frozen_margin, p.margin_used),
            unrealized_pnl: add_spec(o.account.unrealized_pnl, realized),
            ..o.account
        })
        &&& f.position_map() == m.insert(symbol, emptied(p))
        &&& f.trades@.drop_last() == o.trades@
        &&& f.trades@.len() == o.trades@.len() + 1
        &&& f.trades@.last().trade_id@ == trade_id_text(o.next_trade_id)
        &&& f.trades@.last().order_id@ == order_id_text(o.next_order_id)
        &&& f.trades@.last().symbol@ == symbol
        &&& f.trades@.last().side == (if p.long_qty.val() > 0 { Side::Short } else { Side::Long })
        &&& f.trades@.last().qty == total
        &&& f.trades@.last().price == price
        &&& f.trades@.last().commission == commission_spec(total, price)
        &&& f.trades@.last().realized_pnl == realized
        &&& f.trades@.last().ts == now
        &&& f.next_trade_id == o.next_trade_id + 1
        &&& f.next_order_id == o.next_order_id + 1
        &&& r.order_id@ == order_id_text(o.next_order_id)
        &&& r.status == OrderStatus::Filled
        &&& r.filled_qty == total
        &&& r.filled_price == price
        &&& r.commission == commission_spec(total, price)
        &&& r.reject_reason is None
        &&& r.message@ == "强制平仓完成 盈亏:"@ + rd_text(realized.mant(), realized.scl())
    } else {
        &&& f.account == o.account
        &&& f.position_map() == m
        &&& f.trades == o.trades
        &&& f.next_trade_id == o.next_trade_id
        &&& f.next_order_id == o.next_order_id + 1
        &&& r.order_id@ == order_id_text(o.next_order_id)
        &&& r.status == OrderStatus::Cancelled
        &&& r.filled_qty == zero_dec()
        &&& r.filled_price == zero_dec()
        &&& r.commission == zero_dec()
        &&& r.reject_reason is None
        &&& r.message@ == "无持仓需要平"@
    }
}

/// Liquidation is due: the position's value at `price` is not zero and the equity
/// with its unrealized profit is below the maintenance margin.
pub open spec fn liquidation_due(g: MockBinanceGateway, symbol: Seq<char>, price: Dec) -> bool {
    let m = g.position_map();
    let p = m[symbol];
    let pv = mul_spec(add_spec(p.long_qty, p.short_qty), price);
    &&& m.dom().contains(symbol)
    &&& pv.val() != 0
    &&& add_spec(g.account.total_equity, p.unrealized_pnl).val() < mul_spec(pv, g.risk_config.maintenance_margin_rate).val()
}

/// What the liquidation check needs to compute.
pub open spec fn check_liquidation_ok(g: MockBinanceGateway, symbol: Seq<char>, price: Dec) -> bool {
    let m = g.position_map();
    let p = m[symbol];
    let pv = mul_spec(add_spec(p.long_qty, p.short_qty), price);
    &&& m.dom().contains(symbol) ==> {
        &&& sum_in_range(p.long_qty, p.short_qty, 1)
        &&& product_in_range(add_spec(p.long_qty, p.short_qty), price)
        &&& pv.val() != 0 ==> product_in_range(pv, g.risk_config.maintenance_margin_rate) && sum_in_range(
            g.account.total_equity,
            p.unrealized_pnl,
            1,
        )
    }
    &&& liquidation_due(g, symbol, price) ==> liquidation_ok(g, symbol, price)
}

/// The positions with the symbol's revalued at `price`.
pub open spec fn revalued(s: Seq<(String, MockPosition)>, symbol: Seq<char>, price: Dec) -> Seq<(String, MockPosition)> {
    s.map_values(
        |e: (String, MockPosition)|
            if e.0@ == symbol {
                (e.0, MockPosition { unrealized_pnl: legs_pnl(e.1, price), ..e.1 })
            } else {
                e
            },
    )
}

/// Every partial sum of the positions' profits stays in range.
pub open spec fn positions_pnl_ok(s: Seq<(String, MockPosition)>) -> bool {
    forall|k: int| 0 <= k < s.len() ==> sum_in_range(#[trigger] positions_pnl(s.take(k)), s[k].1.unrealized_pnl, 1)
}

/// The sum of the positions' unrealized profits, in order.
pub open spec fn positions_pnl(s: Seq<(String, MockPosition)>) -> Dec
    decreases s.len(),
{
    if s.len() == 0 {
        zero_dec()
    } else {
        add_spec(positions_pnl(s.drop_last()), s.last().1.unrealized_pnl)
    }
}

/// What placing `req` at `now` does, from the gateway `o` to `f` with the result
/// `res`: refused when the second's order limit is reached, or by the pre-trade check,
/// with nothing filled, no commission and the account, positions and trades as they
/// were; otherwise filled at once at its price, with one trade recorded.
pub open spec fn order_placed(o: MockBinanceGateway, f: MockBinanceGateway, req: OrderRequest, now: i64, res: OrderResult) -> bool {
    let kept = recent_counts(o.order_count_last_second@, now as u64);
    let price = order_price(req);
    let value = mul_spec(req.qty, price);
    let refused = {
        &&& res.status == OrderStatus::Rejected
        &&& res.filled_qty == zero_dec()
        &&& res.filled_price == zero_dec()
        &&& res.commission == zero_dec()
        &&& f.account == o.account
        &&& f.position_map() == o.position_map()
        &&& f.trades == o.trades
        &&& f.next_trade_id == o.next_trade_id
    };
    &&& res.order_id@ == order_id_text(o.next_order_id)
    &&& f.next_order_id == o.next_order_id + 1
    &&& kept.len() >= o.risk_config.order_frequency_limit ==> {
        &&& refused
        &&& res.reject_reason == Some(RejectReason::OrderFrequencyExceeded)
        &&& res.message@ == "订单频率超过限制"@
    }
    &&& kept.len() < o.risk_config.order_frequency_limit ==> match pre_risk_reason(o, req.symbol@, value, price) {
        Some(reason) => {
            &&& refused
            &&& res.reject_reason == Some(reason)
            &&& res.message@ == "风控拒绝: "@ + reject_reason_text(reason)
        },
        None => {
            let m = o.position_map();
            let k = req.symbol@;
            let base = if m.dom().contains(k) { m[k] } else { fresh_position(req.symbol) };
            &&& res.status == OrderStatus::Filled
            &&& res.filled_qty == req.qty
            &&& res.filled_price == price
            &&& res.commission == commission_spec(req.qty, price)
            &&& res.reject_reason is None
            &&& f.account == (MockAccount {
                available: sub_spec(o.account.available, value),
                frozen_margin: add_spec(o.account.frozen_margin, value),
                update_ts: now,
                ..o.account
            })
            &&& f.position_map() == m.insert(k, filled_position(base, req.side, req.qty, price))
            &&& f.trades@.len() == o.trades@.len() + 1
            &&& f.trades@.drop_last() == o.trades@
            &&& f.trades@.last().order_id@ == res.order_id@
            &&& f.trades@.last().qty == req.qty
            &&& f.trades@.last().price == price
            &&& f.trades@.last().commission == res.commission
        },
    }
}

impl MockBinanceGateway {
    /// Places an order at time `now`: refused when the second's order limit is
    /// reached, or by the pre-trade check; otherwise filled at once at its price.
    pub fn place_order_at(&mut self, req: OrderRequest, now: i64) -> (r: Result<OrderResult, EngineError>)
        requires
            old(self).wf(),
            place_order_ok(*old(self), req, now),
        ensures
            final(self).wf(),
            r is Ok,
            order_placed(*old(self), *final(self), req, now, r->Ok_0),
    {
        let order_id = self.generate_order_id();
        if !self.check_order_frequency(now as u64) {
            let res = self.reject_order(
                order_id.clone(),
                req,
                RejectReason::OrderFrequencyExceeded,
                "订单频率超过限制".to_string(),
                now,
            );
            return Ok(res);
        }
        let current_price = match &req.price {
            Some(p) => p.copy(),
            None => req.qty.copy(),
        };
        let order_value = req.qty.mul(&current_price);
        match self.pre_risk_check(&req, &order_value, &current_price) {
            Some(reason) => {
                let reason_str = reason.to_string();
                let mut message = "风控拒绝: ".to_string();
                message.append(reason_str.as_str());
                let res = self.reject_order(order_id, req, reason, message, now);
                return Ok(res);
            },
            None => {},
        }
        let filled_price = match req.order_type {
            OrderType::Market => current_price.copy(),
            OrderType::Limit => match &req.price {
                Some(p) => p.copy(),
                None => current_price.copy(),
            },
        };
        let filled_qty = req.qty.copy();
        let res = self.execute_fill(order_id.as_str(), &req, filled_price, filled_qty, now);
        Ok(res)
    }

    /// Places an order now.
    pub fn place_order(&mut self, req: OrderRequest) -> (r: Result<OrderResult, EngineError>)
        requires
            old(self).wf(),
            forall|now: i64| now >= 0 ==> place_order_ok(*old(self), req, now),
        ensures
            final(self).wf(),
            r is Ok,
            exists|now: i64| now >= 0 && #[trigger] order_placed(*old(self), *final(self), req, now, r->Ok_0),
    {
        let t = crate::clock::utc_now_secs();
        let now: i64 = if t < 0 { 0 } else { t };
        self.place_order_at(req, now)
    }

    /// Liquidates the symbol's position at `current_price` at `now`: the margin goes
    /// back to available funds, the profit of both legs is booked, a closing trade is
    /// recorded and the position is emptied.  Without a position to close, the order
    /// is cancelled.
    fn force_liquidation_at(&mut self, symbol: &str, current_price: Dec, now: i64) -> (r: OrderResult)
        requires
            old(self).wf(),
            liquidation_ok(*old(self), symbol@, current_price),
        ensures
            final(self).wf(),
            liquidated(*old(self), *final(self), symbol@, current_price, now, r),
            final(self).risk_config == old(self).risk_config,
    {
        let ghost o = *self;
        match find_key(&self.positions, symbol) {
            Some(i) => {
                proof {
                    lemma_to_map_index(self.positions@, i as int);
                }
                let total_qty = self.positions[i].1.long_qty.add(&self.positions[i].1.short_qty);
                if total_qty.gt(&Dec::zero()) {
                    let p = self.positions[i].1.clone_position();
                    let realized_pnl = legs_profit(&p, &current_price);
                    self.account.available = self.account.available.add(&p.margin_used);
                    self.account.frozen_margin = self.account.frozen_margin.sub(&p.margin_used);
                    self.account.unrealized_pnl = self.account.unrealized_pnl.add(&realized_pnl);
                    let trade_id = self.generate_trade_id();
                    let order_id = self.generate_order_id();
                    let rate = Dec::new(4, 4);
                    proof {
                        Dec::lemma_of_parts(4, 4);
                        Dec::lemma_parts_eq(rate, Dec::of_parts(4, 4));
                    }
                    let commission = total_qty.mul(&current_price).mul(&rate);
                    let side = if p.long_qty.gt(&Dec::zero()) { Side::Short } else { Side::Long };
                    let trade = MockTrade {
                        trade_id,
                        order_id: order_id.clone(),
                        symbol: symbol.to_string(),
                        side,
                        qty: total_qty.copy(),
                        price: current_price.copy(),
                        commission: commission.copy(),
                        realized_pnl: realized_pnl.copy(),
                        ts: now,
                    };
                    let ghost before = self.trades@;
                    self.trades.push(trade);
                    proof {
                        assert(self.trades@.drop_last() =~= before);
                    }
                    let emptied_position = MockPosition {
                        symbol: p.symbol.clone(),
                        long_qty: zero(),
                        long_avg_price: zero(),
                        short_qty: zero(),
                        short_avg_price: zero(),
                        unrealized_pnl: zero(),
                        margin_used: zero(),
                    };
                    let key = self.positions[i].0.clone();
                    let e = (key, emptied_position);
                    proof {
                        lemma_to_map_update(self.positions@, i as int, e);
                    }
                    self.positions.set(i, e);
                    let message = with_amount("强制平仓完成 盈亏:", &realized_pnl);
                    return OrderResult {
                        order_id,
                        status: OrderStatus::Filled,
                        filled_qty: total_qty,
                        filled_price: current_price,
                        commission,
                        reject_reason: None,
                        message,
                    };
                }
            },
            None => {
                proof {
                    lemma_to_map_dom(self.positions@, symbol@);
                }
            },
        }
        let order_id = self.generate_order_id();
        OrderResult {
            order_id,
            status: OrderStatus::Cancelled,
            filled_qty: zero(),
            filled_price: zero(),
            commission: zero(),
            reject_reason: None,
            message: "无持仓需要平".to_string(),
        }
    }

    /// Liquidates the symbol's position when the equity, with the position's
    /// unrealized profit, falls below the maintenance margin of its value at
    /// `current_price`.
    pub fn check_liquidation_at(&mut self, symbol: &str, current_price: Dec, now: i64) -> (r: Option<OrderResult>)
        requires
            old(self).wf(),
            check_liquidation_ok(*old(self), symbol@, current_price),
        ensures
            final(self).wf(),
            (r is Some) == liquidation_due(*old(self), symbol@, current_price),
            r is Some ==> liquidated(*old(self), *final(self), symbol@, current_price, now, r.unwrap()),
            r is None ==> *final(self) == *old(self),
    {
        match find_key(&self.positions, symbol) {
            Some(i) => {
                proof {
                    lemma_to_map_index(self.positions@, i as int);
                }
                let p = &self.positions[i].1;
                let position_value = p.long_qty.add(&p.short_qty).mul(&current_price);
                if !position_value.is_zero() {
                    let maintenance_margin = position_value.mul(&self.risk_config.maintenance_margin_rate);
                    let equity = self.account.total_equity.add(&p.unrealized_pnl);
                    if equity.lt(&maintenance_margin) {
                        return Some(self.force_liquidation_at(symbol, current_price, now));
                    }
                }
                None
            },
            None => {
                proof {
                    lemma_to_map_dom(self.positions@, symbol@);
                }
                None
            },
        }
    }

    /// `check_liquidation_at`, stamped now.
    pub fn check_liquidation(&mut self, symbol: &str, current_price: Dec) -> (r: Option<OrderResult>)
        requires
            old(self).wf(),
            check_liquidation_ok(*old(self), symbol@, current_price),
        ensures
            final(self).wf(),
            (r is Some) == liquidation_due(*old(self), symbol@, current_price),
            r is Some ==> exists|now: i64| #[trigger] liquidated(*old(self), *final(self), symbol@, current_price, now, r.unwrap()),
            r is None ==> *final(self) == *old(self),
    {
        self.check_liquidation_at(symbol, current_price, crate::clock::utc_now_secs())
    }

    /// Revalues the symbol's position at `current_price` and sets the account's
    /// unrealized profit to the sum over all positions; nothing without a position.
    pub fn update_position_pnl(&mut self, symbol: &str, current_price: Dec)
        requires
            old(self).wf(),
            old(self).position_map().dom().contains(symbol@) ==> legs_pnl_ok(
                old(self).position_map()[symbol@],
                current_price,
            ),
            positions_pnl_ok(revalued(old(self).positions@, symbol@, current_price)),
        ensures
            final(self).wf(),
            !old(self).position_map().dom().contains(symbol@) ==> *final(self) == *old(self),
            old(self).position_map().dom().contains(symbol@) ==> {
                &&& final(self).position_map() == old(self).position_map().insert(
                    symbol@,
                    MockPosition {
                        unrealized_pnl: legs_pnl(old(self).position_map()[symbol@], current_price),
                        ..old(self).position_map()[symbol@]
                    },
                )
                &&& final(self).account == (MockAccount {
                    unrealized_pnl: positions_pnl(revalued(old(self).positions@, symbol@, current_price)),
                    ..old(self).account
                })
            },
    {
        match find_key(&self.positions, symbol) {
            Some(i) => {
                proof {
                    lemma_to_map_index(self.positions@, i as int);
                }
                let mut p = self.positions[i].1.clone_position();
                p.calc_unrealized_pnl(current_price);
                let key = self.positions[i].0.clone();
                let e = (key, p);
                proof {
                    lemma_to_map_update(self.positions@, i as int, e);
                }
                let ghost s0 = self.positions@;
                self.positions.set(i, e);
                let ghost s = self.positions@;
                proof {
                    assert(s =~= revalued(s0, symbol@, current_price)) by {
                        assert forall|k: int| 0 <= k < s.len() implies s[k] == revalued(s0, symbol@, current_price)[k] by {
                            if k != i {
                                if k < i {
                                    assert(s0[k].0@ != s0[i as int].0@);
                                } else {
                                    assert(s0[i as int].0@ != s0[k].0@);
                                }
                            }
                        }
                    }
                }
                let mut total = zero();
                let mut j: usize = 0;
                proof {
                    assert(s.take(0) =~= Seq::<(String, MockPosition)>::empty());
                }
                while j < self.positions.len()
                    invariant
                        self.positions@ == s,
                        j <= s.len(),
                        total == positions_pnl(s.take(j as int)),
                        forall|k: int| 0 <= k < s.len() ==> sum_in_range(#[trigger] positions_pnl(s.take(k)), s[k].1.unrealized_pnl, 1),
                    decreases s.len() - j,
                {
                    proof {
                        assert(s.take(j as int + 1).drop_last() =~= s.take(j as int));
                        assert(s.take(j as int + 1).last() == s[j as int]);
                    }
                    total = total.add(&self.positions[j].1.unrealized_pnl);
                    j = j + 1;
                }
                proof {
                    assert(s.take(j as int) =~= s);
                }
                self.account.unrealized_pnl = total;
            },
            None => {
                proof {
                    lemma_to_map_dom(self.positions@, symbol@);
                }
            },
        }
    }

    /// The account.
    pub fn get_account(&self) -> (r: MockAccount)
        ensures
            r == self.account,
    {
        MockAccount {
            account_id: self.account.account_id.clone(),
            total_equity: self.account.total_equity.copy(),
            available: self.account.available.copy(),
            frozen_margin: self.account.frozen_margin.copy(),
            unrealized_pnl: self.account.unrealized_pnl.copy(),
            update_ts: self.account.update_ts,
        }
    }

    /// The symbol's position.
    pub fn get_position(&self, symbol: &str) -> (r: Option<MockPosition>)
        requires
            self.wf(),
        ensures
            r is Some <==> self.position_map().dom().contains(symbol@),
            r is Some ==> r.unwrap() == self.position_map()[symbol@],
    {
        match find_key(&self.positions, symbol) {
            Some(i) => {
                proof {
                    lemma_to_map_index(self.positions@, i as int);
                }
                Some(self.positions[i].1.clone_position())
            },
            None => {
                proof {
                    lemma_to_map_dom(self.positions@, symbol@);
                }
                None
            },
        }
    }

    /// All positions, keyed by symbol.
    pub fn get_all_positions(&self) -> (r: &Vec<(String, MockPosition)>)
        ensures
            to_map(r@) == self.position_map(),
    {
        &self.positions
    }

    /// An order.
    pub fn get_order(&self, order_id: &str) -> (r: Option<&MockOrder>)
        requires
            self.wf(),
        ensures
            r is Some <==> self.order_map().dom().contains(order_id@),
            r is Some ==> *r.unwrap() == self.order_map()[order_id@],
    {
        match find_key(&self.orders, order_id) {
            Some(i) => {
                proof {
                    lemma_to_map_index(self.orders@, i as int);
                }
                Some(&self.orders[i].1)
            },
            None => {
                proof {
                    lemma_to_map_dom(self.orders@, order_id@);
                }
                None
            },
        }
    }

    /// All trades, in order.
    pub fn get_trades(&self) -> (r: &Vec<MockTrade>)
        ensures
            r@ == self.trades@,
    {
        &self.trades
    }

    /// A snapshot of the account.
    pub fn get_account_snapshot(&self) -> (r: AccountSnapshot)
        requires
            self.account.total_equity.val() != 0 ==> quotient_in_range(
                self.account.frozen_margin,
                self.account.total_equity,
            ),
        ensures
            r.ts == self.account.update_ts,
            r.total_equity == self.account.total_equity,
            r.available == self.account.available,
            r.frozen_margin == self.account.frozen_margin,
            r.unrealized_pnl == self.account.unrealized_pnl,
            r.margin_ratio == margin_ratio_spec(self.account),
    {
        AccountSnapshot {
            ts: self.account.update_ts,
            total_equity: self.account.total_equity.copy(),
            available: self.account.available.copy(),
            frozen_margin: self.account.frozen_margin.copy(),
            unrealized_pnl: self.account.unrealized_pnl.copy(),
            margin_ratio: self.account.margin_ratio(),
        }
    }
}

impl MockPosition {
    /// A copy.
    pub fn clone_position(&self) -> (r: MockPosition)
        ensures
            r == *self,
    {
        MockPosition {
            symbol: self.symbol.clone(),
            long_qty: self.long_qty.copy(),
            long_avg_price: self.long_avg_price.copy(),
            short_qty: self.short_qty.copy(),
            short_avg_price: self.short_avg_price.copy(),
            unrealized_pnl: self.unrealized_pnl.copy(),
            margin_used: self.margin_used.copy(),
        }
    }
}

/// Each counter value gives its own order id and its own trade id, so ids handed out
/// from a counter that only grows never repeat.
pub proof fn lemma_ids_distinct(n: u64, m: u64)
    requires
        n != m,
    ensures
        order_id_text(n) != order_id_text(m),
        trade_id_text(n) != trade_id_text(m),
{
    reveal_strlit("O");
    reveal_strlit("T");
    crate::text::lemma_padded_value(n as nat, 6);
    crate::text::lemma_padded_value(m as nat, 6);
    let a = zero_padded_digits(n as nat, 6);
    let b = zero_padded_digits(m as nat, 6);
    if order_id_text(n) == order_id_text(m) {
        assert(order_id_text(n).subrange(1, order_id_text(n).len() as int) =~= a);
        assert(order_id_text(m).subrange(1, order_id_text(m).len() as int) =~= b);
    }
    if trade_id_text(n) == trade_id_text(m) {
        assert(trade_id_text(n).subrange(1, trade_id_text(n).len() as int) =~= a);
        assert(trade_id_text(m).subrange(1, trade_id_text(m).len() as int) =~= b);
    }
}

} // verus!
