//! One form that carries a tick's results through every layer of the pipeline: each
//! layer fills its part and hands the form on.
use vstd::prelude::*;
use crate::decimal::Dec;
use crate::engine::check_table::PineColor;
use crate::engine::mock_binance_gateway::{zero, zero_dec};
use crate::engine::strategy_types::Signal;

verus! {

/// The form.
#[derive(Debug, Clone)]
pub struct PipelineForm {
    pub symbol: String,
    pub strategy_id: String,
    pub period: String,
    /// Seconds.
    pub timestamp: i64,
    pub round_id: u64,
    // Price layer.
    pub tick_price: Dec,
    pub tick_volume: Dec,
    pub open_price: Dec,
    pub close_price: Dec,
    pub high_price: Dec,
    pub low_price: Dec,
    // Indicator layer.
    pub ema_fast: Dec,
    pub ema_slow: Dec,
    pub ema_signal: Signal,
    pub rsi_value: Dec,
    pub pine_color: PineColor,
    /// 0 to 100.
    pub price_position: Dec,
    // Strategy layer.
    pub final_signal: Signal,
    /// 0 to 100.
    pub confidence: u8,
    pub conditions_met: u8,
    pub conditions_total: u8,
    // Order.
    pub target_price: Dec,
    pub quantity: Dec,
    // Risk.
    pub risk_flag: bool,
    pub reject_reason: Option<String>,
    pub is_high_freq: bool,
}

/// Signals that open or hedge a position.
pub open spec fn is_trade_signal(s: Signal) -> bool {
    match s {
        Signal::LongEntry | Signal::ShortEntry | Signal::LongHedge | Signal::ShortHedge => true,
        _ => false,
    }
}

/// Signals that close a position.
pub open spec fn is_exit_signal(s: Signal) -> bool {
    match s {
        Signal::LongExit | Signal::ShortExit | Signal::ExitHighVol => true,
        _ => false,
    }
}

/// A blank form for `symbol`, `strategy_id` and `period`, stamped `timestamp`: every
/// number zero, both signals `LongEntry`, colour purple, no risk flag, slow channel.
pub open spec fn blank_form(form: PipelineForm, symbol: String, strategy_id: String, period: String, timestamp: i64) -> bool {
    &&& form.symbol == symbol
    &&& form.strategy_id == strategy_id
    &&& form.period == period
    &&& form.timestamp == timestamp
    &&& form.round_id == 0
    &&& form.tick_price == zero_dec()
    &&& form.tick_volume == zero_dec()
    &&& form.open_price == zero_dec()
    &&& form.close_price == zero_dec()
    &&& form.high_price == zero_dec()
    &&& form.low_price == zero_dec()
    &&& form.ema_fast == zero_dec()
    &&& form.ema_slow == zero_dec()
    &&& form.ema_signal == Signal::LongEntry
    &&& form.rsi_value == zero_dec()
    &&& form.pine_color == PineColor::Purple
    &&& form.price_position == zero_dec()
    &&& form.final_signal == Signal::LongEntry
    &&& form.confidence == 0
    &&& form.conditions_met == 0
    &&& form.conditions_total == 0
    &&& form.target_price == zero_dec()
    &&& form.quantity == zero_dec()
    &&& !form.risk_flag
    &&& form.reject_reason is None
    &&& !form.is_high_freq
}

impl PipelineForm {
    /// A blank form stamped `timestamp`.
    pub fn new_at(symbol: String, strategy_id: String, period: String, timestamp: i64) -> (r: PipelineForm)
        ensures
            blank_form(r, symbol, strategy_id, period, timestamp),
    {
        PipelineForm {
            symbol,
            strategy_id,
            period,
            timestamp,
            round_id: 0,
            tick_price: zero(),
            tick_volume: zero(),
            open_price: zero(),
            close_price: zero(),
            high_price: zero(),
            low_price: zero(),
            ema_fast: zero(),
            ema_slow: zero(),
            ema_signal: Signal::LongEntry,
            rsi_value: zero(),
            pine_color: PineColor::Purple,
            price_position: zero(),
            final_signal: Signal::LongEntry,
            confidence: 0,
            conditions_met: 0,
            conditions_total: 0,
            target_price: zero(),
            quantity: zero(),
            risk_flag: false,
            reject_reason: None,
            is_high_freq: false,
        }
    }

    /// A blank form stamped with the current time.
    pub fn new(symbol: String, strategy_id: String, period: String) -> (r: PipelineForm)
        ensures
            blank_form(r, symbol, strategy_id, period, r.timestamp),
    {
        PipelineForm::new_at(symbol, strategy_id, period, crate::clock::utc_now_secs())
    }

    /// The form with the round set.
    pub fn with_round_id(self, round_id: u64) -> (r: PipelineForm)
        ensures
            r == (PipelineForm { round_id, ..self }),
    {
        let mut f = self;
        f.round_id = round_id;
        f
    }

    /// The form with the price layer filled.
    pub fn with_price_data(self, price: Dec, volume: Dec, open: Dec, close: Dec, high: Dec, low: Dec) -> (r:
        PipelineForm)
        ensures
            r == (PipelineForm {
                tick_price: price,
                tick_volume: volume,
                open_price: open,
                close_price: close,
                high_price: high,
                low_price: low,
                ..self
            }),
    {
        let mut f = self;
        f.tick_price = price;
        f.tick_volume = volume;
        f.open_price = open;
        f.close_price = close;
        f.high_price = high;
        f.low_price = low;
        f
    }

    /// The form with the indicator layer filled.
    pub fn with_indicator_data(
        self,
        ema_fast: Dec,
        ema_slow: Dec,
        ema_signal: Signal,
        rsi_value: Dec,
        pine_color: PineColor,
        price_position: Dec,
    ) -> (r: PipelineForm)
        ensures
            r == (PipelineForm { ema_fast, ema_slow, ema_signal, rsi_value, pine_color, price_position, ..self }),
    {
        let mut f = self;
        f.ema_fast = ema_fast;
        f.ema_slow = ema_slow;
        f.ema_signal = ema_signal;
        f.rsi_value = rsi_value;
        f.pine_color = pine_color;
        f.price_position = price_position;
        f
    }

    /// The form with the strategy layer filled.
    pub fn with_signal(self, final_signal: Signal, confidence: u8, conditions_met: u8, conditions_total: u8) -> (r:
        PipelineForm)
        ensures
            r == (PipelineForm { final_signal, confidence, conditions_met, conditions_total, ..self }),
    {
        let mut f = self;
        f.final_signal = final_signal;
        f.confidence = confidence;
        f.conditions_met = conditions_met;
        f.conditions_total = conditions_total;
        f
    }

    /// The form with the order filled.
    pub fn with_order_data(self, target_price: Dec, quantity: Dec) -> (r: PipelineForm)
        ensures
            r == (PipelineForm { target_price, quantity, ..self }),
    {
        let mut f = self;
        f.target_price = target_price;
        f.quantity = quantity;
        f
    }

    /// The form with the risk mark set.
    pub fn with_risk(self, risk_flag: bool, reject_reason: Option<String>) -> (r: PipelineForm)
        ensures
            r == (PipelineForm { risk_flag, reject_reason, ..self }),
    {
        let mut f = self;
        f.risk_flag = risk_flag;
        f.reject_reason = reject_reason;
        f
    }

    /// The form with the channel set.
    pub fn with_high_freq(self, is_high_freq: bool) -> (r: PipelineForm)
        ensures
            r == (PipelineForm { is_high_freq, ..self }),
    {
        let mut f = self;
        f.is_high_freq = is_high_freq;
        f
    }

    /// An opening or hedging signal that risk did not flag.
    pub fn has_trade_signal(&self) -> (r: bool)
        ensures
            r == (is_trade_signal(self.final_signal) && !self.risk_flag),
    {
        let trade = match self.final_signal {
            Signal::LongEntry | Signal::ShortEntry | Signal::LongHedge | Signal::ShortHedge => true,
            _ => false,
        };
        trade && !self.risk_flag
    }

    /// A closing signal.
    pub fn needs_exit(&self) -> (r: bool)
        ensures
            r == is_exit_signal(self.final_signal),
    {
        match self.final_signal {
            Signal::LongExit | Signal::ShortExit | Signal::ExitHighVol => true,
            _ => false,
        }
    }
}

/// A form never calls both for a trade and for an exit.
pub proof fn lemma_trade_and_exit_exclusive(form: PipelineForm)
    ensures
        !(is_trade_signal(form.final_signal) && !form.risk_flag && is_exit_signal(form.final_signal)),
{
}

} // verus!
