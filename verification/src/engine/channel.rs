//! The volatility channel of a symbol: a slow, time-driven channel and a high-speed
//! channel entered on volatile bars, the signal judged from the indicators, and the
//! check-table entries it fills.
use vstd::prelude::*;
use crate::decimal::{Dec, pow10, sub_spec, abs_spec, div_spec, sum_in_range, quotient_in_range};
use crate::engine::check_table::{CheckTable, CheckEntry, PineColor, entry_key};
use crate::engine::round_guard::RoundGuard;
use crate::engine::strategy_types::Signal;
use crate::engine::mock_binance_gateway::{zero, zero_dec};
use crate::f_engine::pipeline_form::PipelineForm;

verus! {

/// The channel a symbol trades in.
#[derive(Debug, Clone, Copy, PartialEq, Eq, Structural)]
pub enum ChannelType {
    /// Time driven, judged each minute.
    Slow,
    /// Volatility driven, judged on each tick.
    High,
}

/// The open and close of a bar.
#[derive(Debug, Clone)]
pub struct BarPrices {
    pub open: Dec,
    pub close: Dec,
}

/// A bar's four prices.
#[derive(Debug, Clone)]
pub struct Bar {
    pub open: Dec,
    pub close: Dec,
    pub high: Dec,
    pub low: Dec,
}

/// The check-table entry of a form.
pub open spec fn form_entry(f: PipelineForm) -> CheckEntry {
    CheckEntry {
        symbol: f.symbol,
        strategy_id: f.strategy_id,
        period: f.period,
        ema_signal: f.ema_signal,
        rsi_value: f.rsi_value,
        pine_color: f.pine_color,
        price_position: f.price_position,
        final_signal: f.final_signal,
        target_price: f.target_price,
        quantity: f.quantity,
        risk_flag: f.risk_flag,
        timestamp: f.timestamp,
        round_id: f.round_id,
        is_high_freq: f.is_high_freq,
    }
}

/// A bar's volatility `|close - open| / open`, zero without a positive open.
pub open spec fn bar_volatility(b: BarPrices) -> Dec {
    if b.open.val() > 0 { div_spec(abs_spec(sub_spec(b.close, b.open)), b.open) } else { zero_dec() }
}

/// A bar's volatility computes.
pub open spec fn bar_volatility_ok(b: BarPrices) -> bool {
    b.open.val() > 0 ==> sum_in_range(b.close, b.open, -1) && quotient_in_range(abs_spec(sub_spec(b.close, b.open)), b.open)
}

fn volatility_of(b: &BarPrices) -> (r: Dec)
    requires
        bar_volatility_ok(*b),
    ensures
        r == bar_volatility(*b),
{
    if b.open.gt(&Dec::zero()) {
        b.close.sub(&b.open).abs().div(&b.open)
    } else {
        zero()
    }
}

/// The confidence a Pine colour adds.
pub open spec fn pine_bonus(c: PineColor) -> int {
    match c {
        PineColor::PureGreen => 20,
        PineColor::LightGreen => 10,
        PineColor::PureRed => 20,
        PineColor::LightRed => 10,
        PineColor::Purple => 30,
        PineColor::Neutral => 0,
    }
}

/// The confidence of a judgement: 50, plus the colour's bonus, plus 10 for a price
/// position above 70 or below 30, plus 10 for an RSI above 70 or below 30.
pub open spec fn confidence_of(c: PineColor, rsi: Dec, pos: Dec) -> int {
    50 + pine_bonus(c) + (if pos.val() > 70 * pow10(28) || pos.val() < 30 * pow10(28) { 10int } else { 0 }) + (
    if rsi.val() > 70 * pow10(28) || rsi.val() < 30 * pow10(28) { 10int } else { 0 })
}

/// The judged signal and confidence: a purple colour exits at 90; otherwise with
/// confidence 70 or more the price position decides (above 60 long, below 40 short,
/// else exit long), and below 70 it is an exit of the long side.
pub open spec fn judged(c: PineColor, rsi: Dec, pos: Dec) -> (Signal, u8) {
    if c == PineColor::Purple {
        (Signal::ExitHighVol, 90u8)
    } else {
        let conf = confidence_of(c, rsi, pos);
        let s = if conf >= 70 {
            if pos.val() > 60 * pow10(28) {
                Signal::LongEntry
            } else if pos.val() < 40 * pow10(28) {
                Signal::ShortEntry
            } else {
                Signal::LongExit
            }
        } else {
            Signal::LongExit
        };
        (s, (if conf < 100 { conf } else { 100 }) as u8)
    }
}

/// The channel of one symbol and strategy.
pub struct VolatilityChannel {
    pub symbol: String,
    pub strategy_id: String,
    pub current_channel: ChannelType,
    pub check_table: CheckTable,
    pub round_guard: RoundGuard,
    /// 3 % in a minute enters the high-speed channel.
    pub volatility_threshold_1m: Dec,
    /// 13 % in fifteen minutes enters it too.
    pub volatility_threshold_15m: Dec,
}

impl VolatilityChannel {
    /// Starts slow, with an empty check table and no round.
    pub fn new(symbol: String, strategy_id: String) -> (r: VolatilityChannel)
        ensures
            r.symbol == symbol,
            r.strategy_id == strategy_id,
            r.current_channel == ChannelType::Slow,
            r.check_table.wf(),
            r.check_table.entries@.len() == 0,
            r.round_guard.id() == 0,
            r.volatility_threshold_1m == Dec::of_parts(3, 2),
            r.volatility_threshold_15m == Dec::of_parts(13, 2),
    {
        let t1 = Dec::new(3, 2);
        let t15 = Dec::new(13, 2);
        proof {
            Dec::lemma_of_parts(3, 2);
            Dec::lemma_of_parts(13, 2);
            Dec::lemma_parts_eq(t1, Dec::of_parts(3, 2));
            Dec::lemma_parts_eq(t15, Dec::of_parts(13, 2));
        }
        VolatilityChannel {
            symbol,
            strategy_id,
            current_channel: ChannelType::Slow,
            check_table: CheckTable::new(),
            round_guard: RoundGuard::new(),
            volatility_threshold_1m: t1,
            volatility_threshold_15m: t15,
        }
    }

    /// Whether the current bars call for the high-speed channel: both bars must exist,
    /// and the minute bar's volatility reach 3 % or the fifteen-minute bar's 13 %.
    pub fn check_volatility(&self, bar_1m: &Option<BarPrices>, bar_15m: &Option<BarPrices>) -> (r: bool)
        requires
            bar_1m is Some ==> bar_volatility_ok(bar_1m.unwrap()),
            bar_15m is Some ==> bar_volatility_ok(bar_15m.unwrap()),
        ensures
            r == (bar_1m is Some && bar_15m is Some && (bar_volatility(bar_1m.unwrap()).val()
                >= self.volatility_threshold_1m.val() || bar_volatility(bar_15m.unwrap()).val()
                >= self.volatility_threshold_15m.val())),
    {
        let k1 = match bar_1m {
            Some(k) => k,
            None => return false,
        };
        let k15 = match bar_15m {
            Some(k) => k,
            None => return false,
        };
        let vol_1m = volatility_of(k1);
        let vol_15m = volatility_of(k15);
        vol_1m.ge(&self.volatility_threshold_1m) || vol_15m.ge(&self.volatility_threshold_15m)
    }

    /// The channel step of a tick: when a minute bar completed or the volatility
    /// disagrees with the channel, the channel follows the volatility and a new round
    /// starts, whose id is returned (a pipeline form is due); otherwise nothing.
    pub fn switch_channel(&mut self, completed_1m: bool, is_high_freq: bool) -> (r: Option<u64>)
        requires
            old(self).round_guard.id() < u64::MAX,
        ensures
            ({
                let o = *old(self);
                let disagrees = is_high_freq != (o.current_channel == ChannelType::High);
                &&& (completed_1m || disagrees) ==> {
                    &&& r == Some((o.round_guard.id() + 1) as u64)
                    &&& final(self).round_guard.id() == o.round_guard.id() + 1
                    &&& final(self).current_channel == if is_high_freq {
                        ChannelType::High
                    } else {
                        ChannelType::Slow
                    }
                }
                &&& !(completed_1m || disagrees) ==> r is None && final(self).round_guard == o.round_guard
                    && final(self).current_channel == o.current_channel
            }),
            final(self).check_table == old(self).check_table,
            final(self).volatility_threshold_1m == old(self).volatility_threshold_1m,
            final(self).volatility_threshold_15m == old(self).volatility_threshold_15m,
    {
        let disagrees = is_high_freq != (self.current_channel == ChannelType::High);
        if completed_1m || disagrees {
            if disagrees {
                self.current_channel = if is_high_freq { ChannelType::High } else { ChannelType::Slow };
            }
            let round_id = self.round_guard.next_round_id();
            Some(round_id)
        } else {
            None
        }
    }

    /// The signal and confidence of the indicators.
    pub fn judge_signal(&self, pine_color: PineColor, rsi_value: Dec, price_position: Dec) -> (r: (Signal, u8))
        ensures
            r == judged(pine_color, rsi_value, price_position),
    {
        if pine_color == PineColor::Purple {
            return (Signal::ExitHighVol, 90);
        }
        let mut confidence: u8 = 50;
        match pine_color {
            PineColor::PureGreen => confidence = confidence + 20,
            PineColor::LightGreen => confidence = confidence + 10,
            PineColor::PureRed => confidence = confidence + 20,
            PineColor::LightRed => confidence = confidence + 10,
            PineColor::Purple => confidence = confidence + 30,
            PineColor::Neutral => {},
        }
        let seventy = Dec::from_int(70);
        let thirty = Dec::from_int(30);
        let sixty = Dec::from_int(60);
        let forty = Dec::from_int(40);
        if price_position.gt(&seventy) {
            confidence = confidence + 10;
        } else if price_position.lt(&thirty) {
            confidence = confidence + 10;
        }
        if rsi_value.gt(&seventy) || rsi_value.lt(&thirty) {
            confidence = confidence + 10;
        }
        let signal = if confidence >= 70 {
            if price_position.gt(&sixty) {
                Signal::LongEntry
            } else if price_position.lt(&forty) {
                Signal::ShortEntry
            } else {
                Signal::LongExit
            }
        } else {
            Signal::LongExit
        };
        let c = if confidence < 100 { confidence } else { 100 };
        (signal, c)
    }

    /// Records the form's judgement in the check table.
    pub fn fill_check_entry(&mut self, form: &PipelineForm)
        requires
            old(self).check_table.wf(),
        ensures
            final(self).check_table.wf(),
            final(self).check_table.entry_of(entry_key(form_entry(*form))) == Some(form_entry(*form)),
            forall|k: (Seq<char>, Seq<char>, Seq<char>)| k != entry_key(form_entry(*form)) ==> final(self).check_table.entry_of(k)
                == old(self).check_table.entry_of(k),
            final(self).current_channel == old(self).current_channel,
    {
        let entry = CheckEntry {
            symbol: form.symbol.clone(),
            strategy_id: form.strategy_id.clone(),
            period: form.period.clone(),
            ema_signal: form.ema_signal,
            rsi_value: form.rsi_value.clone(),
            pine_color: form.pine_color,
            price_position: form.price_position.clone(),
            final_signal: form.final_signal,
            target_price: form.target_price.clone(),
            quantity: form.quantity.clone(),
            risk_flag: form.risk_flag,
            timestamp: form.timestamp,
            round_id: form.round_id,
            is_high_freq: form.is_high_freq,
        };
        self.check_table.fill(entry);
    }

    /// The pipeline form of a tick and its minute bar: the price layer from both, the
    /// indicator layer as given (the EMA signal long when the fast line is above the
    /// slow one), the judged signal and confidence, an order for 0.001 at the tick price
    /// and no risk flag; period "tick" in the high-speed channel, else "1m".
    pub fn build_pipeline_form(
        &self,
        bar: &Bar,
        tick_price: &Dec,
        tick_qty: &Dec,
        ema_f: Dec,
        ema_s: Dec,
        rsi_value: Dec,
        pine_color: PineColor,
        price_pos: Dec,
        is_high_freq: bool,
        round_id: u64,
    ) -> (r: PipelineForm)
        ensures
            r.symbol == self.symbol,
            r.strategy_id == self.strategy_id,
            r.period@ == (if is_high_freq { "tick"@ } else { "1m"@ }),
            r.round_id == round_id,
            r.tick_price == *tick_price,
            r.tick_volume == *tick_qty,
            r.open_price == bar.open,
            r.close_price == bar.close,
            r.high_price == bar.high,
            r.low_price == bar.low,
            r.ema_fast == ema_f,
            r.ema_slow == ema_s,
            r.ema_signal == (if ema_f.val() > ema_s.val() { Signal::LongEntry } else { Signal::ShortEntry }),
            r.rsi_value == rsi_value,
            r.pine_color == pine_color,
            r.price_position == price_pos,
            (r.final_signal, r.confidence) == judged(pine_color, rsi_value, price_pos),
            r.conditions_met == 0,
            r.conditions_total == 0,
            r.target_price == *tick_price,
            r.quantity == Dec::of_parts(1, 3),
            !r.risk_flag,
            r.reject_reason is None,
            r.is_high_freq == is_high_freq,
    {
        let (final_signal, confidence) = self.judge_signal(pine_color, rsi_value.clone(), price_pos.clone());
        let period = if is_high_freq { "tick".to_string() } else { "1m".to_string() };
        let ema_signal = if ema_f.gt(&ema_s) { Signal::LongEntry } else { Signal::ShortEntry };
        let qty = Dec::new(1, 3);
        proof {
            Dec::lemma_of_parts(1, 3);
            Dec::lemma_parts_eq(qty, Dec::of_parts(1, 3));
        }
        PipelineForm::new(self.symbol.clone(), self.strategy_id.clone(), period)
            .with_round_id(round_id)
            .with_price_data(
                tick_price.clone(),
                tick_qty.clone(),
                bar.open.clone(),
                bar.close.clone(),
                bar.high.clone(),
                bar.low.clone(),
            )
            .with_indicator_data(ema_f, ema_s, ema_signal, rsi_value, pine_color, price_pos)
            .with_signal(final_signal, confidence, 0, 0)
            .with_order_data(tick_price.clone(), qty)
            .with_risk(false, None)
            .with_high_freq(is_high_freq)
    }

    pub fn check_table(&self) -> (r: &CheckTable)
        ensures
            *r == self.check_table,
    {
        &self.check_table
    }

    pub fn current_channel(&self) -> (r: ChannelType)
        ensures
            r == self.current_channel,
    {
        self.current_channel
    }
}

} // verus!
