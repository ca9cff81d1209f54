//! Triggers that look for trading opportunities: high minute volatility and daily
//! trend reversals.
use vstd::prelude::*;
use crate::decimal::{Dec, pow10};
use crate::f_engine::engine_state::EngineState;
use crate::f_engine::state::SymbolState;

verus! {

/// Trigger thresholds (percentages) and limits.
#[derive(Debug, Clone)]
pub struct TriggerConfig {
    pub minute_volatility_threshold: Dec,
    pub daily_entry_low_threshold: Dec,
    pub daily_entry_high_threshold: Dec,
    pub max_running_symbols: usize,
    pub minute_data_days: u32,
    pub daily_data_days: u32,
}

impl Default for TriggerConfig {
    /// Volatility 13 %, entry below 30 or above 70, ten symbols, 1 and 250 days of data.
    fn default() -> (r: TriggerConfig)
        ensures
            r.minute_volatility_threshold == Dec::int_dec(13) && r.minute_volatility_threshold.val() == 13 * pow10(28),
            r.daily_entry_low_threshold == Dec::int_dec(30) && r.daily_entry_low_threshold.val() == 30 * pow10(28),
            r.daily_entry_high_threshold == Dec::int_dec(70) && r.daily_entry_high_threshold.val() == 70 * pow10(28),
            r.max_running_symbols == 10,
            r.minute_data_days == 1,
            r.daily_data_days == 250,
    {
        TriggerConfig {
            minute_volatility_threshold: Dec::from_int(13),
            daily_entry_low_threshold: Dec::from_int(30),
            daily_entry_high_threshold: Dec::from_int(70),
            max_running_symbols: 10,
            minute_data_days: 1,
            daily_data_days: 250,
        }
    }
}

impl TriggerConfig {
    pub fn production() -> (r: TriggerConfig)
        ensures
            r.minute_volatility_threshold == Dec::int_dec(13) && r.minute_volatility_threshold.val() == 13 * pow10(28),
            r.daily_entry_low_threshold == Dec::int_dec(30) && r.daily_entry_low_threshold.val() == 30 * pow10(28),
            r.daily_entry_high_threshold == Dec::int_dec(70) && r.daily_entry_high_threshold.val() == 70 * pow10(28),
            r.max_running_symbols == 10,
    {
        TriggerConfig::default()
    }

    /// Volatility 10 %, entry below 25 or above 75, fifty symbols.
    pub fn backtest() -> (r: TriggerConfig)
        ensures
            r.minute_volatility_threshold == Dec::int_dec(10) && r.minute_volatility_threshold.val() == 10 * pow10(28),
            r.daily_entry_low_threshold == Dec::int_dec(25) && r.daily_entry_low_threshold.val() == 25 * pow10(28),
            r.daily_entry_high_threshold == Dec::int_dec(75) && r.daily_entry_high_threshold.val() == 75 * pow10(28),
            r.max_running_symbols == 50,
            r.minute_data_days == 1,
            r.daily_data_days == 250,
    {
        TriggerConfig {
            minute_volatility_threshold: Dec::from_int(10),
            daily_entry_low_threshold: Dec::from_int(25),
            daily_entry_high_threshold: Dec::from_int(75),
            max_running_symbols: 50,
            minute_data_days: 1,
            daily_data_days: 250,
        }
    }
}

/// Which trigger fired.
#[derive(Debug, Clone, Copy, PartialEq, Eq, Structural)]
pub enum TriggerType {
    MinuteHighVolatility,
    DailyTrendReversal,
}

/// The outcome of a trigger check.
#[derive(Debug, Clone)]
pub struct TriggerResult {
    pub symbol: String,
    pub trigger_type: TriggerType,
    pub precheck_passed: bool,
    pub reject_reason: Option<String>,
}

impl TriggerResult {
    pub fn passed(symbol: String, trigger_type: TriggerType) -> (r: TriggerResult)
        ensures
            r.symbol == symbol,
            r.trigger_type == trigger_type,
            r.precheck_passed,
            r.reject_reason.is_none(),
    {
        TriggerResult { symbol, trigger_type, precheck_passed: true, reject_reason: None }
    }

    pub fn rejected(symbol: String, trigger_type: TriggerType, reason: String) -> (r: TriggerResult)
        ensures
            r.symbol == symbol,
            r.trigger_type == trigger_type,
            !r.precheck_passed,
            r.reject_reason == Some(reason),
    {
        TriggerResult { symbol, trigger_type, precheck_passed: false, reject_reason: Some(reason) }
    }
}

/// The symbol is registered and bound to a strategy.
pub open spec fn symbol_taken(state: EngineState, symbol: Seq<char>) -> bool {
    state.has_symbol_spec(symbol) && state.symbol_state_spec(symbol).bound_strategy_id is Some
}

/// "bound by strategy <id>" for a taken symbol.
pub open spec fn bound_message(state: EngineState, symbol: Seq<char>) -> Seq<char> {
    "品种已被策略 "@ + state.symbol_state_spec(symbol).bound_strategy_id.unwrap()@ + " 绑定"@
}

/// Checks shared by both triggers, after the trigger's own condition: the symbol is
/// free and there is room for another symbol.  `None` when they pass.
fn check_symbol_free(symbol: &str, state: &EngineState, max_running_symbols: usize) -> (r: Option<String>)
    requires
        state.wf(),
    ensures
        symbol_taken(*state, symbol@) ==> r is Some && r.unwrap()@ == bound_message(*state, symbol@),
        !symbol_taken(*state, symbol@) && state.symbols_spec().len() >= max_running_symbols ==> r is Some
            && r.unwrap()@ == "已达到最大同时运行品种数"@,
        !symbol_taken(*state, symbol@) && state.symbols_spec().len() < max_running_symbols ==> r is None,
{
    match state.get_symbol(symbol) {
        Some(symbol_state) => {
            match &symbol_state.bound_strategy_id {
                Some(id) => {
                    let mut msg = "品种已被策略 ".to_string();
                    msg.append(id.as_str());
                    msg.append(" 绑定");
                    return Some(msg);
                },
                None => {},
            }
        },
        None => {},
    }
    if state.symbol_count() >= max_running_symbols {
        return Some("已达到最大同时运行品种数".to_string());
    }
    None
}

/// Watches for highly volatile symbols.
pub struct MinuteTrigger {
    pub config: TriggerConfig,
}

impl MinuteTrigger {
    pub fn new(config: TriggerConfig) -> (r: MinuteTrigger)
        ensures
            r.config == config,
    {
        MinuteTrigger { config }
    }

    /// Passes when the volatility reaches the threshold, the symbol is not bound to a
    /// strategy and fewer than the maximum number of symbols run.
    pub fn check(&self, symbol: &str, volatility_ratio: Dec, engine_state: &EngineState) -> (r: TriggerResult)
        requires
            engine_state.wf(),
        ensures
            r.symbol@ == symbol@,
            r.trigger_type == TriggerType::MinuteHighVolatility,
            volatility_ratio.val() < self.config.minute_volatility_threshold.val() ==> !r.precheck_passed
                && r.reject_reason.unwrap()@ == "波动率未超过阈值"@,
            volatility_ratio.val() >= self.config.minute_volatility_threshold.val() ==> {
                &&& symbol_taken(*engine_state, symbol@) ==> !r.precheck_passed && r.reject_reason.unwrap()@
                    == bound_message(*engine_state, symbol@)
                &&& !symbol_taken(*engine_state, symbol@) && engine_state.symbols_spec().len()
                    >= self.config.max_running_symbols ==> !r.precheck_passed && r.reject_reason.unwrap()@
                    == "已达到最大同时运行品种数"@
                &&& !symbol_taken(*engine_state, symbol@) && engine_state.symbols_spec().len()
                    < self.config.max_running_symbols ==> r.precheck_passed && r.reject_reason is None
            },
    {
        let trigger_type = TriggerType::MinuteHighVolatility;
        if volatility_ratio.lt(&self.config.minute_volatility_threshold) {
            return TriggerResult::rejected(symbol.to_string(), trigger_type, "波动率未超过阈值".to_string());
        }
        match check_symbol_free(symbol, engine_state, self.config.max_running_symbols) {
            Some(reason) => TriggerResult::rejected(symbol.to_string(), trigger_type, reason),
            None => TriggerResult::passed(symbol.to_string(), trigger_type),
        }
    }
}

/// Watches for daily trend reversals.
pub struct DailyTrigger {
    pub config: TriggerConfig,
}

/// Low and turning green (long), or high and turning red (short).
pub open spec fn reversal(config: TriggerConfig, price_position: Dec, is_green: bool, is_red: bool) -> bool {
    (price_position.val() <= config.daily_entry_low_threshold.val() && is_green) || (price_position.val()
        >= config.daily_entry_high_threshold.val() && is_red)
}

impl DailyTrigger {
    pub fn new(config: TriggerConfig) -> (r: DailyTrigger)
        ensures
            r.config == config,
    {
        DailyTrigger { config }
    }

    /// Passes on a reversal (price position, 0 to 100, at or below the low threshold
    /// and turning green, or at or above the high one and turning red) when the symbol
    /// is free and there is room for it.
    pub fn check(
        &self,
        symbol: &str,
        price_position: Dec,
        is_green: bool,
        is_red: bool,
        engine_state: &EngineState,
    ) -> (r: TriggerResult)
        requires
            engine_state.wf(),
        ensures
            r.symbol@ == symbol@,
            r.trigger_type == TriggerType::DailyTrendReversal,
            !reversal(self.config, price_position, is_green, is_red) ==> !r.precheck_passed
                && r.reject_reason.unwrap()@ == "不满足趋势反转条件"@,
            reversal(self.config, price_position, is_green, is_red) ==> {
                &&& symbol_taken(*engine_state, symbol@) ==> !r.precheck_passed && r.reject_reason.unwrap()@
                    == bound_message(*engine_state, symbol@)
                &&& !symbol_taken(*engine_state, symbol@) && engine_state.symbols_spec().len()
                    >= self.config.max_running_symbols ==> !r.precheck_passed && r.reject_reason.unwrap()@
                    == "已达到最大同时运行品种数"@
                &&& !symbol_taken(*engine_state, symbol@) && engine_state.symbols_spec().len()
                    < self.config.max_running_symbols ==> r.precheck_passed && r.reject_reason is None
            },
    {
        let trigger_type = TriggerType::DailyTrendReversal;
        let long_condition = price_position.le(&self.config.daily_entry_low_threshold) && is_green;
        let short_condition = price_position.ge(&self.config.daily_entry_high_threshold) && is_red;
        if !long_condition && !short_condition {
            return TriggerResult::rejected(symbol.to_string(), trigger_type, "不满足趋势反转条件".to_string());
        }
        match check_symbol_free(symbol, engine_state, self.config.max_running_symbols) {
            Some(reason) => TriggerResult::rejected(symbol.to_string(), trigger_type, reason),
            None => TriggerResult::passed(symbol.to_string(), trigger_type),
        }
    }
}

/// Both triggers with one configuration.
pub struct TriggerManager {
    pub minute_trigger: MinuteTrigger,
    pub daily_trigger: DailyTrigger,
}

impl TriggerManager {
    pub fn new(config: TriggerConfig) -> (r: TriggerManager)
        ensures
            r.daily_trigger.config == config,
            r.minute_trigger.config.minute_volatility_threshold == config.minute_volatility_threshold,
            r.minute_trigger.config.daily_entry_low_threshold == config.daily_entry_low_threshold,
            r.minute_trigger.config.daily_entry_high_threshold == config.daily_entry_high_threshold,
            r.minute_trigger.config.max_running_symbols == config.max_running_symbols,
            r.minute_trigger.config.minute_data_days == config.minute_data_days,
            r.minute_trigger.config.daily_data_days == config.daily_data_days,
    {
        let copy = TriggerConfig {
            minute_volatility_threshold: config.minute_volatility_threshold.copy(),
            daily_entry_low_threshold: config.daily_entry_low_threshold.copy(),
            daily_entry_high_threshold: config.daily_entry_high_threshold.copy(),
            max_running_symbols: config.max_running_symbols,
            minute_data_days: config.minute_data_days,
            daily_data_days: config.daily_data_days,
        };
        TriggerManager { minute_trigger: MinuteTrigger::new(copy), daily_trigger: DailyTrigger::new(config) }
    }

    pub fn minute_trigger(&self) -> (r: &MinuteTrigger)
        ensures
            *r == self.minute_trigger,
    {
        &self.minute_trigger
    }

    pub fn daily_trigger(&self) -> (r: &DailyTrigger)
        ensures
            *r == self.daily_trigger,
    {
        &self.daily_trigger
    }
}

impl Default for TriggerManager {
    fn default() -> (r: TriggerManager)
        ensures
            r.daily_trigger.config.max_running_symbols == 10,
            r.minute_trigger.config.max_running_symbols == 10,
    {
        TriggerManager::new(TriggerConfig::default())
    }
}

} // verus!
