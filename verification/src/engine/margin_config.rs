//! Margin pool settings of the minute and hour strategies.
use vstd::prelude::*;
use crate::decimal::{Dec, pow10};

verus! {

/// The strategy level that asks for margin.
#[derive(Debug, Clone, Copy, PartialEq, Eq, Structural)]
pub enum StrategyLevel {
    Minute,
    Hour,
}

/// Upper bound of one symbol's notional value (USDT).
pub fn max_single_notional() -> (r: Dec)
    ensures
        r.val() == 5000 * pow10(28),
        r.mant() == 5000,
        r.scl() == 0,
{
    Dec::from_int(5000)
}

/// Share of the available margin that may go to new positions.
pub struct PoolRatio {
    pub new_open_ratio: Dec,
}

/// How the minute strategy sizes new positions.
pub struct MinuteOpenConfig {
    pub min_notional_per_symbol: Dec,
    pub target_symbol_count: u32,
    pub threshold_amount: Dec,
}

/// How the hour strategy sizes new positions.
pub struct HourOpenConfig {
    pub min_notional_per_symbol: Dec,
    pub target_symbol_count: u32,
    pub add_times: u32,
    pub threshold_notional: Dec,
}

/// The margin pool settings.
pub struct MarginPoolConfig {
    pub minute: PoolRatio,
    pub hour: PoolRatio,
    pub minute_open: MinuteOpenConfig,
    pub hour_open: HourOpenConfig,
}

impl MarginPoolConfig {
    /// Minute: 15 % of the available margin, 50 symbols, 5 USDT each at least, 250
    /// USDT threshold.  Hour: 30 %, 10 symbols with 10 additions each, 5 USDT at least,
    /// 500 USDT threshold.
    pub fn default_config() -> (r: MarginPoolConfig)
        ensures
            r.minute.new_open_ratio.mant() == 15 && r.minute.new_open_ratio.scl() == 2,
            r.hour.new_open_ratio.mant() == 3 && r.hour.new_open_ratio.scl() == 1,
            r.minute_open.min_notional_per_symbol.mant() == 5 && r.minute_open.min_notional_per_symbol.scl() == 0,
            r.minute_open.target_symbol_count == 50,
            r.minute_open.threshold_amount.mant() == 250 && r.minute_open.threshold_amount.scl() == 0,
            r.hour_open.min_notional_per_symbol.mant() == 5 && r.hour_open.min_notional_per_symbol.scl() == 0,
            r.hour_open.target_symbol_count == 10,
            r.hour_open.add_times == 10,
            r.hour_open.threshold_notional.mant() == 500 && r.hour_open.threshold_notional.scl() == 0,
    {
        MarginPoolConfig {
            minute: PoolRatio { new_open_ratio: Dec::new(15, 2) },
            hour: PoolRatio { new_open_ratio: Dec::new(3, 1) },
            minute_open: MinuteOpenConfig {
                min_notional_per_symbol: Dec::from_int(5),
                target_symbol_count: 50,
                threshold_amount: Dec::from_int(250),
            },
            hour_open: HourOpenConfig {
                min_notional_per_symbol: Dec::from_int(5),
                target_symbol_count: 10,
                add_times: 10,
                threshold_notional: Dec::from_int(500),
            },
        }
    }
}

} // verus!
