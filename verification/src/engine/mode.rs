//! The trading mode of the engine.
use vstd::prelude::*;
use crate::engine::strategy_types::TradingMode;

verus! {

/// Holds the current trading mode.
pub struct ModeSwitcher {
    pub current_mode: TradingMode,
}

impl ModeSwitcher {
    /// Starts in the low mode.
    pub fn new() -> (r: ModeSwitcher)
        ensures
            r.current_mode == TradingMode::Low,
    {
        ModeSwitcher { current_mode: TradingMode::Low }
    }

    pub fn mode(&self) -> (r: TradingMode)
        ensures
            r == self.current_mode,
    {
        self.current_mode
    }

    /// Switches to `new_mode`.
    pub fn switch(&mut self, new_mode: TradingMode)
        ensures
            final(self).current_mode == new_mode,
    {
        if self.current_mode != new_mode {
            self.current_mode = new_mode;
        }
    }
}

impl Default for ModeSwitcher {
    fn default() -> (r: ModeSwitcher)
        ensures
            r.current_mode == TradingMode::Low,
    {
        ModeSwitcher::new()
    }
}

} // verus!
