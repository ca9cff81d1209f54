//! The engine's running mode: normal, backtest, paper or maintenance.
use vstd::prelude::*;

verus! {

/// Running mode.
#[derive(Debug, Clone, Copy, PartialEq, Eq, Structural)]
pub enum Mode {
    Normal,
    Backtest,
    Paper,
    Maintenance,
}

impl Default for Mode {
    fn default() -> (r: Mode)
        ensures
            r == Mode::Normal,
    {
        Mode::Normal
    }
}

/// Holds the current mode.
#[derive(Debug, Clone)]
pub struct ModeSwitcher {
    pub current_mode: Mode,
}

impl ModeSwitcher {
    /// Starts in normal mode.
    pub fn new() -> (r: ModeSwitcher)
        ensures
            r.current_mode == Mode::Normal,
    {
        ModeSwitcher { current_mode: Mode::Normal }
    }

    pub fn mode(&self) -> (r: Mode)
        ensures
            r == self.current_mode,
    {
        self.current_mode
    }

    pub fn set_mode(&mut self, mode: Mode)
        ensures
            final(self).current_mode == mode,
    {
        self.current_mode = mode;
    }

    /// Trading is allowed in normal and paper mode.
    pub fn is_trading_allowed(&self) -> (r: bool)
        ensures
            r == (self.current_mode == Mode::Normal || self.current_mode == Mode::Paper),
    {
        self.current_mode == Mode::Normal || self.current_mode == Mode::Paper
    }
}

impl Default for ModeSwitcher {
    fn default() -> (r: ModeSwitcher)
        ensures
            r.current_mode == Mode::Normal,
    {
        ModeSwitcher::new()
    }
}

} // verus!
