//! The signals and decisions exchanged with strategies.
use vstd::prelude::*;
use crate::decimal::Dec;

verus! {

/// Position side of an order.
#[derive(Debug, Clone, Copy, PartialEq, Eq, Structural)]
pub enum Side {
    Long,
    Short,
}

/// Order type.
#[derive(Debug, Clone, Copy, PartialEq, Eq, Structural)]
pub enum OrderType {
    Market,
    Limit,
}

/// How actively a strategy trades.
#[derive(Debug, Clone, Copy, PartialEq, Eq, Structural)]
pub enum TradingMode {
    Low,
    Medium,
    High,
}

/// An order for the exchange.
#[derive(Debug, Clone)]
pub struct OrderRequest {
    pub symbol: String,
    pub side: Side,
    pub order_type: OrderType,
    pub qty: Dec,
    pub price: Option<Dec>,
}

/// A strategy signal.
#[derive(Debug, Clone, Copy, PartialEq, Eq, Structural)]
pub enum Signal {
    LongEntry,
    ShortEntry,
    LongExit,
    ShortExit,
    ExitHighVol,
    LongHedge,
    ShortHedge,
}

/// What a decision asks for.
#[derive(Debug, Clone, Copy, PartialEq, Eq, Structural)]
pub enum DecisionAction {
    OpenLong,
    OpenShort,
    CloseLong,
    CloseShort,
    NoAction,
}

/// A trading decision for a symbol.
#[derive(Debug, Clone)]
pub struct TradingDecision {
    pub symbol: String,
    pub action: DecisionAction,
    pub price: Dec,
    pub qty: Dec,
    pub reason: String,
}

impl TradingDecision {
    pub fn open_long(symbol: String, price: Dec, qty: Dec, reason: String) -> (r: TradingDecision)
        ensures
            r == (TradingDecision { symbol, action: DecisionAction::OpenLong, price, qty, reason }),
    {
        TradingDecision { symbol, action: DecisionAction::OpenLong, price, qty, reason }
    }

    pub fn open_short(symbol: String, price: Dec, qty: Dec, reason: String) -> (r: TradingDecision)
        ensures
            r == (TradingDecision { symbol, action: DecisionAction::OpenShort, price, qty, reason }),
    {
        TradingDecision { symbol, action: DecisionAction::OpenShort, price, qty, reason }
    }

    /// Closes the long position (the whole of it: no quantity).
    pub fn close_long(symbol: String, price: Dec, reason: String) -> (r: TradingDecision)
        ensures
            r.symbol == symbol,
            r.action == DecisionAction::CloseLong,
            r.price == price,
            r.qty == Dec::of_parts(0, 0),
            r.reason == reason,
    {
        TradingDecision { symbol, action: DecisionAction::CloseLong, price, qty: Dec::zero(), reason }
    }

    /// Closes the short position.
    pub fn close_short(symbol: String, price: Dec, reason: String) -> (r: TradingDecision)
        ensures
            r.symbol == symbol,
            r.action == DecisionAction::CloseShort,
            r.price == price,
            r.qty == Dec::of_parts(0, 0),
            r.reason == reason,
    {
        TradingDecision { symbol, action: DecisionAction::CloseShort, price, qty: Dec::zero(), reason }
    }

    /// Nothing to do.
    pub fn no_action(symbol: String, reason: String) -> (r: TradingDecision)
        ensures
            r.symbol == symbol,
            r.action == DecisionAction::NoAction,
            r.price == Dec::of_parts(0, 0),
            r.qty == Dec::of_parts(0, 0),
            r.reason == reason,
    {
        TradingDecision { symbol, action: DecisionAction::NoAction, price: Dec::zero(), qty: Dec::zero(), reason }
    }
}

} // verus!
