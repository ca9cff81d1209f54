//! Core order and decision types shared between strategies and the engine.
use vstd::prelude::*;
use crate::decimal::Dec;

verus! {

/// Order side.
#[derive(Debug, Clone, Copy, PartialEq, Eq, Structural)]
pub enum Side {
    Buy,
    Sell,
}

/// Order type.
#[derive(Debug, Clone, Copy, PartialEq, Eq, Structural)]
pub enum OrderType {
    Market,
    Limit,
}

/// What a strategy decides to do.
#[derive(Debug, Clone, Copy, PartialEq, Eq, Structural)]
pub enum TradingAction {
    Long,
    Short,
    Flat,
    Add,
    Reduce,
    Hedge,
    Wait,
}

/// A strategy's decision.
#[derive(Debug, Clone)]
pub struct TradingDecision {
    pub action: TradingAction,
    pub reason: String,
    pub confidence: u8,
    pub symbol: String,
    pub qty: Dec,
    pub price: Dec,
    pub timestamp: i64,
}

impl TradingDecision {
    pub fn new(
        action: TradingAction,
        reason: &str,
        confidence: u8,
        symbol: String,
        qty: Dec,
        price: Dec,
        timestamp: i64,
    ) -> (r: TradingDecision)
        ensures
            r.action == action,
            r.reason@ == reason@,
            r.confidence == confidence,
            r.symbol == symbol,
            r.qty == qty,
            r.price == price,
            r.timestamp == timestamp,
    {
        TradingDecision { action, reason: reason.to_string(), confidence, symbol, qty, price, timestamp }
    }

    /// Opening a long or a short position.
    pub fn is_entry(&self) -> (r: bool)
        ensures
            r == (self.action == TradingAction::Long || self.action == TradingAction::Short),
    {
        matches!(self.action, TradingAction::Long | TradingAction::Short)
    }

    /// Going flat.
    pub fn is_exit(&self) -> (r: bool)
        ensures
            r == (self.action == TradingAction::Flat),
    {
        matches!(self.action, TradingAction::Flat)
    }
}

/// An order to send.
#[derive(Debug, Clone)]
pub struct OrderRequest {
    pub symbol: String,
    pub side: Side,
    pub order_type: OrderType,
    pub qty: Dec,
    pub price: Option<Dec>,
}

impl OrderRequest {
    /// A market order: no price.
    pub fn new_market(symbol: String, side: Side, qty: Dec) -> (r: OrderRequest)
        ensures
            r.symbol == symbol,
            r.side == side,
            r.order_type == OrderType::Market,
            r.qty == qty,
            r.price is None,
    {
        OrderRequest { symbol, side, order_type: OrderType::Market, qty, price: None }
    }

    /// A limit order at `price`.
    pub fn new_limit(symbol: String, side: Side, qty: Dec, price: Dec) -> (r: OrderRequest)
        ensures
            r.symbol == symbol,
            r.side == side,
            r.order_type == OrderType::Limit,
            r.qty == qty,
            r.price == Some(price),
    {
        OrderRequest { symbol, side, order_type: OrderType::Limit, qty, price: Some(price) }
    }
}

} // verus!
