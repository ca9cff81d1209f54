//! Dispatching orders by kind.
use vstd::prelude::*;
use crate::engine::error::EngineError;
use crate::engine::strategy_types::{OrderRequest, OrderType};

verus! {

/// Executes orders; market orders of either side are accepted, and the limit path
/// takes limit orders only.
pub struct OrderExecutor;

impl OrderExecutor {
    pub fn new() -> (r: OrderExecutor) {
        OrderExecutor
    }

    /// Executes a market order: opening long or short, either way accepted.
    pub fn execute_market_order(&self, order: &OrderRequest) -> (r: Result<(), EngineError>)
        ensures
            r is Ok,
    {
        Ok(())
    }

    /// Executes a limit order; a market order is refused here.
    pub fn execute_limit_order(&self, order: &OrderRequest) -> (r: Result<(), EngineError>)
        ensures
            order.order_type == OrderType::Limit ==> r is Ok,
            order.order_type == OrderType::Market ==> (r matches Err(EngineError::OrderExecutionFailed(m))
                && m@ == "Market order should use execute_market_order"@),
    {
        proof {
            reveal_strlit("Market order should use execute_market_order");
        }
        match order.order_type {
            OrderType::Limit => Ok(()),
            OrderType::Market => Err(EngineError::OrderExecutionFailed("Market order should use execute_market_order".to_string())),
        }
    }
}

} // verus!
