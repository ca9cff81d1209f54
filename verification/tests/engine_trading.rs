use quant_engine::decimal::Dec;
use quant_engine::engine::account_pool::CircuitBreakerState;
use quant_engine::engine::error::EngineError;
use quant_engine::engine::market_status::MarketStatus;
use quant_engine::engine::mock_binance_gateway::OrderStatus;
use quant_engine::engine::position_manager::Direction;
use quant_engine::engine::strategy_types::{OrderRequest, OrderType, Side};
use quant_engine::engine::trading_engine::TradingEngine;

fn d(m: i64, scale: u32) -> Dec {
    Dec::new(m, scale)
}

fn market_long(qty: Dec, price: Option<Dec>) -> OrderRequest {
    OrderRequest { symbol: "BTCUSDT".to_string(), side: Side::Long, order_type: OrderType::Market, qty, price }
}

#[test]
fn engine_starts_idle_with_funded_account() {
    let engine = TradingEngine::new_at("BTCUSDT".to_string(), d(100000, 0), 1000);
    assert!(!engine.is_running());
    assert_eq!(engine.circuit_state(), CircuitBreakerState::Normal);
    assert_eq!(engine.market_status(), MarketStatus::TREND);
    assert_eq!(engine.account_info().available(), d(100000, 0));
    assert_eq!(engine.get_gateway_account().available, d(100000, 0));
}

#[test]
fn engine_refuses_orders_without_main_strategy() {
    let mut engine = TradingEngine::new_at("BTCUSDT".to_string(), d(100000, 0), 1000);
    let r = engine.execute_order_at(market_long(d(1, 2), Some(d(50000, 0))), 1000);
    match r {
        Err(EngineError::RiskCheckFailed(m)) => assert!(m.contains("main")),
        other => panic!("unexpected {:?}", other),
    }
    assert!(!engine.position_manager.has_position());
}

#[test]
fn engine_fills_order_and_opens_position() {
    let mut engine = TradingEngine::new_at("BTCUSDT".to_string(), d(100000, 0), 1000);
    engine.strategy_pool.register_strategy("main", d(50000, 0), 80);
    engine.on_tick(d(50000, 0), 1000);
    assert!(engine.pre_trade_check(d(50000, 0), d(1, 2)));
    let result = engine.execute_order_at(market_long(d(1, 2), None), 1000).unwrap();
    assert_eq!(result.status, OrderStatus::Filled);
    assert_eq!(engine.position_manager.qty(), d(1, 2));
    assert_eq!(engine.position_manager.direction(), Direction::Long);
    assert_eq!(engine.position_manager.avg_price(), d(50000, 0));
    assert_eq!(engine.round_guard.current_round_id(), 1);
}

#[test]
fn engine_start_and_shutdown() {
    let mut engine = TradingEngine::new_at("ETHUSDT".to_string(), d(1000, 0), 0);
    assert!(!engine.shutdown());
    engine.start();
    assert!(engine.is_running());
    assert!(engine.shutdown());
    assert!(!engine.is_running());
}

#[test]
fn engine_executes_now_and_reports_positions() {
    let mut engine = TradingEngine::new("BTCUSDT".to_string(), d(100000, 0));
    engine.strategy_pool.register_strategy("main", d(50000, 0), 80);
    engine.on_tick(d(50000, 0), 1000);
    let result = engine.execute_order(market_long(d(1, 2), None)).unwrap();
    assert_eq!(result.status, OrderStatus::Filled);
    let pos = engine.get_gateway_position("BTCUSDT").unwrap();
    assert_eq!(pos.long_qty, d(1, 2));
    assert!(engine.get_gateway_position("ETHUSDT").is_none());
    assert_eq!(engine.get_gateway().get_account().total_equity, engine.get_gateway_account().total_equity);
    // the price rises by 1000: 0.01 * 1000 = 10
    engine.on_tick(d(51000, 0), 1001);
    assert_eq!(engine.unrealized_pnl(), d(10, 0));
}

#[test]
fn engine_unrealized_pnl_is_zero_when_flat() {
    let engine = TradingEngine::new_at("BTCUSDT".to_string(), d(100000, 0), 1000);
    assert_eq!(engine.unrealized_pnl(), Dec::zero());
}

#[test]
fn daily_bar_rebalances_after_the_interval() {
    let mut engine = TradingEngine::new_at("BTCUSDT".to_string(), d(100000, 0), 1000);
    engine.strategy_pool.register_strategy("main", d(50000, 0), 80);
    engine.on_tick(d(50000, 0), 30);
    engine.on_daily_kline_completed();
    assert_eq!(engine.strategy_pool.get_allocation("main").unwrap().allocated, d(50000, 0));
    engine.on_tick(d(50000, 0), 60);
    engine.on_daily_kline_completed();
    assert_eq!(engine.strategy_pool.get_allocation("main").unwrap().allocated, d(100000, 0));
    assert_eq!(engine.strategy_pool.last_update_ts, 60);
}

#[test]
fn test_engine_creation() {
    let engine = TradingEngine::new("BTCUSDT".to_string(), d(1000000, 1));
    assert_eq!(engine.circuit_state(), CircuitBreakerState::Normal);
    assert_eq!(engine.unrealized_pnl(), Dec::zero());
}

#[test]
fn test_engine_single_tick_processing() {
    let mut engine = TradingEngine::new("BTCUSDT".to_string(), d(1000000, 1));
    engine.on_tick(d(1000, 1), 1000);
    assert_eq!(engine.circuit_state(), CircuitBreakerState::Normal);
}

#[test]
fn test_engine_multiple_tick_processing() {
    let mut engine = TradingEngine::new("BTCUSDT".to_string(), d(1000000, 1));
    engine.on_tick(d(1000, 1), 1000);
    engine.on_tick(d(1005, 1), 1000);
    engine.on_tick(d(1010, 1), 1060);
    assert_eq!(engine.circuit_state(), CircuitBreakerState::Normal);
}

#[test]
fn test_circuit_breaker_trigger() {
    let mut engine = TradingEngine::new("BTCUSDT".to_string(), d(10000000, 1));
    for i in 0..20 {
        engine.on_tick(Dec::from_int(100 - i), 1000 + i);
    }
    match engine.circuit_state() {
        CircuitBreakerState::Normal => {}
        CircuitBreakerState::Partial => {}
        _ => panic!("Unexpected circuit state"),
    }
}

#[test]
fn test_position_opening() {
    let mut engine = TradingEngine::new("BTCUSDT".to_string(), d(1000000, 1));
    engine.on_tick(d(1000, 1), 1000);
    let order = OrderRequest {
        symbol: "BTCUSDT".to_string(),
        side: Side::Long,
        order_type: OrderType::Market,
        price: Some(d(1000, 1)),
        qty: d(10, 1),
    };
    let _result = engine.execute_order(order);
    assert_eq!(engine.circuit_state(), CircuitBreakerState::Normal);
}

#[test]
fn test_account_balance_tracking() {
    let mut engine = TradingEngine::new("BTCUSDT".to_string(), d(1000000, 1));
    for i in 0..5 {
        engine.on_tick(Dec::from_int(100 + i), 1000 + i);
    }
    let account = engine.account_info();
    assert!(account.total_equity().gt(&Dec::zero()));
}

#[test]
fn test_market_status_detection() {
    let mut engine = TradingEngine::new("BTCUSDT".to_string(), d(1000000, 1));
    for i in 0..10 {
        engine.on_tick(Dec::from_int(100 + i), 1000 + i);
    }
    match engine.market_status() {
        MarketStatus::TREND | MarketStatus::PIN => {}
        _ => panic!("Unexpected market status"),
    }
}

#[test]
fn test_strategy_pool_allocation() {
    let engine = TradingEngine::new("BTCUSDT".to_string(), d(1000000, 1));
    let pool = engine.strategy_pool_info();
    assert!(pool.total_allocated().ge(&Dec::zero()));
}
