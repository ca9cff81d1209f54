use quant_engine::decimal::Dec;
use quant_engine::engine::account_pool::{AccountPool, CircuitBreakerState};
use quant_engine::engine::minute_risk::{
    calculate_hour_open_notional, calculate_hour_open_notional_checked, calculate_minute_open_notional,
    calculate_minute_open_notional_checked, calculate_open_qty_from_notional,
    calculate_open_qty_from_notional_checked,
};
use quant_engine::engine::pnl_manager::PnlManager;
use quant_engine::engine::position_manager::{Direction, LocalPositionManager};

fn d(m: i64, scale: u32) -> Dec {
    Dec::new(m, scale)
}

fn pool_100k(circuit: Dec, partial: Dec) -> AccountPool {
    AccountPool::with_config(d(1000000, 1), circuit, partial)
}

#[test]
fn test_account_pool_basic() {
    let pool = AccountPool::with_config(d(100000, 0), d(20, 2), d(10, 2));

    assert_eq!(pool.available(), d(100000, 0));
    assert_eq!(pool.circuit_state(), CircuitBreakerState::Normal);
}

#[test]
fn test_freeze_and_deduct() {
    let mut pool = AccountPool::new();
    pool.freeze(d(10000, 0)).unwrap();
    assert_eq!(pool.available(), d(90000, 0));

    pool.deduct_margin(d(10000, 0)).unwrap();
    assert_eq!(pool.margin_used(), d(10000, 0));
}

#[test]
fn account_pool_test_circuit_breaker() {
    let mut pool = AccountPool::with_config(d(100000, 0), d(10, 2), d(5, 2));

    pool.update_equity(d(-8000, 0), 1000);
    assert_eq!(pool.circuit_state(), CircuitBreakerState::Partial);

    pool.update_equity(d(-7000, 0), 2000);
    assert_eq!(pool.circuit_state(), CircuitBreakerState::Full);
}

#[test]
fn test_cannot_trade_when_circuit() {
    let mut pool = AccountPool::new();
    pool.update_equity(d(-25000, 0), 1000);

    assert!(!pool.can_trade(d(1000, 0)));
}

#[test]
fn freeze_beyond_available_is_refused() {
    let mut pool = AccountPool::with_config(d(1000, 0), d(20, 2), d(10, 2));
    assert!(pool.freeze(d(1001, 0)).is_err());
    assert_eq!(pool.available(), d(1000, 0));
}

#[test]
fn freeze_then_unfreeze_restores_available() {
    let mut pool = AccountPool::new();
    let before = pool.available();
    pool.freeze(d(2500, 0)).unwrap();
    pool.unfreeze(d(2500, 0));
    assert_eq!(pool.available(), before);
}

#[test]
fn reset_circuit_allows_trading_again() {
    let mut pool = AccountPool::new();
    pool.update_equity(d(-25000, 0), 1000);
    assert_eq!(pool.circuit_state(), CircuitBreakerState::Full);
    pool.reset_circuit();
    assert_eq!(pool.circuit_state(), CircuitBreakerState::Normal);
}

#[test]
fn test_calculate_minute_open_notional_basic() {
    let pool = pool_100k(d(20, 2), d(10, 2));

    let result = calculate_minute_open_notional(&pool, d(10, 0), d(10, 0));

    assert_eq!(result.effective_margin, d(1000000, 1));
    assert_eq!(result.total_available_margin, d(800000, 1));
    assert_eq!(result.total_new_open_margin, d(120000, 1));
    assert_eq!(result.target_symbol_count, d(50, 0));
    assert_eq!(result.actual_notional_per_symbol, d(50000, 1));
    assert!(result.meets_min_threshold);
}

#[test]
fn test_calculate_minute_open_notional_with_loss() {
    let mut pool = pool_100k(d(20, 2), d(10, 2));

    pool.update_equity(d(-100000, 1), 1000);

    let result = calculate_minute_open_notional(&pool, d(10, 0), d(10, 0));

    assert_eq!(result.effective_margin, d(900000, 1));
    assert_eq!(result.total_available_margin, d(720000, 1));
    assert_eq!(result.total_new_open_margin, d(108000, 1));
    assert_eq!(result.actual_notional_per_symbol, d(50000, 1));
}

#[test]
fn test_calculate_open_qty_from_notional() {
    let qty = calculate_open_qty_from_notional(
        d(12000, 1),
        d(500000, 1),
        d(1, 3),
        d(1, 3),
        3,
        d(50, 1),
    );

    assert_eq!(qty, d(24, 3));
}

#[test]
fn test_minute_zero_symbols() {
    let pool = pool_100k(d(20, 2), d(10, 2));

    let result = calculate_minute_open_notional(&pool, d(0, 0), d(10, 0));

    assert_eq!(result.actual_notional_per_symbol, d(50, 1));
}

#[test]
fn test_hour_open_notional_basic() {
    let pool = pool_100k(d(20, 2), d(10, 2));

    let result = calculate_hour_open_notional(&pool, d(10, 0), d(10, 0));

    assert_eq!(result.effective_margin, d(1000000, 1));
    assert_eq!(result.total_available_margin, d(800000, 1));
    assert_eq!(result.total_new_open_margin, d(240000, 1));
    assert_eq!(result.actual_notional_per_symbol, d(24000, 1));
    assert!(result.meets_min_threshold);
}

#[test]
fn test_open_long() {
    let mut mgr = LocalPositionManager::new();
    mgr.open_position(Direction::Long, d(1, 0), d(50000, 0), 1000);

    assert_eq!(mgr.qty(), d(1, 0));
    assert_eq!(mgr.avg_price(), d(50000, 0));
    assert_eq!(mgr.direction(), Direction::Long);
}

#[test]
fn test_add_to_position() {
    let mut mgr = LocalPositionManager::new();
    mgr.open_position(Direction::Long, d(1, 0), d(50000, 0), 1000);
    mgr.open_position(Direction::Long, d(1, 0), d(51000, 0), 1001);

    assert_eq!(mgr.qty(), d(2, 0));
    assert_eq!(mgr.avg_price(), d(50500, 0));
}

#[test]
fn test_close_position() {
    let mut mgr = LocalPositionManager::new();
    mgr.open_position(Direction::Long, d(1, 0), d(50000, 0), 1000);

    let pnl = mgr.close_position(d(5, 1), d(51000, 0));
    assert_eq!(pnl, d(500, 0));
    assert_eq!(mgr.qty(), d(5, 1));
}

#[test]
fn close_all_flattens_position() {
    let mut mgr = LocalPositionManager::new();
    mgr.open_position(Direction::Short, d(2, 0), d(100, 0), 1);
    let pnl = mgr.close_all(d(90, 0));
    assert_eq!(pnl, d(20, 0));
    assert!(!mgr.has_position());
}

#[test]
fn test_unrealized_pnl_long() {
    let mut mgr = LocalPositionManager::new();
    mgr.open_position(Direction::Long, d(1, 0), d(50000, 0), 1000);

    let pnl = mgr.unrealized_pnl(d(51000, 0));
    assert_eq!(pnl, d(1000, 0));
}

#[test]
fn test_unrealized_pnl_short() {
    let mut mgr = LocalPositionManager::new();
    mgr.open_position(Direction::Short, d(1, 0), d(50000, 0), 1000);

    let pnl = mgr.unrealized_pnl(d(49000, 0));
    assert_eq!(pnl, d(1000, 0));
}

#[test]
fn test_calculate_realized_pnl_long() {
    let manager = PnlManager::new();
    let pnl = manager.calculate_realized_pnl("long", d(1, 0), d(50000, 0), d(51000, 0));
    assert_eq!(pnl, d(1000, 0));
}

#[test]
fn test_calculate_realized_pnl_short() {
    let manager = PnlManager::new();
    let pnl = manager.calculate_realized_pnl("short", d(1, 0), d(50000, 0), d(49000, 0));
    assert_eq!(pnl, d(1000, 0));
}

#[test]
fn test_unrealized_pnl() {
    let mut manager = PnlManager::new();
    manager.update_unrealized_pnl("BTC", d(500, 0));
    manager.update_unrealized_pnl("ETH", d(200, 0));
    assert_eq!(manager.get_unrealized_pnl("BTC"), d(500, 0));
    assert_eq!(manager.total_unrealized_pnl(), d(700, 0));
}

#[test]
fn unrealized_pnl_overwrites_previous_value() {
    let mut manager = PnlManager::new();
    manager.update_unrealized_pnl("BTC", d(500, 0));
    manager.update_unrealized_pnl("BTC", d(-300, 0));
    assert_eq!(manager.get_unrealized_pnl("BTC"), d(-300, 0));
    assert_eq!(manager.get_unrealized_pnl("DOGE"), d(0, 0));
}

#[test]
fn test_should_close_profit() {
    let manager = PnlManager::new();
    let (should_close, reason) = manager.should_close_position(d(1500, 0), d(10000, 0), d(10, 2), d(5, 2));
    assert!(should_close);
    assert_eq!(reason, "profit_target_reached");
}

#[test]
fn test_should_close_loss() {
    let manager = PnlManager::new();
    let (should_close, reason) = manager.should_close_position(d(-800, 0), d(10000, 0), d(10, 2), d(5, 2));
    assert!(should_close);
    assert_eq!(reason, "stop_loss_triggered");
}

#[test]
fn should_close_rejects_non_positive_entry_value() {
    let manager = PnlManager::new();
    let (should_close, reason) = manager.should_close_position(d(100, 0), d(0, 0), d(10, 2), d(5, 2));
    assert!(!should_close);
    assert_eq!(reason, "entry_value_invalid");
}

#[test]
fn checked_sizing_agrees_where_it_computes() {
    let pool = pool_100k(d(20, 2), d(10, 2));
    let minute = calculate_minute_open_notional(&pool, d(10, 0), d(10, 0));
    let checked = calculate_minute_open_notional_checked(&pool, d(10, 0), d(10, 0)).unwrap();
    assert_eq!(checked.total_new_open_margin, minute.total_new_open_margin);
    assert_eq!(checked.actual_notional_per_symbol, minute.actual_notional_per_symbol);
    assert_eq!(checked.remaining_margin, minute.remaining_margin);
    assert_eq!(checked.meets_min_threshold, minute.meets_min_threshold);
    let hour = calculate_hour_open_notional_checked(&pool, d(10, 0), d(10, 0)).unwrap();
    assert_eq!(hour.total_new_open_margin, d(240000, 1));
    assert_eq!(hour.actual_notional_per_symbol, d(24000, 1));
    assert!(hour.meets_min_threshold);
}

#[test]
fn checked_sizing_refuses_a_zero_leverage() {
    let pool = pool_100k(d(20, 2), d(10, 2));
    assert!(calculate_minute_open_notional_checked(&pool, d(10, 0), d(0, 0)).is_none());
    assert!(calculate_hour_open_notional_checked(&pool, d(10, 0), d(0, 0)).is_none());
}

#[test]
fn checked_open_qty_from_notional() {
    let checked = calculate_open_qty_from_notional_checked(d(12000, 1), d(500000, 1), d(1, 3), d(1, 3), 3, d(50, 1), 10);
    assert_eq!(checked, Some(d(24, 3)));
    // 0.001 at 1 is worth 0.001; reaching 5 takes thousands of steps.
    assert_eq!(calculate_open_qty_from_notional_checked(d(1, 3), d(1, 0), d(1, 3), d(1, 3), 3, d(50, 1), 100), None);
    assert_eq!(calculate_open_qty_from_notional_checked(d(0, 0), d(1, 0), d(1, 3), d(1, 3), 3, d(50, 1), 0), Some(d(1, 3)));
}
