use quant_engine::decimal::Dec;
use quant_engine::f_engine::business_types::{
    ChannelType, EngineErrorCode, FundPool, OrderInfo, OrderLifecycle, PositionSide,
    PriceControlOutput, RiskCheckResult, RiskState, StrategyQuery, StrategyResponse,
    VolatilityTier,
};
use quant_engine::f_engine::engine_state::{EngineMode, EngineState};
use quant_engine::f_engine::execution::{ExecutionConfig, OrderExecutor, StateSyncer, TradingPipeline};
use quant_engine::f_engine::fund_pool::FundPoolManager;
use quant_engine::f_engine::monitoring::{HealthChecker, TimeoutMonitor, TimeoutSeverity};
use quant_engine::f_engine::risk_manager::{RiskConfig, RiskManager};
use quant_engine::f_engine::rollback::{OrderRollbackHelper, RollbackManager};
use quant_engine::f_engine::state::TradeLock;
use quant_engine::f_engine::triggers::{DailyTrigger, MinuteTrigger, TriggerConfig, TriggerManager};
use quant_engine::f_engine::types::TradingAction;

fn d(m: i64, scale: u32) -> Dec {
    Dec::new(m, scale)
}

fn simulation_state() -> EngineState {
    EngineState::new_at(EngineMode::Simulation, 1_700_000_000, 4242)
}

fn long_response() -> StrategyResponse {
    StrategyResponse::execute(TradingAction::Long, d(1, 1), d(50000, 0), ChannelType::HighSpeed, "test")
}

#[test]
fn test_position_side() {
    assert!(PositionSide::LONG.is_long());
    assert!(!PositionSide::LONG.is_short());
    assert!(!PositionSide::LONG.is_flat());

    assert!(PositionSide::SHORT.is_short());
    assert!(!PositionSide::SHORT.is_long());

    assert!(PositionSide::NONE.is_flat());
    assert!(!PositionSide::NONE.is_long());
}

#[test]
fn test_volatility_tier() {
    assert_eq!(VolatilityTier::from_ratio(d(3, 0)), VolatilityTier::Low);
    assert_eq!(VolatilityTier::from_ratio(d(7, 0)), VolatilityTier::Medium);
    assert_eq!(VolatilityTier::from_ratio(d(15, 0)), VolatilityTier::High);
    assert_eq!(VolatilityTier::from_ratio(d(25, 0)), VolatilityTier::Extreme);
}

#[test]
fn volatility_tier_boundaries() {
    assert_eq!(VolatilityTier::from_ratio(d(5, 0)), VolatilityTier::Medium);
    assert_eq!(VolatilityTier::from_ratio(d(10, 0)), VolatilityTier::High);
    assert_eq!(VolatilityTier::from_ratio(d(20, 0)), VolatilityTier::Extreme);
}

#[test]
fn test_risk_state() {
    assert!(RiskState::Normal.can_trade());
    assert!(RiskState::Warning.can_trade());
    assert!(!RiskState::Risky.can_trade());
    assert!(!RiskState::Forbidden.can_trade());
}

#[test]
fn test_channel_type() {
    assert!(ChannelType::HighSpeed.is_high_speed());
    assert!(!ChannelType::HighSpeed.is_low_speed());

    assert!(ChannelType::LowSpeed.is_low_speed());
    assert!(!ChannelType::LowSpeed.is_high_speed());
}

#[test]
fn test_strategy_query() {
    let query = StrategyQuery::new(
        1234567890,
        d(10000, 0),
        RiskState::Normal,
        d(50000, 0),
        VolatilityTier::High,
        true,
        PositionSide::LONG,
        d(5, 1),
        d(49000, 0),
    );

    assert!(query.can_trade());
    assert!(query.has_valid_position());
}

#[test]
fn test_strategy_response_execute() {
    let response = long_response();

    assert!(response.should_execute);
    assert_eq!(response.action, TradingAction::Long);
    assert_eq!(response.quantity, d(1, 1));
}

#[test]
fn test_strategy_response_no_action() {
    let response = StrategyResponse::no_action("no signal");

    assert!(!response.should_execute);
    assert_eq!(response.action, TradingAction::Flat);
}

#[test]
fn test_risk_check_result() {
    let result = RiskCheckResult::new(true, true);
    assert!(result.both_passed());
    assert!(!result.pre_failed());
    assert!(!result.lock_failed());

    let result2 = RiskCheckResult::new(false, false);
    assert!(!result2.both_passed());
    assert!(result2.pre_failed());

    let result3 = RiskCheckResult::new(true, false);
    assert!(!result3.both_passed());
    assert!(result3.lock_failed());
}

#[test]
fn test_order_lifecycle() {
    let mut state = OrderLifecycle::Created;

    state = state.next();
    assert_eq!(state, OrderLifecycle::Sent);

    state = state.next();
    assert_eq!(state, OrderLifecycle::PartialFilled);

    state = state.next();
    assert_eq!(state, OrderLifecycle::Filled);

    assert!(OrderLifecycle::Filled.is_terminal());
    assert!(!OrderLifecycle::Sent.is_terminal());
    assert!(OrderLifecycle::Sent.is_active());
}

#[test]
fn test_order_info() {
    let mut order = OrderInfo::new(
        "order_123".to_string(),
        "BTC-USDT".to_string(),
        TradingAction::Long,
        d(1, 1),
        d(50000, 0),
        ChannelType::HighSpeed,
    );

    assert_eq!(order.lifecycle, OrderLifecycle::Created);
    assert_eq!(order.retry_count, 0);

    order.transition(OrderLifecycle::Sent);
    assert_eq!(order.lifecycle, OrderLifecycle::Sent);

    order.increment_retry();
    assert_eq!(order.retry_count, 1);
}

#[test]
fn test_fund_pool() {
    let mut pool = FundPool::new("test", d(10000, 0));

    assert_eq!(pool.available(), d(10000, 0));
    assert!(!pool.is_full());

    assert!(pool.freeze(d(3000, 0)));
    assert_eq!(pool.available(), d(7000, 0));

    pool.confirm_usage(d(2000, 0));
    assert_eq!(pool.used, d(2000, 0));
    assert_eq!(pool.frozen, d(1000, 0));
    assert_eq!(pool.available(), d(7000, 0));

    pool.release_frozen(d(1000, 0));
    assert_eq!(pool.frozen, d(0, 0));

    pool.rollback(d(500, 0));
    assert_eq!(pool.used, d(2000, 0));
}

#[test]
fn test_price_control_output() {
    let output = PriceControlOutput {
        should_add: true,
        should_stop: false,
        should_take_profit: true,
        should_move_stop: false,
        profit_distance_pct: d(5, 2),
        stop_distance_pct: d(2, 2),
    };

    assert!(output.any_action());
    assert!(!PriceControlOutput::new().any_action());
}

#[test]
fn test_engine_error_code() {
    assert_eq!(EngineErrorCode::SymbolExists.code(), 1001);
    assert_eq!(EngineErrorCode::InsufficientFunds.code(), 2001);
    assert_eq!(EngineErrorCode::RiskRejected.code(), 3001);
    assert_eq!(EngineErrorCode::Timeout.code(), 4001);
    assert_eq!(EngineErrorCode::StateInconsistent.code(), 5001);
}

#[test]
fn test_trigger_config_default() {
    let config = TriggerConfig::default();
    assert_eq!(config.minute_volatility_threshold, d(13, 0));
    assert_eq!(config.daily_entry_low_threshold, d(30, 0));
    assert_eq!(config.daily_entry_high_threshold, d(70, 0));
    assert_eq!(config.max_running_symbols, 10);
}

#[test]
fn test_minute_trigger_check() {
    let config = TriggerConfig::default();
    let trigger = MinuteTrigger::new(config);
    let engine_state = simulation_state();

    let result = trigger.check("BTC-USDT", d(10, 0), &engine_state);
    assert!(!result.precheck_passed);

    let result = trigger.check("BTC-USDT", d(15, 0), &engine_state);
    assert!(result.precheck_passed);
}

#[test]
fn test_daily_trigger_check() {
    let config = TriggerConfig::default();
    let trigger = DailyTrigger::new(config);
    let engine_state = simulation_state();

    let result = trigger.check("BTC-USDT", d(25, 0), true, false, &engine_state);
    assert!(result.precheck_passed);

    let result = trigger.check("BTC-USDT", d(75, 0), false, true, &engine_state);
    assert!(result.precheck_passed);

    let result = trigger.check("BTC-USDT", d(50, 0), false, false, &engine_state);
    assert!(!result.precheck_passed);
}

#[test]
fn test_trigger_manager() {
    let manager = TriggerManager::default();
    let config = &manager.minute_trigger().config;
    assert!(config.minute_volatility_threshold.gt(&d(0, 0)));
    assert!(config.daily_entry_low_threshold.gt(&d(0, 0)));
    assert_eq!(manager.daily_trigger().config.max_running_symbols, 10);
}

#[test]
fn test_execution_config_default() {
    let config = ExecutionConfig::default();
    assert_eq!(config.strategy_query_timeout_secs, 2);
    assert_eq!(config.lock_timeout_secs, 1);
    assert_eq!(config.order_timeout_secs, 10);
    assert_eq!(config.max_retry_count, 2);
    assert_eq!(config.order_interval_ms, 1000);
}

#[test]
fn test_order_executor_create_order() {
    let executor = OrderExecutor::default();

    let order = executor.create_order(
        "order_001".to_string(),
        "BTC-USDT".to_string(),
        TradingAction::Long,
        d(1, 1),
        d(50000, 0),
        ChannelType::HighSpeed,
    );

    assert_eq!(order.order_id, "order_001");
    assert_eq!(order.symbol, "BTC-USDT");
    assert_eq!(order.lifecycle, OrderLifecycle::Created);
}

#[test]
fn test_order_executor_transition() {
    let executor = OrderExecutor::default();
    let mut order = executor.create_order(
        "order_001".to_string(),
        "BTC-USDT".to_string(),
        TradingAction::Long,
        d(1, 1),
        d(50000, 0),
        ChannelType::HighSpeed,
    );

    executor.transition(&mut order, OrderLifecycle::Sent);
    assert_eq!(order.lifecycle, OrderLifecycle::Sent);

    executor.transition(&mut order, OrderLifecycle::Filled);
    assert_eq!(order.lifecycle, OrderLifecycle::Filled);
}

#[test]
fn test_trading_pipeline_build_query() {
    let pipeline = TradingPipeline::default();

    let query = pipeline.build_strategy_query(
        "BTC-USDT",
        d(10000, 0),
        RiskState::Normal,
        d(50000, 0),
        VolatilityTier::High,
        true,
        PositionSide::LONG,
        d(5, 1),
        d(49000, 0),
    );

    assert_eq!(query.current_price, d(50000, 0));
    assert!(query.has_valid_position());
}

#[test]
fn test_trading_pipeline_pre_check() {
    let pipeline = TradingPipeline::default();
    let response = long_response();

    assert!(pipeline.pre_check(&response, d(10000, 0)));
    assert!(!pipeline.pre_check(&response, d(0, 0)));
}

#[test]
fn test_trading_pipeline_lock_check() {
    let pipeline = TradingPipeline::default();
    let response = long_response();

    assert!(pipeline.lock_check(&response, d(50000, 0), d(50000, 0)));
    assert!(!pipeline.lock_check(&response, d(55000, 0), d(50000, 0)));
}

#[test]
fn test_state_syncer_sync_position() {
    let syncer = StateSyncer::new();

    let result = syncer.sync_position(d(5, 1), d(5, 1), d(50000, 0), d(50000, 0));
    assert!(result.is_ok());

    let result = syncer.sync_position(d(5, 1), d(6, 1), d(50000, 0), d(50000, 0));
    assert!(result.is_err());
}

#[test]
fn test_state_syncer_sync_account() {
    let syncer = StateSyncer::new();

    let result = syncer.sync_account(d(10000, 0), d(9990, 0));
    assert!(result.is_ok());

    let result = syncer.sync_account(d(10000, 0), d(9000, 0));
    assert!(result.is_err());
}

#[test]
fn test_fund_pool_manager() {
    let mut manager = FundPoolManager::new(d(10000, 0), d(20000, 0));

    assert_eq!(manager.available(ChannelType::HighSpeed), d(10000, 0));
    assert_eq!(manager.available(ChannelType::LowSpeed), d(20000, 0));

    assert!(manager.freeze(ChannelType::HighSpeed, d(3000, 0)));
    assert_eq!(manager.available(ChannelType::HighSpeed), d(7000, 0));

    assert!(manager.freeze(ChannelType::LowSpeed, d(5000, 0)));
    assert_eq!(manager.available(ChannelType::LowSpeed), d(15000, 0));

    manager.confirm_usage(ChannelType::HighSpeed, d(3000, 0));
    assert_eq!(manager.available(ChannelType::HighSpeed), d(7000, 0));

    manager.rollback(ChannelType::LowSpeed, d(5000, 0));
    assert_eq!(manager.available(ChannelType::LowSpeed), d(20000, 0));
}

#[test]
fn test_fund_pool_manager_insufficient() {
    let mut manager = FundPoolManager::new(d(1000, 0), d(2000, 0));

    assert!(!manager.freeze(ChannelType::HighSpeed, d(2000, 0)));
}

#[test]
fn test_fund_pool_usage_rate() {
    let mut manager = FundPoolManager::new(d(10000, 0), d(20000, 0));

    manager.freeze(ChannelType::HighSpeed, d(5000, 0));
    manager.confirm_usage(ChannelType::HighSpeed, d(5000, 0));

    let rate = manager.minute_usage_rate();
    assert_eq!(rate, d(5, 1));
}

#[test]
fn test_risk_config_default() {
    let config = RiskConfig::default();
    assert_eq!(config.pool_usage_threshold, d(8, 1));
    assert_eq!(config.max_running_symbols, 10);
}

#[test]
fn test_risk_manager_pre_check() {
    let fund_pool = FundPoolManager::new(d(10000, 0), d(20000, 0));
    let risk_manager = RiskManager::new(RiskConfig::default(), fund_pool);
    let response = long_response();

    let result = risk_manager.pre_check(&response, true, 5);
    assert!(result.pre_check_passed);

    let result = risk_manager.pre_check(&response, false, 5);
    assert!(!result.pre_check_passed);

    let result = risk_manager.pre_check(&response, true, 15);
    assert!(!result.pre_check_passed);
}

#[test]
fn test_risk_manager_lock_check() {
    let fund_pool = FundPoolManager::new(d(10000, 0), d(20000, 0));
    let risk_manager = RiskManager::new(RiskConfig::default(), fund_pool);
    let response = long_response();

    let result = risk_manager.lock_check(&response, d(50000, 0), d(0, 0), d(10000, 0));
    assert!(result.lock_check_passed);

    let result = risk_manager.lock_check(&response, d(55000, 0), d(0, 0), d(10000, 0));
    assert!(!result.lock_check_passed);
}

#[test]
fn test_timeout_monitor() {
    let mut monitor = TimeoutMonitor::new(10);

    monitor.record_activity("test_service");
    assert!(!monitor.is_timeout("test_service"));

    monitor.remove_service("test_service");
    assert!(monitor.is_timeout("test_service"));
}

#[test]
fn timeout_monitor_at_fixed_times() {
    let mut monitor = TimeoutMonitor::new(10);
    monitor.record_activity_at("feed", 100);
    assert!(!monitor.is_timeout_at("feed", 110));
    assert!(monitor.is_timeout_at("feed", 111));
    assert_eq!(monitor.get_timeout_services_at(111), vec!["feed".to_string()]);
    assert!(monitor.get_timeout_services_at(105).is_empty());
}

#[test]
fn test_health_checker() {
    let checker = HealthChecker::new(30, 180);

    assert_eq!(checker.check_interval_secs(), 30);
    assert_eq!(checker.service_timeout_secs(), 180);

    assert_eq!(checker.classify_timeout(100), TimeoutSeverity::Normal);
    assert_eq!(checker.classify_timeout(200), TimeoutSeverity::Mild);
    assert_eq!(checker.classify_timeout(1000), TimeoutSeverity::Severe);
}

#[test]
fn test_rollback_manager_order_failed() {
    let mut fund_pool = FundPoolManager::new(d(10000, 0), d(20000, 0));
    fund_pool.freeze(ChannelType::HighSpeed, d(5000, 0));

    let mut manager = RollbackManager::new(fund_pool);

    let result = manager.rollback_order(ChannelType::HighSpeed, d(5000, 0));
    assert!(result.success);

    assert_eq!(manager.fund_pool_manager().available(ChannelType::HighSpeed), d(10000, 0));
}

#[test]
fn test_rollback_manager_partial_fill() {
    let mut fund_pool = FundPoolManager::new(d(10000, 0), d(20000, 0));
    fund_pool.freeze(ChannelType::HighSpeed, d(5000, 0));

    let mut manager = RollbackManager::new(fund_pool);

    let result = manager.rollback_partial_fill(ChannelType::HighSpeed, d(2000, 0), d(5000, 0));
    assert!(result.success);

    assert_eq!(manager.fund_pool_manager().available(ChannelType::HighSpeed), d(8000, 0));
}

#[test]
fn test_order_rollback_helper() {
    let helper = OrderRollbackHelper::new("order_001".to_string(), ChannelType::HighSpeed, d(1, 1), d(50000, 0));

    assert_eq!(helper.order_id(), "order_001");
    assert_eq!(helper.channel_type(), ChannelType::HighSpeed);
    assert_eq!(helper.order_value(), d(5000, 0));
}

#[test]
fn test_trade_lock_try_lock() {
    let mut lock = TradeLock::new();

    assert!(lock.try_lock(1));
    assert!(lock.is_locked());

    assert!(!lock.try_lock(1));

    lock.unlock();
    assert!(!lock.is_locked());

    assert!(lock.try_lock(1));
}

#[test]
fn test_trade_lock_is_stale() {
    let mut lock = TradeLock::new();

    assert!(!lock.is_stale(100));

    lock.update(100, d(5, 1), d(50000, 0));

    assert!(lock.is_stale(100));
    assert!(lock.is_stale(50));
    assert!(!lock.is_stale(200));
}

#[test]
fn test_trade_lock_position() {
    let mut lock = TradeLock::new();

    lock.update(100, d(5, 1), d(50000, 0));

    assert_eq!(lock.position_qty(), d(5, 1));
    assert_eq!(lock.position_price(), d(50000, 0));
    assert_eq!(lock.position_value(), d(25000, 0));
}

#[test]
fn business_type_defaults() {
    assert_eq!(PositionSide::default(), PositionSide::NONE);
    assert_eq!(VolatilityTier::default(), VolatilityTier::Low);
    assert_eq!(RiskState::default(), RiskState::Normal);
    assert_eq!(ChannelType::default(), ChannelType::LowSpeed);
    assert_eq!(OrderLifecycle::default(), OrderLifecycle::Created);
    let check = RiskCheckResult::default();
    assert!(!check.pre_check_passed && !check.lock_check_passed);
    let output = PriceControlOutput::default();
    assert!(!output.any_action());
    assert_eq!(output.profit_distance_pct, d(0, 0));
    assert_eq!(output.stop_distance_pct, d(0, 0));
}

#[test]
fn trade_lock_default_is_unlocked() {
    let lock = TradeLock::default();
    assert!(!lock.is_locked_at(0));
}

#[test]
fn decimal_text_cuts_at_the_precision() {
    assert_eq!(d(12300, 2).to_text(), "123.00");
    assert_eq!(d(-5, 3).to_text(), "-0.005");
    assert_eq!(d(0, 2).to_text(), "0.00");
    assert_eq!(d(4950049, 2).to_text_prec(1), "49500.4");
    assert_eq!(d(5, 3).to_text_prec(2), "0.00");
    assert_eq!(d(7, 0).to_text_prec(3), "7.000");
    assert_eq!(d(25, 1).round(), d(2, 0));
    assert_eq!(d(35, 1).round().to_text(), "4");
}
