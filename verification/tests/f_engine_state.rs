use quant_engine::decimal::Dec;
use quant_engine::f_engine::strategy_loop::TraderHandle;
use quant_engine::f_engine::engine_state::{
    engine_id_text, CircuitBreaker, CircuitBreakerAction, CircuitBreakerConfig, EngineMetricsSnapshot,
    EngineMode, EngineState, EngineStatus, Environment, HealthStatus,
};

#[test]
fn test_engine_lifecycle() {
    let mut state = EngineState::new(EngineMode::Production, 1);

    assert_eq!(state.status(), EngineStatus::Initializing);
    assert!(!state.can_trade());

    state.start();
    assert_eq!(state.status(), EngineStatus::Running);
    assert!(state.can_trade());

    state.pause();
    assert!(!state.can_trade());

    state.resume();
    assert!(state.can_trade());

    state.stop();
    assert_eq!(state.status(), EngineStatus::Stopped);
    assert!(!state.can_trade());
}

#[test]
fn test_atomic_metrics() {
    let mut state = EngineState::new(EngineMode::Simulation, 1);

    state.record_tick();
    state.record_tick();
    state.record_signal();
    state.record_order_sent();
    state.record_order_filled();

    assert_eq!(state.tick_processed(), 2);
    assert_eq!(state.signal_generated(), 1);
    assert_eq!(state.fill_rate(), Dec::from_int(1));
}

#[test]
fn engine_state_test_circuit_breaker() {
    let config = CircuitBreakerConfig {
        max_consecutive_errors: 3,
        pause_duration_secs: 60,
        auto_resume: true,
    };
    let mut state = EngineState::with_circuit_breaker(EngineMode::Production, config, 1);

    assert!(!state.circuit_breaker().is_triggered());

    for _ in 0..3 {
        state.record_error();
    }

    let action = state.check_circuit_breaker();
    assert_eq!(action, CircuitBreakerAction::Pause);
    assert!(state.circuit_breaker().is_triggered());
    assert!(!state.can_trade());
}

#[test]
fn test_graceful_shutdown() {
    let mut state = EngineState::new(EngineMode::Production, 1);
    state.start();

    assert!(state.can_trade());

    state.start_shutdown();
    assert!(state.is_shutting_down());
    assert!(!state.can_trade());

    state.complete_shutdown();
    assert_eq!(state.status(), EngineStatus::Stopped);
}

#[test]
fn test_symbol_registration() {
    let mut state = EngineState::new(EngineMode::Simulation, 1);

    state.register_symbol("BTC-USDT");
    state.register_symbol("ETH-USDT");

    assert_eq!(state.symbol_count(), 2);
    assert!(state.has_symbol("BTC-USDT"));
    assert!(state.has_symbol("ETH-USDT"));

    state.unregister_symbol("BTC-USDT");
    assert_eq!(state.symbol_count(), 1);
    assert!(!state.has_symbol("BTC-USDT"));
}

#[test]
fn test_health_update() {
    let mut state = EngineState::new(EngineMode::Production, 1);

    assert_eq!(state.health(), HealthStatus::Healthy);

    for _ in 0..5 {
        state.record_error();
    }
    state.update_health();
    assert_eq!(state.health(), HealthStatus::Degraded);

    for _ in 0..5 {
        state.record_error();
    }
    state.update_health();
    assert_eq!(state.health(), HealthStatus::Unhealthy);
}

#[test]
fn test_engine_id() {
    let state = EngineState::new(EngineMode::Production, 1);
    assert!(state.engine_id().starts_with("engine_"));
}

#[test]
fn test_metrics_snapshot() {
    let mut state = EngineState::new(EngineMode::Backtest, 1);

    state.record_tick();
    state.record_order_sent();
    state.record_order_filled();

    let snapshot = state.metrics_snapshot();
    assert!(!snapshot.engine_id.is_empty());
    assert_eq!(snapshot.tick_processed, 1);
    assert_eq!(snapshot.order_sent, 1);
}

#[test]
fn test_self_check() {
    let state = EngineState::new(EngineMode::Production, 1);
    assert!(state.self_check().is_ok());
}

#[test]
fn engine_id_is_time_and_process() {
    let state = EngineState::new_at(EngineMode::Production, 1_700_000_000, 4321);
    assert_eq!(state.engine_id(), "engine_1700000000_4321");
    assert_eq!(engine_id_text(-5, 0), "engine_-5_0");
}

#[test]
fn rates_are_zero_before_orders() {
    let mut state = EngineState::new_at(EngineMode::Simulation, 0, 1);
    assert_eq!(state.fill_rate(), Dec::zero());
    assert_eq!(state.fail_rate(), Dec::zero());
    for _ in 0..4 {
        state.record_order_sent();
    }
    state.record_order_filled();
    state.record_order_failed();
    state.record_order_failed();
    state.record_order_failed();
    assert_eq!(state.fill_rate(), Dec::new(25, 2));
    assert_eq!(state.fail_rate(), Dec::new(75, 2));
}

#[test]
fn breaker_timestamps_follow_the_trip() {
    let config = CircuitBreakerConfig {
        max_consecutive_errors: 1,
        pause_duration_secs: 60,
        auto_resume: true,
    };
    let mut state = EngineState::with_circuit_breaker(EngineMode::Production, config, 1);
    state.record_error();
    assert_eq!(state.check_circuit_breaker_at(1000), CircuitBreakerAction::Pause);
    assert_eq!(state.circuit_breaker().triggered_at(), Some(1000));
    assert_eq!(state.circuit_breaker().scheduled_resume_at(), Some(1060));
    assert_eq!(state.check_circuit_breaker_at(1059), CircuitBreakerAction::NoAction);
    assert!(state.circuit_breaker().is_triggered());
    assert_eq!(state.check_circuit_breaker_at(1060), CircuitBreakerAction::NoAction);
    assert!(!state.circuit_breaker().is_triggered());
}

#[test]
fn symbol_state_changes_in_place() {
    let mut state = EngineState::new_at(EngineMode::Simulation, 0, 1);
    state.register_symbol("BTC-USDT");
    assert!(state.get_symbol_mut("ETH-USDT").is_none());
    state.get_symbol_mut("BTC-USDT").unwrap().record_1m_request(500);
    assert_eq!(state.get_symbol("BTC-USDT").unwrap().last_1m_request_ts(), 500);
    assert_eq!(state.symbol_count(), 1);
}

#[test]
fn trader_heartbeat_staleness() {
    let mut h = TraderHandle::new_at("BTCUSDT".to_string(), 1_000);
    assert!(!h.is_stale_at(31_000));
    assert!(h.is_stale_at(31_001));
    h.heartbeat_at(31_000);
    assert!(!h.is_stale_at(31_001));
    let fresh = TraderHandle::new("ETHUSDT".to_string());
    assert!(!fresh.is_stale());
    assert_eq!(fresh.load_restart_count(), 0);
}

#[test]
fn engine_state_defaults() {
    assert_eq!(EngineStatus::default(), EngineStatus::Initializing);
    assert_eq!(EngineMode::default(), EngineMode::Simulation);
    assert_eq!(Environment::default(), Environment::Development);
    assert_eq!(HealthStatus::default(), HealthStatus::Healthy);
    let config = CircuitBreakerConfig::default();
    assert_eq!(config.max_consecutive_errors, 5);
    assert_eq!(config.pause_duration_secs, 60);
    assert!(config.auto_resume);
    let breaker = CircuitBreaker::default();
    assert_eq!(breaker.consecutive_errors, 0);
    assert!(!breaker.is_triggered);
    assert!(breaker.triggered_at.is_none() && breaker.scheduled_resume_at.is_none());
    let snapshot = EngineMetricsSnapshot::default();
    assert!(snapshot.engine_id.is_empty());
    assert_eq!(snapshot.tick_processed + snapshot.order_sent + snapshot.order_failed, 0);
}
