use quant_engine::decimal::Dec;
use quant_engine::f_engine::business_types::{ChannelType, OrderInfo};
use quant_engine::f_engine::engine_state::EngineStatus;
use quant_engine::f_engine::engine_v2::{TradingEngineConfig, TradingEngineV2, TradingError};
use quant_engine::f_engine::types::TradingAction;

fn d(m: i64, scale: u32) -> Dec {
    Dec::new(m, scale)
}

fn engine() -> TradingEngineV2 {
    TradingEngineV2::new_at(TradingEngineConfig::default(), 1_700_000_000, 4242)
}

#[test]
fn engine_v2_refuses_ticks_until_started() {
    let mut e = engine();
    assert_eq!(e.status(), EngineStatus::Initializing);
    let r = e.process_tick_at("BTCUSDT", d(50000, 0), d(20, 0), d(0, 0), d(0, 0), 1_700_000_000, 1_700_000_000_000);
    assert!(matches!(r, Err(TradingError::EngineNotRunning)));
    assert_eq!(TradingError::EngineNotRunning.to_string(), "引擎未运行");
}

#[test]
fn engine_v2_running_tick_yields_no_order() {
    let mut e = engine();
    e.start_at(1_700_000_000);
    assert!(e.can_trade());
    let r = e.process_tick_at("BTCUSDT", d(50000, 0), d(20, 0), d(0, 0), d(0, 0), 1_700_000_001, 1_700_000_001_000);
    assert!(matches!(r, Ok(None)));
    let (minute, daily) = e.fund_status();
    assert_eq!(minute, d(10000, 0));
    assert_eq!(daily, d(20000, 0));
}

#[test]
fn engine_v2_fill_and_failure_bookkeeping() {
    let mut e = engine();
    let order = OrderInfo::new(
        "ord_1".to_string(),
        "BTCUSDT".to_string(),
        TradingAction::Long,
        d(1, 1),
        d(10000, 0),
        ChannelType::HighSpeed,
    );
    assert!(e.rollback_manager.fund_pool_manager.freeze(ChannelType::HighSpeed, d(1000, 0)));
    e.handle_failure(&order, "rejected");
    assert_eq!(e.circuit_breaker_status().consecutive_errors, 1);
    assert_eq!(e.fund_status().0, d(10000, 0));

    assert!(e.rollback_manager.fund_pool_manager.freeze(ChannelType::HighSpeed, d(1000, 0)));
    assert!(e.handle_fill(&order, d(10000, 0), d(1, 1)).is_ok());
    let status = e.circuit_breaker_status();
    assert_eq!(status.consecutive_errors, 0);
    assert!(!status.is_triggered);
    assert_eq!(e.fund_status().0, d(9000, 0));
    e.stop();
    assert_eq!(e.status(), EngineStatus::Stopped);
}
