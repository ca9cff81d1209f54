use quant_engine::decimal::Dec;
use quant_engine::f_engine::engine_manager::{EngineError, EngineManagerConfig};
use quant_engine::f_engine::interfaces::{MarketDataAdapter, SourceKLine, SourcePeriod, SourceTick};
use quant_engine::f_engine::state::SymbolState;

fn d(m: i64, scale: u32) -> Dec {
    Dec::new(m, scale)
}

fn kline(period: SourcePeriod) -> SourceKLine {
    SourceKLine {
        symbol: "BTCUSDT".to_string(),
        period,
        open: d(100, 0),
        high: d(110, 0),
        low: d(90, 0),
        close: d(105, 0),
        volume: d(25, 1),
        timestamp: 1_700_000_000,
    }
}

#[test]
fn kline_periods_are_named() {
    assert_eq!(MarketDataAdapter::adapt_kline(&kline(SourcePeriod::Minute(1)), true).period, "1m");
    assert_eq!(MarketDataAdapter::adapt_kline(&kline(SourcePeriod::Minute(15)), false).period, "15m");
    assert_eq!(MarketDataAdapter::adapt_kline(&kline(SourcePeriod::Day), true).period, "1d");
}

#[test]
fn kline_fields_carry_over() {
    let k = MarketDataAdapter::adapt_kline(&kline(SourcePeriod::Minute(5)), false);
    assert_eq!(k.symbol, "BTCUSDT");
    assert_eq!(k.open, d(100, 0));
    assert_eq!(k.high, d(110, 0));
    assert_eq!(k.low, d(90, 0));
    assert_eq!(k.close, d(105, 0));
    assert_eq!(k.volume, d(25, 1));
    assert_eq!(k.timestamp, 1_700_000_000);
    assert!(!k.is_closed);
}

#[test]
fn tick_fields_carry_over() {
    let t = SourceTick { symbol: "ETHUSDT".to_string(), price: d(3000, 0), qty: d(5, 1), timestamp: 42 };
    let m = MarketDataAdapter::adapt_tick(&t);
    assert_eq!(m.symbol, "ETHUSDT");
    assert_eq!(m.price, d(3000, 0));
    assert_eq!(m.qty, d(5, 1));
    assert_eq!(m.timestamp, 42);
}

#[test]
fn engine_manager_defaults() {
    let c = EngineManagerConfig::default();
    assert_eq!(c.heartbeat_timeout_secs, 30);
    assert_eq!(c.max_restart_count, 3);
    assert_eq!(c.restart_interval_secs, 5);
}

#[test]
fn engine_manager_error_messages() {
    assert_eq!(EngineError::AlreadyExists("a".to_string()).to_string(), "组件 a 已存在");
    assert_eq!(EngineError::NotFound("b".to_string()).to_string(), "组件 b 不存在");
    assert_eq!(EngineError::RestartLimitExceeded("c".to_string()).to_string(), "组件 c 重启次数超限");
    assert_eq!(
        EngineError::ShutdownFailed("d".to_string(), "timeout".to_string()).to_string(),
        "组件 d 关闭失败: timeout"
    );
}

#[test]
fn symbol_state_getters() {
    let mut s = SymbolState::new("BTCUSDT".to_string());
    assert_eq!(s.symbol(), "BTCUSDT");
    assert_eq!(s.timeout_secs(), 60);
    assert_eq!(s.bound_at(), None);
    assert!(s.last_1m_signal().is_none());
    assert!(s.last_daily_signal().is_none());
    assert_eq!(s.last_1m_request_ts(), 0);
    s.record_1m_request(100);
    assert_eq!(s.last_1m_request_ts(), 100);
    assert_eq!(s.metrics().fill_rate(), Dec::zero());
    s.record_order_sent();
    s.record_order_sent();
    s.record_order_filled();
    assert_eq!(s.metrics().fill_rate(), d(5, 1));
    assert_eq!(s.metrics().last_order_time(), None);
    assert_eq!(s.metrics().last_signal_time(), None);
}
