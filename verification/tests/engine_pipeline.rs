use quant_engine::decimal::Dec;
use quant_engine::engine::checkpoint::ConsoleCheckpointLogger;
use quant_engine::engine::mock_binance_gateway::{
    CsvWriter, GatewayChannelType, MockAccount, MockBinanceGateway, MockPosition, OrderStatus,
    PineColorState, RejectReason, RiskConfig, SignalSynthesisLayer,
};
use quant_engine::engine::pipeline::{
    DefaultIndicatorProcessor, DefaultRiskProcessor, DefaultStrategyProcessor,
    MockIndicatorProcessor, MockRiskProcessor, MockStrategyProcessor, NoOpLogger, Pipeline, Processor, Tick,
};
use quant_engine::engine::account_pool::AccountPool;
use quant_engine::engine::strategy_types::{DecisionAction, OrderRequest, OrderType, Side, Signal};

fn d(m: i64, scale: u32) -> Dec {
    Dec::new(m, scale)
}

fn make_tick(symbol: &str, price: Dec) -> Tick {
    Tick { symbol: symbol.to_string(), price, qty: d(10, 1), timestamp: 1_700_000_000 }
}

fn btc_market_order() -> OrderRequest {
    OrderRequest {
        symbol: "BTCUSDT".to_string(),
        side: Side::Long,
        order_type: OrderType::Market,
        qty: d(1, 3),
        price: Some(d(70000, 0)),
    }
}

#[test]
fn test_mock_account_creation() {
    let account = MockAccount::new("test".to_string(), d(1000000, 1));
    assert_eq!(account.total_equity, d(1000000, 1));
    assert_eq!(account.available, d(1000000, 1));
    assert_eq!(account.frozen_margin, d(0, 0));
}

#[test]
fn test_mock_position_pnl() {
    let mut position = MockPosition::new("BTCUSDT".to_string());
    position.long_qty = d(1, 1);
    position.long_avg_price = d(70000, 0);

    position.calc_unrealized_pnl(d(69000, 0));

    assert!(position.unrealized_pnl.lt(&d(0, 0)));
    assert_eq!(position.unrealized_pnl, d(-100, 0));
}

#[test]
fn test_channel_switch() {
    let mut synthesis = SignalSynthesisLayer::new();

    assert_eq!(synthesis.get_channel_type(), GatewayChannelType::Slow);

    assert!(synthesis.check_enter_high_volatility(d(15, 2), d(1, 2)));
    assert!(synthesis.check_enter_high_volatility(d(1, 2), d(5, 2)));

    synthesis.update_channel(GatewayChannelType::Fast, d(15, 1), d(6, 1), PineColorState::Green, 1000);

    assert!(!synthesis.check_exit_high_volatility(d(15, 1)));
    assert!(synthesis.check_exit_high_volatility(d(8, 1)));
}

#[test]
fn test_order_frequency_limit() {
    let mut gateway = MockBinanceGateway::new(d(1000000, 1), RiskConfig::default(), CsvWriter::default());

    for _ in 0..10 {
        let _ = gateway.place_order(btc_market_order());
    }

    let result = gateway.place_order(btc_market_order()).unwrap();
    assert_eq!(result.status, OrderStatus::Rejected);
    assert_eq!(result.reject_reason, Some(RejectReason::OrderFrequencyExceeded));
}

#[test]
fn gateway_fills_market_order_at_fixed_time() {
    let mut gateway = MockBinanceGateway::new_at(d(100000, 0), RiskConfig::default(), CsvWriter::default(), 1000);
    let result = gateway.place_order_at(btc_market_order(), 1000).unwrap();
    assert_eq!(result.status, OrderStatus::Filled);
    assert_eq!(result.filled_qty, d(1, 3));
    let position = gateway.get_position("BTCUSDT").unwrap();
    assert_eq!(position.long_qty, d(1, 3));
    assert!(gateway.get_account().available.lt(&d(100000, 0)));
}

#[test]
fn gateway_order_ids_never_repeat() {
    let mut gateway = MockBinanceGateway::new_at(d(100000, 0), RiskConfig::default(), CsvWriter::default(), 1000);
    let first = gateway.place_order_at(btc_market_order(), 1000).unwrap();
    let second = gateway.place_order_at(btc_market_order(), 1001).unwrap();
    assert_ne!(first.order_id, second.order_id);
    assert!(first.order_id.starts_with('O') && first.order_id.len() == 7);
    let trades = gateway.get_trades();
    assert_eq!(trades.len(), 2);
    assert_ne!(trades[0].trade_id, trades[1].trade_id);
}

fn pipeline_with(
    symbol: &str,
    indicator: MockIndicatorProcessor,
    strategy: MockStrategyProcessor,
    risk: MockRiskProcessor,
) -> Pipeline<MockIndicatorProcessor, MockStrategyProcessor, MockRiskProcessor> {
    Pipeline::new(symbol.to_string(), Box::new(NoOpLogger::new()), Box::new(indicator), Box::new(strategy), Box::new(risk))
}

#[test]
fn test_pipeline_long_entry_signal() {
    let mut pipeline = pipeline_with(
        "BTCUSDT",
        MockIndicatorProcessor::new_pass("EMA12=49500 EMA26=50000 RSI=55"),
        MockStrategyProcessor::new_pass(Signal::LongEntry, "Signal=BUY"),
        MockRiskProcessor::new_pass("margin_ratio=10%"),
    );

    let tick = make_tick("BTCUSDT", d(50000, 0));

    let result = pipeline.process(&tick);
    assert!(result.is_some());
    let order = result.unwrap();
    assert_eq!(order.symbol, "BTCUSDT");
    assert_eq!(order.side, Side::Long);
    assert_eq!(order.price, Some(d(50000, 0)));
    assert_eq!(order.qty, d(1, 1));
}

#[test]
fn test_pipeline_short_entry_signal() {
    let mut pipeline = pipeline_with(
        "BTCUSDT",
        MockIndicatorProcessor::new_pass("EMA12=50500 EMA26=50000 RSI=45"),
        MockStrategyProcessor::new_pass(Signal::ShortEntry, "Signal=SELL"),
        MockRiskProcessor::new_pass("margin_ratio=10%"),
    );

    let tick = make_tick("BTCUSDT", d(50000, 0));

    let result = pipeline.process(&tick);
    assert!(result.is_some());
    let order = result.unwrap();
    assert_eq!(order.symbol, "BTCUSDT");
    assert_eq!(order.side, Side::Short);
}

#[test]
fn test_pipeline_hedge_signal() {
    let mut pipeline = pipeline_with(
        "BTCUSDT",
        MockIndicatorProcessor::new_pass("EMA12=49000 EMA26=50000"),
        MockStrategyProcessor::new_pass(Signal::LongHedge, "Hedge=BUY"),
        MockRiskProcessor::new_pass("OK"),
    );

    let tick = make_tick("BTCUSDT", d(50000, 0));

    let result = pipeline.process(&tick);
    assert!(result.is_some());
    assert_eq!(result.unwrap().side, Side::Long);
}

#[test]
fn test_pipeline_hold_signal_no_order() {
    let mut pipeline = pipeline_with(
        "BTCUSDT",
        MockIndicatorProcessor::new_pass("EMA12=50000"),
        MockStrategyProcessor::new_hold(),
        MockRiskProcessor::new_pass("OK"),
    );

    let tick = make_tick("BTCUSDT", d(50000, 0));

    let result = pipeline.process(&tick);
    assert!(result.is_none());
}

#[test]
fn test_pipeline_indicator_blocked() {
    let mut pipeline = pipeline_with(
        "BTCUSDT",
        MockIndicatorProcessor::new_blocking("EMA 计算超时"),
        MockStrategyProcessor::new_pass(Signal::LongEntry, "Signal=BUY"),
        MockRiskProcessor::new_pass("OK"),
    );

    let tick = make_tick("BTCUSDT", d(50000, 0));

    let result = pipeline.process(&tick);
    assert!(result.is_none());

    assert!(pipeline.check_table().get("BTCUSDT", "main", "1m").is_none());
}

#[test]
fn test_pipeline_strategy_blocked() {
    let mut pipeline = pipeline_with(
        "BTCUSDT",
        MockIndicatorProcessor::new_pass("EMA12=49500"),
        MockStrategyProcessor::new_blocking("TR_RATIO < 1"),
        MockRiskProcessor::new_pass("OK"),
    );

    let tick = make_tick("BTCUSDT", d(50000, 0));

    let result = pipeline.process(&tick);
    assert!(result.is_none());
}

#[test]
fn test_pipeline_risk_blocked() {
    let mut pipeline = pipeline_with(
        "BTCUSDT",
        MockIndicatorProcessor::new_pass("EMA12=49500"),
        MockStrategyProcessor::new_pass(Signal::LongEntry, "Signal=BUY"),
        MockRiskProcessor::new_blocking("保证金不足"),
    );

    let tick = make_tick("BTCUSDT", d(50000, 0));

    let result = pipeline.process(&tick);
    assert!(result.is_none());
}

#[test]
fn test_pipeline_with_console_logger() {
    let mut pipeline = Pipeline::new(
        "ETHUSDT".to_string(),
        Box::new(ConsoleCheckpointLogger::new()),
        Box::new(MockIndicatorProcessor::new_pass("EMA=3000")),
        Box::new(MockStrategyProcessor::new_pass(Signal::LongEntry, "Signal=BUY")),
        Box::new(MockRiskProcessor::new_pass("OK")),
    );

    let tick = make_tick("ETHUSDT", d(3000, 0));

    let result = pipeline.process(&tick);
    assert!(result.is_some());
}

#[test]
fn test_pipeline_console_logger_blocked() {
    let mut pipeline = Pipeline::new(
        "BTCUSDT".to_string(),
        Box::new(ConsoleCheckpointLogger::new()),
        Box::new(MockIndicatorProcessor::new_blocking("指标失败")),
        Box::new(MockStrategyProcessor::new_pass(Signal::LongEntry, "Signal=BUY")),
        Box::new(MockRiskProcessor::new_pass("OK")),
    );

    let tick = make_tick("BTCUSDT", d(50000, 0));

    let result = pipeline.process(&tick);
    assert!(result.is_none());
}

#[test]
fn test_pipeline_with_default_processors() {
    let mut pipeline = Pipeline::new(
        "BTCUSDT".to_string(),
        Box::new(NoOpLogger::new()),
        Box::new(DefaultIndicatorProcessor::new()),
        Box::new(DefaultStrategyProcessor::new()),
        Box::new(DefaultRiskProcessor::new()),
    );

    let tick = make_tick("BTCUSDT", d(50000, 0));

    let result = pipeline.process(&tick);
    assert!(result.is_none());
}

#[test]
fn test_pipeline_with_noop_logger() {
    let mut pipeline = Pipeline::new(
        "BTCUSDT".to_string(),
        Box::new(NoOpLogger::new()),
        Box::new(DefaultIndicatorProcessor::new()),
        Box::new(DefaultStrategyProcessor::new()),
        Box::new(DefaultRiskProcessor::new()),
    );

    let tick = make_tick("BTCUSDT", d(50000, 0));

    let result = pipeline.process(&tick);
    assert!(result.is_none());
}

#[test]
fn stopped_stages_give_no_order_even_with_an_entry() {
    let mut pipeline = pipeline_with(
        "BTCUSDT",
        MockIndicatorProcessor::new_pass("ok"),
        MockStrategyProcessor::new_pass(Signal::LongEntry, "Signal=BUY"),
        MockRiskProcessor::new_blocking("too risky"),
    );
    let tick = make_tick("BTCUSDT", d(50000, 0));
    assert!(pipeline.process(&tick).is_none());
    // the strategy stage wrote its entry before the risk stage stopped the tick
    assert!(pipeline.order_after_stages(true).is_some());
    assert!(pipeline.order_after_stages(false).is_none());
    let entry = pipeline.check_table().get("BTCUSDT", "main", "1m").unwrap();
    assert_eq!(entry.final_signal, Signal::LongEntry);
    assert_eq!(entry.round_id, 1);
}

#[test]
fn pipeline_runs_boxed_trait_object_stages() {
    let indicator: Box<dyn Processor> = Box::new(MockIndicatorProcessor::new_pass("ok"));
    let strategy: Box<dyn Processor> = Box::new(MockStrategyProcessor::new_pass(Signal::ShortHedge, "Hedge=SELL"));
    let risk: Box<dyn Processor> = Box::new(DefaultRiskProcessor::new());
    let mut pipeline: Pipeline<dyn Processor, dyn Processor, dyn Processor> =
        Pipeline::new("BTCUSDT".to_string(), Box::new(NoOpLogger::new()), indicator, strategy, risk);
    let tick = make_tick("BTCUSDT", d(42000, 0));
    let order = pipeline.process(&tick).unwrap();
    assert_eq!(order.side, Side::Short);
    assert_eq!(order.price, Some(d(42000, 0)));
    assert_eq!(order.qty, d(1, 1));
}

#[test]
fn refused_orders_fill_nothing_and_leave_the_books() {
    let mut gateway = MockBinanceGateway::new_at(d(1000000, 1), RiskConfig::default(), CsvWriter::default(), 1000);
    for _ in 0..10 {
        let _ = gateway.place_order_at(btc_market_order(), 1000);
    }
    let trades_before = gateway.get_trades().len();
    let available_before = gateway.get_account().available;
    let result = gateway.place_order_at(btc_market_order(), 1000).unwrap();
    assert_eq!(result.status, OrderStatus::Rejected);
    assert_eq!(result.reject_reason, Some(RejectReason::OrderFrequencyExceeded));
    assert_eq!(result.filled_qty, d(0, 0));
    assert_eq!(result.commission, d(0, 0));
    assert_eq!(gateway.get_trades().len(), trades_before);
    assert_eq!(gateway.get_account().available, available_before);
}

#[test]
fn synthesis_opens_the_minute_quantity_and_closes_opposite_positions() {
    let synthesis = SignalSynthesisLayer::new();
    let pool = AccountPool::with_config(d(1000000, 1), d(20, 2), d(10, 2));
    let open = synthesis.synthesize(Signal::LongEntry, None, d(50000, 0), "BTCUSDT", &pool, d(10, 0), d(10, 0));
    assert_eq!(open.action, DecisionAction::OpenLong);
    assert_eq!(open.qty, d(1, 1));
    assert_eq!(open.price, d(50000, 0));
    let close = synthesis.synthesize(Signal::LongEntry, Some(Side::Short), d(50000, 0), "BTCUSDT", &pool, d(10, 0), d(10, 0));
    assert_eq!(close.action, DecisionAction::CloseShort);
    assert_eq!(close.qty, d(0, 0));
    let checked = synthesis
        .synthesize_checked(Signal::ShortEntry, None, d(50000, 0), "BTCUSDT", &pool, d(10, 0), d(10, 0))
        .unwrap();
    assert_eq!(checked.action, DecisionAction::OpenShort);
    assert_eq!(checked.qty, d(1, 1));
    assert!(synthesis
        .synthesize_checked(Signal::ShortEntry, None, d(50000, 0), "BTCUSDT", &pool, d(10, 0), d(0, 0))
        .is_none());
}
