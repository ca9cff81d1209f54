use quant_engine::decimal::Dec;
use quant_engine::f_engine::event_engine::{
    IndicatorCalculator, PineColor, check_risk, order_for_decision, EngineConfig, EngineState, GatewayError, OrderResult, OrderStatus,
};
use quant_engine::f_engine::types::{OrderRequest, OrderType, Side, TradingAction, TradingDecision};

fn d(m: i64, scale: u32) -> Dec {
    Dec::new(m, scale)
}

const NOW: i64 = 1_700_000_000;

fn decision(action: TradingAction, qty: Dec, price: Dec) -> TradingDecision {
    TradingDecision::new(action, "test", 80, "BTCUSDT".to_string(), qty, price, NOW)
}

#[test]
fn test_engine_config_default() {
    let config = EngineConfig::default();
    assert_eq!(config.symbol, "BTCUSDT");
    assert_eq!(config.initial_fund, d(10000, 0));
    assert_eq!(config.max_position, d(15, 2));
    assert_eq!(config.initial_ratio, d(5, 2));
    assert_eq!(config.lot_size, d(1, 3));
    assert!(config.enable_risk_check);
    assert!(config.enable_strategy);
}

#[test]
fn test_engine_state_default() {
    let state = EngineState::default();
    assert!(!state.has_position);
    assert_eq!(state.position_qty, Dec::zero());
    assert_eq!(state.tick_count, 0);
    assert_eq!(state.total_orders, 0);
    assert_eq!(state.filled_orders, 0);
    assert_eq!(state.rejected_orders, 0);
}

#[test]
fn test_trading_decision_creation() {
    let decision = TradingDecision::new(TradingAction::Long, "Test signal", 80, "BTCUSDT".to_string(), d(1, 2), d(50000, 0), NOW);

    assert_eq!(decision.action, TradingAction::Long);
    assert_eq!(decision.symbol, "BTCUSDT");
    assert_eq!(decision.qty, d(1, 2));
    assert!(decision.is_entry());
    assert!(!decision.is_exit());
}

#[test]
fn test_trading_decision_exit() {
    let decision = TradingDecision::new(TradingAction::Flat, "Exit signal", 100, "BTCUSDT".to_string(), d(1, 2), d(51000, 0), NOW);

    assert!(decision.is_exit());
    assert!(!decision.is_entry());
}

#[test]
fn test_trading_decision_short() {
    let decision = TradingDecision::new(TradingAction::Short, "Short signal", 75, "ETHUSDT".to_string(), d(1, 1), d(3000, 0), NOW);

    assert_eq!(decision.action, TradingAction::Short);
    assert!(decision.is_entry());
}

#[test]
fn test_order_request_market() {
    let order = OrderRequest::new_market("BTCUSDT".to_string(), Side::Buy, d(1, 2));

    assert_eq!(order.symbol, "BTCUSDT");
    assert_eq!(order.side, Side::Buy);
    assert_eq!(order.order_type, OrderType::Market);
    assert!(order.price.is_none());
}

#[test]
fn test_order_request_limit() {
    let order = OrderRequest::new_limit("ETHUSDT".to_string(), Side::Sell, d(1, 1), d(3000, 0));

    assert_eq!(order.symbol, "ETHUSDT");
    assert_eq!(order.side, Side::Sell);
    assert_eq!(order.order_type, OrderType::Limit);
    assert!(order.price.is_some());
    assert_eq!(order.price.unwrap(), d(3000, 0));
}

#[test]
fn test_order_request_fields() {
    let order = OrderRequest {
        symbol: "BTCUSDT".to_string(),
        side: Side::Buy,
        order_type: OrderType::Market,
        qty: d(5, 2),
        price: None,
    };

    assert_eq!(order.symbol, "BTCUSDT");
    assert_eq!(order.qty, d(5, 2));
}

#[test]
fn test_engine_config_custom() {
    let config = EngineConfig {
        symbol: "ETHUSDT".to_string(),
        initial_fund: d(50000, 0),
        max_position: d(2, 1),
        initial_ratio: d(1, 1),
        lot_size: d(1, 2),
        enable_risk_check: true,
        enable_strategy: true,
        log_timing: true,
    };

    assert_eq!(config.symbol, "ETHUSDT");
    assert_eq!(config.initial_fund, d(50000, 0));
    assert!(config.enable_risk_check);
    assert!(config.enable_strategy);
}

#[test]
fn test_engine_state_with_position() {
    let mut state = EngineState::default();
    state.has_position = true;
    state.position_qty = d(1, 1);
    state.position_price = d(50000, 0);
    state.position_side = Some(Side::Buy);

    assert!(state.has_position);
    assert_eq!(state.position_qty, d(1, 1));
    assert_eq!(state.position_side, Some(Side::Buy));
}

#[test]
fn test_trading_decision_zero_qty() {
    let decision = TradingDecision::new(TradingAction::Long, "Zero qty test", 50, "BTCUSDT".to_string(), d(0, 0), d(50000, 0), NOW);

    assert_eq!(decision.qty, d(0, 0));
}

#[test]
fn test_order_request_zero_price_limit() {
    let order = OrderRequest::new_limit("BTCUSDT".to_string(), Side::Buy, d(1, 2), d(0, 0));

    assert!(order.price.is_some());
    assert_eq!(order.price.unwrap(), d(0, 0));
}

#[test]
fn test_trading_decision_high_confidence() {
    let decision = TradingDecision::new(TradingAction::Long, "High confidence signal", 100, "BTCUSDT".to_string(), d(1, 2), d(50000, 0), NOW);

    assert_eq!(decision.confidence, 100);
}

#[test]
fn test_engine_state_tick_count_increment() {
    let mut state = EngineState::default();
    assert_eq!(state.tick_count, 0);

    state.record_tick(d(50000, 0));
    state.record_tick(d(50001, 0));
    assert_eq!(state.tick_count, 2);
    assert_eq!(state.current_price, Some(d(50001, 0)));
}

#[test]
fn test_order_side_values() {
    assert_eq!(Side::Buy, Side::Buy);
    assert_eq!(Side::Sell, Side::Sell);
    assert_ne!(Side::Buy, Side::Sell);
}

#[test]
fn test_trading_action_variants() {
    let actions = vec![
        TradingAction::Long,
        TradingAction::Short,
        TradingAction::Flat,
        TradingAction::Add,
        TradingAction::Reduce,
        TradingAction::Hedge,
        TradingAction::Wait,
    ];

    for action in actions {
        let decision = TradingDecision::new(action, "Test", 50, "BTCUSDT".to_string(), d(1, 2), d(50000, 0), NOW);
        assert_eq!(decision.action, action);
    }
}

#[test]
fn risk_check_rejects_small_and_far_orders() {
    let config = EngineConfig::default();
    let mut state = EngineState::default();
    state.record_tick(d(50000, 0));
    assert!(check_risk(&config, &state, &decision(TradingAction::Long, d(1, 2), d(50000, 0))));
    assert!(!check_risk(&config, &state, &decision(TradingAction::Long, d(1, 4), d(50000, 0))));
    assert!(!check_risk(&config, &state, &decision(TradingAction::Long, d(1, 2), d(56000, 0))));
    assert!(check_risk(&config, &state, &decision(TradingAction::Long, d(1, 2), d(55000, 0))));
}

#[test]
fn risk_check_blocks_adding_to_open_position() {
    let config = EngineConfig::default();
    let mut state = EngineState::default();
    state.has_position = true;
    state.position_side = Some(Side::Buy);
    assert!(!check_risk(&config, &state, &decision(TradingAction::Add, d(1, 2), d(0, 0))));
    assert!(check_risk(&config, &state, &decision(TradingAction::Short, d(1, 2), d(0, 0))));
}

#[test]
fn risk_check_limits_order_frequency() {
    let config = EngineConfig::default();
    let mut state = EngineState::default();
    state.total_orders = 1000;
    state.tick_count = 9999;
    assert!(!check_risk(&config, &state, &decision(TradingAction::Long, d(1, 2), d(0, 0))));
    state.tick_count = 10000;
    assert!(check_risk(&config, &state, &decision(TradingAction::Long, d(1, 2), d(0, 0))));
}

#[test]
fn decisions_become_market_orders() {
    let order = order_for_decision(&decision(TradingAction::Short, d(2, 0), d(100, 0))).unwrap();
    assert_eq!(order.side, Side::Sell);
    assert_eq!(order.order_type, OrderType::Market);
    assert_eq!(order.price, Some(d(100, 0)));
    assert!(order_for_decision(&decision(TradingAction::Flat, d(2, 0), d(100, 0))).is_none());
}

#[test]
fn submission_and_outcomes_are_counted() {
    let config = EngineConfig::default();
    let mut state = EngineState::default();
    let order = state.submit_decision(&config, &decision(TradingAction::Long, d(1, 2), d(0, 0)));
    assert!(order.is_some());
    assert_eq!(state.total_orders, 1);
    let flat = state.submit_decision(&config, &decision(TradingAction::Flat, d(1, 2), d(0, 0)));
    assert!(flat.is_none());
    assert_eq!(state.total_orders, 2);
    let refused = state.submit_decision(&config, &decision(TradingAction::Long, d(1, 5), d(0, 0)));
    assert!(refused.is_none());
    assert_eq!(state.total_orders, 2);

    let filled = OrderResult {
        order_id: "1".to_string(),
        status: OrderStatus::Filled,
        filled_qty: d(1, 2),
        filled_price: d(50000, 0),
        side: Side::Buy,
    };
    state.record_order_outcome(&Ok(filled));
    state.record_order_outcome(&Err(GatewayError::OrderFailed("timeout".to_string())));
    assert_eq!(state.filled_orders, 1);
    assert_eq!(state.rejected_orders, 1);
    assert_eq!(GatewayError::OrderFailed("timeout".to_string()).to_string(), "下单失败: timeout");
}

#[test]
fn indicator_calculator_first_prices() {
    let mut calc = IndicatorCalculator::default();
    let first = calc.update(d(100, 0)).unwrap();
    assert_eq!(first.ema_fast, Some(d(100, 0)));
    assert_eq!(first.ema_slow, Some(d(100, 0)));
    assert!(first.rsi.is_none());
    assert_eq!(first.volatility, d(0, 0));
    assert_eq!(first.pine_color, PineColor::Neutral);

    let second = calc.update(d(110, 0)).unwrap();
    let fast = second.ema_fast.unwrap();
    assert!(fast.gt(&d(10333, 2)) && fast.lt(&d(10334, 2)));
    let slow = second.ema_slow.unwrap();
    assert!(slow.gt(&d(10095, 2)) && slow.lt(&d(10096, 2)));
    assert_eq!(second.rsi, Some(d(50, 0)));
    assert_eq!(second.volatility, d(10, 0));
    assert_eq!(second.pine_color, PineColor::Green);

    let third = calc.update(d(105, 0)).unwrap();
    assert_eq!(third.rsi, Some(d(50, 0)));
    assert_eq!(calc.prev_price, Some(d(105, 0)));
}
