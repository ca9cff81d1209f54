use quant_engine::decimal::Dec;
use quant_engine::f_engine::driven_engine::{calc_ema, calc_rsi, EventDrivenEngine, Tick};
use quant_engine::f_engine::types::{OrderType, Side, TradingAction, TradingDecision};

fn d(m: i64, scale: u32) -> Dec {
    Dec::new(m, scale)
}

fn prices(v: &[i64]) -> Vec<Dec> {
    v.iter().map(|p| Dec::from_int(*p)).collect()
}

fn tick(symbol: &str, price: Dec) -> Tick {
    Tick { symbol: symbol.to_string(), price }
}

/// 100, then alternately up 3 and down 2: a rising zigzag.
fn zigzag(n: usize) -> Vec<Dec> {
    let mut out = Vec::new();
    let mut p: i64 = 100;
    out.push(Dec::from_int(p));
    for i in 1..n {
        p += if i % 2 == 1 { 3 } else { -2 };
        out.push(Dec::from_int(p));
    }
    out
}

#[test]
fn ema_of_no_prices_is_zero() {
    assert_eq!(calc_ema(&Vec::new(), 5), Some(Dec::zero()));
}

#[test]
fn ema_with_half_factor() {
    // period 3: k = 2 / 4 = 0.5
    assert_eq!(calc_ema(&prices(&[10]), 3), Some(d(10, 0)));
    assert_eq!(calc_ema(&prices(&[10, 20]), 3), Some(d(15, 0)));
    assert_eq!(calc_ema(&prices(&[10, 20, 30]), 3), Some(d(225, 1)));
}

#[test]
fn ema_with_unit_factor_follows_the_price() {
    // period 1: k = 1
    assert_eq!(calc_ema(&prices(&[10, 20, 30]), 1), Some(d(30, 0)));
}

#[test]
fn rsi_without_falls_is_hundred() {
    assert_eq!(calc_rsi(&prices(&[1, 2, 3, 4])), Some(d(100, 0)));
    assert_eq!(calc_rsi(&prices(&[5])), Some(d(100, 0)));
}

#[test]
fn rsi_without_rises_is_zero() {
    assert_eq!(calc_rsi(&prices(&[4, 3, 2, 1])), Some(Dec::zero()));
}

#[test]
fn rsi_of_mixed_moves() {
    // rises 2 + 2 = 4, falls 1: 100 - 100 / (1 + 4) = 80, up to rounding
    let r = calc_rsi(&prices(&[10, 12, 11, 13])).unwrap();
    assert!(r.gt(&d(7999, 2)) && r.lt(&d(8001, 2)));
}

#[test]
fn risk_check_turns_decisions_into_market_orders() {
    let engine = EventDrivenEngine::new("BTCUSDT".to_string());
    let long = TradingDecision::new(TradingAction::Long, "x", 80, "BTCUSDT".to_string(), d(1, 2), d(100, 0), 0);
    let o = engine.check_risk(&long).unwrap();
    assert_eq!(o.side, Side::Buy);
    assert_eq!(o.order_type, OrderType::Market);
    assert_eq!(o.qty, d(1, 2));
    assert_eq!(o.price, Some(d(100, 0)));
    let flat = TradingDecision::new(TradingAction::Flat, "x", 80, "BTCUSDT".to_string(), d(1, 2), d(100, 0), 0);
    assert_eq!(engine.check_risk(&flat).unwrap().side, Side::Sell);
    let empty = TradingDecision::new(TradingAction::Long, "x", 80, "BTCUSDT".to_string(), Dec::zero(), d(100, 0), 0);
    assert!(engine.check_risk(&empty).is_none());
}

#[test]
fn no_decision_before_twenty_prices() {
    let mut engine = EventDrivenEngine::new("BTCUSDT".to_string());
    for p in zigzag(19) {
        assert!(engine.on_tick_at(&tick("BTCUSDT", p), 1000));
    }
    assert_eq!(engine.stats().total_orders, 0);
    assert!(engine.decide_at(&tick("BTCUSDT", d(110, 0)), 1000).is_none());
}

#[test]
fn rising_zigzag_goes_long() {
    let mut engine = EventDrivenEngine::new("BTCUSDT".to_string());
    let series = zigzag(20);
    let last = series[19].clone();
    for p in series {
        assert!(engine.on_tick_at(&tick("BTCUSDT", p), 1000));
    }
    assert_eq!(engine.stats().total_orders, 1);
    let decision = engine.decide_at(&tick("BTCUSDT", last.clone()), 1234).unwrap();
    assert_eq!(decision.action, TradingAction::Long);
    assert_eq!(decision.reason, "EMA金叉");
    assert_eq!(decision.confidence, 80);
    assert_eq!(decision.qty, d(1, 2));
    assert_eq!(decision.price, last);
    assert_eq!(decision.timestamp, 1234);
}

#[test]
fn history_keeps_the_latest_hundred() {
    let mut engine = EventDrivenEngine::new("ETHUSDT".to_string());
    for i in 0..105 {
        assert!(engine.on_tick_at(&tick("ETHUSDT", Dec::from_int(i)), 0));
    }
    let ind = &engine.indicators[0].1;
    assert_eq!(ind.price_history.len(), 100);
    assert_eq!(ind.price_history[0], Dec::from_int(5));
    assert_eq!(ind.price_history[99], Dec::from_int(104));
}

#[test]
fn symbols_are_kept_apart() {
    let mut engine = EventDrivenEngine::new("BTCUSDT".to_string());
    assert!(engine.on_tick_at(&tick("BTCUSDT", d(1, 0)), 0));
    assert!(engine.on_tick_at(&tick("ETHUSDT", d(2, 0)), 0));
    assert!(engine.on_tick_at(&tick("BTCUSDT", d(3, 0)), 0));
    assert_eq!(engine.indicators.len(), 2);
    assert_eq!(engine.indicators[0].1.price_history.len(), 2);
    assert_eq!(engine.indicators[1].1.price_history.len(), 1);
}
