use quant_engine::decimal::Dec;
use quant_engine::engine::check_table::{CheckEntry, CheckTable, PineColor};
use quant_engine::engine::market_status::{MarketStatus, MarketStatusDetector, PinIntensity};
use quant_engine::engine::order_check::OrderCheck;
use quant_engine::engine::risk::VolatilityMode;
use quant_engine::engine::risk_rechecker::RiskReChecker;
use quant_engine::engine::strategy_pool::StrategyPool;
use quant_engine::engine::strategy_types::Signal;
use quant_engine::engine::symbol_rules::SymbolRules;

fn d(m: i64, scale: u32) -> Dec {
    Dec::new(m, scale)
}

#[test]
fn test_register_strategy() {
    let mut pool = StrategyPool::new();
    pool.register_strategy("trend", d(50000, 0), 80);

    let alloc = pool.get_allocation("trend").unwrap();
    assert_eq!(alloc.allocated, d(50000, 0));
    assert_eq!(alloc.priority, 80);
    assert!(alloc.enabled);
}

#[test]
fn test_reserve_margin() {
    let mut pool = StrategyPool::new();
    pool.register_strategy("trend", d(50000, 0), 80);

    pool.reserve_margin("trend", d(10000, 0)).unwrap();

    let alloc = pool.get_allocation("trend").unwrap();
    assert_eq!(alloc.used, d(10000, 0));
    assert_eq!(alloc.available, d(40000, 0));
}

#[test]
fn test_release_margin() {
    let mut pool = StrategyPool::new();
    pool.register_strategy("trend", d(50000, 0), 80);

    pool.reserve_margin("trend", d(10000, 0)).unwrap();
    pool.release_margin("trend", d(5000, 0)).unwrap();

    let alloc = pool.get_allocation("trend").unwrap();
    assert_eq!(alloc.used, d(5000, 0));
    assert_eq!(alloc.available, d(45000, 0));
}

#[test]
fn release_margin_of_unknown_strategy_fails() {
    let mut pool = StrategyPool::new();
    assert!(pool.release_margin("ghost", d(1, 0)).is_err());
    assert!(pool.reserve_margin("ghost", d(1, 0)).is_err());
}

#[test]
fn test_rebalance() {
    let mut pool = StrategyPool::new();
    pool.register_strategy("trend", d(50000, 0), 80);
    pool.register_strategy("martin", d(30000, 0), 60);

    pool.reserve_margin("trend", d(10000, 0)).unwrap();

    pool.rebalance(d(80000, 0), 1000);

    let trend = pool.get_allocation("trend").unwrap();
    let martin = pool.get_allocation("martin").unwrap();

    assert!(trend.allocated.gt(&d(45000, 0)));
    assert!(martin.allocated.lt(&d(35000, 0)));
}

#[test]
fn test_disable_strategy() {
    let mut pool = StrategyPool::new();
    pool.register_strategy("trend", d(50000, 0), 80);

    pool.set_enabled("trend", false);

    assert!(!pool.can_open_position("trend", d(1000, 0)));
}

#[test]
fn test_order_pre_check_pass() {
    let checker = OrderCheck::new();
    let result = checker.pre_check("order_1", "BTC", "trend", d(1000, 0), d(10000, 0), d(0, 0));
    assert!(result.passed);
    assert_eq!(result.frozen_amount, d(1000, 0));
}

#[test]
fn test_order_pre_check_insufficient_balance() {
    let checker = OrderCheck::new();
    let result = checker.pre_check("order_1", "BTC", "trend", d(1000, 0), d(500, 0), d(0, 0));
    assert!(!result.passed);
    assert!(result.reject_reason.is_some());
}

#[test]
fn test_order_pre_check_min_notional() {
    let checker = OrderCheck::new();
    let result = checker.pre_check("order_1", "BTC", "trend", d(5, 0), d(10000, 0), d(0, 0));
    assert!(!result.passed);
    assert!(result.reject_reason.unwrap().contains("名义价值"));
}

#[test]
fn test_reserve_and_confirm() {
    let mut checker = OrderCheck::new();
    checker.reserve("order_1", "BTC", "trend", d(1000, 0)).unwrap();
    assert_eq!(checker.total_frozen(), d(1000, 0));

    let released = checker.confirm_reservation("order_1").unwrap();
    assert_eq!(released, d(1000, 0));
    assert_eq!(checker.total_frozen(), d(0, 0));
}

#[test]
fn test_reserve_and_cancel() {
    let mut checker = OrderCheck::new();
    checker.reserve("order_1", "BTC", "trend", d(1000, 0)).unwrap();
    assert_eq!(checker.total_frozen(), d(1000, 0));

    let released = checker.cancel_reservation("order_1").unwrap();
    assert_eq!(released, d(1000, 0));
    assert_eq!(checker.total_frozen(), d(0, 0));
}

#[test]
fn test_duplicate_reserve() {
    let mut checker = OrderCheck::new();
    checker.reserve("order_1", "BTC", "trend", d(1000, 0)).unwrap();
    let result = checker.reserve("order_1", "BTC", "trend", d(1000, 0));
    assert!(result.is_err());
}

#[test]
fn cancel_of_unknown_reservation_fails() {
    let mut checker = OrderCheck::new();
    assert!(checker.cancel_reservation("nothing").is_err());
    assert!(checker.confirm_reservation("nothing").is_err());
    assert_eq!(checker.reservation_count(), 0);
}

#[test]
fn test_risk_re_checker_basic() {
    let checker = RiskReChecker::new();
    let result = checker.re_check(d(10000, 0), d(1000, 0), d(50000, 0), d(49500, 0), VolatilityMode::Normal);
    assert!(result.is_ok());
}

#[test]
fn test_risk_re_checker_insufficient_fund() {
    let checker = RiskReChecker::new();
    let result = checker.re_check(d(500, 0), d(1000, 0), d(50000, 0), d(49500, 0), VolatilityMode::Normal);
    assert!(result.is_err());
}

#[test]
fn test_risk_re_checker_price_deviation() {
    let checker = RiskReChecker::new();
    let result = checker.re_check(d(10000, 0), d(1000, 0), d(55000, 0), d(49500, 0), VolatilityMode::Normal);
    assert!(result.is_err());
}

#[test]
fn test_volatility_realtime() {
    let checker = RiskReChecker::new();
    let result = checker.check_volatility_realtime(d(52500, 0), d(50000, 0), d(53000, 0), d(49000, 0));
    assert!(result.is_ok());
}

#[test]
fn test_risk_re_checker_extreme_volatility_mode() {
    let checker = RiskReChecker::new();
    let result = checker.re_check(d(10000, 0), d(1000, 0), d(50000, 0), d(49500, 0), VolatilityMode::Extreme);
    assert!(result.is_err());
    let err = result.unwrap_err();
    assert!(err.to_string().contains("极端波动模式"));
}

#[test]
fn test_risk_re_checker_high_volatility_mode_rejected() {
    let checker = RiskReChecker::new();
    let result = checker.re_check(d(10000, 0), d(5000, 0), d(50000, 0), d(49500, 0), VolatilityMode::High);
    assert!(result.is_err());
    let err = result.unwrap_err();
    assert!(err.to_string().contains("高波动模式"));
}

#[test]
fn test_risk_re_checker_high_volatility_mode_pass() {
    let checker = RiskReChecker::new();
    let result = checker.re_check(d(10000, 0), d(3000, 0), d(50000, 0), d(49500, 0), VolatilityMode::High);
    assert!(result.is_ok());
}

#[test]
fn test_volatility_realtime_exceeded() {
    let checker = RiskReChecker::new();
    let result = checker.check_volatility_realtime(d(53000, 0), d(50000, 0), d(54000, 0), d(49000, 0));
    assert!(result.is_err());
    let err = result.unwrap_err();
    assert!(err.to_string().contains("实时波动率"));
}

#[test]
fn test_volatility_realtime_zero_open_price() {
    let checker = RiskReChecker::new();
    let result = checker.check_volatility_realtime(d(50000, 0), d(0, 0), d(53000, 0), d(49000, 0));
    assert!(result.is_ok());
}

#[test]
fn test_order_value_exceeds_balance() {
    let checker = RiskReChecker::new();
    let result = checker.check_order_value(d(15000, 0), d(10000, 0));
    assert!(result.is_err());
    let err = result.unwrap_err();
    assert!(err.to_string().contains("超过可用资金"));
}

#[test]
fn test_order_value_exceeds_90_percent() {
    let checker = RiskReChecker::new();
    let result = checker.check_order_value(d(9500, 0), d(10000, 0));
    assert!(result.is_err());
    let err = result.unwrap_err();
    assert!(err.to_string().contains("超过 90%"));
}

#[test]
fn test_order_value_boundary() {
    let checker = RiskReChecker::new();
    let result = checker.check_order_value(d(9000, 0), d(10000, 0));
    assert!(result.is_ok());
}

#[test]
fn test_risk_re_checker_zero_reference_price() {
    let checker = RiskReChecker::new();
    let result = checker.re_check(d(10000, 0), d(1000, 0), d(50000, 0), d(0, 0), VolatilityMode::Normal);
    assert!(result.is_ok());
}

#[test]
fn test_detect_pin_weak() {
    let detector = MarketStatusDetector::new();
    let pin = detector.detect_pin(d(25, 1), d(1, 2), d(5, 0), d(5, 1));
    assert_eq!(pin.intensity, PinIntensity::WEAK);
    assert!(pin.is_down);
}

#[test]
fn test_detect_pin_strong() {
    let detector = MarketStatusDetector::new();
    let pin = detector.detect_pin(d(30, 1), d(8, 2), d(3, 0), d(15, 1));
    assert_eq!(pin.intensity, PinIntensity::STRONG);
}

#[test]
fn test_detect_market_status_trend() {
    let detector = MarketStatusDetector::new();
    let status = detector.detect(d(5, 1), d(10, 1), d(2, 2), d(50, 0), true, 0, 100);
    assert_eq!(status, MarketStatus::TREND);
}

#[test]
fn test_detect_market_status_invalid() {
    let detector = MarketStatusDetector::new();
    let status = detector.detect(d(5, 1), d(10, 1), d(2, 2), d(50, 0), false, 0, 100);
    assert_eq!(status, MarketStatus::INVALID);
}

#[test]
fn test_detect_trend() {
    let detector = MarketStatusDetector::new();
    let (is_trending, direction) = detector.detect_trend(d(50500, 0), d(50000, 0), "green");
    assert!(is_trending);
    assert_eq!(direction, "up");
}

#[test]
fn test_symbol_rules_basic() {
    let rules = SymbolRules::new("BTCUSDT".to_string());
    assert_eq!(rules.symbol, "BTCUSDT");
    assert_eq!(rules.price_precision, 2);
    assert_eq!(rules.quantity_precision, 6);
}

#[test]
fn test_effective_min_qty() {
    let rules = SymbolRules::new("BTCUSDT".to_string());
    let min_qty = rules.effective_min_qty();
    assert!(min_qty.gt(&d(0, 0)));
}

#[test]
fn test_round_price() {
    let rules = SymbolRules::new("BTCUSDT".to_string());
    let price = rules.round_price(d(68000123456, 6));
    assert_eq!(price, d(6800012, 2));
}

#[test]
fn test_round_qty() {
    let rules = SymbolRules::new("BTCUSDT".to_string());
    let qty = rules.round_qty(d(123456, 9));
    assert!(qty.ge(&rules.effective_min_qty()));
}

#[test]
fn test_validate_order() {
    let rules = SymbolRules::new("BTCUSDT".to_string());
    assert!(rules.validate_order(d(50000, 0), d(1, 3)));
    assert!(!rules.validate_order(d(50000, 0), d(1, 7)));
}

#[test]
fn test_calculate_open_qty() {
    let rules = SymbolRules::new("BTCUSDT".to_string());
    let qty = rules.calculate_open_qty(d(100, 1), d(500000, 1));
    assert!(qty.gt(&d(0, 0)));
    assert!(rules.validate_order(d(500000, 1), qty));
}

fn btc_entry(round_id: u64) -> CheckEntry {
    CheckEntry {
        symbol: "BTCUSDT".to_string(),
        strategy_id: "trend".to_string(),
        period: "1m".to_string(),
        ema_signal: Signal::LongEntry,
        rsi_value: d(60, 0),
        pine_color: PineColor::PureGreen,
        price_position: d(75, 0),
        final_signal: Signal::LongEntry,
        target_price: d(50000, 0),
        quantity: d(1, 1),
        risk_flag: false,
        timestamp: 1_700_000_000,
        round_id,
        is_high_freq: false,
    }
}

#[test]
fn test_check_table_basic() {
    let mut table = CheckTable::new();
    assert_eq!(table.current_round_id(), 0);

    let round_id = table.next_round_id();
    assert_eq!(round_id, 1);

    table.fill(btc_entry(round_id));
    assert!(table.get("BTCUSDT", "trend", "1m").is_some());
}

#[test]
fn check_table_fill_replaces_same_key() {
    let mut table = CheckTable::new();
    table.fill(btc_entry(1));
    let mut second = btc_entry(2);
    second.risk_flag = true;
    table.fill(second);
    let got = table.get("BTCUSDT", "trend", "1m").unwrap();
    assert_eq!(got.round_id, 2);
    assert_eq!(table.get_high_risk().len(), 1);
    assert_eq!(table.get_by_strategy("trend").len(), 1);
    assert!(table.get("BTCUSDT", "trend", "5m").is_none());
}

#[test]
fn frozen_total_is_the_sum_of_pending_reservations() {
    let mut checker = OrderCheck::new();
    checker.reserve("a", "BTC", "trend", d(1000, 0)).unwrap();
    checker.reserve("b", "ETH", "trend", d(2505, 1)).unwrap();
    checker.reserve("c", "SOL", "grid", d(75, 2)).unwrap();
    assert_eq!(checker.total_frozen(), d(125125, 2));
    assert_eq!(checker.confirm_reservation("b").unwrap(), d(2505, 1));
    assert_eq!(checker.total_frozen(), d(100075, 2));
    assert_eq!(checker.cancel_reservation("a").unwrap(), d(1000, 0));
    assert_eq!(checker.total_frozen(), d(75, 2));
    let pending = checker.get_pending_reservations();
    assert_eq!(pending.len(), 1);
    assert_eq!(pending[0].frozen_amount, checker.total_frozen());
}

#[test]
fn checked_open_qty_agrees_and_gives_up_past_its_steps() {
    let rules = SymbolRules::new("BTCUSDT".to_string());
    assert_eq!(rules.effective_min_qty_checked(1_000_000), Some(rules.effective_min_qty()));
    let qty = rules.calculate_open_qty(d(100, 1), d(500000, 1));
    assert_eq!(rules.calculate_open_qty_checked(d(100, 1), d(500000, 1), 1_000_000), Some(qty));
    // At a price of 0.000001 the minimum value needs millions of steps of 0.000001.
    assert_eq!(rules.calculate_open_qty_checked(d(1, 6), d(1, 6), 3), None);
}
