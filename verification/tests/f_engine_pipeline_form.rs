use quant_engine::decimal::Dec;
use quant_engine::engine::channel::{Bar, VolatilityChannel};
use quant_engine::engine::check_table::PineColor;
use quant_engine::engine::strategy_types::Signal;
use quant_engine::f_engine::pipeline_form::PipelineForm;

fn d(m: i64, scale: u32) -> Dec {
    Dec::new(m, scale)
}

#[test]
fn test_pipeline_form_creation() {
    let form = PipelineForm::new(
        "BTCUSDT".to_string(),
        "trend".to_string(),
        "1m".to_string(),
    );
    assert_eq!(form.symbol, "BTCUSDT");
    assert_eq!(form.strategy_id, "trend");
    assert_eq!(form.period, "1m");
}

#[test]
fn test_pipeline_form_builder() {
    let form = PipelineForm::new("BTCUSDT".to_string(), "trend".to_string(), "1m".to_string())
        .with_round_id(1)
        .with_price_data(
            d(50000, 0),
            d(10, 1),
            d(49000, 0),
            d(50000, 0),
            d(51000, 0),
            d(49000, 0),
        )
        .with_signal(Signal::LongEntry, 80, 4, 5);

    assert_eq!(form.round_id, 1);
    assert_eq!(form.tick_price, d(50000, 0));
    assert_eq!(form.final_signal, Signal::LongEntry);
    assert!(form.has_trade_signal());
}

#[test]
fn blank_form_is_zeroed_and_stamped() {
    let form = PipelineForm::new_at("ETHUSDT".to_string(), "s".to_string(), "tick".to_string(), 1234);
    assert_eq!(form.timestamp, 1234);
    assert_eq!(form.round_id, 0);
    assert_eq!(form.quantity, Dec::zero());
    assert_eq!(form.pine_color, PineColor::Purple);
    assert!(!form.risk_flag);
    assert!(form.reject_reason.is_none());
    assert!(!form.is_high_freq);
}

#[test]
fn risk_flag_blocks_trade_signal() {
    let form = PipelineForm::new_at("BTCUSDT".to_string(), "s".to_string(), "1m".to_string(), 0)
        .with_signal(Signal::ShortHedge, 80, 0, 0)
        .with_risk(true, Some("limit".to_string()));
    assert!(!form.has_trade_signal());
    assert!(!form.needs_exit());
    assert_eq!(form.reject_reason, Some("limit".to_string()));
}

#[test]
fn exit_signals_need_exit() {
    for s in [Signal::LongExit, Signal::ShortExit, Signal::ExitHighVol] {
        let form = PipelineForm::new_at("BTCUSDT".to_string(), "s".to_string(), "1m".to_string(), 0)
            .with_signal(s, 0, 0, 0);
        assert!(form.needs_exit());
        assert!(!form.has_trade_signal());
    }
    let entry = PipelineForm::new_at("BTCUSDT".to_string(), "s".to_string(), "1m".to_string(), 0)
        .with_signal(Signal::LongEntry, 0, 0, 0);
    assert!(!entry.needs_exit());
}

#[test]
fn channel_builds_and_records_a_form() {
    let mut ch = VolatilityChannel::new("BTCUSDT".to_string(), "trend".to_string());
    let bar = Bar { open: d(100, 0), close: d(102, 0), high: d(103, 0), low: d(99, 0) };
    let form = ch.build_pipeline_form(
        &bar,
        &d(102, 0),
        &d(5, 1),
        d(101, 0),
        d(100, 0),
        d(75, 0),
        PineColor::PureGreen,
        d(80, 0),
        true,
        7,
    );
    assert_eq!(form.period, "tick");
    assert_eq!(form.round_id, 7);
    assert_eq!(form.ema_signal, Signal::LongEntry);
    // 50 + 20 (pure green) + 10 (position above 70) + 10 (RSI above 70)
    assert_eq!(form.confidence, 90);
    assert_eq!(form.final_signal, Signal::LongEntry);
    assert_eq!(form.quantity, d(1, 3));
    assert_eq!(form.target_price, d(102, 0));
    assert_eq!(form.high_price, d(103, 0));

    ch.fill_check_entry(&form);
    let entry = ch.check_table().get("BTCUSDT", "trend", "tick").unwrap();
    assert_eq!(entry.round_id, 7);
    assert_eq!(entry.final_signal, Signal::LongEntry);
    assert!(entry.is_high_freq);

    let slow = ch.build_pipeline_form(
        &bar,
        &d(102, 0),
        &d(5, 1),
        d(99, 0),
        d(100, 0),
        d(50, 0),
        PineColor::Neutral,
        d(50, 0),
        false,
        8,
    );
    assert_eq!(slow.period, "1m");
    assert_eq!(slow.ema_signal, Signal::ShortEntry);
    assert_eq!(slow.confidence, 50);
    assert_eq!(slow.final_signal, Signal::LongExit);
}
