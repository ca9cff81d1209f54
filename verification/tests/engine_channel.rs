use quant_engine::decimal::Dec;
use quant_engine::engine::channel::{BarPrices, ChannelType, VolatilityChannel};

fn d(m: i64, scale: u32) -> Dec {
    Dec::new(m, scale)
}

fn bar(open: Dec, close: Dec) -> Option<BarPrices> {
    Some(BarPrices { open, close })
}

fn new_channel() -> VolatilityChannel {
    VolatilityChannel::new("BTCUSDT".to_string(), "test".to_string())
}

/// One tick: the minute and fifteen-minute bars as they stand after it, whether a
/// minute bar was completed by it; returns (completed, form due, is_high).
fn on_tick(
    channel: &mut VolatilityChannel,
    bar_1m: Option<BarPrices>,
    bar_15m: Option<BarPrices>,
    completed: bool,
) -> (bool, bool, bool) {
    let is_high = channel.check_volatility(&bar_1m, &bar_15m);
    let form = channel.switch_channel(completed, is_high);
    (completed, form.is_some(), is_high)
}

#[test]
fn test_channel_switch_to_high_on_1m_volatility() {
    let mut channel = new_channel();
    assert_eq!(channel.current_channel(), ChannelType::Slow);

    let (completed, form, is_high) = on_tick(&mut channel, bar(d(1000, 1), d(1000, 1)), bar(d(1000, 1), d(1000, 1)), false);
    assert!(!completed);
    assert!(!form);
    assert!(!is_high);
    assert_eq!(channel.current_channel(), ChannelType::Slow);

    let (completed, form, is_high) = on_tick(&mut channel, bar(d(1000, 1), d(1035, 1)), bar(d(1000, 1), d(1035, 1)), false);
    assert!(!completed);
    assert!(form);
    assert!(is_high);
    assert_eq!(channel.current_channel(), ChannelType::High);
}

#[test]
fn test_channel_switch_to_high_on_15m_volatility() {
    let mut channel = new_channel();
    assert_eq!(channel.current_channel(), ChannelType::Slow);

    on_tick(&mut channel, bar(d(1000, 1), d(1000, 1)), bar(d(1000, 1), d(1000, 1)), false);

    let (completed, form, is_high) = on_tick(&mut channel, bar(d(1000, 1), d(1150, 1)), bar(d(1000, 1), d(1150, 1)), false);
    assert!(!completed);
    assert!(form);
    assert!(is_high);
    assert_eq!(channel.current_channel(), ChannelType::High);
}

#[test]
fn test_channel_switch_to_slow_on_low_volatility() {
    let mut channel = new_channel();

    on_tick(&mut channel, bar(d(1000, 1), d(1000, 1)), bar(d(1000, 1), d(1000, 1)), false);
    on_tick(&mut channel, bar(d(1000, 1), d(1035, 1)), bar(d(1000, 1), d(1035, 1)), false);
    assert_eq!(channel.current_channel(), ChannelType::High);

    let (completed, form, is_high) = on_tick(&mut channel, bar(d(1035, 1), d(1035, 1)), bar(d(1000, 1), d(1035, 1)), true);
    assert!(completed);
    assert!(!is_high);
    if form {
        assert_eq!(channel.current_channel(), ChannelType::Slow);
    }
}

#[test]
fn test_channel_stay_slow_on_low_volatility() {
    let mut channel = new_channel();
    assert_eq!(channel.current_channel(), ChannelType::Slow);

    on_tick(&mut channel, bar(d(1000, 1), d(1000, 1)), bar(d(1000, 1), d(1000, 1)), false);

    let (completed, form, is_high) = on_tick(&mut channel, bar(d(1000, 1), d(1010, 1)), bar(d(1000, 1), d(1010, 1)), false);
    assert!(!completed);
    assert!(!form);
    assert!(!is_high);
    assert_eq!(channel.current_channel(), ChannelType::Slow);
}

#[test]
fn test_channel_rapid_switching() {
    let mut channel = new_channel();
    assert_eq!(channel.current_channel(), ChannelType::Slow);

    on_tick(&mut channel, bar(d(1000, 1), d(1000, 1)), bar(d(1000, 1), d(1000, 1)), false);
    on_tick(&mut channel, bar(d(1000, 1), d(1035, 1)), bar(d(1000, 1), d(1035, 1)), false);
    assert_eq!(channel.current_channel(), ChannelType::High);

    on_tick(&mut channel, bar(d(1035, 1), d(1035, 1)), bar(d(1000, 1), d(1035, 1)), true);
    assert_eq!(channel.current_channel(), ChannelType::Slow);

    on_tick(&mut channel, bar(d(1035, 1), d(1070, 1)), bar(d(1000, 1), d(1070, 1)), false);
    assert_eq!(channel.current_channel(), ChannelType::High);
}

#[test]
fn test_volatility_calculation_1m() {
    let channel = new_channel();
    let is_high = channel.check_volatility(&bar(d(1000, 1), d(1040, 1)), &bar(d(1000, 1), d(1040, 1)));
    assert!(is_high);
}

#[test]
fn test_volatility_calculation_15m() {
    let channel = new_channel();
    let is_high = channel.check_volatility(&bar(d(1000, 1), d(1020, 1)), &bar(d(1000, 1), d(1140, 1)));
    assert!(is_high);
}

#[test]
fn volatility_needs_both_bars() {
    let channel = new_channel();
    assert!(!channel.check_volatility(&bar(d(100, 0), d(200, 0)), &None));
    assert!(!channel.check_volatility(&None, &bar(d(100, 0), d(200, 0))));
}

#[test]
fn completed_minute_starts_round_without_switch() {
    let mut channel = new_channel();
    assert_eq!(channel.switch_channel(true, false), Some(1));
    assert_eq!(channel.current_channel(), ChannelType::Slow);
    assert_eq!(channel.switch_channel(false, false), None);
}
