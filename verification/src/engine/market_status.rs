//! Market status from indicators: invalid data, pins, ranges and trends.
use vstd::prelude::*;
use crate::decimal::{Dec, pow10, sub_spec, abs_spec, mul_spec, neg_spec, sum_in_range, product_in_range};
use crate::text::str_eq;

verus! {

/// Market status; checked in the order invalid, pin, range, trend.
#[derive(Debug, Clone, Copy, PartialEq, Eq, Structural)]
pub enum MarketStatus {
    TREND,
    RANGE,
    PIN,
    INVALID,
}

/// How strong a pin is.
#[derive(Debug, Clone, Copy, PartialEq, Eq, Structural)]
pub enum PinIntensity {
    /// One or two conditions.
    WEAK,
    /// Three.
    MODERATE,
    /// Four.
    STRONG,
    NONE,
}

/// The result of pin detection.
#[derive(Debug, Clone)]
pub struct PinDetection {
    pub intensity: PinIntensity,
    pub conditions_met: u8,
    pub is_up: bool,
    pub is_down: bool,
}

/// Thresholds of the detector.
pub struct MarketStatusDetector {
    pub tr_ratio_threshold: Dec,
    pub zscore_threshold: Dec,
    pub volatility_threshold: Dec,
    pub data_timeout_seconds: i64,
}

/// The z-score condition: beyond the threshold either way.
pub open spec fn z_extreme(d: MarketStatusDetector, z: Dec) -> bool {
    z.val() > d.zscore_threshold.val() || z.val() < -d.zscore_threshold.val()
}

/// The volatility condition: above twice the threshold.
pub open spec fn vol_extreme(d: MarketStatusDetector, v: Dec) -> bool {
    v.val() > mul_spec(d.volatility_threshold, Dec::of_parts(2, 0)).val()
}

/// The price-position condition: below 10 or above 90.
pub open spec fn pos_extreme(p: Dec) -> bool {
    p.val() < 10 * pow10(28) || p.val() > 90 * pow10(28)
}

/// How many pin conditions hold.
pub open spec fn pin_count(d: MarketStatusDetector, z: Dec, v: Dec, p: Dec, tr: Dec) -> int {
    (if z_extreme(d, z) { 1int } else { 0 }) + (if vol_extreme(d, v) { 1int } else { 0 }) + (if tr.val()
        > d.tr_ratio_threshold.val() { 1int } else { 0 }) + (if pos_extreme(p) { 1int } else { 0 })
}

/// The intensity of a number of conditions.
pub open spec fn intensity_of(n: int) -> PinIntensity {
    if n == 0 {
        PinIntensity::NONE
    } else if n <= 2 {
        PinIntensity::WEAK
    } else if n == 3 {
        PinIntensity::MODERATE
    } else {
        PinIntensity::STRONG
    }
}

/// A range market: |z| below 0.5, volatility and tr ratio below their thresholds.
pub open spec fn range_market(d: MarketStatusDetector, z: Dec, v: Dec, tr: Dec) -> bool {
    abs_spec(z).val() < Dec::of_parts(5, 1).val() && v.val() < d.volatility_threshold.val() && tr.val()
        < d.tr_ratio_threshold.val()
}

/// The status: invalid without valid fresh data, then pin, range, and trend.
pub open spec fn status_of(
    d: MarketStatusDetector,
    tr: Dec,
    z: Dec,
    v: Dec,
    p: Dec,
    valid: bool,
    last: i64,
    now: i64,
) -> MarketStatus {
    if !valid || now - last > d.data_timeout_seconds {
        MarketStatus::INVALID
    } else if pin_count(d, z, v, p, tr) > 0 {
        MarketStatus::PIN
    } else if range_market(d, z, v, tr) {
        MarketStatus::RANGE
    } else {
        MarketStatus::TREND
    }
}

/// The EMA trend direction: up above 1.001 times the slow EMA, down below 0.999
/// times it; a Pine colour against the direction makes it neutral.
pub open spec fn trend_direction(fast: Dec, slow: Dec, pine: Seq<char>) -> Seq<char> {
    let dir = if fast.val() > mul_spec(slow, Dec::of_parts(1001, 3)).val() {
        "up"@
    } else if fast.val() < mul_spec(slow, Dec::of_parts(999, 3)).val() {
        "down"@
    } else {
        "neutral"@
    };
    if (dir == "down"@ && pine == "green"@) || (dir == "up"@ && pine == "red"@) {
        "neutral"@
    } else {
        dir
    }
}

impl MarketStatusDetector {
    /// TR ratio 1, z-score 2, volatility 3 %, data stale after 180 s.
    pub fn new() -> (r: MarketStatusDetector)
        ensures
            r.tr_ratio_threshold == Dec::of_parts(10, 1),
            r.zscore_threshold == Dec::of_parts(20, 1),
            r.volatility_threshold == Dec::of_parts(3, 2),
            r.data_timeout_seconds == 180,
    {
        let a = Dec::new(10, 1);
        let b = Dec::new(20, 1);
        let c = Dec::new(3, 2);
        proof {
            Dec::lemma_of_parts(10, 1);
            Dec::lemma_of_parts(20, 1);
            Dec::lemma_of_parts(3, 2);
            Dec::lemma_parts_eq(a, Dec::of_parts(10, 1));
            Dec::lemma_parts_eq(b, Dec::of_parts(20, 1));
            Dec::lemma_parts_eq(c, Dec::of_parts(3, 2));
        }
        MarketStatusDetector { tr_ratio_threshold: a, zscore_threshold: b, volatility_threshold: c, data_timeout_seconds: 180 }
    }

    /// The market status.
    pub fn detect(
        &self,
        tr_ratio: Dec,
        zscore: Dec,
        volatility: Dec,
        price_position: Dec,
        is_data_valid: bool,
        last_update_ts: i64,
        current_ts: i64,
    ) -> (r: MarketStatus)
        requires
            i64::MIN <= current_ts - last_update_ts <= i64::MAX,
            product_in_range(self.volatility_threshold, Dec::of_parts(2, 0)),
        ensures
            r == status_of(*self, tr_ratio, zscore, volatility, price_position, is_data_valid, last_update_ts, current_ts),
    {
        if !is_data_valid || current_ts - last_update_ts > self.data_timeout_seconds {
            return MarketStatus::INVALID;
        }
        let pin = self.detect_pin(zscore.copy(), volatility.copy(), price_position, tr_ratio.copy());
        if pin.intensity != PinIntensity::NONE {
            return MarketStatus::PIN;
        }
        if self.is_range_market(zscore, volatility, tr_ratio) {
            return MarketStatus::RANGE;
        }
        MarketStatus::TREND
    }

    /// Counts the pin conditions: extreme z-score (its sign gives the direction),
    /// volatility above twice the threshold, tr ratio above its threshold, and a price
    /// position below 10 (down) or above 90 (up).
    pub fn detect_pin(&self, zscore: Dec, volatility: Dec, price_position: Dec, tr_ratio: Dec) -> (r: PinDetection)
        requires
            product_in_range(self.volatility_threshold, Dec::of_parts(2, 0)),
        ensures
            r.conditions_met == pin_count(*self, zscore, volatility, price_position, tr_ratio),
            r.intensity == intensity_of(pin_count(*self, zscore, volatility, price_position, tr_ratio)),
            r.is_up == ((z_extreme(*self, zscore) && zscore.val() > 0) || price_position.val() > 90 * pow10(28)),
            r.is_down == ((z_extreme(*self, zscore) && zscore.val() <= 0) || price_position.val() < 10 * pow10(28)),
    {
        let mut conditions_met: u8 = 0;
        let mut is_up = false;
        let mut is_down = false;
        if zscore.gt(&self.zscore_threshold) || zscore.lt(&self.zscore_threshold.neg()) {
            conditions_met = conditions_met + 1;
            if zscore.gt(&Dec::zero()) {
                is_up = true;
            } else {
                is_down = true;
            }
        }
        let two = Dec::from_int(2);
        proof {
            Dec::lemma_of_parts(2, 0);
            Dec::lemma_parts_eq(two, Dec::of_parts(2, 0));
        }
        if volatility.gt(&self.volatility_threshold.mul(&two)) {
            conditions_met = conditions_met + 1;
        }
        if tr_ratio.gt(&self.tr_ratio_threshold) {
            conditions_met = conditions_met + 1;
        }
        let ten = Dec::from_int(10);
        let ninety = Dec::from_int(90);
        if price_position.lt(&ten) || price_position.gt(&ninety) {
            conditions_met = conditions_met + 1;
            if price_position.lt(&ten) {
                is_down = true;
            } else {
                is_up = true;
            }
        }
        proof {
            assert(ninety.val() == 90 * pow10(28));
            assert(ten.val() == 10 * pow10(28));
            crate::decimal::lemma_pow10_28();
        }
        let intensity = match conditions_met {
            0 => PinIntensity::NONE,
            1 | 2 => PinIntensity::WEAK,
            3 => PinIntensity::MODERATE,
            _ => PinIntensity::STRONG,
        };
        PinDetection { intensity, conditions_met, is_up, is_down }
    }

    fn is_range_market(&self, zscore: Dec, volatility: Dec, tr_ratio: Dec) -> (r: bool)
        ensures
            r == range_market(*self, zscore, volatility, tr_ratio),
    {
        let half = Dec::new(5, 1);
        proof {
            Dec::lemma_of_parts(5, 1);
            Dec::lemma_parts_eq(half, Dec::of_parts(5, 1));
        }
        let zscore_near_zero = zscore.abs().lt(&half);
        let low_volatility = volatility.lt(&self.volatility_threshold);
        let low_tr_ratio = tr_ratio.lt(&self.tr_ratio_threshold);
        zscore_near_zero && low_volatility && low_tr_ratio
    }

    /// Whether the EMAs differ, and the trend direction ("up", "down", "neutral").
    pub fn detect_trend(&self, ema_fast: Dec, ema_slow: Dec, pine_color: &str) -> (r: (bool, &'static str))
        requires
            sum_in_range(ema_fast, ema_slow, -1),
            product_in_range(ema_slow, Dec::of_parts(1001, 3)),
            product_in_range(ema_slow, Dec::of_parts(999, 3)),
        ensures
            r.0 == (abs_spec(sub_spec(ema_fast, ema_slow)).val() > 0),
            r.1@ == trend_direction(ema_fast, ema_slow, pine_color@),
    {
        let is_trending = ema_fast.sub(&ema_slow).abs().gt(&Dec::zero());
        let up_factor = Dec::new(1001, 3);
        let down_factor = Dec::new(999, 3);
        proof {
            Dec::lemma_of_parts(1001, 3);
            Dec::lemma_of_parts(999, 3);
            Dec::lemma_parts_eq(up_factor, Dec::of_parts(1001, 3));
            Dec::lemma_parts_eq(down_factor, Dec::of_parts(999, 3));
            reveal_strlit("up");
            reveal_strlit("down");
            reveal_strlit("neutral");
            reveal_strlit("green");
            reveal_strlit("red");
        }
        let dir: &'static str = if ema_fast.gt(&ema_slow.mul(&up_factor)) {
            "up"
        } else if ema_fast.lt(&ema_slow.mul(&down_factor)) {
            "down"
        } else {
            "neutral"
        };
        let confirmed: &'static str = if (str_eq(dir, "down") && str_eq(pine_color, "green")) || (str_eq(dir, "up")
            && str_eq(pine_color, "red")) {
            "neutral"
        } else {
            dir
        };
        (is_trending, confirmed)
    }

    pub fn set_tr_ratio_threshold(&mut self, threshold: Dec)
        ensures
            final(self).tr_ratio_threshold == threshold,
            final(self).zscore_threshold == old(self).zscore_threshold,
            final(self).volatility_threshold == old(self).volatility_threshold,
            final(self).data_timeout_seconds == old(self).data_timeout_seconds,
    {
        self.tr_ratio_threshold = threshold;
    }

    pub fn set_zscore_threshold(&mut self, threshold: Dec)
        ensures
            final(self).zscore_threshold == threshold,
            final(self).tr_ratio_threshold == old(self).tr_ratio_threshold,
            final(self).volatility_threshold == old(self).volatility_threshold,
            final(self).data_timeout_seconds == old(self).data_timeout_seconds,
    {
        self.zscore_threshold = threshold;
    }

    pub fn set_volatility_threshold(&mut self, threshold: Dec)
        ensures
            final(self).volatility_threshold == threshold,
            final(self).tr_ratio_threshold == old(self).tr_ratio_threshold,
            final(self).zscore_threshold == old(self).zscore_threshold,
            final(self).data_timeout_seconds == old(self).data_timeout_seconds,
    {
        self.volatility_threshold = threshold;
    }

    /// The name of an intensity.
    pub fn pin_intensity_to_str(intensity: PinIntensity) -> (r: &'static str)
        ensures
            r@ == match intensity {
                PinIntensity::NONE => "none"@,
                PinIntensity::WEAK => "weak"@,
                PinIntensity::MODERATE => "moderate"@,
                PinIntensity::STRONG => "strong"@,
            },
    {
        match intensity {
            PinIntensity::NONE => "none",
            PinIntensity::WEAK => "weak",
            PinIntensity::MODERATE => "moderate",
            PinIntensity::STRONG => "strong",
        }
    }
}

impl Default for MarketStatusDetector {
    fn default() -> (r: MarketStatusDetector)
        ensures
            r.data_timeout_seconds == 180,
            r.volatility_threshold == Dec::of_parts(3, 2),
    {
        MarketStatusDetector::new()
    }
}

/// Invalid data outranks everything: a detector never reports a pin, range or trend
/// on data that is not valid.
pub proof fn lemma_invalid_first(
    d: MarketStatusDetector,
    tr: Dec,
    z: Dec,
    v: Dec,
    p: Dec,
    last: i64,
    now: i64,
)
    ensures
        status_of(d, tr, z, v, p, false, last, now) == MarketStatus::INVALID,
{
}

} // verus!
