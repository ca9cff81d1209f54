//! The second risk check, under the lock: funds, price deviation and volatility.
use vstd::prelude::*;
use crate::decimal::{Dec, sub_spec, abs_spec, div_spec, sum_in_range, quotient_in_range};
use crate::engine::error::{EngineError, engine_error_kind};
use crate::engine::risk::{VolatilityMode, two_texts, two_amounts};
use crate::text::with_amount;
use crate::decimal::rd_text;

verus! {

/// Re-checks an order under the lock.
pub struct RiskReChecker {
    pub volatility_threshold: Dec,
    pub price_deviation_threshold: Dec,
}

/// `|a - b| / b`.
pub open spec fn rel_change(a: Dec, b: Dec) -> Dec {
    div_spec(abs_spec(sub_spec(a, b)), b)
}

/// `rel_change` computes.
pub open spec fn rel_change_ok(a: Dec, b: Dec) -> bool {
    sum_in_range(a, b, -1) && quotient_in_range(abs_spec(sub_spec(a, b)), b)
}

/// The kind and message of the re-check's failure, or `None`.
pub open spec fn re_check_failure(
    c: RiskReChecker,
    available: Dec,
    value: Dec,
    current: Dec,
    reference: Dec,
    mode: VolatilityMode,
) -> Option<(int, Seq<char>)> {
    let change = rel_change(current, reference);
    let ratio = div_spec(value, available);
    if available.val() < value.val() {
        Some((3, two_texts("锁内复核: 可用资金 "@, available, " 不足以支付订单金额 "@, value)))
    } else if reference.val() > 0 && change.val() > c.price_deviation_threshold.val() {
        Some((0, two_texts("锁内复核: 价格偏离 "@, change, " 超过阈值 "@, c.price_deviation_threshold)))
    } else if mode == VolatilityMode::Extreme {
        Some((0, "锁内复核: 极端波动模式，禁止所有交易"@))
    } else if mode == VolatilityMode::High && ratio.val() > Dec::of_parts(4, 1).val() {
        Some((4, "锁内复核: 高波动模式订单比例 "@ + rd_text(ratio.mant(), ratio.scl()) + " 超过 40%"@))
    } else {
        None
    }
}

/// The result of a check: `Err` of that kind and message, or `Ok`.
pub open spec fn matches_failure(r: Result<(), EngineError>, f: Option<(int, Seq<char>)>) -> bool {
    match f {
        Some(kf) => r is Err && engine_error_kind(r->Err_0) == kf.0 && r->Err_0.detail() == kf.1,
        None => r is Ok,
    }
}

impl RiskReChecker {
    /// 5 % volatility, 10 % price deviation.
    pub fn new() -> (r: RiskReChecker)
        ensures
            r.volatility_threshold.mant() == 5 && r.volatility_threshold.scl() == 2,
            r.price_deviation_threshold.mant() == 10 && r.price_deviation_threshold.scl() == 2,
    {
        RiskReChecker { volatility_threshold: Dec::new(5, 2), price_deviation_threshold: Dec::new(10, 2) }
    }

    /// Checks in order: the funds cover the order; against a positive reference
    /// price, the price moved at most the deviation threshold; extreme volatility
    /// refuses all; high volatility allows at most 40 % of the funds.
    pub fn re_check(
        &self,
        available_balance: Dec,
        order_value: Dec,
        current_price: Dec,
        reference_price: Dec,
        volatility_mode: VolatilityMode,
    ) -> (r: Result<(), EngineError>)
        requires
            reference_price.val() > 0 ==> rel_change_ok(current_price, reference_price),
            volatility_mode == VolatilityMode::High ==> quotient_in_range(order_value, available_balance),
        ensures
            matches_failure(
                r,
                re_check_failure(*self, available_balance, order_value, current_price, reference_price, volatility_mode),
            ),
    {
        if available_balance.lt(&order_value) {
            return Err(
                EngineError::InsufficientFund(
                    two_amounts("锁内复核: 可用资金 ", &available_balance, " 不足以支付订单金额 ", &order_value),
                ),
            );
        }
        if reference_price.gt(&Dec::zero()) {
            let price_change = current_price.sub(&reference_price).abs().div(&reference_price);
            if price_change.gt(&self.price_deviation_threshold) {
                return Err(
                    EngineError::RiskCheckFailed(
                        two_amounts("锁内复核: 价格偏离 ", &price_change, " 超过阈值 ", &self.price_deviation_threshold),
                    ),
                );
            }
        }
        if volatility_mode == VolatilityMode::Extreme {
            return Err(EngineError::RiskCheckFailed("锁内复核: 极端波动模式，禁止所有交易".to_string()));
        }
        if volatility_mode == VolatilityMode::High {
            let high_vol_ratio = order_value.div(&available_balance);
            let limit = Dec::new(4, 1);
            proof {
                Dec::lemma_of_parts(4, 1);
                Dec::lemma_parts_eq(limit, Dec::of_parts(4, 1));
            }
            if high_vol_ratio.gt(&limit) {
                let mut msg = with_amount("锁内复核: 高波动模式订单比例 ", &high_vol_ratio);
                msg.append(" 超过 40%");
                return Err(EngineError::PositionLimitExceeded(msg));
            }
        }
        Ok(())
    }

    /// Refuses when the price moved more than the volatility threshold from a
    /// positive open price.
    pub fn check_volatility_realtime(&self, current_price: Dec, open_price: Dec, high_price: Dec, low_price: Dec) -> (r: Result<(), EngineError>)
        requires
            open_price.val() > 0 ==> rel_change_ok(current_price, open_price),
        ensures
            matches_failure(
                r,
                if open_price.val() > 0 && rel_change(current_price, open_price).val() > self.volatility_threshold.val() {
                    Some(
                        (
                            0,
                            two_texts(
                                "实时波动率 "@,
                                rel_change(current_price, open_price),
                                " 超过阈值 "@,
                                self.volatility_threshold,
                            ),
                        ),
                    )
                } else {
                    None
                },
            ),
    {
        if open_price.gt(&Dec::zero()) {
            let realtime_volatility = current_price.sub(&open_price).abs().div(&open_price);
            if realtime_volatility.gt(&self.volatility_threshold) {
                return Err(
                    EngineError::RiskCheckFailed(
                        two_amounts("实时波动率 ", &realtime_volatility, " 超过阈值 ", &self.volatility_threshold),
                    ),
                );
            }
        }
        Ok(())
    }

    /// The order must not exceed the funds, nor 90 % of them.
    pub fn check_order_value(&self, order_value: Dec, available_balance: Dec) -> (r: Result<(), EngineError>)
        requires
            order_value.val() <= available_balance.val() ==> quotient_in_range(order_value, available_balance),
        ensures
            matches_failure(
                r,
                if order_value.val() > available_balance.val() {
                    Some((3, two_texts("订单金额 "@, order_value, " 超过可用资金 "@, available_balance)))
                } else if div_spec(order_value, available_balance).val() > Dec::of_parts(9, 1).val() {
                    Some(
                        (
                            4,
                            "单笔订单占比 "@ + rd_text(
                                div_spec(order_value, available_balance).mant(),
                                div_spec(order_value, available_balance).scl(),
                            ) + " 超过 90%"@,
                        ),
                    )
                } else {
                    None
                },
            ),
    {
        if order_value.gt(&available_balance) {
            return Err(
                EngineError::InsufficientFund(
                    two_amounts("订单金额 ", &order_value, " 超过可用资金 ", &available_balance),
                ),
            );
        }
        let ratio = order_value.div(&available_balance);
        let limit = Dec::new(9, 1);
        proof {
            Dec::lemma_of_parts(9, 1);
            Dec::lemma_parts_eq(limit, Dec::of_parts(9, 1));
        }
        if ratio.gt(&limit) {
            let mut msg = with_amount("单笔订单占比 ", &ratio);
            msg.append(" 超过 90%");
            return Err(EngineError::PositionLimitExceeded(msg));
        }
        Ok(())
    }

    pub fn set_volatility_threshold(&mut self, threshold: Dec)
        ensures
            final(self).volatility_threshold == threshold,
            final(self).price_deviation_threshold == old(self).price_deviation_threshold,
    {
        self.volatility_threshold = threshold;
    }

    pub fn set_price_deviation_threshold(&mut self, threshold: Dec)
        ensures
            final(self).price_deviation_threshold == threshold,
            final(self).volatility_threshold == old(self).volatility_threshold,
    {
        self.price_deviation_threshold = threshold;
    }
}

impl Default for RiskReChecker {
    fn default() -> (r: RiskReChecker)
        ensures
            r.volatility_threshold.mant() == 5 && r.volatility_threshold.scl() == 2,
            r.price_deviation_threshold.mant() == 10 && r.price_deviation_threshold.scl() == 2,
    {
        RiskReChecker::new()
    }
}

} // verus!
