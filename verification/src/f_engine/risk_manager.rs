//! Two-stage risk control: a quick check outside the trade lock and a precise one
//! under it.
use vstd::prelude::*;
use crate::decimal::{Dec, pow10, mul_spec, sub_spec, div_spec, abs_spec, product_in_range, sum_in_range, quotient_in_range, lemma_pow10_28};
use crate::f_engine::business_types::{ChannelType, RiskCheckResult, StrategyResponse};
use crate::f_engine::fund_pool::{FundPoolManager, pool_of};
use crate::f_engine::types::TradingAction;

verus! {

/// Risk settings.
#[derive(Debug, Clone)]
pub struct RiskConfig {
    pub pool_usage_threshold: Dec,
    pub max_running_symbols: usize,
    pub max_order_value: Dec,
    pub min_order_value: Dec,
}

/// `a / b` for two integers, as the crate computes it.
pub open spec fn int_ratio(a: int, b: int) -> Dec {
    div_spec(Dec::of_parts(a, 0), Dec::of_parts(b, 0))
}

pub(crate) fn ratio_of(a: i64, b: i64) -> (r: Dec)
    requires
        0 < a <= 100,
        0 < b <= 100,
    ensures
        r == int_ratio(a as int, b as int),
{
    let x = Dec::from_int(a);
    let y = Dec::from_int(b);
    proof {
        lemma_pow10_28();
        let p = pow10(28);
        assert(x.val() * p < crate::decimal::value_limit() * y.val()) by (nonlinear_arith)
            requires
                x.val() == a * p,
                y.val() == b * p,
                p == 10000000000000000000000000000,
                0 < a <= 100,
                0 < b <= 100,
        ;
        assert(x.val() * p > 0) by (nonlinear_arith)
            requires
                x.val() == a * p,
                p == 10000000000000000000000000000,
                0 < a,
        ;
        Dec::lemma_of_parts(a as int, 0);
        Dec::lemma_of_parts(b as int, 0);
        Dec::lemma_parts_eq(x, Dec::of_parts(a as int, 0));
        Dec::lemma_parts_eq(y, Dec::of_parts(b as int, 0));
    }
    x.div(&y)
}

impl RiskConfig {
    /// 80 % pool usage, ten symbols, order value between 10 and 10000.
    pub fn production() -> (r: RiskConfig)
        ensures
            r.pool_usage_threshold == int_ratio(80, 100),
            r.max_running_symbols == 10,
            r.max_order_value == Dec::int_dec(10000) && r.max_order_value.val() == 10000 * pow10(28),
            r.min_order_value == Dec::int_dec(10) && r.min_order_value.val() == 10 * pow10(28),
    {
        RiskConfig {
            pool_usage_threshold: ratio_of(80, 100),
            max_running_symbols: 10,
            max_order_value: Dec::from_int(10000),
            min_order_value: Dec::from_int(10),
        }
    }

    /// 95 % pool usage, fifty symbols, order value between 1 and 50000.
    pub fn backtest() -> (r: RiskConfig)
        ensures
            r.pool_usage_threshold == int_ratio(95, 100),
            r.max_running_symbols == 50,
            r.max_order_value == Dec::int_dec(50000) && r.max_order_value.val() == 50000 * pow10(28),
            r.min_order_value == Dec::int_dec(1) && r.min_order_value.val() == 1 * pow10(28),
    {
        RiskConfig {
            pool_usage_threshold: ratio_of(95, 100),
            max_running_symbols: 50,
            max_order_value: Dec::from_int(50000),
            min_order_value: Dec::from_int(1),
        }
    }
}

impl Default for RiskConfig {
    /// The production settings.
    fn default() -> (r: RiskConfig)
        ensures
            r.pool_usage_threshold == int_ratio(80, 100),
            r.max_running_symbols == 10,
            r.max_order_value == Dec::int_dec(10000) && r.max_order_value.val() == 10000 * pow10(28),
            r.min_order_value == Dec::int_dec(10) && r.min_order_value.val() == 10 * pow10(28),
    {
        RiskConfig::production()
    }
}

/// Risk manager over the fund pools.
#[derive(Debug, Clone)]
pub struct RiskManager {
    pub config: RiskConfig,
    pub fund_pool_manager: FundPoolManager,
}

/// The order value `quantity * target_price` of a response.
pub open spec fn order_value_spec(resp: StrategyResponse) -> Dec {
    mul_spec(resp.quantity, resp.target_price)
}

/// Whether the quick check passes.
pub open spec fn pre_check_passes(
    m: RiskManager,
    resp: StrategyResponse,
    account_can_trade: bool,
    current_symbols: usize,
) -> bool {
    let ch = resp.channel_type;
    let value = order_value_spec(resp);
    &&& resp.should_execute
    &&& account_can_trade
    &&& current_symbols < m.config.max_running_symbols
    &&& pool_of(m.fund_pool_manager, ch).available_spec().val() >= value.val()
    &&& value.val() <= m.config.max_order_value.val()
    &&& value.val() >= m.config.min_order_value.val()
    &&& !(resp.action != TradingAction::Flat && pool_of(m.fund_pool_manager, ch).usage_rate_spec().val()
        >= m.config.pool_usage_threshold.val())
}

/// What the quick check needs to compute without overflow, at each step it reaches.
pub open spec fn pre_check_ok(
    m: RiskManager,
    resp: StrategyResponse,
    account_can_trade: bool,
    current_symbols: usize,
) -> bool {
    let ch = resp.channel_type;
    resp.should_execute && account_can_trade && current_symbols < m.config.max_running_symbols ==> {
        &&& product_in_range(resp.quantity, resp.target_price)
        &&& pool_of(m.fund_pool_manager, ch).available_ok()
        &&& pool_of(m.fund_pool_manager, ch).usage_rate_ok()
    }
}

/// The deviation `|current - target| / current`.
pub open spec fn deviation_spec(current: Dec, target: Dec) -> Dec {
    div_spec(abs_spec(sub_spec(current, target)), current)
}

/// The deviation is computable.
pub open spec fn deviation_ok(current: Dec, target: Dec) -> bool {
    sum_in_range(current, target, -1) && quotient_in_range(abs_spec(sub_spec(current, target)), current)
}

/// Whether the precise check passes.
pub open spec fn lock_check_passes(
    m: RiskManager,
    resp: StrategyResponse,
    current_price: Dec,
    exchange_position_qty: Dec,
    exchange_available: Dec,
) -> bool {
    let opening = resp.action != TradingAction::Flat;
    let value = order_value_spec(resp);
    &&& resp.should_execute
    &&& !(resp.target_price.val() > 0 && deviation_spec(current_price, resp.target_price).val()
        > int_ratio(5, 100).val())
    &&& !(opening && exchange_position_qty.val() > 0)
    &&& !(!opening && exchange_position_qty.val() <= 0)
    &&& pool_of(m.fund_pool_manager, resp.channel_type).available_spec().val() >= value.val()
    &&& exchange_available.val() >= value.val()
}

/// What the precise check needs to compute without overflow.
pub open spec fn lock_check_ok(m: RiskManager, resp: StrategyResponse, current_price: Dec) -> bool {
    resp.should_execute ==> {
        &&& (resp.target_price.val() > 0 ==> deviation_ok(current_price, resp.target_price))
        &&& product_in_range(resp.quantity, resp.target_price)
        &&& pool_of(m.fund_pool_manager, resp.channel_type).available_ok()
    }
}

/// The deviation of two prices, `|current - target| / current`.
pub fn price_deviation(current: &Dec, target: &Dec) -> (r: Dec)
    requires
        deviation_ok(*current, *target),
    ensures
        r == deviation_spec(*current, *target),
{
    current.sub(target).abs().div(current)
}

impl RiskManager {
    pub fn new(config: RiskConfig, fund_pool_manager: FundPoolManager) -> (r: RiskManager)
        ensures
            r.config == config,
            r.fund_pool_manager == fund_pool_manager,
    {
        RiskManager { config, fund_pool_manager }
    }

    /// The quick check: passes (true, false) or fails (false, false).
    pub fn pre_check(
        &self,
        response: &StrategyResponse,
        account_can_trade: bool,
        current_symbols: usize,
    ) -> (r: RiskCheckResult)
        requires
            pre_check_ok(*self, *response, account_can_trade, current_symbols),
        ensures
            r.pre_check_passed == pre_check_passes(*self, *response, account_can_trade, current_symbols),
            !r.lock_check_passed,
    {
        if !response.should_execute {
            return RiskCheckResult::new(false, false);
        }
        if !account_can_trade {
            return RiskCheckResult::new(false, false);
        }
        if current_symbols >= self.config.max_running_symbols {
            return RiskCheckResult::new(false, false);
        }
        let channel_type = response.channel_type;
        let required = response.quantity.mul(&response.target_price);
        if !self.fund_pool_manager.has_sufficient_funds(channel_type, required.copy()) {
            return RiskCheckResult::new(false, false);
        }
        let order_value = response.quantity.mul(&response.target_price);
        if order_value.gt(&self.config.max_order_value) {
            return RiskCheckResult::new(false, false);
        }
        if order_value.lt(&self.config.min_order_value) {
            return RiskCheckResult::new(false, false);
        }
        let usage_rate = match channel_type {
            ChannelType::HighSpeed => self.fund_pool_manager.minute_usage_rate(),
            ChannelType::LowSpeed => self.fund_pool_manager.daily_usage_rate(),
        };
        let is_opening = !matches!(response.action, TradingAction::Flat);
        if is_opening && usage_rate.ge(&self.config.pool_usage_threshold) {
            return RiskCheckResult::new(false, false);
        }
        RiskCheckResult::new(true, false)
    }

    /// The precise check under the lock: (true, passed).
    pub fn lock_check(
        &self,
        response: &StrategyResponse,
        current_price: Dec,
        exchange_position_qty: Dec,
        exchange_available: Dec,
    ) -> (r: RiskCheckResult)
        requires
            lock_check_ok(*self, *response, current_price),
        ensures
            r.pre_check_passed,
            r.lock_check_passed == lock_check_passes(
                *self,
                *response,
                current_price,
                exchange_position_qty,
                exchange_available,
            ),
    {
        if !response.should_execute {
            return RiskCheckResult::new(true, false);
        }
        if response.target_price.gt(&Dec::zero()) {
            let deviation = price_deviation(&current_price, &response.target_price);
            let max_deviation = ratio_of(5, 100);
            if deviation.gt(&max_deviation) {
                return RiskCheckResult::new(true, false);
            }
        }
        let is_opening = !matches!(response.action, TradingAction::Flat);
        if is_opening && exchange_position_qty.gt(&Dec::zero()) {
            return RiskCheckResult::new(true, false);
        }
        if !is_opening && exchange_position_qty.le(&Dec::zero()) {
            return RiskCheckResult::new(true, false);
        }
        let required = response.quantity.mul(&response.target_price);
        if !self.fund_pool_manager.has_sufficient_funds(response.channel_type, required.copy()) {
            return RiskCheckResult::new(true, false);
        }
        if exchange_available.lt(&required) {
            return RiskCheckResult::new(true, false);
        }
        RiskCheckResult::new(true, true)
    }

    pub fn config(&self) -> (r: &RiskConfig)
        ensures
            *r == self.config,
    {
        &self.config
    }

    pub fn fund_pool_manager(&self) -> (r: &FundPoolManager)
        ensures
            *r == self.fund_pool_manager,
    {
        &self.fund_pool_manager
    }
}

/// A request that is not to be executed never passes either check.
pub proof fn lemma_no_execute_never_passes(
    m: RiskManager,
    resp: StrategyResponse,
    can_trade: bool,
    symbols: usize,
    price: Dec,
    qty: Dec,
    avail: Dec,
)
    requires
        !resp.should_execute,
    ensures
        !pre_check_passes(m, resp, can_trade, symbols),
        !lock_check_passes(m, resp, price, qty, avail),
{
}

} // verus!
