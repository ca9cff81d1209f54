//! Data exchanged between the engine, strategies and risk control.
use vstd::prelude::*;
use crate::decimal::{Dec, pow10, add_spec, sub_spec, div_spec, sum_in_range, quotient_in_range};
use crate::f_engine::types::TradingAction;

verus! {

/// Position side.
#[derive(Debug, Clone, Copy, PartialEq, Eq, Structural)]
pub enum PositionSide {
    NONE,
    LONG,
    SHORT,
}

impl Default for PositionSide {
    /// No position.
    fn default() -> (r: PositionSide)
        ensures
            r == PositionSide::NONE,
    {
        PositionSide::NONE
    }
}

impl PositionSide {
    pub fn is_long(&self) -> (r: bool)
        ensures
            r == (*self == PositionSide::LONG),
    {
        matches!(self, PositionSide::LONG)
    }

    pub fn is_short(&self) -> (r: bool)
        ensures
            r == (*self == PositionSide::SHORT),
    {
        matches!(self, PositionSide::SHORT)
    }

    pub fn is_flat(&self) -> (r: bool)
        ensures
            r == (*self == PositionSide::NONE),
    {
        matches!(self, PositionSide::NONE)
    }
}

/// Volatility tier.
#[derive(Debug, Clone, Copy, PartialEq, Eq, Structural)]
pub enum VolatilityTier {
    Low,
    Medium,
    High,
    Extreme,
}

impl Default for VolatilityTier {
    /// Low.
    fn default() -> (r: VolatilityTier)
        ensures
            r == VolatilityTier::Low,
    {
        VolatilityTier::Low
    }
}

/// The tier of a volatility ratio (in percent): below 5 low, below 10 medium,
/// below 20 high, else extreme.
pub open spec fn tier_of_ratio(ratio: Dec) -> VolatilityTier {
    if ratio.val() < 5 * pow10(28) {
        VolatilityTier::Low
    } else if ratio.val() < 10 * pow10(28) {
        VolatilityTier::Medium
    } else if ratio.val() < 20 * pow10(28) {
        VolatilityTier::High
    } else {
        VolatilityTier::Extreme
    }
}

impl VolatilityTier {
    pub fn from_ratio(ratio: Dec) -> (r: VolatilityTier)
        ensures
            r == tier_of_ratio(ratio),
    {
        if ratio.lt(&Dec::from_int(5)) {
            VolatilityTier::Low
        } else if ratio.lt(&Dec::from_int(10)) {
            VolatilityTier::Medium
        } else if ratio.lt(&Dec::from_int(20)) {
            VolatilityTier::High
        } else {
            VolatilityTier::Extreme
        }
    }
}

/// Account risk state.
#[derive(Debug, Clone, Copy, PartialEq, Eq, Structural)]
pub enum RiskState {
    Normal,
    Warning,
    Risky,
    Forbidden,
}

impl Default for RiskState {
    /// Normal.
    fn default() -> (r: RiskState)
        ensures
            r == RiskState::Normal,
    {
        RiskState::Normal
    }
}

impl RiskState {
    /// Trading is allowed in the normal and warning states.
    pub fn can_trade(&self) -> (r: bool)
        ensures
            r == (*self == RiskState::Normal || *self == RiskState::Warning),
    {
        matches!(self, RiskState::Normal | RiskState::Warning)
    }
}

/// Execution channel.
#[derive(Debug, Clone, Copy, PartialEq, Eq, Structural)]
pub enum ChannelType {
    HighSpeed,
    LowSpeed,
}

impl Default for ChannelType {
    /// The low-speed channel.
    fn default() -> (r: ChannelType)
        ensures
            r == ChannelType::LowSpeed,
    {
        ChannelType::LowSpeed
    }
}

impl ChannelType {
    pub fn is_high_speed(&self) -> (r: bool)
        ensures
            r == (*self == ChannelType::HighSpeed),
    {
        matches!(self, ChannelType::HighSpeed)
    }

    pub fn is_low_speed(&self) -> (r: bool)
        ensures
            r == (*self == ChannelType::LowSpeed),
    {
        matches!(self, ChannelType::LowSpeed)
    }
}

/// What the engine asks a strategy at the start of a cycle.
#[derive(Debug, Clone)]
pub struct StrategyQuery {
    pub timestamp: i64,
    pub account_available: Dec,
    pub account_risk_state: RiskState,
    pub current_price: Dec,
    pub volatility_tier: VolatilityTier,
    pub position_exists: bool,
    pub position_direction: PositionSide,
    pub position_qty: Dec,
    pub position_entry_price: Dec,
}

impl StrategyQuery {
    pub fn new(
        timestamp: i64,
        account_available: Dec,
        account_risk_state: RiskState,
        current_price: Dec,
        volatility_tier: VolatilityTier,
        position_exists: bool,
        position_direction: PositionSide,
        position_qty: Dec,
        position_entry_price: Dec,
    ) -> (r: StrategyQuery)
        ensures
            r == (StrategyQuery {
                timestamp,
                account_available,
                account_risk_state,
                current_price,
                volatility_tier,
                position_exists,
                position_direction,
                position_qty,
                position_entry_price,
            }),
    {
        StrategyQuery {
            timestamp,
            account_available,
            account_risk_state,
            current_price,
            volatility_tier,
            position_exists,
            position_direction,
            position_qty,
            position_entry_price,
        }
    }

    /// Whether the account allows trading.
    pub fn can_trade(&self) -> (r: bool)
        ensures
            r == (self.account_risk_state == RiskState::Normal || self.account_risk_state
                == RiskState::Warning),
    {
        self.account_risk_state.can_trade()
    }

    /// Whether there is a position with a positive quantity.
    pub fn has_valid_position(&self) -> (r: bool)
        ensures
            r == (self.position_exists && self.position_qty.val() > 0),
    {
        self.position_exists && self.position_qty.gt(&Dec::zero())
    }
}

/// What a strategy answers.
#[derive(Debug, Clone)]
pub struct StrategyResponse {
    pub should_execute: bool,
    pub action: TradingAction,
    pub quantity: Dec,
    pub target_price: Dec,
    pub channel_type: ChannelType,
    pub reason: String,
}

impl StrategyResponse {
    /// A response that does nothing.
    pub fn no_action(reason: &str) -> (r: StrategyResponse)
        ensures
            !r.should_execute,
            r.action == TradingAction::Flat,
            r.quantity == Dec::of_parts(0, 0),
            r.target_price == Dec::of_parts(0, 0),
            r.channel_type == ChannelType::LowSpeed,
            r.reason@ == reason@,
    {
        StrategyResponse {
            should_execute: false,
            action: TradingAction::Flat,
            quantity: Dec::zero(),
            target_price: Dec::zero(),
            channel_type: ChannelType::LowSpeed,
            reason: reason.to_string(),
        }
    }

    /// A response that asks for execution.
    pub fn execute(
        action: TradingAction,
        quantity: Dec,
        target_price: Dec,
        channel_type: ChannelType,
        reason: &str,
    ) -> (r: StrategyResponse)
        ensures
            r.should_execute,
            r.action == action,
            r.quantity == quantity,
            r.target_price == target_price,
            r.channel_type == channel_type,
            r.reason@ == reason@,
    {
        StrategyResponse {
            should_execute: true,
            action,
            quantity,
            target_price,
            channel_type,
            reason: reason.to_string(),
        }
    }
}

/// The two risk checks: outside the lock and under it.
#[derive(Debug, Clone)]
pub struct RiskCheckResult {
    pub pre_check_passed: bool,
    pub lock_check_passed: bool,
}

impl Default for RiskCheckResult {
    /// Neither check passed.
    fn default() -> (r: RiskCheckResult)
        ensures
            !r.pre_check_passed,
            !r.lock_check_passed,
    {
        RiskCheckResult::new(false, false)
    }
}

impl RiskCheckResult {
    pub fn new(pre_passed: bool, lock_passed: bool) -> (r: RiskCheckResult)
        ensures
            r.pre_check_passed == pre_passed,
            r.lock_check_passed == lock_passed,
    {
        RiskCheckResult { pre_check_passed: pre_passed, lock_check_passed: lock_passed }
    }

    pub fn both_passed(&self) -> (r: bool)
        ensures
            r == (self.pre_check_passed && self.lock_check_passed),
    {
        self.pre_check_passed && self.lock_check_passed
    }

    pub fn pre_failed(&self) -> (r: bool)
        ensures
            r == !self.pre_check_passed,
    {
        !self.pre_check_passed
    }

    pub fn lock_failed(&self) -> (r: bool)
        ensures
            r == (self.pre_check_passed && !self.lock_check_passed),
    {
        self.pre_check_passed && !self.lock_check_passed
    }
}

/// Daily price control output.
#[derive(Debug, Clone)]
pub struct PriceControlOutput {
    pub should_add: bool,
    pub should_stop: bool,
    pub should_take_profit: bool,
    pub should_move_stop: bool,
    pub profit_distance_pct: Dec,
    pub stop_distance_pct: Dec,
}

impl Default for PriceControlOutput {
    /// No action and zero distances.
    fn default() -> (r: PriceControlOutput)
        ensures
            !r.should_add && !r.should_stop && !r.should_take_profit && !r.should_move_stop,
            r.profit_distance_pct.mant() == 0 && r.profit_distance_pct.scl() == 0,
            r.stop_distance_pct.mant() == 0 && r.stop_distance_pct.scl() == 0,
    {
        PriceControlOutput {
            should_add: false,
            should_stop: false,
            should_take_profit: false,
            should_move_stop: false,
            profit_distance_pct: Dec::zero(),
            stop_distance_pct: Dec::zero(),
        }
    }
}

impl PriceControlOutput {
    /// No action and zero distances.
    pub fn new() -> (r: PriceControlOutput)
        ensures
            !r.should_add && !r.should_stop && !r.should_take_profit && !r.should_move_stop,
            r.profit_distance_pct == Dec::of_parts(0, 0),
            r.stop_distance_pct == Dec::of_parts(0, 0),
    {
        PriceControlOutput {
            should_add: false,
            should_stop: false,
            should_take_profit: false,
            should_move_stop: false,
            profit_distance_pct: Dec::zero(),
            stop_distance_pct: Dec::zero(),
        }
    }

    pub fn any_action(&self) -> (r: bool)
        ensures
            r == (self.should_add || self.should_stop || self.should_take_profit
                || self.should_move_stop),
    {
        self.should_add || self.should_stop || self.should_take_profit || self.should_move_stop
    }
}

/// Order lifecycle.
#[derive(Debug, Clone, Copy, PartialEq, Eq, Structural)]
pub enum OrderLifecycle {
    Created,
    Sent,
    PartialFilled,
    Filled,
    Cancelled,
    Failed,
}

impl Default for OrderLifecycle {
    /// Created.
    fn default() -> (r: OrderLifecycle)
        ensures
            r == OrderLifecycle::Created,
    {
        OrderLifecycle::Created
    }
}

/// The state after one step: created, sent, partially filled, filled; final states stay.
pub open spec fn next_lifecycle(s: OrderLifecycle) -> OrderLifecycle {
    match s {
        OrderLifecycle::Created => OrderLifecycle::Sent,
        OrderLifecycle::Sent => OrderLifecycle::PartialFilled,
        OrderLifecycle::PartialFilled => OrderLifecycle::Filled,
        OrderLifecycle::Filled => OrderLifecycle::Filled,
        OrderLifecycle::Cancelled => OrderLifecycle::Cancelled,
        OrderLifecycle::Failed => OrderLifecycle::Failed,
    }
}

/// Filled, cancelled and failed are terminal.
pub open spec fn lifecycle_terminal(s: OrderLifecycle) -> bool {
    s == OrderLifecycle::Filled || s == OrderLifecycle::Cancelled || s == OrderLifecycle::Failed
}

impl OrderLifecycle {
    pub fn is_terminal(&self) -> (r: bool)
        ensures
            r == lifecycle_terminal(*self),
    {
        matches!(self, OrderLifecycle::Filled | OrderLifecycle::Cancelled | OrderLifecycle::Failed)
    }

    pub fn is_active(&self) -> (r: bool)
        ensures
            r == !lifecycle_terminal(*self),
    {
        matches!(self, OrderLifecycle::Created | OrderLifecycle::Sent | OrderLifecycle::PartialFilled)
    }

    pub fn next(&self) -> (r: OrderLifecycle)
        ensures
            r == next_lifecycle(*self),
    {
        match self {
            OrderLifecycle::Created => OrderLifecycle::Sent,
            OrderLifecycle::Sent => OrderLifecycle::PartialFilled,
            OrderLifecycle::PartialFilled => OrderLifecycle::Filled,
            OrderLifecycle::Filled => OrderLifecycle::Filled,
            OrderLifecycle::Cancelled => OrderLifecycle::Cancelled,
            OrderLifecycle::Failed => OrderLifecycle::Failed,
        }
    }
}

/// A terminal state is a fixed point of `next`, and every state is either active or
/// terminal; three steps from any state reach a terminal state.
pub proof fn lemma_lifecycle_progress(s: OrderLifecycle)
    ensures
        lifecycle_terminal(s) ==> next_lifecycle(s) == s,
        lifecycle_terminal(next_lifecycle(next_lifecycle(next_lifecycle(s)))),
{
}

/// An order and its lifecycle.
#[derive(Debug, Clone)]
pub struct OrderInfo {
    pub order_id: String,
    pub symbol: String,
    pub action: TradingAction,
    pub quantity: Dec,
    pub target_price: Dec,
    pub channel_type: ChannelType,
    pub lifecycle: OrderLifecycle,
    pub created_at: i64,
    pub updated_at: i64,
    pub retry_count: u8,
}

impl OrderInfo {
    /// A new order, created now.
    pub fn new(
        order_id: String,
        symbol: String,
        action: TradingAction,
        quantity: Dec,
        target_price: Dec,
        channel_type: ChannelType,
    ) -> (r: OrderInfo)
        ensures
            r.order_id == order_id,
            r.symbol == symbol,
            r.action == action,
            r.quantity == quantity,
            r.target_price == target_price,
            r.channel_type == channel_type,
            r.lifecycle == OrderLifecycle::Created,
            r.created_at == r.updated_at,
            r.retry_count == 0,
    {
        let now = crate::clock::utc_now_secs();
        OrderInfo {
            order_id,
            symbol,
            action,
            quantity,
            target_price,
            channel_type,
            lifecycle: OrderLifecycle::Created,
            created_at: now,
            updated_at: now,
            retry_count: 0,
        }
    }

    /// Moves to `new_state` and stamps the time.
    pub fn transition(&mut self, new_state: OrderLifecycle)
        ensures
            final(self).lifecycle == new_state,
            final(self).order_id == old(self).order_id,
            final(self).symbol == old(self).symbol,
            final(self).action == old(self).action,
            final(self).quantity == old(self).quantity,
            final(self).target_price == old(self).target_price,
            final(self).channel_type == old(self).channel_type,
            final(self).created_at == old(self).created_at,
            final(self).retry_count == old(self).retry_count,
    {
        self.lifecycle = new_state;
        self.updated_at = crate::clock::utc_now_secs();
    }

    /// Counts one more retry.  The count is a `u8`; at 255 it would overflow, which
    /// is left out.
    pub fn increment_retry(&mut self)
        requires
            old(self).retry_count < 255,
        ensures
            final(self).retry_count == old(self).retry_count + 1,
            final(self).lifecycle == old(self).lifecycle,
            final(self).order_id == old(self).order_id,
            final(self).created_at == old(self).created_at,
    {
        self.retry_count = self.retry_count + 1;
        self.updated_at = crate::clock::utc_now_secs();
    }
}

/// A pool of funds: allocated, used and frozen amounts.
#[derive(Debug, Clone)]
pub struct FundPool {
    pub name: String,
    pub allocated: Dec,
    pub used: Dec,
    pub frozen: Dec,
}

impl FundPool {
    /// `allocated - used - frozen`.
    pub open spec fn available_spec(self) -> Dec {
        sub_spec(sub_spec(self.allocated, self.used), self.frozen)
    }

    /// The subtractions of `available` do not overflow.
    pub open spec fn available_ok(self) -> bool {
        sum_in_range(self.allocated, self.used, -1) && sum_in_range(
            sub_spec(self.allocated, self.used),
            self.frozen,
            -1,
        )
    }

    /// `(used + frozen) / allocated`, zero for an empty allocation.
    pub open spec fn usage_rate_spec(self) -> Dec {
        if self.allocated.val() == 0 {
            Dec::of_parts(0, 0)
        } else {
            div_spec(add_spec(self.used, self.frozen), self.allocated)
        }
    }

    pub open spec fn usage_rate_ok(self) -> bool {
        self.allocated.val() != 0 ==> (sum_in_range(self.used, self.frozen, 1) && quotient_in_range(
            add_spec(self.used, self.frozen),
            self.allocated,
        ))
    }

    pub fn new(name: &str, allocated: Dec) -> (r: FundPool)
        ensures
            r.name@ == name@,
            r.allocated == allocated,
            r.used == Dec::of_parts(0, 0),
            r.frozen == Dec::of_parts(0, 0),
    {
        FundPool { name: name.to_string(), allocated, used: Dec::zero(), frozen: Dec::zero() }
    }

    /// Available amount.
    pub fn available(&self) -> (r: Dec)
        requires
            self.available_ok(),
        ensures
            r == self.available_spec(),
    {
        self.allocated.sub(&self.used).sub(&self.frozen)
    }

    /// Usage rate.
    pub fn usage_rate(&self) -> (r: Dec)
        requires
            self.usage_rate_ok(),
        ensures
            r.val() == self.usage_rate_spec().val(),
            r == self.usage_rate_spec(),
    {
        if self.allocated.is_zero() {
            proof {
                Dec::lemma_of_parts(0, 0);
            }
            Dec::zero()
        } else {
            self.used.add(&self.frozen).div(&self.allocated)
        }
    }

    /// Full when nothing is available.
    pub fn is_full(&self) -> (r: bool)
        requires
            self.available_ok(),
        ensures
            r == (self.available_spec().val() <= 0),
    {
        self.available().le(&Dec::zero())
    }

    /// Freezes `amount` when it is available.
    pub fn freeze(&mut self, amount: Dec) -> (r: bool)
        requires
            old(self).available_ok(),
            amount.val() <= old(self).available_spec().val() ==> sum_in_range(
                old(self).frozen,
                amount,
                1,
            ),
        ensures
            r == (amount.val() <= old(self).available_spec().val()),
            r ==> final(self).frozen == add_spec(old(self).frozen, amount),
            !r ==> final(self).frozen == old(self).frozen,
            final(self).allocated == old(self).allocated,
            final(self).used == old(self).used,
            final(self).name == old(self).name,
    {
        let avail = self.available();
        if amount.le(&avail) {
            self.frozen = self.frozen.add(&amount);
            true
        } else {
            false
        }
    }

    /// Moves `amount` from frozen to used when that much is frozen.
    pub fn confirm_usage(&mut self, amount: Dec)
        requires
            amount.val() <= old(self).frozen.val() ==> (sum_in_range(old(self).frozen, amount, -1)
                && sum_in_range(old(self).used, amount, 1)),
        ensures
            amount.val() <= old(self).frozen.val() ==> (final(self).frozen == sub_spec(
                old(self).frozen,
                amount,
            ) && final(self).used == add_spec(old(self).used, amount)),
            amount.val() > old(self).frozen.val() ==> (final(self).frozen == old(self).frozen
                && final(self).used == old(self).used),
            final(self).allocated == old(self).allocated,
            final(self).name == old(self).name,
    {
        if amount.le(&self.frozen) {
            self.frozen = self.frozen.sub(&amount);
            self.used = self.used.add(&amount);
        }
    }

    /// Releases `amount` of the frozen funds when that much is frozen.
    pub fn release_frozen(&mut self, amount: Dec)
        requires
            amount.val() <= old(self).frozen.val() ==> sum_in_range(old(self).frozen, amount, -1),
        ensures
            amount.val() <= old(self).frozen.val() ==> final(self).frozen == sub_spec(
                old(self).frozen,
                amount,
            ),
            amount.val() > old(self).frozen.val() ==> final(self).frozen == old(self).frozen,
            final(self).used == old(self).used,
            final(self).allocated == old(self).allocated,
            final(self).name == old(self).name,
    {
        if amount.le(&self.frozen) {
            self.frozen = self.frozen.sub(&amount);
        }
    }

    /// Rolls back: releases the frozen amount.
    pub fn rollback(&mut self, amount: Dec)
        requires
            amount.val() <= old(self).frozen.val() ==> sum_in_range(old(self).frozen, amount, -1),
        ensures
            amount.val() <= old(self).frozen.val() ==> final(self).frozen == sub_spec(
                old(self).frozen,
                amount,
            ),
            amount.val() > old(self).frozen.val() ==> final(self).frozen == old(self).frozen,
            final(self).used == old(self).used,
            final(self).allocated == old(self).allocated,
            final(self).name == old(self).name,
    {
        self.release_frozen(amount);
    }
}

/// Engine error codes.
#[derive(Debug, Clone, Copy, PartialEq, Eq, Structural)]
pub enum EngineErrorCode {
    SymbolExists,
    InsufficientFunds,
    RiskRejected,
    Timeout,
    StateInconsistent,
}

/// The numeric code of each error.
pub open spec fn error_code_number(c: EngineErrorCode) -> u16 {
    match c {
        EngineErrorCode::SymbolExists => 1001,
        EngineErrorCode::InsufficientFunds => 2001,
        EngineErrorCode::RiskRejected => 3001,
        EngineErrorCode::Timeout => 4001,
        EngineErrorCode::StateInconsistent => 5001,
    }
}

impl EngineErrorCode {
    pub fn code(&self) -> (r: u16)
        ensures
            r == error_code_number(*self),
    {
        match self {
            EngineErrorCode::SymbolExists => 1001,
            EngineErrorCode::InsufficientFunds => 2001,
            EngineErrorCode::RiskRejected => 3001,
            EngineErrorCode::Timeout => 4001,
            EngineErrorCode::StateInconsistent => 5001,
        }
    }

    pub fn message(&self) -> (r: &'static str)
        ensures
            *self == EngineErrorCode::SymbolExists ==> r@ == "品种已存在/互斥"@,
            *self == EngineErrorCode::InsufficientFunds ==> r@ == "资金不足"@,
            *self == EngineErrorCode::RiskRejected ==> r@ == "风控拒绝"@,
            *self == EngineErrorCode::Timeout ==> r@ == "超时"@,
            *self == EngineErrorCode::StateInconsistent ==> r@ == "状态不一致"@,
    {
        match self {
            EngineErrorCode::SymbolExists => "品种已存在/互斥",
            EngineErrorCode::InsufficientFunds => "资金不足",
            EngineErrorCode::RiskRejected => "风控拒绝",
            EngineErrorCode::Timeout => "超时",
            EngineErrorCode::StateInconsistent => "状态不一致",
        }
    }
}

/// Distinct errors have distinct codes.
pub proof fn lemma_error_codes_distinct(a: EngineErrorCode, b: EngineErrorCode)
    requires
        a != b,
    ensures
        error_code_number(a) != error_code_number(b),
{
}

} // verus!
