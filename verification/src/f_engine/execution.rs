//! The two-channel execution flow: order lifecycles, the strategy query, the risk
//! checks around the trade lock and the sync with the exchange.
use vstd::prelude::*;
use crate::decimal::{Dec, rd_text, sub_spec, abs_spec, div_spec, sum_in_range, quotient_in_range};
use crate::f_engine::business_types::{
    StrategyQuery, StrategyResponse, ChannelType, OrderLifecycle, OrderInfo, VolatilityTier, RiskState,
    PositionSide,
};
use crate::f_engine::risk_manager::{int_ratio, ratio_of, deviation_spec, deviation_ok, price_deviation};
use crate::f_engine::types::TradingAction;
use crate::text::with_amount;

verus! {

/// Timeouts, retries and pacing of order execution.
#[derive(Debug, Clone)]
pub struct ExecutionConfig {
    pub strategy_query_timeout_secs: u64,
    pub lock_timeout_secs: u64,
    pub order_timeout_secs: u64,
    pub max_retry_count: u8,
    pub retry_interval_ms: u64,
    pub order_interval_ms: u64,
}

impl Default for ExecutionConfig {
    /// Query timeout 2 s, lock 1 s, order 10 s, two retries 100 ms apart, one order a
    /// second.
    fn default() -> (r: ExecutionConfig)
        ensures
            r.strategy_query_timeout_secs == 2,
            r.lock_timeout_secs == 1,
            r.order_timeout_secs == 10,
            r.max_retry_count == 2,
            r.retry_interval_ms == 100,
            r.order_interval_ms == 1000,
    {
        ExecutionConfig {
            strategy_query_timeout_secs: 2,
            lock_timeout_secs: 1,
            order_timeout_secs: 10,
            max_retry_count: 2,
            retry_interval_ms: 100,
            order_interval_ms: 1000,
        }
    }
}

impl ExecutionConfig {
    /// The default settings.
    pub fn production() -> (r: ExecutionConfig)
        ensures
            r.strategy_query_timeout_secs == 2,
            r.lock_timeout_secs == 1,
            r.order_timeout_secs == 10,
            r.max_retry_count == 2,
            r.retry_interval_ms == 100,
            r.order_interval_ms == 1000,
    {
        ExecutionConfig::default()
    }

    /// Query timeout 5 s, lock 1 s, order 30 s, no retries, one order a second.
    pub fn backtest() -> (r: ExecutionConfig)
        ensures
            r.strategy_query_timeout_secs == 5,
            r.lock_timeout_secs == 1,
            r.order_timeout_secs == 30,
            r.max_retry_count == 0,
            r.retry_interval_ms == 0,
            r.order_interval_ms == 1000,
    {
        ExecutionConfig {
            strategy_query_timeout_secs: 5,
            lock_timeout_secs: 1,
            order_timeout_secs: 30,
            max_retry_count: 0,
            retry_interval_ms: 0,
            order_interval_ms: 1000,
        }
    }
}

/// `x as u64` for an `i64`: negative values wrap around.
pub open spec fn as_u64(x: int) -> int {
    if x >= 0 { x } else { x + 0x1_0000_0000_0000_0000 }
}

/// Manages order lifecycles.
pub struct OrderExecutor {
    pub config: ExecutionConfig,
}

impl OrderExecutor {
    pub fn new(config: ExecutionConfig) -> (r: OrderExecutor)
        ensures
            r.config == config,
    {
        OrderExecutor { config }
    }

    /// A new order in state `Created`.
    pub fn create_order(
        &self,
        order_id: String,
        symbol: String,
        action: TradingAction,
        quantity: Dec,
        target_price: Dec,
        channel_type: ChannelType,
    ) -> (r: OrderInfo)
        ensures
            r.order_id == order_id,
            r.symbol == symbol,
            r.action == action,
            r.quantity == quantity,
            r.target_price == target_price,
            r.channel_type == channel_type,
            r.lifecycle == OrderLifecycle::Created,
            r.created_at == r.updated_at,
            r.retry_count == 0,
    {
        OrderInfo::new(order_id, symbol, action, quantity, target_price, channel_type)
    }

    /// Moves the order to `new_state`.
    pub fn transition(&self, order: &mut OrderInfo, new_state: OrderLifecycle)
        ensures
            final(order).lifecycle == new_state,
            final(order).order_id == old(order).order_id,
            final(order).quantity == old(order).quantity,
            final(order).created_at == old(order).created_at,
            final(order).retry_count == old(order).retry_count,
    {
        order.transition(new_state);
    }

    /// Whether more than the order timeout has passed since the order was created;
    /// the elapsed time is taken as a `u64`, so a creation time in the future counts
    /// as a very long wait.
    pub fn is_timeout(&self, order: &OrderInfo, now_ts: i64) -> (r: bool)
        requires
            i64::MIN <= now_ts - order.created_at <= i64::MAX,
        ensures
            r == (as_u64(now_ts - order.created_at) > self.config.order_timeout_secs),
    {
        let elapsed: i64 = now_ts - order.created_at;
        let wrapped: u64 = if elapsed >= 0 {
            elapsed as u64
        } else {
            u64::MAX - ((-(elapsed + 1)) as u64)
        };
        wrapped > self.config.order_timeout_secs
    }

    /// Whether the order may be retried.
    pub fn can_retry(&self, order: &OrderInfo) -> (r: bool)
        ensures
            r == (order.retry_count < self.config.max_retry_count),
    {
        order.retry_count < self.config.max_retry_count
    }

    /// Counts a retry.
    pub fn increment_retry(&self, order: &mut OrderInfo)
        requires
            old(order).retry_count < 255,
        ensures
            final(order).retry_count == old(order).retry_count + 1,
            final(order).lifecycle == old(order).lifecycle,
            final(order).order_id == old(order).order_id,
    {
        order.increment_retry();
    }

    pub fn config(&self) -> (r: &ExecutionConfig)
        ensures
            *r == self.config,
    {
        &self.config
    }

    /// Minimum interval between orders, in milliseconds.
    pub fn order_interval_ms(&self) -> (r: u64)
        ensures
            r == self.config.order_interval_ms,
    {
        self.config.order_interval_ms
    }
}

impl Default for OrderExecutor {
    fn default() -> (r: OrderExecutor)
        ensures
            r.config.order_timeout_secs == 10,
            r.config.max_retry_count == 2,
            r.config.order_interval_ms == 1000,
    {
        OrderExecutor::new(ExecutionConfig::default())
    }
}

/// The outcome of one pass of the flow.
#[derive(Debug, Clone)]
pub struct ExecutionResult {
    pub success: bool,
    pub order_id: Option<String>,
    pub message: String,
    pub error_code: Option<u16>,
}

impl ExecutionResult {
    pub fn success(order_id: String, message: &str) -> (r: ExecutionResult)
        ensures
            r.success,
            r.order_id == Some(order_id),
            r.message@ == message@,
            r.error_code.is_none(),
    {
        ExecutionResult { success: true, order_id: Some(order_id), message: message.to_string(), error_code: None }
    }

    pub fn failure(message: &str, error_code: u16) -> (r: ExecutionResult)
        ensures
            !r.success,
            r.order_id.is_none(),
            r.message@ == message@,
            r.error_code == Some(error_code),
    {
        ExecutionResult { success: false, order_id: None, message: message.to_string(), error_code: Some(error_code) }
    }
}

/// Runs the flow: query, checks, execution.
pub struct TradingPipeline {
    pub execution_config: ExecutionConfig,
}

/// The relative deviation is above `limit` percent.
pub open spec fn deviates_more(current: Dec, target: Dec, limit: int) -> bool {
    deviation_spec(current, target).val() > int_ratio(limit, 100).val()
}

impl TradingPipeline {
    pub fn new(execution_config: ExecutionConfig) -> (r: TradingPipeline)
        ensures
            r.execution_config == execution_config,
    {
        TradingPipeline { execution_config }
    }

    /// The strategy query for a symbol, stamped with `timestamp`.
    pub fn build_strategy_query_at(
        &self,
        timestamp: i64,
        account_available: Dec,
        account_risk_state: RiskState,
        current_price: Dec,
        volatility_tier: VolatilityTier,
        position_exists: bool,
        position_direction: PositionSide,
        position_qty: Dec,
        position_entry_price: Dec,
    ) -> (r: StrategyQuery)
        ensures
            r == (StrategyQuery {
                timestamp,
                account_available,
                account_risk_state,
                current_price,
                volatility_tier,
                position_exists,
                position_direction,
                position_qty,
                position_entry_price,
            }),
    {
        StrategyQuery::new(
            timestamp,
            account_available,
            account_risk_state,
            current_price,
            volatility_tier,
            position_exists,
            position_direction,
            position_qty,
            position_entry_price,
        )
    }

    /// The strategy query for a symbol, stamped with the current time.
    pub fn build_strategy_query(
        &self,
        symbol: &str,
        account_available: Dec,
        account_risk_state: RiskState,
        current_price: Dec,
        volatility_tier: VolatilityTier,
        position_exists: bool,
        position_direction: PositionSide,
        position_qty: Dec,
        position_entry_price: Dec,
    ) -> (r: StrategyQuery)
        ensures
            r.account_available == account_available,
            r.account_risk_state == account_risk_state,
            r.current_price == current_price,
            r.volatility_tier == volatility_tier,
            r.position_exists == position_exists,
            r.position_direction == position_direction,
            r.position_qty == position_qty,
            r.position_entry_price == position_entry_price,
    {
        let now = crate::clock::utc_now_secs();
        self.build_strategy_query_at(
            now,
            account_available,
            account_risk_state,
            current_price,
            volatility_tier,
            position_exists,
            position_direction,
            position_qty,
            position_entry_price,
        )
    }

    /// Runs the strategy.  No strategy is wired in here, so the answer is to do
    /// nothing.
    pub fn execute_strategy(&self, query: &StrategyQuery) -> (r: StrategyResponse)
        ensures
            !r.should_execute,
            r.action == TradingAction::Flat,
            r.reason@ == "策略未实现"@,
    {
        StrategyResponse::no_action("策略未实现")
    }

    /// The check outside the lock: the response asks for execution and funds are
    /// available.
    pub fn pre_check(&self, response: &StrategyResponse, account_available: Dec) -> (r: bool)
        ensures
            r == (response.should_execute && account_available.val() > 0),
    {
        if !response.should_execute {
            return false;
        }
        if account_available.le(&Dec::zero()) {
            return false;
        }
        true
    }

    /// The check under the lock: the response asks for execution and, for a target
    /// price above zero, the price deviates by at most 5 %.
    pub fn lock_check(&self, response: &StrategyResponse, current_price: Dec, target_price: Dec) -> (r: bool)
        requires
            response.should_execute && response.target_price.val() > 0 ==> deviation_ok(
                current_price,
                response.target_price,
            ),
        ensures
            r == (response.should_execute && !(response.target_price.val() > 0 && deviates_more(
                current_price,
                response.target_price,
                5,
            ))),
    {
        if !response.should_execute {
            return false;
        }
        if response.target_price.gt(&Dec::zero()) {
            let deviation = price_deviation(&current_price, &response.target_price);
            if deviation.gt(&ratio_of(5, 100)) {
                return false;
            }
        }
        true
    }

    pub fn config(&self) -> (r: &ExecutionConfig)
        ensures
            *r == self.execution_config,
    {
        &self.execution_config
    }

    /// A state syncer.
    pub fn state_syncer(&self) -> (r: StateSyncer) {
        StateSyncer::new()
    }
}

impl Default for TradingPipeline {
    fn default() -> (r: TradingPipeline)
        ensures
            r.execution_config.order_timeout_secs == 10,
            r.execution_config.max_retry_count == 2,
    {
        TradingPipeline::new(ExecutionConfig::default())
    }
}

/// Aligns local state with the exchange's under the trade lock.
pub struct StateSyncer;

/// `prefix` + a + `middle` + b.
pub open spec fn two_amounts(prefix: Seq<char>, a: Dec, middle: Seq<char>, b: Dec) -> Seq<char> {
    prefix + rd_text(a.mant(), a.scl()) + middle + rd_text(b.mant(), b.scl())
}

/// The account's amounts differ by more than 1 % of the local amount.
pub open spec fn account_drift(local: Dec, exchange: Dec) -> bool {
    local.val() > 0 && div_spec(abs_spec(sub_spec(local, exchange)), local).val() > int_ratio(1, 100).val()
}

impl StateSyncer {
    pub fn new() -> (r: StateSyncer) {
        StateSyncer
    }

    /// Compares the position with the exchange's.  A different quantity, or (both
    /// prices positive) average prices more than 1 % apart, is an error; otherwise the
    /// exchange's quantity and price are taken.
    pub fn sync_position(
        &self,
        local_qty: Dec,
        exchange_qty: Dec,
        local_price: Dec,
        exchange_price: Dec,
    ) -> (r: Result<(Dec, Dec), String>)
        requires
            local_price.val() > 0 && exchange_price.val() > 0 ==> deviation_ok(local_price, exchange_price),
        ensures
            local_qty.val() != exchange_qty.val() ==> r is Err && r->Err_0@ == two_amounts(
                "持仓数量不一致: 本地="@,
                local_qty,
                ", 交易所="@,
                exchange_qty,
            ),
            local_qty.val() == exchange_qty.val() && local_price.val() > 0 && exchange_price.val() > 0
                && deviates_more(local_price, exchange_price, 1) ==> r is Err && r->Err_0@ == two_amounts(
                "持仓均价偏差过大: 本地="@,
                local_price,
                ", 交易所="@,
                exchange_price,
            ),
            local_qty.val() == exchange_qty.val() && !(local_price.val() > 0 && exchange_price.val() > 0
                && deviates_more(local_price, exchange_price, 1)) ==> r == Ok::<(Dec, Dec), String>(
                (exchange_qty, exchange_price),
            ),
    {
        if !local_qty.eq_val(&exchange_qty) {
            let mut msg = with_amount("持仓数量不一致: 本地=", &local_qty);
            let tail = with_amount(", 交易所=", &exchange_qty);
            msg.append(tail.as_str());
            return Err(msg);
        }
        if local_price.gt(&Dec::zero()) && exchange_price.gt(&Dec::zero()) {
            let deviation = price_deviation(&local_price, &exchange_price);
            if deviation.gt(&ratio_of(1, 100)) {
                let mut msg = with_amount("持仓均价偏差过大: 本地=", &local_price);
                let tail = with_amount(", 交易所=", &exchange_price);
                msg.append(tail.as_str());
                return Err(msg);
            }
        }
        Ok((exchange_qty, exchange_price))
    }

    /// Compares the available funds with the exchange's: more than 1 % of a positive
    /// local amount apart is an error; otherwise the exchange's amount is taken.
    pub fn sync_account(&self, local_available: Dec, exchange_available: Dec) -> (r: Result<Dec, String>)
        requires
            sum_in_range(local_available, exchange_available, -1),
            local_available.val() > 0 ==> quotient_in_range(
                abs_spec(sub_spec(local_available, exchange_available)),
                local_available,
            ),
        ensures
            account_drift(local_available, exchange_available) ==> r is Err && r->Err_0@ == two_amounts(
                "账户可用资金不一致: 本地="@,
                local_available,
                ", 交易所="@,
                exchange_available,
            ),
            !account_drift(local_available, exchange_available) ==> r == Ok::<Dec, String>(exchange_available),
    {
        let diff = local_available.sub(&exchange_available).abs();
        if local_available.gt(&Dec::zero()) {
            let ratio = diff.div(&local_available);
            if ratio.gt(&ratio_of(1, 100)) {
                let mut msg = with_amount("账户可用资金不一致: 本地=", &local_available);
                let tail = with_amount(", 交易所=", &exchange_available);
                msg.append(tail.as_str());
                return Err(msg);
            }
        }
        Ok(exchange_available)
    }
}

impl Default for StateSyncer {
    fn default() -> (r: StateSyncer) {
        StateSyncer::new()
    }
}

} // verus!
