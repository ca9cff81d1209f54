//! Status and errors of the trading engine.
use vstd::prelude::*;
use crate::decimal::{Dec, mul_spec, product_in_range};
use crate::text::{signed_text, signed_digits};
use crate::keyed::find_key;
use crate::f_engine::business_types::{ChannelType, OrderInfo, OrderLifecycle, PositionSide, RiskState, VolatilityTier};
use crate::f_engine::engine_state::{EngineMode, EngineState, EngineStatus, engine_id_of};
use crate::f_engine::execution::{ExecutionConfig, OrderExecutor, TradingPipeline};
use crate::f_engine::fund_pool::{FundPoolManager, pool_of};
use crate::f_engine::monitoring::TimeoutMonitor;
use crate::f_engine::risk_manager::{RiskConfig, RiskManager};
use crate::f_engine::rollback::{RollbackManager, release_ok};
use crate::f_engine::state::{TradeLock, try_lock_result, lock_moved, fresh_lock_taken};
use crate::f_engine::triggers::TriggerManager;

verus! {

/// A snapshot of the circuit breaker.
#[derive(Debug, Clone)]
pub struct CircuitBreakerStatus {
    pub is_triggered: bool,
    pub consecutive_errors: u32,
    pub max_errors: u32,
}

/// Why a tick was not traded.
#[derive(Debug, Clone)]
pub enum TradingError {
    EngineNotRunning,
    InsufficientFunds,
    RiskRejected(String),
    LockFailed,
    OrderFailed(String),
    Timeout(String),
    StateInconsistent,
}

/// The message of a trading error.
pub open spec fn trading_error_text(e: TradingError) -> Seq<char> {
    match e {
        TradingError::EngineNotRunning => "引擎未运行"@,
        TradingError::InsufficientFunds => "资金不足"@,
        TradingError::RiskRejected(m) => "风控拒绝: "@ + m@,
        TradingError::LockFailed => "抢锁失败"@,
        TradingError::OrderFailed(m) => "下单失败: "@ + m@,
        TradingError::Timeout(m) => "超时: "@ + m@,
        TradingError::StateInconsistent => "状态不一致"@,
    }
}

/// `prefix` followed by `m`.
fn prefixed(prefix: &str, m: &String) -> (r: String)
    ensures
        r@ == prefix@ + m@,
{
    let mut s = prefix.to_string();
    s.append(m.as_str());
    s
}

impl TradingError {
    pub fn to_string(&self) -> (r: String)
        ensures
            r@ == trading_error_text(*self),
    {
        match self {
            TradingError::EngineNotRunning => "引擎未运行".to_string(),
            TradingError::InsufficientFunds => "资金不足".to_string(),
            TradingError::RiskRejected(m) => prefixed("风控拒绝: ", m),
            TradingError::LockFailed => "抢锁失败".to_string(),
            TradingError::OrderFailed(m) => prefixed("下单失败: ", m),
            TradingError::Timeout(m) => prefixed("超时: ", m),
            TradingError::StateInconsistent => "状态不一致".to_string(),
        }
    }
}

/// Settings of the component supervisor.
#[derive(Debug, Clone)]
pub struct EngineManagerConfig {
    pub heartbeat_timeout_secs: i64,
    pub max_restart_count: u32,
    pub restart_interval_secs: u64,
}

impl Default for EngineManagerConfig {
    /// 30 s heartbeat timeout, three restarts, 5 s apart.
    fn default() -> (r: EngineManagerConfig)
        ensures
            r.heartbeat_timeout_secs == 30,
            r.max_restart_count == 3,
            r.restart_interval_secs == 5,
    {
        EngineManagerConfig { heartbeat_timeout_secs: 30, max_restart_count: 3, restart_interval_secs: 5 }
    }
}

/// Errors of the component supervisor.
#[derive(Debug)]
pub enum EngineError {
    AlreadyExists(String),
    NotFound(String),
    RestartLimitExceeded(String),
    ShutdownFailed(String, String),
}

impl EngineError {
    pub fn to_string(&self) -> (r: String)
        ensures
            match self {
                EngineError::AlreadyExists(c) => r@ == "组件 "@ + c@ + " 已存在"@,
                EngineError::NotFound(c) => r@ == "组件 "@ + c@ + " 不存在"@,
                EngineError::RestartLimitExceeded(c) => r@ == "组件 "@ + c@ + " 重启次数超限"@,
                EngineError::ShutdownFailed(c, m) => r@ == "组件 "@ + c@ + " 关闭失败: "@ + m@,
            },
    {
        match self {
            EngineError::AlreadyExists(c) => {
                let mut s = prefixed("组件 ", c);
                s.append(" 已存在");
                s
            },
            EngineError::NotFound(c) => {
                let mut s = prefixed("组件 ", c);
                s.append(" 不存在");
                s
            },
            EngineError::RestartLimitExceeded(c) => {
                let mut s = prefixed("组件 ", c);
                s.append(" 重启次数超限");
                s
            },
            EngineError::ShutdownFailed(c, m) => {
                let mut s = prefixed("组件 ", c);
                s.append(" 关闭失败: ");
                s.append(m.as_str());
                s
            },
        }
    }
}

/// A tick could not be put on the bus.
#[derive(Debug, Clone)]
pub struct TickSendError(pub String);

/// A closed kline could not be put on the bus.
#[derive(Debug, Clone)]
pub struct KlineSendError(pub String);

/// An order event could not be put on the bus.
#[derive(Debug, Clone)]
pub struct OrderSendError(pub String);

impl TickSendError {
    pub fn to_string(&self) -> (r: String)
        ensures
            r@ == "Tick发送失败: "@ + self.0@,
    {
        prefixed("Tick发送失败: ", &self.0)
    }
}

impl KlineSendError {
    pub fn to_string(&self) -> (r: String)
        ensures
            r@ == "K线事件发送失败: "@ + self.0@,
    {
        prefixed("K线事件发送失败: ", &self.0)
    }
}

impl OrderSendError {
    pub fn to_string(&self) -> (r: String)
        ensures
            r@ == "订单事件发送失败: "@ + self.0@,
    {
        prefixed("订单事件发送失败: ", &self.0)
    }
}

/// Settings of the trading engine.
#[derive(Debug, Clone)]
pub struct TradingEngineConfig {
    pub execution: ExecutionConfig,
    pub risk: RiskConfig,
    pub mode: EngineMode,
    pub minute_fund: Dec,
    pub daily_fund: Dec,
}

impl Default for TradingEngineConfig {
    /// Production execution and risk settings, simulation mode, 10000 for the minute
    /// pool and 20000 for the daily one.
    fn default() -> (r: TradingEngineConfig)
        ensures
            r.mode == EngineMode::Simulation,
            r.minute_fund.mant() == 10000 && r.minute_fund.scl() == 0,
            r.daily_fund.mant() == 20000 && r.daily_fund.scl() == 0,
            r.risk.max_running_symbols == 10,
    {
        TradingEngineConfig {
            execution: ExecutionConfig::production(),
            risk: RiskConfig::default(),
            mode: EngineMode::Simulation,
            minute_fund: Dec::new(10000, 0),
            daily_fund: Dec::new(20000, 0),
        }
    }
}

/// The engine of the minute channel: triggers, the strategy query, the two risk
/// checks around the symbol lock, freezing funds and creating the order.
pub struct TradingEngineV2 {
    pub engine_state: EngineState,
    pub trigger_manager: TriggerManager,
    pub pipeline: TradingPipeline,
    pub order_executor: OrderExecutor,
    pub risk_manager: RiskManager,
    pub timeout_monitor: TimeoutMonitor,
    /// Holds the fund pools that orders freeze, confirm and roll back.
    pub rollback_manager: RollbackManager,
    /// Milliseconds.
    pub last_order_time_ms: i64,
    pub symbol_locks: Vec<(String, TradeLock)>,
    pub lock_timeout_secs: i64,
}

/// `ord_<symbol>_<seconds>`.
pub open spec fn order_id_text(symbol: Seq<char>, ts: int) -> Seq<char> {
    "ord_"@ + symbol + "_"@ + signed_digits(ts)
}

fn order_id_for(symbol: &str, ts: i64) -> (r: String)
    ensures
        r@ == order_id_text(symbol@, ts as int),
{
    let mut s = "ord_".to_string();
    s.append(symbol);
    s.append("_");
    let t = signed_text(ts);
    s.append(t.as_str());
    proof {
        assert(s@ =~= order_id_text(symbol@, ts as int));
    }
    s
}

impl TradingEngineV2 {
    /// A stopped engine over fresh pools of the configured sizes, with production
    /// triggers, a 180-second timeout monitor and a one-second symbol lock.
    pub fn new_at(config: TradingEngineConfig, now: i64, process_id: u32) -> (r: TradingEngineV2)
        ensures
            r.engine_state.engine_id_spec() == engine_id_of(now as int, process_id as nat),
            r.engine_state.start_time_spec() == now,
            r.engine_state.wf(),
            r.engine_state.status_spec() == EngineStatus::Initializing,
            pool_of(r.rollback_manager.fund_pool_manager, ChannelType::HighSpeed).allocated == config.minute_fund,
            pool_of(r.rollback_manager.fund_pool_manager, ChannelType::LowSpeed).allocated == config.daily_fund,
            r.last_order_time_ms == 0,
            r.symbol_locks@.len() == 0,
            r.lock_timeout_secs == 1,
    {
        let fund_for_risk = FundPoolManager::new(config.minute_fund.copy(), config.daily_fund.copy());
        let fund_pool = FundPoolManager::new(config.minute_fund, config.daily_fund);
        TradingEngineV2 {
            engine_state: EngineState::new_at(config.mode, now, process_id),
            trigger_manager: TriggerManager::default(),
            pipeline: TradingPipeline::new(config.execution.clone()),
            order_executor: OrderExecutor::new(config.execution),
            risk_manager: RiskManager::new(config.risk, fund_for_risk),
            timeout_monitor: TimeoutMonitor::new(180),
            rollback_manager: RollbackManager::new(fund_pool),
            last_order_time_ms: 0,
            symbol_locks: Vec::new(),
            lock_timeout_secs: 1,
        }
    }

    /// A stopped engine created now by the process `process_id`; see `new_at`.
    pub fn new(config: TradingEngineConfig, process_id: u32) -> (r: TradingEngineV2)
        ensures
            r.engine_state.engine_id_spec() == engine_id_of(
                r.engine_state.start_time_spec() as int,
                process_id as nat,
            ),
            r.engine_state.wf(),
            r.engine_state.status_spec() == EngineStatus::Initializing,
            pool_of(r.rollback_manager.fund_pool_manager, ChannelType::HighSpeed).allocated == config.minute_fund,
            pool_of(r.rollback_manager.fund_pool_manager, ChannelType::LowSpeed).allocated == config.daily_fund,
            r.last_order_time_ms == 0,
            r.symbol_locks@.len() == 0,
            r.lock_timeout_secs == 1,
    {
        TradingEngineV2::new_at(config, crate::clock::utc_now_secs(), process_id)
    }

    /// Whether the engine state allows trading.
    pub fn can_trade(&self) -> (r: bool)
        ensures
            r == self.engine_state.can_trade_spec(),
    {
        self.engine_state.can_trade()
    }

    /// Takes the symbol's lock (created on first use) at time `now`: the symbol's entry
    /// (a new unlocked one appended when there is none) goes through `try_lock_at`,
    /// whose answer is returned; nothing else changes.
    fn try_acquire_lock(&mut self, symbol: &str, timeout_secs: i64, now: i64) -> (r: bool)
        requires
            i64::MIN <= now + timeout_secs <= i64::MAX,
        ensures
            *final(self) == (TradingEngineV2 { symbol_locks: final(self).symbol_locks, ..*old(self) }),
            ({
                let a = old(self).symbol_locks@;
                let b = final(self).symbol_locks@;
                ||| exists|i: int|
                    0 <= i < a.len() && #[trigger] a[i].0@ == symbol@ && {
                        let t = try_lock_result(a[i].1.lock_until_spec(), now, timeout_secs);
                        &&& b.len() == a.len()
                        &&& b[i].0 == a[i].0
                        &&& lock_moved(a[i].1, b[i].1, t.1)
                        &&& r == t.0
                        &&& forall|j: int| 0 <= j < a.len() && j != i ==> b[j] == a[j]
                    }
                ||| {
                    let t = try_lock_result(0, now, timeout_secs);
                    &&& forall|i: int| 0 <= i < a.len() ==> a[i].0@ != symbol@
                    &&& b.len() == a.len() + 1
                    &&& b.subrange(0, a.len() as int) == a
                    &&& b[a.len() as int].0@ == symbol@
                    &&& fresh_lock_taken(b[a.len() as int].1, t.1)
                    &&& r == t.0
                }
            }),
    {
        let ghost a = self.symbol_locks@;
        let i = match find_key(&self.symbol_locks, symbol) {
            Some(i) => i,
            None => {
                self.symbol_locks.push((symbol.to_string(), TradeLock::new()));
                self.symbol_locks.len() - 1
            },
        };
        let ghost s0 = self.symbol_locks@;
        let mut entry = self.symbol_locks.remove(i);
        let ghost before = entry;
        let taken = entry.1.try_lock_at(timeout_secs, now);
        self.symbol_locks.insert(i, entry);
        proof {
            assert(self.symbol_locks@ =~= s0.update(i as int, entry));
            if i < a.len() {
                assert(s0 == a);
                assert(a[i as int].0@ == symbol@);
            } else {
                assert(self.symbol_locks@.subrange(0, a.len() as int) =~= a);
            }
        }
        taken
    }

    /// Releases the symbol's lock, if it has one: that entry's lock is unlocked and
    /// nothing else changes.
    fn release_lock(&mut self, symbol: &str)
        ensures
            *final(self) == (TradingEngineV2 { symbol_locks: final(self).symbol_locks, ..*old(self) }),
            ({
                let a = old(self).symbol_locks@;
                let b = final(self).symbol_locks@;
                ||| exists|i: int|
                    0 <= i < a.len() && #[trigger] a[i].0@ == symbol@ && {
                        &&& b.len() == a.len()
                        &&& b[i].0 == a[i].0
                        &&& lock_moved(a[i].1, b[i].1, 0)
                        &&& forall|j: int| 0 <= j < a.len() && j != i ==> b[j] == a[j]
                    }
                ||| (forall|i: int| 0 <= i < a.len() ==> a[i].0@ != symbol@) && b == a
            }),
    {
        match find_key(&self.symbol_locks, symbol) {
            Some(i) => {
                let ghost a = self.symbol_locks@;
                let mut entry = self.symbol_locks.remove(i);
                entry.1.unlock();
                self.symbol_locks.insert(i, entry);
                proof {
                    assert(self.symbol_locks@ =~= a.update(i as int, entry));
                    assert(a[i as int].0@ == symbol@);
                }
            },
            None => {},
        }
    }

    /// Processes a tick at time `now_ts` (seconds) / `now_ms` (milliseconds): the
    /// minute trigger, the strategy query, the check outside the lock, the symbol lock,
    /// the check under it, the position check, the order interval, freezing the order
    /// value and creating the order.  The strategy step asks no strategy and answers
    /// to do nothing, so a running engine never gets past the first check: the result
    /// is `Ok(None)` and nothing changes; a stopped one refuses.
    pub fn process_tick_at(
        &mut self,
        symbol: &str,
        price: Dec,
        volatility: Dec,
        current_position_qty: Dec,
        current_position_price: Dec,
        now_ts: i64,
        now_ms: i64,
    ) -> (r: Result<Option<OrderInfo>, TradingError>)
        requires
            old(self).engine_state.wf(),
            pool_of(old(self).rollback_manager.fund_pool_manager, ChannelType::HighSpeed).available_ok(),
        ensures
            !old(self).engine_state.can_trade_spec() ==> r matches Err(TradingError::EngineNotRunning),
            old(self).engine_state.can_trade_spec() ==> r matches Ok(None),
            *final(self) == *old(self),
    {
        if !self.can_trade() {
            return Err(TradingError::EngineNotRunning);
        }
        let trigger_result = self.trigger_manager.minute_trigger().check(symbol, volatility, &self.engine_state);
        if !trigger_result.precheck_passed {
            return Ok(None);
        }
        let zero = Dec::zero();
        let has_position = current_position_qty.gt(&zero);
        let side = if current_position_qty.gt(&zero) {
            PositionSide::LONG
        } else if current_position_qty.lt(&zero) {
            PositionSide::SHORT
        } else {
            PositionSide::NONE
        };
        let available = self.rollback_manager.fund_pool_manager.available(ChannelType::HighSpeed);
        let query = self.pipeline.build_strategy_query_at(
            now_ts,
            available.copy(),
            RiskState::Normal,
            price.copy(),
            VolatilityTier::High,
            has_position,
            side,
            current_position_qty.abs(),
            current_position_price.copy(),
        );
        let timeout_secs = self.pipeline.config().strategy_query_timeout_secs;
        let strategy_start = now_ms;
        let response = self.pipeline.execute_strategy(&query);
        let elapsed = now_ms - strategy_start;
        if timeout_secs <= 9000000000000000 && elapsed > (timeout_secs * 1000) as i64 {
            if self.engine_state.consecutive_errors() < u32::MAX {
                self.engine_state.record_error();
            }
            return Err(TradingError::Timeout("StrategyQuery 超时".to_string()));
        }
        if !self.pipeline.pre_check(&response, available) {
            return Ok(None);
        }
        // The response asked for execution, which the strategy step never does; what
        // follows is the engine's path for an executable response.
        let lock_timeout = self.lock_timeout_secs;
        if (lock_timeout > 0 && now_ts > i64::MAX - lock_timeout) || (lock_timeout < 0 && now_ts < i64::MIN
            - lock_timeout) {
            return Ok(None);
        }
        if !self.try_acquire_lock(symbol, lock_timeout, now_ts) {
            if self.engine_state.consecutive_errors() < u32::MAX {
                self.engine_state.record_error();
            }
            return Err(TradingError::LockFailed);
        }
        let hs_available = self.rollback_manager.fund_pool_manager.available(ChannelType::HighSpeed);
        let risk_result = self.risk_manager.lock_check(&response, price, current_position_price.copy(), hs_available);
        if !risk_result.lock_check_passed {
            self.release_lock(symbol);
            if self.engine_state.consecutive_errors() < u32::MAX {
                self.engine_state.record_error();
            }
            return Err(TradingError::RiskRejected("风控二次精校拒绝".to_string()));
        }
        let syncer = self.pipeline.state_syncer();
        if syncer.sync_position(
            current_position_qty.copy(),
            current_position_qty.copy(),
            current_position_price.copy(),
            current_position_price.copy(),
        ).is_err() {
            self.release_lock(symbol);
            return Err(TradingError::StateInconsistent);
        }
        let interval_ms = self.order_executor.order_interval_ms();
        if interval_ms <= 9000000000000000000 && now_ms - self.last_order_time_ms < interval_ms as i64 {
            self.release_lock(symbol);
            return Ok(None);
        }
        let order_value = response.quantity.mul(&response.target_price);
        if !self.rollback_manager.fund_pool_manager.freeze(ChannelType::HighSpeed, order_value) {
            self.release_lock(symbol);
            return Err(TradingError::InsufficientFunds);
        }
        self.release_lock(symbol);
        let mut order = self.order_executor.create_order(
            order_id_for(symbol, now_ts),
            symbol.to_string(),
            response.action,
            response.quantity,
            response.target_price,
            ChannelType::HighSpeed,
        );
        self.order_executor.transition(&mut order, OrderLifecycle::Sent);
        self.last_order_time_ms = now_ms;
        self.engine_state.record_order_sent();
        Ok(Some(order))
    }

    /// `process_tick_at` at the current time.
    pub fn process_tick(
        &mut self,
        symbol: &str,
        price: Dec,
        volatility: Dec,
        current_position_qty: Dec,
        current_position_price: Dec,
    ) -> (r: Result<Option<OrderInfo>, TradingError>)
        requires
            old(self).engine_state.wf(),
            pool_of(old(self).rollback_manager.fund_pool_manager, ChannelType::HighSpeed).available_ok(),
        ensures
            !old(self).engine_state.can_trade_spec() ==> r matches Err(TradingError::EngineNotRunning),
            old(self).engine_state.can_trade_spec() ==> r matches Ok(None),
            *final(self) == *old(self),
    {
        let now_ts = crate::clock::utc_now_secs();
        let now_ms = if now_ts > 9000000000000000 || now_ts < -9000000000000000 { 0 } else { now_ts * 1000 };
        self.process_tick_at(symbol, price, volatility, current_position_qty, current_position_price, now_ts, now_ms)
    }

    /// A fill: the filled value's frozen funds become used, the fill is counted and the
    /// error streak is cleared.
    pub fn handle_fill(&mut self, order: &OrderInfo, fill_price: Dec, fill_qty: Dec) -> (r: Result<(), TradingError>)
        requires
            product_in_range(fill_qty, fill_price),
            ({
                let pool = pool_of(old(self).rollback_manager.fund_pool_manager, order.channel_type);
                let value = mul_spec(fill_qty, fill_price);
                value.val() <= pool.frozen.val() ==> crate::decimal::sum_in_range(pool.frozen, value, -1)
                    && crate::decimal::sum_in_range(pool.used, value, 1)
            }),
        ensures
            r is Ok,
            ({
                let before = pool_of(old(self).rollback_manager.fund_pool_manager, order.channel_type);
                let after = pool_of(final(self).rollback_manager.fund_pool_manager, order.channel_type);
                let value = mul_spec(fill_qty, fill_price);
                &&& value.val() <= before.frozen.val() ==> after.frozen == crate::decimal::sub_spec(before.frozen, value)
                    && after.used == crate::decimal::add_spec(before.used, value)
                &&& value.val() > before.frozen.val() ==> after == before
                &&& after.allocated == before.allocated
            }),
            crate::f_engine::fund_pool::other_unchanged(
                old(self).rollback_manager.fund_pool_manager,
                final(self).rollback_manager.fund_pool_manager,
                order.channel_type,
            ),
            final(self).engine_state.filled_spec() == old(self).engine_state.filled_spec().wrapping_add(1),
            final(self).engine_state.breaker_spec().consecutive_errors == 0,
            !final(self).engine_state.breaker_spec().is_triggered,
    {
        let order_value = fill_qty.mul(&fill_price);
        self.rollback_manager.fund_pool_manager.confirm_usage(order.channel_type, order_value);
        self.engine_state.record_order_filled();
        self.engine_state.reset_consecutive_errors();
        Ok(())
    }

    /// A failure: the order's value is released from the frozen funds, the failure is
    /// counted and recorded as an error.
    pub fn handle_failure(&mut self, order: &OrderInfo, reason: &str)
        requires
            product_in_range(order.quantity, order.target_price),
            release_ok(
                old(self).rollback_manager.fund_pool_manager,
                order.channel_type,
                mul_spec(order.quantity, order.target_price),
            ),
            old(self).engine_state.breaker_spec().consecutive_errors < u32::MAX,
        ensures
            final(self).engine_state.failed_spec() == old(self).engine_state.failed_spec().wrapping_add(1),
            final(self).engine_state.breaker_spec().consecutive_errors == old(
                self,
            ).engine_state.breaker_spec().consecutive_errors + 1,
    {
        let order_value = order.quantity.mul(&order.target_price);
        let _ = self.rollback_manager.rollback_order(order.channel_type, order_value);
        self.engine_state.record_order_failed();
        self.engine_state.record_error();
    }

    pub fn status(&self) -> (r: EngineStatus)
        ensures
            r == self.engine_state.status_spec(),
    {
        self.engine_state.status()
    }

    /// What the minute and the daily pool have available.
    pub fn fund_status(&self) -> (r: (Dec, Dec))
        requires
            pool_of(self.rollback_manager.fund_pool_manager, ChannelType::HighSpeed).available_ok(),
            pool_of(self.rollback_manager.fund_pool_manager, ChannelType::LowSpeed).available_ok(),
        ensures
            r.0 == pool_of(self.rollback_manager.fund_pool_manager, ChannelType::HighSpeed).available_spec(),
            r.1 == pool_of(self.rollback_manager.fund_pool_manager, ChannelType::LowSpeed).available_spec(),
    {
        (
            self.rollback_manager.fund_pool_manager.available(ChannelType::HighSpeed),
            self.rollback_manager.fund_pool_manager.available(ChannelType::LowSpeed),
        )
    }

    /// Starts the engine at time `now`.
    pub fn start_at(&mut self, now: i64)
        ensures
            final(self).engine_state.status_spec() == EngineStatus::Running,
    {
        self.engine_state.start_at(now);
    }

    /// Starts the engine now.
    pub fn start(&mut self)
        ensures
            final(self).engine_state.status_spec() == EngineStatus::Running,
    {
        self.engine_state.start();
    }

    /// Stops the engine.
    pub fn stop(&mut self)
        ensures
            final(self).engine_state.status_spec() == EngineStatus::Stopped,
    {
        self.engine_state.stop();
    }

    pub fn timeout_monitor(&self) -> (r: &TimeoutMonitor)
        ensures
            *r == self.timeout_monitor,
    {
        &self.timeout_monitor
    }

    /// The breaker: whether it tripped, the error streak and its limit.
    pub fn circuit_breaker_status(&self) -> (r: CircuitBreakerStatus)
        ensures
            r.is_triggered == self.engine_state.breaker_spec().is_triggered,
            r.consecutive_errors == self.engine_state.breaker_spec().consecutive_errors,
            r.max_errors == self.engine_state.breaker_spec().config.max_consecutive_errors,
    {
        let cb = self.engine_state.circuit_breaker();
        CircuitBreakerStatus {
            is_triggered: cb.is_triggered(),
            consecutive_errors: cb.consecutive_errors(),
            max_errors: cb.config.max_consecutive_errors(),
        }
    }
}

} // verus!
