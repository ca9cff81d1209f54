//! The trading engine: the account and strategy pools, risk checks, positions and
//! the simulated exchange, tied together per tick and per order.  Market data and
//! the indicator feeds are the caller's.
use vstd::prelude::*;
use crate::decimal::{Dec, mul_spec, product_in_range, sum_in_range};
use crate::engine::account_pool::{AccountPool, CircuitBreakerState};
use crate::engine::check_table::CheckTable;
use crate::engine::error::EngineError;
use crate::engine::market_status::{MarketStatus, MarketStatusDetector};
use crate::engine::mock_binance_gateway::{
    CsvWriter, MockAccount, MockBinanceGateway, MockPosition, OrderResult, OrderStatus, RiskConfig, order_price,
    order_id_text, place_order_ok,
};
use crate::engine::mode::ModeSwitcher;
use crate::engine::order_check::OrderCheck;
use crate::engine::pnl_manager::PnlManager;
use crate::engine::position_manager::{Direction, LocalPositionManager, open_ok, opened, close_ok, close_pnl};
use crate::engine::risk::RiskPreChecker;
use crate::engine::risk_rechecker::RiskReChecker;
use crate::engine::round_guard::{RoundGuard, RoundGuardScope};
use crate::engine::strategy_pool::{StrategyPool, not_registered_text, pool_rebalanced, rebalance_ok};
use crate::engine::strategy_types::{OrderRequest, Side};

verus! {

/// The strategy the engine trades for.
pub open spec fn main_strategy() -> Seq<char> {
    "main"@
}

/// The value an order commits: its quantity times its price (its quantity when it
/// has no price).
pub open spec fn order_value(order: OrderRequest) -> Dec {
    mul_spec(order.qty, order_price(order))
}

/// The order as it goes to the exchange: without a price it takes the current one.
pub open spec fn routed(order: OrderRequest, current_price: Dec) -> OrderRequest {
    OrderRequest {
        price: Some(
            match order.price {
                Some(p) => p,
                None => current_price,
            },
        ),
        ..order
    }
}

/// The position direction of an order side.
pub open spec fn direction_of(side: Side) -> Direction {
    match side {
        Side::Long => Direction::Long,
        Side::Short => Direction::Short,
    }
}

/// Reserving `value` for the main strategy succeeds: it is registered, enabled and
/// has that much available.
pub open spec fn reserve_succeeds(pool: StrategyPool, value: Dec) -> bool {
    let m = pool.alloc_map();
    &&& m.dom().contains(main_strategy())
    &&& m[main_strategy()].enabled
    &&& m[main_strategy()].available.val() >= value.val()
}

/// The engine.
pub struct TradingEngine {
    pub risk_checker: RiskPreChecker,
    pub risk_rechecker: RiskReChecker,
    pub mode_switcher: ModeSwitcher,
    pub market_detector: MarketStatusDetector,
    pub order_check: OrderCheck,
    pub position_manager: LocalPositionManager,
    pub pnl_manager: PnlManager,
    pub account_pool: AccountPool,
    pub strategy_pool: StrategyPool,
    pub round_guard: RoundGuard,
    pub check_table: CheckTable,
    pub gateway: MockBinanceGateway,
    pub symbol: String,
    /// Seconds.
    pub current_ts: i64,
    pub current_price: Dec,
    pub is_running: bool,
}

impl TradingEngine {
    /// An engine for `symbol` with `initial_balance`: a production gateway, a
    /// pre-checker allowing 95 % of the equity with 1000 kept in reserve, and an
    /// account pool breaking at 20 % (partly at 10 %) loss; not running.
    pub fn new_at(symbol: String, initial_balance: Dec, now: i64) -> (r: TradingEngine)
        ensures
            r.symbol == symbol,
            r.gateway.wf(),
            r.gateway.account.available == initial_balance,
            r.risk_checker.max_position_ratio.mant() == 95 && r.risk_checker.max_position_ratio.scl() == 2,
            r.risk_checker.min_reserve_balance.mant() == 1000 && r.risk_checker.min_reserve_balance.scl() == 0,
            r.account_pool.initial_balance == initial_balance,
            r.account_pool.account.available == initial_balance,
            r.account_pool.account.circuit_state == CircuitBreakerState::Normal,
            r.account_pool.circuit_threshold.mant() == 20 && r.account_pool.circuit_threshold.scl() == 2,
            r.account_pool.partial_circuit_threshold.mant() == 10
                && r.account_pool.partial_circuit_threshold.scl() == 2,
            r.strategy_pool.wf(),
            r.strategy_pool.alloc_map().dom().len() == 0,
            r.round_guard.id() == 0,
            r.current_ts == 0,
            r.current_price == Dec::of_parts(0, 0),
            !r.is_running,
    {
        let gateway = MockBinanceGateway::new_at(initial_balance.copy(), RiskConfig::production(), CsvWriter::default(), now);
        let risk_checker = RiskPreChecker::new(Dec::new(95, 2), Dec::new(1000, 0));
        let ct = Dec::new(20, 2);
        proof {
            Dec::lemma_of_parts(20, 2);
            Dec::lemma_of_parts(4, 0);
            reveal_with_fuel(crate::decimal::pow10, 30);
            assert(crate::decimal::pow10(26) == 100000000000000000000000000);
            assert(crate::decimal::pow10(28) == 10000000000000000000000000000);
            assert(ct.val() == 2000000000000000000000000000);
            assert(Dec::of_parts(4, 0).val() == 40000000000000000000000000000);
            assert(ct.val() * crate::decimal::pow10(28) == 20000000000000000000000000000000000000000000000000000000);
            assert(crate::decimal::abs_int(Dec::of_parts(4, 0).val()) == 40000000000000000000000000000);
            assert(crate::decimal::value_limit() * 40000000000000000000000000000 == 4000000000000000000000000000000000000000000000000000000000000000000000000000000000000int);
            assert(crate::decimal::quotient_in_range(ct, Dec::of_parts(4, 0)));
        }
        let account_pool = AccountPool::with_config(initial_balance, ct, Dec::new(10, 2));
        let strategy_pool = StrategyPool::new();
        proof {
            assert(strategy_pool.alloc_map().dom() =~= Set::empty());
        }
        TradingEngine {
            risk_checker,
            risk_rechecker: RiskReChecker::new(),
            mode_switcher: ModeSwitcher::new(),
            market_detector: MarketStatusDetector::new(),
            order_check: OrderCheck::new(),
            position_manager: LocalPositionManager::new(),
            pnl_manager: PnlManager::new(),
            account_pool,
            strategy_pool,
            round_guard: RoundGuard::new(),
            check_table: CheckTable::new(),
            gateway,
            symbol,
            current_ts: 0,
            current_price: Dec::zero(),
            is_running: false,
        }
    }

    /// `new_at`, with the gateway stamped now.
    pub fn new(symbol: String, initial_balance: Dec) -> (r: TradingEngine)
        ensures
            r.symbol == symbol,
            r.gateway.wf(),
            r.gateway.account.available == initial_balance,
            r.risk_checker.max_position_ratio.mant() == 95 && r.risk_checker.max_position_ratio.scl() == 2,
            r.risk_checker.min_reserve_balance.mant() == 1000 && r.risk_checker.min_reserve_balance.scl() == 0,
            r.account_pool.initial_balance == initial_balance,
            r.account_pool.account.available == initial_balance,
            r.account_pool.account.circuit_state == CircuitBreakerState::Normal,
            r.account_pool.circuit_threshold.mant() == 20 && r.account_pool.circuit_threshold.scl() == 2,
            r.account_pool.partial_circuit_threshold.mant() == 10
                && r.account_pool.partial_circuit_threshold.scl() == 2,
            r.strategy_pool.wf(),
            r.strategy_pool.alloc_map().dom().len() == 0,
            r.round_guard.id() == 0,
            r.current_ts == 0,
            r.current_price == Dec::of_parts(0, 0),
            !r.is_running,
    {
        TradingEngine::new_at(symbol, initial_balance, crate::clock::utc_now_secs())
    }

    /// A tick: its time and price become the current ones.
    pub fn on_tick(&mut self, price: Dec, timestamp: i64)
        ensures
            final(self).current_ts == timestamp,
            final(self).current_price == price,
            final(self).account_pool == old(self).account_pool,
            final(self).strategy_pool == old(self).strategy_pool,
            final(self).position_manager == old(self).position_manager,
    {
        self.current_ts = timestamp;
        self.current_price = price;
    }

    /// A daily bar completed: when the rebalance interval has passed, the strategies'
    /// funds are shared out again from the account's equity.
    pub fn on_daily_kline_completed(&mut self)
        requires
            old(self).strategy_pool.wf(),
            old(self).strategy_pool.allocations@.len() < 0x100_0000,
            i64::MIN <= old(self).current_ts - old(self).strategy_pool.last_update_ts <= i64::MAX,
            rebalance_ok(old(self).strategy_pool.allocations@, old(self).account_pool.account.total_equity),
        ensures
            final(self).strategy_pool.wf(),
            old(self).current_ts - old(self).strategy_pool.last_update_ts >= old(self).strategy_pool.rebalance_interval_secs
                ==> pool_rebalanced(
                old(self).strategy_pool,
                final(self).strategy_pool,
                old(self).account_pool.account.total_equity,
                old(self).current_ts,
            ),
            old(self).current_ts - old(self).strategy_pool.last_update_ts < old(self).strategy_pool.rebalance_interval_secs
                ==> final(self).strategy_pool == old(self).strategy_pool,
            final(self).account_pool == old(self).account_pool,
            final(self).position_manager == old(self).position_manager,
            final(self).current_ts == old(self).current_ts,
    {
        if self.strategy_pool.needs_rebalance(self.current_ts) {
            let equity = self.account_pool.total_equity();
            self.strategy_pool.rebalance(equity, self.current_ts);
        }
    }

    /// Whether a tick's value (price times quantity) could be traded: the account's
    /// breaker allows it and the main strategy can open it.
    pub fn pre_trade_check(&self, price: Dec, qty: Dec) -> (r: bool)
        requires
            product_in_range(price, qty),
            self.account_pool.account.circuit_state == CircuitBreakerState::Partial ==> product_in_range(
                mul_spec(price, qty),
                Dec::of_parts(2, 0),
            ),
            self.strategy_pool.wf(),
        ensures
            r == ({
                let value = mul_spec(price, qty);
                let account_ok = match self.account_pool.account.circuit_state {
                    CircuitBreakerState::Full => false,
                    CircuitBreakerState::Partial => self.account_pool.account.available.val() >= mul_spec(
                        value,
                        Dec::of_parts(2, 0),
                    ).val(),
                    CircuitBreakerState::Normal => self.account_pool.account.available.val() >= value.val(),
                };
                account_ok && reserve_succeeds(self.strategy_pool, value)
            }),
    {
        let order_value = price.mul(&qty);
        if !self.account_pool.can_trade(order_value.copy()) {
            return false;
        }
        self.strategy_pool.can_open_position("main", order_value)
    }

    /// Executes an order at time `now`: the main strategy's margin is reserved (a
    /// failure is a risk-check error), a new round starts, the order goes to the
    /// exchange at its price (the current price when it has none), and a fill opens
    /// the position.
    pub fn execute_order_at(&mut self, order: OrderRequest, now: i64) -> (r: Result<OrderResult, EngineError>)
        requires
            old(self).strategy_pool.wf(),
            old(self).gateway.wf(),
            product_in_range(order.qty, order_price(order)),
            old(self).strategy_pool.alloc_map().dom().contains(main_strategy()) ==> sum_in_range(
                old(self).strategy_pool.alloc_map()[main_strategy()].available,
                order_value(order),
                -1,
            ) && sum_in_range(old(self).strategy_pool.alloc_map()[main_strategy()].used, order_value(order), 1),
            old(self).round_guard.id() < u64::MAX,
            place_order_ok(old(self).gateway, routed(order, old(self).current_price), now),
            open_ok(
                old(self).position_manager.position,
                direction_of(order.side),
                order.qty,
                order_price(routed(order, old(self).current_price)),
            ),
            old(self).position_manager.stats.trade_count < u64::MAX,
        ensures
            !reserve_succeeds(old(self).strategy_pool, order_value(order)) ==> {
                &&& r matches Err(EngineError::RiskCheckFailed(_))
                &&& final(self).gateway == old(self).gateway
                &&& final(self).position_manager == old(self).position_manager
                &&& final(self).round_guard == old(self).round_guard
            },
            !old(self).strategy_pool.alloc_map().dom().contains(main_strategy()) ==> (r matches Err(
                EngineError::RiskCheckFailed(m),
            ) && m@ == not_registered_text(main_strategy())),
            reserve_succeeds(old(self).strategy_pool, order_value(order)) ==> {
                &&& r is Ok
                &&& r->Ok_0.order_id@ == order_id_text(old(self).gateway.next_order_id)
                &&& final(self).round_guard.id() == old(self).round_guard.id() + 1
                &&& r->Ok_0.status == OrderStatus::Filled ==> final(self).position_manager.position == opened(
                    old(self).position_manager.position,
                    direction_of(order.side),
                    order.qty,
                    order_price(routed(order, old(self).current_price)),
                    old(self).current_ts,
                )
                &&& r->Ok_0.status != OrderStatus::Filled ==> final(self).position_manager
                    == old(self).position_manager
            },
    {
        let price_or_qty = match &order.price {
            Some(p) => p.copy(),
            None => order.qty.copy(),
        };
        let value = order.qty.mul(&price_or_qty);
        match self.strategy_pool.reserve_margin("main", value) {
            Err(e) => {
                return Err(EngineError::RiskCheckFailed(e));
            },
            Ok(()) => {},
        }
        let round_scope = RoundGuardScope::new(&mut self.round_guard);
        let price = match &order.price {
            Some(p) => p.copy(),
            None => self.current_price.copy(),
        };
        let side = order.side;
        let req = OrderRequest {
            symbol: order.symbol,
            side: order.side,
            order_type: order.order_type,
            qty: order.qty,
            price: Some(price),
        };
        let result = match self.gateway.place_order_at(req, now) {
            Ok(res) => res,
            Err(e) => {
                return Err(e);
            },
        };
        round_scope.finish();
        if result.status == OrderStatus::Filled {
            let direction = match side {
                Side::Long => Direction::Long,
                Side::Short => Direction::Short,
            };
            self.position_manager.open_position(
                direction,
                result.filled_qty.copy(),
                result.filled_price.copy(),
                self.current_ts,
            );
        }
        Ok(result)
    }

    /// Executes an order now (a clock behind the epoch counts as time zero); see
    /// `execute_order_at`.
    pub fn execute_order(&mut self, order: OrderRequest) -> (r: Result<OrderResult, EngineError>)
        requires
            old(self).strategy_pool.wf(),
            old(self).gateway.wf(),
            product_in_range(order.qty, order_price(order)),
            old(self).strategy_pool.alloc_map().dom().contains(main_strategy()) ==> sum_in_range(
                old(self).strategy_pool.alloc_map()[main_strategy()].available,
                order_value(order),
                -1,
            ) && sum_in_range(old(self).strategy_pool.alloc_map()[main_strategy()].used, order_value(order), 1),
            old(self).round_guard.id() < u64::MAX,
            forall|t: i64| t >= 0 ==> place_order_ok(old(self).gateway, routed(order, old(self).current_price), t),
            open_ok(
                old(self).position_manager.position,
                direction_of(order.side),
                order.qty,
                order_price(routed(order, old(self).current_price)),
            ),
            old(self).position_manager.stats.trade_count < u64::MAX,
        ensures
            !reserve_succeeds(old(self).strategy_pool, order_value(order)) ==> {
                &&& r matches Err(EngineError::RiskCheckFailed(_))
                &&& final(self).gateway == old(self).gateway
                &&& final(self).position_manager == old(self).position_manager
                &&& final(self).round_guard == old(self).round_guard
            },
            reserve_succeeds(old(self).strategy_pool, order_value(order)) ==> {
                &&& r is Ok
                &&& r->Ok_0.order_id@ == order_id_text(old(self).gateway.next_order_id)
                &&& final(self).round_guard.id() == old(self).round_guard.id() + 1
                &&& r->Ok_0.status == OrderStatus::Filled ==> final(self).position_manager.position == opened(
                    old(self).position_manager.position,
                    direction_of(order.side),
                    order.qty,
                    order_price(routed(order, old(self).current_price)),
                    old(self).current_ts,
                )
                &&& r->Ok_0.status != OrderStatus::Filled ==> final(self).position_manager
                    == old(self).position_manager
            },
    {
        let now = crate::clock::utc_now_secs();
        let t = if now < 0 { 0 } else { now };
        self.execute_order_at(order, t)
    }

    /// The profit of the open position at the current price.
    pub fn unrealized_pnl(&self) -> (r: Dec)
        requires
            self.position_manager.position.qty.val() > 0 && self.current_price.val() > 0 ==> close_ok(
                self.position_manager.position,
                self.position_manager.position.qty,
                self.current_price,
            ),
        ensures
            self.position_manager.position.qty.val() <= 0 || self.current_price.val() <= 0 ==> r == Dec::of_parts(0, 0),
            self.position_manager.position.qty.val() > 0 && self.current_price.val() > 0 ==> r == close_pnl(
                self.position_manager.position,
                self.position_manager.position.qty,
                self.current_price,
            ),
    {
        self.position_manager.unrealized_pnl(self.current_price.copy())
    }

    /// The exchange's position in `symbol`.
    pub fn get_gateway_position(&self, symbol: &str) -> (r: Option<MockPosition>)
        requires
            self.gateway.wf(),
        ensures
            r is Some <==> self.gateway.position_map().dom().contains(symbol@),
            r is Some ==> r.unwrap() == self.gateway.position_map()[symbol@],
    {
        self.gateway.get_position(symbol)
    }

    /// The exchange.
    pub fn get_gateway(&self) -> (r: &MockBinanceGateway)
        ensures
            *r == self.gateway,
    {
        &self.gateway
    }

    /// The market status, taken as trending.
    pub fn market_status(&self) -> (r: MarketStatus)
        ensures
            r == MarketStatus::TREND,
    {
        MarketStatus::TREND
    }

    pub fn circuit_state(&self) -> (r: CircuitBreakerState)
        ensures
            r == self.account_pool.account.circuit_state,
    {
        self.account_pool.circuit_state()
    }

    pub fn account_info(&self) -> (r: &AccountPool)
        ensures
            *r == self.account_pool,
    {
        &self.account_pool
    }

    pub fn strategy_pool_info(&self) -> (r: &StrategyPool)
        ensures
            *r == self.strategy_pool,
    {
        &self.strategy_pool
    }

    /// The exchange account.
    pub fn get_gateway_account(&self) -> (r: MockAccount)
        ensures
            r == self.gateway.account,
    {
        self.gateway.get_account()
    }

    /// Marks the engine running.
    pub fn start(&mut self)
        ensures
            final(self).is_running,
            final(self).position_manager == old(self).position_manager,
    {
        self.is_running = true;
    }

    /// Stops a running engine; returns whether it was running.
    pub fn shutdown(&mut self) -> (r: bool)
        ensures
            r == old(self).is_running,
            !final(self).is_running,
            final(self).position_manager == old(self).position_manager,
    {
        let was = self.is_running;
        self.is_running = false;
        was
    }

    pub fn is_running(&self) -> (r: bool)
        ensures
            r == self.is_running,
    {
        self.is_running
    }
}

} // verus!
