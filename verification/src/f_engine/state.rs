//! Per-symbol state: trade lock, metrics, strategy binding and signal cache.
use vstd::prelude::*;
use crate::decimal::{Dec, mul_spec, product_in_range, div_spec, lemma_int_quotient_in_range};
use crate::f_engine::types::TradingDecision;

verus! {

/// How the engine started.
#[derive(Debug, Clone, Copy, PartialEq, Eq, Structural)]
pub enum StartupState {
    Fresh,
    Recovery,
}

impl Default for StartupState {
    /// A fresh start.
    fn default() -> (r: StartupState)
        ensures
            r == StartupState::Fresh,
    {
        StartupState::Fresh
    }
}

/// Per-symbol trade lock: a lock with an expiry time and the last applied state.
/// `lock_until == 0` means unlocked.
#[derive(Debug, Clone)]
pub struct TradeLock {
    timestamp: i64,
    lock_until: i64,
    position_qty: Dec,
    position_price: Dec,
    position_ts: i64,
}

impl Default for TradeLock {
    /// Unlocked, with nothing recorded.
    fn default() -> (r: TradeLock)
        ensures
            r.lock_until_spec() == 0,
            r.timestamp_spec() == 0,
            r.qty_spec() == Dec::of_parts(0, 0) && r.qty_spec().val() == 0,
            r.price_spec() == Dec::of_parts(0, 0) && r.price_spec().val() == 0,
            r.position_ts_spec() == 0,
    {
        TradeLock::new()
    }
}

/// The outcome of `try_lock` at time `now`: (acquired, new lock_until).
pub open spec fn try_lock_result(lock_until: i64, now: i64, timeout_secs: i64) -> (bool, int) {
    let expired = lock_until > 0 && now >= lock_until;
    let lu = if expired { 0 } else { lock_until as int };
    if lu == 0 {
        (true, now + timeout_secs)
    } else if now >= lu {
        (true, now + timeout_secs)
    } else {
        (false, lu)
    }
}

/// Whether a lock expiring at `lock_until` (0: unlocked) is held at `now`.
pub open spec fn held_at(lock_until: i64, now: i64) -> bool {
    lock_until != 0 && now < lock_until
}

/// `after` is `before` with only its expiry changed, to `lock_until`.
pub open spec fn lock_moved(before: TradeLock, after: TradeLock, lock_until: int) -> bool {
    &&& after.lock_until_spec() == lock_until
    &&& after.timestamp_spec() == before.timestamp_spec()
    &&& after.qty_spec() == before.qty_spec()
    &&& after.price_spec() == before.price_spec()
    &&& after.position_ts_spec() == before.position_ts_spec()
}

/// A new lock taken by `try_lock_at`: expiry `lock_until`, nothing applied.
pub open spec fn fresh_lock_taken(l: TradeLock, lock_until: int) -> bool {
    &&& l.lock_until_spec() == lock_until
    &&& l.timestamp_spec() == 0
    &&& l.qty_spec().val() == 0
    &&& l.price_spec().val() == 0
    &&& l.position_ts_spec() == 0
}

impl TradeLock {
    pub closed spec fn lock_until_spec(self) -> i64 {
        self.lock_until
    }

    pub closed spec fn timestamp_spec(self) -> i64 {
        self.timestamp
    }

    pub closed spec fn qty_spec(self) -> Dec {
        self.position_qty
    }

    pub closed spec fn price_spec(self) -> Dec {
        self.position_price
    }

    pub closed spec fn position_ts_spec(self) -> i64 {
        self.position_ts
    }

    /// An unlocked lock with nothing applied.
    pub fn new() -> (r: TradeLock)
        ensures
            r.lock_until_spec() == 0,
            r.timestamp_spec() == 0,
            r.qty_spec() == Dec::of_parts(0, 0) && r.qty_spec().val() == 0,
            r.price_spec() == Dec::of_parts(0, 0) && r.price_spec().val() == 0,
            r.position_ts_spec() == 0,
    {
        TradeLock {
            timestamp: 0,
            lock_until: 0,
            position_qty: Dec::zero(),
            position_price: Dec::zero(),
            position_ts: 0,
        }
    }

    /// Tries to take the lock at time `now` for `timeout_secs`: an expired lock is
    /// released first; a free lock is taken; a held one is refused.
    pub fn try_lock_at(&mut self, timeout_secs: i64, now: i64) -> (r: bool)
        requires
            i64::MIN <= now + timeout_secs <= i64::MAX,
        ensures
            r == try_lock_result(old(self).lock_until_spec(), now, timeout_secs).0,
            final(self).lock_until_spec() == try_lock_result(
                old(self).lock_until_spec(),
                now,
                timeout_secs,
            ).1,
            final(self).timestamp_spec() == old(self).timestamp_spec(),
            final(self).qty_spec() == old(self).qty_spec(),
            final(self).price_spec() == old(self).price_spec(),
            final(self).position_ts_spec() == old(self).position_ts_spec(),
    {
        if self.lock_until > 0 && now >= self.lock_until {
            self.lock_until = 0;
        }
        if self.lock_until == 0 {
            self.lock_until = now + timeout_secs;
            return true;
        }
        if now >= self.lock_until {
            self.lock_until = now + timeout_secs;
            return true;
        }
        false
    }

    /// Tries to take the lock now.  Whatever the clock reads, the result is that of
    /// `try_lock_at` at that reading; a reading so far out that the expiry time would
    /// overflow leaves the lock as it is and refuses.
    pub fn try_lock(&mut self, timeout_secs: i64) -> (r: bool)
        ensures
            (exists|now: i64|
                {
                    &&& r == try_lock_result(old(self).lock_until_spec(), now, timeout_secs).0
                    &&& final(self).lock_until_spec() == try_lock_result(
                        old(self).lock_until_spec(),
                        now,
                        timeout_secs,
                    ).1
                }) || (!r && final(self).lock_until_spec() == old(self).lock_until_spec()),
            final(self).timestamp_spec() == old(self).timestamp_spec(),
            final(self).qty_spec() == old(self).qty_spec(),
            final(self).price_spec() == old(self).price_spec(),
    {
        let now = crate::clock::utc_now_secs();
        if (timeout_secs > 0 && now > i64::MAX - timeout_secs) || (timeout_secs < 0 && now
            < i64::MIN - timeout_secs) {
            return false;
        }
        self.try_lock_at(timeout_secs, now)
    }

    /// Whether the lock is held at time `now`.
    pub fn is_locked_at(&self, now: i64) -> (r: bool)
        ensures
            r == (self.lock_until_spec() != 0 && now < self.lock_until_spec()),
    {
        if self.lock_until == 0 {
            return false;
        }
        now < self.lock_until
    }

    /// Whether the lock is held now.
    pub fn is_locked(&self) -> (r: bool)
        ensures
            r ==> self.lock_until_spec() != 0,
            self.lock_until_spec() == 0 ==> !r,
            exists|now: i64| #[trigger] held_at(self.lock_until_spec(), now) == r,
    {
        if self.lock_until == 0 {
            assert(held_at(self.lock_until_spec(), 0) == false);
            return false;
        }
        let now = crate::clock::utc_now_secs();
        let r = self.is_locked_at(now);
        assert(held_at(self.lock_until_spec(), now) == r);
        r
    }

    /// Releases the lock.
    pub fn unlock(&mut self)
        ensures
            final(self).lock_until_spec() == 0,
            final(self).timestamp_spec() == old(self).timestamp_spec(),
            final(self).qty_spec() == old(self).qty_spec(),
            final(self).price_spec() == old(self).price_spec(),
            final(self).position_ts_spec() == old(self).position_ts_spec(),
    {
        self.lock_until = 0;
    }

    /// A tick no newer than the last applied one is stale.
    pub fn is_stale(&self, tick_ts: i64) -> (r: bool)
        ensures
            r == (tick_ts <= self.timestamp_spec()),
    {
        tick_ts <= self.timestamp
    }

    pub fn timestamp(&self) -> (r: i64)
        ensures
            r == self.timestamp_spec(),
    {
        self.timestamp
    }

    /// Records the applied tick and position at time `now`.
    pub fn update_at(&mut self, tick_ts: i64, qty: Dec, price: Dec, now: i64)
        ensures
            final(self).timestamp_spec() == tick_ts,
            final(self).qty_spec() == qty,
            final(self).price_spec() == price,
            final(self).position_ts_spec() == now,
            final(self).lock_until_spec() == old(self).lock_until_spec(),
    {
        self.timestamp = tick_ts;
        self.position_qty = qty;
        self.position_price = price;
        self.position_ts = now;
    }

    /// Records the applied tick and position, stamped with the current time.
    pub fn update(&mut self, tick_ts: i64, qty: Dec, price: Dec)
        ensures
            final(self).timestamp_spec() == tick_ts,
            final(self).qty_spec() == qty,
            final(self).price_spec() == price,
            final(self).lock_until_spec() == old(self).lock_until_spec(),
    {
        let now = crate::clock::utc_now_secs();
        self.update_at(tick_ts, qty, price, now);
    }

    /// `qty * price`.
    pub fn position_value(&self) -> (r: Dec)
        requires
            product_in_range(self.qty_spec(), self.price_spec()),
        ensures
            r == mul_spec(self.qty_spec(), self.price_spec()),
    {
        self.position_qty.mul(&self.position_price)
    }

    pub fn position_qty(&self) -> (r: Dec)
        ensures
            r == self.qty_spec(),
    {
        self.position_qty.copy()
    }

    pub fn position_price(&self) -> (r: Dec)
        ensures
            r == self.price_spec(),
    {
        self.position_price.copy()
    }

    pub fn position_ts(&self) -> (r: i64)
        ensures
            r == self.position_ts_spec(),
    {
        self.position_ts
    }
}

/// Per-symbol counters.
#[derive(Debug, Clone)]
pub struct SymbolMetrics {
    pub tick_processed: u64,
    pub signal_generated: u64,
    pub order_sent: u64,
    pub order_filled: u64,
    pub order_failed: u64,
    pub last_signal_time: Option<i64>,
    pub last_order_time: Option<i64>,
}

impl Default for SymbolMetrics {
    /// All counters at zero.
    fn default() -> (r: SymbolMetrics)
        ensures
            r.tick_processed == 0 && r.signal_generated == 0 && r.order_sent == 0
                && r.order_filled == 0 && r.order_failed == 0,
            r.last_signal_time is None && r.last_order_time is None,
    {
        SymbolMetrics::new("")
    }
}

impl SymbolMetrics {
    /// All counters at zero.
    pub fn new(_symbol: &str) -> (r: SymbolMetrics)
        ensures
            r.tick_processed == 0 && r.signal_generated == 0 && r.order_sent == 0
                && r.order_filled == 0 && r.order_failed == 0,
            r.last_signal_time is None && r.last_order_time is None,
    {
        SymbolMetrics {
            tick_processed: 0,
            signal_generated: 0,
            order_sent: 0,
            order_filled: 0,
            order_failed: 0,
            last_signal_time: None,
            last_order_time: None,
        }
    }

    pub fn tick_processed(&self) -> (r: u64)
        ensures
            r == self.tick_processed,
    {
        self.tick_processed
    }

    pub fn signal_generated(&self) -> (r: u64)
        ensures
            r == self.signal_generated,
    {
        self.signal_generated
    }

    pub fn order_sent(&self) -> (r: u64)
        ensures
            r == self.order_sent,
    {
        self.order_sent
    }

    pub fn order_filled(&self) -> (r: u64)
        ensures
            r == self.order_filled,
    {
        self.order_filled
    }

    pub fn order_failed(&self) -> (r: u64)
        ensures
            r == self.order_failed,
    {
        self.order_failed
    }

    /// When the last signal came, in seconds.
    pub fn last_signal_time(&self) -> (r: Option<i64>)
        ensures
            r == self.last_signal_time,
    {
        self.last_signal_time
    }

    /// When the last order was sent, in seconds.
    pub fn last_order_time(&self) -> (r: Option<i64>)
        ensures
            r == self.last_order_time,
    {
        self.last_order_time
    }

    /// Filled orders per sent order; zero before any order was sent.
    pub fn fill_rate(&self) -> (r: Dec)
        ensures
            self.order_sent == 0 ==> r.val() == 0,
            self.order_sent > 0 ==> r == div_spec(Dec::int_dec(self.order_filled as int), Dec::int_dec(self.order_sent as int)),
    {
        if self.order_sent == 0 {
            return Dec::zero();
        }
        let a = Dec::from_u64(self.order_filled);
        let b = Dec::from_u64(self.order_sent);
        proof {
            lemma_int_quotient_in_range(self.order_filled as int, self.order_sent as int);
        }
        a.div(&b)
    }

    /// Counts a tick; the counter wraps as the atomic counter does.
    pub fn record_tick(&mut self)
        ensures
            final(self).tick_processed == old(self).tick_processed.wrapping_add(1),
            final(self).signal_generated == old(self).signal_generated,
            final(self).order_sent == old(self).order_sent,
            final(self).order_filled == old(self).order_filled,
            final(self).order_failed == old(self).order_failed,
    {
        self.tick_processed = self.tick_processed.wrapping_add(1);
    }

    pub fn record_signal(&mut self)
        ensures
            final(self).signal_generated == old(self).signal_generated.wrapping_add(1),
            final(self).tick_processed == old(self).tick_processed,
            final(self).order_sent == old(self).order_sent,
            final(self).order_filled == old(self).order_filled,
            final(self).order_failed == old(self).order_failed,
    {
        self.signal_generated = self.signal_generated.wrapping_add(1);
    }

    pub fn record_order_sent(&mut self)
        ensures
            final(self).order_sent == old(self).order_sent.wrapping_add(1),
            final(self).tick_processed == old(self).tick_processed,
            final(self).signal_generated == old(self).signal_generated,
            final(self).order_filled == old(self).order_filled,
            final(self).order_failed == old(self).order_failed,
    {
        self.order_sent = self.order_sent.wrapping_add(1);
    }

    pub fn record_order_filled(&mut self)
        ensures
            final(self).order_filled == old(self).order_filled.wrapping_add(1),
            final(self).tick_processed == old(self).tick_processed,
            final(self).signal_generated == old(self).signal_generated,
            final(self).order_sent == old(self).order_sent,
            final(self).order_failed == old(self).order_failed,
    {
        self.order_filled = self.order_filled.wrapping_add(1);
    }

    pub fn record_order_failed(&mut self)
        ensures
            final(self).order_failed == old(self).order_failed.wrapping_add(1),
            final(self).tick_processed == old(self).tick_processed,
            final(self).signal_generated == old(self).signal_generated,
            final(self).order_sent == old(self).order_sent,
            final(self).order_filled == old(self).order_filled,
    {
        self.order_failed = self.order_failed.wrapping_add(1);
    }
}

/// Trading state of one symbol.
#[derive(Debug, Clone)]
pub struct SymbolState {
    pub symbol: String,
    pub trade_lock: TradeLock,
    pub startup_state: StartupState,
    pub bound_strategy_id: Option<String>,
    pub bound_at: Option<i64>,
    pub last_1m_request_ts: i64,
    pub last_1m_ok_ts: i64,
    pub last_1m_signal_ts: i64,
    pub last_1m_signal: Option<TradingDecision>,
    pub last_daily_request_ts: i64,
    pub last_daily_ok_ts: i64,
    pub last_daily_signal: Option<TradingDecision>,
    pub timeout_secs: i64,
    pub metrics: SymbolMetrics,
}

/// Whether `now - since` exceeds `timeout`, computed without overflow.
pub open spec fn elapsed_exceeds(now: i64, since: i64, timeout: i64) -> bool {
    now - since > timeout
}

impl SymbolState {
    /// A fresh symbol: unbound, no requests yet, a 60 s timeout.
    pub fn new(symbol: String) -> (r: SymbolState)
        ensures
            r.symbol == symbol,
            r.startup_state == StartupState::Fresh,
            r.bound_strategy_id is None,
            r.bound_at is None,
            r.last_1m_request_ts == 0 && r.last_1m_ok_ts == 0 && r.last_1m_signal_ts == 0,
            r.last_daily_request_ts == 0 && r.last_daily_ok_ts == 0,
            r.last_1m_signal is None && r.last_daily_signal is None,
            r.timeout_secs == 60,
            r.trade_lock.lock_until_spec() == 0,
            r.metrics.tick_processed == 0,
    {
        let metrics = SymbolMetrics::new(symbol.as_str());
        SymbolState {
            symbol,
            trade_lock: TradeLock::new(),
            startup_state: StartupState::Fresh,
            bound_strategy_id: None,
            bound_at: None,
            last_1m_request_ts: 0,
            last_1m_ok_ts: 0,
            last_1m_signal_ts: 0,
            last_1m_signal: None,
            last_daily_request_ts: 0,
            last_daily_ok_ts: 0,
            last_daily_signal: None,
            timeout_secs: 60,
            metrics,
        }
    }

    /// A symbol that is being recovered.
    pub fn new_recovery(symbol: String) -> (r: SymbolState)
        ensures
            r.symbol == symbol,
            r.startup_state == StartupState::Recovery,
            r.bound_strategy_id is None,
            r.timeout_secs == 60,
    {
        let mut s = SymbolState::new(symbol);
        s.startup_state = StartupState::Recovery;
        s
    }

    /// Binds the symbol to a strategy at time `now`: succeeds when unbound or bound to
    /// the same strategy, fails when bound to another.
    pub fn bind_strategy_at(&mut self, strategy_id: &str, now: i64) -> (r: bool)
        ensures
            old(self).bound_strategy_id is None ==> (r && final(self).bound_strategy_id
                is Some && final(self).bound_strategy_id.unwrap()@ == strategy_id@
                && final(self).bound_at == Some(now)),
            old(self).bound_strategy_id is Some ==> (r == (old(self).bound_strategy_id.unwrap()@
                == strategy_id@) && final(self).bound_strategy_id == old(self).bound_strategy_id && final(self).bound_at == old(self).bound_at),
            final(self).symbol == old(self).symbol,
    {
        match &self.bound_strategy_id {
            Some(bound) => {
                let same = bound.as_str().to_string() == strategy_id.to_string();
                same
            },
            None => {
                self.bound_strategy_id = Some(strategy_id.to_string());
                self.bound_at = Some(now);
                true
            },
        }
    }

    /// Binds the symbol to a strategy, stamped with the current time.
    pub fn bind_strategy(&mut self, strategy_id: &str) -> (r: bool)
        ensures
            old(self).bound_strategy_id is None ==> (r && final(self).bound_strategy_id
                is Some && final(self).bound_strategy_id.unwrap()@ == strategy_id@),
            old(self).bound_strategy_id is Some ==> (r == (old(self).bound_strategy_id.unwrap()@
                == strategy_id@) && final(self).bound_strategy_id == old(self).bound_strategy_id),
            final(self).symbol == old(self).symbol,
    {
        let now = crate::clock::utc_now_secs();
        self.bind_strategy_at(strategy_id, now)
    }

    /// Unbinds the strategy.
    pub fn unbind_strategy(&mut self)
        ensures
            final(self).bound_strategy_id is None,
            final(self).bound_at is None,
            final(self).symbol == old(self).symbol,
    {
        self.bound_strategy_id = None;
        self.bound_at = None;
    }

    /// The strategy the symbol is bound to.
    pub fn bound_strategy(&self) -> (r: Option<&str>)
        ensures
            r is None <==> self.bound_strategy_id is None,
            r matches Some(id) ==> id@ == self.bound_strategy_id.unwrap()@,
    {
        match &self.bound_strategy_id {
            Some(id) => Some(id.as_str()),
            None => None,
        }
    }

    pub fn symbol(&self) -> (r: &str)
        ensures
            r@ == self.symbol@,
    {
        self.symbol.as_str()
    }

    pub fn startup_state(&self) -> (r: StartupState)
        ensures
            r == self.startup_state,
    {
        self.startup_state
    }

    pub fn trade_lock(&self) -> (r: &TradeLock)
        ensures
            *r == self.trade_lock,
    {
        &self.trade_lock
    }

    pub fn metrics(&self) -> (r: &SymbolMetrics)
        ensures
            *r == self.metrics,
    {
        &self.metrics
    }

    /// Seconds without an answer before a request counts as timed out.
    pub fn timeout_secs(&self) -> (r: i64)
        ensures
            r == self.timeout_secs,
    {
        self.timeout_secs
    }

    pub fn last_1m_signal_ts(&self) -> (r: i64)
        ensures
            r == self.last_1m_signal_ts,
    {
        self.last_1m_signal_ts
    }

    pub fn last_1m_signal(&self) -> (r: Option<&TradingDecision>)
        ensures
            r is None <==> self.last_1m_signal is None,
            r matches Some(x) ==> *x == self.last_1m_signal.unwrap(),
    {
        self.last_1m_signal.as_ref()
    }

    pub fn last_daily_signal(&self) -> (r: Option<&TradingDecision>)
        ensures
            r is None <==> self.last_daily_signal is None,
            r matches Some(x) ==> *x == self.last_daily_signal.unwrap(),
    {
        self.last_daily_signal.as_ref()
    }

    pub fn last_1m_request_ts(&self) -> (r: i64)
        ensures
            r == self.last_1m_request_ts,
    {
        self.last_1m_request_ts
    }

    pub fn last_1m_ok_ts(&self) -> (r: i64)
        ensures
            r == self.last_1m_ok_ts,
    {
        self.last_1m_ok_ts
    }

    pub fn last_daily_request_ts(&self) -> (r: i64)
        ensures
            r == self.last_daily_request_ts,
    {
        self.last_daily_request_ts
    }

    pub fn last_daily_ok_ts(&self) -> (r: i64)
        ensures
            r == self.last_daily_ok_ts,
    {
        self.last_daily_ok_ts
    }

    /// When the strategy was bound, in seconds.
    pub fn bound_at(&self) -> (r: Option<i64>)
        ensures
            r == self.bound_at,
    {
        self.bound_at
    }

    /// The symbol's trade lock, to change it in place.
    pub fn trade_lock_mut(&mut self) -> (r: &mut TradeLock)
        ensures
            *r == old(self).trade_lock,
            *final(self) == (SymbolState { trade_lock: *final(r), ..*old(self) }),
    {
        &mut self.trade_lock
    }

    /// The symbol's counters, to change them in place.
    pub fn metrics_mut(&mut self) -> (r: &mut SymbolMetrics)
        ensures
            *r == old(self).metrics,
            *final(self) == (SymbolState { metrics: *final(r), ..*old(self) }),
    {
        &mut self.metrics
    }

    pub fn is_bound(&self) -> (r: bool)
        ensures
            r == self.bound_strategy_id is Some,
    {
        self.bound_strategy_id.is_some()
    }

    /// Whether bound to `strategy_id`.
    pub fn is_bound_by(&self, strategy_id: &str) -> (r: bool)
        ensures
            r == (self.bound_strategy_id is Some && self.bound_strategy_id.unwrap()@
                == strategy_id@),
    {
        match &self.bound_strategy_id {
            Some(bound) => bound.as_str().to_string() == strategy_id.to_string(),
            None => false,
        }
    }

    /// Whether the last minute request timed out at `now_ts` (never when no request).
    pub fn is_1m_timeout(&self, now_ts: i64) -> (r: bool)
        ensures
            r == (self.last_1m_request_ts != 0 && elapsed_exceeds(
                now_ts,
                self.last_1m_request_ts,
                self.timeout_secs,
            )),
    {
        if self.last_1m_request_ts == 0 {
            return false;
        }
        (now_ts as i128) - (self.last_1m_request_ts as i128) > (self.timeout_secs as i128)
    }

    /// Whether the last daily request timed out at `now_ts`.
    pub fn is_daily_timeout(&self, now_ts: i64) -> (r: bool)
        ensures
            r == (self.last_daily_request_ts != 0 && elapsed_exceeds(
                now_ts,
                self.last_daily_request_ts,
                self.timeout_secs,
            )),
    {
        if self.last_daily_request_ts == 0 {
            return false;
        }
        (now_ts as i128) - (self.last_daily_request_ts as i128) > (self.timeout_secs as i128)
    }

    /// Whether a signal from `signal_ts` is stale at `now_ts`.
    pub fn is_signal_stale(&self, signal_ts: i64, now_ts: i64) -> (r: bool)
        ensures
            r == elapsed_exceeds(now_ts, signal_ts, self.timeout_secs),
    {
        (now_ts as i128) - (signal_ts as i128) > (self.timeout_secs as i128)
    }

    pub fn set_timeout(&mut self, secs: i64)
        ensures
            final(self).timeout_secs == secs,
            final(self).symbol == old(self).symbol,
    {
        self.timeout_secs = secs;
    }

    pub fn confirm_fresh(&mut self)
        ensures
            final(self).startup_state == StartupState::Fresh,
            final(self).symbol == old(self).symbol,
    {
        self.startup_state = StartupState::Fresh;
    }

    /// Records a minute request at `ts` and counts a tick.
    pub fn record_1m_request(&mut self, ts: i64)
        ensures
            final(self).last_1m_request_ts == ts,
            final(self).metrics.tick_processed == old(self).metrics.tick_processed.wrapping_add(1),
            final(self).symbol == old(self).symbol,
    {
        self.last_1m_request_ts = ts;
        self.metrics.record_tick();
    }

    /// Records a minute answer and caches its signal.
    pub fn record_1m_ok(&mut self, ts: i64, signal_ts: i64, signal: TradingDecision)
        ensures
            final(self).last_1m_ok_ts == ts,
            final(self).last_1m_signal_ts == signal_ts,
            final(self).last_1m_signal == Some(signal),
            final(self).metrics.signal_generated == old(self).metrics.signal_generated.wrapping_add(1),
            final(self).symbol == old(self).symbol,
    {
        self.last_1m_ok_ts = ts;
        self.last_1m_signal_ts = signal_ts;
        self.last_1m_signal = Some(signal);
        self.metrics.record_signal();
    }

    pub fn record_daily_request(&mut self, ts: i64)
        ensures
            final(self).last_daily_request_ts == ts,
            final(self).symbol == old(self).symbol,
    {
        self.last_daily_request_ts = ts;
    }

    pub fn record_daily_ok(&mut self, ts: i64, signal: TradingDecision)
        ensures
            final(self).last_daily_ok_ts == ts,
            final(self).last_daily_signal == Some(signal),
            final(self).symbol == old(self).symbol,
    {
        self.last_daily_ok_ts = ts;
        self.last_daily_signal = Some(signal);
    }

    pub fn record_order_sent(&mut self)
        ensures
            final(self).metrics.order_sent == old(self).metrics.order_sent.wrapping_add(1),
            final(self).symbol == old(self).symbol,
    {
        self.metrics.record_order_sent();
    }

    pub fn record_order_filled(&mut self)
        ensures
            final(self).metrics.order_filled == old(self).metrics.order_filled.wrapping_add(1),
            final(self).symbol == old(self).symbol,
    {
        self.metrics.record_order_filled();
    }

    pub fn record_order_failed(&mut self)
        ensures
            final(self).metrics.order_failed == old(self).metrics.order_failed.wrapping_add(1),
            final(self).symbol == old(self).symbol,
    {
        self.metrics.record_order_failed();
    }
}

/// Check intervals.
#[derive(Debug, Clone)]
pub struct CheckConfig {
    minute_check_interval_ms: u64,
    daily_check_interval_ms: u64,
}

impl Default for CheckConfig {
    /// One second for both checks.
    fn default() -> (r: CheckConfig)
        ensures
            r.minute_spec() == 1000 && r.daily_spec() == 1000,
    {
        CheckConfig::production()
    }
}

impl CheckConfig {
    pub closed spec fn minute_spec(self) -> u64 {
        self.minute_check_interval_ms
    }

    pub closed spec fn daily_spec(self) -> u64 {
        self.daily_check_interval_ms
    }

    /// One second for both checks.
    pub fn production() -> (r: CheckConfig)
        ensures
            r.minute_spec() == 1000 && r.daily_spec() == 1000,
    {
        CheckConfig { minute_check_interval_ms: 1000, daily_check_interval_ms: 1000 }
    }

    /// A tenth of a second for both checks.
    pub fn backtest() -> (r: CheckConfig)
        ensures
            r.minute_spec() == 100 && r.daily_spec() == 100,
    {
        CheckConfig { minute_check_interval_ms: 100, daily_check_interval_ms: 100 }
    }

    pub fn minute_check_interval_ms(&self) -> (r: u64)
        ensures
            r == self.minute_spec(),
    {
        self.minute_check_interval_ms
    }

    pub fn daily_check_interval_ms(&self) -> (r: u64)
        ensures
            r == self.daily_spec(),
    {
        self.daily_check_interval_ms
    }
}

} // verus!
