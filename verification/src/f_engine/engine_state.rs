//! Engine-wide state: lifecycle, circuit breaker, counters and registered symbols.
use vstd::prelude::*;
use crate::f_engine::state::SymbolState;
use crate::text::{signed_text, decimal_text, signed_digits, decimal_digits};
use crate::decimal::{Dec, div_spec, lemma_int_quotient_in_range};

verus! {

/// Errors of the engine state.
#[derive(Debug, Clone)]
pub enum EngineStateError {
    EngineStopped(String),
    SymbolNotFound(String),
    SymbolExists(String),
    EnginePaused(String),
    StateInconsistent(String),
    SelfCheckFailed(String),
}

/// Lifecycle status.
#[derive(Debug, Clone, Copy, PartialEq, Eq, Structural)]
pub enum EngineStatus {
    Initializing,
    Running,
    Paused,
    ShuttingDown,
    Stopped,
    Error,
}

impl Default for EngineStatus {
    /// Initializing.
    fn default() -> (r: EngineStatus)
        ensures
            r == EngineStatus::Initializing,
    {
        EngineStatus::Initializing
    }
}

impl EngineStatus {
    /// Running or paused.
    pub fn is_active(&self) -> (r: bool)
        ensures
            r == (*self == EngineStatus::Running || *self == EngineStatus::Paused),
    {
        matches!(self, EngineStatus::Running | EngineStatus::Paused)
    }

    /// Only a running engine takes requests.
    pub fn accepts_requests(&self) -> (r: bool)
        ensures
            r == (*self == EngineStatus::Running),
    {
        matches!(self, EngineStatus::Running)
    }
}

/// Run mode.
#[derive(Debug, Clone, Copy, PartialEq, Eq, Structural)]
pub enum EngineMode {
    Backtest,
    Simulation,
    Production,
}

impl Default for EngineMode {
    /// Simulation.
    fn default() -> (r: EngineMode)
        ensures
            r == EngineMode::Simulation,
    {
        EngineMode::Simulation
    }
}

/// Deployment environment.
#[derive(Debug, Clone, Copy, PartialEq, Eq, Structural)]
pub enum Environment {
    Development,
    Test,
    Staging,
    Production,
}

impl Default for Environment {
    /// Development.
    fn default() -> (r: Environment)
        ensures
            r == Environment::Development,
    {
        Environment::Development
    }
}

/// Health.
#[derive(Debug, Clone, Copy, PartialEq, Eq, Structural)]
pub enum HealthStatus {
    Healthy,
    Degraded,
    Unhealthy,
}

impl Default for HealthStatus {
    /// Healthy.
    fn default() -> (r: HealthStatus)
        ensures
            r == HealthStatus::Healthy,
    {
        HealthStatus::Healthy
    }
}

/// Circuit breaker settings.
#[derive(Debug, Clone)]
pub struct CircuitBreakerConfig {
    pub max_consecutive_errors: u32,
    pub pause_duration_secs: u64,
    pub auto_resume: bool,
}

impl Default for CircuitBreakerConfig {
    /// Five errors, a 60 s pause, automatic resume.
    fn default() -> (r: CircuitBreakerConfig)
        ensures
            r.max_consecutive_errors == 5,
            r.pause_duration_secs == 60,
            r.auto_resume,
    {
        CircuitBreakerConfig { max_consecutive_errors: 5, pause_duration_secs: 60, auto_resume: true }
    }
}

impl CircuitBreakerConfig {
    /// Five errors, a 60 s pause, automatic resume.
    pub fn production() -> (r: CircuitBreakerConfig)
        ensures
            r.max_consecutive_errors == 5,
            r.pause_duration_secs == 60,
            r.auto_resume,
    {
        CircuitBreakerConfig { max_consecutive_errors: 5, pause_duration_secs: 60, auto_resume: true }
    }

    /// A hundred errors, no pause, no automatic resume.
    pub fn backtest() -> (r: CircuitBreakerConfig)
        ensures
            r.max_consecutive_errors == 100,
            r.pause_duration_secs == 0,
            !r.auto_resume,
    {
        CircuitBreakerConfig {
            max_consecutive_errors: 100,
            pause_duration_secs: 0,
            auto_resume: false,
        }
    }

    pub fn max_consecutive_errors(&self) -> (r: u32)
        ensures
            r == self.max_consecutive_errors,
    {
        self.max_consecutive_errors
    }

    pub fn pause_duration_secs(&self) -> (r: u64)
        ensures
            r == self.pause_duration_secs,
    {
        self.pause_duration_secs
    }

    pub fn auto_resume(&self) -> (r: bool)
        ensures
            r == self.auto_resume,
    {
        self.auto_resume
    }
}

/// What a circuit breaker check asks for.
#[derive(Debug, Clone, Copy, PartialEq, Eq, Structural)]
pub enum CircuitBreakerAction {
    NoAction,
    Pause,
    Stop,
}

/// Circuit breaker: trips after too many consecutive errors.
#[derive(Debug, Clone)]
pub struct CircuitBreaker {
    pub config: CircuitBreakerConfig,
    pub consecutive_errors: u32,
    pub is_triggered: bool,
    pub triggered_at: Option<i64>,
    pub scheduled_resume_at: Option<i64>,
}

impl Default for CircuitBreaker {
    /// Default settings, nothing recorded.
    fn default() -> (r: CircuitBreaker)
        ensures
            r.config.max_consecutive_errors == 5,
            r.config.pause_duration_secs == 60,
            r.config.auto_resume,
            r.consecutive_errors == 0,
            !r.is_triggered,
            r.triggered_at is None,
            r.scheduled_resume_at is None,
    {
        CircuitBreaker::new(CircuitBreakerConfig::default())
    }
}

/// Whether the pause is still running at `now`.
pub open spec fn pause_active(b: CircuitBreaker, now: i64) -> bool {
    b.scheduled_resume_at is Some && now < b.scheduled_resume_at.unwrap()
}

/// Whether the breaker should trip.
pub open spec fn should_trigger_spec(b: CircuitBreaker) -> bool {
    !b.is_triggered && b.consecutive_errors >= b.config.max_consecutive_errors
}

/// The resume time after a pause starting at `now` (saturating at the end of time).
pub open spec fn resume_time(now: i64, pause: u64) -> i64 {
    if now + pause > i64::MAX { i64::MAX } else { (now + pause) as i64 }
}

/// A pause that the clock arithmetic can add: with automatic resume, the pause is at
/// most what a `chrono::Duration` of seconds can hold (the original panics beyond).
pub open spec fn pause_ok(c: CircuitBreakerConfig) -> bool {
    !c.auto_resume || c.pause_duration_secs <= 9223372036854775
}

impl CircuitBreaker {
    /// A breaker with the given settings and nothing recorded.
    pub open spec fn fresh(config: CircuitBreakerConfig) -> CircuitBreaker {
        CircuitBreaker {
            config,
            consecutive_errors: 0,
            is_triggered: false,
            triggered_at: None,
            scheduled_resume_at: None,
        }
    }

    pub fn new(config: CircuitBreakerConfig) -> (r: CircuitBreaker)
        ensures
            r.config == config,
            r.consecutive_errors == 0,
            !r.is_triggered,
            r.triggered_at is None,
            r.scheduled_resume_at is None,
    {
        CircuitBreaker {
            config,
            consecutive_errors: 0,
            is_triggered: false,
            triggered_at: None,
            scheduled_resume_at: None,
        }
    }

    pub fn is_triggered(&self) -> (r: bool)
        ensures
            r == self.is_triggered,
    {
        self.is_triggered
    }

    pub fn consecutive_errors(&self) -> (r: u32)
        ensures
            r == self.consecutive_errors,
    {
        self.consecutive_errors
    }

    /// When it tripped, in seconds.
    pub fn triggered_at(&self) -> (r: Option<i64>)
        ensures
            r == self.triggered_at,
    {
        self.triggered_at
    }

    /// When it is due to resume, in seconds.
    pub fn scheduled_resume_at(&self) -> (r: Option<i64>)
        ensures
            r == self.scheduled_resume_at,
    {
        self.scheduled_resume_at
    }

    /// Counts an error.  The `u32` counter overflowing is left out.
    pub fn record_error(&mut self)
        requires
            old(self).consecutive_errors < u32::MAX,
        ensures
            final(self).consecutive_errors == old(self).consecutive_errors + 1,
            final(self).is_triggered == old(self).is_triggered,
            final(self).config == old(self).config,
            final(self).triggered_at == old(self).triggered_at,
            final(self).scheduled_resume_at == old(self).scheduled_resume_at,
    {
        self.consecutive_errors = self.consecutive_errors + 1;
    }

    /// Clears the count and the trip.
    pub fn reset(&mut self)
        ensures
            final(self).consecutive_errors == 0,
            !final(self).is_triggered,
            final(self).triggered_at is None,
            final(self).scheduled_resume_at is None,
            final(self).config == old(self).config,
    {
        self.consecutive_errors = 0;
        self.is_triggered = false;
        self.triggered_at = None;
        self.scheduled_resume_at = None;
    }

    /// Untriggered and at or above the error limit.
    pub fn should_trigger(&self) -> (r: bool)
        ensures
            r == should_trigger_spec(*self),
    {
        !self.is_triggered && self.consecutive_errors >= self.config.max_consecutive_errors
    }

    /// Trips at time `now` when it should; with automatic resume, schedules the resume.
    pub fn trigger_at(&mut self, now: i64)
        requires
            pause_ok(old(self).config),
        ensures
            should_trigger_spec(*old(self)) ==> {
                &&& final(self).is_triggered
                &&& final(self).triggered_at == Some(now)
                &&& final(self).scheduled_resume_at == (if old(self).config.auto_resume {
                    Some(resume_time(now, old(self).config.pause_duration_secs))
                } else {
                    old(self).scheduled_resume_at
                })
            },
            !should_trigger_spec(*old(self)) ==> *final(self) == *old(self),
            final(self).consecutive_errors == old(self).consecutive_errors,
            final(self).config == old(self).config,
    {
        if self.should_trigger() {
            self.is_triggered = true;
            self.triggered_at = Some(now);
            if self.config.auto_resume {
                let pause = self.config.pause_duration_secs as i64;
                let resume = if now > i64::MAX - pause {
                    i64::MAX
                } else {
                    now + pause
                };
                self.scheduled_resume_at = Some(resume);
            }
        }
    }

    /// Trips now when it should.
    pub fn trigger(&mut self)
        requires
            pause_ok(old(self).config),
        ensures
            should_trigger_spec(*old(self)) ==> final(self).is_triggered,
            !should_trigger_spec(*old(self)) ==> *final(self) == *old(self),
            final(self).consecutive_errors == old(self).consecutive_errors,
            final(self).config == old(self).config,
    {
        let now = crate::clock::utc_now_secs();
        self.trigger_at(now);
    }

    /// Whether it should resume on its own at `now`.
    pub fn should_auto_resume_at(&self, now: i64) -> (r: bool)
        ensures
            r == (self.config.auto_resume && self.is_triggered && !pause_active(*self, now)),
    {
        self.config.auto_resume && self.is_triggered && !self.is_pause_duration_active(now)
    }

    /// Whether it should resume on its own now.
    pub fn should_auto_resume(&self) -> (r: bool)
        ensures
            r ==> self.config.auto_resume && self.is_triggered,
            !(self.config.auto_resume && self.is_triggered) ==> !r,
            exists|now: i64| r == (self.config.auto_resume && self.is_triggered && !#[trigger] pause_active(*self, now)),
    {
        let now = crate::clock::utc_now_secs();
        let r = self.should_auto_resume_at(now);
        let ghost active = pause_active(*self, now);
        assert(r == (self.config.auto_resume && self.is_triggered && !active));
        r
    }

    fn is_pause_duration_active(&self, now: i64) -> (r: bool)
        ensures
            r == pause_active(*self, now),
    {
        match self.scheduled_resume_at {
            Some(resume_at) => now < resume_at,
            None => false,
        }
    }

    /// The check at time `now`: trip and pause when it should trip; after the pause,
    /// reset (automatic resume) or stop; else nothing.
    pub fn check_at(&mut self, now: i64) -> (r: CircuitBreakerAction)
        requires
            pause_ok(old(self).config),
        ensures
            should_trigger_spec(*old(self)) ==> r == CircuitBreakerAction::Pause
                && final(self).is_triggered && final(self).triggered_at == Some(now),
            !should_trigger_spec(*old(self)) && old(self).is_triggered && !pause_active(
                *old(self),
                now,
            ) && old(self).config.auto_resume ==> r == CircuitBreakerAction::NoAction
                && !final(self).is_triggered && final(self).consecutive_errors == 0,
            !should_trigger_spec(*old(self)) && old(self).is_triggered && !pause_active(
                *old(self),
                now,
            ) && !old(self).config.auto_resume ==> r == CircuitBreakerAction::Stop && *final(self)
                == *old(self),
            !should_trigger_spec(*old(self)) && !(old(self).is_triggered && !pause_active(
                *old(self),
                now,
            )) ==> r == CircuitBreakerAction::NoAction && *final(self) == *old(self),
            final(self).config == old(self).config,
    {
        if self.should_trigger() {
            self.trigger_at(now);
            return CircuitBreakerAction::Pause;
        }
        if self.is_triggered && !self.is_pause_duration_active(now) {
            if self.config.auto_resume {
                self.reset();
                return CircuitBreakerAction::NoAction;
            }
            return CircuitBreakerAction::Stop;
        }
        CircuitBreakerAction::NoAction
    }

    /// The check at the current time.
    pub fn check(&mut self) -> (r: CircuitBreakerAction)
        requires
            pause_ok(old(self).config),
        ensures
            should_trigger_spec(*old(self)) ==> r == CircuitBreakerAction::Pause
                && final(self).is_triggered,
            !should_trigger_spec(*old(self)) && !old(self).is_triggered ==> r
                == CircuitBreakerAction::NoAction && *final(self) == *old(self),
            final(self).config == old(self).config,
    {
        let now = crate::clock::utc_now_secs();
        self.check_at(now)
    }
}

/// A snapshot of the counters.
#[derive(Debug, Clone)]
pub struct EngineMetricsSnapshot {
    pub engine_id: String,
    pub tick_processed: u64,
    pub order_sent: u64,
    pub order_filled: u64,
    pub order_failed: u64,
    pub signal_generated: u64,
    pub error_count: u32,
    pub consecutive_errors: u32,
}

impl Default for EngineMetricsSnapshot {
    /// No engine id and all counters zero.
    fn default() -> (r: EngineMetricsSnapshot)
        ensures
            r.engine_id@.len() == 0,
            r.tick_processed == 0,
            r.order_sent == 0,
            r.order_filled == 0,
            r.order_failed == 0,
            r.signal_generated == 0,
            r.error_count == 0,
            r.consecutive_errors == 0,
    {
        EngineMetricsSnapshot {
            engine_id: String::new(),
            tick_processed: 0,
            order_sent: 0,
            order_filled: 0,
            order_failed: 0,
            signal_generated: 0,
            error_count: 0,
            consecutive_errors: 0,
        }
    }
}

/// Health from the error streak and the failure rate `failed / sent`: unhealthy at 10
/// errors in a row or more than half failed; degraded at 3 or more than a fifth.
pub open spec fn health_of(consecutive: u32, failed: u64, sent: u64) -> HealthStatus {
    if consecutive >= 10 || (sent > 0 && 2 * failed > sent) {
        HealthStatus::Unhealthy
    } else if consecutive >= 3 || (sent > 0 && 5 * failed > sent) {
        HealthStatus::Degraded
    } else {
        HealthStatus::Healthy
    }
}

/// Seconds from `start` to `now`, zero when the clock is behind the start.
pub open spec fn uptime_at(start: i64, now: i64) -> int {
    if now >= start { now - start } else { 0 }
}

/// The identity of an engine started at `now` (seconds) by the process `process_id`:
/// `engine_<now>_<process_id>`.
pub open spec fn engine_id_of(now: int, process_id: nat) -> Seq<char> {
    "engine_"@ + signed_digits(now) + "_"@ + decimal_digits(process_id)
}

/// The text of `engine_id_of(now, process_id)`.
pub fn engine_id_text(now: i64, process_id: u32) -> (r: String)
    ensures
        r@ == engine_id_of(now as int, process_id as nat),
{
    let mut s = "engine_".to_string();
    let t = signed_text(now);
    s.append(t.as_str());
    s.append("_");
    let p = decimal_text(process_id as u64);
    s.append(p.as_str());
    proof {
        assert(s@ =~= engine_id_of(now as int, process_id as nat));
    }
    s
}

/// `num / den` as a decimal, zero when `den` is zero.
fn rate_of(num: u64, den: u64) -> (r: Dec)
    ensures
        den == 0 ==> r.val() == 0,
        den > 0 ==> r == div_spec(Dec::int_dec(num as int), Dec::int_dec(den as int)),
{
    if den == 0 {
        return Dec::zero();
    }
    let a = Dec::from_u64(num);
    let b = Dec::from_u64(den);
    proof {
        lemma_int_quotient_in_range(num as int, den as int);
    }
    a.div(&b)
}

/// Replacing a symbol state by one of the same name keeps the names.
proof fn lemma_same_name_update(s: Seq<SymbolState>)
    ensures
        forall|i: int, v: SymbolState|
            0 <= i < s.len() && v.symbol@ == s[i].symbol@ ==> (#[trigger] s.update(i, v)).map_values(
                |x: SymbolState| x.symbol@,
            ) == s.map_values(|x: SymbolState| x.symbol@),
{
    assert forall|i: int, v: SymbolState|
        0 <= i < s.len() && v.symbol@ == s[i].symbol@ implies (#[trigger] s.update(i, v)).map_values(
            |x: SymbolState| x.symbol@,
        ) == s.map_values(|x: SymbolState| x.symbol@) by {
        assert(s.update(i, v).map_values(|x: SymbolState| x.symbol@) =~= s.map_values(|x: SymbolState| x.symbol@));
    }
}

/// Engine-wide state.  Each symbol is registered at most once.
pub struct EngineState {
    engine_id: String,
    mode: EngineMode,
    environment: Environment,
    start_time: i64,
    last_active_time: i64,
    restart_count: u32,
    status: EngineStatus,
    health: HealthStatus,
    error_message: Option<String>,
    circuit_breaker: CircuitBreaker,
    is_shutting_down: bool,
    shutdown_start_time: Option<i64>,
    tick_processed: u64,
    order_sent: u64,
    order_filled: u64,
    order_failed: u64,
    signal_generated: u64,
    error_count: u32,
    config_version: u64,
    config_updated_at: Option<i64>,
    symbols: Vec<SymbolState>,
}

impl EngineState {
    // ---------------------------------------------------------------- views

    pub closed spec fn status_spec(self) -> EngineStatus {
        self.status
    }

    pub closed spec fn health_spec(self) -> HealthStatus {
        self.health
    }

    pub closed spec fn shutting_down_spec(self) -> bool {
        self.is_shutting_down
    }

    pub closed spec fn breaker_spec(self) -> CircuitBreaker {
        self.circuit_breaker
    }

    pub closed spec fn mode_spec(self) -> EngineMode {
        self.mode
    }

    pub closed spec fn environment_spec(self) -> Environment {
        self.environment
    }

    pub closed spec fn engine_id_spec(self) -> Seq<char> {
        self.engine_id@
    }

    pub closed spec fn error_message_spec(self) -> Option<String> {
        self.error_message
    }

    pub closed spec fn restart_count_spec(self) -> u32 {
        self.restart_count
    }

    pub closed spec fn tick_spec(self) -> u64 {
        self.tick_processed
    }

    pub closed spec fn sent_spec(self) -> u64 {
        self.order_sent
    }

    pub closed spec fn filled_spec(self) -> u64 {
        self.order_filled
    }

    pub closed spec fn failed_spec(self) -> u64 {
        self.order_failed
    }

    pub closed spec fn signal_spec(self) -> u64 {
        self.signal_generated
    }

    pub closed spec fn error_count_spec(self) -> u32 {
        self.error_count
    }

    pub closed spec fn config_version_spec(self) -> u64 {
        self.config_version
    }

    /// The registered symbol names, in registration order.
    pub closed spec fn symbols_spec(self) -> Seq<Seq<char>> {
        self.symbols@.map_values(|s: SymbolState| s.symbol@)
    }

    /// The registered symbol states.
    pub closed spec fn symbol_states(self) -> Seq<SymbolState> {
        self.symbols@
    }

    /// No symbol is registered twice.
    pub open spec fn wf(self) -> bool {
        forall|i: int, j: int|
            0 <= i < j < self.symbols_spec().len() ==> self.symbols_spec()[i]
                != self.symbols_spec()[j]
    }

    /// Whether a symbol is registered.
    pub open spec fn has_symbol_spec(self, symbol: Seq<char>) -> bool {
        self.symbols_spec().contains(symbol)
    }

    /// The state of a registered symbol.
    pub open spec fn symbol_state_spec(self, symbol: Seq<char>) -> SymbolState {
        let k = choose|k: int| 0 <= k < self.symbols_spec().len() && self.symbols_spec()[k] == symbol;
        self.symbol_states()[k]
    }

    /// Trading is allowed when running, not shutting down and not tripped.
    pub open spec fn can_trade_spec(self) -> bool {
        self.status_spec() == EngineStatus::Running && !self.shutting_down_spec()
            && !self.breaker_spec().is_triggered
    }

    // ---------------------------------------------------------------- construction

    /// A new engine state created at `now` by the process `process_id`; its identity is
    /// `engine_id_of(now, process_id)`.
    pub fn new_at(mode: EngineMode, now: i64, process_id: u32) -> (r: EngineState)
        ensures
            r.wf(),
            r.mode_spec() == mode,
            r.engine_id_spec() == engine_id_of(now as int, process_id as nat),
            r.start_time_spec() == now,
            r.environment_spec() == Environment::Development,
            r.status_spec() == EngineStatus::Initializing,
            r.health_spec() == HealthStatus::Healthy,
            !r.shutting_down_spec(),
            r.breaker_spec().consecutive_errors == 0,
            !r.breaker_spec().is_triggered,
            r.breaker_spec().config.max_consecutive_errors == 5,
            r.tick_spec() == 0 && r.sent_spec() == 0 && r.filled_spec() == 0 && r.failed_spec()
                == 0 && r.signal_spec() == 0 && r.error_count_spec() == 0,
            r.config_version_spec() == 1,
            r.symbols_spec().len() == 0,
    {
        let engine_id = engine_id_text(now, process_id);
        let r = EngineState {
            engine_id,
            mode,
            environment: Environment::Development,
            start_time: now,
            last_active_time: now,
            restart_count: 0,
            status: EngineStatus::Initializing,
            health: HealthStatus::Healthy,
            error_message: None,
            circuit_breaker: CircuitBreaker::default(),
            is_shutting_down: false,
            shutdown_start_time: None,
            tick_processed: 0,
            order_sent: 0,
            order_filled: 0,
            order_failed: 0,
            signal_generated: 0,
            error_count: 0,
            config_version: 1,
            config_updated_at: None,
            symbols: Vec::new(),
        };
        proof {
            assert(r.symbols_spec() =~= Seq::empty());
        }
        r
    }

    /// A new engine state created now by the process `process_id`.
    pub fn new(mode: EngineMode, process_id: u32) -> (r: EngineState)
        ensures
            r.wf(),
            r.mode_spec() == mode,
            r.engine_id_spec() == engine_id_of(r.start_time_spec() as int, process_id as nat),
            r.environment_spec() == Environment::Development,
            r.status_spec() == EngineStatus::Initializing,
            r.health_spec() == HealthStatus::Healthy,
            !r.shutting_down_spec(),
            r.breaker_spec().consecutive_errors == 0,
            !r.breaker_spec().is_triggered,
            r.breaker_spec().config.max_consecutive_errors == 5,
            r.tick_spec() == 0 && r.sent_spec() == 0 && r.filled_spec() == 0 && r.failed_spec()
                == 0 && r.signal_spec() == 0 && r.error_count_spec() == 0,
            r.config_version_spec() == 1,
            r.symbols_spec().len() == 0,
    {
        EngineState::new_at(mode, crate::clock::utc_now_secs(), process_id)
    }

    /// A new engine state with the given circuit breaker settings.
    pub fn with_circuit_breaker(mode: EngineMode, config: CircuitBreakerConfig, process_id: u32) -> (r:
        EngineState)
        ensures
            r.wf(),
            r.mode_spec() == mode,
            r.engine_id_spec() == engine_id_of(r.start_time_spec() as int, process_id as nat),
            r.status_spec() == EngineStatus::Initializing,
            r.breaker_spec() == CircuitBreaker::fresh(config),
            !r.shutting_down_spec(),
            r.symbols_spec().len() == 0,
            r.tick_spec() == 0 && r.sent_spec() == 0 && r.filled_spec() == 0 && r.failed_spec()
                == 0 && r.signal_spec() == 0 && r.error_count_spec() == 0,
    {
        let mut s = EngineState::new(mode, process_id);
        s.circuit_breaker = CircuitBreaker::new(config);
        s
    }

    /// A new engine state with environment and breaker settings.
    pub fn with_config(
        mode: EngineMode,
        env: Environment,
        config: CircuitBreakerConfig,
        process_id: u32,
    ) -> (r: EngineState)
        ensures
            r.wf(),
            r.mode_spec() == mode,
            r.engine_id_spec() == engine_id_of(r.start_time_spec() as int, process_id as nat),
            r.environment_spec() == env,
            r.status_spec() == EngineStatus::Initializing,
            r.breaker_spec() == CircuitBreaker::fresh(config),
            !r.shutting_down_spec(),
            r.symbols_spec().len() == 0,
            r.tick_spec() == 0 && r.sent_spec() == 0 && r.filled_spec() == 0 && r.failed_spec()
                == 0 && r.signal_spec() == 0 && r.error_count_spec() == 0,
    {
        let mut s = EngineState::new(mode, process_id);
        s.environment = env;
        s.circuit_breaker = CircuitBreaker::new(config);
        s
    }

    pub fn engine_id(&self) -> (r: &str)
        ensures
            r@ == self.engine_id_spec(),
    {
        self.engine_id.as_str()
    }

    pub fn mode(&self) -> (r: EngineMode)
        ensures
            r == self.mode_spec(),
    {
        self.mode
    }

    pub fn environment(&self) -> (r: Environment)
        ensures
            r == self.environment_spec(),
    {
        self.environment
    }

    // ---------------------------------------------------------------- lifecycle

    /// Starts running at `now`.
    pub fn start_at(&mut self, now: i64)
        ensures
            final(self).status_spec() == EngineStatus::Running,
            final(self).last_active_spec() == now,
            final(self).shutting_down_spec() == old(self).shutting_down_spec(),
            final(self).breaker_spec() == old(self).breaker_spec(),
            final(self).symbols_spec() == old(self).symbols_spec(),
    {
        self.status = EngineStatus::Running;
        self.last_active_time = now;
    }

    /// Begins a graceful shutdown at `now`: trading stops.
    pub fn start_shutdown_at(&mut self, now: i64)
        ensures
            final(self).status_spec() == EngineStatus::ShuttingDown,
            final(self).shutdown_start_spec() == Some(now),
            final(self).shutting_down_spec(),
            final(self).breaker_spec() == old(self).breaker_spec(),
            final(self).symbols_spec() == old(self).symbols_spec(),
    {
        self.is_shutting_down = true;
        self.shutdown_start_time = Some(now);
        self.status = EngineStatus::ShuttingDown;
    }

    /// Starts running now.
    pub fn start(&mut self)
        ensures
            final(self).status_spec() == EngineStatus::Running,
            final(self).shutting_down_spec() == old(self).shutting_down_spec(),
            final(self).breaker_spec() == old(self).breaker_spec(),
            final(self).symbols_spec() == old(self).symbols_spec(),
    {
        self.start_at(crate::clock::utc_now_secs());
    }

    /// Begins a graceful shutdown now: trading stops.
    pub fn start_shutdown(&mut self)
        ensures
            final(self).status_spec() == EngineStatus::ShuttingDown,
            final(self).shutting_down_spec(),
            final(self).breaker_spec() == old(self).breaker_spec(),
            final(self).symbols_spec() == old(self).symbols_spec(),
    {
        self.start_shutdown_at(crate::clock::utc_now_secs());
    }

    /// Pauses now.
    pub fn pause(&mut self)
        ensures
            final(self).status_spec() == EngineStatus::Paused,
            final(self).shutting_down_spec() == old(self).shutting_down_spec(),
            final(self).breaker_spec() == old(self).breaker_spec(),
            final(self).symbols_spec() == old(self).symbols_spec(),
    {
        self.pause_at(crate::clock::utc_now_secs());
    }

    /// Resumes a paused engine now; other states are kept.
    pub fn resume(&mut self)
        ensures
            old(self).status_spec() == EngineStatus::Paused ==> final(self).status_spec()
                == EngineStatus::Running,
            old(self).status_spec() != EngineStatus::Paused ==> final(self).status_spec()
                == old(self).status_spec(),
            final(self).shutting_down_spec() == old(self).shutting_down_spec(),
            final(self).breaker_spec() == old(self).breaker_spec(),
            final(self).symbols_spec() == old(self).symbols_spec(),
    {
        self.resume_at(crate::clock::utc_now_secs());
    }

    /// Completes the shutdown.
    pub fn complete_shutdown(&mut self)
        ensures
            final(self).status_spec() == EngineStatus::Stopped,
            !final(self).shutting_down_spec(),
            final(self).breaker_spec() == old(self).breaker_spec(),
            final(self).symbols_spec() == old(self).symbols_spec(),
    {
        self.status = EngineStatus::Stopped;
        self.is_shutting_down = false;
    }

    /// Pauses at `now`.
    pub fn pause_at(&mut self, now: i64)
        ensures
            final(self).status_spec() == EngineStatus::Paused,
            final(self).last_active_spec() == now,
            final(self).shutting_down_spec() == old(self).shutting_down_spec(),
            final(self).breaker_spec() == old(self).breaker_spec(),
            final(self).symbols_spec() == old(self).symbols_spec(),
    {
        self.status = EngineStatus::Paused;
        self.last_active_time = now;
    }

    /// Resumes a paused engine at `now`; other states are kept.
    pub fn resume_at(&mut self, now: i64)
        ensures
            old(self).status_spec() == EngineStatus::Paused ==> final(self).status_spec()
                == EngineStatus::Running && final(self).last_active_spec() == now,
            old(self).status_spec() != EngineStatus::Paused ==> final(self).last_active_spec()
                == old(self).last_active_spec(),
            old(self).status_spec() != EngineStatus::Paused ==> final(self).status_spec()
                == old(self).status_spec(),
            final(self).shutting_down_spec() == old(self).shutting_down_spec(),
            final(self).breaker_spec() == old(self).breaker_spec(),
            final(self).symbols_spec() == old(self).symbols_spec(),
    {
        if self.status == EngineStatus::Paused {
            self.status = EngineStatus::Running;
            self.last_active_time = now;
        }
    }

    /// Stops.
    pub fn stop(&mut self)
        ensures
            final(self).status_spec() == EngineStatus::Stopped,
            !final(self).shutting_down_spec(),
            final(self).breaker_spec() == old(self).breaker_spec(),
            final(self).symbols_spec() == old(self).symbols_spec(),
    {
        self.status = EngineStatus::Stopped;
        self.is_shutting_down = false;
    }

    /// Enters the error state with a message.
    pub fn set_error(&mut self, msg: String)
        ensures
            final(self).status_spec() == EngineStatus::Error,
            final(self).health_spec() == HealthStatus::Unhealthy,
            final(self).error_message_spec() == Some(msg),
            final(self).shutting_down_spec() == old(self).shutting_down_spec(),
            final(self).breaker_spec() == old(self).breaker_spec(),
            final(self).symbols_spec() == old(self).symbols_spec(),
    {
        self.error_message = Some(msg);
        self.status = EngineStatus::Error;
        self.health = HealthStatus::Unhealthy;
    }

    /// Clears the error: an engine in the error state runs again; health is restored.
    pub fn clear_error(&mut self)
        ensures
            final(self).error_message_spec() is None,
            old(self).status_spec() == EngineStatus::Error ==> final(self).status_spec()
                == EngineStatus::Running,
            old(self).status_spec() != EngineStatus::Error ==> final(self).status_spec()
                == old(self).status_spec(),
            final(self).health_spec() == HealthStatus::Healthy,
            final(self).breaker_spec() == old(self).breaker_spec(),
            final(self).symbols_spec() == old(self).symbols_spec(),
    {
        self.error_message = None;
        if self.status == EngineStatus::Error {
            self.status = EngineStatus::Running;
        }
        self.health = HealthStatus::Healthy;
    }

    /// Counts a restart; the `u32` counter overflowing is left out.
    pub fn increment_restart(&mut self)
        requires
            old(self).restart_count_spec() < u32::MAX,
        ensures
            final(self).restart_count_spec() == old(self).restart_count_spec() + 1,
            final(self).status_spec() == old(self).status_spec(),
            final(self).symbols_spec() == old(self).symbols_spec(),
    {
        self.restart_count = self.restart_count + 1;
    }

    // ---------------------------------------------------------------- queries

    /// Running, not shutting down, breaker not tripped.
    pub fn can_trade(&self) -> (r: bool)
        ensures
            r == self.can_trade_spec(),
    {
        self.status == EngineStatus::Running && !self.is_shutting_down
            && !self.circuit_breaker.is_triggered
    }

    pub fn status(&self) -> (r: EngineStatus)
        ensures
            r == self.status_spec(),
    {
        self.status
    }

    pub fn health(&self) -> (r: HealthStatus)
        ensures
            r == self.health_spec(),
    {
        self.health
    }

    pub fn is_shutting_down(&self) -> (r: bool)
        ensures
            r == self.shutting_down_spec(),
    {
        self.is_shutting_down
    }

    pub fn is_paused(&self) -> (r: bool)
        ensures
            r == (self.status_spec() == EngineStatus::Paused),
    {
        self.status == EngineStatus::Paused
    }

    pub fn is_stopped(&self) -> (r: bool)
        ensures
            r == (self.status_spec() == EngineStatus::Stopped),
    {
        self.status == EngineStatus::Stopped
    }

    pub fn is_error(&self) -> (r: bool)
        ensures
            r == (self.status_spec() == EngineStatus::Error),
    {
        self.status == EngineStatus::Error
    }

    /// Seconds since the start, read now: `uptime_secs` at the clock's reading.
    pub fn uptime(&self) -> (r: u64)
        ensures
            exists|now: i64| #[trigger] uptime_at(self.start_time_spec(), now) == r,
    {
        let now = crate::clock::utc_now_secs();
        let r = self.uptime_secs(now);
        assert(uptime_at(self.start_time_spec(), now) == r);
        r
    }

    /// Seconds since the start, zero when the clock is behind it.
    pub fn uptime_secs(&self, now: i64) -> (r: u64)
        ensures
            now >= self.start_time_spec() ==> r == now - self.start_time_spec(),
            now < self.start_time_spec() ==> r == 0,
    {
        if now >= self.start_time {
            ((now as i128) - (self.start_time as i128)) as u64
        } else {
            0
        }
    }

    pub closed spec fn start_time_spec(self) -> i64 {
        self.start_time
    }

    pub fn start_time(&self) -> (r: i64)
        ensures
            r == self.start_time_spec(),
    {
        self.start_time
    }

    pub closed spec fn last_active_spec(self) -> i64 {
        self.last_active_time
    }

    /// When the engine last started, paused or resumed, in seconds.
    pub fn last_active_time(&self) -> (r: i64)
        ensures
            r == self.last_active_spec(),
    {
        self.last_active_time
    }

    pub fn error_message(&self) -> (r: Option<String>)
        ensures
            r == self.error_message_spec(),
    {
        self.error_message.clone()
    }

    pub fn restart_count(&self) -> (r: u32)
        ensures
            r == self.restart_count_spec(),
    {
        self.restart_count
    }

    pub closed spec fn shutdown_start_spec(self) -> Option<i64> {
        self.shutdown_start_time
    }

    /// When the shutdown began, in seconds.
    pub fn shutdown_start_time(&self) -> (r: Option<i64>)
        ensures
            r == self.shutdown_start_spec(),
    {
        self.shutdown_start_time
    }

    // ---------------------------------------------------------------- counters

    pub fn tick_processed(&self) -> (r: u64)
        ensures
            r == self.tick_spec(),
    {
        self.tick_processed
    }

    pub fn order_sent(&self) -> (r: u64)
        ensures
            r == self.sent_spec(),
    {
        self.order_sent
    }

    pub fn order_filled(&self) -> (r: u64)
        ensures
            r == self.filled_spec(),
    {
        self.order_filled
    }

    pub fn order_failed(&self) -> (r: u64)
        ensures
            r == self.failed_spec(),
    {
        self.order_failed
    }

    pub fn signal_generated(&self) -> (r: u64)
        ensures
            r == self.signal_spec(),
    {
        self.signal_generated
    }

    pub fn error_count(&self) -> (r: u32)
        ensures
            r == self.error_count_spec(),
    {
        self.error_count
    }

    pub fn consecutive_errors(&self) -> (r: u32)
        ensures
            r == self.breaker_spec().consecutive_errors,
    {
        self.circuit_breaker.consecutive_errors
    }

    /// Filled orders per sent order; zero before any order was sent.
    pub fn fill_rate(&self) -> (r: Dec)
        ensures
            self.sent_spec() == 0 ==> r.val() == 0,
            self.sent_spec() > 0 ==> r == div_spec(Dec::int_dec(self.filled_spec() as int), Dec::int_dec(self.sent_spec() as int)),
    {
        rate_of(self.order_filled, self.order_sent)
    }

    /// Failed orders per sent order; zero before any order was sent.
    pub fn fail_rate(&self) -> (r: Dec)
        ensures
            self.sent_spec() == 0 ==> r.val() == 0,
            self.sent_spec() > 0 ==> r == div_spec(Dec::int_dec(self.failed_spec() as int), Dec::int_dec(self.sent_spec() as int)),
    {
        rate_of(self.order_failed, self.order_sent)
    }

    /// All counters.
    pub fn metrics_snapshot(&self) -> (r: EngineMetricsSnapshot)
        ensures
            r.engine_id@ == self.engine_id_spec(),
            r.tick_processed == self.tick_spec(),
            r.order_sent == self.sent_spec(),
            r.order_filled == self.filled_spec(),
            r.order_failed == self.failed_spec(),
            r.signal_generated == self.signal_spec(),
            r.error_count == self.error_count_spec(),
            r.consecutive_errors == self.breaker_spec().consecutive_errors,
    {
        EngineMetricsSnapshot {
            engine_id: self.engine_id.clone(),
            tick_processed: self.tick_processed,
            order_sent: self.order_sent,
            order_filled: self.order_filled,
            order_failed: self.order_failed,
            signal_generated: self.signal_generated,
            error_count: self.error_count,
            consecutive_errors: self.circuit_breaker.consecutive_errors,
        }
    }

    /// Counts a tick (wrapping, as the atomic counter does).
    pub fn record_tick(&mut self)
        ensures
            final(self).tick_spec() == old(self).tick_spec().wrapping_add(1),
            final(self).status_spec() == old(self).status_spec(),
            final(self).symbols_spec() == old(self).symbols_spec(),
    {
        self.tick_processed = self.tick_processed.wrapping_add(1);
    }

    pub fn record_order_sent(&mut self)
        ensures
            final(self).sent_spec() == old(self).sent_spec().wrapping_add(1),
            final(self).filled_spec() == old(self).filled_spec(),
            final(self).failed_spec() == old(self).failed_spec(),
            final(self).symbols_spec() == old(self).symbols_spec(),
            final(self).breaker_spec() == old(self).breaker_spec(),
            final(self).status_spec() == old(self).status_spec(),
    {
        self.order_sent = self.order_sent.wrapping_add(1);
    }

    pub fn record_order_filled(&mut self)
        ensures
            final(self).filled_spec() == old(self).filled_spec().wrapping_add(1),
            final(self).sent_spec() == old(self).sent_spec(),
            final(self).failed_spec() == old(self).failed_spec(),
            final(self).symbols_spec() == old(self).symbols_spec(),
            final(self).breaker_spec() == old(self).breaker_spec(),
            final(self).status_spec() == old(self).status_spec(),
    {
        self.order_filled = self.order_filled.wrapping_add(1);
    }

    pub fn record_order_failed(&mut self)
        ensures
            final(self).failed_spec() == old(self).failed_spec().wrapping_add(1),
            final(self).sent_spec() == old(self).sent_spec(),
            final(self).filled_spec() == old(self).filled_spec(),
            final(self).symbols_spec() == old(self).symbols_spec(),
            final(self).breaker_spec() == old(self).breaker_spec(),
            final(self).status_spec() == old(self).status_spec(),
    {
        self.order_failed = self.order_failed.wrapping_add(1);
    }

    pub fn record_signal(&mut self)
        ensures
            final(self).signal_spec() == old(self).signal_spec().wrapping_add(1),
            final(self).symbols_spec() == old(self).symbols_spec(),
    {
        self.signal_generated = self.signal_generated.wrapping_add(1);
    }

    /// Counts an error in the total and in the breaker's streak.  The streak
    /// overflowing `u32` is left out.
    pub fn record_error(&mut self)
        requires
            old(self).breaker_spec().consecutive_errors < u32::MAX,
        ensures
            final(self).error_count_spec() == old(self).error_count_spec().wrapping_add(1),
            final(self).breaker_spec().consecutive_errors == old(self).breaker_spec().consecutive_errors + 1,
            final(self).breaker_spec().is_triggered == old(self).breaker_spec().is_triggered,
            final(self).breaker_spec().config == old(self).breaker_spec().config,
            final(self).status_spec() == old(self).status_spec(),
            final(self).shutting_down_spec() == old(self).shutting_down_spec(),
            final(self).symbols_spec() == old(self).symbols_spec(),
            final(self).sent_spec() == old(self).sent_spec(),
            final(self).failed_spec() == old(self).failed_spec(),
    {
        self.error_count = self.error_count.wrapping_add(1);
        self.circuit_breaker.record_error();
    }

    /// Clears the error streak and the breaker.
    pub fn reset_consecutive_errors(&mut self)
        ensures
            final(self).breaker_spec().consecutive_errors == 0,
            !final(self).breaker_spec().is_triggered,
            final(self).status_spec() == old(self).status_spec(),
            final(self).symbols_spec() == old(self).symbols_spec(),
            final(self).sent_spec() == old(self).sent_spec(),
            final(self).filled_spec() == old(self).filled_spec(),
            final(self).failed_spec() == old(self).failed_spec(),
    {
        self.circuit_breaker.reset();
    }

    /// Restores the counters from a snapshot.
    pub fn update_metrics(&mut self, snapshot: EngineMetricsSnapshot)
        ensures
            final(self).tick_spec() == snapshot.tick_processed,
            final(self).sent_spec() == snapshot.order_sent,
            final(self).filled_spec() == snapshot.order_filled,
            final(self).failed_spec() == snapshot.order_failed,
            final(self).signal_spec() == snapshot.signal_generated,
            final(self).error_count_spec() == snapshot.error_count,
            final(self).breaker_spec().consecutive_errors == snapshot.consecutive_errors,
            final(self).status_spec() == old(self).status_spec(),
            final(self).symbols_spec() == old(self).symbols_spec(),
    {
        self.tick_processed = snapshot.tick_processed;
        self.order_sent = snapshot.order_sent;
        self.order_filled = snapshot.order_filled;
        self.order_failed = snapshot.order_failed;
        self.signal_generated = snapshot.signal_generated;
        self.error_count = snapshot.error_count;
        self.circuit_breaker.consecutive_errors = snapshot.consecutive_errors;
    }

    // ---------------------------------------------------------------- health

    /// Updates health from the error streak and the failure rate.
    pub fn update_health(&mut self)
        ensures
            final(self).health_spec() == health_of(
                old(self).breaker_spec().consecutive_errors,
                old(self).failed_spec(),
                old(self).sent_spec(),
            ),
            final(self).status_spec() == old(self).status_spec(),
            final(self).breaker_spec() == old(self).breaker_spec(),
            final(self).symbols_spec() == old(self).symbols_spec(),
            final(self).sent_spec() == old(self).sent_spec(),
            final(self).failed_spec() == old(self).failed_spec(),
    {
        let consecutive = self.circuit_breaker.consecutive_errors;
        let sent = self.order_sent as u128;
        let failed = self.order_failed as u128;
        self.health = if consecutive >= 10 || (sent > 0 && 2 * failed > sent) {
            HealthStatus::Unhealthy
        } else if consecutive >= 3 || (sent > 0 && 5 * failed > sent) {
            HealthStatus::Degraded
        } else {
            HealthStatus::Healthy
        };
    }

    /// Self check: symbols unique (always, by construction), the shutdown flag agrees
    /// with the status, and the tick counter is below half its range.
    pub fn self_check(&self) -> (r: Result<(), EngineStateError>)
        requires
            self.wf(),
        ensures
            r is Ok <==> (!(self.shutting_down_spec() && self.status_spec()
                != EngineStatus::ShuttingDown) && self.tick_spec() <= u64::MAX / 2),
            (self.shutting_down_spec() && self.status_spec() != EngineStatus::ShuttingDown) ==> r
                matches Err(EngineStateError::StateInconsistent(_)),
            !(self.shutting_down_spec() && self.status_spec() != EngineStatus::ShuttingDown)
                && self.tick_spec() > u64::MAX / 2 ==> r matches Err(
                EngineStateError::SelfCheckFailed(_),
            ),
    {
        if self.is_shutting_down && self.status != EngineStatus::ShuttingDown {
            return Err(
                EngineStateError::StateInconsistent(
                    "is_shutting_down 与 status 不一致".to_string(),
                ),
            );
        }
        if self.tick_processed > u64::MAX / 2 {
            return Err(EngineStateError::SelfCheckFailed("tick_processed 异常".to_string()));
        }
        Ok(())
    }

    // ---------------------------------------------------------------- breaker

    /// Runs the breaker check at `now`.
    pub fn check_circuit_breaker_at(&mut self, now: i64) -> (r: CircuitBreakerAction)
        requires
            pause_ok(old(self).breaker_spec().config),
        ensures
            should_trigger_spec(old(self).breaker_spec()) ==> r == CircuitBreakerAction::Pause
                && final(self).breaker_spec().is_triggered,
            !should_trigger_spec(old(self).breaker_spec()) && !old(self).breaker_spec().is_triggered ==> r == CircuitBreakerAction::NoAction
                && final(self).breaker_spec() == old(self).breaker_spec(),
            final(self).status_spec() == old(self).status_spec(),
            final(self).shutting_down_spec() == old(self).shutting_down_spec(),
            final(self).symbols_spec() == old(self).symbols_spec(),
    {
        self.circuit_breaker.check_at(now)
    }

    /// Trips the breaker (when it should) and pauses, at `now`.
    pub fn trigger_circuit_breaker_at(&mut self, now: i64)
        requires
            pause_ok(old(self).breaker_spec().config),
        ensures
            should_trigger_spec(old(self).breaker_spec()) ==> final(self).breaker_spec().is_triggered,
            final(self).status_spec() == EngineStatus::Paused,
            final(self).symbols_spec() == old(self).symbols_spec(),
    {
        self.circuit_breaker.trigger_at(now);
        self.pause_at(now);
    }

    /// Runs the breaker check now.
    pub fn check_circuit_breaker(&mut self) -> (r: CircuitBreakerAction)
        requires
            pause_ok(old(self).breaker_spec().config),
        ensures
            should_trigger_spec(old(self).breaker_spec()) ==> r == CircuitBreakerAction::Pause
                && final(self).breaker_spec().is_triggered,
            !should_trigger_spec(old(self).breaker_spec()) && !old(self).breaker_spec().is_triggered ==> r == CircuitBreakerAction::NoAction
                && final(self).breaker_spec() == old(self).breaker_spec(),
            final(self).status_spec() == old(self).status_spec(),
            final(self).shutting_down_spec() == old(self).shutting_down_spec(),
            final(self).symbols_spec() == old(self).symbols_spec(),
    {
        self.check_circuit_breaker_at(crate::clock::utc_now_secs())
    }

    /// Trips the breaker (when it should) and pauses, now.
    pub fn trigger_circuit_breaker(&mut self)
        requires
            pause_ok(old(self).breaker_spec().config),
        ensures
            should_trigger_spec(old(self).breaker_spec()) ==> final(self).breaker_spec().is_triggered,
            final(self).status_spec() == EngineStatus::Paused,
            final(self).symbols_spec() == old(self).symbols_spec(),
    {
        self.trigger_circuit_breaker_at(crate::clock::utc_now_secs());
    }

    pub fn reset_circuit_breaker(&mut self)
        ensures
            !final(self).breaker_spec().is_triggered,
            final(self).breaker_spec().consecutive_errors == 0,
            final(self).status_spec() == old(self).status_spec(),
            final(self).symbols_spec() == old(self).symbols_spec(),
    {
        self.circuit_breaker.reset();
    }

    pub fn circuit_breaker(&self) -> (r: &CircuitBreaker)
        ensures
            *r == self.breaker_spec(),
    {
        &self.circuit_breaker
    }

    // ---------------------------------------------------------------- symbols

    fn find_symbol(&self, symbol: &str) -> (r: Option<usize>)
        ensures
            r is Some ==> r.unwrap() < self.symbols_spec().len() && self.symbols_spec()[r.unwrap() as int]
                == symbol@,
            r is None ==> !self.symbols_spec().contains(symbol@),
    {
        let mut i: usize = 0;
        while i < self.symbols.len()
            invariant
                i <= self.symbols@.len(),
                forall|j: int| 0 <= j < i ==> self.symbols_spec()[j] != symbol@,
            decreases self.symbols@.len() - i,
        {
            if self.symbols[i].symbol.as_str().to_string() == symbol.to_string() {
                return Some(i);
            }
            i = i + 1;
        }
        None
    }

    /// Registers a symbol once; registering again keeps the existing state.
    pub fn register_symbol(&mut self, symbol: &str)
        requires
            old(self).wf(),
        ensures
            final(self).wf(),
            old(self).has_symbol_spec(symbol@) ==> final(self).symbols_spec() == old(self).symbols_spec() && final(self).symbol_states() == old(self).symbol_states(),
            !old(self).has_symbol_spec(symbol@) ==> final(self).symbols_spec() == old(self).symbols_spec().push(symbol@),
            final(self).has_symbol_spec(symbol@),
            forall|s: Seq<char>| old(self).has_symbol_spec(s) ==> final(self).has_symbol_spec(s),
            final(self).status_spec() == old(self).status_spec(),
            final(self).breaker_spec() == old(self).breaker_spec(),
            final(self).shutting_down_spec() == old(self).shutting_down_spec(),
    {
        if self.find_symbol(symbol).is_none() {
            let st = SymbolState::new(symbol.to_string());
            self.symbols.push(st);
            proof {
                let prev = old(self).symbols_spec();
                assert(self.symbols_spec() =~= prev.push(symbol@));
                assert(self.symbols_spec()[prev.len() as int] == symbol@);
                assert forall|s: Seq<char>| prev.contains(s) implies self.symbols_spec().contains(s) by {
                    let j = choose|j: int| 0 <= j < prev.len() && prev[j] == s;
                    assert(self.symbols_spec()[j] == s);
                }
            }
        }
    }

    /// Registers each symbol.
    pub fn register_symbols(&mut self, symbols: &Vec<&str>)
        requires
            old(self).wf(),
        ensures
            final(self).wf(),
            forall|i: int| 0 <= i < symbols@.len() ==> final(self).has_symbol_spec(symbols@[i]@),
            forall|s: Seq<char>| old(self).has_symbol_spec(s) ==> final(self).has_symbol_spec(s),
            final(self).status_spec() == old(self).status_spec(),
    {
        let mut k: usize = 0;
        while k < symbols.len()
            invariant
                k <= symbols@.len(),
                self.wf(),
                forall|i: int| 0 <= i < k ==> self.has_symbol_spec(symbols@[i]@),
                forall|s: Seq<char>| old(self).has_symbol_spec(s) ==> self.has_symbol_spec(s),
                self.status_spec() == old(self).status_spec(),
            decreases symbols@.len() - k,
        {
            self.register_symbol(symbols[k]);
            k = k + 1;
        }
    }

    /// Removes a symbol; answers whether it was registered.
    pub fn unregister_symbol(&mut self, symbol: &str) -> (r: bool)
        requires
            old(self).wf(),
        ensures
            final(self).wf(),
            r == old(self).has_symbol_spec(symbol@),
            !final(self).has_symbol_spec(symbol@),
            forall|s: Seq<char>| s != symbol@ ==> (final(self).has_symbol_spec(s) == old(self).has_symbol_spec(s)),
            final(self).symbols_spec().len() == old(self).symbols_spec().len() - (if r { 1int } else { 0int }),
            final(self).status_spec() == old(self).status_spec(),
    {
        match self.find_symbol(symbol) {
            Some(i) => {
                let ghost before = self.symbols_spec();
                self.symbols.remove(i);
                proof {
                    assert(self.symbols_spec() =~= before.remove(i as int));
                    assert forall|s: Seq<char>| s != symbol@ implies (self.has_symbol_spec(s)
                        == old(self).has_symbol_spec(s)) by {
                        if before.contains(s) {
                            let j = choose|j: int| 0 <= j < before.len() && before[j] == s;
                            if j < i {
                                assert(self.symbols_spec()[j] == s);
                            } else {
                                assert(j != i);
                                assert(self.symbols_spec()[j - 1] == s);
                            }
                        }
                        if self.symbols_spec().contains(s) {
                            let j = choose|j: int| 0 <= j < self.symbols_spec().len() && self.symbols_spec()[j] == s;
                            if j < i {
                                assert(before[j] == s);
                            } else {
                                assert(before[j + 1] == s);
                            }
                        }
                    }
                    if self.symbols_spec().contains(symbol@) {
                        let j = choose|j: int| 0 <= j < self.symbols_spec().len() && self.symbols_spec()[j] == symbol@;
                        if j < i {
                            assert(before[j] == symbol@);
                        } else {
                            assert(before[j + 1] == symbol@);
                        }
                    }
                }
                true
            },
            None => false,
        }
    }

    /// The state of a registered symbol.
    pub fn get_symbol(&self, symbol: &str) -> (r: Option<&SymbolState>)
        requires
            self.wf(),
        ensures
            r is Some <==> self.has_symbol_spec(symbol@),
            r is Some ==> r.unwrap().symbol@ == symbol@ && *r.unwrap() == self.symbol_state_spec(symbol@),
    {
        match self.find_symbol(symbol) {
            Some(i) => {
                proof {
                    let k = choose|k: int| 0 <= k < self.symbols_spec().len() && self.symbols_spec()[k] == symbol@;
                    if k != i {
                        if k < i {
                            assert(self.symbols_spec()[k] != self.symbols_spec()[i as int]);
                        } else {
                            assert(self.symbols_spec()[i as int] != self.symbols_spec()[k]);
                        }
                    }
                }
                Some(&self.symbols[i])
            },
            None => None,
        }
    }

    /// Where a registered symbol stands in the registration order.
    pub open spec fn symbol_index(self, symbol: Seq<char>) -> int {
        choose|k: int| 0 <= k < self.symbols_spec().len() && self.symbols_spec()[k] == symbol
    }

    /// `b` is `a` with only its symbol states possibly changed.
    pub closed spec fn same_but_symbols(a: EngineState, b: EngineState) -> bool {
        b == (EngineState { symbols: b.symbols, ..a })
    }

    /// The state of a registered symbol, to change it in place.  The table keeps one
    /// entry per symbol as long as the entry's name is left as it is.
    pub fn get_symbol_mut(&mut self, symbol: &str) -> (r: Option<&mut SymbolState>)
        requires
            old(self).wf(),
        ensures
            r is Some <==> old(self).has_symbol_spec(symbol@),
            r is None ==> *final(self) == *old(self),
            r matches Some(x) ==> *x == old(self).symbol_state_spec(symbol@),
            r matches Some(x) ==> x.symbol@ == symbol@,
            r matches Some(x) ==> final(self).symbol_states() == old(self).symbol_states().update(
                old(self).symbol_index(symbol@),
                *final(x),
            ),
            r is Some ==> EngineState::same_but_symbols(*old(self), *final(self)),
            r matches Some(x) ==> (final(x).symbol@ == symbol@ ==> final(self).wf() && final(self).symbols_spec()
                == old(self).symbols_spec()),
    {
        match self.find_symbol(symbol) {
            Some(i) => {
                proof {
                    let k = choose|k: int| 0 <= k < self.symbols_spec().len() && self.symbols_spec()[k] == symbol@;
                    if k != i {
                        if k < i {
                            assert(self.symbols_spec()[k] != self.symbols_spec()[i as int]);
                        } else {
                            assert(self.symbols_spec()[i as int] != self.symbols_spec()[k]);
                        }
                    }
                    lemma_same_name_update(self.symbols@);
                }
                Some(&mut self.symbols[i])
            },
            None => None,
        }
    }

    pub fn has_symbol(&self, symbol: &str) -> (r: bool)
        ensures
            r == self.has_symbol_spec(symbol@),
    {
        self.find_symbol(symbol).is_some()
    }

    /// The registered symbols, in registration order.
    pub fn registered_symbols(&self) -> (r: Vec<String>)
        ensures
            r@.len() == self.symbols_spec().len(),
            forall|i: int| 0 <= i < r@.len() ==> r@[i]@ == self.symbols_spec()[i],
    {
        let mut out: Vec<String> = Vec::new();
        let mut i: usize = 0;
        while i < self.symbols.len()
            invariant
                i <= self.symbols@.len(),
                out@.len() == i,
                forall|j: int| 0 <= j < i ==> out@[j]@ == self.symbols_spec()[j],
            decreases self.symbols@.len() - i,
        {
            out.push(self.symbols[i].symbol.clone());
            i = i + 1;
        }
        out
    }

    pub fn symbol_count(&self) -> (r: usize)
        ensures
            r == self.symbols_spec().len(),
    {
        self.symbols.len()
    }

    /// Applies a breaker configuration and bumps the configuration version.  The
    /// version overflowing `u64` is left out.
    pub fn update_circuit_breaker_config_at(&mut self, config: CircuitBreakerConfig, now: i64)
        requires
            old(self).config_version_spec() < u64::MAX,
        ensures
            final(self).config_updated_spec() == Some(now),
            final(self).breaker_spec().config == config,
            final(self).breaker_spec().consecutive_errors == old(self).breaker_spec().consecutive_errors,
            final(self).breaker_spec().is_triggered == old(self).breaker_spec().is_triggered,
            final(self).config_version_spec() == old(self).config_version_spec() + 1,
            final(self).status_spec() == old(self).status_spec(),
            final(self).symbols_spec() == old(self).symbols_spec(),
    {
        self.circuit_breaker.config = config;
        self.config_version = self.config_version + 1;
        self.config_updated_at = Some(now);
    }

    /// Applies a breaker configuration now; see `update_circuit_breaker_config_at`.
    pub fn update_circuit_breaker_config(&mut self, config: CircuitBreakerConfig)
        requires
            old(self).config_version_spec() < u64::MAX,
        ensures
            final(self).breaker_spec().config == config,
            final(self).breaker_spec().consecutive_errors == old(self).breaker_spec().consecutive_errors,
            final(self).breaker_spec().is_triggered == old(self).breaker_spec().is_triggered,
            final(self).config_version_spec() == old(self).config_version_spec() + 1,
            final(self).status_spec() == old(self).status_spec(),
            final(self).symbols_spec() == old(self).symbols_spec(),
    {
        self.update_circuit_breaker_config_at(config, crate::clock::utc_now_secs());
    }

    pub fn config_version(&self) -> (r: u64)
        ensures
            r == self.config_version_spec(),
    {
        self.config_version
    }

    pub closed spec fn config_updated_spec(self) -> Option<i64> {
        self.config_updated_at
    }

    /// When the breaker settings were last changed, in seconds.
    pub fn config_updated_at(&self) -> (r: Option<i64>)
        ensures
            r == self.config_updated_spec(),
    {
        self.config_updated_at
    }
}

/// Trading is possible only when running: from a new state, `start` enables trading,
/// and `pause`, `start_shutdown` and `stop` each disable it.
pub proof fn lemma_lifecycle_gates_trading(s: EngineState, running: EngineState, after: EngineState)
    requires
        running.status_spec() == EngineStatus::Running,
        !running.shutting_down_spec(),
        !running.breaker_spec().is_triggered,
        after.status_spec() == EngineStatus::Paused || after.status_spec()
            == EngineStatus::ShuttingDown || after.status_spec() == EngineStatus::Stopped,
    ensures
        running.can_trade_spec(),
        !after.can_trade_spec(),
{
}

/// Registering a symbol that was not registered and unregistering it again leaves
/// exactly the symbols registered before.
pub proof fn lemma_register_unregister_restores(
    s0: EngineState,
    s1: EngineState,
    s2: EngineState,
    symbol: Seq<char>,
)
    requires
        !s0.has_symbol_spec(symbol),
        s1.symbols_spec() == s0.symbols_spec().push(symbol),
        !s2.has_symbol_spec(symbol),
        forall|t: Seq<char>| t != symbol ==> (s2.has_symbol_spec(t) == s1.has_symbol_spec(t)),
    ensures
        forall|t: Seq<char>| s2.has_symbol_spec(t) == s0.has_symbol_spec(t),
{
    assert forall|t: Seq<char>| s2.has_symbol_spec(t) == s0.has_symbol_spec(t) by {
        if t != symbol {
            let a = s0.symbols_spec();
            if a.contains(t) {
                let j = choose|j: int| 0 <= j < a.len() && a[j] == t;
                assert(a.push(symbol)[j] == t);
            }
            if a.push(symbol).contains(t) {
                let j = choose|j: int| 0 <= j < a.push(symbol).len() && a.push(symbol)[j] == t;
                assert(a[j] == t);
            }
        }
    }
}

} // verus!
