//! The decisions of the strategy loop and of the trader supervisor: when a loop
//! stops after errors, when a trader is stale, and how restarts back off.
use vstd::prelude::*;

verus! {

/// How many times a trader is restarted before giving up.
pub const MAX_RESTART_COUNT: u32 = 10;
/// A trader without a heartbeat for this long (ms) is stale.
pub const HEARTBEAT_TIMEOUT_MS: u64 = 30_000;

/// Whether a loop runs.
#[derive(Debug, Clone, Copy, PartialEq, Eq, Structural)]
pub enum RunningState {
    Running,
    Stopped,
}

impl Default for RunningState {
    fn default() -> (r: RunningState)
        ensures
            r == RunningState::Stopped,
    {
        RunningState::Stopped
    }
}

/// Loop pacing and error tolerance.
#[derive(Debug, Clone)]
pub struct StrategyLoopConfig {
    pub interval_ms: u64,
    pub max_consecutive_errors: u32,
}

impl Default for StrategyLoopConfig {
    /// Every 500 ms; three errors in a row stop the loop.
    fn default() -> (r: StrategyLoopConfig)
        ensures
            r.interval_ms == 500,
            r.max_consecutive_errors == 3,
    {
        StrategyLoopConfig { interval_ms: 500, max_consecutive_errors: 3 }
    }
}

/// An error of one pass of the loop.
#[derive(Debug)]
pub enum StrategyLoopError {
    Execute(String),
}

impl StrategyLoopError {
    /// "执行错误: <message>".
    pub fn to_string(&self) -> (r: String)
        ensures
            match self {
                StrategyLoopError::Execute(m) => r@ == "执行错误: "@ + m@,
            },
    {
        match self {
            StrategyLoopError::Execute(m) => {
                let mut s = "执行错误: ".to_string();
                s.append(m.as_str());
                s
            },
        }
    }
}

/// What the loop does after a pass.
#[derive(Debug, Clone, Copy, PartialEq, Eq, Structural)]
pub enum LoopStep {
    /// Sleep for the interval and run again.
    Continue,
    /// Too many errors in a row: the loop has stopped.
    Stop,
}

/// One strategy's loop.
pub struct StrategyLoop {
    pub symbol: String,
    pub config: StrategyLoopConfig,
    pub running_state: RunningState,
    pub consecutive_errors: u32,
}

impl StrategyLoop {
    pub fn new(symbol: String, config: StrategyLoopConfig) -> (r: StrategyLoop)
        ensures
            r.symbol == symbol,
            r.config == config,
            r.running_state == RunningState::Stopped,
            r.consecutive_errors == 0,
    {
        StrategyLoop { symbol, config, running_state: RunningState::Stopped, consecutive_errors: 0 }
    }

    pub fn start(&mut self)
        ensures
            final(self).running_state == RunningState::Running,
            final(self).consecutive_errors == old(self).consecutive_errors,
            final(self).config == old(self).config,
            final(self).symbol == old(self).symbol,
    {
        self.running_state = RunningState::Running;
    }

    pub fn stop(&mut self)
        ensures
            final(self).running_state == RunningState::Stopped,
            final(self).consecutive_errors == old(self).consecutive_errors,
            final(self).config == old(self).config,
            final(self).symbol == old(self).symbol,
    {
        self.running_state = RunningState::Stopped;
    }

    pub fn is_running(&self) -> (r: bool)
        ensures
            r == (self.running_state == RunningState::Running),
    {
        self.running_state == RunningState::Running
    }

    pub fn state(&self) -> (r: RunningState)
        ensures
            r == self.running_state,
    {
        self.running_state
    }

    /// Takes the outcome of one pass: a success clears the error count; an error
    /// counts, and once the count reaches the maximum the loop stops.  The count
    /// overflowing `u32` is left out.
    pub fn on_pass(&mut self, succeeded: bool) -> (r: LoopStep)
        requires
            old(self).consecutive_errors < u32::MAX,
        ensures
            succeeded ==> final(self).consecutive_errors == 0 && r == LoopStep::Continue
                && final(self).running_state == old(self).running_state,
            !succeeded ==> final(self).consecutive_errors == old(self).consecutive_errors + 1,
            !succeeded && final(self).consecutive_errors >= old(self).config.max_consecutive_errors ==> r
                == LoopStep::Stop && final(self).running_state == RunningState::Stopped,
            !succeeded && final(self).consecutive_errors < old(self).config.max_consecutive_errors ==> r
                == LoopStep::Continue && final(self).running_state == old(self).running_state,
            final(self).config == old(self).config,
            final(self).symbol == old(self).symbol,
    {
        if succeeded {
            self.consecutive_errors = 0;
            LoopStep::Continue
        } else {
            self.consecutive_errors = self.consecutive_errors + 1;
            if self.consecutive_errors >= self.config.max_consecutive_errors {
                self.stop();
                LoopStep::Stop
            } else {
                LoopStep::Continue
            }
        }
    }
}

/// Whether a trader that beat at `last` counts as stale when the clock reads `t`: the
/// clock went back before the beat, or more than the heartbeat timeout has passed.
pub open spec fn stale_at_reading(last: u64, t: u64) -> bool {
    t < last || t - last > HEARTBEAT_TIMEOUT_MS
}

/// The current time in milliseconds; a clock before 1970 reads as 0.  Whatever the
/// clock reads, the result is that reading (or 0), so it fits in an `i64`.
fn now_ms() -> (r: u64)
    ensures
        r <= i64::MAX,
{
    let ms: i64 = crate::clock::utc_now_millis();
    if ms < 0 { 0 } else { ms as u64 }
}

/// The bookkeeping of one supervised trader: its last heartbeat and restarts.
pub struct TraderHandle {
    pub symbol: String,
    pub last_heartbeat_ms: u64,
    pub restart_count: u32,
}

impl TraderHandle {
    /// A trader that beat at `now_ms` and has not been restarted.
    pub fn new_at(symbol: String, now_ms: u64) -> (r: TraderHandle)
        ensures
            r.symbol == symbol,
            r.last_heartbeat_ms == now_ms,
            r.restart_count == 0,
    {
        TraderHandle { symbol, last_heartbeat_ms: now_ms, restart_count: 0 }
    }

    /// Records a heartbeat at `now_ms`.
    pub fn heartbeat_at(&mut self, now_ms: u64)
        ensures
            final(self).last_heartbeat_ms == now_ms,
            final(self).restart_count == old(self).restart_count,
            final(self).symbol == old(self).symbol,
    {
        self.last_heartbeat_ms = now_ms;
    }

    /// Stale when more than the heartbeat timeout has passed since the last beat.
    /// A clock that went back before the last beat is left out.
    pub fn is_stale_at(&self, now_ms: u64) -> (r: bool)
        requires
            self.last_heartbeat_ms <= now_ms,
        ensures
            r == (now_ms - self.last_heartbeat_ms > HEARTBEAT_TIMEOUT_MS),
    {
        now_ms - self.last_heartbeat_ms > HEARTBEAT_TIMEOUT_MS
    }

    /// A trader that beats now.
    pub fn new(symbol: String) -> (r: TraderHandle)
        ensures
            r.symbol == symbol,
            r.restart_count == 0,
    {
        TraderHandle::new_at(symbol, now_ms())
    }

    /// Records a heartbeat now.
    pub fn heartbeat(&mut self)
        ensures
            final(self).restart_count == old(self).restart_count,
            final(self).symbol == old(self).symbol,
    {
        self.heartbeat_at(now_ms());
    }

    /// Whether the heartbeat is overdue now (see `is_stale_at`); a clock that went back
    /// before the last beat counts as overdue.  The answer is `stale_at_reading` at the
    /// clock's reading in milliseconds.
    pub fn is_stale(&self) -> (r: bool)
        ensures
            exists|t: u64| t <= i64::MAX && #[trigger] stale_at_reading(self.last_heartbeat_ms, t) == r,
    {
        let now = now_ms();
        if now < self.last_heartbeat_ms {
            assert(stale_at_reading(self.last_heartbeat_ms, now));
            return true;
        }
        let r = self.is_stale_at(now);
        assert(stale_at_reading(self.last_heartbeat_ms, now) == r);
        r
    }

    pub fn reset_restart_count(&mut self)
        ensures
            final(self).restart_count == 0,
            final(self).last_heartbeat_ms == old(self).last_heartbeat_ms,
            final(self).symbol == old(self).symbol,
    {
        self.restart_count = 0;
    }

    pub fn load_restart_count(&self) -> (r: u32)
        ensures
            r == self.restart_count,
    {
        self.restart_count
    }
}

/// `2^e`.
pub open spec fn pow2(e: nat) -> nat
    decreases e,
{
    if e == 0 { 1 } else { 2 * pow2((e - 1) as nat) }
}

/// What the supervisor does with a trader that finished or went stale.
#[derive(Debug, Clone, Copy, PartialEq, Eq, Structural)]
pub enum RestartDecision {
    /// The restart limit is reached: leave it stopped.
    GiveUp,
    /// Stop it, wait `delay_secs`, and start it again with `restart_count`.
    Restart { delay_secs: u64, restart_count: u32 },
}

/// Exponential backoff: after `old_count` restarts, give up at the limit, else wait
/// `2^min(old_count, 5)` seconds and restart with the count one higher.
pub fn restart_decision(old_count: u32) -> (r: RestartDecision)
    ensures
        old_count >= MAX_RESTART_COUNT ==> r == RestartDecision::GiveUp,
        old_count < MAX_RESTART_COUNT ==> r == (RestartDecision::Restart {
            delay_secs: pow2(if old_count < 5 { old_count as nat } else { 5 }) as u64,
            restart_count: (old_count + 1) as u32,
        }),
{
    if old_count >= MAX_RESTART_COUNT {
        return RestartDecision::GiveUp;
    }
    let e: u32 = if old_count < 5 { old_count } else { 5 };
    let mut delay: u64 = 1;
    let mut k: u32 = 0;
    while k < e
        invariant
            k <= e <= 5,
            delay == pow2(k as nat),
        decreases e - k,
    {
        proof {
            reveal_with_fuel(pow2, 6);
        }
        delay = delay * 2;
        k = k + 1;
    }
    RestartDecision::Restart { delay_secs: delay, restart_count: old_count + 1 }
}

/// Backoff waits never shrink as restarts add up, and never exceed 32 seconds.
pub proof fn lemma_backoff_bounded(a: u32, b: u32)
    requires
        a <= b < MAX_RESTART_COUNT,
    ensures
        ({
            let da = pow2(if a < 5 { a as nat } else { 5 });
            let db = pow2(if b < 5 { b as nat } else { 5 });
            da <= db && db <= 32
        }),
{
    reveal_with_fuel(pow2, 6);
}

} // verus!
