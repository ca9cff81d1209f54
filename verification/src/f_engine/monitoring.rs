//! Timeout monitoring and health checks.
use vstd::prelude::*;
use crate::text::str_eq;

verus! {

/// When a service was last seen, or that it stopped.
#[derive(Debug, Clone, Copy, PartialEq, Eq, Structural)]
pub enum ServiceStatus {
    /// Active; last seen at this time (seconds).
    Active(i64),
    Stopped,
}

/// Tracks when each service was last active.
#[derive(Debug, Clone)]
pub struct TimeoutMonitor {
    pub services: Vec<(String, ServiceStatus)>,
    pub timeout_threshold_secs: u64,
}

/// The names of the services, in order.
pub open spec fn service_names(s: Seq<(String, ServiceStatus)>) -> Seq<Seq<char>> {
    s.map_values(|e: (String, ServiceStatus)| e.0@)
}

/// Seconds from `since` to `now`, zero when `now` is earlier.
pub open spec fn elapsed_secs(since: i64, now: i64) -> int {
    if now > since { now - since } else { 0 }
}

/// Whether a status has timed out at `now`: stopped services have; active ones when
/// more than the threshold has elapsed.
pub open spec fn status_timed_out(st: ServiceStatus, now: i64, threshold: u64) -> bool {
    match st {
        ServiceStatus::Active(t) => elapsed_secs(t, now) > threshold,
        ServiceStatus::Stopped => true,
    }
}

/// Whether a service with status `st` (none for an unknown one) counts as timed out at
/// `now`.
pub open spec fn timeout_answer(st: Option<ServiceStatus>, now: i64, threshold: u64) -> bool {
    match st {
        Some(s) => status_timed_out(s, now, threshold),
        None => true,
    }
}

/// The texts of a list of strings.
pub open spec fn names_of(v: Seq<String>) -> Seq<Seq<char>> {
    v.map_values(|x: String| x@)
}

/// The names of the active services that timed out at `now`, in order.
pub open spec fn timed_out_names(s: Seq<(String, ServiceStatus)>, now: i64, threshold: u64) -> Seq<Seq<char>>
    decreases s.len(),
{
    if s.len() == 0 {
        Seq::empty()
    } else {
        let rest = timed_out_names(s.drop_last(), now, threshold);
        match s.last().1 {
            ServiceStatus::Active(t) => if elapsed_secs(t, now) > threshold {
                rest.push(s.last().0@)
            } else {
                rest
            },
            ServiceStatus::Stopped => rest,
        }
    }
}

impl TimeoutMonitor {
    /// No two entries have the same name.
    pub open spec fn wf(self) -> bool {
        forall|i: int, j: int|
            0 <= i < j < self.services@.len() ==> #[trigger] self.services@[i].0@ != #[trigger] self.services@[j].0@
    }

    /// The status of a service, if it is known.
    pub open spec fn status_of(self, name: Seq<char>) -> Option<ServiceStatus> {
        if exists|i: int| 0 <= i < self.services@.len() && #[trigger] self.services@[i].0@ == name {
            let i = choose|i: int| 0 <= i < self.services@.len() && #[trigger] self.services@[i].0@ == name;
            Some(self.services@[i].1)
        } else {
            None
        }
    }

    pub fn new(timeout_threshold_secs: u64) -> (r: TimeoutMonitor)
        ensures
            r.wf(),
            r.services@.len() == 0,
            r.timeout_threshold_secs == timeout_threshold_secs,
    {
        TimeoutMonitor { services: Vec::new(), timeout_threshold_secs }
    }

    fn find(&self, name: &str) -> (r: Option<usize>)
        ensures
            r is Some ==> r.unwrap() < self.services@.len() && self.services@[r.unwrap() as int].0@ == name@,
            r is None ==> forall|i: int| 0 <= i < self.services@.len() ==> self.services@[i].0@ != name@,
    {
        let mut i: usize = 0;
        while i < self.services.len()
            invariant
                i <= self.services@.len(),
                forall|j: int| 0 <= j < i ==> self.services@[j].0@ != name@,
            decreases self.services@.len() - i,
        {
            if str_eq(self.services[i].0.as_str(), name) {
                return Some(i);
            }
            i = i + 1;
        }
        None
    }

    /// Records that the service was active at `now`.
    pub fn record_activity_at(&mut self, service_name: &str, now: i64)
        requires
            old(self).wf(),
        ensures
            final(self).wf(),
            final(self).status_of(service_name@) == Some(ServiceStatus::Active(now)),
            forall|n: Seq<char>| n != service_name@ ==> final(self).status_of(n) == old(self).status_of(n),
            final(self).timeout_threshold_secs == old(self).timeout_threshold_secs,
    {
        match self.find(service_name) {
            Some(i) => {
                self.services.set(i, (service_name.to_string(), ServiceStatus::Active(now)));
                assert forall|n: Seq<char>| n != service_name@ implies self.status_of(n) == old(self).status_of(n) by {
                    if exists|k: int| 0 <= k < self.services@.len() && #[trigger] self.services@[k].0@ == n {
                        let k = choose|k: int| 0 <= k < self.services@.len() && #[trigger] self.services@[k].0@ == n;
                        assert(old(self).services@[k].0@ == n);
                    }
                    if exists|k: int| 0 <= k < old(self).services@.len() && #[trigger] old(self).services@[k].0@ == n {
                        let k = choose|k: int| 0 <= k < old(self).services@.len() && #[trigger] old(self).services@[k].0@ == n;
                        assert(self.services@[k].0@ == n);
                    }
                }
                assert(self.services@[i as int].0@ == service_name@);
            },
            None => {
                self.services.push((service_name.to_string(), ServiceStatus::Active(now)));
                let ghost last = (self.services@.len() - 1) as int;
                assert(self.services@[last].0@ == service_name@);
                assert forall|n: Seq<char>| n != service_name@ implies self.status_of(n) == old(self).status_of(n) by {
                    if exists|k: int| 0 <= k < self.services@.len() && #[trigger] self.services@[k].0@ == n {
                        let k = choose|k: int| 0 <= k < self.services@.len() && #[trigger] self.services@[k].0@ == n;
                        assert(old(self).services@[k].0@ == n);
                    }
                    if exists|k: int| 0 <= k < old(self).services@.len() && #[trigger] old(self).services@[k].0@ == n {
                        let k = choose|k: int| 0 <= k < old(self).services@.len() && #[trigger] old(self).services@[k].0@ == n;
                        assert(self.services@[k].0@ == n);
                    }
                }
            },
        }
    }

    /// Records that the service is active now.
    pub fn record_activity(&mut self, service_name: &str)
        requires
            old(self).wf(),
        ensures
            final(self).wf(),
            exists|now: i64| final(self).status_of(service_name@) == Some(ServiceStatus::Active(now)),
            forall|n: Seq<char>| n != service_name@ ==> final(self).status_of(n) == old(self).status_of(n),
    {
        let now = crate::clock::utc_now_secs();
        self.record_activity_at(service_name, now);
    }

    /// Whether the service has timed out at `now`; an unknown service has.
    pub fn is_timeout_at(&self, service_name: &str, now: i64) -> (r: bool)
        requires
            self.wf(),
        ensures
            r == match self.status_of(service_name@) {
                Some(st) => status_timed_out(st, now, self.timeout_threshold_secs),
                None => true,
            },
    {
        match self.find(service_name) {
            Some(i) => {
                assert(self.services@[i as int].0@ == service_name@);
                match self.services[i].1 {
                    ServiceStatus::Active(t) => {
                        let elapsed: i128 = if now > t { now as i128 - t as i128 } else { 0 };
                        elapsed > self.timeout_threshold_secs as i128
                    },
                    ServiceStatus::Stopped => true,
                }
            },
            None => true,
        }
    }

    /// Whether the service has timed out now: the answer of `is_timeout_at` at the
    /// clock's reading.
    pub fn is_timeout(&self, service_name: &str) -> (r: bool)
        requires
            self.wf(),
        ensures
            self.status_of(service_name@) is None ==> r,
            self.status_of(service_name@) == Some(ServiceStatus::Stopped) ==> r,
            exists|now: i64| #[trigger] timeout_answer(self.status_of(service_name@), now, self.timeout_threshold_secs) == r,
    {
        let now = crate::clock::utc_now_secs();
        let r = self.is_timeout_at(service_name, now);
        assert(timeout_answer(self.status_of(service_name@), now, self.timeout_threshold_secs) == r);
        r
    }

    /// The active services that have timed out at `now`, in order of registration.
    pub fn get_timeout_services_at(&self, now: i64) -> (r: Vec<String>)
        ensures
            names_of(r@) == timed_out_names(self.services@, now, self.timeout_threshold_secs),
    {
        let mut out: Vec<String> = Vec::new();
        let mut i: usize = 0;
        while i < self.services.len()
            invariant
                i <= self.services@.len(),
                names_of(out@) == timed_out_names(self.services@.take(i as int), now, self.timeout_threshold_secs),
            decreases self.services@.len() - i,
        {
            assert(self.services@.take(i as int + 1).drop_last() == self.services@.take(i as int));
            match self.services[i].1 {
                ServiceStatus::Active(t) => {
                    let elapsed: i128 = if now > t { now as i128 - t as i128 } else { 0 };
                    if elapsed > self.timeout_threshold_secs as i128 {
                        out.push(self.services[i].0.clone());
                    }
                },
                ServiceStatus::Stopped => {},
            }
            i = i + 1;
        }
        assert(self.services@.take(i as int) == self.services@);
        out
    }

    /// The active services that have timed out now.
    pub fn get_timeout_services(&self) -> (r: Vec<String>)
        ensures
            exists|now: i64| names_of(r@) == timed_out_names(self.services@, now, self.timeout_threshold_secs),
    {
        let now = crate::clock::utc_now_secs();
        self.get_timeout_services_at(now)
    }

    /// Forgets a service.
    pub fn remove_service(&mut self, service_name: &str)
        requires
            old(self).wf(),
        ensures
            final(self).wf(),
            final(self).status_of(service_name@) is None,
            forall|n: Seq<char>| n != service_name@ ==> final(self).status_of(n) == old(self).status_of(n),
            final(self).timeout_threshold_secs == old(self).timeout_threshold_secs,
    {
        match self.find(service_name) {
            Some(i) => {
                let ghost old_s = self.services@;
                self.services.remove(i);
                assert(self.services@ == old_s.remove(i as int));
                assert forall|n: Seq<char>| n != service_name@ implies self.status_of(n) == old(self).status_of(n) by {
                    if exists|k: int| 0 <= k < self.services@.len() && #[trigger] self.services@[k].0@ == n {
                        let k = choose|k: int| 0 <= k < self.services@.len() && #[trigger] self.services@[k].0@ == n;
                        if k < i {
                            assert(old_s[k].0@ == n);
                        } else {
                            assert(old_s[k + 1].0@ == n);
                        }
                    }
                    if exists|k: int| 0 <= k < old_s.len() && #[trigger] old_s[k].0@ == n {
                        let k = choose|k: int| 0 <= k < old_s.len() && #[trigger] old_s[k].0@ == n;
                        assert(k != i);
                        if k < i {
                            assert(self.services@[k].0@ == n);
                        } else {
                            assert(self.services@[k - 1].0@ == n);
                        }
                    }
                }
                assert forall|k: int| 0 <= k < self.services@.len() implies self.services@[k].0@ != service_name@ by {
                    if k < i {
                        assert(old_s[k].0@ != old_s[i as int].0@);
                    } else {
                        assert(old_s[k + 1].0@ != old_s[i as int].0@);
                    }
                }
            },
            None => {},
        }
    }
}

/// The result of one health check.
#[derive(Debug, Clone)]
pub struct HealthCheckResult {
    pub service_name: String,
    pub is_healthy: bool,
    pub latency_ms: u64,
    pub error: Option<String>,
}

impl HealthCheckResult {
    pub fn healthy(service_name: String, latency_ms: u64) -> (r: HealthCheckResult)
        ensures
            r.service_name == service_name,
            r.is_healthy,
            r.latency_ms == latency_ms,
            r.error.is_none(),
    {
        HealthCheckResult { service_name, is_healthy: true, latency_ms, error: None }
    }

    pub fn unhealthy(service_name: String, error: String) -> (r: HealthCheckResult)
        ensures
            r.service_name == service_name,
            !r.is_healthy,
            r.latency_ms == 0,
            r.error == Some(error),
    {
        HealthCheckResult { service_name, is_healthy: false, latency_ms: 0, error: Some(error) }
    }
}

/// How serious a timeout is.
#[derive(Debug, Clone, Copy, PartialEq, Eq, Structural)]
pub enum TimeoutSeverity {
    Normal,
    /// Warn.
    Mild,
    /// Restart.
    Severe,
}

/// Health-check settings.
pub struct HealthChecker {
    pub check_interval_secs: u64,
    pub service_timeout_secs: u64,
}

/// Severe from five times the timeout, mild from the timeout, else normal.
pub open spec fn severity_of(elapsed: u64, timeout: u64) -> TimeoutSeverity {
    if elapsed >= 5 * timeout {
        TimeoutSeverity::Severe
    } else if elapsed >= timeout {
        TimeoutSeverity::Mild
    } else {
        TimeoutSeverity::Normal
    }
}

impl HealthChecker {
    pub fn new(check_interval_secs: u64, service_timeout_secs: u64) -> (r: HealthChecker)
        ensures
            r.check_interval_secs == check_interval_secs,
            r.service_timeout_secs == service_timeout_secs,
    {
        HealthChecker { check_interval_secs, service_timeout_secs }
    }

    pub fn service_timeout_secs(&self) -> (r: u64)
        ensures
            r == self.service_timeout_secs,
    {
        self.service_timeout_secs
    }

    pub fn check_interval_secs(&self) -> (r: u64)
        ensures
            r == self.check_interval_secs,
    {
        self.check_interval_secs
    }

    /// Classifies an elapsed time.  Five times the timeout must fit in a `u64`.
    pub fn classify_timeout(&self, elapsed_secs: u64) -> (r: TimeoutSeverity)
        requires
            5 * self.service_timeout_secs <= u64::MAX,
        ensures
            r == severity_of(elapsed_secs, self.service_timeout_secs),
    {
        let normal = self.service_timeout_secs;
        let severe = normal * 5;
        if elapsed_secs >= severe {
            TimeoutSeverity::Severe
        } else if elapsed_secs >= normal {
            TimeoutSeverity::Mild
        } else {
            TimeoutSeverity::Normal
        }
    }
}

impl Default for HealthChecker {
    /// Checks every 30 s; 180 s is a timeout.
    fn default() -> (r: HealthChecker)
        ensures
            r.check_interval_secs == 30,
            r.service_timeout_secs == 180,
    {
        HealthChecker::new(30, 180)
    }
}

/// A severe timeout is never shorter than a mild one: severity grows with the
/// elapsed time.
pub proof fn lemma_severity_monotone(a: u64, b: u64, timeout: u64)
    requires
        a <= b,
    ensures
        severity_of(a, timeout) == TimeoutSeverity::Severe ==> severity_of(b, timeout) == TimeoutSeverity::Severe,
        severity_of(a, timeout) == TimeoutSeverity::Mild ==> severity_of(b, timeout) != TimeoutSeverity::Normal,
{
}

} // verus!
