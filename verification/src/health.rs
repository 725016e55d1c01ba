//! Health snapshots and the worst-of aggregator.
//!
//! A probe yields a [`ComponentHealth`]; the aggregator combines any set of
//! named probe results into a [`SystemHealth`] whose overall status is the
//! least healthy component status: any Unhealthy component makes the system
//! Unhealthy, otherwise any Degraded component makes it Degraded, otherwise
//! it is Healthy.  Timestamps are Unix milliseconds; running the probes,
//! with their timeouts, is the caller's affair — a probe that timed out or
//! failed is reported here as an Unhealthy component.

use vstd::prelude::*;

verus! {

/// The status of one component or of the whole system.
#[derive(Clone, Copy, Debug, PartialEq, Eq, Structural)]
pub enum HealthStatus {
    Healthy,
    Degraded,
    Unhealthy,
}

/// One auxiliary detail on a health snapshot: a closed union of the
/// permitted value kinds.
#[derive(Clone, Debug)]
pub enum DetailValue {
    Text(String),
    Integer(i64),
    Flag(bool),
}

/// The result of one probe run; created fresh on every invocation.
pub struct ComponentHealth {
    pub status: HealthStatus,
    pub message: String,
    /// When the probe ran, in Unix milliseconds.
    pub last_checked: i64,
    pub response_time_ms: Option<u64>,
    pub details: Vec<(String, DetailValue)>,
}

/// One snapshot of the whole system.
pub struct SystemHealth {
    pub overall_status: HealthStatus,
    pub components: Vec<(String, ComponentHealth)>,
    /// When the snapshot was taken, in Unix milliseconds.
    pub timestamp: i64,
    pub uptime_seconds: u64,
}

/// Runs the registered probes and aggregates their results.
pub struct HealthChecker;

/// Every key occurs at most once.
pub open spec fn keys_unique<T>(s: Seq<(String, T)>) -> bool {
    forall|i: int, j: int| 0 <= i < j < s.len() ==> s[i].0@ != s[j].0@
}

/// Some listed component has the given status.
pub open spec fn has_status(s: Seq<(String, ComponentHealth)>, st: HealthStatus) -> bool {
    exists|i: int| 0 <= i < s.len() && s[i].1.status == st
}

/// The worst-of rule: Unhealthy beats Degraded beats Healthy.
pub open spec fn worst_of(s: Seq<(String, ComponentHealth)>) -> HealthStatus {
    if has_status(s, HealthStatus::Unhealthy) {
        HealthStatus::Unhealthy
    } else if has_status(s, HealthStatus::Degraded) {
        HealthStatus::Degraded
    } else {
        HealthStatus::Healthy
    }
}

/// Relies on `chrono::Utc::now` and `DateTime::timestamp_millis` for the
/// current wall-clock time as Unix milliseconds.  Nothing can be promised of
/// the clock's reading; `chrono` requires a system clock at or after the
/// Unix epoch.
#[verifier::external_body]
pub(crate) fn now_unix_millis() -> i64 {
    chrono::Utc::now().timestamp_millis()
}

/// Insert or replace the entry under `key`, preserving key uniqueness and
/// the order of the other entries.
#[verifier::loop_isolation(false)]
fn upsert<T>(list: &mut Vec<(String, T)>, key: &str, value: T)
    ensures
        ({
            let pre = old(list)@;
            if exists|j: int| 0 <= j < pre.len() && pre[j].0@ == key@ {
                exists|j: int|
                    {
                        &&& 0 <= j < pre.len()
                        &&& pre[j].0@ == key@
                        &&& final(list)@.len() == pre.len()
                        &&& final(list)@[j].0@ == key@
                        &&& final(list)@[j].1 == value
                        &&& forall|k: int| 0 <= k < pre.len() && k != j ==> final(list)@[k] == pre[k]
                    }
            } else {
                &&& final(list)@.len() == pre.len() + 1
                &&& final(list)@[pre.len() as int].0@ == key@
                &&& final(list)@[pre.len() as int].1 == value
                &&& forall|k: int| 0 <= k < pre.len() ==> final(list)@[k] == pre[k]
            }
        }),
        keys_unique(old(list)@) ==> keys_unique(final(list)@),
{
    let n: usize = list.len();
    let mut i: usize = 0;
    while i < n
        invariant
            i <= n,
            n == list@.len(),
            list@ == old(list)@,
            forall|k: int| 0 <= k < i ==> list@[k].0@ != key@,
        decreases n - i,
    {
        if crate::text::str_eq(list[i].0.as_str(), key) {
            list[i] = (String::from_str(key), value);
            proof {
                if keys_unique(old(list)@) {
                    assert forall|a: int, b: int| 0 <= a < b < list@.len() implies list@[a].0@
                        != list@[b].0@ by {
                        if a != i as int {
                            assert(list@[a] == old(list)@[a]);
                        }
                        if b != i as int {
                            assert(list@[b] == old(list)@[b]);
                        }
                    }
                }
            }
            return ;
        }
        i = i + 1;
    }
    list.push((String::from_str(key), value));
    proof {
        if keys_unique(old(list)@) {
            assert forall|a: int, b: int| 0 <= a < b < list@.len() implies list@[a].0@
                != list@[b].0@ by {
                if b != n as int {
                    assert(list@[a] == old(list)@[a]);
                    assert(list@[b] == old(list)@[b]);
                } else {
                    assert(list@[a] == old(list)@[a]);
                }
            }
        }
    }
}

impl ComponentHealth {
    /// The detail keys are unique.
    pub open spec fn wf(self) -> bool {
        keys_unique(self.details@)
    }

    /// A healthy probe result, stamped with the current time.
    pub fn healthy(message: &str) -> (r: ComponentHealth)
        ensures
            r.status == HealthStatus::Healthy,
            r.message@ == message@,
            r.response_time_ms is None,
            r.details@.len() == 0,
            r.wf(),
    {
        ComponentHealth {
            status: HealthStatus::Healthy,
            message: String::from_str(message),
            last_checked: now_unix_millis(),
            response_time_ms: None,
            details: Vec::new(),
        }
    }

    /// A degraded probe result, stamped with the current time.
    pub fn degraded(message: &str) -> (r: ComponentHealth)
        ensures
            r.status == HealthStatus::Degraded,
            r.message@ == message@,
            r.response_time_ms is None,
            r.details@.len() == 0,
            r.wf(),
    {
        ComponentHealth {
            status: HealthStatus::Degraded,
            message: String::from_str(message),
            last_checked: now_unix_millis(),
            response_time_ms: None,
            details: Vec::new(),
        }
    }

    /// An unhealthy probe result — a failed or timed-out probe — stamped
    /// with the current time.
    pub fn unhealthy(message: &str) -> (r: ComponentHealth)
        ensures
            r.status == HealthStatus::Unhealthy,
            r.message@ == message@,
            r.response_time_ms is None,
            r.details@.len() == 0,
            r.wf(),
    {
        ComponentHealth {
            status: HealthStatus::Unhealthy,
            message: String::from_str(message),
            last_checked: now_unix_millis(),
            response_time_ms: None,
            details: Vec::new(),
        }
    }

    /// The same snapshot with the probe's response time filled in.
    pub fn with_response_time(self, response_time_ms: u64) -> (r: ComponentHealth)
        ensures
            r.status == self.status,
            r.message == self.message,
            r.last_checked == self.last_checked,
            r.response_time_ms == Some(response_time_ms),
            r.details == self.details,
    {
        ComponentHealth { response_time_ms: Some(response_time_ms), ..self }
    }

    /// The same snapshot with one detail added (or replaced, if the key is
    /// already present).
    pub fn with_detail(self, key: &str, value: DetailValue) -> (r: ComponentHealth)
        requires
            self.wf(),
        ensures
            r.status == self.status,
            r.message == self.message,
            r.last_checked == self.last_checked,
            r.response_time_ms == self.response_time_ms,
            r.wf(),
            exists|j: int|
                0 <= j < r.details@.len() && r.details@[j].0@ == key@ && r.details@[j].1 == value,
    {
        let mut r = self;
        upsert(&mut r.details, key, value);
        proof {
            let pre = self.details@;
            if exists|j: int| 0 <= j < pre.len() && pre[j].0@ == key@ {
                let j = choose|j: int|
                    {
                        &&& 0 <= j < pre.len()
                        &&& pre[j].0@ == key@
                        &&& r.details@.len() == pre.len()
                        &&& r.details@[j].0@ == key@
                        &&& r.details@[j].1 == value
                        &&& forall|k: int| 0 <= k < pre.len() && k != j ==> r.details@[k] == pre[k]
                    };
                assert(0 <= j < r.details@.len() && r.details@[j].0@ == key@ && r.details@[j].1
                    == value);
            } else {
                assert(r.details@[pre.len() as int].0@ == key@);
            }
        }
        r
    }
}

impl SystemHealth {
    /// The component names are unique.
    pub open spec fn wf(self) -> bool {
        keys_unique(self.components@)
    }

    /// An empty snapshot, overall Healthy, stamped with the current time.
    pub fn new(uptime_seconds: u64) -> (r: SystemHealth)
        ensures
            r.overall_status == HealthStatus::Healthy,
            r.components@.len() == 0,
            r.uptime_seconds == uptime_seconds,
            r.wf(),
    {
        SystemHealth {
            overall_status: HealthStatus::Healthy,
            components: Vec::new(),
            timestamp: now_unix_millis(),
            uptime_seconds,
        }
    }

    /// Add (or replace) one component's health under its name.
    pub fn add_component(&mut self, name: &str, health: ComponentHealth)
        requires
            old(self).wf(),
        ensures
            final(self).wf(),
            final(self).overall_status == old(self).overall_status,
            final(self).timestamp == old(self).timestamp,
            final(self).uptime_seconds == old(self).uptime_seconds,
            exists|j: int|
                0 <= j < final(self).components@.len() && final(self).components@[j].0@ == name@
                    && final(self).components@[j].1 == health,
    {
        upsert(&mut self.components, name, health);
        proof {
            let pre = old(self).components@;
            if exists|j: int| 0 <= j < pre.len() && pre[j].0@ == name@ {
                let j = choose|j: int|
                    {
                        &&& 0 <= j < pre.len()
                        &&& pre[j].0@ == name@
                        &&& self.components@.len() == pre.len()
                        &&& self.components@[j].0@ == name@
                        &&& self.components@[j].1 == health
                        &&& forall|k: int|
                            0 <= k < pre.len() && k != j ==> self.components@[k] == pre[k]
                    };
                assert(0 <= j < self.components@.len() && self.components@[j].0@ == name@
                    && self.components@[j].1 == health);
            } else {
                assert(self.components@[pre.len() as int].0@ == name@);
            }
        }
    }
}

impl HealthChecker {
    /// A stateless aggregator.
    pub fn new() -> (r: HealthChecker) {
        HealthChecker
    }

    /// Aggregate the given probe results into one snapshot.  The overall
    /// status follows the worst-of rule: it is Unhealthy exactly when some
    /// probe is Unhealthy; otherwise Degraded exactly when some probe is
    /// Degraded; otherwise Healthy.
    #[verifier::loop_isolation(false)]
    pub fn check_system_health(
        &self,
        probes: Vec<(String, ComponentHealth)>,
        uptime_seconds: u64,
    ) -> (r: SystemHealth)
        ensures
            r.components@ == probes@,
            r.uptime_seconds == uptime_seconds,
            r.overall_status == worst_of(probes@),
            (r.overall_status == HealthStatus::Unhealthy) <==> has_status(
                probes@,
                HealthStatus::Unhealthy,
            ),
            (r.overall_status == HealthStatus::Degraded) <==> (!has_status(
                probes@,
                HealthStatus::Unhealthy,
            ) && has_status(probes@, HealthStatus::Degraded)),
            (r.overall_status == HealthStatus::Healthy) <==> (!has_status(
                probes@,
                HealthStatus::Unhealthy,
            ) && !has_status(probes@, HealthStatus::Degraded)),
    {
        let n: usize = probes.len();
        let mut found_unhealthy: bool = false;
        let mut found_degraded: bool = false;
        let mut i: usize = 0;
        while i < n
            invariant
                i <= n,
                n == probes@.len(),
                found_unhealthy == has_status(probes@.take(i as int), HealthStatus::Unhealthy),
                found_degraded == has_status(probes@.take(i as int), HealthStatus::Degraded),
            decreases n - i,
        {
            match probes[i].1.status {
                HealthStatus::Unhealthy => {
                    found_unhealthy = true;
                },
                HealthStatus::Degraded => {
                    found_degraded = true;
                },
                HealthStatus::Healthy => {},
            }
            i = i + 1;
            proof {
                let cur = probes@.take(i as int);
                let pre = probes@.take(i - 1);
                assert(cur.drop_last() =~= pre);
                assert(cur.last() == probes@[i - 1]);
                if has_status(cur, HealthStatus::Unhealthy) && !has_status(
                    pre,
                    HealthStatus::Unhealthy,
                ) {
                    let w = choose|k: int|
                        0 <= k < cur.len() && cur[k].1.status == HealthStatus::Unhealthy;
                    assert(w == i - 1);
                }
                if has_status(cur, HealthStatus::Degraded) && !has_status(
                    pre,
                    HealthStatus::Degraded,
                ) {
                    let w = choose|k: int|
                        0 <= k < cur.len() && cur[k].1.status == HealthStatus::Degraded;
                    assert(w == i - 1);
                }
            }
        }
        proof {
            assert(probes@.take(n as int) =~= probes@);
        }
        let overall: HealthStatus = if found_unhealthy {
            HealthStatus::Unhealthy
        } else if found_degraded {
            HealthStatus::Degraded
        } else {
            HealthStatus::Healthy
        };
        SystemHealth {
            overall_status: overall,
            components: probes,
            timestamp: now_unix_millis(),
            uptime_seconds,
        }
    }
}

/// Whole seconds of uptime between a process start and now, both in Unix
/// milliseconds; a clock that moved backwards reads as zero uptime.
pub fn uptime_seconds(start_ms: i64, now_ms: i64) -> (r: u64)
    ensures
        r == (if now_ms < start_ms {
            0
        } else {
            (now_ms - start_ms) / 1000
        }),
{
    if now_ms < start_ms {
        0
    } else {
        let diff: i128 = now_ms as i128 - start_ms as i128;
        (diff / 1000) as u64
    }
}

} // verus!
