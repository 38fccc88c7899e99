//! The watchdog: faults that stay too long are brought to an end.

use vstd::prelude::*;

use crate::gcs::state::{GcsState, GcsView, MetricsView};
use crate::time::{millis, millis_between, Instant};

verus! {

/// After how many milliseconds an unresolved fault raises an alert.
pub const FAULT_RESPONSE_DEADLINE_MS: u64 = 100;

/// How often the watchdog looks, in milliseconds.
pub const WATCHDOG_POLL_MS: u64 = 20;

/// After how many milliseconds an unresolved fault is cleared from the ground.
pub const AUTO_RECOVERY_MS: u64 = 180;

/// How many milliseconds a fault may last before the mission counts as aborted.
pub const MISSION_ABORT_THRESHOLD_MS: u64 = 200;

/// What the watchdog remembers from one look to the next.
#[derive(Clone, Copy, Debug, PartialEq, Eq, Structural)]
pub struct Watchdog {
    /// An alert was raised for the fault.
    pub alerted: bool,
    /// The mission was counted as aborted because of the fault.
    pub abort_logged: bool,
}

/// What came of clearing a fault.
#[derive(Clone, Copy, Debug, PartialEq, Eq, Structural)]
pub enum Recovery {
    /// It was not yet due.
    NotDue,
    /// The fault was cleared in time.
    Succeeded,
    /// The fault was cleared too late.
    Failed,
}

/// What the watchdog found about a fault.
#[derive(Clone, Copy, Debug, PartialEq, Eq, Structural)]
pub struct WatchdogReport {
    /// How long the fault has been known, in milliseconds.
    pub elapsed_ms: u64,
    /// An alert is to be raised.
    pub alert: bool,
    /// What came of clearing the fault. If it was cleared, the satellite is to be told.
    pub recovery: Recovery,
    /// The mission is to count as aborted.
    pub abort: bool,
}

/// The state after a fault was cleared that had been known for `elapsed_ms`.
pub open spec fn after_recovery(v: GcsView, elapsed_ms: u64) -> GcsView {
    GcsView {
        safe_mode: false,
        metrics: MetricsView {
            active_fault: None,
            fault_detected_at: None,
            fault_recovery_ms: v.metrics.fault_recovery_ms.push(elapsed_ms as u128),
            ..v.metrics
        },
        ..v
    }
}

/// Whether a fault that has been known for `elapsed_ms` is cleared in time.
pub open spec fn recovers_in_time(elapsed_ms: u64) -> bool {
    elapsed_ms <= MISSION_ABORT_THRESHOLD_MS
}

/// Clears the fault, which has been known for `elapsed_ms`, and says whether that was in time.
/// The interlock is lifted either way.
pub fn perform_auto_recovery(elapsed_ms: u64, state: &mut GcsState) -> (success: bool)
    ensures
        success == (elapsed_ms <= MISSION_ABORT_THRESHOLD_MS),
        success == recovers_in_time(elapsed_ms),
        final(state)@ == after_recovery(old(state)@, elapsed_ms),
        old(state)@.wf() ==> final(state)@.wf(),
{
    state.safe_mode = false;
    state.metrics.active_fault = None;
    state.metrics.fault_detected_at = None;
    state.metrics.fault_recovery_ms.push(elapsed_ms as u128);
    elapsed_ms <= MISSION_ABORT_THRESHOLD_MS
}

/// How long the active fault has been known at `now`, in milliseconds. Without a fault, or
/// without the time at which it was noticed, there is no answer.
pub open spec fn pending_ms(m: MetricsView, now: Instant) -> Option<int> {
    match (m.active_fault, m.fault_detected_at) {
        (Some(_), Some(at)) => Some(millis_between(now, at)),
        _ => None,
    }
}

/// What a look at `now` finds, where the fault has been known for `elapsed_ms`.
pub open spec fn finding(w: Watchdog, elapsed_ms: int) -> WatchdogReport {
    let recovery = if elapsed_ms <= AUTO_RECOVERY_MS {
        Recovery::NotDue
    } else if elapsed_ms <= MISSION_ABORT_THRESHOLD_MS {
        Recovery::Succeeded
    } else {
        Recovery::Failed
    };
    WatchdogReport {
        elapsed_ms: elapsed_ms as u64,
        alert: !w.alerted && elapsed_ms > FAULT_RESPONSE_DEADLINE_MS,
        recovery,
        abort: recovery is Failed && !w.abort_logged,
    }
}

/// What a look at `now` finds; nothing if no fault has been noticed.
pub open spec fn watchdog_report(m: MetricsView, w: Watchdog, now: Instant) -> Option<
    WatchdogReport,
> {
    match pending_ms(m, now) {
        Some(elapsed_ms) => Some(finding(w, elapsed_ms)),
        None => None,
    }
}

/// What the watchdog remembers after a look at `now`. Once there is no fault, it remembers
/// nothing; once it has cleared one, it may raise an alert again.
pub open spec fn watchdog_after(m: MetricsView, w: Watchdog, now: Instant) -> Watchdog {
    if m.active_fault is None {
        Watchdog { alerted: false, abort_logged: false }
    } else {
        match watchdog_report(m, w, now) {
            None => w,
            Some(r) => Watchdog {
                alerted: r.recovery is NotDue && (w.alerted || r.alert),
                abort_logged: w.abort_logged || r.abort,
            },
        }
    }
}

/// The state after the watchdog looked at `now`.
pub open spec fn after_watchdog(v: GcsView, w: Watchdog, now: Instant) -> GcsView {
    match watchdog_report(v.metrics, w, now) {
        Some(r) => if r.recovery is NotDue {
            v
        } else {
            let cleared = after_recovery(v, r.elapsed_ms);
            GcsView {
                metrics: MetricsView {
                    mission_abort_count: if r.abort {
                        v.metrics.mission_abort_count + 1
                    } else {
                        v.metrics.mission_abort_count
                    },
                    ..cleared.metrics
                },
                ..cleared
            }
        },
        None => v,
    }
}

impl Watchdog {
    /// A watchdog that remembers nothing.
    pub fn new() -> (w: Watchdog)
        ensures
            w == (Watchdog { alerted: false, abort_logged: false }),
    {
        Watchdog { alerted: false, abort_logged: false }
    }

    /// Looks at `now`: raises an alert about a fault that lasts, and clears it once it has
    /// lasted too long.
    pub fn poll(&mut self, state: &mut GcsState, now: Instant) -> (report: Option<WatchdogReport>)
        requires
            after_watchdog(old(state)@, *old(self), now).metrics.mission_abort_count <= u32::MAX,
        ensures
            report == watchdog_report(old(state)@.metrics, *old(self), now),
            *final(self) == watchdog_after(old(state)@.metrics, *old(self), now),
            final(state)@ == after_watchdog(old(state)@, *old(self), now),
            old(state)@.wf() ==> final(state)@.wf(),
    {
        if state.metrics.active_fault.is_none() {
            self.alerted = false;
            self.abort_logged = false;
            return None;
        }
        let at = match state.metrics.fault_detected_at {
            Some(at) => at,
            None => {
                return None;
            },
        };
        let elapsed_ms: u64 = now.saturating_duration_since(at).as_millis();
        let alert = !self.alerted && elapsed_ms > FAULT_RESPONSE_DEADLINE_MS;
        if alert {
            self.alerted = true;
        }
        let mut recovery = Recovery::NotDue;
        let mut abort = false;
        if elapsed_ms > AUTO_RECOVERY_MS {
            if perform_auto_recovery(elapsed_ms, state) {
                recovery = Recovery::Succeeded;
            } else {
                recovery = Recovery::Failed;
                if !self.abort_logged {
                    state.metrics.mission_abort_count = state.metrics.mission_abort_count + 1;
                    self.abort_logged = true;
                    abort = true;
                }
            }
            self.alerted = false;
        }
        Some(WatchdogReport { elapsed_ms, alert, recovery, abort })
    }
}

/// Law: a fault that has been known for more than the time allowed is gone after a look, the
/// interlock is lifted, and the time that it took is noted.
pub proof fn law_watchdog_clears(v: GcsView, w: Watchdog, now: Instant)
    requires
        v.metrics.active_fault is Some,
        v.metrics.fault_detected_at is Some,
        millis_between(now, v.metrics.fault_detected_at->0) > AUTO_RECOVERY_MS,
    ensures
        ({
            let after = after_watchdog(v, w, now);
            &&& !after.safe_mode
            &&& after.metrics.active_fault is None
            &&& after.metrics.fault_detected_at is None
            &&& after.metrics.fault_recovery_ms.len() == v.metrics.fault_recovery_ms.len() + 1
            &&& after.metrics.fault_recovery_ms.last() > AUTO_RECOVERY_MS
        }),
{
}

/// Law: a fault that has not been known for that long stays, and the interlock with it.
pub proof fn law_watchdog_waits(v: GcsView, w: Watchdog, now: Instant)
    requires
        v.metrics.fault_detected_at is Some,
        millis_between(now, v.metrics.fault_detected_at->0) <= AUTO_RECOVERY_MS,
    ensures
        after_watchdog(v, w, now) == v,
{
}

/// Law: a fault raises one alert. After an alert the next look raises none, unless the fault
/// was cleared at the first one.
pub proof fn law_one_alert(v: GcsView, w: Watchdog, first: Instant, next: Instant)
    requires
        watchdog_report(v.metrics, w, first) is Some,
        (watchdog_report(v.metrics, w, first)->0).alert,
        (watchdog_report(v.metrics, w, first)->0).recovery is NotDue,
    ensures
        ({
            let v2 = after_watchdog(v, w, first);
            let w2 = watchdog_after(v.metrics, w, first);
            watchdog_report(v2.metrics, w2, next) matches Some(r) ==> !r.alert
        }),
{
}

/// Law: looks that are not further apart than they are meant to be clear a fault in time. If
/// one look left the fault alone, the next one does not abort the mission.
pub proof fn law_timely_looks_never_abort(v: GcsView, w: Watchdog, first: Instant, next: Instant)
    requires
        v.metrics.fault_detected_at is Some,
        (v.metrics.fault_detected_at->0).nanos <= first.nanos <= next.nanos,
        next.nanos - first.nanos <= millis(WATCHDOG_POLL_MS as int),
        watchdog_report(v.metrics, w, first) matches Some(r) ==> r.recovery is NotDue,
    ensures
        ({
            let v2 = after_watchdog(v, w, first);
            let w2 = watchdog_after(v.metrics, w, first);
            &&& watchdog_report(v2.metrics, w2, next) matches Some(r) ==> !r.abort
            &&& after_watchdog(v2, w2, next).metrics.mission_abort_count
                == v.metrics.mission_abort_count
        }),
{
}

} // verus!
