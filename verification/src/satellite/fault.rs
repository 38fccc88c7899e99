//! The injection of faults and the recovery from them.

use vstd::prelude::*;

use crate::satellite::sensor::THERMAL_FAULT;
use crate::satellite::state::{OcsState, OcsView};
use crate::text::{is_plain, is_plain_from, lemma_plain_from};
use crate::time::{micros_between, millis, Duration, Instant};

verus! {

/// The fault of power data that comes late.
pub const DELAYED_POWER_FAULT: &'static str = "fault_injected:delayed_power_data";

/// The fault of sensor data that is corrupted.
pub const CORRUPTED_DATA_FAULT: &'static str = "fault_injected:corrupted_sensor_data";

/// How long a fault lasts before recovery begins, in milliseconds.
pub const RECOVERY_AFTER_MS: u64 = 120;

/// How long a fault may last before the mission is aborted, in milliseconds.
pub const ABORT_AFTER_MS: u64 = 200;

/// The state after a fault was injected at `now`: power data that comes late, or sensor data
/// that is corrupted.
pub open spec fn after_injection(v: OcsView, delayed_fault: bool, now: Instant) -> OcsView {
    let counted = OcsView { faults_injected: v.faults_injected + 1, ..v };
    if delayed_fault {
        OcsView { delayed_power_pending: true, ..counted }.with_fault(DELAYED_POWER_FAULT@, now)
    } else {
        OcsView { corrupt_next_sample: true, ..counted }.with_fault(CORRUPTED_DATA_FAULT@, now)
    }
}

/// Injects a fault at `now`.
pub fn inject_fault(ocs: &mut OcsState, delayed_fault: bool, now: Instant)
    requires
        old(ocs).faults_injected < u64::MAX,
    ensures
        final(ocs)@ == after_injection(old(ocs)@, delayed_fault, now),
        old(ocs)@.wf() ==> final(ocs)@.wf(),
{
    ocs.faults_injected = ocs.faults_injected + 1;
    ocs.safe_mode = true;
    ocs.active_fault_since = Some(now);
    ocs.fault_telemetry_pending = true;
    if delayed_fault {
        ocs.active_fault = Some(DELAYED_POWER_FAULT.to_string());
        ocs.delayed_power_pending = true;
    } else {
        ocs.active_fault = Some(CORRUPTED_DATA_FAULT.to_string());
        ocs.corrupt_next_sample = true;
    }
}

/// Which fault is injected next. The two faults take turns.
#[derive(Clone, Copy, Debug, PartialEq, Eq, Structural)]
pub struct FaultInjector {
    pub delayed_fault: bool,
}

/// The turn after a fault was injected.
pub open spec fn turn_after(f: FaultInjector) -> FaultInjector {
    FaultInjector { delayed_fault: !f.delayed_fault }
}

/// The state after the fault whose turn it is was injected at `now`.
pub open spec fn after_turn(f: FaultInjector, v: OcsView, now: Instant) -> OcsView {
    after_injection(v, f.delayed_fault, now)
}

impl FaultInjector {
    /// Power data that comes late is the first fault.
    pub fn new() -> (f: FaultInjector)
        ensures
            f.delayed_fault,
    {
        FaultInjector { delayed_fault: true }
    }

    /// Injects the fault whose turn it is and passes the turn. Says whether it was power data
    /// that comes late.
    pub fn inject_next(&mut self, ocs: &mut OcsState, now: Instant) -> (delayed: bool)
        requires
            old(ocs).faults_injected < u64::MAX,
        ensures
            delayed == old(self).delayed_fault,
            final(self).delayed_fault == !old(self).delayed_fault,
            *final(self) == turn_after(*old(self)),
            final(ocs)@ == after_turn(*old(self), old(ocs)@, now),
            final(ocs)@ == after_injection(old(ocs)@, old(self).delayed_fault, now),
            old(ocs)@.wf() ==> final(ocs)@.wf(),
    {
        let delayed = self.delayed_fault;
        inject_fault(ocs, delayed, now);
        self.delayed_fault = !delayed;
        delayed
    }
}

/// What was done about the active fault.
#[derive(Clone, Copy, Debug, PartialEq, Eq, Structural)]
pub enum RecoveryStep {
    /// No fault is active, or it is too early to act.
    Wait,
    /// The fault was lifted.
    Recovered,
    /// The fault lasted too long, and the mission was aborted.
    Aborted,
    /// The fault lasted too long, and the mission had been aborted before.
    AlreadyAborted,
}

/// What is to be done about the active fault at `now`.
pub open spec fn recovery_step(v: OcsView, now: Instant) -> RecoveryStep {
    match (v.active_fault, v.active_fault_since) {
        (Some(_), Some(since)) => {
            let lasted = now.since(since).nanos;
            if lasted > millis(ABORT_AFTER_MS as int) {
                if v.mission_abort {
                    RecoveryStep::AlreadyAborted
                } else {
                    RecoveryStep::Aborted
                }
            } else if lasted > millis(RECOVERY_AFTER_MS as int) {
                RecoveryStep::Recovered
            } else {
                RecoveryStep::Wait
            }
        },
        _ => RecoveryStep::Wait,
    }
}

/// The state after the active fault was looked at at `now`.
pub open spec fn after_monitoring(v: OcsView, now: Instant) -> OcsView {
    match recovery_step(v, now) {
        RecoveryStep::Aborted => OcsView { mission_abort: true, safe_mode: true, ..v },
        RecoveryStep::Recovered => v.with_response(
            micros_between(now, v.active_fault_since->0) as u128,
        ).without_fault(),
        _ => v,
    }
}

/// Looks at the active fault at `now`: a fault that lasted long enough is lifted, and one
/// that lasted too long aborts the mission.
pub fn monitor_fault_recovery(ocs: &mut OcsState, now: Instant) -> (step: RecoveryStep)
    requires
        after_monitoring(old(ocs)@, now).fault_responses <= u64::MAX,
    ensures
        step == recovery_step(old(ocs)@, now),
        final(ocs)@ == after_monitoring(old(ocs)@, now),
        old(ocs)@.wf() ==> final(ocs)@.wf(),
{
    if ocs.active_fault.is_none() {
        return RecoveryStep::Wait;
    }
    let since = match ocs.active_fault_since {
        Some(since) => since,
        None => {
            return RecoveryStep::Wait;
        },
    };
    let lasted = now.saturating_duration_since(since);
    if lasted.nanos > Duration::from_millis(ABORT_AFTER_MS).nanos {
        if ocs.mission_abort {
            return RecoveryStep::AlreadyAborted;
        }
        ocs.mission_abort = true;
        ocs.safe_mode = true;
        return RecoveryStep::Aborted;
    }
    if lasted.nanos > Duration::from_millis(RECOVERY_AFTER_MS).nanos {
        ocs.fault_responses = ocs.fault_responses + 1;
        ocs.fault_recovery_us.push(lasted.as_micros() as u128);
        ocs.active_fault = None;
        ocs.active_fault_since = None;
        ocs.fault_telemetry_pending = false;
        ocs.safe_mode = false;
        return RecoveryStep::Recovered;
    }
    RecoveryStep::Wait
}

/// Law: a fault that is watched while it has lasted more than 120 and no more than 200
/// milliseconds is lifted; one that is first watched later aborts the mission and stays.
pub proof fn law_recovery_window(v: OcsView, injected_at: Instant, delayed: bool, now: Instant)
    requires
        !v.mission_abort,
        injected_at.nanos <= now.nanos,
    ensures
        ({
            let faulty = after_injection(v, delayed, injected_at);
            let watched = after_monitoring(faulty, now);
            let lasted = now.nanos - injected_at.nanos;
            &&& lasted <= 120_000_000 ==> watched == faulty
            &&& 120_000_000 < lasted <= 200_000_000 ==> watched.active_fault is None
                && !watched.safe_mode && !watched.mission_abort
            &&& lasted > 200_000_000 ==> watched.active_fault is Some && watched.safe_mode
                && watched.mission_abort
        }),
{
}

/// Law: an aborted mission stays aborted, and a fault that outlasts the limit is never
/// lifted by the watch.
pub proof fn law_abort_is_final(v: OcsView, now: Instant)
    ensures
        v.mission_abort ==> after_monitoring(v, now).mission_abort,
        recovery_step(v, now) is Aborted || recovery_step(v, now) is AlreadyAborted
            ==> after_monitoring(v, now).active_fault == v.active_fault,
{
}

/// Law: each recovery time that the watch notes is more than 120 and no more than 200
/// milliseconds.
pub proof fn law_recovery_times(v: OcsView, now: Instant)
    requires
        recovery_step(v, now) is Recovered,
    ensures
        120_000 <= after_monitoring(v, now).fault_recovery_us.last() <= 200_000,
{
}

/// Law: every character of the texts of the faults on board stands for itself between double
/// quotes.
pub proof fn law_fault_texts_are_plain()
    ensures
        is_plain(DELAYED_POWER_FAULT@),
        is_plain(CORRUPTED_DATA_FAULT@),
        is_plain(THERMAL_FAULT@),
{
    reveal_strlit("fault_injected:delayed_power_data");
    reveal_strlit("fault_injected:corrupted_sensor_data");
    reveal_strlit("thermal data missed >3 cycles");
    reveal_with_fuel(is_plain_from, 40);
    assert(is_plain_from(DELAYED_POWER_FAULT@, 0));
    assert(is_plain_from(CORRUPTED_DATA_FAULT@, 0));
    assert(is_plain_from(THERMAL_FAULT@, 0));
    lemma_plain_from(DELAYED_POWER_FAULT@, 0);
    lemma_plain_from(CORRUPTED_DATA_FAULT@, 0);
    lemma_plain_from(THERMAL_FAULT@, 0);
}

} // verus!
