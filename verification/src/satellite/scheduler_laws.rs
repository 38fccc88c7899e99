//! What the scheduler does, field by field.

use vstd::prelude::*;

use crate::satellite::scheduler::{
    after_dispatch, after_idle, after_quantum, after_release, after_releases, after_requeue,
    after_start, after_thermal_insert, first_urgent, has_thermal, is_first_urgent, last_start_of,
    lemma_first_urgent_exists, line_with_thermal, preempts_others, quantum_report, released,
    started, starts_late, Job, Scheduler, SchedulerView, TaskDef, TaskKind,
};
use crate::satellite::state::OcsView;
use crate::time::{magnitude, micros_between, Duration, Instant};

verus! {

/// Law: tasks rank in the order thermal control, compression, health monitoring, antenna
/// alignment, and each has its nominal period.
pub proof fn law_tasks()
    ensures
        TaskKind::ThermalControl.rank() < TaskKind::Compression.rank(),
        TaskKind::Compression.rank() < TaskKind::HealthMonitoring.rank(),
        TaskKind::HealthMonitoring.rank() < TaskKind::AntennaAlignment.rank(),
        TaskKind::AntennaAlignment.rank() == 3,
        TaskKind::ThermalControl.nominal_us() == 10_000,
        TaskKind::Compression.nominal_us() == 40_000,
        TaskKind::HealthMonitoring.nominal_us() == 250_000,
        TaskKind::AntennaAlignment.nominal_us() == 180_000,
{
}

/// Law: a scheduler starts with an empty line and three tasks. Each is first due one period after
/// the start, and each of their jobs takes one quantum.
pub proof fn law_initial_tasks(now: Instant)
    requires
        now.nanos + 250_000_000 <= u64::MAX,
    ensures
        ({
            let s = Scheduler::initial(now);
            &&& s.ready.len() == 0
            &&& s.last_task_start == Map::<u8, Instant>::empty()
            &&& s.defs.len() == 3
            &&& s.defs[0] == (TaskDef {
                kind: TaskKind::Compression,
                period: Duration { nanos: 40_000_000 },
                exec_quanta: 1,
                deadline: Duration { nanos: 200_000_000 },
                next_release: Instant { nanos: (now.nanos + 40_000_000) as u64 },
            })
            &&& s.defs[1] == (TaskDef {
                kind: TaskKind::HealthMonitoring,
                period: Duration { nanos: 250_000_000 },
                exec_quanta: 1,
                deadline: Duration { nanos: 3_000_000_000 },
                next_release: Instant { nanos: (now.nanos + 250_000_000) as u64 },
            })
            &&& s.defs[2] == (TaskDef {
                kind: TaskKind::AntennaAlignment,
                period: Duration { nanos: 180_000_000 },
                exec_quanta: 1,
                deadline: Duration { nanos: 1_500_000_000 },
                next_release: Instant { nanos: (now.nanos + 180_000_000) as u64 },
            })
        }),
{
}

proof fn lemma_released_of_parts(a: Seq<TaskDef>, b: Seq<TaskDef>, now: Instant)
    ensures
        released(a + b, now) == released(a, now) + released(b, now),
    decreases b.len(),
{
    if b.len() == 0 {
        assert(a + b =~= a);
        assert(released(a, now) + released(b, now) =~= released(a, now));
    } else {
        lemma_released_of_parts(a, b.drop_last(), now);
        assert((a + b).drop_last() =~= a + b.drop_last());
        assert((a + b).last() == b.last());
        assert(released(a + b, now) =~= released(a, now) + released(b, now));
    }
}

/// Law: a task releases one job once its time has come, and none before. The job is to be done
/// its deadline after now, and the task is next due one period after now. Tasks do not affect
/// each other, and their jobs go behind the line in the order of the tasks.
pub proof fn law_releases(
    s: SchedulerView,
    a: Seq<TaskDef>,
    b: Seq<TaskDef>,
    d: TaskDef,
    now: Instant,
    i: int,
)
    ensures
        released(a + b, now) == released(a, now) + released(b, now),
        now.nanos < d.next_release.nanos ==> released(seq![d], now).len() == 0 && after_release(
            d,
            now,
        ) == d,
        now.nanos >= d.next_release.nanos && now.nanos + d.deadline.nanos <= u64::MAX && now.nanos
            + d.period.nanos <= u64::MAX ==> released(seq![d], now) == seq![
            Job {
                kind: d.kind,
                release_at: now,
                deadline_at: Instant { nanos: (now.nanos + d.deadline.nanos) as u64 },
                remaining_quanta: d.exec_quanta,
                first_start: None,
            },
        ] && after_release(d, now) == (TaskDef {
            next_release: Instant { nanos: (now.nanos + d.period.nanos) as u64 },
            ..d
        }),
        after_releases(s, now).ready == s.ready + released(s.defs, now),
        after_releases(s, now).last_task_start == s.last_task_start,
        after_releases(s, now).defs.len() == s.defs.len(),
        0 <= i < s.defs.len() ==> after_releases(s, now).defs[i] == after_release(s.defs[i], now),
{
    lemma_released_of_parts(a, b, now);
    assert(seq![d].drop_last() =~= Seq::<TaskDef>::empty());
    reveal_with_fuel(released, 2);
    assert(seq![d].last() == d);
    if now.nanos >= d.next_release.nanos {
        assert(released(seq![d], now).len() == 1);
    }
}

/// Law: thermal control is called for while a thermal cycle is missing or the satellite is in
/// safe mode. It is then put in line, behind the other jobs, unless it is there already; that it
/// passes other jobs is counted. Otherwise nothing changes.
pub proof fn law_thermal_is_put_in_line(s: SchedulerView, v: OcsView, now: Instant)
    requires
        now.nanos + 10_000_000 <= u64::MAX,
    ensures
        ({
            let line = line_with_thermal(s, v, now);
            let after = after_thermal_insert(s, v);
            let waits = exists|i: int|
                0 <= i < s.ready.len() && (#[trigger] s.ready[i]).kind is ThermalControl;
            let called = v.thermal_missed_cycles > 0 || v.safe_mode;
            &&& called ==> exists|i: int|
                0 <= i < line.ready.len() && (#[trigger] line.ready[i]).kind is ThermalControl
            &&& !called || waits ==> line == s && after == v && !preempts_others(s, v)
            &&& called && !waits ==> {
                &&& line.ready == s.ready + seq![
                    Job {
                        kind: TaskKind::ThermalControl,
                        release_at: now,
                        deadline_at: Instant { nanos: (now.nanos + 10_000_000) as u64 },
                        remaining_quanta: 2,
                        first_start: None,
                    },
                ]
                &&& line.defs == s.defs
                &&& line.last_task_start == s.last_task_start
                &&& preempts_others(s, v) <==> s.ready.len() > 0
                &&& after.thermal_preemptions == v.thermal_preemptions + (if s.ready.len() > 0 {
                    1int
                } else {
                    0
                })
                &&& after == (OcsView { thermal_preemptions: after.thermal_preemptions, ..v })
            }
        }),
{
    let line = line_with_thermal(s, v, now);
    let called = v.thermal_missed_cycles > 0 || v.safe_mode;
    if called && !has_thermal(s.ready) {
        assert(line.ready[line.ready.len() - 1].kind is ThermalControl);
    }
    if has_thermal(s.ready) {
        let i = choose|i: int|
            0 <= i < s.ready.len() && (#[trigger] s.ready[i]).kind == TaskKind::ThermalControl;
        assert(s.ready[i].kind is ThermalControl);
        assert(line.ready[i].kind is ThermalControl);
    }
}

/// Law: the job that is run is the first of the most urgent ones in line, and the others stay in
/// their order. On its first run the job notes when it began, and so does its task.
pub proof fn law_dispatch(s: SchedulerView, now: Instant)
    requires
        s.ready.len() > 0,
    ensures
        ({
            let k = first_urgent(s.ready);
            let job = s.ready[k];
            let after = after_dispatch(s, now);
            &&& 0 <= k < s.ready.len()
            &&& forall|j: int|
                0 <= j < s.ready.len() ==> job.kind.rank() <= (#[trigger] s.ready[j]).kind.rank()
            &&& forall|j: int|
                0 <= j < k ==> job.kind.rank() < (#[trigger] s.ready[j]).kind.rank()
            &&& after.ready == s.ready.take(k) + s.ready.skip(k + 1)
            &&& after.defs == s.defs
            &&& job.first_start is None ==> started(job, now).first_start == Some(now)
                && after.last_task_start == s.last_task_start.insert(job.kind.rank(), now)
            &&& job.first_start is Some ==> started(job, now) == job && after.last_task_start
                == s.last_task_start
            &&& started(job, now) == (Job { first_start: started(job, now).first_start, ..job })
            &&& last_start_of(after, job.kind) is Some || job.first_start is Some
        }),
{
    lemma_first_urgent_exists(s.ready);
    let k = first_urgent(s.ready);
    assert(is_first_urgent(s.ready, k));
    assert(s.ready.remove(k) =~= s.ready.take(k) + s.ready.skip(k + 1));
}

/// Law: the first run of a job notes the delay since its release, counts a deadline that has
/// passed, and notes how far the start is from one nominal period after the last start of the
/// task. A later run of the job notes nothing.
pub proof fn law_start(v: OcsView, job: Job, last: Option<Instant>, now: Instant)
    ensures
        ({
            let after = after_start(v, job, last, now);
            let late = now.nanos > job.deadline_at.nanos;
            let nominal: int = match job.kind {
                TaskKind::ThermalControl => 10_000,
                TaskKind::Compression => 40_000,
                TaskKind::HealthMonitoring => 250_000,
                TaskKind::AntennaAlignment => 180_000,
            };
            &&& job.first_start is Some ==> after == v && !starts_late(job, now)
            &&& job.first_start is None ==> {
                &&& starts_late(job, now) == late
                &&& after.schedule_drift_us == v.schedule_drift_us.push(
                    micros_between(now, job.release_at) as i128,
                )
                &&& late ==> after.deadline_violations == v.deadline_violations + 1
                &&& !late ==> after.deadline_violations == v.deadline_violations
                &&& last is None ==> after.task_jitter_us == v.task_jitter_us
                &&& last matches Some(l) ==> after.task_jitter_us == v.task_jitter_us.push(
                    magnitude(micros_between(now, l) - nominal) as i128,
                )
                &&& after == (OcsView {
                    schedule_drift_us: after.schedule_drift_us,
                    deadline_violations: after.deadline_violations,
                    task_jitter_us: after.task_jitter_us,
                    ..v
                })
            }
        }),
{
}

/// Law: a quantum takes one from a job. A job with more of them goes to the end of the line, and
/// only the processor time is counted. A job that is done leaves the line, and a deadline that
/// has passed is counted. Thermal control that is done ends the count of missed thermal cycles,
/// and safe mode unless a fault is active.
pub proof fn law_quantum(s: SchedulerView, v: OcsView, job: Job, busy_us: nat, end: Instant)
    ensures
        ({
            let line = after_requeue(s, job);
            let after = after_quantum(v, job, busy_us as int, end);
            let report = quantum_report(job, end);
            let done = job.remaining_quanta <= 1;
            let late = end.nanos > job.deadline_at.nanos;
            let cooled = done && job.kind is ThermalControl;
            &&& report.finished == done
            &&& report.late == (done && late)
            &&& done ==> line == s
            &&& !done ==> line.ready == s.ready + seq![
                Job { remaining_quanta: (job.remaining_quanta - 1) as u32, ..job },
            ] && line.defs == s.defs && line.last_task_start == s.last_task_start
            &&& after.cpu_active_us == v.cpu_active_us + busy_us
            &&& done && late ==> after.deadline_violations == v.deadline_violations + 1
            &&& !done || !late ==> after.deadline_violations == v.deadline_violations
            &&& cooled ==> after.thermal_missed_cycles == 0 && after.safe_mode == (v.safe_mode
                && v.active_fault is Some)
            &&& !cooled ==> after.thermal_missed_cycles == v.thermal_missed_cycles
                && after.safe_mode == v.safe_mode
            &&& after == (OcsView {
                cpu_active_us: after.cpu_active_us,
                deadline_violations: after.deadline_violations,
                thermal_missed_cycles: after.thermal_missed_cycles,
                safe_mode: after.safe_mode,
                ..v
            })
        }),
{
}

/// Law: idle time is added up, and nothing else changes.
pub proof fn law_idle(v: OcsView, began: Instant, end: Instant)
    ensures
        after_idle(v, began, end).cpu_idle_us == v.cpu_idle_us + micros_between(end, began),
        after_idle(v, began, end) == (OcsView {
            cpu_idle_us: after_idle(v, began, end).cpu_idle_us,
            ..v
        }),
{
}

} // verus!
