//! The real-time scheduler: periodic tasks, and thermal control ahead of them.

use std::collections::{HashMap, VecDeque};

use vstd::prelude::*;

use crate::satellite::state::{OcsState, OcsView};
use crate::time::{magnitude, micros_between, millis, Duration, Instant};

verus! {

/// The tasks on board.
#[derive(Clone, Copy, Debug, PartialEq, Eq, Hash, Structural)]
pub enum TaskKind {
    ThermalControl,
    Compression,
    HealthMonitoring,
    AntennaAlignment,
}

impl TaskKind {
    /// The place of the task in the order of urgency, the most urgent first.
    pub open spec fn rank(self) -> u8 {
        match self {
            TaskKind::ThermalControl => 0,
            TaskKind::Compression => 1,
            TaskKind::HealthMonitoring => 2,
            TaskKind::AntennaAlignment => 3,
        }
    }

    /// The time from one start of the task to the next that is meant, in microseconds.
    pub open spec fn nominal_us(self) -> int {
        match self {
            TaskKind::ThermalControl => 10_000,
            TaskKind::Compression => 40_000,
            TaskKind::HealthMonitoring => 250_000,
            TaskKind::AntennaAlignment => 180_000,
        }
    }
}

/// One release of a task.
#[derive(Clone, Copy, Debug, PartialEq, Eq, Structural)]
pub struct Job {
    pub kind: TaskKind,
    pub release_at: Instant,
    pub deadline_at: Instant,
    pub remaining_quanta: u32,
    pub first_start: Option<Instant>,
}

/// A periodic task.
#[derive(Clone, Copy, Debug, PartialEq, Eq, Structural)]
pub struct TaskDef {
    pub kind: TaskKind,
    pub period: Duration,
    pub exec_quanta: u32,
    pub deadline: Duration,
    pub next_release: Instant,
}

/// The deadline of thermal control, in milliseconds after its release.
pub const THERMAL_DEADLINE_MS: u64 = 10;

/// How many quanta thermal control runs for.
pub const THERMAL_QUANTA: u32 = 2;

/// The place of a task in the order of urgency, the most urgent first.
pub fn priority(kind: TaskKind) -> (p: u8)
    ensures
        p == kind.rank(),
{
    match kind {
        TaskKind::ThermalControl => 0,
        TaskKind::Compression => 1,
        TaskKind::HealthMonitoring => 2,
        TaskKind::AntennaAlignment => 3,
    }
}

/// The time from one start of a task to the next that is meant, in microseconds.
pub fn nominal_period_us(kind: TaskKind) -> (us: i128)
    ensures
        us == kind.nominal_us(),
{
    match kind {
        TaskKind::ThermalControl => 10_000,
        TaskKind::Compression => 40_000,
        TaskKind::HealthMonitoring => 250_000,
        TaskKind::AntennaAlignment => 180_000,
    }
}

/// Whether `i` is the first of the positions in `ready` with the most urgent job.
pub open spec fn is_first_urgent(ready: Seq<Job>, i: int) -> bool {
    &&& 0 <= i < ready.len()
    &&& forall|j: int|
        0 <= j < ready.len() ==> ready[i].kind.rank() <= (#[trigger] ready[j]).kind.rank()
    &&& forall|j: int| 0 <= j < i ==> ready[i].kind.rank() < (#[trigger] ready[j]).kind.rank()
}

/// The first of the positions in `ready` with the most urgent job.
pub open spec fn first_urgent(ready: Seq<Job>) -> int {
    choose|i: int| is_first_urgent(ready, i)
}

/// There is no other first position with the most urgent job.
pub proof fn lemma_first_urgent_unique(ready: Seq<Job>, i: int)
    requires
        is_first_urgent(ready, i),
    ensures
        first_urgent(ready) == i,
{
    let k = first_urgent(ready);
    assert(is_first_urgent(ready, k));
    if k < i {
        assert(ready[i].kind.rank() < ready[k].kind.rank());
    } else if i < k {
        assert(ready[k].kind.rank() < ready[i].kind.rank());
    }
}

/// The position of the job to run next: the first of the most urgent ones, and zero where
/// there is none.
pub fn select_highest_priority_job(ready: &VecDeque<Job>) -> (idx: usize)
    ensures
        ready@.len() == 0 ==> idx == 0,
        ready@.len() > 0 ==> is_first_urgent(ready@, idx as int) && idx == first_urgent(ready@),
{
    let len: usize = ready.len();
    if len == 0 {
        return 0;
    }
    let mut best: usize = 0;
    let mut i: usize = 1;
    while i < len
        invariant
            len == ready@.len(),
            1 <= i <= len,
            best < i,
            forall|j: int|
                0 <= j < i ==> ready@[best as int].kind.rank() <= (
                #[trigger] ready@[j]).kind.rank(),
            forall|j: int|
                0 <= j < best ==> ready@[best as int].kind.rank() < (
                #[trigger] ready@[j]).kind.rank(),
        decreases len - i,
    {
        if priority(ready[i].kind) < priority(ready[best].kind) {
            best = i;
        }
        i = i + 1;
    }
    proof {
        lemma_first_urgent_unique(ready@, best as int);
    }
    best
}

/// The scheduler: the periodic tasks, the jobs that are ready to run, and when each task,
/// by its place in the order of urgency, was last started.
pub struct Scheduler {
    pub defs: Vec<TaskDef>,
    pub ready: VecDeque<Job>,
    pub last_task_start: HashMap<u8, Instant>,
}

/// The scheduler with its lists as sequences.
#[verifier::ext_equal]
pub struct SchedulerView {
    pub defs: Seq<TaskDef>,
    pub ready: Seq<Job>,
    pub last_task_start: Map<u8, Instant>,
}

impl View for Scheduler {
    type V = SchedulerView;

    open spec fn view(&self) -> SchedulerView {
        SchedulerView {
            defs: self.defs@,
            ready: self.ready@,
            last_task_start: self.last_task_start@,
        }
    }
}

/// Whether thermal control is ready to run.
pub open spec fn has_thermal(ready: Seq<Job>) -> bool {
    exists|i: int| 0 <= i < ready.len() && (#[trigger] ready[i]).kind == TaskKind::ThermalControl
}

impl SchedulerView {
    /// What the scheduler keeps: thermal control is no periodic task, and is ready to run
    /// at most once.
    pub open spec fn wf(self) -> bool {
        &&& forall|i: int|
            0 <= i < self.defs.len() ==> (#[trigger] self.defs[i]).kind
                != TaskKind::ThermalControl
        &&& forall|i: int, j: int|
            0 <= i < j < self.ready.len() ==> (#[trigger] self.ready[i]).kind
                != TaskKind::ThermalControl || (#[trigger] self.ready[j]).kind
                != TaskKind::ThermalControl
    }
}

/// A periodic task whose first release is one period after `now`.
pub open spec fn task_from(
    kind: TaskKind,
    period_ms: int,
    deadline_ms: int,
    now: Instant,
) -> TaskDef {
    TaskDef {
        kind,
        period: Duration { nanos: millis(period_ms) as u64 },
        exec_quanta: 1,
        deadline: Duration { nanos: millis(deadline_ms) as u64 },
        next_release: now.after(millis(period_ms)),
    }
}

/// Whether the task is due for release.
pub open spec fn is_due(def: TaskDef, now: Instant) -> bool {
    now.nanos >= def.next_release.nanos
}

/// The task after its jobs due at `now` were released. The next release is counted from
/// `now`.
pub open spec fn after_release(def: TaskDef, now: Instant) -> TaskDef {
    if is_due(def, now) {
        TaskDef { next_release: now.after(def.period.nanos as int), ..def }
    } else {
        def
    }
}

/// The job of a task that is released at `now`.
pub open spec fn job_of(def: TaskDef, now: Instant) -> Job {
    Job {
        kind: def.kind,
        release_at: now,
        deadline_at: now.after(def.deadline.nanos as int),
        remaining_quanta: def.exec_quanta,
        first_start: None,
    }
}

/// The jobs that are released at `now`, in the order of the tasks.
pub open spec fn released(defs: Seq<TaskDef>, now: Instant) -> Seq<Job>
    decreases defs.len(),
{
    if defs.len() == 0 {
        Seq::empty()
    } else {
        let before = released(defs.drop_last(), now);
        if is_due(defs.last(), now) {
            before.push(job_of(defs.last(), now))
        } else {
            before
        }
    }
}

/// The job of thermal control that is released at `now`.
pub open spec fn thermal_job(now: Instant) -> Job {
    Job {
        kind: TaskKind::ThermalControl,
        release_at: now,
        deadline_at: now.after(millis(THERMAL_DEADLINE_MS as int)),
        remaining_quanta: THERMAL_QUANTA,
        first_start: None,
    }
}

/// Whether thermal control is called for: thermal samples are missing or the satellite is
/// in safe mode.
pub open spec fn thermal_pending(v: OcsView) -> bool {
    v.thermal_missed_cycles > 0 || v.safe_mode
}

/// Whether thermal control is put in line now: it is called for and not in line yet.
pub open spec fn inserts_thermal(s: SchedulerView, v: OcsView) -> bool {
    thermal_pending(v) && !has_thermal(s.ready)
}

/// The line after thermal control was put in it at `now`, if it was to be.
pub open spec fn line_with_thermal(s: SchedulerView, v: OcsView, now: Instant) -> SchedulerView {
    SchedulerView {
        ready: if inserts_thermal(s, v) {
            s.ready.push(thermal_job(now))
        } else {
            s.ready
        },
        ..s
    }
}

/// Whether thermal control goes ahead of other jobs now.
pub open spec fn preempts_others(s: SchedulerView, v: OcsView) -> bool {
    inserts_thermal(s, v) && s.ready.len() > 0
}

/// The state after thermal control was put in line, if it was to be.
pub open spec fn after_thermal_insert(s: SchedulerView, v: OcsView) -> OcsView {
    OcsView {
        thermal_preemptions: if preempts_others(s, v) {
            v.thermal_preemptions + 1
        } else {
            v.thermal_preemptions
        },
        ..v
    }
}

/// Whether `job` is first run after its deadline at `now`.
pub open spec fn starts_late(job: Job, now: Instant) -> bool {
    job.first_start is None && now.nanos > job.deadline_at.nanos
}

/// The job that is run at `now` after it was taken from the line.
pub open spec fn started(job: Job, now: Instant) -> Job {
    if job.first_start is None {
        Job { first_start: Some(now), ..job }
    } else {
        job
    }
}

/// The tasks and the line after the jobs due at `now` were released.
pub open spec fn after_releases(s: SchedulerView, now: Instant) -> SchedulerView {
    SchedulerView {
        defs: s.defs.map_values(|d: TaskDef| after_release(d, now)),
        ready: s.ready + released(s.defs, now),
        ..s
    }
}

/// The line after the job to run at `now` was taken from it.
pub open spec fn after_dispatch(s: SchedulerView, now: Instant) -> SchedulerView {
    let i = first_urgent(s.ready);
    let job = s.ready[i];
    SchedulerView {
        ready: s.ready.remove(i),
        last_task_start: if job.first_start is None {
            s.last_task_start.insert(job.kind.rank(), now)
        } else {
            s.last_task_start
        },
        ..s
    }
}

/// The state after `job` was run at `now`, where its task was last started at `last`. On
/// its first quantum the delay since its release is noted, a passed deadline counts as a
/// violation, and the time since the last start is held against the time that is meant.
pub open spec fn after_start(v: OcsView, job: Job, last: Option<Instant>, now: Instant) -> OcsView {
    if job.first_start is None {
        OcsView {
            schedule_drift_us: v.schedule_drift_us.push(
                micros_between(now, job.release_at) as i128,
            ),
            deadline_violations: if now.nanos > job.deadline_at.nanos {
                v.deadline_violations + 1
            } else {
                v.deadline_violations
            },
            task_jitter_us: match last {
                Some(l) => v.task_jitter_us.push(
                    magnitude(micros_between(now, l) - job.kind.nominal_us()) as i128,
                ),
                None => v.task_jitter_us,
            },
            ..v
        }
    } else {
        v
    }
}

/// When the task of the next job was last started.
pub open spec fn last_start_of(s: SchedulerView, kind: TaskKind) -> Option<Instant> {
    if s.last_task_start.contains_key(kind.rank()) {
        Some(s.last_task_start[kind.rank()])
    } else {
        None
    }
}

/// The quanta that are left of `job` after one of them was run.
pub open spec fn quanta_left(job: Job) -> u32 {
    if job.remaining_quanta > 0 {
        (job.remaining_quanta - 1) as u32
    } else {
        0
    }
}

/// The line after `job` ran for one quantum: if more are left, it goes to the end.
pub open spec fn after_requeue(s: SchedulerView, job: Job) -> SchedulerView {
    if quanta_left(job) > 0 {
        SchedulerView {
            ready: s.ready.push(Job { remaining_quanta: quanta_left(job), ..job }),
            ..s
        }
    } else {
        s
    }
}

/// The state after `job` ran for one quantum that kept the processor busy for `busy_us`
/// microseconds and ended at `end`. When the job is done, a passed deadline counts as a
/// violation. Thermal control that is done forgets the missed thermal cycles and, if no
/// fault is active, ends safe mode.
pub open spec fn after_quantum(v: OcsView, job: Job, busy_us: int, end: Instant) -> OcsView {
    let busy = OcsView { cpu_active_us: (v.cpu_active_us + busy_us) as nat, ..v };
    if quanta_left(job) > 0 {
        busy
    } else {
        let judged = OcsView {
            deadline_violations: if end.nanos > job.deadline_at.nanos {
                v.deadline_violations + 1
            } else {
                v.deadline_violations
            },
            ..busy
        };
        if job.kind == TaskKind::ThermalControl {
            OcsView {
                thermal_missed_cycles: 0,
                safe_mode: v.safe_mode && v.active_fault is Some,
                ..judged
            }
        } else {
            judged
        }
    }
}

/// What comes of a quantum of `job` that ended at `end`.
pub open spec fn quantum_report(job: Job, end: Instant) -> QuantumReport {
    QuantumReport {
        finished: quanta_left(job) == 0,
        late: quanta_left(job) == 0 && end.nanos > job.deadline_at.nanos,
    }
}

/// The state after the processor had nothing to do from `began` to `end`.
pub open spec fn after_idle(v: OcsView, began: Instant, end: Instant) -> OcsView {
    OcsView { cpu_idle_us: (v.cpu_idle_us + micros_between(end, began)) as nat, ..v }
}

/// What came of a quantum.
#[derive(Clone, Copy, Debug, PartialEq, Eq, Structural)]
pub struct QuantumReport {
    /// The job is done.
    pub finished: bool,
    /// The job was done after its deadline.
    pub late: bool,
}

/// The job that was taken from the line.
#[derive(Clone, Copy, Debug, PartialEq, Eq, Structural)]
pub struct Dispatched {
    pub job: Job,
    /// The job was first run after its deadline.
    pub late: bool,
}

impl Scheduler {
    /// The scheduler at `now`, before anything was released.
    pub open spec fn initial(now: Instant) -> SchedulerView {
        SchedulerView {
            defs: seq![
                task_from(TaskKind::Compression, 40, 200, now),
                task_from(TaskKind::HealthMonitoring, 250, 3000, now),
                task_from(TaskKind::AntennaAlignment, 180, 1500, now),
            ],
            ready: Seq::empty(),
            last_task_start: Map::empty(),
        }
    }

    /// The scheduler with its three periodic tasks, of which each is first released one
    /// period after `now`.
    pub fn new(now: Instant) -> (s: Scheduler)
        requires
            now.has_after(millis(250)),
        ensures
            s@ == (SchedulerView {
                defs: seq![
                    task_from(TaskKind::Compression, 40, 200, now),
                    task_from(TaskKind::HealthMonitoring, 250, 3000, now),
                    task_from(TaskKind::AntennaAlignment, 180, 1500, now),
                ],
                ready: Seq::empty(),
                last_task_start: Map::empty(),
            }),
            s@ == Scheduler::initial(now),
            s@.wf(),
    {
        broadcast use vstd::std_specs::hash::group_hash_axioms;

        let mut defs: Vec<TaskDef> = Vec::new();
        defs.push(Scheduler::task(TaskKind::Compression, 40, 200, now));
        defs.push(Scheduler::task(TaskKind::HealthMonitoring, 250, 3000, now));
        defs.push(Scheduler::task(TaskKind::AntennaAlignment, 180, 1500, now));
        Scheduler { defs, ready: VecDeque::new(), last_task_start: HashMap::new() }
    }

    fn task(kind: TaskKind, period_ms: u64, deadline_ms: u64, now: Instant) -> (def: TaskDef)
        requires
            millis(deadline_ms as int) <= u64::MAX,
            now.has_after(millis(period_ms as int)),
        ensures
            def == task_from(kind, period_ms as int, deadline_ms as int, now),
    {
        let period = Duration::from_millis(period_ms);
        TaskDef {
            kind,
            period,
            exec_quanta: 1,
            deadline: Duration::from_millis(deadline_ms),
            next_release: now.plus(period),
        }
    }

    /// Releases a job of each task that is due at `now`.
    pub fn release_due(&mut self, now: Instant)
        requires
            forall|i: int|
                0 <= i < old(self)@.defs.len() && is_due(#[trigger] old(self)@.defs[i], now)
                    ==> now.has_after(old(self)@.defs[i].period.nanos as int) && now.has_after(
                    old(self)@.defs[i].deadline.nanos as int,
                ),
        ensures
            final(self)@ == (SchedulerView {
                defs: old(self)@.defs.map_values(|d: TaskDef| after_release(d, now)),
                ready: old(self)@.ready + released(old(self)@.defs, now),
                ..old(self)@
            }),
            final(self)@ == after_releases(old(self)@, now),
            old(self)@.wf() ==> final(self)@.wf(),
    {
        let ghost defs = self.defs@;
        let ghost ready = self.ready@;
        let n: usize = self.defs.len();
        let mut i: usize = 0;
        assert(defs.take(0) =~= Seq::empty());
        assert(self.ready@ =~= ready + released(defs.take(0), now));
        while i < n
            invariant
                n == defs.len(),
                i <= n,
                self.defs@.len() == n,
                forall|j: int| 0 <= j < i ==> #[trigger] self.defs@[j] == after_release(defs[j], now),
                forall|j: int| i <= j < n ==> #[trigger] self.defs@[j] == defs[j],
                self.ready@ == ready + released(defs.take(i as int), now),
                self.last_task_start@ == old(self)@.last_task_start,
                defs == old(self)@.defs,
                forall|j: int|
                    0 <= j < defs.len() && is_due(#[trigger] defs[j], now) ==> now.has_after(
                        defs[j].period.nanos as int,
                    ) && now.has_after(defs[j].deadline.nanos as int),
            decreases n - i,
        {
            let def: TaskDef = self.defs[i];
            assert(def == defs[i as int]);
            assert(defs.take(i + 1).drop_last() =~= defs.take(i as int));
            assert(defs.take(i + 1).last() == def);
            if now.nanos >= def.next_release.nanos {
                self.defs.set(i, TaskDef { next_release: now.plus(def.period), ..def });
                self.ready.push_back(
                    Job {
                        kind: def.kind,
                        release_at: now,
                        deadline_at: now.plus(def.deadline),
                        remaining_quanta: def.exec_quanta,
                        first_start: None,
                    },
                );
                assert(self.ready@ =~= ready + released(defs.take(i + 1), now));
            }
            i = i + 1;
        }
        proof {
            assert(defs.take(n as int) =~= defs);
            assert(self.defs@ =~= defs.map_values(|d: TaskDef| after_release(d, now)));
            if old(self)@.wf() {
                lemma_released_no_thermal(defs, now);
            }
        }
    }

    /// Puts thermal control in line if it is called for and not in line yet, and says
    /// whether it goes ahead of other jobs, which is counted.
    pub fn insert_thermal(&mut self, ocs: &mut OcsState, now: Instant) -> (preempts: bool)
        requires
            inserts_thermal(old(self)@, old(ocs)@) ==> now.has_after(
                millis(THERMAL_DEADLINE_MS as int),
            ) && (old(self)@.ready.len() > 0 ==> old(ocs).thermal_preemptions < u64::MAX),
        ensures
            preempts == (inserts_thermal(old(self)@, old(ocs)@) && old(self)@.ready.len() > 0),
            final(self)@ == (SchedulerView {
                ready: if inserts_thermal(old(self)@, old(ocs)@) {
                    old(self)@.ready.push(thermal_job(now))
                } else {
                    old(self)@.ready
                },
                ..old(self)@
            }),
            final(ocs)@ == (OcsView {
                thermal_preemptions: if preempts {
                    old(ocs)@.thermal_preemptions + 1
                } else {
                    old(ocs)@.thermal_preemptions
                },
                ..old(ocs)@
            }),
            old(self)@.wf() ==> final(self)@.wf(),
            old(ocs)@.wf() ==> final(ocs)@.wf(),
            thermal_pending(old(ocs)@) ==> has_thermal(final(self)@.ready),
            old(ocs).thermal_missed_cycles > 0 || old(ocs).safe_mode ==> exists|i: int|
                0 <= i < final(self)@.ready.len() && (#[trigger] final(self)@.ready[i]).kind
                    == TaskKind::ThermalControl,
            old(ocs).thermal_missed_cycles == 0 && !old(ocs).safe_mode ==> final(self)@
                == old(self)@ && !preempts,
            preempts == preempts_others(old(self)@, old(ocs)@),
            final(self)@ == line_with_thermal(old(self)@, old(ocs)@, now),
            final(ocs)@ == after_thermal_insert(old(self)@, old(ocs)@),
    {
        let pending = ocs.thermal_missed_cycles > 0 || ocs.safe_mode;
        if !pending || self.thermal_in_line() {
            return false;
        }
        let preempts = self.ready.len() > 0;
        if preempts {
            ocs.thermal_preemptions = ocs.thermal_preemptions + 1;
        }
        self.ready.push_back(
            Job {
                kind: TaskKind::ThermalControl,
                release_at: now,
                deadline_at: now.plus(Duration::from_millis(THERMAL_DEADLINE_MS)),
                remaining_quanta: THERMAL_QUANTA,
                first_start: None,
            },
        );
        assert(self.ready@[self.ready@.len() - 1].kind == TaskKind::ThermalControl);
        preempts
    }

    fn thermal_in_line(&self) -> (r: bool)
        ensures
            r == has_thermal(self.ready@),
    {
        let n: usize = self.ready.len();
        let mut i: usize = 0;
        while i < n
            invariant
                n == self.ready@.len(),
                i <= n,
                forall|j: int|
                    0 <= j < i ==> (#[trigger] self.ready@[j]).kind != TaskKind::ThermalControl,
            decreases n - i,
        {
            if self.ready[i].kind == TaskKind::ThermalControl {
                return true;
            }
            i = i + 1;
        }
        false
    }

    /// Takes the job to run at `now` from the line, if there is one.
    pub fn dispatch(&mut self, ocs: &mut OcsState, now: Instant) -> (r: Option<Dispatched>)
        requires
            old(self)@.ready.len() > 0 ==> after_start(
                old(ocs)@,
                old(self)@.ready[first_urgent(old(self)@.ready)],
                None,
                now,
            ).deadline_violations <= u64::MAX,
        ensures
            r is Some <==> old(self)@.ready.len() > 0,
            r is None ==> final(self)@ == old(self)@ && final(ocs)@ == old(ocs)@,
            r matches Some(d) ==> {
                let job = old(self)@.ready[first_urgent(old(self)@.ready)];
                &&& is_first_urgent(old(self)@.ready, first_urgent(old(self)@.ready))
                &&& d.job == started(job, now)
                &&& d.late == (job.first_start is None && now.nanos > job.deadline_at.nanos)
                &&& d.late == starts_late(job, now)
                &&& final(self)@ == after_dispatch(old(self)@, now)
                &&& final(ocs)@ == after_start(
                    old(ocs)@,
                    job,
                    last_start_of(old(self)@, job.kind),
                    now,
                )
            },
            old(self)@.wf() ==> final(self)@.wf(),
            old(self)@.wf() && r is Some && r->0.job.kind == TaskKind::ThermalControl
                ==> !has_thermal(final(self)@.ready),
            old(ocs)@.wf() ==> final(ocs)@.wf(),
    {
        broadcast use vstd::std_specs::hash::group_hash_axioms;

        let idx: usize = select_highest_priority_job(&self.ready);
        let taken = self.ready.remove(idx);
        match taken {
            None => None,
            Some(mut job) => {
                let mut late = false;
                if job.first_start.is_none() {
                    job.first_start = Some(now);
                    let delay_us: u64 = now.saturating_duration_since(job.release_at).as_micros();
                    ocs.schedule_drift_us.push(delay_us as i128);
                    if now.nanos > job.deadline_at.nanos {
                        ocs.deadline_violations = ocs.deadline_violations + 1;
                        late = true;
                    }
                    let last = self.last_task_start.insert(priority(job.kind), now);
                    match last {
                        Some(l) => {
                            let nominal_us: i128 = nominal_period_us(job.kind);
                            let actual_us: i128 = now.saturating_duration_since(
                                l,
                            ).as_micros() as i128;
                            let jitter_us: i128 = if actual_us >= nominal_us {
                                actual_us - nominal_us
                            } else {
                                nominal_us - actual_us
                            };
                            ocs.task_jitter_us.push(jitter_us);
                        },
                        None => {},
                    }
                }
                Some(Dispatched { job, late })
            },
        }
    }

    /// Ends a quantum of `job` that began at `began` and ended at `end`: puts the job back in
    /// line if it is not done.
    pub fn complete_quantum(
        &mut self,
        ocs: &mut OcsState,
        job: Job,
        began: Instant,
        end: Instant,
    ) -> (report: QuantumReport)
        requires
            after_quantum(old(ocs)@, job, micros_between(end, began), end).cpu_active_us
                <= u128::MAX,
            after_quantum(old(ocs)@, job, micros_between(end, began), end).deadline_violations
                <= u64::MAX,
        ensures
            final(self)@ == after_requeue(old(self)@, job),
            final(ocs)@ == after_quantum(old(ocs)@, job, micros_between(end, began), end),
            report.finished == (quanta_left(job) == 0),
            report.late == (report.finished && end.nanos > job.deadline_at.nanos),
            report == quantum_report(job, end),
            old(self)@.wf() && (job.kind == TaskKind::ThermalControl ==> !has_thermal(
                old(self)@.ready,
            )) ==> final(self)@.wf(),
            old(ocs)@.wf() ==> final(ocs)@.wf(),
    {
        let busy_us: u64 = end.saturating_duration_since(began).as_micros();
        ocs.cpu_active_us = ocs.cpu_active_us + (busy_us as u128);
        let left: u32 = if job.remaining_quanta > 0 {
            job.remaining_quanta - 1
        } else {
            0
        };
        if left > 0 {
            self.ready.push_back(Job { remaining_quanta: left, ..job });
            return QuantumReport { finished: false, late: false };
        }
        let late = end.nanos > job.deadline_at.nanos;
        if late {
            ocs.deadline_violations = ocs.deadline_violations + 1;
        }
        if job.kind == TaskKind::ThermalControl {
            ocs.thermal_missed_cycles = 0;
            if ocs.active_fault.is_none() {
                ocs.safe_mode = false;
            }
        }
        QuantumReport { finished: true, late }
    }
}

/// Notes that the processor had nothing to do from `began` to `end`.
pub fn note_idle(ocs: &mut OcsState, began: Instant, end: Instant)
    requires
        old(ocs).cpu_idle_us + micros_between(end, began) <= u128::MAX,
    ensures
        final(ocs)@ == (OcsView {
            cpu_idle_us: (old(ocs)@.cpu_idle_us + micros_between(end, began)) as nat,
            ..old(ocs)@
        }),
        final(ocs)@ == after_idle(old(ocs)@, began, end),
        old(ocs)@.wf() ==> final(ocs)@.wf(),
{
    let idle_us: u64 = end.saturating_duration_since(began).as_micros();
    ocs.cpu_idle_us = ocs.cpu_idle_us + (idle_us as u128);
}

proof fn lemma_released_no_thermal(defs: Seq<TaskDef>, now: Instant)
    requires
        forall|i: int| 0 <= i < defs.len() ==> (#[trigger] defs[i]).kind
            != TaskKind::ThermalControl,
    ensures
        forall|i: int|
            0 <= i < released(defs, now).len() ==> (#[trigger] released(defs, now)[i]).kind
                != TaskKind::ThermalControl,
    decreases defs.len(),
{
    if defs.len() > 0 {
        let t = defs.drop_last();
        assert forall|i: int| 0 <= i < t.len() implies (#[trigger] t[i]).kind
            != TaskKind::ThermalControl by {
            assert(t[i] == defs[i]);
        }
        lemma_released_no_thermal(t, now);
        assert(defs.last() == defs[defs.len() - 1]);
    }
}

/// A line that is not empty has a first position with the most urgent job.
pub proof fn lemma_first_urgent_exists(ready: Seq<Job>)
    requires
        ready.len() > 0,
    ensures
        is_first_urgent(ready, first_urgent(ready)),
    decreases ready.len(),
{
    if ready.len() == 1 {
        assert(is_first_urgent(ready, 0));
    } else {
        let t = ready.drop_last();
        lemma_first_urgent_exists(t);
        let k = first_urgent(t);
        if ready.last().kind.rank() < t[k].kind.rank() {
            assert forall|j: int| 0 <= j < ready.len() - 1 implies ready.last().kind.rank() < (
            #[trigger] ready[j]).kind.rank() by {
                assert(ready[j] == t[j]);
            }
            assert(is_first_urgent(ready, ready.len() - 1));
        } else {
            assert forall|j: int| 0 <= j < ready.len() implies ready[k].kind.rank() <= (
            #[trigger] ready[j]).kind.rank() by {
                if j < ready.len() - 1 {
                    assert(ready[j] == t[j]);
                }
            }
            assert forall|j: int| 0 <= j < k implies ready[k].kind.rank() < (
            #[trigger] ready[j]).kind.rank() by {
                assert(ready[j] == t[j]);
            }
            assert(is_first_urgent(ready, k));
        }
    }
}

/// Law: thermal control is run before every other job that is in line.
pub proof fn law_thermal_first(ready: Seq<Job>)
    requires
        has_thermal(ready),
    ensures
        0 <= first_urgent(ready) < ready.len(),
        ready[first_urgent(ready)].kind == TaskKind::ThermalControl,
{
    lemma_first_urgent_exists(ready);
    let i = first_urgent(ready);
    let k = choose|k: int|
        0 <= k < ready.len() && (#[trigger] ready[k]).kind == TaskKind::ThermalControl;
    assert(ready[i].kind.rank() <= ready[k].kind.rank());
}

/// Law: a task that was released at `now` is not released again before one period has
/// passed.
pub proof fn law_released_once_per_period(def: TaskDef, now: Instant, later: Instant)
    requires
        is_due(def, now),
        now.has_after(def.period.nanos as int),
    ensures
        is_due(after_release(def, now), later) <==> later.nanos >= now.nanos + def.period.nanos,
{
}

/// Law: thermal control ends a safe mode that no active fault holds, and no safe mode that
/// one does.
pub proof fn law_thermal_control_ends_safe_mode(v: OcsView, job: Job, busy_us: int, end: Instant)
    requires
        v.wf(),
        job.kind == TaskKind::ThermalControl,
        quanta_left(job) == 0,
    ensures
        after_quantum(v, job, busy_us, end).safe_mode <==> v.active_fault is Some,
        after_quantum(v, job, busy_us, end).active_fault == v.active_fault,
        thermal_pending(after_quantum(v, job, busy_us, end)) <==> v.active_fault is Some,
{
}

} // verus!
