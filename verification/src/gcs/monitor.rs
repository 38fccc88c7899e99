//! The monitor: what the ground station reports about itself.

use vstd::prelude::*;

use crate::gcs::backlog::{counts, lists, CommandEntry, CommandEntryView};
use crate::gcs::state::{CpuSample, GcsState, GcsView, MetricsView};
use crate::stats::{
    has_sum_u128, has_sum_u64, is_stats_i128, is_summable, mean_of, mean_of_signed, mean_u128,
    stats_i128, sum_u128, sum_u64, summable, total_u64,
};
use crate::time::{millis_between, Duration, Instant};

verus! {

/// The time between two reports, in seconds.
pub const MONITOR_INTERVAL_SECS: u64 = 5;

/// When the processor was last seen busy.
#[derive(Clone, Copy, Debug, PartialEq, Eq, Structural)]
pub struct CpuMeter {
    pub last_active: Instant,
}

/// The state after the processor was busy from `since` to `now`.
pub open spec fn after_busy(v: GcsView, since: Instant, now: Instant) -> GcsView {
    GcsView {
        cpu_total_active_ms: (v.cpu_total_active_ms + millis_between(now, since)) as nat,
        cpu_busy_start: Some(now),
        ..v
    }
}

impl CpuMeter {
    /// Starts to watch the processor at `now`.
    pub fn start(state: &mut GcsState, now: Instant) -> (m: CpuMeter)
        ensures
            m.last_active == now,
            final(state)@ == (GcsView { cpu_busy_start: Some(now), ..old(state)@ }),
            old(state)@.wf() ==> final(state)@.wf(),
    {
        state.cpu_busy_start = Some(now);
        CpuMeter { last_active: now }
    }

    /// Counts the time up to `now` as busy.
    pub fn tick(&mut self, state: &mut GcsState, now: Instant)
        requires
            after_busy(old(state)@, old(self).last_active, now).cpu_total_active_ms <= u64::MAX,
        ensures
            final(self).last_active == now,
            final(state)@ == after_busy(old(state)@, old(self).last_active, now),
            old(state)@.wf() ==> final(state)@.wf(),
    {
        let active_ms: u64 = now.saturating_duration_since(self.last_active).as_millis();
        state.cpu_total_active_ms = state.cpu_total_active_ms + active_ms;
        self.last_active = now;
        state.cpu_busy_start = Some(now);
    }
}

/// The state after the use of the processor was noted over the last `elapsed`. A stretch
/// without a whole millisecond is left to the next one.
pub open spec fn after_cpu_sample(v: GcsView, elapsed: Duration) -> GcsView {
    let elapsed_ms = elapsed.nanos / 1_000_000;
    if elapsed_ms > 0 {
        GcsView {
            metrics: MetricsView {
                cpu_usage_samples: v.metrics.cpu_usage_samples.push(
                    CpuSample { active_ms: v.cpu_total_active_ms as u64, elapsed_ms },
                ),
                ..v.metrics
            },
            cpu_total_active_ms: 0,
            ..v
        }
    } else {
        v
    }
}

/// The use of the processor over the last `elapsed`, if there is any to give.
pub open spec fn cpu_sample(v: GcsView, elapsed: Duration) -> Option<CpuSample> {
    if elapsed.nanos / 1_000_000 > 0 {
        Some(
            CpuSample {
                active_ms: v.cpu_total_active_ms as u64,
                elapsed_ms: elapsed.nanos / 1_000_000,
            },
        )
    } else {
        None
    }
}

/// Notes the use of the processor over the last `elapsed`, and gives it if there is any to give.
pub fn measure_cpu_usage(state: &mut GcsState, elapsed: Duration) -> (sample: Option<CpuSample>)
    ensures
        final(state)@ == after_cpu_sample(old(state)@, elapsed),
        sample == (if elapsed.nanos / 1_000_000 > 0 {
            Some(
                CpuSample {
                    active_ms: old(state).cpu_total_active_ms,
                    elapsed_ms: elapsed.nanos / 1_000_000,
                },
            )
        } else {
            None
        }),
        sample == cpu_sample(old(state)@, elapsed),
        old(state)@.wf() ==> final(state)@.wf(),
{
    let elapsed_ms: u64 = elapsed.as_millis();
    if elapsed_ms > 0 {
        let sample = CpuSample { active_ms: state.cpu_total_active_ms, elapsed_ms };
        state.metrics.cpu_usage_samples.push(sample);
        state.cpu_total_active_ms = 0;
        Some(sample)
    } else {
        None
    }
}

/// The least, the mean and the greatest of samples.
pub fn stats(v: &[i128]) -> (r: (i128, i128, i128))
    requires
        summable(v@),
    ensures
        is_stats_i128(v@, r),
{
    stats_i128(v)
}

/// The state after the number of commands in the backlog was noted.
pub open spec fn after_load_sample(v: GcsView) -> GcsView {
    GcsView {
        metrics: MetricsView {
            system_load_samples: v.metrics.system_load_samples.push(
                v.cmd_backlog.dom().len() as i128,
            ),
            ..v.metrics
        },
        ..v
    }
}

/// Notes the number of commands in the backlog as the load of the system.
pub fn sample_load(state: &mut GcsState)
    ensures
        old(state)@.cmd_backlog.dom().finite(),
        final(state)@ == (GcsView {
            metrics: MetricsView {
                system_load_samples: old(state)@.metrics.system_load_samples.push(
                    old(state)@.cmd_backlog.dom().len() as i128,
                ),
                ..old(state)@.metrics
            },
            ..old(state)@
        }),
        final(state)@ == after_load_sample(old(state)@),
        old(state)@.wf() ==> final(state)@.wf(),
{
    let n: usize = state.cmd_backlog.len();
    state.metrics.system_load_samples.push(n as i128);
}

/// A command in the backlog as it is reported.
pub struct BacklogLine {
    pub id: u64,
    pub entry: CommandEntry,
    /// How long ago it should have been sent.
    pub overdue_ms: u64,
    /// How long it has been in the backlog.
    pub age_ms: u64,
}

/// Whether `lines` report the commands of `m` at `now`, each of them once, in whatever order.
pub open spec fn reports_backlog(
    m: Map<u64, CommandEntryView>,
    lines: Seq<BacklogLine>,
    now: Instant,
) -> bool {
    &&& lists(m, lines.map_values(|l: BacklogLine| (l.id, l.entry)))
    &&& forall|i: int|
        0 <= i < lines.len() ==> (#[trigger] lines[i]).overdue_ms == millis_between(
            now,
            lines[i].entry.deadline_instant,
        ) && lines[i].age_ms == millis_between(now, lines[i].entry.created_instant)
}

/// What the backlog holds at `now`, in no particular order.
pub fn backlog_report(state: &GcsState, now: Instant) -> (lines: Vec<BacklogLine>)
    ensures
        reports_backlog(state@.cmd_backlog, lines@, now),
{
    let items = state.cmd_backlog.items();
    let n: usize = items.len();
    let mut lines: Vec<BacklogLine> = Vec::new();
    let mut i: usize = 0;
    while i < n
        invariant
            n == items@.len(),
            i <= n,
            lines@.len() == i,
            forall|j: int|
                0 <= j < i ==> (#[trigger] lines@[j]).id == items@[j].0 && lines@[j].entry
                    == items@[j].1 && lines@[j].overdue_ms == millis_between(
                    now,
                    lines@[j].entry.deadline_instant,
                ) && lines@[j].age_ms == millis_between(now, lines@[j].entry.created_instant),
        decreases n - i,
    {
        let entry = items[i].1.clone();
        let overdue_ms: u64 = now.saturating_duration_since(entry.deadline_instant).as_millis();
        let age_ms: u64 = now.saturating_duration_since(entry.created_instant).as_millis();
        lines.push(BacklogLine { id: items[i].0, entry, overdue_ms, age_ms });
        i = i + 1;
    }
    assert(lines@.map_values(|l: BacklogLine| (l.id, l.entry)) =~= items@);
    lines
}

/// The figures of a report.
#[derive(Clone, Copy, Debug)]
pub struct Report {
    pub latency_ms: (i128, i128, i128),
    pub jitter_ms: (i128, i128, i128),
    pub drift_ms: (i128, i128, i128),
    pub uplink_jitter_ms: (i128, i128, i128),
    pub scheduler_drift_ms: (i128, i128, i128),
    pub command_response_ms: (i128, i128, i128),
    pub system_load: (i128, i128, i128),
    pub interlock_avg_us: u128,
    pub telemetry_backlog_total: u64,
    pub fault_recovery_avg_ms: u128,
    pub backlog_len: usize,
}

impl Report {
    /// Whether the figures are those of the state `v`.
    pub open spec fn is_of(self, v: GcsView) -> bool {
        &&& is_stats_i128(v.metrics.latency_samples, self.latency_ms)
        &&& is_stats_i128(v.metrics.jitter_samples, self.jitter_ms)
        &&& is_stats_i128(v.metrics.drift_samples, self.drift_ms)
        &&& is_stats_i128(v.uplink_jitter, self.uplink_jitter_ms)
        &&& is_stats_i128(v.metrics.scheduler_drift_samples, self.scheduler_drift_ms)
        &&& is_stats_i128(v.metrics.command_response_latency_ms, self.command_response_ms)
        &&& is_stats_i128(v.metrics.system_load_samples, self.system_load)
        &&& self.interlock_avg_us == mean_of(v.metrics.interlock_latency_us)
        &&& self.telemetry_backlog_total == sum_u64(v.metrics.telemetry_backlog_samples)
        &&& self.fault_recovery_avg_ms == mean_of(v.metrics.fault_recovery_ms)
        &&& counts(v.cmd_backlog, self.backlog_len)
    }
}

/// Whether everything that a report needs can be added up.
pub open spec fn reportable(v: GcsView) -> bool {
    &&& summable(v.metrics.latency_samples)
    &&& summable(v.metrics.jitter_samples)
    &&& summable(v.metrics.drift_samples)
    &&& summable(v.uplink_jitter)
    &&& summable(v.metrics.scheduler_drift_samples)
    &&& summable(v.metrics.command_response_latency_ms)
    &&& summable(v.metrics.system_load_samples)
    &&& sum_u128(v.metrics.interlock_latency_us) <= u128::MAX
    &&& sum_u64(v.metrics.telemetry_backlog_samples) <= u64::MAX
    &&& sum_u128(v.metrics.fault_recovery_ms) <= u128::MAX
}

/// Whether everything that a report needs can be added up.
pub fn can_report(state: &GcsState) -> (r: bool)
    ensures
        r == reportable(state@),
{
    let met = &state.metrics;
    is_summable(met.latency_samples.as_slice()) && is_summable(met.jitter_samples.as_slice())
        && is_summable(met.drift_samples.as_slice()) && is_summable(state.uplink_jitter.as_slice())
        && is_summable(met.scheduler_drift_samples.as_slice()) && is_summable(
        met.command_response_latency_ms.as_slice(),
    ) && is_summable(met.system_load_samples.as_slice()) && has_sum_u128(
        met.interlock_latency_us.as_slice(),
    ) && has_sum_u64(met.telemetry_backlog_samples.as_slice()) && has_sum_u128(
        met.fault_recovery_ms.as_slice(),
    )
}

/// The figures of a report.
pub fn report(state: &GcsState) -> (r: Report)
    requires
        reportable(state@),
    ensures
        r.is_of(state@),
{
    let met = &state.metrics;
    Report {
        latency_ms: stats(met.latency_samples.as_slice()),
        jitter_ms: stats(met.jitter_samples.as_slice()),
        drift_ms: stats(met.drift_samples.as_slice()),
        uplink_jitter_ms: stats(state.uplink_jitter.as_slice()),
        scheduler_drift_ms: stats(met.scheduler_drift_samples.as_slice()),
        command_response_ms: stats(met.command_response_latency_ms.as_slice()),
        system_load: stats(met.system_load_samples.as_slice()),
        interlock_avg_us: mean_u128(met.interlock_latency_us.as_slice()),
        telemetry_backlog_total: total_u64(met.telemetry_backlog_samples.as_slice()),
        fault_recovery_avg_ms: mean_u128(met.fault_recovery_ms.as_slice()),
        backlog_len: state.cmd_backlog.len(),
    }
}

/// The means that close a run.
#[derive(Clone, Copy, Debug, PartialEq, Eq, Structural)]
pub struct FinalSummary {
    pub fault_recovery_avg_ms: u128,
    pub interlock_avg_us: u128,
    pub command_response_avg_ms: i128,
}

impl FinalSummary {
    /// Whether the means are those of the state `v`.
    pub open spec fn is_of(self, v: GcsView) -> bool {
        &&& self.fault_recovery_avg_ms == mean_of(v.metrics.fault_recovery_ms)
        &&& self.interlock_avg_us == mean_of(v.metrics.interlock_latency_us)
        &&& self.command_response_avg_ms == mean_of_signed(v.metrics.command_response_latency_ms)
    }
}

/// The means that close a run.
pub fn final_summary(state: &GcsState) -> (s: FinalSummary)
    requires
        sum_u128(state@.metrics.fault_recovery_ms) <= u128::MAX,
        sum_u128(state@.metrics.interlock_latency_us) <= u128::MAX,
        summable(state@.metrics.command_response_latency_ms),
    ensures
        s.fault_recovery_avg_ms == mean_of(state@.metrics.fault_recovery_ms),
        s.interlock_avg_us == mean_of(state@.metrics.interlock_latency_us),
        s.command_response_avg_ms == mean_of_signed(state@.metrics.command_response_latency_ms),
        s.is_of(state@),
{
    FinalSummary {
        fault_recovery_avg_ms: mean_u128(state.metrics.fault_recovery_ms.as_slice()),
        interlock_avg_us: mean_u128(state.metrics.interlock_latency_us.as_slice()),
        command_response_avg_ms: stats(state.metrics.command_response_latency_ms.as_slice()).1,
    }
}

/// Law: busy time is neither lost nor counted twice. What was counted before a sample is in the
/// sample, and counting starts again from zero.
pub proof fn law_busy_time_conserved(v: GcsView, elapsed: Duration)
    requires
        v.cpu_total_active_ms <= u64::MAX,
        elapsed.nanos >= 1_000_000,
    ensures
        ({
            let after = after_cpu_sample(v, elapsed);
            after.metrics.cpu_usage_samples.last().active_ms + after.cpu_total_active_ms
                == v.cpu_total_active_ms
        }),
{
}

} // verus!
