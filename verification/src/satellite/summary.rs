//! The figures that close a mission.

use vstd::prelude::*;

use crate::satellite::state::{
    all_micros, all_signed_micros, OcsState, OcsView, MAX_MICROS,
};
use crate::stats::{
    has_sum_u128, is_stats_i128, is_stats_u128, is_summable, lemma_sum_i128_bounds, lemma_sum_u128_bounds, stats_i128,
    stats_u128, sum_i128, sum_u128, summable,
};

verus! {

/// The least, the mean and the greatest of everything that was measured, and the time that
/// the processor was watched.
#[derive(Clone, Copy, Debug)]
pub struct MissionSummary {
    pub sensor_latency_us: (u128, u128, u128),
    pub sensor_drift_us: (i128, i128, i128),
    pub sensor_jitter_us: (i128, i128, i128),
    pub schedule_drift_us: (i128, i128, i128),
    pub task_jitter_us: (i128, i128, i128),
    pub tx_latency_us: (u128, u128, u128),
    pub fault_recovery_us: (u128, u128, u128),
    pub command_response_latency_us: (u128, u128, u128),
    pub cpu_active_us: u128,
    pub cpu_total_us: u128,
}

impl MissionSummary {
    /// Whether the summary is that of the state `v`.
    pub open spec fn is_of(self, v: OcsView) -> bool {
        &&& is_stats_u128(v.sensor_latency_us, self.sensor_latency_us)
        &&& is_stats_i128(v.sensor_drift_us, self.sensor_drift_us)
        &&& is_stats_i128(v.sensor_jitter_us, self.sensor_jitter_us)
        &&& is_stats_i128(v.schedule_drift_us, self.schedule_drift_us)
        &&& is_stats_i128(v.task_jitter_us, self.task_jitter_us)
        &&& is_stats_u128(v.tx_latency_us, self.tx_latency_us)
        &&& is_stats_u128(v.fault_recovery_us, self.fault_recovery_us)
        &&& is_stats_u128(v.command_response_latency_us, self.command_response_latency_us)
        &&& self.cpu_active_us == v.cpu_active_us
        &&& self.cpu_total_us == v.cpu_active_us + v.cpu_idle_us
    }
}

/// Whether everything that was measured can be added up.
pub open spec fn summarizable(v: OcsView) -> bool {
    &&& sum_u128(v.sensor_latency_us) <= u128::MAX
    &&& summable(v.sensor_drift_us)
    &&& summable(v.sensor_jitter_us)
    &&& summable(v.schedule_drift_us)
    &&& summable(v.task_jitter_us)
    &&& sum_u128(v.tx_latency_us) <= u128::MAX
    &&& sum_u128(v.fault_recovery_us) <= u128::MAX
    &&& sum_u128(v.command_response_latency_us) <= u128::MAX
    &&& v.cpu_active_us + v.cpu_idle_us <= u128::MAX
}

/// Whether everything that was measured can be added up.
pub fn can_summarize(ocs: &OcsState) -> (r: bool)
    ensures
        r == summarizable(ocs@),
{
    has_sum_u128(ocs.sensor_latency_us.as_slice()) && is_summable(
        ocs.sensor_drift_us.as_slice(),
    ) && is_summable(ocs.sensor_jitter_us.as_slice()) && is_summable(
        ocs.schedule_drift_us.as_slice(),
    ) && is_summable(ocs.task_jitter_us.as_slice()) && has_sum_u128(ocs.tx_latency_us.as_slice())
        && has_sum_u128(ocs.fault_recovery_us.as_slice()) && has_sum_u128(
        ocs.command_response_latency_us.as_slice(),
    ) && ocs.cpu_idle_us <= u128::MAX - ocs.cpu_active_us
}

/// Sums up what was measured.
pub fn summarize(ocs: &OcsState) -> (s: MissionSummary)
    requires
        summarizable(ocs@),
    ensures
        s.is_of(ocs@),
{
    MissionSummary {
        sensor_latency_us: stats_u128(ocs.sensor_latency_us.as_slice()),
        sensor_drift_us: stats_i128(ocs.sensor_drift_us.as_slice()),
        sensor_jitter_us: stats_i128(ocs.sensor_jitter_us.as_slice()),
        schedule_drift_us: stats_i128(ocs.schedule_drift_us.as_slice()),
        task_jitter_us: stats_i128(ocs.task_jitter_us.as_slice()),
        tx_latency_us: stats_u128(ocs.tx_latency_us.as_slice()),
        fault_recovery_us: stats_u128(ocs.fault_recovery_us.as_slice()),
        command_response_latency_us: stats_u128(ocs.command_response_latency_us.as_slice()),
        cpu_active_us: ocs.cpu_active_us,
        cpu_total_us: ocs.cpu_active_us + ocs.cpu_idle_us,
    }
}

proof fn lemma_micros_fit(s: Seq<u128>)
    requires
        all_micros(s),
        s.len() <= u64::MAX,
    ensures
        sum_u128(s) <= u128::MAX,
{
    lemma_sum_u128_bounds(s, 0, MAX_MICROS as int);
    let n = s.len() as int;
    assert(n * MAX_MICROS <= u64::MAX * MAX_MICROS) by (nonlinear_arith)
        requires
            0 <= n <= u64::MAX,
    ;
}

proof fn lemma_signed_micros_summable(s: Seq<i128>)
    requires
        all_signed_micros(s),
        s.len() <= u64::MAX,
    ensures
        summable(s),
{
    assert forall|k: int| 0 <= k <= s.len() implies i128::MIN <= #[trigger] sum_i128(s.take(k))
        <= i128::MAX by {
        let t = s.take(k);
        assert forall|i: int| 0 <= i < t.len() implies 0 <= #[trigger] t[i] <= MAX_MICROS by {
            assert(t[i] == s[i]);
        }
        lemma_sum_i128_bounds(t, 0, MAX_MICROS as int);
        assert(k * MAX_MICROS <= u64::MAX * MAX_MICROS) by (nonlinear_arith)
            requires
                0 <= k <= u64::MAX,
        ;
    }
}

/// Law: what a satellite measured can always be summed up, as long as no list of samples has
/// outgrown 64 bits and the processor times still fit together.
pub proof fn law_always_summarizable(v: OcsView)
    requires
        v.wf(),
        v.sensor_latency_us.len() <= u64::MAX,
        v.sensor_drift_us.len() <= u64::MAX,
        v.sensor_jitter_us.len() <= u64::MAX,
        v.schedule_drift_us.len() <= u64::MAX,
        v.task_jitter_us.len() <= u64::MAX,
        v.tx_latency_us.len() <= u64::MAX,
        v.fault_recovery_us.len() <= u64::MAX,
        v.command_response_latency_us.len() <= u64::MAX,
        v.cpu_active_us + v.cpu_idle_us <= u128::MAX,
    ensures
        summarizable(v),
{
    lemma_micros_fit(v.sensor_latency_us);
    lemma_micros_fit(v.tx_latency_us);
    lemma_micros_fit(v.fault_recovery_us);
    lemma_micros_fit(v.command_response_latency_us);
    lemma_signed_micros_summable(v.sensor_drift_us);
    lemma_signed_micros_summable(v.sensor_jitter_us);
    lemma_signed_micros_summable(v.schedule_drift_us);
    lemma_signed_micros_summable(v.task_jitter_us);
}

} // verus!
