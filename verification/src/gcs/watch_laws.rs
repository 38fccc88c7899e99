//! What the watchdog and the monitor do, field by field.

use vstd::prelude::*;

use crate::gcs::backlog::CommandEntryView;
use crate::gcs::fault::{
    after_recovery, after_watchdog, recovers_in_time, watchdog_after, watchdog_report, Watchdog,
};
use crate::gcs::monitor::{
    after_busy, after_cpu_sample, after_load_sample, cpu_sample, reportable, reports_backlog, BacklogLine,
    FinalSummary, Report,
};
use crate::gcs::state::{GcsView, MetricsView};
use crate::gcs::telemetry::{after_packets, law_packet_history, packets_fit, Receipt};
use crate::stats::{is_stats_i128, mean_of, mean_of_signed, sum_u128, sum_u64, summable};
use crate::time::{millis_between, Duration, Instant};

verus! {

/// Law: the watchdog acts on a fault by how long it has been known. After more than 100
/// milliseconds it raises an alert, once. After more than 180 the fault is cleared and its time
/// noted, in time up to 200. Clearing it later aborts the mission, once until there is no fault.
/// Without a fault, or without its time, nothing happens to the state.
pub proof fn law_watchdog(v: GcsView, w: Watchdog, now: Instant)
    ensures
        ({
            let report = watchdog_report(v.metrics, w, now);
            let next = watchdog_after(v.metrics, w, now);
            let after = after_watchdog(v, w, now);
            let known = v.metrics.active_fault is Some && v.metrics.fault_detected_at is Some;
            let ms = millis_between(now, v.metrics.fault_detected_at->0);
            let aborts = ms > 200 && !w.abort_logged;
            &&& v.metrics.active_fault is None ==> !next.alerted && !next.abort_logged
            &&& v.metrics.active_fault is Some && !known ==> next == w
            &&& !known ==> report is None && after == v
            &&& known ==> {
                &&& report matches Some(r) && r.elapsed_ms == ms && r.alert == (ms > 100
                    && !w.alerted) && r.abort == aborts && (r.recovery is NotDue <==> ms <= 180)
                    && (r.recovery is Succeeded <==> 180 < ms <= 200) && (r.recovery is Failed
                    <==> ms > 200)
                &&& ms <= 180 ==> after == v && next.alerted == (w.alerted || ms > 100)
                    && next.abort_logged == w.abort_logged
                &&& ms > 180 ==> {
                    &&& !after.safe_mode
                    &&& after.metrics.active_fault is None
                    &&& after.metrics.fault_detected_at is None
                    &&& after.metrics.fault_recovery_ms == v.metrics.fault_recovery_ms.push(
                        ms as u128,
                    )
                    &&& aborts ==> after.metrics.mission_abort_count
                        == v.metrics.mission_abort_count + 1
                    &&& !aborts ==> after.metrics.mission_abort_count
                        == v.metrics.mission_abort_count
                    &&& !next.alerted
                    &&& next.abort_logged == (w.abort_logged || aborts)
                    &&& after == (GcsView {
                        safe_mode: false,
                        metrics: MetricsView {
                            active_fault: None,
                            fault_detected_at: None,
                            fault_recovery_ms: after.metrics.fault_recovery_ms,
                            mission_abort_count: after.metrics.mission_abort_count,
                            ..v.metrics
                        },
                        ..v
                    })
                }
            }
        }),
{
}

/// Law: clearing a fault lifts the interlock, whether it was in time, within 200 milliseconds, or
/// not, and notes how long the fault was known.
pub proof fn law_recovery(v: GcsView, ms: u64)
    ensures
        recovers_in_time(ms) <==> ms < 201,
        after_recovery(v, ms) == (GcsView {
            safe_mode: false,
            metrics: MetricsView {
                active_fault: None,
                fault_detected_at: None,
                fault_recovery_ms: v.metrics.fault_recovery_ms.push(ms as u128),
                ..v.metrics
            },
            ..v
        }),
{
}

/// Law: busy time is added up in whole milliseconds. A sample over a millisecond or more takes all
/// of it with the time that passed, and leaves none; a shorter one changes nothing.
pub proof fn law_busy_time(v: GcsView, since: Instant, now: Instant, elapsed: Duration)
    requires
        v.cpu_total_active_ms <= u64::MAX,
    ensures
        ({
            let busy = after_busy(v, since, now);
            let after = after_cpu_sample(v, elapsed);
            &&& busy.cpu_total_active_ms == v.cpu_total_active_ms + millis_between(now, since)
            &&& busy.cpu_busy_start == Some(now)
            &&& busy == (GcsView {
                cpu_total_active_ms: busy.cpu_total_active_ms,
                cpu_busy_start: busy.cpu_busy_start,
                ..v
            })
            &&& elapsed.nanos < 1_000_000 ==> after == v && cpu_sample(v, elapsed) is None
            &&& elapsed.nanos >= 1_000_000 ==> {
                &&& after.cpu_total_active_ms == 0
                &&& cpu_sample(v, elapsed) matches Some(s) && s.active_ms == v.cpu_total_active_ms
                    && 0 <= elapsed.nanos - 1_000_000 * s.elapsed_ms < 1_000_000
                    && after.metrics.cpu_usage_samples == v.metrics.cpu_usage_samples.push(s)
                &&& after == (GcsView {
                    cpu_total_active_ms: 0,
                    metrics: MetricsView {
                        cpu_usage_samples: after.metrics.cpu_usage_samples,
                        ..v.metrics
                    },
                    ..v
                })
            }
        }),
{
}

/// Law: the load is the number of commands in the backlog, and nothing else changes.
pub proof fn law_load(v: GcsView)
    ensures
        after_load_sample(v) == (GcsView {
            metrics: MetricsView {
                system_load_samples: v.metrics.system_load_samples.push(
                    v.cmd_backlog.dom().len() as i128,
                ),
                ..v.metrics
            },
            ..v
        }),
{
}

/// Law: each figure of a report is that of the samples it is named after.
pub proof fn law_report_figures(r: Report, v: GcsView)
    requires
        r.is_of(v),
    ensures
        is_stats_i128(v.metrics.latency_samples, r.latency_ms),
        is_stats_i128(v.metrics.jitter_samples, r.jitter_ms),
        is_stats_i128(v.metrics.drift_samples, r.drift_ms),
        is_stats_i128(v.uplink_jitter, r.uplink_jitter_ms),
        is_stats_i128(v.metrics.scheduler_drift_samples, r.scheduler_drift_ms),
        is_stats_i128(v.metrics.command_response_latency_ms, r.command_response_ms),
        is_stats_i128(v.metrics.system_load_samples, r.system_load),
        r.interlock_avg_us == mean_of(v.metrics.interlock_latency_us),
        r.telemetry_backlog_total == sum_u64(v.metrics.telemetry_backlog_samples),
        r.fault_recovery_avg_ms == mean_of(v.metrics.fault_recovery_ms),
        r.backlog_len == v.cmd_backlog.dom().len(),
{
}

proof fn lemma_one_result(s: Seq<i128>, a: (i128, i128, i128), b: (i128, i128, i128))
    requires
        is_stats_i128(s, a),
        is_stats_i128(s, b),
    ensures
        a == b,
{
    if s.len() > 0 {
        let i = choose|i: int| 0 <= i < s.len() && s[i] == a.0;
        let j = choose|j: int| 0 <= j < s.len() && s[j] == b.0;
        let k = choose|k: int| 0 <= k < s.len() && s[k] == a.2;
        let l = choose|l: int| 0 <= l < s.len() && s[l] == b.2;
        assert(b.0 <= s[i] && a.0 <= s[j]);
        assert(s[k] <= b.2 && s[l] <= a.2);
    }
}

/// Law: a figure of a report changes with the samples it is named after and with no other. Two
/// states with the same jitter samples have the same jitter figures, and so with the others.
pub proof fn law_report_is_separate(r: Report, v: GcsView, q: Report, w: GcsView)
    requires
        r.is_of(v),
        q.is_of(w),
    ensures
        v.metrics.latency_samples == w.metrics.latency_samples ==> r.latency_ms == q.latency_ms,
        v.metrics.jitter_samples == w.metrics.jitter_samples ==> r.jitter_ms == q.jitter_ms,
        v.metrics.drift_samples == w.metrics.drift_samples ==> r.drift_ms == q.drift_ms,
        v.uplink_jitter == w.uplink_jitter ==> r.uplink_jitter_ms == q.uplink_jitter_ms,
        v.metrics.scheduler_drift_samples == w.metrics.scheduler_drift_samples
            ==> r.scheduler_drift_ms == q.scheduler_drift_ms,
        v.metrics.command_response_latency_ms == w.metrics.command_response_latency_ms
            ==> r.command_response_ms == q.command_response_ms,
        v.metrics.system_load_samples == w.metrics.system_load_samples ==> r.system_load
            == q.system_load,
{
    if v.metrics.latency_samples == w.metrics.latency_samples {
        lemma_one_result(v.metrics.latency_samples, r.latency_ms, q.latency_ms);
    }
    if v.metrics.jitter_samples == w.metrics.jitter_samples {
        lemma_one_result(v.metrics.jitter_samples, r.jitter_ms, q.jitter_ms);
    }
    if v.metrics.drift_samples == w.metrics.drift_samples {
        lemma_one_result(v.metrics.drift_samples, r.drift_ms, q.drift_ms);
    }
    if v.uplink_jitter == w.uplink_jitter {
        lemma_one_result(v.uplink_jitter, r.uplink_jitter_ms, q.uplink_jitter_ms);
    }
    if v.metrics.scheduler_drift_samples == w.metrics.scheduler_drift_samples {
        lemma_one_result(
            v.metrics.scheduler_drift_samples,
            r.scheduler_drift_ms,
            q.scheduler_drift_ms,
        );
    }
    if v.metrics.command_response_latency_ms == w.metrics.command_response_latency_ms {
        lemma_one_result(
            v.metrics.command_response_latency_ms,
            r.command_response_ms,
            q.command_response_ms,
        );
    }
    if v.metrics.system_load_samples == w.metrics.system_load_samples {
        lemma_one_result(v.metrics.system_load_samples, r.system_load, q.system_load);
    }
}

/// Law: the jitter figures of any history of packets are not negative, and each jitter lies
/// between the least and the greatest of them.
pub proof fn law_reported_jitter(r: Report, v: GcsView, h: Seq<Receipt>, period: int, i: int)
    requires
        r.is_of(v),
        h.len() > 0,
        packets_fit(h, period),
        v.metrics.jitter_samples == after_packets(h, period).jitter_samples,
    ensures
        0 <= r.jitter_ms.0 <= r.jitter_ms.1 <= r.jitter_ms.2,
        0 <= i < v.metrics.jitter_samples.len() ==> r.jitter_ms.0 <= v.metrics.jitter_samples[i]
            <= r.jitter_ms.2,
{
    law_packet_history(h, period);
    let s = v.metrics.jitter_samples;
    if s.len() > 0 {
        let k = choose|k: int| 0 <= k < s.len() && s[k] == r.jitter_ms.0;
        assert(after_packets(h, period).jitter_samples[k] >= 0);
    }
    crate::stats::law_mean_between(s, r.jitter_ms);
}

/// Law: each mean that closes a run is that of the samples it is named after.
pub proof fn law_final_means(s: FinalSummary, v: GcsView)
    requires
        s.is_of(v),
    ensures
        s.fault_recovery_avg_ms == mean_of(v.metrics.fault_recovery_ms),
        s.interlock_avg_us == mean_of(v.metrics.interlock_latency_us),
        s.command_response_avg_ms == mean_of_signed(v.metrics.command_response_latency_ms),
{
}

/// Law: a report of the backlog has a line for every command, and one only. It holds the command,
/// how long it has been there and how long it is overdue, in whole milliseconds.
pub proof fn law_backlog_lines(
    m: Map<u64, CommandEntryView>,
    lines: Seq<BacklogLine>,
    now: Instant,
    id: u64,
    i: int,
    j: int,
)
    requires
        reports_backlog(m, lines, now),
    ensures
        m.contains_key(id) ==> exists|k: int| 0 <= k < lines.len() && (#[trigger] lines[k]).id == id,
        0 <= i < lines.len() ==> m.contains_key(lines[i].id) && lines[i].entry@ == m[lines[i].id]
            && lines[i].overdue_ms == millis_between(now, lines[i].entry.deadline_instant)
            && lines[i].age_ms == millis_between(now, lines[i].entry.created_instant),
        0 <= i < j < lines.len() ==> lines[i].id != lines[j].id,
{
    let items = lines.map_values(|l: BacklogLine| (l.id, l.entry));
    if m.contains_key(id) {
        let k = choose|k: int| 0 <= k < items.len() && (#[trigger] items[k]).0 == id;
        assert(lines[k].id == id);
    }
    if 0 <= i < lines.len() {
        assert(items[i].0 == lines[i].id);
        assert(items[i].1 == lines[i].entry);
    }
    if 0 <= i < j < lines.len() {
        assert(items[i].0 != items[j].0);
        assert(items[j].0 == lines[j].id);
    }
}

/// Law: a ground station starts outside of safe mode, with an empty backlog, nothing received and
/// nothing measured.
pub proof fn law_start()
    ensures
        ({
            let v = GcsView::initial();
            let m = v.metrics;
            &&& !v.safe_mode
            &&& v.cmd_backlog == Map::<u64, CommandEntryView>::empty()
            &&& v.uplink_jitter.len() == 0 && v.last_cmd_dispatch is None
            &&& v.telemetry_processing_start is None && v.telemetry_backlog_count == 0
            &&& v.cpu_busy_start is None && v.cpu_total_active_ms == 0
            &&& m.last_seq is None && m.first_seq is None
            &&& m.last_recv_instant is None && m.first_recv_instant is None
            &&& m.active_fault is None && m.fault_detected_at is None
            &&& m.consecutive_failures == 0 && m.total_packets == 0 && m.missed_deadlines == 0
            &&& m.missing_packets_count == 0 && m.urgent_command_success == 0
            &&& m.urgent_command_failures == 0 && m.mission_abort_count == 0
            &&& m.latency_samples.len() == 0 && m.jitter_samples.len() == 0
            &&& m.drift_samples.len() == 0 && m.scheduler_drift_samples.len() == 0
            &&& m.command_response_latency_ms.len() == 0 && m.fault_recovery_ms.len() == 0
            &&& m.system_load_samples.len() == 0 && m.interlock_latency_us.len() == 0
            &&& m.telemetry_backlog_samples.len() == 0 && m.cpu_usage_samples.len() == 0
        }),
{
}

/// Law: what is kept on the ground. Each command in the backlog is urgent and stands under its
/// number, each packet left a latency and a drift, and each but the first a jitter.
pub proof fn law_kept_on_ground(v: GcsView, id: u64)
    requires
        v.wf(),
    ensures
        v.cmd_backlog.contains_key(id) ==> v.cmd_backlog[id].id == id && "Urgent"@.is_prefix_of(
            v.cmd_backlog[id].cmd_debug,
        ),
        v.metrics.latency_samples.len() == v.metrics.total_packets,
        v.metrics.drift_samples.len() == v.metrics.total_packets,
        v.metrics.total_packets > 0 ==> v.metrics.jitter_samples.len() + 1
            == v.metrics.total_packets && v.metrics.first_seq is Some && v.metrics.last_seq is Some
            && v.metrics.first_recv_instant is Some && v.metrics.last_recv_instant is Some,
        v.metrics.total_packets == 0 ==> v.metrics.jitter_samples.len() == 0
            && v.metrics.first_seq is None && v.metrics.last_seq is None,
{
}

/// Law: a report can be made just where each list of samples that it is about can be added up.
pub proof fn law_reportable(v: GcsView)
    ensures
        reportable(v) <==> summable(v.metrics.latency_samples) && summable(
            v.metrics.jitter_samples,
        ) && summable(v.metrics.drift_samples) && summable(v.uplink_jitter) && summable(
            v.metrics.scheduler_drift_samples,
        ) && summable(v.metrics.command_response_latency_ms) && summable(
            v.metrics.system_load_samples,
        ) && sum_u128(v.metrics.interlock_latency_us)
            <= 0xffff_ffff_ffff_ffff_ffff_ffff_ffff_ffff && sum_u64(
            v.metrics.telemetry_backlog_samples,
        ) <= 0xffff_ffff_ffff_ffff && sum_u128(v.metrics.fault_recovery_ms)
            <= 0xffff_ffff_ffff_ffff_ffff_ffff_ffff_ffff,
{
}

} // verus!
