//! What faults, commands and telemetry do to the satellite, field by field.

use vstd::prelude::*;

use crate::satellite::command::{after_command, after_response, answer};
use crate::satellite::fault::{
    after_injection, after_monitoring, after_turn, recovery_step, turn_after, FaultInjector,
};
use crate::satellite::state::{FillRatio, OcsView};
use crate::satellite::summary::MissionSummary;
use crate::satellite::telemetry::{after_sent, after_take, blacks_out, has_blacked_out, next_packet};
use crate::shared::{CommandAckView, CommandView, TelemetryTypeView};
use crate::stats::{is_stats_i128, is_stats_u128};
use crate::time::{micros_between, Duration, Instant};

verus! {

/// Law: an injected fault is active from now on, puts the satellite in safe mode, waits to be
/// reported and is counted. Late power data sets off a delay, corrupted data a corruption.
pub proof fn law_injection(v: OcsView, delayed: bool, now: Instant)
    ensures
        ({
            let after = after_injection(v, delayed, now);
            &&& after.faults_injected == v.faults_injected + 1
            &&& after.safe_mode
            &&& after.active_fault_since == Some(now)
            &&& after.fault_telemetry_pending
            &&& delayed ==> after.active_fault == Some("fault_injected:delayed_power_data"@)
                && after.delayed_power_pending && after.corrupt_next_sample
                == v.corrupt_next_sample
            &&& !delayed ==> after.active_fault == Some("fault_injected:corrupted_sensor_data"@)
                && after.corrupt_next_sample && after.delayed_power_pending
                == v.delayed_power_pending
            &&& after == (OcsView {
                faults_injected: after.faults_injected,
                safe_mode: true,
                active_fault: after.active_fault,
                active_fault_since: Some(now),
                fault_telemetry_pending: true,
                delayed_power_pending: after.delayed_power_pending,
                corrupt_next_sample: after.corrupt_next_sample,
                ..v
            })
        }),
{
}

/// Law: an active fault is left alone for 120 milliseconds and lifted after them, with its
/// duration noted. One that has lasted for more than 200 aborts the mission, once, and stays.
pub proof fn law_monitoring(v: OcsView, now: Instant)
    ensures
        ({
            let after = after_monitoring(v, now);
            let step = recovery_step(v, now);
            let since = v.active_fault_since->0;
            let lasted: int = if now.nanos >= since.nanos {
                now.nanos - since.nanos
            } else {
                0
            };
            let active = v.active_fault is Some && v.active_fault_since is Some;
            &&& !active || lasted <= 120_000_000 ==> step is Wait && after == v
            &&& active && 120_000_000 < lasted <= 200_000_000 ==> {
                &&& step is Recovered
                &&& !after.safe_mode
                &&& after.active_fault is None
                &&& after.active_fault_since is None
                &&& !after.fault_telemetry_pending
                &&& after.fault_responses == v.fault_responses + 1
                &&& after.fault_recovery_us == v.fault_recovery_us.push((lasted / 1_000) as u128)
                &&& after == (OcsView {
                    safe_mode: false,
                    active_fault: None,
                    active_fault_since: None,
                    fault_telemetry_pending: false,
                    fault_responses: after.fault_responses,
                    fault_recovery_us: after.fault_recovery_us,
                    ..v
                })
            }
            &&& active && lasted > 200_000_000 && !v.mission_abort ==> step is Aborted && after
                == (OcsView { mission_abort: true, safe_mode: true, ..v })
            &&& active && lasted > 200_000_000 && v.mission_abort ==> step is AlreadyAborted
                && after == v
        }),
{
}

/// Law: each command is counted and answered once. An urgent one is rejected in safe mode and
/// accepted with its number otherwise; the status is reported as it is; anything else is
/// accepted, a request for a packet with the number of that packet. Only clearing a fault changes
/// more than the counts: the fault is gone, and how long it had been active is noted.
pub proof fn law_command(v: OcsView, cmd: CommandView, now: Instant)
    ensures
        ({
            let after = after_command(v, cmd, now);
            let ack = answer(v, cmd, now);
            let rejected = cmd is Urgent && v.safe_mode;
            let cleared = cmd is ClearFault && v.active_fault_since is Some;
            &&& ack is Rejected <==> rejected
            &&& ack is StatusReport <==> cmd is QueryStatus
            &&& cmd matches CommandView::Urgent { id, body } ==> (rejected
                ==> ack->Rejected_id == id) && (!rejected ==> ack == (CommandAckView::Accepted {
                id,
            }))
            &&& cmd matches CommandView::ReRequestTelemetry { seq } ==> ack
                == (CommandAckView::Accepted { id: seq })
            &&& cmd is NoOp || cmd is ClearFault ==> ack == (CommandAckView::Accepted { id: 0 })
            &&& cmd is QueryStatus ==> ack == (CommandAckView::StatusReport {
                safe_mode: v.safe_mode,
                active_fault: v.active_fault,
                uptime_secs: (micros_between(now, v.start) / 1_000_000) as u64,
            })
            &&& after.commands_received == v.commands_received + 1
            &&& rejected ==> after.ack_rejected == v.ack_rejected + 1 && after.ack_ok == v.ack_ok
            &&& !rejected ==> after.ack_ok == v.ack_ok + 1 && after.ack_rejected
                == v.ack_rejected
            &&& cleared ==> after.fault_responses == v.fault_responses + 1
                && after.fault_recovery_us == v.fault_recovery_us.push(
                micros_between(now, v.active_fault_since->0) as u128,
            )
            &&& !cleared ==> after.fault_responses == v.fault_responses
                && after.fault_recovery_us == v.fault_recovery_us
            &&& cmd is ClearFault ==> !after.safe_mode && after.active_fault is None
                && after.active_fault_since is None && !after.fault_telemetry_pending
            &&& !(cmd is ClearFault) ==> after.safe_mode == v.safe_mode && after.active_fault
                == v.active_fault && after.active_fault_since == v.active_fault_since
                && after.fault_telemetry_pending == v.fault_telemetry_pending
            &&& after == (OcsView {
                commands_received: after.commands_received,
                ack_ok: after.ack_ok,
                ack_rejected: after.ack_rejected,
                fault_responses: after.fault_responses,
                fault_recovery_us: after.fault_recovery_us,
                safe_mode: after.safe_mode,
                active_fault: after.active_fault,
                active_fault_since: after.active_fault_since,
                fault_telemetry_pending: after.fault_telemetry_pending,
                ..v
            })
        }),
{
}

/// Law: the time that an answer took is noted in whole microseconds, and nothing else changes.
pub proof fn law_response(v: OcsView, latency: Duration)
    ensures
        ({
            let after = after_response(v, latency);
            &&& after.command_response_latency_us.len() == v.command_response_latency_us.len() + 1
            &&& after.command_response_latency_us.drop_last() == v.command_response_latency_us
            &&& 0 <= latency.nanos - 1_000 * after.command_response_latency_us.last() < 1_000
            &&& after == (OcsView {
                command_response_latency_us: after.command_response_latency_us,
                ..v
            })
        }),
{
    let after = after_response(v, latency);
    assert(after.command_response_latency_us.drop_last() =~= v.command_response_latency_us);
}

/// Law: a packet carries its number and its time. A fault that waits is reported first, without
/// a payload. Otherwise the packet that has waited longest is sent as it is, and where none waits,
/// eight zeros whose type goes round with the number.
pub proof fn law_next_packet(v: OcsView, seq: u64, ts: i64)
    ensures
        ({
            let p = next_packet(v, seq, ts);
            let fault = v.fault_telemetry_pending && v.active_fault is Some;
            &&& p.seq == seq
            &&& p.sent_ts_millis == ts
            &&& fault ==> p.ttype == TelemetryTypeView::Fault(v.active_fault->0)
                && p.payload.len() == 0
            &&& !fault && v.tx_queue.len() > 0 ==> p.ttype == v.tx_queue[0].ttype@ && p.payload
                == v.tx_queue[0].payload@
            &&& !fault && v.tx_queue.len() == 0 ==> {
                &&& p.payload.len() == 8
                &&& forall|i: int| 0 <= i < 8 ==> #[trigger] p.payload[i] == 0
                &&& p.ttype is Thermal <==> seq % 3 == 0
                &&& p.ttype is Attitude <==> seq % 3 == 1
                &&& p.ttype is Power <==> seq % 3 == 2
            }
        }),
{
}

/// Law: taking a packet takes the one that has waited longest out of the queue, notes how long it
/// waited, counts a reported fault and leaves none to report. Nothing else changes.
pub proof fn law_take(v: OcsView, now: Instant)
    ensures
        ({
            let after = after_take(v, now);
            let fault = v.fault_telemetry_pending && v.active_fault is Some;
            &&& !after.fault_telemetry_pending
            &&& fault ==> after.fault_packets == v.fault_packets + 1
            &&& !fault ==> after.fault_packets == v.fault_packets
            &&& v.tx_queue.len() > 0 ==> seq![v.tx_queue[0]] + after.tx_queue == v.tx_queue
                && after.tx_latency_us == v.tx_latency_us.push(
                micros_between(now, v.tx_queue[0].enqueued_at) as u128,
            )
            &&& v.tx_queue.len() == 0 ==> after.tx_queue == v.tx_queue && after.tx_latency_us
                == v.tx_latency_us
            &&& after == (OcsView {
                fault_telemetry_pending: false,
                fault_packets: after.fault_packets,
                tx_queue: after.tx_queue,
                tx_latency_us: after.tx_latency_us,
                ..v
            })
        }),
{
    if v.tx_queue.len() > 0 {
        assert(seq![v.tx_queue[0]] + after_take(v, now).tx_queue =~= v.tx_queue);
    }
}

/// Law: the link blacks out once it has worked for ninety seconds, and not a second time. A
/// packet that was sent is counted, and nothing else changes.
pub proof fn law_blackout_and_count(v: OcsView, fired: bool, running: Duration)
    ensures
        blacks_out(fired, running) <==> !fired && running.nanos >= 90_000_000_000,
        after_sent(v).packets_sent == v.packets_sent + 1,
        after_sent(v) == (OcsView { packets_sent: after_sent(v).packets_sent, ..v }),
{
}

/// Law: a fault that is noticed is active from then on, puts the satellite in safe mode and waits
/// to be reported; lifting it undoes that. A response is counted with its time.
pub proof fn law_fault_state(v: OcsView, text: Seq<char>, now: Instant, us: u128)
    ensures
        v.with_fault(text, now) == (OcsView {
            safe_mode: true,
            active_fault: Some(text),
            active_fault_since: Some(now),
            fault_telemetry_pending: true,
            ..v
        }),
        v.without_fault() == (OcsView {
            safe_mode: false,
            active_fault: None,
            active_fault_since: None,
            fault_telemetry_pending: false,
            ..v
        }),
        v.with_response(us).fault_responses == v.fault_responses + 1,
        v.with_response(us).fault_recovery_us == v.fault_recovery_us.push(us),
        !v.safe_mode && v.active_fault is None && v.active_fault_since is None
            && !v.fault_telemetry_pending ==> v.with_fault(text, now).without_fault() == v,
{
}

/// Law: a buffer of 64 places is nearly full from 52 filled places on, and any buffer just where
/// more than eight tenths of it are filled.
pub proof fn law_nearly_full(f: FillRatio)
    ensures
        f.capacity == 64 ==> (f.nearly_full() <==> f.filled >= 52),
        f.nearly_full() <==> 10 * f.filled > 8 * f.capacity,
{
}

/// Law: a satellite starts with empty buffers, no fault, no measurement and all counts at zero.
pub proof fn law_launch(now: Instant)
    ensures
        ({
            let v = OcsView::initial(now);
            &&& !v.safe_mode && !v.degraded_mode && !v.mission_abort
            &&& v.active_fault is None && v.active_fault_since is None
            &&& v.start == now
            &&& v.sensor_buffer.len() == 0 && v.tx_queue.len() == 0
            &&& v.packets_sent == 0 && v.fault_packets == 0 && v.dropped_packets == 0
            &&& v.jitter_injections == 0 && v.commands_received == 0
            &&& v.ack_ok == 0 && v.ack_rejected == 0
            &&& v.sensor_latency_us.len() == 0 && v.sensor_drift_us.len() == 0
            &&& v.sensor_jitter_us.len() == 0 && v.critical_jitter_violations == 0
            &&& v.thermal_missed_cycles == 0 && v.safety_alerts == 0
            &&& v.schedule_drift_us.len() == 0 && v.task_jitter_us.len() == 0
            &&& v.deadline_violations == 0 && v.thermal_preemptions == 0
            &&& v.cpu_active_us == 0 && v.cpu_idle_us == 0
            &&& v.tx_latency_us.len() == 0 && v.buffer_fill_rates.len() == 0
            &&& v.tx_fill_rates.len() == 0
            &&& v.downlink_init_missed == 0 && v.downlink_prep_deadline_missed == 0
            &&& v.faults_injected == 0 && v.fault_responses == 0
            &&& v.fault_recovery_us.len() == 0
            &&& !v.delayed_power_pending && !v.corrupt_next_sample && !v.fault_telemetry_pending
            &&& v.command_response_latency_us.len() == 0
        }),
{
}

/// Law: what is kept on board. Buffers hold no more than 64, an active fault holds the satellite
/// in safe mode and has a time, only an active fault waits to be reported, each command was
/// answered once, each response has its time, and neither drift nor jitter is negative.
pub proof fn law_kept_on_board(v: OcsView, i: int)
    requires
        v.wf(),
    ensures
        v.sensor_buffer.len() <= 64,
        v.tx_queue.len() <= 64,
        v.active_fault is Some ==> v.safe_mode && v.active_fault_since is Some,
        v.active_fault_since is Some ==> v.active_fault is Some,
        v.fault_telemetry_pending ==> v.active_fault is Some,
        v.commands_received == v.ack_ok + v.ack_rejected,
        v.fault_responses == v.fault_recovery_us.len(),
        v.fault_responses <= v.faults_injected + v.safety_alerts,
        v.active_fault is Some ==> v.fault_responses < v.faults_injected + v.safety_alerts,
        0 <= i < v.sensor_jitter_us.len() ==> v.sensor_jitter_us[i] >= 0,
        0 <= i < v.sensor_drift_us.len() ==> v.sensor_drift_us[i] >= 0,
        0 <= i < v.schedule_drift_us.len() ==> v.schedule_drift_us[i] >= 0,
        0 <= i < v.task_jitter_us.len() ==> v.task_jitter_us[i] >= 0,
{
}

/// Law: each figure of a mission summary is that of the samples it is named after, and depends on
/// no other samples.
pub proof fn law_summary_figures(s: MissionSummary, v: OcsView)
    requires
        s.is_of(v),
    ensures
        is_stats_u128(v.sensor_latency_us, s.sensor_latency_us),
        is_stats_i128(v.sensor_drift_us, s.sensor_drift_us),
        is_stats_i128(v.sensor_jitter_us, s.sensor_jitter_us),
        is_stats_i128(v.schedule_drift_us, s.schedule_drift_us),
        is_stats_i128(v.task_jitter_us, s.task_jitter_us),
        is_stats_u128(v.tx_latency_us, s.tx_latency_us),
        is_stats_u128(v.fault_recovery_us, s.fault_recovery_us),
        is_stats_u128(v.command_response_latency_us, s.command_response_latency_us),
        s.cpu_active_us == v.cpu_active_us,
        s.cpu_total_us == v.cpu_active_us + v.cpu_idle_us,
        v.wf() ==> s.sensor_drift_us.0 >= 0 && s.sensor_jitter_us.0 >= 0
            && s.schedule_drift_us.0 >= 0 && s.task_jitter_us.0 >= 0,
{
}

/// Law: the two faults take turns. Of two injections in a row one is late power data and one
/// corrupted data, and after both it is the first one's turn again.
pub proof fn law_faults_take_turns(f: FaultInjector, v: OcsView, first: Instant, second: Instant)
    ensures
        ({
            let one = after_turn(f, v, first);
            let two = after_turn(turn_after(f), one, second);
            &&& turn_after(turn_after(f)) == f
            &&& f.delayed_fault ==> one.active_fault == Some(
                "fault_injected:delayed_power_data"@,
            ) && two.active_fault == Some("fault_injected:corrupted_sensor_data"@)
            &&& !f.delayed_fault ==> one.active_fault == Some(
                "fault_injected:corrupted_sensor_data"@,
            ) && two.active_fault == Some("fault_injected:delayed_power_data"@)
            &&& two.delayed_power_pending && two.corrupt_next_sample
            &&& two.faults_injected == v.faults_injected + 2
        }),
{
}

/// Law: once the link has blacked out it never does so again.
pub proof fn law_one_blackout(fired: bool, running: Duration, later: Duration)
    ensures
        blacks_out(fired, running) ==> has_blacked_out(fired, running),
        has_blacked_out(fired, running) ==> !blacks_out(has_blacked_out(fired, running), later),
        !fired && running.nanos < 90_000_000_000 ==> !has_blacked_out(fired, running),
{
}

} // verus!
