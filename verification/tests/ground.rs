//! The ground station, alone and together with the satellite.

use groundlink::gcs::backlog::Backlog;
use groundlink::gcs::fault::{perform_auto_recovery, Recovery, Watchdog};
use groundlink::gcs::monitor::{
    backlog_report, can_report, final_summary, measure_cpu_usage, report, sample_load, stats,
    CpuMeter,
};
use groundlink::gcs::scheduler::{
    reject_command, select_next_command, CommandScheduler, TickOutcome,
};
use groundlink::gcs::state::{CommandEntry, CpuSample, GcsState};
use groundlink::gcs::telemetry::{
    begin_receive, can_take_packet, check_decode_deadline, end_receive, handle_fault_packet,
    handle_timeout, note_arrival, note_interlock, note_wait, packet_decoded, packet_latency_ms, re_request,
    record_interlock_latency, update_metrics, Arrival, FaultNotice, PacketReport, SeqRange,
};
use groundlink::gcs::uplink::{
    backlog_ids, check_dispatch_deadline, expire_backlog, finish_retry, handle_ack, on_answer,
    on_dispatch_failure, park_in_backlog, record_uplink_jitter, retry_command, write_urgent_body,
    write_urgent_text, DispatchNote,
};
use groundlink::satellite::command::process_command;
use groundlink::satellite::fault::inject_fault;
use groundlink::satellite::state::OcsState;
use groundlink::satellite::telemetry::take_packet;
use groundlink::shared::{Command, CommandAck, TelemetryPacket, TelemetryType};
use groundlink::time::{Duration, Instant};

const MS: u64 = 1_000_000;

fn at(ms: u64) -> Instant {
    Instant { nanos: ms * MS }
}

fn span(ms: u64) -> Duration {
    Duration { nanos: ms * MS }
}

fn urgent(id: u64) -> Command {
    Command::Urgent { id, body: write_urgent_body(id) }
}

fn packet(seq: u64, ttype: TelemetryType) -> TelemetryPacket {
    TelemetryPacket { seq, ttype, sent_ts_millis: 0, payload: vec![] }
}

fn fault(seq: u64, desc: &str) -> TelemetryPacket {
    packet(seq, TelemetryType::Fault(desc.to_string()))
}

fn entry(id: u64, created: u64) -> CommandEntry {
    CommandEntry {
        id,
        cmd_debug: "Urgent".to_string(),
        deadline_instant: at(created),
        priority: 1,
        created_instant: at(created),
        rejection_reason: None,
    }
}

fn receive(state: &mut GcsState, seq: u64, ms: u64) -> PacketReport {
    update_metrics(&packet(seq, TelemetryType::Power), at(ms), 7, 100, state)
}

#[test]
fn the_backlog_is_a_map() {
    let mut b = Backlog::new();
    assert_eq!(b.len(), 0);
    assert!(!b.contains_key(1));
    assert!(b.get(1).is_none());
    b.insert(1, entry(1, 0));
    b.insert(2, entry(2, 5));
    b.insert(1, entry(1, 9));
    assert_eq!(b.len(), 2);
    assert!(b.contains_key(1));
    assert_eq!(b.get(1).unwrap().created_instant, at(9));
    let mut items: Vec<(u64, u64)> = b.items().iter().map(|e| (e.0, e.1.id)).collect();
    items.sort();
    assert_eq!(items, vec![(1, 1), (2, 2)]);
    assert!(b.remove(1));
    assert!(!b.remove(1));
    assert!(!b.contains_key(1));
    assert_eq!(b.len(), 1);
}

#[test]
fn entries_live_for_thirty_seconds() {
    let mut b = Backlog::new();
    b.insert(1, entry(1, 0));
    b.insert(2, entry(2, 1));
    assert!(entry(1, 0).is_fresh(at(29_999)));
    assert!(!entry(1, 0).is_fresh(at(30_000)));
    b.retain_fresh(at(30_000));
    assert!(!b.contains_key(1));
    assert!(b.contains_key(2));
    b.retain_fresh(at(30_000));
    assert_eq!(b.len(), 1);
}

#[test]
fn a_new_station_is_at_rest() {
    let s = GcsState::new();
    assert!(!s.safe_mode);
    assert_eq!(s.metrics.total_packets, 0);
    assert_eq!(s.metrics.last_seq, None);
    assert_eq!(s.cmd_backlog.len(), 0);
}

#[test]
fn urgent_texts_are_those_of_debug() {
    let cmd = urgent(25);
    assert_eq!(write_urgent_body(25), "attitude-correct-25");
    assert_eq!(
        write_urgent_text(25, &"attitude-correct-25".to_string()),
        format!("{:?}", cmd)
    );
    let odd = "a\"b\n".to_string();
    assert_eq!(
        write_urgent_text(0, &odd),
        format!("{:?}", Command::Urgent { id: 0, body: odd.clone() })
    );
}

#[test]
fn uplink_jitter_is_the_time_between_commands() {
    let mut s = GcsState::new();
    record_uplink_jitter(&mut s, at(10));
    assert!(s.uplink_jitter.is_empty());
    record_uplink_jitter(&mut s, at(415));
    assert_eq!(s.uplink_jitter, vec![405]);
    assert_eq!(s.last_cmd_dispatch, Some(at(415)));
}

#[test]
fn answers_in_time_and_late() {
    let mut s = GcsState::new();
    let ok = CommandAck::Accepted { id: 5 };
    let no = CommandAck::Rejected { id: 5, reason: "r".to_string() };
    assert_eq!(on_answer(&urgent(5), &ok, span(2), 2, &mut s), DispatchNote::Sent);
    assert_eq!(
        (s.metrics.urgent_command_success, s.metrics.urgent_command_failures),
        (1, 0)
    );
    let late = Duration { nanos: 2 * MS + 1 };
    assert_eq!(on_answer(&urgent(5), &ok, late, 2, &mut s), DispatchNote::DeadlineMissed);
    assert_eq!(on_answer(&urgent(5), &no, late, 2, &mut s), DispatchNote::LateButRejected);
    assert_eq!(
        (s.metrics.urgent_command_success, s.metrics.urgent_command_failures),
        (1, 2)
    );
    assert_eq!(s.metrics.missed_deadlines, 1);
    let again = Command::ReRequestTelemetry { seq: 4 };
    assert_eq!(on_answer(&again, &ok, span(9), 9, &mut s), DispatchNote::ReRequestSent);
    assert_eq!(on_answer(&Command::NoOp, &ok, span(9), 9, &mut s), DispatchNote::Sent);
    assert_eq!(s.metrics.missed_deadlines, 1);
    assert_eq!(s.metrics.command_response_latency_ms, vec![2, 2, 2, 9, 9]);
}

#[test]
fn the_noted_response_time_is_the_callers_figure() {
    let mut s = GcsState::new();
    let elapsed = span(1_001);
    let figure = std::time::Duration::from_nanos(elapsed.nanos).as_secs_f64() * 1000.0;
    let ok = CommandAck::Accepted { id: 0 };
    let _ = on_answer(&Command::NoOp, &ok, elapsed, figure as i128, &mut s);
    assert_eq!(s.metrics.command_response_latency_ms, vec![1_000]);
}

#[test]
fn only_accepted_urgent_commands_miss_deadlines() {
    let mut s = GcsState::new();
    assert_eq!(
        check_dispatch_deadline(span(3), &urgent(5), &mut s, false),
        DispatchNote::LateButRejected
    );
    assert_eq!(s.metrics.missed_deadlines, 0);
    assert_eq!(
        check_dispatch_deadline(span(3), &urgent(5), &mut s, true),
        DispatchNote::DeadlineMissed
    );
    assert_eq!(
        check_dispatch_deadline(span(3), &Command::ClearFault, &mut s, true),
        DispatchNote::Sent
    );
    assert_eq!(s.metrics.missed_deadlines, 1);
}

#[test]
fn status_reports_set_the_mode() {
    let mut s = GcsState::new();
    assert!(handle_ack(&CommandAck::Accepted { id: 1 }, &mut s));
    assert!(!handle_ack(&CommandAck::Rejected { id: 1, reason: String::new() }, &mut s));
    assert!(!s.safe_mode);
    let status = CommandAck::StatusReport {
        safe_mode: true,
        active_fault: Some("f".to_string()),
        uptime_secs: 3,
    };
    assert!(handle_ack(&status, &mut s));
    assert!(s.safe_mode);
    assert_eq!(s.metrics.active_fault.as_deref(), Some("f"));
}

#[test]
fn only_urgent_commands_are_parked_and_the_first_stays() {
    let mut s = GcsState::new();
    park_in_backlog(&Command::NoOp, at(1), &mut s, None, at(1));
    assert_eq!(s.cmd_backlog.len(), 0);
    on_dispatch_failure(&urgent(5), at(2), &"refused".to_string(), &mut s, at(3));
    let e = s.cmd_backlog.get(5).unwrap();
    assert_eq!(e.rejection_reason.as_deref(), Some("Dispatch error: refused"));
    assert_eq!(e.cmd_debug, "Urgent { id: 5, body: \"attitude-correct-5\" }");
    assert_eq!((e.id, e.priority, e.deadline_instant, e.created_instant), (5, 1, at(2), at(3)));
    park_in_backlog(&urgent(5), at(9), &mut s, Some("later".to_string()), at(9));
    park_in_backlog(&urgent(10), at(9), &mut s, None, at(9));
    assert_eq!(s.cmd_backlog.get(5).unwrap().created_instant, at(3));
    let mut ids = backlog_ids(&s);
    ids.sort();
    assert_eq!(ids, vec![5, 10]);
}

#[test]
fn parked_commands_are_tried_again_outside_of_safe_mode() {
    let mut s = GcsState::new();
    park_in_backlog(&urgent(5), at(0), &mut s, None, at(0));
    s.safe_mode = true;
    assert!(retry_command(&s, 5).is_none());
    s.safe_mode = false;
    assert!(retry_command(&s, 6).is_none());
    match retry_command(&s, 5) {
        Some(Command::Urgent { id, body }) => {
            assert_eq!((id, body.as_str()), (5, "attitude-correct-5"));
        }
        other => panic!("{:?}", other),
    }
    assert!(!finish_retry(&mut s, 5, &CommandAck::Rejected { id: 5, reason: String::new() }));
    assert!(s.cmd_backlog.contains_key(5));
    assert!(finish_retry(&mut s, 5, &CommandAck::Accepted { id: 5 }));
    assert!(!s.cmd_backlog.contains_key(5));
    let mut odd = entry(7, 0);
    odd.cmd_debug = "NoOp".to_string();
    s.cmd_backlog.insert(7, odd);
    assert!(retry_command(&s, 7).is_none());
}

#[test]
fn old_commands_leave_the_backlog() {
    let mut s = GcsState::new();
    park_in_backlog(&urgent(5), at(0), &mut s, None, at(0));
    park_in_backlog(&urgent(10), at(0), &mut s, None, at(10_000));
    expire_backlog(&mut s, at(30_500));
    assert_eq!(backlog_ids(&s), vec![10]);
}

#[test]
fn waits_are_counted_as_backlog() {
    let mut s = GcsState::new();
    assert_eq!(note_wait(&mut s, at(1)), None);
    assert_eq!(s.telemetry_backlog_count, 0);
    begin_receive(&mut s, at(1));
    assert_eq!(note_wait(&mut s, Instant { nanos: MS + 999 }), None);
    assert_eq!(s.telemetry_backlog_count, 0);
    for i in 1..=100u64 {
        let noted = note_wait(&mut s, at(2));
        assert_eq!(noted, if i == 100 { Some(100) } else { None });
    }
    assert_eq!(s.metrics.telemetry_backlog_samples, vec![100]);
    packet_decoded(&mut s);
    assert_eq!(s.telemetry_backlog_count, 99);
    assert_eq!(s.telemetry_processing_start, None);
    s.telemetry_backlog_count = 0;
    packet_decoded(&mut s);
    assert_eq!(s.telemetry_backlog_count, 0);
    begin_receive(&mut s, at(3));
    end_receive(&mut s);
    assert_eq!(s.telemetry_processing_start, None);
}

#[test]
fn silence_is_a_failure_and_three_lose_contact() {
    let mut s = GcsState::new();
    let (t, lost) = handle_timeout(&mut s, at(10));
    assert!(matches!(t.cmd, Command::ReRequestTelemetry { seq: 0 }));
    assert_eq!(t.deadline, at(12));
    assert!(!lost);
    s.metrics.last_seq = Some(41);
    let (t, lost) = handle_timeout(&mut s, at(10));
    assert!(matches!(t.cmd, Command::ReRequestTelemetry { seq: 42 }));
    assert!(!lost);
    assert!(handle_timeout(&mut s, at(10)).1);
    assert_eq!(s.metrics.consecutive_failures, 3);
    let t = re_request(9, at(1));
    assert!(matches!(t.cmd, Command::ReRequestTelemetry { seq: 9 }));
    assert_eq!(t.deadline, at(3));
}

#[test]
fn slow_decoding_misses_its_deadline() {
    let mut s = GcsState::new();
    assert!(!check_decode_deadline(span(3), &mut s));
    assert!(check_decode_deadline(Duration { nanos: 3 * MS + 1 }, &mut s));
    assert_eq!(s.metrics.missed_deadlines, 1);
}

#[test]
fn latency_is_the_difference_of_the_wall_clocks() {
    let a = Arrival { instant: at(1), wall_ms: 1_050 };
    assert_eq!(packet_latency_ms(a, 1_000), 50);
    assert_eq!(packet_latency_ms(a, 2_000), -950);
    let before = chrono::Utc::now().timestamp_millis();
    let a = note_arrival(at(7));
    let after = chrono::Utc::now().timestamp_millis();
    assert_eq!(a.instant, at(7));
    assert!(0 <= a.wall_ms);
    assert!(before <= a.wall_ms && a.wall_ms <= after);
}

#[test]
fn packets_in_order_end_failures() {
    let mut s = GcsState::new();
    s.metrics.consecutive_failures = 2;
    let r = receive(&mut s, 17, 0);
    assert_eq!((r.missing, r.failures_ended, r.contact_lost), (None, 2, false));
    assert_eq!(s.metrics.consecutive_failures, 0);
    assert_eq!((s.metrics.first_seq, s.metrics.last_seq), (Some(17), Some(17)));
    let r = receive(&mut s, 18, 130);
    assert_eq!(r.missing, None);
    let _ = receive(&mut s, 19, 190);
    assert_eq!(s.metrics.jitter_samples, vec![30, 40]);
    assert_eq!(s.metrics.drift_samples, vec![0, 30, -10]);
    assert_eq!(s.metrics.latency_samples, vec![7, 7, 7]);
    assert_eq!(s.metrics.total_packets, 3);
}

#[test]
fn gaps_are_asked_for_exactly() {
    let mut s = GcsState::new();
    let _ = receive(&mut s, 1, 0);
    let r = receive(&mut s, 4, 300);
    assert_eq!(r.missing, Some(SeqRange { from: 2, to: 4 }));
    assert!(!r.contact_lost);
    assert_eq!(s.metrics.missing_packets_count, 2);
    let r = receive(&mut s, 6, 500);
    assert_eq!(r.missing, Some(SeqRange { from: 5, to: 6 }));
    assert!(r.contact_lost);
    assert_eq!(s.metrics.consecutive_failures, 3);
    assert_eq!(s.metrics.missing_packets_count, 3);
    let r = receive(&mut s, 7, 600);
    assert_eq!((r.missing, r.failures_ended), (None, 3));
}

#[test]
fn requests_go_through_the_range_in_order() {
    let mut range = SeqRange { from: 5, to: 8 };
    assert_eq!(range.next(), Some(5));
    assert_eq!(range.next(), Some(6));
    assert_eq!(range, SeqRange { from: 7, to: 8 });
    assert_eq!(range.next(), Some(7));
    assert_eq!(range.next(), None);
    assert_eq!(range, SeqRange { from: 8, to: 8 });
    assert_eq!(SeqRange { from: 9, to: 2 }.next(), None);
}

#[test]
fn repeated_packets_are_no_gap() {
    let mut s = GcsState::new();
    let _ = receive(&mut s, 5, 0);
    s.metrics.consecutive_failures = 1;
    let r = receive(&mut s, 5, 100);
    assert_eq!((r.missing, r.failures_ended), (None, 0));
    assert_eq!(s.metrics.consecutive_failures, 1);
    assert_eq!(s.metrics.missing_packets_count, 0);
    assert_eq!(s.metrics.drift_samples, vec![0, 100]);
}

#[test]
fn numbers_that_do_not_fit_are_noticed() {
    let mut s = GcsState::new();
    assert!(can_take_packet(&s, u64::MAX, at(0), 100));
    let _ = receive(&mut s, 5, 0);
    assert!(can_take_packet(&s, 6, at(100), 100));
    assert!(can_take_packet(&s, 5, at(100), 100));
    assert!(!can_take_packet(&s, 6, at(100), i128::MIN));
    assert!(!can_take_packet(&s, 8, at(100), i128::MAX));
    s.metrics.missing_packets_count = u32::MAX - 1;
    assert!(can_take_packet(&s, 7, at(100), 100));
    assert!(!can_take_packet(&s, 8, at(100), 100));
    s.metrics.last_seq = Some(u64::MAX);
    assert!(!can_take_packet(&s, 6, at(100), 100));
    s.metrics.last_seq = Some(1 << 63);
    assert!(!can_take_packet(&s, 6, at(100), 100));
    s.metrics.last_seq = None;
    s.metrics.total_packets = u64::MAX;
    assert!(!can_take_packet(&s, 6, at(100), 100));
}

#[test]
fn faults_engage_the_interlock_and_keep_their_time() {
    let mut s = GcsState::new();
    let plain = packet(1, TelemetryType::Power);
    assert_eq!(handle_fault_packet(&plain, &mut s, at(0)), FaultNotice::NoFault);
    assert!(!s.safe_mode);
    assert_eq!(handle_fault_packet(&fault(2, "f"), &mut s, at(10)), FaultNotice::NewFault);
    assert!(s.safe_mode);
    assert_eq!(s.metrics.fault_detected_at, Some(at(10)));
    s.safe_mode = false;
    assert_eq!(handle_fault_packet(&fault(3, "f"), &mut s, at(20)), FaultNotice::StillActive);
    assert!(s.safe_mode);
    assert_eq!(s.metrics.fault_detected_at, Some(at(10)));
    assert_eq!(handle_fault_packet(&fault(4, "g"), &mut s, at(30)), FaultNotice::NewFault);
    assert_eq!(s.metrics.active_fault.as_deref(), Some("g"));
    assert_eq!(s.metrics.fault_detected_at, Some(at(30)));
    record_interlock_latency(&mut s, Duration { nanos: 5_999 });
    assert_eq!(s.metrics.interlock_latency_us, vec![5]);
}

#[test]
fn each_fault_packet_leaves_one_interlock_latency() {
    let mut s = GcsState::new();
    let packets = [
        packet(1, TelemetryType::Power),
        fault(2, "f"),
        fault(3, "f"),
        packet(4, TelemetryType::Thermal),
    ];
    let mut noted = Vec::new();
    for (i, p) in packets.iter().enumerate() {
        let notice = handle_fault_packet(p, &mut s, at(1));
        noted.push(note_interlock(&mut s, notice, Duration { nanos: 1_000 * (i as u64 + 1) }));
    }
    assert_eq!(noted, vec![false, true, true, false]);
    assert_eq!(s.metrics.interlock_latency_us, vec![2, 3]);
}

#[test]
fn measurements_are_the_history_of_the_packets() {
    let mut s = GcsState::new();
    for (seq, ms) in [(10, 5), (11, 105), (13, 290), (14, 405)] {
        let _ = receive(&mut s, seq, ms);
    }
    let met = &s.metrics;
    assert_eq!(met.total_packets, 4);
    assert_eq!(met.latency_samples, vec![7, 7, 7, 7]);
    assert_eq!(met.drift_samples, vec![0, 0, -15, 0]);
    assert_eq!(met.jitter_samples, vec![0, 85, 15]);
    assert_eq!((met.first_seq, met.first_recv_instant), (Some(10), Some(at(5))));
    assert_eq!((met.last_seq, met.last_recv_instant), (Some(14), Some(at(405))));
}

#[test]
fn every_fifth_command_is_urgent() {
    for id in 1..=20u64 {
        match select_next_command(id) {
            Command::Urgent { id: n, body } => {
                assert_eq!(id % 5, 0);
                assert_eq!(n, id);
                assert_eq!(body, format!("attitude-correct-{}", id));
            }
            Command::NoOp => assert_ne!(id % 5, 0),
            other => panic!("{:?}", other),
        }
    }
}

#[test]
fn the_schedule_notes_its_drift_and_sets_deadlines() {
    let mut s = GcsState::new();
    let mut c = CommandScheduler::new(at(0));
    assert_eq!(c.expected_tick, at(400));
    match c.tick(&mut s, at(1)) {
        TickOutcome::Dispatch(t) => {
            assert!(matches!(t.cmd, Command::NoOp));
            assert_eq!(t.deadline, at(401));
        }
        TickOutcome::Blocked { .. } => panic!("blocked"),
    }
    assert_eq!((c.id_counter, c.expected_tick), (2, at(401)));
    let _ = c.tick(&mut s, at(405));
    assert_eq!(s.metrics.scheduler_drift_samples, vec![-399, 4]);
    c.id_counter = 5;
    match c.tick(&mut s, at(800)) {
        TickOutcome::Dispatch(t) => {
            assert!(matches!(t.cmd, Command::Urgent { id: 5, .. }));
            assert_eq!(t.deadline, at(802));
        }
        TickOutcome::Blocked { .. } => panic!("blocked"),
    }
}

#[test]
fn the_interlock_blocks_urgent_commands_only() {
    let mut s = GcsState::new();
    let mut c = CommandScheduler::new(at(0));
    handle_fault_packet(&fault(1, "f"), &mut s, at(0));
    assert!(matches!(c.tick(&mut s, at(400)), TickOutcome::Dispatch(_)));
    c.id_counter = 10;
    match c.tick(&mut s, at(800)) {
        TickOutcome::Blocked { id, body } => {
            assert_eq!((id, body.as_str()), (10, "attitude-correct-10"));
        }
        TickOutcome::Dispatch(_) => panic!("sent"),
    }
    assert_eq!(c.id_counter, 11);
    let e = s.cmd_backlog.get(10).unwrap();
    assert_eq!((e.id, e.priority, e.deadline_instant, e.created_instant), (10, 0, at(802), at(800)));
    assert_eq!(e.cmd_debug, "Urgent { id: 10, body: \"attitude-correct-10\" }");
    assert_eq!(
        e.rejection_reason.as_deref(),
        Some("safe_mode active – Urgent commands blocked by interlock")
    );
    reject_command(10, &"x".to_string(), at(1), &mut s, at(2));
    assert_eq!(s.cmd_backlog.get(10).unwrap().created_instant, at(2));
}

#[test]
fn the_watchdog_alerts_recovers_and_forgets() {
    let mut s = GcsState::new();
    let mut w = Watchdog::new();
    assert_eq!(w.poll(&mut s, at(0)), None);
    handle_fault_packet(&fault(1, "f"), &mut s, at(0));
    let r = w.poll(&mut s, at(100)).unwrap();
    assert_eq!((r.elapsed_ms, r.alert, r.recovery, r.abort), (100, false, Recovery::NotDue, false));
    let r = w.poll(&mut s, at(120)).unwrap();
    assert!(r.alert && w.alerted);
    assert!(!w.poll(&mut s, at(140)).unwrap().alert);
    let r = w.poll(&mut s, at(180)).unwrap();
    assert_eq!(r.recovery, Recovery::NotDue);
    assert!(s.safe_mode);
    let r = w.poll(&mut s, at(200)).unwrap();
    assert_eq!((r.recovery, r.abort), (Recovery::Succeeded, false));
    assert!(!s.safe_mode && s.metrics.active_fault.is_none());
    assert_eq!(s.metrics.fault_recovery_ms, vec![200]);
    assert_eq!(s.metrics.mission_abort_count, 0);
    assert!(!w.alerted);
    assert_eq!(w.poll(&mut s, at(220)), None);
}

#[test]
fn the_watchdog_aborts_once_per_fault() {
    let mut s = GcsState::new();
    let mut w = Watchdog::new();
    handle_fault_packet(&fault(1, "f"), &mut s, at(0));
    let r = w.poll(&mut s, at(201)).unwrap();
    assert_eq!((r.alert, r.recovery, r.abort), (true, Recovery::Failed, true));
    assert_eq!(s.metrics.mission_abort_count, 1);
    assert!(!s.safe_mode);
    handle_fault_packet(&fault(2, "f"), &mut s, at(202));
    let r = w.poll(&mut s, at(500)).unwrap();
    assert_eq!((r.recovery, r.abort), (Recovery::Failed, false));
    assert_eq!(s.metrics.mission_abort_count, 1);
    assert_eq!(w.poll(&mut s, at(520)), None);
    assert_eq!(w, Watchdog::new());
}

#[test]
fn a_fault_without_a_time_is_left_alone() {
    let mut s = GcsState::new();
    s.metrics.active_fault = Some("f".to_string());
    let mut w = Watchdog { alerted: true, abort_logged: true };
    assert_eq!(w.poll(&mut s, at(9_000)), None);
    assert!(w.alerted && w.abort_logged);
    assert!(perform_auto_recovery(200, &mut s));
    assert!(!perform_auto_recovery(201, &mut s));
    assert_eq!(s.metrics.fault_recovery_ms, vec![200, 201]);
}

#[test]
fn busy_time_is_counted_and_sampled() {
    let mut s = GcsState::new();
    let mut m = CpuMeter::start(&mut s, at(0));
    assert_eq!(s.cpu_busy_start, Some(at(0)));
    m.tick(&mut s, at(11));
    m.tick(&mut s, at(22));
    assert_eq!(s.cpu_total_active_ms, 22);
    assert_eq!(s.cpu_busy_start, Some(at(22)));
    assert_eq!(measure_cpu_usage(&mut s, Duration { nanos: 999_999 }), None);
    assert_eq!(s.cpu_total_active_ms, 22);
    let sample = CpuSample { active_ms: 22, elapsed_ms: 5_000 };
    assert_eq!(measure_cpu_usage(&mut s, span(5_000)), Some(sample));
    assert_eq!(s.metrics.cpu_usage_samples, vec![sample]);
    assert_eq!(s.cpu_total_active_ms, 0);
}

#[test]
fn reports_hold_the_figures() {
    let mut s = GcsState::new();
    park_in_backlog(&urgent(5), at(10), &mut s, None, at(20));
    park_in_backlog(&urgent(10), at(500), &mut s, None, at(30));
    sample_load(&mut s);
    assert_eq!(s.metrics.system_load_samples, vec![2]);
    s.metrics.latency_samples = vec![3, 5];
    s.metrics.interlock_latency_us = vec![4, 7];
    s.metrics.telemetry_backlog_samples = vec![100, 200];
    s.metrics.fault_recovery_ms = vec![181, 190];
    s.metrics.command_response_latency_ms = vec![1, 2, 6];
    assert!(can_report(&s));
    let r = report(&s);
    assert_eq!(r.latency_ms, (3, 4, 5));
    assert_eq!(r.jitter_ms, (0, 0, 0));
    assert_eq!(r.system_load, (2, 2, 2));
    assert_eq!(r.command_response_ms, (1, 3, 6));
    assert_eq!(r.interlock_avg_us, 5);
    assert_eq!(r.telemetry_backlog_total, 300);
    assert_eq!(r.fault_recovery_avg_ms, 185);
    assert_eq!(r.backlog_len, 2);
    let f = final_summary(&s);
    assert_eq!((f.fault_recovery_avg_ms, f.interlock_avg_us, f.command_response_avg_ms), (185, 5, 3));
    let mut lines = backlog_report(&s, at(110));
    lines.sort_by_key(|l| l.id);
    assert_eq!((lines[0].id, lines[0].overdue_ms, lines[0].age_ms), (5, 100, 90));
    assert_eq!((lines[1].id, lines[1].overdue_ms, lines[1].age_ms), (10, 0, 80));
    assert_eq!(lines.len(), 2);
    s.metrics.drift_samples = vec![i128::MAX, 1];
    assert!(!can_report(&s));
    assert_eq!(stats(&[2, -3]), (-3, 0, 2));
}

#[test]
fn an_empty_run_has_empty_means() {
    let f = final_summary(&GcsState::new());
    assert_eq!((f.fault_recovery_avg_ms, f.interlock_avg_us, f.command_response_avg_ms), (0, 0, 0));
}

#[test]
fn a_fault_runs_its_course() {
    let mut sat = OcsState::new(at(0));
    let mut gcs = GcsState::new();
    let mut w = Watchdog::new();
    inject_fault(&mut sat, true, at(0));
    let p = take_packet(&mut sat, 1, 0, at(1));
    assert_eq!(handle_fault_packet(&p, &mut gcs, at(2)), FaultNotice::NewFault);
    let mut c = CommandScheduler { id_counter: 5, expected_tick: at(3) };
    assert!(matches!(c.tick(&mut gcs, at(3)), TickOutcome::Blocked { id: 5, .. }));
    assert!(matches!(process_command(urgent(5), &mut sat, at(4)), CommandAck::Rejected { .. }));
    assert!(retry_command(&gcs, 5).is_none());
    assert_eq!(w.poll(&mut gcs, at(190)).unwrap().recovery, Recovery::Succeeded);
    process_command(Command::ClearFault, &mut sat, at(191));
    let again = retry_command(&gcs, 5).unwrap();
    let ack = process_command(again, &mut sat, at(192));
    assert!(matches!(ack, CommandAck::Accepted { id: 5 }));
    assert!(finish_retry(&mut gcs, 5, &ack));
    assert_eq!(gcs.cmd_backlog.len(), 0);
}

#[test]
fn a_status_report_brings_both_sides_together() {
    let mut sat = OcsState::new(at(0));
    let mut gcs = GcsState::new();
    inject_fault(&mut sat, false, at(0));
    let ack = process_command(Command::QueryStatus, &mut sat, at(1));
    handle_ack(&ack, &mut gcs);
    assert_eq!(gcs.safe_mode, sat.safe_mode);
    assert_eq!(gcs.metrics.active_fault, sat.active_fault);
}

#[test]
fn lost_packets_are_found() {
    let mut gcs = GcsState::new();
    let _ = receive(&mut gcs, 1, 0);
    assert_eq!(receive(&mut gcs, 2, 100).missing, None);
    assert_eq!(receive(&mut gcs, 6, 500).missing, Some(SeqRange { from: 3, to: 6 }));
    assert_eq!(gcs.metrics.missing_packets_count, 3);
}
