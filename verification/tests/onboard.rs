//! The satellite.

use std::collections::VecDeque;

use groundlink::satellite::command::{process_command, record_response_latency};
use groundlink::satellite::downlink::{
    classify_packet_type, collect_batch, compress_and_packetize_batch, enqueue_packet,
    init_delay_bounds, init_delay_odds, note_init_delay, pop_highest_priority_samples, prepare_packet,
    sample_init_delay_ms, DownlinkWindow,
};
use groundlink::satellite::fault::{
    inject_fault, monitor_fault_recovery, FaultInjector, RecoveryStep,
};
use groundlink::satellite::scheduler::{
    nominal_period_us, note_idle, priority, select_highest_priority_job, Job, Scheduler, TaskKind,
};
use groundlink::satellite::sensor::{
    finish_cycle, insert_prioritized_sample_locked, make_sample, sleep_step, SensorClock,
    SleepStep, ThermalClock, DELAYED_SAMPLE_MS,
};
use groundlink::satellite::state::{
    DownlinkPacket, FillRatio, OcsState, SensorKind, SensorSample,
};
use groundlink::satellite::summary::{can_summarize, summarize};
use groundlink::satellite::telemetry::{record_sent, take_packet, take_packet_now, Blackout};
use groundlink::shared::{Command, CommandAck, TelemetryType};
use groundlink::time::{Duration, Instant};
use rand::rngs::StdRng;
use rand::{Rng, SeedableRng};

const MS: u64 = 1_000_000;

fn at(ms: u64) -> Instant {
    Instant { nanos: ms * MS }
}

fn sample(kind: SensorKind, value_tenths: i32) -> SensorSample {
    make_sample(kind, value_tenths, false, at(0), at(0), at(0))
}

fn ocs() -> OcsState {
    OcsState::new(at(0))
}

fn full_of(kind: SensorKind) -> OcsState {
    let mut s = ocs();
    for i in 0..64 {
        assert!(insert_prioritized_sample_locked(sample(kind, i), &mut s));
    }
    s
}

#[test]
fn sensors_have_priorities_periods_and_types() {
    assert_eq!(SensorKind::Thermal.priority(), 3);
    assert_eq!(SensorKind::Attitude.priority(), 2);
    assert_eq!(SensorKind::Power.priority(), 1);
    assert_eq!(SensorKind::Thermal.period(), Duration { nanos: 25 * MS });
    assert_eq!(SensorKind::Attitude.period(), Duration { nanos: 20 * MS });
    assert_eq!(SensorKind::Power.period(), Duration { nanos: 50 * MS });
    assert!(matches!(SensorKind::Thermal.telemetry_type(), TelemetryType::Thermal));
    assert!(matches!(SensorKind::Attitude.telemetry_type(), TelemetryType::Attitude));
    assert!(matches!(SensorKind::Power.telemetry_type(), TelemetryType::Power));
}

#[test]
fn a_new_satellite_is_at_rest() {
    let s = OcsState::new(at(500));
    assert!(!s.safe_mode && !s.degraded_mode && !s.mission_abort);
    assert!(s.active_fault.is_none());
    assert_eq!(s.uptime_secs(at(2_499)), 1);
    assert_eq!(s.uptime_secs(at(0)), 0);
    assert_eq!(s.sensor_fill_ratio(), FillRatio { filled: 0, capacity: 64 });
    assert_eq!(s.tx_fill_ratio(), FillRatio { filled: 0, capacity: 64 });
}

#[test]
fn a_buffer_is_nearly_full_above_four_fifths() {
    assert!(!FillRatio { filled: 51, capacity: 64 }.is_nearly_full());
    assert!(FillRatio { filled: 52, capacity: 64 }.is_nearly_full());
    assert!(!FillRatio { filled: 4, capacity: 5 }.is_nearly_full());
}

#[test]
fn a_full_buffer_makes_way_for_higher_priority() {
    let mut s = full_of(SensorKind::Power);
    s.sensor_buffer[0].kind = SensorKind::Thermal;
    assert!(insert_prioritized_sample_locked(sample(SensorKind::Attitude, 900), &mut s));
    assert_eq!(s.sensor_buffer.len(), 64);
    assert_eq!(s.dropped_packets, 1);
    assert_eq!(s.sensor_buffer[0].value_tenths, 0);
    assert_eq!(s.sensor_buffer[1].value_tenths, 2);
    assert_eq!(s.sensor_buffer[63].value_tenths, 900);
}

#[test]
fn a_full_buffer_turns_equals_away() {
    let mut s = full_of(SensorKind::Thermal);
    assert!(!insert_prioritized_sample_locked(sample(SensorKind::Thermal, 900), &mut s));
    assert!(!insert_prioritized_sample_locked(sample(SensorKind::Power, 900), &mut s));
    assert_eq!(s.sensor_buffer.len(), 64);
    assert_eq!(s.dropped_packets, 2);
}

#[test]
fn a_corrupted_sample_has_its_own_value() {
    let bad = make_sample(SensorKind::Power, 333, true, at(1), at(2), at(3));
    assert_eq!(bad.value_tenths, 99_990);
    assert!(bad.corrupted);
    assert_eq!((bad.read_at, bad.scheduled_at, bad.inserted_at), (at(1), at(2), at(3)));
    assert_eq!(make_sample(SensorKind::Power, 333, false, at(1), at(2), at(3)).value_tenths, 333);
}

#[test]
fn the_fourth_missed_thermal_cycle_raises_the_alarm_once() {
    let mut s = full_of(SensorKind::Thermal);
    for i in 1..=6u32 {
        let report = finish_cycle(&mut s, sample(SensorKind::Thermal, 1), at(70));
        assert!(!report.inserted);
        assert_eq!(report.safety_alert, i == 4);
        assert_eq!(s.thermal_missed_cycles, i);
        assert_eq!(s.safe_mode, i >= 4);
    }
    assert_eq!(s.safety_alerts, 1);
    assert_eq!(s.active_fault.as_deref(), Some("thermal data missed >3 cycles"));
    assert_eq!(s.active_fault_since, Some(at(70)));
    s.sensor_buffer.pop_front();
    assert!(finish_cycle(&mut s, sample(SensorKind::Thermal, 1), at(71)).inserted);
    assert_eq!(s.thermal_missed_cycles, 0);
}

#[test]
fn a_cycle_notes_latency_and_fill() {
    let mut s = ocs();
    let x = make_sample(SensorKind::Power, 5, false, at(1), at(1), at(4));
    let report = finish_cycle(&mut s, x, at(4));
    assert!(report.inserted && !report.safety_alert && !report.degraded);
    assert_eq!(s.sensor_latency_us, vec![3_000]);
    assert_eq!(s.buffer_fill_rates, vec![FillRatio { filled: 1, capacity: 64 }]);
    assert_eq!(report.displaced, None);
    let mut full = full_of(SensorKind::Power);
    let report = finish_cycle(&mut full, x, at(4));
    assert!(report.degraded && !report.inserted);
    assert_eq!(report.displaced, None);
    let report = finish_cycle(&mut full, sample(SensorKind::Attitude, 1), at(4));
    assert_eq!((report.inserted, report.displaced), (true, Some(SensorKind::Power)));
    assert!(full.degraded_mode);
}

#[test]
fn timed_cycles_note_drift_and_jitter() {
    let mut s = ocs();
    let mut clock = SensorClock::new(SensorKind::Attitude, at(0));
    assert_eq!(clock.next_expected, at(20));
    s.delayed_power_pending = true;
    s.corrupt_next_sample = true;
    let flags = clock.start_cycle(&mut s, at(22));
    assert!(!flags.delayed && flags.corrupted);
    assert!(s.delayed_power_pending && !s.corrupt_next_sample);
    assert_eq!(s.sensor_drift_us, vec![2_000]);
    assert!(s.sensor_jitter_us.is_empty());
    clock.advance(at(65));
    assert_eq!(clock.next_expected, at(80));
    let flags = clock.start_cycle(&mut s, at(39));
    assert!(!flags.corrupted);
    assert_eq!(s.sensor_drift_us, vec![2_000, 0]);
    assert_eq!(s.sensor_jitter_us, vec![3_000]);
    assert_eq!(DELAYED_SAMPLE_MS, 6);
    let mut power = SensorClock::new(SensorKind::Power, at(0));
    assert!(power.start_cycle(&mut s, at(50)).delayed);
    assert!(!s.delayed_power_pending);
}

#[test]
fn thermal_jitter_counts_after_the_warm_up() {
    let mut s = ocs();
    let mut clock = ThermalClock::new(SensorKind::Thermal, at(0));
    for i in 0..8u64 {
        clock.start_cycle(&mut s, Instant { nanos: at(25 * (i + 1)).nanos + i * 5 * MS });
        clock.advance(at(25 * (i + 1)));
    }
    assert!(s.sensor_jitter_us.is_empty());
    assert_eq!(clock.warmup_cycles_remaining, 0);
    assert_eq!(clock.next_expected, at(225));
    clock.start_cycle(&mut s, at(225));
    assert_eq!(s.sensor_jitter_us, vec![35_000]);
    assert_eq!(s.critical_jitter_violations, 1);
    clock.advance(at(249));
    clock.start_cycle(&mut s, at(251));
    assert_eq!(s.sensor_jitter_us, vec![35_000, 1_000]);
    assert_eq!(s.critical_jitter_violations, 1);
}

#[test]
fn waiting_sleeps_first_and_spins_at_the_end() {
    assert_eq!(sleep_step(at(5), at(5)), SleepStep::Wake);
    assert_eq!(sleep_step(at(6), at(5)), SleepStep::Wake);
    assert_eq!(sleep_step(at(1), at(5)), SleepStep::Sleep(Duration { nanos: 2 * MS }));
    assert_eq!(sleep_step(at(3), at(5)), SleepStep::Spin);
}

#[test]
fn batches_go_by_priority_and_age() {
    let mut buffer: VecDeque<SensorSample> = VecDeque::new();
    buffer.push_back(sample(SensorKind::Power, 1));
    buffer.push_back(sample(SensorKind::Thermal, 2));
    buffer.push_back(sample(SensorKind::Attitude, 3));
    buffer.push_back(sample(SensorKind::Thermal, 4));
    buffer.push_back(sample(SensorKind::Attitude, 5));
    let out = pop_highest_priority_samples(&mut buffer, 3);
    let taken: Vec<i32> = out.iter().map(|x| x.value_tenths).collect();
    let left: Vec<i32> = buffer.iter().map(|x| x.value_tenths).collect();
    assert_eq!(taken, vec![2, 4, 3]);
    assert_eq!(left, vec![1, 5]);
    assert_eq!(pop_highest_priority_samples(&mut buffer, 9).len(), 2);
    assert!(pop_highest_priority_samples(&mut buffer, 9).is_empty());
}

#[test]
fn two_batches_are_one_batch_of_both_sizes() {
    let kinds = [
        SensorKind::Power,
        SensorKind::Thermal,
        SensorKind::Attitude,
        SensorKind::Thermal,
        SensorKind::Power,
    ];
    let mut twice: VecDeque<SensorSample> = VecDeque::new();
    for (i, kind) in kinds.iter().enumerate() {
        twice.push_back(sample(*kind, i as i32));
    }
    let mut once = twice.clone();
    let mut out = pop_highest_priority_samples(&mut twice, 1);
    out.extend(pop_highest_priority_samples(&mut twice, 3));
    assert_eq!(out, pop_highest_priority_samples(&mut once, 4));
    assert_eq!(twice, once);
}

#[test]
fn the_payload_of_both_lists_joins_their_records() {
    let a = vec![sample(SensorKind::Thermal, 365)];
    let b = vec![sample(SensorKind::Power, -1), sample(SensorKind::Attitude, 2)];
    let both: Vec<SensorSample> = a.iter().chain(b.iter()).cloned().collect();
    let mut joined = vec![3];
    joined.extend_from_slice(&compress_and_packetize_batch(&a)[1..]);
    joined.extend_from_slice(&compress_and_packetize_batch(&b)[1..]);
    assert_eq!(compress_and_packetize_batch(&both), joined);
}

#[test]
fn packets_are_named_after_their_first_sensor() {
    let p = sample(SensorKind::Power, 1);
    let a = sample(SensorKind::Attitude, 1);
    let t = sample(SensorKind::Thermal, 1);
    assert!(matches!(classify_packet_type(&vec![p, a, t]), TelemetryType::Thermal));
    assert!(matches!(classify_packet_type(&vec![p, a]), TelemetryType::Attitude));
    assert!(matches!(classify_packet_type(&vec![p]), TelemetryType::Power));
    assert!(matches!(classify_packet_type(&vec![]), TelemetryType::Power));
}

#[test]
fn payloads_hold_quantized_records() {
    let mut bad = sample(SensorKind::Power, 99_990);
    bad.corrupted = true;
    let payload = compress_and_packetize_batch(&vec![
        sample(SensorKind::Thermal, 365),
        sample(SensorKind::Attitude, -49),
        bad,
        sample(SensorKind::Power, -99_990),
    ]);
    assert_eq!(
        payload,
        vec![4, 109, 1, 0, 0, 207, 255, 1, 0, 255, 127, 2, 1, 0, 128, 2, 0]
    );
    assert_eq!(compress_and_packetize_batch(&vec![]), vec![0]);
}

#[test]
fn payloads_are_cut_off_at_255_samples() {
    let many = vec![sample(SensorKind::Power, 1); 300];
    let payload = compress_and_packetize_batch(&many);
    assert_eq!(payload[0], 255);
    assert_eq!(payload.len(), 1 + 4 * 255);
}

#[test]
fn delays_lie_in_their_bounds() {
    assert_eq!(init_delay_odds(), (1, 100));
    assert_eq!(init_delay_bounds(false), (1, 5));
    assert_eq!(init_delay_bounds(true), (6, 9));
    let mut rng = StdRng::seed_from_u64(7);
    let mut rare = 0;
    let mut seen = [false; 9];
    for _ in 0..5_000 {
        let ms = sample_init_delay_ms(&mut rng);
        assert!((1..5).contains(&ms) || (6..9).contains(&ms));
        seen[ms as usize] = true;
        if ms > 5 {
            rare += 1;
        }
    }
    assert!(rare > 10 && rare < 150);
    assert_eq!(seen, [false, true, true, true, true, false, true, true, true]);
}

#[test]
fn delays_are_drawn_as_with_a_probability() {
    let mut ours = StdRng::seed_from_u64(42);
    let mut theirs = StdRng::seed_from_u64(42);
    for _ in 0..2_000 {
        let expected: u64 = if theirs.gen_bool(0.01) {
            theirs.gen_range(6..9)
        } else {
            theirs.gen_range(1..5)
        };
        assert_eq!(sample_init_delay_ms(&mut ours), expected);
    }
}

#[test]
fn windows_open_every_hundred_milliseconds() {
    let mut s = ocs();
    let mut w = DownlinkWindow::new(at(0));
    assert!(!w.poll(&mut s, at(99)));
    assert_eq!(s.buffer_fill_rates.len(), 1);
    assert_eq!(s.tx_fill_rates.len(), 1);
    assert!(w.poll(&mut s, at(250)));
    assert_eq!(w.next_window, at(200));
    assert_eq!(s.buffer_fill_rates.len(), 1);
}

#[test]
fn slow_downlinks_lose_their_window() {
    let mut s = ocs();
    assert!(!note_init_delay(&mut s, 5));
    assert_eq!(s.downlink_init_missed, 0);
    assert!(note_init_delay(&mut s, 6));
    assert_eq!(s.downlink_init_missed, 1);
}

#[test]
fn packets_are_prepared_and_queued() {
    let mut s = full_of(SensorKind::Thermal);
    s.degraded_mode = true;
    let batch = collect_batch(&mut s);
    assert_eq!(batch.len(), 16);
    assert_eq!(s.sensor_buffer.len(), 48);
    let packet = prepare_packet(&batch, at(9)).unwrap();
    assert_eq!(packet.payload.len(), 65);
    assert_eq!(packet.enqueued_at, at(9));
    let report = enqueue_packet(&mut s, packet, Duration { nanos: 30 * MS });
    assert!(report.queued && !report.prep_missed && report.degraded_off && !report.degraded_on);
    assert!(!s.degraded_mode);
    assert_eq!(s.tx_queue.len(), 1);
    assert!(prepare_packet(&vec![], at(9)).is_none());
}

#[test]
fn full_queues_drop_packets_and_slow_preparation_is_counted() {
    let mut s = full_of(SensorKind::Power);
    for _ in 0..64 {
        let p = DownlinkPacket { ttype: TelemetryType::Power, payload: vec![], enqueued_at: at(0) };
        s.tx_queue.push_back(p);
    }
    let p = DownlinkPacket { ttype: TelemetryType::Power, payload: vec![], enqueued_at: at(0) };
    let report = enqueue_packet(&mut s, p, Duration { nanos: 31 * MS });
    assert!(!report.queued && report.prep_missed && report.degraded_on);
    assert_eq!(s.dropped_packets, 1);
    assert_eq!(s.downlink_prep_deadline_missed, 1);
    assert!(s.degraded_mode);
    assert_eq!(s.tx_fill_rates, vec![FillRatio { filled: 64, capacity: 64 }]);
}

fn job(kind: TaskKind, release: u64) -> Job {
    Job {
        kind,
        release_at: at(release),
        deadline_at: at(release + 10),
        remaining_quanta: 1,
        first_start: None,
    }
}

#[test]
fn tasks_have_priorities_and_periods() {
    assert_eq!(priority(TaskKind::ThermalControl), 0);
    assert_eq!(priority(TaskKind::Compression), 1);
    assert_eq!(priority(TaskKind::HealthMonitoring), 2);
    assert_eq!(priority(TaskKind::AntennaAlignment), 3);
    assert_eq!(nominal_period_us(TaskKind::ThermalControl), 10_000);
    assert_eq!(nominal_period_us(TaskKind::Compression), 40_000);
    assert_eq!(nominal_period_us(TaskKind::HealthMonitoring), 250_000);
    assert_eq!(nominal_period_us(TaskKind::AntennaAlignment), 180_000);
}

#[test]
fn the_first_of_the_most_urgent_jobs_is_selected() {
    let mut ready: VecDeque<Job> = VecDeque::new();
    assert_eq!(select_highest_priority_job(&ready), 0);
    ready.push_back(job(TaskKind::AntennaAlignment, 0));
    ready.push_back(job(TaskKind::Compression, 1));
    ready.push_back(job(TaskKind::Compression, 2));
    assert_eq!(select_highest_priority_job(&ready), 1);
    ready.push_back(job(TaskKind::ThermalControl, 3));
    assert_eq!(select_highest_priority_job(&ready), 3);
}

#[test]
fn tasks_are_released_once_per_period() {
    let mut sched = Scheduler::new(at(0));
    sched.release_due(at(39));
    assert!(sched.ready.is_empty());
    sched.release_due(at(41));
    assert_eq!(sched.ready.len(), 1);
    assert_eq!(sched.ready[0].kind, TaskKind::Compression);
    assert_eq!(sched.ready[0].deadline_at, at(241));
    sched.release_due(at(80));
    assert_eq!(sched.ready.len(), 1);
    sched.release_due(at(260));
    let kinds: Vec<TaskKind> = sched.ready.iter().map(|j| j.kind).collect();
    assert_eq!(
        kinds,
        vec![
            TaskKind::Compression,
            TaskKind::Compression,
            TaskKind::HealthMonitoring,
            TaskKind::AntennaAlignment,
        ]
    );
}

#[test]
fn thermal_control_goes_first_and_ends_safe_mode() {
    let mut s = ocs();
    let mut sched = Scheduler::new(at(0));
    assert!(!sched.insert_thermal(&mut s, at(1)));
    assert!(sched.ready.is_empty());
    sched.release_due(at(41));
    s.thermal_missed_cycles = 2;
    s.safe_mode = true;
    assert!(sched.insert_thermal(&mut s, at(41)));
    assert_eq!(s.thermal_preemptions, 1);
    assert!(!sched.insert_thermal(&mut s, at(42)));
    let first = sched.dispatch(&mut s, at(43)).unwrap();
    assert_eq!(first.job.kind, TaskKind::ThermalControl);
    assert_eq!(first.job.first_start, Some(at(43)));
    assert!(!first.late);
    assert_eq!(s.schedule_drift_us, vec![2_000]);
    let q = sched.complete_quantum(&mut s, first.job, at(41), at(44));
    assert!(!q.finished && !q.late);
    assert_eq!(s.cpu_active_us, 3_000);
    assert!(s.safe_mode);
    let again = sched.dispatch(&mut s, at(45)).unwrap();
    assert_eq!(again.job.kind, TaskKind::ThermalControl);
    assert_eq!(s.schedule_drift_us.len(), 1);
    let q = sched.complete_quantum(&mut s, again.job, at(45), at(52));
    assert!(q.finished && q.late);
    assert_eq!(s.deadline_violations, 1);
    assert_eq!(s.thermal_missed_cycles, 0);
    assert!(!s.safe_mode);
}

#[test]
fn thermal_control_does_not_lift_an_active_fault() {
    let mut s = ocs();
    inject_fault(&mut s, true, at(0));
    let mut sched = Scheduler::new(at(0));
    sched.insert_thermal(&mut s, at(1));
    assert_eq!(s.thermal_preemptions, 0);
    let mut d = sched.dispatch(&mut s, at(1)).unwrap();
    d.job.remaining_quanta = 1;
    sched.complete_quantum(&mut s, d.job, at(1), at(2));
    assert!(s.safe_mode);
}

#[test]
fn late_starts_and_jitter_are_noted() {
    let mut s = ocs();
    let mut sched = Scheduler::new(at(0));
    assert!(sched.dispatch(&mut s, at(0)).is_none());
    sched.ready.push_back(job(TaskKind::Compression, 0));
    assert!(sched.dispatch(&mut s, at(11)).unwrap().late);
    assert_eq!(s.deadline_violations, 1);
    sched.ready.push_back(job(TaskKind::Compression, 50));
    assert!(!sched.dispatch(&mut s, at(50)).unwrap().late);
    assert_eq!(s.task_jitter_us, vec![1_000]);
}

#[test]
fn idle_time_is_counted() {
    let mut s = ocs();
    note_idle(&mut s, at(1), at(3));
    note_idle(&mut s, at(5), at(4));
    assert_eq!(s.cpu_idle_us, 2_000);
}

#[test]
fn urgent_commands_are_blocked_in_safe_mode_until_the_fault_is_cleared() {
    let mut s = ocs();
    let urgent = || Command::Urgent { id: 5, body: "attitude-correct-5".to_string() };
    assert!(matches!(process_command(urgent(), &mut s, at(1)), CommandAck::Accepted { id: 5 }));
    inject_fault(&mut s, false, at(2));
    match process_command(urgent(), &mut s, at(3)) {
        CommandAck::Rejected { id, reason } => {
            assert_eq!(id, 5);
            assert_eq!(
                reason,
                "OCS safe mode active (fault=Some(\"fault_injected:corrupted_sensor_data\")); \
                 urgent blocked"
            );
        }
        other => panic!("{:?}", other),
    }
    assert!(matches!(
        process_command(Command::ClearFault, &mut s, at(12)),
        CommandAck::Accepted { id: 0 }
    ));
    assert_eq!(s.fault_recovery_us, vec![10_000]);
    assert_eq!(s.fault_responses, 1);
    assert!(matches!(process_command(urgent(), &mut s, at(13)), CommandAck::Accepted { id: 5 }));
    assert_eq!((s.commands_received, s.ack_ok, s.ack_rejected), (4, 3, 1));
}

#[test]
fn safe_mode_without_a_fault_rejects_with_none() {
    let mut s = ocs();
    s.safe_mode = true;
    match process_command(Command::Urgent { id: 1, body: String::new() }, &mut s, at(0)) {
        CommandAck::Rejected { reason, .. } => {
            assert_eq!(reason, "OCS safe mode active (fault=None); urgent blocked");
        }
        other => panic!("{:?}", other),
    }
}

#[test]
fn clearing_twice_clears_once() {
    let mut s = ocs();
    inject_fault(&mut s, true, at(0));
    process_command(Command::ClearFault, &mut s, at(5));
    process_command(Command::ClearFault, &mut s, at(9));
    assert_eq!(s.fault_responses, 1);
    assert_eq!(s.fault_recovery_us, vec![5_000]);
    assert_eq!(s.commands_received, 2);
}

#[test]
fn other_commands_are_accepted() {
    let mut s = ocs();
    inject_fault(&mut s, true, at(1_000));
    assert!(matches!(process_command(Command::NoOp, &mut s, at(0)), CommandAck::Accepted { id: 0 }));
    assert!(matches!(
        process_command(Command::ReRequestTelemetry { seq: 77 }, &mut s, at(0)),
        CommandAck::Accepted { id: 77 }
    ));
    match process_command(Command::QueryStatus, &mut s, at(3_500)) {
        CommandAck::StatusReport { safe_mode, active_fault, uptime_secs } => {
            assert!(safe_mode);
            assert_eq!(active_fault.as_deref(), Some("fault_injected:delayed_power_data"));
            assert_eq!(uptime_secs, 3);
        }
        other => panic!("{:?}", other),
    }
    record_response_latency(&mut s, Duration { nanos: 1_999 });
    assert_eq!(s.command_response_latency_us, vec![1]);
}

#[test]
fn faults_take_turns() {
    let mut s = ocs();
    let mut f = FaultInjector::new();
    assert!(f.inject_next(&mut s, at(1)));
    assert!(s.delayed_power_pending && !s.corrupt_next_sample && s.safe_mode);
    assert!(!f.inject_next(&mut s, at(2)));
    assert!(s.corrupt_next_sample);
    assert_eq!(s.faults_injected, 2);
    assert!(f.inject_next(&mut s, at(3)));
}

#[test]
fn faults_are_lifted_in_the_window_and_abort_after_it() {
    let fresh = || {
        let mut s = ocs();
        inject_fault(&mut s, true, at(0));
        s
    };
    let mut s = ocs();
    assert_eq!(monitor_fault_recovery(&mut s, at(500)), RecoveryStep::Wait);
    let mut s = fresh();
    assert_eq!(monitor_fault_recovery(&mut s, at(120)), RecoveryStep::Wait);
    assert!(s.safe_mode);
    assert_eq!(monitor_fault_recovery(&mut s, at(121)), RecoveryStep::Recovered);
    assert!(!s.safe_mode && s.active_fault.is_none() && !s.fault_telemetry_pending);
    assert_eq!(s.fault_recovery_us, vec![121_000]);
    let mut s = fresh();
    assert_eq!(monitor_fault_recovery(&mut s, at(200)), RecoveryStep::Recovered);
    let mut s = fresh();
    assert_eq!(monitor_fault_recovery(&mut s, at(201)), RecoveryStep::Aborted);
    assert!(s.mission_abort && s.safe_mode && s.active_fault.is_some());
    assert_eq!(monitor_fault_recovery(&mut s, at(221)), RecoveryStep::AlreadyAborted);
}

#[test]
fn faults_are_reported_once_and_go_first() {
    let mut s = ocs();
    s.tx_queue.push_back(DownlinkPacket {
        ttype: TelemetryType::Attitude,
        payload: vec![9],
        enqueued_at: at(0),
    });
    inject_fault(&mut s, true, at(0));
    let p = take_packet(&mut s, 1, 1_000, at(3));
    match p.ttype {
        TelemetryType::Fault(desc) => assert_eq!(desc, "fault_injected:delayed_power_data"),
        other => panic!("{:?}", other),
    }
    assert!(p.payload.is_empty());
    assert_eq!((p.seq, p.sent_ts_millis), (1, 1_000));
    assert_eq!(s.fault_packets, 1);
    assert!(s.tx_queue.is_empty());
    assert_eq!(s.tx_latency_us, vec![3_000]);
    let p = take_packet(&mut s, 3, 1_000, at(4));
    assert!(matches!(p.ttype, TelemetryType::Thermal));
    assert_eq!(p.payload, vec![0; 8]);
}

#[test]
fn packets_leave_in_order_and_fillers_take_turns() {
    let mut s = ocs();
    for n in 0..2u8 {
        s.tx_queue.push_back(DownlinkPacket {
            ttype: TelemetryType::Power,
            payload: vec![n],
            enqueued_at: at(0),
        });
    }
    assert_eq!(take_packet(&mut s, 1, 0, at(1)).payload, vec![0]);
    assert_eq!(take_packet(&mut s, 2, 0, at(2)).payload, vec![1]);
    assert!(matches!(take_packet(&mut s, 4, 0, at(2)).ttype, TelemetryType::Attitude));
    assert!(matches!(take_packet(&mut s, 5, 0, at(2)).ttype, TelemetryType::Power));
    assert_eq!(record_sent(&mut s, 5), 6);
    assert_eq!(s.packets_sent, 1);
}

#[test]
fn packets_are_stamped_with_the_wall_clock() {
    let mut s = ocs();
    let before = chrono::Utc::now().timestamp_millis();
    let p = take_packet_now(&mut s, 1, at(0));
    let after = chrono::Utc::now().timestamp_millis();
    assert!(0 <= p.sent_ts_millis);
    assert!(before <= p.sent_ts_millis && p.sent_ts_millis <= after);
}

#[test]
fn the_link_blacks_out_once() {
    let mut b = Blackout::new();
    assert!(!b.poll(Duration { nanos: 89_999 * MS }));
    assert!(b.poll(Duration { nanos: 90_000 * MS }));
    assert!(!b.poll(Duration { nanos: 95_000 * MS }));
}

#[test]
fn a_mission_is_summed_up() {
    let mut s = ocs();
    s.sensor_latency_us = vec![1, 2, 6];
    s.sensor_drift_us = vec![5];
    s.task_jitter_us = vec![0, 3];
    s.cpu_active_us = 30;
    s.cpu_idle_us = 70;
    assert!(can_summarize(&s));
    let m = summarize(&s);
    assert_eq!(m.sensor_latency_us, (1, 3, 6));
    assert_eq!(m.sensor_drift_us, (5, 5, 5));
    assert_eq!(m.sensor_jitter_us, (0, 0, 0));
    assert_eq!(m.task_jitter_us, (0, 1, 3));
    assert_eq!((m.cpu_active_us, m.cpu_total_us), (30, 100));
    s.tx_latency_us = vec![u128::MAX, 1];
    assert!(!can_summarize(&s));
}
