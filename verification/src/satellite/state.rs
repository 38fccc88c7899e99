//! The state of the onboard control system.

use std::collections::VecDeque;

use vstd::prelude::*;

use crate::shared::{TelemetryType, TelemetryTypeView};
use crate::text::text_of;
use crate::time::{Duration, Instant};

verus! {

/// How many samples the sensor buffer holds.
pub const SENSOR_BUFFER_CAPACITY: usize = 64;

/// How many packets the transmission queue holds.
pub const TX_QUEUE_CAPACITY: usize = 64;

/// The sensors on board.
#[derive(Debug, Clone, Copy, PartialEq, Eq, Hash, Structural)]
pub enum SensorKind {
    Thermal,
    Attitude,
    Power,
}

impl SensorKind {
    /// The priority of the sensor's samples; the greatest goes first.
    pub open spec fn rank(self) -> u8 {
        match self {
            SensorKind::Thermal => 3,
            SensorKind::Attitude => 2,
            SensorKind::Power => 1,
        }
    }

    /// The time from one reading of the sensor to the next, in milliseconds.
    pub open spec fn period_millis(self) -> int {
        match self {
            SensorKind::Thermal => 25,
            SensorKind::Attitude => 20,
            SensorKind::Power => 50,
        }
    }

    /// The time from one reading of the sensor to the next, in nanoseconds.
    pub open spec fn period_nanos(self) -> int {
        crate::time::millis(self.period_millis())
    }

    /// The type of the telemetry that carries the sensor's samples.
    pub open spec fn telemetry(self) -> TelemetryTypeView {
        match self {
            SensorKind::Thermal => TelemetryTypeView::Thermal,
            SensorKind::Attitude => TelemetryTypeView::Attitude,
            SensorKind::Power => TelemetryTypeView::Power,
        }
    }

    /// The priority of the sensor's samples; the greatest goes first.
    pub fn priority(self) -> (p: u8)
        ensures
            p == self.rank(),
    {
        match self {
            SensorKind::Thermal => 3,
            SensorKind::Attitude => 2,
            SensorKind::Power => 1,
        }
    }

    /// The time from one reading of the sensor to the next.
    pub fn period(self) -> (d: Duration)
        ensures
            d.nanos == self.period_nanos(),
    {
        match self {
            SensorKind::Thermal => Duration::from_millis(25),
            SensorKind::Attitude => Duration::from_millis(20),
            SensorKind::Power => Duration::from_millis(50),
        }
    }

    /// The type of the telemetry that carries the sensor's samples.
    pub fn telemetry_type(self) -> (t: TelemetryType)
        ensures
            t@ == self.telemetry(),
    {
        match self {
            SensorKind::Thermal => TelemetryType::Thermal,
            SensorKind::Attitude => TelemetryType::Attitude,
            SensorKind::Power => TelemetryType::Power,
        }
    }
}

/// One reading of a sensor. The value is held in tenths of the sensor's unit, cut off
/// towards zero.
#[derive(Debug, Clone, Copy, PartialEq, Eq, Structural)]
pub struct SensorSample {
    pub kind: SensorKind,
    pub value_tenths: i32,
    pub read_at: Instant,
    pub scheduled_at: Instant,
    pub inserted_at: Instant,
    pub corrupted: bool,
}

/// A packet that waits for transmission.
#[derive(Debug, Clone)]
pub struct DownlinkPacket {
    pub ttype: TelemetryType,
    pub payload: Vec<u8>,
    pub enqueued_at: Instant,
}

/// How full a buffer is.
#[derive(Debug, Clone, Copy, PartialEq, Eq, Structural)]
pub struct FillRatio {
    pub filled: usize,
    pub capacity: usize,
}

impl FillRatio {
    /// Whether the buffer is more than four fifths full.
    pub open spec fn nearly_full(self) -> bool {
        self.filled * 5 > self.capacity * 4
    }

    /// Whether the buffer is more than four fifths full.
    pub fn is_nearly_full(self) -> (r: bool)
        ensures
            r == self.nearly_full(),
    {
        (self.filled as u128) * 5 > (self.capacity as u128) * 4
    }
}

/// Everything that the tasks on board share.
#[derive(Debug)]
pub struct OcsState {
    pub safe_mode: bool,
    pub degraded_mode: bool,
    pub active_fault: Option<String>,
    pub active_fault_since: Option<Instant>,
    pub mission_abort: bool,
    pub start: Instant,
    pub sensor_buffer: VecDeque<SensorSample>,
    pub tx_queue: VecDeque<DownlinkPacket>,
    pub packets_sent: u64,
    pub fault_packets: u64,
    pub dropped_packets: u64,
    pub jitter_injections: u64,
    pub commands_received: u64,
    pub ack_ok: u64,
    pub ack_rejected: u64,
    pub sensor_latency_us: Vec<u128>,
    pub sensor_drift_us: Vec<i128>,
    pub sensor_jitter_us: Vec<i128>,
    pub critical_jitter_violations: u64,
    pub thermal_missed_cycles: u32,
    pub safety_alerts: u64,
    pub schedule_drift_us: Vec<i128>,
    pub task_jitter_us: Vec<i128>,
    pub deadline_violations: u64,
    pub thermal_preemptions: u64,
    pub cpu_active_us: u128,
    pub cpu_idle_us: u128,
    pub tx_latency_us: Vec<u128>,
    pub buffer_fill_rates: Vec<FillRatio>,
    pub tx_fill_rates: Vec<FillRatio>,
    pub downlink_init_missed: u64,
    pub downlink_prep_deadline_missed: u64,
    pub faults_injected: u64,
    pub fault_responses: u64,
    pub fault_recovery_us: Vec<u128>,
    pub delayed_power_pending: bool,
    pub corrupt_next_sample: bool,
    pub fault_telemetry_pending: bool,
    pub command_response_latency_us: Vec<u128>,
}

/// The state with its texts, lists and queues as sequences and its counters as natural
/// numbers.
#[verifier::ext_equal]
pub struct OcsView {
    pub safe_mode: bool,
    pub degraded_mode: bool,
    pub active_fault: Option<Seq<char>>,
    pub active_fault_since: Option<Instant>,
    pub mission_abort: bool,
    pub start: Instant,
    pub sensor_buffer: Seq<SensorSample>,
    pub tx_queue: Seq<DownlinkPacket>,
    pub packets_sent: nat,
    pub fault_packets: nat,
    pub dropped_packets: nat,
    pub jitter_injections: nat,
    pub commands_received: nat,
    pub ack_ok: nat,
    pub ack_rejected: nat,
    pub sensor_latency_us: Seq<u128>,
    pub sensor_drift_us: Seq<i128>,
    pub sensor_jitter_us: Seq<i128>,
    pub critical_jitter_violations: nat,
    pub thermal_missed_cycles: nat,
    pub safety_alerts: nat,
    pub schedule_drift_us: Seq<i128>,
    pub task_jitter_us: Seq<i128>,
    pub deadline_violations: nat,
    pub thermal_preemptions: nat,
    pub cpu_active_us: nat,
    pub cpu_idle_us: nat,
    pub tx_latency_us: Seq<u128>,
    pub buffer_fill_rates: Seq<FillRatio>,
    pub tx_fill_rates: Seq<FillRatio>,
    pub downlink_init_missed: nat,
    pub downlink_prep_deadline_missed: nat,
    pub faults_injected: nat,
    pub fault_responses: nat,
    pub fault_recovery_us: Seq<u128>,
    pub delayed_power_pending: bool,
    pub corrupt_next_sample: bool,
    pub fault_telemetry_pending: bool,
    pub command_response_latency_us: Seq<u128>,
}

impl View for OcsState {
    type V = OcsView;

    open spec fn view(&self) -> OcsView {
        OcsView {
            safe_mode: self.safe_mode,
            degraded_mode: self.degraded_mode,
            active_fault: text_of(self.active_fault),
            active_fault_since: self.active_fault_since,
            mission_abort: self.mission_abort,
            start: self.start,
            sensor_buffer: self.sensor_buffer@,
            tx_queue: self.tx_queue@,
            packets_sent: self.packets_sent as nat,
            fault_packets: self.fault_packets as nat,
            dropped_packets: self.dropped_packets as nat,
            jitter_injections: self.jitter_injections as nat,
            commands_received: self.commands_received as nat,
            ack_ok: self.ack_ok as nat,
            ack_rejected: self.ack_rejected as nat,
            sensor_latency_us: self.sensor_latency_us@,
            sensor_drift_us: self.sensor_drift_us@,
            sensor_jitter_us: self.sensor_jitter_us@,
            critical_jitter_violations: self.critical_jitter_violations as nat,
            thermal_missed_cycles: self.thermal_missed_cycles as nat,
            safety_alerts: self.safety_alerts as nat,
            schedule_drift_us: self.schedule_drift_us@,
            task_jitter_us: self.task_jitter_us@,
            deadline_violations: self.deadline_violations as nat,
            thermal_preemptions: self.thermal_preemptions as nat,
            cpu_active_us: self.cpu_active_us as nat,
            cpu_idle_us: self.cpu_idle_us as nat,
            tx_latency_us: self.tx_latency_us@,
            buffer_fill_rates: self.buffer_fill_rates@,
            tx_fill_rates: self.tx_fill_rates@,
            downlink_init_missed: self.downlink_init_missed as nat,
            downlink_prep_deadline_missed: self.downlink_prep_deadline_missed as nat,
            faults_injected: self.faults_injected as nat,
            fault_responses: self.fault_responses as nat,
            fault_recovery_us: self.fault_recovery_us@,
            delayed_power_pending: self.delayed_power_pending,
            corrupt_next_sample: self.corrupt_next_sample,
            fault_telemetry_pending: self.fault_telemetry_pending,
            command_response_latency_us: self.command_response_latency_us@,
        }
    }
}

/// The most microseconds that can lie between two readings of the clock.
pub const MAX_MICROS: u64 = 18_446_744_073_709_551;

/// Whether every sample is a number of microseconds between two readings of the clock.
pub open spec fn all_micros(s: Seq<u128>) -> bool {
    forall|i: int| 0 <= i < s.len() ==> #[trigger] s[i] <= MAX_MICROS
}

/// Whether every sample is a number of microseconds between two readings of the clock.
pub open spec fn all_signed_micros(s: Seq<i128>) -> bool {
    forall|i: int| 0 <= i < s.len() ==> 0 <= #[trigger] s[i] <= MAX_MICROS
}

impl OcsView {
    /// The state at launch: nothing has happened yet.
    pub open spec fn initial(now: Instant) -> OcsView {
        OcsView {
            safe_mode: false,
            degraded_mode: false,
            active_fault: None,
            active_fault_since: None,
            mission_abort: false,
            start: now,
            sensor_buffer: Seq::empty(),
            tx_queue: Seq::empty(),
            packets_sent: 0,
            fault_packets: 0,
            dropped_packets: 0,
            jitter_injections: 0,
            commands_received: 0,
            ack_ok: 0,
            ack_rejected: 0,
            sensor_latency_us: Seq::empty(),
            sensor_drift_us: Seq::empty(),
            sensor_jitter_us: Seq::empty(),
            critical_jitter_violations: 0,
            thermal_missed_cycles: 0,
            safety_alerts: 0,
            schedule_drift_us: Seq::empty(),
            task_jitter_us: Seq::empty(),
            deadline_violations: 0,
            thermal_preemptions: 0,
            cpu_active_us: 0,
            cpu_idle_us: 0,
            tx_latency_us: Seq::empty(),
            buffer_fill_rates: Seq::empty(),
            tx_fill_rates: Seq::empty(),
            downlink_init_missed: 0,
            downlink_prep_deadline_missed: 0,
            faults_injected: 0,
            fault_responses: 0,
            fault_recovery_us: Seq::empty(),
            delayed_power_pending: false,
            corrupt_next_sample: false,
            fault_telemetry_pending: false,
            command_response_latency_us: Seq::empty(),
        }
    }

    /// What every operation on board keeps.
    ///
    /// The buffers stay within their capacities. A fault is active exactly while its start
    /// is known, it holds the satellite in safe mode, and only an active fault waits to be
    /// reported. Every command has been answered once. Every response to a fault has a
    /// recovery time, and no fault is responded to more than once. Whatever was measured is a
    /// number of microseconds between two readings of the clock.
    pub open spec fn wf(self) -> bool {
        &&& self.sensor_buffer.len() <= SENSOR_BUFFER_CAPACITY
        &&& self.tx_queue.len() <= TX_QUEUE_CAPACITY
        &&& self.active_fault is Some <==> self.active_fault_since is Some
        &&& self.active_fault is Some ==> self.safe_mode
        &&& self.fault_telemetry_pending ==> self.active_fault is Some
        &&& self.commands_received == self.ack_ok + self.ack_rejected
        &&& self.fault_responses == self.fault_recovery_us.len()
        &&& self.fault_responses + self.active_faults() <= self.faults_injected
            + self.safety_alerts
        &&& all_micros(self.sensor_latency_us)
        &&& all_micros(self.tx_latency_us)
        &&& all_micros(self.fault_recovery_us)
        &&& all_micros(self.command_response_latency_us)
        &&& all_signed_micros(self.sensor_drift_us)
        &&& all_signed_micros(self.sensor_jitter_us)
        &&& all_signed_micros(self.schedule_drift_us)
        &&& all_signed_micros(self.task_jitter_us)
    }

    /// The number of active faults, which is zero or one.
    pub open spec fn active_faults(self) -> nat {
        if self.active_fault is Some {
            1
        } else {
            0
        }
    }

    /// How full the sensor buffer is.
    pub open spec fn sensor_fill(self) -> FillRatio {
        FillRatio { filled: self.sensor_buffer.len() as usize, capacity: SENSOR_BUFFER_CAPACITY }
    }

    /// How full the transmission queue is.
    pub open spec fn tx_fill(self) -> FillRatio {
        FillRatio { filled: self.tx_queue.len() as usize, capacity: TX_QUEUE_CAPACITY }
    }

    /// The state after a fault described by `text` was noticed at `now`.
    pub open spec fn with_fault(self, text: Seq<char>, now: Instant) -> OcsView {
        OcsView {
            safe_mode: true,
            active_fault: Some(text),
            active_fault_since: Some(now),
            fault_telemetry_pending: true,
            ..self
        }
    }

    /// The state after the active fault, if there is one, was lifted.
    pub open spec fn without_fault(self) -> OcsView {
        OcsView {
            safe_mode: false,
            active_fault: None,
            active_fault_since: None,
            fault_telemetry_pending: false,
            ..self
        }
    }

    /// The state after a response to a fault that took `us` microseconds was recorded.
    pub open spec fn with_response(self, us: u128) -> OcsView {
        OcsView {
            fault_responses: self.fault_responses + 1,
            fault_recovery_us: self.fault_recovery_us.push(us),
            ..self
        }
    }

    /// The whole seconds since launch.
    pub open spec fn uptime(self, now: Instant) -> int {
        now.since(self.start).nanos as int / 1_000_000_000
    }
}

impl OcsState {
    /// The state at launch.
    pub fn new(now: Instant) -> (ocs: OcsState)
        ensures
            ocs@ == OcsView::initial(now),
            ocs@.wf(),
    {
        OcsState {
            safe_mode: false,
            degraded_mode: false,
            active_fault: None,
            active_fault_since: None,
            mission_abort: false,
            start: now,
            sensor_buffer: VecDeque::with_capacity(SENSOR_BUFFER_CAPACITY),
            tx_queue: VecDeque::with_capacity(TX_QUEUE_CAPACITY),
            packets_sent: 0,
            fault_packets: 0,
            dropped_packets: 0,
            jitter_injections: 0,
            commands_received: 0,
            ack_ok: 0,
            ack_rejected: 0,
            sensor_latency_us: Vec::new(),
            sensor_drift_us: Vec::new(),
            sensor_jitter_us: Vec::new(),
            critical_jitter_violations: 0,
            thermal_missed_cycles: 0,
            safety_alerts: 0,
            schedule_drift_us: Vec::new(),
            task_jitter_us: Vec::new(),
            deadline_violations: 0,
            thermal_preemptions: 0,
            cpu_active_us: 0,
            cpu_idle_us: 0,
            tx_latency_us: Vec::new(),
            buffer_fill_rates: Vec::new(),
            tx_fill_rates: Vec::new(),
            downlink_init_missed: 0,
            downlink_prep_deadline_missed: 0,
            faults_injected: 0,
            fault_responses: 0,
            fault_recovery_us: Vec::new(),
            delayed_power_pending: false,
            corrupt_next_sample: false,
            fault_telemetry_pending: false,
            command_response_latency_us: Vec::new(),
        }
    }

    /// The whole seconds from launch to `now`.
    pub fn uptime_secs(&self, now: Instant) -> (secs: u64)
        ensures
            secs == self@.uptime(now),
    {
        now.saturating_duration_since(self.start).as_secs()
    }

    /// How full the sensor buffer is.
    pub fn sensor_fill_ratio(&self) -> (r: FillRatio)
        ensures
            r == self@.sensor_fill(),
            r.filled == self@.sensor_buffer.len(),
    {
        FillRatio { filled: self.sensor_buffer.len(), capacity: SENSOR_BUFFER_CAPACITY }
    }

    /// How full the transmission queue is.
    pub fn tx_fill_ratio(&self) -> (r: FillRatio)
        ensures
            r == self@.tx_fill(),
            r.filled == self@.tx_queue.len(),
    {
        FillRatio { filled: self.tx_queue.len(), capacity: TX_QUEUE_CAPACITY }
    }
}

} // verus!
