//! The state of the ground station.

use vstd::prelude::*;

pub use crate::gcs::backlog::CommandEntry;
use crate::gcs::backlog::{Backlog, CommandEntryView};
use crate::text::text_of;
use crate::time::Instant;

verus! {

/// How long the processor was busy in a stretch of time.
#[derive(Clone, Copy, Debug, PartialEq, Eq, Structural)]
pub struct CpuSample {
    pub active_ms: u64,
    pub elapsed_ms: u64,
}

/// Everything that the ground station measures.
#[derive(Debug)]
pub struct TelemetryMetrics {
    pub last_seq: Option<u64>,
    pub consecutive_failures: u32,
    pub last_recv_instant: Option<Instant>,
    pub latency_samples: Vec<i128>,
    pub jitter_samples: Vec<i128>,
    pub drift_samples: Vec<i128>,
    pub scheduler_drift_samples: Vec<i128>,
    pub command_response_latency_ms: Vec<i128>,
    pub fault_recovery_ms: Vec<u128>,
    pub system_load_samples: Vec<i128>,
    pub active_fault: Option<String>,
    pub fault_detected_at: Option<Instant>,
    pub interlock_latency_us: Vec<u128>,
    pub total_packets: u64,
    pub missed_deadlines: u64,
    pub first_recv_instant: Option<Instant>,
    pub first_seq: Option<u64>,
    pub missing_packets_count: u32,
    pub urgent_command_success: u64,
    pub urgent_command_failures: u64,
    pub mission_abort_count: u32,
    pub telemetry_backlog_samples: Vec<u64>,
    pub cpu_usage_samples: Vec<CpuSample>,
}

/// The measurements with their texts and lists as sequences and their counters as natural
/// numbers.
#[verifier::ext_equal]
pub struct MetricsView {
    pub last_seq: Option<u64>,
    pub consecutive_failures: nat,
    pub last_recv_instant: Option<Instant>,
    pub latency_samples: Seq<i128>,
    pub jitter_samples: Seq<i128>,
    pub drift_samples: Seq<i128>,
    pub scheduler_drift_samples: Seq<i128>,
    pub command_response_latency_ms: Seq<i128>,
    pub fault_recovery_ms: Seq<u128>,
    pub system_load_samples: Seq<i128>,
    pub active_fault: Option<Seq<char>>,
    pub fault_detected_at: Option<Instant>,
    pub interlock_latency_us: Seq<u128>,
    pub total_packets: nat,
    pub missed_deadlines: nat,
    pub first_recv_instant: Option<Instant>,
    pub first_seq: Option<u64>,
    pub missing_packets_count: nat,
    pub urgent_command_success: nat,
    pub urgent_command_failures: nat,
    pub mission_abort_count: nat,
    pub telemetry_backlog_samples: Seq<u64>,
    pub cpu_usage_samples: Seq<CpuSample>,
}

impl View for TelemetryMetrics {
    type V = MetricsView;

    open spec fn view(&self) -> MetricsView {
        MetricsView {
            last_seq: self.last_seq,
            consecutive_failures: self.consecutive_failures as nat,
            last_recv_instant: self.last_recv_instant,
            latency_samples: self.latency_samples@,
            jitter_samples: self.jitter_samples@,
            drift_samples: self.drift_samples@,
            scheduler_drift_samples: self.scheduler_drift_samples@,
            command_response_latency_ms: self.command_response_latency_ms@,
            fault_recovery_ms: self.fault_recovery_ms@,
            system_load_samples: self.system_load_samples@,
            active_fault: text_of(self.active_fault),
            fault_detected_at: self.fault_detected_at,
            interlock_latency_us: self.interlock_latency_us@,
            total_packets: self.total_packets as nat,
            missed_deadlines: self.missed_deadlines as nat,
            first_recv_instant: self.first_recv_instant,
            first_seq: self.first_seq,
            missing_packets_count: self.missing_packets_count as nat,
            urgent_command_success: self.urgent_command_success as nat,
            urgent_command_failures: self.urgent_command_failures as nat,
            mission_abort_count: self.mission_abort_count as nat,
            telemetry_backlog_samples: self.telemetry_backlog_samples@,
            cpu_usage_samples: self.cpu_usage_samples@,
        }
    }
}

impl MetricsView {
    /// The measurements before anything happened.
    pub open spec fn initial() -> MetricsView {
        MetricsView {
            last_seq: None,
            consecutive_failures: 0,
            last_recv_instant: None,
            latency_samples: Seq::empty(),
            jitter_samples: Seq::empty(),
            drift_samples: Seq::empty(),
            scheduler_drift_samples: Seq::empty(),
            command_response_latency_ms: Seq::empty(),
            fault_recovery_ms: Seq::empty(),
            system_load_samples: Seq::empty(),
            active_fault: None,
            fault_detected_at: None,
            interlock_latency_us: Seq::empty(),
            total_packets: 0,
            missed_deadlines: 0,
            first_recv_instant: None,
            first_seq: None,
            missing_packets_count: 0,
            urgent_command_success: 0,
            urgent_command_failures: 0,
            mission_abort_count: 0,
            telemetry_backlog_samples: Seq::empty(),
            cpu_usage_samples: Seq::empty(),
        }
    }
}

impl TelemetryMetrics {
    /// The measurements before anything happened.
    pub fn new() -> (m: TelemetryMetrics)
        ensures
            m@ == MetricsView::initial(),
    {
        TelemetryMetrics {
            last_seq: None,
            consecutive_failures: 0,
            last_recv_instant: None,
            latency_samples: Vec::new(),
            jitter_samples: Vec::new(),
            drift_samples: Vec::new(),
            scheduler_drift_samples: Vec::new(),
            command_response_latency_ms: Vec::new(),
            fault_recovery_ms: Vec::new(),
            system_load_samples: Vec::new(),
            active_fault: None,
            fault_detected_at: None,
            interlock_latency_us: Vec::new(),
            total_packets: 0,
            missed_deadlines: 0,
            first_recv_instant: None,
            first_seq: None,
            missing_packets_count: 0,
            urgent_command_success: 0,
            urgent_command_failures: 0,
            mission_abort_count: 0,
            telemetry_backlog_samples: Vec::new(),
            cpu_usage_samples: Vec::new(),
        }
    }
}

/// Everything that the tasks on the ground share.
pub struct GcsState {
    pub metrics: TelemetryMetrics,
    pub safe_mode: bool,
    pub cmd_backlog: Backlog,
    pub uplink_jitter: Vec<i128>,
    pub last_cmd_dispatch: Option<Instant>,
    pub telemetry_processing_start: Option<Instant>,
    pub telemetry_backlog_count: u64,
    pub cpu_busy_start: Option<Instant>,
    pub cpu_total_active_ms: u64,
}

/// The state with its lists as sequences and its backlog as a map.
#[verifier::ext_equal]
pub struct GcsView {
    pub metrics: MetricsView,
    pub safe_mode: bool,
    pub cmd_backlog: Map<u64, CommandEntryView>,
    pub uplink_jitter: Seq<i128>,
    pub last_cmd_dispatch: Option<Instant>,
    pub telemetry_processing_start: Option<Instant>,
    pub telemetry_backlog_count: nat,
    pub cpu_busy_start: Option<Instant>,
    pub cpu_total_active_ms: nat,
}

impl View for GcsState {
    type V = GcsView;

    open spec fn view(&self) -> GcsView {
        GcsView {
            metrics: self.metrics@,
            safe_mode: self.safe_mode,
            cmd_backlog: self.cmd_backlog@,
            uplink_jitter: self.uplink_jitter@,
            last_cmd_dispatch: self.last_cmd_dispatch,
            telemetry_processing_start: self.telemetry_processing_start,
            telemetry_backlog_count: self.telemetry_backlog_count as nat,
            cpu_busy_start: self.cpu_busy_start,
            cpu_total_active_ms: self.cpu_total_active_ms as nat,
        }
    }
}

impl GcsView {
    /// The state when the ground station starts.
    pub open spec fn initial() -> GcsView {
        GcsView {
            metrics: MetricsView::initial(),
            safe_mode: false,
            cmd_backlog: Map::empty(),
            uplink_jitter: Seq::empty(),
            last_cmd_dispatch: None,
            telemetry_processing_start: None,
            telemetry_backlog_count: 0,
            cpu_busy_start: None,
            cpu_total_active_ms: 0,
        }
    }

    /// What every operation on the ground keeps.
    ///
    /// Each command in the backlog stands under its own number, and is an urgent one. A
    /// first packet has both a time and a number, and without it there is no last one.
    pub open spec fn wf(self) -> bool {
        &&& forall|id: u64| #[trigger]
            self.cmd_backlog.contains_key(id) ==> self.cmd_backlog[id].id == id
                && "Urgent"@.is_prefix_of(self.cmd_backlog[id].cmd_debug)
        &&& self.metrics.first_recv_instant is Some <==> self.metrics.first_seq is Some
        &&& self.metrics.last_seq is Some <==> self.metrics.first_seq is Some
        &&& self.metrics.last_recv_instant is Some <==> self.metrics.first_seq is Some
        &&& self.metrics.latency_samples.len() == self.metrics.total_packets
        &&& self.metrics.drift_samples.len() == self.metrics.total_packets
        &&& self.metrics.total_packets > 0 <==> self.metrics.first_seq is Some
        &&& self.metrics.total_packets > 0 ==> self.metrics.jitter_samples.len() + 1
            == self.metrics.total_packets
        &&& self.metrics.total_packets == 0 ==> self.metrics.jitter_samples.len() == 0
    }
}

impl GcsState {
    /// The state when the ground station starts.
    pub fn new() -> (gcs: GcsState)
        ensures
            gcs@ == GcsView::initial(),
            gcs@.wf(),
    {
        GcsState {
            metrics: TelemetryMetrics::new(),
            safe_mode: false,
            cmd_backlog: Backlog::new(),
            uplink_jitter: Vec::new(),
            last_cmd_dispatch: None,
            telemetry_processing_start: None,
            telemetry_backlog_count: 0,
            cpu_busy_start: None,
            cpu_total_active_ms: 0,
        }
    }
}

} // verus!
