//! What the satellite and the ground station say to each other.

use vstd::prelude::*;

use crate::text::text_of;

verus! {

/// Where the ground station listens for telemetry.
pub const GCS_TELEMETRY_BIND: &'static str = "127.0.0.1:4000";

/// Where the satellite listens for commands.
pub const OCS_CMD_BIND: &'static str = "127.0.0.1:5000";

/// The time from one telemetry packet to the next, in milliseconds.
pub const TELEMETRY_PERIOD_MS: u64 = 100;

/// What a telemetry packet is about.
#[derive(Clone, Debug)]
pub enum TelemetryType {
    Thermal,
    Attitude,
    Power,
    Fault(String),
}

/// A telemetry packet on its way from the satellite to the ground.
#[derive(Clone, Debug)]
pub struct TelemetryPacket {
    pub seq: u64,
    pub ttype: TelemetryType,
    pub sent_ts_millis: i64,
    pub payload: Vec<u8>,
}

/// A command on its way from the ground to the satellite.
#[derive(Clone, Debug)]
pub enum Command {
    NoOp,
    ReRequestTelemetry { seq: u64 },
    Urgent { id: u64, body: String },
    ClearFault,
    QueryStatus,
}

/// The satellite's answer to a command.
#[derive(Clone, Debug)]
pub enum CommandAck {
    Accepted { id: u64 },
    Rejected { id: u64, reason: String },
    StatusReport { safe_mode: bool, active_fault: Option<String>, uptime_secs: u64 },
}

/// What a telemetry packet is about, with its text as characters.
#[verifier::ext_equal]
pub enum TelemetryTypeView {
    Thermal,
    Attitude,
    Power,
    Fault(Seq<char>),
}

/// A telemetry packet, with its text as characters and its payload as a sequence.
#[verifier::ext_equal]
pub struct TelemetryPacketView {
    pub seq: u64,
    pub ttype: TelemetryTypeView,
    pub sent_ts_millis: i64,
    pub payload: Seq<u8>,
}

/// A command, with its text as characters.
#[verifier::ext_equal]
pub enum CommandView {
    NoOp,
    ReRequestTelemetry { seq: u64 },
    Urgent { id: u64, body: Seq<char> },
    ClearFault,
    QueryStatus,
}

/// An answer, with its text as characters.
#[verifier::ext_equal]
pub enum CommandAckView {
    Accepted { id: u64 },
    Rejected { id: u64, reason: Seq<char> },
    StatusReport { safe_mode: bool, active_fault: Option<Seq<char>>, uptime_secs: u64 },
}

impl View for TelemetryType {
    type V = TelemetryTypeView;

    open spec fn view(&self) -> TelemetryTypeView {
        match *self {
            TelemetryType::Thermal => TelemetryTypeView::Thermal,
            TelemetryType::Attitude => TelemetryTypeView::Attitude,
            TelemetryType::Power => TelemetryTypeView::Power,
            TelemetryType::Fault(desc) => TelemetryTypeView::Fault(desc@),
        }
    }
}

impl View for TelemetryPacket {
    type V = TelemetryPacketView;

    open spec fn view(&self) -> TelemetryPacketView {
        TelemetryPacketView {
            seq: self.seq,
            ttype: self.ttype@,
            sent_ts_millis: self.sent_ts_millis,
            payload: self.payload@,
        }
    }
}

impl View for Command {
    type V = CommandView;

    open spec fn view(&self) -> CommandView {
        match *self {
            Command::NoOp => CommandView::NoOp,
            Command::ReRequestTelemetry { seq } => CommandView::ReRequestTelemetry { seq },
            Command::Urgent { id, body } => CommandView::Urgent { id, body: body@ },
            Command::ClearFault => CommandView::ClearFault,
            Command::QueryStatus => CommandView::QueryStatus,
        }
    }
}

impl View for CommandAck {
    type V = CommandAckView;

    open spec fn view(&self) -> CommandAckView {
        match *self {
            CommandAck::Accepted { id } => CommandAckView::Accepted { id },
            CommandAck::Rejected { id, reason } => CommandAckView::Rejected { id, reason: reason@ },
            CommandAck::StatusReport { safe_mode, active_fault, uptime_secs } =>
                CommandAckView::StatusReport {
                safe_mode,
                active_fault: text_of(active_fault),
                uptime_secs,
            },
        }
    }
}

} // verus!
