//! The telemetry that the satellite sends to the ground.

use vstd::prelude::*;

use crate::satellite::state::{DownlinkPacket, OcsState, OcsView};
use crate::shared::{TelemetryPacket, TelemetryPacketView, TelemetryType, TelemetryTypeView};
use crate::text::copy_text;
use crate::time::{micros_between, Duration, Instant};
use crate::wallclock::utc_now_millis;

verus! {

/// How long the link goes silent when it blacks out, in milliseconds.
pub const BLACKOUT_DURATION_MS: u64 = 1_000;

/// How long the link works before it blacks out, in seconds.
pub const BLACKOUT_TRIGGER_SECS: u64 = 90;

/// The one blackout of the link.
#[derive(Clone, Copy, Debug, PartialEq, Eq, Structural)]
pub struct Blackout {
    pub fired: bool,
}

/// Whether a link that has worked for `running` blacks out, where it did or did not do so
/// before.
pub open spec fn blacks_out(fired: bool, running: Duration) -> bool {
    !fired && running.nanos as int / 1_000_000_000 >= BLACKOUT_TRIGGER_SECS
}

/// Whether the link has blacked out, after it was looked at when it had worked for `running`.
pub open spec fn has_blacked_out(fired: bool, running: Duration) -> bool {
    fired || blacks_out(fired, running)
}

impl Blackout {
    /// The blackout is still to come.
    pub fn new() -> (b: Blackout)
        ensures
            !b.fired,
    {
        Blackout { fired: false }
    }

    /// Whether the link blacks out now that it has worked for `running`. It does so once.
    pub fn poll(&mut self, running: Duration) -> (fires: bool)
        ensures
            fires == (!old(self).fired && running.nanos as int / 1_000_000_000
                >= BLACKOUT_TRIGGER_SECS),
            final(self).fired == (old(self).fired || fires),
            fires == blacks_out(old(self).fired, running),
            final(self).fired == has_blacked_out(old(self).fired, running),
    {
        if !self.fired && running.as_secs() >= BLACKOUT_TRIGGER_SECS {
            self.fired = true;
            true
        } else {
            false
        }
    }
}

/// The fault that the next packet reports, if one waits to be reported.
pub open spec fn reported_fault(v: OcsView) -> Option<Seq<char>> {
    if v.fault_telemetry_pending {
        v.active_fault
    } else {
        None
    }
}

/// The state after the contents of the next packet were taken at `now`. A packet leaves the
/// transmission queue even when a fault is reported in its place.
pub open spec fn after_take(v: OcsView, now: Instant) -> OcsView {
    OcsView {
        fault_telemetry_pending: false,
        tx_queue: if v.tx_queue.len() > 0 {
            v.tx_queue.drop_first()
        } else {
            v.tx_queue
        },
        tx_latency_us: if v.tx_queue.len() > 0 {
            v.tx_latency_us.push(micros_between(now, v.tx_queue[0].enqueued_at) as u128)
        } else {
            v.tx_latency_us
        },
        fault_packets: if reported_fault(v) is Some {
            v.fault_packets + 1
        } else {
            v.fault_packets
        },
        ..v
    }
}

/// The type of a packet that carries nothing: the sensors take turns.
pub open spec fn filler_type(seq: u64) -> TelemetryTypeView {
    if seq % 3 == 0 {
        TelemetryTypeView::Thermal
    } else if seq % 3 == 1 {
        TelemetryTypeView::Attitude
    } else {
        TelemetryTypeView::Power
    }
}

/// The packet that is sent next: a fault that waits to be reported goes first, then the
/// packet at the head of the transmission queue, and eight zeros where there is none.
pub open spec fn next_packet(v: OcsView, seq: u64, sent_ts_millis: i64) -> TelemetryPacketView {
    match reported_fault(v) {
        Some(desc) => TelemetryPacketView {
            seq,
            ttype: TelemetryTypeView::Fault(desc),
            sent_ts_millis,
            payload: Seq::empty(),
        },
        None => if v.tx_queue.len() > 0 {
            TelemetryPacketView {
                seq,
                ttype: v.tx_queue[0].ttype@,
                sent_ts_millis,
                payload: v.tx_queue[0].payload@,
            }
        } else {
            TelemetryPacketView {
                seq,
                ttype: filler_type(seq),
                sent_ts_millis,
                payload: seq![0u8, 0u8, 0u8, 0u8, 0u8, 0u8, 0u8, 0u8],
            }
        },
    }
}

fn zeros() -> (v: Vec<u8>)
    ensures
        v@ == seq![0u8, 0u8, 0u8, 0u8, 0u8, 0u8, 0u8, 0u8],
{
    let mut v: Vec<u8> = Vec::new();
    let mut i: usize = 0;
    while i < 8
        invariant
            i <= 8,
            v@.len() == i,
            forall|j: int| 0 <= j < i ==> v@[j] == 0u8,
        decreases 8 - i,
    {
        v.push(0);
        i = i + 1;
    }
    assert(v@ =~= seq![0u8, 0u8, 0u8, 0u8, 0u8, 0u8, 0u8, 0u8]);
    v
}

/// Takes the packet with number `seq` that is sent at `now`, and at `sent_ts_millis` by the
/// wall clock.
pub fn take_packet(ocs: &mut OcsState, seq: u64, sent_ts_millis: i64, now: Instant) -> (pkt:
    TelemetryPacket)
    requires
        after_take(old(ocs)@, now).fault_packets <= u64::MAX,
    ensures
        pkt@ == next_packet(old(ocs)@, seq, sent_ts_millis),
        final(ocs)@ == after_take(old(ocs)@, now),
        old(ocs)@.wf() ==> final(ocs)@.wf(),
{
    let fault: Option<String> = if ocs.fault_telemetry_pending {
        copy_text(&ocs.active_fault)
    } else {
        None
    };
    ocs.fault_telemetry_pending = false;
    let data: Option<DownlinkPacket> = ocs.tx_queue.pop_front();
    match &data {
        Some(d) => {
            let us: u64 = now.saturating_duration_since(d.enqueued_at).as_micros();
            ocs.tx_latency_us.push(us as u128);
        },
        None => {},
    }
    match fault {
        Some(desc) => {
            ocs.fault_packets = ocs.fault_packets + 1;
            let payload: Vec<u8> = Vec::new();
            TelemetryPacket { seq, ttype: TelemetryType::Fault(desc), sent_ts_millis, payload }
        },
        None => match data {
            Some(d) => TelemetryPacket {
                seq,
                ttype: d.ttype,
                sent_ts_millis,
                payload: d.payload,
            },
            None => {
                let ttype = if seq % 3 == 0 {
                    TelemetryType::Thermal
                } else if seq % 3 == 1 {
                    TelemetryType::Attitude
                } else {
                    TelemetryType::Power
                };
                TelemetryPacket { seq, ttype, sent_ts_millis, payload: zeros() }
            },
        },
    }
}

/// Takes the packet with number `seq` that is sent at `now`, stamped with the wall clock.
pub fn take_packet_now(ocs: &mut OcsState, seq: u64, now: Instant) -> (pkt: TelemetryPacket)
    requires
        after_take(old(ocs)@, now).fault_packets <= u64::MAX,
    ensures
        pkt@ == next_packet(old(ocs)@, seq, pkt.sent_ts_millis),
        0 <= pkt.sent_ts_millis,
        final(ocs)@ == after_take(old(ocs)@, now),
        old(ocs)@.wf() ==> final(ocs)@.wf(),
{
    let sent_ts_millis: i64 = utc_now_millis();
    take_packet(ocs, seq, sent_ts_millis, now)
}

/// The state after a packet was sent.
pub open spec fn after_sent(v: OcsView) -> OcsView {
    OcsView { packets_sent: v.packets_sent + 1, ..v }
}

/// Counts the packet with number `seq` as sent and gives the number of the next one.
pub fn record_sent(ocs: &mut OcsState, seq: u64) -> (next: u64)
    requires
        old(ocs).packets_sent < u64::MAX,
        seq < u64::MAX,
    ensures
        next == seq + 1,
        final(ocs)@ == (OcsView { packets_sent: old(ocs)@.packets_sent + 1, ..old(ocs)@ }),
        final(ocs)@ == after_sent(old(ocs)@),
        old(ocs)@.wf() ==> final(ocs)@.wf(),
{
    ocs.packets_sent = ocs.packets_sent + 1;
    seq + 1
}

/// Law: a fault is reported once. The next packet after it was noticed reports it, and the
/// packet after that one does not.
pub proof fn law_fault_reported_once(
    v: OcsView,
    text: Seq<char>,
    noticed_at: Instant,
    seq: u64,
    ts: i64,
    now: Instant,
)
    ensures
        next_packet(v.with_fault(text, noticed_at), seq, ts).ttype == TelemetryTypeView::Fault(
            text,
        ),
        reported_fault(after_take(v.with_fault(text, noticed_at), now)) is None,
{
}

/// Law: without a fault to report, packets leave in the order in which they were queued.
pub proof fn law_packets_leave_in_order(v: OcsView, seq: u64, ts: i64, now: Instant)
    requires
        reported_fault(v) is None,
        v.tx_queue.len() > 1,
    ensures
        next_packet(v, seq, ts).payload == v.tx_queue[0].payload@,
        next_packet(v, seq, ts).ttype == v.tx_queue[0].ttype@,
        next_packet(after_take(v, now), (seq + 1) as u64, ts).payload == v.tx_queue[1].payload@,
        next_packet(after_take(v, now), (seq + 1) as u64, ts).ttype == v.tx_queue[1].ttype@,
{
}

} // verus!
