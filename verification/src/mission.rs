//! What holds of the satellite and the ground station together.

use vstd::prelude::*;

use crate::gcs::fault::{after_watchdog, Watchdog, AUTO_RECOVERY_MS};
use crate::gcs::scheduler::{after_tick, blocks};
use crate::gcs::state::{GcsView, MetricsView};
use crate::gcs::telemetry::{
    after_fault_check, after_packet, counted_gap, expected_seq, in_order, leaves_gap,
};
use crate::gcs::uplink::{after_ack, lemma_urgent_text_prefix, retries, urgent_body};
use crate::satellite::command::{after_command, answer};
use crate::satellite::state::OcsView;
use crate::satellite::telemetry::{after_take, next_packet};
use crate::shared::{CommandAckView, CommandView};
use crate::time::{millis_between, Instant};

verus! {

/// The instants of a fault, from the satellite that notices it to the ground that lifts it.
pub struct FaultTimes {
    /// The satellite notices the fault.
    pub noticed: Instant,
    /// The satellite sends the packet that reports it.
    pub sent: Instant,
    /// The ground receives the packet.
    pub received: Instant,
    /// The ground expected its next command.
    pub expected: Instant,
    /// The ground's next command comes up.
    pub ticked: Instant,
    /// The watchdog on the ground looks.
    pub looked: Instant,
    /// The satellite receives the command to clear the fault.
    pub cleared: Instant,
    /// The satellite receives the blocked command again.
    pub retried: Instant,
}

/// Law: a fault runs its course. The satellite reports a new fault in its next packet. On
/// either side urgent commands are then blocked, and the ground keeps the one that comes up.
/// Once the watchdog has cleared the fault and the satellite was told so, the command that was
/// kept is tried again, and accepted.
pub proof fn law_fault_runs_its_course(
    sat: OcsView,
    gcs: GcsView,
    desc: Seq<char>,
    seq: u64,
    ts: i64,
    id: u64,
    w: Watchdog,
    t: FaultTimes,
)
    requires
        id % 5 == 0,
        gcs.metrics.active_fault != Some(desc),
        millis_between(t.looked, t.received) > AUTO_RECOVERY_MS,
    ensures
        ({
            let urgent = CommandView::Urgent { id, body: urgent_body(id) };
            let faulty = sat.with_fault(desc, t.noticed);
            let packet = next_packet(faulty, seq, ts);
            let reported = after_take(faulty, t.sent);
            let alarmed = after_fault_check(gcs, packet.ttype, t.received);
            let kept = after_tick(alarmed, id, t.expected, t.ticked);
            let lifted = after_watchdog(kept, w, t.looked);
            let restored = after_command(reported, CommandView::ClearFault, t.cleared);
            &&& answer(reported, urgent, t.ticked) is Rejected
            &&& blocks(alarmed, id)
            &&& !retries(kept, id)
            &&& !lifted.safe_mode
            &&& lifted.metrics.active_fault is None
            &&& retries(lifted, id)
            &&& answer(restored, urgent, t.retried) == (CommandAckView::Accepted { id })
        }),
{
    lemma_urgent_text_prefix(id, urgent_body(id));
}

/// Law: a status report brings the ground into the mode of the satellite.
pub proof fn law_status_report_agrees(sat: OcsView, gcs: GcsView, now: Instant)
    ensures
        ({
            let after = after_ack(gcs, answer(sat, CommandView::QueryStatus, now));
            &&& after.safe_mode == sat.safe_mode
            &&& after.metrics.active_fault == sat.active_fault
            &&& after.cmd_backlog == gcs.cmd_backlog
        }),
{
}

/// Law: a link that loses nothing shows no gap, and one that loses `lost` packets in a row shows
/// a gap of that many. Packets are numbered one after the other.
pub proof fn law_lost_packets_are_found(
    m: MetricsView,
    seq: u64,
    recv: Instant,
    latency: i64,
    period: int,
    lost: u64,
)
    requires
        seq + 1 + lost < 0x8000_0000_0000_0000,
        lost <= u32::MAX,
    ensures
        ({
            let after = after_packet(m, seq, recv, latency, period);
            let next = (seq + 1 + lost) as u64;
            &&& in_order(after, next) <==> lost == 0
            &&& leaves_gap(after, next) <==> lost > 0
            &&& lost > 0 ==> counted_gap(after, next) == lost && expected_seq(after, next) == seq
                + 1
        }),
{
}

} // verus!
