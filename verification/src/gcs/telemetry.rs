//! The telemetry that comes in.

use vstd::prelude::*;

use crate::gcs::state::{GcsState, GcsView, MetricsView};
use crate::gcs::uplink::URGENT_DEADLINE_MS;
use crate::shared::{Command, CommandView, TelemetryPacket, TelemetryType, TelemetryTypeView};
use crate::time::{magnitude, micros_between, millis, millis_between, Duration, Instant};
use crate::wallclock::utc_now_millis;

verus! {

/// How long the decoding of a packet may take, in milliseconds.
pub const DECODE_DEADLINE_MS: u64 = 3;

/// How many failures in a row mean that contact is lost.
pub const LOSS_OF_CONTACT_FAILURES: u32 = 3;

/// The state after the wait for a packet began at `now`.
pub open spec fn after_begin(v: GcsView, now: Instant) -> GcsView {
    GcsView { telemetry_processing_start: Some(now), ..v }
}

/// Begins to wait for a packet at `now`.
pub fn begin_receive(state: &mut GcsState, now: Instant)
    ensures
        final(state)@ == (GcsView { telemetry_processing_start: Some(now), ..old(state)@ }),
        final(state)@ == after_begin(old(state)@, now),
        old(state)@.wf() ==> final(state)@.wf(),
{
    state.telemetry_processing_start = Some(now);
}

/// Whether a wait that ended at `now` counts as a backlog.
pub open spec fn counts_as_backlog(v: GcsView, now: Instant) -> bool {
    match v.telemetry_processing_start {
        Some(start) => micros_between(now, start) > 0,
        None => false,
    }
}

/// The state after the wait for a packet ended at `now`. Every hundredth backlog is noted.
pub open spec fn after_wait(v: GcsView, now: Instant) -> GcsView {
    if counts_as_backlog(v, now) {
        let count = v.telemetry_backlog_count + 1;
        GcsView {
            telemetry_backlog_count: count,
            metrics: MetricsView {
                telemetry_backlog_samples: if count % 100 == 0 {
                    v.metrics.telemetry_backlog_samples.push(count as u64)
                } else {
                    v.metrics.telemetry_backlog_samples
                },
                ..v.metrics
            },
            ..v
        }
    } else {
        v
    }
}

/// The backlog that is noted when the wait for a packet ended at `now`.
pub open spec fn noted_backlog(v: GcsView, now: Instant) -> Option<u64> {
    if counts_as_backlog(v, now) && (v.telemetry_backlog_count + 1) % 100 == 0 {
        Some((v.telemetry_backlog_count + 1) as u64)
    } else {
        None
    }
}

/// Takes in that the wait for a packet ended at `now`, and gives the backlog if it was noted.
pub fn note_wait(state: &mut GcsState, now: Instant) -> (noted: Option<u64>)
    requires
        after_wait(old(state)@, now).telemetry_backlog_count <= u64::MAX,
    ensures
        final(state)@ == after_wait(old(state)@, now),
        noted == (if counts_as_backlog(old(state)@, now) && (old(state)@.telemetry_backlog_count
            + 1) % 100 == 0 {
            Some((old(state)@.telemetry_backlog_count + 1) as u64)
        } else {
            None
        }),
        noted == noted_backlog(old(state)@, now),
        old(state)@.wf() ==> final(state)@.wf(),
{
    match state.telemetry_processing_start {
        Some(start) => {
            if now.saturating_duration_since(start).as_micros() > 0 {
                state.telemetry_backlog_count = state.telemetry_backlog_count + 1;
                if state.telemetry_backlog_count % 100 == 0 {
                    state.metrics.telemetry_backlog_samples.push(state.telemetry_backlog_count);
                    return Some(state.telemetry_backlog_count);
                }
            }
            None
        },
        None => None,
    }
}

/// The state after a wait for a packet of which nothing came.
pub open spec fn after_nothing(v: GcsView) -> GcsView {
    GcsView { telemetry_processing_start: None, ..v }
}

/// Takes in that nothing came of the wait for a packet: an error, or bytes that are no packet.
pub fn end_receive(state: &mut GcsState)
    ensures
        final(state)@ == (GcsView { telemetry_processing_start: None, ..old(state)@ }),
        final(state)@ == after_nothing(old(state)@),
        old(state)@.wf() ==> final(state)@.wf(),
{
    state.telemetry_processing_start = None;
}

/// The state after the bytes that came were a packet.
pub open spec fn after_decoding(v: GcsView) -> GcsView {
    GcsView {
        telemetry_processing_start: None,
        telemetry_backlog_count: if v.telemetry_backlog_count > 0 {
            (v.telemetry_backlog_count - 1) as nat
        } else {
            0
        },
        ..v
    }
}

/// Takes in that the bytes that came were a packet: the backlog has become smaller.
pub fn packet_decoded(state: &mut GcsState)
    ensures
        final(state)@ == (GcsView {
            telemetry_processing_start: None,
            telemetry_backlog_count: if old(state)@.telemetry_backlog_count > 0 {
                (old(state)@.telemetry_backlog_count - 1) as nat
            } else {
                0
            },
            ..old(state)@
        }),
        final(state)@ == after_decoding(old(state)@),
        old(state)@.wf() ==> final(state)@.wf(),
{
    if state.telemetry_backlog_count > 0 {
        state.telemetry_backlog_count = state.telemetry_backlog_count - 1;
    }
    state.telemetry_processing_start = None;
}

/// The number of the packet that is missing when none comes.
pub open spec fn missing_seq(m: MetricsView) -> int {
    match m.last_seq {
        Some(s) => s + 1,
        None => 0,
    }
}

/// A command with the time by which it is to be sent.
pub struct Timed {
    pub cmd: Command,
    pub deadline: Instant,
}

/// Asks for the packet `seq` again, within the time for urgent commands.
pub fn re_request(seq: u64, now: Instant) -> (t: Timed)
    requires
        now.has_after(millis(URGENT_DEADLINE_MS as int)),
    ensures
        t.cmd@ == (CommandView::ReRequestTelemetry { seq }),
        t.deadline == now.after(millis(URGENT_DEADLINE_MS as int)),
        t.deadline == request_deadline(now),
{
    Timed {
        cmd: Command::ReRequestTelemetry { seq },
        deadline: now.plus(Duration::from_millis(URGENT_DEADLINE_MS)),
    }
}

/// The state after no packet came in time.
pub open spec fn after_timeout(v: GcsView) -> GcsView {
    GcsView {
        metrics: MetricsView {
            consecutive_failures: v.metrics.consecutive_failures + 1,
            ..v.metrics
        },
        telemetry_processing_start: None,
        ..v
    }
}

/// Whether so many failures in a row mean that contact is lost.
pub open spec fn loses_contact(failures: nat) -> bool {
    failures >= LOSS_OF_CONTACT_FAILURES
}

/// By when a packet is to be asked for again at `now`.
pub open spec fn request_deadline(now: Instant) -> Instant {
    now.after(millis(URGENT_DEADLINE_MS as int))
}

/// Takes in that no packet came in time: asks for the missing one and counts a failure. The
/// second result says whether contact is lost.
pub fn handle_timeout(state: &mut GcsState, now: Instant) -> (r: (Timed, bool))
    requires
        missing_seq(old(state)@.metrics) <= u64::MAX,
        old(state).metrics.consecutive_failures < u32::MAX,
        now.has_after(millis(URGENT_DEADLINE_MS as int)),
    ensures
        r.0.cmd@ == (CommandView::ReRequestTelemetry {
            seq: missing_seq(old(state)@.metrics) as u64,
        }),
        r.0.deadline == now.after(millis(URGENT_DEADLINE_MS as int)),
        r.1 == (final(state)@.metrics.consecutive_failures >= LOSS_OF_CONTACT_FAILURES),
        final(state)@ == (GcsView {
            metrics: MetricsView {
                consecutive_failures: old(state)@.metrics.consecutive_failures + 1,
                ..old(state)@.metrics
            },
            telemetry_processing_start: None,
            ..old(state)@
        }),
        final(state)@ == after_timeout(old(state)@),
        r.1 == loses_contact(final(state)@.metrics.consecutive_failures),
        r.0.deadline == request_deadline(now),
        old(state)@.wf() ==> final(state)@.wf(),
{
    let seq: u64 = match state.metrics.last_seq {
        Some(s) => s + 1,
        None => 0,
    };
    let timed = re_request(seq, now);
    state.metrics.consecutive_failures = state.metrics.consecutive_failures + 1;
    let lost = state.metrics.consecutive_failures >= LOSS_OF_CONTACT_FAILURES;
    state.telemetry_processing_start = None;
    (timed, lost)
}

/// Whether a packet that took `decode` to decode missed its deadline.
pub open spec fn decodes_late(decode: Duration) -> bool {
    decode.nanos > millis(DECODE_DEADLINE_MS as int)
}

/// The state after the decoding of a packet took `decode`.
pub open spec fn after_decode_check(v: GcsView, decode: Duration) -> GcsView {
    GcsView {
        metrics: MetricsView {
            missed_deadlines: if decodes_late(decode) {
                v.metrics.missed_deadlines + 1
            } else {
                v.metrics.missed_deadlines
            },
            ..v.metrics
        },
        ..v
    }
}

/// Checks how long the decoding of a packet took, counts a missed deadline and says so.
pub fn check_decode_deadline(decode: Duration, state: &mut GcsState) -> (missed: bool)
    requires
        decode.nanos > millis(DECODE_DEADLINE_MS as int) ==> old(state).metrics.missed_deadlines
            < u64::MAX,
    ensures
        missed == (decode.nanos > millis(DECODE_DEADLINE_MS as int)),
        final(state)@ == (GcsView {
            metrics: MetricsView {
                missed_deadlines: if missed {
                    old(state)@.metrics.missed_deadlines + 1
                } else {
                    old(state)@.metrics.missed_deadlines
                },
                ..old(state)@.metrics
            },
            ..old(state)@
        }),
        missed == decodes_late(decode),
        final(state)@ == after_decode_check(old(state)@, decode),
        old(state)@.wf() ==> final(state)@.wf(),
{
    if decode.nanos > Duration::from_millis(DECODE_DEADLINE_MS).nanos {
        state.metrics.missed_deadlines = state.metrics.missed_deadlines + 1;
        true
    } else {
        false
    }
}

/// When a packet came in, by both clocks.
#[derive(Clone, Copy, Debug, PartialEq, Eq, Structural)]
pub struct Arrival {
    pub instant: Instant,
    pub wall_ms: i64,
}

/// Stamps a packet that came in at `instant` with the wall clock.
pub fn note_arrival(instant: Instant) -> (a: Arrival)
    ensures
        a.instant == instant,
        0 <= a.wall_ms,
{
    Arrival { instant, wall_ms: utc_now_millis() }
}

/// The time that a packet sent at `sent` was on its way when it came in at `wall_ms`.
pub open spec fn time_on_the_way(wall_ms: i64, sent: i64) -> int {
    wall_ms - sent
}

/// The time that a packet sent at `sent_ts_millis` was on its way, in milliseconds.
pub fn packet_latency_ms(arrival: Arrival, sent_ts_millis: i64) -> (ms: i64)
    requires
        i64::MIN <= arrival.wall_ms - sent_ts_millis <= i64::MAX,
    ensures
        ms == arrival.wall_ms - sent_ts_millis,
        ms == time_on_the_way(arrival.wall_ms, sent_ts_millis),
{
    arrival.wall_ms - sent_ts_millis
}

/// The number that the bits of `x` stand for in two's complement.
pub open spec fn signed(x: int) -> int {
    if x < 0x8000_0000_0000_0000 {
        x
    } else {
        x - 0x1_0000_0000_0000_0000
    }
}

/// The number of the packet that is expected when the packet `seq` comes: the one after the
/// last, or any number for the first packet.
pub open spec fn expected_seq(m: MetricsView, seq: u64) -> int {
    match m.last_seq {
        Some(s) => s + 1,
        None => seq as int,
    }
}

/// How many packets were left out before the packet `seq`; negative if it is an old one.
pub open spec fn gap(m: MetricsView, seq: u64) -> int {
    signed(seq as int) - signed(expected_seq(m, seq))
}

/// Whether the packet `seq` is the expected one.
pub open spec fn in_order(m: MetricsView, seq: u64) -> bool {
    seq == expected_seq(m, seq)
}

/// Whether packets were left out before the packet `seq`.
pub open spec fn leaves_gap(m: MetricsView, seq: u64) -> bool {
    !in_order(m, seq) && gap(m, seq) > 0
}

/// The gap before the packet `seq` as it is counted: its low 32 bits.
pub open spec fn counted_gap(m: MetricsView, seq: u64) -> nat {
    (gap(m, seq) % 0x1_0000_0000) as nat
}

/// The measurements after the number of the packet `seq` was looked at. The expected packet
/// ends a run of failures, a gap adds to it, and an old packet leaves it as it is.
pub open spec fn after_seq(m: MetricsView, seq: u64) -> MetricsView {
    let counted = MetricsView { total_packets: m.total_packets + 1, ..m };
    if in_order(m, seq) {
        MetricsView { consecutive_failures: 0, ..counted }
    } else if leaves_gap(m, seq) {
        MetricsView {
            consecutive_failures: m.consecutive_failures + counted_gap(m, seq),
            missing_packets_count: m.missing_packets_count + counted_gap(m, seq),
            ..counted
        }
    } else {
        counted
    }
}

/// How far the packet that came at `recv` is from one period after the packet before.
pub open spec fn jitter_of(last: Instant, recv: Instant, period: int) -> int {
    magnitude(millis_between(recv, last) - period)
}

/// How far the packet `seq` that came at `recv` is from where it should be, counted from the
/// first packet.
pub open spec fn drift_of(t0: Instant, s0: u64, recv: Instant, seq: u64, period: int) -> int {
    millis_between(recv, t0) - (seq - s0) * period
}

/// The measurements after the packet `seq` came in at `recv`, where packets are meant to come
/// once in `period` milliseconds and this one was `latency` on its way.
pub open spec fn after_packet(
    m: MetricsView,
    seq: u64,
    recv: Instant,
    latency: i64,
    period: int,
) -> MetricsView {
    let counted = after_seq(m, seq);
    let t0 = if m.first_recv_instant is None {
        Some(recv)
    } else {
        m.first_recv_instant
    };
    let s0 = if m.first_recv_instant is None {
        Some(seq)
    } else {
        m.first_seq
    };
    MetricsView {
        jitter_samples: match m.last_recv_instant {
            Some(last) => m.jitter_samples.push(jitter_of(last, recv, period) as i128),
            None => m.jitter_samples,
        },
        first_recv_instant: t0,
        first_seq: s0,
        drift_samples: if t0 is Some && s0 is Some {
            m.drift_samples.push(drift_of(t0->0, s0->0, recv, seq, period) as i128)
        } else {
            m.drift_samples
        },
        last_seq: Some(seq),
        last_recv_instant: Some(recv),
        latency_samples: m.latency_samples.push(latency as i128),
        ..counted
    }
}

/// Whether everything that is computed when the packet `seq` comes in at `recv` fits into its
/// type.
pub open spec fn packet_fits(m: MetricsView, seq: u64, recv: Instant, period: int) -> bool {
    let t0 = if m.first_recv_instant is None {
        recv
    } else {
        m.first_recv_instant->0
    };
    let s0 = if m.first_recv_instant is None {
        seq
    } else {
        m.first_seq->0
    };
    &&& m.total_packets < u64::MAX
    &&& expected_seq(m, seq) <= u64::MAX
    &&& !in_order(m, seq) ==> i64::MIN <= gap(m, seq) <= i64::MAX
    &&& after_seq(m, seq).consecutive_failures <= u32::MAX
    &&& after_seq(m, seq).missing_packets_count <= u32::MAX
    &&& m.last_recv_instant matches Some(last) ==> i128::MIN < millis_between(recv, last)
        - period <= i128::MAX
    &&& m.first_recv_instant is None || m.first_seq is Some ==> {
        &&& i128::MIN <= (seq - s0) * period <= i128::MAX
        &&& i128::MIN <= drift_of(t0, s0, recv, seq, period) <= i128::MAX
    }
}

/// The packets to ask for again: those from `from` on that come before `to`.
#[derive(Clone, Copy, Debug, PartialEq, Eq, Structural)]
pub struct SeqRange {
    pub from: u64,
    pub to: u64,
}

impl SeqRange {
    /// The packets to ask for again, in the order in which they are asked for.
    pub open spec fn numbers(self) -> Seq<u64> {
        if self.from < self.to {
            Seq::new((self.to - self.from) as nat, |i: int| (self.from + i) as u64)
        } else {
            Seq::empty()
        }
    }

    /// Takes the next packet to ask for again, if one is left.
    pub fn next(&mut self) -> (r: Option<u64>)
        ensures
            r is Some <==> old(self).from < old(self).to,
            r matches Some(seq) ==> seq == old(self).from && final(self).from == seq + 1
                && final(self).to == old(self).to,
            r matches Some(seq) ==> old(self).numbers() == seq![seq] + final(self).numbers(),
            r is None ==> *final(self) == *old(self) && old(self).numbers() == Seq::<
                u64,
            >::empty(),
    {
        if self.from < self.to {
            let seq: u64 = self.from;
            self.from = seq + 1;
            assert(old(self).numbers() =~= seq![seq] + self.numbers());
            Some(seq)
        } else {
            None
        }
    }
}

/// Law: each packet of a range is asked for once, in ascending order, and no other packet is.
pub proof fn law_requests_ascend(r: SeqRange, i: int, seq: u64)
    ensures
        0 <= i < r.numbers().len() - 1 ==> r.numbers()[i] < r.numbers()[i + 1],
        r.numbers().contains(seq) <==> r.from <= seq < r.to,
        r.numbers().no_duplicates(),
{
    if r.from <= seq < r.to {
        assert(r.numbers()[seq - r.from] == seq);
    }
}

/// What came of a packet.
#[derive(Clone, Copy, Debug, PartialEq, Eq, Structural)]
pub struct PacketReport {
    /// The packets that were left out, if there are any.
    pub missing: Option<SeqRange>,
    /// The failures that the packet put an end to.
    pub failures_ended: u32,
    /// Contact is lost.
    pub contact_lost: bool,
}

/// What comes of the packet `seq`.
pub open spec fn packet_report(m: MetricsView, seq: u64) -> PacketReport {
    PacketReport {
        missing: if leaves_gap(m, seq) {
            Some(SeqRange { from: expected_seq(m, seq) as u64, to: seq })
        } else {
            None
        },
        failures_ended: if in_order(m, seq) {
            m.consecutive_failures as u32
        } else {
            0
        },
        contact_lost: loses_contact(after_seq(m, seq).consecutive_failures),
    }
}

/// Two's complement of 64 bits.
fn to_signed(x: u64) -> (r: i64)
    ensures
        r == signed(x as int),
{
    if x < 0x8000_0000_0000_0000 {
        x as i64
    } else {
        -((u64::MAX - x) as i64) - 1
    }
}

/// Whether everything that is computed when the packet `seq` comes in at `recv` fits into its
/// type.
pub fn can_take_packet(
    state: &GcsState,
    seq: u64,
    recv: Instant,
    expected_period_ms: i128,
) -> (r: bool)
    ensures
        r == packet_fits(state@.metrics, seq, recv, expected_period_ms as int),
{
    let met = &state.metrics;
    if met.total_packets == u64::MAX {
        return false;
    }
    let expected: u64 = match met.last_seq {
        Some(s) => {
            if s == u64::MAX {
                return false;
            }
            s + 1
        },
        None => seq,
    };
    if seq != expected {
        match to_signed(seq).checked_sub(to_signed(expected)) {
            Some(gap) => {
                if gap > 0 {
                    let counted: u32 = ((gap as u64) % 0x1_0000_0000) as u32;
                    if met.consecutive_failures > u32::MAX - counted || met.missing_packets_count
                        > u32::MAX - counted {
                        return false;
                    }
                }
            },
            None => {
                return false;
            },
        }
    }
    match met.last_recv_instant {
        Some(last) => {
            let actual: i128 = recv.saturating_duration_since(last).as_millis() as i128;
            match actual.checked_sub(expected_period_ms) {
                Some(diff) => {
                    if diff == i128::MIN {
                        return false;
                    }
                },
                None => {
                    return false;
                },
            }
        },
        None => {},
    }
    match (met.first_recv_instant, met.first_seq) {
        (Some(t0), Some(s0)) => {
            let elapsed_ms: i128 = recv.saturating_duration_since(t0).as_millis() as i128;
            let steps: i128 = (seq as i128) - (s0 as i128);
            match steps.checked_mul(expected_period_ms) {
                Some(offset) => elapsed_ms.checked_sub(offset).is_some(),
                None => false,
            }
        },
        _ => {
            assert((seq - seq) * expected_period_ms == 0) by (nonlinear_arith);
            true
        },
    }
}

/// Takes in a packet that came at `recv_instant`.
pub fn update_metrics(
    pkt: &TelemetryPacket,
    recv_instant: Instant,
    latency_ms: i64,
    expected_period_ms: i128,
    state: &mut GcsState,
) -> (report: PacketReport)
    requires
        packet_fits(old(state)@.metrics, pkt.seq, recv_instant, expected_period_ms as int),
    ensures
        final(state)@ == (GcsView {
            metrics: after_packet(
                old(state)@.metrics,
                pkt.seq,
                recv_instant,
                latency_ms,
                expected_period_ms as int,
            ),
            ..old(state)@
        }),
        report.missing == (if leaves_gap(old(state)@.metrics, pkt.seq) {
            Some(
                SeqRange {
                    from: expected_seq(old(state)@.metrics, pkt.seq) as u64,
                    to: pkt.seq,
                },
            )
        } else {
            None
        }),
        report.failures_ended == (if in_order(old(state)@.metrics, pkt.seq) {
            old(state)@.metrics.consecutive_failures
        } else {
            0
        }),
        report.contact_lost == (final(state)@.metrics.consecutive_failures
            >= LOSS_OF_CONTACT_FAILURES),
        report == packet_report(old(state)@.metrics, pkt.seq),
        old(state)@.wf() ==> final(state)@.wf(),
{
    let met = &mut state.metrics;
    met.total_packets = met.total_packets + 1;
    let expected: u64 = match met.last_seq {
        Some(s) => s + 1,
        None => pkt.seq,
    };
    let mut missing: Option<SeqRange> = None;
    let mut failures_ended: u32 = 0;
    if pkt.seq != expected {
        let gap: i64 = to_signed(pkt.seq) - to_signed(expected);
        if gap > 0 {
            let counted: u32 = ((gap as u64) % 0x1_0000_0000) as u32;
            met.consecutive_failures = met.consecutive_failures + counted;
            met.missing_packets_count = met.missing_packets_count + counted;
            missing = Some(SeqRange { from: expected, to: pkt.seq });
        }
    } else {
        failures_ended = met.consecutive_failures;
        met.consecutive_failures = 0;
    }
    let contact_lost = met.consecutive_failures >= LOSS_OF_CONTACT_FAILURES;
    match met.last_recv_instant {
        Some(last) => {
            let actual: i128 = recv_instant.saturating_duration_since(last).as_millis() as i128;
            let diff: i128 = actual - expected_period_ms;
            let jitter: i128 = if diff >= 0 {
                diff
            } else {
                -diff
            };
            met.jitter_samples.push(jitter);
        },
        None => {},
    }
    if met.first_recv_instant.is_none() {
        met.first_recv_instant = Some(recv_instant);
        met.first_seq = Some(pkt.seq);
    }
    match (met.first_recv_instant, met.first_seq) {
        (Some(t0), Some(s0)) => {
            let elapsed_ms: i128 = recv_instant.saturating_duration_since(t0).as_millis() as i128;
            let offset: i128 = ((pkt.seq as i128) - (s0 as i128)) * expected_period_ms;
            met.drift_samples.push(elapsed_ms - offset);
        },
        _ => {},
    }
    met.last_seq = Some(pkt.seq);
    met.last_recv_instant = Some(recv_instant);
    met.latency_samples.push(latency_ms as i128);
    PacketReport { missing, failures_ended, contact_lost }
}

/// What a packet says about faults.
#[derive(Clone, Copy, Debug, PartialEq, Eq, Structural)]
pub enum FaultNotice {
    /// Nothing.
    NoFault,
    /// There is a fault that was not known before.
    NewFault,
    /// The fault that is known is still there.
    StillActive,
}

/// What a packet of type `t` says about faults.
pub open spec fn fault_notice(m: MetricsView, t: TelemetryTypeView) -> FaultNotice {
    match t {
        TelemetryTypeView::Fault(desc) => if m.active_fault == Some(desc) {
            FaultNotice::StillActive
        } else {
            FaultNotice::NewFault
        },
        _ => FaultNotice::NoFault,
    }
}

/// The state after a packet of type `t` was looked at for faults at `now`. A fault engages
/// the interlock, and a new one becomes the active one.
pub open spec fn after_fault_check(v: GcsView, t: TelemetryTypeView, now: Instant) -> GcsView {
    match t {
        TelemetryTypeView::Fault(desc) => GcsView {
            safe_mode: true,
            metrics: if v.metrics.active_fault == Some(desc) {
                v.metrics
            } else {
                MetricsView {
                    active_fault: Some(desc),
                    fault_detected_at: Some(now),
                    ..v.metrics
                }
            },
            ..v
        },
        _ => v,
    }
}

/// Looks at a packet for faults at `now`, and engages the interlock if there is one.
pub fn handle_fault_packet(pkt: &TelemetryPacket, state: &mut GcsState, now: Instant) -> (notice:
    FaultNotice)
    ensures
        notice == fault_notice(old(state)@.metrics, pkt@.ttype),
        final(state)@ == after_fault_check(old(state)@, pkt@.ttype, now),
        old(state)@.wf() ==> final(state)@.wf(),
{
    match &pkt.ttype {
        TelemetryType::Fault(desc) => {
            let known = match &state.metrics.active_fault {
                Some(f) => *f == *desc,
                None => false,
            };
            state.safe_mode = true;
            if known {
                FaultNotice::StillActive
            } else {
                state.metrics.active_fault = Some(desc.clone());
                state.metrics.fault_detected_at = Some(now);
                FaultNotice::NewFault
            }
        },
        _ => FaultNotice::NoFault,
    }
}

/// Notes how long it took to engage the interlock.
pub fn record_interlock_latency(state: &mut GcsState, latency: Duration)
    ensures
        final(state)@ == (GcsView {
            metrics: MetricsView {
                interlock_latency_us: old(state)@.metrics.interlock_latency_us.push(
                    (latency.nanos / 1_000) as u128,
                ),
                ..old(state)@.metrics
            },
            ..old(state)@
        }),
        old(state)@.wf() ==> final(state)@.wf(),
{
    state.metrics.interlock_latency_us.push(latency.as_micros() as u128);
}

/// The state after the interlock was dealt with in `latency`, where the packet said `notice`
/// about faults. Only a fault leaves a latency behind.
pub open spec fn after_interlock(v: GcsView, notice: FaultNotice, latency: Duration) -> GcsView {
    if notice == FaultNotice::NoFault {
        v
    } else {
        GcsView {
            metrics: MetricsView {
                interlock_latency_us: v.metrics.interlock_latency_us.push(
                    (latency.nanos / 1_000) as u128,
                ),
                ..v.metrics
            },
            ..v
        }
    }
}

/// Notes how long it took to engage the interlock, if the packet reported a fault, and says
/// whether it did.
pub fn note_interlock(state: &mut GcsState, notice: FaultNotice, latency: Duration) -> (noted: bool)
    ensures
        noted == (notice != FaultNotice::NoFault),
        final(state)@ == after_interlock(old(state)@, notice, latency),
        old(state)@.wf() ==> final(state)@.wf(),
{
    if notice == FaultNotice::NoFault {
        false
    } else {
        record_interlock_latency(state, latency);
        true
    }
}

/// Law: each packet that reports a fault, a new one or the known one, leaves exactly one
/// interlock latency behind, and no other packet leaves any.
pub proof fn law_one_latency_per_fault(
    v: GcsView,
    t: TelemetryTypeView,
    now: Instant,
    latency: Duration,
)
    ensures
        after_interlock(
            after_fault_check(v, t, now),
            fault_notice(v.metrics, t),
            latency,
        ).metrics.interlock_latency_us == (if t is Fault {
            v.metrics.interlock_latency_us.push((latency.nanos / 1_000) as u128)
        } else {
            v.metrics.interlock_latency_us
        }),
{
}

/// A packet that came in: its number, when it came, and how long it was on its way.
pub struct Receipt {
    pub seq: u64,
    pub recv: Instant,
    pub latency: i64,
}

/// The measurements after the packets of `h` came in, one after the other, to a station that
/// had measured nothing.
pub open spec fn after_packets(h: Seq<Receipt>, period: int) -> MetricsView
    decreases h.len(),
{
    if h.len() == 0 {
        MetricsView::initial()
    } else {
        after_packet(
            after_packets(h.drop_last(), period),
            h.last().seq,
            h.last().recv,
            h.last().latency,
            period,
        )
    }
}

/// Whether everything that is computed fits into its type at each packet of `h`.
pub open spec fn packets_fit(h: Seq<Receipt>, period: int) -> bool {
    forall|k: int|
        0 <= k < h.len() ==> packet_fits(
            after_packets(#[trigger] h.take(k), period),
            h[k].seq,
            h[k].recv,
            period,
        )
}

/// Law: the measurements are the history of the packets. Each packet has left its latency and
/// its drift against the first packet, and each but the first its jitter against the one
/// before. A jitter is never negative, the first drift is zero, and the first and the last
/// packet are kept.
pub proof fn law_packet_history(h: Seq<Receipt>, period: int)
    requires
        h.len() > 0,
        packets_fit(h, period),
    ensures
        ({
            let m = after_packets(h, period);
            &&& m.total_packets == h.len()
            &&& m.latency_samples.len() == h.len()
            &&& m.drift_samples.len() == h.len()
            &&& m.jitter_samples.len() == h.len() - 1
            &&& forall|i: int|
                0 <= i < h.len() ==> #[trigger] m.latency_samples[i] == h[i].latency
            &&& forall|i: int|
                0 <= i < h.len() ==> #[trigger] m.drift_samples[i] == drift_of(
                    h[0].recv,
                    h[0].seq,
                    h[i].recv,
                    h[i].seq,
                    period,
                )
            &&& forall|i: int|
                0 <= i < h.len() - 1 ==> #[trigger] m.jitter_samples[i] == jitter_of(
                    h[i].recv,
                    h[i + 1].recv,
                    period,
                ) && m.jitter_samples[i] >= 0
            &&& m.drift_samples[0] == 0
            &&& m.first_seq == Some(h[0].seq)
            &&& m.first_recv_instant == Some(h[0].recv)
            &&& m.last_seq == Some(h.last().seq)
            &&& m.last_recv_instant == Some(h.last().recv)
        }),
    decreases h.len(),
{
    let t = h.drop_last();
    let n = h.len() - 1;
    let before = after_packets(t, period);
    assert(h.take(n) =~= t);
    assert(packet_fits(before, h[n].seq, h[n].recv, period));
    assert((h[0].seq - h[0].seq) * period == 0) by (nonlinear_arith);
    if n > 0 {
        assert forall|k: int| 0 <= k < t.len() implies packet_fits(
            after_packets(#[trigger] t.take(k), period),
            t[k].seq,
            t[k].recv,
            period,
        ) by {
            assert(t.take(k) =~= h.take(k));
        }
        law_packet_history(t, period);
        let m = after_packets(h, period);
        assert(m.first_seq == before.first_seq && m.first_recv_instant
            == before.first_recv_instant);
        assert forall|i: int| 0 <= i < h.len() implies #[trigger] m.drift_samples[i] == drift_of(
            h[0].recv,
            h[0].seq,
            h[i].recv,
            h[i].seq,
            period,
        ) by {
            if i < n {
                assert(m.drift_samples[i] == before.drift_samples[i]);
            }
        }
        assert forall|i: int| 0 <= i < h.len() - 1 implies #[trigger] m.jitter_samples[i]
            == jitter_of(h[i].recv, h[i + 1].recv, period) && m.jitter_samples[i] >= 0 by {
            if i < n - 1 {
                assert(m.jitter_samples[i] == before.jitter_samples[i]);
            }
        }
        assert forall|i: int| 0 <= i < h.len() implies #[trigger] m.latency_samples[i]
            == h[i].latency by {
            if i < n {
                assert(m.latency_samples[i] == before.latency_samples[i]);
            }
        }
    }
}

/// Law: a gap is asked for exactly. For packet numbers below 2^63, the packets that are asked
/// for again are those after the last one and before this one, as many as the gap is wide.
pub proof fn law_gap_exact(m: MetricsView, seq: u64, last: u64)
    requires
        m.last_seq == Some(last),
        last + 1 < 0x8000_0000_0000_0000,
        seq < 0x8000_0000_0000_0000,
    ensures
        leaves_gap(m, seq) <==> last + 1 < seq,
        leaves_gap(m, seq) ==> expected_seq(m, seq) == last + 1 && gap(m, seq) == seq - (last
            + 1),
        leaves_gap(m, seq) && seq - last <= u32::MAX ==> after_seq(m, seq).missing_packets_count
            == m.missing_packets_count + (seq - last - 1),
{
}

/// Law: the expected packet, and the first packet of all, end a run of failures.
pub proof fn law_in_order_resets(m: MetricsView, seq: u64)
    requires
        m.last_seq is None || seq == m.last_seq->0 + 1,
    ensures
        after_seq(m, seq).consecutive_failures == 0,
        after_seq(m, seq).missing_packets_count == m.missing_packets_count,
{
}

/// Law: a packet that comes after the same one again is no gap and changes neither the
/// failures nor the missing packets.
pub proof fn law_repeat_is_no_gap(m: MetricsView, seq: u64)
    requires
        m.last_seq == Some(seq),
        seq < 0x7fff_ffff_ffff_ffff,
    ensures
        !leaves_gap(m, seq),
        after_seq(m, seq) == (MetricsView { total_packets: m.total_packets + 1, ..m }),
{
}

/// Law: a fault that comes in engages the interlock and is the active one, and a packet
/// without a fault changes nothing.
pub proof fn law_fault_engages_interlock(v: GcsView, t: TelemetryTypeView, now: Instant)
    ensures
        t matches TelemetryTypeView::Fault(desc) ==> after_fault_check(v, t, now).safe_mode
            && after_fault_check(v, t, now).metrics.active_fault == Some(desc),
        !(t is Fault) ==> after_fault_check(v, t, now) == v,
{
}

/// Law: a fault that is reported again keeps the time at which it was first noticed.
pub proof fn law_fault_time_kept(v: GcsView, desc: Seq<char>, first: Instant, again: Instant)
    ensures
        ({
            let t = TelemetryTypeView::Fault(desc);
            let once = after_fault_check(v, t, first);
            after_fault_check(once, t, again) == once
        }),
{
}

} // verus!
