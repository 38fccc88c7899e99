//! What received telemetry does to the ground station, field by field.

use vstd::prelude::*;

use crate::gcs::state::{GcsView, MetricsView};
use crate::gcs::telemetry::{
    after_begin, after_decode_check, after_decoding, after_fault_check, after_interlock,
    after_nothing, after_packet, after_timeout, after_wait, decodes_late, fault_notice,
    loses_contact, missing_seq, noted_backlog, packet_fits, packet_report, request_deadline, PacketReport,
    SeqRange,
};
use crate::shared::TelemetryTypeView;
use crate::time::{magnitude, millis_between, Duration, Instant};

verus! {

/// Law: each packet that was left out counts as a failure and as a missing packet, and is asked
/// for again. Three failures in a row, of one gap or of several, lose contact. The expected packet
/// ends a run of failures, and a packet that is not newer than the last one changes none.
pub proof fn law_gap_counts(
    m: MetricsView,
    last: u64,
    seq: u64,
    recv: Instant,
    latency: i64,
    period: int,
)
    requires
        m.last_seq == Some(last),
        last + 1 < 0x8000_0000_0000_0000,
        seq < 0x8000_0000_0000_0000,
        m.consecutive_failures <= u32::MAX,
    ensures
        ({
            let after = after_packet(m, seq, recv, latency, period);
            let report = packet_report(m, seq);
            let lost = seq - last - 1;
            &&& after.total_packets == m.total_packets + 1
            &&& report.contact_lost <==> after.consecutive_failures >= 3
            &&& 0 < lost <= u32::MAX ==> {
                &&& after.consecutive_failures == m.consecutive_failures + lost
                &&& after.missing_packets_count == m.missing_packets_count + lost
                &&& report.missing == Some(SeqRange { from: (last + 1) as u64, to: seq })
                &&& report.failures_ended == 0
            }
            &&& 3 <= lost <= u32::MAX ==> report.contact_lost
            &&& lost > u32::MAX ==> {
                &&& after.consecutive_failures == m.consecutive_failures + lost % 0x1_0000_0000
                &&& after.missing_packets_count == m.missing_packets_count + lost % 0x1_0000_0000
                &&& report.missing == Some(SeqRange { from: (last + 1) as u64, to: seq })
            }
            &&& lost == 0 ==> {
                &&& after.consecutive_failures == 0
                &&& after.missing_packets_count == m.missing_packets_count
                &&& report.missing is None
                &&& report.failures_ended == m.consecutive_failures
                &&& !report.contact_lost
            }
            &&& lost < 0 ==> {
                &&& after.consecutive_failures == m.consecutive_failures
                &&& after.missing_packets_count == m.missing_packets_count
                &&& report.missing is None
                &&& report.failures_ended == 0
            }
        }),
{
}

/// Law: gaps add up. Two gaps with nothing between them count as many failures as they are wide
/// together, and contact is lost once that is three.
pub proof fn law_gaps_add_up(
    m: MetricsView,
    last: u64,
    a: u64,
    b: u64,
    recv: Instant,
    latency: i64,
    period: int,
)
    requires
        m.last_seq == Some(last),
        last + 1 < a,
        a + 1 < b,
        b < 0x8000_0000_0000_0000,
        b - last <= u32::MAX,
    ensures
        ({
            let one = after_packet(m, a, recv, latency, period);
            let two = after_packet(one, b, recv, latency, period);
            &&& two.consecutive_failures == m.consecutive_failures + (b - last - 2)
            &&& two.missing_packets_count == m.missing_packets_count + (b - last - 2)
            &&& b - last - 2 >= 3 ==> packet_report(one, b).contact_lost
        }),
{
}

/// Law: the first packet of all is the expected one, whatever its number.
pub proof fn law_first_packet(m: MetricsView, seq: u64, recv: Instant, latency: i64, period: int)
    requires
        m.last_seq is None,
        m.consecutive_failures <= u32::MAX,
    ensures
        after_packet(m, seq, recv, latency, period).consecutive_failures == 0,
        after_packet(m, seq, recv, latency, period).missing_packets_count
            == m.missing_packets_count,
        after_packet(m, seq, recv, latency, period).total_packets == m.total_packets + 1,
        packet_report(m, seq) == (PacketReport {
            missing: None,
            failures_ended: m.consecutive_failures as u32,
            contact_lost: false,
        }),
{
}

/// Law: numbers are told apart as signed ones. Where the last packet and this one lie in the same
/// half of the range, the gap is their difference. From the lower into the upper half there is
/// none, and from the upper into the lower half it goes round.
pub proof fn law_gap_of_high_numbers(
    m: MetricsView,
    last: u64,
    seq: u64,
    recv: Instant,
    latency: i64,
    period: int,
)
    requires
        m.last_seq == Some(last),
        last + 1 <= u64::MAX,
        seq != last + 1,
    ensures
        ({
            let after = after_packet(m, seq, recv, latency, period);
            let report = packet_report(m, seq);
            let expected = last + 1;
            let half: int = 0x8000_0000_0000_0000;
            let width: int = if (seq < half) == (expected < half) {
                seq - expected
            } else if seq < half {
                seq - expected + 2 * half
            } else {
                seq - expected - 2 * half
            };
            &&& width > 0 ==> {
                &&& after.consecutive_failures == m.consecutive_failures + width % 0x1_0000_0000
                &&& after.missing_packets_count == m.missing_packets_count + width
                    % 0x1_0000_0000
                &&& report.missing == Some(SeqRange { from: expected as u64, to: seq })
            }
            &&& width <= 0 ==> {
                &&& after.consecutive_failures == m.consecutive_failures
                &&& after.missing_packets_count == m.missing_packets_count
                &&& report.missing is None
            }
            &&& report.failures_ended == 0
            &&& report.contact_lost <==> after.consecutive_failures >= 3
        }),
{
}

/// Law: a packet leaves its latency, how far it came from one period after the packet before, and
/// how far it came from its place counted from the first packet. It becomes the last packet, and
/// the first one where there was none. Apart from the counts of packets and failures nothing else
/// changes.
pub proof fn law_packet_measures(
    m: MetricsView,
    seq: u64,
    recv: Instant,
    latency: i64,
    period: int,
)
    ensures
        ({
            let after = after_packet(m, seq, recv, latency, period);
            let first = m.first_recv_instant is None;
            &&& after.latency_samples == m.latency_samples.push(latency as i128)
            &&& after.last_seq == Some(seq)
            &&& after.last_recv_instant == Some(recv)
            &&& first ==> after.first_recv_instant == Some(recv) && after.first_seq == Some(seq)
            &&& !first ==> after.first_recv_instant == m.first_recv_instant && after.first_seq
                == m.first_seq
            &&& m.last_recv_instant is None ==> after.jitter_samples == m.jitter_samples
            &&& m.last_recv_instant matches Some(last) ==> after.jitter_samples
                == m.jitter_samples.push(
                magnitude(millis_between(recv, last) - period) as i128,
            )
            &&& first ==> after.drift_samples == m.drift_samples.push(0)
            &&& !first && m.first_seq is Some ==> after.drift_samples == m.drift_samples.push(
                (millis_between(recv, m.first_recv_instant->0) - (seq - m.first_seq->0)
                    * period) as i128,
            )
            &&& after == (MetricsView {
                total_packets: after.total_packets,
                consecutive_failures: after.consecutive_failures,
                missing_packets_count: after.missing_packets_count,
                latency_samples: after.latency_samples,
                last_seq: after.last_seq,
                last_recv_instant: after.last_recv_instant,
                first_recv_instant: after.first_recv_instant,
                first_seq: after.first_seq,
                jitter_samples: after.jitter_samples,
                drift_samples: after.drift_samples,
                ..m
            })
        }),
{
    assert((seq - seq) * period == 0) by (nonlinear_arith);
}

/// Law: a wait of a microsecond or more makes the backlog grow by one, every hundredth backlog is
/// noted, and a packet that was decoded makes it shrink by one, but not below zero. Begin and end
/// of a wait are kept, and nothing else changes.
pub proof fn law_waits(v: GcsView, start: Instant, now: Instant)
    requires
        v.telemetry_backlog_count < u64::MAX,
    ensures
        ({
            let waiting = after_begin(v, start);
            let after = after_wait(waiting, now);
            let n = v.telemetry_backlog_count + 1;
            let counts = now.nanos >= start.nanos + 1_000;
            &&& waiting == (GcsView { telemetry_processing_start: Some(start), ..v })
            &&& !counts ==> after == waiting && noted_backlog(waiting, now) is None
            &&& counts ==> after.telemetry_backlog_count == n
            &&& counts && n % 100 == 0 ==> noted_backlog(waiting, now) == Some(n as u64)
                && after.metrics.telemetry_backlog_samples
                == v.metrics.telemetry_backlog_samples.push(n as u64)
            &&& counts && n % 100 != 0 ==> noted_backlog(waiting, now) is None && after.metrics
                == v.metrics
            &&& after == (GcsView {
                telemetry_backlog_count: after.telemetry_backlog_count,
                metrics: MetricsView {
                    telemetry_backlog_samples: after.metrics.telemetry_backlog_samples,
                    ..v.metrics
                },
                telemetry_processing_start: Some(start),
                ..v
            })
            &&& after_wait(after_nothing(v), now) == after_nothing(v)
            &&& after_nothing(v) == (GcsView { telemetry_processing_start: None, ..v })
            &&& after_decoding(v).telemetry_backlog_count == (if v.telemetry_backlog_count == 0 {
                0
            } else {
                v.telemetry_backlog_count - 1
            })
            &&& after_decoding(v) == (GcsView {
                telemetry_processing_start: None,
                telemetry_backlog_count: after_decoding(v).telemetry_backlog_count,
                ..v
            })
            &&& counts ==> after_decoding(after).telemetry_backlog_count
                == v.telemetry_backlog_count
        }),
{
}

/// Law: silence is one failure and ends the wait, and the packet after the last one is asked for
/// again, or packet 0 where none came yet, within two milliseconds. From three failures on
/// contact is lost.
pub proof fn law_silence(v: GcsView, failures: nat, now: Instant)
    requires
        now.nanos + 2_000_000 <= u64::MAX,
    ensures
        ({
            let after = after_timeout(v);
            &&& after.metrics.consecutive_failures == v.metrics.consecutive_failures + 1
            &&& after == (GcsView {
                metrics: MetricsView {
                    consecutive_failures: after.metrics.consecutive_failures,
                    ..v.metrics
                },
                telemetry_processing_start: None,
                ..v
            })
            &&& v.metrics.last_seq is None ==> missing_seq(v.metrics) == 0
            &&& v.metrics.last_seq matches Some(s) ==> missing_seq(v.metrics) == s + 1
            &&& loses_contact(failures) <==> failures > 2
            &&& request_deadline(now).nanos == now.nanos + 2_000_000
        }),
{
}

/// Law: decoding that takes more than three milliseconds is a missed deadline, and nothing else
/// changes.
pub proof fn law_decoding(v: GcsView, decode: Duration)
    ensures
        decodes_late(decode) <==> decode.nanos > 3_000_000,
        after_decode_check(v, decode).metrics.missed_deadlines == v.metrics.missed_deadlines + (
        if decode.nanos > 3_000_000 {
            1int
        } else {
            0
        }),
        after_decode_check(v, decode) == (GcsView {
            metrics: MetricsView {
                missed_deadlines: after_decode_check(v, decode).metrics.missed_deadlines,
                ..v.metrics
            },
            ..v
        }),
{
}

/// Law: a packet that reports a fault engages the interlock. If the fault is not the active one,
/// it becomes that, noticed now; if it is, its time stays. Any other packet changes nothing. The
/// time that the interlock took is noted for faults only.
pub proof fn law_fault_packet(v: GcsView, t: TelemetryTypeView, now: Instant, latency: Duration)
    ensures
        ({
            let after = after_fault_check(v, t, now);
            let notice = fault_notice(v.metrics, t);
            let noted = after_interlock(after, notice, latency);
            &&& !(t is Fault) ==> notice is NoFault && after == v && noted == v
            &&& t matches TelemetryTypeView::Fault(desc) ==> {
                let known = v.metrics.active_fault == Some(desc);
                &&& notice is StillActive <==> known
                &&& notice is NewFault <==> !known
                &&& after.safe_mode
                &&& after.metrics.active_fault == Some(desc)
                &&& known ==> after.metrics == v.metrics
                &&& !known ==> after.metrics.fault_detected_at == Some(now)
                &&& after == (GcsView {
                    safe_mode: true,
                    metrics: MetricsView {
                        active_fault: Some(desc),
                        fault_detected_at: after.metrics.fault_detected_at,
                        ..v.metrics
                    },
                    ..v
                })
                &&& noted.metrics.interlock_latency_us.drop_last()
                    == v.metrics.interlock_latency_us
                &&& noted.metrics.interlock_latency_us.len()
                    == v.metrics.interlock_latency_us.len() + 1
                &&& 0 <= latency.nanos - 1_000 * noted.metrics.interlock_latency_us.last() < 1_000
                &&& noted == (GcsView {
                    metrics: MetricsView {
                        interlock_latency_us: noted.metrics.interlock_latency_us,
                        ..after.metrics
                    },
                    ..after
                })
            }
        }),
{
    let after = after_fault_check(v, t, now);
    let noted = after_interlock(after, fault_notice(v.metrics, t), latency);
    if t is Fault {
        assert(noted.metrics.interlock_latency_us.drop_last()
            =~= v.metrics.interlock_latency_us);
    }
}

/// Law: a packet came in when it was sent and its time on the way had passed.
pub proof fn law_latency(wall_ms: i64, sent: i64)
    ensures
        sent + crate::gcs::telemetry::time_on_the_way(wall_ms, sent) == wall_ms,
{
}

/// Law: ordinary packets can always be taken in. Numbers below 2^62, a period of a tenth of a
/// second and counts that are not near their end leave room for everything that is computed.
pub proof fn law_ordinary_packets_fit(m: MetricsView, seq: u64, recv: Instant)
    requires
        seq < 0x4000_0000_0000_0000,
        m.last_seq matches Some(s) ==> s < 0x4000_0000_0000_0000 && seq - s <= 1_000_000_000,
        m.total_packets < u64::MAX,
        m.consecutive_failures <= 1_000_000_000,
        m.missing_packets_count <= 1_000_000_000,
    ensures
        packet_fits(m, seq, recv, 100),
{
}

} // verus!
