//! What the downlink does, field by field.

use vstd::prelude::*;

use crate::satellite::downlink::{
    after_batch, after_enqueue, after_init_delay, after_window_look, at_most, batch_payload,
    by_priority, enqueue_report, first_highest, is_first_highest, le_bytes, left_over,
    lemma_by_priority_step, lemma_first_highest_exists, lemma_left_over_kinds, lemma_records_at,
    lemma_records_len, loses_window, next_batch, packet_contents, packet_type, quantized, record,
    records, window_after, window_opens,
};
use crate::satellite::state::{DownlinkPacket, FillRatio, OcsView, SensorKind, SensorSample};
use crate::satellite::telemetry::{after_take, next_packet};
use crate::time::Instant;

verus! {

/// Law: the first sample that is taken is the oldest of those with the highest priority, and the
/// others stay in their order.
pub proof fn law_first_of_a_batch(s: Seq<SensorSample>)
    requires
        s.len() > 0,
    ensures
        ({
            let k = first_highest(s);
            &&& 0 <= k < s.len()
            &&& forall|j: int|
                0 <= j < s.len() ==> (#[trigger] s[j]).kind.rank() <= s[k].kind.rank()
            &&& forall|j: int| 0 <= j < k ==> (#[trigger] s[j]).kind.rank() < s[k].kind.rank()
            &&& at_most(by_priority(s), 1) == seq![s[k]]
            &&& left_over(s, 1) == s.take(k) + s.skip(k + 1)
        }),
{
    lemma_first_highest_exists(s);
    let k = first_highest(s);
    assert(is_first_highest(s, k));
    lemma_by_priority_step(s, k);
    assert(at_most(by_priority(s), 1) =~= seq![s[k]]);
    reveal_with_fuel(left_over, 2);
    assert(left_over(s, 1) =~= s.take(k) + s.skip(k + 1));
}

/// Law: of each sensor the oldest samples are taken, in their order, and the younger ones stay,
/// in theirs.
pub proof fn law_oldest_first(s: Seq<SensorSample>, n: nat, kind: SensorKind)
    ensures
        at_most(by_priority(s), n).filter(|x: SensorSample| x.kind == kind) + left_over(s, n).filter(
            |x: SensorSample| x.kind == kind,
        ) == s.filter(|x: SensorSample| x.kind == kind),
{
    lemma_left_over_kinds(s, n, kind);
}

/// Law: a packet takes sixteen samples, or all where there are fewer, and nothing but the sensor
/// buffer changes.
pub proof fn law_batch_size(v: OcsView)
    ensures
        v.sensor_buffer.len() >= 16 ==> next_batch(v).len() == 16,
        v.sensor_buffer.len() < 16 ==> next_batch(v).len() == v.sensor_buffer.len(),
        after_batch(v).sensor_buffer.len() + next_batch(v).len() == v.sensor_buffer.len(),
        next_batch(v) == at_most(by_priority(v.sensor_buffer), 16),
        after_batch(v) == (OcsView { sensor_buffer: left_over(v.sensor_buffer, 16), ..v }),
{
    crate::satellite::downlink::lemma_batch_lengths(v.sensor_buffer, 16);
}

/// Law: a packet is a thermal one if it holds a thermal sample, an attitude one if it holds an
/// attitude sample but no thermal one, and a power one otherwise.
pub proof fn law_packet_type(s: Seq<SensorSample>)
    ensures
        packet_type(s) is Thermal <==> exists|i: int|
            0 <= i < s.len() && (#[trigger] s[i]).kind is Thermal,
        packet_type(s) is Attitude <==> (forall|i: int|
            0 <= i < s.len() ==> !((#[trigger] s[i]).kind is Thermal)) && exists|i: int|
            0 <= i < s.len() && (#[trigger] s[i]).kind is Attitude,
        packet_type(s) is Power <==> forall|i: int|
            0 <= i < s.len() ==> (#[trigger] s[i]).kind is Power,
{
    assert forall|i: int| 0 <= i < s.len() && !((#[trigger] s[i]).kind is Power) implies s[i].kind
        is Thermal || s[i].kind is Attitude by {}
}

/// Law: there is a packet just where there are samples, and it holds their type and payload.
pub proof fn law_packet_contents(s: Seq<SensorSample>)
    ensures
        packet_contents(s) is Some <==> s.len() > 0,
        packet_contents(s) matches Some(c) ==> c.0 == packet_type(s) && c.1 == batch_payload(s),
{
}

/// Law: a payload is read by its bytes. The first counts the samples; of the four of each sample
/// the first two are its value in tenths, held to sixteen bits, in two's complement with the
/// least significant byte first, the third tells its sensor and the fourth whether it was
/// corrupted.
pub proof fn law_payload_bytes(s: Seq<SensorSample>, i: int)
    requires
        s.len() <= 255,
        0 <= i < s.len(),
    ensures
        ({
            let p = batch_payload(s);
            let x = s[i];
            let word = p[1 + 4 * i] + 256 * p[2 + 4 * i];
            &&& p.len() == 1 + 4 * s.len()
            &&& p[0] == s.len()
            &&& 0 <= x.value_tenths <= 32_767 ==> word == x.value_tenths
            &&& -32_768 <= x.value_tenths < 0 ==> word == 65_536 + x.value_tenths
            &&& x.value_tenths > 32_767 ==> word == 32_767
            &&& x.value_tenths < -32_768 ==> word == 32_768
            &&& p[3 + 4 * i] == (match x.kind {
                SensorKind::Thermal => 0u8,
                SensorKind::Attitude => 1u8,
                SensorKind::Power => 2u8,
            })
            &&& p[4 + 4 * i] == if x.corrupted {
                1u8
            } else {
                0u8
            }
        }),
{
    lemma_records_len(s);
    lemma_records_at(s, i);
    let r = records(s).subrange(4 * i, 4 * i + 4);
    let p = batch_payload(s);
    assert(r == record(s[i]));
    assert(p[1 + 4 * i] == r[0]);
    assert(p[2 + 4 * i] == r[1]);
    assert(p[3 + 4 * i] == r[2]);
    assert(p[4 + 4 * i] == r[3]);
    let q = quantized(s[i].value_tenths as int);
    assert(r[0] == le_bytes(q)[0]);
    assert(r[1] == le_bytes(q)[1]);
    let bits = if q < 0 {
        q + 0x1_0000
    } else {
        q
    };
    assert(0 <= bits < 0x1_0000);
    assert(bits == bits % 0x100 + 0x100 * (bits / 0x100));
}

/// Law: of more than 255 samples a payload holds the first 255.
pub proof fn law_payload_is_cut_off(s: Seq<SensorSample>)
    requires
        s.len() > 255,
    ensures
        batch_payload(s) == batch_payload(s.subrange(0, 255)),
{
    assert(s.subrange(0, 255) =~= s.take(255));
}

/// Law: a packet goes behind all the packets that wait, if fewer than 64 wait, and is dropped and
/// counted otherwise. More than 30 milliseconds of preparation are counted, degraded mode is on
/// just where the sensor buffer holds more than 51 samples, both fills are noted, and nothing
/// else changes.
pub proof fn law_enqueue(v: OcsView, p: DownlinkPacket, prep_ms: int)
    requires
        v.sensor_buffer.len() <= 64,
        v.tx_queue.len() <= 64,
    ensures
        ({
            let after = after_enqueue(v, p, prep_ms);
            let report = enqueue_report(v, p, prep_ms);
            let room = v.tx_queue.len() < 64;
            &&& room ==> after.tx_queue == v.tx_queue + seq![p] && after.dropped_packets
                == v.dropped_packets
            &&& !room ==> after.tx_queue == v.tx_queue && after.dropped_packets
                == v.dropped_packets + 1
            &&& prep_ms > 30 ==> after.downlink_prep_deadline_missed
                == v.downlink_prep_deadline_missed + 1
            &&& prep_ms <= 30 ==> after.downlink_prep_deadline_missed
                == v.downlink_prep_deadline_missed
            &&& after.degraded_mode <==> v.sensor_buffer.len() > 51
            &&& after.buffer_fill_rates == v.buffer_fill_rates.push(
                FillRatio { filled: v.sensor_buffer.len() as usize, capacity: 64 },
            )
            &&& after.tx_fill_rates == v.tx_fill_rates.push(
                FillRatio { filled: after.tx_queue.len() as usize, capacity: 64 },
            )
            &&& after == (OcsView {
                tx_queue: after.tx_queue,
                dropped_packets: after.dropped_packets,
                downlink_prep_deadline_missed: after.downlink_prep_deadline_missed,
                degraded_mode: after.degraded_mode,
                buffer_fill_rates: after.buffer_fill_rates,
                tx_fill_rates: after.tx_fill_rates,
                ..v
            })
            &&& report.queued == room
            &&& report.prep_missed == (prep_ms > 30)
            &&& report.degraded_on == (!v.degraded_mode && v.sensor_buffer.len() > 51)
            &&& report.degraded_off == (v.degraded_mode && v.sensor_buffer.len() <= 51)
        }),
{
    assert(v.tx_queue.push(p) =~= v.tx_queue + seq![p]);
}

/// The state after `n` packets were taken, one after the other.
pub open spec fn after_takes(v: OcsView, n: nat, now: Instant) -> OcsView
    decreases n,
{
    if n == 0 {
        v
    } else {
        after_takes(after_take(v, now), (n - 1) as nat, now)
    }
}

proof fn lemma_takes(v: OcsView, n: nat, now: Instant)
    requires
        n <= v.tx_queue.len(),
    ensures
        after_takes(v, n, now).tx_queue == v.tx_queue.skip(n as int),
        !v.fault_telemetry_pending ==> !after_takes(v, n, now).fault_telemetry_pending,
    decreases n,
{
    if n == 0 {
        assert(v.tx_queue.skip(0) =~= v.tx_queue);
    } else {
        let one = after_take(v, now);
        lemma_takes(one, (n - 1) as nat, now);
        assert(one.tx_queue.skip(n - 1) =~= v.tx_queue.skip(n as int));
    }
}

/// Law: packets leave in the order in which they were queued. Two packets that found room leave
/// one after the other, the first one first, once all that waited before them have left, where no
/// fault is to be reported.
pub proof fn law_packets_leave_as_queued(
    v: OcsView,
    a: DownlinkPacket,
    b: DownlinkPacket,
    prep_ms: int,
    seq: u64,
    ts: i64,
    now: Instant,
)
    requires
        v.tx_queue.len() <= 62,
        !v.fault_telemetry_pending,
    ensures
        ({
            let queued = after_enqueue(after_enqueue(v, a, prep_ms), b, prep_ms);
            let turn = after_takes(queued, v.tx_queue.len(), now);
            &&& next_packet(turn, seq, ts).payload == a.payload@
            &&& next_packet(turn, seq, ts).ttype == a.ttype@
            &&& next_packet(after_take(turn, now), seq, ts).payload == b.payload@
            &&& next_packet(after_take(turn, now), seq, ts).ttype == b.ttype@
            &&& after_take(after_take(turn, now), now).tx_queue.len() == 0
        }),
{
    let n = v.tx_queue.len();
    let queued = after_enqueue(after_enqueue(v, a, prep_ms), b, prep_ms);
    assert(queued.tx_queue =~= v.tx_queue + seq![a, b]);
    lemma_takes(queued, n, now);
    let turn = after_takes(queued, n, now);
    assert(turn.tx_queue =~= seq![a, b]);
    assert(after_take(turn, now).tx_queue =~= seq![b]);
}

/// Law: a packet that waits behind others moves up by one place whenever one is taken, also
/// where a fault is reported in its place.
pub proof fn law_queue_moves_up(v: OcsView, now: Instant, i: int)
    requires
        0 <= i < v.tx_queue.len() - 1,
    ensures
        after_take(v, now).tx_queue.len() == v.tx_queue.len() - 1,
        after_take(v, now).tx_queue[i] == v.tx_queue[i + 1],
{
}

/// Law: a window opens once its time has come, and the next one is due a tenth of a second after
/// that time. Before it, both fills are noted and nothing else changes.
pub proof fn law_windows(v: OcsView, due: Instant, now: Instant)
    requires
        v.sensor_buffer.len() <= 64,
        v.tx_queue.len() <= 64,
        due.nanos + 100_000_000 <= u64::MAX,
    ensures
        window_opens(due, now) <==> due.nanos <= now.nanos,
        due.nanos <= now.nanos ==> window_after(due, now).nanos == due.nanos + 100_000_000
            && after_window_look(v, due, now) == v,
        now.nanos < due.nanos ==> window_after(due, now) == due && after_window_look(v, due, now)
            == (OcsView {
            buffer_fill_rates: v.buffer_fill_rates.push(
                FillRatio { filled: v.sensor_buffer.len() as usize, capacity: 64 },
            ),
            tx_fill_rates: v.tx_fill_rates.push(
                FillRatio { filled: v.tx_queue.len() as usize, capacity: 64 },
            ),
            ..v
        }),
{
}

/// Law: a downlink that takes more than five milliseconds to come up loses its window, which is
/// counted, and nothing else changes.
pub proof fn law_init_delay(v: OcsView, ms: u64)
    ensures
        loses_window(ms) <==> ms >= 6,
        after_init_delay(v, ms).downlink_init_missed == v.downlink_init_missed + (if ms >= 6 {
            1int
        } else {
            0
        }),
        after_init_delay(v, ms) == (OcsView {
            downlink_init_missed: after_init_delay(v, ms).downlink_init_missed,
            ..v
        }),
{
}

/// Law: the first window is due a tenth of a second after the start.
pub proof fn law_first_window(now: Instant)
    requires
        now.nanos + 100_000_000 <= u64::MAX,
    ensures
        crate::satellite::downlink::first_window(now).nanos == now.nanos + 100_000_000,
{
}

} // verus!
