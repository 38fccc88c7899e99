//! The downlink: samples are batched into packets while the ground station is in view.

use std::collections::VecDeque;

use rand::rngs::StdRng;
use rand::Rng;
use vstd::multiset::Multiset;
use vstd::prelude::*;

use crate::satellite::state::{
    DownlinkPacket, OcsState, OcsView, SensorKind, SensorSample, TX_QUEUE_CAPACITY,
};
use crate::shared::{TelemetryType, TelemetryTypeView};
use crate::time::{millis, Duration, Instant};

verus! {

/// The time from one visibility window to the next, in milliseconds.
pub const VISIBILITY_WINDOW_MS: u64 = 100;

/// How many samples go into one packet.
pub const MAX_SAMPLES_PER_PACKET: usize = 16;

/// How long the downlink may take to come up, in milliseconds.
pub const INIT_LIMIT_MS: u64 = 5;

/// How long the preparation of a packet may take, in milliseconds.
pub const PREP_LIMIT_MS: u64 = 30;

/// The generator of random numbers that the downlink draws its delays from.
#[verifier::external_type_specification]
#[verifier::external_body]
pub struct ExStdRng(StdRng);

/// Calls `rand::Rng::gen_ratio`. The contract claims what its documentation says of the two
/// certain cases; every other outcome is left to chance.
#[verifier::external_body]
fn draw_ratio(rng: &mut StdRng, numerator: u32, denominator: u32) -> (r: bool)
    requires
        0 < denominator,
        numerator <= denominator,
    ensures
        numerator == denominator ==> r,
        numerator == 0 ==> !r,
{
    rng.gen_ratio(numerator, denominator)
}

/// Calls `rand::Rng::gen_range` on a half-open range, which must not be empty. The contract
/// claims that the number drawn lies in the range; which one it is, is left to chance.
#[verifier::external_body]
fn draw_range(rng: &mut StdRng, low: u64, high: u64) -> (r: u64)
    requires
        low < high,
    ensures
        low <= r < high,
{
    rng.gen_range(low..high)
}

/// The bounds of the delay with which the downlink comes up, in milliseconds: the delay is
/// at least the first and below the second.
pub fn init_delay_bounds(rare: bool) -> (r: (u64, u64))
    ensures
        r == (if rare {
            (6u64, 9u64)
        } else {
            (1u64, 5u64)
        }),
{
    if rare {
        (6, 9)
    } else {
        (1, 5)
    }
}

/// The odds of a delay over the limit: so many times, out of so many.
pub fn init_delay_odds() -> (r: (u32, u32))
    ensures
        r == (1u32, 100u32),
{
    (1, 100)
}

/// Draws the delay with which the downlink comes up, in milliseconds. One time in a hundred
/// it is over the limit.
pub fn sample_init_delay_ms(rng: &mut StdRng) -> (ms: u64)
    ensures
        1 <= ms < 5 || 6 <= ms < 9,
{
    let (times, out_of) = init_delay_odds();
    let rare = draw_ratio(rng, times, out_of);
    let (low, high) = init_delay_bounds(rare);
    draw_range(rng, low, high)
}

/// Whether `i` is the first of the positions in `s` with the highest priority.
pub open spec fn is_first_highest(s: Seq<SensorSample>, i: int) -> bool {
    &&& 0 <= i < s.len()
    &&& forall|j: int| 0 <= j < s.len() ==> (#[trigger] s[j]).kind.rank() <= s[i].kind.rank()
    &&& forall|j: int| 0 <= j < i ==> (#[trigger] s[j]).kind.rank() < s[i].kind.rank()
}

/// The first of the positions in `s` with the highest priority.
pub open spec fn first_highest(s: Seq<SensorSample>) -> int {
    choose|i: int| is_first_highest(s, i)
}

/// The samples that are left of `s` when, `n` times, the first of those with the highest
/// priority is taken.
pub open spec fn left_over(s: Seq<SensorSample>, n: nat) -> Seq<SensorSample>
    decreases n,
{
    if n == 0 || s.len() == 0 {
        s
    } else {
        left_over(s.remove(first_highest(s)), (n - 1) as nat)
    }
}

/// The samples of one sensor, in order.
pub open spec fn of_kind(s: Seq<SensorSample>, kind: SensorKind) -> Seq<SensorSample> {
    s.filter(|x: SensorSample| x.kind == kind)
}

/// The samples by priority, the highest first, and in their old order where it is the same.
pub open spec fn by_priority(s: Seq<SensorSample>) -> Seq<SensorSample> {
    of_kind(s, SensorKind::Thermal) + of_kind(s, SensorKind::Attitude) + of_kind(
        s,
        SensorKind::Power,
    )
}

/// The first `n` samples, or all where there are fewer.
pub open spec fn at_most(s: Seq<SensorSample>, n: nat) -> Seq<SensorSample> {
    if s.len() <= n {
        s
    } else {
        s.take(n as int)
    }
}

/// There is no other first position with the highest priority.
pub proof fn lemma_first_highest_unique(s: Seq<SensorSample>, i: int)
    requires
        is_first_highest(s, i),
    ensures
        first_highest(s) == i,
{
    let k = first_highest(s);
    assert(is_first_highest(s, k));
    if k < i {
        assert(s[k].kind.rank() < s[i].kind.rank());
    } else if i < k {
        assert(s[i].kind.rank() < s[k].kind.rank());
    }
}

/// Taking out a sample that is not of the kind leaves the samples of the kind as they are;
/// taking out the first one of the kind takes out the first of them.
proof fn lemma_of_kind_remove(s: Seq<SensorSample>, i: int, kind: SensorKind)
    requires
        0 <= i < s.len(),
        s[i].kind == kind ==> forall|j: int| 0 <= j < i ==> (#[trigger] s[j]).kind != kind,
    ensures
        s[i].kind != kind ==> of_kind(s.remove(i), kind) == of_kind(s, kind),
        s[i].kind == kind ==> of_kind(s, kind) == seq![s[i]] + of_kind(s.remove(i), kind),
{
    let p = |x: SensorSample| x.kind == kind;
    let a = s.take(i);
    let m = seq![s[i]];
    let b = s.skip(i + 1);
    assert(s =~= a + m + b);
    assert(s.remove(i) =~= a + b);
    Seq::filter_distributes_over_add(a + m, b, p);
    Seq::filter_distributes_over_add(a, m, p);
    Seq::filter_distributes_over_add(a, b, p);
    reveal_with_fuel(Seq::filter, 2);
    assert(m.drop_last() =~= Seq::empty());
    if s[i].kind == kind {
        assert(m.filter(p) =~= m);
        lemma_of_kind_none(a, kind);
        assert(a.filter(p) =~= Seq::empty());
        assert(a.filter(p) + m + b.filter(p) =~= m + (a.filter(p) + b.filter(p)));
    } else {
        assert(m.filter(p) =~= Seq::empty());
        assert(a.filter(p) + Seq::empty() + b.filter(p) =~= a.filter(p) + b.filter(p));
    }
}

proof fn lemma_of_kind_none(s: Seq<SensorSample>, kind: SensorKind)
    requires
        forall|j: int| 0 <= j < s.len() ==> (#[trigger] s[j]).kind != kind,
    ensures
        of_kind(s, kind) == Seq::<SensorSample>::empty(),
    decreases s.len(),
{
    reveal(Seq::filter);
    if s.len() > 0 {
        let t = s.drop_last();
        assert forall|j: int| 0 <= j < t.len() implies (#[trigger] t[j]).kind != kind by {
            assert(t[j] == s[j]);
        }
        lemma_of_kind_none(t, kind);
        assert(s.last() == s[s.len() - 1]);
    }
}

/// Taking out the first sample with the highest priority takes out the first by priority.
pub proof fn lemma_by_priority_step(s: Seq<SensorSample>, i: int)
    requires
        is_first_highest(s, i),
    ensures
        by_priority(s) == seq![s[i]] + by_priority(s.remove(i)),
{
    assert forall|j: int| 0 <= j < i implies (#[trigger] s[j]).kind != s[i].kind by {
        assert(s[j].kind.rank() < s[i].kind.rank());
    }
    lemma_of_kind_remove(s, i, SensorKind::Thermal);
    lemma_of_kind_remove(s, i, SensorKind::Attitude);
    lemma_of_kind_remove(s, i, SensorKind::Power);
    assert forall|kind: SensorKind| kind.rank() > s[i].kind.rank() implies #[trigger] of_kind(
        s,
        kind,
    ) == Seq::<SensorSample>::empty() by {
        assert forall|j: int| 0 <= j < s.len() implies (#[trigger] s[j]).kind != kind by {
            assert(s[j].kind.rank() <= s[i].kind.rank());
        }
        lemma_of_kind_none(s, kind);
    }
    let r = s.remove(i);
    match s[i].kind {
        SensorKind::Thermal => {},
        SensorKind::Attitude => {
            assert(of_kind(s, SensorKind::Thermal) == Seq::<SensorSample>::empty());
        },
        SensorKind::Power => {
            assert(of_kind(s, SensorKind::Thermal) == Seq::<SensorSample>::empty());
            assert(of_kind(s, SensorKind::Attitude) == Seq::<SensorSample>::empty());
        },
    }
    assert(by_priority(s) =~= seq![s[i]] + by_priority(r));
}

/// Takes up to `max_count` samples out of `buffer`: those with the highest priority, the
/// oldest first.
pub fn pop_highest_priority_samples(
    buffer: &mut VecDeque<SensorSample>,
    max_count: usize,
) -> (out: Vec<SensorSample>)
    ensures
        out@ == at_most(by_priority(old(buffer)@), max_count as nat),
        final(buffer)@ == left_over(old(buffer)@, max_count as nat),
        out@.len() + final(buffer)@.len() == old(buffer)@.len(),
{
    let mut out: Vec<SensorSample> = Vec::new();
    let mut taken: usize = 0;
    let ghost whole = buffer@;
    proof {
        lemma_by_priority_len(whole);
        assert(out@ + by_priority(buffer@) =~= by_priority(whole));
    }
    while taken < max_count && buffer.len() > 0
        invariant
            taken <= max_count,
            taken == out@.len(),
            out@ + by_priority(buffer@) == by_priority(whole),
            by_priority(whole).len() == whole.len(),
            out@.len() + buffer@.len() == whole.len(),
            left_over(buffer@, (max_count - taken) as nat) == left_over(whole, max_count as nat),
        decreases max_count - taken,
    {
        let len: usize = buffer.len();
        let ghost s = buffer@;
        let mut best: usize = 0;
        let mut i: usize = 1;
        while i < len
            invariant
                s == buffer@,
                len == s.len(),
                1 <= i <= len,
                best < i,
                forall|j: int|
                    0 <= j < i ==> (#[trigger] s[j]).kind.rank() <= s[best as int].kind.rank(),
                forall|j: int|
                    0 <= j < best ==> (#[trigger] s[j]).kind.rank() < s[best as int].kind.rank(),
            decreases len - i,
        {
            if buffer[i].kind.priority() > buffer[best].kind.priority() {
                best = i;
            }
            i = i + 1;
        }
        proof {
            assert(is_first_highest(s, best as int));
            lemma_first_highest_unique(s, best as int);
            lemma_by_priority_step(s, best as int);
        }
        let ghost before = out@;
        match buffer.remove(best) {
            Some(sample) => {
                out.push(sample);
            },
            None => {},
        }
        proof {
            assert(out@ =~= before + seq![s[best as int]]);
            assert(out@ + by_priority(buffer@) =~= before + by_priority(s));
        }
        taken = taken + 1;
    }
    proof {
        lemma_by_priority_len(buffer@);
        if buffer@.len() == 0 {
            assert(out@ =~= by_priority(whole));
        }
        assert(out@ =~= at_most(by_priority(whole), max_count as nat));
    }
    out
}

proof fn lemma_by_priority_len(s: Seq<SensorSample>)
    ensures
        by_priority(s).len() == s.len(),
    decreases s.len(),
{
    reveal(Seq::filter);
    if s.len() > 0 {
        lemma_by_priority_len(s.drop_last());
    }
}

/// The type of a packet with the given samples: that of the sensor of the highest priority
/// among them, and power where there is none.
pub open spec fn packet_type(s: Seq<SensorSample>) -> TelemetryTypeView {
    if exists|i: int| 0 <= i < s.len() && (#[trigger] s[i]).kind == SensorKind::Thermal {
        TelemetryTypeView::Thermal
    } else if exists|i: int| 0 <= i < s.len() && (#[trigger] s[i]).kind == SensorKind::Attitude {
        TelemetryTypeView::Attitude
    } else {
        TelemetryTypeView::Power
    }
}

fn has_kind(samples: &Vec<SensorSample>, kind: SensorKind) -> (r: bool)
    ensures
        r == exists|i: int| 0 <= i < samples@.len() && (#[trigger] samples@[i]).kind == kind,
{
    let n: usize = samples.len();
    let mut i: usize = 0;
    while i < n
        invariant
            n == samples@.len(),
            i <= n,
            forall|j: int| 0 <= j < i ==> (#[trigger] samples@[j]).kind != kind,
        decreases n - i,
    {
        if samples[i].kind == kind {
            return true;
        }
        i = i + 1;
    }
    false
}

/// The type of the packet that the samples go into.
pub fn classify_packet_type(samples: &Vec<SensorSample>) -> (t: TelemetryType)
    ensures
        t@ == packet_type(samples@),
{
    if has_kind(samples, SensorKind::Thermal) {
        TelemetryType::Thermal
    } else if has_kind(samples, SensorKind::Attitude) {
        TelemetryType::Attitude
    } else {
        TelemetryType::Power
    }
}

/// A value in tenths, held to the range of sixteen bits.
pub open spec fn quantized(tenths: int) -> int {
    if tenths < i16::MIN {
        i16::MIN as int
    } else if tenths > i16::MAX {
        i16::MAX as int
    } else {
        tenths
    }
}

/// The two bytes of a number of sixteen bits in two's complement, least significant first.
pub open spec fn le_bytes(q: int) -> Seq<u8> {
    let bits = if q < 0 {
        q + 0x1_0000
    } else {
        q
    };
    seq![(bits % 0x100) as u8, (bits / 0x100) as u8]
}

/// The byte that stands for a sensor.
pub open spec fn kind_code(kind: SensorKind) -> u8 {
    match kind {
        SensorKind::Thermal => 0,
        SensorKind::Attitude => 1,
        SensorKind::Power => 2,
    }
}

/// The four bytes of a sample: its value, its sensor and whether it was corrupted.
pub open spec fn record(x: SensorSample) -> Seq<u8> {
    le_bytes(quantized(x.value_tenths as int)) + seq![
        kind_code(x.kind),
        if x.corrupted {
            1u8
        } else {
            0u8
        },
    ]
}

/// The records of the samples, one after the other.
pub open spec fn records(s: Seq<SensorSample>) -> Seq<u8>
    decreases s.len(),
{
    if s.len() == 0 {
        Seq::empty()
    } else {
        records(s.drop_last()) + record(s.last())
    }
}

/// The payload of a packet: the number of samples, then their records. A payload holds no
/// more than 255 samples; the rest is cut off.
pub open spec fn batch_payload(s: Seq<SensorSample>) -> Seq<u8> {
    seq![at_most(s, 255).len() as u8] + records(at_most(s, 255))
}

/// Writes the payload of the packet that the samples go into.
pub fn compress_and_packetize_batch(samples: &Vec<SensorSample>) -> (payload: Vec<u8>)
    ensures
        payload@ == batch_payload(samples@),
{
    let len: usize = samples.len();
    let count: usize = if len < 255 {
        len
    } else {
        255
    };
    let mut payload: Vec<u8> = Vec::new();
    payload.push(count as u8);
    let mut i: usize = 0;
    assert(samples@.take(0) =~= Seq::empty());
    assert(payload@ =~= seq![count as u8] + records(samples@.take(0)));
    while i < count
        invariant
            count <= samples@.len(),
            i <= count,
            payload@ == seq![count as u8] + records(samples@.take(i as int)),
        decreases count - i,
    {
        let sample = samples[i];
        let ghost before = payload@;
        let tenths: i32 = sample.value_tenths;
        let q: i32 = if tenths < -32768 {
            -32768
        } else if tenths > 32767 {
            32767
        } else {
            tenths
        };
        let bits: u32 = if q < 0 {
            (q + 0x1_0000) as u32
        } else {
            q as u32
        };
        payload.push((bits % 0x100) as u8);
        payload.push((bits / 0x100) as u8);
        payload.push(
            match sample.kind {
                SensorKind::Thermal => 0,
                SensorKind::Attitude => 1,
                SensorKind::Power => 2,
            },
        );
        payload.push(
            if sample.corrupted {
                1
            } else {
                0
            },
        );
        proof {
            assert(payload@ =~= before + record(sample));
            assert(samples@.take(i + 1).drop_last() =~= samples@.take(i as int));
            assert(samples@.take(i + 1).last() == sample);
            assert(before + record(sample) =~= seq![count as u8] + (records(
                samples@.take(i as int),
            ) + record(sample)));
        }
        i = i + 1;
    }
    assert(samples@.take(count as int) =~= at_most(samples@, 255));
    payload
}

/// The state after both fills were noted.
pub open spec fn after_fills(v: OcsView) -> OcsView {
    OcsView {
        buffer_fill_rates: v.buffer_fill_rates.push(v.sensor_fill()),
        tx_fill_rates: v.tx_fill_rates.push(v.tx_fill()),
        ..v
    }
}

/// Whether a window opens at `now`, where the next one is due at `due`.
pub open spec fn window_opens(due: Instant, now: Instant) -> bool {
    now.nanos >= due.nanos
}

/// When the next window is due after a look at `now`, where it was due at `due`.
pub open spec fn window_after(due: Instant, now: Instant) -> Instant {
    if window_opens(due, now) {
        due.after(millis(VISIBILITY_WINDOW_MS as int))
    } else {
        due
    }
}

/// The state after a look for a window at `now`, where the next one is due at `due`.
pub open spec fn after_window_look(v: OcsView, due: Instant, now: Instant) -> OcsView {
    if window_opens(due, now) {
        v
    } else {
        after_fills(v)
    }
}

/// When the next visibility window opens.
#[derive(Clone, Copy, Debug, PartialEq, Eq, Structural)]
pub struct DownlinkWindow {
    pub next_window: Instant,
}

/// When the first window is due, where the downlink starts at `now`.
pub open spec fn first_window(now: Instant) -> Instant {
    now.after(millis(VISIBILITY_WINDOW_MS as int))
}

impl DownlinkWindow {
    /// The first window opens one interval after `now`.
    pub fn new(now: Instant) -> (w: DownlinkWindow)
        requires
            now.has_after(millis(VISIBILITY_WINDOW_MS as int)),
        ensures
            w.next_window == now.after(millis(VISIBILITY_WINDOW_MS as int)),
            w.next_window == first_window(now),
    {
        DownlinkWindow { next_window: now.plus(Duration::from_millis(VISIBILITY_WINDOW_MS)) }
    }

    /// Whether a window opens at `now`. If it does, the one after it is set one interval
    /// later than this one was due; if not, the fills of the buffers are noted.
    pub fn poll(&mut self, ocs: &mut OcsState, now: Instant) -> (open: bool)
        requires
            now.nanos >= old(self).next_window.nanos ==> old(self).next_window.has_after(
                millis(VISIBILITY_WINDOW_MS as int),
            ),
        ensures
            open == (now.nanos >= old(self).next_window.nanos),
            open ==> final(self).next_window == old(self).next_window.after(
                millis(VISIBILITY_WINDOW_MS as int),
            ) && final(ocs)@ == old(ocs)@,
            !open ==> *final(self) == *old(self) && final(ocs)@ == after_fills(old(ocs)@),
            open == window_opens(old(self).next_window, now),
            final(self).next_window == window_after(old(self).next_window, now),
            final(ocs)@ == after_window_look(old(ocs)@, old(self).next_window, now),
            old(ocs)@.wf() ==> final(ocs)@.wf(),
    {
        if now.nanos < self.next_window.nanos {
            let sensor_fill = ocs.sensor_fill_ratio();
            let tx_fill = ocs.tx_fill_ratio();
            ocs.buffer_fill_rates.push(sensor_fill);
            ocs.tx_fill_rates.push(tx_fill);
            return false;
        }
        self.next_window = self.next_window.plus(Duration::from_millis(VISIBILITY_WINDOW_MS));
        true
    }
}

/// Whether a downlink that took `init_delay_ms` to come up has lost its window.
pub open spec fn loses_window(init_delay_ms: u64) -> bool {
    init_delay_ms > INIT_LIMIT_MS
}

/// The state after the downlink took `init_delay_ms` to come up.
pub open spec fn after_init_delay(v: OcsView, init_delay_ms: u64) -> OcsView {
    if loses_window(init_delay_ms) {
        OcsView { downlink_init_missed: v.downlink_init_missed + 1, ..v }
    } else {
        v
    }
}

/// Whether the window is lost because the downlink took `init_delay_ms` to come up. A lost
/// window is counted.
pub fn note_init_delay(ocs: &mut OcsState, init_delay_ms: u64) -> (missed: bool)
    requires
        init_delay_ms > INIT_LIMIT_MS ==> old(ocs).downlink_init_missed < u64::MAX,
    ensures
        missed == (init_delay_ms > INIT_LIMIT_MS),
        missed ==> final(ocs)@ == (OcsView {
            downlink_init_missed: old(ocs)@.downlink_init_missed + 1,
            ..old(ocs)@
        }),
        !missed ==> final(ocs)@ == old(ocs)@,
        missed == loses_window(init_delay_ms),
        final(ocs)@ == after_init_delay(old(ocs)@, init_delay_ms),
        old(ocs)@.wf() ==> final(ocs)@.wf(),
{
    if init_delay_ms > INIT_LIMIT_MS {
        ocs.downlink_init_missed = ocs.downlink_init_missed + 1;
        true
    } else {
        false
    }
}

/// The samples of the next packet.
pub open spec fn next_batch(v: OcsView) -> Seq<SensorSample> {
    at_most(by_priority(v.sensor_buffer), MAX_SAMPLES_PER_PACKET as nat)
}

/// The state after the samples of the next packet were taken.
pub open spec fn after_batch(v: OcsView) -> OcsView {
    OcsView { sensor_buffer: left_over(v.sensor_buffer, MAX_SAMPLES_PER_PACKET as nat), ..v }
}

/// Takes the samples of the next packet out of the sensor buffer.
pub fn collect_batch(ocs: &mut OcsState) -> (samples: Vec<SensorSample>)
    ensures
        samples@ == at_most(
            by_priority(old(ocs)@.sensor_buffer),
            MAX_SAMPLES_PER_PACKET as nat,
        ),
        final(ocs)@ == (OcsView {
            sensor_buffer: left_over(old(ocs)@.sensor_buffer, MAX_SAMPLES_PER_PACKET as nat),
            ..old(ocs)@
        }),
        samples@ == next_batch(old(ocs)@),
        final(ocs)@ == after_batch(old(ocs)@),
        old(ocs)@.wf() ==> final(ocs)@.wf(),
{
    pop_highest_priority_samples(&mut ocs.sensor_buffer, MAX_SAMPLES_PER_PACKET)
}

/// What a packet of the samples holds: its type and its payload.
pub open spec fn packet_contents(s: Seq<SensorSample>) -> Option<(TelemetryTypeView, Seq<u8>)> {
    if s.len() > 0 {
        Some((packet_type(s), batch_payload(s)))
    } else {
        None
    }
}

/// Makes a packet of the samples, if there are any.
pub fn prepare_packet(samples: &Vec<SensorSample>, now: Instant) -> (packet: Option<DownlinkPacket>)
    ensures
        packet is Some <==> samples@.len() > 0,
        packet matches Some(p) ==> {
            &&& p.ttype@ == packet_type(samples@)
            &&& p.payload@ == batch_payload(samples@)
            &&& p.enqueued_at == now
        },
        packet is Some <==> packet_contents(samples@) is Some,
        packet matches Some(p) ==> packet_contents(samples@) == Some((p.ttype@, p.payload@)),
{
    if samples.len() == 0 {
        return None;
    }
    Some(
        DownlinkPacket {
            ttype: classify_packet_type(samples),
            payload: compress_and_packetize_batch(samples),
            enqueued_at: now,
        },
    )
}

/// The state after `packet`, which took `prep_ms` milliseconds to prepare, was put in the
/// transmission queue, or dropped where the queue was full.
pub open spec fn after_enqueue(v: OcsView, packet: DownlinkPacket, prep_ms: int) -> OcsView {
    let room = v.tx_queue.len() < TX_QUEUE_CAPACITY;
    after_fills(
        OcsView {
            tx_queue: if room {
                v.tx_queue.push(packet)
            } else {
                v.tx_queue
            },
            dropped_packets: if room {
                v.dropped_packets
            } else {
                v.dropped_packets + 1
            },
            downlink_prep_deadline_missed: if prep_ms > PREP_LIMIT_MS {
                v.downlink_prep_deadline_missed + 1
            } else {
                v.downlink_prep_deadline_missed
            },
            degraded_mode: v.sensor_fill().nearly_full(),
            ..v
        },
    )
}

/// What came of a packet.
#[derive(Clone, Copy, Debug, PartialEq, Eq, Structural)]
pub struct EnqueueReport {
    /// The packet is in the queue.
    pub queued: bool,
    /// The preparation took too long.
    pub prep_missed: bool,
    /// Degraded mode was switched on.
    pub degraded_on: bool,
    /// Degraded mode was switched off.
    pub degraded_off: bool,
}

/// What comes of `packet`, which took `prep_ms` milliseconds to prepare.
pub open spec fn enqueue_report(v: OcsView, packet: DownlinkPacket, prep_ms: int) -> EnqueueReport {
    EnqueueReport {
        queued: v.tx_queue.len() < TX_QUEUE_CAPACITY,
        prep_missed: prep_ms > PREP_LIMIT_MS,
        degraded_on: !v.degraded_mode && after_enqueue(v, packet, prep_ms).degraded_mode,
        degraded_off: v.degraded_mode && !after_enqueue(v, packet, prep_ms).degraded_mode,
    }
}

/// Puts `packet`, which took `prep` to prepare, in the transmission queue, or drops it where
/// the queue is full, and switches degraded mode as the fill of the sensor buffer asks.
pub fn enqueue_packet(ocs: &mut OcsState, packet: DownlinkPacket, prep: Duration) -> (report:
    EnqueueReport)
    requires
        after_enqueue(old(ocs)@, packet, prep.nanos as int / 1_000_000).dropped_packets
            <= u64::MAX,
        after_enqueue(
            old(ocs)@,
            packet,
            prep.nanos as int / 1_000_000,
        ).downlink_prep_deadline_missed <= u64::MAX,
    ensures
        final(ocs)@ == after_enqueue(old(ocs)@, packet, prep.nanos as int / 1_000_000),
        report.queued == (old(ocs)@.tx_queue.len() < TX_QUEUE_CAPACITY),
        report.prep_missed == (prep.nanos as int / 1_000_000 > PREP_LIMIT_MS),
        report.degraded_on == (!old(ocs)@.degraded_mode && final(ocs)@.degraded_mode),
        report.degraded_off == (old(ocs)@.degraded_mode && !final(ocs)@.degraded_mode),
        report == enqueue_report(old(ocs)@, packet, prep.nanos as int / 1_000_000),
        old(ocs)@.wf() ==> final(ocs)@.wf(),
{
    let queued = ocs.tx_queue.len() < TX_QUEUE_CAPACITY;
    if queued {
        ocs.tx_queue.push_back(packet);
    } else {
        ocs.dropped_packets = ocs.dropped_packets + 1;
    }
    let prep_missed = prep.as_millis() > PREP_LIMIT_MS;
    if prep_missed {
        ocs.downlink_prep_deadline_missed = ocs.downlink_prep_deadline_missed + 1;
    }
    let sensor_fill = ocs.sensor_fill_ratio();
    let nearly_full = sensor_fill.is_nearly_full();
    let degraded_on = nearly_full && !ocs.degraded_mode;
    let degraded_off = !nearly_full && ocs.degraded_mode;
    if degraded_on {
        ocs.degraded_mode = true;
    }
    if degraded_off {
        ocs.degraded_mode = false;
    }
    let tx_fill = ocs.tx_fill_ratio();
    ocs.buffer_fill_rates.push(sensor_fill);
    ocs.tx_fill_rates.push(tx_fill);
    EnqueueReport { queued, prep_missed, degraded_on, degraded_off }
}

/// A sequence of samples that is not empty has a first position with the highest priority.
pub proof fn lemma_first_highest_exists(s: Seq<SensorSample>)
    requires
        s.len() > 0,
    ensures
        is_first_highest(s, first_highest(s)),
    decreases s.len(),
{
    if s.len() == 1 {
        assert(is_first_highest(s, 0));
    } else {
        let t = s.drop_last();
        lemma_first_highest_exists(t);
        let k = first_highest(t);
        if s.last().kind.rank() > t[k].kind.rank() {
            assert forall|j: int| 0 <= j < s.len() - 1 implies (#[trigger] s[j]).kind.rank()
                < s.last().kind.rank() by {
                assert(s[j] == t[j]);
            }
            assert(is_first_highest(s, s.len() - 1));
        } else {
            assert forall|j: int| 0 <= j < s.len() implies (#[trigger] s[j]).kind.rank()
                <= s[k].kind.rank() by {
                if j < s.len() - 1 {
                    assert(s[j] == t[j]);
                }
            }
            assert forall|j: int| 0 <= j < k implies (#[trigger] s[j]).kind.rank()
                < s[k].kind.rank() by {
                assert(s[j] == t[j]);
            }
            assert(is_first_highest(s, k));
        }
    }
}

/// Law: the order by priority is sorted, the highest priority first.
pub proof fn law_by_priority_sorted(s: Seq<SensorSample>, i: int, j: int)
    requires
        0 <= i <= j < by_priority(s).len(),
    ensures
        by_priority(s)[j].kind.rank() <= by_priority(s)[i].kind.rank(),
{
    lemma_by_priority_kind(s, i);
    lemma_by_priority_kind(s, j);
}

proof fn lemma_by_priority_kind(s: Seq<SensorSample>, i: int)
    requires
        0 <= i < by_priority(s).len(),
    ensures
        ({
            let t = of_kind(s, SensorKind::Thermal).len() as int;
            let a = of_kind(s, SensorKind::Attitude).len() as int;
            by_priority(s)[i].kind == if i < t {
                SensorKind::Thermal
            } else if i < t + a {
                SensorKind::Attitude
            } else {
                SensorKind::Power
            }
        }),
{
    let t = of_kind(s, SensorKind::Thermal);
    let a = of_kind(s, SensorKind::Attitude);
    if i < t.len() {
        s.lemma_filter_pred(|x: SensorSample| x.kind == SensorKind::Thermal, i);
    } else if i < t.len() + a.len() {
        s.lemma_filter_pred(|x: SensorSample| x.kind == SensorKind::Attitude, i - t.len());
    } else {
        s.lemma_filter_pred(|x: SensorSample| x.kind == SensorKind::Power, i - t.len() - a.len());
    }
}

proof fn lemma_left_over_order(s: Seq<SensorSample>, n: nat)
    ensures
        at_most(by_priority(s), n) + by_priority(left_over(s, n)) == by_priority(s),
    decreases n,
{
    lemma_by_priority_len(s);
    if n == 0 || s.len() == 0 {
        assert(at_most(by_priority(s), n) + by_priority(left_over(s, n)) =~= by_priority(s));
    } else {
        lemma_first_highest_exists(s);
        let i = first_highest(s);
        let r = s.remove(i);
        lemma_by_priority_step(s, i);
        lemma_by_priority_len(r);
        lemma_left_over_order(r, (n - 1) as nat);
        assert(at_most(by_priority(s), n) =~= seq![s[i]] + at_most(
            by_priority(r),
            (n - 1) as nat,
        ));
        assert(at_most(by_priority(s), n) + by_priority(left_over(s, n)) =~= seq![s[i]] + (at_most(
            by_priority(r),
            (n - 1) as nat,
        ) + by_priority(left_over(r, (n - 1) as nat))));
    }
}

proof fn lemma_by_priority_contains(s: Seq<SensorSample>, y: SensorSample)
    requires
        s.contains(y),
    ensures
        by_priority(s).contains(y),
{
    let k = choose|k: int| 0 <= k < s.len() && s[k] == y;
    let t = of_kind(s, SensorKind::Thermal);
    let a = of_kind(s, SensorKind::Attitude);
    let p = of_kind(s, SensorKind::Power);
    match y.kind {
        SensorKind::Thermal => {
            s.lemma_filter_contains(|x: SensorSample| x.kind == SensorKind::Thermal, k);
            let i = choose|i: int| 0 <= i < t.len() && t[i] == y;
            assert(by_priority(s)[i] == y);
        },
        SensorKind::Attitude => {
            s.lemma_filter_contains(|x: SensorSample| x.kind == SensorKind::Attitude, k);
            let i = choose|i: int| 0 <= i < a.len() && a[i] == y;
            assert(by_priority(s)[t.len() + i] == y);
        },
        SensorKind::Power => {
            s.lemma_filter_contains(|x: SensorSample| x.kind == SensorKind::Power, k);
            let i = choose|i: int| 0 <= i < p.len() && p[i] == y;
            assert(by_priority(s)[t.len() + a.len() + i] == y);
        },
    }
}

/// Law: two batches in a row are one batch of both sizes. What is taken, in its order, and
/// what is left behind are the same.
pub proof fn law_batches_compose(s: Seq<SensorSample>, m: nat, n: nat)
    ensures
        at_most(by_priority(s), m) + at_most(by_priority(left_over(s, m)), n) == at_most(
            by_priority(s),
            m + n,
        ),
        left_over(left_over(s, m), n) == left_over(s, m + n),
{
    let first = at_most(by_priority(s), m);
    let rest = by_priority(left_over(s, m));
    lemma_left_over_order(s, m);
    assert(first + at_most(rest, n) =~= at_most(first + rest, m + n));
    lemma_left_over_compose(s, m, n);
}

proof fn lemma_left_over_compose(s: Seq<SensorSample>, m: nat, n: nat)
    ensures
        left_over(left_over(s, m), n) == left_over(s, m + n),
    decreases m,
{
    if m > 0 && s.len() > 0 {
        lemma_left_over_compose(s.remove(first_highest(s)), (m - 1) as nat, n);
    }
}

/// Law: no sample that is left behind outranks one that was taken.
pub proof fn law_taken_outrank_left(
    s: Seq<SensorSample>,
    n: nat,
    taken: SensorSample,
    left: SensorSample,
)
    requires
        at_most(by_priority(s), n).contains(taken),
        left_over(s, n).contains(left),
    ensures
        left.kind.rank() <= taken.kind.rank(),
{
    let out = at_most(by_priority(s), n);
    let rest = by_priority(left_over(s, n));
    lemma_left_over_order(s, n);
    lemma_by_priority_contains(left_over(s, n), left);
    let i = choose|i: int| 0 <= i < out.len() && out[i] == taken;
    let j = choose|j: int| 0 <= j < rest.len() && rest[j] == left;
    assert((out + rest)[i] == taken);
    assert((out + rest)[out.len() + j] == left);
    law_by_priority_sorted(s, i, out.len() + j);
}

/// Law: the samples that are taken and those that are left behind are together the samples
/// that were there.
pub proof fn law_taken_and_left(s: Seq<SensorSample>, n: nat)
    ensures
        at_most(by_priority(s), n).to_multiset().add(left_over(s, n).to_multiset())
            == s.to_multiset(),
    decreases n,
{
    broadcast use vstd::multiset::group_multiset_axioms;

    lemma_by_priority_len(s);
    lemma_no_samples();
    if n == 0 || s.len() == 0 {
        assert(at_most(by_priority(s), n) =~= Seq::<SensorSample>::empty());
        assert(at_most(by_priority(s), n).to_multiset().add(left_over(s, n).to_multiset())
            =~= s.to_multiset());
    } else {
        lemma_first_highest_exists(s);
        let i = first_highest(s);
        let x = s[i];
        let r = s.remove(i);
        lemma_by_priority_step(s, i);
        lemma_by_priority_len(r);
        law_taken_and_left(r, (n - 1) as nat);
        let t = at_most(by_priority(r), (n - 1) as nat);
        let m = seq![x];
        assert(at_most(by_priority(s), n) =~= m + t);
        vstd::seq_lib::lemma_multiset_commutative(m, t);
        assert(m =~= Seq::<SensorSample>::empty().push(x));
        vstd::seq_lib::to_multiset_build(Seq::<SensorSample>::empty(), x);
        vstd::seq_lib::to_multiset_remove(s, i);
        assert(s.to_multiset().count(x) > 0) by {
            s.to_multiset_ensures();
            assert(s.contains(x));
        }
        assert(left_over(s, n) == left_over(r, (n - 1) as nat));
        assert(m.to_multiset() == Multiset::<SensorSample>::empty().insert(x));
        assert((m + t).to_multiset() =~= m.to_multiset().add(t.to_multiset()));
        lemma_put_back(t.to_multiset(), left_over(s, n).to_multiset(), s.to_multiset(), x);
    }
}

proof fn lemma_put_back(
    a: Multiset<SensorSample>,
    b: Multiset<SensorSample>,
    whole: Multiset<SensorSample>,
    x: SensorSample,
)
    requires
        a.add(b) == whole.remove(x),
        whole.count(x) > 0,
    ensures
        Multiset::empty().insert(x).add(a).add(b) == whole,
{
    broadcast use vstd::multiset::group_multiset_axioms;
    broadcast use vstd::multiset::group_multiset_properties;

    let all = Multiset::empty().insert(x).add(a).add(b);
    assert forall|y: SensorSample| all.count(y) == whole.count(y) by {
        assert(a.add(b).count(y) == a.count(y) + b.count(y));
        assert(whole.remove(x).count(y) == a.count(y) + b.count(y));
    }
    assert(all =~= whole);
}

proof fn lemma_no_samples()
    ensures
        Seq::<SensorSample>::empty().to_multiset()
            == Multiset::<SensorSample>::empty(),
{
    broadcast use vstd::multiset::group_multiset_axioms;

    let none = Seq::<SensorSample>::empty();
    none.to_multiset_ensures();
    assert(none.to_multiset() =~= Multiset::<SensorSample>::empty());
}

/// Law: a batch that is not empty is named after its first sample, which is one of the
/// highest priority in the buffer.
pub proof fn law_batch_named_after_first(s: Seq<SensorSample>, n: nat)
    requires
        s.len() > 0,
        n > 0,
    ensures
        at_most(by_priority(s), n).len() > 0,
        packet_type(at_most(by_priority(s), n)) == by_priority(s)[0].kind.telemetry(),
        forall|j: int|
            0 <= j < s.len() ==> (#[trigger] s[j]).kind.rank() <= by_priority(s)[0].kind.rank(),
{
    lemma_by_priority_len(s);
    lemma_first_highest_exists(s);
    let i = first_highest(s);
    lemma_by_priority_step(s, i);
    let out = at_most(by_priority(s), n);
    assert(by_priority(s)[0] == s[i]);
    assert(out[0] == s[i]);
    assert forall|j: int| 0 <= j < out.len() implies (#[trigger] out[j]).kind.rank()
        <= s[i].kind.rank() by {
        law_by_priority_sorted(s, 0, j);
    }
}

/// The record of a sample stands at four times its place.
pub proof fn lemma_records_at(s: Seq<SensorSample>, i: int)
    requires
        0 <= i < s.len(),
    ensures
        records(s).len() == 4 * s.len(),
        records(s).subrange(4 * i, 4 * i + 4) == record(s[i]),
    decreases s.len(),
{
    lemma_records_len(s);
    let t = s.drop_last();
    lemma_records_len(t);
    if i == s.len() - 1 {
        assert(records(s).subrange(4 * i, 4 * i + 4) =~= record(s[i]));
    } else {
        lemma_records_at(t, i);
        assert(records(s).subrange(4 * i, 4 * i + 4) =~= records(t).subrange(4 * i, 4 * i + 4));
        assert(t[i] == s[i]);
    }
}

/// Each record has four bytes.
pub proof fn lemma_records_len(s: Seq<SensorSample>)
    ensures
        records(s).len() == 4 * s.len(),
    decreases s.len(),
{
    if s.len() > 0 {
        lemma_records_len(s.drop_last());
    }
}

/// Law: a payload holds one byte for the count and four for each sample.
pub proof fn law_payload_length(s: Seq<SensorSample>)
    ensures
        batch_payload(s).len() == 1 + 4 * at_most(s, 255).len(),
        batch_payload(s)[0] == at_most(s, 255).len(),
{
    lemma_records_len(at_most(s, 255));
}

proof fn lemma_records_add(a: Seq<SensorSample>, b: Seq<SensorSample>)
    ensures
        records(a + b) == records(a) + records(b),
    decreases b.len(),
{
    if b.len() == 0 {
        assert(a + b =~= a);
        assert(records(a) + records(b) =~= records(a));
    } else {
        lemma_records_add(a, b.drop_last());
        assert((a + b).drop_last() =~= a + b.drop_last());
        assert((records(a) + records(b.drop_last())) + record(b.last()) =~= records(a) + (records(
            b.drop_last(),
        ) + record(b.last())));
    }
}

/// Law: the payload of two lists of samples, one after the other, holds the sum of their counts
/// and then the records of the one and of the other.
pub proof fn law_payload_of_both(a: Seq<SensorSample>, b: Seq<SensorSample>)
    requires
        a.len() + b.len() <= 255,
    ensures
        batch_payload(a + b) == seq![(a.len() + b.len()) as u8] + batch_payload(a).skip(1)
            + batch_payload(b).skip(1),
{
    lemma_records_add(a, b);
    assert(batch_payload(a).skip(1) =~= records(a));
    assert(batch_payload(b).skip(1) =~= records(b));
    let count = seq![(a.len() + b.len()) as u8];
    assert(count + (records(a) + records(b)) =~= count + records(a) + records(b));
}

proof fn lemma_record_bytes(x: SensorSample)
    ensures
        record(x).len() == 4,
        record(x)[0] == le_bytes(quantized(x.value_tenths as int))[0],
        record(x)[1] == le_bytes(quantized(x.value_tenths as int))[1],
        record(x)[2] == kind_code(x.kind),
        record(x)[3] == (if x.corrupted {
            1u8
        } else {
            0u8
        }),
{
}

proof fn lemma_record_tells_apart(a: SensorSample, b: SensorSample)
    requires
        record(a) == record(b),
    ensures
        a.kind == b.kind,
        a.corrupted == b.corrupted,
        quantized(a.value_tenths as int) == quantized(b.value_tenths as int),
{
    lemma_record_bytes(a);
    lemma_record_bytes(b);
    lemma_le_bytes_value(quantized(a.value_tenths as int));
    lemma_le_bytes_value(quantized(b.value_tenths as int));
}

proof fn lemma_le_bytes_value(q: int)
    requires
        i16::MIN <= q <= i16::MAX,
    ensures
        q == le_bytes(q)[0] + 0x100 * le_bytes(q)[1] - (if q < 0 {
            0x1_0000int
        } else {
            0int
        }),
        (q < 0) == (le_bytes(q)[1] >= 0x80),
{
}

/// Law: a payload can be told apart. Two batches of no more than 255 samples with the same
/// payload have, sample by sample, the same sensor, the same mark of corruption and the
/// same value within the range of sixteen bits.
pub proof fn law_payload_tells_apart(a: Seq<SensorSample>, b: Seq<SensorSample>, i: int)
    requires
        a.len() <= 255,
        b.len() <= 255,
        batch_payload(a) == batch_payload(b),
        0 <= i < a.len(),
    ensures
        a.len() == b.len(),
        a[i].kind == b[i].kind,
        a[i].corrupted == b[i].corrupted,
        quantized(a[i].value_tenths as int) == quantized(b[i].value_tenths as int),
{
    law_payload_length(a);
    law_payload_length(b);
    assert(a.len() == b.len());
    lemma_records_at(a, i);
    lemma_records_at(b, i);
    assert(records(a) =~= batch_payload(a).skip(1));
    assert(records(b) =~= batch_payload(b).skip(1));
    lemma_record_tells_apart(a[i], b[i]);
}

proof fn lemma_of_kind_one(x: SensorSample, kind: SensorKind)
    ensures
        x.kind == kind ==> of_kind(seq![x], kind) == seq![x],
        x.kind != kind ==> of_kind(seq![x], kind) == Seq::<SensorSample>::empty(),
{
    let m = seq![x];
    lemma_of_kind_remove(m, 0, kind);
    assert(m.remove(0) =~= Seq::<SensorSample>::empty());
    lemma_of_kind_none(Seq::<SensorSample>::empty(), kind);
    assert(m + Seq::<SensorSample>::empty() =~= m);
}

/// Taking `n` samples takes the first of those with the highest priority and then `n - 1` of the
/// others.
proof fn lemma_batch_step(s: Seq<SensorSample>, n: nat)
    requires
        n > 0,
        s.len() > 0,
    ensures
        is_first_highest(s, first_highest(s)),
        at_most(by_priority(s), n) == seq![s[first_highest(s)]] + at_most(
            by_priority(s.remove(first_highest(s))),
            (n - 1) as nat,
        ),
{
    lemma_first_highest_exists(s);
    let i = first_highest(s);
    lemma_by_priority_step(s, i);
    assert(at_most(by_priority(s), n) =~= seq![s[i]] + at_most(
        by_priority(s.remove(i)),
        (n - 1) as nat,
    ));
}

/// The samples of a kind in a sample and a list are those of the one and of the other.
proof fn lemma_of_kind_step(x: SensorSample, t: Seq<SensorSample>, kind: SensorKind)
    ensures
        x.kind == kind ==> of_kind(seq![x] + t, kind) == seq![x] + of_kind(t, kind),
        x.kind != kind ==> of_kind(seq![x] + t, kind) == of_kind(t, kind),
{
    Seq::filter_distributes_over_add(seq![x], t, |y: SensorSample| y.kind == kind);
    lemma_of_kind_one(x, kind);
    if x.kind != kind {
        assert(Seq::<SensorSample>::empty() + of_kind(t, kind) =~= of_kind(t, kind));
    }
}

/// Taking samples leaves, of each kind, those that were not taken, in their order.
#[verifier::spinoff_prover]
pub proof fn lemma_left_over_kinds(s: Seq<SensorSample>, n: nat, kind: SensorKind)
    ensures
        of_kind(at_most(by_priority(s), n), kind) + of_kind(left_over(s, n), kind) == of_kind(
            s,
            kind,
        ),
    decreases n,
{
    if n == 0 || s.len() == 0 {
        lemma_by_priority_len(s);
        assert(at_most(by_priority(s), n) =~= Seq::<SensorSample>::empty());
        lemma_of_kind_none(Seq::<SensorSample>::empty(), kind);
        assert(Seq::<SensorSample>::empty() + of_kind(s, kind) =~= of_kind(s, kind));
    } else {
        lemma_batch_step(s, n);
        let i = first_highest(s);
        let x = s[i];
        let r = s.remove(i);
        let t = at_most(by_priority(r), (n - 1) as nat);
        let rest = of_kind(left_over(r, (n - 1) as nat), kind);
        lemma_left_over_kinds(r, (n - 1) as nat, kind);
        lemma_of_kind_step(x, t, kind);
        assert forall|j: int| 0 <= j < i implies (#[trigger] s[j]).kind != x.kind by {
            assert(s[j].kind.rank() < x.kind.rank());
        }
        lemma_of_kind_remove(s, i, kind);
        if x.kind == kind {
            assert((seq![x] + of_kind(t, kind)) + rest =~= seq![x] + (of_kind(t, kind) + rest));
        }
    }
}

/// As many samples are taken as are asked for, or all, and the others are left.
pub proof fn lemma_batch_lengths(s: Seq<SensorSample>, n: nat)
    ensures
        at_most(by_priority(s), n).len() == if s.len() < n {
            s.len()
        } else {
            n
        },
        at_most(by_priority(s), n).len() + left_over(s, n).len() == s.len(),
{
    lemma_by_priority_len(s);
    lemma_left_over_order(s, n);
    lemma_by_priority_len(left_over(s, n));
}

} // verus!
