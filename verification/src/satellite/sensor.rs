//! The cycles of the sensors and the buffer that their samples go to.

use vstd::prelude::*;

use crate::satellite::state::{
    OcsState, OcsView, SensorKind, SensorSample, MAX_MICROS,
    SENSOR_BUFFER_CAPACITY,
};
use crate::time::{
    first_after, lemma_first_after_step, magnitude, micros_between, Duration, Instant,
};

verus! {

/// The value of a sample whose reading was corrupted, in tenths.
pub const CORRUPTED_VALUE_TENTHS: i32 = 99_990;

/// How many thermal cycles may pass in a row without a sample before an alert.
pub const THERMAL_MISS_LIMIT: u32 = 3;

/// The fault that is raised when too many thermal cycles passed without a sample.
pub const THERMAL_FAULT: &'static str = "thermal data missed >3 cycles";

/// The jitter of the thermal sensor that is still acceptable, in microseconds.
pub const CRITICAL_JITTER_US: i128 = 1_000;

/// How many cycles the thermal sensor runs before its jitter counts.
pub const WARMUP_CYCLES: u32 = 8;

/// By how much an injected fault delays a power sample, in milliseconds.
pub const DELAYED_SAMPLE_MS: u64 = 6;

/// How long before a deadline sleeping ends and spinning begins, in microseconds.
pub const COARSE_MARGIN_US: u64 = 2_000;

/// Whether `i` is the first of the positions in `s` with the lowest priority.
pub open spec fn is_first_lowest(s: Seq<SensorSample>, i: int) -> bool {
    &&& 0 <= i < s.len()
    &&& forall|j: int| 0 <= j < s.len() ==> s[i].kind.rank() <= (#[trigger] s[j]).kind.rank()
    &&& forall|j: int| 0 <= j < i ==> s[i].kind.rank() < (#[trigger] s[j]).kind.rank()
}

/// The first of the positions in `s` with the lowest priority.
pub open spec fn first_lowest(s: Seq<SensorSample>) -> int {
    choose|i: int| is_first_lowest(s, i)
}

/// Whether the buffer of `v` takes `sample` in: there is room, or a sample of lower
/// priority to displace.
pub open spec fn takes_in(v: OcsView, sample: SensorSample) -> bool {
    ||| v.sensor_buffer.len() < SENSOR_BUFFER_CAPACITY
    ||| sample.kind.rank() > v.sensor_buffer[first_lowest(v.sensor_buffer)].kind.rank()
}

/// The state after `sample` was offered to the buffer. With no room left, the oldest of the
/// samples with the lowest priority makes way, or the new sample is dropped.
pub open spec fn after_insert(v: OcsView, sample: SensorSample) -> OcsView {
    if v.sensor_buffer.len() < SENSOR_BUFFER_CAPACITY {
        OcsView { sensor_buffer: v.sensor_buffer.push(sample), ..v }
    } else if takes_in(v, sample) {
        OcsView {
            sensor_buffer: v.sensor_buffer.remove(first_lowest(v.sensor_buffer)).push(sample),
            dropped_packets: v.dropped_packets + 1,
            ..v
        }
    } else {
        OcsView { dropped_packets: v.dropped_packets + 1, ..v }
    }
}

/// The sensor whose sample makes way for `sample`, if one does.
pub open spec fn displaced_by(v: OcsView, sample: SensorSample) -> Option<SensorKind> {
    if v.sensor_buffer.len() >= SENSOR_BUFFER_CAPACITY && takes_in(v, sample) {
        Some(v.sensor_buffer[first_lowest(v.sensor_buffer)].kind)
    } else {
        None
    }
}

/// Whether a thermal cycle that delivered no sample is one too many, and not yet known as
/// the active fault.
pub open spec fn raises_thermal_fault(v: OcsView) -> bool {
    &&& v.thermal_missed_cycles + 1 > THERMAL_MISS_LIMIT
    &&& v.active_fault != Some(THERMAL_FAULT@)
}

/// The state after a thermal cycle that did or did not deliver its sample.
pub open spec fn after_thermal_cycle(v: OcsView, inserted: bool, now: Instant) -> OcsView {
    if inserted {
        OcsView { thermal_missed_cycles: 0, ..v }
    } else {
        let counted = OcsView { thermal_missed_cycles: v.thermal_missed_cycles + 1, ..v };
        if raises_thermal_fault(v) {
            OcsView { safety_alerts: v.safety_alerts + 1, ..counted }.with_fault(
                THERMAL_FAULT@,
                now,
            )
        } else {
            counted
        }
    }
}

/// The state after the fill of the sensor buffer was looked at.
pub open spec fn after_fill_check(v: OcsView) -> OcsView {
    OcsView {
        buffer_fill_rates: v.buffer_fill_rates.push(v.sensor_fill()),
        degraded_mode: v.degraded_mode || v.sensor_fill().nearly_full(),
        ..v
    }
}

/// The state after a cycle ended with `sample`.
pub open spec fn after_cycle(v: OcsView, sample: SensorSample, now: Instant) -> OcsView {
    let inserted = takes_in(v, sample);
    let stored = after_insert(v, sample);
    let timed = OcsView {
        sensor_latency_us: stored.sensor_latency_us.push(
            micros_between(sample.inserted_at, sample.read_at) as u128,
        ),
        ..stored
    };
    let watched = if sample.kind == SensorKind::Thermal {
        after_thermal_cycle(timed, inserted, now)
    } else {
        timed
    };
    after_fill_check(watched)
}

/// What is due to go wrong in a cycle.
#[derive(Clone, Copy, Debug, PartialEq, Eq, Structural)]
pub struct CycleFlags {
    /// The sample is to come late.
    pub delayed: bool,
    /// The sample is to be corrupted.
    pub corrupted: bool,
}

/// The flags of the next cycle of a `kind` sensor.
pub open spec fn due_flags(v: OcsView, kind: SensorKind) -> CycleFlags {
    CycleFlags {
        delayed: kind == SensorKind::Power && v.delayed_power_pending,
        corrupted: v.corrupt_next_sample,
    }
}

/// The state after the flags of a cycle of a `kind` sensor were taken.
pub open spec fn after_flags(v: OcsView, kind: SensorKind) -> OcsView {
    OcsView {
        delayed_power_pending: v.delayed_power_pending && kind != SensorKind::Power,
        corrupt_next_sample: false,
        ..v
    }
}

/// What came of a cycle.
#[derive(Clone, Copy, Debug, PartialEq, Eq, Structural)]
pub struct CycleReport {
    /// The sample is in the buffer.
    pub inserted: bool,
    /// The sensor whose sample made way for it.
    pub displaced: Option<SensorKind>,
    /// Too many thermal cycles passed without a sample.
    pub safety_alert: bool,
    /// The sensor buffer is nearly full.
    pub degraded: bool,
}

fn take_flags(ocs: &mut OcsState, kind: SensorKind) -> (flags: CycleFlags)
    ensures
        flags == due_flags(old(ocs)@, kind),
        final(ocs)@ == after_flags(old(ocs)@, kind),
{
    let delayed = kind == SensorKind::Power && ocs.delayed_power_pending;
    if delayed {
        ocs.delayed_power_pending = false;
    }
    let corrupted = ocs.corrupt_next_sample;
    ocs.corrupt_next_sample = false;
    CycleFlags { delayed, corrupted }
}

/// Offers `sample` to the sensor buffer and says whether it was taken in.
pub fn insert_prioritized_sample_locked(sample: SensorSample, ocs: &mut OcsState) -> (inserted: bool)
    requires
        after_insert(old(ocs)@, sample).dropped_packets <= u64::MAX,
    ensures
        inserted == takes_in(old(ocs)@, sample),
        final(ocs)@ == after_insert(old(ocs)@, sample),
        old(ocs)@.wf() ==> final(ocs)@.wf(),
{
    offer_sample(sample, ocs).0
}

/// Offers `sample` to the sensor buffer and says whether it was taken in, and which sensor's
/// sample made way for it.
fn offer_sample(sample: SensorSample, ocs: &mut OcsState) -> (r: (bool, Option<SensorKind>))
    requires
        after_insert(old(ocs)@, sample).dropped_packets <= u64::MAX,
    ensures
        r.0 == takes_in(old(ocs)@, sample),
        r.1 == displaced_by(old(ocs)@, sample),
        final(ocs)@ == after_insert(old(ocs)@, sample),
        old(ocs)@.wf() ==> final(ocs)@.wf(),
{
    let len: usize = ocs.sensor_buffer.len();
    if len < SENSOR_BUFFER_CAPACITY {
        ocs.sensor_buffer.push_back(sample);
        return (true, None);
    }
    let ghost s = ocs.sensor_buffer@;
    let mut lowest: usize = 0;
    let mut i: usize = 1;
    while i < len
        invariant
            s == ocs.sensor_buffer@,
            len == s.len(),
            1 <= i <= len,
            lowest < i,
            forall|j: int|
                0 <= j < i ==> s[lowest as int].kind.rank() <= (#[trigger] s[j]).kind.rank(),
            forall|j: int|
                0 <= j < lowest ==> s[lowest as int].kind.rank() < (#[trigger] s[j]).kind.rank(),
        decreases len - i,
    {
        if ocs.sensor_buffer[i].kind.priority() < ocs.sensor_buffer[lowest].kind.priority() {
            lowest = i;
        }
        i = i + 1;
    }
    proof {
        assert(is_first_lowest(s, lowest as int));
        lemma_first_lowest_unique(s, lowest as int);
    }
    let kind = ocs.sensor_buffer[lowest].kind;
    if sample.kind.priority() > kind.priority() {
        let _ = ocs.sensor_buffer.remove(lowest);
        ocs.sensor_buffer.push_back(sample);
        ocs.dropped_packets = ocs.dropped_packets + 1;
        (true, Some(kind))
    } else {
        ocs.dropped_packets = ocs.dropped_packets + 1;
        (false, None)
    }
}

/// There is no other first position with the lowest priority.
pub proof fn lemma_first_lowest_unique(s: Seq<SensorSample>, i: int)
    requires
        is_first_lowest(s, i),
    ensures
        first_lowest(s) == i,
{
    let k = first_lowest(s);
    assert(is_first_lowest(s, k));
    if k < i {
        assert(s[k].kind.rank() <= s[i].kind.rank());
    } else if i < k {
        assert(s[i].kind.rank() <= s[k].kind.rank());
    }
}

/// A buffer that is not empty has a first position with the lowest priority.
pub proof fn lemma_first_lowest_exists(s: Seq<SensorSample>)
    requires
        s.len() > 0,
    ensures
        is_first_lowest(s, first_lowest(s)),
    decreases s.len(),
{
    if s.len() == 1 {
        assert(is_first_lowest(s, 0));
    } else {
        let t = s.drop_last();
        lemma_first_lowest_exists(t);
        let k = first_lowest(t);
        if s.last().kind.rank() < t[k].kind.rank() {
            assert forall|j: int| 0 <= j < s.len() - 1 implies s.last().kind.rank() < (
            #[trigger] s[j]).kind.rank() by {
                assert(s[j] == t[j]);
            }
            assert(is_first_lowest(s, s.len() - 1));
        } else {
            assert forall|j: int| 0 <= j < s.len() implies s[k].kind.rank() <= (
            #[trigger] s[j]).kind.rank() by {
                if j < s.len() - 1 {
                    assert(s[j] == t[j]);
                }
            }
            assert forall|j: int| 0 <= j < k implies s[k].kind.rank() < (
            #[trigger] s[j]).kind.rank() by {
                assert(s[j] == t[j]);
            }
            assert(is_first_lowest(s, k));
        }
    }
}

/// The sample of a cycle.
pub open spec fn sample_of(
    kind: SensorKind,
    reading_tenths: i32,
    corrupted: bool,
    times: (Instant, Instant, Instant),
) -> SensorSample {
    SensorSample {
        kind,
        value_tenths: if corrupted {
            CORRUPTED_VALUE_TENTHS
        } else {
            reading_tenths
        },
        read_at: times.0,
        scheduled_at: times.1,
        inserted_at: times.2,
        corrupted,
    }
}

/// The sample that a cycle delivers. A corrupted reading is replaced by a value outside of
/// every sensor's range.
pub fn make_sample(
    kind: SensorKind,
    reading_tenths: i32,
    corrupted: bool,
    read_at: Instant,
    scheduled_at: Instant,
    inserted_at: Instant,
) -> (sample: SensorSample)
    ensures
        sample == (SensorSample {
            kind,
            value_tenths: if corrupted {
                CORRUPTED_VALUE_TENTHS
            } else {
                reading_tenths
            },
            read_at,
            scheduled_at,
            inserted_at,
            corrupted,
        }),
        sample == sample_of(
            kind,
            reading_tenths,
            corrupted,
            (read_at, scheduled_at, inserted_at),
        ),
{
    let value_tenths: i32 = if corrupted {
        CORRUPTED_VALUE_TENTHS
    } else {
        reading_tenths
    };
    SensorSample { kind, value_tenths, read_at, scheduled_at, inserted_at, corrupted }
}

/// What comes of a cycle that ends with `sample`.
pub open spec fn cycle_report(v: OcsView, sample: SensorSample, now: Instant) -> CycleReport {
    CycleReport {
        inserted: takes_in(v, sample),
        displaced: displaced_by(v, sample),
        safety_alert: sample.kind == SensorKind::Thermal && !takes_in(v, sample)
            && raises_thermal_fault(v),
        degraded: after_cycle(v, sample, now).sensor_fill().nearly_full(),
    }
}

/// Ends a cycle with `sample`: stores it, notes its latency, counts missed thermal cycles
/// and looks at the fill of the buffer.
pub fn finish_cycle(ocs: &mut OcsState, sample: SensorSample, now: Instant) -> (report: CycleReport)
    requires
        after_cycle(old(ocs)@, sample, now).dropped_packets <= u64::MAX,
        after_cycle(old(ocs)@, sample, now).thermal_missed_cycles <= u32::MAX,
        after_cycle(old(ocs)@, sample, now).safety_alerts <= u64::MAX,
    ensures
        final(ocs)@ == after_cycle(old(ocs)@, sample, now),
        report.inserted == takes_in(old(ocs)@, sample),
        report.displaced == displaced_by(old(ocs)@, sample),
        report.safety_alert == (sample.kind == SensorKind::Thermal && !report.inserted
            && raises_thermal_fault(old(ocs)@)),
        report.degraded == final(ocs)@.sensor_fill().nearly_full(),
        report == cycle_report(old(ocs)@, sample, now),
        old(ocs)@.wf() ==> final(ocs)@.wf(),
{
    let (inserted, displaced) = offer_sample(sample, ocs);
    let latency_us: u64 = sample.inserted_at.saturating_duration_since(
        sample.read_at,
    ).as_micros();
    ocs.sensor_latency_us.push(latency_us as u128);
    let mut safety_alert = false;
    if sample.kind == SensorKind::Thermal {
        if inserted {
            ocs.thermal_missed_cycles = 0;
        } else {
            ocs.thermal_missed_cycles = ocs.thermal_missed_cycles + 1;
            if ocs.thermal_missed_cycles > THERMAL_MISS_LIMIT {
                let text = THERMAL_FAULT.to_string();
                let known = match &ocs.active_fault {
                    Some(f) => *f == text,
                    None => false,
                };
                if !known {
                    ocs.safety_alerts = ocs.safety_alerts + 1;
                    ocs.safe_mode = true;
                    ocs.active_fault = Some(text);
                    ocs.active_fault_since = Some(now);
                    ocs.fault_telemetry_pending = true;
                    safety_alert = true;
                }
            }
        }
    }
    let fill = ocs.sensor_fill_ratio();
    ocs.buffer_fill_rates.push(fill);
    let degraded = fill.is_nearly_full();
    if degraded {
        ocs.degraded_mode = true;
    }
    CycleReport { inserted, displaced, safety_alert, degraded }
}

/// The clock of a sensor that a timer wakes.
#[derive(Clone, Copy, Debug, PartialEq, Eq, Structural)]
pub struct SensorClock {
    pub kind: SensorKind,
    pub next_expected: Instant,
    pub last_start: Option<Instant>,
}

/// The state after a timed cycle of a `kind` sensor, expected at `expected`, began at
/// `start`, where the cycle before began at `last`.
pub open spec fn after_timed_start(
    v: OcsView,
    kind: SensorKind,
    expected: Instant,
    last: Option<Instant>,
    start: Instant,
) -> OcsView {
    after_flags(
        OcsView {
            sensor_drift_us: v.sensor_drift_us.push(micros_between(start, expected) as i128),
            sensor_jitter_us: match last {
                Some(l) => v.sensor_jitter_us.push(
                    magnitude(micros_between(start, l) - kind.period_nanos() / 1_000) as i128,
                ),
                None => v.sensor_jitter_us,
            },
            ..v
        },
        kind,
    )
}

/// The clock of a sensor that starts at `now`.
pub open spec fn clock_from(kind: SensorKind, now: Instant) -> SensorClock {
    SensorClock { kind, next_expected: now.after(kind.period_nanos()), last_start: None }
}

/// The precise clock of a sensor that starts at `now`.
pub open spec fn precise_clock_from(kind: SensorKind, now: Instant) -> ThermalClock {
    ThermalClock {
        kind,
        next_expected: now.after(kind.period_nanos()),
        last_drift_us: None,
        warmup_cycles_remaining: WARMUP_CYCLES,
    }
}

/// The clock after a timed cycle that began at `start`.
pub open spec fn timed_clock_after(c: SensorClock, start: Instant) -> SensorClock {
    SensorClock { last_start: Some(start), ..c }
}

impl SensorClock {
    /// The clock of a sensor that starts at `now`: the first cycle is due one period later.
    pub fn new(kind: SensorKind, now: Instant) -> (clock: SensorClock)
        requires
            now.has_after(kind.period_nanos()),
        ensures
            clock == (SensorClock {
                kind,
                next_expected: now.after(kind.period_nanos()),
                last_start: None,
            }),
            clock == clock_from(kind, now),
    {
        SensorClock { kind, next_expected: now.plus(kind.period()), last_start: None }
    }

    /// Begins a cycle at `start`: notes how late it is and how far from one period after the
    /// cycle before, and takes the flags of the cycle.
    pub fn start_cycle(&mut self, ocs: &mut OcsState, start: Instant) -> (flags: CycleFlags)
        ensures
            flags == due_flags(old(ocs)@, old(self).kind),
            final(ocs)@ == after_timed_start(
                old(ocs)@,
                old(self).kind,
                old(self).next_expected,
                old(self).last_start,
                start,
            ),
            *final(self) == (SensorClock { last_start: Some(start), ..*old(self) }),
            *final(self) == timed_clock_after(*old(self), start),
            old(ocs)@.wf() ==> final(ocs)@.wf(),
    {
        let drift_us: u64 = start.saturating_duration_since(self.next_expected).as_micros();
        ocs.sensor_drift_us.push(drift_us as i128);
        match self.last_start {
            Some(last) => {
                let actual_us: u64 = start.saturating_duration_since(last).as_micros();
                let period_us: u64 = self.kind.period().as_micros();
                let jitter_us: i128 = if actual_us >= period_us {
                    (actual_us - period_us) as i128
                } else {
                    (period_us - actual_us) as i128
                };
                ocs.sensor_jitter_us.push(jitter_us);
            },
            None => {},
        }
        self.last_start = Some(start);
        take_flags(ocs, self.kind)
    }

    /// Ends a cycle at `now`: the next cycle is due at the first whole number of periods,
    /// at least one, after this one that still lies ahead.
    pub fn advance(&mut self, now: Instant)
        requires
            first_after(
                old(self).next_expected.nanos + old(self).kind.period_nanos(),
                old(self).kind.period_nanos(),
                now.nanos as int,
            ) <= u64::MAX,
        ensures
            final(self).next_expected.nanos == first_after(
                old(self).next_expected.nanos + old(self).kind.period_nanos(),
                old(self).kind.period_nanos(),
                now.nanos as int,
            ),
            final(self).kind == old(self).kind,
            final(self).last_start == old(self).last_start,
            final(self).next_expected.nanos == next_start(
                old(self).kind,
                old(self).next_expected,
                now,
            ),
    {
        self.next_expected = next_cycle(self.next_expected, self.kind.period(), now);
    }
}

/// When the cycle after the one expected at `expected` is due, in nanoseconds, where that one
/// ended at `now`.
pub open spec fn next_start(kind: SensorKind, expected: Instant, now: Instant) -> int {
    first_after(
        expected.nanos + kind.period_nanos(),
        kind.period_nanos(),
        now.nanos as int,
    )
}

/// The first instant a whole number of periods, at least one, after `expected` that lies
/// after `now`.
fn next_cycle(expected: Instant, period: Duration, now: Instant) -> (next: Instant)
    requires
        period.nanos > 0,
        first_after(expected.nanos + period.nanos, period.nanos as int, now.nanos as int)
            <= u64::MAX,
    ensures
        next.nanos == first_after(
            expected.nanos + period.nanos,
            period.nanos as int,
            now.nanos as int,
        ),
{
    proof {
        crate::time::law_first_after(
            expected.nanos + period.nanos,
            period.nanos as int,
            now.nanos as int,
        );
    }
    let mut next: Instant = expected.plus(period);
    while next.nanos <= now.nanos
        invariant
            period.nanos > 0,
            first_after(expected.nanos + period.nanos, period.nanos as int, now.nanos as int)
                <= u64::MAX,
            first_after(next.nanos as int, period.nanos as int, now.nanos as int) == first_after(
                expected.nanos + period.nanos,
                period.nanos as int,
                now.nanos as int,
            ),
        decreases now.nanos - next.nanos + period.nanos,
    {
        proof {
            lemma_first_after_step(next.nanos as int, period.nanos as int, now.nanos as int);
        }
        next = next.plus(period);
    }
    next
}

/// The clock of a sensor that sleeps towards its cycles itself.
#[derive(Clone, Copy, Debug, PartialEq, Eq, Structural)]
pub struct ThermalClock {
    pub kind: SensorKind,
    pub next_expected: Instant,
    pub last_drift_us: Option<u64>,
    pub warmup_cycles_remaining: u32,
}

/// The state after a self-timed cycle of a `kind` sensor, expected at `expected`, began at
/// `start`, where the cycle before began `last_drift` microseconds late and `warmup` cycles
/// are left before jitter counts.
pub open spec fn after_precise_start(
    v: OcsView,
    kind: SensorKind,
    expected: Instant,
    last_drift: Option<u64>,
    warmup: u32,
    start: Instant,
) -> OcsView {
    let drift = micros_between(start, expected);
    let drifted = OcsView { sensor_drift_us: v.sensor_drift_us.push(drift as i128), ..v };
    let judged = match last_drift {
        Some(prev) if warmup == 0 => {
            let jitter = magnitude(drift - prev);
            OcsView {
                sensor_jitter_us: v.sensor_jitter_us.push(jitter as i128),
                critical_jitter_violations: if jitter > CRITICAL_JITTER_US {
                    v.critical_jitter_violations + 1
                } else {
                    v.critical_jitter_violations
                },
                ..drifted
            }
        },
        _ => drifted,
    };
    after_flags(judged, kind)
}

/// The clock after a cycle that began at `start`.
pub open spec fn clock_after_start(c: ThermalClock, start: Instant) -> ThermalClock {
    ThermalClock {
        last_drift_us: Some(micros_between(start, c.next_expected) as u64),
        warmup_cycles_remaining: if c.warmup_cycles_remaining > 0 {
            (c.warmup_cycles_remaining - 1) as u32
        } else {
            0
        },
        ..c
    }
}

impl ThermalClock {
    /// What the clock keeps: the last drift is a number of microseconds between two readings
    /// of the clock.
    pub open spec fn wf(self) -> bool {
        self.last_drift_us matches Some(us) ==> us <= MAX_MICROS
    }

    /// The clock of a sensor that starts at `now`: the first cycle is due one period later,
    /// and jitter counts once the warm-up is over.
    pub fn new(kind: SensorKind, now: Instant) -> (clock: ThermalClock)
        requires
            now.has_after(kind.period_nanos()),
        ensures
            clock == (ThermalClock {
                kind,
                next_expected: now.after(kind.period_nanos()),
                last_drift_us: None,
                warmup_cycles_remaining: WARMUP_CYCLES,
            }),
            clock == precise_clock_from(kind, now),
            clock.wf(),
    {
        ThermalClock {
            kind,
            next_expected: now.plus(kind.period()),
            last_drift_us: None,
            warmup_cycles_remaining: WARMUP_CYCLES,
        }
    }

    /// Begins a cycle at `start`: notes how late it is and, after the warm-up, how far that
    /// is from the cycle before, and takes the flags of the cycle.
    pub fn start_cycle(&mut self, ocs: &mut OcsState, start: Instant) -> (flags: CycleFlags)
        requires
            after_precise_start(
                old(ocs)@,
                old(self).kind,
                old(self).next_expected,
                old(self).last_drift_us,
                old(self).warmup_cycles_remaining,
                start,
            ).critical_jitter_violations <= u64::MAX,
        ensures
            flags == due_flags(old(ocs)@, old(self).kind),
            final(ocs)@ == after_precise_start(
                old(ocs)@,
                old(self).kind,
                old(self).next_expected,
                old(self).last_drift_us,
                old(self).warmup_cycles_remaining,
                start,
            ),
            *final(self) == (ThermalClock {
                last_drift_us: Some(micros_between(start, old(self).next_expected) as u64),
                warmup_cycles_remaining: if old(self).warmup_cycles_remaining > 0 {
                    (old(self).warmup_cycles_remaining - 1) as u32
                } else {
                    0
                },
                ..*old(self)
            }),
            *final(self) == clock_after_start(*old(self), start),
            final(self).wf(),
            old(self).wf() && old(ocs)@.wf() ==> final(ocs)@.wf(),
    {
        let drift_us: u64 = start.saturating_duration_since(self.next_expected).as_micros();
        ocs.sensor_drift_us.push(drift_us as i128);
        match self.last_drift_us {
            Some(prev) => {
                if self.warmup_cycles_remaining == 0 {
                    let jitter_us: i128 = if drift_us >= prev {
                        (drift_us - prev) as i128
                    } else {
                        (prev - drift_us) as i128
                    };
                    ocs.sensor_jitter_us.push(jitter_us);
                    if jitter_us > CRITICAL_JITTER_US {
                        ocs.critical_jitter_violations = ocs.critical_jitter_violations + 1;
                    }
                }
            },
            None => {},
        }
        if self.warmup_cycles_remaining > 0 {
            self.warmup_cycles_remaining = self.warmup_cycles_remaining - 1;
        }
        self.last_drift_us = Some(drift_us);
        take_flags(ocs, self.kind)
    }

    /// Ends a cycle at `now`: the next cycle is due at the first whole number of periods,
    /// at least one, after this one that still lies ahead.
    pub fn advance(&mut self, now: Instant)
        requires
            first_after(
                old(self).next_expected.nanos + old(self).kind.period_nanos(),
                old(self).kind.period_nanos(),
                now.nanos as int,
            ) <= u64::MAX,
        ensures
            *final(self) == (ThermalClock {
                next_expected: Instant {
                    nanos: first_after(
                        old(self).next_expected.nanos + old(self).kind.period_nanos(),
                        old(self).kind.period_nanos(),
                        now.nanos as int,
                    ) as u64,
                },
                ..*old(self)
            }),
            final(self).next_expected.nanos == next_start(
                old(self).kind,
                old(self).next_expected,
                now,
            ),
    {
        self.next_expected = next_cycle(self.next_expected, self.kind.period(), now);
    }
}

/// What a task that waits for a deadline does next.
#[derive(Clone, Copy, Debug, PartialEq, Eq, Structural)]
pub enum SleepStep {
    /// The deadline has come.
    Wake,
    /// Sleep for a while.
    Sleep(Duration),
    /// The deadline is too close to sleep.
    Spin,
}

/// What a task that waits for `deadline` does at `now`.
pub open spec fn sleep_choice(now: Instant, deadline: Instant) -> SleepStep {
    if now.nanos >= deadline.nanos {
        SleepStep::Wake
    } else if deadline.nanos - now.nanos > COARSE_MARGIN_US * 1_000 {
        SleepStep::Sleep(
            Duration { nanos: (deadline.nanos - now.nanos - COARSE_MARGIN_US * 1_000) as u64 },
        )
    } else {
        SleepStep::Spin
    }
}

/// What a task that waits for `deadline` does at `now`: it sleeps until a margin before the
/// deadline and spins from there on.
pub fn sleep_step(now: Instant, deadline: Instant) -> (step: SleepStep)
    ensures
        step == (if now.nanos >= deadline.nanos {
            SleepStep::Wake
        } else if deadline.nanos - now.nanos > COARSE_MARGIN_US * 1_000 {
            SleepStep::Sleep(
                Duration { nanos: (deadline.nanos - now.nanos - COARSE_MARGIN_US * 1_000) as u64 },
            )
        } else {
            SleepStep::Spin
        }),
        step == sleep_choice(now, deadline),
{
    if now.nanos >= deadline.nanos {
        return SleepStep::Wake;
    }
    let remaining = deadline.saturating_duration_since(now);
    let margin = Duration::from_micros(COARSE_MARGIN_US);
    if remaining.nanos > margin.nanos {
        SleepStep::Sleep(Duration { nanos: remaining.nanos - margin.nanos })
    } else {
        SleepStep::Spin
    }
}

/// Law: no sample gets lost unnoticed. Each sample that is offered adds one to the samples
/// in the buffer or one to the samples that were dropped.
pub proof fn law_insert_conserves(v: OcsView, sample: SensorSample)
    ensures
        after_insert(v, sample).sensor_buffer.len() + after_insert(v, sample).dropped_packets
            == v.sensor_buffer.len() + v.dropped_packets + 1,
{
    if v.sensor_buffer.len() >= SENSOR_BUFFER_CAPACITY {
        lemma_first_lowest_exists(v.sensor_buffer);
    }
}

/// Law: only a sample of higher priority displaces another one. Each sample that the buffer
/// loses has a lower priority than the one that was offered and than none of those that
/// stay, and the others keep their order.
pub proof fn law_insert_displaces_lower(v: OcsView, sample: SensorSample)
    requires
        v.sensor_buffer.len() >= SENSOR_BUFFER_CAPACITY,
        takes_in(v, sample),
    ensures
        ({
            let i = first_lowest(v.sensor_buffer);
            &&& 0 <= i < v.sensor_buffer.len()
            &&& after_insert(v, sample).sensor_buffer == v.sensor_buffer.take(i)
                + v.sensor_buffer.skip(i + 1) + seq![sample]
            &&& v.sensor_buffer[i].kind.rank() < sample.kind.rank()
            &&& forall|j: int|
                0 <= j < v.sensor_buffer.len() ==> v.sensor_buffer[i].kind.rank() <= (
                #[trigger] v.sensor_buffer[j]).kind.rank()
        }),
{
    let s = v.sensor_buffer;
    lemma_first_lowest_exists(s);
    let i = first_lowest(s);
    assert(s.remove(i).push(sample) =~= s.take(i) + s.skip(i + 1) + seq![sample]);
}

/// Law: a sample is turned away only by a full buffer in which every sample has at least
/// its priority. In particular a thermal sample is only turned away by thermal samples.
pub proof fn law_turned_away_only_by_higher(v: OcsView, sample: SensorSample)
    requires
        !takes_in(v, sample),
    ensures
        v.sensor_buffer.len() >= SENSOR_BUFFER_CAPACITY,
        forall|j: int|
            0 <= j < v.sensor_buffer.len() ==> sample.kind.rank() <= (
            #[trigger] v.sensor_buffer[j]).kind.rank(),
        sample.kind == SensorKind::Thermal ==> forall|j: int|
            0 <= j < v.sensor_buffer.len() ==> (#[trigger] v.sensor_buffer[j]).kind
                == SensorKind::Thermal,
{
    lemma_first_lowest_exists(v.sensor_buffer);
    let i = first_lowest(v.sensor_buffer);
    assert forall|j: int| 0 <= j < v.sensor_buffer.len() implies sample.kind.rank() <= (
    #[trigger] v.sensor_buffer[j]).kind.rank() by {
        assert(v.sensor_buffer[i].kind.rank() <= v.sensor_buffer[j].kind.rank());
    }
    if sample.kind == SensorKind::Thermal {
        assert forall|j: int| 0 <= j < v.sensor_buffer.len() implies (
        #[trigger] v.sensor_buffer[j]).kind == SensorKind::Thermal by {
            assert(sample.kind.rank() <= v.sensor_buffer[j].kind.rank());
        }
    }
}

/// The state after `n` thermal cycles in a row that delivered no sample, all looked at at
/// `now`.
pub open spec fn after_missed_cycles(v: OcsView, n: nat, now: Instant) -> OcsView
    decreases n,
{
    if n == 0 {
        v
    } else {
        after_thermal_cycle(after_missed_cycles(v, (n - 1) as nat, now), false, now)
    }
}

/// Law: the fourth thermal cycle in a row without a sample, and none before it, raises the
/// thermal alarm; more of them leave it as it is.
pub proof fn law_thermal_alarm(v: OcsView, n: nat, now: Instant)
    requires
        v.thermal_missed_cycles == 0,
        v.active_fault is None,
    ensures
        after_missed_cycles(v, n, now).thermal_missed_cycles == n,
        n <= 3 ==> after_missed_cycles(v, n, now) == (OcsView { thermal_missed_cycles: n, ..v }),
        n > 3 ==> after_missed_cycles(v, n, now) == (OcsView {
            thermal_missed_cycles: n,
            safety_alerts: v.safety_alerts + 1,
            ..v
        }).with_fault(THERMAL_FAULT@, now),
    decreases n,
{
    if n > 0 {
        law_thermal_alarm(v, (n - 1) as nat, now);
    }
}

} // verus!
