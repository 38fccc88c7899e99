//! What the sensor cycles do, field by field.

use vstd::prelude::*;

use crate::satellite::sensor::{
    after_cycle, after_flags, after_insert, after_precise_start, after_timed_start,
    clock_after_start, clock_from, cycle_report, displaced_by, due_flags, first_lowest,
    lemma_first_lowest_exists, next_start, precise_clock_from, sample_of, sleep_choice, takes_in,
    timed_clock_after, CycleFlags, SensorClock, SleepStep, ThermalClock,
};
use crate::satellite::state::{FillRatio, OcsView, SensorKind, SensorSample};
use crate::time::{law_first_after, magnitude, micros_between, Instant};

verus! {

/// Law: thermal samples come before attitude samples, and these before power samples. Sensors
/// are read every 25, 20 and 50 milliseconds, and their telemetry is named after them.
pub proof fn law_sensors()
    ensures
        SensorKind::Thermal.rank() > SensorKind::Attitude.rank(),
        SensorKind::Attitude.rank() > SensorKind::Power.rank(),
        SensorKind::Power.rank() > 0,
        SensorKind::Thermal.rank() == 3,
        SensorKind::Thermal.period_nanos() == 25_000_000,
        SensorKind::Attitude.period_nanos() == 20_000_000,
        SensorKind::Power.period_nanos() == 50_000_000,
        SensorKind::Thermal.telemetry() is Thermal,
        SensorKind::Attitude.telemetry() is Attitude,
        SensorKind::Power.telemetry() is Power,
{
}

/// Law: while there is room, a sample of any kind goes behind all the samples that are there,
/// which keep their places, and nothing else changes.
pub proof fn law_sample_goes_last(v: OcsView, x: SensorSample, i: int)
    requires
        v.sensor_buffer.len() < 64,
    ensures
        takes_in(v, x),
        displaced_by(v, x) is None,
        after_insert(v, x).sensor_buffer.len() == v.sensor_buffer.len() + 1,
        after_insert(v, x).sensor_buffer.last() == x,
        0 <= i < v.sensor_buffer.len() ==> after_insert(v, x).sensor_buffer[i]
            == v.sensor_buffer[i],
        after_insert(v, x) == (OcsView {
            sensor_buffer: after_insert(v, x).sensor_buffer,
            ..v
        }),
{
}

/// Law: two samples that find room stand in the buffer in the order in which they came.
pub proof fn law_samples_keep_their_order(v: OcsView, x: SensorSample, y: SensorSample)
    requires
        v.sensor_buffer.len() < 63,
    ensures
        after_insert(after_insert(v, x), y).sensor_buffer == v.sensor_buffer + seq![x, y],
{
    assert(after_insert(after_insert(v, x), y).sensor_buffer =~= v.sensor_buffer + seq![x, y]);
}

/// Law: in a full buffer a sample replaces the oldest of those with the lowest priority, if that
/// is lower than its own, and goes behind the others, which keep their order. If no priority is
/// lower, the buffer stays as it is. Either way one sample is counted as dropped, and nothing
/// else changes.
pub proof fn law_full_buffer(v: OcsView, x: SensorSample)
    requires
        v.sensor_buffer.len() >= 64,
    ensures
        ({
            let b = v.sensor_buffer;
            let after = after_insert(v, x);
            let outranks = exists|i: int|
                0 <= i < b.len() && (#[trigger] b[i]).kind.rank() < x.kind.rank();
            &&& takes_in(v, x) == outranks
            &&& after.dropped_packets == v.dropped_packets + 1
            &&& after == (OcsView {
                sensor_buffer: after.sensor_buffer,
                dropped_packets: after.dropped_packets,
                ..v
            })
            &&& !outranks ==> after.sensor_buffer == b && displaced_by(v, x) is None
            &&& outranks ==> {
                let k = first_lowest(b);
                &&& 0 <= k < b.len()
                &&& b[k].kind.rank() < x.kind.rank()
                &&& forall|j: int|
                    0 <= j < b.len() ==> b[k].kind.rank() <= (#[trigger] b[j]).kind.rank()
                &&& forall|j: int| 0 <= j < k ==> b[k].kind.rank() < (#[trigger] b[j]).kind.rank()
                &&& after.sensor_buffer == b.take(k) + b.skip(k + 1) + seq![x]
                &&& displaced_by(v, x) == Some(b[k].kind)
            }
        }),
{
    let b = v.sensor_buffer;
    lemma_first_lowest_exists(b);
    let k = first_lowest(b);
    if takes_in(v, x) {
        assert(b[k].kind.rank() < x.kind.rank());
        assert(b.remove(k).push(x) =~= b.take(k) + b.skip(k + 1) + seq![x]);
    } else {
        assert forall|i: int| 0 <= i < b.len() implies !((#[trigger] b[i]).kind.rank()
            < x.kind.rank()) by {
            assert(b[k].kind.rank() <= b[i].kind.rank());
        }
    }
}

/// Law: a cycle stores its sample as an insertion does, notes how long the sample took from its
/// reading to its insertion, and notes the fill of the buffer; above 51 samples of 64 degraded
/// mode is on. A thermal cycle counts itself as missed or ends the count. Apart from that, and
/// from the thermal alarm, nothing changes.
pub proof fn law_cycle(v: OcsView, x: SensorSample, now: Instant)
    requires
        v.sensor_buffer.len() <= 64,
    ensures
        ({
            let after = after_cycle(v, x, now);
            let fill = FillRatio { filled: after.sensor_buffer.len() as usize, capacity: 64 };
            let stored = after_insert(v, x);
            let thermal = x.kind == SensorKind::Thermal;
            let missed = thermal && !takes_in(v, x);
            let alarm = missed && v.thermal_missed_cycles >= 3 && v.active_fault != Some(
                "thermal data missed >3 cycles"@,
            );
            &&& after.sensor_buffer == stored.sensor_buffer
            &&& after.dropped_packets == stored.dropped_packets
            &&& after.sensor_latency_us == v.sensor_latency_us.push(
                micros_between(x.inserted_at, x.read_at) as u128,
            )
            &&& after.buffer_fill_rates == v.buffer_fill_rates.push(fill)
            &&& after.degraded_mode == (v.degraded_mode || after.sensor_buffer.len() > 51)
            &&& !thermal ==> after.thermal_missed_cycles == v.thermal_missed_cycles
            &&& thermal && !missed ==> after.thermal_missed_cycles == 0
            &&& missed ==> after.thermal_missed_cycles == v.thermal_missed_cycles + 1
            &&& alarm ==> after.safety_alerts == v.safety_alerts + 1 && after.safe_mode
                && after.active_fault == Some("thermal data missed >3 cycles"@)
                && after.active_fault_since == Some(now) && after.fault_telemetry_pending
            &&& !alarm ==> after.safety_alerts == v.safety_alerts && after.safe_mode
                == v.safe_mode && after.active_fault == v.active_fault && after.active_fault_since
                == v.active_fault_since && after.fault_telemetry_pending
                == v.fault_telemetry_pending
            &&& after == (OcsView {
                sensor_buffer: after.sensor_buffer,
                dropped_packets: after.dropped_packets,
                sensor_latency_us: after.sensor_latency_us,
                buffer_fill_rates: after.buffer_fill_rates,
                degraded_mode: after.degraded_mode,
                thermal_missed_cycles: after.thermal_missed_cycles,
                safety_alerts: after.safety_alerts,
                safe_mode: after.safe_mode,
                active_fault: after.active_fault,
                active_fault_since: after.active_fault_since,
                fault_telemetry_pending: after.fault_telemetry_pending,
                ..v
            })
            &&& cycle_report(v, x, now).inserted == takes_in(v, x)
            &&& cycle_report(v, x, now).displaced == displaced_by(v, x)
            &&& cycle_report(v, x, now).safety_alert == alarm
            &&& cycle_report(v, x, now).degraded == (after.sensor_buffer.len() > 51)
        }),
{
    if v.sensor_buffer.len() < 64 {
        law_sample_goes_last(v, x, 0);
    } else {
        law_full_buffer(v, x);
        lemma_first_lowest_exists(v.sensor_buffer);
    }
}

/// Law: a flag takes effect once. A delay waits for a power cycle and passes over the others, a
/// corruption hits the next cycle of any sensor, and nothing else changes.
pub proof fn law_flags(v: OcsView, kind: SensorKind)
    ensures
        due_flags(v, kind).corrupted == v.corrupt_next_sample,
        due_flags(v, kind).delayed <==> v.delayed_power_pending && kind is Power,
        !after_flags(v, kind).corrupt_next_sample,
        kind is Power ==> !after_flags(v, kind).delayed_power_pending,
        !(kind is Power) ==> after_flags(v, kind).delayed_power_pending
            == v.delayed_power_pending,
        due_flags(after_flags(v, kind), kind) == (CycleFlags { delayed: false, corrupted: false }),
        after_flags(v, kind) == (OcsView {
            corrupt_next_sample: false,
            delayed_power_pending: after_flags(v, kind).delayed_power_pending,
            ..v
        }),
{
}

/// Law: a timed cycle notes how late it began and, but for the first, how far it began from one
/// period after the cycle before; then it takes its flags.
pub proof fn law_timed_start(
    v: OcsView,
    kind: SensorKind,
    expected: Instant,
    last: Option<Instant>,
    start: Instant,
)
    ensures
        ({
            let after = after_timed_start(v, kind, expected, last, start);
            let period_us: int = match kind {
                SensorKind::Thermal => 25_000,
                SensorKind::Attitude => 20_000,
                SensorKind::Power => 50_000,
            };
            &&& after.sensor_drift_us == v.sensor_drift_us.push(micros_between(start, expected) as i128)
            &&& last is None ==> after.sensor_jitter_us == v.sensor_jitter_us
            &&& last matches Some(l) ==> after.sensor_jitter_us == v.sensor_jitter_us.push(
                magnitude(micros_between(start, l) - period_us) as i128,
            )
            &&& after == (OcsView {
                sensor_drift_us: after.sensor_drift_us,
                sensor_jitter_us: after.sensor_jitter_us,
                ..after_flags(v, kind)
            })
        }),
{
}

/// Law: a cycle of the precise clock notes how late it began. Once eight cycles have passed it
/// also notes how far that is from the cycle before, and more than a millisecond is a violation.
pub proof fn law_precise_start(v: OcsView, c: ThermalClock, start: Instant)
    ensures
        ({
            let after = after_precise_start(
                v,
                c.kind,
                c.next_expected,
                c.last_drift_us,
                c.warmup_cycles_remaining,
                start,
            );
            let late = micros_between(start, c.next_expected);
            let judged = c.last_drift_us is Some && c.warmup_cycles_remaining == 0;
            let jitter = magnitude(late - c.last_drift_us->0);
            &&& after.sensor_drift_us == v.sensor_drift_us.push(late as i128)
            &&& judged ==> after.sensor_jitter_us == v.sensor_jitter_us.push(jitter as i128)
            &&& judged && jitter > 1_000 ==> after.critical_jitter_violations
                == v.critical_jitter_violations + 1
            &&& !judged ==> after.sensor_jitter_us == v.sensor_jitter_us
            &&& !judged || jitter <= 1_000 ==> after.critical_jitter_violations
                == v.critical_jitter_violations
            &&& after == (OcsView {
                sensor_drift_us: after.sensor_drift_us,
                sensor_jitter_us: after.sensor_jitter_us,
                critical_jitter_violations: after.critical_jitter_violations,
                ..after_flags(v, c.kind)
            })
            &&& clock_after_start(c, start) == (ThermalClock {
                last_drift_us: Some(late as u64),
                warmup_cycles_remaining: clock_after_start(c, start).warmup_cycles_remaining,
                ..c
            })
            &&& c.warmup_cycles_remaining > 0 ==> clock_after_start(
                c,
                start,
            ).warmup_cycles_remaining + 1 == c.warmup_cycles_remaining
            &&& c.warmup_cycles_remaining == 0 ==> clock_after_start(
                c,
                start,
            ).warmup_cycles_remaining == 0
        }),
{
}

/// Law: the next cycle is due a whole number of periods after this one, later than now, and no
/// earlier one of that kind is left out.
pub proof fn law_next_start(kind: SensorKind, expected: Instant, now: Instant)
    ensures
        ({
            let period: int = match kind {
                SensorKind::Thermal => 25_000_000,
                SensorKind::Attitude => 20_000_000,
                SensorKind::Power => 50_000_000,
            };
            let next = next_start(kind, expected, now);
            &&& next > now.nanos
            &&& next >= expected.nanos + period
            &&& (next - expected.nanos) % period == 0
            &&& next == expected.nanos + period || next - period <= now.nanos
        }),
{
    let p = kind.period_nanos();
    law_first_after(expected.nanos + p, p, now.nanos as int);
    let next = next_start(kind, expected, now);
    let d = next - (expected.nanos + p);
    assert((d + p) % p == d % p) by (nonlinear_arith)
        requires
            p > 0,
    ;
    assert(next - expected.nanos == d + p);
}

/// Law: a waiting task wakes once the deadline has come. Before that it sleeps until two
/// milliseconds are left, and spins from there on.
pub proof fn law_sleep(now: Instant, deadline: Instant)
    ensures
        sleep_choice(now, deadline) is Wake <==> now.nanos >= deadline.nanos,
        sleep_choice(now, deadline) is Sleep <==> now.nanos + 2_000_000 < deadline.nanos,
        sleep_choice(now, deadline) matches SleepStep::Sleep(d) ==> now.nanos + d.nanos + 2_000_000
            == deadline.nanos,
{
}

/// Law: a sample keeps its sensor and its times. A corrupted one says so, and has the same value
/// whatever was read; any other has the value that was read.
pub proof fn law_sample(
    kind: SensorKind,
    reading: i32,
    other: i32,
    corrupted: bool,
    times: (Instant, Instant, Instant),
)
    ensures
        ({
            let x = sample_of(kind, reading, corrupted, times);
            &&& x.kind == kind
            &&& (x.read_at, x.scheduled_at, x.inserted_at) == times
            &&& x.corrupted == corrupted
            &&& !corrupted ==> x.value_tenths == reading
            &&& corrupted ==> x.value_tenths == 99_990 && x == sample_of(
                kind,
                other,
                corrupted,
                times,
            )
        }),
{
}

/// Law: the first cycle of a sensor is due one period after its clock was started, and the precise
/// clock lets eight cycles pass before it judges. A timed cycle that began is the last one.
pub proof fn law_clocks(kind: SensorKind, now: Instant, c: SensorClock)
    requires
        now.nanos + 50_000_000 <= u64::MAX,
    ensures
        ({
            let period: int = match kind {
                SensorKind::Thermal => 25_000_000,
                SensorKind::Attitude => 20_000_000,
                SensorKind::Power => 50_000_000,
            };
            let timed = clock_from(kind, now);
            let precise = precise_clock_from(kind, now);
            &&& timed.kind == kind && precise.kind == kind
            &&& timed.next_expected.nanos == now.nanos + period
            &&& precise.next_expected.nanos == now.nanos + period
            &&& timed.last_start is None
            &&& precise.last_drift_us is None
            &&& precise.warmup_cycles_remaining == 8
            &&& timed_clock_after(c, now).last_start == Some(now)
            &&& timed_clock_after(c, now).next_expected == c.next_expected
            &&& timed_clock_after(c, now).kind == c.kind
        }),
{
}

} // verus!
