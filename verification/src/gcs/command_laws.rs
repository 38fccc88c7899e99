//! What commands on their way do to the ground station, field by field.

use vstd::prelude::*;

use crate::gcs::backlog::{counts, fresh_entries, lists, CommandEntry, CommandEntryView};
use crate::gcs::scheduler::{
    after_block, after_tick, blocks, dispatched, next_command, schedule_after, schedule_start,
    tick_drift, CommandScheduler,
};
use crate::gcs::state::{GcsView, MetricsView};
use crate::gcs::uplink::{
    after_ack, after_answer, after_deadline_check, after_dispatch_noted, after_expiry, after_failure, after_park,
    after_retry, dispatch_note, retry_of, urgent_body, urgent_text,
};
use crate::shared::{CommandAckView, CommandView};
use crate::text::decimal;
use crate::time::{millis_between, Duration, Instant};

verus! {

/// Law: the time since the command before is noted, and this command becomes the last one.
pub proof fn law_dispatch_noted(v: GcsView, now: Instant)
    ensures
        ({
            let after = after_dispatch_noted(v, now);
            &&& after.last_cmd_dispatch == Some(now)
            &&& v.last_cmd_dispatch is None ==> after.uplink_jitter == v.uplink_jitter
            &&& v.last_cmd_dispatch matches Some(prev) ==> after.uplink_jitter
                == v.uplink_jitter.push(millis_between(now, prev) as i128)
            &&& after == (GcsView {
                last_cmd_dispatch: after.last_cmd_dispatch,
                uplink_jitter: after.uplink_jitter,
                ..v
            })
        }),
{
}

/// Law: an urgent command is a success within two milliseconds and a failure after them; if it was
/// accepted after them, the deadline is missed too. Other commands count as neither. The time that
/// was measured is noted, a status report sets mode and fault, and nothing else changes.
pub proof fn law_answer(
    v: GcsView,
    cmd: CommandView,
    ack: CommandAckView,
    elapsed: Duration,
    latency_ms: i128,
)
    ensures
        ({
            let after = after_answer(v, cmd, ack, elapsed, latency_ms);
            let note = dispatch_note(cmd, elapsed, ack is Accepted);
            let late = elapsed.nanos > 2_000_000;
            let m = v.metrics;
            let n = after.metrics;
            &&& n.command_response_latency_ms == m.command_response_latency_ms.push(latency_ms)
            &&& cmd is Urgent && !late ==> n.urgent_command_success == m.urgent_command_success
                + 1 && n.urgent_command_failures == m.urgent_command_failures
            &&& cmd is Urgent && late ==> n.urgent_command_failures == m.urgent_command_failures
                + 1 && n.urgent_command_success == m.urgent_command_success
            &&& !(cmd is Urgent) ==> n.urgent_command_success == m.urgent_command_success
                && n.urgent_command_failures == m.urgent_command_failures
            &&& cmd is Urgent && late && ack is Accepted ==> n.missed_deadlines
                == m.missed_deadlines + 1 && note is DeadlineMissed
            &&& !(cmd is Urgent && late && ack is Accepted) ==> n.missed_deadlines
                == m.missed_deadlines
            &&& cmd is Urgent && late && !(ack is Accepted) ==> note is LateButRejected
            &&& cmd is ReRequestTelemetry ==> note is ReRequestSent
            &&& !(cmd is Urgent && late) && !(cmd is ReRequestTelemetry) ==> note is Sent
            &&& ack matches CommandAckView::StatusReport {
                safe_mode,
                active_fault,
                uptime_secs,
            } ==> after.safe_mode == safe_mode && n.active_fault == active_fault
            &&& !(ack is StatusReport) ==> after.safe_mode == v.safe_mode && n.active_fault
                == m.active_fault
            &&& after == (GcsView {
                safe_mode: after.safe_mode,
                metrics: MetricsView {
                    command_response_latency_ms: n.command_response_latency_ms,
                    urgent_command_success: n.urgent_command_success,
                    urgent_command_failures: n.urgent_command_failures,
                    missed_deadlines: n.missed_deadlines,
                    active_fault: n.active_fault,
                    ..m
                },
                ..v
            })
        }),
{
}

/// Law: an answer by itself sets mode and fault if it is a status report, and nothing otherwise.
pub proof fn law_ack(v: GcsView, ack: CommandAckView)
    ensures
        !(ack is StatusReport) ==> after_ack(v, ack) == v,
        ack matches CommandAckView::StatusReport { safe_mode, active_fault, uptime_secs }
            ==> after_ack(v, ack) == (GcsView {
            safe_mode,
            metrics: MetricsView { active_fault, ..v.metrics },
            ..v
        }),
{
}

/// Law: only an urgent command is parked, and only if its number is not in the backlog. What is
/// kept is its number, its text, its deadline, the reason and the time, at priority 1. What was in
/// the backlog stays as it was.
pub proof fn law_park(
    m: Map<u64, CommandEntryView>,
    cmd: CommandView,
    deadline: Instant,
    reason: Option<Seq<char>>,
    now: Instant,
    other: u64,
)
    ensures
        ({
            let after = after_park(m, cmd, deadline, reason, now);
            &&& !(cmd is Urgent) ==> after == m
            &&& m.contains_key(other) ==> after.contains_key(other) && after[other] == m[other]
            &&& cmd matches CommandView::Urgent { id, body } ==> {
                &&& after.contains_key(id)
                &&& after.contains_key(other) ==> m.contains_key(other) || other == id
                &&& !m.contains_key(id) ==> after[id] == (CommandEntryView {
                    id,
                    cmd_debug: urgent_text(id, body),
                    deadline_instant: deadline,
                    priority: 1,
                    created_instant: now,
                    rejection_reason: reason,
                })
            }
        }),
{
}

/// Law: a command that could not be sent is parked with the error as its reason, and nothing but
/// the backlog changes.
pub proof fn law_failure(
    v: GcsView,
    cmd: CommandView,
    deadline: Instant,
    error: Seq<char>,
    now: Instant,
)
    ensures
        after_failure(v, cmd, deadline, error, now) == (GcsView {
            cmd_backlog: after_park(
                v.cmd_backlog,
                cmd,
                deadline,
                Some("Dispatch error: "@ + error),
                now,
            ),
            ..v
        }),
{
}

/// Law: a command stays in the backlog, as it was, for less than thirty seconds, and nothing but
/// the backlog changes.
pub proof fn law_lifetime(v: GcsView, now: Instant, id: u64)
    ensures
        ({
            let after = after_expiry(v, now);
            &&& after.cmd_backlog.contains_key(id) <==> v.cmd_backlog.contains_key(id)
                && now.nanos < v.cmd_backlog[id].created_instant.nanos + 30_000_000_000
            &&& after.cmd_backlog.contains_key(id) ==> after.cmd_backlog[id]
                == v.cmd_backlog[id]
            &&& after.cmd_backlog == fresh_entries(v.cmd_backlog, now)
            &&& after == (GcsView { cmd_backlog: after.cmd_backlog, ..v })
        }),
{
}

/// Law: outside of safe mode an urgent command of the backlog is tried again, with its number and
/// body. Once it is accepted it alone leaves the backlog; until then it stays.
pub proof fn law_retry(v: GcsView, id: u64, other: u64, ack: CommandAckView)
    ensures
        v.safe_mode || !v.cmd_backlog.contains_key(id) ==> retry_of(v, id) is None,
        v.cmd_backlog.contains_key(id) && !"Urgent"@.is_prefix_of(v.cmd_backlog[id].cmd_debug)
            ==> retry_of(v, id) is None,
        !v.safe_mode && v.cmd_backlog.contains_key(id) && "Urgent"@.is_prefix_of(
            v.cmd_backlog[id].cmd_debug,
        ) ==> retry_of(v, id) == Some(
            CommandView::Urgent { id, body: "attitude-correct-"@ + decimal(id as nat) },
        ),
        !(ack is Accepted) ==> after_retry(v, id, ack) == v,
        ack is Accepted ==> !after_retry(v, id, ack).cmd_backlog.contains_key(id),
        other != id ==> (after_retry(v, id, ack).cmd_backlog.contains_key(other)
            <==> v.cmd_backlog.contains_key(other)),
        other != id && v.cmd_backlog.contains_key(other) ==> after_retry(
            v,
            id,
            ack,
        ).cmd_backlog[other] == v.cmd_backlog[other],
        after_retry(v, id, ack) == (GcsView {
            cmd_backlog: after_retry(v, id, ack).cmd_backlog,
            ..v
        }),
{
}

/// Law: every fifth command is urgent and carries its number, and the others do nothing. Urgent
/// ones have two milliseconds, the others 400. In safe mode urgent ones are not sent.
pub proof fn law_schedule(v: GcsView, id: u64, now: Instant)
    requires
        now.nanos + 400_000_000 <= u64::MAX,
    ensures
        id % 5 != 0 ==> dispatched(v, id, now) == Some(
            (CommandView::NoOp, Instant { nanos: (now.nanos + 400_000_000) as u64 }),
        ),
        id % 5 == 0 && !v.safe_mode ==> dispatched(v, id, now) == Some(
            (
                CommandView::Urgent { id, body: "attitude-correct-"@ + decimal(id as nat) },
                Instant { nanos: (now.nanos + 2_000_000) as u64 },
            ),
        ),
        id % 5 == 0 && v.safe_mode ==> dispatched(v, id, now) is None,
        blocks(v, id) <==> dispatched(v, id, now) is None,
        id % 5 == 0 ==> next_command(id) == (CommandView::Urgent { id, body: urgent_body(id) }),
{
}

/// Law: a tick notes how far it is from where it was expected, early ticks as negative. A blocked
/// command is kept in place of an earlier one with its number, at priority 0, with the reason, the
/// time and its deadline. Nothing else changes.
pub proof fn law_tick(v: GcsView, id: u64, expected: Instant, now: Instant, other: u64)
    requires
        now.nanos + 400_000_000 <= u64::MAX,
    ensures
        ({
            let after = after_tick(v, id, expected, now);
            let blocked = v.safe_mode && id % 5 == 0;
            let drift = tick_drift(expected, now);
            &&& after.metrics.scheduler_drift_samples == v.metrics.scheduler_drift_samples.push(
                drift as i128,
            )
            &&& now.nanos >= expected.nanos ==> 0 <= now.nanos - expected.nanos - 1_000_000
                * drift < 1_000_000
            &&& now.nanos < expected.nanos ==> 0 <= expected.nanos - now.nanos + 1_000_000
                * drift < 1_000_000
            &&& !blocked ==> after.cmd_backlog == v.cmd_backlog
            &&& blocked ==> after.cmd_backlog.contains_key(id) && after.cmd_backlog[id]
                == (CommandEntryView {
                id,
                cmd_debug: urgent_text(id, "attitude-correct-"@ + decimal(id as nat)),
                deadline_instant: Instant { nanos: (now.nanos + 2_000_000) as u64 },
                priority: 0,
                created_instant: now,
                rejection_reason: Some(
                    "safe_mode active – Urgent commands blocked by interlock"@,
                ),
            })
            &&& other != id ==> (after.cmd_backlog.contains_key(other)
                <==> v.cmd_backlog.contains_key(other))
            &&& other != id && v.cmd_backlog.contains_key(other) ==> after.cmd_backlog[other]
                == v.cmd_backlog[other]
            &&& after == (GcsView {
                cmd_backlog: after.cmd_backlog,
                metrics: MetricsView {
                    scheduler_drift_samples: after.metrics.scheduler_drift_samples,
                    ..v.metrics
                },
                ..v
            })
        }),
{
}

/// Law: a blocked command replaces what the backlog held under its number, and nothing else
/// changes.
pub proof fn law_block(v: GcsView, id: u64, body: Seq<char>, deadline: Instant, now: Instant)
    ensures
        after_block(v, id, body, deadline, now) == (GcsView {
            cmd_backlog: v.cmd_backlog.insert(
                id,
                CommandEntryView {
                    id,
                    cmd_debug: urgent_text(id, body),
                    deadline_instant: deadline,
                    priority: 0,
                    created_instant: now,
                    rejection_reason: Some(
                        "safe_mode active – Urgent commands blocked by interlock"@,
                    ),
                },
            ),
            ..v
        }),
{
}

/// Law: commands are numbered from one, one after the other, and each is expected 400
/// milliseconds after the one before.
pub proof fn law_numbering(c: CommandScheduler, now: Instant)
    requires
        c.id_counter < u64::MAX,
        now.nanos + 400_000_000 <= u64::MAX,
    ensures
        schedule_start(now).id_counter == 1,
        schedule_start(now).expected_tick.nanos == now.nanos + 400_000_000,
        schedule_after(c, now).id_counter == c.id_counter + 1,
        schedule_after(c, now).expected_tick.nanos == now.nanos + 400_000_000,
{
}

/// Law: a listing of the backlog holds every command of it, once, and nothing else, and the
/// backlog is counted by its commands.
pub proof fn law_listing(
    m: Map<u64, CommandEntryView>,
    items: Seq<(u64, CommandEntry)>,
    n: usize,
    id: u64,
    i: int,
    j: int,
)
    requires
        lists(m, items),
        counts(m, n),
    ensures
        m.contains_key(id) <==> exists|k: int| 0 <= k < items.len() && (#[trigger] items[k]).0 == id,
        0 <= i < items.len() ==> m.contains_key(items[i].0) && items[i].1@ == m[items[i].0],
        0 <= i < j < items.len() ==> items[i].0 != items[j].0,
        items.len() == n,
{
    crate::gcs::backlog::law_listing_is_complete(m, items);
}

/// Law: the deadline check counts an accepted urgent command that took more than two milliseconds,
/// and nothing else.
pub proof fn law_deadline_check(
    m: MetricsView,
    cmd: CommandView,
    elapsed: Duration,
    was_accepted: bool,
)
    ensures
        cmd is Urgent && elapsed.nanos > 2_000_000 && was_accepted ==> after_deadline_check(
            m,
            cmd,
            elapsed,
            was_accepted,
        ) == (MetricsView { missed_deadlines: m.missed_deadlines + 1, ..m }),
        !(cmd is Urgent && elapsed.nanos > 2_000_000 && was_accepted) ==> after_deadline_check(
            m,
            cmd,
            elapsed,
            was_accepted,
        ) == m,
{
}

} // verus!
