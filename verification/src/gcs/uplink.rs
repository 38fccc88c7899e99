//! The uplink: commands on their way to the satellite, and the answers to them.

use vstd::prelude::*;

use crate::gcs::backlog::{fresh_entries, lists, CommandEntry, CommandEntryView};
use crate::gcs::state::{GcsState, GcsView, MetricsView};
use crate::shared::{Command, CommandAck, CommandAckView, CommandView};
use crate::text::{
    copy_text, decimal, decimal_string, in_quotes, is_plain, is_plain_from, law_decimal_is_plain,
    lemma_plain_from, quotation, quote_text, starts_with, text_of,
};
use crate::time::{millis, millis_between, Duration, Instant};

verus! {

/// How long the connection to the satellite may take, in milliseconds.
pub const TCP_CONNECT_TIMEOUT_MS: u64 = 50;

/// The time in which an urgent command has to be answered, in milliseconds.
pub const URGENT_DEADLINE_MS: u64 = 2;

/// The text of an urgent command as it is kept in the backlog.
pub open spec fn urgent_text(id: u64, body: Seq<char>) -> Seq<char> {
    "Urgent { id: "@ + decimal(id as nat) + ", body: "@ + quotation(body) + " }"@
}

/// The body of the urgent command `id`.
pub open spec fn urgent_body(id: u64) -> Seq<char> {
    "attitude-correct-"@ + decimal(id as nat)
}

/// Writes the body of the urgent command `id`.
pub fn write_urgent_body(id: u64) -> (body: String)
    ensures
        body@ == urgent_body(id),
{
    let n = decimal_string(id);
    "attitude-correct-".to_string().concat(n.as_str())
}

/// Writes the text of an urgent command as it is kept in the backlog.
pub fn write_urgent_text(id: u64, body: &String) -> (text: String)
    ensures
        text@ == urgent_text(id, body@),
        "Urgent"@.is_prefix_of(text@),
{
    let n = decimal_string(id);
    let b = quote_text(body);
    let text = "Urgent { id: ".to_string().concat(n.as_str()).concat(", body: ").concat(
        b.as_str(),
    ).concat(" }");
    proof {
        lemma_urgent_text_prefix(id, body@);
    }
    text
}

/// The text of an urgent command begins with its name.
pub proof fn lemma_urgent_text_prefix(id: u64, body: Seq<char>)
    ensures
        "Urgent"@.is_prefix_of(urgent_text(id, body)),
{
    reveal_strlit("Urgent");
    reveal_strlit("Urgent { id: ");
    let t = urgent_text(id, body);
    assert("Urgent"@ =~= t.subrange(0, "Urgent"@.len() as int));
}

/// Law: the text of a scheduled urgent command is known in full.
pub proof fn law_urgent_text_in_full(id: u64)
    ensures
        is_plain(urgent_body(id)),
        urgent_text(id, urgent_body(id)) == "Urgent { id: "@ + decimal(id as nat) + ", body: "@
            + in_quotes("attitude-correct-"@ + decimal(id as nat)) + " }"@,
{
    law_decimal_is_plain(id as nat);
    reveal_strlit("attitude-correct-");
    reveal_with_fuel(is_plain_from, 20);
    assert(is_plain_from("attitude-correct-"@, 0));
    lemma_plain_from("attitude-correct-"@, 0);
}

/// The state after a command began to be sent at `now`.
pub open spec fn after_dispatch_noted(v: GcsView, now: Instant) -> GcsView {
    GcsView {
        uplink_jitter: match v.last_cmd_dispatch {
            Some(prev) => v.uplink_jitter.push(millis_between(now, prev) as i128),
            None => v.uplink_jitter,
        },
        last_cmd_dispatch: Some(now),
        ..v
    }
}

/// Notes that a command began to be sent at `now`, and how long after the one before.
pub fn record_uplink_jitter(state: &mut GcsState, now: Instant)
    ensures
        final(state)@ == after_dispatch_noted(old(state)@, now),
        old(state)@.wf() ==> final(state)@.wf(),
{
    match state.last_cmd_dispatch {
        Some(prev) => {
            let ms: u64 = now.saturating_duration_since(prev).as_millis();
            state.uplink_jitter.push(ms as i128);
        },
        None => {},
    }
    state.last_cmd_dispatch = Some(now);
}

/// What is to be said of a command that was answered.
#[derive(Clone, Copy, Debug, PartialEq, Eq, Structural)]
pub enum DispatchNote {
    /// An urgent command was accepted too late.
    DeadlineMissed,
    /// An urgent command was answered too late, and not accepted.
    LateButRejected,
    /// A packet was asked for again.
    ReRequestSent,
    /// Any other command was answered.
    Sent,
}

/// Whether a command that took `elapsed` to be answered is an urgent one and late.
pub open spec fn is_late(cmd: CommandView, elapsed: Duration) -> bool {
    cmd is Urgent && elapsed.nanos > millis(URGENT_DEADLINE_MS as int)
}

/// What is to be said of a command that was answered after `elapsed`.
pub open spec fn dispatch_note(
    cmd: CommandView,
    elapsed: Duration,
    was_accepted: bool,
) -> DispatchNote {
    if is_late(cmd, elapsed) {
        if was_accepted {
            DispatchNote::DeadlineMissed
        } else {
            DispatchNote::LateButRejected
        }
    } else if cmd is ReRequestTelemetry {
        DispatchNote::ReRequestSent
    } else {
        DispatchNote::Sent
    }
}

/// The measurements after the deadline of an answered command was checked.
pub open spec fn after_deadline_check(
    m: MetricsView,
    cmd: CommandView,
    elapsed: Duration,
    was_accepted: bool,
) -> MetricsView {
    MetricsView {
        missed_deadlines: if is_late(cmd, elapsed) && was_accepted {
            m.missed_deadlines + 1
        } else {
            m.missed_deadlines
        },
        ..m
    }
}

/// Checks the deadline of a command that was answered after `elapsed`. Only an accepted
/// urgent command can miss it.
pub fn check_dispatch_deadline(
    elapsed: Duration,
    cmd: &Command,
    state: &mut GcsState,
    was_accepted: bool,
) -> (note: DispatchNote)
    requires
        after_deadline_check(old(state)@.metrics, cmd@, elapsed, was_accepted).missed_deadlines
            <= u64::MAX,
    ensures
        note == dispatch_note(cmd@, elapsed, was_accepted),
        final(state)@ == (GcsView {
            metrics: after_deadline_check(old(state)@.metrics, cmd@, elapsed, was_accepted),
            ..old(state)@
        }),
        old(state)@.wf() ==> final(state)@.wf(),
{
    let over = elapsed.nanos > Duration::from_millis(URGENT_DEADLINE_MS).nanos;
    match cmd {
        Command::Urgent { .. } => {
            if over && was_accepted {
                state.metrics.missed_deadlines = state.metrics.missed_deadlines + 1;
                DispatchNote::DeadlineMissed
            } else if over {
                DispatchNote::LateButRejected
            } else {
                DispatchNote::Sent
            }
        },
        Command::ReRequestTelemetry { .. } => DispatchNote::ReRequestSent,
        _ => DispatchNote::Sent,
    }
}

/// The state after an answer was taken in. A status report sets the mode and the fault.
pub open spec fn after_ack(v: GcsView, ack: CommandAckView) -> GcsView {
    match ack {
        CommandAckView::StatusReport { safe_mode, active_fault, uptime_secs } => GcsView {
            safe_mode,
            metrics: MetricsView { active_fault, ..v.metrics },
            ..v
        },
        _ => v,
    }
}

/// Takes in an answer and says whether it is no rejection.
pub fn handle_ack(ack: &CommandAck, state: &mut GcsState) -> (fine: bool)
    ensures
        fine == !(ack@ is Rejected),
        final(state)@ == after_ack(old(state)@, ack@),
        old(state)@.wf() ==> final(state)@.wf(),
{
    match ack {
        CommandAck::Accepted { .. } => true,
        CommandAck::Rejected { .. } => false,
        CommandAck::StatusReport { safe_mode, active_fault, .. } => {
            state.safe_mode = *safe_mode;
            state.metrics.active_fault = copy_text(active_fault);
            true
        },
    }
}

/// The measurements after `cmd` was answered by `ack` after `elapsed`, which goes down as
/// `latency_ms`.
pub open spec fn after_answer_measured(
    m: MetricsView,
    cmd: CommandView,
    ack: CommandAckView,
    elapsed: Duration,
    latency_ms: i128,
) -> MetricsView {
    let timed = MetricsView {
        command_response_latency_ms: m.command_response_latency_ms.push(latency_ms),
        urgent_command_success: if cmd is Urgent && !is_late(cmd, elapsed) {
            m.urgent_command_success + 1
        } else {
            m.urgent_command_success
        },
        urgent_command_failures: if is_late(cmd, elapsed) {
            m.urgent_command_failures + 1
        } else {
            m.urgent_command_failures
        },
        ..m
    };
    after_deadline_check(timed, cmd, elapsed, ack is Accepted)
}

/// The state after `cmd` was answered by `ack` after `elapsed`, which goes down as
/// `latency_ms`.
pub open spec fn after_answer(
    v: GcsView,
    cmd: CommandView,
    ack: CommandAckView,
    elapsed: Duration,
    latency_ms: i128,
) -> GcsView {
    after_ack(
        GcsView {
            metrics: after_answer_measured(v.metrics, cmd, ack, elapsed, latency_ms),
            ..v
        },
        ack,
    )
}

/// Takes in that `cmd` was answered by `ack` after `elapsed`: notes the time, counts urgent
/// commands as successes or failures, checks the deadline and takes in the answer. The time that
/// is noted is `latency_ms`, the caller's figure for `elapsed` in milliseconds.
pub fn on_answer(
    cmd: &Command,
    ack: &CommandAck,
    elapsed: Duration,
    latency_ms: i128,
    state: &mut GcsState,
) -> (note: DispatchNote)
    requires
        after_answer(
            old(state)@,
            cmd@,
            ack@,
            elapsed,
            latency_ms,
        ).metrics.urgent_command_success <= u64::MAX,
        after_answer(
            old(state)@,
            cmd@,
            ack@,
            elapsed,
            latency_ms,
        ).metrics.urgent_command_failures <= u64::MAX,
        after_answer(old(state)@, cmd@, ack@, elapsed, latency_ms).metrics.missed_deadlines
            <= u64::MAX,
    ensures
        note == dispatch_note(cmd@, elapsed, ack@ is Accepted),
        final(state)@ == after_answer(old(state)@, cmd@, ack@, elapsed, latency_ms),
        old(state)@.wf() ==> final(state)@.wf(),
{
    state.metrics.command_response_latency_ms.push(latency_ms);
    match cmd {
        Command::Urgent { .. } => {
            if elapsed.nanos <= Duration::from_millis(URGENT_DEADLINE_MS).nanos {
                state.metrics.urgent_command_success = state.metrics.urgent_command_success + 1;
            } else {
                state.metrics.urgent_command_failures = state.metrics.urgent_command_failures + 1;
            }
        },
        _ => {},
    }
    let was_accepted = match ack {
        CommandAck::Accepted { .. } => true,
        _ => false,
    };
    let note = check_dispatch_deadline(elapsed, cmd, state, was_accepted);
    let _ = handle_ack(ack, state);
    note
}

/// The entry of an urgent command that could not be sent.
pub open spec fn parked_entry(
    id: u64,
    body: Seq<char>,
    deadline: Instant,
    reason: Option<Seq<char>>,
    now: Instant,
) -> CommandEntryView {
    CommandEntryView {
        id,
        cmd_debug: urgent_text(id, body),
        deadline_instant: deadline,
        priority: 1,
        created_instant: now,
        rejection_reason: reason,
    }
}

/// The backlog after `cmd` could not be sent: an urgent command is kept, unless it is there
/// already.
pub open spec fn after_park(
    m: Map<u64, CommandEntryView>,
    cmd: CommandView,
    deadline: Instant,
    reason: Option<Seq<char>>,
    now: Instant,
) -> Map<u64, CommandEntryView> {
    match cmd {
        CommandView::Urgent { id, body } => if m.contains_key(id) {
            m
        } else {
            m.insert(id, parked_entry(id, body, deadline, reason, now))
        },
        _ => m,
    }
}

/// Parks a command that could not be sent at `now`.
pub fn park_in_backlog(
    cmd: &Command,
    deadline: Instant,
    state: &mut GcsState,
    reason: Option<String>,
    now: Instant,
)
    ensures
        final(state)@ == (GcsView {
            cmd_backlog: after_park(
                old(state)@.cmd_backlog,
                cmd@,
                deadline,
                text_of(reason),
                now,
            ),
            ..old(state)@
        }),
        old(state)@.wf() ==> final(state)@.wf(),
{
    match cmd {
        Command::Urgent { id, body } => {
            if state.cmd_backlog.contains_key(*id) {
                return ;
            }
            let entry = CommandEntry {
                id: *id,
                cmd_debug: write_urgent_text(*id, body),
                deadline_instant: deadline,
                priority: 1,
                created_instant: now,
                rejection_reason: reason,
            };
            state.cmd_backlog.insert(*id, entry);
        },
        _ => {},
    }
}

/// The reason that is kept with a command that could not be sent because of `error`.
pub open spec fn dispatch_error(error: Seq<char>) -> Seq<char> {
    "Dispatch error: "@ + error
}

/// The state after `cmd` could not be sent at `now` because of `error`.
pub open spec fn after_failure(
    v: GcsView,
    cmd: CommandView,
    deadline: Instant,
    error: Seq<char>,
    now: Instant,
) -> GcsView {
    GcsView {
        cmd_backlog: after_park(
            v.cmd_backlog,
            cmd,
            deadline,
            Some(dispatch_error(error)),
            now,
        ),
        ..v
    }
}

/// Takes in that `cmd` could not be sent at `now` because of `error`.
pub fn on_dispatch_failure(
    cmd: &Command,
    deadline: Instant,
    error: &String,
    state: &mut GcsState,
    now: Instant,
)
    ensures
        final(state)@ == (GcsView {
            cmd_backlog: after_park(
                old(state)@.cmd_backlog,
                cmd@,
                deadline,
                Some(dispatch_error(error@)),
                now,
            ),
            ..old(state)@
        }),
        final(state)@ == after_failure(old(state)@, cmd@, deadline, error@, now),
        old(state)@.wf() ==> final(state)@.wf(),
{
    let reason = "Dispatch error: ".to_string().concat(error.as_str());
    park_in_backlog(cmd, deadline, state, Some(reason), now);
}

/// The state after the commands were dropped whose lifetime was over at `now`.
pub open spec fn after_expiry(v: GcsView, now: Instant) -> GcsView {
    GcsView { cmd_backlog: fresh_entries(v.cmd_backlog, now), ..v }
}

/// Drops the commands whose lifetime in the backlog is over at `now`.
pub fn expire_backlog(state: &mut GcsState, now: Instant)
    ensures
        final(state)@ == (GcsView {
            cmd_backlog: fresh_entries(old(state)@.cmd_backlog, now),
            ..old(state)@
        }),
        final(state)@ == after_expiry(old(state)@, now),
        old(state)@.wf() ==> final(state)@.wf(),
{
    state.cmd_backlog.retain_fresh(now);
}

/// The numbers of the commands in the backlog, each of them once, in no particular order.
pub fn backlog_ids(state: &GcsState) -> (ids: Vec<u64>)
    ensures
        ids@.no_duplicates(),
        forall|id: u64| #[trigger] ids@.contains(id) <==> state@.cmd_backlog.contains_key(id),
{
    let items = state.cmd_backlog.items();
    let n: usize = items.len();
    let mut ids: Vec<u64> = Vec::new();
    let mut i: usize = 0;
    while i < n
        invariant
            n == items@.len(),
            i <= n,
            ids@.len() == i,
            forall|j: int| 0 <= j < i ==> #[trigger] ids@[j] == items@[j].0,
        decreases n - i,
    {
        ids.push(items[i].0);
        i = i + 1;
    }
    proof {
        let m = state@.cmd_backlog;
        assert(lists(m, items@));
        assert forall|id: u64| #[trigger] ids@.contains(id) <==> m.contains_key(id) by {
            if m.contains_key(id) {
                let k = choose|k: int| 0 <= k < items@.len() && (#[trigger] items@[k]).0 == id;
                assert(ids@[k] == id);
            }
            if ids@.contains(id) {
                let k = choose|k: int| 0 <= k < ids@.len() && ids@[k] == id;
                assert(items@[k].0 == id);
            }
        }
        assert forall|a: int, b: int| 0 <= a < ids@.len() && 0 <= b < ids@.len() && a != b implies
            ids@[a] != ids@[b] by {
            assert(ids@[a] == items@[a].0);
            assert(ids@[b] == items@[b].0);
        }
    }
    ids
}

/// Whether the command `id` of the backlog is to be tried again.
pub open spec fn retries(v: GcsView, id: u64) -> bool {
    &&& !v.safe_mode
    &&& v.cmd_backlog.contains_key(id)
    &&& "Urgent"@.is_prefix_of(v.cmd_backlog[id].cmd_debug)
}

/// The command to send in order to try `id` again, if it is to be tried.
pub fn retry_command(state: &GcsState, id: u64) -> (cmd: Option<Command>)
    ensures
        cmd is Some <==> retries(state@, id),
        cmd matches Some(c) ==> c@ == (CommandView::Urgent { id, body: urgent_body(id) }),
        cmd is Some <==> retry_of(state@, id) is Some,
        cmd matches Some(c) ==> retry_of(state@, id) == Some(c@),
{
    if state.safe_mode {
        return None;
    }
    match state.cmd_backlog.get(id) {
        Some(entry) => {
            if starts_with(entry.cmd_debug.as_str(), "Urgent") {
                Some(Command::Urgent { id, body: write_urgent_body(id) })
            } else {
                None
            }
        },
        None => None,
    }
}

/// The command that is sent to try `id` again, if it is to be tried.
pub open spec fn retry_of(v: GcsView, id: u64) -> Option<CommandView> {
    if retries(v, id) {
        Some(CommandView::Urgent { id, body: urgent_body(id) })
    } else {
        None
    }
}

/// The state after the command `id`, which was tried again, was answered by `ack`.
pub open spec fn after_retry(v: GcsView, id: u64, ack: CommandAckView) -> GcsView {
    GcsView {
        cmd_backlog: if ack is Accepted {
            v.cmd_backlog.remove(id)
        } else {
            v.cmd_backlog
        },
        ..v
    }
}

/// Takes in the answer to a command `id` that was tried again: an accepted one leaves the
/// backlog.
pub fn finish_retry(state: &mut GcsState, id: u64, ack: &CommandAck) -> (done: bool)
    ensures
        done == (ack@ is Accepted),
        final(state)@ == (GcsView {
            cmd_backlog: if done {
                old(state)@.cmd_backlog.remove(id)
            } else {
                old(state)@.cmd_backlog
            },
            ..old(state)@
        }),
        final(state)@ == after_retry(old(state)@, id, ack@),
        old(state)@.wf() ==> final(state)@.wf(),
{
    match ack {
        CommandAck::Accepted { .. } => {
            let _ = state.cmd_backlog.remove(id);
            true
        },
        _ => false,
    }
}

/// Law: parking a command again changes nothing, whatever the reason and the time.
pub proof fn law_park_keeps_first(
    m: Map<u64, CommandEntryView>,
    cmd: CommandView,
    first: (Instant, Option<Seq<char>>, Instant),
    second: (Instant, Option<Seq<char>>, Instant),
)
    ensures
        ({
            let once = after_park(m, cmd, first.0, first.1, first.2);
            after_park(once, cmd, second.0, second.1, second.2) == once
        }),
{
}

/// Law: what is in the backlog is not touched by the parking of another command.
pub proof fn law_park_keeps_others(
    m: Map<u64, CommandEntryView>,
    cmd: CommandView,
    deadline: Instant,
    reason: Option<Seq<char>>,
    now: Instant,
    id: u64,
)
    requires
        m.contains_key(id),
    ensures
        after_park(m, cmd, deadline, reason, now).contains_key(id),
        after_park(m, cmd, deadline, reason, now)[id] == m[id],
{
}

/// Law: after the backlog was cleared out at `now`, every command in it is younger than its
/// lifetime, and no younger command was lost.
pub proof fn law_expiry(m: Map<u64, CommandEntryView>, now: Instant, id: u64)
    ensures
        fresh_entries(m, now).contains_key(id) <==> m.contains_key(id) && m[id].fresh(now),
        fresh_entries(m, now).contains_key(id) ==> fresh_entries(m, now)[id] == m[id],
        fresh_entries(fresh_entries(m, now), now) == fresh_entries(m, now),
{
    assert(fresh_entries(fresh_entries(m, now), now) =~= fresh_entries(m, now));
}

/// Law: a parked command whose lifetime is not over can be tried again, outside of safe mode,
/// and what is kept of it is the text of the command that is then sent.
pub proof fn law_parked_is_retried(
    v: GcsView,
    id: u64,
    deadline: Instant,
    reason: Option<Seq<char>>,
    parked_at: Instant,
    now: Instant,
)
    requires
        !v.safe_mode,
        !v.cmd_backlog.contains_key(id),
        now.nanos < parked_at.nanos + 30_000_000_000,
    ensures
        ({
            let cmd = CommandView::Urgent { id, body: urgent_body(id) };
            let parked = after_park(v.cmd_backlog, cmd, deadline, reason, parked_at);
            let kept = fresh_entries(parked, now);
            &&& retries(GcsView { cmd_backlog: kept, ..v }, id)
            &&& kept[id].cmd_debug == urgent_text(id, urgent_body(id))
        }),
{
    lemma_urgent_text_prefix(id, urgent_body(id));
    let cmd = CommandView::Urgent { id, body: urgent_body(id) };
    let parked = after_park(v.cmd_backlog, cmd, deadline, reason, parked_at);
    assert(parked[id].fresh(now));
}

/// Law: each answered urgent command counts once, as a success or as a failure, and a missed
/// deadline is a failure too.
pub proof fn law_urgent_counted_once(
    m: MetricsView,
    cmd: CommandView,
    ack: CommandAckView,
    elapsed: Duration,
    latency_ms: i128,
)
    ensures
        ({
            let after = after_answer_measured(m, cmd, ack, elapsed, latency_ms);
            let urgent: nat = if cmd is Urgent {
                1
            } else {
                0
            };
            &&& after.urgent_command_success + after.urgent_command_failures
                == m.urgent_command_success + m.urgent_command_failures + urgent
            &&& after.missed_deadlines - m.missed_deadlines <= after.urgent_command_failures
                - m.urgent_command_failures
        }),
{
}

} // verus!
