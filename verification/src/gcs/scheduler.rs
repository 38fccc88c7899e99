//! The schedule of commands, and the interlock in front of it.

use vstd::prelude::*;

use crate::gcs::backlog::{CommandEntry, CommandEntryView};
use crate::gcs::state::{GcsState, GcsView, MetricsView};
use crate::gcs::telemetry::{after_fault_check, Timed};
use crate::gcs::uplink::{
    urgent_body, urgent_text, write_urgent_body, write_urgent_text, URGENT_DEADLINE_MS,
};
use crate::shared::{Command, CommandView, TelemetryTypeView};
use crate::time::{millis, millis_between, Duration, Instant};

verus! {

/// The time between two commands, in milliseconds.
pub const COMMAND_PERIOD_MS: u64 = 400;

/// Why an urgent command is blocked.
pub const INTERLOCK_REASON: &'static str =
    "safe_mode active – Urgent commands blocked by interlock";

/// The command with the number `id`: every fifth one is urgent.
pub open spec fn next_command(id: u64) -> CommandView {
    if id % 5 == 0 {
        CommandView::Urgent { id, body: urgent_body(id) }
    } else {
        CommandView::NoOp
    }
}

/// Selects the command with the number `id`.
pub fn select_next_command(id: u64) -> (cmd: Command)
    ensures
        cmd@ == next_command(id),
{
    if id % 5 == 0 {
        Command::Urgent { id, body: write_urgent_body(id) }
    } else if id % 10 == 0 {
        Command::QueryStatus
    } else {
        Command::NoOp
    }
}

/// How far `now` is behind the expected instant, in whole milliseconds; negative if it is
/// ahead.
pub open spec fn tick_drift(expected: Instant, now: Instant) -> int {
    if expected.nanos > now.nanos {
        -millis_between(expected, now)
    } else {
        millis_between(now, expected)
    }
}

/// The time that the command with the number `id` has, in milliseconds.
pub open spec fn allowance_ms(id: u64) -> u64 {
    if next_command(id) is Urgent {
        URGENT_DEADLINE_MS
    } else {
        COMMAND_PERIOD_MS
    }
}

/// Whether the interlock blocks the command with the number `id`.
pub open spec fn blocks(v: GcsView, id: u64) -> bool {
    v.safe_mode && next_command(id) is Urgent
}

/// The entry of an urgent command that the interlock blocked at `now`.
pub open spec fn blocked_entry(
    id: u64,
    body: Seq<char>,
    deadline: Instant,
    now: Instant,
) -> CommandEntryView {
    CommandEntryView {
        id,
        cmd_debug: urgent_text(id, body),
        deadline_instant: deadline,
        priority: 0,
        created_instant: now,
        rejection_reason: Some(INTERLOCK_REASON@),
    }
}

/// Keeps an urgent command that the interlock blocked at `now`, in place of an earlier one with
/// its number.
pub fn reject_command(id: u64, body: &String, deadline: Instant, state: &mut GcsState, now: Instant)
    ensures
        final(state)@ == (GcsView {
            cmd_backlog: old(state)@.cmd_backlog.insert(
                id,
                blocked_entry(id, body@, deadline, now),
            ),
            ..old(state)@
        }),
        final(state)@ == after_block(old(state)@, id, body@, deadline, now),
        old(state)@.wf() ==> final(state)@.wf(),
{
    let entry = CommandEntry {
        id,
        cmd_debug: write_urgent_text(id, body),
        deadline_instant: deadline,
        priority: 0,
        created_instant: now,
        rejection_reason: Some(INTERLOCK_REASON.to_string()),
    };
    state.cmd_backlog.insert(id, entry);
}

/// What is to be done about a command whose time has come.
pub enum TickOutcome {
    /// It is to be sent.
    Dispatch(Timed),
    /// The interlock blocks it, and it is in the backlog.
    Blocked { id: u64, body: String },
}

/// The state after the command with the number `id`, expected at `expected`, came up at `now`.
pub open spec fn after_tick(v: GcsView, id: u64, expected: Instant, now: Instant) -> GcsView {
    let deadline = now.after(millis(allowance_ms(id) as int));
    GcsView {
        metrics: MetricsView {
            scheduler_drift_samples: v.metrics.scheduler_drift_samples.push(
                tick_drift(expected, now) as i128,
            ),
            ..v.metrics
        },
        cmd_backlog: if blocks(v, id) {
            v.cmd_backlog.insert(id, blocked_entry(id, urgent_body(id), deadline, now))
        } else {
            v.cmd_backlog
        },
        ..v
    }
}

/// The place in the schedule after a command came up at `now`.
pub open spec fn schedule_after(c: CommandScheduler, now: Instant) -> CommandScheduler {
    CommandScheduler {
        id_counter: (c.id_counter + 1) as u64,
        expected_tick: now.after(millis(COMMAND_PERIOD_MS as int)),
    }
}

/// The start of the schedule at `now`.
pub open spec fn schedule_start(now: Instant) -> CommandScheduler {
    CommandScheduler {
        id_counter: 1,
        expected_tick: now.after(millis(COMMAND_PERIOD_MS as int)),
    }
}

/// The command that is sent when the command with the number `id` comes up at `now`, with its
/// deadline; none if the interlock blocks it.
pub open spec fn dispatched(v: GcsView, id: u64, now: Instant) -> Option<(CommandView, Instant)> {
    if blocks(v, id) {
        None
    } else {
        Some((next_command(id), now.after(millis(allowance_ms(id) as int))))
    }
}

/// The state after the interlock blocked the urgent command `id` at `now`.
pub open spec fn after_block(
    v: GcsView,
    id: u64,
    body: Seq<char>,
    deadline: Instant,
    now: Instant,
) -> GcsView {
    GcsView {
        cmd_backlog: v.cmd_backlog.insert(id, blocked_entry(id, body, deadline, now)),
        ..v
    }
}

/// The place in the schedule: the number of the next command and when it is expected.
#[derive(Clone, Copy, Debug, PartialEq, Eq, Structural)]
pub struct CommandScheduler {
    pub id_counter: u64,
    pub expected_tick: Instant,
}

impl CommandScheduler {
    /// The start of the schedule. Commands are numbered from one.
    pub fn new(now: Instant) -> (s: CommandScheduler)
        requires
            now.has_after(millis(COMMAND_PERIOD_MS as int)),
        ensures
            s == (CommandScheduler {
                id_counter: 1,
                expected_tick: now.after(millis(COMMAND_PERIOD_MS as int)),
            }),
            s == schedule_start(now),
    {
        CommandScheduler {
            id_counter: 1,
            expected_tick: now.plus(Duration::from_millis(COMMAND_PERIOD_MS)),
        }
    }

    /// Brings up the next command at `now`.
    pub fn tick(&mut self, state: &mut GcsState, now: Instant) -> (outcome: TickOutcome)
        requires
            old(self).id_counter < u64::MAX,
            now.has_after(millis(COMMAND_PERIOD_MS as int)),
        ensures
            *final(self) == (CommandScheduler {
                id_counter: (old(self).id_counter + 1) as u64,
                expected_tick: now.after(millis(COMMAND_PERIOD_MS as int)),
            }),
            final(state)@ == after_tick(
                old(state)@,
                old(self).id_counter,
                old(self).expected_tick,
                now,
            ),
            *final(self) == schedule_after(*old(self), now),
            outcome is Dispatch <==> dispatched(old(state)@, old(self).id_counter, now) is Some,
            outcome matches TickOutcome::Dispatch(t) ==> dispatched(
                old(state)@,
                old(self).id_counter,
                now,
            ) == Some((t.cmd@, t.deadline)),
            outcome is Blocked <==> blocks(old(state)@, old(self).id_counter),
            outcome matches TickOutcome::Blocked { id, body } ==> id == old(self).id_counter
                && body@ == urgent_body(id),
            outcome matches TickOutcome::Dispatch(t) ==> t.cmd@ == next_command(
                old(self).id_counter,
            ) && t.deadline == now.after(millis(allowance_ms(old(self).id_counter) as int)),
            old(state)@.wf() ==> final(state)@.wf(),
    {
        let drift: i128 = if self.expected_tick.nanos > now.nanos {
            -(self.expected_tick.saturating_duration_since(now).as_millis() as i128)
        } else {
            now.saturating_duration_since(self.expected_tick).as_millis() as i128
        };
        state.metrics.scheduler_drift_samples.push(drift);
        self.expected_tick = now.plus(Duration::from_millis(COMMAND_PERIOD_MS));
        let id: u64 = self.id_counter;
        self.id_counter = id + 1;
        match select_next_command(id) {
            Command::Urgent { id: number, body } => {
                let deadline = now.plus(Duration::from_millis(URGENT_DEADLINE_MS));
                if state.safe_mode {
                    reject_command(number, &body, deadline, state, now);
                    TickOutcome::Blocked { id: number, body }
                } else {
                    TickOutcome::Dispatch(
                        Timed { cmd: Command::Urgent { id: number, body }, deadline },
                    )
                }
            },
            cmd => {
                let deadline = now.plus(Duration::from_millis(COMMAND_PERIOD_MS));
                TickOutcome::Dispatch(Timed { cmd, deadline })
            },
        }
    }
}

/// Law: the schedule never asks for the status of the satellite, nor for anything but an urgent
/// command and a command that does nothing.
pub proof fn law_schedule_has_two_commands(id: u64)
    ensures
        next_command(id) is Urgent <==> id % 5 == 0,
        next_command(id) is NoOp <==> id % 5 != 0,
        !(next_command(id) is QueryStatus),
{
}

/// Law: of any five commands in a row one is urgent, and one only.
pub proof fn law_one_urgent_in_five(id: u64)
    requires
        id <= u64::MAX - 4,
    ensures
        exists|k: u64| id <= k <= id + 4 && (#[trigger] next_command(k)) is Urgent,
        forall|j: u64, k: u64|
            id <= j < k <= id + 4 ==> !((#[trigger] next_command(j)) is Urgent
                && (#[trigger] next_command(k)) is Urgent),
{
    let k = (id + (5 - id % 5) % 5) as u64;
    assert(next_command(k) is Urgent);
}

/// Law: the interlock holds. Once a fault was reported, an urgent command whose time comes is
/// not sent; it is in the backlog, with the reason, and everything else there is as before.
pub proof fn law_fault_blocks_urgent(
    v: GcsView,
    desc: Seq<char>,
    reported: Instant,
    id: u64,
    expected: Instant,
    now: Instant,
)
    requires
        id % 5 == 0,
    ensures
        ({
            let alarmed = after_fault_check(v, TelemetryTypeView::Fault(desc), reported);
            let after = after_tick(alarmed, id, expected, now);
            &&& blocks(alarmed, id)
            &&& after.cmd_backlog.contains_key(id)
            &&& after.cmd_backlog[id].rejection_reason == Some(INTERLOCK_REASON@)
            &&& after.cmd_backlog[id].cmd_debug == urgent_text(id, urgent_body(id))
            &&& forall|other: u64| #[trigger]
                v.cmd_backlog.contains_key(other) && other != id
                    ==> after.cmd_backlog.contains_key(other) && after.cmd_backlog[other]
                    == v.cmd_backlog[other]
        }),
{
}

/// Law: commands that are not urgent are never blocked, and outside of safe mode none is.
pub proof fn law_interlock_is_selective(v: GcsView, id: u64)
    requires
        !v.safe_mode || id % 5 != 0,
    ensures
        !blocks(v, id),
{
}

} // verus!
