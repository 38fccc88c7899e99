//! How the satellite answers commands.

use vstd::prelude::*;

use crate::satellite::state::{OcsState, OcsView};
use crate::shared::{Command, CommandAck, CommandAckView, CommandView};
use crate::text::{copy_text, in_quotes, is_plain, quote_option, quoted_option};
use crate::time::{micros_between, Duration, Instant};

verus! {

/// The reason that is given for the rejection of an urgent command while `fault` is active.
pub open spec fn rejection_reason(fault: Option<Seq<char>>) -> Seq<char> {
    "OCS safe mode active (fault="@ + quoted_option(fault) + "); urgent blocked"@
}

/// The answer to a command.
pub open spec fn answer(v: OcsView, cmd: CommandView, now: Instant) -> CommandAckView {
    match cmd {
        CommandView::NoOp => CommandAckView::Accepted { id: 0 },
        CommandView::Urgent { id, body } => if v.safe_mode {
            CommandAckView::Rejected { id, reason: rejection_reason(v.active_fault) }
        } else {
            CommandAckView::Accepted { id }
        },
        CommandView::ReRequestTelemetry { seq } => CommandAckView::Accepted { id: seq },
        CommandView::ClearFault => CommandAckView::Accepted { id: 0 },
        CommandView::QueryStatus => CommandAckView::StatusReport {
            safe_mode: v.safe_mode,
            active_fault: v.active_fault,
            uptime_secs: v.uptime(now) as u64,
        },
    }
}

/// The state after a command took effect. Only the lifting of a fault changes anything: it
/// counts as a response if a fault was active.
pub open spec fn after_effect(v: OcsView, cmd: CommandView, now: Instant) -> OcsView {
    match cmd {
        CommandView::ClearFault => match v.active_fault_since {
            Some(since) => v.with_response(micros_between(now, since) as u128).without_fault(),
            None => v.without_fault(),
        },
        _ => v,
    }
}

/// The state after a command was received, took effect and was answered.
pub open spec fn after_command(v: OcsView, cmd: CommandView, now: Instant) -> OcsView {
    let done = after_effect(v, cmd, now);
    let rejected = answer(v, cmd, now) is Rejected;
    OcsView {
        commands_received: v.commands_received + 1,
        ack_ok: if rejected {
            v.ack_ok
        } else {
            v.ack_ok + 1
        },
        ack_rejected: if rejected {
            v.ack_rejected + 1
        } else {
            v.ack_rejected
        },
        ..done
    }
}

/// Carries out a command received at `now` and answers it.
pub fn process_command(cmd: Command, ocs: &mut OcsState, now: Instant) -> (ack: CommandAck)
    requires
        after_command(old(ocs)@, cmd@, now).commands_received <= u64::MAX,
        after_command(old(ocs)@, cmd@, now).ack_ok <= u64::MAX,
        after_command(old(ocs)@, cmd@, now).ack_rejected <= u64::MAX,
        after_command(old(ocs)@, cmd@, now).fault_responses <= u64::MAX,
    ensures
        ack@ == answer(old(ocs)@, cmd@, now),
        final(ocs)@ == after_command(old(ocs)@, cmd@, now),
        old(ocs)@.wf() ==> final(ocs)@.wf(),
{
    ocs.commands_received = ocs.commands_received + 1;
    let ack = match cmd {
        Command::NoOp => CommandAck::Accepted { id: 0 },
        Command::Urgent { id, body: _ } => {
            if ocs.safe_mode {
                let fault = quote_option(&ocs.active_fault);
                let reason = "OCS safe mode active (fault=".to_string().concat(
                    fault.as_str(),
                ).concat("); urgent blocked");
                CommandAck::Rejected { id, reason }
            } else {
                CommandAck::Accepted { id }
            }
        },
        Command::ReRequestTelemetry { seq } => CommandAck::Accepted { id: seq },
        Command::ClearFault => {
            match ocs.active_fault_since {
                Some(since) => {
                    let us: u64 = now.saturating_duration_since(since).as_micros();
                    ocs.fault_recovery_us.push(us as u128);
                    ocs.fault_responses = ocs.fault_responses + 1;
                },
                None => {},
            }
            ocs.active_fault = None;
            ocs.active_fault_since = None;
            ocs.fault_telemetry_pending = false;
            ocs.safe_mode = false;
            CommandAck::Accepted { id: 0 }
        },
        Command::QueryStatus => CommandAck::StatusReport {
            safe_mode: ocs.safe_mode,
            active_fault: copy_text(&ocs.active_fault),
            uptime_secs: ocs.uptime_secs(now),
        },
    };
    match ack {
        CommandAck::Rejected { .. } => {
            ocs.ack_rejected = ocs.ack_rejected + 1;
        },
        _ => {
            ocs.ack_ok = ocs.ack_ok + 1;
        },
    }
    ack
}

/// The state after a command was answered in `latency`.
pub open spec fn after_response(v: OcsView, latency: Duration) -> OcsView {
    OcsView {
        command_response_latency_us: v.command_response_latency_us.push(
            (latency.nanos / 1_000) as u128,
        ),
        ..v
    }
}

/// Notes how long it took to answer a command.
pub fn record_response_latency(ocs: &mut OcsState, latency: Duration)
    ensures
        final(ocs)@ == (OcsView {
            command_response_latency_us: old(ocs)@.command_response_latency_us.push(
                (latency.nanos / 1_000) as u128,
            ),
            ..old(ocs)@
        }),
        final(ocs)@ == after_response(old(ocs)@, latency),
        old(ocs)@.wf() ==> final(ocs)@.wf(),
{
    ocs.command_response_latency_us.push(latency.as_micros() as u128);
}

/// Law: an urgent command is rejected in safe mode and accepted outside of it.
pub proof fn law_urgent_blocked_in_safe_mode(v: OcsView, id: u64, body: Seq<char>, now: Instant)
    ensures
        answer(v, CommandView::Urgent { id, body }, now) is Rejected <==> v.safe_mode,
        !v.safe_mode ==> answer(v, CommandView::Urgent { id, body }, now)
            == (CommandAckView::Accepted { id }),
{
}

/// Law: the rejection of an urgent command says which fault is active, in full where every
/// character of its text stands for itself between double quotes.
pub proof fn law_rejection_names_the_fault(fault: Seq<char>)
    requires
        is_plain(fault),
    ensures
        rejection_reason(Some(fault)) == "OCS safe mode active (fault="@ + ("Some("@ + in_quotes(
            fault,
        ) + ")"@) + "); urgent blocked"@,
        rejection_reason(None) == "OCS safe mode active (fault="@ + "None"@
            + "); urgent blocked"@,
{
}

/// Law: no command but an urgent one is ever rejected.
pub proof fn law_only_urgent_rejected(v: OcsView, cmd: CommandView, now: Instant)
    requires
        answer(v, cmd, now) is Rejected,
    ensures
        cmd is Urgent,
{
}

/// Law: once the fault was cleared, urgent commands go through again.
pub proof fn law_clear_fault_lifts_block(
    v: OcsView,
    id: u64,
    body: Seq<char>,
    cleared_at: Instant,
    now: Instant,
)
    ensures
        answer(
            after_command(v, CommandView::ClearFault, cleared_at),
            CommandView::Urgent { id, body },
            now,
        ) == (CommandAckView::Accepted { id }),
{
}

/// Law: clearing a fault twice clears it once. The second time nothing but the counts of
/// commands and answers changes.
pub proof fn law_clear_fault_once(v: OcsView, first: Instant, second: Instant)
    ensures
        ({
            let once = after_command(v, CommandView::ClearFault, first);
            after_command(once, CommandView::ClearFault, second) == (OcsView {
                commands_received: once.commands_received + 1,
                ack_ok: once.ack_ok + 1,
                ..once
            })
        }),
{
}

/// Law: a status report says what the state holds, and asking for it changes nothing but
/// the counts of commands and answers.
pub proof fn law_status_report_faithful(v: OcsView, now: Instant)
    ensures
        answer(v, CommandView::QueryStatus, now) == (CommandAckView::StatusReport {
            safe_mode: v.safe_mode,
            active_fault: v.active_fault,
            uptime_secs: v.uptime(now) as u64,
        }),
        after_command(v, CommandView::QueryStatus, now) == (OcsView {
            commands_received: v.commands_received + 1,
            ack_ok: v.ack_ok + 1,
            ..v
        }),
{
}

} // verus!
