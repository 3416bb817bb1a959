//! What the controller leaves alone, whatever happens to the task.

use vstd::prelude::*;

use crate::classifier::{DecisionView, ErrorView};
use crate::runtime::model::{rpc_error, CoreView};
use crate::text::blank;
use crate::transport::{EventView, FailureView, SessionView, TurnStatus, TurnView};

verus! {

/// Whether two states agree on what surrounds the task: the configuration, the
/// carrier and how often it failed, what was saved and announced, when the
/// clocks were read, and what is known of earlier attempts.
pub open spec fn same_surroundings(left: CoreView, right: CoreView) -> bool {
    &&& left.config == right.config
    &&& left.style == right.style
    &&& left.has_store == right.has_store
    &&& left.wake_detector == right.wake_detector
    &&& left.connected == right.connected
    &&& left.connection_failures == right.connection_failures
    &&& left.success_notified == right.success_notified
    &&& left.state_failures == right.state_failures
    &&& left.config_failed == right.config_failed
    &&& left.machine.attempts == right.machine.attempts
    &&& left.machine.snapshot.codex_path == right.machine.snapshot.codex_path
}

/// What the user does to the queue, and the clocks, leave its surroundings alone.
pub proof fn commands_leave_the_surroundings(core: CoreView, now: i128, monotonic: u128)
    ensures
        same_surroundings(core.pause().core, core),
        same_surroundings(core.stop().core, core),
        same_surroundings(core.deadline_passed().core, core),
        same_surroundings(core.woken(now, monotonic).core, core),
        core.start().core.machine.attempts == core.machine.attempts,
        core.start().core.config == core.config,
        core.start().core.connected == core.connected,
        core.start().core.connection_failures == core.connection_failures,
        core.start().core.turn_deadline == core.turn_deadline,
{
    reveal(CoreView::deadline_passed);
    reveal(CoreView::woken);
    reveal(CoreView::start);
}

/// So do the steps of a retry and of a rest.
pub proof fn retries_leave_the_surroundings(
    core: CoreView,
    reason: Seq<char>,
    drawn_secs: u64,
    preserve: bool,
    now: i128,
)
    ensures
        same_surroundings(core.delay_drawn(reason, drawn_secs, now).core, core),
        same_surroundings(core.retry_soon(reason, now).core, core),
        same_surroundings(core.retry_quietly(reason, now).core, core),
        same_surroundings(core.mark_uncertain().core, core),
        same_surroundings(core.abandon_submission().core, core),
        same_surroundings(core.pause_after_failure(reason).core, core),
        same_surroundings(core.fatal_after_failure(reason).core, core),
        same_surroundings(core.close_timed_out_turn().core, core),
        same_surroundings(core.ensure_connection().core, core),
        same_surroundings(core.after_disconnect(reason, preserve).core, core),
        core.send_attempt(now).core.connected == core.connected,
        core.send_attempt(now).core.turn_deadline == core.turn_deadline,
        core.send_attempt(now).core.wake_detector == core.wake_detector,
        core.retry_connection(reason, now).core.connected == core.connected,
        core.retry_connection(reason, now).core.wake_detector == core.wake_detector,
        core.retry_connection(reason, now).core.success_notified == core.success_notified,
{
    reveal(CoreView::after_disconnect);
    reveal(CoreView::send_attempt);
    reveal(CoreView::retry_connection);
}

proof fn decisions_leave_the_surroundings(
    core: CoreView,
    decision: DecisionView,
    empty_reply: bool,
    now: i128,
)
    ensures
        !(decision is Success) ==> same_surroundings(
            core.turn_decided(decision, empty_reply, now).core,
            core,
        ),
        core.turn_decided(decision, empty_reply, now).core.connected == core.connected,
        core.turn_decided(decision, empty_reply, now).core.machine.attempts
            == core.machine.attempts,
        core.turn_decided(decision, empty_reply, now).core.machine.snapshot.attempt_count
            == core.machine.snapshot.attempt_count,
{
    reveal(CoreView::turn_decided);
    match decision {
        DecisionView::RetryImmediately(reason) => {
            retries_leave_the_surroundings(core, reason, 0, false, now);
        },
        DecisionView::RetryImmediatelyQuiet(reason) => {
            retries_leave_the_surroundings(core, reason, 0, false, now);
        },
        _ => {},
    }
}

/// So does the end of a turn, but that a success is remembered as announced.
pub proof fn ends_leave_the_surroundings(core: CoreView, turn: TurnView, now: i128)
    ensures
        !(core.turn_decision(turn) is Success) ==> same_surroundings(
            core.turn_completed(turn, now).core,
            core,
        ),
        core.turn_completed(turn, now).core.connected == core.connected,
        core.turn_completed(turn, now).core.machine.attempts == core.machine.attempts,
        core.turn_completed(turn, now).core.machine.snapshot.attempt_count
            == core.machine.snapshot.attempt_count,
{
    reveal(CoreView::turn_completed);
    let shown = core.snap().with_preview(CoreView::turn_text(turn));
    let settled = if turn.status == TurnStatus::InProgress {
        shown
    } else {
        shown.with_uncertainty(false)
    };
    decisions_leave_the_surroundings(
        core.with_snap(settled).with_deadline(None),
        core.turn_decision(turn),
        blank(turn.final_message),
        now,
    );
}

/// So does an error of the turn under way.
pub proof fn errors_leave_the_surroundings(
    core: CoreView,
    error: ErrorView,
    will_retry: bool,
    now: i128,
)
    ensures
        same_surroundings(core.turn_error(error, will_retry, now).core, core),
        core.turn_error(error, will_retry, now).core.machine.snapshot.attempt_count
            == core.machine.snapshot.attempt_count,
{
    reveal(CoreView::turn_error);
}

/// So does every other event.
pub proof fn events_leave_the_surroundings(
    core: CoreView,
    event: EventView,
    now: i128,
    monotonic: u128,
)
    requires
        event matches EventView::TurnCompleted { turn, .. } ==> !(core.turn_decision(turn)
            is Success),
    ensures
        same_surroundings(core.event(event, now, monotonic).core, core),
        core.event(event, now, monotonic).core.machine.snapshot.attempt_count
            == core.machine.snapshot.attempt_count,
{
    reveal(CoreView::event);
    match event {
        EventView::TurnCompleted { thread_id, turn } => {
            ends_leave_the_surroundings(core, turn, now);
        },
        EventView::Error { thread_id, turn_id, error, will_retry } => {
            errors_leave_the_surroundings(core, error, will_retry, now);
        },
        _ => {},
    }
}

/// Whether two states agree on what was saved, announced and counted, and on
/// when the clocks were read.
pub open spec fn same_records(left: CoreView, right: CoreView) -> bool {
    &&& left.config == right.config
    &&& left.wake_detector == right.wake_detector
    &&& left.success_notified == right.success_notified
    &&& left.state_failures == right.state_failures
    &&& left.config_failed == right.config_failed
    &&& left.machine.attempts == right.machine.attempts
    &&& left.machine.snapshot.attempt_count == right.machine.snapshot.attempt_count
    &&& left.machine.snapshot.empty_reply_count == right.machine.snapshot.empty_reply_count
}

proof fn refusals_leave_the_records(core: CoreView, error: ErrorView, now: i128)
    ensures
        same_records(core.rpc_failed(error, now).core, core),
        core.rpc_failed(error, now).core.connected == core.connected,
        core.rpc_failed(error, now).core.connection_failures == core.connection_failures,
{
    reveal(CoreView::rpc_failed);
}

/// A failure of the carrier leaves what was saved, announced and counted alone.
pub proof fn failures_leave_the_records(core: CoreView, failure: FailureView, now: i128)
    ensures
        same_records(core.transport_failed(failure, now).core, core),
        core.transport_failed(failure, now).core.connection_failures == core.connection_failures,
        !(failure is NotConnected) ==> core.transport_failed(failure, now).core.connected
            == core.connected,
{
    reveal(CoreView::transport_failed);
    if let FailureView::Rpc { code, message, data } = failure {
        let shown = core.with_snap(
            core.snap().with_preview(crate::transport::failure_text(failure)),
        );
        refusals_leave_the_records(shown, rpc_error(message, data), now);
    }
}

/// Each answer of the carrier is followed by a reading of the clocks, and
/// leaves what was saved, announced and counted alone.
pub proof fn answers_read_the_clocks(
    core: CoreView,
    connected: Option<FailureView>,
    session: Result<SessionView, FailureView>,
    turn: Result<Seq<char>, FailureView>,
    now: i128,
    monotonic: u128,
)
    ensures
        ({
            let read = core.clocks_read(now, monotonic);
            &&& read.wake_detector.wall == now
            &&& read.wake_detector.monotonic == monotonic
            &&& read.machine == core.machine
            &&& same_records(core.connect_answered(connected, now, monotonic).core, read)
            &&& same_records(core.thread_answered(session, now, monotonic).core, read)
            &&& same_records(core.turn_answered(turn, now, monotonic).core, read)
        }),
{
    reveal(CoreView::turn_answered);
    let read = core.clocks_read(now, monotonic);
    if let Some(failure) = connected {
        failures_leave_the_records(read, failure, now);
    }
    if let Err(failure) = session {
        failures_leave_the_records(read, failure, now);
    }
    if let Err(failure) = turn {
        failures_leave_the_records(read, failure, now);
    }
}

} // verus!
