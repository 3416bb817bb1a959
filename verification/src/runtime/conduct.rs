//! What the controller does in each situation: what it finds, what it leaves
//! and what it goes on to do.

use vstd::prelude::*;

use crate::classifier::{completion_decision, error_decision, CompletedStatus, ErrorView};
use crate::config::{ConfigView, StateView};
use crate::queue::QueuePhase;
use crate::runtime::engine::{commanded, deadline_reached, due, first_things, CommandView};
use crate::runtime::laws::RuntimeView;
use crate::runtime::model::{
    conversation_error, rpc_error, ActionView, AwaitingView, CoreView, Fault, OpView, Plan, Step,
};
use crate::runtime::recovery::restarted;
use crate::text::{blank, decimal, last_chars};
use crate::transport::{failure_text, EventView, FailureView, SessionView, TurnStatus, TurnView};
use crate::verdicts::{
    announced_retries_are_waited_for, brings_the_notice, ends_of_turns, errors_during_a_turn,
    errors_for_the_user_pause, is_for_the_user, is_of_kind, is_passing, passing_errors_are_retried,
    the_notice_is_answered_at_once,
};

verus! {

/// Whether two states belong to the same task: the configuration, the thread,
/// the attempts and what surrounds them are the same.
pub open spec fn same_work(left: CoreView, right: CoreView) -> bool {
    &&& left.config == right.config
    &&& left.has_store == right.has_store
    &&& left.style == right.style
    &&& left.machine.attempts == right.machine.attempts
    &&& left.machine.snapshot.attempt_count == right.machine.snapshot.attempt_count
    &&& left.machine.snapshot.active_thread_id == right.machine.snapshot.active_thread_id
    &&& left.machine.snapshot.codex_path == right.machine.snapshot.codex_path
    &&& left.state_failures == right.state_failures
    &&& left.config_failed == right.config_failed
}

/// Whether all that is to be done is to show and to save.
pub open spec fn only_shown_and_saved(ops: Seq<OpView>) -> bool {
    &&& ops.len() == 2
    &&& ops[0] is Publish
    &&& ops[1] is Save
}

/// Whether nothing that is to be done begins another attempt, now or later.
pub open spec fn plans_no_attempt(ops: Seq<OpView>) -> bool {
    forall|i: int|
        0 <= i < ops.len() ==> !(#[trigger] ops[i] is Retry) && !(ops[i] is SendAttempt) && !(
        ops[i] is EnsureConnection) && !(ops[i] is RetryConnection) && !(ops[i] is Start) && !(
        ops[i] is Connect) && !(ops[i] is OpenThread) && !(ops[i] is Submit) && !(
        ops[i] is SettleSession) && !(ops[i] is MarkUncertain) && !(ops[i] is AfterDisconnect)
}

/// Whether a plan leaves the queue at rest: it is not going, it is paused, and
/// no attempt is planned.
pub open spec fn rests(plan: Plan) -> bool {
    &&& !plan.core.started
    &&& plan.core.machine.snapshot.phase == QueuePhase::Paused
    &&& plan.core.machine.snapshot.next_attempt_at is None
    &&& plans_no_attempt(plan.ops)
}

/// A pause stops the queue where it is: nothing is planned any more, and the
/// turn under way, where there is one, is interrupted in its thread.
pub proof fn a_pause_interrupts_the_turn(
    core: CoreView,
    thread_id: Seq<char>,
    turn_id: Seq<char>,
)
    ensures
        ({
            let plan = core.pause();
            let snap = plan.core.machine.snapshot;
            &&& rests(plan)
            &&& same_work(plan.core, core)
            &&& plan.core.turn_deadline is None
            &&& plan.core.connected == core.connected
            &&& snap.active_turn_id == core.machine.snapshot.active_turn_id
            &&& snap.submission_uncertain == core.machine.snapshot.submission_uncertain
            &&& snap.consecutive_retries == core.machine.snapshot.consecutive_retries
            &&& snap.empty_reply_count == core.machine.snapshot.empty_reply_count
            &&& plan.ops.len() >= 2 && plan.ops[0] is Publish && plan.ops[1] is Save
            &&& core.machine.snapshot.active_thread_id == Some(thread_id)
                && core.machine.snapshot.active_turn_id == Some(turn_id) ==> plan.ops.contains(
                OpView::Interrupt(thread_id, turn_id),
            ) && plan.ops.len() == 3
            &&& core.machine.snapshot.active_thread_id is None
                || core.machine.snapshot.active_turn_id is None ==> plan.ops.len() == 2
        }),
{
    let plan = core.pause();
    if core.machine.snapshot.active_thread_id == Some(thread_id)
        && core.machine.snapshot.active_turn_id == Some(turn_id) {
        assert(plan.ops[2] == OpView::Interrupt(thread_id, turn_id));
    }
}

/// A stop gives the task up: the turn under way is interrupted, the carrier is
/// shut down afterwards, and the thread and every count are forgotten.
pub proof fn a_stop_interrupts_and_shuts_down(
    core: CoreView,
    thread_id: Seq<char>,
    turn_id: Seq<char>,
)
    ensures
        ({
            let plan = core.stop();
            let snap = plan.core.machine.snapshot;
            &&& !plan.core.started
            &&& plan.core.turn_deadline is None
            &&& plan.core.config == core.config
            &&& snap.phase == QueuePhase::Idle
            &&& snap.active_thread_id is None
            &&& snap.active_turn_id is None
            &&& !snap.submission_uncertain
            &&& snap.next_attempt_at is None
            &&& snap.attempt_count == 0 && snap.consecutive_retries == 0
            &&& snap.retry_alert_count == 0 && snap.empty_reply_count == 0
            &&& snap.reply_preview.len() == 0
            &&& snap.codex_path == core.machine.snapshot.codex_path
            &&& plans_no_attempt(plan.ops)
            &&& plan.ops.len() >= 3 && plan.ops[0] is Publish && plan.ops[1] is Save
            &&& plan.ops.last() is Shutdown
            &&& core.machine.snapshot.active_thread_id == Some(thread_id)
                && core.machine.snapshot.active_turn_id == Some(turn_id) ==> plan.ops.contains(
                OpView::Interrupt(thread_id, turn_id),
            ) && plan.ops.len() == 4
            &&& core.machine.snapshot.active_thread_id is None
                || core.machine.snapshot.active_turn_id is None ==> plan.ops.len() == 3
        }),
{
    let plan = core.stop();
    if core.machine.snapshot.active_thread_id == Some(thread_id)
        && core.machine.snapshot.active_turn_id == Some(turn_id) {
        assert(plan.ops[2] == OpView::Interrupt(thread_id, turn_id));
    }
}

/// Where the end of a turn calls for the user, the queue rests with the reason:
/// it is not going, nothing is planned and no deadline runs.
pub proof fn a_pause_after_a_turn_is_a_rest(core: CoreView, turn: TurnView, now: i128)
    requires
        core.turn_decision(turn) is Pause,
    ensures
        ({
            let plan = core.turn_completed(turn, now);
            &&& rests(plan)
            &&& only_shown_and_saved(plan.ops)
            &&& same_work(plan.core, core)
            &&& plan.core.turn_deadline is None
            &&& plan.core.connected == core.connected
            &&& plan.core.machine.snapshot.status_message == core.turn_decision(turn)->Pause_0
            &&& plan.core.machine.snapshot.consecutive_retries
                == core.machine.snapshot.consecutive_retries
            &&& plan.core.machine.snapshot.retry_alert_count
                == core.machine.snapshot.retry_alert_count
        }),
{
    reveal(CoreView::turn_completed);
    reveal(CoreView::turn_decided);
}

/// The end of a turn is judged by its status, its reply, its error, the user's
/// phrases, and by how many replies came without words so far.
pub proof fn a_turn_is_judged_by_what_it_reports(core: CoreView, turn: TurnView)
    ensures
        ({
            let judged = |status: CompletedStatus|
                completion_decision(
                    status,
                    turn.final_message,
                    turn.error,
                    core.config.failure_phrases,
                    core.machine.snapshot.empty_reply_count,
                    core.config.retry_policy.max_empty_replies,
                );
            &&& turn.status == TurnStatus::Completed ==> core.turn_decision(turn) == judged(
                CompletedStatus::Completed,
            )
            &&& turn.status == TurnStatus::Interrupted ==> core.turn_decision(turn) == judged(
                CompletedStatus::Interrupted,
            )
            &&& turn.status == TurnStatus::Failed ==> core.turn_decision(turn) == judged(
                CompletedStatus::Failed,
            )
            &&& turn.status == TurnStatus::InProgress ==> core.turn_decision(turn) == judged(
                CompletedStatus::InProgress,
            )
        }),
{
}

/// A turn that failed because of signing in, quota, policy or a faulty request,
/// or without saying why, leaves the queue at rest.
pub proof fn failures_for_the_user_leave_the_queue_at_rest(
    core: CoreView,
    turn: TurnView,
    error: ErrorView,
    now: i128,
)
    requires
        turn.status == TurnStatus::Failed,
        turn.error is None || turn.error == Some(error) && is_for_the_user(error),
    ensures
        rests(core.turn_completed(turn, now)),
        core.turn_completed(turn, now).core.turn_deadline is None,
{
    let phrases = core.config.failure_phrases;
    let count = core.machine.snapshot.empty_reply_count;
    let most = core.config.retry_policy.max_empty_replies;
    ends_of_turns(turn.final_message, turn.error, phrases, count, most);
    if turn.error is Some {
        errors_for_the_user_pause(error, false, phrases, turn.final_message, count, most);
    }
    a_pause_after_a_turn_is_a_rest(core, turn, now);
}

/// A turn that was interrupted, or that failed because the servers are
/// overloaded or the connection broke, is followed by a retry; the queue stays
/// as it is going, and the retry comes before anything is shown or saved.
pub proof fn passing_failures_are_followed_by_a_retry(
    core: CoreView,
    turn: TurnView,
    error: ErrorView,
    now: i128,
)
    requires
        turn.status == TurnStatus::Interrupted || turn.status == TurnStatus::Failed && turn.error
            == Some(error) && is_passing(error) && !is_for_the_user(error) && !brings_the_notice(
            error,
        ),
    ensures
        ({
            let plan = core.turn_completed(turn, now);
            &&& plan.ops.len() == 3
            &&& plan.ops[0] is Retry && plan.ops[1] is Publish && plan.ops[2] is Save
            &&& plan.core.started == core.started
            &&& plan.core.turn_deadline is None
            &&& same_work(plan.core, core)
            &&& plan.core.machine.snapshot.phase == core.machine.snapshot.phase
        }),
{
    let phrases = core.config.failure_phrases;
    let count = core.machine.snapshot.empty_reply_count;
    let most = core.config.retry_policy.max_empty_replies;
    ends_of_turns(turn.final_message, turn.error, phrases, count, most);
    if turn.status == TurnStatus::Failed {
        passing_errors_are_retried(error, phrases);
    }
    reveal(CoreView::turn_completed);
    reveal(CoreView::turn_decided);
}

/// Where the end of a turn calls for a retry, the retry has the reason of the
/// decision; a reply without words is counted, and only that.
pub proof fn a_retry_after_a_turn_keeps_its_reason(core: CoreView, turn: TurnView, now: i128)
    requires
        core.turn_decision(turn) is Retryable,
    ensures
        ({
            let plan = core.turn_completed(turn, now);
            let before = core.machine.snapshot;
            let after = plan.core.machine.snapshot;
            &&& plan.ops.len() == 3
            &&& plan.ops[0] == OpView::Retry(core.turn_decision(turn)->Retryable_0)
            &&& plan.ops[1] is Publish && plan.ops[2] is Save
            &&& plan.core.started == core.started
            &&& !blank(turn.final_message) ==> after.empty_reply_count == before.empty_reply_count
            &&& blank(turn.final_message) && before.empty_reply_count < u8::MAX
                ==> after.empty_reply_count == before.empty_reply_count + 1
            &&& after.consecutive_retries == before.consecutive_retries
            &&& after.retry_alert_count == before.retry_alert_count
            &&& after.active_turn_id == before.active_turn_id
        }),
{
    reveal(CoreView::turn_completed);
    reveal(CoreView::turn_decided);
}

/// The end of a turn lifts its deadline and the doubt about its request; it is
/// shown by its reply, or by its error where it has no reply.
pub proof fn the_end_of_a_turn_is_shown(core: CoreView, turn: TurnView, now: i128)
    requires
        core.turn_decision(turn) is Retryable || core.turn_decision(turn) is Pause
            || core.turn_decision(turn) is Success,
    ensures
        ({
            let plan = core.turn_completed(turn, now);
            let after = plan.core.machine.snapshot;
            &&& plan.core.turn_deadline is None
            &&& turn.status != TurnStatus::InProgress ==> !after.submission_uncertain
            &&& !blank(turn.final_message) && turn.final_message.len() <= 4000
                ==> after.reply_preview == turn.final_message
            &&& !blank(turn.final_message) && turn.final_message.len() > 4000
                ==> after.reply_preview == turn.final_message.skip(turn.final_message.len() - 4000)
            &&& blank(turn.final_message) && turn.error is None ==> after.reply_preview.len() == 0
            &&& blank(turn.final_message) && turn.error is Some ==> after.reply_preview
                == last_chars(conversation_error(turn.error->0), 4000)
        }),
{
    reveal(CoreView::turn_completed);
    reveal(CoreView::turn_decided);
}

/// A success ends the queue; the user is told once, before the state is shown
/// and saved, and what was counted towards retries is forgotten.
pub proof fn a_success_ends_the_queue(core: CoreView, turn: TurnView, now: i128)
    requires
        core.turn_decision(turn) is Success,
    ensures
        ({
            let plan = core.turn_completed(turn, now);
            let after = plan.core.machine.snapshot;
            &&& !plan.core.started
            &&& plan.core.success_notified
            &&& after.phase == QueuePhase::Success
            &&& after.active_turn_id is None
            &&& after.next_attempt_at is None
            &&& after.consecutive_retries == 0
            &&& after.empty_reply_count == 0
            &&& same_work(plan.core, core)
            &&& core.success_notified ==> only_shown_and_saved(plan.ops)
            &&& !core.success_notified ==> plan.ops.len() == 3 && plan.ops[0] is Notify
                && plan.ops[1] is Publish && plan.ops[2] is Save
        }),
{
    reveal(CoreView::turn_completed);
    reveal(CoreView::turn_decided);
}

/// Where Codex gave up by itself, the next attempt is due in a second, with an
/// alert; where the servers are busy it is due at once, without one.  Either
/// leaves the queue going and the turn behind.
pub proof fn immediate_retries_are_due_soon(core: CoreView, turn: TurnView, now: i128)
    requires
        core.turn_decision(turn) is RetryImmediately || core.turn_decision(turn)
            is RetryImmediatelyQuiet,
        now <= i128::MAX - 1_000_000_000,
    ensures
        ({
            let plan = core.turn_completed(turn, now);
            let before = core.machine.snapshot;
            let after = plan.core.machine.snapshot;
            &&& plan.core.started == core.started
            &&& plan.core.turn_deadline is None
            &&& same_work(plan.core, core)
            &&& after.active_turn_id is None
            &&& !after.submission_uncertain
            &&& before.consecutive_retries < u32::MAX ==> after.consecutive_retries
                == before.consecutive_retries + 1
            &&& plan.ops.len() == 4
            &&& core.turn_decision(turn) is RetryImmediately ==> {
                &&& after.phase == QueuePhase::Backoff
                &&& after.next_attempt_at == Some((now + 1_000_000_000) as i128)
                &&& before.retry_alert_count < u64::MAX ==> after.retry_alert_count
                    == before.retry_alert_count + 1
            }
            &&& core.turn_decision(turn) is RetryImmediatelyQuiet ==> {
                &&& after.phase == QueuePhase::Connecting
                &&& after.next_attempt_at == Some(now)
                &&& after.retry_alert_count == before.retry_alert_count
            }
        }),
{
    reveal(CoreView::turn_completed);
    reveal(CoreView::turn_decided);
}

/// A turn that goes on after all is waited for.
pub proof fn a_turn_that_goes_on_is_waited_for(core: CoreView, turn: TurnView, now: i128)
    requires
        turn.status == TurnStatus::InProgress,
    ensures
        ({
            let plan = core.turn_completed(turn, now);
            &&& only_shown_and_saved(plan.ops)
            &&& plan.core.started == core.started
            &&& plan.core.machine.snapshot.phase == QueuePhase::Waiting
            &&& plan.core.machine.snapshot.active_turn_id == core.machine.snapshot.active_turn_id
            &&& plan.core.machine.snapshot.submission_uncertain
                == core.machine.snapshot.submission_uncertain
            &&& plan.core.machine.snapshot.next_attempt_at == core.machine.snapshot.next_attempt_at
        }),
{
    ends_of_turns(
        turn.final_message,
        turn.error,
        core.config.failure_phrases,
        core.machine.snapshot.empty_reply_count,
        core.config.retry_policy.max_empty_replies,
    );
    reveal(CoreView::turn_completed);
    reveal(CoreView::turn_decided);
}

/// An error of the turn under way that only the user can mend leaves the queue
/// at rest at once, even where Codex announces a retry.
pub proof fn errors_for_the_user_leave_the_queue_at_rest(
    core: CoreView,
    error: ErrorView,
    will_retry: bool,
    now: i128,
)
    requires
        is_for_the_user(error),
    ensures
        ({
            let plan = core.turn_error(error, will_retry, now);
            &&& rests(plan)
            &&& only_shown_and_saved(plan.ops)
            &&& plan.core.turn_deadline is None
            &&& same_work(plan.core, core)
            &&& plan.core.machine.snapshot.active_turn_id == core.machine.snapshot.active_turn_id
        }),
{
    errors_for_the_user_pause(error, will_retry, core.config.failure_phrases, Seq::empty(), 0, 0);
    reveal(CoreView::turn_error);
}

/// An error that Codex retries by itself changes nothing but what is shown; any
/// other passing error is followed by a retry, at once where Codex gave up or
/// the servers are busy.
pub proof fn errors_of_the_turn_under_way(core: CoreView, error: ErrorView, now: i128)
    requires
        !is_for_the_user(error),
        now <= i128::MAX - 1_000_000_000,
    ensures
        ({
            let announced = core.turn_error(error, true, now);
            let plain = core.turn_error(error, false, now);
            let before = core.machine.snapshot;
            &&& only_shown_and_saved(announced.ops)
            &&& announced.core.started == core.started
            &&& announced.core.turn_deadline == core.turn_deadline
            &&& announced.core.machine.snapshot.active_turn_id == before.active_turn_id
            &&& announced.core.machine.snapshot.next_attempt_at == before.next_attempt_at
            &&& announced.core.machine.snapshot.phase == QueuePhase::Waiting
            &&& same_work(announced.core, core)
            &&& plain.core.started == core.started || rests(plain)
            &&& same_work(plain.core, core)
            &&& is_of_kind(error, "responsetoomanyfailedattempts"@) ==> {
                &&& only_shown_and_saved(plain.ops)
                &&& plain.core.started == core.started
                &&& plain.core.machine.snapshot.phase == QueuePhase::Backoff
                &&& plain.core.machine.snapshot.next_attempt_at == Some(
                    (now + 1_000_000_000) as i128,
                )
                &&& plain.core.machine.snapshot.active_turn_id is None
            }
            &&& !is_of_kind(error, "responsetoomanyfailedattempts"@) && brings_the_notice(error)
                ==> {
                &&& only_shown_and_saved(plain.ops)
                &&& plain.core.started == core.started
                &&& plain.core.machine.snapshot.phase == QueuePhase::Connecting
                &&& plain.core.machine.snapshot.next_attempt_at == Some(now)
                &&& plain.core.machine.snapshot.retry_alert_count == before.retry_alert_count
                &&& plain.core.machine.snapshot.active_turn_id is None
            }
            &&& !is_of_kind(error, "responsetoomanyfailedattempts"@) && !brings_the_notice(error)
                && is_passing(error) ==> {
                &&& plain.ops.len() == 1 && plain.ops[0] is Retry
                &&& plain.core.started == core.started
                &&& plain.core.machine.snapshot.active_turn_id == before.active_turn_id
            }
        }),
{
    let phrases = core.config.failure_phrases;
    announced_retries_are_waited_for(error, phrases);
    errors_during_a_turn(error, phrases);
    if brings_the_notice(error) {
        the_notice_is_answered_at_once(error, phrases, Seq::empty(), 0, 0);
    } else if is_passing(error) {
        passing_errors_are_retried(error, phrases);
    }
    reveal(CoreView::turn_error);
    assert(!(error_decision(error, phrases) is Success));
    assert(!(error_decision(error, phrases) is WaitForInternalRetry));
    assert(!(error_decision(error, phrases) is WaitForInternalRetryQuiet));
}

/// A refused request that only the user can mend shuts the carrier down and
/// leaves the queue at rest; one that passes is followed by a retry.
pub proof fn refused_requests(
    core: CoreView,
    code: i64,
    message: Seq<char>,
    data: Option<crate::json::JsonView>,
    now: i128,
)
    ensures
        ({
            let error = rpc_error(message, data);
            let plan = core.transport_failed(FailureView::Rpc { code, message, data }, now);
            &&& same_work(plan.core, core)
            &&& plan.core.started == core.started
            &&& is_for_the_user(error) ==> plan.ops.len() == 2 && plan.ops[0] is Shutdown
                && plan.ops[1] is PauseAfterFailure
            &&& !is_for_the_user(error) && !brings_the_notice(error) && is_passing(error)
                && !is_of_kind(error, "responsetoomanyfailedattempts"@) ==> plan.ops.len() == 1
                && plan.ops[0] is Retry
            &&& !is_for_the_user(error) && (brings_the_notice(error) || is_of_kind(
                error,
                "responsetoomanyfailedattempts"@,
            )) ==> only_shown_and_saved(plan.ops)
                && plan.core.machine.snapshot.next_attempt_at is Some
                && plan.core.machine.snapshot.active_turn_id is None
        }),
{
    let error = rpc_error(message, data);
    let phrases = core.config.failure_phrases;
    errors_during_a_turn(error, phrases);
    if is_for_the_user(error) {
        errors_for_the_user_pause(error, false, phrases, Seq::empty(), 0, 0);
    } else if brings_the_notice(error) {
        the_notice_is_answered_at_once(error, phrases, Seq::empty(), 0, 0);
    } else if is_passing(error) {
        passing_errors_are_retried(error, phrases);
    }
    reveal(CoreView::transport_failed);
    reveal(CoreView::rpc_failed);
    assert(!(error_decision(error, phrases) is Success));
    assert(!(error_decision(error, phrases) is WaitForInternalRetry));
    assert(!(error_decision(error, phrases) is WaitForInternalRetryQuiet));
}

/// The error that a refused request stands for has the message of the refusal;
/// its data are its details, and its information is the one in the data or
/// else the data themselves.
pub proof fn refused_requests_are_errors(message: Seq<char>, data: crate::json::JsonView)
    ensures
        rpc_error(message, None).message == message,
        rpc_error(message, None).additional_details is None,
        rpc_error(message, None).codex_error_info is None,
        rpc_error(message, Some(data)).message == message,
        rpc_error(message, Some(data)).additional_details == Some(crate::json::compact(data)),
        crate::json::field(data, "codexErrorInfo"@) is None ==> rpc_error(
            message,
            Some(data),
        ).codex_error_info == Some(data),
        crate::json::field(data, "codexErrorInfo"@) is Some ==> rpc_error(
            message,
            Some(data),
        ).codex_error_info == crate::json::field(data, "codexErrorInfo"@),
{
}

/// A carrier that answers too late or whose process failed is shut down and
/// tried again; one that is not connected is tried again; one that breaks the
/// protocol ends the queue; one that the user has to mend makes it rest.
pub proof fn failures_of_the_carrier(core: CoreView, text: Seq<char>, now: i128)
    ensures
        ({
            let late = core.transport_failed(FailureView::Timeout(text), now);
            let ended = core.transport_failed(FailureView::Process(text), now);
            let lost = core.transport_failed(FailureView::NotConnected, now);
            let broken = core.transport_failed(FailureView::Protocol(text), now);
            let absent = core.transport_failed(FailureView::ExecutableNotFound(text), now);
            let refused = core.transport_failed(FailureView::FallbackDisabled(text), now);
            let away = core.transport_failed(FailureView::Unavailable(text), now);
            &&& late.ops.len() == 2 && late.ops[0] is Shutdown && late.ops[1]
                == OpView::RetryConnection(failure_text(FailureView::Timeout(text)))
            &&& ended.ops.len() == 2 && ended.ops[0] is Shutdown && ended.ops[1]
                == OpView::RetryConnection(failure_text(FailureView::Process(text)))
            &&& !lost.core.connected
            &&& lost.ops.len() == 2 && lost.ops[0] is RefreshStatus && lost.ops[1]
                is RetryConnection
            &&& broken.ops.len() == 2 && broken.ops[0] is Shutdown && broken.ops[1]
                == OpView::FatalAfterFailure(failure_text(FailureView::Protocol(text)))
            &&& absent.ops.len() == 2 && absent.ops[0] is Shutdown && absent.ops[1]
                == OpView::PauseAfterFailure(failure_text(FailureView::ExecutableNotFound(text)))
            &&& refused.ops.len() == 2 && refused.ops[0] is Shutdown && refused.ops[1]
                == OpView::PauseAfterFailure(failure_text(FailureView::FallbackDisabled(text)))
            &&& away.ops.len() == 2 && away.ops[0] is Shutdown && away.ops[1]
                == OpView::PauseAfterFailure(failure_text(FailureView::Unavailable(text)))
            &&& late.core.started == core.started && ended.core.started == core.started
            &&& lost.core.started == core.started
            &&& same_work(late.core, core) && same_work(ended.core, core) && same_work(
                lost.core,
                core,
            ) && same_work(broken.core, core) && same_work(absent.core, core)
            &&& late.core.machine.snapshot.submission_uncertain
                == core.machine.snapshot.submission_uncertain
            &&& late.core.machine.snapshot.active_turn_id == core.machine.snapshot.active_turn_id
        }),
{
    reveal(CoreView::transport_failed);
}

/// After a failure that the user has to mend the queue rests; after a broken
/// protocol it has failed.  Either way nothing is planned and no deadline runs.
pub proof fn the_queue_rests_after_a_failure(core: CoreView, reason: Seq<char>)
    ensures
        rests(core.pause_after_failure(reason)),
        only_shown_and_saved(core.pause_after_failure(reason).ops),
        core.pause_after_failure(reason).core.turn_deadline is None,
        core.pause_after_failure(reason).core.machine.snapshot.status_message == reason,
        same_work(core.pause_after_failure(reason).core, core),
        !core.fatal_after_failure(reason).core.started,
        core.fatal_after_failure(reason).core.machine.snapshot.phase == QueuePhase::FatalError,
        core.fatal_after_failure(reason).core.machine.snapshot.next_attempt_at is None,
        core.fatal_after_failure(reason).core.machine.snapshot.status_message == reason,
        core.fatal_after_failure(reason).core.turn_deadline is None,
        only_shown_and_saved(core.fatal_after_failure(reason).ops),
        same_work(core.fatal_after_failure(reason).core, core),
{
}

/// The connection is tried again after 5 seconds, then after 15, then every
/// 60; each time raises an alert, and the turn under way is kept.
pub proof fn the_connection_is_tried_again(core: CoreView, reason: Seq<char>, now: i128)
    requires
        now <= i128::MAX - 60_000_000_000,
    ensures
        ({
            let plan = core.retry_connection(reason, now);
            let before = core.machine.snapshot;
            let after = plan.core.machine.snapshot;
            &&& after.phase == QueuePhase::Connecting
            &&& core.connection_failures == 0 ==> after.next_attempt_at == Some(
                (now + 5_000_000_000) as i128,
            )
            &&& core.connection_failures == 1 ==> after.next_attempt_at == Some(
                (now + 15_000_000_000) as i128,
            )
            &&& core.connection_failures >= 2 ==> after.next_attempt_at == Some(
                (now + 60_000_000_000) as i128,
            )
            &&& core.connection_failures < u32::MAX ==> plan.core.connection_failures
                == core.connection_failures + 1
            &&& before.retry_alert_count < u64::MAX ==> after.retry_alert_count
                == before.retry_alert_count + 1
            &&& after.active_turn_id == before.active_turn_id
            &&& after.submission_uncertain == before.submission_uncertain
            &&& after.consecutive_retries == before.consecutive_retries
            &&& plan.core.turn_deadline is None
            &&& plan.core.started == core.started
            &&& same_work(plan.core, core)
            &&& only_shown_and_saved(plan.ops)
            &&& crate::text::begins(after.status_message, reason)
        }),
{
    reveal(CoreView::retry_connection);
    let shown = core.retry_connection(reason, now).core.machine.snapshot.status_message;
    assert(shown.take(reason.len() as int) =~= reason);
}

/// A retry first asks for a delay, for one retry more than have come in a row;
/// the reason is shown in the place of a reply, where there is none.
pub proof fn a_retry_asks_for_a_delay(
    core: CoreView,
    reason: Seq<char>,
    now: i128,
    monotonic: u128,
)
    ensures
        ({
            let step = core.step(OpView::Retry(reason), now, monotonic);
            let before = core.machine.snapshot;
            let after = step.core.machine.snapshot;
            &&& step.action matches ActionView::DrawDelay { policy, retry_number } && policy
                == core.config.retry_policy && (before.consecutive_retries < u32::MAX
                ==> retry_number == before.consecutive_retries + 1)
            &&& step.awaiting == AwaitingView::Delay(reason)
            &&& step.ops.len() == 0
            &&& step.core.turn_deadline is None
            &&& step.core.started == core.started
            &&& same_work(step.core, core)
            &&& !blank(before.reply_preview) ==> after == before
            &&& blank(before.reply_preview) && reason.len() <= 4000 ==> after.reply_preview
                == reason
            &&& after.phase == before.phase
        }),
{
}

/// Once the delay is drawn the retry is planned: as far away as was drawn, at
/// least fifteen seconds, with an alert; the turn is over and the queue goes on.
pub proof fn a_drawn_delay_plans_the_retry(
    core: CoreView,
    reason: Seq<char>,
    drawn_secs: u64,
    now: i128,
)
    requires
        -1_000_000_000_000_000_000_000_000_000_000 <= now
            <= 1_000_000_000_000_000_000_000_000_000_000,
        drawn_secs <= 9_223_372_036_854_775,
    ensures
        ({
            let plan = core.delay_drawn(reason, drawn_secs, now);
            let before = core.machine.snapshot;
            let after = plan.core.machine.snapshot;
            &&& after.phase == QueuePhase::Backoff
            &&& drawn_secs >= 15 ==> after.next_attempt_at == Some(
                (now + drawn_secs * 1_000_000_000) as i128,
            )
            &&& drawn_secs < 15 ==> after.next_attempt_at == Some((now + 15_000_000_000) as i128)
            &&& after.active_turn_id is None
            &&& !after.submission_uncertain
            &&& before.consecutive_retries < u32::MAX ==> after.consecutive_retries
                == before.consecutive_retries + 1
            &&& before.retry_alert_count < u64::MAX ==> after.retry_alert_count
                == before.retry_alert_count + 1
            &&& plan.core.started == core.started
            &&& same_work(plan.core, core)
            &&& only_shown_and_saved(plan.ops)
            &&& crate::text::begins(after.status_message, reason)
        }),
{
    let shown = core.delay_drawn(reason, drawn_secs, now).core.machine.snapshot.status_message;
    assert(shown.take(reason.len() as int) =~= reason);
}

/// The user sets the queue going: it connects, from rest with a clean plan, and
/// keeps the thread and the counts; a faulty configuration makes it rest
/// instead, and a queue that is going or done stays as it is.
pub proof fn starting_the_queue(core: CoreView)
    ensures
        ({
            let plan = core.start();
            let before = core.machine.snapshot;
            let after = plan.core.machine.snapshot;
            let idle = !core.started && before.phase != QueuePhase::Success;
            &&& core.started || before.phase == QueuePhase::Success ==> plan.core == core
                && plan.ops.len() == 0
            &&& idle && core.config.problem() is None ==> {
                &&& plan.core.started
                &&& !plan.core.success_notified
                &&& plan.ops.len() == 3 && plan.ops[0] is Publish && plan.ops[1] is Save
                    && plan.ops[2] is EnsureConnection
                &&& before.phase == QueuePhase::Paused || before.phase == QueuePhase::FatalError
                    || before.phase == QueuePhase::Idle ==> after.phase == QueuePhase::Connecting
                    && after.next_attempt_at is None
                &&& before.phase != QueuePhase::Paused && before.phase != QueuePhase::FatalError
                    && before.phase != QueuePhase::Idle ==> after == before
            }
            &&& idle && core.config.problem() is Some ==> rests(plan) && only_shown_and_saved(
                plan.ops,
            )
            &&& same_work(plan.core, core)
            &&& after.active_turn_id == before.active_turn_id
            &&& after.submission_uncertain == before.submission_uncertain
            &&& after.consecutive_retries == before.consecutive_retries
            &&& after.reply_preview == before.reply_preview
        }),
{
    reveal(CoreView::start);
}

/// While a task is under way, only the switches that may change at any time
/// are taken over; they are saved, and the user is warned where more was asked.
pub proof fn configuring_a_task_under_way(core: CoreView, config: ConfigView)
    requires
        core.started || core.machine.snapshot.active_turn_id is Some
            || core.machine.snapshot.submission_uncertain,
        !config.equal(core.config, core.style),
    ensures
        ({
            let plan = core.configure(config);
            let after = plan.core.config;
            &&& after.gui_fallback_enabled == config.gui_fallback_enabled
            &&& after.full_screen_flash_enabled == config.full_screen_flash_enabled
            &&& after.audio_alert_enabled == config.audio_alert_enabled
            &&& after.prompt == core.config.prompt
            &&& after.working_directory == core.config.working_directory
            &&& after.codex_path == core.config.codex_path
            &&& after.retry_policy == core.config.retry_policy
            &&& after.failure_phrases == core.config.failure_phrases
            &&& after.turn_timeout_secs == core.config.turn_timeout_secs
            &&& plan.core.machine == core.machine
            &&& plan.core.started == core.started
            &&& plan.core.turn_deadline == core.turn_deadline
            &&& plan.ops.len() >= 4
            &&& plan.ops[0] == OpView::AllowFallback(config.gui_fallback_enabled)
            &&& plan.ops[1] is SaveConfig
            &&& config.prompt != core.config.prompt ==> plan.ops[2] is Warn
            &&& config.turn_timeout_secs != core.config.turn_timeout_secs ==> plan.ops[2] is Warn
            &&& config.retry_policy.base_delay_secs != core.config.retry_policy.base_delay_secs
                ==> plan.ops[2] is Warn
            &&& plan.ops[plan.ops.len() - 2] is Publish && plan.ops.last() is Save
        }),
{
    reveal(CoreView::configure);
}

/// A task that is not under way takes the configuration over as it is, hides
/// the window by it and saves it; with an opened thread its task cannot be
/// changed, and a faulty configuration is refused.
pub proof fn configuring_a_task_at_rest(core: CoreView, config: ConfigView)
    requires
        !core.started,
        core.machine.snapshot.active_turn_id is None,
        !core.machine.snapshot.submission_uncertain,
    ensures
        ({
            let plan = core.configure(config);
            let snap = core.machine.snapshot;
            &&& !plan.core.started
            &&& plan.core.machine.attempts == core.machine.attempts
            &&& plan.core.machine.snapshot.active_thread_id == snap.active_thread_id
            &&& plan.core.machine.snapshot.phase == snap.phase
            &&& plans_no_attempt(plan.ops)
            &&& snap.active_thread_id is Some && config.prompt != core.config.prompt
                ==> plan.core.config == core.config && only_shown_and_saved(plan.ops)
            &&& config.problem() is Some ==> plan.core.config == core.config
            &&& config.prompt != core.config.prompt && snap.active_thread_id is None
                && config.problem() is None ==> plan.core.config == config && plan.ops.contains(
                OpView::SaveConfig,
            )
            &&& config.turn_timeout_secs != core.config.turn_timeout_secs && config.prompt
                == core.config.prompt && config.working_directory == core.config.working_directory
                && config.problem() is None ==> plan.core.config == config && plan.ops.contains(
                OpView::SaveConfig,
            )
        }),
{
    reveal(CoreView::configure);
    let plan = core.configure(config);
    if plan.ops.len() == 3 {
        assert(plan.ops[0] is SaveConfig ==> plan.ops.contains(plan.ops[0]));
    }
    if plan.ops.len() == 5 {
        assert(plan.ops.contains(plan.ops[2]));
    }
}

/// Starting with a configuration starts only where it was taken over; a task
/// that is done is stopped first, and its configuration follows.
pub proof fn starting_with_a_configuration(core: CoreView, config: ConfigView)
    ensures
        ({
            let plan = core.start_configured(config);
            &&& core.machine.snapshot.phase == QueuePhase::Success ==> {
                &&& plan.ops.len() > 0 && plan.ops.last() == OpView::Configure(config)
                &&& plan.core.machine.snapshot.phase == QueuePhase::Idle
                &&& plan.core.machine.snapshot.active_thread_id is None
                &&& plan.ops.contains(OpView::Shutdown)
            }
            &&& core.machine.snapshot.phase != QueuePhase::Success ==> {
                &&& plan.core == core.configure(config).core
                &&& config.equal(core.config, core.style) ==> plan.ops.len() == 1 && plan.ops[0]
                    is Start
                &&& config.problem() is Some && !core.started
                    && core.machine.snapshot.active_turn_id is None
                    && !core.machine.snapshot.submission_uncertain && !config.equal(
                    core.config,
                    core.style,
                ) ==> plans_no_attempt(plan.ops)
            }
        }),
{
    reveal(CoreView::configure);
    let plan = core.start_configured(config);
    if core.machine.snapshot.phase == QueuePhase::Success {
        assert(plan.ops[plan.ops.len() - 2] is Shutdown);
        assert(plan.ops.contains(plan.ops[plan.ops.len() - 2]));
    }
}

/// A connected carrier is asked for the thread; otherwise the queue shows that
/// it connects and asks the carrier to.
pub proof fn a_connection_comes_before_the_thread(core: CoreView)
    ensures
        ({
            let plan = core.ensure_connection();
            &&& core.connected ==> plan.core == core && plan.ops.len() == 1 && plan.ops[0]
                is OpenThread
            &&& !core.connected ==> {
                &&& plan.core.machine.snapshot.phase == QueuePhase::Connecting
                &&& plan.core.machine.snapshot.next_attempt_at is None
                &&& plan.core.machine.snapshot.active_turn_id
                    == core.machine.snapshot.active_turn_id
                &&& plan.ops.len() == 3 && plan.ops[0] is Publish && plan.ops[1] is Save
                    && plan.ops[2] is Connect
            }
            &&& plan.core.started == core.started
            &&& same_work(plan.core, core)
        }),
{
}

/// A carrier that connected is remembered as such and asked for the thread; one
/// that did not is treated as any failure, and is not remembered as connected.
pub proof fn answers_to_connecting(
    core: CoreView,
    failure: FailureView,
    now: i128,
    monotonic: u128,
)
    ensures
        ({
            let plan = core.connect_answered(None, now, monotonic);
            &&& plan.core.connected
            &&& plan.core.started == core.started
            &&& plan.core.machine == core.machine
            &&& plan.core.wake_detector.wall == now && plan.core.wake_detector.monotonic
                == monotonic
            &&& plan.ops.len() == 4 && plan.ops[0] is RefreshStatus && plan.ops[1] is Publish
                && plan.ops[2] is Save && plan.ops[3] is OpenThread
        }),
        ({
            let plan = core.connect_answered(Some(failure), now, monotonic);
            &&& plan.ops == core.clocks_read(now, monotonic).transport_failed(failure, now).ops
            &&& !core.connected ==> !plan.core.connected
            &&& plan.core.wake_detector.wall == now
        }),
{
    reveal(CoreView::transport_failed);
    reveal(CoreView::rpc_failed);
}

/// An opened thread becomes the one of the task, ends the count of failed
/// connections, and its latest turn is looked at next.
pub proof fn an_opened_thread_is_looked_at(
    core: CoreView,
    session: SessionView,
    failure: FailureView,
    now: i128,
    monotonic: u128,
)
    ensures
        ({
            let plan = core.thread_answered(Ok(session), now, monotonic);
            &&& plan.core.machine.snapshot.active_thread_id == Some(session.id)
            &&& plan.core.machine.snapshot.active_turn_id == core.machine.snapshot.active_turn_id
            &&& plan.core.machine.snapshot.phase == core.machine.snapshot.phase
            &&& plan.core.machine.snapshot.submission_uncertain
                == core.machine.snapshot.submission_uncertain
            &&& plan.core.machine.snapshot.next_attempt_at == core.machine.snapshot.next_attempt_at
            &&& plan.core.connection_failures == 0
            &&& plan.core.started == core.started
            &&& plan.ops.len() == 3 && plan.ops[0] is Publish && plan.ops[1] is Save
            &&& plan.ops[2] == OpView::SettleSession(session.latest_turn)
        }),
        core.thread_answered(Err(failure), now, monotonic).ops == core.clocks_read(
            now,
            monotonic,
        ).transport_failed(failure, now).ops,
        core.thread_answered(Err(failure), now, monotonic).core.connection_failures
            == core.connection_failures,
{
    reveal(CoreView::transport_failed);
    reveal(CoreView::rpc_failed);
}

/// What follows once the thread is open: a turn under way is adopted with a new
/// deadline; where a request may have been made, its end is taken from the
/// thread, or a retry is planned; otherwise, and only while the queue is going,
/// an attempt begins.
pub proof fn settling_a_thread(core: CoreView, turn: TurnView, now: i128, monotonic: u128)
    requires
        monotonic + core.config.turn_timeout_secs * 1_000_000_000 <= u128::MAX,
    ensures
        ({
            let snap = core.machine.snapshot;
            let open = snap.active_turn_id is Some || snap.submission_uncertain || snap.phase
                == QueuePhase::Sending || snap.phase == QueuePhase::Waiting;
            let seen = core.settle_session(Some(turn), now, monotonic);
            let unseen = core.settle_session(None, now, monotonic);
            &&& turn.status == TurnStatus::InProgress ==> {
                &&& only_shown_and_saved(seen.ops)
                &&& seen.core.machine.snapshot.active_turn_id == Some(turn.id)
                &&& seen.core.machine.snapshot.phase == QueuePhase::Waiting
                &&& !seen.core.machine.snapshot.submission_uncertain
                &&& seen.core.turn_deadline == Some(
                    (monotonic + core.config.turn_timeout_secs * 1_000_000_000) as u128,
                )
                &&& snap.active_turn_id == Some(turn.id) ==> seen.core.machine.snapshot.reply_preview
                    == snap.reply_preview
                &&& snap.active_turn_id != Some(turn.id)
                    ==> seen.core.machine.snapshot.reply_preview.len() == 0
                &&& seen.core.started == core.started
                &&& same_work(seen.core, core)
            }
            &&& turn.status != TurnStatus::InProgress && open ==> seen == core.turn_completed(
                turn,
                now,
            )
            &&& turn.status != TurnStatus::InProgress && !open && core.started ==> seen.core == core
                && seen.ops.len() == 1 && seen.ops[0] is SendAttempt
            &&& turn.status != TurnStatus::InProgress && !open && !core.started ==> seen.core
                == core && seen.ops.len() == 0
            &&& unseen.core == core
            &&& !core.started ==> unseen.ops.len() == 0
            &&& core.started && open ==> unseen.ops.len() == 1 && unseen.ops[0] is Retry
            &&& core.started && !open ==> unseen.ops.len() == 1 && unseen.ops[0] is SendAttempt
        }),
{
    reveal(CoreView::settle_session);
    reveal_strlit("");
    assert(""@ =~= Seq::<char>::empty());
}

/// An attempt begins exactly while the queue is going with an open thread, no
/// active turn and nothing planned for later; it is counted and remembered,
/// and marked before the task is handed over.
pub proof fn attempts_begin_when_they_may(core: CoreView, now: i128)
    ensures
        ({
            let plan = core.send_attempt(now);
            let before = core.machine.snapshot;
            let after = plan.core.machine.snapshot;
            let may = core.started && before.active_thread_id is Some && before.active_turn_id
                is None && (before.next_attempt_at is None || before.next_attempt_at->0 <= now);
            &&& !may ==> plan.core == core && plan.ops.len() == 0
            &&& may ==> {
                &&& plan.ops.len() == 3 && plan.ops[0] is Publish && plan.ops[1] is Save
                    && plan.ops[2] is MarkUncertain
                &&& after.phase == QueuePhase::Sending
                &&& before.attempt_count < u64::MAX ==> after.attempt_count == before.attempt_count
                    + 1
                &&& after.next_attempt_at is None
                &&& after.reply_preview.len() == 0
                &&& !after.submission_uncertain
                &&& after.active_thread_id == before.active_thread_id
                &&& after.active_turn_id is None
                &&& after.consecutive_retries == before.consecutive_retries
                &&& plan.core.machine.attempts.len() > 0 && plan.core.machine.attempts.last() == now
                &&& plan.core.started
                &&& plan.core.config == core.config
            }
        }),
{
    reveal(CoreView::send_attempt);
}

/// The mark that a request is under way is set before it is saved, and it is
/// saved before the request is made.
pub proof fn the_mark_comes_first(core: CoreView, error: Seq<char>, now: i128, monotonic: u128)
    ensures
        ({
            let plan = core.mark_uncertain();
            &&& plan.core.machine.snapshot.submission_uncertain
            &&& plan.core.machine.snapshot.phase == core.machine.snapshot.phase
            &&& plan.core.started == core.started
            &&& same_work(plan.core, core)
            &&& plan.ops.len() == 2 && plan.ops[0] is Publish && plan.ops[1] is SaveCritical
        }),
        core.has_store ==> core.step(OpView::SaveCritical, now, monotonic).ops.len() == 0
            && core.step(OpView::SaveCritical, now, monotonic).awaiting is CriticalSave
            && core.step(OpView::SaveCritical, now, monotonic).action is SaveState,
        !core.has_store ==> core.step(OpView::SaveCritical, now, monotonic).ops.len() == 1
            && core.step(OpView::SaveCritical, now, monotonic).ops[0] is Submit,
        core.critical_saved(None).ops.last() is Submit,
        core.critical_saved(Some(error)).ops.last() is AbandonSubmission,
        ({
            let plan = core.abandon_submission();
            &&& rests(plan)
            &&& plan.core.turn_deadline is None
            &&& !plan.core.machine.snapshot.submission_uncertain
            &&& same_work(plan.core, core)
            &&& plan.ops.len() == 1 && plan.ops[0] is Publish
        }),
{
}

/// A turn that the server began becomes the active one, with the deadline that
/// the user set from now on; where another is active the queue aborts.  A
/// request whose outcome is unknown stays marked, and the connection is tried again.
pub proof fn answers_to_a_new_turn(
    core: CoreView,
    turn_id: Seq<char>,
    text: Seq<char>,
    failure: FailureView,
    now: i128,
    monotonic: u128,
)
    requires
        monotonic + core.config.turn_timeout_secs * 1_000_000_000 <= u128::MAX,
    ensures
        ({
            let begun = core.turn_answered(Ok(turn_id), now, monotonic);
            let late = core.turn_answered(Err(FailureView::Timeout(text)), now, monotonic);
            let ended = core.turn_answered(Err(FailureView::Process(text)), now, monotonic);
            let other = core.turn_answered(Err(failure), now, monotonic);
            let before = core.machine.snapshot;
            &&& before.active_turn_id is None || before.active_turn_id == Some(turn_id) ==> {
                &&& begun.core.machine.snapshot.active_turn_id == Some(turn_id)
                &&& begun.core.machine.snapshot.phase == QueuePhase::Waiting
                &&& !begun.core.machine.snapshot.submission_uncertain
                &&& begun.core.turn_deadline == Some(
                    (monotonic + core.config.turn_timeout_secs * 1_000_000_000) as u128,
                )
                &&& only_shown_and_saved(begun.ops)
            }
            &&& before.active_turn_id matches Some(active) ==> (active != turn_id
                ==> begun.ops.len() == 1 && begun.ops[0] == OpView::Abort(Fault::TurnAlreadyActive)
                && begun.core.machine == core.machine)
            &&& begun.core.started == core.started
            &&& same_work(begun.core, core)
            &&& late.ops.len() == 2 && late.ops[0] is Shutdown && late.ops[1] is RetryConnection
            &&& ended.ops.len() == 2 && ended.ops[0] is Shutdown && ended.ops[1] is RetryConnection
            &&& late.core.machine.snapshot.submission_uncertain == before.submission_uncertain
            &&& ended.core.machine.snapshot.submission_uncertain == before.submission_uncertain
            &&& late.core.started == core.started && ended.core.started == core.started
            &&& !(failure is Timeout) && !(failure is Process) ==> other == core.clocks_read(
                now,
                monotonic,
            ).transport_failed(failure, now)
        }),
{
    reveal(CoreView::turn_answered);
}

/// The events of the turn under way: a piece is added to the reply and shown;
/// an error and an end are judged; a thread that got its own identifier is
/// taken over.
pub proof fn events_of_the_turn_under_way(
    core: CoreView,
    thread_id: Seq<char>,
    turn: TurnView,
    delta: Seq<char>,
    error: ErrorView,
    will_retry: bool,
    own_id: Seq<char>,
    now: i128,
    monotonic: u128,
)
    requires
        core.machine.snapshot.active_thread_id == Some(thread_id),
        core.machine.snapshot.active_turn_id == Some(turn.id),
    ensures
        ({
            let piece = core.event(
                EventView::AgentMessageDelta { thread_id, turn_id: turn.id, delta },
                now,
                monotonic,
            );
            let resolved = core.event(
                EventView::ThreadResolved {
                    previous_thread_id: thread_id,
                    thread_id: own_id,
                    turn_id: turn.id,
                },
                now,
                monotonic,
            );
            let before = core.machine.snapshot;
            &&& before.reply_preview.len() + delta.len() <= 4000
                ==> piece.core.machine.snapshot.reply_preview == before.reply_preview + delta
            &&& piece.core.machine.snapshot.reply_preview == last_chars(
                before.reply_preview + delta,
                4000,
            )
            &&& piece.ops.len() == 1 && piece.ops[0] is Publish
            &&& piece.core.machine.snapshot.phase == before.phase
            &&& piece.core.machine.snapshot.active_turn_id == before.active_turn_id
            &&& piece.core.turn_deadline == core.turn_deadline
            &&& piece.core.started == core.started
            &&& resolved.core.machine.snapshot.active_thread_id == Some(own_id)
            &&& resolved.core.machine.snapshot.active_turn_id == Some(turn.id)
            &&& resolved.core.machine.snapshot.phase == before.phase
            &&& resolved.core.started == core.started
            &&& only_shown_and_saved(resolved.ops)
            &&& core.event(
                EventView::Error { thread_id, turn_id: turn.id, error, will_retry },
                now,
                monotonic,
            ) == core.turn_error(error, will_retry, now)
            &&& core.event(EventView::TurnCompleted { thread_id, turn }, now, monotonic)
                == core.turn_completed(turn, now)
        }),
{
    reveal(CoreView::event);
}

/// Events of another thread or another turn change nothing.
pub proof fn events_of_other_turns(
    core: CoreView,
    thread_id: Seq<char>,
    turn: TurnView,
    delta: Seq<char>,
    error: ErrorView,
    will_retry: bool,
    own_id: Seq<char>,
    now: i128,
    monotonic: u128,
)
    requires
        core.machine.snapshot.active_thread_id != Some(thread_id)
            || core.machine.snapshot.active_turn_id != Some(turn.id),
    ensures
        ({
            let nothing = |event: EventView|
                core.event(event, now, monotonic).core == core && core.event(
                    event,
                    now,
                    monotonic,
                ).ops.len() == 0;
            &&& nothing(EventView::AgentMessageDelta { thread_id, turn_id: turn.id, delta })
            &&& nothing(
                EventView::ThreadResolved {
                    previous_thread_id: thread_id,
                    thread_id: own_id,
                    turn_id: turn.id,
                },
            )
            &&& nothing(EventView::Error { thread_id, turn_id: turn.id, error, will_retry })
            &&& nothing(EventView::TurnCompleted { thread_id, turn })
        }),
{
    reveal(CoreView::event);
}

/// A turn is reported to have begun: it becomes the active one, with a new
/// deadline, where its thread is the one of the task, an attempt is under way
/// and no other turn is active; otherwise nothing changes.
pub proof fn a_reported_turn_becomes_active(
    core: CoreView,
    thread_id: Seq<char>,
    turn_id: Seq<char>,
    now: i128,
    monotonic: u128,
)
    requires
        monotonic + core.config.turn_timeout_secs * 1_000_000_000 <= u128::MAX,
    ensures
        ({
            let plan = core.event(EventView::TurnStarted { thread_id, turn_id }, now, monotonic);
            let before = core.machine.snapshot;
            let expected = before.active_thread_id == Some(thread_id) && (before.phase
                == QueuePhase::Sending || before.phase == QueuePhase::Waiting) && (
            before.active_turn_id is None || before.active_turn_id == Some(turn_id));
            &&& !expected ==> plan.core == core && plan.ops.len() == 0
            &&& expected ==> {
                &&& plan.core.machine.snapshot.active_turn_id == Some(turn_id)
                &&& plan.core.machine.snapshot.phase == QueuePhase::Waiting
                &&& !plan.core.machine.snapshot.submission_uncertain
                &&& plan.core.turn_deadline == Some(
                    (monotonic + core.config.turn_timeout_secs * 1_000_000_000) as u128,
                )
                &&& only_shown_and_saved(plan.ops)
                &&& plan.core.started == core.started
                &&& same_work(plan.core, core)
            }
        }),
{
    reveal(CoreView::event);
}

/// A lost connection is shut down and tried again while the queue is going; a
/// retry that is already planned keeps its time; a resting queue ignores it.
pub proof fn lost_connections(core: CoreView, message: Seq<char>, now: i128, monotonic: u128)
    ensures
        ({
            let plan = core.event(EventView::Disconnected { message }, now, monotonic);
            let planned = core.machine.snapshot.phase == QueuePhase::Backoff
                && core.machine.snapshot.next_attempt_at is Some;
            let after = core.after_disconnect(message, planned);
            &&& plan.core == core
            &&& !core.started ==> plan.ops.len() == 0
            &&& core.started ==> plan.ops.len() == 2 && plan.ops[0] is Shutdown && plan.ops[1]
                == OpView::AfterDisconnect(message, planned)
            &&& after.core.turn_deadline is None
            &&& after.core.started == core.started
            &&& after.core.machine.snapshot.next_attempt_at
                == core.machine.snapshot.next_attempt_at
            &&& after.core.machine.snapshot.active_turn_id == core.machine.snapshot.active_turn_id
            &&& after.core.machine.snapshot.phase == core.machine.snapshot.phase
            &&& !core.started || planned ==> only_shown_and_saved(after.ops) && after.core.machine
                == core.machine
            &&& core.started && !planned ==> after.ops.len() == 1 && after.ops[0]
                is RetryConnection
        }),
{
    reveal(CoreView::event);
    reveal(CoreView::after_disconnect);
}

/// A remark of the carrier is shown, but not over the line of a planned retry.
pub proof fn remarks_are_shown(core: CoreView, message: Seq<char>, now: i128, monotonic: u128)
    ensures
        ({
            let plan = core.event(EventView::Diagnostic { message }, now, monotonic);
            &&& core.machine.snapshot.phase == QueuePhase::Backoff ==> plan.core == core
                && plan.ops.len() == 0
            &&& core.machine.snapshot.phase != QueuePhase::Backoff
                ==> plan.core.machine.snapshot.status_message == message && plan.ops.len() == 1
                && plan.ops[0] is Publish
            &&& plan.core.machine.snapshot.phase == core.machine.snapshot.phase
            &&& plan.core.machine.snapshot.next_attempt_at == core.machine.snapshot.next_attempt_at
            &&& plan.core.started == core.started
            &&& plan.core.turn_deadline == core.turn_deadline
        }),
{
    reveal(CoreView::event);
}

/// When a deadline passes, a planned attempt begins with the connection; a turn
/// that took too long is interrupted in its thread and then closed.
pub proof fn deadlines(core: CoreView, thread_id: Seq<char>, turn_id: Seq<char>)
    ensures
        ({
            let plan = core.deadline_passed();
            let snap = core.machine.snapshot;
            let trying = snap.phase == QueuePhase::Backoff || snap.phase == QueuePhase::Connecting;
            &&& plan.core == core
            &&& trying ==> plan.ops.len() == 1 && plan.ops[0] is EnsureConnection
            &&& !trying && snap.active_turn_id == Some(turn_id) && snap.active_thread_id == Some(
                thread_id,
            ) ==> plan.ops.len() == 2 && plan.ops[0] == OpView::Interrupt(thread_id, turn_id)
                && plan.ops[1] is CloseTimedOutTurn
            &&& !trying && snap.active_turn_id is Some && snap.active_thread_id is None
                ==> plan.ops.len() == 0
            &&& !trying && snap.active_turn_id is None && snap.next_attempt_at is Some
                ==> plan.ops.len() == 1 && plan.ops[0] is EnsureConnection
            &&& !trying && snap.active_turn_id is None && snap.next_attempt_at is None
                ==> plan.ops.len() == 0
        }),
{
    reveal(CoreView::deadline_passed);
}

/// A turn that took too long is left behind and followed by a retry.
pub proof fn a_turn_that_took_too_long_is_retried(core: CoreView)
    ensures
        ({
            let plan = core.close_timed_out_turn();
            &&& plan.core.machine.snapshot.active_turn_id is None
            &&& plan.core.turn_deadline is None
            &&& plan.core.started == core.started
            &&& same_work(plan.core, core)
            &&& plan.core.machine.snapshot.phase == core.machine.snapshot.phase
            &&& plan.ops.len() == 3 && plan.ops[0] is Retry && plan.ops[1] is Publish
                && plan.ops[2] is Save
        }),
{
}

/// A wake-up gives the turn under way at least the time that the user set,
/// moves a planned attempt at least as far away, and changes nothing else.
pub proof fn a_wake_up_gives_time(core: CoreView, now: i128, monotonic: u128)
    requires
        -1_000_000_000_000_000_000_000_000_000_000 <= now
            <= 1_000_000_000_000_000_000_000_000_000_000,
        core.config.retry_policy.wake_delay_secs <= 9_223_372_036_854_775,
        monotonic <= 1_000_000_000_000_000_000_000_000_000_000,
    ensures
        ({
            let plan = core.woken(now, monotonic);
            let before = core.machine.snapshot;
            let after = plan.core.machine.snapshot;
            let rest = if core.config.retry_policy.wake_delay_secs < 60 {
                60
            } else {
                core.config.retry_policy.wake_delay_secs as int
            };
            let waiting = before.phase == QueuePhase::Waiting && before.active_turn_id is Some;
            let planned = (before.phase == QueuePhase::Backoff || before.phase
                == QueuePhase::Connecting) && before.next_attempt_at is Some;
            &&& !waiting && !planned ==> plan.core == core && plan.ops.len() == 0
            &&& waiting || planned ==> only_shown_and_saved(plan.ops)
            &&& waiting ==> plan.core.turn_deadline is Some && plan.core.turn_deadline->0
                >= monotonic + rest * 1_000_000_000
            &&& waiting && core.turn_deadline is Some ==> plan.core.turn_deadline->0
                >= core.turn_deadline->0 && (plan.core.turn_deadline == core.turn_deadline
                || plan.core.turn_deadline->0 == monotonic + rest * 1_000_000_000)
            &&& waiting && core.turn_deadline is None ==> plan.core.turn_deadline->0 == monotonic
                + rest * 1_000_000_000
            &&& !waiting ==> plan.core.turn_deadline == core.turn_deadline
            &&& planned && before.next_attempt_at->0 < now + rest * 1_000_000_000
                ==> after.next_attempt_at == Some((now + rest * 1_000_000_000) as i128)
            &&& planned && before.next_attempt_at->0 >= now + rest * 1_000_000_000
                ==> after.next_attempt_at == before.next_attempt_at
            &&& after.phase == before.phase
            &&& after.active_turn_id == before.active_turn_id
            &&& plan.core.started == core.started
            &&& same_work(plan.core, core)
        }),
{
    reveal(CoreView::woken);
}

/// A state that could not be saved is counted and warned of; once it can be
/// saved again the warning goes, unless the configuration cannot be.
pub proof fn failed_saves_are_warned_of(core: CoreView, error: Seq<char>)
    ensures
        ({
            let failed = core.state_saved(Some(error));
            let saved = core.state_saved(None);
            let refused = core.config_saved(Some(error));
            let kept = core.config_saved(None);
            &&& core.state_failures < u32::MAX ==> failed.core.state_failures == core.state_failures
                + 1
            &&& failed.core.machine.snapshot.runtime_warning is Some
            &&& crate::text::begins(
                failed.core.machine.snapshot.runtime_warning->0,
                "状态保存失败"@,
            )
            &&& failed.ops.len() == 1 && failed.ops[0] is Publish
            &&& saved.core.state_failures == 0
            &&& core.state_failures == 0 ==> saved.core == core && saved.ops.len() == 0
            &&& core.state_failures > 0 && !core.config_failed
                && core.machine.snapshot.runtime_warning is Some && crate::text::begins(
                core.machine.snapshot.runtime_warning->0,
                "状态保存失败"@,
            ) ==> saved.core.machine.snapshot.runtime_warning is None && saved.ops.len() == 1
                && saved.ops[0] is Publish
            &&& core.config_failed ==> saved.core.machine.snapshot.runtime_warning
                == core.machine.snapshot.runtime_warning
            &&& refused.core.config_failed
            &&& refused.core.machine.snapshot.runtime_warning is Some
            &&& crate::text::begins(
                refused.core.machine.snapshot.runtime_warning->0,
                "配置保存失败"@,
            )
            &&& refused.ops.len() == 1 && refused.ops[0] is Publish
            &&& !kept.core.config_failed
            &&& kept.core.state_failures == core.state_failures
            &&& core.state_failures > 0 ==> kept.core.machine.snapshot.runtime_warning
                == core.machine.snapshot.runtime_warning
        }),
{
    reveal_strlit("状态保存失败");
    reveal_strlit("配置保存失败");
    reveal_strlit("状态保存失败（连续 ");
    reveal_strlit("配置保存失败，本次设置仅在当前会话生效：");
    let failed = core.state_saved(Some(error)).core.machine.snapshot.runtime_warning->0;
    let refused = core.config_saved(Some(error)).core.machine.snapshot.runtime_warning->0;
    assert("状态保存失败"@.len() == 6 && "配置保存失败"@.len() == 6);
    assert("状态保存失败（连续 "@.len() == 10);
    assert("配置保存失败，本次设置仅在当前会话生效："@.len() == 20);
    assert(failed.take(6) =~= "状态保存失败"@);
    assert(refused.take(6) =~= "配置保存失败"@);
}

/// Each thing to do asks the surrounding program for what it stands for and
/// waits for its own answer.
pub proof fn each_thing_is_asked_for(
    core: CoreView,
    thread_id: Seq<char>,
    turn_id: Seq<char>,
    allowed: bool,
    now: i128,
    monotonic: u128,
)
    ensures
        core.step(OpView::Publish, now, monotonic).action == ActionView::Publish(
            core.machine.snapshot,
        ),
        core.step(OpView::Publish, now, monotonic).awaiting is Nothing,
        core.has_store ==> core.step(OpView::Save, now, monotonic).action is SaveState
            && core.step(OpView::Save, now, monotonic).awaiting is Save,
        core.has_store ==> core.step(OpView::SaveConfig, now, monotonic).action
            == ActionView::SaveConfig(core.config) && core.step(
            OpView::SaveConfig,
            now,
            monotonic,
        ).awaiting is ConfigSave,
        core.step(OpView::AllowFallback(allowed), now, monotonic).action
            == ActionView::AllowFallback(allowed),
        core.step(OpView::HideWindow, now, monotonic).action is HideWindow,
        core.step(OpView::RefreshStatus, now, monotonic).action is ReadStatus,
        core.step(OpView::RefreshStatus, now, monotonic).awaiting is Status,
        core.step(OpView::Shutdown, now, monotonic).action is Shutdown,
        core.step(OpView::Shutdown, now, monotonic).awaiting is Shutdown,
        core.step(OpView::Connect, now, monotonic).action is Connect,
        core.step(OpView::Connect, now, monotonic).awaiting is Connect,
        core.step(OpView::Interrupt(thread_id, turn_id), now, monotonic).action == (
        ActionView::Interrupt { thread_id, turn_id }),
        core.step(OpView::Interrupt(thread_id, turn_id), now, monotonic).awaiting is Interrupt,
        core.step(OpView::Notify, now, monotonic).action is Notify,
        core.machine.snapshot.active_thread_id is None ==> core.step(
            OpView::Submit,
            now,
            monotonic,
        ).action == ActionView::Fail(Fault::MissingThread),
        core.machine.snapshot.active_thread_id == Some(thread_id) ==> core.step(
            OpView::Submit,
            now,
            monotonic,
        ).action == (ActionView::StartTurn {
            thread_id,
            prompt: core.config.prompt,
            working_directory: core.config.working_directory,
        }),
        core.machine.snapshot.active_thread_id == Some(thread_id) ==> core.step(
            OpView::OpenThread,
            now,
            monotonic,
        ).action == (ActionView::ResumeThread {
            thread_id,
            working_directory: core.config.working_directory,
        }),
        core.machine.snapshot.active_thread_id is None ==> core.step(
            OpView::OpenThread,
            now,
            monotonic,
        ).action == (ActionView::StartThread { working_directory: core.config.working_directory }),
        core.step(OpView::OpenThread, now, monotonic).awaiting is Thread,
        core.step(OpView::Shutdown, now, monotonic).core == core,
        core.step(OpView::Submit, now, monotonic).core == core,
        core.step(OpView::OpenThread, now, monotonic).core == core,
{
}

/// What is announced at the end of a task: the prompt and the reply in one line
/// each, cut after 96 and 220 characters, for the thread and the executable of
/// the task, as loudly as the user asked.
pub proof fn the_notice_names_the_task(core: CoreView)
    ensures
        ({
            let notice = core.notice();
            &&& notice.thread_id == core.machine.snapshot.active_thread_id
            &&& notice.codex_path == core.config.codex_path
            &&& notice.flash == core.config.full_screen_flash_enabled
            &&& notice.audio == core.config.audio_alert_enabled
            &&& notice.title.len() <= 97
            &&& notice.body.len() <= 221
        }),
        ({
            let title = crate::text::joined(crate::text::words(core.config.prompt), " "@);
            let body = crate::text::joined(
                crate::text::words(core.machine.snapshot.reply_preview),
                " "@,
            );
            &&& 0 < title.len() <= 96 ==> core.notice().title == title
            &&& title.len() > 96 ==> core.notice().title == title.take(96).push('…')
            &&& 0 < body.len() <= 220 ==> core.notice().body == body
            &&& body.len() > 220 ==> core.notice().body == body.take(220).push('…')
            &&& title.len() == 0 ==> core.notice().title == "任务已完成"@
            &&& body.len() == 0 ==> core.notice().body == "任务已完成"@
        }),
{
    reveal_strlit("任务已完成");
    assert("任务已完成"@.len() == 5);
}

/// What is saved of a task is what is shown of it, with the digest of its prompt.
pub proof fn the_saved_state_is_what_is_shown(core: CoreView)
    ensures
        ({
            let state = core.saved_state();
            let snap = core.machine.snapshot;
            &&& state.phase == snap.phase
            &&& state.active_thread_id == snap.active_thread_id
            &&& state.active_turn_id == snap.active_turn_id
            &&& state.submission_uncertain == snap.submission_uncertain
            &&& state.attempt_count == snap.attempt_count
            &&& state.consecutive_retries == snap.consecutive_retries
            &&& state.retry_alert_count == snap.retry_alert_count
            &&& state.empty_reply_count == snap.empty_reply_count
            &&& state.next_attempt_at == snap.next_attempt_at
            &&& state.reply_preview == snap.reply_preview
            &&& state.status_message == snap.status_message
            &&& state.attempts == core.machine.attempts
            &&& state.prompt_digest == Some(crate::config::digest_of(core.config.prompt))
            &&& state.version == 1
        }),
{
}

/// A program that starts with the state of a task under way goes on with it
/// where the prompt is the same or was not recorded, and a request that was
/// being made is marked as open; with another prompt the task rests.  Every
/// other state is taken up as it was, and waits.
pub proof fn restarting(core: CoreView, state: StateView, now: i128, monotonic: u128)
    ensures
        ({
            let after = restarted(core, state, now, monotonic);
            let snap = after.machine.snapshot;
            let under_way = state.phase == QueuePhase::Connecting || state.phase
                == QueuePhase::Sending || state.phase == QueuePhase::Waiting || state.phase
                == QueuePhase::Backoff;
            let same_prompt = state.prompt_digest is None || state.prompt_digest == Some(
                crate::config::digest_of(core.config.prompt),
            );
            &&& after.started <==> under_way && same_prompt
            &&& !after.connected
            &&& after.connection_failures == 0
            &&& after.turn_deadline is None
            &&& !after.success_notified
            &&& after.config == core.config
            &&& after.wake_detector.wall == now && after.wake_detector.monotonic == monotonic
            &&& snap.active_thread_id == state.active_thread_id
            &&& snap.active_turn_id == state.active_turn_id
            &&& snap.attempt_count == state.attempt_count
            &&& snap.consecutive_retries == state.consecutive_retries
            &&& snap.retry_alert_count == state.retry_alert_count
            &&& snap.empty_reply_count == state.empty_reply_count
            &&& snap.reply_preview == state.reply_preview
            &&& snap.codex_path == core.config.codex_path
            &&& after.machine.attempts == state.attempts
            &&& under_way && !same_prompt ==> snap.phase == QueuePhase::Paused
                && snap.next_attempt_at is None && !snap.submission_uncertain
            &&& !under_way || same_prompt ==> snap.phase == state.phase && snap.next_attempt_at
                == state.next_attempt_at && snap.status_message == state.status_message
            &&& same_prompt && state.phase == QueuePhase::Sending ==> snap.submission_uncertain
            &&& state.phase != QueuePhase::Sending && (!under_way || same_prompt)
                ==> snap.submission_uncertain == state.submission_uncertain
        }),
{
}

/// What a plan asks for is done before what was to be done already, and a step
/// takes the first thing off the list and puts what follows from it there.
pub proof fn plans_come_first(runtime: RuntimeView, plan: Plan, step: Step, i: int)
    ensures
        runtime.planned(plan).core == plan.core,
        runtime.planned(plan).awaiting is Nothing,
        runtime.planned(plan).agenda.len() == plan.ops.len() + runtime.agenda.len(),
        0 <= i < plan.ops.len() ==> runtime.planned(plan).agenda[i] == plan.ops[i],
        0 <= i < runtime.agenda.len() ==> runtime.planned(plan).agenda[plan.ops.len() + i]
            == runtime.agenda[i],
        runtime.agenda.len() > 0 ==> {
            &&& runtime.advanced(step).core == step.core
            &&& runtime.advanced(step).awaiting == step.awaiting
            &&& runtime.advanced(step).agenda.len() == step.ops.len() + runtime.agenda.len() - 1
            &&& 0 <= i < step.ops.len() ==> runtime.advanced(step).agenda[i] == step.ops[i]
            &&& 0 < i < runtime.agenda.len() ==> runtime.advanced(step).agenda[step.ops.len() + i
                - 1] == runtime.agenda[i]
        },
{
}

/// The text that stands for an error in the conversation is its message, with
/// its details below it where they say more; either alone where the other is
/// missing.
pub proof fn errors_in_the_conversation(error: ErrorView)
    ensures
        ({
            let message = crate::text::trimmed(error.message);
            let details = match error.additional_details {
                Some(text) => crate::text::trimmed(text),
                None => Seq::<char>::empty(),
            };
            let shown = conversation_error(error);
            &&& message.len() > 0 ==> crate::text::begins(shown, message)
            &&& message.len() > 0 && (details.len() == 0 || crate::text::occurs(message, details))
                ==> shown == message
            &&& message.len() > 0 && details.len() > 0 && !crate::text::occurs(message, details)
                ==> shown.len() == message.len() + 2 + details.len() && shown.skip(
                message.len() as int + 2,
            ) == details
            &&& message.len() == 0 && details.len() > 0 ==> shown == details
            &&& shown.len() > 0
        }),
{
    let message = crate::text::trimmed(error.message);
    let shown = conversation_error(error);
    reveal_strlit("\n\n");
    reveal_strlit("Codex 返回了未说明原因的错误");
    assert("\n\n"@.len() == 2);
    assert("Codex 返回了未说明原因的错误"@.len() > 0);
    if message.len() > 0 {
        assert(shown.take(message.len() as int) =~= message);
    }
    let details = match error.additional_details {
        Some(text) => crate::text::trimmed(text),
        None => Seq::<char>::empty(),
    };
    if message.len() > 0 && details.len() > 0 && !crate::text::occurs(message, details) {
        assert(shown.skip(message.len() as int + 2) =~= details);
    }
}

/// What has to be done is done by what stands for it: each thing to do leads to
/// the state and the further things of its own plan, and asks for nothing.
pub proof fn each_thing_leads_to_its_plan(
    core: CoreView,
    turn: Option<TurnView>,
    text: Seq<char>,
    preserve: bool,
    config: ConfigView,
    now: i128,
    monotonic: u128,
)
    ensures
        ({
            let leads = |op: OpView, plan: Plan|
                {
                    &&& core.step(op, now, monotonic).core == plan.core
                    &&& core.step(op, now, monotonic).ops == plan.ops
                    &&& core.step(op, now, monotonic).action is Continue
                    &&& core.step(op, now, monotonic).awaiting is Nothing
                };
            &&& leads(OpView::EnsureConnection, core.ensure_connection())
            &&& leads(OpView::SettleSession(turn), core.settle_session(turn, now, monotonic))
            &&& leads(OpView::SendAttempt, core.send_attempt(now))
            &&& leads(OpView::MarkUncertain, core.mark_uncertain())
            &&& leads(OpView::AbandonSubmission, core.abandon_submission())
            &&& leads(OpView::RetryConnection(text), core.retry_connection(text, now))
            &&& leads(OpView::PauseAfterFailure(text), core.pause_after_failure(text))
            &&& leads(OpView::FatalAfterFailure(text), core.fatal_after_failure(text))
            &&& leads(
                OpView::AfterDisconnect(text, preserve),
                core.after_disconnect(text, preserve),
            )
            &&& leads(OpView::CloseTimedOutTurn, core.close_timed_out_turn())
            &&& leads(OpView::Configure(config), core.configure_and_start(config))
            &&& leads(OpView::Start, core.start())
        }),
        core.step(OpView::Warn(text), now, monotonic).core.machine.snapshot.runtime_warning == Some(
            text,
        ),
        core.step(OpView::Warn(text), now, monotonic).ops.len() == 0,
        core.step(OpView::Abort(Fault::TurnAlreadyActive), now, monotonic).action
            == ActionView::Fail(Fault::TurnAlreadyActive),
        !core.has_store ==> core.step(OpView::Save, now, monotonic).action is Continue && core.step(
            OpView::Save,
            now,
            monotonic,
        ).awaiting is Nothing,
        !core.has_store ==> core.step(OpView::SaveConfig, now, monotonic).action is Continue,
        core.step(OpView::Save, now, monotonic).core == core,
        core.step(OpView::Publish, now, monotonic).core == core,
        core.has_store ==> core.step(OpView::Save, now, monotonic).action == ActionView::SaveState(
            core.saved_state(),
        ),
        core.step(OpView::Notify, now, monotonic).action == ActionView::Notify(core.notice()),
{
    reveal(CoreView::plan_of);
}

/// A configuration is taken over with a start only where nothing stands against
/// it: not while a task is under way, unless its switches alone differ; not
/// another task for an opened thread; not a faulty one; and not another
/// executable, which needs a new start of the program.
pub proof fn configurations_that_start(core: CoreView, config: ConfigView)
    ensures
        ({
            let snap = core.machine.snapshot;
            let locked = core.started || snap.active_turn_id is Some || snap.submission_uncertain;
            let differs = !config.equal(core.config, core.style);
            &&& !differs ==> core.configure_accepted(config)
            &&& differs && locked && config.prompt != core.config.prompt
                ==> !core.configure_accepted(config)
            &&& differs && locked && config.turn_timeout_secs != core.config.turn_timeout_secs
                ==> !core.configure_accepted(config)
            &&& differs && locked && config.retry_policy.max_delay_secs
                != core.config.retry_policy.max_delay_secs ==> !core.configure_accepted(config)
            &&& differs && !locked && snap.active_thread_id is Some && config.prompt
                != core.config.prompt ==> !core.configure_accepted(config)
            &&& differs && !locked && snap.active_thread_id is Some && (
            config.working_directory is None) != (core.config.working_directory is None)
                ==> !core.configure_accepted(config)
            &&& differs && !locked && config.problem() is Some ==> !core.configure_accepted(config)
            &&& differs && !locked && !crate::paths::same_path_as(
                config.codex_path,
                core.config.codex_path,
                core.style,
            ) ==> !core.configure_accepted(config)
            &&& differs && !locked && snap.active_thread_id is None && config.problem() is None
                && config.codex_path == core.config.codex_path ==> core.configure_accepted(config)
            &&& core.configure_and_start(config).core == core.configure(config).core
            &&& core.configure_accepted(config) ==> core.configure_and_start(config).ops.last()
                is Start && core.configure_and_start(config).ops.len() == core.configure(
                config,
            ).ops.len() + 1
            &&& !core.configure_accepted(config) ==> core.configure_and_start(config).ops
                == core.configure(config).ops
        }),
{
    reveal(CoreView::configure);
}

/// A new executable is saved for the next start of the program and said so; any
/// other configuration of a task at rest is in force at once.
pub proof fn executables_wait_for_the_next_start(core: CoreView, config: ConfigView)
    requires
        !core.started,
        core.machine.snapshot.active_turn_id is None,
        !core.machine.snapshot.submission_uncertain,
        core.machine.snapshot.active_thread_id is None,
        config.problem() is None,
        !config.equal(core.config, core.style),
    ensures
        ({
            let plan = core.configure(config);
            let same = crate::paths::same_path_as(
                config.codex_path,
                core.config.codex_path,
                core.style,
            );
            &&& plan.core.config == config
            &&& !same ==> plan.ops.len() == 3 && plan.ops[0] is SaveConfig && plan.ops[1] is Publish
                && plan.ops[2] is Save && plan.core.machine.snapshot.status_message
                == "Codex 路径已保存；请重启 Longwatch 后再开始"@
            &&& same ==> plan.ops.len() == 5 && plan.ops[0] == OpView::AllowFallback(
                config.gui_fallback_enabled,
            ) && plan.ops[1] is HideWindow && plan.ops[2] is SaveConfig && plan.ops[3] is Publish
                && plan.ops[4] is Save && plan.core.machine == core.machine
        }),
{
    reveal(CoreView::configure);
}

/// What the user reads when the queue rests or waits.
pub proof fn the_user_reads_why(
    core: CoreView,
    turn: TurnView,
    config: ConfigView,
    reason: Seq<char>,
    now: i128,
    monotonic: u128,
)
    ensures
        core.pause().core.machine.snapshot.status_message == "已暂停；不会自动发送新的回合"@,
        core.stop().core.machine.snapshot.status_message == "已停止；持久线程记录已清除"@,
        core.abandon_submission().core.machine.snapshot.status_message
            == "无法安全保存提交状态，已暂停以避免重复发送任务"@,
        core.turn_decision(turn) is Success ==> core.turn_completed(
            turn,
            now,
        ).core.machine.snapshot.status_message == "任务成功完成"@,
        core.retry_soon(reason, now).core.machine.snapshot.status_message == reason
            + "；正在开始新一轮尝试"@,
        core.retry_quietly(reason, now).core.machine.snapshot.status_message == reason
            + "；立即重试"@,
        core.delay_drawn(reason, 30, now).core.machine.snapshot.status_message == reason
            + "；已安排低频重试"@,
        core.close_timed_out_turn().ops[0] == OpView::Retry("回合超时，已发送中断请求"@),
        !core.started && core.machine.snapshot.phase != QueuePhase::Success
            && core.config.problem() is Some
            ==> core.start().core.machine.snapshot.status_message == "配置无效："@
            + crate::config::config_error_text(core.config.problem()->0),
        core.machine.snapshot.phase == QueuePhase::Waiting && core.machine.snapshot.active_turn_id
            is Some ==> core.woken(now, monotonic).core.machine.snapshot.status_message
            == "检测到系统唤醒；继续等待当前回合，不会立即补发"@,
        core.started && (core.machine.snapshot.phase != QueuePhase::Backoff
            || core.machine.snapshot.next_attempt_at is None) ==> core.after_disconnect(
            reason,
            false,
        ).ops == seq![OpView::RetryConnection("app-server 已断开："@ + reason + "；正在恢复线程"@)],
{
    reveal(CoreView::turn_completed);
    reveal(CoreView::turn_decided);
    reveal(CoreView::start);
    reveal(CoreView::woken);
    reveal(CoreView::after_disconnect);
}

/// The line for another attempt to connect names the reason, which attempt it
/// is and how long it takes.
pub proof fn the_line_for_connecting(core: CoreView, reason: Seq<char>, now: i128)
    requires
        core.connection_failures < u32::MAX,
    ensures
        ({
            let shown = core.retry_connection(reason, now).core.machine.snapshot.status_message;
            let count = (core.connection_failures + 1) as nat;
            &&& core.connection_failures == 0 ==> shown == reason + "；第 "@ + decimal(count)
                + " 次连接恢复，"@ + decimal(5) + " 秒后重试"@
            &&& core.connection_failures == 1 ==> shown == reason + "；第 "@ + decimal(count)
                + " 次连接恢复，"@ + decimal(15) + " 秒后重试"@
            &&& core.connection_failures > 1 ==> shown == reason + "；第 "@ + decimal(count)
                + " 次连接恢复，"@ + decimal(60) + " 秒后重试"@
        }),
{
    reveal(CoreView::retry_connection);
}

/// The machine is taken to have slept where its clocks say so: the wall clock
/// moved by more than 45 seconds since it was last read, or by more than 20
/// seconds beyond the other clock.
pub proof fn sleep_is_noticed(core: CoreView, now: i128, monotonic: u128)
    requires
        core.wake_detector.monotonic <= monotonic,
    ensures
        ({
            let moved = now - core.wake_detector.wall;
            let passed = monotonic - core.wake_detector.monotonic;
            core.sleep_ends(now, monotonic) <==> moved > 45_000_000_000 || moved > passed
                + 20_000_000_000
        }),
{
}

/// A warning that is not about saving stays when everything can be saved again.
pub proof fn other_warnings_stay(core: CoreView, warning: Seq<char>)
    requires
        core.machine.snapshot.runtime_warning == Some(warning),
        !crate::text::begins(warning, "状态保存失败"@),
        !crate::text::begins(warning, "配置保存失败"@),
    ensures
        core.state_saved(None).core.machine.snapshot.runtime_warning == Some(warning),
        core.config_saved(None).core.machine.snapshot.runtime_warning == Some(warning),
        core.state_saved(None).ops.len() == 0,
        core.config_saved(None).ops.len() == 0,
{
}

/// Each command of the user does what it is called: a pause interrupts the turn
/// under way and plans nothing, a start sets the queue going, a stop forgets the
/// task, a configuration changes no attempt, and leaving changes nothing.
pub proof fn each_command_does_what_it_is_called(
    core: CoreView,
    config: ConfigView,
    thread_id: Seq<char>,
    turn_id: Seq<char>,
    now: i128,
    monotonic: u128,
)
    ensures
        ({
            let pause = commanded(core, CommandView::Pause, now, monotonic);
            let start = commanded(core, CommandView::Start, now, monotonic);
            let stop = commanded(core, CommandView::Stop, now, monotonic);
            let leave = commanded(core, CommandView::Shutdown, now, monotonic);
            let snap = core.machine.snapshot;
            &&& rests(pause)
            &&& snap.active_thread_id == Some(thread_id) && snap.active_turn_id == Some(turn_id)
                ==> pause.ops.contains(OpView::Interrupt(thread_id, turn_id))
            &&& !core.started && snap.phase != QueuePhase::Success && core.config.problem() is None
                ==> start.core.started && start.ops.contains(OpView::EnsureConnection)
            &&& !stop.core.started && stop.core.machine.snapshot.active_thread_id is None
                && stop.ops.last() is Shutdown
            &&& snap.active_thread_id == Some(thread_id) && snap.active_turn_id == Some(turn_id)
                ==> stop.ops.contains(OpView::Interrupt(thread_id, turn_id))
            &&& leave.core == core && leave.ops.len() == 0
            &&& commanded(core, CommandView::Configure(config), now, monotonic) == core.configure(
                config,
            )
            &&& commanded(core, CommandView::StartConfigured(config), now, monotonic)
                == core.start_configured(config)
        }),
{
    reveal(commanded);
    a_pause_interrupts_the_turn(core, thread_id, turn_id);
    a_stop_interrupts_and_shuts_down(core, thread_id, turn_id);
    starting_the_queue(core);
    let start = commanded(core, CommandView::Start, now, monotonic);
    if start.ops.len() == 3 {
        assert(start.ops.contains(start.ops[2]));
    }
}

/// The command that reports a wake-up reads the clocks, begins nothing, and
/// leaves the turn and the plan of the queue in place or later.
pub proof fn the_command_to_wake(core: CoreView, now: i128, monotonic: u128)
    ensures
        ({
            let wake = commanded(core, CommandView::Wake, now, monotonic);
            &&& wake.core.wake_detector.wall == now && wake.core.wake_detector.monotonic
                == monotonic
            &&& wake.ops == core.woken(now, monotonic).ops
            &&& wake.core.machine == core.woken(now, monotonic).core.machine
            &&& wake.core.turn_deadline == core.woken(now, monotonic).core.turn_deadline
            &&& plans_no_attempt(wake.ops)
            &&& wake.core.started == core.started
        }),
{
    reveal(commanded);
    reveal(CoreView::woken);
}

/// When the program starts, the state is shown first; a queue that is going
/// then connects, unless its next attempt lies ahead.
pub proof fn starting_the_program(core: CoreView, now: i128)
    ensures
        first_things(core, now).len() > 0 && first_things(core, now)[0] is Publish,
        core.started && core.machine.snapshot.next_attempt_at is None ==> first_things(
            core,
            now,
        ).contains(OpView::EnsureConnection),
        core.started && core.machine.snapshot.next_attempt_at is Some
            && core.machine.snapshot.next_attempt_at->0 <= now ==> first_things(core, now).contains(
            OpView::EnsureConnection,
        ),
        !core.started ==> first_things(core, now).len() == 1,
        core.machine.snapshot.next_attempt_at is Some && core.machine.snapshot.next_attempt_at->0
            > now ==> first_things(core, now).len() == 1,
{
    if first_things(core, now).len() == 2 {
        assert(first_things(core, now).contains(first_things(core, now)[1]));
    }
}

/// The end of the turn is waited for before the next attempt; an attempt that
/// is overdue is due now, and any other after the time that is left; where
/// neither is known nothing is due.
pub proof fn what_is_due(core: CoreView, now: i128, monotonic: u128)
    requires
        monotonic <= 0x7fff_ffff_ffff_ffff_ffff_ffff_ffff_ffff,
        now >= 0,
    ensures
        core.turn_deadline is Some ==> due(core, now, monotonic) == core.turn_deadline,
        core.turn_deadline is None && core.machine.snapshot.next_attempt_at is None ==> due(
            core,
            now,
            monotonic,
        ) is None,
        core.turn_deadline is None && core.machine.snapshot.next_attempt_at is Some
            && core.machine.snapshot.next_attempt_at->0 <= now ==> due(core, now, monotonic) == Some(monotonic),
        core.turn_deadline is None && core.machine.snapshot.next_attempt_at is Some
            && core.machine.snapshot.next_attempt_at->0 > now ==> due(core, now, monotonic) is Some && due(core, now, monotonic)->0 - monotonic
            == core.machine.snapshot.next_attempt_at->0 - now,
{
}

/// When a deadline is reached the clocks are read; a machine that slept until
/// then is given time where that matters, and otherwise what is due is done.
pub proof fn reached_deadlines(core: CoreView, now: i128, monotonic: u128)
    requires
        core.wake_detector.monotonic <= monotonic,
    ensures
        ({
            let plan = deadline_reached(core, now, monotonic);
            let snap = core.machine.snapshot;
            let slept = now - core.wake_detector.wall > 45_000_000_000 || now
                - core.wake_detector.wall > monotonic - core.wake_detector.monotonic
                + 20_000_000_000;
            let matters = (snap.phase == QueuePhase::Backoff || snap.phase
                == QueuePhase::Connecting) && snap.next_attempt_at is Some || snap.phase
                == QueuePhase::Waiting && snap.active_turn_id is Some;
            &&& plan.core.wake_detector.wall == now && plan.core.wake_detector.monotonic
                == monotonic
            &&& plan.core.started == core.started
            &&& slept && matters ==> only_shown_and_saved(plan.ops)
            &&& !slept || !matters ==> plan.core.machine == core.machine && plan.ops
                == core.deadline_passed().ops
        }),
{
    reveal(CoreView::woken);
    reveal(CoreView::deadline_passed);
}

/// What the turn under way reports is shown in the place of its reply: an error
/// by its text, whatever follows from it; only a retry that is not quiet raises
/// an alert while Codex retries by itself.
pub proof fn errors_are_shown_and_counted(
    core: CoreView,
    error: ErrorView,
    will_retry: bool,
    now: i128,
)
    ensures
        ({
            let announced = core.turn_error(error, true, now).core.machine.snapshot;
            let before = core.machine.snapshot;
            let shown = last_chars(conversation_error(error), 4000);
            &&& announced.reply_preview == shown
            &&& !blank(shown) ==> core.turn_error(
                error,
                will_retry,
                now,
            ).core.machine.snapshot.reply_preview == shown
            &&& !is_for_the_user(error) && brings_the_notice_itself(error)
                ==> announced.retry_alert_count == before.retry_alert_count
            &&& !is_for_the_user(error) && !brings_the_notice_itself(error)
                && before.retry_alert_count < u64::MAX ==> announced.retry_alert_count
                == before.retry_alert_count + 1
            &&& announced.attempt_count == before.attempt_count
            &&& announced.consecutive_retries == before.consecutive_retries
            &&& announced.empty_reply_count == before.empty_reply_count
        }),
{
    let phrases = core.config.failure_phrases;
    if is_for_the_user(error) {
        errors_for_the_user_pause(error, true, phrases, Seq::empty(), 0, 0);
    } else {
        announced_retries_are_waited_for(error, phrases);
    }
    reveal(CoreView::turn_error);
}

/// Whether the words of an error hold the notice of high demand.
pub open spec fn brings_the_notice_itself(error: ErrorView) -> bool {
    crate::text::occurs(
        crate::verdicts::wording(error),
        crate::classifier::normalized(
            "We're currently experiencing high demand, which may cause temporary errors."@,
        ),
    )
}

/// An error that Codex does not retry is followed as it is judged: a retry with
/// the reason of the judgement, or a rest with it.  A refused request is
/// followed in the same way, and its carrier is shut down before the rest.
pub proof fn errors_are_followed_as_they_are_judged(
    core: CoreView,
    error: ErrorView,
    code: i64,
    message: Seq<char>,
    data: Option<crate::json::JsonView>,
    now: i128,
)
    ensures
        ({
            let judged = error_decision(error, core.config.failure_phrases);
            let plan = core.turn_error(error, false, now);
            let gave_up = is_of_kind(error, "responsetoomanyfailedattempts"@);
            &&& !gave_up && judged is Retryable ==> plan.ops == seq![
                OpView::Retry(judged->Retryable_0),
            ] && plan.core.started == core.started && plan.core.turn_deadline == core.turn_deadline
            &&& !gave_up && judged is Pause ==> rests(plan)
                && plan.core.machine.snapshot.status_message == judged->Pause_0
                && plan.core.turn_deadline is None && only_shown_and_saved(plan.ops)
        }),
        ({
            let error = rpc_error(message, data);
            let judged = error_decision(error, core.config.failure_phrases);
            let plan = core.transport_failed(FailureView::Rpc { code, message, data }, now);
            let gave_up = is_of_kind(error, "responsetoomanyfailedattempts"@);
            &&& !gave_up && judged is Retryable ==> plan.ops == seq![
                OpView::Retry(judged->Retryable_0),
            ]
            &&& !gave_up && judged is Pause ==> plan.ops == seq![
                OpView::Shutdown,
                OpView::PauseAfterFailure(judged->Pause_0),
            ]
        }),
{
    let phrases = core.config.failure_phrases;
    errors_during_a_turn(error, phrases);
    errors_during_a_turn(rpc_error(message, data), phrases);
    reveal(CoreView::turn_error);
    reveal(CoreView::transport_failed);
    reveal(CoreView::rpc_failed);
}

/// A failure of the carrier is shown in the place of the reply, and the turn,
/// the plan and the counts stay until it is followed up.
pub proof fn failures_of_the_carrier_are_shown(core: CoreView, failure: FailureView, now: i128)
    requires
        !(failure is Rpc),
    ensures
        ({
            let plan = core.transport_failed(failure, now);
            let before = core.machine.snapshot;
            let after = plan.core.machine.snapshot;
            &&& after.reply_preview == last_chars(failure_text(failure), 4000)
            &&& after.phase == before.phase
            &&& after.active_turn_id == before.active_turn_id
            &&& after.submission_uncertain == before.submission_uncertain
            &&& after.next_attempt_at == before.next_attempt_at
            &&& after.consecutive_retries == before.consecutive_retries
            &&& after.retry_alert_count == before.retry_alert_count
            &&& plan.core.turn_deadline == core.turn_deadline
            &&& plan.core.connection_failures == core.connection_failures
            &&& plan.core.started == core.started
            &&& !(failure is NotConnected) ==> plan.core.connected == core.connected
        }),
{
    reveal(CoreView::transport_failed);
}

/// The reply of a turn is shown whatever is decided about the turn.
pub proof fn replies_are_always_shown(core: CoreView, turn: TurnView, now: i128)
    requires
        !blank(turn.final_message),
        !blank(last_chars(turn.final_message, 4000)),
    ensures
        core.turn_completed(turn, now).core.machine.snapshot.reply_preview == last_chars(
            turn.final_message,
            4000,
        ),
        core.turn_completed(turn, now).core.turn_deadline is None,
{
    reveal(CoreView::turn_completed);
    reveal(CoreView::turn_decided);
}

} // verus!
