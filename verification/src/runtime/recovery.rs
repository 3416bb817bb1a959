//! What the controller promises about failures and restarts.

use vstd::prelude::*;

use crate::classifier::DecisionView;
use crate::config::StateView;
use crate::queue::QueuePhase;
use crate::runtime::engine::{fresh_core, restored_machine, same_task, was_active};
use crate::runtime::laws::submitting;
use crate::runtime::model::{save_ops, ActionView, CoreView, OpView};
use crate::transport::{EventView, FailureView, SessionView, TurnStatus, TurnView};

verus! {

/// Whether none of the things to do begins an attempt or hands the task over.
pub open spec fn sends_nothing(ops: Seq<OpView>) -> bool {
    forall|i: int|
        0 <= i < ops.len() ==> !(#[trigger] ops[i] is SendAttempt) && !submitting(ops[i])
}

/// The controller of a program that starts with a persisted state.
pub open spec fn restarted(
    core: CoreView,
    state: StateView,
    now: i128,
    monotonic: u128,
) -> CoreView {
    fresh_core(
        core.config,
        restored_machine(state, core.config),
        core.has_store,
        core.style,
        was_active(state.phase) && same_task(state, core.config),
        now,
        monotonic,
    )
}

proof fn decided_sends_nothing(core: CoreView, decision: DecisionView, empty_reply: bool, now: i128)
    ensures
        sends_nothing(core.turn_decided(decision, empty_reply, now).ops),
{
    reveal(CoreView::turn_decided);
}

/// A thread that is known is resumed; a new one is started only where none is known.
pub proof fn a_known_thread_is_resumed(core: CoreView, now: i128, monotonic: u128)
    ensures
        core.step(OpView::OpenThread, now, monotonic).action == (
        match core.snap().active_thread_id {
            Some(thread_id) => ActionView::ResumeThread {
                thread_id,
                working_directory: core.config.working_directory,
            },
            None => ActionView::StartThread { working_directory: core.config.working_directory },
        }),
{
}

/// What the server reports as the end of a request that may be under way is
/// taken for it: the task is not handed over again.
pub proof fn a_finished_turn_is_not_sent_again(
    core: CoreView,
    turn: TurnView,
    now: i128,
    monotonic: u128,
)
    requires
        core.maybe_submitted(),
        turn.status != TurnStatus::InProgress,
    ensures
        core.settle_session(Some(turn), now, monotonic) == core.turn_completed(turn, now),
        sends_nothing(core.settle_session(Some(turn), now, monotonic).ops),
{
    reveal(CoreView::settle_session);
    reveal(CoreView::turn_completed);
    decided_sends_nothing(
        core.with_snap(
            core.snap().with_preview(CoreView::turn_text(turn)).with_uncertainty(false),
        ).with_deadline(None),
        core.turn_decision(turn),
        crate::text::blank(turn.final_message),
        now,
    );
}

/// A program that ended while the task was being handed over, whether or not
/// the server received it, goes on by itself: it resumes the thread and,
/// whatever the thread reports, hands nothing over before it has heard of the
/// request or planned a retry.
pub proof fn a_crash_during_submission_is_reconciled(
    core: CoreView,
    session: SessionView,
    now: i128,
    monotonic: u128,
)
    requires
        core.snap().phase == QueuePhase::Sending,
        core.snap().submission_uncertain,
        core.snap().active_thread_id is Some,
    ensures
        ({
            let after = restarted(core, core.saved_state(), now, monotonic);
            let opened = after.thread_opened(session, now, monotonic);
            &&& after.started
            &&& after.snap().submission_uncertain
            &&& after.snap().attempt_count == core.snap().attempt_count
            &&& after.step(OpView::OpenThread, now, monotonic).action == (
            ActionView::ResumeThread {
                thread_id: core.snap().active_thread_id->0,
                working_directory: core.config.working_directory,
            })
            &&& opened.ops == save_ops().push(OpView::SettleSession(session.latest_turn))
            &&& sends_nothing(
                opened.core.settle_session(session.latest_turn, now, monotonic).ops,
            )
        }),
{
    reveal(CoreView::settle_session);
    let after = restarted(core, core.saved_state(), now, monotonic);
    let opened = after.thread_opened(session, now, monotonic);
    assert(opened.ops =~= save_ops().push(OpView::SettleSession(session.latest_turn)));
    if let Some(turn) = session.latest_turn {
        if turn.status != TurnStatus::InProgress {
            a_finished_turn_is_not_sent_again(opened.core, turn, now, monotonic);
        }
    }
}

/// Only a task that was under way goes on by itself after a restart, and only
/// where the prompt is still the same; what was paused, done, failed or never
/// begun waits for the user.
pub proof fn only_tasks_under_way_go_on_by_themselves(
    core: CoreView,
    state: StateView,
    now: i128,
    monotonic: u128,
)
    ensures
        ({
            let after = restarted(core, state, now, monotonic);
            &&& after.started <==> was_active(state.phase) && same_task(state, core.config)
            &&& was_active(state.phase) && !same_task(state, core.config) ==> after.snap().phase
                == QueuePhase::Paused
            &&& !was_active(state.phase) ==> after.snap().phase == state.phase
        }),
{
}

/// Pieces of a reply are only shown: nothing is saved for them.
pub proof fn pieces_of_a_reply_are_not_saved(
    core: CoreView,
    thread_id: Seq<char>,
    turn_id: Seq<char>,
    delta: Seq<char>,
    now: i128,
    monotonic: u128,
)
    ensures
        ({
            let event = EventView::AgentMessageDelta { thread_id, turn_id, delta };
            let plan = core.event(event, now, monotonic);
            &&& plan.ops == (if core.matches_active(thread_id, turn_id) {
                seq![OpView::Publish]
            } else {
                Seq::empty()
            })
            &&& plan.core == core.with_snap(
                crate::queue::SnapshotView {
                    reply_preview: plan.core.snap().reply_preview,
                    ..core.snap()
                },
            )
        }),
{
    reveal(CoreView::event);
}

/// Busy servers are tried again at once, without an alert and without a phase
/// of waiting.
pub proof fn busy_servers_are_tried_again_quietly(
    core: CoreView,
    turn: TurnView,
    now: i128,
)
    requires
        core.turn_decision(turn) is RetryImmediatelyQuiet,
    ensures
        ({
            let after = core.turn_completed(turn, now).core;
            &&& after.snap().phase == QueuePhase::Connecting
            &&& after.snap().next_attempt_at == Some(now)
            &&& after.snap().active_turn_id is None
            &&& after.snap().retry_alert_count == core.snap().retry_alert_count
            &&& after.started == core.started
        }),
{
    reveal(CoreView::turn_completed);
    reveal(CoreView::turn_decided);
}

/// Where Codex has given up by itself, the next round begins a second later and
/// raises one alert.
pub proof fn a_new_round_follows_exhausted_retries(core: CoreView, reason: Seq<char>, now: i128)
    requires
        core.snap().retry_alert_count < u64::MAX,
        now <= i128::MAX - 1_000_000_000,
    ensures
        ({
            let after = core.retry_soon(reason, now).core;
            &&& after.snap().phase == QueuePhase::Backoff
            &&& after.snap().next_attempt_at == Some((now + 1_000_000_000) as i128)
            &&& after.snap().active_turn_id is None
            &&& after.snap().retry_alert_count == core.snap().retry_alert_count + 1
            &&& after.started == core.started
        }),
{
}

/// A carrier that breaks the protocol stops the queue for good; one that the
/// user has to mend makes it rest.  Either is shut down first.
pub proof fn failures_for_the_user_stop_the_queue(core: CoreView, failure: FailureView, now: i128)
    requires
        failure is Protocol || failure is ExecutableNotFound || failure is FallbackDisabled
            || failure is Unavailable,
    ensures
        ({
            let text = crate::transport::failure_text(failure);
            let ops = core.transport_failed(failure, now).ops;
            &&& ops.len() == 2
            &&& ops[0] is Shutdown
            &&& ops[1] == (if failure is Protocol {
                OpView::FatalAfterFailure(text)
            } else {
                OpView::PauseAfterFailure(text)
            })
            &&& core.fatal_after_failure(text).core.snap().phase == QueuePhase::FatalError
            &&& !core.fatal_after_failure(text).core.started
            &&& core.pause_after_failure(text).core.snap().phase == QueuePhase::Paused
            &&& !core.pause_after_failure(text).core.started
        }),
{
    reveal(CoreView::transport_failed);
}

/// A success is announced once: a second end of the same task announces nothing.
pub proof fn a_success_is_announced_once(core: CoreView, turn: TurnView, now: i128)
    requires
        core.turn_decision(turn) is Success,
    ensures
        ({
            let plan = core.turn_completed(turn, now);
            &&& plan.ops.contains(OpView::Notify) <==> !core.success_notified
            &&& plan.core.success_notified
        }),
{
    reveal(CoreView::turn_completed);
    reveal(CoreView::turn_decided);
    let plan = core.turn_completed(turn, now);
    if !core.success_notified {
        assert(plan.ops[0] == OpView::Notify);
    } else {
        assert(plan.ops == save_ops());
        assert(save_ops()[0] == OpView::Publish && save_ops()[1] == OpView::Save);
    }
}

} // verus!
