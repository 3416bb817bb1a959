//! What holds of the controller in every state.

use vstd::prelude::*;

use crate::clock::valid_time;
use crate::queue::{QueuePhase, SnapshotView};
use crate::runtime::model::{
    save_ops, ActionView, AwaitingView, CoreView, OpView, Plan, Step,
};

verus! {

/// The whole controller, by its content.
pub struct RuntimeView {
    pub core: CoreView,
    /// What is to be done, the next thing first.
    pub agenda: Seq<OpView>,
    pub awaiting: AwaitingView,
}

/// Whether a thing to do belongs to handing the task over.
pub open spec fn submitting(op: OpView) -> bool {
    op is MarkUncertain || op is SaveCritical || op is Submit
}

/// Whether none of the things to do belongs to handing the task over.
pub open spec fn plain(ops: Seq<OpView>) -> bool {
    forall|i: int| 0 <= i < ops.len() ==> !submitting(#[trigger] ops[i])
}

/// Whether a thing to do only shows or saves.
pub open spec fn quiet(op: OpView) -> bool {
    op is Publish || op is Save
}

/// Whether the task may be handed over: the queue is going, its thread is
/// known, an attempt has begun and no turn is active.
pub open spec fn ready(core: CoreView) -> bool {
    &&& core.started
    &&& core.snap().phase == QueuePhase::Sending
    &&& core.snap().active_turn_id is None
    &&& core.snap().active_thread_id is Some
}

impl RuntimeView {
    /// Whether nothing is under way.
    pub open spec fn at_rest(self) -> bool {
        self.awaiting is Nothing && self.agenda.len() == 0
    }

    /// The controller after a plan was made.
    pub open spec fn planned(self, plan: Plan) -> RuntimeView {
        RuntimeView {
            core: plan.core,
            agenda: plan.ops + self.agenda,
            awaiting: AwaitingView::Nothing,
        }
    }

    /// The controller after the next thing on the agenda was done.
    pub open spec fn advanced(self, step: Step) -> RuntimeView {
        RuntimeView {
            core: step.core,
            agenda: step.ops + self.agenda.skip(1),
            awaiting: step.awaiting,
        }
    }

    /// What holds of the controller in every state: whatever belongs to handing
    /// the task over stands on the agenda only while the task may be handed
    /// over, with nothing but showing and saving before it; and from the moment
    /// the mark is to be saved, it is set.
    pub open spec fn safe(self) -> bool {
        &&& valid_time(self.core.wake_detector.wall as int)
        &&& forall|i: int|
            0 <= i < self.agenda.len() && submitting(#[trigger] self.agenda[i]) ==> {
                &&& ready(self.core)
                &&& self.agenda[i] is MarkUncertain || self.core.snap().submission_uncertain
                &&& forall|j: int| 0 <= j < i ==> quiet(#[trigger] self.agenda[j])
            }
        &&& self.awaiting is CriticalSave || self.awaiting is Turn ==> {
            &&& ready(self.core)
            &&& self.core.snap().submission_uncertain
        }
        &&& !(self.awaiting is Nothing || self.awaiting is Save) ==> plain(self.agenda)
    }
}

proof fn retries_are_plain(core: CoreView, reason: Seq<char>, now: i128)
    ensures
        plain(core.retry_soon(reason, now).ops),
        plain(core.retry_quietly(reason, now).ops),
        core.retry_soon(reason, now).core.wake_detector == core.wake_detector,
        core.retry_quietly(reason, now).core.wake_detector == core.wake_detector,
{
}

proof fn decided_is_plain(
    core: CoreView,
    decision: crate::classifier::DecisionView,
    empty_reply: bool,
    now: i128,
)
    ensures
        plain(core.turn_decided(decision, empty_reply, now).ops),
        core.turn_decided(decision, empty_reply, now).core.wake_detector == core.wake_detector,
{
    reveal(CoreView::turn_decided);
    let reason = crate::classifier::decision_reason(decision);
    retries_are_plain(core, reason, now);
}

proof fn failure_is_plain(core: CoreView, failure: crate::transport::FailureView, now: i128)
    ensures
        plain(core.transport_failed(failure, now).ops),
        core.transport_failed(failure, now).core.wake_detector == core.wake_detector,
{
    reveal(CoreView::transport_failed);
    if let crate::transport::FailureView::Rpc { code, message, data } = failure {
        let text = crate::transport::failure_text(failure);
        let shown = core.with_snap(core.snap().with_preview(text));
        rpc_is_plain(shown, crate::runtime::model::rpc_error(message, data), now);
    }
}

proof fn rpc_is_plain(core: CoreView, error: crate::classifier::ErrorView, now: i128)
    ensures
        plain(core.rpc_failed(error, now).ops),
        core.rpc_failed(error, now).core.wake_detector == core.wake_detector,
{
    reveal(CoreView::rpc_failed);
    let shown = core.with_snap(
        core.snap().with_preview(crate::runtime::model::conversation_error(error)),
    );
    let decision = crate::classifier::notification_decision(
        error,
        false,
        core.config.failure_phrases,
    );
    retries_are_plain(shown, crate::classifier::decision_reason(decision), now);
}

proof fn completed_is_plain(core: CoreView, turn: crate::transport::TurnView, now: i128)
    ensures
        plain(core.turn_completed(turn, now).ops),
        core.turn_completed(turn, now).core.wake_detector == core.wake_detector,
{
    reveal(CoreView::turn_completed);
    let shown = core.snap().with_preview(CoreView::turn_text(turn));
    let settled = if turn.status == crate::transport::TurnStatus::InProgress {
        shown
    } else {
        shown.with_uncertainty(false)
    };
    decided_is_plain(
        core.with_snap(settled).with_deadline(None),
        core.turn_decision(turn),
        crate::text::blank(turn.final_message),
        now,
    );
}

proof fn error_is_plain(
    core: CoreView,
    error: crate::classifier::ErrorView,
    will_retry: bool,
    now: i128,
)
    ensures
        plain(core.turn_error(error, will_retry, now).ops),
        core.turn_error(error, will_retry, now).core.wake_detector == core.wake_detector,
{
    reveal(CoreView::turn_error);
    let shown = core.with_snap(
        core.snap().with_preview(crate::runtime::model::conversation_error(error)),
    );
    let decision = crate::classifier::notification_decision(
        error,
        will_retry,
        core.config.failure_phrases,
    );
    retries_are_plain(shown, crate::classifier::decision_reason(decision), now);
}

/// Nothing that a carrier reports makes the controller hand the task over at once.
pub proof fn events_are_plain(
    core: CoreView,
    event: crate::transport::EventView,
    now: i128,
    monotonic: u128,
)
    ensures
        plain(core.event(event, now, monotonic).ops),
        core.event(event, now, monotonic).core.wake_detector == core.wake_detector,
{
    reveal(CoreView::event);
    match event {
        crate::transport::EventView::Error { thread_id, turn_id, error, will_retry } => {
            error_is_plain(core, error, will_retry, now);
        },
        crate::transport::EventView::TurnCompleted { thread_id, turn } => {
            completed_is_plain(core, turn, now);
        },
        _ => {},
    }
}

/// A wake-up does not make the controller hand the task over at once, and a
/// deadline that has passed does not either.
pub proof fn clocks_are_plain(core: CoreView, now: i128, monotonic: u128)
    ensures
        plain(core.woken(now, monotonic).ops),
        plain(core.deadline_passed().ops),
        core.woken(now, monotonic).core.wake_detector == core.wake_detector,
        core.deadline_passed().core == core,
        !core.wake_matters() ==> core.woken(now, monotonic) == core.do_next(Seq::empty()),
{
    reveal(CoreView::woken);
    reveal(CoreView::deadline_passed);
}

/// No command of the user makes the controller hand the task over at once.
pub proof fn commands_are_plain(core: CoreView, config: crate::config::ConfigView)
    ensures
        plain(core.start().ops),
        plain(core.configure(config).ops),
        plain(core.configure_and_start(config).ops),
        plain(core.start_configured(config).ops),
        plain(core.pause().ops),
        plain(core.stop().ops),
        core.start().core.wake_detector == core.wake_detector,
        core.configure(config).core.wake_detector == core.wake_detector,
        core.start_configured(config).core.wake_detector == core.wake_detector,
        core.pause().core.wake_detector == core.wake_detector,
        core.stop().core.wake_detector == core.wake_detector,
{
    reveal(CoreView::start);
    reveal(CoreView::configure);
}

/// Answers of the carrier do not make the controller hand the task over at once.
pub proof fn answers_are_plain(
    core: CoreView,
    connect: Option<crate::transport::FailureView>,
    session: Result<crate::transport::SessionView, crate::transport::FailureView>,
    turn: Result<Seq<char>, crate::transport::FailureView>,
    now: i128,
    monotonic: u128,
)
    ensures
        plain(core.connect_answered(connect, now, monotonic).ops),
        plain(core.thread_answered(session, now, monotonic).ops),
        plain(core.turn_answered(turn, now, monotonic).ops),
        core.connect_answered(connect, now, monotonic).core.wake_detector.wall == now,
        core.thread_answered(session, now, monotonic).core.wake_detector.wall == now,
        core.turn_answered(turn, now, monotonic).core.wake_detector.wall == now,
{
    reveal(CoreView::turn_answered);
    let read = core.clocks_read(now, monotonic);
    if let Some(failure) = connect {
        failure_is_plain(read, failure, now);
    }
    if let Err(failure) = session {
        failure_is_plain(read, failure, now);
    }
    if let Err(failure) = turn {
        failure_is_plain(read, failure, now);
    }
}

proof fn settling_is_plain(
    core: CoreView,
    latest_turn: Option<crate::transport::TurnView>,
    now: i128,
    monotonic: u128,
)
    ensures
        plain(core.settle_session(latest_turn, now, monotonic).ops),
        core.settle_session(latest_turn, now, monotonic).core.wake_detector == core.wake_detector,
{
    reveal(CoreView::settle_session);
    if let Some(turn) = latest_turn {
        completed_is_plain(core, turn, now);
    }
}

proof fn starting_is_plain(core: CoreView, config: crate::config::ConfigView)
    ensures
        plain(core.start().ops),
        plain(core.configure_and_start(config).ops),
        core.start().core.wake_detector == core.wake_detector,
        core.configure_and_start(config).core.wake_detector == core.wake_detector,
{
    commands_are_plain(core, config);
}

/// Whether a thing to do may lead to more things to do.
spec fn unfolds(op: OpView) -> bool {
    op is SettleSession || op is Configure || op is Start
}

proof fn small_plans_are_plain(core: CoreView, op: OpView, now: i128, monotonic: u128)
    requires
        !submitting(op),
        op !is SendAttempt,
        !unfolds(op),
    ensures
        plain(core.plan_of(op, now, monotonic).ops),
        core.plan_of(op, now, monotonic).core.wake_detector == core.wake_detector,
{
    reveal(CoreView::retry_connection);
    reveal(CoreView::after_disconnect);
    reveal(CoreView::plan_of);
}

proof fn large_plans(core: CoreView, op: OpView, now: i128, monotonic: u128)
    ensures
        op is SendAttempt ==> core.plan_of(op, now, monotonic) == core.send_attempt(now),
        op is MarkUncertain ==> core.plan_of(op, now, monotonic) == core.mark_uncertain(),
        op matches OpView::SettleSession(latest_turn) ==> core.plan_of(op, now, monotonic)
            == core.settle_session(latest_turn, now, monotonic),
        op matches OpView::Configure(config) ==> core.plan_of(op, now, monotonic)
            == core.configure_and_start(config),
        op is Start ==> core.plan_of(op, now, monotonic) == core.start(),
{
    reveal(CoreView::plan_of);
}

proof fn plain_steps(core: CoreView, op: OpView, now: i128, monotonic: u128)
    requires
        !submitting(op),
        op !is SendAttempt,
    ensures
        plain(core.step(op, now, monotonic).ops),
        !(core.step(op, now, monotonic).awaiting is CriticalSave),
        !(core.step(op, now, monotonic).awaiting is Turn),
        core.step(op, now, monotonic).core.wake_detector == core.wake_detector,
{
    large_plans(core, op, now, monotonic);
    match op {
        OpView::SettleSession(latest_turn) => {
            settling_is_plain(core, latest_turn, now, monotonic);
        },
        OpView::Configure(config) => {
            starting_is_plain(core, config);
        },
        OpView::Start => {
            starting_is_plain(core, core.config);
        },
        _ => {
            small_plans_are_plain(core, op, now, monotonic);
        },
    }
}

proof fn plain_tail(ops: Seq<OpView>, tail: Seq<OpView>)
    requires
        plain(ops),
        plain(tail),
    ensures
        plain(ops + tail),
{
}

/// Doing the next thing on the agenda keeps what holds of the controller.
pub proof fn advancing_is_safe(runtime: RuntimeView, now: i128, monotonic: u128)
    requires
        runtime.safe(),
        runtime.awaiting is Nothing,
        runtime.agenda.len() > 0,
    ensures
        runtime.advanced(runtime.core.step(runtime.agenda[0], now, monotonic)).safe(),
{
    reveal(CoreView::send_attempt);
    let op = runtime.agenda[0];
    let step = runtime.core.step(op, now, monotonic);
    let tail = runtime.agenda.skip(1);
    let after = runtime.advanced(step);
    assert forall|i: int| 0 <= i < tail.len() implies #[trigger] tail[i] == runtime.agenda[i + 1] by {}
    if quiet(op) {
        assert(step.core == runtime.core);
        assert(step.ops + tail =~= tail);
        assert forall|i: int| 0 <= i < after.agenda.len() && submitting(
            #[trigger] after.agenda[i],
        ) implies {
            &&& ready(after.core)
            &&& after.agenda[i] is MarkUncertain || after.core.snap().submission_uncertain
            &&& forall|j: int| 0 <= j < i ==> quiet(#[trigger] after.agenda[j])
        } by {
            assert(after.agenda[i] == runtime.agenda[i + 1]);
            assert forall|j: int| 0 <= j < i implies quiet(#[trigger] after.agenda[j]) by {
                assert(after.agenda[j] == runtime.agenda[j + 1]);
            }
        }
    } else {
        assert(plain(tail)) by {
            assert forall|i: int| 0 <= i < tail.len() implies !submitting(#[trigger] tail[i]) by {
                assert(tail[i] == runtime.agenda[i + 1]);
                if submitting(tail[i]) {
                    assert(quiet(runtime.agenda[0]));
                }
            }
        }
        if op is SendAttempt {
            large_plans(runtime.core, op, now, monotonic);
            assert forall|i: int| 0 <= i < after.agenda.len() && submitting(
                #[trigger] after.agenda[i],
            ) implies {
                &&& ready(after.core)
                &&& after.agenda[i] is MarkUncertain
                &&& forall|j: int| 0 <= j < i ==> quiet(#[trigger] after.agenda[j])
            } by {
                if i >= step.ops.len() {
                    assert(after.agenda[i] == tail[i - step.ops.len()]);
                }
            }
        } else if submitting(op) {
            assert(ready(runtime.core));
            large_plans(runtime.core, op, now, monotonic);
            assert forall|i: int| 0 <= i < after.agenda.len() && submitting(
                #[trigger] after.agenda[i],
            ) implies {
                &&& ready(after.core)
                &&& after.core.snap().submission_uncertain
                &&& forall|j: int| 0 <= j < i ==> quiet(#[trigger] after.agenda[j])
            } by {
                if i >= step.ops.len() {
                    assert(after.agenda[i] == tail[i - step.ops.len()]);
                }
            }
            if step.awaiting !is Nothing {
                assert(after.agenda =~= tail);
            }
        } else {
            plain_steps(runtime.core, op, now, monotonic);
            plain_tail(step.ops, tail);
        }
    }
}

/// A plan that hands nothing over keeps what holds of a controller at rest, or
/// of one that waited for an answer of the carrier.
pub proof fn planning_is_safe(runtime: RuntimeView, plan: Plan)
    requires
        plain(runtime.agenda),
        plain(plan.ops),
        valid_time(plan.core.wake_detector.wall as int),
    ensures
        runtime.planned(plan).safe(),
{
    plain_tail(plan.ops, runtime.agenda);
}

/// What a save changes: only the warning, and how often saving has failed.
pub open spec fn same_but_warnings(left: CoreView, right: CoreView) -> bool {
    &&& left == (CoreView {
        state_failures: left.state_failures,
        config_failed: left.config_failed,
        ..right.with_snap(
            SnapshotView { runtime_warning: left.snap().runtime_warning, ..right.snap() },
        )
    })
}

/// Saving never changes the task, its thread, its turn or when the next attempt is due.
pub proof fn saving_only_warns(core: CoreView, failure: Option<Seq<char>>)
    ensures
        same_but_warnings(core.state_saved(failure).core, core),
        same_but_warnings(core.critical_saved(failure).core, core),
        same_but_warnings(core.config_saved(failure).core, core),
        forall|i: int|
            0 <= i < core.state_saved(failure).ops.len() ==> quiet(
                #[trigger] core.state_saved(failure).ops[i],
            ),
        forall|i: int|
            0 <= i < core.config_saved(failure).ops.len() ==> quiet(
                #[trigger] core.config_saved(failure).ops[i],
            ),
{
}

/// An answer to an ordinary save keeps what holds of the controller.
pub proof fn saved_is_safe(runtime: RuntimeView, failure: Option<Seq<char>>)
    requires
        runtime.safe(),
        runtime.awaiting is Save,
    ensures
        runtime.planned(runtime.core.state_saved(failure)).safe(),
{
    saving_only_warns(runtime.core, failure);
    let plan = runtime.core.state_saved(failure);
    let after = runtime.planned(plan);
    let n = plan.ops.len() as int;
    assert forall|i: int| 0 <= i < after.agenda.len() && submitting(
        #[trigger] after.agenda[i],
    ) implies {
        &&& ready(after.core)
        &&& after.agenda[i] is MarkUncertain || after.core.snap().submission_uncertain
        &&& forall|j: int| 0 <= j < i ==> quiet(#[trigger] after.agenda[j])
    } by {
        if i < n {
            assert(after.agenda[i] == plan.ops[i]);
        } else {
            assert(after.agenda[i] == runtime.agenda[i - n]);
            assert forall|j: int| 0 <= j < i implies quiet(#[trigger] after.agenda[j]) by {
                if j < n {
                    assert(after.agenda[j] == plan.ops[j]);
                } else {
                    assert(after.agenda[j] == runtime.agenda[j - n]);
                }
            }
        }
    }
}

/// An answer to the save of the mark keeps what holds of the controller.
pub proof fn critical_saved_is_safe(runtime: RuntimeView, failure: Option<Seq<char>>)
    requires
        runtime.safe(),
        runtime.awaiting is CriticalSave,
    ensures
        runtime.planned(runtime.core.critical_saved(failure)).safe(),
{
    saving_only_warns(runtime.core, failure);
    let plan = runtime.core.critical_saved(failure);
    let first = runtime.core.state_saved(failure);
    let after = runtime.planned(plan);
    let n = plan.ops.len() as int;
    assert forall|i: int| 0 <= i < after.agenda.len() && submitting(
        #[trigger] after.agenda[i],
    ) implies {
        &&& ready(after.core)
        &&& after.agenda[i] is MarkUncertain || after.core.snap().submission_uncertain
        &&& forall|j: int| 0 <= j < i ==> quiet(#[trigger] after.agenda[j])
    } by {
        if i < n {
            assert(after.agenda[i] == plan.ops[i]);
            assert forall|j: int| 0 <= j < i implies quiet(#[trigger] after.agenda[j]) by {
                assert(after.agenda[j] == plan.ops[j]);
                assert(plan.ops[j] == first.ops[j]);
            }
        } else {
            assert(after.agenda[i] == runtime.agenda[i - n]);
        }
    }
}

/// The task is handed over only while no turn is active, an attempt has begun
/// and the mark is set; what is handed over is the prompt, in the thread of the
/// task.
pub proof fn a_turn_is_started_only_when_none_is_active(
    runtime: RuntimeView,
    now: i128,
    monotonic: u128,
)
    requires
        runtime.safe(),
        runtime.awaiting is Nothing,
        runtime.agenda.len() > 0,
        runtime.core.step(runtime.agenda[0], now, monotonic).action is StartTurn,
    ensures
        runtime.core.started,
        runtime.core.snap().active_turn_id is None,
        runtime.core.snap().phase == QueuePhase::Sending,
        runtime.core.snap().submission_uncertain,
        runtime.core.step(runtime.agenda[0], now, monotonic).action == (ActionView::StartTurn {
            thread_id: runtime.core.snap().active_thread_id->0,
            prompt: runtime.core.config.prompt,
            working_directory: runtime.core.config.working_directory,
        }),
        runtime.core.step(runtime.agenda[0], now, monotonic).awaiting is Turn,
{
    let op = runtime.agenda[0];
    assert(op is Submit);
}

/// The task is handed over only after the state with the mark was saved: what
/// is saved holds the mark and the thread, and a failed save leads to a pause
/// in which nothing is sent.
pub proof fn nothing_is_sent_without_the_saved_mark(
    core: CoreView,
    error: Seq<char>,
    now: i128,
    monotonic: u128,
)
    requires
        core.has_store,
        core.snap().submission_uncertain,
    ensures
        core.step(OpView::SaveCritical, now, monotonic).action == ActionView::SaveState(
            core.saved_state(),
        ),
        core.saved_state().submission_uncertain,
        core.saved_state().active_thread_id == core.snap().active_thread_id,
        plain(core.critical_saved(Some(error)).ops),
        core.critical_saved(Some(error)).ops == seq![OpView::Publish, OpView::AbandonSubmission],
        !core.abandon_submission().core.started,
        core.abandon_submission().core.snap().phase == QueuePhase::Paused,
        !core.abandon_submission().core.snap().submission_uncertain,
        core.critical_saved(None).ops.last() is Submit,
{
    assert(core.critical_saved(Some(error)).ops =~= seq![
        OpView::Publish,
        OpView::AbandonSubmission,
    ]);
}

/// A request whose outcome is unknown is not repeated when the thread comes
/// back without a turn: a retry is planned instead.
pub proof fn uncertain_submissions_are_not_repeated(core: CoreView, now: i128, monotonic: u128)
    requires
        core.started,
        core.snap().submission_uncertain || core.snap().active_turn_id is Some,
    ensures
        core.settle_session(None, now, monotonic).ops == seq![
            OpView::Retry("无法确认上一次回合是否已提交"@),
        ],
        core.settle_session(None, now, monotonic).core == core,
{
    reveal(CoreView::settle_session);
}

/// A turn that the server reports as under way is adopted, and nothing is sent:
/// the server's word replaces a stale identifier.
pub proof fn a_running_turn_is_adopted(
    core: CoreView,
    turn: crate::transport::TurnView,
    now: i128,
    monotonic: u128,
)
    requires
        turn.status == crate::transport::TurnStatus::InProgress,
    ensures
        ({
            let plan = core.settle_session(Some(turn), now, monotonic);
            &&& plan.ops == save_ops()
            &&& plan.core.snap().active_turn_id == Some(turn.id)
            &&& plan.core.snap().phase == QueuePhase::Waiting
            &&& !plan.core.snap().submission_uncertain
            &&& plan.core.snap().attempt_count == core.snap().attempt_count
        }),
{
    reveal(CoreView::settle_session);
}

/// An event about another thread or another turn changes nothing and leads to nothing.
pub proof fn stale_events_are_ignored(
    core: CoreView,
    event: crate::transport::EventView,
    now: i128,
    monotonic: u128,
)
    requires
        match event {
            crate::transport::EventView::AgentMessageDelta { thread_id, turn_id, .. } => {
                !core.matches_active(thread_id, turn_id)
            },
            crate::transport::EventView::Error { thread_id, turn_id, .. } => !core.matches_active(
                thread_id,
                turn_id,
            ),
            crate::transport::EventView::TurnCompleted { thread_id, turn } => !core.matches_active(
                thread_id,
                turn.id,
            ),
            crate::transport::EventView::ThreadResolved {
                previous_thread_id,
                turn_id,
                ..
            } => !core.matches_active(previous_thread_id, turn_id),
            crate::transport::EventView::TurnStarted { thread_id, turn_id } => {
                core.snap().active_thread_id != Some(thread_id) || !core.snap().accepts_turn(
                    turn_id,
                )
            },
            _ => false,
        },
    ensures
        core.event(event, now, monotonic) == core.do_next(Seq::empty()),
{
    reveal(CoreView::event);
}

/// An error that Codex mends by itself leaves its turn active and plans nothing.
pub proof fn internal_retries_stay_on_the_same_turn(
    core: CoreView,
    error: crate::classifier::ErrorView,
    now: i128,
)
    requires
        !crate::classifier::fatal(error),
    ensures
        ({
            let plan = core.turn_error(error, true, now);
            &&& plan.ops == save_ops()
            &&& plan.core.snap().active_turn_id == core.snap().active_turn_id
            &&& plan.core.snap().next_attempt_at == core.snap().next_attempt_at
            &&& plan.core.snap().attempt_count == core.snap().attempt_count
            &&& plan.core.snap().phase == QueuePhase::Waiting
            &&& plan.core.started == core.started
        }),
{
    reveal(CoreView::turn_error);
    reveal(crate::classifier::notification_decision);
}

/// A success ends the task: the queue stops, nothing is planned and no deadline
/// is left, so that nothing more is sent until the user starts a new task.
pub proof fn success_stops_the_queue(core: CoreView, turn: crate::transport::TurnView, now: i128)
    requires
        core.turn_decision(turn) is Success,
    ensures
        ({
            let plan = core.turn_completed(turn, now);
            &&& !plan.core.started
            &&& plan.core.snap().phase == QueuePhase::Success
            &&& plan.core.snap().next_attempt_at is None
            &&& plan.core.snap().active_turn_id is None
            &&& plan.core.turn_deadline is None
            &&& plain(plan.ops)
            &&& plan.core.start() == plan.core.do_next(Seq::empty())
            &&& plan.core.send_attempt(now) == plan.core.do_next(Seq::empty())
        }),
{
    reveal(CoreView::turn_completed);
    reveal(CoreView::turn_decided);
    reveal(CoreView::start);
    reveal(CoreView::send_attempt);
    completed_is_plain(core, turn, now);
}

/// A queue that the user has not set going, or that rests, never begins an attempt.
pub proof fn a_resting_queue_never_sends(core: CoreView, now: i128, monotonic: u128)
    requires
        !core.started,
    ensures
        core.send_attempt(now) == core.do_next(Seq::empty()),
        core.settle_session(None, now, monotonic) == core.do_next(Seq::empty()),
        !core.pause().core.started,
        !core.stop().core.started,
{
    reveal(CoreView::send_attempt);
    reveal(CoreView::settle_session);
}

/// No attempt begins before it is due.
pub proof fn no_attempt_before_it_is_due(core: CoreView, next: i128, now: i128)
    requires
        core.snap().next_attempt_at == Some(next),
        now < next,
    ensures
        core.send_attempt(now) == core.do_next(Seq::empty()),
{
    reveal(CoreView::send_attempt);
}

/// Giving the task up forgets its thread, its turn and every count.
pub proof fn stopping_forgets_the_thread(core: CoreView)
    ensures
        core.stop().core.snap().active_thread_id is None,
        core.stop().core.snap().active_turn_id is None,
        core.stop().core.snap().next_attempt_at is None,
        core.stop().core.snap().attempt_count == 0,
        core.stop().core.turn_deadline is None,
        core.stop().core.snap().codex_path == core.snap().codex_path,
{
}

/// While a task is under way a new configuration changes its alerts and the
/// fallback, and nothing of the task itself.
pub proof fn a_running_task_keeps_its_settings(core: CoreView, config: crate::config::ConfigView)
    requires
        core.task_locked(),
    ensures
        ({
            let after = core.configure(config).core;
            &&& after.config.prompt == core.config.prompt
            &&& after.config.working_directory == core.config.working_directory
            &&& after.config.codex_path == core.config.codex_path
            &&& after.config.failure_phrases == core.config.failure_phrases
            &&& after.config.retry_policy == core.config.retry_policy
            &&& after.config.turn_timeout_secs == core.config.turn_timeout_secs
            &&& after.config.gui_fallback_enabled == config.gui_fallback_enabled
            &&& after.config.full_screen_flash_enabled == config.full_screen_flash_enabled
            &&& after.config.audio_alert_enabled == config.audio_alert_enabled
            &&& after.machine == core.machine
            &&& after.started == core.started
        }),
{
    reveal(CoreView::configure);
}

/// The text of a task cannot be exchanged under a thread that was opened for another.
pub proof fn changing_the_task_needs_a_stop(core: CoreView, config: crate::config::ConfigView)
    requires
        core.task_changed(config),
        core.snap().active_thread_id is Some,
    ensures
        !core.configure_accepted(config),
        core.configure(config).core.config.prompt == core.config.prompt,
        core.configure(config).core.config.working_directory == core.config.working_directory,
{
    reveal(CoreView::configure);
}

/// However often the connection fails, the next attempt is between five
/// seconds and a minute away, and never sooner than after the failure before.
pub proof fn connection_retries_back_off(failures: u32)
    ensures
        5 <= crate::runtime::model::connection_delay(failures) <= 60,
        failures < u32::MAX ==> crate::runtime::model::connection_delay(failures)
            <= crate::runtime::model::connection_delay((failures + 1) as u32),
{
}

/// A lost connection does not bring a planned retry forward.
pub proof fn a_lost_connection_keeps_the_planned_retry(core: CoreView, message: Seq<char>)
    requires
        core.snap().phase == QueuePhase::Backoff,
        core.snap().next_attempt_at is Some,
    ensures
        core.disconnected(message).ops == seq![
            OpView::Shutdown,
            OpView::AfterDisconnect(message, true),
        ],
        core.after_disconnect(message, true).core.machine == core.machine,
        core.after_disconnect(message, true).ops == save_ops(),
{
    reveal(CoreView::after_disconnect);
}

/// A wake-up never brings the deadline of the turn under way forward and sends nothing.
pub proof fn a_wake_up_sends_nothing(core: CoreView, now: i128, monotonic: u128, deadline: u128)
    requires
        core.turn_deadline == Some(deadline),
        monotonic + core.config.retry_policy.wake_secs() * 1_000_000_000 <= u128::MAX,
    ensures
        core.woken(now, monotonic).core.turn_deadline matches Some(later) && later >= deadline,
        plain(core.woken(now, monotonic).ops),
        core.woken(now, monotonic).core.snap().active_turn_id == core.snap().active_turn_id,
        core.woken(now, monotonic).core.snap().attempt_count == core.snap().attempt_count,
{
    reveal(CoreView::woken);
}

} // verus!
