//! The controller as the surrounding program drives it.

use vstd::prelude::*;

use crate::backoff::{RetryPolicy, WakeDetector};
use crate::clock::{span, valid_time};
use crate::config::{
    digest_of, prompt_digest, ConfigError, ConfigView, PersistedQueueState, QueueConfig, StateView,
};
use crate::paths::PathStyle;
use crate::queue::{MachineView, QueueError, QueueMachine, QueuePhase};
use crate::runtime::laws::{
    advancing_is_safe, answers_are_plain, clocks_are_plain, commands_are_plain,
    critical_saved_is_safe, events_are_plain, plain, planning_is_safe, saved_is_safe,
    saving_only_warns, RuntimeView,
};
use crate::runtime::model::{AwaitingView, CoreView, Fault, OpView, Plan};
use crate::runtime::state::{
    and_op, clocks_usable, Action, Awaiting, Op, RuntimeCore, MAX_MONOTONIC,
};
use crate::text::{cat, copy_opt, is_text, opt, views};
use crate::transport::{
    StartedTurn, ThreadSession, TransportError, TransportEvent, TransportStatus,
};

verus! {

/// What the user asks of the queue.
#[derive(Debug)]
pub enum RuntimeCommand {
    Configure(QueueConfig),
    StartConfigured(QueueConfig),
    Start,
    Pause,
    Stop,
    Wake,
    Shutdown,
}

/// The content of a [`RuntimeCommand`].
pub enum CommandView {
    Configure(ConfigView),
    StartConfigured(ConfigView),
    Start,
    Pause,
    Stop,
    Wake,
    Shutdown,
}

impl View for RuntimeCommand {
    type V = CommandView;

    open spec fn view(&self) -> CommandView {
        match self {
            RuntimeCommand::Configure(config) => CommandView::Configure(config@),
            RuntimeCommand::StartConfigured(config) => CommandView::StartConfigured(config@),
            RuntimeCommand::Start => CommandView::Start,
            RuntimeCommand::Pause => CommandView::Pause,
            RuntimeCommand::Stop => CommandView::Stop,
            RuntimeCommand::Wake => CommandView::Wake,
            RuntimeCommand::Shutdown => CommandView::Shutdown,
        }
    }
}

/// Why the controller ended.
#[derive(Debug)]
pub enum RuntimeError {
    Config(ConfigError),
    Transport(TransportError),
    Queue(QueueError),
    ChannelClosed,
    TaskJoin(String),
    Invariant(&'static str),
}

impl RuntimeError {
    /// The text of the error.
    pub open spec fn text(self) -> Seq<char> {
        match self {
            RuntimeError::Config(error) => "configuration is invalid: "@
                + crate::config::config_error_text(error@),
            RuntimeError::Transport(error) => "transport failed: "@
                + crate::transport::failure_text(error@),
            RuntimeError::Queue(error) => "queue state error: "@ + "a turn is already active"@,
            RuntimeError::ChannelClosed => "后台命令通道已关闭"@,
            RuntimeError::TaskJoin(text) => "后台任务异常结束："@ + text@,
            RuntimeError::Invariant(text) => "内部状态异常："@ + text@,
        }
    }

    /// The text of the error.
    pub fn message(&self) -> (r: String)
        ensures
            r@ == self.text(),
    {
        match self {
            RuntimeError::Config(error) => cat(
                "configuration is invalid: ",
                error.message().as_str(),
            ),
            RuntimeError::Transport(error) => cat("transport failed: ", error.message().as_str()),
            RuntimeError::Queue(error) => cat("queue state error: ", error.message().as_str()),
            RuntimeError::ChannelClosed => "后台命令通道已关闭".to_owned(),
            RuntimeError::TaskJoin(text) => cat("后台任务异常结束：", text.as_str()),
            RuntimeError::Invariant(text) => cat("内部状态异常：", text),
        }
    }
}

impl Fault {
    /// The error with which the controller ends.
    pub fn error(self) -> (r: RuntimeError)
        ensures
            r.text() == (match self {
                Fault::TurnAlreadyActive => "queue state error: "@ + "a turn is already active"@,
                Fault::MissingThread => "内部状态异常："@ + "缺少活动线程 ID"@,
            }),
    {
        match self {
            Fault::TurnAlreadyActive => RuntimeError::Queue(QueueError::TurnAlreadyActive),
            Fault::MissingThread => RuntimeError::Invariant("缺少活动线程 ID"),
        }
    }
}

/// The controller: its state, what it has to do and what it waits for.
#[derive(Debug)]
pub struct QueueRuntime {
    pub core: RuntimeCore,
    pub agenda: Vec<Op>,
    pub awaiting: Awaiting,
}

impl View for QueueRuntime {
    type V = RuntimeView;

    open spec fn view(&self) -> RuntimeView {
        RuntimeView {
            core: self.core@,
            agenda: views(self.agenda@),
            awaiting: self.awaiting@,
        }
    }
}

/// Whether a task was under way when its state was persisted.
pub open spec fn was_active(phase: QueuePhase) -> bool {
    phase == QueuePhase::Connecting || phase == QueuePhase::Sending || phase == QueuePhase::Waiting
        || phase == QueuePhase::Backoff
}

/// Whether a persisted state belongs to the task that is configured.
pub open spec fn same_task(state: StateView, config: ConfigView) -> bool {
    state.prompt_digest is None || state.prompt_digest == Some(digest_of(config.prompt))
}

/// The machine with which the program starts.  A state that belongs to another
/// task rests; a request that may be under way is marked as such.
pub open spec fn restored_machine(state: StateView, config: ConfigView) -> MachineView {
    let machine = MachineView::from_state(state, config.codex_path);
    if was_active(state.phase) && !same_task(state, config) {
        machine.with(
            machine.snapshot.paused(
                "保存的任务与当前提示不一致；请确认后再开始"@,
            ).with_uncertainty(false),
        )
    } else if state.phase == QueuePhase::Sending {
        machine.with(machine.snapshot.with_uncertainty(true))
    } else {
        machine
    }
}

/// What is to be done when the program starts: the state is shown, and a queue
/// that is going connects where nothing is planned for later.
pub open spec fn first_things(core: CoreView, now: i128) -> Seq<OpView> {
    if core.started && (core.snap().next_attempt_at is None || core.snap().next_attempt_at->0
        <= now) {
        seq![OpView::Publish, OpView::EnsureConnection]
    } else {
        seq![OpView::Publish]
    }
}

/// What a command leads to.
#[verifier::opaque]
pub open spec fn commanded(
    core: CoreView,
    command: CommandView,
    now: i128,
    monotonic: u128,
) -> Plan {
    match command {
        CommandView::Configure(config) => core.configure(config),
        CommandView::StartConfigured(config) => core.start_configured(config),
        CommandView::Start => core.start(),
        CommandView::Pause => core.pause(),
        CommandView::Stop => core.stop(),
        CommandView::Wake => {
            let plan = core.woken(now, monotonic);
            Plan { core: plan.core.clocks_read(now, monotonic), ops: plan.ops }
        },
        CommandView::Shutdown => core.do_next(Seq::empty()),
    }
}

/// What follows when a deadline is reached: where the machine slept until then
/// and that matters, it is given time first.
pub open spec fn deadline_reached(core: CoreView, now: i128, monotonic: u128) -> Plan {
    let read = core.clocks_read(now, monotonic);
    if core.sleep_ends(now, monotonic) && read.wake_matters() {
        read.woken(now, monotonic)
    } else {
        read.deadline_passed()
    }
}

/// When something is due, on the monotonic clock: the end of the turn, else the
/// next attempt.
pub open spec fn due(core: CoreView, now: i128, monotonic: u128) -> Option<u128> {
    match core.turn_deadline {
        Some(deadline) => Some(deadline),
        None => match core.snap().next_attempt_at {
            Some(next) => Some(
                if next < now {
                    monotonic
                } else if monotonic + (next - now) <= u128::MAX {
                    (monotonic + (next - now)) as u128
                } else {
                    u128::MAX
                },
            ),
            None => None,
        },
    }
}

/// The controller when the program starts.
pub open spec fn fresh_core(
    config: ConfigView,
    machine: MachineView,
    has_store: bool,
    style: PathStyle,
    started: bool,
    now: i128,
    monotonic: u128,
) -> CoreView {
    CoreView {
        config,
        machine,
        has_store,
        style,
        wake_detector: WakeDetector { wall: now, monotonic },
        started,
        connected: false,
        connection_failures: 0,
        turn_deadline: None,
        success_notified: false,
        state_failures: 0,
        config_failed: false,
    }
}

impl QueueRuntime {
    fn prepend(&mut self, ops: Vec<Op>)
        ensures
            final(self).core == old(self).core,
            final(self).awaiting == old(self).awaiting,
            views(final(self).agenda@) == views(ops@) + views(old(self).agenda@),
    {
        let ghost before = views(ops@);
        let ghost rest = views(self.agenda@);
        let mut ops = ops;
        ops.append(&mut self.agenda);
        assert(views(ops@) =~= before + rest);
        self.agenda = ops;
    }

    fn answer(&mut self, ops: Vec<Op>)
        ensures
            final(self)@ == (RuntimeView {
                core: old(self)@.core,
                agenda: views(ops@) + old(self)@.agenda,
                awaiting: AwaitingView::Nothing,
            }),
    {
        self.prepend(ops);
        self.awaiting = Awaiting::Nothing;
    }

    /// The controller of a machine; first of all the carrier is told about the
    /// fallback and the window.
    pub fn new(
        config: QueueConfig,
        machine: QueueMachine,
        has_store: bool,
        style: PathStyle,
        now: i128,
        monotonic: u128,
    ) -> (r: QueueRuntime)
        requires
            valid_time(now as int),
        ensures
            r@ == (RuntimeView {
                core: fresh_core(config@, machine@, has_store, style, false, now, monotonic),
                agenda: seq![
                    OpView::AllowFallback(config@.gui_fallback_enabled),
                    OpView::HideWindow,
                ],
                awaiting: AwaitingView::Nothing,
            }),
            r@.safe(),
    {
        let allowed = config.gui_fallback_enabled;
        let core = RuntimeCore {
            config,
            machine,
            has_store,
            style,
            wake_detector: WakeDetector::new(now, monotonic),
            started: false,
            connected: false,
            connection_failures: 0,
            turn_deadline: None,
            success_notified: false,
            state_failures: 0,
            config_failed: false,
        };
        let mut agenda: Vec<Op> = Vec::new();
        agenda.push(Op::AllowFallback(allowed));
        agenda.push(Op::HideWindow);
        assert(views(agenda@) =~= seq![OpView::AllowFallback(allowed), OpView::HideWindow]);
        QueueRuntime { core, agenda, awaiting: Awaiting::Nothing }
    }

    /// The controller of a persisted state.  A task that was under way goes on
    /// by itself; what was paused, done or failed waits for the user.
    pub fn restore(
        config: QueueConfig,
        state: PersistedQueueState,
        has_store: bool,
        style: PathStyle,
        now: i128,
        monotonic: u128,
    ) -> (r: QueueRuntime)
        requires
            valid_time(now as int),
        ensures
            r@ == (RuntimeView {
                core: fresh_core(
                    config@,
                    restored_machine(state@, config@),
                    has_store,
                    style,
                    was_active(state@.phase) && same_task(state@, config@),
                    now,
                    monotonic,
                ),
                agenda: seq![
                    OpView::AllowFallback(config@.gui_fallback_enabled),
                    OpView::HideWindow,
                ],
                awaiting: AwaitingView::Nothing,
            }),
            r@.safe(),
    {
        let active_phase = state.phase == QueuePhase::Connecting || state.phase
            == QueuePhase::Sending || state.phase == QueuePhase::Waiting || state.phase
            == QueuePhase::Backoff;
        let digest = prompt_digest(config.prompt.as_str());
        let prompt_matches = state.prompt_digest.is_none() || is_text(
            &state.prompt_digest,
            digest.as_str(),
        );
        let mut machine = QueueMachine::restore(state, config.codex_path.clone());
        if active_phase && !prompt_matches {
            machine.pause("保存的任务与当前提示不一致；请确认后再开始");
            machine.clear_submission_uncertain();
        } else if active_phase && machine.snapshot.phase == QueuePhase::Sending {
            machine.mark_submission_uncertain();
        }
        let mut runtime = QueueRuntime::new(config, machine, has_store, style, now, monotonic);
        runtime.core.started = active_phase && prompt_matches;
        runtime
    }

    /// What the display shows, before anything happens.
    pub fn machine(&self) -> (r: &QueueMachine)
        ensures
            *r == self.core.machine,
    {
        &self.core.machine
    }

    /// The program begins to drive the controller.
    pub fn begin(&mut self, now: i128)
        requires
            old(self)@.safe(),
            old(self)@.awaiting is Nothing,
            plain(old(self)@.agenda),
        ensures
            final(self)@ == (RuntimeView {
                agenda: old(self)@.agenda + first_things(old(self)@.core, now),
                ..old(self)@
            }),
            final(self)@.safe(),
    {
        let ghost before = views(self.agenda@);
        let due = match self.core.machine.snapshot.next_attempt_at {
            Some(next) => next <= now,
            None => true,
        };
        self.agenda.push(Op::Publish);
        if self.core.started && due {
            self.agenda.push(Op::EnsureConnection);
            assert(views(self.agenda@) =~= before + seq![
                OpView::Publish,
                OpView::EnsureConnection,
            ]);
        } else {
            assert(views(self.agenda@) =~= before + seq![OpView::Publish]);
        }
    }

    /// Does the next thing on the agenda and says what the surrounding program
    /// has to do for it.
    pub fn advance(&mut self, now: i128, monotonic: u128) -> (r: Action)
        requires
            old(self)@.safe(),
            old(self)@.awaiting is Nothing,
            clocks_usable(now, monotonic),
        ensures
            old(self)@.agenda.len() == 0 ==> r@ is Idle && final(self)@ == old(self)@,
            old(self)@.agenda.len() > 0 ==> {
                let step = old(self)@.core.step(old(self)@.agenda[0], now, monotonic);
                &&& r@ == step.action
                &&& final(self)@ == old(self)@.advanced(step)
            },
            final(self)@.safe(),
    {
        if self.agenda.len() == 0 {
            return Action::Idle;
        }
        let ghost before = self@;
        proof {
            advancing_is_safe(before, now, monotonic);
        }
        let op = self.agenda.remove(0);
        assert(op@ == before.agenda[0]);
        assert(views(self.agenda@) =~= before.agenda.skip(1));
        match op {
            Op::EnsureConnection
            | Op::SettleSession(_)
            | Op::SendAttempt
            | Op::MarkUncertain
            | Op::AbandonSubmission
            | Op::RetryConnection(_)
            | Op::PauseAfterFailure(_)
            | Op::FatalAfterFailure(_)
            | Op::AfterDisconnect(_, _)
            | Op::CloseTimedOutTurn
            | Op::Warn(_)
            | Op::Configure(_)
            | Op::Start => {
                let ops = plan_op(&mut self.core, op, now, monotonic);
                self.prepend(ops);
                Action::Continue
            },
            Op::SaveCritical => {
                if self.core.has_store {
                    self.awaiting = Awaiting::CriticalSave;
                    assert(self@.agenda =~= before.advanced(
                        before.core.step(op@, now, monotonic),
                    ).agenda);
                    Action::SaveState(self.core.saved_state())
                } else {
                    let ops = and_op(Vec::new(), Op::Submit);
                    assert(views(ops@) =~= seq![OpView::Submit]);
                    self.prepend(ops);
                    Action::Continue
                }
            },
            op => {
                let (action, awaiting) = request_op(&mut self.core, op, now, monotonic);
                self.awaiting = awaiting;
                assert(self@.agenda =~= before.advanced(
                    before.core.step(op@, now, monotonic),
                ).agenda);
                action
            },
        }
    }

    /// The state was saved, or not.
    pub fn state_saved(&mut self, failure: Option<String>)
        requires
            old(self)@.safe(),
            old(self)@.awaiting is Save || old(self)@.awaiting is CriticalSave,
        ensures
            final(self)@ == old(self)@.planned(
                if old(self)@.awaiting is CriticalSave {
                    old(self)@.core.critical_saved(opt(failure))
                } else {
                    old(self)@.core.state_saved(opt(failure))
                },
            ),
            final(self)@.safe(),
    {
        proof {
            if self@.awaiting is CriticalSave {
                critical_saved_is_safe(self@, opt(failure));
            } else {
                saved_is_safe(self@, opt(failure));
            }
        }
        let ops = match self.awaiting {
            Awaiting::CriticalSave => self.core.critical_saved(&failure),
            _ => self.core.state_saved(&failure),
        };
        self.answer(ops);
    }

    /// The configuration was saved, or not.
    pub fn config_saved(&mut self, failure: Option<String>)
        requires
            old(self)@.safe(),
            old(self)@.awaiting is ConfigSave,
        ensures
            final(self)@ == old(self)@.planned(old(self)@.core.config_saved(opt(failure))),
            final(self)@.safe(),
    {
        proof {
            saving_only_warns(self@.core, opt(failure));
            planning_is_safe(self@, self@.core.config_saved(opt(failure)));
        }
        let ops = self.core.config_saved(&failure);
        self.answer(ops);
    }

    /// The status of the carrier was read.
    pub fn status_read(&mut self, status: TransportStatus)
        requires
            old(self)@.safe(),
            old(self)@.awaiting is Status,
        ensures
            final(self)@ == (RuntimeView {
                core: old(self)@.core.with_snap(old(self)@.core.snap().with_transport(status@)),
                awaiting: AwaitingView::Nothing,
                ..old(self)@
            }),
            final(self)@.safe(),
    {
        self.core.machine.set_transport_status(status);
        self.awaiting = Awaiting::Nothing;
    }

    /// The carrier was shut down and has the given status.
    pub fn shut_down(&mut self, status: TransportStatus)
        requires
            old(self)@.safe(),
            old(self)@.awaiting is Shutdown,
        ensures
            final(self)@ == (RuntimeView {
                core: CoreView {
                    connected: false,
                    ..old(self)@.core.with_snap(old(self)@.core.snap().with_transport(status@))
                },
                awaiting: AwaitingView::Nothing,
                ..old(self)@
            }),
            final(self)@.safe(),
    {
        self.core.connected = false;
        self.core.machine.set_transport_status(status);
        self.awaiting = Awaiting::Nothing;
    }

    /// The carrier answered the request to connect.
    pub fn connect_answered(
        &mut self,
        answer: Result<(), TransportError>,
        now: i128,
        monotonic: u128,
    )
        requires
            old(self)@.safe(),
            old(self)@.awaiting is Connect,
            clocks_usable(now, monotonic),
        ensures
            final(self)@ == old(self)@.planned(
                old(self)@.core.connect_answered(
                    match answer {
                        Ok(_) => None,
                        Err(error) => Some(error@),
                    },
                    now,
                    monotonic,
                ),
            ),
            final(self)@.safe(),
    {
        proof {
            let failure = match &answer {
                Ok(_) => None,
                Err(error) => Some(error@),
            };
            answers_are_plain(self@.core, failure, arbitrary(), arbitrary(), now, monotonic);
            planning_is_safe(self@, self@.core.connect_answered(failure, now, monotonic));
        }
        let ops = self.core.connect_answered(answer, now, monotonic);
        self.answer(ops);
    }

    /// The carrier answered the request for the thread.
    pub fn thread_answered(
        &mut self,
        answer: Result<ThreadSession, TransportError>,
        now: i128,
        monotonic: u128,
    )
        requires
            old(self)@.safe(),
            old(self)@.awaiting is Thread,
            clocks_usable(now, monotonic),
        ensures
            final(self)@ == old(self)@.planned(
                old(self)@.core.thread_answered(
                    match answer {
                        Ok(session) => Ok(session@),
                        Err(error) => Err(error@),
                    },
                    now,
                    monotonic,
                ),
            ),
            final(self)@.safe(),
    {
        proof {
            let content = match &answer {
                Ok(session) => Ok(session@),
                Err(error) => Err(error@),
            };
            answers_are_plain(self@.core, arbitrary(), content, arbitrary(), now, monotonic);
            planning_is_safe(self@, self@.core.thread_answered(content, now, monotonic));
        }
        let ops = match answer {
            Ok(session) => self.core.thread_opened(session, now, monotonic),
            Err(error) => {
                self.core.reset_wake_baseline(now, monotonic);
                self.core.handle_transport_failure(error, now)
            },
        };
        self.answer(ops);
    }

    /// The carrier answered the request to start a turn.
    pub fn turn_answered(
        &mut self,
        answer: Result<StartedTurn, TransportError>,
        now: i128,
        monotonic: u128,
    )
        requires
            old(self)@.safe(),
            old(self)@.awaiting is Turn,
            clocks_usable(now, monotonic),
        ensures
            final(self)@ == old(self)@.planned(
                old(self)@.core.turn_answered(
                    match answer {
                        Ok(turn) => Ok(turn@),
                        Err(error) => Err(error@),
                    },
                    now,
                    monotonic,
                ),
            ),
            final(self)@.safe(),
    {
        proof {
            let content = match &answer {
                Ok(turn) => Ok(turn@),
                Err(error) => Err(error@),
            };
            answers_are_plain(self@.core, arbitrary(), arbitrary(), content, now, monotonic);
            planning_is_safe(self@, self@.core.turn_answered(content, now, monotonic));
        }
        let ops = self.core.turn_answered(answer, now, monotonic);
        self.answer(ops);
    }

    /// The turn was interrupted, or the request for it failed or took too long.
    pub fn interrupted(&mut self, now: i128, monotonic: u128)
        requires
            old(self)@.safe(),
            old(self)@.awaiting is Interrupt,
            valid_time(now as int),
        ensures
            final(self)@ == (RuntimeView {
                core: old(self)@.core.clocks_read(now, monotonic),
                awaiting: AwaitingView::Nothing,
                ..old(self)@
            }),
            final(self)@.safe(),
    {
        self.core.reset_wake_baseline(now, monotonic);
        self.awaiting = Awaiting::Nothing;
    }

    /// The jittered delay before the retry was drawn, in seconds.
    pub fn delay_drawn(&mut self, drawn_secs: u64, now: i128)
        requires
            old(self)@.safe(),
            old(self)@.awaiting is Delay,
            valid_time(now as int),
            valid_time(now + span(RetryPolicy::delay(drawn_secs))),
        ensures
            final(self)@ == old(self)@.planned(
                old(self)@.core.delay_drawn(old(self)@.awaiting->Delay_0, drawn_secs, now),
            ),
            final(self)@.safe(),
    {
        proof {
            planning_is_safe(
                self@,
                self@.core.delay_drawn(self@.awaiting->Delay_0, drawn_secs, now),
            );
        }
        let reason = match &self.awaiting {
            Awaiting::Delay(reason) => reason.clone(),
            _ => String::new(),
        };
        let ops = self.core.delay_drawn(reason.as_str(), drawn_secs, now);
        self.answer(ops);
    }

    /// Does what a command leads to; tells whether the controller goes on.
    fn obey(&mut self, command: RuntimeCommand, now: i128, monotonic: u128) -> (r: bool)
        requires
            old(self)@.safe(),
            old(self)@.at_rest(),
            valid_time(now as int),
            command@ is Wake && old(self)@.core.snap().delayable() ==> valid_time(
                now + span(old(self)@.core.config.retry_policy.wake_secs()),
            ),
            monotonic <= MAX_MONOTONIC,
        ensures
            r == !(command@ is Shutdown),
            final(self)@ == old(self)@.planned(
                commanded(old(self)@.core, command@, now, monotonic),
            ),
            final(self)@.safe(),
    {
        match command {
            RuntimeCommand::Configure(config) => {
                proof {
                    assert(commanded(self@.core, CommandView::Configure(config@), now, monotonic)
                        == self@.core.configure(config@)) by {
                        reveal(commanded);
                    }
                }
                let _ = self.handle_configure(config);
                true
            },
            RuntimeCommand::StartConfigured(config) => {
                proof {
                    assert(commanded(self@.core, CommandView::StartConfigured(config@), now, monotonic)
                        == self@.core.start_configured(config@)) by {
                        reveal(commanded);
                    }
                    commands_are_plain(self@.core, config@);
                    planning_is_safe(self@, self@.core.start_configured(config@));
                }
                let ops = self.core.handle_start_configured(config);
                self.answer(ops);
                true
            },
            RuntimeCommand::Start => {
                proof {
                    assert(commanded(self@.core, CommandView::Start, now, monotonic)
                        == self@.core.start()) by {
                        reveal(commanded);
                    }
                    commands_are_plain(self@.core, self@.core.config);
                    planning_is_safe(self@, self@.core.start());
                }
                let ops = self.core.handle_start();
                self.answer(ops);
                true
            },
            RuntimeCommand::Pause => {
                proof {
                    assert(commanded(self@.core, CommandView::Pause, now, monotonic)
                        == self@.core.pause()) by {
                        reveal(commanded);
                    }
                    commands_are_plain(self@.core, self@.core.config);
                    planning_is_safe(self@, self@.core.pause());
                }
                let ops = self.core.handle_pause();
                self.answer(ops);
                true
            },
            RuntimeCommand::Stop => {
                proof {
                    assert(commanded(self@.core, CommandView::Stop, now, monotonic)
                        == self@.core.stop()) by {
                        reveal(commanded);
                    }
                    commands_are_plain(self@.core, self@.core.config);
                    planning_is_safe(self@, self@.core.stop());
                }
                let ops = self.core.handle_stop();
                self.answer(ops);
                true
            },
            RuntimeCommand::Wake => {
                proof {
                    assert(commanded(self@.core, CommandView::Wake, now, monotonic) == (Plan {
                        core: self@.core.woken(now, monotonic).core.clocks_read(now, monotonic),
                        ops: self@.core.woken(now, monotonic).ops,
                    })) by {
                        reveal(commanded);
                    }
                    clocks_are_plain(self@.core, now, monotonic);
                    let plan = self@.core.woken(now, monotonic);
                    planning_is_safe(
                        self@,
                        Plan { core: plan.core.clocks_read(now, monotonic), ops: plan.ops },
                    );
                }
                let (_, ops) = self.core.apply_wake_delay(now, monotonic);
                self.core.reset_wake_baseline(now, monotonic);
                self.answer(ops);
                true
            },
            RuntimeCommand::Shutdown => {
                proof {
                    assert(commanded(self@.core, CommandView::Shutdown, now, monotonic)
                        == self@.core.do_next(Seq::empty())) by {
                        reveal(commanded);
                    }
                }
                assert(Seq::<OpView>::empty() + self@.agenda =~= self@.agenda);
                false
            },
        }
    }

    /// The user asks something of the queue; tells whether the controller goes on.
    pub fn handle_command(&mut self, command: RuntimeCommand, now: i128, monotonic: u128) -> (r:
        bool)
        requires
            old(self)@.safe(),
            old(self)@.at_rest(),
            valid_time(now as int),
            command@ is Wake && old(self)@.core.snap().delayable() ==> valid_time(
                now + span(old(self)@.core.config.retry_policy.wake_secs()),
            ),
            monotonic <= MAX_MONOTONIC,
        ensures
            r == !(command@ is Shutdown),
            final(self)@ == old(self)@.planned(
                match command@ {
                    CommandView::Configure(config) => old(self)@.core.configure(config),
                    CommandView::StartConfigured(config) => old(self)@.core.start_configured(
                        config,
                    ),
                    CommandView::Start => old(self)@.core.start(),
                    CommandView::Pause => old(self)@.core.pause(),
                    CommandView::Stop => old(self)@.core.stop(),
                    CommandView::Wake => {
                        let plan = old(self)@.core.woken(now, monotonic);
                        Plan { core: plan.core.clocks_read(now, monotonic), ops: plan.ops }
                    },
                    CommandView::Shutdown => old(self)@.core.do_next(Seq::empty()),
                },
            ),
            final(self)@ == old(self)@.planned(
                commanded(old(self)@.core, command@, now, monotonic),
            ),
            final(self)@.safe(),
    {
        proof {
            reveal(commanded);
        }
        self.obey(command, now, monotonic)
    }

    /// The user changes the configuration; tells whether it is taken over as it is.
    pub fn handle_configure(&mut self, config: QueueConfig) -> (r: bool)
        requires
            old(self)@.safe(),
            old(self)@.at_rest(),
        ensures
            r == old(self)@.core.configure_accepted(config@),
            final(self)@ == old(self)@.planned(old(self)@.core.configure(config@)),
            final(self)@.safe(),
    {
        proof {
            commands_are_plain(self@.core, config@);
            planning_is_safe(self@, self@.core.configure(config@));
        }
        let (accepted, ops) = self.core.handle_configure(config);
        self.answer(ops);
        accepted
    }

    /// Whether the program listens for what the carrier reports.
    pub fn wants_events(&self) -> (r: bool)
        ensures
            r == (self@.core.started && self@.core.connected),
    {
        self.core.started && self.core.connected
    }

    /// The carrier reports something.
    pub fn handle_event(&mut self, event: TransportEvent, now: i128, monotonic: u128)
        requires
            old(self)@.safe(),
            old(self)@.at_rest(),
            clocks_usable(now, monotonic),
        ensures
            final(self)@ == old(self)@.planned(old(self)@.core.event(event@, now, monotonic)),
            final(self)@.safe(),
    {
        proof {
            events_are_plain(self@.core, event@, now, monotonic);
            planning_is_safe(self@, self@.core.event(event@, now, monotonic));
        }
        let ops = self.core.handle_event(event, now, monotonic);
        self.answer(ops);
    }

    /// The carrier will report nothing more.
    pub fn events_ended(&mut self)
        requires
            old(self)@.safe(),
            old(self)@.at_rest(),
        ensures
            final(self)@ == old(self)@.planned(
                old(self)@.core.disconnected("app-server event stream closed"@),
            ),
            final(self)@.safe(),
    {
        let ops = self.core.handle_disconnect("app-server event stream closed".to_owned());
        self.answer(ops);
    }

    /// Looks at the clocks; tells whether the machine slept and that changes anything.
    pub fn observe_wake(&mut self, now: i128, monotonic: u128) -> (r: bool)
        requires
            old(self)@.safe(),
            old(self)@.at_rest(),
            valid_time(now as int),
            old(self)@.core.sleep_ends(now, monotonic) && old(self)@.core.snap().delayable()
                ==> valid_time(now + span(old(self)@.core.config.retry_policy.wake_secs())),
            monotonic <= MAX_MONOTONIC,
        ensures
            ({
                let read = old(self)@.core.clocks_read(now, monotonic);
                let asleep = old(self)@.core.sleep_ends(now, monotonic);
                &&& r == (asleep && read.wake_matters())
                &&& final(self)@ == old(self)@.planned(
                    if asleep {
                        read.woken(now, monotonic)
                    } else {
                        read.do_next(Seq::empty())
                    },
                )
            }),
            final(self)@.safe(),
            !r ==> final(self)@.at_rest() && final(self)@.core == old(self)@.core.clocks_read(
                now,
                monotonic,
            ),
    {
        let ghost before = self@;
        proof {
            let read = self@.core.clocks_read(now, monotonic);
            clocks_are_plain(read, now, monotonic);
            planning_is_safe(self@, read.woken(now, monotonic));
            planning_is_safe(self@, read.do_next(Seq::empty()));
        }
        if !self.core.wake_detector.observe(now, monotonic) {
            assert(Seq::<OpView>::empty() + before.agenda =~= before.agenda);
            return false;
        }
        let (changed, ops) = self.core.apply_wake_delay(now, monotonic);
        self.answer(ops);
        assert(self@.agenda =~= before.core.clocks_read(now, monotonic).woken(now, monotonic).ops);
        changed
    }

    /// The deadline has passed: after a sleep the clocks are put right, else it
    /// is acted upon.
    pub fn handle_deadline(&mut self, now: i128, monotonic: u128)
        requires
            old(self)@.safe(),
            old(self)@.at_rest(),
            valid_time(now as int),
            old(self)@.core.sleep_ends(now, monotonic) && old(self)@.core.snap().delayable()
                ==> valid_time(now + span(old(self)@.core.config.retry_policy.wake_secs())),
            monotonic <= MAX_MONOTONIC,
        ensures
            final(self)@ == old(self)@.planned(
                deadline_reached(old(self)@.core, now, monotonic),
            ),
            final(self)@.safe(),
    {
        if !self.observe_wake(now, monotonic) {
            proof {
                clocks_are_plain(self@.core, now, monotonic);
                planning_is_safe(self@, self@.core.deadline_passed());
            }
            let ops = self.core.handle_deadline();
            self.answer(ops);
        }
    }

    /// When the program has to wake the controller, on the monotonic clock: the
    /// limit of the turn under way, else when the next attempt is due.
    pub fn next_deadline(&self, now: i128, monotonic: u128) -> (r: Option<u128>)
        requires
            valid_time(now as int),
            monotonic <= MAX_MONOTONIC,
        ensures
            r == due(self@.core, now, monotonic),
    {
        if self.core.turn_deadline.is_some() {
            return self.core.turn_deadline;
        }
        match self.core.machine.snapshot.next_attempt_at {
            Some(next) => {
                if next < now {
                    Some(monotonic)
                } else {
                    let wait: u128 = if now >= 0 {
                        (next - now) as u128
                    } else if next >= 0 {
                        next as u128 + (-now) as u128
                    } else {
                        (next - now) as u128
                    };
                    Some(
                        if wait <= u128::MAX - monotonic {
                            monotonic + wait
                        } else {
                            u128::MAX
                        },
                    )
                }
            },
            None => None,
        }
    }
}

/// Does a thing that needs nothing from outside.
fn plan_op(core: &mut RuntimeCore, op: Op, now: i128, monotonic: u128) -> (r: Vec<Op>)
    requires
        clocks_usable(now, monotonic),
    ensures
        final(core)@ == old(core)@.plan_of(op@, now, monotonic).core,
        views(r@) == old(core)@.plan_of(op@, now, monotonic).ops,
{
    reveal(CoreView::plan_of);
    match op {
        Op::EnsureConnection => core.ensure_connection_and_thread(),
        Op::SettleSession(latest_turn) => core.apply_thread_session(latest_turn, now, monotonic),
        Op::SendAttempt => core.send_attempt(now),
        Op::MarkUncertain => core.mark_uncertain(),
        Op::AbandonSubmission => core.abandon_submission(),
        Op::RetryConnection(reason) => core.schedule_connection_retry(reason.as_str(), now),
        Op::PauseAfterFailure(reason) => core.pause_after_failure(reason.as_str()),
        Op::FatalAfterFailure(reason) => core.fatal_after_failure(reason.as_str()),
        Op::AfterDisconnect(message, preserve) => core.after_disconnect(message.as_str(), preserve),
        Op::CloseTimedOutTurn => core.close_timed_out_turn(),
        Op::Configure(config) => core.handle_configure_and_start(config),
        Op::Start => core.handle_start(),
        Op::Warn(warning) => {
            core.machine.set_runtime_warning(warning);
            let ops: Vec<Op> = Vec::new();
            assert(views(ops@) =~= Seq::<OpView>::empty());
            ops
        },
        _ => {
            let ops: Vec<Op> = Vec::new();
            assert(views(ops@) =~= Seq::<OpView>::empty());
            ops
        },
    }
}

/// Whether a thing to do is a request to the surrounding program that is
/// followed by nothing else.
spec fn plain_request(op: OpView) -> bool {
    ||| op is Publish
    ||| op is Save
    ||| op is SaveConfig
    ||| op is AllowFallback
    ||| op is HideWindow
    ||| op is RefreshStatus
    ||| op is Shutdown
    ||| op is Connect
    ||| op is OpenThread
    ||| op is Submit
    ||| op is Interrupt
    ||| op is Notify
    ||| op is Retry
    ||| op is Abort
}

/// Makes a request to the surrounding program.
fn request_op(core: &mut RuntimeCore, op: Op, now: i128, monotonic: u128) -> (r: (Action, Awaiting))
    requires
        plain_request(op@),
    ensures
        ({
            let step = old(core)@.step(op@, now, monotonic);
            &&& final(core)@ == step.core
            &&& step.ops == Seq::<OpView>::empty()
            &&& r.0@ == step.action
            &&& r.1@ == step.awaiting
        }),
{
    match op {
        Op::Publish => (Action::Publish(core.machine.snapshot.copy()), Awaiting::Nothing),
        Op::Save => {
            if core.has_store {
                (Action::SaveState(core.saved_state()), Awaiting::Save)
            } else {
                (Action::Continue, Awaiting::Nothing)
            }
        },
        Op::SaveConfig => {
            if core.has_store {
                (Action::SaveConfig(core.config.copy()), Awaiting::ConfigSave)
            } else {
                (Action::Continue, Awaiting::Nothing)
            }
        },
        Op::AllowFallback(allowed) => (Action::AllowFallback(allowed), Awaiting::Nothing),
        Op::HideWindow => (Action::HideWindow, Awaiting::Nothing),
        Op::RefreshStatus => (Action::ReadStatus, Awaiting::Status),
        Op::Shutdown => (Action::Shutdown, Awaiting::Shutdown),
        Op::Connect => (Action::Connect, Awaiting::Connect),
        Op::OpenThread => {
            let working_directory = copy_opt(&core.config.working_directory);
            match &core.machine.snapshot.active_thread_id {
                Some(thread_id) => (
                    Action::ResumeThread { thread_id: thread_id.clone(), working_directory },
                    Awaiting::Thread,
                ),
                None => (Action::StartThread { working_directory }, Awaiting::Thread),
            }
        },
        Op::Submit => match &core.machine.snapshot.active_thread_id {
            Some(thread_id) => (
                Action::StartTurn {
                    thread_id: thread_id.clone(),
                    prompt: core.config.prompt.clone(),
                    working_directory: copy_opt(&core.config.working_directory),
                },
                Awaiting::Turn,
            ),
            None => (Action::Fail(Fault::MissingThread), Awaiting::Nothing),
        },
        Op::Interrupt(thread_id, turn_id) => (
            Action::Interrupt { thread_id, turn_id },
            Awaiting::Interrupt,
        ),
        Op::Notify => (Action::Notify(core.notice()), Awaiting::Nothing),
        Op::Retry(reason) => {
            let policy = core.config.retry_policy;
            let retry_number: u32 = core.schedule_retry(reason.as_str());
            (Action::DrawDelay { policy, retry_number }, Awaiting::Delay(reason))
        },
        Op::Abort(fault) => (Action::Fail(fault), Awaiting::Nothing),
        _ => (Action::Continue, Awaiting::Nothing),
    }
}

} // verus!
