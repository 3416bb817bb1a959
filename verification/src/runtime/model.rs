//! What the controller does, as functions from state and event to the next
//! state and what remains to be done.

use vstd::prelude::*;

use crate::backoff::{recent_attempts, slept, RetryPolicy, WakeDetector};
use crate::classifier::{
    completion_decision, notification_decision, CompletedStatus, DecisionView, ErrorView,
};

use crate::config::{config_error_text, digest_of, ConfigView, StateView};
use crate::json::{compact, field, JsonView};
use crate::paths::{same_opt_path_as, same_path_as, PathStyle};
use crate::queue::{counted_u32, MachineView, QueuePhase, SnapshotView};
use crate::text::{begins, blank, decimal, joined, occurs, trimmed, words};
use crate::transport::{failure_text, EventView, FailureView, SessionView, TurnStatus, TurnView};

verus! {

/// What cannot happen while the controller's invariant holds.
#[derive(Clone, Copy, Debug, PartialEq, Eq, Structural)]
pub enum Fault {
    TurnAlreadyActive,
    MissingThread,
}

/// One thing that the controller has to do, by its content.
pub enum OpView {
    Publish,
    Save,
    SaveCritical,
    SaveConfig,
    AllowFallback(bool),
    HideWindow,
    RefreshStatus,
    Shutdown,
    Connect,
    OpenThread,
    Submit,
    Interrupt(Seq<char>, Seq<char>),
    Notify,
    EnsureConnection,
    SettleSession(Option<TurnView>),
    SendAttempt,
    MarkUncertain,
    AbandonSubmission,
    Retry(Seq<char>),
    RetryConnection(Seq<char>),
    PauseAfterFailure(Seq<char>),
    FatalAfterFailure(Seq<char>),
    AfterDisconnect(Seq<char>, bool),
    CloseTimedOutTurn,
    Warn(Seq<char>),
    Configure(ConfigView),
    Start,
    Abort(Fault),
}

/// What the surrounding program is asked to do, by its content.
pub enum ActionView {
    Idle,
    Continue,
    Publish(SnapshotView),
    SaveState(StateView),
    SaveConfig(ConfigView),
    AllowFallback(bool),
    HideWindow,
    ReadStatus,
    Shutdown,
    Connect,
    StartThread { working_directory: Option<Seq<char>> },
    ResumeThread { thread_id: Seq<char>, working_directory: Option<Seq<char>> },
    StartTurn { thread_id: Seq<char>, prompt: Seq<char>, working_directory: Option<Seq<char>> },
    Interrupt { thread_id: Seq<char>, turn_id: Seq<char> },
    DrawDelay { policy: RetryPolicy, retry_number: u32 },
    Notify(NoticeView),
    Fail(Fault),
}

/// What is announced when a task is done, by its content.
pub struct NoticeView {
    pub title: Seq<char>,
    pub body: Seq<char>,
    pub thread_id: Option<Seq<char>>,
    pub codex_path: Seq<char>,
    pub flash: bool,
    pub audio: bool,
}

/// What the controller waits for, by its content.
pub enum AwaitingView {
    Nothing,
    Save,
    CriticalSave,
    ConfigSave,
    Status,
    Shutdown,
    Connect,
    Thread,
    Turn,
    Interrupt,
    Delay(Seq<char>),
}

/// The state of the controller, by its content.
pub struct CoreView {
    pub config: ConfigView,
    pub machine: MachineView,
    pub has_store: bool,
    /// How paths are written.
    pub style: PathStyle,
    pub wake_detector: WakeDetector,
    pub started: bool,
    pub connected: bool,
    pub connection_failures: u32,
    pub turn_deadline: Option<u128>,
    pub success_notified: bool,
    pub state_failures: u32,
    pub config_failed: bool,
}

/// A new state and what is to be done next, before anything else.
pub struct Plan {
    pub core: CoreView,
    pub ops: Seq<OpView>,
}

/// What one step gives: a plan, an action for the surrounding program and what
/// is then waited for.
pub struct Step {
    pub core: CoreView,
    pub ops: Seq<OpView>,
    pub action: ActionView,
    pub awaiting: AwaitingView,
}

/// Show the snapshot and save the state.
pub open spec fn save_ops() -> Seq<OpView> {
    seq![OpView::Publish, OpView::Save]
}

/// The text that stands for an error in the conversation.
pub open spec fn conversation_error(error: ErrorView) -> Seq<char> {
    let message = trimmed(error.message);
    let details = match error.additional_details {
        Some(text) => trimmed(text),
        None => Seq::empty(),
    };
    if message.len() > 0 && details.len() > 0 && !occurs(message, details) {
        message + "\n\n"@ + details
    } else if message.len() > 0 {
        message
    } else if details.len() > 0 {
        details
    } else {
        "Codex 返回了未说明原因的错误"@
    }
}

/// A text in one line, cut after a number of characters.
pub open spec fn one_line(text: Seq<char>, max_chars: int) -> Seq<char> {
    let line = joined(words(text), " "@);
    if line.len() == 0 {
        "任务已完成"@
    } else if line.len() > max_chars {
        line.take(max_chars).push('…')
    } else {
        line
    }
}

/// The delay before the connection is tried again, in seconds.
pub open spec fn connection_delay(failures: u32) -> u32 {
    if failures <= 1 {
        5
    } else if failures == 2 {
        15
    } else {
        60
    }
}

/// The error that a refused request stands for.
pub open spec fn rpc_error(message: Seq<char>, data: Option<JsonView>) -> ErrorView {
    ErrorView {
        message,
        additional_details: match data {
            Some(json) => Some(compact(json)),
            None => None,
        },
        codex_error_info: match data {
            Some(json) => match field(json, "codexErrorInfo"@) {
                Some(info) => Some(info),
                None => Some(json),
            },
            None => None,
        },
    }
}

/// How the end of a turn is classified.
pub open spec fn completed_status(status: TurnStatus) -> CompletedStatus {
    match status {
        TurnStatus::Completed => CompletedStatus::Completed,
        TurnStatus::Interrupted => CompletedStatus::Interrupted,
        TurnStatus::Failed => CompletedStatus::Failed,
        TurnStatus::InProgress => CompletedStatus::InProgress,
    }
}

impl CoreView {
    /// What the display shows.
    pub open spec fn snap(self) -> SnapshotView {
        self.machine.snapshot
    }

    /// The state with another snapshot.
    pub open spec fn with_snap(self, snapshot: SnapshotView) -> CoreView {
        CoreView { machine: self.machine.with(snapshot), ..self }
    }

    /// The state with another deadline of the turn.
    pub open spec fn with_deadline(self, deadline: Option<u128>) -> CoreView {
        CoreView { turn_deadline: deadline, ..self }
    }

    /// The state, followed by things to do.
    pub open spec fn do_next(self, ops: Seq<OpView>) -> Plan {
        Plan { core: self, ops }
    }

    /// The state, shown and saved.
    pub open spec fn saving(self) -> Plan {
        self.do_next(save_ops())
    }

    /// The clocks were read without asking whether the machine slept.
    pub open spec fn clocks_read(self, now: i128, monotonic: u128) -> CoreView {
        CoreView { wake_detector: WakeDetector { wall: now, monotonic }, ..self }
    }

    /// The deadline of a turn that begins now.
    pub open spec fn turn_limit(self, monotonic: u128) -> Option<u128> {
        Some((monotonic + self.config.turn_timeout_secs * 1_000_000_000) as u128)
    }

    /// The user sets the queue going.
    #[verifier::opaque]
    pub open spec fn start(self) -> Plan {
        if self.started || self.snap().phase == QueuePhase::Success {
            self.do_next(Seq::empty())
        } else {
            match self.config.problem() {
                Some(error) => self.with_snap(
                    self.snap().paused("配置无效："@ + config_error_text(error)),
                ).saving(),
                None => {
                    let phase = self.snap().phase;
                    let snapshot = if phase == QueuePhase::Paused || phase == QueuePhase::FatalError
                        || phase == QueuePhase::Idle {
                        self.snap().reactivated()
                    } else {
                        self.snap()
                    };
                    (CoreView {
                        started: true,
                        success_notified: false,
                        ..self.with_snap(snapshot)
                    }).do_next(seq![OpView::Publish, OpView::Save, OpView::EnsureConnection])
                },
            }
        }
    }

    /// Whether a task is under way whose text and parameters are fixed.
    pub open spec fn task_locked(self) -> bool {
        self.started || self.snap().active_turn_id is Some || self.snap().submission_uncertain
    }

    /// The configuration in force with the switches of another that may change
    /// at any time.
    pub open spec fn live_settings(self, config: ConfigView) -> ConfigView {
        ConfigView {
            gui_fallback_enabled: config.gui_fallback_enabled,
            full_screen_flash_enabled: config.full_screen_flash_enabled,
            audio_alert_enabled: config.audio_alert_enabled,
            ..self.config
        }
    }

    /// Whether another configuration asks for another task.
    pub open spec fn task_changed(self, config: ConfigView) -> bool {
        config.prompt != self.config.prompt || !same_opt_path_as(
            config.working_directory,
            self.config.working_directory,
            self.style,
        )
    }

    /// Whether the user's configuration is taken over as it is.
    pub open spec fn configure_accepted(self, config: ConfigView) -> bool {
        if config.equal(self.config, self.style) {
            true
        } else if self.task_locked() {
            self.live_settings(config).equal(config, self.style)
        } else if self.task_changed(config) && self.snap().active_thread_id is Some {
            false
        } else {
            config.problem() is None && same_path_as(
                config.codex_path,
                self.config.codex_path,
                self.style,
            )
        }
    }

    /// The user changes the configuration.
    #[verifier::opaque]
    pub open spec fn configure(self, config: ConfigView) -> Plan {
        if config.equal(self.config, self.style) {
            self.do_next(Seq::empty())
        } else if self.task_locked() {
            let warning = if self.live_settings(config).equal(config, self.style) {
                Seq::empty()
            } else {
                seq![
                    OpView::Warn(
                        "任务运行中：提醒与兼容开关已生效，任务内容和重试参数需停止后修改"@,
                    ),
                ]
            };
            (CoreView { config: self.live_settings(config), ..self }).do_next(
                seq![OpView::AllowFallback(config.gui_fallback_enabled), OpView::SaveConfig]
                    + warning + save_ops(),
            )
        } else if self.task_changed(config) && self.snap().active_thread_id is Some {
            self.with_snap(
                self.snap().with_status(
                    "更换任务或工作目录前请先点击“停止”，以创建新的持久线程"@,
                ),
            ).saving()
        } else if config.problem() is Some {
            self.with_snap(
                self.snap().with_status(
                    "配置无效："@ + config_error_text(config.problem()->0),
                ),
            ).saving()
        } else if !same_path_as(config.codex_path, self.config.codex_path, self.style) {
            (CoreView {
                config,
                ..self.with_snap(
                    self.snap().with_status("Codex 路径已保存；请重启 Longwatch 后再开始"@),
                )
            }).do_next(seq![OpView::SaveConfig, OpView::Publish, OpView::Save])
        } else {
            (CoreView { config, ..self }).do_next(
                seq![
                    OpView::AllowFallback(config.gui_fallback_enabled),
                    OpView::HideWindow,
                    OpView::SaveConfig,
                    OpView::Publish,
                    OpView::Save,
                ],
            )
        }
    }

    /// The user changes the configuration and sets the queue going with it.
    pub open spec fn configure_and_start(self, config: ConfigView) -> Plan {
        let plan = self.configure(config);
        if self.configure_accepted(config) {
            Plan { core: plan.core, ops: plan.ops + seq![OpView::Start] }
        } else {
            plan
        }
    }

    /// A task that is done is given up before the next one is configured.
    pub open spec fn start_configured(self, config: ConfigView) -> Plan {
        if self.snap().phase == QueuePhase::Success {
            let plan = self.stop();
            Plan { core: plan.core, ops: plan.ops + seq![OpView::Configure(config)] }
        } else {
            self.configure_and_start(config)
        }
    }

    /// The request that interrupts the turn under way, where there is one.
    pub open spec fn interruption(self) -> Seq<OpView> {
        match (self.snap().active_thread_id, self.snap().active_turn_id) {
            (Some(thread_id), Some(turn_id)) => seq![OpView::Interrupt(thread_id, turn_id)],
            _ => Seq::empty(),
        }
    }

    /// The user pauses the queue.
    pub open spec fn pause(self) -> Plan {
        (CoreView {
            started: false,
            turn_deadline: None,
            ..self.with_snap(self.snap().paused("已暂停；不会自动发送新的回合"@))
        }).do_next(save_ops() + self.interruption())
    }

    /// The user gives the task up.
    pub open spec fn stop(self) -> Plan {
        (CoreView {
            started: false,
            turn_deadline: None,
            ..self.with_snap(self.snap().stopped())
        }).do_next(save_ops() + self.interruption() + seq![OpView::Shutdown])
    }

    /// The carrier and the thread are needed.
    pub open spec fn ensure_connection(self) -> Plan {
        if self.connected {
            self.do_next(seq![OpView::OpenThread])
        } else {
            self.with_snap(self.snap().connecting()).do_next(
                seq![OpView::Publish, OpView::Save, OpView::Connect],
            )
        }
    }

    /// The carrier answered the request to connect.
    pub open spec fn connect_answered(
        self,
        failure: Option<FailureView>,
        now: i128,
        monotonic: u128,
    ) -> Plan {
        let core = self.clocks_read(now, monotonic);
        match failure {
            Some(failure) => core.transport_failed(failure, now),
            None => (CoreView { connected: true, ..core }).do_next(
                seq![OpView::RefreshStatus, OpView::Publish, OpView::Save, OpView::OpenThread],
            ),
        }
    }

    /// The thread was opened.
    pub open spec fn thread_opened(self, session: SessionView, now: i128, monotonic: u128) -> Plan {
        let core = self.clocks_read(now, monotonic);
        (CoreView {
            connection_failures: 0,
            ..core.with_snap(core.snap().with_thread(session.id))
        }).do_next(
            seq![OpView::Publish, OpView::Save, OpView::SettleSession(session.latest_turn)],
        )
    }

    /// The carrier answered the request for the thread.
    pub open spec fn thread_answered(
        self,
        answer: Result<SessionView, FailureView>,
        now: i128,
        monotonic: u128,
    ) -> Plan {
        match answer {
            Ok(session) => self.thread_opened(session, now, monotonic),
            Err(failure) => self.clocks_read(now, monotonic).transport_failed(failure, now),
        }
    }

    /// Whether an earlier request may still be under way.
    pub open spec fn maybe_submitted(self) -> bool {
        self.snap().active_turn_id is Some || self.snap().submission_uncertain || self.snap().phase
            == QueuePhase::Sending || self.snap().phase == QueuePhase::Waiting
    }

    /// The state with the turn that the server reports as the active one.  The
    /// server knows better than what was persisted.
    pub open spec fn adopt_turn(self, turn_id: Seq<char>, monotonic: u128) -> CoreView {
        let cleared = if self.snap().active_turn_id != Some(turn_id) {
            self.snap().without_turn().with_preview(""@)
        } else {
            self.snap()
        };
        self.with_snap(cleared.with_uncertainty(false).with_turn(turn_id)).with_deadline(
            self.turn_limit(monotonic),
        )
    }

    /// What follows once the thread is open, by its latest turn.
    #[verifier::opaque]
    pub open spec fn settle_session(
        self,
        latest_turn: Option<TurnView>,
        now: i128,
        monotonic: u128,
    ) -> Plan {
        match latest_turn {
            Some(turn) => if turn.status == TurnStatus::InProgress {
                self.adopt_turn(turn.id, monotonic).saving()
            } else if self.maybe_submitted() {
                self.turn_completed(turn, now)
            } else if self.started {
                self.do_next(seq![OpView::SendAttempt])
            } else {
                self.do_next(Seq::empty())
            },
            None => if !self.started {
                self.do_next(Seq::empty())
            } else if self.maybe_submitted() {
                self.do_next(seq![OpView::Retry("无法确认上一次回合是否已提交"@)])
            } else {
                self.do_next(seq![OpView::SendAttempt])
            },
        }
    }

    /// Whether a new attempt may begin now.
    pub open spec fn may_send(self, now: i128) -> bool {
        &&& self.started
        &&& self.snap().active_thread_id is Some
        &&& self.snap().next_attempt_at matches Some(next) ==> next <= now
        &&& self.snap().active_turn_id is None
    }

    /// A new attempt begins, where one may.
    #[verifier::opaque]
    pub open spec fn send_attempt(self, now: i128) -> Plan {
        if self.may_send(now) {
            (CoreView {
                machine: MachineView {
                    snapshot: self.snap().sending(),
                    attempts: recent_attempts(self.machine.attempts, now).push(now),
                },
                ..self
            }).do_next(seq![OpView::Publish, OpView::Save, OpView::MarkUncertain])
        } else {
            self.do_next(Seq::empty())
        }
    }

    /// The mark is set that the outcome of the request will be unknown.
    pub open spec fn mark_uncertain(self) -> Plan {
        self.with_snap(self.snap().with_uncertainty(true)).do_next(
            seq![OpView::Publish, OpView::SaveCritical],
        )
    }

    /// The mark could not be saved, so that nothing is sent.
    pub open spec fn abandon_submission(self) -> Plan {
        (CoreView {
            started: false,
            turn_deadline: None,
            ..self.with_snap(
                self.snap().with_uncertainty(false).paused(
                    "无法安全保存提交状态，已暂停以避免重复发送任务"@,
                ),
            )
        }).do_next(seq![OpView::Publish])
    }

    /// The carrier answered the request to start a turn.
    #[verifier::opaque]
    pub open spec fn turn_answered(
        self,
        answer: Result<Seq<char>, FailureView>,
        now: i128,
        monotonic: u128,
    ) -> Plan {
        let core = self.clocks_read(now, monotonic);
        match answer {
            Ok(turn_id) => if core.snap().accepts_turn(turn_id) {
                core.with_snap(core.snap().with_turn(turn_id)).with_deadline(
                    core.turn_limit(monotonic),
                ).saving()
            } else {
                core.do_next(seq![OpView::Abort(Fault::TurnAlreadyActive)])
            },
            Err(failure) => if failure is Timeout || failure is Process {
                core.with_snap(core.snap().with_preview(failure_text(failure))).do_next(
                    seq![OpView::Shutdown, OpView::RetryConnection(failure_text(failure))],
                )
            } else {
                core.transport_failed(failure, now)
            },
        }
    }

    /// Whether an event is about the turn under way.
    pub open spec fn matches_active(self, thread_id: Seq<char>, turn_id: Seq<char>) -> bool {
        self.snap().active_thread_id == Some(thread_id) && self.snap().active_turn_id == Some(
            turn_id,
        )
    }

    /// The carrier reports something.
    #[verifier::opaque]
    pub open spec fn event(self, event: EventView, now: i128, monotonic: u128) -> Plan {
        match event {
            EventView::AgentMessageDelta { thread_id, turn_id, delta } => if self.matches_active(
                thread_id,
                turn_id,
            ) {
                self.with_snap(
                    self.snap().with_preview(self.snap().reply_preview + delta),
                ).do_next(seq![OpView::Publish])
            } else {
                self.do_next(Seq::empty())
            },
            EventView::TurnStarted { thread_id, turn_id } => if self.snap().active_thread_id
                == Some(thread_id) && (self.snap().phase == QueuePhase::Sending
                || self.snap().phase == QueuePhase::Waiting) && self.snap().accepts_turn(turn_id) {
                self.with_snap(self.snap().with_turn(turn_id)).with_deadline(
                    self.turn_limit(monotonic),
                ).saving()
            } else {
                self.do_next(Seq::empty())
            },
            EventView::ThreadResolved { previous_thread_id, thread_id, turn_id } => {
                if self.matches_active(previous_thread_id, turn_id) {
                    self.with_snap(self.snap().with_resolved_thread(thread_id)).saving()
                } else {
                    self.do_next(Seq::empty())
                }
            },
            EventView::Error { thread_id, turn_id, error, will_retry } => if self.matches_active(
                thread_id,
                turn_id,
            ) {
                self.turn_error(error, will_retry, now)
            } else {
                self.do_next(Seq::empty())
            },
            EventView::TurnCompleted { thread_id, turn } => if self.matches_active(
                thread_id,
                turn.id,
            ) {
                self.turn_completed(turn, now)
            } else {
                self.do_next(Seq::empty())
            },
            EventView::Disconnected { message } => if self.started {
                self.disconnected(message)
            } else {
                self.do_next(Seq::empty())
            },
            EventView::Diagnostic { message } => if self.snap().phase == QueuePhase::Backoff {
                self.do_next(Seq::empty())
            } else {
                self.with_snap(self.snap().with_status(message)).do_next(seq![OpView::Publish])
            },
        }
    }

    /// The turn under way reports an error.
    #[verifier::opaque]
    pub open spec fn turn_error(self, error: ErrorView, will_retry: bool, now: i128) -> Plan {
        let core = self.with_snap(self.snap().with_preview(conversation_error(error)));
        match notification_decision(error, will_retry, self.config.failure_phrases) {
            DecisionView::WaitForInternalRetry(reason) => core.with_snap(
                core.snap().internally_retrying(reason),
            ).saving(),
            DecisionView::WaitForInternalRetryQuiet(reason) => core.with_snap(
                core.snap().quietly_retrying(reason),
            ).saving(),
            DecisionView::Retryable(reason) => core.do_next(seq![OpView::Retry(reason)]),
            DecisionView::RetryImmediately(reason) => core.retry_soon(reason, now),
            DecisionView::RetryImmediatelyQuiet(reason) => core.retry_quietly(reason, now),
            DecisionView::Pause(reason) => (CoreView {
                started: false,
                turn_deadline: None,
                ..core.with_snap(core.snap().paused(reason))
            }).saving(),
            DecisionView::Success => core.do_next(Seq::empty()),
        }
    }

    /// The text that stands for a finished turn in the conversation.
    pub open spec fn turn_text(turn: TurnView) -> Seq<char> {
        if blank(turn.final_message) {
            match turn.error {
                Some(error) => conversation_error(error),
                None => Seq::empty(),
            }
        } else {
            turn.final_message
        }
    }

    /// What the end of a turn means for this queue.
    pub open spec fn turn_decision(self, turn: TurnView) -> DecisionView {
        completion_decision(
            completed_status(turn.status),
            turn.final_message,
            turn.error,
            self.config.failure_phrases,
            self.snap().empty_reply_count,
            self.config.retry_policy.max_empty_replies,
        )
    }

    /// The turn has ended.
    #[verifier::opaque]
    pub open spec fn turn_completed(self, turn: TurnView, now: i128) -> Plan {
        let shown = self.snap().with_preview(CoreView::turn_text(turn));
        let settled = if turn.status == TurnStatus::InProgress {
            shown
        } else {
            shown.with_uncertainty(false)
        };
        self.with_snap(settled).with_deadline(None).turn_decided(
            self.turn_decision(turn),
            blank(turn.final_message),
            now,
        )
    }

    /// What the end of a turn leads to.
    #[verifier::opaque]
    pub open spec fn turn_decided(self, decision: DecisionView, empty_reply: bool, now: i128) -> Plan {
        match decision {
            DecisionView::Success => (CoreView {
                started: false,
                success_notified: true,
                ..self.with_snap(self.snap().succeeded("任务成功完成"@))
            }).do_next(
                if self.success_notified {
                    save_ops()
                } else {
                    seq![OpView::Notify] + save_ops()
                },
            ),
            DecisionView::Retryable(reason) => {
                let counted = if empty_reply {
                    self.with_snap(self.snap().with_empty_reply())
                } else {
                    self
                };
                counted.do_next(seq![OpView::Retry(reason)] + save_ops())
            },
            DecisionView::RetryImmediately(reason) => {
                let plan = self.retry_soon(reason, now);
                Plan { core: plan.core, ops: plan.ops + save_ops() }
            },
            DecisionView::RetryImmediatelyQuiet(reason) => {
                let plan = self.retry_quietly(reason, now);
                Plan { core: plan.core, ops: plan.ops + save_ops() }
            },
            DecisionView::WaitForInternalRetry(reason) => self.with_snap(
                self.snap().internally_retrying(reason),
            ).saving(),
            DecisionView::WaitForInternalRetryQuiet(reason) => self.with_snap(
                self.snap().quietly_retrying(reason),
            ).saving(),
            DecisionView::Pause(reason) => (CoreView {
                started: false,
                ..self.with_snap(self.snap().paused(reason))
            }).saving(),
        }
    }

    /// The connection is gone.
    pub open spec fn disconnected(self, message: Seq<char>) -> Plan {
        let preserve = self.snap().phase == QueuePhase::Backoff && self.snap().next_attempt_at is Some;
        self.do_next(seq![OpView::Shutdown, OpView::AfterDisconnect(message, preserve)])
    }

    /// What follows once a carrier whose connection is gone was shut down.  A
    /// planned retry keeps its time.
    #[verifier::opaque]
    pub open spec fn after_disconnect(self, message: Seq<char>, preserve: bool) -> Plan {
        let core = self.with_deadline(None);
        if !self.started || preserve {
            core.saving()
        } else {
            let text = "app-server 已断开："@ + message;
            core.with_snap(core.snap().with_preview(text)).do_next(
                seq![OpView::RetryConnection(text + "；正在恢复线程"@)],
            )
        }
    }

    /// A request to the carrier failed.
    #[verifier::opaque]
    pub open spec fn transport_failed(self, failure: FailureView, now: i128) -> Plan {
        let text = failure_text(failure);
        let core = self.with_snap(self.snap().with_preview(text));
        match failure {
            FailureView::ExecutableNotFound(_)
            | FailureView::FallbackDisabled(_)
            | FailureView::Unavailable(_) => core.do_next(
                seq![OpView::Shutdown, OpView::PauseAfterFailure(text)],
            ),
            FailureView::Protocol(_) => core.do_next(
                seq![OpView::Shutdown, OpView::FatalAfterFailure(text)],
            ),
            FailureView::Rpc { code, message, data } => core.rpc_failed(
                rpc_error(message, data),
                now,
            ),
            FailureView::Timeout(_) | FailureView::Process(_) => core.do_next(
                seq![OpView::Shutdown, OpView::RetryConnection(text)],
            ),
            FailureView::NotConnected => (CoreView { connected: false, ..core }).do_next(
                seq![
                    OpView::RefreshStatus,
                    OpView::RetryConnection("Codex app-server 尚未连接"@),
                ],
            ),
        }
    }

    /// The server refused a request with an error.
    #[verifier::opaque]
    pub open spec fn rpc_failed(self, error: ErrorView, now: i128) -> Plan {
        let core = self.with_snap(self.snap().with_preview(conversation_error(error)));
        match notification_decision(error, false, self.config.failure_phrases) {
            DecisionView::Retryable(reason) => core.do_next(seq![OpView::Retry(reason)]),
            DecisionView::RetryImmediately(reason) => core.retry_soon(reason, now),
            DecisionView::RetryImmediatelyQuiet(reason) => core.retry_quietly(reason, now),
            DecisionView::WaitForInternalRetry(reason) => core.with_snap(
                core.snap().internally_retrying(reason),
            ).saving(),
            DecisionView::WaitForInternalRetryQuiet(reason) => core.with_snap(
                core.snap().quietly_retrying(reason),
            ).saving(),
            DecisionView::Pause(reason) => core.do_next(
                seq![OpView::Shutdown, OpView::PauseAfterFailure(reason)],
            ),
            DecisionView::Success => core.do_next(Seq::empty()),
        }
    }

    /// The queue rests after a failure that the user has to mend.
    pub open spec fn pause_after_failure(self, reason: Seq<char>) -> Plan {
        (CoreView {
            started: false,
            turn_deadline: None,
            ..self.with_snap(self.snap().paused(reason))
        }).saving()
    }

    /// The queue stops after a failure of the protocol.
    pub open spec fn fatal_after_failure(self, reason: Seq<char>) -> Plan {
        (CoreView {
            started: false,
            turn_deadline: None,
            ..self.with_snap(self.snap().failed(reason))
        }).saving()
    }

    /// The line that announces the next attempt to connect.
    pub open spec fn connection_status(reason: Seq<char>, failures: u32) -> Seq<char> {
        reason + "；第 "@ + decimal(failures as nat) + " 次连接恢复，"@ + decimal(
            connection_delay(failures) as nat,
        ) + " 秒后重试"@
    }

    /// The connection is tried again after a while.
    #[verifier::opaque]
    pub open spec fn retry_connection(self, reason: Seq<char>, now: i128) -> Plan {
        let failures = counted_u32(self.connection_failures);
        (CoreView {
            connection_failures: failures,
            turn_deadline: None,
            ..self.with_snap(
                self.snap().alerted().connecting().with_status(
                    CoreView::connection_status(reason, failures),
                ).with_next_attempt(
                    (now + connection_delay(failures) * 1_000_000_000) as i128,
                ),
            )
        }).saving()
    }

    /// The snapshot with a reason in the place of a reply, where there is none.
    pub open spec fn explained(self, reason: Seq<char>) -> CoreView {
        let core = self.with_deadline(None);
        if blank(self.snap().reply_preview) {
            core.with_snap(core.snap().with_preview(reason))
        } else {
            core
        }
    }

    /// The delay before a retry was drawn.
    pub open spec fn delay_drawn(self, reason: Seq<char>, drawn_secs: u64, now: i128) -> Plan {
        self.with_snap(
            self.snap().backing_off(now as int, reason, drawn_secs, true).with_status(
                reason + "；已安排低频重试"@,
            ),
        ).saving()
    }

    /// Codex gave up by itself, so that a new round begins after a second.
    pub open spec fn retry_soon(self, reason: Seq<char>, now: i128) -> Plan {
        let core = self.explained(reason);
        core.with_snap(
            core.snap().backing_off(now as int, reason, 0, true).with_next_attempt(
                (now + 1_000_000_000) as i128,
            ).with_status(reason + "；正在开始新一轮尝试"@),
        ).saving()
    }

    /// The servers are busy, so that a new attempt begins at once and without an alert.
    pub open spec fn retry_quietly(self, reason: Seq<char>, now: i128) -> Plan {
        let core = self.explained(reason);
        core.with_snap(core.snap().retrying_quietly(now, reason)).saving()
    }

    /// A deadline has passed.
    #[verifier::opaque]
    pub open spec fn deadline_passed(self) -> Plan {
        if self.snap().phase == QueuePhase::Backoff || self.snap().phase == QueuePhase::Connecting {
            self.do_next(seq![OpView::EnsureConnection])
        } else if self.snap().active_turn_id is Some {
            if self.snap().active_thread_id is Some {
                self.do_next(self.interruption() + seq![OpView::CloseTimedOutTurn])
            } else {
                self.do_next(Seq::empty())
            }
        } else if self.snap().next_attempt_at is Some {
            self.do_next(seq![OpView::EnsureConnection])
        } else {
            self.do_next(Seq::empty())
        }
    }

    /// A turn that took too long was interrupted.
    pub open spec fn close_timed_out_turn(self) -> Plan {
        self.with_snap(self.snap().without_turn()).with_deadline(None).do_next(
            seq![OpView::Retry("回合超时，已发送中断请求"@)] + save_ops(),
        )
    }

    /// Whether a wake-up changes anything.
    pub open spec fn wake_matters(self) -> bool {
        self.snap().delayable() || self.snap().phase == QueuePhase::Waiting
            && self.snap().active_turn_id is Some
    }

    /// Whether the clocks show that the machine slept since they were last read.
    pub open spec fn sleep_ends(self, now: i128, monotonic: u128) -> bool {
        slept(
            self.wake_detector.wall as int,
            self.wake_detector.monotonic as int,
            now as int,
            monotonic as int,
        )
    }

    /// The machine woke up: nothing is sent for a while, and the turn under way
    /// is given time.
    #[verifier::opaque]
    pub open spec fn woken(self, now: i128, monotonic: u128) -> Plan {
        let policy = self.config.retry_policy;
        let delayed = self.with_snap(self.snap().delayed_after_wake(now as int, policy));
        let core = if self.snap().phase == QueuePhase::Waiting && self.snap().active_turn_id is Some {
            let floor = (monotonic + policy.wake_secs() * 1_000_000_000) as u128;
            let deadline = match self.turn_deadline {
                Some(deadline) => if deadline < floor {
                    floor
                } else {
                    deadline
                },
                None => floor,
            };
            delayed.with_snap(
                delayed.snap().with_status("检测到系统唤醒；继续等待当前回合，不会立即补发"@),
            ).with_deadline(Some(deadline))
        } else {
            delayed
        };
        core.do_next(
            if self.wake_matters() {
                save_ops()
            } else {
                Seq::empty()
            },
        )
    }

    /// Whether a warning is about saving.
    pub open spec fn saving_warning(warning: Option<Seq<char>>) -> bool {
        warning matches Some(text) && (begins(text, "状态保存失败"@) || begins(
            text,
            "配置保存失败"@,
        ))
    }

    /// Once everything can be saved again, the warning about it goes.
    pub open spec fn warning_cleared(self) -> Plan {
        if self.state_failures == 0 && !self.config_failed && CoreView::saving_warning(
            self.snap().runtime_warning,
        ) {
            self.with_snap(self.snap().with_warning(None)).do_next(seq![OpView::Publish])
        } else {
            self.do_next(Seq::empty())
        }
    }

    /// The warning that the state could not be saved.
    pub open spec fn state_warning(failures: u32, error: Seq<char>) -> Seq<char> {
        "状态保存失败（连续 "@ + decimal(failures as nat)
            + " 次），当前任务仍在内存中运行："@ + error
    }

    /// The state was saved, or not.
    pub open spec fn state_saved(self, failure: Option<Seq<char>>) -> Plan {
        match failure {
            None => if self.state_failures > 0 {
                (CoreView { state_failures: 0, ..self }).warning_cleared()
            } else {
                self.do_next(Seq::empty())
            },
            Some(error) => {
                let failures = counted_u32(self.state_failures);
                (CoreView {
                    state_failures: failures,
                    ..self.with_snap(
                        self.snap().with_warning(Some(CoreView::state_warning(failures, error))),
                    )
                }).do_next(seq![OpView::Publish])
            },
        }
    }

    /// The state with the mark was saved, or not: only then is the request sent.
    pub open spec fn critical_saved(self, failure: Option<Seq<char>>) -> Plan {
        let plan = self.state_saved(failure);
        Plan {
            core: plan.core,
            ops: plan.ops + (match failure {
                None => seq![OpView::Submit],
                Some(_) => seq![OpView::AbandonSubmission],
            }),
        }
    }

    /// The configuration was saved, or not.
    pub open spec fn config_saved(self, failure: Option<Seq<char>>) -> Plan {
        match failure {
            None => if self.config_failed {
                (CoreView { config_failed: false, ..self }).warning_cleared()
            } else {
                self.do_next(Seq::empty())
            },
            Some(error) => (CoreView {
                config_failed: true,
                ..self.with_snap(
                    self.snap().with_warning(
                        Some("配置保存失败，本次设置仅在当前会话生效："@ + error),
                    ),
                )
            }).do_next(seq![OpView::Publish]),
        }
    }

    /// What is announced when the task is done.
    pub open spec fn notice(self) -> NoticeView {
        NoticeView {
            title: one_line(self.config.prompt, 96),
            body: one_line(self.snap().reply_preview, 220),
            thread_id: self.snap().active_thread_id,
            codex_path: self.config.codex_path,
            flash: self.config.full_screen_flash_enabled,
            audio: self.config.audio_alert_enabled,
        }
    }

    /// The state that is saved.
    pub open spec fn saved_state(self) -> StateView {
        self.machine.to_state(Some(digest_of(self.config.prompt)))
    }

    /// A step that is over at once.
    pub open spec fn emit(self, action: ActionView) -> Step {
        Step { core: self, ops: Seq::empty(), action, awaiting: AwaitingView::Nothing }
    }

    /// A step whose answer is waited for.
    pub open spec fn request(self, action: ActionView, awaiting: AwaitingView) -> Step {
        Step { core: self, ops: Seq::empty(), action, awaiting }
    }

    /// What a thing to do leads to, where it needs nothing from outside.
    #[verifier::opaque]
    pub open spec fn plan_of(self, op: OpView, now: i128, monotonic: u128) -> Plan {
        match op {
            OpView::EnsureConnection => self.ensure_connection(),
            OpView::SettleSession(latest_turn) => self.settle_session(latest_turn, now, monotonic),
            OpView::SendAttempt => self.send_attempt(now),
            OpView::MarkUncertain => self.mark_uncertain(),
            OpView::AbandonSubmission => self.abandon_submission(),
            OpView::RetryConnection(reason) => self.retry_connection(reason, now),
            OpView::PauseAfterFailure(reason) => self.pause_after_failure(reason),
            OpView::FatalAfterFailure(reason) => self.fatal_after_failure(reason),
            OpView::AfterDisconnect(message, preserve) => self.after_disconnect(message, preserve),
            OpView::CloseTimedOutTurn => self.close_timed_out_turn(),
            OpView::Warn(warning) => self.with_snap(
                self.snap().with_warning(Some(warning)),
            ).do_next(Seq::empty()),
            OpView::Configure(config) => self.configure_and_start(config),
            OpView::Start => self.start(),
            _ => self.do_next(Seq::empty()),
        }
    }

    /// One thing is done.
    pub open spec fn step(self, op: OpView, now: i128, monotonic: u128) -> Step {
        match op {
            OpView::Publish => self.emit(ActionView::Publish(self.snap())),
            OpView::Save => if self.has_store {
                self.request(ActionView::SaveState(self.saved_state()), AwaitingView::Save)
            } else {
                self.emit(ActionView::Continue)
            },
            OpView::SaveCritical => if self.has_store {
                self.request(ActionView::SaveState(self.saved_state()), AwaitingView::CriticalSave)
            } else {
                self.do_next(seq![OpView::Submit]).continued()
            },
            OpView::SaveConfig => if self.has_store {
                self.request(ActionView::SaveConfig(self.config), AwaitingView::ConfigSave)
            } else {
                self.emit(ActionView::Continue)
            },
            OpView::AllowFallback(allowed) => self.emit(ActionView::AllowFallback(allowed)),
            OpView::HideWindow => self.emit(ActionView::HideWindow),
            OpView::RefreshStatus => self.request(ActionView::ReadStatus, AwaitingView::Status),
            OpView::Shutdown => self.request(ActionView::Shutdown, AwaitingView::Shutdown),
            OpView::Connect => self.request(ActionView::Connect, AwaitingView::Connect),
            OpView::OpenThread => self.request(
                match self.snap().active_thread_id {
                    Some(thread_id) => ActionView::ResumeThread {
                        thread_id,
                        working_directory: self.config.working_directory,
                    },
                    None => ActionView::StartThread {
                        working_directory: self.config.working_directory,
                    },
                },
                AwaitingView::Thread,
            ),
            OpView::Submit => match self.snap().active_thread_id {
                Some(thread_id) => self.request(
                    ActionView::StartTurn {
                        thread_id,
                        prompt: self.config.prompt,
                        working_directory: self.config.working_directory,
                    },
                    AwaitingView::Turn,
                ),
                None => self.emit(ActionView::Fail(Fault::MissingThread)),
            },
            OpView::Interrupt(thread_id, turn_id) => self.request(
                ActionView::Interrupt { thread_id, turn_id },
                AwaitingView::Interrupt,
            ),
            OpView::Notify => self.emit(ActionView::Notify(self.notice())),
            OpView::Retry(reason) => self.explained(reason).request(
                ActionView::DrawDelay {
                    policy: self.config.retry_policy,
                    retry_number: counted_u32(self.snap().consecutive_retries),
                },
                AwaitingView::Delay(reason),
            ),
            OpView::Abort(fault) => self.emit(ActionView::Fail(fault)),
            _ => self.plan_of(op, now, monotonic).continued(),
        }
    }
}

impl Plan {
    /// The plan as a step without an action.
    pub open spec fn continued(self) -> Step {
        Step {
            core: self.core,
            ops: self.ops,
            action: ActionView::Continue,
            awaiting: AwaitingView::Nothing,
        }
    }
}

} // verus!
