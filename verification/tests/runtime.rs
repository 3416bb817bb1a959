use std::collections::VecDeque;

use codex_longwatch::classifier::TurnError;
use codex_longwatch::config::{
    prompt_digest, PersistedQueueState, QueueConfig, CURRENT_HIGH_DEMAND_PHRASE,
};
use codex_longwatch::json::{parse, Json};
use codex_longwatch::paths::PathStyle;
use codex_longwatch::queue::{QueueMachine, QueuePhase, QueueSnapshot};
use codex_longwatch::runtime::engine::{QueueRuntime, RuntimeCommand, RuntimeError};
use codex_longwatch::runtime::model::Fault;
use codex_longwatch::runtime::state::{
    connection_retry_delay_seconds, error_conversation_text, notification_preview, Action, Awaiting,
    Notice, Op,
};
use codex_longwatch::transport::{
    RestoredTurn, StartedTurn, ThreadSession, TransportError, TransportEvent, TransportKind,
    TransportStatus, TurnStatus,
};

const SECOND: i128 = 1_000_000_000;
const NOW: i128 = 1_785_200_400 * SECOND;

fn task(prompt: &str) -> QueueConfig {
    QueueConfig {
        prompt: prompt.into(),
        ..QueueConfig::default()
    }
}

fn completed(id: &str, text: &str) -> RestoredTurn {
    RestoredTurn {
        id: id.into(),
        status: TurnStatus::Completed,
        final_message: text.into(),
        error: None,
    }
}

/// A carrier that answers at once, and a disk that may refuse.
struct Desk {
    runtime: QueueRuntime,
    now: i128,
    monotonic: u128,
    disk_failure: Option<String>,
    connects: VecDeque<Result<(), TransportError>>,
    latest_turn: Option<RestoredTurn>,
    turns: VecDeque<Result<StartedTurn, TransportError>>,
    script: Option<fn(usize, &str) -> Vec<TransportEvent>>,
    events: VecDeque<TransportEvent>,
    starts: usize,
    resumes: usize,
    new_threads: usize,
    shutdowns: usize,
    interrupts: Vec<(String, String)>,
    hidden: bool,
    notices: Vec<Notice>,
    phases: Vec<QueuePhase>,
    saved: Vec<PersistedQueueState>,
    saved_configs: usize,
    fault: Option<Fault>,
}

impl Desk {
    fn over(runtime: QueueRuntime) -> Desk {
        Desk {
            runtime,
            now: NOW,
            monotonic: 1_000,
            disk_failure: None,
            connects: VecDeque::new(),
            latest_turn: None,
            turns: VecDeque::new(),
            script: None,
            events: VecDeque::new(),
            starts: 0,
            resumes: 0,
            new_threads: 0,
            shutdowns: 0,
            interrupts: Vec::new(),
            hidden: false,
            notices: Vec::new(),
            phases: Vec::new(),
            saved: Vec::new(),
            saved_configs: 0,
            fault: None,
        }
    }

    fn with(config: QueueConfig, machine: QueueMachine, has_store: bool) -> Desk {
        let mut desk = Desk::over(QueueRuntime::new(
            config,
            machine,
            has_store,
            PathStyle::Unix,
            NOW,
            1_000,
        ));
        desk.settle();
        desk
    }

    fn fresh(config: QueueConfig) -> Desk {
        let path = config.codex_path.clone();
        let machine = QueueMachine::restore(PersistedQueueState::default(), path);
        Desk::with(config, machine, false)
    }

    fn holding(config: QueueConfig, state: PersistedQueueState) -> Desk {
        let path = config.codex_path.clone();
        Desk::with(config, QueueMachine::restore(state, path), false)
    }

    fn snapshot(&self) -> &QueueSnapshot {
        self.runtime.machine().snapshot()
    }

    /// Performs actions until nothing is left to do.
    fn settle(&mut self) {
        for _ in 0..500 {
            let action = self.runtime.advance(self.now, self.monotonic);
            match action {
                Action::Idle => return,
                Action::Continue => {}
                Action::Publish(snapshot) => self.phases.push(snapshot.phase),
                Action::SaveState(state) => {
                    self.saved.push(state);
                    self.runtime.state_saved(self.disk_failure.clone());
                }
                Action::SaveConfig(_) => {
                    self.saved_configs += 1;
                    self.runtime.config_saved(self.disk_failure.clone());
                }
                Action::AllowFallback(_) => {}
                Action::HideWindow => self.hidden = true,
                Action::ReadStatus => self.runtime.status_read(TransportStatus {
                    kind: TransportKind::AppServer,
                    connected: true,
                    server_agent: None,
                }),
                Action::Shutdown => {
                    self.shutdowns += 1;
                    self.runtime.shut_down(TransportStatus {
                        kind: TransportKind::AppServer,
                        connected: false,
                        server_agent: None,
                    });
                }
                Action::Connect => {
                    let answer = self.connects.pop_front().unwrap_or(Ok(()));
                    self.runtime.connect_answered(answer, self.now, self.monotonic);
                }
                Action::StartThread { .. } => {
                    self.new_threads += 1;
                    let session = ThreadSession { id: "thread".into(), latest_turn: None };
                    self.runtime.thread_answered(Ok(session), self.now, self.monotonic);
                }
                Action::ResumeThread { thread_id, .. } => {
                    self.resumes += 1;
                    let session = ThreadSession {
                        id: thread_id,
                        latest_turn: self.latest_turn.take(),
                    };
                    self.runtime.thread_answered(Ok(session), self.now, self.monotonic);
                }
                Action::StartTurn { thread_id, prompt, .. } => {
                    assert_eq!(prompt, self.runtime.core.config.prompt);
                    assert!(self.saved.is_empty() || self.saved.last().unwrap().submission_uncertain);
                    self.starts += 1;
                    let id = format!("turn-{}", self.starts);
                    if let Some(script) = self.script {
                        self.events.extend(script(self.starts, &id));
                    }
                    assert_eq!(thread_id, "thread");
                    let answer = self.turns.pop_front().unwrap_or(Ok(StartedTurn { id }));
                    self.runtime.turn_answered(answer, self.now, self.monotonic);
                }
                Action::Interrupt { thread_id, turn_id } => {
                    self.interrupts.push((thread_id, turn_id));
                    self.runtime.interrupted(self.now, self.monotonic);
                }
                Action::DrawDelay { policy, .. } => {
                    assert_eq!(policy.base_delay_secs, 30);
                    self.runtime.delay_drawn(31, self.now);
                }
                Action::Notify(notice) => self.notices.push(notice),
                Action::Fail(fault) => {
                    self.fault = Some(fault);
                    return;
                }
            }
        }
        panic!("the controller does not come to rest");
    }

    /// Hands over the waiting events, then deadlines that have passed.
    fn run(&mut self) {
        for _ in 0..50 {
            self.settle();
            if !self.runtime.wants_events() {
                return;
            }
            match self.events.pop_front() {
                Some(event) => self.event(event),
                None => match self.runtime.next_deadline(self.now, self.monotonic) {
                    Some(deadline) if deadline <= self.monotonic => self.deadline(),
                    _ => return,
                },
            }
        }
        panic!("the controller never waits");
    }

    fn command(&mut self, command: RuntimeCommand) -> bool {
        let goes_on = self.runtime.handle_command(command, self.now, self.monotonic);
        self.run();
        goes_on
    }

    fn event(&mut self, event: TransportEvent) {
        self.runtime.handle_event(event, self.now, self.monotonic);
        self.settle();
    }

    fn deadline(&mut self) {
        self.runtime.handle_deadline(self.now, self.monotonic);
        self.settle();
    }

    fn plan(&mut self, ops: Vec<Op>) {
        self.runtime.agenda = ops;
        self.settle();
    }

    fn sleep(&mut self, seconds: u32) {
        self.now += i128::from(seconds) * SECOND;
        self.monotonic += u128::from(seconds) * 1_000_000_000;
    }

    /// Lets time pass while the clocks are looked at every five seconds.
    fn pass(&mut self, seconds: u32) {
        let mut left = seconds;
        while left > 0 {
            let step = left.min(5);
            self.sleep(step);
            left -= step;
            assert!(!self.runtime.observe_wake(self.now, self.monotonic));
            self.settle();
        }
    }

    fn configure(&mut self, config: QueueConfig) -> bool {
        let accepted = self.runtime.handle_configure(config);
        self.settle();
        accepted
    }
}

#[test]
fn notification_preview_matches_compact_chat_style() {
    assert_eq!(
        notification_preview("第一行\n\n第二行", 20),
        "第一行 第二行"
    );
    assert_eq!(notification_preview("abcdef", 4), "abcd…");
    assert_eq!(notification_preview("   ", 20), "任务已完成");
}

#[test]
fn runtime_always_hides_the_app_server_window() {
    let config = QueueConfig::default();
    let machine = QueueMachine::new(config.codex_path.clone());

    let desk = Desk::with(config, machine, false);

    assert!(desk.hidden);
}

#[test]
fn repeated_connection_failures_back_off_without_growing_forever() {
    assert_eq!(connection_retry_delay_seconds(1), 5);
    assert_eq!(connection_retry_delay_seconds(2), 15);
    assert_eq!(connection_retry_delay_seconds(3), 60);
    assert_eq!(connection_retry_delay_seconds(99), 60);
}

#[test]
fn exhausted_internal_retries_start_the_next_round_immediately() {
    let config = QueueConfig::default();
    let machine = QueueMachine::new(config.codex_path.clone());
    let mut desk = Desk::with(config, machine, false);

    let ops = desk
        .runtime
        .core
        .schedule_immediate_retry("Codex 内部 5 次重试已耗尽", NOW);
    desk.plan(ops);

    let snapshot = desk.snapshot();
    let next = snapshot.next_attempt_at.expect("retry deadline is set");
    assert!(next >= NOW);
    assert!(next <= NOW + 2 * SECOND);
    assert_eq!(snapshot.phase, QueuePhase::Backoff);
    assert!(snapshot.status_message.contains("正在开始新一轮尝试"));
}

#[test]
fn start_creates_one_thread_and_one_turn() {
    let mut desk = Desk::fresh(task("do real work"));
    assert!(desk.command(RuntimeCommand::Start));
    assert_eq!(desk.new_threads, 1);
    assert_eq!(desk.starts, 1);
    assert_eq!(desk.snapshot().active_turn_id.as_deref(), Some("turn-1"));
    assert!(!desk.command(RuntimeCommand::Shutdown));
    assert!(desk.fault.is_none());
}

fn high_demand(_: usize, id: &str) -> Vec<TransportEvent> {
    vec![TransportEvent::TurnCompleted {
        thread_id: "thread".into(),
        turn: completed(id, "We're experiencing high demand. Please try again later."),
    }]
}

fn current_high_demand_then_success(number: usize, id: &str) -> Vec<TransportEvent> {
    let text = if number == 1 { CURRENT_HIGH_DEMAND_PHRASE } else { "success" };
    vec![TransportEvent::TurnCompleted {
        thread_id: "thread".into(),
        turn: completed(id, text),
    }]
}

fn internal_retry_then_success(_: usize, id: &str) -> Vec<TransportEvent> {
    vec![
        TransportEvent::Error {
            thread_id: "thread".into(),
            turn_id: id.into(),
            error: TurnError {
                message: "temporary overload".into(),
                codex_error_info: Some(Json::text("serverOverloaded")),
                ..TurnError::default()
            },
            will_retry: true,
        },
        TransportEvent::TurnCompleted {
            thread_id: "thread".into(),
            turn: completed(id, "success"),
        },
    ]
}

fn stream_disconnect(_: usize, id: &str) -> Vec<TransportEvent> {
    vec![TransportEvent::Error {
        thread_id: "thread".into(),
        turn_id: id.into(),
        error: TurnError {
            message: "stream disconnected before completion: error sending request for url (https://anyrouter.top/v1/responses)".into(),
            ..TurnError::default()
        },
        will_retry: false,
    }]
}

fn success(_: usize, id: &str) -> Vec<TransportEvent> {
    vec![TransportEvent::TurnCompleted {
        thread_id: "thread".into(),
        turn: completed(id, "success"),
    }]
}

#[test]
fn high_demand_schedules_one_future_request_without_an_immediate_duplicate() {
    let mut desk = Desk::fresh(task("do real work"));
    desk.script = Some(high_demand);
    desk.command(RuntimeCommand::Start);
    assert_eq!(desk.snapshot().phase, QueuePhase::Backoff);
    assert_eq!(desk.snapshot().next_attempt_at, Some(NOW + 31 * SECOND));
    assert_eq!(desk.starts, 1);
    desk.pass(30);
    desk.run();
    assert_eq!(desk.starts, 1);
    desk.pass(1);
    desk.run();
    assert_eq!(desk.starts, 2);
}

#[test]
fn current_high_demand_notice_retries_immediately_without_alert_or_backoff() {
    let mut desk = Desk::fresh(task("do real work"));
    desk.script = Some(current_high_demand_then_success);
    desk.command(RuntimeCommand::Start);

    let snapshot = desk.snapshot();
    assert_eq!(snapshot.phase, QueuePhase::Success);
    assert_eq!(snapshot.retry_alert_count, 0);
    assert_eq!(snapshot.attempt_count, 2);
    assert_eq!(desk.starts, 2);
    assert_eq!(snapshot.reply_preview, "success");
    assert!(!desk.phases.contains(&QueuePhase::Backoff));
}

#[test]
fn internal_retry_and_success_never_start_a_second_turn() {
    let mut desk = Desk::fresh(task("do real work"));
    desk.script = Some(internal_retry_then_success);
    desk.command(RuntimeCommand::Start);
    assert_eq!(desk.snapshot().phase, QueuePhase::Success);
    assert_eq!(desk.snapshot().reply_preview, "success");
    assert_eq!(desk.snapshot().retry_alert_count, 1);
    assert_eq!(desk.starts, 1);
}

#[test]
fn textual_stream_disconnect_stays_in_the_retry_loop_and_is_shown_as_a_reply() {
    let mut desk = Desk::fresh(task("do real work"));
    desk.script = Some(stream_disconnect);
    desk.command(RuntimeCommand::Start);

    let snapshot = desk.snapshot();
    assert_eq!(snapshot.phase, QueuePhase::Backoff);
    assert_eq!(snapshot.attempt_count, 1);
    assert_eq!(snapshot.retry_alert_count, 1);
    assert!(snapshot.next_attempt_at.is_some());
    assert!(snapshot
        .reply_preview
        .contains("stream disconnected before completion"));
    assert_eq!(desk.starts, 1);
}

#[test]
fn normal_success_stops_all_future_sends() {
    let mut desk = Desk::fresh(task("do real work"));
    desk.script = Some(success);
    desk.command(RuntimeCommand::Start);
    assert_eq!(desk.snapshot().phase, QueuePhase::Success);
    assert_eq!(desk.starts, 1);
    assert_eq!(desk.notices.len(), 1);
    desk.command(RuntimeCommand::Start);
    desk.pass(3600);
    desk.deadline();
    assert_eq!(desk.starts, 1);
    assert_eq!(desk.notices.len(), 1);
}

#[test]
fn success_can_start_a_new_configured_task() {
    let mut desk = Desk::fresh(task("first task"));
    desk.script = Some(success);

    desk.command(RuntimeCommand::Start);
    assert_eq!(desk.snapshot().phase, QueuePhase::Success);
    desk.command(RuntimeCommand::StartConfigured(task("second task")));

    assert_eq!(desk.starts, 2);
    assert_eq!(desk.snapshot().phase, QueuePhase::Success);
    assert_eq!(desk.runtime.core.config.prompt, "second task");
}

#[test]
fn resume_replaces_a_stale_persisted_turn_id() {
    let state = PersistedQueueState {
        phase: QueuePhase::Waiting,
        active_thread_id: Some("thread".into()),
        active_turn_id: Some("stale-turn".into()),
        ..PersistedQueueState::default()
    };
    let mut desk = Desk::holding(task("do real work"), state);
    desk.runtime.core.started = true;

    let ops = desk.runtime.core.apply_thread_session(
        Some(RestoredTurn {
            id: "resumed-turn".into(),
            status: TurnStatus::InProgress,
            final_message: String::new(),
            error: None,
        }),
        NOW,
        1_000,
    );
    desk.plan(ops);

    assert_eq!(
        desk.snapshot().active_turn_id.as_deref(),
        Some("resumed-turn")
    );
    assert_eq!(desk.snapshot().phase, QueuePhase::Waiting);
}

#[test]
fn stale_turn_started_notification_is_ignored() {
    let state = PersistedQueueState {
        phase: QueuePhase::Waiting,
        active_thread_id: Some("thread".into()),
        active_turn_id: Some("current-turn".into()),
        ..PersistedQueueState::default()
    };
    let mut desk = Desk::holding(task("do real work"), state);
    desk.runtime.core.started = true;

    desk.event(TransportEvent::TurnStarted {
        thread_id: "thread".into(),
        turn_id: "old-turn".into(),
    });

    assert_eq!(
        desk.snapshot().active_turn_id.as_deref(),
        Some("current-turn")
    );
}

#[test]
fn late_completion_for_an_old_turn_is_ignored() {
    let state = PersistedQueueState {
        phase: QueuePhase::Waiting,
        active_thread_id: Some("thread".into()),
        active_turn_id: Some("current-turn".into()),
        reply_preview: "current preview".into(),
        ..PersistedQueueState::default()
    };
    let mut desk = Desk::holding(task("do real work"), state);
    desk.runtime.core.started = true;

    desk.event(TransportEvent::TurnCompleted {
        thread_id: "thread".into(),
        turn: completed("old-turn", "late duplicate"),
    });

    assert_eq!(desk.snapshot().phase, QueuePhase::Waiting);
    assert_eq!(
        desk.snapshot().active_turn_id.as_deref(),
        Some("current-turn")
    );
    assert_eq!(desk.snapshot().reply_preview, "current preview");
}

#[test]
fn gui_session_resolution_replaces_only_the_thread_id() {
    let state = PersistedQueueState {
        phase: QueuePhase::Waiting,
        active_thread_id: Some("gui-pending".into()),
        active_turn_id: Some("logical-turn".into()),
        ..PersistedQueueState::default()
    };
    let mut desk = Desk::holding(task("do real work"), state);
    desk.runtime.core.started = true;

    desk.event(TransportEvent::ThreadResolved {
        previous_thread_id: "gui-pending".into(),
        thread_id: "thread-real".into(),
        turn_id: "logical-turn".into(),
    });

    assert_eq!(
        desk.snapshot().active_thread_id.as_deref(),
        Some("thread-real")
    );
    assert_eq!(
        desk.snapshot().active_turn_id.as_deref(),
        Some("logical-turn")
    );
    assert_eq!(desk.snapshot().phase, QueuePhase::Waiting);
}

fn waiting_desk(config: QueueConfig) -> Desk {
    let state = PersistedQueueState {
        phase: QueuePhase::Waiting,
        active_thread_id: Some("thread".into()),
        active_turn_id: Some("current-turn".into()),
        ..PersistedQueueState::default()
    };
    let mut desk = Desk::holding(config, state);
    desk.runtime.core.started = true;
    desk
}

#[test]
fn configuring_during_an_active_turn_does_not_pause_or_replace_it() {
    let config = task("do real work");
    let mut desk = waiting_desk(config.copy());
    let mut edited = config;
    edited.failure_phrases.push("another phrase".into());

    assert!(!desk.configure(edited));
    assert!(desk.runtime.core.started);
    assert_eq!(desk.snapshot().phase, QueuePhase::Waiting);
    assert_eq!(
        desk.snapshot().active_turn_id.as_deref(),
        Some("current-turn")
    );
}

#[test]
fn live_alert_settings_apply_during_an_active_turn() {
    let config = task("do real work");
    let mut desk = waiting_desk(config.copy());
    let mut edited = config;
    edited.full_screen_flash_enabled = false;
    edited.audio_alert_enabled = false;

    assert!(desk.configure(edited));
    assert!(!desk.runtime.core.config.full_screen_flash_enabled);
    assert!(!desk.runtime.core.config.audio_alert_enabled);
    assert_eq!(desk.snapshot().phase, QueuePhase::Waiting);
    assert_eq!(
        desk.snapshot().active_turn_id.as_deref(),
        Some("current-turn")
    );
}

fn sending_machine(config: &QueueConfig) -> QueueMachine {
    let mut machine = QueueMachine::new(config.codex_path.clone());
    machine.set_thread("thread".into());
    machine.begin_sending(NOW).unwrap();
    machine
}

#[test]
fn overloaded_json_rpc_error_enters_backoff_instead_of_stopping() {
    let config = task("do real work");
    let mut machine = sending_machine(&config);
    machine.set_active_turn("turn".into()).unwrap();
    let mut desk = Desk::with(config, machine, false);
    desk.runtime.core.started = true;
    desk.runtime.core.connected = true;

    let ops = desk.runtime.core.handle_transport_failure(
        TransportError::Rpc {
            code: -32000,
            message: "Server overloaded; retry later.".into(),
            data: Some(
                parse(br#"{"codexErrorInfo": "serverOverloaded", "httpStatusCode": 503}"#).unwrap(),
            ),
        },
        NOW,
    );
    desk.plan(ops);

    assert!(desk.runtime.core.started);
    assert_eq!(desk.snapshot().phase, QueuePhase::Backoff);
    assert!(desk.snapshot().next_attempt_at.is_some());
}

#[test]
fn ordinary_state_persistence_failure_is_visible_but_nonfatal() {
    let config = task("do real work");
    let machine = QueueMachine::new(config.codex_path.clone());
    let mut desk = Desk::with(config, machine, true);
    desk.disk_failure = Some("not a directory".into());

    desk.plan(vec![Op::Publish, Op::Save]);

    assert_eq!(desk.snapshot().phase, QueuePhase::Idle);
    assert!(desk
        .snapshot()
        .runtime_warning
        .as_deref()
        .is_some_and(|warning| warning.contains("状态保存失败")));

    desk.disk_failure = None;
    desk.plan(vec![Op::Publish, Op::Save]);
    assert!(desk.snapshot().runtime_warning.is_none());
}

#[test]
fn critical_persistence_failure_pauses_before_crossing_process_boundary() {
    let config = task("do real work");
    let machine = QueueMachine::new(config.codex_path.clone());
    let mut desk = Desk::with(config, machine, true);
    desk.disk_failure = Some("not a directory".into());

    desk.command(RuntimeCommand::Start);

    assert_eq!(desk.starts, 0);
    assert!(!desk.runtime.core.started);
    assert_eq!(desk.snapshot().phase, QueuePhase::Paused);
    assert!(!desk.snapshot().submission_uncertain);
}

#[test]
fn changing_the_task_requires_stopping_the_persisted_thread() {
    let config = task("old task");
    let state = PersistedQueueState {
        phase: QueuePhase::Paused,
        active_thread_id: Some("thread".into()),
        ..PersistedQueueState::default()
    };
    let mut desk = Desk::holding(config.copy(), state);
    assert!(desk.configure(config.copy()));
    let mut edited = config;
    edited.prompt = "new task".into();

    assert!(!desk.configure(edited));
    assert_eq!(desk.runtime.core.config.prompt, "old task");
    assert_eq!(
        desk.snapshot().active_thread_id.as_deref(),
        Some("thread")
    );
}

#[test]
fn the_same_directory_written_otherwise_is_the_same_task() {
    let mut config = task("task");
    config.working_directory = Some("/x".into());
    let state = PersistedQueueState {
        phase: QueuePhase::Paused,
        active_thread_id: Some("thread".into()),
        ..PersistedQueueState::default()
    };
    let mut desk = Desk::holding(config.copy(), state);
    let mut again = config.copy();
    again.working_directory = Some("/x/".into());
    assert!(desk.configure(again));
    assert_eq!(desk.runtime.core.config.working_directory.as_deref(), Some("/x"));
    let mut louder = config.copy();
    louder.working_directory = Some("/x/.".into());
    louder.codex_path = "codex/".into();
    louder.audio_alert_enabled = false;
    assert!(desk.configure(louder));
    let mut other = config;
    other.working_directory = Some("/x/../x".into());
    assert!(!desk.configure(other));
}

#[test]
fn uncertain_submission_without_a_restored_turn_enters_backoff() {
    let state = PersistedQueueState {
        phase: QueuePhase::Connecting,
        active_thread_id: Some("thread".into()),
        submission_uncertain: true,
        attempt_count: 1,
        ..PersistedQueueState::default()
    };
    let mut desk = Desk::holding(task("do real work"), state);
    desk.runtime.core.started = true;

    let ops = desk.runtime.core.apply_thread_session(None, NOW, 1_000);
    desk.plan(ops);

    assert_eq!(desk.snapshot().phase, QueuePhase::Backoff);
    assert_eq!(desk.snapshot().attempt_count, 1);
    assert!(!desk.snapshot().submission_uncertain);
    assert_eq!(desk.starts, 0);
}

#[test]
fn persisted_active_task_resumes_automatically_without_a_duplicate_turn() {
    let config = task("do real work");
    let state = PersistedQueueState {
        phase: QueuePhase::Waiting,
        active_thread_id: Some("thread".into()),
        active_turn_id: Some("persisted-turn".into()),
        prompt_digest: Some(prompt_digest(&config.prompt)),
        ..PersistedQueueState::default()
    };
    let mut desk = Desk::over(QueueRuntime::restore(config, state, false, PathStyle::Unix, NOW, 1_000));
    desk.latest_turn = Some(completed("persisted-turn", "completed while the app was closed"));
    desk.runtime.begin(NOW);
    desk.run();

    assert_eq!(desk.snapshot().phase, QueuePhase::Success);
    assert_eq!(desk.resumes, 1);
    assert_eq!(desk.starts, 0);
    assert_eq!(desk.new_threads, 0);
}

#[test]
fn a_changed_prompt_is_not_resumed() {
    let state = PersistedQueueState {
        phase: QueuePhase::Waiting,
        active_thread_id: Some("thread".into()),
        active_turn_id: Some("persisted-turn".into()),
        prompt_digest: Some(prompt_digest("old task")),
        ..PersistedQueueState::default()
    };
    let mut desk = Desk::over(QueueRuntime::restore(task("new task"), state, false, PathStyle::Unix, NOW, 1_000));
    desk.runtime.begin(NOW);
    desk.run();
    assert_eq!(desk.snapshot().phase, QueuePhase::Paused);
    assert_eq!(desk.resumes, 0);
    assert_eq!(desk.starts, 0);
}

#[test]
fn the_mark_is_saved_before_the_request() {
    let config = task("do real work");
    let machine = QueueMachine::new(config.codex_path.clone());
    let mut desk = Desk::with(config, machine, true);
    desk.command(RuntimeCommand::Start);
    assert_eq!(desk.starts, 1);
    assert!(desk.saved.iter().any(|state| state.submission_uncertain));
    let last = desk.saved.last().unwrap();
    assert!(!last.submission_uncertain);
    assert_eq!(last.active_turn_id.as_deref(), Some("turn-1"));
    assert_eq!(last.prompt_digest.as_deref(), Some(prompt_digest("do real work").as_str()));
}

#[test]
fn a_crash_during_submission_is_reconciled() {
    let config = task("do real work");
    let machine = QueueMachine::new(config.codex_path.clone());
    let mut desk = Desk::with(config.copy(), machine, true);
    desk.command(RuntimeCommand::Start);
    let position = desk.saved.iter().position(|state| state.submission_uncertain).unwrap();
    let state = desk.saved.swap_remove(position);
    let mut desk = Desk::over(QueueRuntime::restore(config, state, false, PathStyle::Unix, NOW, 1_000));
    desk.runtime.begin(NOW);
    desk.settle();
    assert_eq!((desk.resumes, desk.new_threads, desk.starts), (1, 0, 0));
    assert_eq!(desk.snapshot().phase, QueuePhase::Backoff);
    assert!(!desk.snapshot().submission_uncertain);
}

#[test]
fn a_lost_answer_is_not_sent_again_at_once() {
    let mut desk = Desk::fresh(task("do real work"));
    desk.turns.push_back(Err(TransportError::Timeout("turn/start".into())));
    desk.command(RuntimeCommand::Start);
    assert_eq!(desk.starts, 1);
    assert!(desk.snapshot().submission_uncertain);
    assert_eq!(desk.snapshot().phase, QueuePhase::Connecting);
    assert_eq!(desk.snapshot().next_attempt_at, Some(NOW + 5 * SECOND));
    desk.latest_turn = Some(RestoredTurn {
        id: "adopted".into(),
        status: TurnStatus::InProgress,
        final_message: String::new(),
        error: None,
    });
    desk.pass(5);
    desk.deadline();
    assert_eq!(desk.starts, 1);
    assert_eq!(desk.snapshot().active_turn_id.as_deref(), Some("adopted"));
    assert!(!desk.snapshot().submission_uncertain);
}

#[test]
fn failed_connections_wait_longer_and_longer() {
    let mut desk = Desk::fresh(task("do real work"));
    for _ in 0..4 {
        desk.connects.push_back(Err(TransportError::Process("gone".into())));
    }
    desk.command(RuntimeCommand::Start);
    for seconds in [5, 15, 60, 60] {
        let next = desk.snapshot().next_attempt_at.unwrap();
        assert_eq!(next, desk.now + i128::from(seconds) * SECOND);
        desk.pass(seconds);
        desk.deadline();
    }
    assert_eq!(desk.starts, 1);
    assert_eq!(desk.runtime.core.connection_failures, 0);
}

#[test]
fn a_disconnect_keeps_the_planned_retry() {
    let mut desk = Desk::fresh(task("do real work"));
    desk.script = Some(high_demand);
    desk.command(RuntimeCommand::Start);
    let planned = desk.snapshot().next_attempt_at;
    desk.runtime.events_ended();
    desk.settle();
    assert_eq!(desk.shutdowns, 1);
    assert_eq!(desk.snapshot().next_attempt_at, planned);
    assert_eq!(desk.snapshot().phase, QueuePhase::Backoff);
    desk.pass(31);
    desk.deadline();
    assert_eq!(desk.resumes, 1);
    assert_eq!(desk.starts, 2);
}

#[test]
fn a_wake_up_sends_nothing() {
    let mut desk = Desk::fresh(task("do real work"));
    desk.script = Some(high_demand);
    desk.command(RuntimeCommand::Start);
    desk.sleep(18_000);
    assert!(desk.runtime.observe_wake(desk.now, desk.monotonic));
    desk.settle();
    assert_eq!(desk.starts, 1);
    assert_eq!(desk.snapshot().next_attempt_at, Some(desk.now + 60 * SECOND));
    assert!(!desk.runtime.observe_wake(desk.now, desk.monotonic));
}

#[test]
fn a_turn_that_takes_too_long_is_interrupted() {
    let mut config = task("do real work");
    config.turn_timeout_secs = 60;
    let mut desk = Desk::fresh(config);
    desk.command(RuntimeCommand::Start);
    let deadline = desk.runtime.next_deadline(desk.now, desk.monotonic).unwrap();
    assert_eq!(deadline, desk.monotonic + 60_000_000_000);
    desk.pass(60);
    desk.deadline();
    assert_eq!(desk.interrupts, [("thread".to_string(), "turn-1".to_string())]);
    assert!(desk.snapshot().active_turn_id.is_none());
    assert_eq!(desk.snapshot().phase, QueuePhase::Backoff);
}

#[test]
fn stopping_interrupts_and_forgets() {
    let mut desk = Desk::fresh(task("do real work"));
    desk.command(RuntimeCommand::Start);
    desk.command(RuntimeCommand::Stop);
    assert_eq!(desk.interrupts.len(), 1);
    assert!(desk.snapshot().active_thread_id.is_none());
    assert_eq!(desk.snapshot().phase, QueuePhase::Idle);
    assert!(!desk.runtime.core.started);
}

#[test]
fn pausing_keeps_the_running_turn() {
    let mut desk = Desk::fresh(task("do real work"));
    desk.command(RuntimeCommand::Start);
    desk.command(RuntimeCommand::Pause);
    assert_eq!(desk.snapshot().phase, QueuePhase::Paused);
    assert_eq!(desk.snapshot().active_thread_id.as_deref(), Some("thread"));
    assert!(!desk.runtime.core.started);
}

#[test]
fn an_empty_prompt_is_not_started() {
    let mut desk = Desk::fresh(task("  "));
    desk.command(RuntimeCommand::Start);
    assert_eq!(desk.starts, 0);
    assert!(!desk.runtime.core.started);
}

#[test]
fn fatal_errors_pause_the_queue() {
    let mut desk = Desk::fresh(task("do real work"));
    desk.command(RuntimeCommand::Start);
    desk.event(TransportEvent::Error {
        thread_id: "thread".into(),
        turn_id: "turn-1".into(),
        error: TurnError {
            message: "please sign in".into(),
            codex_error_info: Some(Json::text("unauthorized")),
            ..TurnError::default()
        },
        will_retry: false,
    });
    assert_eq!(desk.snapshot().phase, QueuePhase::Paused);
    assert!(!desk.runtime.core.started);
    assert_eq!(desk.snapshot().reply_preview, "please sign in");
}

#[test]
fn protocol_failures_are_fatal() {
    let mut desk = Desk::fresh(task("do real work"));
    desk.connects.push_back(Err(TransportError::Protocol("bad".into())));
    desk.command(RuntimeCommand::Start);
    assert_eq!(desk.snapshot().phase, QueuePhase::FatalError);
    assert!(!desk.runtime.core.started);
    assert_eq!(desk.starts, 0);
}

#[test]
fn a_missing_executable_pauses() {
    let mut desk = Desk::fresh(task("do real work"));
    desk.connects
        .push_back(Err(TransportError::ExecutableNotFound("codex".into())));
    desk.command(RuntimeCommand::Start);
    assert_eq!(desk.snapshot().phase, QueuePhase::Paused);
    assert!(!desk.runtime.core.started);
}

#[test]
fn replies_are_gathered_from_their_pieces() {
    let mut desk = Desk::fresh(task("do real work"));
    desk.command(RuntimeCommand::Start);
    for delta in ["你", "好"] {
        desk.event(TransportEvent::AgentMessageDelta {
            thread_id: "thread".into(),
            turn_id: "turn-1".into(),
            delta: delta.into(),
        });
    }
    desk.event(TransportEvent::AgentMessageDelta {
        thread_id: "thread".into(),
        turn_id: "turn-9".into(),
        delta: "!".into(),
    });
    assert_eq!(desk.snapshot().reply_preview, "你好");
    desk.event(TransportEvent::TurnCompleted {
        thread_id: "thread".into(),
        turn: completed("turn-1", "你好，完成"),
    });
    assert_eq!(desk.notices.len(), 1);
    assert_eq!(desk.notices[0].body, "你好，完成");
    assert_eq!(desk.notices[0].thread_id.as_deref(), Some("thread"));
    assert!(desk.notices[0].flash && desk.notices[0].audio);
}

#[test]
fn errors_are_shown_as_a_reply() {
    let text = |message: &str, details: Option<&str>| {
        error_conversation_text(&TurnError {
            message: message.into(),
            additional_details: details.map(Into::into),
            codex_error_info: None,
        })
    };
    assert_eq!(text(" a ", Some(" b ")), "a\n\nb");
    assert_eq!(text("a b", Some("b")), "a b");
    assert_eq!(text("", Some(" b")), "b");
    assert_eq!(text(" ", None), "Codex 返回了未说明原因的错误");
}

#[test]
fn runtime_errors_have_texts() {
    assert_eq!(
        Fault::MissingThread.error().message(),
        "内部状态异常：缺少活动线程 ID"
    );
    assert_eq!(
        Fault::TurnAlreadyActive.error().message(),
        "queue state error: a turn is already active"
    );
    assert_eq!(
        RuntimeError::Transport(TransportError::NotConnected).message(),
        format!("transport failed: {}", TransportError::NotConnected.message())
    );
    assert!(matches!(Desk::fresh(task("x")).runtime.awaiting, Awaiting::Nothing));
}
