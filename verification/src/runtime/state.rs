//! The state of the controller and its transitions.

use vstd::prelude::*;

use crate::backoff::{RetryPolicy, WakeDetector, DAY_NANOS};
use crate::classifier::{
    classify_error_notification, classify_turn_completion, CompletedStatus, TurnDecision, TurnError,
};
use crate::clock::{monotonic_nanos, span, valid_time};
use crate::config::{prompt_digest, PersistedQueueState, QueueConfig};
use crate::json::Json;
use crate::paths::{same_opt_path, same_path, PathStyle};
use crate::queue::{QueueMachine, QueuePhase, QueueSnapshot};
use crate::runtime::model::{
    completed_status, connection_delay, conversation_error, one_line, rpc_error, save_ops,
    ActionView, AwaitingView, CoreView, Fault, NoticeView, OpView, Plan,
};
use crate::text::{
    cat, cat3, contains, copy_opt, from_chars, is_blank, is_text, join, number_text, opt, same,
    split_words, starts_with, to_chars, trim, views,
};
use crate::transport::{RestoredTurn, ThreadSession, TransportError, TransportEvent, TurnStatus};

verus! {

/// One thing that the controller has to do.
#[derive(Debug)]
pub enum Op {
    /// Show the snapshot.
    Publish,
    /// Save the state; a failure is only shown.
    Save,
    /// Save the state with the mark; without success nothing is sent.
    SaveCritical,
    /// Save the configuration.
    SaveConfig,
    /// Tell the carrier whether the fallback is allowed.
    AllowFallback(bool),
    /// Tell the carrier to keep the window of the app-server hidden.
    HideWindow,
    /// Ask the carrier for its status.
    RefreshStatus,
    /// Shut the carrier down.
    Shutdown,
    /// Connect the carrier.
    Connect,
    /// Start or resume the thread.
    OpenThread,
    /// Hand the task over.
    Submit,
    /// Interrupt a turn of a thread.
    Interrupt(String, String),
    /// Announce the success.
    Notify,
    /// See to the connection and the thread.
    EnsureConnection,
    /// Go by the latest turn of the thread.
    SettleSession(Option<RestoredTurn>),
    /// Begin a new attempt.
    SendAttempt,
    /// Set the mark that the outcome of the request is unknown.
    MarkUncertain,
    /// Rest because the mark could not be saved.
    AbandonSubmission,
    /// Plan a retry.
    Retry(String),
    /// Plan to connect again.
    RetryConnection(String),
    /// Rest after a failure.
    PauseAfterFailure(String),
    /// Stop after a failure of the protocol.
    FatalAfterFailure(String),
    /// Go on after the connection was lost.
    AfterDisconnect(String, bool),
    /// Give up a turn that took too long.
    CloseTimedOutTurn,
    /// Show a warning.
    Warn(String),
    /// Take over a configuration and start with it.
    Configure(QueueConfig),
    /// Set the queue going.
    Start,
    /// End the controller.
    Abort(Fault),
}

impl View for Op {
    type V = OpView;

    open spec fn view(&self) -> OpView {
        match self {
            Op::Publish => OpView::Publish,
            Op::Save => OpView::Save,
            Op::SaveCritical => OpView::SaveCritical,
            Op::SaveConfig => OpView::SaveConfig,
            Op::AllowFallback(allowed) => OpView::AllowFallback(*allowed),
            Op::HideWindow => OpView::HideWindow,
            Op::RefreshStatus => OpView::RefreshStatus,
            Op::Shutdown => OpView::Shutdown,
            Op::Connect => OpView::Connect,
            Op::OpenThread => OpView::OpenThread,
            Op::Submit => OpView::Submit,
            Op::Interrupt(thread_id, turn_id) => OpView::Interrupt(thread_id@, turn_id@),
            Op::Notify => OpView::Notify,
            Op::EnsureConnection => OpView::EnsureConnection,
            Op::SettleSession(latest_turn) => OpView::SettleSession(opt(*latest_turn)),
            Op::SendAttempt => OpView::SendAttempt,
            Op::MarkUncertain => OpView::MarkUncertain,
            Op::AbandonSubmission => OpView::AbandonSubmission,
            Op::Retry(reason) => OpView::Retry(reason@),
            Op::RetryConnection(reason) => OpView::RetryConnection(reason@),
            Op::PauseAfterFailure(reason) => OpView::PauseAfterFailure(reason@),
            Op::FatalAfterFailure(reason) => OpView::FatalAfterFailure(reason@),
            Op::AfterDisconnect(message, preserve) => OpView::AfterDisconnect(message@, *preserve),
            Op::CloseTimedOutTurn => OpView::CloseTimedOutTurn,
            Op::Warn(warning) => OpView::Warn(warning@),
            Op::Configure(config) => OpView::Configure(config@),
            Op::Start => OpView::Start,
            Op::Abort(fault) => OpView::Abort(*fault),
        }
    }
}

/// What is announced when a task is done.
#[derive(Debug)]
pub struct Notice {
    pub title: String,
    pub body: String,
    pub thread_id: Option<String>,
    pub codex_path: String,
    pub flash: bool,
    pub audio: bool,
}

impl View for Notice {
    type V = NoticeView;

    open spec fn view(&self) -> NoticeView {
        NoticeView {
            title: self.title@,
            body: self.body@,
            thread_id: opt(self.thread_id),
            codex_path: self.codex_path@,
            flash: self.flash,
            audio: self.audio,
        }
    }
}

/// What the surrounding program is asked to do.
#[derive(Debug)]
pub enum Action {
    /// Nothing is left to do: wait for the next command, event or deadline.
    Idle,
    /// Advance again.
    Continue,
    Publish(QueueSnapshot),
    /// Save the state, then report with `state_saved`.
    SaveState(PersistedQueueState),
    /// Save the configuration, then report with `config_saved`.
    SaveConfig(QueueConfig),
    AllowFallback(bool),
    HideWindow,
    /// Read the status of the carrier, then report with `status_read`.
    ReadStatus,
    /// Shut the carrier down, then report its status with `shut_down`.
    Shutdown,
    /// Connect the carrier, then report with `connect_answered`.
    Connect,
    /// Start a thread, then report with `thread_answered`.
    StartThread { working_directory: Option<String> },
    /// Resume a thread, then report with `thread_answered`.
    ResumeThread { thread_id: String, working_directory: Option<String> },
    /// Start a turn, then report with `turn_answered`.
    StartTurn { thread_id: String, prompt: String, working_directory: Option<String> },
    /// Interrupt a turn, waiting for it at most five seconds, then report with
    /// `interrupted`.
    Interrupt { thread_id: String, turn_id: String },
    /// Draw a jittered delay, then report with `delay_drawn`.
    DrawDelay { policy: RetryPolicy, retry_number: u32 },
    Notify(Notice),
    /// End the controller with an error.
    Fail(Fault),
}

impl View for Action {
    type V = ActionView;

    open spec fn view(&self) -> ActionView {
        match self {
            Action::Idle => ActionView::Idle,
            Action::Continue => ActionView::Continue,
            Action::Publish(snapshot) => ActionView::Publish(snapshot@),
            Action::SaveState(state) => ActionView::SaveState(state@),
            Action::SaveConfig(config) => ActionView::SaveConfig(config@),
            Action::AllowFallback(allowed) => ActionView::AllowFallback(*allowed),
            Action::HideWindow => ActionView::HideWindow,
            Action::ReadStatus => ActionView::ReadStatus,
            Action::Shutdown => ActionView::Shutdown,
            Action::Connect => ActionView::Connect,
            Action::StartThread { working_directory } => ActionView::StartThread {
                working_directory: opt(*working_directory),
            },
            Action::ResumeThread { thread_id, working_directory } => ActionView::ResumeThread {
                thread_id: thread_id@,
                working_directory: opt(*working_directory),
            },
            Action::StartTurn { thread_id, prompt, working_directory } => ActionView::StartTurn {
                thread_id: thread_id@,
                prompt: prompt@,
                working_directory: opt(*working_directory),
            },
            Action::Interrupt { thread_id, turn_id } => ActionView::Interrupt {
                thread_id: thread_id@,
                turn_id: turn_id@,
            },
            Action::DrawDelay { policy, retry_number } => ActionView::DrawDelay {
                policy: *policy,
                retry_number: *retry_number,
            },
            Action::Notify(notice) => ActionView::Notify(notice@),
            Action::Fail(fault) => ActionView::Fail(*fault),
        }
    }
}

/// What the controller waits for.
#[derive(Debug)]
pub enum Awaiting {
    Nothing,
    Save,
    CriticalSave,
    ConfigSave,
    Status,
    Shutdown,
    Connect,
    Thread,
    Turn,
    Interrupt,
    Delay(String),
}

impl View for Awaiting {
    type V = AwaitingView;

    open spec fn view(&self) -> AwaitingView {
        match self {
            Awaiting::Nothing => AwaitingView::Nothing,
            Awaiting::Save => AwaitingView::Save,
            Awaiting::CriticalSave => AwaitingView::CriticalSave,
            Awaiting::ConfigSave => AwaitingView::ConfigSave,
            Awaiting::Status => AwaitingView::Status,
            Awaiting::Shutdown => AwaitingView::Shutdown,
            Awaiting::Connect => AwaitingView::Connect,
            Awaiting::Thread => AwaitingView::Thread,
            Awaiting::Turn => AwaitingView::Turn,
            Awaiting::Interrupt => AwaitingView::Interrupt,
            Awaiting::Delay(reason) => AwaitingView::Delay(reason@),
        }
    }
}

/// The state of the controller.
#[derive(Debug)]
pub struct RuntimeCore {
    pub config: QueueConfig,
    pub machine: QueueMachine,
    pub has_store: bool,
    /// How paths are written.
    pub style: PathStyle,
    pub wake_detector: WakeDetector,
    pub started: bool,
    pub connected: bool,
    pub connection_failures: u32,
    pub turn_deadline: Option<u128>,
    pub success_notified: bool,
    pub state_failures: u32,
    pub config_failed: bool,
}

impl View for RuntimeCore {
    type V = CoreView;

    open spec fn view(&self) -> CoreView {
        CoreView {
            config: self.config@,
            machine: self.machine@,
            has_store: self.has_store,
            style: self.style,
            wake_detector: self.wake_detector,
            started: self.started,
            connected: self.connected,
            connection_failures: self.connection_failures,
            turn_deadline: self.turn_deadline,
            success_notified: self.success_notified,
            state_failures: self.state_failures,
            config_failed: self.config_failed,
        }
    }
}

/// The largest monotonic time.
pub const MAX_MONOTONIC: u128 = 0x7fff_ffff_ffff_ffff_ffff_ffff_ffff_ffff;

/// Whether the clocks show times at which the controller can plan: a day back
/// and a minute ahead are still times of the calendar.
pub open spec fn clocks_usable(now: i128, monotonic: u128) -> bool {
    &&& valid_time(now as int)
    &&& valid_time(now - DAY_NANOS)
    &&& valid_time(now + 60_000_000_000)
    &&& monotonic <= MAX_MONOTONIC
}

/// A transition gives the state and the things to do of a plan.
pub open spec fn follows(core: CoreView, ops: Seq<OpView>, plan: Plan) -> bool {
    core == plan.core && ops == plan.ops
}

fn no_ops() -> (r: Vec<Op>)
    ensures
        views(r@) == Seq::<OpView>::empty(),
{
    let ops: Vec<Op> = Vec::new();
    assert(views(ops@) =~= Seq::<OpView>::empty());
    ops
}

/// The list with one more thing to do at its end.
pub fn and_op(ops: Vec<Op>, op: Op) -> (r: Vec<Op>)
    ensures
        views(r@) == views(ops@).push(op@),
{
    let mut ops = ops;
    let ghost before = views(ops@);
    ops.push(op);
    assert(views(ops@) =~= before.push(op@));
    ops
}

fn one_op(op: Op) -> (r: Vec<Op>)
    ensures
        views(r@) == seq![op@],
{
    let ops = and_op(no_ops(), op);
    assert(views(ops@) =~= seq![op@]);
    ops
}

fn two_ops(first: Op, second: Op) -> (r: Vec<Op>)
    ensures
        views(r@) == seq![first@, second@],
{
    let ops = and_op(one_op(first), second);
    assert(views(ops@) =~= seq![first@, second@]);
    ops
}

fn three_ops(first: Op, second: Op, third: Op) -> (r: Vec<Op>)
    ensures
        views(r@) == seq![first@, second@, third@],
{
    let ops = and_op(two_ops(first, second), third);
    assert(views(ops@) =~= seq![first@, second@, third@]);
    ops
}

fn publish_and_persist() -> (r: Vec<Op>)
    ensures
        views(r@) == save_ops(),
{
    two_ops(Op::Publish, Op::Save)
}

/// The list followed by showing the snapshot and saving the state.
fn and_persist(ops: Vec<Op>) -> (r: Vec<Op>)
    ensures
        views(r@) == views(ops@) + save_ops(),
{
    let ghost before = views(ops@);
    let ops = and_op(and_op(ops, Op::Publish), Op::Save);
    assert(views(ops@) =~= before + save_ops());
    ops
}

/// The delay before the connection is tried again, in seconds.
pub fn connection_retry_delay_seconds(failure_count: u32) -> (r: u32)
    ensures
        r == connection_delay(failure_count),
{
    if failure_count <= 1 {
        5
    } else if failure_count == 2 {
        15
    } else {
        60
    }
}

/// The text that stands for an error in the conversation.
pub fn error_conversation_text(error: &TurnError) -> (r: String)
    ensures
        r@ == conversation_error(error@),
        r@.len() > 0,
{
    let message = trim(error.message.as_str());
    let details = match &error.additional_details {
        Some(text) => trim(text.as_str()),
        None => String::new(),
    };
    proof {
        reveal_strlit("Codex 返回了未说明原因的错误");
    }
    if !message.as_str().is_empty() {
        if !details.as_str().is_empty() && !contains(message.as_str(), details.as_str()) {
            cat3(message.as_str(), "\n\n", details.as_str())
        } else {
            message
        }
    } else if !details.as_str().is_empty() {
        details
    } else {
        "Codex 返回了未说明原因的错误".to_owned()
    }
}

/// A text in one line, cut after a number of characters.
pub fn notification_preview(text: &str, max_chars: usize) -> (r: String)
    ensures
        r@ == one_line(text@, max_chars as int),
{
    let line = join(&split_words(text), " ");
    if line.as_str().is_empty() {
        return "任务已完成".to_owned();
    }
    let chars = to_chars(line.as_str());
    if chars.len() > max_chars {
        let mut preview = from_chars(&chars, 0, max_chars);
        preview.push('…');
        assert(preview@ =~= line@.take(max_chars as int).push('…'));
        preview
    } else {
        line
    }
}

fn completed(status: TurnStatus) -> (r: CompletedStatus)
    ensures
        r == completed_status(status),
{
    match status {
        TurnStatus::Completed => CompletedStatus::Completed,
        TurnStatus::Interrupted => CompletedStatus::Interrupted,
        TurnStatus::Failed => CompletedStatus::Failed,
        TurnStatus::InProgress => CompletedStatus::InProgress,
    }
}

fn error_of_rpc(message: String, data: Option<Json>) -> (r: TurnError)
    ensures
        r@ == rpc_error(message@, opt(data)),
{
    match data {
        Some(json) => {
            let details = json.to_text();
            let info = match json.get("codexErrorInfo") {
                Some(info) => info.copy(),
                None => json.copy(),
            };
            TurnError { message, additional_details: Some(details), codex_error_info: Some(info) }
        },
        None => TurnError { message, additional_details: None, codex_error_info: None },
    }
}

impl RuntimeCore {
    fn turn_limit(&self, monotonic: u128) -> (r: Option<u128>)
        requires
            monotonic <= MAX_MONOTONIC,
        ensures
            r == self@.turn_limit(monotonic),
    {
        Some(monotonic + monotonic_nanos(self.config.turn_timeout_secs))
    }

    /// Reads the clocks without asking whether the machine slept.
    pub fn reset_wake_baseline(&mut self, now: i128, monotonic: u128)
        requires
            valid_time(now as int),
            valid_time(old(self)@.wake_detector.wall as int),
        ensures
            final(self)@ == old(self)@.clocks_read(now, monotonic),
    {
        let _ = self.wake_detector.observe(now, monotonic);
    }

    /// The user sets the queue going.
    pub fn handle_start(&mut self) -> (r: Vec<Op>)
        ensures
            follows(final(self)@, views(r@), old(self)@.start()),
    {
        reveal(CoreView::start);
        if self.started {
            return no_ops();
        }
        if self.machine.snapshot.phase == QueuePhase::Success {
            return no_ops();
        }
        if let Err(error) = self.config.validate() {
            self.machine.pause(cat("配置无效：", error.message().as_str()).as_str());
            return publish_and_persist();
        }
        self.started = true;
        self.success_notified = false;
        if self.machine.snapshot.phase == QueuePhase::Paused || self.machine.snapshot.phase
            == QueuePhase::FatalError || self.machine.snapshot.phase == QueuePhase::Idle {
            self.machine.reactivate();
        }
        three_ops(Op::Publish, Op::Save, Op::EnsureConnection)
    }

    fn apply_live_settings(&mut self, config: QueueConfig) -> (r: (bool, Vec<Op>))
        requires
            old(self)@.task_locked(),
            !config@.equal(old(self)@.config, old(self)@.style),
        ensures
            r.0 == old(self)@.configure_accepted(config@),
            follows(final(self)@, views(r.1@), old(self)@.configure(config@)),
    {
        reveal(CoreView::configure);
        let ghost before = self@;
        self.config.gui_fallback_enabled = config.gui_fallback_enabled;
        self.config.full_screen_flash_enabled = config.full_screen_flash_enabled;
        self.config.audio_alert_enabled = config.audio_alert_enabled;
        let only_live_settings_changed = self.config.equals(&config, self.style);
        let mut ops = two_ops(
            Op::AllowFallback(config.gui_fallback_enabled),
            Op::SaveConfig,
        );
        if !only_live_settings_changed {
            ops =
            and_op(
                ops,
                Op::Warn(
                    "任务运行中：提醒与兼容开关已生效，任务内容和重试参数需停止后修改".to_owned(),
                ),
            );
        }
        let ops = and_persist(ops);
        assert(views(ops@) =~= before.configure(config@).ops);
        (only_live_settings_changed, ops)
    }

    /// The user changes the configuration; tells whether it is taken over as it is.
    pub fn handle_configure(&mut self, config: QueueConfig) -> (r: (bool, Vec<Op>))
        ensures
            r.0 == old(self)@.configure_accepted(config@),
            follows(final(self)@, views(r.1@), old(self)@.configure(config@)),
    {
        reveal(CoreView::configure);
        if config.equals(&self.config, self.style) {
            return (true, no_ops());
        }
        let task_locked = self.started || self.machine.snapshot.active_turn_id.is_some()
            || self.machine.snapshot.submission_uncertain;
        if task_locked {
            return self.apply_live_settings(config);
        }
        let task_changed = !same(config.prompt.as_str(), self.config.prompt.as_str()) || !same_opt_path(
            &config.working_directory,
            &self.config.working_directory,
            self.style,
        );
        if task_changed && self.machine.snapshot.active_thread_id.is_some() {
            self.machine.set_status(
                "更换任务或工作目录前请先点击“停止”，以创建新的持久线程",
            );
            return (false, publish_and_persist());
        }
        if let Err(error) = config.validate() {
            self.machine.set_status(cat("配置无效：", error.message().as_str()).as_str());
            return (false, publish_and_persist());
        }
        if !same_path(config.codex_path.as_str(), self.config.codex_path.as_str(), self.style) {
            self.machine.set_status("Codex 路径已保存；请重启 Longwatch 后再开始");
            self.config = config;
            return (false, three_ops(Op::SaveConfig, Op::Publish, Op::Save));
        }
        let ghost before = self@;
        let allowed = config.gui_fallback_enabled;
        self.config = config;
        let ops = and_persist(three_ops(Op::AllowFallback(allowed), Op::HideWindow, Op::SaveConfig));
        assert(views(ops@) =~= before.configure(config@).ops);
        (true, ops)
    }

    /// The user changes the configuration and sets the queue going with it.
    pub fn handle_configure_and_start(&mut self, config: QueueConfig) -> (r: Vec<Op>)
        ensures
            follows(final(self)@, views(r@), old(self)@.configure_and_start(config@)),
    {
        let (accepted, ops) = self.handle_configure(config);
        if accepted {
            let ghost before = views(ops@);
            let ops = and_op(ops, Op::Start);
            assert(views(ops@) =~= before + seq![OpView::Start]);
            ops
        } else {
            ops
        }
    }

    /// A task that is done is given up before the next one is configured.
    pub fn handle_start_configured(&mut self, config: QueueConfig) -> (r: Vec<Op>)
        ensures
            follows(final(self)@, views(r@), old(self)@.start_configured(config@)),
    {
        if self.machine.snapshot.phase == QueuePhase::Success {
            let ops = self.handle_stop();
            let ghost before = views(ops@);
            let ops = and_op(ops, Op::Configure(config));
            assert(views(ops@) =~= before + seq![OpView::Configure(config@)]);
            ops
        } else {
            self.handle_configure_and_start(config)
        }
    }

    /// The list followed by the request that interrupts the turn under way.
    fn and_interruption(&self, ops: Vec<Op>) -> (r: Vec<Op>)
        ensures
            views(r@) == views(ops@) + self@.interruption(),
    {
        let ghost before = views(ops@);
        if let Some(thread_id) = &self.machine.snapshot.active_thread_id {
            if let Some(turn_id) = &self.machine.snapshot.active_turn_id {
                let ops = and_op(ops, Op::Interrupt(thread_id.clone(), turn_id.clone()));
                assert(views(ops@) =~= before + self@.interruption());
                return ops;
            }
        }
        assert(before + Seq::<OpView>::empty() =~= before);
        ops
    }

    /// The user pauses the queue.
    pub fn handle_pause(&mut self) -> (r: Vec<Op>)
        ensures
            follows(final(self)@, views(r@), old(self)@.pause()),
    {
        let ops = self.and_interruption(publish_and_persist());
        self.started = false;
        self.machine.pause("已暂停；不会自动发送新的回合");
        self.turn_deadline = None;
        ops
    }

    /// The user gives the task up.
    pub fn handle_stop(&mut self) -> (r: Vec<Op>)
        ensures
            follows(final(self)@, views(r@), old(self)@.stop()),
    {
        let ghost interruption = self@.interruption();
        let ops = and_op(self.and_interruption(publish_and_persist()), Op::Shutdown);
        assert(views(ops@) =~= save_ops() + interruption + seq![OpView::Shutdown]);
        self.started = false;
        self.machine.stop();
        self.turn_deadline = None;
        ops
    }

    /// The carrier and the thread are needed.
    pub fn ensure_connection_and_thread(&mut self) -> (r: Vec<Op>)
        ensures
            follows(final(self)@, views(r@), old(self)@.ensure_connection()),
    {
        if !self.connected {
            self.machine.begin_connecting();
            return three_ops(Op::Publish, Op::Save, Op::Connect);
        }
        one_op(Op::OpenThread)
    }

    /// The carrier answered the request to connect.
    pub fn connect_answered(
        &mut self,
        answer: Result<(), TransportError>,
        now: i128,
        monotonic: u128,
    ) -> (r: Vec<Op>)
        requires
            clocks_usable(now, monotonic),
            valid_time(old(self)@.wake_detector.wall as int),
        ensures
            follows(
                final(self)@,
                views(r@),
                old(self)@.connect_answered(
                    match answer {
                        Ok(_) => None,
                        Err(error) => Some(error@),
                    },
                    now,
                    monotonic,
                ),
            ),
    {
        self.reset_wake_baseline(now, monotonic);
        match answer {
            Err(error) => self.handle_transport_failure(error, now),
            Ok(_) => {
                self.connected = true;
                let ops = and_op(
                    three_ops(Op::RefreshStatus, Op::Publish, Op::Save),
                    Op::OpenThread,
                );
                assert(views(ops@) =~= seq![
                    OpView::RefreshStatus,
                    OpView::Publish,
                    OpView::Save,
                    OpView::OpenThread,
                ]);
                ops
            },
        }
    }

    /// The thread was opened.
    pub fn thread_opened(
        &mut self,
        session: ThreadSession,
        now: i128,
        monotonic: u128,
    ) -> (r: Vec<Op>)
        requires
            clocks_usable(now, monotonic),
            valid_time(old(self)@.wake_detector.wall as int),
        ensures
            follows(
                final(self)@,
                views(r@),
                old(self)@.thread_opened(session@, now, monotonic),
            ),
    {
        self.reset_wake_baseline(now, monotonic);
        self.connection_failures = 0;
        self.machine.set_thread(session.id);
        three_ops(Op::Publish, Op::Save, Op::SettleSession(session.latest_turn))
    }

    fn maybe_submitted(&self) -> (r: bool)
        ensures
            r == self@.maybe_submitted(),
    {
        self.machine.snapshot.active_turn_id.is_some() || self.machine.snapshot.submission_uncertain
            || self.machine.snapshot.phase == QueuePhase::Sending || self.machine.snapshot.phase
            == QueuePhase::Waiting
    }

    /// What follows once the thread is open, by its latest turn.
    pub fn apply_thread_session(
        &mut self,
        latest_turn: Option<RestoredTurn>,
        now: i128,
        monotonic: u128,
    ) -> (r: Vec<Op>)
        requires
            clocks_usable(now, monotonic),
        ensures
            follows(
                final(self)@,
                views(r@),
                old(self)@.settle_session(opt(latest_turn), now, monotonic),
            ),
    {
        reveal(CoreView::settle_session);
        match latest_turn {
            Some(turn) => match turn.status {
                TurnStatus::InProgress => {
                    if !is_text(&self.machine.snapshot.active_turn_id, turn.id.as_str()) {
                        self.machine.clear_active_turn();
                        self.machine.set_reply_preview("");
                    }
                    self.machine.clear_submission_uncertain();
                    let _ = self.machine.set_active_turn(turn.id);
                    self.turn_deadline = self.turn_limit(monotonic);
                    publish_and_persist()
                },
                _ => {
                    if self.maybe_submitted() {
                        self.handle_completed_turn(&turn, now)
                    } else if self.started {
                        one_op(Op::SendAttempt)
                    } else {
                        no_ops()
                    }
                },
            },
            None => {
                if !self.started {
                    no_ops()
                } else if self.maybe_submitted() {
                    one_op(Op::Retry("无法确认上一次回合是否已提交".to_owned()))
                } else {
                    one_op(Op::SendAttempt)
                }
            },
        }
    }

    /// A new attempt begins, where one may.
    pub fn send_attempt(&mut self, now: i128) -> (r: Vec<Op>)
        requires
            valid_time(now as int),
            valid_time(now - DAY_NANOS),
        ensures
            follows(final(self)@, views(r@), old(self)@.send_attempt(now)),
    {
        reveal(CoreView::send_attempt);
        if !self.started || self.machine.snapshot.active_thread_id.is_none() {
            return no_ops();
        }
        if let Some(next) = self.machine.snapshot.next_attempt_at {
            if next > now {
                return no_ops();
            }
        }
        match self.machine.begin_sending(now) {
            Err(_) => no_ops(),
            Ok(_) => three_ops(Op::Publish, Op::Save, Op::MarkUncertain),
        }
    }

    /// The mark is set that the outcome of the request will be unknown.
    pub fn mark_uncertain(&mut self) -> (r: Vec<Op>)
        ensures
            follows(final(self)@, views(r@), old(self)@.mark_uncertain()),
    {
        self.machine.mark_submission_uncertain();
        two_ops(Op::Publish, Op::SaveCritical)
    }

    /// The mark could not be saved, so that nothing is sent.
    pub fn abandon_submission(&mut self) -> (r: Vec<Op>)
        ensures
            follows(final(self)@, views(r@), old(self)@.abandon_submission()),
    {
        self.started = false;
        self.turn_deadline = None;
        self.machine.clear_submission_uncertain();
        self.machine.pause("无法安全保存提交状态，已暂停以避免重复发送任务");
        one_op(Op::Publish)
    }

    /// The carrier answered the request to start a turn.
    pub fn turn_answered(
        &mut self,
        answer: Result<crate::transport::StartedTurn, TransportError>,
        now: i128,
        monotonic: u128,
    ) -> (r: Vec<Op>)
        requires
            clocks_usable(now, monotonic),
            valid_time(old(self)@.wake_detector.wall as int),
        ensures
            follows(
                final(self)@,
                views(r@),
                old(self)@.turn_answered(
                    match answer {
                        Ok(turn) => Ok(turn@),
                        Err(error) => Err(error@),
                    },
                    now,
                    monotonic,
                ),
            ),
    {
        reveal(CoreView::turn_answered);
        self.reset_wake_baseline(now, monotonic);
        match answer {
            Ok(turn) => match self.machine.set_active_turn(turn.id) {
                Ok(_) => {
                    self.turn_deadline = self.turn_limit(monotonic);
                    publish_and_persist()
                },
                Err(_) => one_op(Op::Abort(Fault::TurnAlreadyActive)),
            },
            Err(error) => {
                let uncertain = match &error {
                    TransportError::Timeout(_) => true,
                    TransportError::Process(_) => true,
                    _ => false,
                };
                if uncertain {
                    let text = error.message();
                    self.machine.set_reply_preview(text.as_str());
                    two_ops(Op::Shutdown, Op::RetryConnection(text))
                } else {
                    self.handle_transport_failure(error, now)
                }
            },
        }
    }

    fn matches_active(&self, thread_id: &str, turn_id: &str) -> (r: bool)
        ensures
            r == self@.matches_active(thread_id@, turn_id@),
    {
        is_text(&self.machine.snapshot.active_thread_id, thread_id) && is_text(
            &self.machine.snapshot.active_turn_id,
            turn_id,
        )
    }

    /// The carrier reports something.
    pub fn handle_event(
        &mut self,
        event: TransportEvent,
        now: i128,
        monotonic: u128,
    ) -> (r: Vec<Op>)
        requires
            clocks_usable(now, monotonic),
        ensures
            follows(final(self)@, views(r@), old(self)@.event(event@, now, monotonic)),
    {
        reveal(CoreView::event);
        match event {
            TransportEvent::AgentMessageDelta { thread_id, turn_id, delta } => {
                if self.matches_active(thread_id.as_str(), turn_id.as_str()) {
                    self.machine.append_reply_delta(delta.as_str());
                    one_op(Op::Publish)
                } else {
                    no_ops()
                }
            },
            TransportEvent::TurnStarted { thread_id, turn_id } => {
                if !is_text(&self.machine.snapshot.active_thread_id, thread_id.as_str()) || !(
                self.machine.snapshot.phase == QueuePhase::Sending || self.machine.snapshot.phase
                    == QueuePhase::Waiting) {
                    return no_ops();
                }
                match self.machine.set_active_turn(turn_id) {
                    Ok(_) => {
                        self.turn_deadline = self.turn_limit(monotonic);
                        publish_and_persist()
                    },
                    Err(_) => no_ops(),
                }
            },
            TransportEvent::ThreadResolved { previous_thread_id, thread_id, turn_id } => {
                if self.matches_active(previous_thread_id.as_str(), turn_id.as_str()) {
                    self.machine.resolve_thread(thread_id);
                    publish_and_persist()
                } else {
                    no_ops()
                }
            },
            TransportEvent::Error { thread_id, turn_id, error, will_retry } => {
                if self.matches_active(thread_id.as_str(), turn_id.as_str()) {
                    self.handle_turn_error(&error, will_retry, now)
                } else {
                    no_ops()
                }
            },
            TransportEvent::TurnCompleted { thread_id, turn } => {
                if self.matches_active(thread_id.as_str(), turn.id.as_str()) {
                    self.handle_completed_turn(&turn, now)
                } else {
                    no_ops()
                }
            },
            TransportEvent::Disconnected { message } => {
                if self.started {
                    self.handle_disconnect(message)
                } else {
                    no_ops()
                }
            },
            TransportEvent::Diagnostic { message } => {
                if self.machine.snapshot.phase == QueuePhase::Backoff {
                    no_ops()
                } else {
                    self.machine.set_status(message.as_str());
                    one_op(Op::Publish)
                }
            },
        }
    }

    fn handle_turn_error(&mut self, error: &TurnError, will_retry: bool, now: i128) -> (r: Vec<Op>)
        requires
            valid_time(now as int),
            valid_time(now + 60_000_000_000),
        ensures
            follows(final(self)@, views(r@), old(self)@.turn_error(error@, will_retry, now)),
    {
        reveal(CoreView::turn_error);
        let conversation = error_conversation_text(error);
        self.machine.set_reply_preview(conversation.as_str());
        match classify_error_notification(error, will_retry, &self.config.failure_phrases) {
            TurnDecision::WaitForInternalRetry(reason) => {
                self.machine.note_internal_retry(reason.as_str());
                publish_and_persist()
            },
            TurnDecision::WaitForInternalRetryQuiet(reason) => {
                self.machine.note_internal_retry_quiet(reason.as_str());
                publish_and_persist()
            },
            TurnDecision::Retryable(reason) => one_op(Op::Retry(reason)),
            TurnDecision::RetryImmediately(reason) => self.schedule_immediate_retry(
                reason.as_str(),
                now,
            ),
            TurnDecision::RetryImmediatelyQuiet(reason) => self.schedule_quiet_immediate_retry(
                reason.as_str(),
                now,
            ),
            TurnDecision::Pause(reason) => {
                self.machine.pause(reason.as_str());
                self.started = false;
                self.turn_deadline = None;
                publish_and_persist()
            },
            TurnDecision::Success => no_ops(),
        }
    }

    /// The turn has ended.
    pub fn handle_completed_turn(&mut self, turn: &RestoredTurn, now: i128) -> (r: Vec<Op>)
        requires
            valid_time(now as int),
            valid_time(now + 60_000_000_000),
        ensures
            follows(final(self)@, views(r@), old(self)@.turn_completed(turn@, now)),
    {
        reveal(CoreView::turn_completed);
        let error = match &turn.error {
            Some(error) => Some(error),
            None => None,
        };
        assert(opt(error) == opt(turn.error));
        let decision = classify_turn_completion(
            completed(turn.status),
            turn.final_message.as_str(),
            error,
            &self.config.failure_phrases,
            self.machine.snapshot.empty_reply_count,
            self.config.retry_policy.max_empty_replies,
        );
        let conversation = if is_blank(turn.final_message.as_str()) {
            match &turn.error {
                Some(error) => error_conversation_text(error),
                None => String::new(),
            }
        } else {
            turn.final_message.clone()
        };
        self.machine.set_reply_preview(conversation.as_str());
        if turn.status != TurnStatus::InProgress {
            self.machine.clear_submission_uncertain();
        }
        self.turn_deadline = None;
        self.conclude_turn(decision, is_blank(turn.final_message.as_str()), now)
    }

    fn conclude_turn(&mut self, decision: TurnDecision, empty_reply: bool, now: i128) -> (r: Vec<Op>)
        requires
            valid_time(now as int),
            valid_time(now + 60_000_000_000),
        ensures
            follows(final(self)@, views(r@), old(self)@.turn_decided(decision@, empty_reply, now)),
    {
        reveal(CoreView::turn_decided);
        match decision {
            TurnDecision::Success => {
                self.machine.succeed("任务成功完成");
                self.started = false;
                let announced = self.success_notified;
                self.success_notified = true;
                if announced {
                    publish_and_persist()
                } else {
                    and_persist(one_op(Op::Notify))
                }
            },
            TurnDecision::Retryable(reason) => {
                if empty_reply {
                    self.machine.mark_empty_reply();
                }
                and_persist(one_op(Op::Retry(reason)))
            },
            TurnDecision::RetryImmediately(reason) => and_persist(
                self.schedule_immediate_retry(reason.as_str(), now),
            ),
            TurnDecision::RetryImmediatelyQuiet(reason) => and_persist(
                self.schedule_quiet_immediate_retry(reason.as_str(), now),
            ),
            TurnDecision::WaitForInternalRetry(reason) => {
                self.machine.note_internal_retry(reason.as_str());
                publish_and_persist()
            },
            TurnDecision::WaitForInternalRetryQuiet(reason) => {
                self.machine.note_internal_retry_quiet(reason.as_str());
                publish_and_persist()
            },
            TurnDecision::Pause(reason) => {
                self.machine.pause(reason.as_str());
                self.started = false;
                publish_and_persist()
            },
        }
    }

    /// The connection is gone.
    pub fn handle_disconnect(&mut self, message: String) -> (r: Vec<Op>)
        ensures
            follows(final(self)@, views(r@), old(self)@.disconnected(message@)),
    {
        let preserve_backoff = self.machine.snapshot.phase == QueuePhase::Backoff
            && self.machine.snapshot.next_attempt_at.is_some();
        two_ops(Op::Shutdown, Op::AfterDisconnect(message, preserve_backoff))
    }

    /// What follows once a carrier whose connection is gone was shut down.
    pub fn after_disconnect(&mut self, message: &str, preserve: bool) -> (r: Vec<Op>)
        ensures
            follows(final(self)@, views(r@), old(self)@.after_disconnect(message@, preserve)),
    {
        reveal(CoreView::after_disconnect);
        self.turn_deadline = None;
        if !self.started || preserve {
            return publish_and_persist();
        }
        let error_text = cat("app-server 已断开：", message);
        self.machine.set_reply_preview(error_text.as_str());
        one_op(Op::RetryConnection(cat(error_text.as_str(), "；正在恢复线程")))
    }

    /// A request to the carrier failed.
    pub fn handle_transport_failure(&mut self, error: TransportError, now: i128) -> (r: Vec<
        Op,
    >)
        requires
            valid_time(now as int),
            valid_time(now + 60_000_000_000),
        ensures
            follows(final(self)@, views(r@), old(self)@.transport_failed(error@, now)),
    {
        reveal(CoreView::transport_failed);
        let text = error.message();
        self.machine.set_reply_preview(text.as_str());
        match error {
            TransportError::ExecutableNotFound(_)
            | TransportError::FallbackDisabled(_)
            | TransportError::Unavailable(_) => two_ops(Op::Shutdown, Op::PauseAfterFailure(text)),
            TransportError::Protocol(_) => two_ops(Op::Shutdown, Op::FatalAfterFailure(text)),
            TransportError::Rpc { code: _, message, data } => {
                let error = error_of_rpc(message, data);
                self.handle_rpc_error(&error, now)
            },
            TransportError::Timeout(_) | TransportError::Process(_) => two_ops(
                Op::Shutdown,
                Op::RetryConnection(text),
            ),
            TransportError::NotConnected => {
                self.connected = false;
                two_ops(
                    Op::RefreshStatus,
                    Op::RetryConnection("Codex app-server 尚未连接".to_owned()),
                )
            },
        }
    }

    fn handle_rpc_error(&mut self, error: &TurnError, now: i128) -> (r: Vec<Op>)
        requires
            valid_time(now as int),
            valid_time(now + 60_000_000_000),
        ensures
            follows(final(self)@, views(r@), old(self)@.rpc_failed(error@, now)),
    {
        reveal(CoreView::rpc_failed);
        let conversation = error_conversation_text(error);
        self.machine.set_reply_preview(conversation.as_str());
        match classify_error_notification(error, false, &self.config.failure_phrases) {
            TurnDecision::Retryable(reason) => one_op(Op::Retry(reason)),
            TurnDecision::RetryImmediately(reason) => self.schedule_immediate_retry(
                reason.as_str(),
                now,
            ),
            TurnDecision::RetryImmediatelyQuiet(reason) => self.schedule_quiet_immediate_retry(
                reason.as_str(),
                now,
            ),
            TurnDecision::WaitForInternalRetry(reason) => {
                self.machine.note_internal_retry(reason.as_str());
                publish_and_persist()
            },
            TurnDecision::WaitForInternalRetryQuiet(reason) => {
                self.machine.note_internal_retry_quiet(reason.as_str());
                publish_and_persist()
            },
            TurnDecision::Pause(reason) => two_ops(Op::Shutdown, Op::PauseAfterFailure(reason)),
            TurnDecision::Success => no_ops(),
        }
    }

    /// The queue rests after a failure that the user has to mend.
    pub fn pause_after_failure(&mut self, reason: &str) -> (r: Vec<Op>)
        ensures
            follows(final(self)@, views(r@), old(self)@.pause_after_failure(reason@)),
    {
        self.turn_deadline = None;
        self.machine.pause(reason);
        self.started = false;
        publish_and_persist()
    }

    /// The queue stops after a failure of the protocol.
    pub fn fatal_after_failure(&mut self, reason: &str) -> (r: Vec<Op>)
        ensures
            follows(final(self)@, views(r@), old(self)@.fatal_after_failure(reason@)),
    {
        self.turn_deadline = None;
        self.machine.fatal(reason);
        self.started = false;
        publish_and_persist()
    }

    /// The connection is tried again after a while.
    pub fn schedule_connection_retry(&mut self, reason: &str, now: i128) -> (r: Vec<Op>)
        requires
            valid_time(now as int),
            valid_time(now + 60_000_000_000),
        ensures
            follows(final(self)@, views(r@), old(self)@.retry_connection(reason@, now)),
    {
        reveal(CoreView::retry_connection);
        self.turn_deadline = None;
        self.connection_failures = self.connection_failures.saturating_add(1);
        let delay_seconds: u32 = connection_retry_delay_seconds(self.connection_failures);
        self.machine.record_retry_alert();
        self.machine.begin_connecting();
        let mut status = cat3(
            reason,
            "；第 ",
            number_text(self.connection_failures as u64).as_str(),
        );
        status.push_str(" 次连接恢复，");
        status.push_str(number_text(delay_seconds as u64).as_str());
        status.push_str(" 秒后重试");
        self.machine.set_status(status.as_str());
        let next: i128 = now + delay_seconds as i128 * 1_000_000_000;
        self.machine.set_next_attempt_at(next);
        publish_and_persist()
    }

    fn explain(&mut self, reason: &str)
        ensures
            final(self)@ == old(self)@.explained(reason@),
    {
        self.turn_deadline = None;
        if is_blank(self.machine.snapshot.reply_preview.as_str()) {
            self.machine.set_reply_preview(reason);
        }
    }

    /// A retry is planned; what is missing is the delay.
    pub fn schedule_retry(&mut self, reason: &str) -> (r: u32)
        ensures
            final(self)@ == old(self)@.explained(reason@),
            r == crate::queue::counted_u32(old(self)@.snap().consecutive_retries),
    {
        self.explain(reason);
        self.machine.snapshot.consecutive_retries.saturating_add(1)
    }

    /// The delay before a retry was drawn.
    pub fn delay_drawn(&mut self, reason: &str, drawn_secs: u64, now: i128) -> (r: Vec<Op>)
        requires
            valid_time(now as int),
            valid_time(now + span(RetryPolicy::delay(drawn_secs))),
        ensures
            follows(final(self)@, views(r@), old(self)@.delay_drawn(reason@, drawn_secs, now)),
    {
        let _ = self.machine.schedule_retry(now, reason, drawn_secs);
        self.machine.set_status(cat(reason, "；已安排低频重试").as_str());
        publish_and_persist()
    }

    /// Codex gave up by itself, so that a new round begins after a second.
    pub fn schedule_immediate_retry(&mut self, reason: &str, now: i128) -> (r: Vec<Op>)
        requires
            valid_time(now as int),
            valid_time(now + 60_000_000_000),
        ensures
            follows(final(self)@, views(r@), old(self)@.retry_soon(reason@, now)),
    {
        self.explain(reason);
        let _ = self.machine.schedule_retry(now, reason, 0);
        self.machine.set_next_attempt_at(now + 1_000_000_000);
        self.machine.set_status(cat(reason, "；正在开始新一轮尝试").as_str());
        publish_and_persist()
    }

    /// The servers are busy, so that a new attempt begins at once.
    pub fn schedule_quiet_immediate_retry(&mut self, reason: &str, now: i128) -> (r: Vec<Op>)
        ensures
            follows(final(self)@, views(r@), old(self)@.retry_quietly(reason@, now)),
    {
        self.explain(reason);
        let _ = self.machine.schedule_quiet_immediate_retry(now, reason);
        publish_and_persist()
    }

    /// A deadline has passed.
    pub fn handle_deadline(&mut self) -> (r: Vec<Op>)
        ensures
            follows(final(self)@, views(r@), old(self)@.deadline_passed()),
    {
        reveal(CoreView::deadline_passed);
        if self.machine.snapshot.phase == QueuePhase::Backoff || self.machine.snapshot.phase
            == QueuePhase::Connecting {
            return one_op(Op::EnsureConnection);
        }
        if self.machine.snapshot.active_turn_id.is_some() {
            if self.machine.snapshot.active_thread_id.is_some() {
                let ghost interruption = self@.interruption();
                let ops = and_op(self.and_interruption(no_ops()), Op::CloseTimedOutTurn);
                assert(views(ops@) =~= interruption + seq![OpView::CloseTimedOutTurn]);
                ops
            } else {
                no_ops()
            }
        } else if self.machine.snapshot.next_attempt_at.is_some() {
            one_op(Op::EnsureConnection)
        } else {
            no_ops()
        }
    }

    /// A turn that took too long was interrupted.
    pub fn close_timed_out_turn(&mut self) -> (r: Vec<Op>)
        ensures
            follows(final(self)@, views(r@), old(self)@.close_timed_out_turn()),
    {
        self.machine.clear_active_turn();
        self.turn_deadline = None;
        and_persist(one_op(Op::Retry("回合超时，已发送中断请求".to_owned())))
    }

    /// The machine woke up; tells whether that changes anything.
    pub fn apply_wake_delay(&mut self, now: i128, monotonic: u128) -> (r: (bool, Vec<Op>))
        requires
            valid_time(now as int),
            old(self)@.snap().delayable() ==> valid_time(
                now + span(old(self)@.config.retry_policy.wake_secs()),
            ),
            monotonic <= MAX_MONOTONIC,
        ensures
            r.0 == old(self)@.wake_matters(),
            follows(final(self)@, views(r.1@), old(self)@.woken(now, monotonic)),
    {
        reveal(CoreView::woken);
        let policy = self.config.retry_policy;
        let mut changed = self.machine.delay_after_wake(now, &policy);
        if self.machine.snapshot.phase == QueuePhase::Waiting
            && self.machine.snapshot.active_turn_id.is_some() {
            let wake_floor: u128 = monotonic + monotonic_nanos(policy.wake_delay());
            let deadline: u128 = match self.turn_deadline {
                Some(deadline) => {
                    if deadline < wake_floor {
                        wake_floor
                    } else {
                        deadline
                    }
                },
                None => wake_floor,
            };
            self.turn_deadline = Some(deadline);
            self.machine.set_status("检测到系统唤醒；继续等待当前回合，不会立即补发");
            changed = true;
        }
        if changed {
            (true, publish_and_persist())
        } else {
            (false, no_ops())
        }
    }

    fn clear_persistence_warning_if_recovered(&mut self) -> (r: Vec<Op>)
        ensures
            follows(final(self)@, views(r@), old(self)@.warning_cleared()),
    {
        let about_saving = match &self.machine.snapshot.runtime_warning {
            Some(warning) => starts_with(warning.as_str(), "状态保存失败") || starts_with(
                warning.as_str(),
                "配置保存失败",
            ),
            None => false,
        };
        if self.state_failures == 0 && !self.config_failed && about_saving {
            self.machine.clear_runtime_warning();
            one_op(Op::Publish)
        } else {
            no_ops()
        }
    }

    /// The state was saved, or not.
    pub fn state_saved(&mut self, failure: &Option<String>) -> (r: Vec<Op>)
        ensures
            follows(final(self)@, views(r@), old(self)@.state_saved(opt(*failure))),
    {
        match failure {
            None => {
                if self.state_failures > 0 {
                    self.state_failures = 0;
                    self.clear_persistence_warning_if_recovered()
                } else {
                    no_ops()
                }
            },
            Some(error) => {
                self.state_failures = self.state_failures.saturating_add(1);
                let mut warning = cat3(
                    "状态保存失败（连续 ",
                    number_text(self.state_failures as u64).as_str(),
                    " 次），当前任务仍在内存中运行：",
                );
                warning.push_str(error.as_str());
                self.machine.set_runtime_warning(warning);
                one_op(Op::Publish)
            },
        }
    }

    /// The state with the mark was saved, or not: only then is the request sent.
    pub fn critical_saved(&mut self, failure: &Option<String>) -> (r: Vec<Op>)
        ensures
            follows(final(self)@, views(r@), old(self)@.critical_saved(opt(*failure))),
    {
        let ops = self.state_saved(failure);
        let ghost before = views(ops@);
        let last = match failure {
            None => Op::Submit,
            Some(_) => Op::AbandonSubmission,
        };
        let ghost last_view = last@;
        let ops = and_op(ops, last);
        assert(views(ops@) =~= before + seq![last_view]);
        ops
    }

    /// The configuration was saved, or not.
    pub fn config_saved(&mut self, failure: &Option<String>) -> (r: Vec<Op>)
        ensures
            follows(final(self)@, views(r@), old(self)@.config_saved(opt(*failure))),
    {
        match failure {
            None => {
                if self.config_failed {
                    self.config_failed = false;
                    self.clear_persistence_warning_if_recovered()
                } else {
                    no_ops()
                }
            },
            Some(error) => {
                self.config_failed = true;
                self.machine.set_runtime_warning(
                    cat("配置保存失败，本次设置仅在当前会话生效：", error.as_str()),
                );
                one_op(Op::Publish)
            },
        }
    }

    /// What is announced when the task is done.
    pub fn notice(&self) -> (r: Notice)
        ensures
            r@ == self@.notice(),
    {
        Notice {
            title: notification_preview(self.config.prompt.as_str(), 96),
            body: notification_preview(self.machine.snapshot.reply_preview.as_str(), 220),
            thread_id: copy_opt(&self.machine.snapshot.active_thread_id),
            codex_path: self.config.codex_path.clone(),
            flash: self.config.full_screen_flash_enabled,
            audio: self.config.audio_alert_enabled,
        }
    }

    /// The state that is saved.
    pub fn saved_state(&self) -> (r: PersistedQueueState)
        ensures
            r@ == self@.saved_state(),
    {
        self.machine.persisted(Some(prompt_digest(self.config.prompt.as_str())))
    }
}

} // verus!
