//! The state machine of the queue: one task, one thread, at most one turn.

use vstd::prelude::*;

use crate::backoff::{recent_attempts, AttemptLedger, RetryPolicy, DAY_NANOS};
use crate::clock::{span, span_nanos, valid_time};
use crate::config::{PersistedQueueState, StateView, STATE_VERSION};
use crate::text::{cat, copy_opt, keep_last_chars, last_chars, opt, same};
use crate::transport::{no_transport, StatusView, TransportStatus};

verus! {

/// What the queue is doing.
#[derive(Clone, Copy, Debug, PartialEq, Eq, Structural)]
pub enum QueuePhase {
    Idle,
    Connecting,
    Sending,
    Waiting,
    Backoff,
    Success,
    Paused,
    FatalError,
}

impl Default for QueuePhase {
    fn default() -> (r: QueuePhase)
        ensures
            r == QueuePhase::Idle,
    {
        QueuePhase::Idle
    }
}

impl QueuePhase {
    /// The name that the user is shown.
    pub open spec fn name(self) -> Seq<char> {
        match self {
            QueuePhase::Idle => "空闲"@,
            QueuePhase::Connecting => "连接中"@,
            QueuePhase::Sending => "发送中"@,
            QueuePhase::Waiting => "等待 Codex"@,
            QueuePhase::Backoff => "退避等待"@,
            QueuePhase::Success => "成功"@,
            QueuePhase::Paused => "已暂停"@,
            QueuePhase::FatalError => "致命错误"@,
        }
    }

    /// The name that the user is shown.
    pub fn label(self) -> (r: &'static str)
        ensures
            r@ == self.name(),
    {
        match self {
            QueuePhase::Idle => "空闲",
            QueuePhase::Connecting => "连接中",
            QueuePhase::Sending => "发送中",
            QueuePhase::Waiting => "等待 Codex",
            QueuePhase::Backoff => "退避等待",
            QueuePhase::Success => "成功",
            QueuePhase::Paused => "已暂停",
            QueuePhase::FatalError => "致命错误",
        }
    }
}

/// What the display shows of the queue.
#[derive(Debug)]
pub struct QueueSnapshot {
    pub phase: QueuePhase,
    pub status_message: String,
    pub active_thread_id: Option<String>,
    pub active_turn_id: Option<String>,
    pub submission_uncertain: bool,
    pub attempt_count: u64,
    pub consecutive_retries: u32,
    pub retry_alert_count: u64,
    pub empty_reply_count: u8,
    pub next_attempt_at: Option<i128>,
    pub reply_preview: String,
    pub codex_path: String,
    /// A warning of the moment.  It is not persisted, so that a passing disk
    /// failure does not turn into stale state after the next launch.
    pub runtime_warning: Option<String>,
    /// What is known of the carrier.  It is rebuilt on launch and not persisted.
    pub transport_status: TransportStatus,
}

/// The content of a [`QueueSnapshot`].
pub struct SnapshotView {
    pub phase: QueuePhase,
    pub status_message: Seq<char>,
    pub active_thread_id: Option<Seq<char>>,
    pub active_turn_id: Option<Seq<char>>,
    pub submission_uncertain: bool,
    pub attempt_count: u64,
    pub consecutive_retries: u32,
    pub retry_alert_count: u64,
    pub empty_reply_count: u8,
    pub next_attempt_at: Option<i128>,
    pub reply_preview: Seq<char>,
    pub codex_path: Seq<char>,
    pub runtime_warning: Option<Seq<char>>,
    pub transport_status: StatusView,
}

impl View for QueueSnapshot {
    type V = SnapshotView;

    open spec fn view(&self) -> SnapshotView {
        SnapshotView {
            phase: self.phase,
            status_message: self.status_message@,
            active_thread_id: opt(self.active_thread_id),
            active_turn_id: opt(self.active_turn_id),
            submission_uncertain: self.submission_uncertain,
            attempt_count: self.attempt_count,
            consecutive_retries: self.consecutive_retries,
            retry_alert_count: self.retry_alert_count,
            empty_reply_count: self.empty_reply_count,
            next_attempt_at: self.next_attempt_at,
            reply_preview: self.reply_preview@,
            codex_path: self.codex_path@,
            runtime_warning: opt(self.runtime_warning),
            transport_status: self.transport_status@,
        }
    }
}

/// The snapshot of a queue without a task.
pub open spec fn default_snapshot() -> SnapshotView {
    SnapshotView {
        phase: QueuePhase::Idle,
        status_message: "等待任务"@,
        active_thread_id: None,
        active_turn_id: None,
        submission_uncertain: false,
        attempt_count: 0,
        consecutive_retries: 0,
        retry_alert_count: 0,
        empty_reply_count: 0,
        next_attempt_at: None,
        reply_preview: Seq::empty(),
        codex_path: "codex"@,
        runtime_warning: None,
        transport_status: no_transport(),
    }
}

impl Default for QueueSnapshot {
    fn default() -> (r: QueueSnapshot)
        ensures
            r@ == default_snapshot(),
    {
        QueueSnapshot {
            phase: QueuePhase::Idle,
            status_message: "等待任务".to_owned(),
            active_thread_id: None,
            active_turn_id: None,
            submission_uncertain: false,
            attempt_count: 0,
            consecutive_retries: 0,
            retry_alert_count: 0,
            empty_reply_count: 0,
            next_attempt_at: None,
            reply_preview: String::new(),
            codex_path: "codex".to_owned(),
            runtime_warning: None,
            transport_status: TransportStatus::default(),
        }
    }
}

impl QueueSnapshot {
    /// A copy of the snapshot.
    pub fn copy(&self) -> (r: QueueSnapshot)
        ensures
            r@ == self@,
    {
        QueueSnapshot {
            phase: self.phase,
            status_message: self.status_message.clone(),
            active_thread_id: copy_opt(&self.active_thread_id),
            active_turn_id: copy_opt(&self.active_turn_id),
            submission_uncertain: self.submission_uncertain,
            attempt_count: self.attempt_count,
            consecutive_retries: self.consecutive_retries,
            retry_alert_count: self.retry_alert_count,
            empty_reply_count: self.empty_reply_count,
            next_attempt_at: self.next_attempt_at,
            reply_preview: self.reply_preview.clone(),
            codex_path: self.codex_path.clone(),
            runtime_warning: copy_opt(&self.runtime_warning),
            transport_status: self.transport_status.copy(),
        }
    }
}

/// The only way in which an operation of the queue can be refused.
#[derive(Clone, Copy, Debug, PartialEq, Eq, Structural)]
pub enum QueueError {
    TurnAlreadyActive,
}

impl QueueError {
    /// The text of the error.
    pub fn message(&self) -> (r: String)
        ensures
            r@ == "a turn is already active"@,
    {
        "a turn is already active".to_owned()
    }
}

/// The state machine of the queue.
#[derive(Debug)]
pub struct QueueMachine {
    pub snapshot: QueueSnapshot,
    pub attempts: AttemptLedger,
}

/// The content of a [`QueueMachine`].
pub struct MachineView {
    pub snapshot: SnapshotView,
    pub attempts: Seq<i128>,
}

impl View for QueueMachine {
    type V = MachineView;

    open spec fn view(&self) -> MachineView {
        MachineView { snapshot: self.snapshot@, attempts: self.attempts@ }
    }
}

/// The most characters of a reply that are kept.
pub const MAX_PREVIEW_CHARS: usize = 4_000;

/// One more, unless the counter is at its end.
pub open spec fn counted_u64(count: u64) -> u64 {
    if count == u64::MAX {
        count
    } else {
        (count + 1) as u64
    }
}

/// One more, unless the counter is at its end.
pub open spec fn counted_u32(count: u32) -> u32 {
    if count == u32::MAX {
        count
    } else {
        (count + 1) as u32
    }
}

/// One more, unless the counter is at its end.
pub open spec fn counted_u8(count: u8) -> u8 {
    if count == u8::MAX {
        count
    } else {
        (count + 1) as u8
    }
}

impl SnapshotView {
    pub open spec fn connecting(self) -> SnapshotView {
        SnapshotView {
            phase: QueuePhase::Connecting,
            status_message: "正在启动 Codex app-server"@,
            next_attempt_at: None,
            ..self
        }
    }

    pub open spec fn reactivated(self) -> SnapshotView {
        SnapshotView {
            phase: QueuePhase::Connecting,
            status_message: "正在恢复排队任务"@,
            next_attempt_at: None,
            ..self
        }
    }

    pub open spec fn with_thread(self, thread_id: Seq<char>) -> SnapshotView {
        SnapshotView {
            active_thread_id: Some(thread_id),
            status_message: "线程已恢复，准备发送"@,
            ..self
        }
    }

    pub open spec fn with_resolved_thread(self, thread_id: Seq<char>) -> SnapshotView {
        SnapshotView { active_thread_id: Some(thread_id), ..self }
    }

    pub open spec fn sending(self) -> SnapshotView {
        SnapshotView {
            attempt_count: counted_u64(self.attempt_count),
            phase: QueuePhase::Sending,
            status_message: "正在发送原始任务"@,
            next_attempt_at: None,
            reply_preview: Seq::empty(),
            submission_uncertain: false,
            ..self
        }
    }

    pub open spec fn with_uncertainty(self, uncertain: bool) -> SnapshotView {
        SnapshotView { submission_uncertain: uncertain, ..self }
    }

    /// Whether a turn may become the active one: there is none, or it is that one.
    pub open spec fn accepts_turn(self, turn_id: Seq<char>) -> bool {
        self.active_turn_id is None || self.active_turn_id == Some(turn_id)
    }

    pub open spec fn with_turn(self, turn_id: Seq<char>) -> SnapshotView {
        SnapshotView {
            active_turn_id: Some(turn_id),
            submission_uncertain: false,
            phase: QueuePhase::Waiting,
            status_message: "Codex 正在处理；不会并发发送"@,
            ..self
        }
    }

    pub open spec fn with_preview(self, reply: Seq<char>) -> SnapshotView {
        SnapshotView { reply_preview: last_chars(reply, MAX_PREVIEW_CHARS as int), ..self }
    }

    pub open spec fn with_status(self, message: Seq<char>) -> SnapshotView {
        SnapshotView { status_message: message, ..self }
    }

    pub open spec fn with_warning(self, warning: Option<Seq<char>>) -> SnapshotView {
        SnapshotView { runtime_warning: warning, ..self }
    }

    pub open spec fn with_transport(self, status: StatusView) -> SnapshotView {
        SnapshotView { transport_status: status, ..self }
    }

    pub open spec fn with_next_attempt(self, next: i128) -> SnapshotView {
        SnapshotView { next_attempt_at: Some(next), ..self }
    }

    pub open spec fn alerted(self) -> SnapshotView {
        SnapshotView { retry_alert_count: counted_u64(self.retry_alert_count), ..self }
    }

    pub open spec fn internally_retrying(self, message: Seq<char>) -> SnapshotView {
        SnapshotView {
            phase: QueuePhase::Waiting,
            status_message: "Codex 正在内部重试："@ + message,
            ..self
        }.alerted()
    }

    pub open spec fn quietly_retrying(self, message: Seq<char>) -> SnapshotView {
        SnapshotView {
            phase: QueuePhase::Waiting,
            status_message: "Codex 正在静默重试："@ + message,
            ..self
        }
    }

    pub open spec fn without_turn(self) -> SnapshotView {
        SnapshotView { active_turn_id: None, ..self }
    }

    pub open spec fn with_empty_reply(self) -> SnapshotView {
        SnapshotView { empty_reply_count: counted_u8(self.empty_reply_count), ..self }
    }

    pub open spec fn backing_off(
        self,
        now: int,
        reason: Seq<char>,
        drawn_secs: u64,
        show_alert: bool,
    ) -> SnapshotView {
        SnapshotView {
            active_turn_id: None,
            submission_uncertain: false,
            consecutive_retries: counted_u32(self.consecutive_retries),
            retry_alert_count: if show_alert {
                counted_u64(self.retry_alert_count)
            } else {
                self.retry_alert_count
            },
            phase: QueuePhase::Backoff,
            status_message: reason + "；已安排低频重试"@,
            next_attempt_at: Some((now + span(RetryPolicy::delay(drawn_secs))) as i128),
            ..self
        }
    }

    pub open spec fn retrying_quietly(self, now: i128, reason: Seq<char>) -> SnapshotView {
        SnapshotView {
            active_turn_id: None,
            submission_uncertain: false,
            consecutive_retries: counted_u32(self.consecutive_retries),
            phase: QueuePhase::Connecting,
            status_message: reason + "；立即重试"@,
            next_attempt_at: Some(now),
            ..self
        }
    }

    /// Whether an attempt is planned that a wake-up may put off.
    pub open spec fn delayable(self) -> bool {
        (self.phase == QueuePhase::Backoff || self.phase == QueuePhase::Connecting)
            && self.next_attempt_at is Some
    }

    pub open spec fn delayed_after_wake(self, now: int, policy: RetryPolicy) -> SnapshotView {
        let floor = now + span(policy.wake_secs());
        if self.delayable() {
            SnapshotView {
                next_attempt_at: Some(
                    if self.next_attempt_at->0 < floor {
                        floor as i128
                    } else {
                        self.next_attempt_at->0
                    },
                ),
                status_message: "检测到系统唤醒；至少等待 60 秒后再试"@,
                ..self
            }
        } else {
            self
        }
    }

    pub open spec fn succeeded(self, message: Seq<char>) -> SnapshotView {
        SnapshotView {
            phase: QueuePhase::Success,
            status_message: message,
            active_turn_id: None,
            submission_uncertain: false,
            next_attempt_at: None,
            consecutive_retries: 0,
            empty_reply_count: 0,
            ..self
        }
    }

    pub open spec fn paused(self, reason: Seq<char>) -> SnapshotView {
        SnapshotView {
            phase: QueuePhase::Paused,
            status_message: reason,
            next_attempt_at: None,
            ..self
        }
    }

    pub open spec fn failed(self, reason: Seq<char>) -> SnapshotView {
        SnapshotView {
            phase: QueuePhase::FatalError,
            status_message: reason,
            next_attempt_at: None,
            ..self
        }
    }

    pub open spec fn stopped(self) -> SnapshotView {
        SnapshotView {
            codex_path: self.codex_path,
            status_message: "已停止；持久线程记录已清除"@,
            ..default_snapshot()
        }
    }
}

impl MachineView {
    /// The same attempts with another snapshot.
    pub open spec fn with(self, snapshot: SnapshotView) -> MachineView {
        MachineView { snapshot, ..self }
    }

    /// The state that outlives the process.
    pub open spec fn to_state(self, prompt_digest: Option<Seq<char>>) -> StateView {
        StateView {
            version: STATE_VERSION,
            phase: self.snapshot.phase,
            status_message: self.snapshot.status_message,
            active_thread_id: self.snapshot.active_thread_id,
            active_turn_id: self.snapshot.active_turn_id,
            submission_uncertain: self.snapshot.submission_uncertain,
            attempt_count: self.snapshot.attempt_count,
            consecutive_retries: self.snapshot.consecutive_retries,
            retry_alert_count: self.snapshot.retry_alert_count,
            empty_reply_count: self.snapshot.empty_reply_count,
            next_attempt_at: self.snapshot.next_attempt_at,
            reply_preview: self.snapshot.reply_preview,
            attempts: self.attempts,
            prompt_digest,
        }
    }

    /// The machine that a persisted state gives back.
    pub open spec fn from_state(state: StateView, codex_path: Seq<char>) -> MachineView {
        MachineView {
            snapshot: SnapshotView {
                phase: state.phase,
                status_message: state.status_message,
                active_thread_id: state.active_thread_id,
                active_turn_id: state.active_turn_id,
                submission_uncertain: state.submission_uncertain,
                attempt_count: state.attempt_count,
                consecutive_retries: state.consecutive_retries,
                retry_alert_count: state.retry_alert_count,
                empty_reply_count: state.empty_reply_count,
                next_attempt_at: state.next_attempt_at,
                reply_preview: state.reply_preview,
                codex_path,
                runtime_warning: None,
                transport_status: no_transport(),
            },
            attempts: state.attempts,
        }
    }
}

impl QueueMachine {
    /// A machine without a task.
    pub fn new(codex_path: String) -> (r: QueueMachine)
        ensures
            r@ == (MachineView {
                snapshot: SnapshotView { codex_path: codex_path@, ..default_snapshot() },
                attempts: Seq::empty(),
            }),
    {
        let mut snapshot = QueueSnapshot::default();
        snapshot.codex_path = codex_path;
        QueueMachine { snapshot, attempts: AttemptLedger::default() }
    }

    /// The machine that a persisted state gives back.
    pub fn restore(state: PersistedQueueState, codex_path: String) -> (r: QueueMachine)
        ensures
            r@ == MachineView::from_state(state@, codex_path@),
    {
        QueueMachine {
            snapshot: QueueSnapshot {
                phase: state.phase,
                status_message: state.status_message,
                active_thread_id: state.active_thread_id,
                active_turn_id: state.active_turn_id,
                submission_uncertain: state.submission_uncertain,
                attempt_count: state.attempt_count,
                consecutive_retries: state.consecutive_retries,
                retry_alert_count: state.retry_alert_count,
                empty_reply_count: state.empty_reply_count,
                next_attempt_at: state.next_attempt_at,
                reply_preview: state.reply_preview,
                codex_path,
                runtime_warning: None,
                transport_status: TransportStatus::default(),
            },
            attempts: state.attempts,
        }
    }

    /// What the display shows.
    pub fn snapshot(&self) -> (r: &QueueSnapshot)
        ensures
            *r == self.snapshot,
    {
        &self.snapshot
    }

    /// The state that outlives the process.
    pub fn persisted(&self, prompt_digest: Option<String>) -> (r: PersistedQueueState)
        ensures
            r@ == self@.to_state(opt(prompt_digest)),
    {
        PersistedQueueState {
            version: STATE_VERSION,
            phase: self.snapshot.phase,
            status_message: self.snapshot.status_message.clone(),
            active_thread_id: copy_opt(&self.snapshot.active_thread_id),
            active_turn_id: copy_opt(&self.snapshot.active_turn_id),
            submission_uncertain: self.snapshot.submission_uncertain,
            attempt_count: self.snapshot.attempt_count,
            consecutive_retries: self.snapshot.consecutive_retries,
            retry_alert_count: self.snapshot.retry_alert_count,
            empty_reply_count: self.snapshot.empty_reply_count,
            next_attempt_at: self.snapshot.next_attempt_at,
            reply_preview: self.snapshot.reply_preview.clone(),
            attempts: self.attempts.copy(),
            prompt_digest,
        }
    }

    /// The carrier is being connected.
    pub fn begin_connecting(&mut self)
        ensures
            final(self)@ == old(self)@.with(old(self)@.snapshot.connecting()),
    {
        self.snapshot.phase = QueuePhase::Connecting;
        self.snapshot.status_message = "正在启动 Codex app-server".to_owned();
        self.snapshot.next_attempt_at = None;
    }

    /// A queue at rest is set going again.
    pub fn reactivate(&mut self)
        ensures
            final(self)@ == old(self)@.with(old(self)@.snapshot.reactivated()),
    {
        self.snapshot.phase = QueuePhase::Connecting;
        self.snapshot.status_message = "正在恢复排队任务".to_owned();
        self.snapshot.next_attempt_at = None;
    }

    /// The thread of the task is known.
    pub fn set_thread(&mut self, thread_id: String)
        ensures
            final(self)@ == old(self)@.with(old(self)@.snapshot.with_thread(thread_id@)),
    {
        self.snapshot.active_thread_id = Some(thread_id);
        self.snapshot.status_message = "线程已恢复，准备发送".to_owned();
    }

    /// A provisional thread turned out to be another one.
    pub fn resolve_thread(&mut self, thread_id: String)
        ensures
            final(self)@ == old(self)@.with(old(self)@.snapshot.with_resolved_thread(thread_id@)),
    {
        self.snapshot.active_thread_id = Some(thread_id);
    }

    /// A new attempt begins: refused exactly while a turn is active.
    pub fn begin_sending(&mut self, now: i128) -> (r: Result<(), QueueError>)
        requires
            valid_time(now as int),
            valid_time(now - DAY_NANOS),
        ensures
            old(self)@.snapshot.active_turn_id is Some ==> {
                &&& r == Err::<(), QueueError>(QueueError::TurnAlreadyActive)
                &&& final(self)@ == old(self)@
            },
            old(self)@.snapshot.active_turn_id is None ==> {
                &&& r == Ok::<(), QueueError>(())
                &&& final(self)@ == (MachineView {
                    snapshot: old(self)@.snapshot.sending(),
                    attempts: recent_attempts(old(self)@.attempts, now).push(now),
                })
            },
    {
        if self.snapshot.active_turn_id.is_some() {
            return Err(QueueError::TurnAlreadyActive);
        }
        self.attempts.record(now);
        self.snapshot.attempt_count = self.snapshot.attempt_count.saturating_add(1);
        self.snapshot.phase = QueuePhase::Sending;
        self.snapshot.status_message = "正在发送原始任务".to_owned();
        self.snapshot.next_attempt_at = None;
        self.snapshot.reply_preview = String::new();
        self.snapshot.submission_uncertain = false;
        Ok(())
    }

    /// A request is about to be handed over and its outcome is unknown.  The
    /// mark is persisted before the request is sent and cleared only after the
    /// server has acknowledged or reconciled the turn.
    pub fn mark_submission_uncertain(&mut self)
        ensures
            final(self)@ == old(self)@.with(old(self)@.snapshot.with_uncertainty(true)),
    {
        self.snapshot.submission_uncertain = true;
    }

    /// The outcome of the request is known.
    pub fn clear_submission_uncertain(&mut self)
        ensures
            final(self)@ == old(self)@.with(old(self)@.snapshot.with_uncertainty(false)),
    {
        self.snapshot.submission_uncertain = false;
    }

    /// The turn of the task is known: refused exactly while another one is active.
    pub fn set_active_turn(&mut self, turn_id: String) -> (r: Result<(), QueueError>)
        ensures
            r == (if old(self)@.snapshot.accepts_turn(turn_id@) {
                Ok::<(), QueueError>(())
            } else {
                Err(QueueError::TurnAlreadyActive)
            }),
            final(self)@ == (if r is Ok {
                old(self)@.with(old(self)@.snapshot.with_turn(turn_id@))
            } else {
                old(self)@
            }),
    {
        if let Some(active) = &self.snapshot.active_turn_id {
            if !same(active.as_str(), turn_id.as_str()) {
                return Err(QueueError::TurnAlreadyActive);
            }
        }
        self.snapshot.active_turn_id = Some(turn_id);
        self.snapshot.submission_uncertain = false;
        self.snapshot.phase = QueuePhase::Waiting;
        self.snapshot.status_message = "Codex 正在处理；不会并发发送".to_owned();
        Ok(())
    }

    /// More of the reply has arrived; the last 4000 characters are kept.
    pub fn append_reply_delta(&mut self, delta: &str)
        ensures
            final(self)@ == old(self)@.with(
                old(self)@.snapshot.with_preview(old(self)@.snapshot.reply_preview + delta@),
            ),
    {
        let whole = cat(self.snapshot.reply_preview.as_str(), delta);
        self.snapshot.reply_preview = keep_last_chars(whole.as_str(), MAX_PREVIEW_CHARS);
    }

    /// The reply is known; the last 4000 characters are kept.
    pub fn set_reply_preview(&mut self, reply: &str)
        ensures
            final(self)@ == old(self)@.with(old(self)@.snapshot.with_preview(reply@)),
    {
        self.snapshot.reply_preview = keep_last_chars(reply, MAX_PREVIEW_CHARS);
    }

    /// Sets the line that the user is shown.
    pub fn set_status(&mut self, message: &str)
        ensures
            final(self)@ == old(self)@.with(old(self)@.snapshot.with_status(message@)),
    {
        self.snapshot.status_message = message.to_owned();
    }

    /// Sets the warning of the moment.
    pub fn set_runtime_warning(&mut self, message: String)
        ensures
            final(self)@ == old(self)@.with(old(self)@.snapshot.with_warning(Some(message@))),
    {
        self.snapshot.runtime_warning = Some(message);
    }

    /// Sets what is known of the carrier.
    pub fn set_transport_status(&mut self, status: TransportStatus)
        ensures
            final(self)@ == old(self)@.with(old(self)@.snapshot.with_transport(status@)),
    {
        self.snapshot.transport_status = status;
    }

    /// Drops the warning of the moment.
    pub fn clear_runtime_warning(&mut self)
        ensures
            final(self)@ == old(self)@.with(old(self)@.snapshot.with_warning(None)),
    {
        self.snapshot.runtime_warning = None;
    }

    /// Sets when the next attempt is due.
    pub fn set_next_attempt_at(&mut self, next: i128)
        ensures
            final(self)@ == old(self)@.with(old(self)@.snapshot.with_next_attempt(next)),
    {
        self.snapshot.next_attempt_at = Some(next);
    }

    /// Codex retries by itself, and the user is alerted.
    pub fn note_internal_retry(&mut self, message: &str)
        ensures
            final(self)@ == old(self)@.with(old(self)@.snapshot.internally_retrying(message@)),
    {
        self.snapshot.phase = QueuePhase::Waiting;
        self.snapshot.status_message = cat("Codex 正在内部重试：", message);
        self.record_retry_alert();
    }

    /// Codex retries by itself, without an alert.  The turn stays with Codex,
    /// so that no new request is scheduled.
    pub fn note_internal_retry_quiet(&mut self, message: &str)
        ensures
            final(self)@ == old(self)@.with(old(self)@.snapshot.quietly_retrying(message@)),
    {
        self.snapshot.phase = QueuePhase::Waiting;
        self.snapshot.status_message = cat("Codex 正在静默重试：", message);
    }

    /// Counts one error that leads to a retry.
    pub fn record_retry_alert(&mut self)
        ensures
            final(self)@ == old(self)@.with(old(self)@.snapshot.alerted()),
    {
        self.snapshot.retry_alert_count = self.snapshot.retry_alert_count.saturating_add(1);
    }

    /// No turn is active any more.
    pub fn clear_active_turn(&mut self)
        ensures
            final(self)@ == old(self)@.with(old(self)@.snapshot.without_turn()),
    {
        self.snapshot.active_turn_id = None;
    }

    /// Counts one empty reply.
    pub fn mark_empty_reply(&mut self)
        ensures
            final(self)@ == old(self)@.with(old(self)@.snapshot.with_empty_reply()),
    {
        self.snapshot.empty_reply_count = self.snapshot.empty_reply_count.saturating_add(1);
    }

    /// Forgets the empty replies.
    pub fn reset_empty_replies(&mut self)
        ensures
            final(self)@ == old(self)@.with(
                SnapshotView { empty_reply_count: 0, ..old(self)@.snapshot },
            ),
    {
        self.snapshot.empty_reply_count = 0;
    }

    /// Plans the next attempt with an alert; `drawn_secs` is the jittered delay.
    pub fn schedule_retry(&mut self, now: i128, reason: &str, drawn_secs: u64) -> (r: i128)
        requires
            valid_time(now as int),
            valid_time(now + span(RetryPolicy::delay(drawn_secs))),
        ensures
            final(self)@ == old(self)@.with(
                old(self)@.snapshot.backing_off(now as int, reason@, drawn_secs, true),
            ),
            r == now + span(RetryPolicy::delay(drawn_secs)),
    {
        self.schedule_retry_with_alert(now, reason, drawn_secs, true)
    }

    /// Plans the next attempt; `drawn_secs` is the jittered delay.
    pub fn schedule_retry_with_alert(
        &mut self,
        now: i128,
        reason: &str,
        drawn_secs: u64,
        show_alert: bool,
    ) -> (r: i128)
        requires
            valid_time(now as int),
            valid_time(now + span(RetryPolicy::delay(drawn_secs))),
        ensures
            final(self)@ == old(self)@.with(
                old(self)@.snapshot.backing_off(now as int, reason@, drawn_secs, show_alert),
            ),
            r == now + span(RetryPolicy::delay(drawn_secs)),
    {
        self.snapshot.active_turn_id = None;
        self.snapshot.submission_uncertain = false;
        self.snapshot.consecutive_retries = self.snapshot.consecutive_retries.saturating_add(1);
        if show_alert {
            self.record_retry_alert();
        }
        let next: i128 = now + span_nanos(RetryPolicy::delay_for(drawn_secs));
        self.snapshot.phase = QueuePhase::Backoff;
        self.snapshot.status_message = cat(reason, "；已安排低频重试");
        self.snapshot.next_attempt_at = Some(next);
        next
    }

    /// Plans a new attempt at once, without backing off and without an alert.
    pub fn schedule_quiet_immediate_retry(&mut self, now: i128, reason: &str) -> (r: i128)
        ensures
            final(self)@ == old(self)@.with(old(self)@.snapshot.retrying_quietly(now, reason@)),
            r == now,
    {
        self.snapshot.active_turn_id = None;
        self.snapshot.submission_uncertain = false;
        self.snapshot.consecutive_retries = self.snapshot.consecutive_retries.saturating_add(1);
        self.snapshot.phase = QueuePhase::Connecting;
        self.snapshot.status_message = cat(reason, "；立即重试");
        self.snapshot.next_attempt_at = Some(now);
        now
    }

    /// Puts a planned attempt off after the machine woke up; tells whether
    /// there was one.
    pub fn delay_after_wake(&mut self, now: i128, policy: &RetryPolicy) -> (r: bool)
        requires
            valid_time(now as int),
            old(self)@.snapshot.delayable() ==> valid_time(now + span(policy.wake_secs())),
        ensures
            r == old(self)@.snapshot.delayable(),
            final(self)@ == old(self)@.with(
                old(self)@.snapshot.delayed_after_wake(now as int, *policy),
            ),
    {
        if self.snapshot.phase == QueuePhase::Backoff || self.snapshot.phase
            == QueuePhase::Connecting {
            if let Some(existing) = self.snapshot.next_attempt_at {
                let wake_floor: i128 = now + span_nanos(policy.wake_delay());
                let next: i128 = if existing < wake_floor {
                    wake_floor
                } else {
                    existing
                };
                self.snapshot.next_attempt_at = Some(next);
                self.snapshot.status_message = "检测到系统唤醒；至少等待 60 秒后再试".to_owned();
                return true;
            }
        }
        false
    }

    /// The task is done.
    pub fn succeed(&mut self, message: &str)
        ensures
            final(self)@ == old(self)@.with(old(self)@.snapshot.succeeded(message@)),
    {
        self.snapshot.phase = QueuePhase::Success;
        self.snapshot.status_message = message.to_owned();
        self.snapshot.active_turn_id = None;
        self.snapshot.submission_uncertain = false;
        self.snapshot.next_attempt_at = None;
        self.snapshot.consecutive_retries = 0;
        self.snapshot.empty_reply_count = 0;
    }

    /// The queue rests until the user acts.
    pub fn pause(&mut self, reason: &str)
        ensures
            final(self)@ == old(self)@.with(old(self)@.snapshot.paused(reason@)),
    {
        self.snapshot.phase = QueuePhase::Paused;
        self.snapshot.status_message = reason.to_owned();
        self.snapshot.next_attempt_at = None;
    }

    /// The queue failed in a way that a retry cannot mend.
    pub fn fatal(&mut self, reason: &str)
        ensures
            final(self)@ == old(self)@.with(old(self)@.snapshot.failed(reason@)),
    {
        self.snapshot.phase = QueuePhase::FatalError;
        self.snapshot.status_message = reason.to_owned();
        self.snapshot.next_attempt_at = None;
    }

    /// The task is given up and its thread forgotten.
    pub fn stop(&mut self)
        ensures
            final(self)@ == old(self)@.with(old(self)@.snapshot.stopped()),
    {
        let mut snapshot = QueueSnapshot::default();
        snapshot.codex_path = self.snapshot.codex_path.clone();
        snapshot.status_message = "已停止；持久线程记录已清除".to_owned();
        self.snapshot = snapshot;
    }
}

/// What is persisted is what a restart gives back: the machine comes back as it
/// was, but for the warning of the moment and what is known of the carrier.
pub proof fn restart_gives_back_what_was_persisted(
    machine: MachineView,
    prompt_digest: Option<Seq<char>>,
    codex_path: Seq<char>,
)
    ensures
        MachineView::from_state(machine.to_state(prompt_digest), codex_path) == (MachineView {
            snapshot: SnapshotView {
                codex_path,
                runtime_warning: None,
                transport_status: no_transport(),
                ..machine.snapshot
            },
            attempts: machine.attempts,
        }),
{
}

/// What a restart gives back is persisted as it was read.
pub proof fn persisting_a_restored_machine_changes_nothing(state: StateView, codex_path: Seq<char>)
    requires
        state.version == STATE_VERSION,
    ensures
        MachineView::from_state(state, codex_path).to_state(state.prompt_digest) == state,
{
}

/// While a turn is active neither a new attempt nor another turn is accepted.
pub proof fn one_turn_at_a_time(snapshot: SnapshotView, turn_id: Seq<char>, other: Seq<char>)
    requires
        snapshot.active_turn_id == Some(turn_id),
        other != turn_id,
    ensures
        !snapshot.accepts_turn(other),
        snapshot.accepts_turn(turn_id),
{
}

/// A planned retry is at least fifteen seconds away and leaves no turn behind.
pub proof fn retries_keep_their_distance(
    snapshot: SnapshotView,
    now: int,
    reason: Seq<char>,
    drawn_secs: u64,
    show_alert: bool,
)
    requires
        valid_time(now),
        valid_time(now + span(RetryPolicy::delay(drawn_secs))),
        RetryPolicy::delay(drawn_secs) <= crate::clock::MAX_SPAN_SECS,
    ensures
        ({
            let after = snapshot.backing_off(now, reason, drawn_secs, show_alert);
            &&& after.next_attempt_at matches Some(next) && next >= now + 15_000_000_000
            &&& after.active_turn_id is None
            &&& !after.submission_uncertain
        }),
{
}

/// A wake-up never brings a planned attempt forward, and leaves at least a
/// minute before it.
pub proof fn wake_never_shortens_the_wait(
    snapshot: SnapshotView,
    now: int,
    policy: RetryPolicy,
    planned: i128,
)
    requires
        valid_time(now),
        valid_time(now + span(policy.wake_secs())),
        policy.wake_secs() <= crate::clock::MAX_SPAN_SECS,
        snapshot.delayable(),
        snapshot.next_attempt_at == Some(planned),
    ensures
        ({
            let after = snapshot.delayed_after_wake(now, policy);
            &&& after.next_attempt_at matches Some(next) && next >= planned && next >= now
                + 60_000_000_000
            &&& after.phase == snapshot.phase
        }),
{
}

/// However much of a reply arrives, at most 4000 characters of it are kept, and
/// they are its last ones.
pub proof fn preview_is_bounded(snapshot: SnapshotView, reply: Seq<char>)
    ensures
        snapshot.with_preview(reply).reply_preview.len() <= 4000,
        reply.len() <= 4000 ==> snapshot.with_preview(reply).reply_preview == reply,
{
}

/// Appending a reply in two pieces keeps the same characters as appending it whole.
pub proof fn preview_does_not_depend_on_the_pieces(
    snapshot: SnapshotView,
    first: Seq<char>,
    second: Seq<char>,
)
    ensures
        ({
            let one = snapshot.with_preview(snapshot.reply_preview + first);
            one.with_preview(one.reply_preview + second) == snapshot.with_preview(
                snapshot.reply_preview + (first + second),
            )
        }),
{
    let one = snapshot.with_preview(snapshot.reply_preview + first);
    let whole = snapshot.reply_preview + (first + second);
    assert(last_chars(one.reply_preview + second, 4000) =~= last_chars(whole, 4000));
}

} // verus!
