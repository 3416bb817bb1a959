//! The vocabulary between the queue and what carries its requests to Codex,
//! and the choice between the two carriers.

use vstd::prelude::*;

use crate::classifier::{ErrorView, TurnError};
use crate::json::{Json, JsonView};
use crate::text::{cat, copy_opt, opt, signed_decimal, signed_text};

verus! {

/// Which carrier is in use.
#[derive(Clone, Copy, Debug, PartialEq, Eq, Structural)]
pub enum TransportKind {
    Disconnected,
    AppServer,
    GuiFallback,
}

impl Default for TransportKind {
    fn default() -> (r: TransportKind)
        ensures
            r == TransportKind::Disconnected,
    {
        TransportKind::Disconnected
    }
}

impl TransportKind {
    /// The name that the user is shown.
    pub open spec fn name(self) -> Seq<char> {
        match self {
            TransportKind::Disconnected => "未连接"@,
            TransportKind::AppServer => "Codex app-server"@,
            TransportKind::GuiFallback => "GUI 兼容回退"@,
        }
    }

    /// The name that the user is shown.
    pub fn label(self) -> (r: &'static str)
        ensures
            r@ == self.name(),
    {
        match self {
            TransportKind::Disconnected => "未连接",
            TransportKind::AppServer => "Codex app-server",
            TransportKind::GuiFallback => "GUI 兼容回退",
        }
    }
}

/// What is known of the carrier in use.
#[derive(Clone, Debug, PartialEq, Eq)]
pub struct TransportStatus {
    pub kind: TransportKind,
    pub connected: bool,
    pub server_agent: Option<String>,
}

/// The content of a [`TransportStatus`].
pub struct StatusView {
    pub kind: TransportKind,
    pub connected: bool,
    pub server_agent: Option<Seq<char>>,
}

impl View for TransportStatus {
    type V = StatusView;

    open spec fn view(&self) -> StatusView {
        StatusView {
            kind: self.kind,
            connected: self.connected,
            server_agent: opt(self.server_agent),
        }
    }
}

/// The status without a carrier.
pub open spec fn no_transport() -> StatusView {
    StatusView { kind: TransportKind::Disconnected, connected: false, server_agent: None }
}

impl Default for TransportStatus {
    fn default() -> (r: TransportStatus)
        ensures
            r@ == no_transport(),
    {
        TransportStatus { kind: TransportKind::Disconnected, connected: false, server_agent: None }
    }
}

impl TransportStatus {
    /// A copy of the status.
    pub fn copy(&self) -> (r: TransportStatus)
        ensures
            r@ == self@,
    {
        TransportStatus {
            kind: self.kind,
            connected: self.connected,
            server_agent: copy_opt(&self.server_agent),
        }
    }
}

/// How far a turn has come.
#[derive(Clone, Copy, Debug, PartialEq, Eq, Structural)]
pub enum TurnStatus {
    Completed,
    Interrupted,
    Failed,
    InProgress,
}

/// A turn as the server reports it.
#[derive(Debug)]
pub struct RestoredTurn {
    pub id: String,
    pub status: TurnStatus,
    pub final_message: String,
    pub error: Option<TurnError>,
}

/// The content of a [`RestoredTurn`].
pub struct TurnView {
    pub id: Seq<char>,
    pub status: TurnStatus,
    pub final_message: Seq<char>,
    pub error: Option<ErrorView>,
}

impl View for RestoredTurn {
    type V = TurnView;

    open spec fn view(&self) -> TurnView {
        TurnView {
            id: self.id@,
            status: self.status,
            final_message: self.final_message@,
            error: opt(self.error),
        }
    }
}

/// A thread that was started or resumed, with its latest turn.
#[derive(Debug)]
pub struct ThreadSession {
    pub id: String,
    pub latest_turn: Option<RestoredTurn>,
}

/// The content of a [`ThreadSession`].
pub struct SessionView {
    pub id: Seq<char>,
    pub latest_turn: Option<TurnView>,
}

impl View for ThreadSession {
    type V = SessionView;

    open spec fn view(&self) -> SessionView {
        SessionView { id: self.id@, latest_turn: opt(self.latest_turn) }
    }
}

/// A turn that the server has accepted.
#[derive(Clone, Debug, PartialEq, Eq)]
pub struct StartedTurn {
    pub id: String,
}

impl View for StartedTurn {
    type V = Seq<char>;

    open spec fn view(&self) -> Seq<char> {
        self.id@
    }
}

/// What a carrier reports by itself.
#[derive(Debug)]
pub enum TransportEvent {
    AgentMessageDelta { thread_id: String, turn_id: String, delta: String },
    TurnStarted { thread_id: String, turn_id: String },
    ThreadResolved { previous_thread_id: String, thread_id: String, turn_id: String },
    Error { thread_id: String, turn_id: String, error: TurnError, will_retry: bool },
    TurnCompleted { thread_id: String, turn: RestoredTurn },
    Disconnected { message: String },
    Diagnostic { message: String },
}

/// The content of a [`TransportEvent`].
pub enum EventView {
    AgentMessageDelta { thread_id: Seq<char>, turn_id: Seq<char>, delta: Seq<char> },
    TurnStarted { thread_id: Seq<char>, turn_id: Seq<char> },
    ThreadResolved { previous_thread_id: Seq<char>, thread_id: Seq<char>, turn_id: Seq<char> },
    Error { thread_id: Seq<char>, turn_id: Seq<char>, error: ErrorView, will_retry: bool },
    TurnCompleted { thread_id: Seq<char>, turn: TurnView },
    Disconnected { message: Seq<char> },
    Diagnostic { message: Seq<char> },
}

impl View for TransportEvent {
    type V = EventView;

    open spec fn view(&self) -> EventView {
        match self {
            TransportEvent::AgentMessageDelta { thread_id, turn_id, delta } => {
                EventView::AgentMessageDelta {
                    thread_id: thread_id@,
                    turn_id: turn_id@,
                    delta: delta@,
                }
            },
            TransportEvent::TurnStarted { thread_id, turn_id } => EventView::TurnStarted {
                thread_id: thread_id@,
                turn_id: turn_id@,
            },
            TransportEvent::ThreadResolved { previous_thread_id, thread_id, turn_id } => {
                EventView::ThreadResolved {
                    previous_thread_id: previous_thread_id@,
                    thread_id: thread_id@,
                    turn_id: turn_id@,
                }
            },
            TransportEvent::Error { thread_id, turn_id, error, will_retry } => EventView::Error {
                thread_id: thread_id@,
                turn_id: turn_id@,
                error: error@,
                will_retry: *will_retry,
            },
            TransportEvent::TurnCompleted { thread_id, turn } => EventView::TurnCompleted {
                thread_id: thread_id@,
                turn: turn@,
            },
            TransportEvent::Disconnected { message } => EventView::Disconnected {
                message: message@,
            },
            TransportEvent::Diagnostic { message } => EventView::Diagnostic { message: message@ },
        }
    }
}

/// Why a request to Codex failed.
#[derive(Debug)]
pub enum TransportError {
    ExecutableNotFound(String),
    Process(String),
    Protocol(String),
    Rpc { code: i64, message: String, data: Option<Json> },
    Timeout(String),
    NotConnected,
    FallbackDisabled(String),
    Unavailable(String),
}

/// The content of a [`TransportError`].
pub enum FailureView {
    ExecutableNotFound(Seq<char>),
    Process(Seq<char>),
    Protocol(Seq<char>),
    Rpc { code: i64, message: Seq<char>, data: Option<JsonView> },
    Timeout(Seq<char>),
    NotConnected,
    FallbackDisabled(Seq<char>),
    Unavailable(Seq<char>),
}

impl View for TransportError {
    type V = FailureView;

    open spec fn view(&self) -> FailureView {
        match self {
            TransportError::ExecutableNotFound(text) => FailureView::ExecutableNotFound(text@),
            TransportError::Process(text) => FailureView::Process(text@),
            TransportError::Protocol(text) => FailureView::Protocol(text@),
            TransportError::Rpc { code, message, data } => FailureView::Rpc {
                code: *code,
                message: message@,
                data: opt(*data),
            },
            TransportError::Timeout(text) => FailureView::Timeout(text@),
            TransportError::NotConnected => FailureView::NotConnected,
            TransportError::FallbackDisabled(text) => FailureView::FallbackDisabled(text@),
            TransportError::Unavailable(text) => FailureView::Unavailable(text@),
        }
    }
}

/// The text of a failure.
pub open spec fn failure_text(failure: FailureView) -> Seq<char> {
    match failure {
        FailureView::ExecutableNotFound(text) => "Codex executable was not found: "@ + text,
        FailureView::Process(text) => "app-server process failed: "@ + text,
        FailureView::Protocol(text) => "app-server protocol error: "@ + text,
        FailureView::Rpc { code, message, data } => "app-server RPC error "@ + signed_decimal(
            code as int,
        ) + ": "@ + message,
        FailureView::Timeout(text) => "app-server request timed out: "@ + text,
        FailureView::NotConnected => "transport is not connected"@,
        FailureView::FallbackDisabled(text) => "GUI fallback is disabled: "@ + text,
        FailureView::Unavailable(text) => "transport is unavailable: "@ + text,
    }
}

impl TransportError {
    /// The text of the failure.
    pub fn message(&self) -> (r: String)
        ensures
            r@ == failure_text(self@),
    {
        match self {
            TransportError::ExecutableNotFound(text) => cat(
                "Codex executable was not found: ",
                text.as_str(),
            ),
            TransportError::Process(text) => cat("app-server process failed: ", text.as_str()),
            TransportError::Protocol(text) => cat("app-server protocol error: ", text.as_str()),
            TransportError::Rpc { code, message, data } => {
                let mut out = cat("app-server RPC error ", signed_text(*code).as_str());
                out.push_str(": ");
                out.push_str(message.as_str());
                out
            },
            TransportError::Timeout(text) => cat("app-server request timed out: ", text.as_str()),
            TransportError::NotConnected => "transport is not connected".to_owned(),
            TransportError::FallbackDisabled(text) => cat(
                "GUI fallback is disabled: ",
                text.as_str(),
            ),
            TransportError::Unavailable(text) => cat("transport is unavailable: ", text.as_str()),
        }
    }
}

/// The carrier to which requests go.
#[derive(Clone, Copy, Debug, PartialEq, Eq, Structural)]
pub enum ActiveTransport {
    Idle,
    Primary,
    Fallback,
}

/// Sends everything to the app-server and turns to the GUI fallback only after
/// the user has switched it on.  A failed connection can therefore never set
/// desktop automation going by itself.
#[derive(Debug)]
pub struct PreferredTransport<P, F> {
    pub primary: P,
    pub fallback: F,
    pub fallback_enabled: bool,
    pub active: ActiveTransport,
}

/// What follows an attempt to connect the app-server.
#[derive(Debug)]
pub enum ConnectStep {
    /// The app-server is connected.
    Connected,
    /// Shut the app-server down, allow the fallback and connect it; the text is
    /// why the app-server failed.
    TryFallback(String),
    /// Report the failure.
    Failed(TransportError),
}

/// The content of a [`ConnectStep`].
pub enum ConnectStepView {
    Connected,
    TryFallback(Seq<char>),
    Failed(FailureView),
}

impl View for ConnectStep {
    type V = ConnectStepView;

    open spec fn view(&self) -> ConnectStepView {
        match self {
            ConnectStep::Connected => ConnectStepView::Connected,
            ConnectStep::TryFallback(text) => ConnectStepView::TryFallback(text@),
            ConnectStep::Failed(error) => ConnectStepView::Failed(error@),
        }
    }
}

/// The failure when neither carrier can be connected.
pub open spec fn both_failed_text(primary: Seq<char>, fallback: Seq<char>) -> Seq<char> {
    "app-server failed ("@ + primary + "); explicitly enabled GUI fallback also failed ("@ + fallback
        + ")"@
}

impl<P, F> PreferredTransport<P, F> {
    /// Two carriers, none of them connected.
    pub fn new(primary: P, fallback: F, fallback_enabled: bool) -> (r: PreferredTransport<P, F>)
        ensures
            r.primary == primary,
            r.fallback == fallback,
            r.fallback_enabled == fallback_enabled,
            r.active == ActiveTransport::Idle,
    {
        PreferredTransport { primary, fallback, fallback_enabled, active: ActiveTransport::Idle }
    }

    /// Records whether the user allows the fallback.
    pub fn set_gui_fallback_enabled(&mut self, enabled: bool)
        ensures
            final(self).fallback_enabled == enabled,
            final(self).active == old(self).active,
            final(self).primary == old(self).primary,
            final(self).fallback == old(self).fallback,
    {
        self.fallback_enabled = enabled;
    }

    /// What follows the attempt to connect the app-server: the fallback is
    /// asked exactly when the app-server failed and the user allows it.
    pub fn primary_answered(&mut self, answer: Result<(), TransportError>) -> (r: ConnectStep)
        ensures
            final(self).primary == old(self).primary,
            final(self).fallback == old(self).fallback,
            final(self).fallback_enabled == old(self).fallback_enabled,
            r@ == (match answer {
                Ok(_) => ConnectStepView::Connected,
                Err(error) => if old(self).fallback_enabled {
                    ConnectStepView::TryFallback(failure_text(error@))
                } else {
                    ConnectStepView::Failed(error@)
                },
            }),
            final(self).active == (if answer is Ok {
                ActiveTransport::Primary
            } else {
                old(self).active
            }),
    {
        match answer {
            Ok(_) => {
                self.active = ActiveTransport::Primary;
                ConnectStep::Connected
            },
            Err(error) => {
                if self.fallback_enabled {
                    ConnectStep::TryFallback(error.message())
                } else {
                    ConnectStep::Failed(error)
                }
            },
        }
    }

    /// What follows the attempt to connect the fallback after the app-server
    /// failed with `primary_error`.
    pub fn fallback_answered(
        &mut self,
        primary_error: &str,
        answer: Result<(), TransportError>,
    ) -> (r: Result<(), TransportError>)
        requires
            old(self).fallback_enabled,
        ensures
            final(self).primary == old(self).primary,
            final(self).fallback == old(self).fallback,
            final(self).fallback_enabled == old(self).fallback_enabled,
            r is Ok == answer is Ok,
            answer matches Err(error) ==> r->Err_0@ == FailureView::Unavailable(
                both_failed_text(primary_error@, failure_text(error@)),
            ),
            final(self).active == (if answer is Ok {
                ActiveTransport::Fallback
            } else {
                old(self).active
            }),
    {
        match answer {
            Ok(_) => {
                self.active = ActiveTransport::Fallback;
                Ok(())
            },
            Err(error) => {
                let mut text = cat("app-server failed (", primary_error);
                text.push_str("); explicitly enabled GUI fallback also failed (");
                text.push_str(error.message().as_str());
                text.push_str(")");
                Err(TransportError::Unavailable(text))
            },
        }
    }

    /// The carrier to which a request goes; without one the request fails.
    pub fn route(&self) -> (r: Result<ActiveTransport, TransportError>)
        ensures
            self.active == ActiveTransport::Idle <==> r is Err,
            r matches Err(error) ==> error@ == FailureView::NotConnected,
            r matches Ok(active) ==> active == self.active,
    {
        match self.active {
            ActiveTransport::Idle => Err(TransportError::NotConnected),
            active => Ok(active),
        }
    }

    /// The status of the carrier in use, given the status of each.
    pub fn status(&self, primary: TransportStatus, fallback: TransportStatus) -> (r: TransportStatus)
        ensures
            r@ == (match self.active {
                ActiveTransport::Primary => primary@,
                ActiveTransport::Fallback => fallback@,
                ActiveTransport::Idle => no_transport(),
            }),
    {
        match self.active {
            ActiveTransport::Primary => primary,
            ActiveTransport::Fallback => fallback,
            ActiveTransport::Idle => TransportStatus::default(),
        }
    }

    /// Both carriers were shut down.
    pub fn shut_down(&mut self)
        ensures
            final(self).active == ActiveTransport::Idle,
            final(self).primary == old(self).primary,
            final(self).fallback == old(self).fallback,
            final(self).fallback_enabled == old(self).fallback_enabled,
    {
        self.active = ActiveTransport::Idle;
    }
}

} // verus!
