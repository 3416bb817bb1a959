//! The carrier of last resort: it types the task into the Codex window and
//! follows the session files that Codex writes.
//!
//! Typing, listing and reading are left to the surrounding program; this module
//! decides what is allowed, which file belongs to the task, and what the records
//! of that file mean.

use vstd::prelude::*;

use crate::classifier::{ErrorView, TurnError};
use crate::json::{field, opt_text, parse, parsed, text_field, Json, JsonView};
use crate::jsonl::{
    all_lines, file_lines, JsonlError, JsonlRecord, JsonlTailer, RecordView, TailerView,
};
use crate::paths::{
    comes_before, in_folder, is_path, join_path, path_before, same_opt_path_as, same_path,
    same_path_as, PathStyle,
};
use crate::text::{
    begins, cat, cat3, contains, copy_opt, ends, ends_with, is_text, occurs, opt, same, starts_with,
    to_chars, views,
};
use crate::transport::{
    EventView, FailureView, RestoredTurn, SessionView, StatusView, ThreadSession, TransportError,
    TransportEvent, TransportKind, TransportStatus, TurnStatus, TurnView,
};

verus! {

/// Whether a text has the form of an identifier: 36 characters, hyphens at four
/// places and hexadecimal digits in lower case elsewhere.
pub open spec fn uuid_form(text: Seq<char>) -> bool {
    &&& text.len() == 36
    &&& forall|i: int|
        0 <= i < 36 ==> if i == 8 || i == 13 || i == 18 || i == 23 {
            #[trigger] text[i] == '-'
        } else {
            '0' <= text[i] <= '9' || 'a' <= text[i] <= 'f'
        }
}

/// `uuid::Uuid::new_v4` and its `to_string`: an identifier in its usual form,
/// 36 characters with four hyphens and digits in lower case.  Which digits they
/// are is left to chance, and is not stated; a system without random numbers
/// ends the program here.
#[verifier::external_body]
fn fresh_uuid() -> (r: String)
    ensures
        uuid_form(r@),
{
    uuid::Uuid::new_v4().to_string()
}

/// The start of the identifier of a thread that Codex has not written yet.
pub const PENDING_PREFIX: &'static str = "gui-pending-";

/// The identifier of a thread that Codex has not written yet.
pub fn pending_thread_id(unique: &str) -> (r: String)
    ensures
        r@ == PENDING_PREFIX@ + unique@,
{
    cat(PENDING_PREFIX, unique)
}

/// The identifier under which a turn is known here, whatever Codex calls it.
pub fn logical_turn_id(unique: &str) -> (r: String)
    ensures
        r@ == "gui-turn-"@ + unique@,
{
    cat("gui-turn-", unique)
}

/// A new identifier for a turn.
pub fn new_turn_id() -> (r: String)
    ensures
        begins(r@, "gui-turn-"@),
        uuid_form(r@.skip("gui-turn-"@.len() as int)),
{
    let unique = fresh_uuid();
    let id = logical_turn_id(unique.as_str());
    assert(id@.take("gui-turn-"@.len() as int) =~= "gui-turn-"@);
    assert(id@.skip("gui-turn-"@.len() as int) =~= unique@);
    id
}

/// Why a working directory is refused.
pub open spec fn directory_refusal(directory: Seq<char>) -> Seq<char> {
    "GUI fallback cannot safely select working directory "@ + directory
        + "; clear it or use app-server"@
}

/// Refuses a working directory: the window of Codex cannot be told about it.
pub fn reject_working_directory(working_directory: &Option<String>) -> (r: Result<(), TransportError>)
    ensures
        r is Ok == working_directory is None,
        working_directory matches Some(directory) ==> r->Err_0@ == FailureView::Unavailable(
            directory_refusal(directory@),
        ),
{
    match working_directory {
        Some(directory) => Err(
            TransportError::Unavailable(
                cat3(
                    "GUI fallback cannot safely select working directory ",
                    directory.as_str(),
                    "; clear it or use app-server",
                ),
            ),
        ),
        None => Ok(()),
    }
}

/// The error that a record describes: a text, or an object with the names of
/// either spelling.
pub open spec fn gui_error_of(json: JsonView) -> ErrorView {
    match json {
        JsonView::Text(text) => ErrorView {
            message: text,
            additional_details: None,
            codex_error_info: None,
        },
        _ => ErrorView {
            message: match text_field(json, "message"@) {
                Some(text) => text,
                None => "GUI fallback reported an error"@,
            },
            additional_details: opt_text(
                either(field(json, "additionalDetails"@), field(json, "additional_details"@)),
            ),
            codex_error_info: either(
                field(json, "codexErrorInfo"@),
                field(json, "codex_error_info"@),
            ),
        },
    }
}

/// The first that is there.
pub open spec fn either(first: Option<JsonView>, second: Option<JsonView>) -> Option<JsonView> {
    match first {
        Some(json) => Some(json),
        None => second,
    }
}

fn get_either<'a>(json: &'a Json, first: &str, second: &str) -> (r: Option<&'a Json>)
    ensures
        opt(r) == either(field(json@, first@), field(json@, second@)),
{
    match json.get(first) {
        Some(value) => Some(value),
        None => json.get(second),
    }
}

/// Reads the error that a record describes.
pub fn turn_error_from_json(error: &Json) -> (r: TurnError)
    ensures
        r@ == gui_error_of(error@),
{
    if let Json::Text(text) = error {
        return TurnError {
            message: text.clone(),
            additional_details: None,
            codex_error_info: None,
        };
    }
    let message = match error.get_text("message") {
        Some(text) => text,
        None => "GUI fallback reported an error".to_owned(),
    };
    let additional_details = match get_either(error, "additionalDetails", "additional_details") {
        Some(Json::Text(text)) => Some(text.clone()),
        _ => None,
    };
    let codex_error_info = match get_either(error, "codexErrorInfo", "codex_error_info") {
        Some(info) => Some(info.copy()),
        None => None,
    };
    TurnError { message, additional_details, codex_error_info }
}

/// The payload of a record.
pub open spec fn payload_of(record: JsonView) -> JsonView {
    match field(record, "payload"@) {
        Some(payload) => payload,
        None => JsonView::Null,
    }
}

/// The turn that a record of completion describes, under a given identifier.
pub open spec fn completed_turn(payload: JsonView, id: Seq<char>) -> TurnView {
    let error = match field(payload, "error"@) {
        None => None,
        Some(JsonView::Null) => None,
        Some(error) => Some(gui_error_of(error)),
    };
    TurnView {
        id,
        status: if error is Some {
            TurnStatus::Failed
        } else {
            TurnStatus::Completed
        },
        final_message: match text_field(payload, "last_agent_message"@) {
            Some(text) => text,
            None => Seq::empty(),
        },
        error,
    }
}

fn read_completed_turn(payload: &Json, id: String) -> (r: RestoredTurn)
    ensures
        r@ == completed_turn(payload@, id@),
{
    let error = match payload.get("error") {
        None => None,
        Some(Json::Null) => None,
        Some(error) => Some(turn_error_from_json(error)),
    };
    let status = if error.is_some() {
        TurnStatus::Failed
    } else {
        TurnStatus::Completed
    };
    let final_message = match payload.get_text("last_agent_message") {
        Some(text) => text,
        None => String::new(),
    };
    RestoredTurn { id, status, final_message, error }
}

/// What a session file tells: the identifier of its thread and its latest turn.
#[derive(Debug)]
pub struct SessionScan {
    pub thread_id: Option<String>,
    pub latest_turn: Option<RestoredTurn>,
}

/// The content of a [`SessionScan`].
pub struct ScanView {
    pub thread_id: Option<Seq<char>>,
    pub latest_turn: Option<TurnView>,
}

impl View for SessionScan {
    type V = ScanView;

    open spec fn view(&self) -> ScanView {
        ScanView { thread_id: opt(self.thread_id), latest_turn: opt(self.latest_turn) }
    }
}

impl ScanView {
    /// What is known before the first line.
    pub open spec fn nothing() -> ScanView {
        ScanView { thread_id: None, latest_turn: None }
    }

    /// What is known after one more record.
    pub open spec fn after(self, record: JsonView) -> ScanView {
        let payload = payload_of(record);
        let kind = text_field(record, "type"@);
        let event = text_field(payload, "type"@);
        if kind == Some("session_meta"@) {
            ScanView {
                thread_id: opt_text(
                    either(field(payload, "id"@), field(payload, "session_id"@)),
                ),
                ..self
            }
        } else if kind == Some("event_msg"@) && event == Some("task_started"@) {
            match text_field(payload, "turn_id"@) {
                Some(id) => ScanView {
                    latest_turn: Some(
                        TurnView {
                            id,
                            status: TurnStatus::InProgress,
                            final_message: Seq::empty(),
                            error: None,
                        },
                    ),
                    ..self
                },
                None => self,
            }
        } else if kind == Some("event_msg"@) && event == Some("task_complete"@) {
            ScanView {
                latest_turn: Some(
                    completed_turn(
                        payload,
                        match text_field(payload, "turn_id"@) {
                            Some(id) => id,
                            None => "unknown-gui-turn"@,
                        },
                    ),
                ),
                ..self
            }
        } else {
            self
        }
    }
}

/// What the lines of a session file tell; a line that holds no document tells nothing.
pub open spec fn scanned(lines: Seq<Seq<u8>>) -> ScanView
    decreases lines.len(),
{
    if lines.len() == 0 {
        ScanView::nothing()
    } else {
        let before = scanned(lines.drop_last());
        match parsed(lines.last()) {
            Some(record) => before.after(record),
            None => before,
        }
    }
}

impl SessionScan {
    fn take(&mut self, record: &Json)
        ensures
            final(self)@ == old(self)@.after(record@),
    {
        let payload = match record.get("payload") {
            Some(payload) => payload.copy(),
            None => Json::Null,
        };
        let kind = record.get_text("type");
        let event = payload.get_text("type");
        if is_text(&kind, "session_meta") {
            self.thread_id = match get_either(&payload, "id", "session_id") {
                Some(Json::Text(text)) => Some(text.clone()),
                _ => None,
            };
        } else if is_text(&kind, "event_msg") && is_text(&event, "task_started") {
            if let Some(id) = payload.get_text("turn_id") {
                self.latest_turn = Some(
                    RestoredTurn {
                        id,
                        status: TurnStatus::InProgress,
                        final_message: String::new(),
                        error: None,
                    },
                );
            }
        } else if is_text(&kind, "event_msg") && is_text(&event, "task_complete") {
            let id = match payload.get_text("turn_id") {
                Some(id) => id,
                None => "unknown-gui-turn".to_owned(),
            };
            self.latest_turn = Some(read_completed_turn(&payload, id));
        }
    }
}

/// Reads what a session file tells from its bytes.
pub fn scan_session(bytes: &Vec<u8>) -> (r: SessionScan)
    ensures
        r@ == scanned(file_lines(bytes@)),
{
    let lines = all_lines(bytes);
    let ghost all = file_lines(bytes@);
    let mut scan = SessionScan { thread_id: None, latest_turn: None };
    let mut i: usize = 0;
    assert(all.take(0) =~= Seq::<Seq<u8>>::empty());
    while i < lines.len()
        invariant
            i <= lines@.len(),
            all == views(lines@),
            scan@ == scanned(all.take(i as int)),
        decreases lines.len() - i,
    {
        let ghost front = all.take(i + 1);
        assert(front.drop_last() =~= all.take(i as int));
        assert(front.last() == lines@[i as int]@);
        if let Ok(record) = parse(lines[i].as_slice()) {
            scan.take(&record);
        }
        i = i + 1;
    }
    assert(all.take(all.len() as int) =~= all);
    scan
}

/// A session file as it was listed.
#[derive(Debug)]
pub struct SessionFile {
    pub path: String,
    /// The name without the directory, where it is readable.
    pub name: Option<String>,
    /// When the file was last modified, in nanoseconds.
    pub modified: i128,
}

/// Whether a file is named after a thread.
pub open spec fn named_after(file: SessionFile, thread_id: Seq<char>) -> bool {
    file.name matches Some(name) && occurs(name@, thread_id)
}

/// Whether a name is that of a session file: it has the extension `jsonl`.
pub fn is_session_name(name: &str) -> (r: bool)
    ensures
        r == (ends(name@, ".jsonl"@) && name@.len() > ".jsonl"@.len()),
{
    let whole = to_chars(name);
    let suffix = to_chars(".jsonl");
    ends_with(name, ".jsonl") && whole.len() > suffix.len()
}

/// Finds the first file that is named after a thread.
pub fn find_session_file(files: &Vec<SessionFile>, thread_id: &str) -> (r: Option<usize>)
    ensures
        match r {
            Some(index) => {
                &&& index < files@.len()
                &&& named_after(files@[index as int], thread_id@)
                &&& forall|k: int| 0 <= k < index ==> !named_after(files@[k], thread_id@)
            },
            None => forall|k: int| 0 <= k < files@.len() ==> !named_after(files@[k], thread_id@),
        },
{
    let mut i: usize = 0;
    while i < files.len()
        invariant
            i <= files@.len(),
            forall|k: int| 0 <= k < i ==> !named_after(files@[k], thread_id@),
        decreases files.len() - i,
    {
        if let Some(name) = &files[i].name {
            if contains(name.as_str(), thread_id) {
                return Some(i);
            }
        }
        i = i + 1;
    }
    None
}

/// Finds the file that was modified last; of several, the last in the list.
pub fn latest_session_file(files: &Vec<SessionFile>) -> (r: Option<usize>)
    ensures
        match r {
            Some(index) => {
                &&& index < files@.len()
                &&& forall|k: int|
                    0 <= k < files@.len() ==> files@[k].modified <= files@[index as int].modified
                &&& forall|k: int|
                    index < k < files@.len() ==> files@[k].modified
                        < files@[index as int].modified
            },
            None => files@.len() == 0,
        },
{
    if files.len() == 0 {
        return None;
    }
    let mut best: usize = 0;
    let mut i: usize = 1;
    while i < files.len()
        invariant
            1 <= i <= files@.len(),
            best < i,
            forall|k: int| 0 <= k < i ==> files@[k].modified <= files@[best as int].modified,
            forall|k: int| best < k < i ==> files@[k].modified < files@[best as int].modified,
        decreases files.len() - i,
    {
        if files[i].modified >= files[best].modified {
            best = i;
        }
        i = i + 1;
    }
    Some(best)
}

/// The walk through the directories of sessions: the last directory found is
/// visited next.
#[derive(Debug)]
pub struct SessionWalk {
    pub pending: Vec<String>,
    pub files: Vec<String>,
}

impl SessionWalk {
    /// A walk that begins at a directory.
    pub fn new(root: String) -> (r: SessionWalk)
        ensures
            views(r.pending@) == seq![root@],
            r.files@.len() == 0,
    {
        let mut pending: Vec<String> = Vec::new();
        pending.push(root);
        assert(views(pending@) =~= seq![root@]);
        SessionWalk { pending, files: Vec::new() }
    }

    /// The directory to list next.
    pub fn next_directory(&mut self) -> (r: Option<String>)
        ensures
            final(self).files == old(self).files,
            old(self).pending@.len() == 0 ==> r is None && final(self).pending@ == old(
                self,
            ).pending@,
            old(self).pending@.len() > 0 ==> {
                &&& r matches Some(directory) && directory@ == views(old(self).pending@).last()
                &&& views(final(self).pending@) == views(old(self).pending@).drop_last()
            },
    {
        let ghost before = views(self.pending@);
        let next = self.pending.pop();
        proof {
            if next is Some {
                assert(views(self.pending@) =~= before.drop_last());
            }
        }
        next
    }

    /// One entry of the directory: a directory is visited later, a session file
    /// is kept, anything else is passed over.
    pub fn entry(&mut self, path: String, name: &str, is_directory: bool)
        ensures
            views(final(self).pending@) == (if is_directory {
                views(old(self).pending@).push(path@)
            } else {
                views(old(self).pending@)
            }),
            views(final(self).files@) == (if !is_directory && ends(name@, ".jsonl"@) && name@.len()
                > ".jsonl"@.len() {
                views(old(self).files@).push(path@)
            } else {
                views(old(self).files@)
            }),
    {
        let ghost pending = views(self.pending@);
        let ghost files = views(self.files@);
        if is_directory {
            self.pending.push(path);
            assert(views(self.pending@) =~= pending.push(path@));
        } else if is_session_name(name) {
            self.files.push(path);
            assert(views(self.files@) =~= files.push(path@));
        }
    }
}

/// Whether an identifier is that of a thread which Codex has not written yet.
pub open spec fn is_pending(thread_id: Seq<char>) -> bool {
    begins(thread_id, PENDING_PREFIX@)
}

/// Whether an identifier is a new one for a thread that Codex has not written yet.
pub open spec fn is_fresh_pending(thread_id: Seq<char>) -> bool {
    is_pending(thread_id) && uuid_form(thread_id.skip(PENDING_PREFIX@.len() as int))
}

/// The carrier that types into the Codex window.
#[derive(Clone, Copy, Debug, PartialEq, Eq, Structural)]
pub struct GuiFallbackTransport {
    pub enabled: bool,
    pub connected: bool,
}

impl GuiFallbackTransport {
    /// A carrier without a connection.
    pub fn new(enabled: bool) -> (r: GuiFallbackTransport)
        ensures
            r == (GuiFallbackTransport { enabled, connected: false }),
    {
        GuiFallbackTransport { enabled, connected: false }
    }

    /// Whether the user allows this carrier.
    pub fn enabled(&self) -> (r: bool)
        ensures
            r == self.enabled,
    {
        self.enabled
    }

    /// Records whether the user allows this carrier.
    pub fn set_gui_fallback_enabled(&mut self, enabled: bool)
        ensures
            *final(self) == (GuiFallbackTransport { enabled, ..*old(self) }),
    {
        self.enabled = enabled;
    }

    /// The status of this carrier.
    pub fn status(&self) -> (r: TransportStatus)
        ensures
            r@ == (StatusView {
                kind: TransportKind::GuiFallback,
                connected: self.connected,
                server_agent: None,
            }),
    {
        TransportStatus {
            kind: TransportKind::GuiFallback,
            connected: self.connected,
            server_agent: None,
        }
    }

    /// Whether the carrier may be connected: the user allows it and the session
    /// is not one in which input cannot be injected.
    pub fn may_connect(&self, wayland: bool) -> (r: Result<(), TransportError>)
        ensures
            r is Ok == (self.enabled && !wayland),
            r matches Err(error) ==> error@ == FailureView::FallbackDisabled(
                if !self.enabled {
                    "GUI fallback requires an explicit opt-in"@
                } else {
                    "Wayland global input injection is disabled; use app-server"@
                },
            ),
    {
        if !self.enabled {
            return Err(
                TransportError::FallbackDisabled(
                    "GUI fallback requires an explicit opt-in".to_owned(),
                ),
            );
        }
        if wayland {
            return Err(
                TransportError::FallbackDisabled(
                    "Wayland global input injection is disabled; use app-server".to_owned(),
                ),
            );
        }
        Ok(())
    }

    /// The directory of sessions was made ready, or not.
    pub fn prepared(&mut self, failure: Option<String>) -> (r: Result<(), TransportError>)
        ensures
            r is Ok == failure is None,
            failure matches Some(text) ==> r->Err_0@ == FailureView::Unavailable(text@),
            *final(self) == (if failure is None {
                GuiFallbackTransport { connected: true, ..*old(self) }
            } else {
                *old(self)
            }),
    {
        match failure {
            Some(text) => Err(TransportError::Unavailable(text)),
            None => {
                self.connected = true;
                Ok(())
            },
        }
    }

    /// The connection is gone.
    pub fn shut_down(&mut self)
        ensures
            *final(self) == (GuiFallbackTransport { connected: false, ..*old(self) }),
    {
        self.connected = false;
    }

    /// Opens a thread for a fresh task: that of the latest session file, else
    /// one that Codex will write.  A turn that happens to be active in that file
    /// belongs to something else and is not adopted.
    pub fn start_thread(
        &self,
        working_directory: &Option<String>,
        latest: Option<SessionScan>,
    ) -> (r: Result<ThreadSession, TransportError>)
        ensures
            working_directory is None <==> r is Ok,
            working_directory matches Some(directory) ==> r->Err_0@ == FailureView::Unavailable(
                directory_refusal(directory@),
            ),
            r matches Ok(session) ==> {
                &&& session@.latest_turn is None
                &&& match latest {
                    Some(scan) => match scan@.thread_id {
                        Some(id) => session@.id == id,
                        None => is_fresh_pending(session@.id),
                    },
                    None => is_fresh_pending(session@.id),
                }
            },
    {
        match reject_working_directory(working_directory) {
            Err(error) => {
                return Err(error);
            },
            Ok(_) => {},
        }
        if let Some(scan) = latest {
            if let Some(id) = scan.thread_id {
                return Ok(ThreadSession { id, latest_turn: None });
            }
        }
        let unique = fresh_uuid();
        let id = pending_thread_id(unique.as_str());
        assert(id@.take(PENDING_PREFIX@.len() as int) =~= PENDING_PREFIX@);
        assert(id@.skip(PENDING_PREFIX@.len() as int) =~= unique@);
        Ok(ThreadSession { id, latest_turn: None })
    }

    /// Chooses the session file of a thread: the one that is named after it; for
    /// a thread that Codex had not written yet, else the latest one.
    pub fn choose_session(
        &self,
        working_directory: &Option<String>,
        files: &Vec<SessionFile>,
        thread_id: &str,
    ) -> (r: Result<Option<usize>, TransportError>)
        ensures
            r is Ok <==> {
                &&& working_directory is None
                &&& is_pending(thread_id@) || exists|k: int|
                    0 <= k < files@.len() && #[trigger] named_after(files@[k], thread_id@)
            },
            r matches Err(error) ==> error@ == FailureView::Unavailable(
                match working_directory {
                    Some(directory) => directory_refusal(directory@),
                    None => "GUI fallback could not find persisted session "@ + thread_id@,
                },
            ),
            r matches Ok(Some(index)) ==> {
                &&& index < files@.len()
                &&& named_after(files@[index as int], thread_id@) && (forall|k: int|
                    0 <= k < index ==> !named_after(files@[k], thread_id@)) || (forall|k: int|
                    0 <= k < files@.len() ==> !named_after(files@[k], thread_id@)) && (forall|
                    k: int,
                |
                    0 <= k < files@.len() ==> files@[k].modified <= files@[index as int].modified)
                    && (forall|k: int|
                    index < k < files@.len() ==> files@[k].modified
                        < files@[index as int].modified)
            },
            r matches Ok(None) ==> files@.len() == 0,
    {
        match reject_working_directory(working_directory) {
            Err(error) => {
                return Err(error);
            },
            Ok(_) => {},
        }
        if let Some(index) = find_session_file(files, thread_id) {
            assert(named_after(files@[index as int], thread_id@));
            return Ok(Some(index));
        }
        if starts_with(thread_id, PENDING_PREFIX) {
            return Ok(latest_session_file(files));
        }
        Err(
            TransportError::Unavailable(
                cat("GUI fallback could not find persisted session ", thread_id),
            ),
        )
    }

    /// The thread as its session file tells it.
    pub fn resumed(&self, thread_id: &str, scan: SessionScan) -> (r: ThreadSession)
        ensures
            r@ == (SessionView {
                id: match scan@.thread_id {
                    Some(id) => id,
                    None => thread_id@,
                },
                latest_turn: scan@.latest_turn,
            }),
    {
        let id = match scan.thread_id {
            Some(id) => id,
            None => thread_id.to_owned(),
        };
        ThreadSession { id, latest_turn: scan.latest_turn }
    }

    /// Whether a turn may be started: the user allows this carrier and asks for
    /// no working directory.
    pub fn may_start_turn(&self, working_directory: &Option<String>) -> (r: Result<
        (),
        TransportError,
    >)
        ensures
            r is Ok == (self.enabled && working_directory is None),
            r matches Err(error) ==> error@ == (if !self.enabled {
                FailureView::FallbackDisabled("GUI fallback requires an explicit opt-in"@)
            } else {
                FailureView::Unavailable(directory_refusal(working_directory->0@))
            }),
    {
        if !self.enabled {
            return Err(
                TransportError::FallbackDisabled(
                    "GUI fallback requires an explicit opt-in".to_owned(),
                ),
            );
        }
        reject_working_directory(working_directory)
    }

    /// A turn of the Codex window is never interrupted from here.
    pub fn interrupt_turn(&self) -> (r: Result<(), TransportError>)
        ensures
            r is Err,
            r->Err_0@ == FailureView::Unavailable(
                "GUI fallback cannot safely issue a global interrupt; use the Codex window"@,
            ),
    {
        Err(
            TransportError::Unavailable(
                "GUI fallback cannot safely issue a global interrupt; use the Codex window".to_owned(),
            ),
        )
    }
}

/// The turn of a resumed thread that is watched: its latest one, where it is
/// still under way.
pub fn watched_turn(session: &ThreadSession) -> (r: Option<String>)
    ensures
        opt(r) == (match session@.latest_turn {
            Some(turn) => if turn.status == TurnStatus::InProgress {
                Some(turn.id)
            } else {
                None
            },
            None => None,
        }),
{
    match &session.latest_turn {
        Some(turn) => match turn.status {
            TurnStatus::InProgress => Some(turn.id.clone()),
            _ => None,
        },
        None => None,
    }
}

/// The directory in which Codex keeps its sessions: under its own home where
/// that is set, else in the home of the user, else where the program runs.
pub fn sessions_directory(
    codex_home: &Option<String>,
    home: &Option<String>,
    style: PathStyle,
) -> (r: String)
    ensures
        r@ == in_folder(
            match (opt(*codex_home), opt(*home)) {
                (Some(own), _) => own,
                (None, Some(home)) => in_folder(home, ".codex"@, style),
                (None, None) => ".codex"@,
            },
            "sessions"@,
            style,
        ),
{
    match (codex_home, home) {
        (Some(own), _) => join_path(own.as_str(), "sessions", style),
        (None, Some(home)) => join_path(
            join_path(home.as_str(), ".codex", style).as_str(),
            "sessions",
            style,
        ),
        (None, None) => join_path(".codex", "sessions", style),
    }
}

/// Follows the session files until the turn that was typed has ended.
#[derive(Debug)]
pub struct SessionMonitor {
    pub thread_id: String,
    /// The identifier under which the turn is known to the queue.
    pub logical_turn: String,
    pub expected_prompt: Option<String>,
    /// One tailer for each file, in the order of their paths.
    pub tailers: Vec<JsonlTailer>,
    /// The file in which the turn was recognised.
    pub active_path: Option<String>,
    /// The file whose thread is known.
    pub resolved_path: Option<String>,
    /// How paths are written.
    pub style: PathStyle,
}

/// The content of a [`SessionMonitor`].
pub struct MonitorView {
    pub thread_id: Seq<char>,
    pub logical_turn: Seq<char>,
    pub expected_prompt: Option<Seq<char>>,
    pub tailers: Seq<TailerView>,
    pub active_path: Option<Seq<char>>,
    pub resolved_path: Option<Seq<char>>,
    pub style: PathStyle,
}

impl View for SessionMonitor {
    type V = MonitorView;

    open spec fn view(&self) -> MonitorView {
        MonitorView {
            thread_id: self.thread_id@,
            logical_turn: self.logical_turn@,
            expected_prompt: opt(self.expected_prompt),
            tailers: views(self.tailers@),
            active_path: opt(self.active_path),
            resolved_path: opt(self.resolved_path),
            style: self.style,
        }
    }
}

/// A tailer at the start of a file.
pub open spec fn fresh_tailer(path: Seq<char>) -> TailerView {
    TailerView {
        path,
        offset: 0,
        partial: Seq::empty(),
        fingerprint: None,
        seen: Seq::empty(),
    }
}

/// The tailers with one more, in the order of their paths: nothing changes
/// where its file has one.
pub open spec fn with_tailer(
    tailers: Seq<TailerView>,
    tailer: TailerView,
    style: PathStyle,
) -> Seq<TailerView>
    decreases tailers.len(),
{
    if tailers.len() == 0 {
        seq![tailer]
    } else if same_path_as(tailers[0].path, tailer.path, style) {
        tailers
    } else if path_before(tailer.path, tailers[0].path, style) {
        seq![tailer] + tailers
    } else {
        seq![tailers[0]] + with_tailer(tailers.skip(1), tailer, style)
    }
}

/// What follows for a record.
#[derive(Clone, Copy, Debug, PartialEq, Eq, Structural)]
pub enum Claim {
    /// It is not about this turn.
    Skip,
    /// It is about this turn, and shows that its file is the one of the turn:
    /// the thread of the file is to be read before the record is reported.
    Resolve,
    /// It is about this turn.
    Report,
}

/// The kind of a payload.
pub open spec fn kind_of(payload: JsonView) -> Seq<char> {
    match text_field(payload, "type"@) {
        Some(kind) => kind,
        None => Seq::empty(),
    }
}

/// Whether a payload is the prompt that was typed.
pub open spec fn is_typed_prompt(payload: JsonView, expected: Option<Seq<char>>) -> bool {
    &&& kind_of(payload) == "user_message"@
    &&& expected is Some
    &&& opt_text(either(field(payload, "message"@), field(payload, "text"@))) == expected
}

/// The documents of records.
pub open spec fn contents(records: Seq<RecordView>) -> Seq<JsonView> {
    Seq::new(records.len(), |i: int| records[i].value)
}

/// What the new records of a file lead to.
pub struct Round {
    pub monitor: MonitorView,
    pub events: Seq<EventView>,
    /// Whether the turn has ended.
    pub over: bool,
}

/// The value, where there is one, as a sequence.
pub open spec fn as_seq(event: Option<EventView>) -> Seq<EventView> {
    match event {
        Some(event) => seq![event],
        None => Seq::empty(),
    }
}

fn push_event(events: &mut Vec<TransportEvent>, event: Option<TransportEvent>)
    ensures
        views(final(events)@) == views(old(events)@) + as_seq(opt(event)),
{
    let ghost before = views(events@);
    if let Some(event) = event {
        let ghost content = event@;
        events.push(event);
        assert(views(events@) =~= before + seq![content]);
    } else {
        assert(views(events@) =~= before + Seq::empty());
    }
}

impl MonitorView {
    /// What follows for a record of a file.
    pub open spec fn claim(self, path: Seq<char>, record: JsonView) -> Claim {
        let payload = payload_of(record);
        match self.active_path {
            None => if is_typed_prompt(payload, self.expected_prompt) || kind_of(payload)
                == "task_started"@ {
                Claim::Resolve
            } else {
                Claim::Skip
            },
            Some(active) => if same_path_as(active, path, self.style) {
                Claim::Report
            } else {
                Claim::Skip
            },
        }
    }

    /// The monitor after a record of a file.
    pub open spec fn claimed(self, path: Seq<char>, record: JsonView) -> MonitorView {
        if self.claim(path, record) == Claim::Resolve {
            MonitorView { active_path: Some(path), ..self }
        } else {
            self
        }
    }

    /// The monitor once the thread of a file was read.
    pub open spec fn resolved(self, path: Seq<char>, thread_id: Option<Seq<char>>) -> MonitorView {
        match thread_id {
            Some(actual) => MonitorView {
                thread_id: actual,
                resolved_path: Some(path),
                ..self
            },
            None => self,
        }
    }

    /// What is reported once the thread of a file was read.
    pub open spec fn resolution(self, thread_id: Option<Seq<char>>) -> Option<EventView> {
        match thread_id {
            Some(actual) => if actual != self.thread_id {
                Some(
                    EventView::ThreadResolved {
                        previous_thread_id: self.thread_id,
                        thread_id: actual,
                        turn_id: self.logical_turn,
                    },
                )
            } else {
                None
            },
            None => None,
        }
    }

    /// What is reported for a record that is about this turn.
    pub open spec fn report(self, record: JsonView) -> Option<EventView> {
        let payload = payload_of(record);
        let kind = kind_of(payload);
        if kind == "task_started"@ {
            Some(
                EventView::TurnStarted { thread_id: self.thread_id, turn_id: self.logical_turn },
            )
        } else if kind == "agent_message"@ {
            match text_field(payload, "message"@) {
                Some(delta) => Some(
                    EventView::AgentMessageDelta {
                        thread_id: self.thread_id,
                        turn_id: self.logical_turn,
                        delta,
                    },
                ),
                None => None,
            }
        } else if kind == "task_complete"@ {
            Some(
                EventView::TurnCompleted {
                    thread_id: self.thread_id,
                    turn: completed_turn(payload, self.logical_turn),
                },
            )
        } else if kind == "turn_aborted"@ || kind == "task_aborted"@ {
            Some(
                EventView::TurnCompleted {
                    thread_id: self.thread_id,
                    turn: TurnView {
                        id: self.logical_turn,
                        status: TurnStatus::Interrupted,
                        final_message: Seq::empty(),
                        error: None,
                    },
                },
            )
        } else {
            None
        }
    }

    /// The monitor, and what is reported, after the new records of a file; a
    /// record that ends the turn ends the monitor, and those after it are left.
    pub open spec fn round(
        self,
        path: Seq<char>,
        records: Seq<JsonView>,
        thread_id: Option<Seq<char>>,
    ) -> Round
        decreases records.len(),
    {
        if records.len() == 0 {
            Round { monitor: self, events: Seq::empty(), over: false }
        } else {
            let claim = self.claim(path, records[0]);
            let claimed = self.claimed(path, records[0]);
            let (monitor, found) = if claim == Claim::Resolve {
                (claimed.resolved(path, thread_id), as_seq(claimed.resolution(thread_id)))
            } else {
                (claimed, Seq::empty())
            };
            let reported = if claim == Claim::Skip {
                None
            } else {
                monitor.report(records[0])
            };
            let events = found + as_seq(reported);
            if reported matches Some(event) && event is TurnCompleted {
                Round { monitor, events, over: true }
            } else {
                let rest = monitor.round(path, records.skip(1), thread_id);
                Round { events: events + rest.events, ..rest }
            }
        }
    }

    /// What always holds of the tailers.
    pub open spec fn valid(self) -> bool {
        forall|i: int| 0 <= i < self.tailers.len() ==> (#[trigger] self.tailers[i]).valid()
    }
}

proof fn with_tailer_is_valid(tailers: Seq<TailerView>, tailer: TailerView, style: PathStyle)
    requires
        tailer.valid(),
        forall|i: int| 0 <= i < tailers.len() ==> (#[trigger] tailers[i]).valid(),
    ensures
        forall|i: int|
            0 <= i < with_tailer(tailers, tailer, style).len() ==> (#[trigger] with_tailer(
                tailers,
                tailer,
                style,
            )[i]).valid(),
    decreases tailers.len(),
{
    if tailers.len() > 0 {
        with_tailer_is_valid(tailers.skip(1), tailer, style);
        let rest = with_tailer(tailers.skip(1), tailer, style);
        let all = with_tailer(tailers, tailer, style);
        assert forall|i: int| 0 <= i < all.len() implies (#[trigger] all[i]).valid() by {
            if same_path_as(tailers[0].path, tailer.path, style) {
            } else if path_before(tailer.path, tailers[0].path, style) {
                if i > 0 {
                    assert(all[i] == tailers[i - 1]);
                }
            } else if i > 0 {
                assert(all[i] == rest[i - 1]);
            }
        }
    }
}

impl SessionMonitor {
    /// A monitor for a turn.  With an active file only that file is followed.
    pub fn new(
        thread_id: String,
        logical_turn: String,
        expected_prompt: Option<String>,
        active_path: Option<String>,
        style: PathStyle,
    ) -> (r: SessionMonitor)
        ensures
            r@ == (MonitorView {
                thread_id: thread_id@,
                logical_turn: logical_turn@,
                expected_prompt: opt(expected_prompt),
                tailers: Seq::empty(),
                active_path: opt(active_path),
                resolved_path: None,
                style,
            }),
            r@.valid(),
    {
        let monitor = SessionMonitor {
            thread_id,
            logical_turn,
            expected_prompt,
            tailers: Vec::new(),
            active_path,
            resolved_path: None,
            style,
        };
        assert(monitor@.tailers =~= Seq::empty());
        monitor
    }

    /// Follows a file from its start, unless it is followed already.
    pub fn follow(&mut self, path: &str)
        requires
            old(self)@.valid(),
        ensures
            final(self)@ == (MonitorView {
                tailers: with_tailer(old(self)@.tailers, fresh_tailer(path@), old(self)@.style),
                ..old(self)@
            }),
            final(self)@.valid(),
    {
        self.follow_with(JsonlTailer::new(path.to_owned()));
    }

    /// Follows a file with a tailer that was placed before, unless it is
    /// followed already.
    pub fn follow_with(&mut self, tailer: JsonlTailer)
        requires
            old(self)@.valid(),
            tailer@.valid(),
        ensures
            final(self)@ == (MonitorView {
                tailers: with_tailer(old(self)@.tailers, tailer@, old(self)@.style),
                ..old(self)@
            }),
            final(self)@.valid(),
    {
        let ghost all = self@.tailers;
        let ghost added = tailer@;
        let style = self.style;
        proof {
            with_tailer_is_valid(all, added, style);
        }
        let mut i: usize = 0;
        assert(all.skip(0) =~= all);
        assert(all.take(0) + with_tailer(all, added, style) =~= with_tailer(all, added, style));
        while i < self.tailers.len() && !same_path(
            self.tailers[i].path.as_str(),
            tailer.path.as_str(),
            style,
        ) && !comes_before(tailer.path.as_str(), self.tailers[i].path.as_str(), style)
            invariant
                i <= self.tailers@.len(),
                self@ == old(self)@,
                all == views(self.tailers@),
                added == tailer@,
                style == self.style,
                all.take(i as int) + with_tailer(all.skip(i as int), added, style) == with_tailer(
                    all,
                    added,
                    style,
                ),
            decreases self.tailers.len() - i,
        {
            let ghost tail = all.skip(i as int);
            assert(tail.skip(1) =~= all.skip(i + 1));
            assert(tail[0] == self.tailers@[i as int]@);
            assert(all.take(i as int) + (seq![tail[0]] + with_tailer(
                all.skip(i + 1),
                added,
                style,
            )) =~= all.take(i + 1) + with_tailer(all.skip(i + 1), added, style));
            i = i + 1;
        }
        let ghost tail = all.skip(i as int);
        if i < self.tailers.len() {
            assert(tail[0] == self.tailers@[i as int]@);
            if same_path(self.tailers[i].path.as_str(), tailer.path.as_str(), style) {
                assert(all.take(i as int) + tail =~= all);
                return;
            }
            self.tailers.insert(i, tailer);
            assert(self@.tailers =~= all.take(i as int) + (seq![added] + tail));
        } else {
            self.tailers.push(tailer);
            assert(self@.tailers =~= all.take(i as int) + seq![added]);
        }
    }

    /// Whether new files are still looked for.
    pub fn is_searching(&self) -> (r: bool)
        ensures
            r == self@.active_path is None,
    {
        self.active_path.is_none()
    }

    /// Whether a file is read in this round.
    pub fn reads(&self, path: &str) -> (r: bool)
        ensures
            r == (self@.active_path is None || same_opt_path_as(
                self@.active_path,
                Some(path@),
                self@.style,
            )),
    {
        self.active_path.is_none() || is_path(&self.active_path, path, self.style)
    }

    /// What follows for a record of a file.
    pub fn claim(&mut self, path: &str, record: &Json) -> (r: Claim)
        requires
            old(self)@.valid(),
        ensures
            r == old(self)@.claim(path@, record@),
            final(self)@ == old(self)@.claimed(path@, record@),
            final(self)@.valid(),
    {
        if self.active_path.is_some() {
            if is_path(&self.active_path, path, self.style) {
                return Claim::Report;
            }
            return Claim::Skip;
        }
        let payload = match record.get("payload") {
            Some(payload) => payload.copy(),
            None => Json::Null,
        };
        let kind = payload.get_text("type");
        proof {
            reveal_strlit("user_message");
            reveal_strlit("task_started");
            assert("user_message"@.len() == 12);
            assert("task_started"@.len() == 12);
        }
        let typed = match get_either(&payload, "message", "text") {
            Some(Json::Text(text)) => is_text(&self.expected_prompt, text.as_str()),
            _ => false,
        };
        let matches_prompt = is_text(&kind, "user_message") && typed;
        if matches_prompt || is_text(&kind, "task_started") {
            self.active_path = Some(path.to_owned());
            Claim::Resolve
        } else {
            Claim::Skip
        }
    }

    /// The file whose thread is still to be read.
    pub fn unresolved(&self) -> (r: Option<String>)
        ensures
            opt(r) == (if self@.active_path is Some && !same_opt_path_as(
                self@.resolved_path,
                self@.active_path,
                self@.style,
            ) {
                self@.active_path
            } else {
                None
            }),
    {
        match &self.active_path {
            Some(path) => {
                if is_path(&self.resolved_path, path.as_str(), self.style) {
                    None
                } else {
                    Some(path.clone())
                }
            },
            None => None,
        }
    }

    /// The thread of a file was read; gives what is reported, where it is not
    /// the one that was known.
    pub fn resolve(&mut self, path: &str, thread_id: Option<String>) -> (r: Option<TransportEvent>)
        requires
            old(self)@.valid(),
        ensures
            opt(r) == old(self)@.resolution(opt(thread_id)),
            final(self)@ == old(self)@.resolved(path@, opt(thread_id)),
            final(self)@.valid(),
    {
        match thread_id {
            None => None,
            Some(actual) => {
                self.resolved_path = Some(path.to_owned());
                if same(actual.as_str(), self.thread_id.as_str()) {
                    return None;
                }
                let previous_thread_id = self.thread_id.clone();
                self.thread_id = actual.clone();
                Some(
                    TransportEvent::ThreadResolved {
                        previous_thread_id,
                        thread_id: actual,
                        turn_id: self.logical_turn.clone(),
                    },
                )
            },
        }
    }

    /// What is reported for a record that is about this turn; a completed turn
    /// ends the monitor.
    pub fn report(&self, record: &Json) -> (r: Option<TransportEvent>)
        ensures
            opt(r) == self@.report(record@),
    {
        let payload = match record.get("payload") {
            Some(payload) => payload.copy(),
            None => Json::Null,
        };
        let kind = match payload.get_text("type") {
            Some(kind) => kind,
            None => String::new(),
        };
        assert(kind@ =~= kind_of(payload@));
        if same(kind.as_str(), "task_started") {
            Some(
                TransportEvent::TurnStarted {
                    thread_id: self.thread_id.clone(),
                    turn_id: self.logical_turn.clone(),
                },
            )
        } else if same(kind.as_str(), "agent_message") {
            match payload.get_text("message") {
                Some(delta) => Some(
                    TransportEvent::AgentMessageDelta {
                        thread_id: self.thread_id.clone(),
                        turn_id: self.logical_turn.clone(),
                        delta,
                    },
                ),
                None => None,
            }
        } else if same(kind.as_str(), "task_complete") {
            Some(
                TransportEvent::TurnCompleted {
                    thread_id: self.thread_id.clone(),
                    turn: read_completed_turn(&payload, self.logical_turn.clone()),
                },
            )
        } else if same(kind.as_str(), "turn_aborted") || same(kind.as_str(), "task_aborted") {
            Some(
                TransportEvent::TurnCompleted {
                    thread_id: self.thread_id.clone(),
                    turn: RestoredTurn {
                        id: self.logical_turn.clone(),
                        status: TurnStatus::Interrupted,
                        final_message: String::new(),
                        error: None,
                    },
                },
            )
        } else {
            None
        }
    }

    /// Goes through the new records of a file, where `thread_id` is the thread
    /// that the file names; gives what is reported and whether the turn has
    /// ended.
    pub fn read_records(
        &mut self,
        path: &str,
        records: &Vec<JsonlRecord>,
        thread_id: &Option<String>,
    ) -> (r: (Vec<TransportEvent>, bool))
        requires
            old(self)@.valid(),
        ensures
            ({
                let round = old(self)@.round(path@, contents(views(records@)), opt(*thread_id));
                &&& final(self)@ == round.monitor
                &&& views(r.0@) == round.events
                &&& r.1 == round.over
            }),
            final(self)@.valid(),
    {
        let ghost all = contents(views(records@));
        let ghost thread = opt(*thread_id);
        let ghost start = self@;
        let mut events: Vec<TransportEvent> = Vec::new();
        let mut i: usize = 0;
        proof {
            assert(all.skip(0) =~= all);
            assert(views(events@) + start.round(path@, all, thread).events =~= start.round(
                path@,
                all,
                thread,
            ).events);
        }
        while i < records.len()
            invariant
                i <= records@.len(),
                all == contents(views(records@)),
                thread == opt(*thread_id),
                start == old(self)@,
                self@.valid(),
                start.round(path@, all, thread) == (Round {
                    events: views(events@) + self@.round(
                        path@,
                        all.skip(i as int),
                        thread,
                    ).events,
                    ..self@.round(path@, all.skip(i as int), thread)
                }),
            decreases records.len() - i,
        {
            let ghost before = self@;
            let ghost told = views(events@);
            let ghost left = all.skip(i as int);
            let record = &records[i].value;
            assert(left[0] == record@);
            assert(left.skip(1) =~= all.skip(i + 1));
            let claim = self.claim(path, record);
            let ghost mut found: Seq<EventView> = Seq::empty();
            if claim == Claim::Resolve {
                proof {
                    found = as_seq(self@.resolution(thread));
                }
                let resolution = self.resolve(path, copy_opt(thread_id));
                push_event(&mut events, resolution);
            } else {
                assert(told + found =~= told);
            }
            if claim != Claim::Skip {
                let reported = self.report(record);
                let over = match &reported {
                    Some(TransportEvent::TurnCompleted { .. }) => true,
                    _ => false,
                };
                let ghost content = opt(reported);
                push_event(&mut events, reported);
                assert(views(events@) =~= told + (found + as_seq(content)));
                if over {
                    return (events, true);
                }
            } else {
                assert(views(events@) =~= told + (found + as_seq(None)));
            }
            assert(views(events@) + self@.round(path@, left.skip(1), thread).events =~= told
                + before.round(path@, left, thread).events);
            i = i + 1;
        }
        assert(views(events@) + Seq::<EventView>::empty() =~= views(events@));
        (events, false)
    }

    /// What is reported when a file cannot be read.
    pub fn read_failure(error: &JsonlError) -> (r: TransportEvent)
        ensures
            r@ == (EventView::Diagnostic {
                message: "GUI 回退 JSONL 读取失败："@ + error.text(),
            }),
    {
        TransportEvent::Diagnostic {
            message: cat("GUI 回退 JSONL 读取失败：", error.message().as_str()),
        }
    }
}

/// The turn that an event is about.
pub open spec fn event_turn(event: EventView) -> Option<Seq<char>> {
    match event {
        EventView::AgentMessageDelta { turn_id, .. } => Some(turn_id),
        EventView::TurnStarted { turn_id, .. } => Some(turn_id),
        EventView::ThreadResolved { turn_id, .. } => Some(turn_id),
        EventView::Error { turn_id, .. } => Some(turn_id),
        EventView::TurnCompleted { turn, .. } => Some(turn.id),
        _ => None,
    }
}

/// Whatever Codex calls the turn, the queue hears of it under the identifier
/// that it knows.
pub proof fn the_logical_turn_is_kept(
    monitor: MonitorView,
    record: JsonView,
    thread_id: Option<Seq<char>>,
)
    ensures
        monitor.report(record) matches Some(event) ==> event_turn(event) == Some(
            monitor.logical_turn,
        ),
        monitor.resolution(thread_id) matches Some(event) ==> event_turn(event) == Some(
            monitor.logical_turn,
        ),
        monitor.resolved(monitor.thread_id, thread_id).logical_turn == monitor.logical_turn,
{
}

/// Everything that the monitor reports of a file is about the turn that the
/// queue knows, and the turn is over exactly when its end was reported.
pub proof fn a_round_is_about_the_logical_turn(
    monitor: MonitorView,
    path: Seq<char>,
    records: Seq<JsonView>,
    thread_id: Option<Seq<char>>,
)
    ensures
        ({
            let round = monitor.round(path, records, thread_id);
            &&& round.monitor.logical_turn == monitor.logical_turn
            &&& forall|i: int|
                0 <= i < round.events.len() ==> event_turn(#[trigger] round.events[i]) == Some(
                    monitor.logical_turn,
                )
            &&& forall|i: int|
                0 <= i < round.events.len() ==> (#[trigger] round.events[i] is TurnCompleted
                    <==> round.over && i == round.events.len() - 1)
            &&& round.over ==> round.events.len() > 0
        }),
    decreases records.len(),
{
    if records.len() > 0 {
        let claim = monitor.claim(path, records[0]);
        let claimed = monitor.claimed(path, records[0]);
        let next = if claim == Claim::Resolve {
            claimed.resolved(path, thread_id)
        } else {
            claimed
        };
        a_round_is_about_the_logical_turn(next, path, records.skip(1), thread_id);
        the_logical_turn_is_kept(next, records[0], thread_id);
        the_logical_turn_is_kept(claimed, records[0], thread_id);
    }
}

/// Once a file was recognised, the records of every other file are passed over,
/// so that a completion of an earlier turn is never taken for this one.
pub proof fn other_sessions_are_not_replayed(
    monitor: MonitorView,
    active: Seq<char>,
    path: Seq<char>,
    record: JsonView,
)
    requires
        monitor.active_path == Some(active),
        !same_path_as(active, path, monitor.style),
    ensures
        monitor.claim(path, record) == Claim::Skip,
        monitor.claimed(path, record) == monitor,
{
}

/// Before a file was recognised, a completed turn is reported for none.
pub proof fn completions_before_the_start_are_passed_over(
    monitor: MonitorView,
    path: Seq<char>,
    record: JsonView,
)
    requires
        monitor.active_path is None,
        kind_of(payload_of(record)) == "task_complete"@,
    ensures
        monitor.claim(path, record) == Claim::Skip,
{
    reveal_strlit("task_complete");
    reveal_strlit("task_started");
    reveal_strlit("user_message");
    assert("task_complete"@.len() == 13);
    assert("task_started"@.len() == 12);
    assert("user_message"@.len() == 12);
}

/// Once the thread of the file is known, reading it again reports nothing.
pub proof fn a_thread_is_resolved_once(monitor: MonitorView, path: Seq<char>, thread_id: Seq<char>)
    ensures
        monitor.resolved(path, Some(thread_id)).resolution(Some(thread_id)) is None,
{
}

} // verus!
