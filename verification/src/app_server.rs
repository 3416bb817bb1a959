//! The protocol of the Codex app-server: one JSON message per line.
//!
//! The protocol has its own versions, so messages are read tolerantly: what is
//! not understood is ignored.  Starting the process and moving bytes is left to
//! the surrounding program; this module says what is written, what a line that
//! was read means, and which request a response belongs to.

use vstd::prelude::*;

use crate::classifier::{ErrorView, TurnError};
use crate::json::{
    bool_of, compact, encoded, error_text, field, i64_number, i64_of, member, opt_field, opt_text,
    parse, parsed, refusal, text_field, write_refusal, Json, JsonView,
};
use crate::text::{
    blank, cat, cat3, copy_opt, is_blank, is_text, opt, same, views,
};
use crate::transport::{
    EventView, FailureView, RestoredTurn, SessionView, StartedTurn, StatusView, ThreadSession,
    TransportError, TransportEvent, TransportKind, TransportStatus, TurnStatus, TurnView,
};

verus! {

/// How long a request waits for its response, in seconds.
pub const REQUEST_TIMEOUT_SECS: u64 = 45;

/// The name under which the program introduces itself.
pub const CLIENT_NAME: &'static str = "codex-longwatch";

/// The code with which a request that is not handled is answered.
pub const METHOD_NOT_FOUND: i64 = -32601;

/// The identifier of a request: a text or an integer.  The server may use
/// either, and is answered with the very same one.
#[derive(Clone, Debug, PartialEq, Eq)]
pub enum RequestId {
    Number(i64),
    Text(String),
}

/// The content of a [`RequestId`].
pub enum IdView {
    Number(i64),
    Text(Seq<char>),
}

impl View for RequestId {
    type V = IdView;

    open spec fn view(&self) -> IdView {
        match self {
            RequestId::Number(number) => IdView::Number(*number),
            RequestId::Text(text) => IdView::Text(text@),
        }
    }
}

/// The identifier that a document is.
pub open spec fn id_of(json: JsonView) -> Option<IdView> {
    match json {
        JsonView::Text(text) => Some(IdView::Text(text)),
        JsonView::Number(_) => match i64_of(json) {
            Some(number) => Some(IdView::Number(number)),
            None => None,
        },
        _ => None,
    }
}

/// The document of an identifier.
pub open spec fn id_json(id: IdView) -> JsonView {
    match id {
        IdView::Number(number) => JsonView::Number(i64_number(number)),
        IdView::Text(text) => JsonView::Text(text),
    }
}

impl RequestId {
    /// The identifier that a document is.
    pub fn from_value(value: &Json) -> (r: Option<RequestId>)
        ensures
            opt(r) == id_of(value@),
    {
        match value {
            Json::Text(text) => Some(RequestId::Text(text.clone())),
            Json::Number(_) => match value.as_i64() {
                Some(number) => Some(RequestId::Number(number)),
                None => None,
            },
            _ => None,
        }
    }

    /// The document of the identifier; reading it gives the identifier back.
    pub fn to_value(&self) -> (r: Json)
        ensures
            r@ == id_json(self@),
            id_of(r@) == Some(self@),
            forall|json: JsonView| #[trigger] id_of(json) == Some(self@) ==> json == r@,
    {
        match self {
            RequestId::Number(number) => Json::signed(*number),
            RequestId::Text(text) => Json::text(text.as_str()),
        }
    }
}

/// The document of an optional path.
pub open spec fn path_json(path: Option<Seq<char>>) -> JsonView {
    match path {
        Some(path) => JsonView::Text(path),
        None => JsonView::Null,
    }
}

fn path_value(path: &Option<String>) -> (r: Json)
    ensures
        r@ == path_json(opt(*path)),
{
    match path {
        Some(path) => Json::text(path.as_str()),
        None => Json::Null,
    }
}

/// A request.
pub open spec fn request_json(id: i64, method: Seq<char>, params: JsonView) -> JsonView {
    JsonView::Object(
        seq![
            ("id"@, id_json(IdView::Number(id))),
            ("method"@, JsonView::Text(method)),
            ("params"@, params),
        ],
    )
}

/// The message of a request.
pub fn request_message(id: i64, method: &str, params: Json) -> (r: Json)
    ensures
        r@ == request_json(id, method@, params@),
{
    let message = Json::object1("id", RequestId::Number(id).to_value()).with(
        "method",
        Json::text(method),
    ).with("params", params);
    assert(message@->Object_0 =~= request_json(id, method@, params@)->Object_0);
    message
}

/// The message that ends the introduction.
pub open spec fn initialized_json() -> JsonView {
    JsonView::Object(
        seq![
            ("method"@, JsonView::Text("initialized"@)),
            ("params"@, JsonView::Object(Seq::empty())),
        ],
    )
}

/// The message that ends the introduction.
pub fn initialized_message() -> (r: Json)
    ensures
        r@ == initialized_json(),
{
    let empty = Json::Object(Vec::new());
    assert(empty@->Object_0 =~= Seq::empty());
    let message = Json::object1("method", Json::text("initialized")).with("params", empty);
    assert(message@->Object_0 =~= initialized_json()->Object_0);
    message
}

/// What the program says of itself.
pub open spec fn initialize_json(version: Seq<char>) -> JsonView {
    JsonView::Object(
        seq![
            (
                "clientInfo"@,
                JsonView::Object(
                    seq![
                        ("name"@, JsonView::Text(CLIENT_NAME@)),
                        ("version"@, JsonView::Text(version)),
                    ],
                ),
            ),
        ],
    )
}

/// The parameters of `initialize`.
pub fn initialize_params(version: &str) -> (r: Json)
    ensures
        r@ == initialize_json(version@),
{
    let info = Json::object1("name", Json::text(CLIENT_NAME)).with("version", Json::text(version));
    assert(info@->Object_0 =~= seq![
        ("name"@, JsonView::Text(CLIENT_NAME@)),
        ("version"@, JsonView::Text(version@)),
    ]);
    Json::object1("clientInfo", info)
}

/// The parameters that start a thread which outlives the connection.
pub open spec fn start_thread_json(working_directory: Option<Seq<char>>) -> JsonView {
    JsonView::Object(
        seq![
            ("cwd"@, path_json(working_directory)),
            ("ephemeral"@, JsonView::Bool(false)),
            ("sessionStartSource"@, JsonView::Text("startup"@)),
            ("threadSource"@, JsonView::Text("codex-longwatch"@)),
        ],
    )
}

/// The parameters of `thread/start`.
pub fn start_thread_params(working_directory: &Option<String>) -> (r: Json)
    ensures
        r@ == start_thread_json(opt(*working_directory)),
{
    let params = Json::object1("cwd", path_value(working_directory)).with(
        "ephemeral",
        Json::Bool(false),
    ).with("sessionStartSource", Json::text("startup")).with(
        "threadSource",
        Json::text("codex-longwatch"),
    );
    assert(params@->Object_0 =~= start_thread_json(opt(*working_directory))->Object_0);
    params
}

/// The parameters that resume a thread.
pub open spec fn resume_thread_json(
    thread_id: Seq<char>,
    working_directory: Option<Seq<char>>,
) -> JsonView {
    JsonView::Object(
        seq![
            ("cwd"@, path_json(working_directory)),
            ("threadId"@, JsonView::Text(thread_id)),
        ],
    )
}

/// The parameters of `thread/resume`.
pub fn resume_thread_params(thread_id: &str, working_directory: &Option<String>) -> (r: Json)
    ensures
        r@ == resume_thread_json(thread_id@, opt(*working_directory)),
{
    let params = Json::object1("cwd", path_value(working_directory)).with(
        "threadId",
        Json::text(thread_id),
    );
    assert(params@->Object_0 =~= resume_thread_json(
        thread_id@,
        opt(*working_directory),
    )->Object_0);
    params
}

/// The parameters that start a turn with a prompt.
pub open spec fn start_turn_json(
    thread_id: Seq<char>,
    prompt: Seq<char>,
    working_directory: Option<Seq<char>>,
) -> JsonView {
    JsonView::Object(
        seq![
            ("cwd"@, path_json(working_directory)),
            (
                "input"@,
                JsonView::Array(
                    seq![
                        JsonView::Object(
                            seq![
                                ("text"@, JsonView::Text(prompt)),
                                ("type"@, JsonView::Text("text"@)),
                            ],
                        ),
                    ],
                ),
            ),
            ("threadId"@, JsonView::Text(thread_id)),
        ],
    )
}

/// The parameters of `turn/start`.
pub fn start_turn_params(
    thread_id: &str,
    prompt: &str,
    working_directory: &Option<String>,
) -> (r: Json)
    ensures
        r@ == start_turn_json(thread_id@, prompt@, opt(*working_directory)),
{
    let item = Json::object1("text", Json::text(prompt)).with("type", Json::text("text"));
    let ghost item_view = item@;
    assert(item_view->Object_0 =~= seq![
        ("text"@, JsonView::Text(prompt@)),
        ("type"@, JsonView::Text("text"@)),
    ]);
    let mut items: Vec<Json> = Vec::new();
    items.push(item);
    let input = Json::Array(items);
    assert(input@->Array_0 =~= seq![item_view]);
    let params = Json::object1("cwd", path_value(working_directory)).with("input", input).with(
        "threadId",
        Json::text(thread_id),
    );
    assert(params@->Object_0 =~= start_turn_json(
        thread_id@,
        prompt@,
        opt(*working_directory),
    )->Object_0);
    params
}

/// The parameters that interrupt a turn.
pub open spec fn interrupt_json(thread_id: Seq<char>, turn_id: Seq<char>) -> JsonView {
    JsonView::Object(
        seq![
            ("threadId"@, JsonView::Text(thread_id)),
            ("turnId"@, JsonView::Text(turn_id)),
        ],
    )
}

/// The parameters of `turn/interrupt`.
pub fn interrupt_params(thread_id: &str, turn_id: &str) -> (r: Json)
    ensures
        r@ == interrupt_json(thread_id@, turn_id@),
{
    let params = Json::object1("threadId", Json::text(thread_id)).with(
        "turnId",
        Json::text(turn_id),
    );
    assert(params@->Object_0 =~= interrupt_json(thread_id@, turn_id@)->Object_0);
    params
}

/// The answer to a request of the server: it is not handled.
pub open spec fn rejection_json(id: IdView) -> JsonView {
    JsonView::Object(
        seq![
            (
                "error"@,
                JsonView::Object(
                    seq![
                        ("code"@, JsonView::Number(i64_number(METHOD_NOT_FOUND))),
                        (
                            "message"@,
                            JsonView::Text("Longwatch does not handle server requests"@),
                        ),
                    ],
                ),
            ),
            ("id"@, id_json(id)),
        ],
    )
}

fn rejection(id: &RequestId) -> (r: Json)
    ensures
        r@ == rejection_json(id@),
        forall|json: JsonView| #[trigger] id_of(json) == Some(id@) ==> field(r@, "id"@) == Some(json),
{
    let error = Json::object1("code", Json::signed(METHOD_NOT_FOUND)).with(
        "message",
        Json::text("Longwatch does not handle server requests"),
    );
    assert(error@->Object_0 =~= seq![
        ("code"@, JsonView::Number(i64_number(METHOD_NOT_FOUND))),
        ("message"@, JsonView::Text("Longwatch does not handle server requests"@)),
    ]);
    let message = Json::object1("error", error).with("id", id.to_value());
    assert(message@->Object_0 =~= rejection_json(id@)->Object_0);
    proof {
        reveal_strlit("error");
        reveal_strlit("id");
        assert("error"@.len() == 5 && "id"@.len() == 2);
        let members = message@->Object_0;
        assert(members.skip(1)[0] == members[1]);
        reveal_with_fuel(member, 3);
    }
    message
}

/// The bytes that are written for a message: its compact text and the end of a line.
pub fn message_line(message: &Json) -> (r: Result<Vec<u8>, TransportError>)
    ensures
        match encoded(message@) {
            Some(bytes) => r is Ok && r->Ok_0@ == bytes.push(10u8),
            None => r is Err && r->Err_0@ == FailureView::Protocol(write_refusal(message@)),
        },
{
    match message.to_bytes() {
        Ok(bytes) => {
            let mut line = bytes;
            line.push(10);
            Ok(line)
        },
        Err(error) => Err(TransportError::Protocol(error_text(&error))),
    }
}

/// The text of an optional member: absent and null are none, another kind is refused.
pub open spec fn optional_text(json: Option<JsonView>) -> Option<Option<Seq<char>>> {
    match json {
        None => Some(None),
        Some(JsonView::Null) => Some(None),
        Some(JsonView::Text(text)) => Some(Some(text)),
        Some(_) => None,
    }
}

/// An optional member of any kind: null is none.
pub open spec fn optional_json(json: Option<JsonView>) -> Option<JsonView> {
    match json {
        Some(JsonView::Null) => None,
        other => other,
    }
}

/// The item of an array at an index.
pub open spec fn item_at(items: Seq<JsonView>, index: int) -> Option<JsonView> {
    if index < items.len() {
        Some(items[index])
    } else {
        None
    }
}

/// The parts of an error: from the members of an object, or from the items of an
/// array in the order message, details, information.
pub open spec fn error_parts(json: JsonView) -> Option<
    (Option<JsonView>, Option<JsonView>, Option<JsonView>),
> {
    match json {
        JsonView::Object(_) => Some(
            (
                field(json, "message"@),
                field(json, "additionalDetails"@),
                field(json, "codexErrorInfo"@),
            ),
        ),
        JsonView::Array(items) => if items.len() <= 3 {
            Some((item_at(items, 0), item_at(items, 1), item_at(items, 2)))
        } else {
            None
        },
        _ => None,
    }
}

/// The error that a document describes.
pub open spec fn error_of(json: JsonView) -> Option<ErrorView> {
    match error_parts(json) {
        None => None,
        Some((message, details, info)) => match (opt_text(message), optional_text(details)) {
            (Some(message), Some(additional_details)) => Some(
                ErrorView {
                    message,
                    additional_details,
                    codex_error_info: optional_json(info),
                },
            ),
            _ => None,
        },
    }
}

fn build_error(
    message: Option<&Json>,
    details: Option<&Json>,
    info: Option<&Json>,
) -> (r: Option<TurnError>)
    ensures
        opt(r) == (match (opt_text(opt(message)), optional_text(opt(details))) {
            (Some(message), Some(additional_details)) => Some(
                ErrorView {
                    message,
                    additional_details,
                    codex_error_info: optional_json(opt(info)),
                },
            ),
            _ => None,
        }),
{
    let message = match message {
        Some(Json::Text(text)) => text.clone(),
        _ => {
            return None;
        },
    };
    let additional_details = match details {
        None => None,
        Some(Json::Null) => None,
        Some(Json::Text(text)) => Some(text.clone()),
        Some(_) => {
            return None;
        },
    };
    let codex_error_info = match info {
        None => None,
        Some(Json::Null) => None,
        Some(info) => Some(info.copy()),
    };
    Some(TurnError { message, additional_details, codex_error_info })
}

/// Reads the error that a document describes.
pub fn read_error(value: &Json) -> (r: Option<TurnError>)
    ensures
        opt(r) == error_of(value@),
{
    match value {
        Json::Object(_) => build_error(
            value.get("message"),
            value.get("additionalDetails"),
            value.get("codexErrorInfo"),
        ),
        Json::Array(items) => {
            if items.len() > 3 {
                return None;
            }
            let ghost all = value@->Array_0;
            assert(all.len() == items@.len());
            assert(forall|k: int| 0 <= k < all.len() ==> #[trigger] all[k] == items@[k]@);
            let message = if items.len() > 0 {
                Some(&items[0])
            } else {
                None
            };
            let details = if items.len() > 1 {
                Some(&items[1])
            } else {
                None
            };
            let info = if items.len() > 2 {
                Some(&items[2])
            } else {
                None
            };
            build_error(message, details, info)
        },
        _ => None,
    }
}

/// Whether an item is a message of the agent.
pub open spec fn agent_message(item: JsonView) -> bool {
    text_field(item, "type"@) == Some("agentMessage"@)
}

/// The text of an item; empty where it has none.
pub open spec fn item_text(item: JsonView) -> Seq<char> {
    match text_field(item, "text"@) {
        Some(text) => text,
        None => Seq::empty(),
    }
}

/// The text of the last message of the agent that is marked as the final answer.
pub open spec fn last_answer(items: Seq<JsonView>) -> Option<Seq<char>>
    decreases items.len(),
{
    if items.len() == 0 {
        None
    } else if agent_message(items.last()) && text_field(items.last(), "phase"@) == Some(
        "final_answer"@,
    ) {
        Some(item_text(items.last()))
    } else {
        last_answer(items.drop_last())
    }
}

/// The text of the last message of the agent that is no commentary.
pub open spec fn last_statement(items: Seq<JsonView>) -> Option<Seq<char>>
    decreases items.len(),
{
    if items.len() == 0 {
        None
    } else if agent_message(items.last()) && text_field(items.last(), "phase"@) != Some(
        "commentary"@,
    ) {
        Some(item_text(items.last()))
    } else {
        last_statement(items.drop_last())
    }
}

/// The reply of a turn: its final answer, else its last statement, else nothing.
pub open spec fn final_text(items: Option<JsonView>) -> Seq<char> {
    match items {
        Some(JsonView::Array(items)) => match last_answer(items) {
            Some(text) => text,
            None => match last_statement(items) {
                Some(text) => text,
                None => Seq::empty(),
            },
        },
        _ => Seq::empty(),
    }
}

fn is_agent_message(item: &Json) -> (r: bool)
    ensures
        r == agent_message(item@),
{
    is_text(&item.get_text("type"), "agentMessage")
}

fn text_of_item(item: &Json) -> (r: String)
    ensures
        r@ == item_text(item@),
{
    match item.get_text("text") {
        Some(text) => text,
        None => String::new(),
    }
}

fn final_message_of(items: &Vec<Json>) -> (r: String)
    ensures
        r@ == final_text(Some(JsonView::Array(json_items(*items)))),
{
    let ghost all = Seq::new(items@.len(), |k: int| items@[k]@);
    assert(json_items(*items) =~= all);
    let mut i: usize = items.len();
    assert(all.take(i as int) =~= all);
    while i > 0
        invariant
            i <= items@.len(),
            all == Seq::new(items@.len(), |k: int| items@[k]@),
            all == json_items(*items),
            last_answer(all.take(i as int)) == last_answer(all),
        decreases i,
    {
        let ghost front = all.take(i as int);
        assert(front.drop_last() =~= all.take(i - 1));
        assert(front.last() == items@[i - 1]@);
        let item = &items[i - 1];
        if is_agent_message(item) && is_text(&item.get_text("phase"), "final_answer") {
            return text_of_item(item);
        }
        i = i - 1;
    }
    i = items.len();
    assert(all.take(i as int) =~= all);
    while i > 0
        invariant
            i <= items@.len(),
            all == Seq::new(items@.len(), |k: int| items@[k]@),
            all == json_items(*items),
            last_answer(all) is None,
            last_statement(all.take(i as int)) == last_statement(all),
        decreases i,
    {
        let ghost front = all.take(i as int);
        assert(front.drop_last() =~= all.take(i - 1));
        assert(front.last() == items@[i - 1]@);
        let item = &items[i - 1];
        if is_agent_message(item) && !is_text(&item.get_text("phase"), "commentary") {
            return text_of_item(item);
        }
        i = i - 1;
    }
    String::new()
}

/// The reply of a turn.
pub fn extract_final_message(items: Option<&Json>) -> (r: String)
    ensures
        r@ == final_text(opt(items)),
{
    match items {
        Some(Json::Array(items)) => final_message_of(items),
        _ => String::new(),
    }
}

/// The contents of the items of an array.
spec fn json_items(items: Vec<Json>) -> Seq<JsonView> {
    (Json::Array(items))@->Array_0
}

/// The status that a turn states.
pub open spec fn status_of(text: Seq<char>) -> Option<TurnStatus> {
    if text == "completed"@ {
        Some(TurnStatus::Completed)
    } else if text == "interrupted"@ {
        Some(TurnStatus::Interrupted)
    } else if text == "failed"@ {
        Some(TurnStatus::Failed)
    } else if text == "inProgress"@ || text == "in_progress"@ {
        Some(TurnStatus::InProgress)
    } else {
        None
    }
}

/// The turn that a document describes, or why it describes none.
pub open spec fn turn_of(json: JsonView) -> Result<TurnView, Seq<char>> {
    match (text_field(json, "id"@), text_field(json, "status"@)) {
        (None, _) => Err("turn payload has no id"@),
        (Some(_), None) => Err("turn payload has no status"@),
        (Some(id), Some(status)) => match status_of(status) {
            None => Err("unknown turn status "@ + status),
            Some(status) => Ok(
                TurnView {
                    id,
                    status,
                    final_message: final_text(field(json, "items"@)),
                    error: match optional_json(field(json, "error"@)) {
                        Some(error) => error_of(error),
                        None => None,
                    },
                },
            ),
        },
    }
}

fn read_status(text: &str) -> (r: Option<TurnStatus>)
    ensures
        r == status_of(text@),
{
    if same(text, "completed") {
        Some(TurnStatus::Completed)
    } else if same(text, "interrupted") {
        Some(TurnStatus::Interrupted)
    } else if same(text, "failed") {
        Some(TurnStatus::Failed)
    } else if same(text, "inProgress") || same(text, "in_progress") {
        Some(TurnStatus::InProgress)
    } else {
        None
    }
}

/// Reads the turn that a document describes.
pub fn parse_turn(value: &Json) -> (r: Result<RestoredTurn, TransportError>)
    ensures
        match turn_of(value@) {
            Ok(turn) => r is Ok && r->Ok_0@ == turn,
            Err(text) => r is Err && r->Err_0@ == FailureView::Protocol(text),
        },
{
    let id = match value.get_text("id") {
        Some(id) => id,
        None => {
            return Err(TransportError::Protocol("turn payload has no id".to_owned()));
        },
    };
    let status = match value.get_text("status") {
        Some(status) => status,
        None => {
            return Err(TransportError::Protocol("turn payload has no status".to_owned()));
        },
    };
    let status = match read_status(status.as_str()) {
        Some(status) => status,
        None => {
            return Err(
                TransportError::Protocol(cat("unknown turn status ", status.as_str())),
            );
        },
    };
    let error = match value.get("error") {
        None => None,
        Some(Json::Null) => None,
        Some(error) => read_error(error),
    };
    let final_message = extract_final_message(value.get("items"));
    Ok(RestoredTurn { id, status, final_message, error })
}

/// The thread that a response describes, or why it describes none.
pub open spec fn session_of(json: JsonView) -> Result<SessionView, Seq<char>> {
    match field(json, "thread"@) {
        None => Err("thread response has no thread object"@),
        Some(thread) => match text_field(thread, "id"@) {
            None => Err("thread response has no thread.id"@),
            Some(id) => Ok(
                SessionView {
                    id,
                    latest_turn: match field(thread, "turns"@) {
                        Some(JsonView::Array(turns)) => if turns.len() > 0 {
                            match turn_of(turns.last()) {
                                Ok(turn) => Some(turn),
                                Err(_) => None,
                            }
                        } else {
                            None
                        },
                        _ => None,
                    },
                },
            ),
        },
    }
}

/// Reads the thread that a response describes.
pub fn parse_thread_session(value: &Json) -> (r: Result<ThreadSession, TransportError>)
    ensures
        match session_of(value@) {
            Ok(session) => r is Ok && r->Ok_0@ == session,
            Err(text) => r is Err && r->Err_0@ == FailureView::Protocol(text),
        },
{
    let thread = match value.get("thread") {
        Some(thread) => thread,
        None => {
            return Err(
                TransportError::Protocol("thread response has no thread object".to_owned()),
            );
        },
    };
    let id = match thread.get_text("id") {
        Some(id) => id,
        None => {
            return Err(TransportError::Protocol("thread response has no thread.id".to_owned()));
        },
    };
    let latest_turn = match thread.get("turns") {
        Some(Json::Array(turns)) => {
            if turns.len() > 0 {
                assert(json_items(*turns).last() == turns@.last()@);
                match parse_turn(&turns[turns.len() - 1]) {
                    Ok(turn) => Some(turn),
                    Err(_) => None,
                }
            } else {
                None
            }
        },
        _ => None,
    };
    Ok(ThreadSession { id, latest_turn })
}

/// The turn that the server has accepted.
pub open spec fn started_turn_of(json: JsonView) -> Option<Seq<char>> {
    opt_text(opt_field(field(json, "turn"@), "id"@))
}

/// Reads the response to `turn/start`.
pub fn parse_started_turn(value: &Json) -> (r: Result<StartedTurn, TransportError>)
    ensures
        match started_turn_of(value@) {
            Some(id) => r is Ok && r->Ok_0@ == id,
            None => r is Err && r->Err_0@ == FailureView::Protocol(
                "turn/start response has no turn.id"@,
            ),
        },
{
    if let Some(turn) = value.get("turn") {
        if let Some(id) = turn.get_text("id") {
            return Ok(StartedTurn { id });
        }
    }
    Err(TransportError::Protocol("turn/start response has no turn.id".to_owned()))
}

/// The failure that an error response describes, or why it describes none.
pub open spec fn rpc_error_of(json: JsonView) -> Result<FailureView, Seq<char>> {
    let code = match field(json, "code"@) {
        Some(code) => i64_of(code),
        None => None,
    };
    match (code, text_field(json, "message"@)) {
        (None, _) => Err("JSON-RPC error has no integer code: "@ + compact(json)),
        (Some(_), None) => Err("JSON-RPC error has no message: "@ + compact(json)),
        (Some(code), Some(message)) => Ok(
            FailureView::Rpc {
                code,
                message,
                data: match field(json, "data"@) {
                    Some(data) => Some(data),
                    None => field(json, "codexErrorInfo"@),
                },
            },
        ),
    }
}

/// Reads the failure that an error response describes.
pub fn parse_rpc_error(error: &Json) -> (r: Result<TransportError, TransportError>)
    ensures
        match rpc_error_of(error@) {
            Ok(failure) => r is Ok && r->Ok_0@ == failure,
            Err(text) => r is Err && r->Err_0@ == FailureView::Protocol(text),
        },
{
    let code: Option<i64> = match error.get("code") {
        Some(code) => code.as_i64(),
        None => None,
    };
    let code: i64 = match code {
        Some(code) => code,
        None => {
            return Err(
                TransportError::Protocol(
                    cat("JSON-RPC error has no integer code: ", error.to_text().as_str()),
                ),
            );
        },
    };
    let message = match error.get_text("message") {
        Some(message) => message,
        None => {
            return Err(
                TransportError::Protocol(
                    cat("JSON-RPC error has no message: ", error.to_text().as_str()),
                ),
            );
        },
    };
    let data = match error.get("data") {
        Some(data) => Some(data.copy()),
        None => match error.get("codexErrorInfo") {
            Some(info) => Some(info.copy()),
            None => None,
        },
    };
    Ok(TransportError::Rpc { code, message, data })
}

/// A message of the agent that was completed before its turn.
#[derive(Debug)]
pub struct CompletedAgentMessage {
    pub thread_id: String,
    pub turn_id: String,
    pub text: String,
    pub explicit_final: bool,
}

/// The content of a [`CompletedAgentMessage`].
pub struct MessageView {
    pub thread_id: Seq<char>,
    pub turn_id: Seq<char>,
    pub text: Seq<char>,
    pub explicit_final: bool,
}

impl View for CompletedAgentMessage {
    type V = MessageView;

    open spec fn view(&self) -> MessageView {
        MessageView {
            thread_id: self.thread_id@,
            turn_id: self.turn_id@,
            text: self.text@,
            explicit_final: self.explicit_final,
        }
    }
}

/// The message that a completed item is; commentary is none.
pub open spec fn completed_message_of(params: JsonView) -> Option<MessageView> {
    match field(params, "item"@) {
        None => None,
        Some(item) => if !agent_message(item) || text_field(item, "phase"@) == Some("commentary"@) {
            None
        } else {
            match (
                text_field(params, "threadId"@),
                text_field(params, "turnId"@),
                text_field(item, "text"@),
            ) {
                (Some(thread_id), Some(turn_id), Some(text)) => Some(
                    MessageView {
                        thread_id,
                        turn_id,
                        text,
                        explicit_final: text_field(item, "phase"@) == Some("final_answer"@),
                    },
                ),
                _ => None,
            }
        },
    }
}

/// Reads the message that a completed item is.
pub fn parse_completed_agent_message(params: &Json) -> (r: Option<CompletedAgentMessage>)
    ensures
        opt(r) == completed_message_of(params@),
{
    let item = match params.get("item") {
        Some(item) => item,
        None => {
            return None;
        },
    };
    if !is_agent_message(item) {
        return None;
    }
    let phase = item.get_text("phase");
    if is_text(&phase, "commentary") {
        return None;
    }
    let explicit_final = is_text(&phase, "final_answer");
    match (params.get_text("threadId"), params.get_text("turnId"), item.get_text("text")) {
        (Some(thread_id), Some(turn_id), Some(text)) => Some(
            CompletedAgentMessage { thread_id, turn_id, text, explicit_final },
        ),
        _ => None,
    }
}

/// The event that a notification reports.
pub open spec fn event_of(method: Seq<char>, params: JsonView) -> Option<EventView> {
    let thread_id = text_field(params, "threadId"@);
    let turn_id = text_field(params, "turnId"@);
    if method == "item/agentMessage/delta"@ {
        match (thread_id, turn_id, text_field(params, "delta"@)) {
            (Some(thread_id), Some(turn_id), Some(delta)) => Some(
                EventView::AgentMessageDelta { thread_id, turn_id, delta },
            ),
            _ => None,
        }
    } else if method == "turn/started"@ {
        let started = match opt_text(opt_field(field(params, "turn"@), "id"@)) {
            Some(id) => Some(id),
            None => turn_id,
        };
        match (thread_id, started) {
            (Some(thread_id), Some(turn_id)) => Some(
                EventView::TurnStarted { thread_id, turn_id },
            ),
            _ => None,
        }
    } else if method == "error"@ {
        let error = match field(params, "error"@) {
            Some(error) => error_of(error),
            None => None,
        };
        match (thread_id, turn_id, error) {
            (Some(thread_id), Some(turn_id), Some(error)) => Some(
                EventView::Error {
                    thread_id,
                    turn_id,
                    error,
                    will_retry: match field(params, "willRetry"@) {
                        Some(flag) => bool_of(flag) == Some(true),
                        None => false,
                    },
                },
            ),
            _ => None,
        }
    } else if method == "turn/completed"@ {
        match (thread_id, field(params, "turn"@)) {
            (Some(thread_id), Some(turn)) => match turn_of(turn) {
                Ok(turn) => Some(EventView::TurnCompleted { thread_id, turn }),
                Err(_) => None,
            },
            _ => None,
        }
    } else {
        None
    }
}

/// Reads the event that a notification reports.
pub fn parse_event(method: &str, params: &Json) -> (r: Option<TransportEvent>)
    ensures
        opt(r) == event_of(method@, params@),
{
    let thread_id = match params.get_text("threadId") {
        Some(thread_id) => thread_id,
        None => {
            return None;
        },
    };
    if same(method, "item/agentMessage/delta") {
        match (params.get_text("turnId"), params.get_text("delta")) {
            (Some(turn_id), Some(delta)) => Some(
                TransportEvent::AgentMessageDelta { thread_id, turn_id, delta },
            ),
            _ => None,
        }
    } else if same(method, "turn/started") {
        let named = match params.get("turn") {
            Some(turn) => turn.get_text("id"),
            None => None,
        };
        let turn_id = match named {
            Some(id) => Some(id),
            None => params.get_text("turnId"),
        };
        match turn_id {
            Some(turn_id) => Some(TransportEvent::TurnStarted { thread_id, turn_id }),
            None => None,
        }
    } else if same(method, "error") {
        let turn_id = match params.get_text("turnId") {
            Some(turn_id) => turn_id,
            None => {
                return None;
            },
        };
        let error = match params.get("error") {
            Some(error) => read_error(error),
            None => None,
        };
        let will_retry = match params.get("willRetry") {
            Some(flag) => match flag.as_bool() {
                Some(value) => value,
                None => false,
            },
            None => false,
        };
        match error {
            Some(error) => Some(TransportEvent::Error { thread_id, turn_id, error, will_retry }),
            None => None,
        }
    } else if same(method, "turn/completed") {
        match params.get("turn") {
            Some(turn) => match parse_turn(turn) {
                Ok(turn) => Some(TransportEvent::TurnCompleted { thread_id, turn }),
                Err(_) => None,
            },
            None => None,
        }
    } else {
        None
    }
}

/// The message that is kept for a turn.
pub open spec fn kept_message(
    messages: Seq<MessageView>,
    thread_id: Seq<char>,
    turn_id: Seq<char>,
) -> Option<MessageView>
    decreases messages.len(),
{
    if messages.len() == 0 {
        None
    } else if messages[0].thread_id == thread_id && messages[0].turn_id == turn_id {
        Some(messages[0])
    } else {
        kept_message(messages.skip(1), thread_id, turn_id)
    }
}

/// The messages that are kept without those of a turn.
pub open spec fn without_message(
    messages: Seq<MessageView>,
    thread_id: Seq<char>,
    turn_id: Seq<char>,
) -> Seq<MessageView>
    decreases messages.len(),
{
    if messages.len() == 0 {
        Seq::empty()
    } else if messages[0].thread_id == thread_id && messages[0].turn_id == turn_id {
        without_message(messages.skip(1), thread_id, turn_id)
    } else {
        seq![messages[0]] + without_message(messages.skip(1), thread_id, turn_id)
    }
}

/// The messages that are kept with one more: it replaces the one of its turn,
/// unless that one is marked as the final answer and it is not.
pub open spec fn with_message(messages: Seq<MessageView>, message: MessageView) -> Seq<MessageView> {
    let current = kept_message(messages, message.thread_id, message.turn_id);
    if current is None || message.explicit_final || !current->0.explicit_final {
        without_message(messages, message.thread_id, message.turn_id).push(message)
    } else {
        messages
    }
}

/// What a message of the server means.
#[derive(Debug)]
pub enum Dispatch {
    /// The server asks for something; show the text and write the answer.
    Rejected { diagnostic: String, response: Json },
    /// A request of the given identifier was answered.
    Response { id: RequestId, answer: Result<Json, TransportError> },
    /// Something happened; where `lossy` is set it may be dropped.
    Event { event: TransportEvent, lossy: bool },
    /// Nothing is to be done.
    Nothing,
}

/// The content of a [`Dispatch`].
pub enum DispatchView {
    Rejected { diagnostic: Seq<char>, response: JsonView },
    Response { id: IdView, answer: Result<JsonView, FailureView> },
    Event { event: EventView, lossy: bool },
    Nothing,
}

impl View for Dispatch {
    type V = DispatchView;

    open spec fn view(&self) -> DispatchView {
        match self {
            Dispatch::Rejected { diagnostic, response } => DispatchView::Rejected {
                diagnostic: diagnostic@,
                response: response@,
            },
            Dispatch::Response { id, answer } => DispatchView::Response {
                id: id@,
                answer: match answer {
                    Ok(value) => Ok(value@),
                    Err(error) => Err(error@),
                },
            },
            Dispatch::Event { event, lossy } => DispatchView::Event {
                event: event@,
                lossy: *lossy,
            },
            Dispatch::Nothing => DispatchView::Nothing,
        }
    }
}

/// The text that is shown when the server asks for something.
pub open spec fn rejection_text(method: Seq<char>) -> Seq<char> {
    "Codex 请求了交互式操作（"@ + method
        + "），已自动拒绝；请改用无需审批的运行策略后重试"@
}

/// The method of a message, or another text where it has none.
pub open spec fn method_or(message: JsonView, other: Seq<char>) -> Seq<char> {
    match text_field(message, "method"@) {
        Some(method) => method,
        None => other,
    }
}

/// A finished turn whose reply is the kept message, where it has none itself.
pub open spec fn with_kept_reply(event: EventView, messages: Seq<MessageView>) -> EventView {
    match event {
        EventView::TurnCompleted { thread_id, turn } => match kept_message(
            messages,
            thread_id,
            turn.id,
        ) {
            Some(message) => if blank(turn.final_message) {
                EventView::TurnCompleted {
                    thread_id,
                    turn: TurnView { final_message: message.text, ..turn },
                }
            } else {
                event
            },
            None => event,
        },
        _ => event,
    }
}

/// What a message with an identifier means: a request of the server is refused,
/// so that nothing is ever granted by itself; anything else is a response.
pub open spec fn identified_meaning(message: JsonView) -> Result<DispatchView, Seq<char>> {
    match id_of(field(message, "id"@)->0) {
        None => Err("JSON-RPC id must be a string or integer"@),
        Some(id) => if field(message, "method"@) is Some {
            Ok(
                DispatchView::Rejected {
                    diagnostic: rejection_text(method_or(message, "unknown"@)),
                    response: rejection_json(id),
                },
            )
        } else {
            match field(message, "error"@) {
                Some(error) => match rpc_error_of(error) {
                    Ok(failure) => Ok(DispatchView::Response { id, answer: Err(failure) }),
                    Err(text) => Err(text),
                },
                None => Ok(
                    DispatchView::Response {
                        id,
                        answer: Ok(
                            match field(message, "result"@) {
                                Some(result) => result,
                                None => JsonView::Null,
                            },
                        ),
                    },
                ),
            }
        },
    }
}

/// The parameters of a message.
pub open spec fn params_of(message: JsonView) -> JsonView {
    match field(message, "params"@) {
        Some(params) => params,
        None => JsonView::Null,
    }
}

/// What a message of the server means, or why it is malformed.
pub open spec fn meaning(message: JsonView, messages: Seq<MessageView>) -> Result<
    DispatchView,
    Seq<char>,
> {
    if field(message, "id"@) is Some {
        identified_meaning(message)
    } else {
        let method = method_or(message, Seq::empty());
        if method == "item/completed"@ {
            Ok(DispatchView::Nothing)
        } else {
            match event_of(method, params_of(message)) {
                None => Ok(DispatchView::Nothing),
                Some(event) => Ok(
                    DispatchView::Event {
                        event: with_kept_reply(event, messages),
                        lossy: event is AgentMessageDelta,
                    },
                ),
            }
        }
    }
}

/// The messages that are kept after a message of the server.
pub open spec fn messages_after(message: JsonView, messages: Seq<MessageView>) -> Seq<MessageView> {
    if field(message, "id"@) is Some {
        messages
    } else {
        let method = method_or(message, Seq::empty());
        if method == "item/completed"@ {
            match completed_message_of(params_of(message)) {
                Some(completed) => with_message(messages, completed),
                None => messages,
            }
        } else {
            match event_of(method, params_of(message)) {
                Some(EventView::TurnCompleted { thread_id, turn }) => without_message(
                    messages,
                    thread_id,
                    turn.id,
                ),
                _ => messages,
            }
        }
    }
}

/// One connection to the app-server: the requests that wait for a response and
/// the messages that wait for the end of their turn.
#[derive(Debug)]
pub struct AppServerTransport {
    pub codex_path: String,
    pub next_id: u64,
    pub pending: Vec<i64>,
    pub messages: Vec<CompletedAgentMessage>,
    pub connected: bool,
    pub server_agent: Option<String>,
    pub hide_window: bool,
}

/// The content of an [`AppServerTransport`].
pub struct AppServerView {
    pub codex_path: Seq<char>,
    pub next_id: u64,
    pub pending: Seq<i64>,
    pub messages: Seq<MessageView>,
    pub connected: bool,
    pub server_agent: Option<Seq<char>>,
    pub hide_window: bool,
}

impl View for AppServerTransport {
    type V = AppServerView;

    open spec fn view(&self) -> AppServerView {
        AppServerView {
            codex_path: self.codex_path@,
            next_id: self.next_id,
            pending: self.pending@,
            messages: views(self.messages@),
            connected: self.connected,
            server_agent: opt(self.server_agent),
            hide_window: self.hide_window,
        }
    }
}

impl AppServerView {
    /// What always holds: no identifier waits twice, and all that wait lie
    /// below the next one.
    pub open spec fn valid(self) -> bool {
        &&& self.pending.no_duplicates()
        &&& 1 <= self.next_id <= i64::MAX
        &&& forall|i: int| 0 <= i < self.pending.len() ==> 1 <= #[trigger] self.pending[i]
            < self.next_id
    }
}

/// What is done to connect.
#[derive(Clone, Copy, Debug, PartialEq, Eq, Structural)]
pub enum ConnectPlan {
    /// Nothing: the connection stands.
    Connected,
    /// Start the process.
    Spawn,
    /// Shut down what is left of an earlier connection, then start the process.
    ShutDownAndSpawn,
}

impl AppServerTransport {
    /// A session without a connection.
    pub fn new(codex_path: String) -> (r: AppServerTransport)
        ensures
            r@ == (AppServerView {
                codex_path: codex_path@,
                next_id: 1,
                pending: Seq::empty(),
                messages: Seq::empty(),
                connected: false,
                server_agent: None,
                hide_window: false,
            }),
            r@.valid(),
    {
        let session = AppServerTransport {
            codex_path,
            next_id: 1,
            pending: Vec::new(),
            messages: Vec::new(),
            connected: false,
            server_agent: None,
            hide_window: false,
        };
        assert(session@.messages =~= Seq::empty());
        session
    }

    /// Whether the window of the app-server stays hidden.
    pub fn with_hidden_window(self, hidden: bool) -> (r: AppServerTransport)
        ensures
            r@ == (AppServerView { hide_window: hidden, ..self@ }),
    {
        let mut session = self;
        session.hide_window = hidden;
        session
    }

    /// The path of the executable.
    pub fn codex_path(&self) -> (r: &String)
        ensures
            r@ == self@.codex_path,
    {
        &self.codex_path
    }

    /// The status of this carrier.
    pub fn status(&self) -> (r: TransportStatus)
        ensures
            r@ == (StatusView {
                kind: TransportKind::AppServer,
                connected: self@.connected,
                server_agent: self@.server_agent,
            }),
    {
        TransportStatus {
            kind: TransportKind::AppServer,
            connected: self.connected,
            server_agent: copy_opt(&self.server_agent),
        }
    }

    /// What is done to connect; `leftovers` tells whether tasks of an earlier
    /// connection are still there.
    pub fn plan_connect(&self, leftovers: bool) -> (r: ConnectPlan)
        ensures
            r == (if self@.connected {
                ConnectPlan::Connected
            } else if leftovers {
                ConnectPlan::ShutDownAndSpawn
            } else {
                ConnectPlan::Spawn
            }),
    {
        if self.connected {
            ConnectPlan::Connected
        } else if leftovers {
            ConnectPlan::ShutDownAndSpawn
        } else {
            ConnectPlan::Spawn
        }
    }

    /// The process was started.  Every connection has its own requests and
    /// messages, so that an earlier one cannot answer for it.
    pub fn spawned(&mut self)
        requires
            old(self)@.valid(),
        ensures
            final(self)@ == (AppServerView {
                pending: Seq::empty(),
                messages: Seq::empty(),
                connected: true,
                ..old(self)@
            }),
            final(self)@.valid(),
    {
        self.pending = Vec::new();
        self.messages = Vec::new();
        self.connected = true;
        assert(self@.messages =~= Seq::empty());
        assert(self@.pending =~= Seq::empty());
    }

    /// The server has introduced itself; gives the message that ends the introduction.
    pub fn introduced(&mut self, response: &Json) -> (r: Json)
        requires
            old(self)@.valid(),
        ensures
            final(self)@ == (AppServerView {
                server_agent: text_field(response@, "userAgent"@),
                ..old(self)@
            }),
            r@ == initialized_json(),
            final(self)@.valid(),
    {
        self.server_agent = response.get_text("userAgent");
        initialized_message()
    }

    /// The connection is gone.
    pub fn shut_down(&mut self)
        requires
            old(self)@.valid(),
        ensures
            final(self)@ == (AppServerView {
                pending: Seq::empty(),
                messages: Seq::empty(),
                connected: false,
                server_agent: None,
                ..old(self)@
            }),
            final(self)@.valid(),
    {
        self.connected = false;
        self.server_agent = None;
        self.pending = Vec::new();
        self.messages = Vec::new();
        assert(self@.messages =~= Seq::empty());
        assert(self@.pending =~= Seq::empty());
    }

    /// The server was introduced to, or not: without an introduction the
    /// connection is given up.
    pub fn introduction_ended(&mut self, outcome: Result<(), TransportError>) -> (r: Result<
        (),
        TransportError,
    >)
        requires
            old(self)@.valid(),
        ensures
            r is Ok == outcome is Ok,
            outcome matches Err(error) ==> r->Err_0@ == error@,
            final(self)@ == (if outcome is Ok {
                old(self)@
            } else {
                AppServerView {
                    pending: Seq::empty(),
                    messages: Seq::empty(),
                    connected: false,
                    server_agent: None,
                    ..old(self)@
                }
            }),
            final(self)@.valid(),
    {
        if outcome.is_err() {
            self.shut_down();
        }
        outcome
    }

    /// The output of the server has ended: gives what is reported and every
    /// request that waits, each with its failure.
    pub fn output_ended(&mut self) -> (r: (TransportEvent, Vec<(i64, TransportError)>))
        requires
            old(self)@.valid(),
        ensures
            r.0@ == (EventView::Disconnected { message: "app-server stdout closed"@ }),
            r.1@.len() == old(self)@.pending.len(),
            forall|i: int|
                0 <= i < r.1@.len() ==> (#[trigger] r.1@[i]).0 == old(self)@.pending[i] && r.1@[i].1@
                    == FailureView::Process("app-server stdout closed"@),
            final(self)@ == (AppServerView { pending: Seq::empty(), ..old(self)@ }),
            final(self)@.valid(),
    {
        let mut failed: Vec<(i64, TransportError)> = Vec::new();
        let mut i: usize = 0;
        while i < self.pending.len()
            invariant
                i <= self.pending@.len(),
                self@ == old(self)@,
                failed@.len() == i,
                forall|k: int|
                    0 <= k < i ==> (#[trigger] failed@[k]).0 == self.pending@[k] && failed@[k].1@
                        == FailureView::Process("app-server stdout closed"@),
            decreases self.pending.len() - i,
        {
            failed.push(
                (self.pending[i], TransportError::Process("app-server stdout closed".to_owned())),
            );
            i = i + 1;
        }
        self.pending = Vec::new();
        assert(self@.pending =~= Seq::empty());
        let event = TransportEvent::Disconnected { message: "app-server stdout closed".to_owned() };
        (event, failed)
    }

    /// Begins a request under a new identifier and gives it with the message.
    /// Without a connection there is none.
    pub fn begin_request(&mut self, method: &str, params: Json) -> (r: Result<
        (i64, Json),
        TransportError,
    >)
        requires
            old(self)@.valid(),
            old(self)@.next_id < i64::MAX,
        ensures
            old(self)@.connected <==> r is Ok,
            r matches Err(error) ==> error@ == FailureView::NotConnected && final(self)@ == old(
                self,
            )@,
            r matches Ok((id, message)) ==> {
                &&& id == old(self)@.next_id
                &&& !old(self)@.pending.contains(id)
                &&& message@ == request_json(id, method@, params@)
                &&& final(self)@ == (AppServerView {
                    next_id: (old(self)@.next_id + 1) as u64,
                    pending: old(self)@.pending.push(id),
                    ..old(self)@
                })
            },
            final(self)@.valid(),
    {
        if !self.connected {
            return Err(TransportError::NotConnected);
        }
        let id: i64 = self.next_id as i64;
        let ghost before = self@;
        self.next_id = self.next_id + 1;
        self.pending.push(id);
        assert(self@.pending =~= before.pending.push(id));
        assert(self@.pending.no_duplicates());
        Ok((id, request_message(id, method, params)))
    }

    /// A request is over: it was answered, it timed out or it could not be sent.
    /// Tells whether it was still waiting.
    pub fn finish_request(&mut self, id: &RequestId) -> (r: bool)
        requires
            old(self)@.valid(),
        ensures
            r == (id@ matches IdView::Number(number) && old(self)@.pending.contains(number)),
            !r ==> final(self)@ == old(self)@,
            r ==> {
                &&& !final(self)@.pending.contains(id@->Number_0)
                &&& forall|other: i64|
                    other != id@->Number_0 ==> (#[trigger] final(self)@.pending.contains(other)
                        <==> old(self)@.pending.contains(other))
                &&& final(self)@ == (AppServerView {
                    pending: final(self)@.pending,
                    ..old(self)@
                })
            },
            final(self)@.valid(),
    {
        let wanted: i64 = match id {
            RequestId::Number(number) => *number,
            RequestId::Text(_) => {
                return false;
            },
        };
        let ghost before = self@;
        let mut i: usize = 0;
        while i < self.pending.len()
            invariant
                i <= self.pending@.len(),
                self@ == before,
                before == old(self)@,
                before.valid(),
                id@ == IdView::Number(wanted),
                forall|k: int| 0 <= k < i ==> before.pending[k] != wanted,
            decreases self.pending.len() - i,
        {
            if self.pending[i] == wanted {
                let _ = self.pending.remove(i);
                proof {
                    let after = self@.pending;
                    let all = before.pending;
                    assert(after =~= all.remove(i as int));
                    assert(all.contains(wanted));
                    assert forall|a: int, b: int| 0 <= a < after.len() && 0 <= b < after.len() && a
                        != b implies after[a] != after[b] by {
                        let a2 = if a < i { a } else { a + 1 };
                        let b2 = if b < i { b } else { b + 1 };
                        assert(after[a] == all[a2] && after[b] == all[b2]);
                    }
                    assert forall|k: int| 0 <= k < after.len() implies 1 <= #[trigger] after[k]
                        < before.next_id && after[k] != wanted by {
                        let k2 = if k < i { k } else { k + 1 };
                        assert(after[k] == all[k2]);
                    }
                    assert forall|other: i64| other != wanted implies (#[trigger] after.contains(
                        other,
                    ) <==> all.contains(other)) by {
                        if all.contains(other) {
                            let k = choose|k: int| 0 <= k < all.len() && all[k] == other;
                            let k2 = if k < i { k } else { k - 1 };
                            assert(after[k2] == other);
                        }
                        if after.contains(other) {
                            let k = choose|k: int| 0 <= k < after.len() && after[k] == other;
                            let k2 = if k < i { k } else { k + 1 };
                            assert(all[k2] == other);
                        }
                    }
                }
                return true;
            }
            i = i + 1;
        }
        false
    }

    /// Takes the message that is kept for a turn.
    fn take_message(&mut self, thread_id: &str, turn_id: &str) -> (r: Option<String>)
        ensures
            opt(r) == (match kept_message(old(self)@.messages, thread_id@, turn_id@) {
                Some(message) => Some(message.text),
                None => None,
            }),
            final(self)@ == (AppServerView {
                messages: without_message(old(self)@.messages, thread_id@, turn_id@),
                ..old(self)@
            }),
    {
        let ghost all = self@.messages;
        let mut found: Option<String> = None;
        let mut kept: Vec<CompletedAgentMessage> = Vec::new();
        let mut i: usize = 0;
        assert(all.skip(0) =~= all);
        assert(views(kept@) + without_message(all, thread_id@, turn_id@) =~= without_message(
            all,
            thread_id@,
            turn_id@,
        ));
        while i < self.messages.len()
            invariant
                i <= self.messages@.len(),
                self@ == old(self)@,
                all == views(self.messages@),
                views(kept@) + without_message(
                    all.skip(i as int),
                    thread_id@,
                    turn_id@,
                ) == without_message(all, thread_id@, turn_id@),
                opt(found) == (if found is Some {
                    Some(kept_message(all, thread_id@, turn_id@)->0.text)
                } else {
                    None
                }),
                found is Some ==> kept_message(all, thread_id@, turn_id@) is Some,
                found is None ==> kept_message(all, thread_id@, turn_id@) == kept_message(
                    all.skip(i as int),
                    thread_id@,
                    turn_id@,
                ),
            decreases self.messages.len() - i,
        {
            let ghost tail = all.skip(i as int);
            let ghost before = views(kept@);
            assert(tail.skip(1) =~= all.skip(i + 1));
            assert(tail[0] == self.messages@[i as int]@);
            let message = &self.messages[i];
            if same(message.thread_id.as_str(), thread_id) && same(
                message.turn_id.as_str(),
                turn_id,
            ) {
                if found.is_none() {
                    found = Some(message.text.clone());
                }
            } else {
                let copy = CompletedAgentMessage {
                    thread_id: message.thread_id.clone(),
                    turn_id: message.turn_id.clone(),
                    text: message.text.clone(),
                    explicit_final: message.explicit_final,
                };
                let ghost copied = copy@;
                kept.push(copy);
                assert(views(kept@) =~= before.push(copied));
                assert(before.push(copied) + without_message(all.skip(i + 1), thread_id@, turn_id@)
                    =~= before + (seq![copied] + without_message(
                    all.skip(i + 1),
                    thread_id@,
                    turn_id@,
                )));
            }
            i = i + 1;
        }
        assert(views(kept@) + Seq::<MessageView>::empty() =~= views(kept@));
        self.messages = kept;
        found
    }

    /// Keeps a message until the end of its turn.
    fn keep_message(&mut self, message: CompletedAgentMessage)
        ensures
            final(self)@ == (AppServerView {
                messages: with_message(old(self)@.messages, message@),
                ..old(self)@
            }),
    {
        let ghost all = self@.messages;
        let ghost wanted = message@;
        let mut current: Option<bool> = None;
        let mut i: usize = 0;
        assert(all.skip(0) =~= all);
        while i < self.messages.len() && current.is_none()
            invariant
                i <= self.messages@.len(),
                self@ == old(self)@,
                all == views(self.messages@),
                wanted == message@,
                match current {
                    Some(explicit) => kept_message(
                        all,
                        wanted.thread_id,
                        wanted.turn_id,
                    ) matches Some(kept) && kept.explicit_final == explicit,
                    None => kept_message(all, wanted.thread_id, wanted.turn_id) == kept_message(
                        all.skip(i as int),
                        wanted.thread_id,
                        wanted.turn_id,
                    ),
                },
            decreases self.messages.len() - i,
        {
            let ghost tail = all.skip(i as int);
            assert(tail.skip(1) =~= all.skip(i + 1));
            assert(tail[0] == self.messages@[i as int]@);
            let kept = &self.messages[i];
            if same(kept.thread_id.as_str(), message.thread_id.as_str()) && same(
                kept.turn_id.as_str(),
                message.turn_id.as_str(),
            ) {
                current = Some(kept.explicit_final);
            }
            i = i + 1;
        }
        let replace = match current {
            None => true,
            Some(explicit) => message.explicit_final || !explicit,
        };
        if replace {
            let thread_id = message.thread_id.clone();
            let turn_id = message.turn_id.clone();
            let _ = self.take_message(thread_id.as_str(), turn_id.as_str());
            let ghost before = self@.messages;
            self.messages.push(message);
            assert(self@.messages =~= before.push(wanted));
        }
    }

    /// Acts on a message of the server and says what it means.
    pub fn dispatch_message(&mut self, message: &Json) -> (r: Result<Dispatch, TransportError>)
        requires
            old(self)@.valid(),
        ensures
            match meaning(message@, old(self)@.messages) {
                Ok(dispatch) => r is Ok && r->Ok_0@ == dispatch,
                Err(text) => r is Err && r->Err_0@ == FailureView::Protocol(text),
            },
            r matches Ok(Dispatch::Rejected { diagnostic, response }) ==> field(response@, "id"@)
                == field(message@, "id"@),
            final(self)@ == (AppServerView {
                messages: messages_after(message@, old(self)@.messages),
                ..old(self)@
            }),
            final(self)@.valid(),
    {
        if let Some(id) = message.get("id") {
            return identified_message(message, id);
        }
        let method = match message.get_text("method") {
            Some(method) => method,
            None => String::new(),
        };
        assert(method@ =~= method_or(message@, Seq::empty()));
        let params = match message.get("params") {
            Some(params) => params.copy(),
            None => Json::Null,
        };
        if same(method.as_str(), "item/completed") {
            if let Some(completed) = parse_completed_agent_message(&params) {
                self.keep_message(completed);
            }
            return Ok(Dispatch::Nothing);
        }
        match parse_event(method.as_str(), &params) {
            None => Ok(Dispatch::Nothing),
            Some(TransportEvent::TurnCompleted { thread_id, turn }) => {
                let mut turn = turn;
                let cached = self.take_message(thread_id.as_str(), turn.id.as_str());
                if is_blank(turn.final_message.as_str()) {
                    if let Some(text) = cached {
                        turn.final_message = text;
                    }
                }
                Ok(
                    Dispatch::Event {
                        event: TransportEvent::TurnCompleted { thread_id, turn },
                        lossy: false,
                    },
                )
            },
            Some(event) => {
                let lossy = match &event {
                    TransportEvent::AgentMessageDelta { .. } => true,
                    _ => false,
                };
                Ok(Dispatch::Event { event, lossy })
            },
        }
    }

    /// Acts on a line that was read from the server.  A line that holds no
    /// message is reported; a malformed message is ignored.
    pub fn handle_line(&mut self, line: &str) -> (r: Dispatch)
        requires
            old(self)@.valid(),
        ensures
            ({
                let content = parsed(vstd::utf8::encode_utf8(line@));
                if blank(line@) {
                    r@ is Nothing && final(self)@ == old(self)@
                } else {
                    match content {
                        None => {
                            &&& r@ == (DispatchView::Event {
                                event: EventView::Diagnostic {
                                    message: "无法解析 app-server 消息："@ + refusal(
                                        vstd::utf8::encode_utf8(line@),
                                    ),
                                },
                                lossy: false,
                            })
                            &&& final(self)@ == old(self)@
                        },
                        Some(message) => {
                            &&& r@ == (match meaning(message, old(self)@.messages) {
                                Ok(dispatch) => dispatch,
                                Err(_) => DispatchView::Nothing,
                            })
                            &&& final(self)@ == (AppServerView {
                                messages: messages_after(message, old(self)@.messages),
                                ..old(self)@
                            })
                        },
                    }
                }
            }),
            final(self)@.valid(),
    {
        if is_blank(line) {
            return Dispatch::Nothing;
        }
        match parse(line.as_bytes()) {
            Ok(message) => match self.dispatch_message(&message) {
                Ok(dispatch) => dispatch,
                Err(_) => Dispatch::Nothing,
            },
            Err(error) => Dispatch::Event {
                event: TransportEvent::Diagnostic {
                    message: cat(
                        "无法解析 app-server 消息：",
                        error_text(&error).as_str(),
                    ),
                },
                lossy: false,
            },
        }
    }
}

fn identified_message(message: &Json, id: &Json) -> (r: Result<Dispatch, TransportError>)
    requires
        field(message@, "id"@) == Some(id@),
    ensures
        match identified_meaning(message@) {
            Ok(dispatch) => r is Ok && r->Ok_0@ == dispatch,
            Err(text) => r is Err && r->Err_0@ == FailureView::Protocol(text),
        },
        r matches Ok(Dispatch::Rejected { diagnostic, response }) ==> field(response@, "id"@)
            == Some(id@),
{
    let id = match RequestId::from_value(id) {
        Some(id) => id,
        None => {
            return Err(
                TransportError::Protocol("JSON-RPC id must be a string or integer".to_owned()),
            );
        },
    };
    if message.get("method").is_some() {
        let method = match message.get_text("method") {
            Some(method) => method,
            None => "unknown".to_owned(),
        };
        let diagnostic = cat3(
            "Codex 请求了交互式操作（",
            method.as_str(),
            "），已自动拒绝；请改用无需审批的运行策略后重试",
        );
        let response = rejection(&id);
        return Ok(Dispatch::Rejected { diagnostic, response });
    }
    match message.get("error") {
        Some(error) => match parse_rpc_error(error) {
            Ok(failure) => Ok(Dispatch::Response { id, answer: Err(failure) }),
            Err(error) => Err(error),
        },
        None => {
            let result = match message.get("result") {
                Some(result) => result.copy(),
                None => Json::Null,
            };
            Ok(Dispatch::Response { id, answer: Ok(result) })
        },
    }
}

/// The failure to start the process.
pub fn spawn_failure(not_found: bool, codex_path: &str, text: &str) -> (r: TransportError)
    ensures
        r@ == (if not_found {
            FailureView::ExecutableNotFound(codex_path@)
        } else {
            FailureView::Process(text@)
        }),
{
    if not_found {
        TransportError::ExecutableNotFound(codex_path.to_owned())
    } else {
        TransportError::Process(text.to_owned())
    }
}

/// The event that reports the end of the process: a failure status is named.
pub fn exit_event(failure_status: Option<String>) -> (r: TransportEvent)
    ensures
        r@ == (EventView::Disconnected {
            message: match failure_status {
                Some(status) => "app-server exited with "@ + status@,
                None => "app-server exited"@,
            },
        }),
{
    match failure_status {
        Some(status) => TransportEvent::Disconnected {
            message: cat("app-server exited with ", status.as_str()),
        },
        None => TransportEvent::Disconnected { message: "app-server exited".to_owned() },
    }
}

/// A request of the server, whatever it asks for, is answered with an error
/// under its own identifier and never granted.
pub proof fn server_requests_are_always_rejected(
    message: JsonView,
    id: IdView,
    messages: Seq<MessageView>,
)
    requires
        field(message, "id"@) matches Some(json) && id_of(json) == Some(id),
        field(message, "method"@) is Some,
    ensures
        meaning(message, messages) matches Ok(DispatchView::Rejected { diagnostic, response })
            && response == rejection_json(id),
        messages_after(message, messages) == messages,
{
}

/// A turn that is reported without a reply takes the message that was completed
/// in it, and that message is then forgotten.
pub proof fn a_completed_message_supplies_the_reply(
    thread_id: Seq<char>,
    turn: TurnView,
    messages: Seq<MessageView>,
    message: MessageView,
)
    requires
        blank(turn.final_message),
        kept_message(messages, thread_id, turn.id) == Some(message),
    ensures
        with_kept_reply(EventView::TurnCompleted { thread_id, turn }, messages) == (
        EventView::TurnCompleted {
            thread_id,
            turn: TurnView { final_message: message.text, ..turn },
        }),
        kept_message(without_message(messages, thread_id, turn.id), thread_id, turn.id) is None,
{
    forgotten(messages, thread_id, turn.id);
}

proof fn forgotten(messages: Seq<MessageView>, thread_id: Seq<char>, turn_id: Seq<char>)
    ensures
        kept_message(without_message(messages, thread_id, turn_id), thread_id, turn_id) is None,
    decreases messages.len(),
{
    if messages.len() > 0 {
        forgotten(messages.skip(1), thread_id, turn_id);
        let rest = without_message(messages.skip(1), thread_id, turn_id);
        if !(messages[0].thread_id == thread_id && messages[0].turn_id == turn_id) {
            assert((seq![messages[0]] + rest).skip(1) =~= rest);
        }
    }
}

/// The final answer of a turn is not replaced by a message that is not marked
/// as one, and a later final answer replaces an earlier one.
pub proof fn the_final_answer_wins(messages: Seq<MessageView>, message: MessageView)
    ensures
        kept_message(messages, message.thread_id, message.turn_id) matches Some(kept)
            && kept.explicit_final && !message.explicit_final ==> with_message(messages, message)
            == messages,
        message.explicit_final ==> kept_message(
            with_message(messages, message),
            message.thread_id,
            message.turn_id,
        ) == Some(message),
{
    forgotten(messages, message.thread_id, message.turn_id);
    kept_after_push(
        without_message(messages, message.thread_id, message.turn_id),
        message,
    );
}

proof fn kept_after_push(messages: Seq<MessageView>, message: MessageView)
    requires
        kept_message(messages, message.thread_id, message.turn_id) is None,
    ensures
        kept_message(messages.push(message), message.thread_id, message.turn_id) == Some(message),
    decreases messages.len(),
{
    if messages.len() > 0 {
        assert(messages.push(message).skip(1) =~= messages.skip(1).push(message));
        kept_after_push(messages.skip(1), message);
    }
}

} // verus!
