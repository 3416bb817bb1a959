//! What is promised of the messages that go to the app-server and come from it.

use vstd::prelude::*;

use crate::app_server::{
    completed_message_of, error_of, event_of, final_text, id_json, id_of, initialize_json,
    initialized_json, interrupt_json, item_text, kept_message, last_answer, last_statement, meaning,
    messages_after, rejection_json, request_json, resume_thread_json, rpc_error_of, session_of,
    start_thread_json, start_turn_json, started_turn_of, turn_of, with_message, without_message,
    DispatchView, IdView, MessageView,
};
use crate::classifier::ErrorView;
use crate::json::{compact, field, i64_number, i64_of, member, text_field, JsonView};
use crate::text::blank;
use crate::transport::{EventView, FailureView, SessionView, TurnStatus, TurnView};

verus! {

/// Whether an item is a message of the agent.
pub open spec fn said_by_agent(item: JsonView) -> bool {
    field(item, "type"@) == Some(JsonView::Text("agentMessage"@))
}

/// Whether an item is marked with a phase.
pub open spec fn marked(item: JsonView, phase: Seq<char>) -> bool {
    field(item, "phase"@) == Some(JsonView::Text(phase))
}

/// Whether a text is what an item says; an item without a text says nothing.
pub open spec fn says(item: JsonView, text: Seq<char>) -> bool {
    match field(item, "text"@) {
        Some(JsonView::Text(said)) => text == said,
        _ => text.len() == 0,
    }
}

proof fn last_answer_is_last(items: Seq<JsonView>)
    ensures
        match last_answer(items) {
            Some(text) => exists|i: int|
                0 <= i < items.len() && said_by_agent(#[trigger] items[i]) && marked(
                    items[i],
                    "final_answer"@,
                ) && says(items[i], text) && forall|j: int|
                    i < j < items.len() && said_by_agent(#[trigger] items[j]) ==> !marked(
                        items[j],
                        "final_answer"@,
                    ),
            None => forall|j: int|
                0 <= j < items.len() && said_by_agent(#[trigger] items[j]) ==> !marked(
                    items[j],
                    "final_answer"@,
                ),
        },
    decreases items.len(),
{
    if items.len() > 0 {
        let last = items.len() - 1;
        let front = items.drop_last();
        last_answer_is_last(front);
        assert(items[last] == items.last());
        assert(forall|j: int| 0 <= j < last ==> #[trigger] items[j] == front[j]);
        if said_by_agent(items[last]) && marked(items[last], "final_answer"@) {
            assert(says(items[last], item_text(items[last])));
        } else if last_answer(front) is Some {
            let text = last_answer(front)->0;
            let i = choose|i: int|
                0 <= i < front.len() && said_by_agent(#[trigger] front[i]) && marked(
                    front[i],
                    "final_answer"@,
                ) && says(front[i], text) && forall|j: int|
                    i < j < front.len() && said_by_agent(#[trigger] front[j]) ==> !marked(
                        front[j],
                        "final_answer"@,
                    );
            assert(items[i] == front[i]);
        }
    }
}

proof fn last_statement_is_last(items: Seq<JsonView>)
    ensures
        match last_statement(items) {
            Some(text) => exists|i: int|
                0 <= i < items.len() && said_by_agent(#[trigger] items[i]) && !marked(
                    items[i],
                    "commentary"@,
                ) && says(items[i], text) && forall|j: int|
                    i < j < items.len() && said_by_agent(#[trigger] items[j]) ==> marked(
                        items[j],
                        "commentary"@,
                    ),
            None => forall|j: int|
                0 <= j < items.len() && said_by_agent(#[trigger] items[j]) ==> marked(
                    items[j],
                    "commentary"@,
                ),
        },
    decreases items.len(),
{
    if items.len() > 0 {
        let last = items.len() - 1;
        let front = items.drop_last();
        last_statement_is_last(front);
        assert(items[last] == items.last());
        assert(forall|j: int| 0 <= j < last ==> #[trigger] items[j] == front[j]);
        if said_by_agent(items[last]) && !marked(items[last], "commentary"@) {
            assert(says(items[last], item_text(items[last])));
        } else if last_statement(front) is Some {
            let text = last_statement(front)->0;
            let i = choose|i: int|
                0 <= i < front.len() && said_by_agent(#[trigger] front[i]) && !marked(
                    front[i],
                    "commentary"@,
                ) && says(front[i], text) && forall|j: int|
                    i < j < front.len() && said_by_agent(#[trigger] front[j]) ==> marked(
                        front[j],
                        "commentary"@,
                    );
            assert(items[i] == front[i]);
        }
    }
}

/// Where the agent marked messages as its final answer, the last of them is the
/// reply of the turn.
pub proof fn the_last_final_answer_is_the_reply(items: Seq<JsonView>)
    requires
        exists|i: int|
            0 <= i < items.len() && said_by_agent(#[trigger] items[i]) && marked(
                items[i],
                "final_answer"@,
            ),
    ensures
        exists|i: int|
            0 <= i < items.len() && said_by_agent(#[trigger] items[i]) && marked(
                items[i],
                "final_answer"@,
            ) && says(items[i], final_text(Some(JsonView::Array(items)))) && forall|j: int|
                i < j < items.len() && said_by_agent(#[trigger] items[j]) ==> !marked(
                    items[j],
                    "final_answer"@,
                ),
{
    last_answer_is_last(items);
}

/// Where no message of the agent is marked as its final answer, the last one
/// that is no commentary is the reply of the turn.
pub proof fn the_last_statement_is_the_reply(items: Seq<JsonView>)
    requires
        forall|j: int|
            0 <= j < items.len() && said_by_agent(#[trigger] items[j]) ==> !marked(
                items[j],
                "final_answer"@,
            ),
        exists|i: int|
            0 <= i < items.len() && said_by_agent(#[trigger] items[i]) && !marked(
                items[i],
                "commentary"@,
            ),
    ensures
        exists|i: int|
            0 <= i < items.len() && said_by_agent(#[trigger] items[i]) && !marked(
                items[i],
                "commentary"@,
            ) && says(items[i], final_text(Some(JsonView::Array(items)))) && forall|j: int|
                i < j < items.len() && said_by_agent(#[trigger] items[j]) ==> marked(
                    items[j],
                    "commentary"@,
                ),
{
    last_answer_is_last(items);
    last_statement_is_last(items);
}

/// A turn in which the agent said nothing but commentary has no reply, and
/// neither has one without a list of items.
pub proof fn commentary_is_no_reply(items: Seq<JsonView>, other: Option<JsonView>)
    requires
        forall|j: int|
            0 <= j < items.len() && said_by_agent(#[trigger] items[j]) ==> marked(
                items[j],
                "commentary"@,
            ),
        !(other matches Some(JsonView::Array(_))),
    ensures
        final_text(Some(JsonView::Array(items))) == Seq::<char>::empty(),
        final_text(other) == Seq::<char>::empty(),
{
    last_answer_is_last(items);
    last_statement_is_last(items);
    reveal_strlit("commentary");
    reveal_strlit("final_answer");
    assert("commentary"@.len() == 10 && "final_answer"@.len() == 12);
}

/// A turn is read from its identifier and its status; each of the five words
/// for a status is known, and its reply and error come from its own members.
pub proof fn turns_are_read_from_their_members(json: JsonView, id: Seq<char>, status: Seq<char>)
    requires
        field(json, "id"@) == Some(JsonView::Text(id)),
        field(json, "status"@) == Some(JsonView::Text(status)),
    ensures
        status == "completed"@ || status == "interrupted"@ || status == "failed"@ || status
            == "inProgress"@ || status == "in_progress"@ ==> turn_of(json) is Ok && ({
            let turn = turn_of(json)->Ok_0;
            &&& turn.id == id
            &&& turn.final_message == final_text(field(json, "items"@))
            &&& status == "completed"@ ==> turn.status == TurnStatus::Completed
            &&& status == "interrupted"@ ==> turn.status == TurnStatus::Interrupted
            &&& status == "failed"@ ==> turn.status == TurnStatus::Failed
            &&& status == "inProgress"@ ==> turn.status == TurnStatus::InProgress
            &&& status == "in_progress"@ ==> turn.status == TurnStatus::InProgress
            &&& field(json, "error"@) is None ==> turn.error is None
            &&& field(json, "error"@) == Some(JsonView::Null) ==> turn.error is None
            &&& field(json, "error"@) matches Some(error) ==> (error !is Null ==> turn.error
                == error_of(error))
        }),
        status != "completed"@ && status != "interrupted"@ && status != "failed"@ && status
            != "inProgress"@ && status != "in_progress"@ ==> turn_of(json) is Err,
{
    reveal_strlit("completed");
    reveal_strlit("interrupted");
    reveal_strlit("failed");
    reveal_strlit("inProgress");
    reveal_strlit("in_progress");
    assert("completed"@.len() == 9 && "interrupted"@.len() == 11 && "failed"@.len() == 6
        && "inProgress"@.len() == 10 && "in_progress"@.len() == 11);
    assert("interrupted"@[2] == 't' && "in_progress"@[2] == '_');
}

/// What has no identifier or no status is no turn.
pub proof fn turns_have_an_identifier_and_a_status(json: JsonView)
    requires
        !(field(json, "id"@) matches Some(JsonView::Text(_))) || !(field(json, "status"@) matches Some(
            JsonView::Text(_),
        )),
    ensures
        turn_of(json) is Err,
{
}

/// An error is read from its message, which it must have; details that are
/// absent or null are none, and so is information.
pub proof fn errors_are_read_from_their_members(
    members: Seq<(Seq<char>, JsonView)>,
    message: Seq<char>,
)
    ensures
        ({
            let json = JsonView::Object(members);
            let details = field(json, "additionalDetails"@);
            let info = field(json, "codexErrorInfo"@);
            let read = error_of(json);
            &&& !(field(json, "message"@) matches Some(JsonView::Text(_))) ==> read is None
            &&& field(json, "message"@) == Some(JsonView::Text(message)) ==> {
                &&& details is None || details == Some(JsonView::Null) ==> read is Some
                    && read->0.message == message && read->0.additional_details is None
                &&& details matches Some(JsonView::Text(text)) ==> read is Some && read->0.message
                    == message && read->0.additional_details == Some(text)
                &&& (details matches Some(JsonView::Bool(_)) || details matches Some(
                    JsonView::Number(_),
                ) || details matches Some(JsonView::Array(_)) || details matches Some(
                    JsonView::Object(_),
                )) ==> read is None
                &&& read is Some && (info is None || info == Some(JsonView::Null))
                    ==> read->0.codex_error_info is None
                &&& read is Some && info is Some && info->0 !is Null ==> read->0.codex_error_info
                    == info
            }
        }),
{
}

/// An error that is written as a list gives its message, its details and its
/// information in this order, and no more.
pub proof fn errors_are_read_from_lists(
    message: Seq<char>,
    details: Seq<char>,
    info: JsonView,
    more: Seq<JsonView>,
)
    requires
        info !is Null,
        more.len() > 3,
    ensures
        error_of(
            JsonView::Array(
                seq![JsonView::Text(message), JsonView::Text(details), info],
            ),
        ) == Some(
            ErrorView {
                message,
                additional_details: Some(details),
                codex_error_info: Some(info),
            },
        ),
        error_of(JsonView::Array(seq![JsonView::Text(message)])) == Some(
            ErrorView { message, additional_details: None, codex_error_info: None },
        ),
        error_of(JsonView::Array(more)) is None,
        error_of(JsonView::Array(Seq::empty())) is None,
{
}

/// The session of a thread has its identifier, and its latest turn is the last
/// one listed, where that one can be read.
pub proof fn the_latest_turn_is_the_last_one(
    json: JsonView,
    thread: JsonView,
    id: Seq<char>,
    turns: Seq<JsonView>,
)
    requires
        field(json, "thread"@) == Some(thread),
        field(thread, "id"@) == Some(JsonView::Text(id)),
        field(thread, "turns"@) == Some(JsonView::Array(turns)),
    ensures
        session_of(json) is Ok,
        session_of(json)->Ok_0.id == id,
        turns.len() == 0 ==> session_of(json)->Ok_0.latest_turn is None,
        turns.len() > 0 && turn_of(turns[turns.len() - 1]) is Ok
            ==> session_of(json)->Ok_0.latest_turn == Some(turn_of(turns[turns.len() - 1])->Ok_0),
        turns.len() > 0 && turn_of(turns[turns.len() - 1]) is Err
            ==> session_of(json)->Ok_0.latest_turn is None,
{
}

/// A response without a thread or without its identifier gives no session; a
/// thread without a list of turns has no latest turn.
pub proof fn sessions_have_a_thread(json: JsonView, thread: JsonView, id: Seq<char>)
    ensures
        field(json, "thread"@) is None ==> session_of(json) is Err,
        field(json, "thread"@) == Some(thread) && !(field(thread, "id"@) matches Some(
            JsonView::Text(_),
        )) ==> session_of(json) is Err,
        field(json, "thread"@) == Some(thread) && field(thread, "id"@) == Some(JsonView::Text(id))
            && !(field(thread, "turns"@) matches Some(JsonView::Array(_))) ==> session_of(json)
            is Ok && session_of(json)->Ok_0.id == id && session_of(json)->Ok_0.latest_turn is None,
{
}

/// The answer to a new turn names it.
pub proof fn a_new_turn_is_named(json: JsonView, turn: JsonView, id: Seq<char>)
    ensures
        field(json, "turn"@) == Some(turn) && field(turn, "id"@) == Some(JsonView::Text(id))
            ==> started_turn_of(json) == Some(id),
        field(json, "turn"@) is None ==> started_turn_of(json) is None,
        field(json, "turn"@) == Some(turn) && !(field(turn, "id"@) matches Some(JsonView::Text(_)))
            ==> started_turn_of(json) is None,
{
}

/// A refused request is reported with the code, the message and the data of the
/// error; information stands in where there are no data.
pub proof fn refusals_keep_code_message_and_data(
    json: JsonView,
    code: i64,
    message: Seq<char>,
    number: JsonView,
)
    requires
        field(json, "code"@) == Some(number),
        i64_of(number) == Some(code),
        field(json, "message"@) == Some(JsonView::Text(message)),
    ensures
        rpc_error_of(json) matches Ok(FailureView::Rpc { code: stated, message: told, data })
            && stated == code && told == message && (field(json, "data"@) is Some ==> data == field(
            json,
            "data"@,
        )) && (field(json, "data"@) is None ==> data == field(json, "codexErrorInfo"@)),
{
}

/// An error without an integer code or without a message is malformed.
pub proof fn refusals_have_a_code_and_a_message(json: JsonView)
    requires
        field(json, "code"@) is None || i64_of(field(json, "code"@)->0) is None || !(field(
            json,
            "message"@,
        ) matches Some(JsonView::Text(_))),
    ensures
        rpc_error_of(json) is Err,
{
}

/// What happens in a thread is read from its notifications: pieces of a reply,
/// the start of a turn, its errors and its end, each for the thread and the
/// turn that the notification names.
pub proof fn notifications_report_what_happens(
    params: JsonView,
    thread_id: Seq<char>,
    turn_id: Seq<char>,
)
    requires
        field(params, "threadId"@) == Some(JsonView::Text(thread_id)),
        field(params, "turnId"@) == Some(JsonView::Text(turn_id)),
    ensures
        field(params, "delta"@) matches Some(JsonView::Text(delta)) ==> event_of(
            "item/agentMessage/delta"@,
            params,
        ) == Some(EventView::AgentMessageDelta { thread_id, turn_id, delta }),
        field(params, "turn"@) is None ==> event_of("turn/started"@, params) == Some(
            EventView::TurnStarted { thread_id, turn_id },
        ),
        field(params, "error"@) matches Some(error) ==> (error_of(error) is Some ==> event_of(
            "error"@,
            params,
        ) == Some(
            EventView::Error {
                thread_id,
                turn_id,
                error: error_of(error)->0,
                will_retry: field(params, "willRetry"@) == Some(JsonView::Bool(true)),
            },
        )),
{
    method_names();
}

proof fn method_names()
    ensures
        "item/agentMessage/delta"@ != "turn/started"@,
        "item/agentMessage/delta"@ != "error"@,
        "item/agentMessage/delta"@ != "turn/completed"@,
        "item/agentMessage/delta"@ != "item/completed"@,
        "turn/started"@ != "error"@,
        "turn/started"@ != "turn/completed"@,
        "turn/started"@ != "item/completed"@,
        "error"@ != "turn/completed"@,
        "error"@ != "item/completed"@,
        "turn/completed"@ != "item/completed"@,
{
    reveal_strlit("item/agentMessage/delta");
    reveal_strlit("turn/started");
    reveal_strlit("error");
    reveal_strlit("turn/completed");
    reveal_strlit("item/completed");
    assert("item/agentMessage/delta"@.len() == 23 && "turn/started"@.len() == 12 && "error"@.len()
        == 5 && "turn/completed"@.len() == 14 && "item/completed"@.len() == 14);
    assert("turn/completed"@[0] == 't' && "item/completed"@[0] == 'i');
}

/// The start of a turn is reported under the identifier of the turn itself,
/// and its end with the turn as it is read.
pub proof fn turns_are_reported_by_themselves(
    params: JsonView,
    thread_id: Seq<char>,
    turn: JsonView,
    id: Seq<char>,
)
    requires
        field(params, "threadId"@) == Some(JsonView::Text(thread_id)),
        field(params, "turn"@) == Some(turn),
    ensures
        field(turn, "id"@) == Some(JsonView::Text(id)) ==> event_of("turn/started"@, params)
            == Some(EventView::TurnStarted { thread_id, turn_id: id }),
        turn_of(turn) is Ok ==> event_of("turn/completed"@, params) == Some(
            EventView::TurnCompleted { thread_id, turn: turn_of(turn)->Ok_0 },
        ),
        turn_of(turn) is Err ==> event_of("turn/completed"@, params) is None,
{
    method_names();
}

/// A notification of another method, or without a thread, reports nothing.
pub proof fn other_notifications_report_nothing(method: Seq<char>, params: JsonView)
    ensures
        method != "item/agentMessage/delta"@ && method != "turn/started"@ && method != "error"@
            && method != "turn/completed"@ ==> event_of(method, params) is None,
        !(field(params, "threadId"@) matches Some(JsonView::Text(_))) ==> event_of(method, params)
            is None,
{
}

/// A completed item counts as a message where the agent said it, it has a text
/// and it is no commentary; it is kept for the thread and the turn it names.
pub proof fn completed_items_are_messages(
    params: JsonView,
    item: JsonView,
    thread_id: Seq<char>,
    turn_id: Seq<char>,
    text: Seq<char>,
)
    requires
        field(params, "item"@) == Some(item),
        field(params, "threadId"@) == Some(JsonView::Text(thread_id)),
        field(params, "turnId"@) == Some(JsonView::Text(turn_id)),
        field(item, "text"@) == Some(JsonView::Text(text)),
    ensures
        said_by_agent(item) && !marked(item, "commentary"@) ==> completed_message_of(params)
            == Some(
            MessageView {
                thread_id,
                turn_id,
                text,
                explicit_final: marked(item, "final_answer"@),
            },
        ),
        !said_by_agent(item) || marked(item, "commentary"@) ==> completed_message_of(params)
            is None,
{
}

/// A request of the server is refused under its own identifier with the code
/// -32601; the answer holds no result.
pub proof fn refusals_of_server_requests(
    message: JsonView,
    id: IdView,
    method: Seq<char>,
    messages: Seq<MessageView>,
)
    requires
        field(message, "id"@) matches Some(json) && id_of(json) == Some(id),
        field(message, "method"@) == Some(JsonView::Text(method)),
    ensures
        meaning(message, messages) matches Ok(DispatchView::Rejected { diagnostic, response }) && {
            &&& diagnostic == "Codex 请求了交互式操作（"@ + method
                + "），已自动拒绝；请改用无需审批的运行策略后重试"@
            &&& field(response, "id"@) == Some(id_json(id))
            &&& field(response, "result"@) is None
            &&& field(response, "error"@) is Some
            &&& field(field(response, "error"@)->0, "code"@) == Some(
                JsonView::Number(i64_number((-32601) as i64)),
            )
        },
{
    let response = rejection_json(id);
    reveal_strlit("error");
    reveal_strlit("id");
    reveal_strlit("result");
    reveal_strlit("code");
    assert("error"@.len() == 5 && "id"@.len() == 2 && "result"@.len() == 6 && "code"@.len() == 4);
    let members = response->Object_0;
    assert(members.skip(1)[0] == members[1]);
    assert(members.skip(1).skip(1) =~= Seq::empty());
    reveal_with_fuel(member, 3);
}

/// A response carries the identifier of its request, and either the result or
/// the error of the server; without either the result is null.
pub proof fn responses_answer_their_request(
    message: JsonView,
    id: IdView,
    messages: Seq<MessageView>,
)
    requires
        field(message, "id"@) matches Some(json) && id_of(json) == Some(id),
        field(message, "method"@) is None,
    ensures
        messages_after(message, messages) == messages,
        field(message, "error"@) is None && field(message, "result"@) is Some ==> meaning(
            message,
            messages,
        ) == Ok::<DispatchView, Seq<char>>(
            DispatchView::Response { id, answer: Ok(field(message, "result"@)->0) },
        ),
        field(message, "error"@) is None && field(message, "result"@) is None ==> meaning(
            message,
            messages,
        ) == Ok::<DispatchView, Seq<char>>(
            DispatchView::Response { id, answer: Ok(JsonView::Null) },
        ),
        field(message, "error"@) matches Some(error) ==> (rpc_error_of(error) is Ok ==> meaning(
            message,
            messages,
        ) == Ok::<DispatchView, Seq<char>>(
            DispatchView::Response { id, answer: Err(rpc_error_of(error)->Ok_0) },
        )),
        field(message, "error"@) matches Some(error) ==> (rpc_error_of(error) is Err ==> meaning(
            message,
            messages,
        ) is Err),
{
}

/// Only a text or an integer identifies a request.
pub proof fn identifiers_are_texts_or_integers(json: JsonView, text: Seq<char>)
    ensures
        id_of(JsonView::Text(text)) == Some(IdView::Text(text)),
        json is Null || json is Bool || json is Array || json is Object ==> id_of(json) is None,
        json is Number ==> (id_of(json) is Some <==> i64_of(json) is Some),
        json is Number && id_of(json) is Some ==> id_of(json) == Some(
            IdView::Number(i64_of(json)->0),
        ),
        id_json(IdView::Text(text)) == JsonView::Text(text),
{
}

/// Pieces of a reply may be dropped where there are too many; nothing else may.
/// A finished turn keeps its own reply where it has one, and takes the kept one
/// where it has none.
pub proof fn events_are_passed_on(
    message: JsonView,
    method: Seq<char>,
    params: JsonView,
    event: EventView,
    messages: Seq<MessageView>,
)
    requires
        field(message, "id"@) is None,
        field(message, "method"@) == Some(JsonView::Text(method)),
        field(message, "params"@) == Some(params),
        method != "item/completed"@,
        event_of(method, params) == Some(event),
    ensures
        meaning(message, messages) matches Ok(DispatchView::Event { event: passed, lossy }) && {
            &&& lossy <==> event is AgentMessageDelta
            &&& event !is TurnCompleted ==> passed == event
            &&& event matches EventView::TurnCompleted { thread_id, turn } ==> {
                &&& !blank(turn.final_message) ==> passed == event
                &&& kept_message(messages, thread_id, turn.id) is None ==> passed == event
                &&& passed is TurnCompleted && passed->TurnCompleted_thread_id == thread_id
                &&& passed->TurnCompleted_turn.id == turn.id
                &&& passed->TurnCompleted_turn.status == turn.status
                &&& passed->TurnCompleted_turn.error == turn.error
                &&& blank(turn.final_message) && kept_message(messages, thread_id, turn.id) is Some
                    ==> passed->TurnCompleted_turn.final_message == kept_message(
                    messages,
                    thread_id,
                    turn.id,
                )->0.text
            }
        },
        event !is TurnCompleted ==> messages_after(message, messages) == messages,
{
}

/// The message that is kept for a turn is one of that turn, and it is found
/// wherever there is one.
pub proof fn kept_messages_are_found(
    messages: Seq<MessageView>,
    thread_id: Seq<char>,
    turn_id: Seq<char>,
)
    ensures
        kept_message(messages, thread_id, turn_id) matches Some(kept) ==> messages.contains(kept)
            && kept.thread_id == thread_id && kept.turn_id == turn_id,
        kept_message(messages, thread_id, turn_id) is None ==> forall|i: int|
            0 <= i < messages.len() ==> (#[trigger] messages[i]).thread_id != thread_id
                || messages[i].turn_id != turn_id,
    decreases messages.len(),
{
    if messages.len() > 0 {
        let rest = messages.skip(1);
        kept_messages_are_found(rest, thread_id, turn_id);
        assert(forall|i: int| 0 < i < messages.len() ==> #[trigger] messages[i] == rest[i - 1]);
        if !(messages[0].thread_id == thread_id && messages[0].turn_id == turn_id) {
            if let Some(kept) = kept_message(rest, thread_id, turn_id) {
                let i = choose|i: int| 0 <= i < rest.len() && rest[i] == kept;
                assert(messages[i + 1] == kept);
            }
        } else {
            assert(messages.contains(messages[0]));
        }
    }
}

/// Keeping or forgetting the message of one turn leaves those of every other in
/// place; the one that is kept first is found again.
pub proof fn turns_keep_their_own_messages(
    messages: Seq<MessageView>,
    message: MessageView,
    thread_id: Seq<char>,
    turn_id: Seq<char>,
)
    requires
        message.thread_id != thread_id || message.turn_id != turn_id,
    ensures
        kept_message(with_message(messages, message), thread_id, turn_id) == kept_message(
            messages,
            thread_id,
            turn_id,
        ),
        kept_message(
            without_message(messages, message.thread_id, message.turn_id),
            thread_id,
            turn_id,
        ) == kept_message(messages, thread_id, turn_id),
        kept_message(messages, message.thread_id, message.turn_id) is None ==> with_message(
            messages,
            message,
        ).last() == message,
{
    other_message_stays(messages, message.thread_id, message.turn_id, thread_id, turn_id);
    other_message_pushed(
        without_message(messages, message.thread_id, message.turn_id),
        message,
        thread_id,
        turn_id,
    );
}

proof fn other_message_stays(
    messages: Seq<MessageView>,
    gone_thread: Seq<char>,
    gone_turn: Seq<char>,
    thread_id: Seq<char>,
    turn_id: Seq<char>,
)
    requires
        gone_thread != thread_id || gone_turn != turn_id,
    ensures
        kept_message(without_message(messages, gone_thread, gone_turn), thread_id, turn_id)
            == kept_message(messages, thread_id, turn_id),
    decreases messages.len(),
{
    if messages.len() > 0 {
        other_message_stays(messages.skip(1), gone_thread, gone_turn, thread_id, turn_id);
        let rest = without_message(messages.skip(1), gone_thread, gone_turn);
        assert((seq![messages[0]] + rest).skip(1) =~= rest);
    }
}

proof fn other_message_pushed(
    messages: Seq<MessageView>,
    message: MessageView,
    thread_id: Seq<char>,
    turn_id: Seq<char>,
)
    requires
        message.thread_id != thread_id || message.turn_id != turn_id,
    ensures
        kept_message(messages.push(message), thread_id, turn_id) == kept_message(
            messages,
            thread_id,
            turn_id,
        ),
    decreases messages.len(),
{
    let pushed = messages.push(message);
    if messages.len() > 0 {
        assert(pushed.skip(1) =~= messages.skip(1).push(message));
        other_message_pushed(messages.skip(1), message, thread_id, turn_id);
    } else {
        assert(pushed.skip(1) =~= Seq::empty());
        assert(kept_message(pushed.skip(1), thread_id, turn_id) is None);
    }
}

/// A request states its identifier, its method and its parameters; one that
/// introduces the program names it and its version.
pub proof fn requests_state_what_they_ask(id: i64, method: Seq<char>, params: JsonView, version: Seq<char>)
    ensures
        field(request_json(id, method, params), "id"@) == Some(JsonView::Number(i64_number(id))),
        field(request_json(id, method, params), "method"@) == Some(JsonView::Text(method)),
        field(request_json(id, method, params), "params"@) == Some(params),
        field(initialized_json(), "method"@) == Some(JsonView::Text("initialized"@)),
        field(initialized_json(), "id"@) is None,
        field(initialize_json(version), "clientInfo"@) matches Some(client) && field(
            client,
            "version"@,
        ) == Some(JsonView::Text(version)) && field(client, "name"@) == Some(
            JsonView::Text("codex-longwatch"@),
        ),
{
    reveal_strlit("id");
    reveal_strlit("method");
    reveal_strlit("params");
    reveal_strlit("name");
    reveal_strlit("version");
    assert("id"@.len() == 2 && "method"@.len() == 6 && "params"@.len() == 6 && "name"@.len() == 4
        && "version"@.len() == 7);
    assert("method"@[0] == 'm' && "params"@[0] == 'p');
    let request = request_json(id, method, params)->Object_0;
    let done = initialized_json()->Object_0;
    assert(request.skip(1)[0] == request[1] && request.skip(1).skip(1)[0] == request[2]);
    assert(done.skip(1)[0] == done[1]);
    assert(done.skip(1).skip(1) =~= Seq::empty());
    let client = field(initialize_json(version), "clientInfo"@)->0->Object_0;
    assert(client.skip(1)[0] == client[1]);
    reveal_with_fuel(member, 4);
}

/// A thread outlives the connection and works in the directory that was asked
/// for; it is resumed, and its turns are begun and interrupted, under its own
/// identifier, and a turn is begun with the prompt as its only input.
pub proof fn requests_name_the_thread_and_the_task(
    thread_id: Seq<char>,
    turn_id: Seq<char>,
    prompt: Seq<char>,
    directory: Seq<char>,
)
    ensures
        field(start_thread_json(Some(directory)), "cwd"@) == Some(JsonView::Text(directory)),
        field(start_thread_json(None), "cwd"@) == Some(JsonView::Null),
        field(start_thread_json(Some(directory)), "ephemeral"@) == Some(JsonView::Bool(false)),
        field(resume_thread_json(thread_id, Some(directory)), "cwd"@) == Some(
            JsonView::Text(directory),
        ),
        field(resume_thread_json(thread_id, Some(directory)), "threadId"@) == Some(
            JsonView::Text(thread_id),
        ),
        field(resume_thread_json(thread_id, None), "cwd"@) == Some(JsonView::Null),
        field(start_turn_json(thread_id, prompt, Some(directory)), "cwd"@) == Some(
            JsonView::Text(directory),
        ),
        field(start_turn_json(thread_id, prompt, Some(directory)), "threadId"@) == Some(
            JsonView::Text(thread_id),
        ),
        field(start_turn_json(thread_id, prompt, Some(directory)), "input"@) matches Some(
            JsonView::Array(items),
        ) && items.len() == 1 && text_field(items[0], "text"@) == Some(prompt) && text_field(
            items[0],
            "type"@,
        ) == Some("text"@),
        field(interrupt_json(thread_id, turn_id), "threadId"@) == Some(JsonView::Text(thread_id)),
        field(interrupt_json(thread_id, turn_id), "turnId"@) == Some(JsonView::Text(turn_id)),
{
    reveal_strlit("cwd");
    reveal_strlit("ephemeral");
    reveal_strlit("threadId");
    reveal_strlit("turnId");
    reveal_strlit("input");
    reveal_strlit("text");
    reveal_strlit("type");
    assert("cwd"@.len() == 3 && "ephemeral"@.len() == 9 && "threadId"@.len() == 8 && "turnId"@.len()
        == 6 && "input"@.len() == 5 && "text"@.len() == 4 && "type"@.len() == 4);
    assert("text"@[1] == 'e' && "type"@[1] == 'y');
    let started = start_thread_json(Some(directory))->Object_0;
    assert(started.skip(1)[0] == started[1]);
    let resumed = resume_thread_json(thread_id, Some(directory))->Object_0;
    assert(resumed.skip(1)[0] == resumed[1]);
    let turn = start_turn_json(thread_id, prompt, Some(directory))->Object_0;
    assert(turn.skip(1)[0] == turn[1] && turn.skip(1).skip(1)[0] == turn[2]);
    let item = turn[1].1->Array_0[0]->Object_0;
    assert(item.skip(1)[0] == item[1]);
    let interruption = interrupt_json(thread_id, turn_id)->Object_0;
    assert(interruption.skip(1)[0] == interruption[1]);
    reveal_with_fuel(member, 4);
}

/// What is missing in a malformed message is said.
pub proof fn what_is_missing_is_said(
    json: JsonView,
    thread: JsonView,
    id: Seq<char>,
    status: Seq<char>,
    messages: Seq<MessageView>,
)
    ensures
        !(field(json, "id"@) matches Some(JsonView::Text(_))) ==> turn_of(json) == Err::<
            TurnView,
            Seq<char>,
        >("turn payload has no id"@),
        field(json, "id"@) == Some(JsonView::Text(id)) && field(json, "status"@) is None
            ==> turn_of(json) == Err::<TurnView, Seq<char>>("turn payload has no status"@),
        field(json, "id"@) == Some(JsonView::Text(id)) && field(json, "status"@) == Some(
            JsonView::Text(status),
        ) && turn_of(json) is Err ==> turn_of(json) == Err::<TurnView, Seq<char>>(
            "unknown turn status "@ + status,
        ),
        field(json, "thread"@) is None ==> session_of(json) == Err::<SessionView, Seq<char>>(
            "thread response has no thread object"@,
        ),
        field(json, "thread"@) == Some(thread) && field(thread, "id"@) is None ==> session_of(json)
            == Err::<SessionView, Seq<char>>("thread response has no thread.id"@),
        field(json, "code"@) is None ==> rpc_error_of(json) == Err::<FailureView, Seq<char>>(
            "JSON-RPC error has no integer code: "@ + compact(json),
        ),
        field(json, "code"@) is Some && i64_of(field(json, "code"@)->0) is Some && field(
            json,
            "message"@,
        ) is None ==> rpc_error_of(json) == Err::<FailureView, Seq<char>>(
            "JSON-RPC error has no message: "@ + compact(json),
        ),
        field(json, "id"@) is Some && id_of(field(json, "id"@)->0) is None ==> meaning(
            json,
            messages,
        ) == Err::<DispatchView, Seq<char>>("JSON-RPC id must be a string or integer"@),
{
}

/// A completed message is kept and not passed on; the end of a turn forgets the
/// message of that turn; a message of no known method changes nothing.
pub proof fn messages_are_kept_until_the_turn_ends(
    message: JsonView,
    params: JsonView,
    thread_id: Seq<char>,
    turn: TurnView,
    messages: Seq<MessageView>,
)
    requires
        field(message, "id"@) is None,
        field(message, "params"@) == Some(params),
    ensures
        field(message, "method"@) == Some(JsonView::Text("item/completed"@)) ==> {
            &&& meaning(message, messages) == Ok::<DispatchView, Seq<char>>(DispatchView::Nothing)
            &&& completed_message_of(params) is None ==> messages_after(message, messages)
                == messages
            &&& completed_message_of(params) matches Some(completed) ==> messages_after(
                message,
                messages,
            ) == with_message(messages, completed)
        },
        field(message, "method"@) == Some(JsonView::Text("turn/completed"@)) && event_of(
            "turn/completed"@,
            params,
        ) == Some(EventView::TurnCompleted { thread_id, turn }) ==> messages_after(
            message,
            messages,
        ) == without_message(messages, thread_id, turn.id),
        field(message, "method"@) is None ==> meaning(message, messages) == Ok::<
            DispatchView,
            Seq<char>,
        >(DispatchView::Nothing) && messages_after(message, messages) == messages,
{
    method_names();
    reveal_strlit("item/agentMessage/delta");
    reveal_strlit("turn/started");
    reveal_strlit("error");
    reveal_strlit("turn/completed");
    reveal_strlit("item/completed");
    assert("item/agentMessage/delta"@.len() == 23 && "turn/started"@.len() == 12 && "error"@.len()
        == 5 && "turn/completed"@.len() == 14 && "item/completed"@.len() == 14);
}

/// Of two messages of a turn that are not marked as its final answer the later
/// one is kept.
pub proof fn the_later_message_is_kept(messages: Seq<MessageView>, message: MessageView)
    requires
        !message.explicit_final,
        match kept_message(messages, message.thread_id, message.turn_id) {
            Some(kept) => !kept.explicit_final,
            None => true,
        },
    ensures
        kept_message(with_message(messages, message), message.thread_id, message.turn_id) == Some(
            message,
        ),
{
    own_message_gone(messages, message.thread_id, message.turn_id);
    own_message_pushed(
        without_message(messages, message.thread_id, message.turn_id),
        message,
    );
}

proof fn own_message_gone(messages: Seq<MessageView>, thread_id: Seq<char>, turn_id: Seq<char>)
    ensures
        kept_message(without_message(messages, thread_id, turn_id), thread_id, turn_id) is None,
    decreases messages.len(),
{
    if messages.len() > 0 {
        own_message_gone(messages.skip(1), thread_id, turn_id);
        let rest = without_message(messages.skip(1), thread_id, turn_id);
        assert((seq![messages[0]] + rest).skip(1) =~= rest);
    }
}

proof fn own_message_pushed(messages: Seq<MessageView>, message: MessageView)
    requires
        kept_message(messages, message.thread_id, message.turn_id) is None,
    ensures
        kept_message(messages.push(message), message.thread_id, message.turn_id) == Some(message),
    decreases messages.len(),
{
    if messages.len() > 0 {
        assert(messages.push(message).skip(1) =~= messages.skip(1).push(message));
        own_message_pushed(messages.skip(1), message);
    }
}

/// A request is waited for for 45 seconds.
pub proof fn requests_are_waited_for()
    ensures
        crate::app_server::REQUEST_TIMEOUT_SECS == 45,
{
}

/// A request of the server whose method is no text is refused too, as an
/// unknown one; the refusal says that such requests are not handled.
pub proof fn unknown_requests_are_refused(
    message: JsonView,
    id: IdView,
    messages: Seq<MessageView>,
    number: i64,
)
    requires
        field(message, "id"@) matches Some(json) && id_of(json) == Some(id),
        field(message, "method"@) is Some,
    ensures
        meaning(message, messages) is Ok,
        meaning(message, messages)->Ok_0 is Rejected,
        messages_after(message, messages) == messages,
        !(field(message, "method"@) matches Some(JsonView::Text(_))) ==> meaning(
            message,
            messages,
        )->Ok_0->diagnostic == "Codex 请求了交互式操作（"@ + "unknown"@
            + "），已自动拒绝；请改用无需审批的运行策略后重试"@,
        ({
            let error = field(meaning(message, messages)->Ok_0->Rejected_response, "error"@);
            error is Some && text_field(error->0, "message"@) == Some(
                "Longwatch does not handle server requests"@,
            )
        }),
        id_json(IdView::Number(number)) == JsonView::Number(i64_number(number)),
{
    reveal_strlit("error");
    reveal_strlit("code");
    reveal_strlit("message");
    assert("error"@.len() == 5 && "code"@.len() == 4 && "message"@.len() == 7);
    let members = rejection_json(id)->Object_0;
    let error = members[0].1->Object_0;
    assert(error.skip(1)[0] == error[1]);
    reveal_with_fuel(member, 3);
}

/// A new thread says where it comes from.
pub proof fn new_threads_say_where_they_come_from(directory: Option<Seq<char>>)
    ensures
        text_field(start_thread_json(directory), "sessionStartSource"@) == Some("startup"@),
        text_field(start_thread_json(directory), "threadSource"@) == Some("codex-longwatch"@),
{
    reveal_strlit("cwd");
    reveal_strlit("ephemeral");
    reveal_strlit("sessionStartSource");
    reveal_strlit("threadSource");
    assert("cwd"@.len() == 3 && "ephemeral"@.len() == 9 && "sessionStartSource"@.len() == 18
        && "threadSource"@.len() == 12);
    let members = start_thread_json(directory)->Object_0;
    assert(members.skip(1)[0] == members[1]);
    assert(members.skip(1).skip(1)[0] == members[2]);
    assert(members.skip(1).skip(1).skip(1)[0] == members[3]);
    reveal_with_fuel(member, 5);
}

} // verus!
