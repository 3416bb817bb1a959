//! What is promised of reading the session files of the Codex window.

use vstd::prelude::*;

use crate::gui_fallback::{
    as_seq, completed_turn, directory_refusal, fresh_tailer, gui_error_of, is_fresh_pending,
    is_pending, named_after, scanned, uuid_form, with_tailer, Claim, MonitorView, ScanView,
    SessionFile,
};
use crate::json::{field, parsed, JsonView};
use crate::jsonl::TailerView;
use crate::paths::{path_before, same_path_as, PathStyle};
use crate::transport::{EventView, TurnStatus, TurnView};

verus! {

/// An error that is a text is its message; one with members has its message,
/// details and information under either spelling, the first one going first.
pub proof fn errors_of_the_window(text: Seq<char>, members: Seq<(Seq<char>, JsonView)>)
    ensures
        gui_error_of(JsonView::Text(text)).message == text,
        gui_error_of(JsonView::Text(text)).additional_details is None,
        gui_error_of(JsonView::Text(text)).codex_error_info is None,
        ({
            let json = JsonView::Object(members);
            let read = gui_error_of(json);
            &&& field(json, "message"@) == Some(JsonView::Text(text)) ==> read.message == text
            &&& field(json, "message"@) is None ==> read.message
                == "GUI fallback reported an error"@
            &&& field(json, "additionalDetails"@) == Some(JsonView::Text(text))
                ==> read.additional_details == Some(text)
            &&& field(json, "additionalDetails"@) is None && field(json, "additional_details"@)
                == Some(JsonView::Text(text)) ==> read.additional_details == Some(text)
            &&& field(json, "additionalDetails"@) is None && field(json, "additional_details"@)
                is None ==> read.additional_details is None
            &&& field(json, "codexErrorInfo"@) is Some ==> read.codex_error_info == field(
                json,
                "codexErrorInfo"@,
            )
            &&& field(json, "codexErrorInfo"@) is None ==> read.codex_error_info == field(
                json,
                "codex_error_info"@,
            )
        }),
{
}

/// A turn that ended with an error has failed, and one without has completed;
/// its reply is the last message of the agent, and nothing where there is none.
pub proof fn turns_of_the_window(payload: JsonView, id: Seq<char>, text: Seq<char>)
    ensures
        ({
            let turn = completed_turn(payload, id);
            let error = field(payload, "error"@);
            &&& turn.id == id
            &&& error is None || error == Some(JsonView::Null) ==> turn.status
                == TurnStatus::Completed && turn.error is None
            &&& error is Some && error != Some(JsonView::Null) ==> turn.status
                == TurnStatus::Failed && turn.error == Some(gui_error_of(error->0))
            &&& field(payload, "last_agent_message"@) == Some(JsonView::Text(text))
                ==> turn.final_message == text
            &&& field(payload, "last_agent_message"@) is None ==> turn.final_message.len() == 0
        }),
{
}

/// A session file tells its thread in the record of its start and its latest
/// turn in the records of turns: one that began is under way, one that ended
/// has ended; every other record tells nothing.
pub proof fn session_files_tell_thread_and_turn(
    scan: ScanView,
    record: JsonView,
    payload: JsonView,
    kind: Seq<char>,
    event: Seq<char>,
    id: Seq<char>,
)
    requires
        field(record, "payload"@) == Some(payload),
        field(record, "type"@) == Some(JsonView::Text(kind)),
        field(payload, "type"@) == Some(JsonView::Text(event)),
    ensures
        ({
            let after = scan.after(record);
            &&& kind == "session_meta"@ ==> after.latest_turn == scan.latest_turn
            &&& kind == "session_meta"@ && field(payload, "id"@) == Some(JsonView::Text(id))
                ==> after.thread_id == Some(id)
            &&& kind == "session_meta"@ && field(payload, "id"@) is None && field(
                payload,
                "session_id"@,
            ) == Some(JsonView::Text(id)) ==> after.thread_id == Some(id)
            &&& kind != "session_meta"@ ==> after.thread_id == scan.thread_id
            &&& kind == "event_msg"@ && event == "task_started"@ && field(payload, "turn_id"@)
                == Some(JsonView::Text(id)) ==> after.latest_turn == Some(
                TurnView {
                    id,
                    status: TurnStatus::InProgress,
                    final_message: Seq::empty(),
                    error: None,
                },
            )
            &&& kind == "event_msg"@ && event == "task_complete"@ && field(payload, "turn_id"@)
                == Some(JsonView::Text(id)) ==> after.latest_turn == Some(
                completed_turn(payload, id),
            )
            &&& kind == "event_msg"@ && event == "task_complete"@ && field(payload, "turn_id"@)
                is None ==> after.latest_turn == Some(
                completed_turn(payload, "unknown-gui-turn"@),
            )
            &&& kind == "event_msg"@ && event != "task_started"@ && event != "task_complete"@
                ==> after == scan
            &&& kind != "session_meta"@ && kind != "event_msg"@ ==> after == scan
        }),
{
    reveal_strlit("session_meta");
    reveal_strlit("event_msg");
    reveal_strlit("task_started");
    reveal_strlit("task_complete");
    assert("session_meta"@.len() == 12 && "event_msg"@.len() == 9 && "task_started"@.len() == 12
        && "task_complete"@.len() == 13);
}

/// The lines of a file are read in their order, and one that holds no document
/// tells nothing.
pub proof fn later_lines_count(lines: Seq<Seq<u8>>, line: Seq<u8>)
    ensures
        parsed(line) is None ==> scanned(lines.push(line)) == scanned(lines),
        parsed(line) is Some ==> scanned(lines.push(line)) == scanned(lines).after(
            parsed(line)->0,
        ),
        scanned(Seq::empty()).thread_id is None,
        scanned(Seq::empty()).latest_turn is None,
{
    assert(lines.push(line).drop_last() =~= lines);
    assert(lines.push(line).last() == line);
}

proof fn kinds_differ()
    ensures
        "task_started"@ != "agent_message"@,
        "task_started"@ != "task_complete"@,
        "task_started"@ != "turn_aborted"@,
        "task_started"@ != "task_aborted"@,
        "task_started"@ != "user_message"@,
        "agent_message"@ != "task_complete"@,
        "agent_message"@ != "turn_aborted"@,
        "agent_message"@ != "task_aborted"@,
        "agent_message"@ != "user_message"@,
        "task_complete"@ != "turn_aborted"@,
        "task_complete"@ != "task_aborted"@,
        "task_complete"@ != "user_message"@,
        "turn_aborted"@ != "user_message"@,
        "task_aborted"@ != "user_message"@,
{
    reveal_strlit("task_started");
    reveal_strlit("agent_message");
    reveal_strlit("task_complete");
    reveal_strlit("turn_aborted");
    reveal_strlit("task_aborted");
    reveal_strlit("user_message");
    assert("task_started"@.len() == 12 && "agent_message"@.len() == 13 && "task_complete"@.len()
        == 13 && "turn_aborted"@.len() == 12 && "task_aborted"@.len() == 12
        && "user_message"@.len() == 12);
    assert("task_started"@[5] == 's' && "task_aborted"@[5] == 'a' && "turn_aborted"@[1] == 'u'
        && "task_started"@[0] == 't' && "user_message"@[0] == 'u' && "turn_aborted"@[0] == 't'
        && "task_aborted"@[0] == 't');
    assert("task_started"@[1] == 'a');
    assert("agent_message"@[0] == 'a' && "task_complete"@[0] == 't');
}

/// The file of the turn is recognised by the prompt that was typed or by the
/// start of a turn; until then every other record is passed over, and
/// afterwards every record of that file counts and none of another.
pub proof fn the_file_of_the_turn_is_recognised(
    monitor: MonitorView,
    path: Seq<char>,
    record: JsonView,
    payload: JsonView,
    kind: Seq<char>,
    text: Seq<char>,
)
    requires
        field(record, "payload"@) == Some(payload),
        field(payload, "type"@) == Some(JsonView::Text(kind)),
        field(payload, "message"@) == Some(JsonView::Text(text)),
    ensures
        ({
            let claim = monitor.claim(path, record);
            let searching = monitor.active_path is None;
            &&& searching && kind == "task_started"@ ==> claim == Claim::Resolve
            &&& searching && kind == "user_message"@ && monitor.expected_prompt == Some(text)
                ==> claim == Claim::Resolve
            &&& searching && kind == "user_message"@ && monitor.expected_prompt != Some(text)
                ==> claim == Claim::Skip
            &&& searching && kind != "user_message"@ && kind != "task_started"@ ==> claim
                == Claim::Skip
            &&& monitor.active_path == Some(path) ==> claim == Claim::Report
            &&& monitor.active_path is Some && !same_path_as(
                monitor.active_path->0,
                path,
                monitor.style,
            ) ==> claim == Claim::Skip
            &&& claim == Claim::Resolve ==> monitor.claimed(path, record).active_path == Some(path)
            &&& claim != Claim::Resolve ==> monitor.claimed(path, record) == monitor
            &&& monitor.claimed(path, record).thread_id == monitor.thread_id
            &&& monitor.claimed(path, record).logical_turn == monitor.logical_turn
            &&& monitor.claimed(path, record).tailers == monitor.tailers
        }),
{
    kinds_differ();
}

/// A file that names another thread than the one that was known makes it known,
/// and this is reported; one that names the same or none reports nothing.
pub proof fn the_thread_of_the_file_is_taken_over(
    monitor: MonitorView,
    path: Seq<char>,
    thread_id: Seq<char>,
)
    ensures
        monitor.resolved(path, Some(thread_id)).thread_id == thread_id,
        monitor.resolved(path, Some(thread_id)).resolved_path == Some(path),
        monitor.resolved(path, Some(thread_id)).logical_turn == monitor.logical_turn,
        monitor.resolved(path, None) == monitor,
        thread_id != monitor.thread_id ==> monitor.resolution(Some(thread_id)) == Some(
            EventView::ThreadResolved {
                previous_thread_id: monitor.thread_id,
                thread_id,
                turn_id: monitor.logical_turn,
            },
        ),
        thread_id == monitor.thread_id ==> monitor.resolution(Some(thread_id)) is None,
        monitor.resolution(None) is None,
{
}

/// What is reported for a record of the turn: its start, a message of the
/// agent, its end, or that it was aborted; anything else is not reported.
pub proof fn records_of_the_turn_are_reported(
    monitor: MonitorView,
    record: JsonView,
    payload: JsonView,
    kind: Seq<char>,
    text: Seq<char>,
)
    requires
        field(record, "payload"@) == Some(payload),
        field(payload, "type"@) == Some(JsonView::Text(kind)),
        field(payload, "message"@) == Some(JsonView::Text(text)),
    ensures
        ({
            let reported = monitor.report(record);
            let thread_id = monitor.thread_id;
            let turn_id = monitor.logical_turn;
            &&& kind == "task_started"@ ==> reported == Some(
                EventView::TurnStarted { thread_id, turn_id },
            )
            &&& kind == "agent_message"@ ==> reported == Some(
                EventView::AgentMessageDelta { thread_id, turn_id, delta: text },
            )
            &&& kind == "task_complete"@ ==> reported == Some(
                EventView::TurnCompleted { thread_id, turn: completed_turn(payload, turn_id) },
            )
            &&& kind == "turn_aborted"@ || kind == "task_aborted"@ ==> reported == Some(
                EventView::TurnCompleted {
                    thread_id,
                    turn: TurnView {
                        id: turn_id,
                        status: TurnStatus::Interrupted,
                        final_message: Seq::empty(),
                        error: None,
                    },
                },
            )
            &&& kind != "task_started"@ && kind != "agent_message"@ && kind != "task_complete"@
                && kind != "turn_aborted"@ && kind != "task_aborted"@ ==> reported is None
        }),
{
    kinds_differ();
}

/// The records of the file of the turn are reported one after the other, until
/// the turn has ended; what follows its end is left.
pub proof fn records_are_reported_in_order(
    monitor: MonitorView,
    path: Seq<char>,
    record: JsonView,
    rest: Seq<JsonView>,
    thread_id: Option<Seq<char>>,
)
    requires
        monitor.active_path == Some(path),
    ensures
        ({
            let round = monitor.round(path, seq![record] + rest, thread_id);
            let later = monitor.round(path, rest, thread_id);
            let reported = monitor.report(record);
            &&& reported is None ==> round == later
            &&& reported is Some && reported->0 is TurnCompleted ==> round.over && round.events
                == seq![reported->0] && round.monitor == monitor
            &&& reported is Some && !(reported->0 is TurnCompleted) ==> round.events == seq![
                reported->0,
            ] + later.events && round.over == later.over && round.monitor == later.monitor
        }),
{
    let all = seq![record] + rest;
    assert(all.skip(1) =~= rest);
    assert(all[0] == record);
    let later = monitor.round(path, rest, thread_id);
    assert(Seq::<EventView>::empty() + as_seq(None) + later.events =~= later.events);
}

/// Records of a file that is not the one of the turn change nothing.
pub proof fn other_files_are_left_alone(
    monitor: MonitorView,
    path: Seq<char>,
    records: Seq<JsonView>,
    thread_id: Option<Seq<char>>,
)
    requires
        monitor.active_path is Some,
        !same_path_as(monitor.active_path->0, path, monitor.style),
    ensures
        monitor.round(path, records, thread_id).monitor == monitor,
        monitor.round(path, records, thread_id).events.len() == 0,
        !monitor.round(path, records, thread_id).over,
    decreases records.len(),
{
    if records.len() > 0 {
        other_files_are_left_alone(monitor, path, records.skip(1), thread_id);
    }
}

/// While the file of the turn is not known, records that do not show it are
/// passed over; the record that shows it is reported after the thread of the
/// file is.
pub proof fn the_showing_record_is_reported(
    monitor: MonitorView,
    path: Seq<char>,
    record: JsonView,
    rest: Seq<JsonView>,
    thread_id: Option<Seq<char>>,
)
    requires
        monitor.active_path is None,
    ensures
        ({
            let round = monitor.round(path, seq![record] + rest, thread_id);
            let claim = monitor.claim(path, record);
            &&& claim == Claim::Skip ==> round == monitor.round(path, rest, thread_id)
            &&& claim == Claim::Resolve && monitor.resolution(thread_id) is Some
                ==> round.events.len() > 0 && round.events[0] == monitor.resolution(thread_id)->0
            &&& claim == Claim::Resolve && monitor.resolution(thread_id) is None
                && monitor.report(record) is Some && thread_id is None ==> round.events.len() > 0
                && round.events[0] == monitor.report(record)->0
        }),
{
    let all = seq![record] + rest;
    assert(all.skip(1) =~= rest);
    assert(all[0] == record);
    let later = monitor.round(path, rest, thread_id);
    assert(Seq::<EventView>::empty() + as_seq(None) + later.events =~= later.events);
}

/// Following a file that is not followed adds its tailer and keeps every other;
/// a file that is followed keeps the tailer that it has.
pub proof fn followed_files_stay_followed(
    tailers: Seq<TailerView>,
    tailer: TailerView,
    style: PathStyle,
    i: int,
)
    ensures
        ({
            let after = with_tailer(tailers, tailer, style);
            let known = exists|k: int|
                0 <= k < tailers.len() && same_path_as(
                    (#[trigger] tailers[k]).path,
                    tailer.path,
                    style,
                );
            &&& 0 <= i < tailers.len() ==> after.contains(tailers[i])
            &&& !known ==> after.contains(tailer) && after.len() == tailers.len() + 1
            &&& tailers.len() <= after.len() <= tailers.len() + 1
        }),
    decreases tailers.len(),
{
    let after = with_tailer(tailers, tailer, style);
    if tailers.len() == 0 {
        assert(after[0] == tailer);
    } else if same_path_as(tailers[0].path, tailer.path, style) {
        if 0 <= i < tailers.len() {
            assert(after[i] == tailers[i]);
        }
    } else if path_before(tailer.path, tailers[0].path, style) {
        assert(after[0] == tailer);
        if 0 <= i < tailers.len() {
            assert(after[i + 1] == tailers[i]);
        }
    } else {
        let rest = tailers.skip(1);
        let more = with_tailer(rest, tailer, style);
        followed_files_stay_followed(rest, tailer, style, i - 1);
        assert(forall|k: int| 0 <= k < rest.len() ==> #[trigger] rest[k] == tailers[k + 1]);
        assert(forall|k: int| 0 <= k < more.len() ==> #[trigger] more[k] == after[k + 1]);
        if i == 0 {
            assert(after[0] == tailers[0]);
        } else if 0 < i < tailers.len() {
            assert(rest[i - 1] == tailers[i]);
            let k = choose|k: int| 0 <= k < more.len() && more[k] == tailers[i];
            assert(after[k + 1] == tailers[i]);
        }
        let known = exists|k: int|
            0 <= k < tailers.len() && same_path_as(
                (#[trigger] tailers[k]).path,
                tailer.path,
                style,
            );
        if !known {
            assert forall|k: int| 0 <= k < rest.len() implies !same_path_as(
                (#[trigger] rest[k]).path,
                tailer.path,
                style,
            ) by {
                assert(rest[k] == tailers[k + 1]);
            }
            let k = choose|k: int| 0 <= k < more.len() && more[k] == tailer;
            assert(after[k + 1] == tailer);
        }
    }
}

/// A new file is followed at its place in the order of paths: behind those it
/// does not come before, and before the first that it does.
#[verifier::spinoff_prover]
#[verifier::rlimit(40)]
pub proof fn followed_files_stand_in_order(
    tailers: Seq<TailerView>,
    tailer: TailerView,
    style: PathStyle,
)
    requires
        forall|k: int|
            0 <= k < tailers.len() ==> !same_path_as(
                (#[trigger] tailers[k]).path,
                tailer.path,
                style,
            ),
    ensures
        exists|at: int|
            0 <= at <= tailers.len() && #[trigger] tailers.insert(at, tailer) == with_tailer(
                tailers,
                tailer,
                style,
            ) && (forall|k: int|
                0 <= k < at ==> !path_before(tailer.path, (#[trigger] tailers[k]).path, style)) && (
            at < tailers.len() ==> path_before(tailer.path, tailers[at].path, style)),
    decreases tailers.len(),
{
    let after = with_tailer(tailers, tailer, style);
    if tailers.len() == 0 {
        assert(tailers.insert(0, tailer) =~= after);
    } else if path_before(tailer.path, tailers[0].path, style) {
        assert(!same_path_as(tailers[0].path, tailer.path, style));
        assert(tailers.insert(0, tailer) =~= after);
    } else {
        assert(!same_path_as(tailers[0].path, tailer.path, style));
        let rest = tailers.skip(1);
        assert(forall|k: int| 0 <= k < rest.len() ==> #[trigger] rest[k] == tailers[k + 1]);
        followed_files_stand_in_order(rest, tailer, style);
        let at = choose|at: int|
            0 <= at <= rest.len() && #[trigger] rest.insert(at, tailer) == with_tailer(
                rest,
                tailer,
                style,
            ) && (forall|k: int|
                0 <= k < at ==> !path_before(tailer.path, (#[trigger] rest[k]).path, style)) && (at
                < rest.len() ==> path_before(tailer.path, rest[at].path, style));
        assert(tailers.insert(at + 1, tailer) =~= after);
        assert forall|k: int| 0 <= k < at + 1 implies !path_before(
            tailer.path,
            (#[trigger] tailers[k]).path,
            style,
        ) by {
            if k > 0 {
                assert(rest[k - 1] == tailers[k]);
            }
        }
        if at < rest.len() {
            assert(rest[at] == tailers[at + 1]);
        }
    }
}

/// A thread that Codex has not written yet is known by how its identifier
/// begins; a file belongs to a thread whose identifier stands in its name; and
/// a file that is new is followed from its start.
pub proof fn threads_and_files_are_told_apart(
    thread_id: Seq<char>,
    directory: Seq<char>,
    path: Seq<char>,
)
    ensures
        is_pending("gui-pending-"@ + thread_id),
        thread_id.len() < 12 ==> !is_pending(thread_id),
        thread_id.len() > 0 && thread_id[0] != 'g' ==> !is_pending(thread_id),
        crate::text::occurs(directory_refusal(directory), directory),
        fresh_tailer(path).path == path,
        fresh_tailer(path).offset == 0,
        fresh_tailer(path).partial.len() == 0,
        fresh_tailer(path).fingerprint is None,
        fresh_tailer(path).seen.len() == 0,
{
    reveal_strlit("gui-pending-");
    let prefix = "gui-pending-"@;
    assert(prefix.len() == 12 && prefix[0] == 'g');
    assert((prefix + thread_id).take(12) =~= prefix);
    if is_pending(thread_id) {
        assert(thread_id.take(12)[0] == thread_id[0]);
    }
    let head = "GUI fallback cannot safely select working directory "@;
    let whole = directory_refusal(directory);
    let at = head.len() as int;
    assert(whole.subrange(at, at + directory.len()) =~= directory);
    assert(crate::text::stands_at(whole, directory, at));
}

/// A file is named after a thread whose identifier stands in its name, where
/// its name can be read.
pub proof fn files_are_named_after_threads(file: SessionFile, thread_id: Seq<char>)
    ensures
        file.name is None ==> !named_after(file, thread_id),
        file.name is Some ==> (named_after(file, thread_id) <==> crate::text::occurs(
            file.name->0@,
            thread_id,
        )),
{
}

/// An identifier has 36 characters: hyphens at four places and hexadecimal
/// digits elsewhere; a new thread has such an identifier behind its mark.
pub proof fn identifiers_have_their_form(text: Seq<char>, i: int)
    ensures
        uuid_form(text) ==> text.len() == 36 && text[8] == '-' && text[13] == '-' && text[18] == '-'
            && text[23] == '-',
        uuid_form(text) && 0 <= i < 36 && i != 8 && i != 13 && i != 18 && i != 23 ==> ('0'
            <= text[i] <= '9' || 'a' <= text[i] <= 'f'),
        is_fresh_pending("gui-pending-"@ + text) <==> uuid_form(text),
{
    reveal_strlit("gui-pending-");
    let prefix = "gui-pending-"@;
    assert(prefix.len() == 12);
    assert((prefix + text).take(12) =~= prefix);
    assert((prefix + text).skip(12) =~= text);
    if uuid_form(text) {
        assert(text[8] == '-');
        assert(text[13] == '-');
        assert(text[18] == '-');
        assert(text[23] == '-');
    }
}

/// What a record does not say is not made up: a message that is no text is
/// none, a start without a turn tells nothing, and a file whose start names no
/// thread has none.
pub proof fn nothing_is_made_up(
    scan: ScanView,
    monitor: MonitorView,
    record: JsonView,
    payload: JsonView,
    id: Seq<char>,
)
    requires
        field(record, "payload"@) == Some(payload),
    ensures
        !(field(payload, "last_agent_message"@) matches Some(JsonView::Text(_)))
            ==> completed_turn(payload, id).final_message.len() == 0,
        payload is Object && !(field(payload, "message"@) matches Some(JsonView::Text(_)))
            ==> gui_error_of(payload).message == "GUI fallback reported an error"@,
        field(record, "type"@) == Some(JsonView::Text("session_meta"@)) && field(payload, "id"@)
            is None && field(payload, "session_id"@) is None ==> scan.after(record).thread_id
            is None,
        field(record, "type"@) == Some(JsonView::Text("event_msg"@)) && field(payload, "type"@)
            == Some(JsonView::Text("task_started"@)) && field(payload, "turn_id"@) is None
            ==> scan.after(record) == scan,
        field(payload, "type"@) == Some(JsonView::Text("agent_message"@)) && field(
            payload,
            "message"@,
        ) is None ==> monitor.report(record) is None,
        field(payload, "type"@) is None ==> monitor.report(record) is None,
{
    kinds_differ();
    reveal_strlit("session_meta");
    reveal_strlit("event_msg");
    reveal_strlit("task_started");
    reveal_strlit("task_complete");
    reveal_strlit("agent_message");
    reveal_strlit("turn_aborted");
    reveal_strlit("task_aborted");
    assert("session_meta"@.len() == 12 && "event_msg"@.len() == 9 && "task_started"@.len() == 12
        && "task_complete"@.len() == 13 && "agent_message"@.len() == 13 && "turn_aborted"@.len()
        == 12 && "task_aborted"@.len() == 12);
}

/// The typed prompt is recognised under either name of its text, and only
/// where a prompt was typed.
pub proof fn the_typed_prompt_is_recognised(
    monitor: MonitorView,
    path: Seq<char>,
    record: JsonView,
    payload: JsonView,
    text: Seq<char>,
)
    requires
        monitor.active_path is None,
        field(record, "payload"@) == Some(payload),
        field(payload, "type"@) == Some(JsonView::Text("user_message"@)),
        field(payload, "message"@) is None,
        field(payload, "text"@) == Some(JsonView::Text(text)),
    ensures
        monitor.expected_prompt == Some(text) ==> monitor.claim(path, record) == Claim::Resolve,
        monitor.expected_prompt != Some(text) ==> monitor.claim(path, record) == Claim::Skip,
{
    kinds_differ();
}

} // verus!
