//! What the classification of errors and replies promises, sign by sign.

use vstd::prelude::*;

use crate::classifier::{
    begins_with_phrase, completion_decision, error_decision, error_kind, fatal, fatal_kind,
    fatal_text, holds_high_demand, holds_phrase, identifier, normalized, notification_decision,
    shown_reason, status_in, status_in_items, status_in_members, without_marks, CompletedStatus,
    DecisionView, ErrorView,
};
use crate::json::{field, u64_of, JsonView};
use crate::text::{ascii_lower, begins, blank, decimal, occurs, trimmed};

verus! {

/// What an error says, in comparable form: its message, a space, its details.
pub open spec fn wording(error: ErrorView) -> Seq<char> {
    normalized(
        match error.additional_details {
            Some(details) => error.message + " "@ + details,
            None => error.message + " "@ + Seq::<char>::empty(),
        },
    )
}

/// Whether an error is of a kind: it is that text, or an object whose first
/// member has that name, letters and digits alone being compared.
pub open spec fn is_of_kind(error: ErrorView, kind: Seq<char>) -> bool {
    match error.codex_error_info {
        Some(JsonView::Text(name)) => identifier(name) == kind,
        Some(JsonView::Object(members)) => members.len() > 0 && identifier(members[0].0) == kind,
        _ => false,
    }
}

/// Whether an error speaks of signing in, quota, policy or a faulty request:
/// only the user can mend it.
pub open spec fn is_for_the_user(error: ErrorView) -> bool {
    ||| is_of_kind(error, "unauthorized"@)
    ||| is_of_kind(error, "usagelimitexceeded"@)
    ||| is_of_kind(error, "sessionbudgetexceeded"@)
    ||| is_of_kind(error, "cyberpolicy"@)
    ||| is_of_kind(error, "badrequest"@)
    ||| is_of_kind(error, "threadrollbackfailed"@)
    ||| is_of_kind(error, "sandboxerror"@)
    ||| is_of_kind(error, "contextwindowexceeded"@)
    ||| occurs(wording(error), "unauthorized"@)
    ||| occurs(wording(error), "not logged in"@)
    ||| occurs(wording(error), "authentication required"@)
    ||| occurs(wording(error), "quota exhausted"@)
    ||| occurs(wording(error), "usage limit exceeded"@)
    ||| occurs(wording(error), "insufficient credits"@)
    ||| occurs(wording(error), "invalid configuration"@)
    ||| occurs(wording(error), "policy refusal"@)
    ||| occurs(wording(error), "policy rejected"@)
}

/// Whether an error brings the notice of high demand.
pub open spec fn brings_the_notice(error: ErrorView) -> bool {
    occurs(
        normalized(wording(error)),
        normalized(
            "We're currently experiencing high demand, which may cause temporary errors."@,
        ),
    )
}

/// Whether an error says that the servers are overloaded or the connection broke.
pub open spec fn is_passing(error: ErrorView) -> bool {
    ||| is_of_kind(error, "serveroverloaded"@)
    ||| is_of_kind(error, "internalservererror"@)
    ||| is_of_kind(error, "httpconnectionfailed"@)
    ||| is_of_kind(error, "responsestreamconnectionfailed"@)
    ||| is_of_kind(error, "responsestreamdisconnected"@)
    ||| is_of_kind(error, "responsetoomanyfailedattempts"@)
    ||| occurs(wording(error), "server overloaded"@)
    ||| occurs(wording(error), "stream disconnected before completion"@)
    ||| occurs(wording(error), "error sending request for url"@)
    ||| occurs(wording(error), "response stream disconnected"@)
    ||| occurs(wording(error), "connection closed before message completed"@)
    ||| occurs(wording(error), "connection reset by peer"@)
    ||| occurs(wording(error), "connection prematurely closed"@)
}

/// Whether an error holds one of the user's phrases that has words.
pub open spec fn holds_one_of(error: ErrorView, phrases: Seq<Seq<char>>) -> bool {
    exists|i: int|
        0 <= i < phrases.len() && normalized(#[trigger] phrases[i]).len() > 0 && occurs(
            wording(error),
            normalized(phrases[i]),
        )
}

/// Whether a comparable text names an HTTP status.
pub open spec fn names_status(text: Seq<char>, numeral: Seq<char>) -> bool {
    occurs(text, "http "@ + numeral) || occurs(text, "http status "@ + numeral) || occurs(
        text,
        "status "@ + numeral,
    ) || occurs(text, "status code "@ + numeral)
}

/// The numerals of the four statuses.
proof fn numerals()
    ensures
        decimal(429) == "429"@,
        decimal(502) == "502"@,
        decimal(503) == "503"@,
        decimal(504) == "504"@,
{
    reveal_strlit("429");
    reveal_strlit("502");
    reveal_strlit("503");
    reveal_strlit("504");
    reveal_with_fuel(decimal, 4);
    assert(decimal(429) =~= "429"@);
    assert(decimal(502) =~= "502"@);
    assert(decimal(503) =~= "503"@);
    assert(decimal(504) =~= "504"@);
}

proof fn wording_is_the_text(error: ErrorView)
    ensures
        wording(error) == normalized(crate::classifier::error_words(error)),
        fatal(error) == is_for_the_user(error),
        holds_high_demand(normalized(crate::classifier::error_words(error))) == brings_the_notice(
            error,
        ),
{
    assert(fatal_kind(error_kind(error.codex_error_info)) || fatal_text(wording(error))
        <==> is_for_the_user(error));
}

/// An error that only the user can mend pauses the queue, whatever else it
/// says: during a turn, announced as retried or not, and at the end of one.
pub proof fn errors_for_the_user_pause(
    error: ErrorView,
    will_retry: bool,
    phrases: Seq<Seq<char>>,
    reply: Seq<char>,
    previous_empty_replies: u8,
    max_empty_replies: u8,
)
    requires
        is_for_the_user(error),
    ensures
        error_decision(error, phrases) is Pause,
        notification_decision(error, will_retry, phrases) is Pause,
        completion_decision(
            CompletedStatus::Failed,
            reply,
            Some(error),
            phrases,
            previous_empty_replies,
            max_empty_replies,
        ) is Pause,
{
    wording_is_the_text(error);
    reveal(notification_decision);
    reveal(completion_decision);
}

/// An error that says that the servers are overloaded or the connection broke
/// is retried after a while, whatever its HTTP status, unless only the user can
/// mend it or the notice of high demand comes with it.
pub proof fn passing_errors_are_retried(error: ErrorView, phrases: Seq<Seq<char>>)
    requires
        !is_for_the_user(error),
        !brings_the_notice(error),
        is_passing(error),
    ensures
        error_decision(error, phrases) is Retryable,
{
    wording_is_the_text(error);
}

/// So is an error that holds one of the user's phrases.
pub proof fn errors_with_a_phrase_are_retried(error: ErrorView, phrases: Seq<Seq<char>>)
    requires
        !is_for_the_user(error),
        !brings_the_notice(error),
        holds_one_of(error, phrases),
    ensures
        error_decision(error, phrases) is Retryable,
{
    wording_is_the_text(error);
    assert(holds_phrase(wording(error), phrases));
}

/// The notice of high demand is answered by an attempt at once and without an
/// alert, whatever else the error says, unless only the user can mend it.
pub proof fn the_notice_is_answered_at_once(
    error: ErrorView,
    phrases: Seq<Seq<char>>,
    reply: Seq<char>,
    previous_empty_replies: u8,
    max_empty_replies: u8,
)
    requires
        !is_for_the_user(error),
        brings_the_notice(error),
    ensures
        error_decision(error, phrases) is RetryImmediatelyQuiet,
        !is_of_kind(error, "responsetoomanyfailedattempts"@) ==> notification_decision(
            error,
            false,
            phrases,
        ) is RetryImmediatelyQuiet,
        completion_decision(
            CompletedStatus::Failed,
            reply,
            Some(error),
            phrases,
            previous_empty_replies,
            max_empty_replies,
        ) is RetryImmediatelyQuiet,
{
    wording_is_the_text(error);
    reveal(notification_decision);
    reveal(completion_decision);
}

/// An error whose information states an HTTP status of 429, 502, 503 or 504 is
/// retried after a while, and the reason names the status.
pub proof fn stated_statuses_are_retried(
    error: ErrorView,
    phrases: Seq<Seq<char>>,
    members: Seq<(Seq<char>, JsonView)>,
    status: u64,
)
    requires
        !is_for_the_user(error),
        !brings_the_notice(error),
        error.codex_error_info == Some(JsonView::Object(members)),
        field(JsonView::Object(members), "httpStatusCode"@) matches Some(value) && u64_of(value)
            == Some(status),
        status == 429 || status == 502 || status == 503 || status == 504,
    ensures
        error_decision(error, phrases) == DecisionView::Retryable(
            "临时 HTTP 状态码 "@ + decimal(status as nat),
        ),
{
    wording_is_the_text(error);
}

/// So is an error without information whose text names one of these statuses.
pub proof fn named_statuses_are_retried(error: ErrorView, phrases: Seq<Seq<char>>)
    requires
        !is_for_the_user(error),
        !brings_the_notice(error),
        error.codex_error_info is None,
        names_status(wording(error), "429"@) || names_status(wording(error), "502"@)
            || names_status(wording(error), "503"@) || names_status(wording(error), "504"@),
    ensures
        error_decision(error, phrases) is Retryable,
        names_status(wording(error), "429"@) ==> error_decision(error, phrases)
            == DecisionView::Retryable("临时 HTTP 状态码 "@ + "429"@),
{
    wording_is_the_text(error);
    numerals();
}

/// An error without any of these signs pauses the queue: nothing is retried
/// that is not known to pass.
pub proof fn unknown_errors_pause(error: ErrorView, phrases: Seq<Seq<char>>)
    requires
        !brings_the_notice(error),
        !is_passing(error),
        !holds_one_of(error, phrases),
        match error.codex_error_info {
            Some(info) => match status_in(info) {
                Some(status) => status != 429 && status != 502 && status != 503 && status != 504,
                None => true,
            },
            None => true,
        },
        !names_status(wording(error), "429"@),
        !names_status(wording(error), "502"@),
        !names_status(wording(error), "503"@),
        !names_status(wording(error), "504"@),
    ensures
        error_decision(error, phrases) is Pause,
{
    wording_is_the_text(error);
    numerals();
    if holds_phrase(wording(error), phrases) {
        assert(holds_one_of(error, phrases));
    }
}

/// The reason of a retry or a pause is taken from the message: its first 240
/// characters without the white space around it, or a fixed text where there
/// are none.
pub proof fn reasons_come_from_the_message(error: ErrorView)
    ensures
        ({
            let message = trimmed(error.message);
            let reason = shown_reason(error);
            &&& message.len() == 0 ==> reason == "Codex 返回了未说明原因的错误"@
            &&& 0 < message.len() <= 240 ==> reason == message
            &&& message.len() > 240 ==> reason.len() == 240 && forall|i: int|
                0 <= i < 240 ==> #[trigger] reason[i] == message[i]
        }),
        is_for_the_user(error) ==> forall|phrases: Seq<Seq<char>>|
            #[trigger] error_decision(error, phrases) == DecisionView::Pause(shown_reason(error)),
{
    wording_is_the_text(error);
}

/// While Codex retries by itself, the queue waits for it: quietly where the
/// notice of high demand comes with the error, else with an alert.
pub proof fn announced_retries_are_waited_for(error: ErrorView, phrases: Seq<Seq<char>>)
    requires
        !is_for_the_user(error),
    ensures
        ({
            let told = normalized(
                match error.additional_details {
                    Some(details) => error.message + " "@ + details,
                    None => error.message + " "@ + Seq::<char>::empty(),
                },
            );
            let notice = normalized(
                "We're currently experiencing high demand, which may cause temporary errors."@,
            );
            &&& occurs(told, notice) ==> notification_decision(error, true, phrases)
                is WaitForInternalRetryQuiet
            &&& !occurs(told, notice) ==> notification_decision(error, true, phrases)
                is WaitForInternalRetry
        }),
{
    wording_is_the_text(error);
    reveal(notification_decision);
}

/// Where Codex has given up after its own retries, the next round begins at
/// once during the turn, and the reason counts five of them; any other error
/// during a turn that Codex does not retry is judged as at the end of one.
pub proof fn errors_during_a_turn(error: ErrorView, phrases: Seq<Seq<char>>)
    ensures
        !is_for_the_user(error) && is_of_kind(error, "responsetoomanyfailedattempts"@)
            ==> notification_decision(error, false, phrases) == DecisionView::RetryImmediately(
            "Codex 内部 "@ + decimal(5) + " 次重试已耗尽"@,
        ),
        !is_of_kind(error, "responsetoomanyfailedattempts"@) ==> notification_decision(
            error,
            false,
            phrases,
        ) == error_decision(error, phrases),
{
    wording_is_the_text(error);
    reveal(notification_decision);
}

/// The end of a turn is judged by its status: one that goes on is waited for,
/// one that was interrupted is retried, one that failed is judged by its error,
/// and without an error it pauses the queue.
pub proof fn ends_of_turns(
    reply: Seq<char>,
    error: Option<ErrorView>,
    phrases: Seq<Seq<char>>,
    previous_empty_replies: u8,
    max_empty_replies: u8,
)
    ensures
        ({
            let end = |status: CompletedStatus|
                completion_decision(
                    status,
                    reply,
                    error,
                    phrases,
                    previous_empty_replies,
                    max_empty_replies,
                );
            &&& end(CompletedStatus::InProgress) is WaitForInternalRetry
            &&& end(CompletedStatus::Interrupted) is Retryable
            &&& error is None ==> end(CompletedStatus::Failed) is Pause
            &&& error matches Some(error) ==> end(CompletedStatus::Failed) == error_decision(
                error,
                phrases,
            )
            &&& end(CompletedStatus::Completed) !is WaitForInternalRetry
            &&& end(CompletedStatus::Completed) !is RetryImmediately
        }),
{
    reveal(completion_decision);
}

/// The reply of a completed turn decides: where it begins with the notice of
/// high demand the task is tried again at once, where it begins with one of the
/// user's phrases after a while, and any other reply with words is a success.
pub proof fn replies_decide(
    reply: Seq<char>,
    error: Option<ErrorView>,
    phrases: Seq<Seq<char>>,
    previous_empty_replies: u8,
    max_empty_replies: u8,
)
    requires
        !blank(reply),
    ensures
        ({
            let decision = completion_decision(
                CompletedStatus::Completed,
                reply,
                error,
                phrases,
                previous_empty_replies,
                max_empty_replies,
            );
            let notice = begins(
                normalized(reply),
                normalized(
                    "We're currently experiencing high demand, which may cause temporary errors."@,
                ),
            );
            let busy = exists|i: int|
                0 <= i < phrases.len() && normalized(#[trigger] phrases[i]).len() > 0 && begins(
                    normalized(reply),
                    normalized(phrases[i]),
                );
            &&& notice ==> decision is RetryImmediatelyQuiet
            &&& !notice && busy ==> decision is Retryable
            &&& !notice && !busy ==> decision is Success
        }),
{
    reveal(completion_decision);
    assert(begins_with_phrase(reply, phrases) <==> exists|i: int|
        0 <= i < phrases.len() && normalized(#[trigger] phrases[i]).len() > 0 && begins(
            normalized(reply),
            normalized(phrases[i]),
        ));
}

/// A reply without words is tried again while fewer have come in a row than the
/// user allows, and the reason counts this one; then the queue pauses.
pub proof fn replies_without_words_are_counted(
    reply: Seq<char>,
    error: Option<ErrorView>,
    phrases: Seq<Seq<char>>,
    previous_empty_replies: u8,
    max_empty_replies: u8,
)
    requires
        blank(reply),
    ensures
        ({
            let decision = completion_decision(
                CompletedStatus::Completed,
                reply,
                error,
                phrases,
                previous_empty_replies,
                max_empty_replies,
            );
            &&& previous_empty_replies < max_empty_replies ==> decision is Retryable && occurs(
                decision->Retryable_0,
                "（"@ + decimal((previous_empty_replies + 1) as nat) + "/"@ + decimal(
                    max_empty_replies as nat,
                ) + "）"@,
            )
            &&& previous_empty_replies >= max_empty_replies ==> decision is Pause && occurs(
                decision->Pause_0,
                decimal(max_empty_replies as nat),
            )
        }),
{
    reveal(completion_decision);
    let one = decimal((previous_empty_replies + 1) as nat);
    let all = decimal(max_empty_replies as nat);
    reveal_strlit("Codex 返回空回复（");
    reveal_strlit("（");
    reveal_strlit("连续收到 ");
    let head = "Codex 返回空回复（"@;
    let text = head + one + "/"@ + all + "）"@;
    let part = "（"@ + one + "/"@ + all + "）"@;
    assert(head.len() == 12 && "（"@.len() == 1);
    assert(head[11] == '（' && "（"@[0] == '（');
    assert(text.subrange(11, 11 + part.len() as int) =~= part);
    assert(crate::text::stands_at(text, part, 11));
    let pause = "连续收到 "@ + all + " 次空回复，请人工检查"@;
    assert("连续收到 "@.len() == 5);
    assert(pause.subrange(5, 5 + all.len() as int) =~= all);
    assert(crate::text::stands_at(pause, all, 5));
}

/// The comparable form of a kind keeps letters and digits alone and lowers the
/// letters, piece by piece: spelling with capitals, dashes or underscores makes
/// no difference.
pub proof fn kinds_are_compared_by_letters_and_digits(left: Seq<char>, right: Seq<char>)
    ensures
        identifier(left + right) == identifier(left) + identifier(right),
        forall|i: int|
            0 <= i < identifier(left).len() ==> ({
                let c = #[trigger] identifier(left)[i];
                'a' <= c <= 'z' || '0' <= c <= '9'
            }),
        left.len() == 1 && 'A' <= left[0] <= 'Z' ==> identifier(left) == seq![
            ((left[0] as u32 + 32) as u32) as char,
        ],
        left.len() == 1 && ('a' <= left[0] <= 'z' || '0' <= left[0] <= '9') ==> identifier(left)
            == left,
        left.len() == 1 && !('a' <= left[0] <= 'z' || '0' <= left[0] <= '9' || 'A' <= left[0]
            <= 'Z') ==> identifier(left) == Seq::<char>::empty(),
    decreases left.len() + right.len(),
{
    if right.len() > 0 {
        assert((left + right).drop_last() =~= left + right.drop_last());
        assert((left + right).last() == right.last());
        kinds_are_compared_by_letters_and_digits(left, right.drop_last());
        assert(identifier(left + right) =~= identifier(left) + identifier(right));
    } else {
        assert(left + right =~= left);
        if left.len() > 0 {
            kinds_are_compared_by_letters_and_digits(left.drop_last(), right);
            let c = left.last();
            assert('A' <= c <= 'Z' ==> 'a' <= ascii_lower(c) <= 'z');
        }
        if left.len() == 1 {
            assert(left.drop_last() =~= Seq::<char>::empty());
            assert(left =~= seq![left[0]]);
        }
    }
}

/// The status of an array is that of its first item that has one.
pub proof fn the_first_status_of_an_array_counts(items: Seq<JsonView>, i: int)
    requires
        0 <= i < items.len(),
        forall|j: int| 0 <= j < i ==> status_in(#[trigger] items[j]) is None,
        status_in(items[i]) is Some,
    ensures
        status_in(JsonView::Array(items)) == status_in(items[i]),
{
    first_item_counts(items, i);
}

proof fn first_item_counts(items: Seq<JsonView>, i: int)
    requires
        0 <= i < items.len(),
        forall|j: int| 0 <= j < i ==> status_in(#[trigger] items[j]) is None,
        status_in(items[i]) is Some,
    ensures
        status_in_items(items) == status_in(items[i]),
    decreases i,
{
    if i > 0 {
        let rest = items.subrange(1, items.len() as int);
        assert(rest[i - 1] == items[i]);
        assert forall|j: int| 0 <= j < i - 1 implies status_in(#[trigger] rest[j]) is None by {
            assert(rest[j] == items[j + 1]);
        }
        assert(status_in(items[0]) is None);
        first_item_counts(rest, i - 1);
    }
}

/// The status of an object is the one that it states itself, where it fits 16
/// bits, and otherwise that of its first member that has one.
pub proof fn the_first_status_of_an_object_counts(members: Seq<(Seq<char>, JsonView)>, i: int)
    ensures
        match field(JsonView::Object(members), "httpStatusCode"@) {
            Some(value) => match u64_of(value) {
                Some(status) => status_in(JsonView::Object(members)) == (if status <= 65535 {
                    Some(status as u16)
                } else {
                    None::<u16>
                }),
                None => true,
            },
            None => true,
        },
        (field(JsonView::Object(members), "httpStatusCode"@) is None || u64_of(
            field(JsonView::Object(members), "httpStatusCode"@)->0,
        ) is None) && 0 <= i < members.len() && (
        forall|j: int| 0 <= j < i ==> status_in((#[trigger] members[j]).1) is None) && status_in(
            members[i].1,
        ) is Some ==> status_in(JsonView::Object(members)) == status_in(members[i].1),
{
    if 0 <= i < members.len() && (forall|j: int|
        0 <= j < i ==> status_in((#[trigger] members[j]).1) is None) && status_in(members[i].1)
        is Some {
        first_member_counts(members, i);
    }
}

proof fn first_member_counts(members: Seq<(Seq<char>, JsonView)>, i: int)
    requires
        0 <= i < members.len(),
        forall|j: int| 0 <= j < i ==> status_in((#[trigger] members[j]).1) is None,
        status_in(members[i].1) is Some,
    ensures
        status_in_members(members) == status_in(members[i].1),
    decreases i,
{
    if i > 0 {
        let rest = members.subrange(1, members.len() as int);
        assert(rest[i - 1] == members[i]);
        assert forall|j: int| 0 <= j < i - 1 implies status_in((#[trigger] rest[j]).1)
            is None by {
            assert(rest[j] == members[j + 1]);
        }
        assert(status_in(members[0].1) is None);
        first_member_counts(rest, i - 1);
    }
}

/// Only what states a status has one: a text, a number, a truth value and null
/// have none, and neither has an array or object whose parts have none.
pub proof fn nothing_else_has_a_status(
    json: JsonView,
    items: Seq<JsonView>,
    members: Seq<(Seq<char>, JsonView)>,
)
    ensures
        field(JsonView::Object(members), "httpStatusCode"@) is None && (forall|j: int|
            0 <= j < members.len() ==> status_in((#[trigger] members[j]).1) is None) ==> status_in(
            JsonView::Object(members),
        ) is None,
        json is Text || json is Number || json is Bool || json is Null ==> status_in(json) is None,
        (forall|j: int| 0 <= j < items.len() ==> status_in(#[trigger] items[j]) is None)
            ==> status_in(JsonView::Array(items)) is None,
{
    if forall|j: int| 0 <= j < items.len() ==> status_in(#[trigger] items[j]) is None {
        no_item_counts(items);
    }
    if forall|j: int| 0 <= j < members.len() ==> status_in((#[trigger] members[j]).1) is None {
        no_member_counts(members);
    }
}

proof fn no_member_counts(members: Seq<(Seq<char>, JsonView)>)
    requires
        forall|j: int| 0 <= j < members.len() ==> status_in((#[trigger] members[j]).1) is None,
    ensures
        status_in_members(members) is None,
    decreases members.len(),
{
    if members.len() > 0 {
        let rest = members.subrange(1, members.len() as int);
        assert forall|j: int| 0 <= j < rest.len() implies status_in((#[trigger] rest[j]).1)
            is None by {
            assert(rest[j] == members[j + 1]);
        }
        assert(status_in(members[0].1) is None);
        no_member_counts(rest);
    }
}

proof fn no_item_counts(items: Seq<JsonView>)
    requires
        forall|j: int| 0 <= j < items.len() ==> status_in(#[trigger] items[j]) is None,
    ensures
        status_in_items(items) is None,
    decreases items.len(),
{
    if items.len() > 0 {
        let rest = items.subrange(1, items.len() as int);
        assert forall|j: int| 0 <= j < rest.len() implies status_in(#[trigger] rest[j]) is None by {
            assert(rest[j] == items[j + 1]);
        }
        assert(status_in(items[0]) is None);
        no_item_counts(rest);
    }
}

/// Byte order marks and zero-width spaces count only where they stand at the
/// start, and there not at all; the words of what is left are what is compared.
pub proof fn marks_at_the_start_are_dropped(text: Seq<char>, mark: char)
    requires
        mark == '\u{feff}' || mark == '\u{200b}',
    ensures
        normalized(seq![mark] + text) == normalized(text),
        text.len() > 0 && text[0] != '\u{feff}' && text[0] != '\u{200b}' ==> without_marks(text)
            == text,
{
    let marked = seq![mark] + text;
    assert(marked.skip(1) =~= text);
    assert(without_marks(marked) == without_marks(text));
}

/// The reasons that the user reads: that of an error is its message, and the
/// others are fixed.
pub proof fn the_reasons_are_told(
    error: ErrorView,
    reply: Seq<char>,
    phrases: Seq<Seq<char>>,
    previous_empty_replies: u8,
    max_empty_replies: u8,
)
    ensures
        ({
            let end = |status: CompletedStatus, error: Option<ErrorView>|
                completion_decision(
                    status,
                    reply,
                    error,
                    phrases,
                    previous_empty_replies,
                    max_empty_replies,
                );
            let notice = "检测到 Codex 高需求提示；立即重试"@;
            &&& end(CompletedStatus::Interrupted, None) == DecisionView::Retryable(
                "当前任务已中断"@,
            )
            &&& end(CompletedStatus::InProgress, None) == DecisionView::WaitForInternalRetry(
                "Codex 仍在处理当前任务"@,
            )
            &&& end(CompletedStatus::Failed, None) == DecisionView::Pause(
                "任务失败，但 Codex 未提供错误信息"@,
            )
            &&& end(CompletedStatus::Completed, None) is Retryable && !blank(reply) ==> end(
                CompletedStatus::Completed,
                None,
            ) == DecisionView::Retryable("检测到 Codex 繁忙提示"@)
            &&& end(CompletedStatus::Completed, None) is RetryImmediatelyQuiet ==> end(
                CompletedStatus::Completed,
                None,
            ) == DecisionView::RetryImmediatelyQuiet(notice)
            &&& error_decision(error, phrases) is RetryImmediatelyQuiet ==> error_decision(
                error,
                phrases,
            ) == DecisionView::RetryImmediatelyQuiet(notice)
            &&& error_decision(error, phrases) is Pause ==> error_decision(error, phrases)
                == DecisionView::Pause(shown_reason(error))
            &&& notification_decision(error, true, phrases) is WaitForInternalRetry
                ==> notification_decision(error, true, phrases)
                == DecisionView::WaitForInternalRetry(shown_reason(error))
            &&& notification_decision(error, true, phrases) is WaitForInternalRetryQuiet
                ==> notification_decision(error, true, phrases)
                == DecisionView::WaitForInternalRetryQuiet(shown_reason(error))
            &&& notification_decision(error, true, phrases) is Pause ==> notification_decision(
                error,
                true,
                phrases,
            ) == DecisionView::Pause(shown_reason(error))
            &&& error_decision(error, phrases) is Retryable && error.codex_error_info is None
                && !names_status(wording(error), "429"@) && !names_status(wording(error), "502"@)
                && !names_status(wording(error), "503"@) && !names_status(wording(error), "504"@)
                ==> error_decision(error, phrases) == DecisionView::Retryable(shown_reason(error))
        }),
{
    wording_is_the_text(error);
    numerals();
    reveal(notification_decision);
    reveal(completion_decision);
}

/// An error is judged by what it says and what kind it is, and by nothing else:
/// capitals, spacing and the spelling of the kind make no difference.
pub proof fn alike_errors_are_judged_alike(
    left: ErrorView,
    right: ErrorView,
    phrases: Seq<Seq<char>>,
)
    requires
        wording(left) == wording(right),
        left.codex_error_info == right.codex_error_info,
    ensures
        is_for_the_user(left) == is_for_the_user(right),
        error_decision(left, phrases) is Pause == error_decision(right, phrases) is Pause,
        error_decision(left, phrases) is Retryable == error_decision(right, phrases) is Retryable,
        error_decision(left, phrases) is RetryImmediatelyQuiet == error_decision(right, phrases)
            is RetryImmediatelyQuiet,
{
    wording_is_the_text(left);
    wording_is_the_text(right);
}

} // verus!
