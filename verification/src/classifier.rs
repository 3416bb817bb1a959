//! What the end of a turn, or an error during one, means for the queue.

use vstd::prelude::*;

use crate::config::CURRENT_HIGH_DEMAND_PHRASE;
use crate::json::{copy_opt_json, field, u64_of, Json, JsonView};
use crate::text::{
    ascii_folded, ascii_lower, ascii_text, begins, blank, cat, cat3, contains, copy_opt, decimal,
    first_chars, folded_joined, folded_word, from_chars, is_blank, is_text, is_word, join, joined,
    joined_ascii, joined_words_stay, lower, lower_ascii, lowercase, number_text, occurs, opt,
    single_spaced, split_words, starts_with, take_chars, to_chars, trim, trimmed, views, words,
    words_are_words,
};

verus! {

/// How often Codex repeats a request by itself before it gives up.
pub const CODEX_INTERNAL_RETRY_LIMIT: u8 = 5;

/// An error that a turn reports.
#[derive(Debug)]
pub struct TurnError {
    pub message: String,
    pub additional_details: Option<String>,
    pub codex_error_info: Option<Json>,
}

/// The content of a [`TurnError`].
pub struct ErrorView {
    pub message: Seq<char>,
    pub additional_details: Option<Seq<char>>,
    pub codex_error_info: Option<JsonView>,
}

impl View for TurnError {
    type V = ErrorView;

    open spec fn view(&self) -> ErrorView {
        ErrorView {
            message: self.message@,
            additional_details: opt(self.additional_details),
            codex_error_info: opt(self.codex_error_info),
        }
    }
}

impl TurnError {
    /// A copy of the error.
    pub fn copy(&self) -> (r: TurnError)
        ensures
            r@ == self@,
    {
        TurnError {
            message: self.message.clone(),
            additional_details: copy_opt(&self.additional_details),
            codex_error_info: copy_opt_json(&self.codex_error_info),
        }
    }
}

impl Default for TurnError {
    fn default() -> (r: TurnError)
        ensures
            r@ == (ErrorView {
                message: Seq::empty(),
                additional_details: None,
                codex_error_info: None,
            }),
    {
        TurnError { message: String::new(), additional_details: None, codex_error_info: None }
    }
}

/// How a turn ended.
#[derive(Clone, Copy, Debug, PartialEq, Eq, Structural)]
pub enum CompletedStatus {
    Completed,
    Interrupted,
    Failed,
    InProgress,
}

/// What to do next, with the reason that the user is shown.
#[derive(Clone, Debug, PartialEq, Eq)]
pub enum TurnDecision {
    Success,
    Retryable(String),
    RetryImmediately(String),
    RetryImmediatelyQuiet(String),
    WaitForInternalRetry(String),
    WaitForInternalRetryQuiet(String),
    Pause(String),
}

/// The content of a [`TurnDecision`].
pub enum DecisionView {
    Success,
    Retryable(Seq<char>),
    RetryImmediately(Seq<char>),
    RetryImmediatelyQuiet(Seq<char>),
    WaitForInternalRetry(Seq<char>),
    WaitForInternalRetryQuiet(Seq<char>),
    Pause(Seq<char>),
}

impl View for TurnDecision {
    type V = DecisionView;

    open spec fn view(&self) -> DecisionView {
        match self {
            TurnDecision::Success => DecisionView::Success,
            TurnDecision::Retryable(reason) => DecisionView::Retryable(reason@),
            TurnDecision::RetryImmediately(reason) => DecisionView::RetryImmediately(reason@),
            TurnDecision::RetryImmediatelyQuiet(reason) => DecisionView::RetryImmediatelyQuiet(
                reason@,
            ),
            TurnDecision::WaitForInternalRetry(reason) => DecisionView::WaitForInternalRetry(
                reason@,
            ),
            TurnDecision::WaitForInternalRetryQuiet(reason) => DecisionView::WaitForInternalRetryQuiet(
                reason@),
            TurnDecision::Pause(reason) => DecisionView::Pause(reason@),
        }
    }
}

/// Whether a character is a byte order mark or a zero-width space.
pub open spec fn invisible_mark(c: char) -> bool {
    c == '\u{feff}' || c == '\u{200b}'
}

/// A text without the invisible marks at its start.
pub open spec fn without_marks(text: Seq<char>) -> Seq<char>
    decreases text.len(),
{
    if text.len() > 0 && invisible_mark(text[0]) {
        without_marks(text.skip(1))
    } else {
        text
    }
}

/// The form in which texts are compared: no invisible marks at the start,
/// single spaces between words, lower case.
pub open spec fn normalized(text: Seq<char>) -> Seq<char> {
    lowercase(spaced(text))
}

/// A text without invisible marks at the start and with single spaces between
/// its words.
pub open spec fn spaced(text: Seq<char>) -> Seq<char> {
    joined(words(without_marks(text)), " "@)
}

/// The form in which texts are compared.  That of an ASCII text has small
/// letters and single spaces between words alone, and is its own comparable form.
pub fn normalize_for_match(input: &str) -> (r: String)
    ensures
        r@ == normalized(input@),
        ascii_text(input@) ==> {
            &&& r@ == ascii_folded(spaced(input@))
            &&& single_spaced(r@)
            &&& lowercase(r@) == r@
            &&& normalized(r@) == r@
        },
{
    let chars = to_chars(input);
    let mut from: usize = 0;
    assert(chars@.skip(0) =~= input@);
    while from < chars.len() && (chars[from] == '\u{feff}' || chars[from] == '\u{200b}')
        invariant
            chars@ == input@,
            from <= chars@.len(),
            without_marks(chars@.skip(from as int)) == without_marks(input@),
        decreases chars.len() - from,
    {
        assert(chars@.skip(from as int).skip(1) =~= chars@.skip(from + 1));
        from = from + 1;
    }
    assert(chars@.subrange(from as int, chars@.len() as int) =~= chars@.skip(from as int));
    let rest = from_chars(&chars, from, chars.len());
    let line = join(&split_words(rest.as_str()), " ");
    proof {
        if ascii_text(input@) {
            spaced_ascii(input@);
        }
    }
    lower(line.as_str())
}

proof fn spaced_ascii(text: Seq<char>)
    requires
        ascii_text(text),
    ensures
        ascii_text(spaced(text)),
        single_spaced(ascii_folded(spaced(text))),
        spaced(ascii_folded(spaced(text))) == ascii_folded(spaced(text)),
{
    let parts = words(text);
    assert(without_marks(text) == text);
    words_are_words(text);
    assert forall|i: int| 0 <= i < parts.len() implies ascii_text(#[trigger] parts[i]) by {
        assert forall|j: int| 0 <= j < parts[i].len() implies (#[trigger] parts[i][j])
            < '\u{80}' by {
            assert(text.contains(parts[i][j]));
        }
    }
    joined_ascii(parts);
    folded_joined(parts);
    let folded = Seq::new(parts.len(), |i: int| ascii_folded(parts[i]));
    assert forall|i: int| 0 <= i < folded.len() implies is_word(#[trigger] folded[i]) by {
        folded_word(parts[i]);
    }
    joined_words_stay(folded);
    let once = joined(folded, " "@);
    if folded.len() > 0 {
        assert(is_word(parts[0]) && is_word(folded[0]));
        assert(ascii_text(parts[0]));
        assert(parts[0][0] < '\u{80}');
        assert(once[0] == ascii_lower(parts[0][0]));
    }
    assert(without_marks(once) == once);
}

/// Whether a reply begins with one of the phrases, all in comparable form; a
/// phrase without words counts for nothing.
pub open spec fn begins_with_phrase(reply: Seq<char>, phrases: Seq<Seq<char>>) -> bool {
    exists|i: int|
        0 <= i < phrases.len() && normalized(#[trigger] phrases[i]).len() > 0 && begins(
            normalized(reply),
            normalized(phrases[i]),
        )
}

/// Whether a comparable text holds one of the phrases.
pub open spec fn holds_phrase(text: Seq<char>, phrases: Seq<Seq<char>>) -> bool {
    exists|i: int|
        0 <= i < phrases.len() && normalized(#[trigger] phrases[i]).len() > 0 && occurs(
            text,
            normalized(phrases[i]),
        )
}

/// Whether a reply begins with one of the failure phrases.
pub fn starts_with_failure_phrase(reply: &str, failure_phrases: &Vec<String>) -> (r: bool)
    ensures
        r == begins_with_phrase(reply@, views(failure_phrases@)),
{
    let reply_text = normalize_for_match(reply);
    let ghost all = views(failure_phrases@);
    let mut i: usize = 0;
    while i < failure_phrases.len()
        invariant
            i <= failure_phrases@.len(),
            all == views(failure_phrases@),
            reply_text@ == normalized(reply@),
            forall|k: int|
                0 <= k < i ==> !(normalized(#[trigger] all[k]).len() > 0 && begins(
                    reply_text@,
                    normalized(all[k]),
                )),
        decreases failure_phrases.len() - i,
    {
        let phrase = normalize_for_match(failure_phrases[i].as_str());
        assert(all[i as int] == failure_phrases@[i as int]@);
        if !phrase.as_str().is_empty() && starts_with(reply_text.as_str(), phrase.as_str()) {
            return true;
        }
        i = i + 1;
    }
    false
}

fn error_contains_failure_phrase(normalized_error: &str, failure_phrases: &Vec<String>) -> (r: bool)
    ensures
        r == holds_phrase(normalized_error@, views(failure_phrases@)),
{
    let ghost all = views(failure_phrases@);
    let mut i: usize = 0;
    while i < failure_phrases.len()
        invariant
            i <= failure_phrases@.len(),
            all == views(failure_phrases@),
            forall|k: int|
                0 <= k < i ==> !(normalized(#[trigger] all[k]).len() > 0 && occurs(
                    normalized_error@,
                    normalized(all[k]),
                )),
        decreases failure_phrases.len() - i,
    {
        let phrase = normalize_for_match(failure_phrases[i].as_str());
        assert(all[i as int] == failure_phrases@[i as int]@);
        if !phrase.as_str().is_empty() && contains(normalized_error, phrase.as_str()) {
            return true;
        }
        i = i + 1;
    }
    false
}

/// An ASCII letter or digit.
pub open spec fn alphanumeric(c: char) -> bool {
    'a' <= c <= 'z' || 'A' <= c <= 'Z' || '0' <= c <= '9'
}

/// The form in which error kinds are compared: the ASCII letters and digits,
/// in lower case.
pub open spec fn identifier(text: Seq<char>) -> Seq<char>
    decreases text.len(),
{
    if text.len() == 0 {
        Seq::empty()
    } else if alphanumeric(text.last()) {
        identifier(text.drop_last()).push(ascii_lower(text.last()))
    } else {
        identifier(text.drop_last())
    }
}

fn normalize_identifier(input: &str) -> (r: String)
    ensures
        r@ == identifier(input@),
{
    let chars = to_chars(input);
    let mut out = String::new();
    let mut i: usize = 0;
    while i < chars.len()
        invariant
            i <= chars@.len(),
            out@ == identifier(chars@.take(i as int)),
        decreases chars.len() - i,
    {
        let c = chars[i];
        assert(chars@.take(i + 1).drop_last() =~= chars@.take(i as int));
        if ('a' <= c && c <= 'z') || ('A' <= c && c <= 'Z') || ('0' <= c && c <= '9') {
            out.push(lower_ascii(c));
        }
        i = i + 1;
    }
    assert(chars@.take(chars@.len() as int) =~= chars@);
    out
}

/// The kind of an error: the text that it is, or the name of its first member.
pub open spec fn error_kind(info: Option<JsonView>) -> Option<Seq<char>> {
    match info {
        Some(JsonView::Text(kind)) => Some(identifier(kind)),
        Some(JsonView::Object(members)) => if members.len() > 0 {
            Some(identifier(members[0].0))
        } else {
            None
        },
        _ => None,
    }
}

fn codex_error_kind(value: &Option<Json>) -> (r: Option<String>)
    ensures
        opt(r) == error_kind(opt(*value)),
{
    match value {
        Some(Json::Text(kind)) => Some(normalize_identifier(kind.as_str())),
        Some(Json::Object(members)) => {
            if members.len() > 0 {
                assert(opt(*value)->0->Object_0[0].0 == members@[0].0@);
                Some(normalize_identifier(members[0].0.as_str()))
            } else {
                None
            }
        },
        _ => None,
    }
}

/// The HTTP status that a document holds: its own member, or the first found
/// in its parts.  A status that is too large for 16 bits hides the parts.
pub open spec fn status_in(json: JsonView) -> Option<u16>
    decreases json,
{
    match json {
        JsonView::Object(members) => match own_status(json) {
            Some(status) => if status <= u16::MAX {
                Some(status as u16)
            } else {
                None
            },
            None => status_in_members(members),
        },
        JsonView::Array(items) => status_in_items(items),
        _ => None,
    }
}

/// The status that an object states itself.
pub open spec fn own_status(json: JsonView) -> Option<u64> {
    match field(json, "httpStatusCode"@) {
        Some(value) => u64_of(value),
        None => None,
    }
}

/// The first status found in the members of an object.
pub open spec fn status_in_members(members: Seq<(Seq<char>, JsonView)>) -> Option<u16>
    decreases members,
{
    if members.len() == 0 {
        None
    } else {
        match status_in(members[0].1) {
            Some(status) => Some(status),
            None => status_in_members(members.subrange(1, members.len() as int)),
        }
    }
}

/// The first status found in the items of an array.
pub open spec fn status_in_items(items: Seq<JsonView>) -> Option<u16>
    decreases items,
{
    if items.len() == 0 {
        None
    } else {
        match status_in(items[0]) {
            Some(status) => Some(status),
            None => status_in_items(items.subrange(1, items.len() as int)),
        }
    }
}

fn find_http_status_code(value: &Json) -> (r: Option<u16>)
    ensures
        r == status_in(value@),
    decreases value,
{
    match value {
        Json::Object(members) => {
            if let Some(status) = value.get("httpStatusCode") {
                if let Some(status) = status.as_u64() {
                    if status <= 65535 {
                        return Some(status as u16);
                    }
                    return None;
                }
            }
            let ghost all = value@->Object_0;
            assert(all.subrange(0, all.len() as int) =~= all);
            let mut i: usize = 0;
            while i < members.len()
                invariant
                    *value == Json::Object(*members),
                    value@ == JsonView::Object(all),
                    all.len() == members@.len(),
                    forall|k: int| 0 <= k < all.len() ==> (#[trigger] all[k]).1 == members@[k].1@,
                    i <= members@.len(),
                    status_in(value@) == status_in_members(all.subrange(i as int, all.len() as int)),
                decreases members.len() - i,
            {
                let ghost rest = all.subrange(i as int, all.len() as int);
                assert(rest.subrange(1, rest.len() as int) =~= all.subrange(i + 1, all.len() as int));
                assert(rest[0] == all[i as int]);
                assert(decreases_to!(*value => value->Object_0));
                assert(decreases_to!(members => members@));
                assert(decreases_to!(members@ => members@[i as int]));
                assert(decreases_to!(members@[i as int] => members@[i as int].1));
                let found = find_http_status_code(&members[i].1);
                if found.is_some() {
                    return found;
                }
                i = i + 1;
            }
            None
        },
        Json::Array(items) => {
            let ghost all = value@->Array_0;
            assert(all.subrange(0, all.len() as int) =~= all);
            let mut i: usize = 0;
            while i < items.len()
                invariant
                    *value == Json::Array(*items),
                    value@ == JsonView::Array(all),
                    all.len() == items@.len(),
                    forall|k: int| 0 <= k < all.len() ==> #[trigger] all[k] == items@[k]@,
                    i <= items@.len(),
                    status_in(value@) == status_in_items(all.subrange(i as int, all.len() as int)),
                decreases items.len() - i,
            {
                let ghost rest = all.subrange(i as int, all.len() as int);
                assert(rest.subrange(1, rest.len() as int) =~= all.subrange(i + 1, all.len() as int));
                assert(rest[0] == all[i as int]);
                assert(decreases_to!(*value => value->Array_0));
                assert(decreases_to!(items => items@));
                assert(decreases_to!(items@ => items@[i as int]));
                let found = find_http_status_code(&items[i]);
                if found.is_some() {
                    return found;
                }
                i = i + 1;
            }
            None
        },
        _ => None,
    }
}

/// Whether a comparable text speaks of an HTTP status.
pub open spec fn mentions_status(text: Seq<char>, status: u16) -> bool {
    let numeral = decimal(status as nat);
    ||| occurs(text, "http "@ + numeral)
    ||| occurs(text, "http status "@ + numeral)
    ||| occurs(text, "status "@ + numeral)
    ||| occurs(text, "status code "@ + numeral)
}

/// The first transient HTTP status of which a comparable text speaks.
pub open spec fn status_in_text(text: Seq<char>) -> Option<u16> {
    if mentions_status(text, 429) {
        Some(429u16)
    } else if mentions_status(text, 502) {
        Some(502u16)
    } else if mentions_status(text, 503) {
        Some(503u16)
    } else if mentions_status(text, 504) {
        Some(504u16)
    } else {
        None
    }
}

fn text_mentions_status(text: &str, status: u16) -> (r: bool)
    ensures
        r == mentions_status(text@, status),
{
    let numeral = number_text(status as u64);
    contains(text, cat("http ", numeral.as_str()).as_str()) || contains(
        text,
        cat("http status ", numeral.as_str()).as_str(),
    ) || contains(text, cat("status ", numeral.as_str()).as_str()) || contains(
        text,
        cat("status code ", numeral.as_str()).as_str(),
    )
}

fn find_http_status_in_text(normalized: &str) -> (r: Option<u16>)
    ensures
        r == status_in_text(normalized@),
{
    if text_mentions_status(normalized, 429) {
        Some(429)
    } else if text_mentions_status(normalized, 502) {
        Some(502)
    } else if text_mentions_status(normalized, 503) {
        Some(503)
    } else if text_mentions_status(normalized, 504) {
        Some(504)
    } else {
        None
    }
}

/// The text of an error: its message and its details.
pub open spec fn error_words(error: ErrorView) -> Seq<char> {
    error.message + " "@ + (match error.additional_details {
        Some(details) => details,
        None => Seq::empty(),
    })
}

fn error_text(error: &TurnError) -> (r: String)
    ensures
        r@ == error_words(error@),
{
    let mut out = error.message.clone();
    out.push_str(" ");
    match &error.additional_details {
        Some(details) => {
            out.push_str(details.as_str());
        },
        None => {
            assert(out@ + Seq::<char>::empty() =~= out@);
        },
    }
    out
}

/// The kinds of error that no retry can mend.
pub open spec fn fatal_kind(kind: Option<Seq<char>>) -> bool {
    ||| kind == Some("unauthorized"@)
    ||| kind == Some("usagelimitexceeded"@)
    ||| kind == Some("sessionbudgetexceeded"@)
    ||| kind == Some("cyberpolicy"@)
    ||| kind == Some("badrequest"@)
    ||| kind == Some("threadrollbackfailed"@)
    ||| kind == Some("sandboxerror"@)
    ||| kind == Some("contextwindowexceeded"@)
}

/// The texts that speak of an error that no retry can mend.
pub open spec fn fatal_text(text: Seq<char>) -> bool {
    ||| occurs(text, "unauthorized"@)
    ||| occurs(text, "not logged in"@)
    ||| occurs(text, "authentication required"@)
    ||| occurs(text, "quota exhausted"@)
    ||| occurs(text, "usage limit exceeded"@)
    ||| occurs(text, "insufficient credits"@)
    ||| occurs(text, "invalid configuration"@)
    ||| occurs(text, "policy refusal"@)
    ||| occurs(text, "policy rejected"@)
}

/// The texts that speak of a broken connection.
pub open spec fn connection_text(text: Seq<char>) -> bool {
    ||| occurs(text, "stream disconnected before completion"@)
    ||| occurs(text, "error sending request for url"@)
    ||| occurs(text, "response stream disconnected"@)
    ||| occurs(text, "connection closed before message completed"@)
    ||| occurs(text, "connection reset by peer"@)
    ||| occurs(text, "connection prematurely closed"@)
}

/// Whether no retry can mend an error.
pub open spec fn fatal(error: ErrorView) -> bool {
    fatal_kind(error_kind(error.codex_error_info)) || fatal_text(normalized(error_words(error)))
}

/// Whether a text holds the notice of high demand.
pub open spec fn holds_high_demand(text: Seq<char>) -> bool {
    occurs(normalized(text), normalized(CURRENT_HIGH_DEMAND_PHRASE@))
}

/// Whether a text begins with the notice of high demand.
pub open spec fn begins_with_high_demand(text: Seq<char>) -> bool {
    begins(normalized(text), normalized(CURRENT_HIGH_DEMAND_PHRASE@))
}

fn contains_fatal_text(normalized: &str) -> (r: bool)
    ensures
        r == fatal_text(normalized@),
{
    contains(normalized, "unauthorized") || contains(normalized, "not logged in") || contains(
        normalized,
        "authentication required",
    ) || contains(normalized, "quota exhausted") || contains(normalized, "usage limit exceeded")
        || contains(normalized, "insufficient credits") || contains(
        normalized,
        "invalid configuration",
    ) || contains(normalized, "policy refusal") || contains(normalized, "policy rejected")
}

fn contains_retryable_transport_text(normalized: &str) -> (r: bool)
    ensures
        r == connection_text(normalized@),
{
    contains(normalized, "stream disconnected before completion") || contains(
        normalized,
        "error sending request for url",
    ) || contains(normalized, "response stream disconnected") || contains(
        normalized,
        "connection closed before message completed",
    ) || contains(normalized, "connection reset by peer") || contains(
        normalized,
        "connection prematurely closed",
    )
}

fn is_fatal_error_with_normalized(kind: &Option<String>, normalized: &str) -> (r: bool)
    ensures
        r == (fatal_kind(opt(*kind)) || fatal_text(normalized@)),
{
    is_text(kind, "unauthorized") || is_text(kind, "usagelimitexceeded") || is_text(
        kind,
        "sessionbudgetexceeded",
    ) || is_text(kind, "cyberpolicy") || is_text(kind, "badrequest") || is_text(
        kind,
        "threadrollbackfailed",
    ) || is_text(kind, "sandboxerror") || is_text(kind, "contextwindowexceeded")
        || contains_fatal_text(normalized)
}

fn is_fatal_error(error: &TurnError) -> (r: bool)
    ensures
        r == fatal(error@),
{
    let kind = codex_error_kind(&error.codex_error_info);
    let normalized_text = normalize_for_match(error_text(error).as_str());
    is_fatal_error_with_normalized(&kind, normalized_text.as_str())
}

fn contains_current_high_demand_notice(input: &str) -> (r: bool)
    ensures
        r == holds_high_demand(input@),
{
    contains(
        normalize_for_match(input).as_str(),
        normalize_for_match(CURRENT_HIGH_DEMAND_PHRASE).as_str(),
    )
}

fn starts_with_current_high_demand_notice(input: &str) -> (r: bool)
    ensures
        r == begins_with_high_demand(input@),
{
    starts_with(
        normalize_for_match(input).as_str(),
        normalize_for_match(CURRENT_HIGH_DEMAND_PHRASE).as_str(),
    )
}

/// The reason that the user is shown for an error: at most 240 characters of
/// its message.
pub open spec fn shown_reason(error: ErrorView) -> Seq<char> {
    if trimmed(error.message).len() == 0 {
        "Codex 返回了未说明原因的错误"@
    } else {
        first_chars(trimmed(error.message), 240)
    }
}

fn redact_error_reason(error: &TurnError) -> (r: String)
    ensures
        r@ == shown_reason(error@),
{
    let summary = trim(error.message.as_str());
    if summary.as_str().is_empty() {
        "Codex 返回了未说明原因的错误".to_owned()
    } else {
        take_chars(summary.as_str(), 240)
    }
}

/// The HTTP status of an error: from its structure, else from its text.
pub open spec fn error_status(error: ErrorView) -> Option<u16> {
    let structured = match error.codex_error_info {
        Some(info) => status_in(info),
        None => None,
    };
    match structured {
        Some(status) => Some(status),
        None => status_in_text(normalized(error_words(error))),
    }
}

/// Whether an HTTP status is one that passes by itself.
pub open spec fn transient_status(status: Option<u16>) -> bool {
    status == Some(429u16) || status == Some(502u16) || status == Some(503u16) || status == Some(
        504u16,
    )
}

/// Whether the servers were overloaded, by kind, text or one of the user's phrases.
pub open spec fn overloaded(error: ErrorView, phrases: Seq<Seq<char>>) -> bool {
    let kind = error_kind(error.codex_error_info);
    let text = normalized(error_words(error));
    ||| kind == Some("serveroverloaded"@)
    ||| kind == Some("internalservererror"@)
    ||| occurs(text, "server overloaded"@)
    ||| holds_phrase(text, phrases)
}

/// Whether the connection broke, by kind or text.
pub open spec fn connection_broke(error: ErrorView) -> bool {
    let kind = error_kind(error.codex_error_info);
    let text = normalized(error_words(error));
    ||| kind == Some("httpconnectionfailed"@)
    ||| kind == Some("responsestreamconnectionfailed"@)
    ||| kind == Some("responsestreamdisconnected"@)
    ||| kind == Some("responsetoomanyfailedattempts"@)
    ||| connection_text(text)
}

/// What an error that ended a turn means.  What no retry can mend wins over
/// every other sign.
pub open spec fn error_decision(error: ErrorView, phrases: Seq<Seq<char>>) -> DecisionView {
    if fatal(error) {
        DecisionView::Pause(shown_reason(error))
    } else if holds_high_demand(normalized(error_words(error))) {
        DecisionView::RetryImmediatelyQuiet("检测到 Codex 高需求提示；立即重试"@)
    } else if transient_status(error_status(error)) {
        DecisionView::Retryable("临时 HTTP 状态码 "@ + decimal(error_status(error)->0 as nat))
    } else if overloaded(error, phrases) || connection_broke(error) {
        DecisionView::Retryable(shown_reason(error))
    } else {
        DecisionView::Pause(shown_reason(error))
    }
}

fn classify_error(error: &TurnError, failure_phrases: &Vec<String>) -> (r: TurnDecision)
    ensures
        r@ == error_decision(error@, views(failure_phrases@)),
{
    let kind = codex_error_kind(&error.codex_error_info);
    let text = normalize_for_match(error_text(error).as_str());
    let structured: Option<u16> = match &error.codex_error_info {
        Some(info) => find_http_status_code(info),
        None => None,
    };
    let http_status: Option<u16> = match structured {
        Some(status) => Some(status),
        None => find_http_status_in_text(text.as_str()),
    };
    if is_fatal_error_with_normalized(&kind, text.as_str()) {
        return TurnDecision::Pause(redact_error_reason(error));
    }
    if contains_current_high_demand_notice(text.as_str()) {
        return TurnDecision::RetryImmediatelyQuiet(
            "检测到 Codex 高需求提示；立即重试".to_owned(),
        );
    }
    if let Some(status) = http_status {
        if status == 429 || status == 502 || status == 503 || status == 504 {
            return TurnDecision::Retryable(
                cat("临时 HTTP 状态码 ", number_text(status as u64).as_str()),
            );
        }
    }
    if is_text(&kind, "serveroverloaded") || is_text(&kind, "internalservererror") || contains(
        text.as_str(),
        "server overloaded",
    ) || error_contains_failure_phrase(text.as_str(), failure_phrases) {
        return TurnDecision::Retryable(redact_error_reason(error));
    }
    if is_text(&kind, "httpconnectionfailed") || is_text(&kind, "responsestreamconnectionfailed")
        || is_text(&kind, "responsestreamdisconnected") || is_text(
        &kind,
        "responsetoomanyfailedattempts",
    ) || contains_retryable_transport_text(text.as_str()) {
        return TurnDecision::Retryable(redact_error_reason(error));
    }
    TurnDecision::Pause(redact_error_reason(error))
}

/// What an error that Codex reports during a turn means.
#[verifier::opaque]
pub open spec fn notification_decision(
    error: ErrorView,
    will_retry: bool,
    phrases: Seq<Seq<char>>,
) -> DecisionView {
    if fatal(error) {
        DecisionView::Pause(shown_reason(error))
    } else if will_retry {
        if holds_high_demand(error_words(error)) {
            DecisionView::WaitForInternalRetryQuiet(shown_reason(error))
        } else {
            DecisionView::WaitForInternalRetry(shown_reason(error))
        }
    } else if error_kind(error.codex_error_info) == Some("responsetoomanyfailedattempts"@) {
        DecisionView::RetryImmediately(
            "Codex 内部 "@ + decimal(CODEX_INTERNAL_RETRY_LIMIT as nat) + " 次重试已耗尽"@,
        )
    } else {
        error_decision(error, phrases)
    }
}

/// Decides what an error that Codex reports during a turn means.
pub fn classify_error_notification(
    error: &TurnError,
    will_retry: bool,
    failure_phrases: &Vec<String>,
) -> (r: TurnDecision)
    ensures
        r@ == notification_decision(error@, will_retry, views(failure_phrases@)),
{
    reveal(notification_decision);
    if is_fatal_error(error) {
        return TurnDecision::Pause(redact_error_reason(error));
    }
    if will_retry {
        if contains_current_high_demand_notice(error_text(error).as_str()) {
            return TurnDecision::WaitForInternalRetryQuiet(redact_error_reason(error));
        }
        return TurnDecision::WaitForInternalRetry(redact_error_reason(error));
    }
    let kind = codex_error_kind(&error.codex_error_info);
    if is_text(&kind, "responsetoomanyfailedattempts") {
        return TurnDecision::RetryImmediately(
            cat3(
                "Codex 内部 ",
                number_text(CODEX_INTERNAL_RETRY_LIMIT as u64).as_str(),
                " 次重试已耗尽",
            ),
        );
    }
    classify_error(error, failure_phrases)
}

/// What the end of a turn means.
#[verifier::opaque]
pub open spec fn completion_decision(
    status: CompletedStatus,
    final_reply: Seq<char>,
    error: Option<ErrorView>,
    phrases: Seq<Seq<char>>,
    previous_empty_replies: u8,
    max_empty_replies: u8,
) -> DecisionView {
    match status {
        CompletedStatus::InProgress => DecisionView::WaitForInternalRetry(
            "Codex 仍在处理当前任务"@,
        ),
        CompletedStatus::Interrupted => DecisionView::Retryable("当前任务已中断"@),
        CompletedStatus::Failed => match error {
            Some(error) => error_decision(error, phrases),
            None => DecisionView::Pause("任务失败，但 Codex 未提供错误信息"@),
        },
        CompletedStatus::Completed => if blank(final_reply) {
            if previous_empty_replies < max_empty_replies {
                DecisionView::Retryable(
                    "Codex 返回空回复（"@ + decimal((previous_empty_replies + 1) as nat) + "/"@
                        + decimal(max_empty_replies as nat) + "）"@,
                )
            } else {
                DecisionView::Pause(
                    "连续收到 "@ + decimal(max_empty_replies as nat) + " 次空回复，请人工检查"@,
                )
            }
        } else if begins_with_high_demand(final_reply) {
            DecisionView::RetryImmediatelyQuiet("检测到 Codex 高需求提示；立即重试"@)
        } else if begins_with_phrase(final_reply, phrases) {
            DecisionView::Retryable("检测到 Codex 繁忙提示"@)
        } else {
            DecisionView::Success
        },
    }
}

/// Decides what the end of a turn means.
pub fn classify_turn_completion(
    status: CompletedStatus,
    final_reply: &str,
    error: Option<&TurnError>,
    failure_phrases: &Vec<String>,
    previous_empty_replies: u8,
    max_empty_replies: u8,
) -> (r: TurnDecision)
    ensures
        r@ == completion_decision(
            status,
            final_reply@,
            opt(error),
            views(failure_phrases@),
            previous_empty_replies,
            max_empty_replies,
        ),
{
    reveal(completion_decision);
    match status {
        CompletedStatus::InProgress => TurnDecision::WaitForInternalRetry(
            "Codex 仍在处理当前任务".to_owned(),
        ),
        CompletedStatus::Interrupted => TurnDecision::Retryable("当前任务已中断".to_owned()),
        CompletedStatus::Failed => match error {
            Some(error) => classify_error(error, failure_phrases),
            None => TurnDecision::Pause("任务失败，但 Codex 未提供错误信息".to_owned()),
        },
        CompletedStatus::Completed => {
            if is_blank(final_reply) {
                if previous_empty_replies < max_empty_replies {
                    let mut reason = cat3(
                        "Codex 返回空回复（",
                        number_text((previous_empty_replies + 1) as u64).as_str(),
                        "/",
                    );
                    reason.push_str(number_text(max_empty_replies as u64).as_str());
                    reason.push_str("）");
                    TurnDecision::Retryable(reason)
                } else {
                    TurnDecision::Pause(
                        cat3(
                            "连续收到 ",
                            number_text(max_empty_replies as u64).as_str(),
                            " 次空回复，请人工检查",
                        ),
                    )
                }
            } else if starts_with_current_high_demand_notice(final_reply) {
                TurnDecision::RetryImmediatelyQuiet(
                    "检测到 Codex 高需求提示；立即重试".to_owned(),
                )
            } else if starts_with_failure_phrase(final_reply, failure_phrases) {
                TurnDecision::Retryable("检测到 Codex 繁忙提示".to_owned())
            } else {
                TurnDecision::Success
            }
        },
    }
}

/// The reason that a decision carries.
pub open spec fn decision_reason(decision: DecisionView) -> Seq<char> {
    match decision {
        DecisionView::Success => Seq::empty(),
        DecisionView::Retryable(reason) => reason,
        DecisionView::RetryImmediately(reason) => reason,
        DecisionView::RetryImmediatelyQuiet(reason) => reason,
        DecisionView::WaitForInternalRetry(reason) => reason,
        DecisionView::WaitForInternalRetryQuiet(reason) => reason,
        DecisionView::Pause(reason) => reason,
    }
}

/// Authentication, quota and policy failures pause the queue, whatever HTTP
/// status, user phrase or announced retry comes with them.
pub proof fn fatal_errors_always_pause(
    error: ErrorView,
    will_retry: bool,
    phrases: Seq<Seq<char>>,
    reply: Seq<char>,
    previous_empty_replies: u8,
    max_empty_replies: u8,
)
    requires
        fatal(error),
    ensures
        notification_decision(error, will_retry, phrases) == DecisionView::Pause(
            shown_reason(error),
        ),
        completion_decision(
            CompletedStatus::Failed,
            reply,
            Some(error),
            phrases,
            previous_empty_replies,
            max_empty_replies,
        ) == DecisionView::Pause(shown_reason(error)),
{
    reveal(notification_decision);
    reveal(completion_decision);
}

/// While Codex announces that it retries by itself, the queue waits or pauses:
/// it never submits the task again.
pub proof fn announced_retries_are_left_to_codex(error: ErrorView, phrases: Seq<Seq<char>>)
    ensures
        ({
            let decision = notification_decision(error, true, phrases);
            decision is WaitForInternalRetry || decision is WaitForInternalRetryQuiet
                || decision is Pause
        }),
{
    reveal(notification_decision);
    reveal(completion_decision);
}

/// A turn counts as a success exactly when it completed with a reply that is
/// not blank and begins neither with the notice of high demand nor with a
/// failure phrase.
pub proof fn success_is_a_real_reply(
    status: CompletedStatus,
    final_reply: Seq<char>,
    error: Option<ErrorView>,
    phrases: Seq<Seq<char>>,
    previous_empty_replies: u8,
    max_empty_replies: u8,
)
    ensures
        completion_decision(
            status,
            final_reply,
            error,
            phrases,
            previous_empty_replies,
            max_empty_replies,
        ) is Success <==> {
            &&& status == CompletedStatus::Completed
            &&& !blank(final_reply)
            &&& !begins_with_high_demand(final_reply)
            &&& !begins_with_phrase(final_reply, phrases)
        },
{
    reveal(notification_decision);
    reveal(completion_decision);
}

/// No error, however long its message, makes a reason of more than 240 characters.
pub proof fn error_reasons_are_short(error: ErrorView, will_retry: bool, phrases: Seq<Seq<char>>)
    ensures
        decision_reason(notification_decision(error, will_retry, phrases)).len() <= 240,
        decision_reason(error_decision(error, phrases)).len() <= 240,
{
    reveal(notification_decision);
    reveal(completion_decision);
    reveal_strlit("Codex 返回了未说明原因的错误");
    reveal_strlit("检测到 Codex 高需求提示；立即重试");
    reveal_strlit("临时 HTTP 状态码 ");
    reveal_strlit("Codex 内部 ");
    reveal_strlit(" 次重试已耗尽");
    reveal_with_fuel(decimal, 4);
}

/// Replies that differ only in how their words are spaced, and in invisible
/// marks at the start, are matched against the failure phrases alike.
pub proof fn spacing_does_not_matter(left: Seq<char>, right: Seq<char>, phrases: Seq<Seq<char>>)
    requires
        words(without_marks(left)) == words(without_marks(right)),
    ensures
        begins_with_phrase(left, phrases) == begins_with_phrase(right, phrases),
        begins_with_high_demand(left) == begins_with_high_demand(right),
{
}

/// An error with one of the HTTP statuses of overload is retried after a while,
/// unless no retry can mend it or the notice of high demand comes with it.
pub proof fn overload_statuses_are_retried(
    error: ErrorView,
    phrases: Seq<Seq<char>>,
    status: u16,
)
    requires
        !fatal(error),
        !holds_high_demand(normalized(error_words(error))),
        error_status(error) == Some(status),
        status == 429 || status == 502 || status == 503 || status == 504,
    ensures
        error_decision(error, phrases) == DecisionView::Retryable(
            "临时 HTTP 状态码 "@ + decimal(status as nat),
        ),
{
}

/// Where Codex has given up by itself, a new round begins, whatever the message
/// says, unless no retry can mend the error.
pub proof fn exhausted_retries_begin_a_new_round(error: ErrorView, phrases: Seq<Seq<char>>)
    requires
        !fatal(error),
        error_kind(error.codex_error_info) == Some("responsetoomanyfailedattempts"@),
    ensures
        notification_decision(error, false, phrases) is RetryImmediately,
{
    reveal(notification_decision);
}

/// A completed turn without a reply is tried again until as many have come in a
/// row as the user allows; the next one makes the queue rest.
pub proof fn empty_replies_are_retried_up_to_the_limit(
    final_reply: Seq<char>,
    error: Option<ErrorView>,
    phrases: Seq<Seq<char>>,
    previous_empty_replies: u8,
    max_empty_replies: u8,
)
    requires
        blank(final_reply),
    ensures
        ({
            let decision = completion_decision(
                CompletedStatus::Completed,
                final_reply,
                error,
                phrases,
                previous_empty_replies,
                max_empty_replies,
            );
            &&& decision is Retryable <==> previous_empty_replies < max_empty_replies
            &&& decision is Pause <==> previous_empty_replies >= max_empty_replies
        }),
{
    reveal(completion_decision);
}

/// Before its letters are lowered, the comparable form has no white space but
/// single spaces between words, and its words are those of the text; where the
/// text has no invisible mark, spacing it again changes nothing.
pub proof fn spacing_is_settled(text: Seq<char>)
    ensures
        single_spaced(spaced(text)),
        words(spaced(text)) == words(without_marks(text)),
        (forall|i: int| 0 <= i < text.len() ==> !invisible_mark(#[trigger] text[i])) ==> spaced(
            spaced(text),
        ) == spaced(text),
{
    let bare = without_marks(text);
    let once = spaced(text);
    words_are_words(bare);
    joined_words_stay(words(bare));
    if forall|i: int| 0 <= i < text.len() ==> !invisible_mark(#[trigger] text[i]) {
        assert(bare == text);
        if words(bare).len() > 0 {
            assert(is_word(words(bare)[0]));
            assert(bare.contains(words(bare)[0][0]));
        }
        assert(without_marks(once) == once);
    }
}

} // verus!
