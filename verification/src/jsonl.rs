//! Incremental reading of session files that hold one JSON record per line.
//!
//! Such a file mostly grows at its end, but it can be rotated or rewritten while
//! it is read.  A [`JsonlTailer`] keeps an offset and an unfinished line, starts
//! over when the file was replaced, and hands out each record once.

use vstd::prelude::*;

use crate::digest::{digest_text, hex, sha256};
use crate::json::{encoded, error_text, parse, parsed, refusal, text_field, Json, JsonView};
use crate::text::{cat, cat3, number_text, decimal, opt, same, views};

verus! {

/// A record of a session file, with the key by which it is told apart.
#[derive(Debug)]
pub struct JsonlRecord {
    pub key: String,
    pub value: Json,
}

/// The content of a [`JsonlRecord`].
pub struct RecordView {
    pub key: Seq<char>,
    pub value: JsonView,
}

impl View for JsonlRecord {
    type V = RecordView;

    open spec fn view(&self) -> RecordView {
        RecordView { key: self.key@, value: self.value@ }
    }
}

/// What can go wrong with a session file.
#[derive(Clone, Debug, PartialEq, Eq)]
pub enum JsonlError {
    Metadata { path: String, source: String },
    Open { path: String, source: String },
    Read { path: String, source: String },
    Json { offset: u64, source: String },
    Watch(String),
}

impl JsonlError {
    /// The text of the error.
    pub open spec fn text(self) -> Seq<char> {
        match self {
            JsonlError::Metadata { path, source } => "failed to inspect JSONL session "@ + path@
                + ": "@ + source@,
            JsonlError::Open { path, source } => "failed to open JSONL session "@ + path@ + ": "@
                + source@,
            JsonlError::Read { path, source } => "failed to read JSONL session "@ + path@ + ": "@
                + source@,
            JsonlError::Json { offset, source } => "invalid JSONL record at byte "@ + decimal(
                offset as nat,
            ) + ": "@ + source@,
            JsonlError::Watch(text) => "failed to watch JSONL session: "@ + text@,
        }
    }

    /// The text of the error.
    pub fn message(&self) -> (r: String)
        ensures
            r@ == self.text(),
    {
        match self {
            JsonlError::Metadata { path, source } => {
                let mut out = cat3("failed to inspect JSONL session ", path.as_str(), ": ");
                out.push_str(source.as_str());
                out
            },
            JsonlError::Open { path, source } => {
                let mut out = cat3("failed to open JSONL session ", path.as_str(), ": ");
                out.push_str(source.as_str());
                out
            },
            JsonlError::Read { path, source } => {
                let mut out = cat3("failed to read JSONL session ", path.as_str(), ": ");
                out.push_str(source.as_str());
                out
            },
            JsonlError::Json { offset, source } => {
                let mut out = cat3(
                    "invalid JSONL record at byte ",
                    number_text(*offset).as_str(),
                    ": ",
                );
                out.push_str(source.as_str());
                out
            },
            JsonlError::Watch(text) => cat("failed to watch JSONL session: ", text.as_str()),
        }
    }
}

/// The byte that ends a line.
pub const NEWLINE: u8 = 10;

/// A complete line, without the byte that ends it, and where that byte stands.
pub struct LineView {
    pub content: Seq<u8>,
    pub end: int,
}

/// Where the first line ends; the length where none does.
pub open spec fn line_end(bytes: Seq<u8>) -> int
    decreases bytes.len(),
{
    if bytes.len() == 0 || bytes[0] == NEWLINE {
        0
    } else {
        1 + line_end(bytes.subrange(1, bytes.len() as int))
    }
}

/// The complete lines of some bytes; `base` is where the bytes begin.
pub open spec fn complete_lines(bytes: Seq<u8>, base: int) -> Seq<LineView>
    decreases bytes.len(),
{
    let end = line_end(bytes);
    if 0 <= end < bytes.len() {
        seq![LineView { content: bytes.take(end), end: base + end }] + complete_lines(
            bytes.skip(end + 1),
            base + end + 1,
        )
    } else {
        Seq::empty()
    }
}

/// What follows the last complete line.
pub open spec fn unfinished(bytes: Seq<u8>) -> Seq<u8>
    decreases bytes.len(),
{
    let end = line_end(bytes);
    if 0 <= end < bytes.len() {
        unfinished(bytes.skip(end + 1))
    } else {
        bytes
    }
}

/// Whether some bytes hold the end of a line.
pub open spec fn has_newline(bytes: Seq<u8>) -> bool {
    exists|i: int| 0 <= i < bytes.len() && bytes[i] == NEWLINE
}

proof fn line_end_is_first(bytes: Seq<u8>)
    ensures
        0 <= line_end(bytes) <= bytes.len(),
        line_end(bytes) < bytes.len() ==> bytes[line_end(bytes)] == NEWLINE,
        forall|i: int| 0 <= i < line_end(bytes) ==> bytes[i] != NEWLINE,
        has_newline(bytes) == (line_end(bytes) < bytes.len()),
    decreases bytes.len(),
{
    if bytes.len() > 0 && bytes[0] != NEWLINE {
        let rest = bytes.subrange(1, bytes.len() as int);
        line_end_is_first(rest);
        assert forall|i: int| 0 <= i < line_end(bytes) implies bytes[i] != NEWLINE by {
            if i > 0 {
                assert(bytes[i] == rest[i - 1]);
            }
        }
        if has_newline(bytes) {
            let i = choose|i: int| 0 <= i < bytes.len() && bytes[i] == NEWLINE;
            assert(rest[i - 1] == NEWLINE);
        }
    }
}

proof fn line_end_at(bytes: Seq<u8>, at: int)
    requires
        0 <= at <= bytes.len(),
        forall|i: int| 0 <= i < at ==> bytes[i] != NEWLINE,
        at < bytes.len() ==> bytes[at] == NEWLINE,
    ensures
        line_end(bytes) == at,
{
    line_end_is_first(bytes);
    if line_end(bytes) < at {
        assert(bytes[line_end(bytes)] == NEWLINE);
    } else if line_end(bytes) > at {
        assert(bytes[at] == NEWLINE);
    }
}

/// What is left over holds no end of a line.
pub proof fn unfinished_has_no_newline(bytes: Seq<u8>)
    ensures
        !has_newline(unfinished(bytes)),
    decreases bytes.len(),
{
    line_end_is_first(bytes);
    if line_end(bytes) < bytes.len() {
        unfinished_has_no_newline(bytes.skip(line_end(bytes) + 1));
    }
}

/// Bytes without the end of a line are left over whole.
pub proof fn unfinished_of_no_newline(bytes: Seq<u8>)
    requires
        !has_newline(bytes),
    ensures
        unfinished(bytes) == bytes,
        complete_lines(bytes, 0).len() == 0,
{
    line_end_is_first(bytes);
}

/// What is left over does not depend on what stands before the last end of a line.
pub proof fn unfinished_of_suffix(before: Seq<u8>, after: Seq<u8>)
    requires
        has_newline(after),
    ensures
        unfinished(before + after) == unfinished(after),
    decreases before.len(),
{
    let whole = before + after;
    line_end_is_first(whole);
    line_end_is_first(after);
    if before.len() == 0 {
        assert(whole =~= after);
    } else {
        let at = choose|i: int| 0 <= i < after.len() && after[i] == NEWLINE;
        assert(whole[before.len() + at] == NEWLINE);
        let end = line_end(whole);
        if end < before.len() {
            assert(whole.skip(end + 1) =~= before.skip(end + 1) + after);
            unfinished_of_suffix(before.skip(end + 1), after);
        } else {
            assert forall|i: int| 0 <= i < end - before.len() implies after[i] != NEWLINE by {
                assert(whole[before.len() + i] == after[i]);
            }
            line_end_at(after, end - before.len());
            assert(whole.skip(end + 1) =~= after.skip(line_end(after) + 1));
        }
    }
}

/// Lines that arrive in two pieces are the lines of the whole: those of the
/// first piece, and those of what it left over with the second piece.
pub proof fn lines_of_pieces(first: Seq<u8>, second: Seq<u8>, base: int)
    ensures
        complete_lines(first + second, base) == complete_lines(first, base) + complete_lines(
            unfinished(first) + second,
            base + first.len() - unfinished(first).len(),
        ),
        unfinished(first + second) == unfinished(unfinished(first) + second),
        unfinished(first).len() <= first.len(),
    decreases first.len(),
{
    line_end_is_first(first);
    let whole = first + second;
    let end = line_end(first);
    if end < first.len() {
        line_end_at(whole, end);
        let rest = first.skip(end + 1);
        lines_of_pieces(rest, second, base + end + 1);
        assert(whole.skip(end + 1) =~= rest + second);
        assert(whole.take(end) =~= first.take(end));
        let head = seq![LineView { content: first.take(end), end: base + end }];
        let tail_base = base + first.len() - unfinished(first).len();
        assert(head + (complete_lines(rest, base + end + 1) + complete_lines(
            unfinished(rest) + second,
            tail_base,
        )) =~= (head + complete_lines(rest, base + end + 1)) + complete_lines(
            unfinished(rest) + second,
            tail_base,
        ));
    } else {
        assert(Seq::<LineView>::empty() + complete_lines(whole, base) =~= complete_lines(
            whole,
            base,
        ));
    }
}

/// A line without the carriage return at its end.
pub open spec fn without_cr(line: Seq<u8>) -> Seq<u8> {
    if line.len() > 0 && line.last() == 13 {
        line.drop_last()
    } else {
        line
    }
}

/// Whether a line holds nothing but ASCII white space.
pub open spec fn blank_line(line: Seq<u8>) -> bool {
    forall|i: int| 0 <= i < line.len() ==> ascii_blank(#[trigger] line[i])
}

/// ASCII white space: tab, line feed, form feed, carriage return, space.
pub open spec fn ascii_blank(byte: u8) -> bool {
    byte == 9 || byte == 10 || byte == 12 || byte == 13 || byte == 32
}

/// A complete line of some bytes.
struct Line {
    content: Vec<u8>,
    end: usize,
}

impl View for Line {
    type V = LineView;

    closed spec fn view(&self) -> LineView {
        LineView { content: self.content@, end: self.end as int }
    }
}

fn copy_range(bytes: &Vec<u8>, from: usize, to: usize) -> (r: Vec<u8>)
    requires
        from <= to <= bytes@.len(),
    ensures
        r@ == bytes@.subrange(from as int, to as int),
{
    let mut out: Vec<u8> = Vec::new();
    let mut i: usize = from;
    while i < to
        invariant
            from <= i <= to <= bytes@.len(),
            out@ == bytes@.subrange(from as int, i as int),
        decreases to - i,
    {
        out.push(bytes[i]);
        i = i + 1;
        assert(out@ =~= bytes@.subrange(from as int, i as int));
    }
    out
}

/// The complete lines of some bytes, and where what is left over begins.
fn split_lines(bytes: &Vec<u8>) -> (r: (Vec<Line>, usize))
    ensures
        views(r.0@) == complete_lines(bytes@, 0),
        r.1 <= bytes@.len(),
        bytes@.skip(r.1 as int) == unfinished(bytes@),
{
    let mut lines: Vec<Line> = Vec::new();
    let mut start: usize = 0;
    let mut i: usize = 0;
    let ghost all = complete_lines(bytes@, 0);
    assert(bytes@.skip(0) =~= bytes@);
    assert(views(lines@) + all =~= all);
    while i < bytes.len()
        invariant
            start <= i <= bytes@.len(),
            all == complete_lines(bytes@, 0),
            forall|k: int| start <= k < i ==> bytes@[k] != NEWLINE,
            views(lines@) + complete_lines(bytes@.skip(start as int), start as int) == all,
            unfinished(bytes@.skip(start as int)) == unfinished(bytes@),
        decreases bytes.len() - i,
    {
        if bytes[i] == NEWLINE {
            let ghost rest = bytes@.skip(start as int);
            let ghost before = views(lines@);
            proof {
                line_end_at(rest, i - start);
            }
            let content = copy_range(bytes, start, i);
            assert(content@ =~= rest.take(i - start));
            let line = Line { content, end: i };
            let ghost head = line@;
            lines.push(line);
            assert(views(lines@) =~= before.push(head));
            assert(rest.skip(i - start + 1) =~= bytes@.skip(i + 1));
            assert(before + (seq![head] + complete_lines(bytes@.skip(i + 1), i + 1))
                =~= before.push(head) + complete_lines(bytes@.skip(i + 1), i + 1));
            start = i + 1;
        }
        i = i + 1;
    }
    proof {
        let rest = bytes@.skip(start as int);
        assert(!has_newline(rest)) by {
            if has_newline(rest) {
                let k = choose|k: int| 0 <= k < rest.len() && rest[k] == NEWLINE;
                assert(bytes@[start + k] == NEWLINE);
            }
        }
        line_end_is_first(rest);
        assert(views(lines@) + Seq::<LineView>::empty() =~= views(lines@));
    }
    (lines, start)
}

fn trim_cr(line: &Vec<u8>) -> (r: Vec<u8>)
    ensures
        r@ == without_cr(line@),
{
    if line.len() > 0 && line[line.len() - 1] == 13 {
        let r = copy_range(line, 0, line.len() - 1);
        assert(r@ =~= line@.drop_last());
        r
    } else {
        let r = copy_range(line, 0, line.len());
        assert(r@ =~= line@);
        r
    }
}

fn is_blank_line(line: &Vec<u8>) -> (r: bool)
    ensures
        r == blank_line(line@),
{
    let mut i: usize = 0;
    while i < line.len()
        invariant
            i <= line@.len(),
            forall|k: int| 0 <= k < i ==> ascii_blank(#[trigger] line@[k]),
        decreases line.len() - i,
    {
        let byte: u8 = line[i];
        if !(byte == 9 || byte == 10 || byte == 12 || byte == 13 || byte == 32) {
            assert(!ascii_blank(line@[i as int]));
            return false;
        }
        i = i + 1;
    }
    true
}

/// The lines of a whole file, without their ends: the complete ones, and what
/// follows them where it is not empty.
pub open spec fn file_lines(bytes: Seq<u8>) -> Seq<Seq<u8>> {
    let complete = complete_lines(bytes, 0);
    let lines = Seq::new(complete.len(), |i: int| without_cr(complete[i].content));
    if unfinished(bytes).len() > 0 {
        lines.push(without_cr(unfinished(bytes)))
    } else {
        lines
    }
}

/// The lines of a whole file, without their ends.
pub fn all_lines(bytes: &Vec<u8>) -> (r: Vec<Vec<u8>>)
    ensures
        views(r@) == file_lines(bytes@),
{
    let (lines, rest) = split_lines(bytes);
    let ghost complete = complete_lines(bytes@, 0);
    let mut out: Vec<Vec<u8>> = Vec::new();
    let mut i: usize = 0;
    while i < lines.len()
        invariant
            i <= lines@.len(),
            complete == views(lines@),
            out@.len() == i,
            forall|k: int| 0 <= k < i ==> #[trigger] out@[k]@ == without_cr(complete[k].content),
        decreases lines.len() - i,
    {
        assert(complete[i as int] == lines@[i as int]@);
        out.push(trim_cr(&lines[i].content));
        i = i + 1;
    }
    let ghost whole = Seq::new(complete.len(), |i: int| without_cr(complete[i].content));
    assert(views(out@) =~= whole);
    if rest < bytes.len() {
        let tail = copy_range(bytes, rest, bytes.len());
        assert(tail@ =~= bytes@.skip(rest as int));
        let last = trim_cr(&tail);
        let ghost shown = last@;
        out.push(last);
        assert(views(out@) =~= whole.push(shown));
    }
    out
}

/// A complete line that holds no document: where it ends and what is wrong with it.
pub struct BadLine {
    pub end: int,
    pub reason: Seq<char>,
}

/// The documents of some lines; a line that is none gives where it ends.
pub open spec fn parsed_lines(lines: Seq<LineView>) -> Result<Seq<JsonView>, BadLine>
    decreases lines.len(),
{
    if lines.len() == 0 {
        Ok(Seq::empty())
    } else {
        let line = without_cr(lines[0].content);
        let rest = parsed_lines(lines.skip(1));
        if blank_line(line) {
            rest
        } else {
            match parsed(line) {
                None => Err(BadLine { end: lines[0].end, reason: refusal(line) }),
                Some(value) => match rest {
                    Ok(values) => Ok(seq![value] + values),
                    Err(bad) => Err(bad),
                },
            }
        }
    }
}

/// The documents of those lines that hold one.
pub open spec fn readable_lines(lines: Seq<LineView>) -> Seq<JsonView>
    decreases lines.len(),
{
    if lines.len() == 0 {
        Seq::empty()
    } else {
        let line = without_cr(lines[0].content);
        let rest = readable_lines(lines.skip(1));
        if blank_line(line) {
            rest
        } else {
            match parsed(line) {
                None => rest,
                Some(value) => seq![value] + rest,
            }
        }
    }
}

proof fn parsed_lines_of_pieces(first: Seq<LineView>, second: Seq<LineView>)
    ensures
        parsed_lines(first + second) == (match parsed_lines(first) {
            Err(bad) => Err(bad),
            Ok(values) => match parsed_lines(second) {
                Err(bad) => Err(bad),
                Ok(more) => Ok::<Seq<JsonView>, BadLine>(values + more),
            },
        }),
    decreases first.len(),
{
    let whole = first + second;
    if first.len() == 0 {
        assert(whole =~= second);
        match parsed_lines(second) {
            Ok(more) => {
                assert(Seq::<JsonView>::empty() + more =~= more);
            },
            Err(_) => {},
        }
    } else {
        assert(whole.skip(1) =~= first.skip(1) + second);
        parsed_lines_of_pieces(first.skip(1), second);
        let line = without_cr(first[0].content);
        if !blank_line(line) {
            if let Some(value) = parsed(line) {
                if let Ok(values) = parsed_lines(first.skip(1)) {
                    if let Ok(more) = parsed_lines(second) {
                        assert(seq![value] + (values + more) =~= (seq![value] + values) + more);
                    }
                }
            }
        }
    }
}

/// Reads the documents of a stream of lines and keeps the unfinished line.
#[derive(Debug)]
pub struct JsonlLineParser {
    pub partial: Vec<u8>,
}

impl View for JsonlLineParser {
    type V = Seq<u8>;

    open spec fn view(&self) -> Seq<u8> {
        self.partial@
    }
}

impl Default for JsonlLineParser {
    fn default() -> (r: JsonlLineParser)
        ensures
            r@ == Seq::<u8>::empty(),
    {
        JsonlLineParser { partial: Vec::new() }
    }
}

fn append_bytes(bytes: &mut Vec<u8>, more: &[u8])
    ensures
        final(bytes)@ == old(bytes)@ + more@,
{
    let ghost before = bytes@;
    let mut i: usize = 0;
    assert(bytes@ =~= before + more@.take(0));
    while i < more.len()
        invariant
            i <= more@.len(),
            bytes@ == before + more@.take(i as int),
        decreases more.len() - i,
    {
        bytes.push(more[i]);
        i = i + 1;
        assert(bytes@ =~= before + more@.take(i as int));
    }
    assert(bytes@ =~= before + more@);
}

impl JsonlLineParser {
    /// A parser that has seen nothing.
    pub fn new() -> (r: JsonlLineParser)
        ensures
            r@ == Seq::<u8>::empty(),
    {
        JsonlLineParser { partial: Vec::new() }
    }

    /// Takes more bytes and gives the documents of the lines that are complete
    /// now.  A complete line that holds no document is an error, and everything
    /// that was taken is kept.
    pub fn push(&mut self, bytes: &[u8]) -> (r: Result<Vec<Json>, JsonlError>)
        ensures
            ({
                let whole = old(self)@ + bytes@;
                match parsed_lines(complete_lines(whole, 0)) {
                    Ok(values) => {
                        &&& r is Ok
                        &&& views(r->Ok_0@) == values
                        &&& final(self)@ == unfinished(whole)
                    },
                    Err(bad) => {
                        &&& r matches Err(JsonlError::Json { offset, source }) && offset == bad.end
                            && source@ == bad.reason
                        &&& final(self)@ == whole
                    },
                }
            }),
    {
        append_bytes(&mut self.partial, bytes);
        let ghost whole = self.partial@;
        let (lines, rest) = split_lines(&self.partial);
        let ghost all = views(lines@);
        let mut values: Vec<Json> = Vec::new();
        let mut i: usize = 0;
        assert(all.skip(0) =~= all);
        assert(views(values@) =~= Seq::<JsonView>::empty());
        while i < lines.len()
            invariant
                i <= lines@.len(),
                all == views(lines@),
                all == complete_lines(whole, 0),
                self.partial@ == whole,
                whole == old(self)@ + bytes@,
                parsed_lines(all) == (match parsed_lines(all.skip(i as int)) {
                    Ok(more) => Ok::<Seq<JsonView>, BadLine>(views(values@) + more),
                    Err(bad) => Err(bad),
                }),
            decreases lines.len() - i,
        {
            let ghost before = views(values@);
            let ghost tail = all.skip(i as int);
            assert(tail.skip(1) =~= all.skip(i + 1));
            assert(tail[0] == lines@[i as int]@);
            let line = trim_cr(&lines[i].content);
            if !is_blank_line(&line) {
                match parse(line.as_slice()) {
                    Ok(value) => {
                        let ghost content = value@;
                        values.push(value);
                        assert(views(values@) =~= before.push(content));
                        proof {
                            if let Ok(more) = parsed_lines(all.skip(i + 1)) {
                                assert(before.push(content) + more =~= before + (seq![content]
                                    + more));
                            }
                        }
                    },
                    Err(error) => {
                        return Err(
                            JsonlError::Json {
                                offset: lines[i].end as u64,
                                source: error_text(&error),
                            },
                        );
                    },
                }
            }
            i = i + 1;
        }
        proof {
            assert(all.skip(i as int).len() == 0);
            assert(views(values@) + Seq::<JsonView>::empty() =~= views(values@));
        }
        let kept = copy_range(&self.partial, rest, self.partial.len());
        assert(kept@ =~= whole.skip(rest as int));
        self.partial = kept;
        Ok(values)
    }

    /// The length of the unfinished line.
    pub fn partial_len(&self) -> (r: usize)
        ensures
            r == self@.len(),
    {
        self.partial.len()
    }
}

/// How a stream is cut into pieces does not matter: where both pieces are
/// accepted, they give the documents that the whole gives, in the same order,
/// and leave the same unfinished line.
pub proof fn pieces_give_what_the_whole_gives(
    partial: Seq<u8>,
    first: Seq<u8>,
    second: Seq<u8>,
    values: Seq<JsonView>,
    more: Seq<JsonView>,
)
    requires
        parsed_lines(complete_lines(partial + first, 0)) == Ok::<Seq<JsonView>, BadLine>(values),
        parsed_lines(complete_lines(unfinished(partial + first) + second, 0)) == Ok::<
            Seq<JsonView>,
            BadLine,
        >(more),
    ensures
        parsed_lines(complete_lines(partial + (first + second), 0)) == Ok::<Seq<JsonView>, BadLine>(
            values + more,
        ),
        unfinished(partial + (first + second)) == unfinished(unfinished(partial + first) + second),
{
    let head = partial + first;
    assert(partial + (first + second) =~= head + second);
    lines_of_pieces(head, second, 0);
    let base = head.len() - unfinished(head).len();
    same_documents(unfinished(head) + second, 0, base);
    parsed_lines_of_pieces(
        complete_lines(head, 0),
        complete_lines(unfinished(head) + second, base),
    );
}

proof fn same_documents(bytes: Seq<u8>, left: int, right: int)
    ensures
        parsed_lines(complete_lines(bytes, left)) is Ok == parsed_lines(
            complete_lines(bytes, right),
        ) is Ok,
        parsed_lines(complete_lines(bytes, left)) is Ok ==> parsed_lines(
            complete_lines(bytes, left),
        ) == parsed_lines(complete_lines(bytes, right)),
    decreases bytes.len(),
{
    line_end_is_first(bytes);
    let end = line_end(bytes);
    if end < bytes.len() {
        same_documents(bytes.skip(end + 1), left + end + 1, right + end + 1);
        let a = complete_lines(bytes, left);
        let b = complete_lines(bytes, right);
        assert(a.skip(1) =~= complete_lines(bytes.skip(end + 1), left + end + 1));
        assert(b.skip(1) =~= complete_lines(bytes.skip(end + 1), right + end + 1));
    }
}

/// The key of a record: one of its identifiers, else the digest of its text.
pub open spec fn key_of(value: JsonView) -> Seq<char> {
    if text_field(value, "eventId"@) is Some {
        "eventId"@ + ":"@ + text_field(value, "eventId"@)->0
    } else if text_field(value, "event_id"@) is Some {
        "event_id"@ + ":"@ + text_field(value, "event_id"@)->0
    } else if text_field(value, "id"@) is Some {
        "id"@ + ":"@ + text_field(value, "id"@)->0
    } else if text_field(value, "itemId"@) is Some {
        "itemId"@ + ":"@ + text_field(value, "itemId"@)->0
    } else if text_field(value, "turnId"@) is Some {
        "turnId"@ + ":"@ + text_field(value, "turnId"@)->0
    } else {
        "sha256:"@ + hex(
            sha256(
                match encoded(value) {
                    Some(bytes) => bytes,
                    None => Seq::empty(),
                },
            ),
        )
    }
}

/// The key of a record.
pub fn record_key(value: &Json) -> (r: String)
    ensures
        r@ == key_of(value@),
{
    if let Some(id) = value.get_text("eventId") {
        return cat3("eventId", ":", id.as_str());
    }
    if let Some(id) = value.get_text("event_id") {
        return cat3("event_id", ":", id.as_str());
    }
    if let Some(id) = value.get_text("id") {
        return cat3("id", ":", id.as_str());
    }
    if let Some(id) = value.get_text("itemId") {
        return cat3("itemId", ":", id.as_str());
    }
    if let Some(id) = value.get_text("turnId") {
        return cat3("turnId", ":", id.as_str());
    }
    let bytes = match value.to_bytes() {
        Ok(bytes) => bytes,
        Err(_) => Vec::new(),
    };
    assert(bytes@ =~= match encoded(value@) {
        Some(bytes) => bytes,
        None => Seq::empty(),
    });
    cat("sha256:", digest_text(bytes.as_slice()).as_str())
}

/// How many keys are remembered.
pub const MAX_SEEN: usize = 4096;

/// What a session file looked like when it was last read.
#[derive(Debug)]
pub struct FileFingerprint {
    pub len: u64,
    /// When the file was last modified, in nanoseconds, where that is known.
    pub modified: Option<i128>,
    /// At most the first 256 bytes.
    pub prefix: Vec<u8>,
}

/// The content of a [`FileFingerprint`].
pub struct FingerprintView {
    pub len: u64,
    pub modified: Option<i128>,
    pub prefix: Seq<u8>,
}

impl View for FileFingerprint {
    type V = FingerprintView;

    open spec fn view(&self) -> FingerprintView {
        FingerprintView { len: self.len, modified: self.modified, prefix: self.prefix@ }
    }
}

impl FingerprintView {
    /// Whether a file that looks like `current` is another one than this: it is
    /// shorter, begins otherwise or is older.
    pub open spec fn replaced_by(self, current: FingerprintView) -> bool {
        ||| current.len < self.len
        ||| !self.prefix.is_prefix_of(current.prefix)
        ||| (self.modified matches Some(previous) && current.modified matches Some(now) && now
            < previous)
    }
}

impl FileFingerprint {
    /// Whether a file that looks like `current` is another one than this.
    pub fn looks_replaced(&self, current: &FileFingerprint) -> (r: bool)
        ensures
            r == self@.replaced_by(current@),
    {
        if current.len < self.len {
            return true;
        }
        if current.prefix.len() < self.prefix.len() {
            return true;
        }
        let mut i: usize = 0;
        while i < self.prefix.len()
            invariant
                i <= self.prefix@.len() <= current.prefix@.len(),
                forall|k: int| 0 <= k < i ==> self.prefix@[k] == current.prefix@[k],
            decreases self.prefix.len() - i,
        {
            if self.prefix[i] != current.prefix[i] {
                assert(self.prefix@[i as int] != current.prefix@.subrange(
                    0,
                    self.prefix@.len() as int,
                )[i as int]);
                return true;
            }
            i = i + 1;
        }
        assert(self.prefix@ =~= current.prefix@.subrange(0, self.prefix@.len() as int));
        match (self.modified, current.modified) {
            (Some(previous), Some(now)) => now < previous,
            _ => false,
        }
    }
}

/// Reads the records of a file as it grows, each of them once.
#[derive(Debug)]
pub struct JsonlTailer {
    pub path: String,
    pub offset: u64,
    pub partial: Vec<u8>,
    pub fingerprint: Option<FileFingerprint>,
    /// The keys of the last records, the oldest first.
    pub seen: Vec<String>,
}

/// The content of a [`JsonlTailer`].
pub struct TailerView {
    pub path: Seq<char>,
    pub offset: u64,
    pub partial: Seq<u8>,
    pub fingerprint: Option<FingerprintView>,
    pub seen: Seq<Seq<char>>,
}

impl View for JsonlTailer {
    type V = TailerView;

    open spec fn view(&self) -> TailerView {
        TailerView {
            path: self.path@,
            offset: self.offset,
            partial: self.partial@,
            fingerprint: opt(self.fingerprint),
            seen: views(self.seen@),
        }
    }
}

/// The keys after one more was met: the last 4096 that differ.
pub open spec fn remembered(seen: Seq<Seq<char>>, key: Seq<char>) -> Seq<Seq<char>> {
    if seen.contains(key) {
        seen
    } else if seen.len() < MAX_SEEN {
        seen.push(key)
    } else {
        seen.push(key).skip(seen.len() + 1 - MAX_SEEN)
    }
}

/// The records among some documents whose keys are new.
pub open spec fn fresh_records(seen: Seq<Seq<char>>, values: Seq<JsonView>) -> Seq<RecordView>
    decreases values.len(),
{
    if values.len() == 0 {
        Seq::empty()
    } else {
        let key = key_of(values[0]);
        let rest = fresh_records(remembered(seen, key), values.skip(1));
        if seen.contains(key) {
            rest
        } else {
            seq![RecordView { key, value: values[0] }] + rest
        }
    }
}

/// The keys that are remembered after some documents.
pub open spec fn seen_after(seen: Seq<Seq<char>>, values: Seq<JsonView>) -> Seq<Seq<char>>
    decreases values.len(),
{
    if values.len() == 0 {
        seen
    } else {
        seen_after(remembered(seen, key_of(values[0])), values.skip(1))
    }
}

impl TailerView {
    /// What always holds: no key is remembered twice, at most 4096 are, and the
    /// unfinished line is unfinished.
    pub open spec fn valid(self) -> bool {
        &&& self.seen.no_duplicates()
        &&& self.seen.len() <= MAX_SEEN
        &&& !has_newline(self.partial)
    }

    /// The length of the file when it was last looked at; none before that.
    pub open spec fn length_seen(self) -> int {
        match self.fingerprint {
            Some(fingerprint) => fingerprint.len as int,
            None => 0,
        }
    }

    /// Whether no more was read than the file was long when it was last looked
    /// at: so it is unless the file grew between the look and the reading.
    pub open spec fn within(self) -> bool {
        self.offset <= self.length_seen()
    }

    /// The tailer at the start of the file.
    pub open spec fn rewound(self) -> TailerView {
        TailerView { offset: 0, partial: Seq::empty(), fingerprint: None, ..self }
    }

    /// The tailer when the file looks as given: a replaced file is read from its start.
    pub open spec fn looked_at(self, current: FingerprintView) -> TailerView {
        let base = match self.fingerprint {
            Some(fingerprint) => if fingerprint.replaced_by(current) {
                self.rewound()
            } else {
                self
            },
            None => self,
        };
        TailerView { fingerprint: Some(current), ..base }
    }

    /// The tailer after more bytes of the file.
    pub open spec fn fed(self, bytes: Seq<u8>) -> TailerView {
        let whole = self.partial + bytes;
        TailerView {
            offset: if self.offset + bytes.len() > u64::MAX {
                u64::MAX
            } else {
                (self.offset + bytes.len()) as u64
            },
            partial: unfinished(whole),
            seen: seen_after(self.seen, readable_lines(complete_lines(whole, 0))),
            ..self
        }
    }

    /// The new records in more bytes of the file.
    pub open spec fn records(self, bytes: Seq<u8>) -> Seq<RecordView> {
        fresh_records(self.seen, readable_lines(complete_lines(self.partial + bytes, 0)))
    }
}

proof fn remembering_keeps_valid(seen: Seq<Seq<char>>, key: Seq<char>)
    requires
        seen.no_duplicates(),
        seen.len() <= MAX_SEEN,
    ensures
        remembered(seen, key).no_duplicates(),
        remembered(seen, key).len() <= MAX_SEEN,
        remembered(seen, key).contains(key),
{
    if !seen.contains(key) {
        let pushed = seen.push(key);
        assert(pushed.no_duplicates());
        assert(pushed[seen.len() as int] == key);
        if seen.len() >= MAX_SEEN {
            let kept = pushed.skip(1);
            assert(kept[kept.len() - 1] == key);
            assert(kept.no_duplicates()) by {
                assert forall|i: int, j: int| 0 <= i < kept.len() && 0 <= j < kept.len() && i
                    != j implies kept[i] != kept[j] by {
                    assert(kept[i] == pushed[i + 1] && kept[j] == pushed[j + 1]);
                }
            }
        }
    }
}

proof fn seen_after_is_valid(seen: Seq<Seq<char>>, values: Seq<JsonView>)
    requires
        seen.no_duplicates(),
        seen.len() <= MAX_SEEN,
    ensures
        seen_after(seen, values).no_duplicates(),
        seen_after(seen, values).len() <= MAX_SEEN,
    decreases values.len(),
{
    if values.len() > 0 {
        remembering_keeps_valid(seen, key_of(values[0]));
        seen_after_is_valid(remembered(seen, key_of(values[0])), values.skip(1));
    }
}

/// A record is handed out only while its key is not remembered, and each
/// record carries the key of its document.
pub proof fn records_are_new(seen: Seq<Seq<char>>, values: Seq<JsonView>)
    ensures
        fresh_records(seen, values).len() <= values.len(),
        forall|i: int|
            0 <= i < fresh_records(seen, values).len() ==> {
                let record = #[trigger] fresh_records(seen, values)[i];
                record.key == key_of(record.value) && values.contains(record.value)
            },
        fresh_records(seen, values).len() > 0 ==> !seen.contains(fresh_records(seen, values)[0].key)
            || seen.len() >= MAX_SEEN,
    decreases values.len(),
{
    if values.len() > 0 {
        let key = key_of(values[0]);
        let rest = values.skip(1);
        let after = remembered(seen, key);
        records_are_new(after, rest);
        let tail = fresh_records(after, rest);
        let all = fresh_records(seen, values);
        assert(values.contains(values[0]));
        assert forall|i: int| 0 <= i < all.len() implies {
            let record = #[trigger] all[i];
            record.key == key_of(record.value) && values.contains(record.value)
        } by {
            if seen.contains(key) {
                let record = tail[i];
                let k = choose|k: int| 0 <= k < rest.len() && rest[k] == record.value;
                assert(values[k + 1] == record.value);
            } else if i > 0 {
                let record = tail[i - 1];
                assert(all[i] == record);
                let k = choose|k: int| 0 <= k < rest.len() && rest[k] == record.value;
                assert(values[k + 1] == record.value);
            }
        }
    }
}

/// While the memory does not overflow, a key that is remembered is never handed
/// out again, and no key is handed out twice.
pub proof fn no_record_is_handed_out_twice(seen: Seq<Seq<char>>, values: Seq<JsonView>)
    requires
        seen.len() + values.len() <= MAX_SEEN,
    ensures
        forall|i: int|
            0 <= i < fresh_records(seen, values).len() ==> !seen.contains(
                (#[trigger] fresh_records(seen, values)[i]).key,
            ),
        forall|i: int, j: int|
            0 <= i < j < fresh_records(seen, values).len() ==> (#[trigger] fresh_records(
                seen,
                values,
            )[i]).key != (#[trigger] fresh_records(seen, values)[j]).key,
    decreases values.len(),
{
    if values.len() > 0 {
        let key = key_of(values[0]);
        let after = remembered(seen, key);
        let rest = values.skip(1);
        no_record_is_handed_out_twice(after, rest);
        let tail = fresh_records(after, rest);
        let all = fresh_records(seen, values);
        assert forall|k: Seq<char>| seen.contains(k) implies after.contains(k) by {
            if !seen.contains(key) {
                let n = choose|n: int| 0 <= n < seen.len() && seen[n] == k;
                assert(after[n] == k);
            }
        }
        if !seen.contains(key) {
            assert(after[seen.len() as int] == key);
            assert(after.contains(key));
            assert forall|i: int| 0 <= i < all.len() implies !seen.contains(
                (#[trigger] all[i]).key,
            ) by {
                if i > 0 {
                    assert(all[i] == tail[i - 1]);
                }
            }
            assert forall|i: int, j: int| 0 <= i < j < all.len() implies (#[trigger] all[i]).key
                != (#[trigger] all[j]).key by {
                assert(all[j] == tail[j - 1]);
                if i > 0 {
                    assert(all[i] == tail[i - 1]);
                }
            }
        }
    }
}

impl JsonlTailer {
    /// A tailer at the start of a file.
    pub fn new(path: String) -> (r: JsonlTailer)
        ensures
            r@ == (TailerView {
                path: path@,
                offset: 0,
                partial: Seq::empty(),
                fingerprint: None,
                seen: Seq::empty(),
            }),
            r@.valid(),
            r@.within(),
    {
        let tailer = JsonlTailer {
            path,
            offset: 0,
            partial: Vec::new(),
            fingerprint: None,
            seen: Vec::new(),
        };
        assert(tailer@.seen =~= Seq::empty());
        tailer
    }

    /// The path of the file.
    pub fn path(&self) -> (r: &String)
        ensures
            r@ == self@.path,
    {
        &self.path
    }

    /// How much of the file was read.
    pub fn offset(&self) -> (r: u64)
        ensures
            r == self@.offset,
    {
        self.offset
    }

    /// Forgets everything but the path.
    pub fn reset(&mut self)
        ensures
            final(self)@ == (TailerView { seen: Seq::empty(), ..old(self)@.rewound() }),
            final(self)@.valid(),
            final(self)@.within(),
    {
        self.reset_position();
        self.seen = Vec::new();
        assert(self@.seen =~= Seq::empty());
    }

    /// Starts over at the beginning of the file; the records stay known.
    pub fn reset_position(&mut self)
        ensures
            final(self)@ == old(self)@.rewound(),
            old(self)@.valid() ==> final(self)@.valid(),
            final(self)@.within(),
    {
        self.offset = 0;
        self.partial = Vec::new();
        self.fingerprint = None;
    }

    /// The file looks as given now; gives where to read on.
    pub fn look_at(&mut self, current: FileFingerprint) -> (r: u64)
        requires
            old(self)@.valid(),
        ensures
            final(self)@ == old(self)@.looked_at(current@),
            r == final(self)@.offset,
            final(self)@.valid(),
            old(self)@.within() ==> r <= current@.len && final(self)@.within(),
    {
        let replaced = match &self.fingerprint {
            Some(fingerprint) => fingerprint.looks_replaced(&current),
            None => false,
        };
        if replaced {
            self.reset_position();
        }
        self.fingerprint = Some(current);
        self.offset
    }

    /// Begins at the end of a file that looks as given and ends with the given
    /// unfinished line: only lines that are completed later are read.
    pub fn seek_to_end(&mut self, current: FileFingerprint, unfinished_line: Vec<u8>)
        requires
            old(self)@.valid(),
            !has_newline(unfinished_line@),
        ensures
            final(self)@ == (TailerView {
                offset: current@.len,
                partial: unfinished_line@,
                fingerprint: Some(current@),
                ..old(self)@
            }),
            final(self)@.valid(),
            final(self)@.within(),
    {
        self.offset = current.len;
        self.partial = unfinished_line;
        self.fingerprint = Some(current);
    }

    fn remember(&mut self, key: &String) -> (r: bool)
        requires
            old(self)@.valid(),
        ensures
            r == !old(self)@.seen.contains(key@),
            final(self)@ == (TailerView { seen: remembered(old(self)@.seen, key@), ..old(self)@ }),
            final(self)@.valid(),
    {
        let ghost before = views(self.seen@);
        proof {
            remembering_keeps_valid(before, key@);
        }
        let mut i: usize = 0;
        while i < self.seen.len()
            invariant
                i <= self.seen@.len(),
                self@ == old(self)@,
                self@.valid(),
                before == views(self.seen@),
                forall|k: int| 0 <= k < i ==> before[k] != key@,
            decreases self.seen.len() - i,
        {
            if same(self.seen[i].as_str(), key.as_str()) {
                assert(before[i as int] == key@);
                assert(before.contains(key@));
                return false;
            }
            i = i + 1;
        }
        assert(!before.contains(key@));
        self.seen.push(key.clone());
        assert(views(self.seen@) =~= before.push(key@));
        if self.seen.len() > MAX_SEEN {
            let ghost pushed = views(self.seen@);
            let _ = self.seen.remove(0);
            assert(views(self.seen@) =~= pushed.skip(1));
        }
        true
    }

    /// Takes the bytes that follow in the file and gives the new records of the
    /// lines that are complete now.  A complete line that holds no document is
    /// skipped, so that it cannot be met again.
    pub fn poll(&mut self, bytes: &[u8]) -> (r: Vec<JsonlRecord>)
        requires
            old(self)@.valid(),
        ensures
            final(self)@ == old(self)@.fed(bytes@),
            views(r@) == old(self)@.records(bytes@),
            final(self)@.valid(),
            old(self)@.offset + bytes@.len() <= old(self)@.length_seen() ==> final(self)@.within(),
    {
        let ghost before = self@;
        let read: usize = bytes.len();
        self.offset = self.offset.saturating_add(read as u64);
        append_bytes(&mut self.partial, bytes);
        let ghost whole = self.partial@;
        proof {
            unfinished_has_no_newline(whole);
        }
        let (lines, rest) = split_lines(&self.partial);
        let kept = copy_range(&self.partial, rest, self.partial.len());
        assert(kept@ =~= whole.skip(rest as int));
        self.partial = kept;
        let ghost all = views(lines@);
        let ghost values = readable_lines(all);
        let mut records: Vec<JsonlRecord> = Vec::new();
        let mut i: usize = 0;
        assert(all.skip(0) =~= all);
        assert(views(records@) + fresh_records(before.seen, values) =~= fresh_records(
            before.seen,
            values,
        ));
        let ghost base = self@;
        while i < lines.len()
            invariant
                i <= lines@.len(),
                all == views(lines@),
                self@ == (TailerView { seen: self@.seen, ..base }),
                self@.valid(),
                views(records@) + fresh_records(
                    self@.seen,
                    readable_lines(all.skip(i as int)),
                ) == fresh_records(before.seen, values),
                seen_after(self@.seen, readable_lines(all.skip(i as int))) == seen_after(
                    before.seen,
                    values,
                ),
            decreases lines.len() - i,
        {
            let ghost tail = all.skip(i as int);
            assert(tail.skip(1) =~= all.skip(i + 1));
            assert(tail[0] == lines@[i as int]@);
            let line = trim_cr(&lines[i].content);
            if !is_blank_line(&line) {
                if let Ok(value) = parse(line.as_slice()) {
                    let key = record_key(&value);
                    let ghost seen_before = self@.seen;
                    let ghost records_before = views(records@);
                    let ghost rest_values = readable_lines(all.skip(i + 1));
                    let ghost content = value@;
                    assert((seq![content] + rest_values).skip(1) =~= rest_values);
                    if self.remember(&key) {
                        let record = JsonlRecord { key, value };
                        let ghost shown = record@;
                        records.push(record);
                        assert(views(records@) =~= records_before.push(shown));
                        assert(records_before.push(shown) + fresh_records(self@.seen, rest_values)
                            =~= records_before + (seq![shown] + fresh_records(
                            self@.seen,
                            rest_values,
                        )));
                    }
                }
            }
            i = i + 1;
        }
        proof {
            assert(all.skip(i as int).len() == 0);
            assert(views(records@) + Seq::<RecordView>::empty() =~= views(records@));
        }
        records
    }
}

/// A poisoned line is met once: after a read the unfinished line holds no
/// complete line, so that reading nothing more gives nothing and changes nothing.
pub proof fn a_complete_line_is_read_once(tailer: TailerView, bytes: Seq<u8>)
    requires
        tailer.valid(),
    ensures
        ({
            let after = tailer.fed(bytes);
            &&& after.records(Seq::empty()).len() == 0
            &&& after.fed(Seq::empty()) == after
        }),
{
    let after = tailer.fed(bytes);
    unfinished_has_no_newline(tailer.partial + bytes);
    unfinished_of_no_newline(after.partial);
    assert(after.partial + Seq::<u8>::empty() =~= after.partial);
}

/// After a look at the file and the reading of its rest, as much was read as the
/// file is long, whether it has grown, shrunk or been replaced since the last
/// time; looking again at the same file leaves nothing to read.
pub proof fn the_whole_file_is_read(tailer: TailerView, file: FingerprintView, rest: Seq<u8>)
    requires
        tailer.within(),
        rest.len() == file.len - tailer.looked_at(file).offset,
    ensures
        ({
            let looked = tailer.looked_at(file);
            let after = looked.fed(rest);
            &&& looked.offset <= file.len
            &&& looked.within()
            &&& after.offset == file.len
            &&& after.within()
            &&& after.looked_at(file) == after
            &&& after.fed(Seq::empty()).offset == after.offset
        }),
{
}

/// A look at the file never leaves the tailer behind its end.
pub proof fn a_look_stays_within_the_file(tailer: TailerView, file: FingerprintView)
    requires
        tailer.within(),
    ensures
        tailer.looked_at(file).offset <= file.len,
{
}

proof fn readable_of_pieces(first: Seq<LineView>, second: Seq<LineView>)
    ensures
        readable_lines(first + second) == readable_lines(first) + readable_lines(second),
    decreases first.len(),
{
    let whole = first + second;
    if first.len() == 0 {
        assert(whole =~= second);
        assert(Seq::<JsonView>::empty() + readable_lines(second) =~= readable_lines(second));
    } else {
        assert(whole.skip(1) =~= first.skip(1) + second);
        readable_of_pieces(first.skip(1), second);
        if let Some(value) = parsed(without_cr(first[0].content)) {
            let rest = readable_lines(first.skip(1));
            assert(seq![value] + (rest + readable_lines(second)) =~= (seq![value] + rest)
                + readable_lines(second));
        }
    }
}

proof fn readable_anywhere(bytes: Seq<u8>, left: int, right: int)
    ensures
        readable_lines(complete_lines(bytes, left)) == readable_lines(
            complete_lines(bytes, right),
        ),
    decreases bytes.len(),
{
    line_end_is_first(bytes);
    let end = line_end(bytes);
    if end < bytes.len() {
        readable_anywhere(bytes.skip(end + 1), left + end + 1, right + end + 1);
        let a = complete_lines(bytes, left);
        let b = complete_lines(bytes, right);
        assert(a.skip(1) =~= complete_lines(bytes.skip(end + 1), left + end + 1));
        assert(b.skip(1) =~= complete_lines(bytes.skip(end + 1), right + end + 1));
    }
}

proof fn fresh_in_pieces(seen: Seq<Seq<char>>, first: Seq<JsonView>, second: Seq<JsonView>)
    ensures
        seen_after(seen, first + second) == seen_after(seen_after(seen, first), second),
        fresh_records(seen, first + second) == fresh_records(seen, first) + fresh_records(
            seen_after(seen, first),
            second,
        ),
    decreases first.len(),
{
    let whole = first + second;
    if first.len() == 0 {
        assert(whole =~= second);
        assert(Seq::<RecordView>::empty() + fresh_records(seen, second) =~= fresh_records(
            seen,
            second,
        ));
    } else {
        let key = key_of(first[0]);
        let next = remembered(seen, key);
        assert(whole.skip(1) =~= first.skip(1) + second);
        fresh_in_pieces(next, first.skip(1), second);
        let record = RecordView { key, value: first[0] };
        let more = fresh_records(seen_after(next, first.skip(1)), second);
        assert(seq![record] + (fresh_records(next, first.skip(1)) + more) =~= (seq![record]
            + fresh_records(next, first.skip(1))) + more);
    }
}

/// How the bytes of a file are cut into pieces does not matter: read one after
/// the other, they give the records of the whole, in the same order, and leave
/// the tailer as the whole does.
pub proof fn pieces_are_read_like_the_whole(tailer: TailerView, first: Seq<u8>, second: Seq<u8>)
    ensures
        tailer.fed(first).fed(second) == tailer.fed(first + second),
        tailer.records(first + second) == tailer.records(first) + tailer.fed(first).records(
            second,
        ),
{
    let head = tailer.partial + first;
    assert(tailer.partial + (first + second) =~= head + second);
    lines_of_pieces(head, second, 0);
    let base = head.len() - unfinished(head).len();
    let early = complete_lines(head, 0);
    let late = complete_lines(unfinished(head) + second, base);
    readable_of_pieces(early, late);
    readable_anywhere(unfinished(head) + second, 0, base);
    fresh_in_pieces(tailer.seen, readable_lines(early), readable_lines(late));
}

/// How many bytes are read backwards at a time.
pub const SUFFIX_CHUNK: u64 = 8192;

/// Finds the unfinished line at the end of a file by reading backwards.
#[derive(Debug)]
pub struct SuffixReader {
    /// Everything from here on was read and holds no end of a line.
    pub position: u64,
    pub suffix: Vec<u8>,
}

impl SuffixReader {
    /// What was read is the end of the file from the position on, and holds no
    /// end of a line.
    pub open spec fn reads(self, file: Seq<u8>) -> bool {
        &&& self.position <= file.len()
        &&& self.suffix@ == file.skip(self.position as int)
        &&& !has_newline(self.suffix@)
    }

    /// Nothing was read of a file of a given length.
    pub fn new(file_len: u64) -> (r: SuffixReader)
        ensures
            r.position == file_len,
            r.suffix@ == Seq::<u8>::empty(),
            forall|file: Seq<u8>| file.len() == file_len ==> #[trigger] r.reads(file),
    {
        let reader = SuffixReader { position: file_len, suffix: Vec::new() };
        assert forall|file: Seq<u8>| file.len() == file_len implies #[trigger] reader.reads(file) by {
            assert(file.skip(file_len as int) =~= Seq::<u8>::empty());
        }
        reader
    }

    /// Where the next piece begins, or nothing at the start of the file.  The
    /// piece ends at the position.
    pub fn next_start(&self) -> (r: Option<u64>)
        ensures
            self.position == 0 <==> r is None,
            r matches Some(start) ==> start == (if self.position < SUFFIX_CHUNK {
                0
            } else {
                self.position - SUFFIX_CHUNK
            }),
    {
        if self.position == 0 {
            None
        } else if self.position < SUFFIX_CHUNK {
            Some(0)
        } else {
            Some(self.position - SUFFIX_CHUNK)
        }
    }

    /// Takes the piece that ends at the position; tells whether the search is over.
    pub fn take_piece(&mut self, piece: Vec<u8>) -> (r: bool)
        requires
            piece@.len() <= old(self).position,
            !has_newline(old(self).suffix@),
        ensures
            r == has_newline(piece@),
            r ==> final(self).suffix@ == unfinished(piece@ + old(self).suffix@),
            !r ==> final(self).suffix@ == piece@ + old(self).suffix@,
            !has_newline(final(self).suffix@),
            final(self).position == (if r {
                old(self).position
            } else {
                (old(self).position - piece@.len()) as u64
            }),
            forall|file: Seq<u8>|
                #![trigger old(self).reads(file)]
                old(self).reads(file) && piece@ == file.subrange(
                    old(self).position - piece@.len(),
                    old(self).position as int,
                ) ==> (if r {
                    final(self).suffix@ == unfinished(file)
                } else {
                    final(self).reads(file)
                }),
    {
        let ghost before = *self;
        let ghost first = piece@;
        let ghost whole = piece@ + self.suffix@;
        let length: usize = piece.len();
        let mut piece = piece;
        piece.append(&mut self.suffix);
        assert(piece@ =~= whole);
        let (_, rest) = split_lines(&piece);
        let kept = copy_range(&piece, rest, piece.len());
        assert(kept@ =~= whole.skip(rest as int));
        proof {
            unfinished_has_no_newline(whole);
            line_end_is_first(whole);
            assert(has_newline(whole) == has_newline(first)) by {
                if has_newline(first) {
                    let i = choose|i: int| 0 <= i < first.len() && first[i] == NEWLINE;
                    assert(whole[i] == NEWLINE);
                }
                if has_newline(whole) {
                    let i = choose|i: int| 0 <= i < whole.len() && whole[i] == NEWLINE;
                    if i >= first.len() {
                        assert(before.suffix@[i - first.len()] == NEWLINE);
                    }
                    assert(first[i] == NEWLINE);
                }
            }
            if !has_newline(whole) {
                unfinished_of_no_newline(whole);
            }
            assert forall|file: Seq<u8>|
                #![trigger before.reads(file)]
                before.reads(file) && first == file.subrange(
                    before.position - first.len(),
                    before.position as int,
                ) implies whole == file.skip(before.position - first.len()) && (has_newline(whole)
                ==> unfinished(whole) == unfinished(file)) by {
                let start = before.position - first.len();
                assert(whole =~= file.skip(start));
                if has_newline(whole) {
                    assert(file =~= file.take(start) + whole);
                    unfinished_of_suffix(file.take(start), whole);
                }
            }
        }
        self.suffix = kept;
        if rest > 0 {
            assert(has_newline(whole)) by {
                if !has_newline(whole) {
                    assert(whole.skip(rest as int).len() < whole.len());
                }
            }
            true
        } else {
            assert(!has_newline(whole)) by {
                assert(whole.skip(0) =~= whole);
            }
            self.position = self.position - length as u64;
            assert forall|file: Seq<u8>|
                #![trigger before.reads(file)]
                before.reads(file) && first == file.subrange(
                    before.position - first.len(),
                    before.position as int,
                ) implies self.reads(file) by {
                assert(self.suffix@ == whole);
                assert(whole == file.skip(before.position - first.len()));
            }
            false
        }
    }
}

/// Where no end of a line was found down to the start of the file, the whole
/// file is the unfinished line.
pub proof fn a_file_without_lines_is_unfinished(reader: SuffixReader, file: Seq<u8>)
    requires
        reader.reads(file),
        reader.position == 0,
    ensures
        reader.suffix@ == unfinished(file),
{
    assert(file.skip(0) =~= file);
    unfinished_of_no_newline(file);
}

/// A line is what stands before the end of a line, and what follows is read by
/// itself; bytes without the end of a line are no line, and all of them wait.
pub proof fn a_line_stands_before_its_end(content: Seq<u8>, rest: Seq<u8>, base: int)
    requires
        forall|i: int| 0 <= i < content.len() ==> #[trigger] content[i] != 10,
    ensures
        complete_lines(content + seq![10u8] + rest, base) == seq![
            LineView { content, end: base + content.len() },
        ] + complete_lines(rest, base + content.len() + 1),
        unfinished(content + seq![10u8] + rest) == unfinished(rest),
        complete_lines(content, base) == Seq::<LineView>::empty(),
        unfinished(content) == content,
{
    let whole = content + seq![10u8] + rest;
    line_end_is_first(whole);
    line_end_is_first(content);
    assert(whole[content.len() as int] == 10);
    assert(forall|i: int| 0 <= i < content.len() ==> #[trigger] whole[i] == content[i]);
    let end = line_end(whole);
    if end < content.len() {
        assert(whole[end] == content[end]);
    }
    assert(end == content.len());
    assert(whole.take(end) =~= content);
    assert(whole.skip(end + 1) =~= rest);
    if line_end(content) < content.len() {
        assert(content[line_end(content)] == 10);
    }
}

/// Documents are read line by line, without the carriage return at the end of
/// a line: a blank line gives nothing, a line that holds a document gives it,
/// before those of the lines that follow, and any other line is passed over
/// when a file is followed and refused, with the place of its end, when a
/// stream is read.
pub proof fn documents_are_read_line_by_line(content: Seq<u8>, rest: Seq<u8>, returned: bool)
    requires
        forall|i: int| 0 <= i < content.len() ==> #[trigger] content[i] != 10,
        content.len() > 0 ==> content.last() != 13,
    ensures
        ({
            let line = if returned {
                content + seq![13u8, 10u8]
            } else {
                content + seq![10u8]
            };
            let end = if returned {
                content.len() + 1
            } else {
                content.len()
            };
            let read = readable_lines(complete_lines(line + rest, 0));
            let more = readable_lines(complete_lines(rest, 0));
            let blank = forall|i: int|
                0 <= i < content.len() ==> (#[trigger] content[i] == 9 || content[i] == 12
                    || content[i] == 13 || content[i] == 32);
            &&& blank ==> read == more
            &&& !blank && parsed(content) is Some ==> read == seq![parsed(content)->0] + more
            &&& !blank && parsed(content) is None ==> read == more
            &&& !blank && parsed(content) is None ==> parsed_lines(complete_lines(line + rest, 0))
                == Err::<Seq<JsonView>, BadLine>(
                BadLine { end: end as int, reason: refusal(content) },
            )
            &&& blank && parsed_lines(complete_lines(rest, 0)) is Ok ==> parsed_lines(
                complete_lines(line + rest, 0),
            ) == parsed_lines(complete_lines(rest, 0))
            &&& !blank && parsed(content) is Some && parsed_lines(complete_lines(rest, 0)) is Ok
                ==> parsed_lines(complete_lines(line + rest, 0)) == Ok::<Seq<JsonView>, BadLine>(
                seq![parsed(content)->0] + parsed_lines(complete_lines(rest, 0))->Ok_0,
            )
        }),
{
    let inner = if returned {
        content.push(13u8)
    } else {
        content
    };
    let line = if returned {
        content + seq![13u8, 10u8]
    } else {
        content + seq![10u8]
    };
    assert(line + rest =~= inner + seq![10u8] + rest);
    assert forall|i: int| 0 <= i < inner.len() implies #[trigger] inner[i] != 10 by {
        if i < content.len() {
            assert(inner[i] == content[i]);
        }
    }
    a_line_stands_before_its_end(inner, rest, 0);
    let lines = complete_lines(line + rest, 0);
    let tail = complete_lines(rest, inner.len() as int + 1);
    assert(lines == seq![LineView { content: inner, end: inner.len() as int }] + tail);
    assert(lines.skip(1) =~= tail);
    assert(lines[0].content == inner);
    if returned {
        assert(inner.drop_last() =~= content);
    }
    assert(without_cr(inner) == content);
    let blank = forall|i: int|
        0 <= i < content.len() ==> (#[trigger] content[i] == 9 || content[i] == 12 || content[i]
            == 13 || content[i] == 32);
    assert(blank_line(content) == blank) by {
        if blank {
            assert forall|i: int| 0 <= i < content.len() implies ascii_blank(
                #[trigger] content[i],
            ) by {}
        }
        if blank_line(content) {
            assert forall|i: int| 0 <= i < content.len() implies (#[trigger] content[i] == 9
                || content[i] == 12 || content[i] == 13 || content[i] == 32) by {
                assert(ascii_blank(content[i]));
            }
        }
    }
    readable_anywhere(rest, inner.len() as int + 1, 0);
    same_documents(rest, inner.len() as int + 1, 0);
}

/// A record is known by the first identifier that it has, in the order eventId,
/// event_id, id, itemId, turnId, and otherwise by the digest of its content.
pub proof fn records_are_known_by_their_identifiers(value: JsonView, id: Seq<char>)
    ensures
        ({
            let has = |name: Seq<char>| text_field(value, name) == Some(id);
            let lacks = |name: Seq<char>| text_field(value, name) is None;
            &&& has("eventId"@) ==> key_of(value) == "eventId"@ + ":"@ + id
            &&& lacks("eventId"@) && has("event_id"@) ==> key_of(value) == "event_id"@ + ":"@ + id
            &&& lacks("eventId"@) && lacks("event_id"@) && has("id"@) ==> key_of(value) == "id"@
                + ":"@ + id
            &&& lacks("eventId"@) && lacks("event_id"@) && lacks("id"@) && has("itemId"@)
                ==> key_of(value) == "itemId"@ + ":"@ + id
            &&& lacks("eventId"@) && lacks("event_id"@) && lacks("id"@) && lacks("itemId"@) && has(
                "turnId"@,
            ) ==> key_of(value) == "turnId"@ + ":"@ + id
            &&& lacks("eventId"@) && lacks("event_id"@) && lacks("id"@) && lacks("itemId"@)
                && lacks("turnId"@) && encoded(value) is Some ==> key_of(value) == "sha256:"@ + hex(
                sha256(encoded(value)->0),
            )
        }),
{
}

/// The keys of two records differ where their identifiers of the same name do.
pub proof fn different_identifiers_give_different_keys(left: JsonView, right: JsonView)
    requires
        text_field(left, "eventId"@) is Some,
        text_field(right, "eventId"@) is Some,
    ensures
        key_of(left) == key_of(right) <==> text_field(left, "eventId"@) == text_field(
            right,
            "eventId"@,
        ),
{
    let head = "eventId"@ + ":"@;
    let one = text_field(left, "eventId"@)->0;
    let two = text_field(right, "eventId"@)->0;
    if key_of(left) == key_of(right) {
        assert((head + one).skip(head.len() as int) =~= one);
        assert((head + two).skip(head.len() as int) =~= two);
    }
}

/// A file counts as another one where it got shorter, begins otherwise or got
/// older; one that only grew does not.
pub proof fn replaced_files_are_noticed(before: FingerprintView, now: FingerprintView, i: int)
    ensures
        now.len < before.len ==> before.replaced_by(now),
        0 <= i < before.prefix.len() && (i >= now.prefix.len() || now.prefix[i]
            != before.prefix[i]) ==> before.replaced_by(now),
        before.modified is Some && now.modified is Some && now.modified->0 < before.modified->0
            ==> before.replaced_by(now),
        now.len >= before.len && before.prefix.len() <= now.prefix.len() && (forall|k: int|
            0 <= k < before.prefix.len() ==> #[trigger] before.prefix[k] == now.prefix[k]) && (
        before.modified is None || now.modified is None || before.modified->0 <= now.modified->0)
            ==> !before.replaced_by(now),
{
    if before.prefix.len() <= now.prefix.len() && (forall|k: int|
        0 <= k < before.prefix.len() ==> #[trigger] before.prefix[k] == now.prefix[k]) {
        assert(before.prefix =~= now.prefix.subrange(0, before.prefix.len() as int));
    }
}

/// A replaced file is read from its start, with the keys still remembered;
/// otherwise the reading goes on where it was, and what was read is counted.
pub proof fn reading_goes_on_or_starts_over(
    tailer: TailerView,
    file: FingerprintView,
    bytes: Seq<u8>,
)
    ensures
        tailer.looked_at(file).fingerprint == Some(file),
        tailer.looked_at(file).seen == tailer.seen,
        tailer.fingerprint is Some && tailer.fingerprint->0.replaced_by(file) ==> tailer.looked_at(
            file,
        ).offset == 0 && tailer.looked_at(file).partial.len() == 0,
        tailer.fingerprint is None || !tailer.fingerprint->0.replaced_by(file) ==> tailer.looked_at(
            file,
        ).offset == tailer.offset && tailer.looked_at(file).partial == tailer.partial,
        tailer.offset + bytes.len() <= u64::MAX ==> tailer.fed(bytes).offset == tailer.offset
            + bytes.len(),
        tailer.fed(bytes).fingerprint == tailer.fingerprint,
        tailer.fed(bytes).path == tailer.path,
        (forall|i: int| 0 <= i < tailer.partial.len() + bytes.len() ==> #[trigger] (tailer.partial
            + bytes)[i] != 10) ==> tailer.fed(bytes).partial == tailer.partial + bytes
            && tailer.records(bytes).len() == 0 && tailer.fed(bytes).seen == tailer.seen,
{
    if forall|i: int| 0 <= i < tailer.partial.len() + bytes.len() ==> #[trigger] (tailer.partial
        + bytes)[i] != 10 {
        a_line_stands_before_its_end(tailer.partial + bytes, Seq::empty(), 0);
    }
}

/// A key that was met is remembered with the last 4095 others: a known key
/// changes nothing, and only where the memory is full the oldest key goes.
pub proof fn the_last_keys_are_remembered(seen: Seq<Seq<char>>, key: Seq<char>)
    ensures
        remembered(seen, key).contains(key),
        seen.contains(key) ==> remembered(seen, key) == seen,
        !seen.contains(key) && seen.len() < 4096 ==> remembered(seen, key) == seen.push(key),
        !seen.contains(key) && seen.len() == 4096 ==> remembered(seen, key) == seen.skip(1).push(
            key,
        ),
{
    if !seen.contains(key) {
        assert(seen.push(key)[seen.len() as int] == key);
        if seen.len() >= 4096 {
            let kept = seen.push(key).skip(seen.len() + 1 - MAX_SEEN);
            assert(kept[kept.len() - 1] == key);
        }
        if seen.len() == 4096 {
            assert(seen.push(key).skip(1) =~= seen.skip(1).push(key));
        }
    }
}

/// A document with a new key is handed out under it, before those that follow;
/// one with a known key is not.
pub proof fn new_documents_are_handed_out(
    seen: Seq<Seq<char>>,
    value: JsonView,
    rest: Seq<JsonView>,
)
    ensures
        !seen.contains(key_of(value)) ==> fresh_records(seen, seq![value] + rest).len() > 0
            && fresh_records(seen, seq![value] + rest)[0] == (RecordView {
            key: key_of(value),
            value,
        }),
        seen.contains(key_of(value)) ==> fresh_records(seen, seq![value] + rest) == fresh_records(
            seen,
            rest,
        ),
        seen_after(seen, seq![value] + rest) == seen_after(remembered(seen, key_of(value)), rest),
        fresh_records(seen, Seq::empty()).len() == 0,
{
    assert((seq![value] + rest).skip(1) =~= rest);
}

/// The lines of a file are what stands before each end of a line, and what
/// follows the last one where there is something, each without the carriage
/// return at its end.
pub proof fn files_are_read_line_by_line(content: Seq<u8>, rest: Seq<u8>)
    requires
        forall|i: int| 0 <= i < content.len() ==> #[trigger] content[i] != 10,
    ensures
        ({
            let line = if content.len() > 0 && content.last() == 13 {
                content.drop_last()
            } else {
                content
            };
            &&& file_lines(content + seq![10u8] + rest) == seq![line] + file_lines(rest)
            &&& content.len() > 0 ==> file_lines(content) == seq![line]
            &&& file_lines(Seq::empty()).len() == 0
        }),
{
    a_line_stands_before_its_end(content, rest, 0);
    a_line_stands_before_its_end(Seq::empty(), Seq::empty(), 0);
    same_contents(rest, 0, content.len() as int + 1);
    let whole = content + seq![10u8] + rest;
    let near = complete_lines(rest, 0);
    let far = complete_lines(rest, content.len() as int + 1);
    let all = complete_lines(whole, 0);
    assert(all == seq![LineView { content, end: content.len() as int }] + far);
    let line = without_cr(content);
    let first = Seq::new(all.len(), |i: int| without_cr(all[i].content));
    let more = Seq::new(near.len(), |i: int| without_cr(near[i].content));
    assert(first =~= seq![line] + more) by {
        assert forall|i: int| 0 <= i < first.len() implies first[i] == (seq![line] + more)[i] by {
            if i > 0 {
                assert(all[i] == far[i - 1]);
                assert(far[i - 1].content == near[i - 1].content);
            }
        }
    }
    assert(file_lines(whole) =~= seq![line] + file_lines(rest));
    if content.len() > 0 {
        assert(file_lines(content) =~= seq![line]);
    }
}

proof fn same_contents(bytes: Seq<u8>, left: int, right: int)
    ensures
        complete_lines(bytes, left).len() == complete_lines(bytes, right).len(),
        forall|i: int|
            0 <= i < complete_lines(bytes, left).len() ==> (#[trigger] complete_lines(
                bytes,
                left,
            )[i]).content == complete_lines(bytes, right)[i].content,
    decreases bytes.len(),
{
    line_end_is_first(bytes);
    let end = line_end(bytes);
    if end < bytes.len() {
        let rest = bytes.skip(end + 1);
        same_contents(rest, left + end + 1, right + end + 1);
        let a = complete_lines(rest, left + end + 1);
        let b = complete_lines(rest, right + end + 1);
        let one = complete_lines(bytes, left);
        let two = complete_lines(bytes, right);
        assert forall|i: int| 0 <= i < one.len() implies (#[trigger] one[i]).content
            == two[i].content by {
            if i > 0 {
                assert(one[i] == a[i - 1] && two[i] == b[i - 1]);
            }
        }
    }
}

/// The end of a file is read backwards in pieces of 8 KiB.
pub proof fn files_are_read_backwards_in_pieces()
    ensures
        SUFFIX_CHUNK == 8 * 1024,
        MAX_SEEN == 4096,
{
}

} // verus!
