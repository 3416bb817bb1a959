//! Paths as the file system reads them: repeated separators, single dots and
//! a separator at the end do not tell two paths apart.

use vstd::prelude::*;

use crate::text::{cat, cat3, from_chars, join, joined, opt, same, to_chars, views};

verus! {

/// How paths are written.
#[derive(Clone, Copy, Debug, PartialEq, Eq, Structural)]
pub enum PathStyle {
    Unix,
    Windows,
}

/// The kinds of prefix with which a path of Windows begins, in their order.
#[derive(Clone, Copy, Debug, PartialEq, Eq, Structural)]
pub enum PrefixKind {
    /// `\\?\name`
    Verbatim,
    /// `\\?\UNC\server\share`
    VerbatimShare,
    /// `\\?\C:`
    VerbatimDisk,
    /// `\\.\name`
    Device,
    /// `\\server\share`
    Share,
    /// `C:`
    Disk,
}

/// The prefix of a path of Windows: a name, a server and a share, or the letter
/// of a disk in upper case.
#[derive(Debug)]
pub struct Prefix {
    pub kind: PrefixKind,
    pub first: String,
    pub second: String,
}

/// The content of a [`Prefix`].
pub struct PrefixView {
    pub kind: PrefixKind,
    pub first: Seq<char>,
    pub second: Seq<char>,
}

impl View for Prefix {
    type V = PrefixView;

    open spec fn view(&self) -> PrefixView {
        PrefixView { kind: self.kind, first: self.first@, second: self.second@ }
    }
}

/// A part of a path.
#[derive(Debug)]
pub enum PathPart {
    Prefix(Prefix),
    Root,
    Current,
    Parent,
    Normal(String),
}

/// The content of a [`PathPart`].
pub enum PartView {
    Prefix(PrefixView),
    Root,
    Current,
    Parent,
    Normal(Seq<char>),
}

impl View for PathPart {
    type V = PartView;

    open spec fn view(&self) -> PartView {
        match self {
            PathPart::Prefix(prefix) => PartView::Prefix(prefix@),
            PathPart::Root => PartView::Root,
            PathPart::Current => PartView::Current,
            PathPart::Parent => PartView::Parent,
            PathPart::Normal(name) => PartView::Normal(name@),
        }
    }
}

/// Whether a character separates the parts of a path.  After a verbatim prefix
/// only the backslash does.
pub open spec fn separates(style: PathStyle, verbatim: bool, c: char) -> bool {
    match style {
        PathStyle::Unix => c == '/',
        PathStyle::Windows => c == '\\' || c == '/' && !verbatim,
    }
}

/// Where the first piece ends; the length where no separator follows.
pub open spec fn piece_end(text: Seq<char>, style: PathStyle, verbatim: bool) -> int
    decreases text.len(),
{
    if text.len() == 0 || separates(style, verbatim, text[0]) {
        0
    } else {
        1 + piece_end(text.skip(1), style, verbatim)
    }
}

/// The piece of a path of Windows that begins at a place.
pub open spec fn piece_at(text: Seq<char>, from: int, verbatim: bool) -> Seq<char> {
    text.subrange(from, from + piece_end(text.skip(from), PathStyle::Windows, verbatim))
}

/// The piece behind the one that begins at a place; none where the path ends with that.
pub open spec fn second_piece(text: Seq<char>, from: int, verbatim: bool) -> Seq<char> {
    let end = from + piece_end(text.skip(from), PathStyle::Windows, verbatim);
    if end < text.len() {
        piece_at(text, end + 1, verbatim)
    } else {
        Seq::empty()
    }
}

/// Whether a path has the letter of a disk at a place.
pub open spec fn disk_at(text: Seq<char>, from: int) -> bool {
    &&& from + 2 <= text.len()
    &&& 'a' <= text[from] <= 'z' || 'A' <= text[from] <= 'Z'
    &&& text[from + 1] == ':'
}

/// An ASCII letter in upper case.
pub open spec fn upper_letter(c: char) -> char {
    if 'a' <= c <= 'z' {
        (c as u32 - 32) as char
    } else {
        c
    }
}

/// The prefix of a path that begins with `\\?\`.
pub open spec fn verbatim_prefix(text: Seq<char>) -> PrefixView {
    if text.len() >= 8 && text[4] == 'U' && text[5] == 'N' && text[6] == 'C' && separates(
        PathStyle::Windows,
        false,
        text[7],
    ) {
        PrefixView {
            kind: PrefixKind::VerbatimShare,
            first: piece_at(text, 8, true),
            second: second_piece(text, 8, true),
        }
    } else if disk_at(text, 4) && (text.len() == 6 || separates(
        PathStyle::Windows,
        false,
        text[6],
    )) {
        PrefixView {
            kind: PrefixKind::VerbatimDisk,
            first: seq![upper_letter(text[4])],
            second: Seq::empty(),
        }
    } else {
        PrefixView {
            kind: PrefixKind::Verbatim,
            first: piece_at(text, 4, true),
            second: Seq::empty(),
        }
    }
}

/// The prefix of a path of Windows.
pub open spec fn windows_prefix(text: Seq<char>) -> Option<PrefixView> {
    let slash = |i: int| separates(PathStyle::Windows, false, text[i]);
    if text.len() >= 2 && slash(0) && slash(1) {
        if text.len() >= 4 && text[0] == '\\' && text[1] == '\\' && text[2] == '?' && text[3]
            == '\\' {
            Some(verbatim_prefix(text))
        } else if text.len() >= 4 && text[2] == '.' && slash(3) {
            Some(
                PrefixView {
                    kind: PrefixKind::Device,
                    first: piece_at(text, 4, false),
                    second: Seq::empty(),
                },
            )
        } else if piece_at(text, 2, false).len() > 0 && second_piece(text, 2, false).len() > 0 {
            Some(
                PrefixView {
                    kind: PrefixKind::Share,
                    first: piece_at(text, 2, false),
                    second: second_piece(text, 2, false),
                },
            )
        } else {
            None
        }
    } else if disk_at(text, 0) {
        Some(
            PrefixView {
                kind: PrefixKind::Disk,
                first: seq![upper_letter(text[0])],
                second: Seq::empty(),
            },
        )
    } else {
        None
    }
}

/// The prefix of a path; a path of Unix has none.
pub open spec fn prefix_of(text: Seq<char>, style: PathStyle) -> Option<PrefixView> {
    match style {
        PathStyle::Unix => None,
        PathStyle::Windows => windows_prefix(text),
    }
}

/// How many characters a prefix takes.
pub open spec fn prefix_len(prefix: Option<PrefixView>) -> int {
    match prefix {
        None => 0,
        Some(prefix) => {
            let share = if prefix.second.len() > 0 {
                1 + prefix.second.len() as int
            } else {
                0
            };
            match prefix.kind {
                PrefixKind::Verbatim | PrefixKind::Device => 4 + prefix.first.len() as int,
                PrefixKind::VerbatimShare => 8 + prefix.first.len() as int + share,
                PrefixKind::VerbatimDisk => 6,
                PrefixKind::Share => 2 + prefix.first.len() as int + share,
                PrefixKind::Disk => 2,
            }
        },
    }
}

/// Whether what follows a prefix is taken as it is written.
pub open spec fn is_verbatim(prefix: Option<PrefixView>) -> bool {
    prefix matches Some(prefix) && (prefix.kind == PrefixKind::Verbatim || prefix.kind
        == PrefixKind::VerbatimShare || prefix.kind == PrefixKind::VerbatimDisk)
}

/// Whether a prefix is more than the letter of a disk, which alone has no root.
pub open spec fn implies_root(prefix: Option<PrefixView>) -> bool {
    prefix matches Some(prefix) && prefix.kind != PrefixKind::Disk
}

/// The parts that a piece stands for: none for an empty one, nor for a dot.
pub open spec fn piece_parts(piece: Seq<char>, verbatim: bool) -> Seq<PartView> {
    if piece.len() == 0 {
        Seq::empty()
    } else if piece == "."@ {
        if verbatim {
            seq![PartView::Current]
        } else {
            Seq::empty()
        }
    } else if piece == ".."@ {
        seq![PartView::Parent]
    } else {
        seq![PartView::Normal(piece)]
    }
}

/// The parts behind the prefix and the root.
pub open spec fn body_parts(text: Seq<char>, style: PathStyle, verbatim: bool) -> Seq<PartView>
    decreases text.len(),
{
    if text.len() == 0 {
        Seq::empty()
    } else {
        let end = piece_end(text, style, verbatim);
        piece_parts(text.take(end), verbatim) + (if 0 <= end < text.len() {
            body_parts(text.skip(end + 1), style, verbatim)
        } else {
            Seq::empty()
        })
    }
}

/// What stands between the prefix and the body: the root, or a dot with which
/// a path without a prefix begins.
pub open spec fn start_parts(
    rest: Seq<char>,
    style: PathStyle,
    prefix: Option<PrefixView>,
) -> Seq<PartView> {
    let rooted = rest.len() > 0 && separates(style, false, rest[0]);
    if rooted || implies_root(prefix) && !is_verbatim(prefix) {
        seq![PartView::Root]
    } else if prefix is None && rest.len() > 0 && rest[0] == '.' && (rest.len() == 1 || separates(
        style,
        false,
        rest[1],
    )) {
        seq![PartView::Current]
    } else {
        Seq::empty()
    }
}

/// The parts of a path.
pub open spec fn path_parts(text: Seq<char>, style: PathStyle) -> Seq<PartView> {
    let prefix = prefix_of(text, style);
    let rest = text.skip(prefix_len(prefix));
    (match prefix {
        Some(prefix) => seq![PartView::Prefix(prefix)],
        None => Seq::empty(),
    }) + start_parts(rest, style, prefix) + body_parts(rest, style, is_verbatim(prefix))
}

/// Whether two paths are the same, part by part.
pub open spec fn same_path_as(left: Seq<char>, right: Seq<char>, style: PathStyle) -> bool {
    path_parts(left, style) == path_parts(right, style)
}

/// Whether two optional paths are the same.
pub open spec fn same_opt_path_as(
    left: Option<Seq<char>>,
    right: Option<Seq<char>>,
    style: PathStyle,
) -> bool {
    match (left, right) {
        (Some(left), Some(right)) => same_path_as(left, right, style),
        (None, None) => true,
        _ => false,
    }
}

proof fn piece_end_is_inside(text: Seq<char>, style: PathStyle, verbatim: bool)
    ensures
        0 <= piece_end(text, style, verbatim) <= text.len(),
    decreases text.len(),
{
    if text.len() > 0 && !separates(style, verbatim, text[0]) {
        piece_end_is_inside(text.skip(1), style, verbatim);
    }
}

fn is_separator(style: PathStyle, verbatim: bool, c: char) -> (r: bool)
    ensures
        r == separates(style, verbatim, c),
{
    match style {
        PathStyle::Unix => c == '/',
        PathStyle::Windows => c == '\\' || c == '/' && !verbatim,
    }
}

fn find_end(chars: &Vec<char>, from: usize, style: PathStyle, verbatim: bool) -> (r: usize)
    requires
        from <= chars@.len(),
    ensures
        r == from + piece_end(chars@.skip(from as int), style, verbatim),
        from <= r <= chars@.len(),
{
    let mut i: usize = from;
    while i < chars.len() && !is_separator(style, verbatim, chars[i])
        invariant
            from <= i <= chars@.len(),
            from + piece_end(chars@.skip(from as int), style, verbatim) == i + piece_end(
                chars@.skip(i as int),
                style,
                verbatim,
            ),
        decreases chars.len() - i,
    {
        assert(chars@.skip(i as int).skip(1) =~= chars@.skip(i + 1));
        i = i + 1;
    }
    i
}

fn read_piece(chars: &Vec<char>, from: usize, verbatim: bool) -> (r: String)
    requires
        from <= chars@.len(),
    ensures
        r@ == piece_at(chars@, from as int, verbatim),
{
    let end: usize = find_end(chars, from, PathStyle::Windows, verbatim);
    from_chars(chars, from, end)
}

fn read_second_piece(chars: &Vec<char>, from: usize, verbatim: bool) -> (r: String)
    requires
        from <= chars@.len(),
    ensures
        r@ == second_piece(chars@, from as int, verbatim),
{
    let end: usize = find_end(chars, from, PathStyle::Windows, verbatim);
    if end < chars.len() {
        read_piece(chars, end + 1, verbatim)
    } else {
        let empty = String::new();
        assert(empty@ =~= Seq::<char>::empty());
        empty
    }
}

fn has_disk(chars: &Vec<char>, from: usize) -> (r: bool)
    requires
        from <= chars@.len(),
    ensures
        r == disk_at(chars@, from as int),
{
    chars.len() - from >= 2 && (('a' <= chars[from] && chars[from] <= 'z') || ('A' <= chars[from]
        && chars[from] <= 'Z')) && chars[from + 1] == ':'
}

fn no_text() -> (r: String)
    ensures
        r@ == Seq::<char>::empty(),
{
    let empty = String::new();
    assert(empty@ =~= Seq::<char>::empty());
    empty
}

fn letter_text(c: char) -> (r: String)
    requires
        'a' <= c <= 'z' || 'A' <= c <= 'Z',
    ensures
        r@ == seq![upper_letter(c)],
{
    let mut text = String::new();
    let upper: char = if 'a' <= c && c <= 'z' {
        ((c as u32 - 32) as u8) as char
    } else {
        c
    };
    text.push(upper);
    assert(text@ =~= seq![upper_letter(c)]);
    text
}

fn read_verbatim_prefix(chars: &Vec<char>) -> (r: Prefix)
    requires
        chars@.len() >= 4,
    ensures
        r@ == verbatim_prefix(chars@),
{
    if chars.len() >= 8 && chars[4] == 'U' && chars[5] == 'N' && chars[6] == 'C' && is_separator(
        PathStyle::Windows,
        false,
        chars[7],
    ) {
        Prefix {
            kind: PrefixKind::VerbatimShare,
            first: read_piece(chars, 8, true),
            second: read_second_piece(chars, 8, true),
        }
    } else if has_disk(chars, 4) && (chars.len() == 6 || is_separator(
        PathStyle::Windows,
        false,
        chars[6],
    )) {
        Prefix {
            kind: PrefixKind::VerbatimDisk,
            first: letter_text(chars[4]),
            second: no_text(),
        }
    } else {
        Prefix { kind: PrefixKind::Verbatim, first: read_piece(chars, 4, true), second: no_text() }
    }
}

fn read_windows_prefix(chars: &Vec<char>) -> (r: Option<Prefix>)
    ensures
        opt(r) == windows_prefix(chars@),
{
    let style = PathStyle::Windows;
    if chars.len() >= 2 && is_separator(style, false, chars[0]) && is_separator(
        style,
        false,
        chars[1],
    ) {
        if chars.len() >= 4 && chars[0] == '\\' && chars[1] == '\\' && chars[2] == '?' && chars[3]
            == '\\' {
            return Some(read_verbatim_prefix(chars));
        }
        if chars.len() >= 4 && chars[2] == '.' && is_separator(style, false, chars[3]) {
            return Some(
                Prefix {
                    kind: PrefixKind::Device,
                    first: read_piece(chars, 4, false),
                    second: no_text(),
                },
            );
        }
        let first = read_piece(chars, 2, false);
        let second = read_second_piece(chars, 2, false);
        if first.as_str().is_empty() || second.as_str().is_empty() {
            return None;
        }
        return Some(Prefix { kind: PrefixKind::Share, first, second });
    }
    if has_disk(chars, 0) {
        return Some(
            Prefix { kind: PrefixKind::Disk, first: letter_text(chars[0]), second: no_text() },
        );
    }
    None
}

fn read_prefix(chars: &Vec<char>, style: PathStyle) -> (r: Option<Prefix>)
    ensures
        opt(r) == prefix_of(chars@, style),
{
    match style {
        PathStyle::Unix => None,
        PathStyle::Windows => read_windows_prefix(chars),
    }
}

proof fn pieces_are_inside(text: Seq<char>, from: int, verbatim: bool)
    requires
        0 <= from <= text.len(),
    ensures
        from + piece_at(text, from, verbatim).len() <= text.len(),
        second_piece(text, from, verbatim).len() > 0 ==> from + piece_at(
            text,
            from,
            verbatim,
        ).len() + 1 + second_piece(text, from, verbatim).len() <= text.len(),
{
    piece_end_is_inside(text.skip(from), PathStyle::Windows, verbatim);
    let end = from + piece_end(text.skip(from), PathStyle::Windows, verbatim);
    if end < text.len() {
        piece_end_is_inside(text.skip(end + 1), PathStyle::Windows, verbatim);
    }
}

proof fn prefix_is_inside(text: Seq<char>, style: PathStyle)
    ensures
        0 <= prefix_len(prefix_of(text, style)) <= text.len(),
{
    if text.len() >= 2 {
        pieces_are_inside(text, 2, false);
    }
    if text.len() >= 4 {
        pieces_are_inside(text, 4, false);
        pieces_are_inside(text, 4, true);
    }
    if text.len() >= 8 {
        pieces_are_inside(text, 8, true);
    }
}

fn prefix_length(prefix: &Option<Prefix>, Ghost(limit): Ghost<int>) -> (r: usize)
    requires
        prefix_len(opt(*prefix)) <= limit <= usize::MAX,
    ensures
        r == prefix_len(opt(*prefix)),
{
    match prefix {
        None => 0,
        Some(prefix) => {
            let first: usize = to_chars(prefix.first.as_str()).len();
            let second: usize = to_chars(prefix.second.as_str()).len();
            match prefix.kind {
                PrefixKind::Verbatim | PrefixKind::Device => 4 + first,
                PrefixKind::VerbatimShare => if second > 0 {
                    8 + first + 1 + second
                } else {
                    8 + first
                },
                PrefixKind::VerbatimDisk => 6,
                PrefixKind::Share => if second > 0 {
                    2 + first + 1 + second
                } else {
                    2 + first
                },
                PrefixKind::Disk => 2,
            }
        },
    }
}

fn takes_verbatim(prefix: &Option<Prefix>) -> (r: bool)
    ensures
        r == is_verbatim(opt(*prefix)),
{
    match prefix {
        None => false,
        Some(prefix) => match prefix.kind {
            PrefixKind::Verbatim | PrefixKind::VerbatimShare | PrefixKind::VerbatimDisk => true,
            _ => false,
        },
    }
}

fn has_implied_root(prefix: &Option<Prefix>) -> (r: bool)
    ensures
        r == implies_root(opt(*prefix)),
{
    match prefix {
        None => false,
        Some(prefix) => match prefix.kind {
            PrefixKind::Disk => false,
            _ => true,
        },
    }
}

fn push_piece(parts: &mut Vec<PathPart>, piece: String, verbatim: bool)
    ensures
        views(final(parts)@) == views(old(parts)@) + piece_parts(piece@, verbatim),
{
    let ghost before = views(parts@);
    proof {
        reveal_strlit(".");
        reveal_strlit("..");
        assert("."@.len() == 1 && ".."@.len() == 2);
    }
    let part = if piece.as_str().is_empty() {
        None
    } else if same(piece.as_str(), ".") {
        if verbatim {
            Some(PathPart::Current)
        } else {
            None
        }
    } else if same(piece.as_str(), "..") {
        Some(PathPart::Parent)
    } else {
        Some(PathPart::Normal(piece))
    };
    if let Some(part) = part {
        let ghost content = part@;
        parts.push(part);
        assert(views(parts@) =~= before + seq![content]);
    } else {
        assert(views(parts@) =~= before + Seq::<PartView>::empty());
    }
}

fn push_body(
    parts: &mut Vec<PathPart>,
    chars: &Vec<char>,
    from: usize,
    style: PathStyle,
    verbatim: bool,
)
    requires
        from <= chars@.len(),
    ensures
        views(final(parts)@) == views(old(parts)@) + body_parts(
            chars@.skip(from as int),
            style,
            verbatim,
        ),
{
    let ghost whole = views(parts@) + body_parts(chars@.skip(from as int), style, verbatim);
    let mut start: usize = from;
    while start < chars.len()
        invariant
            start <= chars@.len(),
            views(parts@) + body_parts(chars@.skip(start as int), style, verbatim) == whole,
        decreases chars.len() - start,
    {
        let ghost rest = chars@.skip(start as int);
        let ghost before = views(parts@);
        let end: usize = find_end(chars, start, style, verbatim);
        let ghost length = piece_end(rest, style, verbatim);
        assert(chars@.subrange(start as int, end as int) =~= rest.take(length));
        push_piece(parts, from_chars(chars, start, end), verbatim);
        if end < chars.len() {
            assert(rest.skip(length + 1) =~= chars@.skip(end + 1));
            assert(views(parts@) + body_parts(chars@.skip(end + 1), style, verbatim) =~= before
                + body_parts(rest, style, verbatim));
            start = end + 1;
        } else {
            assert(views(parts@) =~= before + body_parts(rest, style, verbatim));
            assert(chars@.skip(chars@.len() as int).len() == 0);
            assert(views(parts@) + Seq::<PartView>::empty() =~= views(parts@));
            start = chars.len();
        }
    }
    assert(views(parts@) + Seq::<PartView>::empty() =~= views(parts@));
}

/// The parts of a path.
pub fn read_parts(text: &str, style: PathStyle) -> (r: Vec<PathPart>)
    ensures
        views(r@) == path_parts(text@, style),
{
    let chars = to_chars(text);
    let prefix = read_prefix(&chars, style);
    let ghost known = opt(prefix);
    proof {
        prefix_is_inside(chars@, style);
    }
    let length: usize = chars.len();
    assert(0 <= prefix_len(known) <= length);
    let from: usize = prefix_length(&prefix, Ghost(length as int));
    let verbatim = takes_verbatim(&prefix);
    let implied = has_implied_root(&prefix);
    let bare = prefix.is_none();
    let ghost rest = chars@.skip(from as int);
    let rooted = from < chars.len() && is_separator(style, false, chars[from]);
    let dotted = from < chars.len() && chars[from] == '.' && (chars.len() - from == 1
        || is_separator(style, false, chars[from + 1]));
    let mut parts: Vec<PathPart> = Vec::new();
    let ghost mut head: Seq<PartView> = Seq::empty();
    assert(views(parts@) =~= head);
    if let Some(prefix) = prefix {
        let ghost content = PartView::Prefix(prefix@);
        parts.push(PathPart::Prefix(prefix));
        proof {
            head = seq![content];
        }
        assert(views(parts@) =~= head);
    }
    if rooted || implied && !verbatim {
        parts.push(PathPart::Root);
    } else if bare && dotted {
        parts.push(PathPart::Current);
    }
    assert(views(parts@) =~= head + start_parts(rest, style, known));
    push_body(&mut parts, &chars, from, style, verbatim);
    parts
}

fn same_part(left: &PathPart, right: &PathPart) -> (r: bool)
    ensures
        r == (left@ == right@),
{
    match (left, right) {
        (PathPart::Prefix(a), PathPart::Prefix(b)) => a.kind == b.kind && same(
            a.first.as_str(),
            b.first.as_str(),
        ) && same(a.second.as_str(), b.second.as_str()),
        (PathPart::Root, PathPart::Root) => true,
        (PathPart::Current, PathPart::Current) => true,
        (PathPart::Parent, PathPart::Parent) => true,
        (PathPart::Normal(a), PathPart::Normal(b)) => same(a.as_str(), b.as_str()),
        _ => false,
    }
}

/// Whether two paths are the same, part by part.
pub fn same_path(left: &str, right: &str, style: PathStyle) -> (r: bool)
    ensures
        r == same_path_as(left@, right@, style),
{
    let a = read_parts(left, style);
    let b = read_parts(right, style);
    let ghost first = views(a@);
    let ghost second = views(b@);
    if a.len() != b.len() {
        assert(first.len() != second.len());
        return false;
    }
    let mut i: usize = 0;
    while i < a.len()
        invariant
            first == views(a@),
            second == views(b@),
            first == path_parts(left@, style),
            second == path_parts(right@, style),
            a@.len() == b@.len(),
            i <= a@.len(),
            forall|k: int| 0 <= k < i ==> #[trigger] first[k] == second[k],
        decreases a.len() - i,
    {
        if !same_part(&a[i], &b[i]) {
            assert(first[i as int] != second[i as int]);
            return false;
        }
        assert(first[i as int] == second[i as int]);
        i = i + 1;
    }
    assert(first =~= second);
    true
}

/// Whether two optional paths are the same.
pub fn same_opt_path(left: &Option<String>, right: &Option<String>, style: PathStyle) -> (r: bool)
    ensures
        r == same_opt_path_as(opt(*left), opt(*right), style),
{
    match (left, right) {
        (Some(left), Some(right)) => same_path(left.as_str(), right.as_str(), style),
        (None, None) => true,
        _ => false,
    }
}

/// Whether a path is the same as an optional one.
pub fn is_path(left: &Option<String>, right: &str, style: PathStyle) -> (r: bool)
    ensures
        r == same_opt_path_as(opt(*left), Some(right@), style),
{
    match left {
        Some(left) => same_path(left.as_str(), right, style),
        None => false,
    }
}

/// Whether one text comes before another, character by character.
pub open spec fn text_before(left: Seq<char>, right: Seq<char>) -> bool
    decreases left.len(),
{
    if right.len() == 0 {
        false
    } else if left.len() == 0 {
        true
    } else if left[0] == right[0] {
        text_before(left.skip(1), right.skip(1))
    } else {
        left[0] < right[0]
    }
}

/// The place of a kind of prefix among the others.
pub open spec fn kind_rank(kind: PrefixKind) -> int {
    match kind {
        PrefixKind::Verbatim => 0,
        PrefixKind::VerbatimShare => 1,
        PrefixKind::VerbatimDisk => 2,
        PrefixKind::Device => 3,
        PrefixKind::Share => 4,
        PrefixKind::Disk => 5,
    }
}

/// The place of a kind of part among the others.
pub open spec fn part_rank(part: PartView) -> int {
    match part {
        PartView::Prefix(_) => 0,
        PartView::Root => 1,
        PartView::Current => 2,
        PartView::Parent => 3,
        PartView::Normal(_) => 4,
    }
}

/// Whether one prefix comes before another.
pub open spec fn prefix_before(left: PrefixView, right: PrefixView) -> bool {
    if left.kind != right.kind {
        kind_rank(left.kind) < kind_rank(right.kind)
    } else if left.first != right.first {
        text_before(left.first, right.first)
    } else {
        text_before(left.second, right.second)
    }
}

/// Whether one part comes before another.
pub open spec fn part_before(left: PartView, right: PartView) -> bool {
    match (left, right) {
        (PartView::Prefix(left), PartView::Prefix(right)) => prefix_before(left, right),
        (PartView::Normal(left), PartView::Normal(right)) => text_before(left, right),
        _ => part_rank(left) < part_rank(right),
    }
}

/// Whether one list of parts comes before another: at the first place where
/// they differ, or by ending first.
pub open spec fn parts_before(left: Seq<PartView>, right: Seq<PartView>) -> bool
    decreases left.len(),
{
    if right.len() == 0 {
        false
    } else if left.len() == 0 {
        true
    } else if left[0] == right[0] {
        parts_before(left.skip(1), right.skip(1))
    } else {
        part_before(left[0], right[0])
    }
}

/// Whether one path comes before another, part by part.
pub open spec fn path_before(left: Seq<char>, right: Seq<char>, style: PathStyle) -> bool {
    parts_before(path_parts(left, style), path_parts(right, style))
}

fn text_comes_before(left: &str, right: &str) -> (r: bool)
    ensures
        r == text_before(left@, right@),
{
    let a = to_chars(left);
    let b = to_chars(right);
    let mut i: usize = 0;
    assert(a@.skip(0) =~= left@);
    assert(b@.skip(0) =~= right@);
    while i < a.len() && i < b.len()
        invariant
            a@ == left@,
            b@ == right@,
            i <= a@.len(),
            i <= b@.len(),
            text_before(left@, right@) == text_before(a@.skip(i as int), b@.skip(i as int)),
        decreases a.len() - i,
    {
        assert(a@.skip(i as int).skip(1) =~= a@.skip(i + 1));
        assert(b@.skip(i as int).skip(1) =~= b@.skip(i + 1));
        if a[i] != b[i] {
            return a[i] < b[i];
        }
        i = i + 1;
    }
    i < b.len()
}

fn rank_of_kind(kind: PrefixKind) -> (r: u8)
    ensures
        r == kind_rank(kind),
{
    match kind {
        PrefixKind::Verbatim => 0,
        PrefixKind::VerbatimShare => 1,
        PrefixKind::VerbatimDisk => 2,
        PrefixKind::Device => 3,
        PrefixKind::Share => 4,
        PrefixKind::Disk => 5,
    }
}

fn rank_of_part(part: &PathPart) -> (r: u8)
    ensures
        r == part_rank(part@),
{
    match part {
        PathPart::Prefix(_) => 0,
        PathPart::Root => 1,
        PathPart::Current => 2,
        PathPart::Parent => 3,
        PathPart::Normal(_) => 4,
    }
}

fn part_comes_before(left: &PathPart, right: &PathPart) -> (r: bool)
    ensures
        r == part_before(left@, right@),
{
    match (left, right) {
        (PathPart::Prefix(a), PathPart::Prefix(b)) => {
            if a.kind != b.kind {
                rank_of_kind(a.kind) < rank_of_kind(b.kind)
            } else if !same(a.first.as_str(), b.first.as_str()) {
                text_comes_before(a.first.as_str(), b.first.as_str())
            } else {
                text_comes_before(a.second.as_str(), b.second.as_str())
            }
        },
        (PathPart::Normal(a), PathPart::Normal(b)) => text_comes_before(a.as_str(), b.as_str()),
        _ => rank_of_part(left) < rank_of_part(right),
    }
}

/// Whether one path comes before another, part by part.
pub fn comes_before(left: &str, right: &str, style: PathStyle) -> (r: bool)
    ensures
        r == path_before(left@, right@, style),
{
    let a = read_parts(left, style);
    let b = read_parts(right, style);
    let ghost first = views(a@);
    let ghost second = views(b@);
    let mut i: usize = 0;
    assert(first.skip(0) =~= first);
    assert(second.skip(0) =~= second);
    while i < a.len() && i < b.len()
        invariant
            first == views(a@),
            second == views(b@),
            i <= a@.len(),
            i <= b@.len(),
            parts_before(first, second) == parts_before(
                first.skip(i as int),
                second.skip(i as int),
            ),
            parts_before(first, second) == path_before(left@, right@, style),
        decreases a.len() - i,
    {
        assert(first.skip(i as int).skip(1) =~= first.skip(i + 1));
        assert(second.skip(i as int).skip(1) =~= second.skip(i + 1));
        assert(first.skip(i as int)[0] == a@[i as int]@);
        assert(second.skip(i as int)[0] == b@[i as int]@);
        if !same_part(&a[i], &b[i]) {
            return part_comes_before(&a[i], &b[i]);
        }
        i = i + 1;
    }
    i < b.len()
}

/// The text of a part of the body.
pub open spec fn part_text(part: PartView) -> Seq<char> {
    match part {
        PartView::Current => "."@,
        PartView::Parent => ".."@,
        PartView::Normal(name) => name,
        _ => Seq::empty(),
    }
}

/// An entry of a directory.  Where the directory is a path of Windows that is
/// taken as it is written, it is written anew with single separators.
pub open spec fn in_folder(directory: Seq<char>, name: Seq<char>, style: PathStyle) -> Seq<char> {
    let prefix = prefix_of(directory, style);
    let taken = prefix_len(prefix);
    if is_verbatim(prefix) {
        let parts = body_parts(directory.skip(taken), style, true);
        let names = Seq::new(parts.len(), |i: int| part_text(parts[i]));
        directory.take(taken) + "\\"@ + joined(names.push(name), "\\"@)
    } else if directory.len() == 0 || separates(style, false, directory.last()) {
        directory + name
    } else if prefix matches Some(prefix) && prefix.kind == PrefixKind::Disk && directory.len()
        == 2 {
        directory + name
    } else {
        directory + (if style == PathStyle::Unix {
            "/"@
        } else {
            "\\"@
        }) + name
    }
}

fn text_of_part(part: &PathPart) -> (r: String)
    ensures
        r@ == part_text(part@),
{
    match part {
        PathPart::Current => ".".to_owned(),
        PathPart::Parent => "..".to_owned(),
        PathPart::Normal(name) => name.clone(),
        _ => no_text(),
    }
}

fn join_verbatim(chars: &Vec<char>, taken: usize, name: &str) -> (r: String)
    requires
        taken <= chars@.len(),
    ensures
        ({
            let parts = body_parts(chars@.skip(taken as int), PathStyle::Windows, true);
            let names = Seq::new(parts.len(), |i: int| part_text(parts[i]));
            r@ == chars@.take(taken as int) + "\\"@ + joined(names.push(name@), "\\"@)
        }),
{
    let ghost expected = body_parts(chars@.skip(taken as int), PathStyle::Windows, true);
    let mut parts: Vec<PathPart> = Vec::new();
    assert(views(parts@) + expected =~= expected);
    push_body(&mut parts, chars, taken, PathStyle::Windows, true);
    let ghost all = views(parts@);
    assert(all == expected);
    let mut names: Vec<String> = Vec::new();
    let mut i: usize = 0;
    while i < parts.len()
        invariant
            all == views(parts@),
            i <= parts@.len(),
            names@.len() == i,
            forall|k: int| 0 <= k < i ==> #[trigger] names@[k]@ == part_text(all[k]),
        decreases parts.len() - i,
    {
        assert(all[i as int] == parts@[i as int]@);
        names.push(text_of_part(&parts[i]));
        i = i + 1;
    }
    let ghost before = views(names@);
    names.push(name.to_owned());
    assert(views(names@) =~= Seq::new(all.len(), |i: int| part_text(all[i])).push(name@));
    let head = from_chars(chars, 0, taken);
    assert(chars@.subrange(0, taken as int) =~= chars@.take(taken as int));
    cat3(head.as_str(), "\\", join(&names, "\\").as_str())
}

/// The path of an entry of a directory.
pub fn join_path(directory: &str, name: &str, style: PathStyle) -> (r: String)
    ensures
        r@ == in_folder(directory@, name@, style),
{
    let chars = to_chars(directory);
    let prefix = read_prefix(&chars, style);
    proof {
        prefix_is_inside(chars@, style);
    }
    if takes_verbatim(&prefix) {
        let length: usize = chars.len();
        assert(0 <= prefix_len(opt(prefix)) <= length);
        let taken: usize = prefix_length(&prefix, Ghost(length as int));
        return join_verbatim(&chars, taken, name);
    }
    if chars.len() == 0 || is_separator(style, false, chars[chars.len() - 1]) {
        return cat(directory, name);
    }
    if let Some(prefix) = &prefix {
        if prefix.kind == PrefixKind::Disk && chars.len() == 2 {
            return cat(directory, name);
        }
    }
    match style {
        PathStyle::Unix => cat3(directory, "/", name),
        PathStyle::Windows => cat3(directory, "\\", name),
    }
}

/// A separator at the end of a path does not make it another one.
pub proof fn a_separator_at_the_end_does_not_matter(text: Seq<char>)
    requires
        text.len() > 0,
    ensures
        same_path_as(text, text.push('/'), PathStyle::Unix),
{
    let longer = text.push('/');
    assert(text.skip(0) =~= text);
    assert(longer.skip(0) =~= longer);
    body_with_end(text);
    if text.len() == 1 {
        assert(text[0] == longer[0]);
    } else {
        assert(text[0] == longer[0] && text[1] == longer[1]);
    }
}

proof fn body_with_end(text: Seq<char>)
    ensures
        body_parts(text.push('/'), PathStyle::Unix, false) == body_parts(
            text,
            PathStyle::Unix,
            false,
        ),
    decreases text.len(),
{
    let style = PathStyle::Unix;
    let longer = text.push('/');
    end_with_end(text);
    piece_end_is_inside(text, style, false);
    let end = piece_end(text, style, false);
    assert(longer.take(end) =~= text.take(end));
    if end < text.len() {
        assert(longer.skip(end + 1) =~= text.skip(end + 1).push('/'));
        body_with_end(text.skip(end + 1));
    } else {
        assert(longer.skip(end + 1) =~= Seq::<char>::empty());
        assert(body_parts(longer.skip(end + 1), style, false) =~= Seq::<PartView>::empty());
        if text.len() == 0 {
            assert(piece_parts(longer.take(0), false) =~= Seq::<PartView>::empty());
            assert(body_parts(longer, style, false) =~= Seq::<PartView>::empty());
        }
    }
}

proof fn end_with_end(text: Seq<char>)
    ensures
        piece_end(text.push('/'), PathStyle::Unix, false) == piece_end(
            text,
            PathStyle::Unix,
            false,
        ),
    decreases text.len(),
{
    let longer = text.push('/');
    if text.len() > 0 {
        assert(longer[0] == text[0]);
        assert(longer.skip(1) =~= text.skip(1).push('/'));
        end_with_end(text.skip(1));
    }
}

} // verus!
