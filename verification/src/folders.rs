//! What is promised of paths, of members of documents and of spans of time.

use vstd::prelude::*;

use crate::clock::{span, valid_time};
use crate::json::{field, text_field, JsonView};
use crate::paths::{
    body_parts, in_folder, is_verbatim, part_before, parts_before, path_parts, piece_end,
    piece_parts, prefix_len, prefix_of, same_opt_path_as, same_path_as, separates, start_parts,
    text_before, windows_prefix, PartView, PathStyle, PrefixKind, PrefixView,
};

verus! {

/// On Unix a slash separates the parts of a path; on Windows a backslash does,
/// and a slash too unless the path is taken as it is written.
pub proof fn parts_are_separated(c: char, verbatim: bool)
    ensures
        separates(PathStyle::Unix, verbatim, c) <==> c == '/',
        separates(PathStyle::Windows, verbatim, '\\'),
        separates(PathStyle::Windows, verbatim, '/') <==> !verbatim,
        c != '/' && c != '\\' ==> !separates(PathStyle::Windows, verbatim, c),
{
}

proof fn piece_ends_at_separator(
    piece: Seq<char>,
    separator: char,
    rest: Seq<char>,
    style: PathStyle,
    verbatim: bool,
)
    requires
        forall|i: int| 0 <= i < piece.len() ==> !separates(style, verbatim, #[trigger] piece[i]),
        separates(style, verbatim, separator),
    ensures
        piece_end(piece.push(separator) + rest, style, verbatim) == piece.len(),
        piece_end(piece, style, verbatim) == piece.len(),
    decreases piece.len(),
{
    let whole = piece.push(separator) + rest;
    if piece.len() > 0 {
        let shorter = piece.skip(1);
        assert(!separates(style, verbatim, piece[0]));
        assert forall|i: int| 0 <= i < shorter.len() implies !separates(
            style,
            verbatim,
            #[trigger] shorter[i],
        ) by {
            assert(shorter[i] == piece[i + 1]);
        }
        piece_ends_at_separator(shorter, separator, rest, style, verbatim);
        assert(whole.skip(1) =~= shorter.push(separator) + rest);
        assert(whole[0] == piece[0]);
    } else {
        assert(whole[0] == separator);
    }
}

/// A path is read piece by piece: what stands before a separator is one part,
/// and what follows is read by itself.  An empty piece and a dot are no part,
/// two dots go up, and any other piece is a name.
pub proof fn paths_are_read_piece_by_piece(
    piece: Seq<char>,
    separator: char,
    rest: Seq<char>,
    style: PathStyle,
)
    requires
        forall|i: int| 0 <= i < piece.len() ==> !separates(style, false, #[trigger] piece[i]),
        separates(style, false, separator),
    ensures
        piece.len() == 0 || piece == "."@ ==> body_parts(
            piece.push(separator) + rest,
            style,
            false,
        ) == body_parts(rest, style, false),
        piece == ".."@ ==> body_parts(piece.push(separator) + rest, style, false) == seq![
            PartView::Parent,
        ] + body_parts(rest, style, false),
        piece.len() > 0 && piece != "."@ && piece != ".."@ ==> body_parts(
            piece.push(separator) + rest,
            style,
            false,
        ) == seq![PartView::Normal(piece)] + body_parts(rest, style, false),
        piece.len() > 0 && piece != "."@ && piece != ".."@ ==> body_parts(piece, style, false)
            == seq![PartView::Normal(piece)],
{
    let whole = piece.push(separator) + rest;
    piece_ends_at_separator(piece, separator, rest, style, false);
    assert(whole.take(piece.len() as int) =~= piece);
    assert(whole.skip(piece.len() as int + 1) =~= rest);
    assert(piece.take(piece.len() as int) =~= piece);
    reveal_strlit(".");
    reveal_strlit("..");
    assert("."@.len() == 1 && ".."@.len() == 2);
    let more = body_parts(rest, style, false);
    assert(Seq::<PartView>::empty() + more =~= more);
    assert(body_parts(piece, style, false) =~= piece_parts(piece, false));
}

proof fn bodies_are_joined(left: Seq<char>, right: Seq<char>)
    ensures
        body_parts(left.push('/') + right, PathStyle::Unix, false) == body_parts(
            left,
            PathStyle::Unix,
            false,
        ) + body_parts(right, PathStyle::Unix, false),
    decreases left.len(),
{
    let style = PathStyle::Unix;
    let whole = left.push('/') + right;
    let end = piece_end(left, style, false);
    end_is_first(left);
    let piece = left.take(end);
    assert forall|i: int| 0 <= i < piece.len() implies !separates(
        style,
        false,
        #[trigger] piece[i],
    ) by {
        assert(piece[i] == left[i]);
    }
    if end < left.len() {
        let rest = left.skip(end + 1);
        bodies_are_joined(rest, right);
        piece_ends_at_separator(piece, '/', rest.push('/') + right, style, false);
        assert(whole =~= piece.push('/') + (rest.push('/') + right));
        assert(whole.take(end) =~= piece);
        assert(whole.skip(end + 1) =~= rest.push('/') + right);
        assert(body_parts(whole, style, false) =~= body_parts(left, style, false) + body_parts(
            right,
            style,
            false,
        ));
    } else {
        assert(piece =~= left);
        piece_ends_at_separator(left, '/', right, style, false);
        assert(whole.take(end) =~= left);
        assert(whole.skip(end + 1) =~= right);
        if left.len() == 0 {
            assert(piece_parts(left, false) =~= Seq::<PartView>::empty());
        } else {
            assert(body_parts(left, style, false) =~= piece_parts(left, false));
        }
        assert(body_parts(whole, style, false) =~= body_parts(left, style, false) + body_parts(
            right,
            style,
            false,
        ));
    }
}

proof fn end_is_first(text: Seq<char>)
    ensures
        0 <= piece_end(text, PathStyle::Unix, false) <= text.len(),
        forall|i: int| 0 <= i < piece_end(text, PathStyle::Unix, false) ==> #[trigger] text[i]
            != '/',
        piece_end(text, PathStyle::Unix, false) < text.len() ==> text[piece_end(
            text,
            PathStyle::Unix,
            false,
        )] == '/',
    decreases text.len(),
{
    if text.len() > 0 && text[0] != '/' {
        let rest = text.skip(1);
        end_is_first(rest);
        assert forall|i: int| 0 <= i < piece_end(text, PathStyle::Unix, false) implies #[trigger] text[i]
            != '/' by {
            if i > 0 {
                assert(rest[i - 1] == text[i]);
            }
        }
    }
}

/// A file in a folder has the parts of the folder and then its name.
pub proof fn a_file_is_in_its_folder(directory: Seq<char>, name: Seq<char>)
    requires
        directory.len() > 0,
        name.len() > 0,
        name != "."@,
        name != ".."@,
        forall|i: int| 0 <= i < name.len() ==> #[trigger] name[i] != '/',
    ensures
        path_parts(in_folder(directory, name, PathStyle::Unix), PathStyle::Unix) == path_parts(
            directory,
            PathStyle::Unix,
        ).push(PartView::Normal(name)),
{
    let style = PathStyle::Unix;
    let path = in_folder(directory, name, style);
    reveal_strlit("/");
    assert("/"@ =~= seq!['/']);
    assert(directory.skip(0) =~= directory);
    assert(path.skip(0) =~= path);
    assert(name.push('/') + Seq::<char>::empty() =~= name.push('/'));
    paths_are_read_piece_by_piece(name, '/', Seq::empty(), style);
    let body = body_parts(directory, style, false);
    if directory.last() == '/' {
        let front = directory.drop_last();
        assert(front.push('/') =~= directory);
        bodies_are_joined(front, name);
        bodies_are_joined(front, Seq::empty());
        assert(front.push('/') + Seq::<char>::empty() =~= directory);
        assert(body_parts(front, style, false) + Seq::<PartView>::empty() =~= body_parts(
            front,
            style,
            false,
        ));
        assert(path =~= front.push('/') + name);
    } else {
        bodies_are_joined(directory, name);
        assert(path =~= directory.push('/') + name);
    }
    assert(body_parts(path, style, false) =~= body + seq![PartView::Normal(name)]);
    assert(path[0] == directory[0]);
    if directory.len() > 1 {
        assert(path[1] == directory[1]);
    }
    assert(start_parts(path, style, None) == start_parts(directory, style, None));
    assert(path_parts(path, style) =~= path_parts(directory, style).push(PartView::Normal(name)));
}

/// The path of a file in a folder is written with one separator between them:
/// the one that the folder ends with, or else one of its own.
pub proof fn one_separator_stands_between(directory: Seq<char>, name: Seq<char>)
    ensures
        directory.len() > 0 && directory.last() != '/' ==> in_folder(
            directory,
            name,
            PathStyle::Unix,
        ) == directory + "/"@ + name,
        directory.len() > 0 && directory.last() == '/' ==> in_folder(
            directory,
            name,
            PathStyle::Unix,
        ) == directory + name,
        in_folder(Seq::empty(), name, PathStyle::Unix) == name,
        prefix_of(directory, PathStyle::Windows) is None && directory.len() > 0 && directory.last()
            != '/' && directory.last() != '\\' ==> in_folder(directory, name, PathStyle::Windows)
            == directory + "\\"@ + name,
        prefix_of(directory, PathStyle::Windows) is None && directory.len() > 0 && (directory.last()
            == '/' || directory.last() == '\\') ==> in_folder(directory, name, PathStyle::Windows)
            == directory + name,
{
    assert(Seq::<char>::empty() + name =~= name);
}

/// A path that begins with a letter and a colon names a disk; capitals make no
/// difference there.
pub proof fn disks_are_named_by_letters(text: Seq<char>)
    requires
        text.len() >= 2,
        text[1] == ':',
        'a' <= text[0] <= 'z' || 'A' <= text[0] <= 'Z',
    ensures
        windows_prefix(text) is Some,
        windows_prefix(text)->0.kind == PrefixKind::Disk,
        windows_prefix(text)->0.first.len() == 1,
        'A' <= windows_prefix(text)->0.first[0] <= 'Z',
        'A' <= text[0] <= 'Z' ==> windows_prefix(text)->0.first[0] == text[0],
        prefix_len(windows_prefix(text)) == 2,
{
}

/// A path on Unix is the same as itself, and a path that begins at the root is
/// never the same as one that does not.
pub proof fn rooted_paths_differ_from_others(left: Seq<char>, right: Seq<char>)
    requires
        left.len() > 0,
        left[0] == '/',
        right.len() == 0 || right[0] != '/',
    ensures
        !same_path_as(left, right, PathStyle::Unix),
        same_path_as(left, left, PathStyle::Unix),
        same_opt_path_as(Some(left), Some(left), PathStyle::Unix),
        !same_opt_path_as(Some(left), None, PathStyle::Unix),
        !same_opt_path_as(None, Some(left), PathStyle::Unix),
        same_opt_path_as(None, None, PathStyle::Unix),
{
    assert(left.skip(0) =~= left);
    assert(right.skip(0) =~= right);
    let a = path_parts(left, PathStyle::Unix);
    let b = path_parts(right, PathStyle::Unix);
    assert(a[0] is Root);
    no_root_in_body(right);
    if b.len() > 0 {
        assert(!(b[0] is Root));
    }
}

proof fn no_root_in_body(text: Seq<char>)
    ensures
        forall|i: int|
            0 <= i < body_parts(text, PathStyle::Unix, false).len() ==> !(#[trigger] body_parts(
                text,
                PathStyle::Unix,
                false,
            )[i] is Root),
    decreases text.len(),
{
    if text.len() > 0 {
        end_is_first(text);
        let end = piece_end(text, PathStyle::Unix, false);
        let head = piece_parts(text.take(end), false);
        if end < text.len() {
            no_root_in_body(text.skip(end + 1));
            let tail = body_parts(text.skip(end + 1), PathStyle::Unix, false);
            assert forall|i: int|
                0 <= i < (head + tail).len() implies !(#[trigger] (head + tail)[i] is Root) by {
                if i >= head.len() {
                    assert((head + tail)[i] == tail[i - head.len()]);
                }
            }
        }
    }
}

/// Of two texts that differ, exactly one comes before the other; a text comes
/// before every longer one that begins with it.
pub proof fn texts_have_an_order(left: Seq<char>, right: Seq<char>)
    ensures
        !(text_before(left, right) && text_before(right, left)),
        left != right ==> text_before(left, right) || text_before(right, left),
        left == right ==> !text_before(left, right),
        left.len() < right.len() && right.take(left.len() as int) == left ==> text_before(
            left,
            right,
        ),
        left.len() > 0 && right.len() > 0 && left[0] < right[0] ==> text_before(left, right),
    decreases left.len(),
{
    if left.len() > 0 && right.len() > 0 {
        let a = left.skip(1);
        let b = right.skip(1);
        texts_have_an_order(a, b);
        if left[0] == right[0] && a == b {
            assert(left =~= seq![left[0]] + a);
            assert(right =~= seq![right[0]] + b);
        }
        if left.len() < right.len() && right.take(left.len() as int) == left {
            assert(right.take(left.len() as int)[0] == right[0]);
            assert(b.take(a.len() as int) =~= a) by {
                assert forall|i: int| 0 <= i < a.len() implies b[i] == a[i] by {
                    assert(right.take(left.len() as int)[i + 1] == right[i + 1]);
                }
            }
        }
    } else if left.len() == 0 && right.len() == 0 {
        assert(left =~= right);
    }
}

/// Of two lists of parts that differ, exactly one comes before the other, and
/// so it is with paths that are not the same.
pub proof fn paths_have_an_order(left: Seq<char>, right: Seq<char>, style: PathStyle)
    ensures
        !(crate::paths::path_before(left, right, style) && crate::paths::path_before(
            right,
            left,
            style,
        )),
        same_path_as(left, right, style) ==> !crate::paths::path_before(left, right, style),
        !same_path_as(left, right, style) ==> crate::paths::path_before(left, right, style)
            || crate::paths::path_before(right, left, style),
{
    parts_have_an_order(path_parts(left, style), path_parts(right, style));
}

proof fn parts_have_an_order(left: Seq<PartView>, right: Seq<PartView>)
    ensures
        !(parts_before(left, right) && parts_before(right, left)),
        left != right ==> parts_before(left, right) || parts_before(right, left),
        left == right ==> !parts_before(left, right),
    decreases left.len(),
{
    if left.len() > 0 && right.len() > 0 {
        let a = left.skip(1);
        let b = right.skip(1);
        parts_have_an_order(a, b);
        one_part_comes_first(left[0], right[0]);
        if left[0] == right[0] && a == b {
            assert(left =~= seq![left[0]] + a);
            assert(right =~= seq![right[0]] + b);
        }
    } else if left.len() == 0 && right.len() == 0 {
        assert(left =~= right);
    }
}

proof fn one_part_comes_first(left: PartView, right: PartView)
    ensures
        !(part_before(left, right) && part_before(right, left)),
        left != right ==> part_before(left, right) || part_before(right, left),
{
    match (left, right) {
        (PartView::Prefix(a), PartView::Prefix(b)) => {
            texts_have_an_order(a.first, b.first);
            texts_have_an_order(a.second, b.second);
        },
        (PartView::Normal(a), PartView::Normal(b)) => {
            texts_have_an_order(a, b);
        },
        _ => {},
    }
}

/// The member of a name is the first one under it, and there is none where no
/// member has the name; only objects have members.
pub proof fn the_first_member_counts(
    members: Seq<(Seq<char>, JsonView)>,
    name: Seq<char>,
    i: int,
    text: Seq<char>,
)
    ensures
        0 <= i < members.len() && members[i].0 == name && (forall|k: int|
            0 <= k < i ==> (#[trigger] members[k]).0 != name) ==> field(
            JsonView::Object(members),
            name,
        ) == Some(members[i].1),
        (forall|k: int| 0 <= k < members.len() ==> (#[trigger] members[k]).0 != name) ==> field(
            JsonView::Object(members),
            name,
        ) is None,
        field(JsonView::Text(text), name) is None,
        field(JsonView::Null, name) is None,
        field(JsonView::Object(members), name) == Some(JsonView::Text(text)) ==> text_field(
            JsonView::Object(members),
            name,
        ) == Some(text),
        field(JsonView::Object(members), name) == Some(JsonView::Null) ==> text_field(
            JsonView::Object(members),
            name,
        ) is None,
    decreases members.len(),
{
    if members.len() > 0 {
        let rest = members.skip(1);
        the_first_member_counts(rest, name, i - 1, text);
        assert(forall|k: int| 0 <= k < rest.len() ==> #[trigger] rest[k] == members[k + 1]);
        if 0 < i < members.len() {
            assert(rest[i - 1] == members[i]);
        }
    }
}

/// A second is a thousand million nanoseconds, up to the longest span; times
/// are those of the calendar.
pub proof fn spans_are_counted_in_nanoseconds(secs: u64, time: int)
    ensures
        secs <= 9_223_372_036_854_775 ==> span(secs) == secs * 1_000_000_000,
        secs > 9_223_372_036_854_775 ==> span(secs) == 0,
        -8_334_601_228_800_000_000_000 <= time <= 8_210_266_876_799_999_999_999 <==> valid_time(
            time,
        ),
{
}

/// A path that begins with two separators, a server and a share names that
/// share, and what follows the share is not part of it.
pub proof fn shares_are_named_by_server_and_share(
    server: Seq<char>,
    share: Seq<char>,
    rest: Seq<char>,
)
    requires
        server.len() > 0,
        share.len() > 0,
        server != "?"@,
        server != "."@,
        forall|i: int| 0 <= i < server.len() ==> #[trigger] server[i] != '\\' && server[i] != '/',
        forall|i: int| 0 <= i < share.len() ==> #[trigger] share[i] != '\\' && share[i] != '/',
        rest.len() == 0 || rest[0] == '\\',
    ensures
        ({
            let text = seq!['\\', '\\'] + server + seq!['\\'] + share + rest;
            &&& windows_prefix(text) == Some(
                PrefixView { kind: PrefixKind::Share, first: server, second: share },
            )
            &&& prefix_len(windows_prefix(text)) == server.len() + share.len() + 3
            &&& !is_verbatim(windows_prefix(text))
        }),
{
    let style = PathStyle::Windows;
    let text = seq!['\\', '\\'] + server + seq!['\\'] + share + rest;
    assert forall|i: int| 0 <= i < server.len() implies !separates(
        style,
        false,
        #[trigger] server[i],
    ) by {}
    assert forall|i: int| 0 <= i < share.len() implies !separates(
        style,
        false,
        #[trigger] share[i],
    ) by {}
    piece_ends_at_separator(server, '\\', share + rest, style, false);
    assert(text.skip(2) =~= server.push('\\') + (share + rest));
    let end = 2 + server.len() as int;
    assert(text.subrange(2, end) =~= server);
    if rest.len() > 0 {
        piece_ends_at_separator(share, rest[0], rest.skip(1), style, false);
        assert(text.skip(end + 1) =~= share.push(rest[0]) + rest.skip(1));
    } else {
        piece_ends_at_separator(share, '\\', Seq::empty(), style, false);
        assert(text.skip(end + 1) =~= share);
    }
    assert(text.subrange(end + 1, end + 1 + share.len()) =~= share);
    reveal_strlit("?");
    reveal_strlit(".");
    assert(text[0] == '\\' && text[1] == '\\');
    assert(text[2] == server[0]);
    if server.len() == 1 {
        assert(server =~= seq![server[0]]);
        assert("?"@ =~= seq!['?'] && "."@ =~= seq!['.']);
    } else {
        assert(text[3] == server[1]);
    }
}

/// A path that begins with a question mark between separators is taken as it is
/// written, whether a disk or something else follows; one that begins with a
/// dot there names a device.
pub proof fn marked_paths_are_taken_as_written(text: Seq<char>)
    requires
        text.len() >= 4,
        text[0] == '\\',
        text[1] == '\\',
        text[3] == '\\',
    ensures
        text[2] == '?' ==> is_verbatim(windows_prefix(text)),
        text[2] == '?' && text.len() >= 6 && ('a' <= text[4] <= 'z' || 'A' <= text[4] <= 'Z')
            && text[5] == ':' && (text.len() == 6 || text[6] == '\\') ==> windows_prefix(
            text,
        )->0.kind == PrefixKind::VerbatimDisk && prefix_len(windows_prefix(text)) == 6 && 'A'
            <= windows_prefix(text)->0.first[0] <= 'Z',
        text[2] == '?' && text.len() >= 8 && text[4] == 'U' && text[5] == 'N' && text[6] == 'C'
            && text[7] == '\\' ==> windows_prefix(text)->0.kind == PrefixKind::VerbatimShare,
        text[2] == '.' ==> windows_prefix(text) is Some && windows_prefix(text)->0.kind
            == PrefixKind::Device && !is_verbatim(windows_prefix(text)),
        text[2] == '?' && text.len() >= 5 && !('a' <= text[4] <= 'z' || 'A' <= text[4] <= 'Z')
            ==> windows_prefix(text)->0.kind == PrefixKind::Verbatim,
{
}

/// A path without separators or a disk at its start has no prefix, and no path
/// of Unix has one.
pub proof fn other_paths_have_no_prefix(text: Seq<char>)
    ensures
        prefix_of(text, PathStyle::Unix) is None,
        text.len() < 2 ==> windows_prefix(text) is None,
        text.len() >= 2 && text[0] != '\\' && text[0] != '/' && text[1] != ':' ==> windows_prefix(
            text,
        ) is None,
        text.len() >= 2 && (text[0] == '\\' || text[0] == '/') && text[1] != '\\' && text[1]
            != '/' && text[1] != ':' ==> windows_prefix(text) is None,
{
}

/// In a folder of Windows that is taken as it is written a file is written with
/// single backslashes.
pub proof fn folders_taken_as_written(directory: Seq<char>, name: Seq<char>)
    requires
        is_verbatim(prefix_of(directory, PathStyle::Windows)),
    ensures
        ({
            let path = in_folder(directory, name, PathStyle::Windows);
            let taken = prefix_len(prefix_of(directory, PathStyle::Windows));
            &&& crate::text::ends(path, name)
            &&& 0 <= taken <= directory.len() ==> crate::text::begins(path, directory.take(taken))
            &&& directory.len() == taken ==> path == directory + "\\"@ + name
        }),
{
    let style = PathStyle::Windows;
    let taken = prefix_len(prefix_of(directory, style));
    let path = in_folder(directory, name, style);
    let parts = body_parts(directory.skip(taken), style, true);
    let names = Seq::new(parts.len(), |i: int| crate::paths::part_text(parts[i]));
    let all = names.push(name);
    let tail = crate::text::joined(all, "\\"@);
    assert(all.drop_last() =~= names);
    assert(tail.skip(tail.len() - name.len()) =~= name);
    assert(path.skip(path.len() - name.len()) =~= name);
    if 0 <= taken <= directory.len() {
        assert(path.take(taken) =~= directory.take(taken));
    }
    if directory.len() == taken {
        assert(directory.take(taken) =~= directory);
        assert(directory.skip(taken) =~= Seq::<char>::empty());
        assert(all =~= seq![name]);
    }
}

} // verus!
