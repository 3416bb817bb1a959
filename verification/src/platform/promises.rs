//! What is promised of the desktop: the texts that go to it, the menu, the
//! overlay, and which element takes the prompt.

use vstd::prelude::*;

use crate::platform::automation::{
    composer_hints, hinted, mac_hinted, mac_hints, names_codex, names_longwatch, rank_insert,
    ranked, unseen, window_hints, AccessibleNode, ElementKind, NodeRole, WindowElement,
    MAX_TREE_DEPTH,
};
use crate::platform::notification::{
    toast_button, toast_visual, toast_xml, xml_char, xml_text, NotificationActionView,
};
use crate::platform::overlay::{alphas, pulse, OverlayKind};
use crate::platform::shell::{
    ends_pair, known_terminals, leads_pair, pair_code, plain_word, pretty_name, quoted, utf16_text,
    WindowsVersion,
};
use crate::platform::tray::{
    chosen, menu_of, utf16, utf16_char, MenuCommand, MenuItemView, TrayAction, TrayControl, TrayView,
    CONTEXT_MENU, LEFT_BUTTON_UP, LEFT_DOUBLE_CLICK, RIGHT_BUTTON_UP, TRAY_CALLBACK_MESSAGE,
    TRAY_SHOW_MESSAGE, WINDOW_DESTROYED,
};
use crate::text::{begins, ends, occurs, stands_at, without_leading, without_trailing};

verus! {

/// An application is taken for Codex where its name holds codex or chatgpt,
/// but never where it is this program.
pub proof fn this_program_is_not_codex(identity: Seq<char>)
    ensures
        occurs(identity, "longwatch"@) || occurs(identity, "codexqueue"@) || occurs(
            identity,
            "codex queue"@,
        ) ==> names_longwatch(identity) && !names_codex(identity),
        !occurs(identity, "longwatch"@) && !occurs(identity, "codexqueue"@) && !occurs(
            identity,
            "codex queue"@,
        ) && (occurs(identity, "codex"@) || occurs(identity, "chatgpt"@)) ==> names_codex(identity),
        !occurs(identity, "codex"@) && !occurs(identity, "chatgpt"@) ==> !names_codex(identity),
{
}

/// Only a living element that takes text, and no password, may take the prompt.
pub proof fn what_may_take_the_prompt(node: AccessibleNode)
    ensures
        node.role == NodeRole::PasswordText || node.defunct || node.read_only || !node.editable_text
            || !node.component ==> !node.usable(),
        node.role != NodeRole::PasswordText && !node.defunct && !node.read_only
            && node.editable_text && node.component ==> node.usable(),
{
}

/// Each sign counts by itself: an entry before a text before a paragraph before
/// anything else, and being editable, long, focused, focusable, on the screen
/// and named like a composer each for so much.
pub proof fn each_sign_counts(node: AccessibleNode, other: AccessibleNode)
    requires
        node.editable == other.editable,
        node.multi_line == other.multi_line,
        node.focusable == other.focusable,
        node.visible == other.visible,
        node.showing == other.showing,
        node.identity@ == other.identity@,
    ensures
        node.focused == other.focused && node.role == NodeRole::Entry && (other.role
            == NodeRole::Text || other.role == NodeRole::DocumentText) ==> node.score()
            == other.score() + 25,
        node.focused == other.focused && node.role == NodeRole::Text && other.role
            == NodeRole::Paragraph ==> node.score() == other.score() + 20,
        node.focused == other.focused && node.role == NodeRole::Paragraph && other.role
            == NodeRole::Other ==> node.score() == other.score() + 15,
        node.role == other.role && node.focused && !other.focused ==> node.score() == other.score()
            + 20,
        node.role == NodeRole::Other && !node.focused ==> node.score() == 20 + (if node.editable {
            30int
        } else {
            0
        }) + (if node.multi_line {
            25int
        } else {
            0
        }) + (if node.focusable {
            10int
        } else {
            0
        }) + (if node.visible && node.showing {
            10int
        } else {
            0
        }) + (if hinted(node.identity@, composer_hints()) {
            60int
        } else {
            0
        }),
{
}

/// A composer is named by one of these words.
pub proof fn composers_are_named(identity: Seq<char>)
    ensures
        occurs(identity, "message"@) || occurs(identity, "prompt"@) || occurs(
            identity,
            "composer"@,
        ) || occurs(identity, "ask"@) || occurs(identity, "codex"@) || occurs(identity, "task"@)
            || occurs(identity, "write"@) || occurs(identity, "input"@) || occurs(
            identity,
            "任务"@,
        ) || occurs(identity, "消息"@) || occurs(identity, "提示"@) || occurs(identity, "输入"@)
            <==> hinted(identity, composer_hints()),
{
    let hints = composer_hints();
    assert(hints[0] == "message"@ && hints[1] == "prompt"@ && hints[2] == "composer"@ && hints[3]
        == "ask"@ && hints[4] == "codex"@ && hints[5] == "task"@ && hints[6] == "write"@ && hints[7]
        == "input"@ && hints[8] == "任务"@ && hints[9] == "消息"@ && hints[10] == "提示"@
        && hints[11] == "输入"@);
}

/// A candidate stands behind those that score as high or higher, and before
/// those that score less: among equals, the order of the list is kept.
pub proof fn equal_candidates_keep_their_order(
    candidates: Seq<(i32, u64)>,
    candidate: (i32, u64),
)
    requires
        forall|i: int, j: int|
            0 <= i < j < candidates.len() ==> (#[trigger] candidates[i]).0 >= (
            #[trigger] candidates[j]).0,
    ensures
        exists|at: int|
            0 <= at <= candidates.len() && #[trigger] candidates.insert(at, candidate)
                == rank_insert(candidates, candidate) && (forall|i: int|
                0 <= i < at ==> (#[trigger] candidates[i]).0 >= candidate.0) && (forall|i: int|
                at <= i < candidates.len() ==> (#[trigger] candidates[i]).0 < candidate.0),
    decreases candidates.len(),
{
    if candidates.len() > 0 && candidates.last().0 < candidate.0 {
        let front = candidates.drop_last();
        assert(forall|i: int| 0 <= i < front.len() ==> #[trigger] front[i] == candidates[i]);
        equal_candidates_keep_their_order(front, candidate);
        let at = choose|at: int|
            0 <= at <= front.len() && #[trigger] front.insert(at, candidate) == rank_insert(
                front,
                candidate,
            ) && (forall|i: int| 0 <= i < at ==> (#[trigger] front[i]).0 >= candidate.0) && (
            forall|i: int| at <= i < front.len() ==> (#[trigger] front[i]).0 < candidate.0);
        assert(candidates.insert(at, candidate) =~= front.insert(at, candidate).push(
            candidates.last(),
        ));
        assert forall|i: int| 0 <= i < at implies (#[trigger] candidates[i]).0 >= candidate.0 by {
            assert(front[i] == candidates[i]);
        }
        assert forall|i: int| at <= i < candidates.len() implies (#[trigger] candidates[i]).0
            < candidate.0 by {
            if i < front.len() {
                assert(front[i] == candidates[i]);
            }
        }
    } else {
        let at = candidates.len() as int;
        assert(candidates.insert(at, candidate) =~= candidates.push(candidate));
        assert forall|i: int| 0 <= i < at implies (#[trigger] candidates[i]).0 >= candidate.0 by {
            assert(candidates[i].0 >= candidates.last().0 || i == at - 1);
        }
    }
}

/// Candidates are ranked one after the other, in the order of the list.
pub proof fn candidates_are_ranked_in_order(candidates: Seq<(i32, u64)>, candidate: (i32, u64))
    ensures
        ranked(candidates.push(candidate)) == rank_insert(ranked(candidates), candidate),
        ranked(Seq::empty()).len() == 0,
{
    assert(candidates.push(candidate).drop_last() =~= candidates);
}

/// The next element to look at is the first in the queue that was not looked
/// at; after 4096 elements the search ends.
pub proof fn elements_are_looked_at_once(
    queue: Seq<(u64, usize)>,
    visited: Seq<u64>,
    i: int,
)
    ensures
        visited.len() >= 4096 ==> unseen(queue, visited).len() == 0,
        visited.len() < 4096 && 0 <= i < queue.len() && !visited.contains(queue[i].0) && (forall|
            k: int,
        |
            0 <= k < i ==> visited.contains((#[trigger] queue[k]).0)) ==> unseen(queue, visited)
            == queue.skip(i),
        visited.len() < 4096 && (forall|k: int|
            0 <= k < queue.len() ==> visited.contains((#[trigger] queue[k]).0)) ==> unseen(
            queue,
            visited,
        ).len() == 0,
    decreases queue.len(),
{
    if queue.len() > 0 {
        let rest = queue.skip(1);
        elements_are_looked_at_once(rest, visited, i - 1);
        assert(forall|k: int| 0 <= k < rest.len() ==> #[trigger] rest[k] == queue[k + 1]);
        if 0 < i < queue.len() {
            assert(rest.skip(i - 1) =~= queue.skip(i));
            assert(rest[i - 1] == queue[i]);
        }
        if i == 0 {
            assert(queue.skip(0) =~= queue);
        }
    }
}

/// A text goes into a notification character by character: the five characters
/// with a meaning there are replaced by their names, and every other stays.
pub proof fn texts_are_escaped_by_characters(left: Seq<char>, right: Seq<char>, c: char)
    ensures
        xml_text(left + right) == xml_text(left) + xml_text(right),
        xml_text(seq!['&']) == "&amp;"@,
        xml_text(seq!['<']) == "&lt;"@,
        xml_text(seq!['>']) == "&gt;"@,
        xml_text(seq!['"']) == "&quot;"@,
        xml_text(seq!['\'']) == "&apos;"@,
        c != '&' && c != '<' && c != '>' && c != '"' && c != '\'' ==> xml_text(seq![c]) == seq![c],
    decreases right.len(),
{
    escaped_alone('&');
    escaped_alone('<');
    escaped_alone('>');
    escaped_alone('"');
    escaped_alone('\'');
    escaped_alone(c);
    if right.len() > 0 {
        texts_are_escaped_by_characters(left, right.drop_last(), c);
        assert((left + right).drop_last() =~= left + right.drop_last());
        assert((left + right).last() == right.last());
        assert(xml_text(left + right) =~= xml_text(left) + xml_text(right));
    } else {
        assert(left + right =~= left);
        assert(xml_text(left) + xml_text(right) =~= xml_text(left));
    }
}

proof fn escaped_alone(c: char)
    ensures
        xml_text(seq![c]) == xml_char(c),
{
    reveal_with_fuel(xml_text, 2);
    assert(seq![c].drop_last() =~= Seq::<char>::empty());
    assert(Seq::<char>::empty() + xml_char(c) =~= xml_char(c));
}

proof fn put_between(front: Seq<char>, part: Seq<char>, back: Seq<char>)
    ensures
        occurs(front + part + back, part),
        forall|held: Seq<char>| #[trigger] occurs(part, held) ==> occurs(front + part + back, held),
{
    let whole = front + part + back;
    let at = front.len() as int;
    assert(whole.subrange(at, at + part.len()) =~= part);
    assert(stands_at(whole, part, at));
    assert forall|held: Seq<char>| #[trigger] occurs(part, held) implies occurs(whole, held) by {
        let inner = choose|inner: int| stands_at(part, held, inner);
        assert(whole.subrange(at + inner, at + inner + held.len()) =~= part.subrange(
            inner,
            inner + held.len(),
        ));
        assert(stands_at(whole, held, at + inner));
    }
}

/// A notification shows the title and the body; it sounds until it is dealt
/// with where the user asked for sound, and is silent where not; and it has a
/// button where there is something to open.
pub proof fn notifications_show_title_and_body(
    title: Seq<char>,
    body: Seq<char>,
    action: Option<NotificationActionView>,
    audio: bool,
)
    ensures
        ({
            let xml = toast_xml(title, body, action, audio);
            &&& occurs(xml, "<text>"@ + xml_text(title) + "</text>"@)
            &&& occurs(xml, "<text>"@ + xml_text(body) + "</text>"@)
            &&& audio ==> occurs(
                xml,
                "<audio src=\"ms-winsoundevent:Notification.Looping.Alarm\" loop=\"true\"/>"@,
            )
            &&& !audio ==> occurs(xml, "<audio silent=\"true\"/>"@)
            &&& action matches Some(button) ==> occurs(xml, xml_text(button.label))
            &&& ends(xml, "</toast>"@)
            &&& begins(xml, "<toast"@)
        }),
{
    let t = xml_text(title);
    let b = xml_text(body);
    reveal_strlit("<visual><binding template=\"ToastGeneric\"><text>");
    reveal_strlit("</text><text>");
    reveal_strlit("</text></binding></visual>");
    reveal_strlit("<text>");
    reveal_strlit("</text>");
    reveal_strlit("<toast");
    reveal_strlit("<toast>");
    reveal_strlit("<toast scenario=\"alarm\" duration=\"long\">");
    let visual = toast_visual(title, body);
    let head = "<visual><binding template=\"ToastGeneric\"><text>"@;
    let middle = "</text><text>"@;
    let tail = "</text></binding></visual>"@;
    assert(head.len() == 47 && middle.len() == 13 && tail.len() == 26);
    assert("<text>"@.len() == 6 && "</text>"@.len() == 7);
    let one = "<text>"@ + t + "</text>"@;
    let two = "<text>"@ + b + "</text>"@;
    assert(visual.subrange(41, 41 + one.len() as int) =~= one);
    assert(stands_at(visual, one, 41));
    let at = 47 + t.len() as int + 7;
    assert(visual.subrange(at, at + two.len()) =~= two);
    assert(stands_at(visual, two, at));
    let open = if audio {
        "<toast scenario=\"alarm\" duration=\"long\">"@
    } else {
        "<toast>"@
    };
    let sound = if audio {
        "<audio src=\"ms-winsoundevent:Notification.Looping.Alarm\" loop=\"true\"/>"@
    } else {
        "<audio silent=\"true\"/>"@
    };
    let last = match action {
        Some(action) => toast_button(action.label),
        None => if audio {
            "<commands scenario=\"alarm\"><command id=\"dismiss\"/></commands>"@
        } else {
            Seq::empty()
        },
    };
    let xml = toast_xml(title, body, action, audio);
    let close = "</toast>"@;
    assert(xml == open + visual + sound + last + close);
    put_between(open, visual, sound + last + close);
    assert(xml =~= open + visual + (sound + last + close));
    put_between(open + visual, sound, last + close);
    assert(xml =~= open + visual + sound + (last + close));
    put_between(open + visual + sound, last, close);
    assert(xml.skip(xml.len() - close.len()) =~= close);
    assert("<toast"@.len() == 6 && open.len() >= 7);
    assert(xml.take(6) =~= "<toast"@);
    if let Some(button) = action {
        let before = "<actions><action content=\""@;
        let after =
            "\" arguments=\"open-result\" activationType=\"foreground\"/></actions>"@;
        put_between(before, xml_text(button.label), after);
        assert(last == before + xml_text(button.label) + after);
        assert(occurs(last, xml_text(button.label)));
        assert(occurs(xml, xml_text(button.label)));
    }
    assert(occurs(visual, one));
    assert(occurs(visual, two));
    assert(occurs(xml, one));
    assert(occurs(xml, two));
    assert(occurs(xml, sound));
    assert(ends(xml, close));
    assert(begins(xml, "<toast"@));
}

/// A pulse of the overlay rises and falls back to nothing, and then rests; the
/// pulse of an error is the shorter one.
pub proof fn pulses_rise_and_fall(kind: OverlayKind)
    ensures
        ({
            let frames = pulse(kind);
            let last = frames.len() - 1;
            &&& frames.len() >= 2
            &&& frames[last].alpha is None
            &&& frames[last - 1].alpha == Some(0u8)
            &&& forall|i: int| 0 <= i < last ==> (#[trigger] frames[i]).alpha is Some
            &&& kind == OverlayKind::Success ==> frames.len() == 13 && frames[last].millis == 140
                && (forall|i: int| 0 <= i < last ==> (#[trigger] frames[i]).millis == 115)
                && frames[5].alpha == Some(215u8)
            &&& kind == OverlayKind::RetryError ==> frames.len() == 9 && frames[last].millis == 90
                && (forall|i: int| 0 <= i < last ==> (#[trigger] frames[i]).millis == 75)
                && frames[3].alpha == Some(225u8)
            &&& forall|i: int|
                0 <= i < last ==> (#[trigger] frames[i]).alpha->0 <= (if kind
                    == OverlayKind::Success {
                    215u8
                } else {
                    225u8
                })
        }),
{
    let a = alphas(OverlayKind::Success);
    assert(a[0] == 24 && a[1] == 55 && a[2] == 95 && a[3] == 140 && a[4] == 180 && a[5] == 215
        && a[6] == 185 && a[7] == 145 && a[8] == 100 && a[9] == 60 && a[10] == 28 && a[11] == 0);
    let b = alphas(OverlayKind::RetryError);
    assert(b[0] == 35 && b[1] == 85 && b[2] == 150 && b[3] == 225 && b[4] == 175 && b[5] == 105
        && b[6] == 45 && b[7] == 0);
}

/// A word of plain characters is shown to be typed as it is; anything else is
/// put between quotes.
pub proof fn commands_are_quoted(text: Seq<char>, i: int)
    ensures
        plain_word(text) ==> quoted(text) == text,
        0 <= i < text.len() && (text[i] == ' ' || text[i] == '\'' || text[i] == '"' || text[i]
            == '$' || text[i] == ';' || text[i] == '&' || text[i] == '\\' || text[i] == '\n')
            ==> begins(quoted(text), "'"@) && ends(quoted(text), "'"@) && quoted(text).len()
            >= text.len() + 2,
        (forall|k: int|
            0 <= k < text.len() ==> ({
                let c = #[trigger] text[k];
                'a' <= c <= 'z' || 'A' <= c <= 'Z' || '0' <= c <= '9' || c == '-' || c == '.' || c
                    == '_' || c == '/'
            })) ==> quoted(text) == text,
{
    reveal_strlit("'");
    reveal_strlit("'\\''");
    assert("'"@.len() == 1);
    assert("'\\''"@.len() == 4);
    if 0 <= i < text.len() && (text[i] == ' ' || text[i] == '\'' || text[i] == '"' || text[i]
        == '$' || text[i] == ';' || text[i] == '&' || text[i] == '\\' || text[i] == '\n') {
        assert(!plain_word(text));
        let inner = crate::text::replaced(text, '\'', "'\\''"@);
        replacing_never_shortens(text, '\'', "'\\''"@);
        let whole = "'"@ + inner + "'"@;
        assert(whole.take(1) =~= "'"@);
        assert(whole.skip(whole.len() - 1) =~= "'"@);
    }
}

proof fn replacing_never_shortens(text: Seq<char>, character: char, by: Seq<char>)
    requires
        by.len() >= 1,
    ensures
        crate::text::replaced(text, character, by).len() >= text.len(),
    decreases text.len(),
{
    if text.len() > 0 {
        replacing_never_shortens(text.drop_last(), character, by);
    }
}

/// The name of a Linux system is what the first line of that name says, without
/// quotes around it.
pub proof fn the_first_name_counts(lines: Seq<Seq<char>>, i: int, name: Seq<char>)
    requires
        0 <= i < lines.len(),
        lines[i] == "PRETTY_NAME="@ + name,
        forall|k: int| 0 <= k < i ==> !begins(#[trigger] lines[k], "PRETTY_NAME="@),
    ensures
        pretty_name(lines) == Some(without_trailing(without_leading(name, '"'), '"')),
    decreases i,
{
    let label = "PRETTY_NAME="@;
    if i > 0 {
        let rest = lines.skip(1);
        assert(!begins(lines[0], label));
        assert(rest[i - 1] == lines[i]);
        assert forall|k: int| 0 <= k < i - 1 implies !begins(#[trigger] rest[k], label) by {
            assert(rest[k] == lines[k + 1]);
        }
        the_first_name_counts(rest, i - 1, name);
    } else {
        assert(lines[0].take(label.len() as int) =~= label);
        assert(lines[0].skip(label.len() as int) =~= name);
    }
}

/// A file without that line names no system.
pub proof fn systems_without_a_name(lines: Seq<Seq<char>>)
    requires
        forall|k: int| 0 <= k < lines.len() ==> !begins(#[trigger] lines[k], "PRETTY_NAME="@),
    ensures
        pretty_name(lines) is None,
    decreases lines.len(),
{
    if lines.len() > 0 {
        let rest = lines.skip(1);
        assert(!begins(lines[0], "PRETTY_NAME="@));
        assert forall|k: int| 0 <= k < rest.len() implies !begins(
            #[trigger] rest[k],
            "PRETTY_NAME="@,
        ) by {
            assert(rest[k] == lines[k + 1]);
        }
        systems_without_a_name(rest);
    }
}

/// A Windows system is described by its product, its release, the newer name of
/// which goes first, and its build with the revision.
pub proof fn windows_is_described(version: WindowsVersion)
    ensures
        ({
            let shown = version.described();
            &&& version.product matches Some(product) ==> begins(shown, product@)
            &&& version.product is None ==> begins(shown, "Windows"@)
            &&& version.build is Some && version.build_revision is Some ==> ends(
                shown,
                " · build "@ + version.build->0@ + "."@ + version.build_revision->0@,
            )
            &&& version.build is Some && version.build_revision is None ==> ends(
                shown,
                " · build "@ + version.build->0@,
            )
            &&& version.build is None && version.display_version is Some ==> ends(
                shown,
                " "@ + version.display_version->0@,
            )
            &&& version.build is None && version.display_version is None && version.release_id
                is Some ==> ends(shown, " "@ + version.release_id->0@)
            &&& version.build is None && version.display_version is None && version.release_id
                is None && version.product is Some ==> shown == version.product->0@
        }),
{
    let product = match version.product {
        Some(text) => text@,
        None => "Windows"@,
    };
    let release = match (version.display_version, version.release_id) {
        (Some(text), _) => " "@ + text@,
        (None, Some(text)) => " "@ + text@,
        (None, None) => Seq::empty(),
    };
    let build = match (version.build, version.build_revision) {
        (Some(build), Some(revision)) => " · build "@ + build@ + "."@ + revision@,
        (Some(build), None) => " · build "@ + build@,
        (None, _) => Seq::empty(),
    };
    let shown = version.described();
    assert(shown == product + release + build);
    assert(shown.take(product.len() as int) =~= product);
    assert(shown.skip(shown.len() - build.len()) =~= build);
    if version.build is None {
        assert(shown.skip(shown.len() - release.len()) =~= release);
        if release.len() == 0 {
            assert(shown =~= product);
        }
    }
}

proof fn utf16_of_pieces(left: Seq<char>, right: Seq<char>)
    ensures
        utf16(left + right) == utf16(left) + utf16(right),
    decreases right.len(),
{
    if right.len() > 0 {
        utf16_of_pieces(left, right.drop_last());
        assert((left + right).drop_last() =~= left + right.drop_last());
        assert((left + right).last() == right.last());
        assert(utf16(left + right) =~= utf16(left) + utf16(right));
    } else {
        assert(left + right =~= left);
        assert(utf16(left) + utf16(right) =~= utf16(left));
    }
}

/// A text that is written in units of 16 bits is read back as it was.
pub proof fn wide_texts_are_read_back(text: Seq<char>)
    requires
        forall|i: int|
            0 <= i < text.len() ==> 0 <= (#[trigger] text[i] as int) < 0xd800 || 0xdfff
                < text[i] as int <= 0x10ffff,
    ensures
        utf16_text(utf16(text)) == text,
    decreases text.len(),
{
    if text.len() > 0 {
        let first = seq![text[0]];
        let rest = text.skip(1);
        assert(text =~= first + rest);
        utf16_of_pieces(first, rest);
        reveal_with_fuel(utf16, 2);
        assert(first.drop_last() =~= Seq::<char>::empty());
        assert(utf16(first) =~= utf16_char(text[0]));
        assert forall|i: int| 0 <= i < rest.len() implies 0 <= (#[trigger] rest[i] as int)
            < 0xd800 || 0xdfff < rest[i] as int <= 0x10ffff by {
            assert(rest[i] == text[i + 1]);
        }
        wide_texts_are_read_back(rest);
        let units = utf16(text);
        let code = text[0] as u32 as int;
        assert(code < 0xd800 || 0xdfff < code <= 0x10ffff);
        if code < 0x10000 {
            assert(units[0] == code as u16);
            assert(units.skip(1) =~= utf16(rest));
            assert(!leads_pair(units[0]) && !ends_pair(units[0]));
            assert(units[0] as char == text[0]);
        } else {
            let high = (code - 0x10000) / 0x400;
            let low = (code - 0x10000) % 0x400;
            assert(0 <= high < 0x400 && 0 <= low < 0x400 && high * 0x400 + low == code - 0x10000)
                by (nonlinear_arith)
                requires
                    0x10000 <= code <= 0x10ffff,
                    high == (code - 0x10000) / 0x400,
                    low == (code - 0x10000) % 0x400,
            ;
            assert(units[0] == (0xd800 + high) as u16);
            assert(units[1] == (0xdc00 + low) as u16);
            assert(leads_pair(units[0]) && ends_pair(units[1]));
            assert(pair_code(units[0], units[1]) == code);
            assert(units.skip(2) =~= utf16(rest));
            assert(pair_code(units[0], units[1]) as char == text[0]);
        }
        assert(utf16_text(units) =~= text);
    }
}

/// The menu of the tray shows the status, opens the window, controls the queue,
/// opens the result and ends the program, in this order; only what can be done
/// is enabled.
pub proof fn the_menu_of_the_tray(state: TrayView)
    ensures
        ({
            let menu = menu_of(state);
            &&& menu.len() == 7
            &&& menu[0].command == MenuCommand::Status && ends(menu[0].text, state.status)
                && !menu[0].enabled
            &&& menu[2].command == MenuCommand::Show && menu[2].enabled
            &&& menu[3].command == MenuCommand::Control && (menu[3].enabled <==> state.control
                != TrayControl::Disabled)
            &&& state.control == TrayControl::Pause ==> menu[3].action == Some(TrayAction::Pause)
                && menu[3].text == "暂停排队"@
            &&& state.control == TrayControl::Resume ==> menu[3].action == Some(TrayAction::Resume)
                && menu[3].text == "继续排队"@
            &&& state.control == TrayControl::Disabled ==> menu[3].action is None
            &&& menu[4].command == MenuCommand::OpenResult && (menu[4].enabled
                <==> state.can_open_result)
            &&& menu[4].action is Some <==> state.can_open_result
            &&& menu[6].command == MenuCommand::Exit && menu[6].enabled
        }),
{
    let text = menu_of(state)[0].text;
    assert(text.skip(text.len() - state.status.len()) =~= state.status);
}

/// Choosing a line asks for its action and nothing else; choosing to exit asks
/// for the end, and no other line takes that back.
pub proof fn choices_are_remembered(state: TrayView, line: MenuItemView)
    ensures
        line.action is Some ==> chosen(state, line).action == line.action,
        line.action is None ==> chosen(state, line).action == state.action,
        line.command == MenuCommand::Exit ==> chosen(state, line).exit_requested,
        line.command != MenuCommand::Exit ==> chosen(state, line).exit_requested
            == state.exit_requested,
        chosen(state, line).status == state.status,
        chosen(state, line).control == state.control,
        chosen(state, line).can_open_result == state.can_open_result,
{
}

/// The inputs of a window are named by these words, on Windows and on macOS.
pub proof fn inputs_are_named(identity: Seq<char>, texts: Seq<Seq<char>>)
    ensures
        hinted(identity, window_hints()) <==> occurs(identity, "message"@) || occurs(
            identity,
            "prompt"@,
        ) || occurs(identity, "ask"@) || occurs(identity, "codex"@) || occurs(identity, "任务"@)
            || occurs(identity, "消息"@) || occurs(identity, "输入"@),
        hinted(identity, mac_hints()) <==> occurs(identity, "message"@) || occurs(
            identity,
            "prompt"@,
        ) || occurs(identity, "ask"@) || occurs(identity, "codex"@) || occurs(identity, "任务"@)
            || occurs(identity, "消息"@),
        mac_hinted(texts) <==> exists|i: int|
            0 <= i < texts.len() && hinted(
                crate::text::lowercase(#[trigger] texts[i]),
                mac_hints(),
            ),
{
    let a = window_hints();
    assert(a[0] == "message"@ && a[1] == "prompt"@ && a[2] == "ask"@ && a[3] == "codex"@ && a[4]
        == "任务"@ && a[5] == "消息"@ && a[6] == "输入"@);
    let b = mac_hints();
    assert(b[0] == "message"@ && b[1] == "prompt"@ && b[2] == "ask"@ && b[3] == "codex"@ && b[4]
        == "任务"@ && b[5] == "消息"@);
}

/// An element of a window takes input where it is enabled, can have the focus
/// and is on the screen, and of the right kind.
pub proof fn elements_that_take_input(element: WindowElement, kind: ElementKind)
    ensures
        element.is_input(kind) <==> element.enabled && element.focusable && !element.offscreen
            && element.kind == kind,
        element.is_hinted() ==> element.enabled && element.focusable && !element.offscreen
            && element.kind == ElementKind::Edit,
        element.enabled && element.focusable && !element.offscreen && element.kind
            == ElementKind::Edit && hinted(
            crate::text::lowercase(element.name@ + " "@ + element.automation_id@),
            window_hints(),
        ) ==> element.is_hinted(),
{
}

/// The terminals that are tried, in their order, and what stands before the
/// command in each.
pub proof fn terminals_are_tried_in_order()
    ensures
        known_terminals().len() == 5,
        known_terminals()[0].program == "x-terminal-emulator"@,
        known_terminals()[0].prefix == Some("-e"@),
        known_terminals()[1].program == "gnome-terminal"@,
        known_terminals()[1].prefix == Some("--"@),
        known_terminals()[2].program == "konsole"@,
        known_terminals()[2].prefix == Some("-e"@),
        known_terminals()[3].program == "kitty"@,
        known_terminals()[3].prefix is None,
        known_terminals()[4].program == "alacritty"@,
        known_terminals()[4].prefix == Some("-e"@),
{
}

/// The lines of the menu say what they do, and the messages of the desktop are
/// told apart by their numbers.
pub proof fn lines_and_messages_of_the_tray(state: TrayView)
    ensures
        menu_of(state)[0].text == "状态："@ + state.status,
        menu_of(state)[2].text == "打开 Longwatch"@,
        state.control == TrayControl::Disabled ==> menu_of(state)[3].text == "暂无可控制任务"@,
        menu_of(state)[4].text == "打开 Codex 结果"@,
        menu_of(state)[6].text == "退出"@,
        menu_of(state)[1].command == MenuCommand::Separator,
        menu_of(state)[5].command == MenuCommand::Separator,
        state.can_open_result ==> menu_of(state)[4].action == Some(TrayAction::OpenResult),
        menu_of(state)[0].action is None && menu_of(state)[2].action is None && menu_of(
            state,
        )[6].action is None,
        TRAY_CALLBACK_MESSAGE == 0x8029,
        TRAY_SHOW_MESSAGE == 0x802a,
        LEFT_BUTTON_UP == 0x202,
        LEFT_DOUBLE_CLICK == 0x203,
        RIGHT_BUTTON_UP == 0x205,
        CONTEXT_MENU == 0x7b,
        WINDOW_DESTROYED == 2,
        MAX_TREE_DEPTH == 64,
{
}

/// A unit that is half of a pair without the other half is read as a
/// replacement character, and a unit of its own as its character.
pub proof fn broken_pairs_are_replaced(unit: u16, rest: Seq<u16>)
    ensures
        0xdc00 <= unit <= 0xdfff ==> utf16_text(seq![unit] + rest) == seq!['\u{fffd}'] + utf16_text(
            rest,
        ),
        0xd800 <= unit <= 0xdbff && (rest.len() == 0 || !(0xdc00 <= rest[0] <= 0xdfff))
            ==> utf16_text(seq![unit] + rest) == seq!['\u{fffd}'] + utf16_text(rest),
        unit < 0xd800 ==> utf16_text(seq![unit] + rest) == seq![unit as char] + utf16_text(rest),
{
    let units = seq![unit] + rest;
    assert(units.skip(1) =~= rest);
    assert(units[0] == unit);
    if rest.len() > 0 {
        assert(units[1] == rest[0]);
    }
}

} // verus!
