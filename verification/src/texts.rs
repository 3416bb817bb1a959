//! What is promised of searching, trimming, splitting and writing texts.

use vstd::prelude::*;

use crate::text::{
    begins, blank, chomped, decimal, ends, first_chars, is_word, joined, last_chars, occurs,
    replaced, segments, signed_decimal, stands_at, text_lines, trim_end, trim_start, trimmed,
    white_space, without_leading, without_trailing, word_len, words,
};

verus! {

/// A text occurs in another exactly where the other is made of something before
/// it, the text, and something after it; it begins or ends the other where
/// nothing stands before or after it.
pub proof fn texts_are_found(text: Seq<char>, needle: Seq<char>, front: Seq<char>, back: Seq<char>)
    ensures
        occurs(front + needle + back, needle),
        begins(needle + back, needle),
        ends(front + needle, needle),
        occurs(text, needle) ==> exists|before: Seq<char>, after: Seq<char>|
            text == #[trigger] (before + needle + after),
        begins(text, needle) ==> text == needle + text.skip(needle.len() as int),
        ends(text, needle) ==> text == text.take(text.len() - needle.len()) + needle,
        begins(text, needle) || ends(text, needle) ==> occurs(text, needle),
{
    let whole = front + needle + back;
    let at = front.len() as int;
    assert(whole.subrange(at, at + needle.len()) =~= needle);
    assert(stands_at(whole, needle, at));
    assert((needle + back).take(needle.len() as int) =~= needle);
    assert((front + needle).skip(at) =~= needle);
    if occurs(text, needle) {
        let at = choose|at: int| stands_at(text, needle, at);
        let before = text.take(at);
        let after = text.skip(at + needle.len());
        assert(text =~= before + needle + after);
    }
    if begins(text, needle) {
        assert(text =~= text.take(needle.len() as int) + text.skip(needle.len() as int));
        assert(text.subrange(0, needle.len() as int) =~= text.take(needle.len() as int));
        assert(stands_at(text, needle, 0));
    }
    if ends(text, needle) {
        let at = text.len() - needle.len();
        assert(text =~= text.take(at) + text.skip(at));
        assert(text.subrange(at, at + needle.len()) =~= text.skip(at));
        assert(stands_at(text, needle, at));
    }
}

/// Spaces, tabs and the ends of lines are white space, and so is the wide
/// space; letters, digits, byte order marks and zero-width spaces are not.
pub proof fn white_space_is_white(c: char)
    ensures
        c == ' ' || c == '\t' || c == '\n' || c == '\r' || c == '\u{a0}' || c == '\u{3000}'
            ==> white_space(c),
        'a' <= c <= 'z' || 'A' <= c <= 'Z' || '0' <= c <= '9' ==> !white_space(c),
        c == '\u{feff}' || c == '\u{200b}' || c == '-' || c == '_' || c == '.' || c == '/'
            ==> !white_space(c),
        '\u{4e00}' <= c <= '\u{9fff}' ==> !white_space(c),
{
}

/// Trimming takes the white space around a text away and nothing else.
pub proof fn trimming_takes_the_white_space_around(
    left: Seq<char>,
    core: Seq<char>,
    right: Seq<char>,
)
    requires
        blank(left),
        blank(right),
        core.len() > 0,
        !white_space(core[0]),
        !white_space(core.last()),
    ensures
        trimmed(left + core + right) == core,
        trimmed(core) == core,
        trimmed(left + right).len() == 0,
{
    start_trimmed(left, core + right);
    assert(left + core + right =~= left + (core + right));
    assert(trim_start(core + right) == core + right);
    end_trimmed(core, right);
    assert(trim_start(core) == core && trim_end(core) == core);
    let none = left + right;
    assert forall|i: int| 0 <= i < none.len() implies white_space(#[trigger] none[i]) by {
        if i < left.len() {
            assert(none[i] == left[i]);
        } else {
            assert(none[i] == right[i - left.len()]);
        }
    }
    crate::text::blank_is_trimmed_empty(none);
}

proof fn start_trimmed(left: Seq<char>, rest: Seq<char>)
    requires
        blank(left),
    ensures
        trim_start(left + rest) == trim_start(rest),
    decreases left.len(),
{
    if left.len() > 0 {
        assert(white_space(left[0]));
        assert((left + rest).skip(1) =~= left.skip(1) + rest);
        assert forall|i: int| 0 <= i < left.len() - 1 implies white_space(
            #[trigger] left.skip(1)[i],
        ) by {
            assert(left.skip(1)[i] == left[i + 1]);
        }
        start_trimmed(left.skip(1), rest);
    } else {
        assert(left + rest =~= rest);
    }
}

proof fn end_trimmed(core: Seq<char>, right: Seq<char>)
    requires
        blank(right),
        core.len() > 0,
        !white_space(core.last()),
    ensures
        trim_end(core + right) == core,
    decreases right.len(),
{
    if right.len() > 0 {
        assert(white_space(right[right.len() - 1]));
        assert((core + right).drop_last() =~= core + right.drop_last());
        assert forall|i: int| 0 <= i < right.len() - 1 implies white_space(
            #[trigger] right.drop_last()[i],
        ) by {
            assert(right.drop_last()[i] == right[i]);
        }
        end_trimmed(core, right.drop_last());
    } else {
        assert(core + right =~= core);
    }
}

/// The words of a text are those before a gap of white space and those after
/// it, in this order; a word by itself is its only word, and a blank text has none.
pub proof fn words_are_split_at_white_space(front: Seq<char>, gap: Seq<char>, back: Seq<char>)
    requires
        blank(gap),
        gap.len() > 0,
    ensures
        words(front + gap + back) == words(front) + words(back),
        words(gap) == Seq::<Seq<char>>::empty(),
        is_word(front) ==> words(front) == seq![front],
    decreases front.len(),
{
    words_after_gap(gap, back);
    words_after_gap(gap, Seq::empty());
    assert(gap + Seq::<char>::empty() =~= gap);
    let whole = front + gap + back;
    if front.len() == 0 {
        assert(whole =~= gap + back);
        assert(words(front) + words(back) =~= words(back));
    } else if white_space(front[0]) {
        assert(whole.skip(1) =~= front.skip(1) + gap + back);
        words_are_split_at_white_space(front.skip(1), gap, back);
    } else {
        word_length(front);
        word_length(whole);
        let n = word_len(front) as int;
        let m = word_len(whole) as int;
        if m < n {
            assert(whole[m] == front[m]);
        }
        if n < m {
            if n < front.len() {
                assert(whole[n] == front[n]);
            } else {
                assert(whole[n] == gap[0]);
                assert(white_space(gap[0]));
            }
        }
        assert(n == m);
        assert(whole.take(n) =~= front.take(n));
        assert(whole.skip(n) =~= front.skip(n) + gap + back);
        words_are_split_at_white_space(front.skip(n), gap, back);
        assert(words(whole) =~= words(front) + words(back));
        if is_word(front) {
            if n < front.len() {
                assert(!white_space(front[n]));
            }
            assert(front.take(n) =~= front);
            assert(front.skip(n) =~= Seq::<char>::empty());
            assert(words(front) =~= seq![front]);
        }
    }
}

proof fn word_length(text: Seq<char>)
    ensures
        word_len(text) <= text.len(),
        forall|i: int| 0 <= i < word_len(text) ==> !white_space(#[trigger] text[i]),
        word_len(text) < text.len() ==> white_space(text[word_len(text) as int]),
        text.len() > 0 && !white_space(text[0]) ==> word_len(text) > 0,
    decreases text.len(),
{
    if text.len() > 0 && !white_space(text[0]) {
        let rest = text.skip(1);
        word_length(rest);
        assert forall|i: int| 0 <= i < word_len(text) implies !white_space(#[trigger] text[i]) by {
            if i > 0 {
                assert(rest[i - 1] == text[i]);
            }
        }
    }
}

proof fn words_after_gap(gap: Seq<char>, back: Seq<char>)
    requires
        blank(gap),
    ensures
        words(gap + back) == words(back),
    decreases gap.len(),
{
    if gap.len() > 0 {
        assert(white_space(gap[0]));
        assert((gap + back).skip(1) =~= gap.skip(1) + back);
        assert forall|i: int| 0 <= i < gap.len() - 1 implies white_space(
            #[trigger] gap.skip(1)[i],
        ) by {
            assert(gap.skip(1)[i] == gap[i + 1]);
        }
        words_after_gap(gap.skip(1), back);
    } else {
        assert(gap + back =~= back);
    }
}

/// Joined parts stand in their order with the separator between each two.
pub proof fn parts_are_joined_in_order(
    parts: Seq<Seq<char>>,
    part: Seq<char>,
    separator: Seq<char>,
)
    ensures
        joined(Seq::empty(), separator).len() == 0,
        joined(seq![part], separator) == part,
        parts.len() > 0 ==> joined(parts.push(part), separator) == joined(parts, separator)
            + separator + part,
{
    assert(parts.push(part).drop_last() =~= parts);
}

/// The first and the last characters of a text are kept up to the limit, and a
/// shorter text as it is.
pub proof fn characters_are_kept_up_to_the_limit(text: Seq<char>, limit: int)
    requires
        limit >= 0,
    ensures
        text.len() <= limit ==> first_chars(text, limit) == text && last_chars(text, limit) == text,
        text.len() > limit ==> first_chars(text, limit).len() == limit && begins(
            text,
            first_chars(text, limit),
        ),
        text.len() > limit ==> last_chars(text, limit).len() == limit && ends(
            text,
            last_chars(text, limit),
        ),
{
}

/// A numeral ends with the last digit of its number, after the numeral of the
/// rest; numerals have no leading zero, and different numbers have different ones.
pub proof fn numerals_stand_for_their_numbers(number: nat, other: nat, digit: nat)
    requires
        digit < 10,
    ensures
        decimal(digit).len() == 1,
        '0' <= decimal(digit)[0] <= '9',
        decimal(digit)[0] as int - '0' as int == digit,
        number > 0 ==> decimal(10 * number + digit) == decimal(number) + decimal(digit),
        number > 0 ==> decimal(number)[0] != '0',
        decimal(number).len() > 0,
        decimal(number) == decimal(other) ==> number == other,
        number > 0 ==> signed_decimal(-number) == seq!['-'] + decimal(number),
        signed_decimal(number as int) == decimal(number),
    decreases number,
{
    if number > 0 {
        let whole = (10 * number + digit) as nat;
        assert(whole / 10 == number && whole % 10 == digit);
        assert(decimal(whole) =~= decimal(number) + decimal(digit));
    }
    if number >= 10 {
        numerals_stand_for_their_numbers(number / 10, other / 10, digit);
    }
    if decimal(number) == decimal(other) {
        if number >= 10 && other >= 10 {
            assert(decimal(number).drop_last() =~= decimal(number / 10));
            assert(decimal(other).drop_last() =~= decimal(other / 10));
            assert(decimal(number).last() as int == 48 + number % 10);
            assert(decimal(other).last() as int == 48 + other % 10);
            assert(number / 10 == other / 10);
        } else if number >= 10 {
            numerals_have_length(number / 10);
            assert(decimal(number).len() >= 2 && decimal(other).len() == 1);
        } else if other >= 10 {
            numerals_have_length(other / 10);
            assert(decimal(other).len() >= 2 && decimal(number).len() == 1);
        } else {
            assert(decimal(number)[0] as int == 48 + number);
            assert(decimal(other)[0] as int == 48 + other);
        }
    }
}

proof fn numerals_have_length(number: nat)
    ensures
        decimal(number).len() >= 1,
    decreases number,
{
    if number >= 10 {
        numerals_have_length(number / 10);
    }
}

/// A text is cut at its separators: what stands after the last one is the last
/// part, and what stands before it is cut by itself.
pub proof fn texts_are_cut_at_separators(front: Seq<char>, part: Seq<char>, separator: char)
    requires
        forall|i: int| 0 <= i < part.len() ==> #[trigger] part[i] != separator,
    ensures
        segments(front.push(separator) + part, separator) == segments(front, separator).push(part),
        segments(part, separator) == seq![part],
    decreases part.len(),
{
    let whole = front.push(separator) + part;
    if part.len() == 0 {
        assert(whole =~= front.push(separator));
        assert(whole.drop_last() =~= front);
        assert(part =~= Seq::<char>::empty());
    } else {
        let shorter = part.drop_last();
        assert forall|i: int| 0 <= i < shorter.len() implies #[trigger] shorter[i] != separator by {
            assert(shorter[i] == part[i]);
        }
        texts_are_cut_at_separators(front, shorter, separator);
        assert(whole.drop_last() =~= front.push(separator) + shorter);
        assert(whole.last() == part[part.len() - 1]);
        assert(shorter.push(part.last()) =~= part);
        let before = segments(front, separator).push(shorter);
        assert(before.drop_last() =~= segments(front, separator));
        assert(seq![shorter].drop_last().push(shorter.push(part.last())) =~= seq![part]);
    }
}

/// The lines of a text are what stands before each line feed, without a
/// carriage return before it, and what follows the last one where there is
/// something.
pub proof fn lines_end_with_line_feeds(front: Seq<char>, line: Seq<char>)
    requires
        front.len() == 0 || front.last() == '\n',
        forall|i: int| 0 <= i < line.len() ==> #[trigger] line[i] != '\n',
    ensures
        text_lines(front + line.push('\n')) == text_lines(front).push(
            if line.len() > 0 && line.last() == '\r' {
                line.drop_last()
            } else {
                line
            },
        ),
        line.len() > 0 ==> text_lines(front + line) == text_lines(front).push(line),
        text_lines(Seq::empty()).len() == 0,
{
    let head = if front.len() == 0 {
        Seq::<Seq<char>>::empty()
    } else {
        segments(front.drop_last(), '\n')
    };
    let parts = segments(front, '\n');
    if front.len() > 0 {
        assert(front =~= front.drop_last().push('\n') + Seq::<char>::empty());
        texts_are_cut_at_separators(front.drop_last(), Seq::empty(), '\n');
        assert(front.drop_last().push('\n') =~= front);
        texts_are_cut_at_separators(front.drop_last(), line, '\n');
    } else {
        texts_are_cut_at_separators(front, line, '\n');
        assert(front + line =~= line);
        assert(parts =~= seq![Seq::<char>::empty()]);
    }
    assert(parts =~= head.push(Seq::empty()));
    let longer = segments(front + line, '\n');
    assert(longer =~= head.push(line));
    texts_are_cut_at_separators(front + line, Seq::empty(), '\n');
    let ended = (front + line).push('\n');
    assert(ended + Seq::<char>::empty() =~= ended);
    assert(front + line.push('\n') =~= ended);
    assert(segments(ended, '\n') =~= head.push(line).push(Seq::empty()));
    let chopped = Seq::new(head.len(), |i: int| chomped(head[i]));
    assert(text_lines(front) =~= chopped);
    assert(text_lines(ended) =~= chopped.push(chomped(line)));
    if line.len() > 0 {
        assert(text_lines(front + line) =~= chopped.push(line));
    }
    assert(segments(Seq::empty(), '\n').last().len() == 0);
}

/// Replacing goes character by character: the given one becomes the given
/// text, and every other stays.
pub proof fn replacing_goes_by_characters(
    left: Seq<char>,
    right: Seq<char>,
    character: char,
    other: char,
    by: Seq<char>,
)
    requires
        other != character,
    ensures
        replaced(left + right, character, by) == replaced(left, character, by) + replaced(
            right,
            character,
            by,
        ),
        replaced(seq![character], character, by) == by,
        replaced(seq![other], character, by) == seq![other],
        replaced(Seq::empty(), character, by).len() == 0,
    decreases right.len(),
{
    reveal_with_fuel(replaced, 2);
    let none = Seq::<char>::empty();
    assert(seq![character].drop_last() =~= none);
    assert(seq![other].drop_last() =~= none);
    assert(none + by =~= by);
    assert(none.push(other) =~= seq![other]);
    if right.len() > 0 {
        replacing_goes_by_characters(left, right.drop_last(), character, other, by);
        assert((left + right).drop_last() =~= left + right.drop_last());
        assert((left + right).last() == right.last());
        assert(replaced(left + right, character, by) =~= replaced(left, character, by) + replaced(
            right,
            character,
            by,
        ));
    } else {
        assert(left + right =~= left);
        assert(replaced(left, character, by) + replaced(right, character, by) =~= replaced(
            left,
            character,
            by,
        ));
    }
}

/// A character at the start, or at the end, is dropped as often as it stands
/// there, and nothing behind another one.
pub proof fn characters_around_are_dropped(text: Seq<char>, character: char)
    ensures
        without_leading(seq![character] + text, character) == without_leading(text, character),
        text.len() == 0 || text[0] != character ==> without_leading(text, character) == text,
        without_trailing(text.push(character), character) == without_trailing(text, character),
        text.len() == 0 || text.last() != character ==> without_trailing(text, character) == text,
{
    assert((seq![character] + text).skip(1) =~= text);
    assert(text.push(character).drop_last() =~= text);
}

} // verus!
