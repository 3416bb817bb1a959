//! Text as sequences of characters: the searching, trimming, splitting and
//! formatting that the rest of the library is written with.

use vstd::prelude::*;

verus! {

/// `String::push`: appends one character to the end of the string.
pub assume_specification[ String::push ](text: &mut String, ch: char)
    ensures
        final(text)@ == old(text)@.push(ch),
;

/// `String::push_str`: appends a string slice to the end of the string.
pub assume_specification[ String::push_str ](text: &mut String, string: &str)
    ensures
        final(text)@ == old(text)@ + string@,
;

/// The lower case of a text, by the Unicode tables that `str::to_lowercase` follows.
pub uninterp spec fn lowercase(text: Seq<char>) -> Seq<char>;

/// Whether a text consists of ASCII characters.
pub open spec fn ascii_text(text: Seq<char>) -> bool {
    forall|i: int| 0 <= i < text.len() ==> (#[trigger] text[i]) < '\u{80}'
}

/// `str::to_lowercase`: the result is a function of the text alone, here named
/// [`lowercase`].  Of an ASCII text only the letters change, each to its small
/// letter, so that lowering the result changes nothing; the Unicode tables for
/// other texts are not stated.
#[verifier::external_body]
fn to_lowercase(text: &str) -> (r: String)
    ensures
        r@ == lowercase(text@),
        ascii_text(text@) ==> r@ == ascii_folded(text@) && lowercase(r@) == r@,
{
    text.to_lowercase()
}

/// The view of an optional value.
pub open spec fn opt<T: View>(value: Option<T>) -> Option<T::V> {
    match value {
        Some(inner) => Some(inner@),
        None => None,
    }
}

/// The views of a sequence of values.
pub open spec fn views<T: View>(items: Seq<T>) -> Seq<T::V> {
    Seq::new(items.len(), |i: int| items[i]@)
}

/// The characters of a text, ready for indexing.
pub fn to_chars(text: &str) -> (r: Vec<char>)
    ensures
        r@ == text@,
{
    let mut out: Vec<char> = Vec::new();
    for c in it: text.chars()
        invariant
            out@.len() == it.index(),
            it.seq() == text@,
            forall|i: int| 0 <= i < out@.len() ==> out@[i] == it.seq()[i],
    {
        out.push(c);
    }
    assert(out@ =~= text@);
    out
}

/// The text made of the characters from `from` up to but not including `to`.
pub fn from_chars(chars: &Vec<char>, from: usize, to: usize) -> (r: String)
    requires
        from <= to <= chars@.len(),
    ensures
        r@ == chars@.subrange(from as int, to as int),
{
    let mut out = String::new();
    let mut i: usize = from;
    while i < to
        invariant
            from <= i <= to <= chars@.len(),
            out@ == chars@.subrange(from as int, i as int),
        decreases to - i,
    {
        out.push(chars[i]);
        i = i + 1;
        assert(out@ =~= chars@.subrange(from as int, i as int));
    }
    out
}

/// Whether two texts hold the same characters.
pub fn same(left: &str, right: &str) -> (r: bool)
    ensures
        r == (left@ == right@),
{
    left.to_owned() == right.to_owned()
}

/// Whether two optional texts are both absent or hold the same characters.
pub fn same_opt(left: &Option<String>, right: &Option<String>) -> (r: bool)
    ensures
        r == (opt(*left) == opt(*right)),
{
    match (left, right) {
        (Some(a), Some(b)) => same(a.as_str(), b.as_str()),
        (None, None) => true,
        _ => false,
    }
}

/// Whether an optional text is present and holds the given characters.
pub fn is_text(value: &Option<String>, expected: &str) -> (r: bool)
    ensures
        r == (opt(*value) == Some(expected@)),
{
    match value {
        Some(text) => same(text.as_str(), expected),
        None => false,
    }
}

/// A copy of an optional text.
pub fn copy_opt(value: &Option<String>) -> (r: Option<String>)
    ensures
        opt(r) == opt(*value),
{
    match value {
        Some(text) => Some(text.clone()),
        None => None,
    }
}

/// A copy of a list of texts.
pub fn copy_texts(texts: &Vec<String>) -> (r: Vec<String>)
    ensures
        views(r@) == views(texts@),
{
    let mut out: Vec<String> = Vec::new();
    let mut i: usize = 0;
    while i < texts.len()
        invariant
            i <= texts@.len(),
            out@.len() == i,
            forall|k: int| 0 <= k < i ==> out@[k]@ == texts@[k]@,
        decreases texts.len() - i,
    {
        out.push(texts[i].clone());
        i = i + 1;
    }
    assert(views(out@) =~= views(texts@));
    out
}

/// Whether two lists of texts hold the same texts in the same order.
pub fn same_texts(left: &Vec<String>, right: &Vec<String>) -> (r: bool)
    ensures
        r == (views(left@) == views(right@)),
{
    if left.len() != right.len() {
        assert(views(left@).len() != views(right@).len());
        return false;
    }
    let mut i: usize = 0;
    while i < left.len()
        invariant
            i <= left@.len(),
            left@.len() == right@.len(),
            forall|k: int| 0 <= k < i ==> left@[k]@ == right@[k]@,
        decreases left.len() - i,
    {
        if !same(left[i].as_str(), right[i].as_str()) {
            assert(views(left@)[i as int] != views(right@)[i as int]);
            return false;
        }
        i = i + 1;
    }
    assert(views(left@) =~= views(right@));
    true
}

/// Two texts, one after the other.
pub fn cat(first: &str, second: &str) -> (r: String)
    ensures
        r@ == first@ + second@,
{
    let mut out = first.to_owned();
    out.push_str(second);
    out
}

/// Three texts, one after the other.
pub fn cat3(first: &str, second: &str, third: &str) -> (r: String)
    ensures
        r@ == first@ + second@ + third@,
{
    let mut out = first.to_owned();
    out.push_str(second);
    out.push_str(third);
    out
}

/// The Unicode property White_Space.
pub open spec fn white_space(c: char) -> bool {
    let n = c as u32;
    ||| 0x9 <= n <= 0xd
    ||| n == 0x20
    ||| n == 0x85
    ||| n == 0xa0
    ||| n == 0x1680
    ||| 0x2000 <= n <= 0x200a
    ||| n == 0x2028
    ||| n == 0x2029
    ||| n == 0x202f
    ||| n == 0x205f
    ||| n == 0x3000
}

/// Whether a character is white space.
pub fn is_white_space(c: char) -> (r: bool)
    ensures
        r == white_space(c),
{
    let n: u32 = c as u32;
    (0x9 <= n && n <= 0xd) || n == 0x20 || n == 0x85 || n == 0xa0 || n == 0x1680 || (0x2000 <= n
        && n <= 0x200a) || n == 0x2028 || n == 0x2029 || n == 0x202f || n == 0x205f || n == 0x3000
}

/// A text without its leading white space.
pub open spec fn trim_start(text: Seq<char>) -> Seq<char>
    decreases text.len(),
{
    if text.len() > 0 && white_space(text[0]) {
        trim_start(text.skip(1))
    } else {
        text
    }
}

/// A text without its trailing white space.
pub open spec fn trim_end(text: Seq<char>) -> Seq<char>
    decreases text.len(),
{
    if text.len() > 0 && white_space(text.last()) {
        trim_end(text.drop_last())
    } else {
        text
    }
}

/// A text without leading and trailing white space.
pub open spec fn trimmed(text: Seq<char>) -> Seq<char> {
    trim_end(trim_start(text))
}

/// Whether a text holds nothing but white space.
pub open spec fn blank(text: Seq<char>) -> bool {
    forall|i: int| 0 <= i < text.len() ==> white_space(#[trigger] text[i])
}

/// A text is blank exactly when trimming leaves nothing of it.
pub proof fn blank_is_trimmed_empty(text: Seq<char>)
    ensures
        blank(text) == (trimmed(text).len() == 0),
    decreases text.len(),
{
    if text.len() > 0 && white_space(text[0]) {
        let rest = text.skip(1);
        blank_is_trimmed_empty(rest);
        assert(blank(text) == blank(rest)) by {
            if blank(rest) {
                assert forall|i: int| 0 <= i < text.len() implies white_space(#[trigger] text[i]) by {
                    if i > 0 {
                        assert(rest[i - 1] == text[i]);
                    }
                }
            }
            if blank(text) {
                assert forall|i: int| 0 <= i < rest.len() implies white_space(#[trigger] rest[i]) by {
                    assert(rest[i] == text[i + 1]);
                }
            }
        }
    } else if text.len() > 0 {
        trim_end_keeps_head(text);
    }
}

proof fn trim_end_keeps_head(text: Seq<char>)
    requires
        text.len() > 0,
        !white_space(text[0]),
    ensures
        trim_end(text).len() > 0,
    decreases text.len(),
{
    if white_space(text.last()) {
        trim_end_keeps_head(text.drop_last());
    }
}

/// The text without leading and trailing white space.
pub fn trim(text: &str) -> (r: String)
    ensures
        r@ == trimmed(text@),
{
    let chars = to_chars(text);
    let mut from: usize = 0;
    assert(chars@.skip(0) =~= text@);
    while from < chars.len() && is_white_space(chars[from])
        invariant
            chars@ == text@,
            from <= chars@.len(),
            trim_start(chars@.skip(from as int)) == trim_start(text@),
        decreases chars.len() - from,
    {
        assert(chars@.skip(from as int).skip(1) =~= chars@.skip(from + 1));
        from = from + 1;
    }
    let mut to: usize = chars.len();
    let ghost start = trim_start(text@);
    assert(chars@.subrange(from as int, to as int) =~= chars@.skip(from as int));
    while to > from && is_white_space(chars[to - 1])
        invariant
            from <= to <= chars@.len(),
            trim_end(chars@.subrange(from as int, to as int)) == trim_end(start),
        decreases to,
    {
        assert(chars@.subrange(from as int, to as int).drop_last() =~= chars@.subrange(
            from as int,
            to - 1,
        ));
        to = to - 1;
    }
    from_chars(&chars, from, to)
}

/// Whether a text holds nothing but white space.
pub fn is_blank(text: &str) -> (r: bool)
    ensures
        r == blank(text@),
        r == (trimmed(text@).len() == 0),
{
    proof {
        blank_is_trimmed_empty(text@);
    }
    trim(text).as_str().is_empty()
}

/// The number of characters before the first white space.
pub open spec fn word_len(text: Seq<char>) -> nat
    decreases text.len(),
{
    if text.len() > 0 && !white_space(text[0]) {
        1 + word_len(text.skip(1))
    } else {
        0
    }
}

/// The maximal runs of characters that are not white space, in order.
pub open spec fn words(text: Seq<char>) -> Seq<Seq<char>>
    decreases text.len(),
{
    if text.len() == 0 {
        Seq::empty()
    } else if white_space(text[0]) {
        words(text.skip(1))
    } else {
        let n = word_len(text) as int;
        if 0 < n <= text.len() {
            seq![text.take(n)] + words(text.skip(n))
        } else {
            Seq::empty()
        }
    }
}

proof fn word_len_in_range(text: Seq<char>)
    ensures
        word_len(text) <= text.len(),
        text.len() > 0 && !white_space(text[0]) ==> word_len(text) > 0,
    decreases text.len(),
{
    if text.len() > 0 && !white_space(text[0]) {
        word_len_in_range(text.skip(1));
    }
}

/// The words of a text, in order.
pub fn split_words(text: &str) -> (r: Vec<String>)
    ensures
        views(r@) == words(text@),
{
    let chars = to_chars(text);
    let mut out: Vec<String> = Vec::new();
    let mut i: usize = 0;
    assert(chars@.skip(0) =~= text@);
    assert(views(out@) + words(text@) =~= words(text@));
    while i < chars.len()
        invariant
            chars@ == text@,
            i <= chars@.len(),
            views(out@) + words(chars@.skip(i as int)) == words(text@),
        decreases chars.len() - i,
    {
        let ghost rest = chars@.skip(i as int);
        if is_white_space(chars[i]) {
            assert(rest.skip(1) =~= chars@.skip(i + 1));
            i = i + 1;
        } else {
            let start: usize = i;
            let mut end: usize = i;
            while end < chars.len() && !is_white_space(chars[end])
                invariant
                    start <= end <= chars@.len(),
                    word_len(chars@.skip(start as int)) == (end - start) + word_len(
                        chars@.skip(end as int),
                    ),
                decreases chars.len() - end,
            {
                assert(chars@.skip(end as int).skip(1) =~= chars@.skip(end + 1));
                end = end + 1;
            }
            proof {
                word_len_in_range(rest);
            }
            let word = from_chars(&chars, start, end);
            let ghost before = views(out@);
            out.push(word);
            assert(views(out@) =~= before.push(word@));
            assert(word@ =~= rest.take(end - start));
            assert(rest.skip(end - start) =~= chars@.skip(end as int));
            i = end;
            assert(views(out@) + words(chars@.skip(i as int)) =~= before + (seq![word@] + words(
                chars@.skip(i as int),
            )));
        }
    }
    assert(views(out@) =~= words(text@));
    out
}

/// The parts one after the other, with the separator between them.
pub open spec fn joined(parts: Seq<Seq<char>>, separator: Seq<char>) -> Seq<char>
    decreases parts.len(),
{
    if parts.len() == 0 {
        Seq::empty()
    } else if parts.len() == 1 {
        parts[0]
    } else {
        joined(parts.drop_last(), separator) + separator + parts.last()
    }
}

/// Whether a text is one word.
pub open spec fn is_word(text: Seq<char>) -> bool {
    text.len() > 0 && forall|i: int| 0 <= i < text.len() ==> !white_space(#[trigger] text[i])
}

/// Whether a text has no white space but single spaces between other characters.
pub open spec fn single_spaced(text: Seq<char>) -> bool {
    &&& forall|i: int|
        0 <= i < text.len() && white_space(#[trigger] text[i]) ==> text[i] == ' ' && 0 < i
            < text.len() - 1
    &&& forall|i: int|
        0 <= i < text.len() - 1 && white_space(#[trigger] text[i]) ==> !white_space(text[i + 1])
}

proof fn run_ends_word(text: Seq<char>)
    ensures
        word_len(text) <= text.len(),
        forall|i: int| 0 <= i < word_len(text) ==> !white_space(#[trigger] text[i]),
        word_len(text) < text.len() ==> white_space(text[word_len(text) as int]),
    decreases text.len(),
{
    if text.len() > 0 && !white_space(text[0]) {
        run_ends_word(text.skip(1));
        let n = word_len(text.skip(1)) as int;
        assert forall|i: int| 0 <= i < word_len(text) implies !white_space(#[trigger] text[i]) by {
            if i > 0 {
                assert(text.skip(1)[i - 1] == text[i]);
            }
        }
        if n + 1 < text.len() {
            assert(text.skip(1)[n] == text[n + 1]);
        }
    }
}

proof fn run_before_space(text: Seq<char>, rest: Seq<char>)
    requires
        rest.len() == 0 || white_space(rest[0]),
    ensures
        word_len(text + rest) == word_len(text),
    decreases text.len(),
{
    let whole = text + rest;
    if text.len() > 0 {
        assert(whole[0] == text[0]);
        assert(whole.skip(1) =~= text.skip(1) + rest);
        run_before_space(text.skip(1), rest);
    } else {
        assert(whole =~= rest);
    }
}

proof fn words_before_space(text: Seq<char>, rest: Seq<char>)
    requires
        rest.len() == 0 || white_space(rest[0]),
    ensures
        words(text + rest) == words(text) + words(rest),
    decreases text.len(),
{
    let whole = text + rest;
    if text.len() == 0 {
        assert(whole =~= rest);
        assert(Seq::<Seq<char>>::empty() + words(rest) =~= words(rest));
    } else {
        assert(whole[0] == text[0]);
        if white_space(text[0]) {
            assert(whole.skip(1) =~= text.skip(1) + rest);
            words_before_space(text.skip(1), rest);
        } else {
            run_before_space(text, rest);
            word_len_in_range(text);
            let n = word_len(text) as int;
            assert(whole.take(n) =~= text.take(n));
            assert(whole.skip(n) =~= text.skip(n) + rest);
            words_before_space(text.skip(n), rest);
            assert(seq![text.take(n)] + (words(text.skip(n)) + words(rest)) =~= (seq![text.take(n)]
                + words(text.skip(n))) + words(rest));
        }
    }
}

proof fn word_alone(word: Seq<char>)
    requires
        is_word(word),
    ensures
        words(word) == seq![word],
{
    run_ends_word(word);
    word_len_in_range(word);
    assert(word_len(word) == word.len());
    assert(word.take(word.len() as int) =~= word);
    assert(!white_space(word[0]));
    let rest = word.skip(word.len() as int);
    assert(rest.len() == 0);
    assert(words(rest) == Seq::<Seq<char>>::empty());
    assert(seq![word] + Seq::<Seq<char>>::empty() =~= seq![word]);
}

/// Every word of a text is one word, of characters of the text.
pub proof fn words_are_words(text: Seq<char>)
    ensures
        forall|i: int| 0 <= i < words(text).len() ==> is_word(#[trigger] words(text)[i]),
        forall|i: int, j: int|
            0 <= i < words(text).len() && 0 <= j < words(text)[i].len() ==> text.contains(
                #[trigger] words(text)[i][j],
            ),
    decreases text.len(),
{
    if text.len() > 0 {
        let n: int = if white_space(text[0]) {
            1
        } else {
            word_len(text) as int
        };
        word_len_in_range(text);
        run_ends_word(text);
        let rest = text.skip(n);
        words_are_words(rest);
        let all = words(text);
        let head: int = if white_space(text[0]) {
            0
        } else {
            1
        };
        assert forall|i: int| 0 <= i < all.len() implies is_word(#[trigger] all[i]) by {
            if i >= head {
                assert(all[i] == words(rest)[i - head]);
            } else {
                assert(all[i] == text.take(n));
            }
        }
        assert forall|i: int, j: int| 0 <= i < all.len() && 0 <= j < all[i].len() implies text.contains(
            #[trigger] all[i][j],
        ) by {
            if i >= head {
                assert(all[i] == words(rest)[i - head]);
                assert(rest.contains(words(rest)[i - head][j]));
                let k = choose|k: int| 0 <= k < rest.len() && rest[k] == all[i][j];
                assert(text[n + k] == all[i][j]);
            } else {
                assert(all[i][j] == text[j]);
            }
        }
    }
}

/// Words that are joined by single spaces are the words of the result, which is
/// single-spaced and begins with the first of them.
pub proof fn joined_words_stay(parts: Seq<Seq<char>>)
    requires
        forall|i: int| 0 <= i < parts.len() ==> is_word(#[trigger] parts[i]),
    ensures
        words(joined(parts, " "@)) == parts,
        single_spaced(joined(parts, " "@)),
        parts.len() > 0 ==> joined(parts, " "@).len() > 0 && joined(parts, " "@)[0] == parts[0][0]
            && !white_space(joined(parts, " "@).last()),
    decreases parts.len(),
{
    reveal_strlit(" ");
    assert(" "@ =~= seq![' ']);
    if parts.len() == 0 {
        assert(words(joined(parts, " "@)) =~= parts);
    } else if parts.len() == 1 {
        word_alone(parts[0]);
        assert(seq![parts[0]] =~= parts);
    } else {
        let front = parts.drop_last();
        let last = parts.last();
        assert(is_word(last));
        assert forall|i: int| 0 <= i < front.len() implies is_word(#[trigger] front[i]) by {
            assert(front[i] == parts[i]);
        }
        joined_words_stay(front);
        let head = joined(front, " "@);
        let tail = " "@ + last;
        let whole = joined(parts, " "@);
        assert(whole =~= head + tail);
        words_before_space(head, tail);
        assert(tail.skip(1) =~= last);
        word_alone(last);
        assert(words(tail) == seq![last]);
        assert(front + seq![last] =~= parts);
        assert(whole.last() == last.last());
        let n = head.len() as int;
        assert forall|i: int| 0 <= i < whole.len() && white_space(#[trigger] whole[i]) implies whole[i]
            == ' ' && 0 < i < whole.len() - 1 by {
            if i < n {
                assert(whole[i] == head[i]);
            } else if i > n {
                assert(whole[i] == last[i - n - 1]);
            }
        }
        assert forall|i: int| 0 <= i < whole.len() - 1 && white_space(#[trigger] whole[i]) implies !white_space(
            whole[i + 1],
        ) by {
            if i < n {
                assert(whole[i] == head[i]);
                assert(i < n - 1);
                assert(whole[i + 1] == head[i + 1]);
            } else if i == n {
                assert(whole[i + 1] == last[0]);
            } else {
                assert(whole[i] == last[i - n - 1]);
            }
        }
    }
}

/// The parts one after the other, with the separator between them.
pub fn join(parts: &Vec<String>, separator: &str) -> (r: String)
    ensures
        r@ == joined(views(parts@), separator@),
{
    let mut out = String::new();
    let mut i: usize = 0;
    while i < parts.len()
        invariant
            i <= parts@.len(),
            out@ == joined(views(parts@).take(i as int), separator@),
        decreases parts.len() - i,
    {
        let ghost upto = views(parts@).take(i + 1);
        assert(upto.drop_last() =~= views(parts@).take(i as int));
        if i > 0 {
            out.push_str(separator);
        }
        out.push_str(parts[i].as_str());
        assert(out@ =~= joined(upto, separator@));
        i = i + 1;
    }
    assert(views(parts@).take(parts@.len() as int) =~= views(parts@));
    out
}

/// Whether `needle` stands in `text` at position `at`.
pub open spec fn stands_at(text: Seq<char>, needle: Seq<char>, at: int) -> bool {
    0 <= at && at + needle.len() <= text.len() && text.subrange(at, at + needle.len()) == needle
}

/// Whether `needle` occurs anywhere in `text`.
pub open spec fn occurs(text: Seq<char>, needle: Seq<char>) -> bool {
    exists|at: int| stands_at(text, needle, at)
}

fn stands_at_exec(text: &Vec<char>, needle: &Vec<char>, at: usize) -> (r: bool)
    requires
        at + needle@.len() <= text@.len(),
    ensures
        r == stands_at(text@, needle@, at as int),
{
    let ghost window = text@.subrange(at as int, at + needle@.len());
    let total: usize = text.len();
    let mut i: usize = 0;
    while i < needle.len()
        invariant
            i <= needle@.len(),
            total == text@.len(),
            at + needle@.len() <= text@.len(),
            window == text@.subrange(at as int, at + needle@.len()),
            forall|k: int| 0 <= k < i ==> window[k] == needle@[k],
        decreases needle.len() - i,
    {
        if text[at + i] != needle[i] {
            assert(window[i as int] != needle@[i as int]);
            return false;
        }
        i = i + 1;
    }
    assert(window =~= needle@);
    true
}

/// Whether `needle` occurs anywhere in `text`.
pub fn contains(text: &str, needle: &str) -> (r: bool)
    ensures
        r == occurs(text@, needle@),
{
    let hay = to_chars(text);
    let pin = to_chars(needle);
    if pin.len() > hay.len() {
        return false;
    }
    let last: usize = hay.len() - pin.len();
    let mut at: usize = 0;
    while at < last
        invariant
            hay@ == text@,
            pin@ == needle@,
            pin@.len() + last == hay@.len(),
            at <= last,
            forall|k: int| 0 <= k < at ==> !stands_at(text@, needle@, k),
        decreases last - at,
    {
        if stands_at_exec(&hay, &pin, at) {
            return true;
        }
        at = at + 1;
    }
    stands_at_exec(&hay, &pin, last)
}

/// Whether `text` begins with `prefix`.
pub open spec fn begins(text: Seq<char>, prefix: Seq<char>) -> bool {
    prefix.len() <= text.len() && text.take(prefix.len() as int) == prefix
}

/// Whether `text` begins with `prefix`.
pub fn starts_with(text: &str, prefix: &str) -> (r: bool)
    ensures
        r == begins(text@, prefix@),
{
    let hay = to_chars(text);
    let pin = to_chars(prefix);
    if pin.len() > hay.len() {
        return false;
    }
    assert(hay@.subrange(0, pin@.len() as int) =~= hay@.take(pin@.len() as int));
    stands_at_exec(&hay, &pin, 0)
}

/// Whether `text` ends with `suffix`.
pub open spec fn ends(text: Seq<char>, suffix: Seq<char>) -> bool {
    suffix.len() <= text.len() && text.skip(text.len() - suffix.len()) == suffix
}

/// Whether `text` ends with `suffix`.
pub fn ends_with(text: &str, suffix: &str) -> (r: bool)
    ensures
        r == ends(text@, suffix@),
{
    let hay = to_chars(text);
    let pin = to_chars(suffix);
    if pin.len() > hay.len() {
        return false;
    }
    let at: usize = hay.len() - pin.len();
    assert(hay@.subrange(at as int, hay@.len() as int) =~= hay@.skip(at as int));
    stands_at_exec(&hay, &pin, at)
}

/// At most the first `limit` characters of a text.
pub open spec fn first_chars(text: Seq<char>, limit: int) -> Seq<char> {
    if text.len() <= limit {
        text
    } else {
        text.take(limit)
    }
}

/// At most the first `limit` characters of a text.
pub fn take_chars(text: &str, limit: usize) -> (r: String)
    ensures
        r@ == first_chars(text@, limit as int),
{
    let chars = to_chars(text);
    if chars.len() <= limit {
        text.to_owned()
    } else {
        from_chars(&chars, 0, limit)
    }
}

/// At most the last `limit` characters of a text.
pub open spec fn last_chars(text: Seq<char>, limit: int) -> Seq<char> {
    if text.len() <= limit {
        text
    } else {
        text.skip(text.len() - limit)
    }
}

/// At most the last `limit` characters of a text.
pub fn keep_last_chars(text: &str, limit: usize) -> (r: String)
    ensures
        r@ == last_chars(text@, limit as int),
{
    let chars = to_chars(text);
    if chars.len() <= limit {
        text.to_owned()
    } else {
        let from: usize = chars.len() - limit;
        assert(chars@.subrange(from as int, chars@.len() as int) =~= chars@.skip(from as int));
        from_chars(&chars, from, chars.len())
    }
}

/// The text in lower case.
pub fn lower(text: &str) -> (r: String)
    ensures
        r@ == lowercase(text@),
        ascii_text(text@) ==> r@ == ascii_folded(text@) && lowercase(r@) == r@,
{
    to_lowercase(text)
}

/// The character of a decimal digit.
pub open spec fn digit(value: int) -> char {
    (48 + value) as char
}

/// The decimal numeral of a natural number, without leading zeros.
pub open spec fn decimal(value: nat) -> Seq<char>
    decreases value,
{
    if value < 10 {
        seq![digit(value as int)]
    } else {
        decimal(value / 10).push(digit((value % 10) as int))
    }
}

/// The decimal numeral of an integer, with a sign where it is negative.
pub open spec fn signed_decimal(value: int) -> Seq<char> {
    if value < 0 {
        seq!['-'] + decimal((-value) as nat)
    } else {
        decimal(value as nat)
    }
}

fn digit_exec(value: u8) -> (r: char)
    requires
        value < 10,
    ensures
        r == digit(value as int),
{
    (48 + value) as char
}

/// The decimal numeral of an unsigned integer.
pub fn number_text(value: u64) -> (r: String)
    ensures
        r@ == decimal(value as nat),
    decreases value,
{
    let last = digit_exec((value % 10) as u8);
    let mut out = if value < 10 {
        String::new()
    } else {
        number_text(value / 10)
    };
    out.push(last);
    assert(out@ =~= decimal(value as nat));
    out
}

/// The decimal numeral of a signed integer.
pub fn signed_text(value: i64) -> (r: String)
    ensures
        r@ == signed_decimal(value as int),
{
    if value < 0 {
        let magnitude: u64 = if value == i64::MIN {
            9_223_372_036_854_775_808
        } else {
            (-value) as u64
        };
        let digits = number_text(magnitude);
        let mut out = String::new();
        out.push('-');
        out.push_str(digits.as_str());
        assert(out@ =~= seq!['-'] + digits@);
        out
    } else {
        number_text(value as u64)
    }
}

/// The parts of a text between its separators: one more than there are separators.
pub open spec fn segments(text: Seq<char>, separator: char) -> Seq<Seq<char>>
    decreases text.len(),
{
    if text.len() == 0 {
        seq![Seq::<char>::empty()]
    } else {
        let before = segments(text.drop_last(), separator);
        if text.last() == separator {
            before.push(Seq::empty())
        } else {
            before.drop_last().push(before.last().push(text.last()))
        }
    }
}

/// The parts of a text between its separators.
pub fn split_on(text: &str, separator: char) -> (r: Vec<String>)
    ensures
        views(r@) == segments(text@, separator),
        r@.len() > 0,
{
    let chars = to_chars(text);
    let mut out: Vec<String> = Vec::new();
    let mut current = String::new();
    let mut i: usize = 0;
    assert(views(out@).push(current@) =~= segments(chars@.take(0), separator));
    while i < chars.len()
        invariant
            i <= chars@.len(),
            views(out@).push(current@) == segments(chars@.take(i as int), separator),
        decreases chars.len() - i,
    {
        let ghost done = views(out@);
        let ghost part = current@;
        let ghost before = segments(chars@.take(i as int), separator);
        assert(chars@.take(i + 1).drop_last() =~= chars@.take(i as int));
        let c = chars[i];
        if c == separator {
            out.push(current);
            current = String::new();
            assert(views(out@) =~= done.push(part));
            assert(views(out@).push(current@) =~= before.push(Seq::empty()));
        } else {
            current.push(c);
            assert(before.drop_last() =~= done);
            assert(before.last() == part);
        }
        i = i + 1;
    }
    assert(chars@.take(chars@.len() as int) =~= text@);
    let ghost done = views(out@);
    let ghost part = current@;
    out.push(current);
    assert(views(out@) =~= done.push(part));
    out
}

/// A line without the carriage return at its end.
pub open spec fn chomped(line: Seq<char>) -> Seq<char> {
    if line.len() > 0 && line.last() == '\r' {
        line.drop_last()
    } else {
        line
    }
}

/// The lines of a text: what ends with a line feed, without it and a carriage
/// return before it, and what follows the last one where it is not empty.
pub open spec fn text_lines(text: Seq<char>) -> Seq<Seq<char>> {
    let parts = segments(text, '\n');
    let complete = Seq::new((parts.len() - 1) as nat, |i: int| chomped(parts[i]));
    if parts.last().len() > 0 {
        complete.push(parts.last())
    } else {
        complete
    }
}

/// The lines of a text.
pub fn lines(text: &str) -> (r: Vec<String>)
    ensures
        views(r@) == text_lines(text@),
{
    let parts = split_on(text, '\n');
    let ghost all = segments(text@, '\n');
    let mut out: Vec<String> = Vec::new();
    let last: usize = parts.len() - 1;
    let mut i: usize = 0;
    while i < last
        invariant
            i <= last,
            last + 1 == parts@.len(),
            all == views(parts@),
            out@.len() == i,
            forall|k: int| 0 <= k < i ==> (#[trigger] out@[k])@ == chomped(all[k]),
        decreases last - i,
    {
        assert(all[i as int] == parts@[i as int]@);
        let chars = to_chars(parts[i].as_str());
        if chars.len() > 0 && chars[chars.len() - 1] == '\r' {
            let line = from_chars(&chars, 0, chars.len() - 1);
            assert(line@ =~= chomped(all[i as int]));
            out.push(line);
        } else {
            out.push(parts[i].clone());
        }
        i = i + 1;
    }
    let ghost complete = Seq::new((all.len() - 1) as nat, |i: int| chomped(all[i]));
    assert(views(out@) =~= complete);
    assert(all.last() == parts@[last as int]@);
    if !parts[last].as_str().is_empty() {
        out.push(parts[last].clone());
        assert(views(out@) =~= complete.push(all.last()));
    }
    out
}

/// A text in which every occurrence of a character is replaced by a text.
pub open spec fn replaced(text: Seq<char>, character: char, by: Seq<char>) -> Seq<char>
    decreases text.len(),
{
    if text.len() == 0 {
        Seq::empty()
    } else if text.last() == character {
        replaced(text.drop_last(), character, by) + by
    } else {
        replaced(text.drop_last(), character, by).push(text.last())
    }
}

/// Replaces every occurrence of a character by a text.
pub fn replace_char(text: &str, character: char, by: &str) -> (r: String)
    ensures
        r@ == replaced(text@, character, by@),
{
    let chars = to_chars(text);
    let mut out = String::new();
    let mut i: usize = 0;
    while i < chars.len()
        invariant
            i <= chars@.len(),
            out@ == replaced(chars@.take(i as int), character, by@),
        decreases chars.len() - i,
    {
        assert(chars@.take(i + 1).drop_last() =~= chars@.take(i as int));
        if chars[i] == character {
            out.push_str(by);
        } else {
            out.push(chars[i]);
        }
        i = i + 1;
    }
    assert(chars@.take(chars@.len() as int) =~= text@);
    out
}

/// A text without a character at its start, as often as it stands there.
pub open spec fn without_leading(text: Seq<char>, character: char) -> Seq<char>
    decreases text.len(),
{
    if text.len() > 0 && text[0] == character {
        without_leading(text.skip(1), character)
    } else {
        text
    }
}

/// A text without a character at its end, as often as it stands there.
pub open spec fn without_trailing(text: Seq<char>, character: char) -> Seq<char>
    decreases text.len(),
{
    if text.len() > 0 && text.last() == character {
        without_trailing(text.drop_last(), character)
    } else {
        text
    }
}

/// Drops a character at the start and at the end, as often as it stands there.
pub fn trim_char(text: &str, character: char) -> (r: String)
    ensures
        r@ == without_trailing(without_leading(text@, character), character),
{
    let chars = to_chars(text);
    let mut from: usize = 0;
    assert(chars@.skip(0) =~= text@);
    while from < chars.len() && chars[from] == character
        invariant
            chars@ == text@,
            from <= chars@.len(),
            without_leading(chars@.skip(from as int), character) == without_leading(
                text@,
                character,
            ),
        decreases chars.len() - from,
    {
        assert(chars@.skip(from as int).skip(1) =~= chars@.skip(from + 1));
        from = from + 1;
    }
    let mut to: usize = chars.len();
    let ghost start = without_leading(text@, character);
    assert(chars@.subrange(from as int, to as int) =~= chars@.skip(from as int));
    while to > from && chars[to - 1] == character
        invariant
            from <= to <= chars@.len(),
            without_trailing(chars@.subrange(from as int, to as int), character)
                == without_trailing(start, character),
        decreases to,
    {
        assert(chars@.subrange(from as int, to as int).drop_last() =~= chars@.subrange(
            from as int,
            to - 1,
        ));
        to = to - 1;
    }
    from_chars(&chars, from, to)
}

/// The lower case of an ASCII letter; another character stays as it is.
pub open spec fn ascii_lower(c: char) -> char {
    if 'A' <= c <= 'Z' {
        ((c as u32 + 32) as u32) as char
    } else {
        c
    }
}

/// The lower case of an ASCII letter; another character stays as it is.
pub fn lower_ascii(c: char) -> (r: char)
    ensures
        r == ascii_lower(c),
{
    if 'A' <= c && c <= 'Z' {
        let code: u8 = c as u8;
        (code + 32) as char
    } else {
        c
    }
}

/// A text with its ASCII letters in lower case.
pub open spec fn ascii_folded(text: Seq<char>) -> Seq<char> {
    Seq::new(text.len(), |i: int| ascii_lower(text[i]))
}

/// A text with its ASCII letters in lower case.
pub fn fold_ascii(text: &str) -> (r: String)
    ensures
        r@ == ascii_folded(text@),
{
    let chars = to_chars(text);
    let mut out = String::new();
    let mut i: usize = 0;
    while i < chars.len()
        invariant
            i <= chars@.len(),
            out@ == ascii_folded(chars@.take(i as int)),
        decreases chars.len() - i,
    {
        out.push(lower_ascii(chars[i]));
        i = i + 1;
        assert(out@ =~= ascii_folded(chars@.take(i as int)));
    }
    assert(chars@.take(chars@.len() as int) =~= text@);
    out
}

/// Lowering the ASCII letters of joined parts lowers those of each part.
pub proof fn folded_joined(parts: Seq<Seq<char>>)
    ensures
        ascii_folded(joined(parts, " "@)) == joined(
            Seq::new(parts.len(), |i: int| ascii_folded(parts[i])),
            " "@,
        ),
    decreases parts.len(),
{
    reveal_strlit(" ");
    assert(" "@ =~= seq![' ']);
    let folded = Seq::new(parts.len(), |i: int| ascii_folded(parts[i]));
    if parts.len() == 0 {
        assert(ascii_folded(joined(parts, " "@)) =~= Seq::<char>::empty());
    } else if parts.len() > 1 {
        let front = parts.drop_last();
        folded_joined(front);
        assert(folded.drop_last() =~= Seq::new(front.len(), |i: int| ascii_folded(front[i])));
        assert(ascii_folded(joined(parts, " "@)) =~= ascii_folded(joined(front, " "@)) + " "@
            + ascii_folded(parts.last()));
    }
}

/// Lowering the ASCII letters of a word leaves a word.
pub proof fn folded_word(word: Seq<char>)
    requires
        is_word(word),
    ensures
        is_word(ascii_folded(word)),
{
    let folded = ascii_folded(word);
    assert forall|i: int| 0 <= i < folded.len() implies !white_space(#[trigger] folded[i]) by {
        assert(!white_space(word[i]));
    }
}

/// Parts of ASCII characters are joined to an ASCII text.
pub proof fn joined_ascii(parts: Seq<Seq<char>>)
    requires
        forall|i: int| 0 <= i < parts.len() ==> ascii_text(#[trigger] parts[i]),
    ensures
        ascii_text(joined(parts, " "@)),
    decreases parts.len(),
{
    reveal_strlit(" ");
    assert(" "@ =~= seq![' ']);
    if parts.len() > 1 {
        let front = parts.drop_last();
        assert forall|i: int| 0 <= i < front.len() implies ascii_text(#[trigger] front[i]) by {
            assert(front[i] == parts[i]);
        }
        joined_ascii(front);
        let head = joined(front, " "@);
        let whole = joined(parts, " "@);
        let n = head.len() as int;
        assert(ascii_text(parts.last()));
        assert forall|i: int| 0 <= i < whole.len() implies (#[trigger] whole[i]) < '\u{80}' by {
            if i < n {
                assert(whole[i] == head[i]);
            } else if i == n {
                assert(whole[i] == ' ');
            } else {
                assert(whole[i] == parts.last()[i - n - 1]);
            }
        }
    }
}

} // verus!
