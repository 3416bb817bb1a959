use codex_longwatch::text::{
    contains, ends_with, fold_ascii, is_blank, is_white_space, join, keep_last_chars, lines, lower, number_text,
    replace_char, signed_text, split_on, split_words, starts_with, take_chars, trim, trim_char,
};

#[test]
fn trimming_follows_unicode_white_space() {
    assert_eq!(trim("\u{3000} \t任务\u{a0}\n"), "任务");
    assert_eq!(trim("\u{200b}x"), "\u{200b}x");
    assert!(is_blank(" \u{2003}\u{85}"));
    assert!(!is_blank(" . "));
}

#[test]
fn white_space_agrees_with_the_standard_library() {
    for code in 0..=0x10_ffff_u32 {
        if let Some(c) = char::from_u32(code) {
            assert_eq!(is_white_space(c), c.is_whitespace());
        }
    }
}

#[test]
fn words_are_maximal_runs() {
    assert_eq!(split_words("  a\u{2028}bc \n d"), ["a", "bc", "d"]);
    assert!(split_words(" \n").is_empty());
    assert_eq!(join(&split_words("a\tb  c"), " "), "a b c");
}

#[test]
fn searching_agrees_with_the_standard_library() {
    for text in ["", "a", "abcabd", "aaab", "高需求提示"] {
        for needle in ["", "a", "ab", "abd", "aab", "需求", "abcabdx"] {
            assert_eq!(contains(text, needle), text.contains(needle));
            assert_eq!(starts_with(text, needle), text.starts_with(needle));
            assert_eq!(ends_with(text, needle), text.ends_with(needle));
        }
    }
}

#[test]
fn numerals_are_decimal() {
    for value in [0_u64, 7, 10, 99, 100, 4_294_967_296, u64::MAX] {
        assert_eq!(number_text(value), value.to_string());
    }
    for value in [i64::MIN, -32601, -1, 0, 5, i64::MAX] {
        assert_eq!(signed_text(value), value.to_string());
    }
}

#[test]
fn cutting_counts_characters() {
    assert_eq!(take_chars("高需求", 2), "高需");
    assert_eq!(take_chars("高需求", 9), "高需求");
    assert_eq!(keep_last_chars("高需求", 2), "需求");
    assert_eq!(keep_last_chars("高", 2), "高");
}

#[test]
fn splitting_and_lines_agree_with_the_standard_library() {
    for text in ["", "|", "a|b", "a||b|", "一|二"] {
        let expected: Vec<&str> = text.split('|').collect();
        assert_eq!(split_on(text, '|'), expected);
    }
    for text in ["", "\n", "a", "a\r\nb\n", "a\n\nb\r", "\r\n\r\n"] {
        let expected: Vec<&str> = text.lines().collect();
        assert_eq!(lines(text), expected);
    }
}

#[test]
fn replacing_trimming_and_folding() {
    assert_eq!(replace_char("it's", '\'', "'\\''"), "it'\\''s");
    assert_eq!(trim_char("\"Debian\"", '"'), "Debian");
    assert_eq!(fold_ascii("WAYLAND Ä"), "wayland Ä");
    assert_eq!(lower("SERVER Ä"), "server ä");
}
