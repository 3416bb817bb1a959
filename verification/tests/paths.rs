use std::path::{Path, PathBuf};

use codex_longwatch::paths::{
    comes_before, is_path, join_path, read_parts, same_opt_path, same_path, PathPart, PathStyle,
    PrefixKind,
};

const UNIX: PathStyle = PathStyle::Unix;
const WINDOWS: PathStyle = PathStyle::Windows;

const TEXTS: [&str; 24] = [
    "", "/", "//", ".", "./", "./.", "..", "/..", "a", "a/", "a//", "a/.", "./a", "/a", "//a",
    "/./a", "a/b", "a//b", "a/./b", "a/../b", "a-b/c", "a\\b", "...", "/高/需求/",
];

#[test]
fn unix_paths_compare_like_those_of_the_system() {
    for left in TEXTS {
        for right in TEXTS {
            let (a, b) = (Path::new(left), Path::new(right));
            assert_eq!(same_path(left, right, UNIX), a == b, "{left} {right}");
            assert_eq!(comes_before(left, right, UNIX), a < b, "{left} {right}");
        }
    }
}

#[test]
fn unix_paths_join_like_those_of_the_system() {
    for directory in TEXTS {
        let expected: PathBuf = Path::new(directory).join("name.json");
        assert_eq!(join_path(directory, "name.json", UNIX), expected.to_str().unwrap());
    }
}

#[test]
fn windows_paths_are_compared_part_by_part() {
    assert!(same_path("C:\\x\\y", "c:/x//y/", WINDOWS));
    assert!(same_path("\\\\server\\share\\x", "//server/share/x/.", WINDOWS));
    assert!(same_path("C:.", "C:", WINDOWS));
    assert!(same_path("C:.\\x", "C:x", WINDOWS));
    assert!(!same_path(".\\x", "x", WINDOWS));
    assert!(!same_path("C:x", "C:\\x", WINDOWS));
    assert!(!same_path("\\x", "C:\\x", WINDOWS));
    assert!(!same_path("C:\\X", "C:\\x", WINDOWS));
    assert!(!same_path("\\\\?\\C:\\x\\.", "\\\\?\\C:\\x", WINDOWS));
    assert!(!same_path("\\\\?\\C:\\a/b", "\\\\?\\C:\\a\\b", WINDOWS));
    assert!(comes_before("C:\\s\\a\\x", "C:\\s\\a-b\\x", WINDOWS));
    assert!(!comes_before("C:\\s\\a-b\\x", "C:\\s\\a\\x", WINDOWS));
}

#[test]
fn windows_prefixes_are_recognised() {
    let kind = |text: &str| match read_parts(text, WINDOWS).into_iter().next() {
        Some(PathPart::Prefix(prefix)) => Some((prefix.kind, prefix.first, prefix.second)),
        _ => None,
    };
    let prefix = |kind, first: &str, second: &str| Some((kind, first.into(), second.into()));
    assert_eq!(kind("c:\\x"), prefix(PrefixKind::Disk, "C", ""));
    assert_eq!(kind("\\\\a\\b\\c"), prefix(PrefixKind::Share, "a", "b"));
    assert_eq!(kind("\\\\a"), None);
    assert_eq!(kind("\\\\.\\COM1\\x"), prefix(PrefixKind::Device, "COM1", ""));
    assert_eq!(kind("\\\\?\\d:\\x"), prefix(PrefixKind::VerbatimDisk, "D", ""));
    assert_eq!(kind("\\\\?\\UNC\\a\\b\\c"), prefix(PrefixKind::VerbatimShare, "a", "b"));
    assert_eq!(kind("\\\\?\\name\\c"), prefix(PrefixKind::Verbatim, "name", ""));
    assert_eq!(kind("x\\y"), None);
}

#[test]
fn windows_paths_are_joined_with_a_backslash() {
    assert_eq!(join_path("C:\\x", "a", WINDOWS), "C:\\x\\a");
    assert_eq!(join_path("C:\\x\\", "a", WINDOWS), "C:\\x\\a");
    assert_eq!(join_path("C:/x/", "a", WINDOWS), "C:/x/a");
    assert_eq!(join_path("C:", "a", WINDOWS), "C:a");
    assert_eq!(join_path("", "a", WINDOWS), "a");
    assert_eq!(join_path("\\\\?\\C:\\x\\\\y\\", "a", WINDOWS), "\\\\?\\C:\\x\\y\\a");
    assert_eq!(join_path("\\\\?\\C:", "a", WINDOWS), "\\\\?\\C:\\a");
}

#[test]
fn optional_paths_are_compared() {
    let path = |text: &str| Some(text.to_string());
    assert!(same_opt_path(&None, &None, UNIX));
    assert!(!same_opt_path(&path("a"), &None, UNIX));
    assert!(same_opt_path(&path("a"), &path("a/"), UNIX));
    assert!(is_path(&path("a"), "a/.", UNIX));
    assert!(!is_path(&None, "a", UNIX));
}
