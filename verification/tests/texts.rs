use cjs_exports::text::{
    chars_of, followed, drop_last_chars, ends_with, last_position, same, same_chars, starts_with,
};

#[test]
fn characters_come_out_in_order() {
    assert_eq!(chars_of("aé/"), vec!['a', 'é', '/']);
    assert_eq!(chars_of(""), Vec::<char>::new());
}

#[test]
fn sameness_is_that_of_the_characters() {
    assert!(same("abc", "abc"));
    assert!(same("", ""));
    assert!(!same("abc", "abd"));
    assert!(!same("abc", "ab"));
    assert!(same_chars(&vec!['a', 'b'], &vec!['a', 'b']));
    assert!(!same_chars(&vec!['a', 'b'], &vec!['b', 'a']));
}

#[test]
fn prefixes_are_found_at_the_start_only() {
    assert!(starts_with("./a", "./"));
    assert!(starts_with("abc", ""));
    assert!(starts_with("abc", "abc"));
    assert!(!starts_with("a./", "./"));
    assert!(!starts_with("ab", "abc"));
}

#[test]
fn suffixes_are_found_at_the_end_only() {
    assert!(ends_with("a.json", ".json"));
    assert!(ends_with("abc", ""));
    assert!(ends_with("x()", "()"));
    assert!(!ends_with(".json.js", ".json"));
    assert!(!ends_with("js", ".js"));
    assert!(!ends_with("a.cjs", ".js"));
}

#[test]
fn concatenation_keeps_both_parts() {
    assert_eq!(followed("ab", "cd"), "abcd");
    assert_eq!(followed("", "x"), "x");
    assert_eq!(followed("x", ""), "x");
}

#[test]
fn characters_are_dropped_from_the_end() {
    assert_eq!(drop_last_chars("mod()", 2), "mod");
    assert_eq!(drop_last_chars("écé", 1), "éc");
    assert_eq!(drop_last_chars("ab", 2), "");
    assert_eq!(drop_last_chars("ab", 0), "ab");
    assert_eq!(drop_last_chars("ab", 3), "ab");
}

#[test]
fn the_last_position_is_found() {
    assert_eq!(last_position("/a/b", '/'), Some(2));
    assert_eq!(last_position("/ab", '/'), Some(0));
    assert_eq!(last_position("ab", '/'), None);
    assert_eq!(last_position("é/é", '/'), Some(1));
}
