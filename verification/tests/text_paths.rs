use rbuild::paths::join_path;
use rbuild::text::{chars_of, decimal_string, same_text, string_of};

#[test]
fn decimal_of_zero_and_signs() {
    assert_eq!(decimal_string(0), "0");
    assert_eq!(decimal_string(7), "7");
    assert_eq!(decimal_string(1234567890), "1234567890");
    assert_eq!(decimal_string(-42), "-42");
    assert_eq!(decimal_string(i64::MIN), i64::MIN.to_string());
    assert_eq!(decimal_string(i64::MAX), i64::MAX.to_string());
}

#[test]
fn chars_round_trip() {
    let v = chars_of("aé/b");
    assert_eq!(v, vec!['a', 'é', '/', 'b']);
    assert_eq!(string_of(&v, 1, 3), "é/");
}

#[test]
fn text_equality() {
    assert!(same_text("windows", "windows"));
    assert!(!same_text("windows", "window"));
    assert!(!same_text("linux", "windows"));
}

#[test]
fn join_adds_one_separator() {
    assert_eq!(join_path("/home/u", "proj"), "/home/u/proj");
    assert_eq!(join_path("/home/u/", "proj"), "/home/u/proj");
    assert_eq!(join_path("", "proj"), "proj");
    assert_eq!(join_path("a", ""), "a/");
}

#[test]
fn join_absolute_part_replaces() {
    assert_eq!(join_path("/home/u", "/etc/x"), "/etc/x");
}

#[test]
fn join_agrees_with_pathbuf() {
    for (base, part) in [("a/b", "c"), ("a/b/", "c"), ("", "c"), ("a", "/c"), ("/", "c"), ("a", "")] {
        let mut p = std::path::PathBuf::from(base);
        p.push(part);
        assert_eq!(join_path(base, part), p.to_str().unwrap());
    }
}
