use jxl_converter::paths::{extension, file_name, join, parent, starts_with, strip_prefix, with_extension};
use jxl_converter::text::{decimal, join_spaced};

#[test]
fn file_name_is_last_component() {
    assert_eq!(file_name("/a/b/x.png"), "x.png");
    assert_eq!(file_name("x.png"), "x.png");
    assert_eq!(file_name("/"), "");
}

#[test]
fn parent_drops_last_component() {
    assert_eq!(parent("/a/b/x.png"), Some("/a/b".to_string()));
    assert_eq!(parent("/a"), Some("/".to_string()));
    assert_eq!(parent("a"), Some(String::new()));
    assert_eq!(parent("/"), None);
    assert_eq!(parent(""), None);
}

#[test]
fn starts_with_compares_whole_components() {
    assert!(starts_with("/a/b", "/a"));
    assert!(starts_with("/a", "/a"));
    assert!(starts_with("/a", "/"));
    assert!(starts_with("/a", ""));
    assert!(!starts_with("/ab", "/a"));
    assert!(!starts_with("/a", "/a/b"));
}

#[test]
fn strip_prefix_leaves_relative_rest() {
    assert_eq!(strip_prefix("/a/b/x.png", "/a"), Some("b/x.png".to_string()));
    assert_eq!(strip_prefix("/a/b", "/"), Some("a/b".to_string()));
    assert_eq!(strip_prefix("/a", "/a"), Some(String::new()));
    assert_eq!(strip_prefix("/ab/x", "/a"), None);
}

#[test]
fn join_places_under_directory() {
    assert_eq!(join("/out", "b/x.png"), "/out/b/x.png");
    assert_eq!(join("/out/", "x.png"), "/out/x.png");
    assert_eq!(join("", "x.png"), "x.png");
    assert_eq!(join("/out", "/abs/x.png"), "/abs/x.png");
}

#[test]
fn with_extension_replaces_last_extension() {
    assert_eq!(with_extension("/out/x.png", "jxl"), "/out/x.jxl");
    assert_eq!(with_extension("/out/archive.tar.gz", "jxl"), "/out/archive.tar.jxl");
    assert_eq!(with_extension("/out/noext", "jxl"), "/out/noext.jxl");
    assert_eq!(with_extension("/out/.hidden", "jxl"), "/out/.hidden.jxl");
    assert_eq!(with_extension("/a.b/x", "png"), "/a.b/x.png");
}

#[test]
fn extension_of_last_component() {
    assert_eq!(extension("/a/shot.JPEG"), Some("JPEG".to_string()));
    assert_eq!(extension("/a.d/file"), None);
    assert_eq!(extension("/a/.bashrc"), None);
    assert_eq!(extension("/a/x."), Some(String::new()));
}

#[test]
fn decimal_writes_digits() {
    assert_eq!(decimal(0), "0");
    assert_eq!(decimal(7), "7");
    assert_eq!(decimal(90), "90");
    assert_eq!(decimal(100), "100");
    assert_eq!(decimal(18446744073709551615), "18446744073709551615");
}

#[test]
fn join_spaced_separates_words() {
    assert_eq!(join_spaced(&vec![]), "");
    assert_eq!(join_spaced(&vec!["a".to_string()]), "a");
    assert_eq!(join_spaced(&vec!["cjxl".to_string(), "-e".to_string(), "7".to_string()]), "cjxl -e 7");
}
