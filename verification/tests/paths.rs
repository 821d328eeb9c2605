use std::path::Path;
use zoe::paths::{file_name, join_path, remove_home_start};

#[test]
fn remove_home_start_strips_folder_prefix() {
    assert_eq!(remove_home_start("/home/zoe/docs", "/home/zoe/".to_string()), "docs");
}

#[test]
fn remove_home_start_strips_every_repetition() {
    assert_eq!(remove_home_start("ababx", "ab".to_string()), "x");
    assert_eq!(remove_home_start("ababx", "ab".to_string()), "ababx".trim_start_matches("ab"));
}

#[test]
fn remove_home_start_keeps_unmatched_item() {
    assert_eq!(remove_home_start("/etc/passwd", "/home/".to_string()), "/etc/passwd");
    assert_eq!(remove_home_start("/etc", "//".to_string()), "/etc");
}

#[test]
fn remove_home_start_with_empty_home_changes_nothing() {
    assert_eq!(remove_home_start("abc", String::new()), "abc");
    assert_eq!(remove_home_start("", String::new()), "");
}

#[test]
fn remove_home_start_handles_non_ascii() {
    assert_eq!(remove_home_start("/tmp/é/ü.txt", "/tmp/é/".to_string()), "ü.txt");
}

#[test]
fn remove_home_start_is_idempotent() {
    let once = remove_home_start("xyxyz", "xy".to_string());
    assert_eq!(remove_home_start(&once, "xy".to_string()), once);
}

fn std_join(a: &str, b: &str) -> String {
    Path::new(a).join(b).to_string_lossy().to_string()
}

#[test]
fn join_path_puts_one_separator() {
    assert_eq!(join_path("/a", "b"), "/a/b");
    assert_eq!(join_path("/a/", "b"), "/a/b");
    assert_eq!(join_path("", "b"), "b");
    assert_eq!(join_path("/a", ""), "/a/");
}

#[test]
fn join_path_absolute_name_replaces_base() {
    assert_eq!(join_path("/a", "/b/c"), "/b/c");
}

#[test]
fn join_path_agrees_with_std() {
    for (a, b) in [
        ("/a", "b"),
        ("/a/", "b"),
        ("", "b"),
        ("/a", ""),
        ("/a", "/b"),
        ("rel", "x/y"),
        ("/", "etc"),
        ("/home/zoe", ".config/zoe/style.css"),
    ] {
        assert_eq!(join_path(a, b), std_join(a, b), "joining {:?} and {:?}", a, b);
    }
}

fn std_file_name(p: &str) -> Option<String> {
    Path::new(p).file_name().map(|n| n.to_string_lossy().to_string())
}

#[test]
fn file_name_examples() {
    assert_eq!(file_name("/home/zoe/docs"), Some("docs".to_string()));
    assert_eq!(file_name("/home/zoe/docs/"), Some("docs".to_string()));
    assert_eq!(file_name("/"), None);
    assert_eq!(file_name(""), None);
    assert_eq!(file_name("a/.."), None);
    assert_eq!(file_name("a/."), Some("a".to_string()));
}

#[test]
fn file_name_agrees_with_std() {
    for p in [
        "/home/zoe/docs",
        "/home/zoe/docs/",
        "/",
        "//",
        "",
        ".",
        "..",
        "./",
        "./.",
        "a/.",
        "a/./",
        "a/..",
        "../a",
        "...",
        "a//b//",
        "/a/./b/.",
        ".hidden",
        "/tmp/é.txt",
    ] {
        assert_eq!(file_name(p), std_file_name(p), "file name of {:?}", p);
    }
}

#[test]
fn file_name_of_joined_is_the_name() {
    for base in ["", "/", "/a", "/a/", "rel/dir"] {
        assert_eq!(file_name(&join_path(base, "notes.txt")), Some("notes.txt".to_string()));
    }
}
