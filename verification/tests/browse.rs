use zoe::cd::{entry_icon_name, fancy_folder_fallback, item_press, nav_click, select_folder, PressOutcome};
use zoe::paths::PathStyle;
use zoe::history::NavHistory;
use zoe::listing::split_listing;

fn paths(items: &[zoe::cd::ListedItem]) -> Vec<String> {
    items.iter().map(|i| i.path.clone()).collect()
}

fn labels(items: &[zoe::cd::ListedItem]) -> Vec<String> {
    items.iter().map(|i| i.label.clone()).collect()
}

fn strings(v: &[&str]) -> Vec<String> {
    v.iter().map(|s| s.to_string()).collect()
}

#[test]
fn split_listing_separates_and_sorts() {
    let entries = strings(&["/tmp/x/b", "/tmp/x/.h", "/tmp/x/a", "/tmp/x/.a", "/tmp/x/B"]);
    let (files, dots) = split_listing("/tmp/x", PathStyle::Unix, &entries);
    assert_eq!(files, strings(&["/tmp/x/B", "/tmp/x/a", "/tmp/x/b"]));
    assert_eq!(dots, strings(&["/tmp/x/.a", "/tmp/x/.h"]));
}

#[test]
fn split_listing_matches_std_sort() {
    let entries = strings(&[
        "/d/zeta", "/d/.cfg", "/d/Alpha", "/d/é", "/d/e", "/d/alpha", "/d/.a", "/d/a.b", "/d/a", "/d/a",
    ]);
    let (files, dots) = split_listing("/d", PathStyle::Unix, &entries);
    let mut want_files: Vec<String> = entries.iter().filter(|p| !p.starts_with("/d/.")).cloned().collect();
    let mut want_dots: Vec<String> = entries.iter().filter(|p| p.starts_with("/d/.")).cloned().collect();
    want_files.sort();
    want_dots.sort();
    assert_eq!(files, want_files);
    assert_eq!(dots, want_dots);
    assert_eq!(files.len() + dots.len(), entries.len());
}

#[test]
fn split_listing_of_empty_folder() {
    let (files, dots) = split_listing("/empty", PathStyle::Unix, &Vec::new());
    assert!(files.is_empty());
    assert!(dots.is_empty());
}

#[test]
fn select_folder_lists_labels_and_records_visit() {
    let mut h = NavHistory::new();
    let entries = strings(&["/home/zoe/notes", "/home/zoe/.bashrc", "/home/zoe/Music"]);
    let view = select_folder("/home/zoe", &entries, &mut h, true, false, PathStyle::Unix);
    assert_eq!(paths(&view.files), strings(&["/home/zoe/Music", "/home/zoe/notes"]));
    assert_eq!(labels(&view.files), strings(&["Music", "notes"]));
    assert_eq!(labels(&view.dotfiles), strings(&[".bashrc"]));
    assert_eq!(h.current(), Some("/home/zoe".to_string()));
    assert!(!view.back_sensitive);
    assert!(!view.forward_sensitive);
}

#[test]
fn select_folder_buttons_follow_history() {
    let mut h = NavHistory::new();
    select_folder("/a", &Vec::new(), &mut h, true, false, PathStyle::Unix);
    let view = select_folder("/a/b", &Vec::new(), &mut h, true, false, PathStyle::Unix);
    assert!(view.back_sensitive);
    assert!(!view.forward_sensitive);
    h.go_back();
    let view = select_folder("/a", &Vec::new(), &mut h, false, false, PathStyle::Unix);
    assert_eq!(h.len(), 2);
    assert!(!view.back_sensitive);
    assert!(view.forward_sensitive);
}

#[test]
fn select_folder_at_root_keeps_leading_slash_in_labels() {
    let mut h = NavHistory::new();
    let view = select_folder("/", &strings(&["/etc"]), &mut h, true, false, PathStyle::Unix);
    assert_eq!(labels(&view.files), strings(&["/etc"]));
}

#[test]
fn select_folder_icons_follow_buttons() {
    let mut h = NavHistory::new();
    select_folder("/a", &Vec::new(), &mut h, true, true, PathStyle::Unix);
    let view = select_folder("/a/b", &Vec::new(), &mut h, true, true, PathStyle::Unix);
    assert_eq!(view.back_icon, "/usr/share/zoe/icons/dark/back-button-active.png");
    assert_eq!(view.forward_icon, "/usr/share/zoe/icons/dark/forward-button-innactive.png");
    let view = select_folder("/a/c", &Vec::new(), &mut h, true, false, PathStyle::Unix);
    assert_eq!(view.back_icon, "/usr/share/zoe/icons/light/back-button-active.png");
}

fn history_of(paths: &[&str], pos: usize) -> NavHistory {
    let mut h = NavHistory::new();
    for p in paths {
        h.visit(p);
    }
    while h.position() > pos {
        h.go_back();
    }
    h
}

fn entries_of(h: &NavHistory) -> Vec<String> {
    (0..h.len()).map(|i| h.entry(i)).collect()
}

#[test]
fn fancy_folder_fallback_reports_and_steps_back() {
    let mut h = history_of(&["/a", "/a/b", "/a/b/gone"], 2);
    let out = fancy_folder_fallback("/a/b/gone", &mut h, &vec![true, true, false]);
    let err = out.error.expect("an error is shown");
    assert_eq!(err.title, "This directory doesn't exist!");
    assert_eq!(err.message, "The \"gone\" directory doesn't exist or has been moved!");
    assert_eq!(out.error_count, 1);
    assert_eq!(out.open, Some("/a/b".to_string()));
    assert_eq!(entries_of(&h), strings(&["/a", "/a/b"]));
    assert_eq!(h.position(), 1);
}

#[test]
fn fancy_folder_fallback_skips_gone_folders() {
    let mut h = history_of(&["/a", "/b", "/c", "/d", "/e"], 3);
    let out = fancy_folder_fallback("/d", &mut h, &vec![true, false, false, false, true]);
    assert_eq!(out.error_count, 3);
    assert_eq!(out.open, Some("/a".to_string()));
    assert_eq!(entries_of(&h), strings(&["/a"]));
    assert_eq!(h.position(), 0);
}

#[test]
fn fancy_folder_fallback_without_any_existing_folder() {
    let mut h = history_of(&["/a", "/b", "/c"], 2);
    let out = fancy_folder_fallback("/c", &mut h, &vec![false, false, false]);
    assert_eq!(out.error_count, 3);
    assert_eq!(out.open, None);
    assert_eq!(entries_of(&h), strings(&["/a"]));
    assert_eq!(h.position(), 0);
}

#[test]
fn fancy_folder_fallback_stops_at_first_folder() {
    let mut h = history_of(&["/gone", "/x"], 0);
    let out = fancy_folder_fallback("/gone", &mut h, &vec![false, true]);
    assert!(out.error.is_some());
    assert_eq!(out.error_count, 1);
    assert_eq!(out.open, None);
    assert_eq!(entries_of(&h), strings(&["/gone", "/x"]));
    assert_eq!(h.position(), 0);
}

#[test]
fn fancy_folder_fallback_without_name_shows_no_error() {
    let mut h = history_of(&["/a", "/"], 1);
    let out = fancy_folder_fallback("/", &mut h, &vec![true, false]);
    assert!(out.error.is_none());
    assert_eq!(out.error_count, 0);
    assert_eq!(out.open, Some("/a".to_string()));
}

#[test]
fn item_press_outcomes() {
    assert_eq!(item_press(1, 2, true), PressOutcome::OpenFolder);
    assert_eq!(item_press(1, 2, false), PressOutcome::Nothing);
    assert_eq!(item_press(1, 1, true), PressOutcome::Nothing);
    assert_eq!(item_press(3, 1, false), PressOutcome::ShowMenu);
    assert_eq!(item_press(3, 2, true), PressOutcome::Nothing);
    assert_eq!(item_press(2, 2, true), PressOutcome::Nothing);
}

#[test]
fn entry_icon_names() {
    assert_eq!(entry_icon_name(true), "folder");
    assert_eq!(entry_icon_name(false), "text-x-generic");
}

#[test]
fn windows_listing_uses_backslash() {
    let entries = strings(&["C:\\Users\\z\\b", "C:\\Users\\z\\.git", "C:\\Users\\z\\a"]);
    let (files, dots) = split_listing("C:\\Users\\z", PathStyle::Windows, &entries);
    assert_eq!(files, strings(&["C:\\Users\\z\\a", "C:\\Users\\z\\b"]));
    assert_eq!(dots, strings(&["C:\\Users\\z\\.git"]));
    let mut h = NavHistory::new();
    let view = select_folder("C:\\Users\\z", &entries, &mut h, true, false, PathStyle::Windows);
    assert_eq!(labels(&view.files), strings(&["a", "b"]));
    assert_eq!(labels(&view.dotfiles), strings(&[".git"]));
}

#[test]
fn nav_click_moves_and_reloads_folders() {
    let mut h = history_of(&["/a", "/b", "/c"], 2);
    let step = nav_click(&mut h, false, &vec![true, true, true], false);
    assert_eq!(step.open, Some("/b".to_string()));
    assert_eq!(h.position(), 1);
    assert!(step.back_sensitive);
    assert!(step.forward_sensitive);
    assert_eq!(step.back_icon, "/usr/share/zoe/icons/light/back-button-active.png");
    let step = nav_click(&mut h, false, &vec![false, true, true], true);
    assert_eq!(step.open, None);
    assert_eq!(h.position(), 0);
    assert!(!step.back_sensitive);
    assert_eq!(step.back_icon, "/usr/share/zoe/icons/dark/back-button-innactive.png");
    let step = nav_click(&mut h, false, &vec![true, true, true], true);
    assert_eq!(step.open, None);
    assert_eq!(h.position(), 0);
    let step = nav_click(&mut h, true, &vec![true, true, true], true);
    assert_eq!(step.open, Some("/b".to_string()));
    assert_eq!(h.position(), 1);
    assert_eq!(entries_of(&h), strings(&["/a", "/b", "/c"]));
}
