use zoe::history::NavHistory;

fn entries(h: &NavHistory) -> Vec<String> {
    (0..h.len()).map(|i| h.entry(i)).collect()
}

#[test]
fn new_history_is_empty() {
    let h = NavHistory::new();
    assert_eq!(h.len(), 0);
    assert_eq!(h.position(), 0);
    assert_eq!(h.current(), None);
    assert!(!h.can_go_back());
    assert!(!h.can_go_forward());
}

#[test]
fn visit_appends_and_moves_cursor() {
    let mut h = NavHistory::new();
    h.visit("/home");
    h.visit("/home/docs");
    assert_eq!(entries(&h), vec!["/home", "/home/docs"]);
    assert_eq!(h.position(), 1);
    assert_eq!(h.current(), Some("/home/docs".to_string()));
    assert!(h.can_go_back());
    assert!(!h.can_go_forward());
}

#[test]
fn visit_drops_forward_history() {
    let mut h = NavHistory::new();
    h.visit("/a");
    h.visit("/b");
    h.visit("/c");
    assert_eq!(h.go_back(), Some("/b".to_string()));
    assert_eq!(h.go_back(), Some("/a".to_string()));
    h.visit("/d");
    assert_eq!(entries(&h), vec!["/a", "/d"]);
    assert_eq!(h.position(), 1);
    assert!(!h.can_go_forward());
}

#[test]
fn back_at_start_does_nothing() {
    let mut h = NavHistory::new();
    assert_eq!(h.go_back(), None);
    h.visit("/a");
    assert_eq!(h.go_back(), None);
    assert_eq!(h.position(), 0);
}

#[test]
fn forward_at_end_does_nothing() {
    let mut h = NavHistory::new();
    h.visit("/a");
    assert_eq!(h.go_forward(), None);
    assert_eq!(h.position(), 0);
}

#[test]
fn back_then_forward_restores_state() {
    let mut h = NavHistory::new();
    h.visit("/a");
    h.visit("/b");
    h.visit("/c");
    let before = (entries(&h), h.position());
    assert_eq!(h.go_back(), Some("/b".to_string()));
    assert!(h.can_go_forward());
    assert_eq!(h.go_forward(), Some("/c".to_string()));
    assert_eq!((entries(&h), h.position()), before);
}

#[test]
fn forward_then_back_restores_state() {
    let mut h = NavHistory::new();
    h.visit("/a");
    h.visit("/b");
    h.go_back();
    let before = (entries(&h), h.position());
    h.go_forward();
    h.go_back();
    assert_eq!((entries(&h), h.position()), before);
}

#[test]
fn fall_back_drops_current_and_later() {
    let mut h = NavHistory::new();
    h.visit("/a");
    h.visit("/b");
    h.visit("/c");
    h.go_back();
    assert_eq!(h.fall_back(), Some("/a".to_string()));
    assert_eq!(entries(&h), vec!["/a"]);
    assert_eq!(h.position(), 0);
    assert_eq!(h.fall_back(), None);
    assert_eq!(entries(&h), vec!["/a"]);
}
