use zoe::history::NavHistory;
use zoe::menus::{
    delete_dialog, delete_dialog_anchor, delete_prompt, rename_dialog, rename_plan, empty_space_pop, item_choice, opens_space_menu,
    paste_remembered, paste_target, pop_up, rename_dialog_anchor, rename_target, rename_title,
    ItemAction, ItemEffect, PasteCopy, SpaceAction, SpaceEffect,
};

#[test]
fn pop_up_lists_actions_and_anchor() {
    let menu = pop_up(100, 40, "/a/f");
    let labels: Vec<&str> = menu.choices.iter().map(|c| c.action.label()).collect();
    assert_eq!(labels, vec!["Open", "Cut", "Copy", "Move", "Rename", "Delete"]);
    assert_eq!((menu.anchor_x, menu.anchor_y), (135, 30));
}

#[test]
fn pop_up_choices_have_their_effects() {
    let menu = pop_up(0, 0, "/a");
    let open = &menu.choices[0];
    assert!(matches!(open.resolve(true, true), ItemEffect::OpenFolder(p) if p == "/a"));
    assert!(matches!(open.resolve(false, true), ItemEffect::Nothing));
    assert!(matches!(open.resolve(true, false), ItemEffect::Nothing));
    for k in [1, 3] {
        assert!(matches!(menu.choices[k].resolve(true, true), ItemEffect::Nothing));
    }
    let copy = &menu.choices[2];
    assert!(matches!(copy.resolve(false, true), ItemEffect::Remember(p) if p == "/a"));
    assert!(matches!(copy.resolve(false, false), ItemEffect::Nothing));
    assert!(matches!(menu.choices[4].resolve(false, false), ItemEffect::AskRename));
    assert!(matches!(menu.choices[5].resolve(false, false), ItemEffect::ConfirmDelete));
}

#[test]
fn item_choice_of_each_action() {
    assert!(matches!(item_choice(ItemAction::Delete, "/a").resolve(false, false), ItemEffect::ConfirmDelete));
    assert!(matches!(item_choice(ItemAction::Cut, "/a").resolve(false, true), ItemEffect::Nothing));
}

#[test]
fn empty_space_actions_effects() {
    let menu = empty_space_pop(0, 0, "/tmp/f");
    let effects: Vec<SpaceEffect> = menu.actions.iter().map(|(_, _, e)| *e).collect();
    assert_eq!(
        effects,
        vec![
            SpaceEffect::Nothing,
            SpaceEffect::Nothing,
            SpaceEffect::PasteRemembered,
            SpaceEffect::Nothing,
            SpaceEffect::Nothing,
        ]
    );
}

#[test]
fn paste_remembered_plans() {
    let mut h = NavHistory::new();
    h.visit("/home/zoe");
    let plan = paste_remembered(&h, "/tmp/a.txt", true, false, true);
    assert!(matches!(plan.copy, PasteCopy::File { ref source, ref target, replace: true }
        if source == "/tmp/a.txt" && target == "/home/zoe/a.txt"));
    assert_eq!(plan.reload, Some("/home/zoe".to_string()));
    let plan = paste_remembered(&h, "/tmp/dir", true, true, false);
    assert!(matches!(plan.copy, PasteCopy::Folder { ref source, ref into }
        if source == "/tmp/dir" && into == "/home/zoe"));
    let plan = paste_remembered(&h, "/tmp/gone", false, false, false);
    assert!(matches!(plan.copy, PasteCopy::Nothing));
    assert_eq!(plan.reload, None);
    let plan = paste_remembered(&h, "/", true, true, false);
    assert!(matches!(plan.copy, PasteCopy::Nothing));
    assert_eq!(plan.reload, None);
    let empty = NavHistory::new();
    let plan = paste_remembered(&empty, "", false, false, false);
    assert!(matches!(plan.copy, PasteCopy::Nothing));
}

#[test]
fn empty_space_pop_disables_paste_without_memory() {
    let menu = empty_space_pop(10, 20, "");
    let got: Vec<(&str, bool)> = menu.actions.iter().map(|(a, e, _)| (a.label(), *e)).collect();
    assert_eq!(
        got,
        vec![
            ("New Folder...", true),
            ("Open With...", true),
            ("Paste", false),
            ("Select All", true),
            ("Properties", true),
        ]
    );
    assert_eq!((menu.anchor_x, menu.anchor_y), (65, 20));
    let menu = empty_space_pop(10, 20, "/tmp/f");
    assert_eq!(menu.actions[2], (SpaceAction::Paste, true, SpaceEffect::PasteRemembered));
}

#[test]
fn space_menu_needs_empty_space_left_of_limit() {
    assert!(opens_space_menu(false, 880));
    assert!(!opens_space_menu(false, 881));
    assert!(!opens_space_menu(true, 10));
}

#[test]
fn paste_target_joins_file_name() {
    assert_eq!(paste_target("/home/zoe", "/tmp/a.txt"), Some("/home/zoe/a.txt".to_string()));
    assert_eq!(paste_target("/home/zoe/", "/tmp/dir/"), Some("/home/zoe/dir".to_string()));
    assert_eq!(paste_target("/home/zoe", "/"), None);
}

#[test]
fn rename_dialog_texts_and_target() {
    assert_eq!(rename_title(true), "Rename Folder");
    assert_eq!(rename_title(false), "Rename File");
    let mut h = NavHistory::new();
    h.visit("/home/zoe");
    assert_eq!(rename_target(&h, "new.txt"), "/home/zoe/new.txt");
    assert_eq!(rename_dialog_anchor(81, 30), (40, 30));
}

#[test]
fn delete_dialog_texts_and_anchor() {
    assert_eq!(delete_prompt("notes"), "Permanently Delete \"notes\"?");
    assert_eq!(delete_dialog_anchor(600, 600), (300, 250));
    assert_eq!(delete_dialog_anchor(-5, -5), (-2, -52));
}

#[test]
fn rename_dialog_and_plan() {
    let d = rename_dialog(false, 81, 30);
    assert_eq!((d.title, d.button_label, d.anchor_x, d.anchor_y), ("Rename File", "Rename", 40, 30));
    let mut h = NavHistory::new();
    h.visit("/home/zoe");
    let plan = rename_plan(&h, "/home/zoe/old.txt", "new.txt", true).expect("a rename");
    assert_eq!(plan.from, "/home/zoe/old.txt");
    assert_eq!(plan.to, "/home/zoe/new.txt");
    assert_eq!(plan.reload, "/home/zoe");
    assert!(rename_plan(&h, "/home/zoe/old.txt", "new.txt", false).is_none());
}

#[test]
fn delete_dialog_texts() {
    let d = delete_dialog("notes", 600, 600);
    assert_eq!(d.title, "Permanently Delete \"notes\"?");
    assert_eq!(d.warning, "Permanently deleted items can't be restored");
    assert_eq!((d.cancel_label, d.delete_label), ("Cancel", "Delete"));
    assert_eq!((d.anchor_x, d.anchor_y), (300, 250));
}
