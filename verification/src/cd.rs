//! Opening folders: the listing a folder shows, the history it leaves, and
//! the way back from a folder that has gone.

use vstd::prelude::*;
use crate::history::{
    can_back, can_forward, current_of, history_wf, stepped_back, stepped_forward, string_views,
    visited, NavHistory,
};
use crate::listing::{hidden_entries, sorted_arrangement, split_listing, visible_entries};
use crate::paths::{
    file_name, file_name_of, folder_prefix, joined, law_strip_leading_removes_only_copies,
    remove_home_start, repeated, separator_of, PathStyle,
};
use crate::text::{starts_with, strip_leading};
use crate::theme::{
    icon_dir_of, nav_icon_file_of, nav_icon_path, sensitivity_look, IconLook, NavButton,
};

verus! {

/// One entry as the folder view shows it: its path and its label.
#[derive(Debug)]
pub struct ListedItem {
    pub path: String,
    pub label: String,
}

/// What the window shows after a folder is opened.
#[derive(Debug)]
pub struct FolderView {
    /// The visible entries, sorted by path.
    pub files: Vec<ListedItem>,
    /// The hidden entries, sorted by path, shown after the others.
    pub dotfiles: Vec<ListedItem>,
    /// Whether the back button is enabled.
    pub back_sensitive: bool,
    /// Whether the forward button is enabled.
    pub forward_sensitive: bool,
    /// The icon the back button shows.
    pub back_icon: String,
    /// The icon the forward button shows.
    pub forward_icon: String,
}

/// The icon a navigation button shows when it is enabled or not, under a
/// dark or a light theme.
pub open spec fn nav_icon_for(dark: bool, button: NavButton, sensitive: bool) -> Seq<char> {
    joined(
        icon_dir_of(dark),
        nav_icon_file_of(
            button,
            if sensitive {
                IconLook::Active
            } else {
                IconLook::Inactive
            },
        ),
    )
}

/// The label of the entry `item` of `folder`: the entry with every leading
/// `folder` followed by the separator `sep` removed.
pub open spec fn entry_label(folder: Seq<char>, sep: char, item: Seq<char>) -> Seq<char> {
    strip_leading(item, folder + seq![sep])
}

/// The paths of a list of listed items.
pub open spec fn item_paths(items: Seq<ListedItem>) -> Seq<Seq<char>> {
    items.map_values(|it: ListedItem| it.path@)
}

/// Every item of `items` carries the label of its path in `folder`.
pub open spec fn labelled(folder: Seq<char>, sep: char, items: Seq<ListedItem>) -> bool {
    forall|k: int|
        0 <= k < items.len() ==> (#[trigger] items[k]).label@ == entry_label(
            folder,
            sep,
            items[k].path@,
        )
}

/// The items for `paths`, in order, each with its label in `folder`.
fn label_entries(folder: &str, style: PathStyle, paths: Vec<String>) -> (items: Vec<ListedItem>)
    ensures
        item_paths(items@) == string_views(paths@),
        labelled(folder@, separator_of(style), items@),
{
    let prefix = folder_prefix(folder, style);
    let mut items: Vec<ListedItem> = Vec::new();
    let n = paths.len();
    let mut i: usize = 0;
    while i < n
        invariant
            n == paths.len(),
            i <= n,
            prefix@ == folder@ + seq![separator_of(style)],
            item_paths(items@) == string_views(paths@).take(i as int),
            labelled(folder@, separator_of(style), items@),
        decreases n - i,
    {
        let path = paths[i].clone();
        let label = remove_home_start(path.as_str(), prefix.clone());
        let ghost before = items@;
        items.push(ListedItem { path, label });
        assert(item_paths(items@) =~= item_paths(before).push(paths@[i as int]@));
        assert(string_views(paths@).take(i + 1) =~= string_views(paths@).take(i as int).push(
            paths@[i as int]@,
        ));
        i = i + 1;
    }
    assert(string_views(paths@).take(n as int) =~= string_views(paths@));
    items
}

/// Opens `folder`, whose entries (full paths) are `entries`: splits them into
/// visible and hidden ones, each sorted and labelled; records the visit in
/// `history` when `modify_history` is set; and says which navigation buttons
/// are enabled and which icon each shows under a dark or a light theme.
pub fn select_folder(
    folder: &str,
    entries: &Vec<String>,
    history: &mut NavHistory,
    modify_history: bool,
    dark: bool,
    style: PathStyle,
) -> (view: FolderView)
    requires
        modify_history || old(history)@.0.len() > 0,
    ensures
        final(history).wf(),
        final(history)@ == (if modify_history {
            visited(old(history)@, folder@)
        } else {
            old(history)@
        }),
        sorted_arrangement(
            item_paths(view.files@),
            visible_entries(folder@, separator_of(style), string_views(entries@)),
        ),
        sorted_arrangement(
            item_paths(view.dotfiles@),
            hidden_entries(folder@, separator_of(style), string_views(entries@)),
        ),
        labelled(folder@, separator_of(style), view.files@),
        labelled(folder@, separator_of(style), view.dotfiles@),
        view.back_sensitive == can_back(final(history)@),
        view.forward_sensitive == can_forward(final(history)@),
        view.back_icon@ == nav_icon_for(dark, NavButton::Back, view.back_sensitive),
        view.forward_icon@ == nav_icon_for(dark, NavButton::Forward, view.forward_sensitive),
        view.back_icon@ == joined(
            icons_folder(dark),
            if view.back_sensitive {
                "back-button-active.png"@
            } else {
                "back-button-innactive.png"@
            },
        ),
        view.forward_icon@ == joined(
            icons_folder(dark),
            if view.forward_sensitive {
                "forward-button-active.png"@
            } else {
                "forward-button-innactive.png"@
            },
        ),
{
    proof {
        use_type_invariant(&*history);
    }
    let (files, dotfiles) = split_listing(folder, style, entries);
    let files = label_entries(folder, style, files);
    let dotfiles = label_entries(folder, style, dotfiles);
    if modify_history {
        history.visit(folder);
    }
    let back_sensitive = history.can_go_back();
    let forward_sensitive = history.can_go_forward();
    let back_icon = nav_icon_path(dark, &NavButton::Back, &sensitivity_look(back_sensitive));
    let forward_icon = nav_icon_path(
        dark,
        &NavButton::Forward,
        &sensitivity_look(forward_sensitive),
    );
    FolderView { files, dotfiles, back_sensitive, forward_sensitive, back_icon, forward_icon }
}

/// The message shown when the folder `name` has gone.
pub open spec fn missing_folder_message(name: Seq<char>) -> Seq<char> {
    "The \""@ + name + "\" directory doesn't exist or has been moved!"@
}

/// An error to show the user.
#[derive(Debug)]
pub struct ErrorNotice {
    pub title: String,
    pub message: String,
}

/// The latest index before `p` at which `exists` holds, if any.
pub open spec fn latest_existing(exists: Seq<bool>, p: int) -> Option<int>
    decreases p,
{
    if p <= 0 {
        None
    } else if exists[p - 1] {
        Some(p - 1)
    } else {
        latest_existing(exists, p - 1)
    }
}

proof fn lemma_latest_existing_skips(exists: Seq<bool>, q: int, p: int)
    requires
        0 <= q <= p,
        forall|i: int| q <= i < p ==> !exists[i],
    ensures
        latest_existing(exists, p) == latest_existing(exists, q),
    decreases p - q,
{
    if q < p {
        lemma_latest_existing_skips(exists, q, p - 1);
    }
}

/// What the way back from a folder that has gone ends in.
#[derive(Debug)]
pub struct FallbackOutcome {
    /// The error shown at each step, where the gone folder has a name.
    pub error: Option<ErrorNotice>,
    /// How many times the error is shown.
    pub error_count: usize,
    /// The folder to open at the end, if one that exists was found.
    pub open: Option<String>,
}

/// The way back from `bad_path`, a folder that has gone, when `exists` says
/// which folders of `history` exist. Each step shows the error (where the
/// path has a file name) and, unless the cursor is on the first folder, drops
/// the current folder and those after it and tries the previous one. It ends
/// at the latest earlier folder that exists, with the history cut after it
/// and that folder to open; or, where none exists, at the first folder, with
/// nothing to open.
pub fn fancy_folder_fallback(
    bad_path: &str,
    history: &mut NavHistory,
    exists: &Vec<bool>,
) -> (out: FallbackOutcome)
    requires
        exists@.len() == old(history)@.0.len(),
        file_name_of(bad_path@) is Some || latest_existing(exists@, old(history)@.1 as int) is Some,
    ensures
        final(history).wf(),
        out.error is Some <==> file_name_of(bad_path@) is Some,
        out.error matches Some(e) ==> e.title@ == "This directory doesn't exist!"@
            && e.message@ == missing_folder_message(file_name_of(bad_path@)->0),
        ({
            let h = old(history)@;
            let p = h.1 as int;
            let named = file_name_of(bad_path@) is Some;
            match latest_existing(exists@, p) {
                Some(k) => {
                    &&& final(history)@ == (h.0.take(k + 1), k as nat)
                    &&& out.open matches Some(f) && f@ == h.0[k]
                    &&& out.error_count == (if named {
                        p - k
                    } else {
                        0
                    })
                },
                None => {
                    &&& final(history)@ == (if p == 0 {
                        h
                    } else {
                        (h.0.take(1), 0nat)
                    })
                    &&& out.open is None
                    &&& out.error_count == p + 1
                },
            }
        }),
{
    let error = match file_name(bad_path) {
        Some(name) => {
            let mut message = String::from_str("The \"");
            message.append(name.as_str());
            message.append("\" directory doesn't exist or has been moved!");
            let title = String::from_str("This directory doesn't exist!");
            Some(ErrorNotice { title, message })
        },
        None => None,
    };
    let named = error.is_some();
    proof {
        use_type_invariant(&*history);
    }
    let ghost h = history@;
    let ghost p = history@.1 as int;
    let mut count: usize = 0;
    let n = exists.len();
    loop
        invariant
            history.wf(),
            n == exists@.len(),
            h == old(history)@,
            error is Some <==> named,
            error matches Some(e) ==> e.title@ == "This directory doesn't exist!"@
                && e.message@ == missing_folder_message(file_name_of(bad_path@)->0),
            exists@.len() == h.0.len(),
            history_wf(h),
            p == h.1,
            named == (file_name_of(bad_path@) is Some),
            named || latest_existing(exists@, p) is Some,
            history@.1 <= p,
            history@.1 == p ==> history@ == h,
            history@.1 < p ==> history@ == (h.0.take(history@.1 + 1 as int), history@.1),
            forall|i: int| history@.1 <= i < p ==> !exists@[i],
            count == (if named {
                p - history@.1
            } else {
                0
            }),
        decreases history@.1,
    {
        let q = history.position();
        if named {
            count = count + 1;
        }
        if q == 0 {
            proof {
                lemma_latest_existing_skips(exists@, 0, p);
            }
            return FallbackOutcome { error, error_count: count, open: None };
        }
        let retry = history.fall_back();
        proof {
            if q < p {
                assert(h.0.take(q + 1).take(q as int) =~= h.0.take(q as int));
            }
        }
        let retry = match retry {
            Some(r) => r,
            None => {
                return FallbackOutcome { error, error_count: count, open: None };
            },
        };
        if exists[q - 1] {
            proof {
                lemma_latest_existing_skips(exists@, q as int, p);
            }
            return FallbackOutcome { error, error_count: count, open: Some(retry) };
        }
    }
}

/// What a click on a navigation button leads to.
#[derive(Debug)]
pub struct NavStep {
    /// The folder to show again, with the history left as it is.
    pub open: Option<String>,
    /// Whether the back button is then enabled.
    pub back_sensitive: bool,
    /// Whether the forward button is then enabled.
    pub forward_sensitive: bool,
    /// The icon the back button then shows.
    pub back_icon: String,
    /// The icon the forward button then shows.
    pub forward_icon: String,
}

/// A click on the back button (or, where `forward` is set, the forward
/// button), when `is_dir` says which folders of `history` are folders on
/// disk: the cursor moves one folder if it can; the folder it lands on is
/// shown where it is a folder; and the buttons are enabled, with their icons
/// under a dark or a light theme, as the history then allows.
pub fn nav_click(history: &mut NavHistory, forward: bool, is_dir: &Vec<bool>, dark: bool) -> (step: NavStep)
    requires
        is_dir@.len() == old(history)@.0.len(),
    ensures
        final(history).wf(),
        final(history)@ == (if forward {
            stepped_forward(old(history)@)
        } else {
            stepped_back(old(history)@)
        }),
        step.open is Some <==> (if forward {
            can_forward(old(history)@)
        } else {
            can_back(old(history)@)
        }) && is_dir@[final(history)@.1 as int],
        step.open matches Some(p) ==> current_of(final(history)@) == Some(p@),
        step.back_sensitive == can_back(final(history)@),
        step.forward_sensitive == can_forward(final(history)@),
        step.back_icon@ == nav_icon_for(dark, NavButton::Back, step.back_sensitive),
        step.forward_icon@ == nav_icon_for(dark, NavButton::Forward, step.forward_sensitive),
        step.back_icon@ == joined(
            icons_folder(dark),
            if step.back_sensitive {
                "back-button-active.png"@
            } else {
                "back-button-innactive.png"@
            },
        ),
        step.forward_icon@ == joined(
            icons_folder(dark),
            if step.forward_sensitive {
                "forward-button-active.png"@
            } else {
                "forward-button-innactive.png"@
            },
        ),
{
    let target = if forward {
        history.go_forward()
    } else {
        history.go_back()
    };
    let open = match target {
        Some(path) => {
            if is_dir[history.position()] {
                Some(path)
            } else {
                None
            }
        },
        None => None,
    };
    let back_sensitive = history.can_go_back();
    let forward_sensitive = history.can_go_forward();
    let back_icon = nav_icon_path(dark, &NavButton::Back, &sensitivity_look(back_sensitive));
    let forward_icon = nav_icon_path(
        dark,
        &NavButton::Forward,
        &sensitivity_look(forward_sensitive),
    );
    NavStep { open, back_sensitive, forward_sensitive, back_icon, forward_icon }
}

/// What a press on a listed entry does.
#[derive(Debug, Clone, Copy, PartialEq, Eq, Structural)]
pub enum PressOutcome {
    /// Open the entry as the new folder.
    OpenFolder,
    /// Show the entry's menu.
    ShowMenu,
    /// Nothing.
    Nothing,
}

/// The outcome of `n_press` presses of mouse `button` on an entry: a double
/// left click opens a folder, a single right click shows the menu.
pub fn item_press(button: u32, n_press: i32, is_dir: bool) -> (r: PressOutcome)
    ensures
        r == (if button == 1 && n_press == 2 && is_dir {
            PressOutcome::OpenFolder
        } else if button == 3 && n_press == 1 {
            PressOutcome::ShowMenu
        } else {
            PressOutcome::Nothing
        }),
{
    if button == 1 && n_press == 2 && is_dir {
        PressOutcome::OpenFolder
    } else if button == 3 && n_press == 1 {
        PressOutcome::ShowMenu
    } else {
        PressOutcome::Nothing
    }
}

/// The icon name of an entry.
pub fn entry_icon_name(is_dir: bool) -> (r: &'static str)
    ensures
        r@ == (if is_dir {
            "folder"@
        } else {
            "text-x-generic"@
        }),
{
    if is_dir {
        "folder"
    } else {
        "text-x-generic"
    }
}

/// The label of an entry made of `folder`, the separator and a name holding
/// no separator is that name, character for character; so every listed item
/// whose path has that form carries the name as its label.
pub proof fn law_label_is_entry_name(
    folder: Seq<char>,
    sep: char,
    name: Seq<char>,
    items: Seq<ListedItem>,
    k: int,
)
    requires
        forall|i: int| 0 <= i < name.len() ==> name[i] != sep,
    ensures
        entry_label(folder, sep, folder + seq![sep] + name) == name,
        labelled(folder, sep, items) && 0 <= k < items.len() && items[k].path@ == folder + seq![sep]
            + name ==> items[k].label@ == name,
{
    let p = folder + seq![sep];
    assert(!starts_with(name, p)) by {
        if starts_with(name, p) {
            assert(name.take(p.len() as int)[p.len() - 1] == p[p.len() - 1]);
        }
    }
    assert(repeated(p, 1) =~= p) by {
        assert(repeated(p, 0) =~= Seq::<char>::empty());
    }
    law_strip_leading_removes_only_copies(p, name, 1);
    assert(repeated(p, 1) + name =~= folder + seq![sep] + name);
}

/// The icon files of the navigation buttons' folder under a dark or a light
/// theme.
pub open spec fn icons_folder(dark: bool) -> Seq<char> {
    if dark {
        "/usr/share/zoe/icons/dark"@
    } else {
        "/usr/share/zoe/icons/light"@
    }
}

/// Each navigation button shows the icon of its own state: the active icon
/// when it is enabled and the inactive one when not, back and forward alike.
pub proof fn law_nav_icons_follow_sensitivity(dark: bool)
    ensures
        nav_icon_for(dark, NavButton::Back, true) == joined(
            icons_folder(dark),
            "back-button-active.png"@,
        ),
        nav_icon_for(dark, NavButton::Back, false) == joined(
            icons_folder(dark),
            "back-button-innactive.png"@,
        ),
        nav_icon_for(dark, NavButton::Forward, true) == joined(
            icons_folder(dark),
            "forward-button-active.png"@,
        ),
        nav_icon_for(dark, NavButton::Forward, false) == joined(
            icons_folder(dark),
            "forward-button-innactive.png"@,
        ),
{
}

} // verus!
