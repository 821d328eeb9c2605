//! The context menus and dialogs of the folder view.

use vstd::prelude::*;
use crate::history::{current_of, NavHistory};
use crate::paths::{file_name, file_name_of, join_path, joined};

verus! {

/// The entries of an item's context menu.
#[derive(Debug, Clone, Copy, PartialEq, Eq, Structural)]
pub enum ItemAction {
    Open,
    Cut,
    Copy,
    Move,
    Rename,
    Delete,
}

/// The text an item action shows.
pub open spec fn item_action_text(a: ItemAction) -> Seq<char> {
    match a {
        ItemAction::Open => "Open"@,
        ItemAction::Cut => "Cut"@,
        ItemAction::Copy => "Copy"@,
        ItemAction::Move => "Move"@,
        ItemAction::Rename => "Rename"@,
        ItemAction::Delete => "Delete"@,
    }
}

impl ItemAction {
    /// The text the action shows.
    pub fn label(&self) -> (r: &'static str)
        ensures
            r@ == item_action_text(*self),
    {
        match self {
            ItemAction::Open => "Open",
            ItemAction::Cut => "Cut",
            ItemAction::Copy => "Copy",
            ItemAction::Move => "Move",
            ItemAction::Rename => "Rename",
            ItemAction::Delete => "Delete",
        }
    }
}

/// What choosing an item action leads to.
#[derive(Debug)]
pub enum ItemEffect {
    /// Ask whether to delete the item.
    ConfirmDelete,
    /// Ask for the item's new name.
    AskRename,
    /// Open the given folder, recording it in the history.
    OpenFolder(String),
    /// Remember the given path for a later paste.
    Remember(String),
    /// Nothing.
    Nothing,
}

/// `b` is the same effect as `a`, on the same path.
pub open spec fn same_effect(a: ItemEffect, b: ItemEffect) -> bool {
    match a {
        ItemEffect::ConfirmDelete => b is ConfirmDelete,
        ItemEffect::AskRename => b is AskRename,
        ItemEffect::OpenFolder(p) => b matches ItemEffect::OpenFolder(q) && q@ == p@,
        ItemEffect::Remember(p) => b matches ItemEffect::Remember(q) && q@ == p@,
        ItemEffect::Nothing => b is Nothing,
    }
}

/// An entry of an item's menu: its action, and the effect choosing it has
/// when the item is a folder (where `needs_folder`) and exists (where
/// `needs_existing`); otherwise choosing it does nothing.
#[derive(Debug)]
pub struct ItemChoice {
    pub action: ItemAction,
    pub effect: ItemEffect,
    pub needs_folder: bool,
    pub needs_existing: bool,
}

/// `c` is the menu entry of `action` for the item at `item`: Open opens an
/// existing folder, Copy remembers an existing item, Delete and Rename ask
/// through their dialogs, Cut and Move do nothing.
pub open spec fn is_item_choice(c: ItemChoice, action: ItemAction, item: Seq<char>) -> bool {
    &&& c.action == action
    &&& match action {
        ItemAction::Open => c.effect matches ItemEffect::OpenFolder(p) && p@ == item
            && c.needs_folder && c.needs_existing,
        ItemAction::Copy => c.effect matches ItemEffect::Remember(p) && p@ == item
            && !c.needs_folder && c.needs_existing,
        ItemAction::Delete => c.effect is ConfirmDelete && !c.needs_folder && !c.needs_existing,
        ItemAction::Rename => c.effect is AskRename && !c.needs_folder && !c.needs_existing,
        ItemAction::Cut | ItemAction::Move => c.effect is Nothing && !c.needs_folder
            && !c.needs_existing,
    }
}

/// The menu entry of `action` for the item at `item`.
pub fn item_choice(action: ItemAction, item: &str) -> (c: ItemChoice)
    ensures
        is_item_choice(c, action, item@),
{
    match action {
        ItemAction::Open => ItemChoice {
            action,
            effect: ItemEffect::OpenFolder(item.to_owned()),
            needs_folder: true,
            needs_existing: true,
        },
        ItemAction::Copy => ItemChoice {
            action,
            effect: ItemEffect::Remember(item.to_owned()),
            needs_folder: false,
            needs_existing: true,
        },
        ItemAction::Delete => ItemChoice {
            action,
            effect: ItemEffect::ConfirmDelete,
            needs_folder: false,
            needs_existing: false,
        },
        ItemAction::Rename => ItemChoice {
            action,
            effect: ItemEffect::AskRename,
            needs_folder: false,
            needs_existing: false,
        },
        _ => ItemChoice {
            action,
            effect: ItemEffect::Nothing,
            needs_folder: false,
            needs_existing: false,
        },
    }
}

impl ItemChoice {
    /// What choosing this entry does, given whether the item is a folder and
    /// whether it exists at the time of the click.
    pub fn resolve(&self, is_dir: bool, exists: bool) -> (r: ItemEffect)
        ensures
            if (!self.needs_folder || is_dir) && (!self.needs_existing || exists) {
                same_effect(self.effect, r)
            } else {
                r is Nothing
            },
    {
        if (self.needs_folder && !is_dir) || (self.needs_existing && !exists) {
            return ItemEffect::Nothing;
        }
        match &self.effect {
            ItemEffect::ConfirmDelete => ItemEffect::ConfirmDelete,
            ItemEffect::AskRename => ItemEffect::AskRename,
            ItemEffect::OpenFolder(p) => ItemEffect::OpenFolder(p.clone()),
            ItemEffect::Remember(p) => ItemEffect::Remember(p.clone()),
            ItemEffect::Nothing => ItemEffect::Nothing,
        }
    }
}

/// An item's context menu: its entries, top to bottom, and the point it
/// hangs from.
#[derive(Debug)]
pub struct ItemMenu {
    pub choices: Vec<ItemChoice>,
    pub anchor_x: i32,
    pub anchor_y: i32,
}

/// The context menu of the item at `item`, right-clicked at (`x`, `y`)
/// within it: Open, Cut, Copy, Move, Rename and Delete, each with what
/// choosing it does, hanging 35 to the right of and 10 above the click.
pub fn pop_up(x: i32, y: i32, item: &str) -> (menu: ItemMenu)
    requires
        x + 35 <= i32::MAX,
        y - 10 >= i32::MIN,
    ensures
        menu.choices.len() == 6,
        is_item_choice(menu.choices[0], ItemAction::Open, item@),
        is_item_choice(menu.choices[1], ItemAction::Cut, item@),
        is_item_choice(menu.choices[2], ItemAction::Copy, item@),
        is_item_choice(menu.choices[3], ItemAction::Move, item@),
        is_item_choice(menu.choices[4], ItemAction::Rename, item@),
        is_item_choice(menu.choices[5], ItemAction::Delete, item@),
        menu.anchor_x == x + 35,
        menu.anchor_y == y - 10,
{
    let mut choices: Vec<ItemChoice> = Vec::new();
    choices.push(item_choice(ItemAction::Open, item));
    choices.push(item_choice(ItemAction::Cut, item));
    choices.push(item_choice(ItemAction::Copy, item));
    choices.push(item_choice(ItemAction::Move, item));
    choices.push(item_choice(ItemAction::Rename, item));
    choices.push(item_choice(ItemAction::Delete, item));
    ItemMenu { choices, anchor_x: x + 35, anchor_y: y - 10 }
}

/// The entries of the menu of the empty space of the folder view.
#[derive(Debug, Clone, Copy, PartialEq, Eq, Structural)]
pub enum SpaceAction {
    NewFolder,
    OpenWith,
    Paste,
    SelectAll,
    Properties,
}

/// The text a space action shows.
pub open spec fn space_action_text(a: SpaceAction) -> Seq<char> {
    match a {
        SpaceAction::NewFolder => "New Folder..."@,
        SpaceAction::OpenWith => "Open With..."@,
        SpaceAction::Paste => "Paste"@,
        SpaceAction::SelectAll => "Select All"@,
        SpaceAction::Properties => "Properties"@,
    }
}

impl SpaceAction {
    /// The text the action shows.
    pub fn label(&self) -> (r: &'static str)
        ensures
            r@ == space_action_text(*self),
    {
        match self {
            SpaceAction::NewFolder => "New Folder...",
            SpaceAction::OpenWith => "Open With...",
            SpaceAction::Paste => "Paste",
            SpaceAction::SelectAll => "Select All",
            SpaceAction::Properties => "Properties",
        }
    }
}

/// What choosing an entry of the empty-space menu does.
#[derive(Debug, Clone, Copy, PartialEq, Eq, Structural)]
pub enum SpaceEffect {
    /// Nothing.
    Nothing,
    /// Paste the remembered path into the current folder, as
    /// [`paste_remembered`] plans it at the time of the click.
    PasteRemembered,
}

/// The menu of the empty space: its actions, each with whether it is
/// enabled and what choosing it does, and the point it hangs from.
#[derive(Debug)]
pub struct SpaceMenu {
    pub actions: Vec<(SpaceAction, bool, SpaceEffect)>,
    pub anchor_x: i32,
    pub anchor_y: i32,
}

/// The menu of the empty space right-clicked at (`x`, `y`), when
/// `copy_memory` is the remembered path (empty where none is): the five
/// actions, of which Paste is enabled only with a remembered path and is the
/// only one that does anything, hanging 55 to the right of the click.
pub fn empty_space_pop(x: i32, y: i32, copy_memory: &str) -> (menu: SpaceMenu)
    requires
        x + 55 <= i32::MAX,
    ensures
        menu.actions@ == seq![
            (SpaceAction::NewFolder, true, SpaceEffect::Nothing),
            (SpaceAction::OpenWith, true, SpaceEffect::Nothing),
            (SpaceAction::Paste, copy_memory@.len() > 0, SpaceEffect::PasteRemembered),
            (SpaceAction::SelectAll, true, SpaceEffect::Nothing),
            (SpaceAction::Properties, true, SpaceEffect::Nothing),
        ],
        menu.anchor_x == x + 55,
        menu.anchor_y == y,
{
    let can_paste = !copy_memory.is_empty();
    let actions = vec![
        (SpaceAction::NewFolder, true, SpaceEffect::Nothing),
        (SpaceAction::OpenWith, true, SpaceEffect::Nothing),
        (SpaceAction::Paste, can_paste, SpaceEffect::PasteRemembered),
        (SpaceAction::SelectAll, true, SpaceEffect::Nothing),
        (SpaceAction::Properties, true, SpaceEffect::Nothing),
    ];
    SpaceMenu { actions, anchor_x: x + 55, anchor_y: y }
}

/// The copying a paste does.
#[derive(Debug)]
pub enum PasteCopy {
    /// Nothing is copied.
    Nothing,
    /// The folder `source`, with everything in it, is copied into `into`.
    Folder { source: String, into: String },
    /// The file `source` is copied to `target`; the file already at `target`
    /// is removed first where `replace` is set.
    File { source: String, target: String, replace: bool },
}

/// What a paste does: the copying, then the folder shown again (if any).
#[derive(Debug)]
pub struct PastePlan {
    pub copy: PasteCopy,
    pub reload: Option<String>,
}

/// The paste of the remembered path `copy_memory` into the current folder of
/// `history`, given whether that path exists and is a folder and whether
/// something already exists where a file would be pasted: nothing where the
/// path is gone or has no file name; else a folder is copied into the current
/// folder, or a file to [`paste_target`] (replacing what is there), and the
/// current folder is shown again.
pub fn paste_remembered(
    history: &NavHistory,
    copy_memory: &str,
    source_exists: bool,
    source_is_dir: bool,
    target_exists: bool,
) -> (plan: PastePlan)
    requires
        source_exists ==> history@.0.len() > 0,
    ensures
        !source_exists || file_name_of(copy_memory@) is None ==> plan.copy is Nothing
            && plan.reload is None,
        source_exists && file_name_of(copy_memory@) is Some ==> {
            let folder = current_of(history@)->0;
            &&& plan.reload matches Some(r) && r@ == folder
            &&& source_is_dir ==> (plan.copy matches PasteCopy::Folder { source, into }
                && source@ == copy_memory@ && into@ == folder)
            &&& !source_is_dir ==> (plan.copy matches PasteCopy::File { source, target, replace }
                && source@ == copy_memory@
                && target@ == joined(folder, file_name_of(copy_memory@)->0)
                && replace == target_exists)
        },
{
    proof {
        use_type_invariant(history);
    }
    if !source_exists {
        return PastePlan { copy: PasteCopy::Nothing, reload: None };
    }
    let folder = history.entry(history.position());
    match paste_target(folder.as_str(), copy_memory) {
        None => PastePlan { copy: PasteCopy::Nothing, reload: None },
        Some(target) => {
            let copy = if source_is_dir {
                PasteCopy::Folder { source: copy_memory.to_owned(), into: folder.clone() }
            } else {
                PasteCopy::File { source: copy_memory.to_owned(), target, replace: target_exists }
            };
            PastePlan { copy, reload: Some(folder) }
        },
    }
}

/// Whether a right click at horizontal position `x` opens the empty-space
/// menu: it must miss every entry and fall left of 881.
pub fn opens_space_menu(on_entry: bool, x: i32) -> (r: bool)
    ensures
        r == (!on_entry && x < 881),
{
    !on_entry && 881 > x
}

/// Where pasting `source` into `folder` puts it: `folder` joined with the
/// file name of `source`, if it has one.
pub fn paste_target(folder: &str, source: &str) -> (r: Option<String>)
    ensures
        r is Some <==> file_name_of(source@) is Some,
        r matches Some(t) ==> t@ == joined(folder@, file_name_of(source@)->0),
{
    match file_name(source) {
        Some(name) => Some(join_path(folder, name.as_str())),
        None => None,
    }
}

/// The title of the rename dialog.
pub fn rename_title(is_dir: bool) -> (r: &'static str)
    ensures
        r@ == (if is_dir {
            "Rename Folder"@
        } else {
            "Rename File"@
        }),
{
    if is_dir {
        "Rename Folder"
    } else {
        "Rename File"
    }
}

/// Where renaming an entry to `new_name` moves it: the current folder joined
/// with `new_name`.
pub fn rename_target(history: &NavHistory, new_name: &str) -> (r: String)
    requires
        history@.0.len() > 0,
    ensures
        r@ == joined(current_of(history@)->0, new_name@),
{
    proof {
        use_type_invariant(history);
    }
    let folder = history.entry(history.position());
    join_path(folder.as_str(), new_name)
}

/// The question the delete dialog asks about the entry labelled `name`.
pub fn delete_prompt(name: &str) -> (r: String)
    ensures
        r@ == "Permanently Delete \""@ + name@ + "\"?"@,
{
    let mut r = String::from_str("Permanently Delete \"");
    r.append(name);
    r.append("\"?");
    r
}

/// `n / 2` as Rust computes it on integers: rounded toward zero.
pub open spec fn half(n: int) -> int {
    if n >= 0 {
        n / 2
    } else {
        -((-n) / 2)
    }
}

/// Where the delete dialog points in a window of the given size: half its
/// width across and 50 above half its height.
pub fn delete_dialog_anchor(width: i32, height: i32) -> (r: (i32, i32))
    ensures
        r.0 == half(width as int),
        r.1 == half(height as int) - 50,
{
    (width / 2, height / 2 - 50)
}

/// Where the rename dialog points on a button of the given size: half its
/// width across, at its bottom edge.
pub fn rename_dialog_anchor(width: i32, height: i32) -> (r: (i32, i32))
    ensures
        r.0 == half(width as int),
        r.1 == height,
{
    (width / 2, height)
}

/// The rename dialog of an entry.
#[derive(Debug)]
pub struct RenameDialog {
    pub title: &'static str,
    pub button_label: &'static str,
    pub anchor_x: i32,
    pub anchor_y: i32,
}

/// The rename dialog of an entry that is a folder or not, on a button of the
/// given size: its title, its button's label, and where it points.
pub fn rename_dialog(is_dir: bool, width: i32, height: i32) -> (d: RenameDialog)
    ensures
        d.title@ == (if is_dir {
            "Rename Folder"@
        } else {
            "Rename File"@
        }),
        d.button_label@ == "Rename"@,
        d.anchor_x == half(width as int),
        d.anchor_y == height,
{
    let (anchor_x, anchor_y) = rename_dialog_anchor(width, height);
    RenameDialog { title: rename_title(is_dir), button_label: "Rename", anchor_x, anchor_y }
}

/// What confirming a rename does: move `from` to `to`, then show the folder
/// `reload` again.
#[derive(Debug)]
pub struct RenamePlan {
    pub from: String,
    pub to: String,
    pub reload: String,
}

/// Confirming the rename of the entry `item` to `new_name`, given whether the
/// current folder still exists: where it does, the entry moves to the
/// current folder joined with `new_name`, and that folder is shown again;
/// where it does not, nothing happens.
pub fn rename_plan(history: &NavHistory, item: &str, new_name: &str, folder_exists: bool) -> (r:
    Option<RenamePlan>)
    requires
        history@.0.len() > 0,
    ensures
        r is Some <==> folder_exists,
        r matches Some(plan) ==> plan.from@ == item@
            && plan.to@ == joined(current_of(history@)->0, new_name@)
            && plan.reload@ == current_of(history@)->0,
{
    proof {
        use_type_invariant(history);
    }
    if !folder_exists {
        return None;
    }
    let to = rename_target(history, new_name);
    let reload = history.entry(history.position());
    Some(RenamePlan { from: item.to_owned(), to, reload })
}

/// The delete dialog of an entry.
#[derive(Debug)]
pub struct DeleteDialog {
    pub title: String,
    pub warning: &'static str,
    pub cancel_label: &'static str,
    pub delete_label: &'static str,
    pub anchor_x: i32,
    pub anchor_y: i32,
}

/// The delete dialog of the entry labelled `name`, in a window of the given
/// size: its question, its warning, its two buttons' labels, and where it
/// points.
pub fn delete_dialog(name: &str, width: i32, height: i32) -> (d: DeleteDialog)
    ensures
        d.title@ == "Permanently Delete \""@ + name@ + "\"?"@,
        d.warning@ == "Permanently deleted items can't be restored"@,
        d.cancel_label@ == "Cancel"@,
        d.delete_label@ == "Delete"@,
        d.anchor_x == half(width as int),
        d.anchor_y == half(height as int) - 50,
{
    let (anchor_x, anchor_y) = delete_dialog_anchor(width, height);
    DeleteDialog {
        title: delete_prompt(name),
        warning: "Permanently deleted items can't be restored",
        cancel_label: "Cancel",
        delete_label: "Delete",
        anchor_x,
        anchor_y,
    }
}

} // verus!
