//! Light and dark themes, and the icons and style sheet that go with them.

use vstd::prelude::*;
use crate::paths::{join_path, joined, PathStyle};
use crate::text::{chars_contain, contains_seq, to_chars};

verus! {

/// The lower-case form of `s`, as `str::to_lowercase` gives it (Unicode's
/// lower-case mapping, in which a capital sigma depends on its neighbours).
pub uninterp spec fn lowercase(s: Seq<char>) -> Seq<char>;

/// Calls `str::to_lowercase`; its result is named [`lowercase`] of the
/// argument, and nothing more is claimed of it.
#[verifier::external_body]
fn to_lowercase(s: &str) -> (r: String)
    ensures
        r@ == lowercase(s@),
{
    s.to_lowercase()
}

/// Whether the (already lower-case) theme name `lowered` mentions "dark".
pub fn mentions_dark(lowered: &str) -> (r: bool)
    ensures
        r == contains_seq(lowered@, "dark"@),
{
    let s = to_chars(lowered);
    let p = to_chars("dark");
    chars_contain(&s, &p)
}

/// Whether the display's GTK theme, named `theme_name`, is a dark one: its
/// lower-case form mentions "dark". Without a theme name (or a display) the
/// theme counts as light.
pub fn is_dark_theme_active(theme_name: Option<&str>) -> (r: bool)
    ensures
        r == (theme_name matches Some(name) && contains_seq(lowercase(name@), "dark"@)),
{
    match theme_name {
        Some(name) => {
            let lowered = to_lowercase(name);
            mentions_dark(lowered.as_str())
        },
        None => false,
    }
}

/// The folder of the navigation icons for a dark or a light theme.
pub open spec fn icon_dir_of(dark: bool) -> Seq<char> {
    if dark {
        "/usr/share/zoe/icons/dark"@
    } else {
        "/usr/share/zoe/icons/light"@
    }
}

/// The folder of the navigation icons for a dark or a light theme.
pub fn icon_dir(dark: bool) -> (r: &'static str)
    ensures
        r@ == icon_dir_of(dark),
{
    if dark {
        "/usr/share/zoe/icons/dark"
    } else {
        "/usr/share/zoe/icons/light"
    }
}

/// The two navigation buttons.
#[derive(Debug, Clone, Copy, PartialEq, Eq, Structural)]
pub enum NavButton {
    Back,
    Forward,
}

/// How a navigation button looks.
#[derive(Debug, Clone, Copy, PartialEq, Eq, Structural)]
pub enum IconLook {
    Active,
    Inactive,
    Hover,
}

/// The file name of a navigation icon.
pub open spec fn nav_icon_file_of(button: NavButton, look: IconLook) -> Seq<char> {
    match (button, look) {
        (NavButton::Back, IconLook::Active) => "back-button-active.png"@,
        (NavButton::Back, IconLook::Inactive) => "back-button-innactive.png"@,
        (NavButton::Back, IconLook::Hover) => "back-button-hover.png"@,
        (NavButton::Forward, IconLook::Active) => "forward-button-active.png"@,
        (NavButton::Forward, IconLook::Inactive) => "forward-button-innactive.png"@,
        (NavButton::Forward, IconLook::Hover) => "forward-button-hover.png"@,
    }
}

/// The file name of a navigation icon.
pub fn nav_icon_file(button: &NavButton, look: &IconLook) -> (r: &'static str)
    ensures
        r@ == nav_icon_file_of(*button, *look),
{
    match (button, look) {
        (NavButton::Back, IconLook::Active) => "back-button-active.png",
        (NavButton::Back, IconLook::Inactive) => "back-button-innactive.png",
        (NavButton::Back, IconLook::Hover) => "back-button-hover.png",
        (NavButton::Forward, IconLook::Active) => "forward-button-active.png",
        (NavButton::Forward, IconLook::Inactive) => "forward-button-innactive.png",
        (NavButton::Forward, IconLook::Hover) => "forward-button-hover.png",
    }
}

/// The path of the icon `button` shows with look `look` under a dark or a
/// light theme.
pub fn nav_icon_path(dark: bool, button: &NavButton, look: &IconLook) -> (r: String)
    ensures
        r@ == joined(icon_dir_of(dark), nav_icon_file_of(*button, *look)),
{
    join_path(icon_dir(dark), nav_icon_file(button, look))
}

/// The look of a navigation button that is enabled or not.
pub fn sensitivity_look(sensitive: bool) -> (r: IconLook)
    ensures
        r == (if sensitive {
            IconLook::Active
        } else {
            IconLook::Inactive
        }),
{
    if sensitive {
        IconLook::Active
    } else {
        IconLook::Inactive
    }
}

/// Where the user's style sheet lies, relative to the home folder, under
/// the path conventions `style`.
pub open spec fn style_file_of(style: PathStyle) -> Seq<char> {
    match style {
        PathStyle::Unix => ".config/zoe/style.css"@,
        PathStyle::Windows => "AppData\\Local\\zoe\\style.css"@,
    }
}

/// Where the user's style sheet lies, relative to the home folder.
pub fn style_file(style: PathStyle) -> (r: &'static str)
    ensures
        r@ == style_file_of(style),
{
    match style {
        PathStyle::Unix => ".config/zoe/style.css",
        PathStyle::Windows => "AppData\\Local\\zoe\\style.css",
    }
}

} // verus!
