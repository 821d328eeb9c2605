use zoe::paths::PathStyle;
use zoe::theme::{
    icon_dir, is_dark_theme_active, mentions_dark, nav_icon_path, sensitivity_look, style_file,
    IconLook, NavButton,
};

#[test]
fn dark_theme_names() {
    assert!(is_dark_theme_active(Some("Adwaita-dark")));
    assert!(is_dark_theme_active(Some("Adwaita-DARK")));
    assert!(is_dark_theme_active(Some("Darkness")));
    assert!(!is_dark_theme_active(Some("Adwaita")));
    assert!(!is_dark_theme_active(Some("dar k")));
    assert!(!is_dark_theme_active(None));
}

#[test]
fn mentions_dark_is_case_sensitive() {
    assert!(mentions_dark("nordic-darker"));
    assert!(!mentions_dark("DARK"));
    assert!(!mentions_dark(""));
}

#[test]
fn icon_paths() {
    assert_eq!(icon_dir(true), "/usr/share/zoe/icons/dark");
    assert_eq!(icon_dir(false), "/usr/share/zoe/icons/light");
    assert_eq!(
        nav_icon_path(true, &NavButton::Back, &IconLook::Inactive),
        "/usr/share/zoe/icons/dark/back-button-innactive.png"
    );
    assert_eq!(
        nav_icon_path(false, &NavButton::Forward, &IconLook::Hover),
        "/usr/share/zoe/icons/light/forward-button-hover.png"
    );
    assert_eq!(
        nav_icon_path(false, &NavButton::Forward, &sensitivity_look(true)),
        "/usr/share/zoe/icons/light/forward-button-active.png"
    );
    assert_eq!(sensitivity_look(false), IconLook::Inactive);
}

#[test]
fn style_sheet_path() {
    assert_eq!(style_file(PathStyle::Unix), ".config/zoe/style.css");
    assert_eq!(style_file(PathStyle::Windows), "AppData\\Local\\zoe\\style.css");
}
