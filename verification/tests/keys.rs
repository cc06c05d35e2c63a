use light::keys::{detect_shortcut, match_shortcut, Key, Shortcut};

#[test]
fn detect_new_tab() {
    let key = Key::Character("t");
    assert_eq!(match_shortcut(&key, true, true), Some(Shortcut::NewTab));
}

#[test]
fn detect_close_tab() {
    let key = Key::Character("w");
    assert_eq!(match_shortcut(&key, true, true), Some(Shortcut::CloseTab));
}

#[test]
fn detect_focus_address_bar() {
    let key = Key::Character("l");
    assert_eq!(match_shortcut(&key, true, true), Some(Shortcut::FocusAddressBar));
}

#[test]
fn detect_reload() {
    let key = Key::Character("r");
    assert_eq!(match_shortcut(&key, true, true), Some(Shortcut::Reload));
}

#[test]
fn no_shortcut_without_modifier() {
    let key = Key::Character("t");
    assert_eq!(match_shortcut(&key, true, false), None);
}

#[test]
fn no_shortcut_on_release() {
    let key = Key::Character("t");
    assert_eq!(match_shortcut(&key, false, true), None);
}

#[test]
fn no_shortcut_for_unknown_key() {
    let key = Key::Character("x");
    assert_eq!(match_shortcut(&key, true, true), None);
}

#[test]
fn command_key_depends_on_platform() {
    let key = Key::Character("t");
    assert_eq!(detect_shortcut(&key, true, true, false, true), Some(Shortcut::NewTab));
    assert_eq!(detect_shortcut(&key, true, false, true, true), None);
    assert_eq!(detect_shortcut(&key, true, false, true, false), Some(Shortcut::NewTab));
    assert_eq!(detect_shortcut(&key, true, true, false, false), None);
    assert_eq!(detect_shortcut(&Key::Other, true, true, true, true), None);
}

#[test]
fn uppercase_letter_is_no_shortcut() {
    assert_eq!(match_shortcut(&Key::Character("T"), true, true), None);
}
