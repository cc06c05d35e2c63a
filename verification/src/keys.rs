//! Keyboard shortcuts: Cmd (macOS) or Ctrl (elsewhere) with T, W, L or R.

use vstd::prelude::*;
use crate::text::same_text;

verus! {

/// What a keyboard shortcut asks for.
#[derive(Debug, PartialEq)]
pub enum Shortcut {
    NewTab,
    CloseTab,
    FocusAddressBar,
    Reload,
}

/// The logical key of a key event: the text it types, or some other key.
pub enum Key<'a> {
    Character(&'a str),
    Other,
}

/// The shortcut that the key typing `text` stands for, with the command
/// modifier held.
pub open spec fn shortcut_for_text(text: Seq<char>) -> Option<Shortcut> {
    if text == "t"@ {
        Some(Shortcut::NewTab)
    } else if text == "w"@ {
        Some(Shortcut::CloseTab)
    } else if text == "l"@ {
        Some(Shortcut::FocusAddressBar)
    } else if text == "r"@ {
        Some(Shortcut::Reload)
    } else {
        None
    }
}

/// The shortcut of a key that is pressed (not released) with the command
/// modifier held; none otherwise.
pub open spec fn shortcut_of(key: Key, pressed: bool, cmd_or_ctrl: bool) -> Option<Shortcut> {
    if !pressed || !cmd_or_ctrl {
        None
    } else {
        match key {
            Key::Character(text) => shortcut_for_text(text@),
            Key::Other => None,
        }
    }
}

/// The shortcut that a key event triggers, if any.
pub fn match_shortcut(key: &Key<'_>, pressed: bool, cmd_or_ctrl: bool) -> (r: Option<Shortcut>)
    ensures
        r == shortcut_of(*key, pressed, cmd_or_ctrl),
{
    if !pressed || !cmd_or_ctrl {
        return None;
    }
    match key {
        Key::Character(c) => {
            if same_text(c, "t") {
                Some(Shortcut::NewTab)
            } else if same_text(c, "w") {
                Some(Shortcut::CloseTab)
            } else if same_text(c, "l") {
                Some(Shortcut::FocusAddressBar)
            } else if same_text(c, "r") {
                Some(Shortcut::Reload)
            } else {
                None
            }
        },
        Key::Other => None,
    }
}

/// Whether the command modifier is held: the Super (Cmd) key on macOS, the
/// Control key elsewhere.
pub open spec fn command_held(on_macos: bool, super_key: bool, control_key: bool) -> bool {
    if on_macos {
        super_key
    } else {
        control_key
    }
}

/// A shortcut fires only on a key press with the command modifier of the
/// platform held: never on a release, never with the other platform's
/// modifier alone, and the other platform's modifier changes nothing.
pub proof fn law_shortcut_needs_press_and_command(
    key: Key,
    pressed: bool,
    super_key: bool,
    control_key: bool,
    on_macos: bool,
)
    ensures
        !pressed ==> shortcut_of(key, pressed, command_held(on_macos, super_key, control_key))
            is None,
        on_macos && !super_key ==> shortcut_of(
            key,
            pressed,
            command_held(on_macos, super_key, control_key),
        ) is None,
        !on_macos && !control_key ==> shortcut_of(
            key,
            pressed,
            command_held(on_macos, super_key, control_key),
        ) is None,
        on_macos ==> shortcut_of(key, pressed, command_held(on_macos, super_key, control_key))
            == shortcut_of(key, pressed, command_held(on_macos, super_key, !control_key)),
        !on_macos ==> shortcut_of(key, pressed, command_held(on_macos, super_key, control_key))
            == shortcut_of(key, pressed, command_held(on_macos, !super_key, control_key)),
        key is Other ==> shortcut_of(key, pressed, command_held(on_macos, super_key, control_key))
            is None,
{
}

/// The shortcut that a key event triggers, given the state of the modifier
/// keys and the platform.
pub fn detect_shortcut(
    key: &Key<'_>,
    pressed: bool,
    super_key: bool,
    control_key: bool,
    on_macos: bool,
) -> (r: Option<Shortcut>)
    ensures
        r == shortcut_of(*key, pressed, command_held(on_macos, super_key, control_key)),
{
    let cmd_or_ctrl = if on_macos {
        super_key
    } else {
        control_key
    };
    match_shortcut(key, pressed, cmd_or_ctrl)
}

} // verus!
