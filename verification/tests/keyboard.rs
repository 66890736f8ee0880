use gpui_ohos::input::{Capslock, Keystroke, Modifiers, PlatformInput};
use gpui_ohos::keyboard::{
    is_modifier, key_name, layout_id, layout_name, letter, printable_char, Action, KeyCode,
    KeyEventData, OhosKeyState,
};

const OFF: Capslock = Capslock { on: false };
const ON: Capslock = Capslock { on: true };
const NONE: Modifiers = Modifiers {
    control: false,
    alt: false,
    shift: false,
    platform: false,
    function: false,
};
const SHIFT: Modifiers = Modifiers {
    control: false,
    alt: false,
    shift: true,
    platform: false,
    function: false,
};

fn event(code: KeyCode, action: Action) -> KeyEventData {
    KeyEventData { code, action }
}

fn stroke(modifiers: Modifiers, key: &str, key_char: Option<&str>) -> Keystroke {
    Keystroke { modifiers, key: key.to_owned(), key_char: key_char.map(str::to_owned) }
}

#[test]
fn plain_letter_down_and_up() {
    let mut keys = OhosKeyState::new();
    assert_eq!(
        keys.handle(&event(KeyCode::A, Action::Down)),
        vec![PlatformInput::KeyDown {
            keystroke: stroke(NONE, "a", Some("a")),
            is_held: false,
            prefer_character_input: false,
        }]
    );
    assert_eq!(
        keys.handle(&event(KeyCode::A, Action::Up)),
        vec![PlatformInput::KeyUp { keystroke: stroke(NONE, "a", Some("a")) }]
    );
}

#[test]
fn repeated_key_is_held() {
    let mut keys = OhosKeyState::new();
    keys.handle(&event(KeyCode::Enter, Action::Down));
    assert_eq!(
        keys.handle(&event(KeyCode::Enter, Action::Down)),
        vec![PlatformInput::KeyDown {
            keystroke: stroke(NONE, "enter", None),
            is_held: true,
            prefer_character_input: false,
        }]
    );
}

#[test]
fn shift_reports_modifiers_and_changes_letters() {
    let mut keys = OhosKeyState::new();
    assert_eq!(
        keys.handle(&event(KeyCode::ShiftLeft, Action::Down)),
        vec![PlatformInput::ModifiersChanged { modifiers: SHIFT, capslock: OFF }]
    );
    assert_eq!(keys.modifiers(), SHIFT);
    assert_eq!(
        keys.handle(&event(KeyCode::B, Action::Down)),
        vec![PlatformInput::KeyDown {
            keystroke: stroke(SHIFT, "b", Some("B")),
            is_held: false,
            prefer_character_input: false,
        }]
    );
    assert_eq!(keys.handle(&event(KeyCode::ShiftRight, Action::Down)), vec![]);
    assert_eq!(keys.handle(&event(KeyCode::ShiftLeft, Action::Up)), vec![]);
    assert_eq!(keys.modifiers(), SHIFT);
    assert_eq!(
        keys.handle(&event(KeyCode::ShiftRight, Action::Up)),
        vec![PlatformInput::ModifiersChanged { modifiers: NONE, capslock: OFF }]
    );
}

#[test]
fn capslock_turns_on_press_only() {
    let mut keys = OhosKeyState::new();
    assert_eq!(
        keys.handle(&event(KeyCode::CapsLock, Action::Down)),
        vec![PlatformInput::ModifiersChanged { modifiers: NONE, capslock: ON }]
    );
    assert_eq!(keys.handle(&event(KeyCode::CapsLock, Action::Down)), vec![]);
    assert_eq!(keys.handle(&event(KeyCode::CapsLock, Action::Up)), vec![]);
    assert_eq!(keys.capslock(), ON);
    keys.handle(&event(KeyCode::CapsLock, Action::Down));
    keys.handle(&event(KeyCode::CapsLock, Action::Up));
    assert_eq!(keys.capslock(), OFF);
}

#[test]
fn press_and_release_leaves_state_as_it_was() {
    let mut keys = OhosKeyState::new();
    keys.handle(&event(KeyCode::CtrlLeft, Action::Down));
    let before = keys.modifiers();
    keys.handle(&event(KeyCode::AltRight, Action::Down));
    assert!(keys.modifiers().alt && keys.modifiers().control);
    keys.handle(&event(KeyCode::AltRight, Action::Up));
    assert_eq!(keys.modifiers(), before);
}

#[test]
fn unknown_action_is_ignored() {
    let mut keys = OhosKeyState::new();
    assert_eq!(keys.handle(&event(KeyCode::CtrlLeft, Action::Unknown)), vec![]);
    assert_eq!(keys.modifiers(), NONE);
}

#[test]
fn keys_without_a_name_report_nothing() {
    let mut keys = OhosKeyState::new();
    assert_eq!(keys.handle(&event(KeyCode::Other(9999), Action::Down)), vec![]);
    assert_eq!(keys.handle(&event(KeyCode::Other(9999), Action::Up)), vec![]);
}

#[test]
fn clear_pressed_reports_only_a_change() {
    let mut keys = OhosKeyState::new();
    keys.handle(&event(KeyCode::A, Action::Down));
    assert_eq!(keys.clear_pressed(), None);
    keys.handle(&event(KeyCode::CapsLock, Action::Down));
    keys.handle(&event(KeyCode::MetaLeft, Action::Down));
    assert_eq!(
        keys.clear_pressed(),
        Some(PlatformInput::ModifiersChanged { modifiers: NONE, capslock: ON })
    );
    assert_eq!(keys.modifiers(), NONE);
    assert_eq!(keys.capslock(), ON);
    assert_eq!(
        keys.handle(&event(KeyCode::A, Action::Down)),
        vec![PlatformInput::KeyDown {
            keystroke: stroke(NONE, "a", Some("A")),
            is_held: false,
            prefer_character_input: false,
        }]
    );
}

#[test]
fn names_of_keys() {
    assert_eq!(key_name(KeyCode::Z), Some("z"));
    assert_eq!(key_name(KeyCode::Key7), Some("7"));
    assert_eq!(key_name(KeyCode::DpadCenter), Some("enter"));
    assert_eq!(key_name(KeyCode::NumpadEnter), Some("enter"));
    assert_eq!(key_name(KeyCode::Del), Some("backspace"));
    assert_eq!(key_name(KeyCode::ForwardDel), Some("delete"));
    assert_eq!(key_name(KeyCode::Backslash), Some("\\"));
    assert_eq!(key_name(KeyCode::Apostrophe), Some("'"));
    assert_eq!(key_name(KeyCode::F12), Some("f12"));
    assert_eq!(key_name(KeyCode::CtrlLeft), None);
}

#[test]
fn letters_and_modifiers() {
    assert_eq!(letter(KeyCode::Q), Some('q'));
    assert_eq!(letter(KeyCode::Key1), None);
    assert!(is_modifier(KeyCode::Function));
    assert!(is_modifier(KeyCode::CapsLock));
    assert!(!is_modifier(KeyCode::Tab));
}

#[test]
fn printable_characters() {
    assert_eq!(printable_char(KeyCode::A, NONE, OFF).as_deref(), Some("a"));
    assert_eq!(printable_char(KeyCode::A, SHIFT, OFF).as_deref(), Some("A"));
    assert_eq!(printable_char(KeyCode::A, NONE, ON).as_deref(), Some("A"));
    assert_eq!(printable_char(KeyCode::A, SHIFT, ON).as_deref(), Some("a"));
    assert_eq!(printable_char(KeyCode::Key1, SHIFT, OFF).as_deref(), Some("!"));
    assert_eq!(printable_char(KeyCode::Key1, NONE, ON).as_deref(), Some("1"));
    assert_eq!(printable_char(KeyCode::Apostrophe, SHIFT, OFF).as_deref(), Some("\""));
    assert_eq!(printable_char(KeyCode::Backslash, SHIFT, OFF).as_deref(), Some("|"));
    assert_eq!(printable_char(KeyCode::Grave, SHIFT, OFF).as_deref(), Some("~"));
    assert_eq!(printable_char(KeyCode::Space, NONE, OFF), None);
    assert_eq!(printable_char(KeyCode::F1, NONE, OFF), None);
    let control = Modifiers { control: true, ..NONE };
    assert_eq!(printable_char(KeyCode::A, control, OFF), None);
    let function = Modifiers { function: true, ..NONE };
    assert_eq!(printable_char(KeyCode::A, function, OFF), None);
}

#[test]
fn layout_texts() {
    assert_eq!(layout_id(), "ohos-default");
    assert_eq!(layout_name(), "OHOS Default");
}
