//! Hardware keyboard: which keys are held, what they are called and what they
//! type.

use crate::input::input_views;
use crate::input::no_modifiers;
use crate::input::Capslock;
use crate::input::Keystroke;
use crate::input::KeystrokeView;
use crate::input::Modifiers;
use crate::input::PlatformInput;
use crate::input::PlatformInputView;
use crate::text::char_text;
use vstd::prelude::*;
use vstd::string::*;

verus! {

/// A key of the keyboard. A key without a name or a meaning here is `Other`
/// with the system's code for it.
#[derive(Clone, Copy, Debug, PartialEq, Eq, Structural)]
pub enum KeyCode {
    CtrlLeft,
    CtrlRight,
    AltLeft,
    AltRight,
    ShiftLeft,
    ShiftRight,
    MetaLeft,
    MetaRight,
    Fn,
    Function,
    CapsLock,
    A,
    B,
    C,
    D,
    E,
    F,
    G,
    H,
    I,
    J,
    K,
    L,
    M,
    N,
    O,
    P,
    Q,
    R,
    S,
    T,
    U,
    V,
    W,
    X,
    Y,
    Z,
    Key0,
    Key1,
    Key2,
    Key3,
    Key4,
    Key5,
    Key6,
    Key7,
    Key8,
    Key9,
    DpadUp,
    DpadDown,
    DpadLeft,
    DpadRight,
    DpadCenter,
    Enter,
    NumpadEnter,
    Del,
    ForwardDel,
    Tab,
    Space,
    Escape,
    PageUp,
    PageDown,
    MoveHome,
    MoveEnd,
    Insert,
    Comma,
    Period,
    Grave,
    Minus,
    Equals,
    LeftBracket,
    RightBracket,
    Backslash,
    Semicolon,
    Apostrophe,
    Slash,
    F1,
    F2,
    F3,
    F4,
    F5,
    F6,
    F7,
    F8,
    F9,
    F10,
    F11,
    F12,
    Other(u32),
}

/// What happened to a key.
#[derive(Clone, Copy, Debug, PartialEq, Eq, Structural)]
pub enum Action {
    Unknown,
    Down,
    Up,
}

/// One movement of one key.
#[derive(Clone, Copy, Debug, PartialEq, Eq, Structural)]
pub struct KeyEventData {
    pub code: KeyCode,
    pub action: Action,
}

/// Whether a key only modifies others.
pub open spec fn modifies(code: KeyCode) -> bool {
    ||| code is CtrlLeft
    ||| code is CtrlRight
    ||| code is AltLeft
    ||| code is AltRight
    ||| code is ShiftLeft
    ||| code is ShiftRight
    ||| code is MetaLeft
    ||| code is MetaRight
    ||| code is Fn
    ||| code is Function
    ||| code is CapsLock
}

/// The letter on a letter key.
pub open spec fn letter_of(code: KeyCode) -> Option<char> {
    match code {
        KeyCode::A => Some('a'),
        KeyCode::B => Some('b'),
        KeyCode::C => Some('c'),
        KeyCode::D => Some('d'),
        KeyCode::E => Some('e'),
        KeyCode::F => Some('f'),
        KeyCode::G => Some('g'),
        KeyCode::H => Some('h'),
        KeyCode::I => Some('i'),
        KeyCode::J => Some('j'),
        KeyCode::K => Some('k'),
        KeyCode::L => Some('l'),
        KeyCode::M => Some('m'),
        KeyCode::N => Some('n'),
        KeyCode::O => Some('o'),
        KeyCode::P => Some('p'),
        KeyCode::Q => Some('q'),
        KeyCode::R => Some('r'),
        KeyCode::S => Some('s'),
        KeyCode::T => Some('t'),
        KeyCode::U => Some('u'),
        KeyCode::V => Some('v'),
        KeyCode::W => Some('w'),
        KeyCode::X => Some('x'),
        KeyCode::Y => Some('y'),
        KeyCode::Z => Some('z'),
        _ => None,
    }
}

/// The digit or sign on a key that types the same character with and without
/// the caps lock.
pub open spec fn sign_of(code: KeyCode) -> Option<char> {
    match code {
        KeyCode::Key0 => Some('0'),
        KeyCode::Key1 => Some('1'),
        KeyCode::Key2 => Some('2'),
        KeyCode::Key3 => Some('3'),
        KeyCode::Key4 => Some('4'),
        KeyCode::Key5 => Some('5'),
        KeyCode::Key6 => Some('6'),
        KeyCode::Key7 => Some('7'),
        KeyCode::Key8 => Some('8'),
        KeyCode::Key9 => Some('9'),
        KeyCode::Comma => Some(','),
        KeyCode::Period => Some('.'),
        KeyCode::Grave => Some('`'),
        KeyCode::Minus => Some('-'),
        KeyCode::Equals => Some('='),
        KeyCode::LeftBracket => Some('['),
        KeyCode::RightBracket => Some(']'),
        KeyCode::Backslash => Some('\\'),
        KeyCode::Semicolon => Some(';'),
        KeyCode::Apostrophe => Some('\''),
        KeyCode::Slash => Some('/'),
        _ => None,
    }
}

/// What a digit or sign key types while shift is held.
pub open spec fn shifted(sign: char) -> char {
    match sign {
        '1' => '!',
        '2' => '@',
        '3' => '#',
        '4' => '$',
        '5' => '%',
        '6' => '^',
        '7' => '&',
        '8' => '*',
        '9' => '(',
        '0' => ')',
        ',' => '<',
        '.' => '>',
        '`' => '~',
        '-' => '_',
        '=' => '+',
        '[' => '{',
        ']' => '}',
        '\\' => '|',
        ';' => ':',
        '\'' => '"',
        '/' => '?',
        _ => sign,
    }
}

/// The name of a key that types no character of its own.
pub open spec fn word_of(code: KeyCode) -> Option<Seq<char>> {
    match code {
        KeyCode::DpadUp => Some("up"@),
        KeyCode::DpadDown => Some("down"@),
        KeyCode::DpadLeft => Some("left"@),
        KeyCode::DpadRight => Some("right"@),
        KeyCode::DpadCenter | KeyCode::Enter | KeyCode::NumpadEnter => Some("enter"@),
        KeyCode::Del => Some("backspace"@),
        KeyCode::ForwardDel => Some("delete"@),
        KeyCode::Tab => Some("tab"@),
        KeyCode::Space => Some("space"@),
        KeyCode::Escape => Some("escape"@),
        KeyCode::PageUp => Some("pageup"@),
        KeyCode::PageDown => Some("pagedown"@),
        KeyCode::MoveHome => Some("home"@),
        KeyCode::MoveEnd => Some("end"@),
        KeyCode::Insert => Some("insert"@),
        KeyCode::F1 => Some("f1"@),
        KeyCode::F2 => Some("f2"@),
        KeyCode::F3 => Some("f3"@),
        KeyCode::F4 => Some("f4"@),
        KeyCode::F5 => Some("f5"@),
        KeyCode::F6 => Some("f6"@),
        KeyCode::F7 => Some("f7"@),
        KeyCode::F8 => Some("f8"@),
        KeyCode::F9 => Some("f9"@),
        KeyCode::F10 => Some("f10"@),
        KeyCode::F11 => Some("f11"@),
        KeyCode::F12 => Some("f12"@),
        _ => None,
    }
}

/// The name by which a key is known in key bindings.
pub open spec fn name_of(code: KeyCode) -> Option<Seq<char>> {
    match (letter_of(code), sign_of(code)) {
        (Some(letter), _) => Some(seq![letter]),
        (None, Some(sign)) => Some(seq![sign]),
        (None, None) => word_of(code),
    }
}

/// An ASCII letter in upper case.
pub open spec fn upper(letter: char) -> char {
    if 'a' <= letter <= 'z' {
        (letter as u32 - 32) as char
    } else {
        letter
    }
}

/// The character that a key types: none while control, alt, meta or fn is held
/// and none for keys with a word for a name. Shift and the caps lock together
/// leave a letter in lower case; the caps lock does nothing to a sign.
pub open spec fn typed(code: KeyCode, modifiers: Modifiers, capslock: Capslock) -> Option<char> {
    if modifiers.control || modifiers.alt || modifiers.platform || modifiers.function {
        None
    } else {
        match (letter_of(code), sign_of(code)) {
            (Some(letter), _) => Some(
                if modifiers.shift != capslock.on {
                    upper(letter)
                } else {
                    letter
                },
            ),
            (None, Some(sign)) => Some(
                if modifiers.shift {
                    shifted(sign)
                } else {
                    sign
                },
            ),
            (None, None) => None,
        }
    }
}

/// Tells whether a key only modifies others.
pub fn is_modifier(code: KeyCode) -> (r: bool)
    ensures
        r == modifies(code),
{
    matches!(
        code,
        KeyCode::CtrlLeft
            | KeyCode::CtrlRight
            | KeyCode::AltLeft
            | KeyCode::AltRight
            | KeyCode::ShiftLeft
            | KeyCode::ShiftRight
            | KeyCode::MetaLeft
            | KeyCode::MetaRight
            | KeyCode::Fn
            | KeyCode::Function
            | KeyCode::CapsLock
    )
}

/// The letter on a letter key, in lower case.
pub fn letter(code: KeyCode) -> (r: Option<char>)
    ensures
        r == letter_of(code),
{
    match code {
        KeyCode::A => Some('a'),
        KeyCode::B => Some('b'),
        KeyCode::C => Some('c'),
        KeyCode::D => Some('d'),
        KeyCode::E => Some('e'),
        KeyCode::F => Some('f'),
        KeyCode::G => Some('g'),
        KeyCode::H => Some('h'),
        KeyCode::I => Some('i'),
        KeyCode::J => Some('j'),
        KeyCode::K => Some('k'),
        KeyCode::L => Some('l'),
        KeyCode::M => Some('m'),
        KeyCode::N => Some('n'),
        KeyCode::O => Some('o'),
        KeyCode::P => Some('p'),
        KeyCode::Q => Some('q'),
        KeyCode::R => Some('r'),
        KeyCode::S => Some('s'),
        KeyCode::T => Some('t'),
        KeyCode::U => Some('u'),
        KeyCode::V => Some('v'),
        KeyCode::W => Some('w'),
        KeyCode::X => Some('x'),
        KeyCode::Y => Some('y'),
        KeyCode::Z => Some('z'),
        _ => None,
    }
}

/// The name by which a key is known in key bindings; `None` for keys that have
/// none.
pub fn key_name(code: KeyCode) -> (r: Option<&'static str>)
    ensures
        r is Some <==> name_of(code) is Some,
        r is Some ==> r->0@ == name_of(code)->0,
{
    proof {
        reveal_strlit("a");
        reveal_strlit("b");
        reveal_strlit("c");
        reveal_strlit("d");
        reveal_strlit("e");
        reveal_strlit("f");
        reveal_strlit("g");
        reveal_strlit("h");
        reveal_strlit("i");
        reveal_strlit("j");
        reveal_strlit("k");
        reveal_strlit("l");
        reveal_strlit("m");
        reveal_strlit("n");
        reveal_strlit("o");
        reveal_strlit("p");
        reveal_strlit("q");
        reveal_strlit("r");
        reveal_strlit("s");
        reveal_strlit("t");
        reveal_strlit("u");
        reveal_strlit("v");
        reveal_strlit("w");
        reveal_strlit("x");
        reveal_strlit("y");
        reveal_strlit("z");
        reveal_strlit("0");
        reveal_strlit("1");
        reveal_strlit("2");
        reveal_strlit("3");
        reveal_strlit("4");
        reveal_strlit("5");
        reveal_strlit("6");
        reveal_strlit("7");
        reveal_strlit("8");
        reveal_strlit("9");
        reveal_strlit(",");
        reveal_strlit(".");
        reveal_strlit("`");
        reveal_strlit("-");
        reveal_strlit("=");
        reveal_strlit("[");
        reveal_strlit("]");
        reveal_strlit("\\");
        reveal_strlit(";");
        reveal_strlit("'");
        reveal_strlit("/");
    }
    let name: Option<&'static str> = match code {
        KeyCode::A => Some("a"),
        KeyCode::B => Some("b"),
        KeyCode::C => Some("c"),
        KeyCode::D => Some("d"),
        KeyCode::E => Some("e"),
        KeyCode::F => Some("f"),
        KeyCode::G => Some("g"),
        KeyCode::H => Some("h"),
        KeyCode::I => Some("i"),
        KeyCode::J => Some("j"),
        KeyCode::K => Some("k"),
        KeyCode::L => Some("l"),
        KeyCode::M => Some("m"),
        KeyCode::N => Some("n"),
        KeyCode::O => Some("o"),
        KeyCode::P => Some("p"),
        KeyCode::Q => Some("q"),
        KeyCode::R => Some("r"),
        KeyCode::S => Some("s"),
        KeyCode::T => Some("t"),
        KeyCode::U => Some("u"),
        KeyCode::V => Some("v"),
        KeyCode::W => Some("w"),
        KeyCode::X => Some("x"),
        KeyCode::Y => Some("y"),
        KeyCode::Z => Some("z"),
        KeyCode::Key0 => Some("0"),
        KeyCode::Key1 => Some("1"),
        KeyCode::Key2 => Some("2"),
        KeyCode::Key3 => Some("3"),
        KeyCode::Key4 => Some("4"),
        KeyCode::Key5 => Some("5"),
        KeyCode::Key6 => Some("6"),
        KeyCode::Key7 => Some("7"),
        KeyCode::Key8 => Some("8"),
        KeyCode::Key9 => Some("9"),
        KeyCode::DpadUp => Some("up"),
        KeyCode::DpadDown => Some("down"),
        KeyCode::DpadLeft => Some("left"),
        KeyCode::DpadRight => Some("right"),
        KeyCode::DpadCenter | KeyCode::Enter | KeyCode::NumpadEnter => Some("enter"),
        KeyCode::Del => Some("backspace"),
        KeyCode::ForwardDel => Some("delete"),
        KeyCode::Tab => Some("tab"),
        KeyCode::Space => Some("space"),
        KeyCode::Escape => Some("escape"),
        KeyCode::PageUp => Some("pageup"),
        KeyCode::PageDown => Some("pagedown"),
        KeyCode::MoveHome => Some("home"),
        KeyCode::MoveEnd => Some("end"),
        KeyCode::Insert => Some("insert"),
        KeyCode::Comma => Some(","),
        KeyCode::Period => Some("."),
        KeyCode::Grave => Some("`"),
        KeyCode::Minus => Some("-"),
        KeyCode::Equals => Some("="),
        KeyCode::LeftBracket => Some("["),
        KeyCode::RightBracket => Some("]"),
        KeyCode::Backslash => Some("\\"),
        KeyCode::Semicolon => Some(";"),
        KeyCode::Apostrophe => Some("'"),
        KeyCode::Slash => Some("/"),
        KeyCode::F1 => Some("f1"),
        KeyCode::F2 => Some("f2"),
        KeyCode::F3 => Some("f3"),
        KeyCode::F4 => Some("f4"),
        KeyCode::F5 => Some("f5"),
        KeyCode::F6 => Some("f6"),
        KeyCode::F7 => Some("f7"),
        KeyCode::F8 => Some("f8"),
        KeyCode::F9 => Some("f9"),
        KeyCode::F10 => Some("f10"),
        KeyCode::F11 => Some("f11"),
        KeyCode::F12 => Some("f12"),
        _ => None,
    };
    assert(letter_of(code) is Some || sign_of(code) is Some ==> name->0@ =~= name_of(code)->0);
    name
}

/// The digit or sign on a key.
fn sign(code: KeyCode) -> (r: Option<char>)
    ensures
        r == sign_of(code),
{
    match code {
        KeyCode::Key0 => Some('0'),
        KeyCode::Key1 => Some('1'),
        KeyCode::Key2 => Some('2'),
        KeyCode::Key3 => Some('3'),
        KeyCode::Key4 => Some('4'),
        KeyCode::Key5 => Some('5'),
        KeyCode::Key6 => Some('6'),
        KeyCode::Key7 => Some('7'),
        KeyCode::Key8 => Some('8'),
        KeyCode::Key9 => Some('9'),
        KeyCode::Comma => Some(','),
        KeyCode::Period => Some('.'),
        KeyCode::Grave => Some('`'),
        KeyCode::Minus => Some('-'),
        KeyCode::Equals => Some('='),
        KeyCode::LeftBracket => Some('['),
        KeyCode::RightBracket => Some(']'),
        KeyCode::Backslash => Some('\\'),
        KeyCode::Semicolon => Some(';'),
        KeyCode::Apostrophe => Some('\''),
        KeyCode::Slash => Some('/'),
        _ => None,
    }
}

/// What a digit or sign key types while shift is held.
fn shifted_sign(sign: char) -> (r: char)
    ensures
        r == shifted(sign),
{
    match sign {
        '1' => '!',
        '2' => '@',
        '3' => '#',
        '4' => '$',
        '5' => '%',
        '6' => '^',
        '7' => '&',
        '8' => '*',
        '9' => '(',
        '0' => ')',
        ',' => '<',
        '.' => '>',
        '`' => '~',
        '-' => '_',
        '=' => '+',
        '[' => '{',
        ']' => '}',
        '\\' => '|',
        ';' => ':',
        '\'' => '"',
        '/' => '?',
        _ => sign,
    }
}

/// A letter in upper case.
fn upper_case(letter: char) -> (r: char)
    requires
        'a' <= letter <= 'z',
    ensures
        r == upper(letter),
{
    let code: u8 = (letter as u32 - 32) as u8;
    code as char
}

/// The text that a key types, or `None` where it types none.
pub fn printable_char(code: KeyCode, modifiers: Modifiers, capslock: Capslock) -> (r: Option<
    String,
>)
    ensures
        r is Some <==> typed(code, modifiers, capslock) is Some,
        r is Some ==> r->0@ == seq![typed(code, modifiers, capslock)->0],
{
    if modifiers.control || modifiers.alt || modifiers.platform || modifiers.function {
        return None;
    }
    let character: char = match letter(code) {
        Some(letter) => if modifiers.shift != capslock.on {
            upper_case(letter)
        } else {
            letter
        },
        None => {
            let plain: char = match sign(code) {
                Some(plain) => plain,
                None => {
                    return None;
                },
            };
            if modifiers.shift {
                shifted_sign(plain)
            } else {
                plain
            }
        },
    };
    Some(char_text(character))
}

/// The modifiers that a set of held keys amounts to.
pub open spec fn held_modifiers(pressed: Set<KeyCode>) -> Modifiers {
    Modifiers {
        control: pressed.contains(KeyCode::CtrlLeft) || pressed.contains(KeyCode::CtrlRight),
        alt: pressed.contains(KeyCode::AltLeft) || pressed.contains(KeyCode::AltRight),
        shift: pressed.contains(KeyCode::ShiftLeft) || pressed.contains(KeyCode::ShiftRight),
        platform: pressed.contains(KeyCode::MetaLeft) || pressed.contains(KeyCode::MetaRight),
        function: pressed.contains(KeyCode::Fn) || pressed.contains(KeyCode::Function),
    }
}

/// What is known of the keyboard at one moment.
#[verifier::ext_equal]
pub struct KeyStateView {
    /// The keys that are down.
    pub pressed: Set<KeyCode>,
    pub modifiers: Modifiers,
    pub capslock: Capslock,
}

impl KeyStateView {
    /// The modifiers are those of the keys that are down.
    pub open spec fn wf(self) -> bool {
        self.modifiers == held_modifiers(self.pressed)
    }

    /// The caps lock after a key moved: it turns when its key goes down, not
    /// while that key repeats.
    pub open spec fn capslock_after(self, event: KeyEventData) -> Capslock {
        if event.code is CapsLock && event.action is Down && !self.pressed.contains(event.code) {
            Capslock { on: !self.capslock.on }
        } else {
            self.capslock
        }
    }

    /// The state after a key moved.
    pub open spec fn after(self, event: KeyEventData) -> KeyStateView {
        match event.action {
            Action::Unknown => self,
            Action::Down => KeyStateView {
                pressed: self.pressed.insert(event.code),
                modifiers: held_modifiers(self.pressed.insert(event.code)),
                capslock: self.capslock_after(event),
            },
            Action::Up => KeyStateView {
                pressed: self.pressed.remove(event.code),
                modifiers: held_modifiers(self.pressed.remove(event.code)),
                capslock: self.capslock,
            },
        }
    }

    /// The event that tells of the modifiers.
    pub open spec fn modifiers_event(self) -> PlatformInputView {
        PlatformInputView::ModifiersChanged { modifiers: self.modifiers, capslock: self.capslock }
    }

    /// A named key pressed in this state.
    pub open spec fn keystroke(self, code: KeyCode) -> KeystrokeView
        recommends
            name_of(code) is Some,
    {
        KeystrokeView {
            modifiers: self.modifiers,
            key: name_of(code)->0,
            key_char: match typed(code, self.modifiers, self.capslock) {
                Some(c) => Some(seq![c]),
                None => None,
            },
        }
    }

    /// What is told of the modifiers when a key moves: nothing unless they or
    /// the caps lock changed.
    pub open spec fn modifier_reports(self, event: KeyEventData) -> Seq<PlatformInputView> {
        let next = self.after(event);
        if next.modifiers != self.modifiers || next.capslock != self.capslock {
            seq![next.modifiers_event()]
        } else {
            seq![]
        }
    }

    /// What is told of the key itself: nothing of a modifier or of a key
    /// without a name.
    pub open spec fn key_reports(self, event: KeyEventData) -> Seq<PlatformInputView> {
        let next = self.after(event);
        if modifies(event.code) || name_of(event.code) is None {
            seq![]
        } else {
            match event.action {
                Action::Unknown => seq![],
                Action::Down => seq![
                    PlatformInputView::KeyDown {
                        keystroke: next.keystroke(event.code),
                        is_held: self.pressed.contains(event.code),
                        prefer_character_input: false,
                    },
                ],
                Action::Up => seq![
                    PlatformInputView::KeyUp { keystroke: next.keystroke(event.code) },
                ],
            }
        }
    }

    /// The input events of one key movement, in order.
    pub open spec fn reports(self, event: KeyEventData) -> Seq<PlatformInputView> {
        self.modifier_reports(event) + self.key_reports(event)
    }

    /// The state once every key is up.
    pub open spec fn cleared(self) -> KeyStateView {
        KeyStateView {
            pressed: Set::empty(),
            modifiers: no_modifiers(),
            capslock: self.capslock,
        }
    }
}

/// Which keys are down, and what that means for the modifiers.
#[derive(Debug)]
pub struct OhosKeyState {
    pressed: Vec<KeyCode>,
    modifiers: Modifiers,
    capslock: Capslock,
}

impl View for OhosKeyState {
    type V = KeyStateView;

    closed spec fn view(&self) -> KeyStateView {
        KeyStateView {
            pressed: self.pressed@.to_set(),
            modifiers: self.modifiers,
            capslock: self.capslock,
        }
    }
}

proof fn lemma_push_holds(keys: Seq<KeyCode>, code: KeyCode, other: KeyCode)
    ensures
        keys.push(code).contains(other) <==> keys.contains(other) || other == code,
{
    let longer = keys.push(code);
    assert(longer[keys.len() as int] == code);
    if keys.contains(other) {
        let i = choose|i: int| 0 <= i < keys.len() && keys[i] == other;
        assert(longer[i] == other);
    }
    if longer.contains(other) && other != code {
        let i = choose|i: int| 0 <= i < longer.len() && longer[i] == other;
        assert(keys[i] == other);
    }
}

/// Whether a list of keys holds one of them.
fn holds(keys: &Vec<KeyCode>, code: KeyCode) -> (r: bool)
    ensures
        r == keys@.to_set().contains(code),
{
    let mut i: usize = 0;
    while i < keys.len()
        invariant
            i <= keys@.len(),
            forall|j: int| 0 <= j < i ==> keys@[j] != code,
        decreases keys@.len() - i,
    {
        if keys[i] == code {
            assert(keys@.contains(code));
            return true;
        }
        i = i + 1;
    }
    false
}

/// A list of keys without one of them.
fn without(keys: &Vec<KeyCode>, code: KeyCode) -> (r: Vec<KeyCode>)
    ensures
        r@.to_set() == keys@.to_set().remove(code),
{
    let mut kept: Vec<KeyCode> = Vec::new();
    let mut i: usize = 0;
    while i < keys.len()
        invariant
            i <= keys@.len(),
            forall|k: KeyCode| #[trigger]
                kept@.contains(k) <==> keys@.take(i as int).contains(k) && k != code,
        decreases keys@.len() - i,
    {
        let ghost before = kept@;
        let key = keys[i];
        if key != code {
            kept.push(key);
        }
        proof {
            assert(keys@.take(i + 1) =~= keys@.take(i as int).push(key));
            assert forall|k: KeyCode| #[trigger]
                kept@.contains(k) <==> keys@.take(i + 1).contains(k) && k != code by {
                lemma_push_holds(keys@.take(i as int), key, k);
                lemma_push_holds(before, key, k);
            }
        }
        i = i + 1;
    }
    proof {
        assert(keys@.take(i as int) =~= keys@);
        assert(kept@.to_set() =~= keys@.to_set().remove(code));
    }
    kept
}

impl OhosKeyState {
    /// A keyboard without a key down and with the caps lock off.
    pub fn new() -> (r: OhosKeyState)
        ensures
            r@.wf(),
            r@.pressed == Set::<KeyCode>::empty(),
            !r@.capslock.on,
    {
        let r = OhosKeyState {
            pressed: Vec::new(),
            modifiers: Modifiers::default(),
            capslock: Capslock::default(),
        };
        proof {
            assert(r@.pressed =~= Set::<KeyCode>::empty());
        }
        r
    }

    /// The modifiers that are held.
    pub fn modifiers(&self) -> (r: Modifiers)
        ensures
            r == self@.modifiers,
    {
        self.modifiers
    }

    /// The caps lock.
    pub fn capslock(&self) -> (r: Capslock)
        ensures
            r == self@.capslock,
    {
        self.capslock
    }

    fn modifiers_changed(&self) -> (r: PlatformInput)
        ensures
            r@ == self@.modifiers_event(),
    {
        PlatformInput::ModifiersChanged { modifiers: self.modifiers, capslock: self.capslock }
    }

    /// Forgets every key that is down, and tells of it where that changes the
    /// modifiers.
    pub fn clear_pressed(&mut self) -> (r: Option<PlatformInput>)
        ensures
            final(self)@ == old(self)@.cleared(),
            r is Some <==> old(self)@.modifiers != no_modifiers(),
            r is Some ==> r->0@ == old(self)@.cleared().modifiers_event(),
    {
        self.pressed.clear();
        proof {
            assert(self@.pressed =~= Set::<KeyCode>::empty());
        }
        let none = Modifiers::default();
        if self.modifiers == none {
            return None;
        }
        self.modifiers = none;
        Some(self.modifiers_changed())
    }

    /// Takes one key movement and gives the input events that it makes.
    pub fn handle(&mut self, event: &KeyEventData) -> (r: Vec<PlatformInput>)
        requires
            old(self)@.wf(),
        ensures
            final(self)@ == old(self)@.after(*event),
            final(self)@.wf(),
            input_views(r@) == old(self)@.reports(*event),
    {
        let held = holds(&self.pressed, event.code);
        let mut output: Vec<PlatformInput> = Vec::new();
        match event.action {
            Action::Unknown => {
                proof {
                    assert(input_views(output@) =~= old(self)@.reports(*event));
                }
                return output;
            },
            Action::Down => {
                if !held {
                    self.pressed.push(event.code);
                    proof {
                        assert(old(self).pressed@.push(event.code).to_set() =~= old(
                            self,
                        ).pressed@.to_set().insert(event.code)) by {
                            assert forall|k: KeyCode|
                                old(self).pressed@.push(event.code).contains(k) <==> (old(
                                    self,
                                ).pressed@.contains(k) || k == event.code) by {
                                lemma_push_holds(old(self).pressed@, event.code, k);
                            }
                        }
                    }
                } else {
                    proof {
                        assert(self.pressed@.to_set().insert(event.code)
                            =~= self.pressed@.to_set());
                    }
                }
            },
            Action::Up => {
                self.pressed = without(&self.pressed, event.code);
            },
        }
        let previous_modifiers = self.modifiers;
        let previous_capslock = self.capslock;
        if event.code == KeyCode::CapsLock && event.action == Action::Down && !held {
            self.capslock = Capslock { on: !self.capslock.on };
        }
        self.modifiers = Modifiers {
            control: holds(&self.pressed, KeyCode::CtrlLeft) || holds(
                &self.pressed,
                KeyCode::CtrlRight,
            ),
            alt: holds(&self.pressed, KeyCode::AltLeft) || holds(&self.pressed, KeyCode::AltRight),
            shift: holds(&self.pressed, KeyCode::ShiftLeft) || holds(
                &self.pressed,
                KeyCode::ShiftRight,
            ),
            platform: holds(&self.pressed, KeyCode::MetaLeft) || holds(
                &self.pressed,
                KeyCode::MetaRight,
            ),
            function: holds(&self.pressed, KeyCode::Fn) || holds(&self.pressed, KeyCode::Function),
        };
        assert(self@ == old(self)@.after(*event));

        if self.modifiers != previous_modifiers || self.capslock != previous_capslock {
            output.push(self.modifiers_changed());
        }
        assert(input_views(output@) =~= old(self)@.modifier_reports(*event));
        let ghost told = output@;
        if !is_modifier(event.code) {
            if let Some(key) = key_name(event.code) {
                let keystroke = Keystroke {
                    modifiers: self.modifiers,
                    key: key.to_owned(),
                    key_char: printable_char(event.code, self.modifiers, self.capslock),
                };
                assert(keystroke@ == self@.keystroke(event.code));
                match event.action {
                    Action::Down => output.push(
                        PlatformInput::KeyDown {
                            keystroke,
                            is_held: held,
                            prefer_character_input: false,
                        },
                    ),
                    Action::Up => output.push(PlatformInput::KeyUp { keystroke }),
                    Action::Unknown => {},
                }
            }
        }
        assert(input_views(output@) =~= old(self)@.reports(*event));
        output
    }
}

/// The identifier of the keyboard layout.
pub fn layout_id() -> (r: &'static str)
    ensures
        r@ == "ohos-default"@,
{
    "ohos-default"
}

/// The name of the keyboard layout.
pub fn layout_name() -> (r: &'static str)
    ensures
        r@ == "OHOS Default"@,
{
    "OHOS Default"
}

/// Pressing a key and letting it go again leaves everything as it was, but for
/// the caps lock, which turns with its own key.
pub proof fn law_release_undoes_press(state: KeyStateView, code: KeyCode)
    requires
        state.wf(),
        !state.pressed.contains(code),
    ensures
        ({
            let down = KeyEventData { code, action: Action::Down };
            let up = KeyEventData { code, action: Action::Up };
            let end = state.after(down).after(up);
            &&& end.pressed == state.pressed
            &&& end.modifiers == state.modifiers
            &&& end.capslock.on == (state.capslock.on != (code is CapsLock))
        }),
{
    assert(state.pressed.insert(code).remove(code) =~= state.pressed);
}

/// A key that is already down repeats: nothing changes, the modifiers are not
/// told again, and a key with a name is told as held.
pub proof fn law_repeat_changes_nothing(state: KeyStateView, code: KeyCode)
    requires
        state.wf(),
        state.pressed.contains(code),
    ensures
        ({
            let down = KeyEventData { code, action: Action::Down };
            &&& state.after(down) == state
            &&& state.reports(down) == if modifies(code) || name_of(code) is None {
                Seq::<PlatformInputView>::empty()
            } else {
                seq![
                    PlatformInputView::KeyDown {
                        keystroke: state.keystroke(code),
                        is_held: true,
                        prefer_character_input: false,
                    },
                ]
            }
        }),
{
    assert(state.pressed.insert(code) =~= state.pressed);
    let down = KeyEventData { code, action: Action::Down };
    assert(state.reports(down) =~= state.key_reports(down));
}

/// Every key movement leaves the modifiers those of the keys that are down.
pub proof fn law_modifiers_follow_keys(state: KeyStateView, event: KeyEventData)
    requires
        state.wf(),
    ensures
        state.after(event).wf(),
{
}

/// Only the modifier keys change the modifiers or the caps lock.
pub proof fn law_other_keys_keep_modifiers(state: KeyStateView, event: KeyEventData)
    requires
        state.wf(),
        !modifies(event.code),
    ensures
        state.after(event).modifiers == state.modifiers,
        state.after(event).capslock == state.capslock,
        state.modifier_reports(event) == Seq::<PlatformInputView>::empty(),
{
}

/// A key types its own name where that is a single character and nothing is
/// held.
pub proof fn law_plain_key_types_its_name(code: KeyCode)
    requires
        letter_of(code) is Some || sign_of(code) is Some,
    ensures
        typed(code, no_modifiers(), Capslock { on: false }) is Some,
        name_of(code) == Some(seq![typed(code, no_modifiers(), Capslock { on: false })->0]),
{
}

/// Shift and the caps lock cancel each other on a letter.
pub proof fn law_shift_cancels_capslock(code: KeyCode, modifiers: Modifiers, capslock: Capslock)
    requires
        letter_of(code) is Some,
    ensures
        typed(code, modifiers, capslock) == typed(
            code,
            Modifiers { shift: !modifiers.shift, ..modifiers },
            Capslock { on: !capslock.on },
        ),
{
}

/// The name of every key: a letter, digit or sign is named by itself, another key by
/// a word, and a modifier key or one without a meaning here has no name.
pub proof fn law_key_names(code: u32)
    ensures
        name_of(KeyCode::A) == Some(seq!['a']),
        name_of(KeyCode::B) == Some(seq!['b']),
        name_of(KeyCode::C) == Some(seq!['c']),
        name_of(KeyCode::D) == Some(seq!['d']),
        name_of(KeyCode::E) == Some(seq!['e']),
        name_of(KeyCode::F) == Some(seq!['f']),
        name_of(KeyCode::G) == Some(seq!['g']),
        name_of(KeyCode::H) == Some(seq!['h']),
        name_of(KeyCode::I) == Some(seq!['i']),
        name_of(KeyCode::J) == Some(seq!['j']),
        name_of(KeyCode::K) == Some(seq!['k']),
        name_of(KeyCode::L) == Some(seq!['l']),
        name_of(KeyCode::M) == Some(seq!['m']),
        name_of(KeyCode::N) == Some(seq!['n']),
        name_of(KeyCode::O) == Some(seq!['o']),
        name_of(KeyCode::P) == Some(seq!['p']),
        name_of(KeyCode::Q) == Some(seq!['q']),
        name_of(KeyCode::R) == Some(seq!['r']),
        name_of(KeyCode::S) == Some(seq!['s']),
        name_of(KeyCode::T) == Some(seq!['t']),
        name_of(KeyCode::U) == Some(seq!['u']),
        name_of(KeyCode::V) == Some(seq!['v']),
        name_of(KeyCode::W) == Some(seq!['w']),
        name_of(KeyCode::X) == Some(seq!['x']),
        name_of(KeyCode::Y) == Some(seq!['y']),
        name_of(KeyCode::Z) == Some(seq!['z']),
        name_of(KeyCode::Key0) == Some(seq!['0']),
        name_of(KeyCode::Key1) == Some(seq!['1']),
        name_of(KeyCode::Key2) == Some(seq!['2']),
        name_of(KeyCode::Key3) == Some(seq!['3']),
        name_of(KeyCode::Key4) == Some(seq!['4']),
        name_of(KeyCode::Key5) == Some(seq!['5']),
        name_of(KeyCode::Key6) == Some(seq!['6']),
        name_of(KeyCode::Key7) == Some(seq!['7']),
        name_of(KeyCode::Key8) == Some(seq!['8']),
        name_of(KeyCode::Key9) == Some(seq!['9']),
        name_of(KeyCode::Comma) == Some(seq![',']),
        name_of(KeyCode::Period) == Some(seq!['.']),
        name_of(KeyCode::Grave) == Some(seq!['`']),
        name_of(KeyCode::Minus) == Some(seq!['-']),
        name_of(KeyCode::Equals) == Some(seq!['=']),
        name_of(KeyCode::LeftBracket) == Some(seq!['[']),
        name_of(KeyCode::RightBracket) == Some(seq![']']),
        name_of(KeyCode::Backslash) == Some(seq!['\\']),
        name_of(KeyCode::Semicolon) == Some(seq![';']),
        name_of(KeyCode::Apostrophe) == Some(seq!['\'']),
        name_of(KeyCode::Slash) == Some(seq!['/']),
        name_of(KeyCode::DpadUp) == Some("up"@),
        name_of(KeyCode::DpadDown) == Some("down"@),
        name_of(KeyCode::DpadLeft) == Some("left"@),
        name_of(KeyCode::DpadRight) == Some("right"@),
        name_of(KeyCode::DpadCenter) == Some("enter"@),
        name_of(KeyCode::Enter) == Some("enter"@),
        name_of(KeyCode::NumpadEnter) == Some("enter"@),
        name_of(KeyCode::Del) == Some("backspace"@),
        name_of(KeyCode::ForwardDel) == Some("delete"@),
        name_of(KeyCode::Tab) == Some("tab"@),
        name_of(KeyCode::Space) == Some("space"@),
        name_of(KeyCode::Escape) == Some("escape"@),
        name_of(KeyCode::PageUp) == Some("pageup"@),
        name_of(KeyCode::PageDown) == Some("pagedown"@),
        name_of(KeyCode::MoveHome) == Some("home"@),
        name_of(KeyCode::MoveEnd) == Some("end"@),
        name_of(KeyCode::Insert) == Some("insert"@),
        name_of(KeyCode::F1) == Some("f1"@),
        name_of(KeyCode::F2) == Some("f2"@),
        name_of(KeyCode::F3) == Some("f3"@),
        name_of(KeyCode::F4) == Some("f4"@),
        name_of(KeyCode::F5) == Some("f5"@),
        name_of(KeyCode::F6) == Some("f6"@),
        name_of(KeyCode::F7) == Some("f7"@),
        name_of(KeyCode::F8) == Some("f8"@),
        name_of(KeyCode::F9) == Some("f9"@),
        name_of(KeyCode::F10) == Some("f10"@),
        name_of(KeyCode::F11) == Some("f11"@),
        name_of(KeyCode::F12) == Some("f12"@),
        name_of(KeyCode::CtrlLeft) is None,
        name_of(KeyCode::CtrlRight) is None,
        name_of(KeyCode::AltLeft) is None,
        name_of(KeyCode::AltRight) is None,
        name_of(KeyCode::ShiftLeft) is None,
        name_of(KeyCode::ShiftRight) is None,
        name_of(KeyCode::MetaLeft) is None,
        name_of(KeyCode::MetaRight) is None,
        name_of(KeyCode::Fn) is None,
        name_of(KeyCode::Function) is None,
        name_of(KeyCode::CapsLock) is None,
        name_of(KeyCode::Other(code)) is None,
{
}

/// What every key types while neither control nor alt nor meta nor fn is held: a
/// letter in upper case where exactly one of shift and the caps lock is on, a digit or
/// sign by shift alone, and another key nothing.
pub proof fn law_typed_characters(modifiers: Modifiers, capslock: Capslock, code: u32)
    requires
        !modifiers.control && !modifiers.alt && !modifiers.platform && !modifiers.function,
    ensures
        typed(KeyCode::A, modifiers, capslock) == Some(
            if modifiers.shift == capslock.on {
                'a'
            } else {
                'A'
            },
        ),
        typed(KeyCode::B, modifiers, capslock) == Some(
            if modifiers.shift == capslock.on {
                'b'
            } else {
                'B'
            },
        ),
        typed(KeyCode::C, modifiers, capslock) == Some(
            if modifiers.shift == capslock.on {
                'c'
            } else {
                'C'
            },
        ),
        typed(KeyCode::D, modifiers, capslock) == Some(
            if modifiers.shift == capslock.on {
                'd'
            } else {
                'D'
            },
        ),
        typed(KeyCode::E, modifiers, capslock) == Some(
            if modifiers.shift == capslock.on {
                'e'
            } else {
                'E'
            },
        ),
        typed(KeyCode::F, modifiers, capslock) == Some(
            if modifiers.shift == capslock.on {
                'f'
            } else {
                'F'
            },
        ),
        typed(KeyCode::G, modifiers, capslock) == Some(
            if modifiers.shift == capslock.on {
                'g'
            } else {
                'G'
            },
        ),
        typed(KeyCode::H, modifiers, capslock) == Some(
            if modifiers.shift == capslock.on {
                'h'
            } else {
                'H'
            },
        ),
        typed(KeyCode::I, modifiers, capslock) == Some(
            if modifiers.shift == capslock.on {
                'i'
            } else {
                'I'
            },
        ),
        typed(KeyCode::J, modifiers, capslock) == Some(
            if modifiers.shift == capslock.on {
                'j'
            } else {
                'J'
            },
        ),
        typed(KeyCode::K, modifiers, capslock) == Some(
            if modifiers.shift == capslock.on {
                'k'
            } else {
                'K'
            },
        ),
        typed(KeyCode::L, modifiers, capslock) == Some(
            if modifiers.shift == capslock.on {
                'l'
            } else {
                'L'
            },
        ),
        typed(KeyCode::M, modifiers, capslock) == Some(
            if modifiers.shift == capslock.on {
                'm'
            } else {
                'M'
            },
        ),
        typed(KeyCode::N, modifiers, capslock) == Some(
            if modifiers.shift == capslock.on {
                'n'
            } else {
                'N'
            },
        ),
        typed(KeyCode::O, modifiers, capslock) == Some(
            if modifiers.shift == capslock.on {
                'o'
            } else {
                'O'
            },
        ),
        typed(KeyCode::P, modifiers, capslock) == Some(
            if modifiers.shift == capslock.on {
                'p'
            } else {
                'P'
            },
        ),
        typed(KeyCode::Q, modifiers, capslock) == Some(
            if modifiers.shift == capslock.on {
                'q'
            } else {
                'Q'
            },
        ),
        typed(KeyCode::R, modifiers, capslock) == Some(
            if modifiers.shift == capslock.on {
                'r'
            } else {
                'R'
            },
        ),
        typed(KeyCode::S, modifiers, capslock) == Some(
            if modifiers.shift == capslock.on {
                's'
            } else {
                'S'
            },
        ),
        typed(KeyCode::T, modifiers, capslock) == Some(
            if modifiers.shift == capslock.on {
                't'
            } else {
                'T'
            },
        ),
        typed(KeyCode::U, modifiers, capslock) == Some(
            if modifiers.shift == capslock.on {
                'u'
            } else {
                'U'
            },
        ),
        typed(KeyCode::V, modifiers, capslock) == Some(
            if modifiers.shift == capslock.on {
                'v'
            } else {
                'V'
            },
        ),
        typed(KeyCode::W, modifiers, capslock) == Some(
            if modifiers.shift == capslock.on {
                'w'
            } else {
                'W'
            },
        ),
        typed(KeyCode::X, modifiers, capslock) == Some(
            if modifiers.shift == capslock.on {
                'x'
            } else {
                'X'
            },
        ),
        typed(KeyCode::Y, modifiers, capslock) == Some(
            if modifiers.shift == capslock.on {
                'y'
            } else {
                'Y'
            },
        ),
        typed(KeyCode::Z, modifiers, capslock) == Some(
            if modifiers.shift == capslock.on {
                'z'
            } else {
                'Z'
            },
        ),
        typed(KeyCode::Key0, modifiers, capslock) == Some(
            if modifiers.shift {
                ')'
            } else {
                '0'
            },
        ),
        typed(KeyCode::Key1, modifiers, capslock) == Some(
            if modifiers.shift {
                '!'
            } else {
                '1'
            },
        ),
        typed(KeyCode::Key2, modifiers, capslock) == Some(
            if modifiers.shift {
                '@'
            } else {
                '2'
            },
        ),
        typed(KeyCode::Key3, modifiers, capslock) == Some(
            if modifiers.shift {
                '#'
            } else {
                '3'
            },
        ),
        typed(KeyCode::Key4, modifiers, capslock) == Some(
            if modifiers.shift {
                '$'
            } else {
                '4'
            },
        ),
        typed(KeyCode::Key5, modifiers, capslock) == Some(
            if modifiers.shift {
                '%'
            } else {
                '5'
            },
        ),
        typed(KeyCode::Key6, modifiers, capslock) == Some(
            if modifiers.shift {
                '^'
            } else {
                '6'
            },
        ),
        typed(KeyCode::Key7, modifiers, capslock) == Some(
            if modifiers.shift {
                '&'
            } else {
                '7'
            },
        ),
        typed(KeyCode::Key8, modifiers, capslock) == Some(
            if modifiers.shift {
                '*'
            } else {
                '8'
            },
        ),
        typed(KeyCode::Key9, modifiers, capslock) == Some(
            if modifiers.shift {
                '('
            } else {
                '9'
            },
        ),
        typed(KeyCode::Comma, modifiers, capslock) == Some(
            if modifiers.shift {
                '<'
            } else {
                ','
            },
        ),
        typed(KeyCode::Period, modifiers, capslock) == Some(
            if modifiers.shift {
                '>'
            } else {
                '.'
            },
        ),
        typed(KeyCode::Grave, modifiers, capslock) == Some(
            if modifiers.shift {
                '~'
            } else {
                '`'
            },
        ),
        typed(KeyCode::Minus, modifiers, capslock) == Some(
            if modifiers.shift {
                '_'
            } else {
                '-'
            },
        ),
        typed(KeyCode::Equals, modifiers, capslock) == Some(
            if modifiers.shift {
                '+'
            } else {
                '='
            },
        ),
        typed(KeyCode::LeftBracket, modifiers, capslock) == Some(
            if modifiers.shift {
                '{'
            } else {
                '['
            },
        ),
        typed(KeyCode::RightBracket, modifiers, capslock) == Some(
            if modifiers.shift {
                '}'
            } else {
                ']'
            },
        ),
        typed(KeyCode::Backslash, modifiers, capslock) == Some(
            if modifiers.shift {
                '|'
            } else {
                '\\'
            },
        ),
        typed(KeyCode::Semicolon, modifiers, capslock) == Some(
            if modifiers.shift {
                ':'
            } else {
                ';'
            },
        ),
        typed(KeyCode::Apostrophe, modifiers, capslock) == Some(
            if modifiers.shift {
                '"'
            } else {
                '\''
            },
        ),
        typed(KeyCode::Slash, modifiers, capslock) == Some(
            if modifiers.shift {
                '?'
            } else {
                '/'
            },
        ),
        typed(KeyCode::DpadUp, modifiers, capslock) is None,
        typed(KeyCode::DpadDown, modifiers, capslock) is None,
        typed(KeyCode::DpadLeft, modifiers, capslock) is None,
        typed(KeyCode::DpadRight, modifiers, capslock) is None,
        typed(KeyCode::DpadCenter, modifiers, capslock) is None,
        typed(KeyCode::Enter, modifiers, capslock) is None,
        typed(KeyCode::NumpadEnter, modifiers, capslock) is None,
        typed(KeyCode::Del, modifiers, capslock) is None,
        typed(KeyCode::ForwardDel, modifiers, capslock) is None,
        typed(KeyCode::Tab, modifiers, capslock) is None,
        typed(KeyCode::Space, modifiers, capslock) is None,
        typed(KeyCode::Escape, modifiers, capslock) is None,
        typed(KeyCode::PageUp, modifiers, capslock) is None,
        typed(KeyCode::PageDown, modifiers, capslock) is None,
        typed(KeyCode::MoveHome, modifiers, capslock) is None,
        typed(KeyCode::MoveEnd, modifiers, capslock) is None,
        typed(KeyCode::Insert, modifiers, capslock) is None,
        typed(KeyCode::F1, modifiers, capslock) is None,
        typed(KeyCode::F2, modifiers, capslock) is None,
        typed(KeyCode::F3, modifiers, capslock) is None,
        typed(KeyCode::F4, modifiers, capslock) is None,
        typed(KeyCode::F5, modifiers, capslock) is None,
        typed(KeyCode::F6, modifiers, capslock) is None,
        typed(KeyCode::F7, modifiers, capslock) is None,
        typed(KeyCode::F8, modifiers, capslock) is None,
        typed(KeyCode::F9, modifiers, capslock) is None,
        typed(KeyCode::F10, modifiers, capslock) is None,
        typed(KeyCode::F11, modifiers, capslock) is None,
        typed(KeyCode::F12, modifiers, capslock) is None,
        typed(KeyCode::CtrlLeft, modifiers, capslock) is None,
        typed(KeyCode::CtrlRight, modifiers, capslock) is None,
        typed(KeyCode::AltLeft, modifiers, capslock) is None,
        typed(KeyCode::AltRight, modifiers, capslock) is None,
        typed(KeyCode::ShiftLeft, modifiers, capslock) is None,
        typed(KeyCode::ShiftRight, modifiers, capslock) is None,
        typed(KeyCode::MetaLeft, modifiers, capslock) is None,
        typed(KeyCode::MetaRight, modifiers, capslock) is None,
        typed(KeyCode::Fn, modifiers, capslock) is None,
        typed(KeyCode::Function, modifiers, capslock) is None,
        typed(KeyCode::CapsLock, modifiers, capslock) is None,
        typed(KeyCode::Other(code), modifiers, capslock) is None,
{
}

/// Control, alt, meta and fn each keep every key from typing.
pub proof fn law_commands_type_nothing(code: KeyCode, modifiers: Modifiers, capslock: Capslock)
    requires
        modifiers.control || modifiers.alt || modifiers.platform || modifiers.function,
    ensures
        typed(code, modifiers, capslock) is None,
{
}

/// The keys that only modify others.
pub proof fn law_modifier_keys(code: KeyCode)
    ensures
        modifies(code) <==> (
            code == KeyCode::CtrlLeft
            || code == KeyCode::CtrlRight
            || code == KeyCode::AltLeft
            || code == KeyCode::AltRight
            || code == KeyCode::ShiftLeft
            || code == KeyCode::ShiftRight
            || code == KeyCode::MetaLeft
            || code == KeyCode::MetaRight
            || code == KeyCode::Fn
            || code == KeyCode::Function
            || code == KeyCode::CapsLock
        ),
{
}

/// A sound state holds a modifier exactly while one of its two keys is down.
pub proof fn law_modifiers_are_held_keys(state: KeyStateView)
    requires
        state.wf(),
    ensures
        state.modifiers.control <==> state.pressed.contains(KeyCode::CtrlLeft)
            || state.pressed.contains(KeyCode::CtrlRight),
        state.modifiers.alt <==> state.pressed.contains(KeyCode::AltLeft)
            || state.pressed.contains(KeyCode::AltRight),
        state.modifiers.shift <==> state.pressed.contains(KeyCode::ShiftLeft)
            || state.pressed.contains(KeyCode::ShiftRight),
        state.modifiers.platform <==> state.pressed.contains(KeyCode::MetaLeft)
            || state.pressed.contains(KeyCode::MetaRight),
        state.modifiers.function <==> state.pressed.contains(KeyCode::Fn)
            || state.pressed.contains(KeyCode::Function),
{
}

/// A key is down from its press to its release; another key's movement does not
/// change that, and the caps lock turns exactly with a fresh press of its own key.
pub proof fn law_keys_are_down_until_released(
    state: KeyStateView,
    event: KeyEventData,
    key: KeyCode,
)
    ensures
        state.after(event).pressed.contains(key) <==> if key == event.code && event.action
            == Action::Down {
            true
        } else if key == event.code && event.action == Action::Up {
            false
        } else {
            state.pressed.contains(key)
        },
        state.after(event).capslock.on != state.capslock.on <==> event.code == KeyCode::CapsLock
            && event.action == Action::Down && !state.pressed.contains(KeyCode::CapsLock),
{
}

/// What a key movement makes: first the modifiers and the caps lock as they are now,
/// where either changed; then the key by its name, where it has one and is no
/// modifier, with the modifiers as they are now, with what it types under them, and
/// with whether it was down already.
pub proof fn law_key_movement_is_told(state: KeyStateView, event: KeyEventData)
    requires
        event.action != Action::Unknown,
    ensures
        ({
            let next = state.after(event);
            let told = state.reports(event);
            let changed = next.modifiers != state.modifiers || next.capslock != state.capslock;
            let named = name_of(event.code) is Some && !modifies(event.code);
            let keystroke = KeystrokeView {
                modifiers: next.modifiers,
                key: name_of(event.code)->0,
                key_char: match typed(event.code, next.modifiers, next.capslock) {
                    Some(c) => Some(seq![c]),
                    None => None,
                },
            };
            &&& told.len() == (if changed {
                1int
            } else {
                0int
            }) + (if named {
                1int
            } else {
                0int
            })
            &&& changed ==> told[0] == (PlatformInputView::ModifiersChanged {
                modifiers: next.modifiers,
                capslock: next.capslock,
            })
            &&& named && event.action == Action::Down ==> told.last() == (
            PlatformInputView::KeyDown {
                keystroke,
                is_held: state.pressed.contains(event.code),
                prefer_character_input: false,
            })
            &&& named && event.action == Action::Up ==> told.last() == (PlatformInputView::KeyUp {
                keystroke,
            })
        }),
{
}

/// A movement that the system does not name changes nothing and tells nothing.
pub proof fn law_unknown_movement_is_ignored(state: KeyStateView, code: KeyCode)
    ensures
        state.after(KeyEventData { code, action: Action::Unknown }) == state,
        state.reports(KeyEventData { code, action: Action::Unknown }).len() == 0,
{
}

/// Once every key is up no key and no modifier is held; the caps lock stays.
pub proof fn law_cleared_keyboard_holds_nothing(state: KeyStateView, key: KeyCode)
    ensures
        !state.cleared().pressed.contains(key),
        !state.cleared().modifiers.control,
        !state.cleared().modifiers.alt,
        !state.cleared().modifiers.shift,
        !state.cleared().modifiers.platform,
        !state.cleared().modifiers.function,
        state.cleared().capslock == state.capslock,
        state.cleared().wf(),
        state.modifiers_event() == (PlatformInputView::ModifiersChanged {
            modifiers: state.modifiers,
            capslock: state.capslock,
        }),
{
}

} // verus!
