//! The input events that a window hands to GPUI.

use vstd::prelude::*;

verus! {

/// The modifier keys that are held.
#[derive(Clone, Copy, Debug, PartialEq, Eq, Structural)]
pub struct Modifiers {
    pub control: bool,
    pub alt: bool,
    pub shift: bool,
    pub platform: bool,
    pub function: bool,
}

/// No modifier key at all.
pub open spec fn no_modifiers() -> Modifiers {
    Modifiers { control: false, alt: false, shift: false, platform: false, function: false }
}

impl Default for Modifiers {
    fn default() -> (r: Modifiers)
        ensures
            r == no_modifiers(),
    {
        Modifiers { control: false, alt: false, shift: false, platform: false, function: false }
    }
}

/// The state of the caps lock.
#[derive(Clone, Copy, Debug, PartialEq, Eq, Structural)]
pub struct Capslock {
    pub on: bool,
}

impl Default for Capslock {
    fn default() -> (r: Capslock)
        ensures
            !r.on,
    {
        Capslock { on: false }
    }
}

/// A point in logical pixels. Each coordinate is the bit pattern of an `f32`,
/// which is carried as it is.
#[derive(Clone, Copy, Debug, PartialEq, Eq, Structural)]
pub struct Position {
    pub x: u32,
    pub y: u32,
}

/// A key together with what was held when it moved.
#[derive(Clone, Debug, PartialEq, Eq)]
pub struct Keystroke {
    pub modifiers: Modifiers,
    pub key: String,
    /// The text that the key types.
    pub key_char: Option<String>,
}

/// What a keystroke holds.
pub struct KeystrokeView {
    pub modifiers: Modifiers,
    pub key: Seq<char>,
    pub key_char: Option<Seq<char>>,
}

/// The text in an optional string.
pub open spec fn text_view(text: Option<String>) -> Option<Seq<char>> {
    match text {
        Some(text) => Some(text@),
        None => None,
    }
}

impl View for Keystroke {
    type V = KeystrokeView;

    open spec fn view(&self) -> KeystrokeView {
        KeystrokeView {
            modifiers: self.modifiers,
            key: self.key@,
            key_char: text_view(self.key_char),
        }
    }
}

/// The stage of a touch or of a scroll.
#[derive(Clone, Copy, Debug, PartialEq, Eq, Structural)]
pub enum TouchPhase {
    Started,
    Moved,
    Ended,
    Cancelled,
}

/// One finger's movement.
#[derive(Clone, Copy, Debug, PartialEq, Eq, Structural)]
pub struct TouchEvent {
    /// Names one touch from its start to its end.
    pub id: u64,
    pub phase: TouchPhase,
    pub position: Position,
    pub predicted_position: Option<Position>,
    /// The bit pattern of the pressure as an `f32`.
    pub force: Option<u32>,
}

/// Where a navigation button leads.
#[derive(Clone, Copy, Debug, PartialEq, Eq, Structural)]
pub enum NavigationDirection {
    Back,
    Forward,
}

/// A mouse button.
#[derive(Clone, Copy, Debug, PartialEq, Eq, Structural)]
pub enum MouseButton {
    Left,
    Right,
    Middle,
    Navigate(NavigationDirection),
}

#[derive(Clone, Copy, Debug, PartialEq, Eq, Structural)]
pub struct MouseDownEvent {
    pub button: MouseButton,
    pub position: Position,
    pub modifiers: Modifiers,
    pub click_count: usize,
    pub first_mouse: bool,
}

#[derive(Clone, Copy, Debug, PartialEq, Eq, Structural)]
pub struct MouseUpEvent {
    pub button: MouseButton,
    pub position: Position,
    pub modifiers: Modifiers,
    pub click_count: usize,
}

#[derive(Clone, Copy, Debug, PartialEq, Eq, Structural)]
pub struct MouseMoveEvent {
    pub position: Position,
    pub pressed_button: Option<MouseButton>,
    pub modifiers: Modifiers,
}

/// A scroll by `delta` logical pixels.
#[derive(Clone, Copy, Debug, PartialEq, Eq, Structural)]
pub struct ScrollWheelEvent {
    pub position: Position,
    pub delta: Position,
    pub modifiers: Modifiers,
    pub touch_phase: TouchPhase,
}

/// An input event of a window.
#[derive(Clone, Debug, PartialEq, Eq)]
pub enum PlatformInput {
    ModifiersChanged { modifiers: Modifiers, capslock: Capslock },
    KeyDown { keystroke: Keystroke, is_held: bool, prefer_character_input: bool },
    KeyUp { keystroke: Keystroke },
    Touch(TouchEvent),
    MouseDown(MouseDownEvent),
    MouseUp(MouseUpEvent),
    MouseMove(MouseMoveEvent),
    ScrollWheel(ScrollWheelEvent),
}

/// What an input event holds.
pub enum PlatformInputView {
    ModifiersChanged { modifiers: Modifiers, capslock: Capslock },
    KeyDown { keystroke: KeystrokeView, is_held: bool, prefer_character_input: bool },
    KeyUp { keystroke: KeystrokeView },
    Touch(TouchEvent),
    MouseDown(MouseDownEvent),
    MouseUp(MouseUpEvent),
    MouseMove(MouseMoveEvent),
    ScrollWheel(ScrollWheelEvent),
}

impl View for PlatformInput {
    type V = PlatformInputView;

    open spec fn view(&self) -> PlatformInputView {
        match *self {
            PlatformInput::ModifiersChanged { modifiers, capslock } =>
                PlatformInputView::ModifiersChanged { modifiers, capslock },
            PlatformInput::KeyDown { keystroke, is_held, prefer_character_input } =>
                PlatformInputView::KeyDown {
                keystroke: keystroke@,
                is_held,
                prefer_character_input,
            },
            PlatformInput::KeyUp { keystroke } => PlatformInputView::KeyUp {
                keystroke: keystroke@,
            },
            PlatformInput::Touch(event) => PlatformInputView::Touch(event),
            PlatformInput::MouseDown(event) => PlatformInputView::MouseDown(event),
            PlatformInput::MouseUp(event) => PlatformInputView::MouseUp(event),
            PlatformInput::MouseMove(event) => PlatformInputView::MouseMove(event),
            PlatformInput::ScrollWheel(event) => PlatformInputView::ScrollWheel(event),
        }
    }
}

/// What a list of input events holds.
pub open spec fn input_views(inputs: Seq<PlatformInput>) -> Seq<PlatformInputView> {
    inputs.map_values(|input: PlatformInput| input@)
}

} // verus!
