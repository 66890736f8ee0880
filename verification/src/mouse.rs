//! Mouse input: which button is held and how many clicks it makes.

use crate::input::Modifiers;
use crate::input::MouseButton;
use crate::input::MouseDownEvent;
use crate::input::MouseMoveEvent;
use crate::input::MouseUpEvent;
use crate::input::NavigationDirection;
use crate::input::Position;
use vstd::prelude::*;

verus! {

/// A mouse button as the system names it.
#[derive(Clone, Copy, Debug, PartialEq, Eq, Structural)]
pub enum SystemButton {
    NoneButton,
    LeftButton,
    RightButton,
    MiddleButton,
    BackButton,
    ForwardButton,
}

/// What the mouse did.
#[derive(Clone, Copy, Debug, PartialEq, Eq, Structural)]
pub enum MouseAction {
    Nothing,
    Press,
    Release,
    Move,
}

/// A mouse event of the system.
#[derive(Clone, Copy, Debug, PartialEq, Eq, Structural)]
pub struct MouseEventData {
    pub position: Position,
    pub action: MouseAction,
    pub button: SystemButton,
}

/// What decides whether a press goes on a series of clicks.
#[derive(Clone, Copy, Debug, PartialEq, Eq, Structural)]
pub struct ClickTiming {
    /// The time of the press, in nanoseconds.
    pub now: u128,
    /// The longest time between two clicks of a series, in nanoseconds.
    pub interval: u128,
    /// Whether the press is close enough to the last one.
    pub near: bool,
}

/// The last press of a button.
#[derive(Clone, Copy, Debug, PartialEq, Eq, Structural)]
pub struct MouseClickState {
    pub button: MouseButton,
    pub position: Position,
    /// In nanoseconds.
    pub time: u128,
    /// How many clicks the series has so far.
    pub count: usize,
}

/// The mouse of one window.
#[derive(Clone, Copy, Debug, PartialEq, Eq, Structural)]
pub struct MouseState {
    pub pressed: Option<MouseButton>,
    pub click: Option<MouseClickState>,
}

/// The button that the system means.
pub open spec fn button_of(button: SystemButton) -> Option<MouseButton> {
    match button {
        SystemButton::NoneButton => None,
        SystemButton::LeftButton => Some(MouseButton::Left),
        SystemButton::RightButton => Some(MouseButton::Right),
        SystemButton::MiddleButton => Some(MouseButton::Middle),
        SystemButton::BackButton => Some(MouseButton::Navigate(NavigationDirection::Back)),
        SystemButton::ForwardButton => Some(MouseButton::Navigate(NavigationDirection::Forward)),
    }
}

/// The first of two buttons that is one.
pub open spec fn first_button(a: Option<MouseButton>, b: Option<MouseButton>) -> Option<
    MouseButton,
> {
    if a is Some {
        a
    } else {
        b
    }
}

/// The button that the system means; `None` for no button.
pub fn mouse_button(button: SystemButton) -> (r: Option<MouseButton>)
    ensures
        r == button_of(button),
{
    match button {
        SystemButton::NoneButton => None,
        SystemButton::LeftButton => Some(MouseButton::Left),
        SystemButton::RightButton => Some(MouseButton::Right),
        SystemButton::MiddleButton => Some(MouseButton::Middle),
        SystemButton::BackButton => Some(MouseButton::Navigate(NavigationDirection::Back)),
        SystemButton::ForwardButton => Some(MouseButton::Navigate(NavigationDirection::Forward)),
    }
}

impl MouseState {
    /// A series of clicks counts from one.
    pub open spec fn wf(self) -> bool {
        self.click is Some ==> self.click->0.count >= 1
    }

    /// Whether a press goes on the last series of clicks: the same button, soon
    /// enough, close enough.
    pub open spec fn continues(self, button: MouseButton, timing: ClickTiming) -> bool {
        &&& self.click is Some
        &&& self.click->0.button == button
        &&& timing.now - self.click->0.time <= timing.interval
        &&& timing.near
    }

    /// The number of clicks in the series that a press belongs to.
    pub open spec fn count_for(self, button: MouseButton, timing: ClickTiming) -> int {
        if self.continues(button, timing) {
            if self.click->0.count < usize::MAX {
                self.click->0.count + 1
            } else {
                usize::MAX as int
            }
        } else {
            1
        }
    }

    /// The mouse after a press.
    pub open spec fn after_press(
        self,
        button: MouseButton,
        position: Position,
        timing: ClickTiming,
    ) -> MouseState {
        MouseState {
            pressed: Some(button),
            click: Some(
                MouseClickState {
                    button,
                    position,
                    time: timing.now,
                    count: self.count_for(button, timing) as usize,
                },
            ),
        }
    }

    /// The number of clicks that a release of a button ends.
    pub open spec fn count_of(self, button: MouseButton) -> usize {
        if self.click is Some && self.click->0.button == button {
            self.click->0.count
        } else {
            1
        }
    }

    /// What a release leads to: the button that the system names, else the one
    /// that was held, comes up.
    pub open spec fn released(
        self,
        named: Option<MouseButton>,
        position: Position,
        modifiers: Modifiers,
    ) -> Option<MouseUpEvent> {
        match first_button(named, self.pressed) {
            Some(button) => Some(
                MouseUpEvent { button, position, modifiers, click_count: self.count_of(button) },
            ),
            None => None,
        }
    }

    /// The mouse without a button held.
    pub open spec fn lifted(self) -> MouseState {
        MouseState { pressed: None, click: self.click }
    }

    /// A mouse that did nothing yet.
    pub fn new() -> (r: MouseState)
        ensures
            r.wf(),
            r.pressed is None,
            r.click is None,
    {
        MouseState { pressed: None, click: None }
    }

    /// Where the last press was.
    pub fn last_position(&self) -> (r: Option<Position>)
        ensures
            r == match self.click {
                Some(click) => Some(click.position),
                None => None,
            },
    {
        match self.click {
            Some(click) => Some(click.position),
            None => None,
        }
    }

    /// Takes a press.
    pub fn press(
        &mut self,
        button: MouseButton,
        position: Position,
        timing: ClickTiming,
        modifiers: Modifiers,
    ) -> (r: MouseDownEvent)
        ensures
            *final(self) == old(self).after_press(button, position, timing),
            r == (MouseDownEvent {
                button,
                position,
                modifiers,
                click_count: old(self).count_for(button, timing) as usize,
                first_mouse: false,
            }),
    {
        let click_count: usize = match self.click {
            Some(last) => if last.button == button && timing.now.saturating_sub(last.time)
                <= timing.interval && timing.near {
                last.count.saturating_add(1)
            } else {
                1
            },
            None => 1,
        };
        self.click = Some(
            MouseClickState { button, position, time: timing.now, count: click_count },
        );
        self.pressed = Some(button);
        MouseDownEvent { button, position, modifiers, click_count, first_mouse: false }
    }

    /// Takes a release. `named` is the button that the system names.
    pub fn release(
        &mut self,
        named: Option<MouseButton>,
        position: Position,
        modifiers: Modifiers,
    ) -> (r: Option<MouseUpEvent>)
        ensures
            *final(self) == old(self).lifted(),
            r == old(self).released(named, position, modifiers),
    {
        let button = match named {
            Some(button) => Some(button),
            None => self.pressed,
        };
        self.pressed = None;
        match button {
            Some(button) => {
                let click_count: usize = match self.click {
                    Some(click) => if click.button == button {
                        click.count
                    } else {
                        1
                    },
                    None => 1,
                };
                Some(MouseUpEvent { button, position, modifiers, click_count })
            },
            None => None,
        }
    }

    /// Takes a movement. `named` is the button that the system names.
    pub fn move_to(
        &self,
        named: Option<MouseButton>,
        position: Position,
        modifiers: Modifiers,
    ) -> (r: MouseMoveEvent)
        ensures
            r == (MouseMoveEvent {
                position,
                pressed_button: first_button(self.pressed, named),
                modifiers,
            }),
    {
        let pressed_button = match self.pressed {
            Some(button) => Some(button),
            None => named,
        };
        MouseMoveEvent { position, pressed_button, modifiers }
    }
}

/// A press at once and in place after a press of the same button counts one
/// click more, up to the largest count there is.
pub proof fn law_quick_presses_count_up(
    state: MouseState,
    button: MouseButton,
    first: ClickTiming,
    first_position: Position,
    second: ClickTiming,
)
    requires
        second.near,
        second.now - first.now <= second.interval,
        state.count_for(button, first) < usize::MAX,
    ensures
        state.after_press(button, first_position, first).count_for(button, second)
            == state.count_for(button, first) + 1,
{
}

/// A press of another button, a late one or one elsewhere starts a new series.
pub proof fn law_other_presses_start_anew(
    state: MouseState,
    button: MouseButton,
    position: Position,
    first: ClickTiming,
    other: MouseButton,
    second: ClickTiming,
)
    requires
        other != button || !second.near || second.now - first.now > second.interval,
    ensures
        state.after_press(button, position, first).count_for(other, second) == 1,
{
}

/// Every press keeps a series counting from one, and a release or a movement
/// leaves the series alone.
pub proof fn law_clicks_count_from_one(
    state: MouseState,
    button: MouseButton,
    position: Position,
    timing: ClickTiming,
)
    requires
        state.wf(),
    ensures
        state.after_press(button, position, timing).wf(),
        state.lifted().wf(),
        1 <= state.count_for(button, timing) <= usize::MAX,
        state.lifted().click == state.click,
{
}

/// The release of a pressed button reports that button and as many clicks as
/// its press did, whether or not the system names the button.
pub proof fn law_release_matches_press(
    state: MouseState,
    button: MouseButton,
    position: Position,
    timing: ClickTiming,
    named: Option<MouseButton>,
    up: Position,
    modifiers: Modifiers,
)
    requires
        state.wf(),
        named is None || named == Some(button),
    ensures
        ({
            let pressed = state.after_press(button, position, timing);
            &&& pressed.released(named, up, modifiers) == Some(
                MouseUpEvent {
                    button,
                    position: up,
                    modifiers,
                    click_count: state.count_for(button, timing) as usize,
                },
            )
            &&& pressed.lifted().pressed is None
        }),
{
}

/// The buttons of the mouse; the system's word for no button names none.
pub proof fn law_mouse_buttons()
    ensures
        button_of(SystemButton::NoneButton) is None,
        button_of(SystemButton::LeftButton) == Some(MouseButton::Left),
        button_of(SystemButton::RightButton) == Some(MouseButton::Right),
        button_of(SystemButton::MiddleButton) == Some(MouseButton::Middle),
        button_of(SystemButton::BackButton) == Some(
            MouseButton::Navigate(NavigationDirection::Back),
        ),
        button_of(SystemButton::ForwardButton) == Some(
            MouseButton::Navigate(NavigationDirection::Forward),
        ),
{
}

/// A press is remembered as it was: the button is held, and the button, its place and
/// its time are what the next press is held against.
pub proof fn law_press_is_remembered(
    state: MouseState,
    button: MouseButton,
    position: Position,
    timing: ClickTiming,
)
    ensures
        ({
            let next = state.after_press(button, position, timing);
            &&& next.pressed == Some(button)
            &&& next.click is Some
            &&& next.click->0.button == button
            &&& next.click->0.position == position
            &&& next.click->0.time == timing.now
            &&& next.click->0.count == state.count_for(button, timing)
        }),
{
}

/// A press counts one click more than the last press exactly where that was of the same
/// button, close by and no longer ago than the interval; otherwise it is the first.
pub proof fn law_press_counts_clicks(state: MouseState, button: MouseButton, timing: ClickTiming)
    ensures
        ({
            let again = state.click is Some && state.click->0.button == button && timing.near
                && timing.now <= state.click->0.time + timing.interval;
            &&& again && state.click->0.count < usize::MAX ==> state.count_for(button, timing)
                == state.click->0.count + 1
            &&& again && state.click->0.count == usize::MAX ==> state.count_for(button, timing)
                == usize::MAX
            &&& !again ==> state.count_for(button, timing) == 1
        }),
{
}

/// A release is of the button that the system names, or else of the one that is held;
/// it carries its place, the modifiers, and the clicks of that button's last press.
/// With neither button there is nothing to tell. No button is held afterwards, and
/// the series of clicks goes on.
pub proof fn law_release_tells_button(
    state: MouseState,
    named: Option<MouseButton>,
    position: Position,
    modifiers: Modifiers,
)
    ensures
        ({
            let up = state.released(named, position, modifiers);
            &&& up is None <==> named is None && state.pressed is None
            &&& up is Some ==> {
                &&& named is Some ==> up->0.button == named->0
                &&& named is None ==> up->0.button == state.pressed->0
                &&& up->0.position == position
                &&& up->0.modifiers == modifiers
                &&& state.click is Some && state.click->0.button == up->0.button
                    ==> up->0.click_count == state.click->0.count
                &&& state.click is None || state.click->0.button != up->0.button
                    ==> up->0.click_count == 1
            }
            &&& state.lifted().pressed is None
            &&& state.lifted().click == state.click
        }),
{
}

/// While the mouse moves the held button counts, and only without one the button that
/// the system names.
pub proof fn law_held_button_counts_first(held: Option<MouseButton>, named: Option<MouseButton>)
    ensures
        held is Some ==> first_button(held, named) == held,
        held is None ==> first_button(held, named) == named,
{
}

} // verus!
