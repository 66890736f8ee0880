use gpui_ohos::input::{Modifiers, MouseButton, NavigationDirection, Position};
use gpui_ohos::mouse::{mouse_button, ClickTiming, MouseState, SystemButton};

const HERE: Position = Position { x: 1, y: 2 };
const NONE: Modifiers = Modifiers {
    control: false,
    alt: false,
    shift: false,
    platform: false,
    function: false,
};

fn timing(now: u128, near: bool) -> ClickTiming {
    ClickTiming { now, interval: 100, near }
}

#[test]
fn system_buttons() {
    assert_eq!(mouse_button(SystemButton::NoneButton), None);
    assert_eq!(mouse_button(SystemButton::LeftButton), Some(MouseButton::Left));
    assert_eq!(mouse_button(SystemButton::RightButton), Some(MouseButton::Right));
    assert_eq!(mouse_button(SystemButton::MiddleButton), Some(MouseButton::Middle));
    assert_eq!(
        mouse_button(SystemButton::BackButton),
        Some(MouseButton::Navigate(NavigationDirection::Back))
    );
    assert_eq!(
        mouse_button(SystemButton::ForwardButton),
        Some(MouseButton::Navigate(NavigationDirection::Forward))
    );
}

#[test]
fn double_click_counts_two() {
    let mut mouse = MouseState::new();
    let first = mouse.press(MouseButton::Left, HERE, timing(1000, false), NONE);
    assert_eq!(first.click_count, 1);
    assert!(!first.first_mouse);
    let up = mouse.release(None, HERE, NONE).unwrap();
    assert_eq!((up.button, up.click_count), (MouseButton::Left, 1));
    let second = mouse.press(MouseButton::Left, HERE, timing(1100, true), NONE);
    assert_eq!(second.click_count, 2);
    let up = mouse.release(Some(MouseButton::Left), HERE, NONE).unwrap();
    assert_eq!(up.click_count, 2);
    assert_eq!(mouse.last_position(), Some(HERE));
}

#[test]
fn late_far_or_other_press_starts_anew() {
    for (button, at) in [
        (MouseButton::Left, timing(1101, true)),
        (MouseButton::Left, timing(1050, false)),
        (MouseButton::Right, timing(1050, true)),
    ] {
        let mut mouse = MouseState::new();
        mouse.press(MouseButton::Left, HERE, timing(1000, true), NONE);
        assert_eq!(mouse.press(button, HERE, at, NONE).click_count, 1);
    }
}

#[test]
fn clock_going_back_counts_as_no_time() {
    let mut mouse = MouseState::new();
    mouse.press(MouseButton::Left, HERE, timing(1000, true), NONE);
    assert_eq!(mouse.press(MouseButton::Left, HERE, timing(1, true), NONE).click_count, 2);
}

#[test]
fn count_stops_at_the_largest() {
    let mut mouse = MouseState::new();
    mouse.press(MouseButton::Left, HERE, timing(1000, true), NONE);
    if let Some(click) = &mut mouse.click {
        click.count = usize::MAX;
    }
    let down = mouse.press(MouseButton::Left, HERE, timing(1001, true), NONE);
    assert_eq!(down.click_count, usize::MAX);
}

#[test]
fn release_without_a_button_is_nothing() {
    let mut mouse = MouseState::new();
    assert_eq!(mouse.release(None, HERE, NONE), None);
    let up = mouse.release(Some(MouseButton::Right), HERE, NONE).unwrap();
    assert_eq!((up.button, up.click_count), (MouseButton::Right, 1));
}

#[test]
fn movement_names_the_held_button() {
    let mut mouse = MouseState::new();
    assert_eq!(mouse.move_to(None, HERE, NONE).pressed_button, None);
    assert_eq!(
        mouse.move_to(Some(MouseButton::Right), HERE, NONE).pressed_button,
        Some(MouseButton::Right)
    );
    mouse.press(MouseButton::Left, HERE, timing(1, true), NONE);
    assert_eq!(
        mouse.move_to(Some(MouseButton::Right), HERE, NONE).pressed_button,
        Some(MouseButton::Left)
    );
}
