use gpui_ohos::geometry::{AvoidArea, AvoidAreaType, Rect, WindowGeometry};
use gpui_ohos::ime::{ImeEvent, KeyboardStatus};
use gpui_ohos::input::{
    MouseButton, PlatformInput, Position, ScrollWheelEvent, TouchPhase,
};
use gpui_ohos::keyboard::{Action, KeyCode, KeyEventData};
use gpui_ohos::mouse::{ClickTiming, MouseAction, MouseEventData, SystemButton};
use gpui_ohos::renderer::{RendererError, RendererPlan, SurfaceFacts, SurfacePlan};
use gpui_ohos::touch::{
    RawTouch, TapDistance, TouchEventData, TouchEventType, TouchPointData,
};
use gpui_ohos::window::{
    background_color, ime_position_accepted, request_resize, should_close, window_controls,
    AtlasSource, AxisAction, AxisEventData, ColorMode, Event, InputEvent, KeyboardRequest,
    OhosWindow, TextInputStateChange, WindowAction, WindowAppearance, WindowBackgroundAppearance,
    WindowFacts, WindowInsets, WindowStep, WindowVisibility, ZoomRequest,
};

const NO_INSETS: WindowInsets = WindowInsets { top: 0, right: 0, bottom: 0, left: 0 };
const HERE: Position = Position { x: 10, y: 20 };

fn rect(top: i32, left: i32, width: i32, height: i32) -> Rect {
    Rect { top, left, width, height }
}

fn facts(geometry: Option<WindowGeometry>) -> WindowFacts {
    WindowFacts {
        geometry,
        insets: NO_INSETS,
        timing: ClickTiming { now: 0, interval: 100, near: true },
        cursor_hidden: false,
        targets_text_input: true,
        distance: TapDistance::Within,
    }
}

fn screen(keyboard: bool) -> WindowGeometry {
    let empty = rect(0, 0, 0, 0);
    WindowGeometry {
        content_rect: rect(0, 0, 1000, 2000),
        window_rect: rect(0, 0, 1000, 2000),
        system: None,
        cutout: None,
        system_gesture: None,
        keyboard: Some(AvoidArea {
            visible: keyboard,
            left_rect: empty,
            top_rect: empty,
            right_rect: empty,
            bottom_rect: rect(1400, 0, 1000, 600),
        }),
        navigation_indicator: None,
    }
}

/// Performs the steps of an event and gives everything that has to be done.
fn run(window: &mut OhosWindow, event: &Event, facts: &WindowFacts) -> Vec<WindowAction> {
    let mut actions = Vec::new();
    for step in window.handle_event(event) {
        assert!(window.is_in_range(&step, facts));
        actions.extend(window.perform(&step, facts));
    }
    actions
}

fn main_window() -> OhosWindow {
    OhosWindow::new(0, Some(ColorMode::Light), false)
}

#[test]
fn new_windows() {
    let window = OhosWindow::new(0, Some(ColorMode::Dark), false);
    assert!(window.is_active());
    assert_eq!(window.appearance(), WindowAppearance::Dark);
    assert_eq!(window.visibility(), WindowVisibility::Visible);
    assert_eq!(window.background_appearance(), WindowBackgroundAppearance::Opaque);
    assert!(!window.is_maximized() && !window.is_fullscreen() && !window.is_hovered());
    assert_eq!(window.mouse_position(), Position { x: 0, y: 0 });
    assert_eq!(window.keyboard_overlap_device_px(), 0);
    assert!(!window.destroys_on_drop());
    let child = OhosWindow::new(4, None, true);
    assert!(!child.is_active());
    assert_eq!(child.window_id(), 4);
    assert_eq!(child.appearance(), WindowAppearance::Light);
    assert!(child.destroys_on_drop());
    assert_eq!(child.sprite_atlas(), AtlasSource::Fallback);
}

#[test]
fn surface_comes_and_goes() {
    let mut window = main_window();
    let mut at = facts(Some(screen(true)));
    at.insets = WindowInsets { top: 1, ..NO_INSETS };
    assert_eq!(
        run(&mut window, &Event::SurfaceCreate, &at),
        vec![
            WindowAction::InitializeRenderer,
            WindowAction::EmitResize,
            WindowAction::InsetsChanged(at.insets),
        ]
    );
    assert_eq!(window.keyboard_overlap_device_px(), 600);
    assert_eq!(run(&mut window, &Event::SurfaceCreate, &at), vec![WindowAction::InitializeRenderer]);
    window.renderer_created(Ok(())).unwrap();
    assert!(!window.needs_renderer());
    assert_eq!(window.sprite_atlas(), AtlasSource::Renderer);
    run(&mut window, &Event::Input(InputEvent::Hover(true)), &at);
    assert_eq!(
        run(&mut window, &Event::SurfaceDestroy, &at),
        vec![WindowAction::DropRenderer, WindowAction::HoverChanged(false)]
    );
    assert!(window.needs_renderer());
    assert_eq!(window.sprite_atlas(), AtlasSource::Fallback);
}

#[test]
fn resize_takes_the_drawable_surface() {
    let mut window = main_window();
    let event = Event::WindowResize { window_id: 0, width: 1000, height: 2100 };
    assert_eq!(
        run(&mut window, &event, &facts(Some(screen(false)))),
        vec![WindowAction::SetSize { width: 1000, height: 2000 }, WindowAction::EmitResize]
    );
    window.renderer_created(Ok(())).unwrap();
    assert_eq!(
        run(&mut window, &event, &facts(None)),
        vec![
            WindowAction::SetSize { width: 1000, height: 2100 },
            WindowAction::SetDrawableSize { width: 1000, height: 2100 },
            WindowAction::EmitResize,
        ]
    );
}

#[test]
fn other_windows_sizes_are_ignored() {
    let window = main_window();
    let resize = Event::WindowResize { window_id: 1, width: 1, height: 1 };
    assert_eq!(window.handle_event(&resize), vec![]);
    let moved = Event::ContentRectChange { window_id: 1, rect: rect(0, 0, 1, 1) };
    assert_eq!(window.handle_event(&moved), vec![]);
    assert_eq!(window.handle_event(&Event::Other), vec![]);
    assert_eq!(window.handle_event(&Event::NewWant { uri: "a:b".to_owned() }), vec![]);
}

#[test]
fn move_adds_the_surface_offset() {
    let mut window = main_window();
    let mut geometry = screen(false);
    geometry.content_rect.top = 7;
    geometry.content_rect.left = 3;
    let event = Event::ContentRectChange { window_id: 0, rect: rect(100, 200, 1, 1) };
    assert_eq!(
        run(&mut window, &event, &facts(Some(geometry))),
        vec![WindowAction::SetOrigin { left: 203, top: 107 }]
    );
    let far = WindowStep::MoveTo { rect: rect(i32::MAX, 0, 1, 1) };
    assert!(!window.is_in_range(&far, &facts(Some(geometry))));
}

#[test]
fn avoid_areas_measure_only_what_can_hide() {
    let window = main_window();
    for area_type in [
        AvoidAreaType::Keyboard,
        AvoidAreaType::System,
        AvoidAreaType::SystemGesture,
        AvoidAreaType::NavigationIndicator,
    ] {
        assert_eq!(
            window.handle_event(&Event::AvoidAreaChange { area_type }),
            vec![WindowStep::RefreshOverlap { report: true }, WindowStep::RefreshInsets]
        );
    }
    for area_type in [AvoidAreaType::Cutout, AvoidAreaType::Unknown(8)] {
        assert_eq!(
            window.handle_event(&Event::AvoidAreaChange { area_type }),
            vec![WindowStep::RefreshInsets]
        );
    }
}

#[test]
fn visibility_is_told_once() {
    let mut window = main_window();
    let at = facts(None);
    assert_eq!(run(&mut window, &Event::Start, &at), vec![]);
    assert_eq!(
        run(&mut window, &Event::Stop, &at),
        vec![WindowAction::VisibilityChanged(WindowVisibility::Hidden)]
    );
    assert_eq!(run(&mut window, &Event::Stop, &at), vec![]);
    assert_eq!(window.visibility(), WindowVisibility::Hidden);
    assert_eq!(run(&mut window, &Event::WindowRedraw, &at), vec![WindowAction::RequestFrame]);
}

#[test]
fn lost_focus_resets_the_window() {
    let mut window = main_window();
    let at = facts(Some(screen(false)));
    run(&mut window, &Event::Input(InputEvent::Hover(true)), &at);
    let shift = KeyEventData { code: KeyCode::ShiftLeft, action: Action::Down };
    run(&mut window, &Event::Input(InputEvent::Key(shift)), &at);
    assert!(window.modifiers().shift);
    let press = MouseEventData {
        position: HERE,
        action: MouseAction::Press,
        button: SystemButton::LeftButton,
    };
    run(&mut window, &Event::Input(InputEvent::Mouse(press)), &at);
    assert_eq!(window.last_click_position(), Some(HERE));
    run(&mut window, &Event::KeyboardEvent { height: 600 }, &at);
    assert_eq!(window.keyboard_overlap_device_px(), 0);
    assert!(window.keyboard_visible());
    let lost = Event::WindowFocusChanged { window_id: 0, focused: false };
    let actions = run(&mut window, &lost, &at);
    assert_eq!(actions.len(), 4);
    assert_eq!(actions[0], WindowAction::ActiveChanged(false));
    assert_eq!(actions[1], WindowAction::HoverChanged(false));
    assert!(matches!(
        &actions[2],
        WindowAction::Dispatch(PlatformInput::ModifiersChanged { .. })
    ));
    assert_eq!(actions[3], WindowAction::HideKeyboard);
    assert!(!window.is_active() && !window.is_hovered() && !window.keyboard_visible());
    assert!(!window.modifiers().shift);
    assert!(!window.capslock().on);
    assert_eq!(window.last_click_position(), None);
    assert_eq!(run(&mut window, &lost, &at), vec![]);
    let elsewhere = Event::WindowFocusChanged { window_id: 3, focused: true };
    assert_eq!(run(&mut window, &elsewhere, &at), vec![]);
    let gained = Event::WindowFocusChanged { window_id: 0, focused: true };
    assert_eq!(run(&mut window, &gained, &at), vec![WindowAction::ActiveChanged(true)]);
}

#[test]
fn configuration_changes_the_look() {
    let mut window = main_window();
    let at = facts(None);
    assert_eq!(
        run(&mut window, &Event::ConfigChanged { color_mode: ColorMode::Dark }, &at),
        vec![WindowAction::AppearanceChanged, WindowAction::ReadScale, WindowAction::EmitResize]
    );
    assert_eq!(
        run(&mut window, &Event::ConfigChanged { color_mode: ColorMode::Dark }, &at),
        vec![WindowAction::ReadScale, WindowAction::EmitResize]
    );
    run(&mut window, &Event::ConfigChanged { color_mode: ColorMode::NoSet }, &at);
    assert_eq!(window.appearance(), WindowAppearance::Light);
}

#[test]
fn destruction_asks_to_close() {
    let mut window = main_window();
    let actions = run(&mut window, &Event::WindowDestroy, &facts(None));
    assert_eq!(
        actions,
        vec![
            WindowAction::VisibilityChanged(WindowVisibility::Hidden),
            WindowAction::AskToClose,
        ]
    );
    assert!(!window.is_active());
    assert!(should_close(None));
    assert!(should_close(Some(true)));
    assert!(!should_close(Some(false)));
}

#[test]
fn keyboard_height_measures_the_overlap() {
    let mut window = main_window();
    let mut geometry = screen(false);
    geometry.system = geometry.keyboard;
    let at = facts(Some(geometry));
    assert_eq!(
        run(&mut window, &Event::KeyboardEvent { height: 5 }, &at),
        vec![WindowAction::EmitResize]
    );
    assert_eq!(window.keyboard_overlap_device_px(), 600);
    assert_eq!(run(&mut window, &Event::KeyboardEvent { height: 5 }, &at), vec![]);
    assert_eq!(
        run(&mut window, &Event::KeyboardEvent { height: 0 }, &at),
        vec![WindowAction::EmitResize]
    );
    assert!(!window.keyboard_visible());
}

#[test]
fn hidden_input_method_hides_the_keyboard() {
    let mut window = main_window();
    window.show_soft_keyboard(true);
    let hide = Event::Input(InputEvent::Ime(ImeEvent::Status(KeyboardStatus::Hide)));
    assert_eq!(run(&mut window, &hide, &facts(None)), vec![WindowAction::EditText]);
    assert!(!window.keyboard_visible());
    let text = Event::Input(InputEvent::Ime(ImeEvent::TextInput { text: "a".to_owned() }));
    assert_eq!(window.handle_event(&text), vec![WindowStep::EditText]);
}

#[test]
fn mouse_events_are_dispatched() {
    let mut window = main_window();
    let mut at = facts(None);
    let mut event = MouseEventData {
        position: HERE,
        action: MouseAction::Press,
        button: SystemButton::NoneButton,
    };
    assert_eq!(run(&mut window, &Event::Input(InputEvent::Mouse(event)), &at), vec![]);
    assert_eq!(window.mouse_position(), HERE);
    event.button = SystemButton::LeftButton;
    let down = run(&mut window, &Event::Input(InputEvent::Mouse(event)), &at);
    assert!(matches!(
        down.as_slice(),
        [WindowAction::Dispatch(PlatformInput::MouseDown(down))]
            if down.button == MouseButton::Left && down.click_count == 1
    ));
    event.action = MouseAction::Move;
    at.cursor_hidden = true;
    let moved = run(&mut window, &Event::Input(InputEvent::Mouse(event)), &at);
    assert_eq!(moved.len(), 2);
    assert_eq!(moved[0], WindowAction::RestoreCursor);
    assert!(matches!(
        &moved[1],
        WindowAction::Dispatch(PlatformInput::MouseMove(moved))
            if moved.pressed_button == Some(MouseButton::Left)
    ));
    event.action = MouseAction::Release;
    event.button = SystemButton::NoneButton;
    let up = run(&mut window, &Event::Input(InputEvent::Mouse(event)), &at);
    assert!(matches!(
        up.as_slice(),
        [WindowAction::Dispatch(PlatformInput::MouseUp(up))] if up.button == MouseButton::Left
    ));
    event.action = MouseAction::Nothing;
    assert_eq!(run(&mut window, &Event::Input(InputEvent::Mouse(event)), &at), vec![]);
}

#[test]
fn still_scroll_counts_at_its_ends_only() {
    for (action, still, told) in [
        (AxisAction::Move, true, None),
        (AxisAction::Move, false, Some(TouchPhase::Moved)),
        (AxisAction::Down, true, Some(TouchPhase::Started)),
        (AxisAction::Up, true, Some(TouchPhase::Ended)),
        (AxisAction::Cancel, true, Some(TouchPhase::Ended)),
    ] {
        let mut window = main_window();
        let axis = AxisEventData { position: HERE, delta: Position { x: 3, y: 4 }, still, action };
        let actions = run(&mut window, &Event::Input(InputEvent::Axis(axis)), &facts(None));
        let expected: Vec<WindowAction> = told
            .map(|touch_phase| {
                WindowAction::Dispatch(PlatformInput::ScrollWheel(ScrollWheelEvent {
                    position: HERE,
                    delta: Position { x: 3, y: 4 },
                    modifiers: window.modifiers(),
                    touch_phase,
                }))
            })
            .into_iter()
            .collect();
        assert_eq!(actions, expected);
        assert_eq!(window.mouse_position(), HERE);
    }
    assert_eq!(main_window().handle_event(&Event::Input(InputEvent::Gesture)), vec![]);
}

#[test]
fn tap_reopens_the_keyboard() {
    let mut window = main_window();
    let at = facts(None);
    let point = TouchPointData { id: 5, position: HERE, force: None };
    let touch = |event_type| {
        Event::Input(InputEvent::Touch(TouchEventData {
            event_type,
            finger: point,
            touch_points: vec![],
        }))
    };
    assert!(window.may_tap(TouchPhase::Started));
    let down = run(&mut window, &touch(TouchEventType::Down), &at);
    assert_eq!(down.len(), 1);
    assert_eq!(window.tap_start(5), Some(HERE));
    let up = run(&mut window, &touch(TouchEventType::Up), &at);
    assert_eq!(up.len(), 2);
    assert!(matches!(
        &up[0],
        WindowAction::Dispatch(PlatformInput::Touch(touch)) if touch.phase == TouchPhase::Ended
    ));
    assert_eq!(up[1], WindowAction::ReopenKeyboard);
    let raw = RawTouch { point, phase: TouchPhase::Moved };
    assert_eq!(window.perform(&WindowStep::Touch(raw), &at), vec![]);
}

#[test]
fn keyboard_requests() {
    let mut window = main_window();
    assert!(!window.request_keyboard(false));
    assert!(!window.keyboard_visible());
    assert_eq!(
        window.text_input_state_changed(TextInputStateChange::FocusGained, true),
        KeyboardRequest::Show
    );
    assert_eq!(
        window.text_input_state_changed(TextInputStateChange::FocusGained, true),
        KeyboardRequest::Nothing
    );
    assert!(window.show_soft_keyboard(true));
    assert_eq!(
        window.text_input_state_changed(TextInputStateChange::SelectionChanged, true),
        KeyboardRequest::Nothing
    );
    assert_eq!(
        window.text_input_state_changed(TextInputStateChange::FocusLost, true),
        KeyboardRequest::Hide
    );
    assert!(!window.hide_soft_keyboard(true));
    assert!(window.show_keyboard_if_needed(true));
    assert!(!window.hide_keyboard_if_needed(false));
    assert!(!window.keyboard_visible());
}

#[test]
fn zoom_and_fullscreen_toggle() {
    let mut window = main_window();
    let request = window.zoom();
    assert_eq!(request, ZoomRequest::Maximize);
    window.zoomed(request, false);
    assert!(!window.is_maximized());
    window.zoomed(request, true);
    assert!(window.is_maximized());
    assert_eq!(window.zoom(), ZoomRequest::Restore);
    window.zoomed(ZoomRequest::Restore, true);
    assert!(!window.is_maximized());
    assert!(window.toggle_fullscreen());
    window.fullscreen_toggled(true, false);
    assert!(!window.is_fullscreen());
    window.fullscreen_toggled(true, true);
    assert!(window.is_fullscreen());
    assert!(!window.toggle_fullscreen());
}

#[test]
fn backgrounds() {
    assert_eq!(background_color(WindowBackgroundAppearance::Opaque), 0xff000000);
    assert_eq!(background_color(WindowBackgroundAppearance::Blurred), 0);
    let mut window = main_window();
    window.set_background_appearance(WindowBackgroundAppearance::Blurred, false);
    assert_eq!(window.background_appearance(), WindowBackgroundAppearance::Opaque);
    window.set_background_appearance(WindowBackgroundAppearance::Blurred, true);
    assert_eq!(window.background_appearance(), WindowBackgroundAppearance::Transparent);
    window.set_background_appearance(WindowBackgroundAppearance::Opaque, true);
    assert_eq!(window.background_appearance(), WindowBackgroundAppearance::Opaque);
}

#[test]
fn back_gesture() {
    let mut window = main_window();
    assert!(!window.back_enabled());
    window.set_back_enabled(true);
    assert!(window.back_enabled());
}

#[test]
fn sizes_positions_and_controls() {
    assert_eq!(request_resize(3, 4), Some((3, 4)));
    assert_eq!(request_resize(0, 4), None);
    assert_eq!(request_resize(3, -1), None);
    assert!(ime_position_accepted(true, 1));
    assert!(ime_position_accepted(false, 12800009));
    assert!(!ime_position_accepted(false, 1));
    let controls = window_controls();
    assert!(!controls.fullscreen && !controls.maximize);
    assert!(!controls.minimize && !controls.window_menu);
}

#[test]
fn renderer_is_planned() {
    let window = main_window();
    let mut at = SurfaceFacts {
        content_rect: None,
        native_window: true,
        bounds_width: 320,
        bounds_height: 200,
    };
    assert!(matches!(window.initialize_renderer(at), Err(RendererError::AppUnavailable)));
    at.content_rect = Some(rect(1, 2, 1080, 0));
    at.native_window = false;
    assert!(matches!(
        window.initialize_renderer(at),
        Err(RendererError::NativeWindowUnavailable)
    ));
    at.native_window = true;
    assert!(matches!(
        window.initialize_renderer(at),
        Ok(RendererPlan::Create(SurfacePlan {
            width: 1080,
            height: 200,
            transparent: true,
            bounds: None,
        }))
    ));
    at.content_rect = Some(rect(1, 2, 1080, 2400));
    let full = Some(rect(1, 2, 1080, 2400));
    assert!(matches!(
        window.initialize_renderer(at),
        Ok(RendererPlan::Create(plan)) if plan.bounds == full && plan.height == 2400
    ));
}

#[test]
fn renderer_outcome_is_kept() {
    let mut window = main_window();
    assert_eq!(window.sprite_atlas(), AtlasSource::Initialize);
    let error = window.renderer_created(Err("no adapter".to_owned())).unwrap_err();
    assert_eq!(
        error.message(),
        "Failed to create Wgpu renderer: no adapter. Make sure native_window is available from OpenHarmonyApp."
    );
    assert!(window.needs_renderer());
    window.renderer_created(Ok(())).unwrap();
    let none = SurfaceFacts {
        content_rect: None,
        native_window: false,
        bounds_width: 0,
        bounds_height: 0,
    };
    assert!(matches!(window.initialize_renderer(none), Ok(RendererPlan::Ready)));
}
