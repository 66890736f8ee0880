//! A window: what the system's events change in it and what has to be done
//! about each.

use crate::geometry::keyboard_overlap_from_avoid_area_device_px;
use crate::geometry::law_overlap_fits_surface;
use crate::geometry::AvoidAreaType;
use crate::geometry::Rect;
use crate::geometry::WindowGeometry;
use crate::ime::ImeEvent;
use crate::ime::KeyboardStatus;
use crate::input::input_views;
use crate::input::no_modifiers;
use crate::input::Capslock;
use crate::input::Modifiers;
use crate::input::PlatformInput;
use crate::input::PlatformInputView;
use crate::input::Position;
use crate::input::ScrollWheelEvent;
use crate::input::TouchPhase;
use crate::keyboard::law_modifiers_are_held_keys;
use crate::keyboard::KeyCode;
use crate::keyboard::KeyEventData;
use crate::keyboard::KeyStateView;
use crate::keyboard::OhosKeyState;
use crate::mouse::button_of;
use crate::mouse::first_button;
use crate::mouse::law_release_tells_button;
use crate::mouse::mouse_button;
use crate::mouse::ClickTiming;
use crate::mouse::MouseAction;
use crate::mouse::MouseEventData;
use crate::mouse::MouseState;
use crate::mouse::SystemButton;
use crate::renderer::plan_renderer;
use crate::renderer::surface_plan;
use crate::renderer::RendererError;
use crate::renderer::RendererPlan;
use crate::renderer::SurfaceFacts;
use crate::touch::dispatch_raw_touch_event;
use crate::touch::law_fingers_stay_sound;
use crate::touch::law_touch_is_handed_on_as_it_is;
use crate::touch::touches_of;
use crate::touch::RawTouch;
use crate::touch::TapDistance;
use crate::touch::TouchEventData;
use crate::touch::TouchTracker;
use crate::touch::TouchesView;
use vstd::prelude::*;

verus! {

/// Whether any of a window can be seen.
#[derive(Clone, Copy, Debug, PartialEq, Eq, Structural)]
pub enum WindowVisibility {
    Visible,
    Hidden,
}

/// The look of a window.
#[derive(Clone, Copy, Debug, PartialEq, Eq, Structural)]
pub enum WindowAppearance {
    Light,
    Dark,
}

/// The look that the user chose for the system.
#[derive(Clone, Copy, Debug, PartialEq, Eq, Structural)]
pub enum ColorMode {
    Dark,
    Light,
    NoSet,
}

/// What shows behind a window's content.
#[derive(Clone, Copy, Debug, PartialEq, Eq, Structural)]
pub enum WindowBackgroundAppearance {
    Opaque,
    Transparent,
    Blurred,
    MicaBackdrop,
    MicaAltBackdrop,
}

/// The safe area of a window in logical pixels. Each length is the bit pattern
/// of an `f32`.
#[derive(Clone, Copy, Debug, PartialEq, Eq, Structural)]
pub struct WindowInsets {
    pub top: u32,
    pub right: u32,
    pub bottom: u32,
    pub left: u32,
}

/// What a wheel or a touchpad does while it scrolls.
#[derive(Clone, Copy, Debug, PartialEq, Eq, Structural)]
pub enum AxisAction {
    Cancel,
    Down,
    Move,
    Up,
}

/// A scroll of a wheel or a touchpad.
#[derive(Clone, Copy, Debug, PartialEq, Eq, Structural)]
pub struct AxisEventData {
    pub position: Position,
    pub delta: Position,
    /// Whether both coordinates of `delta` are zero.
    pub still: bool,
    pub action: AxisAction,
}

/// An input event of the system.
#[derive(Clone, Debug, PartialEq, Eq)]
pub enum InputEvent {
    Ime(ImeEvent),
    Mouse(MouseEventData),
    Hover(bool),
    Axis(AxisEventData),
    Gesture,
    Touch(TouchEventData),
    Key(KeyEventData),
}

/// An event of the system.
#[derive(Clone, Debug, PartialEq, Eq)]
pub enum Event {
    SurfaceCreate,
    SurfaceDestroy,
    WindowResize { window_id: i64, width: i32, height: i32 },
    ContentRectChange { window_id: i64, rect: Rect },
    AvoidAreaChange { area_type: AvoidAreaType },
    Start,
    Stop,
    WindowRedraw,
    Input(InputEvent),
    WindowFocusChanged { window_id: i64, focused: bool },
    ConfigChanged { color_mode: ColorMode },
    WindowDestroy,
    KeyboardEvent { height: i32 },
    NewWant { uri: String },
    /// An event that means nothing to a window.
    Other,
}

/// One step of the work that an event makes. What a step does can depend on
/// what the callbacks of an earlier one changed, so each is performed on its
/// own.
#[derive(Clone, Copy, Debug, PartialEq, Eq, Structural)]
pub enum WindowStep {
    InitializeRenderer,
    DropRenderer,
    Resize { width: i32, height: i32 },
    MoveTo { rect: Rect },
    /// Measures how much the keyboard hides, and reports a change where asked.
    RefreshOverlap { report: bool },
    EmitResize,
    RefreshInsets,
    SetVisibility(WindowVisibility),
    RequestFrame,
    SetActive { active: bool, report: bool },
    SetHovered(bool),
    ForgetMouse,
    ClearKeys,
    HideKeyboard,
    SetAppearance(WindowAppearance),
    ReadScale,
    AskToClose,
    SetKeyboardShown(bool),
    EditText,
    Mouse(MouseEventData),
    Scroll(AxisEventData),
    Touch(RawTouch),
    Key(KeyEventData),
}

/// What a step has to know of the world around the window.
#[derive(Clone, Copy, Debug, PartialEq, Eq, Structural)]
pub struct WindowFacts {
    /// The geometry that the system reports; `None` without a connection to the
    /// system.
    pub geometry: Option<WindowGeometry>,
    /// The safe area that follows from the geometry and the scale.
    pub insets: WindowInsets,
    pub timing: ClickTiming,
    /// Whether the pointer is hidden until the mouse moves.
    pub cursor_hidden: bool,
    /// Whether a touch lies in the text input that has the focus.
    pub targets_text_input: bool,
    /// How far a touch is from where it began.
    pub distance: TapDistance,
}

/// What has to be done about a step.
#[derive(Clone, Debug, PartialEq, Eq)]
pub enum WindowAction {
    InitializeRenderer,
    DropRenderer,
    /// Gives the window's bounds a size in device pixels.
    SetSize { width: i32, height: i32 },
    /// Gives the renderer a size in device pixels.
    SetDrawableSize { width: i32, height: i32 },
    /// Gives the window's bounds an origin in device pixels, and tells of the
    /// move where it is one.
    SetOrigin { left: i32, top: i32 },
    EmitResize,
    InsetsChanged(WindowInsets),
    VisibilityChanged(WindowVisibility),
    RequestFrame,
    ActiveChanged(bool),
    HoverChanged(bool),
    AppearanceChanged,
    ReadScale,
    /// Asks whether the window may close, and closes it if so.
    AskToClose,
    HideKeyboard,
    /// Asks for the soft keyboard although it may be there already.
    ReopenKeyboard,
    RestoreCursor,
    /// Hands the text of the event to the text input.
    EditText,
    Dispatch(PlatformInput),
}

/// What an action holds.
pub enum WindowActionView {
    InitializeRenderer,
    DropRenderer,
    SetSize { width: i32, height: i32 },
    SetDrawableSize { width: i32, height: i32 },
    SetOrigin { left: i32, top: i32 },
    EmitResize,
    InsetsChanged(WindowInsets),
    VisibilityChanged(WindowVisibility),
    RequestFrame,
    ActiveChanged(bool),
    HoverChanged(bool),
    AppearanceChanged,
    ReadScale,
    AskToClose,
    HideKeyboard,
    ReopenKeyboard,
    RestoreCursor,
    EditText,
    Dispatch(PlatformInputView),
}

impl View for WindowAction {
    type V = WindowActionView;

    open spec fn view(&self) -> WindowActionView {
        match *self {
            WindowAction::InitializeRenderer => WindowActionView::InitializeRenderer,
            WindowAction::DropRenderer => WindowActionView::DropRenderer,
            WindowAction::SetSize { width, height } => WindowActionView::SetSize { width, height },
            WindowAction::SetDrawableSize { width, height } =>
                WindowActionView::SetDrawableSize { width, height },
            WindowAction::SetOrigin { left, top } => WindowActionView::SetOrigin { left, top },
            WindowAction::EmitResize => WindowActionView::EmitResize,
            WindowAction::InsetsChanged(insets) => WindowActionView::InsetsChanged(insets),
            WindowAction::VisibilityChanged(v) => WindowActionView::VisibilityChanged(v),
            WindowAction::RequestFrame => WindowActionView::RequestFrame,
            WindowAction::ActiveChanged(active) => WindowActionView::ActiveChanged(active),
            WindowAction::HoverChanged(hovered) => WindowActionView::HoverChanged(hovered),
            WindowAction::AppearanceChanged => WindowActionView::AppearanceChanged,
            WindowAction::ReadScale => WindowActionView::ReadScale,
            WindowAction::AskToClose => WindowActionView::AskToClose,
            WindowAction::HideKeyboard => WindowActionView::HideKeyboard,
            WindowAction::ReopenKeyboard => WindowActionView::ReopenKeyboard,
            WindowAction::RestoreCursor => WindowActionView::RestoreCursor,
            WindowAction::EditText => WindowActionView::EditText,
            WindowAction::Dispatch(input) => WindowActionView::Dispatch(input@),
        }
    }
}

/// What a list of actions holds.
pub open spec fn action_views(actions: Seq<WindowAction>) -> Seq<WindowActionView> {
    actions.map_values(|action: WindowAction| action@)
}

/// One dispatch per input event.
pub open spec fn dispatches(inputs: Seq<PlatformInputView>) -> Seq<WindowActionView> {
    inputs.map_values(|input: PlatformInputView| WindowActionView::Dispatch(input))
}

/// The look that goes with a colour mode: dark only where the user chose dark.
pub open spec fn appearance_of(mode: ColorMode) -> WindowAppearance {
    match mode {
        ColorMode::Dark => WindowAppearance::Dark,
        ColorMode::Light | ColorMode::NoSet => WindowAppearance::Light,
    }
}

/// The look that goes with a colour mode.
pub fn appearance_for_color_mode(mode: ColorMode) -> (r: WindowAppearance)
    ensures
        r == appearance_of(mode),
{
    match mode {
        ColorMode::Dark => WindowAppearance::Dark,
        ColorMode::Light | ColorMode::NoSet => WindowAppearance::Light,
    }
}

/// Whether a kind of avoid area can hide content while the keyboard is shown.
pub open spec fn hides_content(area_type: AvoidAreaType) -> bool {
    ||| area_type is Keyboard
    ||| area_type is System
    ||| area_type is SystemGesture
    ||| area_type is NavigationIndicator
}

/// The step that measures the keyboard's overlap and reports a change of it.
pub open spec fn remeasure() -> WindowStep {
    WindowStep::RefreshOverlap { report: true }
}

/// The steps for the fingers of a touch event.
pub open spec fn touch_steps(touches: Seq<RawTouch>) -> Seq<WindowStep> {
    touches.map_values(|touch: RawTouch| WindowStep::Touch(touch))
}

/// The steps for an input event.
pub open spec fn input_plan(event: InputEvent) -> Seq<WindowStep> {
    match event {
        InputEvent::Ime(ImeEvent::Status(KeyboardStatus::Hide)) => seq![
            WindowStep::SetKeyboardShown(false),
            remeasure(),
            WindowStep::EditText,
        ],
        InputEvent::Ime(_) => seq![WindowStep::EditText],
        InputEvent::Mouse(mouse) => seq![WindowStep::Mouse(mouse)],
        InputEvent::Hover(hovered) => seq![WindowStep::SetHovered(hovered)],
        InputEvent::Axis(axis) => seq![WindowStep::Scroll(axis)],
        InputEvent::Gesture => seq![],
        InputEvent::Touch(touch) => touch_steps(
            touches_of(touch.event_type, touch.finger, touch.touch_points@),
        ),
        InputEvent::Key(key) => seq![WindowStep::Key(key)],
    }
}

/// The steps by which a window loses the focus.
pub open spec fn lost_focus() -> Seq<WindowStep> {
    seq![
        WindowStep::SetActive { active: false, report: true },
        WindowStep::SetHovered(false),
        WindowStep::ForgetMouse,
        WindowStep::ClearKeys,
        WindowStep::HideKeyboard,
        remeasure(),
    ]
}

/// The steps for an event of the system in a window.
pub open spec fn plan(this_window: i64, event: Event) -> Seq<WindowStep> {
    match event {
        Event::SurfaceCreate => seq![
            WindowStep::InitializeRenderer,
            remeasure(),
            WindowStep::RefreshInsets,
        ],
        Event::SurfaceDestroy => seq![WindowStep::DropRenderer, WindowStep::SetHovered(false)],
        Event::WindowResize { window_id, width, height } => if window_id == this_window {
            seq![
                WindowStep::Resize { width, height },
                WindowStep::RefreshOverlap { report: false },
                WindowStep::EmitResize,
                WindowStep::RefreshInsets,
            ]
        } else {
            seq![]
        },
        Event::ContentRectChange { window_id, rect } => if window_id == this_window {
            seq![WindowStep::MoveTo { rect }, remeasure(), WindowStep::RefreshInsets]
        } else {
            seq![]
        },
        Event::AvoidAreaChange { area_type } => if hides_content(area_type) {
            seq![remeasure(), WindowStep::RefreshInsets]
        } else {
            seq![WindowStep::RefreshInsets]
        },
        Event::Start => seq![WindowStep::SetVisibility(WindowVisibility::Visible)],
        Event::Stop => seq![WindowStep::SetVisibility(WindowVisibility::Hidden)],
        Event::WindowRedraw => seq![WindowStep::RequestFrame],
        Event::Input(input) => input_plan(input),
        Event::WindowFocusChanged { window_id, focused } => if focused && window_id
            == this_window {
            seq![WindowStep::SetActive { active: true, report: true }]
        } else {
            lost_focus()
        },
        Event::ConfigChanged { color_mode } => seq![
            WindowStep::SetAppearance(appearance_of(color_mode)),
            WindowStep::ReadScale,
            WindowStep::RefreshOverlap { report: false },
            WindowStep::EmitResize,
            WindowStep::RefreshInsets,
        ],
        Event::WindowDestroy => seq![
            WindowStep::SetVisibility(WindowVisibility::Hidden),
            WindowStep::SetActive { active: false, report: false },
            WindowStep::SetHovered(false),
            remeasure(),
            WindowStep::AskToClose,
        ],
        Event::KeyboardEvent { height } => seq![
            WindowStep::SetKeyboardShown(height > 0),
            remeasure(),
        ],
        Event::NewWant { .. } | Event::Other => seq![],
    }
}

fn steps_of_touches(touches: &Vec<RawTouch>) -> (r: Vec<WindowStep>)
    ensures
        r@ == touch_steps(touches@),
{
    let mut steps: Vec<WindowStep> = Vec::new();
    let mut i: usize = 0;
    while i < touches.len()
        invariant
            i <= touches@.len(),
            steps@ == touch_steps(touches@.take(i as int)),
        decreases touches@.len() - i,
    {
        steps.push(WindowStep::Touch(touches[i]));
        i = i + 1;
        assert(steps@ =~= touch_steps(touches@.take(i as int)));
    }
    assert(touches@.take(i as int) =~= touches@);
    steps
}

/// The steps for an input event.
pub fn handle_input_event(event: &InputEvent) -> (r: Vec<WindowStep>)
    ensures
        r@ == input_plan(*event),
{
    let mut steps: Vec<WindowStep> = Vec::new();
    match event {
        InputEvent::Ime(ime) => {
            if let ImeEvent::Status(KeyboardStatus::Hide) = ime {
                steps.push(WindowStep::SetKeyboardShown(false));
                steps.push(WindowStep::RefreshOverlap { report: true });
            }
            steps.push(WindowStep::EditText);
        },
        InputEvent::Mouse(mouse) => steps.push(WindowStep::Mouse(*mouse)),
        InputEvent::Hover(hovered) => steps.push(WindowStep::SetHovered(*hovered)),
        InputEvent::Axis(axis) => steps.push(WindowStep::Scroll(*axis)),
        InputEvent::Gesture => {},
        InputEvent::Touch(touch) => {
            return steps_of_touches(&dispatch_raw_touch_event(touch));
        },
        InputEvent::Key(key) => steps.push(WindowStep::Key(*key)),
    }
    assert(steps@ =~= input_plan(*event));
    steps
}

/// How many device pixels of a window the keyboard hides: none without a
/// connection to the system.
pub open spec fn overlap_px(geometry: Option<WindowGeometry>, keyboard_visible: bool) -> int {
    match geometry {
        Some(geometry) => geometry.keyboard_overlap(keyboard_visible) as int,
        None => 0,
    }
}

/// The drawable surface that the system reports; empty without a connection to
/// the system.
pub open spec fn content_of(geometry: Option<WindowGeometry>) -> Rect {
    match geometry {
        Some(geometry) => geometry.content_rect,
        None => Rect { top: 0, left: 0, width: 0, height: 0 },
    }
}

/// A surface length where the system reports one, else the length of the
/// window.
pub open spec fn drawable_length(surface: i32, window: i32) -> i32 {
    if surface > 0 {
        surface
    } else {
        window
    }
}

/// What has to be done about a new place on the screen: the surface lies
/// relative to the window.
pub open spec fn move_actions(rect: Rect, facts: WindowFacts) -> Seq<WindowActionView> {
    let content = content_of(facts.geometry);
    seq![
        WindowActionView::SetOrigin {
            left: (rect.left + content.left) as i32,
            top: (rect.top + content.top) as i32,
        },
    ]
}

/// The stage of a scroll.
pub open spec fn scroll_phase(action: AxisAction) -> TouchPhase {
    match action {
        AxisAction::Down => TouchPhase::Started,
        AxisAction::Up | AxisAction::Cancel => TouchPhase::Ended,
        AxisAction::Move => TouchPhase::Moved,
    }
}

/// Whether a scroll is worth telling: it moves, or it starts or ends.
pub open spec fn scroll_counts(axis: AxisEventData) -> bool {
    !axis.still || scroll_phase(axis.action) is Started || scroll_phase(axis.action) is Ended
}

/// The state of a window.
#[verifier::ext_equal]
pub struct WindowView {
    /// The system's number for the window; the main window has zero.
    pub window_id: i64,
    pub maximized: bool,
    pub fullscreen: bool,
    pub background_appearance: WindowBackgroundAppearance,
    pub active: bool,
    pub hovered: bool,
    pub visibility: WindowVisibility,
    pub appearance: WindowAppearance,
    pub insets: WindowInsets,
    /// How many device pixels the keyboard hides.
    pub keyboard_overlap: i32,
    /// Whether the soft keyboard is taken to be shown.
    pub keyboard_visible: bool,
    /// Whether there is a renderer.
    pub renderer: bool,
    /// Whether there is an atlas to draw glyphs and images from, with or
    /// without a renderer.
    pub atlas: bool,
    pub pointer_position: Option<Position>,
    pub mouse: MouseState,
    pub back_enabled: bool,
    pub keys: KeyStateView,
    pub touches: TouchesView,
}

impl WindowView {
    /// The parts of the window are sound, and no negative length is hidden.
    pub open spec fn wf(self) -> bool {
        &&& self.keys.wf()
        &&& self.touches.wf()
        &&& self.mouse.wf()
        &&& self.keyboard_overlap >= 0
        &&& self.renderer ==> self.atlas
    }

    /// A new window.
    pub open spec fn initial(window_id: i64, color_mode: Option<ColorMode>, atlas: bool) -> WindowView {
        WindowView {
            window_id,
            maximized: false,
            fullscreen: false,
            background_appearance: WindowBackgroundAppearance::Opaque,
            active: window_id == 0,
            hovered: false,
            visibility: WindowVisibility::Visible,
            appearance: match color_mode {
                Some(mode) => appearance_of(mode),
                None => WindowAppearance::Light,
            },
            insets: WindowInsets { top: 0, right: 0, bottom: 0, left: 0 },
            keyboard_overlap: 0,
            keyboard_visible: false,
            renderer: false,
            atlas,
            pointer_position: None,
            mouse: MouseState { pressed: None, click: None },
            back_enabled: false,
            keys: KeyStateView {
                pressed: Set::empty(),
                modifiers: no_modifiers(),
                capslock: Capslock { on: false },
            },
            touches: TouchesView { active: Map::empty(), candidates: Map::empty(), next_id: 0 },
        }
    }

    /// Whether a step can be performed: every length that it needs is an `i32`,
    /// and a touch that starts finds a name.
    pub open spec fn in_range(self, step: WindowStep, facts: WindowFacts) -> bool {
        match step {
            WindowStep::RefreshOverlap { .. } => facts.geometry is Some
                ==> facts.geometry->0.overlap_in_range(),
            WindowStep::MoveTo { rect } => {
                &&& i32::MIN <= rect.left + content_of(facts.geometry).left <= i32::MAX
                &&& i32::MIN <= rect.top + content_of(facts.geometry).top <= i32::MAX
            },
            WindowStep::Touch(touch) => touch.phase is Started ==> self.touches.next_id < u64::MAX,
            _ => true,
        }
    }

    /// The window after a mouse event.
    pub open spec fn after_mouse(self, event: MouseEventData, timing: ClickTiming) -> WindowView {
        WindowView {
            pointer_position: Some(event.position),
            mouse: match event.action {
                MouseAction::Press => match button_of(event.button) {
                    Some(button) => self.mouse.after_press(button, event.position, timing),
                    None => self.mouse,
                },
                MouseAction::Release => self.mouse.lifted(),
                MouseAction::Move | MouseAction::Nothing => self.mouse,
            },
            ..self
        }
    }

    /// The window after the movement of one finger.
    pub open spec fn after_touch(self, touch: RawTouch, facts: WindowFacts) -> WindowView {
        WindowView {
            pointer_position: if self.touches.accepts(touch) {
                Some(touch.point.position)
            } else {
                self.pointer_position
            },
            touches: self.touches.after(touch, facts.targets_text_input, facts.distance),
            ..self
        }
    }

    /// The window after a step.
    pub open spec fn after(self, step: WindowStep, facts: WindowFacts) -> WindowView {
        match step {
            WindowStep::DropRenderer => WindowView { renderer: false, ..self },
            WindowStep::RefreshOverlap { .. } => WindowView {
                keyboard_overlap: overlap_px(facts.geometry, self.keyboard_visible) as i32,
                ..self
            },
            WindowStep::RefreshInsets => WindowView { insets: facts.insets, ..self },
            WindowStep::SetVisibility(visibility) => WindowView { visibility, ..self },
            WindowStep::SetActive { active, .. } => WindowView { active, ..self },
            WindowStep::SetHovered(hovered) => WindowView { hovered, ..self },
            WindowStep::ForgetMouse => WindowView {
                mouse: MouseState { pressed: None, click: None },
                ..self
            },
            WindowStep::ClearKeys => WindowView { keys: self.keys.cleared(), ..self },
            WindowStep::HideKeyboard => WindowView { keyboard_visible: false, ..self },
            WindowStep::SetAppearance(appearance) => WindowView { appearance, ..self },
            WindowStep::SetKeyboardShown(shown) => WindowView { keyboard_visible: shown, ..self },
            WindowStep::Mouse(event) => self.after_mouse(event, facts.timing),
            WindowStep::Scroll(axis) => WindowView {
                pointer_position: Some(axis.position),
                ..self
            },
            WindowStep::Touch(touch) => self.after_touch(touch, facts),
            WindowStep::Key(key) => WindowView { keys: self.keys.after(key), ..self },
            WindowStep::InitializeRenderer
            | WindowStep::Resize { .. }
            | WindowStep::MoveTo { .. }
            | WindowStep::EmitResize
            | WindowStep::RequestFrame
            | WindowStep::ReadScale
            | WindowStep::AskToClose
            | WindowStep::EditText => self,
        }
    }

    /// What has to be done about a mouse event.
    pub open spec fn mouse_actions(self, event: MouseEventData, facts: WindowFacts) -> Seq<
        WindowActionView,
    > {
        let modifiers = self.keys.modifiers;
        match event.action {
            MouseAction::Press => match button_of(event.button) {
                Some(button) => seq![
                    WindowActionView::Dispatch(
                        PlatformInputView::MouseDown(
                            crate::input::MouseDownEvent {
                                button,
                                position: event.position,
                                modifiers,
                                click_count: self.mouse.count_for(button, facts.timing) as usize,
                                first_mouse: false,
                            },
                        ),
                    ),
                ],
                None => seq![],
            },
            MouseAction::Release => match self.mouse.released(
                button_of(event.button),
                event.position,
                modifiers,
            ) {
                Some(up) => seq![WindowActionView::Dispatch(PlatformInputView::MouseUp(up))],
                None => seq![],
            },
            MouseAction::Move => {
                let restored = if facts.cursor_hidden {
                    seq![WindowActionView::RestoreCursor]
                } else {
                    seq![]
                };
                restored.push(
                    WindowActionView::Dispatch(
                        PlatformInputView::MouseMove(
                            crate::input::MouseMoveEvent {
                                position: event.position,
                                pressed_button: first_button(
                                    self.mouse.pressed,
                                    button_of(event.button),
                                ),
                                modifiers,
                            },
                        ),
                    ),
                )
            },
            MouseAction::Nothing => seq![],
        }
    }

    /// What has to be done about a new size: the size of the drawable surface
    /// counts where the system reports one.
    pub open spec fn resize_actions(self, width: i32, height: i32, facts: WindowFacts) -> Seq<
        WindowActionView,
    > {
        let content = content_of(facts.geometry);
        let width = drawable_length(content.width, width);
        let height = drawable_length(content.height, height);
        let resized = seq![WindowActionView::SetSize { width, height }];
        if self.renderer {
            resized.push(WindowActionView::SetDrawableSize { width, height })
        } else {
            resized
        }
    }

    /// What has to be done about a scroll.
    pub open spec fn scroll_actions(self, axis: AxisEventData) -> Seq<WindowActionView> {
        if scroll_counts(axis) {
            seq![
                WindowActionView::Dispatch(
                    PlatformInputView::ScrollWheel(
                        ScrollWheelEvent {
                            position: axis.position,
                            delta: axis.delta,
                            modifiers: self.keys.modifiers,
                            touch_phase: scroll_phase(axis.action),
                        },
                    ),
                ),
            ]
        } else {
            seq![]
        }
    }

    /// What has to be done about a touch.
    pub open spec fn touch_actions(self, touch: RawTouch, facts: WindowFacts) -> Seq<
        WindowActionView,
    > {
        match self.touches.outcome(touch, facts.distance) {
            Some(outcome) => {
                let told = seq![
                    WindowActionView::Dispatch(PlatformInputView::Touch(outcome.event)),
                ];
                if outcome.reopen_keyboard {
                    told.push(WindowActionView::ReopenKeyboard)
                } else {
                    told
                }
            },
            None => seq![],
        }
    }

    /// What has to be done about a step.
    pub open spec fn actions(self, step: WindowStep, facts: WindowFacts) -> Seq<WindowActionView> {
        match step {
            WindowStep::InitializeRenderer => seq![WindowActionView::InitializeRenderer],
            WindowStep::DropRenderer => seq![WindowActionView::DropRenderer],
            WindowStep::Resize { width, height } => self.resize_actions(width, height, facts),
            WindowStep::MoveTo { rect } => move_actions(rect, facts),
            WindowStep::RefreshOverlap { report } => if report && overlap_px(
                facts.geometry,
                self.keyboard_visible,
            ) != self.keyboard_overlap {
                seq![WindowActionView::EmitResize]
            } else {
                seq![]
            },
            WindowStep::EmitResize => seq![WindowActionView::EmitResize],
            WindowStep::RefreshInsets => if self.insets != facts.insets {
                seq![WindowActionView::InsetsChanged(facts.insets)]
            } else {
                seq![]
            },
            WindowStep::SetVisibility(visibility) => if self.visibility != visibility {
                seq![WindowActionView::VisibilityChanged(visibility)]
            } else {
                seq![]
            },
            WindowStep::RequestFrame => seq![WindowActionView::RequestFrame],
            WindowStep::SetActive { active, report } => if report && self.active != active {
                seq![WindowActionView::ActiveChanged(active)]
            } else {
                seq![]
            },
            WindowStep::SetHovered(hovered) => if self.hovered != hovered {
                seq![WindowActionView::HoverChanged(hovered)]
            } else {
                seq![]
            },
            WindowStep::ForgetMouse => seq![],
            WindowStep::ClearKeys => if self.keys.modifiers != no_modifiers() {
                seq![WindowActionView::Dispatch(self.keys.cleared().modifiers_event())]
            } else {
                seq![]
            },
            WindowStep::HideKeyboard => if self.keyboard_visible && facts.geometry is Some {
                seq![WindowActionView::HideKeyboard]
            } else {
                seq![]
            },
            WindowStep::SetAppearance(appearance) => if self.appearance != appearance {
                seq![WindowActionView::AppearanceChanged]
            } else {
                seq![]
            },
            WindowStep::ReadScale => seq![WindowActionView::ReadScale],
            WindowStep::AskToClose => seq![WindowActionView::AskToClose],
            WindowStep::SetKeyboardShown(_) => seq![],
            WindowStep::EditText => seq![WindowActionView::EditText],
            WindowStep::Mouse(event) => self.mouse_actions(event, facts),
            WindowStep::Scroll(axis) => self.scroll_actions(axis),
            WindowStep::Touch(touch) => self.touch_actions(touch, facts),
            WindowStep::Key(key) => dispatches(self.keys.reports(key)),
        }
    }
}

/// A change in a text input.
#[derive(Clone, Copy, Debug, PartialEq, Eq, Structural)]
pub enum TextInputStateChange {
    FocusGained,
    FocusLost,
    SelectionChanged,
    ContentChanged,
}

/// What is asked of the soft keyboard.
#[derive(Clone, Copy, Debug, PartialEq, Eq, Structural)]
pub enum KeyboardRequest {
    Nothing,
    Show,
    Hide,
}

/// Where a window's atlas comes from.
#[derive(Clone, Copy, Debug, PartialEq, Eq, Structural)]
pub enum AtlasSource {
    Renderer,
    /// The one that the window keeps.
    Fallback,
    /// A renderer has to be made for it.
    Initialize,
}

/// How a zoom changes a window.
#[derive(Clone, Copy, Debug, PartialEq, Eq, Structural)]
pub enum ZoomRequest {
    Maximize,
    Restore,
}

/// The controls that a window draws itself.
#[derive(Clone, Copy, Debug, PartialEq, Eq, Structural)]
pub struct WindowControls {
    pub fullscreen: bool,
    pub maximize: bool,
    pub minimize: bool,
    pub window_menu: bool,
}

impl WindowView {
    /// What a change in a text input asks of the soft keyboard.
    pub open spec fn keyboard_request(
        self,
        change: TextInputStateChange,
        connected: bool,
    ) -> KeyboardRequest {
        match change {
            TextInputStateChange::FocusGained => if connected && !self.keyboard_visible {
                KeyboardRequest::Show
            } else {
                KeyboardRequest::Nothing
            },
            TextInputStateChange::FocusLost => if connected && self.keyboard_visible {
                KeyboardRequest::Hide
            } else {
                KeyboardRequest::Nothing
            },
            _ => KeyboardRequest::Nothing,
        }
    }

    /// The window after a change in a text input.
    pub open spec fn after_text_change(
        self,
        change: TextInputStateChange,
        connected: bool,
    ) -> WindowView {
        match change {
            TextInputStateChange::FocusGained => self.after_keyboard_wish(connected),
            TextInputStateChange::FocusLost => WindowView { keyboard_visible: false, ..self },
            _ => self,
        }
    }

    /// The window after the soft keyboard was asked for.
    pub open spec fn after_keyboard_wish(self, connected: bool) -> WindowView {
        WindowView { keyboard_visible: connected || self.keyboard_visible, ..self }
    }

    /// The window after a renderer was made for it, or could not be.
    pub open spec fn after_renderer(self, created: bool) -> WindowView {
        if created {
            WindowView { renderer: true, atlas: true, ..self }
        } else {
            self
        }
    }

    /// The request that zooms the window.
    pub open spec fn zoom_request(self) -> ZoomRequest {
        if self.maximized {
            ZoomRequest::Restore
        } else {
            ZoomRequest::Maximize
        }
    }

    /// The window after a zoom.
    pub open spec fn after_zoom(self, request: ZoomRequest, succeeded: bool) -> WindowView {
        if succeeded {
            WindowView { maximized: request is Maximize, ..self }
        } else {
            self
        }
    }

    /// Whether the window shall fill the screen after a toggle.
    pub open spec fn fullscreen_request(self) -> bool {
        !self.fullscreen
    }

    /// The window after a toggle.
    pub open spec fn after_fullscreen(self, fullscreen: bool, succeeded: bool) -> WindowView {
        if succeeded {
            WindowView { fullscreen, ..self }
        } else {
            self
        }
    }

    /// The window after its background was set, or could not be.
    pub open spec fn after_background(
        self,
        appearance: WindowBackgroundAppearance,
        succeeded: bool,
    ) -> WindowView {
        if !succeeded {
            self
        } else if appearance is Blurred {
            WindowView { background_appearance: WindowBackgroundAppearance::Transparent, ..self }
        } else {
            WindowView { background_appearance: appearance, ..self }
        }
    }

    /// Whether the system has to destroy the window when it is dropped.
    pub open spec fn is_child(self) -> bool {
        self.window_id != 0
    }

    /// Where the pointer is taken to be.
    pub open spec fn pointer(self) -> Position {
        match self.pointer_position {
            Some(position) => position,
            None => Position { x: 0, y: 0 },
        }
    }

    /// Where the window's atlas comes from.
    pub open spec fn atlas_source(self) -> AtlasSource {
        if self.renderer {
            AtlasSource::Renderer
        } else if self.atlas {
            AtlasSource::Fallback
        } else {
            AtlasSource::Initialize
        }
    }
}

/// A window.
#[derive(Debug)]
pub struct OhosWindow {
    window_id: i64,
    maximized: bool,
    fullscreen: bool,
    background_appearance: WindowBackgroundAppearance,
    active: bool,
    hovered: bool,
    visibility: WindowVisibility,
    appearance: WindowAppearance,
    insets: WindowInsets,
    keyboard_overlap_device_px: i32,
    keyboard_visible: bool,
    renderer: bool,
    atlas: bool,
    pointer_position: Option<Position>,
    mouse: MouseState,
    back_enabled: bool,
    key_state: OhosKeyState,
    touches: TouchTracker,
}

impl View for OhosWindow {
    type V = WindowView;

    closed spec fn view(&self) -> WindowView {
        WindowView {
            window_id: self.window_id,
            maximized: self.maximized,
            fullscreen: self.fullscreen,
            background_appearance: self.background_appearance,
            active: self.active,
            hovered: self.hovered,
            visibility: self.visibility,
            appearance: self.appearance,
            insets: self.insets,
            keyboard_overlap: self.keyboard_overlap_device_px,
            keyboard_visible: self.keyboard_visible,
            renderer: self.renderer,
            atlas: self.atlas,
            pointer_position: self.pointer_position,
            mouse: self.mouse,
            back_enabled: self.back_enabled,
            keys: self.key_state@,
            touches: self.touches@,
        }
    }
}

fn content_rect_of(geometry: Option<WindowGeometry>) -> (r: Rect)
    ensures
        r == content_of(geometry),
{
    match geometry {
        Some(geometry) => geometry.content_rect,
        None => Rect { top: 0, left: 0, width: 0, height: 0 },
    }
}

/// The stage of a scroll.
pub fn axis_phase(action: AxisAction) -> (r: TouchPhase)
    ensures
        r == scroll_phase(action),
{
    match action {
        AxisAction::Down => TouchPhase::Started,
        AxisAction::Up | AxisAction::Cancel => TouchPhase::Ended,
        AxisAction::Move => TouchPhase::Moved,
    }
}

fn dispatch_all(inputs: Vec<PlatformInput>) -> (r: Vec<WindowAction>)
    ensures
        action_views(r@) == dispatches(input_views(inputs@)),
{
    let ghost all = inputs@;
    let mut inputs = inputs;
    let mut actions: Vec<WindowAction> = Vec::new();
    while inputs.len() > 0
        invariant
            actions@.len() + inputs@.len() == all.len(),
            inputs@ == all.skip(actions@.len() as int),
            forall|i: int|
                0 <= i < actions@.len() ==> #[trigger] actions@[i] == WindowAction::Dispatch(all[i]),
        decreases inputs@.len(),
    {
        let ghost done = actions@.len() as int;
        let input = inputs.remove(0);
        assert(input == all[done]);
        actions.push(WindowAction::Dispatch(input));
        assert(inputs@ =~= all.skip(done + 1));
    }
    assert(action_views(actions@) =~= dispatches(input_views(all)));
    actions
}

fn no_action() -> (r: Vec<WindowAction>)
    ensures
        action_views(r@) == Seq::<WindowActionView>::empty(),
{
    let actions: Vec<WindowAction> = Vec::new();
    assert(action_views(actions@) =~= Seq::<WindowActionView>::empty());
    actions
}

fn one_action(action: WindowAction) -> (r: Vec<WindowAction>)
    ensures
        r@ == seq![action],
        action_views(r@) == seq![action@],
{
    let mut actions: Vec<WindowAction> = Vec::new();
    actions.push(action);
    assert(actions@ =~= seq![action]);
    assert(action_views(actions@) =~= seq![action@]);
    actions
}

fn action_if(condition: bool, action: WindowAction) -> (r: Vec<WindowAction>)
    ensures
        action_views(r@) == if condition {
            seq![action@]
        } else {
            Seq::<WindowActionView>::empty()
        },
{
    if condition {
        one_action(action)
    } else {
        no_action()
    }
}

impl OhosWindow {
    /// A window with the system's number for it. `color_mode` is the colour
    /// mode where there is a connection to the system, `atlas` tells whether
    /// the window shares an atlas that is there already.
    pub fn new(window_id: i64, color_mode: Option<ColorMode>, atlas: bool) -> (r: OhosWindow)
        ensures
            r@ == WindowView::initial(window_id, color_mode, atlas),
            r@.wf(),
    {
        let appearance = match color_mode {
            Some(mode) => appearance_for_color_mode(mode),
            None => WindowAppearance::Light,
        };
        let r = OhosWindow {
            window_id,
            maximized: false,
            fullscreen: false,
            background_appearance: WindowBackgroundAppearance::Opaque,
            active: window_id == 0,
            hovered: false,
            visibility: WindowVisibility::Visible,
            appearance,
            insets: WindowInsets { top: 0, right: 0, bottom: 0, left: 0 },
            keyboard_overlap_device_px: 0,
            keyboard_visible: false,
            renderer: false,
            atlas,
            pointer_position: None,
            mouse: MouseState::new(),
            back_enabled: false,
            key_state: OhosKeyState::new(),
            touches: TouchTracker::new(),
        };
        assert(r@ =~= WindowView::initial(window_id, color_mode, atlas));
        r
    }

    /// The steps for an event of the system.
    pub fn handle_event(&self, event: &Event) -> (r: Vec<WindowStep>)
        ensures
            r@ == plan(self@.window_id, *event),
    {
        let mut steps: Vec<WindowStep> = Vec::new();
        match event {
            Event::SurfaceCreate => {
                steps.push(WindowStep::InitializeRenderer);
                steps.push(WindowStep::RefreshOverlap { report: true });
                steps.push(WindowStep::RefreshInsets);
            },
            Event::SurfaceDestroy => {
                steps.push(WindowStep::DropRenderer);
                steps.push(WindowStep::SetHovered(false));
            },
            Event::WindowResize { window_id, width, height } => {
                if *window_id == self.window_id {
                    steps.push(WindowStep::Resize { width: *width, height: *height });
                    steps.push(WindowStep::RefreshOverlap { report: false });
                    steps.push(WindowStep::EmitResize);
                    steps.push(WindowStep::RefreshInsets);
                }
            },
            Event::ContentRectChange { window_id, rect } => {
                if *window_id == self.window_id {
                    steps.push(WindowStep::MoveTo { rect: *rect });
                    steps.push(WindowStep::RefreshOverlap { report: true });
                    steps.push(WindowStep::RefreshInsets);
                }
            },
            Event::AvoidAreaChange { area_type } => {
                if matches!(
                    area_type,
                    AvoidAreaType::Keyboard
                        | AvoidAreaType::System
                        | AvoidAreaType::SystemGesture
                        | AvoidAreaType::NavigationIndicator
                ) {
                    steps.push(WindowStep::RefreshOverlap { report: true });
                }
                steps.push(WindowStep::RefreshInsets);
            },
            Event::Start => steps.push(WindowStep::SetVisibility(WindowVisibility::Visible)),
            Event::Stop => steps.push(WindowStep::SetVisibility(WindowVisibility::Hidden)),
            Event::WindowRedraw => steps.push(WindowStep::RequestFrame),
            Event::Input(input) => {
                return handle_input_event(input);
            },
            Event::WindowFocusChanged { window_id, focused } => {
                let active = *focused && *window_id == self.window_id;
                steps.push(WindowStep::SetActive { active, report: true });
                if !active {
                    steps.push(WindowStep::SetHovered(false));
                    steps.push(WindowStep::ForgetMouse);
                    steps.push(WindowStep::ClearKeys);
                    steps.push(WindowStep::HideKeyboard);
                    steps.push(WindowStep::RefreshOverlap { report: true });
                }
            },
            Event::ConfigChanged { color_mode } => {
                steps.push(WindowStep::SetAppearance(appearance_for_color_mode(*color_mode)));
                steps.push(WindowStep::ReadScale);
                steps.push(WindowStep::RefreshOverlap { report: false });
                steps.push(WindowStep::EmitResize);
                steps.push(WindowStep::RefreshInsets);
            },
            Event::WindowDestroy => {
                steps.push(WindowStep::SetVisibility(WindowVisibility::Hidden));
                steps.push(WindowStep::SetActive { active: false, report: false });
                steps.push(WindowStep::SetHovered(false));
                steps.push(WindowStep::RefreshOverlap { report: true });
                steps.push(WindowStep::AskToClose);
            },
            Event::KeyboardEvent { height } => {
                steps.push(WindowStep::SetKeyboardShown(*height > 0));
                steps.push(WindowStep::RefreshOverlap { report: true });
            },
            Event::NewWant { .. } | Event::Other => {},
        }
        assert(steps@ =~= plan(self@.window_id, *event));
        steps
    }

    /// Tells whether a step can be performed.
    pub fn is_in_range(&self, step: &WindowStep, facts: &WindowFacts) -> (r: bool)
        ensures
            r == self@.in_range(*step, *facts),
    {
        match step {
            WindowStep::RefreshOverlap { .. } => match facts.geometry {
                Some(geometry) => geometry.is_overlap_in_range(),
                None => true,
            },
            WindowStep::MoveTo { rect } => {
                let content = content_rect_of(facts.geometry);
                rect.left.checked_add(content.left).is_some() && rect.top.checked_add(
                    content.top,
                ).is_some()
            },
            WindowStep::Touch(touch) => touch.phase != TouchPhase::Started
                || self.touches.can_start(),
            _ => true,
        }
    }

    /// Measures how much the keyboard hides, and tells whether that changed.
    pub fn refresh_keyboard_overlap_device_px(&mut self, geometry: Option<WindowGeometry>) -> (r:
        bool)
        requires
            geometry is Some ==> geometry->0.overlap_in_range(),
        ensures
            final(self)@ == (WindowView {
                keyboard_overlap: overlap_px(geometry, old(self)@.keyboard_visible) as i32,
                ..old(self)@
            }),
            0 <= overlap_px(geometry, old(self)@.keyboard_visible) <= i32::MAX,
            r == (overlap_px(geometry, old(self)@.keyboard_visible)
                != old(self)@.keyboard_overlap),
    {
        let next: i32 = match keyboard_overlap_from_avoid_area_device_px(
            geometry,
            self.keyboard_visible,
        ) {
            Some(overlap) => overlap,
            None => 0,
        };
        if self.keyboard_overlap_device_px != next {
            self.keyboard_overlap_device_px = next;
            true
        } else {
            false
        }
    }

    /// Takes the safe area, and tells whether it changed.
    pub fn refresh_insets(&mut self, next: WindowInsets) -> (r: bool)
        ensures
            final(self)@ == (WindowView { insets: next, ..old(self)@ }),
            r == (old(self)@.insets != next),
    {
        if self.insets == next {
            return false;
        }
        self.insets = next;
        true
    }

    /// Shows or hides the window, and tells whether that changed.
    pub fn update_visibility(&mut self, next: WindowVisibility) -> (r: bool)
        ensures
            final(self)@ == (WindowView { visibility: next, ..old(self)@ }),
            r == (old(self)@.visibility != next),
    {
        if self.visibility == next {
            return false;
        }
        self.visibility = next;
        true
    }

    /// Takes whether the pointer is over the window, and tells whether that
    /// changed.
    pub fn set_hovered(&mut self, hovered: bool) -> (r: bool)
        ensures
            final(self)@ == (WindowView { hovered, ..old(self)@ }),
            r == (old(self)@.hovered != hovered),
    {
        if self.hovered == hovered {
            return false;
        }
        self.hovered = hovered;
        true
    }

    /// Takes a mouse event.
    pub fn dispatch_mouse(&mut self, event: MouseEventData, facts: &WindowFacts) -> (r: Vec<
        WindowAction,
    >)
        ensures
            final(self)@ == old(self)@.after_mouse(event, facts.timing),
            action_views(r@) == old(self)@.mouse_actions(event, *facts),
    {
        self.pointer_position = Some(event.position);
        let named = mouse_button(event.button);
        let modifiers = self.key_state.modifiers();
        let mut actions: Vec<WindowAction> = Vec::new();
        match event.action {
            MouseAction::Press => {
                if let Some(button) = named {
                    let down = self.mouse.press(button, event.position, facts.timing, modifiers);
                    actions.push(WindowAction::Dispatch(PlatformInput::MouseDown(down)));
                }
            },
            MouseAction::Release => {
                if let Some(up) = self.mouse.release(named, event.position, modifiers) {
                    actions.push(WindowAction::Dispatch(PlatformInput::MouseUp(up)));
                }
            },
            MouseAction::Move => {
                if facts.cursor_hidden {
                    actions.push(WindowAction::RestoreCursor);
                }
                let moved = self.mouse.move_to(named, event.position, modifiers);
                actions.push(WindowAction::Dispatch(PlatformInput::MouseMove(moved)));
            },
            MouseAction::Nothing => {},
        }
        assert(action_views(actions@) =~= old(self)@.mouse_actions(event, *facts));
        actions
    }

    /// Takes a scroll.
    pub fn dispatch_scroll(&mut self, axis: AxisEventData) -> (r: Vec<WindowAction>)
        ensures
            final(self)@ == (WindowView {
                pointer_position: Some(axis.position),
                ..old(self)@
            }),
            action_views(r@) == old(self)@.scroll_actions(axis),
    {
        self.pointer_position = Some(axis.position);
        let touch_phase = axis_phase(axis.action);
        let mut actions: Vec<WindowAction> = Vec::new();
        if !axis.still || matches!(touch_phase, TouchPhase::Started | TouchPhase::Ended) {
            actions.push(
                WindowAction::Dispatch(
                    PlatformInput::ScrollWheel(
                        ScrollWheelEvent {
                            position: axis.position,
                            delta: axis.delta,
                            modifiers: self.key_state.modifiers(),
                            touch_phase,
                        },
                    ),
                ),
            );
        }
        assert(action_views(actions@) =~= old(self)@.scroll_actions(axis));
        actions
    }

    /// Takes the movement of one finger.
    pub fn dispatch_touch(&mut self, touch: RawTouch, facts: &WindowFacts) -> (r: Vec<
        WindowAction,
    >)
        requires
            old(self)@.wf(),
            old(self)@.in_range(WindowStep::Touch(touch), *facts),
        ensures
            final(self)@ == old(self)@.after_touch(touch, *facts),
            final(self)@.touches.wf(),
            action_views(r@) == old(self)@.touch_actions(touch, *facts),
    {
        let mut actions: Vec<WindowAction> = Vec::new();
        let outcome = self.touches.dispatch_raw_touch_point(
            touch,
            facts.targets_text_input,
            facts.distance,
        );
        if let Some(outcome) = outcome {
            self.pointer_position = Some(touch.point.position);
            actions.push(WindowAction::Dispatch(PlatformInput::Touch(outcome.event)));
            if outcome.reopen_keyboard {
                actions.push(WindowAction::ReopenKeyboard);
            }
        }
        assert(action_views(actions@) =~= old(self)@.touch_actions(touch, *facts));
        actions
    }

    fn resize(&self, width: i32, height: i32, facts: &WindowFacts) -> (r: Vec<WindowAction>)
        ensures
            action_views(r@) == self@.resize_actions(width, height, *facts),
    {
        let content = content_rect_of(facts.geometry);
        let device_width: i32 = if content.width > 0 {
            content.width
        } else {
            width
        };
        let device_height: i32 = if content.height > 0 {
            content.height
        } else {
            height
        };
        let mut actions = one_action(
            WindowAction::SetSize { width: device_width, height: device_height },
        );
        if self.renderer {
            actions.push(
                WindowAction::SetDrawableSize { width: device_width, height: device_height },
            );
        }
        assert(action_views(actions@) =~= self@.resize_actions(width, height, *facts));
        actions
    }

    fn move_to(&self, rect: Rect, facts: &WindowFacts) -> (r: Vec<WindowAction>)
        requires
            self@.in_range(WindowStep::MoveTo { rect }, *facts),
        ensures
            action_views(r@) == move_actions(rect, *facts),
    {
        let content = content_rect_of(facts.geometry);
        one_action(
            WindowAction::SetOrigin {
                left: rect.left + content.left,
                top: rect.top + content.top,
            },
        )
    }

    fn clear_keys(&mut self) -> (r: Vec<WindowAction>)
        ensures
            final(self)@ == (WindowView { keys: old(self)@.keys.cleared(), ..old(self)@ }),
            forall|facts: WindowFacts|
                action_views(r@) == #[trigger] old(self)@.actions(WindowStep::ClearKeys, facts),
    {
        match self.key_state.clear_pressed() {
            Some(event) => one_action(WindowAction::Dispatch(event)),
            None => no_action(),
        }
    }

    /// Takes whether the window has the focus, and tells whether that changed.
    pub fn set_active(&mut self, active: bool) -> (r: bool)
        ensures
            final(self)@ == (WindowView { active, ..old(self)@ }),
            r == (old(self)@.active != active),
    {
        if self.active == active {
            return false;
        }
        self.active = active;
        true
    }

    /// Gives the window a look, and tells whether that changed.
    pub fn set_appearance(&mut self, appearance: WindowAppearance) -> (r: bool)
        ensures
            final(self)@ == (WindowView { appearance, ..old(self)@ }),
            r == (old(self)@.appearance != appearance),
    {
        if self.appearance == appearance {
            return false;
        }
        self.appearance = appearance;
        true
    }

    /// Takes it from the system whether the soft keyboard is shown.
    pub fn set_keyboard_shown(&mut self, shown: bool)
        ensures
            final(self)@ == (WindowView { keyboard_visible: shown, ..old(self)@ }),
    {
        self.keyboard_visible = shown;
    }

    /// Forgets the held button and the last click.
    pub fn forget_mouse(&mut self)
        ensures
            final(self)@ == (WindowView {
                mouse: MouseState { pressed: None, click: None },
                ..old(self)@
            }),
    {
        self.mouse = MouseState { pressed: None, click: None };
    }

    fn change_look(&mut self, step: &WindowStep, facts: &WindowFacts) -> (r: Vec<WindowAction>)
        requires
            step is SetVisibility || step is SetActive || step is SetHovered || step
                is SetAppearance,
        ensures
            final(self)@ == old(self)@.after(*step, *facts),
            action_views(r@) == old(self)@.actions(*step, *facts),
    {
        match step {
            WindowStep::SetVisibility(visibility) => {
                let changed = self.update_visibility(*visibility);
                action_if(changed, WindowAction::VisibilityChanged(*visibility))
            },
            WindowStep::SetActive { active, report } => {
                let changed = self.set_active(*active);
                action_if(changed && *report, WindowAction::ActiveChanged(*active))
            },
            WindowStep::SetHovered(hovered) => {
                let changed = self.set_hovered(*hovered);
                action_if(changed, WindowAction::HoverChanged(*hovered))
            },
            WindowStep::SetAppearance(appearance) => {
                let changed = self.set_appearance(*appearance);
                action_if(changed, WindowAction::AppearanceChanged)
            },
            _ => no_action(),
        }
    }

    fn change_measures(&mut self, step: &WindowStep, facts: &WindowFacts) -> (r: Vec<WindowAction>)
        requires
            old(self)@.in_range(*step, *facts),
            step is RefreshOverlap || step is RefreshInsets || step is HideKeyboard || step
                is SetKeyboardShown,
        ensures
            final(self)@ == old(self)@.after(*step, *facts),
            action_views(r@) == old(self)@.actions(*step, *facts),
    {
        match step {
            WindowStep::RefreshOverlap { report } => {
                let changed = self.refresh_keyboard_overlap_device_px(facts.geometry);
                action_if(changed && *report, WindowAction::EmitResize)
            },
            WindowStep::RefreshInsets => {
                let changed = self.refresh_insets(facts.insets);
                action_if(changed, WindowAction::InsetsChanged(facts.insets))
            },
            WindowStep::HideKeyboard => {
                let hide = self.hide_keyboard_if_needed(facts.geometry.is_some());
                action_if(hide, WindowAction::HideKeyboard)
            },
            WindowStep::SetKeyboardShown(shown) => {
                self.set_keyboard_shown(*shown);
                no_action()
            },
            _ => no_action(),
        }
    }

    fn take_input(&mut self, step: &WindowStep, facts: &WindowFacts) -> (r: Vec<WindowAction>)
        requires
            old(self)@.wf(),
            old(self)@.in_range(*step, *facts),
            step is Mouse || step is Scroll || step is Touch || step is Key || step is ClearKeys
                || step is ForgetMouse,
        ensures
            final(self)@ == old(self)@.after(*step, *facts),
            action_views(r@) == old(self)@.actions(*step, *facts),
    {
        match step {
            WindowStep::Mouse(event) => self.dispatch_mouse(*event, facts),
            WindowStep::Scroll(axis) => self.dispatch_scroll(*axis),
            WindowStep::Touch(touch) => self.dispatch_touch(*touch, facts),
            WindowStep::Key(key) => dispatch_all(self.key_state.handle(key)),
            WindowStep::ClearKeys => self.clear_keys(),
            _ => {
                self.forget_mouse();
                no_action()
            },
        }
    }

    /// Performs a step: changes the window and gives what has to be done.
    pub fn perform(&mut self, step: &WindowStep, facts: &WindowFacts) -> (r: Vec<WindowAction>)
        requires
            old(self)@.wf(),
            old(self)@.in_range(*step, *facts),
        ensures
            final(self)@ == old(self)@.after(*step, *facts),
            final(self)@.wf(),
            action_views(r@) == old(self)@.actions(*step, *facts),
    {
        proof {
            law_steps_keep_window_sound(self@, *step, *facts);
        }
        match step {
            WindowStep::InitializeRenderer => one_action(WindowAction::InitializeRenderer),
            WindowStep::DropRenderer => {
                self.renderer = false;
                one_action(WindowAction::DropRenderer)
            },
            WindowStep::Resize { width, height } => self.resize(*width, *height, facts),
            WindowStep::MoveTo { rect } => self.move_to(*rect, facts),
            WindowStep::EmitResize => one_action(WindowAction::EmitResize),
            WindowStep::RequestFrame => one_action(WindowAction::RequestFrame),
            WindowStep::ReadScale => one_action(WindowAction::ReadScale),
            WindowStep::AskToClose => one_action(WindowAction::AskToClose),
            WindowStep::EditText => one_action(WindowAction::EditText),
            WindowStep::SetVisibility(_)
            | WindowStep::SetActive { .. }
            | WindowStep::SetHovered(_)
            | WindowStep::SetAppearance(_) => self.change_look(step, facts),
            WindowStep::RefreshOverlap { .. }
            | WindowStep::RefreshInsets
            | WindowStep::HideKeyboard
            | WindowStep::SetKeyboardShown(_) => self.change_measures(step, facts),
            _ => self.take_input(step, facts),
        }
    }

    /// Asks for the soft keyboard, and tells whether the request can be made:
    /// it takes a connection to the system.
    pub fn request_keyboard(&mut self, connected: bool) -> (r: bool)
        ensures
            r == connected,
            final(self)@ == (WindowView {
                keyboard_visible: connected || old(self)@.keyboard_visible,
                ..old(self)@
            }),
            final(self)@ == old(self)@.after_keyboard_wish(connected),
    {
        if connected {
            self.keyboard_visible = true;
        }
        connected
    }

    /// Asks for the soft keyboard unless it is taken to be shown, and tells
    /// whether to request it.
    pub fn show_keyboard_if_needed(&mut self, connected: bool) -> (r: bool)
        ensures
            r == (connected && !old(self)@.keyboard_visible),
            final(self)@ == (WindowView {
                keyboard_visible: connected || old(self)@.keyboard_visible,
                ..old(self)@
            }),
            final(self)@ == old(self)@.after_keyboard_wish(connected),
    {
        if self.keyboard_visible {
            false
        } else {
            self.request_keyboard(connected)
        }
    }

    /// Takes the soft keyboard to be hidden, and tells whether to hide it.
    pub fn hide_keyboard_if_needed(&mut self, connected: bool) -> (r: bool)
        ensures
            r == (connected && old(self)@.keyboard_visible),
            final(self)@ == (WindowView { keyboard_visible: false, ..old(self)@ }),
    {
        let shown = self.keyboard_visible;
        self.keyboard_visible = false;
        shown && connected
    }

    /// Takes an explicit wish for the soft keyboard, and tells whether to request
    /// it: always where the request can be made, since the system may have
    /// dismissed the keyboard meanwhile.
    pub fn show_soft_keyboard(&mut self, connected: bool) -> (r: bool)
        ensures
            r == connected,
            final(self)@ == (WindowView {
                keyboard_visible: connected || old(self)@.keyboard_visible,
                ..old(self)@
            }),
            final(self)@ == old(self)@.after_keyboard_wish(connected),
    {
        self.request_keyboard(connected)
    }

    /// Takes an explicit wish to hide the soft keyboard, and tells whether to
    /// hide it.
    pub fn hide_soft_keyboard(&mut self, connected: bool) -> (r: bool)
        ensures
            r == (connected && old(self)@.keyboard_visible),
            final(self)@ == (WindowView { keyboard_visible: false, ..old(self)@ }),
    {
        self.hide_keyboard_if_needed(connected)
    }

    /// Takes a change in a text input, and tells what it asks of the soft
    /// keyboard.
    pub fn text_input_state_changed(&mut self, change: TextInputStateChange, connected: bool) -> (r:
        KeyboardRequest)
        ensures
            r == old(self)@.keyboard_request(change, connected),
            final(self)@ == (WindowView {
                keyboard_visible: match change {
                    TextInputStateChange::FocusGained => connected
                        || old(self)@.keyboard_visible,
                    TextInputStateChange::FocusLost => false,
                    _ => old(self)@.keyboard_visible,
                },
                ..old(self)@
            }),
            final(self)@ == old(self)@.after_text_change(change, connected),
    {
        match change {
            TextInputStateChange::FocusGained => if self.show_keyboard_if_needed(connected) {
                KeyboardRequest::Show
            } else {
                KeyboardRequest::Nothing
            },
            TextInputStateChange::FocusLost => if self.hide_keyboard_if_needed(connected) {
                KeyboardRequest::Hide
            } else {
                KeyboardRequest::Nothing
            },
            TextInputStateChange::SelectionChanged | TextInputStateChange::ContentChanged =>
                KeyboardRequest::Nothing,
        }
    }

    /// Decides what to do for a renderer.
    pub fn initialize_renderer(&self, facts: SurfaceFacts) -> (r: Result<
        RendererPlan,
        RendererError,
    >)
        ensures
            self@.renderer ==> r == Ok::<RendererPlan, RendererError>(RendererPlan::Ready),
            r == Err::<RendererPlan, RendererError>(RendererError::AppUnavailable)
                <==> !self@.renderer && facts.content_rect is None,
            r == Err::<RendererPlan, RendererError>(RendererError::NativeWindowUnavailable)
                <==> !self@.renderer && facts.content_rect is Some && !facts.native_window,
            !self@.renderer && facts.content_rect is Some && facts.native_window ==> r == Ok::<
                RendererPlan,
                RendererError,
            >(RendererPlan::Create(surface_plan(facts.content_rect->0, facts))),
    {
        plan_renderer(self.renderer, facts)
    }

    /// Takes the outcome of making a renderer. A renderer brings an atlas, which
    /// stays with the window.
    pub fn renderer_created(&mut self, outcome: Result<(), String>) -> (r: Result<
        (),
        RendererError,
    >)
        ensures
            r is Ok <==> outcome is Ok,
            final(self)@ == old(self)@.after_renderer(outcome is Ok),
            outcome is Ok ==> final(self)@ == (WindowView {
                renderer: true,
                atlas: true,
                ..old(self)@
            }),
            outcome is Err ==> final(self)@ == old(self)@ && r == Err::<(), RendererError>(
                RendererError::CreationFailed(outcome->Err_0),
            ),
    {
        match outcome {
            Ok(()) => {
                self.renderer = true;
                self.atlas = true;
                Ok(())
            },
            Err(reason) => Err(RendererError::CreationFailed(reason)),
        }
    }

    /// Tells whether drawing has to make a renderer first.
    pub fn needs_renderer(&self) -> (r: bool)
        ensures
            r == !self@.renderer,
    {
        !self.renderer
    }

    /// Where the window's atlas comes from.
    pub fn sprite_atlas(&self) -> (r: AtlasSource)
        ensures
            r == self@.atlas_source(),
    {
        if self.renderer {
            AtlasSource::Renderer
        } else if self.atlas {
            AtlasSource::Fallback
        } else {
            AtlasSource::Initialize
        }
    }

    /// The request that zooms the window: a maximized window is restored.
    pub fn zoom(&self) -> (r: ZoomRequest)
        ensures
            r == self@.zoom_request(),
            r == if self@.maximized {
                ZoomRequest::Restore
            } else {
                ZoomRequest::Maximize
            },
    {
        if self.maximized {
            ZoomRequest::Restore
        } else {
            ZoomRequest::Maximize
        }
    }

    /// Takes the outcome of a zoom.
    pub fn zoomed(&mut self, request: ZoomRequest, succeeded: bool)
        ensures
            final(self)@ == old(self)@.after_zoom(request, succeeded),
            final(self)@ == (WindowView {
                maximized: if succeeded {
                    request is Maximize
                } else {
                    old(self)@.maximized
                },
                ..old(self)@
            }),
    {
        if succeeded {
            self.maximized = request == ZoomRequest::Maximize;
        }
    }

    /// Whether the window shall fill the screen after a toggle.
    pub fn toggle_fullscreen(&self) -> (r: bool)
        ensures
            r == !self@.fullscreen,
            r == self@.fullscreen_request(),
    {
        !self.fullscreen
    }

    /// Takes the outcome of a toggle.
    pub fn fullscreen_toggled(&mut self, fullscreen: bool, succeeded: bool)
        ensures
            final(self)@ == old(self)@.after_fullscreen(fullscreen, succeeded),
            final(self)@ == (WindowView {
                fullscreen: if succeeded {
                    fullscreen
                } else {
                    old(self)@.fullscreen
                },
                ..old(self)@
            }),
    {
        if succeeded {
            self.fullscreen = fullscreen;
        }
    }

    /// Takes the outcome of setting the window's background. A surface cannot
    /// blur what is behind it, so that a blurred background is a transparent
    /// one.
    pub fn set_background_appearance(
        &mut self,
        appearance: WindowBackgroundAppearance,
        succeeded: bool,
    )
        ensures
            final(self)@ == old(self)@.after_background(appearance, succeeded),
            final(self)@ == (WindowView {
                background_appearance: if !succeeded {
                    old(self)@.background_appearance
                } else if appearance is Blurred {
                    WindowBackgroundAppearance::Transparent
                } else {
                    appearance
                },
                ..old(self)@
            }),
    {
        if succeeded {
            self.background_appearance =
            if appearance == WindowBackgroundAppearance::Blurred {
                WindowBackgroundAppearance::Transparent
            } else {
                appearance
            };
        }
    }

    /// Tells whether the system has to destroy the window when it is dropped:
    /// the main window belongs to the application.
    pub fn destroys_on_drop(&self) -> (r: bool)
        ensures
            r == (self@.window_id != 0),
            r == self@.is_child(),
    {
        self.window_id != 0
    }

    /// Lets the window take the back gesture or not.
    pub fn set_back_enabled(&mut self, enabled: bool)
        ensures
            final(self)@ == (WindowView { back_enabled: enabled, ..old(self)@ }),
    {
        self.back_enabled = enabled;
    }

    /// Whether the window takes the back gesture.
    pub fn back_enabled(&self) -> (r: bool)
        ensures
            r == self@.back_enabled,
    {
        self.back_enabled
    }

    /// The system's number for the window.
    pub fn window_id(&self) -> (r: i64)
        ensures
            r == self@.window_id,
    {
        self.window_id
    }

    /// Whether the window is maximized.
    pub fn is_maximized(&self) -> (r: bool)
        ensures
            r == self@.maximized,
    {
        self.maximized
    }

    /// Whether the window fills the screen.
    pub fn is_fullscreen(&self) -> (r: bool)
        ensures
            r == self@.fullscreen,
    {
        self.fullscreen
    }

    /// What shows behind the window's content.
    pub fn background_appearance(&self) -> (r: WindowBackgroundAppearance)
        ensures
            r == self@.background_appearance,
    {
        self.background_appearance
    }

    /// Whether the window has the focus.
    pub fn is_active(&self) -> (r: bool)
        ensures
            r == self@.active,
    {
        self.active
    }

    /// Whether the pointer is over the window.
    pub fn is_hovered(&self) -> (r: bool)
        ensures
            r == self@.hovered,
    {
        self.hovered
    }

    /// Whether any of the window can be seen.
    pub fn visibility(&self) -> (r: WindowVisibility)
        ensures
            r == self@.visibility,
    {
        self.visibility
    }

    /// The look of the window.
    pub fn appearance(&self) -> (r: WindowAppearance)
        ensures
            r == self@.appearance,
    {
        self.appearance
    }

    /// How many device pixels the keyboard hides.
    pub fn keyboard_overlap_device_px(&self) -> (r: i32)
        ensures
            r == self@.keyboard_overlap,
    {
        self.keyboard_overlap_device_px
    }

    /// Whether the soft keyboard is taken to be shown.
    pub fn keyboard_visible(&self) -> (r: bool)
        ensures
            r == self@.keyboard_visible,
    {
        self.keyboard_visible
    }

    /// Where the pointer is; the origin where it never was.
    pub fn mouse_position(&self) -> (r: Position)
        ensures
            r == self@.pointer(),
            r == match self@.pointer_position {
                Some(position) => position,
                None => Position { x: 0, y: 0 },
            },
    {
        match self.pointer_position {
            Some(position) => position,
            None => Position { x: 0, y: 0 },
        }
    }

    /// The modifiers that are held.
    pub fn modifiers(&self) -> (r: Modifiers)
        ensures
            r == self@.keys.modifiers,
    {
        self.key_state.modifiers()
    }

    /// The caps lock.
    pub fn capslock(&self) -> (r: Capslock)
        ensures
            r == self@.keys.capslock,
    {
        self.key_state.capslock()
    }

    /// Where the last press of a mouse button was.
    pub fn last_click_position(&self) -> (r: Option<Position>)
        ensures
            r == match self@.mouse.click {
                Some(click) => Some(click.position),
                None => None,
            },
    {
        self.mouse.last_position()
    }

    /// Where a finger that may be a tap went down.
    pub fn tap_start(&self, finger: i32) -> (r: Option<Position>)
        ensures
            r == if self@.touches.candidates.contains_key(finger) {
                Some(self@.touches.candidates[finger].start_position)
            } else {
                None
            },
    {
        self.touches.tap_start(finger)
    }

    /// Tells whether it matters where a finger goes down now.
    pub fn may_tap(&self, phase: TouchPhase) -> (r: bool)
        ensures
            r == (phase is Started && self@.touches.active.dom().is_empty()),
    {
        self.touches.may_tap(phase)
    }
}

/// The size to ask the system for.
pub open spec fn resize_request(width: i64, height: i64) -> Option<(i64, i64)> {
    if width > 0 && height > 0 {
        Some((width, height))
    } else {
        None
    }
}

/// The size to ask the system for: none where a side would be empty.
pub fn request_resize(width: i64, height: i64) -> (r: Option<(i64, i64)>)
    ensures
        r == resize_request(width, height),
        r == if width > 0 && height > 0 {
            Some((width, height))
        } else {
            None
        },
{
    if width <= 0 || height <= 0 {
        return None;
    }
    Some((width, height))
}

/// The colour of a background, with its opacity in the upper eight bits.
pub open spec fn color_of(appearance: WindowBackgroundAppearance) -> u32 {
    if appearance is Opaque {
        0xff000000
    } else {
        0
    }
}

/// The colour, with its opacity in the upper eight bits, that a background asks
/// the system for.
pub fn background_color(appearance: WindowBackgroundAppearance) -> (r: u32)
    ensures
        r == color_of(appearance),
        r == if appearance is Opaque {
            0xff000000u32
        } else {
            0u32
        },
{
    if appearance == WindowBackgroundAppearance::Opaque {
        0xff000000
    } else {
        0x00000000
    }
}

/// The code with which the system answers that no text input is attached.
pub const IME_CLIENT_DETACHED: i32 = 12800009;

/// Whether the answer to a new place for the input method is fine.
pub open spec fn ime_answer_is_fine(ok: bool, code: i32) -> bool {
    ok || code == IME_CLIENT_DETACHED
}

/// Tells whether the answer to a new place for the input method is fine. Where no
/// text input is attached there is no place to update.
pub fn ime_position_accepted(ok: bool, code: i32) -> (r: bool)
    ensures
        r == ime_answer_is_fine(ok, code),
        r == (ok || code == IME_CLIENT_DETACHED),
{
    ok || code == IME_CLIENT_DETACHED
}

/// Whether a window closes, given what its owner says.
pub open spec fn closes(answer: Option<bool>) -> bool {
    answer is None || answer->0
}

/// Tells whether a window closes. `answer` is what its owner says, where it has a
/// say.
pub fn should_close(answer: Option<bool>) -> (r: bool)
    ensures
        r == closes(answer),
        r == (answer is None || answer->0),
{
    match answer {
        Some(answer) => answer,
        None => true,
    }
}

/// The controls that a window draws itself: the system draws them all.
pub fn window_controls() -> (r: WindowControls)
    ensures
        !r.fullscreen && !r.maximize && !r.minimize && !r.window_menu,
{
    WindowControls { fullscreen: false, maximize: false, minimize: false, window_menu: false }
}

/// Every step keeps a window sound.
pub proof fn law_steps_keep_window_sound(state: WindowView, step: WindowStep, facts: WindowFacts)
    requires
        state.wf(),
        state.in_range(step, facts),
    ensures
        state.after(step, facts).wf(),
{
    match step {
        WindowStep::RefreshOverlap { .. } => {
            if facts.geometry is Some {
                law_overlap_fits_surface(facts.geometry->0, state.keyboard_visible);
            }
        },
        WindowStep::Touch(touch) => {
            law_fingers_stay_sound(
                state.touches,
                touch,
                facts.targets_text_input,
                facts.distance,
            );
        },
        _ => {},
    }
}

/// The window after several steps, each with what is known at its turn.
pub open spec fn after_all(
    state: WindowView,
    steps: Seq<WindowStep>,
    facts: Seq<WindowFacts>,
) -> WindowView
    decreases steps.len(),
{
    if steps.len() == 0 {
        state
    } else {
        after_all(state.after(steps[0], facts[0]), steps.skip(1), facts.skip(1))
    }
}

proof fn lemma_first_step(
    state: WindowView,
    steps: Seq<WindowStep>,
    facts: Seq<WindowFacts>,
    next: WindowView,
)
    requires
        steps.len() > 0,
        next == state.after(steps[0], facts[0]),
    ensures
        after_all(state, steps, facts) == after_all(next, steps.skip(1), facts.skip(1)),
{
}

/// A window that loses the focus, or whose focus goes to another window, ends up
/// inactive, without the pointer over it, with no key and no button held, with
/// the soft keyboard taken to be hidden and with the overlap measured anew. The
/// caps lock stays.
pub proof fn law_lost_focus_resets_window(
    state: WindowView,
    window_id: i64,
    focused: bool,
    facts: Seq<WindowFacts>,
)
    requires
        state.wf(),
        !focused || window_id != state.window_id,
        facts.len() == 6,
        facts[5].geometry is Some ==> facts[5].geometry->0.overlap_in_range(),
    ensures
        ({
            let event = Event::WindowFocusChanged { window_id, focused };
            let end = after_all(state, plan(state.window_id, event), facts);
            &&& !end.active
            &&& !end.hovered
            &&& end.mouse.pressed is None
            &&& end.mouse.click is None
            &&& end.keys == state.keys.cleared()
            &&& end.keys.capslock == state.keys.capslock
            &&& !end.keyboard_visible
            &&& end.keyboard_overlap == overlap_px(facts[5].geometry, false)
        }),
{
    let steps = lost_focus();
    let s1 = WindowView { active: false, ..state };
    let s2 = WindowView { hovered: false, ..s1 };
    let s3 = WindowView { mouse: MouseState { pressed: None, click: None }, ..s2 };
    let s4 = WindowView { keys: state.keys.cleared(), ..s3 };
    let s5 = WindowView { keyboard_visible: false, ..s4 };
    lemma_first_step(state, steps, facts, s1);
    lemma_first_step(s1, steps.skip(1), facts.skip(1), s2);
    lemma_first_step(s2, steps.skip(1).skip(1), facts.skip(1).skip(1), s3);
    let steps = steps.skip(1).skip(1).skip(1);
    let f = facts.skip(1).skip(1).skip(1);
    lemma_first_step(s3, steps, f, s4);
    lemma_first_step(s4, steps.skip(1), f.skip(1), s5);
    lemma_first_step(
        s5,
        steps.skip(1).skip(1),
        f.skip(1).skip(1),
        s5.after(remeasure(), facts[5]),
    );
    if facts[5].geometry is Some {
        law_overlap_fits_surface(facts[5].geometry->0, false);
    }
}

/// A resize or a move of another window means nothing to this one.
pub proof fn law_other_windows_events_are_ignored(this_window: i64, window_id: i64, event: Event)
    requires
        window_id != this_window,
        event matches Event::WindowResize { window_id: id, .. } && id == window_id || (
        event matches Event::ContentRectChange { window_id: id, .. } && id == window_id),
    ensures
        plan(this_window, event) == Seq::<WindowStep>::empty(),
{
}

/// Nothing is told twice: performing a step again that sets a part of the window
/// or measures it, with the same facts, changes nothing and asks for nothing.
pub proof fn law_changes_are_told_once(state: WindowView, step: WindowStep, facts: WindowFacts)
    requires
        state.in_range(step, facts),
        step is RefreshOverlap || step is RefreshInsets || step is SetVisibility || step
            is SetActive || step is SetHovered || step is SetAppearance || step is ClearKeys
            || step is HideKeyboard || step is SetKeyboardShown || step is ForgetMouse,
    ensures
        ({
            let next = state.after(step, facts);
            &&& next.actions(step, facts) == Seq::<WindowActionView>::empty()
            &&& next.after(step, facts) == next
        }),
{
    if step is RefreshOverlap && facts.geometry is Some {
        law_overlap_fits_surface(facts.geometry->0, state.keyboard_visible);
    }
}

/// Measuring leaves the overlap that the geometry gives, and the change is
/// reported where it is asked for and where it is one.
pub proof fn law_overlap_follows_geometry(state: WindowView, facts: WindowFacts, report: bool)
    requires
        facts.geometry is Some ==> facts.geometry->0.overlap_in_range(),
    ensures
        ({
            let step = WindowStep::RefreshOverlap { report };
            let next = state.after(step, facts);
            &&& next.keyboard_overlap == overlap_px(facts.geometry, state.keyboard_visible)
            &&& (state.actions(step, facts).len() == 1) == (report && next.keyboard_overlap
                != state.keyboard_overlap)
        }),
{
    if facts.geometry is Some {
        law_overlap_fits_surface(facts.geometry->0, state.keyboard_visible);
    }
}

/// The keyboard's height that the system reports decides whether the window takes
/// the keyboard to be shown, whatever it thought before.
pub proof fn law_keyboard_height_decides(state: WindowView, height: i32, facts: Seq<WindowFacts>)
    requires
        facts.len() == 2,
    ensures
        after_all(
            state,
            plan(state.window_id, Event::KeyboardEvent { height }),
            facts,
        ).keyboard_visible == (height > 0),
{
    let steps = plan(state.window_id, Event::KeyboardEvent { height });
    let s1 = state.after(steps[0], facts[0]);
    lemma_first_step(state, steps, facts, s1);
    lemma_first_step(s1, steps.skip(1), facts.skip(1), s1.after(remeasure(), facts[1]));
}

/// An atlas is never lost: no step takes it away, so that a window which had a
/// renderer once can hand out an atlas for good.
pub proof fn law_atlas_stays(state: WindowView, step: WindowStep, facts: WindowFacts)
    requires
        state.atlas,
    ensures
        state.after(step, facts).atlas,
        !(state.after(step, facts).atlas_source() is Initialize),
{
}

/// A step changes neither the window's number nor what only requests change.
pub proof fn law_steps_keep_requested_state(state: WindowView, step: WindowStep, facts: WindowFacts)
    ensures
        ({
            let next = state.after(step, facts);
            &&& next.window_id == state.window_id
            &&& next.maximized == state.maximized
            &&& next.fullscreen == state.fullscreen
            &&& next.background_appearance == state.background_appearance
            &&& next.back_enabled == state.back_enabled
        }),
{
}

/// A text input that gains the focus asks for the keyboard unless it is taken to
/// be shown; one that loses it gives the keyboard up.
pub proof fn law_keyboard_follows_text_focus(state: WindowView)
    ensures
        state.keyboard_request(TextInputStateChange::FocusGained, true) is Show
            <==> !state.keyboard_visible,
        state.keyboard_request(TextInputStateChange::FocusLost, true) is Hide
            <==> state.keyboard_visible,
        forall|change: TextInputStateChange| #[trigger]
            state.keyboard_request(change, false) is Nothing,
{
}

/// Where the system reports the drawable surface, a resize gives the window that
/// size, whatever size the window itself has got: a title bar takes no part.
pub proof fn law_resize_uses_drawable_surface(
    state: WindowView,
    width: i32,
    height: i32,
    facts: WindowFacts,
)
    requires
        facts.geometry is Some,
        facts.geometry->0.content_rect.width > 0,
        facts.geometry->0.content_rect.height > 0,
    ensures
        ({
            let content = facts.geometry->0.content_rect;
            state.resize_actions(width, height, facts)[0] == (WindowActionView::SetSize {
                width: content.width,
                height: content.height,
            })
        }),
{
}

/// The window after some steps, while the world around it stays the same.
#[verifier::opaque]
pub open spec fn handled(
    state: WindowView,
    steps: Seq<WindowStep>,
    facts: WindowFacts,
) -> WindowView
    decreases steps.len(),
{
    if steps.len() == 0 {
        state
    } else {
        handled(state.after(steps[0], facts), steps.skip(1), facts)
    }
}

/// What has to be done about some steps, in order, while the world around the window
/// stays the same.
#[verifier::opaque]
pub open spec fn told(state: WindowView, steps: Seq<WindowStep>, facts: WindowFacts) -> Seq<
    WindowActionView,
>
    decreases steps.len(),
{
    if steps.len() == 0 {
        Seq::empty()
    } else {
        state.actions(steps[0], facts) + told(
            state.after(steps[0], facts),
            steps.skip(1),
            facts,
        )
    }
}

/// The window after an event, while the world around it stays the same.
pub open spec fn after_event(state: WindowView, event: Event, facts: WindowFacts) -> WindowView {
    handled(state, plan(state.window_id, event), facts)
}

/// What has to be done about an event, in order.
pub open spec fn event_actions(state: WindowView, event: Event, facts: WindowFacts) -> Seq<
    WindowActionView,
> {
    told(state, plan(state.window_id, event), facts)
}

/// An action where it is called for.
pub open spec fn where_needed(needed: bool, action: WindowActionView) -> Seq<WindowActionView> {
    if needed {
        seq![action]
    } else {
        Seq::empty()
    }
}

/// How many rows the keyboard hides in the world around a window.
pub open spec fn hidden_now(facts: WindowFacts, keyboard_visible: bool) -> int {
    if facts.geometry is Some {
        facts.geometry->0.keyboard_overlap(keyboard_visible) as int
    } else {
        0
    }
}

proof fn lemma_hidden_now(facts: WindowFacts, keyboard_visible: bool)
    ensures
        0 <= hidden_now(facts, keyboard_visible) <= i32::MAX,
        overlap_px(facts.geometry, keyboard_visible) == hidden_now(facts, keyboard_visible),
{
    if facts.geometry is Some {
        law_overlap_fits_surface(facts.geometry->0, keyboard_visible);
    }
}

proof fn lemma_run1(
    state: WindowView,
    a: WindowStep,
    facts: WindowFacts,
)
    ensures
        ({
            let s1 = state.after(a, facts);
            &&& handled(state, seq![a], facts) == s1
            &&& told(state, seq![a], facts) == state.actions(a, facts)
        }),
{
    let steps = seq![a];
    assert(steps.skip(1) =~= Seq::<WindowStep>::empty());
    reveal_with_fuel(handled, 2);
    reveal_with_fuel(told, 2);
    assert(told(state, steps, facts) =~= state.actions(a, facts));
}

/// Whether a step takes a window to another state and calls for these actions.
#[verifier::opaque]
spec fn leads(
    state: WindowView,
    step: WindowStep,
    facts: WindowFacts,
    next: WindowView,
    actions: Seq<WindowActionView>,
) -> bool {
    next == state.after(step, facts) && actions == state.actions(step, facts)
}

proof fn lemma_visibility(state: WindowView, v: WindowVisibility, facts: WindowFacts)
    ensures
        leads(
            state,
            WindowStep::SetVisibility(v),
            facts,
            (WindowView { visibility: v, ..state }),
            where_needed(state.visibility != v, WindowActionView::VisibilityChanged(v)),
        ),
{
    reveal(leads);
}

proof fn lemma_active(state: WindowView, report: bool, facts: WindowFacts)
    ensures
        leads(
            state,
            WindowStep::SetActive { active: false, report },
            facts,
            (WindowView { active: false, ..state }),
            where_needed(report && state.active, WindowActionView::ActiveChanged(false)),
        ),
{
    reveal(leads);
}

proof fn lemma_unhovered(state: WindowView, facts: WindowFacts)
    ensures
        leads(
            state,
            WindowStep::SetHovered(false),
            facts,
            (WindowView { hovered: false, ..state }),
            where_needed(state.hovered, WindowActionView::HoverChanged(false)),
        ),
{
    reveal(leads);
}

proof fn lemma_forget_mouse(state: WindowView, facts: WindowFacts)
    ensures
        leads(
            state,
            WindowStep::ForgetMouse,
            facts,
            (WindowView { mouse: MouseState { pressed: None, click: None }, ..state }),
            Seq::<WindowActionView>::empty(),
        ),
{
    reveal(leads);
}

proof fn lemma_clear_keys(state: WindowView, facts: WindowFacts)
    ensures
        leads(
            state,
            WindowStep::ClearKeys,
            facts,
            (WindowView {
                keys: KeyStateView {
                    pressed: Set::empty(),
                    modifiers: Modifiers {
                        control: false,
                        alt: false,
                        shift: false,
                        platform: false,
                        function: false,
                    },
                    capslock: state.keys.capslock,
                },
                ..state
            }),
            where_needed(
                state.keys.modifiers.control || state.keys.modifiers.alt
                    || state.keys.modifiers.shift || state.keys.modifiers.platform
                    || state.keys.modifiers.function,
                WindowActionView::Dispatch(
                    PlatformInputView::ModifiersChanged {
                        modifiers: Modifiers {
                            control: false,
                            alt: false,
                            shift: false,
                            platform: false,
                            function: false,
                        },
                        capslock: state.keys.capslock,
                    },
                ),
            ),
        ),
{
    reveal(leads);
}

proof fn lemma_hide_keyboard(state: WindowView, facts: WindowFacts)
    ensures
        leads(
            state,
            WindowStep::HideKeyboard,
            facts,
            (WindowView { keyboard_visible: false, ..state }),
            where_needed(
                state.keyboard_visible && facts.geometry is Some,
                WindowActionView::HideKeyboard,
            ),
        ),
{
    reveal(leads);
}

proof fn lemma_measure(state: WindowView, report: bool, facts: WindowFacts)
    ensures
        leads(
            state,
            WindowStep::RefreshOverlap { report },
            facts,
            (WindowView {
                keyboard_overlap: hidden_now(facts, state.keyboard_visible) as i32,
                ..state
            }),
            where_needed(
                report && hidden_now(facts, state.keyboard_visible) != state.keyboard_overlap,
                WindowActionView::EmitResize,
            ),
        ),
{
    reveal(leads);
    lemma_hidden_now(facts, state.keyboard_visible);
}

proof fn lemma_insets(state: WindowView, facts: WindowFacts)
    ensures
        leads(
            state,
            WindowStep::RefreshInsets,
            facts,
            (WindowView { insets: facts.insets, ..state }),
            where_needed(
                state.insets != facts.insets,
                WindowActionView::InsetsChanged(facts.insets),
            ),
        ),
{
    reveal(leads);
}

proof fn lemma_look(state: WindowView, look: WindowAppearance, facts: WindowFacts)
    ensures
        leads(
            state,
            WindowStep::SetAppearance(look),
            facts,
            (WindowView { appearance: look, ..state }),
            where_needed(state.appearance != look, WindowActionView::AppearanceChanged),
        ),
{
    reveal(leads);
}

proof fn lemma_drop_renderer(state: WindowView, facts: WindowFacts)
    ensures
        leads(
            state,
            WindowStep::DropRenderer,
            facts,
            (WindowView { renderer: false, ..state }),
            seq![WindowActionView::DropRenderer],
        ),
{
    reveal(leads);
}

proof fn lemma_keyboard_shown(state: WindowView, shown: bool, facts: WindowFacts)
    ensures
        leads(
            state,
            WindowStep::SetKeyboardShown(shown),
            facts,
            (WindowView { keyboard_visible: shown, ..state }),
            Seq::<WindowActionView>::empty(),
        ),
{
    reveal(leads);
}

proof fn lemma_move(state: WindowView, rect: Rect, facts: WindowFacts)
    ensures
        leads(
            state,
            WindowStep::MoveTo { rect },
            facts,
            state,
            seq![
                WindowActionView::SetOrigin {
                    left: if facts.geometry is Some {
                        (rect.left + facts.geometry->0.content_rect.left) as i32
                    } else {
                        rect.left
                    },
                    top: if facts.geometry is Some {
                        (rect.top + facts.geometry->0.content_rect.top) as i32
                    } else {
                        rect.top
                    },
                },
            ],
        ),
{
    reveal(leads);
}

proof fn lemma_edit_text(state: WindowView, facts: WindowFacts)
    ensures
        leads(
            state,
            WindowStep::EditText,
            facts,
            state,
            seq![WindowActionView::EditText],
        ),
{
    reveal(leads);
}

proof fn lemma_make_renderer(state: WindowView, facts: WindowFacts)
    ensures
        leads(
            state,
            WindowStep::InitializeRenderer,
            facts,
            state,
            seq![WindowActionView::InitializeRenderer],
        ),
{
    reveal(leads);
}

proof fn lemma_read_scale(state: WindowView, facts: WindowFacts)
    ensures
        leads(
            state,
            WindowStep::ReadScale,
            facts,
            state,
            seq![WindowActionView::ReadScale],
        ),
{
    reveal(leads);
}

proof fn lemma_emit_resize(state: WindowView, facts: WindowFacts)
    ensures
        leads(
            state,
            WindowStep::EmitResize,
            facts,
            state,
            seq![WindowActionView::EmitResize],
        ),
{
    reveal(leads);
}

proof fn lemma_ask_to_close(state: WindowView, facts: WindowFacts)
    ensures
        leads(
            state,
            WindowStep::AskToClose,
            facts,
            state,
            seq![WindowActionView::AskToClose],
        ),
{
    reveal(leads);
}

proof fn lemma_resize(
    state: WindowView,
    width: i32,
    height: i32,
    device: (i32, i32),
    facts: WindowFacts,
)
    requires
        device.0 == drawable_length(content_of(facts.geometry).width, width),
        device.1 == drawable_length(content_of(facts.geometry).height, height),
    ensures
        leads(
            state,
            WindowStep::Resize { width, height },
            facts,
            state,
            seq![WindowActionView::SetSize { width: device.0, height: device.1 }] + where_needed(
                state.renderer,
                WindowActionView::SetDrawableSize { width: device.0, height: device.1 },
            ),
        ),
{
    reveal(leads);
    assert(seq![WindowActionView::SetSize { width: device.0, height: device.1 }] + where_needed(
        state.renderer,
        WindowActionView::SetDrawableSize { width: device.0, height: device.1 },
    ) =~= state.actions(WindowStep::Resize { width, height }, facts));
}

proof fn lemma_step(
    state: WindowView,
    steps: Seq<WindowStep>,
    rest: Seq<WindowStep>,
    facts: WindowFacts,
    next: WindowView,
    actions: Seq<WindowActionView>,
)
    requires
        steps.len() > 0,
        rest == steps.skip(1),
        leads(state, steps[0], facts, next, actions),
    ensures
        handled(state, steps, facts) == handled(next, rest, facts),
        told(state, steps, facts) == actions + told(next, rest, facts),
{
    reveal(leads);
    reveal_with_fuel(handled, 2);
    reveal_with_fuel(told, 2);
}

proof fn lemma_no_step(state: WindowView, facts: WindowFacts)
    ensures
        handled(state, Seq::empty(), facts) == state,
        told(state, Seq::empty(), facts) == Seq::<WindowActionView>::empty(),
{
    reveal_with_fuel(handled, 1);
    reveal_with_fuel(told, 1);
}

proof fn lemma_chain1(
    s0: WindowView,
    s1: WindowView,
    b1: WindowStep,
    a1: Seq<WindowActionView>,
    facts: WindowFacts,
)
    requires
        leads(s0, b1, facts, s1, a1),
    ensures
        handled(s0, seq![b1], facts) == s1,
        told(s0, seq![b1], facts) == a1,
{
    assert(seq![b1].skip(1) =~= Seq::<WindowStep>::empty());
    lemma_step(s0, seq![b1], Seq::empty(), facts, s1, a1);
    lemma_no_step(s1, facts);
    assert(a1 + Seq::<WindowActionView>::empty() =~= a1);
}

proof fn lemma_chain2(
    s0: WindowView,
    s1: WindowView,
    s2: WindowView,
    b1: WindowStep,
    b2: WindowStep,
    a1: Seq<WindowActionView>,
    a2: Seq<WindowActionView>,
    facts: WindowFacts,
)
    requires
        leads(s0, b1, facts, s1, a1),
        leads(s1, b2, facts, s2, a2),
    ensures
        handled(s0, seq![b1, b2], facts) == s2,
        told(s0, seq![b1, b2], facts) == a1 + a2,
{
    let rest = seq![b2];
    assert(seq![b1, b2].skip(1) =~= rest);
    lemma_step(s0, seq![b1, b2], rest, facts, s1, a1);
    lemma_chain1(s1, s2, b2, a2, facts);
    assert(a1 + (a2) =~= a1 + a2);
}

proof fn lemma_chain3(
    s0: WindowView,
    s1: WindowView,
    s2: WindowView,
    s3: WindowView,
    b1: WindowStep,
    b2: WindowStep,
    b3: WindowStep,
    a1: Seq<WindowActionView>,
    a2: Seq<WindowActionView>,
    a3: Seq<WindowActionView>,
    facts: WindowFacts,
)
    requires
        leads(s0, b1, facts, s1, a1),
        leads(s1, b2, facts, s2, a2),
        leads(s2, b3, facts, s3, a3),
    ensures
        handled(s0, seq![b1, b2, b3], facts) == s3,
        told(s0, seq![b1, b2, b3], facts) == a1 + a2 + a3,
{
    let rest = seq![b2, b3];
    assert(seq![b1, b2, b3].skip(1) =~= rest);
    lemma_step(s0, seq![b1, b2, b3], rest, facts, s1, a1);
    lemma_chain2(s1, s2, s3, b2, b3, a2, a3, facts);
    assert(a1 + (a2 + a3) =~= a1 + a2 + a3);
}

proof fn lemma_chain4(
    s0: WindowView,
    s1: WindowView,
    s2: WindowView,
    s3: WindowView,
    s4: WindowView,
    b1: WindowStep,
    b2: WindowStep,
    b3: WindowStep,
    b4: WindowStep,
    a1: Seq<WindowActionView>,
    a2: Seq<WindowActionView>,
    a3: Seq<WindowActionView>,
    a4: Seq<WindowActionView>,
    facts: WindowFacts,
)
    requires
        leads(s0, b1, facts, s1, a1),
        leads(s1, b2, facts, s2, a2),
        leads(s2, b3, facts, s3, a3),
        leads(s3, b4, facts, s4, a4),
    ensures
        handled(s0, seq![b1, b2, b3, b4], facts) == s4,
        told(s0, seq![b1, b2, b3, b4], facts) == a1 + a2 + a3 + a4,
{
    let rest = seq![b2, b3, b4];
    assert(seq![b1, b2, b3, b4].skip(1) =~= rest);
    lemma_step(s0, seq![b1, b2, b3, b4], rest, facts, s1, a1);
    lemma_chain3(s1, s2, s3, s4, b2, b3, b4, a2, a3, a4, facts);
    assert(a1 + (a2 + a3 + a4) =~= a1 + a2 + a3 + a4);
}

proof fn lemma_chain5(
    s0: WindowView,
    s1: WindowView,
    s2: WindowView,
    s3: WindowView,
    s4: WindowView,
    s5: WindowView,
    b1: WindowStep,
    b2: WindowStep,
    b3: WindowStep,
    b4: WindowStep,
    b5: WindowStep,
    a1: Seq<WindowActionView>,
    a2: Seq<WindowActionView>,
    a3: Seq<WindowActionView>,
    a4: Seq<WindowActionView>,
    a5: Seq<WindowActionView>,
    facts: WindowFacts,
)
    requires
        leads(s0, b1, facts, s1, a1),
        leads(s1, b2, facts, s2, a2),
        leads(s2, b3, facts, s3, a3),
        leads(s3, b4, facts, s4, a4),
        leads(s4, b5, facts, s5, a5),
    ensures
        handled(s0, seq![b1, b2, b3, b4, b5], facts) == s5,
        told(s0, seq![b1, b2, b3, b4, b5], facts) == a1 + a2 + a3 + a4 + a5,
{
    let rest = seq![b2, b3, b4, b5];
    assert(seq![b1, b2, b3, b4, b5].skip(1) =~= rest);
    lemma_step(s0, seq![b1, b2, b3, b4, b5], rest, facts, s1, a1);
    lemma_chain4(s1, s2, s3, s4, s5, b2, b3, b4, b5, a2, a3, a4, a5, facts);
    assert(a1 + (a2 + a3 + a4 + a5) =~= a1 + a2 + a3 + a4 + a5);
}

proof fn lemma_chain6(
    s0: WindowView,
    s1: WindowView,
    s2: WindowView,
    s3: WindowView,
    s4: WindowView,
    s5: WindowView,
    s6: WindowView,
    b1: WindowStep,
    b2: WindowStep,
    b3: WindowStep,
    b4: WindowStep,
    b5: WindowStep,
    b6: WindowStep,
    a1: Seq<WindowActionView>,
    a2: Seq<WindowActionView>,
    a3: Seq<WindowActionView>,
    a4: Seq<WindowActionView>,
    a5: Seq<WindowActionView>,
    a6: Seq<WindowActionView>,
    facts: WindowFacts,
)
    requires
        leads(s0, b1, facts, s1, a1),
        leads(s1, b2, facts, s2, a2),
        leads(s2, b3, facts, s3, a3),
        leads(s3, b4, facts, s4, a4),
        leads(s4, b5, facts, s5, a5),
        leads(s5, b6, facts, s6, a6),
    ensures
        handled(s0, seq![b1, b2, b3, b4, b5, b6], facts) == s6,
        told(s0, seq![b1, b2, b3, b4, b5, b6], facts) == a1 + a2 + a3 + a4 + a5 + a6,
{
    let rest = seq![b2, b3, b4, b5, b6];
    assert(seq![b1, b2, b3, b4, b5, b6].skip(1) =~= rest);
    lemma_step(s0, seq![b1, b2, b3, b4, b5, b6], rest, facts, s1, a1);
    lemma_chain5(s1, s2, s3, s4, s5, s6, b2, b3, b4, b5, b6, a2, a3, a4, a5, a6, facts);
    assert(a1 + (a2 + a3 + a4 + a5 + a6) =~= a1 + a2 + a3 + a4 + a5 + a6);
}

/// An application that starts shows its window, which is told where it was not so already, and
/// nothing else changes.
pub proof fn law_start_shows_window(state: WindowView, facts: WindowFacts)
    ensures
        ({
            let event = Event::Start;
            &&& after_event(state, event, facts) == (WindowView {
                visibility: WindowVisibility::Visible,
                ..state
            })
            &&& event_actions(state, event, facts) == where_needed(
                state.visibility != WindowVisibility::Visible,
                WindowActionView::VisibilityChanged(WindowVisibility::Visible),
            )
        }),
{
    let event = Event::Start;
    let steps = plan(state.window_id, event);
    assert(steps =~= seq![WindowStep::SetVisibility(WindowVisibility::Visible)]);
    lemma_run1(state, WindowStep::SetVisibility(WindowVisibility::Visible), facts);
}

/// An application that stops hides its window, which is told where it was not so already, and
/// nothing else changes.
pub proof fn law_stop_hides_window(state: WindowView, facts: WindowFacts)
    ensures
        ({
            let event = Event::Stop;
            &&& after_event(state, event, facts) == (WindowView {
                visibility: WindowVisibility::Hidden,
                ..state
            })
            &&& event_actions(state, event, facts) == where_needed(
                state.visibility != WindowVisibility::Hidden,
                WindowActionView::VisibilityChanged(WindowVisibility::Hidden),
            )
        }),
{
    let event = Event::Stop;
    let steps = plan(state.window_id, event);
    assert(steps =~= seq![WindowStep::SetVisibility(WindowVisibility::Hidden)]);
    lemma_run1(state, WindowStep::SetVisibility(WindowVisibility::Hidden), facts);
}

/// A new surface gets a renderer first; then the overlap and the safe area are taken
/// anew, and each is told where it changed.
pub proof fn law_new_surface_gets_renderer(state: WindowView, facts: WindowFacts)
    ensures
        ({
            let event = Event::SurfaceCreate;
            let hidden = hidden_now(facts, state.keyboard_visible);
            &&& after_event(state, event, facts) == (WindowView {
                keyboard_overlap: hidden as i32,
                insets: facts.insets,
                ..state
            })
            &&& event_actions(state, event, facts) == seq![
                WindowActionView::InitializeRenderer,
            ] + where_needed(
                hidden != state.keyboard_overlap,
                WindowActionView::EmitResize,
            ) + where_needed(
                state.insets != facts.insets,
                WindowActionView::InsetsChanged(facts.insets),
            )
        }),
{
    let event = Event::SurfaceCreate;
    lemma_hidden_now(facts, state.keyboard_visible);
    let hidden = hidden_now(facts, state.keyboard_visible);
    let s1 = state;
    let s2 = WindowView { keyboard_overlap: hidden as i32, ..state };
    let s3 = WindowView { insets: facts.insets, ..s2 };
    let a1 = seq![WindowActionView::InitializeRenderer];
    let a2 = where_needed(hidden != state.keyboard_overlap, WindowActionView::EmitResize);
    let a3 = where_needed(
        state.insets != facts.insets,
        WindowActionView::InsetsChanged(facts.insets),
    );
    lemma_make_renderer(state, facts);
    lemma_measure(s1, true, facts);
    lemma_insets(s2, facts);
    let b1 = WindowStep::InitializeRenderer;
    let b2 = WindowStep::RefreshOverlap { report: true };
    let b3 = WindowStep::RefreshInsets;
    assert(plan(state.window_id, event) =~= seq![b1, b2, b3]);
    lemma_chain3(state, s1, s2, s3, b1, b2, b3, a1, a2, a3, facts);
    assert(event_actions(state, event, facts) == a1 + a2 + a3);
}

/// With its surface a window loses its renderer and the pointer.
pub proof fn law_lost_surface_takes_renderer(state: WindowView, facts: WindowFacts)
    ensures
        ({
            let event = Event::SurfaceDestroy;
            &&& after_event(state, event, facts) == (WindowView {
                renderer: false,
                hovered: false,
                ..state
            })
            &&& event_actions(state, event, facts) == seq![
                WindowActionView::DropRenderer,
            ] + where_needed(
                state.hovered,
                WindowActionView::HoverChanged(false),
            )
        }),
{
    let event = Event::SurfaceDestroy;
    let s1 = WindowView { renderer: false, ..state };
    let s2 = WindowView { hovered: false, ..s1 };
    let a1 = seq![WindowActionView::DropRenderer];
    let a2 = where_needed(state.hovered, WindowActionView::HoverChanged(false));
    lemma_drop_renderer(state, facts);
    lemma_unhovered(s1, facts);
    let b1 = WindowStep::DropRenderer;
    let b2 = WindowStep::SetHovered(false);
    assert(plan(state.window_id, event) =~= seq![b1, b2]);
    lemma_chain2(state, s1, s2, b1, b2, a1, a2, facts);
    assert(event_actions(state, event, facts) == a1 + a2);
}

/// A resize of the window gives it, and its renderer where it has one, the size of the
/// drawable surface, each side that the system reports and else that of the window. The
/// new size is always told, after the overlap was taken anew, and then the safe area
/// where it changed.
pub proof fn law_resize_sets_size(state: WindowView, facts: WindowFacts, width: i32, height: i32)
    ensures
        ({
            let event = Event::WindowResize { window_id: state.window_id, width, height };
            let hidden = hidden_now(facts, state.keyboard_visible);
            let device = (
                if facts.geometry is Some && facts.geometry->0.content_rect.width > 0 {
                    facts.geometry->0.content_rect.width
                } else {
                    width
                },
                if facts.geometry is Some && facts.geometry->0.content_rect.height > 0 {
                    facts.geometry->0.content_rect.height
                } else {
                    height
                },
            );
            &&& after_event(state, event, facts) == (WindowView {
                keyboard_overlap: hidden as i32,
                insets: facts.insets,
                ..state
            })
            &&& event_actions(state, event, facts) == seq![
                WindowActionView::SetSize { width: device.0, height: device.1 },
            ] + where_needed(
                state.renderer,
                WindowActionView::SetDrawableSize { width: device.0, height: device.1 },
            ) + seq![WindowActionView::EmitResize] + where_needed(
                state.insets != facts.insets,
                WindowActionView::InsetsChanged(facts.insets),
            )
        }),
{
    let event = Event::WindowResize { window_id: state.window_id, width, height };
    lemma_hidden_now(facts, state.keyboard_visible);
    let hidden = hidden_now(facts, state.keyboard_visible);
    let device = (
        if facts.geometry is Some && facts.geometry->0.content_rect.width > 0 {
            facts.geometry->0.content_rect.width
        } else {
            width
        },
        if facts.geometry is Some && facts.geometry->0.content_rect.height > 0 {
            facts.geometry->0.content_rect.height
        } else {
            height
        },
    );
    let s1 = state;
    let s2 = WindowView { keyboard_overlap: hidden as i32, ..state };
    let s3 = s2;
    let s4 = WindowView { insets: facts.insets, ..s2 };
    let a1 = seq![WindowActionView::SetSize { width: device.0, height: device.1 }] + where_needed(
        state.renderer,
        WindowActionView::SetDrawableSize { width: device.0, height: device.1 },
    );
    let a2 = Seq::<WindowActionView>::empty();
    let a3 = seq![WindowActionView::EmitResize];
    let a4 = where_needed(
        state.insets != facts.insets,
        WindowActionView::InsetsChanged(facts.insets),
    );
    lemma_resize(state, width, height, device, facts);
    lemma_measure(s1, false, facts);
    lemma_emit_resize(s2, facts);
    lemma_insets(s3, facts);
    let b1 = WindowStep::Resize { width, height };
    let b2 = WindowStep::RefreshOverlap { report: false };
    let b3 = WindowStep::EmitResize;
    let b4 = WindowStep::RefreshInsets;
    assert(plan(state.window_id, event) =~= seq![b1, b2, b3, b4]);
    lemma_chain4(state, s1, s2, s3, s4, b1, b2, b3, b4, a1, a2, a3, a4, facts);
    assert(event_actions(state, event, facts) == a1 + a2 + a3 + a4);
    assert(a1 + a2 =~= a1);
}

/// A window that moves lies where the system puts it, with the surface's place in it
/// added where the system has one; then the overlap and the safe area are taken anew.
pub proof fn law_move_adds_surface_offset(state: WindowView, facts: WindowFacts, rect: Rect)
    requires
        facts.geometry is Some ==> i32::MIN <= rect.left + facts.geometry->0.content_rect.left
            <= i32::MAX,
        facts.geometry is Some ==> i32::MIN <= rect.top + facts.geometry->0.content_rect.top
            <= i32::MAX,
    ensures
        ({
            let event = Event::ContentRectChange { window_id: state.window_id, rect };
            let hidden = hidden_now(facts, state.keyboard_visible);
            &&& after_event(state, event, facts) == (WindowView {
                keyboard_overlap: hidden as i32,
                insets: facts.insets,
                ..state
            })
            &&& event_actions(state, event, facts) == seq![
                WindowActionView::SetOrigin {
                    left: if facts.geometry is Some {
                        (rect.left + facts.geometry->0.content_rect.left) as i32
                    } else {
                        rect.left
                    },
                    top: if facts.geometry is Some {
                        (rect.top + facts.geometry->0.content_rect.top) as i32
                    } else {
                        rect.top
                    },
                },
            ] + where_needed(
                hidden != state.keyboard_overlap,
                WindowActionView::EmitResize,
            ) + where_needed(
                state.insets != facts.insets,
                WindowActionView::InsetsChanged(facts.insets),
            )
        }),
{
    let event = Event::ContentRectChange { window_id: state.window_id, rect };
    lemma_hidden_now(facts, state.keyboard_visible);
    let hidden = hidden_now(facts, state.keyboard_visible);
    let s1 = state;
    let s2 = WindowView { keyboard_overlap: hidden as i32, ..state };
    let s3 = WindowView { insets: facts.insets, ..s2 };
    let a1 = seq![
        WindowActionView::SetOrigin {
            left: if facts.geometry is Some {
                (rect.left + facts.geometry->0.content_rect.left) as i32
            } else {
                rect.left
            },
            top: if facts.geometry is Some {
                (rect.top + facts.geometry->0.content_rect.top) as i32
            } else {
                rect.top
            },
        },
    ];
    let a2 = where_needed(hidden != state.keyboard_overlap, WindowActionView::EmitResize);
    let a3 = where_needed(
        state.insets != facts.insets,
        WindowActionView::InsetsChanged(facts.insets),
    );
    lemma_move(state, rect, facts);
    lemma_measure(s1, true, facts);
    lemma_insets(s2, facts);
    let b1 = WindowStep::MoveTo { rect };
    let b2 = WindowStep::RefreshOverlap { report: true };
    let b3 = WindowStep::RefreshInsets;
    assert(plan(state.window_id, event) =~= seq![b1, b2, b3]);
    lemma_chain3(state, s1, s2, s3, b1, b2, b3, a1, a2, a3, facts);
    assert(event_actions(state, event, facts) == a1 + a2 + a3);
}

/// A redraw asks for a frame and changes nothing.
pub proof fn law_redraw_asks_for_frame(state: WindowView, facts: WindowFacts)
    ensures
        ({
            let event = Event::WindowRedraw;
            &&& after_event(state, event, facts) == state
            &&& event_actions(state, event, facts) == seq![WindowActionView::RequestFrame]
        }),
{
    let event = Event::WindowRedraw;
    let steps = plan(state.window_id, event);
    assert(steps =~= seq![WindowStep::RequestFrame]);
    lemma_run1(state, WindowStep::RequestFrame, facts);
}

/// The window that gets the focus is active, and that is told where it was not.
pub proof fn law_focus_activates(state: WindowView, facts: WindowFacts)
    ensures
        ({
            let event = Event::WindowFocusChanged { window_id: state.window_id, focused: true };
            &&& after_event(state, event, facts) == (WindowView { active: true, ..state })
            &&& event_actions(state, event, facts) == where_needed(
                !state.active,
                WindowActionView::ActiveChanged(true),
            )
        }),
{
    let event = Event::WindowFocusChanged { window_id: state.window_id, focused: true };
    let steps = plan(state.window_id, event);
    assert(steps =~= seq![WindowStep::SetActive { active: true, report: true }]);
    lemma_run1(state, WindowStep::SetActive { active: true, report: true }, facts);
}

/// A window that loses the focus, or sees another get it, becomes inactive, loses the
/// pointer and every held key and button, gives the keyboard up and measures anew; each
/// of these is told where it is a change, in this order. Nothing else changes.
pub proof fn law_lost_focus_lets_go(
    state: WindowView,
    facts: WindowFacts,
    window_id: i64,
    focused: bool,
)
    requires
        !focused || window_id != state.window_id,
    ensures
        ({
            let event = Event::WindowFocusChanged { window_id, focused };
            let hidden = hidden_now(facts, false);
            &&& after_event(state, event, facts) == (WindowView {
                active: false,
                hovered: false,
                mouse: MouseState { pressed: None, click: None },
                keys: KeyStateView {
                    pressed: Set::empty(),
                    modifiers: Modifiers {
                        control: false,
                        alt: false,
                        shift: false,
                        platform: false,
                        function: false,
                    },
                    capslock: state.keys.capslock,
                },
                keyboard_visible: false,
                keyboard_overlap: hidden as i32,
                ..state
            })
            &&& event_actions(state, event, facts) == where_needed(
                state.active,
                WindowActionView::ActiveChanged(false),
            ) + where_needed(state.hovered, WindowActionView::HoverChanged(false)) + where_needed(
                state.keys.modifiers.control || state.keys.modifiers.alt
                    || state.keys.modifiers.shift || state.keys.modifiers.platform
                    || state.keys.modifiers.function,
                WindowActionView::Dispatch(
                    PlatformInputView::ModifiersChanged {
                        modifiers: Modifiers {
                            control: false,
                            alt: false,
                            shift: false,
                            platform: false,
                            function: false,
                        },
                        capslock: state.keys.capslock,
                    },
                ),
            ) + where_needed(
                state.keyboard_visible && facts.geometry is Some,
                WindowActionView::HideKeyboard,
            ) + where_needed(hidden != state.keyboard_overlap, WindowActionView::EmitResize)
        }),
{
    let event = Event::WindowFocusChanged { window_id, focused };
    lemma_hidden_now(facts, false);
    let hidden = hidden_now(facts, false);
    let s1 = WindowView { active: false, ..state };
    let s2 = WindowView { hovered: false, ..s1 };
    let s3 = WindowView { mouse: MouseState { pressed: None, click: None }, ..s2 };
    let s4 = WindowView {
        keys: KeyStateView {
            pressed: Set::empty(),
            modifiers: Modifiers {
                control: false,
                alt: false,
                shift: false,
                platform: false,
                function: false,
            },
            capslock: state.keys.capslock,
        },
        ..s3
    };
    let s5 = WindowView { keyboard_visible: false, ..s4 };
    let s6 = WindowView { keyboard_overlap: hidden as i32, ..s5 };
    let a1 = where_needed(state.active, WindowActionView::ActiveChanged(false));
    let a2 = where_needed(state.hovered, WindowActionView::HoverChanged(false));
    let a3 = Seq::<WindowActionView>::empty();
    let a4 = where_needed(
        state.keys.modifiers.control || state.keys.modifiers.alt || state.keys.modifiers.shift
            || state.keys.modifiers.platform || state.keys.modifiers.function,
        WindowActionView::Dispatch(PlatformInputView::ModifiersChanged {
            modifiers: Modifiers {
                control: false,
                alt: false,
                shift: false,
                platform: false,
                function: false,
            },
            capslock: state.keys.capslock,
        }),
    );
    let a5 = where_needed(
        state.keyboard_visible && facts.geometry is Some,
        WindowActionView::HideKeyboard,
    );
    let a6 = where_needed(hidden != state.keyboard_overlap, WindowActionView::EmitResize);
    lemma_active(state, true, facts);
    lemma_unhovered(s1, facts);
    lemma_forget_mouse(s2, facts);
    lemma_clear_keys(s3, facts);
    lemma_hide_keyboard(s4, facts);
    lemma_measure(s5, true, facts);
    let b1 = WindowStep::SetActive { active: false, report: true };
    let b2 = WindowStep::SetHovered(false);
    let b3 = WindowStep::ForgetMouse;
    let b4 = WindowStep::ClearKeys;
    let b5 = WindowStep::HideKeyboard;
    let b6 = WindowStep::RefreshOverlap { report: true };
    assert(plan(state.window_id, event) =~= seq![b1, b2, b3, b4, b5, b6]);
    lemma_chain6(
        state,
        s1,
        s2,
        s3,
        s4,
        s5,
        s6,
        b1,
        b2,
        b3,
        b4,
        b5,
        b6,
        a1,
        a2,
        a3,
        a4,
        a5,
        a6,
        facts,
    );
    assert(event_actions(state, event, facts) == a1 + a2 + a3 + a4 + a5 + a6);
    assert(a1 + a2 + a3 =~= a1 + a2);
}

/// A new configuration gives the window a dark look where the user chose dark and else a
/// light one, told where it changed; the scale is read before the size, which is always
/// told, and the safe area after it.
pub proof fn law_configuration_sets_look(
    state: WindowView,
    facts: WindowFacts,
    color_mode: ColorMode,
)
    ensures
        ({
            let event = Event::ConfigChanged { color_mode };
            let hidden = hidden_now(facts, state.keyboard_visible);
            let look = if color_mode == ColorMode::Dark {
                WindowAppearance::Dark
            } else {
                WindowAppearance::Light
            };
            &&& after_event(state, event, facts) == (WindowView {
                appearance: look,
                keyboard_overlap: hidden as i32,
                insets: facts.insets,
                ..state
            })
            &&& event_actions(state, event, facts) == where_needed(
                state.appearance != look,
                WindowActionView::AppearanceChanged,
            ) + seq![WindowActionView::ReadScale] + seq![
                WindowActionView::EmitResize,
            ] + where_needed(
                state.insets != facts.insets,
                WindowActionView::InsetsChanged(facts.insets),
            )
        }),
{
    let event = Event::ConfigChanged { color_mode };
    lemma_hidden_now(facts, state.keyboard_visible);
    let hidden = hidden_now(facts, state.keyboard_visible);
    let look = if color_mode == ColorMode::Dark {
        WindowAppearance::Dark
    } else {
        WindowAppearance::Light
    };
    let s1 = WindowView { appearance: look, ..state };
    let s2 = s1;
    let s3 = WindowView { keyboard_overlap: hidden as i32, ..s2 };
    let s4 = s3;
    let s5 = WindowView { insets: facts.insets, ..s4 };
    let a1 = where_needed(state.appearance != look, WindowActionView::AppearanceChanged);
    let a2 = seq![WindowActionView::ReadScale];
    let a3 = Seq::<WindowActionView>::empty();
    let a4 = seq![WindowActionView::EmitResize];
    let a5 = where_needed(
        state.insets != facts.insets,
        WindowActionView::InsetsChanged(facts.insets),
    );
    lemma_look(state, look, facts);
    lemma_read_scale(s1, facts);
    lemma_measure(s2, false, facts);
    lemma_emit_resize(s3, facts);
    lemma_insets(s4, facts);
    let b1 = WindowStep::SetAppearance(appearance_of(color_mode));
    let b2 = WindowStep::ReadScale;
    let b3 = WindowStep::RefreshOverlap { report: false };
    let b4 = WindowStep::EmitResize;
    let b5 = WindowStep::RefreshInsets;
    assert(plan(state.window_id, event) =~= seq![b1, b2, b3, b4, b5]);
    lemma_chain5(state, s1, s2, s3, s4, s5, b1, b2, b3, b4, b5, a1, a2, a3, a4, a5, facts);
    assert(event_actions(state, event, facts) == a1 + a2 + a3 + a4 + a5);
    assert(a1 + a2 + a3 =~= a1 + a2);
}

/// A window that is destroyed is hidden, inactive and without the pointer; last of all it
/// is asked whether it may close. That it is inactive is not told.
pub proof fn law_destruction_asks_last(state: WindowView, facts: WindowFacts)
    ensures
        ({
            let event = Event::WindowDestroy;
            let hidden = hidden_now(facts, state.keyboard_visible);
            &&& after_event(state, event, facts) == (WindowView {
                visibility: WindowVisibility::Hidden,
                active: false,
                hovered: false,
                keyboard_overlap: hidden as i32,
                ..state
            })
            &&& event_actions(state, event, facts) == where_needed(
                state.visibility != WindowVisibility::Hidden,
                WindowActionView::VisibilityChanged(WindowVisibility::Hidden),
            ) + where_needed(state.hovered, WindowActionView::HoverChanged(false)) + where_needed(
                hidden != state.keyboard_overlap,
                WindowActionView::EmitResize,
            ) + seq![
                WindowActionView::AskToClose,
            ]
        }),
{
    let event = Event::WindowDestroy;
    lemma_hidden_now(facts, state.keyboard_visible);
    let hidden = hidden_now(facts, state.keyboard_visible);
    let s1 = WindowView { visibility: WindowVisibility::Hidden, ..state };
    let s2 = WindowView { active: false, ..s1 };
    let s3 = WindowView { hovered: false, ..s2 };
    let s4 = WindowView { keyboard_overlap: hidden as i32, ..s3 };
    let s5 = s4;
    let a1 = where_needed(
        state.visibility != WindowVisibility::Hidden,
        WindowActionView::VisibilityChanged(WindowVisibility::Hidden),
    );
    let a2 = Seq::<WindowActionView>::empty();
    let a3 = where_needed(state.hovered, WindowActionView::HoverChanged(false));
    let a4 = where_needed(hidden != state.keyboard_overlap, WindowActionView::EmitResize);
    let a5 = seq![WindowActionView::AskToClose];
    lemma_visibility(state, WindowVisibility::Hidden, facts);
    lemma_active(s1, false, facts);
    lemma_unhovered(s2, facts);
    lemma_measure(s3, true, facts);
    lemma_ask_to_close(s4, facts);
    let b1 = WindowStep::SetVisibility(WindowVisibility::Hidden);
    let b2 = WindowStep::SetActive { active: false, report: false };
    let b3 = WindowStep::SetHovered(false);
    let b4 = WindowStep::RefreshOverlap { report: true };
    let b5 = WindowStep::AskToClose;
    assert(plan(state.window_id, event) =~= seq![b1, b2, b3, b4, b5]);
    lemma_chain5(state, s1, s2, s3, s4, s5, b1, b2, b3, b4, b5, a1, a2, a3, a4, a5, facts);
    assert(event_actions(state, event, facts) == a1 + a2 + a3 + a4 + a5);
    assert(a1 + a2 =~= a1);
}

/// A keyboard of some height is shown, one of none is hidden, and the overlap is taken
/// anew for that and told where it changed.
pub proof fn law_keyboard_height_is_taken(state: WindowView, facts: WindowFacts, height: i32)
    ensures
        ({
            let event = Event::KeyboardEvent { height };
            let hidden = hidden_now(facts, height > 0);
            &&& after_event(state, event, facts) == (WindowView {
                keyboard_visible: height > 0,
                keyboard_overlap: hidden as i32,
                ..state
            })
            &&& event_actions(state, event, facts) == where_needed(
                hidden != state.keyboard_overlap,
                WindowActionView::EmitResize,
            )
        }),
{
    let event = Event::KeyboardEvent { height };
    lemma_hidden_now(facts, height > 0);
    let hidden = hidden_now(facts, height > 0);
    let s1 = WindowView { keyboard_visible: height > 0, ..state };
    let s2 = WindowView { keyboard_overlap: hidden as i32, ..s1 };
    let a1 = Seq::<WindowActionView>::empty();
    let a2 = where_needed(hidden != state.keyboard_overlap, WindowActionView::EmitResize);
    lemma_keyboard_shown(state, height > 0, facts);
    lemma_measure(s1, true, facts);
    let b1 = WindowStep::SetKeyboardShown(height > 0);
    let b2 = WindowStep::RefreshOverlap { report: true };
    assert(plan(state.window_id, event) =~= seq![b1, b2]);
    lemma_chain2(state, s1, s2, b1, b2, a1, a2, facts);
    assert(event_actions(state, event, facts) == a1 + a2);
    assert(a1 + a2 =~= a2);
}

/// The input method going away hides the keyboard; the overlap is taken anew before the
/// text is edited.
pub proof fn law_hidden_ime_hides_keyboard(state: WindowView, facts: WindowFacts)
    ensures
        ({
            let event = Event::Input(InputEvent::Ime(ImeEvent::Status(KeyboardStatus::Hide)));
            let hidden = hidden_now(facts, false);
            &&& after_event(state, event, facts) == (WindowView {
                keyboard_visible: false,
                keyboard_overlap: hidden as i32,
                ..state
            })
            &&& event_actions(state, event, facts) == where_needed(
                hidden != state.keyboard_overlap,
                WindowActionView::EmitResize,
            ) + seq![WindowActionView::EditText]
        }),
{
    let event = Event::Input(InputEvent::Ime(ImeEvent::Status(KeyboardStatus::Hide)));
    lemma_hidden_now(facts, false);
    let hidden = hidden_now(facts, false);
    let s1 = WindowView { keyboard_visible: false, ..state };
    let s2 = WindowView { keyboard_overlap: hidden as i32, ..s1 };
    let s3 = s2;
    let a1 = Seq::<WindowActionView>::empty();
    let a2 = where_needed(hidden != state.keyboard_overlap, WindowActionView::EmitResize);
    let a3 = seq![WindowActionView::EditText];
    lemma_keyboard_shown(state, false, facts);
    lemma_measure(s1, true, facts);
    lemma_edit_text(s2, facts);
    let b1 = WindowStep::SetKeyboardShown(false);
    let b2 = WindowStep::RefreshOverlap { report: true };
    let b3 = WindowStep::EditText;
    assert(plan(state.window_id, event) =~= seq![b1, b2, b3]);
    lemma_chain3(state, s1, s2, s3, b1, b2, b3, a1, a2, a3, facts);
    assert(event_actions(state, event, facts) == a1 + a2 + a3);
    assert(a1 + a2 =~= a2);
}

/// Whatever else the input method says goes to the text alone.
pub proof fn law_ime_edits_text(state: WindowView, facts: WindowFacts, ime: ImeEvent)
    requires
        ime != ImeEvent::Status(KeyboardStatus::Hide),
    ensures
        ({
            let event = Event::Input(InputEvent::Ime(ime));
            &&& after_event(state, event, facts) == state
            &&& event_actions(state, event, facts) == seq![WindowActionView::EditText]
        }),
{
    let event = Event::Input(InputEvent::Ime(ime));
    let steps = plan(state.window_id, event);
    assert(steps =~= seq![WindowStep::EditText]);
    lemma_run1(state, WindowStep::EditText, facts);
}

/// The pointer comes and goes as the system says, told where that is a change.
pub proof fn law_pointer_comes_and_goes(state: WindowView, facts: WindowFacts, hovered: bool)
    ensures
        ({
            let event = Event::Input(InputEvent::Hover(hovered));
            &&& after_event(state, event, facts) == (WindowView { hovered, ..state })
            &&& event_actions(state, event, facts) == where_needed(
                state.hovered != hovered,
                WindowActionView::HoverChanged(hovered),
            )
        }),
{
    let event = Event::Input(InputEvent::Hover(hovered));
    let steps = plan(state.window_id, event);
    assert(steps =~= seq![WindowStep::SetHovered(hovered)]);
    lemma_run1(state, WindowStep::SetHovered(hovered), facts);
}

/// A key movement reaches GPUI as the keyboard tells it, event by event, and changes the
/// keys alone.
pub proof fn law_keys_reach_gpui(state: WindowView, facts: WindowFacts, key: KeyEventData)
    ensures
        ({
            let event = Event::Input(InputEvent::Key(key));
            &&& after_event(state, event, facts) == (WindowView {
                keys: state.keys.after(key),
                ..state
            })
            &&& event_actions(state, event, facts) == Seq::new(
                state.keys.reports(key).len(),
                |i: int| WindowActionView::Dispatch(state.keys.reports(key)[i]),
            )
        }),
{
    let event = Event::Input(InputEvent::Key(key));
    let steps = plan(state.window_id, event);
    assert(steps =~= seq![WindowStep::Key(key)]);
    lemma_run1(state, WindowStep::Key(key), facts);
}

/// A scroll is told with its place, its distance, its stage and the held modifiers, where
/// it moves or is not in between; the pointer is there in any case.
pub proof fn law_scroll_is_told(state: WindowView, facts: WindowFacts, axis: AxisEventData)
    ensures
        ({
            let event = Event::Input(InputEvent::Axis(axis));
            &&& after_event(state, event, facts) == (WindowView {
                pointer_position: Some(axis.position),
                ..state
            })
            &&& event_actions(state, event, facts) == where_needed(
                !axis.still || axis.action != AxisAction::Move,
                WindowActionView::Dispatch(
                    PlatformInputView::ScrollWheel(
                        ScrollWheelEvent {
                            position: axis.position,
                            delta: axis.delta,
                            modifiers: state.keys.modifiers,
                            touch_phase: if axis.action == AxisAction::Down {
                                TouchPhase::Started
                            } else if axis.action == AxisAction::Move {
                                TouchPhase::Moved
                            } else {
                                TouchPhase::Ended
                            },
                        },
                    ),
                ),
            )
        }),
{
    let event = Event::Input(InputEvent::Axis(axis));
    let steps = plan(state.window_id, event);
    assert(steps =~= seq![WindowStep::Scroll(axis)]);
    lemma_run1(state, WindowStep::Scroll(axis), facts);
}

/// A press of a button is told as that button, at its place, under the modifiers that are
/// held, with the clicks that it makes; without a button there is nothing to tell.
pub proof fn law_press_is_told(
    state: WindowView,
    facts: WindowFacts,
    position: Position,
    button: SystemButton,
)
    ensures
        ({
            let event = Event::Input(InputEvent::Mouse(MouseEventData {
                position,
                action: MouseAction::Press,
                button,
            }));
            &&& after_event(state, event, facts) == (WindowView {
                pointer_position: Some(position),
                mouse: if button_of(button) is Some {
                    state.mouse.after_press(button_of(button)->0, position, facts.timing)
                } else {
                    state.mouse
                },
                ..state
            })
            &&& event_actions(state, event, facts) == where_needed(
                button_of(button) is Some,
                WindowActionView::Dispatch(
                    PlatformInputView::MouseDown(
                        crate::input::MouseDownEvent {
                            button: button_of(button)->0,
                            position,
                            modifiers: state.keys.modifiers,
                            click_count: state.mouse.count_for(
                                button_of(button)->0,
                                facts.timing,
                            ) as usize,
                            first_mouse: false,
                        },
                    ),
                ),
            )
        }),
{
    let event = Event::Input(InputEvent::Mouse(MouseEventData {
        position,
        action: MouseAction::Press,
        button,
    }));
    let steps = plan(state.window_id, event);
    assert(steps =~= seq![
        WindowStep::Mouse(MouseEventData { position, action: MouseAction::Press, button }),
    ]);
    lemma_run1(
        state,
        WindowStep::Mouse(MouseEventData { position, action: MouseAction::Press, button }),
        facts,
    );
}

/// A release is told as the mouse has it, under the modifiers that are held.
pub proof fn law_release_is_told(
    state: WindowView,
    facts: WindowFacts,
    position: Position,
    button: SystemButton,
)
    ensures
        ({
            let event = Event::Input(InputEvent::Mouse(MouseEventData {
                position,
                action: MouseAction::Release,
                button,
            }));
            &&& after_event(state, event, facts) == (WindowView {
                pointer_position: Some(position),
                mouse: MouseState { pressed: None, ..state.mouse },
                ..state
            })
            &&& event_actions(state, event, facts) == where_needed(
                state.mouse.released(button_of(button), position, state.keys.modifiers) is Some,
                WindowActionView::Dispatch(
                    PlatformInputView::MouseUp(
                        state.mouse.released(
                            button_of(button),
                            position,
                            state.keys.modifiers,
                        )->0,
                    ),
                ),
            )
        }),
{
    let event = Event::Input(InputEvent::Mouse(MouseEventData {
        position,
        action: MouseAction::Release,
        button,
    }));
    let steps = plan(state.window_id, event);
    assert(steps =~= seq![
        WindowStep::Mouse(MouseEventData { position, action: MouseAction::Release, button }),
    ]);
    lemma_run1(
        state,
        WindowStep::Mouse(MouseEventData { position, action: MouseAction::Release, button }),
        facts,
    );
}

/// A movement is told at its place, with the held button or else the one that the system
/// names, under the modifiers that are held. A hidden cursor comes back first.
pub proof fn law_movement_is_told(
    state: WindowView,
    facts: WindowFacts,
    position: Position,
    button: SystemButton,
)
    ensures
        ({
            let event = Event::Input(InputEvent::Mouse(MouseEventData {
                position,
                action: MouseAction::Move,
                button,
            }));
            &&& after_event(state, event, facts) == (WindowView {
                pointer_position: Some(position),
                ..state
            })
            &&& event_actions(state, event, facts) == where_needed(
                facts.cursor_hidden,
                WindowActionView::RestoreCursor,
            ) + seq![
                WindowActionView::Dispatch(
                    PlatformInputView::MouseMove(
                        crate::input::MouseMoveEvent {
                            position,
                            pressed_button: if state.mouse.pressed is Some {
                                state.mouse.pressed
                            } else {
                                button_of(button)
                            },
                            modifiers: state.keys.modifiers,
                        },
                    ),
                ),
            ]
        }),
{
    let event = Event::Input(InputEvent::Mouse(MouseEventData {
        position,
        action: MouseAction::Move,
        button,
    }));
    let steps = plan(state.window_id, event);
    assert(steps =~= seq![
        WindowStep::Mouse(MouseEventData { position, action: MouseAction::Move, button }),
    ]);
    lemma_run1(
        state,
        WindowStep::Mouse(MouseEventData { position, action: MouseAction::Move, button }),
        facts,
    );
}

/// A mouse event in which nothing happens only says where the pointer is.
pub proof fn law_idle_mouse_is_not_told(
    state: WindowView,
    facts: WindowFacts,
    position: Position,
    button: SystemButton,
)
    ensures
        ({
            let event = Event::Input(InputEvent::Mouse(MouseEventData {
                position,
                action: MouseAction::Nothing,
                button,
            }));
            &&& after_event(state, event, facts) == (WindowView {
                pointer_position: Some(position),
                ..state
            })
            &&& event_actions(state, event, facts) == Seq::<WindowActionView>::empty()
        }),
{
    let event = Event::Input(InputEvent::Mouse(MouseEventData {
        position,
        action: MouseAction::Nothing,
        button,
    }));
    let steps = plan(state.window_id, event);
    assert(steps =~= seq![
        WindowStep::Mouse(MouseEventData { position, action: MouseAction::Nothing, button }),
    ]);
    lemma_run1(
        state,
        WindowStep::Mouse(MouseEventData { position, action: MouseAction::Nothing, button }),
        facts,
    );
}

/// A change of an area takes the safe area anew, and before that the overlap unless the
/// area is a cutout or one of no known kind: those hide no content.
pub proof fn law_area_change_is_measured(
    state: WindowView,
    facts: WindowFacts,
    area_type: AvoidAreaType,
)
    ensures
        ({
            let event = Event::AvoidAreaChange { area_type };
            let hidden = hidden_now(facts, state.keyboard_visible);
            let hides = !(area_type is Cutout) && !(area_type is Unknown);
            &&& after_event(state, event, facts) == (WindowView {
                keyboard_overlap: if hides {
                    hidden as i32
                } else {
                    state.keyboard_overlap
                },
                insets: facts.insets,
                ..state
            })
            &&& event_actions(state, event, facts) == where_needed(
                hides && hidden != state.keyboard_overlap,
                WindowActionView::EmitResize,
            ) + where_needed(
                state.insets != facts.insets,
                WindowActionView::InsetsChanged(facts.insets),
            )
        }),
{
    lemma_hidden_now(facts, state.keyboard_visible);
    let event = Event::AvoidAreaChange { area_type };
    let steps = plan(state.window_id, event);
    let hidden = hidden_now(facts, state.keyboard_visible);
    if !(area_type is Cutout) && !(area_type is Unknown) {
        let s1 = WindowView { keyboard_overlap: hidden as i32, ..state };
        let s2 = WindowView { insets: facts.insets, ..s1 };
        let a1 = where_needed(hidden != state.keyboard_overlap, WindowActionView::EmitResize);
        let a2 = where_needed(
            state.insets != facts.insets,
            WindowActionView::InsetsChanged(facts.insets),
        );
        lemma_measure(state, true, facts);
        lemma_insets(s1, facts);
        assert(steps =~= seq![remeasure(), WindowStep::RefreshInsets]);
        lemma_chain2(state, s1, s2, remeasure(), WindowStep::RefreshInsets, a1, a2, facts);
    } else {
        assert(steps =~= seq![WindowStep::RefreshInsets]);
        lemma_run1(state, WindowStep::RefreshInsets, facts);
        assert(event_actions(state, event, facts) =~= where_needed(
            false,
            WindowActionView::EmitResize,
        ) + where_needed(
            state.insets != facts.insets,
            WindowActionView::InsetsChanged(facts.insets),
        ));
    }
}

/// A gesture, an address and an event that means nothing to a window leave it alone.
pub proof fn law_foreign_events_leave_window_alone(
    state: WindowView,
    facts: WindowFacts,
    event: Event,
)
    requires
        event is NewWant || event is Other || event == Event::Input(InputEvent::Gesture),
    ensures
        after_event(state, event, facts) == state,
        event_actions(state, event, facts).len() == 0,
{
    assert(plan(state.window_id, event) =~= Seq::<WindowStep>::empty());
    lemma_no_step(state, facts);
}

/// Every mouse event that a window hands to GPUI is where the mouse is and carries the
/// modifiers of the keys that are down: control while a control key is, and so on.
pub proof fn law_mouse_carries_held_keys(
    state: WindowView,
    facts: WindowFacts,
    event: MouseEventData,
    i: int,
)
    requires
        state.wf(),
        0 <= i < state.actions(WindowStep::Mouse(event), facts).len(),
        state.actions(WindowStep::Mouse(event), facts)[i] is Dispatch,
    ensures
        ({
            let keys = state.keys.pressed;
            let held = Modifiers {
                control: keys.contains(KeyCode::CtrlLeft) || keys.contains(KeyCode::CtrlRight),
                alt: keys.contains(KeyCode::AltLeft) || keys.contains(KeyCode::AltRight),
                shift: keys.contains(KeyCode::ShiftLeft) || keys.contains(KeyCode::ShiftRight),
                platform: keys.contains(KeyCode::MetaLeft) || keys.contains(KeyCode::MetaRight),
                function: keys.contains(KeyCode::Fn) || keys.contains(KeyCode::Function),
            };
            match state.actions(WindowStep::Mouse(event), facts)[i]->Dispatch_0 {
                PlatformInputView::MouseDown(down) => event.action == MouseAction::Press
                    && down.position == event.position && down.modifiers == held,
                PlatformInputView::MouseUp(up) => event.action == MouseAction::Release
                    && up.position == event.position && up.modifiers == held,
                PlatformInputView::MouseMove(moved) => event.action == MouseAction::Move
                    && moved.position == event.position && moved.modifiers == held,
                _ => false,
            }
        }),
{
    law_modifiers_are_held_keys(state.keys);
    law_release_tells_button(
        state.mouse,
        button_of(event.button),
        event.position,
        state.keys.modifiers,
    );
}

/// The fingers of a touch event are taken one by one, in their order.
pub proof fn law_fingers_are_taken_in_order(this_window: i64, touch: TouchEventData, i: int)
    ensures
        ({
            let steps = plan(this_window, Event::Input(InputEvent::Touch(touch)));
            let touches = touches_of(touch.event_type, touch.finger, touch.touch_points@);
            &&& steps.len() == touches.len()
            &&& 0 <= i < steps.len() ==> steps[i] == WindowStep::Touch(touches[i])
        }),
{
}

/// A touch that counts is handed to GPUI, the pointer is where it is, and the keyboard
/// is asked for after that where the touch asks for it. One that does not count changes
/// nothing.
pub proof fn law_touch_reaches_gpui(state: WindowView, facts: WindowFacts, touch: RawTouch)
    ensures
        ({
            let step = WindowStep::Touch(touch);
            let next = state.after(step, facts);
            let outcome = state.touches.outcome(touch, facts.distance);
            &&& outcome is Some ==> {
                &&& next == (WindowView {
                    pointer_position: Some(touch.point.position),
                    touches: state.touches.after(touch, facts.targets_text_input, facts.distance),
                    ..state
                })
                &&& state.actions(step, facts) == seq![
                    WindowActionView::Dispatch(PlatformInputView::Touch(outcome->0.event)),
                ] + where_needed(
                    outcome->0.reopen_keyboard,
                    WindowActionView::ReopenKeyboard,
                )
            }
            &&& outcome is None ==> next == state && state.actions(step, facts).len() == 0
        }),
{
    let step = WindowStep::Touch(touch);
    let outcome = state.touches.outcome(touch, facts.distance);
    law_touch_is_handed_on_as_it_is(state.touches, touch, facts.distance);
    if outcome is Some {
        assert(state.actions(step, facts) =~= seq![
            WindowActionView::Dispatch(PlatformInputView::Touch(outcome->0.event)),
        ] + where_needed(outcome->0.reopen_keyboard, WindowActionView::ReopenKeyboard));
    }
}

/// A step asks for something that can be out of range only where it measures, moves or
/// starts a touch; an ordinary screen, a sum that is an `i32` and a name that is left
/// are all it takes.
pub proof fn law_steps_are_in_range(state: WindowView, step: WindowStep, facts: WindowFacts)
    ensures
        !(step is RefreshOverlap) && !(step is MoveTo) && !(step is Touch) ==> state.in_range(
            step,
            facts,
        ),
        step is RefreshOverlap ==> (state.in_range(step, facts) <==> facts.geometry is None
            || facts.geometry->0.overlap_in_range()),
        step matches WindowStep::MoveTo { rect } && facts.geometry is Some && i32::MIN <= rect.left
            + facts.geometry->0.content_rect.left <= i32::MAX && i32::MIN <= rect.top
            + facts.geometry->0.content_rect.top <= i32::MAX ==> state.in_range(step, facts),
        step is MoveTo && facts.geometry is None ==> state.in_range(step, facts),
        step matches WindowStep::Touch(touch) && (touch.phase != TouchPhase::Started
            || state.touches.next_id < u64::MAX) ==> state.in_range(step, facts),
{
}

/// A new window is shown, has nothing hidden, nothing held and no renderer, and is
/// active where it is the main window. It looks dark where the user chose dark.
pub proof fn law_new_window(window_id: i64, color_mode: Option<ColorMode>, atlas: bool)
    ensures
        ({
            let new = WindowView::initial(window_id, color_mode, atlas);
            &&& new.window_id == window_id
            &&& new.active <==> window_id == 0
            &&& new.visibility == WindowVisibility::Visible
            &&& new.appearance == WindowAppearance::Dark <==> color_mode == Some(ColorMode::Dark)
            &&& !new.hovered && !new.maximized && !new.fullscreen && !new.keyboard_visible
            &&& !new.renderer && !new.back_enabled
            &&& new.atlas == atlas
            &&& new.background_appearance == WindowBackgroundAppearance::Opaque
            &&& new.keyboard_overlap == 0
            &&& new.insets == (WindowInsets { top: 0, right: 0, bottom: 0, left: 0 })
            &&& new.pointer_position is None
            &&& new.mouse.pressed is None && new.mouse.click is None
            &&& !new.keys.capslock.on
            &&& forall|key: KeyCode| !#[trigger] new.keys.pressed.contains(key)
            &&& new.touches.next_id == 0
            &&& forall|finger: i32| !#[trigger] new.touches.active.contains_key(finger)
            &&& forall|finger: i32| !#[trigger] new.touches.candidates.contains_key(finger)
        }),
{
}

/// A change in a text input asks for the keyboard only with a connection to the system:
/// the focus coming to it for the keyboard to be shown where it is not, the focus going
/// for it to be hidden where it is, and nothing else for anything.
pub proof fn law_text_focus_asks_for_keyboard(
    state: WindowView,
    change: TextInputStateChange,
    connected: bool,
)
    ensures
        state.keyboard_request(change, connected) == if connected && change
            == TextInputStateChange::FocusGained && !state.keyboard_visible {
            KeyboardRequest::Show
        } else if connected && change == TextInputStateChange::FocusLost
            && state.keyboard_visible {
            KeyboardRequest::Hide
        } else {
            KeyboardRequest::Nothing
        },
{
}

/// A renderer's atlas comes before the one that the window keeps, and a renderer is made
/// for it only where there is neither.
pub proof fn law_atlas_comes_from_renderer_first(state: WindowView)
    ensures
        state.renderer <==> state.atlas_source() == AtlasSource::Renderer,
        !state.renderer && state.atlas <==> state.atlas_source() == AtlasSource::Fallback,
        !state.renderer && !state.atlas <==> state.atlas_source() == AtlasSource::Initialize,
{
}

/// Only the choice of dark makes a look dark.
pub proof fn law_only_dark_is_dark(mode: ColorMode)
    ensures
        appearance_of(mode) == WindowAppearance::Dark <==> mode == ColorMode::Dark,
{
}

/// A zoom that succeeds maximizes a window that is not maximized and restores one that
/// is, so that two of them give the window back as it was. One that fails changes
/// nothing.
pub proof fn law_zoom_goes_back_and_forth(state: WindowView)
    ensures
        state.zoom_request() == ZoomRequest::Maximize <==> !state.maximized,
        state.after_zoom(state.zoom_request(), true) == (WindowView {
            maximized: !state.maximized,
            ..state
        }),
        ({
            let once = state.after_zoom(state.zoom_request(), true);
            once.after_zoom(once.zoom_request(), true) == state
        }),
        state.after_zoom(ZoomRequest::Maximize, true).maximized,
        !state.after_zoom(ZoomRequest::Restore, true).maximized,
        state.after_zoom(state.zoom_request(), false) == state,
{
}

/// A toggle that succeeds fills the screen or gives it up, so that two of them give the
/// window back as it was. One that fails changes nothing.
pub proof fn law_fullscreen_goes_back_and_forth(state: WindowView, fullscreen: bool)
    ensures
        state.after_fullscreen(state.fullscreen_request(), true) == (WindowView {
            fullscreen: !state.fullscreen,
            ..state
        }),
        ({
            let once = state.after_fullscreen(state.fullscreen_request(), true);
            once.after_fullscreen(once.fullscreen_request(), true) == state
        }),
        state.after_fullscreen(fullscreen, true).fullscreen == fullscreen,
        state.after_fullscreen(fullscreen, false) == state,
{
}

/// A background is opaque exactly where the system is asked for a colour of full
/// opacity, and every other one asks for none. A background is never blurred: asking for
/// that makes it transparent, and any other is what was asked for. Where the system
/// refuses, the window stays as it is.
pub proof fn law_background_follows_color(
    state: WindowView,
    appearance: WindowBackgroundAppearance,
)
    ensures
        ({
            let next = state.after_background(appearance, true);
            &&& next == (WindowView { background_appearance: next.background_appearance, ..state })
            &&& next.background_appearance == WindowBackgroundAppearance::Opaque <==> color_of(
                appearance,
            ) == 0xff * 0x1000000
            &&& next.background_appearance != WindowBackgroundAppearance::Opaque <==> color_of(
                appearance,
            ) == 0
            &&& next.background_appearance != WindowBackgroundAppearance::Blurred
            &&& next.background_appearance != appearance ==> appearance
                == WindowBackgroundAppearance::Blurred && next.background_appearance
                == WindowBackgroundAppearance::Transparent
        }),
        state.after_background(appearance, false) == state,
{
}

/// What is asked of the keyboard and what the window takes it to be go together: it is
/// asked to show where it becomes shown and to hide where it stops being so, as far as
/// there is a connection to the system. Nothing else of the window changes, and without
/// a connection a keyboard is never taken to come.
pub proof fn law_keyboard_requests_match_state(
    state: WindowView,
    change: TextInputStateChange,
    connected: bool,
)
    ensures
        ({
            let next = state.after_text_change(change, connected);
            let request = state.keyboard_request(change, connected);
            &&& next == (WindowView { keyboard_visible: next.keyboard_visible, ..state })
            &&& request == KeyboardRequest::Show <==> connected && !state.keyboard_visible
                && next.keyboard_visible
            &&& request == KeyboardRequest::Hide <==> connected && state.keyboard_visible
                && !next.keyboard_visible
            &&& !connected && next.keyboard_visible ==> state.keyboard_visible
            &&& change == TextInputStateChange::FocusLost ==> !next.keyboard_visible
            &&& change == TextInputStateChange::FocusGained && connected ==> next.keyboard_visible
            &&& change == TextInputStateChange::FocusGained ==> next == state.after_keyboard_wish(
                connected,
            )
            &&& change == TextInputStateChange::SelectionChanged || change
                == TextInputStateChange::ContentChanged ==> next == state
        }),
{
}

/// A renderer that was made draws from its own atlas, and once it is gone the window
/// still has that atlas. One that could not be made changes nothing.
pub proof fn law_renderer_leaves_atlas(state: WindowView, facts: WindowFacts)
    ensures
        ({
            let drawn = state.after_renderer(true);
            &&& drawn == (WindowView { renderer: true, atlas: true, ..state })
            &&& drawn.atlas_source() == AtlasSource::Renderer
            &&& drawn.after(WindowStep::DropRenderer, facts).atlas_source()
                == AtlasSource::Fallback
        }),
        state.after_renderer(false) == state,
{
}

/// The pointer is where the last mouse or scroll event was, and at the origin before the
/// first.
pub proof fn law_pointer_is_where_it_was(
    state: WindowView,
    mouse: MouseEventData,
    axis: AxisEventData,
    facts: WindowFacts,
)
    ensures
        state.after(WindowStep::Mouse(mouse), facts).pointer() == mouse.position,
        state.after(WindowStep::Scroll(axis), facts).pointer() == axis.position,
        state.pointer_position is None ==> state.pointer().x == 0 && state.pointer().y == 0,
{
}

/// A new window that is not active is a child window, which the system destroys with it;
/// the main window stays.
pub proof fn law_only_child_windows_are_destroyed(
    window_id: i64,
    color_mode: Option<ColorMode>,
    atlas: bool,
)
    ensures
        ({
            let new = WindowView::initial(window_id, color_mode, atlas);
            &&& new.is_child() <==> !new.active
            &&& new.is_child() <==> window_id < 0 || window_id > 0
        }),
{
}

/// A size is asked for as it is, unless a side of it would be empty.
pub proof fn law_only_empty_sizes_are_not_asked_for(width: i64, height: i64)
    ensures
        resize_request(width, height) is None <==> width <= 0 || height <= 0,
        resize_request(width, height) is Some ==> resize_request(width, height)->0 == (
            width,
            height,
        ),
{
}

/// The system refuses a new place for the input method with any code but success and
/// that of a text input which is not attached.
pub proof fn law_detached_text_input_is_no_failure(ok: bool, code: i32)
    ensures
        !ime_answer_is_fine(ok, code) <==> !ok && code != 12800009,
{
}

/// Only its owner's no keeps a window open.
pub proof fn law_only_a_no_keeps_window_open(answer: Option<bool>)
    ensures
        !closes(answer) <==> answer == Some(false),
{
}

} // verus!
