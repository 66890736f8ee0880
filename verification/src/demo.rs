//! The demonstration application: what its windows show and what its buttons do.

use crate::credentials::found_view;
use crate::text::digits;
use crate::text::joined;
use crate::text::push_number;
use crate::text::utf8_bytes;
use crate::window::WindowVisibility;
use vstd::prelude::*;
use vstd::string::*;

verus! {

/// How many child windows the application can open.
pub const CHILD_WINDOWS: usize = 3;

/// What a button does.
#[derive(Clone, Copy, Debug, PartialEq, Eq, Structural)]
pub enum DemoAction {
    ReadWindowState,
    Click,
    CheckClipboard,
    PickFile,
    OpenChildWindow(usize),
    CheckCredentials,
    ToggleCapture,
}

/// A part of what a window shows.
#[derive(Debug, PartialEq, Eq)]
pub enum Element {
    Text(String),
    /// Text that is centred in the window.
    Centered(String),
    Button { id: String, color: u32, label: String, action: DemoAction },
}

/// What a part of a window holds.
pub enum ElementView {
    Text(Seq<char>),
    Centered(Seq<char>),
    Button { id: Seq<char>, color: u32, label: Seq<char>, action: DemoAction },
}

impl View for Element {
    type V = ElementView;

    open spec fn view(&self) -> ElementView {
        match *self {
            Element::Text(text) => ElementView::Text(text@),
            Element::Centered(text) => ElementView::Centered(text@),
            Element::Button { id, color, label, action } => ElementView::Button {
                id: id@,
                color,
                label: label@,
                action,
            },
        }
    }
}

/// What a list of parts holds.
pub open spec fn element_views(elements: Seq<Element>) -> Seq<ElementView> {
    elements.map_values(|element: Element| element@)
}

/// A prefix and a number.
pub open spec fn numbered(prefix: Seq<char>, n: nat) -> Seq<char> {
    prefix + digits(n)
}

fn numbered_text(prefix: &str, n: u64) -> (r: String)
    ensures
        r@ == numbered(prefix@, n as nat),
{
    let mut text = prefix.to_owned();
    push_number(&mut text, n);
    text
}

fn text_element(prefix: &str, rest: &str) -> (r: Element)
    ensures
        r@ == ElementView::Text(prefix@ + rest@),
{
    Element::Text(joined(prefix, rest))
}

fn number_element(prefix: &str, n: u64) -> (r: Element)
    ensures
        r@ == ElementView::Text(numbered(prefix@, n as nat)),
{
    Element::Text(numbered_text(prefix, n))
}

fn button(id: &str, color: u32, label: String, action: DemoAction) -> (r: Element)
    ensures
        r@ == (ElementView::Button { id: id@, color, label: label@, action }),
{
    Element::Button { id: id.to_owned(), color, label, action }
}

/// The label of a child window.
pub open spec fn label_of(index: int) -> Seq<char> {
    if index == 0 {
        "A"@
    } else if index == 1 {
        "B"@
    } else {
        "C"@
    }
}

/// The label of a child window.
pub fn child_label(index: usize) -> (r: &'static str)
    requires
        index < CHILD_WINDOWS,
    ensures
        r@ == label_of(index as int),
{
    if index == 0 {
        "A"
    } else if index == 1 {
        "B"
    } else {
        "C"
    }
}

/// A rectangle in logical pixels.
#[derive(Clone, Copy, Debug, PartialEq, Eq, Structural)]
pub struct WindowPlace {
    pub left: u32,
    pub top: u32,
    pub width: u32,
    pub height: u32,
}

/// Where a child window opens.
pub open spec fn place_of(index: int) -> WindowPlace {
    WindowPlace { left: (20 + 340 * index) as u32, top: 60, width: 320, height: 360 }
}

/// Where a child window opens: side by side with the others.
pub fn child_place(index: usize) -> (r: WindowPlace)
    requires
        index < CHILD_WINDOWS,
    ensures
        r == place_of(index as int),
{
    WindowPlace { left: 20 + 340 * index as u32, top: 60, width: 320, height: 360 }
}

/// No two child windows open over each other.
pub proof fn law_child_windows_open_apart(a: int, b: int)
    requires
        0 <= a < b < CHILD_WINDOWS,
    ensures
        place_of(a).left + place_of(a).width <= place_of(b).left,
{
}

/// What the main window knows of a child window.
#[derive(Debug, PartialEq, Eq)]
pub struct ChildWindowState {
    pub id: Option<u64>,
    pub status: String,
    pub opens: u32,
}

/// What is known of a child window.
pub struct ChildView {
    pub id: Option<u64>,
    pub status: Seq<char>,
    pub opens: u32,
}

impl View for ChildWindowState {
    type V = ChildView;

    open spec fn view(&self) -> ChildView {
        ChildView { id: self.id, status: self.status@, opens: self.opens }
    }
}

impl ChildView {
    /// What is known of a child window that was never opened.
    pub open spec fn initial() -> ChildView {
        ChildView { id: None, status: "idle"@, opens: 0 }
    }

    /// A child window after it was opened, or could not be.
    pub open spec fn opened(self, outcome: Result<u64, Seq<char>>) -> ChildView {
        match outcome {
            Ok(id) => ChildView {
                id: Some(id),
                status: numbered("open (launch #"@, (self.opens + 1) as nat) + ")"@,
                opens: (self.opens + 1) as u32,
            },
            Err(error) => ChildView { status: "error: "@ + error, ..self },
        }
    }

    /// A child window after it was closed.
    pub open spec fn closed(self) -> ChildView {
        ChildView { id: None, status: "closed"@, ..self }
    }

    /// The button of a child window in the main window.
    pub open spec fn control(self, index: int) -> ElementView {
        ElementView::Button {
            id: numbered("open-child-window-"@, index as nat),
            color: 0x7c3aed,
            label: "Window "@ + label_of(index) + ": "@ + self.status + " \u{2014} "@
                + if self.id is Some {
                "already open"@
            } else {
                "tap to open"@
            },
            action: DemoAction::OpenChildWindow(index as usize),
        }
    }
}

impl ChildWindowState {
    /// A child window that was never opened.
    pub fn new() -> (r: ChildWindowState)
        ensures
            r@ == ChildView::initial(),
    {
        ChildWindowState { id: None, status: "idle".to_owned(), opens: 0 }
    }

    fn control(&self, index: usize) -> (r: Element)
        requires
            index < CHILD_WINDOWS,
        ensures
            r@ == self@.control(index as int),
    {
        let mut label = joined("Window ", child_label(index));
        label.append(": ");
        label.append(self.status.as_str());
        label.append(" \u{2014} ");
        if self.id.is_some() {
            label.append("already open");
        } else {
            label.append("tap to open");
        }
        Element::Button {
            id: numbered_text("open-child-window-", index as u64),
            color: 0x7c3aed,
            label,
            action: DemoAction::OpenChildWindow(index),
        }
    }
}

/// A child window of the application.
#[derive(Debug)]
pub struct ChildWindowDemo {
    pub label: String,
    pub clicks: u32,
    pub clipboard: String,
    pub picker: String,
    pub window_state: String,
}

/// What a child window shows.
pub struct ChildDemoView {
    pub label: Seq<char>,
    pub clicks: u32,
    pub clipboard: Seq<char>,
    pub picker: Seq<char>,
    pub window_state: Seq<char>,
}

impl View for ChildWindowDemo {
    type V = ChildDemoView;

    open spec fn view(&self) -> ChildDemoView {
        ChildDemoView {
            label: self.label@,
            clicks: self.clicks,
            clipboard: self.clipboard@,
            picker: self.picker@,
            window_state: self.window_state@,
        }
    }
}

/// The text that the clipboard check writes and expects back.
pub open spec fn clipboard_value() -> Seq<char> {
    "gpui-ohos second window"@
}

/// The text of a truth value.
pub open spec fn truth(b: bool) -> Seq<char> {
    if b {
        "true"@
    } else {
        "false"@
    }
}

/// The text of a visibility.
pub open spec fn visibility_text(visibility: WindowVisibility) -> Seq<char> {
    match visibility {
        WindowVisibility::Visible => "Visible"@,
        WindowVisibility::Hidden => "Hidden"@,
    }
}

/// The text of a window's state.
pub open spec fn state_text(maximized: bool, fullscreen: bool, visibility: WindowVisibility) -> Seq<
    char,
> {
    "maximized="@ + truth(maximized) + ", fullscreen="@ + truth(fullscreen) + ", visibility="@
        + visibility_text(visibility)
}

impl ChildDemoView {
    /// A child window that was just opened.
    pub open spec fn initial(index: int) -> ChildDemoView {
        ChildDemoView {
            label: label_of(index),
            clicks: 0,
            clipboard: "idle"@,
            picker: "idle"@,
            window_state: "unread"@,
        }
    }

    /// The window after a click.
    pub open spec fn clicked(self) -> ChildDemoView {
        ChildDemoView { clicks: (self.clicks + 1) as u32, ..self }
    }

    /// The window after the clipboard gave back a text, or none; `answer` is the text
    /// of the system's answer.
    pub open spec fn after_clipboard(
        self,
        text: Option<Seq<char>>,
        answer: Seq<char>,
    ) -> ChildDemoView {
        ChildDemoView {
            clipboard: if text == Some(clipboard_value()) {
                "round trip passed"@
            } else {
                "unexpected: "@ + answer
            },
            ..self
        }
    }

    /// What the window shows, from top to bottom.
    pub open spec fn elements(self, menu_actions: nat) -> Seq<ElementView> {
        seq![
            ElementView::Text("GPUI child window "@ + self.label),
            ElementView::Text(numbered("Menu actions: "@, menu_actions)),
            ElementView::Text("GPUI window state: "@ + self.window_state),
            ElementView::Button {
                id: "check-window-state"@,
                color: 0x64748b,
                label: "Read GPUI window state"@,
                action: DemoAction::ReadWindowState,
            },
            ElementView::Button {
                id: "second-window-click"@,
                color: 0x2563eb,
                label: numbered("Clicks: "@, self.clicks as nat),
                action: DemoAction::Click,
            },
            ElementView::Button {
                id: "second-window-clipboard"@,
                color: 0x0d9488,
                label: "Clipboard: "@ + self.clipboard,
                action: DemoAction::CheckClipboard,
            },
            ElementView::Button {
                id: "second-window-picker"@,
                color: 0x7c3aed,
                label: "File picker: "@ + self.picker,
                action: DemoAction::PickFile,
            },
        ]
    }
}

impl ChildWindowDemo {
    /// A child window that was just opened.
    pub fn new(index: usize) -> (r: ChildWindowDemo)
        requires
            index < CHILD_WINDOWS,
        ensures
            r@ == ChildDemoView::initial(index as int),
    {
        ChildWindowDemo {
            label: child_label(index).to_owned(),
            clicks: 0,
            clipboard: "idle".to_owned(),
            picker: "idle".to_owned(),
            window_state: "unread".to_owned(),
        }
    }

    /// What the window shows, from top to bottom. `menu_actions` is how often the
    /// menu was used.
    pub fn render(&self, menu_actions: usize) -> (r: Vec<Element>)
        ensures
            element_views(r@) == self@.elements(menu_actions as nat),
    {
        let mut elements: Vec<Element> = Vec::new();
        elements.push(text_element("GPUI child window ", self.label.as_str()));
        elements.push(number_element("Menu actions: ", menu_actions as u64));
        elements.push(text_element("GPUI window state: ", self.window_state.as_str()));
        elements.push(
            button(
                "check-window-state",
                0x64748b,
                "Read GPUI window state".to_owned(),
                DemoAction::ReadWindowState,
            ),
        );
        elements.push(
            button(
                "second-window-click",
                0x2563eb,
                numbered_text("Clicks: ", self.clicks as u64),
                DemoAction::Click,
            ),
        );
        elements.push(
            button(
                "second-window-clipboard",
                0x0d9488,
                joined("Clipboard: ", self.clipboard.as_str()),
                DemoAction::CheckClipboard,
            ),
        );
        elements.push(
            button(
                "second-window-picker",
                0x7c3aed,
                joined("File picker: ", self.picker.as_str()),
                DemoAction::PickFile,
            ),
        );
        assert(element_views(elements@) =~= self@.elements(menu_actions as nat));
        elements
    }

    /// Takes the state of the window, to show it.
    pub fn read_window_state(
        &mut self,
        maximized: bool,
        fullscreen: bool,
        visibility: WindowVisibility,
    )
        ensures
            final(self)@ == (ChildDemoView {
                window_state: state_text(maximized, fullscreen, visibility),
                ..old(self)@
            }),
    {
        let mut text = joined("maximized=", truth_text(maximized));
        text.append(", fullscreen=");
        text.append(truth_text(fullscreen));
        text.append(", visibility=");
        match visibility {
            WindowVisibility::Visible => text.append("Visible"),
            WindowVisibility::Hidden => text.append("Hidden"),
        }
        self.window_state = text;
    }

    /// Counts a click.
    pub fn click(&mut self)
        requires
            old(self)@.clicks < u32::MAX,
        ensures
            final(self)@ == (ChildDemoView { clicks: (old(self)@.clicks + 1) as u32, ..old(self)@ }),
            final(self)@ == old(self)@.clicked(),
    {
        self.clicks = self.clicks + 1;
    }

    /// Starts the clipboard check: it takes a permission.
    pub fn clipboard_requested(&mut self)
        ensures
            final(self)@ == (ChildDemoView { clipboard: "requesting permission"@, ..old(self)@ }),
    {
        self.clipboard = "requesting permission".to_owned();
    }

    /// Takes it that the permission was not granted; `answer` is the text of the
    /// system's answer.
    pub fn clipboard_denied(&mut self, answer: &str)
        ensures
            final(self)@ == (ChildDemoView {
                clipboard: "permission unavailable: "@ + answer@,
                ..old(self)@
            }),
    {
        self.clipboard = joined("permission unavailable: ", answer);
    }

    /// Takes it that the permission was granted, and gives the text to write to
    /// the clipboard and to read back.
    pub fn clipboard_granted(&mut self) -> (r: &'static str)
        ensures
            r@ == clipboard_value(),
            final(self)@ == (ChildDemoView { clipboard: "reading"@, ..old(self)@ }),
    {
        self.clipboard = "reading".to_owned();
        "gpui-ohos second window"
    }

    /// Takes what the clipboard gave back: the text in it, where there was one,
    /// and otherwise the text of the system's answer.
    pub fn clipboard_read(&mut self, text: Option<String>, answer: &str)
        ensures
            final(self)@ == (ChildDemoView {
                clipboard: if text is Some && text->0@ == clipboard_value() {
                    "round trip passed"@
                } else {
                    "unexpected: "@ + answer@
                },
                ..old(self)@
            }),
            final(self)@ == old(self)@.after_clipboard(crate::input::text_view(text), answer@),
    {
        let passed = match text {
            Some(text) => text == "gpui-ohos second window".to_owned(),
            None => false,
        };
        if passed {
            self.clipboard = "round trip passed".to_owned();
        } else {
            self.clipboard = joined("unexpected: ", answer);
        }
    }

    /// Starts to pick a file.
    pub fn picker_opened(&mut self)
        ensures
            final(self)@ == (ChildDemoView { picker: "opening"@, ..old(self)@ }),
    {
        self.picker = "opening".to_owned();
    }

    /// Takes what was picked, as text.
    pub fn picker_closed(&mut self, answer: &str)
        ensures
            final(self)@ == (ChildDemoView { picker: answer@, ..old(self)@ }),
    {
        self.picker = answer.to_owned();
    }
}

fn truth_text(b: bool) -> (r: &'static str)
    ensures
        r@ == truth(b),
{
    if b {
        "true"
    } else {
        "false"
    }
}

/// Tells whether every permission that was asked for is granted: the system
/// answers each with zero.
pub fn permission_granted(codes: &Vec<i32>) -> (r: bool)
    ensures
        r == forall|i: int| 0 <= i < codes@.len() ==> codes@[i] == 0,
{
    let mut i: usize = 0;
    while i < codes.len()
        invariant
            i <= codes@.len(),
            forall|j: int| 0 <= j < i ==> codes@[j] == 0,
        decreases codes@.len() - i,
    {
        if codes[i] != 0 {
            return false;
        }
        i = i + 1;
    }
    true
}

/// What the main window shows and knows.
pub struct MainView {
    pub status: Seq<char>,
    pub credentials: Seq<char>,
    pub children: Seq<ChildView>,
    /// Whether a capture runs.
    pub capturing: bool,
}

/// The place in a list of child windows of the first with an identifier.
pub open spec fn child_with(children: Seq<ChildView>, id: u64) -> Option<int>
    decreases children.len(),
{
    if children.len() == 0 {
        None
    } else if children[0].id == Some(id) {
        Some(0)
    } else {
        match child_with(children.skip(1), id) {
            Some(i) => Some(i + 1),
            None => None,
        }
    }
}

/// The buttons of child windows.
pub open spec fn controls(children: Seq<ChildView>) -> Seq<ElementView> {
    Seq::new(children.len(), |i: int| children[i].control(i))
}

impl MainView {
    /// There is an entry for every child window.
    pub open spec fn wf(self) -> bool {
        self.children.len() == CHILD_WINDOWS
    }

    /// The main window at the start.
    pub open spec fn initial() -> MainView {
        MainView {
            status: "idle"@,
            credentials: "idle"@,
            children: seq![ChildView::initial(), ChildView::initial(), ChildView::initial()],
            capturing: false,
        }
    }

    /// What the window shows, from top to bottom.
    pub open spec fn elements(self, frames: nat, menu_actions: nat) -> Seq<ElementView> {
        seq![
            ElementView::Centered("Hello, GPUI on OpenHarmony!"@),
            ElementView::Text("Screen capture demo"@),
            ElementView::Text("Status: "@ + self.status),
            ElementView::Text(numbered("Video frames: "@, frames)),
            ElementView::Text("Credential check: "@ + self.credentials),
            ElementView::Text(numbered("Menu actions: "@, menu_actions)),
        ] + controls(self.children) + seq![
            ElementView::Button {
                id: "check-credentials"@,
                color: 0x0d9488,
                label: "Check credential storage"@,
                action: DemoAction::CheckCredentials,
            },
            ElementView::Button {
                id: "toggle-capture"@,
                color: 0x2563eb,
                label: if self.capturing {
                    "Stop capture"@
                } else {
                    "Start capture"@
                },
                action: DemoAction::ToggleCapture,
            },
        ]
    }

    /// The main window after a child window was opened, or could not be.
    pub open spec fn after_opening(self, index: int, outcome: Result<u64, Seq<char>>) -> MainView {
        MainView {
            children: self.children.update(index, self.children[index].opened(outcome)),
            ..self
        }
    }

    /// The main window after its capture button was pressed.
    pub open spec fn after_toggle(self) -> MainView {
        MainView {
            status: if self.capturing {
                "stopped"@
            } else {
                "requesting consent"@
            },
            capturing: false,
            ..self
        }
    }

    /// The main window after a capture was started, or could not be.
    pub open spec fn after_capture(self, outcome: Result<(), Seq<char>>) -> MainView {
        match outcome {
            Ok(()) => MainView { status: "capturing"@, capturing: true, ..self },
            Err(error) => MainView { status: "error: "@ + error, ..self },
        }
    }

    /// The main window after the credential check.
    pub open spec fn after_check(self, outcome: Result<(), Seq<char>>) -> MainView {
        match outcome {
            Ok(()) => MainView { credentials: "write/update/read/delete passed"@, ..self },
            Err(error) => MainView { credentials: "error: "@ + error, ..self },
        }
    }

    /// The main window after a window was closed.
    pub open spec fn after_closing(self, id: u64) -> MainView {
        match child_with(self.children, id) {
            Some(i) => MainView {
                children: self.children.update(i, self.children[i].closed()),
                ..self
            },
            None => self,
        }
    }
}

/// What a list of child windows holds.
pub open spec fn child_views(children: Seq<ChildWindowState>) -> Seq<ChildView> {
    children.map_values(|child: ChildWindowState| child@)
}

/// An outcome with the text of its error.
pub open spec fn outcome_view(outcome: Result<u64, String>) -> Result<u64, Seq<char>> {
    match outcome {
        Ok(id) => Ok(id),
        Err(error) => Err(error@),
    }
}

/// An outcome of no value with the text of its error.
pub open spec fn plain_outcome(outcome: Result<(), String>) -> Result<(), Seq<char>> {
    match outcome {
        Ok(()) => Ok(()),
        Err(error) => Err(error@),
    }
}

/// The main window of the application.
#[derive(Debug)]
pub struct CaptureDemo {
    status: String,
    credentials: String,
    child_windows: Vec<ChildWindowState>,
    capturing: bool,
}

impl View for CaptureDemo {
    type V = MainView;

    closed spec fn view(&self) -> MainView {
        MainView {
            status: self.status@,
            credentials: self.credentials@,
            children: child_views(self.child_windows@),
            capturing: self.capturing,
        }
    }
}

impl CaptureDemo {
    /// The main window at the start.
    pub fn new() -> (r: CaptureDemo)
        ensures
            r@ == MainView::initial(),
            r@.wf(),
    {
        let mut child_windows: Vec<ChildWindowState> = Vec::new();
        child_windows.push(ChildWindowState::new());
        child_windows.push(ChildWindowState::new());
        child_windows.push(ChildWindowState::new());
        let r = CaptureDemo {
            status: "idle".to_owned(),
            credentials: "idle".to_owned(),
            child_windows,
            capturing: false,
        };
        assert(r@.children =~= MainView::initial().children);
        r
    }

    /// What the window shows, from top to bottom. `frames` is how many frames the
    /// capture gave, `menu_actions` how often the menu was used.
    pub fn render(&self, frames: usize, menu_actions: usize) -> (r: Vec<Element>)
        requires
            self@.wf(),
        ensures
            element_views(r@) == self@.elements(frames as nat, menu_actions as nat),
    {
        let mut elements: Vec<Element> = Vec::new();
        elements.push(Element::Centered("Hello, GPUI on OpenHarmony!".to_owned()));
        elements.push(Element::Text("Screen capture demo".to_owned()));
        elements.push(text_element("Status: ", self.status.as_str()));
        elements.push(number_element("Video frames: ", frames as u64));
        elements.push(text_element("Credential check: ", self.credentials.as_str()));
        elements.push(number_element("Menu actions: ", menu_actions as u64));
        let ghost head = element_views(elements@);
        let ghost whole = self@.elements(frames as nat, menu_actions as nat);
        assert(head =~= whole.take(6));
        let mut i: usize = 0;
        assert(head + controls(self@.children).take(0) =~= head);
        while i < self.child_windows.len()
            invariant
                i <= self.child_windows@.len(),
                self@.wf(),
                element_views(elements@) == head + controls(self@.children).take(i as int),
            decreases self.child_windows@.len() - i,
        {
            let ghost before = elements@;
            let control = self.child_windows[i].control(i);
            assert(control@ == controls(self@.children)[i as int]);
            elements.push(control);
            i = i + 1;
            assert(element_views(elements@) =~= element_views(before).push(control@));
            assert(element_views(elements@) =~= head + controls(self@.children).take(i as int));
        }
        assert(controls(self@.children).take(i as int) =~= controls(self@.children));
        let ghost body = element_views(elements@);
        assert(body =~= whole.take(9));
        elements.push(
            button(
                "check-credentials",
                0x0d9488,
                "Check credential storage".to_owned(),
                DemoAction::CheckCredentials,
            ),
        );
        let label = if self.capturing {
            "Stop capture".to_owned()
        } else {
            "Start capture".to_owned()
        };
        elements.push(button("toggle-capture", 0x2563eb, label, DemoAction::ToggleCapture));
        proof {
            let shown = element_views(elements@);
            assert(shown.take(9) =~= body);
            assert(shown[9] == whole[9]);
            assert(shown[10] == whole[10]);
            assert forall|k: int| 0 <= k < 11 implies shown[k] == whole[k] by {
                if k < 9 {
                    assert(shown[k] == body[k]);
                    assert(whole.take(9)[k] == whole[k]);
                }
            }
            assert(shown =~= whole);
        }
        elements
    }

    /// Where to open a child window; `None` where it is open already.
    pub fn open_child_window(&self, index: usize) -> (r: Option<WindowPlace>)
        requires
            self@.wf(),
            index < CHILD_WINDOWS,
        ensures
            r is None <==> self@.children[index as int].id is Some,
            r is Some ==> r->0 == place_of(index as int),
    {
        if self.child_windows[index].id.is_some() {
            return None;
        }
        Some(child_place(index))
    }

    /// Tells whether another opening of a child window can be counted.
    pub fn can_count_opening(&self, index: usize) -> (r: bool)
        requires
            self@.wf(),
            index < CHILD_WINDOWS,
        ensures
            r == (self@.children[index as int].opens < u32::MAX),
    {
        self.child_windows[index].opens < u32::MAX
    }

    /// Takes the outcome of opening a child window: its identifier, or the text of
    /// the error.
    pub fn child_window_opened(&mut self, index: usize, outcome: Result<u64, String>)
        requires
            old(self)@.wf(),
            index < CHILD_WINDOWS,
            outcome is Ok ==> old(self)@.children[index as int].opens < u32::MAX,
        ensures
            final(self)@ == old(self)@.after_opening(index as int, outcome_view(outcome)),
            final(self)@.wf(),
    {
        let opens: u32 = self.child_windows[index].opens;
        let id = self.child_windows[index].id;
        let next = match outcome {
            Ok(id) => {
                let mut status = numbered_text("open (launch #", (opens + 1) as u64);
                status.append(")");
                ChildWindowState { id: Some(id), status, opens: opens + 1 }
            },
            Err(error) => ChildWindowState { id, status: joined("error: ", error.as_str()), opens },
        };
        assert(next@ == old(self)@.children[index as int].opened(outcome_view(outcome)));
        self.child_windows.set(index, next);
        assert(self@.children =~= old(self)@.after_opening(
            index as int,
            outcome_view(outcome),
        ).children);
    }

    /// Takes it that a window was closed, and tells whether it was one of the
    /// child windows.
    pub fn window_closed(&mut self, id: u64) -> (r: bool)
        requires
            old(self)@.wf(),
        ensures
            r == (child_with(old(self)@.children, id) is Some),
            final(self)@ == old(self)@.after_closing(id),
            final(self)@.wf(),
    {
        let ghost children = self@.children;
        proof {
            lemma_child_with(children, id);
        }
        let mut i: usize = 0;
        while i < self.child_windows.len()
            invariant
                i <= children.len(),
                self@ == old(self)@,
                self@.wf(),
                children == self@.children,
                forall|j: int| 0 <= j < i ==> (#[trigger] children[j]).id != Some(id),
                child_with(children, id) is Some ==> {
                    let k = child_with(children, id)->0;
                    &&& 0 <= k < children.len()
                    &&& children[k].id == Some(id)
                    &&& forall|j: int| 0 <= j < k ==> (#[trigger] children[j]).id != Some(id)
                },
                child_with(children, id) is None ==> forall|j: int|
                    0 <= j < children.len() ==> (#[trigger] children[j]).id != Some(id),
            decreases children.len() - i,
        {
            let this = match self.child_windows[i].id {
                Some(other) => other == id,
                None => false,
            };
            assert(children[i as int] == self.child_windows@[i as int]@);
            if this {
                let opens: u32 = self.child_windows[i].opens;
                let next = ChildWindowState { id: None, status: "closed".to_owned(), opens };
                assert(next@ == children[i as int].closed());
                assert(child_with(children, id) == Some(i as int));
                self.child_windows.set(i, next);
                assert(self@.children =~= children.update(i as int, next@));
                return true;
            }
            i = i + 1;
        }
        false
    }

    /// Starts the credential check.
    pub fn credentials_started(&mut self)
        ensures
            final(self)@ == (MainView { credentials: "writing"@, ..old(self)@ }),
    {
        self.credentials = "writing".to_owned();
    }

    /// Takes the outcome of the credential check.
    pub fn credentials_checked(&mut self, outcome: Result<(), String>)
        ensures
            final(self)@ == (MainView {
                credentials: match outcome {
                    Ok(()) => "write/update/read/delete passed"@,
                    Err(error) => "error: "@ + error@,
                },
                ..old(self)@
            }),
            final(self)@ == old(self)@.after_check(plain_outcome(outcome)),
    {
        match outcome {
            Ok(()) => {
                self.credentials = "write/update/read/delete passed".to_owned();
            },
            Err(error) => {
                self.credentials = joined("error: ", error.as_str());
            },
        }
    }

    /// Ends a capture that runs, or else starts one, and tells whether to start
    /// one.
    pub fn toggle_capture(&mut self) -> (r: bool)
        ensures
            r == !old(self)@.capturing,
            final(self)@ == old(self)@.after_toggle(),
            final(self)@ == (MainView {
                status: if old(self)@.capturing {
                    "stopped"@
                } else {
                    "requesting consent"@
                },
                capturing: false,
                ..old(self)@
            }),
    {
        if self.capturing {
            self.capturing = false;
            self.status = "stopped".to_owned();
            return false;
        }
        self.status = "requesting consent".to_owned();
        true
    }

    /// Takes the outcome of starting a capture, and tells whether one runs.
    pub fn capture_answered(&mut self, outcome: Result<(), String>) -> (r: bool)
        ensures
            r == final(self)@.capturing,
            final(self)@ == old(self)@.after_capture(plain_outcome(outcome)),
            final(self)@ == match outcome {
                Ok(()) => MainView { status: "capturing"@, capturing: true, ..old(self)@ },
                Err(error) => MainView { status: "error: "@ + error@, ..old(self)@ },
            },
    {
        match outcome {
            Ok(()) => {
                self.capturing = true;
                self.status = "capturing".to_owned();
            },
            Err(error) => {
                self.status = joined("error: ", error.as_str());
            },
        }
        self.capturing
    }

    /// Whether a capture runs, so that the number of frames has to be shown anew.
    pub fn is_capturing(&self) -> (r: bool)
        ensures
            r == self@.capturing,
    {
        self.capturing
    }
}

proof fn lemma_child_with(children: Seq<ChildView>, id: u64)
    ensures
        child_with(children, id) is Some ==> {
            let k = child_with(children, id)->0;
            &&& 0 <= k < children.len()
            &&& children[k].id == Some(id)
            &&& forall|j: int| 0 <= j < k ==> (#[trigger] children[j]).id != Some(id)
        },
        child_with(children, id) is None ==> forall|j: int|
            0 <= j < children.len() ==> (#[trigger] children[j]).id != Some(id),
    decreases children.len(),
{
    if children.len() > 0 && children[0].id != Some(id) {
        let rest = children.skip(1);
        lemma_child_with(rest, id);
        assert forall|j: int| 0 < j < children.len() implies (#[trigger] children[j]) == rest[j
            - 1] by {}
    }
}

/// Closing a child window updates its own entry and no other: that one is not
/// open any more and counts as closed.
pub proof fn law_closing_updates_one_entry(state: MainView, id: u64, index: int)
    requires
        state.wf(),
        0 <= index < state.children.len(),
        state.children[index].id == Some(id),
        forall|j: int|
            0 <= j < state.children.len() && j != index ==> (#[trigger] state.children[j]).id
                != Some(id),
    ensures
        ({
            let next = state.after_closing(id);
            &&& next.children[index] == state.children[index].closed()
            &&& next.children[index].id is None
            &&& forall|j: int|
                0 <= j < state.children.len() && j != index ==> #[trigger] next.children[j]
                    == state.children[j]
            &&& next.status == state.status
            &&& next.credentials == state.credentials
            &&& next.capturing == state.capturing
        }),
{
    lemma_child_with(state.children, id);
}

/// A closed child window can be opened again, and each opening counts one more.
pub proof fn law_closed_window_opens_again(child: ChildView, id: u64)
    requires
        child.opens < u32::MAX,
    ensures
        child.closed().id is None,
        child.closed().opened(Ok(id)).id == Some(id),
        child.closed().opened(Ok(id)).opens == child.opens + 1,
{
}

/// Opening a child window, or failing to, leaves the other entries alone.
pub proof fn law_opening_updates_one_entry(
    state: MainView,
    index: int,
    outcome: Result<u64, Seq<char>>,
    other: int,
)
    requires
        state.wf(),
        0 <= index < state.children.len(),
        0 <= other < state.children.len(),
        other != index,
    ensures
        state.after_opening(index, outcome).children[other] == state.children[other],
{
}

/// A window that is none of the child windows leaves everything as it is.
pub proof fn law_other_windows_close_unnoticed(state: MainView, id: u64)
    requires
        forall|j: int|
            0 <= j < state.children.len() ==> (#[trigger] state.children[j]).id != Some(id),
    ensures
        state.after_closing(id) == state,
{
    lemma_child_with(state.children, id);
}

/// The display to capture: the first of those that can be, of which there may be
/// none.
pub fn first_source<S>(sources: Vec<S>) -> (r: Result<S, String>)
    ensures
        r is Ok <==> sources@.len() > 0,
        r is Ok ==> r->Ok_0 == sources@[0],
        r is Err ==> r->Err_0@ == "No capture display"@,
{
    let mut sources = sources;
    if sources.len() == 0 {
        return Err("No capture display".to_owned());
    }
    Ok(sources.remove(0))
}

/// Whether a captured frame is worth a line in the log.
pub open spec fn is_logged(count: int) -> bool {
    count <= 3 || count % 60 == 0
}

/// Tells whether a captured frame is worth a line in the log: the first few are,
/// and then one now and again. Frames count from one.
pub fn frame_is_logged(count: usize) -> (r: bool)
    ensures
        r == is_logged(count as int),
        r == (count <= 3 || count % 60 == 0),
{
    count <= 3 || count % 60 == 0
}

/// The key of the credential that the check writes.
pub fn credential_key() -> (r: &'static str)
    ensures
        r@ == "gpui-ohos-example://credential-smoke"@,
{
    "gpui-ohos-example://credential-smoke"
}

/// How far the credential check has come: what it does next.
#[derive(Clone, Copy, Debug, PartialEq, Eq, Structural)]
pub enum CheckStage {
    /// Writes a credential.
    Write,
    /// Writes another over it.
    Update,
    /// Reads what is there now.
    Read,
    Delete,
    /// Reads once more.
    ReadAgain,
    Passed,
}

/// The credential that a stage writes.
pub open spec fn credential_at(stage: CheckStage) -> (Seq<char>, Seq<char>) {
    if stage is Write {
        ("gpui-demo-user"@, "gpui-demo-password"@)
    } else {
        ("gpui-demo-updated"@, "gpui-demo-updated-password"@)
    }
}

/// The stage after a good answer.
pub open spec fn stage_after(stage: CheckStage) -> CheckStage {
    match stage {
        CheckStage::Write => CheckStage::Update,
        CheckStage::Update => CheckStage::Read,
        CheckStage::Read => CheckStage::Delete,
        CheckStage::Delete => CheckStage::ReadAgain,
        CheckStage::ReadAgain | CheckStage::Passed => CheckStage::Passed,
    }
}

/// Whether a stage reads the credential.
pub open spec fn reads(stage: CheckStage) -> bool {
    stage is Read || stage is ReadAgain
}

/// Whether the credential that a reading stage found is the one it expects: the
/// second one that was written, and none once it was deleted.
pub open spec fn expected(stage: CheckStage, found: Option<(Seq<char>, Seq<u8>)>) -> bool {
    if stage is Read {
        found == Some(
            (
                credential_at(CheckStage::Update).0,
                vstd::utf8::encode_utf8(credential_at(CheckStage::Update).1),
            ),
        )
    } else {
        found is None
    }
}

fn same_bytes(a: &Vec<u8>, b: &Vec<u8>) -> (r: bool)
    ensures
        r == (a@ == b@),
{
    if a.len() != b.len() {
        return false;
    }
    let mut i: usize = 0;
    while i < a.len()
        invariant
            a@.len() == b@.len(),
            i <= a@.len(),
            forall|j: int| 0 <= j < i ==> a@[j] == b@[j],
        decreases a@.len() - i,
    {
        if a[i] != b[i] {
            return false;
        }
        i = i + 1;
    }
    assert(a@ =~= b@);
    true
}

impl CheckStage {
    /// The user and the password that a writing stage writes.
    pub fn credential(&self) -> (r: (&'static str, Vec<u8>))
        ensures
            r.0@ == credential_at(*self).0,
            r.1@ == vstd::utf8::encode_utf8(credential_at(*self).1),
    {
        match self {
            CheckStage::Write => ("gpui-demo-user", utf8_bytes("gpui-demo-password")),
            _ => ("gpui-demo-updated", utf8_bytes("gpui-demo-updated-password")),
        }
    }

    /// Takes the answer to a write or a deletion, and gives the next stage.
    pub fn done(self, answer: Result<(), String>) -> (r: Result<CheckStage, String>)
        requires
            !reads(self),
        ensures
            r is Ok <==> answer is Ok,
            r is Ok ==> r->Ok_0 == stage_after(self),
            r is Err ==> r->Err_0 == answer->Err_0,
    {
        match answer {
            Ok(()) => Ok(
                match self {
                    CheckStage::Write => CheckStage::Update,
                    CheckStage::Update => CheckStage::Read,
                    CheckStage::Delete => CheckStage::ReadAgain,
                    _ => CheckStage::Passed,
                },
            ),
            Err(error) => Err(error),
        }
    }

    /// Takes the answer to a read, and gives the next stage.
    pub fn found(self, answer: Result<Option<(String, Vec<u8>)>, String>) -> (r: Result<
        CheckStage,
        String,
    >)
        requires
            reads(self),
        ensures
            r is Ok <==> answer is Ok && expected(self, found_view(answer->Ok_0)),
            r is Ok ==> r->Ok_0 == stage_after(self),
            r is Err ==> r->Err_0@ == if answer is Err {
                answer->Err_0@
            } else if self is Read {
                "stored credential differs"@
            } else {
                "credential was not deleted"@
            },
    {
        let found = match answer {
            Ok(found) => found,
            Err(error) => {
                return Err(error);
            },
        };
        if self == CheckStage::Read {
            let (username, password) = CheckStage::Update.credential();
            let same = match found {
                Some(stored) => stored.0 == username.to_owned() && same_bytes(
                    &stored.1,
                    &password,
                ),
                None => false,
            };
            if same {
                Ok(CheckStage::Delete)
            } else {
                Err("stored credential differs".to_owned())
            }
        } else {
            match found {
                Some(_) => Err("credential was not deleted".to_owned()),
                None => Ok(CheckStage::Passed),
            }
        }
    }
}

/// The stage that the check reaches with answers of which it is known whether each
/// is good; `None` where one is not. Once it has passed it asks for no more.
pub open spec fn stage_reached(stage: CheckStage, good: Seq<bool>) -> Option<CheckStage>
    decreases good.len(),
{
    if good.len() == 0 || stage is Passed {
        Some(stage)
    } else if good[0] {
        stage_reached(stage_after(stage), good.skip(1))
    } else {
        None
    }
}

/// The check passes exactly where it gets its five answers and each of them is
/// good.
pub proof fn law_check_passes_on_good_answers(good: Seq<bool>)
    ensures
        stage_reached(CheckStage::Write, good) == Some(CheckStage::Passed) <==> good.len() >= 5
            && forall|i: int| 0 <= i < 5 ==> good[i],
{
    reveal_with_fuel(stage_reached, 6);
    if good.len() >= 5 {
        assert(good.skip(1)[0] == good[1]);
        assert(good.skip(1).skip(1)[0] == good[2]);
        assert(good.skip(1).skip(1).skip(1)[0] == good[3]);
        assert(good.skip(1).skip(1).skip(1).skip(1)[0] == good[4]);
    }
}

/// What a store that keeps what it is told holds after a stage.
pub open spec fn kept_after(stage: CheckStage, kept: Option<(Seq<char>, Seq<u8>)>) -> Option<
    (Seq<char>, Seq<u8>),
> {
    match stage {
        CheckStage::Write | CheckStage::Update => Some(
            (credential_at(stage).0, vstd::utf8::encode_utf8(credential_at(stage).1)),
        ),
        CheckStage::Delete => None,
        CheckStage::Read | CheckStage::ReadAgain | CheckStage::Passed => kept,
    }
}

/// A store that keeps what it is told meets both readings of the check, whatever
/// it held before.
pub proof fn law_faithful_store_meets_check(before: Option<(Seq<char>, Seq<u8>)>)
    ensures
        ({
            let written = kept_after(CheckStage::Write, before);
            let updated = kept_after(CheckStage::Update, written);
            let deleted = kept_after(CheckStage::Delete, updated);
            &&& expected(CheckStage::Read, updated)
            &&& expected(CheckStage::ReadAgain, deleted)
        }),
{
}

/// The child windows are named by the first letters in their order and open in a row:
/// all of one size and at one height, the first near the left edge of the screen, and
/// with the same gap from each to the next.
pub proof fn law_child_windows_open_in_row(index: int)
    requires
        0 <= index < CHILD_WINDOWS,
    ensures
        label_of(index) == seq![('A' as int + index) as char],
        place_of(index).top == 60,
        place_of(index).width == 320,
        place_of(index).height == 360,
        index == 0 ==> place_of(index).left == 20,
        index > 0 ==> place_of(index).left == place_of(index - 1).left + 320 + 20,
{
    reveal_strlit("A");
    reveal_strlit("B");
    reveal_strlit("C");
}

/// An opened child window is found by its new identifier and counts one more opening,
/// which its status gives. One that could not be opened keeps all but its status, which
/// gives the reason. One that was closed keeps how often it was opened.
pub proof fn law_child_window_is_followed(child: ChildView, id: u64, reason: Seq<char>)
    requires
        child.opens < u32::MAX,
    ensures
        ({
            let open = child.opened(Ok(id));
            &&& open.id == Some(id)
            &&& open.opens == child.opens + 1
            &&& open.status == "open (launch #"@ + digits(open.opens as nat) + ")"@
        }),
        ({
            let failed = child.opened(Err(reason));
            &&& failed.id == child.id
            &&& failed.opens == child.opens
            &&& failed.status == "error: "@ + reason
        }),
        ({
            let closed = child.closed();
            &&& closed.id is None
            &&& closed.opens == child.opens
            &&& closed.status == "closed"@
        }),
        ChildView::initial().id is None,
        ChildView::initial().opens == 0,
        ChildView::initial().status == "idle"@,
{
}

/// The button of a child window opens that window, gives its status, and says whether
/// it can be opened.
pub proof fn law_child_button_opens_its_window(child: ChildView, index: int)
    requires
        0 <= index < CHILD_WINDOWS,
    ensures
        child.control(index) matches ElementView::Button { id, color, label, action } && {
            &&& action == DemoAction::OpenChildWindow(index as usize)
            &&& id == "open-child-window-"@ + digits(index as nat)
            &&& color == 0x7c3aed
            &&& child.id is None ==> label == "Window "@ + seq![('A' as int + index) as char]
                + ": "@ + child.status + " \u{2014} "@ + "tap to open"@
            &&& child.id is Some ==> label == "Window "@ + seq![('A' as int + index) as char]
                + ": "@ + child.status + " \u{2014} "@ + "already open"@
        },
{
    law_child_windows_open_in_row(index);
}

/// The state of a window is shown as three facts, each under its own name.
pub proof fn law_window_state_is_shown(
    maximized: bool,
    fullscreen: bool,
    visibility: WindowVisibility,
)
    ensures
        state_text(maximized, fullscreen, visibility) == "maximized="@ + (if maximized {
            "true"@
        } else {
            "false"@
        }) + ", fullscreen="@ + (if fullscreen {
            "true"@
        } else {
            "false"@
        }) + ", visibility="@ + (if visibility is Visible {
            "Visible"@
        } else {
            "Hidden"@
        }),
{
}

/// A child window shows, from top to bottom, its name, how often the menu was used and
/// the last state that was read, then the buttons to read the state, to click, to check
/// the clipboard and to pick a file.
pub proof fn law_child_window_shows(child: ChildDemoView, menu_actions: nat)
    ensures
        ({
            let shown = child.elements(menu_actions);
            &&& shown.len() == 7
            &&& shown[0] == ElementView::Text("GPUI child window "@ + child.label)
            &&& shown[1] == ElementView::Text("Menu actions: "@ + digits(menu_actions))
            &&& shown[2] == ElementView::Text("GPUI window state: "@ + child.window_state)
            &&& shown[3] matches ElementView::Button { id, label, action, .. } && action
                is ReadWindowState && id == "check-window-state"@ && label
                == "Read GPUI window state"@
            &&& shown[4] matches ElementView::Button { id, label, action, .. } && action is Click
                && id == "second-window-click"@ && label == "Clicks: "@ + digits(
                child.clicks as nat,
            )
            &&& shown[5] matches ElementView::Button { id, label, action, .. } && action
                is CheckClipboard && id == "second-window-clipboard"@ && label == "Clipboard: "@
                + child.clipboard
            &&& shown[6] matches ElementView::Button { id, label, action, .. } && action
                is PickFile && id == "second-window-picker"@ && label == "File picker: "@
                + child.picker
        }),
{
}

/// The main window shows, from top to bottom, the centred greeting, how the capture and
/// the credential check stand and how often the menu was used, then a button for each
/// child window in their order, and last the buttons to check the credential storage and
/// to start a capture or to stop the one that runs.
pub proof fn law_main_window_shows(state: MainView, frames: nat, menu_actions: nat, index: int)
    requires
        state.wf(),
        0 <= index < CHILD_WINDOWS,
    ensures
        ({
            let shown = state.elements(frames, menu_actions);
            &&& shown.len() == 11
            &&& shown[0] == ElementView::Centered("Hello, GPUI on OpenHarmony!"@)
            &&& shown[1] == ElementView::Text("Screen capture demo"@)
            &&& shown[2] == ElementView::Text("Status: "@ + state.status)
            &&& shown[3] == ElementView::Text("Video frames: "@ + digits(frames))
            &&& shown[4] == ElementView::Text("Credential check: "@ + state.credentials)
            &&& shown[5] == ElementView::Text("Menu actions: "@ + digits(menu_actions))
            &&& shown[6 + index] == state.children[index].control(index)
            &&& shown[9] matches ElementView::Button { id, label, action, .. } && action
                is CheckCredentials && id == "check-credentials"@ && label
                == "Check credential storage"@
            &&& shown[10] matches ElementView::Button { id, label, action, .. } && action
                is ToggleCapture && id == "toggle-capture"@ && (state.capturing ==> label
                == "Stop capture"@) && (!state.capturing ==> label == "Start capture"@)
        }),
{
}

/// With good answers the check writes, writes again, reads, deletes and reads again,
/// in this order, and only then has passed.
pub proof fn law_check_goes_through_its_stages(good: Seq<bool>)
    requires
        forall|i: int| 0 <= i < good.len() ==> good[i],
    ensures
        good.len() == 0 ==> stage_reached(CheckStage::Write, good) == Some(CheckStage::Write),
        good.len() == 1 ==> stage_reached(CheckStage::Write, good) == Some(CheckStage::Update),
        good.len() == 2 ==> stage_reached(CheckStage::Write, good) == Some(CheckStage::Read),
        good.len() == 3 ==> stage_reached(CheckStage::Write, good) == Some(CheckStage::Delete),
        good.len() == 4 ==> stage_reached(CheckStage::Write, good) == Some(CheckStage::ReadAgain),
        good.len() >= 5 ==> stage_reached(CheckStage::Write, good) == Some(CheckStage::Passed),
{
    reveal_with_fuel(stage_reached, 6);
}

/// A stage reads or it does not, and the two that write, write different credentials.
pub proof fn law_stages_write_or_read(stage: CheckStage)
    ensures
        reads(stage) <==> stage is Read || stage is ReadAgain,
        stage is Write ==> credential_at(stage) == ("gpui-demo-user"@, "gpui-demo-password"@),
        stage is Update ==> credential_at(stage) == (
            "gpui-demo-updated"@,
            "gpui-demo-updated-password"@,
        ),
{
}

/// The first reading is met by the second credential alone, and the second reading by
/// nothing but no credential.
pub proof fn law_readings_are_strict(found: Option<(Seq<char>, Seq<u8>)>)
    ensures
        expected(CheckStage::Read, found) <==> (found matches Some(credential) && credential.0
            == "gpui-demo-updated"@ && credential.1 == vstd::utf8::encode_utf8(
            "gpui-demo-updated-password"@,
        )),
        expected(CheckStage::ReadAgain, found) <==> found is None,
{
}

/// A click counts one more and changes nothing else.
pub proof fn law_clicks_are_counted(child: ChildDemoView)
    requires
        child.clicks < u32::MAX,
    ensures
        child.clicked().clicks == child.clicks + 1,
        child.clicked() == (ChildDemoView { clicks: child.clicked().clicks, ..child }),
{
}

/// The clipboard check passes exactly where the clipboard gives back the text that was
/// written to it; otherwise the system's answer is shown.
pub proof fn law_clipboard_gives_back_what_was_written(
    child: ChildDemoView,
    text: Option<Seq<char>>,
    answer: Seq<char>,
)
    ensures
        ({
            let next = child.after_clipboard(text, answer);
            &&& text == Some("gpui-ohos second window"@) ==> next.clipboard
                == "round trip passed"@
            &&& text != Some("gpui-ohos second window"@) ==> next.clipboard == "unexpected: "@
                + answer
            &&& next == (ChildDemoView { clipboard: next.clipboard, ..child })
        }),
{
}

/// A capture that runs ends with the button, and the next press of the button asks for
/// consent; it runs again only where the system then starts one. The button says what it
/// will do.
pub proof fn law_capture_button_starts_and_stops(state: MainView, reason: Seq<char>)
    requires
        state.wf(),
        state.capturing,
    ensures
        ({
            let stopped = state.after_toggle();
            let asked = stopped.after_toggle();
            &&& !stopped.capturing && stopped.status == "stopped"@
            &&& !asked.capturing && asked.status == "requesting consent"@
            &&& asked.after_capture(Ok(())).capturing
            &&& asked.after_capture(Ok(())).status == "capturing"@
            &&& !asked.after_capture(Err(reason)).capturing
            &&& asked.after_capture(Err(reason)).status == "error: "@ + reason
            &&& asked.after_capture(Ok(())) == (MainView { status: "capturing"@, ..state })
        }),
{
}

/// The outcome of the credential check is shown with its reason, and nothing else
/// changes.
pub proof fn law_check_outcome_is_shown(state: MainView, reason: Seq<char>)
    ensures
        state.after_check(Ok(())) == (MainView {
            credentials: "write/update/read/delete passed"@,
            ..state
        }),
        state.after_check(Err(reason)) == (MainView { credentials: "error: "@ + reason, ..state }),
{
}

/// The first three frames are logged, and after them exactly every sixtieth.
pub proof fn law_every_sixtieth_frame_is_logged(count: int, n: int)
    requires
        count >= 1,
        n >= 1,
    ensures
        count == 1 || count == 2 || count == 3 ==> is_logged(count),
        is_logged(60 * n),
        60 * n < count < 60 * (n + 1) ==> !is_logged(count),
        3 < count < 60 ==> !is_logged(count),
{
    assert((60 * n) % 60 == 0);
    if 60 * n < count < 60 * (n + 1) {
        assert(count % 60 == count - 60 * n);
    }
}

} // verus!
