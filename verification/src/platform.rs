//! The application's connection to the system: its windows, and what happens when
//! the system has an event.

use crate::text::joined;
use crate::window::appearance_for_color_mode;
use crate::window::appearance_of;
use crate::window::ColorMode;
use crate::window::Event;
use crate::window::WindowAppearance;
use vstd::prelude::*;
use vstd::string::*;

verus! {

/// What the platform cannot do, and why.
#[derive(Debug, PartialEq, Eq)]
pub enum PlatformError {
    /// There is no GPU to draw with, for this reason.
    GpuContext(String),
    /// There is no connection to the system.
    AppNotSet,
    /// The system does not end the application.
    TerminationRejected,
    UrlSchemeRegistration,
    AppPath,
    AuxiliaryExecutablePath,
}

impl PlatformError {
    /// The text of the error.
    pub open spec fn text(self) -> Seq<char> {
        match self {
            PlatformError::GpuContext(reason) => "Failed to create GPU context: "@ + reason@
                + ". Note: ZED_DEVICE_ID environment variable is optional. If you need to specify a GPU device, set ZED_DEVICE_ID to a 4-digit hex PCI ID (e.g., '0x1234')."@,
            PlatformError::AppNotSet => "OpenHarmonyApp not set"@,
            PlatformError::TerminationRejected =>
                "OpenHarmony app-control plugin rejected termination"@,
            PlatformError::UrlSchemeRegistration =>
                "URL scheme registration not supported on OHOS"@,
            PlatformError::AppPath => "app_path not available on OHOS"@,
            PlatformError::AuxiliaryExecutablePath =>
                "path_for_auxiliary_executable not available on OHOS"@,
        }
    }

    /// The text of the error.
    pub fn message(&self) -> (r: String)
        ensures
            r@ == self.text(),
    {
        match self {
            PlatformError::GpuContext(reason) => {
                let mut text = joined("Failed to create GPU context: ", reason.as_str());
                text.append(
                    ". Note: ZED_DEVICE_ID environment variable is optional. If you need to specify a GPU device, set ZED_DEVICE_ID to a 4-digit hex PCI ID (e.g., '0x1234').",
                );
                text
            },
            PlatformError::AppNotSet => "OpenHarmonyApp not set".to_owned(),
            PlatformError::TerminationRejected =>
                "OpenHarmony app-control plugin rejected termination".to_owned(),
            PlatformError::UrlSchemeRegistration =>
                "URL scheme registration not supported on OHOS".to_owned(),
            PlatformError::AppPath => "app_path not available on OHOS".to_owned(),
            PlatformError::AuxiliaryExecutablePath =>
                "path_for_auxiliary_executable not available on OHOS".to_owned(),
        }
    }
}

/// One step of the work that an event makes for the platform.
#[derive(Clone, Copy, Debug, PartialEq, Eq, Structural)]
pub enum PlatformStep {
    /// Hands the addresses in the event to whoever wants them.
    OpenUrls,
    /// Takes a new handle to wake the main thread with.
    RefreshWaker,
    RunForegroundTasks,
    RunDueTimers,
    /// Tells the application that it may open its windows.
    FinishLaunching,
    /// Hands the event to every window that is still there.
    RouteToWindows,
}

/// The steps for an event.
pub open spec fn platform_plan(connected: bool, launching: bool, event: Event) -> Seq<
    PlatformStep,
> {
    let urls = if opened_urls_of(event).len() > 0 {
        seq![PlatformStep::OpenUrls]
    } else {
        seq![]
    };
    let waker = if event is SurfaceCreate && connected {
        seq![PlatformStep::RefreshWaker]
    } else {
        seq![]
    };
    let launch = if event is SurfaceCreate && launching {
        seq![PlatformStep::FinishLaunching]
    } else {
        seq![]
    };
    urls + waker + seq![PlatformStep::RunForegroundTasks, PlatformStep::RunDueTimers] + launch
        + seq![PlatformStep::RouteToWindows]
}

/// An address, where there is one.
pub open spec fn address(uri: Seq<char>) -> Seq<Seq<char>> {
    if uri.len() > 0 {
        seq![uri]
    } else {
        seq![]
    }
}

/// The addresses that an event asks to open.
pub open spec fn opened_urls_of(event: Event) -> Seq<Seq<char>> {
    match event {
        Event::NewWant { uri } => address(uri@),
        _ => seq![],
    }
}

/// What a list of addresses holds.
pub open spec fn url_views(urls: Seq<String>) -> Seq<Seq<char>> {
    urls.map_values(|url: String| url@)
}

fn addresses(uri: &str) -> (r: Vec<String>)
    ensures
        url_views(r@) == address(uri@),
{
    let mut urls: Vec<String> = Vec::new();
    if !uri.is_empty() {
        urls.push(uri.to_owned());
    }
    assert(url_views(urls@) =~= address(uri@));
    urls
}

/// The addresses that an event asks to open.
pub fn opened_urls(event: &Event) -> (r: Vec<String>)
    ensures
        url_views(r@) == opened_urls_of(*event),
{
    match event {
        Event::NewWant { uri } => addresses(uri.as_str()),
        _ => {
            let none: Vec<String> = Vec::new();
            assert(url_views(none@) =~= opened_urls_of(*event));
            none
        },
    }
}

/// The addresses that the application was started with.
pub fn initial_urls(uri: Option<String>) -> (r: Vec<String>)
    ensures
        url_views(r@) == match uri {
            Some(uri) => address(uri@),
            None => seq![],
        },
{
    match uri {
        Some(uri) => addresses(uri.as_str()),
        None => {
            let none: Vec<String> = Vec::new();
            assert(url_views(none@) =~= seq![]);
            none
        },
    }
}

/// The windows that are still there, in their order.
pub open spec fn live<W>(windows: Seq<W>, alive: Seq<bool>) -> Seq<W>
    decreases windows.len(),
{
    if windows.len() == 0 {
        seq![]
    } else {
        let before = live(windows.drop_last(), alive.drop_last());
        if alive.last() {
            before.push(windows.last())
        } else {
            before
        }
    }
}

/// The state of the platform.
pub struct PlatformView<W> {
    /// Whether there is a connection to the system.
    pub connected: bool,
    /// Whether the application still waits to be told that it may open its
    /// windows.
    pub launching: bool,
    pub windows: Seq<W>,
}

impl<W> PlatformView<W> {
    /// A platform that was just made.
    pub open spec fn initial() -> PlatformView<W> {
        PlatformView { connected: true, launching: false, windows: Seq::empty() }
    }

    /// The platform after it started to take events.
    pub open spec fn after_run(self) -> PlatformView<W> {
        PlatformView { launching: self.launching || self.connected, ..self }
    }

    /// The platform after an event.
    pub open spec fn after_event(self, event: Event) -> PlatformView<W> {
        PlatformView { launching: self.launching && !(event is SurfaceCreate), ..self }
    }

    /// The platform after a window was opened.
    pub open spec fn after_opening(self, window: W) -> PlatformView<W> {
        PlatformView { windows: self.windows.push(window), ..self }
    }

    /// The platform without the windows that are gone.
    pub open spec fn after_closing(self, alive: Seq<bool>) -> PlatformView<W> {
        PlatformView { windows: live(self.windows, alive), ..self }
    }

    /// Whether a window can be opened.
    pub open spec fn can_open(self) -> bool {
        self.connected
    }
}

/// The platform. `W` is what a window is found by.
#[derive(Debug)]
#[verifier::reject_recursive_types(W)]
pub struct OhosPlatform<W> {
    connected: bool,
    launching: bool,
    windows: Vec<W>,
}

impl<W> View for OhosPlatform<W> {
    type V = PlatformView<W>;

    closed spec fn view(&self) -> PlatformView<W> {
        PlatformView {
            connected: self.connected,
            launching: self.launching,
            windows: self.windows@,
        }
    }
}

impl<W> OhosPlatform<W> {
    /// Makes a platform that is connected to the system, where there is a GPU to
    /// draw with.
    pub fn new(gpu_context: Result<(), String>) -> (r: Result<OhosPlatform<W>, PlatformError>)
        ensures
            r is Ok <==> gpu_context is Ok,
            r is Ok ==> r->Ok_0@ == (PlatformView::<W> {
                connected: true,
                launching: false,
                windows: Seq::empty(),
            }),
            r is Ok ==> r->Ok_0@ == PlatformView::<W>::initial(),
            r is Err ==> r->Err_0 == PlatformError::GpuContext(gpu_context->Err_0),
    {
        if let Err(reason) = gpu_context {
            return Err(PlatformError::GpuContext(reason));
        }
        let mut platform = OhosPlatform {
            connected: false,
            launching: false,
            windows: Vec::new(),
        };
        platform.set_app();
        Ok(platform)
    }

    /// Takes a connection to the system.
    pub fn set_app(&mut self)
        ensures
            final(self)@ == (PlatformView { connected: true, ..old(self)@ }),
    {
        self.connected = true;
    }

    /// Starts to take events, and tells whether that is possible.
    pub fn run(&mut self) -> (r: bool)
        ensures
            r == old(self)@.connected,
            final(self)@ == old(self)@.after_run(),
            final(self)@ == (PlatformView {
                launching: old(self)@.launching || old(self)@.connected,
                ..old(self)@
            }),
    {
        if self.connected {
            self.launching = true;
        }
        self.connected
    }

    /// The steps for an event. The application is told once that it may open its
    /// windows: when the first surface is there.
    pub fn handle_ohos_event(&mut self, event: &Event) -> (r: Vec<PlatformStep>)
        ensures
            r@ == platform_plan(old(self)@.connected, old(self)@.launching, *event),
            final(self)@ == (PlatformView {
                launching: old(self)@.launching && !(event is SurfaceCreate),
                ..old(self)@
            }),
            final(self)@ == old(self)@.after_event(*event),
    {
        let mut steps: Vec<PlatformStep> = Vec::new();
        let surface = matches!(event, Event::SurfaceCreate);
        let urls = opened_urls(event);
        assert(urls@.len() == url_views(urls@).len());
        if urls.len() > 0 {
            steps.push(PlatformStep::OpenUrls);
        }
        if surface && self.connected {
            steps.push(PlatformStep::RefreshWaker);
        }
        steps.push(PlatformStep::RunForegroundTasks);
        steps.push(PlatformStep::RunDueTimers);
        if surface && self.launching {
            self.launching = false;
            steps.push(PlatformStep::FinishLaunching);
        }
        steps.push(PlatformStep::RouteToWindows);
        assert(steps@ =~= platform_plan(old(self)@.connected, old(self)@.launching, *event));
        steps
    }

    /// Forgets the windows that are gone. What stays gets the event.
    pub fn retain_live(&mut self, alive: &Vec<bool>)
        requires
            alive@.len() == old(self)@.windows.len(),
        ensures
            final(self)@ == (PlatformView {
                windows: live(old(self)@.windows, alive@),
                ..old(self)@
            }),
            final(self)@ == old(self)@.after_closing(alive@),
    {
        let ghost all = self.windows@;
        let mut at: usize = 0;
        let mut kept: usize = 0;
        assert(self.windows@ =~= live(all.take(0), alive@.take(0)) + all.skip(0));
        while at < alive.len()
            invariant
                alive@.len() == all.len(),
                all == old(self)@.windows,
                self.connected == old(self)@.connected,
                self.launching == old(self)@.launching,
                kept <= at <= all.len(),
                kept == live(all.take(at as int), alive@.take(at as int)).len(),
                self.windows@ == live(all.take(at as int), alive@.take(at as int)) + all.skip(
                    at as int,
                ),
            decreases all.len() - at,
        {
            let ghost before = live(all.take(at as int), alive@.take(at as int));
            proof {
                assert(all.take(at + 1).drop_last() =~= all.take(at as int));
                assert(alive@.take(at + 1).drop_last() =~= alive@.take(at as int));
            }
            if alive[at] {
                kept = kept + 1;
                assert(self.windows@ =~= before.push(all[at as int]) + all.skip(at + 1));
            } else {
                let _gone = self.windows.remove(kept);
                assert(self.windows@ =~= before + all.skip(at + 1));
            }
            at = at + 1;
        }
        proof {
            assert(all.take(at as int) =~= all);
            assert(alive@.take(at as int) =~= alive@);
            assert(self.windows@ =~= live(all, alive@));
        }
    }

    /// Tells whether a window can be opened.
    pub fn open_window(&self) -> (r: Result<(), PlatformError>)
        ensures
            r is Ok <==> self@.connected,
            r is Ok <==> self@.can_open(),
            r is Err ==> r->Err_0 is AppNotSet,
    {
        if self.connected {
            Ok(())
        } else {
            Err(PlatformError::AppNotSet)
        }
    }

    /// Takes an opened window, which gets every event from now on.
    pub fn add_window(&mut self, window: W)
        ensures
            final(self)@ == (PlatformView {
                windows: old(self)@.windows.push(window),
                ..old(self)@
            }),
            final(self)@ == old(self)@.after_opening(window),
    {
        self.windows.push(window);
    }

    /// The windows, in the order in which they were opened.
    pub fn windows(&self) -> (r: &Vec<W>)
        ensures
            r@ == self@.windows,
    {
        &self.windows
    }

    /// Whether there is a connection to the system, and with it a display.
    pub fn is_connected(&self) -> (r: bool)
        ensures
            r == self@.connected,
    {
        self.connected
    }
}

/// Makes the platform for the system. There is no platform without a GPU, and
/// none without a screen, so that asking for one changes nothing.
pub fn current_platform<W>(gpu_context: Result<(), String>, _headless: bool) -> (r: OhosPlatform<W>)
    requires
        gpu_context is Ok,
    ensures
        r@ == (PlatformView::<W> { connected: true, launching: false, windows: Seq::empty() }),
{
    match OhosPlatform::new(gpu_context) {
        Ok(platform) => platform,
        Err(_) => vstd::pervasive::unreached(),
    }
}

/// The look of new windows.
pub open spec fn look_of(color_mode: Option<ColorMode>) -> WindowAppearance {
    match color_mode {
        Some(mode) => appearance_of(mode),
        None => WindowAppearance::Light,
    }
}

/// The look of new windows: `color_mode` is the colour mode where there is a
/// connection to the system.
pub fn window_appearance(color_mode: Option<ColorMode>) -> (r: WindowAppearance)
    ensures
        r == look_of(color_mode),
        r == match color_mode {
            Some(mode) => appearance_of(mode),
            None => WindowAppearance::Light,
        },
{
    match color_mode {
        Some(mode) => appearance_for_color_mode(mode),
        None => WindowAppearance::Light,
    }
}

/// Takes the answer to the request to end the application.
pub fn termination(accepted: bool) -> (r: Result<(), PlatformError>)
    ensures
        r is Ok <==> accepted,
        r is Err ==> r->Err_0 is TerminationRejected,
{
    if accepted {
        Ok(())
    } else {
        Err(PlatformError::TerminationRejected)
    }
}

/// The name of the compositor.
pub fn compositor_name() -> (r: &'static str)
    ensures
        r@ == "OHOS"@,
{
    "OHOS"
}

/// How often the application is told that it may open its windows while a run of
/// events is handled.
pub open spec fn launches(connected: bool, launching: bool, events: Seq<Event>) -> nat
    decreases events.len(),
{
    if events.len() == 0 {
        0
    } else {
        let told: nat = if platform_plan(connected, launching, events[0]).contains(
            PlatformStep::FinishLaunching,
        ) {
            1
        } else {
            0
        };
        told + launches(connected, launching && !(events[0] is SurfaceCreate), events.skip(1))
    }
}

proof fn lemma_plan_launches(connected: bool, launching: bool, event: Event)
    ensures
        platform_plan(connected, launching, event).contains(PlatformStep::FinishLaunching)
            <==> launching && event is SurfaceCreate,
{
    let plan = platform_plan(connected, launching, event);
    if launching && event is SurfaceCreate {
        assert(plan[plan.len() - 2] is FinishLaunching);
    }
}

/// The application is told that it may open its windows exactly once: with the
/// first surface, and never without one.
pub proof fn law_launched_once_with_first_surface(connected: bool, events: Seq<Event>)
    ensures
        launches(connected, true, events) == if exists|i: int|
            0 <= i < events.len() && (#[trigger] events[i]) is SurfaceCreate {
            1nat
        } else {
            0nat
        },
    decreases events.len(),
{
    if events.len() > 0 {
        lemma_plan_launches(connected, true, events[0]);
        if events[0] is SurfaceCreate {
            lemma_no_second_launch(connected, events.skip(1));
        } else {
            law_launched_once_with_first_surface(connected, events.skip(1));
            if exists|i: int| 0 <= i < events.len() && (#[trigger] events[i]) is SurfaceCreate {
                let i = choose|i: int|
                    0 <= i < events.len() && (#[trigger] events[i]) is SurfaceCreate;
                assert(events.skip(1)[i - 1] == events[i]);
            }
            if exists|i: int|
                0 <= i < events.skip(1).len() && (#[trigger] events.skip(1)[i])
                    is SurfaceCreate {
                let i = choose|i: int|
                    0 <= i < events.skip(1).len() && (#[trigger] events.skip(1)[i])
                        is SurfaceCreate;
                assert(events[i + 1] == events.skip(1)[i]);
            }
        }
    }
}

proof fn lemma_no_second_launch(connected: bool, events: Seq<Event>)
    ensures
        launches(connected, false, events) == 0,
    decreases events.len(),
{
    if events.len() > 0 {
        lemma_plan_launches(connected, false, events[0]);
        lemma_no_second_launch(connected, events.skip(1));
    }
}

/// Whatever the event, the windows get it last, after the application was told
/// that it may open them and after the waiting work.
pub proof fn law_windows_come_last(connected: bool, launching: bool, event: Event)
    ensures
        ({
            let plan = platform_plan(connected, launching, event);
            &&& plan.len() >= 3
            &&& plan.last() is RouteToWindows
            &&& forall|i: int|
                0 <= i < plan.len() - 1 ==> !(#[trigger] plan[i] is RouteToWindows)
            &&& plan.contains(PlatformStep::RunForegroundTasks)
            &&& plan.contains(PlatformStep::RunDueTimers)
        }),
{
    let plan = platform_plan(connected, launching, event);
    let start: int = (if opened_urls_of(event).len() > 0 {
        1int
    } else {
        0int
    }) + (if event is SurfaceCreate && connected {
        1int
    } else {
        0int
    });
    assert(plan[start] is RunForegroundTasks);
    assert(plan[start + 1] is RunDueTimers);
}

/// Whether a window is one of those that are still there.
pub open spec fn is_live<W>(windows: Seq<W>, alive: Seq<bool>, window: W) -> bool {
    exists|i: int| 0 <= i < windows.len() && alive[i] && #[trigger] windows[i] == window
}

/// Of the windows, those that are still there stay, and only those.
pub proof fn law_live_windows_stay<W>(windows: Seq<W>, alive: Seq<bool>)
    requires
        alive.len() == windows.len(),
    ensures
        forall|i: int|
            0 <= i < windows.len() && alive[i] ==> live(windows, alive).contains(
                #[trigger] windows[i],
            ),
        forall|k: int|
            0 <= k < live(windows, alive).len() ==> is_live(
                windows,
                alive,
                #[trigger] live(windows, alive)[k],
            ),
        live(windows, alive).len() <= windows.len(),
    decreases windows.len(),
{
    if windows.len() > 0 {
        let w = windows.drop_last();
        let a = alive.drop_last();
        law_live_windows_stay(w, a);
        let before = live(w, a);
        let all = live(windows, alive);
        assert forall|i: int| 0 <= i < windows.len() && alive[i] implies all.contains(
            #[trigger] windows[i],
        ) by {
            if i < windows.len() - 1 {
                assert(w[i] == windows[i]);
                assert(before.contains(w[i]));
                let k = choose|k: int| 0 <= k < before.len() && before[k] == w[i];
                assert(all[k] == before[k]);
            } else {
                assert(all[before.len() as int] == windows[i]);
            }
        }
        assert forall|k: int| 0 <= k < all.len() implies is_live(
            windows,
            alive,
            #[trigger] all[k],
        ) by {
            if k < before.len() {
                assert(all[k] == before[k]);
                assert(is_live(w, a, before[k]));
                let i = choose|i: int| 0 <= i < w.len() && a[i] && #[trigger] w[i] == before[k];
                assert(windows[i] == all[k] && alive[i]);
            } else {
                assert(windows[windows.len() - 1] == all[k]);
                assert(alive[windows.len() - 1]);
            }
        }
    }
}

/// The turn of a step among the steps for an event.
pub open spec fn turn(step: PlatformStep) -> int {
    match step {
        PlatformStep::OpenUrls => 0,
        PlatformStep::RefreshWaker => 1,
        PlatformStep::RunForegroundTasks => 2,
        PlatformStep::RunDueTimers => 3,
        PlatformStep::FinishLaunching => 4,
        PlatformStep::RouteToWindows => 5,
    }
}

/// The steps for an event are taken in their turn, each at most once. Addresses are
/// opened where the application is asked to open one, and the handle to wake the main
/// thread is renewed with a new surface, where there is a connection to the system.
pub proof fn law_steps_are_taken_in_turn(connected: bool, launching: bool, event: Event)
    ensures
        ({
            let plan = platform_plan(connected, launching, event);
            &&& forall|i: int, j: int|
                0 <= i < j < plan.len() ==> turn(#[trigger] plan[i]) < turn(#[trigger] plan[j])
            &&& plan.contains(PlatformStep::OpenUrls) <==> (event matches Event::NewWant { uri }
                && uri@.len() > 0)
            &&& plan.contains(PlatformStep::RefreshWaker) <==> event is SurfaceCreate && connected
            &&& plan.contains(PlatformStep::RunForegroundTasks)
            &&& plan.contains(PlatformStep::RunDueTimers)
            &&& plan.contains(PlatformStep::FinishLaunching) <==> event is SurfaceCreate
                && launching
            &&& plan.contains(PlatformStep::RouteToWindows)
        }),
{
    let plan = platform_plan(connected, launching, event);
    law_windows_come_last(connected, launching, event);
    lemma_plan_launches(connected, launching, event);
    assert(plan.last() == PlatformStep::RouteToWindows);
    if opened_urls_of(event).len() > 0 {
        assert(plan[0] == PlatformStep::OpenUrls);
    }
    if event is SurfaceCreate && connected {
        assert(plan[0] == PlatformStep::RefreshWaker);
    }
}

/// The address in a request is opened as it is. A request without one opens nothing,
/// and neither does any other event.
pub proof fn law_requested_address_is_opened(event: Event)
    ensures
        event matches Event::NewWant { uri } && uri@.len() > 0 ==> opened_urls_of(event)
            == seq![event->NewWant_uri@],
        event matches Event::NewWant { uri } && uri@.len() == 0 ==> opened_urls_of(event).len()
            == 0,
        !(event is NewWant) ==> opened_urls_of(event).len() == 0,
{
}

/// Whether a window stays depends on that window alone, and those that stay keep
/// their order.
pub proof fn law_live_windows_keep_order<W>(
    front: Seq<W>,
    front_alive: Seq<bool>,
    window: W,
    alive: bool,
    back: Seq<W>,
    back_alive: Seq<bool>,
)
    requires
        front.len() == front_alive.len(),
        back.len() == back_alive.len(),
    ensures
        live(front + seq![window] + back, front_alive + seq![alive] + back_alive) == live(
            front,
            front_alive,
        ) + (if alive {
            seq![window]
        } else {
            seq![]
        }) + live(back, back_alive),
    decreases back.len(),
{
    let windows = front + seq![window] + back;
    let flags = front_alive + seq![alive] + back_alive;
    if back.len() == 0 {
        assert(windows.drop_last() =~= front);
        assert(flags.drop_last() =~= front_alive);
    } else {
        assert(windows.drop_last() =~= front + seq![window] + back.drop_last());
        assert(flags.drop_last() =~= front_alive + seq![alive] + back_alive.drop_last());
        law_live_windows_keep_order(
            front,
            front_alive,
            window,
            alive,
            back.drop_last(),
            back_alive.drop_last(),
        );
    }
}

/// A platform that was just made is connected and can open windows. Once it runs, the
/// application waits to be told that it may open its windows until a surface comes, and
/// no other event ends the waiting. A platform without a connection waits for nothing.
pub proof fn law_application_waits_for_surface<W>(state: PlatformView<W>, event: Event)
    ensures
        PlatformView::<W>::initial().can_open(),
        PlatformView::<W>::initial().windows.len() == 0,
        !PlatformView::<W>::initial().launching,
        state.can_open() ==> state.after_run().launching,
        !state.can_open() ==> state.after_run() == state,
        event is SurfaceCreate ==> !state.after_run().after_event(event).launching,
        !(event is SurfaceCreate) ==> state.after_event(event) == state,
        state.after_event(event).connected == state.connected,
        state.after_event(event).windows == state.windows,
        state.after_run().windows == state.windows,
        state.after_run().connected == state.connected,
{
}

/// An opened window comes after those that are open already, and it is there until it is
/// gone; the others stay what they are.
pub proof fn law_opened_window_comes_last<W>(
    state: PlatformView<W>,
    alive: Seq<bool>,
    window: W,
    stays: bool,
)
    requires
        alive.len() == state.windows.len(),
    ensures
        ({
            let open = state.after_opening(window);
            &&& open.windows.last() == window
            &&& open.windows.drop_last() == state.windows
            &&& open.connected == state.connected
            &&& open.launching == state.launching
            &&& stays ==> open.after_closing(alive.push(true)) == state.after_closing(
                alive,
            ).after_opening(window)
            &&& !stays ==> open.after_closing(alive.push(false)) == state.after_closing(alive)
        }),
{
    assert(state.windows.push(window).drop_last() =~= state.windows);
    assert(alive.push(true).drop_last() =~= alive);
    assert(alive.push(false).drop_last() =~= alive);
}

/// New windows look dark exactly where the user chose dark.
pub proof fn law_new_windows_look_as_chosen(color_mode: Option<ColorMode>)
    ensures
        look_of(color_mode) == WindowAppearance::Dark <==> color_mode == Some(ColorMode::Dark),
        look_of(color_mode) == WindowAppearance::Light <==> color_mode != Some(ColorMode::Dark),
{
}

/// The text of an error says what cannot be done and repeats the reason, where there is
/// one.
pub proof fn law_platform_error_texts(reason: String)
    ensures
        PlatformError::GpuContext(reason).text().take((30 + reason@.len()) as int)
            == "Failed to create GPU context: "@ + reason@,
        PlatformError::AppNotSet.text() == "OpenHarmonyApp not set"@,
        PlatformError::TerminationRejected.text()
            == "OpenHarmony app-control plugin rejected termination"@,
        PlatformError::UrlSchemeRegistration.text()
            == "URL scheme registration not supported on OHOS"@,
        PlatformError::AppPath.text() == "app_path not available on OHOS"@,
        PlatformError::AuxiliaryExecutablePath.text()
            == "path_for_auxiliary_executable not available on OHOS"@,
{
    reveal_strlit("Failed to create GPU context: ");
    assert(PlatformError::GpuContext(reason).text().take((30 + reason@.len()) as int)
        =~= "Failed to create GPU context: "@ + reason@);
}

} // verus!
