use gpui_ohos::demo::{
    child_label, child_place, credential_key, first_source, frame_is_logged, permission_granted,
    CaptureDemo, CheckStage, ChildWindowDemo, ChildWindowState, DemoAction, Element, WindowPlace,
};
use gpui_ohos::window::WindowVisibility;

fn text(text: &str) -> Element {
    Element::Text(text.to_owned())
}

fn button(id: &str, color: u32, label: &str, action: DemoAction) -> Element {
    Element::Button { id: id.to_owned(), color, label: label.to_owned(), action }
}

#[test]
fn new_child_window_is_idle() {
    let state = ChildWindowState::new();
    assert_eq!((state.id, state.status.as_str(), state.opens), (None, "idle", 0));
}

#[test]
fn child_labels_and_places() {
    assert_eq!([child_label(0), child_label(1), child_label(2)], ["A", "B", "C"]);
    assert_eq!(child_place(0), WindowPlace { left: 20, top: 60, width: 320, height: 360 });
    assert_eq!(child_place(2).left, 700);
    for index in 0..2 {
        let place = child_place(index);
        assert!(place.left + place.width <= child_place(index + 1).left);
    }
}

#[test]
fn main_window_shows_its_parts() {
    let demo = CaptureDemo::new();
    assert_eq!(
        demo.render(12, 3),
        vec![
            Element::Centered("Hello, GPUI on OpenHarmony!".to_owned()),
            text("Screen capture demo"),
            text("Status: idle"),
            text("Video frames: 12"),
            text("Credential check: idle"),
            text("Menu actions: 3"),
            button(
                "open-child-window-0",
                0x7c3aed,
                "Window A: idle — tap to open",
                DemoAction::OpenChildWindow(0)
            ),
            button(
                "open-child-window-1",
                0x7c3aed,
                "Window B: idle — tap to open",
                DemoAction::OpenChildWindow(1)
            ),
            button(
                "open-child-window-2",
                0x7c3aed,
                "Window C: idle — tap to open",
                DemoAction::OpenChildWindow(2)
            ),
            button(
                "check-credentials",
                0x0d9488,
                "Check credential storage",
                DemoAction::CheckCredentials
            ),
            button("toggle-capture", 0x2563eb, "Start capture", DemoAction::ToggleCapture),
        ]
    );
}

#[test]
fn child_window_shows_its_parts() {
    let mut demo = ChildWindowDemo::new(1);
    demo.click();
    demo.read_window_state(true, false, WindowVisibility::Hidden);
    assert_eq!(
        demo.render(0),
        vec![
            text("GPUI child window B"),
            text("Menu actions: 0"),
            text("GPUI window state: maximized=true, fullscreen=false, visibility=Hidden"),
            button(
                "check-window-state",
                0x64748b,
                "Read GPUI window state",
                DemoAction::ReadWindowState
            ),
            button("second-window-click", 0x2563eb, "Clicks: 1", DemoAction::Click),
            button(
                "second-window-clipboard",
                0x0d9488,
                "Clipboard: idle",
                DemoAction::CheckClipboard
            ),
            button("second-window-picker", 0x7c3aed, "File picker: idle", DemoAction::PickFile),
        ]
    );
    demo.read_window_state(false, true, WindowVisibility::Visible);
    assert_eq!(demo.window_state, "maximized=false, fullscreen=true, visibility=Visible");
}

#[test]
fn child_windows_open_and_close_one_by_one() {
    let mut demo = CaptureDemo::new();
    assert_eq!(demo.open_child_window(1), Some(child_place(1)));
    assert!(demo.can_count_opening(1));
    demo.child_window_opened(1, Ok(77));
    assert_eq!(demo.open_child_window(1), None);
    demo.child_window_opened(2, Err("no room".to_owned()));
    assert_eq!(demo.open_child_window(2), Some(child_place(2)));
    let labels = |demo: &CaptureDemo| -> Vec<String> {
        demo.render(0, 0)
            .into_iter()
            .filter_map(|element| match element {
                Element::Button { label, action: DemoAction::OpenChildWindow(_), .. } => Some(label),
                _ => None,
            })
            .collect()
    };
    assert_eq!(
        labels(&demo),
        vec![
            "Window A: idle — tap to open",
            "Window B: open (launch #1) — already open",
            "Window C: error: no room — tap to open",
        ]
    );
    assert!(!demo.window_closed(78));
    assert!(demo.window_closed(77));
    assert!(!demo.window_closed(77));
    assert_eq!(
        labels(&demo),
        vec![
            "Window A: idle — tap to open",
            "Window B: closed — tap to open",
            "Window C: error: no room — tap to open",
        ]
    );
    demo.child_window_opened(1, Ok(79));
    assert_eq!(labels(&demo)[1], "Window B: open (launch #2) — already open");
}

#[test]
fn clipboard_check() {
    let mut demo = ChildWindowDemo::new(0);
    demo.clipboard_requested();
    assert_eq!(demo.clipboard, "requesting permission");
    assert!(permission_granted(&vec![]));
    assert!(permission_granted(&vec![0, 0]));
    assert!(!permission_granted(&vec![0, -1]));
    demo.clipboard_denied("Err(x)");
    assert_eq!(demo.clipboard, "permission unavailable: Err(x)");
    let value = demo.clipboard_granted();
    assert_eq!(value, "gpui-ohos second window");
    assert_eq!(demo.clipboard, "reading");
    demo.clipboard_read(Some(value.to_owned()), "Ok");
    assert_eq!(demo.clipboard, "round trip passed");
    demo.clipboard_read(Some("else".to_owned()), "Ok(Some(..))");
    assert_eq!(demo.clipboard, "unexpected: Ok(Some(..))");
    demo.clipboard_read(None, "Ok(None)");
    assert_eq!(demo.clipboard, "unexpected: Ok(None)");
}

#[test]
fn file_picker() {
    let mut demo = ChildWindowDemo::new(0);
    demo.picker_opened();
    assert_eq!(demo.picker, "opening");
    demo.picker_closed("Ok(None)");
    assert_eq!(demo.picker, "Ok(None)");
}

#[test]
fn capture_toggles() {
    let mut demo = CaptureDemo::new();
    assert!(demo.toggle_capture());
    assert_eq!(demo.render(0, 0)[2], text("Status: requesting consent"));
    assert!(!demo.capture_answered(Err("No capture display".to_owned())));
    assert_eq!(demo.render(0, 0)[2], text("Status: error: No capture display"));
    assert!(demo.toggle_capture());
    assert!(demo.capture_answered(Ok(())));
    assert!(demo.is_capturing());
    assert_eq!(demo.render(0, 0)[2], text("Status: capturing"));
    assert_eq!(
        demo.render(0, 0)[10],
        button("toggle-capture", 0x2563eb, "Stop capture", DemoAction::ToggleCapture)
    );
    assert!(!demo.toggle_capture());
    assert!(!demo.is_capturing());
    assert_eq!(demo.render(0, 0)[2], text("Status: stopped"));
}

#[test]
fn credential_check_passes() {
    assert_eq!(credential_key(), "gpui-ohos-example://credential-smoke");
    let stage = CheckStage::Write;
    assert_eq!(stage.credential(), ("gpui-demo-user", b"gpui-demo-password".to_vec()));
    let stage = stage.done(Ok(())).unwrap();
    let (user, password) = stage.credential();
    assert_eq!((user, password.as_slice()), ("gpui-demo-updated", &b"gpui-demo-updated-password"[..]));
    let stage = stage.done(Ok(())).unwrap();
    assert_eq!(stage, CheckStage::Read);
    let stage = stage.found(Ok(Some((user.to_owned(), password)))).unwrap();
    let stage = stage.done(Ok(())).unwrap();
    assert_eq!(stage, CheckStage::ReadAgain);
    assert_eq!(stage.found(Ok(None)), Ok(CheckStage::Passed));
    let mut demo = CaptureDemo::new();
    demo.credentials_started();
    assert_eq!(demo.render(0, 0)[4], text("Credential check: writing"));
    demo.credentials_checked(Ok(()));
    assert_eq!(
        demo.render(0, 0)[4],
        text("Credential check: write/update/read/delete passed")
    );
}

#[test]
fn credential_check_fails() {
    assert_eq!(CheckStage::Write.done(Err("e".to_owned())), Err("e".to_owned()));
    assert_eq!(CheckStage::Read.found(Err("e".to_owned())), Err("e".to_owned()));
    for found in [
        None,
        Some(("gpui-demo-updated".to_owned(), b"other".to_vec())),
        Some(("other".to_owned(), b"gpui-demo-updated-password".to_vec())),
    ] {
        assert_eq!(
            CheckStage::Read.found(Ok(found)),
            Err("stored credential differs".to_owned())
        );
    }
    assert_eq!(
        CheckStage::ReadAgain.found(Ok(Some(("u".to_owned(), vec![])))),
        Err("credential was not deleted".to_owned())
    );
    let mut demo = CaptureDemo::new();
    demo.credentials_checked(Err("no store".to_owned()));
    assert_eq!(demo.render(0, 0)[4], text("Credential check: error: no store"));
}

#[test]
fn store_that_keeps_what_it_is_told_passes() {
    for before in [None, Some(("someone".to_owned(), b"old".to_vec()))] {
        let mut kept = before;
        let mut stage = CheckStage::Write;
        let mut answers = 0;
        while stage != CheckStage::Passed {
            stage = match stage {
                CheckStage::Write | CheckStage::Update => {
                    let (user, password) = stage.credential();
                    kept = Some((user.to_owned(), password));
                    stage.done(Ok(()))
                }
                CheckStage::Delete => {
                    kept = None;
                    stage.done(Ok(()))
                }
                _ => stage.found(Ok(kept.clone())),
            }
            .unwrap();
            answers += 1;
        }
        assert_eq!(answers, 5);
    }
}

#[test]
fn first_display_is_captured() {
    assert_eq!(first_source(vec!["one", "two"]), Ok("one"));
    assert_eq!(first_source(Vec::<u8>::new()), Err("No capture display".to_owned()));
}

#[test]
fn some_frames_are_logged() {
    let logged: Vec<usize> = (1..=130).filter(|count| frame_is_logged(*count)).collect();
    assert_eq!(logged, vec![1, 2, 3, 60, 120]);
}

#[test]
fn greeting_stays_centered() {
    let mut demo = CaptureDemo::new();
    let greeting = Element::Centered("Hello, GPUI on OpenHarmony!".to_owned());
    assert_eq!(demo.render(0, 0)[0], greeting);
    demo.toggle_capture();
    demo.child_window_opened(0, Ok(5));
    assert_eq!(demo.render(7, 7)[0], greeting);
}
