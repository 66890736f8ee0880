use gpui_ohos::current_platform;
use gpui_ohos::platform::{
    compositor_name, initial_urls, opened_urls, termination, window_appearance, OhosPlatform,
    PlatformError, PlatformStep,
};
use gpui_ohos::window::{ColorMode, Event, WindowAppearance};

fn platform() -> OhosPlatform<u32> {
    current_platform(Ok(()), false)
}

#[test]
fn platform_needs_a_gpu() {
    let error = OhosPlatform::<u32>::new(Err("no device".to_owned())).unwrap_err();
    assert_eq!(
        error.message(),
        "Failed to create GPU context: no device. Note: ZED_DEVICE_ID environment variable is optional. If you need to specify a GPU device, set ZED_DEVICE_ID to a 4-digit hex PCI ID (e.g., '0x1234')."
    );
    let platform = platform();
    assert!(platform.is_connected());
    assert!(platform.open_window().is_ok());
    assert!(platform.windows().is_empty());
}

#[test]
fn platform_error_texts() {
    assert_eq!(PlatformError::AppNotSet.message(), "OpenHarmonyApp not set");
    assert_eq!(
        termination(false).unwrap_err().message(),
        "OpenHarmony app-control plugin rejected termination"
    );
    assert!(termination(true).is_ok());
    assert_eq!(
        PlatformError::UrlSchemeRegistration.message(),
        "URL scheme registration not supported on OHOS"
    );
    assert_eq!(PlatformError::AppPath.message(), "app_path not available on OHOS");
    assert_eq!(
        PlatformError::AuxiliaryExecutablePath.message(),
        "path_for_auxiliary_executable not available on OHOS"
    );
    assert_eq!(compositor_name(), "OHOS");
}

#[test]
fn launched_once_with_the_first_surface() {
    let mut platform = platform();
    assert!(platform.run());
    assert_eq!(
        platform.handle_ohos_event(&Event::Start),
        vec![
            PlatformStep::RunForegroundTasks,
            PlatformStep::RunDueTimers,
            PlatformStep::RouteToWindows,
        ]
    );
    assert_eq!(
        platform.handle_ohos_event(&Event::SurfaceCreate),
        vec![
            PlatformStep::RefreshWaker,
            PlatformStep::RunForegroundTasks,
            PlatformStep::RunDueTimers,
            PlatformStep::FinishLaunching,
            PlatformStep::RouteToWindows,
        ]
    );
    assert!(!platform
        .handle_ohos_event(&Event::SurfaceCreate)
        .contains(&PlatformStep::FinishLaunching));
}

#[test]
fn addresses_are_opened() {
    let mut platform = platform();
    let want = Event::NewWant { uri: "app://x".to_owned() };
    assert_eq!(opened_urls(&want), vec!["app://x".to_owned()]);
    assert_eq!(
        platform.handle_ohos_event(&want),
        vec![
            PlatformStep::OpenUrls,
            PlatformStep::RunForegroundTasks,
            PlatformStep::RunDueTimers,
            PlatformStep::RouteToWindows,
        ]
    );
    let empty = Event::NewWant { uri: String::new() };
    assert!(opened_urls(&empty).is_empty());
    assert_eq!(platform.handle_ohos_event(&empty).len(), 3);
    assert_eq!(initial_urls(Some("a:b".to_owned())), vec!["a:b".to_owned()]);
    assert!(initial_urls(Some(String::new())).is_empty());
    assert!(initial_urls(None).is_empty());
}

#[test]
fn live_windows_stay_in_order() {
    let mut platform = platform();
    for window in [4u32, 5, 6, 7] {
        platform.add_window(window);
    }
    platform.retain_live(&vec![false, true, false, true]);
    assert_eq!(platform.windows(), &vec![5, 7]);
    platform.retain_live(&vec![true, true]);
    assert_eq!(platform.windows(), &vec![5, 7]);
    platform.retain_live(&vec![false, false]);
    assert!(platform.windows().is_empty());
}

#[test]
fn looks_of_new_windows() {
    assert_eq!(window_appearance(Some(ColorMode::Dark)), WindowAppearance::Dark);
    assert_eq!(window_appearance(Some(ColorMode::NoSet)), WindowAppearance::Light);
    assert_eq!(window_appearance(None), WindowAppearance::Light);
}
