use gpui_ohos::geometry::Rect;
use gpui_ohos::renderer::{checked_handle, plan_renderer, RendererError, RendererPlan, SurfaceFacts};

#[test]
fn renderer_error_texts() {
    assert_eq!(
        RendererError::AppUnavailable.message(),
        "OpenHarmonyApp not available when initializing renderer"
    );
    assert_eq!(
        RendererError::NativeWindowUnavailable.message(),
        "native_window not available yet - SurfaceCreate event may not have been received"
    );
    assert_eq!(
        checked_handle(Err("Unavailable".to_owned())).unwrap_err().message(),
        "Window handle not available: Unavailable"
    );
    assert!(checked_handle(Ok(())).is_ok());
}

#[test]
fn sizes_of_bounds_wrap_as_device_pixels() {
    let facts = SurfaceFacts {
        content_rect: Some(Rect { top: 0, left: 0, width: 0, height: 0 }),
        native_window: true,
        bounds_width: u32::MAX,
        bounds_height: 7,
    };
    assert!(matches!(
        plan_renderer(false, facts),
        Ok(RendererPlan::Create(plan)) if plan.width == -1 && plan.height == 7
    ));
}
