use gpui_ohos::geometry::{
    current_safe_area_insets, keyboard_overlap_from_avoid_area_device_px, AvoidArea, Edges, Rect,
    WindowGeometry,
};

const EMPTY: Rect = Rect { top: 0, left: 0, width: 0, height: 0 };

fn rect(top: i32, left: i32, width: i32, height: i32) -> Rect {
    Rect { top, left, width, height }
}

fn bottom_area(visible: bool, top: i32, height: i32) -> Option<AvoidArea> {
    Some(AvoidArea {
        visible,
        left_rect: EMPTY,
        top_rect: EMPTY,
        right_rect: EMPTY,
        bottom_rect: rect(top, 0, 1000, height),
    })
}

/// A window that fills a screen of 1000 by 2000 device pixels.
fn full_screen() -> WindowGeometry {
    WindowGeometry {
        content_rect: rect(0, 0, 1000, 2000),
        window_rect: rect(0, 0, 1000, 2000),
        system: None,
        cutout: None,
        system_gesture: None,
        keyboard: None,
        navigation_indicator: None,
    }
}

#[test]
fn no_connection_has_no_overlap() {
    assert_eq!(keyboard_overlap_from_avoid_area_device_px(None, true), None);
}

#[test]
fn hidden_keyboard_hides_nothing() {
    let mut g = full_screen();
    g.system = bottom_area(true, 1900, 100);
    assert_eq!(keyboard_overlap_from_avoid_area_device_px(Some(g), false), Some(0));
    g.keyboard = bottom_area(false, 1200, 800);
    assert_eq!(keyboard_overlap_from_avoid_area_device_px(Some(g), false), Some(0));
}

#[test]
fn keyboard_area_counts_while_visible() {
    let mut g = full_screen();
    g.keyboard = bottom_area(true, 1200, 800);
    assert_eq!(keyboard_overlap_from_avoid_area_device_px(Some(g), false), Some(800));
    assert_eq!(keyboard_overlap_from_avoid_area_device_px(Some(g), true), Some(800));
}

#[test]
fn shared_rows_count_once_and_gaps_do_not_count() {
    let mut g = full_screen();
    g.keyboard = bottom_area(true, 1200, 700);
    g.system = bottom_area(false, 1850, 100);
    g.navigation_indicator = bottom_area(true, 1960, 40);
    assert_eq!(keyboard_overlap_from_avoid_area_device_px(Some(g), true), Some(700 + 50 + 40));
}

#[test]
fn rows_outside_the_surface_do_not_count() {
    let mut g = full_screen();
    g.keyboard = bottom_area(true, 1500, 9000);
    assert_eq!(keyboard_overlap_from_avoid_area_device_px(Some(g), true), Some(500));
    g.keyboard = bottom_area(true, 2000, 100);
    assert_eq!(keyboard_overlap_from_avoid_area_device_px(Some(g), true), Some(0));
}

#[test]
fn empty_surface_has_no_overlap() {
    let mut g = full_screen();
    g.content_rect.height = 0;
    g.keyboard = bottom_area(true, 1200, 800);
    assert_eq!(keyboard_overlap_from_avoid_area_device_px(Some(g), true), Some(0));
}

#[test]
fn reserved_top_is_inferred() {
    // 2000 rows of window, 1800 of surface, 100 of them below: 100 are above.
    let mut g = full_screen();
    g.content_rect.height = 1800;
    g.system = bottom_area(true, 1900, 100);
    g.keyboard = bottom_area(true, 1200, 800);
    assert!(g.is_overlap_in_range());
    assert_eq!(keyboard_overlap_from_avoid_area_device_px(Some(g), true), Some(700));
}

#[test]
fn narrow_surface_infers_no_top() {
    let mut g = full_screen();
    g.content_rect = rect(0, 0, 500, 1800);
    g.system = bottom_area(true, 1900, 100);
    g.keyboard = bottom_area(true, 1200, 800);
    assert_eq!(keyboard_overlap_from_avoid_area_device_px(Some(g), true), Some(600));
}

#[test]
fn far_ends_of_the_range_saturate() {
    let mut g = full_screen();
    g.window_rect.top = i32::MAX - 10;
    g.keyboard = bottom_area(true, i32::MAX - 5, i32::MAX);
    assert!(g.is_overlap_in_range());
    assert_eq!(keyboard_overlap_from_avoid_area_device_px(Some(g), true), Some(5));
}

#[test]
fn distance_out_of_range_is_told() {
    let mut g = full_screen();
    g.window_rect.top = i32::MIN;
    g.system = bottom_area(true, 2000, 100);
    assert!(g.is_overlap_in_range());
    g.system = bottom_area(true, 2001, 100);
    assert!(!g.is_overlap_in_range());
}

#[test]
fn insets_without_geometry_are_zero() {
    assert_eq!(
        current_safe_area_insets(None),
        Edges { top: 0, right: 0, bottom: 0, left: 0 }
    );
}

#[test]
fn insets_take_the_widest_visible_area() {
    let mut g = full_screen();
    g.system = Some(AvoidArea {
        visible: true,
        left_rect: rect(0, 0, 10, 2000),
        top_rect: rect(0, 0, 1000, 60),
        right_rect: EMPTY,
        bottom_rect: rect(1900, 0, 1000, 100),
    });
    g.cutout = Some(AvoidArea {
        visible: true,
        left_rect: EMPTY,
        top_rect: rect(0, 400, 200, 90),
        right_rect: rect(0, 970, 30, 2000),
        bottom_rect: EMPTY,
    });
    g.navigation_indicator = bottom_area(false, 1800, 200);
    assert_eq!(
        current_safe_area_insets(Some(g)),
        Edges { top: 90, right: 30, bottom: 100, left: 10 }
    );
}

#[test]
fn insets_leave_out_what_the_surface_keeps_clear() {
    let mut g = full_screen();
    g.content_rect = rect(50, 4, 976, 1880);
    g.system = Some(AvoidArea {
        visible: true,
        left_rect: rect(0, 0, 10, 2000),
        top_rect: rect(0, 0, 1000, 60),
        right_rect: rect(0, 0, 10, 2000),
        bottom_rect: rect(1900, 0, 1000, 100),
    });
    assert!(g.is_insets_in_range());
    assert_eq!(
        current_safe_area_insets(Some(g)),
        Edges { top: 10, right: 0, bottom: 30, left: 6 }
    );
}

#[test]
fn insets_out_of_range_are_told() {
    let mut g = full_screen();
    g.window_rect.width = i32::MAX;
    g.content_rect.width = -1;
    assert!(!g.is_insets_in_range());
}
