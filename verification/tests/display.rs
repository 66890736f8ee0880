use gpui_ohos::display::{bounds, display_id, uuid, DeviceSize};
use gpui_ohos::geometry::Rect;

const CONTENT: Rect = Rect { top: 5, left: 6, width: 700, height: -3 };

#[test]
fn identifiers() {
    assert_eq!(display_id(), 0);
    assert_eq!(
        uuid::Uuid::from_u128(uuid()),
        uuid::Uuid::from_bytes([0, 0, 0, 0, 0, 0, 0, 0, 0, 0, 0, 0, 0, 0, 0, 1])
    );
    assert_eq!(uuid(), 1);
}

#[test]
fn reported_size_wins() {
    let reported = DeviceSize { width: 1280, height: 2800 };
    assert_eq!(bounds(reported, CONTENT), reported);
}

#[test]
fn surface_size_stands_in() {
    for reported in [DeviceSize { width: 0, height: 9 }, DeviceSize { width: 9, height: 0 }] {
        assert_eq!(bounds(reported, CONTENT), DeviceSize { width: 700, height: 1 });
    }
}
