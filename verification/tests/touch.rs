use gpui_ohos::input::{Position, TouchPhase};
use gpui_ohos::touch::{
    dispatch_raw_touch_event, touch_phase, RawTouch, TapDistance, TouchEventData, TouchEventType,
    TouchPointData, TouchTracker,
};

fn at(x: f32, y: f32) -> Position {
    Position { x: x.to_bits(), y: y.to_bits() }
}

fn finger(id: i32, x: f32, y: f32) -> TouchPointData {
    TouchPointData { id, position: at(x, y), force: Some(0.5f32.to_bits()) }
}

fn raw(id: i32, phase: TouchPhase) -> RawTouch {
    RawTouch { point: finger(id, 1.0, 2.0), phase }
}

#[test]
fn move_takes_every_finger() {
    let event = TouchEventData {
        event_type: TouchEventType::Move,
        finger: finger(1, 0.0, 0.0),
        touch_points: vec![finger(1, 3.0, 4.0), finger(2, 5.0, 6.0)],
    };
    assert_eq!(
        dispatch_raw_touch_event(&event),
        vec![
            RawTouch { point: finger(1, 3.0, 4.0), phase: TouchPhase::Moved },
            RawTouch { point: finger(2, 5.0, 6.0), phase: TouchPhase::Moved },
        ]
    );
}

#[test]
fn down_takes_the_listed_finger() {
    let event = TouchEventData {
        event_type: TouchEventType::Down,
        finger: finger(2, 0.0, 0.0),
        touch_points: vec![finger(1, 3.0, 4.0), finger(2, 5.0, 6.0), finger(2, 7.0, 8.0)],
    };
    assert_eq!(
        dispatch_raw_touch_event(&event),
        vec![RawTouch { point: finger(2, 5.0, 6.0), phase: TouchPhase::Started }]
    );
}

#[test]
fn unlisted_finger_stands_for_itself() {
    let event = TouchEventData {
        event_type: TouchEventType::Up,
        finger: finger(9, 1.0, 1.0),
        touch_points: vec![finger(1, 3.0, 4.0)],
    };
    assert_eq!(
        dispatch_raw_touch_event(&event),
        vec![RawTouch { point: finger(9, 1.0, 1.0), phase: TouchPhase::Ended }]
    );
    let cancel = TouchEventData {
        event_type: TouchEventType::Cancel,
        finger: finger(9, 1.0, 1.0),
        touch_points: vec![],
    };
    assert_eq!(
        dispatch_raw_touch_event(&cancel),
        vec![RawTouch { point: finger(9, 1.0, 1.0), phase: TouchPhase::Cancelled }]
    );
}

#[test]
fn unknown_touch_event_is_ignored() {
    let event = TouchEventData {
        event_type: TouchEventType::Unknown,
        finger: finger(9, 1.0, 1.0),
        touch_points: vec![finger(9, 1.0, 1.0)],
    };
    assert_eq!(dispatch_raw_touch_event(&event), vec![]);
    assert_eq!(touch_phase(TouchEventType::Unknown), None);
    assert_eq!(touch_phase(TouchEventType::Cancel), Some(TouchPhase::Cancelled));
}

#[test]
fn names_are_new_and_stay() {
    let mut touches = TouchTracker::new();
    let first = touches
        .dispatch_raw_touch_point(raw(7, TouchPhase::Started), false, TapDistance::Within)
        .unwrap();
    assert_eq!(first.event.id, 0);
    assert_eq!(first.event.phase, TouchPhase::Started);
    assert_eq!(first.event.position, at(1.0, 2.0));
    assert_eq!(first.event.predicted_position, None);
    assert_eq!(first.event.force, Some(0.5f32.to_bits()));
    let second = touches
        .dispatch_raw_touch_point(raw(8, TouchPhase::Started), false, TapDistance::Within)
        .unwrap();
    assert_eq!(second.event.id, 1);
    let moved = touches
        .dispatch_raw_touch_point(raw(7, TouchPhase::Moved), false, TapDistance::Within)
        .unwrap();
    assert_eq!(moved.event.id, 0);
    touches.dispatch_raw_touch_point(raw(7, TouchPhase::Ended), false, TapDistance::Within);
    let again = touches
        .dispatch_raw_touch_point(raw(7, TouchPhase::Started), false, TapDistance::Within)
        .unwrap();
    assert_eq!(again.event.id, 2);
    assert!(touches.can_start());
}

#[test]
fn unknown_finger_is_ignored() {
    let mut touches = TouchTracker::new();
    assert_eq!(
        touches.dispatch_raw_touch_point(raw(3, TouchPhase::Moved), true, TapDistance::Within),
        None
    );
    touches.dispatch_raw_touch_point(raw(3, TouchPhase::Started), true, TapDistance::Within);
    touches.dispatch_raw_touch_point(raw(3, TouchPhase::Cancelled), true, TapDistance::Within);
    assert_eq!(
        touches.dispatch_raw_touch_point(raw(3, TouchPhase::Ended), true, TapDistance::Within),
        None
    );
}

#[test]
fn tap_in_text_input_reopens_keyboard() {
    let mut touches = TouchTracker::new();
    assert!(touches.may_tap(TouchPhase::Started));
    assert!(!touches.may_tap(TouchPhase::Moved));
    touches.dispatch_raw_touch_point(raw(1, TouchPhase::Started), true, TapDistance::Within);
    assert!(!touches.may_tap(TouchPhase::Started));
    assert_eq!(touches.tap_start(1), Some(at(1.0, 2.0)));
    let end = touches
        .dispatch_raw_touch_point(raw(1, TouchPhase::Ended), false, TapDistance::Within)
        .unwrap();
    assert!(end.reopen_keyboard);
    assert_eq!(touches.tap_start(1), None);
}

#[test]
fn tap_elsewhere_does_not() {
    let mut touches = TouchTracker::new();
    touches.dispatch_raw_touch_point(raw(1, TouchPhase::Started), false, TapDistance::Within);
    let end = touches
        .dispatch_raw_touch_point(raw(1, TouchPhase::Ended), true, TapDistance::Within)
        .unwrap();
    assert!(!end.reopen_keyboard);
}

#[test]
fn far_or_unknown_distance_is_no_tap() {
    for distance in [TapDistance::Beyond, TapDistance::Incomparable] {
        let mut touches = TouchTracker::new();
        touches.dispatch_raw_touch_point(raw(1, TouchPhase::Started), true, TapDistance::Within);
        let end =
            touches.dispatch_raw_touch_point(raw(1, TouchPhase::Ended), true, distance).unwrap();
        assert!(!end.reopen_keyboard);
    }
}

#[test]
fn moving_away_and_back_is_no_tap() {
    let mut touches = TouchTracker::new();
    touches.dispatch_raw_touch_point(raw(1, TouchPhase::Started), true, TapDistance::Within);
    touches.dispatch_raw_touch_point(raw(1, TouchPhase::Moved), true, TapDistance::Incomparable);
    assert_eq!(touches.tap_start(1), Some(at(1.0, 2.0)));
    touches.dispatch_raw_touch_point(raw(1, TouchPhase::Moved), true, TapDistance::Beyond);
    let end = touches
        .dispatch_raw_touch_point(raw(1, TouchPhase::Ended), true, TapDistance::Within)
        .unwrap();
    assert!(!end.reopen_keyboard);
}

#[test]
fn second_finger_ends_the_tap() {
    let mut touches = TouchTracker::new();
    touches.dispatch_raw_touch_point(raw(1, TouchPhase::Started), true, TapDistance::Within);
    touches.dispatch_raw_touch_point(raw(2, TouchPhase::Started), true, TapDistance::Within);
    for id in [1, 2] {
        let end = touches
            .dispatch_raw_touch_point(raw(id, TouchPhase::Ended), true, TapDistance::Within)
            .unwrap();
        assert!(!end.reopen_keyboard);
    }
}
