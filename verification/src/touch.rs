//! Touch input: which fingers are down, how each touch is named, and which of
//! them are taps.

use crate::input::Position;
use crate::input::TouchEvent;
use crate::input::TouchPhase;
use std::collections::HashMap;
use vstd::prelude::*;

verus! {

broadcast use vstd::std_specs::hash::group_hash_axioms;

/// What the system says happened to the fingers on the screen.
#[derive(Clone, Copy, Debug, PartialEq, Eq, Structural)]
pub enum TouchEventType {
    Unknown,
    Down,
    Up,
    Move,
    Cancel,
}

/// One finger in a touch event of the system.
#[derive(Clone, Copy, Debug, PartialEq, Eq, Structural)]
pub struct TouchPointData {
    pub id: i32,
    pub position: Position,
    /// The bit pattern of the pressure as an `f32`, where it is known.
    pub force: Option<u32>,
}

/// A touch event of the system: the finger that caused it and all fingers that
/// are down.
#[derive(Clone, Debug, PartialEq, Eq)]
pub struct TouchEventData {
    pub event_type: TouchEventType,
    pub finger: TouchPointData,
    pub touch_points: Vec<TouchPointData>,
}

/// The movement of one finger, still under the system's name for it.
#[derive(Clone, Copy, Debug, PartialEq, Eq, Structural)]
pub struct RawTouch {
    pub point: TouchPointData,
    pub phase: TouchPhase,
}

/// How far a finger is from where it went down, against the distance that a tap
/// may cover. The distance may be no number at all.
#[derive(Clone, Copy, Debug, PartialEq, Eq, Structural)]
pub enum TapDistance {
    Within,
    Beyond,
    Incomparable,
}

/// A finger that may still turn out to be a tap.
#[derive(Clone, Copy, Debug, PartialEq, Eq, Structural)]
pub struct TouchTapCandidate {
    pub start_position: Position,
    pub started_in_text_input: bool,
}

/// What a touch leads to.
#[derive(Clone, Copy, Debug, PartialEq, Eq, Structural)]
pub struct TouchOutcome {
    pub event: TouchEvent,
    /// The touch was a tap into a text input that had the focus already, so the
    /// soft keyboard has to be asked for again.
    pub reopen_keyboard: bool,
}

/// The stage that a touch event stands for.
pub open spec fn phase_of(event_type: TouchEventType) -> Option<TouchPhase> {
    match event_type {
        TouchEventType::Down => Some(TouchPhase::Started),
        TouchEventType::Move => Some(TouchPhase::Moved),
        TouchEventType::Up => Some(TouchPhase::Ended),
        TouchEventType::Cancel => Some(TouchPhase::Cancelled),
        TouchEventType::Unknown => None,
    }
}

/// The first of some fingers that has a given name.
pub open spec fn find_point(points: Seq<TouchPointData>, id: i32) -> Option<TouchPointData>
    decreases points.len(),
{
    if points.len() == 0 {
        None
    } else if points[0].id == id {
        Some(points[0])
    } else {
        find_point(points.skip(1), id)
    }
}

/// Several fingers that do the same.
pub open spec fn all_in_phase(points: Seq<TouchPointData>, phase: TouchPhase) -> Seq<RawTouch> {
    points.map_values(|point: TouchPointData| RawTouch { point, phase })
}

/// The finger movements in a touch event: all fingers where they move or are
/// cancelled together, else the one that caused the event, as it is listed
/// among the fingers where it is.
pub open spec fn touches_of(
    event_type: TouchEventType,
    finger: TouchPointData,
    points: Seq<TouchPointData>,
) -> Seq<RawTouch> {
    match phase_of(event_type) {
        None => seq![],
        Some(phase) => match event_type {
            TouchEventType::Move | TouchEventType::Cancel => if points.len() > 0 {
                all_in_phase(points, phase)
            } else {
                all_in_phase(seq![finger], phase)
            },
            _ => match find_point(points, finger.id) {
                Some(point) => all_in_phase(seq![point], phase),
                None => all_in_phase(seq![finger], phase),
            },
        },
    }
}

/// The stage that a touch event stands for; `None` where the system does not
/// say.
pub fn touch_phase(event_type: TouchEventType) -> (r: Option<TouchPhase>)
    ensures
        r == phase_of(event_type),
{
    match event_type {
        TouchEventType::Down => Some(TouchPhase::Started),
        TouchEventType::Move => Some(TouchPhase::Moved),
        TouchEventType::Up => Some(TouchPhase::Ended),
        TouchEventType::Cancel => Some(TouchPhase::Cancelled),
        TouchEventType::Unknown => None,
    }
}

fn point_named(points: &Vec<TouchPointData>, id: i32) -> (r: Option<TouchPointData>)
    ensures
        r == find_point(points@, id),
{
    let mut i: usize = 0;
    assert(points@.skip(0) =~= points@);
    while i < points.len()
        invariant
            i <= points@.len(),
            find_point(points@, id) == find_point(points@.skip(i as int), id),
        decreases points@.len() - i,
    {
        assert(points@.skip(i as int)[0] == points@[i as int]);
        assert(points@.skip(i as int).skip(1) =~= points@.skip(i + 1));
        if points[i].id == id {
            return Some(points[i]);
        }
        i = i + 1;
    }
    None
}

/// Splits a touch event into the finger movements that it holds.
pub fn dispatch_raw_touch_event(event: &TouchEventData) -> (r: Vec<RawTouch>)
    ensures
        r@ == touches_of(event.event_type, event.finger, event.touch_points@),
{
    let mut touches: Vec<RawTouch> = Vec::new();
    let phase = match touch_phase(event.event_type) {
        Some(phase) => phase,
        None => {
            return touches;
        },
    };
    match event.event_type {
        TouchEventType::Move | TouchEventType::Cancel => {
            if event.touch_points.len() == 0 {
                touches.push(RawTouch { point: event.finger, phase });
                assert(touches@ =~= all_in_phase(seq![event.finger], phase));
                return touches;
            }
            let mut i: usize = 0;
            while i < event.touch_points.len()
                invariant
                    i <= event.touch_points@.len(),
                    touches@ == all_in_phase(event.touch_points@.take(i as int), phase),
                decreases event.touch_points@.len() - i,
            {
                touches.push(RawTouch { point: event.touch_points[i], phase });
                i = i + 1;
                assert(touches@ =~= all_in_phase(event.touch_points@.take(i as int), phase));
            }
            assert(event.touch_points@.take(i as int) =~= event.touch_points@);
        },
        _ => {
            let point = match point_named(&event.touch_points, event.finger.id) {
                Some(point) => point,
                None => event.finger,
            };
            touches.push(RawTouch { point, phase });
            assert(touches@ =~= all_in_phase(seq![point], phase));
        },
    }
    touches
}

/// The fingers on the screen at one moment.
#[verifier::ext_equal]
pub struct TouchesView {
    /// The name of each touch, by the system's name for the finger.
    pub active: Map<i32, u64>,
    /// The fingers that may be taps.
    pub candidates: Map<i32, TouchTapCandidate>,
    /// The name of the next touch.
    pub next_id: u64,
}

impl TouchesView {
    /// Names are given out in order and never twice, and a finger that may be a
    /// tap is the only one on the screen.
    pub open spec fn wf(self) -> bool {
        &&& forall|finger: i32| #[trigger]
            self.active.contains_key(finger) ==> self.active[finger] < self.next_id
        &&& forall|a: i32, b: i32|
            #![trigger self.active[a], self.active[b]]
            self.active.contains_key(a) && self.active.contains_key(b) && a != b
                ==> self.active[a] != self.active[b]
        &&& forall|finger: i32| #[trigger]
            self.candidates.contains_key(finger) ==> self.active.dom() == set![finger]
    }

    /// Whether a movement belongs to a touch: a finger that goes down always
    /// does, another only while it is down.
    pub open spec fn accepts(self, touch: RawTouch) -> bool {
        touch.phase is Started || self.active.contains_key(touch.point.id)
    }

    /// The name of the touch that a movement belongs to.
    pub open spec fn name(self, touch: RawTouch) -> u64 {
        if touch.phase is Started {
            self.next_id
        } else {
            self.active[touch.point.id]
        }
    }

    /// The fingers after a movement. A finger that goes down alone may be a
    /// tap; a second one ends that, and so does moving too far.
    pub open spec fn after(
        self,
        touch: RawTouch,
        targets_text_input: bool,
        distance: TapDistance,
    ) -> TouchesView {
        let finger = touch.point.id;
        if !self.accepts(touch) {
            self
        } else {
            match touch.phase {
                TouchPhase::Started => TouchesView {
                    active: self.active.insert(finger, self.next_id),
                    candidates: if self.active.dom().is_empty() {
                        map![finger => TouchTapCandidate {
                            start_position: touch.point.position,
                            started_in_text_input: targets_text_input,
                        }]
                    } else {
                        Map::empty()
                    },
                    next_id: (self.next_id + 1) as u64,
                },
                TouchPhase::Moved => TouchesView {
                    candidates: if distance is Beyond {
                        self.candidates.remove(finger)
                    } else {
                        self.candidates
                    },
                    ..self
                },
                TouchPhase::Ended | TouchPhase::Cancelled => TouchesView {
                    active: self.active.remove(finger),
                    candidates: self.candidates.remove(finger),
                    ..self
                },
            }
        }
    }

    /// Whether a movement ends a tap that began in a text input.
    pub open spec fn reopens(self, touch: RawTouch, distance: TapDistance) -> bool {
        &&& touch.phase is Ended
        &&& self.active.contains_key(touch.point.id)
        &&& self.candidates.contains_key(touch.point.id)
        &&& self.candidates[touch.point.id].started_in_text_input
        &&& distance is Within
    }

    /// What a movement leads to.
    pub open spec fn outcome(self, touch: RawTouch, distance: TapDistance) -> Option<
        TouchOutcome,
    > {
        if self.accepts(touch) {
            Some(
                TouchOutcome {
                    event: TouchEvent {
                        id: self.name(touch),
                        phase: touch.phase,
                        position: touch.point.position,
                        predicted_position: None,
                        force: touch.point.force,
                    },
                    reopen_keyboard: self.reopens(touch, distance),
                },
            )
        } else {
            None
        }
    }
}

/// The fingers on the screen.
#[derive(Debug)]
pub struct TouchTracker {
    active_touches: HashMap<i32, u64>,
    touch_tap_candidates: HashMap<i32, TouchTapCandidate>,
    next_touch_id: u64,
}

impl View for TouchTracker {
    type V = TouchesView;

    closed spec fn view(&self) -> TouchesView {
        TouchesView {
            active: self.active_touches@,
            candidates: self.touch_tap_candidates@,
            next_id: self.next_touch_id,
        }
    }
}

impl TouchTracker {
    /// A screen that was never touched.
    pub fn new() -> (r: TouchTracker)
        ensures
            r@.wf(),
            r@.active == Map::<i32, u64>::empty(),
            r@.candidates == Map::<i32, TouchTapCandidate>::empty(),
            r@.next_id == 0,
    {
        TouchTracker {
            active_touches: HashMap::new(),
            touch_tap_candidates: HashMap::new(),
            next_touch_id: 0,
        }
    }

    /// Tells whether there is a name left for another touch.
    pub fn can_start(&self) -> (r: bool)
        ensures
            r == (self@.next_id < u64::MAX),
    {
        self.next_touch_id < u64::MAX
    }

    /// Tells whether a finger that goes down now may be a tap, so that it
    /// matters where it goes down.
    pub fn may_tap(&self, phase: TouchPhase) -> (r: bool)
        ensures
            r == (phase is Started && self@.active.dom().is_empty()),
    {
        let r = phase == TouchPhase::Started && self.active_touches.is_empty();
        proof {
            if self.active_touches@.len() == 0 {
                assert(self.active_touches@.dom() =~= Set::<i32>::empty());
            }
        }
        r
    }

    /// Where a finger that may be a tap went down.
    pub fn tap_start(&self, finger: i32) -> (r: Option<Position>)
        ensures
            r == if self@.candidates.contains_key(finger) {
                Some(self@.candidates[finger].start_position)
            } else {
                None
            },
    {
        match self.touch_tap_candidates.get(&finger) {
            Some(candidate) => Some(candidate.start_position),
            None => None,
        }
    }

    fn allocate_touch_id(&mut self) -> (r: u64)
        requires
            old(self)@.next_id < u64::MAX,
        ensures
            r == old(self)@.next_id,
            final(self)@ == (TouchesView {
                next_id: (old(self)@.next_id + 1) as u64,
                ..old(self)@
            }),
    {
        let raw_id: u64 = self.next_touch_id;
        self.next_touch_id = raw_id + 1;
        raw_id
    }

    /// Takes the movement of one finger. `targets_text_input` says whether the
    /// point lies in the text input that has the focus, `distance` how far the
    /// finger is from where it went down.
    pub fn dispatch_raw_touch_point(
        &mut self,
        touch: RawTouch,
        targets_text_input: bool,
        distance: TapDistance,
    ) -> (r: Option<TouchOutcome>)
        requires
            old(self)@.wf(),
            touch.phase is Started ==> old(self)@.next_id < u64::MAX,
        ensures
            final(self)@ == old(self)@.after(touch, targets_text_input, distance),
            final(self)@.wf(),
            r == old(self)@.outcome(touch, distance),
            r is Some <==> touch.phase is Started || old(self)@.active.contains_key(
                touch.point.id,
            ),
            r is Some ==> r->0.event.position == touch.point.position,
            r is Some ==> r->0.event.force == touch.point.force,
            r is Some ==> r->0.event.phase == touch.phase,
            r is Some ==> r->0.event.id == if touch.phase is Started {
                old(self)@.next_id
            } else {
                old(self)@.active[touch.point.id]
            },
    {
        let finger: i32 = touch.point.id;
        let id: u64 = if touch.phase == TouchPhase::Started {
            let alone = self.may_tap(touch.phase);
            let id: u64 = self.allocate_touch_id();
            if alone {
                self.touch_tap_candidates.insert(
                    finger,
                    TouchTapCandidate {
                        start_position: touch.point.position,
                        started_in_text_input: targets_text_input,
                    },
                );
            } else {
                self.touch_tap_candidates.clear();
            }
            self.active_touches.insert(finger, id);
            id
        } else {
            match self.active_touches.get(&finger) {
                Some(id) => *id,
                None => {
                    return None;
                },
            }
        };
        let reopen_keyboard = match touch.phase {
            TouchPhase::Moved => {
                if distance == TapDistance::Beyond {
                    self.touch_tap_candidates.remove(&finger);
                }
                false
            },
            TouchPhase::Ended => {
                self.active_touches.remove(&finger);
                match self.touch_tap_candidates.remove(&finger) {
                    Some(candidate) => candidate.started_in_text_input && distance
                        == TapDistance::Within,
                    None => false,
                }
            },
            TouchPhase::Cancelled => {
                self.active_touches.remove(&finger);
                self.touch_tap_candidates.remove(&finger);
                false
            },
            TouchPhase::Started => false,
        };
        proof {
            assert forall|f: i32| old(self)@.active.dom().is_empty() implies !#[trigger] old(
                self,
            )@.candidates.contains_key(f) by {
                if old(self)@.candidates.contains_key(f) {
                    assert(old(self)@.active.dom().contains(f));
                }
            }
            law_fingers_stay_sound(old(self)@, touch, targets_text_input, distance);
            assert(self@ =~= old(self)@.after(touch, targets_text_input, distance));
        }
        Some(
            TouchOutcome {
                event: TouchEvent {
                    id,
                    phase: touch.phase,
                    position: touch.point.position,
                    predicted_position: None,
                    force: touch.point.force,
                },
                reopen_keyboard,
            },
        )
    }
}

/// Every movement keeps the fingers sound: names stay unique, and a finger that
/// may be a tap stays the only one on the screen.
pub proof fn law_fingers_stay_sound(
    state: TouchesView,
    touch: RawTouch,
    targets_text_input: bool,
    distance: TapDistance,
)
    requires
        state.wf(),
        touch.phase is Started ==> state.next_id < u64::MAX,
    ensures
        state.after(touch, targets_text_input, distance).wf(),
{
    let next = state.after(touch, targets_text_input, distance);
    let finger = touch.point.id;
    if state.accepts(touch) {
        assert forall|f: i32| #[trigger]
            next.active.contains_key(f) implies next.active[f] < next.next_id by {
            if f != finger {
                assert(state.active.contains_key(f));
            }
        }
        assert forall|a: i32, b: i32|
            #![trigger next.active[a], next.active[b]]
            next.active.contains_key(a) && next.active.contains_key(b) && a
                != b implies next.active[a] != next.active[b] by {
            if a != finger {
                assert(state.active.contains_key(a));
                assert(next.active[a] == state.active[a]);
            }
            if b != finger {
                assert(state.active.contains_key(b));
                assert(next.active[b] == state.active[b]);
            }
        }
        assert forall|f: i32| #[trigger] next.candidates.contains_key(f) implies next.active.dom()
            == set![f] by {
            match touch.phase {
                TouchPhase::Started => {
                    assert(f == finger);
                    assert(next.active.dom() =~= set![f]);
                },
                TouchPhase::Moved => {
                    assert(state.candidates.contains_key(f));
                },
                _ => {
                    assert(state.candidates.contains_key(f));
                    assert(state.active.dom() == set![f]);
                    assert(state.active.dom().contains(finger));
                },
            }
        }
    }
}

/// A finger that goes down gets a name that no touch on the screen has, and
/// keeps it until it is lifted: whatever other fingers do in between, its
/// movements carry that name.
pub proof fn law_touch_keeps_its_name(
    state: TouchesView,
    finger: i32,
    other: RawTouch,
    targets_text_input: bool,
    distance: TapDistance,
)
    requires
        state.wf(),
        state.active.contains_key(finger),
        other.point.id != finger || other.phase is Moved,
        other.phase is Started ==> state.next_id < u64::MAX,
    ensures
        ({
            let next = state.after(other, targets_text_input, distance);
            &&& next.active.contains_key(finger)
            &&& next.active[finger] == state.active[finger]
        }),
{
}

/// The name of a new touch is one that no touch on the screen has, and no later
/// touch gets it again.
pub proof fn law_new_touch_is_new(
    state: TouchesView,
    touch: RawTouch,
    targets_text_input: bool,
    distance: TapDistance,
)
    requires
        state.wf(),
        touch.phase is Started,
        state.next_id < u64::MAX,
    ensures
        forall|finger: i32| #[trigger]
            state.active.contains_key(finger) ==> state.active[finger] != state.name(touch),
        state.name(touch) < state.after(touch, targets_text_input, distance).next_id,
{
}

/// Names only move forward.
pub proof fn law_names_move_forward(
    state: TouchesView,
    touch: RawTouch,
    targets_text_input: bool,
    distance: TapDistance,
)
    requires
        touch.phase is Started ==> state.next_id < u64::MAX,
    ensures
        state.next_id <= state.after(touch, targets_text_input, distance).next_id,
{
}

/// A finger that is lifted or cancelled is gone: its later movements are
/// ignored until it goes down again.
pub proof fn law_lifted_finger_is_ignored(
    state: TouchesView,
    touch: RawTouch,
    later: RawTouch,
    targets_text_input: bool,
    distance: TapDistance,
)
    requires
        touch.phase is Ended || touch.phase is Cancelled,
        later.point.id == touch.point.id,
        !(later.phase is Started),
    ensures
        ({
            let next = state.after(touch, targets_text_input, distance);
            &&& next.outcome(later, distance) is None
            &&& next.after(later, targets_text_input, distance) == next
        }),
{
}

/// The soft keyboard is asked for again only by the only finger on the screen.
pub proof fn law_only_a_lone_finger_taps(
    state: TouchesView,
    touch: RawTouch,
    distance: TapDistance,
)
    requires
        state.wf(),
        state.reopens(touch, distance),
    ensures
        state.active.dom() == set![touch.point.id],
        touch.phase is Ended,
        distance is Within,
{
}

/// A finger that goes down alone inside a text input and is lifted where it
/// went down asks for the soft keyboard.
pub proof fn law_tap_asks_for_keyboard(state: TouchesView, point: TouchPointData, lifted: Position)
    requires
        state.wf(),
        state.active.dom().is_empty(),
        state.next_id < u64::MAX,
    ensures
        ({
            let down = RawTouch { point, phase: TouchPhase::Started };
            let up = RawTouch {
                point: TouchPointData { position: lifted, ..point },
                phase: TouchPhase::Ended,
            };
            forall|targets: bool, d: TapDistance| #[trigger]
                state.after(down, targets, d).reopens(up, TapDistance::Within) == targets
        }),
{
}

proof fn lemma_find_point(points: Seq<TouchPointData>, id: i32)
    ensures
        forall|j: int|
            0 <= j < points.len() && (#[trigger] points[j]).id == id && (forall|k: int|
                0 <= k < j ==> (#[trigger] points[k]).id != id) ==> find_point(points, id) == Some(
                points[j],
            ),
        (forall|k: int| 0 <= k < points.len() ==> (#[trigger] points[k]).id != id) ==> find_point(
            points,
            id,
        ) is None,
        find_point(points, id) is Some ==> find_point(points, id)->0.id == id,
    decreases points.len(),
{
    if points.len() > 0 && points[0].id != id {
        let rest = points.skip(1);
        lemma_find_point(rest, id);
        assert forall|j: int|
            0 <= j < points.len() && (#[trigger] points[j]).id == id && (forall|k: int|
                0 <= k < j ==> (#[trigger] points[k]).id != id) implies find_point(points, id)
            == Some(points[j]) by {
            assert(rest[j - 1] == points[j]);
            assert forall|k: int| 0 <= k < j - 1 implies (#[trigger] rest[k]).id != id by {
                assert(rest[k] == points[k + 1]);
            }
        }
        if forall|k: int| 0 <= k < points.len() ==> (#[trigger] points[k]).id != id {
            assert forall|k: int| 0 <= k < rest.len() implies (#[trigger] rest[k]).id != id by {
                assert(rest[k] == points[k + 1]);
            }
        }
    } else if points.len() > 0 {
        assert forall|j: int|
            0 <= j < points.len() && (#[trigger] points[j]).id == id && (forall|k: int|
                0 <= k < j ==> (#[trigger] points[k]).id != id) implies find_point(points, id)
            == Some(points[j]) by {
            if j > 0 {
                assert(points[0].id != id);
            }
        }
    }
}

/// The fingers in a touch event. A movement or a cancellation concerns every finger
/// that is listed, in their order; a finger that goes down or up concerns that finger
/// alone, as it is first listed under its name. Where it is not listed, or nothing is,
/// the finger that caused the event counts. An event of no known kind concerns none.
pub proof fn law_touch_event_concerns(
    event_type: TouchEventType,
    finger: TouchPointData,
    points: Seq<TouchPointData>,
)
    ensures
        ({
            let touches = touches_of(event_type, finger, points);
            let together = event_type == TouchEventType::Move || event_type
                == TouchEventType::Cancel;
            &&& event_type == TouchEventType::Unknown ==> touches.len() == 0
            &&& event_type != TouchEventType::Unknown ==> touches.len() == if together
                && points.len() > 0 {
                points.len()
            } else {
                1
            }
            &&& forall|i: int|
                0 <= i < touches.len() ==> (#[trigger] touches[i]).phase == if event_type
                    == TouchEventType::Down {
                    TouchPhase::Started
                } else if event_type == TouchEventType::Move {
                    TouchPhase::Moved
                } else if event_type == TouchEventType::Up {
                    TouchPhase::Ended
                } else {
                    TouchPhase::Cancelled
                }
            &&& together ==> forall|i: int|
                0 <= i < points.len() ==> (#[trigger] touches[i]).point == points[i]
            &&& event_type != TouchEventType::Unknown && points.len() == 0 ==> touches[0].point
                == finger
            &&& event_type != TouchEventType::Unknown && !together ==> {
                &&& touches[0].point.id == finger.id
                &&& forall|j: int|
                    0 <= j < points.len() && (#[trigger] points[j]).id == finger.id && (forall|
                        k: int,
                    |
                        0 <= k < j ==> (#[trigger] points[k]).id != finger.id)
                        ==> touches[0].point == points[j]
                &&& (forall|k: int|
                    0 <= k < points.len() ==> (#[trigger] points[k]).id != finger.id)
                    ==> touches[0].point == finger
            }
        }),
{
    lemma_find_point(points, finger.id);
}

/// A finger that goes down, or that is down, is handed on as it is: with its place, its
/// pressure and its stage, under the name that the touch got when it started. A finger
/// that is not down is not handed on.
pub proof fn law_touch_is_handed_on_as_it_is(
    state: TouchesView,
    touch: RawTouch,
    distance: TapDistance,
)
    ensures
        ({
            let handed_on = state.outcome(touch, distance);
            &&& handed_on is Some <==> touch.phase == TouchPhase::Started
                || state.active.contains_key(touch.point.id)
            &&& handed_on is Some ==> {
                &&& handed_on->0.event.position == touch.point.position
                &&& handed_on->0.event.force == touch.point.force
                &&& handed_on->0.event.phase == touch.phase
                &&& handed_on->0.event.predicted_position is None
                &&& handed_on->0.event.id == if touch.phase == TouchPhase::Started {
                    state.next_id
                } else {
                    state.active[touch.point.id]
                }
                &&& handed_on->0.reopen_keyboard <==> (touch.phase == TouchPhase::Ended
                    && state.candidates.contains_key(touch.point.id)
                    && state.candidates[touch.point.id].started_in_text_input && distance
                    == TapDistance::Within)
            }
        }),
{
}

/// A finger is down from its start to its end, and no other finger's movement changes
/// that or its name. Only a start uses up a name.
pub proof fn law_finger_is_down_until_lifted(
    state: TouchesView,
    touch: RawTouch,
    targets_text_input: bool,
    distance: TapDistance,
    finger: i32,
)
    requires
        touch.phase == TouchPhase::Started ==> state.next_id < u64::MAX,
    ensures
        ({
            let next = state.after(touch, targets_text_input, distance);
            let own = touch.point.id == finger;
            &&& next.active.contains_key(finger) <==> if own && touch.phase
                == TouchPhase::Started {
                true
            } else if own && (touch.phase == TouchPhase::Ended || touch.phase
                == TouchPhase::Cancelled) {
                false
            } else {
                state.active.contains_key(finger)
            }
            &&& next.active.contains_key(finger) ==> next.active[finger] == if own
                && touch.phase == TouchPhase::Started {
                state.next_id
            } else {
                state.active[finger]
            }
            &&& next.next_id == if touch.phase == TouchPhase::Started {
                state.next_id + 1
            } else {
                state.next_id as int
            }
        }),
{
}

/// A finger may be a tap from its start, if it is alone then, until it is lifted, moves
/// too far or gets company. Where it began is remembered as it was.
pub proof fn law_lone_finger_may_tap(
    state: TouchesView,
    touch: RawTouch,
    targets_text_input: bool,
    distance: TapDistance,
    finger: i32,
)
    requires
        state.wf(),
        touch.phase == TouchPhase::Started ==> state.next_id < u64::MAX,
    ensures
        ({
            let next = state.after(touch, targets_text_input, distance);
            let own = touch.point.id == finger;
            let down = state.active.contains_key(touch.point.id);
            &&& next.candidates.contains_key(finger) <==> match touch.phase {
                TouchPhase::Started => own && forall|f: i32| !#[trigger]
                    state.active.contains_key(f),
                TouchPhase::Moved => state.candidates.contains_key(finger) && !(own && down
                    && distance == TapDistance::Beyond),
                _ => state.candidates.contains_key(finger) && !(own && down),
            }
            &&& next.candidates.contains_key(finger) ==> next.candidates[finger] == if touch.phase
                == TouchPhase::Started {
                TouchTapCandidate {
                    start_position: touch.point.position,
                    started_in_text_input: targets_text_input,
                }
            } else {
                state.candidates[finger]
            }
        }),
{
    if touch.phase == TouchPhase::Started {
        if forall|f: i32| !#[trigger] state.active.contains_key(f) {
            assert(state.active.dom() =~= Set::<i32>::empty());
        }
        if state.active.dom().is_empty() {
            assert forall|f: i32| !#[trigger] state.active.contains_key(f) by {
                assert(!state.active.dom().contains(f));
            }
        }
    }
}

/// A finger that moved too far since it went down is no tap, wherever it is lifted, and
/// neither is one that got company.
pub proof fn law_drag_or_company_is_no_tap(
    state: TouchesView,
    touch: RawTouch,
    targets_text_input: bool,
    distance: TapDistance,
    up: RawTouch,
    lifted: TapDistance,
)
    requires
        state.wf(),
        state.active.contains_key(up.point.id),
        (touch.phase == TouchPhase::Moved && touch.point.id == up.point.id && distance
            == TapDistance::Beyond) || (touch.phase == TouchPhase::Started && touch.point.id
            != up.point.id && state.next_id < u64::MAX),
    ensures
        ({
            let next = state.after(touch, targets_text_input, distance);
            next.outcome(up, lifted) is Some && up.phase != TouchPhase::Started
                ==> !next.outcome(up, lifted)->0.reopen_keyboard
        }),
{
    assert(state.active.dom().contains(up.point.id));
}

} // verus!
