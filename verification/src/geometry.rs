//! Screen geometry: which part of a window is hidden by the soft keyboard and
//! by the system bars, in device pixels.

use vstd::prelude::*;
use vstd::set_lib::lemma_int_range;
use vstd::set_lib::lemma_len_subset;
use vstd::set_lib::lemma_set_disjoint_lens;
use vstd::set_lib::set_int_range;

verus! {

/// A rectangle in device pixels.
#[derive(Clone, Copy, Debug, PartialEq, Eq, Structural)]
pub struct Rect {
    pub top: i32,
    pub left: i32,
    pub width: i32,
    pub height: i32,
}

/// A region of the screen that content should keep clear of, one rectangle per
/// edge of the screen.
#[derive(Clone, Copy, Debug, PartialEq, Eq, Structural)]
pub struct AvoidArea {
    pub visible: bool,
    pub left_rect: Rect,
    pub top_rect: Rect,
    pub right_rect: Rect,
    pub bottom_rect: Rect,
}

/// What an avoid area is reserved for.
#[derive(Clone, Copy, Debug, PartialEq, Eq, Structural)]
pub enum AvoidAreaType {
    System,
    Cutout,
    SystemGesture,
    Keyboard,
    NavigationIndicator,
    Unknown(i32),
}

/// One length per edge of a window, in device pixels.
#[derive(Clone, Copy, Debug, PartialEq, Eq, Structural)]
pub struct Edges {
    pub top: i32,
    pub right: i32,
    pub bottom: i32,
    pub left: i32,
}

/// What the system reports about one window at one moment.
#[derive(Clone, Copy, Debug, PartialEq, Eq, Structural)]
pub struct WindowGeometry {
    /// The drawable surface, relative to the window.
    pub content_rect: Rect,
    /// The window, relative to the screen.
    pub window_rect: Rect,
    pub system: Option<AvoidArea>,
    pub cutout: Option<AvoidArea>,
    pub system_gesture: Option<AvoidArea>,
    pub keyboard: Option<AvoidArea>,
    pub navigation_indicator: Option<AvoidArea>,
}

/// The larger of two integers.
pub open spec fn larger(a: int, b: int) -> int {
    if a >= b {
        a
    } else {
        b
    }
}

/// The smaller of two integers.
pub open spec fn smaller(a: int, b: int) -> int {
    if a <= b {
        a
    } else {
        b
    }
}

/// The `i32` nearest to `v`.
pub open spec fn nearest_i32(v: int) -> int {
    if v < i32::MIN {
        i32::MIN as int
    } else if v > i32::MAX {
        i32::MAX as int
    } else {
        v
    }
}

/// Adds two `i32` values, stopping at the ends of the `i32` range.
fn saturating_sum(a: i32, b: i32) -> (r: i32)
    ensures
        r == nearest_i32(a + b),
{
    let wide: i64 = a as i64 + b as i64;
    if wide < i32::MIN as i64 {
        i32::MIN
    } else if wide > i32::MAX as i64 {
        i32::MAX
    } else {
        wide as i32
    }
}

impl AvoidArea {
    /// The first row below the bottom rectangle.
    pub open spec fn bottom_end(self) -> int {
        nearest_i32(self.bottom_rect.top + self.bottom_rect.height)
    }

    /// Whether row `y` of the screen lies in the bottom rectangle.
    pub open spec fn covers_row(self, y: int) -> bool {
        self.bottom_rect.height > 0 && self.bottom_rect.top <= y < self.bottom_end()
    }
}

/// Whether row `y` lies in the bottom rectangle of an area that may be absent.
pub open spec fn area_covers_row(area: Option<AvoidArea>, y: int) -> bool {
    area is Some && area->0.covers_row(y)
}

impl WindowGeometry {
    /// The first row of the screen below the window.
    pub open spec fn window_bottom(self) -> int {
        nearest_i32(self.window_rect.top + larger(self.window_rect.height as int, 0))
    }

    /// Whether the surface starts at the window's top and has its width to
    /// within one pixel, so that what it lacks in height is reserved space.
    pub open spec fn spans_window(self) -> bool {
        &&& self.content_rect.top == 0
        &&& 0 < self.content_rect.height <= self.window_rect.height
        &&& self.content_rect.width > 0
        &&& self.window_rect.width > 0
        &&& -1 <= self.content_rect.width - self.window_rect.width <= 1
    }

    /// How many rows at the bottom of the window a visible area that reaches
    /// the window's end takes up.
    pub open spec fn bottom_safe(self, area: Option<AvoidArea>) -> int {
        if area is Some && area->0.visible && area->0.bottom_rect.height > 0
            && area->0.bottom_end() >= self.window_bottom() {
            smaller(
                larger(self.window_bottom() - area->0.bottom_rect.top, 0),
                area->0.bottom_rect.height as int,
            )
        } else {
            0
        }
    }

    /// The rows reserved below a surface that spans its window.
    pub open spec fn outside_bottom_safe(self) -> int {
        larger(
            larger(self.bottom_safe(self.system), self.bottom_safe(self.system_gesture)),
            self.bottom_safe(self.navigation_indicator),
        )
    }

    /// The rows reserved above a surface that spans its window.
    pub open spec fn inferred_top_safe(self) -> int {
        if self.spans_window() {
            larger(
                self.window_rect.height - self.content_rect.height - self.outside_bottom_safe(),
                0,
            )
        } else {
            0
        }
    }

    /// The screen row at which the surface starts.
    pub open spec fn layout_top(self) -> int {
        nearest_i32(
            nearest_i32(self.window_rect.top + self.inferred_top_safe()) + self.content_rect.top,
        )
    }

    /// The first screen row below the surface.
    pub open spec fn layout_bottom(self) -> int {
        nearest_i32(self.layout_top() + self.content_rect.height)
    }

    /// Whether row `y` of the screen is taken by the keyboard while that is
    /// visible, or by one of the system's bottom areas.
    pub open spec fn occludes(self, y: int) -> bool {
        ||| (self.keyboard is Some && self.keyboard->0.visible && area_covers_row(
            self.keyboard,
            y,
        ))
        ||| area_covers_row(self.system, y)
        ||| area_covers_row(self.system_gesture, y)
        ||| area_covers_row(self.navigation_indicator, y)
    }

    /// The rows of the surface that are hidden while the keyboard is shown.
    pub open spec fn occluded_rows(self) -> Set<int> {
        Set::new(|y: int| self.layout_top() <= y < self.layout_bottom() && self.occludes(y))
    }

    /// Whether the system reports a keyboard on the screen.
    pub open spec fn keyboard_area_visible(self) -> bool {
        self.keyboard is Some && self.keyboard->0.visible
    }

    /// How many rows of the surface the keyboard, together with the system's
    /// bottom areas, hides: none while no keyboard is shown.
    pub open spec fn keyboard_overlap(self, keyboard_visible: bool) -> nat {
        if self.content_rect.height > 0 && (keyboard_visible || self.keyboard_area_visible()) {
            self.occluded_rows().len()
        } else {
            0
        }
    }

    /// Whether the distance from an area that reaches the window's end to that
    /// end is an `i32`.
    pub open spec fn bottom_safe_in_range(self, area: Option<AvoidArea>) -> bool {
        area is Some && area->0.visible && area->0.bottom_rect.height > 0
            && area->0.bottom_end() >= self.window_bottom() ==> self.window_bottom()
            - area->0.bottom_rect.top >= i32::MIN
    }

    /// Whether every distance that the keyboard overlap is made of is an `i32`.
    pub open spec fn overlap_in_range(self) -> bool {
        self.content_rect.height > 0 && self.spans_window() ==> {
            &&& self.bottom_safe_in_range(self.system)
            &&& self.bottom_safe_in_range(self.system_gesture)
            &&& self.bottom_safe_in_range(self.navigation_indicator)
        }
    }
}

/// The rows in at least one of the half-open intervals.
pub open spec fn covered(intervals: Seq<(i32, i32)>) -> Set<int> {
    Set::new(
        |y: int|
            exists|k: int|
                0 <= k < intervals.len() && (#[trigger] intervals[k]).0 <= y < intervals[k].1,
    )
}

/// Whether the intervals are in the order of their starts.
pub open spec fn sorted_by_start(intervals: Seq<(i32, i32)>) -> bool {
    forall|i: int, j: int| 0 <= i <= j < intervals.len() ==> intervals[i].0 <= intervals[j].0
}

/// Whether every interval is non-empty and lies within `lo..hi`.
pub open spec fn all_within(intervals: Seq<(i32, i32)>, lo: int, hi: int) -> bool {
    forall|k: int|
        0 <= k < intervals.len() ==> lo <= (#[trigger] intervals[k]).0 < intervals[k].1 <= hi
}

/// Inserts an interval behind those that start no later.
fn insert_by_start(intervals: &mut Vec<(i32, i32)>, start: i32, end: i32, lo: i32, hi: i32)
    requires
        sorted_by_start(old(intervals)@),
        all_within(old(intervals)@, lo as int, hi as int),
        lo <= start < end <= hi,
    ensures
        sorted_by_start(final(intervals)@),
        all_within(final(intervals)@, lo as int, hi as int),
        covered(final(intervals)@) == covered(old(intervals)@).union(
            set_int_range(start as int, end as int),
        ),
        final(intervals)@.len() == old(intervals)@.len() + 1,
{
    let ghost before = intervals@;
    let mut at: usize = 0;
    while at < intervals.len() && intervals[at].0 <= start
        invariant
            at <= intervals.len(),
            forall|k: int| 0 <= k < at ==> (#[trigger] intervals@[k]).0 <= start,
        decreases intervals.len() - at,
    {
        at += 1;
    }
    intervals.insert(at, (start, end));
    proof {
        let after = intervals@;
        assert(after == before.insert(at as int, (start, end)));
        assert(after[at as int] == (start, end));
        assert forall|k: int| 0 <= k < after.len() implies (#[trigger] after[k]) == (if k < at {
            before[k]
        } else if k == at {
            (start, end)
        } else {
            before[k - 1]
        }) by {}
        assert forall|y: int| covered(after).contains(y) == covered(before).union(
            set_int_range(start as int, end as int),
        ).contains(y) by {
            if covered(after).contains(y) {
                let k = choose|k: int|
                    0 <= k < after.len() && (#[trigger] after[k]).0 <= y < after[k].1;
                if k < at {
                    assert(before[k] == after[k]);
                } else if k > at {
                    assert(before[k - 1] == after[k]);
                }
            }
            if covered(before).contains(y) {
                let k = choose|k: int|
                    0 <= k < before.len() && (#[trigger] before[k]).0 <= y < before[k].1;
                if k < at {
                    assert(after[k] == before[k]);
                } else {
                    assert(after[k + 1] == before[k]);
                }
            }
        }
        assert(covered(after) =~= covered(before).union(set_int_range(start as int, end as int)));
    }
}

/// A prefix of sorted intervals is a set of rows below `current` together with
/// `current` itself.
proof fn lemma_take_next(intervals: Seq<(i32, i32)>, k: int)
    requires
        0 <= k < intervals.len(),
    ensures
        covered(intervals.take(k + 1)) == covered(intervals.take(k)).union(
            set_int_range(intervals[k].0 as int, intervals[k].1 as int),
        ),
{
    let shorter = intervals.take(k);
    let longer = intervals.take(k + 1);
    assert forall|y: int| covered(longer).contains(y) == covered(shorter).union(
        set_int_range(intervals[k].0 as int, intervals[k].1 as int),
    ).contains(y) by {
        if covered(longer).contains(y) {
            let i = choose|i: int|
                0 <= i < longer.len() && (#[trigger] longer[i]).0 <= y < longer[i].1;
            if i < k {
                assert(shorter[i] == longer[i]);
            }
        }
        if covered(shorter).contains(y) {
            let i = choose|i: int|
                0 <= i < shorter.len() && (#[trigger] shorter[i]).0 <= y < shorter[i].1;
            assert(longer[i] == shorter[i]);
        }
        assert(longer[k] == intervals[k]);
    }
    assert(covered(longer) =~= covered(shorter).union(
        set_int_range(intervals[k].0 as int, intervals[k].1 as int),
    ));
}

/// The number of rows that sorted intervals within `lo..hi` cover together.
fn union_length(intervals: &Vec<(i32, i32)>, lo: i32, hi: i32) -> (total: i32)
    requires
        intervals@.len() > 0,
        sorted_by_start(intervals@),
        all_within(intervals@, lo as int, hi as int),
        hi - lo <= i32::MAX,
    ensures
        total == covered(intervals@).len(),
        covered(intervals@).finite(),
        0 <= total <= hi - lo,
{
    let mut done: i32 = 0;
    let mut current: (i32, i32) = intervals[0];
    // The rows in closed runs, all of them above the current run.
    let ghost mut closed: Set<int> = Set::empty();
    let mut next: usize = 1;
    proof {
        lemma_take_next(intervals@, 0);
        assert(covered(intervals@.take(0)) =~= Set::<int>::empty());
        assert(closed.union(set_int_range(current.0 as int, current.1 as int)) =~= covered(
            intervals@.take(1),
        ));
    }
    while next < intervals.len()
        invariant
            1 <= next <= intervals.len(),
            sorted_by_start(intervals@),
            all_within(intervals@, lo as int, hi as int),
            hi - lo <= i32::MAX,
            lo <= current.0 < current.1 <= hi,
            exists|k: int| 0 <= k < next && (#[trigger] intervals@[k]).0 == current.0,
            forall|k: int| 0 <= k < next ==> (#[trigger] intervals@[k]).0 <= current.1,
            forall|k: int| next <= k < intervals@.len() ==> current.0 <= (#[trigger] intervals@[k]).0,
            closed.finite(),
            done == closed.len(),
            forall|y: int| closed.contains(y) ==> lo <= y < current.0,
            0 <= done <= current.0 - lo,
            covered(intervals@.take(next as int)) == closed.union(
                set_int_range(current.0 as int, current.1 as int),
            ),
        decreases intervals.len() - next,
    {
        let (start, end) = intervals[next];
        proof {
            lemma_take_next(intervals@, next as int);
        }
        if start <= current.1 {
            let ghost run = set_int_range(current.0 as int, current.1 as int);
            if end > current.1 {
                current.1 = end;
            }
            proof {
                assert(run.union(set_int_range(start as int, end as int)) =~= set_int_range(
                    current.0 as int,
                    current.1 as int,
                ));
                assert(closed.union(run).union(set_int_range(start as int, end as int))
                    =~= closed.union(set_int_range(current.0 as int, current.1 as int)));
            }
        } else {
            let ghost run = set_int_range(current.0 as int, current.1 as int);
            proof {
                lemma_int_range(current.0 as int, current.1 as int);
                lemma_set_disjoint_lens(closed, run);
            }
            done = saturating_sum(done, current.1 - current.0);
            current = (start, end);
            proof {
                closed = closed.union(run);
            }
        }
        next += 1;
    }
    proof {
        let run = set_int_range(current.0 as int, current.1 as int);
        lemma_int_range(current.0 as int, current.1 as int);
        lemma_set_disjoint_lens(closed, run);
        assert(intervals@.take(intervals@.len() as int) =~= intervals@);
    }
    saturating_sum(done, current.1 - current.0)
}

/// The larger of a value and zero.
fn at_least_zero(v: i32) -> (r: i32)
    ensures
        r == larger(v as int, 0),
{
    if v > 0 {
        v
    } else {
        0
    }
}

/// The rows at the bottom of the window that an area takes up.
fn bottom_safe_overlap(geometry: &WindowGeometry, area: Option<AvoidArea>) -> (r: i32)
    requires
        geometry.bottom_safe_in_range(area),
    ensures
        r == geometry.bottom_safe(area),
        0 <= r,
{
    let area = match area {
        Some(area) => area,
        None => return 0,
    };
    if !area.visible || area.bottom_rect.height <= 0 {
        return 0;
    }
    let window_bottom: i32 = saturating_sum(
        geometry.window_rect.top,
        at_least_zero(geometry.window_rect.height),
    );
    let start: i32 = area.bottom_rect.top;
    let end: i32 = saturating_sum(area.bottom_rect.top, area.bottom_rect.height);
    if end < window_bottom {
        return 0;
    }
    let rows: i32 = at_least_zero(window_bottom - start);
    if rows < area.bottom_rect.height {
        rows
    } else {
        area.bottom_rect.height
    }
}

/// Adds the rows that an area hides of the layout `lo..hi`.
fn push_bottom_overlap_interval(
    intervals: &mut Vec<(i32, i32)>,
    area: Option<AvoidArea>,
    require_visible: bool,
    lo: i32,
    hi: i32,
)
    requires
        sorted_by_start(old(intervals)@),
        all_within(old(intervals)@, lo as int, hi as int),
    ensures
        sorted_by_start(final(intervals)@),
        all_within(final(intervals)@, lo as int, hi as int),
        covered(final(intervals)@) == covered(old(intervals)@).union(
            Set::new(
                |y: int|
                    lo <= y < hi && area_covers_row(area, y) && (require_visible
                        ==> area->0.visible),
            ),
        ),
{
    let ghost hidden = Set::new(
        |y: int|
            lo <= y < hi && area_covers_row(area, y) && (require_visible ==> area->0.visible),
    );
    let area = match area {
        Some(area) => area,
        None => {
            assert(covered(intervals@).union(hidden) =~= covered(intervals@));
            return;
        },
    };
    if area.bottom_rect.height <= 0 || (require_visible && !area.visible) {
        assert(covered(intervals@).union(hidden) =~= covered(intervals@));
        return;
    }
    let end_of_area: i32 = saturating_sum(area.bottom_rect.top, area.bottom_rect.height);
    let start: i32 = if area.bottom_rect.top > lo {
        area.bottom_rect.top
    } else {
        lo
    };
    let end: i32 = if end_of_area < hi {
        end_of_area
    } else {
        hi
    };
    if end > start {
        insert_by_start(intervals, start, end, lo, hi);
        assert(hidden =~= set_int_range(start as int, end as int));
    } else {
        assert(covered(intervals@).union(hidden) =~= covered(intervals@));
    }
}

/// How many rows of a window's surface are hidden while the soft keyboard is
/// shown, in device pixels; `None` without a geometry.
///
/// The keyboard counts where its area is visible. The system bar, the gesture
/// area and the navigation indicator count with it, each row once.
pub fn keyboard_overlap_from_avoid_area_device_px(
    geometry: Option<WindowGeometry>,
    keyboard_visible: bool,
) -> (overlap: Option<i32>)
    requires
        geometry is Some ==> geometry->0.overlap_in_range(),
    ensures
        overlap is Some <==> geometry is Some,
        geometry is Some ==> overlap->0 == geometry->0.keyboard_overlap(keyboard_visible),
        geometry is Some ==> 0 <= overlap->0 <= larger(geometry->0.content_rect.height as int, 0),
{
    let g = match geometry {
        Some(g) => g,
        None => return None,
    };
    let layout_height: i32 = g.content_rect.height;
    if layout_height <= 0 {
        return Some(0);
    }
    let same_width: bool = g.content_rect.width > 0 && g.window_rect.width > 0
        && g.content_rect.width - g.window_rect.width <= 1 && g.window_rect.width
        - g.content_rect.width <= 1;
    let spans_window: bool = g.content_rect.top == 0 && g.window_rect.height >= layout_height
        && same_width;
    let inferred_top_safe: i32 = if spans_window {
        let mut outside: i32 = bottom_safe_overlap(&g, g.system);
        let gesture: i32 = bottom_safe_overlap(&g, g.system_gesture);
        if gesture > outside {
            outside = gesture;
        }
        let navigation: i32 = bottom_safe_overlap(&g, g.navigation_indicator);
        if navigation > outside {
            outside = navigation;
        }
        at_least_zero(g.window_rect.height - layout_height - outside)
    } else {
        0
    };
    let layout_top: i32 = saturating_sum(
        saturating_sum(g.window_rect.top, inferred_top_safe),
        g.content_rect.top,
    );
    let layout_bottom: i32 = saturating_sum(layout_top, layout_height);

    let keyboard_area_visible: bool = match g.keyboard {
        Some(area) => area.visible,
        None => false,
    };
    if !(keyboard_visible || keyboard_area_visible) {
        return Some(0);
    }
    let mut intervals: Vec<(i32, i32)> = Vec::with_capacity(4);
    assert(covered(intervals@) =~= Set::<int>::empty());
    push_bottom_overlap_interval(&mut intervals, g.keyboard, true, layout_top, layout_bottom);
    push_bottom_overlap_interval(&mut intervals, g.system, false, layout_top, layout_bottom);
    push_bottom_overlap_interval(
        &mut intervals,
        g.system_gesture,
        false,
        layout_top,
        layout_bottom,
    );
    push_bottom_overlap_interval(
        &mut intervals,
        g.navigation_indicator,
        false,
        layout_top,
        layout_bottom,
    );
    assert(covered(intervals@) =~= g.occluded_rows());
    if intervals.len() == 0 {
        assert(covered(intervals@) =~= Set::<int>::empty());
        return Some(0);
    }
    let union_overlap: i32 = union_length(&intervals, layout_top, layout_bottom);
    if union_overlap < layout_height {
        Some(union_overlap)
    } else {
        Some(layout_height)
    }
}

fn distance_to_end_in_range(geometry: &WindowGeometry, area: Option<AvoidArea>) -> (r: bool)
    ensures
        r == geometry.bottom_safe_in_range(area),
{
    let area = match area {
        Some(area) => area,
        None => return true,
    };
    if !area.visible || area.bottom_rect.height <= 0 {
        return true;
    }
    let window_bottom: i32 = saturating_sum(
        geometry.window_rect.top,
        at_least_zero(geometry.window_rect.height),
    );
    if saturating_sum(area.bottom_rect.top, area.bottom_rect.height) < window_bottom {
        return true;
    }
    window_bottom as i64 - area.bottom_rect.top as i64 >= i32::MIN as i64
}

impl WindowGeometry {
    /// Tells whether the keyboard overlap can be computed in `i32`.
    pub fn is_overlap_in_range(&self) -> (r: bool)
        ensures
            r == self.overlap_in_range(),
    {
        let spans_window: bool = self.content_rect.top == 0 && self.content_rect.height > 0
            && self.content_rect.height <= self.window_rect.height && self.content_rect.width > 0
            && self.window_rect.width > 0 && self.content_rect.width - self.window_rect.width <= 1
            && self.window_rect.width - self.content_rect.width <= 1;
        !spans_window || (distance_to_end_in_range(self, self.system)
            && distance_to_end_in_range(self, self.system_gesture) && distance_to_end_in_range(
            self,
            self.navigation_indicator,
        ))
    }

    /// Tells whether the safe area can be computed in `i32`.
    pub fn is_insets_in_range(&self) -> (r: bool)
        ensures
            r == self.insets_in_range(),
    {
        let width: i64 = self.window_rect.width as i64 - self.content_rect.width as i64;
        let right: i64 = width - self.content_rect.left as i64;
        let height: i64 = self.window_rect.height as i64 - self.content_rect.height as i64;
        let bottom: i64 = height - self.content_rect.top as i64;
        let lo: i64 = i32::MIN as i64;
        let hi: i64 = i32::MAX as i64;
        lo <= width && width <= hi && lo <= right && right <= hi && lo <= height && height <= hi
            && lo <= bottom && bottom <= hi
    }
}

/// What one visible avoid area asks for at each edge.
pub open spec fn area_edges(area: Option<AvoidArea>) -> (int, int, int, int) {
    if area is Some && area->0.visible {
        (
            larger(area->0.top_rect.height as int, 0),
            larger(area->0.right_rect.width as int, 0),
            larger(area->0.bottom_rect.height as int, 0),
            larger(area->0.left_rect.width as int, 0),
        )
    } else {
        (0, 0, 0, 0)
    }
}

impl WindowGeometry {
    /// The largest length that the system bar, the cutout and the navigation
    /// indicator ask for, picked per edge by `edge`.
    pub open spec fn widest(self, edge: spec_fn((int, int, int, int)) -> int) -> int {
        larger(
            larger(edge(area_edges(self.system)), edge(area_edges(self.cutout))),
            edge(area_edges(self.navigation_indicator)),
        )
    }

    /// What is left to keep clear at the top of the surface.
    pub open spec fn safe_top(self) -> int {
        larger(
            self.widest(|e: (int, int, int, int)| e.0) - larger(self.content_rect.top as int, 0),
            0,
        )
    }

    /// What is left to keep clear at the right of the surface.
    pub open spec fn safe_right(self) -> int {
        larger(
            self.widest(|e: (int, int, int, int)| e.1) - larger(
                self.window_rect.width - self.content_rect.width - self.content_rect.left,
                0,
            ),
            0,
        )
    }

    /// What is left to keep clear at the bottom of the surface.
    pub open spec fn safe_bottom(self) -> int {
        larger(
            self.widest(|e: (int, int, int, int)| e.2) - larger(
                self.window_rect.height - self.content_rect.height - self.content_rect.top,
                0,
            ),
            0,
        )
    }

    /// What is left to keep clear at the left of the surface.
    pub open spec fn safe_left(self) -> int {
        larger(
            self.widest(|e: (int, int, int, int)| e.3) - larger(self.content_rect.left as int, 0),
            0,
        )
    }

    /// Whether every distance that the safe area is made of is an `i32`.
    pub open spec fn insets_in_range(self) -> bool {
        &&& i32::MIN <= self.window_rect.width - self.content_rect.width <= i32::MAX
        &&& i32::MIN <= self.window_rect.width - self.content_rect.width - self.content_rect.left
            <= i32::MAX
        &&& i32::MIN <= self.window_rect.height - self.content_rect.height <= i32::MAX
        &&& i32::MIN <= self.window_rect.height - self.content_rect.height - self.content_rect.top
            <= i32::MAX
    }
}

/// The edges of one area, none where it is absent or hidden.
fn visible_edges(area: Option<AvoidArea>) -> (r: Edges)
    ensures
        (r.top as int, r.right as int, r.bottom as int, r.left as int) == area_edges(area),
{
    match area {
        Some(area) if area.visible => Edges {
            top: at_least_zero(area.top_rect.height),
            right: at_least_zero(area.right_rect.width),
            bottom: at_least_zero(area.bottom_rect.height),
            left: at_least_zero(area.left_rect.width),
        },
        _ => Edges { top: 0, right: 0, bottom: 0, left: 0 },
    }
}

fn larger_of(a: i32, b: i32) -> (r: i32)
    ensures
        r == larger(a as int, b as int),
{
    if a >= b {
        a
    } else {
        b
    }
}

/// The space that content has to keep clear at each edge of its surface, in
/// device pixels: what the visible areas ask for, less what the surface is
/// already set back from its window. Nothing without a geometry.
pub fn current_safe_area_insets(geometry: Option<WindowGeometry>) -> (insets: Edges)
    requires
        geometry is Some ==> geometry->0.insets_in_range(),
    ensures
        geometry is None ==> insets == (Edges { top: 0, right: 0, bottom: 0, left: 0 }),
        geometry is Some ==> {
            &&& insets.top == geometry->0.safe_top()
            &&& insets.right == geometry->0.safe_right()
            &&& insets.bottom == geometry->0.safe_bottom()
            &&& insets.left == geometry->0.safe_left()
        },
{
    let g = match geometry {
        Some(g) => g,
        None => return Edges { top: 0, right: 0, bottom: 0, left: 0 },
    };
    let system = visible_edges(g.system);
    let cutout = visible_edges(g.cutout);
    let navigation = visible_edges(g.navigation_indicator);
    let top: i32 = larger_of(larger_of(system.top, cutout.top), navigation.top);
    let right: i32 = larger_of(larger_of(system.right, cutout.right), navigation.right);
    let bottom: i32 = larger_of(larger_of(system.bottom, cutout.bottom), navigation.bottom);
    let left: i32 = larger_of(larger_of(system.left, cutout.left), navigation.left);
    let applied_top: i32 = at_least_zero(g.content_rect.top);
    let applied_left: i32 = at_least_zero(g.content_rect.left);
    let applied_right: i32 = at_least_zero(
        g.window_rect.width - g.content_rect.width - g.content_rect.left,
    );
    let applied_bottom: i32 = at_least_zero(
        g.window_rect.height - g.content_rect.height - g.content_rect.top,
    );
    Edges {
        top: at_least_zero(top - applied_top),
        right: at_least_zero(right - applied_right),
        bottom: at_least_zero(bottom - applied_bottom),
        left: at_least_zero(left - applied_left),
    }
}

/// The keyboard never hides more rows than the surface has, and none of a
/// surface without rows.
pub proof fn law_overlap_fits_surface(g: WindowGeometry, keyboard_visible: bool)
    ensures
        g.keyboard_overlap(keyboard_visible) <= larger(g.content_rect.height as int, 0),
        g.occluded_rows().finite(),
{
    if g.layout_top() <= g.layout_bottom() {
        lemma_int_range(g.layout_top(), g.layout_bottom());
        lemma_len_subset(
            g.occluded_rows(),
            set_int_range(g.layout_top(), g.layout_bottom()),
        );
    } else {
        assert(g.occluded_rows() =~= Set::<int>::empty());
    }
}

/// A keyboard that becomes visible never uncovers a row: the overlap with a
/// keyboard shown is at least the overlap without.
pub proof fn law_showing_keyboard_never_uncovers(g: WindowGeometry)
    ensures
        g.keyboard_overlap(false) <= g.keyboard_overlap(true),
{
}

/// A larger set of avoid areas hides at least as many rows: an area that the
/// system adds below the surface never shrinks the overlap, as long as it does
/// not move the surface.
pub proof fn law_more_areas_hide_more(g: WindowGeometry, h: WindowGeometry, keyboard_visible: bool)
    requires
        g.content_rect == h.content_rect,
        g.layout_top() == h.layout_top(),
        g.keyboard_area_visible() ==> h.keyboard_area_visible(),
        forall|y: int| g.occludes(y) ==> h.occludes(y),
    ensures
        g.keyboard_overlap(keyboard_visible) <= h.keyboard_overlap(keyboard_visible),
{
    law_overlap_fits_surface(h, keyboard_visible);
    lemma_len_subset(g.occluded_rows(), h.occluded_rows());
}

/// The overlap only depends on which rows are taken, not on which area takes
/// them: where the keyboard's rectangle already holds the system bar's rows,
/// the bar adds nothing.
pub proof fn law_shared_rows_count_once(g: WindowGeometry)
    requires
        g.content_rect.height > 0,
        g.keyboard_area_visible(),
        forall|y: int|
            g.occludes(y) ==> #[trigger] area_covers_row(g.keyboard, y),
    ensures
        g.keyboard_overlap(true) == Set::new(
            |y: int|
                g.layout_top() <= y < g.layout_bottom() && area_covers_row(g.keyboard, y),
        ).len(),
{
    assert(g.occluded_rows() =~= Set::new(
        |y: int| g.layout_top() <= y < g.layout_bottom() && area_covers_row(g.keyboard, y),
    ));
}

/// No edge of the safe area is negative, and none is larger than what an area
/// asks for at that edge.
pub proof fn law_safe_area_bounds(g: WindowGeometry)
    ensures
        0 <= g.safe_top() <= g.widest(|e: (int, int, int, int)| e.0),
        0 <= g.safe_right() <= g.widest(|e: (int, int, int, int)| e.1),
        0 <= g.safe_bottom() <= g.widest(|e: (int, int, int, int)| e.2),
        0 <= g.safe_left() <= g.widest(|e: (int, int, int, int)| e.3),
{
}

/// Which rows count as hidden, told by the rectangles: those that the keyboard's bottom
/// rectangle takes while the keyboard's area is visible, and those that the bottom
/// rectangle of the system bar, of the gesture area or of the navigation indicator
/// takes, visible or not.
pub proof fn law_hidden_rows(g: WindowGeometry, y: int)
    requires
        i32::MIN <= y < i32::MAX,
    ensures
        g.occludes(y) <==> {
            ||| (g.keyboard is Some && g.keyboard->0.visible && g.keyboard->0.bottom_rect.top <= y
                < g.keyboard->0.bottom_rect.top + g.keyboard->0.bottom_rect.height)
            ||| (g.system is Some && g.system->0.bottom_rect.top <= y
                < g.system->0.bottom_rect.top + g.system->0.bottom_rect.height)
            ||| (g.system_gesture is Some && g.system_gesture->0.bottom_rect.top <= y
                < g.system_gesture->0.bottom_rect.top + g.system_gesture->0.bottom_rect.height)
            ||| (g.navigation_indicator is Some && g.navigation_indicator->0.bottom_rect.top <= y
                < g.navigation_indicator->0.bottom_rect.top
                + g.navigation_indicator->0.bottom_rect.height)
        },
{
}

/// A surface that does not span its window lies where its window and its own place in
/// that put it: the overlap is the number of its rows, counted from the window's top
/// and the surface's top within it, that are hidden.
pub proof fn law_overlap_of_embedded_surface(g: WindowGeometry, keyboard_visible: bool)
    requires
        g.content_rect.height > 0,
        g.content_rect.top != 0 || g.window_rect.height < g.content_rect.height
            || g.content_rect.width <= 0 || g.window_rect.width <= 0 || g.content_rect.width
            - g.window_rect.width > 1 || g.window_rect.width - g.content_rect.width > 1,
        i32::MIN <= g.window_rect.top + g.content_rect.top,
        g.window_rect.top + g.content_rect.top + g.content_rect.height <= i32::MAX,
        keyboard_visible || (g.keyboard is Some && g.keyboard->0.visible),
    ensures
        g.keyboard_overlap(keyboard_visible) == Set::new(
            |y: int|
                g.window_rect.top + g.content_rect.top <= y < g.window_rect.top
                    + g.content_rect.top + g.content_rect.height && g.occludes(y),
        ).len(),
{
    assert(g.occluded_rows() =~= Set::new(
        |y: int|
            g.window_rect.top + g.content_rect.top <= y < g.window_rect.top + g.content_rect.top
                + g.content_rect.height && g.occludes(y),
    ));
}

/// Moving a surface down inside its window hides as much of it as moving the window
/// down by as much.
pub proof fn law_moving_surface_is_moving_window(g: WindowGeometry, d: i32, keyboard_visible: bool)
    requires
        g.content_rect.width - g.window_rect.width > 1 || g.window_rect.width
            - g.content_rect.width > 1,
        i32::MIN <= g.content_rect.top + d <= i32::MAX,
        i32::MIN <= g.window_rect.top + d <= i32::MAX,
        i32::MIN <= g.window_rect.top + g.content_rect.top + d,
        g.window_rect.top + g.content_rect.top + d + g.content_rect.height <= i32::MAX,
    ensures
        ({
            let lower_surface = WindowGeometry {
                content_rect: Rect { top: (g.content_rect.top + d) as i32, ..g.content_rect },
                ..g
            };
            let lower_window = WindowGeometry {
                window_rect: Rect { top: (g.window_rect.top + d) as i32, ..g.window_rect },
                ..g
            };
            lower_surface.keyboard_overlap(keyboard_visible) == lower_window.keyboard_overlap(
                keyboard_visible,
            )
        }),
{
    let lower_surface = WindowGeometry {
        content_rect: Rect { top: (g.content_rect.top + d) as i32, ..g.content_rect },
        ..g
    };
    let lower_window = WindowGeometry {
        window_rect: Rect { top: (g.window_rect.top + d) as i32, ..g.window_rect },
        ..g
    };
    if g.content_rect.height > 0 {
        assert(lower_surface.occluded_rows() =~= lower_window.occluded_rows());
    }
}

/// How many rows at the end of a window that ends before row `bottom` an area is
/// reserved for: none unless it is visible and reaches that end.
pub open spec fn rows_reserved(area: Option<AvoidArea>, bottom: int) -> int {
    match area {
        Some(area) if area.visible && area.bottom_rect.height > 0 && area.bottom_rect.top
            + area.bottom_rect.height >= bottom && area.bottom_rect.top < bottom =>
            if bottom - area.bottom_rect.top < area.bottom_rect.height {
                bottom - area.bottom_rect.top
            } else {
                area.bottom_rect.height as int
            },
        _ => 0,
    }
}

/// A surface that spans its window but for some height lies as low as it can without
/// reaching into what is reserved at the window's end, and never above the window. The
/// overlap is the number of its rows, counted from there, that are hidden.
pub proof fn law_overlap_of_spanning_surface(g: WindowGeometry, keyboard_visible: bool, top: int)
    requires
        g.content_rect.top == 0,
        0 < g.content_rect.height <= g.window_rect.height,
        g.content_rect.width > 0 && g.window_rect.width > 0,
        -1 <= g.content_rect.width - g.window_rect.width <= 1,
        g.window_rect.top + g.window_rect.height <= i32::MAX,
        keyboard_visible || (g.keyboard is Some && g.keyboard->0.visible),
        ({
            let bottom = g.window_rect.top + g.window_rect.height;
            let end = top + g.content_rect.height;
            let system = rows_reserved(g.system, bottom);
            let gesture = rows_reserved(g.system_gesture, bottom);
            let navigation = rows_reserved(g.navigation_indicator, bottom);
            // It keeps clear of every reserved row, unless it has no room to.
            &&& top >= g.window_rect.top
            &&& top == g.window_rect.top || (end + system <= bottom && end + gesture <= bottom
                && end + navigation <= bottom)
            // It could not be any lower.
            &&& end + system >= bottom || end + gesture >= bottom || end + navigation >= bottom
        }),
    ensures
        g.keyboard_overlap(keyboard_visible) == Set::new(
            |y: int| top <= y < top + g.content_rect.height && g.occludes(y),
        ).len(),
{
    let bottom = g.window_rect.top + g.window_rect.height;
    assert(g.bottom_safe(g.system) == rows_reserved(g.system, bottom));
    assert(g.bottom_safe(g.system_gesture) == rows_reserved(g.system_gesture, bottom));
    assert(g.bottom_safe(g.navigation_indicator) == rows_reserved(g.navigation_indicator, bottom));
    assert(top == g.layout_top());
    assert(g.occluded_rows() =~= Set::new(
        |y: int| top <= y < top + g.content_rect.height && g.occludes(y),
    ));
}

/// Nothing is hidden of a surface without rows, and nothing while no keyboard is shown.
pub proof fn law_no_keyboard_hides_nothing(g: WindowGeometry, keyboard_visible: bool)
    requires
        g.content_rect.height <= 0 || (!keyboard_visible && (g.keyboard is None
            || !g.keyboard->0.visible)),
    ensures
        g.keyboard_overlap(keyboard_visible) == 0,
{
}

/// What an area asks for is kept clear at every edge: of the system bar, of the cutout
/// and of the navigation indicator, whichever is visible, no length is left uncovered
/// by the safe area together with what the surface is set back already.
pub proof fn law_safe_area_covers_every_area(g: WindowGeometry, area: AvoidArea)
    requires
        g.system == Some(area) || g.cutout == Some(area) || g.navigation_indicator == Some(area),
        area.visible,
    ensures
        g.safe_top() >= area.top_rect.height || g.safe_top() + g.content_rect.top
            >= area.top_rect.height,
        g.safe_left() >= area.left_rect.width || g.safe_left() + g.content_rect.left
            >= area.left_rect.width,
        g.safe_right() >= area.right_rect.width || g.safe_right() + (g.window_rect.width
            - g.content_rect.width - g.content_rect.left) >= area.right_rect.width,
        g.safe_bottom() >= area.bottom_rect.height || g.safe_bottom() + (g.window_rect.height
            - g.content_rect.height - g.content_rect.top) >= area.bottom_rect.height,
{
}

/// Whether a visible area asks for exactly so much at an edge, picked by `length`.
pub open spec fn asks_for(
    area: Option<AvoidArea>,
    length: spec_fn(AvoidArea) -> i32,
    rows: int,
) -> bool {
    area is Some && area->0.visible && length(area->0) == rows
}

/// Whether the system bar, the cutout or the navigation indicator is visible and asks
/// for exactly so much.
pub open spec fn some_area_asks_for(
    g: WindowGeometry,
    length: spec_fn(AvoidArea) -> i32,
    rows: int,
) -> bool {
    asks_for(g.system, length, rows) || asks_for(g.cutout, length, rows) || asks_for(
        g.navigation_indicator,
        length,
        rows,
    )
}

/// No more is kept clear than an area asks for: at every edge the safe area is empty,
/// or, with what the surface is set back already, just what one of them asks for.
pub proof fn law_safe_area_is_asked_for(g: WindowGeometry)
    ensures
        ({
            let right = g.window_rect.width - g.content_rect.width - g.content_rect.left;
            let bottom = g.window_rect.height - g.content_rect.height - g.content_rect.top;
            let back = |set_back: int|
                if set_back > 0 {
                    set_back
                } else {
                    0
                };
            &&& g.safe_top() >= 0 && g.safe_right() >= 0 && g.safe_bottom() >= 0 && g.safe_left()
                >= 0
            &&& g.safe_top() > 0 ==> some_area_asks_for(
                g,
                |a: AvoidArea| a.top_rect.height,
                g.safe_top() + back(g.content_rect.top as int),
            )
            &&& g.safe_left() > 0 ==> some_area_asks_for(
                g,
                |a: AvoidArea| a.left_rect.width,
                g.safe_left() + back(g.content_rect.left as int),
            )
            &&& g.safe_right() > 0 ==> some_area_asks_for(
                g,
                |a: AvoidArea| a.right_rect.width,
                g.safe_right() + back(right),
            )
            &&& g.safe_bottom() > 0 ==> some_area_asks_for(
                g,
                |a: AvoidArea| a.bottom_rect.height,
                g.safe_bottom() + back(bottom),
            )
        }),
{
}

/// The gesture area and the keyboard take no part in the safe area.
pub proof fn law_safe_area_leaves_out_keyboard(g: WindowGeometry, h: WindowGeometry)
    requires
        g.content_rect == h.content_rect,
        g.window_rect == h.window_rect,
        g.system == h.system,
        g.cutout == h.cutout,
        g.navigation_indicator == h.navigation_indicator,
    ensures
        g.safe_top() == h.safe_top(),
        g.safe_right() == h.safe_right(),
        g.safe_bottom() == h.safe_bottom(),
        g.safe_left() == h.safe_left(),
{
}

/// Whether every coordinate of a rectangle is far from the ends of the `i32` range.
pub open spec fn is_ordinary(rect: Rect) -> bool {
    &&& -0x1000_0000 <= rect.top <= 0x1000_0000
    &&& -0x1000_0000 <= rect.left <= 0x1000_0000
    &&& -0x1000_0000 <= rect.width <= 0x1000_0000
    &&& -0x1000_0000 <= rect.height <= 0x1000_0000
}

/// Whatever the areas, what a window and a surface of ordinary size need is in range:
/// for the safe area always, for the overlap where the areas are ordinary too.
pub proof fn law_ordinary_screens_are_in_range(g: WindowGeometry)
    requires
        is_ordinary(g.content_rect),
        is_ordinary(g.window_rect),
    ensures
        g.insets_in_range(),
        (g.system is Some ==> is_ordinary(g.system->0.bottom_rect)) && (g.system_gesture is Some
            ==> is_ordinary(g.system_gesture->0.bottom_rect)) && (g.navigation_indicator is Some
            ==> is_ordinary(g.navigation_indicator->0.bottom_rect)) ==> g.overlap_in_range(),
{
}

} // verus!
