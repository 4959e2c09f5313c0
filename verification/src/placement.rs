//! The placement calculator: a pure, per-axis "flip to the other side of the
//! cursor, else clamp to the edge" rule, plus the laws that hold of it.

use vstd::prelude::*;

use crate::geometry::MonitorInfo;
use crate::geometry::Point;
use crate::geometry::Size;

verus! {

/// How a window asks to be positioned.
#[derive(Clone, Copy, Debug, PartialEq, Eq, Structural)]
pub enum PlacementMode {
    /// Anchor the window adjacent to the pointer.
    FollowCursor,
    /// Let the host center the window on the screen.
    Centered,
}

/// The calculator's outcome: a concrete top-left corner, or the directive to
/// center the window.
#[derive(Clone, Copy, Debug, PartialEq, Eq, Structural)]
pub enum PlacementResult {
    At(Point),
    Centered,
}

/// The per-axis flip-clamp rule. `c` is the cursor coordinate, `w` the
/// window extent and `m` the monitor extent, all in logical units: when the
/// window would overflow the monitor's far edge, it flips to the other side
/// of the cursor, and floors at the origin if it then sticks out on the near
/// side.
pub open spec fn flip_clamp(c: int, w: int, m: int) -> int {
    if c + w > m {
        if c - w < 0 {
            0
        } else {
            c - w
        }
    } else {
        c
    }
}

/// The point a follow-cursor window is placed at: the flip-clamp rule
/// applied independently to each axis, against the monitor's logical
/// extents.
pub open spec fn follow_cursor_point(size: Size, cursor: Point, monitor: MonitorInfo) -> Point {
    Point {
        x: flip_clamp(cursor.x as int, size.width as int, monitor.logical_width()) as i64,
        y: flip_clamp(cursor.y as int, size.height as int, monitor.logical_height()) as i64,
    }
}

/// What `compute_placement` returns for each mode.
pub open spec fn placement_spec(
    mode: PlacementMode,
    size: Size,
    cursor: Point,
    monitor: MonitorInfo,
) -> PlacementResult {
    match mode {
        PlacementMode::Centered => PlacementResult::Centered,
        PlacementMode::FollowCursor => PlacementResult::At(
            follow_cursor_point(size, cursor, monitor),
        ),
    }
}

/// One axis of the flip-clamp rule on machine integers.
fn flip_clamp_axis(c: i64, w: i64, m: i64) -> (r: i64)
    requires
        0 <= c,
        0 <= w,
        c + w <= i64::MAX,
    ensures
        r == flip_clamp(c as int, w as int, m as int),
{
    if c + w > m {
        let flipped = c - w;
        if flipped < 0 {
            0
        } else {
            flipped
        }
    } else {
        c
    }
}

/// Combine the requested window size, the cursor position and the monitor
/// bounds into a placement. Pure: the outcome depends on the arguments
/// alone. In `Centered` mode the window size, cursor and monitor are
/// ignored; in `FollowCursor` mode the flip-clamp rule is applied to each
/// axis against the monitor's logical extents.
pub fn compute_placement(
    mode: PlacementMode,
    window_size: Size,
    cursor: Point,
    monitor: &MonitorInfo,
) -> (r: PlacementResult)
    requires
        window_size.wf(),
        monitor.wf(),
        0 <= cursor.x,
        0 <= cursor.y,
        cursor.x + window_size.width <= i64::MAX,
        cursor.y + window_size.height <= i64::MAX,
    ensures
        r == placement_spec(mode, window_size, cursor, *monitor),
{
    match mode {
        PlacementMode::Centered => PlacementResult::Centered,
        PlacementMode::FollowCursor => {
            let bounds = monitor.logical_bounds();
            let x = flip_clamp_axis(cursor.x, window_size.width, bounds.width);
            let y = flip_clamp_axis(cursor.y, window_size.height, bounds.height);
            PlacementResult::At(Point { x, y })
        },
    }
}

/// Clamp correctness, per axis: when the window extent fits the monitor
/// extent and the cursor lies on the monitor, the flip-clamp rule keeps the
/// whole window on the monitor.
pub proof fn lemma_flip_clamp_in_bounds(c: int, w: int, m: int)
    requires
        0 <= c <= m,
        0 <= w <= m,
    ensures
        0 <= flip_clamp(c, w, m),
        flip_clamp(c, w, m) + w <= m,
{
}

/// The flip-clamp rule never goes below the origin: with a nonnegative
/// cursor coordinate and window extent the result is nonnegative, whatever
/// the monitor extent.
pub proof fn lemma_flip_clamp_nonneg(c: int, w: int, m: int)
    requires
        0 <= c,
        0 <= w,
    ensures
        0 <= flip_clamp(c, w, m),
{
}

/// Clamp correctness: for every cursor on the monitor and every window no
/// larger than the monitor, the follow-cursor point keeps the whole window
/// inside the monitor's logical bounds on both axes.
pub proof fn lemma_clamp_correct(size: Size, cursor: Point, monitor: MonitorInfo)
    requires
        0 <= cursor.x <= monitor.logical_width(),
        0 <= cursor.y <= monitor.logical_height(),
        0 <= size.width <= monitor.logical_width(),
        0 <= size.height <= monitor.logical_height(),
    ensures
        ({
            let p = follow_cursor_point(size, cursor, monitor);
            &&& 0 <= p.x
            &&& 0 <= p.y
            &&& p.x + size.width <= monitor.logical_width()
            &&& p.y + size.height <= monitor.logical_height()
        }),
{
    lemma_flip_clamp_in_bounds(cursor.x as int, size.width as int, monitor.logical_width());
    lemma_flip_clamp_in_bounds(cursor.y as int, size.height as int, monitor.logical_height());
}

/// The flip rule, per axis: when the window would overflow the monitor's
/// far edge, the result is the cursor coordinate minus the window extent,
/// floored at zero; otherwise it is the cursor coordinate unchanged.
pub proof fn lemma_flip_rule(c: int, w: int, m: int)
    ensures
        c + w > m ==> flip_clamp(c, w, m) == vstd::math::max(0, c - w),
        c + w <= m ==> flip_clamp(c, w, m) == c,
{
}

/// Centered mode is position-independent: the result is the same whatever
/// cursor and monitor are passed in.
pub proof fn lemma_centered_position_independent(
    size: Size,
    cursor1: Point,
    monitor1: MonitorInfo,
    cursor2: Point,
    monitor2: MonitorInfo,
)
    ensures
        placement_spec(PlacementMode::Centered, size, cursor1, monitor1) == placement_spec(
            PlacementMode::Centered,
            size,
            cursor2,
            monitor2,
        ),
{
}

/// Degenerate monitor: when both logical extents are zero and the cursor
/// coordinate does not exceed the window extent on either axis, the
/// follow-cursor placement lands at the origin.
pub proof fn lemma_degenerate_monitor(size: Size, cursor: Point, monitor: MonitorInfo)
    requires
        monitor.wf(),
        monitor.width == 0,
        monitor.height == 0,
        0 <= cursor.x <= size.width,
        0 <= cursor.y <= size.height,
    ensures
        placement_spec(PlacementMode::FollowCursor, size, cursor, monitor) == PlacementResult::At(
            Point { x: 0, y: 0 },
        ),
{
    assert(monitor.logical_width() == 0) by {
        vstd::arithmetic::div_mod::lemma_div_of0(monitor.scale_centi as int);
    }
    assert(monitor.logical_height() == 0) by {
        vstd::arithmetic::div_mod::lemma_div_of0(monitor.scale_centi as int);
    }
}

} // verus!
