//! Popup window planning: the per-window entry points that turn a toggle
//! request, the configured size, the cursor query outcome and the monitor
//! into the action the window presenter is to carry out.

use vstd::prelude::*;

use crate::geometry::MonitorInfo;
use crate::geometry::Point;
use crate::geometry::Size;
use crate::locator::LocatorError;
use crate::locator::get_cursor_position;
use crate::placement::PlacementMode;
use crate::placement::PlacementResult;
use crate::placement::compute_placement;
use crate::placement::placement_spec;

verus! {

/// Default popup width in logical units, used when no width is configured.
pub const DEFAULT_WIDTH: i64 = 400;

/// Default popup height in logical units, used when no height is
/// configured.
pub const DEFAULT_HEIGHT: i64 = 500;

/// Fixed extents of the OCR panel, in logical units.
pub const OCR_WIDTH: i64 = 800;

pub const OCR_HEIGHT: i64 = 400;

/// Minimum extents of the OCR panel, in logical units.
pub const OCR_MIN_WIDTH: i64 = 600;

pub const OCR_MIN_HEIGHT: i64 = 400;

/// Everything the window presenter needs to materialize one window: its
/// size, an optional minimum size, where to put it, and its chrome flags.
#[derive(Clone, Debug, PartialEq)]
pub struct WindowPlan {
    pub size: Size,
    pub min_size: Option<Size>,
    pub placement: PlacementResult,
    pub always_on_top: bool,
    pub skip_taskbar: bool,
    pub focused: bool,
    pub visible: bool,
}

/// What a toggle request resolves to: close the window that is already
/// open, or open a new one as planned.
#[derive(Clone, Debug, PartialEq)]
pub enum WindowAction {
    Close,
    Open(WindowPlan),
}

/// The plan for a transient follow-cursor popup: the configured size at the
/// flip-clamped cursor position, on top of other windows, focused, kept out
/// of the taskbar, and created hidden (the host shows it once its content
/// is ready).
pub open spec fn follow_cursor_plan(size: Size, cursor: Point, monitor: MonitorInfo) -> WindowPlan {
    WindowPlan {
        size,
        min_size: Option::None,
        placement: placement_spec(PlacementMode::FollowCursor, size, cursor, monitor),
        always_on_top: true,
        skip_taskbar: true,
        focused: true,
        visible: false,
    }
}

/// The plan for the persistent panel: the configured size, centered by the
/// host, listed in the taskbar.
pub open spec fn centered_plan(size: Size) -> WindowPlan {
    WindowPlan {
        size,
        min_size: Option::None,
        placement: PlacementResult::Centered,
        always_on_top: true,
        skip_taskbar: false,
        focused: true,
        visible: false,
    }
}

/// The plan for the OCR panel: fixed size with a minimum, centered,
/// focused, shown at once.
pub open spec fn ocr_plan() -> WindowPlan {
    WindowPlan {
        size: Size { width: OCR_WIDTH, height: OCR_HEIGHT },
        min_size: Option::Some(Size { width: OCR_MIN_WIDTH, height: OCR_MIN_HEIGHT }),
        placement: PlacementResult::Centered,
        always_on_top: false,
        skip_taskbar: false,
        focused: true,
        visible: true,
    }
}

/// One configured dimension: the configured value when it is present and
/// sensible (nonnegative and bounded), the fallback otherwise.
pub open spec fn config_dim(v: Option<i64>, fallback: i64) -> i64 {
    match v {
        Option::Some(d) => if 0 <= d && d <= crate::geometry::MAX_EXTENT {
            d
        } else {
            fallback
        },
        Option::None => fallback,
    }
}

/// What `window_size_from_config` returns.
pub open spec fn spec_window_size(width: Option<i64>, height: Option<i64>) -> Size {
    Size {
        width: config_dim(width, DEFAULT_WIDTH),
        height: config_dim(height, DEFAULT_HEIGHT),
    }
}

/// The popup size to use for a request, from the configured dimensions:
/// each configured value is taken as it stands when it is nonnegative and
/// bounded, and replaced by the default otherwise.
pub fn window_size_from_config(width: Option<i64>, height: Option<i64>) -> (r: Size)
    ensures
        r == spec_window_size(width, height),
        r.wf(),
{
    let w = match width {
        Some(d) => if 0 <= d && d <= crate::geometry::MAX_EXTENT {
            d
        } else {
            DEFAULT_WIDTH
        },
        None => DEFAULT_WIDTH,
    };
    let h = match height {
        Some(d) => if 0 <= d && d <= crate::geometry::MAX_EXTENT {
            d
        } else {
            DEFAULT_HEIGHT
        },
        None => DEFAULT_HEIGHT,
    };
    Size { width: w, height: h }
}

/// The toggle rule shared by the transient follow-cursor popups: close an
/// already-open window; otherwise plan a follow-cursor window from the
/// cursor query's outcome, aborting the request when the query failed.
fn follow_cursor_action(
    already_open: bool,
    size: Size,
    cursor: Result<Point, LocatorError>,
    monitor: &MonitorInfo,
) -> (r: Result<WindowAction, LocatorError>)
    requires
        size.wf(),
        monitor.wf(),
        cursor matches Ok(p) ==> 0 <= p.x <= i32::MAX * 100 && 0 <= p.y <= i32::MAX * 100,
    ensures
        already_open ==> r == Ok::<WindowAction, LocatorError>(WindowAction::Close),
        !already_open ==> (cursor matches Err(e) ==> r == Err::<WindowAction, LocatorError>(e)),
        !already_open ==> (cursor matches Ok(p) ==> r == Ok::<WindowAction, LocatorError>(
            WindowAction::Open(follow_cursor_plan(size, p, *monitor)),
        )),
{
    if already_open {
        Ok(WindowAction::Close)
    } else {
        match cursor {
            Err(e) => Err(e),
            Ok(p) => {
                let placement = compute_placement(PlacementMode::FollowCursor, size, p, monitor);
                Ok(
                    WindowAction::Open(
                        WindowPlan {
                            size,
                            min_size: None,
                            placement,
                            always_on_top: true,
                            skip_taskbar: true,
                            focused: true,
                            visible: false,
                        },
                    ),
                )
            },
        }
    }
}

/// Resolve a toggle of the selection-translation popup: close it when it is
/// already open, otherwise open it at the flip-clamped cursor position.
/// The request aborts, and no window is to be presented, when the cursor
/// query failed.
pub fn translate_window(
    already_open: bool,
    size: Size,
    cursor: Result<Point, LocatorError>,
    monitor: &MonitorInfo,
) -> (r: Result<WindowAction, LocatorError>)
    requires
        size.wf(),
        monitor.wf(),
        cursor matches Ok(p) ==> 0 <= p.x <= i32::MAX * 100 && 0 <= p.y <= i32::MAX * 100,
    ensures
        already_open ==> r == Ok::<WindowAction, LocatorError>(WindowAction::Close),
        !already_open ==> (cursor matches Err(e) ==> r == Err::<WindowAction, LocatorError>(e)),
        !already_open ==> (cursor matches Ok(p) ==> r == Ok::<WindowAction, LocatorError>(
            WindowAction::Open(follow_cursor_plan(size, p, *monitor)),
        )),
{
    follow_cursor_action(already_open, size, cursor, monitor)
}

/// Resolve a toggle of the popup fed by an outside text source: the same
/// rule as the selection-translation popup. The text itself never reaches
/// the placement engine; the host hands it to the window's content.
pub fn popclip_window(
    already_open: bool,
    size: Size,
    cursor: Result<Point, LocatorError>,
    monitor: &MonitorInfo,
) -> (r: Result<WindowAction, LocatorError>)
    requires
        size.wf(),
        monitor.wf(),
        cursor matches Ok(p) ==> 0 <= p.x <= i32::MAX * 100 && 0 <= p.y <= i32::MAX * 100,
    ensures
        already_open ==> r == Ok::<WindowAction, LocatorError>(WindowAction::Close),
        !already_open ==> (cursor matches Err(e) ==> r == Err::<WindowAction, LocatorError>(e)),
        !already_open ==> (cursor matches Ok(p) ==> r == Ok::<WindowAction, LocatorError>(
            WindowAction::Open(follow_cursor_plan(size, p, *monitor)),
        )),
{
    follow_cursor_action(already_open, size, cursor, monitor)
}

/// Resolve a toggle of the persistent panel: close it when it is already
/// open, otherwise open it centered at the configured size. The cursor is
/// never consulted, so the outcome is independent of where the pointer is.
pub fn persistent_window(already_open: bool, size: Size) -> (r: WindowAction)
    ensures
        already_open ==> r == WindowAction::Close,
        !already_open ==> r == WindowAction::Open(centered_plan(size)),
{
    if already_open {
        WindowAction::Close
    } else {
        WindowAction::Open(
            WindowPlan {
                size,
                min_size: None,
                placement: PlacementResult::Centered,
                always_on_top: true,
                skip_taskbar: false,
                focused: true,
                visible: false,
            },
        )
    }
}

/// Resolve a toggle of the OCR panel: close it when it is already open,
/// otherwise open it centered at its fixed size.
pub fn ocr_window(already_open: bool) -> (r: WindowAction)
    ensures
        already_open ==> r == WindowAction::Close,
        !already_open ==> r == WindowAction::Open(ocr_plan()),
{
    if already_open {
        WindowAction::Close
    } else {
        WindowAction::Open(build_ocr_window())
    }
}

/// The OCR panel's plan: fixed 800 by 400 logical units with a minimum of
/// 600 by 400, centered by the host and focused.
pub fn build_ocr_window() -> (r: WindowPlan)
    ensures
        r == ocr_plan(),
{
    WindowPlan {
        size: Size { width: OCR_WIDTH, height: OCR_HEIGHT },
        min_size: Some(Size { width: OCR_MIN_WIDTH, height: OCR_MIN_HEIGHT }),
        placement: PlacementResult::Centered,
        always_on_top: false,
        skip_taskbar: false,
        focused: true,
        visible: true,
    }
}

/// Plan one popup window from the raw collaborator inputs: the configured
/// dimensions, the raw monitor query result, and the mode. A centered
/// window never consults the cursor, so its plan is fixed by the
/// configuration; a follow-cursor window queries the pointer here, and the
/// request aborts exactly when that query fails.
pub fn build_translate_window(
    mode: PlacementMode,
    config_width: Option<i64>,
    config_height: Option<i64>,
    monitor_query: Option<(i64, i64, u32)>,
) -> (r: Result<WindowPlan, LocatorError>)
    ensures
        mode is Centered ==> r == Ok::<WindowPlan, LocatorError>(
            centered_plan(spec_window_size(config_width, config_height)),
        ),
        r matches Err(e) ==> mode is FollowCursor && e == LocatorError::QueryFailed,
        mode is FollowCursor ==> (r matches Ok(plan) ==> {
            &&& plan.size == spec_window_size(config_width, config_height)
            &&& plan.min_size is None
            &&& plan.always_on_top
            &&& plan.skip_taskbar
            &&& plan.focused
            &&& !plan.visible
            &&& plan.placement matches PlacementResult::At(p) && 0 <= p.x && 0 <= p.y
        }),
{
    let size = window_size_from_config(config_width, config_height);
    match mode {
        PlacementMode::Centered => Ok(
            WindowPlan {
                size,
                min_size: None,
                placement: PlacementResult::Centered,
                always_on_top: true,
                skip_taskbar: false,
                focused: true,
                visible: false,
            },
        ),
        PlacementMode::FollowCursor => {
            let monitor = MonitorInfo::from_query(monitor_query);
            match get_cursor_position(&monitor) {
                Err(e) => Err(e),
                Ok(cursor) => {
                    let placement = compute_placement(
                        PlacementMode::FollowCursor,
                        size,
                        cursor,
                        &monitor,
                    );
                    proof {
                        crate::placement::lemma_flip_clamp_nonneg(
                            cursor.x as int,
                            size.width as int,
                            monitor.logical_width(),
                        );
                        crate::placement::lemma_flip_clamp_nonneg(
                            cursor.y as int,
                            size.height as int,
                            monitor.logical_height(),
                        );
                    }
                    Ok(
                        WindowPlan {
                            size,
                            min_size: None,
                            placement,
                            always_on_top: true,
                            skip_taskbar: true,
                            focused: true,
                            visible: false,
                        },
                    )
                },
            }
        },
    }
}

} // verus!
