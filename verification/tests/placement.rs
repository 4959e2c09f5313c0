use popup_placement::LocatorError;
use popup_placement::MonitorInfo;
use popup_placement::PlacementMode;
use popup_placement::PlacementResult;
use popup_placement::Point;
use popup_placement::Size;
use popup_placement::WindowAction;
use popup_placement::compute_placement;
use popup_placement::logical_point_from_raw;

fn monitor(width: i64, height: i64, scale_centi: u32) -> MonitorInfo {
    MonitorInfo { width, height, scale_centi }
}

#[test]
fn scenario_window_fits_below_flips_vertically() {
    let r = compute_placement(
        PlacementMode::FollowCursor,
        Size { width: 400, height: 500 },
        Point { x: 1000, y: 800 },
        &monitor(1920, 1080, 100),
    );
    assert_eq!(r, PlacementResult::At(Point { x: 1000, y: 300 }));
}

#[test]
fn scenario_overflow_both_axes_flips_both() {
    let r = compute_placement(
        PlacementMode::FollowCursor,
        Size { width: 400, height: 500 },
        Point { x: 1800, y: 1000 },
        &monitor(1920, 1080, 100),
    );
    assert_eq!(r, PlacementResult::At(Point { x: 1400, y: 500 }));
}

#[test]
fn scenario_window_wider_than_monitor_clamps_to_zero() {
    let r = compute_placement(
        PlacementMode::FollowCursor,
        Size { width: 2000, height: 500 },
        Point { x: 100, y: 100 },
        &monitor(1920, 1080, 100),
    );
    assert_eq!(r, PlacementResult::At(Point { x: 0, y: 100 }));
}

#[test]
fn clamped_result_stays_on_monitor() {
    let m = monitor(1920, 1080, 100);
    let s = Size { width: 400, height: 500 };
    for &(cx, cy) in &[(0i64, 0i64), (1919, 1079), (960, 540), (1600, 700)] {
        match compute_placement(PlacementMode::FollowCursor, s, Point { x: cx, y: cy }, &m) {
            PlacementResult::At(p) => {
                assert!(p.x >= 0 && p.y >= 0);
                assert!(p.x + s.width <= 1920);
                assert!(p.y + s.height <= 1080);
            }
            PlacementResult::Centered => panic!("follow-cursor mode returned Centered"),
        }
    }
}

#[test]
fn flip_rule_exact_values() {
    let m = monitor(1920, 1080, 100);
    let s = Size { width: 400, height: 500 };
    // Overflowing axis: cursor minus extent. Fitting axis: cursor unchanged.
    let r = compute_placement(PlacementMode::FollowCursor, s, Point { x: 1800, y: 100 }, &m);
    assert_eq!(r, PlacementResult::At(Point { x: 1400, y: 100 }));
}

#[test]
fn centered_mode_is_position_independent() {
    let s = Size { width: 400, height: 500 };
    let a = compute_placement(PlacementMode::Centered, s, Point { x: 0, y: 0 }, &monitor(1920, 1080, 100));
    let b = compute_placement(PlacementMode::Centered, s, Point { x: 5000, y: 77 }, &monitor(0, 0, 100));
    assert_eq!(a, PlacementResult::Centered);
    assert_eq!(a, b);
}

#[test]
fn degenerate_monitor_places_at_origin() {
    let r = compute_placement(
        PlacementMode::FollowCursor,
        Size { width: 400, height: 500 },
        Point { x: 100, y: 100 },
        &monitor(0, 0, 100),
    );
    assert_eq!(r, PlacementResult::At(Point { x: 0, y: 0 }));
}

#[test]
fn dpi_scale_shrinks_monitor_bounds() {
    // 3840 by 2160 physical pixels at a scale of two is 1920 by 1080 logical
    // units, so this behaves exactly like the unscaled monitor.
    let r = compute_placement(
        PlacementMode::FollowCursor,
        Size { width: 400, height: 500 },
        Point { x: 1800, y: 1000 },
        &monitor(3840, 2160, 200),
    );
    assert_eq!(r, PlacementResult::At(Point { x: 1400, y: 500 }));
}

#[test]
fn logical_point_divides_by_scale() {
    let p = logical_point_from_raw(3000, 1500, 150);
    assert_eq!(p, Point { x: 2000, y: 1000 });
}

#[test]
fn logical_point_scale_one_keeps_values() {
    let p = logical_point_from_raw(1234, 567, 100);
    assert_eq!(p, Point { x: 1234, y: 567 });
}

#[test]
fn logical_point_clamps_negative_to_origin() {
    let p = logical_point_from_raw(-50, -1, 100);
    assert_eq!(p, Point { x: 0, y: 0 });
}

#[test]
fn locator_error_is_query_failed() {
    let e = LocatorError::QueryFailed;
    assert_eq!(e, LocatorError::QueryFailed);
    let r: Result<WindowAction, LocatorError> = Err(e);
    assert!(r.is_err());
}
