//! The cursor locator: queries the pointer's position in physical pixels
//! and converts it to logical units with the active monitor's scale factor.

use vstd::prelude::*;

use crate::geometry::MonitorInfo;
use crate::geometry::Point;

verus! {

/// Why a cursor query can fail.
#[derive(Clone, Copy, Debug, PartialEq, Eq, Structural)]
pub enum LocatorError {
    /// The operating system's pointer query reported failure.
    QueryFailed,
}

/// Relies on `mouse_position::mouse_position::Mouse::get_mouse_position`:
/// it returns the pointer's position in physical pixels, or `Mouse::Error`
/// when the query reports failure. Nothing can be promised of the
/// coordinates themselves: they are machine state. On Linux the underlying
/// call aborts the process when no X display can be opened at all, so this
/// must only run where a display server is present.
#[verifier::external_body]
fn query_pointer_raw() -> (r: Option<(i32, i32)>) {
    match mouse_position::mouse_position::Mouse::get_mouse_position() {
        mouse_position::mouse_position::Mouse::Position { x, y } => Some((x, y)),
        mouse_position::mouse_position::Mouse::Error => None,
    }
}

/// One physical coordinate converted to logical units: one hundred times
/// the physical value divided by the scale factor in hundredths, with
/// coordinates left of or above the primary monitor's origin clamped to
/// zero.
pub open spec fn logical_coord(raw: int, scale_centi: int) -> int {
    if raw <= 0 {
        0
    } else {
        raw * 100 / scale_centi
    }
}

/// Convert a raw physical-pixel pointer position to a logical-unit point
/// with the given scale factor.
pub fn logical_point_from_raw(raw_x: i32, raw_y: i32, scale_centi: u32) -> (r: Point)
    requires
        1 <= scale_centi,
    ensures
        r.x == logical_coord(raw_x as int, scale_centi as int),
        r.y == logical_coord(raw_y as int, scale_centi as int),
        0 <= r.x <= i32::MAX * 100,
        0 <= r.y <= i32::MAX * 100,
{
    let x = logical_axis_from_raw(raw_x, scale_centi);
    let y = logical_axis_from_raw(raw_y, scale_centi);
    Point { x, y }
}

/// One axis of the physical-to-logical conversion.
fn logical_axis_from_raw(raw: i32, scale_centi: u32) -> (r: i64)
    requires
        1 <= scale_centi,
    ensures
        r == logical_coord(raw as int, scale_centi as int),
        0 <= r,
        raw > 0 ==> r <= raw * 100,
{
    if raw <= 0 {
        0
    } else {
        let scaled = (raw as i64) * 100;
        let scale = scale_centi as i64;
        let q = scaled / scale;
        proof {
            vstd::arithmetic::div_mod::lemma_div_basics_5(scaled as int, scale as int);
            vstd::arithmetic::div_mod::lemma_div_pos_is_pos(scaled as int, scale as int);
        }
        q
    }
}

/// Query the pointer and hand back its position in logical units, using
/// the monitor's scale factor. The position itself is machine state, so
/// only its shape is promised: a success carries a nonnegative logical
/// point, and the only failure is `QueryFailed`, reported exactly when the
/// operating system's query fails.
pub fn get_cursor_position(monitor: &MonitorInfo) -> (r: Result<Point, LocatorError>)
    requires
        monitor.wf(),
    ensures
        r matches Ok(p) ==> 0 <= p.x <= i32::MAX * 100 && 0 <= p.y <= i32::MAX * 100,
        r matches Err(e) ==> e == LocatorError::QueryFailed,
{
    match query_pointer_raw() {
        Some((raw_x, raw_y)) => Ok(logical_point_from_raw(raw_x, raw_y, monitor.scale_centi)),
        None => Err(LocatorError::QueryFailed),
    }
}

} // verus!
