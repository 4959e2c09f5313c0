//! Geometric data: sizes, points, and monitor information.
//!
//! All values are integers. Points and sizes are in logical
//! (DPI-independent) units; a `MonitorInfo` carries its extents in physical
//! pixels together with its DPI scale factor in hundredths.

use vstd::prelude::*;

verus! {

/// Largest physical extent (width or height, in pixels) a monitor is
/// accepted with, and largest logical window dimension. Generous enough for
/// any real display while keeping every intermediate product inside `i64`.
pub const MAX_EXTENT: i64 = 1000000000;

/// A window size in logical units.
#[derive(Clone, Copy, Debug, PartialEq, Eq, Structural)]
pub struct Size {
    pub width: i64,
    pub height: i64,
}

impl Size {
    /// A size is well formed when both dimensions are nonnegative and small
    /// enough that sums with cursor coordinates stay inside `i64`.
    pub open spec fn wf(self) -> bool {
        &&& 0 <= self.width <= MAX_EXTENT
        &&& 0 <= self.height <= MAX_EXTENT
    }
}

/// A screen coordinate in logical units.
#[derive(Clone, Copy, Debug, PartialEq, Eq, Structural)]
pub struct Point {
    pub x: i64,
    pub y: i64,
}

/// The active monitor's extents in physical pixels, with its DPI scale
/// factor in hundredths (`100` means a scale of one, `150` a scale of one
/// and a half).
#[derive(Clone, Copy, Debug, PartialEq, Eq, Structural)]
pub struct MonitorInfo {
    pub width: i64,
    pub height: i64,
    pub scale_centi: u32,
}

impl MonitorInfo {
    /// Well-formedness: extents are nonnegative and bounded, and the scale
    /// factor is positive.
    pub open spec fn wf(self) -> bool {
        &&& 0 <= self.width <= MAX_EXTENT
        &&& 0 <= self.height <= MAX_EXTENT
        &&& 1 <= self.scale_centi
    }

    /// The monitor's width in logical units.
    pub open spec fn logical_width(self) -> int {
        self.width * 100 / self.scale_centi as int
    }

    /// The monitor's height in logical units.
    pub open spec fn logical_height(self) -> int {
        self.height * 100 / self.scale_centi as int
    }

    /// Whether a raw monitor query result is usable as it stands.
    pub open spec fn query_ok(width: i64, height: i64, scale_centi: u32) -> bool {
        &&& 0 <= width <= MAX_EXTENT
        &&& 0 <= height <= MAX_EXTENT
        &&& 1 <= scale_centi
    }

    /// The monitor the engine falls back to when the platform query fails:
    /// a zero-sized screen with a scale of one. A wrong monitor size only
    /// degrades positioning, so failure is absorbed here instead of being
    /// surfaced to the placement path.
    pub open spec fn fallback() -> MonitorInfo {
        MonitorInfo { width: 0, height: 0, scale_centi: 100 }
    }

    /// What `from_query` returns: the queried values when they are usable,
    /// the fallback monitor otherwise.
    pub open spec fn spec_from_query(q: Option<(i64, i64, u32)>) -> MonitorInfo {
        match q {
            Option::Some(t) => if MonitorInfo::query_ok(t.0, t.1, t.2) {
                MonitorInfo { width: t.0, height: t.1, scale_centi: t.2 }
            } else {
                MonitorInfo::fallback()
            },
            Option::None => MonitorInfo::fallback(),
        }
    }

    /// Build monitor information from a raw platform query result of
    /// `(width, height, scale_centi)` physical values, absorbing a failed
    /// or nonsensical query into the fallback monitor.
    pub fn from_query(q: Option<(i64, i64, u32)>) -> (r: MonitorInfo)
        ensures
            r == MonitorInfo::spec_from_query(q),
            r.wf(),
    {
        match q {
            Some((width, height, scale_centi)) => {
                if 0 <= width && width <= MAX_EXTENT && 0 <= height && height <= MAX_EXTENT
                    && 1 <= scale_centi {
                    MonitorInfo { width, height, scale_centi }
                } else {
                    MonitorInfo { width: 0, height: 0, scale_centi: 100 }
                }
            },
            None => MonitorInfo { width: 0, height: 0, scale_centi: 100 },
        }
    }

    /// The monitor's extents converted to logical units.
    pub fn logical_bounds(&self) -> (r: Size)
        requires
            self.wf(),
        ensures
            r.width == self.logical_width(),
            r.height == self.logical_height(),
            0 <= r.width,
            0 <= r.height,
    {
        let w = (self.width * 100) / (self.scale_centi as i64);
        let h = (self.height * 100) / (self.scale_centi as i64);
        Size { width: w, height: h }
    }
}

} // verus!
