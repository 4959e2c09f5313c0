//! Popup-window placement engine.
//!
//! Given a request to show a small auxiliary window, this library computes
//! the window's on-screen position and size so that it appears adjacent to
//! the cursor (or centered, for persistent windows) without spilling off the
//! visible monitor area, accounting for per-monitor DPI scaling.
//!
//! Unit convention: every coordinate and extent in this crate is an integer.
//! Logical (DPI-independent) units are `i64`; a monitor's DPI scale factor is
//! carried in hundredths (`scale_centi`, so `100` means a scale of one), and
//! a logical value is a physical pixel value times one hundred divided by
//! `scale_centi`, rounded toward zero.

pub mod geometry;
pub mod locator;
pub mod placement;
pub mod popup;

pub use geometry::MonitorInfo;
pub use geometry::Point;
pub use geometry::Size;
pub use locator::LocatorError;
pub use locator::get_cursor_position;
pub use locator::logical_point_from_raw;
pub use placement::PlacementMode;
pub use placement::PlacementResult;
pub use placement::compute_placement;
pub use popup::WindowAction;
pub use popup::WindowPlan;
pub use popup::build_ocr_window;
pub use popup::build_translate_window;
pub use popup::ocr_window;
pub use popup::persistent_window;
pub use popup::popclip_window;
pub use popup::translate_window;
pub use popup::window_size_from_config;

