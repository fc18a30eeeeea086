//! Pure screen geometry: centering a window horizontally, centering it
//! completely, and the fixed resize rule.

use vstd::prelude::*;

verus! {

/// Vertical offset, in physical pixels, from the top edge of the screen to
/// the main window when it is positioned top-center.
pub const TOP_OFFSET: i32 = 54;

/// The width every resize request pins the window to, in logical units.
pub const FIXED_WIDTH: u32 = 600;

/// A width/height pair, used both for a monitor's usable area and for a
/// window's outer size.
#[derive(Clone, Copy, PartialEq, Eq, Structural, Debug)]
pub struct Dimensions {
    pub width: u32,
    pub height: u32,
}

/// An absolute on-screen position in physical pixels.
#[derive(Clone, Copy, PartialEq, Eq, Structural, Debug)]
pub struct Position {
    pub x: i32,
    pub y: i32,
}

/// The signed offset that centers an extent of size `w` inside an extent of
/// size `m`, truncating toward zero as the machine division does.
pub open spec fn center_offset(m: int, w: int) -> int {
    if m >= w {
        (m - w) / 2
    } else {
        -((w - m) / 2)
    }
}

/// Computes the top-center position for a window: horizontally centered on
/// the monitor, vertically at the given offset from the top edge.
///
/// The result is independent of either height: only the two widths and the
/// offset appear in the contract.
pub fn compute_top_center(monitor: Dimensions, window: Dimensions, y_offset: i32) -> (r: Position)
    requires
        monitor.width <= i32::MAX,
        window.width <= i32::MAX,
    ensures
        r.x == center_offset(monitor.width as int, window.width as int),
        r.y == y_offset,
        window.width <= monitor.width ==> r.x == (monitor.width - window.width) as int / 2,
        window.width <= monitor.width ==> r.x >= 0,
{
    let x: i32 = if monitor.width >= window.width {
        ((monitor.width - window.width) / 2) as i32
    } else {
        let half: u32 = (window.width - monitor.width) / 2;
        -(half as i32)
    };
    Position { x, y: y_offset }
}

/// Computes the fully centered position for a window: centered on the
/// monitor along both axes.
pub fn compute_full_center(monitor: Dimensions, window: Dimensions) -> (r: Position)
    requires
        monitor.width <= i32::MAX,
        window.width <= i32::MAX,
        monitor.height <= i32::MAX,
        window.height <= i32::MAX,
    ensures
        r.x == center_offset(monitor.width as int, window.width as int),
        r.y == center_offset(monitor.height as int, window.height as int),
        window.height <= monitor.height ==> r.y == (monitor.height - window.height) as int / 2,
        window.height <= monitor.height ==> r.y >= 0,
{
    let x: i32 = if monitor.width >= window.width {
        ((monitor.width - window.width) / 2) as i32
    } else {
        let half: u32 = (window.width - monitor.width) / 2;
        -(half as i32)
    };
    let y: i32 = if monitor.height >= window.height {
        ((monitor.height - window.height) / 2) as i32
    } else {
        let half: u32 = (window.height - monitor.height) / 2;
        -(half as i32)
    };
    Position { x, y }
}

/// The size a height-only resize request results in: the width is pinned to
/// `FIXED_WIDTH` whatever the window's prior size was; only the height is
/// taken from the request.
pub fn resize_for_height(height: u32) -> (r: Dimensions)
    ensures
        r.width == FIXED_WIDTH,
        r.height == height,
{
    Dimensions { width: FIXED_WIDTH, height }
}

} // verus!
