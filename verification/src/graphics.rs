//! What a drawing canvas needs of the panel: its size, and the pixels that
//! fall on it.

use vstd::prelude::*;
use crate::{DISPLAY_HEIGHT, DISPLAY_WIDTH};

verus! {

/// Extent of a canvas, in pixels.
#[derive(Clone, Copy, Debug, PartialEq, Eq, Structural)]
pub struct Size {
    /// Pixels along x.
    pub width: u32,
    /// Pixels along y.
    pub height: u32,
}

/// A position on the canvas, which may lie outside the panel, and the color
/// to give it.
#[derive(Clone, Copy, Debug)]
pub struct Pixel<C> {
    /// Position along x.
    pub x: i32,
    /// Position along y.
    pub y: i32,
    /// Color of the pixel.
    pub color: C,
}

/// The size of the panel.
pub open spec fn spec_panel_size() -> Size {
    Size { width: DISPLAY_WIDTH as u32, height: DISPLAY_HEIGHT as u32 }
}

/// Returns the size of the panel.
#[verifier::when_used_as_spec(spec_panel_size)]
pub fn panel_size() -> (size: Size)
    ensures
        size == spec_panel_size(),
        size.width == 250,
        size.height == 122,
{
    Size { width: DISPLAY_WIDTH as u32, height: DISPLAY_HEIGHT as u32 }
}

/// Whether the position `(x, y)` lies in the panel's bounding box, which
/// starts at the origin and has the panel's size.
pub open spec fn spec_in_bounding_box(x: int, y: int) -> bool {
    0 <= x < DISPLAY_WIDTH as int && 0 <= y < DISPLAY_HEIGHT as int
}

/// Calls `Rectangle::contains` of `embedded-graphics-core` on the rectangle
/// that starts at the origin and has the given size.
///
/// That function first asks the point to lie at or after the top left corner,
/// here the origin. It then takes the bottom right corner, which is the top
/// left corner moved by the size less one in each direction and exists only
/// where neither extent is zero, and asks the point to lie at or before it.
/// Together that is `0 <= x < width` and `0 <= y < height`. The extents must
/// fit in an `i32`, as the corner is computed in that type.
#[verifier::external_body]
fn rectangle_at_origin_contains(width: u32, height: u32, x: i32, y: i32) -> (inside: bool)
    requires
        width <= i32::MAX,
        height <= i32::MAX,
    ensures
        inside == (0 <= x < width && 0 <= y < height),
{
    embedded_graphics_core::primitives::Rectangle::new(
        embedded_graphics_core::geometry::Point::zero(),
        embedded_graphics_core::geometry::Size::new(width, height),
    ).contains(embedded_graphics_core::geometry::Point::new(x, y))
}

/// Tells whether the position `(x, y)` lies in the panel's bounding box.
pub fn in_bounding_box(x: i32, y: i32) -> (inside: bool)
    ensures
        inside == spec_in_bounding_box(x as int, y as int),
{
    let size = panel_size();
    rectangle_at_origin_contains(size.width, size.height, x, y)
}

} // verus!
