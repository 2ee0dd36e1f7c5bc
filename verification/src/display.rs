//! Rotation-aware pixel addressing: from a logical coordinate to the byte and
//! the bit of the frame buffer that hold the pixel.

use vstd::prelude::*;
use crate::{BUF_SIZE, DISPLAY_HEIGHT, DISPLAY_WIDTH};

verus! {

/// Display rotation.
#[derive(Clone, Copy, Debug, PartialEq, Eq, Structural)]
pub enum DisplayRotation {
    /// No rotation, normal display.
    Rotate0,
    /// Rotate by 90 degrees clockwise.
    Rotate90,
    /// Rotate by 180 degrees clockwise.
    Rotate180,
    /// Rotate by 270 degrees clockwise.
    Rotate270,
}

/// Extent of the logical grid along x: the panel's width, or its height when
/// the rotation turns the axes.
pub open spec fn logical_width(height: int, width: int, rotation: DisplayRotation) -> int {
    match rotation {
        DisplayRotation::Rotate0 | DisplayRotation::Rotate180 => width,
        DisplayRotation::Rotate90 | DisplayRotation::Rotate270 => height,
    }
}

/// Extent of the logical grid along y.
pub open spec fn logical_height(height: int, width: int, rotation: DisplayRotation) -> int {
    match rotation {
        DisplayRotation::Rotate0 | DisplayRotation::Rotate180 => height,
        DisplayRotation::Rotate90 | DisplayRotation::Rotate270 => width,
    }
}

/// Whether `(x, y)` lies in the logical grid of a `width` by `height` panel
/// under `rotation`.
pub open spec fn in_grid(x: int, y: int, height: int, width: int, rotation: DisplayRotation) -> bool {
    0 <= x < logical_width(height, width, rotation) && 0 <= y < logical_height(
        height,
        width,
        rotation,
    )
}

/// The panel coordinate that the logical coordinate `(x, y)` stands for.
pub open spec fn rotated(x: int, y: int, height: int, width: int, rotation: DisplayRotation) -> (
    int,
    int,
) {
    match rotation {
        DisplayRotation::Rotate0 => (x, y),
        DisplayRotation::Rotate90 => (y, height - 1 - x),
        DisplayRotation::Rotate180 => (width - 1 - x, height - 1 - y),
        DisplayRotation::Rotate270 => (width - 1 - y, x),
    }
}

/// The logical coordinate that stands for the panel coordinate `(nx, ny)`.
pub open spec fn unrotated(nx: int, ny: int, height: int, width: int, rotation: DisplayRotation) -> (
    int,
    int,
) {
    match rotation {
        DisplayRotation::Rotate0 => (nx, ny),
        DisplayRotation::Rotate90 => (height - 1 - ny, nx),
        DisplayRotation::Rotate180 => (width - 1 - nx, height - 1 - ny),
        DisplayRotation::Rotate270 => (ny, width - 1 - nx),
    }
}

/// Turns a logical coordinate into the panel coordinate it stands for.
///
/// The coordinate has to lie in the logical grid; the result then lies on the
/// panel.
pub fn find_rotation(x: u32, y: u32, height: u32, width: u32, rotation: DisplayRotation) -> (p: (
    u32,
    u32,
))
    requires
        in_grid(x as int, y as int, height as int, width as int, rotation),
    ensures
        (p.0 as int, p.1 as int) == rotated(
            x as int,
            y as int,
            height as int,
            width as int,
            rotation,
        ),
        p.0 < width,
        p.1 < height,
{
    let nx: u32;
    let ny: u32;
    match rotation {
        DisplayRotation::Rotate0 => {
            nx = x;
            ny = y;
        },
        DisplayRotation::Rotate90 => {
            nx = y;
            ny = height - 1 - x;
        },
        DisplayRotation::Rotate180 => {
            nx = width - 1 - x;
            ny = height - 1 - y;
        },
        DisplayRotation::Rotate270 => {
            nx = width - 1 - y;
            ny = x;
        },
    }
    (nx, ny)
}

/// Under one rotation, two logical coordinates that stand for the same panel
/// coordinate are the same coordinate.
pub proof fn rotation_is_injective(
    x1: int,
    y1: int,
    x2: int,
    y2: int,
    height: int,
    width: int,
    rotation: DisplayRotation,
)
    requires
        rotated(x1, y1, height, width, rotation) == rotated(x2, y2, height, width, rotation),
    ensures
        x1 == x2,
        y1 == y2,
{
}

/// Every panel coordinate is reached from exactly one coordinate of the
/// logical grid, which `unrotated` gives; and every coordinate of the logical
/// grid is found again from the panel coordinate it stands for.
pub proof fn rotation_is_onto(nx: int, ny: int, height: int, width: int, rotation: DisplayRotation)
    ensures
        ({
            let (x, y) = unrotated(nx, ny, height, width, rotation);
            &&& rotated(x, y, height, width, rotation) == (nx, ny)
            &&& (0 <= nx < width && 0 <= ny < height) <==> in_grid(x, y, height, width, rotation)
        }),
        ({
            let (px, py) = rotated(nx, ny, height, width, rotation);
            unrotated(px, py, height, width, rotation) == (nx, ny)
        }),
{
}

/// Whether exactly one bit of `mask` is set.
pub open spec fn is_single_bit(mask: u8) -> bool {
    mask == 0x80 || mask == 0x40 || mask == 0x20 || mask == 0x10 || mask == 0x08 || mask == 0x04
        || mask == 0x02 || mask == 0x01
}

/// Bytes that one source line takes in the buffer: one for every eight gate
/// lines, rounded up.
pub open spec fn bytes_per_column() -> int {
    (DISPLAY_HEIGHT as int + 7) / 8
}

/// The buffer holds every source line: its length is the bytes that one line
/// takes, times the number of lines.
pub proof fn buffer_holds_every_column()
    ensures
        BUF_SIZE == bytes_per_column() * DISPLAY_WIDTH,
        bytes_per_column() == 16,
{
}

/// Index of the byte that holds the panel coordinate `(nx, ny)`. The source
/// lines are stored from the last to the first, each as a run of bytes.
pub open spec fn byte_index(nx: int, ny: int) -> int {
    ny / 8 + bytes_per_column() * (DISPLAY_WIDTH as int - 1 - nx)
}

/// The bit that holds gate line `ny` within its byte, counted from the top
/// bit down.
pub open spec fn bit_mask(ny: int) -> u8 {
    0x80u8 >> ((ny % 8) as u8)
}

/// Where the frame buffer holds the pixel at the logical coordinate `(x, y)`:
/// the index of its byte and the mask of its bit. A coordinate outside the
/// logical grid has no place in the buffer.
pub open spec fn spec_pixel_location(x: int, y: int, rotation: DisplayRotation) -> Option<
    (usize, u8),
> {
    if in_grid(x, y, DISPLAY_HEIGHT as int, DISPLAY_WIDTH as int, rotation) {
        let (nx, ny) = rotated(x, y, DISPLAY_HEIGHT as int, DISPLAY_WIDTH as int, rotation);
        Some((byte_index(nx, ny) as usize, bit_mask(ny)))
    } else {
        None
    }
}

/// The masks of the eight bits of a byte, from the top bit down.
proof fn masks_by_offset(k: u8)
    requires
        k < 8,
    ensures
        k == 0 ==> 0x80u8 >> k == 0x80,
        k == 1 ==> 0x80u8 >> k == 0x40,
        k == 2 ==> 0x80u8 >> k == 0x20,
        k == 3 ==> 0x80u8 >> k == 0x10,
        k == 4 ==> 0x80u8 >> k == 0x08,
        k == 5 ==> 0x80u8 >> k == 0x04,
        k == 6 ==> 0x80u8 >> k == 0x02,
        k == 7 ==> 0x80u8 >> k == 0x01,
{
    assert(0x80u8 >> 0u8 == 0x80 && 0x80u8 >> 1u8 == 0x40 && 0x80u8 >> 2u8 == 0x20 && 0x80u8 >> 3u8
        == 0x10 && 0x80u8 >> 4u8 == 0x08 && 0x80u8 >> 5u8 == 0x04 && 0x80u8 >> 6u8 == 0x02 && 0x80u8
        >> 7u8 == 0x01) by (bit_vector);
}

/// Finds where the frame buffer holds the pixel at the logical coordinate
/// `(x, y)`.
///
/// Inside the logical grid the result is the byte's index, which lies in the
/// buffer, and a mask with exactly one bit set. Outside it the result is
/// `None`.
pub fn pixel_location(x: u32, y: u32, rotation: DisplayRotation) -> (location: Option<(usize, u8)>)
    ensures
        location == spec_pixel_location(x as int, y as int, rotation),
        location is Some <==> in_grid(
            x as int,
            y as int,
            DISPLAY_HEIGHT as int,
            DISPLAY_WIDTH as int,
            rotation,
        ),
        location matches Some((index, mask)) ==> index < BUF_SIZE && is_single_bit(mask),
{
    let height: u32 = DISPLAY_HEIGHT as u32;
    let width: u32 = DISPLAY_WIDTH as u32;
    let inside = match rotation {
        DisplayRotation::Rotate0 | DisplayRotation::Rotate180 => x < width && y < height,
        DisplayRotation::Rotate90 | DisplayRotation::Rotate270 => x < height && y < width,
    };
    if !inside {
        return None;
    }
    let (nx, ny) = find_rotation(x, y, height, width, rotation);
    let rows: u32 = (height + 7) / 8;
    let index: u32 = ny / 8 + rows * (width - 1 - nx);
    let offset: u8 = (ny % 8) as u8;
    let mask: u8 = 0x80u8 >> offset;
    proof {
        masks_by_offset(offset);
    }
    Some((index as usize, mask))
}

/// Inside the logical grid every pixel has a byte within the buffer and a
/// mask with exactly one bit set.
pub proof fn pixel_location_is_in_bounds(x: int, y: int, rotation: DisplayRotation)
    requires
        in_grid(x, y, DISPLAY_HEIGHT as int, DISPLAY_WIDTH as int, rotation),
    ensures
        spec_pixel_location(x, y, rotation) matches Some((index, mask)) && index < BUF_SIZE
            && is_single_bit(mask),
{
    let (nx, ny) = rotated(x, y, DISPLAY_HEIGHT as int, DISPLAY_WIDTH as int, rotation);
    masks_by_offset((ny % 8) as u8);
}

/// Under one rotation, two coordinates of the logical grid that share a byte
/// and a bit are the same coordinate: no two pixels collide.
pub proof fn pixel_location_is_injective(
    x1: int,
    y1: int,
    x2: int,
    y2: int,
    rotation: DisplayRotation,
)
    requires
        in_grid(x1, y1, DISPLAY_HEIGHT as int, DISPLAY_WIDTH as int, rotation),
        in_grid(x2, y2, DISPLAY_HEIGHT as int, DISPLAY_WIDTH as int, rotation),
        spec_pixel_location(x1, y1, rotation) == spec_pixel_location(x2, y2, rotation),
    ensures
        x1 == x2,
        y1 == y2,
{
    let (nx1, ny1) = rotated(x1, y1, DISPLAY_HEIGHT as int, DISPLAY_WIDTH as int, rotation);
    let (nx2, ny2) = rotated(x2, y2, DISPLAY_HEIGHT as int, DISPLAY_WIDTH as int, rotation);
    masks_by_offset((ny1 % 8) as u8);
    masks_by_offset((ny2 % 8) as u8);
    assert(ny1 % 8 == ny2 % 8);
    assert(byte_index(nx1, ny1) == byte_index(nx2, ny2));
    assert(ny1 / 8 == ny2 / 8 && nx1 == nx2);
    assert(ny1 == ny2);
    rotation_is_injective(x1, y1, x2, y2, DISPLAY_HEIGHT as int, DISPLAY_WIDTH as int, rotation);
}

/// Every byte of the buffer holds pixels of the panel: each index below the
/// buffer's length is the byte of some coordinate of the logical grid.
pub proof fn every_byte_is_reached(index: int, rotation: DisplayRotation) -> (c: (int, int))
    requires
        0 <= index < BUF_SIZE,
    ensures
        in_grid(c.0, c.1, DISPLAY_HEIGHT as int, DISPLAY_WIDTH as int, rotation),
        spec_pixel_location(c.0, c.1, rotation) matches Some((i, mask)) && i == index,
{
    let nx = DISPLAY_WIDTH as int - 1 - index / 16;
    let ny = (index % 16) * 8;
    rotation_is_onto(nx, ny, DISPLAY_HEIGHT as int, DISPLAY_WIDTH as int, rotation);
    unrotated(nx, ny, DISPLAY_HEIGHT as int, DISPLAY_WIDTH as int, rotation)
}

} // verus!
