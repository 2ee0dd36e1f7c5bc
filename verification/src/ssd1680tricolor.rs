//! Driver for black/white/chromatic panels: two bit planes, and the
//! sequences that carry them to the controller.

use vstd::prelude::*;
use crate::command::Command;
use crate::display::{in_grid, pixel_location, spec_pixel_location, DisplayRotation};
use crate::display::{pixel_location_is_in_bounds, pixel_location_is_injective};
use crate::error::Error;
use crate::framebuffer::{bit_is_set, filled, with_bit_cleared, with_bit_set};
use crate::framebuffer::{bits_of_filled_planes, clear_bit_touches_one_bit, set_bit_touches_one_bit};
use crate::framebuffer::{clear_bit, new_plane, set_bit, test_bit};
use crate::graphics::{in_bounding_box, panel_size, spec_in_bounding_box, Pixel, Size};
use crate::interface::{frame_ops, hardware_reset_ops, power_down_ops, power_up_ops};
use crate::interface::{ram_address_ops, software_reset_ops, update_ops};
use crate::interface::{Op, SpiInterface, Step};
use crate::{BUF_SIZE, DISPLAY_HEIGHT, DISPLAY_WIDTH};

verus! {

/// Color of a pixel on a black/white/chromatic panel.
#[derive(Clone, Copy, Debug, PartialEq, Eq, Structural)]
pub enum TriColor {
    /// Black color.
    Black,
    /// White color.
    White,
    /// Chromatic color.
    Chromatic,
}

impl TriColor {
    /// The bit that stands for this color in the black/white plane.
    pub open spec fn spec_bit_value(self) -> u8 {
        match self {
            TriColor::White => 1u8,
            TriColor::Black | TriColor::Chromatic => 0u8,
        }
    }

    /// The byte that stands for eight pixels of this color in the
    /// black/white plane.
    pub open spec fn spec_byte_value(self) -> u8 {
        match self {
            TriColor::White => 0xffu8,
            TriColor::Black | TriColor::Chromatic => 0x00u8,
        }
    }

    /// Whether a pixel of this color has its bit set in the black/white
    /// plane.
    pub open spec fn in_first_plane(self) -> bool {
        self == TriColor::White || self == TriColor::Chromatic
    }

    /// Whether a pixel of this color has its bit set in the chromatic plane.
    pub open spec fn in_second_plane(self) -> bool {
        self == TriColor::Chromatic
    }

    /// Get the color encoding of the color for one bit.
    #[verifier::when_used_as_spec(spec_bit_value)]
    pub fn get_bit_value(self) -> (bit: u8)
        ensures
            bit == self.spec_bit_value(),
    {
        match self {
            TriColor::White => 1u8,
            TriColor::Black | TriColor::Chromatic => 0u8,
        }
    }

    /// Gets a full byte of black or white pixels.
    #[verifier::when_used_as_spec(spec_byte_value)]
    pub fn get_byte_value(self) -> (byte: u8)
        ensures
            byte == self.spec_byte_value(),
    {
        match self {
            TriColor::White => 0xff,
            TriColor::Black | TriColor::Chromatic => 0x00,
        }
    }
}

/// The two bit planes of a frame.
pub struct Planes {
    /// The black/white plane: a set bit is a pixel that is not black.
    pub first: Seq<u8>,
    /// The chromatic plane: a set bit is a chromatic pixel.
    pub second: Seq<u8>,
}

/// The frame in which every pixel is white.
pub open spec fn blank() -> Planes {
    Planes { first: filled(0xFF), second: filled(0x00) }
}

/// The color that `planes` hold at the logical coordinate `(x, y)`:
/// chromatic where the bit of the chromatic plane is set, else white or black
/// as the bit of the black/white plane is set or clear. Outside the logical
/// grid there is no pixel.
pub open spec fn spec_get_pixel(planes: Planes, x: int, y: int, rotation: DisplayRotation) -> Option<
    TriColor,
> {
    match spec_pixel_location(x, y, rotation) {
        Some((index, mask)) => Some(
            if bit_is_set(planes.second, index as int, mask) {
                TriColor::Chromatic
            } else if bit_is_set(planes.first, index as int, mask) {
                TriColor::White
            } else {
                TriColor::Black
            },
        ),
        None => None,
    }
}

/// `planes` with the pixel at the logical coordinate `(x, y)` given `color`:
/// black clears its bit in both planes, white sets it in the first and clears
/// it in the second, chromatic sets it in both. Outside the logical grid
/// nothing is written.
pub open spec fn spec_set_pixel(
    planes: Planes,
    x: int,
    y: int,
    rotation: DisplayRotation,
    color: TriColor,
) -> Planes {
    match spec_pixel_location(x, y, rotation) {
        Some((index, mask)) => match color {
            TriColor::Black => Planes {
                first: with_bit_cleared(planes.first, index as int, mask),
                second: with_bit_cleared(planes.second, index as int, mask),
            },
            TriColor::White => Planes {
                first: with_bit_set(planes.first, index as int, mask),
                second: with_bit_cleared(planes.second, index as int, mask),
            },
            TriColor::Chromatic => Planes {
                first: with_bit_set(planes.first, index as int, mask),
                second: with_bit_set(planes.second, index as int, mask),
            },
        },
        None => planes,
    }
}

/// `planes` after one pixel of a canvas was drawn: set where the position
/// lies in the panel's bounding box, dropped elsewhere.
pub open spec fn spec_draw_pixel(
    planes: Planes,
    pixel: Pixel<TriColor>,
    rotation: DisplayRotation,
) -> Planes {
    if spec_in_bounding_box(pixel.x as int, pixel.y as int) {
        spec_set_pixel(planes, pixel.x as int, pixel.y as int, rotation, pixel.color)
    } else {
        planes
    }
}

/// `planes` after the pixels of a canvas were drawn, first to last.
pub open spec fn spec_draw(
    planes: Planes,
    pixels: Seq<Pixel<TriColor>>,
    rotation: DisplayRotation,
) -> Planes
    decreases pixels.len(),
{
    if pixels.len() == 0 {
        planes
    } else {
        spec_draw_pixel(spec_draw(planes, pixels.drop_last(), rotation), pixels.last(), rotation)
    }
}

/// After a write to a pixel of the logical grid, the pixel's bit in each
/// plane is what the color asks for: both clear for black, the first set and
/// the second clear for white, both set for chromatic.
pub proof fn set_pixel_writes_both_planes(
    planes: Planes,
    x: int,
    y: int,
    rotation: DisplayRotation,
    color: TriColor,
)
    requires
        planes.first.len() == BUF_SIZE,
        planes.second.len() == BUF_SIZE,
        in_grid(x, y, DISPLAY_HEIGHT as int, DISPLAY_WIDTH as int, rotation),
    ensures
        ({
            let after = spec_set_pixel(planes, x, y, rotation, color);
            let (index, mask) = spec_pixel_location(x, y, rotation).unwrap();
            &&& bit_is_set(after.first, index as int, mask) == color.in_first_plane()
            &&& bit_is_set(after.second, index as int, mask) == color.in_second_plane()
            &&& after.first.len() == BUF_SIZE
            &&& after.second.len() == BUF_SIZE
        }),
{
    pixel_location_is_in_bounds(x, y, rotation);
    let (index, mask) = spec_pixel_location(x, y, rotation).unwrap();
    set_bit_touches_one_bit(planes.first, index as int, mask, index as int, mask);
    clear_bit_touches_one_bit(planes.first, index as int, mask, index as int, mask);
    set_bit_touches_one_bit(planes.second, index as int, mask, index as int, mask);
    clear_bit_touches_one_bit(planes.second, index as int, mask, index as int, mask);
}

/// Writing a pixel of the logical grid and reading it back gives the color
/// that was written.
pub proof fn set_pixel_then_get_pixel(
    planes: Planes,
    x: int,
    y: int,
    rotation: DisplayRotation,
    color: TriColor,
)
    requires
        planes.first.len() == BUF_SIZE,
        planes.second.len() == BUF_SIZE,
        in_grid(x, y, DISPLAY_HEIGHT as int, DISPLAY_WIDTH as int, rotation),
    ensures
        spec_get_pixel(spec_set_pixel(planes, x, y, rotation, color), x, y, rotation) == Some(color),
{
    set_pixel_writes_both_planes(planes, x, y, rotation, color);
}

/// Writing a pixel leaves every other pixel of the logical grid as it was.
pub proof fn set_pixel_keeps_other_pixels(
    planes: Planes,
    x: int,
    y: int,
    rotation: DisplayRotation,
    color: TriColor,
    x2: int,
    y2: int,
)
    requires
        planes.first.len() == BUF_SIZE,
        planes.second.len() == BUF_SIZE,
        (x2, y2) != (x, y),
    ensures
        spec_get_pixel(spec_set_pixel(planes, x, y, rotation, color), x2, y2, rotation)
            == spec_get_pixel(planes, x2, y2, rotation),
{
    if in_grid(x, y, DISPLAY_HEIGHT as int, DISPLAY_WIDTH as int, rotation) && in_grid(
        x2,
        y2,
        DISPLAY_HEIGHT as int,
        DISPLAY_WIDTH as int,
        rotation,
    ) {
        pixel_location_is_in_bounds(x, y, rotation);
        pixel_location_is_in_bounds(x2, y2, rotation);
        let (index, mask) = spec_pixel_location(x, y, rotation).unwrap();
        let (index2, mask2) = spec_pixel_location(x2, y2, rotation).unwrap();
        if (index2, mask2) == (index, mask) {
            pixel_location_is_injective(x, y, x2, y2, rotation);
        }
        set_bit_touches_one_bit(planes.first, index as int, mask, index2 as int, mask2);
        clear_bit_touches_one_bit(planes.first, index as int, mask, index2 as int, mask2);
        set_bit_touches_one_bit(planes.second, index as int, mask, index2 as int, mask2);
        clear_bit_touches_one_bit(planes.second, index as int, mask, index2 as int, mask2);
    }
}

/// A write outside the logical grid leaves both planes as they were.
pub proof fn set_pixel_outside_grid(
    planes: Planes,
    x: int,
    y: int,
    rotation: DisplayRotation,
    color: TriColor,
)
    requires
        !in_grid(x, y, DISPLAY_HEIGHT as int, DISPLAY_WIDTH as int, rotation),
    ensures
        spec_set_pixel(planes, x, y, rotation, color) == planes,
{
}

/// In the blank frame every pixel of the logical grid is white, and writing
/// white to any coordinate leaves the frame blank.
pub proof fn white_keeps_blank(x: int, y: int, rotation: DisplayRotation)
    ensures
        in_grid(x, y, DISPLAY_HEIGHT as int, DISPLAY_WIDTH as int, rotation) ==> spec_get_pixel(
            blank(),
            x,
            y,
            rotation,
        ) == Some(TriColor::White),
        spec_set_pixel(blank(), x, y, rotation, TriColor::White) == blank(),
{
    if in_grid(x, y, DISPLAY_HEIGHT as int, DISPLAY_WIDTH as int, rotation) {
        pixel_location_is_in_bounds(x, y, rotation);
        let (index, mask) = spec_pixel_location(x, y, rotation).unwrap();
        bits_of_filled_planes(index as int, mask);
        set_bit_touches_one_bit(filled(0xFF), index as int, mask, index as int, mask);
        clear_bit_touches_one_bit(filled(0x00), index as int, mask, index as int, mask);
    }
}

/// Drawing white pixels on the blank frame, at whatever coordinates and
/// however many, gives the blank frame again.
pub proof fn drawing_white_keeps_blank(pixels: Seq<Pixel<TriColor>>, rotation: DisplayRotation)
    requires
        forall|i: int| 0 <= i < pixels.len() ==> (#[trigger] pixels[i]).color == TriColor::White,
    ensures
        spec_draw(blank(), pixels, rotation) == blank(),
    decreases pixels.len(),
{
    if pixels.len() > 0 {
        let pixel = pixels.last();
        drawing_white_keeps_blank(pixels.drop_last(), rotation);
        white_keeps_blank(pixel.x as int, pixel.y as int, rotation);
    }
}

/// Carrying both planes to the controller: for each, the address counters go
/// to `(1, 0)`, the plane is written to its RAM, and the controller is waited
/// for.
pub open spec fn display_ops(planes: Planes) -> Seq<Op> {
    ram_address_ops(1, 0) + frame_ops(Command::WriteRAM1, planes.first).push(Op::WaitUntilIdle)
        + ram_address_ops(1, 0) + frame_ops(Command::WriteRAM2, planes.second).push(
        Op::WaitUntilIdle,
    )
}

/// Sending the controller to sleep and letting it settle for a hundred
/// milliseconds.
pub open spec fn sleep_ops() -> Seq<Op> {
    power_down_ops().push(Op::DelayMs(100))
}

/// A whole refresh: hardware reset, power-up, both planes, the update, and
/// sleep.
pub open spec fn flush_ops(planes: Planes) -> Seq<Op> {
    hardware_reset_ops() + power_up_ops() + display_ops(planes) + update_ops() + sleep_ops()
}

/// Driver for a black/white/chromatic panel.
pub struct Ssd1680TriColor {
    buffer: [u8; BUF_SIZE],
    buffer2: [u8; BUF_SIZE],
    display_rotation: DisplayRotation,
    interface: SpiInterface,
}

impl Ssd1680TriColor {
    /// The two planes of the frame.
    pub closed spec fn planes(&self) -> Planes {
        Planes { first: self.buffer@, second: self.buffer2@ }
    }

    /// The rotation under which coordinates are read.
    pub closed spec fn rotation(&self) -> DisplayRotation {
        self.display_rotation
    }

    /// The actions that are still to be performed, first to last.
    pub closed spec fn pending(&self) -> Seq<Op> {
        self.interface@
    }

    /// The planes never change their length.
    pub proof fn planes_have_fixed_length(&self)
        ensures
            self.planes().first.len() == BUF_SIZE,
            self.planes().second.len() == BUF_SIZE,
    {
    }

    /// A driver with a frame in which every pixel is white, and nothing to
    /// perform.
    pub fn new(display_rotation: DisplayRotation) -> (driver: Self)
        ensures
            driver.planes() == blank(),
            driver.rotation() == display_rotation,
            driver.pending() == Seq::<Op>::empty(),
    {
        Ssd1680TriColor {
            interface: SpiInterface::new(),
            display_rotation,
            buffer: new_plane(0xFF),  // inverted
            buffer2: new_plane(0x00),
        }
    }

    /// Queues the initialisation: the hardware reset, then the software
    /// reset.
    pub fn init(&mut self)
        ensures
            final(self).pending() == old(self).pending() + hardware_reset_ops()
                + software_reset_ops(),
            final(self).planes() == old(self).planes(),
            final(self).rotation() == old(self).rotation(),
    {
        self.interface.hardware_reset();
        self.interface.software_reset();
    }

    /// Queues a whole refresh: the hardware reset, the power-up, both
    /// planes, the update, and sleep.
    pub fn flush(&mut self)
        ensures
            final(self).pending() == old(self).pending() + flush_ops(old(self).planes()),
            final(self).planes() == old(self).planes(),
            final(self).rotation() == old(self).rotation(),
    {
        self.power_up();
        self.flush_display();
        self.flush_update();
        self.power_down();
        assert(self.pending() =~= old(self).pending() + flush_ops(old(self).planes()));
    }

    /// Queues the transfer of both planes: for each, the address counters go
    /// to `(1, 0)`, the plane is written to its RAM, and the controller is
    /// waited for. Nothing shows on the panel before an update.
    pub fn flush_display(&mut self)
        ensures
            final(self).pending() == old(self).pending() + display_ops(old(self).planes()),
            final(self).planes() == old(self).planes(),
            final(self).rotation() == old(self).rotation(),
    {
        self.interface.set_ram_address(1, 0);
        self.interface.write_ram_frame_buffer(self.buffer.as_slice(), Command::WriteRAM1);
        self.interface.busy_wait();

        self.interface.set_ram_address(1, 0);
        self.interface.write_ram_frame_buffer(self.buffer2.as_slice(), Command::WriteRAM2);
        self.interface.busy_wait();
        assert(self.pending() =~= old(self).pending() + display_ops(old(self).planes()));
    }

    /// Queues the update, which brings the content of the controller's RAM
    /// to the panel.
    pub fn flush_update(&mut self)
        ensures
            final(self).pending() == old(self).pending() + update_ops(),
            final(self).planes() == old(self).planes(),
            final(self).rotation() == old(self).rotation(),
    {
        self.interface.update();
    }

    /// Queues the power-down: the controller is sent to sleep and given a
    /// hundred milliseconds to settle.
    pub fn power_down(&mut self)
        ensures
            final(self).pending() == old(self).pending() + sleep_ops(),
            final(self).planes() == old(self).planes(),
            final(self).rotation() == old(self).rotation(),
    {
        self.interface.power_down();
        self.interface.delay_ms(100);
    }

    /// Queues the power-up: the hardware reset, the software reset, and the
    /// configuration.
    pub fn power_up(&mut self)
        ensures
            final(self).pending() == old(self).pending() + hardware_reset_ops() + power_up_ops(),
            final(self).planes() == old(self).planes(),
            final(self).rotation() == old(self).rotation(),
    {
        self.interface.hardware_reset();
        self.interface.power_up();
    }

    /// Number of actions that are still to be performed.
    pub fn pending_len(&self) -> (n: usize)
        ensures
            n == self.pending().len(),
    {
        self.interface.pending_len()
    }

    /// Moves the session on: see [`SpiInterface::step`].
    pub fn step<E>(&mut self, outcome: Result<(), E>) -> (next: Step<E>)
        ensures
            match outcome {
                Err(e) => next == Step::<E>::Finished(Err(Error::Comm(e))) && final(self).pending()
                    == Seq::<Op>::empty(),
                Ok(_) => if old(self).pending().len() == 0 {
                    next == Step::<E>::Finished(Ok(())) && final(self).pending() == old(
                        self,
                    ).pending()
                } else {
                    next matches Step::Perform(action) && action@ == old(self).pending()[0]
                        && final(self).pending() == old(self).pending().drop_first()
                },
            },
            final(self).planes() == old(self).planes(),
            final(self).rotation() == old(self).rotation(),
    {
        self.interface.step(outcome)
    }

    /// Gives the pixel at the logical coordinate `(x, y)` the color `color`.
    ///
    /// Inside the logical grid the pixel's bit is then clear in both planes
    /// for black, set in the first and clear in the second for white, and set
    /// in both for chromatic; the pixel reads back as `color`, and no other
    /// bit has changed. Outside the grid nothing is written.
    pub fn set_pixel(&mut self, x: u32, y: u32, color: TriColor)
        ensures
            final(self).planes() == spec_set_pixel(
                old(self).planes(),
                x as int,
                y as int,
                old(self).rotation(),
                color,
            ),
            spec_pixel_location(x as int, y as int, old(self).rotation()) matches Some(
                (index, mask),
            ) ==> {
                &&& bit_is_set(final(self).planes().first, index as int, mask)
                    == color.in_first_plane()
                &&& bit_is_set(final(self).planes().second, index as int, mask)
                    == color.in_second_plane()
                &&& spec_get_pixel(final(self).planes(), x as int, y as int, old(self).rotation())
                    == Some(color)
            },
            !in_grid(
                x as int,
                y as int,
                DISPLAY_HEIGHT as int,
                DISPLAY_WIDTH as int,
                old(self).rotation(),
            ) ==> final(self).planes() == old(self).planes(),
            final(self).rotation() == old(self).rotation(),
            final(self).pending() == old(self).pending(),
    {
        proof {
            if in_grid(
                x as int,
                y as int,
                DISPLAY_HEIGHT as int,
                DISPLAY_WIDTH as int,
                self.rotation(),
            ) {
                set_pixel_writes_both_planes(
                    self.planes(),
                    x as int,
                    y as int,
                    self.rotation(),
                    color,
                );
            }
        }
        match pixel_location(x, y, self.display_rotation) {
            None => {},
            Some((index, mask)) => {
                match color {
                    TriColor::Black => {
                        clear_bit(&mut self.buffer, index, mask);
                        clear_bit(&mut self.buffer2, index, mask);
                    },
                    TriColor::Chromatic => {
                        set_bit(&mut self.buffer, index, mask);
                        set_bit(&mut self.buffer2, index, mask);
                    },
                    TriColor::White => {
                        set_bit(&mut self.buffer, index, mask);
                        clear_bit(&mut self.buffer2, index, mask);
                    },
                }
            },
        }
    }

    /// Reads the color of the pixel at the logical coordinate `(x, y)`, or
    /// `None` outside the logical grid.
    pub fn get_pixel(&self, x: u32, y: u32) -> (color: Option<TriColor>)
        ensures
            color == spec_get_pixel(self.planes(), x as int, y as int, self.rotation()),
            color is Some <==> in_grid(
                x as int,
                y as int,
                DISPLAY_HEIGHT as int,
                DISPLAY_WIDTH as int,
                self.rotation(),
            ),
    {
        match pixel_location(x, y, self.display_rotation) {
            None => None,
            Some((index, mask)) => {
                if test_bit(&self.buffer2, index, mask) {
                    Some(TriColor::Chromatic)
                } else if test_bit(&self.buffer, index, mask) {
                    Some(TriColor::White)
                } else {
                    Some(TriColor::Black)
                }
            },
        }
    }

    /// The bytes of the black/white plane, as they go to the controller.
    pub fn buffer(&self) -> (bytes: &[u8; BUF_SIZE])
        ensures
            bytes@ == self.planes().first,
    {
        &self.buffer
    }

    /// The bytes of the chromatic plane, as they go to the controller.
    pub fn buffer2(&self) -> (bytes: &[u8; BUF_SIZE])
        ensures
            bytes@ == self.planes().second,
    {
        &self.buffer2
    }

    /// Draws the pixels of a canvas, first to last: those in the panel's
    /// bounding box are set, the others are dropped.
    pub fn draw_iter(&mut self, pixels: &[Pixel<TriColor>])
        ensures
            final(self).planes() == spec_draw(old(self).planes(), pixels@, old(self).rotation()),
            final(self).rotation() == old(self).rotation(),
            final(self).pending() == old(self).pending(),
    {
        let mut i: usize = 0;
        while i < pixels.len()
            invariant
                i <= pixels.len(),
                self.planes() == spec_draw(
                    old(self).planes(),
                    pixels@.take(i as int),
                    self.rotation(),
                ),
                self.rotation() == old(self).rotation(),
                self.pending() == old(self).pending(),
            decreases pixels.len() - i,
        {
            let pixel = pixels[i];
            proof {
                assert(pixels@.take(i + 1).drop_last() =~= pixels@.take(i as int));
                assert(pixels@.take(i + 1).last() == pixel);
            }
            if in_bounding_box(pixel.x, pixel.y) {
                self.set_pixel(pixel.x as u32, pixel.y as u32, pixel.color);
            }
            i += 1;
        }
        assert(pixels@.take(i as int) =~= pixels@);
    }

    /// The size of the canvas: that of the panel.
    pub fn size(&self) -> (size: Size)
        ensures
            size == panel_size(),
    {
        panel_size()
    }
}

} // verus!
