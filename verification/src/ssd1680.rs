//! Driver for monochrome panels: one bit plane, and the sequences that carry
//! it to the controller.

use vstd::prelude::*;
use crate::command::Command;
use crate::display::{in_grid, pixel_location, spec_pixel_location, DisplayRotation};
use crate::display::{pixel_location_is_in_bounds, pixel_location_is_injective};
use crate::error::Error;
use crate::framebuffer::{bit_is_set, filled, with_bit_cleared, with_bit_set};
use crate::framebuffer::{bits_of_filled_planes, clear_bit_touches_one_bit, set_bit_touches_one_bit};
use crate::framebuffer::{clear_bit, new_plane, set_bit, test_bit};
use crate::graphics::{in_bounding_box, panel_size, spec_in_bounding_box, Pixel, Size};
use crate::interface::{frame_ops, hardware_reset_ops, power_down_ops, power_up_ops};
use crate::interface::{ram_address_ops, software_reset_ops, update_ops};
use crate::interface::{Op, SpiInterface, Step};
use crate::{BUF_SIZE, DISPLAY_HEIGHT, DISPLAY_WIDTH};

verus! {

/// Color of a pixel on a monochrome panel.
#[derive(Clone, Copy, Debug, PartialEq, Eq, Structural)]
pub enum BinaryColor {
    /// The pixel is off: white on the panel.
    Off,
    /// The pixel is on: black on the panel.
    On,
}

/// The color that `frame` holds at the logical coordinate `(x, y)`: on where
/// the pixel's bit is clear, off where it is set. Outside the logical grid
/// there is no pixel.
pub open spec fn spec_get_pixel(frame: Seq<u8>, x: int, y: int, rotation: DisplayRotation) -> Option<
    BinaryColor,
> {
    match spec_pixel_location(x, y, rotation) {
        Some((index, mask)) => Some(
            if bit_is_set(frame, index as int, mask) {
                BinaryColor::Off
            } else {
                BinaryColor::On
            },
        ),
        None => None,
    }
}

/// `frame` with the pixel at the logical coordinate `(x, y)` given `color`.
/// Outside the logical grid nothing is written.
pub open spec fn spec_set_pixel(
    frame: Seq<u8>,
    x: int,
    y: int,
    rotation: DisplayRotation,
    color: BinaryColor,
) -> Seq<u8> {
    match spec_pixel_location(x, y, rotation) {
        Some((index, mask)) => match color {
            BinaryColor::On => with_bit_cleared(frame, index as int, mask),
            BinaryColor::Off => with_bit_set(frame, index as int, mask),
        },
        None => frame,
    }
}

/// `frame` after one pixel of a canvas was drawn: set where the position lies
/// in the panel's bounding box, dropped elsewhere.
pub open spec fn spec_draw_pixel(
    frame: Seq<u8>,
    pixel: Pixel<BinaryColor>,
    rotation: DisplayRotation,
) -> Seq<u8> {
    if spec_in_bounding_box(pixel.x as int, pixel.y as int) {
        spec_set_pixel(frame, pixel.x as int, pixel.y as int, rotation, pixel.color)
    } else {
        frame
    }
}

/// `frame` after the pixels of a canvas were drawn, first to last.
pub open spec fn spec_draw(
    frame: Seq<u8>,
    pixels: Seq<Pixel<BinaryColor>>,
    rotation: DisplayRotation,
) -> Seq<u8>
    decreases pixels.len(),
{
    if pixels.len() == 0 {
        frame
    } else {
        spec_draw_pixel(spec_draw(frame, pixels.drop_last(), rotation), pixels.last(), rotation)
    }
}

/// Writing a pixel of the logical grid and reading it back gives the color
/// that was written.
pub proof fn set_pixel_then_get_pixel(
    frame: Seq<u8>,
    x: int,
    y: int,
    rotation: DisplayRotation,
    color: BinaryColor,
)
    requires
        frame.len() == BUF_SIZE,
        in_grid(x, y, DISPLAY_HEIGHT as int, DISPLAY_WIDTH as int, rotation),
    ensures
        spec_get_pixel(spec_set_pixel(frame, x, y, rotation, color), x, y, rotation) == Some(color),
{
    pixel_location_is_in_bounds(x, y, rotation);
    let (index, mask) = spec_pixel_location(x, y, rotation).unwrap();
    set_bit_touches_one_bit(frame, index as int, mask, index as int, mask);
    clear_bit_touches_one_bit(frame, index as int, mask, index as int, mask);
}

/// Writing a pixel leaves every other pixel of the logical grid as it was.
pub proof fn set_pixel_keeps_other_pixels(
    frame: Seq<u8>,
    x: int,
    y: int,
    rotation: DisplayRotation,
    color: BinaryColor,
    x2: int,
    y2: int,
)
    requires
        frame.len() == BUF_SIZE,
        (x2, y2) != (x, y),
    ensures
        spec_get_pixel(spec_set_pixel(frame, x, y, rotation, color), x2, y2, rotation)
            == spec_get_pixel(frame, x2, y2, rotation),
{
    if in_grid(x, y, DISPLAY_HEIGHT as int, DISPLAY_WIDTH as int, rotation) && in_grid(
        x2,
        y2,
        DISPLAY_HEIGHT as int,
        DISPLAY_WIDTH as int,
        rotation,
    ) {
        pixel_location_is_in_bounds(x, y, rotation);
        pixel_location_is_in_bounds(x2, y2, rotation);
        let (index, mask) = spec_pixel_location(x, y, rotation).unwrap();
        let (index2, mask2) = spec_pixel_location(x2, y2, rotation).unwrap();
        if (index2, mask2) == (index, mask) {
            pixel_location_is_injective(x, y, x2, y2, rotation);
        }
        set_bit_touches_one_bit(frame, index as int, mask, index2 as int, mask2);
        clear_bit_touches_one_bit(frame, index as int, mask, index2 as int, mask2);
    }
}

/// A write outside the logical grid leaves the frame as it was.
pub proof fn set_pixel_outside_grid(
    frame: Seq<u8>,
    x: int,
    y: int,
    rotation: DisplayRotation,
    color: BinaryColor,
)
    requires
        !in_grid(x, y, DISPLAY_HEIGHT as int, DISPLAY_WIDTH as int, rotation),
    ensures
        spec_set_pixel(frame, x, y, rotation, color) == frame,
{
}

/// Writing to a pixel the color that it has leaves the frame as it was.
pub proof fn set_pixel_of_same_color(
    frame: Seq<u8>,
    x: int,
    y: int,
    rotation: DisplayRotation,
    color: BinaryColor,
)
    requires
        frame.len() == BUF_SIZE,
        spec_get_pixel(frame, x, y, rotation) == Some(color),
    ensures
        spec_set_pixel(frame, x, y, rotation, color) == frame,
{
    pixel_location_is_in_bounds(x, y, rotation);
    let (index, mask) = spec_pixel_location(x, y, rotation).unwrap();
    set_bit_touches_one_bit(frame, index as int, mask, index as int, mask);
    clear_bit_touches_one_bit(frame, index as int, mask, index as int, mask);
}

/// In the frame of all ones every pixel of the logical grid is off.
pub proof fn blank_frame_is_off(x: int, y: int, rotation: DisplayRotation)
    requires
        in_grid(x, y, DISPLAY_HEIGHT as int, DISPLAY_WIDTH as int, rotation),
    ensures
        spec_get_pixel(filled(0xFF), x, y, rotation) == Some(BinaryColor::Off),
{
    pixel_location_is_in_bounds(x, y, rotation);
    let (index, mask) = spec_pixel_location(x, y, rotation).unwrap();
    bits_of_filled_planes(index as int, mask);
}

/// Turning pixels off in the frame of all ones, at whatever coordinates and
/// however many, gives the frame of all ones again.
pub proof fn drawing_off_keeps_blank(pixels: Seq<Pixel<BinaryColor>>, rotation: DisplayRotation)
    requires
        forall|i: int| 0 <= i < pixels.len() ==> (#[trigger] pixels[i]).color == BinaryColor::Off,
    ensures
        spec_draw(filled(0xFF), pixels, rotation) == filled(0xFF),
    decreases pixels.len(),
{
    if pixels.len() > 0 {
        let pixel = pixels.last();
        drawing_off_keeps_blank(pixels.drop_last(), rotation);
        if in_grid(pixel.x as int, pixel.y as int, DISPLAY_HEIGHT as int, DISPLAY_WIDTH as int, rotation) {
            blank_frame_is_off(pixel.x as int, pixel.y as int, rotation);
            set_pixel_of_same_color(
                filled(0xFF),
                pixel.x as int,
                pixel.y as int,
                rotation,
                BinaryColor::Off,
            );
        }
    }
}

/// Carrying a frame to the controller: the address counters go to `(1, 0)`,
/// the frame is written to the black/white RAM, and the controller is waited
/// for.
pub open spec fn display_ops(frame: Seq<u8>) -> Seq<Op> {
    ram_address_ops(1, 0) + frame_ops(Command::WriteRAM1, frame).push(Op::WaitUntilIdle)
}

/// Sending the controller to sleep and letting it settle for a hundred
/// milliseconds.
pub open spec fn sleep_ops() -> Seq<Op> {
    power_down_ops().push(Op::DelayMs(100))
}

/// A whole refresh: hardware reset, power-up, the frame, the update, and
/// sleep.
pub open spec fn flush_ops(frame: Seq<u8>) -> Seq<Op> {
    hardware_reset_ops() + power_up_ops() + display_ops(frame) + update_ops() + sleep_ops()
}

/// Driver for a monochrome panel.
pub struct Ssd1680 {
    buffer: [u8; BUF_SIZE],
    display_rotation: DisplayRotation,
    interface: SpiInterface,
}

impl Ssd1680 {
    /// The frame: one bit for each pixel, set where the pixel is off.
    pub closed spec fn frame(&self) -> Seq<u8> {
        self.buffer@
    }

    /// The rotation under which coordinates are read.
    pub closed spec fn rotation(&self) -> DisplayRotation {
        self.display_rotation
    }

    /// The actions that are still to be performed, first to last.
    pub closed spec fn pending(&self) -> Seq<Op> {
        self.interface@
    }

    /// The frame never changes its length.
    pub proof fn frame_has_fixed_length(&self)
        ensures
            self.frame().len() == BUF_SIZE,
    {
    }

    /// A driver with a frame in which every pixel is off, and nothing to
    /// perform.
    pub fn new(display_rotation: DisplayRotation) -> (driver: Self)
        ensures
            driver.frame() == filled(0xFF),
            driver.rotation() == display_rotation,
            driver.pending() == Seq::<Op>::empty(),
    {
        Ssd1680 {
            interface: SpiInterface::new(),
            display_rotation,
            buffer: new_plane(0xFF),  // inverted
        }
    }

    /// Queues the initialisation: the hardware reset, then the software
    /// reset.
    pub fn init(&mut self)
        ensures
            final(self).pending() == old(self).pending() + hardware_reset_ops()
                + software_reset_ops(),
            final(self).frame() == old(self).frame(),
            final(self).rotation() == old(self).rotation(),
    {
        self.interface.hardware_reset();
        self.interface.software_reset();
    }

    /// Queues a whole refresh: the hardware reset, the power-up, the frame,
    /// the update, and sleep.
    pub fn flush(&mut self)
        ensures
            final(self).pending() == old(self).pending() + flush_ops(old(self).frame()),
            final(self).frame() == old(self).frame(),
            final(self).rotation() == old(self).rotation(),
    {
        self.power_up();
        self.flush_display();
        self.flush_update();
        self.power_down();
        assert(self.pending() =~= old(self).pending() + flush_ops(old(self).frame()));
    }

    /// Queues the transfer of the frame: the address counters go to
    /// `(1, 0)`, the frame is written to the black/white RAM, and the
    /// controller is waited for. Nothing shows on the panel before an update.
    pub fn flush_display(&mut self)
        ensures
            final(self).pending() == old(self).pending() + display_ops(old(self).frame()),
            final(self).frame() == old(self).frame(),
            final(self).rotation() == old(self).rotation(),
    {
        self.interface.set_ram_address(1, 0);
        self.interface.write_ram_frame_buffer(self.buffer.as_slice(), Command::WriteRAM1);
        self.interface.busy_wait();
        assert(self.pending() =~= old(self).pending() + display_ops(old(self).frame()));
    }

    /// Queues the update, which brings the content of the controller's RAM
    /// to the panel.
    pub fn flush_update(&mut self)
        ensures
            final(self).pending() == old(self).pending() + update_ops(),
            final(self).frame() == old(self).frame(),
            final(self).rotation() == old(self).rotation(),
    {
        self.interface.update();
    }

    /// Queues the power-down: the controller is sent to sleep and given a
    /// hundred milliseconds to settle.
    pub fn power_down(&mut self)
        ensures
            final(self).pending() == old(self).pending() + sleep_ops(),
            final(self).frame() == old(self).frame(),
            final(self).rotation() == old(self).rotation(),
    {
        self.interface.power_down();
        self.interface.delay_ms(100);
    }

    /// Queues the power-up: the hardware reset, the software reset, and the
    /// configuration.
    pub fn power_up(&mut self)
        ensures
            final(self).pending() == old(self).pending() + hardware_reset_ops() + power_up_ops(),
            final(self).frame() == old(self).frame(),
            final(self).rotation() == old(self).rotation(),
    {
        self.interface.hardware_reset();
        self.interface.power_up();
    }

    /// Number of actions that are still to be performed.
    pub fn pending_len(&self) -> (n: usize)
        ensures
            n == self.pending().len(),
    {
        self.interface.pending_len()
    }

    /// Moves the session on: see [`SpiInterface::step`].
    pub fn step<E>(&mut self, outcome: Result<(), E>) -> (next: Step<E>)
        ensures
            match outcome {
                Err(e) => next == Step::<E>::Finished(Err(Error::Comm(e))) && final(self).pending()
                    == Seq::<Op>::empty(),
                Ok(_) => if old(self).pending().len() == 0 {
                    next == Step::<E>::Finished(Ok(())) && final(self).pending() == old(
                        self,
                    ).pending()
                } else {
                    next matches Step::Perform(action) && action@ == old(self).pending()[0]
                        && final(self).pending() == old(self).pending().drop_first()
                },
            },
            final(self).frame() == old(self).frame(),
            final(self).rotation() == old(self).rotation(),
    {
        self.interface.step(outcome)
    }

    /// Gives the pixel at the logical coordinate `(x, y)` the color `color`.
    ///
    /// Inside the logical grid the pixel then reads back as `color` and no
    /// other bit of the frame has changed. Outside it nothing is written.
    pub fn set_pixel(&mut self, x: u32, y: u32, color: BinaryColor)
        ensures
            final(self).frame() == spec_set_pixel(
                old(self).frame(),
                x as int,
                y as int,
                old(self).rotation(),
                color,
            ),
            in_grid(
                x as int,
                y as int,
                DISPLAY_HEIGHT as int,
                DISPLAY_WIDTH as int,
                old(self).rotation(),
            ) ==> spec_get_pixel(final(self).frame(), x as int, y as int, old(self).rotation())
                == Some(color),
            !in_grid(
                x as int,
                y as int,
                DISPLAY_HEIGHT as int,
                DISPLAY_WIDTH as int,
                old(self).rotation(),
            ) ==> final(self).frame() == old(self).frame(),
            final(self).rotation() == old(self).rotation(),
            final(self).pending() == old(self).pending(),
    {
        proof {
            if in_grid(
                x as int,
                y as int,
                DISPLAY_HEIGHT as int,
                DISPLAY_WIDTH as int,
                self.rotation(),
            ) {
                set_pixel_then_get_pixel(self.frame(), x as int, y as int, self.rotation(), color);
            }
        }
        match pixel_location(x, y, self.display_rotation) {
            None => {},
            Some((index, mask)) => {
                match color {
                    BinaryColor::On => {
                        clear_bit(&mut self.buffer, index, mask);
                    },
                    BinaryColor::Off => {
                        set_bit(&mut self.buffer, index, mask);
                    },
                }
            },
        }
    }

    /// Reads the color of the pixel at the logical coordinate `(x, y)`, or
    /// `None` outside the logical grid.
    pub fn get_pixel(&self, x: u32, y: u32) -> (color: Option<BinaryColor>)
        ensures
            color == spec_get_pixel(self.frame(), x as int, y as int, self.rotation()),
            color is Some <==> in_grid(
                x as int,
                y as int,
                DISPLAY_HEIGHT as int,
                DISPLAY_WIDTH as int,
                self.rotation(),
            ),
    {
        match pixel_location(x, y, self.display_rotation) {
            None => None,
            Some((index, mask)) => {
                if test_bit(&self.buffer, index, mask) {
                    Some(BinaryColor::Off)
                } else {
                    Some(BinaryColor::On)
                }
            },
        }
    }

    /// The bytes of the frame, as they go to the controller.
    pub fn buffer(&self) -> (bytes: &[u8; BUF_SIZE])
        ensures
            bytes@ == self.frame(),
    {
        &self.buffer
    }

    /// Draws the pixels of a canvas, first to last: those in the panel's
    /// bounding box are set, the others are dropped.
    pub fn draw_iter(&mut self, pixels: &[Pixel<BinaryColor>])
        ensures
            final(self).frame() == spec_draw(old(self).frame(), pixels@, old(self).rotation()),
            final(self).rotation() == old(self).rotation(),
            final(self).pending() == old(self).pending(),
    {
        let mut i: usize = 0;
        while i < pixels.len()
            invariant
                i <= pixels.len(),
                self.frame() == spec_draw(old(self).frame(), pixels@.take(i as int), self.rotation()),
                self.rotation() == old(self).rotation(),
                self.pending() == old(self).pending(),
            decreases pixels.len() - i,
        {
            let pixel = pixels[i];
            proof {
                assert(pixels@.take(i + 1).drop_last() =~= pixels@.take(i as int));
                assert(pixels@.take(i + 1).last() == pixel);
            }
            if in_bounding_box(pixel.x, pixel.y) {
                self.set_pixel(pixel.x as u32, pixel.y as u32, pixel.color);
            }
            i += 1;
        }
        assert(pixels@.take(i as int) =~= pixels@);
    }

    /// The size of the canvas: that of the panel.
    pub fn size(&self) -> (size: Size)
        ensures
            size == panel_size(),
    {
        panel_size()
    }
}

} // verus!
