//! Driver core for SSD1680 e-paper panels: a bit-packed frame buffer with
//! rotation-aware pixel addressing, and the command sequences that carry a
//! frame to the controller.

use vstd::prelude::*;

pub mod command;
pub mod display;
pub mod error;
pub mod framebuffer;
pub mod graphics;
pub mod interface;
pub mod ssd1680;
pub mod ssd1680tricolor;

pub use crate::command::Command;
pub use crate::display::{find_rotation, DisplayRotation};
pub use crate::error::Error;
pub use crate::ssd1680::Ssd1680;
pub use crate::ssd1680tricolor::{Ssd1680TriColor, TriColor};

verus! {

/// Number of pixels along the panel's long edge, one for each source line.
pub const DISPLAY_WIDTH: u8 = 250;

/// Number of pixels along the panel's short edge, one for each gate line.
pub const DISPLAY_HEIGHT: u8 = 122;

/// Bytes in one bit plane: one byte for every eight gate lines, rounded up,
/// for each of the source lines.
pub const BUF_SIZE: usize = 4000;

} // verus!
