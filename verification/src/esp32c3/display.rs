//! The geometry of the tiny display.
use vstd::prelude::*;

verus! {

/// The width of the display memory that is used, in pixels.
pub const WIDTH: u8 = 90;

/// The height of the display memory that is used, in pixels.
pub const HEIGHT: u8 = 20;

/// The first column of the display memory that is used.
pub const OFFSETX: u8 = 27;

/// The bytes of the frame buffer: one bit for each pixel.
#[verifier::nonlinear]
pub const BUFFER_LEN: usize = WIDTH as usize * HEIGHT as usize / 8;

/// The columns that the display memory has.
pub const MEMORY_COLUMNS: u8 = 128;

/// The width and the height of a character, in pixels.
pub const CELL: u8 = 8;

/// The lines that are completely visible.
pub const VISIBLE_LINES: u8 = 2;

/// The characters of a line that are completely visible.
pub const VISIBLE_COLUMNS: u8 = 9;

/// The characters in the terminal: three lines of eleven. Two lines of nine characters
/// are completely visible.
pub const CHAR_NUM: u8 = 3 * 11;

/// The pins of the display are wired in sequence, not alternating.
pub const ALTERNATIVE_PINS: bool = false;

/// Left and right are not swapped.
pub const REMAPPED_PINS: bool = false;

/// The numbers go together: the buffer has one bit for each pixel and none to spare, the
/// part of the memory that is used lies within it, the terminal has a character for each
/// column of characters in each line that is begun, and the part that is completely
/// visible lies within the part that is used.
pub proof fn law_display_geometry()
    ensures
        WIDTH == 90,
        HEIGHT == 20,
        OFFSETX == 27,
        CHAR_NUM == 33,
        !ALTERNATIVE_PINS,
        !REMAPPED_PINS,
        BUFFER_LEN == 225,
        BUFFER_LEN * 8 == WIDTH * HEIGHT,
        OFFSETX + WIDTH <= MEMORY_COLUMNS,
        CHAR_NUM == (HEIGHT + CELL - 1) / (CELL as int) * (WIDTH as int / CELL as int),
        VISIBLE_LINES * CELL <= HEIGHT,
        VISIBLE_COLUMNS * CELL <= WIDTH,
{
}

} // verus!
