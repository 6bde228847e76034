//! Dimensions and limits of the machine.

use vstd::prelude::*;

verus! {

/// Width of the machine's display, in pixels.
pub const DISPL_WIDTH: usize = 64;

/// Height of the machine's display, in pixels.
pub const DISPL_HEIGHT: usize = 32;

/// Pixels in one row of the framebuffer.
pub const CHIP8_WIDTH: usize = 64;

/// Rows of the framebuffer.
pub const CHIP8_HEIGHT: usize = 32;

/// Bytes in one instruction.
pub const OP_CODE_BYTES: usize = 2;

/// Bytes of addressable memory.
pub const RAM_BYTES: usize = 4096;

/// Number of general registers, V0 to VF.
pub const REG_COUNT: usize = 16;

/// Number of return addresses the call stack holds.
pub const STACK_SIZE: usize = 16;

/// Largest program image: the memory from the program offset to the end.
pub const MAX_ROM_BYTES: usize = 3584;

/// Number of keys on the hexadecimal keypad.
pub const KEYBOARD_SIZE: usize = 16;

/// Address at which a program image is placed.
pub const PROG_OFFSET: usize = 0x200;

/// Bytes in the built-in font atlas: sixteen glyphs of five rows each.
pub const FONT_SET_SIZE: usize = 80;

/// Bytes in one glyph of the font atlas.
pub const GLYPH_BYTES: usize = 5;

/// Side of the square, in screen pixels, that shows one framebuffer pixel.
pub const SCALE_FACTOR: u32 = 10;

/// Pause between two cycles, in milliseconds.
pub const CLOCK_PERIOD: u64 = 2;

/// The built-in font atlas: the glyphs of the digits 0 to F, five rows each,
/// the upper four bits of a row being its pixels.
pub const FONT_SET: [u8; 80] = [
    0xF0, 0x90, 0x90, 0x90, 0xF0,
    0x20, 0x60, 0x20, 0x20, 0x70,
    0xF0, 0x10, 0xF0, 0x80, 0xF0,
    0xF0, 0x10, 0xF0, 0x10, 0xF0,
    0x90, 0x90, 0xF0, 0x10, 0x10,
    0xF0, 0x80, 0xF0, 0x10, 0xF0,
    0xF0, 0x80, 0xF0, 0x90, 0xF0,
    0xF0, 0x10, 0x20, 0x40, 0x40,
    0xF0, 0x90, 0xF0, 0x90, 0xF0,
    0xF0, 0x90, 0xF0, 0x10, 0xF0,
    0xF0, 0x90, 0xF0, 0x90, 0x90,
    0xE0, 0x90, 0xE0, 0x90, 0xE0,
    0xF0, 0x80, 0x80, 0x80, 0xF0,
    0xE0, 0x90, 0x90, 0x90, 0xE0,
    0xF0, 0x80, 0xF0, 0x80, 0xF0,
    0xF0, 0x80, 0xF0, 0x80, 0x80,
];

} // verus!
