//! From the framebuffer to what is shown and heard.

use vstd::prelude::*;
use crate::consts::{CHIP8_HEIGHT, CHIP8_WIDTH, SCALE_FACTOR};
use crate::ram::{is_binary, DisplayBuffer};

verus! {

/// A colour: red, green, blue and alpha.
#[derive(Clone, Copy, Debug, PartialEq, Eq, Structural)]
pub struct Color {
    pub r: u8,
    pub g: u8,
    pub b: u8,
    pub a: u8,
}

/// The square of the screen that shows one pixel of the framebuffer: its
/// upper left corner, its side and its colour.
#[derive(Clone, Copy, Debug, PartialEq, Eq, Structural)]
pub struct Cell {
    pub x: i32,
    pub y: i32,
    pub side: u32,
    pub color: Color,
}

/// Reported for a pixel that is neither 0 nor 1.
pub const INVALID_PIXEL: &'static str = "Invalid (non-binary) pixel value";

/// The colour of a dark pixel.
pub open spec fn background() -> Color {
    Color { r: 0, g: 0, b: 0, a: 0 }
}

/// The colour of a lit pixel.
pub open spec fn foreground() -> Color {
    Color { r: 0, g: 255, b: 0, a: 0 }
}

/// The square that shows the pixel at `(row, col)`, whose value is `pixel`.
pub open spec fn cell_of(row: int, col: int, pixel: u8) -> Cell {
    Cell {
        x: (col * SCALE_FACTOR) as i32,
        y: (row * SCALE_FACTOR) as i32,
        side: SCALE_FACTOR,
        color: if pixel == 1 {
            foreground()
        } else {
            background()
        },
    }
}

/// The colour in which a pixel is shown: the background for 0, the
/// foreground for 1. Any other value is refused.
pub fn pixel_color(pixel: u8) -> (color: Result<Color, &'static str>)
    ensures
        pixel == 0 ==> color == Ok::<Color, &'static str>(background()),
        pixel == 1 ==> color == Ok::<Color, &'static str>(foreground()),
        pixel > 1 ==> color == Err::<Color, &'static str>(INVALID_PIXEL),
{
    match pixel {
        0 => Ok(Color { r: 0, g: 0, b: 0, a: 0 }),
        1 => Ok(Color { r: 0, g: 255, b: 0, a: 0 }),
        _ => Err(INVALID_PIXEL),
    }
}

/// Whether the tone is to be heard: while the sound timer is not zero.
pub fn tone_on(sound_timer: u8) -> (audible: bool)
    ensures
        audible == (sound_timer > 0),
{
    sound_timer > 0
}

impl DisplayBuffer {
    /// The squares that show the framebuffer, row by row and from left to
    /// right in each row. A framebuffer with a pixel that is neither 0 nor 1
    /// is refused.
    pub fn render(&self) -> (cells: Result<Vec<Cell>, &'static str>)
        ensures
            is_binary(self@) ==> (cells matches Ok(shown) && shown@.len() == CHIP8_HEIGHT
                * CHIP8_WIDTH && forall|row: int, col: int|
                0 <= row < CHIP8_HEIGHT && 0 <= col < CHIP8_WIDTH ==> shown@[row * CHIP8_WIDTH
                    + col] == cell_of(row, col, self@[row][col])),
            !is_binary(self@) ==> cells == Err::<Vec<Cell>, &'static str>(INVALID_PIXEL),
    {
        let mut shown: Vec<Cell> = Vec::new();
        let mut row: usize = 0;
        while row < CHIP8_HEIGHT
            invariant
                row <= CHIP8_HEIGHT,
                shown@.len() == row * CHIP8_WIDTH,
                forall|r: int, c: int|
                    0 <= r < row && 0 <= c < CHIP8_WIDTH ==> #[trigger] self@[r][c] <= 1,
                forall|r: int, c: int|
                    0 <= r < row && 0 <= c < CHIP8_WIDTH ==> shown@[r * CHIP8_WIDTH + c]
                        == cell_of(r, c, self@[r][c]),
            decreases CHIP8_HEIGHT - row,
        {
            let mut col: usize = 0;
            while col < CHIP8_WIDTH
                invariant
                    row < CHIP8_HEIGHT,
                    col <= CHIP8_WIDTH,
                    shown@.len() == row * CHIP8_WIDTH + col,
                    forall|r: int, c: int|
                        0 <= r < row && 0 <= c < CHIP8_WIDTH ==> #[trigger] self@[r][c] <= 1,
                    forall|c: int| 0 <= c < col ==> #[trigger] self@[row as int][c] <= 1,
                    forall|r: int, c: int|
                        0 <= r < row && 0 <= c < CHIP8_WIDTH ==> shown@[r * CHIP8_WIDTH + c]
                            == cell_of(r, c, self@[r][c]),
                    forall|c: int|
                        0 <= c < col ==> shown@[row * CHIP8_WIDTH + c] == cell_of(
                            row as int,
                            c,
                            self@[row as int][c],
                        ),
                decreases CHIP8_WIDTH - col,
            {
                let pixel: u8 = self.buffer[row][col];
                match pixel_color(pixel) {
                    Ok(color) => {
                        shown.push(
                            Cell {
                                x: (col as u32 * SCALE_FACTOR) as i32,
                                y: (row as u32 * SCALE_FACTOR) as i32,
                                side: SCALE_FACTOR,
                                color,
                            },
                        );
                    },
                    Err(refusal) => {
                        assert(self@[row as int][col as int] > 1);
                        return Err(refusal);
                    },
                }
                col += 1;
            }
            row += 1;
        }
        Ok(shown)
    }
}

} // verus!
