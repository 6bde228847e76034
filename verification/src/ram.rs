//! The memory bank, the framebuffer and the keyboard latch.

use vstd::prelude::*;
use vstd::slice::slice_subrange;
use crate::consts::{
    CHIP8_HEIGHT, CHIP8_WIDTH, FONT_SET_SIZE, KEYBOARD_SIZE, MAX_ROM_BYTES, PROG_OFFSET, RAM_BYTES,
};
use crate::utils::bounds_check;

verus! {

/// Reported by [`Ram::load`] for font data that does not fill the font region.
pub const FONT_SIZE_MISMATCH: &'static str = "Font data does not match the size of the font region";

/// Reported by [`Ram::load`] for a program image that is larger than the program region.
pub const ROM_TOO_LARGE: &'static str = "Program image exceeds the maximum ROM size";

/// The addressable memory: 4096 bytes.
#[derive(Debug)]
pub struct Ram {
    pub buffer: [u8; RAM_BYTES],
}

impl View for Ram {
    type V = Seq<u8>;

    open spec fn view(&self) -> Seq<u8> {
        self.buffer@
    }
}

/// Memory in which every byte is zero.
pub open spec fn zeroed_memory() -> Seq<u8> {
    Seq::new(RAM_BYTES as nat, |a: int| 0u8)
}

/// The memory `ram` after the font data was copied to address 0 and the
/// program image to the program offset.
pub open spec fn loaded_memory(ram: Seq<u8>, font_data: Seq<u8>, rom_data: Seq<u8>) -> Seq<u8> {
    Seq::new(
        RAM_BYTES as nat,
        |a: int|
            if a < font_data.len() {
                font_data[a]
            } else if PROG_OFFSET <= a < PROG_OFFSET + rom_data.len() {
                rom_data[a - PROG_OFFSET]
            } else {
                ram[a]
            },
    )
}

impl Default for Ram {
    fn default() -> (ram: Ram)
        ensures
            ram@ == zeroed_memory(),
    {
        let ram = Ram { buffer: [0u8; RAM_BYTES] };
        assert(ram@ =~= zeroed_memory());
        ram
    }
}

impl Ram {
    /// Copies the font atlas to the start of memory and the program image to
    /// the program offset. Font data of another size than the font region, or
    /// an image larger than the program region, is refused and leaves the
    /// memory as it was.
    pub fn load(&mut self, font_data: &[u8], rom_data: &[u8]) -> (loaded: Result<(), &'static str>)
        ensures
            font_data@.len() != FONT_SET_SIZE ==> loaded == Err::<(), &'static str>(
                FONT_SIZE_MISMATCH,
            ) && final(self)@ == old(self)@,
            font_data@.len() == FONT_SET_SIZE && rom_data@.len() > MAX_ROM_BYTES ==> loaded
                == Err::<(), &'static str>(ROM_TOO_LARGE) && final(self)@ == old(self)@,
            font_data@.len() == FONT_SET_SIZE && rom_data@.len() <= MAX_ROM_BYTES ==> loaded
                is Ok && final(self)@ == loaded_memory(old(self)@, font_data@, rom_data@),
    {
        if font_data.len() != FONT_SET_SIZE {
            return Err(FONT_SIZE_MISMATCH);
        }
        if rom_data.len() > MAX_ROM_BYTES {
            return Err(ROM_TOO_LARGE);
        }
        self.write_range(0, font_data);
        self.write_range(PROG_OFFSET, rom_data);
        assert(self@ =~= loaded_memory(old(self)@, font_data@, rom_data@));
        Ok(())
    }

    /// The byte at `addr`.
    pub fn read(&self, addr: usize) -> (byte: u8)
        requires
            addr < RAM_BYTES,
        ensures
            byte == self@[addr as int],
    {
        self.buffer[addr]
    }

    /// Stores `value` at `addr`.
    pub fn write(&mut self, addr: usize, value: u8)
        requires
            addr < RAM_BYTES,
        ensures
            final(self)@ == old(self)@.update(addr as int, value),
    {
        self.buffer[addr] = value;
    }

    /// The `len` bytes that start at `start`.
    pub fn read_range(&self, start: usize, len: usize) -> (bytes: &[u8])
        requires
            start + len <= RAM_BYTES,
        ensures
            bytes@ == self@.subrange(start as int, start + len),
    {
        slice_subrange(self.buffer.as_slice(), start, start + len)
    }

    /// Stores `data` at `start` and the addresses that follow it.
    pub fn write_range(&mut self, start: usize, data: &[u8])
        requires
            start + data@.len() <= RAM_BYTES,
        ensures
            final(self)@ == Seq::new(
                RAM_BYTES as nat,
                |a: int|
                    if start <= a < start + data@.len() {
                        data@[a - start]
                    } else {
                        old(self)@[a]
                    },
            ),
    {
        let mut i: usize = 0;
        while i < data.len()
            invariant
                i <= data@.len(),
                start + data@.len() <= RAM_BYTES,
                forall|a: int| start <= a < start + i ==> self.buffer@[a] == data@[a - start],
                forall|a: int|
                    0 <= a < RAM_BYTES && !(start <= a < start + i) ==> self.buffer@[a]
                        == old(self).buffer@[a],
            decreases data@.len() - i,
        {
            self.buffer[start + i] = data[i];
            i += 1;
        }
        assert(self@ =~= Seq::new(
            RAM_BYTES as nat,
            |a: int|
                if start <= a < start + data@.len() {
                    data@[a - start]
                } else {
                    old(self)@[a]
                },
        ));
    }
}

/// The framebuffer: 32 rows of 64 pixels, each 0 (dark) or 1 (lit).
#[derive(Debug)]
pub struct DisplayBuffer {
    pub buffer: [[u8; CHIP8_WIDTH]; CHIP8_HEIGHT],
}

impl View for DisplayBuffer {
    type V = Seq<Seq<u8>>;

    open spec fn view(&self) -> Seq<Seq<u8>> {
        Seq::new(CHIP8_HEIGHT as nat, |row: int| self.buffer[row]@)
    }
}

/// A framebuffer in which every pixel is dark.
pub open spec fn blank_display() -> Seq<Seq<u8>> {
    Seq::new(CHIP8_HEIGHT as nat, |row: int| Seq::new(CHIP8_WIDTH as nat, |col: int| 0u8))
}

/// Whether every pixel of the framebuffer is 0 or 1.
pub open spec fn is_binary(display: Seq<Seq<u8>>) -> bool {
    forall|row: int, col: int|
        0 <= row < CHIP8_HEIGHT && 0 <= col < CHIP8_WIDTH ==> #[trigger] display[row][col] <= 1
}

/// Whether the pixel `b` of a sprite row is set. Pixel 0 is the leftmost one
/// and the most significant bit of the row.
pub open spec fn sprite_bit(bits: u8, b: int) -> bool {
    bits & (0x80u8 >> b) != 0
}

/// The pixels of a sprite row are the digits of its byte in base 2, the
/// leftmost pixel being the digit of 128.
pub proof fn lemma_sprite_bit_is_binary_digit(bits: u8)
    ensures
        sprite_bit(bits, 0) == (bits / 128 % 2 == 1),
        sprite_bit(bits, 1) == (bits / 64 % 2 == 1),
        sprite_bit(bits, 2) == (bits / 32 % 2 == 1),
        sprite_bit(bits, 3) == (bits / 16 % 2 == 1),
        sprite_bit(bits, 4) == (bits / 8 % 2 == 1),
        sprite_bit(bits, 5) == (bits / 4 % 2 == 1),
        sprite_bit(bits, 6) == (bits / 2 % 2 == 1),
        sprite_bit(bits, 7) == (bits % 2 == 1),
{
    assert((bits & (0x80u8 >> 0) != 0) == (bits / 128 % 2 == 1)) by (bit_vector);
    assert((bits & (0x80u8 >> 1) != 0) == (bits / 64 % 2 == 1)) by (bit_vector);
    assert((bits & (0x80u8 >> 2) != 0) == (bits / 32 % 2 == 1)) by (bit_vector);
    assert((bits & (0x80u8 >> 3) != 0) == (bits / 16 % 2 == 1)) by (bit_vector);
    assert((bits & (0x80u8 >> 4) != 0) == (bits / 8 % 2 == 1)) by (bit_vector);
    assert((bits & (0x80u8 >> 5) != 0) == (bits / 4 % 2 == 1)) by (bit_vector);
    assert((bits & (0x80u8 >> 6) != 0) == (bits / 2 % 2 == 1)) by (bit_vector);
    assert((bits & (0x80u8 >> 7) != 0) == (bits % 2 == 1)) by (bit_vector);
}

/// Whether a sprite whose upper left corner is at column `x` and row `y`
/// has a set pixel at `(row, col)`.
pub open spec fn sprite_lit(sprite: Seq<u8>, x: int, y: int, row: int, col: int) -> bool {
    &&& y <= row < y + sprite.len()
    &&& x <= col < x + 8
    &&& sprite_bit(sprite[row - y], col - x)
}

/// Whether the pixel `(row, col)` comes before bit `b` of the sprite row `i`
/// in drawing order.
spec fn drawn_before(x: int, y: int, i: int, b: int, row: int, col: int) -> bool {
    row < y + i || (row == y + i && col < x + b)
}

/// The framebuffer after the sprite rows before row `i`, and the bits before
/// bit `b` of row `i`, were drawn at `(x, y)`.
spec fn partly_drawn(
    display: Seq<Seq<u8>>,
    sprite: Seq<u8>,
    x: int,
    y: int,
    i: int,
    b: int,
) -> Seq<Seq<u8>> {
    Seq::new(
        CHIP8_HEIGHT as nat,
        |row: int|
            Seq::new(
                CHIP8_WIDTH as nat,
                |col: int|
                    if drawn_before(x, y, i, b, row, col) && sprite_lit(sprite, x, y, row, col) {
                        display[row][col] ^ 1
                    } else {
                        display[row][col]
                    },
            ),
    )
}

/// Whether one of the sprite pixels that come before bit `b` of row `i`
/// falls on a lit pixel of the framebuffer.
spec fn collides_before(
    display: Seq<Seq<u8>>,
    sprite: Seq<u8>,
    x: int,
    y: int,
    i: int,
    b: int,
) -> bool {
    exists|row: int, col: int|
        0 <= row < CHIP8_HEIGHT && 0 <= col < CHIP8_WIDTH && drawn_before(x, y, i, b, row, col)
            && #[trigger] sprite_lit(sprite, x, y, row, col) && display[row][col] == 1
}

/// The framebuffer after a sprite was drawn with its upper left corner at
/// column `x` and row `y`: each pixel under a set sprite pixel is flipped,
/// and what falls outside the framebuffer is dropped.
pub open spec fn drawn_display(display: Seq<Seq<u8>>, sprite: Seq<u8>, x: int, y: int) -> Seq<
    Seq<u8>,
> {
    Seq::new(
        CHIP8_HEIGHT as nat,
        |row: int|
            Seq::new(
                CHIP8_WIDTH as nat,
                |col: int|
                    if sprite_lit(sprite, x, y, row, col) {
                        display[row][col] ^ 1
                    } else {
                        display[row][col]
                    },
            ),
    )
}

/// Whether drawing the sprite at `(x, y)` turns a lit pixel dark.
pub open spec fn sprite_collides(display: Seq<Seq<u8>>, sprite: Seq<u8>, x: int, y: int) -> bool {
    exists|row: int, col: int|
        0 <= row < CHIP8_HEIGHT && 0 <= col < CHIP8_WIDTH && #[trigger] sprite_lit(
            sprite,
            x,
            y,
            row,
            col,
        ) && display[row][col] == 1
}

impl Default for DisplayBuffer {
    fn default() -> (display: DisplayBuffer)
        ensures
            display@ == blank_display(),
    {
        let display = DisplayBuffer { buffer: [[0u8; CHIP8_WIDTH]; CHIP8_HEIGHT] };
        assert(display@ =~~= blank_display());
        display
    }
}

impl DisplayBuffer {
    /// Turns every pixel dark.
    pub fn clear(&mut self)
        ensures
            final(self)@ == blank_display(),
    {
        let mut row: usize = 0;
        while row < CHIP8_HEIGHT
            invariant
                row <= CHIP8_HEIGHT,
                forall|r: int, c: int|
                    0 <= r < row && 0 <= c < CHIP8_WIDTH ==> self.buffer[r][c] == 0u8,
            decreases CHIP8_HEIGHT - row,
        {
            self.buffer[row] = [0u8; CHIP8_WIDTH];
            row += 1;
        }
        assert(self@ =~~= blank_display());
    }

    /// Draws a sprite with its upper left corner at column `x` and row `y`,
    /// and says whether a lit pixel was turned dark.
    pub fn draw_sprite(&mut self, sprite: &[u8], x: usize, y: usize) -> (collision: bool)
        ensures
            final(self)@ == drawn_display(old(self)@, sprite@, x as int, y as int),
            collision == sprite_collides(old(self)@, sprite@, x as int, y as int),
    {
        if x >= CHIP8_WIDTH || y >= CHIP8_HEIGHT {
            assert(self@ =~~= drawn_display(old(self)@, sprite@, x as int, y as int));
            return false;
        }
        let ghost before = self@;
        let mut collision = false;
        let mut i: usize = 0;
        assert(self@ =~~= partly_drawn(before, sprite@, x as int, y as int, 0, 0));
        while i < sprite.len() && i < CHIP8_HEIGHT
            invariant
                x < CHIP8_WIDTH,
                y < CHIP8_HEIGHT,
                i <= sprite@.len(),
                i <= CHIP8_HEIGHT,
                before.len() == CHIP8_HEIGHT,
                forall|r: int|
                    0 <= r < CHIP8_HEIGHT ==> (#[trigger] before[r]).len() == CHIP8_WIDTH,
                self@ == partly_drawn(before, sprite@, x as int, y as int, i as int, 0),
                collision == collides_before(before, sprite@, x as int, y as int, i as int, 0),
            decreases sprite@.len() - i,
        {
            let bits: u8 = sprite[i];
            let mut b: usize = 0;
            while b < 8 && bounds_check(x + b, y + i, CHIP8_WIDTH, CHIP8_HEIGHT)
                invariant
                    x < CHIP8_WIDTH,
                    y < CHIP8_HEIGHT,
                    i < sprite@.len(),
                    i < CHIP8_HEIGHT,
                    b <= 8,
                    bits == sprite@[i as int],
                    before.len() == CHIP8_HEIGHT,
                    forall|r: int|
                        0 <= r < CHIP8_HEIGHT ==> (#[trigger] before[r]).len() == CHIP8_WIDTH,
                    self@ == partly_drawn(before, sprite@, x as int, y as int, i as int, b as int),
                    collision == collides_before(
                        before,
                        sprite@,
                        x as int,
                        y as int,
                        i as int,
                        b as int,
                    ),
                decreases 8 - b,
            {
                let ghost current = self@;
                let row: usize = y + i;
                let col: usize = x + b;
                assert(current[row as int][col as int] == before[row as int][col as int]);
                assert(sprite_lit(sprite@, x as int, y as int, row as int, col as int)
                    == sprite_bit(bits, b as int));
                if bits & (0x80u8 >> b) != 0 {
                    if self.buffer[row][col] == 1 {
                        collision = true;
                    }
                    self.buffer[row][col] ^= 1;
                }
                b += 1;
                let ghost next = partly_drawn(
                    before,
                    sprite@,
                    x as int,
                    y as int,
                    i as int,
                    b as int,
                );
                assert forall|r: int, c: int|
                    0 <= r < CHIP8_HEIGHT && 0 <= c < CHIP8_WIDTH implies #[trigger] self@[r][c]
                    == next[r][c] by {
                    if r != row || c != col {
                        assert(self@[r][c] == current[r][c]);
                    }
                }
                assert(self@ =~~= next);
            }
            i += 1;
            assert(self@ =~~= partly_drawn(before, sprite@, x as int, y as int, i as int, 0));
        }
        assert(self@ =~~= drawn_display(before, sprite@, x as int, y as int));
        collision
    }
}

/// The keyboard latch: one entry for each key of the hexadecimal keypad,
/// 0 while the key is up and 1 while it is down.
#[derive(Debug)]
pub struct KeyboardBuffer {
    pub buffer: [u8; KEYBOARD_SIZE],
}

impl View for KeyboardBuffer {
    type V = Seq<u8>;

    open spec fn view(&self) -> Seq<u8> {
        self.buffer@
    }
}

/// A latch in which every key is up.
pub open spec fn idle_keyboard() -> Seq<u8> {
    Seq::new(KEYBOARD_SIZE as nat, |key: int| 0u8)
}

/// Whether no key is down.
pub open spec fn all_keys_up(keys: Seq<u8>) -> bool {
    forall|key: int| 0 <= key < keys.len() ==> keys[key] == 0
}

/// Whether `key` is down and no key with a lower number is.
pub open spec fn is_first_key_down(keys: Seq<u8>, key: int) -> bool {
    &&& 0 <= key < keys.len()
    &&& keys[key] == 1
    &&& forall|lower: int| 0 <= lower < key ==> keys[lower] != 1
}

/// The key with the lowest number among those that are down.
pub open spec fn first_key_down(keys: Seq<u8>) -> Option<u8> {
    if exists|key: int| is_first_key_down(keys, key) {
        Some((choose|key: int| is_first_key_down(keys, key)) as u8)
    } else {
        None
    }
}

impl Default for KeyboardBuffer {
    fn default() -> (keyboard: KeyboardBuffer)
        ensures
            keyboard@ == idle_keyboard(),
    {
        let keyboard = KeyboardBuffer { buffer: [0u8; KEYBOARD_SIZE] };
        assert(keyboard@ =~= idle_keyboard());
        keyboard
    }
}

impl KeyboardBuffer {
    /// Whether no key is down.
    pub fn all_up(&self) -> (up: bool)
        ensures
            up == all_keys_up(self@),
    {
        let mut key: usize = 0;
        while key < KEYBOARD_SIZE
            invariant
                key <= KEYBOARD_SIZE,
                forall|k: int| 0 <= k < key ==> self@[k] == 0,
            decreases KEYBOARD_SIZE - key,
        {
            if self.buffer[key] != 0 {
                return false;
            }
            key += 1;
        }
        true
    }

    /// The key with the lowest number among those that are down.
    pub fn first_down(&self) -> (found: Option<u8>)
        ensures
            found == first_key_down(self@),
            found matches Some(key) ==> is_first_key_down(self@, key as int),
    {
        let mut key: u8 = 0;
        while key < 16
            invariant
                key <= 16,
                forall|k: int| 0 <= k < key ==> self@[k] != 1,
            decreases 16 - key,
        {
            if self.buffer[key as usize] == 1 {
                assert(is_first_key_down(self@, key as int));
                let ghost chosen = choose|k: int| is_first_key_down(self@, k);
                assert(chosen == key);
                return Some(key);
            }
            key += 1;
        }
        None
    }

    /// Whether the key with the number `key` is down.
    pub fn is_down(&self, key: usize) -> (down: bool)
        requires
            key < KEYBOARD_SIZE,
        ensures
            down == (self@[key as int] == 1),
    {
        self.buffer[key] == 1
    }

    /// Records that the key with the number `key` is down, or that it is up.
    pub fn set_key(&mut self, key: usize, down: bool)
        requires
            key < KEYBOARD_SIZE,
        ensures
            final(self)@ == old(self)@.update(
                key as int,
                if down {
                    1u8
                } else {
                    0u8
                },
            ),
    {
        self.buffer[key] = if down {
            1
        } else {
            0
        };
    }
}

} // verus!
