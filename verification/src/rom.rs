//! The program image.

use vstd::prelude::*;
use crate::consts::MAX_ROM_BYTES;

verus! {

/// Reported by [`Rom::new`] for a program that does not fit in the image.
pub const ROM_SIZE_MISMATCH: &'static str =
    "Mismatch in expected ROM size and number of bytes read";

/// A program image: the bytes of the program, followed by zeros up to the
/// size of the program region.
#[derive(Debug)]
pub struct Rom {
    pub buffer: [u8; MAX_ROM_BYTES],
}

impl View for Rom {
    type V = Seq<u8>;

    open spec fn view(&self) -> Seq<u8> {
        self.buffer@
    }
}

/// The image that holds `program`: its bytes, then zeros.
pub open spec fn program_image(program: Seq<u8>) -> Seq<u8> {
    Seq::new(
        MAX_ROM_BYTES as nat,
        |i: int|
            if i < program.len() {
                program[i]
            } else {
                0u8
            },
    )
}

impl Default for Rom {
    fn default() -> (rom: Rom)
        ensures
            rom@ == program_image(Seq::empty()),
    {
        let rom = Rom { buffer: [0u8; MAX_ROM_BYTES] };
        assert(rom@ =~= program_image(Seq::empty()));
        rom
    }
}

impl Rom {
    /// The image of a program, given by its bytes. A program that is larger
    /// than the program region is refused.
    pub fn new(program: &[u8]) -> (image: Result<Rom, &'static str>)
        ensures
            program@.len() <= MAX_ROM_BYTES ==> (image matches Ok(rom) && rom@ == program_image(
                program@,
            )),
            program@.len() > MAX_ROM_BYTES ==> image == Err::<Rom, &'static str>(
                ROM_SIZE_MISMATCH,
            ),
    {
        if program.len() > MAX_ROM_BYTES {
            return Err(ROM_SIZE_MISMATCH);
        }
        let mut rom = Rom { buffer: [0u8; MAX_ROM_BYTES] };
        let mut i: usize = 0;
        while i < program.len()
            invariant
                i <= program@.len() <= MAX_ROM_BYTES,
                forall|j: int| 0 <= j < i ==> rom.buffer@[j] == program@[j],
                forall|j: int| i <= j < MAX_ROM_BYTES ==> rom.buffer@[j] == 0u8,
            decreases program@.len() - i,
        {
            rom.buffer[i] = program[i];
            i += 1;
        }
        assert(rom@ =~= program_image(program@));
        Ok(rom)
    }
}

} // verus!
