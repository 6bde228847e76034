//! The instruction set and its decoder.

use vstd::prelude::*;

verus! {

/// One instruction of the machine. `x` and `y` name registers, `value` is
/// the byte and `addr` the 12-bit address that the instruction carries.
#[derive(Clone, Copy, Debug, PartialEq, Eq, Structural)]
pub enum Instruction {
    /// `00E0`: clear the framebuffer.
    ClearScreen,
    /// `00EE`: return from a subroutine.
    Return,
    /// `1nnn`: jump to `addr`.
    Jump { addr: u16 },
    /// `2nnn`: call the subroutine at `addr`.
    Call { addr: u16 },
    /// `3xnn`: skip the next instruction if `Vx` equals `value`.
    SkipIfEqual { x: u8, value: u8 },
    /// `4xnn`: skip the next instruction if `Vx` differs from `value`.
    SkipIfNotEqual { x: u8, value: u8 },
    /// `5xy0`: skip the next instruction if `Vx` equals `Vy`.
    SkipIfRegistersEqual { x: u8, y: u8 },
    /// `6xnn`: set `Vx` to `value`.
    Load { x: u8, value: u8 },
    /// `7xnn`: add `value` to `Vx`, without a carry flag.
    AddImmediate { x: u8, value: u8 },
    /// `8xy0`: set `Vx` to `Vy`.
    Copy { x: u8, y: u8 },
    /// `8xy1`: set `Vx` to `Vx | Vy`.
    Or { x: u8, y: u8 },
    /// `8xy2`: set `Vx` to `Vx & Vy`.
    And { x: u8, y: u8 },
    /// `8xy3`: set `Vx` to `Vx ^ Vy`.
    Xor { x: u8, y: u8 },
    /// `8xy4`: add `Vy` to `Vx`; `VF` is the carry.
    AddRegisters { x: u8, y: u8 },
    /// `8xy5`: subtract `Vy` from `Vx`; `VF` is 1 unless a borrow occurred.
    Subtract { x: u8, y: u8 },
    /// `8xy6`: shift `Vx` right by one bit; `VF` is the bit shifted out.
    ShiftRight { x: u8, y: u8 },
    /// `8xy7`: set `Vx` to `Vy - Vx`; `VF` is 1 unless a borrow occurred.
    SubtractReversed { x: u8, y: u8 },
    /// `8xyE`: shift `Vx` left by one bit; `VF` is the bit shifted out.
    ShiftLeft { x: u8, y: u8 },
    /// `9xy0`: skip the next instruction if `Vx` differs from `Vy`.
    SkipIfRegistersDiffer { x: u8, y: u8 },
    /// `Annn`: set the index register to `addr`.
    LoadIndex { addr: u16 },
    /// `Bnnn`: jump to `addr + V0`.
    JumpOffset { addr: u16 },
    /// `Cxnn`: set `Vx` to a random byte masked with `value`.
    Random { x: u8, value: u8 },
    /// `Dxyn`: draw the sprite of `rows` rows at `(Vx, Vy)`.
    Draw { x: u8, y: u8, rows: u8 },
    /// `Ex9E`: skip the next instruction if the key `Vx` is down.
    SkipIfKeyDown { x: u8 },
    /// `ExA1`: skip the next instruction if the key `Vx` is up.
    SkipIfKeyUp { x: u8 },
    /// `Fx07`: set `Vx` to the delay timer.
    ReadDelay { x: u8 },
    /// `Fx0A`: wait for a key and store it in `Vx`.
    WaitKey { x: u8 },
    /// `Fx15`: set the delay timer to `Vx`.
    SetDelay { x: u8 },
    /// `Fx18`: set the sound timer to `Vx`.
    SetSound { x: u8 },
    /// `Fx1E`: add `Vx` to the index register.
    AddIndex { x: u8 },
    /// `Fx29`: point the index register at the glyph of the digit `Vx`.
    FontGlyph { x: u8 },
    /// `Fx33`: store the three decimal digits of `Vx` at the index register.
    StoreDecimal { x: u8 },
    /// `Fx55`: store `V0` to `Vx` at the index register.
    StoreRegisters { x: u8 },
    /// `Fx65`: load `V0` to `Vx` from the index register.
    LoadRegisters { x: u8 },
}

/// Why four nibbles are no instruction.
#[derive(Clone, Copy, Debug, PartialEq, Eq, Structural)]
pub enum DecodeError {
    /// `0nnn` other than `00E0` and `00EE`: a call of a machine-code routine,
    /// which this machine does not have.
    MachineRoutine,
    /// No instruction has this pattern.
    Invalid,
}

/// The byte that the nibbles `y` and `n` form.
pub open spec fn byte_of(y: u8, n: u8) -> u8 {
    (y * 16 + n) as u8
}

/// The 12-bit address that the nibbles `x`, `y` and `n` form.
pub open spec fn addr_of(x: u8, y: u8, n: u8) -> u16 {
    (x * 256 + y * 16 + n) as u16
}

/// The nibbles of an instruction that carries a 12-bit address.
pub open spec fn nibbles_with_addr(opcode: u8, addr: u16) -> (u8, u8, u8, u8) {
    (opcode, (addr / 256) as u8, (addr / 16 % 16) as u8, (addr % 16) as u8)
}

/// The nibbles of an instruction that carries a register and a byte.
pub open spec fn nibbles_with_byte(opcode: u8, x: u8, value: u8) -> (u8, u8, u8, u8) {
    (opcode, x, value / 16, value % 16)
}

impl Instruction {
    /// Whether the operands are in range: register numbers and sprite heights
    /// below 16, addresses below 4096.
    pub open spec fn wf(self) -> bool {
        match self {
            Instruction::ClearScreen | Instruction::Return => true,
            Instruction::Jump { addr }
            | Instruction::Call { addr }
            | Instruction::LoadIndex { addr }
            | Instruction::JumpOffset { addr } => addr < 4096,
            Instruction::SkipIfEqual { x, value }
            | Instruction::SkipIfNotEqual { x, value }
            | Instruction::Load { x, value }
            | Instruction::AddImmediate { x, value }
            | Instruction::Random { x, value } => x < 16,
            Instruction::SkipIfRegistersEqual { x, y }
            | Instruction::Copy { x, y }
            | Instruction::Or { x, y }
            | Instruction::And { x, y }
            | Instruction::Xor { x, y }
            | Instruction::AddRegisters { x, y }
            | Instruction::Subtract { x, y }
            | Instruction::ShiftRight { x, y }
            | Instruction::SubtractReversed { x, y }
            | Instruction::ShiftLeft { x, y }
            | Instruction::SkipIfRegistersDiffer { x, y } => x < 16 && y < 16,
            Instruction::Draw { x, y, rows } => x < 16 && y < 16 && rows < 16,
            Instruction::SkipIfKeyDown { x }
            | Instruction::SkipIfKeyUp { x }
            | Instruction::ReadDelay { x }
            | Instruction::WaitKey { x }
            | Instruction::SetDelay { x }
            | Instruction::SetSound { x }
            | Instruction::AddIndex { x }
            | Instruction::FontGlyph { x }
            | Instruction::StoreDecimal { x }
            | Instruction::StoreRegisters { x }
            | Instruction::LoadRegisters { x } => x < 16,
        }
    }

    /// The four nibbles that encode the instruction, most significant first.
    pub open spec fn encode(self) -> (u8, u8, u8, u8) {
        match self {
            Instruction::ClearScreen => (0, 0, 0xE, 0),
            Instruction::Return => (0, 0, 0xE, 0xE),
            Instruction::Jump { addr } => nibbles_with_addr(1, addr),
            Instruction::Call { addr } => nibbles_with_addr(2, addr),
            Instruction::SkipIfEqual { x, value } => nibbles_with_byte(3, x, value),
            Instruction::SkipIfNotEqual { x, value } => nibbles_with_byte(4, x, value),
            Instruction::SkipIfRegistersEqual { x, y } => (5, x, y, 0),
            Instruction::Load { x, value } => nibbles_with_byte(6, x, value),
            Instruction::AddImmediate { x, value } => nibbles_with_byte(7, x, value),
            Instruction::Copy { x, y } => (8, x, y, 0),
            Instruction::Or { x, y } => (8, x, y, 1),
            Instruction::And { x, y } => (8, x, y, 2),
            Instruction::Xor { x, y } => (8, x, y, 3),
            Instruction::AddRegisters { x, y } => (8, x, y, 4),
            Instruction::Subtract { x, y } => (8, x, y, 5),
            Instruction::ShiftRight { x, y } => (8, x, y, 6),
            Instruction::SubtractReversed { x, y } => (8, x, y, 7),
            Instruction::ShiftLeft { x, y } => (8, x, y, 0xE),
            Instruction::SkipIfRegistersDiffer { x, y } => (9, x, y, 0),
            Instruction::LoadIndex { addr } => nibbles_with_addr(0xA, addr),
            Instruction::JumpOffset { addr } => nibbles_with_addr(0xB, addr),
            Instruction::Random { x, value } => nibbles_with_byte(0xC, x, value),
            Instruction::Draw { x, y, rows } => (0xD, x, y, rows),
            Instruction::SkipIfKeyDown { x } => (0xE, x, 9, 0xE),
            Instruction::SkipIfKeyUp { x } => (0xE, x, 0xA, 1),
            Instruction::ReadDelay { x } => (0xF, x, 0, 7),
            Instruction::WaitKey { x } => (0xF, x, 0, 0xA),
            Instruction::SetDelay { x } => (0xF, x, 1, 5),
            Instruction::SetSound { x } => (0xF, x, 1, 8),
            Instruction::AddIndex { x } => (0xF, x, 1, 0xE),
            Instruction::FontGlyph { x } => (0xF, x, 2, 9),
            Instruction::StoreDecimal { x } => (0xF, x, 3, 3),
            Instruction::StoreRegisters { x } => (0xF, x, 5, 5),
            Instruction::LoadRegisters { x } => (0xF, x, 6, 5),
        }
    }

    /// The instruction that four nibbles stand for, as the opcode table gives
    /// it, or why they stand for none. A value above 15 is no nibble.
    pub open spec fn spec_decode(opcode: u8, x: u8, y: u8, n: u8) -> Result<
        Instruction,
        DecodeError,
    > {
        if opcode > 15 || x > 15 || y > 15 || n > 15 {
            Err(DecodeError::Invalid)
        } else {
            match (opcode, x, y, n) {
                (0, 0, 0xE, 0) => Ok(Instruction::ClearScreen),
                (0, 0, 0xE, 0xE) => Ok(Instruction::Return),
                (0, _, _, _) => Err(DecodeError::MachineRoutine),
                (1, _, _, _) => Ok(Instruction::Jump { addr: addr_of(x, y, n) }),
                (2, _, _, _) => Ok(Instruction::Call { addr: addr_of(x, y, n) }),
                (3, _, _, _) => Ok(Instruction::SkipIfEqual { x, value: byte_of(y, n) }),
                (4, _, _, _) => Ok(Instruction::SkipIfNotEqual { x, value: byte_of(y, n) }),
                (5, _, _, 0) => Ok(Instruction::SkipIfRegistersEqual { x, y }),
                (6, _, _, _) => Ok(Instruction::Load { x, value: byte_of(y, n) }),
                (7, _, _, _) => Ok(Instruction::AddImmediate { x, value: byte_of(y, n) }),
                (8, _, _, 0) => Ok(Instruction::Copy { x, y }),
                (8, _, _, 1) => Ok(Instruction::Or { x, y }),
                (8, _, _, 2) => Ok(Instruction::And { x, y }),
                (8, _, _, 3) => Ok(Instruction::Xor { x, y }),
                (8, _, _, 4) => Ok(Instruction::AddRegisters { x, y }),
                (8, _, _, 5) => Ok(Instruction::Subtract { x, y }),
                (8, _, _, 6) => Ok(Instruction::ShiftRight { x, y }),
                (8, _, _, 7) => Ok(Instruction::SubtractReversed { x, y }),
                (8, _, _, 0xE) => Ok(Instruction::ShiftLeft { x, y }),
                (9, _, _, 0) => Ok(Instruction::SkipIfRegistersDiffer { x, y }),
                (0xA, _, _, _) => Ok(Instruction::LoadIndex { addr: addr_of(x, y, n) }),
                (0xB, _, _, _) => Ok(Instruction::JumpOffset { addr: addr_of(x, y, n) }),
                (0xC, _, _, _) => Ok(Instruction::Random { x, value: byte_of(y, n) }),
                (0xD, _, _, _) => Ok(Instruction::Draw { x, y, rows: n }),
                (0xE, _, 9, 0xE) => Ok(Instruction::SkipIfKeyDown { x }),
                (0xE, _, 0xA, 1) => Ok(Instruction::SkipIfKeyUp { x }),
                (0xF, _, 0, 7) => Ok(Instruction::ReadDelay { x }),
                (0xF, _, 0, 0xA) => Ok(Instruction::WaitKey { x }),
                (0xF, _, 1, 5) => Ok(Instruction::SetDelay { x }),
                (0xF, _, 1, 8) => Ok(Instruction::SetSound { x }),
                (0xF, _, 1, 0xE) => Ok(Instruction::AddIndex { x }),
                (0xF, _, 2, 9) => Ok(Instruction::FontGlyph { x }),
                (0xF, _, 3, 3) => Ok(Instruction::StoreDecimal { x }),
                (0xF, _, 5, 5) => Ok(Instruction::StoreRegisters { x }),
                (0xF, _, 6, 5) => Ok(Instruction::LoadRegisters { x }),
                _ => Err(DecodeError::Invalid),
            }
        }
    }

    /// Decodes four nibbles, most significant first.
    #[verifier::when_used_as_spec(spec_decode)]
    pub fn decode(opcode: u8, x: u8, y: u8, n: u8) -> (decoded: Result<Instruction, DecodeError>)
        ensures
            decoded == Instruction::spec_decode(opcode, x, y, n),
            decoded matches Ok(instr) ==> instr.wf() && instr.encode() == (opcode, x, y, n),
    {
        proof {
            Instruction::lemma_encode_decode(opcode, x, y, n);
        }
        if opcode > 15 || x > 15 || y > 15 || n > 15 {
            return Err(DecodeError::Invalid);
        }
        let value: u8 = y * 16 + n;
        let addr: u16 = (x as u16) * 256 + (y as u16) * 16 + (n as u16);
        match (opcode, x, y, n) {
            (0, 0, 0xE, 0) => Ok(Instruction::ClearScreen),
            (0, 0, 0xE, 0xE) => Ok(Instruction::Return),
            (0, _, _, _) => Err(DecodeError::MachineRoutine),
            (1, _, _, _) => Ok(Instruction::Jump { addr }),
            (2, _, _, _) => Ok(Instruction::Call { addr }),
            (3, _, _, _) => Ok(Instruction::SkipIfEqual { x, value }),
            (4, _, _, _) => Ok(Instruction::SkipIfNotEqual { x, value }),
            (5, _, _, 0) => Ok(Instruction::SkipIfRegistersEqual { x, y }),
            (6, _, _, _) => Ok(Instruction::Load { x, value }),
            (7, _, _, _) => Ok(Instruction::AddImmediate { x, value }),
            (8, _, _, 0) => Ok(Instruction::Copy { x, y }),
            (8, _, _, 1) => Ok(Instruction::Or { x, y }),
            (8, _, _, 2) => Ok(Instruction::And { x, y }),
            (8, _, _, 3) => Ok(Instruction::Xor { x, y }),
            (8, _, _, 4) => Ok(Instruction::AddRegisters { x, y }),
            (8, _, _, 5) => Ok(Instruction::Subtract { x, y }),
            (8, _, _, 6) => Ok(Instruction::ShiftRight { x, y }),
            (8, _, _, 7) => Ok(Instruction::SubtractReversed { x, y }),
            (8, _, _, 0xE) => Ok(Instruction::ShiftLeft { x, y }),
            (9, _, _, 0) => Ok(Instruction::SkipIfRegistersDiffer { x, y }),
            (0xA, _, _, _) => Ok(Instruction::LoadIndex { addr }),
            (0xB, _, _, _) => Ok(Instruction::JumpOffset { addr }),
            (0xC, _, _, _) => Ok(Instruction::Random { x, value }),
            (0xD, _, _, _) => Ok(Instruction::Draw { x, y, rows: n }),
            (0xE, _, 9, 0xE) => Ok(Instruction::SkipIfKeyDown { x }),
            (0xE, _, 0xA, 1) => Ok(Instruction::SkipIfKeyUp { x }),
            (0xF, _, 0, 7) => Ok(Instruction::ReadDelay { x }),
            (0xF, _, 0, 0xA) => Ok(Instruction::WaitKey { x }),
            (0xF, _, 1, 5) => Ok(Instruction::SetDelay { x }),
            (0xF, _, 1, 8) => Ok(Instruction::SetSound { x }),
            (0xF, _, 1, 0xE) => Ok(Instruction::AddIndex { x }),
            (0xF, _, 2, 9) => Ok(Instruction::FontGlyph { x }),
            (0xF, _, 3, 3) => Ok(Instruction::StoreDecimal { x }),
            (0xF, _, 5, 5) => Ok(Instruction::StoreRegisters { x }),
            (0xF, _, 6, 5) => Ok(Instruction::LoadRegisters { x }),
            _ => Err(DecodeError::Invalid),
        }
    }

    /// What four nibbles decode to is in range, and they are its encoding.
    pub proof fn lemma_encode_decode(opcode: u8, x: u8, y: u8, n: u8)
        ensures
            Instruction::spec_decode(opcode, x, y, n) matches Ok(instr) ==> instr.wf()
                && instr.encode() == (opcode, x, y, n),
    {
        if x < 16 && y < 16 && n < 16 {
            lemma_split_joined(x, y, n);
        }
    }

    /// Every instruction is what its encoding decodes to.
    pub proof fn lemma_decode_encode(self)
        requires
            self.wf(),
        ensures
            Instruction::spec_decode(
                self.encode().0,
                self.encode().1,
                self.encode().2,
                self.encode().3,
            ) == Ok::<Instruction, DecodeError>(self),
    {
        match self {
            Instruction::Jump { addr }
            | Instruction::Call { addr }
            | Instruction::LoadIndex { addr }
            | Instruction::JumpOffset { addr } => {
                lemma_join_split_addr(addr);
            },
            Instruction::SkipIfEqual { x, value }
            | Instruction::SkipIfNotEqual { x, value }
            | Instruction::Load { x, value }
            | Instruction::AddImmediate { x, value }
            | Instruction::Random { x, value } => {
                lemma_join_split_byte(value);
            },
            _ => {},
        }
    }
}

/// Joining nibbles and splitting the result gives the nibbles back.
proof fn lemma_split_joined(x: u8, y: u8, n: u8)
    requires
        x < 16,
        y < 16,
        n < 16,
    ensures
        byte_of(y, n) / 16 == y,
        byte_of(y, n) % 16 == n,
        addr_of(x, y, n) < 4096,
        addr_of(x, y, n) / 256 == x,
        addr_of(x, y, n) / 16 % 16 == y,
        addr_of(x, y, n) % 16 == n,
{
    let byte: int = y * 16 + n;
    assert(0 <= byte < 256);
    assert(byte / 16 == y && byte % 16 == n);
    let low: int = y * 16 + n;
    let addr: int = x * 256 + low;
    assert(0 <= addr < 4096);
    assert(addr / 256 == x && addr % 256 == low);
    assert(addr % 16 == n);
    assert(addr / 16 == x * 16 + y);
    assert(addr / 16 % 16 == y);
}

/// Splitting a byte into nibbles and joining them gives the byte back.
proof fn lemma_join_split_byte(value: u8)
    ensures
        value / 16 < 16,
        value % 16 < 16,
        byte_of(value / 16, value % 16) == value,
{
}

/// Splitting a 12-bit address into nibbles and joining them gives the
/// address back.
proof fn lemma_join_split_addr(addr: u16)
    requires
        addr < 4096,
    ensures
        addr / 256 < 16,
        addr / 16 % 16 < 16,
        addr % 16 < 16,
        addr_of((addr / 256) as u8, (addr / 16 % 16) as u8, (addr % 16) as u8) == addr,
{
}

} // verus!
