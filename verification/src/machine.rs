//! The state of the machine as a mathematical value, and what each
//! instruction does to it.

use vstd::prelude::*;
use crate::consts::{
    CHIP8_HEIGHT, CHIP8_WIDTH, GLYPH_BYTES, KEYBOARD_SIZE, RAM_BYTES, REG_COUNT, STACK_SIZE,
};
use crate::instruction::{DecodeError, Instruction};
use crate::processor::{CycleStatus, Fault, Trap};
use crate::ram::{
    all_keys_up, blank_display, drawn_display, first_key_down, is_binary, sprite_collides,
};
use crate::utils::{high_nibble, low_nibble};

verus! {

/// The state of the machine.
#[verifier::ext_equal]
pub struct Machine {
    /// The 16 return addresses of the call stack.
    pub stack: Seq<u16>,
    /// The registers V0 to VF.
    pub registers: Seq<u8>,
    /// The index register.
    pub idx_register: u16,
    /// The program counter.
    pub pc: u16,
    /// The number of return addresses on the call stack.
    pub stack_pointer: u8,
    /// The delay timer.
    pub delay_timer: u8,
    /// The sound timer.
    pub sound_timer: u8,
    /// The 4096 bytes of memory.
    pub ram: Seq<u8>,
    /// The framebuffer: 32 rows of 64 pixels.
    pub display: Seq<Seq<u8>>,
    /// The keyboard latch: one entry for each of the 16 keys.
    pub keyboard: Seq<u8>,
}

/// The value of an 8-bit register that holds `v` modulo 256.
pub open spec fn wrap8(v: int) -> u8 {
    (v % 256) as u8
}

/// The value of a 16-bit register that holds `v` modulo 65536.
pub open spec fn wrap16(v: int) -> u16 {
    (v % 65536) as u16
}

/// A timer after one cycle: one less, unless it has reached zero.
pub open spec fn counted_down(timer: u8) -> u8 {
    if timer > 0 {
        (timer - 1) as u8
    } else {
        0
    }
}

/// 1 if `condition` holds and 0 if not: the value a flag is stored as.
pub open spec fn flag(condition: bool) -> u8 {
    if condition {
        1
    } else {
        0
    }
}

/// `trap` if `condition` holds, and nothing if not.
pub open spec fn trap_if(condition: bool, trap: Trap) -> Option<Trap> {
    if condition {
        Some(trap)
    } else {
        None
    }
}

/// The memory after the three decimal digits of `value` were stored at
/// `idx`, the hundreds first.
pub open spec fn stored_decimal(ram: Seq<u8>, idx: int, value: u8) -> Seq<u8> {
    ram.update(idx, value / 100).update(idx + 1, value / 10 % 10).update(idx + 2, value % 10)
}

/// The memory after the registers V0 to V`last` were stored at `idx` and the
/// addresses that follow it.
pub open spec fn stored_registers(ram: Seq<u8>, registers: Seq<u8>, idx: int, last: int) -> Seq<
    u8,
> {
    Seq::new(
        ram.len(),
        |a: int|
            if idx <= a <= idx + last {
                registers[a - idx]
            } else {
                ram[a]
            },
    )
}

/// The registers after V0 to V`last` were loaded from `idx` and the
/// addresses that follow it.
pub open spec fn loaded_registers(ram: Seq<u8>, registers: Seq<u8>, idx: int, last: int) -> Seq<
    u8,
> {
    Seq::new(
        registers.len(),
        |r: int|
            if r <= last {
                ram[idx + r]
            } else {
                registers[r]
            },
    )
}

impl Machine {
    /// The machine as it is switched on with the given memory, framebuffer
    /// and keyboard latch: the program counter at the program offset,
    /// everything else at zero.
    pub open spec fn power_on(ram: Seq<u8>, display: Seq<Seq<u8>>, keyboard: Seq<u8>) -> Machine {
        Machine {
            stack: Seq::new(STACK_SIZE as nat, |i: int| 0u16),
            registers: Seq::new(REG_COUNT as nat, |i: int| 0u8),
            idx_register: 0,
            pc: 0x200,
            stack_pointer: 0,
            delay_timer: 0,
            sound_timer: 0,
            ram,
            display,
            keyboard,
        }
    }

    /// Whether every part has the size that the machine gives it.
    pub open spec fn wf(self) -> bool {
        &&& self.stack.len() == STACK_SIZE
        &&& self.registers.len() == REG_COUNT
        &&& self.ram.len() == RAM_BYTES
        &&& self.display.len() == CHIP8_HEIGHT
        &&& forall|row: int|
            0 <= row < CHIP8_HEIGHT ==> (#[trigger] self.display[row]).len() == CHIP8_WIDTH
        &&& self.keyboard.len() == KEYBOARD_SIZE
    }

    /// Whether the machine is in a state that its own cycles lead to: no
    /// more return addresses on the stack than it holds, and every pixel
    /// and every key either 0 or 1.
    pub open spec fn valid(self) -> bool {
        &&& self.wf()
        &&& self.stack_pointer <= STACK_SIZE
        &&& is_binary(self.display)
        &&& forall|key: int| 0 <= key < KEYBOARD_SIZE ==> self.keyboard[key] <= 1
    }

    /// Whether the program counter and the return addresses on the stack
    /// are even.
    pub open spec fn aligned(self) -> bool {
        &&& self.pc % 2 == 0
        &&& forall|level: int| 0 <= level < self.stack_pointer ==> self.stack[level] % 2 == 0
    }

    /// The value of the register V`x`.
    pub open spec fn reg(self, x: u8) -> u8 {
        self.registers[x as int]
    }

    /// The machine with `value` in the register V`x`.
    pub open spec fn with_reg(self, x: u8, value: u8) -> Machine {
        Machine { registers: self.registers.update(x as int, value), ..self }
    }

    /// The machine with the program counter at `pc`.
    pub open spec fn with_pc(self, pc: u16) -> Machine {
        Machine { pc, ..self }
    }

    /// The machine with the program counter past the next instruction if
    /// `skip` holds, and unchanged if not.
    pub open spec fn skipping(self, skip: bool) -> Machine {
        if skip {
            self.with_pc(wrap16(self.pc + 2))
        } else {
            self
        }
    }

    /// The machine with both timers counted down once.
    pub open spec fn ticked(self) -> Machine {
        Machine {
            delay_timer: counted_down(self.delay_timer),
            sound_timer: counted_down(self.sound_timer),
            ..self
        }
    }

    /// The sprite of `rows` rows that the index register points at.
    pub open spec fn sprite(self, rows: u8) -> Seq<u8> {
        self.ram.subrange(self.idx_register as int, self.idx_register + rows)
    }

    /// Why the machine cannot execute `instr` in this state, if it cannot:
    /// the call stack is full or empty, an address that the instruction
    /// reads or writes lies outside the memory, or the key it asks for is
    /// none of the 16.
    pub open spec fn trap(self, instr: Instruction) -> Option<Trap> {
        let idx = self.idx_register as int;
        match instr {
            Instruction::Return => if self.stack_pointer == 0 {
                Some(Trap::StackUnderflow)
            } else {
                trap_if(self.stack_pointer > STACK_SIZE, Trap::StackOverflow)
            },
            Instruction::Call { addr } => trap_if(
                self.stack_pointer >= STACK_SIZE,
                Trap::StackOverflow,
            ),
            Instruction::Draw { x, y, rows } => trap_if(
                idx + rows > RAM_BYTES,
                Trap::AddressOutOfRange,
            ),
            Instruction::StoreDecimal { x } => trap_if(
                idx + 2 >= RAM_BYTES,
                Trap::AddressOutOfRange,
            ),
            Instruction::StoreRegisters { x } | Instruction::LoadRegisters { x } => trap_if(
                idx + x >= RAM_BYTES,
                Trap::AddressOutOfRange,
            ),
            Instruction::SkipIfKeyDown { x } | Instruction::SkipIfKeyUp { x } => trap_if(
                self.reg(x) >= KEYBOARD_SIZE,
                Trap::KeyOutOfRange,
            ),
            _ => None,
        }
    }

    /// The machine after the effect of `instr` itself, the program counter
    /// being past the instruction already. `random` is the byte that the
    /// random instruction draws.
    pub open spec fn apply(self, instr: Instruction, random: u8) -> Machine {
        match instr {
            Instruction::ClearScreen => Machine { display: blank_display(), ..self },
            Instruction::Return => Machine {
                stack_pointer: (self.stack_pointer - 1) as u8,
                pc: self.stack[self.stack_pointer - 1],
                ..self
            },
            Instruction::Jump { addr } => self.with_pc(addr),
            Instruction::Call { addr } => Machine {
                stack: self.stack.update(self.stack_pointer as int, self.pc),
                stack_pointer: (self.stack_pointer + 1) as u8,
                pc: addr,
                ..self
            },
            Instruction::SkipIfEqual { x, value } => self.skipping(self.reg(x) == value),
            Instruction::SkipIfNotEqual { x, value } => self.skipping(self.reg(x) != value),
            Instruction::SkipIfRegistersEqual { x, y } => self.skipping(self.reg(x) == self.reg(y)),
            Instruction::SkipIfRegistersDiffer { x, y } => self.skipping(
                self.reg(x) != self.reg(y),
            ),
            Instruction::Load { x, value } => self.with_reg(x, value),
            Instruction::AddImmediate { x, value } => self.with_reg(x, wrap8(self.reg(x) + value)),
            Instruction::Copy { x, y } => self.with_reg(x, self.reg(y)),
            Instruction::Or { x, y } => self.with_reg(x, self.reg(x) | self.reg(y)),
            Instruction::And { x, y } => self.with_reg(x, self.reg(x) & self.reg(y)),
            Instruction::Xor { x, y } => self.with_reg(x, self.reg(x) ^ self.reg(y)),
            Instruction::AddRegisters { x, y } => {
                let flagged = self.with_reg(0xF, flag(self.reg(x) + self.reg(y) > 255));
                flagged.with_reg(x, wrap8(flagged.reg(x) + flagged.reg(y)))
            },
            Instruction::Subtract { x, y } => {
                let flagged = self.with_reg(0xF, flag(self.reg(x) >= self.reg(y)));
                flagged.with_reg(x, wrap8(flagged.reg(x) - flagged.reg(y)))
            },
            Instruction::SubtractReversed { x, y } => {
                let flagged = self.with_reg(0xF, flag(self.reg(y) >= self.reg(x)));
                flagged.with_reg(x, wrap8(flagged.reg(y) - flagged.reg(x)))
            },
            Instruction::ShiftRight { x, y } => {
                let flagged = self.with_reg(0xF, self.reg(x) % 2);
                flagged.with_reg(x, flagged.reg(x) / 2)
            },
            Instruction::ShiftLeft { x, y } => {
                let flagged = self.with_reg(0xF, self.reg(x) / 128);
                flagged.with_reg(x, wrap8(flagged.reg(x) * 2))
            },
            Instruction::LoadIndex { addr } => Machine { idx_register: addr, ..self },
            Instruction::JumpOffset { addr } => self.with_pc(wrap16(addr + self.reg(0))),
            Instruction::Random { x, value } => self.with_reg(x, value & random),
            Instruction::Draw { x, y, rows } => {
                let column = (self.reg(x) % 64) as int;
                let row = (self.reg(y) % 32) as int;
                let sprite = self.sprite(rows);
                Machine {
                    display: drawn_display(self.display, sprite, column, row),
                    ..self.with_reg(0xF, flag(sprite_collides(self.display, sprite, column, row)))
                }
            },
            Instruction::SkipIfKeyDown { x } => self.skipping(
                self.keyboard[self.reg(x) as int] == 1,
            ),
            Instruction::SkipIfKeyUp { x } => self.skipping(self.keyboard[self.reg(x) as int] != 1),
            Instruction::ReadDelay { x } => self.with_reg(x, self.delay_timer),
            Instruction::WaitKey { x } => if all_keys_up(self.keyboard) {
                self.with_pc(wrap16(self.pc - 2))
            } else {
                match first_key_down(self.keyboard) {
                    Some(key) => self.with_reg(x, key),
                    None => self,
                }
            },
            Instruction::SetDelay { x } => Machine { delay_timer: self.reg(x), ..self },
            Instruction::SetSound { x } => Machine { sound_timer: self.reg(x), ..self },
            Instruction::AddIndex { x } => Machine {
                idx_register: wrap16(self.idx_register + self.reg(x)),
                ..self
            },
            Instruction::FontGlyph { x } => Machine {
                idx_register: (self.reg(x) * GLYPH_BYTES) as u16,
                ..self
            },
            Instruction::StoreDecimal { x } => Machine {
                ram: stored_decimal(self.ram, self.idx_register as int, self.reg(x)),
                ..self
            },
            Instruction::StoreRegisters { x } => Machine {
                ram: stored_registers(self.ram, self.registers, self.idx_register as int, x as int),
                ..self
            },
            Instruction::LoadRegisters { x } => Machine {
                registers: loaded_registers(
                    self.ram,
                    self.registers,
                    self.idx_register as int,
                    x as int,
                ),
                ..self
            },
        }
    }

    /// The machine after `instr` was executed, the program counter being
    /// past the instruction already: the wait for a key leaves the timers
    /// alone, before every other instruction both are counted down.
    pub open spec fn execute(self, instr: Instruction, random: u8) -> Machine {
        if instr is WaitKey {
            self.apply(instr, random)
        } else {
            self.ticked().apply(instr, random)
        }
    }

    /// What a cycle that executes `instr` reports.
    pub open spec fn status(self, instr: Instruction) -> CycleStatus {
        match instr {
            Instruction::ClearScreen | Instruction::Draw { .. } => CycleStatus::RedrawScreen,
            Instruction::WaitKey { x } => if all_keys_up(self.keyboard) {
                CycleStatus::Waiting
            } else {
                CycleStatus::Continue
            },
            _ => CycleStatus::Continue,
        }
    }

    /// Whether the two bytes of an instruction lie in memory at the program
    /// counter.
    pub open spec fn can_fetch(self) -> bool {
        self.pc + 1 < RAM_BYTES
    }

    /// The four nibbles of the two bytes at the program counter.
    pub open spec fn nibbles(self) -> (u8, u8, u8, u8) {
        (
            high_nibble(self.ram[self.pc as int]),
            low_nibble(self.ram[self.pc as int]),
            high_nibble(self.ram[self.pc + 1]),
            low_nibble(self.ram[self.pc + 1]),
        )
    }

    /// The instruction at the program counter, or why there is none.
    pub open spec fn fetch(self) -> Result<Instruction, Fault> {
        let (opcode, x, y, n) = self.nibbles();
        if !self.can_fetch() {
            Err(Fault::ProgramCounter { pc: self.pc })
        } else {
            match Instruction::spec_decode(opcode, x, y, n) {
                Ok(instr) => Ok(instr),
                Err(DecodeError::MachineRoutine) => Err(
                    Fault::MachineRoutine { pc: self.pc, x, y, n },
                ),
                Err(DecodeError::Invalid) => Err(
                    Fault::InvalidInstruction { pc: self.pc, opcode, x, y, n },
                ),
            }
        }
    }

    /// Why the machine cannot run its next cycle, if it cannot.
    pub open spec fn fault(self) -> Option<Fault> {
        let (opcode, x, y, n) = self.nibbles();
        match self.fetch() {
            Err(fault) => Some(fault),
            Ok(instr) => match self.trap(instr) {
                Some(trap) => Some(Fault::Trapped { pc: self.pc, opcode, x, y, n, trap }),
                None => None,
            },
        }
    }

    /// The machine with the program counter past the instruction it points at.
    pub open spec fn fetched(self) -> Machine {
        self.with_pc(wrap16(self.pc + 2))
    }

    /// The machine after one cycle, for a machine without a fault.
    pub open spec fn step(self, random: u8) -> Machine {
        self.fetched().execute(self.fetch()->Ok_0, random)
    }

    /// What one cycle reports, for a machine without a fault.
    pub open spec fn cycle_status(self) -> CycleStatus {
        self.status(self.fetch()->Ok_0)
    }

    /// The machine after the instructions of `program` were fetched and
    /// executed one after the other, or `None` if the machine could not
    /// execute one of them.
    pub open spec fn run(self, program: Seq<Instruction>, random: u8) -> Option<Machine>
        decreases program.len(),
    {
        if program.len() == 0 {
            Some(self)
        } else if self.trap(program[0]) is Some {
            None
        } else {
            self.fetched().execute(program[0], random).run(program.drop_first(), random)
        }
    }

    /// Only the random instruction depends on the random byte.
    pub proof fn lemma_random_is_for_random(self, instr: Instruction, first: u8, second: u8)
        requires
            !(instr is Random),
        ensures
            self.execute(instr, first) == self.execute(instr, second),
    {
    }
}

} // verus!
