//! The interpreter: the fetch, decode and execute cycle.

use vstd::prelude::*;
use crate::consts::{
    FONT_SET_SIZE, GLYPH_BYTES, KEYBOARD_SIZE, OP_CODE_BYTES, RAM_BYTES, REG_COUNT, STACK_SIZE,
};
use crate::instruction::{DecodeError, Instruction};
use crate::machine::{loaded_registers, stored_registers, wrap8, Machine};
use crate::ram::{
    blank_display, idle_keyboard, loaded_memory, zeroed_memory, DisplayBuffer, KeyboardBuffer, Ram,
    FONT_SIZE_MISMATCH,
};
use crate::random::RandomSource;
use crate::rom::Rom;
use crate::utils::nibble_split;

verus! {

/// What a cycle reports to the loop that drives the machine.
#[derive(Clone, Copy, Debug, PartialEq, Eq, Structural)]
pub enum CycleStatus {
    /// The framebuffer changed and is to be shown.
    RedrawScreen,
    /// The next cycle can run.
    Continue,
    /// The machine waits for a key: the cycle changed nothing.
    Waiting,
}

/// Why an instruction cannot be executed in the state the machine is in.
#[derive(Clone, Copy, Debug, PartialEq, Eq, Structural)]
pub enum Trap {
    /// A call with 16 return addresses on the stack, or a stack pointer
    /// beyond the stack.
    StackOverflow,
    /// A return with no return address on the stack.
    StackUnderflow,
    /// An address that the instruction reads or writes lies outside the memory.
    AddressOutOfRange,
    /// The key that the instruction asks for is none of the 16.
    KeyOutOfRange,
}

/// Why the machine cannot run a cycle: the program counter at which it
/// stopped, and the nibbles of the instruction found there.
#[derive(Clone, Copy, Debug, PartialEq, Eq, Structural)]
pub enum Fault {
    /// The two bytes of an instruction do not lie in memory at `pc`.
    ProgramCounter { pc: u16 },
    /// A call of a machine-code routine, `0nnn`, which this machine lacks.
    MachineRoutine { pc: u16, x: u8, y: u8, n: u8 },
    /// The nibbles are no instruction.
    InvalidInstruction { pc: u16, opcode: u8, x: u8, y: u8, n: u8 },
    /// The instruction cannot be executed in this state.
    Trapped { pc: u16, opcode: u8, x: u8, y: u8, n: u8, trap: Trap },
}

/// The machine: registers, call stack, timers, memory, framebuffer and
/// keyboard latch, with the source of its random bytes.
#[derive(Debug)]
pub struct Processor {
    /// The return addresses of the subroutines that are running.
    pub stack: [u16; STACK_SIZE],
    /// The registers V0 to VF. VF is the flag of the arithmetic and of the
    /// sprite drawing.
    pub registers: [u8; REG_COUNT],
    /// The index register: the address that the memory instructions use.
    pub idx_register: u16,
    /// The program counter: the address of the next instruction.
    pub pc: u16,
    /// The number of return addresses on the stack.
    pub stack_pointer: u8,
    /// The delay timer.
    pub delay_timer: u8,
    /// The sound timer: the tone sounds while it is not zero.
    pub sound_timer: u8,
    /// The memory.
    pub ram: Ram,
    /// The framebuffer.
    pub display_buffer: DisplayBuffer,
    /// The keyboard latch.
    pub keyboard_buffer: KeyboardBuffer,
    /// Where the random instruction draws its bytes.
    pub rng: RandomSource,
}

impl View for Processor {
    type V = Machine;

    open spec fn view(&self) -> Machine {
        Machine {
            stack: self.stack@,
            registers: self.registers@,
            idx_register: self.idx_register,
            pc: self.pc,
            stack_pointer: self.stack_pointer,
            delay_timer: self.delay_timer,
            sound_timer: self.sound_timer,
            ram: self.ram@,
            display: self.display_buffer@,
            keyboard: self.keyboard_buffer@,
        }
    }
}

impl Default for Processor {
    /// A machine with everything at zero, the program counter too.
    fn default() -> (processor: Processor)
        ensures
            processor@ == (Machine {
                pc: 0,
                ..Machine::power_on(zeroed_memory(), blank_display(), idle_keyboard())
            }),
    {
        let mut processor = Processor::new(
            Ram::default(),
            DisplayBuffer::default(),
            KeyboardBuffer::default(),
        );
        processor.pc = 0;
        processor
    }
}

impl Processor {
    /// Every part of the machine has the size that the model gives it.
    pub proof fn lemma_view_wf(&self)
        ensures
            self@.wf(),
    {
    }

    /// A machine that holds the given memory, framebuffer and keyboard latch,
    /// with the program counter at the program offset and everything else
    /// at zero.
    pub fn new(
        ram_: Ram,
        display_ram_: DisplayBuffer,
        keyboard_buffer_: KeyboardBuffer,
    ) -> (processor: Processor)
        ensures
            processor@ == Machine::power_on(ram_@, display_ram_@, keyboard_buffer_@),
    {
        let processor = Processor {
            stack: [0u16; STACK_SIZE],
            registers: [0u8; REG_COUNT],
            idx_register: 0,
            pc: 0x200,
            stack_pointer: 0,
            delay_timer: 0,
            sound_timer: 0,
            ram: ram_,
            display_buffer: display_ram_,
            keyboard_buffer: keyboard_buffer_,
            rng: RandomSource::new(),
        };
        assert(processor@ =~= Machine::power_on(ram_@, display_ram_@, keyboard_buffer_@));
        processor
    }

    /// Copies the font atlas to the start of memory and the program image
    /// to the program offset. Font data of another size than the font region
    /// is refused.
    pub fn init_ram(&mut self, rom: &Rom, fonts: &[u8]) -> (loaded: Result<(), &'static str>)
        ensures
            fonts@.len() == FONT_SET_SIZE ==> loaded is Ok && final(self)@ == (Machine {
                ram: loaded_memory(old(self)@.ram, fonts@, rom@),
                ..old(self)@
            }),
            fonts@.len() != FONT_SET_SIZE ==> loaded == Err::<(), &'static str>(FONT_SIZE_MISMATCH)
                && final(self)@ == old(self)@,
    {
        self.ram.load(fonts, rom.buffer.as_slice())
    }

    /// Counts both timers down once.
    fn tick(&mut self)
        ensures
            final(self)@ == old(self)@.ticked(),
    {
        if self.delay_timer > 0 {
            self.delay_timer -= 1;
        }
        if self.sound_timer > 0 {
            self.sound_timer -= 1;
        }
    }

    /// Stores `value` in the register V`x`.
    fn set_reg(&mut self, x: u8, value: u8)
        requires
            x < 16,
        ensures
            final(self)@ == old(self)@.with_reg(x, value),
    {
        self.registers[x as usize] = value;
    }

    /// Moves the program counter past the next instruction if `skip` holds.
    fn skip_if(&mut self, skip: bool)
        ensures
            final(self)@ == old(self)@.skipping(skip),
    {
        if skip {
            self.pc = self.pc.wrapping_add(OP_CODE_BYTES as u16);
        }
    }

    /// Why the machine cannot execute `instr` in the state it is in, if it
    /// cannot.
    pub fn trap(&self, instr: Instruction) -> (trap: Option<Trap>)
        requires
            instr.wf(),
        ensures
            trap == self@.trap(instr),
    {
        let idx: usize = self.idx_register as usize;
        match instr {
            Instruction::Return => {
                if self.stack_pointer == 0 {
                    Some(Trap::StackUnderflow)
                } else if self.stack_pointer as usize > STACK_SIZE {
                    Some(Trap::StackOverflow)
                } else {
                    None
                }
            },
            Instruction::Call { addr } => {
                if self.stack_pointer as usize >= STACK_SIZE {
                    Some(Trap::StackOverflow)
                } else {
                    None
                }
            },
            Instruction::Draw { x, y, rows } => {
                if idx + rows as usize > RAM_BYTES {
                    Some(Trap::AddressOutOfRange)
                } else {
                    None
                }
            },
            Instruction::StoreDecimal { x } => {
                if idx + 2 >= RAM_BYTES {
                    Some(Trap::AddressOutOfRange)
                } else {
                    None
                }
            },
            Instruction::StoreRegisters { x } | Instruction::LoadRegisters { x } => {
                if idx + x as usize >= RAM_BYTES {
                    Some(Trap::AddressOutOfRange)
                } else {
                    None
                }
            },
            Instruction::SkipIfKeyDown { x } | Instruction::SkipIfKeyUp { x } => {
                if self.registers[x as usize] as usize >= KEYBOARD_SIZE {
                    Some(Trap::KeyOutOfRange)
                } else {
                    None
                }
            },
            _ => None,
        }
    }

    /// The effect of the wait for a key: with no key down the program
    /// counter goes back to the instruction, so that the next cycle runs it
    /// again; otherwise the lowest key that is down is stored in V`x`.
    fn wait_key(&mut self, x: u8) -> (status: CycleStatus)
        requires
            x < 16,
        ensures
            final(self)@ == old(self)@.apply(Instruction::WaitKey { x }, 0),
            status == old(self)@.status(Instruction::WaitKey { x }),
    {
        if self.keyboard_buffer.all_up() {
            self.pc = self.pc.wrapping_sub(OP_CODE_BYTES as u16);
            CycleStatus::Waiting
        } else {
            match self.keyboard_buffer.first_down() {
                Some(key) => {
                    self.set_reg(x, key);
                },
                None => {},
            }
            CycleStatus::Continue
        }
    }

    /// Draws the sprite of `rows` rows that the index register points at,
    /// at the column V`x` modulo 64 and the row V`y` modulo 32, and stores in
    /// VF whether a lit pixel was turned dark.
    fn draw(&mut self, x: u8, y: u8, rows: u8)
        requires
            x < 16,
            y < 16,
            old(self).idx_register + rows <= RAM_BYTES,
        ensures
            final(self)@ == old(self)@.apply(Instruction::Draw { x, y, rows }, 0),
    {
        let column: usize = (self.registers[x as usize] % 64) as usize;
        let row: usize = (self.registers[y as usize] % 32) as usize;
        let sprite = self.ram.read_range(self.idx_register as usize, rows as usize);
        let collision = self.display_buffer.draw_sprite(sprite, column, row);
        self.registers[0xF] = if collision {
            1
        } else {
            0
        };
    }

    /// Stores the registers V0 to V`x` at the index register and the
    /// addresses that follow it.
    fn store_registers(&mut self, x: u8)
        requires
            x < 16,
            old(self).idx_register + x < RAM_BYTES,
        ensures
            final(self)@ == old(self)@.apply(Instruction::StoreRegisters { x }, 0),
    {
        let idx: usize = self.idx_register as usize;
        let mut r: usize = 0;
        while r <= x as usize
            invariant
                x < 16,
                r <= x + 1,
                idx + x < RAM_BYTES,
                idx == self.idx_register,
                self@ == (Machine {
                    ram: stored_registers(old(self)@.ram, old(self)@.registers, idx as int, r - 1),
                    ..old(self)@
                }),
            decreases x + 1 - r,
        {
            self.ram.write(idx + r, self.registers[r]);
            r += 1;
            assert(self@.ram =~= stored_registers(
                old(self)@.ram,
                old(self)@.registers,
                idx as int,
                r - 1,
            ));
        }
    }

    /// Loads the registers V0 to V`x` from the index register and the
    /// addresses that follow it.
    fn load_registers(&mut self, x: u8)
        requires
            x < 16,
            old(self).idx_register + x < RAM_BYTES,
        ensures
            final(self)@ == old(self)@.apply(Instruction::LoadRegisters { x }, 0),
    {
        let idx: usize = self.idx_register as usize;
        let mut r: usize = 0;
        while r <= x as usize
            invariant
                x < 16,
                r <= x + 1,
                idx + x < RAM_BYTES,
                idx == self.idx_register,
                self@ == (Machine {
                    registers: loaded_registers(
                        old(self)@.ram,
                        old(self)@.registers,
                        idx as int,
                        r - 1,
                    ),
                    ..old(self)@
                }),
            decreases x + 1 - r,
        {
            self.registers[r] = self.ram.read(idx + r);
            r += 1;
            assert(self@.registers =~= loaded_registers(
                old(self)@.ram,
                old(self)@.registers,
                idx as int,
                r - 1,
            ));
        }
    }

    /// Jumps, calls and returns.
    fn transfer(&mut self, instr: Instruction)
        requires
            instr is Jump || instr is JumpOffset || instr is Return || instr is Call,
            old(self)@.trap(instr) is None,
        ensures
            final(self)@ == old(self)@.apply(instr, 0),
    {
        match instr {
            Instruction::Jump { addr } => {
                self.pc = addr;
            },
            Instruction::JumpOffset { addr } => {
                self.pc = addr.wrapping_add(self.registers[0] as u16);
            },
            Instruction::Return => {
                self.stack_pointer -= 1;
                self.pc = self.stack[self.stack_pointer as usize];
            },
            Instruction::Call { addr } => {
                self.stack[self.stack_pointer as usize] = self.pc;
                self.stack_pointer += 1;
                self.pc = addr;
            },
            _ => {},
        }
        assert(self@ =~= old(self)@.apply(instr, 0));
    }

    /// The conditional skips.
    fn skip(&mut self, instr: Instruction)
        requires
            instr.wf(),
            instr is SkipIfEqual || instr is SkipIfNotEqual || instr is SkipIfRegistersEqual
                || instr is SkipIfRegistersDiffer || instr is SkipIfKeyDown
                || instr is SkipIfKeyUp,
            old(self)@.trap(instr) is None,
        ensures
            final(self)@ == old(self)@.apply(instr, 0),
    {
        match instr {
            Instruction::SkipIfEqual { x, value } => {
                let vx: u8 = self.registers[x as usize];
                self.skip_if(vx == value);
            },
            Instruction::SkipIfNotEqual { x, value } => {
                let vx: u8 = self.registers[x as usize];
                self.skip_if(vx != value);
            },
            Instruction::SkipIfRegistersEqual { x, y } => {
                let vx: u8 = self.registers[x as usize];
                let vy: u8 = self.registers[y as usize];
                self.skip_if(vx == vy);
            },
            Instruction::SkipIfRegistersDiffer { x, y } => {
                let vx: u8 = self.registers[x as usize];
                let vy: u8 = self.registers[y as usize];
                self.skip_if(vx != vy);
            },
            Instruction::SkipIfKeyDown { x } => {
                let key: usize = self.registers[x as usize] as usize;
                let down: bool = self.keyboard_buffer.is_down(key);
                self.skip_if(down);
            },
            Instruction::SkipIfKeyUp { x } => {
                let key: usize = self.registers[x as usize] as usize;
                let down: bool = self.keyboard_buffer.is_down(key);
                self.skip_if(!down);
            },
            _ => {},
        }
    }

    /// The instructions that store a value in one register and touch no flag.
    fn assign(&mut self, instr: Instruction, random: u8)
        requires
            instr.wf(),
            instr is Load || instr is AddImmediate || instr is Copy || instr is Or || instr is And
                || instr is Xor || instr is Random || instr is ReadDelay,
        ensures
            final(self)@ == old(self)@.apply(instr, random),
    {
        match instr {
            Instruction::Load { x, value } => {
                self.set_reg(x, value);
            },
            Instruction::AddImmediate { x, value } => {
                self.set_reg(x, self.registers[x as usize].wrapping_add(value));
            },
            Instruction::Copy { x, y } => {
                self.set_reg(x, self.registers[y as usize]);
            },
            Instruction::Or { x, y } => {
                self.set_reg(x, self.registers[x as usize] | self.registers[y as usize]);
            },
            Instruction::And { x, y } => {
                self.set_reg(x, self.registers[x as usize] & self.registers[y as usize]);
            },
            Instruction::Xor { x, y } => {
                self.set_reg(x, self.registers[x as usize] ^ self.registers[y as usize]);
            },
            Instruction::Random { x, value } => {
                self.set_reg(x, value & random);
            },
            Instruction::ReadDelay { x } => {
                self.set_reg(x, self.delay_timer);
            },
            _ => {},
        }
    }

    /// Adds V`y` to V`x`. VF becomes the carry before the sum is stored.
    fn add_registers(&mut self, x: u8, y: u8)
        requires
            x < 16,
            y < 16,
        ensures
            final(self)@ == old(self)@.apply(Instruction::AddRegisters { x, y }, 0),
    {
        let sum: u16 = self.registers[x as usize] as u16 + self.registers[y as usize] as u16;
        let carry: bool = sum > 255;
        self.set_reg(0xF, if carry { 1 } else { 0 });
        let vx: u8 = self.registers[x as usize];
        let vy: u8 = self.registers[y as usize];
        assert(vx.wrapping_add(vy) == wrap8(vx + vy));
        self.set_reg(x, vx.wrapping_add(vy));
    }

    /// Subtracts V`y` from V`x`. VF becomes 1, or 0 on a borrow, before the
    /// difference is stored.
    fn subtract(&mut self, x: u8, y: u8)
        requires
            x < 16,
            y < 16,
        ensures
            final(self)@ == old(self)@.apply(Instruction::Subtract { x, y }, 0),
    {
        let no_borrow: bool = self.registers[x as usize] >= self.registers[y as usize];
        self.set_reg(0xF, if no_borrow { 1 } else { 0 });
        let vx: u8 = self.registers[x as usize];
        let vy: u8 = self.registers[y as usize];
        assert(vx.wrapping_sub(vy) == wrap8(vx - vy));
        self.set_reg(x, vx.wrapping_sub(vy));
    }

    /// Sets V`x` to V`y` minus V`x`. VF becomes 1, or 0 on a borrow, before
    /// the difference is stored.
    fn subtract_reversed(&mut self, x: u8, y: u8)
        requires
            x < 16,
            y < 16,
        ensures
            final(self)@ == old(self)@.apply(Instruction::SubtractReversed { x, y }, 0),
    {
        let no_borrow: bool = self.registers[y as usize] >= self.registers[x as usize];
        self.set_reg(0xF, if no_borrow { 1 } else { 0 });
        let vx: u8 = self.registers[x as usize];
        let vy: u8 = self.registers[y as usize];
        assert(vy.wrapping_sub(vx) == wrap8(vy - vx));
        self.set_reg(x, vy.wrapping_sub(vx));
    }

    /// Shifts V`x` right by one bit. VF becomes the lowest bit before the
    /// shift.
    fn shift_right(&mut self, x: u8, y: u8)
        requires
            x < 16,
        ensures
            final(self)@ == old(self)@.apply(Instruction::ShiftRight { x, y }, 0),
    {
        let vx: u8 = self.registers[x as usize];
        assert(vx & 1 == vx % 2) by (bit_vector);
        self.set_reg(0xF, vx & 1);
        let shifted: u8 = self.registers[x as usize];
        assert(shifted >> 1 == shifted / 2) by (bit_vector);
        self.set_reg(x, shifted >> 1);
    }

    /// Shifts V`x` left by one bit. VF becomes the highest bit before the
    /// shift.
    fn shift_left(&mut self, x: u8, y: u8)
        requires
            x < 16,
        ensures
            final(self)@ == old(self)@.apply(Instruction::ShiftLeft { x, y }, 0),
    {
        let vx: u8 = self.registers[x as usize];
        assert((vx & 0x80) >> 7 == vx / 128) by (bit_vector);
        self.set_reg(0xF, (vx & 0x80) >> 7);
        let shifted: u8 = self.registers[x as usize];
        assert(shifted << 1 == (shifted * 2) % 256) by (bit_vector);
        self.set_reg(x, shifted << 1);
    }

    /// The arithmetic that leaves a carry, a borrow or a shifted-out bit in
    /// VF.
    fn compute(&mut self, instr: Instruction)
        requires
            instr.wf(),
            instr is AddRegisters || instr is Subtract || instr is SubtractReversed
                || instr is ShiftRight || instr is ShiftLeft,
        ensures
            final(self)@ == old(self)@.apply(instr, 0),
    {
        match instr {
            Instruction::AddRegisters { x, y } => self.add_registers(x, y),
            Instruction::Subtract { x, y } => self.subtract(x, y),
            Instruction::SubtractReversed { x, y } => self.subtract_reversed(x, y),
            Instruction::ShiftRight { x, y } => self.shift_right(x, y),
            Instruction::ShiftLeft { x, y } => self.shift_left(x, y),
            _ => {},
        }
    }

    /// The instructions that set a timer or the index register.
    fn set_special(&mut self, instr: Instruction)
        requires
            instr.wf(),
            instr is LoadIndex || instr is SetDelay || instr is SetSound || instr is AddIndex
                || instr is FontGlyph,
        ensures
            final(self)@ == old(self)@.apply(instr, 0),
    {
        match instr {
            Instruction::LoadIndex { addr } => {
                self.idx_register = addr;
            },
            Instruction::SetDelay { x } => {
                self.delay_timer = self.registers[x as usize];
            },
            Instruction::SetSound { x } => {
                self.sound_timer = self.registers[x as usize];
            },
            Instruction::AddIndex { x } => {
                self.idx_register = self.idx_register.wrapping_add(
                    self.registers[x as usize] as u16,
                );
            },
            Instruction::FontGlyph { x } => {
                self.idx_register = self.registers[x as usize] as u16 * GLYPH_BYTES as u16;
            },
            _ => {},
        }
    }

    /// Stores the three decimal digits of V`x` at the index register.
    fn store_decimal(&mut self, x: u8)
        requires
            x < 16,
            old(self).idx_register + 2 < RAM_BYTES,
        ensures
            final(self)@ == old(self)@.apply(Instruction::StoreDecimal { x }, 0),
    {
        let value: u8 = self.registers[x as usize];
        let idx: usize = self.idx_register as usize;
        self.ram.write(idx, value / 100);
        self.ram.write(idx + 1, (value % 100) / 10);
        self.ram.write(idx + 2, value % 10);
    }

    /// Executes `instr`, the program counter being past the instruction
    /// already, and says what the cycle reports. `random` is the byte that
    /// the random instruction draws. An instruction that the machine cannot
    /// execute in the state it is in leaves the machine as it was.
    pub fn execute(&mut self, instr: Instruction, random: u8) -> (outcome: Result<
        CycleStatus,
        Trap,
    >)
        requires
            instr.wf(),
        ensures
            (match old(self)@.trap(instr) {
                Some(trap) => {
                    &&& outcome == Err::<CycleStatus, Trap>(trap)
                    &&& final(self)@ == old(self)@
                },
                None => {
                    &&& outcome == Ok::<CycleStatus, Trap>(old(self)@.status(instr))
                    &&& final(self)@ == old(self)@.execute(instr, random)
                },
            }),
    {
        match self.trap(instr) {
            Some(trap) => {
                return Err(trap);
            },
            None => {},
        }
        if let Instruction::WaitKey { x } = instr {
            return Ok(self.wait_key(x));
        }
        self.tick();
        match instr {
            Instruction::ClearScreen => {
                self.display_buffer.clear();
                Ok(CycleStatus::RedrawScreen)
            },
            Instruction::Draw { x, y, rows } => {
                self.draw(x, y, rows);
                Ok(CycleStatus::RedrawScreen)
            },
            Instruction::Jump { .. }
            | Instruction::JumpOffset { .. }
            | Instruction::Return
            | Instruction::Call { .. } => {
                self.transfer(instr);
                Ok(CycleStatus::Continue)
            },
            Instruction::SkipIfEqual { .. }
            | Instruction::SkipIfNotEqual { .. }
            | Instruction::SkipIfRegistersEqual { .. }
            | Instruction::SkipIfRegistersDiffer { .. }
            | Instruction::SkipIfKeyDown { .. }
            | Instruction::SkipIfKeyUp { .. } => {
                self.skip(instr);
                Ok(CycleStatus::Continue)
            },
            Instruction::Load { .. }
            | Instruction::AddImmediate { .. }
            | Instruction::Copy { .. }
            | Instruction::Or { .. }
            | Instruction::And { .. }
            | Instruction::Xor { .. }
            | Instruction::Random { .. }
            | Instruction::ReadDelay { .. } => {
                self.assign(instr, random);
                Ok(CycleStatus::Continue)
            },
            Instruction::AddRegisters { .. }
            | Instruction::Subtract { .. }
            | Instruction::SubtractReversed { .. }
            | Instruction::ShiftRight { .. }
            | Instruction::ShiftLeft { .. } => {
                self.compute(instr);
                Ok(CycleStatus::Continue)
            },
            Instruction::LoadIndex { .. }
            | Instruction::SetDelay { .. }
            | Instruction::SetSound { .. }
            | Instruction::AddIndex { .. }
            | Instruction::FontGlyph { .. } => {
                self.set_special(instr);
                Ok(CycleStatus::Continue)
            },
            Instruction::StoreDecimal { x } => {
                self.store_decimal(x);
                Ok(CycleStatus::Continue)
            },
            Instruction::StoreRegisters { x } => {
                self.store_registers(x);
                Ok(CycleStatus::Continue)
            },
            Instruction::LoadRegisters { x } => {
                self.load_registers(x);
                Ok(CycleStatus::Continue)
            },
            Instruction::WaitKey { .. } => Ok(CycleStatus::Continue),
        }
    }

    /// Reads the instruction at the program counter, or says why there is
    /// none to read.
    pub fn fetch(&self) -> (fetched: Result<Instruction, Fault>)
        ensures
            fetched == self@.fetch(),
            fetched matches Ok(instr) ==> instr.wf() && instr.encode() == self@.nibbles(),
    {
        let pc: u16 = self.pc;
        if pc as usize + 1 >= RAM_BYTES {
            return Err(Fault::ProgramCounter { pc });
        }
        let (opcode, x, y, n) = nibble_split(self.ram.read_range(pc as usize, OP_CODE_BYTES));
        match Instruction::decode(opcode, x, y, n) {
            Ok(instr) => Ok(instr),
            Err(DecodeError::MachineRoutine) => Err(Fault::MachineRoutine { pc, x, y, n }),
            Err(DecodeError::Invalid) => Err(Fault::InvalidInstruction { pc, opcode, x, y, n }),
        }
    }

    /// The four nibbles of the instruction at the program counter.
    fn nibbles(&self) -> (nibbles: (u8, u8, u8, u8))
        requires
            self@.can_fetch(),
        ensures
            nibbles == self@.nibbles(),
    {
        nibble_split(self.ram.read_range(self.pc as usize, OP_CODE_BYTES))
    }

    /// Why the machine cannot run its next cycle, if it cannot: the program
    /// counter, the nibbles of the instruction there, and what is wrong.
    pub fn fault(&self) -> (fault: Option<Fault>)
        ensures
            fault == self@.fault(),
    {
        match self.fetch() {
            Err(fault) => Some(fault),
            Ok(instr) => match self.trap(instr) {
                Some(trap) => {
                    let (opcode, x, y, n) = self.nibbles();
                    Some(Fault::Trapped { pc: self.pc, opcode, x, y, n, trap })
                },
                None => None,
            },
        }
    }

    /// Runs the cycle of the instruction `instr`, which is the one at the
    /// program counter.
    fn run(&mut self, instr: Instruction, random: u8) -> (outcome: Result<CycleStatus, Fault>)
        requires
            old(self)@.fetch() == Ok::<Instruction, Fault>(instr),
            instr.wf(),
        ensures
            (match old(self)@.fault() {
                Some(fault) => {
                    &&& outcome == Err::<CycleStatus, Fault>(fault)
                    &&& final(self)@ == old(self)@
                },
                None => {
                    &&& outcome == Ok::<CycleStatus, Fault>(old(self)@.cycle_status())
                    &&& final(self)@ == old(self)@.step(random)
                },
            }),
    {
        let pc: u16 = self.pc;
        self.pc = pc + OP_CODE_BYTES as u16;
        match self.execute(instr, random) {
            Ok(status) => Ok(status),
            Err(trap) => {
                self.pc = pc;
                assert(self@ =~= old(self)@);
                let (opcode, x, y, n) = self.nibbles();
                Err(Fault::Trapped { pc, opcode, x, y, n, trap })
            },
        }
    }

    /// Runs one cycle in which the random instruction, if it is the one to
    /// run, draws the byte `random`: fetches the instruction at the program
    /// counter, moves the program counter past it and executes it. A machine
    /// with a fault is left as it was, and the fault is returned.
    pub fn cycle_with(&mut self, random: u8) -> (outcome: Result<CycleStatus, Fault>)
        ensures
            (match old(self)@.fault() {
                Some(fault) => {
                    &&& outcome == Err::<CycleStatus, Fault>(fault)
                    &&& final(self)@ == old(self)@
                },
                None => {
                    &&& outcome == Ok::<CycleStatus, Fault>(old(self)@.cycle_status())
                    &&& final(self)@ == old(self)@.step(random)
                },
            }),
    {
        match self.fetch() {
            Ok(instr) => self.run(instr, random),
            Err(fault) => Err(fault),
        }
    }

    /// Runs one cycle: fetches the instruction at the program counter, moves
    /// the program counter past it and executes it. The random instruction
    /// draws a fresh byte, which may be any; no other instruction depends on
    /// one. A machine with a fault is left as it was, and nothing is
    /// reported: [`Processor::fault`] then says what is wrong.
    pub fn cycle(&mut self) -> (status: Option<CycleStatus>)
        ensures
            old(self)@.fault() is Some ==> status is None && final(self)@ == old(self)@,
            old(self)@.fault() is None ==> status == Some(old(self)@.cycle_status()),
            old(self)@.fault() is None ==> exists|random: u8|
                final(self)@ == old(self)@.step(random),
            old(self)@.fault() is None && !(old(self)@.fetch() matches Ok(
                Instruction::Random { .. },
            )) ==> forall|random: u8| final(self)@ == old(self)@.step(random),
    {
        match self.fetch() {
            Ok(instr) => {
                let random: u8 = match instr {
                    Instruction::Random { .. } => self.rng.next_byte(),
                    _ => 0,
                };
                proof {
                    assert forall|other: u8| !(instr is Random) implies self@.step(other)
                        == self@.step(random) by {
                        self@.fetched().lemma_random_is_for_random(instr, other, random);
                    }
                }
                match self.run(instr, random) {
                    Ok(status) => Some(status),
                    Err(_) => None,
                }
            },
            Err(_) => None,
        }
    }
}

} // verus!
