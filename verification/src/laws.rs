//! Laws of the instruction set, proved from what each instruction does.

use vstd::prelude::*;
use crate::input::latched_keys;
use crate::instruction::Instruction;
use crate::processor::{CycleStatus, Fault};
use crate::machine::{counted_down, flag, wrap16, Machine};
use crate::ram::{
    all_keys_up, blank_display, drawn_display, first_key_down, is_binary, is_first_key_down,
    sprite_collides, sprite_lit,
};

verus! {

/// After `8xy4`, with `x` other than F, VF is the carry of `Vx + Vy`,
/// whatever it held before; and with `y` other than F too, `Vx` is the sum
/// modulo 256.
pub proof fn lemma_add_sets_carry(m: Machine, x: u8, y: u8, random: u8)
    requires
        m.wf(),
        x < 16,
        y < 16,
        x != 0xF,
    ensures
        m.execute(Instruction::AddRegisters { x, y }, random).reg(0xF) == flag(
            m.reg(x) + m.reg(y) > 255,
        ),
        y != 0xF ==> m.execute(Instruction::AddRegisters { x, y }, random).reg(x) == (m.reg(x)
            + m.reg(y)) % 256,
{
}

/// After `8xy5`, with `x` other than F, VF is 1 if `Vx >= Vy` and 0 if not,
/// whatever it held before; and with `y` other than F too, `Vx` is the
/// difference `Vx - Vy` modulo 256.
pub proof fn lemma_subtract_sets_no_borrow(m: Machine, x: u8, y: u8, random: u8)
    requires
        m.wf(),
        x < 16,
        y < 16,
        x != 0xF,
    ensures
        m.execute(Instruction::Subtract { x, y }, random).reg(0xF) == flag(m.reg(x) >= m.reg(y)),
        y != 0xF ==> m.execute(Instruction::Subtract { x, y }, random).reg(x) == (m.reg(x) - m.reg(
            y,
        )) % 256,
{
}

/// After `8xy7`, with `x` other than F, VF is 1 if `Vy >= Vx` and 0 if not,
/// whatever it held before; and with `y` other than F too, `Vx` is the
/// difference `Vy - Vx` modulo 256.
pub proof fn lemma_subtract_reversed_sets_no_borrow(m: Machine, x: u8, y: u8, random: u8)
    requires
        m.wf(),
        x < 16,
        y < 16,
        x != 0xF,
    ensures
        m.execute(Instruction::SubtractReversed { x, y }, random).reg(0xF) == flag(
            m.reg(y) >= m.reg(x),
        ),
        y != 0xF ==> m.execute(Instruction::SubtractReversed { x, y }, random).reg(x) == (m.reg(y)
            - m.reg(x)) % 256,
{
}

/// After `8xy6`, with `x` other than F, VF is the lowest bit that `Vx` had,
/// whatever VF held before, and `Vx` is halved.
pub proof fn lemma_shift_right_sets_low_bit(m: Machine, x: u8, y: u8, random: u8)
    requires
        m.wf(),
        x < 16,
        x != 0xF,
    ensures
        m.execute(Instruction::ShiftRight { x, y }, random).reg(0xF) == m.reg(x) % 2,
        m.execute(Instruction::ShiftRight { x, y }, random).reg(x) == m.reg(x) / 2,
{
}

/// After `8xyE`, with `x` other than F, VF is the highest bit that `Vx` had,
/// whatever VF held before, and `Vx` is doubled modulo 256.
pub proof fn lemma_shift_left_sets_high_bit(m: Machine, x: u8, y: u8, random: u8)
    requires
        m.wf(),
        x < 16,
        x != 0xF,
    ensures
        m.execute(Instruction::ShiftLeft { x, y }, random).reg(0xF) == m.reg(x) / 128,
        m.execute(Instruction::ShiftLeft { x, y }, random).reg(x) == (m.reg(x) * 2) % 256,
{
}

/// A sprite drawn right after the screen was cleared shows exactly the
/// sprite: a pixel is lit where the sprite has a set pixel and dark
/// elsewhere, and VF is 0.
pub proof fn lemma_draw_on_cleared_screen(m: Machine, x: u8, y: u8, rows: u8, random: u8)
    requires
        m.wf(),
        x < 16,
        y < 16,
        rows < 16,
        m.trap(Instruction::Draw { x, y, rows }) is None,
    ensures
        ({
            let cleared = m.execute(Instruction::ClearScreen, random);
            let drawn = cleared.execute(Instruction::Draw { x, y, rows }, random);
            &&& drawn.reg(0xF) == 0
            &&& forall|row: int, col: int|
                0 <= row < 32 && 0 <= col < 64 ==> #[trigger] drawn.display[row][col] == flag(
                    sprite_lit(
                        m.sprite(rows),
                        (m.reg(x) % 64) as int,
                        (m.reg(y) % 32) as int,
                        row,
                        col,
                    ),
                )
        }),
{
    let cleared = m.execute(Instruction::ClearScreen, random);
    let drawn = cleared.execute(Instruction::Draw { x, y, rows }, random);
    assert(0u8 ^ 1u8 == 1u8) by (bit_vector);
    assert(cleared.sprite(rows) == m.sprite(rows));
    assert(!sprite_collides(
        cleared.ticked().display,
        m.sprite(rows),
        (m.reg(x) % 64) as int,
        (m.reg(y) % 32) as int,
    ));
}

/// Drawing a sprite twice at the same place leaves the framebuffer as it
/// was.
pub proof fn lemma_draw_twice_restores(display: Seq<Seq<u8>>, sprite: Seq<u8>, x: int, y: int)
    requires
        display.len() == 32,
        forall|row: int| 0 <= row < 32 ==> (#[trigger] display[row]).len() == 64,
    ensures
        drawn_display(drawn_display(display, sprite, x, y), sprite, x, y) == display,
{
    assert forall|pixel: u8| (pixel ^ 1u8) ^ 1u8 == pixel by {
        assert((pixel ^ 1u8) ^ 1u8 == pixel) by (bit_vector);
    }
    assert(drawn_display(drawn_display(display, sprite, x, y), sprite, x, y) =~~= display);
}

/// Drawing a sprite on a cleared screen and then once more at the same
/// place leaves the screen clear; and if the sprite has a set pixel
/// that falls on the screen, the second drawing leaves 1 in VF.
pub proof fn lemma_draw_twice_on_cleared_screen(m: Machine, x: u8, y: u8, rows: u8, random: u8)
    requires
        m.wf(),
        m.display == blank_display(),
        x < 16,
        y < 16,
        rows < 16,
        m.trap(Instruction::Draw { x, y, rows }) is None,
        m.execute(Instruction::Draw { x, y, rows }, random).reg(x) % 64 == m.reg(x) % 64,
        m.execute(Instruction::Draw { x, y, rows }, random).reg(y) % 32 == m.reg(y) % 32,
    ensures
        ({
            let once = m.execute(Instruction::Draw { x, y, rows }, random);
            let twice = once.execute(Instruction::Draw { x, y, rows }, random);
            &&& once.trap(Instruction::Draw { x, y, rows }) is None
            &&& twice.display == blank_display()
            &&& twice.reg(0xF) == flag(
                exists|row: int, col: int|
                    0 <= row < 32 && 0 <= col < 64 && #[trigger] sprite_lit(
                        m.sprite(rows),
                        (m.reg(x) % 64) as int,
                        (m.reg(y) % 32) as int,
                        row,
                        col,
                    ),
            )
        }),
{
    let draw = Instruction::Draw { x, y, rows };
    let once = m.execute(draw, random);
    let twice = once.execute(draw, random);
    let column = (m.reg(x) % 64) as int;
    let line = (m.reg(y) % 32) as int;
    let sprite = m.sprite(rows);
    assert(0u8 ^ 1u8 == 1u8) by (bit_vector);
    assert(once.sprite(rows) == sprite);
    assert(once.display == drawn_display(m.display, sprite, column, line));
    lemma_draw_twice_restores(m.display, sprite, column, line);
    assert(twice.display == drawn_display(once.display, sprite, column, line));
    if exists|row: int, col: int|
        0 <= row < 32 && 0 <= col < 64 && #[trigger] sprite_lit(sprite, column, line, row, col) {
        let (row, col) = choose|row: int, col: int|
            0 <= row < 32 && 0 <= col < 64 && #[trigger] sprite_lit(sprite, column, line, row, col);
        assert(once.display[row][col] == 1);
        assert(sprite_collides(once.display, sprite, column, line));
    } else {
        assert(!sprite_collides(once.display, sprite, column, line));
    }
}

/// A call followed by a return leaves the program counter at the
/// instruction that follows the call, and the stack pointer where it was.
pub proof fn lemma_call_then_return(m: Machine, addr: u16, random: u8)
    requires
        m.wf(),
        m.stack_pointer < 16,
    ensures
        ({
            let called = m.fetched().execute(Instruction::Call { addr }, random);
            let returned = called.fetched().execute(Instruction::Return, random);
            &&& m.trap(Instruction::Call { addr }) is None
            &&& called.trap(Instruction::Return) is None
            &&& called.pc == addr
            &&& called.stack_pointer == m.stack_pointer + 1
            &&& returned.pc == wrap16(m.pc + 2)
            &&& returned.stack_pointer == m.stack_pointer
        }),
{
}

/// A cycle that calls a subroutine, followed by a cycle that returns from
/// it, leaves the program counter two bytes after the call, at the
/// instruction that follows it, and the stack pointer where it was.
pub proof fn lemma_call_then_return_cycles(m: Machine, addr: u16, first: u8, second: u8)
    requires
        m.wf(),
        m.stack_pointer < 16,
        m.fetch() == Ok::<Instruction, Fault>(Instruction::Call { addr }),
        m.step(first).fetch() == Ok::<Instruction, Fault>(Instruction::Return),
    ensures
        m.fault() is None,
        m.step(first).fault() is None,
        m.step(first).pc == addr,
        m.step(first).step(second).pc == m.pc + 2,
        m.step(first).step(second).stack_pointer == m.stack_pointer,
{
}

/// The program that calls the subroutines at `targets`, each from within
/// the one before, and then returns from all of them.
pub open spec fn nested_calls(targets: Seq<u16>) -> Seq<Instruction> {
    Seq::new(targets.len(), |i: int| Instruction::Call { addr: targets[i] }) + Seq::new(
        targets.len(),
        |i: int| Instruction::Return,
    )
}

/// Running one program after another is running them joined.
pub proof fn lemma_run_joined(
    m: Machine,
    first: Seq<Instruction>,
    second: Seq<Instruction>,
    random: u8,
)
    ensures
        m.run(first + second, random) == match m.run(first, random) {
            Some(between) => between.run(second, random),
            None => None,
        },
    decreases first.len(),
{
    if first.len() == 0 {
        assert(first + second =~= second);
    } else {
        assert((first + second).drop_first() =~= first.drop_first() + second);
        if m.trap(first[0]) is None {
            lemma_run_joined(
                m.fetched().execute(first[0], random),
                first.drop_first(),
                second,
                random,
            );
        }
    }
}

/// Running a program of one instruction is executing that instruction.
pub proof fn lemma_run_one(m: Machine, instr: Instruction, random: u8)
    ensures
        m.run(seq![instr], random) == if m.trap(instr) is Some {
            None
        } else {
            Some(m.fetched().execute(instr, random))
        },
{
    let after = m.fetched().execute(instr, random);
    assert(seq![instr].drop_first() =~= Seq::<Instruction>::empty());
    assert(after.run(Seq::<Instruction>::empty(), random) == Some(after));
}

/// Calls nested as deep as the call stack has room for, followed by as many
/// returns, leave the program counter at the instruction that follows the
/// first call, the stack pointer where it was, and the return addresses
/// below it untouched.
pub proof fn lemma_nested_calls_return(m: Machine, targets: Seq<u16>, random: u8)
    requires
        m.wf(),
        m.stack_pointer + targets.len() <= 16,
    ensures
        m.run(nested_calls(targets), random) matches Some(returned) && {
            &&& returned.wf()
            &&& returned.stack_pointer == m.stack_pointer
            &&& targets.len() > 0 ==> returned.pc == wrap16(m.pc + 2)
            &&& forall|i: int| 0 <= i < m.stack_pointer ==> returned.stack[i] == m.stack[i]
        },
    decreases targets.len(),
{
    if targets.len() == 0 {
        assert(nested_calls(targets) =~= Seq::empty());
    } else {
        let call = Instruction::Call { addr: targets[0] };
        let inner = targets.drop_first();
        let called = m.fetched().execute(call, random);
        assert(nested_calls(targets) =~= seq![call] + nested_calls(inner) + seq![
            Instruction::Return,
        ]);
        lemma_nested_calls_return(called, inner, random);
        let deepest = called.run(nested_calls(inner), random)->Some_0;
        lemma_run_one(m, call, random);
        lemma_run_joined(m, seq![call], nested_calls(inner) + seq![Instruction::Return], random);
        assert(seq![call] + (nested_calls(inner) + seq![Instruction::Return]) =~= seq![call]
            + nested_calls(inner) + seq![Instruction::Return]);
        lemma_run_joined(called, nested_calls(inner), seq![Instruction::Return], random);
        lemma_run_one(deepest, Instruction::Return, random);
        assert(deepest.stack[m.stack_pointer as int] == wrap16(m.pc + 2));
    }
}

/// A skip moves the program counter by 4 from where it was before the
/// fetch if its condition holds, and by 2 if not.
pub proof fn lemma_skip_advances(m: Machine, random: u8)
    requires
        m.wf(),
        m.fault() is None,
    ensures
        m.fetch() matches Ok(Instruction::SkipIfEqual { x, value }) ==> m.step(random).pc == m.pc
            + if m.reg(x) == value {
            4int
        } else {
            2int
        },
        m.fetch() matches Ok(Instruction::SkipIfNotEqual { x, value }) ==> m.step(random).pc
            == m.pc + if m.reg(x) != value {
            4int
        } else {
            2int
        },
        m.fetch() matches Ok(Instruction::SkipIfRegistersEqual { x, y }) ==> m.step(random).pc
            == m.pc + if m.reg(x) == m.reg(y) {
            4int
        } else {
            2int
        },
        m.fetch() matches Ok(Instruction::SkipIfRegistersDiffer { x, y }) ==> m.step(random).pc
            == m.pc + if m.reg(x) != m.reg(y) {
            4int
        } else {
            2int
        },
        m.fetch() matches Ok(Instruction::SkipIfKeyDown { x }) ==> m.step(random).pc == m.pc
            + if m.keyboard[m.reg(x) as int] == 1 {
            4int
        } else {
            2int
        },
        m.fetch() matches Ok(Instruction::SkipIfKeyUp { x }) ==> m.step(random).pc == m.pc
            + if m.keyboard[m.reg(x) as int] != 1 {
            4int
        } else {
            2int
        },
{
}

/// A wait for a key with no key down is a cycle that changes nothing.
pub proof fn lemma_blocked_wait_changes_nothing(m: Machine, random: u8)
    requires
        m.wf(),
        m.fetch() matches Ok(Instruction::WaitKey { .. }),
        all_keys_up(m.keyboard),
    ensures
        m.fault() is None,
        m.step(random) == m,
        m.cycle_status() == CycleStatus::Waiting,
{
    assert(m.step(random) =~= m);
}

/// A wait for a key with a key down stores the lowest such key, moves to
/// the next instruction and leaves the timers alone.
pub proof fn lemma_wait_takes_lowest_key(m: Machine, x: u8, key: int, random: u8)
    requires
        m.wf(),
        m.fetch() == Ok::<Instruction, Fault>(Instruction::WaitKey { x }),
        is_first_key_down(m.keyboard, key),
    ensures
        m.fault() is None,
        m.cycle_status() == CycleStatus::Continue,
        m.step(random) == m.with_pc((m.pc + 2) as u16).with_reg(x, key as u8),
{
    assert(!all_keys_up(m.keyboard));
    let chosen = choose|k: int| is_first_key_down(m.keyboard, k);
    assert(chosen == key);
    assert(first_key_down(m.keyboard) == Some(key as u8));
}

/// Every instruction but the wait for a key counts both timers down once
/// before it does anything else: unless it sets a timer, the timer is one
/// less than it was, or still zero.
pub proof fn lemma_timers_count_down(m: Machine, random: u8)
    requires
        m.wf(),
        m.fault() is None,
        !(m.fetch() matches Ok(Instruction::WaitKey { .. })),
    ensures
        !(m.fetch() matches Ok(Instruction::SetDelay { .. })) ==> m.step(random).delay_timer
            == counted_down(m.delay_timer),
        !(m.fetch() matches Ok(Instruction::SetSound { .. })) ==> m.step(random).sound_timer
            == counted_down(m.sound_timer),
        m.fetch() matches Ok(Instruction::ReadDelay { x }) ==> m.step(random).reg(x)
            == counted_down(m.delay_timer),
{
}

/// No instruction writes to the keyboard latch.
pub proof fn lemma_cycle_keeps_keyboard(m: Machine, random: u8)
    requires
        m.fault() is None,
    ensures
        m.step(random).keyboard == m.keyboard,
{
}

/// Only the instructions that clear the screen and draw a sprite change the
/// framebuffer, and only the two that store to memory change the memory.
pub proof fn lemma_cycle_changes_little(m: Machine, random: u8)
    requires
        m.fault() is None,
    ensures
        !(m.fetch() matches Ok(Instruction::ClearScreen)) && !(m.fetch() matches Ok(
            Instruction::Draw { .. },
        )) ==> m.step(random).display == m.display,
        !(m.fetch() matches Ok(Instruction::StoreDecimal { .. })) && !(m.fetch() matches Ok(
            Instruction::StoreRegisters { .. },
        )) ==> m.step(random).ram == m.ram,
{
}

/// A machine that is switched on with a memory, a framebuffer and a keyboard
/// latch of the right sizes, whose pixels and keys are 0 or 1, is in a valid
/// state, and its program counter is even.
pub proof fn lemma_power_on_valid(ram: Seq<u8>, display: Seq<Seq<u8>>, keyboard: Seq<u8>)
    requires
        ram.len() == 4096,
        display.len() == 32,
        forall|row: int| 0 <= row < 32 ==> (#[trigger] display[row]).len() == 64,
        is_binary(display),
        keyboard.len() == 16,
        forall|key: int| 0 <= key < 16 ==> keyboard[key] <= 1,
    ensures
        Machine::power_on(ram, display, keyboard).valid(),
        Machine::power_on(ram, display, keyboard).aligned(),
{
}

/// The latch that is set from the keys held down holds 0 and 1 only.
pub proof fn lemma_latched_keys_binary(keycodes: Seq<i32>)
    ensures
        latched_keys(keycodes).len() == 16,
        forall|key: int| 0 <= key < 16 ==> latched_keys(keycodes)[key] <= 1,
{
}

/// A cycle leads from a valid state to a valid state: the parts keep their
/// sizes, the stack pointer stays within the stack, and every pixel stays
/// 0 or 1.
pub proof fn lemma_cycle_keeps_valid(m: Machine, random: u8)
    requires
        m.valid(),
        m.fault() is None,
    ensures
        m.step(random).valid(),
{
    let after = m.step(random);
    assert(0u8 ^ 1u8 == 1u8) by (bit_vector);
    assert(1u8 ^ 1u8 == 0u8) by (bit_vector);
    assert(after.wf());
    assert forall|row: int, col: int|
        0 <= row < 32 && 0 <= col < 64 implies #[trigger] after.display[row][col] <= 1 by {
        assert(m.display[row][col] <= 1);
    }
}

/// In a program that jumps to even addresses only, the program counter and
/// the return addresses on the stack stay even.
pub proof fn lemma_cycle_keeps_aligned(m: Machine, random: u8)
    requires
        m.wf(),
        m.aligned(),
        m.fault() is None,
        m.fetch() matches Ok(Instruction::Jump { addr }) ==> addr % 2 == 0,
        m.fetch() matches Ok(Instruction::Call { addr }) ==> addr % 2 == 0,
        m.fetch() matches Ok(Instruction::JumpOffset { addr }) ==> (addr + m.reg(0)) % 2 == 0,
    ensures
        m.step(random).aligned(),
{
}

} // verus!
