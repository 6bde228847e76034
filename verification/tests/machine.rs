use chip8::consts::FONT_SET;
use chip8::instruction::Instruction;
use chip8::processor::{CycleStatus, Fault, Processor, Trap};
use chip8::ram::{DisplayBuffer, KeyboardBuffer, Ram, FONT_SIZE_MISMATCH};
use chip8::rom::Rom;

fn machine() -> Processor {
    Processor::new(Ram::default(), DisplayBuffer::default(), KeyboardBuffer::default())
}

fn machine_with(program: &[u8]) -> Processor {
    let mut processor = machine();
    let rom = Rom::new(program).unwrap();
    processor.init_ram(&rom, &FONT_SET).unwrap();
    processor
}

fn lit_pixels(processor: &Processor) -> usize {
    processor
        .display_buffer
        .buffer
        .iter()
        .map(|row| row.iter().filter(|pixel| **pixel == 1).count())
        .sum()
}

#[test]
fn new_machine_is_at_the_program_offset_with_all_else_zero() {
    let mut ram = Ram::default();
    ram.buffer[17] = 3;
    let mut display = DisplayBuffer::default();
    display.buffer[1][2] = 1;
    let mut keyboard = KeyboardBuffer::default();
    keyboard.buffer[5] = 1;
    let processor = Processor::new(ram, display, keyboard);
    assert_eq!(processor.pc, 0x200);
    assert_eq!(processor.stack, [0; 16]);
    assert_eq!(processor.registers, [0; 16]);
    assert_eq!(processor.idx_register, 0);
    assert_eq!(processor.stack_pointer, 0);
    assert_eq!(processor.delay_timer, 0);
    assert_eq!(processor.sound_timer, 0);
    assert_eq!(processor.ram.buffer[17], 3);
    assert_eq!(processor.display_buffer.buffer[1][2], 1);
    assert_eq!(processor.keyboard_buffer.buffer[5], 1);
}

#[test]
fn init_ram_places_font_and_image() {
    let processor = machine_with(&[0x61, 0x05]);
    assert_eq!(processor.ram.buffer[0..80], FONT_SET);
    assert_eq!(processor.ram.buffer[0x200..0x203], [0x61, 0x05, 0x00]);
    assert_eq!(processor.pc, 0x200);
}

#[test]
fn init_ram_overwrites_the_whole_program_region() {
    let mut processor = machine();
    processor.ram.buffer[0x300] = 0x77;
    processor.ram.buffer[4095] = 0x77;
    processor.ram.buffer[0x1FF] = 0x77;
    processor.init_ram(&Rom::new(&[1]).unwrap(), &FONT_SET).unwrap();
    assert_eq!(processor.ram.buffer[0x200], 1);
    assert_eq!(processor.ram.buffer[0x300], 0);
    assert_eq!(processor.ram.buffer[4095], 0);
    assert_eq!(processor.ram.buffer[0x1FF], 0x77);
}

#[test]
fn init_ram_refuses_font_data_of_another_size() {
    let mut processor = machine();
    let rom = Rom::new(&[1, 2, 3]).unwrap();
    assert_eq!(processor.init_ram(&rom, &FONT_SET[0..40]), Err(FONT_SIZE_MISMATCH));
    assert!(processor.ram.buffer.iter().all(|byte| *byte == 0));
}

#[test]
fn cycle_reports_continue_redraw_and_waiting() {
    let mut processor = machine_with(&[0x61, 0x05, 0x00, 0xE0, 0xD0, 0x01, 0xF2, 0x0A]);
    assert_eq!(processor.cycle(), Some(CycleStatus::Continue));
    assert_eq!(processor.cycle(), Some(CycleStatus::RedrawScreen));
    assert_eq!(processor.cycle(), Some(CycleStatus::RedrawScreen));
    assert_eq!(processor.cycle(), Some(CycleStatus::Waiting));
    assert_eq!(processor.pc, 0x206);
}

#[test]
fn skip_if_equal_scenario() {
    let mut processor = machine_with(&[0x32, 0x01]);
    processor.registers[2] = 1;
    assert_eq!(processor.cycle(), Some(CycleStatus::Continue));
    assert_eq!(processor.pc, 0x204);
}

#[test]
fn skips_advance_by_four_or_by_two() {
    let cases: [([u8; 2], bool); 8] = [
        ([0x31, 0x07], true),
        ([0x31, 0x08], false),
        ([0x41, 0x08], true),
        ([0x41, 0x07], false),
        ([0x51, 0x20], true),
        ([0x51, 0x30], false),
        ([0x91, 0x30], true),
        ([0x91, 0x20], false),
    ];
    for (program, skips) in cases {
        let mut processor = machine_with(&program);
        processor.registers[1] = 7;
        processor.registers[2] = 7;
        processor.registers[3] = 9;
        assert_eq!(processor.cycle_with(0), Ok(CycleStatus::Continue));
        assert_eq!(processor.pc, if skips { 0x204 } else { 0x202 });
        assert_eq!(processor.registers[1], 7);
    }
}

#[test]
fn key_skips_look_at_the_key_in_the_register() {
    let mut processor = machine_with(&[0xE1, 0x9E, 0xE1, 0xA1, 0xE2, 0x9E, 0xE2, 0xA1]);
    processor.registers[1] = 0xB;
    processor.registers[2] = 0xC;
    processor.keyboard_buffer.buffer[0xB] = 1;
    processor.cycle();
    assert_eq!(processor.pc, 0x204);
    processor.pc = 0x202;
    processor.cycle();
    assert_eq!(processor.pc, 0x204);
    processor.cycle();
    assert_eq!(processor.pc, 0x206);
    processor.cycle();
    assert_eq!(processor.pc, 0x20A);
}

#[test]
fn add_immediate_scenario_leaves_the_flag_alone() {
    let mut processor = machine_with(&[0x73, 0xFF, 0x73, 0x02]);
    processor.registers[0xF] = 0x55;
    processor.cycle();
    assert_eq!(processor.registers[3], 0xFF);
    assert_eq!(processor.registers[0xF], 0x55);
    processor.cycle();
    assert_eq!(processor.registers[3], 0x01);
    assert_eq!(processor.registers[0xF], 0x55);
}

#[test]
fn add_sets_the_carry_whatever_the_flag_held() {
    for flag_before in [0u8, 1, 0xAB] {
        let mut processor = machine_with(&[0x81, 0x24]);
        processor.registers[1] = 200;
        processor.registers[2] = 56;
        processor.registers[0xF] = flag_before;
        processor.cycle();
        assert_eq!(processor.registers[1], 0);
        assert_eq!(processor.registers[0xF], 1);

        let mut processor = machine_with(&[0x81, 0x24]);
        processor.registers[1] = 200;
        processor.registers[2] = 55;
        processor.registers[0xF] = flag_before;
        processor.cycle();
        assert_eq!(processor.registers[1], 255);
        assert_eq!(processor.registers[0xF], 0);
    }
}

#[test]
fn subtract_sets_the_flag_unless_it_borrows() {
    let cases: [(u8, u8, u8, u8); 3] = [(9, 4, 5, 1), (4, 4, 0, 1), (4, 9, 251, 0)];
    for (vx, vy, difference, flag) in cases {
        let mut processor = machine_with(&[0x81, 0x25]);
        processor.registers[1] = vx;
        processor.registers[2] = vy;
        processor.registers[0xF] = 7;
        processor.cycle();
        assert_eq!(processor.registers[1], difference);
        assert_eq!(processor.registers[2], vy);
        assert_eq!(processor.registers[0xF], flag);
    }
}

#[test]
fn reversed_subtract_sets_the_flag_unless_it_borrows() {
    let cases: [(u8, u8, u8, u8); 3] = [(4, 9, 5, 1), (4, 4, 0, 1), (9, 4, 251, 0)];
    for (vx, vy, difference, flag) in cases {
        let mut processor = machine_with(&[0x81, 0x27]);
        processor.registers[1] = vx;
        processor.registers[2] = vy;
        processor.registers[0xF] = 7;
        processor.cycle();
        assert_eq!(processor.registers[1], difference);
        assert_eq!(processor.registers[2], vy);
        assert_eq!(processor.registers[0xF], flag);
    }
}

#[test]
fn shifts_leave_the_bit_shifted_out_in_the_flag() {
    let cases: [(u8, u8, u8, u8); 6] = [
        (0x06, 0b0000_0101, 0b0000_0010, 1),
        (0x06, 0b0000_0100, 0b0000_0010, 0),
        (0x06, 0xFF, 0x7F, 1),
        (0x0E, 0b1000_0001, 0b0000_0010, 1),
        (0x0E, 0b0100_0001, 0b1000_0010, 0),
        (0x0E, 0xFF, 0xFE, 1),
    ];
    for (low, vx, shifted, flag) in cases {
        let mut processor = machine_with(&[0x81, 0x20 | low]);
        processor.registers[1] = vx;
        processor.registers[2] = 0x33;
        processor.registers[0xF] = 9;
        processor.cycle();
        assert_eq!(processor.registers[1], shifted);
        assert_eq!(processor.registers[2], 0x33);
        assert_eq!(processor.registers[0xF], flag);
    }
}

#[test]
fn arithmetic_on_the_flag_register_stores_the_flag_first() {
    let mut processor = machine_with(&[0x8F, 0x14]);
    processor.registers[0xF] = 200;
    processor.registers[1] = 100;
    processor.cycle();
    assert_eq!(processor.registers[0xF], 101);

    let mut processor = machine_with(&[0x81, 0xF4]);
    processor.registers[1] = 5;
    processor.registers[0xF] = 7;
    processor.cycle();
    assert_eq!(processor.registers[1], 5);
    assert_eq!(processor.registers[0xF], 0);

    let mut processor = machine_with(&[0x8F, 0x06]);
    processor.registers[0xF] = 0b0000_0111;
    processor.cycle();
    assert_eq!(processor.registers[0xF], 0);
}

#[test]
fn logic_instructions_touch_only_the_target() {
    let mut processor = machine_with(&[0x81, 0x21, 0x83, 0x22, 0x84, 0x23, 0x85, 0x20]);
    processor.registers[1] = 0b1100;
    processor.registers[2] = 0b1010;
    processor.registers[3] = 0b1100;
    processor.registers[4] = 0b1100;
    processor.registers[0xF] = 3;
    for _ in 0..4 {
        processor.cycle();
    }
    assert_eq!(processor.registers[1], 0b1110);
    assert_eq!(processor.registers[3], 0b1000);
    assert_eq!(processor.registers[4], 0b0110);
    assert_eq!(processor.registers[5], 0b1010);
    assert_eq!(processor.registers[2], 0b1010);
    assert_eq!(processor.registers[0xF], 3);
}

#[test]
fn jump_with_offset_adds_the_first_register() {
    let mut processor = machine_with(&[0xBF, 0xFF]);
    processor.registers[0] = 0xFF;
    processor.cycle();
    assert_eq!(processor.pc, 0x10FE);
}

#[test]
fn add_index_wraps_at_sixteen_bits() {
    let mut processor = machine_with(&[0xF1, 0x1E, 0xF1, 0x1E]);
    processor.registers[1] = 0x10;
    processor.idx_register = 0xFFF8;
    processor.cycle();
    assert_eq!(processor.idx_register, 0x0008);
    processor.cycle();
    assert_eq!(processor.idx_register, 0x0018);
}

#[test]
fn font_glyph_points_five_bytes_per_digit() {
    for (digit, address) in [(0u8, 0u16), (1, 5), (0xA, 50), (0xF, 75), (255, 1275)] {
        let mut processor = machine_with(&[0xF1, 0x29]);
        processor.registers[1] = digit;
        processor.cycle();
        assert_eq!(processor.idx_register, address);
    }
    let mut processor = machine_with(&[0xF1, 0x29]);
    processor.registers[1] = 0xF;
    processor.cycle();
    let glyph = processor.idx_register as usize;
    assert_eq!(processor.ram.buffer[glyph..glyph + 5], [0xF0, 0x80, 0xF0, 0x80, 0x80]);
}

#[test]
fn store_decimal_writes_hundreds_tens_and_ones() {
    for (value, digits) in [(0u8, [0u8, 0, 0]), (7, [0, 0, 7]), (40, [0, 4, 0]), (255, [2, 5, 5])] {
        let mut processor = machine_with(&[0xF1, 0x33]);
        processor.registers[1] = value;
        processor.idx_register = 0x400;
        processor.ram.buffer[0x3FF] = 0xEE;
        processor.ram.buffer[0x403] = 0xEE;
        processor.cycle();
        assert_eq!(
            processor.ram.buffer[0x3FF..0x404],
            [0xEE, digits[0], digits[1], digits[2], 0xEE]
        );
        assert_eq!(processor.idx_register, 0x400);
    }
}

#[test]
fn store_and_load_take_the_last_register_too() {
    let mut processor = machine_with(&[0xFF, 0x55, 0xF0, 0x65, 0xFF, 0x65]);
    for r in 0..16 {
        processor.registers[r] = 0x10 + r as u8;
    }
    processor.idx_register = 0xFF0;
    processor.cycle();
    for r in 0..16 {
        assert_eq!(processor.ram.buffer[0xFF0 + r], 0x10 + r as u8);
    }
    assert_eq!(processor.ram.buffer[0xFEF], 0);
    assert_eq!(processor.idx_register, 0xFF0);

    processor.registers = [0; 16];
    processor.cycle();
    assert_eq!(processor.registers[0], 0x10);
    assert_eq!(processor.registers[1], 0);
    processor.cycle();
    for r in 0..16 {
        assert_eq!(processor.registers[r], 0x10 + r as u8);
    }
}

#[test]
fn random_masks_the_byte_it_is_given() {
    let mut processor = machine_with(&[0xC1, 0x0F, 0xC2, 0xF0, 0xC3, 0x00]);
    assert_eq!(processor.cycle_with(0xA5), Ok(CycleStatus::Continue));
    assert_eq!(processor.registers[1], 0x05);
    assert_eq!(processor.cycle_with(0xA5), Ok(CycleStatus::Continue));
    assert_eq!(processor.registers[2], 0xA0);
    processor.registers[3] = 9;
    assert_eq!(processor.cycle_with(0xFF), Ok(CycleStatus::Continue));
    assert_eq!(processor.registers[3], 0);
}

#[test]
fn random_draws_a_byte_within_the_mask() {
    let mut seen = [false; 4];
    for _ in 0..400 {
        let mut processor = machine_with(&[0xC1, 0x03]);
        processor.registers[1] = 0xFF;
        assert_eq!(processor.cycle(), Some(CycleStatus::Continue));
        assert_eq!(processor.registers[1] & 0xFC, 0);
        assert_eq!(processor.pc, 0x202);
        seen[processor.registers[1] as usize] = true;
    }
    assert!(seen.iter().filter(|value| **value).count() >= 2);
}

#[test]
fn other_instructions_ignore_the_random_byte() {
    let mut first = machine_with(&[0x61, 0x2A, 0x71, 0x01]);
    let mut second = machine_with(&[0x61, 0x2A, 0x71, 0x01]);
    for _ in 0..2 {
        first.cycle_with(0x00).unwrap();
        second.cycle_with(0xFF).unwrap();
    }
    assert_eq!(first.registers, second.registers);
    assert_eq!(first.registers[1], 0x2B);
    assert_eq!(first.pc, second.pc);
}

#[test]
fn timers_count_down_to_zero_and_stay_there() {
    let mut processor = machine_with(&[0x61, 0x00, 0x61, 0x00, 0x61, 0x00]);
    processor.delay_timer = 2;
    processor.sound_timer = 1;
    processor.cycle();
    assert_eq!((processor.delay_timer, processor.sound_timer), (1, 0));
    processor.cycle();
    assert_eq!((processor.delay_timer, processor.sound_timer), (0, 0));
    processor.cycle();
    assert_eq!((processor.delay_timer, processor.sound_timer), (0, 0));
}

#[test]
fn timers_are_set_after_the_countdown() {
    let mut processor = machine_with(&[0xF1, 0x15, 0xF1, 0x18, 0xF2, 0x07]);
    processor.registers[1] = 30;
    processor.delay_timer = 5;
    processor.sound_timer = 5;
    processor.cycle();
    assert_eq!((processor.delay_timer, processor.sound_timer), (30, 4));
    processor.cycle();
    assert_eq!((processor.delay_timer, processor.sound_timer), (29, 30));
    processor.cycle();
    assert_eq!(processor.registers[2], 28);
}

#[test]
fn key_wait_scenario() {
    let mut processor = machine_with(&[0xF5, 0x0A]);
    processor.delay_timer = 9;
    processor.sound_timer = 9;
    for _ in 0..5 {
        assert_eq!(processor.cycle(), Some(CycleStatus::Waiting));
        assert_eq!(processor.pc, 0x200);
        assert_eq!(processor.registers, [0; 16]);
        assert_eq!((processor.delay_timer, processor.sound_timer), (9, 9));
    }
    processor.keyboard_buffer.set_key(0x1, true);
    assert_eq!(processor.cycle(), Some(CycleStatus::Continue));
    assert_eq!(processor.registers[5], 1);
    assert_eq!(processor.pc, 0x202);
    assert_eq!((processor.delay_timer, processor.sound_timer), (9, 9));
}

#[test]
fn key_wait_takes_the_lowest_key_that_is_down() {
    let mut processor = machine_with(&[0xF5, 0x0A]);
    processor.keyboard_buffer.set_key(0xC, true);
    processor.keyboard_buffer.set_key(0x7, true);
    assert_eq!(processor.cycle(), Some(CycleStatus::Continue));
    assert_eq!(processor.registers[5], 7);
}

#[test]
fn draw_reads_the_sprite_at_the_index_register() {
    let mut processor = machine_with(&[0xA0, 0x05, 0xD1, 0x25]);
    processor.registers[1] = 10;
    processor.registers[2] = 20;
    processor.registers[0xF] = 1;
    assert_eq!(processor.cycle(), Some(CycleStatus::Continue));
    assert_eq!(processor.cycle(), Some(CycleStatus::RedrawScreen));
    let glyph_one: [[u8; 4]; 5] =
        [[0, 0, 1, 0], [0, 1, 1, 0], [0, 0, 1, 0], [0, 0, 1, 0], [0, 1, 1, 1]];
    for (i, row) in glyph_one.iter().enumerate() {
        assert_eq!(processor.display_buffer.buffer[20 + i][10..14], *row);
    }
    assert_eq!(lit_pixels(&processor), 8);
    assert_eq!(processor.registers[0xF], 0);
    assert_eq!(processor.idx_register, 5);
    assert_eq!(processor.pc, 0x204);
}

#[test]
fn draw_wraps_the_origin_only() {
    let mut processor = machine_with(&[0xD1, 0x21]);
    processor.ram.buffer[0x300] = 0xFF;
    processor.idx_register = 0x300;
    processor.registers[1] = 64 + 60;
    processor.registers[2] = 32 + 31;
    processor.cycle();
    assert_eq!(processor.display_buffer.buffer[31][60..64], [1, 1, 1, 1]);
    assert_eq!(lit_pixels(&processor), 4);
}

#[test]
fn draw_after_clear_shows_the_sprite_exactly() {
    let mut processor = machine_with(&[0x00, 0xE0, 0xD1, 0x23]);
    processor.display_buffer.buffer = [[1; 64]; 32];
    processor.ram.buffer[0x300..0x303].copy_from_slice(&[0b1010_0000, 0b0000_0001, 0b1111_1111]);
    processor.idx_register = 0x300;
    processor.registers[1] = 2;
    processor.registers[2] = 3;
    processor.registers[0xF] = 1;
    processor.cycle();
    processor.cycle();
    assert_eq!(processor.display_buffer.buffer[3][2..10], [1, 0, 1, 0, 0, 0, 0, 0]);
    assert_eq!(processor.display_buffer.buffer[4][2..10], [0, 0, 0, 0, 0, 0, 0, 1]);
    assert_eq!(processor.display_buffer.buffer[5][2..10], [1; 8]);
    assert_eq!(lit_pixels(&processor), 11);
    assert_eq!(processor.registers[0xF], 0);
}

#[test]
fn draw_twice_leaves_the_screen_clear_and_sets_the_flag() {
    let mut processor = machine_with(&[0xD1, 0x25, 0xD1, 0x25]);
    processor.idx_register = 0;
    processor.registers[1] = 61;
    processor.registers[2] = 29;
    assert_eq!(processor.cycle(), Some(CycleStatus::RedrawScreen));
    assert_eq!(processor.registers[0xF], 0);
    assert!(lit_pixels(&processor) > 0);
    assert_eq!(processor.cycle(), Some(CycleStatus::RedrawScreen));
    assert_eq!(processor.registers[0xF], 1);
    assert_eq!(lit_pixels(&processor), 0);
}

#[test]
fn draw_of_an_empty_sprite_leaves_the_flag_at_zero() {
    let mut processor = machine_with(&[0xD1, 0x20, 0xD1, 0x20]);
    processor.idx_register = 4096;
    processor.registers[0xF] = 1;
    assert_eq!(processor.cycle(), Some(CycleStatus::RedrawScreen));
    assert_eq!(processor.registers[0xF], 0);
    assert_eq!(processor.cycle(), Some(CycleStatus::RedrawScreen));
    assert_eq!(processor.registers[0xF], 0);
    assert_eq!(lit_pixels(&processor), 0);
}

#[test]
fn call_and_return_round_trip() {
    let mut processor = machine_with(&[0x23, 0x00]);
    processor.ram.buffer[0x300..0x302].copy_from_slice(&[0x00, 0xEE]);
    processor.stack_pointer = 4;
    processor.cycle();
    assert_eq!(processor.pc, 0x300);
    assert_eq!(processor.stack_pointer, 5);
    assert_eq!(processor.stack[4], 0x202);
    processor.cycle();
    assert_eq!(processor.pc, 0x202);
    assert_eq!(processor.stack_pointer, 4);
}

#[test]
fn sixteen_nested_calls_return_in_turn() {
    let mut processor = machine();
    for level in 0..16usize {
        let at = 0x200 + 0x10 * level;
        let target = at + 0x10;
        processor.ram.buffer[at] = 0x20 | (target >> 8) as u8;
        processor.ram.buffer[at + 1] = (target & 0xFF) as u8;
    }
    processor.ram.buffer[0x300] = 0x00;
    processor.ram.buffer[0x301] = 0xEE;
    for level in 0..16usize {
        processor.ram.buffer[0x202 + 0x10 * level] = 0x00;
        processor.ram.buffer[0x203 + 0x10 * level] = 0xEE;
    }
    for level in 0..16usize {
        assert_eq!(processor.stack_pointer as usize, level);
        assert_eq!(processor.cycle(), Some(CycleStatus::Continue));
        assert_eq!(processor.pc as usize, 0x210 + 0x10 * level);
        assert_eq!(processor.stack[level] as usize, 0x202 + 0x10 * level);
    }
    assert_eq!(processor.stack_pointer, 16);
    for level in (0..16usize).rev() {
        assert_eq!(processor.cycle(), Some(CycleStatus::Continue));
        assert_eq!(processor.pc as usize, 0x202 + 0x10 * level);
        assert_eq!(processor.stack_pointer as usize, level);
    }
    assert_eq!(processor.pc, 0x202);
    assert_eq!(processor.stack_pointer, 0);
}

#[test]
fn call_on_a_full_stack_is_a_fault() {
    let mut processor = machine_with(&[0x23, 0x45]);
    processor.stack_pointer = 16;
    processor.stack[15] = 0xABC;
    processor.delay_timer = 3;
    let fault =
        Fault::Trapped { pc: 0x200, opcode: 2, x: 3, y: 4, n: 5, trap: Trap::StackOverflow };
    assert_eq!(processor.fault(), Some(fault));
    assert_eq!(processor.cycle_with(0), Err(fault));
    assert_eq!(processor.cycle(), None);
    assert_eq!(processor.pc, 0x200);
    assert_eq!(processor.stack_pointer, 16);
    assert_eq!(processor.stack[15], 0xABC);
    assert_eq!(processor.delay_timer, 3);
}

#[test]
fn return_on_an_empty_stack_is_a_fault() {
    let mut processor = machine_with(&[0x00, 0xEE]);
    let fault =
        Fault::Trapped { pc: 0x200, opcode: 0, x: 0, y: 0xE, n: 0xE, trap: Trap::StackUnderflow };
    assert_eq!(processor.cycle_with(0), Err(fault));
    assert_eq!(processor.cycle(), None);
    assert_eq!(processor.pc, 0x200);
    assert_eq!(processor.stack_pointer, 0);
}

#[test]
fn return_with_the_stack_pointer_beyond_the_stack_is_a_fault() {
    let mut processor = machine_with(&[0x00, 0xEE]);
    processor.stack_pointer = 17;
    let fault =
        Fault::Trapped { pc: 0x200, opcode: 0, x: 0, y: 0xE, n: 0xE, trap: Trap::StackOverflow };
    assert_eq!(processor.cycle_with(0), Err(fault));
    assert_eq!(processor.stack_pointer, 17);
    processor.stack_pointer = 16;
    processor.stack[15] = 0x456;
    assert_eq!(processor.cycle_with(0), Ok(CycleStatus::Continue));
    assert_eq!(processor.pc, 0x456);
    assert_eq!(processor.stack_pointer, 15);
}

#[test]
fn memory_instructions_beyond_the_memory_are_faults() {
    let cases: [([u8; 2], u16, bool); 10] = [
        ([0xF1, 0x33], 4093, false),
        ([0xF1, 0x33], 4094, true),
        ([0xF3, 0x55], 4092, false),
        ([0xF3, 0x55], 4093, true),
        ([0xF3, 0x65], 4092, false),
        ([0xF3, 0x65], 4093, true),
        ([0xD1, 0x24], 4092, false),
        ([0xD1, 0x24], 4093, true),
        ([0xD1, 0x20], 4096, false),
        ([0xD1, 0x20], 4097, true),
    ];
    for (program, idx, faulty) in cases {
        let mut processor = machine_with(&program);
        processor.idx_register = idx;
        processor.registers[1] = 123;
        processor.sound_timer = 2;
        let (opcode, x) = (program[0] >> 4, program[0] & 0xF);
        let (y, n) = (program[1] >> 4, program[1] & 0xF);
        if faulty {
            let fault =
                Fault::Trapped { pc: 0x200, opcode, x, y, n, trap: Trap::AddressOutOfRange };
            assert_eq!(processor.fault(), Some(fault));
            assert_eq!(processor.cycle_with(0), Err(fault));
            assert_eq!(processor.pc, 0x200);
            assert_eq!(processor.sound_timer, 2);
            assert_eq!(processor.registers[1], 123);
        } else {
            assert_eq!(processor.fault(), None);
            assert!(processor.cycle_with(0).is_ok());
            assert_eq!(processor.pc, 0x202);
            assert_eq!(processor.sound_timer, 1);
        }
    }
}

#[test]
fn key_skip_of_a_key_that_is_none_is_a_fault() {
    for low in [0x9Eu8, 0xA1] {
        let mut processor = machine_with(&[0xE1, low]);
        processor.registers[1] = 16;
        let fault = Fault::Trapped {
            pc: 0x200,
            opcode: 0xE,
            x: 1,
            y: low >> 4,
            n: low & 0xF,
            trap: Trap::KeyOutOfRange,
        };
        assert_eq!(processor.cycle_with(0), Err(fault));
        assert_eq!(processor.pc, 0x200);
        processor.registers[1] = 15;
        assert_eq!(processor.cycle_with(0), Ok(CycleStatus::Continue));
    }
}

#[test]
fn machine_routine_is_a_fault() {
    let mut processor = machine_with(&[0x01, 0x23]);
    processor.delay_timer = 4;
    let fault = Fault::MachineRoutine { pc: 0x200, x: 1, y: 2, n: 3 };
    assert_eq!(processor.fault(), Some(fault));
    assert_eq!(processor.fetch(), Err(fault));
    assert_eq!(processor.cycle_with(0), Err(fault));
    assert_eq!(processor.cycle(), None);
    assert_eq!(processor.pc, 0x200);
    assert_eq!(processor.delay_timer, 4);
}

#[test]
fn invalid_instruction_is_a_fault() {
    let mut processor = machine_with(&[0x8A, 0xBF]);
    processor.sound_timer = 4;
    let fault = Fault::InvalidInstruction { pc: 0x200, opcode: 8, x: 0xA, y: 0xB, n: 0xF };
    assert_eq!(processor.fault(), Some(fault));
    assert_eq!(processor.cycle_with(0), Err(fault));
    assert_eq!(processor.cycle(), None);
    assert_eq!(processor.pc, 0x200);
    assert_eq!(processor.sound_timer, 4);
}

#[test]
fn program_counter_at_the_end_of_memory_is_a_fault() {
    for pc in [4095u16, 4096, 0xFFFE, 0xFFFF] {
        let mut processor = machine();
        processor.pc = pc;
        assert_eq!(processor.fault(), Some(Fault::ProgramCounter { pc }));
        assert_eq!(processor.cycle_with(0), Err(Fault::ProgramCounter { pc }));
        assert_eq!(processor.cycle(), None);
        assert_eq!(processor.pc, pc);
    }
    let mut processor = machine();
    processor.pc = 4094;
    processor.ram.buffer[4094] = 0x12;
    processor.ram.buffer[4095] = 0x34;
    assert_eq!(processor.fetch(), Ok(Instruction::Jump { addr: 0x234 }));
    assert_eq!(processor.cycle_with(0), Ok(CycleStatus::Continue));
    assert_eq!(processor.pc, 0x234);
}

#[test]
fn a_skip_in_the_last_slot_moves_past_the_memory() {
    let mut processor = machine();
    processor.pc = 4094;
    processor.ram.buffer[4094] = 0x30;
    processor.ram.buffer[4095] = 0x00;
    assert_eq!(processor.cycle(), Some(CycleStatus::Continue));
    assert_eq!(processor.pc, 4098);
    assert_eq!(processor.cycle(), None);
}

#[test]
fn execute_runs_an_instruction_without_a_fetch() {
    let mut processor = machine();
    processor.delay_timer = 2;
    assert_eq!(
        processor.execute(Instruction::Load { x: 4, value: 0x44 }, 0),
        Ok(CycleStatus::Continue)
    );
    assert_eq!(processor.registers[4], 0x44);
    assert_eq!(processor.pc, 0x200);
    assert_eq!(processor.delay_timer, 1);
    assert_eq!(
        processor.execute(Instruction::SkipIfEqual { x: 4, value: 0x44 }, 0),
        Ok(CycleStatus::Continue)
    );
    assert_eq!(processor.pc, 0x202);
    assert_eq!(processor.execute(Instruction::ClearScreen, 0), Ok(CycleStatus::RedrawScreen));
    assert_eq!(
        processor.execute(Instruction::Random { x: 1, value: 0x3C }, 0xFF),
        Ok(CycleStatus::Continue)
    );
    assert_eq!(processor.registers[1], 0x3C);
}

#[test]
fn execute_of_the_key_wait_puts_the_program_counter_back() {
    let mut processor = machine();
    processor.pc = 0x202;
    processor.delay_timer = 8;
    assert_eq!(processor.execute(Instruction::WaitKey { x: 3 }, 0), Ok(CycleStatus::Waiting));
    assert_eq!(processor.pc, 0x200);
    assert_eq!(processor.delay_timer, 8);
    processor.pc = 0x202;
    processor.keyboard_buffer.set_key(0xE, true);
    assert_eq!(processor.execute(Instruction::WaitKey { x: 3 }, 0), Ok(CycleStatus::Continue));
    assert_eq!(processor.pc, 0x202);
    assert_eq!(processor.registers[3], 0xE);
    assert_eq!(processor.delay_timer, 8);
}

#[test]
fn execute_reports_what_it_cannot_do() {
    let mut processor = machine();
    processor.delay_timer = 2;
    assert_eq!(processor.trap(Instruction::Return), Some(Trap::StackUnderflow));
    assert_eq!(processor.execute(Instruction::Return, 0), Err(Trap::StackUnderflow));
    processor.stack_pointer = 16;
    assert_eq!(processor.execute(Instruction::Call { addr: 0x300 }, 0), Err(Trap::StackOverflow));
    processor.idx_register = 4095;
    assert_eq!(
        processor.execute(Instruction::StoreRegisters { x: 1 }, 0),
        Err(Trap::AddressOutOfRange)
    );
    processor.registers[2] = 200;
    assert_eq!(processor.execute(Instruction::SkipIfKeyDown { x: 2 }, 0), Err(Trap::KeyOutOfRange));
    assert_eq!(processor.trap(Instruction::Jump { addr: 0x300 }), None);
    assert_eq!(processor.delay_timer, 2);
    assert_eq!(processor.pc, 0x200);
    assert_eq!(processor.stack_pointer, 16);
}

#[test]
fn default_machine_has_everything_at_zero() {
    let processor = Processor::default();
    assert_eq!(processor.pc, 0);
    assert_eq!(processor.stack, [0; 16]);
    assert_eq!(processor.registers, [0; 16]);
    assert_eq!(processor.idx_register, 0);
    assert_eq!(processor.stack_pointer, 0);
    assert_eq!((processor.delay_timer, processor.sound_timer), (0, 0));
    assert!(processor.ram.buffer.iter().all(|byte| *byte == 0));
    assert_eq!(lit_pixels(&processor), 0);
    assert_eq!(processor.keyboard_buffer.buffer, [0; 16]);
}

#[test]
fn a_small_program_runs_to_its_end() {
    // V0 counts 3, 2, 1, 0; V1 adds up 5 for each round; then the program jumps to itself.
    let mut processor = machine_with(&[
        0x60, 0x03, // 0x200: V0 = 3
        0x61, 0x00, // 0x202: V1 = 0
        0x71, 0x05, // 0x204: V1 += 5
        0x70, 0xFF, // 0x206: V0 -= 1
        0x30, 0x00, // 0x208: skip if V0 == 0
        0x12, 0x04, // 0x20A: jump to 0x204
        0x12, 0x0C, // 0x20C: jump to 0x20C
    ]);
    let mut cycles = 0;
    while processor.pc != 0x20C {
        assert_eq!(processor.cycle(), Some(CycleStatus::Continue));
        cycles += 1;
        assert!(cycles < 100);
    }
    assert_eq!(cycles, 2 + 3 * 4 - 1);
    assert_eq!(processor.registers[0], 0);
    assert_eq!(processor.registers[1], 15);
    assert_eq!(processor.cycle(), Some(CycleStatus::Continue));
    assert_eq!(processor.pc, 0x20C);
}
