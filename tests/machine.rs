use chip8::cpu::{Cpu, PROGRAM_START};
use chip8::display::{Display, HEIGHT, SPRITES, WIDTH};
use chip8::instruction::Instruction;
use chip8::keyboard::{HostKey, KeyMapping, Keyboard};

fn machine_with(program: Vec<u8>, clock_speed: u32) -> Cpu {
    Cpu::new(program, clock_speed, false)
}

#[test]
fn new_places_glyphs_and_program() {
    let cpu = machine_with(vec![0xAB, 0xCD, 0xEF], 360);
    for (i, b) in SPRITES.iter().enumerate() {
        assert_eq!(*b, cpu.memory[i]);
    }
    assert_eq!(0, cpu.memory[80]);
    assert_eq!(0, cpu.memory[0x1FF]);
    assert_eq!(0xAB, cpu.memory[0x200]);
    assert_eq!(0xCD, cpu.memory[0x201]);
    assert_eq!(0xEF, cpu.memory[0x202]);
    assert_eq!(0, cpu.memory[0x203]);
    assert_eq!(PROGRAM_START, cpu.pc);
    assert_eq!(0, cpu.sp);
    assert!(!cpu.faulted);
    assert!(!cpu.draw_flag);
}

#[test]
fn new_accepts_largest_program() {
    let program = vec![0x11; 4096 - 0x200];
    let cpu = machine_with(program, 60);
    assert_eq!(0x11, cpu.memory[4095]);
    assert_eq!(0x11, cpu.memory[0x200]);
}

#[test]
fn load_immediate_then_read() {
    for r in 0..16u8 {
        let mut cpu = machine_with(Vec::new(), 360);
        let pc = cpu.pc;
        cpu.load_val(r, 0xA5);
        assert_eq!(0xA5, cpu.registers[r as usize]);
        assert_eq!(pc + 2, cpu.pc);
    }
}

#[test]
fn add_registers_overflow_sets_carry() {
    let mut cpu = machine_with(Vec::new(), 360);
    cpu.registers[0] = 0xFF;
    cpu.registers[1] = 0x02;
    cpu.add_reg(0x0, 0x1);
    assert_eq!(0x01, cpu.registers[0]);
    assert_eq!(1, cpu.registers[0xF]);
}

#[test]
fn add_registers_without_overflow_clears_carry() {
    let mut cpu = machine_with(Vec::new(), 360);
    cpu.registers[0] = 0x42;
    cpu.registers[1] = 0x01;
    cpu.registers[0xF] = 7;
    cpu.add_reg(0x0, 0x1);
    assert_eq!(0x43, cpu.registers[0]);
    assert_eq!(0, cpu.registers[0xF]);
}

#[test]
fn sub_registers_underflow_clears_flag() {
    let mut cpu = machine_with(Vec::new(), 360);
    cpu.registers[0] = 0x01;
    cpu.registers[1] = 0x02;
    cpu.sub_reg(0x0, 0x1);
    assert_eq!(0xFF, cpu.registers[0]);
    assert_eq!(0, cpu.registers[0xF]);
}

#[test]
fn sub_registers_no_borrow_sets_flag() {
    let mut cpu = machine_with(Vec::new(), 360);
    cpu.registers[0] = 0x05;
    cpu.registers[1] = 0x05;
    cpu.sub_reg(0x0, 0x1);
    assert_eq!(0x00, cpu.registers[0]);
    assert_eq!(1, cpu.registers[0xF]);
}

#[test]
fn sub_registers_wraps_across_sign() {
    let mut cpu = machine_with(Vec::new(), 360);
    cpu.registers[0] = 0x01;
    cpu.registers[1] = 0x80;
    cpu.sub_reg(0x0, 0x1);
    assert_eq!(0x81, cpu.registers[0]);
    assert_eq!(0, cpu.registers[0xF]);
}

#[test]
fn add_immediate_wraps_and_keeps_flag() {
    let mut cpu = machine_with(Vec::new(), 360);
    cpu.registers[2] = 0xF0;
    cpu.registers[0xF] = 9;
    cpu.add_val(0x2, 0x20);
    assert_eq!(0x10, cpu.registers[2]);
    assert_eq!(9, cpu.registers[0xF]);
}

#[test]
fn shift_right_flag_is_low_bit() {
    let mut cpu = machine_with(Vec::new(), 360);
    cpu.registers[0] = 0b10110101;
    cpu.shift_right(0x0);
    assert_eq!(0b01011010, cpu.registers[0]);
    assert_eq!(1, cpu.registers[0xF]);
}

#[test]
fn shift_left_flag_is_high_bit_in_place() {
    let mut cpu = machine_with(Vec::new(), 360);
    cpu.registers[0] = 0b10110101;
    cpu.shift_left(0x0);
    assert_eq!(0b01101010, cpu.registers[0]);
    assert_eq!(0b10000000, cpu.registers[0xF]);
}

#[test]
fn call_then_return_round_trip() {
    let mut cpu = machine_with(Vec::new(), 360);
    cpu.pc = 0x0244;
    cpu.call(0x0300);
    cpu.call(0x0400);
    assert_eq!(2, cpu.sp);
    assert_eq!(0x0400, cpu.pc);
    cpu.ret();
    assert_eq!(0x0300, cpu.pc);
    assert_eq!(1, cpu.sp);
    cpu.ret();
    assert_eq!(0x0244, cpu.pc);
    assert_eq!(0, cpu.sp);
    assert!(!cpu.faulted);
}

#[test]
fn sixteen_nested_calls_unwind() {
    let mut cpu = machine_with(Vec::new(), 360);
    cpu.pc = 0x0202;
    for depth in 1..=16u16 {
        cpu.call(0x0400 + 2 * depth);
    }
    assert_eq!(16, cpu.sp);
    assert_eq!(0x0420, cpu.pc);
    for depth in (1..=16u16).rev() {
        cpu.ret();
        assert_eq!(depth - 1, cpu.sp);
    }
    assert_eq!(0x0202, cpu.pc);
    assert!(!cpu.faulted);
}

#[test]
fn return_with_empty_stack_faults() {
    let mut cpu = machine_with(Vec::new(), 360);
    let pc = cpu.pc;
    cpu.ret();
    assert!(cpu.faulted);
    assert_eq!(pc, cpu.pc);
    assert_eq!(0, cpu.sp);
}

#[test]
fn call_with_full_stack_faults() {
    let mut cpu = machine_with(Vec::new(), 360);
    for depth in 1..=16u16 {
        cpu.pc = 0x0300 + 2 * depth;
        cpu.call(0x0300);
        assert_eq!(depth, cpu.sp);
        assert_eq!(0x0300 + 2 * depth, cpu.stack[cpu.sp as usize]);
    }
    assert!(!cpu.faulted);
    cpu.pc = 0x0250;
    cpu.call(0x0400);
    assert!(cpu.faulted);
    assert_eq!(0x0250, cpu.pc);
    assert_eq!(16, cpu.sp);
}

#[test]
fn skip_if_equal_both_branches() {
    let mut cpu = machine_with(Vec::new(), 360);
    cpu.registers[3] = 0x10;
    let pc = cpu.pc;
    cpu.skip_equal(0x3, 0x10);
    assert_eq!(pc + 4, cpu.pc);
    let pc = cpu.pc;
    cpu.skip_equal(0x3, 0x11);
    assert_eq!(pc + 2, cpu.pc);
}

#[test]
fn program_counter_wraps_at_sixteen_bits() {
    let mut cpu = machine_with(Vec::new(), 360);
    cpu.pc = 0xFFFE;
    cpu.noop();
    assert_eq!(0x0000, cpu.pc);
    cpu.pc = 0xFFFE;
    cpu.registers[0] = 1;
    cpu.skip_equal(0x0, 1);
    assert_eq!(0x0002, cpu.pc);
}

#[test]
fn skip_key_outside_keypad_is_not_pressed() {
    let mut cpu = machine_with(Vec::new(), 360);
    cpu.registers[0] = 0x20;
    let pc = cpu.pc;
    cpu.skip_key(0x0);
    assert_eq!(pc + 2, cpu.pc);
    let pc = cpu.pc;
    cpu.skip_not_key(0x0);
    assert_eq!(pc + 4, cpu.pc);
}

#[test]
fn set_key_presses_and_releases() {
    let mut cpu = machine_with(Vec::new(), 360);
    cpu.set_key(0xA, true);
    assert!(cpu.keys[0xA]);
    cpu.registers[1] = 0xA;
    let pc = cpu.pc;
    cpu.skip_key(0x1);
    assert_eq!(pc + 4, cpu.pc);
    cpu.set_key(0xA, false);
    assert!(!cpu.keys[0xA]);
}

#[test]
fn add_index_wraps_at_sixteen_bits() {
    let mut cpu = machine_with(Vec::new(), 360);
    cpu.index = 0xFFF0;
    cpu.registers[0] = 0x20;
    cpu.add_index(0x0);
    assert_eq!(0x0010, cpu.index);
}

#[test]
fn load_digit_points_at_glyph() {
    let mut cpu = machine_with(Vec::new(), 360);
    cpu.registers[4] = 0xF;
    cpu.load_digit(0x4);
    assert_eq!(75, cpu.index);
    assert_eq!(0xF0, cpu.memory[cpu.index as usize]);
}

#[test]
fn load_bcd_of_largest_byte() {
    let mut cpu = machine_with(Vec::new(), 360);
    cpu.index = 0x300;
    cpu.registers[0] = 255;
    cpu.load_bcd(0x0);
    assert_eq!(2, cpu.memory[0x300]);
    assert_eq!(5, cpu.memory[0x301]);
    assert_eq!(5, cpu.memory[0x302]);
}

#[test]
fn load_bcd_wraps_round_memory() {
    let mut cpu = machine_with(Vec::new(), 360);
    cpu.index = 0x0FFF;
    cpu.registers[0] = 123;
    cpu.load_bcd(0x0);
    assert_eq!(1, cpu.memory[0xFFF]);
    assert_eq!(2, cpu.memory[0x000]);
    assert_eq!(3, cpu.memory[0x001]);
}

#[test]
fn store_and_read_all_registers() {
    let mut cpu = machine_with(Vec::new(), 360);
    cpu.index = 0x400;
    for r in 0..16u8 {
        cpu.registers[r as usize] = r * 3 + 1;
    }
    cpu.store_index(0xF);
    for r in 0..16usize {
        assert_eq!((r as u8) * 3 + 1, cpu.memory[0x400 + r]);
        cpu.registers[r] = 0;
    }
    assert_eq!(0, cpu.memory[0x410]);
    cpu.read_index(0x7);
    for r in 0..8usize {
        assert_eq!((r as u8) * 3 + 1, cpu.registers[r]);
    }
    for r in 8..16usize {
        assert_eq!(0, cpu.registers[r]);
    }
}

#[test]
fn rand_from_masks_the_byte() {
    let mut cpu = machine_with(Vec::new(), 360);
    let pc = cpu.pc;
    cpu.rand_from(0x5, 0x0F, 0xAB);
    assert_eq!(0x0B, cpu.registers[5]);
    assert_eq!(pc + 2, cpu.pc);
}

#[test]
fn rand_stays_within_mask() {
    let mut cpu = machine_with(Vec::new(), 360);
    for _ in 0..64 {
        cpu.rand(0x1, 0x11);
        assert_eq!(0, cpu.registers[1] & !0x11);
    }
}

#[test]
fn sprite_drawn_twice_collides_and_clears() {
    let mut display = Display::new();
    let sprite = vec![0xFFu8];
    assert!(!display.draw_sprite(&sprite, 0, 0));
    for c in 0..8 {
        assert!(display.get_screen()[0][c]);
    }
    assert!(!display.get_screen()[0][8]);
    assert!(!display.get_screen()[1][0]);
    assert!(display.draw_sprite(&sprite, 0, 0));
    for c in 0..8 {
        assert!(!display.get_screen()[0][c]);
    }
}

#[test]
fn sprite_is_clipped_not_wrapped() {
    let mut display = Display::new();
    let sprite = vec![0xFFu8, 0x81];
    assert!(!display.draw_sprite(&sprite, WIDTH - 4, HEIGHT - 1));
    let screen = display.get_screen();
    for c in WIDTH - 4..WIDTH {
        assert!(screen[HEIGHT - 1][c]);
    }
    for c in 0..4 {
        assert!(!screen[HEIGHT - 1][c]);
        assert!(!screen[0][c]);
    }
    assert!(!screen[0][WIDTH - 4]);
}

#[test]
fn sprite_far_off_screen_draws_nothing() {
    let mut display = Display::new();
    let sprite = vec![0xFFu8; 15];
    assert!(!display.draw_sprite(&sprite, usize::MAX - 3, usize::MAX - 3));
    assert!(!display.draw_sprite(&sprite, 200, 5));
    for row in display.get_screen().iter() {
        assert!(row.iter().all(|p| !p));
    }
}

#[test]
fn partial_overlap_reports_collision() {
    let mut display = Display::new();
    assert!(!display.draw_sprite(&[0b1000_0000], 3, 2));
    assert!(!display.draw_sprite(&[0b0100_0000], 3, 2));
    assert!(display.draw_sprite(&[0b1100_0000], 3, 2));
    let screen = display.get_screen();
    assert!(!screen[2][3]);
    assert!(!screen[2][4]);
}

#[test]
fn draw_instruction_sets_flag_and_redraw_signal() {
    let mut cpu = machine_with(Vec::new(), 360);
    cpu.registers[0] = 0;
    cpu.registers[1] = 0;
    cpu.registers[2] = 0x0;
    cpu.load_digit(0x2);
    cpu.draw(0x0, 0x1, 5);
    assert!(cpu.draw_flag);
    assert_eq!(0, cpu.registers[0xF]);
    {
        let screen = cpu.get_screen();
        assert!(screen[0][0] && screen[0][3] && !screen[0][4]);
        assert!(screen[1][0] && !screen[1][1] && screen[1][3]);
    }
    cpu.draw(0x0, 0x1, 5);
    assert_eq!(1, cpu.registers[0xF]);
    let screen = cpu.get_screen();
    assert!(screen.iter().all(|row| row.iter().all(|p| !p)));
}

#[test]
fn decode_every_word() {
    for val in 0..=0xFFFFu16 {
        let _ = Instruction::parse(val);
    }
}

#[test]
fn decode_known_words() {
    assert_eq!(Instruction::Clear, Instruction::parse(0x00E0));
    assert_eq!(Instruction::Return, Instruction::parse(0x00EE));
    assert_eq!(Instruction::ExRoutine(0x123), Instruction::parse(0x0123));
    assert_eq!(Instruction::Jump(0xABC), Instruction::parse(0x1ABC));
    assert_eq!(Instruction::Call(0x456), Instruction::parse(0x2456));
    assert_eq!(Instruction::SkipIfEqual(0x3, 0x42), Instruction::parse(0x3342));
    assert_eq!(Instruction::SkipIfNotEqual(0xA, 0xFF), Instruction::parse(0x4AFF));
    assert_eq!(Instruction::SkipIfRegEqual(0x1, 0x2), Instruction::parse(0x5120));
    assert_eq!(Instruction::LoadVal(0x0, 0x05), Instruction::parse(0x6005));
    assert_eq!(Instruction::AddVal(0x7, 0x01), Instruction::parse(0x7701));
    assert_eq!(Instruction::LoadReg(0x1, 0x2), Instruction::parse(0x8120));
    assert_eq!(Instruction::Or(0x1, 0x2), Instruction::parse(0x8121));
    assert_eq!(Instruction::And(0x1, 0x2), Instruction::parse(0x8122));
    assert_eq!(Instruction::Xor(0x1, 0x2), Instruction::parse(0x8123));
    assert_eq!(Instruction::AddReg(0x1, 0x2), Instruction::parse(0x8124));
    assert_eq!(Instruction::SubReg(0x1, 0x2), Instruction::parse(0x8125));
    assert_eq!(Instruction::ShiftRight(0x1), Instruction::parse(0x8126));
    assert_eq!(Instruction::ShiftLeft(0x1), Instruction::parse(0x812E));
    assert_eq!(Instruction::SetIndexRegister(0x321), Instruction::parse(0xA321));
    assert_eq!(Instruction::Random(0xB, 0x0F), Instruction::parse(0xCB0F));
    assert_eq!(Instruction::Draw(0x1, 0x2, 0x5), Instruction::parse(0xD125));
    assert_eq!(Instruction::SkipIfKey(0x4), Instruction::parse(0xE49E));
    assert_eq!(Instruction::SkipIfNotKey(0x4), Instruction::parse(0xE4A1));
    assert_eq!(Instruction::AddIndex(0x5), Instruction::parse(0xF51E));
    assert_eq!(Instruction::LoadDigit(0x5), Instruction::parse(0xF529));
    assert_eq!(Instruction::LoadBCD(0x5), Instruction::parse(0xF533));
    assert_eq!(Instruction::StoreIndex(0x5), Instruction::parse(0xF555));
    assert_eq!(Instruction::ReadIndex(0x5), Instruction::parse(0xF565));
}

#[test]
fn decode_invalid_words() {
    for val in [0x5001u16, 0x512F, 0x9000, 0x9AB0, 0xB123, 0x8127, 0x812D, 0x812F, 0xE000,
        0xE19F, 0xF000, 0xF015, 0xF107, 0xFFFF]
    {
        assert_eq!(Instruction::InvalidOperation, Instruction::parse(val), "{:04X}", val);
    }
}

#[test]
fn two_instruction_program_loops() {
    let mut cpu = machine_with(vec![0x60, 0x05, 0x12, 0x00], 360);
    cpu.cycle();
    cpu.cycle();
    assert_eq!(0x05, cpu.registers[0]);
    assert_eq!(0x200, cpu.pc);
    assert!(!cpu.faulted);
    cpu.cycle();
    cpu.cycle();
    assert_eq!(0x05, cpu.registers[0]);
    assert_eq!(0x200, cpu.pc);
    assert!(!cpu.faulted);
}

#[test]
fn invalid_word_faults_for_good() {
    let mut cpu = machine_with(vec![0x60, 0x07, 0x90, 0x00, 0x61, 0x01], 360);
    cpu.cycle();
    assert!(!cpu.faulted);
    cpu.del_timer = 9;
    cpu.cycle();
    assert!(cpu.faulted);
    assert_eq!(0x202, cpu.pc);
    assert_eq!(9, cpu.del_timer);
    cpu.cycle();
    cpu.cycle();
    assert!(cpu.faulted);
    assert_eq!(0x202, cpu.pc);
    assert_eq!(0, cpu.registers[1]);
    assert_eq!(9, cpu.del_timer);
}

#[test]
fn random_instruction_uses_given_byte() {
    let mut cpu = machine_with(vec![0xC3, 0x3C], 360);
    cpu.cycle_with_random(0xF5);
    assert_eq!(0x34, cpu.registers[3]);
    assert_eq!(0x202, cpu.pc);
}

#[test]
fn delay_timer_at_double_rate_counts_every_second_cycle() {
    // A loop on itself: 0x200 jumps to 0x200.
    let mut cpu = machine_with(vec![0x12, 0x00], 120);
    cpu.del_timer = 10;
    cpu.sound_timer = 1;
    cpu.cycle();
    assert_eq!(9, cpu.del_timer);
    assert_eq!(0, cpu.sound_timer);
    cpu.cycle();
    assert_eq!(9, cpu.del_timer);
    cpu.cycle();
    assert_eq!(8, cpu.del_timer);
    cpu.cycle();
    assert_eq!(8, cpu.del_timer);
    assert_eq!(0, cpu.sound_timer);
}

#[test]
fn delay_timer_at_default_rate_counts_every_sixth_cycle() {
    let mut cpu = machine_with(vec![0x12, 0x00], 360);
    cpu.del_timer = 3;
    let mut seen = Vec::new();
    for _ in 0..13 {
        cpu.cycle();
        seen.push(cpu.del_timer);
    }
    assert_eq!(vec![2, 2, 2, 2, 2, 2, 1, 1, 1, 1, 1, 1, 0], seen);
}

#[test]
fn timers_stop_at_zero() {
    let mut cpu = machine_with(vec![0x12, 0x00], 60);
    cpu.del_timer = 1;
    cpu.cycle();
    cpu.cycle();
    cpu.cycle();
    assert_eq!(0, cpu.del_timer);
    assert_eq!(0, cpu.sound_timer);
}

#[test]
fn instruction_word_is_big_endian_and_wraps() {
    let mut cpu = machine_with(vec![0x12, 0x34], 360);
    assert_eq!(0x1234, cpu.read_next_instruction());
    cpu.memory[0xFFF] = 0xAB;
    cpu.memory[0x000] = 0xCD;
    cpu.pc = 0x0FFF;
    assert_eq!(0xABCD, cpu.read_next_instruction());
    cpu.pc = 0x1FFF;
    assert_eq!(0xABCD, cpu.read_next_instruction());
}

#[test]
fn default_mapping_uses_hex_digits() {
    let keyboard = Keyboard::new(KeyMapping::Default);
    assert_eq!(Some(0x0), keyboard.map_key(HostKey::D0));
    assert_eq!(Some(0x7), keyboard.map_key(HostKey::D7));
    assert_eq!(Some(0xA), keyboard.map_key(HostKey::A));
    assert_eq!(Some(0xF), keyboard.map_key(HostKey::F));
    assert_eq!(None, keyboard.map_key(HostKey::G));
    assert_eq!(None, keyboard.map_key(HostKey::Other));
}

#[test]
fn improved_mapping_uses_keypad_block() {
    let keyboard = Keyboard::new(KeyMapping::Improved);
    assert_eq!(Some(0x1), keyboard.map_key(HostKey::D1));
    assert_eq!(Some(0xC), keyboard.map_key(HostKey::D4));
    assert_eq!(Some(0x4), keyboard.map_key(HostKey::Q));
    assert_eq!(Some(0xD), keyboard.map_key(HostKey::R));
    assert_eq!(Some(0x7), keyboard.map_key(HostKey::A));
    assert_eq!(Some(0xE), keyboard.map_key(HostKey::F));
    assert_eq!(Some(0xA), keyboard.map_key(HostKey::Z));
    assert_eq!(Some(0x0), keyboard.map_key(HostKey::X));
    assert_eq!(Some(0xB), keyboard.map_key(HostKey::C));
    assert_eq!(Some(0xF), keyboard.map_key(HostKey::V));
    assert_eq!(None, keyboard.map_key(HostKey::D0));
    assert_eq!(None, keyboard.map_key(HostKey::B));
    assert_eq!(None, keyboard.map_key(HostKey::Other));
}

#[test]
fn mnemonics_match_assembler_syntax() {
    let cases = [
        (0x00E0u16, "CLS"),
        (0x00EE, "RET"),
        (0x0123, "SYS 0x123"),
        (0x1200, "JP 0x200"),
        (0x2ABC, "CALL 0xABC"),
        (0x3A07, "SE VA, 7"),
        (0x4B10, "SNE VB, 16"),
        (0x5120, "SE V1, V2"),
        (0x6005, "LD V0, 5"),
        (0x7FFF, "ADD VF, 255"),
        (0x8120, "LD V1, V2"),
        (0x8121, "OR V1, V2"),
        (0x8122, "AND V1, V2"),
        (0x8123, "XOR V1, V2"),
        (0x8124, "ADD V1, V2"),
        (0x8125, "SUB V1, V2"),
        (0x8E06, "SHR VE"),
        (0x8D0E, "SHL VD"),
        (0xA00F, "LD I, 0xF"),
        (0xA000, "LD I, 0x0"),
        (0xC364, "RND V3, 100"),
        (0xD12F, "DRW V1, V2, 15"),
        (0xD120, "DRW V1, V2, 0"),
        (0xE49E, "SKP V4"),
        (0xE4A1, "SKNP V4"),
        (0xF51E, "ADD I, V5"),
        (0xF529, "LD F, V5"),
        (0xF533, "LD B, V5"),
        (0xF555, "LD [I], V5"),
        (0xF565, "LD V5 [I]"),
        (0x9000, "INVALID OPERATION"),
    ];
    for (word, text) in cases.iter() {
        assert_eq!(*text, Instruction::parse(*word).mnemonic(), "{:04X}", word);
    }
}

#[test]
fn mnemonic_of_operands_outside_fields() {
    assert_eq!("JP 0xFFFF", Instruction::Jump(0xFFFF).mnemonic());
    assert_eq!("LD V1F, 0", Instruction::LoadVal(0x1F, 0).mnemonic());
}
