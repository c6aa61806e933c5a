use chip8::CpuError;
use chip8::Input;
use chip8::CPU;

fn cpu_with_program(program: &[u8]) -> CPU {
    let mut cpu = CPU::new();
    cpu.load_rom(program).unwrap();
    cpu
}

#[test]
fn test_update_timers() {
    let mut cpu = CPU::new();
    cpu.delay_timer = 3;
    cpu.sound_timer = 2;

    cpu.update_timers();
    assert_eq!(cpu.delay_timer, 2);
    assert_eq!(cpu.sound_timer, 1);

    cpu.update_timers();
    assert_eq!(cpu.delay_timer, 1);
    assert_eq!(cpu.sound_timer, 0);

    cpu.update_timers();
    assert_eq!(cpu.delay_timer, 0);
    assert_eq!(cpu.sound_timer, 0);

    // Should stay at 0
    cpu.update_timers();
    assert_eq!(cpu.delay_timer, 0);
    assert_eq!(cpu.sound_timer, 0);
}

#[test]
fn timer_ticks_from_three_to_zero_and_stays() {
    let mut cpu = CPU::new();
    cpu.delay_timer = 3;
    let mut seen = Vec::new();
    for _ in 0..4 {
        cpu.update_timers();
        seen.push(cpu.delay_timer);
    }
    assert_eq!(seen, vec![2, 1, 0, 0]);
}

#[test]
fn tone_is_active_while_sound_timer_is_nonzero() {
    let mut cpu = CPU::new();
    cpu.sound_timer = 2;
    assert!(cpu.update_timers());
    assert!(!cpu.update_timers());
    assert!(!cpu.update_timers());
}

#[test]
fn new_machine_is_zeroed_with_font_installed() {
    let cpu = CPU::new();
    assert_eq!(cpu.pc, 0x200);
    assert_eq!(cpu.i, 0);
    assert_eq!(cpu.sp, 0);
    assert!(cpu.v.iter().all(|&r| r == 0));
    assert!(cpu.display.iter().all(|&p| p == 0));
    assert!(cpu.input.iter().all(|&k| !k));
    assert_eq!(&cpu.memory[0x50..0x55], &[0xF0, 0x90, 0x90, 0x90, 0xF0]);
    assert_eq!(&cpu.memory[0x9B..0xA0], &[0xF0, 0x80, 0xF0, 0x80, 0x80]);
    assert_eq!(cpu.memory[0x4F], 0);
    assert_eq!(cpu.memory[0xA0], 0);
    assert!(cpu.memory[0x200..].iter().all(|&b| b == 0));
}

#[test]
fn reset_restores_the_initial_state() {
    let mut cpu = cpu_with_program(&[0x12, 0x34]);
    cpu.v[3] = 9;
    cpu.display[10] = 1;
    cpu.sp = 2;
    cpu.reset();
    let fresh = CPU::new();
    assert_eq!(cpu.v, fresh.v);
    assert_eq!(cpu.memory, fresh.memory);
    assert_eq!(cpu.display, fresh.display);
    assert_eq!(cpu.sp, 0);
    assert_eq!(cpu.pc, 0x200);
}

#[test]
fn rom_of_3585_bytes_is_rejected_and_nothing_changes() {
    let mut cpu = CPU::new();
    let before = cpu.memory;
    let rom = vec![0xAB; 3585];
    assert_eq!(cpu.load_rom(&rom), Err(CpuError::RomTooLarge(3585)));
    assert_eq!(cpu.memory, before);
    assert_eq!(cpu.pc, 0x200);
}

#[test]
fn rom_of_3584_bytes_fills_program_space() {
    let mut cpu = CPU::new();
    let rom: Vec<u8> = (0..3584).map(|k| (k % 251) as u8 + 1).collect();
    assert_eq!(cpu.load_rom(&rom), Ok(()));
    assert_eq!(&cpu.memory[0x200..0x1000], &rom[..]);
    assert_eq!(&cpu.memory[0x50..0x55], &[0xF0, 0x90, 0x90, 0x90, 0xF0]);
    assert_eq!(cpu.memory[0x1FF], 0);
}

#[test]
fn fetch_is_big_endian_and_leaves_pc() {
    let cpu = cpu_with_program(&[0xA2, 0xF0]);
    assert_eq!(cpu.fetch(), Ok(0xA2F0));
    assert_eq!(cpu.pc, 0x200);
}

#[test]
fn fetch_past_memory_fails() {
    let mut cpu = CPU::new();
    cpu.pc = 4095;
    assert_eq!(cpu.fetch(), Err(CpuError::OutOfBounds(4095)));
    cpu.pc = 4094;
    assert_eq!(cpu.fetch(), Ok(0));
    cpu.pc = 4095;
    assert_eq!(cpu.tick(), Err(CpuError::OutOfBounds(4095)));
}

#[test]
fn add_with_carry_sets_flag_on_overflow() {
    let mut cpu = CPU::new();
    cpu.v[0] = 200;
    cpu.v[1] = 100;
    assert_eq!(cpu.decode_and_execute(0x8014), Ok(()));
    assert_eq!(cpu.v[0], 44);
    assert_eq!(cpu.v[0xF], 1);
    assert_eq!(cpu.pc, 0x202);

    cpu.v[2] = 100;
    cpu.v[3] = 155;
    cpu.decode_and_execute(0x8234).unwrap();
    assert_eq!(cpu.v[2], 255);
    assert_eq!(cpu.v[0xF], 0);
}

#[test]
fn subtractions_set_flag_when_no_borrow() {
    let mut cpu = CPU::new();
    cpu.v[0] = 5;
    cpu.v[1] = 10;
    cpu.decode_and_execute(0x8015).unwrap();
    assert_eq!(cpu.v[0], 251);
    assert_eq!(cpu.v[0xF], 0);

    cpu.v[0] = 10;
    cpu.v[1] = 5;
    cpu.decode_and_execute(0x8015).unwrap();
    assert_eq!(cpu.v[0], 5);
    assert_eq!(cpu.v[0xF], 1);

    cpu.v[0] = 7;
    cpu.v[1] = 7;
    cpu.decode_and_execute(0x8015).unwrap();
    assert_eq!(cpu.v[0], 0);
    assert_eq!(cpu.v[0xF], 1);

    cpu.v[0] = 10;
    cpu.v[1] = 3;
    cpu.decode_and_execute(0x8017).unwrap();
    assert_eq!(cpu.v[0], 249);
    assert_eq!(cpu.v[0xF], 0);

    cpu.v[0] = 3;
    cpu.v[1] = 10;
    cpu.decode_and_execute(0x8017).unwrap();
    assert_eq!(cpu.v[0], 7);
    assert_eq!(cpu.v[0xF], 1);
}

#[test]
fn shifts_put_shifted_out_bit_in_flag() {
    let mut cpu = CPU::new();
    cpu.v[2] = 0b1000_0011;
    cpu.decode_and_execute(0x8206).unwrap();
    assert_eq!(cpu.v[2], 0b0100_0001);
    assert_eq!(cpu.v[0xF], 1);

    cpu.v[2] = 0b1000_0010;
    cpu.decode_and_execute(0x8206).unwrap();
    assert_eq!(cpu.v[0xF], 0);

    cpu.v[2] = 0b1000_0001;
    cpu.decode_and_execute(0x820E).unwrap();
    assert_eq!(cpu.v[2], 0b0000_0010);
    assert_eq!(cpu.v[0xF], 1);

    cpu.v[2] = 0b0100_0000;
    cpu.decode_and_execute(0x820E).unwrap();
    assert_eq!(cpu.v[2], 0b1000_0000);
    assert_eq!(cpu.v[0xF], 0);

    // With VF itself shifted the flag still holds the bit shifted out.
    cpu.v[0xF] = 0b0000_0011;
    cpu.decode_and_execute(0x8F06).unwrap();
    assert_eq!(cpu.v[0xF], 1);
}

#[test]
fn logic_and_load_instructions() {
    let mut cpu = CPU::new();
    cpu.decode_and_execute(0x6A0C).unwrap();
    assert_eq!(cpu.v[0xA], 0x0C);
    cpu.decode_and_execute(0x7AF8).unwrap();
    assert_eq!(cpu.v[0xA], 0x04);
    cpu.v[0xB] = 0b1010;
    cpu.decode_and_execute(0x8AB1).unwrap();
    assert_eq!(cpu.v[0xA], 0b1110);
    cpu.decode_and_execute(0x8AB2).unwrap();
    assert_eq!(cpu.v[0xA], 0b1010);
    cpu.decode_and_execute(0x8AB3).unwrap();
    assert_eq!(cpu.v[0xA], 0);
    cpu.decode_and_execute(0x8AB0).unwrap();
    assert_eq!(cpu.v[0xA], 0b1010);
    cpu.decode_and_execute(0xA123).unwrap();
    assert_eq!(cpu.i, 0x123);
    assert_eq!(cpu.pc, 0x200 + 2 * 7);
}

#[test]
fn skips_advance_by_four_or_two() {
    let mut cpu = CPU::new();
    cpu.v[1] = 0x42;
    cpu.decode_and_execute(0x3142).unwrap();
    assert_eq!(cpu.pc, 0x204);
    cpu.decode_and_execute(0x3143).unwrap();
    assert_eq!(cpu.pc, 0x206);
    cpu.decode_and_execute(0x4143).unwrap();
    assert_eq!(cpu.pc, 0x20A);
    cpu.decode_and_execute(0x4142).unwrap();
    assert_eq!(cpu.pc, 0x20C);
    cpu.v[2] = 0x42;
    cpu.decode_and_execute(0x5120).unwrap();
    assert_eq!(cpu.pc, 0x210);
    cpu.decode_and_execute(0x9120).unwrap();
    assert_eq!(cpu.pc, 0x212);
    cpu.v[2] = 0x41;
    cpu.decode_and_execute(0x9120).unwrap();
    assert_eq!(cpu.pc, 0x216);
}

#[test]
fn key_skips_use_low_nibble_of_vx() {
    let mut cpu = CPU::new();
    cpu.v[4] = 0x1B;
    cpu.input[0xB] = true;
    cpu.decode_and_execute(0xE49E).unwrap();
    assert_eq!(cpu.pc, 0x204);
    cpu.decode_and_execute(0xE4A1).unwrap();
    assert_eq!(cpu.pc, 0x206);
    cpu.input[0xB] = false;
    cpu.decode_and_execute(0xE4A1).unwrap();
    assert_eq!(cpu.pc, 0x20A);
    cpu.decode_and_execute(0xE49E).unwrap();
    assert_eq!(cpu.pc, 0x20C);
}

#[test]
fn jumps() {
    let mut cpu = CPU::new();
    cpu.decode_and_execute(0x1ABC).unwrap();
    assert_eq!(cpu.pc, 0xABC);
    cpu.v[0] = 0x10;
    cpu.decode_and_execute(0xB300).unwrap();
    assert_eq!(cpu.pc, 0x310);
}

#[test]
fn call_then_return_resumes_after_call() {
    let mut cpu = cpu_with_program(&[0x23, 0x00]);
    cpu.memory[0x300] = 0x00;
    cpu.memory[0x301] = 0xEE;
    cpu.tick().unwrap();
    assert_eq!(cpu.pc, 0x300);
    assert_eq!(cpu.sp, 1);
    assert_eq!(cpu.stack[0], 0x202);
    cpu.tick().unwrap();
    assert_eq!(cpu.pc, 0x202);
    assert_eq!(cpu.sp, 0);
}

#[test]
fn return_on_empty_stack_fails() {
    let mut cpu = CPU::new();
    assert_eq!(cpu.decode_and_execute(0x00EE), Err(CpuError::StackUnderflow));
    assert_eq!(cpu.pc, 0x200);
}

#[test]
fn call_on_full_stack_fails_and_changes_nothing() {
    let mut cpu = CPU::new();
    for _ in 0..16 {
        cpu.decode_and_execute(0x2200).unwrap();
    }
    assert_eq!(cpu.sp, 16);
    let stack = cpu.stack;
    assert_eq!(cpu.decode_and_execute(0x2400), Err(CpuError::StackOverflow));
    assert_eq!(cpu.sp, 16);
    assert_eq!(cpu.stack, stack);
    assert_eq!(cpu.pc, 0x200);
}

#[test]
fn unknown_opcodes_are_reported_with_address() {
    let mut cpu = CPU::new();
    for opcode in [0x0123u16, 0x8008, 0xE000, 0xF0FF] {
        assert_eq!(
            cpu.decode_and_execute(opcode),
            Err(CpuError::UnknownOpcode { opcode, address: 0x200 })
        );
    }
    assert_eq!(cpu.pc, 0x200);
}

#[test]
fn clear_screen_unlights_every_pixel() {
    let mut cpu = CPU::new();
    cpu.display[0] = 1;
    cpu.display[2047] = 1;
    cpu.decode_and_execute(0x00E0).unwrap();
    assert!(cpu.display.iter().all(|&p| p == 0));
    assert_eq!(cpu.pc, 0x202);
}

#[test]
fn draw_sets_pixels_and_collision_flag() {
    let mut cpu = CPU::new();
    cpu.i = 0x300;
    cpu.memory[0x300] = 0b1100_0000;
    cpu.v[0] = 2;
    cpu.v[1] = 1;
    cpu.decode_and_execute(0xD011).unwrap();
    assert_eq!(cpu.display[64 + 2], 1);
    assert_eq!(cpu.display[64 + 3], 1);
    assert_eq!(cpu.display[64 + 4], 0);
    assert_eq!(cpu.v[0xF], 0);
    assert_eq!(cpu.i, 0x300);
    cpu.memory[0x300] = 0b0110_0000;
    cpu.decode_and_execute(0xD011).unwrap();
    assert_eq!(cpu.v[0xF], 1);
    assert_eq!(cpu.display[64 + 2], 1);
    assert_eq!(cpu.display[64 + 3], 0);
    assert_eq!(cpu.display[64 + 4], 1);
}

#[test]
fn drawing_twice_restores_a_blank_screen() {
    let mut cpu = CPU::new();
    cpu.v[0] = 10;
    cpu.v[1] = 5;
    cpu.decode_and_execute(0xF029).unwrap();
    cpu.decode_and_execute(0xD015).unwrap();
    assert!(cpu.display.iter().any(|&p| p == 1));
    assert_eq!(cpu.v[0xF], 0);
    cpu.decode_and_execute(0xD015).unwrap();
    assert_eq!(cpu.v[0xF], 1);
    assert!(cpu.display.iter().all(|&p| p == 0));
}

#[test]
fn draw_wraps_each_pixel_at_the_edges() {
    let mut cpu = CPU::new();
    cpu.i = 0x300;
    cpu.memory[0x300] = 0b1100_0000;
    cpu.memory[0x301] = 0b1100_0000;
    cpu.v[0] = 63;
    cpu.v[1] = 31;
    cpu.decode_and_execute(0xD012).unwrap();
    assert_eq!(cpu.display[31 * 64 + 63], 1);
    assert_eq!(cpu.display[31 * 64], 1);
    assert_eq!(cpu.display[63], 1);
    assert_eq!(cpu.display[0], 1);
    assert_eq!(cpu.display.iter().filter(|&&p| p == 1).count(), 4);
}

#[test]
fn draw_origin_is_taken_modulo_the_screen() {
    let mut cpu = CPU::new();
    cpu.i = 0x300;
    cpu.memory[0x300] = 0b1000_0000;
    cpu.v[0] = 64 + 5;
    cpu.v[1] = 32 + 3;
    cpu.decode_and_execute(0xD011).unwrap();
    assert_eq!(cpu.display[3 * 64 + 5], 1);
}

#[test]
fn draw_reading_past_memory_fails() {
    let mut cpu = CPU::new();
    cpu.i = 4094;
    assert_eq!(cpu.decode_and_execute(0xD013), Err(CpuError::OutOfBounds(4094)));
    assert!(cpu.display.iter().all(|&p| p == 0));
    assert_eq!(cpu.pc, 0x200);
    assert_eq!(cpu.decode_and_execute(0xD012), Ok(()));
}

#[test]
fn key_wait_repeats_until_a_key_is_pressed() {
    let mut cpu = cpu_with_program(&[0xF5, 0x0A]);
    for _ in 0..3 {
        cpu.tick().unwrap();
        assert_eq!(cpu.pc, 0x200);
    }
    cpu.input[0xC] = true;
    cpu.input[0x7] = true;
    cpu.tick().unwrap();
    assert_eq!(cpu.pc, 0x202);
    assert_eq!(cpu.v[5], 0x7);
}

#[test]
fn timers_are_set_and_read() {
    let mut cpu = CPU::new();
    cpu.v[3] = 40;
    cpu.decode_and_execute(0xF315).unwrap();
    cpu.decode_and_execute(0xF318).unwrap();
    assert_eq!(cpu.delay_timer, 40);
    assert_eq!(cpu.sound_timer, 40);
    cpu.update_timers();
    cpu.decode_and_execute(0xF407).unwrap();
    assert_eq!(cpu.v[4], 39);
}

#[test]
fn index_add_wraps_without_flag() {
    let mut cpu = CPU::new();
    cpu.i = 0xFFFF;
    cpu.v[1] = 2;
    cpu.decode_and_execute(0xF11E).unwrap();
    assert_eq!(cpu.i, 1);
    assert_eq!(cpu.v[0xF], 0);
}

#[test]
fn font_glyph_address_and_invalid_index() {
    let mut cpu = CPU::new();
    cpu.v[2] = 0xA;
    cpu.decode_and_execute(0xF229).unwrap();
    assert_eq!(cpu.i, 0x50 + 0xA * 5);
    cpu.v[2] = 0x10;
    assert_eq!(cpu.decode_and_execute(0xF229), Err(CpuError::InvalidFontIndex(0x10)));
    assert_eq!(cpu.i, 0x50 + 0xA * 5);
}

#[test]
fn decimal_digits_are_stored_at_i() {
    let mut cpu = CPU::new();
    cpu.i = 0x400;
    cpu.v[6] = 254;
    cpu.decode_and_execute(0xF633).unwrap();
    assert_eq!(&cpu.memory[0x400..0x403], &[2, 5, 4]);
    cpu.i = 4094;
    assert_eq!(cpu.decode_and_execute(0xF633), Err(CpuError::OutOfBounds(4094)));
    assert_eq!(cpu.memory[4094], 0);
}

#[test]
fn register_block_store_and_load() {
    let mut cpu = CPU::new();
    for k in 0..16 {
        cpu.v[k] = (k as u8) * 3 + 1;
    }
    cpu.i = 0x500;
    cpu.decode_and_execute(0xF355).unwrap();
    assert_eq!(&cpu.memory[0x500..0x505], &[1, 4, 7, 10, 0]);
    assert_eq!(cpu.i, 0x500);

    cpu.memory[0x600] = 0xAA;
    cpu.memory[0x601] = 0xBB;
    cpu.i = 0x600;
    cpu.decode_and_execute(0xF165).unwrap();
    assert_eq!(cpu.v[0], 0xAA);
    assert_eq!(cpu.v[1], 0xBB);
    assert_eq!(cpu.v[2], 7);
    assert_eq!(cpu.i, 0x600);

    cpu.i = 4090;
    assert_eq!(cpu.decode_and_execute(0xFF65), Err(CpuError::OutOfBounds(4090)));
    assert_eq!(cpu.v[0], 0xAA);
}

#[test]
fn random_instruction_masks_the_drawn_byte() {
    let mut cpu = CPU::new();
    cpu.v[2] = 0xFF;
    cpu.decode_and_execute(0xC200).unwrap();
    assert_eq!(cpu.v[2], 0);
    for _ in 0..20 {
        cpu.decode_and_execute(0xC30F).unwrap();
        assert!(cpu.v[3] <= 0x0F);
    }
    cpu.execute_with(0xC4F0, 0xAB).unwrap();
    assert_eq!(cpu.v[4], 0xA0);
}

#[test]
fn input_latch_records_keys() {
    let mut input = Input::new();
    assert!(input.keys.iter().all(|&k| !k));
    input.set_key(0xA, true);
    assert!(input.keys[0xA]);
    input.set_key(16, true);
    assert_eq!(input.keys.iter().filter(|&&k| k).count(), 1);
    input.set_key(0xA, false);
    assert!(!input.keys[0xA]);
}

#[test]
fn keyboard_layout_maps_to_keypad() {
    assert_eq!(Input::map_key('1'), Some(0x1));
    assert_eq!(Input::map_key('4'), Some(0xC));
    assert_eq!(Input::map_key('x'), Some(0x0));
    assert_eq!(Input::map_key('v'), Some(0xF));
    assert_eq!(Input::map_key('p'), None);
}
