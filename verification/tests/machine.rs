//! Behavioral tests of the machine: one test per instruction family, the
//! documented edge policies, and every error variant.

use chip8::cpu::Cpu;
use chip8::Error;

#[test]
fn new_machine_is_at_origin_with_font() {
    let c = Cpu::new();
    assert_eq!(c.pc, 0x200);
    assert_eq!(c.i, 0);
    assert_eq!(c.sp, 0);
    assert_eq!(c.dt, 0);
    assert_eq!(c.st, 0);
    // The "0" glyph opens the font table; the last byte belongs to "F".
    assert_eq!(c.memory[0], 0xF0);
    assert_eq!(c.memory[79], 0x80);
    assert_eq!(c.memory[80], 0x00);
    assert_eq!(c.memory[0xFFF], 0x00);
    assert!(c.v.iter().all(|&b| b == 0));
    assert!(c.framebuffer_snapshot().iter().all(|&p| !p));
}

#[test]
fn load_places_image_at_origin() {
    let mut c = Cpu::new();
    let image = vec![0x12u8, 0x34, 0x56];
    assert_eq!(c.load(&image), Ok(3));
    assert_eq!(c.memory[0x200], 0x12);
    assert_eq!(c.memory[0x201], 0x34);
    assert_eq!(c.memory[0x202], 0x56);
    assert_eq!(c.memory[0x203], 0x00);
}

#[test]
fn load_accepts_a_full_image_and_rejects_one_byte_more() {
    let mut c = Cpu::new();
    let full = vec![0xABu8; 3584];
    assert_eq!(c.load(&full), Ok(3584));
    assert_eq!(c.memory[0xFFF], 0xAB);

    let mut c2 = Cpu::new();
    let too_big = vec![0xABu8; 3585];
    assert_eq!(c2.load(&too_big), Err(Error::LoadError));
    // A rejected image leaves memory untouched.
    assert_eq!(c2.memory[0x200], 0x00);
}

#[test]
fn load_then_add_one_wraps() {
    // 63FF (V3 = 0xFF) then 7301 (V3 += 1) wraps to zero, VF untouched.
    let mut c = Cpu::new();
    c.memory[0x200] = 0x63;
    c.memory[0x201] = 0xFF;
    c.memory[0x202] = 0x73;
    c.memory[0x203] = 0x01;
    assert_eq!(c.execute_opcode(), Ok(()));
    assert_eq!(c.v[3], 0xFF);
    assert_eq!(c.execute_opcode(), Ok(()));
    assert_eq!(c.v[3], 0x00);
    assert_eq!(c.v[15], 0x00);
    assert_eq!(c.pc, 0x204);
}

#[test]
fn add_with_carry_sets_and_clears_vf() {
    // 8124: V1 += V2 with VF the carry.
    let mut c = Cpu::new();
    c.v[1] = 0xFF;
    c.v[2] = 0x01;
    c.memory[0x200] = 0x81;
    c.memory[0x201] = 0x24;
    assert_eq!(c.execute_opcode(), Ok(()));
    assert_eq!(c.v[1], 0x00);
    assert_eq!(c.v[15], 1);

    let mut c2 = Cpu::new();
    c2.v[1] = 0x01;
    c2.v[2] = 0x01;
    c2.memory[0x200] = 0x81;
    c2.memory[0x201] = 0x24;
    assert_eq!(c2.execute_opcode(), Ok(()));
    assert_eq!(c2.v[1], 0x02);
    assert_eq!(c2.v[15], 0);
}

#[test]
fn sub_sets_vf_on_no_borrow() {
    // 8125: V1 -= V2, VF = 1 exactly when no borrow occurred.
    let mut c = Cpu::new();
    c.v[1] = 0x01;
    c.v[2] = 0x02;
    c.memory[0x200] = 0x81;
    c.memory[0x201] = 0x25;
    assert_eq!(c.execute_opcode(), Ok(()));
    assert_eq!(c.v[1], 0xFF);
    assert_eq!(c.v[15], 0);

    let mut c2 = Cpu::new();
    c2.v[1] = 0x02;
    c2.v[2] = 0x01;
    c2.memory[0x200] = 0x81;
    c2.memory[0x201] = 0x25;
    assert_eq!(c2.execute_opcode(), Ok(()));
    assert_eq!(c2.v[1], 0x01);
    assert_eq!(c2.v[15], 1);
}

#[test]
fn subn_takes_difference_the_other_way() {
    // 8127: V1 = V2 - V1, VF = 1 exactly when V2 >= V1.
    let mut c = Cpu::new();
    c.v[1] = 0x01;
    c.v[2] = 0x05;
    c.memory[0x200] = 0x81;
    c.memory[0x201] = 0x27;
    assert_eq!(c.execute_opcode(), Ok(()));
    assert_eq!(c.v[1], 0x04);
    assert_eq!(c.v[15], 1);
}

#[test]
fn alu_bitwise_and_loads() {
    let mut c = Cpu::new();
    c.v[1] = 0b1100;
    c.v[2] = 0b1010;
    // 8120: V1 = V2
    c.memory[0x200] = 0x81;
    c.memory[0x201] = 0x20;
    // 8121: V1 |= V2 (V1 is 0b1010 now)
    c.memory[0x202] = 0x81;
    c.memory[0x203] = 0x21;
    assert_eq!(c.execute_opcode(), Ok(()));
    assert_eq!(c.v[1], 0b1010);
    assert_eq!(c.execute_opcode(), Ok(()));
    assert_eq!(c.v[1], 0b1010);

    let mut c2 = Cpu::new();
    c2.v[1] = 0b1100;
    c2.v[2] = 0b1010;
    // 8122: AND, then on a fresh pair 8123: XOR
    c2.memory[0x200] = 0x81;
    c2.memory[0x201] = 0x22;
    assert_eq!(c2.execute_opcode(), Ok(()));
    assert_eq!(c2.v[1], 0b1000);
    c2.v[1] = 0b1100;
    c2.memory[0x202] = 0x81;
    c2.memory[0x203] = 0x23;
    assert_eq!(c2.execute_opcode(), Ok(()));
    assert_eq!(c2.v[1], 0b0110);
}

#[test]
fn shifts_report_the_dropped_bit_in_vf() {
    // 8406: V4 >>= 1 with VF the old low bit.
    let mut c = Cpu::new();
    c.v[4] = 0x05;
    c.memory[0x200] = 0x84;
    c.memory[0x201] = 0x06;
    assert_eq!(c.execute_opcode(), Ok(()));
    assert_eq!(c.v[4], 0x02);
    assert_eq!(c.v[15], 1);

    // 840E: V4 <<= 1 with VF the old high bit.
    let mut c2 = Cpu::new();
    c2.v[4] = 0x81;
    c2.memory[0x200] = 0x84;
    c2.memory[0x201] = 0x0E;
    assert_eq!(c2.execute_opcode(), Ok(()));
    assert_eq!(c2.v[4], 0x02);
    assert_eq!(c2.v[15], 1);
}

#[test]
fn call_then_return_restores_pc_and_depth() {
    let mut c = Cpu::new();
    c.pc = 0x300;
    // 2400 at 0x300, 00EE at 0x400.
    c.memory[0x300] = 0x24;
    c.memory[0x301] = 0x00;
    c.memory[0x400] = 0x00;
    c.memory[0x401] = 0xEE;
    let depth = c.sp;
    assert_eq!(c.execute_opcode(), Ok(()));
    assert_eq!(c.pc, 0x400);
    assert_eq!(c.sp, depth + 1);
    assert_eq!(c.execute_opcode(), Ok(()));
    assert_eq!(c.pc, 0x302);
    assert_eq!(c.sp, depth);
}

#[test]
fn call_on_a_full_stack_overflows() {
    let mut c = Cpu::new();
    c.sp = 15;
    c.memory[0x200] = 0x23;
    c.memory[0x201] = 0x00;
    assert_eq!(c.execute_opcode(), Err(Error::StackOverflow));
    assert_eq!(c.pc, 0x200);
    assert_eq!(c.sp, 15);
}

#[test]
fn return_on_an_empty_stack_underflows() {
    let mut c = Cpu::new();
    c.memory[0x200] = 0x00;
    c.memory[0x201] = 0xEE;
    assert_eq!(c.execute_opcode(), Err(Error::StackUnderflow));
    assert_eq!(c.pc, 0x200);
}

#[test]
fn taken_skip_lands_two_instructions_ahead() {
    // 3005 with V0 == 5 skips: PC goes 0x200 -> 0x204, not 0x202.
    let mut c = Cpu::new();
    c.v[0] = 5;
    c.memory[0x200] = 0x30;
    c.memory[0x201] = 0x05;
    assert_eq!(c.execute_opcode(), Ok(()));
    assert_eq!(c.pc, 0x204);
}

#[test]
fn untaken_and_inverted_skips() {
    // 3006 with V0 == 5 does not skip.
    let mut c = Cpu::new();
    c.v[0] = 5;
    c.memory[0x200] = 0x30;
    c.memory[0x201] = 0x06;
    // 4006: skip when V0 != 6: taken.
    c.memory[0x202] = 0x40;
    c.memory[0x203] = 0x06;
    assert_eq!(c.execute_opcode(), Ok(()));
    assert_eq!(c.pc, 0x202);
    assert_eq!(c.execute_opcode(), Ok(()));
    assert_eq!(c.pc, 0x206);
}

#[test]
fn register_skips_compare_registers() {
    // 5120 with V1 == V2 skips; 9120 with V1 != V2 skips.
    let mut c = Cpu::new();
    c.v[1] = 7;
    c.v[2] = 7;
    c.memory[0x200] = 0x51;
    c.memory[0x201] = 0x20;
    assert_eq!(c.execute_opcode(), Ok(()));
    assert_eq!(c.pc, 0x204);

    let mut c2 = Cpu::new();
    c2.v[1] = 7;
    c2.v[2] = 8;
    c2.memory[0x200] = 0x91;
    c2.memory[0x201] = 0x20;
    assert_eq!(c2.execute_opcode(), Ok(()));
    assert_eq!(c2.pc, 0x204);
}

#[test]
fn jumps_set_pc_directly() {
    let mut c = Cpu::new();
    c.memory[0x200] = 0x12;
    c.memory[0x201] = 0x34;
    assert_eq!(c.execute_opcode(), Ok(()));
    assert_eq!(c.pc, 0x234);

    // B300 jumps to V0 + 0x300.
    let mut c2 = Cpu::new();
    c2.v[0] = 4;
    c2.memory[0x200] = 0xB3;
    c2.memory[0x201] = 0x00;
    assert_eq!(c2.execute_opcode(), Ok(()));
    assert_eq!(c2.pc, 0x304);
}

#[test]
fn index_register_loads_and_wraps() {
    let mut c = Cpu::new();
    c.memory[0x200] = 0xA1;
    c.memory[0x201] = 0x23;
    assert_eq!(c.execute_opcode(), Ok(()));
    assert_eq!(c.i, 0x123);

    // F11E adds V1 to I, wrapping at the 12-bit boundary.
    let mut c2 = Cpu::new();
    c2.i = 0xFFF;
    c2.v[1] = 2;
    c2.memory[0x200] = 0xF1;
    c2.memory[0x201] = 0x1E;
    assert_eq!(c2.execute_opcode(), Ok(()));
    assert_eq!(c2.i, 0x001);
}

#[test]
fn random_byte_is_masked() {
    // C500: every bit of the mask is clear, so V5 must be zero.
    let mut c = Cpu::new();
    c.v[5] = 0xAA;
    c.memory[0x200] = 0xC5;
    c.memory[0x201] = 0x00;
    assert_eq!(c.execute_opcode(), Ok(()));
    assert_eq!(c.v[5], 0x00);

    // C50F: the high nibble of the mask is clear.
    let mut c2 = Cpu::new();
    c2.memory[0x200] = 0xC5;
    c2.memory[0x201] = 0x0F;
    assert_eq!(c2.execute_opcode(), Ok(()));
    assert_eq!(c2.v[5] & 0xF0, 0x00);
}

#[test]
fn sprite_draw_twice_erases_and_reports_collision() {
    let mut c = Cpu::new();
    c.memory[0x300] = 0xFF;
    c.i = 0x300;
    // D011: one-row sprite at (V0, V1) == (0, 0).
    c.memory[0x200] = 0xD0;
    c.memory[0x201] = 0x11;
    assert_eq!(c.execute_opcode(), Ok(()));
    let fb = c.framebuffer_snapshot();
    for x in 0..8 {
        assert!(fb[x]);
    }
    assert!(!fb[8]);
    assert_eq!(c.v[15], 0);

    c.pc = 0x200;
    assert_eq!(c.execute_opcode(), Ok(()));
    let fb2 = c.framebuffer_snapshot();
    for x in 0..8 {
        assert!(!fb2[x]);
    }
    assert_eq!(c.v[15], 1);
}

#[test]
fn sprite_columns_wrap_at_the_right_edge() {
    let mut c = Cpu::new();
    c.memory[0x300] = 0xFF;
    c.i = 0x300;
    c.v[0] = 60;
    c.v[1] = 0;
    c.memory[0x200] = 0xD0;
    c.memory[0x201] = 0x11;
    assert_eq!(c.execute_opcode(), Ok(()));
    let fb = c.framebuffer_snapshot();
    for x in 60..64 {
        assert!(fb[x]);
    }
    for x in 0..4 {
        assert!(fb[x]);
    }
    for x in 4..60 {
        assert!(!fb[x]);
    }
    assert_eq!(c.v[15], 0);
}

#[test]
fn sprite_rows_wrap_at_the_bottom_edge() {
    let mut c = Cpu::new();
    c.memory[0x300] = 0x80;
    c.memory[0x301] = 0x80;
    c.i = 0x300;
    c.v[0] = 0;
    c.v[1] = 31;
    // D012: two rows starting on the last screen row.
    c.memory[0x200] = 0xD0;
    c.memory[0x201] = 0x12;
    assert_eq!(c.execute_opcode(), Ok(()));
    let fb = c.framebuffer_snapshot();
    assert!(fb[31 * 64]);
    assert!(fb[0]);
}

#[test]
fn clear_screen_turns_every_pixel_off() {
    let mut c = Cpu::new();
    c.memory[0x300] = 0xFF;
    c.i = 0x300;
    c.memory[0x200] = 0xD0;
    c.memory[0x201] = 0x11;
    c.memory[0x202] = 0x00;
    c.memory[0x203] = 0xE0;
    assert_eq!(c.execute_opcode(), Ok(()));
    assert_eq!(c.execute_opcode(), Ok(()));
    assert!(c.framebuffer_snapshot().iter().all(|&p| !p));
    assert_eq!(c.pc, 0x204);
}

#[test]
fn invalid_opcode_is_reported_and_changes_nothing() {
    let mut c = Cpu::new();
    c.memory[0x200] = 0x00;
    c.memory[0x201] = 0x01;
    c.v[3] = 42;
    let before_v = c.v.clone();
    let before_i = c.i;
    assert_eq!(c.execute_opcode(), Err(Error::InvalidOpcode(0x0001)));
    assert_eq!(c.pc, 0x200);
    assert_eq!(c.v, before_v);
    assert_eq!(c.i, before_i);
}

#[test]
fn invalid_sub_opcodes_in_each_group() {
    let mut c = Cpu::new();
    c.memory[0x200] = 0x81;
    c.memory[0x201] = 0x28;
    assert_eq!(c.execute_opcode(), Err(Error::InvalidOpcode(0x8128)));

    let mut c2 = Cpu::new();
    c2.memory[0x200] = 0xE2;
    c2.memory[0x201] = 0xAA;
    assert_eq!(c2.execute_opcode(), Err(Error::InvalidOpcode(0xE2AA)));

    let mut c3 = Cpu::new();
    c3.memory[0x200] = 0xF5;
    c3.memory[0x201] = 0xFF;
    assert_eq!(c3.execute_opcode(), Err(Error::InvalidOpcode(0xF5FF)));
}

#[test]
fn delay_timer_counts_down_and_rests_at_zero() {
    let mut c = Cpu::new();
    c.dt = 3;
    c.tick_timers();
    assert_eq!(c.dt, 2);
    c.tick_timers();
    assert_eq!(c.dt, 1);
    c.tick_timers();
    assert_eq!(c.dt, 0);
    c.tick_timers();
    assert_eq!(c.dt, 0);
}

#[test]
fn timer_instructions_move_values_both_ways() {
    let mut c = Cpu::new();
    c.dt = 77;
    // F207: V2 = DT; F215: DT = V2; F218: ST = V2.
    c.memory[0x200] = 0xF2;
    c.memory[0x201] = 0x07;
    assert_eq!(c.execute_opcode(), Ok(()));
    assert_eq!(c.v[2], 77);

    c.v[2] = 9;
    c.memory[0x202] = 0xF2;
    c.memory[0x203] = 0x15;
    c.memory[0x204] = 0xF2;
    c.memory[0x205] = 0x18;
    assert_eq!(c.execute_opcode(), Ok(()));
    assert_eq!(c.dt, 9);
    assert_eq!(c.execute_opcode(), Ok(()));
    assert_eq!(c.st, 9);
}

#[test]
fn key_skips_read_the_keypad() {
    // E29E skips when the key named by V2 is down.
    let mut c = Cpu::new();
    c.v[2] = 4;
    c.set_key(4, true);
    c.memory[0x200] = 0xE2;
    c.memory[0x201] = 0x9E;
    assert_eq!(c.execute_opcode(), Ok(()));
    assert_eq!(c.pc, 0x204);

    // E2A1 skips when it is up.
    let mut c2 = Cpu::new();
    c2.v[2] = 4;
    c2.memory[0x200] = 0xE2;
    c2.memory[0x201] = 0xA1;
    assert_eq!(c2.execute_opcode(), Ok(()));
    assert_eq!(c2.pc, 0x204);
}

#[test]
fn key_wait_blocks_without_stalling_and_stores_the_key() {
    let mut c = Cpu::new();
    // F50A: wait for a key, store it in V5.
    c.memory[0x200] = 0xF5;
    c.memory[0x201] = 0x0A;
    assert_eq!(c.execute_opcode(), Ok(()));
    assert_eq!(c.pc, 0x200);
    assert_eq!(c.execute_opcode(), Ok(()));
    assert_eq!(c.pc, 0x200);
    c.set_key(9, true);
    assert_eq!(c.execute_opcode(), Ok(()));
    assert_eq!(c.v[5], 9);
    assert_eq!(c.pc, 0x202);
}

#[test]
fn key_wait_takes_a_key_that_is_already_down() {
    let mut c = Cpu::new();
    c.set_key(3, true);
    c.memory[0x200] = 0xF5;
    c.memory[0x201] = 0x0A;
    assert_eq!(c.execute_opcode(), Ok(()));
    assert_eq!(c.v[5], 3);
    assert_eq!(c.pc, 0x202);
}

#[test]
fn digit_sprite_address_is_five_bytes_per_glyph() {
    let mut c = Cpu::new();
    c.v[3] = 0xAB;  // only the low nibble names the digit
    c.memory[0x200] = 0xF3;
    c.memory[0x201] = 0x29;
    assert_eq!(c.execute_opcode(), Ok(()));
    assert_eq!(c.i, 5 * 0xB);
}

#[test]
fn bcd_stores_three_decimal_digits() {
    let mut c = Cpu::new();
    c.v[7] = 234;
    c.i = 0x400;
    c.memory[0x200] = 0xF7;
    c.memory[0x201] = 0x33;
    assert_eq!(c.execute_opcode(), Ok(()));
    assert_eq!(c.memory[0x400], 2);
    assert_eq!(c.memory[0x401], 3);
    assert_eq!(c.memory[0x402], 4);
}

#[test]
fn register_block_copies_round_trip_through_memory() {
    let mut c = Cpu::new();
    for r in 0..4 {
        c.v[r] = (10 + r) as u8;
    }
    c.i = 0x500;
    // F355: store V0..=V3 at I.
    c.memory[0x200] = 0xF3;
    c.memory[0x201] = 0x55;
    assert_eq!(c.execute_opcode(), Ok(()));
    assert_eq!(c.memory[0x500], 10);
    assert_eq!(c.memory[0x503], 13);
    assert_eq!(c.memory[0x504], 0);

    // Wipe the registers, then F365 reads them back.
    for r in 0..4 {
        c.v[r] = 0;
    }
    c.memory[0x202] = 0xF3;
    c.memory[0x203] = 0x65;
    assert_eq!(c.execute_opcode(), Ok(()));
    assert_eq!(c.v[0], 10);
    assert_eq!(c.v[1], 11);
    assert_eq!(c.v[2], 12);
    assert_eq!(c.v[3], 13);
}

#[test]
fn pc_advance_wraps_at_the_address_space_boundary() {
    let mut c = Cpu::new();
    c.pc = 0xFFE;
    c.memory[0xFFE] = 0x65;
    c.memory[0xFFF] = 0x07;
    assert_eq!(c.execute_opcode(), Ok(()));
    assert_eq!(c.v[5], 7);
    assert_eq!(c.pc, 0x000);
}

#[test]
fn step_with_random_pins_the_masked_byte() {
    // C5F0 with a caller-chosen byte: V5 holds exactly byte & 0xF0.
    let mut c = Cpu::new();
    c.memory[0x200] = 0xC5;
    c.memory[0x201] = 0xF0;
    assert_eq!(c.step_with_random(0xAB), Ok(()));
    assert_eq!(c.v[5], 0xA0);
    assert_eq!(c.pc, 0x202);
}

#[test]
fn key_wait_takes_the_lowest_key_when_several_are_down() {
    let mut c = Cpu::new();
    c.memory[0x200] = 0xF5;
    c.memory[0x201] = 0x0A;
    assert_eq!(c.execute_opcode(), Ok(()));
    c.set_key(7, true);
    c.set_key(2, true);
    assert_eq!(c.execute_opcode(), Ok(()));
    assert_eq!(c.v[5], 2);
}
