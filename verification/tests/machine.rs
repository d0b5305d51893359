//! End-to-end tests of the machine: small programs loaded and stepped, with
//! every observable field checked against the documented behaviour.

use rip8_core::Chip;
use rip8_core::ChipError;

fn with_program(bytes: &[u8]) -> Chip {
    let mut chip = Chip::new();
    chip.load(bytes).unwrap();
    chip
}

fn assert_same_state(a: &Chip, b: &Chip) {
    assert_eq!(a.pc, b.pc);
    assert_eq!(a.ram, b.ram);
    assert_eq!(a.display, b.display);
    assert_eq!(a.v_regs, b.v_regs);
    assert_eq!(a.i_reg, b.i_reg);
    assert_eq!(a.stack, b.stack);
    assert_eq!(a.sp, b.sp);
    assert_eq!(a.keys, b.keys);
    assert_eq!(a.dt, b.dt);
    assert_eq!(a.st, b.st);
    assert_eq!(a.latched, b.latched);
}

#[test]
fn new_machine_has_font_and_initial_state() {
    let chip = Chip::new();
    assert_eq!(chip.pc, 0x200);
    assert_eq!(chip.ram.len(), 4096);
    assert_eq!(chip.ram[0x50], 0xF0);
    assert_eq!(chip.ram[0x9F], 0x80);
    assert_eq!(chip.ram[0x4F], 0);
    assert_eq!(chip.ram[0xA0], 0);
    assert_eq!(chip.sp, 0);
    assert_eq!(chip.i_reg, 0);
    assert_eq!(chip.dt, 0);
    assert_eq!(chip.st, 0);
    assert!(!chip.latched);
    assert!(chip.display().iter().all(|&px| !px));
    assert_eq!(chip.display().len(), 64 * 32);
}

#[test]
fn add_with_carry() {
    // v0 = 200, v1 = 100, v0 += v1: 300 wraps to 44 with the carry flag set.
    let mut chip = with_program(&[0x60, 0xC8, 0x61, 0x64, 0x80, 0x14]);
    for _ in 0..3 {
        chip.tick().unwrap();
    }
    assert_eq!(chip.v_regs[0], 44);
    assert_eq!(chip.v_regs[0xF], 1);
}

#[test]
fn add_without_carry() {
    let mut chip = with_program(&[0x60, 0x0A, 0x61, 0x14, 0x80, 0x14]);
    for _ in 0..3 {
        chip.tick().unwrap();
    }
    assert_eq!(chip.v_regs[0], 30);
    assert_eq!(chip.v_regs[0xF], 0);
}

#[test]
fn sub_without_borrow() {
    // v0 = 200, v1 = 100, v0 -= v1: flag 1 means no borrow.
    let mut chip = with_program(&[0x60, 0xC8, 0x61, 0x64, 0x80, 0x15]);
    for _ in 0..3 {
        chip.tick().unwrap();
    }
    assert_eq!(chip.v_regs[0], 100);
    assert_eq!(chip.v_regs[0xF], 1);
}

#[test]
fn sub_with_borrow() {
    let mut chip = with_program(&[0x60, 0x64, 0x61, 0xC8, 0x80, 0x15]);
    for _ in 0..3 {
        chip.tick().unwrap();
    }
    assert_eq!(chip.v_regs[0], 156);
    assert_eq!(chip.v_regs[0xF], 0);
}

#[test]
fn sub_from_reversed_operands() {
    // v0 = 100, v1 = 200, v0 = v1 - v0.
    let mut chip = with_program(&[0x60, 0x64, 0x61, 0xC8, 0x80, 0x17]);
    for _ in 0..3 {
        chip.tick().unwrap();
    }
    assert_eq!(chip.v_regs[0], 100);
    assert_eq!(chip.v_regs[0xF], 1);
}

#[test]
fn or_clears_flags() {
    // First leave the carry flag at 1, then OR: the flag must drop to 0.
    let mut chip = with_program(&[
        0x60, 0xC8, 0x61, 0x64, 0x80, 0x14, // add sets the flag
        0x62, 0x0C, 0x63, 0x0A, 0x82, 0x31, // v2 |= v3
    ]);
    for _ in 0..6 {
        chip.tick().unwrap();
    }
    assert_eq!(chip.v_regs[2], 0x0E);
    assert_eq!(chip.v_regs[0xF], 0);
}

#[test]
fn and_clears_flags() {
    let mut chip = with_program(&[
        0x60, 0xC8, 0x61, 0x64, 0x80, 0x14,
        0x62, 0x0C, 0x63, 0x0A, 0x82, 0x32,
    ]);
    for _ in 0..6 {
        chip.tick().unwrap();
    }
    assert_eq!(chip.v_regs[2], 0x08);
    assert_eq!(chip.v_regs[0xF], 0);
}

#[test]
fn xor_clears_flags() {
    let mut chip = with_program(&[
        0x60, 0xC8, 0x61, 0x64, 0x80, 0x14,
        0x62, 0x0C, 0x63, 0x0A, 0x82, 0x33,
    ]);
    for _ in 0..6 {
        chip.tick().unwrap();
    }
    assert_eq!(chip.v_regs[2], 0x06);
    assert_eq!(chip.v_regs[0xF], 0);
}

#[test]
fn add_immediate_leaves_flags_alone() {
    // 7XNN wraps without touching the flags register: the flag set by the
    // earlier carry stays at 1.
    let mut chip = with_program(&[
        0x60, 0xC8, 0x61, 0x64, 0x80, 0x14, // add sets the flag
        0x62, 0xFF, 0x72, 0x02, // v2 = 255, v2 += 2 wraps to 1
    ]);
    for _ in 0..5 {
        chip.tick().unwrap();
    }
    assert_eq!(chip.v_regs[2], 1);
    assert_eq!(chip.v_regs[0xF], 1);
}

#[test]
fn copy_register() {
    let mut chip = with_program(&[0x61, 0x2A, 0x80, 0x10]);
    for _ in 0..2 {
        chip.tick().unwrap();
    }
    assert_eq!(chip.v_regs[0], 42);
}

#[test]
fn nop_only_advances_the_counter() {
    let mut chip = with_program(&[0x00, 0x00]);
    chip.tick().unwrap();
    assert_eq!(chip.pc, 0x202);
    assert!(chip.display().iter().all(|&px| !px));
}

#[test]
fn clear_screen_turns_every_cell_off() {
    let mut chip = with_program(&[
        0x60, 0x00, // v0 = 0
        0x61, 0x00, // v1 = 0
        0xA2, 0x0A, // I = 0x20A
        0xD0, 0x11, // draw one row
        0x00, 0xE0, // clear screen
        0x80, // the sprite row: one pixel
    ]);
    for _ in 0..4 {
        chip.tick().unwrap();
    }
    assert!(chip.display()[0]);
    chip.tick().unwrap();
    assert!(chip.display().iter().all(|&px| !px));
}

#[test]
fn shift_right_reads_source_low_bit() {
    // v1 = 5: v0 = v1 >> 1 = 2, flag takes v1's low bit 1.
    let mut chip = with_program(&[0x61, 0x05, 0x80, 0x16]);
    for _ in 0..2 {
        chip.tick().unwrap();
    }
    assert_eq!(chip.v_regs[0], 2);
    assert_eq!(chip.v_regs[1], 5);
    assert_eq!(chip.v_regs[0xF], 1);
}

#[test]
fn shift_left_reads_source_high_bit() {
    // v1 = 129: v0 = v1 << 1 = 2 (mod 256), flag takes v1's high bit 1.
    let mut chip = with_program(&[0x61, 0x81, 0x80, 0x1E]);
    for _ in 0..2 {
        chip.tick().unwrap();
    }
    assert_eq!(chip.v_regs[0], 2);
    assert_eq!(chip.v_regs[1], 0x81);
    assert_eq!(chip.v_regs[0xF], 1);
}

#[test]
fn draw_clips_at_right_edge() {
    // An 8x1 all-set sprite anchored at (60, 0): the 4 rightmost pixels are
    // clipped, exactly 4 cells light, and no collision is reported.
    let mut chip = with_program(&[
        0x60, 0x3C, // v0 = 60
        0x61, 0x00, // v1 = 0
        0xA2, 0x0A, // I = 0x20A
        0xD0, 0x11, // draw 1 row at (v0, v1)
        0x00, 0x00, // padding
        0xFF, // the sprite row
    ]);
    for _ in 0..4 {
        chip.tick().unwrap();
    }
    let lit: Vec<usize> = chip.display().iter().enumerate().filter(|(_, &px)| px).map(|(i, _)| i).collect();
    assert_eq!(lit, vec![60, 61, 62, 63]);
    assert_eq!(chip.v_regs[0xF], 0);

    // Drawing the same sprite at the same place again turns every cell back
    // off and reports the collision.
    chip.pc = 0x206;
    chip.tick().unwrap();
    assert!(chip.display().iter().all(|&px| !px));
    assert_eq!(chip.v_regs[0xF], 1);
}

#[test]
fn draw_wraps_anchor_into_grid() {
    // An anchor of (64, 32) wraps to (0, 0) before drawing.
    let mut chip = with_program(&[
        0x60, 0x40, // v0 = 64
        0x61, 0x20, // v1 = 32
        0xA2, 0x0A, // I = 0x20A
        0xD0, 0x11, // draw 1 row at (v0, v1)
        0x00, 0x00,
        0x80, // one pixel, leftmost bit
    ]);
    for _ in 0..4 {
        chip.tick().unwrap();
    }
    assert!(chip.display()[0]);
    assert_eq!(chip.display().iter().filter(|&&px| px).count(), 1);
}

#[test]
fn bcd_store_writes_digits_in_order() {
    // Value 255 stored at I: bytes [2, 5, 5].
    let mut chip = with_program(&[0x60, 0xFF, 0xA3, 0x00, 0xF0, 0x33]);
    for _ in 0..3 {
        chip.tick().unwrap();
    }
    assert_eq!(chip.ram[0x300], 2);
    assert_eq!(chip.ram[0x301], 5);
    assert_eq!(chip.ram[0x302], 5);
    assert_eq!(chip.i_reg, 0x300);
}

#[test]
fn block_store_advances_index_by_count() {
    // Store v0..=v3 at I = 0x300: I ends at 0x304 and memory holds the four
    // register values.
    let mut chip = with_program(&[
        0x60, 0x11, 0x61, 0x22, 0x62, 0x33, 0x63, 0x44, // registers
        0xA3, 0x00, // I = 0x300
        0xF3, 0x55, // store v0..=v3
    ]);
    for _ in 0..6 {
        chip.tick().unwrap();
    }
    assert_eq!(chip.i_reg, 0x304);
    assert_eq!(&chip.ram[0x300..0x304], &[0x11, 0x22, 0x33, 0x44]);
}

#[test]
fn block_load_reads_memory_and_advances_index() {
    let mut chip = with_program(&[
        0xA2, 0x06, // I = 0x206
        0xF2, 0x65, // load v0..=v2
        0x00, 0x00, // padding
        0xAA, 0xBB, 0xCC, // data
    ]);
    for _ in 0..2 {
        chip.tick().unwrap();
    }
    assert_eq!(chip.v_regs[0], 0xAA);
    assert_eq!(chip.v_regs[1], 0xBB);
    assert_eq!(chip.v_regs[2], 0xCC);
    assert_eq!(chip.v_regs[3], 0);
    assert_eq!(chip.i_reg, 0x209);
}

#[test]
fn index_add_wraps_modulo_16_bits() {
    let mut chip = with_program(&[0x60, 0x02, 0xF0, 0x1E]);
    chip.i_reg = 0xFFFF;
    for _ in 0..2 {
        chip.tick().unwrap();
    }
    assert_eq!(chip.i_reg, 1);
}

#[test]
fn font_addr_points_at_glyph() {
    // The glyph for 0xA sits at 0x50 + 10 * 5.
    let mut chip = with_program(&[0x60, 0x0A, 0xF0, 0x29]);
    for _ in 0..2 {
        chip.tick().unwrap();
    }
    assert_eq!(chip.i_reg, 0x82);
    assert_eq!(&chip.ram[0x82..0x87], &[0xF0, 0x90, 0xF0, 0x90, 0x90]);
}

#[test]
fn skip_equal_immediate() {
    let mut chip = with_program(&[0x60, 0x05, 0x30, 0x05, 0x30, 0x06]);
    chip.tick().unwrap();
    chip.tick().unwrap();
    assert_eq!(chip.pc, 0x206); // equal: skipped
    chip.pc = 0x204;
    chip.tick().unwrap();
    assert_eq!(chip.pc, 0x206); // not equal: no skip
}

#[test]
fn skip_key_forms_follow_the_latch() {
    // v0 names key 4; E09E skips when it is pressed, E0A1 when it is not.
    let mut chip = with_program(&[0x60, 0x04, 0xE0, 0x9E, 0xE0, 0xA1]);
    chip.tick().unwrap();
    chip.tick().unwrap();
    assert_eq!(chip.pc, 0x204); // not pressed: no skip
    chip.tick().unwrap();
    assert_eq!(chip.pc, 0x208); // not pressed: skipped

    let mut chip = with_program(&[0x60, 0x04, 0xE0, 0x9E]);
    chip.keys[4] = true;
    chip.tick().unwrap();
    chip.tick().unwrap();
    assert_eq!(chip.pc, 0x206); // pressed: skipped
}

#[test]
fn call_and_return_use_the_stack() {
    let mut chip = with_program(&[
        0x22, 0x06, // call 0x206
        0x00, 0x00, // landing site after return
        0x00, 0x00,
        0x00, 0xEE, // return
    ]);
    chip.tick().unwrap();
    assert_eq!(chip.pc, 0x206);
    assert_eq!(chip.sp, 1);
    assert_eq!(chip.stack[0], 0x202);
    chip.tick().unwrap();
    assert_eq!(chip.pc, 0x202);
    assert_eq!(chip.sp, 0);
}

#[test]
fn jump_offset_adds_v0() {
    let mut chip = with_program(&[0x60, 0x04, 0xB2, 0x00]);
    for _ in 0..2 {
        chip.tick().unwrap();
    }
    assert_eq!(chip.pc, 0x204);
}

#[test]
fn random_masked_with_zero_is_zero() {
    // rand & 0x00 == 0 whatever byte was drawn.
    let mut chip = with_program(&[0x60, 0xFF, 0xC0, 0x00]);
    for _ in 0..2 {
        chip.tick().unwrap();
    }
    assert_eq!(chip.v_regs[0], 0);
}

#[test]
fn random_stays_within_mask() {
    let mut chip = with_program(&[0xC1, 0x0F]);
    chip.tick().unwrap();
    assert!(chip.v_regs[1] <= 0x0F);
}

#[test]
fn invalid_opcode_is_fatal() {
    let mut chip = with_program(&[0x00, 0x01]);
    assert_eq!(chip.tick(), Err(ChipError::InvalidOpcode));
    // The pre-increment of the program counter is already applied.
    assert_eq!(chip.pc, 0x202);
}

#[test]
fn stack_overflow_is_reported() {
    // A subroutine that calls itself: the 17th call finds the stack full.
    let mut chip = with_program(&[0x22, 0x00]);
    for _ in 0..16 {
        chip.tick().unwrap();
    }
    assert_eq!(chip.sp, 16);
    assert_eq!(chip.tick(), Err(ChipError::StackOverflow));
}

#[test]
fn stack_underflow_is_reported() {
    let mut chip = with_program(&[0x00, 0xEE]);
    assert_eq!(chip.tick(), Err(ChipError::StackUnderflow));
}

#[test]
fn oversized_program_is_rejected() {
    let mut chip = Chip::new();
    let too_long = vec![0xAB; 3585];
    assert_eq!(chip.load(&too_long), Err(ChipError::ProgramTooLarge));
    assert_eq!(chip.ram[0x200], 0);

    let exact = vec![0xCD; 3584];
    assert_eq!(chip.load(&exact), Ok(()));
    assert_eq!(chip.ram[0x200], 0xCD);
    assert_eq!(chip.ram[0xFFF], 0xCD);
}

#[test]
fn timers_count_down_and_signal_sound() {
    let mut chip = Chip::new();
    chip.dt = 2;
    chip.st = 1;
    assert!(chip.tick_timers());
    assert_eq!(chip.dt, 1);
    assert_eq!(chip.st, 0);
    assert!(!chip.tick_timers());
    assert_eq!(chip.dt, 0);
    assert_eq!(chip.st, 0);
    assert!(!chip.tick_timers());
}

#[test]
fn timer_instructions_move_values() {
    // v0 = 7, dt = v0, st = v0, v1 = dt.
    let mut chip = with_program(&[0x60, 0x07, 0xF0, 0x15, 0xF0, 0x18, 0xF1, 0x07]);
    for _ in 0..4 {
        chip.tick().unwrap();
    }
    assert_eq!(chip.dt, 7);
    assert_eq!(chip.st, 7);
    assert_eq!(chip.v_regs[1], 7);
}

#[test]
fn wait_key_self_repeats_without_a_key() {
    let mut chip = with_program(&[0xF5, 0x0A]);
    for _ in 0..5 {
        chip.tick().unwrap();
        assert_eq!(chip.pc, 0x200);
    }
}

#[test]
fn key_press_satisfies_pending_wait_and_latches() {
    let mut chip = with_program(&[0xF5, 0x0A]);
    chip.tick().unwrap();
    assert_eq!(chip.pc, 0x200);
    let latched = chip.key_down(7);
    assert!(latched);
    assert!(chip.latched);
    assert_eq!(chip.v_regs[5], 7);
    assert_eq!(chip.pc, 0x202);
    // While latched, stepping is suspended.
    chip.tick().unwrap();
    assert_eq!(chip.pc, 0x202);
    // The release lets the machine run again.
    chip.key_up(7);
    assert!(!chip.latched);
    assert!(!chip.keys[7]);
}

#[test]
fn key_press_latches_lowest_pressed_index() {
    // Key 2 is already held when key 9 is pressed: the ascending scan finds
    // key 2 first.
    let mut chip = with_program(&[0xF5, 0x0A]);
    chip.keys[2] = true;
    let latched = chip.key_down(9);
    assert!(latched);
    assert_eq!(chip.v_regs[5], 2);
}

#[test]
fn key_press_without_pending_wait_only_updates_latch() {
    let mut chip = with_program(&[0x60, 0x01]);
    let latched = chip.key_down(3);
    assert!(!latched);
    assert!(!chip.latched);
    assert!(chip.keys[3]);
    assert_eq!(chip.pc, 0x200);
}

#[test]
fn reset_then_load_matches_fresh_machine() {
    let prog = [0x60, 0x3C, 0x61, 0x2D, 0x80, 0x14, 0x12, 0x00];
    let mut fresh = Chip::new();
    fresh.load(&prog).unwrap();

    let mut used = Chip::new();
    used.load(&[0x60, 0x09, 0xA2, 0x34, 0xF0, 0x55, 0xF0, 0x18]).unwrap();
    for _ in 0..4 {
        used.tick().unwrap();
    }
    used.key_down(11);
    used.tick_timers();
    used.reset();
    used.load(&prog).unwrap();

    assert_same_state(&fresh, &used);
}

#[test]
fn jump_to_self_changes_nothing_over_many_steps() {
    let prog = [0x12, 0x00];
    let mut chip = with_program(&prog);
    for _ in 0..1000 {
        chip.tick().unwrap();
        assert_eq!(chip.pc, 0x200);
    }
    let reference = with_program(&prog);
    assert_same_state(&reference, &chip);
}
