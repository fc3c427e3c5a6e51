//! Exact-value tests for the register, arithmetic, shift, skip and timer
//! instructions, and the call/return round trip.

use chip8::CPU;

#[test]
fn se_byte_skips_on_equal() {
    let mut c = CPU::new();

    c.v_reg[3] = 0x42;
    c.opcode = 0x3342;
    c.decode_opcode().unwrap();
    assert_eq!(c.pc, 0x204);

    c.opcode = 0x3341;
    c.decode_opcode().unwrap();
    assert_eq!(c.pc, 0x206);
}

#[test]
fn sne_byte_skips_on_difference() {
    let mut c = CPU::new();

    c.v_reg[3] = 0x42;
    c.opcode = 0x4341;
    c.decode_opcode().unwrap();
    assert_eq!(c.pc, 0x204);

    c.opcode = 0x4342;
    c.decode_opcode().unwrap();
    assert_eq!(c.pc, 0x206);
}

#[test]
fn se_vx_compares_registers() {
    let mut c = CPU::new();

    c.v_reg[1] = 9;
    c.v_reg[2] = 9;
    c.opcode = 0x5120;
    c.decode_opcode().unwrap();
    assert_eq!(c.pc, 0x204);

    c.v_reg[2] = 8;
    c.opcode = 0x5120;
    c.decode_opcode().unwrap();
    assert_eq!(c.pc, 0x206);
}

#[test]
fn sne_vx_compares_registers() {
    let mut c = CPU::new();

    c.v_reg[1] = 9;
    c.v_reg[2] = 8;
    c.opcode = 0x9120;
    c.decode_opcode().unwrap();
    assert_eq!(c.pc, 0x204);
}

#[test]
fn ld_byte_sets_register() {
    let mut c = CPU::new();

    c.opcode = 0x6A12;
    c.decode_opcode().unwrap();
    assert_eq!(c.v_reg[0xA], 0x12);
    assert_eq!(c.pc, 0x202);
}

#[test]
fn add_byte_wraps_without_flag() {
    let mut c = CPU::new();

    c.v_reg[0] = 0xFF;
    c.opcode = 0x7002;
    c.decode_opcode().unwrap();
    assert_eq!(c.v_reg[0], 0x01);
    assert_eq!(c.v_reg[0xF], 0);
}

#[test]
fn ld_vy_copies_register() {
    let mut c = CPU::new();

    c.v_reg[5] = 0x77;
    c.opcode = 0x8250;
    c.decode_opcode().unwrap();
    assert_eq!(c.v_reg[2], 0x77);
}

#[test]
fn or_and_xor_exact_values() {
    let mut c = CPU::new();

    c.v_reg[0] = 0b1100;
    c.v_reg[1] = 0b1010;
    c.opcode = 0x8011;
    c.decode_opcode().unwrap();
    assert_eq!(c.v_reg[0], 0b1110);

    c.v_reg[0] = 0b1100;
    c.opcode = 0x8012;
    c.decode_opcode().unwrap();
    assert_eq!(c.v_reg[0], 0b1000);

    c.v_reg[0] = 0b1100;
    c.opcode = 0x8013;
    c.decode_opcode().unwrap();
    assert_eq!(c.v_reg[0], 0b0110);
}

#[test]
fn add_sets_carry_on_overflow() {
    let mut c = CPU::new();

    c.v_reg[0] = 0xFF;
    c.v_reg[1] = 0x01;
    c.opcode = 0x8014;
    c.decode_opcode().unwrap();
    assert_eq!(c.v_reg[0], 0x00);
    assert_eq!(c.v_reg[0xF], 1);

    c.v_reg[0] = 0x01;
    c.v_reg[1] = 0x01;
    c.opcode = 0x8014;
    c.decode_opcode().unwrap();
    assert_eq!(c.v_reg[0], 0x02);
    assert_eq!(c.v_reg[0xF], 0);
}

#[test]
fn sub_sets_flag_on_no_borrow() {
    let mut c = CPU::new();

    c.v_reg[0] = 0x05;
    c.v_reg[1] = 0x01;
    c.opcode = 0x8015;
    c.decode_opcode().unwrap();
    assert_eq!(c.v_reg[0], 0x04);
    assert_eq!(c.v_reg[0xF], 1);

    c.v_reg[0] = 0x01;
    c.v_reg[1] = 0x05;
    c.opcode = 0x8015;
    c.decode_opcode().unwrap();
    assert_eq!(c.v_reg[0], 0xFC);
    assert_eq!(c.v_reg[0xF], 0);
}

#[test]
fn shr_keeps_pre_shift_low_bit() {
    let mut c = CPU::new();

    c.v_reg[0] = 5;
    c.opcode = 0x8006;
    c.decode_opcode().unwrap();
    assert_eq!(c.v_reg[0], 2);
    assert_eq!(c.v_reg[0xF], 1);
}

#[test]
fn subn_subtracts_the_other_way() {
    let mut c = CPU::new();

    c.v_reg[0] = 0x01;
    c.v_reg[1] = 0x05;
    c.opcode = 0x8017;
    c.decode_opcode().unwrap();
    assert_eq!(c.v_reg[0], 0x04);
    assert_eq!(c.v_reg[0xF], 1);

    c.v_reg[0] = 0x05;
    c.v_reg[1] = 0x01;
    c.opcode = 0x8017;
    c.decode_opcode().unwrap();
    assert_eq!(c.v_reg[0], 0xFC);
    assert_eq!(c.v_reg[0xF], 0);
}

#[test]
fn shl_keeps_raw_high_bit() {
    let mut c = CPU::new();

    c.v_reg[0] = 0xC1;
    c.opcode = 0x800E;
    c.decode_opcode().unwrap();
    assert_eq!(c.v_reg[0], 0x82);
    assert_eq!(c.v_reg[0xF], 0x80);
}

#[test]
fn ld_i_sets_address_register() {
    let mut c = CPU::new();

    c.opcode = 0xA123;
    c.decode_opcode().unwrap();
    assert_eq!(c.i_addr, 0x123);
    assert_eq!(c.pc, 0x202);
}

#[test]
fn jp_v0_offsets_by_register_zero() {
    let mut c = CPU::new();

    c.v_reg[0] = 5;
    c.opcode = 0xB300;
    c.decode_opcode().unwrap();
    assert_eq!(c.pc, 0x305);
}

#[test]
fn rnd_masks_with_kk() {
    let mut c = CPU::new();

    c.v_reg[0] = 0xFF;
    c.opcode = 0xC000; // mask 0x00: whatever byte arrives, V0 becomes 0
    c.decode_opcode().unwrap();
    assert_eq!(c.v_reg[0], 0);

    c.opcode = 0xC10F;
    c.decode_opcode().unwrap();
    assert!(c.v_reg[1] <= 0x0F);
}

#[test]
fn skp_without_press_does_not_skip() {
    let mut c = CPU::new();

    c.keypad[0xA] = 0;
    c.v_reg[0xC] = 0xA;
    c.opcode = 0xEC9E;
    c.decode_opcode().unwrap();
    assert_eq!(c.pc, 0x202);
}

#[test]
fn sknp_with_press_does_not_skip() {
    let mut c = CPU::new();

    c.keypad[0xA] = 1;
    c.v_reg[0xC] = 0xA;
    c.opcode = 0xECA1;
    c.decode_opcode().unwrap();
    assert_eq!(c.pc, 0x202);
}

#[test]
fn delay_timer_round_trip() {
    let mut c = CPU::new();

    c.v_reg[2] = 9;
    c.opcode = 0xF215; // delay timer = V2
    c.decode_opcode().unwrap();
    assert_eq!(c.delay_timer, 9);

    c.opcode = 0xF507; // V5 = delay timer
    c.decode_opcode().unwrap();
    assert_eq!(c.v_reg[5], 9);
}

#[test]
fn set_sound_timer() {
    let mut c = CPU::new();

    c.v_reg[3] = 4;
    c.opcode = 0xF318;
    c.decode_opcode().unwrap();
    assert_eq!(c.sound_timer, 4);
}

#[test]
fn add_i_accumulates() {
    let mut c = CPU::new();

    c.i_addr = 0x10;
    c.v_reg[0] = 5;
    c.opcode = 0xF01E;
    c.decode_opcode().unwrap();
    assert_eq!(c.i_addr, 0x15);
}

#[test]
fn waitkey_stub_advances() {
    let mut c = CPU::new();

    c.opcode = 0xF00A;
    c.decode_opcode().unwrap();
    assert_eq!(c.pc, 0x202);
}

#[test]
fn bcd_of_round_number() {
    let mut c = CPU::new();

    c.v_reg[0] = 7;
    c.i_addr = 0x300;
    c.opcode = 0xF033;
    c.decode_opcode().unwrap();
    assert_eq!(c.memory[0x300], 0);
    assert_eq!(c.memory[0x301], 0);
    assert_eq!(c.memory[0x302], 7);
}

#[test]
fn call_then_ret_round_trip() {
    let mut c = CPU::new();

    c.opcode = 0x2400;
    c.decode_opcode().unwrap();
    assert_eq!(c.pc, 0x400);
    assert_eq!(c.sp, 1);

    c.opcode = 0x00EE;
    c.decode_opcode().unwrap();
    assert_eq!(c.pc, 0x202);
    assert_eq!(c.sp, 0);
}
