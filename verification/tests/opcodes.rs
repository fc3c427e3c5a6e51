//! The per-opcode tests, each driven through `decode_opcode` on a machine
//! prepared register by register.

use chip8::{CpuError, Key, CPU, DISPLAY_SIZE, DISPLAY_WIDTH};

#[test]
fn opcode_cls() {
    let mut c = CPU::new();

    c.display[0] = 1;
    c.display[DISPLAY_SIZE - 1] = 1;
    c.opcode = 0x00E0;
    c.decode_opcode().unwrap();

    assert_eq!(c.display[0], 0);
    assert_eq!(c.display[DISPLAY_SIZE - 1], 0);
}

#[test]
fn opcode_ret() {
    let mut c = CPU::new();

    c.stack[0] = 21;
    c.sp = 1;
    c.opcode = 0x00EE;
    c.decode_opcode().unwrap();

    assert_eq!(c.pc, c.stack[0] + 2);
    assert_eq!(c.sp, 0);
}

#[test]
fn opcode_jp() {
    let mut c = CPU::new();

    c.opcode = 0x1666;
    c.decode_opcode().unwrap();

    assert_eq!(c.pc, 0x666);
}

#[test]
fn opcode_call() {
    let mut c = CPU::new();

    c.opcode = 0x2666;
    c.pc = 0x51;
    c.sp = 1;
    c.stack[0] = 0x21;
    c.decode_opcode().unwrap();

    assert_eq!(c.sp, 2);
    assert_eq!(c.stack[1], 0x51);
    assert_eq!(c.pc, 0x666);
}

#[test]
fn opcode_se_byte() {}

#[test]
fn opcode_sne_byte() {}

#[test]
fn opcode_se_vx() {}

#[test]
fn opcode_ld_byte() {}

#[test]
fn opcode_add_byte() {}

#[test]
fn opcode_ld_vy() {}

#[test]
fn opcode_or() {}

#[test]
fn opcode_and() {}

#[test]
fn opcode_xor() {}

#[test]
fn opcode_add() {}

#[test]
fn opcode_sub() {}

#[test]
fn opcode_shr() {}

#[test]
fn opcode_subn() {}

#[test]
fn opcode_shl() {}

#[test]
fn opcode_sne() {}

#[test]
fn opcode_ld() {}

#[test]
fn opcode_jp_v0() {}

#[test]
fn opcode_rnd() {}

#[test]
fn opcode_drw() {
    let mut c = CPU::new();

    // coordinates: (63, 0) i.e. upper right corner of screen
    c.v_reg[0] = 63;
    c.v_reg[1] = 0;

    // Put a 2x2 cube at 0x755 in memory
    c.i_addr = 0x755;
    c.memory[0x755] = 0xC0;
    c.memory[0x755 + 1] = 0xC0;

    // Turn the last pixel on row 0 on so we can test that it's turned off
    c.set_pixel(DISPLAY_WIDTH - 1, 1);

    // Draw 2-byte sprite at V0 and V1 (set above)
    c.opcode = 0xD012;

    c.decode_opcode().unwrap();

    assert_eq!(c.get_pixel(DISPLAY_WIDTH - 1), 0, "pixel wasn't zeroed");
    assert_eq!(c.get_pixel(DISPLAY_WIDTH * 2 - 1), 1);
    assert_eq!(c.v_reg[0xF], 1, "carry bit should be set by collision");
    // wrapping
    assert_eq!(c.get_pixel(0), 1, "sprite should wrap");
    assert_eq!(c.get_pixel(DISPLAY_WIDTH), 1, "sprite should wrap ");
}

#[test]
fn opcode_skp() {
    let mut c = CPU::new();

    c.keypad[0xA] = 1; // A is pressed
    c.v_reg[0xC] = 0xA;
    c.opcode = 0xEC9E;

    let old_pc = c.pc;

    c.decode_opcode().unwrap();

    assert_eq!(c.pc, old_pc + 4);
}

#[test]
fn opcode_sknp() {
    let mut c = CPU::new();

    c.keypad[0xA] = 0; // A is not pressed
    c.v_reg[0xC] = 0xA;
    c.opcode = 0xECA1;

    let old_pc = c.pc;

    c.decode_opcode().unwrap();

    assert_eq!(c.pc, old_pc + 4);
}

#[test]
fn opcode_ld_set_dt() {}

#[test]
fn opcode_ld_k() {}

#[test]
fn opcode_ld_get_dt() {}

#[test]
fn opcode_set_st() {}

#[test]
fn opcode_add_i() {}

#[test]
fn opcode_set_sprite() {
    let mut c = CPU::new();

    c.v_reg[0xA] = 0xA;
    c.opcode = 0xFA29; // A = get the sprite for 0xA
    c.decode_opcode().unwrap();

    // Check to see that memory[I] holds the sprite for 0xA
    assert_eq!(c.memory[c.i_addr + 0], 0xF0);
    assert_eq!(c.memory[c.i_addr + 1], 0x90);
    assert_eq!(c.memory[c.i_addr + 2], 0xF0);
    assert_eq!(c.memory[c.i_addr + 3], 0x90);
    assert_eq!(c.memory[c.i_addr + 4], 0x90);
}

#[test]
fn opcode_bcd_vx() {
    let mut c = CPU::new();

    c.v_reg[0x2] = 235;

    c.opcode = 0xF233; // Store BCD of V[2]
    c.decode_opcode().unwrap();

    assert_eq!(c.memory[c.i_addr + 0], 2);
    assert_eq!(c.memory[c.i_addr + 1], 3);
    assert_eq!(c.memory[c.i_addr + 2], 5);
}

#[test]
fn opcode_store_vx() {
    let mut c = CPU::new();

    c.v_reg[0x0] = 0xAA;
    c.v_reg[0x1] = 0xAB;
    c.v_reg[0x2] = 0xBB;

    c.opcode = 0xF255; // Store V0-V2 in memory at I
    c.i_addr = 0x932;
    c.decode_opcode().unwrap();

    assert_eq!(c.memory[c.i_addr + 0], 0xAA);
    assert_eq!(c.memory[c.i_addr + 1], 0xAB);
    assert_eq!(c.memory[c.i_addr + 2], 0xBB);
}

#[test]
fn opcode_read_vx() {
    let mut c = CPU::new();

    c.i_addr = 0x944;
    c.memory[0x944 + 0] = 0xCC;
    c.memory[0x944 + 1] = 0xCD;
    c.memory[0x944 + 2] = 0xDD;

    c.opcode = 0xF265; // Read V0-V2 from memory to V2
    c.decode_opcode().unwrap();

    assert_eq!(c.v_reg[0x0], 0xCC);
    assert_eq!(c.v_reg[0x1], 0xCD);
    assert_eq!(c.v_reg[0x2], 0xDD);
}

#[test]
fn update_keypad() {
    let mut c = CPU::new();

    c.update_keypad(Key::A, true);
    c.update_keypad(Key::F, true);
    c.update_keypad(Key::F, false);

    assert_eq!(c.keypad[0x7], 1);
    assert_eq!(c.keypad[0xE], 0);
}

#[test]
fn unknown_opcode_is_fatal() {
    let mut c = CPU::new();

    c.opcode = 0x0123;
    c.pc = 0x300;
    let e = c.decode_opcode().unwrap_err();

    assert_eq!(e, CpuError::UnknownOpcode { opcode: 0x0123, pc: 0x300 });
}

#[test]
fn ret_with_empty_stack_is_fatal() {
    let mut c = CPU::new();

    c.opcode = 0x00EE;
    c.sp = 0;
    let e = c.decode_opcode().unwrap_err();

    assert_eq!(e, CpuError::StackUnderflow);
    assert_eq!(c.pc, 0x200);
}

#[test]
fn call_with_full_stack_is_fatal() {
    let mut c = CPU::new();

    c.opcode = 0x2666;
    c.sp = 16;
    let e = c.decode_opcode().unwrap_err();

    assert_eq!(e, CpuError::StackOverflow);
    assert_eq!(c.sp, 16);
}

#[test]
fn bcd_past_end_of_memory_is_fatal() {
    let mut c = CPU::new();

    c.opcode = 0xF033;
    c.i_addr = 4094;
    let e = c.decode_opcode().unwrap_err();

    assert_eq!(e, CpuError::MemoryOutOfRange);
}

#[test]
fn sprite_rows_past_end_of_memory_is_fatal() {
    let mut c = CPU::new();

    c.opcode = 0xD01F; // 15 sprite rows
    c.i_addr = 4090;
    let e = c.decode_opcode().unwrap_err();

    assert_eq!(e, CpuError::MemoryOutOfRange);
}

#[test]
fn sprite_target_past_grid_is_fatal() {
    let mut c = CPU::new();

    c.v_reg[0] = 0;
    c.v_reg[1] = 200; // far below the 32-row grid, beyond the single wrap
    c.opcode = 0xD011;
    let e = c.decode_opcode().unwrap_err();

    assert_eq!(e, CpuError::DisplayOutOfRange);
}

#[test]
fn skip_key_out_of_range_is_fatal() {
    let mut c = CPU::new();

    c.v_reg[0] = 200;
    c.opcode = 0xE09E;
    let e = c.decode_opcode().unwrap_err();

    assert_eq!(e, CpuError::KeypadOutOfRange);
}
