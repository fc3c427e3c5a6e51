//! Tests of construction, image loading, fetch, the pixel accessors, the
//! keypad, and the full cycle.

use chip8::{CpuError, Key, CPU, DISPLAY_SIZE, FONTSET_START};

#[test]
fn initialize() {
    let c = CPU::new();

    assert_eq!(c.pc, 0x200);

    // make sure fontset was loaded
    assert_eq!(c.memory[FONTSET_START + 0], 0xF0);
    assert_eq!(c.memory[FONTSET_START + 1], 0x90);
    assert_eq!(c.memory[FONTSET_START + 65], 0xE0);
    assert_eq!(c.memory[FONTSET_START + 79], 0x80);
}

#[test]
fn fetch_opcode() {
    let mut c = CPU::new();

    let pc = c.pc;
    c.memory[pc] = 0xD6;
    c.memory[pc + 1] = 0x3E;
    c.fetch_opcode();

    assert_eq!(c.opcode, 0xD63E)
}

#[test]
fn load_rom() {
    let mut c = CPU::new();

    // An image carrying the bytes the PONG binary holds at the probed
    // offsets.
    let mut rom = vec![0u8; 0xE2];
    rom[0] = 0x6A;
    rom[1] = 0x02;
    rom[0xE0] = 0xD4;
    rom[0xE1] = 0x55;
    c.load_rom(&rom);

    // test first two bytes
    assert_eq!(c.memory[0x200], 0x6A);
    assert_eq!(c.memory[0x201], 0x02);

    // test some bytes in the middle
    assert_eq!(c.memory[0x200 + 0xE0], 0xD4);
    assert_eq!(c.memory[0x201 + 0xE0], 0x55);
}

#[test]
fn load_rom_never_writes_past_memory() {
    let mut c = CPU::new();

    let rom = vec![0xAB_u8; 4000];
    c.load_rom(&rom);

    // the first 3584 bytes land at 0x200.., the rest is dropped
    assert_eq!(c.memory[0x200], 0xAB);
    assert_eq!(c.memory[4095], 0xAB);
    assert_eq!(c.memory.len(), 4096);
    // everything below the image, fontset included, is untouched
    assert_eq!(c.memory[0x1FF], 0);
    assert_eq!(c.memory[0], 0xF0);
}

#[test]
fn pixel_accessors_mirror_across_triplet() {
    let mut c = CPU::new();

    c.set_pixel(10, 1);
    assert_eq!(c.display[30], 255);
    assert_eq!(c.display[31], 255);
    assert_eq!(c.display[32], 255);
    assert_eq!(c.get_pixel(10), 1);

    c.set_pixel(10, 0);
    assert_eq!(c.display[30], 0);
    assert_eq!(c.get_pixel(10), 0);
}

#[test]
fn xor_pixel_truth_table() {
    let mut c = CPU::new();

    // equal states turn the pixel off
    c.set_pixel(5, 1);
    c.xor_pixel(5, 1);
    assert_eq!(c.get_pixel(5), 0);

    // differing states turn the pixel on
    c.xor_pixel(5, 1);
    assert_eq!(c.get_pixel(5), 1);

    c.xor_pixel(5, 0);
    assert_eq!(c.get_pixel(5), 1);

    // off pixel and off state stay off
    c.set_pixel(6, 0);
    c.xor_pixel(6, 0);
    assert_eq!(c.get_pixel(6), 0);
}

#[test]
fn keycode_table() {
    let c = CPU::new();

    assert_eq!(c.keycode_to_hex(Key::Num1), Some(0x1));
    assert_eq!(c.keycode_to_hex(Key::Num4), Some(0xC));
    assert_eq!(c.keycode_to_hex(Key::Q), Some(0x4));
    assert_eq!(c.keycode_to_hex(Key::Z), Some(0xA));
    assert_eq!(c.keycode_to_hex(Key::X), Some(0x0));
    assert_eq!(c.keycode_to_hex(Key::V), Some(0xF));
    assert_eq!(c.keycode_to_hex(Key::Other), None);
}

#[test]
fn update_keypad_ignores_unmapped_key() {
    let mut c = CPU::new();

    c.update_keypad(Key::Num1, true);
    c.update_keypad(Key::V, true);
    c.update_keypad(Key::Other, true);

    assert_eq!(c.keypad[0x1], 1);
    assert_eq!(c.keypad[0xF], 1);
    for slot in 0..16 {
        if slot != 0x1 && slot != 0xF {
            assert_eq!(c.keypad[slot], 0);
        }
    }

    c.update_keypad(Key::Num1, false);
    assert_eq!(c.keypad[0x1], 0);
}

#[test]
fn cycle_ticks_timers() {
    let mut c = CPU::new();

    c.delay_timer = 5;
    c.sound_timer = 3;
    // 6012: set V0 to 0x12
    c.memory[0x200] = 0x60;
    c.memory[0x201] = 0x12;

    c.emulate_cycle().unwrap();

    assert_eq!(c.v_reg[0], 0x12);
    assert_eq!(c.pc, 0x202);
    assert_eq!(c.delay_timer, 4);
    assert_eq!(c.sound_timer, 2);
}

#[test]
fn timers_rest_at_zero() {
    let mut c = CPU::new();

    // 00E0: clear screen, a no-op on a fresh display
    c.memory[0x200] = 0x00;
    c.memory[0x201] = 0xE0;

    c.emulate_cycle().unwrap();

    assert_eq!(c.delay_timer, 0);
    assert_eq!(c.sound_timer, 0);
}

#[test]
fn cycle_surfaces_decode_error() {
    let mut c = CPU::new();

    // memory at the program counter is zeroed: opcode 0x0000 is undefined
    let e = c.emulate_cycle().unwrap_err();

    assert_eq!(e, CpuError::UnknownOpcode { opcode: 0, pc: 0x200 });
    assert_eq!(c.opcode, 0);
    assert_eq!(c.pc, 0x200);
}

#[test]
fn invariants_hold_on_fresh_machine() {
    let mut c = CPU::new();

    assert!(c.invariants_hold());

    c.display[0] = 7; // neither on nor off: a broken pixel encoding
    assert!(!c.invariants_hold());

    c.display[0] = 0;
    assert!(c.invariants_hold());
}

#[test]
fn display_size_matches_grid() {
    assert_eq!(DISPLAY_SIZE, 64 * 32 * 3);
}
