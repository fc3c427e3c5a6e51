//! The machine state and its lifecycle: construction with the preloaded
//! font table, image loading, opcode fetch, the framebuffer and keypad
//! accessors, and the per-cycle timer tick.

use vstd::prelude::*;
use crate::display::{blank_display, px_on, px_set, px_wf, PIXEL_COUNT};
use crate::font::{build_fontset, fontset, FONTSET_LEN};
use crate::keys::{key_hex, lemma_key_hex_in_range, Key};
use crate::opcode::merged_opcode;
use crate::semantics::{only_display, only_keypad, only_memory, only_opcode, only_timers, ticked};
use crate::DISPLAY_SIZE;

verus! {

/// Lowest memory address a program image occupies.
pub const PROGRAM_ROM_START: usize = 0x200;

/// First memory address of the font table.
pub const FONTSET_START: usize = 0x000;

/// Number of bytes of working memory.
pub const MEMORY_SIZE: usize = 4096;

/// A fatal condition the machine surfaces instead of executing: the
/// historical hardware leaves these undefined, and they are never wrapped
/// silently.
#[derive(Clone, Copy, PartialEq, Eq, Structural, Debug)]
pub enum CpuError {
    /// The opcode matches none of the defined instruction patterns; carries
    /// the offending opcode and the program counter it was executed at.
    UnknownOpcode { opcode: u16, pc: usize },
    /// 2nnn with all sixteen return slots in use.
    StackOverflow,
    /// 00EE with an empty call stack.
    StackUnderflow,
    /// An I-indexed access would run past the end of working memory.
    MemoryOutOfRange,
    /// A sprite bit would land outside the 64x32 grid even after wrapping.
    DisplayOutOfRange,
    /// Ex9E/ExA1 named a key outside the sixteen key slots.
    KeypadOutOfRange,
}

/// Main CHIP-8 CPU data structure: all machine state, owned exclusively and
/// mutated only through the defined operations.
pub struct CPU {
    /// Current opcode, overwritten by every fetch.
    pub opcode: u16,
    /// Working memory, `MEMORY_SIZE` bytes.
    pub memory: Vec<u8>,
    /// The sixteen general registers; index 0xF doubles as the
    /// carry/borrow/collision flag.
    pub v_reg: Vec<u8>,
    /// Address register.
    pub i_addr: usize,
    /// Program counter.
    pub pc: usize,
    /// Framebuffer, `DISPLAY_SIZE` bytes: one RGB triplet per pixel.
    pub display: Vec<u8>,
    /// The sixteen return-address slots.
    pub stack: Vec<usize>,
    /// Stack pointer: number of return slots in use.
    pub sp: usize,
    pub delay_timer: u8,
    pub sound_timer: u8,
    /// Pressed state of the sixteen hexadecimal keys, 1 for pressed.
    pub keypad: Vec<u8>,
}

impl CPU {
    /// Structural well-formedness: the fixed-size entities have their sizes
    /// and the stack pointer stays within the sixteen slots.
    pub open spec fn wf(self) -> bool {
        &&& self.memory@.len() == MEMORY_SIZE
        &&& self.v_reg@.len() == 16
        &&& self.display@.len() == DISPLAY_SIZE
        &&& self.stack@.len() == 16
        &&& self.keypad@.len() == 16
        &&& self.sp <= 16
    }

    /// Every pixel triplet of the framebuffer holds a legal on/off
    /// encoding, all three bytes equal.
    pub open spec fn display_wf(self) -> bool {
        forall|i: int| 0 <= i < PIXEL_COUNT ==> #[trigger] px_wf(self.display@, i)
    }

    /// A fresh machine: everything zeroed except the font table at the
    /// bottom of memory, and the program counter at the start of program
    /// memory.
    pub fn new() -> (cpu: CPU)
        ensures
            cpu.wf(),
            cpu.display_wf(),
            cpu.opcode == 0,
            cpu.pc == PROGRAM_ROM_START,
            cpu.i_addr == 0,
            cpu.sp == 0,
            cpu.delay_timer == 0,
            cpu.sound_timer == 0,
            forall|i: int| 0 <= i < FONTSET_LEN ==> cpu.memory@[i] == fontset()[i],
            forall|i: int| FONTSET_LEN <= i < MEMORY_SIZE ==> cpu.memory@[i] == 0,
            forall|i: int| 0 <= i < 16 ==> cpu.v_reg@[i] == 0,
            forall|i: int| 0 <= i < 16 ==> cpu.stack@[i] == 0,
            forall|i: int| 0 <= i < 16 ==> cpu.keypad@[i] == 0,
            cpu.display@ == blank_display(),
    {
        let mut cpu = CPU {
            opcode: 0,
            memory: zero_bytes(MEMORY_SIZE),
            v_reg: zero_bytes(16),
            i_addr: 0,
            pc: PROGRAM_ROM_START,
            display: zero_bytes(DISPLAY_SIZE),
            stack: zero_words(16),
            sp: 0,
            delay_timer: 0,
            sound_timer: 0,
            keypad: zero_bytes(16),
        };
        cpu.load_fontset();
        proof {
            assert(cpu.display@ =~= blank_display());
        }
        cpu
    }

    /// Copy the font table into the bottom of working memory.
    fn load_fontset(&mut self)
        requires
            old(self).wf(),
        ensures
            final(self).wf(),
            only_memory(*old(self), *final(self)),
            final(self).memory@.len() == old(self).memory@.len(),
            forall|i: int| 0 <= i < FONTSET_LEN ==> final(self).memory@[i] == fontset()[i],
            forall|i: int|
                FONTSET_LEN <= i < old(self).memory@.len() ==> final(self).memory@[i]
                    == old(self).memory@[i],
    {
        let font = build_fontset();
        let mut i: usize = 0;
        while i < FONTSET_LEN
            invariant
                old(self).wf(),
                self.wf(),
                i <= FONTSET_LEN,
                font@ == fontset(),
                only_memory(*old(self), *self),
                self.memory@.len() == old(self).memory@.len(),
                forall|j: int| 0 <= j < i ==> self.memory@[j] == fontset()[j],
                forall|j: int|
                    i <= j < old(self).memory@.len() ==> self.memory@[j] == old(self).memory@[j],
            decreases FONTSET_LEN - i,
        {
            self.memory[FONTSET_START + i] = font[i];
            i += 1;
        }
    }

    /// Copy a program image into working memory starting at
    /// `PROGRAM_ROM_START`. At most the remaining `MEMORY_SIZE -
    /// PROGRAM_ROM_START` bytes are taken: the machine never writes past
    /// the end of its memory, and an oversized image is for the caller to
    /// reject.
    pub fn load_rom(&mut self, rom: &Vec<u8>)
        requires
            old(self).wf(),
        ensures
            final(self).wf(),
            only_memory(*old(self), *final(self)),
            final(self).memory@.len() == old(self).memory@.len(),
            forall|i: int|
                0 <= i < rom_copy_len(rom@.len()) ==> final(self).memory@[PROGRAM_ROM_START + i]
                    == rom@[i],
            forall|i: int|
                0 <= i < PROGRAM_ROM_START ==> final(self).memory@[i] == old(self).memory@[i],
            forall|i: int|
                PROGRAM_ROM_START + rom_copy_len(rom@.len()) <= i < MEMORY_SIZE
                    ==> final(self).memory@[i] == old(self).memory@[i],
    {
        let mut i: usize = 0;
        while i < rom.len() && i < MEMORY_SIZE - PROGRAM_ROM_START
            invariant
                old(self).wf(),
                self.wf(),
                i <= rom@.len(),
                i <= MEMORY_SIZE - PROGRAM_ROM_START,
                only_memory(*old(self), *self),
                self.memory@.len() == old(self).memory@.len(),
                forall|j: int|
                    0 <= j < i ==> self.memory@[PROGRAM_ROM_START + j] == rom@[j],
                forall|j: int|
                    0 <= j < PROGRAM_ROM_START ==> self.memory@[j] == old(self).memory@[j],
                forall|j: int|
                    PROGRAM_ROM_START + i <= j < MEMORY_SIZE ==> self.memory@[j]
                        == old(self).memory@[j],
            decreases rom@.len() - i,
        {
            self.memory[PROGRAM_ROM_START + i] = rom[i];
            i += 1;
        }
    }

    /// Read the two memory bytes at the program counter and merge them
    /// big-endian into the current opcode.
    pub fn fetch_opcode(&mut self)
        requires
            old(self).wf(),
            old(self).pc + 1 < MEMORY_SIZE,
        ensures
            final(self).wf(),
            only_opcode(*old(self), *final(self)),
            final(self).opcode == merged_opcode(
                old(self).memory@[old(self).pc as int],
                old(self).memory@[old(self).pc + 1],
            ),
    {
        let pc = self.pc;
        let byte1 = self.memory[pc] as u16;
        let byte2 = self.memory[pc + 1] as u16;
        self.opcode = (byte1 << 8) | byte2;
    }

    /// Get the state of a pixel: 1 when on, 0 when off. Only the first byte
    /// of the triplet is consulted; a value other than the two legal
    /// encodings is an invariant violation the caller rules out.
    pub fn get_pixel(&self, pixel_index: usize) -> (state: u8)
        requires
            self.wf(),
            pixel_index < PIXEL_COUNT,
            self.display@[3 * pixel_index] == 0 || self.display@[3 * pixel_index] == 255,
        ensures
            state == (if px_on(self.display@, pixel_index as int) {
                1u8
            } else {
                0u8
            }),
    {
        let triplet_index = pixel_index * 3;
        let red = self.display[triplet_index];
        if red == 255 {
            1
        } else {
            0
        }
    }

    /// Set the state of a pixel (1 on, 0 off), writing the same byte across
    /// all three bytes of its triplet.
    pub fn set_pixel(&mut self, pixel_index: usize, state: u8)
        requires
            old(self).wf(),
            pixel_index < PIXEL_COUNT,
            state == 0 || state == 1,
        ensures
            final(self).wf(),
            only_display(*old(self), *final(self)),
            final(self).display@ == px_set(
                old(self).display@,
                pixel_index as int,
                if state == 1 {
                    255u8
                } else {
                    0u8
                },
            ),
            old(self).display_wf() ==> final(self).display_wf(),
    {
        let triplet_index = pixel_index * 3;
        let pixel_value: u8 = if state == 1 {
            255
        } else {
            0
        };
        self.display[triplet_index] = pixel_value;
        self.display[triplet_index + 1] = pixel_value;
        self.display[triplet_index + 2] = pixel_value;
        proof {
            if old(self).display_wf() {
                assert forall|i: int| 0 <= i < PIXEL_COUNT implies #[trigger] px_wf(
                    self.display@,
                    i,
                ) by {
                    assert(px_wf(old(self).display@, i));
                }
            }
        }
    }

    /// XOR-blend a state onto a pixel: when the new state equals the
    /// existing state the pixel turns off, otherwise it turns on.
    pub fn xor_pixel(&mut self, pixel_index: usize, state: u8)
        requires
            old(self).wf(),
            pixel_index < PIXEL_COUNT,
            state == 0 || state == 1,
            old(self).display@[3 * pixel_index] == 0 || old(self).display@[3 * pixel_index]
                == 255,
        ensures
            final(self).wf(),
            only_display(*old(self), *final(self)),
            final(self).display@ == px_set(
                old(self).display@,
                pixel_index as int,
                if (if px_on(old(self).display@, pixel_index as int) {
                    1u8
                } else {
                    0u8
                }) == state {
                    0u8
                } else {
                    255u8
                },
            ),
            old(self).display_wf() ==> final(self).display_wf(),
    {
        if self.get_pixel(pixel_index) == state {
            self.set_pixel(pixel_index, 0);
        } else {
            self.set_pixel(pixel_index, 1);
        }
    }

    /// The hexadecimal key slot a host key stands for, through the fixed
    /// keyboard table; `None` for an unmapped key.
    pub fn keycode_to_hex(&self, key: Key) -> (hex: Option<u8>)
        ensures
            hex == key_hex(key),
    {
        match key {
            Key::Num1 => Some(0x1),
            Key::Num2 => Some(0x2),
            Key::Num3 => Some(0x3),
            Key::Num4 => Some(0xC),
            Key::Q => Some(0x4),
            Key::W => Some(0x5),
            Key::E => Some(0x6),
            Key::R => Some(0xD),
            Key::A => Some(0x7),
            Key::S => Some(0x8),
            Key::D => Some(0x9),
            Key::F => Some(0xE),
            Key::Z => Some(0xA),
            Key::X => Some(0x0),
            Key::C => Some(0xB),
            Key::V => Some(0xF),
            Key::Other => None,
        }
    }

    /// Record a key press or release: a mapped key sets or clears its slot,
    /// an unmapped key changes nothing anywhere.
    pub fn update_keypad(&mut self, key: Key, key_down: bool)
        requires
            old(self).wf(),
        ensures
            final(self).wf(),
            match key_hex(key) {
                Some(hex) => {
                    &&& only_keypad(*old(self), *final(self))
                    &&& final(self).keypad@ == old(self).keypad@.update(
                        hex as int,
                        if key_down {
                            1u8
                        } else {
                            0u8
                        },
                    )
                },
                None => *final(self) == *old(self),
            },
    {
        if let Some(hex) = self.keycode_to_hex(key) {
            proof {
                lemma_key_hex_in_range(key);
            }
            let state: u8 = if key_down {
                1
            } else {
                0
            };
            self.keypad[hex as usize] = state;
        }
    }

    /// One timer tick: each timer counts down by one while above zero and
    /// rests at zero.
    pub(crate) fn update_timers(&mut self)
        requires
            old(self).wf(),
        ensures
            final(self).wf(),
            only_timers(*old(self), *final(self)),
            final(self).delay_timer == ticked(old(self).delay_timer),
            final(self).sound_timer == ticked(old(self).sound_timer),
    {
        if self.delay_timer > 0 {
            self.delay_timer = self.delay_timer - 1;
        }
        if self.sound_timer > 0 {
            self.sound_timer = self.sound_timer - 1;
        }
    }

    /// Whether the machine's invariants hold, decided at run time: the
    /// entity sizes, the stack pointer bound, and the framebuffer's pixel
    /// encodings. Unverified callers test this before driving a cycle.
    pub fn invariants_hold(&self) -> (ok: bool)
        ensures
            ok == (self.wf() && self.display_wf()),
    {
        if !(self.memory.len() == MEMORY_SIZE && self.v_reg.len() == 16 && self.display.len()
            == DISPLAY_SIZE && self.stack.len() == 16 && self.keypad.len() == 16 && self.sp
            <= 16) {
            return false;
        }
        let mut i: usize = 0;
        while i < PIXEL_COUNT
            invariant
                self.wf(),
                i <= PIXEL_COUNT,
                forall|j: int| 0 <= j < i ==> #[trigger] px_wf(self.display@, j),
            decreases PIXEL_COUNT - i,
        {
            let base = i * 3;
            let red = self.display[base];
            if !(red == 0 || red == 255) {
                proof {
                    assert(!px_wf(self.display@, i as int));
                }
                return false;
            }
            if !(self.display[base + 1] == red && self.display[base + 2] == red) {
                proof {
                    assert(!px_wf(self.display@, i as int));
                }
                return false;
            }
            i += 1;
        }
        true
    }
}

/// The number of image bytes `load_rom` copies: all of them, capped at the
/// space above `PROGRAM_ROM_START`.
pub open spec fn rom_copy_len(len: nat) -> nat {
    if len > (MEMORY_SIZE - PROGRAM_ROM_START) as nat {
        (MEMORY_SIZE - PROGRAM_ROM_START) as nat
    } else {
        len
    }
}

/// A freshly cleared framebuffer.
pub(crate) fn blank_screen() -> (v: Vec<u8>)
    ensures
        v@ == blank_display(),
{
    let v = zero_bytes(DISPLAY_SIZE);
    proof {
        assert(v@ =~= blank_display());
    }
    v
}

/// A vector of `n` zero bytes.
fn zero_bytes(n: usize) -> (v: Vec<u8>)
    ensures
        v@.len() == n,
        forall|i: int| 0 <= i < n ==> v@[i] == 0,
{
    let mut v: Vec<u8> = Vec::new();
    while v.len() < n
        invariant
            v@.len() <= n,
            forall|i: int| 0 <= i < v@.len() ==> v@[i] == 0,
        decreases n - v@.len(),
    {
        v.push(0);
    }
    v
}

/// A vector of `n` zero words.
fn zero_words(n: usize) -> (v: Vec<usize>)
    ensures
        v@.len() == n,
        forall|i: int| 0 <= i < n ==> v@[i] == 0,
{
    let mut v: Vec<usize> = Vec::new();
    while v.len() < n
        invariant
            v@.len() <= n,
            forall|i: int| 0 <= i < v@.len() ==> v@[i] == 0,
        decreases n - v@.len(),
    {
        v.push(0);
    }
    v
}

} // verus!
