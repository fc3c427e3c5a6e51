//! The instruction-set semantics: one relation per opcode between the
//! machine state before and after execution, the conditions under which
//! execution is refused, and the frame helpers saying which fields an
//! instruction leaves alone.

use vstd::prelude::*;
use crate::cpu::CPU;
use crate::display::{blank_display, drawn, draw_hit};
use crate::opcode::{op_kk, op_n, op_nnn, op_x, op_y};
use crate::opcode::{
    is_add_byte, is_add_i, is_add_vy, is_and, is_bcd, is_call, is_cls, is_drw, is_get_dt, is_jp,
    is_jp_v0, is_ld_byte, is_ld_i, is_ld_vy, is_or, is_rnd, is_read, is_ret, is_se_byte, is_se_vx,
    is_set_dt, is_set_sprite, is_set_st, is_shl, is_shr, is_skp, is_sknp, is_sne_byte, is_sne_vx,
    is_store, is_sub_vy, is_subn, is_waitkey, is_xor, op_known,
};

verus! {

// ---- Field-by-field frame atoms ----
pub open spec fn same_opcode(pre: CPU, post: CPU) -> bool {
    post.opcode == pre.opcode
}

pub open spec fn same_memory(pre: CPU, post: CPU) -> bool {
    post.memory@ == pre.memory@
}

pub open spec fn same_v_reg(pre: CPU, post: CPU) -> bool {
    post.v_reg@ == pre.v_reg@
}

pub open spec fn same_i_addr(pre: CPU, post: CPU) -> bool {
    post.i_addr == pre.i_addr
}

pub open spec fn same_pc(pre: CPU, post: CPU) -> bool {
    post.pc == pre.pc
}

pub open spec fn same_display(pre: CPU, post: CPU) -> bool {
    post.display@ == pre.display@
}

pub open spec fn same_stack(pre: CPU, post: CPU) -> bool {
    post.stack@ == pre.stack@
}

pub open spec fn same_sp(pre: CPU, post: CPU) -> bool {
    post.sp == pre.sp
}

pub open spec fn same_delay(pre: CPU, post: CPU) -> bool {
    post.delay_timer == pre.delay_timer
}

pub open spec fn same_sound(pre: CPU, post: CPU) -> bool {
    post.sound_timer == pre.sound_timer
}

pub open spec fn same_keypad(pre: CPU, post: CPU) -> bool {
    post.keypad@ == pre.keypad@
}

// ---- Frames: which fields a step may change ----
/// The step changes the program counter at most.
pub open spec fn only_pc(pre: CPU, post: CPU) -> bool {
    &&& same_opcode(pre, post)
    &&& same_memory(pre, post)
    &&& same_v_reg(pre, post)
    &&& same_i_addr(pre, post)
    &&& same_display(pre, post)
    &&& same_stack(pre, post)
    &&& same_sp(pre, post)
    &&& same_delay(pre, post)
    &&& same_sound(pre, post)
    &&& same_keypad(pre, post)
}

/// The step changes the program counter and the general registers at most.
pub open spec fn only_pc_v(pre: CPU, post: CPU) -> bool {
    &&& same_opcode(pre, post)
    &&& same_memory(pre, post)
    &&& same_i_addr(pre, post)
    &&& same_display(pre, post)
    &&& same_stack(pre, post)
    &&& same_sp(pre, post)
    &&& same_delay(pre, post)
    &&& same_sound(pre, post)
    &&& same_keypad(pre, post)
}

/// The step changes the program counter and the address register at most.
pub open spec fn only_pc_i(pre: CPU, post: CPU) -> bool {
    &&& same_opcode(pre, post)
    &&& same_memory(pre, post)
    &&& same_v_reg(pre, post)
    &&& same_display(pre, post)
    &&& same_stack(pre, post)
    &&& same_sp(pre, post)
    &&& same_delay(pre, post)
    &&& same_sound(pre, post)
    &&& same_keypad(pre, post)
}

/// The step changes the program counter and working memory at most.
pub open spec fn only_pc_memory(pre: CPU, post: CPU) -> bool {
    &&& same_opcode(pre, post)
    &&& same_v_reg(pre, post)
    &&& same_i_addr(pre, post)
    &&& same_display(pre, post)
    &&& same_stack(pre, post)
    &&& same_sp(pre, post)
    &&& same_delay(pre, post)
    &&& same_sound(pre, post)
    &&& same_keypad(pre, post)
}

/// The step changes the program counter and the framebuffer at most.
pub open spec fn only_pc_display(pre: CPU, post: CPU) -> bool {
    &&& same_opcode(pre, post)
    &&& same_memory(pre, post)
    &&& same_v_reg(pre, post)
    &&& same_i_addr(pre, post)
    &&& same_stack(pre, post)
    &&& same_sp(pre, post)
    &&& same_delay(pre, post)
    &&& same_sound(pre, post)
    &&& same_keypad(pre, post)
}

/// The step changes the program counter, the general registers, and the
/// framebuffer at most.
pub open spec fn only_pc_v_display(pre: CPU, post: CPU) -> bool {
    &&& same_opcode(pre, post)
    &&& same_memory(pre, post)
    &&& same_i_addr(pre, post)
    &&& same_stack(pre, post)
    &&& same_sp(pre, post)
    &&& same_delay(pre, post)
    &&& same_sound(pre, post)
    &&& same_keypad(pre, post)
}

/// The step changes the program counter and the stack pointer at most.
pub open spec fn only_pc_sp(pre: CPU, post: CPU) -> bool {
    &&& same_opcode(pre, post)
    &&& same_memory(pre, post)
    &&& same_v_reg(pre, post)
    &&& same_i_addr(pre, post)
    &&& same_display(pre, post)
    &&& same_stack(pre, post)
    &&& same_delay(pre, post)
    &&& same_sound(pre, post)
    &&& same_keypad(pre, post)
}

/// The step changes the program counter, the stack, and the stack pointer
/// at most.
pub open spec fn only_pc_sp_stack(pre: CPU, post: CPU) -> bool {
    &&& same_opcode(pre, post)
    &&& same_memory(pre, post)
    &&& same_v_reg(pre, post)
    &&& same_i_addr(pre, post)
    &&& same_display(pre, post)
    &&& same_delay(pre, post)
    &&& same_sound(pre, post)
    &&& same_keypad(pre, post)
}

/// The step changes the program counter and the delay timer at most.
pub open spec fn only_pc_delay(pre: CPU, post: CPU) -> bool {
    &&& same_opcode(pre, post)
    &&& same_memory(pre, post)
    &&& same_v_reg(pre, post)
    &&& same_i_addr(pre, post)
    &&& same_display(pre, post)
    &&& same_stack(pre, post)
    &&& same_sp(pre, post)
    &&& same_sound(pre, post)
    &&& same_keypad(pre, post)
}

/// The step changes the program counter and the sound timer at most.
pub open spec fn only_pc_sound(pre: CPU, post: CPU) -> bool {
    &&& same_opcode(pre, post)
    &&& same_memory(pre, post)
    &&& same_v_reg(pre, post)
    &&& same_i_addr(pre, post)
    &&& same_display(pre, post)
    &&& same_stack(pre, post)
    &&& same_sp(pre, post)
    &&& same_delay(pre, post)
    &&& same_keypad(pre, post)
}

/// The step changes working memory at most.
pub open spec fn only_memory(pre: CPU, post: CPU) -> bool {
    &&& same_opcode(pre, post)
    &&& same_v_reg(pre, post)
    &&& same_i_addr(pre, post)
    &&& same_pc(pre, post)
    &&& same_display(pre, post)
    &&& same_stack(pre, post)
    &&& same_sp(pre, post)
    &&& same_delay(pre, post)
    &&& same_sound(pre, post)
    &&& same_keypad(pre, post)
}

/// The step changes the current opcode at most.
pub open spec fn only_opcode(pre: CPU, post: CPU) -> bool {
    &&& same_memory(pre, post)
    &&& same_v_reg(pre, post)
    &&& same_i_addr(pre, post)
    &&& same_pc(pre, post)
    &&& same_display(pre, post)
    &&& same_stack(pre, post)
    &&& same_sp(pre, post)
    &&& same_delay(pre, post)
    &&& same_sound(pre, post)
    &&& same_keypad(pre, post)
}

/// The step changes the framebuffer at most.
pub open spec fn only_display(pre: CPU, post: CPU) -> bool {
    &&& same_opcode(pre, post)
    &&& same_memory(pre, post)
    &&& same_v_reg(pre, post)
    &&& same_i_addr(pre, post)
    &&& same_pc(pre, post)
    &&& same_stack(pre, post)
    &&& same_sp(pre, post)
    &&& same_delay(pre, post)
    &&& same_sound(pre, post)
    &&& same_keypad(pre, post)
}

/// The step changes the keypad at most.
pub open spec fn only_keypad(pre: CPU, post: CPU) -> bool {
    &&& same_opcode(pre, post)
    &&& same_memory(pre, post)
    &&& same_v_reg(pre, post)
    &&& same_i_addr(pre, post)
    &&& same_pc(pre, post)
    &&& same_display(pre, post)
    &&& same_stack(pre, post)
    &&& same_sp(pre, post)
    &&& same_delay(pre, post)
    &&& same_sound(pre, post)
}

/// The step changes the two timers at most.
pub open spec fn only_timers(pre: CPU, post: CPU) -> bool {
    &&& same_opcode(pre, post)
    &&& same_memory(pre, post)
    &&& same_v_reg(pre, post)
    &&& same_i_addr(pre, post)
    &&& same_pc(pre, post)
    &&& same_display(pre, post)
    &&& same_stack(pre, post)
    &&& same_sp(pre, post)
    &&& same_keypad(pre, post)
}

// ---- Per-instruction relations ----
/// 00E0: every pixel off.
pub open spec fn spec_cls(pre: CPU, post: CPU) -> bool {
    &&& only_pc_display(pre, post)
    &&& post.display@ == blank_display()
    &&& post.pc == pre.pc + 2
}

/// 00EE: pop the stack into the program counter, then advance past the
/// call instruction.
pub open spec fn spec_ret(pre: CPU, post: CPU) -> bool {
    &&& only_pc_sp(pre, post)
    &&& post.sp == pre.sp - 1
    &&& post.pc == pre.stack@[pre.sp - 1] + 2
}

/// 1nnn: jump.
pub open spec fn spec_jp(pre: CPU, post: CPU) -> bool {
    &&& only_pc(pre, post)
    &&& post.pc == op_nnn(pre.opcode)
}

/// 2nnn: push the current program counter and jump.
pub open spec fn spec_call(pre: CPU, post: CPU) -> bool {
    &&& only_pc_sp_stack(pre, post)
    &&& post.stack@ == pre.stack@.update(pre.sp as int, pre.pc)
    &&& post.sp == pre.sp + 1
    &&& post.pc == op_nnn(pre.opcode)
}

/// 3xkk: skip the next instruction when Vx equals kk.
pub open spec fn spec_se_byte(pre: CPU, post: CPU) -> bool {
    &&& only_pc(pre, post)
    &&& post.pc == pre.pc + (if pre.v_reg@[op_x(pre.opcode) as int] == op_kk(pre.opcode) {
        4int
    } else {
        2int
    })
}

/// 4xkk: skip the next instruction when Vx differs from kk.
pub open spec fn spec_sne_byte(pre: CPU, post: CPU) -> bool {
    &&& only_pc(pre, post)
    &&& post.pc == pre.pc + (if pre.v_reg@[op_x(pre.opcode) as int] != op_kk(pre.opcode) {
        4int
    } else {
        2int
    })
}

/// 5xy0: skip the next instruction when Vx equals Vy.
pub open spec fn spec_se_vx(pre: CPU, post: CPU) -> bool {
    &&& only_pc(pre, post)
    &&& post.pc == pre.pc + (if pre.v_reg@[op_x(pre.opcode) as int] == pre.v_reg@[op_y(
        pre.opcode,
    ) as int] {
        4int
    } else {
        2int
    })
}

/// 9xy0: skip the next instruction when Vx differs from Vy.
pub open spec fn spec_sne_vx(pre: CPU, post: CPU) -> bool {
    &&& only_pc(pre, post)
    &&& post.pc == pre.pc + (if pre.v_reg@[op_x(pre.opcode) as int] != pre.v_reg@[op_y(
        pre.opcode,
    ) as int] {
        4int
    } else {
        2int
    })
}

/// 6xkk: Vx = kk.
pub open spec fn spec_ld_byte(pre: CPU, post: CPU) -> bool {
    &&& only_pc_v(pre, post)
    &&& post.v_reg@ == pre.v_reg@.update(op_x(pre.opcode) as int, op_kk(pre.opcode))
    &&& post.pc == pre.pc + 2
}

/// 7xkk: Vx = Vx + kk, wrapping on 8-bit overflow, no flag written.
pub open spec fn spec_add_byte(pre: CPU, post: CPU) -> bool {
    let x = op_x(pre.opcode) as int;
    let sum = pre.v_reg@[x] + op_kk(pre.opcode);
    &&& only_pc_v(pre, post)
    &&& post.v_reg@ == pre.v_reg@.update(x, (sum % 256) as u8)
    &&& post.pc == pre.pc + 2
}

/// 8xy0: Vx = Vy.
pub open spec fn spec_ld_vy(pre: CPU, post: CPU) -> bool {
    &&& only_pc_v(pre, post)
    &&& post.v_reg@ == pre.v_reg@.update(
        op_x(pre.opcode) as int,
        pre.v_reg@[op_y(pre.opcode) as int],
    )
    &&& post.pc == pre.pc + 2
}

/// 8xy1: Vx = Vx | Vy.
pub open spec fn spec_or(pre: CPU, post: CPU) -> bool {
    let x = op_x(pre.opcode) as int;
    let y = op_y(pre.opcode) as int;
    &&& only_pc_v(pre, post)
    &&& post.v_reg@ == pre.v_reg@.update(x, pre.v_reg@[x] | pre.v_reg@[y])
    &&& post.pc == pre.pc + 2
}

/// 8xy2: Vx = Vx & Vy.
pub open spec fn spec_and(pre: CPU, post: CPU) -> bool {
    let x = op_x(pre.opcode) as int;
    let y = op_y(pre.opcode) as int;
    &&& only_pc_v(pre, post)
    &&& post.v_reg@ == pre.v_reg@.update(x, pre.v_reg@[x] & pre.v_reg@[y])
    &&& post.pc == pre.pc + 2
}

/// 8xy3: Vx = Vx ^ Vy.
pub open spec fn spec_xor(pre: CPU, post: CPU) -> bool {
    let x = op_x(pre.opcode) as int;
    let y = op_y(pre.opcode) as int;
    &&& only_pc_v(pre, post)
    &&& post.v_reg@ == pre.v_reg@.update(x, pre.v_reg@[x] ^ pre.v_reg@[y])
    &&& post.pc == pre.pc + 2
}

/// 8xy4: Vx = Vx + Vy with VF set to 1 exactly when the 8-bit addition
/// overflows. The flag is written first, so with x = F the sum wins.
pub open spec fn spec_add_vy(pre: CPU, post: CPU) -> bool {
    let x = op_x(pre.opcode) as int;
    let sum = pre.v_reg@[x] + pre.v_reg@[op_y(pre.opcode) as int];
    let flag: u8 = if sum > 255 {
        1u8
    } else {
        0u8
    };
    &&& only_pc_v(pre, post)
    &&& post.v_reg@ == pre.v_reg@.update(0xF, flag).update(x, (sum % 256) as u8)
    &&& post.pc == pre.pc + 2
}

/// 8xy5: Vx = Vx - Vy with VF set to 1 exactly when no borrow occurs.
pub open spec fn spec_sub_vy(pre: CPU, post: CPU) -> bool {
    let x = op_x(pre.opcode) as int;
    let diff = pre.v_reg@[x] - pre.v_reg@[op_y(pre.opcode) as int];
    let flag: u8 = if diff >= 0 {
        1u8
    } else {
        0u8
    };
    &&& only_pc_v(pre, post)
    &&& post.v_reg@ == pre.v_reg@.update(0xF, flag).update(x, (diff % 256) as u8)
    &&& post.pc == pre.pc + 2
}

/// 8xy6: VF = the pre-shift least-significant bit of Vx, then Vx >>= 1.
/// The flag lands first, so with x = F the shift acts on the flag value.
pub open spec fn spec_shr(pre: CPU, post: CPU) -> bool {
    let x = op_x(pre.opcode) as int;
    let v1 = pre.v_reg@.update(0xF, pre.v_reg@[x] & 0x01);
    &&& only_pc_v(pre, post)
    &&& post.v_reg@ == v1.update(x, v1[x] >> 1)
    &&& post.pc == pre.pc + 2
}

/// 8xy7: Vx = Vy - Vx with VF set to 1 exactly when no borrow occurs.
pub open spec fn spec_subn(pre: CPU, post: CPU) -> bool {
    let x = op_x(pre.opcode) as int;
    let diff = pre.v_reg@[op_y(pre.opcode) as int] - pre.v_reg@[x];
    let flag: u8 = if diff >= 0 {
        1u8
    } else {
        0u8
    };
    &&& only_pc_v(pre, post)
    &&& post.v_reg@ == pre.v_reg@.update(0xF, flag).update(x, (diff % 256) as u8)
    &&& post.pc == pre.pc + 2
}

/// 8xyE: VF = Vx & 0x80 (the pre-shift most-significant bit, not normalized
/// to 0/1), then Vx <<= 1. The flag lands first, as in 8xy6.
pub open spec fn spec_shl(pre: CPU, post: CPU) -> bool {
    let x = op_x(pre.opcode) as int;
    let v1 = pre.v_reg@.update(0xF, pre.v_reg@[x] & 0x80);
    &&& only_pc_v(pre, post)
    &&& post.v_reg@ == v1.update(x, v1[x] << 1)
    &&& post.pc == pre.pc + 2
}

/// Annn: I = nnn.
pub open spec fn spec_ld_i(pre: CPU, post: CPU) -> bool {
    &&& only_pc_i(pre, post)
    &&& post.i_addr == op_nnn(pre.opcode)
    &&& post.pc == pre.pc + 2
}

/// Bnnn: jump to nnn + V0.
pub open spec fn spec_jp_v0(pre: CPU, post: CPU) -> bool {
    &&& only_pc(pre, post)
    &&& post.pc == op_nnn(pre.opcode) + pre.v_reg@[0]
}

/// Cxkk: Vx = some byte masked with kk. Which byte arrives is up to the
/// random source, so only the mask is promised.
pub open spec fn spec_rnd(pre: CPU, post: CPU) -> bool {
    let x = op_x(pre.opcode) as int;
    &&& only_pc_v(pre, post)
    &&& exists|r: u8| post.v_reg@ == pre.v_reg@.update(x, r & op_kk(pre.opcode))
    &&& post.pc == pre.pc + 2
}

/// Dxyn: XOR-draw the n-row sprite at memory[I..I+n] at coordinates
/// (Vx, Vy), and set VF to 1 exactly when some scanned target pixel was
/// already on.
pub open spec fn spec_drw(pre: CPU, post: CPU) -> bool {
    let x = pre.v_reg@[op_x(pre.opcode) as int] as int;
    let y = pre.v_reg@[op_y(pre.opcode) as int] as int;
    let bits = (8 * op_n(pre.opcode)) as nat;
    let hit = draw_hit(pre.display@, pre.memory@, pre.i_addr as int, x, y, bits);
    &&& only_pc_v_display(pre, post)
    &&& post.display@ == drawn(pre.display@, pre.memory@, pre.i_addr as int, x, y, bits)
    &&& post.v_reg@ == pre.v_reg@.update(
        0xF,
        if hit {
            1u8
        } else {
            0u8
        },
    )
    &&& post.pc == pre.pc + 2
}

/// Ex9E: skip the next instruction when the key named by Vx is pressed.
pub open spec fn spec_skp(pre: CPU, post: CPU) -> bool {
    &&& only_pc(pre, post)
    &&& post.pc == pre.pc + (if pre.keypad@[pre.v_reg@[op_x(pre.opcode) as int] as int] == 1 {
        4int
    } else {
        2int
    })
}

/// ExA1: skip the next instruction when the key named by Vx is not pressed.
pub open spec fn spec_sknp(pre: CPU, post: CPU) -> bool {
    &&& only_pc(pre, post)
    &&& post.pc == pre.pc + (if pre.keypad@[pre.v_reg@[op_x(pre.opcode) as int] as int] == 0 {
        4int
    } else {
        2int
    })
}

/// Fx07: Vx = delay timer.
pub open spec fn spec_get_dt(pre: CPU, post: CPU) -> bool {
    &&& only_pc_v(pre, post)
    &&& post.v_reg@ == pre.v_reg@.update(op_x(pre.opcode) as int, pre.delay_timer)
    &&& post.pc == pre.pc + 2
}

/// Fx0A: wait for a key press. Deliberately a stub: the program counter
/// advances without consulting any key state, so a program that waits on
/// a key simply runs on.
pub open spec fn spec_waitkey(pre: CPU, post: CPU) -> bool {
    &&& only_pc(pre, post)
    &&& post.pc == pre.pc + 2
}

/// Fx15: delay timer = Vx.
pub open spec fn spec_set_dt(pre: CPU, post: CPU) -> bool {
    &&& only_pc_delay(pre, post)
    &&& post.delay_timer == pre.v_reg@[op_x(pre.opcode) as int]
    &&& post.pc == pre.pc + 2
}

/// Fx18: sound timer = Vx.
pub open spec fn spec_set_st(pre: CPU, post: CPU) -> bool {
    &&& only_pc_sound(pre, post)
    &&& post.sound_timer == pre.v_reg@[op_x(pre.opcode) as int]
    &&& post.pc == pre.pc + 2
}

/// Fx1E: I = I + Vx.
pub open spec fn spec_add_i(pre: CPU, post: CPU) -> bool {
    &&& only_pc_i(pre, post)
    &&& post.i_addr == pre.i_addr + pre.v_reg@[op_x(pre.opcode) as int]
    &&& post.pc == pre.pc + 2
}

/// Fx29: I = the font-table address of digit Vx, five bytes per digit.
pub open spec fn spec_set_sprite(pre: CPU, post: CPU) -> bool {
    &&& only_pc_i(pre, post)
    &&& post.i_addr == 5 * pre.v_reg@[op_x(pre.opcode) as int]
    &&& post.pc == pre.pc + 2
}

/// Fx33: the decimal digits of Vx, hundreds first, at memory[I..I+3].
pub open spec fn spec_bcd(pre: CPU, post: CPU) -> bool {
    let vx = pre.v_reg@[op_x(pre.opcode) as int];
    let i = pre.i_addr as int;
    &&& only_pc_memory(pre, post)
    &&& post.memory@ == pre.memory@.update(i, vx / 100).update(i + 1, (vx / 10) % 10).update(
        i + 2,
        vx % 10,
    )
    &&& post.pc == pre.pc + 2
}

/// Fx55: store V0..Vx inclusive at memory[I..].
pub open spec fn spec_store(pre: CPU, post: CPU) -> bool {
    let x = op_x(pre.opcode) as int;
    let i = pre.i_addr as int;
    &&& only_pc_memory(pre, post)
    &&& post.memory@.len() == pre.memory@.len()
    &&& forall|j: int| 0 <= j <= x ==> post.memory@[i + j] == pre.v_reg@[j]
    &&& forall|j: int|
        0 <= j < pre.memory@.len() && !(i <= j <= i + x) ==> post.memory@[j] == pre.memory@[j]
    &&& post.pc == pre.pc + 2
}

/// Fx65: load memory[I..] into V0..Vx inclusive.
pub open spec fn spec_read(pre: CPU, post: CPU) -> bool {
    let x = op_x(pre.opcode) as int;
    let i = pre.i_addr as int;
    &&& only_pc_v(pre, post)
    &&& post.v_reg@.len() == pre.v_reg@.len()
    &&& forall|j: int| 0 <= j <= x ==> post.v_reg@[j] == pre.memory@[i + j]
    &&& forall|j: int| x < j < 16 ==> post.v_reg@[j] == pre.v_reg@[j]
    &&& post.pc == pre.pc + 2
}

// ---- Conditions under which execution is refused ----
/// 00EE with an empty call stack.
pub open spec fn ret_underflow(pre: CPU) -> bool {
    is_ret(pre.opcode) && pre.sp == 0
}

/// 2nnn with all sixteen return slots in use.
pub open spec fn call_overflow(pre: CPU) -> bool {
    is_call(pre.opcode) && pre.sp >= 16
}

/// An I-indexed access that would run past the end of working memory:
/// sprite rows for Dxyn, three digit slots for Fx33, x + 1 slots for
/// Fx55/Fx65.
pub open spec fn mem_oob(pre: CPU) -> bool {
    let op = pre.opcode;
    let i = pre.i_addr as int;
    ||| is_drw(op) && op_n(op) > 0 && i + op_n(op) > 4096
    ||| is_bcd(op) && i + 3 > 4096
    ||| (is_store(op) || is_read(op)) && i + op_x(op) + 1 > 4096
}

/// Dxyn whose last sprite bit would land beyond the grid even after the
/// single vertical wrap: the direct index of bit (n-1, 7) past 4031.
pub open spec fn disp_oob(pre: CPU) -> bool {
    let op = pre.opcode;
    let x = pre.v_reg@[op_x(op) as int] as int;
    let y = pre.v_reg@[op_y(op) as int] as int;
    is_drw(op) && op_n(op) > 0 && x + 64 * y + 64 * (op_n(op) - 1) + 7 > 4031
}

/// Ex9E/ExA1 with a register value outside the sixteen key slots.
pub open spec fn key_oob(pre: CPU) -> bool {
    (is_skp(pre.opcode) || is_sknp(pre.opcode)) && pre.v_reg@[op_x(pre.opcode) as int] >= 16
}

/// Some condition refuses execution of the current opcode.
pub open spec fn step_refused(pre: CPU) -> bool {
    ||| !op_known(pre.opcode)
    ||| ret_underflow(pre)
    ||| call_overflow(pre)
    ||| mem_oob(pre)
    ||| disp_oob(pre)
    ||| key_oob(pre)
}

/// What executing the current opcode does, by instruction class.
pub open spec fn step_effect(pre: CPU, post: CPU) -> bool {
    let op = pre.opcode;
    if is_cls(op) {
        spec_cls(pre, post)
    } else if is_ret(op) {
        spec_ret(pre, post)
    } else if is_jp(op) {
        spec_jp(pre, post)
    } else if is_call(op) {
        spec_call(pre, post)
    } else if is_se_byte(op) {
        spec_se_byte(pre, post)
    } else if is_sne_byte(op) {
        spec_sne_byte(pre, post)
    } else if is_se_vx(op) {
        spec_se_vx(pre, post)
    } else if is_ld_byte(op) {
        spec_ld_byte(pre, post)
    } else if is_add_byte(op) {
        spec_add_byte(pre, post)
    } else if is_ld_vy(op) {
        spec_ld_vy(pre, post)
    } else if is_or(op) {
        spec_or(pre, post)
    } else if is_and(op) {
        spec_and(pre, post)
    } else if is_xor(op) {
        spec_xor(pre, post)
    } else if is_add_vy(op) {
        spec_add_vy(pre, post)
    } else if is_sub_vy(op) {
        spec_sub_vy(pre, post)
    } else if is_shr(op) {
        spec_shr(pre, post)
    } else if is_subn(op) {
        spec_subn(pre, post)
    } else if is_shl(op) {
        spec_shl(pre, post)
    } else if is_sne_vx(op) {
        spec_sne_vx(pre, post)
    } else if is_ld_i(op) {
        spec_ld_i(pre, post)
    } else if is_jp_v0(op) {
        spec_jp_v0(pre, post)
    } else if is_rnd(op) {
        spec_rnd(pre, post)
    } else if is_drw(op) {
        spec_drw(pre, post)
    } else if is_skp(op) {
        spec_skp(pre, post)
    } else if is_sknp(op) {
        spec_sknp(pre, post)
    } else if is_get_dt(op) {
        spec_get_dt(pre, post)
    } else if is_waitkey(op) {
        spec_waitkey(pre, post)
    } else if is_set_dt(op) {
        spec_set_dt(pre, post)
    } else if is_set_st(op) {
        spec_set_st(pre, post)
    } else if is_add_i(op) {
        spec_add_i(pre, post)
    } else if is_set_sprite(op) {
        spec_set_sprite(pre, post)
    } else if is_bcd(op) {
        spec_bcd(pre, post)
    } else if is_store(op) {
        spec_store(pre, post)
    } else if is_read(op) {
        spec_read(pre, post)
    } else {
        false
    }
}

/// What the decoder asks of its caller beyond what it checks itself:
/// well-formed state, room for the largest program-counter advance, a
/// well-formed framebuffer when a sprite is to be drawn, and arithmetic
/// headroom for Fx1E and the return address popped by 00EE.
pub open spec fn step_ready(pre: CPU) -> bool {
    &&& pre.wf()
    &&& pre.pc + 4 <= usize::MAX
    &&& is_drw(pre.opcode) ==> pre.display_wf()
    &&& is_add_i(pre.opcode) ==> pre.i_addr + pre.v_reg@[op_x(pre.opcode) as int] <= usize::MAX
    &&& is_ret(pre.opcode) && pre.sp > 0 ==> pre.stack@[pre.sp - 1] + 2 <= usize::MAX
}

/// The delay and sound timers tick down to zero, one per cycle.
pub open spec fn ticked(t: u8) -> u8 {
    if t > 0 {
        (t - 1) as u8
    } else {
        0u8
    }
}

} // verus!
