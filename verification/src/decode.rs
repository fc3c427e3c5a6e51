//! The fetch-decode-execute machinery: one handler per instruction, the
//! two-level dispatch over the opcode, and the full cycle.

use vstd::prelude::*;
use crate::cpu::{CpuError, CPU, MEMORY_SIZE};
use crate::display::{draw_hit, draw_target, drawn, px_wf};
use crate::opcode::{kk_of, merged_opcode, n_of, nnn_of, x_of, y_of};
use crate::opcode::{
    is_bcd, is_call, is_drw, is_read, is_ret, is_skp, is_sknp, is_store, op_known,
};
use crate::display::lemma_blank_display_wf;
use crate::rng::random_byte;
use crate::semantics::{
    call_overflow, disp_oob, key_oob, mem_oob, ret_underflow, spec_add_byte, spec_add_i,
    spec_add_vy, spec_and, spec_bcd, spec_call, spec_cls, spec_drw, spec_get_dt, spec_jp,
    spec_jp_v0, spec_ld_byte, spec_ld_i, spec_ld_vy, spec_or, spec_read, spec_ret, spec_rnd,
    spec_se_byte, spec_se_vx, spec_set_dt, spec_set_sprite, spec_set_st, spec_shl, spec_shr,
    spec_skp, spec_sknp, spec_sne_byte, spec_sne_vx, spec_store, spec_sub_vy, spec_subn,
    spec_waitkey, spec_xor, only_opcode, only_timers, step_effect, step_ready, step_refused,
    ticked,
};

verus! {

impl CPU {
    /// (00E0) Clear the display.
    fn opcode_cls(&mut self)
        requires
            old(self).wf(),
            old(self).pc + 2 <= usize::MAX,
        ensures
            final(self).wf(),
            spec_cls(*old(self), *final(self)),
    {
        self.display = crate::cpu::blank_screen();
        self.pc = self.pc + 2;
    }

    /// (00EE) Return from a subroutine: pop the stack into the program
    /// counter.
    fn opcode_ret(&mut self) -> (r: Result<(), CpuError>)
        requires
            old(self).wf(),
            is_ret(old(self).opcode),
            old(self).sp > 0 ==> old(self).stack@[old(self).sp - 1] + 2 <= usize::MAX,
        ensures
            final(self).wf(),
            match r {
                Ok(()) => !ret_underflow(*old(self)) && spec_ret(*old(self), *final(self)),
                Err(e) => {
                    &&& e == CpuError::StackUnderflow
                    &&& ret_underflow(*old(self))
                    &&& *final(self) == *old(self)
                },
            },
    {
        if self.sp == 0 {
            return Err(CpuError::StackUnderflow);
        }
        self.sp = self.sp - 1;
        self.pc = self.stack[self.sp];
        self.pc = self.pc + 2;
        Ok(())
    }

    /// (1nnn) Jump to location.
    fn opcode_jp(&mut self)
        requires
            old(self).wf(),
        ensures
            final(self).wf(),
            spec_jp(*old(self), *final(self)),
    {
        self.pc = nnn_of(self.opcode);
    }

    /// (2nnn) Call subroutine: push the program counter, then jump.
    fn opcode_call(&mut self) -> (r: Result<(), CpuError>)
        requires
            old(self).wf(),
            is_call(old(self).opcode),
        ensures
            final(self).wf(),
            match r {
                Ok(()) => !call_overflow(*old(self)) && spec_call(*old(self), *final(self)),
                Err(e) => {
                    &&& e == CpuError::StackOverflow
                    &&& call_overflow(*old(self))
                    &&& *final(self) == *old(self)
                },
            },
    {
        if self.sp >= 16 {
            return Err(CpuError::StackOverflow);
        }
        self.stack[self.sp] = self.pc;
        self.sp = self.sp + 1;
        self.pc = nnn_of(self.opcode);
        Ok(())
    }

    /// (3xkk) Skip the next instruction if Vx == kk.
    fn opcode_se_byte(&mut self)
        requires
            old(self).wf(),
            old(self).pc + 4 <= usize::MAX,
        ensures
            final(self).wf(),
            spec_se_byte(*old(self), *final(self)),
    {
        let x = x_of(self.opcode);
        if self.v_reg[x] == kk_of(self.opcode) {
            self.pc = self.pc + 2;
        }
        self.pc = self.pc + 2;
    }

    /// (4xkk) Skip the next instruction if Vx != kk.
    fn opcode_sne_byte(&mut self)
        requires
            old(self).wf(),
            old(self).pc + 4 <= usize::MAX,
        ensures
            final(self).wf(),
            spec_sne_byte(*old(self), *final(self)),
    {
        let x = x_of(self.opcode);
        if self.v_reg[x] != kk_of(self.opcode) {
            self.pc = self.pc + 2;
        }
        self.pc = self.pc + 2;
    }

    /// (5xy0) Skip the next instruction if Vx == Vy.
    fn opcode_se_vx(&mut self)
        requires
            old(self).wf(),
            old(self).pc + 4 <= usize::MAX,
        ensures
            final(self).wf(),
            spec_se_vx(*old(self), *final(self)),
    {
        let x = x_of(self.opcode);
        let y = y_of(self.opcode);
        if self.v_reg[x] == self.v_reg[y] {
            self.pc = self.pc + 2;
        }
        self.pc = self.pc + 2;
    }

    /// (6xkk) Set Vx to kk.
    fn opcode_ld_byte(&mut self)
        requires
            old(self).wf(),
            old(self).pc + 2 <= usize::MAX,
        ensures
            final(self).wf(),
            spec_ld_byte(*old(self), *final(self)),
    {
        let x = x_of(self.opcode);
        self.v_reg[x] = kk_of(self.opcode);
        self.pc = self.pc + 2;
    }

    /// (7xkk) Add kk to Vx, wrapping on 8-bit overflow, with no flag.
    fn opcode_add_byte(&mut self)
        requires
            old(self).wf(),
            old(self).pc + 2 <= usize::MAX,
        ensures
            final(self).wf(),
            spec_add_byte(*old(self), *final(self)),
    {
        let x = x_of(self.opcode);
        let cur = self.v_reg[x];
        let kk = kk_of(self.opcode);
        self.v_reg[x] = cur.wrapping_add(kk);
        self.pc = self.pc + 2;
    }

    /// (8xy0) Set Vx to Vy.
    fn opcode_ld_vy(&mut self)
        requires
            old(self).wf(),
            old(self).pc + 2 <= usize::MAX,
        ensures
            final(self).wf(),
            spec_ld_vy(*old(self), *final(self)),
    {
        let x = x_of(self.opcode);
        let y = y_of(self.opcode);
        self.v_reg[x] = self.v_reg[y];
        self.pc = self.pc + 2;
    }

    /// (8xy1) Bitwise OR.
    fn opcode_or(&mut self)
        requires
            old(self).wf(),
            old(self).pc + 2 <= usize::MAX,
        ensures
            final(self).wf(),
            spec_or(*old(self), *final(self)),
    {
        let x = x_of(self.opcode);
        let y = y_of(self.opcode);
        let vy = self.v_reg[y];
        self.v_reg[x] = self.v_reg[x] | vy;
        self.pc = self.pc + 2;
    }

    /// (8xy2) Bitwise AND.
    fn opcode_and(&mut self)
        requires
            old(self).wf(),
            old(self).pc + 2 <= usize::MAX,
        ensures
            final(self).wf(),
            spec_and(*old(self), *final(self)),
    {
        let x = x_of(self.opcode);
        let y = y_of(self.opcode);
        let vy = self.v_reg[y];
        self.v_reg[x] = self.v_reg[x] & vy;
        self.pc = self.pc + 2;
    }

    /// (8xy3) Bitwise XOR.
    fn opcode_xor(&mut self)
        requires
            old(self).wf(),
            old(self).pc + 2 <= usize::MAX,
        ensures
            final(self).wf(),
            spec_xor(*old(self), *final(self)),
    {
        let x = x_of(self.opcode);
        let y = y_of(self.opcode);
        let vy = self.v_reg[y];
        self.v_reg[x] = self.v_reg[x] ^ vy;
        self.pc = self.pc + 2;
    }

    /// (8xy4) Add Vy to Vx; VF holds 1 exactly when the 8-bit addition
    /// overflows.
    fn opcode_add(&mut self)
        requires
            old(self).wf(),
            old(self).pc + 2 <= usize::MAX,
        ensures
            final(self).wf(),
            spec_add_vy(*old(self), *final(self)),
    {
        let x = x_of(self.opcode);
        let y = y_of(self.opcode);
        let vx = self.v_reg[x];
        let vy = self.v_reg[y];
        let flag: u8 = if vx as u16 + vy as u16 > 255 {
            1
        } else {
            0
        };
        self.v_reg[0xF] = flag;
        self.v_reg[x] = vx.wrapping_add(vy);
        self.pc = self.pc + 2;
    }

    /// (8xy5) Set Vx to Vx - Vy; VF holds 1 exactly when no borrow occurs.
    fn opcode_sub(&mut self)
        requires
            old(self).wf(),
            old(self).pc + 2 <= usize::MAX,
        ensures
            final(self).wf(),
            spec_sub_vy(*old(self), *final(self)),
    {
        let x = x_of(self.opcode);
        let y = y_of(self.opcode);
        let vx = self.v_reg[x];
        let vy = self.v_reg[y];
        let flag: u8 = if vx >= vy {
            1
        } else {
            0
        };
        self.v_reg[0xF] = flag;
        self.v_reg[x] = vx.wrapping_sub(vy);
        self.pc = self.pc + 2;
    }

    /// (8xy6) Right shift: VF takes the pre-shift least-significant bit.
    fn opcode_shr(&mut self)
        requires
            old(self).wf(),
            old(self).pc + 2 <= usize::MAX,
        ensures
            final(self).wf(),
            spec_shr(*old(self), *final(self)),
    {
        let x = x_of(self.opcode);
        let lsb = self.v_reg[x] & 0x01;
        self.v_reg[0xF] = lsb;
        let cur = self.v_reg[x];
        self.v_reg[x] = cur >> 1u8;
        self.pc = self.pc + 2;
    }

    /// (8xy7) Set Vx to Vy - Vx; VF holds 1 exactly when no borrow occurs.
    fn opcode_subn(&mut self)
        requires
            old(self).wf(),
            old(self).pc + 2 <= usize::MAX,
        ensures
            final(self).wf(),
            spec_subn(*old(self), *final(self)),
    {
        let x = x_of(self.opcode);
        let y = y_of(self.opcode);
        let vx = self.v_reg[x];
        let vy = self.v_reg[y];
        let flag: u8 = if vy >= vx {
            1
        } else {
            0
        };
        self.v_reg[0xF] = flag;
        self.v_reg[x] = vy.wrapping_sub(vx);
        self.pc = self.pc + 2;
    }

    /// (8xyE) Left shift: VF takes Vx & 0x80, the pre-shift most-significant
    /// bit, not normalized to 0/1.
    fn opcode_shl(&mut self)
        requires
            old(self).wf(),
            old(self).pc + 2 <= usize::MAX,
        ensures
            final(self).wf(),
            spec_shl(*old(self), *final(self)),
    {
        let x = x_of(self.opcode);
        let msb = self.v_reg[x] & 0x80;
        self.v_reg[0xF] = msb;
        let cur = self.v_reg[x];
        self.v_reg[x] = cur << 1u8;
        self.pc = self.pc + 2;
    }

    /// (9xy0) Skip the next instruction if Vx != Vy.
    fn opcode_sne(&mut self)
        requires
            old(self).wf(),
            old(self).pc + 4 <= usize::MAX,
        ensures
            final(self).wf(),
            spec_sne_vx(*old(self), *final(self)),
    {
        let x = x_of(self.opcode);
        let y = y_of(self.opcode);
        let vx = self.v_reg[x];
        let vy = self.v_reg[y];
        if vx != vy {
            self.pc = self.pc + 2;
        }
        self.pc = self.pc + 2;
    }

    /// (Annn) Set the address register to nnn.
    fn opcode_ld(&mut self)
        requires
            old(self).wf(),
            old(self).pc + 2 <= usize::MAX,
        ensures
            final(self).wf(),
            spec_ld_i(*old(self), *final(self)),
    {
        self.i_addr = nnn_of(self.opcode);
        self.pc = self.pc + 2;
    }

    /// (Bnnn) Jump to nnn + V0.
    fn opcode_jp_v0(&mut self)
        requires
            old(self).wf(),
        ensures
            final(self).wf(),
            spec_jp_v0(*old(self), *final(self)),
    {
        self.pc = nnn_of(self.opcode);
        self.pc = self.pc + (self.v_reg[0] as usize);
    }

    /// (Cxkk) Store a random byte masked with kk in Vx.
    fn opcode_rnd(&mut self)
        requires
            old(self).wf(),
            old(self).pc + 2 <= usize::MAX,
        ensures
            final(self).wf(),
            spec_rnd(*old(self), *final(self)),
    {
        let random_num: u8 = random_byte();
        let x = x_of(self.opcode);
        let kk = kk_of(self.opcode);
        self.v_reg[x] = random_num & kk;
        self.pc = self.pc + 2;
    }

    /// (Ex9E) Skip the next instruction if the key named by Vx is pressed.
    fn opcode_skp(&mut self) -> (r: Result<(), CpuError>)
        requires
            old(self).wf(),
            is_skp(old(self).opcode),
            old(self).pc + 4 <= usize::MAX,
        ensures
            final(self).wf(),
            match r {
                Ok(()) => !key_oob(*old(self)) && spec_skp(*old(self), *final(self)),
                Err(e) => {
                    &&& e == CpuError::KeypadOutOfRange
                    &&& key_oob(*old(self))
                    &&& *final(self) == *old(self)
                },
            },
    {
        let x = x_of(self.opcode);
        let vx = self.v_reg[x];
        if vx >= 16 {
            return Err(CpuError::KeypadOutOfRange);
        }
        if self.keypad[vx as usize] == 1 {
            self.pc = self.pc + 2;
        }
        self.pc = self.pc + 2;
        Ok(())
    }

    /// (ExA1) Skip the next instruction if the key named by Vx is not
    /// pressed.
    fn opcode_sknp(&mut self) -> (r: Result<(), CpuError>)
        requires
            old(self).wf(),
            is_sknp(old(self).opcode),
            old(self).pc + 4 <= usize::MAX,
        ensures
            final(self).wf(),
            match r {
                Ok(()) => !key_oob(*old(self)) && spec_sknp(*old(self), *final(self)),
                Err(e) => {
                    &&& e == CpuError::KeypadOutOfRange
                    &&& key_oob(*old(self))
                    &&& *final(self) == *old(self)
                },
            },
    {
        let x = x_of(self.opcode);
        let vx = self.v_reg[x];
        if vx >= 16 {
            return Err(CpuError::KeypadOutOfRange);
        }
        if self.keypad[vx as usize] == 0 {
            self.pc = self.pc + 2;
        }
        self.pc = self.pc + 2;
        Ok(())
    }

    /// (Fx07) Set Vx to the delay timer.
    fn opcode_get_dt(&mut self)
        requires
            old(self).wf(),
            old(self).pc + 2 <= usize::MAX,
        ensures
            final(self).wf(),
            spec_get_dt(*old(self), *final(self)),
    {
        let x = x_of(self.opcode);
        self.v_reg[x] = self.delay_timer;
        self.pc = self.pc + 2;
    }

    /// (Fx0A) Wait for a key press. Deliberately a stub: the program
    /// counter advances without consulting any key state.
    fn opcode_waitkey(&mut self)
        requires
            old(self).wf(),
            old(self).pc + 2 <= usize::MAX,
        ensures
            final(self).wf(),
            spec_waitkey(*old(self), *final(self)),
    {
        self.pc = self.pc + 2;
    }

    /// (Fx15) Set the delay timer to Vx.
    fn opcode_set_dt(&mut self)
        requires
            old(self).wf(),
            old(self).pc + 2 <= usize::MAX,
        ensures
            final(self).wf(),
            spec_set_dt(*old(self), *final(self)),
    {
        let x = x_of(self.opcode);
        self.delay_timer = self.v_reg[x];
        self.pc = self.pc + 2;
    }

    /// (Fx18) Set the sound timer to Vx.
    fn opcode_set_st(&mut self)
        requires
            old(self).wf(),
            old(self).pc + 2 <= usize::MAX,
        ensures
            final(self).wf(),
            spec_set_st(*old(self), *final(self)),
    {
        let x = x_of(self.opcode);
        self.sound_timer = self.v_reg[x];
        self.pc = self.pc + 2;
    }

    /// (Fx1E) I = I + Vx.
    fn opcode_add_i(&mut self)
        requires
            old(self).wf(),
            old(self).pc + 2 <= usize::MAX,
            old(self).i_addr + old(self).v_reg@[crate::opcode::op_x(old(self).opcode) as int]
                <= usize::MAX,
        ensures
            final(self).wf(),
            spec_add_i(*old(self), *final(self)),
    {
        let x = x_of(self.opcode);
        self.i_addr = self.i_addr + (self.v_reg[x] as usize);
        self.pc = self.pc + 2;
    }

    /// (Fx29) Point the address register at the font sprite for digit Vx:
    /// five bytes per digit from the bottom of memory.
    fn opcode_set_sprite(&mut self)
        requires
            old(self).wf(),
            old(self).pc + 2 <= usize::MAX,
        ensures
            final(self).wf(),
            spec_set_sprite(*old(self), *final(self)),
    {
        let x = x_of(self.opcode);
        self.i_addr = (self.v_reg[x] as usize) * 5;
        self.pc = self.pc + 2;
    }

    /// (Fx33) Store the decimal digits of Vx, hundreds first, at
    /// memory[I..I+3].
    fn opcode_bcd_vx(&mut self) -> (r: Result<(), CpuError>)
        requires
            old(self).wf(),
            is_bcd(old(self).opcode),
            old(self).pc + 2 <= usize::MAX,
        ensures
            final(self).wf(),
            match r {
                Ok(()) => !mem_oob(*old(self)) && spec_bcd(*old(self), *final(self)),
                Err(e) => {
                    &&& e == CpuError::MemoryOutOfRange
                    &&& mem_oob(*old(self))
                    &&& *final(self) == *old(self)
                },
            },
    {
        proof {
            crate::opcode::lemma_second_level_masks(self.opcode);
        }
        if self.i_addr > MEMORY_SIZE - 3 {
            return Err(CpuError::MemoryOutOfRange);
        }
        let x = x_of(self.opcode);
        let vx = self.v_reg[x];
        let hundreds = vx / 100;
        let tens = (vx / 10) % 10;
        let ones = vx % 10;
        let i = self.i_addr;
        self.memory[i] = hundreds;
        self.memory[i + 1] = tens;
        self.memory[i + 2] = ones;
        self.pc = self.pc + 2;
        Ok(())
    }

    /// (Fx55) Store V0..Vx inclusive at memory[I..].
    #[verifier::loop_isolation(false)]
    fn opcode_store_vx(&mut self) -> (r: Result<(), CpuError>)
        requires
            old(self).wf(),
            is_store(old(self).opcode),
            old(self).pc + 2 <= usize::MAX,
        ensures
            final(self).wf(),
            match r {
                Ok(()) => !mem_oob(*old(self)) && spec_store(*old(self), *final(self)),
                Err(e) => {
                    &&& e == CpuError::MemoryOutOfRange
                    &&& mem_oob(*old(self))
                    &&& *final(self) == *old(self)
                },
            },
    {
        proof {
            crate::opcode::lemma_second_level_masks(self.opcode);
        }
        let x = x_of(self.opcode);
        if self.i_addr >= MEMORY_SIZE - x {
            return Err(CpuError::MemoryOutOfRange);
        }
        let i_addr = self.i_addr;
        let mut j: usize = 0;
        while j <= x
            invariant
                j <= x + 1,
                self.memory@.len() == old(self).memory@.len(),
                crate::semantics::only_pc_memory(*old(self), *self),
                crate::semantics::same_pc(*old(self), *self),
                forall|m: int| 0 <= m < j ==> self.memory@[i_addr + m] == old(self).v_reg@[m],
                forall|m: int|
                    0 <= m < old(self).memory@.len() && !(i_addr <= m < i_addr + j)
                        ==> self.memory@[m] == old(self).memory@[m],
            decreases x + 1 - j,
        {
            self.memory[i_addr + j] = self.v_reg[j];
            j = j + 1;
        }
        self.pc = self.pc + 2;
        Ok(())
    }

    /// (Fx65) Fill V0..Vx inclusive from memory[I..].
    #[verifier::loop_isolation(false)]
    fn opcode_read_vx(&mut self) -> (r: Result<(), CpuError>)
        requires
            old(self).wf(),
            is_read(old(self).opcode),
            old(self).pc + 2 <= usize::MAX,
        ensures
            final(self).wf(),
            match r {
                Ok(()) => !mem_oob(*old(self)) && spec_read(*old(self), *final(self)),
                Err(e) => {
                    &&& e == CpuError::MemoryOutOfRange
                    &&& mem_oob(*old(self))
                    &&& *final(self) == *old(self)
                },
            },
    {
        proof {
            crate::opcode::lemma_second_level_masks(self.opcode);
        }
        let x = x_of(self.opcode);
        if self.i_addr >= MEMORY_SIZE - x {
            return Err(CpuError::MemoryOutOfRange);
        }
        let i_addr = self.i_addr;
        let mut j: usize = 0;
        while j <= x
            invariant
                j <= x + 1,
                self.v_reg@.len() == old(self).v_reg@.len(),
                crate::semantics::only_pc_v(*old(self), *self),
                crate::semantics::same_pc(*old(self), *self),
                forall|m: int| 0 <= m < j ==> self.v_reg@[m] == old(self).memory@[i_addr + m],
                forall|m: int| j <= m < 16 ==> self.v_reg@[m] == old(self).v_reg@[m],
            decreases x + 1 - j,
        {
            self.v_reg[j] = self.memory[i_addr + j];
            j = j + 1;
        }
        self.pc = self.pc + 2;
        Ok(())
    }
    /// (Dxyn) Draw the n-row sprite at memory[I..I+n] at (Vx, Vy),
    /// XOR-blending each bit onto its wrapped target pixel and collecting
    /// the collision flag in VF.
    #[verifier::loop_isolation(false)]
    #[verifier::rlimit(60)]
    fn opcode_drw(&mut self) -> (r: Result<(), CpuError>)
        requires
            old(self).wf(),
            old(self).display_wf(),
            is_drw(old(self).opcode),
            old(self).pc + 2 <= usize::MAX,
        ensures
            final(self).wf(),
            final(self).display_wf(),
            match r {
                Ok(()) => {
                    &&& !mem_oob(*old(self))
                    &&& !disp_oob(*old(self))
                    &&& spec_drw(*old(self), *final(self))
                },
                Err(e) => {
                    &&& *final(self) == *old(self)
                    &&& ((e == CpuError::MemoryOutOfRange && mem_oob(*old(self))) || (e
                        == CpuError::DisplayOutOfRange && !mem_oob(*old(self)) && disp_oob(
                        *old(self),
                    )))
                },
            },
    {
        proof {
            crate::opcode::lemma_second_level_masks(self.opcode);
        }
        let x = x_of(self.opcode);
        let y = y_of(self.opcode);
        let n = n_of(self.opcode);
        let sx = self.v_reg[x] as usize;
        let sy = self.v_reg[y] as usize;

        if n > 0 {
            if self.i_addr > MEMORY_SIZE - n {
                return Err(CpuError::MemoryOutOfRange);
            }
            if sx + 64 * sy + 64 * (n - 1) + 7 > 4031 {
                return Err(CpuError::DisplayOutOfRange);
            }
        }
        let starting_pixel = sx + sy * 64;
        self.v_reg[0xF] = 0;

        let ghost d0 = old(self).display@;
        let ghost mem0 = old(self).memory@;
        let ghost ia = old(self).i_addr as int;
        let ghost sxi = sx as int;
        let ghost syi = sy as int;
        let i_addr = self.i_addr;

        let mut row: usize = 0;
        while row < n
            invariant
                row <= n,
                self.wf(),
                self.display_wf(),
                crate::semantics::only_pc_v_display(*old(self), *self),
                crate::semantics::same_pc(*old(self), *self),
                self.display@ == drawn(d0, mem0, ia, sxi, syi, (8 * row) as nat),
                self.v_reg@ == old(self).v_reg@.update(
                    0xF,
                    if draw_hit(d0, mem0, ia, sxi, syi, (8 * row) as nat) {
                        1u8
                    } else {
                        0u8
                    },
                ),
            decreases n - row,
        {
            let sprite_row = self.memory[i_addr + row];
            let mut col: usize = 0;
            while col < 8
                invariant
                    col <= 8,
                    row < n,
                    self.wf(),
                    self.display_wf(),
                    crate::semantics::only_pc_v_display(*old(self), *self),
                    crate::semantics::same_pc(*old(self), *self),
                    self.display@ == drawn(d0, mem0, ia, sxi, syi, (8 * row + col) as nat),
                    self.v_reg@ == old(self).v_reg@.update(
                        0xF,
                        if draw_hit(d0, mem0, ia, sxi, syi, (8 * row + col) as nat) {
                            1u8
                        } else {
                            0u8
                        },
                    ),
                decreases 8 - col,
            {
                let colb = col as u8;
                let sprite_pixel: u8 = if (sprite_row & (0x80u8 >> colb)) == 0 {
                    0
                } else {
                    1
                };

                let mut target_pixel_index = starting_pixel + (row * 64 + col);
                if target_pixel_index > 2047 {
                    target_pixel_index = target_pixel_index - 64 * 31;
                }
                if sx + col >= 64 {
                    target_pixel_index = target_pixel_index - 64;
                }

                proof {
                    let ri = row as int;
                    let ci = col as int;
                    assert((8 * ri + ci) / 8 == ri && (8 * ri + ci) % 8 == ci) by (nonlinear_arith)
                        requires
                            0 <= ri && 0 <= ci && ci < 8;
                    assert(target_pixel_index == draw_target(sxi, syi, row as int, col as int));
                    assert(px_wf(self.display@, target_pixel_index as int));
                }
                let on_now = self.get_pixel(target_pixel_index);
                if on_now == 1 {
                    self.v_reg[0xF] = 1;
                }
                self.xor_pixel(target_pixel_index, sprite_pixel);
                proof {
                    let k1 = (8 * row + col + 1) as nat;
                    assert(self.v_reg@ =~= old(self).v_reg@.update(
                        0xF,
                        if draw_hit(d0, mem0, ia, sxi, syi, k1) {
                            1u8
                        } else {
                            0u8
                        },
                    ));
                }
                col = col + 1;
            }
            row = row + 1;
        }
        self.pc = self.pc + 2;
        Ok(())
    }

    /// Dispatch the current opcode and execute it. On success the machine
    /// steps by that instruction's semantics; otherwise the machine is left
    /// unchanged and the fatal condition is reported, exactly one per
    /// cause.
    pub fn decode_opcode(&mut self) -> (r: Result<(), CpuError>)
        requires
            step_ready(*old(self)),
        ensures
            final(self).wf(),
            old(self).display_wf() ==> final(self).display_wf(),
            match r {
                Ok(()) => !step_refused(*old(self)) && step_effect(*old(self), *final(self)),
                Err(e) => *final(self) == *old(self) && match e {
                    CpuError::UnknownOpcode { opcode, pc } => {
                        &&& !op_known(old(self).opcode)
                        &&& opcode == old(self).opcode
                        &&& pc == old(self).pc
                    },
                    CpuError::StackUnderflow => ret_underflow(*old(self)),
                    CpuError::StackOverflow => call_overflow(*old(self)),
                    CpuError::MemoryOutOfRange => mem_oob(*old(self)),
                    CpuError::DisplayOutOfRange => !mem_oob(*old(self)) && disp_oob(
                        *old(self),
                    ),
                    CpuError::KeypadOutOfRange => key_oob(*old(self)),
                },
            },
    {
        proof {
            crate::opcode::lemma_second_level_masks(self.opcode);
        }
        let op = self.opcode;
        match op & 0xF000 {
            0x0000 => match op & 0x00FF {
                0x00E0 => {
                    self.opcode_cls();
                    proof {
                        lemma_blank_display_wf();
                    }
                    Ok(())
                },
                0x00EE => self.opcode_ret(),
                _ => Err(CpuError::UnknownOpcode { opcode: op, pc: self.pc }),
            },
            0x1000 => {
                self.opcode_jp();
                Ok(())
            },
            0x2000 => self.opcode_call(),
            0x3000 => {
                self.opcode_se_byte();
                Ok(())
            },
            0x4000 => {
                self.opcode_sne_byte();
                Ok(())
            },
            0x5000 => {
                self.opcode_se_vx();
                Ok(())
            },
            0x6000 => {
                self.opcode_ld_byte();
                Ok(())
            },
            0x7000 => {
                self.opcode_add_byte();
                Ok(())
            },
            0x8000 => match op & 0x000F {
                0x0000 => {
                    self.opcode_ld_vy();
                    Ok(())
                },
                0x0001 => {
                    self.opcode_or();
                    Ok(())
                },
                0x0002 => {
                    self.opcode_and();
                    Ok(())
                },
                0x0003 => {
                    self.opcode_xor();
                    Ok(())
                },
                0x0004 => {
                    self.opcode_add();
                    Ok(())
                },
                0x0005 => {
                    self.opcode_sub();
                    Ok(())
                },
                0x0006 => {
                    self.opcode_shr();
                    Ok(())
                },
                0x0007 => {
                    self.opcode_subn();
                    Ok(())
                },
                0x000E => {
                    self.opcode_shl();
                    Ok(())
                },
                _ => Err(CpuError::UnknownOpcode { opcode: op, pc: self.pc }),
            },
            0x9000 => {
                self.opcode_sne();
                Ok(())
            },
            0xA000 => {
                self.opcode_ld();
                Ok(())
            },
            0xB000 => {
                self.opcode_jp_v0();
                Ok(())
            },
            0xC000 => {
                self.opcode_rnd();
                Ok(())
            },
            0xD000 => self.opcode_drw(),
            0xE000 => match op & 0xF0FF {
                0xE09E => self.opcode_skp(),
                0xE0A1 => self.opcode_sknp(),
                _ => Err(CpuError::UnknownOpcode { opcode: op, pc: self.pc }),
            },
            0xF000 => match op & 0xF0FF {
                0xF007 => {
                    self.opcode_get_dt();
                    Ok(())
                },
                0xF00A => {
                    self.opcode_waitkey();
                    Ok(())
                },
                0xF015 => {
                    self.opcode_set_dt();
                    Ok(())
                },
                0xF018 => {
                    self.opcode_set_st();
                    Ok(())
                },
                0xF01E => {
                    self.opcode_add_i();
                    Ok(())
                },
                0xF029 => {
                    self.opcode_set_sprite();
                    Ok(())
                },
                0xF033 => self.opcode_bcd_vx(),
                0xF055 => self.opcode_store_vx(),
                0xF065 => self.opcode_read_vx(),
                _ => Err(CpuError::UnknownOpcode { opcode: op, pc: self.pc }),
            },
            _ => Err(CpuError::UnknownOpcode { opcode: op, pc: self.pc }),
        }
    }

    /// One full cycle: fetch the opcode at the program counter, execute it,
    /// and tick the timers. On a fatal condition the freshly fetched opcode
    /// stays in place, nothing else changes, the timers do not tick, and
    /// the error is reported.
    pub fn emulate_cycle(&mut self) -> (r: Result<(), CpuError>)
        requires
            old(self).wf(),
            old(self).display_wf(),
            old(self).pc + 1 < MEMORY_SIZE,
            old(self).i_addr + 255 <= usize::MAX,
            old(self).sp > 0 ==> old(self).stack@[old(self).sp - 1] + 2 <= usize::MAX,
        ensures
            final(self).wf(),
            final(self).display_wf(),
            ({
                let fetched = merged_opcode(
                    old(self).memory@[old(self).pc as int],
                    old(self).memory@[old(self).pc + 1],
                );
                match r {
                    Ok(()) => exists|mid: CPU, stepped: CPU|
                        {
                            &&& only_opcode(*old(self), mid)
                            &&& mid.opcode == fetched
                            &&& !step_refused(mid)
                            &&& step_effect(mid, stepped)
                            &&& only_timers(stepped, *final(self))
                            &&& final(self).delay_timer == ticked(stepped.delay_timer)
                            &&& final(self).sound_timer == ticked(stepped.sound_timer)
                        },
                    Err(e) => {
                        &&& only_opcode(*old(self), *final(self))
                        &&& final(self).opcode == fetched
                        &&& match e {
                            CpuError::UnknownOpcode { opcode, pc } => {
                                &&& !op_known(fetched)
                                &&& opcode == fetched
                                &&& pc == old(self).pc
                            },
                            CpuError::StackUnderflow => ret_underflow(*final(self)),
                            CpuError::StackOverflow => call_overflow(*final(self)),
                            CpuError::MemoryOutOfRange => mem_oob(*final(self)),
                            CpuError::DisplayOutOfRange => !mem_oob(*final(self)) && disp_oob(
                                *final(self),
                            ),
                            CpuError::KeypadOutOfRange => key_oob(*final(self)),
                        }
                    },
                }
            }),
    {
        self.fetch_opcode();
        let ghost mid = *self;
        let step_result = self.decode_opcode();
        match step_result {
            Ok(()) => {
                let ghost stepped = *self;
                self.update_timers();
                proof {
                    assert(only_opcode(*old(self), mid) && !step_refused(mid) && step_effect(
                        mid,
                        stepped,
                    ) && only_timers(stepped, *self) && self.delay_timer == ticked(
                        stepped.delay_timer,
                    ) && self.sound_timer == ticked(stepped.sound_timer));
                }
                Ok(())
            },
            Err(e) => Err(e),
        }
    }
}

} // verus!
