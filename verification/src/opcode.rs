//! Decomposition of a 16-bit opcode into the fields the instruction set
//! addresses: register selectors `x` and `y`, the low nibble `n`, the low
//! byte `kk`, and the 12-bit address `nnn`.

use vstd::prelude::*;

verus! {

/// Register selector `x`: bits 8..12 of the opcode.
pub open spec fn op_x(op: u16) -> u16 {
    (op & 0x0F00) >> 8
}

/// Register selector `y`: bits 4..8 of the opcode.
pub open spec fn op_y(op: u16) -> u16 {
    (op & 0x00F0) >> 4
}

/// Low nibble `n`: bits 0..4 of the opcode.
pub open spec fn op_n(op: u16) -> u16 {
    op & 0x000F
}

/// Low byte `kk`: bits 0..8 of the opcode.
pub open spec fn op_kk(op: u16) -> u8 {
    (op & 0x00FF) as u8
}

/// Address field `nnn`: bits 0..12 of the opcode.
pub open spec fn op_nnn(op: u16) -> u16 {
    op & 0x0FFF
}

/// Two consecutive memory bytes merged big-endian into one opcode.
pub open spec fn merged_opcode(hi: u8, lo: u8) -> u16 {
    ((hi as u16) << 8) | (lo as u16)
}

/// The ranges the opcode fields fall in, which register and memory indexing
/// depend on.
pub proof fn lemma_op_field_bounds(op: u16)
    ensures
        op_x(op) < 16,
        op_y(op) < 16,
        op_n(op) < 16,
        op_nnn(op) < 0x1000,
{
    assert((op & 0x0F00) >> 8 < 16 && (op & 0x00F0) >> 4 < 16 && (op & 0x000F) < 16 && (op
        & 0x0FFF) < 0x1000) by (bit_vector);
}

/// Extract the `x` register selector.
pub fn x_of(op: u16) -> (r: usize)
    ensures
        r == op_x(op),
        r < 16,
{
    proof {
        lemma_op_field_bounds(op);
    }
    ((op & 0x0F00) >> 8) as usize
}

/// Extract the `y` register selector.
pub fn y_of(op: u16) -> (r: usize)
    ensures
        r == op_y(op),
        r < 16,
{
    proof {
        lemma_op_field_bounds(op);
    }
    ((op & 0x00F0) >> 4) as usize
}

/// Extract the low nibble `n`.
pub fn n_of(op: u16) -> (r: usize)
    ensures
        r == op_n(op),
        r < 16,
{
    proof {
        lemma_op_field_bounds(op);
    }
    (op & 0x000F) as usize
}

/// Extract the low byte `kk`.
pub fn kk_of(op: u16) -> (r: u8)
    ensures
        r == op_kk(op),
{
    (op & 0x00FF) as u8
}

/// Extract the address field `nnn`.
pub fn nnn_of(op: u16) -> (r: usize)
    ensures
        r == op_nnn(op),
        r < 0x1000,
{
    proof {
        lemma_op_field_bounds(op);
    }
    (op & 0x0FFF) as usize
}


// ---- Instruction classification ----
// The opcode space is partitioned by the top nibble; the 0x0, 0x8, 0xE and
// 0xF groups dispatch a second time on the low byte or low nibble.
pub open spec fn is_cls(op: u16) -> bool {
    op & 0xF000 == 0x0000 && op & 0x00FF == 0x00E0
}

pub open spec fn is_ret(op: u16) -> bool {
    op & 0xF000 == 0x0000 && op & 0x00FF == 0x00EE
}

pub open spec fn is_jp(op: u16) -> bool {
    op & 0xF000 == 0x1000
}

pub open spec fn is_call(op: u16) -> bool {
    op & 0xF000 == 0x2000
}

pub open spec fn is_se_byte(op: u16) -> bool {
    op & 0xF000 == 0x3000
}

pub open spec fn is_sne_byte(op: u16) -> bool {
    op & 0xF000 == 0x4000
}

pub open spec fn is_se_vx(op: u16) -> bool {
    op & 0xF000 == 0x5000
}

pub open spec fn is_ld_byte(op: u16) -> bool {
    op & 0xF000 == 0x6000
}

pub open spec fn is_add_byte(op: u16) -> bool {
    op & 0xF000 == 0x7000
}

pub open spec fn is_ld_vy(op: u16) -> bool {
    op & 0xF000 == 0x8000 && op & 0x000F == 0x0000
}

pub open spec fn is_or(op: u16) -> bool {
    op & 0xF000 == 0x8000 && op & 0x000F == 0x0001
}

pub open spec fn is_and(op: u16) -> bool {
    op & 0xF000 == 0x8000 && op & 0x000F == 0x0002
}

pub open spec fn is_xor(op: u16) -> bool {
    op & 0xF000 == 0x8000 && op & 0x000F == 0x0003
}

pub open spec fn is_add_vy(op: u16) -> bool {
    op & 0xF000 == 0x8000 && op & 0x000F == 0x0004
}

pub open spec fn is_sub_vy(op: u16) -> bool {
    op & 0xF000 == 0x8000 && op & 0x000F == 0x0005
}

pub open spec fn is_shr(op: u16) -> bool {
    op & 0xF000 == 0x8000 && op & 0x000F == 0x0006
}

pub open spec fn is_subn(op: u16) -> bool {
    op & 0xF000 == 0x8000 && op & 0x000F == 0x0007
}

pub open spec fn is_shl(op: u16) -> bool {
    op & 0xF000 == 0x8000 && op & 0x000F == 0x000E
}

pub open spec fn is_sne_vx(op: u16) -> bool {
    op & 0xF000 == 0x9000
}

pub open spec fn is_ld_i(op: u16) -> bool {
    op & 0xF000 == 0xA000
}

pub open spec fn is_jp_v0(op: u16) -> bool {
    op & 0xF000 == 0xB000
}

pub open spec fn is_rnd(op: u16) -> bool {
    op & 0xF000 == 0xC000
}

pub open spec fn is_drw(op: u16) -> bool {
    op & 0xF000 == 0xD000
}

pub open spec fn is_skp(op: u16) -> bool {
    op & 0xF0FF == 0xE09E
}

pub open spec fn is_sknp(op: u16) -> bool {
    op & 0xF0FF == 0xE0A1
}

pub open spec fn is_get_dt(op: u16) -> bool {
    op & 0xF0FF == 0xF007
}

pub open spec fn is_waitkey(op: u16) -> bool {
    op & 0xF0FF == 0xF00A
}

pub open spec fn is_set_dt(op: u16) -> bool {
    op & 0xF0FF == 0xF015
}

pub open spec fn is_set_st(op: u16) -> bool {
    op & 0xF0FF == 0xF018
}

pub open spec fn is_add_i(op: u16) -> bool {
    op & 0xF0FF == 0xF01E
}

pub open spec fn is_set_sprite(op: u16) -> bool {
    op & 0xF0FF == 0xF029
}

pub open spec fn is_bcd(op: u16) -> bool {
    op & 0xF0FF == 0xF033
}

pub open spec fn is_store(op: u16) -> bool {
    op & 0xF0FF == 0xF055
}

pub open spec fn is_read(op: u16) -> bool {
    op & 0xF0FF == 0xF065
}

/// What a second-level dispatch pattern forces of the top nibble: the
/// masks with 0xF0FF pin it, so patterns from different groups cannot
/// overlap.
pub proof fn lemma_second_level_masks(op: u16)
    ensures
        op & 0xF0FF == 0xE09E ==> op & 0xF000 == 0xE000,
        op & 0xF0FF == 0xE0A1 ==> op & 0xF000 == 0xE000,
        op & 0xF0FF == 0xF007 ==> op & 0xF000 == 0xF000,
        op & 0xF0FF == 0xF00A ==> op & 0xF000 == 0xF000,
        op & 0xF0FF == 0xF015 ==> op & 0xF000 == 0xF000,
        op & 0xF0FF == 0xF018 ==> op & 0xF000 == 0xF000,
        op & 0xF0FF == 0xF01E ==> op & 0xF000 == 0xF000,
        op & 0xF0FF == 0xF029 ==> op & 0xF000 == 0xF000,
        op & 0xF0FF == 0xF033 ==> op & 0xF000 == 0xF000,
        op & 0xF0FF == 0xF055 ==> op & 0xF000 == 0xF000,
        op & 0xF0FF == 0xF065 ==> op & 0xF000 == 0xF000,
{
    assert((op & 0xF0FF == 0xE09E ==> op & 0xF000 == 0xE000) && (op & 0xF0FF == 0xE0A1 ==> op
        & 0xF000 == 0xE000) && (op & 0xF0FF == 0xF007 ==> op & 0xF000 == 0xF000) && (op & 0xF0FF
        == 0xF00A ==> op & 0xF000 == 0xF000) && (op & 0xF0FF == 0xF015 ==> op & 0xF000 == 0xF000)
        && (op & 0xF0FF == 0xF018 ==> op & 0xF000 == 0xF000) && (op & 0xF0FF == 0xF01E ==> op
        & 0xF000 == 0xF000) && (op & 0xF0FF == 0xF029 ==> op & 0xF000 == 0xF000) && (op & 0xF0FF
        == 0xF033 ==> op & 0xF000 == 0xF000) && (op & 0xF0FF == 0xF055 ==> op & 0xF000 == 0xF000)
        && (op & 0xF0FF == 0xF065 ==> op & 0xF000 == 0xF000)) by (bit_vector);
}

/// The opcode matches one of the 35 defined instruction patterns.
pub open spec fn op_known(op: u16) -> bool {
    ||| is_cls(op)
    ||| is_ret(op)
    ||| is_jp(op)
    ||| is_call(op)
    ||| is_se_byte(op)
    ||| is_sne_byte(op)
    ||| is_se_vx(op)
    ||| is_ld_byte(op)
    ||| is_add_byte(op)
    ||| is_ld_vy(op)
    ||| is_or(op)
    ||| is_and(op)
    ||| is_xor(op)
    ||| is_add_vy(op)
    ||| is_sub_vy(op)
    ||| is_shr(op)
    ||| is_subn(op)
    ||| is_shl(op)
    ||| is_sne_vx(op)
    ||| is_ld_i(op)
    ||| is_jp_v0(op)
    ||| is_rnd(op)
    ||| is_drw(op)
    ||| is_skp(op)
    ||| is_sknp(op)
    ||| is_get_dt(op)
    ||| is_waitkey(op)
    ||| is_set_dt(op)
    ||| is_set_st(op)
    ||| is_add_i(op)
    ||| is_set_sprite(op)
    ||| is_bcd(op)
    ||| is_store(op)
    ||| is_read(op)
}

} // verus!

