//! The host keys that drive the hexadecimal keypad. The historical keypad is
//! a 4x4 block of sixteen keys; the host keyboard's `1234` / `QWER` / `ASDF`
//! / `ZXCV` block stands in for it, and every other key is ignored.

use vstd::prelude::*;

verus! {

/// A key of the host keyboard: the sixteen keys of the mapped 4x4 block,
/// plus one variant standing for any key outside it.
#[derive(Clone, Copy, PartialEq, Eq, Structural, Debug)]
pub enum Key {
    Num1,
    Num2,
    Num3,
    Num4,
    Q,
    W,
    E,
    R,
    A,
    S,
    D,
    F,
    Z,
    X,
    C,
    V,
    /// Any key outside the mapped 4x4 block.
    Other,
}

/// The fixed keyboard-to-keypad table: which hexadecimal key slot a host key
/// stands for, or `None` for an unmapped key.
pub open spec fn key_hex(key: Key) -> Option<u8> {
    match key {
        Key::Num1 => Some(0x1),
        Key::Num2 => Some(0x2),
        Key::Num3 => Some(0x3),
        Key::Num4 => Some(0xC),
        Key::Q => Some(0x4),
        Key::W => Some(0x5),
        Key::E => Some(0x6),
        Key::R => Some(0xD),
        Key::A => Some(0x7),
        Key::S => Some(0x8),
        Key::D => Some(0x9),
        Key::F => Some(0xE),
        Key::Z => Some(0xA),
        Key::X => Some(0x0),
        Key::C => Some(0xB),
        Key::V => Some(0xF),
        Key::Other => None,
    }
}

/// Every mapped key lands in one of the sixteen keypad slots.
pub proof fn lemma_key_hex_in_range(key: Key)
    ensures
        key_hex(key) matches Some(hex) ==> hex < 16,
{
}

} // verus!
