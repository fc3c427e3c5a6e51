//! The mathematical model of the 64x32 monochrome display. The framebuffer
//! is exported as one RGB triplet per logical pixel; a pixel is on when its
//! triplet holds 255 in every byte and off when it holds 0.

use vstd::prelude::*;

verus! {

/// Number of logical pixels on the display.
pub const PIXEL_COUNT: usize = 2048;

/// Whether logical pixel `i` is on: its first encoding byte holds 255.
pub open spec fn px_on(d: Seq<u8>, i: int) -> bool {
    d[3 * i] == 255
}

/// Pixel `i`'s triplet is a legal on/off encoding, all three bytes equal.
pub open spec fn px_wf(d: Seq<u8>, i: int) -> bool {
    &&& d[3 * i] == 0 || d[3 * i] == 255
    &&& d[3 * i + 1] == d[3 * i]
    &&& d[3 * i + 2] == d[3 * i]
}

/// The display with logical pixel `i` set to byte value `v` across all three
/// bytes of its triplet.
pub open spec fn px_set(d: Seq<u8>, i: int, v: u8) -> Seq<u8> {
    d.update(3 * i, v).update(3 * i + 1, v).update(3 * i + 2, v)
}

/// A fully dark framebuffer.
pub open spec fn blank_display() -> Seq<u8> {
    Seq::new(crate::DISPLAY_SIZE as nat, |i: int| 0u8)
}

/// A fully dark framebuffer is well formed: every pixel triplet holds the
/// legal off encoding.
pub proof fn lemma_blank_display_wf()
    ensures
        forall|i: int| 0 <= i < PIXEL_COUNT ==> #[trigger] px_wf(blank_display(), i),
{
    assert forall|i: int| 0 <= i < PIXEL_COUNT implies #[trigger] px_wf(blank_display(), i) by {
        assert(blank_display()[3 * i] == 0);
        assert(blank_display()[3 * i + 1] == 0);
        assert(blank_display()[3 * i + 2] == 0);
    }
}

/// The display index a sprite bit lands on, from the starting coordinates
/// `(x, y)` and the bit's position `(row, col)` within the sprite. Two
/// wraparound corrections apply in order: first, an index beyond the last
/// pixel of the grid is pulled back by 31 full rows; second, when the
/// starting column plus the bit's column reaches the right edge, the index
/// is pulled back by one row width, onto the start of the sprite's own row.
pub open spec fn draw_target(x: int, y: int, row: int, col: int) -> int {
    let direct = x + y * 64 + row * 64 + col;
    let wrapped = if direct > 2047 {
        direct - 64 * 31
    } else {
        direct
    };
    if x + col >= 64 {
        wrapped - 64
    } else {
        wrapped
    }
}

/// Bit `col` of a sprite row byte, most significant bit first, as a pixel
/// state of 0 or 1.
pub open spec fn sprite_bit(b: u8, col: u8) -> u8 {
    if b & (0x80u8 >> col) == 0 {
        0u8
    } else {
        1u8
    }
}

/// The display after the first `k` bits of a sprite at `(x, y)` have been
/// XOR-drawn, bits taken row-major from the sprite rows `mem[i..]`. Each bit
/// turns its target pixel off when it equals the pixel's current state and
/// on otherwise.
pub open spec fn drawn(d0: Seq<u8>, mem: Seq<u8>, i: int, x: int, y: int, k: nat) -> Seq<u8>
    decreases k,
{
    if k == 0 {
        d0
    } else {
        let d = drawn(d0, mem, i, x, y, (k - 1) as nat);
        let row = (k - 1) as int / 8;
        let col = (k - 1) as int % 8;
        let t = draw_target(x, y, row, col);
        let bit = sprite_bit(mem[i + row], col as u8);
        let cur: u8 = if px_on(d, t) {
            1u8
        } else {
            0u8
        };
        if cur == bit {
            px_set(d, t, 0)
        } else {
            px_set(d, t, 255)
        }
    }
}

/// Whether one of the first `k` target pixels was already on when its bit
/// was about to be drawn: the collision flag after `k` bits. Every scanned
/// target counts, whether or not its sprite bit is set.
pub open spec fn draw_hit(d0: Seq<u8>, mem: Seq<u8>, i: int, x: int, y: int, k: nat) -> bool
    decreases k,
{
    if k == 0 {
        false
    } else {
        let d = drawn(d0, mem, i, x, y, (k - 1) as nat);
        let row = (k - 1) as int / 8;
        let col = (k - 1) as int % 8;
        draw_hit(d0, mem, i, x, y, (k - 1) as nat) || px_on(d, draw_target(x, y, row, col))
    }
}

} // verus!
