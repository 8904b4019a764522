//! The 64x32 monochrome framebuffer and the sprite XOR/collision semantics.
//!
//! A sprite is `n` bytes read from memory; row `r`, bit `b` (most significant
//! bit first) lands on the pixel at column `(vx + b) mod 64`, row
//! `(vy + r) mod 32` — both coordinates wrap independently. Each sprite bit is
//! XORed into the existing pixel; a collision is any pixel that an XOR turns
//! from set to unset anywhere in the whole draw.

use vstd::arithmetic::div_mod::lemma_fundamental_div_mod;
use vstd::arithmetic::div_mod::lemma_fundamental_div_mod_converse;
use vstd::arithmetic::div_mod::lemma_mod_bound;
use vstd::prelude::*;
use vstd::string::StringExecFns;

verus! {

pub const SCREEN_WIDTH: usize = 64;

pub const SCREEN_HEIGHT: usize = 32;

#[derive(Debug)]
pub struct Gpu {
    /// Row-major framebuffer: the pixel at column `x`, row `y` is
    /// `screen[y * 64 + x]`.
    pub screen: [bool; 2048],
}

/// The framebuffer index of the pixel hit by sprite row `r`, bit `b`, for a
/// sprite anchored at column `vx0`, row `vy0` (both already reduced modulo the
/// screen size).
pub open spec fn target_idx(vx0: int, vy0: int, r: int, b: int) -> int {
    ((vy0 + r) % 32) * 64 + ((vx0 + b) % 64)
}

/// Bit `b` (most significant first) of sprite row `r`, read from `ram` at the
/// index register `i`, the address wrapped to the 4096-byte space.
pub open spec fn sprite_pixel(ram: Seq<u8>, i: int, r: int, b: int) -> bool {
    (ram[(i + r) % 4096] >> ((7 - b) as u8)) & 1 == 1
}

/// One pixel of the screen after the draw: the pixel is XORed with its sprite
/// bit when some sprite row and bit land on it, and untouched otherwise. The
/// sprite row and bit hitting index `idx` are recovered by inverting the
/// wrapped coordinates.
pub open spec fn drawn_pixel_partial(
    pre: Seq<bool>,
    ram: Seq<u8>,
    i: int,
    vx0: int,
    vy0: int,
    rows_done: int,
    bits_done: int,
    idx: int,
) -> bool {
    let r = (idx / 64 - vy0) % 32;
    let b = (idx % 64 - vx0) % 64;
    if b < 8 && (r < rows_done || (r == rows_done && b < bits_done)) {
        pre[idx] != sprite_pixel(ram, i, r, b)
    } else {
        pre[idx]
    }
}

/// The whole screen after drawing an `n`-row sprite.
pub open spec fn drawn_screen(
    pre: Seq<bool>,
    ram: Seq<u8>,
    i: int,
    vx0: int,
    vy0: int,
    n: int,
) -> Seq<bool> {
    Seq::new(pre.len(), |idx: int| drawn_pixel_partial(pre, ram, i, vx0, vy0, n, 0, idx))
}

/// Whether the draw erases any lit pixel: some sprite bit is set on a pixel
/// that was already set before the draw started.
pub open spec fn draw_collision(
    pre: Seq<bool>,
    ram: Seq<u8>,
    i: int,
    vx0: int,
    vy0: int,
    n: int,
) -> bool {
    exists|r: int, b: int|
        0 <= r < n && 0 <= b < 8 && pre[#[trigger] target_idx(vx0, vy0, r, b)] && sprite_pixel(
            ram,
            i,
            r,
            b,
        )
}

/// Collision seen by a partially completed draw: rows before `rows_done` in
/// full, then bits before `bits_done` of row `rows_done`.
pub open spec fn draw_collision_partial(
    pre: Seq<bool>,
    ram: Seq<u8>,
    i: int,
    vx0: int,
    vy0: int,
    rows_done: int,
    bits_done: int,
) -> bool {
    exists|r: int, b: int|
        0 <= r && 0 <= b < 8 && (r < rows_done || (r == rows_done && b < bits_done)) && pre[
            #[trigger] target_idx(vx0, vy0, r, b)
        ] && sprite_pixel(ram, i, r, b)
}

/// A framebuffer index splits uniquely into its row and column.
pub proof fn lemma_idx_split(idx: int)
    requires
        0 <= idx < 2048,
    ensures
        idx == (idx / 64) * 64 + idx % 64,
        0 <= idx / 64 < 32,
        0 <= idx % 64 < 64,
{
    lemma_fundamental_div_mod(idx, 64);
    lemma_mod_bound(idx, 64);
}

/// The row and column of a target index are the wrapped coordinates it was
/// built from.
pub proof fn lemma_target_split(vx0: int, vy0: int, r: int, b: int)
    requires
        0 <= vx0 < 64,
        0 <= vy0 < 32,
        0 <= r < 32,
        0 <= b < 64,
    ensures
        0 <= target_idx(vx0, vy0, r, b) < 2048,
        target_idx(vx0, vy0, r, b) / 64 == (vy0 + r) % 32,
        target_idx(vx0, vy0, r, b) % 64 == (vx0 + b) % 64,
        (target_idx(vx0, vy0, r, b) / 64 - vy0) % 32 == r,
        (target_idx(vx0, vy0, r, b) % 64 - vx0) % 64 == b,
{
    let cy = (vy0 + r) % 32;
    let cx = (vx0 + b) % 64;
    lemma_mod_bound(vy0 + r, 32);
    lemma_mod_bound(vx0 + b, 64);
    lemma_fundamental_div_mod_converse(cy * 64 + cx, 64, cy, cx);
    crate::addr::lemma_wrap_inverse(vy0, r, 32);
    crate::addr::lemma_wrap_inverse(vx0, b, 64);
}

/// The character at position `j` of the screen's text rendering: 32 lines of
/// 64 cells each, a lit pixel as a block, an unlit one as a space, and a
/// newline closing every line.
pub open spec fn screen_char(screen: Seq<bool>, j: int) -> char {
    if j % 65 == 64 {
        '\n'
    } else if screen[(j / 65) * 64 + j % 65] {
        '▊'
    } else {
        ' '
    }
}

/// The whole framebuffer rendered as text.
pub open spec fn screen_text(screen: Seq<bool>) -> Seq<char> {
    Seq::new(32 * 65, |j: int| screen_char(screen, j))
}

impl Gpu {
    /// A fresh display: every pixel unset.
    pub fn new() -> (r: Self)
        ensures
            forall|idx: int| 0 <= idx < 2048 ==> !r.screen@[idx],
    {
        Self { screen: [false; 2048] }
    }

    /// The screen rendered as a printable string, row by row.
    pub fn debug_screen_print_string(&self) -> (r: String)
        ensures
            r@ == screen_text(self.screen@),
    {
        let mut screen_string = String::new();
        let mut row: usize = 0;
        while row < 32
            invariant
                row <= 32,
                screen_string@ == screen_text(self.screen@).take(65 * row),
            decreases 32 - row,
        {
            let mut col: usize = 0;
            while col < 64
                invariant
                    col <= 64,
                    row < 32,
                    screen_string@ == screen_text(self.screen@).take(65 * row + col),
                decreases 64 - col,
            {
                proof {
                    lemma_fundamental_div_mod_converse(
                        65 * row + col,
                        65,
                        row as int,
                        col as int,
                    );
                }
                if self.screen[row * 64 + col] {
                    screen_string.append("▊");
                } else {
                    screen_string.append(" ");
                }
                proof {
                    reveal_strlit("▊");
                    reveal_strlit(" ");
                    let text = screen_text(self.screen@);
                    let j = 65 * (row as int) + col;
                    assert(screen_string@ =~= text.take(j + 1));
                }
                col = col + 1;
            }
            screen_string.append("\n");
            proof {
                reveal_strlit("\n");
                let text = screen_text(self.screen@);
                let j = 65 * (row as int) + 64;
                lemma_fundamental_div_mod_converse(j, 65, row as int, 64);
                assert(screen_string@ =~= text.take(j + 1));
                assert(65 * (row + 1) == 65 * (row as int) + 65);
            }
            row = row + 1;
        }
        proof {
            assert(screen_string@ =~= screen_text(self.screen@));
        }
        screen_string
    }
}

} // verus!
