//! Wrapped 12-bit address arithmetic.
//!
//! CHIP-8 hardware wraps rather than traps: every address derived from the
//! index register or the program counter is reduced modulo the 4096-byte
//! address space before it reaches memory.

use vstd::arithmetic::div_mod::lemma_add_mod_noop_right;
use vstd::arithmetic::div_mod::lemma_fundamental_div_mod;
use vstd::arithmetic::div_mod::lemma_mod_bound;
use vstd::arithmetic::div_mod::lemma_mod_multiples_vanish;
use vstd::arithmetic::div_mod::lemma_small_mod;
use vstd::prelude::*;

verus! {

/// Stepping `off` cells forward from `base` (wrapped modulo `m`) lands on a
/// cell whose wrapped distance from `base` is `off` again.
pub proof fn lemma_wrap_inverse(base: int, off: int, m: int)
    requires
        0 < m,
        0 <= off < m,
    ensures
        ((base + off) % m - base) % m == off,
{
    let q = (base + off) / m;
    lemma_fundamental_div_mod(base + off, m);
    assert(m * (-q) == -(m * q)) by (nonlinear_arith);
    assert((base + off) % m - base == m * (-q) + off);
    lemma_mod_multiples_vanish(-q, off, m);
    lemma_small_mod(off as nat, m as nat);
}

/// A cell `c` in `[0, m)` is reached from `base` by stepping its wrapped
/// distance from `base`.
pub proof fn lemma_wrap_converse(base: int, c: int, m: int)
    requires
        0 < m,
        0 <= c < m,
    ensures
        (base + (c - base) % m) % m == c,
{
    lemma_add_mod_noop_right(base, c - base, m);
    lemma_small_mod(c as nat, m as nat);
    lemma_mod_bound(c - base, m);
}

/// `base + off`, wrapped to the 4096-byte address space.
pub fn wrap_add_addr(base: u16, off: u16) -> (r: u16)
    ensures
        r == (base + off) % 4096,
        r < 4096,
{
    ((base as usize + off as usize) % 4096) as u16
}

/// The RAM index `off` bytes past the address `base`, wrapped to the
/// 4096-byte address space.
pub fn ram_index(base: u16, off: usize) -> (a: usize)
    requires
        off <= 4096,
    ensures
        a == (base + off) % 4096,
        a < 4096,
{
    (base as usize + off) % 4096
}

} // verus!
