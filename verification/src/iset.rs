//! The instruction set: opcode decoding, the 35 semantic handlers, and the
//! spec-level vocabulary their contracts are written in.
//!
//! Handlers mutate the CPU (and memory, display or timers where the
//! instruction touches them) and report how the program counter should move;
//! the caller applies that movement. Every byte of arithmetic wraps modulo
//! 256, every address derived from the index register wraps modulo 4096, and
//! VF is overwritten by the flag-setting instructions even when X is F.

use vstd::prelude::*;

use crate::addr::lemma_wrap_converse;
use crate::addr::lemma_wrap_inverse;
use crate::addr::ram_index;
use crate::addr::wrap_add_addr;
use crate::cpu::Cpu;
use crate::gpu::draw_collision;
use crate::gpu::draw_collision_partial;
use crate::gpu::drawn_pixel_partial;
use crate::gpu::drawn_screen;
use crate::gpu::lemma_idx_split;
use crate::gpu::lemma_target_split;
use crate::gpu::sprite_pixel;
use crate::gpu::target_idx;
use crate::gpu::Gpu;
use crate::mem::Memory;
use crate::timer::Timer;

verus! {

/// A 16-bit CHIP-8 opcode.
#[derive(Debug, Copy, Clone)]
pub struct OpCode(pub u16);

/// Second nibble of an opcode: the X register selector.
pub open spec fn op_x(op: u16) -> u8 {
    ((op >> 8) & 0xF) as u8
}

/// Third nibble of an opcode: the Y register selector.
pub open spec fn op_y(op: u16) -> u8 {
    ((op >> 4) & 0xF) as u8
}

/// Fourth nibble of an opcode: the short immediate N.
pub open spec fn op_n(op: u16) -> u8 {
    (op & 0xF) as u8
}

/// Low byte of an opcode: the immediate NN.
pub open spec fn op_nn(op: u16) -> u8 {
    (op & 0xFF) as u8
}

/// Low 12 bits of an opcode: the address NNN.
pub open spec fn op_nnn(op: u16) -> u16 {
    op & 0xFFF
}

/// Byte addition, wrapping modulo 256.
pub open spec fn wrap_add8(a: u8, b: u8) -> u8 {
    ((a + b) % 256) as u8
}

/// Byte subtraction, wrapping modulo 256.
pub open spec fn wrap_sub8(a: u8, b: u8) -> u8 {
    ((a - b) % 256) as u8
}

/// The carry flag of `a + b`: 1 exactly when the sum leaves the byte range.
pub open spec fn carry8(a: u8, b: u8) -> u8 {
    if a + b > 255 {
        1u8
    } else {
        0u8
    }
}

/// The no-borrow flag of `a - b`: 1 exactly when the subtraction does not
/// borrow.
pub open spec fn no_borrow8(a: u8, b: u8) -> u8 {
    if a >= b {
        1u8
    } else {
        0u8
    }
}

/// Whether keypad key `v & 0xF` is down in the 16-bit key bitmask.
pub open spec fn key_down(keys: u16, v: u8) -> bool {
    (keys >> ((v & 0xF) as u16)) & 1 == 1
}

/// The lowest-numbered pressed key at or above `k`, or 16 when none is.
pub open spec fn first_key_from(keys: u16, k: u16) -> u16
    decreases 16 - k,
{
    if k >= 16 {
        16
    } else if (keys >> k) & 1 == 1 {
        k
    } else {
        first_key_from(keys, (k + 1) as u16)
    }
}

/// The lowest-numbered pressed key of a nonzero key bitmask.
pub open spec fn first_key(keys: u16) -> u8 {
    first_key_from(keys, 0) as u8
}

/// RAM after the registers `V0..=Vx` were stored at the wrapped addresses
/// `i..=i+x`: the byte at address `a` comes from the register whose offset
/// reaches `a` from `i`, and is untouched when no offset does.
pub open spec fn stored_ram(pre: Seq<u8>, regs: Seq<u8>, i: int, x: int) -> Seq<u8> {
    Seq::new(
        pre.len(),
        |a: int|
            if (a - i) % 4096 <= x {
                regs[(a - i) % 4096]
            } else {
                pre[a]
            },
    )
}

/// Registers after `V0..=Vx` were filled from the wrapped addresses
/// `i..=i+x`; registers past `Vx` keep their old values.
pub open spec fn loaded_regs(pre: Seq<u8>, ram: Seq<u8>, i: int, x: int) -> Seq<u8> {
    Seq::new(
        16,
        |k: int|
            if k <= x {
                ram[(i + k) % 4096]
            } else {
                pre[k]
            },
    )
}

/// Everything of the CPU except the registers is the same.
pub open spec fn same_ctrl(pre: Cpu, post: Cpu) -> bool {
    &&& post.program_counter == pre.program_counter
    &&& post.stack@ == pre.stack@
    &&& post.stack_pointer == pre.stack_pointer
    &&& post.index_register == pre.index_register
    &&& post.current_opcode == pre.current_opcode
}

/// Everything of the CPU except the program counter is the same.
pub open spec fn same_data(pre: Cpu, post: Cpu) -> bool {
    &&& post.registers@ == pre.registers@
    &&& post.stack@ == pre.stack@
    &&& post.stack_pointer == pre.stack_pointer
    &&& post.index_register == pre.index_register
    &&& post.current_opcode == pre.current_opcode
}

/// Everything of the CPU except the index register is the same.
pub open spec fn same_indexed(pre: Cpu, post: Cpu) -> bool {
    &&& post.registers@ == pre.registers@
    &&& post.program_counter == pre.program_counter
    &&& post.stack@ == pre.stack@
    &&& post.stack_pointer == pre.stack_pointer
    &&& post.current_opcode == pre.current_opcode
}

fn x_of(op: u16) -> (r: u8)
    ensures
        r == op_x(op),
        r < 16,
{
    proof {
        assert(((op >> 8) & 0xF) < 16) by (bit_vector);
    }
    ((op >> 8) & 0xF) as u8
}

fn y_of(op: u16) -> (r: u8)
    ensures
        r == op_y(op),
        r < 16,
{
    proof {
        assert(((op >> 4) & 0xF) < 16) by (bit_vector);
    }
    ((op >> 4) & 0xF) as u8
}

fn n_of(op: u16) -> (r: u8)
    ensures
        r == op_n(op),
        r < 16,
{
    proof {
        assert((op & 0xF) < 16) by (bit_vector);
    }
    (op & 0xF) as u8
}

fn nn_of(op: u16) -> (r: u8)
    ensures
        r == op_nn(op),
{
    proof {
        assert((op & 0xFF) < 256) by (bit_vector);
    }
    (op & 0xFF) as u8
}

fn nnn_of(op: u16) -> (r: u16)
    ensures
        r == op_nnn(op),
        r < 4096,
{
    proof {
        assert((op & 0xFFF) < 4096) by (bit_vector);
    }
    op & 0xFFF
}

fn byte_add(a: u8, b: u8) -> (r: u8)
    ensures
        r == wrap_add8(a, b),
{
    ((a as u16 + b as u16) % 256) as u8
}

fn byte_sub(a: u8, b: u8) -> (r: u8)
    ensures
        r == wrap_sub8(a, b),
{
    proof {
        vstd::arithmetic::div_mod::lemma_mod_add_multiples_vanish(a - b, 256);
        vstd::arithmetic::div_mod::lemma_mod_bound(a - b, 256);
    }
    ((a as u16 + 256 - b as u16) % 256) as u8
}

fn key_pressed(keys: u16, v: u8) -> (b: bool)
    ensures
        b == key_down(keys, v),
{
    proof {
        assert((v & 0xF) < 16) by (bit_vector);
    }
    let k = (v & 0xF) as u16;
    (keys >> k) & 1 == 1
}

/// Below the lowest pressed key every bit of the mask is clear.
proof fn lemma_first_key_none(keys: u16, k: u16)
    requires
        k <= 16,
        first_key_from(keys, k) == 16,
    ensures
        forall|j: u16| k <= j < 16 ==> (keys >> j) & 1 != 1,
    decreases 16 - k,
{
    if k < 16 {
        lemma_first_key_none(keys, (k + 1) as u16);
    }
}

/// A zero key mask is exactly one with no pressed key.
proof fn lemma_no_key_means_zero(keys: u16)
    requires
        first_key_from(keys, 0) == 16,
    ensures
        keys == 0,
{
    lemma_first_key_none(keys, 0);
    assert(((keys >> 0u16) & 1 != 1 && (keys >> 1u16) & 1 != 1 && (keys >> 2u16) & 1 != 1 && (keys
        >> 3u16) & 1 != 1 && (keys >> 4u16) & 1 != 1 && (keys >> 5u16) & 1 != 1 && (keys >> 6u16)
        & 1 != 1 && (keys >> 7u16) & 1 != 1 && (keys >> 8u16) & 1 != 1 && (keys >> 9u16) & 1 != 1
        && (keys >> 10u16) & 1 != 1 && (keys >> 11u16) & 1 != 1 && (keys >> 12u16) & 1 != 1 && (
    keys >> 13u16) & 1 != 1 && (keys >> 14u16) & 1 != 1 && (keys >> 15u16) & 1 != 1) ==> keys == 0)
        by (bit_vector);
}

pub trait Nibbles {
    /// The four nibbles of the opcode, highest first.
    fn into_tuple(&self) -> (u8, u8, u8, u8);
}

impl Nibbles for OpCode {
    fn into_tuple(&self) -> (r: (u8, u8, u8, u8))
        ensures
            r.0 == (self.0 >> 12) & 0xF,
            r.1 == op_x(self.0),
            r.2 == op_y(self.0),
            r.3 == op_n(self.0),
    {
        let op = self.0;
        proof {
            assert(((op >> 12) & 0xF) < 16 && ((op >> 8) & 0xF) < 16 && ((op >> 4) & 0xF) < 16
                && (op & 0xF) < 16) by (bit_vector);
        }
        (
            ((op >> 12) & 0xF) as u8,
            ((op >> 8) & 0xF) as u8,
            ((op >> 4) & 0xF) as u8,
            (op & 0xF) as u8,
        )
    }
}

/// How the program counter moves after a handler ran: forward by one
/// instruction, forward by two (a skip), or not at all because the handler
/// either placed it explicitly or wants the same instruction retried.
#[derive(Debug, Clone, Copy, PartialEq, Eq, Structural)]
pub enum ExecutionResult {
    Jumped,
    Advanced,
    Skipped,
}

pub trait Chip8ISet {
    /// Returns the current opcode's second nibble.
    fn get_x(cpu: &Cpu) -> (r: u8)
        ensures
            r == op_x(cpu.current_opcode.0),
            r < 16,
    ;

    /// Returns the current opcode's third nibble.
    fn get_y(cpu: &Cpu) -> (r: u8)
        ensures
            r == op_y(cpu.current_opcode.0),
            r < 16,
    ;

    /// Clear the screen.
    fn _00e0(gpu: &mut Gpu) -> (r: ExecutionResult)
        ensures
            forall|idx: int| 0 <= idx < 2048 ==> !final(gpu).screen@[idx],
            r == ExecutionResult::Advanced,
    ;

    /// Return from a subroutine: pop the stack into the program counter.
    fn _00ee(cpu: &mut Cpu) -> (r: ExecutionResult)
        requires
            1 <= old(cpu).stack_pointer <= 16,
        ensures
            final(cpu).program_counter == old(cpu).stack@[old(cpu).stack_pointer - 1],
            final(cpu).stack_pointer == old(cpu).stack_pointer - 1,
            final(cpu).registers@ == old(cpu).registers@,
            final(cpu).stack@ == old(cpu).stack@,
            final(cpu).index_register == old(cpu).index_register,
            final(cpu).current_opcode == old(cpu).current_opcode,
            r == ExecutionResult::Advanced,
    ;

    /// Legacy machine-language subroutine call: treated as a no-op advance,
    /// which some ROMs rely on.
    fn _0nnn(cpu: &mut Cpu) -> (r: ExecutionResult)
        ensures
            *final(cpu) == *old(cpu),
            r == ExecutionResult::Advanced,
    ;

    /// Jump to address NNN.
    fn _1nnn(cpu: &mut Cpu) -> (r: ExecutionResult)
        ensures
            final(cpu).program_counter == op_nnn(old(cpu).current_opcode.0),
            same_data(*old(cpu), *final(cpu)),
            r == ExecutionResult::Jumped,
    ;

    /// Call the subroutine at address NNN: push the current program counter,
    /// then jump.
    fn _2nnn(cpu: &mut Cpu) -> (r: ExecutionResult)
        requires
            old(cpu).stack_pointer < 16,
        ensures
            final(cpu).stack@ == old(cpu).stack@.update(
                old(cpu).stack_pointer as int,
                old(cpu).program_counter,
            ),
            final(cpu).stack_pointer == old(cpu).stack_pointer + 1,
            final(cpu).program_counter == op_nnn(old(cpu).current_opcode.0),
            final(cpu).registers@ == old(cpu).registers@,
            final(cpu).index_register == old(cpu).index_register,
            final(cpu).current_opcode == old(cpu).current_opcode,
            r == ExecutionResult::Jumped,
    ;

    /// Skip the following instruction if Vx equals NN.
    fn _3xnn(cpu: &mut Cpu) -> (r: ExecutionResult)
        ensures
            *final(cpu) == *old(cpu),
            r == ({
                let op = old(cpu).current_opcode.0;
                if old(cpu).registers@[op_x(op) as int] == op_nn(op) {
                    ExecutionResult::Skipped
                } else {
                    ExecutionResult::Advanced
                }
            }),
    ;

    /// Skip the following instruction if Vx differs from NN.
    fn _4xnn(cpu: &mut Cpu) -> (r: ExecutionResult)
        ensures
            *final(cpu) == *old(cpu),
            r == ({
                let op = old(cpu).current_opcode.0;
                if old(cpu).registers@[op_x(op) as int] != op_nn(op) {
                    ExecutionResult::Skipped
                } else {
                    ExecutionResult::Advanced
                }
            }),
    ;

    /// Skip the following instruction if Vx equals Vy.
    fn _5xy0(cpu: &mut Cpu) -> (r: ExecutionResult)
        ensures
            *final(cpu) == *old(cpu),
            r == ({
                let op = old(cpu).current_opcode.0;
                if old(cpu).registers@[op_x(op) as int] == old(cpu).registers@[op_y(op) as int] {
                    ExecutionResult::Skipped
                } else {
                    ExecutionResult::Advanced
                }
            }),
    ;

    /// Store NN in Vx.
    fn _6xnn(cpu: &mut Cpu) -> (r: ExecutionResult)
        ensures
            final(cpu).registers@ == old(cpu).registers@.update(
                op_x(old(cpu).current_opcode.0) as int,
                op_nn(old(cpu).current_opcode.0),
            ),
            same_ctrl(*old(cpu), *final(cpu)),
            r == ExecutionResult::Advanced,
    ;

    /// Add NN to Vx, wrapping modulo 256; no flag changes.
    fn _7xnn(cpu: &mut Cpu) -> (r: ExecutionResult)
        ensures
            final(cpu).registers@ == ({
                let op = old(cpu).current_opcode.0;
                old(cpu).registers@.update(
                    op_x(op) as int,
                    wrap_add8(old(cpu).registers@[op_x(op) as int], op_nn(op)),
                )
            }),
            same_ctrl(*old(cpu), *final(cpu)),
            r == ExecutionResult::Advanced,
    ;

    /// Store Vy in Vx.
    fn _8xy0(cpu: &mut Cpu) -> (r: ExecutionResult)
        ensures
            final(cpu).registers@ == ({
                let op = old(cpu).current_opcode.0;
                old(cpu).registers@.update(
                    op_x(op) as int,
                    old(cpu).registers@[op_y(op) as int],
                )
            }),
            same_ctrl(*old(cpu), *final(cpu)),
            r == ExecutionResult::Advanced,
    ;

    /// Set Vx to Vx OR Vy.
    fn _8xy1(cpu: &mut Cpu) -> (r: ExecutionResult)
        ensures
            final(cpu).registers@ == ({
                let op = old(cpu).current_opcode.0;
                old(cpu).registers@.update(
                    op_x(op) as int,
                    old(cpu).registers@[op_x(op) as int] | old(cpu).registers@[op_y(op) as int],
                )
            }),
            same_ctrl(*old(cpu), *final(cpu)),
            r == ExecutionResult::Advanced,
    ;

    /// Set Vx to Vx AND Vy.
    fn _8xy2(cpu: &mut Cpu) -> (r: ExecutionResult)
        ensures
            final(cpu).registers@ == ({
                let op = old(cpu).current_opcode.0;
                old(cpu).registers@.update(
                    op_x(op) as int,
                    old(cpu).registers@[op_x(op) as int] & old(cpu).registers@[op_y(op) as int],
                )
            }),
            same_ctrl(*old(cpu), *final(cpu)),
            r == ExecutionResult::Advanced,
    ;

    /// Set Vx to Vx XOR Vy.
    fn _8xy3(cpu: &mut Cpu) -> (r: ExecutionResult)
        ensures
            final(cpu).registers@ == ({
                let op = old(cpu).current_opcode.0;
                old(cpu).registers@.update(
                    op_x(op) as int,
                    old(cpu).registers@[op_x(op) as int] ^ old(cpu).registers@[op_y(op) as int],
                )
            }),
            same_ctrl(*old(cpu), *final(cpu)),
            r == ExecutionResult::Advanced,
    ;

    /// Add Vy to Vx, wrapping; VF becomes 1 on carry and 0 otherwise, even
    /// when X is F.
    fn _8xy4(cpu: &mut Cpu) -> (r: ExecutionResult)
        ensures
            final(cpu).registers@ == ({
                let op = old(cpu).current_opcode.0;
                let vx = old(cpu).registers@[op_x(op) as int];
                let vy = old(cpu).registers@[op_y(op) as int];
                old(cpu).registers@.update(op_x(op) as int, wrap_add8(vx, vy)).update(
                    15,
                    carry8(vx, vy),
                )
            }),
            same_ctrl(*old(cpu), *final(cpu)),
            r == ExecutionResult::Advanced,
    ;

    /// Set Vx to Vx minus Vy, wrapping; VF becomes 1 when no borrow occurs
    /// and 0 when one does.
    fn _8xy5(cpu: &mut Cpu) -> (r: ExecutionResult)
        ensures
            final(cpu).registers@ == ({
                let op = old(cpu).current_opcode.0;
                let vx = old(cpu).registers@[op_x(op) as int];
                let vy = old(cpu).registers@[op_y(op) as int];
                old(cpu).registers@.update(op_x(op) as int, wrap_sub8(vx, vy)).update(
                    15,
                    no_borrow8(vx, vy),
                )
            }),
            same_ctrl(*old(cpu), *final(cpu)),
            r == ExecutionResult::Advanced,
    ;

    /// Store Vy shifted right one bit in Vx; VF takes the evicted low bit,
    /// and the flag wins even when X is F. Vy is unchanged.
    fn _8xy6(cpu: &mut Cpu) -> (r: ExecutionResult)
        ensures
            final(cpu).registers@ == ({
                let op = old(cpu).current_opcode.0;
                let vy = old(cpu).registers@[op_y(op) as int];
                old(cpu).registers@.update(op_x(op) as int, vy >> 1u8).update(15, vy & 1)
            }),
            same_ctrl(*old(cpu), *final(cpu)),
            r == ExecutionResult::Advanced,
    ;

    /// Set Vx to Vy minus Vx, wrapping; VF becomes 1 when no borrow occurs
    /// and 0 when one does.
    fn _8xy7(cpu: &mut Cpu) -> (r: ExecutionResult)
        ensures
            final(cpu).registers@ == ({
                let op = old(cpu).current_opcode.0;
                let vx = old(cpu).registers@[op_x(op) as int];
                let vy = old(cpu).registers@[op_y(op) as int];
                old(cpu).registers@.update(op_x(op) as int, wrap_sub8(vy, vx)).update(
                    15,
                    no_borrow8(vy, vx),
                )
            }),
            same_ctrl(*old(cpu), *final(cpu)),
            r == ExecutionResult::Advanced,
    ;

    /// Store Vy shifted left one bit in Vx; VF takes the evicted high bit,
    /// and the flag wins even when X is F. Vy is unchanged.
    fn _8xye(cpu: &mut Cpu) -> (r: ExecutionResult)
        ensures
            final(cpu).registers@ == ({
                let op = old(cpu).current_opcode.0;
                let vy = old(cpu).registers@[op_y(op) as int];
                old(cpu).registers@.update(op_x(op) as int, vy << 1u8).update(
                    15,
                    (vy & 0x80) >> 7u8,
                )
            }),
            same_ctrl(*old(cpu), *final(cpu)),
            r == ExecutionResult::Advanced,
    ;

    /// Skip the following instruction if Vx differs from Vy.
    fn _9xy0(cpu: &mut Cpu) -> (r: ExecutionResult)
        ensures
            *final(cpu) == *old(cpu),
            r == ({
                let op = old(cpu).current_opcode.0;
                if old(cpu).registers@[op_x(op) as int] != old(cpu).registers@[op_y(op) as int] {
                    ExecutionResult::Skipped
                } else {
                    ExecutionResult::Advanced
                }
            }),
    ;

    /// Store address NNN in the index register.
    fn annn(cpu: &mut Cpu) -> (r: ExecutionResult)
        ensures
            final(cpu).index_register == op_nnn(old(cpu).current_opcode.0),
            same_indexed(*old(cpu), *final(cpu)),
            r == ExecutionResult::Advanced,
    ;

    /// Jump to address NNN plus V0, wrapped to the address space.
    fn bnnn(cpu: &mut Cpu) -> (r: ExecutionResult)
        ensures
            final(cpu).program_counter == (op_nnn(old(cpu).current_opcode.0) + old(
                cpu,
            ).registers@[0]) % 4096,
            same_data(*old(cpu), *final(cpu)),
            r == ExecutionResult::Jumped,
    ;

    /// Set Vx to a random byte masked by NN. The random byte comes in as an
    /// argument so the randomness source stays pluggable.
    fn cxnn(cpu: &mut Cpu, rnd: u8) -> (r: ExecutionResult)
        ensures
            final(cpu).registers@ == old(cpu).registers@.update(
                op_x(old(cpu).current_opcode.0) as int,
                rnd & op_nn(old(cpu).current_opcode.0),
            ),
            same_ctrl(*old(cpu), *final(cpu)),
            r == ExecutionResult::Advanced,
    ;

    /// Draw the N-byte sprite at `ram[I..I+N]` at position (Vx, Vy), XORing
    /// it into the screen; VF reports whether any lit pixel was erased
    /// anywhere in the whole draw.
    fn dxyn(cpu: &mut Cpu, mem: &Memory, gpu: &mut Gpu) -> (r: ExecutionResult)
        ensures
            ({
                let op = old(cpu).current_opcode.0;
                let vx0 = old(cpu).registers@[op_x(op) as int] as int % 64;
                let vy0 = old(cpu).registers@[op_y(op) as int] as int % 32;
                let i = old(cpu).index_register as int;
                let n = op_n(op) as int;
                &&& final(gpu).screen@ == drawn_screen(
                    old(gpu).screen@,
                    mem.ram@,
                    i,
                    vx0,
                    vy0,
                    n,
                )
                &&& final(cpu).registers@ == old(cpu).registers@.update(
                    15,
                    if draw_collision(old(gpu).screen@, mem.ram@, i, vx0, vy0, n) {
                        1u8
                    } else {
                        0u8
                    },
                )
            }),
            same_ctrl(*old(cpu), *final(cpu)),
            r == ExecutionResult::Advanced,
    ;

    /// Skip the following instruction if the key named by Vx is pressed in
    /// the key bitmask.
    fn ex9e(cpu: &mut Cpu, keys: u16) -> (r: ExecutionResult)
        ensures
            *final(cpu) == *old(cpu),
            r == ({
                let op = old(cpu).current_opcode.0;
                if key_down(keys, old(cpu).registers@[op_x(op) as int]) {
                    ExecutionResult::Skipped
                } else {
                    ExecutionResult::Advanced
                }
            }),
    ;

    /// Skip the following instruction if the key named by Vx is not pressed
    /// in the key bitmask.
    fn exa1(cpu: &mut Cpu, keys: u16) -> (r: ExecutionResult)
        ensures
            *final(cpu) == *old(cpu),
            r == ({
                let op = old(cpu).current_opcode.0;
                if !key_down(keys, old(cpu).registers@[op_x(op) as int]) {
                    ExecutionResult::Skipped
                } else {
                    ExecutionResult::Advanced
                }
            }),
    ;

    /// Store the delay timer in Vx.
    fn fx07(cpu: &mut Cpu, timers: &Timer) -> (r: ExecutionResult)
        ensures
            final(cpu).registers@ == old(cpu).registers@.update(
                op_x(old(cpu).current_opcode.0) as int,
                timers.delay_timer,
            ),
            same_ctrl(*old(cpu), *final(cpu)),
            r == ExecutionResult::Advanced,
    ;

    /// Wait for a key press and store the key in Vx. With no key down,
    /// nothing changes and the handler asks for the same instruction again
    /// (`Jumped`, the program counter untouched), so the machine polls
    /// without blocking; with keys down, the lowest-numbered one is taken.
    fn fx0a(cpu: &mut Cpu, keys: u16) -> (r: ExecutionResult)
        ensures
            keys == 0 ==> *final(cpu) == *old(cpu) && r == ExecutionResult::Jumped,
            keys != 0 ==> final(cpu).registers@ == old(cpu).registers@.update(
                op_x(old(cpu).current_opcode.0) as int,
                first_key(keys),
            ) && same_ctrl(*old(cpu), *final(cpu)) && r == ExecutionResult::Advanced,
    ;

    /// Set the delay timer to Vx.
    fn fx15(cpu: &mut Cpu, timers: &mut Timer) -> (r: ExecutionResult)
        ensures
            final(timers).delay_timer == old(cpu).registers@[op_x(
                old(cpu).current_opcode.0,
            ) as int],
            final(timers).sound_timer == old(timers).sound_timer,
            *final(cpu) == *old(cpu),
            r == ExecutionResult::Advanced,
    ;

    /// Set the sound timer to Vx.
    fn fx18(cpu: &mut Cpu, timers: &mut Timer) -> (r: ExecutionResult)
        ensures
            final(timers).sound_timer == old(cpu).registers@[op_x(
                old(cpu).current_opcode.0,
            ) as int],
            final(timers).delay_timer == old(timers).delay_timer,
            *final(cpu) == *old(cpu),
            r == ExecutionResult::Advanced,
    ;

    /// Add Vx to the index register, wrapped to 12 bits.
    fn fx1e(cpu: &mut Cpu) -> (r: ExecutionResult)
        ensures
            final(cpu).index_register == (old(cpu).index_register + old(cpu).registers@[op_x(
                old(cpu).current_opcode.0,
            ) as int]) % 4096,
            same_indexed(*old(cpu), *final(cpu)),
            r == ExecutionResult::Advanced,
    ;

    /// Point the index register at the font glyph for the digit in Vx: the
    /// glyphs are 5 bytes each, starting at address 0.
    fn fx29(cpu: &mut Cpu) -> (r: ExecutionResult)
        ensures
            final(cpu).index_register == old(cpu).registers@[op_x(
                old(cpu).current_opcode.0,
            ) as int] * 5,
            same_indexed(*old(cpu), *final(cpu)),
            r == ExecutionResult::Advanced,
    ;

    /// Store the three decimal digits of Vx at the wrapped addresses `I`,
    /// `I+1`, `I+2`: hundreds first, zero-padded.
    fn fx33(cpu: &mut Cpu, mem: &mut Memory) -> (r: ExecutionResult)
        ensures
            final(mem).ram@ == ({
                let op = old(cpu).current_opcode.0;
                let vx = old(cpu).registers@[op_x(op) as int];
                let i = old(cpu).index_register as int;
                old(mem).ram@.update(i % 4096, vx / 100).update((i + 1) % 4096, (vx / 10) % 10)
                    .update((i + 2) % 4096, vx % 10)
            }),
            *final(cpu) == *old(cpu),
            r == ExecutionResult::Advanced,
    ;

    /// Store V0 up to and including Vx at the wrapped addresses starting at
    /// `I`; the index register then advances past the block.
    fn fx55(cpu: &mut Cpu, mem: &mut Memory) -> (r: ExecutionResult)
        ensures
            final(mem).ram@ == ({
                let op = old(cpu).current_opcode.0;
                stored_ram(
                    old(mem).ram@,
                    old(cpu).registers@,
                    old(cpu).index_register as int,
                    op_x(op) as int,
                )
            }),
            final(cpu).index_register == (old(cpu).index_register + op_x(
                old(cpu).current_opcode.0,
            ) + 1) % 4096,
            same_indexed(*old(cpu), *final(cpu)),
            r == ExecutionResult::Advanced,
    ;

    /// Fill V0 up to and including Vx from the wrapped addresses starting at
    /// `I`; the index register then advances past the block.
    fn fx65(cpu: &mut Cpu, mem: &Memory) -> (r: ExecutionResult)
        ensures
            final(cpu).registers@ == ({
                let op = old(cpu).current_opcode.0;
                loaded_regs(
                    old(cpu).registers@,
                    mem.ram@,
                    old(cpu).index_register as int,
                    op_x(op) as int,
                )
            }),
            final(cpu).index_register == (old(cpu).index_register + op_x(
                old(cpu).current_opcode.0,
            ) + 1) % 4096,
            final(cpu).program_counter == old(cpu).program_counter,
            final(cpu).stack@ == old(cpu).stack@,
            final(cpu).stack_pointer == old(cpu).stack_pointer,
            final(cpu).current_opcode == old(cpu).current_opcode,
            r == ExecutionResult::Advanced,
    ;
}

impl Chip8ISet for OpCode {
    fn get_x(cpu: &Cpu) -> (r: u8) {
        x_of(cpu.current_opcode.0)
    }

    fn get_y(cpu: &Cpu) -> (r: u8) {
        y_of(cpu.current_opcode.0)
    }

    fn _00e0(gpu: &mut Gpu) -> (r: ExecutionResult) {
        gpu.screen = [false; 2048];
        ExecutionResult::Advanced
    }

    fn _00ee(cpu: &mut Cpu) -> (r: ExecutionResult) {
        cpu.stack_pointer = cpu.stack_pointer - 1;
        cpu.program_counter = cpu.stack[cpu.stack_pointer];
        ExecutionResult::Advanced
    }

    fn _0nnn(cpu: &mut Cpu) -> (r: ExecutionResult) {
        ExecutionResult::Advanced
    }

    fn _1nnn(cpu: &mut Cpu) -> (r: ExecutionResult) {
        let address = nnn_of(cpu.current_opcode.0);
        cpu.program_counter = address;
        ExecutionResult::Jumped
    }

    fn _2nnn(cpu: &mut Cpu) -> (r: ExecutionResult) {
        cpu.stack[cpu.stack_pointer] = cpu.program_counter;
        cpu.stack_pointer = cpu.stack_pointer + 1;
        let address = nnn_of(cpu.current_opcode.0);
        cpu.program_counter = address;
        ExecutionResult::Jumped
    }

    fn _3xnn(cpu: &mut Cpu) -> (r: ExecutionResult) {
        let op = cpu.current_opcode.0;
        let x = x_of(op);
        let value = nn_of(op);
        let vx = cpu.registers[x as usize];
        if vx == value {
            ExecutionResult::Skipped
        } else {
            ExecutionResult::Advanced
        }
    }

    fn _4xnn(cpu: &mut Cpu) -> (r: ExecutionResult) {
        let op = cpu.current_opcode.0;
        let x = x_of(op);
        let value = nn_of(op);
        let vx = cpu.registers[x as usize];
        if vx != value {
            ExecutionResult::Skipped
        } else {
            ExecutionResult::Advanced
        }
    }

    fn _5xy0(cpu: &mut Cpu) -> (r: ExecutionResult) {
        let x = Self::get_x(cpu);
        let y = Self::get_y(cpu);
        let vx = cpu.registers[x as usize];
        let vy = cpu.registers[y as usize];
        if vx == vy {
            ExecutionResult::Skipped
        } else {
            ExecutionResult::Advanced
        }
    }

    fn _6xnn(cpu: &mut Cpu) -> (r: ExecutionResult) {
        let op = cpu.current_opcode.0;
        let x = x_of(op);
        let value = nn_of(op);
        cpu.registers[x as usize] = value;
        ExecutionResult::Advanced
    }

    fn _7xnn(cpu: &mut Cpu) -> (r: ExecutionResult) {
        let op = cpu.current_opcode.0;
        let x = x_of(op);
        let value = nn_of(op);
        let temp = byte_add(cpu.registers[x as usize], value);
        cpu.registers[x as usize] = temp;
        ExecutionResult::Advanced
    }

    fn _8xy0(cpu: &mut Cpu) -> (r: ExecutionResult) {
        let x = Self::get_x(cpu);
        let y = Self::get_y(cpu);
        let vy = cpu.registers[y as usize];
        cpu.registers[x as usize] = vy;
        ExecutionResult::Advanced
    }

    fn _8xy1(cpu: &mut Cpu) -> (r: ExecutionResult) {
        let x = Self::get_x(cpu);
        let y = Self::get_y(cpu);
        let vx = cpu.registers[x as usize];
        let vy = cpu.registers[y as usize];
        cpu.registers[x as usize] = vx | vy;
        ExecutionResult::Advanced
    }

    fn _8xy2(cpu: &mut Cpu) -> (r: ExecutionResult) {
        let x = Self::get_x(cpu);
        let y = Self::get_y(cpu);
        let vx = cpu.registers[x as usize];
        let vy = cpu.registers[y as usize];
        cpu.registers[x as usize] = vx & vy;
        ExecutionResult::Advanced
    }

    fn _8xy3(cpu: &mut Cpu) -> (r: ExecutionResult) {
        let x = Self::get_x(cpu);
        let y = Self::get_y(cpu);
        let vx = cpu.registers[x as usize];
        let vy = cpu.registers[y as usize];
        cpu.registers[x as usize] = vx ^ vy;
        ExecutionResult::Advanced
    }

    fn _8xy4(cpu: &mut Cpu) -> (r: ExecutionResult) {
        let x = Self::get_x(cpu);
        let y = Self::get_y(cpu);
        let vx = cpu.registers[x as usize];
        let vy = cpu.registers[y as usize];
        let sum = byte_add(vx, vy);
        let carry: u8 = if vx as u16 + vy as u16 > 255 {
            1
        } else {
            0
        };
        cpu.registers[x as usize] = sum;
        cpu.registers[0xF] = carry;
        ExecutionResult::Advanced
    }

    fn _8xy5(cpu: &mut Cpu) -> (r: ExecutionResult) {
        let x = Self::get_x(cpu);
        let y = Self::get_y(cpu);
        let vx = cpu.registers[x as usize];
        let vy = cpu.registers[y as usize];
        let diff = byte_sub(vx, vy);
        cpu.registers[x as usize] = diff;
        if vx < vy {
            cpu.registers[0xF] = 0x00;
        } else {
            cpu.registers[0xF] = 0x01;
        }
        ExecutionResult::Advanced
    }

    fn _8xy6(cpu: &mut Cpu) -> (r: ExecutionResult) {
        let x = Self::get_x(cpu);
        let y = Self::get_y(cpu);
        let vy = cpu.registers[y as usize];
        let lsb_vy = vy & 1;
        let shifted_vy = vy >> 1u8;
        cpu.registers[x as usize] = shifted_vy;
        cpu.registers[0xF] = lsb_vy;
        ExecutionResult::Advanced
    }

    fn _8xy7(cpu: &mut Cpu) -> (r: ExecutionResult) {
        let x = Self::get_x(cpu);
        let y = Self::get_y(cpu);
        let vx = cpu.registers[x as usize];
        let vy = cpu.registers[y as usize];
        let diff = byte_sub(vy, vx);
        cpu.registers[x as usize] = diff;
        if vy < vx {
            cpu.registers[0xF] = 0x00;
        } else {
            cpu.registers[0xF] = 0x01;
        }
        ExecutionResult::Advanced
    }

    fn _8xye(cpu: &mut Cpu) -> (r: ExecutionResult) {
        let x = Self::get_x(cpu);
        let y = Self::get_y(cpu);
        let vy = cpu.registers[y as usize];
        let msb_vy = (vy & 0x80) >> 7u8;
        let shifted_vy = vy << 1u8;
        cpu.registers[x as usize] = shifted_vy;
        cpu.registers[0xF] = msb_vy;
        ExecutionResult::Advanced
    }

    fn _9xy0(cpu: &mut Cpu) -> (r: ExecutionResult) {
        let x = Self::get_x(cpu);
        let y = Self::get_y(cpu);
        let vx = cpu.registers[x as usize];
        let vy = cpu.registers[y as usize];
        if vx != vy {
            ExecutionResult::Skipped
        } else {
            ExecutionResult::Advanced
        }
    }

    fn annn(cpu: &mut Cpu) -> (r: ExecutionResult) {
        let address = nnn_of(cpu.current_opcode.0);
        cpu.index_register = address;
        ExecutionResult::Advanced
    }

    fn bnnn(cpu: &mut Cpu) -> (r: ExecutionResult) {
        let address = nnn_of(cpu.current_opcode.0);
        let added_address = wrap_add_addr(address, cpu.registers[0] as u16);
        cpu.program_counter = added_address;
        ExecutionResult::Jumped
    }

    fn cxnn(cpu: &mut Cpu, rnd: u8) -> (r: ExecutionResult) {
        let op = cpu.current_opcode.0;
        let x = x_of(op);
        let masked_rng = rnd & nn_of(op);
        cpu.registers[x as usize] = masked_rng;
        ExecutionResult::Advanced
    }

    fn dxyn(cpu: &mut Cpu, mem: &Memory, gpu: &mut Gpu) -> (r: ExecutionResult) {
        let op = cpu.current_opcode.0;
        let x = x_of(op);
        let y = y_of(op);
        let n = n_of(op) as usize;
        let vx0 = (cpu.registers[x as usize] % 64) as usize;
        let vy0 = (cpu.registers[y as usize] % 32) as usize;
        let i = cpu.index_register;
        let ghost pre = gpu.screen@;
        let ghost rami = mem.ram@;
        let mut collision_detected = false;
        let mut row: usize = 0;
        while row < n
            invariant
                row <= n,
                n < 16,
                vx0 < 64,
                vy0 < 32,
                i == cpu.index_register,
                rami == mem.ram@,
                pre.len() == 2048,
                forall|j: int|
                    0 <= j < 2048 ==> gpu.screen@[j] == drawn_pixel_partial(
                        pre,
                        rami,
                        i as int,
                        vx0 as int,
                        vy0 as int,
                        row as int,
                        0,
                        j,
                    ),
                collision_detected == draw_collision_partial(
                    pre,
                    rami,
                    i as int,
                    vx0 as int,
                    vy0 as int,
                    row as int,
                    0,
                ),
            decreases n - row,
        {
            let sprite_byte = mem.ram[ram_index(i, row)];
            let mut bit: usize = 0;
            while bit < 8
                invariant
                    bit <= 8,
                    row < n,
                    n < 16,
                    vx0 < 64,
                    vy0 < 32,
                    i == cpu.index_register,
                    rami == mem.ram@,
                    pre.len() == 2048,
                    sprite_byte == rami[(i + row) % 4096],
                    forall|j: int|
                        0 <= j < 2048 ==> gpu.screen@[j] == drawn_pixel_partial(
                            pre,
                            rami,
                            i as int,
                            vx0 as int,
                            vy0 as int,
                            row as int,
                            bit as int,
                            j,
                        ),
                    collision_detected == draw_collision_partial(
                        pre,
                        rami,
                        i as int,
                        vx0 as int,
                        vy0 as int,
                        row as int,
                        bit as int,
                    ),
                decreases 8 - bit,
            {
                let current_y = (vy0 + row) % 32;
                let current_x = (vx0 + bit) % 64;
                let screen_index = current_y * 64 + current_x;
                proof {
                    lemma_target_split(vx0 as int, vy0 as int, row as int, bit as int);
                    assert(screen_index == target_idx(
                        vx0 as int,
                        vy0 as int,
                        row as int,
                        bit as int,
                    ));
                }
                let ghost screen_before = gpu.screen@;
                let old_pixel = gpu.screen[screen_index];
                let new_pixel = (sprite_byte >> ((7 - bit) as u8)) & 1 == 1;
                gpu.screen[screen_index] = old_pixel != new_pixel;
                if old_pixel && new_pixel {
                    collision_detected = true;
                }
                proof {
                    let ghost ii = i as int;
                    let ghost vxi = vx0 as int;
                    let ghost vyi = vy0 as int;
                    let ghost ri = row as int;
                    let ghost bi = bit as int;
                    let ghost tgt = target_idx(vxi, vyi, ri, bi);
                    assert(new_pixel == sprite_pixel(rami, ii, ri, bi));
                    assert(old_pixel == pre[tgt]);
                    assert forall|j: int| 0 <= j < 2048 implies gpu.screen@[j]
                        == drawn_pixel_partial(pre, rami, ii, vxi, vyi, ri, bi + 1, j) by {
                        lemma_idx_split(j);
                        let rj = (j / 64 - vyi) % 32;
                        let bj = (j % 64 - vxi) % 64;
                        vstd::arithmetic::div_mod::lemma_mod_bound(j / 64 - vyi, 32);
                        vstd::arithmetic::div_mod::lemma_mod_bound(j % 64 - vxi, 64);
                        if j != tgt {
                            if rj == ri && bj == bi {
                                lemma_wrap_converse(vyi, j / 64, 32);
                                lemma_wrap_converse(vxi, j % 64, 64);
                                assert(j / 64 == (vyi + ri) % 32);
                                assert(j % 64 == (vxi + bi) % 64);
                                assert(j == tgt);
                            }
                            assert(gpu.screen@[j] == screen_before[j]);
                        }
                    }
                    // The collision flag now covers the freshly processed bit.
                    if old_pixel && new_pixel {
                        assert(pre[target_idx(vxi, vyi, ri, bi)] && sprite_pixel(
                            rami,
                            ii,
                            ri,
                            bi,
                        ));
                        assert(draw_collision_partial(pre, rami, ii, vxi, vyi, ri, bi + 1));
                    } else {
                        if draw_collision_partial(pre, rami, ii, vxi, vyi, ri, bi + 1) {
                            let (rw, bw): (int, int) = choose|rw: int, bw: int|
                                0 <= rw && 0 <= bw < 8 && (rw < ri || (rw == ri && bw < bi + 1))
                                    && pre[#[trigger] target_idx(vxi, vyi, rw, bw)]
                                    && sprite_pixel(rami, ii, rw, bw);
                            if !(rw < ri || (rw == ri && bw < bi)) {
                                assert(rw == ri && bw == bi);
                                assert(false);
                            }
                            assert(draw_collision_partial(pre, rami, ii, vxi, vyi, ri, bi));
                        }
                        if draw_collision_partial(pre, rami, ii, vxi, vyi, ri, bi) {
                            assert(draw_collision_partial(pre, rami, ii, vxi, vyi, ri, bi + 1));
                        }
                    }
                }
                bit = bit + 1;
            }
            proof {
                let ghost ii = i as int;
                let ghost vxi = vx0 as int;
                let ghost vyi = vy0 as int;
                let ghost ri = row as int;
                assert forall|j: int| 0 <= j < 2048 implies gpu.screen@[j] == drawn_pixel_partial(
                    pre,
                    rami,
                    ii,
                    vxi,
                    vyi,
                    ri + 1,
                    0,
                    j,
                ) by {
                    lemma_idx_split(j);
                    vstd::arithmetic::div_mod::lemma_mod_bound(j / 64 - vyi, 32);
                    vstd::arithmetic::div_mod::lemma_mod_bound(j % 64 - vxi, 64);
                }
                if draw_collision_partial(pre, rami, ii, vxi, vyi, ri, 8) {
                    let (rw, bw): (int, int) = choose|rw: int, bw: int|
                        0 <= rw && 0 <= bw < 8 && (rw < ri || (rw == ri && bw < 8)) && pre[
                            #[trigger] target_idx(vxi, vyi, rw, bw)
                        ] && sprite_pixel(rami, ii, rw, bw);
                    assert(rw < ri + 1);
                    assert(draw_collision_partial(pre, rami, ii, vxi, vyi, ri + 1, 0));
                }
                if draw_collision_partial(pre, rami, ii, vxi, vyi, ri + 1, 0) {
                    let (rw, bw): (int, int) = choose|rw: int, bw: int|
                        0 <= rw && 0 <= bw < 8 && (rw < ri + 1 || (rw == ri + 1 && bw < 0)) && pre[
                            #[trigger] target_idx(vxi, vyi, rw, bw)
                        ] && sprite_pixel(rami, ii, rw, bw);
                    assert(rw < ri || (rw == ri && bw < 8));
                    assert(draw_collision_partial(pre, rami, ii, vxi, vyi, ri, 8));
                }
            }
            row = row + 1;
        }
        proof {
            let ghost ii = i as int;
            let ghost vxi = vx0 as int;
            let ghost vyi = vy0 as int;
            let ghost ni = n as int;
            assert(gpu.screen@ =~= drawn_screen(pre, rami, ii, vxi, vyi, ni));
            if draw_collision_partial(pre, rami, ii, vxi, vyi, ni, 0) {
                let (rw, bw): (int, int) = choose|rw: int, bw: int|
                    0 <= rw && 0 <= bw < 8 && (rw < ni || (rw == ni && bw < 0)) && pre[
                        #[trigger] target_idx(vxi, vyi, rw, bw)
                    ] && sprite_pixel(rami, ii, rw, bw);
                assert(draw_collision(pre, rami, ii, vxi, vyi, ni));
            }
            if draw_collision(pre, rami, ii, vxi, vyi, ni) {
                let (rw, bw): (int, int) = choose|rw: int, bw: int|
                    0 <= rw < ni && 0 <= bw < 8 && pre[#[trigger] target_idx(vxi, vyi, rw, bw)]
                        && sprite_pixel(rami, ii, rw, bw);
                assert(draw_collision_partial(pre, rami, ii, vxi, vyi, ni, 0));
            }
        }
        if collision_detected {
            cpu.registers[0xF] = 1;
        } else {
            cpu.registers[0xF] = 0;
        }
        ExecutionResult::Advanced
    }

    fn ex9e(cpu: &mut Cpu, keys: u16) -> (r: ExecutionResult) {
        let x = Self::get_x(cpu);
        let vx = cpu.registers[x as usize];
        if key_pressed(keys, vx) {
            ExecutionResult::Skipped
        } else {
            ExecutionResult::Advanced
        }
    }

    fn exa1(cpu: &mut Cpu, keys: u16) -> (r: ExecutionResult) {
        let x = Self::get_x(cpu);
        let vx = cpu.registers[x as usize];
        if !key_pressed(keys, vx) {
            ExecutionResult::Skipped
        } else {
            ExecutionResult::Advanced
        }
    }

    fn fx07(cpu: &mut Cpu, timers: &Timer) -> (r: ExecutionResult) {
        let delay_timer = timers.delay_timer;
        let x = Self::get_x(cpu);
        cpu.registers[x as usize] = delay_timer;
        ExecutionResult::Advanced
    }

    fn fx0a(cpu: &mut Cpu, keys: u16) -> (r: ExecutionResult) {
        if keys == 0 {
            return ExecutionResult::Jumped;
        }
        let x = Self::get_x(cpu);
        let mut k: u16 = 0;
        while k < 16
            invariant
                k <= 16,
                *cpu == *old(cpu),
                x == op_x(cpu.current_opcode.0),
                x < 16,
                first_key_from(keys, 0) == first_key_from(keys, k),
                keys != 0,
            decreases 16 - k,
        {
            if (keys >> k) & 1 == 1 {
                proof {
                    assert(first_key_from(keys, k) == k);
                    assert(first_key(keys) == k as u8);
                }
                cpu.registers[x as usize] = k as u8;
                return ExecutionResult::Advanced;
            }
            k = k + 1;
        }
        proof {
            lemma_no_key_means_zero(keys);
        }
        ExecutionResult::Jumped
    }

    fn fx15(cpu: &mut Cpu, timers: &mut Timer) -> (r: ExecutionResult) {
        let x = Self::get_x(cpu);
        let vx = cpu.registers[x as usize];
        timers.delay_timer = vx;
        ExecutionResult::Advanced
    }

    fn fx18(cpu: &mut Cpu, timers: &mut Timer) -> (r: ExecutionResult) {
        let x = Self::get_x(cpu);
        let vx = cpu.registers[x as usize];
        timers.sound_timer = vx;
        ExecutionResult::Advanced
    }

    fn fx1e(cpu: &mut Cpu) -> (r: ExecutionResult) {
        let x = Self::get_x(cpu);
        let vx = cpu.registers[x as usize];
        let new_i = wrap_add_addr(cpu.index_register, vx as u16);
        cpu.index_register = new_i;
        ExecutionResult::Advanced
    }

    fn fx29(cpu: &mut Cpu) -> (r: ExecutionResult) {
        let x = Self::get_x(cpu);
        let vx = cpu.registers[x as usize];
        cpu.index_register = vx as u16 * 5;
        ExecutionResult::Advanced
    }

    fn fx33(cpu: &mut Cpu, mem: &mut Memory) -> (r: ExecutionResult) {
        let x = Self::get_x(cpu);
        let register = cpu.registers[x as usize];
        let hundreds = register / 100;
        let tens = (register / 10) % 10;
        let ones = register % 10;
        let i = cpu.index_register;
        mem.ram[ram_index(i, 0)] = hundreds;
        mem.ram[ram_index(i, 1)] = tens;
        mem.ram[ram_index(i, 2)] = ones;
        ExecutionResult::Advanced
    }

    fn fx55(cpu: &mut Cpu, mem: &mut Memory) -> (r: ExecutionResult) {
        let num_registers = Self::get_x(cpu);
        let i = cpu.index_register;
        let ghost pre = mem.ram@;
        let ghost regs = cpu.registers@;
        let mut k: u8 = 0;
        while k <= num_registers
            invariant
                k <= num_registers + 1,
                num_registers == op_x(cpu.current_opcode.0),
                num_registers < 16,
                i == cpu.index_register,
                regs == cpu.registers@,
                pre.len() == 4096,
                forall|a: int|
                    0 <= a < 4096 ==> mem.ram@[a] == (if (a - i) % 4096 < k {
                        regs[(a - i) % 4096]
                    } else {
                        pre[a]
                    }),
            decreases num_registers + 1 - k,
        {
            let a = ram_index(i, k as usize);
            let ghost ram_before = mem.ram@;
            mem.ram[a] = cpu.registers[k as usize];
            proof {
                let ghost ii = i as int;
                let ghost ki = k as int;
                lemma_wrap_inverse(ii, ki, 4096);
                assert forall|ax: int| 0 <= ax < 4096 implies mem.ram@[ax] == (if (ax - ii) % 4096
                    < ki + 1 {
                    regs[(ax - ii) % 4096]
                } else {
                    pre[ax]
                }) by {
                    vstd::arithmetic::div_mod::lemma_mod_bound(ax - ii, 4096);
                    if ax != a {
                        if (ax - ii) % 4096 == ki {
                            lemma_wrap_converse(ii, ax, 4096);
                            assert(ax == (ii + ki) % 4096);
                            assert(false);
                        }
                        assert(mem.ram@[ax] == ram_before[ax]);
                    }
                }
            }
            k = k + 1;
        }
        proof {
            assert(mem.ram@ =~= stored_ram(
                pre,
                regs,
                i as int,
                op_x(cpu.current_opcode.0) as int,
            ));
        }
        let new_i = wrap_add_addr(i, num_registers as u16 + 1);
        cpu.index_register = new_i;
        ExecutionResult::Advanced
    }

    fn fx65(cpu: &mut Cpu, mem: &Memory) -> (r: ExecutionResult) {
        let num_registers = Self::get_x(cpu);
        let i = cpu.index_register;
        let ghost pre_regs = cpu.registers@;
        let mut k: u8 = 0;
        while k <= num_registers
            invariant
                k <= num_registers + 1,
                num_registers == op_x(cpu.current_opcode.0),
                num_registers < 16,
                i == cpu.index_register,
                cpu.program_counter == old(cpu).program_counter,
                cpu.stack@ == old(cpu).stack@,
                cpu.stack_pointer == old(cpu).stack_pointer,
                cpu.current_opcode == old(cpu).current_opcode,
                pre_regs.len() == 16,
                forall|j: int|
                    0 <= j < 16 ==> cpu.registers@[j] == (if j < k {
                        mem.ram@[(i + j) % 4096]
                    } else {
                        pre_regs[j]
                    }),
            decreases num_registers + 1 - k,
        {
            let a = ram_index(i, k as usize);
            cpu.registers[k as usize] = mem.ram[a];
            k = k + 1;
        }
        proof {
            assert(cpu.registers@ =~= loaded_regs(
                pre_regs,
                mem.ram@,
                i as int,
                op_x(cpu.current_opcode.0) as int,
            ));
        }
        let new_i = wrap_add_addr(i, num_registers as u16 + 1);
        cpu.index_register = new_i;
        ExecutionResult::Advanced
    }
}

} // verus!
