//! Machine-checked laws of the instruction set: facts that relate several
//! instructions, proved once and for all over the model `exec_instr`.

use vstd::prelude::*;

use crate::addr::lemma_wrap_inverse;
use crate::cpu::Fault;
use crate::cpu::StepOutcome;
use crate::gpu::draw_collision;
use crate::gpu::drawn_screen;
use crate::gpu::lemma_target_split;
use crate::gpu::sprite_pixel;
use crate::gpu::target_idx;
use crate::state::advance;
use crate::state::exec_instr;
use crate::state::State;

verus! {

/// Loading an immediate and then adding zero is a no-op add: for every
/// machine state and every `nn`, running `6XNN` and then `7X00` leaves
/// register X holding exactly `nn`.
#[verifier::rlimit(100)]
#[verifier::spinoff_prover]
pub proof fn lemma_load_then_add_zero(
    s: State,
    x: u8,
    nn: u8,
    keys1: u16,
    rnd1: u8,
    keys2: u16,
    rnd2: u8,
)
    requires
        x < 16,
        s.regs.len() == 16,
    ensures
        ({
            let op_load = 0x6000u16 | ((x as u16) << 8u16) | (nn as u16);
            let op_add = 0x7000u16 | ((x as u16) << 8u16);
            let s1 = exec_instr(State { op: op_load, ..s }, keys1, rnd1).0;
            let s2 = exec_instr(State { op: op_add, ..s1 }, keys2, rnd2).0;
            s2.regs[x as int] == nn
        }),
{
    let op_load = 0x6000u16 | ((x as u16) << 8u16) | (nn as u16);
    let op_add = 0x7000u16 | ((x as u16) << 8u16);
    assert(x < 16 ==> (op_load >> 12 == 6 && (op_load >> 8) & 0xF == x as u16 && (op_load & 0xFF)
        == nn as u16 && op_load != 0x00EE && op_load != 0x00E0)) by (bit_vector)
        requires
            op_load == 0x6000u16 | ((x as u16) << 8u16) | (nn as u16),
    ;
    assert(x < 16 ==> (op_add >> 12 == 7 && (op_add >> 8) & 0xF == x as u16 && (op_add & 0xFF)
        == 0 && op_add != 0x00EE && op_add != 0x00E0)) by (bit_vector)
        requires
            op_add == 0x7000u16 | ((x as u16) << 8u16),
    ;
    let s1 = exec_instr(State { op: op_load, ..s }, keys1, rnd1).0;
    assert(s1.regs == s.regs.update(x as int, nn));
    let s2 = exec_instr(State { op: op_add, ..s1 }, keys2, rnd2).0;
    assert(s2.regs[x as int] == crate::iset::wrap_add8(nn, 0));
}

/// Clearing the display leaves every pixel unset.
#[verifier::rlimit(100)]
#[verifier::spinoff_prover]
pub proof fn lemma_clear_screen(s: State, keys: u16, rnd: u8)
    ensures
        forall|idx: int|
            0 <= idx < 2048 ==> !exec_instr(State { op: 0x00E0, ..s }, keys, rnd).0.screen[idx],
{
}

/// Drawing the same sprite at the same position twice restores the screen
/// (XOR is self-inverse), and the second draw reports a collision exactly
/// where the first draw turned a pixel on.
#[verifier::rlimit(100)]
#[verifier::spinoff_prover]
pub proof fn lemma_draw_twice(pre: Seq<bool>, ram: Seq<u8>, i: int, vx0: int, vy0: int, n: int)
    requires
        pre.len() == 2048,
        0 <= vx0 < 64,
        0 <= vy0 < 32,
        0 <= n < 16,
    ensures
        drawn_screen(drawn_screen(pre, ram, i, vx0, vy0, n), ram, i, vx0, vy0, n) == pre,
        draw_collision(drawn_screen(pre, ram, i, vx0, vy0, n), ram, i, vx0, vy0, n) <==> (exists|
            r: int,
            b: int,
        |
            0 <= r < n && 0 <= b < 8 && sprite_pixel(ram, i, r, b) && !pre[#[trigger] target_idx(
                vx0,
                vy0,
                r,
                b,
            )]),
{
    let s1 = drawn_screen(pre, ram, i, vx0, vy0, n);
    assert(drawn_screen(s1, ram, i, vx0, vy0, n) =~= pre);
    assert forall|r: int, b: int| 0 <= r < n && 0 <= b < 8 implies (s1[target_idx(
        vx0,
        vy0,
        r,
        b,
    )] == (pre[#[trigger] target_idx(vx0, vy0, r, b)] != sprite_pixel(ram, i, r, b))) by {
        lemma_target_split(vx0, vy0, r, b);
    }
}

/// Storing registers and then loading them back restores them: `FX55` at
/// address `I`, then `FX65` with the same X from the same `I`, rebuilds
/// `V0..=Vx` no matter what the registers held in between; registers past
/// `Vx` keep the in-between values, and the index register advances by
/// `X + 1` on each of the two calls.
#[verifier::rlimit(100)]
#[verifier::spinoff_prover]
pub proof fn lemma_store_load_round_trip(
    s: State,
    between: Seq<u8>,
    x: u8,
    keys1: u16,
    rnd1: u8,
    keys2: u16,
    rnd2: u8,
)
    requires
        x < 16,
        s.regs.len() == 16,
        s.ram.len() == 4096,
        between.len() == 16,
    ensures
        ({
            let op_store = 0xF055u16 | ((x as u16) << 8u16);
            let op_load = 0xF065u16 | ((x as u16) << 8u16);
            let s1 = exec_instr(State { op: op_store, ..s }, keys1, rnd1).0;
            let s2 = exec_instr(
                State { op: op_load, regs: between, i: s.i, ..s1 },
                keys2,
                rnd2,
            ).0;
            &&& s1.i == (s.i + x + 1) % 4096
            &&& s2.i == (s.i + x + 1) % 4096
            &&& forall|k: int| 0 <= k <= x ==> s2.regs[k] == s.regs[k]
            &&& forall|k: int| x < k < 16 ==> s2.regs[k] == between[k]
        }),
{
    let op_store = 0xF055u16 | ((x as u16) << 8u16);
    let op_load = 0xF065u16 | ((x as u16) << 8u16);
    assert(x < 16 ==> (op_store >> 12 == 0xF && (op_store >> 8) & 0xF == x as u16 && (op_store
        & 0xFF) == 0x55 && op_store != 0x00EE && op_store != 0x00E0)) by (bit_vector)
        requires
            op_store == 0xF055u16 | ((x as u16) << 8u16),
    ;
    assert(x < 16 ==> (op_load >> 12 == 0xF && (op_load >> 8) & 0xF == x as u16 && (op_load
        & 0xFF) == 0x65 && op_load != 0x00EE && op_load != 0x00E0)) by (bit_vector)
        requires
            op_load == 0xF065u16 | ((x as u16) << 8u16),
    ;
    let s1 = exec_instr(State { op: op_store, ..s }, keys1, rnd1).0;
    assert(s1.ram == crate::iset::stored_ram(s.ram, s.regs, s.i as int, x as int));
    let s2 = exec_instr(State { op: op_load, regs: between, i: s.i, ..s1 }, keys2, rnd2).0;
    assert forall|k: int| 0 <= k <= x implies s2.regs[k] == s.regs[k] by {
        lemma_wrap_inverse(s.i as int, k, 4096);
        assert(s1.ram[(s.i as int + k) % 4096] == s.regs[k]);
    }
}

/// Calling a subroutine and returning restores the flow: `2NNN` pushes and
/// jumps, `00EE` pops, and the machine resumes at the instruction following
/// the call, with the stack pointer back at its pre-call value and all
/// registers, memory and display untouched.
#[verifier::rlimit(100)]
#[verifier::spinoff_prover]
pub proof fn lemma_call_return_pairing(s: State, nnn: u16, keys: u16, rnd: u8)
    requires
        nnn < 4096,
        0 <= s.sp < 16,
        s.stack.len() == 16,
    ensures
        ({
            let call = exec_instr(State { op: 0x2000u16 | nnn, ..s }, keys, rnd);
            let ret = exec_instr(State { op: 0x00EE, ..call.0 }, keys, rnd);
            &&& call.1 == Ok::<StepOutcome, Fault>(StepOutcome::Executed)
            &&& call.0.pc == nnn
            &&& ret.1 == Ok::<StepOutcome, Fault>(StepOutcome::Executed)
            &&& ret.0.pc == advance(s.pc, 2)
            &&& ret.0.sp == s.sp
            &&& ret.0.regs == s.regs
            &&& ret.0.i == s.i
            &&& ret.0.ram == s.ram
            &&& ret.0.screen == s.screen
        }),
{
    let op_call = 0x2000u16 | nnn;
    assert(nnn < 4096 ==> (op_call >> 12 == 2 && (op_call & 0xFFF) == nnn && op_call != 0x00EE
        && op_call != 0x00E0)) by (bit_vector)
        requires
            op_call == 0x2000u16 | nnn,
    ;
}

/// The subroutine opcode built from a 12-bit address.
pub open spec fn call_op(nnn: u16) -> u16 {
    0x2000u16 | nnn
}

/// The machine after a run of consecutive `2NNN` calls, one per listed
/// address, with no intervening return.
pub open spec fn run_calls(s: State, addrs: Seq<u16>, keys: u16, rnd: u8) -> State
    decreases addrs.len(),
{
    if addrs.len() == 0 {
        s
    } else {
        run_calls(
            exec_instr(State { op: call_op(addrs[0]), ..s }, keys, rnd).0,
            addrs.drop_first(),
            keys,
            rnd,
        )
    }
}

/// Each successful call pushes one frame: a run of calls that fits in the
/// stack raises the stack pointer by exactly the number of calls.
#[verifier::rlimit(100)]
#[verifier::spinoff_prover]
pub proof fn lemma_calls_raise_sp(s: State, addrs: Seq<u16>, keys: u16, rnd: u8)
    requires
        forall|j: int| 0 <= j < addrs.len() ==> addrs[j] < 4096,
        0 <= s.sp,
        s.sp + addrs.len() <= 16,
    ensures
        run_calls(s, addrs, keys, rnd).sp == s.sp + addrs.len(),
    decreases addrs.len(),
{
    if addrs.len() > 0 {
        let op = call_op(addrs[0]);
        let nnn = addrs[0];
        assert(nnn < 4096 ==> (op >> 12 == 2 && op != 0x00EE && op != 0x00E0)) by (bit_vector)
            requires
                op == 0x2000u16 | nnn,
        ;
        let s1 = exec_instr(State { op: op, ..s }, keys, rnd).0;
        assert(s1.sp == s.sp + 1);
        lemma_calls_raise_sp(s1, addrs.drop_first(), keys, rnd);
    }
}

/// Stack discipline: sixteen consecutive `2NNN` calls without a matching
/// `00EE` fill the stack, and the seventeenth faults with `StackOverflow`,
/// leaving the machine unchanged.
#[verifier::rlimit(100)]
#[verifier::spinoff_prover]
pub proof fn lemma_stack_overflow_on_seventeenth(
    s: State,
    addrs: Seq<u16>,
    last: u16,
    keys: u16,
    rnd: u8,
)
    requires
        s.sp == 0,
        addrs.len() == 16,
        forall|j: int| 0 <= j < 16 ==> addrs[j] < 4096,
        last < 4096,
    ensures
        ({
            let s16 = run_calls(s, addrs, keys, rnd);
            let overflowing = exec_instr(State { op: call_op(last), ..s16 }, keys, rnd);
            &&& overflowing.1 == Err::<StepOutcome, Fault>(Fault::StackOverflow)
            &&& overflowing.0 == State { op: call_op(last), ..s16 }
        }),
{
    lemma_calls_raise_sp(s, addrs, keys, rnd);
    let s16 = run_calls(s, addrs, keys, rnd);
    let op = call_op(last);
    assert(last < 4096 ==> (op >> 12 == 2 && op != 0x00EE && op != 0x00E0)) by (bit_vector)
        requires
            op == 0x2000u16 | last,
    ;
}

} // verus!
