//! The mathematical model of the machine: one ghost record for the whole
//! state and one function giving the exact effect of a decode/execute cycle.
//!
//! `Cpu::process` promises that its outcome equals `exec_instr` of the state
//! it started from; every instruction's semantics, the program-counter
//! movement, the stack faults and the unknown-opcode policy are all pinned
//! here in one place.

use vstd::prelude::*;

use crate::cpu::Cpu;
use crate::cpu::Fault;
use crate::cpu::StepOutcome;
use crate::gpu::draw_collision;
use crate::gpu::drawn_screen;
use crate::gpu::Gpu;
use crate::iset::first_key;
use crate::iset::key_down;
use crate::iset::loaded_regs;
use crate::iset::op_n;
use crate::iset::op_nn;
use crate::iset::op_nnn;
use crate::iset::op_x;
use crate::iset::op_y;
use crate::iset::stored_ram;
use crate::iset::carry8;
use crate::iset::no_borrow8;
use crate::iset::wrap_add8;
use crate::iset::wrap_sub8;
use crate::mem::Memory;
use crate::timer::Timer;

verus! {

/// The whole machine as mathematics: register file, program counter, index
/// register, call stack, current opcode, memory, framebuffer and timers.
#[verifier::ext_equal]
pub struct State {
    pub regs: Seq<u8>,
    pub pc: u16,
    pub i: u16,
    pub stack: Seq<u16>,
    pub sp: int,
    pub op: u16,
    pub ram: Seq<u8>,
    pub screen: Seq<bool>,
    pub delay: u8,
    pub sound: u8,
}

impl State {
    /// The model of the concrete machine parts.
    pub open spec fn of(cpu: Cpu, mem: Memory, gpu: Gpu, timers: Timer) -> State {
        State {
            regs: cpu.registers@,
            pc: cpu.program_counter,
            i: cpu.index_register,
            stack: cpu.stack@,
            sp: cpu.stack_pointer as int,
            op: cpu.current_opcode.0,
            ram: mem.ram@,
            screen: gpu.screen@,
            delay: timers.delay_timer,
            sound: timers.sound_timer,
        }
    }
}

/// The program counter moved `k` bytes forward, wrapped to the address space.
pub open spec fn advance(pc: u16, k: int) -> u16 {
    ((pc + k) % 4096) as u16
}

/// An all-dark framebuffer.
pub open spec fn blank_screen() -> Seq<bool> {
    Seq::new(2048, |idx: int| false)
}

/// The state one instruction later and what the cycle reports, as a function
/// of the state (whose `op` field holds the fetched opcode), the key bitmask
/// and the random byte drawn for `CXNN`.
pub open spec fn exec_instr(s: State, keys: u16, rnd: u8) -> (State, Result<
    StepOutcome,
    Fault,
>) {
    let op = s.op;
    let h = op >> 12;
    let x = op_x(op) as int;
    let y = op_y(op) as int;
    let vx = s.regs[x];
    let vy = s.regs[y];
    let n = op_n(op);
    let nn = op_nn(op);
    let nnn = op_nnn(op);
    if op == 0x00EE {
        if s.sp == 0 {
            (s, Err(Fault::StackUnderflow))
        } else {
            (
                State { pc: advance(s.stack[s.sp - 1], 2), sp: s.sp - 1, ..s },
                Ok(StepOutcome::Executed),
            )
        }
    } else if op == 0x00E0 {
        (State { screen: blank_screen(), pc: advance(s.pc, 2), ..s }, Ok(StepOutcome::Executed))
    } else if h == 0 {
        (State { pc: advance(s.pc, 2), ..s }, Ok(StepOutcome::Executed))
    } else if h == 1 {
        (State { pc: nnn, ..s }, Ok(StepOutcome::Executed))
    } else if h == 2 {
        if s.sp >= 16 {
            (s, Err(Fault::StackOverflow))
        } else {
            (
                State { stack: s.stack.update(s.sp, s.pc), sp: s.sp + 1, pc: nnn, ..s },
                Ok(StepOutcome::Executed),
            )
        }
    } else if h == 3 {
        (
            State { pc: advance(s.pc, if vx == nn { 4int } else { 2int }), ..s },
            Ok(StepOutcome::Executed),
        )
    } else if h == 4 {
        (
            State { pc: advance(s.pc, if vx != nn { 4int } else { 2int }), ..s },
            Ok(StepOutcome::Executed),
        )
    } else if h == 5 && n == 0 {
        (
            State { pc: advance(s.pc, if vx == vy { 4int } else { 2int }), ..s },
            Ok(StepOutcome::Executed),
        )
    } else if h == 6 {
        (
            State { regs: s.regs.update(x, nn), pc: advance(s.pc, 2), ..s },
            Ok(StepOutcome::Executed),
        )
    } else if h == 7 {
        (
            State { regs: s.regs.update(x, wrap_add8(vx, nn)), pc: advance(s.pc, 2), ..s },
            Ok(StepOutcome::Executed),
        )
    } else if h == 8 && n == 0 {
        (
            State { regs: s.regs.update(x, vy), pc: advance(s.pc, 2), ..s },
            Ok(StepOutcome::Executed),
        )
    } else if h == 8 && n == 1 {
        (
            State { regs: s.regs.update(x, vx | vy), pc: advance(s.pc, 2), ..s },
            Ok(StepOutcome::Executed),
        )
    } else if h == 8 && n == 2 {
        (
            State { regs: s.regs.update(x, vx & vy), pc: advance(s.pc, 2), ..s },
            Ok(StepOutcome::Executed),
        )
    } else if h == 8 && n == 3 {
        (
            State { regs: s.regs.update(x, vx ^ vy), pc: advance(s.pc, 2), ..s },
            Ok(StepOutcome::Executed),
        )
    } else if h == 8 && n == 4 {
        (
            State {
                regs: s.regs.update(x, wrap_add8(vx, vy)).update(15, carry8(vx, vy)),
                pc: advance(s.pc, 2),
                ..s
            },
            Ok(StepOutcome::Executed),
        )
    } else if h == 8 && n == 5 {
        (
            State {
                regs: s.regs.update(x, wrap_sub8(vx, vy)).update(15, no_borrow8(vx, vy)),
                pc: advance(s.pc, 2),
                ..s
            },
            Ok(StepOutcome::Executed),
        )
    } else if h == 8 && n == 6 {
        (
            State {
                regs: s.regs.update(x, vy >> 1u8).update(15, vy & 1),
                pc: advance(s.pc, 2),
                ..s
            },
            Ok(StepOutcome::Executed),
        )
    } else if h == 8 && n == 7 {
        (
            State {
                regs: s.regs.update(x, wrap_sub8(vy, vx)).update(15, no_borrow8(vy, vx)),
                pc: advance(s.pc, 2),
                ..s
            },
            Ok(StepOutcome::Executed),
        )
    } else if h == 8 && n == 0xE {
        (
            State {
                regs: s.regs.update(x, vy << 1u8).update(15, (vy & 0x80) >> 7u8),
                pc: advance(s.pc, 2),
                ..s
            },
            Ok(StepOutcome::Executed),
        )
    } else if h == 9 && n == 0 {
        (
            State { pc: advance(s.pc, if vx != vy { 4int } else { 2int }), ..s },
            Ok(StepOutcome::Executed),
        )
    } else if h == 0xA {
        (State { i: nnn, pc: advance(s.pc, 2), ..s }, Ok(StepOutcome::Executed))
    } else if h == 0xB {
        (State { pc: ((nnn + s.regs[0]) % 4096) as u16, ..s }, Ok(StepOutcome::Executed))
    } else if h == 0xC {
        (
            State { regs: s.regs.update(x, rnd & nn), pc: advance(s.pc, 2), ..s },
            Ok(StepOutcome::Executed),
        )
    } else if h == 0xD {
        let vx0 = vx as int % 64;
        let vy0 = vy as int % 32;
        (
            State {
                screen: drawn_screen(s.screen, s.ram, s.i as int, vx0, vy0, n as int),
                regs: s.regs.update(
                    15,
                    if draw_collision(s.screen, s.ram, s.i as int, vx0, vy0, n as int) {
                        1u8
                    } else {
                        0u8
                    },
                ),
                pc: advance(s.pc, 2),
                ..s
            },
            Ok(StepOutcome::Executed),
        )
    } else if h == 0xE && nn == 0x9E {
        (
            State { pc: advance(s.pc, if key_down(keys, vx) { 4int } else { 2int }), ..s },
            Ok(StepOutcome::Executed),
        )
    } else if h == 0xE && nn == 0xA1 {
        (
            State { pc: advance(s.pc, if !key_down(keys, vx) { 4int } else { 2int }), ..s },
            Ok(StepOutcome::Executed),
        )
    } else if h == 0xF && nn == 0x07 {
        (
            State { regs: s.regs.update(x, s.delay), pc: advance(s.pc, 2), ..s },
            Ok(StepOutcome::Executed),
        )
    } else if h == 0xF && nn == 0x0A {
        if keys == 0 {
            (s, Ok(StepOutcome::AwaitingKey))
        } else {
            (
                State { regs: s.regs.update(x, first_key(keys)), pc: advance(s.pc, 2), ..s },
                Ok(StepOutcome::Executed),
            )
        }
    } else if h == 0xF && nn == 0x15 {
        (State { delay: vx, pc: advance(s.pc, 2), ..s }, Ok(StepOutcome::Executed))
    } else if h == 0xF && nn == 0x18 {
        (State { sound: vx, pc: advance(s.pc, 2), ..s }, Ok(StepOutcome::Executed))
    } else if h == 0xF && nn == 0x1E {
        (
            State { i: ((s.i + vx) % 4096) as u16, pc: advance(s.pc, 2), ..s },
            Ok(StepOutcome::Executed),
        )
    } else if h == 0xF && nn == 0x29 {
        (State { i: (vx * 5) as u16, pc: advance(s.pc, 2), ..s }, Ok(StepOutcome::Executed))
    } else if h == 0xF && nn == 0x33 {
        (
            State {
                ram: s.ram.update(s.i as int % 4096, vx / 100).update(
                    (s.i as int + 1) % 4096,
                    (vx / 10) % 10,
                ).update((s.i as int + 2) % 4096, vx % 10),
                pc: advance(s.pc, 2),
                ..s
            },
            Ok(StepOutcome::Executed),
        )
    } else if h == 0xF && nn == 0x55 {
        (
            State {
                ram: stored_ram(s.ram, s.regs, s.i as int, x),
                i: ((s.i + x + 1) % 4096) as u16,
                pc: advance(s.pc, 2),
                ..s
            },
            Ok(StepOutcome::Executed),
        )
    } else if h == 0xF && nn == 0x65 {
        (
            State {
                regs: loaded_regs(s.regs, s.ram, s.i as int, x),
                i: ((s.i + x + 1) % 4096) as u16,
                pc: advance(s.pc, 2),
                ..s
            },
            Ok(StepOutcome::Executed),
        )
    } else {
        (State { pc: advance(s.pc, 2), ..s }, Ok(StepOutcome::UnknownOpcode))
    }
}

/// One full cycle on the model: fetch the two opcode bytes at the program
/// counter, then execute the fetched instruction.
pub open spec fn step_cycle(s: State, keys: u16, rnd: u8) -> (State, Result<
    StepOutcome,
    Fault,
>) {
    exec_instr(State { op: crate::cpu::fetch_spec(s.ram, s.pc), ..s }, keys, rnd)
}

} // verus!
