//! The CPU state machine: sixteen 8-bit registers, the program counter, the
//! 16-deep call stack, the index register and the current opcode holder.

use vstd::prelude::*;

use crate::addr::wrap_add_addr;
use crate::gpu::Gpu;
use crate::iset::Chip8ISet;
use crate::iset::ExecutionResult;
use crate::iset::Nibbles;
use crate::iset::OpCode;
use crate::mem::Memory;
use crate::state::advance;
use crate::state::exec_instr;
use crate::state::State;
use crate::timer::Timer;

verus! {

/// A fatal fault: it terminates the run and is surfaced synchronously.
#[derive(Debug, Clone, Copy, PartialEq, Eq, Structural)]
pub enum Fault {
    /// A subroutine call with the 16-entry stack already full.
    StackOverflow,
    /// A subroutine return with an empty stack.
    StackUnderflow,
    /// A ROM image larger than the `0x200..0x1000` program space.
    RomTooLarge,
}

/// What one fetch/decode/execute cycle did.
#[derive(Debug, Clone, Copy, PartialEq, Eq, Structural)]
pub enum StepOutcome {
    /// An instruction was executed and the program counter moved accordingly.
    Executed,
    /// The current instruction waits for a key; no state changed and the same
    /// instruction runs again next cycle.
    AwaitingKey,
    /// The opcode matched no known pattern; it was skipped over so a malformed
    /// ROM cannot stall the machine.
    UnknownOpcode,
}

/// The 16-bit opcode read from `ram` at the program counter: the byte at `pc`
/// is the high byte, the byte at `pc + 1` the low byte, both addresses taken
/// modulo the 4096-byte address space.
pub open spec fn fetch_spec(ram: Seq<u8>, pc: u16) -> u16 {
    (ram[pc as int % 4096] * 256 + ram[(pc as int + 1) % 4096]) as u16
}

#[derive(Debug)]
pub struct Cpu {
    pub current_opcode: OpCode,
    /// General purpose registers V0-VF; VF doubles as the carry, borrow and
    /// collision flag.
    pub registers: [u8; 16],
    /// Points to the next instruction to fetch.
    pub program_counter: u16,
    pub stack: [u16; 16],
    pub stack_pointer: usize,
    /// Address of the current data; only its low 12 bits ever reach memory.
    pub index_register: u16,
}

impl Cpu {
    /// The stack pointer stays inside the 16-entry stack; every verified
    /// operation preserves this.
    pub open spec fn wf(self) -> bool {
        self.stack_pointer <= 16
    }

    pub fn new() -> (r: Self)
        ensures
            r.wf(),
            r.current_opcode.0 == 0,
            forall|k: int| 0 <= k < 16 ==> r.registers@[k] == 0u8,
            r.program_counter == 0x200,
            forall|k: int| 0 <= k < 16 ==> r.stack@[k] == 0u16,
            r.stack_pointer == 0,
            r.index_register == 0,
    {
        Self {
            current_opcode: OpCode(0),
            registers: [0u8; 16],
            index_register: 0,
            program_counter: 0x200,
            stack: [0u16; 16],
            stack_pointer: 0,
        }
    }

    /// Retrieves the two instruction bytes at the program counter from memory
    /// into the CPU; nothing else changes.
    pub fn fetch_opcode(&mut self, memory: &Memory)
        ensures
            final(self).current_opcode.0 == fetch_spec(memory.ram@, old(self).program_counter),
            final(self).registers@ == old(self).registers@,
            final(self).program_counter == old(self).program_counter,
            final(self).stack@ == old(self).stack@,
            final(self).stack_pointer == old(self).stack_pointer,
            final(self).index_register == old(self).index_register,
    {
        let opcode_high: u8 = memory.ram[(self.program_counter as usize) % 4096];
        let opcode_low: u8 = memory.ram[(self.program_counter as usize + 1) % 4096];
        let opcode: u16 = (opcode_high as u16) * 256 + opcode_low as u16;
        self.current_opcode = OpCode(opcode);
    }

    /// Decodes the current opcode, runs its handler, and moves the program
    /// counter as the handler asked. The whole effect — every instruction's
    /// semantics, the stack faults, the unknown-opcode policy — equals the
    /// model function `exec_instr` on the machine state.
    pub fn process(
        &mut self,
        memory: &mut Memory,
        gpu: &mut Gpu,
        timers: &mut Timer,
        keys: u16,
        rnd: u8,
    ) -> (r: Result<StepOutcome, Fault>)
        requires
            old(self).wf(),
        ensures
            final(self).wf(),
            (
                State::of(*final(self), *final(memory), *final(gpu), *final(timers)),
                r,
            ) == exec_instr(State::of(*old(self), *old(memory), *old(gpu), *old(timers)), keys, rnd),
    {
        let op = self.current_opcode.0;
        proof {
            assert((op >> 12) & 0xF == op >> 12 && (op >> 12) & 0xF < 16) by (bit_vector);
        }
        let tup = self.current_opcode.into_tuple();
        match tup.0 {
            0 => self.step_zero(memory, gpu, timers, keys, rnd),
            1..=7 => self.step_imm(memory, gpu, timers, keys, rnd),
            8 => self.step_alu(memory, gpu, timers, keys, rnd),
            9..=0xC => self.step_addr(memory, gpu, timers, keys, rnd),
            0xD => self.step_draw(memory, gpu, timers, keys, rnd),
            0xE => self.step_keys(memory, gpu, timers, keys, rnd),
            0xF => self.step_misc(memory, gpu, timers, keys, rnd),
            _ => {
                // a nibble is at most 0xF, so this arm cannot be reached
                proof {
                    assert(false);
                }
                Err(Fault::StackUnderflow)
            },
        }
    }

    /// The `0...` opcodes: clear, return, and the legacy no-op call.
    #[verifier::rlimit(100)]
    fn step_zero(
        &mut self,
        memory: &Memory,
        gpu: &mut Gpu,
        timers: &Timer,
        keys: u16,
        rnd: u8,
    ) -> (r: Result<StepOutcome, Fault>)
        requires
            old(self).wf(),
            old(self).current_opcode.0 >> 12 == 0,
        ensures
            final(self).wf(),
            (
                State::of(*final(self), *memory, *final(gpu), *timers),
                r,
            ) == exec_instr(State::of(*old(self), *memory, *old(gpu), *timers), keys, rnd),
    {
        let ghost model = exec_instr(State::of(*self, *memory, *gpu, *timers), keys, rnd);
        let op = self.current_opcode.0;
        proof {
            assert((op >> 12) & 0xF == op >> 12 && (op >> 12) & 0xF < 16 && (op >> 8) & 0xF < 16
                && (op >> 4) & 0xF < 16 && (op & 0xF) < 16 && (op & 0xFF) < 256) by (bit_vector);
            assert((((op >> 12) & 0xF == 0 && (op >> 8) & 0xF == 0 && (op >> 4) & 0xF == 0xE && (
            op & 0xF) == 0xE) == (op == 0x00EE)) && (((op >> 12) & 0xF == 0 && (op >> 8) & 0xF == 0
                && (op >> 4) & 0xF == 0xE && (op & 0xF) == 0) == (op == 0x00E0))) by (bit_vector);
        }
        let tup = self.current_opcode.into_tuple();
        match (tup.0, tup.1, tup.2, tup.3) {
            (0, 0, 0xE, 0xE) => {
                if self.stack_pointer == 0 {
                    return Err(Fault::StackUnderflow);
                }
                let er = OpCode::_00ee(self);
                self.advance_pc(er);
                proof {
                    assert(State::of(*self, *memory, *gpu, *timers) =~= model.0);
                }
                Ok(StepOutcome::Executed)
            },
            (0, 0, 0xE, 0) => {
                let er = OpCode::_00e0(gpu);
                self.advance_pc(er);
                proof {
                    assert(gpu.screen@ =~= crate::state::blank_screen());
                    assert(State::of(*self, *memory, *gpu, *timers) =~= model.0);
                }
                Ok(StepOutcome::Executed)
            },
            _ => {
                let er = OpCode::_0nnn(self);
                self.advance_pc(er);
                proof {
                    assert(State::of(*self, *memory, *gpu, *timers) =~= model.0);
                }
                Ok(StepOutcome::Executed)
            },
        }
    }

    /// The `1...` to `7...` opcodes: jumps, calls, immediate skips and
    /// immediate register arithmetic.
    #[verifier::rlimit(100)]
    fn step_imm(
        &mut self,
        memory: &Memory,
        gpu: &Gpu,
        timers: &Timer,
        keys: u16,
        rnd: u8,
    ) -> (r: Result<StepOutcome, Fault>)
        requires
            old(self).wf(),
            1 <= old(self).current_opcode.0 >> 12 <= 7,
        ensures
            final(self).wf(),
            (
                State::of(*final(self), *memory, *gpu, *timers),
                r,
            ) == exec_instr(State::of(*old(self), *memory, *gpu, *timers), keys, rnd),
    {
        let ghost model = exec_instr(State::of(*self, *memory, *gpu, *timers), keys, rnd);
        let op = self.current_opcode.0;
        proof {
            assert((op >> 12) & 0xF == op >> 12 && (op >> 12) & 0xF < 16 && (op >> 8) & 0xF < 16
                && (op >> 4) & 0xF < 16 && (op & 0xF) < 16 && (op & 0xFF) < 256) by (bit_vector);
            assert((1 <= op >> 12 && op >> 12 <= 7) ==> (op != 0x00EE && op != 0x00E0)) by (bit_vector);
        }
        let tup = self.current_opcode.into_tuple();
        match (tup.0, tup.1, tup.2, tup.3) {
            (2, _, _, _) => {
                if self.stack_pointer >= 16 {
                    return Err(Fault::StackOverflow);
                }
                let er = OpCode::_2nnn(self);
                self.advance_pc(er);
                proof {
                    assert(State::of(*self, *memory, *gpu, *timers) =~= model.0);
                }
                Ok(StepOutcome::Executed)
            },
            (1, _, _, _) => {
                let er = OpCode::_1nnn(self);
                self.advance_pc(er);
                proof {
                    assert(State::of(*self, *memory, *gpu, *timers) =~= model.0);
                }
                Ok(StepOutcome::Executed)
            },
            (3, _, _, _) => {
                let er = OpCode::_3xnn(self);
                self.advance_pc(er);
                proof {
                    assert(State::of(*self, *memory, *gpu, *timers) =~= model.0);
                }
                Ok(StepOutcome::Executed)
            },
            (4, _, _, _) => {
                let er = OpCode::_4xnn(self);
                self.advance_pc(er);
                proof {
                    assert(State::of(*self, *memory, *gpu, *timers) =~= model.0);
                }
                Ok(StepOutcome::Executed)
            },
            (5, _, _, 0) => {
                let er = OpCode::_5xy0(self);
                self.advance_pc(er);
                proof {
                    assert(State::of(*self, *memory, *gpu, *timers) =~= model.0);
                }
                Ok(StepOutcome::Executed)
            },
            (6, _, _, _) => {
                let er = OpCode::_6xnn(self);
                self.advance_pc(er);
                proof {
                    assert(State::of(*self, *memory, *gpu, *timers) =~= model.0);
                }
                Ok(StepOutcome::Executed)
            },
            (7, _, _, _) => {
                let er = OpCode::_7xnn(self);
                self.advance_pc(er);
                proof {
                    assert(State::of(*self, *memory, *gpu, *timers) =~= model.0);
                }
                Ok(StepOutcome::Executed)
            },
            _ => {
                self.advance_pc(ExecutionResult::Advanced);
                proof {
                    assert(State::of(*self, *memory, *gpu, *timers) =~= model.0);
                }
                Ok(StepOutcome::UnknownOpcode)
            },
        }
    }

    /// The `8...` opcodes: the register-to-register ALU operations.
    #[verifier::rlimit(100)]
    fn step_alu(
        &mut self,
        memory: &Memory,
        gpu: &Gpu,
        timers: &Timer,
        keys: u16,
        rnd: u8,
    ) -> (r: Result<StepOutcome, Fault>)
        requires
            old(self).wf(),
            old(self).current_opcode.0 >> 12 == 8,
        ensures
            final(self).wf(),
            (
                State::of(*final(self), *memory, *gpu, *timers),
                r,
            ) == exec_instr(State::of(*old(self), *memory, *gpu, *timers), keys, rnd),
    {
        let ghost model = exec_instr(State::of(*self, *memory, *gpu, *timers), keys, rnd);
        let op = self.current_opcode.0;
        proof {
            assert((op >> 12) & 0xF == op >> 12 && (op >> 12) & 0xF < 16 && (op >> 8) & 0xF < 16
                && (op >> 4) & 0xF < 16 && (op & 0xF) < 16 && (op & 0xFF) < 256) by (bit_vector);
            assert(op >> 12 == 8 ==> (op != 0x00EE && op != 0x00E0)) by (bit_vector);
        }
        let tup = self.current_opcode.into_tuple();
        match (tup.0, tup.1, tup.2, tup.3) {
            (8, _, _, 0) => {
                let er = OpCode::_8xy0(self);
                self.advance_pc(er);
                proof {
                    assert(State::of(*self, *memory, *gpu, *timers) =~= model.0);
                }
                Ok(StepOutcome::Executed)
            },
            (8, _, _, 1) => {
                let er = OpCode::_8xy1(self);
                self.advance_pc(er);
                proof {
                    assert(State::of(*self, *memory, *gpu, *timers) =~= model.0);
                }
                Ok(StepOutcome::Executed)
            },
            (8, _, _, 2) => {
                let er = OpCode::_8xy2(self);
                self.advance_pc(er);
                proof {
                    assert(State::of(*self, *memory, *gpu, *timers) =~= model.0);
                }
                Ok(StepOutcome::Executed)
            },
            (8, _, _, 3) => {
                let er = OpCode::_8xy3(self);
                self.advance_pc(er);
                proof {
                    assert(State::of(*self, *memory, *gpu, *timers) =~= model.0);
                }
                Ok(StepOutcome::Executed)
            },
            (8, _, _, 4) => {
                let er = OpCode::_8xy4(self);
                self.advance_pc(er);
                proof {
                    assert(State::of(*self, *memory, *gpu, *timers) =~= model.0);
                }
                Ok(StepOutcome::Executed)
            },
            (8, _, _, 5) => {
                let er = OpCode::_8xy5(self);
                self.advance_pc(er);
                proof {
                    assert(State::of(*self, *memory, *gpu, *timers) =~= model.0);
                }
                Ok(StepOutcome::Executed)
            },
            (8, _, _, 6) => {
                let er = OpCode::_8xy6(self);
                self.advance_pc(er);
                proof {
                    assert(State::of(*self, *memory, *gpu, *timers) =~= model.0);
                }
                Ok(StepOutcome::Executed)
            },
            (8, _, _, 7) => {
                let er = OpCode::_8xy7(self);
                self.advance_pc(er);
                proof {
                    assert(State::of(*self, *memory, *gpu, *timers) =~= model.0);
                }
                Ok(StepOutcome::Executed)
            },
            (8, _, _, 0xE) => {
                let er = OpCode::_8xye(self);
                self.advance_pc(er);
                proof {
                    assert(State::of(*self, *memory, *gpu, *timers) =~= model.0);
                }
                Ok(StepOutcome::Executed)
            },
            _ => {
                self.advance_pc(ExecutionResult::Advanced);
                proof {
                    assert(State::of(*self, *memory, *gpu, *timers) =~= model.0);
                }
                Ok(StepOutcome::UnknownOpcode)
            },
        }
    }

    /// The `9...` to `C...` opcodes: the register skip, the index and jump
    /// addresses, and the masked random byte.
    #[verifier::rlimit(100)]
    fn step_addr(
        &mut self,
        memory: &Memory,
        gpu: &Gpu,
        timers: &Timer,
        keys: u16,
        rnd: u8,
    ) -> (r: Result<StepOutcome, Fault>)
        requires
            old(self).wf(),
            9 <= old(self).current_opcode.0 >> 12 <= 0xC,
        ensures
            final(self).wf(),
            (
                State::of(*final(self), *memory, *gpu, *timers),
                r,
            ) == exec_instr(State::of(*old(self), *memory, *gpu, *timers), keys, rnd),
    {
        let ghost model = exec_instr(State::of(*self, *memory, *gpu, *timers), keys, rnd);
        let op = self.current_opcode.0;
        proof {
            assert((op >> 12) & 0xF == op >> 12 && (op >> 12) & 0xF < 16 && (op >> 8) & 0xF < 16
                && (op >> 4) & 0xF < 16 && (op & 0xF) < 16 && (op & 0xFF) < 256) by (bit_vector);
            assert((9 <= op >> 12 && op >> 12 <= 0xC) ==> (op != 0x00EE && op != 0x00E0)) by (bit_vector);
        }
        let tup = self.current_opcode.into_tuple();
        match (tup.0, tup.1, tup.2, tup.3) {
            (9, _, _, 0) => {
                let er = OpCode::_9xy0(self);
                self.advance_pc(er);
                proof {
                    assert(State::of(*self, *memory, *gpu, *timers) =~= model.0);
                }
                Ok(StepOutcome::Executed)
            },
            (0xA, _, _, _) => {
                let er = OpCode::annn(self);
                self.advance_pc(er);
                proof {
                    assert(State::of(*self, *memory, *gpu, *timers) =~= model.0);
                }
                Ok(StepOutcome::Executed)
            },
            (0xB, _, _, _) => {
                let er = OpCode::bnnn(self);
                self.advance_pc(er);
                proof {
                    assert(State::of(*self, *memory, *gpu, *timers) =~= model.0);
                }
                Ok(StepOutcome::Executed)
            },
            (0xC, _, _, _) => {
                let er = OpCode::cxnn(self, rnd);
                self.advance_pc(er);
                proof {
                    assert(State::of(*self, *memory, *gpu, *timers) =~= model.0);
                }
                Ok(StepOutcome::Executed)
            },
            _ => {
                self.advance_pc(ExecutionResult::Advanced);
                proof {
                    assert(State::of(*self, *memory, *gpu, *timers) =~= model.0);
                }
                Ok(StepOutcome::UnknownOpcode)
            },
        }
    }

    /// The `D...` opcode: the sprite draw.
    #[verifier::rlimit(100)]
    fn step_draw(
        &mut self,
        memory: &Memory,
        gpu: &mut Gpu,
        timers: &Timer,
        keys: u16,
        rnd: u8,
    ) -> (r: Result<StepOutcome, Fault>)
        requires
            old(self).wf(),
            old(self).current_opcode.0 >> 12 == 0xD,
        ensures
            final(self).wf(),
            (
                State::of(*final(self), *memory, *final(gpu), *timers),
                r,
            ) == exec_instr(State::of(*old(self), *memory, *old(gpu), *timers), keys, rnd),
    {
        let ghost model = exec_instr(State::of(*self, *memory, *gpu, *timers), keys, rnd);
        let op = self.current_opcode.0;
        proof {
            assert((op >> 12) & 0xF == op >> 12 && (op >> 12) & 0xF < 16 && (op >> 8) & 0xF < 16
                && (op >> 4) & 0xF < 16 && (op & 0xF) < 16 && (op & 0xFF) < 256) by (bit_vector);
            assert(op >> 12 == 0xD ==> (op != 0x00EE && op != 0x00E0)) by (bit_vector);
        }
        let er = OpCode::dxyn(self, memory, gpu);
        self.advance_pc(er);
        proof {
            assert(State::of(*self, *memory, *gpu, *timers) =~= model.0);
        }
        Ok(StepOutcome::Executed)
    }

    /// The `E...` opcodes: the key skips.
    #[verifier::rlimit(100)]
    fn step_keys(
        &mut self,
        memory: &Memory,
        gpu: &Gpu,
        timers: &Timer,
        keys: u16,
        rnd: u8,
    ) -> (r: Result<StepOutcome, Fault>)
        requires
            old(self).wf(),
            old(self).current_opcode.0 >> 12 == 0xE,
        ensures
            final(self).wf(),
            (
                State::of(*final(self), *memory, *gpu, *timers),
                r,
            ) == exec_instr(State::of(*old(self), *memory, *gpu, *timers), keys, rnd),
    {
        let ghost model = exec_instr(State::of(*self, *memory, *gpu, *timers), keys, rnd);
        let op = self.current_opcode.0;
        proof {
            assert((op >> 12) & 0xF == op >> 12 && (op >> 12) & 0xF < 16 && (op >> 8) & 0xF < 16
                && (op >> 4) & 0xF < 16 && (op & 0xF) < 16 && (op & 0xFF) < 256) by (bit_vector);
            assert(op >> 12 == 0xE ==> (op != 0x00EE && op != 0x00E0)) by (bit_vector);
            assert((((op >> 4) & 0xF == 9 && (op & 0xF) == 0xE) == ((op & 0xFF) == 0x9E)) && (((op
                >> 4) & 0xF == 0xA && (op & 0xF) == 1) == ((op & 0xFF) == 0xA1))) by (bit_vector);
        }
        let tup = self.current_opcode.into_tuple();
        match (tup.0, tup.1, tup.2, tup.3) {
            (0xE, _, 9, 0xE) => {
                let er = OpCode::ex9e(self, keys);
                self.advance_pc(er);
                proof {
                    assert(State::of(*self, *memory, *gpu, *timers) =~= model.0);
                }
                Ok(StepOutcome::Executed)
            },
            (0xE, _, 0xA, 1) => {
                let er = OpCode::exa1(self, keys);
                self.advance_pc(er);
                proof {
                    assert(State::of(*self, *memory, *gpu, *timers) =~= model.0);
                }
                Ok(StepOutcome::Executed)
            },
            _ => {
                self.advance_pc(ExecutionResult::Advanced);
                proof {
                    assert(State::of(*self, *memory, *gpu, *timers) =~= model.0);
                }
                Ok(StepOutcome::UnknownOpcode)
            },
        }
    }

    /// The `F...` opcodes: timers, key wait, index arithmetic, the font
    /// pointer, BCD and the register block transfers.
    #[verifier::rlimit(100)]
    fn step_misc(
        &mut self,
        memory: &mut Memory,
        gpu: &Gpu,
        timers: &mut Timer,
        keys: u16,
        rnd: u8,
    ) -> (r: Result<StepOutcome, Fault>)
        requires
            old(self).wf(),
            old(self).current_opcode.0 >> 12 == 0xF,
        ensures
            final(self).wf(),
            (
                State::of(*final(self), *final(memory), *gpu, *final(timers)),
                r,
            ) == exec_instr(State::of(*old(self), *old(memory), *gpu, *old(timers)), keys, rnd),
    {
        let ghost model = exec_instr(
            State::of(*self, *memory, *gpu, *timers),
            keys,
            rnd,
        );
        let op = self.current_opcode.0;
        proof {
            assert((op >> 12) & 0xF == op >> 12 && (op >> 12) & 0xF < 16 && (op >> 8) & 0xF < 16
                && (op >> 4) & 0xF < 16 && (op & 0xF) < 16 && (op & 0xFF) < 256) by (bit_vector);
            assert(op >> 12 == 0xF ==> (op != 0x00EE && op != 0x00E0)) by (bit_vector);
            assert((((op >> 4) & 0xF == 0 && (op & 0xF) == 7) == ((op & 0xFF) == 0x07)) && (((op
                >> 4) & 0xF == 0 && (op & 0xF) == 0xA) == ((op & 0xFF) == 0x0A)) && (((op >> 4)
                & 0xF == 1 && (op & 0xF) == 5) == ((op & 0xFF) == 0x15)) && (((op >> 4) & 0xF == 1
                && (op & 0xF) == 8) == ((op & 0xFF) == 0x18)) && (((op >> 4) & 0xF == 1 && (op
                & 0xF) == 0xE) == ((op & 0xFF) == 0x1E)) && (((op >> 4) & 0xF == 2 && (op & 0xF)
                == 9) == ((op & 0xFF) == 0x29)) && (((op >> 4) & 0xF == 3 && (op & 0xF) == 3) == ((
            op & 0xFF) == 0x33)) && (((op >> 4) & 0xF == 5 && (op & 0xF) == 5) == ((op & 0xFF)
                == 0x55)) && (((op >> 4) & 0xF == 6 && (op & 0xF) == 5) == ((op & 0xFF) == 0x65)))
                by (bit_vector);
        }
        let tup = self.current_opcode.into_tuple();
        match (tup.0, tup.1, tup.2, tup.3) {
            (0xF, _, 0, 0xA) => {
                let waiting = keys == 0;
                let er = OpCode::fx0a(self, keys);
                self.advance_pc(er);
                proof {
                    assert(State::of(*self, *memory, *gpu, *timers) =~= model.0);
                }
                Ok(
                    if waiting {
                        StepOutcome::AwaitingKey
                    } else {
                        StepOutcome::Executed
                    },
                )
            },
            (0xF, _, 0, 7) => {
                let er = OpCode::fx07(self, timers);
                self.advance_pc(er);
                proof {
                    assert(State::of(*self, *memory, *gpu, *timers) =~= model.0);
                }
                Ok(StepOutcome::Executed)
            },
            (0xF, _, 1, 5) => {
                let er = OpCode::fx15(self, timers);
                self.advance_pc(er);
                proof {
                    assert(State::of(*self, *memory, *gpu, *timers) =~= model.0);
                }
                Ok(StepOutcome::Executed)
            },
            (0xF, _, 1, 8) => {
                let er = OpCode::fx18(self, timers);
                self.advance_pc(er);
                proof {
                    assert(State::of(*self, *memory, *gpu, *timers) =~= model.0);
                }
                Ok(StepOutcome::Executed)
            },
            (0xF, _, 1, 0xE) => {
                let er = OpCode::fx1e(self);
                self.advance_pc(er);
                proof {
                    assert(State::of(*self, *memory, *gpu, *timers) =~= model.0);
                }
                Ok(StepOutcome::Executed)
            },
            (0xF, _, 2, 9) => {
                let er = OpCode::fx29(self);
                self.advance_pc(er);
                proof {
                    assert(State::of(*self, *memory, *gpu, *timers) =~= model.0);
                }
                Ok(StepOutcome::Executed)
            },
            (0xF, _, 3, 3) => {
                let er = OpCode::fx33(self, memory);
                self.advance_pc(er);
                proof {
                    assert(State::of(*self, *memory, *gpu, *timers) =~= model.0);
                }
                Ok(StepOutcome::Executed)
            },
            (0xF, _, 5, 5) => {
                let er = OpCode::fx55(self, memory);
                self.advance_pc(er);
                proof {
                    assert(State::of(*self, *memory, *gpu, *timers) =~= model.0);
                }
                Ok(StepOutcome::Executed)
            },
            (0xF, _, 6, 5) => {
                let er = OpCode::fx65(self, memory);
                self.advance_pc(er);
                proof {
                    assert(State::of(*self, *memory, *gpu, *timers) =~= model.0);
                }
                Ok(StepOutcome::Executed)
            },
            _ => {
                self.advance_pc(ExecutionResult::Advanced);
                proof {
                    assert(State::of(*self, *memory, *gpu, *timers) =~= model.0);
                }
                Ok(StepOutcome::UnknownOpcode)
            },
        }
    }

    /// Moves the program counter as an execution result directs: one
    /// instruction forward, two for a skip, or not at all for a jump.
    fn advance_pc(&mut self, er: ExecutionResult)
        ensures
            final(self).program_counter == (match er {
                ExecutionResult::Advanced => advance(old(self).program_counter, 2),
                ExecutionResult::Skipped => advance(old(self).program_counter, 4),
                ExecutionResult::Jumped => old(self).program_counter,
            }),
            final(self).registers@ == old(self).registers@,
            final(self).stack@ == old(self).stack@,
            final(self).stack_pointer == old(self).stack_pointer,
            final(self).index_register == old(self).index_register,
            final(self).current_opcode == old(self).current_opcode,
    {
        match er {
            ExecutionResult::Advanced => {
                self.program_counter = wrap_add_addr(self.program_counter, 2);
            },
            ExecutionResult::Skipped => {
                self.program_counter = wrap_add_addr(self.program_counter, 4);
            },
            ExecutionResult::Jumped => {},
        }
    }

    /// One full cycle: fetch the opcode at the program counter, then decode,
    /// execute and move the program counter; the result is `exec_instr` of
    /// the machine state with the freshly fetched opcode in place.
    pub fn tick(
        &mut self,
        memory: &mut Memory,
        gpu: &mut Gpu,
        timers: &mut Timer,
        keys: u16,
        rnd: u8,
    ) -> (r: Result<StepOutcome, Fault>)
        requires
            old(self).wf(),
        ensures
            final(self).wf(),
            (
                State::of(*final(self), *final(memory), *final(gpu), *final(timers)),
                r,
            ) == exec_instr(
                State {
                    op: fetch_spec(old(memory).ram@, old(self).program_counter),
                    ..State::of(*old(self), *old(memory), *old(gpu), *old(timers))
                },
                keys,
                rnd,
            ),
    {
        self.fetch_opcode(memory);
        proof {
            assert(State::of(*self, *memory, *gpu, *timers) =~= State {
                op: fetch_spec(memory.ram@, old(self).program_counter),
                ..State::of(*old(self), *old(memory), *old(gpu), *old(timers))
            });
        }
        self.process(memory, gpu, timers, keys, rnd)
    }
}

} // verus!
