//! The owning aggregate: CPU, memory, display and timers in one machine.
//!
//! The driving loop outside the library calls `step` once per instruction
//! cycle with the keypad bitmask, `tick_timers` at its own fixed cadence, and
//! reads the framebuffer and timer values back for rendering.

use vstd::prelude::*;

use crate::cpu::fetch_spec;
use crate::cpu::Cpu;
use crate::cpu::Fault;
use crate::cpu::StepOutcome;
use crate::gpu::Gpu;
use crate::mem::Memory;
use crate::mem::FONTS;
use crate::mem::FONT_MAX_SIZE;
use crate::mem::RAM_SIZE;
use crate::mem::ROM_MAX_SIZE;
use crate::mem::ROM_START_ADDRESS;
use crate::state::step_cycle;
use crate::state::State;
use crate::timer::Timer;

verus! {

/// One uniformly distributed random byte.
///
/// Relies on `rand::random`, which draws from the thread-local generator;
/// nothing can be promised of the value, so the machine's contracts hold for
/// every byte that comes back.
#[verifier::external_body]
fn random_byte() -> u8 {
    rand::random::<u8>()
}

pub struct Emulator {
    pub cpu: Cpu,
    pub gpu: Gpu,
    pub memory: Memory,
    pub timers: Timer,
}

impl Emulator {
    /// The machine invariant: the CPU's stack pointer stays in bounds.
    pub open spec fn wf(self) -> bool {
        self.cpu.wf()
    }

    /// The machine state as mathematics.
    pub open spec fn view_state(self) -> State {
        State::of(self.cpu, self.memory, self.gpu, self.timers)
    }

    /// A fresh machine: font loaded, registers, stack and display zeroed, the
    /// program counter at `0x200`, the delay timer at 1 and the sound timer
    /// at 2.
    pub fn new() -> (r: Self)
        ensures
            r.wf(),
            r.cpu.current_opcode.0 == 0,
            forall|k: int| 0 <= k < 16 ==> r.cpu.registers@[k] == 0u8,
            r.cpu.program_counter == 0x200,
            r.cpu.stack_pointer == 0,
            r.cpu.index_register == 0,
            forall|a: int| 0 <= a < FONT_MAX_SIZE ==> r.memory.ram@[a] == FONTS@[a],
            forall|a: int| FONT_MAX_SIZE <= a < RAM_SIZE ==> r.memory.ram@[a] == 0u8,
            forall|idx: int| 0 <= idx < 2048 ==> !r.gpu.screen@[idx],
            r.timers.delay_timer == 1,
            r.timers.sound_timer == 2,
    {
        Self { cpu: Cpu::new(), gpu: Gpu::new(), memory: Memory::new(), timers: Timer::new(1) }
    }

    /// Copies a ROM image into memory at `0x200`; fails with `RomTooLarge`
    /// when it does not fit, leaving the machine unchanged.
    pub fn load_rom(&mut self, rom_data: &[u8]) -> (r: Result<(), Fault>)
        ensures
            r is Ok <==> rom_data@.len() <= ROM_MAX_SIZE,
            r is Err ==> r == Err::<(), Fault>(Fault::RomTooLarge) && final(self).memory.ram@
                == old(self).memory.ram@,
            r is Ok ==> forall|k: int|
                0 <= k < rom_data@.len() ==> final(self).memory.ram@[ROM_START_ADDRESS + k]
                    == rom_data@[k],
            r is Ok ==> forall|a: int|
                (0 <= a < ROM_START_ADDRESS || ROM_START_ADDRESS + rom_data@.len() <= a
                    < RAM_SIZE) ==> final(self).memory.ram@[a] == old(self).memory.ram@[a],
            final(self).cpu == old(self).cpu,
            final(self).gpu.screen@ == old(self).gpu.screen@,
            final(self).timers == old(self).timers,
    {
        self.memory.load_rom(rom_data)
    }

    /// One fetch/decode/execute cycle with the given keypad bitmask (bit `k`
    /// set means key `k` is held). Some byte was drawn for the random-number
    /// instruction; for every possible value the machine lands exactly where
    /// the model `exec_instr` says.
    pub fn step(&mut self, keys: u16) -> (r: Result<StepOutcome, Fault>)
        requires
            old(self).wf(),
        ensures
            final(self).wf(),
            exists|rnd: u8|
                (final(self).view_state(), r) == #[trigger] step_cycle(
                    old(self).view_state(),
                    keys,
                    rnd,
                ),
    {
        let rnd = random_byte();
        let r = self.cpu.tick(&mut self.memory, &mut self.gpu, &mut self.timers, keys, rnd);
        proof {
            assert(State {
                op: fetch_spec(old(self).memory.ram@, old(self).cpu.program_counter),
                ..old(self).view_state()
            } =~= State {
                op: fetch_spec(old(self).view_state().ram, old(self).view_state().pc),
                ..old(self).view_state()
            });
            assert((self.view_state(), r) == step_cycle(old(self).view_state(), keys, rnd));
        }
        r
    }

    /// One 60 Hz timer tick: each nonzero timer goes down by one. Called
    /// independently of `step`.
    pub fn tick_timers(&mut self)
        ensures
            final(self).timers.delay_timer == if old(self).timers.delay_timer > 0 {
                (old(self).timers.delay_timer - 1) as u8
            } else {
                0u8
            },
            final(self).timers.sound_timer == if old(self).timers.sound_timer > 0 {
                (old(self).timers.sound_timer - 1) as u8
            } else {
                0u8
            },
            final(self).cpu == old(self).cpu,
            final(self).memory.ram@ == old(self).memory.ram@,
            final(self).gpu.screen@ == old(self).gpu.screen@,
    {
        self.timers.tick();
    }

    /// Read-only snapshot of the 64x32 framebuffer.
    pub fn framebuffer(&self) -> (r: &[bool; 2048])
        ensures
            r@ == self.gpu.screen@,
    {
        &self.gpu.screen
    }

    /// The delay timer's current value.
    pub fn delay(&self) -> (r: u8)
        ensures
            r == self.timers.delay_timer,
    {
        self.timers.delay_timer
    }

    /// The sound timer's current value.
    pub fn sound(&self) -> (r: u8)
        ensures
            r == self.timers.sound_timer,
    {
        self.timers.sound_timer
    }
}

} // verus!
