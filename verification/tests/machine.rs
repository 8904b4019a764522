// Machine-level tests: the fetch/decode/execute cycle, the memory and timer
// components, and the whole emulator.

use chip8_core::cpu::Cpu;
use chip8_core::cpu::Fault;
use chip8_core::cpu::StepOutcome;
use chip8_core::emu::Emulator;
use chip8_core::gpu::Gpu;
use chip8_core::iset::Chip8ISet;
use chip8_core::iset::OpCode;
use chip8_core::mem::Memory;
use chip8_core::mem::FONTS;
use chip8_core::timer::Timer;

fn fresh_parts() -> (Cpu, Memory, Gpu, Timer) {
    (Cpu::new(), Memory::new(), Gpu::new(), Timer::new(1))
}

#[test]
fn test_process_00e0() {
    let mut cpu = Cpu::new();
    let mut memory = Memory::new();
    let mut gpu = Gpu::new();
    let mut timers = Timer::new(1);
    cpu.current_opcode = OpCode(0x00E0);
    let result = cpu.process(&mut memory, &mut gpu, &mut timers, 0, 0);
    assert!(result.is_ok());
    assert!(gpu.screen.iter().all(|&pixel| !pixel));
}

#[test]
fn test_process_advances_the_program_counter() {
    let (mut cpu, mut memory, mut gpu, mut timers) = fresh_parts();
    cpu.current_opcode = OpCode(0x6A42); // load: one instruction forward
    let r = cpu.process(&mut memory, &mut gpu, &mut timers, 0, 0);
    assert_eq!(r, Ok(StepOutcome::Executed));
    assert_eq!(cpu.program_counter, 0x202);
    assert_eq!(cpu.registers[0xA], 0x42);

    cpu.registers[3] = 0x44;
    cpu.current_opcode = OpCode(0x3344); // skip: two instructions forward
    cpu.process(&mut memory, &mut gpu, &mut timers, 0, 0).unwrap();
    assert_eq!(cpu.program_counter, 0x206);

    cpu.current_opcode = OpCode(0x1234); // jump: the handler places it
    cpu.process(&mut memory, &mut gpu, &mut timers, 0, 0).unwrap();
    assert_eq!(cpu.program_counter, 0x234);
}

#[test]
fn test_process_0nnn_is_a_noop_advance() {
    let (mut cpu, mut memory, mut gpu, mut timers) = fresh_parts();
    cpu.current_opcode = OpCode(0x0123);
    let r = cpu.process(&mut memory, &mut gpu, &mut timers, 0, 0);
    assert_eq!(r, Ok(StepOutcome::Executed));
    assert_eq!(cpu.program_counter, 0x202);
}

#[test]
fn test_process_unknown_opcode_reports_and_advances() {
    let (mut cpu, mut memory, mut gpu, mut timers) = fresh_parts();
    cpu.current_opcode = OpCode(0x5341); // 5XY1 matches no pattern
    let r = cpu.process(&mut memory, &mut gpu, &mut timers, 0, 0);
    assert_eq!(r, Ok(StepOutcome::UnknownOpcode));
    assert_eq!(cpu.program_counter, 0x202);

    cpu.current_opcode = OpCode(0x8349); // 8XY9 matches no pattern
    let r = cpu.process(&mut memory, &mut gpu, &mut timers, 0, 0);
    assert_eq!(r, Ok(StepOutcome::UnknownOpcode));
    assert_eq!(cpu.program_counter, 0x204);
}

#[test]
fn test_process_call_then_return_restores_flow() {
    let (mut cpu, mut memory, mut gpu, mut timers) = fresh_parts();
    cpu.current_opcode = OpCode(0x2400);
    cpu.process(&mut memory, &mut gpu, &mut timers, 0, 0).unwrap();
    assert_eq!(cpu.program_counter, 0x400);
    assert_eq!(cpu.stack_pointer, 1);

    cpu.current_opcode = OpCode(0x00EE);
    cpu.process(&mut memory, &mut gpu, &mut timers, 0, 0).unwrap();
    // back at the instruction following the original call
    assert_eq!(cpu.program_counter, 0x202);
    assert_eq!(cpu.stack_pointer, 0);
}

#[test]
fn test_process_return_on_empty_stack_faults() {
    let (mut cpu, mut memory, mut gpu, mut timers) = fresh_parts();
    cpu.current_opcode = OpCode(0x00EE);
    let r = cpu.process(&mut memory, &mut gpu, &mut timers, 0, 0);
    assert_eq!(r, Err(Fault::StackUnderflow));
    // the machine is untouched
    assert_eq!(cpu.program_counter, 0x200);
    assert_eq!(cpu.stack_pointer, 0);
}

#[test]
fn test_process_seventeen_calls_overflow_the_stack() {
    let (mut cpu, mut memory, mut gpu, mut timers) = fresh_parts();
    cpu.current_opcode = OpCode(0x2300);
    for k in 0..16 {
        let r = cpu.process(&mut memory, &mut gpu, &mut timers, 0, 0);
        assert_eq!(r, Ok(StepOutcome::Executed));
        assert_eq!(cpu.stack_pointer, k + 1);
    }
    let r = cpu.process(&mut memory, &mut gpu, &mut timers, 0, 0);
    assert_eq!(r, Err(Fault::StackOverflow));
    assert_eq!(cpu.stack_pointer, 16);
}

#[test]
fn test_process_fx0a_waits_then_takes_a_key() {
    let (mut cpu, mut memory, mut gpu, mut timers) = fresh_parts();
    cpu.current_opcode = OpCode(0xF70A);
    let r = cpu.process(&mut memory, &mut gpu, &mut timers, 0, 0);
    assert_eq!(r, Ok(StepOutcome::AwaitingKey));
    // the program counter did not move: the instruction runs again
    assert_eq!(cpu.program_counter, 0x200);

    let r = cpu.process(&mut memory, &mut gpu, &mut timers, 1 << 0xD, 0);
    assert_eq!(r, Ok(StepOutcome::Executed));
    assert_eq!(cpu.registers[7], 0xD);
    assert_eq!(cpu.program_counter, 0x202);
}

#[test]
fn test_process_cxnn_masks_the_supplied_byte() {
    let (mut cpu, mut memory, mut gpu, mut timers) = fresh_parts();
    cpu.current_opcode = OpCode(0xC533);
    cpu.process(&mut memory, &mut gpu, &mut timers, 0, 0xFF).unwrap();
    assert_eq!(cpu.registers[5], 0x33);
}

#[test]
fn test_process_timer_opcodes() {
    let (mut cpu, mut memory, mut gpu, mut timers) = fresh_parts();
    cpu.registers[2] = 42;
    cpu.current_opcode = OpCode(0xF215);
    cpu.process(&mut memory, &mut gpu, &mut timers, 0, 0).unwrap();
    assert_eq!(timers.delay_timer, 42);

    cpu.current_opcode = OpCode(0xF218);
    cpu.process(&mut memory, &mut gpu, &mut timers, 0, 0).unwrap();
    assert_eq!(timers.sound_timer, 42);

    cpu.current_opcode = OpCode(0xF307);
    cpu.process(&mut memory, &mut gpu, &mut timers, 0, 0).unwrap();
    assert_eq!(cpu.registers[3], 42);
}

#[test]
fn test_tick_fetches_and_executes() {
    let (mut cpu, mut memory, mut gpu, mut timers) = fresh_parts();
    memory.ram[0x200] = 0x6B;
    memory.ram[0x201] = 0x99;
    let r = cpu.tick(&mut memory, &mut gpu, &mut timers, 0, 0);
    assert_eq!(r, Ok(StepOutcome::Executed));
    assert_eq!(cpu.current_opcode.0, 0x6B99);
    assert_eq!(cpu.registers[0xB], 0x99);
    assert_eq!(cpu.program_counter, 0x202);
}

#[test]
fn test_timer_tick_decrements_and_saturates() {
    let mut timers = Timer::new(1);
    assert_eq!(timers.delay_timer, 1);
    assert_eq!(timers.sound_timer, 2);
    timers.tick();
    assert_eq!(timers.delay_timer, 0);
    assert_eq!(timers.sound_timer, 1);
    timers.tick();
    assert_eq!(timers.delay_timer, 0);
    assert_eq!(timers.sound_timer, 0);
    timers.tick();
    assert_eq!(timers.delay_timer, 0);
    assert_eq!(timers.sound_timer, 0);
}

#[test]
fn test_memory_new_loads_the_font() {
    let mem = Memory::new();
    assert_eq!(&mem.ram[0..80], &FONTS);
    assert_eq!(mem.ram[0], 0xF0);
    assert_eq!(mem.ram[79], 0x80);
    assert!(mem.ram[80..].iter().all(|&b| b == 0));
}

#[test]
fn test_load_font_is_idempotent() {
    let mut mem = Memory::new();
    let before = mem.ram;
    mem.load_font();
    assert_eq!(mem.ram, before);
}

#[test]
fn test_load_rom_copies_at_0x200() {
    let mut mem = Memory::new();
    let rom = [0xDE, 0xAD, 0xBE, 0xEF];
    assert_eq!(mem.load_rom(&rom), Ok(()));
    assert_eq!(&mem.ram[0x200..0x204], &rom);
    // the font region is untouched
    assert_eq!(&mem.ram[0..80], &FONTS);
    // memory past the ROM keeps its prior contents
    assert_eq!(mem.ram[0x204], 0);
}

#[test]
fn test_load_rom_rejects_an_oversized_image() {
    let mut mem = Memory::new();
    let too_big = vec![1u8; 4096 - 0x200 + 1];
    assert_eq!(mem.load_rom(&too_big), Err(Fault::RomTooLarge));
    // nothing was written
    assert!(mem.ram[0x200..].iter().all(|&b| b == 0));

    let just_fits = vec![2u8; 4096 - 0x200];
    assert_eq!(mem.load_rom(&just_fits), Ok(()));
    assert!(mem.ram[0x200..].iter().all(|&b| b == 2));
}

#[test]
fn test_emulator_new_and_step() {
    let mut emu = Emulator::new();
    assert_eq!(emu.cpu.program_counter, 0x200);
    assert_eq!(emu.delay(), 1);
    assert_eq!(emu.sound(), 2);
    assert_eq!(
        emu.framebuffer().len(),
        chip8_core::gpu::SCREEN_WIDTH * chip8_core::gpu::SCREEN_HEIGHT
    );
    assert!(emu.framebuffer().iter().all(|&pixel| !pixel));

    // V1 = 7, then add 3
    emu.load_rom(&[0x61, 0x07, 0x71, 0x03]).unwrap();
    assert_eq!(emu.step(0), Ok(StepOutcome::Executed));
    assert_eq!(emu.cpu.registers[1], 7);
    assert_eq!(emu.step(0), Ok(StepOutcome::Executed));
    assert_eq!(emu.cpu.registers[1], 10);
    assert_eq!(emu.cpu.program_counter, 0x204);
}

#[test]
fn test_emulator_tick_timers_is_independent_of_step() {
    let mut emu = Emulator::new();
    emu.tick_timers();
    assert_eq!(emu.delay(), 0);
    assert_eq!(emu.sound(), 1);
    emu.tick_timers();
    assert_eq!(emu.sound(), 0);
}

#[test]
fn test_emulator_draws_the_font_glyph() {
    let mut emu = Emulator::new();
    // point I at the glyph for 0, then draw its 5 rows at (0, 0)
    emu.load_rom(&[0xA0, 0x00, 0xD0, 0x05]).unwrap();
    emu.step(0).unwrap();
    emu.step(0).unwrap();
    // the glyph for 0 starts with 0xF0: four lit pixels
    let fb = emu.framebuffer();
    assert!(fb[0] && fb[1] && fb[2] && fb[3]);
    assert!(!fb[4]);
}

#[test]
fn test_debug_screen_print_string_layout() {
    let mut gpu = Gpu::new();
    gpu.screen[0] = true; // top-left pixel
    gpu.screen[64 + 1] = true; // second row, second column
    let text = gpu.debug_screen_print_string();
    let lines: Vec<&str> = text.lines().collect();
    assert_eq!(lines.len(), 32);
    assert!(lines.iter().all(|line| line.chars().count() == 64));
    assert_eq!(lines[0].chars().next().unwrap(), '▊');
    assert_eq!(lines[0].chars().nth(1).unwrap(), ' ');
    assert_eq!(lines[1].chars().nth(1).unwrap(), '▊');
}

#[test]
fn test_fx1e_wraps_to_twelve_bits() {
    let mut cpu = Cpu::new();
    cpu.index_register = 0xFFE;
    cpu.registers[1] = 4;
    cpu.current_opcode = OpCode(0xF11E);
    OpCode::fx1e(&mut cpu);
    assert_eq!(cpu.index_register, 0x002);
}
