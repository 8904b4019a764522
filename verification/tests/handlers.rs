// Handler-level tests: each instruction run directly on CPU, memory and
// display state.

use chip8_core::cpu::Cpu;
use chip8_core::gpu::Gpu;
use chip8_core::iset::Chip8ISet;
use chip8_core::iset::OpCode;
use chip8_core::mem::Memory;

fn test_init_mem() -> Memory {
    let mut mem = Memory::default();

    // create some fake memory
    mem.ram[0x200] = 1;
    mem.ram[0x201] = 2;
    mem.ram[0x202] = 3;
    mem.ram[0x203] = 4;
    mem.ram[0x204] = 5;
    mem
}

fn test_init_cpu() -> Cpu {
    let mut cpu = Cpu::new();

    // random registers populated
    cpu.registers[0] = 105;
    cpu.registers[1] = 5;
    cpu.registers[2] = 14;
    cpu.registers[7] = 33;
    cpu.registers[12] = 0x11;
    cpu.index_register = 0x200;

    for i in 0..cpu.stack.len() {
        cpu.stack[i] = (i + 1) as u16;
    }

    cpu
}

fn test_init_gpu() -> Gpu {
    Gpu::new()
}

#[test]
fn test_00e0() {
    let mut gpu = test_init_gpu();
    OpCode::_00e0(&mut gpu);
    assert!(gpu.screen.iter().all(|&pixel| !pixel));
}

#[test]
fn test_00ee() {
    let mut cpu = test_init_cpu();
    assert!(
        cpu.stack_pointer == 0,
        "before operation sp: {:?}",
        cpu.stack_pointer
    );
    assert!(
        cpu.program_counter == 0x200,
        "before operation pc: {:?}",
        cpu.program_counter
    );
    assert!(
        cpu.stack[cpu.stack_pointer] == 1,
        "before operation stack[sp]: {:?}",
        cpu.stack[cpu.stack_pointer],
    );
    // artifically set the stack pointer to be at second index
    cpu.stack_pointer = 1;
    OpCode::_00ee(&mut cpu);
    assert!(cpu.stack_pointer == 0, "sp: {:?}", cpu.stack_pointer);
    // Remember init cpu method will create our stack such that:
    // stack: [1, 2, 3, ..., 16]
    assert!(cpu.program_counter == 1, "pc: {:?}", cpu.program_counter);
    assert!(
        cpu.stack[cpu.stack_pointer] == 1,
        "stack[sp]: {:?}",
        cpu.stack[cpu.stack_pointer],
    );
}

#[test]
fn test_fx33() {
    let mut cpu = test_init_cpu();
    let mut mem = test_init_mem();
    cpu.current_opcode = OpCode(0xF533);
    cpu.registers[5] = 105;
    // unnecessary but oh well...
    cpu.index_register = 0x200;
    // init'd by test_init_mem
    assert_eq!(mem.ram[cpu.index_register as usize], 1);
    assert_eq!(mem.ram[(cpu.index_register + 1) as usize], 2);
    assert_eq!(mem.ram[(cpu.index_register + 2) as usize], 3);
    println!("index_register: {:?}", cpu.index_register);
    let idxr: usize = cpu.index_register as usize;
    println!("memory.data[ir..ir+3]: {:x?}", &mem.ram[(idxr)..(idxr + 3)]);
    // Test fx33
    OpCode::fx33(&mut cpu, &mut mem);
    println!("memory.data[ir..ir+3]: {:x?}", &mem.ram[(idxr)..(idxr + 3)]);
    assert_eq!(mem.ram[cpu.index_register as usize], 1);
    assert_eq!(mem.ram[(cpu.index_register + 1) as usize], 0);
    assert_eq!(mem.ram[(cpu.index_register + 2) as usize], 5);
}

#[test]
fn test_fx55() {
    let mut cpu = test_init_cpu();
    let mut mem = test_init_mem();
    cpu.current_opcode = OpCode(0xF555);
    // memory should be 1-7 at 0x200-206
    mem.ram[0x205] = 6;
    mem.ram[0x206] = 7;
    assert_eq!(mem.ram[0x200], 1);
    assert_eq!(mem.ram[0x201], 2);
    assert_eq!(mem.ram[0x202], 3);
    assert_eq!(mem.ram[0x203], 4);
    assert_eq!(mem.ram[0x204], 5);
    assert_eq!(mem.ram[0x205], 6);
    assert_eq!(mem.ram[0x206], 7);
    OpCode::fx55(&mut cpu, &mut mem);
    // our x was 5, v0..vx needs to get set with I..I+x
    assert_eq!(mem.ram[0x200], cpu.registers[0]);
    assert_eq!(mem.ram[0x201], cpu.registers[1]);
    assert_eq!(mem.ram[0x202], cpu.registers[2]);
    assert_eq!(mem.ram[0x203], cpu.registers[3]);
    assert_eq!(mem.ram[0x204], cpu.registers[4]);
    assert_eq!(mem.ram[0x205], cpu.registers[5]);
    // this next memory address shouldnt have been affected by 0xF555 b/c x=5
    assert_ne!(mem.ram[0x206], cpu.registers[6]);
    assert_eq!(mem.ram[0x206], 7);
}

#[test]
fn test_fx65() {
    let mut cpu = test_init_cpu();
    let mut mem = test_init_mem();
    cpu.current_opcode = OpCode(0xF565);
    // setting up data to check for out of bounds bugs
    (mem.ram[0x206], cpu.registers[6]) = (0xDE, 0xAD);
    OpCode::fx65(&mut cpu, &mem);
    // our x was 5, v0..vx needs to get set with I..I+x
    assert_eq!(mem.ram[0x200], cpu.registers[0]);
    assert_eq!(mem.ram[0x201], cpu.registers[1]);
    assert_eq!(mem.ram[0x202], cpu.registers[2]);
    assert_eq!(mem.ram[0x203], cpu.registers[3]);
    assert_eq!(mem.ram[0x204], cpu.registers[4]);
    assert_eq!(mem.ram[0x205], cpu.registers[5]);
    assert_ne!(mem.ram[0x206], cpu.registers[6]);
}

#[test]
fn test_fx1e() {
    // init
    let mut cpu = test_init_cpu();
    cpu.index_register = 0x200; // unnecessary but oh well...
                                // save before
    cpu.current_opcode = OpCode(0xF51E);
    let old_i = cpu.index_register.clone();
    println!("old_i: {:?}", old_i);
    // test fx1e to see if vX = 0 works
    // b/c x=5 -> v[5] and b/c all registers are 0'd out now -> 0
    OpCode::fx1e(&mut cpu); // add 5 to i
    assert_eq!(cpu.index_register, old_i);
    cpu.registers[5] = 3;
    OpCode::fx1e(&mut cpu); // add 5 to i
    assert_eq!(cpu.index_register, old_i + 3);
}

#[test]
fn test_cpu_new() {
    let cpu = Cpu::new();
    assert_eq!(cpu.program_counter, 0x200);
    assert_eq!(cpu.registers, [0; 16]);
    assert_eq!(cpu.index_register, 0);
    assert_eq!(cpu.stack_pointer, 0);
}

#[test]
fn test_fetch_opcode() {
    let mut cpu = test_init_cpu();
    let mut memory = Memory::new();
    memory.ram[0x200] = 0x12;
    memory.ram[0x201] = 0x34;
    cpu.fetch_opcode(&memory);
    assert_eq!(cpu.current_opcode.0, 0x1234);
}

#[test]
fn test_6xnn_then_7x00_is_noop_add() {
    // a load followed by adding zero leaves the register at the immediate
    let mut cpu = Cpu::new();
    cpu.current_opcode = OpCode(0x6A42);
    OpCode::_6xnn(&mut cpu);
    assert_eq!(cpu.registers[0xA], 0x42);
    cpu.current_opcode = OpCode(0x7A00);
    OpCode::_7xnn(&mut cpu);
    assert_eq!(cpu.registers[0xA], 0x42);
}

#[test]
fn test_7xnn_wraps_without_touching_vf() {
    let mut cpu = Cpu::new();
    cpu.registers[1] = 250;
    cpu.registers[0xF] = 7;
    cpu.current_opcode = OpCode(0x7110);
    OpCode::_7xnn(&mut cpu);
    // (250 + 16) mod 256 == 10
    assert_eq!(cpu.registers[1], 10);
    assert_eq!(cpu.registers[0xF], 7);
}

#[test]
fn test_8xy4_carry() {
    let mut cpu = Cpu::new();
    cpu.registers[2] = 0xFF;
    cpu.registers[3] = 0x01;
    cpu.current_opcode = OpCode(0x8234);
    OpCode::_8xy4(&mut cpu);
    assert_eq!(cpu.registers[2], 0x00);
    assert_eq!(cpu.registers[0xF], 1);

    let mut cpu = Cpu::new();
    cpu.registers[2] = 0x01;
    cpu.registers[3] = 0x01;
    cpu.current_opcode = OpCode(0x8234);
    OpCode::_8xy4(&mut cpu);
    assert_eq!(cpu.registers[2], 0x02);
    assert_eq!(cpu.registers[0xF], 0);
}

#[test]
fn test_8xy5_borrow_convention() {
    let mut cpu = Cpu::new();
    cpu.registers[2] = 0x01;
    cpu.registers[3] = 0x02;
    cpu.current_opcode = OpCode(0x8235);
    OpCode::_8xy5(&mut cpu);
    assert_eq!(cpu.registers[0xF], 0); // Vx - Vy borrows
    assert_eq!(cpu.registers[2], 0xFF);

    let mut cpu = Cpu::new();
    cpu.registers[2] = 0x02;
    cpu.registers[3] = 0x01;
    cpu.current_opcode = OpCode(0x8235);
    OpCode::_8xy5(&mut cpu);
    assert_eq!(cpu.registers[0xF], 1); // no borrow
    assert_eq!(cpu.registers[2], 0x01);
}

#[test]
fn test_8xy6_shifts_vy_right_and_keeps_lsb() {
    let mut cpu = Cpu::new();
    cpu.registers[4] = 0xFF;
    cpu.registers[5] = 0b0000_0101;
    cpu.current_opcode = OpCode(0x8456);
    OpCode::_8xy6(&mut cpu);
    assert_eq!(cpu.registers[4], 0b0000_0010);
    assert_eq!(cpu.registers[0xF], 1);
    assert_eq!(cpu.registers[5], 0b0000_0101); // Vy unchanged
}

#[test]
fn test_8xy6_flag_wins_when_x_is_f() {
    // with X = F the evicted bit, not the shifted value, ends up in VF
    let mut cpu = Cpu::new();
    cpu.registers[5] = 1;
    cpu.current_opcode = OpCode(0x8F56);
    OpCode::_8xy6(&mut cpu);
    assert_eq!(cpu.registers[0xF], 1);
}

#[test]
fn test_8xye_shifts_vy_left_and_keeps_msb() {
    let mut cpu = Cpu::new();
    cpu.registers[4] = 0;
    cpu.registers[5] = 0b1100_0001;
    cpu.current_opcode = OpCode(0x845E);
    OpCode::_8xye(&mut cpu);
    assert_eq!(cpu.registers[4], 0b1000_0010);
    assert_eq!(cpu.registers[0xF], 1);
}

#[test]
fn test_8xye_flag_wins_when_x_is_f() {
    // with X = F the evicted bit, not the shifted value, ends up in VF
    let mut cpu = Cpu::new();
    cpu.registers[5] = 0x80;
    cpu.current_opcode = OpCode(0x8F5E);
    OpCode::_8xye(&mut cpu);
    assert_eq!(cpu.registers[0xF], 1);
}

#[test]
fn test_00e0_after_pixels_were_lit() {
    let mut gpu = test_init_gpu();
    gpu.screen[0] = true;
    gpu.screen[100] = true;
    gpu.screen[2047] = true;
    OpCode::_00e0(&mut gpu);
    assert!(gpu.screen.iter().all(|&pixel| !pixel));
}

#[test]
fn test_dxyn_draws_and_double_draw_restores() {
    let mut cpu = test_init_cpu();
    let mut mem = test_init_mem();
    let mut gpu = test_init_gpu();
    // a two-row sprite at ram[0x300..0x302]
    cpu.index_register = 0x300;
    mem.ram[0x300] = 0xAA; // 1010 1010
    mem.ram[0x301] = 0x55; // 0101 0101
    cpu.registers[4] = 10; // column
    cpu.registers[3] = 5; // row
    cpu.current_opcode = OpCode(0xD432);

    OpCode::dxyn(&mut cpu, &mem, &mut gpu);
    // fresh screen: nothing was erased
    assert_eq!(cpu.registers[0xF], 0);
    assert!(gpu.screen[5 * 64 + 10]);
    assert!(!gpu.screen[5 * 64 + 11]);
    assert!(!gpu.screen[6 * 64 + 10]);
    assert!(gpu.screen[6 * 64 + 11]);

    // the same draw again erases exactly what it drew
    OpCode::dxyn(&mut cpu, &mem, &mut gpu);
    assert_eq!(cpu.registers[0xF], 1);
    assert!(gpu.screen.iter().all(|&pixel| !pixel));
}

#[test]
fn test_dxyn_wraps_at_the_right_edge() {
    let mut cpu = Cpu::new();
    let mut mem = Memory::default();
    let mut gpu = Gpu::new();
    cpu.index_register = 0x300;
    mem.ram[0x300] = 0xFF; // one full row of bits
    cpu.registers[0] = 62; // column near the right edge
    cpu.registers[1] = 31; // bottom row
    cpu.current_opcode = OpCode(0xD011);
    OpCode::dxyn(&mut cpu, &mem, &mut gpu);
    // columns 62, 63 then wrapping to 0..=5, all on row 31
    assert!(gpu.screen[31 * 64 + 62]);
    assert!(gpu.screen[31 * 64 + 63]);
    for col in 0..6 {
        assert!(gpu.screen[31 * 64 + col]);
    }
    assert!(!gpu.screen[31 * 64 + 6]);
    assert_eq!(cpu.registers[0xF], 0);
}

#[test]
fn test_annn_and_bnnn() {
    let mut cpu = Cpu::new();
    cpu.current_opcode = OpCode(0xA123);
    OpCode::annn(&mut cpu);
    assert_eq!(cpu.index_register, 0x123);

    cpu.registers[0] = 0x10;
    cpu.current_opcode = OpCode(0xB200);
    OpCode::bnnn(&mut cpu);
    assert_eq!(cpu.program_counter, 0x210);
}

#[test]
fn test_fx29_points_at_the_glyph() {
    let mut cpu = Cpu::new();
    cpu.registers[7] = 0xA;
    cpu.current_opcode = OpCode(0xF729);
    OpCode::fx29(&mut cpu);
    assert_eq!(cpu.index_register, 5 * 0xA);
}

#[test]
fn test_fx33_boundary_values() {
    let mut cpu = Cpu::new();
    let mut mem = Memory::default();
    cpu.index_register = 0x400;
    cpu.registers[0] = 255;
    cpu.current_opcode = OpCode(0xF033);
    OpCode::fx33(&mut cpu, &mut mem);
    assert_eq!(&mem.ram[0x400..0x403], &[2, 5, 5]);

    cpu.registers[0] = 7;
    OpCode::fx33(&mut cpu, &mut mem);
    assert_eq!(&mem.ram[0x400..0x403], &[0, 0, 7]);
}

#[test]
fn test_fx55_then_fx65_round_trip() {
    // store V0..=V5, scramble the registers, load them back from the same I
    let mut cpu = Cpu::new();
    let mut mem = Memory::default();
    let originals: [u8; 6] = [9, 8, 7, 6, 5, 4];
    for (k, v) in originals.iter().enumerate() {
        cpu.registers[k] = *v;
    }
    cpu.index_register = 0x250;
    cpu.current_opcode = OpCode(0xF555);
    OpCode::fx55(&mut cpu, &mut mem);
    // I advances by X + 1 after the store
    assert_eq!(cpu.index_register, 0x250 + 6);

    for k in 0..6 {
        cpu.registers[k] = 0;
    }
    cpu.index_register = 0x250;
    cpu.current_opcode = OpCode(0xF565);
    OpCode::fx65(&mut cpu, &mem);
    assert_eq!(&cpu.registers[0..6], &originals);
    // and again by X + 1 after the load
    assert_eq!(cpu.index_register, 0x250 + 6);
}

#[test]
fn test_skip_handlers() {
    let mut cpu = Cpu::new();
    cpu.registers[3] = 0x44;
    cpu.registers[4] = 0x44;
    cpu.registers[5] = 0x20;

    cpu.current_opcode = OpCode(0x3344);
    assert!(matches!(
        OpCode::_3xnn(&mut cpu),
        chip8_core::iset::ExecutionResult::Skipped
    ));
    cpu.current_opcode = OpCode(0x3345);
    assert!(matches!(
        OpCode::_3xnn(&mut cpu),
        chip8_core::iset::ExecutionResult::Advanced
    ));
    cpu.current_opcode = OpCode(0x4344);
    assert!(matches!(
        OpCode::_4xnn(&mut cpu),
        chip8_core::iset::ExecutionResult::Advanced
    ));
    cpu.current_opcode = OpCode(0x5340);
    assert!(matches!(
        OpCode::_5xy0(&mut cpu),
        chip8_core::iset::ExecutionResult::Skipped
    ));
    cpu.current_opcode = OpCode(0x9350);
    assert!(matches!(
        OpCode::_9xy0(&mut cpu),
        chip8_core::iset::ExecutionResult::Skipped
    ));
    cpu.current_opcode = OpCode(0x9340);
    assert!(matches!(
        OpCode::_9xy0(&mut cpu),
        chip8_core::iset::ExecutionResult::Advanced
    ));
}

#[test]
fn test_alu_bitwise_handlers() {
    let mut cpu = Cpu::new();
    cpu.registers[1] = 0b1100;
    cpu.registers[2] = 0b1010;

    cpu.current_opcode = OpCode(0x8121);
    OpCode::_8xy1(&mut cpu);
    assert_eq!(cpu.registers[1], 0b1110);

    cpu.registers[1] = 0b1100;
    cpu.current_opcode = OpCode(0x8122);
    OpCode::_8xy2(&mut cpu);
    assert_eq!(cpu.registers[1], 0b1000);

    cpu.registers[1] = 0b1100;
    cpu.current_opcode = OpCode(0x8123);
    OpCode::_8xy3(&mut cpu);
    assert_eq!(cpu.registers[1], 0b0110);

    cpu.current_opcode = OpCode(0x8120);
    OpCode::_8xy0(&mut cpu);
    assert_eq!(cpu.registers[1], 0b1010);
}

#[test]
fn test_cxnn_masks_the_random_byte() {
    let mut cpu = Cpu::new();
    cpu.current_opcode = OpCode(0xC20F);
    OpCode::cxnn(&mut cpu, 0xAB);
    assert_eq!(cpu.registers[2], 0x0B);
    cpu.current_opcode = OpCode(0xC200);
    OpCode::cxnn(&mut cpu, 0xFF);
    assert_eq!(cpu.registers[2], 0x00);
}

#[test]
fn test_key_handlers() {
    let mut cpu = Cpu::new();
    cpu.registers[6] = 0x5;
    cpu.current_opcode = OpCode(0xE69E);
    let keys: u16 = 1 << 5;
    assert!(matches!(
        OpCode::ex9e(&mut cpu, keys),
        chip8_core::iset::ExecutionResult::Skipped
    ));
    assert!(matches!(
        OpCode::ex9e(&mut cpu, 0),
        chip8_core::iset::ExecutionResult::Advanced
    ));
    cpu.current_opcode = OpCode(0xE6A1);
    assert!(matches!(
        OpCode::exa1(&mut cpu, keys),
        chip8_core::iset::ExecutionResult::Advanced
    ));
    assert!(matches!(
        OpCode::exa1(&mut cpu, 0),
        chip8_core::iset::ExecutionResult::Skipped
    ));
}

#[test]
fn test_fx0a_takes_the_lowest_pressed_key() {
    let mut cpu = Cpu::new();
    cpu.current_opcode = OpCode(0xF30A);
    // no key: nothing changes, the handler asks to retry
    assert!(matches!(
        OpCode::fx0a(&mut cpu, 0),
        chip8_core::iset::ExecutionResult::Jumped
    ));
    assert_eq!(cpu.registers[3], 0);
    // keys 0xB and 0x4 held: the lowest one wins
    let keys: u16 = (1 << 0xB) | (1 << 0x4);
    assert!(matches!(
        OpCode::fx0a(&mut cpu, keys),
        chip8_core::iset::ExecutionResult::Advanced
    ));
    assert_eq!(cpu.registers[3], 0x4);
}
