use sm83::cpu::{CoreError, CpuState, MemoryRegion, CPU, MEMORY_SIZE};
use sm83::display::Display;
use sm83::opcodes::{decode, step};
use sm83::registers::Flags;

fn load(cpu: &mut CPU, at: usize, bytes: &[u8]) {
    for (i, b) in bytes.iter().enumerate() {
        cpu.work_ram[at + i] = *b;
    }
}

fn run(cpu: &mut CPU, steps: usize) {
    for _ in 0..steps {
        assert_eq!(step(cpu), Ok(()));
    }
}

#[test]
fn new_cpu_is_zeroed_and_running() {
    let cpu = CPU::new();
    assert!(cpu.work_ram.iter().all(|b| *b == 0));
    assert!(cpu.video_ram.iter().all(|b| *b == 0));
    assert_eq!(cpu.program_counter, 0);
    assert_eq!(cpu.stack_ptr, MEMORY_SIZE - 1);
    assert_eq!(cpu.state, CpuState::CONTINUE);
    let _ = Display::new();
}

#[test]
fn end_to_end_load_increment_nop() {
    let mut cpu = CPU::new();
    load(&mut cpu, 0, &[0x3E, 0x05, 0x3C, 0x00]);
    run(&mut cpu, 2);
    assert_eq!(cpu.registers.a, 0x06);
    assert_eq!(cpu.program_counter, 3);
    run(&mut cpu, 1);
    assert_eq!(cpu.registers.a, 0x06);
    assert!(!cpu.registers.flags.z);
    assert_eq!(cpu.program_counter, 4);
    assert_eq!(cpu.state, CpuState::CONTINUE);
}

#[test]
fn jump_if_zero_not_taken_consumes_offset() {
    let mut cpu = CPU::new();
    cpu.program_counter = 0x40;
    load(&mut cpu, 0x40, &[0x28, 0x10]);
    cpu.registers.flags.z = false;
    run(&mut cpu, 1);
    assert_eq!(cpu.program_counter, 0x42);
}

#[test]
fn jump_if_zero_taken() {
    let mut cpu = CPU::new();
    cpu.program_counter = 0x40;
    load(&mut cpu, 0x40, &[0x28, 0xFC]);
    cpu.registers.flags.z = true;
    run(&mut cpu, 1);
    assert_eq!(cpu.program_counter, 0x3E);
}

#[test]
fn conditional_jumps_and_calls_skip_operands() {
    let mut cpu = CPU::new();
    cpu.registers.flags.z = true;
    cpu.registers.flags.c = false;
    // JR NZ, JP NZ, CALL C, RET NZ: none taken.
    load(&mut cpu, 0, &[0x20, 0x30, 0xC2, 0x00, 0x10, 0xDC, 0x00, 0x10, 0xC0]);
    run(&mut cpu, 4);
    assert_eq!(cpu.program_counter, 9);
    assert_eq!(cpu.stack_ptr, MEMORY_SIZE - 1);
}

#[test]
fn jump_out_of_range_is_fatal() {
    let mut cpu = CPU::new();
    load(&mut cpu, 0, &[0xC3, 0x00, 0x20]);
    assert_eq!(step(&mut cpu), Err(CoreError::OutOfRangeAccess));
    assert_eq!(cpu.program_counter, 0);
    load(&mut cpu, 0, &[0xCD, 0xFF, 0xFF]);
    assert_eq!(step(&mut cpu), Err(CoreError::OutOfRangeAccess));
    assert_eq!(cpu.program_counter, 0);
    assert_eq!(cpu.stack_ptr, MEMORY_SIZE - 1);
}

#[test]
fn memory_access_out_of_range_is_fatal() {
    let mut cpu = CPU::new();
    cpu.registers.set_hl(0x2000);
    cpu.registers.a = 0x55;
    let before = cpu.work_ram;
    // LD (HL),A ; LD A,(HL) ; INC (HL) ; ADD A,(HL) ; LDH (a8),A ; LD (a16),A
    for program in [&[0x77u8][..], &[0x7E], &[0x34], &[0x86], &[0xE0, 0x80], &[0xEA, 0x00, 0x20]] {
        load(&mut cpu, 0, program);
        let ram = cpu.work_ram;
        assert_eq!(step(&mut cpu), Err(CoreError::OutOfRangeAccess));
        assert_eq!(cpu.program_counter, 0);
        assert_eq!(cpu.registers.a, 0x55);
        assert_eq!(cpu.work_ram, ram);
    }
    assert_eq!(cpu.work_ram[0x100..], before[0x100..]);
}

#[test]
fn instruction_past_end_of_memory() {
    let mut cpu = CPU::new();
    cpu.program_counter = MEMORY_SIZE - 1;
    assert_eq!(step(&mut cpu), Err(CoreError::OutOfRangeAccess));
    cpu.program_counter = MEMORY_SIZE - 2;
    cpu.work_ram[MEMORY_SIZE - 2] = 0x3E;
    assert_eq!(step(&mut cpu), Err(CoreError::OutOfRangeAccess));
    assert_eq!(cpu.program_counter, MEMORY_SIZE - 2);
}

#[test]
fn unimplemented_opcodes() {
    for op in [0xD3u8, 0xDB, 0xDD, 0xE3, 0xE4, 0xEB, 0xEC, 0xED, 0xF4, 0xFC, 0xFD] {
        let mut cpu = CPU::new();
        cpu.work_ram[0] = op;
        assert_eq!(step(&mut cpu), Err(CoreError::UnimplementedOpcode(op)));
        assert_eq!(cpu.program_counter, 0);
    }
}

#[test]
fn every_other_opcode_is_decoded() {
    let undefined = [0xD3u8, 0xDB, 0xDD, 0xE3, 0xE4, 0xEB, 0xEC, 0xED, 0xF4, 0xFC, 0xFD];
    for op in 0..=255u8 {
        let mut cpu = CPU::new();
        cpu.program_counter = 0x100;
        cpu.stack_ptr = 0x1000;
        cpu.registers.set_hl(0x0800);
        let r = decode(op, &mut cpu);
        if undefined.contains(&op) {
            assert_eq!(r, Err(CoreError::UnimplementedOpcode(op)));
        } else {
            assert_ne!(r, Err(CoreError::UnimplementedOpcode(op)), "opcode {:#04x}", op);
        }
    }
}

#[test]
fn halt_and_stop() {
    let mut cpu = CPU::new();
    load(&mut cpu, 0, &[0x76, 0x3C]);
    run(&mut cpu, 1);
    assert_eq!(cpu.state, CpuState::HALT);
    assert_eq!(cpu.program_counter, 1);
    run(&mut cpu, 3);
    assert_eq!(cpu.registers.a, 0);
    assert_eq!(cpu.program_counter, 1);
    let mut other = CPU::new();
    load(&mut other, 0, &[0x10, 0x00, 0x3C]);
    run(&mut other, 2);
    assert_eq!(other.state, CpuState::STOP);
    assert_eq!(other.program_counter, 2);
    assert_eq!(other.registers.a, 0);
}

#[test]
fn sixteen_bit_loads_are_little_endian() {
    let mut cpu = CPU::new();
    load(&mut cpu, 0, &[0x01, 0x34, 0x12, 0x11, 0xCD, 0xAB, 0x21, 0x00, 0x01, 0x31, 0x00, 0x10]);
    run(&mut cpu, 4);
    assert_eq!(cpu.registers.get_bc(), 0x1234);
    assert_eq!(cpu.registers.get_de(), 0xABCD);
    assert_eq!(cpu.registers.get_hl(), 0x0100);
    assert_eq!(cpu.stack_ptr, 0x1000);
    assert_eq!(cpu.program_counter, 12);
    load(&mut cpu, 12, &[0x31, 0x01, 0x20, 0x31, 0x00, 0x20]);
    assert_eq!(step(&mut cpu), Err(CoreError::OutOfRangeAccess));
    assert_eq!(cpu.stack_ptr, 0x1000);
    cpu.program_counter = 15;
    assert_eq!(step(&mut cpu), Err(CoreError::OutOfRangeAccess));
    assert_eq!(cpu.stack_ptr, 0x1000);
    assert_eq!(cpu.program_counter, 15);
}

#[test]
fn fetch_helpers() {
    let mut cpu = CPU::new();
    load(&mut cpu, 0, &[0x00, 0x34, 0x12, 0xFE]);
    assert_eq!(cpu.get_next_two_bytes(), Ok(0x1234));
    assert_eq!(cpu.program_counter, 2);
    assert_eq!(cpu.get_next_signed_byte(), Ok(-2));
    assert_eq!(cpu.program_counter, 3);
    cpu.program_counter = 0;
    assert_eq!(cpu.get_next_one_byte(), Ok(0x34));
    cpu.program_counter = MEMORY_SIZE - 1;
    assert_eq!(cpu.get_next_one_byte(), Err(CoreError::OutOfRangeAccess));
    cpu.program_counter = MEMORY_SIZE - 2;
    assert_eq!(cpu.get_next_two_bytes(), Err(CoreError::OutOfRangeAccess));
    assert_eq!(cpu.program_counter, MEMORY_SIZE - 2);
}

#[test]
fn register_to_register_loads() {
    let mut cpu = CPU::new();
    cpu.registers.a = 0x11;
    cpu.registers.set_hl(0x0200);
    cpu.work_ram[0x0200] = 0x99;
    // LD B,A ; LD C,(HL) ; LD (HL),B ; LD E,C ; LD A,E
    load(&mut cpu, 0, &[0x47, 0x4E, 0x70, 0x59, 0x7B]);
    run(&mut cpu, 3);
    assert_eq!(cpu.registers.b, 0x11);
    assert_eq!(cpu.registers.c, 0x99);
    assert_eq!(cpu.work_ram[0x0200], 0x11);
    run(&mut cpu, 2);
    assert_eq!(cpu.registers.e, 0x99);
    assert_eq!(cpu.registers.a, 0x99);
}

#[test]
fn indirect_loads_move_hl() {
    let mut cpu = CPU::new();
    cpu.registers.a = 0xAA;
    cpu.registers.set_hl(0x0300);
    // LD (HL+),A ; LD (HL-),A ; LD A,(HL-)
    load(&mut cpu, 0, &[0x22, 0x32, 0x3A]);
    run(&mut cpu, 2);
    assert_eq!(cpu.work_ram[0x0300], 0xAA);
    assert_eq!(cpu.work_ram[0x0301], 0xAA);
    assert_eq!(cpu.registers.get_hl(), 0x0300);
    cpu.work_ram[0x0300] = 0x5B;
    run(&mut cpu, 1);
    assert_eq!(cpu.registers.a, 0x5B);
    assert_eq!(cpu.registers.get_hl(), 0x02FF);
}

#[test]
fn load_and_store_through_pairs() {
    let mut cpu = CPU::new();
    cpu.registers.set_bc(0x0400);
    cpu.registers.set_de(0x0401);
    cpu.registers.a = 0x3C;
    // LD (BC),A ; LD A,(DE) ; LD (DE),A
    load(&mut cpu, 0, &[0x02, 0x1A]);
    cpu.work_ram[0x0401] = 0x77;
    run(&mut cpu, 2);
    assert_eq!(cpu.work_ram[0x0400], 0x3C);
    assert_eq!(cpu.registers.a, 0x77);
}

#[test]
fn alu_block_and_immediates() {
    let mut cpu = CPU::new();
    cpu.registers.a = 0x10;
    cpu.registers.b = 0x05;
    // ADD A,B ; SUB d8 ; AND d8 ; OR B ; XOR A ; CP d8
    load(&mut cpu, 0, &[0x80, 0xD6, 0x01, 0xE6, 0x0F, 0xB0, 0xAF, 0xFE, 0x01]);
    run(&mut cpu, 1);
    assert_eq!(cpu.registers.a, 0x15);
    run(&mut cpu, 1);
    assert_eq!(cpu.registers.a, 0x14);
    assert!(cpu.registers.flags.n);
    run(&mut cpu, 1);
    assert_eq!(cpu.registers.a, 0x04);
    assert!(cpu.registers.flags.h);
    run(&mut cpu, 1);
    assert_eq!(cpu.registers.a, 0x05);
    run(&mut cpu, 1);
    assert_eq!(cpu.registers.a, 0x00);
    assert_eq!(cpu.registers.flags, Flags { z: true, n: false, h: false, c: false });
    run(&mut cpu, 1);
    assert_eq!(cpu.registers.a, 0x00);
    assert_eq!(cpu.registers.flags, Flags { z: false, n: true, h: true, c: true });
    assert_eq!(cpu.program_counter, 9);
}

#[test]
fn sixteen_bit_inc_dec_and_add() {
    let mut cpu = CPU::new();
    cpu.registers.set_bc(0xFFFF);
    cpu.registers.set_hl(0x0FFF);
    cpu.registers.flags.z = true;
    // INC BC ; ADD HL,HL ; DEC DE ; DEC SP
    load(&mut cpu, 0, &[0x03, 0x29, 0x1B, 0x3B]);
    run(&mut cpu, 4);
    assert_eq!(cpu.registers.get_bc(), 0x0000);
    assert_eq!(cpu.registers.get_hl(), 0x1FFE);
    assert_eq!(cpu.registers.flags, Flags { z: true, n: false, h: true, c: false });
    assert_eq!(cpu.registers.get_de(), 0xFFFF);
    assert_eq!(cpu.stack_ptr, MEMORY_SIZE - 2);
    load(&mut cpu, 4, &[0x33, 0x33]);
    run(&mut cpu, 1);
    assert_eq!(cpu.stack_ptr, MEMORY_SIZE - 1);
    // INC SP on the last byte of work RAM would leave it outside.
    assert_eq!(step(&mut cpu), Err(CoreError::OutOfRangeAccess));
    assert_eq!(cpu.stack_ptr, MEMORY_SIZE - 1);
    assert_eq!(cpu.program_counter, 5);
}

#[test]
fn push_pop_af_and_pairs() {
    let mut cpu = CPU::new();
    cpu.registers.a = 0x12;
    cpu.registers.flags = Flags { z: true, n: false, h: true, c: false };
    cpu.registers.set_de(0xBEEF);
    // PUSH AF ; PUSH DE ; POP BC ; POP HL ; XOR A ; PUSH HL ; POP AF
    load(&mut cpu, 0, &[0xF5, 0xD5, 0xC1, 0xE1, 0xAF, 0xE5, 0xF1]);
    run(&mut cpu, 2);
    assert_eq!(cpu.work_ram[MEMORY_SIZE - 2], 0x12);
    assert_eq!(cpu.work_ram[MEMORY_SIZE - 3], 0xA0);
    run(&mut cpu, 2);
    assert_eq!(cpu.registers.get_bc(), 0xBEEF);
    assert_eq!(cpu.registers.get_hl(), 0x12A0);
    assert_eq!(cpu.stack_ptr, MEMORY_SIZE - 1);
    run(&mut cpu, 3);
    assert_eq!(cpu.registers.a, 0x12);
    assert_eq!(cpu.registers.flags, Flags { z: true, n: false, h: true, c: false });
}

#[test]
fn call_ret_and_rst_through_decoder() {
    let mut cpu = CPU::new();
    // 0x00: CALL 0x0010 ; 0x03: RST 0x18
    load(&mut cpu, 0, &[0xCD, 0x10, 0x00, 0xDF]);
    // 0x10: INC A ; RET
    load(&mut cpu, 0x10, &[0x3C, 0xC9]);
    // 0x18: INC A ; INC A ; RETI
    load(&mut cpu, 0x18, &[0x3C, 0x3C, 0xD9]);
    run(&mut cpu, 1);
    assert_eq!(cpu.program_counter, 0x10);
    assert_eq!(cpu.stack_ptr, MEMORY_SIZE - 3);
    run(&mut cpu, 2);
    assert_eq!(cpu.program_counter, 3);
    assert_eq!(cpu.registers.a, 1);
    run(&mut cpu, 1);
    assert_eq!(cpu.program_counter, 0x18);
    run(&mut cpu, 3);
    assert_eq!(cpu.program_counter, 4);
    assert_eq!(cpu.registers.a, 3);
    assert_eq!(cpu.stack_ptr, MEMORY_SIZE - 1);
}

#[test]
fn jp_hl_and_ld_sp_hl() {
    let mut cpu = CPU::new();
    cpu.registers.set_hl(0x0500);
    load(&mut cpu, 0, &[0xF9, 0xE9]);
    run(&mut cpu, 2);
    assert_eq!(cpu.stack_ptr, 0x0500);
    assert_eq!(cpu.program_counter, 0x0500);
}

#[test]
fn sp_offsets() {
    let mut cpu = CPU::new();
    cpu.stack_ptr = 0x0FF8;
    // ADD SP,+8 ; LD HL,SP-1 ; ADD SP,-2
    load(&mut cpu, 0, &[0xE8, 0x08, 0xF8, 0xFF, 0xE8, 0xFE]);
    run(&mut cpu, 1);
    assert_eq!(cpu.stack_ptr, 0x1000);
    assert_eq!(cpu.registers.flags, Flags { z: false, n: false, h: true, c: true });
    run(&mut cpu, 1);
    assert_eq!(cpu.registers.get_hl(), 0x0FFF);
    assert_eq!(cpu.stack_ptr, 0x1000);
    run(&mut cpu, 1);
    assert_eq!(cpu.stack_ptr, 0x0FFE);
}

#[test]
fn store_sp_at_immediate_address() {
    let mut cpu = CPU::new();
    cpu.stack_ptr = 0x1234;
    load(&mut cpu, 0, &[0x08, 0x00, 0x06]);
    run(&mut cpu, 1);
    assert_eq!(cpu.work_ram[0x0600], 0x34);
    assert_eq!(cpu.work_ram[0x0601], 0x12);
    assert_eq!(cpu.program_counter, 3);
    load(&mut cpu, 3, &[0x08, 0xFF, 0x1F]);
    assert_eq!(step(&mut cpu), Err(CoreError::OutOfRangeAccess));
    assert_eq!(cpu.work_ram[0x1FFF], 0);
}

#[test]
fn absolute_loads_of_a() {
    let mut cpu = CPU::new();
    cpu.registers.a = 0x42;
    // LD (0x0700),A ; LD A,d8 ; LD A,(0x0700)
    load(&mut cpu, 0, &[0xEA, 0x00, 0x07, 0x3E, 0x00, 0xFA, 0x00, 0x07]);
    run(&mut cpu, 2);
    assert_eq!(cpu.work_ram[0x0700], 0x42);
    assert_eq!(cpu.registers.a, 0);
    run(&mut cpu, 1);
    assert_eq!(cpu.registers.a, 0x42);
}

#[test]
fn inc_dec_through_decoder() {
    let mut cpu = CPU::new();
    cpu.registers.b = 0xFF;
    cpu.registers.set_hl(0x0800);
    cpu.work_ram[0x0800] = 0x00;
    // INC B ; DEC (HL) ; LD (HL),d8 ; INC (HL)
    load(&mut cpu, 0, &[0x04, 0x35, 0x36, 0x0F, 0x34]);
    run(&mut cpu, 1);
    assert_eq!(cpu.registers.b, 0);
    assert!(cpu.registers.flags.z && cpu.registers.flags.h);
    run(&mut cpu, 1);
    assert_eq!(cpu.work_ram[0x0800], 0xFF);
    assert!(cpu.registers.flags.n);
    run(&mut cpu, 2);
    assert_eq!(cpu.work_ram[0x0800], 0x10);
    assert!(cpu.registers.flags.h && !cpu.registers.flags.n);
}

#[test]
fn prefixed_instructions() {
    let mut cpu = CPU::new();
    cpu.registers.b = 0x85;
    cpu.registers.set_hl(0x0900);
    cpu.work_ram[0x0900] = 0xF0;
    // RLC B ; SWAP (HL) ; BIT 7,(HL) ; RES 0,B ; SET 7,A
    load(&mut cpu, 0, &[0xCB, 0x00, 0xCB, 0x36, 0xCB, 0x7E, 0xCB, 0x80, 0xCB, 0xFF]);
    run(&mut cpu, 1);
    assert_eq!(cpu.registers.b, 0x0B);
    assert!(cpu.registers.flags.c);
    run(&mut cpu, 1);
    assert_eq!(cpu.work_ram[0x0900], 0x0F);
    assert!(!cpu.registers.flags.c);
    run(&mut cpu, 1);
    assert!(cpu.registers.flags.z && cpu.registers.flags.h);
    run(&mut cpu, 2);
    assert_eq!(cpu.registers.b, 0x0A);
    assert_eq!(cpu.registers.a, 0x80);
    assert_eq!(cpu.program_counter, 10);
}

#[test]
fn rotate_daa_cpl_scf_ccf_through_decoder() {
    let mut cpu = CPU::new();
    cpu.registers.a = 0x45;
    // ADD A,d8 ; DAA ; CPL ; SCF ; CCF ; RLCA
    load(&mut cpu, 0, &[0xC6, 0x38, 0x27, 0x2F, 0x37, 0x3F, 0x07]);
    run(&mut cpu, 2);
    assert_eq!(cpu.registers.a, 0x83);
    run(&mut cpu, 1);
    assert_eq!(cpu.registers.a, 0x7C);
    run(&mut cpu, 1);
    assert!(cpu.registers.flags.c);
    run(&mut cpu, 1);
    assert!(!cpu.registers.flags.c);
    run(&mut cpu, 1);
    assert_eq!(cpu.registers.a, 0xF8);
    assert!(!cpu.registers.flags.c);
}

#[test]
fn high_page_accesses_are_out_of_range() {
    let mut cpu = CPU::new();
    for program in [&[0xF0u8, 0x44][..], &[0xE2], &[0xF2]] {
        load(&mut cpu, 0, program);
        assert_eq!(step(&mut cpu), Err(CoreError::OutOfRangeAccess));
        assert_eq!(cpu.program_counter, 0);
    }
}

#[test]
fn di_and_ei_move_on() {
    let mut cpu = CPU::new();
    load(&mut cpu, 0, &[0xF3, 0xFB]);
    run(&mut cpu, 2);
    assert_eq!(cpu.program_counter, 2);
}

#[test]
fn stack_pointer_stays_inside_work_ram() {
    // POP and RET from the second-to-last byte, LD SP,HL and ADD SP,e8 to 8192.
    let mut cpu = CPU::new();
    cpu.stack_ptr = MEMORY_SIZE - 2;
    for program in [&[0xC1u8][..], &[0xC9]] {
        load(&mut cpu, 0, program);
        assert_eq!(step(&mut cpu), Err(CoreError::OutOfRangeAccess));
        assert_eq!(cpu.stack_ptr, MEMORY_SIZE - 2);
        assert_eq!(cpu.program_counter, 0);
    }
    cpu.registers.set_hl(0x2000);
    load(&mut cpu, 0, &[0xF9]);
    assert_eq!(step(&mut cpu), Err(CoreError::OutOfRangeAccess));
    assert_eq!(cpu.stack_ptr, MEMORY_SIZE - 2);
    let flags_before = cpu.registers.flags;
    load(&mut cpu, 0, &[0xE8, 0x02]);
    assert_eq!(step(&mut cpu), Err(CoreError::OutOfRangeAccess));
    assert_eq!(cpu.stack_ptr, MEMORY_SIZE - 2);
    assert_eq!(cpu.registers.flags, flags_before);
    load(&mut cpu, 0, &[0xE8, 0x01]);
    assert_eq!(step(&mut cpu), Ok(()));
    assert_eq!(cpu.stack_ptr, MEMORY_SIZE - 1);
}

#[test]
fn video_memory_access() {
    let mut cpu = CPU::new();
    assert_eq!(cpu.write_memory(MemoryRegion::VideoRam, 0x1FFF, 0xAB), Ok(()));
    assert_eq!(cpu.video_ram[0x1FFF], 0xAB);
    assert_eq!(cpu.work_ram[0x1FFF], 0);
    assert_eq!(cpu.read_memory(MemoryRegion::VideoRam, 0x1FFF), Ok(0xAB));
    assert_eq!(cpu.read_memory(MemoryRegion::WorkRam, 0x1FFF), Ok(0));
    assert_eq!(cpu.write_memory(MemoryRegion::WorkRam, 0x10, 0xCD), Ok(()));
    assert_eq!(cpu.read_memory(MemoryRegion::WorkRam, 0x10), Ok(0xCD));
    let vram = cpu.video_ram;
    assert_eq!(cpu.write_memory(MemoryRegion::VideoRam, MEMORY_SIZE, 1), Err(CoreError::OutOfRangeAccess));
    assert_eq!(cpu.video_ram, vram);
    assert_eq!(cpu.read_memory(MemoryRegion::VideoRam, MEMORY_SIZE), Err(CoreError::OutOfRangeAccess));
    assert_eq!(cpu.read_memory(MemoryRegion::WorkRam, 0xFFFF), Err(CoreError::OutOfRangeAccess));
}
