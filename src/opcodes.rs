use vstd::prelude::*;
use crate::cpu::{in_range, or_out_of_range, completes_as, signed, to_signed, CoreError, CpuState, Machine, CPU, MEMORY_SIZE};
use crate::instructions::{
    add16_spec, add8_spec, addc_spec, and_spec, bit_spec, call_spec, ccf_spec, cpl_spec, daa_spec,
    dec8_spec, inc8_spec, jp_spec, or_spec, pop_spec, push_spec, ret_spec, rla_spec, rlca_spec, rra_spec,
    rrca_spec, sbc_spec, scf_spec, shift_spec, sub_spec, xor_spec, add16, add8, addc, and, call,
    ccf, cp, cpl, daa, dec8, inc8, jp, jr, ld8, ld_from_memory, ld_to_memory, or, pop, push, reset_bit, ret,
    rla, rlca, rra, rrca, sbc, scf, set_bit, shift, test_bit, xor,
};
use crate::registers::{Flags, Registers, high_byte, low_byte, pair, join_bytes, split_bytes};

verus! {

// The opcode byte is read as the fields x (bits 7-6), y (bits 5-3), z (bits
// 2-0), p (bits 5-4) and q (bit 3). An eight-bit operand index names
// B, C, D, E, H, L, the byte at HL, A; a pair index names BC, DE, HL, SP
// (AF in place of SP for PUSH and POP).

/// The bytes with no instruction.
pub open spec fn is_unimplemented(op: u8) -> bool {
    op == 0xD3 || op == 0xDB || op == 0xDD || op == 0xE3 || op == 0xE4 || op == 0xEB
        || op == 0xEC || op == 0xED || op == 0xF4 || op == 0xFC || op == 0xFD
}

/// The number of bytes of the instruction that starts with `op`, the opcode
/// included.
pub open spec fn length(op: u8) -> int {
    if op < 0x40 {
        if op == 0x01 || op == 0x11 || op == 0x21 || op == 0x31 || op == 0x08 {
            3
        } else if op % 8 == 6 || op == 0x10 || op == 0x18 || op == 0x20 || op == 0x28 || op == 0x30
            || op == 0x38 {
            2
        } else {
            1
        }
    } else if op < 0xC0 {
        1
    } else if op == 0xC2 || op == 0xC3 || op == 0xCA || op == 0xD2 || op == 0xDA || op == 0xC4
        || op == 0xCC || op == 0xCD || op == 0xD4 || op == 0xDC || op == 0xEA || op == 0xFA {
        3
    } else if op % 8 == 6 || op == 0xE0 || op == 0xF0 || op == 0xE8 || op == 0xF8 || op == 0xCB {
        2
    } else {
        1
    }
}

/// The jump condition with index `cc`: NZ, Z, NC, C.
pub open spec fn condition(cc: u8, f: Flags) -> bool {
    if cc == 0 {
        !f.z
    } else if cc == 1 {
        f.z
    } else if cc == 2 {
        !f.c
    } else {
        f.c
    }
}

/// The eight-bit register with index `i` (not 6).
pub open spec fn reg8(r: Registers, i: u8) -> u8 {
    if i == 0 {
        r.b
    } else if i == 1 {
        r.c
    } else if i == 2 {
        r.d
    } else if i == 3 {
        r.e
    } else if i == 4 {
        r.h
    } else if i == 5 {
        r.l
    } else {
        r.a
    }
}

/// The registers with the eight-bit register of index `i` (not 6) set to `v`.
pub open spec fn with_reg8(r: Registers, i: u8, v: u8) -> Registers {
    if i == 0 {
        Registers { b: v, ..r }
    } else if i == 1 {
        Registers { c: v, ..r }
    } else if i == 2 {
        Registers { d: v, ..r }
    } else if i == 3 {
        Registers { e: v, ..r }
    } else if i == 4 {
        Registers { h: v, ..r }
    } else if i == 5 {
        Registers { l: v, ..r }
    } else {
        Registers { a: v, ..r }
    }
}

/// The eight-bit operand with index `i`; `None` when it is the byte at HL and
/// HL is out of range.
pub open spec fn operand(m: Machine, i: u8) -> Option<u8> {
    if i == 6 {
        m.read(m.regs.hl() as int)
    } else {
        Some(reg8(m.regs, i))
    }
}

/// The state with the eight-bit operand of index `i` set to `v`; `None` when
/// it is the byte at HL and HL is out of range.
pub open spec fn with_operand(m: Machine, i: u8, v: u8) -> Option<Machine> {
    if i == 6 {
        m.write(m.regs.hl() as int, v)
    } else {
        Some(m.with_regs(with_reg8(m.regs, i, v)))
    }
}

/// The register pair with index `p`, SP as a sixteen-bit value.
pub open spec fn rp_value(m: Machine, p: u8) -> u16 {
    if p == 0 {
        m.regs.bc()
    } else if p == 1 {
        m.regs.de()
    } else if p == 2 {
        m.regs.hl()
    } else {
        m.sp as u16
    }
}

/// The state with the register pair of index `p` set to `v`; `None` when it
/// is SP and `v` lies outside work RAM.
pub open spec fn with_rp(m: Machine, p: u8, v: u16) -> Option<Machine> {
    if p == 0 {
        Some(m.with_regs(m.regs.with_bc(v)))
    } else if p == 1 {
        Some(m.with_regs(m.regs.with_de(v)))
    } else if p == 2 {
        Some(m.with_regs(m.regs.with_hl(v)))
    } else if v < MEMORY_SIZE {
        Some(Machine { sp: v as int, ..m })
    } else {
        None
    }
}

/// The flags as the low byte of AF: Z in bit 7, N in 6, H in 5, C in 4.
pub open spec fn flags_byte(f: Flags) -> u8 {
    ((if f.z { 128int } else { 0 }) + (if f.n { 64int } else { 0 }) + (if f.h { 32int } else { 0 }) + (
    if f.c { 16int } else { 0 })) as u8
}

/// The flags held in bits 7 to 4 of the low byte of AF.
pub open spec fn flags_of(b: u8) -> Flags {
    Flags { z: (b / 128) % 2 == 1, n: (b / 64) % 2 == 1, h: (b / 32) % 2 == 1, c: (b / 16) % 2 == 1 }
}

/// The pair with index `p` as PUSH reads it: BC, DE, HL, AF.
pub open spec fn rp2_value(m: Machine, p: u8) -> u16 {
    if p == 3 {
        pair(m.regs.a, flags_byte(m.regs.flags))
    } else {
        rp_value(m, p)
    }
}

/// The state with the pair of index `p` set as POP sets it: BC, DE, HL, AF.
pub open spec fn with_rp2(m: Machine, p: u8, v: u16) -> Machine {
    if p == 0 {
        m.with_regs(m.regs.with_bc(v))
    } else if p == 1 {
        m.with_regs(m.regs.with_de(v))
    } else if p == 2 {
        m.with_regs(m.regs.with_hl(v))
    } else {
        m.with_af((high_byte(v), flags_of(low_byte(v))))
    }
}

/// The arithmetic or logic operation with index `kind` on A and `v`: ADD,
/// ADC, SUB, SBC, AND, XOR, OR, CP. CP keeps A.
pub open spec fn alu_spec(kind: u8, a: u8, v: u8, f: Flags) -> (u8, Flags) {
    if kind == 0 {
        add8_spec(a, v, f)
    } else if kind == 1 {
        addc_spec(a, v, f)
    } else if kind == 2 {
        sub_spec(a, v, f)
    } else if kind == 3 {
        sbc_spec(a, v, f)
    } else if kind == 4 {
        and_spec(a, v)
    } else if kind == 5 {
        xor_spec(a, v)
    } else if kind == 6 {
        or_spec(a, v)
    } else {
        (a, sub_spec(a, v, f).1)
    }
}

/// SP plus a signed offset, wrapping at sixteen bits, with the flags of ADD
/// SP and LD HL,SP+offset: Z = 0, N = 0, H and C from the low byte.
pub open spec fn sp_offset_spec(sp: int, offset: u8) -> (u16, Flags) {
    (((sp + signed(offset) + 65536) % 65536) as u16, Flags {
        z: false,
        n: false,
        h: sp % 16 + offset % 16 > 15,
        c: sp % 256 + offset > 255,
    })
}

/// The address that LD (pair),A and LD A,(pair) use: BC, DE, or HL.
pub open spec fn indirect_address(m: Machine, p: u8) -> int {
    if p == 0 {
        m.regs.bc() as int
    } else if p == 1 {
        m.regs.de() as int
    } else {
        m.regs.hl() as int
    }
}

/// HL moved on after LD (HL+) (index 2) or LD (HL-) (index 3).
pub open spec fn hl_step(m: Machine, p: u8) -> Machine {
    if p == 2 {
        m.with_regs(m.regs.with_hl(((m.regs.hl() + 1) % 65536) as u16))
    } else if p == 3 {
        m.with_regs(m.regs.with_hl(((m.regs.hl() + 65535) % 65536) as u16))
    } else {
        m
    }
}

/// Work RAM with SP stored at `addr`, low byte first.
pub open spec fn store_sp(m: Machine, addr: int) -> Option<Machine> {
    match m.write(addr, low_byte(m.sp as u16)) {
        Some(w) => w.write(addr + 1, high_byte(m.sp as u16)),
        None => None,
    }
}

/// An eight-bit read-modify-write on operand `i`: `r` holds the new value
/// and flags, or `None` when the operand could not be read.
pub open spec fn modify_operand(n: Machine, i: u8, r: Option<(u8, Flags)>) -> Result<Machine, CoreError> {
    match r {
        Some((v, f)) => or_out_of_range(with_operand(n.with_flags(f), i, v)),
        None => Err(CoreError::OutOfRangeAccess),
    }
}

/// Opcodes 0x00 to 0x3F, from the state `n` whose program counter is already
/// past the instruction.
pub open spec fn block0_spec(op: u8, imm8: u8, imm16: u16, n: Machine) -> Result<Machine, CoreError> {
    let y = op / 8;
    let z = op % 8;
    let p = op / 16;
    let q = y % 2;
    let f = n.regs.flags;
    if z == 0 {
        if y == 0 {
            Ok(n)
        } else if y == 1 {
            or_out_of_range(store_sp(n, imm16 as int))
        } else if y == 2 {
            Ok(n.with_state(CpuState::STOP))
        } else if y == 3 || condition((y - 4) as u8, f) {
            or_out_of_range(jp_spec(n, n.pc + signed(imm8)))
        } else {
            Ok(n)
        }
    } else if z == 1 {
        if q == 0 {
            or_out_of_range(with_rp(n, p, imm16))
        } else {
            let (r, f2) = add16_spec(n.regs.hl(), rp_value(n, p), f);
            Ok(n.with_regs(n.regs.with_hl(r)).with_flags(f2))
        }
    } else if z == 2 {
        let addr = indirect_address(n, p);
        if q == 0 {
            match n.write(addr, n.regs.a) {
                Some(w) => Ok(hl_step(w, p)),
                None => Err(CoreError::OutOfRangeAccess),
            }
        } else {
            match n.read(addr) {
                Some(v) => Ok(hl_step(n.with_a(v), p)),
                None => Err(CoreError::OutOfRangeAccess),
            }
        }
    } else if z == 3 {
        let v = rp_value(n, p);
        if q == 0 {
            or_out_of_range(with_rp(n, p, ((v + 1) % 65536) as u16))
        } else {
            or_out_of_range(with_rp(n, p, ((v + 65535) % 65536) as u16))
        }
    } else if z == 4 {
        modify_operand(n, y, match operand(n, y) {
            Some(v) => Some(inc8_spec(v, f)),
            None => None,
        })
    } else if z == 5 {
        modify_operand(n, y, match operand(n, y) {
            Some(v) => Some(dec8_spec(v, f)),
            None => None,
        })
    } else if z == 6 {
        or_out_of_range(with_operand(n, y, imm8))
    } else if y == 0 {
        Ok(n.with_af(rlca_spec(n.regs.a, f)))
    } else if y == 1 {
        Ok(n.with_af(rrca_spec(n.regs.a, f)))
    } else if y == 2 {
        Ok(n.with_af(rla_spec(n.regs.a, f)))
    } else if y == 3 {
        Ok(n.with_af(rra_spec(n.regs.a, f)))
    } else if y == 4 {
        Ok(n.with_af(daa_spec(n.regs.a, f)))
    } else if y == 5 {
        Ok(n.with_af(cpl_spec(n.regs.a, f)))
    } else if y == 6 {
        Ok(n.with_flags(scf_spec(f)))
    } else {
        Ok(n.with_flags(ccf_spec(f)))
    }
}

/// Opcodes 0x40 to 0x7F: LD between eight-bit operands, and HALT at 0x76.
pub open spec fn load_block_spec(op: u8, n: Machine) -> Result<Machine, CoreError> {
    if op == 0x76 {
        Ok(n.with_state(CpuState::HALT))
    } else {
        match operand(n, op % 8) {
            Some(v) => or_out_of_range(with_operand(n, (op / 8) % 8, v)),
            None => Err(CoreError::OutOfRangeAccess),
        }
    }
}

/// Opcodes 0x80 to 0xBF: arithmetic and logic on A with an eight-bit operand.
pub open spec fn alu_block_spec(op: u8, n: Machine) -> Result<Machine, CoreError> {
    match operand(n, op % 8) {
        Some(v) => Ok(n.with_af(alu_spec((op / 8) % 8, n.regs.a, v, n.regs.flags))),
        None => Err(CoreError::OutOfRangeAccess),
    }
}

/// Opcodes 0xC0 to 0xFF but for the prefix 0xCB and the bytes with no
/// instruction. Addresses 0xFF00 and up lie outside work RAM.
pub open spec fn block3_spec(op: u8, imm8: u8, imm16: u16, n: Machine) -> Result<Machine, CoreError> {
    let y = (op / 8) % 8;
    let z = op % 8;
    let p = y / 2;
    let q = y % 2;
    let f = n.regs.flags;
    if z == 0 {
        if y < 4 {
            if condition(y, f) {
                or_out_of_range(ret_spec(n))
            } else {
                Ok(n)
            }
        } else if y == 4 {
            or_out_of_range(n.write(0xFF00 + imm8, n.regs.a))
        } else if y == 6 {
            match n.read(0xFF00 + imm8) {
                Some(v) => Ok(n.with_a(v)),
                None => Err(CoreError::OutOfRangeAccess),
            }
        } else {
            let (s, f2) = sp_offset_spec(n.sp, imm8);
            if y == 5 {
                or_out_of_range(with_rp(n.with_flags(f2), 3, s))
            } else {
                Ok(n.with_regs(n.regs.with_hl(s)).with_flags(f2))
            }
        }
    } else if z == 1 {
        if q == 0 {
            match pop_spec(n) {
                Some((v, w)) => Ok(with_rp2(w, p, v)),
                None => Err(CoreError::OutOfRangeAccess),
            }
        } else if p <= 1 {
            or_out_of_range(ret_spec(n))
        } else if p == 2 {
            or_out_of_range(jp_spec(n, n.regs.hl() as int))
        } else {
            or_out_of_range(with_rp(n, 3, n.regs.hl()))
        }
    } else if z == 2 {
        if y < 4 {
            if condition(y, f) {
                or_out_of_range(jp_spec(n, imm16 as int))
            } else {
                Ok(n)
            }
        } else if y == 4 {
            or_out_of_range(n.write(0xFF00 + n.regs.c, n.regs.a))
        } else if y == 5 {
            or_out_of_range(n.write(imm16 as int, n.regs.a))
        } else {
            let addr = if y == 6 { 0xFF00 + n.regs.c } else { imm16 as int };
            match n.read(addr) {
                Some(v) => Ok(n.with_a(v)),
                None => Err(CoreError::OutOfRangeAccess),
            }
        }
    } else if z == 3 {
        if y == 0 {
            or_out_of_range(jp_spec(n, imm16 as int))
        } else {
            Ok(n)
        }
    } else if z == 4 {
        if condition(y, f) {
            or_out_of_range(call_spec(n, imm16 as int))
        } else {
            Ok(n)
        }
    } else if z == 5 {
        if q == 0 {
            or_out_of_range(push_spec(n, rp2_value(n, p)))
        } else {
            or_out_of_range(call_spec(n, imm16 as int))
        }
    } else if z == 6 {
        Ok(n.with_af(alu_spec(y, n.regs.a, imm8, f)))
    } else {
        or_out_of_range(call_spec(n, y * 8))
    }
}

/// The instruction after the prefix 0xCB, by x: rotates and shifts, BIT,
/// RES, SET; y picks the operation or the bit, z the operand.
pub open spec fn prefixed_spec(cb: u8, n: Machine) -> Result<Machine, CoreError> {
    let x = cb / 64;
    let y = (cb / 8) % 8;
    let z = cb % 8;
    let f = n.regs.flags;
    match operand(n, z) {
        None => Err(CoreError::OutOfRangeAccess),
        Some(v) => if x == 0 {
            modify_operand(n, z, Some(shift_spec(y, v, f)))
        } else if x == 1 {
            Ok(n.with_flags(bit_spec(y, v, f)))
        } else if x == 2 {
            or_out_of_range(with_operand(n, z, v & !(1u8 << y)))
        } else {
            or_out_of_range(with_operand(n, z, v | (1u8 << y)))
        },
    }
}

/// One instruction whose opcode `op` stands at the program counter of `m`.
/// Its immediate bytes follow the opcode, the first as the low byte of a
/// sixteen-bit immediate. Every instruction must end inside work RAM: the
/// program counter is moved past it before it acts, so that relative jumps
/// count from, and calls return to, the next instruction.
///
/// Unless it jumps, an instruction therefore leaves the program counter on
/// the byte after its own last byte, NOP included: LD A,5; INC A; NOP loaded
/// at address 0 leaves it at 3 after the first two and at 4 after the NOP.
/// The stack pointer, too, stays inside work RAM: an instruction that would
/// move it to `MEMORY_SIZE` or beyond fails with `OutOfRangeAccess`.
pub open spec fn execute_spec(op: u8, m: Machine) -> Result<Machine, CoreError> {
    if is_unimplemented(op) {
        Err(CoreError::UnimplementedOpcode(op))
    } else if !in_range(m.pc + length(op)) {
        Err(CoreError::OutOfRangeAccess)
    } else {
        let n = m.at(m.pc + length(op));
        let imm8 = if length(op) == 2 { m.ram[m.pc + 1] } else { 0 };
        let imm16 = if length(op) == 3 { pair(m.ram[m.pc + 2], m.ram[m.pc + 1]) } else { 0 };
        if op < 0x40 {
            block0_spec(op, imm8, imm16, n)
        } else if op < 0x80 {
            load_block_spec(op, n)
        } else if op < 0xC0 {
            alu_block_spec(op, n)
        } else if op == 0xCB {
            prefixed_spec(imm8, n)
        } else {
            block3_spec(op, imm8, imm16, n)
        }
    }
}

/// One step of a running CPU decodes the opcode at the program counter; a
/// halted or stopped CPU does nothing.
pub open spec fn step_spec(m: Machine) -> Result<Machine, CoreError> {
    if m.state != CpuState::CONTINUE {
        Ok(m)
    } else {
        execute_spec(m.ram[m.pc], m)
    }
}

fn is_undefined(op: u8) -> (r: bool)
    ensures
        r == is_unimplemented(op),
{
    op == 0xD3 || op == 0xDB || op == 0xDD || op == 0xE3 || op == 0xE4 || op == 0xEB || op == 0xEC
        || op == 0xED || op == 0xF4 || op == 0xFC || op == 0xFD
}

fn instruction_length(op: u8) -> (r: usize)
    ensures
        r == length(op),
{
    if op < 0x40 {
        if op == 0x01 || op == 0x11 || op == 0x21 || op == 0x31 || op == 0x08 {
            3
        } else if op % 8 == 6 || op == 0x10 || op == 0x18 || op == 0x20 || op == 0x28 || op == 0x30
            || op == 0x38 {
            2
        } else {
            1
        }
    } else if op < 0xC0 {
        1
    } else if op == 0xC2 || op == 0xC3 || op == 0xCA || op == 0xD2 || op == 0xDA || op == 0xC4
        || op == 0xCC || op == 0xCD || op == 0xD4 || op == 0xDC || op == 0xEA || op == 0xFA {
        3
    } else if op % 8 == 6 || op == 0xE0 || op == 0xF0 || op == 0xE8 || op == 0xF8 || op == 0xCB {
        2
    } else {
        1
    }
}

fn condition_holds(cc: u8, f: &Flags) -> (r: bool)
    ensures
        r == condition(cc, *f),
{
    if cc == 0 {
        !f.z
    } else if cc == 1 {
        f.z
    } else if cc == 2 {
        !f.c
    } else {
        f.c
    }
}

/// Reads the eight-bit operand with index `i`.
fn read_operand(cpu: &CPU, i: u8) -> (r: Result<u8, CoreError>)
    requires
        i < 8,
    ensures
        match operand(cpu@, i) {
            Some(v) => r == Ok::<u8, CoreError>(v),
            None => r == Err::<u8, CoreError>(CoreError::OutOfRangeAccess),
        },
{
    match i {
        0 => Ok(cpu.registers.b),
        1 => Ok(cpu.registers.c),
        2 => Ok(cpu.registers.d),
        3 => Ok(cpu.registers.e),
        4 => Ok(cpu.registers.h),
        5 => Ok(cpu.registers.l),
        6 => {
            let mut v: u8 = 0;
            match ld_from_memory(&mut v, cpu.registers.get_hl() as usize, &cpu.work_ram) {
                Ok(()) => Ok(v),
                Err(e) => Err(e),
            }
        },
        _ => Ok(cpu.registers.a),
    }
}

/// Writes the eight-bit operand with index `i`.
fn write_operand(cpu: &mut CPU, i: u8, v: u8) -> (r: Result<(), CoreError>)
    requires
        i < 8,
        old(cpu)@.wf(),
    ensures
        final(cpu)@.wf(),
        completes_as(r, old(cpu)@, final(cpu)@, or_out_of_range(with_operand(old(cpu)@, i, v))),
{
    match i {
        0 => ld8(&mut cpu.registers.b, v),
        1 => ld8(&mut cpu.registers.c, v),
        2 => ld8(&mut cpu.registers.d, v),
        3 => ld8(&mut cpu.registers.e, v),
        4 => ld8(&mut cpu.registers.h, v),
        5 => ld8(&mut cpu.registers.l, v),
        6 => {
            let address = cpu.registers.get_hl() as usize;
            return ld_to_memory(v, address, cpu);
        },
        _ => ld8(&mut cpu.registers.a, v),
    }
    Ok(())
}

/// Reads the register pair with index `p`, SP included.
fn get_rp(cpu: &CPU, p: u8) -> (r: u16)
    requires
        cpu@.wf(),
    ensures
        r == rp_value(cpu@, p),
{
    if p == 0 {
        cpu.registers.get_bc()
    } else if p == 1 {
        cpu.registers.get_de()
    } else if p == 2 {
        cpu.registers.get_hl()
    } else {
        cpu.stack_ptr as u16
    }
}

/// Sets the register pair with index `p`, SP included.
fn set_rp(cpu: &mut CPU, p: u8, v: u16) -> (r: Result<(), CoreError>)
    requires
        old(cpu)@.wf(),
    ensures
        final(cpu)@.wf(),
        completes_as(r, old(cpu)@, final(cpu)@, or_out_of_range(with_rp(old(cpu)@, p, v))),
{
    if p == 0 {
        cpu.registers.set_bc(v);
    } else if p == 1 {
        cpu.registers.set_de(v);
    } else if p == 2 {
        cpu.registers.set_hl(v);
    } else {
        if v as usize >= MEMORY_SIZE {
            return Err(CoreError::OutOfRangeAccess);
        }
        cpu.stack_ptr = v as usize;
    }
    Ok(())
}

fn flags_to_byte(f: &Flags) -> (r: u8)
    ensures
        r == flags_byte(*f),
{
    (if f.z { 128u8 } else { 0 }) + (if f.n { 64u8 } else { 0 }) + (if f.h { 32u8 } else { 0 }) + (
    if f.c { 16u8 } else { 0 })
}

fn byte_to_flags(b: u8) -> (r: Flags)
    ensures
        r == flags_of(b),
{
    Flags { z: (b / 128) % 2 == 1, n: (b / 64) % 2 == 1, h: (b / 32) % 2 == 1, c: (b / 16) % 2 == 1 }
}

/// Sets the pair with index `p` as POP does: BC, DE, HL, AF.
fn set_rp2(cpu: &mut CPU, p: u8, v: u16)
    requires
        old(cpu)@.wf(),
    ensures
        final(cpu)@.wf(),
        final(cpu)@ == with_rp2(old(cpu)@, p, v),
{
    if p == 0 {
        cpu.registers.set_bc(v);
    } else if p == 1 {
        cpu.registers.set_de(v);
    } else if p == 2 {
        cpu.registers.set_hl(v);
    } else {
        let (hi, lo) = split_bytes(v);
        cpu.registers.a = hi;
        cpu.registers.flags = byte_to_flags(lo);
    }
}

/// Reads the pair with index `p` as PUSH does: BC, DE, HL, AF.
fn get_rp2(cpu: &CPU, p: u8) -> (r: u16)
    requires
        cpu@.wf(),
    ensures
        r == rp2_value(cpu@, p),
{
    if p == 3 {
        join_bytes(cpu.registers.a, flags_to_byte(&cpu.registers.flags))
    } else {
        get_rp(cpu, p)
    }
}

/// Applies the arithmetic or logic operation with index `kind` to A.
fn alu(kind: u8, value: u8, cpu: &mut CPU)
    ensures
        final(cpu)@ == old(cpu)@.with_af(alu_spec(kind, old(cpu).registers.a, value, old(cpu).registers.flags)),
{
    match kind {
        0 => add8(&mut cpu.registers.a, value, &mut cpu.registers.flags),
        1 => addc(&mut cpu.registers.a, value, &mut cpu.registers.flags),
        2 => crate::instructions::sub(&mut cpu.registers.a, value, &mut cpu.registers.flags),
        3 => sbc(&mut cpu.registers.a, value, &mut cpu.registers.flags),
        4 => and(&mut cpu.registers.a, value, &mut cpu.registers.flags),
        5 => xor(&mut cpu.registers.a, value, &mut cpu.registers.flags),
        6 => or(&mut cpu.registers.a, value, &mut cpu.registers.flags),
        _ => cp(cpu.registers.a, value, &mut cpu.registers.flags),
    }
}

/// SP plus a signed offset, with the flags of ADD SP and LD HL,SP+offset.
fn sp_offset(sp: usize, offset: u8) -> (r: (u16, Flags))
    requires
        sp < MEMORY_SIZE,
    ensures
        r == sp_offset_spec(sp as int, offset),
{
    let sum: u32 = if offset < 128 {
        sp as u32 + offset as u32
    } else {
        sp as u32 + 65536 - (256 - offset as u32)
    };
    let f = Flags {
        z: false,
        n: false,
        h: (sp % 16) as u8 + offset % 16 > 15,
        c: (sp % 256) as u32 + offset as u32 > 255,
    };
    ((sum % 65536) as u16, f)
}

/// INC on the eight-bit operand with index `i`.
fn inc_operand(cpu: &mut CPU, i: u8) -> (r: Result<(), CoreError>)
    requires
        i < 8,
        old(cpu)@.wf(),
    ensures
        final(cpu)@.wf(),
        completes_as(r, old(cpu)@, final(cpu)@, modify_operand(old(cpu)@, i, match operand(old(cpu)@, i) {
            Some(v) => Some(inc8_spec(v, old(cpu)@.regs.flags)),
            None => None,
        })),
{
    let mut v = match read_operand(cpu, i) {
        Ok(v) => v,
        Err(e) => return Err(e),
    };
    inc8(&mut v, &mut cpu.registers.flags);
    write_operand(cpu, i, v)
}

/// DEC on the eight-bit operand with index `i`.
fn dec_operand(cpu: &mut CPU, i: u8) -> (r: Result<(), CoreError>)
    requires
        i < 8,
        old(cpu)@.wf(),
    ensures
        final(cpu)@.wf(),
        completes_as(r, old(cpu)@, final(cpu)@, modify_operand(old(cpu)@, i, match operand(old(cpu)@, i) {
            Some(v) => Some(dec8_spec(v, old(cpu)@.regs.flags)),
            None => None,
        })),
{
    let mut v = match read_operand(cpu, i) {
        Ok(v) => v,
        Err(e) => return Err(e),
    };
    dec8(&mut v, &mut cpu.registers.flags);
    write_operand(cpu, i, v)
}

/// Moves HL on after LD (HL+) (index 2) or LD (HL-) (index 3).
fn step_hl(cpu: &mut CPU, p: u8)
    ensures
        final(cpu)@ == hl_step(old(cpu)@, p),
{
    let hl = cpu.registers.get_hl() as u32;
    if p == 2 {
        cpu.registers.set_hl(((hl + 1) % 65536) as u16);
    } else if p == 3 {
        cpu.registers.set_hl(((hl + 65535) % 65536) as u16);
    }
}

/// The address that LD (pair),A and LD A,(pair) use.
fn indirect(cpu: &CPU, p: u8) -> (r: usize)
    ensures
        r == indirect_address(cpu@, p),
{
    if p == 0 {
        cpu.registers.get_bc() as usize
    } else if p == 1 {
        cpu.registers.get_de() as usize
    } else {
        cpu.registers.get_hl() as usize
    }
}

/// Executes an opcode of 0x00 to 0x3F; the program counter is already past
/// the instruction.
fn exec_block0(op: u8, imm8: u8, imm16: u16, cpu: &mut CPU) -> (r: Result<(), CoreError>)
    requires
        op < 0x40,
        old(cpu)@.wf(),
    ensures
        final(cpu)@.wf(),
        completes_as(r, old(cpu)@, final(cpu)@, block0_spec(op, imm8, imm16, old(cpu)@)),
{
    let y = op / 8;
    let z = op % 8;
    let p = op / 16;
    let q = y % 2;
    if z == 0 {
        if y == 0 {
            Ok(())
        } else if y == 1 {
            let address = imm16 as usize;
            if address + 1 >= MEMORY_SIZE {
                return Err(CoreError::OutOfRangeAccess);
            }
            let (hi, lo) = split_bytes(cpu.stack_ptr as u16);
            match ld_to_memory(lo, address, cpu) {
                Ok(()) => {},
                Err(e) => return Err(e),
            }
            ld_to_memory(hi, address + 1, cpu)
        } else if y == 2 {
            cpu.state = CpuState::STOP;
            Ok(())
        } else if y == 3 || condition_holds(y - 4, &cpu.registers.flags) {
            jr(to_signed(imm8), cpu)
        } else {
            Ok(())
        }
    } else if z == 1 {
        if q == 0 {
            set_rp(cpu, p, imm16)
        } else {
            let v = get_rp(cpu, p);
            let mut hl = cpu.registers.get_hl();
            add16(&mut hl, v, &mut cpu.registers.flags);
            cpu.registers.set_hl(hl);
            Ok(())
        }
    } else if z == 2 {
        let address = indirect(cpu, p);
        if q == 0 {
            match ld_to_memory(cpu.registers.a, address, cpu) {
                Ok(()) => {},
                Err(e) => return Err(e),
            }
        } else {
            match ld_from_memory(&mut cpu.registers.a, address, &cpu.work_ram) {
                Ok(()) => {},
                Err(e) => return Err(e),
            }
        }
        step_hl(cpu, p);
        Ok(())
    } else if z == 3 {
        let v = get_rp(cpu, p) as u32;
        if q == 0 {
            set_rp(cpu, p, ((v + 1) % 65536) as u16)
        } else {
            set_rp(cpu, p, ((v + 65535) % 65536) as u16)
        }
    } else if z == 4 {
        inc_operand(cpu, y)
    } else if z == 5 {
        dec_operand(cpu, y)
    } else if z == 6 {
        write_operand(cpu, y, imm8)
    } else {
        match y {
            0 => rlca(cpu),
            1 => rrca(cpu),
            2 => rla(cpu),
            3 => rra(cpu),
            4 => daa(cpu),
            5 => cpl(cpu),
            6 => scf(&mut cpu.registers.flags),
            _ => ccf(&mut cpu.registers.flags),
        }
        Ok(())
    }
}

/// Executes an opcode of 0x40 to 0x7F.
fn exec_load_block(op: u8, cpu: &mut CPU) -> (r: Result<(), CoreError>)
    requires
        0x40 <= op < 0x80,
        old(cpu)@.wf(),
    ensures
        final(cpu)@.wf(),
        completes_as(r, old(cpu)@, final(cpu)@, load_block_spec(op, old(cpu)@)),
{
    if op == 0x76 {
        cpu.state = CpuState::HALT;
        return Ok(());
    }
    let v = match read_operand(cpu, op % 8) {
        Ok(v) => v,
        Err(e) => return Err(e),
    };
    write_operand(cpu, (op / 8) % 8, v)
}

/// Executes an opcode of 0x80 to 0xBF.
fn exec_alu_block(op: u8, cpu: &mut CPU) -> (r: Result<(), CoreError>)
    requires
        0x80 <= op < 0xC0,
        old(cpu)@.wf(),
    ensures
        final(cpu)@.wf(),
        completes_as(r, old(cpu)@, final(cpu)@, alu_block_spec(op, old(cpu)@)),
{
    let v = match read_operand(cpu, op % 8) {
        Ok(v) => v,
        Err(e) => return Err(e),
    };
    alu((op / 8) % 8, v, cpu);
    Ok(())
}

/// Executes the instruction after the prefix 0xCB.
fn exec_prefixed(cb: u8, cpu: &mut CPU) -> (r: Result<(), CoreError>)
    requires
        old(cpu)@.wf(),
    ensures
        final(cpu)@.wf(),
        completes_as(r, old(cpu)@, final(cpu)@, prefixed_spec(cb, old(cpu)@)),
{
    let x = cb / 64;
    let y = (cb / 8) % 8;
    let z = cb % 8;
    let mut v = match read_operand(cpu, z) {
        Ok(v) => v,
        Err(e) => return Err(e),
    };
    if x == 0 {
        shift(y, &mut v, &mut cpu.registers.flags);
        write_operand(cpu, z, v)
    } else if x == 1 {
        test_bit(y, v, &mut cpu.registers.flags);
        Ok(())
    } else if x == 2 {
        reset_bit(y, &mut v);
        write_operand(cpu, z, v)
    } else {
        set_bit(y, &mut v);
        write_operand(cpu, z, v)
    }
}

/// Executes an opcode of 0xC0 to 0xFF other than 0xCB and the bytes with no
/// instruction; the program counter is already past the instruction.
fn exec_block3(op: u8, imm8: u8, imm16: u16, cpu: &mut CPU) -> (r: Result<(), CoreError>)
    requires
        0xC0 <= op,
        op != 0xCB,
        !is_unimplemented(op),
        old(cpu)@.wf(),
    ensures
        final(cpu)@.wf(),
        completes_as(r, old(cpu)@, final(cpu)@, block3_spec(op, imm8, imm16, old(cpu)@)),
{
    let y = (op / 8) % 8;
    let z = op % 8;
    let p = y / 2;
    let q = y % 2;
    if z == 0 {
        if y < 4 {
            if condition_holds(y, &cpu.registers.flags) {
                ret(cpu)
            } else {
                Ok(())
            }
        } else if y == 4 {
            ld_to_memory(cpu.registers.a, 0xFF00 + imm8 as usize, cpu)
        } else if y == 6 {
            ld_from_memory(&mut cpu.registers.a, 0xFF00 + imm8 as usize, &cpu.work_ram)
        } else {
            let (sum, f) = sp_offset(cpu.stack_ptr, imm8);
            if y == 5 {
                if sum as usize >= MEMORY_SIZE {
                    return Err(CoreError::OutOfRangeAccess);
                }
                cpu.registers.flags = f;
                cpu.stack_ptr = sum as usize;
            } else {
                cpu.registers.set_hl(sum);
                cpu.registers.flags = f;
            }
            Ok(())
        }
    } else if z == 1 {
        if q == 0 {
            let mut v: u16 = 0;
            match pop(&mut v, cpu) {
                Ok(()) => {},
                Err(e) => return Err(e),
            }
            set_rp2(cpu, p, v);
            Ok(())
        } else if p <= 1 {
            ret(cpu)
        } else if p == 2 {
            jp(cpu.registers.get_hl(), cpu)
        } else {
            let hl = cpu.registers.get_hl();
            set_rp(cpu, 3, hl)
        }
    } else if z == 2 {
        if y < 4 {
            if condition_holds(y, &cpu.registers.flags) {
                jp(imm16, cpu)
            } else {
                Ok(())
            }
        } else if y == 4 {
            ld_to_memory(cpu.registers.a, 0xFF00 + cpu.registers.c as usize, cpu)
        } else if y == 5 {
            ld_to_memory(cpu.registers.a, imm16 as usize, cpu)
        } else {
            let address = if y == 6 { 0xFF00 + cpu.registers.c as usize } else { imm16 as usize };
            ld_from_memory(&mut cpu.registers.a, address, &cpu.work_ram)
        }
    } else if z == 3 {
        if y == 0 {
            jp(imm16, cpu)
        } else {
            Ok(())
        }
    } else if z == 4 {
        if condition_holds(y, &cpu.registers.flags) {
            call(imm16, cpu)
        } else {
            Ok(())
        }
    } else if z == 5 {
        if q == 0 {
            push(get_rp2(cpu, p), cpu)
        } else {
            call(imm16, cpu)
        }
    } else if z == 6 {
        alu(y, imm8, cpu);
        Ok(())
    } else {
        call(y as u16 * 8, cpu)
    }
}

/// Executes the instruction whose opcode stands at the program counter. It
/// reads its immediate bytes, moves the program counter past it, then acts;
/// on failure nothing changes. A byte with no instruction gives
/// `UnimplementedOpcode`, and anything outside the 8 KiB address space
/// `OutOfRangeAccess`.
pub fn decode(opcode: u8, cpu: &mut CPU) -> (r: Result<(), CoreError>)
    requires
        old(cpu)@.wf(),
    ensures
        final(cpu)@.wf(),
        completes_as(r, old(cpu)@, final(cpu)@, execute_spec(opcode, old(cpu)@)),
{
    if is_undefined(opcode) {
        return Err(CoreError::UnimplementedOpcode(opcode));
    }
    let start = cpu.program_counter;
    let len = instruction_length(opcode);
    if start + len >= MEMORY_SIZE {
        return Err(CoreError::OutOfRangeAccess);
    }
    let mut imm8: u8 = 0;
    let mut imm16: u16 = 0;
    if len == 2 {
        match cpu.get_next_one_byte() {
            Ok(b) => imm8 = b,
            Err(e) => return Err(e),
        }
    } else if len == 3 {
        match cpu.get_next_two_bytes() {
            Ok(w) => imm16 = w,
            Err(e) => return Err(e),
        }
    }
    cpu.program_counter = start + len;
    let r = if opcode < 0x40 {
        exec_block0(opcode, imm8, imm16, cpu)
    } else if opcode < 0x80 {
        exec_load_block(opcode, cpu)
    } else if opcode < 0xC0 {
        exec_alu_block(opcode, cpu)
    } else if opcode == 0xCB {
        exec_prefixed(imm8, cpu)
    } else {
        exec_block3(opcode, imm8, imm16, cpu)
    };
    match r {
        Ok(()) => {},
        Err(_) => cpu.program_counter = start,
    }
    r
}

/// Executes one instruction of a running CPU; a halted or stopped CPU is left
/// as it is until something outside the core resumes it. On success the
/// program counter addresses the next instruction, past the last byte of
/// this one unless it jumped (LD A,5; INC A; NOP from address 0 ends at 4),
/// and the program counter and stack pointer both lie inside work RAM.
pub fn step(cpu: &mut CPU) -> (r: Result<(), CoreError>)
    requires
        old(cpu)@.wf(),
    ensures
        final(cpu)@.wf(),
        completes_as(r, old(cpu)@, final(cpu)@, step_spec(old(cpu)@)),
{
    match cpu.state {
        CpuState::CONTINUE => {},
        _ => return Ok(()),
    }
    let opcode = cpu.work_ram[cpu.program_counter];
    decode(opcode, cpu)
}

/// "Jump if zero" (JR Z, 0x28) with Z clear takes no jump but still consumes
/// its offset byte: the program counter lands two bytes past the opcode and
/// nothing else changes.
pub proof fn lemma_jr_z_not_taken(m: Machine)
    requires
        m.wf(),
        m.state == CpuState::CONTINUE,
        m.ram[m.pc] == 0x28,
        !m.regs.flags.z,
        in_range(m.pc + 2),
    ensures
        step_spec(m) == Ok::<Machine, CoreError>(m.at(m.pc + 2)),
{
}

/// A step fails with `OutOfRangeAccess` when JP or CALL names a target past
/// the end of work RAM, or when a load or arithmetic instruction reads or
/// writes the byte at HL with HL past it; on failure the step changes nothing.
pub proof fn lemma_step_out_of_range(m: Machine)
    requires
        m.wf(),
        m.state == CpuState::CONTINUE,
    ensures
        ({
            let op = m.ram[m.pc];
            let target = pair(m.ram[m.pc + 2], m.ram[m.pc + 1]);
            (op == 0xC3 || op == 0xCD) && in_range(m.pc + 3) && target >= MEMORY_SIZE
                ==> step_spec(m) == Err::<Machine, CoreError>(CoreError::OutOfRangeAccess)
        }),
        ({
            let op = m.ram[m.pc];
            0x40 <= op < 0xC0 && op != 0x76 && (op % 8 == 6 || (op < 0x80 && (op / 8) % 8 == 6))
                && in_range(m.pc + 1) && m.regs.hl() >= MEMORY_SIZE
                ==> step_spec(m) == Err::<Machine, CoreError>(CoreError::OutOfRangeAccess)
        }),
{
}

} // verus!
