use vstd::prelude::*;
use crate::cpu::{MemoryRegion, in_range, or_out_of_range, completes_as, CoreError, Machine, RAMArea, CPU, MEMORY_SIZE};
use crate::registers::{Flags, high_byte, low_byte, pair, join_bytes, split_bytes};

verus! {

/// 1 when the carry flag is set, else 0.
pub open spec fn carry_in(f: Flags) -> int {
    if f.c { 1 } else { 0 }
}

/// INC: A wraps from 255 to 0; Z, N = 0, H = carry out of bit 3; C kept.
pub open spec fn inc8_spec(a: u8, f: Flags) -> (u8, Flags) {
    let r = ((a + 1) % 256) as u8;
    (r, Flags { z: r == 0, n: false, h: a % 16 == 15, c: f.c })
}

/// DEC: wraps from 0 to 255; Z, N = 1, H = borrow into bit 3; C kept.
pub open spec fn dec8_spec(a: u8, f: Flags) -> (u8, Flags) {
    let r = ((a + 255) % 256) as u8;
    (r, Flags { z: r == 0, n: true, h: a % 16 == 0, c: f.c })
}

/// ADD: wrapping sum; Z, N = 0, H = carry out of bit 3; C kept.
pub open spec fn add8_spec(a: u8, b: u8, f: Flags) -> (u8, Flags) {
    let r = ((a + b) % 256) as u8;
    (r, Flags { z: r == 0, n: false, h: a % 16 + b % 16 > 15, c: f.c })
}

/// ADC: wrapping sum with the carry; Z, N = 0, H = carry out of bit 3,
/// C = carry out of bit 7.
pub open spec fn addc_spec(a: u8, b: u8, f: Flags) -> (u8, Flags) {
    let r = ((a + b + carry_in(f)) % 256) as u8;
    (r, Flags { z: r == 0, n: false, h: a % 16 + b % 16 + carry_in(f) > 15, c: a + b + carry_in(f) > 255 })
}

/// SUB: wrapping difference; Z, N = 1, H = borrow from bit 4, C = borrow.
pub open spec fn sub_spec(a: u8, b: u8, f: Flags) -> (u8, Flags) {
    let r = ((a + 256 - b) % 256) as u8;
    (r, Flags { z: r == 0, n: true, h: a % 16 < b % 16, c: a < b })
}

/// SBC: wrapping difference less the carry; Z, N = 1, H = borrow from bit 4,
/// C = borrow.
pub open spec fn sbc_spec(a: u8, b: u8, f: Flags) -> (u8, Flags) {
    let r = ((a + 512 - b - carry_in(f)) % 256) as u8;
    (r, Flags { z: r == 0, n: true, h: a % 16 < b % 16 + carry_in(f), c: a < b + carry_in(f) })
}

/// AND: Z, N = 0, H = 1, C = 0.
pub open spec fn and_spec(a: u8, b: u8) -> (u8, Flags) {
    let r = a & b;
    (r, Flags { z: r == 0, n: false, h: true, c: false })
}

/// OR: Z, N = 0, H = 0, C = 0.
pub open spec fn or_spec(a: u8, b: u8) -> (u8, Flags) {
    let r = a | b;
    (r, Flags { z: r == 0, n: false, h: false, c: false })
}

/// XOR: Z, N = 0, H = 0, C = 0.
pub open spec fn xor_spec(a: u8, b: u8) -> (u8, Flags) {
    let r = a ^ b;
    (r, Flags { z: r == 0, n: false, h: false, c: false })
}

/// 16-bit ADD: wrapping sum; Z kept, N = 0, H = carry out of bit 11,
/// C = carry out of bit 15.
pub open spec fn add16_spec(a: u16, b: u16, f: Flags) -> (u16, Flags) {
    (((a + b) % 65536) as u16, Flags { z: f.z, n: false, h: a % 4096 + b % 4096 > 4095, c: a + b > 65535 })
}

/// Load register with value: an eight-bit register or an immediate.
pub fn ld8(register: &mut u8, value: u8)
    ensures
        *final(register) == value,
{
    *register = value;
}

/// As `ld8`, for a sixteen-bit register.
pub fn ld16(register: &mut u16, value: u16)
    ensures
        *final(register) == value,
{
    *register = value;
}

/// Loads `ram[address]` into the register; out of range it fails and
/// changes nothing.
pub fn ld_from_memory(register: &mut u8, address: usize, ram: &RAMArea) -> (r: Result<(), CoreError>)
    ensures
        in_range(address as int) ==> r is Ok && *final(register) == ram@[address as int],
        !in_range(address as int) ==> r == Err::<(), CoreError>(CoreError::OutOfRangeAccess)
            && *final(register) == *old(register),
{
    if address >= MEMORY_SIZE {
        return Err(CoreError::OutOfRangeAccess);
    }
    *register = ram[address];
    Ok(())
}

/// Stores the register at `address` of work RAM; out of range it fails and
/// changes nothing.
pub fn ld_to_memory(register: u8, address: usize, cpu: &mut CPU) -> (r: Result<(), CoreError>)
    requires
        old(cpu)@.wf(),
    ensures
        final(cpu)@.wf(),
        completes_as(r, old(cpu)@, final(cpu)@, or_out_of_range(old(cpu)@.write(address as int, register))),
{
    cpu.write_memory(MemoryRegion::WorkRam, address, register)
}

/// Increments the register, wrapping from 255 to 0.
pub fn inc8(register: &mut u8, flags: &mut Flags)
    ensures
        (*final(register), *final(flags)) == inc8_spec(*old(register), *old(flags)),
{
    let a = *register;
    let r = ((a as u16 + 1) % 256) as u8;
    *register = r;
    flags.z = r == 0;
    flags.n = false;
    flags.h = a % 16 == 15;
}

/// Decrements the register, wrapping from 0 to 255.
pub fn dec8(register: &mut u8, flags: &mut Flags)
    ensures
        (*final(register), *final(flags)) == dec8_spec(*old(register), *old(flags)),
{
    let a = *register;
    let r = ((a as u16 + 255) % 256) as u8;
    *register = r;
    flags.z = r == 0;
    flags.n = true;
    flags.h = a % 16 == 0;
}

/// Adds `register_b` (a register or an immediate) into `register_a`.
pub fn add8(register_a: &mut u8, register_b: u8, flags: &mut Flags)
    ensures
        (*final(register_a), *final(flags)) == add8_spec(*old(register_a), register_b, *old(flags)),
{
    let a = *register_a;
    let r = ((a as u16 + register_b as u16) % 256) as u8;
    *register_a = r;
    flags.z = r == 0;
    flags.n = false;
    flags.h = a % 16 + register_b % 16 > 15;
}

/// Adds `register_b` into the sixteen-bit `register_a`.
pub fn add16(register_a: &mut u16, register_b: u16, flags: &mut Flags)
    ensures
        (*final(register_a), *final(flags)) == add16_spec(*old(register_a), register_b, *old(flags)),
{
    let a = *register_a;
    let sum = a as u32 + register_b as u32;
    *register_a = (sum % 65536) as u16;
    flags.n = false;
    flags.h = a % 4096 + register_b % 4096 > 4095;
    flags.c = sum > 65535;
}

/// Adds `ram[address]` into the register; out of range it fails and changes
/// nothing.
pub fn add_from_memory(register: &mut u8, address: usize, ram: &RAMArea, flags: &mut Flags) -> (r: Result<(), CoreError>)
    ensures
        in_range(address as int) ==> r is Ok
            && (*final(register), *final(flags)) == add8_spec(*old(register), ram@[address as int], *old(flags)),
        !in_range(address as int) ==> r == Err::<(), CoreError>(CoreError::OutOfRangeAccess)
            && *final(register) == *old(register) && *final(flags) == *old(flags),
{
    if address >= MEMORY_SIZE {
        return Err(CoreError::OutOfRangeAccess);
    }
    add8(register, ram[address], flags);
    Ok(())
}

/// Adds `register_b` and the carry into the register.
pub fn addc(register: &mut u8, register_b: u8, flags: &mut Flags)
    ensures
        (*final(register), *final(flags)) == addc_spec(*old(register), register_b, *old(flags)),
{
    let a = *register;
    let carry: u16 = if flags.c { 1 } else { 0 };
    let sum = a as u16 + register_b as u16 + carry;
    let r = (sum % 256) as u8;
    *register = r;
    flags.z = r == 0;
    flags.n = false;
    flags.h = (a % 16) as u16 + (register_b % 16) as u16 + carry > 15;
    flags.c = sum > 255;
}

/// Adds `ram[address]` and the carry into the register; out of range it fails
/// and changes nothing.
pub fn addc_from_memory(register: &mut u8, address: usize, ram: &RAMArea, flags: &mut Flags) -> (r: Result<(), CoreError>)
    ensures
        in_range(address as int) ==> r is Ok
            && (*final(register), *final(flags)) == addc_spec(*old(register), ram@[address as int], *old(flags)),
        !in_range(address as int) ==> r == Err::<(), CoreError>(CoreError::OutOfRangeAccess)
            && *final(register) == *old(register) && *final(flags) == *old(flags),
{
    if address >= MEMORY_SIZE {
        return Err(CoreError::OutOfRangeAccess);
    }
    addc(register, ram[address], flags);
    Ok(())
}

/// Subtracts `value` from the register.
pub fn sub(register: &mut u8, value: u8, flags: &mut Flags)
    ensures
        (*final(register), *final(flags)) == sub_spec(*old(register), value, *old(flags)),
{
    let a = *register;
    let r = ((a as u16 + 256 - value as u16) % 256) as u8;
    *register = r;
    flags.z = r == 0;
    flags.n = true;
    flags.h = a % 16 < value % 16;
    flags.c = a < value;
}

/// Subtracts `value` and the carry from the register.
pub fn sbc(register: &mut u8, value: u8, flags: &mut Flags)
    ensures
        (*final(register), *final(flags)) == sbc_spec(*old(register), value, *old(flags)),
{
    let a = *register;
    let carry: u16 = if flags.c { 1 } else { 0 };
    let r = ((a as u16 + 512 - value as u16 - carry) % 256) as u8;
    *register = r;
    flags.z = r == 0;
    flags.n = true;
    flags.h = ((a % 16) as u16) < (value % 16) as u16 + carry;
    flags.c = (a as u16) < value as u16 + carry;
}

/// Bitwise AND of `value` into the register. Unlike a plain bitwise
/// operation, it also sets the flags as the hardware does.
pub fn and(register: &mut u8, value: u8, flags: &mut Flags)
    ensures
        (*final(register), *final(flags)) == and_spec(*old(register), value),
{
    let r = *register & value;
    *register = r;
    *flags = Flags { z: r == 0, n: false, h: true, c: false };
}

/// Bitwise OR of `value` into the register, setting the flags as the
/// hardware does.
pub fn or(register: &mut u8, value: u8, flags: &mut Flags)
    ensures
        (*final(register), *final(flags)) == or_spec(*old(register), value),
{
    let r = *register | value;
    *register = r;
    *flags = Flags { z: r == 0, n: false, h: false, c: false };
}

/// Bitwise XOR of `value` into the register, setting the flags as the
/// hardware does.
pub fn xor(register: &mut u8, value: u8, flags: &mut Flags)
    ensures
        (*final(register), *final(flags)) == xor_spec(*old(register), value),
{
    let r = *register ^ value;
    *register = r;
    *flags = Flags { z: r == 0, n: false, h: false, c: false };
}

/// Compares `value` with the register: the flags of a subtraction, the
/// register unchanged.
pub fn cp(register: u8, value: u8, flags: &mut Flags)
    ensures
        *final(flags) == sub_spec(register, value, *old(flags)).1,
{
    let mut scratch = register;
    crate::instructions::sub(&mut scratch, value, flags);
}

/// PUSH: the high byte goes to `sp - 1`, the low byte to `sp - 2`, and the
/// stack pointer moves down by two; `None` when the stack has no room.
pub open spec fn push_spec(m: Machine, v: u16) -> Option<Machine> {
    if m.sp >= 2 {
        Some(Machine { sp: m.sp - 2, ram: m.ram.update(m.sp - 1, high_byte(v)).update(m.sp - 2, low_byte(v)), ..m })
    } else {
        None
    }
}

/// POP: the low byte is read at `sp`, the high byte at `sp + 1`, and the
/// stack pointer moves up by two; `None` when the new stack pointer would
/// lie outside work RAM.
pub open spec fn pop_spec(m: Machine) -> Option<(u16, Machine)> {
    if in_range(m.sp + 2) {
        Some((pair(m.ram[m.sp + 1], m.ram[m.sp]), Machine { sp: m.sp + 2, ..m }))
    } else {
        None
    }
}

/// JP: the program counter is set to the target, which must be in range.
pub open spec fn jp_spec(m: Machine, target: int) -> Option<Machine> {
    if in_range(target) { Some(m.at(target)) } else { None }
}

/// CALL: the program counter is pushed, then the target jumped to.
pub open spec fn call_spec(m: Machine, target: int) -> Option<Machine> {
    if in_range(target) {
        match push_spec(m, m.pc as u16) {
            Some(m2) => Some(m2.at(target)),
            None => None,
        }
    } else {
        None
    }
}

/// RET: the return address is popped and jumped to.
pub open spec fn ret_spec(m: Machine) -> Option<Machine> {
    match pop_spec(m) {
        Some((v, m2)) => jp_spec(m2, v as int),
        None => None,
    }
}

/// RLCA: A rotated left, bit 7 into bit 0 and into C; Z, N, H cleared.
pub open spec fn rlca_spec(a: u8, f: Flags) -> (u8, Flags) {
    (((a % 128) * 2 + a / 128) as u8, Flags { z: false, n: false, h: false, c: a >= 128 })
}

/// RRCA: A rotated right, bit 0 into bit 7 and into C; Z, N, H cleared.
pub open spec fn rrca_spec(a: u8, f: Flags) -> (u8, Flags) {
    ((a / 2 + (a % 2) * 128) as u8, Flags { z: false, n: false, h: false, c: a % 2 == 1 })
}

/// RLA: A rotated left through the carry; Z, N = 0, H = 0, C = old bit 7.
pub open spec fn rla_spec(a: u8, f: Flags) -> (u8, Flags) {
    let r = ((a % 128) * 2 + carry_in(f)) as u8;
    (r, Flags { z: r == 0, n: false, h: false, c: a >= 128 })
}

/// RRA: A rotated right through the carry; Z, N = 0, H = 0, C = old bit 0.
pub open spec fn rra_spec(a: u8, f: Flags) -> (u8, Flags) {
    let r = (a / 2 + carry_in(f) * 128) as u8;
    (r, Flags { z: r == 0, n: false, h: false, c: a % 2 == 1 })
}

/// DAA: the decimal adjustment of A after a BCD addition or subtraction.
/// The low digit is corrected by 6 when it is over 9 after an addition or H
/// is set; the high digit by 0x60 when A is over 0x99 after an addition or C
/// is set, which also sets C. Z, H = 0, N kept.
pub open spec fn daa_spec(a: u8, f: Flags) -> (u8, Flags) {
    let low = (!f.n && a % 16 > 9) || f.h;
    let high = (!f.n && a > 0x99) || f.c;
    let offset: int = (if low { 6int } else { 0int }) + (if high { 0x60int } else { 0int });
    let r = if f.n { ((a + 256 - offset) % 256) as u8 } else { ((a + offset) % 256) as u8 };
    (r, Flags { z: r == 0, n: f.n, h: false, c: high })
}

/// CPL: A complemented; N = 1, H = 1 as the hardware does; Z, C kept.
pub open spec fn cpl_spec(a: u8, f: Flags) -> (u8, Flags) {
    ((255 - a) as u8, Flags { n: true, h: true, ..f })
}

/// Pushes a sixteen-bit value onto the stack; with no room it fails and
/// changes nothing.
pub fn push(register: u16, cpu: &mut CPU) -> (r: Result<(), CoreError>)
    requires
        old(cpu)@.wf(),
    ensures
        final(cpu)@.wf(),
        completes_as(r, old(cpu)@, final(cpu)@, or_out_of_range(push_spec(old(cpu)@, register))),
{
    if cpu.stack_ptr < 2 {
        return Err(CoreError::OutOfRangeAccess);
    }
    let (most_significant, least_significant) = split_bytes(register);
    cpu.stack_ptr -= 1;
    cpu.work_ram[cpu.stack_ptr] = most_significant;
    cpu.stack_ptr -= 1;
    cpu.work_ram[cpu.stack_ptr] = least_significant;
    Ok(())
}

/// Pops a sixteen-bit value off the stack into the register; out of range it
/// fails and changes nothing.
pub fn pop(register: &mut u16, cpu: &mut CPU) -> (r: Result<(), CoreError>)
    requires
        old(cpu)@.wf(),
    ensures
        final(cpu)@.wf(),
        match pop_spec(old(cpu)@) {
            Some((v, m)) => r is Ok && *final(register) == v && final(cpu)@ == m,
            None => r == Err::<(), CoreError>(CoreError::OutOfRangeAccess) && *final(register) == *old(register)
                && final(cpu)@ == old(cpu)@,
        },
{
    if cpu.stack_ptr + 2 >= MEMORY_SIZE {
        return Err(CoreError::OutOfRangeAccess);
    }
    let least_significant = cpu.work_ram[cpu.stack_ptr];
    cpu.stack_ptr += 1;
    let most_significant = cpu.work_ram[cpu.stack_ptr];
    cpu.stack_ptr += 1;
    *register = join_bytes(most_significant, least_significant);
    Ok(())
}

/// Jumps to `register`; a target out of range fails and changes nothing.
pub fn jp(register: u16, cpu: &mut CPU) -> (r: Result<(), CoreError>)
    requires
        old(cpu)@.wf(),
    ensures
        final(cpu)@.wf(),
        completes_as(r, old(cpu)@, final(cpu)@, or_out_of_range(jp_spec(old(cpu)@, register as int))),
{
    if register as usize >= MEMORY_SIZE {
        return Err(CoreError::OutOfRangeAccess);
    }
    cpu.program_counter = register as usize;
    Ok(())
}

/// Jumps by a signed offset from the program counter; a target out of range
/// fails and changes nothing.
pub fn jr(offset: i8, cpu: &mut CPU) -> (r: Result<(), CoreError>)
    requires
        old(cpu)@.wf(),
    ensures
        final(cpu)@.wf(),
        completes_as(r, old(cpu)@, final(cpu)@, or_out_of_range(jp_spec(old(cpu)@, old(cpu)@.pc + offset))),
{
    let target_address: usize;
    if offset >= 0 {
        target_address = cpu.program_counter + offset as usize;
    } else {
        let back = (0 - offset as i16) as usize;
        if back > cpu.program_counter {
            return Err(CoreError::OutOfRangeAccess);
        }
        target_address = cpu.program_counter - back;
    }
    if target_address >= MEMORY_SIZE {
        return Err(CoreError::OutOfRangeAccess);
    }
    cpu.program_counter = target_address;
    Ok(())
}

/// Pushes the program counter and jumps to `address`; with no room on the
/// stack or a target out of range it fails and changes nothing.
pub fn call(address: u16, cpu: &mut CPU) -> (r: Result<(), CoreError>)
    requires
        old(cpu)@.wf(),
    ensures
        final(cpu)@.wf(),
        completes_as(r, old(cpu)@, final(cpu)@, or_out_of_range(call_spec(old(cpu)@, address as int))),
{
    if address as usize >= MEMORY_SIZE {
        return Err(CoreError::OutOfRangeAccess);
    }
    let return_address = cpu.program_counter as u16;
    match push(return_address, cpu) {
        Ok(()) => {},
        Err(e) => return Err(e),
    }
    cpu.program_counter = address as usize;
    Ok(())
}

/// Returns from a subroutine: pops the return address and jumps to it.
pub fn ret(cpu: &mut CPU) -> (r: Result<(), CoreError>)
    requires
        old(cpu)@.wf(),
    ensures
        final(cpu)@.wf(),
        completes_as(r, old(cpu)@, final(cpu)@, or_out_of_range(ret_spec(old(cpu)@))),
{
    if cpu.stack_ptr + 2 >= MEMORY_SIZE {
        return Err(CoreError::OutOfRangeAccess);
    }
    let address = join_bytes(cpu.work_ram[cpu.stack_ptr + 1], cpu.work_ram[cpu.stack_ptr]);
    if address as usize >= MEMORY_SIZE {
        return Err(CoreError::OutOfRangeAccess);
    }
    cpu.stack_ptr += 2;
    cpu.program_counter = address as usize;
    Ok(())
}

/// Moves the program counter past a one-byte instruction that does nothing.
pub fn nop(cpu: &mut CPU) -> (r: Result<(), CoreError>)
    requires
        old(cpu)@.wf(),
    ensures
        final(cpu)@.wf(),
        completes_as(r, old(cpu)@, final(cpu)@, or_out_of_range(jp_spec(old(cpu)@, old(cpu)@.pc + 1))),
{
    if cpu.program_counter + 1 >= MEMORY_SIZE {
        return Err(CoreError::OutOfRangeAccess);
    }
    cpu.program_counter += 1;
    Ok(())
}

/// Rotates A left; bit 7 goes to bit 0 and to the carry.
pub fn rlca(cpu: &mut CPU)
    ensures
        final(cpu)@ == old(cpu)@.with_af(rlca_spec(old(cpu).registers.a, old(cpu).registers.flags)),
{
    let a = cpu.registers.a;
    cpu.registers.a = (a % 128) * 2 + a / 128;
    cpu.registers.flags = Flags { z: false, n: false, h: false, c: a >= 128 };
}

/// Rotates A left through the carry: the carry goes to bit 0, bit 7 to the
/// carry.
pub fn rla(cpu: &mut CPU)
    ensures
        final(cpu)@ == old(cpu)@.with_af(rla_spec(old(cpu).registers.a, old(cpu).registers.flags)),
{
    let a = cpu.registers.a;
    let carry: u8 = if cpu.registers.flags.c { 1 } else { 0 };
    let r = (a % 128) * 2 + carry;
    cpu.registers.a = r;
    cpu.registers.flags = Flags { z: r == 0, n: false, h: false, c: a >= 128 };
}

/// Rotates A right; bit 0 goes to bit 7 and to the carry.
pub fn rrca(cpu: &mut CPU)
    ensures
        final(cpu)@ == old(cpu)@.with_af(rrca_spec(old(cpu).registers.a, old(cpu).registers.flags)),
{
    let a = cpu.registers.a;
    cpu.registers.a = a / 2 + (a % 2) * 128;
    cpu.registers.flags = Flags { z: false, n: false, h: false, c: a % 2 == 1 };
}

/// Rotates A right through the carry: the carry goes to bit 7, bit 0 to the
/// carry.
pub fn rra(cpu: &mut CPU)
    ensures
        final(cpu)@ == old(cpu)@.with_af(rra_spec(old(cpu).registers.a, old(cpu).registers.flags)),
{
    let a = cpu.registers.a;
    let carry: u8 = if cpu.registers.flags.c { 1 } else { 0 };
    let r = a / 2 + carry * 128;
    cpu.registers.a = r;
    cpu.registers.flags = Flags { z: r == 0, n: false, h: false, c: a % 2 == 1 };
}

/// Decimal-adjusts A after a BCD addition or subtraction.
pub fn daa(cpu: &mut CPU)
    ensures
        final(cpu)@ == old(cpu)@.with_af(daa_spec(old(cpu).registers.a, old(cpu).registers.flags)),
{
    let a = cpu.registers.a;
    let subtract = cpu.registers.flags.n;
    let mut offset: u8 = 0;
    if (!subtract && a % 16 > 9) || cpu.registers.flags.h {
        offset = offset + 0x06;
    }
    let high = (!subtract && a > 0x99) || cpu.registers.flags.c;
    if high {
        offset = offset + 0x60;
    }
    let r = if subtract {
        ((a as u16 + 256 - offset as u16) % 256) as u8
    } else {
        ((a as u16 + offset as u16) % 256) as u8
    };
    cpu.registers.a = r;
    cpu.registers.flags = Flags { z: r == 0, n: subtract, h: false, c: high };
}

/// Complements A, setting N and H as the hardware does.
pub fn cpl(cpu: &mut CPU)
    ensures
        final(cpu)@ == old(cpu)@.with_af(cpl_spec(old(cpu).registers.a, old(cpu).registers.flags)),
{
    cpu.registers.a = 255 - cpu.registers.a;
    cpu.registers.flags.n = true;
    cpu.registers.flags.h = true;
}

/// SCF: C = 1, N = 0, H = 0; Z kept.
pub open spec fn scf_spec(f: Flags) -> Flags {
    Flags { z: f.z, n: false, h: false, c: true }
}

/// CCF: C complemented, N = 0, H = 0; Z kept.
pub open spec fn ccf_spec(f: Flags) -> Flags {
    Flags { z: f.z, n: false, h: false, c: !f.c }
}

/// Sets the carry flag.
pub fn scf(flags: &mut Flags)
    ensures
        *final(flags) == scf_spec(*old(flags)),
{
    flags.n = false;
    flags.h = false;
    flags.c = true;
}

/// Complements the carry flag.
pub fn ccf(flags: &mut Flags)
    ensures
        *final(flags) == ccf_spec(*old(flags)),
{
    flags.n = false;
    flags.h = false;
    flags.c = !flags.c;
}

/// The rotates and shifts of the prefixed table, by their index 0 to 7:
/// RLC, RRC, RL, RR, SLA, SRA, SWAP, SRL. Each sets Z from the result,
/// clears N and H, and puts the bit shifted out in C (SWAP clears C).
pub open spec fn shift_spec(kind: u8, v: u8, f: Flags) -> (u8, Flags) {
    let v = v as int;
    let r: int = if kind == 0 {
        (v % 128) * 2 + v / 128
    } else if kind == 1 {
        v / 2 + (v % 2) * 128
    } else if kind == 2 {
        (v % 128) * 2 + carry_in(f)
    } else if kind == 3 {
        v / 2 + carry_in(f) * 128
    } else if kind == 4 {
        (v % 128) * 2
    } else if kind == 5 {
        v / 2 + (v / 128) * 128
    } else if kind == 6 {
        (v % 16) * 16 + v / 16
    } else {
        v / 2
    };
    let c = if kind == 0 || kind == 2 || kind == 4 {
        v >= 128
    } else if kind == 6 {
        false
    } else {
        v % 2 == 1
    };
    (r as u8, Flags { z: r == 0, n: false, h: false, c })
}

/// BIT: Z = bit `b` of `v` is clear, N = 0, H = 1; C kept.
pub open spec fn bit_spec(b: u8, v: u8, f: Flags) -> Flags {
    Flags { z: v & (1u8 << b) == 0, n: false, h: true, c: f.c }
}

/// Rotates or shifts `value` as the prefixed table's operation `kind`
/// (0 to 7) does, updating the flags.
pub fn shift(kind: u8, value: &mut u8, flags: &mut Flags)
    requires
        kind < 8,
    ensures
        (*final(value), *final(flags)) == shift_spec(kind, *old(value), *old(flags)),
{
    let v = *value;
    let carry: u8 = if flags.c { 1 } else { 0 };
    let r: u8 = match kind {
        0 => (v % 128) * 2 + v / 128,
        1 => v / 2 + (v % 2) * 128,
        2 => (v % 128) * 2 + carry,
        3 => v / 2 + carry * 128,
        4 => (v % 128) * 2,
        5 => v / 2 + (v / 128) * 128,
        6 => (v % 16) * 16 + v / 16,
        _ => v / 2,
    };
    let c = if kind == 0 || kind == 2 || kind == 4 {
        v >= 128
    } else if kind == 6 {
        false
    } else {
        v % 2 == 1
    };
    *value = r;
    *flags = Flags { z: r == 0, n: false, h: false, c };
}

/// Tests bit `b` of `value`.
pub fn test_bit(b: u8, value: u8, flags: &mut Flags)
    requires
        b < 8,
    ensures
        *final(flags) == bit_spec(b, value, *old(flags)),
{
    flags.z = value & (1u8 << b) == 0;
    flags.n = false;
    flags.h = true;
}

/// Clears bit `b` of `value`.
pub fn reset_bit(b: u8, value: &mut u8)
    requires
        b < 8,
    ensures
        *final(value) == *old(value) & !(1u8 << b),
{
    *value = *value & !(1u8 << b);
}

/// Sets bit `b` of `value`.
pub fn set_bit(b: u8, value: &mut u8)
    requires
        b < 8,
    ensures
        *final(value) == *old(value) | (1u8 << b),
{
    *value = *value | (1u8 << b);
}

/// Subtracting a value from itself gives zero with Z and N set and H and C
/// clear, whatever the value and the flags before.
pub proof fn lemma_sub_self(a: u8, f: Flags)
    ensures
        sub_spec(a, a, f) == (0u8, Flags { z: true, n: true, h: false, c: false }),
{
}

/// Pushing a value and then popping gives the value back and leaves the
/// stack pointer, the registers and the program counter as they were.
pub proof fn lemma_push_pop(m: Machine, v: u16)
    requires
        m.wf(),
        m.sp >= 2,
    ensures
        push_spec(m, v) is Some,
        pop_spec(push_spec(m, v)->Some_0) == Some(
            (v, Machine { ram: push_spec(m, v)->Some_0.ram, ..m }),
        ),
{
    let w = push_spec(m, v)->Some_0;
    assert(w.ram[m.sp - 2] == low_byte(v));
    assert(w.ram[m.sp - 1] == high_byte(v));
    crate::registers::lemma_pair_split(v);
}

/// A memory access or a jump target at or past the end of work RAM has no
/// outcome: the instructions built on these fail with `OutOfRangeAccess`
/// and, by their contracts, change nothing.
pub proof fn lemma_out_of_range(m: Machine, addr: int, v: u8)
    requires
        addr >= MEMORY_SIZE,
    ensures
        m.read(addr) is None,
        m.write(addr, v) is None,
        jp_spec(m, addr) is None,
        call_spec(m, addr) is None,
{
}

} // verus!
