use vstd::prelude::*;
use crate::display::Display;
use crate::registers::{pair, Flags, Registers};

verus! {

/// Size in bytes of each of the two memory areas.
pub const MEMORY_SIZE: usize = 8192;

/// Work RAM and video RAM are both flat 8 KiB byte arrays.
pub type RAMArea = [u8; 8192];

/// Run-state of the CPU.
#[derive(Clone, Copy, Debug, PartialEq, Eq, Structural)]
pub enum CpuState {
    /// Stopped by STOP; the core decodes nothing further.
    STOP,
    /// Halted by HALT; the core decodes nothing further.
    HALT,
    /// Running: each step decodes one instruction.
    CONTINUE,
}

/// Why an instruction could not complete.
#[derive(Clone, Copy, Debug, PartialEq, Eq, Structural)]
pub enum CoreError {
    /// A memory access, jump target, program counter or stack pointer outside
    /// the 8 KiB address space.
    OutOfRangeAccess,
    /// The opcode has no instruction.
    UnimplementedOpcode(u8),
}

/// The two memory areas, each of `MEMORY_SIZE` bytes.
#[derive(Clone, Copy, Debug, PartialEq, Eq, Structural)]
pub enum MemoryRegion {
    /// General-purpose RAM: program, data and stack.
    WorkRam,
    /// Video RAM, read by the renderer.
    VideoRam,
}

/// The whole CPU state as a mathematical value.
pub struct Machine {
    pub regs: Registers,
    pub ram: Seq<u8>,
    pub vram: Seq<u8>,
    pub display: Display,
    pub sp: int,
    pub pc: int,
    pub state: CpuState,
}

pub struct CPU {
    pub work_ram: RAMArea,
    pub video_ram: RAMArea,
    pub display: Display,
    /// Offset into work RAM of the top of the stack. PUSH writes below it, so
    /// the byte it addresses is not written until the pointer moves down.
    pub stack_ptr: usize,
    /// Offset into work RAM of the next opcode.
    pub program_counter: usize,
    pub registers: Registers,
    pub state: CpuState,
}

impl View for CPU {
    type V = Machine;

    open spec fn view(&self) -> Machine {
        Machine {
            regs: self.registers,
            ram: self.work_ram@,
            vram: self.video_ram@,
            display: self.display,
            sp: self.stack_ptr as int,
            pc: self.program_counter as int,
            state: self.state,
        }
    }
}

/// The byte `b` read as a two's-complement signed number.
pub open spec fn signed(b: u8) -> int {
    if b < 128 { b as int } else { b - 256 }
}

/// Reads a byte as a two's-complement signed number.
pub fn to_signed(b: u8) -> (r: i8)
    ensures
        r as int == signed(b),
{
    if b < 128 {
        b as i8
    } else {
        (b as i16 - 256) as i8
    }
}

/// Whether `i` is an offset into an 8 KiB memory area.
pub open spec fn in_range(i: int) -> bool {
    0 <= i < MEMORY_SIZE
}

impl Machine {
    /// The program counter and the stack pointer both address work RAM.
    pub open spec fn wf(&self) -> bool {
        &&& self.ram.len() == MEMORY_SIZE
        &&& self.vram.len() == MEMORY_SIZE
        &&& in_range(self.pc)
        &&& in_range(self.sp)
    }

    /// The byte of work RAM at `addr`, or `None` out of range.
    pub open spec fn read(&self, addr: int) -> Option<u8> {
        if in_range(addr) {
            Some(self.ram[addr])
        } else {
            None
        }
    }

    /// Work RAM with `v` stored at `addr`, or `None` out of range.
    pub open spec fn write(self, addr: int, v: u8) -> Option<Machine> {
        if in_range(addr) {
            Some(Machine { ram: self.ram.update(addr, v), ..self })
        } else {
            None
        }
    }

    /// The contents of a memory area.
    pub open spec fn area(&self, region: MemoryRegion) -> Seq<u8> {
        match region {
            MemoryRegion::WorkRam => self.ram,
            MemoryRegion::VideoRam => self.vram,
        }
    }

    /// The memory area `region` with `v` stored at `addr`, or `None` out of
    /// range.
    pub open spec fn store(self, region: MemoryRegion, addr: int, v: u8) -> Option<Machine> {
        if !in_range(addr) {
            None
        } else {
            match region {
                MemoryRegion::WorkRam => Some(Machine { ram: self.ram.update(addr, v), ..self }),
                MemoryRegion::VideoRam => Some(Machine { vram: self.vram.update(addr, v), ..self }),
            }
        }
    }

    /// This state with the program counter set to `pc`.
    pub open spec fn at(self, pc: int) -> Machine {
        Machine { pc, ..self }
    }

    /// This state with A and the flags replaced.
    pub open spec fn with_af(self, af: (u8, Flags)) -> Machine {
        Machine { regs: Registers { a: af.0, flags: af.1, ..self.regs }, ..self }
    }

    /// This state with the flags replaced.
    pub open spec fn with_flags(self, f: Flags) -> Machine {
        Machine { regs: Registers { flags: f, ..self.regs }, ..self }
    }

    /// This state with A replaced.
    pub open spec fn with_a(self, a: u8) -> Machine {
        Machine { regs: Registers { a, ..self.regs }, ..self }
    }

    /// This state with the run-state replaced.
    pub open spec fn with_state(self, state: CpuState) -> Machine {
        Machine { state, ..self }
    }

    /// This state with the registers replaced.
    pub open spec fn with_regs(self, regs: Registers) -> Machine {
        Machine { regs, ..self }
    }
}

/// `r` and the state `after` are what `expected` asks of a step from `before`:
/// on success the state it gives, on failure its error and no change at all.
pub open spec fn completes_as(
    r: Result<(), CoreError>,
    before: Machine,
    after: Machine,
    expected: Result<Machine, CoreError>,
) -> bool {
    match expected {
        Ok(m) => r is Ok && after == m,
        Err(e) => r == Err::<(), CoreError>(e) && after == before,
    }
}

/// A state that may be missing for want of range, as a step's outcome.
pub open spec fn or_out_of_range(m: Option<Machine>) -> Result<Machine, CoreError> {
    match m {
        Some(m) => Ok(m),
        None => Err(CoreError::OutOfRangeAccess),
    }
}

impl CPU {
    /// A running CPU: memory and registers zero, program counter at the
    /// start of work RAM, stack pointer at its last byte.
    pub fn new() -> (r: CPU)
        ensures
            r@.wf(),
            r@.ram == Seq::new(MEMORY_SIZE as nat, |i: int| 0u8),
            r@.vram == Seq::new(MEMORY_SIZE as nat, |i: int| 0u8),
            r@.regs == Registers::new_spec(),
            r.display.is_blank(),
            r@.pc == 0,
            r@.sp == MEMORY_SIZE - 1,
            r@.state == CpuState::CONTINUE,
    {
        let r = CPU {
            work_ram: [0u8; 8192],
            video_ram: [0u8; 8192],
            display: Display::new(),
            stack_ptr: MEMORY_SIZE - 1,
            program_counter: 0,
            registers: Registers::new(),
            state: CpuState::CONTINUE,
        };
        assert(r@.ram =~= Seq::new(MEMORY_SIZE as nat, |i: int| 0u8));
        assert(r@.vram =~= Seq::new(MEMORY_SIZE as nat, |i: int| 0u8));
        r
    }

    /// Reads the byte at `address` of a memory area; out of range it fails.
    pub fn read_memory(&self, region: MemoryRegion, address: usize) -> (r: Result<u8, CoreError>)
        requires
            self@.wf(),
        ensures
            in_range(address as int) ==> r == Ok::<u8, CoreError>(self@.area(region)[address as int]),
            !in_range(address as int) ==> r == Err::<u8, CoreError>(CoreError::OutOfRangeAccess),
    {
        if address >= MEMORY_SIZE {
            return Err(CoreError::OutOfRangeAccess);
        }
        match region {
            MemoryRegion::WorkRam => Ok(self.work_ram[address]),
            MemoryRegion::VideoRam => Ok(self.video_ram[address]),
        }
    }

    /// Writes `value` at `address` of a memory area; out of range it fails and
    /// changes nothing.
    pub fn write_memory(&mut self, region: MemoryRegion, address: usize, value: u8) -> (r: Result<(), CoreError>)
        requires
            old(self)@.wf(),
        ensures
            final(self)@.wf(),
            completes_as(r, old(self)@, final(self)@, or_out_of_range(old(self)@.store(region, address as int, value))),
    {
        if address >= MEMORY_SIZE {
            return Err(CoreError::OutOfRangeAccess);
        }
        match region {
            MemoryRegion::WorkRam => self.work_ram[address] = value,
            MemoryRegion::VideoRam => self.video_ram[address] = value,
        }
        Ok(())
    }

    /// Moves the program counter two bytes on and returns the two bytes it
    /// passed, the first as the low byte of the result.
    pub fn get_next_two_bytes(&mut self) -> (r: Result<u16, CoreError>)
        requires
            old(self)@.wf(),
        ensures
            in_range(old(self)@.pc + 2) ==> r == Ok::<u16, CoreError>(
                pair(old(self)@.ram[old(self)@.pc + 2], old(self)@.ram[old(self)@.pc + 1]),
            ) && final(self)@ == old(self)@.at(old(self)@.pc + 2),
            !in_range(old(self)@.pc + 2) ==> r == Err::<u16, CoreError>(CoreError::OutOfRangeAccess)
                && final(self)@ == old(self)@,
    {
        if self.program_counter + 2 >= MEMORY_SIZE {
            return Err(CoreError::OutOfRangeAccess);
        }
        self.program_counter += 1;
        let lo = self.work_ram[self.program_counter];
        self.program_counter += 1;
        let hi = self.work_ram[self.program_counter];
        Ok(crate::registers::join_bytes(hi, lo))
    }

    /// Moves the program counter one byte on and returns the byte it now
    /// addresses.
    pub fn get_next_one_byte(&mut self) -> (r: Result<u8, CoreError>)
        requires
            old(self)@.wf(),
        ensures
            in_range(old(self)@.pc + 1) ==> r == Ok::<u8, CoreError>(old(self)@.ram[old(self)@.pc + 1])
                && final(self)@ == old(self)@.at(old(self)@.pc + 1),
            !in_range(old(self)@.pc + 1) ==> r == Err::<u8, CoreError>(CoreError::OutOfRangeAccess)
                && final(self)@ == old(self)@,
    {
        if self.program_counter + 1 >= MEMORY_SIZE {
            return Err(CoreError::OutOfRangeAccess);
        }
        self.program_counter += 1;
        Ok(self.work_ram[self.program_counter])
    }

    /// As `get_next_one_byte`, with the byte read as a signed offset.
    pub fn get_next_signed_byte(&mut self) -> (r: Result<i8, CoreError>)
        requires
            old(self)@.wf(),
        ensures
            in_range(old(self)@.pc + 1) ==> r is Ok && r->Ok_0 as int == signed(old(self)@.ram[old(self)@.pc + 1])
                && final(self)@ == old(self)@.at(old(self)@.pc + 1),
            !in_range(old(self)@.pc + 1) ==> r == Err::<i8, CoreError>(CoreError::OutOfRangeAccess)
                && final(self)@ == old(self)@,
    {
        match self.get_next_one_byte() {
            Ok(b) => Ok(to_signed(b)),
            Err(e) => Err(e),
        }
    }
}

} // verus!
