use vstd::prelude::*;

verus! {

/// Lower half of the AF register pair: the four status flags.
#[derive(Clone, Copy, Debug, PartialEq, Eq, Structural)]
pub struct Flags {
    /// Zero: set when the result of an operation is zero; read by conditional jumps.
    pub z: bool,
    /// Subtract: the previous operation was a subtraction; read by DAA only.
    pub n: bool,
    /// Half-carry: carry out of bit 3 of an 8-bit result; read by DAA only.
    pub h: bool,
    /// Carry: carry out of bit 7 (bit 15 for 16-bit additions), a borrow,
    /// or the bit shifted out by a rotate or shift.
    pub c: bool,
}

impl Flags {
    /// All four flags cleared.
    pub fn new() -> (r: Flags)
        ensures
            !r.z && !r.n && !r.h && !r.c,
    {
        Flags { z: false, n: false, h: false, c: false }
    }
}

/// The register file. BC, DE and HL are not stored: each is a view over two
/// of the eight-bit registers, the first of them holding bits 15 to 8.
#[derive(Clone, Copy, Debug, PartialEq, Eq, Structural)]
pub struct Registers {
    pub a: u8,
    pub b: u8,
    pub c: u8,
    pub d: u8,
    pub e: u8,
    pub h: u8,
    pub l: u8,
    pub flags: Flags,
}

/// The 16-bit value whose bits 15 to 8 are `hi` and bits 7 to 0 are `lo`.
pub open spec fn pair(hi: u8, lo: u8) -> u16 {
    (hi as int * 256 + lo as int) as u16
}

/// Bits 15 to 8 of `v`.
pub open spec fn high_byte(v: u16) -> u8 {
    (v as int / 256) as u8
}

/// Bits 7 to 0 of `v`.
pub open spec fn low_byte(v: u16) -> u8 {
    (v as int % 256) as u8
}

/// Splitting a 16-bit value into its two bytes and joining them again gives
/// the value back.
pub proof fn lemma_pair_split(v: u16)
    ensures
        pair(high_byte(v), low_byte(v)) == v,
{
}

/// Joins a high and a low byte into a 16-bit value.
pub fn join_bytes(hi: u8, lo: u8) -> (r: u16)
    ensures
        r == pair(hi, lo),
{
    hi as u16 * 256 + lo as u16
}

/// Splits a 16-bit value into its high and its low byte.
pub fn split_bytes(v: u16) -> (r: (u8, u8))
    ensures
        r.0 == high_byte(v),
        r.1 == low_byte(v),
{
    ((v / 256) as u8, (v % 256) as u8)
}

impl Registers {
    /// The register pair BC.
    pub open spec fn bc(&self) -> u16 {
        pair(self.b, self.c)
    }

    /// The register pair DE.
    pub open spec fn de(&self) -> u16 {
        pair(self.d, self.e)
    }

    /// The register pair HL.
    pub open spec fn hl(&self) -> u16 {
        pair(self.h, self.l)
    }

    /// These registers with BC replaced by `v`.
    pub open spec fn with_bc(self, v: u16) -> Registers {
        Registers { b: high_byte(v), c: low_byte(v), ..self }
    }

    /// These registers with DE replaced by `v`.
    pub open spec fn with_de(self, v: u16) -> Registers {
        Registers { d: high_byte(v), e: low_byte(v), ..self }
    }

    /// These registers with HL replaced by `v`.
    pub open spec fn with_hl(self, v: u16) -> Registers {
        Registers { h: high_byte(v), l: low_byte(v), ..self }
    }

    /// Every register and every flag zero.
    pub open spec fn new_spec() -> Registers {
        Registers {
            a: 0,
            b: 0,
            c: 0,
            d: 0,
            e: 0,
            h: 0,
            l: 0,
            flags: Flags { z: false, n: false, h: false, c: false },
        }
    }

    /// Every register and every flag zero.
    pub fn new() -> (r: Registers)
        ensures
            r == Registers::new_spec(),
    {
        Registers { a: 0, b: 0, c: 0, d: 0, e: 0, h: 0, l: 0, flags: Flags::new() }
    }

    pub fn get_bc(&self) -> (r: u16)
        ensures
            r == self.bc(),
    {
        join_bytes(self.b, self.c)
    }

    pub fn set_bc(&mut self, value: u16)
        ensures
            *final(self) == old(self).with_bc(value),
    {
        let (hi, lo) = split_bytes(value);
        self.b = hi;
        self.c = lo;
    }

    pub fn get_de(&self) -> (r: u16)
        ensures
            r == self.de(),
    {
        join_bytes(self.d, self.e)
    }

    pub fn set_de(&mut self, value: u16)
        ensures
            *final(self) == old(self).with_de(value),
    {
        let (hi, lo) = split_bytes(value);
        self.d = hi;
        self.e = lo;
    }

    pub fn get_hl(&self) -> (r: u16)
        ensures
            r == self.hl(),
    {
        join_bytes(self.h, self.l)
    }

    pub fn set_hl(&mut self, value: u16)
        ensures
            *final(self) == old(self).with_hl(value),
    {
        let (hi, lo) = split_bytes(value);
        self.h = hi;
        self.l = lo;
    }
}

/// Setting a register pair and reading it back gives the value that was set,
/// for each of BC, DE and HL; no other register changes.
pub proof fn lemma_pair_round_trip(r: Registers, v: u16)
    ensures
        r.with_bc(v).bc() == v,
        r.with_de(v).de() == v,
        r.with_hl(v).hl() == v,
        r.with_bc(v).a == r.a && r.with_bc(v).flags == r.flags,
        r.with_bc(v).d == r.d && r.with_bc(v).e == r.e,
        r.with_bc(v).h == r.h && r.with_bc(v).l == r.l,
        r.with_de(v).a == r.a && r.with_de(v).flags == r.flags,
        r.with_de(v).b == r.b && r.with_de(v).c == r.c,
        r.with_de(v).h == r.h && r.with_de(v).l == r.l,
        r.with_hl(v).a == r.a && r.with_hl(v).flags == r.flags,
        r.with_hl(v).b == r.b && r.with_hl(v).c == r.c,
        r.with_hl(v).d == r.d && r.with_hl(v).e == r.e,
{
    lemma_pair_split(v);
}

} // verus!
