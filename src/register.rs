use vstd::prelude::*;

verus! {

/// The four condition flags held in bits 7 to 4 of register F.
#[derive(Clone, Copy, Debug, PartialEq, Eq, Structural)]
pub enum Flags {
    /// Zero: the last result was zero.
    Z,
    /// Subtract: the last operation was a subtraction.
    N,
    /// Half carry: a carry out of bit 3.
    H,
    /// Carry: a carry out of bit 7.
    C,
}

/// Position of `flag` within register F.
pub open spec fn flag_bit(flag: Flags) -> u8 {
    match flag {
        Flags::Z => 7,
        Flags::N => 6,
        Flags::H => 5,
        Flags::C => 4,
    }
}

/// The bit of `flag` in `f`, as 0 or 1.
pub open spec fn flag_of(f: u8, flag: Flags) -> u8 {
    (f >> flag_bit(flag)) & 1
}

/// `f` with the bit of `flag` set when `on` holds and cleared otherwise.
pub open spec fn with_flag(f: u8, flag: Flags, on: bool) -> u8 {
    if on {
        f | (1u8 << flag_bit(flag))
    } else {
        f & !(1u8 << flag_bit(flag))
    }
}

/// A flag register is valid when its low four bits are clear.
pub open spec fn flags_valid(f: u8) -> bool {
    f & 0x0F == 0
}

/// The 16-bit value whose high byte is `hi` and whose low byte is `lo`.
pub open spec fn word(hi: u8, lo: u8) -> u16 {
    (hi as int * 256 + lo as int) as u16
}

/// High byte of a 16-bit value.
pub open spec fn high_byte(v: u16) -> u8 {
    (v / 256) as u8
}

/// Low byte of a 16-bit value.
pub open spec fn low_byte(v: u16) -> u8 {
    (v % 256) as u8
}

/// Setting a flag yields it; every other flag and the low four bits are kept.
pub proof fn lemma_with_flag(f: u8, flag: Flags, on: bool)
    ensures
        flag_of(with_flag(f, flag, on), flag) == (if on { 1u8 } else { 0u8 }),
        forall|g: Flags| g != flag ==> #[trigger] flag_of(with_flag(f, flag, on), g) == flag_of(f, g),
        with_flag(f, flag, on) & 0x0F == f & 0x0F,
{
    let k = flag_bit(flag);
    assert(4 <= k < 8);
    assert(((f | (1u8 << k)) >> k) & 1 == 1 && ((f & !(1u8 << k)) >> k) & 1 == 0) by (bit_vector)
        requires 4 <= k < 8;
    assert forall|g: Flags| g != flag implies #[trigger] flag_of(with_flag(f, flag, on), g) == flag_of(f, g) by {
        let j = flag_bit(g);
        assert(j != k);
        assert(((f | (1u8 << k)) >> j) & 1 == (f >> j) & 1 && ((f & !(1u8 << k)) >> j) & 1 == (f >> j) & 1)
            by (bit_vector)
            requires 4 <= k < 8, 4 <= j < 8, j != k;
    }
    assert((f | (1u8 << k)) & 0x0F == f & 0x0F && (f & !(1u8 << k)) & 0x0F == f & 0x0F) by (bit_vector)
        requires 4 <= k < 8;
}

/// The register file: eight 8-bit registers, the program counter and the
/// stack pointer. B:C, D:E and H:L also read and write as 16-bit pairs.
#[derive(Clone, Copy, Debug, PartialEq, Eq, Structural)]
pub struct Register {
    pub a: u8,
    pub b: u8,
    pub c: u8,
    pub d: u8,
    pub e: u8,
    pub f: u8,
    pub h: u8,
    pub l: u8,
    pub pc: u16,
    pub sp: u16,
}

impl Register {
    /// The pair B:C.
    pub open spec fn bc(self) -> u16 {
        word(self.b, self.c)
    }

    /// The pair D:E.
    pub open spec fn de(self) -> u16 {
        word(self.d, self.e)
    }

    /// The pair H:L.
    pub open spec fn hl(self) -> u16 {
        word(self.h, self.l)
    }

    /// These registers with B:C replaced by `v`.
    pub open spec fn with_bc(self, v: u16) -> Register {
        Register { b: high_byte(v), c: low_byte(v), ..self }
    }

    /// These registers with D:E replaced by `v`.
    pub open spec fn with_de(self, v: u16) -> Register {
        Register { d: high_byte(v), e: low_byte(v), ..self }
    }

    /// These registers with H:L replaced by `v`.
    pub open spec fn with_hl(self, v: u16) -> Register {
        Register { h: high_byte(v), l: low_byte(v), ..self }
    }

    /// The power-on register file: every register zero.
    pub open spec fn zeroed() -> Register {
        Register { a: 0, b: 0, c: 0, d: 0, e: 0, f: 0, h: 0, l: 0, pc: 0, sp: 0 }
    }

    /// Every register zero.
    pub fn new() -> (r: Register)
        ensures
            r == Register::zeroed(),
            flags_valid(r.f),
    {
        assert(0u8 & 0x0F == 0) by (bit_vector);
        Register { a: 0, b: 0, c: 0, d: 0, e: 0, f: 0, h: 0, l: 0, pc: 0, sp: 0 }
    }

    /// Reads the pair B:C.
    pub fn get_bc(&self) -> (r: u16)
        ensures
            r == self.bc(),
    {
        join(self.b, self.c)
    }

    /// Writes `data` to B:C: its high byte to B, its low byte to C.
    pub fn set_bc(&mut self, data: u16)
        ensures
            *final(self) == old(self).with_bc(data),
    {
        let (hi, lo) = split(data);
        self.b = hi;
        self.c = lo;
    }

    /// Reads the pair D:E.
    pub fn get_de(&self) -> (r: u16)
        ensures
            r == self.de(),
    {
        join(self.d, self.e)
    }

    /// Writes `data` to D:E: its high byte to D, its low byte to E.
    pub fn set_de(&mut self, data: u16)
        ensures
            *final(self) == old(self).with_de(data),
    {
        let (hi, lo) = split(data);
        self.d = hi;
        self.e = lo;
    }

    /// Reads the pair H:L.
    pub fn get_hl(&self) -> (r: u16)
        ensures
            r == self.hl(),
    {
        join(self.h, self.l)
    }

    /// Writes `data` to H:L: its high byte to H, its low byte to L.
    pub fn set_hl(&mut self, data: u16)
        ensures
            *final(self) == old(self).with_hl(data),
    {
        let (hi, lo) = split(data);
        self.h = hi;
        self.l = lo;
    }
}

/// The 16-bit value `hi:lo`.
pub fn join(hi: u8, lo: u8) -> (r: u16)
    ensures
        r == word(hi, lo),
{
    let r = ((hi as u16) << 8) | lo as u16;
    assert(((hi as u16) << 8) | lo as u16 == (hi as u16) * 256 + lo as u16) by (bit_vector);
    r
}

/// The high and low bytes of `v`.
pub fn split(v: u16) -> (r: (u8, u8))
    ensures
        r.0 == high_byte(v),
        r.1 == low_byte(v),
{
    let hi = ((v >> 8) & 0xFF) as u8;
    let lo = (v & 0xFF) as u8;
    assert((v >> 8) & 0xFF == v / 256 && v & 0xFF == v % 256) by (bit_vector);
    (hi, lo)
}

/// Writing a pair and reading it back yields the value written, for each
/// of B:C, D:E and H:L; the other registers are untouched.
pub proof fn lemma_pair_round_trip(reg: Register, v: u16)
    ensures
        reg.with_bc(v).bc() == v,
        reg.with_de(v).de() == v,
        reg.with_hl(v).hl() == v,
        reg.with_bc(v).with_bc(reg.bc()) == reg,
        reg.with_de(v).with_de(reg.de()) == reg,
        reg.with_hl(v).with_hl(reg.hl()) == reg,
{
    assert(word(high_byte(v), low_byte(v)) == v);
    assert(high_byte(word(reg.b, reg.c)) == reg.b && low_byte(word(reg.b, reg.c)) == reg.c);
    assert(high_byte(word(reg.d, reg.e)) == reg.d && low_byte(word(reg.d, reg.e)) == reg.e);
    assert(high_byte(word(reg.h, reg.l)) == reg.h && low_byte(word(reg.h, reg.l)) == reg.l);
}

} // verus!
