use vstd::prelude::*;
use crate::bus::Bus;
use crate::proofs::lemma_step_keeps_flags_valid;
use crate::register::{
    flag_of, flags_valid, high_byte, join, low_byte, split, with_flag, word, Flags, Register,
};

verus! {

/// Why an instruction could not be executed.
#[derive(Clone, Copy, Debug, PartialEq, Eq, Structural)]
pub enum DecodeError {
    /// The opcode byte has no handler.
    UnknownOpcode(u8),
    /// The byte after the 0xCB prefix has no handler.
    UnknownCbOpcode(u8),
}

/// The machine as the model of an instruction sees it: registers, the
/// contents of memory, and the cycle cost of the last instruction.
pub struct MachineState {
    pub reg: Register,
    pub mem: Seq<u8>,
    pub cycles: usize,
}

impl MachineState {
    pub open spec fn set_reg(self, reg: Register) -> MachineState {
        MachineState { reg, ..self }
    }

    pub open spec fn with_cycles(self, n: usize) -> MachineState {
        MachineState { cycles: n, ..self }
    }

    /// The program counter moved forward by `n`, wrapping at 16 bits.
    pub open spec fn skip(self, n: u16) -> MachineState {
        self.set_reg(Register { pc: self.reg.pc.wrapping_add(n), ..self.reg })
    }

    pub open spec fn byte_at(self, addr: u16) -> u8 {
        self.mem[addr as int]
    }

    pub open spec fn store(self, addr: u16, v: u8) -> MachineState {
        MachineState { mem: self.mem.update(addr as int, v), ..self }
    }

    /// The byte at PC.
    pub open spec fn next8(self) -> u8 {
        self.byte_at(self.reg.pc)
    }

    /// The little-endian word at PC: low byte first.
    pub open spec fn next16(self) -> u16 {
        word(self.byte_at(self.reg.pc.wrapping_add(1)), self.byte_at(self.reg.pc))
    }

    /// SP moved down by one, then `v` stored at the new SP.
    pub open spec fn push(self, v: u8) -> MachineState {
        let sp = self.reg.sp.wrapping_sub(1);
        self.set_reg(Register { sp, ..self.reg }).store(sp, v)
    }

    /// Reading back what two pushes left: the word at SP (low byte at SP,
    /// high byte above it), with SP moved up by two.
    pub open spec fn pop16(self) -> (u16, MachineState) {
        let v = word(self.byte_at(self.reg.sp.wrapping_add(1)), self.byte_at(self.reg.sp));
        (v, self.set_reg(Register { sp: self.reg.sp.wrapping_add(2), ..self.reg }))
    }
}

/// `f` with Z, N and H replaced and C kept.
pub open spec fn flags_znh(f: u8, z: bool, n: bool, h: bool) -> u8 {
    with_flag(with_flag(with_flag(f, Flags::Z, z), Flags::N, n), Flags::H, h)
}

/// `f` with all four flags replaced.
pub open spec fn flags_znhc(f: u8, z: bool, n: bool, h: bool, c: bool) -> u8 {
    with_flag(flags_znh(f, z, n, h), Flags::C, c)
}

/// Where a relative jump by the signed byte `d` from `pc` lands.
pub open spec fn relative_target(pc: u16, d: u8) -> u16 {
    if d < 128 {
        pc.wrapping_add(d as u16)
    } else {
        pc.wrapping_sub((256 - d) as u16)
    }
}

/// The byte rotated left through the carry: bit 7 leaves, `carry` enters bit 0.
pub open spec fn rotate_left_through(v: u8, carry: u8) -> u8 {
    (v << 1) | carry
}

/// The effect of executing `opcode`, whose byte has already been fetched,
/// on the machine `s`: the state after it and whether it was recognised.
pub open spec fn execute(s: MachineState, opcode: u8) -> (MachineState, Result<(), DecodeError>) {
    let r = s.reg;
    match opcode {
        0x00 => (s.with_cycles(4), Ok(())),
        0x06 => {
            let t = s.skip(1);
            (t.set_reg(Register { b: s.next8(), ..t.reg }).with_cycles(8), Ok(()))
        },
        0x0C => {
            let res = r.c.wrapping_add(1);
            let f = flags_znh(r.f, res == 0, false, r.c & 0x0F == 0x0F);
            (s.set_reg(Register { c: res, f, ..r }).with_cycles(4), Ok(()))
        },
        0x0E => {
            let t = s.skip(1);
            (t.set_reg(Register { c: s.next8(), ..t.reg }).with_cycles(8), Ok(()))
        },
        0x11 => {
            let t = s.skip(2);
            (t.set_reg(t.reg.with_de(s.next16())).with_cycles(12), Ok(()))
        },
        0x17 => {
            let a = rotate_left_through(r.a, flag_of(r.f, Flags::C));
            let f = flags_znhc(r.f, false, false, false, (r.a >> 7) & 1 == 1);
            (s.set_reg(Register { a, f, ..r }).with_cycles(4), Ok(()))
        },
        0x1A => (s.set_reg(Register { a: s.byte_at(r.de()), ..r }).with_cycles(8), Ok(())),
        0x20 => {
            let t = s.skip(1);
            if flag_of(r.f, Flags::Z) == 0 {
                let pc = relative_target(t.reg.pc, s.next8());
                (t.set_reg(Register { pc, ..t.reg }).with_cycles(12), Ok(()))
            } else {
                (t.with_cycles(8), Ok(()))
            }
        },
        0x21 => {
            let t = s.skip(2);
            (t.set_reg(t.reg.with_hl(s.next16())).with_cycles(12), Ok(()))
        },
        0x31 => {
            let t = s.skip(2);
            (t.set_reg(Register { sp: s.next16(), ..t.reg }).with_cycles(12), Ok(()))
        },
        0x32 => {
            let t = s.store(r.hl(), r.a);
            (t.set_reg(r.with_hl(r.hl().wrapping_sub(1))).with_cycles(8), Ok(()))
        },
        0x3E => {
            let t = s.skip(1);
            (t.set_reg(Register { a: s.next8(), ..t.reg }).with_cycles(8), Ok(()))
        },
        0x4F => (s.set_reg(Register { c: r.a, ..r }).with_cycles(4), Ok(())),
        0x77 => (s.store(r.hl(), r.a).with_cycles(8), Ok(())),
        0xAF => {
            let res = r.a ^ r.a;
            let f = flags_znhc(r.f, res == 0, false, false, false);
            (s.set_reg(Register { a: res, f, ..r }).with_cycles(4), Ok(()))
        },
        0xC5 => (s.push(r.b).push(r.c).with_cycles(16), Ok(())),
        0xCB => execute_cb(s.skip(1), s.next8()),
        0xCD => {
            let t = s.skip(2);
            let ret = t.reg.pc;
            let u = t.push(high_byte(ret)).push(low_byte(ret));
            (u.set_reg(Register { pc: s.next16(), ..u.reg }).with_cycles(24), Ok(()))
        },
        0xE0 => (s.skip(1).store(word(0xFF, s.next8()), r.a).with_cycles(12), Ok(())),
        0xE2 => (s.store(word(0xFF, r.c), r.a).with_cycles(8), Ok(())),
        _ => (s, Err(DecodeError::UnknownOpcode(opcode))),
    }
}

/// The effect of the 0xCB-prefixed instruction `sub`, whose byte has
/// already been fetched.
pub open spec fn execute_cb(s: MachineState, sub: u8) -> (MachineState, Result<(), DecodeError>) {
    let r = s.reg;
    match sub {
        0x11 => {
            let c = rotate_left_through(r.c, flag_of(r.f, Flags::C));
            let f = flags_znhc(r.f, c == 0, false, false, (r.c >> 7) & 1 == 1);
            (s.set_reg(Register { c, f, ..r }).with_cycles(8), Ok(()))
        },
        0x7C => {
            let f = flags_znh(r.f, (r.h >> 7) & 1 == 0, false, true);
            (s.set_reg(Register { f, ..r }).with_cycles(8), Ok(()))
        },
        _ => (s, Err(DecodeError::UnknownCbOpcode(sub))),
    }
}

/// One whole step: fetch the opcode at PC, then execute it.
pub open spec fn step_spec(s: MachineState) -> (MachineState, Result<(), DecodeError>) {
    execute(s.skip(1), s.next8())
}

/// The CPU core: its own registers, and a borrowed bus that outlives it.
pub struct Cpu<'a> {
    pub reg: Register,
    pub bus: &'a mut Bus,
    /// Clock cycles taken by the most recent instruction.
    pub cycles: usize,
}

impl<'a> Cpu<'a> {
    /// Registers, memory and cycle count of this CPU.
    pub open spec fn state(&self) -> MachineState {
        MachineState { reg: self.reg, mem: self.bus.memory@, cycles: self.cycles }
    }

    /// A CPU at power-on, attached to `bus`.
    pub fn new(bus: &'a mut Bus) -> (r: Cpu<'a>)
        ensures
            r.reg == Register::zeroed(),
            r.cycles == 0,
            *r.bus == *old(bus),
            *final(r.bus) == *final(bus),
    {
        Cpu { reg: Register::new(), bus, cycles: 0 }
    }

    /// Attaches this CPU to another bus.
    pub fn bus_connect(&mut self, bus: &'a mut Bus)
        ensures
            final(self).reg == old(self).reg,
            final(self).cycles == old(self).cycles,
            *final(self).bus == *old(bus),
    {
        self.bus = bus;
    }

    /// The byte at `addr` on the attached bus.
    pub fn read(&self, addr: u16) -> (r: u8)
        ensures
            r == self.state().byte_at(addr),
    {
        self.bus.read(addr)
    }

    /// Stores `data` at `addr` on the attached bus.
    pub fn write(&mut self, addr: u16, data: u8)
        ensures
            final(self).state() == old(self).state().store(addr, data),
    {
        self.bus.write(addr, data);
    }

    /// The bit of `flag` in F, as 0 or 1.
    pub fn get_flag(&self, flag: Flags) -> (r: u8)
        ensures
            r == flag_of(self.reg.f, flag),
    {
        match flag {
            Flags::Z => (self.reg.f >> 7u8) & 1,
            Flags::N => (self.reg.f >> 6u8) & 1,
            Flags::H => (self.reg.f >> 5u8) & 1,
            Flags::C => (self.reg.f >> 4u8) & 1,
        }
    }

    /// Sets the bit of `flag` in F when `conditional` holds, clears it otherwise.
    pub fn set_flag(&mut self, flag: Flags, conditional: bool)
        ensures
            final(self).state() == old(self).state().set_reg(
                Register { f: with_flag(old(self).reg.f, flag, conditional), ..old(self).reg },
            ),
    {
        let bit: u8 = match flag {
            Flags::Z => 7,
            Flags::N => 6,
            Flags::H => 5,
            Flags::C => 4,
        };
        self.reg.f = if conditional {
            self.reg.f | (1u8 << bit)
        } else {
            self.reg.f & !(1u8 << bit)
        };
    }

    /// Records the cycle cost of the instruction being executed.
    pub fn set_cycles(&mut self, t_cycles: usize)
        ensures
            final(self).state() == old(self).state().with_cycles(t_cycles),
    {
        self.cycles = t_cycles;
    }

    /// Reads the byte at PC and moves PC forward by one.
    pub fn fetch(&mut self) -> (r: u8)
        ensures
            r == old(self).state().next8(),
            final(self).state() == old(self).state().skip(1),
    {
        let data = self.read(self.reg.pc);
        self.reg.pc = self.reg.pc.wrapping_add(1);
        data
    }

    /// Reads the little-endian word at PC and moves PC forward by two.
    pub fn fetch16(&mut self) -> (r: u16)
        ensures
            r == old(self).state().next16(),
            final(self).state() == old(self).state().skip(2),
    {
        let lo = self.read(self.reg.pc);
        let hi = self.read(self.reg.pc.wrapping_add(1));
        self.reg.pc = self.reg.pc.wrapping_add(2);
        join(hi, lo)
    }

    /// Moves SP down by one and stores `v` there.
    fn push(&mut self, v: u8)
        ensures
            final(self).state() == old(self).state().push(v),
    {
        self.reg.sp = self.reg.sp.wrapping_sub(1);
        self.write(self.reg.sp, v);
    }
    /// Executes `instruction`, whose byte has already been fetched: reads its
    /// operands, updates registers, memory and flags, and records its cycle
    /// cost. An opcode without a handler is reported, not executed.
    pub fn decode(&mut self, instruction: u8) -> (r: Result<(), DecodeError>)
        ensures
            (final(self).state(), r) == execute(old(self).state(), instruction),
    {
        match instruction {
            0x00 => {
                self.set_cycles(4);
            },
            0x06 => {
                let data = self.fetch();
                self.reg.b = data;
                self.set_cycles(8);
            },
            0x0C => {
                let half_carry = (self.reg.c & 0x0F) == 0x0F;
                let result = self.reg.c.wrapping_add(1);
                self.reg.c = result;
                self.set_flag(Flags::Z, result == 0);
                self.set_flag(Flags::N, false);
                self.set_flag(Flags::H, half_carry);
                self.set_cycles(4);
            },
            0x0E => {
                let data = self.fetch();
                self.reg.c = data;
                self.set_cycles(8);
            },
            0x11 => {
                let data = self.fetch16();
                self.reg.set_de(data);
                self.set_cycles(12);
            },
            0x17 => {
                let carry = self.get_flag(Flags::C);
                let bit_7 = (self.reg.a >> 7u8) & 1;
                self.reg.a = (self.reg.a << 1u8) | carry;
                self.set_flag(Flags::Z, false);
                self.set_flag(Flags::N, false);
                self.set_flag(Flags::H, false);
                self.set_flag(Flags::C, bit_7 == 1);
                self.set_cycles(4);
            },
            0x1A => {
                let addr = self.reg.get_de();
                let data = self.read(addr);
                self.reg.a = data;
                self.set_cycles(8);
            },
            0x20 => {
                let offset = self.fetch();
                if self.get_flag(Flags::Z) == 0 {
                    self.reg.pc = relative_jump(self.reg.pc, offset);
                    self.set_cycles(12);
                } else {
                    self.set_cycles(8);
                }
            },
            0x21 => {
                let data = self.fetch16();
                self.reg.set_hl(data);
                self.set_cycles(12);
            },
            0x31 => {
                let data = self.fetch16();
                self.reg.sp = data;
                self.set_cycles(12);
            },
            0x32 => {
                let addr = self.reg.get_hl();
                let data = self.reg.a;
                self.write(addr, data);
                self.reg.set_hl(addr.wrapping_sub(1));
                self.set_cycles(8);
            },
            0x3E => {
                let data = self.fetch();
                self.reg.a = data;
                self.set_cycles(8);
            },
            0x4F => {
                self.reg.c = self.reg.a;
                self.set_cycles(4);
            },
            0x77 => {
                let addr = self.reg.get_hl();
                let data = self.reg.a;
                self.write(addr, data);
                self.set_cycles(8);
            },
            0xAF => {
                let result = self.reg.a ^ self.reg.a;
                self.reg.a = result;
                self.set_flag(Flags::Z, result == 0);
                self.set_flag(Flags::N, false);
                self.set_flag(Flags::H, false);
                self.set_flag(Flags::C, false);
                self.set_cycles(4);
            },
            0xC5 => {
                let b = self.reg.b;
                let c = self.reg.c;
                self.push(b);
                self.push(c);
                self.set_cycles(16);
            },
            0xCB => {
                let sub = self.fetch();
                return self.decode_cb(sub);
            },
            0xCD => {
                let target = self.fetch16();
                let (hi, lo) = split(self.reg.pc);
                self.push(hi);
                self.push(lo);
                self.reg.pc = target;
                self.set_cycles(24);
            },
            0xE0 => {
                let lo = self.fetch();
                let data = self.reg.a;
                self.write(join(0xFF, lo), data);
                self.set_cycles(12);
            },
            0xE2 => {
                let data = self.reg.a;
                self.write(join(0xFF, self.reg.c), data);
                self.set_cycles(8);
            },
            _ => {
                return Err(DecodeError::UnknownOpcode(instruction));
            },
        }
        Ok(())
    }

    /// Executes the 0xCB-prefixed instruction `sub`, whose byte has already
    /// been fetched.
    pub fn decode_cb(&mut self, sub: u8) -> (r: Result<(), DecodeError>)
        ensures
            (final(self).state(), r) == execute_cb(old(self).state(), sub),
    {
        match sub {
            0x11 => {
                let carry = self.get_flag(Flags::C);
                let bit_7 = (self.reg.c >> 7u8) & 1;
                let result = (self.reg.c << 1u8) | carry;
                self.reg.c = result;
                self.set_flag(Flags::Z, result == 0);
                self.set_flag(Flags::N, false);
                self.set_flag(Flags::H, false);
                self.set_flag(Flags::C, bit_7 == 1);
                self.set_cycles(8);
            },
            0x7C => {
                let bit_7 = (self.reg.h >> 7u8) & 1;
                self.set_flag(Flags::Z, bit_7 == 0);
                self.set_flag(Flags::N, false);
                self.set_flag(Flags::H, true);
                self.set_cycles(8);
            },
            _ => {
                return Err(DecodeError::UnknownCbOpcode(sub));
            },
        }
        Ok(())
    }

    /// Fetches the opcode at PC and executes it. An unknown opcode is
    /// returned as an error; the state is then as the fetches left it.
    pub fn step(&mut self) -> (r: Result<(), DecodeError>)
        ensures
            (final(self).state(), r) == step_spec(old(self).state()),
            flags_valid(old(self).reg.f) ==> flags_valid(final(self).reg.f),
    {
        let instruction = self.fetch();
        proof {
            lemma_step_keeps_flags_valid(old(self).state());
        }
        self.decode(instruction)
    }
}

/// Where a relative jump by the signed byte `offset` from `pc` lands.
pub fn relative_jump(pc: u16, offset: u8) -> (r: u16)
    ensures
        r == relative_target(pc, offset),
{
    if offset < 128 {
        pc.wrapping_add(offset as u16)
    } else {
        pc.wrapping_sub(256 - offset as u16)
    }
}

} // verus!
