use vstd::prelude::*;
use crate::bus::MEMORY_SIZE;
use crate::cpu::{
    execute, execute_cb, flags_znh, flags_znhc, rotate_left_through, step_spec, MachineState,
};
use crate::register::{
    flag_of, flags_valid, high_byte, lemma_with_flag, low_byte, with_flag, word, Flags,
};

verus! {

/// The flags that `flags_znh` writes read back as given; C and the low four
/// bits are kept.
pub proof fn lemma_flags_znh(f: u8, z: bool, n: bool, h: bool)
    ensures
        flag_of(flags_znh(f, z, n, h), Flags::Z) == (if z { 1u8 } else { 0u8 }),
        flag_of(flags_znh(f, z, n, h), Flags::N) == (if n { 1u8 } else { 0u8 }),
        flag_of(flags_znh(f, z, n, h), Flags::H) == (if h { 1u8 } else { 0u8 }),
        flag_of(flags_znh(f, z, n, h), Flags::C) == flag_of(f, Flags::C),
        flags_znh(f, z, n, h) & 0x0F == f & 0x0F,
{
    let f1 = with_flag(f, Flags::Z, z);
    let f2 = with_flag(f1, Flags::N, n);
    lemma_with_flag(f, Flags::Z, z);
    lemma_with_flag(f1, Flags::N, n);
    lemma_with_flag(f2, Flags::H, h);
}

/// The flags that `flags_znhc` writes read back as given; the low four bits
/// are kept.
pub proof fn lemma_flags_znhc(f: u8, z: bool, n: bool, h: bool, c: bool)
    ensures
        flag_of(flags_znhc(f, z, n, h, c), Flags::Z) == (if z { 1u8 } else { 0u8 }),
        flag_of(flags_znhc(f, z, n, h, c), Flags::N) == (if n { 1u8 } else { 0u8 }),
        flag_of(flags_znhc(f, z, n, h, c), Flags::H) == (if h { 1u8 } else { 0u8 }),
        flag_of(flags_znhc(f, z, n, h, c), Flags::C) == (if c { 1u8 } else { 0u8 }),
        flags_znhc(f, z, n, h, c) & 0x0F == f & 0x0F,
{
    lemma_flags_znh(f, z, n, h);
    lemma_with_flag(flags_znh(f, z, n, h), Flags::C, c);
}

/// No instruction touches the low four bits of F, so a valid flag register
/// stays valid whatever is executed, recognised or not.
pub proof fn lemma_execute_keeps_flags_valid(s: MachineState, opcode: u8)
    ensures
        execute(s, opcode).0.reg.f & 0x0F == s.reg.f & 0x0F,
        flags_valid(s.reg.f) ==> flags_valid(execute(s, opcode).0.reg.f),
{
    let r = s.reg;
    lemma_flags_znh(r.f, r.c.wrapping_add(1) == 0, false, r.c & 0x0F == 0x0F);
    lemma_flags_znhc(r.f, false, false, false, (r.a >> 7) & 1 == 1);
    lemma_flags_znhc(r.f, r.a ^ r.a == 0, false, false, false);
    let t = s.skip(1);
    let sub = s.next8();
    let c = rotate_left_through(t.reg.c, flag_of(t.reg.f, Flags::C));
    lemma_flags_znhc(t.reg.f, c == 0, false, false, (t.reg.c >> 7) & 1 == 1);
    lemma_flags_znh(t.reg.f, (t.reg.h >> 7) & 1 == 0, false, true);
    if opcode == 0xCB {
        assert(execute(s, opcode) == execute_cb(t, sub));
    }
}

/// A whole step keeps the flag register valid.
pub proof fn lemma_step_keeps_flags_valid(s: MachineState)
    ensures
        flags_valid(s.reg.f) ==> flags_valid(step_spec(s).0.reg.f),
{
    lemma_execute_keeps_flags_valid(s.skip(1), s.next8());
}

/// Each flag-writing instruction leaves Z, N, H and C exactly as its
/// definition says; a flag it does not write keeps its value.
pub proof fn lemma_flag_effects(s: MachineState)
    ensures
        ({
            let r = s.reg;
            let f = execute(s, 0x0C).0.reg.f;
            &&& flag_of(f, Flags::Z) == (if r.c == 0xFF { 1u8 } else { 0u8 })
            &&& flag_of(f, Flags::N) == 0
            &&& flag_of(f, Flags::H) == (if r.c & 0x0F == 0x0F { 1u8 } else { 0u8 })
            &&& flag_of(f, Flags::C) == flag_of(r.f, Flags::C)
        }),
        ({
            let r = s.reg;
            let f = execute(s, 0x17).0.reg.f;
            &&& flag_of(f, Flags::Z) == 0
            &&& flag_of(f, Flags::N) == 0
            &&& flag_of(f, Flags::H) == 0
            &&& flag_of(f, Flags::C) == (r.a >> 7) & 1
        }),
        ({
            let r = s.reg;
            let f = execute_cb(s, 0x11).0.reg.f;
            let c = execute_cb(s, 0x11).0.reg.c;
            &&& flag_of(f, Flags::Z) == (if c == 0 { 1u8 } else { 0u8 })
            &&& flag_of(f, Flags::N) == 0
            &&& flag_of(f, Flags::H) == 0
            &&& flag_of(f, Flags::C) == (r.c >> 7) & 1
        }),
        ({
            let r = s.reg;
            let f = execute_cb(s, 0x7C).0.reg.f;
            &&& flag_of(f, Flags::Z) == (if (r.h >> 7) & 1 == 0 { 1u8 } else { 0u8 })
            &&& flag_of(f, Flags::N) == 0
            &&& flag_of(f, Flags::H) == 1
            &&& flag_of(f, Flags::C) == flag_of(r.f, Flags::C)
        }),
{
    let r = s.reg;
    assert(r.c.wrapping_add(1) == 0 <==> r.c == 0xFF);
    lemma_flags_znh(r.f, r.c.wrapping_add(1) == 0, false, r.c & 0x0F == 0x0F);
    let a = r.a;
    assert((a >> 7) & 1 == 1 || (a >> 7) & 1 == 0) by (bit_vector);
    lemma_flags_znhc(r.f, false, false, false, (r.a >> 7) & 1 == 1);
    let c = rotate_left_through(r.c, flag_of(r.f, Flags::C));
    let rc = r.c;
    assert((rc >> 7) & 1 == 1 || (rc >> 7) & 1 == 0) by (bit_vector);
    lemma_flags_znhc(r.f, c == 0, false, false, (r.c >> 7) & 1 == 1);
    lemma_flags_znh(r.f, (r.h >> 7) & 1 == 0, false, true);
}

/// XOR A clears A and leaves Z set and N, H and C clear, whatever A held.
pub proof fn lemma_xor_a_zeroes(s: MachineState)
    ensures
        execute(s, 0xAF).1 is Ok,
        execute(s, 0xAF).0.reg.a == 0,
        flag_of(execute(s, 0xAF).0.reg.f, Flags::Z) == 1,
        flag_of(execute(s, 0xAF).0.reg.f, Flags::N) == 0,
        flag_of(execute(s, 0xAF).0.reg.f, Flags::H) == 0,
        flag_of(execute(s, 0xAF).0.reg.f, Flags::C) == 0,
{
    let a = s.reg.a;
    assert(a ^ a == 0) by (bit_vector);
    lemma_flags_znhc(s.reg.f, true, false, false, false);
}

/// PUSH BC followed by reading two bytes back off the stack yields B:C and
/// returns SP to where it was; only the two bytes below SP are written.
pub proof fn lemma_push_bc_then_pop(s: MachineState)
    requires
        s.mem.len() == MEMORY_SIZE,
    ensures
        ({
            let t = execute(s, 0xC5).0;
            let (v, u) = t.pop16();
            &&& execute(s, 0xC5).1 is Ok
            &&& t.reg.sp == s.reg.sp.wrapping_sub(2)
            &&& v == s.reg.bc()
            &&& high_byte(v) == s.reg.b
            &&& low_byte(v) == s.reg.c
            &&& u.reg.sp == s.reg.sp
            &&& u.reg.pc == s.reg.pc
        }),
{
    let sp = s.reg.sp;
    let sp1 = sp.wrapping_sub(1);
    let sp2 = sp1.wrapping_sub(1);
    assert(sp2.wrapping_add(1) == sp1);
    assert(sp2.wrapping_add(2) == sp);
    assert(sp2 != sp1);
    let t = execute(s, 0xC5).0;
    assert(t.byte_at(sp2) == s.reg.c);
    assert(t.byte_at(sp1) == s.reg.b);
    assert(high_byte(word(s.reg.b, s.reg.c)) == s.reg.b);
    assert(low_byte(word(s.reg.b, s.reg.c)) == s.reg.c);
}

/// CALL nn jumps to the word after the opcode and leaves the return address,
/// the address just past that word, on the stack: high byte at SP + 1, low
/// byte at SP, with SP two below where it was.
pub proof fn lemma_call_pushes_return(s: MachineState)
    requires
        s.mem.len() == MEMORY_SIZE,
    ensures
        ({
            let t = execute(s, 0xCD).0;
            let ret = s.reg.pc.wrapping_add(2);
            &&& execute(s, 0xCD).1 is Ok
            &&& t.reg.pc == s.next16()
            &&& t.reg.sp == s.reg.sp.wrapping_sub(2)
            &&& t.byte_at(t.reg.sp.wrapping_add(1)) == high_byte(ret)
            &&& t.byte_at(t.reg.sp) == low_byte(ret)
            &&& t.pop16().0 == ret
        }),
{
    let sp = s.reg.sp;
    let sp1 = sp.wrapping_sub(1);
    let sp2 = sp1.wrapping_sub(1);
    assert(sp2.wrapping_add(1) == sp1);
    assert(sp2 != sp1);
    let ret = s.reg.pc.wrapping_add(2);
    let t = execute(s, 0xCD).0;
    assert(t.byte_at(sp2) == low_byte(ret));
    assert(t.byte_at(sp1) == high_byte(ret));
    assert(word(high_byte(ret), low_byte(ret)) == ret);
}

} // verus!
