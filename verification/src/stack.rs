use vstd::prelude::*;

use crate::environment::{
    pop_state,
    pop_value,
    push_state,
    ret_state,
    set_pc_spec,
    peek16_spec,
    peek24_spec,
    poke16_writes,
    poke24_writes,
    wrap_spec,
    push_writes,
    spl_pop_addr,
    spl_pop_state,
    spl_push_addr,
    spl_push_state,
    sps_pop_addr,
    sps_pop_state,
    sps_push_addr,
    sps_push_state,
    wrap16,
    wrap24,
};
use crate::machine::{Machine, byte_after, memory_written};
use crate::opcode_jumps::{call_state, call_writes};
use crate::registers::{Reg16, Registers};
use crate::state::{SizePrefix, State};

verus! {

/*
    What a pop reads back of a push.
*/
proof fn lemma_wrap16_page(mb: u8, v: u16, inc: int)
    requires
        -2 <= inc <= 2,
    ensures
        wrap16((mb * 65536 + v) as u32, inc) == mb * 65536 + (v + inc) % 65536,
{
    let a = mb * 65536 + v;
    assert(a % 0x1000000 == a);
    assert(a % 0x10000 == v as int) by (nonlinear_arith)
        requires a == mb * 65536 + v, 0 <= v < 65536, 0 <= mb;
    assert(a / 0x10000 == mb as int) by (nonlinear_arith)
        requires a == mb * 65536 + v, 0 <= v < 65536, 0 <= mb;
}

proof fn lemma_sps_page(mb: u8, x: int)
    requires
        0 <= x < 65536,
    ensures
        (mb * 65536 + x) % 65536 == x,
{
    assert((mb * 65536 + x) % 65536 == x) by (nonlinear_arith)
        requires
            0 <= x < 65536,
            mb >= 0,
    ;
}

#[verifier::spinoff_prover]
proof fn lemma_sps_push_step(s: State)
    ensures
        sps_push_addr(s) == s.reg.mbase * 65536 + (s.reg.sps + 65535) % 65536,
        sps_push_state(s) == (State { reg: Registers { sps: ((s.reg.sps + 65535) % 65536) as u16, ..s.reg }, ..s }),
{
    let mb = s.reg.mbase;
    let v = s.reg.sps;
    assert(s.reg.get16_mbase_spec(Reg16::SP) == mb * 65536 + v);
    lemma_wrap16_page(mb, v, -1);
    assert((v - 1) % 65536 == (v + 65535) % 65536);
    lemma_sps_page(mb, (v + 65535) % 65536);
}

#[verifier::spinoff_prover]
proof fn lemma_sps_pop_step(s: State)
    ensures
        sps_pop_addr(s) == s.reg.mbase * 65536 + s.reg.sps,
        sps_pop_state(s) == (State { reg: Registers { sps: ((s.reg.sps + 1) % 65536) as u16, ..s.reg }, ..s }),
{
    let mb = s.reg.mbase;
    let v = s.reg.sps;
    assert(s.reg.get16_mbase_spec(Reg16::SP) == mb * 65536 + v);
    lemma_wrap16_page(mb, v, 1);
    lemma_sps_page(mb, (v + 1) % 65536);
}

proof fn lemma_sps_round(v: u16)
    ensures
        ((((v + 65535) % 65536 + 65535) % 65536 + 1) % 65536 + 1) % 65536 == v,
        (((v + 65535) % 65536 + 65535) % 65536 + 1) % 65536 == (v + 65535) % 65536,
{
    if v >= 2 {
        assert((v + 65535) % 65536 == v - 1);
        assert((v - 1 + 65535) % 65536 == v - 2);
    } else if v == 1 {
        assert((v + 65535) % 65536 == 0);
    } else {
        assert((v + 65535) % 65536 == 65535);
    }
}

#[verifier::spinoff_prover]
proof fn lemma_sps_round_state(s: State)
    ensures
        sps_pop_state(sps_pop_state(sps_push_state(sps_push_state(s)))) == s,
{
    let s1 = sps_push_state(s);
    lemma_sps_push_step(s);
    let s2 = sps_push_state(s1);
    lemma_sps_push_step(s1);
    let s3 = sps_pop_state(s2);
    lemma_sps_pop_step(s2);
    let s4 = sps_pop_state(s3);
    lemma_sps_pop_step(s3);
    lemma_sps_round(s.reg.sps);
    assert(s4.reg.sps == s.reg.sps);
    assert(s4.reg == s.reg);
}

proof fn lemma_two_writes<M: Machine>(m0: M, m1: M, a0: u32, v0: u8, a1: u32, v1: u8)
    requires
        memory_written(m0, m1, seq![(a0, v0), (a1, v1)]),
        a0 != a1,
        m0.stores(a0),
        m0.stores(a1),
    ensures
        m1.peek_spec(a0) == v0,
        m1.peek_spec(a1) == v1,
{
    let w = seq![(a0, v0), (a1, v1)];
    reveal_with_fuel(byte_after, 3);
    assert(w.drop_last() =~= seq![(a0, v0)]);
    assert(w.drop_last().drop_last() =~= Seq::<(u32, u8)>::empty());
    assert(m1.peek_spec(a0) == byte_after(m0, w, a0));
    assert(m1.peek_spec(a1) == byte_after(m0, w, a1));
}

proof fn lemma_three_writes<M: Machine>(m0: M, m1: M, a0: u32, v0: u8, a1: u32, v1: u8, a2: u32, v2: u8)
    requires
        memory_written(m0, m1, seq![(a0, v0), (a1, v1), (a2, v2)]),
        a0 != a1,
        a0 != a2,
        a1 != a2,
        m0.stores(a0),
        m0.stores(a1),
        m0.stores(a2),
    ensures
        m1.peek_spec(a0) == v0,
        m1.peek_spec(a1) == v1,
        m1.peek_spec(a2) == v2,
{
    let w = seq![(a0, v0), (a1, v1), (a2, v2)];
    reveal_with_fuel(byte_after, 4);
    assert(w.drop_last() =~= seq![(a0, v0), (a1, v1)]);
    assert(w.drop_last().drop_last() =~= seq![(a0, v0)]);
    assert(w.drop_last().drop_last().drop_last() =~= Seq::<(u32, u8)>::empty());
    assert(m1.peek_spec(a0) == byte_after(m0, w, a0));
    assert(m1.peek_spec(a1) == byte_after(m0, w, a1));
    assert(m1.peek_spec(a2) == byte_after(m0, w, a2));
}

proof fn lemma_bytes_of_word(v: u32)
    ensures
        (v % 256) as u8 + 256 * ((v / 256 % 256) as u8) == v % 0x10000,
        (v % 256) as u8 + 256 * ((v / 256 % 256) as u8) + 65536 * ((v / 65536 % 256) as u8) == v % 0x1000000,
{
    assert((v % 256) as u8 + 256 * ((v / 256 % 256) as u8) == v % 0x10000) by (bit_vector);
    assert((v % 256) as u8 + 256 * ((v / 256 % 256) as u8) + 65536 * ((v / 65536 % 256) as u8) == v % 0x1000000)
        by (bit_vector);
}


#[verifier::spinoff_prover]
proof fn lemma_sps_pop_value<M: Machine>(s: State, m0: M, m1: M, value: u32)
    requires
        memory_written(
            m0,
            m1,
            seq![
                (sps_push_addr(s), (value / 256 % 256) as u8),
                (sps_push_addr(sps_push_state(s)), (value % 256) as u8),
            ],
        ),
        m0.stores(sps_push_addr(s)),
        m0.stores(sps_push_addr(sps_push_state(s))),
    ensures
        ({
            let t = sps_push_state(sps_push_state(s));
            m1.peek_spec(sps_pop_addr(t)) + 256 * m1.peek_spec(sps_pop_addr(sps_pop_state(t))) == value % 0x10000
        }),
{
    let v = s.reg.sps;
    let s1 = sps_push_state(s);
    lemma_sps_push_step(s);
    let s2 = sps_push_state(s1);
    lemma_sps_push_step(s1);
    let a0 = sps_push_addr(s);
    let a1 = sps_push_addr(s1);
    let h = (value / 256 % 256) as u8;
    let l = (value % 256) as u8;
    lemma_sps_round(v);
    assert(a0 != a1);
    lemma_two_writes(m0, m1, a0, h, a1, l);
    let s3 = sps_pop_state(s2);
    lemma_sps_pop_step(s2);
    lemma_sps_pop_step(s3);
    assert(sps_pop_addr(s2) == a1);
    assert(sps_pop_addr(s3) == a0);
    lemma_bytes_of_word(value);
}

#[verifier::spinoff_prover]
proof fn lemma_push_then_pop_short<M: Machine>(s: State, m0: M, m1: M, value: u32)
    requires
        !s.is_op_long_spec(),
        memory_written(m0, m1, push_writes(s, value)),
        m0.stores(sps_push_addr(s)),
        m0.stores(sps_push_addr(sps_push_state(s))),
    ensures
        pop_value(push_state(s), m1) == value % 0x10000,
        pop_state(push_state(s)) == s,
{
    let t = sps_push_state(sps_push_state(s));
    assert(push_state(s) == t);
    lemma_sps_pop_value(s, m0, m1, value);
    lemma_sps_round_state(s);
}

/// SPL with the 24 bit value `v`, byte by byte.
spec fn with_spl(r: Registers, v: int) -> Registers {
    Registers { splu: (v / 65536 % 256) as u8, splh: (v / 256 % 256) as u8, spll: (v % 256) as u8, ..r }
}

proof fn lemma_spl_bytes(v: u32)
    requires
        v < 0x1000000,
    ensures
        ((v / 65536 % 256) as u8) * 65536 + ((v / 256 % 256) as u8) * 256 + ((v % 256) as u8) == v,
{
    assert(((v / 65536 % 256) as u8) * 65536 + ((v / 256 % 256) as u8) * 256 + ((v % 256) as u8) == v) by (bit_vector)
        requires
            v < 0x1000000,
    ;
}

proof fn lemma_with_spl_get(r: Registers, y: u32)
    requires
        y < 0x1000000,
    ensures
        with_spl(r, y as int).get24_spec(Reg16::SP) == y,
{
    lemma_spl_bytes(y);
}

proof fn lemma_spl_push_step(s: State)
    requires
        s.reg.get24_spec(Reg16::SP) >= 1,
    ensures
        spl_push_addr(s) == s.reg.get24_spec(Reg16::SP) - 1,
        spl_push_state(s) == (State { reg: with_spl(s.reg, s.reg.get24_spec(Reg16::SP) - 1), ..s }),
        spl_push_state(s).reg.get24_spec(Reg16::SP) == s.reg.get24_spec(Reg16::SP) - 1,
{
    let x = s.reg.get24_spec(Reg16::SP);
    let y = (x - 1) as u32;
    assert(wrap24(x, -1) == y);
    assert(s.reg.set24_spec(Reg16::SP, y) == with_spl(s.reg, y as int));
    lemma_with_spl_get(s.reg, y);
}

proof fn lemma_spl_pop_step(s: State)
    requires
        s.reg.get24_spec(Reg16::SP) < 0xffffff,
    ensures
        spl_pop_addr(s) == s.reg.get24_spec(Reg16::SP),
        spl_pop_state(s) == (State { reg: with_spl(s.reg, s.reg.get24_spec(Reg16::SP) + 1), ..s }),
        spl_pop_state(s).reg.get24_spec(Reg16::SP) == s.reg.get24_spec(Reg16::SP) + 1,
{
    let x = s.reg.get24_spec(Reg16::SP);
    let y = (x + 1) as u32;
    assert(wrap24(x, 1) == y);
    assert(s.reg.set24_spec(Reg16::SP, y) == with_spl(s.reg, y as int));
    lemma_with_spl_get(s.reg, y);
}

proof fn lemma_triple_bytes(u: u8, h: u8, l: u8)
    ensures
        ((u * 65536 + h * 256 + l) as u32) / 65536 % 256 == u,
        ((u * 65536 + h * 256 + l) as u32) / 256 % 256 == h,
        ((u * 65536 + h * 256 + l) as u32) % 256 == l,
{
    assert(((u * 65536 + h * 256 + l) as u32) / 65536 % 256 == u && ((u * 65536 + h * 256 + l) as u32) / 256 % 256
        == h && ((u * 65536 + h * 256 + l) as u32) % 256 == l) by (bit_vector);
}

#[verifier::spinoff_prover]
proof fn lemma_spl_round(s: State)
    requires
        s.reg.get24_spec(Reg16::SP) >= 3,
    ensures
        spl_pop_state(spl_pop_state(spl_pop_state(spl_push_state(spl_push_state(spl_push_state(s)))))) == s,
{
    let s1 = spl_push_state(s);
    lemma_spl_push_step(s);
    let s2 = spl_push_state(s1);
    lemma_spl_push_step(s1);
    let s3 = spl_push_state(s2);
    lemma_spl_push_step(s2);
    let p1 = spl_pop_state(s3);
    lemma_spl_pop_step(s3);
    let p2 = spl_pop_state(p1);
    lemma_spl_pop_step(p1);
    let p3 = spl_pop_state(p2);
    lemma_spl_pop_step(p2);
    lemma_triple_bytes(s.reg.splu, s.reg.splh, s.reg.spll);
    assert(p3.reg == s.reg);
}

#[verifier::spinoff_prover]
proof fn lemma_spl_pop_value<M: Machine>(s: State, m0: M, m1: M, value: u32)
    requires
        s.reg.get24_spec(Reg16::SP) >= 3,
        memory_written(
            m0,
            m1,
            seq![
                (spl_push_addr(s), (value / 65536 % 256) as u8),
                (spl_push_addr(spl_push_state(s)), (value / 256 % 256) as u8),
                (spl_push_addr(spl_push_state(spl_push_state(s))), (value % 256) as u8),
            ],
        ),
        m0.stores(spl_push_addr(s)),
        m0.stores(spl_push_addr(spl_push_state(s))),
        m0.stores(spl_push_addr(spl_push_state(spl_push_state(s)))),
    ensures
        ({
            let t = spl_push_state(spl_push_state(spl_push_state(s)));
            let t1 = spl_pop_state(t);
            let t2 = spl_pop_state(t1);
            m1.peek_spec(spl_pop_addr(t)) + 256 * m1.peek_spec(spl_pop_addr(t1)) + 65536 * m1.peek_spec(spl_pop_addr(t2))
                == value % 0x1000000
        }),
{
    let x = s.reg.get24_spec(Reg16::SP);
    let s1 = spl_push_state(s);
    lemma_spl_push_step(s);
    let s2 = spl_push_state(s1);
    lemma_spl_push_step(s1);
    let s3 = spl_push_state(s2);
    lemma_spl_push_step(s2);
    let u = (value / 65536 % 256) as u8;
    let h = (value / 256 % 256) as u8;
    let l = (value % 256) as u8;
    lemma_three_writes(m0, m1, (x - 1) as u32, u, (x - 2) as u32, h, (x - 3) as u32, l);
    let p1 = spl_pop_state(s3);
    lemma_spl_pop_step(s3);
    let p2 = spl_pop_state(p1);
    lemma_spl_pop_step(p1);
    lemma_bytes_of_word(value);
}

#[verifier::spinoff_prover]
proof fn lemma_push_then_pop_long<M: Machine>(s: State, m0: M, m1: M, value: u32)
    requires
        s.is_op_long_spec(),
        s.reg.get24_spec(Reg16::SP) >= 3,
        memory_written(m0, m1, push_writes(s, value)),
        m0.stores(spl_push_addr(s)),
        m0.stores(spl_push_addr(spl_push_state(s))),
        m0.stores(spl_push_addr(spl_push_state(spl_push_state(s)))),
    ensures
        pop_value(push_state(s), m1) == value % 0x1000000,
        pop_state(push_state(s)) == s,
{
    let t = spl_push_state(spl_push_state(spl_push_state(s)));
    assert(push_state(s) == t);
    lemma_spl_pop_value(s, m0, m1, value);
    lemma_spl_round(s);
}

/// The machine stores the bytes that a push writes.
pub open spec fn push_stored<M: Machine>(s: State, m: M) -> bool {
    if s.is_op_long_spec() {
        &&& m.stores(spl_push_addr(s))
        &&& m.stores(spl_push_addr(spl_push_state(s)))
        &&& m.stores(spl_push_addr(spl_push_state(spl_push_state(s))))
    } else {
        &&& m.stores(sps_push_addr(s))
        &&& m.stores(sps_push_addr(sps_push_state(s)))
    }
}

/// A value pushed on the stack is popped back (its low 16 bits, or 24 bits
/// in long mode), and the pop puts the stack pointer back where it was.
/// The machine must store the bytes pushed; in long mode SPL must be at
/// least 3, so that the three bytes do not wrap around.
#[verifier::spinoff_prover]
pub proof fn lemma_push_then_pop<M: Machine>(s: State, m0: M, m1: M, value: u32)
    requires
        memory_written(m0, m1, push_writes(s, value)),
        push_stored(s, m0),
        s.is_op_long_spec() ==> s.reg.get24_spec(Reg16::SP) >= 3,
    ensures
        pop_value(push_state(s), m1) == (if s.is_op_long_spec() { value % 0x1000000 } else { value % 0x10000 }),
        pop_state(push_state(s)) == s,
{
    if s.is_op_long_spec() {
        lemma_push_then_pop_long(s, m0, m1, value);
    } else {
        lemma_push_then_pop_short(s, m0, m1, value);
    }
}

/// A RET right after an unprefixed CALL (or RST) that saved `pc` jumps back
/// to `pc` (its low 16 bits in Z80 mode, 24 bits in ADL mode) and leaves
/// every register but PC as it was before the call, whatever address
/// `target` the call jumped to. The machine must store the bytes pushed;
/// in ADL mode SPL must be at least 3.
#[verifier::spinoff_prover]
pub proof fn lemma_call_then_ret<M: Machine>(s: State, m0: M, m1: M, pc: u32, target: u32)
    requires
        s.sz_prefix == SizePrefix::NoPrefix,
        memory_written(m0, m1, call_writes(s, pc)),
        push_stored(s, m0),
        s.reg.adl ==> s.reg.get24_spec(Reg16::SP) >= 3,
    ensures
        ret_state(set_pc_spec(call_state(s, pc), target), m1) == set_pc_spec(
            s,
            if s.reg.adl { pc % 0x1000000 } else { pc % 0x10000 },
        ),
{
    assert(call_state(s, pc) == push_state(s));
    assert(call_writes(s, pc) == push_writes(s, pc));
    lemma_push_then_pop(s, m0, m1, pc);
    let t = push_state(s);
    let u = set_pc_spec(t, target);
    assert(pop_value(u, m1) == pop_value(t, m1));
    assert(pop_state(u) == set_pc_spec(pop_state(t), target));
}

proof fn lemma_wrap_distinct(s: State, a: u32)
    ensures
        wrap_spec(s, a, 1) != a,
        wrap_spec(s, a, 2) != a,
        wrap_spec(s, a, 1) != wrap_spec(s, a, 2),
{
}

/// A 16 bit value written by `poke16` is read back by `peek16`, where the
/// machine stores both bytes (the second byte stays in the 64K page when
/// the data size is 16 bits).
pub proof fn lemma_poke16_then_peek16<M: Machine>(s: State, m0: M, m1: M, a: u32, v: u16)
    requires
        memory_written(m0, m1, poke16_writes(s, a, v)),
        m0.stores(a),
        m0.stores(wrap_spec(s, a, 1)),
    ensures
        peek16_spec(s, m1, a) == v,
{
    lemma_wrap_distinct(s, a);
    lemma_two_writes(m0, m1, a, (v % 256) as u8, wrap_spec(s, a, 1), (v / 256) as u8);
}

/// A value written by `poke24` is read back by `peek24` (its low 24 bits),
/// where the machine stores the three bytes.
pub proof fn lemma_poke24_then_peek24<M: Machine>(s: State, m0: M, m1: M, a: u32, v: u32)
    requires
        memory_written(m0, m1, poke24_writes(s, a, v)),
        m0.stores(a),
        m0.stores(wrap_spec(s, a, 1)),
        m0.stores(wrap_spec(s, a, 2)),
    ensures
        peek24_spec(s, m1, a) == v % 0x1000000,
{
    lemma_wrap_distinct(s, a);
    lemma_three_writes(
        m0,
        m1,
        a,
        (v % 256) as u8,
        wrap_spec(s, a, 1),
        (v / 256 % 256) as u8,
        wrap_spec(s, a, 2),
        (v / 65536 % 256) as u8,
    );
    lemma_bytes_of_word(v);
}

/// RET undoes `subroutine_call`, the call that interrupts and NMIs make:
/// after an unprefixed return the state is the one before the call, with
/// the program counter back where it was (the PC register keeps the low 16
/// bits in Z80 mode). The machine must store the bytes pushed; in ADL mode
/// SPL must be at least 3.
#[verifier::spinoff_prover]
pub proof fn lemma_subroutine_call_then_return<M: Machine>(s: State, m0: M, m1: M, target: u32)
    requires
        s.sz_prefix == SizePrefix::NoPrefix,
        memory_written(m0, m1, push_writes(s, s.pc_spec())),
        push_stored(s, m0),
        s.reg.adl ==> s.reg.get24_spec(Reg16::SP) >= 3,
    ensures
        ret_state(set_pc_spec(push_state(s), target), m1) == set_pc_spec(
            s,
            if s.reg.adl { s.pc_spec() % 0x1000000 } else { s.pc_spec() % 0x10000 },
        ),
        s.reg.pc < 0x1000000 ==> ret_state(set_pc_spec(push_state(s), target), m1).pc_spec() == s.pc_spec(),
{
    let v: u32 = if s.reg.adl { s.pc_spec() % 0x1000000 } else { s.pc_spec() % 0x10000 };
    assert(ret_state(set_pc_spec(push_state(s), target), m1) == set_pc_spec(s, v)) by {
        lemma_no_prefix_call(s, s.pc_spec());
        lemma_call_then_ret(s, m0, m1, s.pc_spec(), target);
    }
    lemma_set_pc_back(s);
}

proof fn lemma_no_prefix_call(s: State, pc: u32)
    requires
        s.sz_prefix == SizePrefix::NoPrefix,
    ensures
        call_state(s, pc) == push_state(s),
        call_writes(s, pc) == push_writes(s, pc),
{
}

proof fn lemma_set_pc_back(s: State)
    ensures
        s.reg.pc < 0x1000000 ==> set_pc_spec(
            s,
            if s.reg.adl { s.pc_spec() % 0x1000000 } else { s.pc_spec() % 0x10000 },
        ).pc_spec() == s.pc_spec(),
{
    if !s.reg.adl {
        lemma_sps_page(s.reg.mbase, (s.reg.pc % 65536) as int);
    }
}

} // verus!
