use vstd::prelude::*;

use crate::environment::{
    Environment,
    reg16or24_ext_spec,
    reg8_ext_spec,
    set_reg16or24_state,
    set_reg_state,
    set_reg_writes,
    translate_spec,
    with_reg,
};
use crate::machine::{Machine, lemma_no_writes, memory_written};
use crate::opcode::{Action, Opcode, is_op};
use crate::operators::{Operator, alu_spec, apply_operator};
use crate::registers::{Flag, Reg16, Reg8, Registers, flags53_spec, parity_even, sz53_spec, with_bits};
use crate::state::State;

verus! {

/*
    Arithmetic: 8 bit increments and decrements, 16 and 24 bit arithmetic,
    and the instructions on A and the flags (DAA, CPL, NEG, SCF, CCF).
*/

/// F after INC of `a`: S, Z, 5 and 3 from the result, H on a carry out of
/// bit 3, P/V on overflow (0x7f), N cleared, C kept.
pub open spec fn inc_flags(f: u8, a: u8) -> u8 {
    let v = ((a + 1) % 256) as u8;
    with_bits(with_bits(with_bits(sz53_spec(f, v), 16, a % 16 == 15), 4, a == 0x7f), 2, false)
}

/// F after DEC of `a`: S, Z, 5 and 3 from the result, H on a borrow into
/// bit 3, P/V on overflow (0x80), N set, C kept.
pub open spec fn dec_flags(f: u8, a: u8) -> u8 {
    let v = ((a + 255) % 256) as u8;
    with_bits(with_bits(with_bits(sz53_spec(f, v), 16, a % 16 == 0), 4, a == 0x80), 2, true)
}

fn operator_inc(reg: &mut Registers, a: u8) -> (v: u8)
    ensures
        v == (a + 1) % 256,
        *final(reg) == (Registers { f: inc_flags(old(reg).f, a), ..*old(reg) }),
{
    let v = a.wrapping_add(1);
    reg.update_sz53_flags(v);
    reg.put_flag(Flag::H, a % 16 == 15);
    reg.put_flag(Flag::P, a == 0x7f);
    reg.clear_flag(Flag::N);
    v
}

fn operator_dec(reg: &mut Registers, a: u8) -> (v: u8)
    ensures
        v == (a + 255) % 256,
        *final(reg) == (Registers { f: dec_flags(old(reg).f, a), ..*old(reg) }),
{
    let v = a.wrapping_sub(1);
    reg.update_sz53_flags(v);
    reg.put_flag(Flag::H, a % 16 == 0);
    reg.put_flag(Flag::P, a == 0x80);
    reg.set_flag(Flag::N);
    v
}

/// The state after INC r or DEC r: the operand is a register or (HL),
/// (IX+d), (IY+d).
pub open spec fn inc_dec_r_state<M: Machine>(s: State, m: M, r: Reg8, inc: bool) -> State {
    let a = reg8_ext_spec(s, m, r);
    let f = if inc { inc_flags(s.reg.f, a) } else { dec_flags(s.reg.f, a) };
    let v = (if inc { (a + 1) % 256 } else { (a + 255) % 256 }) as u8;
    set_reg_state(with_reg(s, Registers { f: f, ..s.reg }), r, v)
}

pub open spec fn inc_dec_r_writes<M: Machine>(s: State, m: M, r: Reg8, inc: bool) -> Seq<(u32, u8)> {
    let a = reg8_ext_spec(s, m, r);
    let f = if inc { inc_flags(s.reg.f, a) } else { dec_flags(s.reg.f, a) };
    let v = (if inc { (a + 1) % 256 } else { (a + 255) % 256 }) as u8;
    set_reg_writes(with_reg(s, Registers { f: f, ..s.reg }), r, v)
}

/// INC r
pub fn exec_inc_r<'a, M: Machine>(env: &mut Environment<'a, M>, r: Reg8)
    ensures
        *final(env).state == inc_dec_r_state(*old(env).state, *old(env).sys, r, true),
        memory_written(*old(env).sys, *final(env).sys, inc_dec_r_writes(*old(env).state, *old(env).sys, r, true)),
        *final(final(env).state) == *final(old(env).state),
        *final(final(env).sys) == *final(old(env).sys),
{
    let a = env.reg8_ext(r);
    let v = operator_inc(&mut env.state.reg, a);
    env.set_reg(r, v);
    proof {
        if r != Reg8::_HL {
            lemma_no_writes(*env.sys);
        }
    }
}

/// DEC r
pub fn exec_dec_r<'a, M: Machine>(env: &mut Environment<'a, M>, r: Reg8)
    ensures
        *final(env).state == inc_dec_r_state(*old(env).state, *old(env).sys, r, false),
        memory_written(*old(env).sys, *final(env).sys, inc_dec_r_writes(*old(env).state, *old(env).sys, r, false)),
        *final(final(env).state) == *final(old(env).state),
        *final(final(env).sys) == *final(old(env).sys),
{
    let a = env.reg8_ext(r);
    let v = operator_dec(&mut env.state.reg, a);
    env.set_reg(r, v);
    proof {
        if r != Reg8::_HL {
            lemma_no_writes(*env.sys);
        }
    }
}

pub open spec fn inc_r_op(r: Reg8) -> (Action, Seq<char>) {
    (Action::IncR(r), "INC "@ + r.name_spec())
}

pub fn build_inc_r(r: Reg8) -> (op: Opcode)
    ensures
        is_op(op, inc_r_op(r)),
{
    let mut name = String::from_str("INC ");
    name.append(r.name());
    Opcode { name, action: Action::IncR(r) }
}

pub open spec fn dec_r_op(r: Reg8) -> (Action, Seq<char>) {
    (Action::DecR(r), "DEC "@ + r.name_spec())
}

pub fn build_dec_r(r: Reg8) -> (op: Opcode)
    ensures
        is_op(op, dec_r_op(r)),
{
    let mut name = String::from_str("DEC ");
    name.append(r.name());
    Opcode { name, action: Action::DecR(r) }
}

// 16 and 24 bit arithmetic

/// The size of the values of the 16 or 24 bit instructions: 2^24 in long
/// mode, 2^16 otherwise.
pub open spec fn width_mod(s: State) -> int {
    if s.is_op_long_spec() {
        0x1000000
    } else {
        0x10000
    }
}

/// A register pair operand is below the size of the values.
pub proof fn lemma_ext_bound(s: State, rr: Reg16)
    ensures
        reg16or24_ext_spec(s, rr) < width_mod(s),
{
}

/// INC rr and DEC rr: the register pair (HL is the index register) one
/// more or one less, modulo the size of the values. Flags are kept.
pub open spec fn inc_dec_rr_state(s: State, rr: Reg16, inc: bool) -> State {
    let v = reg16or24_ext_spec(s, rr);
    let w = width_mod(s);
    let r = (if inc { (v + 1) % w } else { (v + w - 1) % w }) as u32;
    set_reg16or24_state(s, rr, r)
}

/// INC rr or DEC rr
pub fn exec_inc_dec_rr<'a, M: Machine>(env: &mut Environment<'a, M>, rr: Reg16, inc: bool)
    ensures
        *final(env).state == inc_dec_rr_state(*old(env).state, rr, inc),
        memory_written(*old(env).sys, *final(env).sys, seq![]),
        *final(final(env).state) == *final(old(env).state),
        *final(final(env).sys) == *final(old(env).sys),
{
    let modulus: u32 = if env.state.is_op_long() {
        0x1000000
    } else {
        0x10000
    };
    let v = env.reg16or24_ext(rr);
    proof {
        lemma_ext_bound(*env.state, rr);
    }
    let r = if inc {
        (v + 1) % modulus
    } else {
        (v + modulus - 1) % modulus
    };
    env.set_reg16or24(rr, r);
    proof {
        lemma_no_writes(*env.sys);
    }
}

pub open spec fn inc_dec_rr_op(rr: Reg16, inc: bool) -> (Action, Seq<char>) {
    (Action::IncDecRR(rr, inc), (if inc { "INC "@ } else { "DEC "@ }) + rr.name_spec())
}

pub fn build_inc_dec_rr(rr: Reg16, inc: bool) -> (op: Opcode)
    ensures
        is_op(op, inc_dec_rr_op(rr, inc)),
{
    let mut name = if inc {
        String::from_str("INC ")
    } else {
        String::from_str("DEC ")
    };
    name.append(rr.name());
    Opcode { name, action: Action::IncDecRR(rr, inc) }
}

/// F of ADD HL, rr: 5 and 3 from the high byte of the result, N cleared,
/// C on a carry out of the top bit, H on a carry out of bit 11. S, Z and
/// P/V are kept.
pub open spec fn add_wide_flags(f: u8, a: u32, b: u32, w: int) -> u8 {
    let sum = a + b;
    let v = sum % w;
    let f1 = flags53_spec(f, (v / 256 % 256) as u8);
    let f2 = with_bits(f1, 2, false);
    let f3 = with_bits(f2, 1, sum >= w);
    with_bits(f3, 16, a % 0x1000 + b % 0x1000 >= 0x1000)
}

/// ADD HL, rr: the index register (HL, IX or IY) plus the pair, on 16 or
/// 24 bits.
pub open spec fn add_hl_rr_state(s: State, rr: Reg16) -> State {
    let a = reg16or24_ext_spec(s, Reg16::HL);
    let b = reg16or24_ext_spec(s, rr);
    let w = width_mod(s);
    let s1 = with_reg(s, Registers { f: add_wide_flags(s.reg.f, a, b, w), ..s.reg });
    set_reg16or24_state(s1, Reg16::HL, ((a + b) % w) as u32)
}

/// ADD HL, rr
pub fn exec_add_hl_rr<'a, M: Machine>(env: &mut Environment<'a, M>, rr: Reg16)
    ensures
        *final(env).state == add_hl_rr_state(*old(env).state, rr),
        memory_written(*old(env).sys, *final(env).sys, seq![]),
        *final(final(env).state) == *final(old(env).state),
        *final(final(env).sys) == *final(old(env).sys),
{
    let modulus: u32 = if env.state.is_op_long() {
        0x1000000
    } else {
        0x10000
    };
    let a = env.reg16or24_ext(Reg16::HL);
    let b = env.reg16or24_ext(rr);
    proof {
        lemma_ext_bound(*env.state, Reg16::HL);
        lemma_ext_bound(*env.state, rr);
    }
    let sum = a + b;
    let v = sum % modulus;
    env.state.reg.update_53_flags((v / 256 % 256) as u8);
    env.state.reg.clear_flag(Flag::N);
    env.state.reg.put_flag(Flag::C, sum >= modulus);
    env.state.reg.put_flag(Flag::H, a % 0x1000 + b % 0x1000 >= 0x1000);
    env.set_reg16or24(Reg16::HL, v);
    proof {
        lemma_no_writes(*env.sys);
    }
}

pub open spec fn add_hl_rr_op(rr: Reg16) -> (Action, Seq<char>) {
    (Action::AddHlRR(rr), "ADD HL, "@ + rr.name_spec())
}

pub fn build_add_hl_rr(rr: Reg16) -> (op: Opcode)
    ensures
        is_op(op, add_hl_rr_op(rr)),
{
    let mut name = String::from_str("ADD HL, ");
    name.append(rr.name());
    Opcode { name, action: Action::AddHlRR(rr) }
}

/// F of ADC HL, rr and SBC HL, rr on `a` and `b` with carry `c` and result
/// `v`: S from the top bit, Z, 5 and 3 from the high byte, H on a carry or
/// borrow at bit 11, P/V on signed overflow, N for the subtraction, C on a
/// carry or borrow out of the top bit.
pub open spec fn carry_wide_flags(f: u8, a: u32, b: u32, c: int, w: int, sub: bool) -> u8 {
    let half = w / 2;
    let v = if sub { (a - b - c) % w } else { (a + b + c) % w };
    let f1 = with_bits(f, 128, v >= half);
    let f2 = with_bits(f1, 64, v == 0);
    let f3 = flags53_spec(f2, (v / 256 % 256) as u8);
    let f4 = with_bits(
        f3,
        16,
        if sub {
            a % 0x1000 < b % 0x1000 + c
        } else {
            a % 0x1000 + b % 0x1000 + c >= 0x1000
        },
    );
    let f5 = with_bits(
        f4,
        4,
        if sub {
            (a >= half) != (b >= half) && (v >= half) != (a >= half)
        } else {
            (a >= half) == (b >= half) && (v >= half) != (a >= half)
        },
    );
    let f6 = with_bits(f5, 2, sub);
    with_bits(f6, 1, if sub { a < b + c } else { a + b + c >= w })
}

/// ADC HL, rr and SBC HL, rr: HL plus or minus the pair and the carry.
pub open spec fn carry_hl_rr_state(s: State, rr: Reg16, sub: bool) -> State {
    let a = reg16or24_ext_spec(s, Reg16::HL);
    let b = reg16or24_ext_spec(s, rr);
    let c: int = if s.reg.f % 2 == 1 {
        1
    } else {
        0
    };
    let w = width_mod(s);
    let v = if sub { (a - b - c) % w } else { (a + b + c) % w };
    let s1 = with_reg(s, Registers { f: carry_wide_flags(s.reg.f, a, b, c, w, sub), ..s.reg });
    set_reg16or24_state(s1, Reg16::HL, v as u32)
}

fn put_carry_wide_flags(reg: &mut Registers, a: u32, b: u32, c: u32, w: u32, sub: bool, v: u32)
    requires
        w == 0x10000 || w == 0x1000000,
        a < w,
        b < w,
        c <= 1,
        v == (if sub { (a - b - c) % (w as int) } else { (a + b + c) % (w as int) }),
    ensures
        *final(reg) == (Registers { f: carry_wide_flags(old(reg).f, a, b, c as int, w as int, sub), ..*old(reg) }),
{
    let half = w / 2;
    reg.put_flag(Flag::S, v >= half);
    reg.put_flag(Flag::Z, v == 0);
    reg.update_53_flags((v / 256 % 256) as u8);
    if sub {
        reg.put_flag(Flag::H, a % 0x1000 < b % 0x1000 + c);
        reg.put_flag(Flag::P, (a >= half) != (b >= half) && (v >= half) != (a >= half));
    } else {
        reg.put_flag(Flag::H, a % 0x1000 + b % 0x1000 + c >= 0x1000);
        reg.put_flag(Flag::P, (a >= half) == (b >= half) && (v >= half) != (a >= half));
    }
    reg.put_flag(Flag::N, sub);
    if sub {
        reg.put_flag(Flag::C, a < b + c);
    } else {
        reg.put_flag(Flag::C, a + b + c >= w);
    }
}

fn carry_wide_result(a: u32, b: u32, c: u32, w: u32, sub: bool) -> (v: u32)
    requires
        w == 0x10000 || w == 0x1000000,
        a < w,
        b < w,
        c <= 1,
    ensures
        v == (if sub { (a - b - c) % (w as int) } else { (a + b + c) % (w as int) }),
        v < w,
{
    if sub {
        if a >= b + c {
            a - b - c
        } else {
            a + w - b - c
        }
    } else {
        (a + b + c) % w
    }
}

fn exec_carry_hl_rr<'a, M: Machine>(env: &mut Environment<'a, M>, rr: Reg16, sub: bool)
    ensures
        *final(env).state == carry_hl_rr_state(*old(env).state, rr, sub),
        memory_written(*old(env).sys, *final(env).sys, seq![]),
        *final(final(env).state) == *final(old(env).state),
        *final(final(env).sys) == *final(old(env).sys),
{
    let modulus: u32 = if env.state.is_op_long() {
        0x1000000
    } else {
        0x10000
    };
    let a = env.reg16or24_ext(Reg16::HL);
    let b = env.reg16or24_ext(rr);
    proof {
        lemma_ext_bound(*env.state, Reg16::HL);
        lemma_ext_bound(*env.state, rr);
    }
    let c: u32 = if env.state.reg.f % 2 == 1 {
        1
    } else {
        0
    };
    let v = carry_wide_result(a, b, c, modulus, sub);
    put_carry_wide_flags(&mut env.state.reg, a, b, c, modulus, sub, v);
    env.set_reg16or24(Reg16::HL, v);
    proof {
        lemma_no_writes(*env.sys);
    }
}

/// ADC HL, rr
pub fn exec_adc_hl_rr<'a, M: Machine>(env: &mut Environment<'a, M>, rr: Reg16)
    ensures
        *final(env).state == carry_hl_rr_state(*old(env).state, rr, false),
        memory_written(*old(env).sys, *final(env).sys, seq![]),
        *final(final(env).state) == *final(old(env).state),
        *final(final(env).sys) == *final(old(env).sys),
{
    exec_carry_hl_rr(env, rr, false);
}

/// SBC HL, rr
pub fn exec_sbc_hl_rr<'a, M: Machine>(env: &mut Environment<'a, M>, rr: Reg16)
    ensures
        *final(env).state == carry_hl_rr_state(*old(env).state, rr, true),
        memory_written(*old(env).sys, *final(env).sys, seq![]),
        *final(final(env).state) == *final(old(env).state),
        *final(final(env).sys) == *final(old(env).sys),
{
    exec_carry_hl_rr(env, rr, true);
}

pub open spec fn adc_hl_rr_op(rr: Reg16) -> (Action, Seq<char>) {
    (Action::AdcHlRR(rr), "ADC HL, "@ + rr.name_spec())
}

pub fn build_adc_hl_rr(rr: Reg16) -> (op: Opcode)
    ensures
        is_op(op, adc_hl_rr_op(rr)),
{
    let mut name = String::from_str("ADC HL, ");
    name.append(rr.name());
    Opcode { name, action: Action::AdcHlRR(rr) }
}

pub open spec fn sbc_hl_rr_op(rr: Reg16) -> (Action, Seq<char>) {
    (Action::SbcHlRR(rr), "SBC HL, "@ + rr.name_spec())
}

pub fn build_sbc_hl_rr(rr: Reg16) -> (op: Opcode)
    ensures
        is_op(op, sbc_hl_rr_op(rr)),
{
    let mut name = String::from_str("SBC HL, ");
    name.append(rr.name());
    Opcode { name, action: Action::SbcHlRR(rr) }
}

// Instructions on A and the flags

/// The result of DAA and its H and C flags.
pub open spec fn daa_spec(a: u8, f: u8) -> (u8, bool, bool) {
    let hi = a / 16;
    let lo = a % 16;
    let nf = f & 2 != 0;
    let cf = f & 1 != 0;
    let hf = f & 16 != 0;
    let lo6 = hf || lo > 9;
    let hi6 = cf || hi > 9 || (hi == 9 && lo > 9);
    let diff: int = (if lo6 { 6int } else { 0int }) + (if hi6 { 0x60int } else { 0int });
    let v = (if nf { (a - diff) % 256 } else { (a + diff) % 256 }) as u8;
    (v, (!nf && lo > 9) || (nf && hf && lo < 6), hi6)
}

/// DAA: decimal adjust of A after a BCD addition or subtraction. S, Z, 5, 3
/// and parity from the result, N kept.
pub open spec fn daa_state(s: State) -> State {
    let (v, h, c) = daa_spec(s.reg.a, s.reg.f);
    let f = with_bits(with_bits(with_bits(sz53_spec(s.reg.f, v), 4, parity_even(v)), 16, h), 1, c);
    with_reg(s, Registers { a: v, f: f, ..s.reg })
}

fn daa_compute(a: u8, f: u8) -> (r: (u8, bool, bool))
    ensures
        r == daa_spec(a, f),
{
    let hi = a / 16;
    let lo = a % 16;
    let nf = f & 2 != 0;
    let cf = f & 1 != 0;
    let hf = f & 16 != 0;
    let lo6 = hf || lo > 9;
    let hi6 = cf || hi > 9 || (hi == 9 && lo > 9);
    let diff: u8 = (if lo6 { 6u8 } else { 0u8 }) + (if hi6 { 0x60u8 } else { 0u8 });
    let v: u8 = if nf {
        if a >= diff {
            a - diff
        } else {
            ((a as u16) + 256 - (diff as u16)) as u8
        }
    } else {
        (((a as u16) + (diff as u16)) % 256) as u8
    };
    (v, (!nf && lo > 9) || (nf && hf && lo < 6), hi6)
}

/// DAA
pub fn exec_daa<'a, M: Machine>(env: &mut Environment<'a, M>)
    ensures
        *final(env).state == daa_state(*old(env).state),
        memory_written(*old(env).sys, *final(env).sys, seq![]),
        *final(final(env).state) == *final(old(env).state),
        *final(final(env).sys) == *final(old(env).sys),
{
    let (v, h, c) = daa_compute(env.state.reg.a(), env.state.reg.f);
    env.state.reg.update_sz53_flags(v);
    env.state.reg.update_p_flag(v);
    env.state.reg.put_flag(Flag::H, h);
    env.state.reg.put_flag(Flag::C, c);
    env.state.reg.set_a(v);
    proof {
        lemma_no_writes(*env.sys);
    }
}

pub open spec fn daa_op() -> (Action, Seq<char>) {
    (Action::Daa, "DAA"@)
}

pub fn build_daa() -> (op: Opcode)
    ensures
        is_op(op, daa_op()),
{
    Opcode { name: String::from_str("DAA"), action: Action::Daa }
}

/// CPL: A complemented, H and N set, 5 and 3 from the result.
pub open spec fn cpl_state(s: State) -> State {
    let v = (255 - s.reg.a) as u8;
    with_reg(s, Registers { a: v, f: flags53_spec(with_bits(with_bits(s.reg.f, 16, true), 2, true), v), ..s.reg })
}

/// CPL
pub fn exec_cpl<'a, M: Machine>(env: &mut Environment<'a, M>)
    ensures
        *final(env).state == cpl_state(*old(env).state),
        memory_written(*old(env).sys, *final(env).sys, seq![]),
        *final(final(env).state) == *final(old(env).state),
        *final(final(env).sys) == *final(old(env).sys),
{
    let v = 255 - env.state.reg.a();
    env.state.reg.set_flag(Flag::H);
    env.state.reg.set_flag(Flag::N);
    env.state.reg.update_53_flags(v);
    env.state.reg.set_a(v);
    proof {
        lemma_no_writes(*env.sys);
    }
}

pub open spec fn cpl_op() -> (Action, Seq<char>) {
    (Action::Cpl, "CPL"@)
}

pub fn build_cpl() -> (op: Opcode)
    ensures
        is_op(op, cpl_op()),
{
    Opcode { name: String::from_str("CPL"), action: Action::Cpl }
}

/// SCF: C set, H and N cleared, 5 and 3 from A.
pub open spec fn scf_state(s: State) -> State {
    let f = flags53_spec(with_bits(with_bits(with_bits(s.reg.f, 1, true), 16, false), 2, false), s.reg.a);
    with_reg(s, Registers { f: f, ..s.reg })
}

/// SCF
pub fn exec_scf<'a, M: Machine>(env: &mut Environment<'a, M>)
    ensures
        *final(env).state == scf_state(*old(env).state),
        memory_written(*old(env).sys, *final(env).sys, seq![]),
        *final(final(env).state) == *final(old(env).state),
        *final(final(env).sys) == *final(old(env).sys),
{
    env.state.reg.set_flag(Flag::C);
    env.state.reg.clear_flag(Flag::H);
    env.state.reg.clear_flag(Flag::N);
    let a = env.state.reg.a();
    env.state.reg.update_53_flags(a);
    proof {
        lemma_no_writes(*env.sys);
    }
}

pub open spec fn scf_op() -> (Action, Seq<char>) {
    (Action::Scf, "SCF"@)
}

pub fn build_scf() -> (op: Opcode)
    ensures
        is_op(op, scf_op()),
{
    Opcode { name: String::from_str("SCF"), action: Action::Scf }
}

/// CCF: C complemented, H takes the old C, N cleared, 5 and 3 from A.
pub open spec fn ccf_state(s: State) -> State {
    let c = s.reg.f & 1 != 0;
    let f = flags53_spec(with_bits(with_bits(with_bits(s.reg.f, 16, c), 1, !c), 2, false), s.reg.a);
    with_reg(s, Registers { f: f, ..s.reg })
}

/// CCF
pub fn exec_ccf<'a, M: Machine>(env: &mut Environment<'a, M>)
    ensures
        *final(env).state == ccf_state(*old(env).state),
        memory_written(*old(env).sys, *final(env).sys, seq![]),
        *final(final(env).state) == *final(old(env).state),
        *final(final(env).sys) == *final(old(env).sys),
{
    let c = env.state.reg.get_flag(Flag::C);
    env.state.reg.put_flag(Flag::H, c);
    env.state.reg.put_flag(Flag::C, !c);
    env.state.reg.clear_flag(Flag::N);
    let a = env.state.reg.a();
    env.state.reg.update_53_flags(a);
    proof {
        lemma_no_writes(*env.sys);
    }
}

pub open spec fn ccf_op() -> (Action, Seq<char>) {
    (Action::Ccf, "CCF"@)
}

pub fn build_ccf() -> (op: Opcode)
    ensures
        is_op(op, ccf_op()),
{
    Opcode { name: String::from_str("CCF"), action: Action::Ccf }
}

/// NEG: A becomes 0 - A, with the flags of SUB.
pub open spec fn neg_state(s: State) -> State {
    let (v, f) = alu_spec(Operator::Sub, s.reg.f, 0, s.reg.a);
    with_reg(s, Registers { a: v, f: f, ..s.reg })
}

/// NEG
pub fn exec_neg<'a, M: Machine>(env: &mut Environment<'a, M>)
    ensures
        *final(env).state == neg_state(*old(env).state),
        memory_written(*old(env).sys, *final(env).sys, seq![]),
        *final(final(env).state) == *final(old(env).state),
        *final(final(env).sys) == *final(old(env).sys),
{
    let b = env.state.reg.a();
    let v = apply_operator(Operator::Sub, &mut env.state.reg, 0, b);
    env.state.reg.set_a(v);
    proof {
        lemma_no_writes(*env.sys);
    }
}

pub open spec fn neg_op() -> (Action, Seq<char>) {
    (Action::Neg, "NEG"@)
}

pub fn build_neg() -> (op: Opcode)
    ensures
        is_op(op, neg_op()),
{
    Opcode { name: String::from_str("NEG"), action: Action::Neg }
}

pub(crate) proof fn lemma_sz53_keeps_c(f: u8, v: u8)
    by (bit_vector)
    ensures
        (sz53_spec(f, v) & 1 != 0) == (f & 1 != 0),
{
}

/// Z, S and C of the flags of INC (`inc`) or DEC of `a`: Z and S from the
/// result, C kept.
proof fn lemma_inc_dec_flag_bits(f: u8, a: u8, inc: bool)
    ensures
        ({
            let v = (if inc { (a + 1) % 256 } else { (a + 255) % 256 }) as u8;
            let g = if inc { inc_flags(f, a) } else { dec_flags(f, a) };
            &&& (g & 0x40 != 0) == (v == 0)
            &&& (g & 0x80 != 0) == (v >= 128)
            &&& (g & 1 != 0) == (f & 1 != 0)
        }),
{
    let v = (if inc { (a + 1) % 256 } else { (a + 255) % 256 }) as u8;
    let g0 = sz53_spec(f, v);
    let h = if inc { a % 16 == 15 } else { a % 16 == 0 };
    let o = if inc { a == 0x7f } else { a == 0x80 };
    let g1 = with_bits(g0, 16, h);
    let g2 = with_bits(g1, 4, o);
    crate::operators::lemma_flag_bits(f, 0, v, 0);
    lemma_sz53_keeps_c(f, v);
    crate::operators::lemma_bit_of_with_bits(g0, 16, h, 0x40);
    crate::operators::lemma_bit_of_with_bits(g0, 16, h, 0x80);
    crate::operators::lemma_bit_of_with_bits(g0, 16, h, 1);
    crate::operators::lemma_bit_of_with_bits(g1, 4, o, 0x40);
    crate::operators::lemma_bit_of_with_bits(g1, 4, o, 0x80);
    crate::operators::lemma_bit_of_with_bits(g1, 4, o, 1);
    crate::operators::lemma_bit_of_with_bits(g2, 2, !inc, 0x40);
    crate::operators::lemma_bit_of_with_bits(g2, 2, !inc, 0x80);
    crate::operators::lemma_bit_of_with_bits(g2, 2, !inc, 1);
}

/// INC and DEC of an 8 bit register (H and L standing for the halves of IX
/// or IY under DD or FD) add or take one, modulo 256, set Z exactly when
/// the result is zero, S from its bit 7, and keep C.
#[verifier::spinoff_prover]
pub proof fn lemma_inc_dec_r<M: Machine>(s: State, m: M, r: Reg8, inc: bool)
    requires
        r != Reg8::_HL,
        r != Reg8::F,
    ensures
        ({
            let a = reg8_ext_spec(s, m, r);
            let t = inc_dec_r_state(s, m, r, inc);
            let v = reg8_ext_spec(t, m, r);
            &&& inc ==> v == (a + 1) % 256
            &&& !inc ==> (v + 1) % 256 == a
            &&& (t.reg.f & 0x40 != 0) == (v == 0)
            &&& (t.reg.f & 0x80 != 0) == (v >= 128)
            &&& (t.reg.f & 1 != 0) == (s.reg.f & 1 != 0)
        }),
{
    let a = reg8_ext_spec(s, m, r);
    let v = (if inc { (a + 1) % 256 } else { (a + 255) % 256 }) as u8;
    let f = if inc { inc_flags(s.reg.f, a) } else { dec_flags(s.reg.f, a) };
    let r1 = Registers { f: f, ..s.reg };
    let x = translate_spec(s.index, r);
    assert(x != Reg8::F && x != Reg8::_HL);
    crate::registers::lemma_set8_get8(r1, x, Reg8::F, v);
    assert(x != Reg8::F);
    lemma_inc_dec_flag_bits(s.reg.f, a, inc);
}

/// NEG gives the value that added to A makes zero (mod 256), borrows unless
/// A is zero and sets Z exactly when A is zero; CPL complements A (the two
/// add up to 255) and keeps Z, S and C; SCF sets C, CCF complements it, and
/// both keep A, Z and S.
pub proof fn lemma_a_and_flags(s: State)
    ensures
        (neg_state(s).reg.a + s.reg.a) % 256 == 0,
        (neg_state(s).reg.f & 1 != 0) == (s.reg.a != 0),
        (neg_state(s).reg.f & 0x40 != 0) == (s.reg.a == 0),
        cpl_state(s).reg.a + s.reg.a == 255,
        (cpl_state(s).reg.f & 0x40 != 0) == (s.reg.f & 0x40 != 0),
        (cpl_state(s).reg.f & 0x80 != 0) == (s.reg.f & 0x80 != 0),
        (cpl_state(s).reg.f & 1 != 0) == (s.reg.f & 1 != 0),
        scf_state(s).reg.f & 1 != 0,
        scf_state(s).reg.a == s.reg.a,
        (scf_state(s).reg.f & 0x40 != 0) == (s.reg.f & 0x40 != 0),
        (scf_state(s).reg.f & 0x80 != 0) == (s.reg.f & 0x80 != 0),
        (ccf_state(s).reg.f & 1 != 0) == (s.reg.f & 1 == 0),
        ccf_state(s).reg.a == s.reg.a,
        (ccf_state(s).reg.f & 0x40 != 0) == (s.reg.f & 0x40 != 0),
        (ccf_state(s).reg.f & 0x80 != 0) == (s.reg.f & 0x80 != 0),
{
    let f = s.reg.f;
    let a = s.reg.a;
    crate::operators::lemma_alu_results(Operator::Sub, f, 0, a);
    let v = (255 - a) as u8;
    let c1 = with_bits(f, 16, true);
    let c2 = with_bits(c1, 2, true);
    crate::operators::lemma_bit_of_with_bits(f, 16, true, 0x40);
    crate::operators::lemma_bit_of_with_bits(f, 16, true, 0x80);
    crate::operators::lemma_bit_of_with_bits(f, 16, true, 1);
    crate::operators::lemma_bit_of_with_bits(c1, 2, true, 0x40);
    crate::operators::lemma_bit_of_with_bits(c1, 2, true, 0x80);
    crate::operators::lemma_bit_of_with_bits(c1, 2, true, 1);
    crate::operators::lemma_flag_bits(f, c2, 0, v);
    let s1 = with_bits(f, 1, true);
    let s2 = with_bits(s1, 16, false);
    let s3 = with_bits(s2, 2, false);
    crate::operators::lemma_bit_of_with_bits(f, 1, true, 0x40);
    crate::operators::lemma_bit_of_with_bits(f, 1, true, 0x80);
    crate::operators::lemma_bit_of_with_bits(f, 1, true, 1);
    crate::operators::lemma_bit_of_with_bits(s1, 16, false, 0x40);
    crate::operators::lemma_bit_of_with_bits(s1, 16, false, 0x80);
    crate::operators::lemma_bit_of_with_bits(s1, 16, false, 1);
    crate::operators::lemma_bit_of_with_bits(s2, 2, false, 0x40);
    crate::operators::lemma_bit_of_with_bits(s2, 2, false, 0x80);
    crate::operators::lemma_bit_of_with_bits(s2, 2, false, 1);
    crate::operators::lemma_flag_bits(f, s3, 0, a);
    let c = f & 1 != 0;
    let d1 = with_bits(f, 16, c);
    let d2 = with_bits(d1, 1, !c);
    let d3 = with_bits(d2, 2, false);
    crate::operators::lemma_bit_of_with_bits(f, 16, c, 0x40);
    crate::operators::lemma_bit_of_with_bits(f, 16, c, 0x80);
    crate::operators::lemma_bit_of_with_bits(f, 16, c, 1);
    crate::operators::lemma_bit_of_with_bits(d1, 1, !c, 0x40);
    crate::operators::lemma_bit_of_with_bits(d1, 1, !c, 0x80);
    crate::operators::lemma_bit_of_with_bits(d1, 1, !c, 1);
    crate::operators::lemma_bit_of_with_bits(d2, 2, false, 0x40);
    crate::operators::lemma_bit_of_with_bits(d2, 2, false, 0x80);
    crate::operators::lemma_bit_of_with_bits(d2, 2, false, 1);
    crate::operators::lemma_flag_bits(f, d3, 0, a);
}

} // verus!
