use vstd::prelude::*;

use crate::environment::{
    Environment,
    advance_n_spec,
    advance_pc_spec,
    code_byte,
    disp_spec,
    index_address_spec,
    lemma_advance_keeps_mode,
    lemma_i32_as_u16,
    push_state,
    push_writes,
    reg8_ext_spec,
    repeat_pc_spec,
    step16,
    step24,
    wrap_spec,
    with_reg,
    wrap24,
};
use crate::machine::{Machine, lemma_no_writes, memory_written};
use crate::opcode::{Action, Opcode, is_op};
use crate::operators::{Operator, alu_spec, apply_operator, operator_cp, operator_tst};
use crate::registers::{Flag, Reg16, Reg8, Registers, block53_spec, with_bits};
use crate::state::State;

verus! {

/// The value of a register pair plus a signed displacement: 24 bits in long
/// mode, 16 bits otherwise.
pub open spec fn reg_plus_disp(s: State, src: Reg16, d: int) -> u32 {
    if s.is_op_long_spec() {
        wrap24(s.reg.get24_spec(src), d)
    } else {
        ((s.reg.get16_spec(src) + d) % 65536) as u32
    }
}

pub open spec fn lea_state<M: Machine>(s: State, m: M, dest: Reg16, src: Reg16) -> State {
    let s1 = advance_pc_spec(s);
    let v = reg_plus_disp(s, src, disp_spec(s, m) as int);
    if s.is_op_long_spec() {
        with_reg(s1, s1.reg.set24_spec(dest, v))
    } else {
        with_reg(s1, s1.reg.set16_spec(dest, v as u16))
    }
}

fn reg_plus_disp_exec<'a, M: Machine>(env: &Environment<'a, M>, src: Reg16, d: i8) -> (v: u32)
    ensures
        v == reg_plus_disp(*old(env.state), src, d as int),
{
    if env.state.is_op_long() {
        env.wrap_address24(env.state.reg.get24(src), d as i32)
    } else {
        proof {
            lemma_i32_as_u16(d as i32);
        }
        env.state.reg.get16(src).wrapping_add(d as i32 as u16) as u32
    }
}

/// LEA rr, IX+d
pub fn exec_lea_rr_ind_offset<'a, M: Machine>(env: &mut Environment<'a, M>, dest: Reg16, src: Reg16)
    ensures
        *final(env).state == (lea_state(*old(env).state, *old(env).sys, dest, src)),
        memory_written(*old(env).sys, *final(env).sys, seq![]),
        *final(final(env).state) == *final(old(env).state),
        *final(final(env).sys) == *final(old(env).sys),
{
    let ghost s0 = *env.state;
    let d = env.advance_pc() as i8;
    proof { reveal_with_fuel(advance_n_spec, 1); lemma_advance_keeps_mode(s0, 1); }
    let value = reg_plus_disp_exec(env, src, d);
    if env.state.is_op_long() {
        env.state.reg.set24(dest, value);
    } else {
        env.state.reg.set16(dest, value as u16);
    }
    proof { lemma_no_writes(*env.sys); }
}

pub open spec fn lea_rr_ind_offset_op(dest: Reg16, src: Reg16) -> (Action, Seq<char>) {
    (Action::LeaRRIndOffset(dest, src), "LEA "@ + dest.name_spec() + ", "@ + src.name_spec() + "d"@)
}

pub fn build_lea_rr_ind_offset(dest: Reg16, src: Reg16) -> (op: Opcode)
    ensures
        is_op(op, lea_rr_ind_offset_op(dest, src)),
{
    let mut name = String::from_str("LEA ");
    name.append(dest.name());
    name.append(", ");
    name.append(src.name());
    name.append("d");
    Opcode { name, action: Action::LeaRRIndOffset(dest, src) }
}

/// PEA IX+d: pushes the address
pub fn exec_pea<'a, M: Machine>(env: &mut Environment<'a, M>, src: Reg16)
    ensures
        *final(env).state == (push_state(advance_pc_spec(*old(env).state))),
        memory_written(*old(env).sys, *final(env).sys, push_writes(advance_pc_spec(*old(env).state), reg_plus_disp(*old(env).state, src, disp_spec(*old(env).state, *old(env).sys) as int))),
        *final(final(env).state) == *final(old(env).state),
        *final(final(env).sys) == *final(old(env).sys),
{
    let ghost s0 = *env.state;
    let d = env.advance_pc() as i8;
    proof { reveal_with_fuel(advance_n_spec, 1); lemma_advance_keeps_mode(s0, 1); }
    let value = reg_plus_disp_exec(env, src, d);
    env.push(value);
}

pub open spec fn pea_op(src: Reg16) -> (Action, Seq<char>) {
    (Action::Pea(src), "PEA "@ + src.name_spec() + "d"@)
}

pub fn build_pea(src: Reg16) -> (op: Opcode)
    ensures
        is_op(op, pea_op(src)),
{
    let mut name = String::from_str("PEA ");
    name.append(src.name());
    name.append("d");
    Opcode { name, action: Action::Pea(src) }
}

/// The state with F as an ALU operation on `a` and `b` leaves it.
pub open spec fn alu_flags_state(s: State, op: Operator, a: u8, b: u8) -> State {
    with_reg(s, Registers { f: alu_spec(op, s.reg.f, a, b).1, ..s.reg })
}

/// The state after `A := A op b`.
pub open spec fn alu_a_state(s: State, op: Operator, b: u8) -> State {
    let (v, f) = alu_spec(op, s.reg.f, s.reg.a, b);
    with_reg(s, Registers { f: f, a: v, ..s.reg })
}

/// TST A, r: the flags of A AND r
pub fn exec_tst_a_r<'a, M: Machine>(env: &mut Environment<'a, M>, reg: Reg8)
    ensures
        *final(env).state == (alu_flags_state(*old(env).state, Operator::And, old(env).state.reg.a, reg8_ext_spec(*old(env).state, *old(env).sys, reg))),
        memory_written(*old(env).sys, *final(env).sys, seq![]),
        *final(final(env).state) == *final(old(env).state),
        *final(final(env).sys) == *final(old(env).sys),
{
    let a = env.state.reg.a();
    let b = env.reg8_ext(reg);
    operator_tst(&mut env.state.reg, a, b);
    proof { lemma_no_writes(*env.sys); }
}

pub open spec fn tst_a_r_op(reg: Reg8) -> (Action, Seq<char>) {
    (Action::TstAR(reg), "TST A, "@ + reg.name_spec())
}

pub fn build_tst_a_r(reg: Reg8) -> (op: Opcode)
    ensures
        is_op(op, tst_a_r_op(reg)),
{
    let mut name = String::from_str("TST A, ");
    name.append(reg.name());
    Opcode { name, action: Action::TstAR(reg) }
}

/// TST A, n
pub fn exec_tst_a_n<'a, M: Machine>(env: &mut Environment<'a, M>)
    ensures
        *final(env).state == (alu_flags_state(advance_pc_spec(*old(env).state), Operator::And, old(env).state.reg.a, code_byte(*old(env).state, *old(env).sys, 0))),
        memory_written(*old(env).sys, *final(env).sys, seq![]),
        *final(final(env).state) == *final(old(env).state),
        *final(final(env).sys) == *final(old(env).sys),
{
    let a = env.state.reg.a();
    let b = env.advance_pc();
    operator_tst(&mut env.state.reg, a, b);
    proof { reveal_with_fuel(advance_n_spec, 1); lemma_no_writes(*env.sys); }
}

pub open spec fn tst_a_n_op() -> (Action, Seq<char>) {
    (Action::TstAN, "TST A, n"@)
}

pub fn build_tst_a_n() -> (op: Opcode)
    ensures
        is_op(op, tst_a_n_op()),
{
    let mut name = String::from_str("TST A, n");
    Opcode { name, action: Action::TstAN }
}

/// Address of (IX+d) for the eZ80 ALU instructions.
pub open spec fn idx_offset_address(s: State, idx: Reg16, d: int) -> u32 {
    if s.is_op_long_spec() {
        wrap24(s.reg.get24_spec(idx), d)
    } else {
        (s.reg.mbase * 65536 + (s.reg.get16_spec(idx) + d) % 65536) as u32
    }
}

fn idx_offset_address_exec<'a, M: Machine>(env: &Environment<'a, M>, idx: Reg16, offset: i8) -> (a: u32)
    ensures
        a == idx_offset_address(*old(env.state), idx, offset as int),
{
    if env.state.is_op_long() {
        env.wrap_address24(env.state.reg.get24(idx), offset as i32)
    } else {
        proof { lemma_i32_as_u16(offset as i32); }
        env.state.reg.get16_mbase_offset(idx, offset as i32 as u16)
    }
}

pub open spec fn operator_a_idx_offset_state<M: Machine>(s: State, m: M, idx: Reg16, op: Operator) -> State {
    alu_a_state(advance_pc_spec(s), op, m.peek_spec(idx_offset_address(s, idx, disp_spec(s, m) as int)))
}

/// alu A, (IX+d) in the eZ80 DD/FD tables
pub fn exec_operator_a_idx_offset<'a, M: Machine>(env: &mut Environment<'a, M>, idx: Reg16, op: Operator)
    ensures
        *final(env).state == (operator_a_idx_offset_state(*old(env).state, *old(env).sys, idx, op)),
        memory_written(*old(env).sys, *final(env).sys, seq![]),
        *final(final(env).state) == *final(old(env).state),
        *final(final(env).sys) == *final(old(env).sys),
{
    let ghost s0 = *env.state;
    let offset = env.advance_pc() as i8;
    proof { reveal_with_fuel(advance_n_spec, 1); lemma_advance_keeps_mode(s0, 1); }
    let a = env.state.reg.a();
    let address = idx_offset_address_exec(env, idx, offset);
    let b = env.peek(address);
    let v = apply_operator(op, &mut env.state.reg, a, b);
    env.state.reg.set_a(v);
    proof { lemma_no_writes(*env.sys); }
}

pub open spec fn operator_a_idx_offset_op(idx: Reg16, alu: (Operator, Seq<char>)) -> (Action, Seq<char>) {
    (Action::OperatorAIdxOffset(idx, alu.0), alu.1 + " A, ("@ + idx.name_spec() + "d)"@)
}

pub fn build_operator_a_idx_offset(idx: Reg16, alu: (Operator, &str)) -> (op: Opcode)
    ensures
        is_op(op, operator_a_idx_offset_op(idx, (alu.0, alu.1@))),
{
    let (operator, name) = alu;
    let mut text = String::from_str(name);
    text.append(" A, (");
    text.append(idx.name());
    text.append("d)");
    Opcode { name: text, action: Action::OperatorAIdxOffset(idx, operator) }
}

/// The operand of ALU A, r (the `b` of `exec_operator_a_r`): a register
/// with no index prefix; under DD or FD, H and L are the halves of IX or
/// IY and (HL) is the byte at IX+d or IY+d; the other registers are
/// themselves.
pub proof fn lemma_alu_operand<M: Machine>(s: State, m: M, r: Reg8)
    ensures
        s.index == Reg16::HL && r != Reg8::_HL ==> reg8_ext_spec(s, m, r) == s.reg.get8_spec(r),
        r != Reg8::H && r != Reg8::L && r != Reg8::_HL ==> reg8_ext_spec(s, m, r) == s.reg.get8_spec(r),
        s.index == Reg16::IX && r == Reg8::H ==> reg8_ext_spec(s, m, r) == s.reg.ixh,
        s.index == Reg16::IX && r == Reg8::L ==> reg8_ext_spec(s, m, r) == s.reg.ixl,
        s.index == Reg16::IY && r == Reg8::H ==> reg8_ext_spec(s, m, r) == s.reg.iyh,
        s.index == Reg16::IY && r == Reg8::L ==> reg8_ext_spec(s, m, r) == s.reg.iyl,
        s.index != Reg16::HL ==> reg8_ext_spec(s, m, Reg8::_HL) == m.peek_spec(
            crate::environment::wrap24(crate::environment::index_value_spec(s), s.displacement as int),
        ),
{
}

/// alu A, r
pub fn exec_operator_a_r<'a, M: Machine>(env: &mut Environment<'a, M>, r: Reg8, op: Operator)
    ensures
        *final(env).state == (alu_a_state(*old(env).state, op, reg8_ext_spec(*old(env).state, *old(env).sys, r))),
        memory_written(*old(env).sys, *final(env).sys, seq![]),
        *final(final(env).state) == *final(old(env).state),
        *final(final(env).sys) == *final(old(env).sys),
{
    let a = env.state.reg.a();
    let b = if r != Reg8::_HL && r != Reg8::H && r != Reg8::L {
        // Fast version
        env.state.reg.get8(r)
    } else {
        env.reg8_ext(r)
    };
    let v = apply_operator(op, &mut env.state.reg, a, b);
    env.state.reg.set_a(v);
    proof { lemma_no_writes(*env.sys); }
}

pub open spec fn operator_a_r_op(r: Reg8, alu: (Operator, Seq<char>)) -> (Action, Seq<char>) {
    (Action::OperatorAR(r, alu.0), alu.1 + " A, "@ + r.name_spec())
}

pub fn build_operator_a_r(r: Reg8, alu: (Operator, &str)) -> (op: Opcode)
    ensures
        is_op(op, operator_a_r_op(r, (alu.0, alu.1@))),
{
    let (operator, name) = alu;
    let mut text = String::from_str(name);
    text.append(" A, ");
    text.append(r.name());
    Opcode { name: text, action: Action::OperatorAR(r, operator) }
}

/// alu A, n
pub fn exec_operator_a_n<'a, M: Machine>(env: &mut Environment<'a, M>, op: Operator)
    ensures
        *final(env).state == (alu_a_state(advance_pc_spec(*old(env).state), op, code_byte(*old(env).state, *old(env).sys, 0))),
        memory_written(*old(env).sys, *final(env).sys, seq![]),
        *final(final(env).state) == *final(old(env).state),
        *final(final(env).sys) == *final(old(env).sys),
{
    let a = env.state.reg.a();
    let b = env.advance_pc();
    let v = apply_operator(op, &mut env.state.reg, a, b);
    env.state.reg.set_a(v);
    proof { reveal_with_fuel(advance_n_spec, 1); lemma_no_writes(*env.sys); }
}

pub open spec fn operator_a_n_op(alu: (Operator, Seq<char>)) -> (Action, Seq<char>) {
    (Action::OperatorAN(alu.0), alu.1 + " A, n"@)
}

pub fn build_operator_a_n(alu: (Operator, &str)) -> (op: Opcode)
    ensures
        is_op(op, operator_a_n_op((alu.0, alu.1@))),
{
    let (operator, name) = alu;
    let mut text = String::from_str(name);
    text.append(" A, n");
    Opcode { name: text, action: Action::OperatorAN(operator) }
}

/// Registers after the counters of a block compare move: HL one step, BC
/// one down; 24 bits long when `long`.
pub open spec fn cp_counters_reg(r: Registers, long: bool, inc: bool) -> Registers {
    if long {
        r.set24_spec(Reg16::HL, step24(r.get24_spec(Reg16::HL), inc))
            .set24_spec(Reg16::BC, step24(r.get24_spec(Reg16::BC), false))
    } else {
        r.set16_spec(Reg16::HL, step16(r.get16_spec(Reg16::HL), inc))
            .set16_spec(Reg16::BC, step16(r.get16_spec(Reg16::BC), false))
    }
}

/// The new BC after a block instruction (16 or 24 bits).
pub open spec fn counter_bc(r: Registers, long: bool) -> u32 {
    if long {
        step24(r.get24_spec(Reg16::BC), false)
    } else {
        step16(r.get16_spec(Reg16::BC), false) as u32
    }
}

fn cp_counters(reg: &mut Registers, long: bool, inc: bool) -> (bc: u32)
    ensures
        *final(reg) == cp_counters_reg(*old(reg), long, inc),
        bc == counter_bc(*old(reg), long),
{
    if long {
        reg.inc_dec24(Reg16::HL, inc);
        reg.inc_dec24(Reg16::BC, false /*decrement*/)
    } else {
        reg.inc_dec16(Reg16::HL, inc);
        reg.inc_dec16(Reg16::BC, false /*decrement*/) as u32
    }
}

/// F of CPI/CPD (TUZD-4.2): S, Z and H from A - (HL); bits 5 and 3 from
/// A - (HL) - H; N set; P/V set while BC is not zero; C unchanged.
pub open spec fn cp_block_flags(f: u8, a: u8, b: u8, bc: u32) -> u8 {
    let f1 = alu_spec(Operator::Cp, f, a, b).1;
    let n0 = ((a - b) % 256) as u8;
    let n = if f1 & 16 != 0 { ((n0 - 1) % 256) as u8 } else { n0 };
    with_bits(with_bits(with_bits(block53_spec(f1, n), 2, true), 4, bc != 0), 1, f & 1 != 0)
}

pub open spec fn cp_block_state<M: Machine>(s: State, m: M, inc: bool, repeat: bool) -> State {
    let a = s.reg.a;
    let b = m.peek_spec(index_address_spec(s));
    let long = s.is_op_long_spec();
    let r1 = cp_counters_reg(s.reg, long, inc);
    let bc = counter_bc(s.reg, long);
    let s2 = with_reg(s, Registers { f: cp_block_flags(s.reg.f, a, b, bc), ..r1 });
    if repeat && bc != 0 && a != b {
        repeat_pc_spec(s2, 2)
    } else {
        s2
    }
}

pub(crate) proof fn lemma_block53_keeps_z(g: u8, n: u8)
    by (bit_vector)
    ensures
        (block53_spec(g, n) & 0x40 != 0) == (g & 0x40 != 0),
{
}

/// Z of the block compare flags: set exactly when A equals the byte.
proof fn lemma_cp_block_z(f: u8, a: u8, b: u8, bc: u32)
    ensures
        (cp_block_flags(f, a, b, bc) & 0x40 != 0) == (a == b),
{
    let f1 = alu_spec(Operator::Cp, f, a, b).1;
    let n0 = ((a - b) % 256) as u8;
    let n = if f1 & 16 != 0 { ((n0 - 1) % 256) as u8 } else { n0 };
    let g0 = block53_spec(f1, n);
    let g1 = with_bits(g0, 2, true);
    let g2 = with_bits(g1, 4, bc != 0);
    crate::operators::lemma_alu_results(Operator::Cp, f, a, b);
    lemma_block53_keeps_z(f1, n);
    crate::operators::lemma_bit_of_with_bits(g0, 2, true, 0x40);
    crate::operators::lemma_bit_of_with_bits(g1, 4, bc != 0, 0x40);
    crate::operators::lemma_bit_of_with_bits(g2, 1, f & 1 != 0, 0x40);
}

/// CPI, CPD, CPIR and CPDR compare A with the byte at (HL): HL moves by one
/// (up for CPI and CPIR, down for CPD and CPDR), BC counts down (16 or 24
/// bits), A is kept, and Z tells whether the byte equals A. The repeating
/// forms step the PC back over the instruction to run it again only while
/// BC is not zero and the byte differs from A: a match ends the search,
/// with PC after the instruction and HL just past the byte found.
#[verifier::spinoff_prover]
#[verifier::rlimit(40)]
pub proof fn lemma_cp_block<M: Machine>(s: State, m: M, inc: bool, repeat: bool)
    ensures
        ({
            let t = cp_block_state(s, m, inc, repeat);
            let byte = m.peek_spec(index_address_spec(s));
            let long = s.is_op_long_spec();
            let bc: int = if long { t.reg.get24_spec(Reg16::BC) as int } else { t.reg.get16_spec(Reg16::BC) as int };
            &&& t.reg.a == s.reg.a
            &&& long ==> t.reg.get24_spec(Reg16::BC) == (s.reg.get24_spec(Reg16::BC) + 0xffffff) % 0x1000000
            &&& !long ==> t.reg.get16_spec(Reg16::BC) == (s.reg.get16_spec(Reg16::BC) + 0xffff) % 0x10000
            &&& long ==> t.reg.get24_spec(Reg16::HL) == (s.reg.get24_spec(Reg16::HL) + (if inc { 1int } else { 0xffffff }))
                % 0x1000000
            &&& !long ==> t.reg.get16_spec(Reg16::HL) == (s.reg.get16_spec(Reg16::HL) + (if inc { 1int } else { 0xffff }))
                % 0x10000
            &&& (t.reg.f & 0x40 != 0) == (s.reg.a == byte)
            &&& (!repeat || s.reg.a == byte || bc == 0) ==> t.reg.pc == s.reg.pc
            &&& (repeat && s.reg.a != byte && bc != 0) ==> t.reg.pc == wrap_spec(s, s.pc_spec(), -2) % 0x1000000
        }),
{
    let a = s.reg.a;
    let b = m.peek_spec(index_address_spec(s));
    let long = s.is_op_long_spec();
    let bcv = counter_bc(s.reg, long);
    let r1 = cp_counters_reg(s.reg, long, inc);
    let s2 = with_reg(s, Registers { f: cp_block_flags(s.reg.f, a, b, bcv), ..r1 });
    lemma_cp_block_z(s.reg.f, a, b, bcv);
    if long {
        lemma_counters_long(s.reg, inc);
    } else {
        lemma_counters_short(s.reg, inc);
    }
    assert(s2.reg.get24_spec(Reg16::BC) == r1.get24_spec(Reg16::BC));
    assert(s2.reg.get16_spec(Reg16::BC) == r1.get16_spec(Reg16::BC));
    assert(s2.reg.get24_spec(Reg16::HL) == r1.get24_spec(Reg16::HL));
    assert(s2.reg.get16_spec(Reg16::HL) == r1.get16_spec(Reg16::HL));
    let t = cp_block_state(s, m, inc, repeat);
    assert(t.reg == s2.reg || t.reg == (Registers { pc: t.reg.pc, ..s2.reg }));
}

proof fn lemma_set24_pair2(r: Registers, rr: Reg16, v: u32)
    requires
        rr == Reg16::BC || rr == Reg16::HL,
        v < 0x1000000,
    ensures
        r.set24_spec(rr, v).get24_spec(rr) == v,
        rr != Reg16::BC ==> r.set24_spec(rr, v).get24_spec(Reg16::BC) == r.get24_spec(Reg16::BC),
        rr != Reg16::HL ==> r.set24_spec(rr, v).get24_spec(Reg16::HL) == r.get24_spec(Reg16::HL),
        r.set24_spec(rr, v).a == r.a,
{
    crate::registers::lemma_set24_get24(r, rr, v);
}

#[verifier::spinoff_prover]
#[verifier::rlimit(60)]
proof fn lemma_counters_long(r: Registers, inc: bool)
    ensures
        ({
            let r1 = cp_counters_reg(r, true, inc);
            &&& r1.a == r.a
            &&& r1.get24_spec(Reg16::BC) == (r.get24_spec(Reg16::BC) + 0xffffff) % 0x1000000
            &&& r1.get24_spec(Reg16::HL) == (r.get24_spec(Reg16::HL) + (if inc { 1int } else { 0xffffff })) % 0x1000000
            &&& counter_bc(r, true) == r1.get24_spec(Reg16::BC)
        }),
{
    let hl = step24(r.get24_spec(Reg16::HL), inc);
    let bcv = step24(r.get24_spec(Reg16::BC), false);
    let r1 = r.set24_spec(Reg16::HL, hl);
    lemma_set24_pair2(r, Reg16::HL, hl);
    lemma_set24_pair2(r1, Reg16::BC, bcv);
}

#[verifier::spinoff_prover]
proof fn lemma_counters_short(r: Registers, inc: bool)
    ensures
        ({
            let r1 = cp_counters_reg(r, false, inc);
            &&& r1.a == r.a
            &&& r1.get16_spec(Reg16::BC) == (r.get16_spec(Reg16::BC) + 0xffff) % 0x10000
            &&& r1.get16_spec(Reg16::HL) == (r.get16_spec(Reg16::HL) + (if inc { 1int } else { 0xffff })) % 0x10000
            &&& counter_bc(r, false) == r1.get16_spec(Reg16::BC)
        }),
{
    let hl = step16(r.get16_spec(Reg16::HL), inc);
    let r1 = r.set16_spec(Reg16::HL, hl);
    let bcv = step16(r.get16_spec(Reg16::BC), false);
    assert(bcv == (r.get16_spec(Reg16::BC) + 0xffff) % 0x10000);
    assert(hl == (r.get16_spec(Reg16::HL) + (if inc { 1int } else { 0xffff })) % 0x10000);
    crate::registers::lemma_set16_get16(r, Reg16::HL, hl);
    crate::registers::lemma_set16_get16(r1, Reg16::BC, bcv);
    assert(r1.get16_spec(Reg16::BC) == r.get16_spec(Reg16::BC));
    assert(r1.set16_spec(Reg16::BC, bcv).get16_spec(Reg16::HL) == r1.get16_spec(Reg16::HL));
}

#[verifier::spinoff_prover]
#[verifier::rlimit(40)]
fn cp_block_flags_exec(reg: &mut Registers, a: u8, b: u8, bc: u32)
    ensures
        *final(reg) == (Registers { f: cp_block_flags(old(reg).f, a, b, bc), ..*old(reg) }),
{
    let c_bak = reg.get_flag(Flag::C);
    operator_cp(reg, a, b);
    // TUZD-4.2
    let mut n = a.wrapping_sub(b);
    if reg.get_flag(Flag::H) {
        n = n.wrapping_sub(1);
    }
    reg.update_undocumented_flags_block(n);
    reg.set_flag(Flag::N);
    reg.put_flag(Flag::P, bc != 0);
    reg.put_flag(Flag::C, c_bak); // C unchanged
    // S, Z and H set by operator_cp()
}

/// Block compare CPI, CPD, CPIR and CPDR
pub fn exec_cp_block<'a, M: Machine>(env: &mut Environment<'a, M>, inc: bool, repeat: bool)
    ensures
        *final(env).state == (cp_block_state(*old(env).state, *old(env).sys, inc, repeat)),
        memory_written(*old(env).sys, *final(env).sys, seq![]),
        *final(final(env).state) == *final(old(env).state),
        *final(final(env).sys) == *final(old(env).sys),
{
    let a = env.state.reg.a();
    let b = env.reg8_ext(Reg8::_HL);
    let long = env.state.is_op_long();
    let ghost f0 = env.state.reg.f;
    let bc = cp_counters(&mut env.state.reg, long, inc);
    cp_block_flags_exec(&mut env.state.reg, a, b, bc);
    if repeat && bc != 0 && a != b {
        // Back to redo the instruction
        let pc = env.wrap_address(env.state.pc(), -2);
        env.state.set_pc(pc);
    }
    proof { lemma_no_writes(*env.sys); }
}

pub open spec fn cp_block_op(inc: bool, repeat: bool, postfix: Seq<char>) -> (Action, Seq<char>) {
    (Action::CpBlock(inc, repeat), "CP"@ + postfix)
}

pub fn build_cp_block(bli: (bool, bool, &'static str)) -> (op: Opcode)
    ensures
        is_op(op, cp_block_op(bli.0, bli.1, bli.2@)),
{
    let (inc, repeat, postfix) = bli;
    let mut name = String::from_str("CP");
    name.append(postfix);
    Opcode { name, action: Action::CpBlock(inc, repeat) }
}

pub open spec fn mlt_state(s: State, reg: Reg16) -> State {
    let r = s.reg.get16_spec(reg);
    with_reg(s, s.reg.set16_spec(reg, ((r % 256) * (r / 256)) as u16))
}

/// MLT multiplies the two 8 bit halves of a pair: BC becomes B * C, DE
/// becomes D * E, HL becomes H * L, and A and the flags are kept.
pub proof fn lemma_mlt_product(s: State, rr: Reg16)
    ensures
        rr == Reg16::BC ==> mlt_state(s, rr).reg.get16_spec(Reg16::BC) == s.reg.b * s.reg.c,
        rr == Reg16::DE ==> mlt_state(s, rr).reg.get16_spec(Reg16::DE) == s.reg.d * s.reg.e,
        rr == Reg16::HL ==> mlt_state(s, rr).reg.get16_spec(Reg16::HL) == s.reg.h * s.reg.l,
        rr != Reg16::AF ==> mlt_state(s, rr).reg.a == s.reg.a && mlt_state(s, rr).reg.f == s.reg.f,
{
    let r = s.reg.get16_spec(rr);
    let (hi, lo) = (r / 256, r % 256);
    assert(hi * lo <= 255 * 255) by (nonlinear_arith)
        requires
            0 <= hi <= 255,
            0 <= lo <= 255,
    ;
    assert(lo * hi == hi * lo) by (nonlinear_arith);
    crate::registers::lemma_set16_get16(s.reg, rr, (lo * hi) as u16);
}

/// MLT rr: the product of the two bytes of rr
pub fn exec_mlt_rr<'a, M: Machine>(env: &mut Environment<'a, M>, reg: Reg16)
    ensures
        *final(env).state == (mlt_state(*old(env).state, reg)),
        memory_written(*old(env).sys, *final(env).sys, seq![]),
        *final(final(env).state) == *final(old(env).state),
        *final(final(env).sys) == *final(old(env).sys),
{
    let r = env.state.reg.get16(reg);
    let a = r & 0xff;
    let b = (r >> 8u16) & 0xff;
    proof {
        assert(a == r % 256 && b == r / 256) by (bit_vector)
            requires a == r & 0xff, b == (r >> 8u16) & 0xff;
        assert(a * b <= 65025) by (nonlinear_arith)
            requires a <= 255, b <= 255;
    }
    env.state.reg.set16(reg, a * b);
    proof { lemma_no_writes(*env.sys); }
}

pub open spec fn mlt_rr_op(reg: Reg16) -> (Action, Seq<char>) {
    (Action::MltRR(reg), "MLT "@ + reg.name_spec())
}

pub fn build_mlt_rr(reg: Reg16) -> (op: Opcode)
    ensures
        is_op(op, mlt_rr_op(reg)),
{
    let mut name = String::from_str("MLT ");
    name.append(reg.name());
    Opcode { name, action: Action::MltRR(reg) }
}

} // verus!
