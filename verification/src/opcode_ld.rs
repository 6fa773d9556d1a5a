use vstd::prelude::*;

use crate::environment::{
    Environment,
    advance_n_spec,
    advance_pc_spec,
    code_byte,
    disp_spec,
    imm16or24_spec,
    imm_address_spec,
    imm_len,
    index_address_spec,
    lemma_advance_keeps_mode,
    lemma_i32_as_u16,
    pair_ext,
    peek16_spec,
    peek24_spec,
    poke16_writes,
    poke24_writes,
    reg16or24_ext_spec,
    reg8_ext_spec,
    reg_address_spec,
    repeat_pc_spec,
    set_reg16or24_state,
    set_reg_state,
    set_reg_writes,
    step16,
    step24,
    with_reg,
    wrap24,
    wrap_spec,
};
use crate::machine::{Machine, lemma_memory_written_compose, lemma_no_writes, memory_written};
use crate::opcode::{Action, Opcode, is_op};
use crate::registers::{Flag, Reg16, Reg8, Registers, block53_spec, with_bits};
use crate::state::State;

verus! {

/*
    Load: http://z80-heaven.wikidot.com/instructions-set:ld

    Flags:
        No flags are altered except by LD A, I and LD A, R: C is preserved,
        H and N are reset, S and Z follow the value loaded, and P/V is set
        if interrupts are enabled (IFF2), reset otherwise.
*/

// 8 bit load

/// Value that LD dst, src moves: with (HL) as destination the source is a
/// plain register (no IXH/IXL), else an operand.
pub open spec fn ld_r_r_value<M: Machine>(s: State, m: M, dst: Reg8, src: Reg8) -> u8 {
    if dst == Reg8::_HL {
        s.reg.get8_spec(src)
    } else {
        reg8_ext_spec(s, m, src)
    }
}

/// F after LD A, I or LD A, R moved `v`: S and Z from `v`, H and N reset,
/// P/V from IFF2, C (and the other bits) kept.
pub open spec fn ir_flags(f: u8, v: u8, iff2: bool) -> u8 {
    with_bits(with_bits(with_bits(with_bits(with_bits(f, 128, v & 0x80 != 0), 64, v == 0), 16, false), 2, false), 4, iff2)
}

/// The state after LD dst, src; `flags` is set for LD A, I and LD A, R.
pub open spec fn ld_r_r_state<M: Machine>(s: State, m: M, dst: Reg8, src: Reg8, flags: bool) -> State {
    let v = ld_r_r_value(s, m, dst, src);
    let s1 = if src == Reg8::_HL {
        with_reg(s, s.reg.set8_spec(dst, v))
    } else {
        set_reg_state(s, dst, v)
    };
    if flags {
        with_reg(s1, Registers { f: ir_flags(s1.reg.f, v, s1.reg.iff2), ..s1.reg })
    } else {
        s1
    }
}

pub open spec fn ld_r_r_writes<M: Machine>(s: State, m: M, dst: Reg8, src: Reg8) -> Seq<(u32, u8)> {
    if src == Reg8::_HL {
        seq![]
    } else {
        set_reg_writes(s, dst, ld_r_r_value(s, m, dst, src))
    }
}

/// LD dst, src; with `flags` (LD A, I and LD A, R) the flags follow the value.
pub fn exec_ld_r_r<'a, M: Machine>(env: &mut Environment<'a, M>, dst: Reg8, src: Reg8, flags: bool)
    ensures
        *final(env).state == (ld_r_r_state(*old(env).state, *old(env).sys, dst, src, flags)),
        memory_written(*old(env).sys, *final(env).sys, ld_r_r_writes(*old(env).state, *old(env).sys, dst, src)),
        *final(final(env).state) == *final(old(env).state),
        *final(final(env).sys) == *final(old(env).sys),
{
    /*
    If the next opcode makes use of (HL), it will be replaced by (IX+d), and any other
    instances of H and L will be unaffected. Therefore, an instruction like LD IXH, (IX+d)
    does not exist, but LD H, (IX+d) does. It's impossible for both src and dst to be (HL)
    */
    let ghost m0 = *env.sys;
    let value = if dst == Reg8::_HL {
        env.state.reg.get8(src)
    } else {
        env.reg8_ext(src)
    };
    if src == Reg8::_HL {
        env.state.reg.set8(dst, value);
        proof { lemma_no_writes(m0); }
    } else {
        env.set_reg(dst, value);
        proof { if dst != Reg8::_HL { lemma_no_writes(m0); } }
    }
    if flags {
        let iff2 = env.state.reg.iff2;
        env.state.reg.put_flag(Flag::S, value & 0x80 != 0);
        env.state.reg.put_flag(Flag::Z, value == 0);
        env.state.reg.put_flag(Flag::H, false);
        env.state.reg.put_flag(Flag::N, false);
        env.state.reg.put_flag(Flag::P, iff2);
    }
}

/// LD dst, src; `special` marks the loads from and to I and R, of which
/// LD A, I and LD A, R set the flags.
pub open spec fn ld_r_r_op(dst: Reg8, src: Reg8, special: bool) -> (Action, Seq<char>) {
    (Action::LdRR(dst, src, special && dst == Reg8::A), "LD "@ + dst.name_spec() + ", "@ + src.name_spec())
}

pub fn build_ld_r_r(dst: Reg8, src: Reg8, special: bool) -> (op: Opcode)
    ensures
        is_op(op, ld_r_r_op(dst, src, special)),
{
    let mut name = String::from_str("LD ");
    name.append(dst.name());
    name.append(", ");
    name.append(src.name());
    let flags = special && dst == Reg8::A;
    Opcode { name, action: Action::LdRR(dst, src, flags) }
}

pub open spec fn ld_r_n_state<M: Machine>(s: State, m: M, r: Reg8) -> State {
    set_reg_state(advance_pc_spec(s), r, code_byte(s, m, 0))
}

pub open spec fn ld_r_n_writes<M: Machine>(s: State, m: M, r: Reg8) -> Seq<(u32, u8)> {
    set_reg_writes(advance_pc_spec(s), r, code_byte(s, m, 0))
}

/// LD r, n
pub fn exec_ld_r_n<'a, M: Machine>(env: &mut Environment<'a, M>, r: Reg8)
    ensures
        *final(env).state == (ld_r_n_state(*old(env).state, *old(env).sys, r)),
        memory_written(*old(env).sys, *final(env).sys, ld_r_n_writes(*old(env).state, *old(env).sys, r)),
        *final(final(env).state) == *final(old(env).state),
        *final(final(env).sys) == *final(old(env).sys),
{
    let ghost m0 = *env.sys;
    let value = env.advance_pc();
    env.set_reg(r, value);
    proof { reveal_with_fuel(advance_n_spec, 1); if r != Reg8::_HL { lemma_no_writes(m0); } }
}

pub open spec fn ld_r_n_op(r: Reg8) -> (Action, Seq<char>) {
    (Action::LdRN(r), "LD "@ + r.name_spec() + ", n"@)
}

pub fn build_ld_r_n(r: Reg8) -> (op: Opcode)
    ensures
        is_op(op, ld_r_n_op(r)),
{
    let mut name = String::from_str("LD ");
    name.append(r.name());
    name.append(", n");
    Opcode { name, action: Action::LdRN(r) }
}

pub open spec fn ld_a_prr_state<M: Machine>(s: State, m: M, rr: Reg16) -> State {
    with_reg(s, s.reg.set8_spec(Reg8::A, m.peek_spec(reg_address_spec(s, rr))))
}

/// LD A, (rr); rr can be only BC or DE
pub fn exec_ld_a_prr<'a, M: Machine>(env: &mut Environment<'a, M>, rr: Reg16)
    ensures
        *final(env).state == (ld_a_prr_state(*old(env).state, *old(env).sys, rr)),
        memory_written(*old(env).sys, *final(env).sys, seq![]),
        *final(final(env).state) == *final(old(env).state),
        *final(final(env).sys) == *final(old(env).sys),
{
    let ghost m0 = *env.sys;
    let address = env.reg16mbase_or_24(rr);
    let value = env.peek(address);
    env.state.reg.set_a(value);
    proof { lemma_no_writes(m0); }
}

pub open spec fn ld_a_prr_op(rr: Reg16) -> (Action, Seq<char>) {
    (Action::LdAPrr(rr), "LD A, ("@ + rr.name_spec() + ")"@)
}

pub fn build_ld_a_prr(rr: Reg16) -> (op: Opcode)
    ensures
        is_op(op, ld_a_prr_op(rr)),
{
    let mut name = String::from_str("LD A, (");
    name.append(rr.name());
    name.append(")");
    Opcode { name, action: Action::LdAPrr(rr) }
}

pub open spec fn ld_a_pnn_state<M: Machine>(s: State, m: M) -> State {
    let s1 = advance_n_spec(s, imm_len(s));
    with_reg(s1, s1.reg.set8_spec(Reg8::A, m.peek_spec(imm_address_spec(s, m))))
}

/// LD A, (nn)
pub fn exec_ld_a_pnn<'a, M: Machine>(env: &mut Environment<'a, M>)
    ensures
        *final(env).state == (ld_a_pnn_state(*old(env).state, *old(env).sys)),
        memory_written(*old(env).sys, *final(env).sys, seq![]),
        *final(final(env).state) == *final(old(env).state),
        *final(final(env).sys) == *final(old(env).sys),
{
    let ghost m0 = *env.sys;
    let address = env.advance_immediate_16mbase_or_24();
    let value = env.peek(address);
    env.state.reg.set_a(value);
    proof { lemma_no_writes(m0); }
}

pub open spec fn ld_a_pnn_op() -> (Action, Seq<char>) {
    (Action::LdAPnn, "LD A, (nn)"@)
}

pub fn build_ld_a_pnn() -> (op: Opcode)
    ensures
        is_op(op, ld_a_pnn_op()),
{
    let mut name = String::from_str("LD A, (nn)");
    Opcode { name, action: Action::LdAPnn }
}

/// LD (rr), A; rr can be only BC or DE
pub fn exec_ld_prr_a<'a, M: Machine>(env: &mut Environment<'a, M>, rr: Reg16)
    ensures
        *final(env).state == (*old(env).state),
        memory_written(*old(env).sys, *final(env).sys, seq![(reg_address_spec(*old(env).state, rr), old(env).state.reg.a)]),
        *final(final(env).state) == *final(old(env).state),
        *final(final(env).sys) == *final(old(env).sys),
{
    let value = env.state.reg.a();
    let address = env.reg16mbase_or_24(rr);
    env.poke(address, value);
}

pub open spec fn ld_prr_a_op(rr: Reg16) -> (Action, Seq<char>) {
    (Action::LdPrrA(rr), "LD ("@ + rr.name_spec() + "), A"@)
}

pub fn build_ld_prr_a(rr: Reg16) -> (op: Opcode)
    ensures
        is_op(op, ld_prr_a_op(rr)),
{
    let mut name = String::from_str("LD (");
    name.append(rr.name());
    name.append("), A");
    Opcode { name, action: Action::LdPrrA(rr) }
}

/// LD (nn), A
pub fn exec_ld_pnn_a<'a, M: Machine>(env: &mut Environment<'a, M>)
    ensures
        *final(env).state == (advance_n_spec(*old(env).state, imm_len(*old(env).state))),
        memory_written(*old(env).sys, *final(env).sys, seq![(imm_address_spec(*old(env).state, *old(env).sys), old(env).state.reg.a)]),
        *final(final(env).state) == *final(old(env).state),
        *final(final(env).sys) == *final(old(env).sys),
{
    let value = env.state.reg.a();
    let address = env.advance_immediate_16mbase_or_24();
    env.poke(address, value);
}

pub open spec fn ld_pnn_a_op() -> (Action, Seq<char>) {
    (Action::LdPnnA, "LD (nn), A"@)
}

pub fn build_ld_pnn_a() -> (op: Opcode)
    ensures
        is_op(op, ld_pnn_a_op()),
{
    let mut name = String::from_str("LD (nn), A");
    Opcode { name, action: Action::LdPnnA }
}

// 16 bit load
pub open spec fn ld_rr_nn_state<M: Machine>(s: State, m: M, rr: Reg16) -> State {
    set_reg16or24_state(advance_n_spec(s, imm_len(s)), rr, imm16or24_spec(s, m))
}

/// LD rr, nn
pub fn exec_ld_rr_nn<'a, M: Machine>(env: &mut Environment<'a, M>, rr: Reg16)
    ensures
        *final(env).state == (ld_rr_nn_state(*old(env).state, *old(env).sys, rr)),
        memory_written(*old(env).sys, *final(env).sys, seq![]),
        *final(final(env).state) == *final(old(env).state),
        *final(final(env).sys) == *final(old(env).sys),
{
    let ghost m0 = *env.sys;
    let value: u32 = env.advance_immediate16or24();
    env.set_reg16or24(rr, value);
    proof { lemma_no_writes(m0); }
}

pub open spec fn ld_rr_nn_op(rr: Reg16) -> (Action, Seq<char>) {
    (Action::LdRRNn(rr), "LD "@ + rr.name_spec() + ", nn"@)
}

pub fn build_ld_rr_nn(rr: Reg16) -> (op: Opcode)
    ensures
        is_op(op, ld_rr_nn_op(rr)),
{
    let mut name = String::from_str("LD ");
    name.append(rr.name());
    name.append(", nn");
    Opcode { name, action: Action::LdRRNn(rr) }
}

pub open spec fn ld_sp_hl_state(s: State) -> State {
    let v = reg16or24_ext_spec(s, Reg16::HL);
    if s.is_op_long_spec() {
        with_reg(s, s.reg.set24_spec(Reg16::SP, v))
    } else {
        with_reg(s, s.reg.set16_spec(Reg16::SP, (v % 65536) as u16))
    }
}

/// LD SP, HL
pub fn exec_ld_sp_hl<'a, M: Machine>(env: &mut Environment<'a, M>)
    ensures
        *final(env).state == (ld_sp_hl_state(*old(env).state)),
        memory_written(*old(env).sys, *final(env).sys, seq![]),
        *final(final(env).state) == *final(old(env).state),
        *final(final(env).sys) == *final(old(env).sys),
{
    let ghost m0 = *env.sys;
    let value = env.reg16or24_ext(Reg16::HL);
    if env.state.is_op_long() {
        env.set_reg24(Reg16::SP, value);
    } else {
        env.set_reg16(Reg16::SP, (value % 65536) as u16);
    }
    proof { lemma_no_writes(m0); }
}

pub open spec fn ld_sp_hl_op() -> (Action, Seq<char>) {
    (Action::LdSpHl, "LD SP, HL"@)
}

pub fn build_ld_sp_hl() -> (op: Opcode)
    ensures
        is_op(op, ld_sp_hl_op()),
{
    let mut name = String::from_str("LD SP, HL");
    Opcode { name, action: Action::LdSpHl }
}

pub open spec fn ld_pnn_rr_writes<M: Machine>(s: State, m: M, rr: Reg16) -> Seq<(u32, u8)> {
    let s1 = advance_n_spec(s, imm_len(s));
    let a = imm_address_spec(s, m);
    let v = reg16or24_ext_spec(s1, rr);
    if s.is_op_long_spec() {
        poke24_writes(s1, a, v)
    } else {
        poke16_writes(s1, a, (v % 65536) as u16)
    }
}

/// LD (nn), rr
pub fn exec_ld_pnn_rr<'a, M: Machine>(env: &mut Environment<'a, M>, rr: Reg16)
    ensures
        *final(env).state == (advance_n_spec(*old(env).state, imm_len(*old(env).state))),
        memory_written(*old(env).sys, *final(env).sys, ld_pnn_rr_writes(*old(env).state, *old(env).sys, rr)),
        *final(final(env).state) == *final(old(env).state),
        *final(final(env).sys) == *final(old(env).sys),
{
    let ghost s0 = *env.state;
    let address = env.advance_immediate_16mbase_or_24();
    proof { lemma_advance_keeps_mode(s0, imm_len(s0)); }
    let value = env.reg16or24_ext(rr);
    if env.state.is_op_long() {
        env.poke24(address, value);
    } else {
        env.poke16(address, (value % 65536) as u16);
    }
}

pub open spec fn ld_pnn_rr_op(rr: Reg16, _fast: bool) -> (Action, Seq<char>) {
    (Action::LdPnnRR(rr), "LD (nn), "@ + rr.name_spec())
}

pub fn build_ld_pnn_rr(rr: Reg16, _fast: bool) -> (op: Opcode)
    ensures
        is_op(op, ld_pnn_rr_op(rr, _fast)),
{
    let mut name = String::from_str("LD (nn), ");
    name.append(rr.name());
    Opcode { name, action: Action::LdPnnRR(rr) }
}

pub open spec fn ld_rr_pnn_state<M: Machine>(s: State, m: M, rr: Reg16) -> State {
    let s1 = advance_n_spec(s, imm_len(s));
    let a = imm_address_spec(s, m);
    if s.is_op_long_spec() {
        with_reg(s1, s1.reg.set24_spec(pair_ext(s1, rr), peek24_spec(s1, m, a)))
    } else {
        with_reg(s1, s1.reg.set16_spec(pair_ext(s1, rr), peek16_spec(s1, m, a)))
    }
}

/// LD rr, (nn)
pub fn exec_ld_rr_pnn<'a, M: Machine>(env: &mut Environment<'a, M>, rr: Reg16)
    ensures
        *final(env).state == (ld_rr_pnn_state(*old(env).state, *old(env).sys, rr)),
        memory_written(*old(env).sys, *final(env).sys, seq![]),
        *final(final(env).state) == *final(old(env).state),
        *final(final(env).sys) == *final(old(env).sys),
{
    let ghost s0 = *env.state;
    let ghost m0 = *env.sys;
    let address = env.advance_immediate_16mbase_or_24();
    proof { lemma_advance_keeps_mode(s0, imm_len(s0)); }
    if env.state.is_op_long() {
        let value = env.peek24(address);
        env.set_reg24(rr, value);
    } else {
        let value = env.peek16(address);
        env.set_reg16(rr, value);
    }
    proof { lemma_no_writes(m0); }
}

pub open spec fn ld_rr_pnn_op(rr: Reg16, _fast: bool) -> (Action, Seq<char>) {
    (Action::LdRRPnn(rr), "LD "@ + rr.name_spec() + ", (nn)"@)
}

pub fn build_ld_rr_pnn(rr: Reg16, _fast: bool) -> (op: Opcode)
    ensures
        is_op(op, ld_rr_pnn_op(rr, _fast)),
{
    let mut name = String::from_str("LD ");
    name.append(rr.name());
    name.append(", (nn)");
    Opcode { name, action: Action::LdRRPnn(rr) }
}

/// EX AF, AF'
pub fn exec_ex_af<'a, M: Machine>(env: &mut Environment<'a, M>)
    ensures
        *final(env).state == (with_reg(*old(env).state, old(env).state.reg.swap_spec(Reg16::AF))),
        memory_written(*old(env).sys, *final(env).sys, seq![]),
        *final(final(env).state) == *final(old(env).state),
        *final(final(env).sys) == *final(old(env).sys),
{
    let ghost m0 = *env.sys;
    env.state.reg.swap(Reg16::AF);
    proof { lemma_no_writes(m0); }
}

pub open spec fn ex_af_op() -> (Action, Seq<char>) {
    (Action::ExAf, "EX AF, AF'"@)
}

pub fn build_ex_af() -> (op: Opcode)
    ensures
        is_op(op, ex_af_op()),
{
    let mut name = String::from_str("EX AF, AF'");
    Opcode { name, action: Action::ExAf }
}

/// EXX
pub fn exec_exx<'a, M: Machine>(env: &mut Environment<'a, M>)
    ensures
        *final(env).state == (with_reg(*old(env).state, old(env).state.reg.swap_spec(Reg16::BC).swap_spec(Reg16::DE).swap_spec(Reg16::HL))),
        memory_written(*old(env).sys, *final(env).sys, seq![]),
        *final(final(env).state) == *final(old(env).state),
        *final(final(env).sys) == *final(old(env).sys),
{
    let ghost m0 = *env.sys;
    env.state.reg.swap(Reg16::BC);
    env.state.reg.swap(Reg16::DE);
    env.state.reg.swap(Reg16::HL); // NO IX, IY variant
    proof { lemma_no_writes(m0); }
}

pub open spec fn exx_op() -> (Action, Seq<char>) {
    (Action::Exx, "EXX"@)
}

pub fn build_exx() -> (op: Opcode)
    ensures
        is_op(op, exx_op()),
{
    let mut name = String::from_str("EXX");
    Opcode { name, action: Action::Exx }
}

pub open spec fn ex_de_hl_state(s: State) -> State {
    if s.is_op_long_spec() {
        with_reg(s, s.reg.set24_spec(Reg16::HL, s.reg.get24_spec(Reg16::DE)).set24_spec(Reg16::DE, s.reg.get24_spec(Reg16::HL)))
    } else {
        with_reg(s, s.reg.set16_spec(Reg16::HL, s.reg.get16_spec(Reg16::DE)).set16_spec(Reg16::DE, s.reg.get16_spec(Reg16::HL)))
    }
}

/// EX DE, HL
pub fn exec_ex_de_hl<'a, M: Machine>(env: &mut Environment<'a, M>)
    ensures
        *final(env).state == (ex_de_hl_state(*old(env).state)),
        memory_written(*old(env).sys, *final(env).sys, seq![]),
        *final(final(env).state) == *final(old(env).state),
        *final(final(env).sys) == *final(old(env).sys),
{
    let ghost m0 = *env.sys;
    if env.state.is_op_long() {
        let temp = env.state.reg.get24(Reg16::HL); // No IX/IY variant
        let de = env.state.reg.get24(Reg16::DE);
        env.state.reg.set24(Reg16::HL, de);
        env.state.reg.set24(Reg16::DE, temp);
    } else {
        let temp = env.state.reg.get16(Reg16::HL); // No IX/IY variant
        let de = env.state.reg.get16(Reg16::DE);
        env.state.reg.set16(Reg16::HL, de);
        env.state.reg.set16(Reg16::DE, temp);
    }
    proof { lemma_no_writes(m0); }
}

pub open spec fn ex_de_hl_op() -> (Action, Seq<char>) {
    (Action::ExDeHl, "EX DE, HL"@)
}

pub fn build_ex_de_hl() -> (op: Opcode)
    ensures
        is_op(op, ex_de_hl_op()),
{
    let mut name = String::from_str("EX DE, HL");
    Opcode { name, action: Action::ExDeHl }
}

pub open spec fn ex_psp_hl_state<M: Machine>(s: State, m: M) -> State {
    let a = s.sp_spec();
    if s.is_op_long_spec() {
        with_reg(s, s.reg.set24_spec(pair_ext(s, Reg16::HL), peek24_spec(s, m, a)))
    } else {
        with_reg(s, s.reg.set16_spec(pair_ext(s, Reg16::HL), peek16_spec(s, m, a)))
    }
}

pub open spec fn ex_psp_hl_writes(s: State) -> Seq<(u32, u8)> {
    let a = s.sp_spec();
    let temp = reg16or24_ext_spec(s, Reg16::HL);
    if s.is_op_long_spec() {
        poke24_writes(s, a, temp)
    } else {
        poke16_writes(s, a, (temp % 65536) as u16)
    }
}

/// EX (SP), HL
pub fn exec_ex_psp_hl<'a, M: Machine>(env: &mut Environment<'a, M>)
    ensures
        *final(env).state == (ex_psp_hl_state(*old(env).state, *old(env).sys)),
        memory_written(*old(env).sys, *final(env).sys, ex_psp_hl_writes(*old(env).state)),
        *final(final(env).state) == *final(old(env).state),
        *final(final(env).sys) == *final(old(env).sys),
{
    let address = env.state.sp();
    let temp = env.reg16or24_ext(Reg16::HL);
    if env.state.is_op_long() {
        let v = env.peek24(address);
        env.set_reg24(Reg16::HL, v);
        env.poke24(address, temp);
    } else {
        let v = env.peek16(address);
        env.set_reg16(Reg16::HL, v);
        env.poke16(address, (temp % 65536) as u16);
    }
}

pub open spec fn ex_psp_hl_op() -> (Action, Seq<char>) {
    (Action::ExPspHl, "EX (SP), HL"@)
}

pub fn build_ex_psp_hl() -> (op: Opcode)
    ensures
        is_op(op, ex_psp_hl_op()),
{
    let mut name = String::from_str("EX (SP), HL");
    Opcode { name, action: Action::ExPspHl }
}

/// Registers after the counters of a block transfer move: DE and HL one
/// step, BC one down; 24 bits long when `long`.
pub open spec fn ld_counters_reg(r: Registers, long: bool, inc: bool) -> Registers {
    if long {
        r.set24_spec(Reg16::DE, step24(r.get24_spec(Reg16::DE), inc))
            .set24_spec(Reg16::HL, step24(r.get24_spec(Reg16::HL), inc))
            .set24_spec(Reg16::BC, step24(r.get24_spec(Reg16::BC), false))
    } else {
        r.set16_spec(Reg16::DE, step16(r.get16_spec(Reg16::DE), inc))
            .set16_spec(Reg16::HL, step16(r.get16_spec(Reg16::HL), inc))
            .set16_spec(Reg16::BC, step16(r.get16_spec(Reg16::BC), false))
    }
}

pub open spec fn ld_block_counters(s: State, inc: bool) -> Registers {
    ld_counters_reg(s.reg, s.is_op_long_spec(), inc)
}

/// The new BC after a block instruction (16 or 24 bits).
pub open spec fn block_bc_reg(r: Registers, long: bool) -> u32 {
    if long {
        step24(r.get24_spec(Reg16::BC), false)
    } else {
        step16(r.get16_spec(Reg16::BC), false) as u32
    }
}

pub open spec fn block_bc(s: State) -> u32 {
    block_bc_reg(s.reg, s.is_op_long_spec())
}

fn ld_counters(reg: &mut Registers, long: bool, inc: bool) -> (bc: u32)
    ensures
        *final(reg) == ld_counters_reg(*old(reg), long, inc),
        bc == block_bc_reg(*old(reg), long),
{
    if long {
        reg.inc_dec24(Reg16::DE, inc);
        reg.inc_dec24(Reg16::HL, inc);
        reg.inc_dec24(Reg16::BC, false /*decrement*/)
    } else {
        reg.inc_dec16(Reg16::DE, inc);
        reg.inc_dec16(Reg16::HL, inc);
        reg.inc_dec16(Reg16::BC, false /*decrement*/) as u32
    }
}

/// F of LDI/LDD: bits 5 and 3 from `n` (TUZD-4.2), N and H cleared, P/V set
/// while BC is not zero.
pub open spec fn ld_block_flags(f: u8, n: u8, bc: u32) -> u8 {
    with_bits(with_bits(with_bits(block53_spec(f, n), 2, false), 16, false), 4, bc != 0)
}

fn ld_block_flags_exec(reg: &mut Registers, n: u8, bc: u32)
    ensures
        *final(reg) == (Registers { f: ld_block_flags(old(reg).f, n, bc), ..*old(reg) }),
{
    reg.update_undocumented_flags_block(n);
    reg.clear_flag(Flag::N);
    reg.clear_flag(Flag::H);
    reg.put_flag(Flag::P, bc != 0);
}

pub open spec fn ld_block_state<M: Machine>(s: State, m: M, inc: bool, repeat: bool) -> State {
    let value = reg8_ext_spec(s, m, Reg8::_HL);
    let r1 = ld_block_counters(s, inc);
    let bc = block_bc(s);
    // TUZD-4.2
    let n = ((value + s.reg.a) % 256) as u8;
    let f = ld_block_flags(r1.f, n, bc);
    let s2 = with_reg(s, Registers { f: f, ..r1 });
    if repeat && bc != 0 {
        repeat_pc_spec(s2, 2)
    } else {
        s2
    }
}

/// Block transfer LDI, LDD, LDIR and LDDR
#[verifier::rlimit(80)]
pub fn exec_ld_block<'a, M: Machine>(env: &mut Environment<'a, M>, inc: bool, repeat: bool)
    ensures
        *final(env).state == (ld_block_state(*old(env).state, *old(env).sys, inc, repeat)),
        memory_written(*old(env).sys, *final(env).sys, seq![(reg_address_spec(*old(env).state, Reg16::DE), reg8_ext_spec(*old(env).state, *old(env).sys, Reg8::_HL))]),
        *final(final(env).state) == *final(old(env).state),
        *final(final(env).sys) == *final(old(env).sys),
{
    let value = env.reg8_ext(Reg8::_HL);
    let address = env.reg16mbase_or_24(Reg16::DE);
    env.poke(address, value);

    let long = env.state.is_op_long();
    let bc = ld_counters(&mut env.state.reg, long, inc);

    // TUZD-4.2
    let n = value.wrapping_add(env.state.reg.a());
    ld_block_flags_exec(&mut env.state.reg, n, bc);
    // S, Z and C unchanged. What about N?

    if repeat && bc != 0 {
        // Back to redo the instruction
        let pc = env.wrap_address(env.state.pc(), -2);
        env.state.set_pc(pc);
    }
}

pub open spec fn ld_block_op(inc: bool, repeat: bool, postfix: Seq<char>) -> (Action, Seq<char>) {
    (Action::LdBlock(inc, repeat), "LD"@ + postfix)
}

pub fn build_ld_block(bli: (bool, bool, &'static str)) -> (op: Opcode)
    ensures
        is_op(op, ld_block_op(bli.0, bli.1, bli.2@)),
{
    let (inc, repeat, postfix) = bli;
    let mut name = String::from_str("LD");
    name.append(postfix);
    Opcode { name, action: Action::LdBlock(inc, repeat) }
}

/// LD A, MB
pub fn exec_ld_a_mb<'a, M: Machine>(env: &mut Environment<'a, M>)
    ensures
        *final(env).state == (with_reg(*old(env).state, old(env).state.reg.set8_spec(Reg8::A, old(env).state.reg.mbase))),
        memory_written(*old(env).sys, *final(env).sys, seq![]),
        *final(final(env).state) == *final(old(env).state),
        *final(final(env).sys) == *final(old(env).sys),
{
    let ghost m0 = *env.sys;
    let mb = env.state.reg.mbase;
    env.state.reg.set8(Reg8::A, mb);
    proof { lemma_no_writes(m0); }
}

pub open spec fn ld_a_mb_op() -> (Action, Seq<char>) {
    (Action::LdAMb, "LD A, MB"@)
}

pub fn build_ld_a_mb() -> (op: Opcode)
    ensures
        is_op(op, ld_a_mb_op()),
{
    let mut name = String::from_str("LD A, MB");
    Opcode { name, action: Action::LdAMb }
}

/// LD MB, A
pub fn exec_ld_mb_a<'a, M: Machine>(env: &mut Environment<'a, M>)
    ensures
        *final(env).state == (with_reg(*old(env).state, Registers { mbase: old(env).state.reg.a, ..old(env).state.reg })),
        memory_written(*old(env).sys, *final(env).sys, seq![]),
        *final(final(env).state) == *final(old(env).state),
        *final(final(env).sys) == *final(old(env).sys),
{
    let ghost m0 = *env.sys;
    env.state.reg.mbase = env.state.reg.get8(Reg8::A);
    proof { lemma_no_writes(m0); }
}

pub open spec fn ld_mb_a_op() -> (Action, Seq<char>) {
    (Action::LdMbA, "LD MB, A"@)
}

pub fn build_ld_mb_a() -> (op: Opcode)
    ensures
        is_op(op, ld_mb_a_op()),
{
    let mut name = String::from_str("LD MB, A");
    Opcode { name, action: Action::LdMbA }
}

pub open spec fn ld_idx_disp_rr_writes<M: Machine>(s: State, m: M, index_reg: Reg16, src: Reg16) -> Seq<(u32, u8)> {
    let d = disp_spec(s, m) as int;
    let s1 = advance_pc_spec(s);
    if s.is_op_long_spec() {
        poke24_writes(s1, wrap24(s.reg.get24_spec(index_reg), d), s.reg.get24_spec(src))
    } else {
        poke16_writes(s1, wrap24(s.reg.get16_mbase_spec(index_reg), d), s.reg.get16_spec(src))
    }
}

/// LD (IX+d), rr
pub fn exec_ld_idx_disp_rr<'a, M: Machine>(env: &mut Environment<'a, M>, index_reg: Reg16, src: Reg16)
    ensures
        *final(env).state == (advance_pc_spec(*old(env).state)),
        memory_written(*old(env).sys, *final(env).sys, ld_idx_disp_rr_writes(*old(env).state, *old(env).sys, index_reg, src)),
        *final(final(env).state) == *final(old(env).state),
        *final(final(env).sys) == *final(old(env).sys),
{
    let ghost s0 = *env.state;
    let d = env.advance_pc() as i8;
    proof { reveal_with_fuel(advance_n_spec, 1); lemma_advance_keeps_mode(s0, 1); }
    if env.state.is_op_long() {
        let value = env.state.reg.get24(src);
        let address = env.wrap_address24(env.state.reg.get24(index_reg), d as i32);
        env.poke24(address, value);
    } else {
        let value = env.state.reg.get16(src);
        let address = env.wrap_address24(env.state.reg.get16_mbase(index_reg), d as i32);
        env.poke16(address, value);
    }
}

pub open spec fn ld_idx_disp_rr_op(index_reg: Reg16, src: Reg16) -> (Action, Seq<char>) {
    (Action::LdIdxDispRR(index_reg, src), "LD ("@ + index_reg.name_spec() + "+n), "@ + src.name_spec())
}

pub fn build_ld_idx_disp_rr(index_reg: Reg16, src: Reg16) -> (op: Opcode)
    ensures
        is_op(op, ld_idx_disp_rr_op(index_reg, src)),
{
    let mut name = String::from_str("LD (");
    name.append(index_reg.name());
    name.append("+n), ");
    name.append(src.name());
    Opcode { name, action: Action::LdIdxDispRR(index_reg, src) }
}

pub open spec fn ld_rr_idx_disp_state<M: Machine>(s: State, m: M, dest: Reg16, index_reg: Reg16) -> State {
    let d = disp_spec(s, m) as int;
    let s1 = advance_pc_spec(s);
    if s.is_op_long_spec() {
        with_reg(s1, s1.reg.set24_spec(dest, peek24_spec(s1, m, wrap24(s.reg.get24_spec(index_reg), d))))
    } else {
        with_reg(s1, s1.reg.set16_spec(dest, peek16_spec(s1, m, wrap24(s.reg.get16_mbase_spec(index_reg), d))))
    }
}

/// LD rr, (IX+d)
pub fn exec_ld_rr_idx_disp<'a, M: Machine>(env: &mut Environment<'a, M>, dest: Reg16, index_reg: Reg16)
    ensures
        *final(env).state == (ld_rr_idx_disp_state(*old(env).state, *old(env).sys, dest, index_reg)),
        memory_written(*old(env).sys, *final(env).sys, seq![]),
        *final(final(env).state) == *final(old(env).state),
        *final(final(env).sys) == *final(old(env).sys),
{
    let ghost s0 = *env.state;
    let ghost m0 = *env.sys;
    let d = env.advance_pc() as i8;
    proof { reveal_with_fuel(advance_n_spec, 1); lemma_advance_keeps_mode(s0, 1); }
    if env.state.is_op_long() {
        let address = env.wrap_address24(env.state.reg.get24(index_reg), d as i32);
        let value = env.peek24(address);
        env.state.reg.set24(dest, value);
    } else {
        let address = env.wrap_address24(env.state.reg.get16_mbase(index_reg), d as i32);
        let value = env.peek16(address);
        env.state.reg.set16(dest, value);
    }
    proof { lemma_no_writes(m0); }
}

pub open spec fn ld_rr_idx_disp_op(dest: Reg16, index_reg: Reg16) -> (Action, Seq<char>) {
    (Action::LdRRIdxDisp(dest, index_reg), "LD "@ + dest.name_spec() + ", ("@ + index_reg.name_spec() + "+n)"@)
}

pub fn build_ld_rr_idx_disp(dest: Reg16, index_reg: Reg16) -> (op: Opcode)
    ensures
        is_op(op, ld_rr_idx_disp_op(dest, index_reg)),
{
    let mut name = String::from_str("LD ");
    name.append(dest.name());
    name.append(", (");
    name.append(index_reg.name());
    name.append("+n)");
    Opcode { name, action: Action::LdRRIdxDisp(dest, index_reg) }
}

pub open spec fn ld_rr_ind_hl_state<M: Machine>(s: State, m: M, dest: Reg16) -> State {
    if s.is_op_long_spec() {
        with_reg(s, s.reg.set24_spec(dest, peek24_spec(s, m, s.reg.get24_spec(Reg16::HL))))
    } else {
        with_reg(s, s.reg.set16_spec(dest, peek16_spec(s, m, s.reg.get16_mbase_spec(Reg16::HL))))
    }
}

/// LD rr, (HL)
pub fn exec_ld_rr_ind_hl<'a, M: Machine>(env: &mut Environment<'a, M>, dest: Reg16)
    ensures
        *final(env).state == (ld_rr_ind_hl_state(*old(env).state, *old(env).sys, dest)),
        memory_written(*old(env).sys, *final(env).sys, seq![]),
        *final(final(env).state) == *final(old(env).state),
        *final(final(env).sys) == *final(old(env).sys),
{
    let ghost m0 = *env.sys;
    if env.state.is_op_long() {
        let address = env.state.reg.get24(Reg16::HL);
        let value = env.peek24(address);
        env.state.reg.set24(dest, value);
    } else {
        let address = env.state.reg.get16_mbase(Reg16::HL);
        let value = env.peek16(address);
        env.state.reg.set16(dest, value);
    }
    proof { lemma_no_writes(m0); }
}

pub open spec fn ld_rr_ind_hl_op(dest: Reg16) -> (Action, Seq<char>) {
    (Action::LdRRIndHl(dest), "LD "@ + dest.name_spec() + ", (HL)"@)
}

pub fn build_ld_rr_ind_hl(dest: Reg16) -> (op: Opcode)
    ensures
        is_op(op, ld_rr_ind_hl_op(dest)),
{
    let mut name = String::from_str("LD ");
    name.append(dest.name());
    name.append(", (HL)");
    Opcode { name, action: Action::LdRRIndHl(dest) }
}

pub open spec fn ld_ind_hl_rr_writes(s: State, src: Reg16) -> Seq<(u32, u8)> {
    if s.is_op_long_spec() {
        poke24_writes(s, s.reg.get24_spec(Reg16::HL), s.reg.get24_spec(src))
    } else {
        poke16_writes(s, s.reg.get16_mbase_spec(Reg16::HL), s.reg.get16_spec(src))
    }
}

/// LD (HL), rr
pub fn exec_ld_ind_hl_rr<'a, M: Machine>(env: &mut Environment<'a, M>, src: Reg16)
    ensures
        *final(env).state == (*old(env).state),
        memory_written(*old(env).sys, *final(env).sys, ld_ind_hl_rr_writes(*old(env).state, src)),
        *final(final(env).state) == *final(old(env).state),
        *final(final(env).sys) == *final(old(env).sys),
{
    if env.state.is_op_long() {
        let address = env.state.reg.get24(Reg16::HL);
        let value = env.state.reg.get24(src);
        env.poke24(address, value);
    } else {
        let address = env.state.reg.get16_mbase(Reg16::HL);
        let value = env.state.reg.get16(src);
        env.poke16(address, value);
    }
}

pub open spec fn ld_ind_hl_rr_op(src: Reg16) -> (Action, Seq<char>) {
    (Action::LdIndHlRR(src), "LD (HL), "@ + src.name_spec())
}

pub fn build_ld_ind_hl_rr(src: Reg16) -> (op: Opcode)
    ensures
        is_op(op, ld_ind_hl_rr_op(src)),
{
    let mut name = String::from_str("LD (HL), ");
    name.append(src.name());
    Opcode { name, action: Action::LdIndHlRR(src) }
}

/// A 24 bit write to a pair keeps the other pairs, A and F.
proof fn lemma_set24_keeps(r: Registers, rr: Reg16, other: Reg16, v: u32)
    requires
        rr == Reg16::BC || rr == Reg16::DE || rr == Reg16::HL,
        other == Reg16::BC || other == Reg16::DE || other == Reg16::HL,
        rr != other,
    ensures
        r.set24_spec(rr, v).get24_spec(other) == r.get24_spec(other),
        r.set24_spec(rr, v).a == r.a,
        r.set24_spec(rr, v).f == r.f,
{
}

/// One step of a 24 bit value, below 2^24.
proof fn lemma_step24_pair(r: Registers, rr: Reg16, inc: bool)
    ensures
        step24(r.get24_spec(rr), inc) == (r.get24_spec(rr) + (if inc { 1int } else { 0xffffff })) % 0x1000000,
        step24(r.get24_spec(rr), inc) < 0x1000000,
{
}

#[verifier::spinoff_prover]
#[verifier::rlimit(60)]
proof fn lemma_ld_counters_long(r: Registers, inc: bool)
    ensures
        ({
            let r1 = ld_counters_reg(r, true, inc);
            let d: int = if inc { 1 } else { 0xffffff };
            &&& r1.a == r.a && r1.f == r.f
            &&& r1.get24_spec(Reg16::BC) == (r.get24_spec(Reg16::BC) + 0xffffff) % 0x1000000
            &&& r1.get24_spec(Reg16::HL) == (r.get24_spec(Reg16::HL) + d) % 0x1000000
            &&& r1.get24_spec(Reg16::DE) == (r.get24_spec(Reg16::DE) + d) % 0x1000000
            &&& block_bc_reg(r, true) == r1.get24_spec(Reg16::BC)
        }),
{
    let de = step24(r.get24_spec(Reg16::DE), inc);
    let hl = step24(r.get24_spec(Reg16::HL), inc);
    let bc = step24(r.get24_spec(Reg16::BC), false);
    let r1 = r.set24_spec(Reg16::DE, de);
    let r2 = r1.set24_spec(Reg16::HL, hl);
    let r3 = r2.set24_spec(Reg16::BC, bc);
    lemma_step24_pair(r, Reg16::DE, inc);
    lemma_step24_pair(r, Reg16::HL, inc);
    lemma_step24_pair(r, Reg16::BC, false);
    lemma_set24_read(r, Reg16::DE, de);
    lemma_set24_keeps(r, Reg16::DE, Reg16::HL, de);
    lemma_set24_keeps(r, Reg16::DE, Reg16::BC, de);
    lemma_set24_read(r1, Reg16::HL, hl);
    lemma_set24_keeps(r1, Reg16::HL, Reg16::DE, hl);
    lemma_set24_keeps(r1, Reg16::HL, Reg16::BC, hl);
    lemma_set24_read(r2, Reg16::BC, bc);
    lemma_set24_keeps(r2, Reg16::BC, Reg16::DE, bc);
    lemma_set24_keeps(r2, Reg16::BC, Reg16::HL, bc);
}

/// A 24 bit write of a value below 2^24 is read back.
proof fn lemma_set24_read(r: Registers, rr: Reg16, v: u32)
    requires
        rr == Reg16::BC || rr == Reg16::DE || rr == Reg16::HL,
        v < 0x1000000,
    ensures
        r.set24_spec(rr, v).get24_spec(rr) == v,
{
    crate::registers::lemma_set24_get24(r, rr, v);
}

/// A 16 bit write to a pair keeps the other pairs, A and F, and is read back.
proof fn lemma_set16_pairs(r: Registers, rr: Reg16, v: u16)
    requires
        rr == Reg16::BC || rr == Reg16::DE || rr == Reg16::HL,
    ensures
        r.set16_spec(rr, v).get16_spec(rr) == v,
        rr != Reg16::BC ==> r.set16_spec(rr, v).get16_spec(Reg16::BC) == r.get16_spec(Reg16::BC),
        rr != Reg16::DE ==> r.set16_spec(rr, v).get16_spec(Reg16::DE) == r.get16_spec(Reg16::DE),
        rr != Reg16::HL ==> r.set16_spec(rr, v).get16_spec(Reg16::HL) == r.get16_spec(Reg16::HL),
        r.set16_spec(rr, v).a == r.a,
        r.set16_spec(rr, v).f == r.f,
{
    crate::registers::lemma_set16_get16(r, rr, v);
}

#[verifier::spinoff_prover]
#[verifier::rlimit(60)]
proof fn lemma_ld_counters_short(r: Registers, inc: bool)
    ensures
        ({
            let r1 = ld_counters_reg(r, false, inc);
            let d: int = if inc { 1 } else { 0xffff };
            &&& r1.a == r.a && r1.f == r.f
            &&& r1.get16_spec(Reg16::BC) == (r.get16_spec(Reg16::BC) + 0xffff) % 0x10000
            &&& r1.get16_spec(Reg16::HL) == (r.get16_spec(Reg16::HL) + d) % 0x10000
            &&& r1.get16_spec(Reg16::DE) == (r.get16_spec(Reg16::DE) + d) % 0x10000
            &&& block_bc_reg(r, false) == r1.get16_spec(Reg16::BC)
        }),
{
    let de = step16(r.get16_spec(Reg16::DE), inc);
    let hl = step16(r.get16_spec(Reg16::HL), inc);
    let bc = step16(r.get16_spec(Reg16::BC), false);
    let r1 = r.set16_spec(Reg16::DE, de);
    let r2 = r1.set16_spec(Reg16::HL, hl);
    lemma_set16_pairs(r, Reg16::DE, de);
    lemma_set16_pairs(r1, Reg16::HL, hl);
    lemma_set16_pairs(r2, Reg16::BC, bc);
}

/// LDI, LDD, LDIR and LDDR move HL and DE by one (up for LDI and LDIR,
/// down for LDD and LDDR), count BC down (16 or 24 bits), keep A, Z, S
/// and C, and set P/V while BC is not zero. The repeating forms step the
/// PC back over the instruction to run it again exactly while BC is not
/// zero.
#[verifier::spinoff_prover]
#[verifier::rlimit(40)]
pub proof fn lemma_ld_block<M: Machine>(s: State, m: M, inc: bool, repeat: bool)
    ensures
        ({
            let t = ld_block_state(s, m, inc, repeat);
            let long = s.is_op_long_spec();
            let d16: int = if inc { 1 } else { 0xffff };
            let d24: int = if inc { 1 } else { 0xffffff };
            let bc: int = if long { t.reg.get24_spec(Reg16::BC) as int } else { t.reg.get16_spec(Reg16::BC) as int };
            &&& t.reg.a == s.reg.a
            &&& long ==> t.reg.get24_spec(Reg16::BC) == (s.reg.get24_spec(Reg16::BC) + 0xffffff) % 0x1000000
            &&& long ==> t.reg.get24_spec(Reg16::HL) == (s.reg.get24_spec(Reg16::HL) + d24) % 0x1000000
            &&& long ==> t.reg.get24_spec(Reg16::DE) == (s.reg.get24_spec(Reg16::DE) + d24) % 0x1000000
            &&& !long ==> t.reg.get16_spec(Reg16::BC) == (s.reg.get16_spec(Reg16::BC) + 0xffff) % 0x10000
            &&& !long ==> t.reg.get16_spec(Reg16::HL) == (s.reg.get16_spec(Reg16::HL) + d16) % 0x10000
            &&& !long ==> t.reg.get16_spec(Reg16::DE) == (s.reg.get16_spec(Reg16::DE) + d16) % 0x10000
            &&& (t.reg.f & 4 != 0) == (bc != 0)
            &&& (t.reg.f & 0x40 != 0) == (s.reg.f & 0x40 != 0)
            &&& (t.reg.f & 0x80 != 0) == (s.reg.f & 0x80 != 0)
            &&& (t.reg.f & 1 != 0) == (s.reg.f & 1 != 0)
            &&& (repeat && bc != 0) ==> t.reg.pc == wrap_spec(s, s.pc_spec(), -2) % 0x1000000
            &&& !(repeat && bc != 0) ==> t.reg.pc == s.reg.pc
        }),
{
    let long = s.is_op_long_spec();
    let value = reg8_ext_spec(s, m, Reg8::_HL);
    let r1 = ld_block_counters(s, inc);
    let bcv = block_bc(s);
    let n = ((value + s.reg.a) % 256) as u8;
    if long {
        lemma_ld_counters_long(s.reg, inc);
    } else {
        lemma_ld_counters_short(s.reg, inc);
    }
    let g0 = block53_spec(r1.f, n);
    let g1 = with_bits(g0, 2, false);
    let g2 = with_bits(g1, 16, false);
    crate::opcode_alu::lemma_block53_keeps_z(r1.f, n);
    crate::operators::lemma_flag_bits(0, r1.f, 0, n);
    crate::operators::lemma_bit_of_with_bits(g0, 2, false, 0x40);
    crate::operators::lemma_bit_of_with_bits(g1, 16, false, 0x40);
    crate::operators::lemma_bit_of_with_bits(g2, 4, bcv != 0, 0x40);
    lemma_block53_keeps_s_c(r1.f, n);
    crate::operators::lemma_bit_of_with_bits(g0, 2, false, 0x80);
    crate::operators::lemma_bit_of_with_bits(g1, 16, false, 0x80);
    crate::operators::lemma_bit_of_with_bits(g2, 4, bcv != 0, 0x80);
    crate::operators::lemma_bit_of_with_bits(g0, 2, false, 1);
    crate::operators::lemma_bit_of_with_bits(g1, 16, false, 1);
    crate::operators::lemma_bit_of_with_bits(g2, 4, bcv != 0, 1);
    lemma_pv_bit(g2, bcv != 0);
    let s2 = with_reg(s, Registers { f: ld_block_flags(r1.f, n, bcv), ..r1 });
    assert(s2.reg.get24_spec(Reg16::BC) == r1.get24_spec(Reg16::BC));
    assert(s2.reg.get16_spec(Reg16::BC) == r1.get16_spec(Reg16::BC));
    assert(s2.reg.get24_spec(Reg16::HL) == r1.get24_spec(Reg16::HL));
    assert(s2.reg.get16_spec(Reg16::HL) == r1.get16_spec(Reg16::HL));
    assert(s2.reg.get24_spec(Reg16::DE) == r1.get24_spec(Reg16::DE));
    assert(s2.reg.get16_spec(Reg16::DE) == r1.get16_spec(Reg16::DE));
    let t = ld_block_state(s, m, inc, repeat);
    assert(t.reg == s2.reg || t.reg == (Registers { pc: t.reg.pc, ..s2.reg }));
}

proof fn lemma_block53_keeps_s_c(g: u8, n: u8)
    by (bit_vector)
    ensures
        (block53_spec(g, n) & 0x80 != 0) == (g & 0x80 != 0),
        (block53_spec(g, n) & 1 != 0) == (g & 1 != 0),
{
}

proof fn lemma_pv_bit(g: u8, on: bool)
    by (bit_vector)
    ensures
        (with_bits(g, 4, on) & 4 != 0) == on,
{
}

} // verus!
