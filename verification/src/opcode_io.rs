use vstd::prelude::*;

use crate::environment::{
    Environment,
    advance_n_spec,
    advance_pc_spec,
    code_byte,
    index_address_spec,
    lemma_advance_keeps_mode,
    reg8_ext_spec,
    repeat_pc_spec,
    step16,
    step24,
    with_reg,
    wrap_spec,
};
use crate::machine::{
    Machine,
    PortAccess,
    io_written,
    lemma_io_written_compose,
    lemma_memory_io_written,
    lemma_io_same_memory,
    memory_written,
    same_memory,
};
use crate::opcode::{Action, Opcode, is_op};
use crate::opcode_alu::{counter_bc, cp_counters_reg};
use crate::registers::{Flag, Reg16, Reg8, Registers, arith_flags_spec, bits_flags_spec, block_io_flags_spec, parity_even, sz53_spec, with_bits};
use crate::state::{SizePrefix, State};

verus! {

/*
    From "The undocumented Z80 documented" TUZD-4.4:

Officially the Z80 has an 8 bit I/O port address space. When using the I/O ports, the 16 address
lines are used. And in fact, the high 8 bit do actually have some value, so you can use 65536
ports after all. IN r,(C), OUT (C),r, and the Block I/O instructions actually place the entire BC
register on the address bus. Similarly IN A,(n) and OUT (n),A put A * 256 + n on the address
bus.
The INI/INIR/IND/INDR instructions use BC after decrementing B, and the OUTI/OTIR/OUTD/OTDR
instructions before.
*/

/// The port accesses of OUT (C), r: r written to the port BC.
pub open spec fn out_c_r_ports(s: State, r: Reg8) -> Seq<PortAccess> {
    seq![PortAccess::Write { address: s.reg.get16_spec(Reg16::BC), value: s.reg.get8_spec(r) }]
}

/// The port accesses of OUT (C), 0: 0 written to the port BC.
pub open spec fn out_c_0_ports(s: State) -> Seq<PortAccess> {
    seq![PortAccess::Write { address: s.reg.get16_spec(Reg16::BC), value: 0 }]
}

/// Port address A*256+n of OUT (n), A and IN A, (n), n the byte after the opcode.
pub open spec fn a_n_port<M: Machine>(s: State, m: M) -> u16 {
    (s.reg.a * 256 + code_byte(s, m, 0)) as u16
}

/// The port accesses of OUT (n), A: A written to the port A*256+n.
pub open spec fn out_n_a_ports<M: Machine>(s: State, m: M) -> Seq<PortAccess> {
    seq![PortAccess::Write { address: a_n_port(s, m), value: s.reg.a }]
}

/// The port accesses of OUT0 (n), r: r written to the port n.
pub open spec fn out0_n_r_ports<M: Machine>(s: State, m: M, r: Reg8) -> Seq<PortAccess> {
    seq![PortAccess::Write { address: code_byte(s, m, 0) as u16, value: s.reg.get8_spec(r) }]
}

/// The port accesses of IN0 r, (n): `v` read from the port n.
pub open spec fn in0_r_n_ports<M: Machine>(s: State, m: M, v: u8) -> Seq<PortAccess> {
    seq![PortAccess::Read { address: code_byte(s, m, 0) as u16, value: v }]
}

/// The port accesses of IN r, (C) and IN (C): `v` read from the port BC.
pub open spec fn in_r_c_ports(s: State, v: u8) -> Seq<PortAccess> {
    seq![PortAccess::Read { address: s.reg.get16_spec(Reg16::BC), value: v }]
}

/// The port accesses of IN A, (n): `v` read from the port A*256+n.
pub open spec fn in_a_n_ports<M: Machine>(s: State, m: M, v: u8) -> Seq<PortAccess> {
    seq![PortAccess::Read { address: a_n_port(s, m), value: v }]
}

/// The port accesses of INI/IND: `v` read from the port BC, B already decremented.
pub open spec fn in_block_ports(s: State, v: u8) -> Seq<PortAccess> {
    seq![PortAccess::Read { address: dec_b_state(s).reg.get16_spec(Reg16::BC), value: v }]
}

/// The port accesses of OUTI/OUTD: the byte at (HL) written to the port BC,
/// B not yet decremented.
pub open spec fn out_block_ports<M: Machine>(s: State, m: M) -> Seq<PortAccess> {
    seq![PortAccess::Write { address: s.reg.get16_spec(Reg16::BC), value: reg8_ext_spec(dec_b_state(s), m, Reg8::_HL) }]
}

/// The port accesses of OTIRX/OTDRX: the byte at (HL) written to the port DE.
pub open spec fn otirx_ports<M: Machine>(s: State, m: M) -> Seq<PortAccess> {
    seq![PortAccess::Write { address: s.reg.get16_spec(Reg16::DE), value: reg8_ext_spec(s, m, Reg8::_HL) }]
}

/// OUT (C), r: writes r to the port BC
pub fn exec_out_c_r<'a, M: Machine>(env: &mut Environment<'a, M>, r: Reg8)
    ensures
        *final(env).state == (*old(env).state),
        io_written(*old(env).sys, *final(env).sys, seq![], out_c_r_ports(*old(env).state, r)),
        *final(final(env).state) == *final(old(env).state),
        *final(final(env).sys) == *final(old(env).sys),
{
    let ghost m0 = *env.sys;
    let address = env.state.reg.get16(Reg16::BC);
    let value = env.state.reg.get8(r);
    env.port_out(address, value);
}

pub open spec fn out_c_r_op(r: Reg8) -> (Action, Seq<char>) {
    (Action::OutCR(r), "OUT (C), "@ + r.name_spec())
}

pub fn build_out_c_r(r: Reg8) -> (op: Opcode)
    ensures
        is_op(op, out_c_r_op(r)),
{
    let mut name = String::from_str("OUT (C), ");
    name.append(r.name());
    Opcode { name, action: Action::OutCR(r) }
}

/// OUT (C), 0
pub fn exec_out_c_0<'a, M: Machine>(env: &mut Environment<'a, M>)
    ensures
        *final(env).state == (*old(env).state),
        io_written(*old(env).sys, *final(env).sys, seq![], out_c_0_ports(*old(env).state)),
        *final(final(env).state) == *final(old(env).state),
        *final(final(env).sys) == *final(old(env).sys),
{
    let ghost m0 = *env.sys;
    let address = env.state.reg.get16(Reg16::BC);
    env.port_out(address, 0);
}

pub open spec fn out_c_0_op() -> (Action, Seq<char>) {
    (Action::OutC0, "OUT (C), 0"@)
}

pub fn build_out_c_0() -> (op: Opcode)
    ensures
        is_op(op, out_c_0_op()),
{
    let mut name = String::from_str("OUT (C), 0");
    Opcode { name, action: Action::OutC0 }
}

/// OUT (n), A: writes A to the port A*256+n
pub fn exec_out_n_a<'a, M: Machine>(env: &mut Environment<'a, M>)
    ensures
        *final(env).state == (advance_pc_spec(*old(env).state)),
        io_written(*old(env).sys, *final(env).sys, seq![], out_n_a_ports(*old(env).state, *old(env).sys)),
        *final(final(env).state) == *final(old(env).state),
        *final(final(env).sys) == *final(old(env).sys),
{
    let ghost m0 = *env.sys;
    let a = env.state.reg.a();
    let address = (a as u16) * 256 + env.advance_pc() as u16;
    env.port_out(address, a);
}

pub open spec fn out_n_a_op() -> (Action, Seq<char>) {
    (Action::OutNA, "OUT (n), A"@)
}

pub fn build_out_n_a() -> (op: Opcode)
    ensures
        is_op(op, out_n_a_op()),
{
    let mut name = String::from_str("OUT (n), A");
    Opcode { name, action: Action::OutNA }
}

/// OUT0 (n), r: writes r to the port n
pub fn exec_out0_n_r<'a, M: Machine>(env: &mut Environment<'a, M>, r: Reg8)
    ensures
        *final(env).state == (advance_pc_spec(*old(env).state)),
        io_written(*old(env).sys, *final(env).sys, seq![], out0_n_r_ports(*old(env).state, *old(env).sys, r)),
        *final(final(env).state) == *final(old(env).state),
        *final(final(env).sys) == *final(old(env).sys),
{
    let ghost m0 = *env.sys;
    let address = env.advance_pc() as u16;
    let data = env.state.reg.get8(r);
    env.port_out(address, data);
}

pub open spec fn out0_n_r_op(r: Reg8) -> (Action, Seq<char>) {
    (Action::Out0NR(r), "OUT0 (n), "@ + r.name_spec())
}

pub fn build_out0_n_r(r: Reg8) -> (op: Opcode)
    ensures
        is_op(op, out0_n_r_op(r)),
{
    let mut name = String::from_str("OUT0 (n), ");
    name.append(r.name());
    Opcode { name, action: Action::Out0NR(r) }
}

/// The state after IN0 r, (n) read `v`.
pub open spec fn in0_r_n_state(s: State, r: Reg8, v: u8) -> State {
    let s1 = advance_pc_spec(s);
    with_reg(s1, Registers { f: arith_flags_spec(s1.reg.f, v as u16, v as u16, v as u16, true, false), ..s1.reg }.set8_spec(r, v))
}

/// IN0 r, (n): reads the port n into r; returns the value read
pub fn exec_in0_r_n<'a, M: Machine>(env: &mut Environment<'a, M>, r: Reg8) -> (v: u8)
    ensures
        *final(env).state == (in0_r_n_state(*old(env).state, r, v)),
        io_written(*old(env).sys, *final(env).sys, seq![], in0_r_n_ports(*old(env).state, *old(env).sys, v)),
        *final(final(env).state) == *final(old(env).state),
        *final(final(env).sys) == *final(old(env).sys),
{
    let ghost m0 = *env.sys;
    let address = env.advance_pc() as u16;
    let data = env.port_in(address);
    env.state.reg.update_arithmetic_flags(data as u16, data as u16, data as u16, true, false);
    env.state.reg.set8(r, data);
    data
}

pub open spec fn in0_r_n_op(r: Reg8) -> (Action, Seq<char>) {
    (Action::In0RN(r), "IN0 "@ + r.name_spec() + ", (n)"@)
}

pub fn build_in0_r_n(r: Reg8) -> (op: Opcode)
    ensures
        is_op(op, in0_r_n_op(r)),
{
    let mut name = String::from_str("IN0 ");
    name.append(r.name());
    name.append(", (n)");
    Opcode { name, action: Action::In0RN(r) }
}

/// The state after IN r, (C) read `v`.
pub open spec fn in_r_c_state(s: State, r: Reg8, v: u8) -> State {
    let r1 = s.reg.set8_spec(r, v);
    with_reg(s, Registers { f: bits_flags_spec(r1.f, v), ..r1 })
}

/// IN r, (C): reads the port BC into r; returns the value read
pub fn exec_in_r_c<'a, M: Machine>(env: &mut Environment<'a, M>, r: Reg8) -> (v: u8)
    ensures
        *final(env).state == (in_r_c_state(*old(env).state, r, v)),
        io_written(*old(env).sys, *final(env).sys, seq![], in_r_c_ports(*old(env).state, v)),
        *final(final(env).state) == *final(old(env).state),
        *final(final(env).sys) == *final(old(env).sys),
{
    let ghost m0 = *env.sys;
    let address = env.state.reg.get16(Reg16::BC);
    let value = env.port_in(address);
    env.state.reg.set8(r, value);
    env.state.reg.update_bits_in_flags(value);
    value
}

pub open spec fn in_r_c_op(r: Reg8) -> (Action, Seq<char>) {
    (Action::InRC(r), "IN "@ + r.name_spec() + ", (C)"@)
}

pub fn build_in_r_c(r: Reg8) -> (op: Opcode)
    ensures
        is_op(op, in_r_c_op(r)),
{
    let mut name = String::from_str("IN ");
    name.append(r.name());
    name.append(", (C)");
    Opcode { name, action: Action::InRC(r) }
}

/// IN (C): reads the port BC, only the flags keep the value; returns the value read
pub fn exec_in_0_c<'a, M: Machine>(env: &mut Environment<'a, M>) -> (v: u8)
    ensures
        *final(env).state == (with_reg(*old(env).state, Registers { f: bits_flags_spec(old(env).state.reg.f, v), ..old(env).state.reg })),
        io_written(*old(env).sys, *final(env).sys, seq![], in_r_c_ports(*old(env).state, v)),
        *final(final(env).state) == *final(old(env).state),
        *final(final(env).sys) == *final(old(env).sys),
{
    let ghost m0 = *env.sys;
    let address = env.state.reg.get16(Reg16::BC);
    let value = env.port_in(address);
    env.state.reg.update_bits_in_flags(value);
    value
}

pub open spec fn in_0_c_op() -> (Action, Seq<char>) {
    (Action::In0C, "IN (C)"@)
}

pub fn build_in_0_c() -> (op: Opcode)
    ensures
        is_op(op, in_0_c_op()),
{
    let mut name = String::from_str("IN (C)");
    Opcode { name, action: Action::In0C }
}

/// IN A, (n): reads the port A*256+n into A; returns the value read
pub fn exec_in_a_n<'a, M: Machine>(env: &mut Environment<'a, M>) -> (v: u8)
    ensures
        *final(env).state == (with_reg(advance_pc_spec(*old(env).state), advance_pc_spec(*old(env).state).reg.set8_spec(Reg8::A, v))),
        io_written(*old(env).sys, *final(env).sys, seq![], in_a_n_ports(*old(env).state, *old(env).sys, v)),
        *final(final(env).state) == *final(old(env).state),
        *final(final(env).sys) == *final(old(env).sys),
{
    let ghost m0 = *env.sys;
    let a = env.state.reg.a();
    let address = (a as u16) * 256 + env.advance_pc() as u16;
    let value = env.port_in(address);
    env.state.reg.set_a(value);
    value
}

pub open spec fn in_a_n_op() -> (Action, Seq<char>) {
    (Action::InAN, "IN A, (n)"@)
}

pub fn build_in_a_n() -> (op: Opcode)
    ensures
        is_op(op, in_a_n_op()),
{
    let mut name = String::from_str("IN A, (n)");
    Opcode { name, action: Action::InAN }
}

/// HL one step, 24 bits long when `long`.
pub open spec fn hl_step_reg(r: Registers, long: bool, inc: bool) -> Registers {
    if long {
        r.set24_spec(Reg16::HL, step24(r.get24_spec(Reg16::HL), inc))
    } else {
        r.set16_spec(Reg16::HL, step16(r.get16_spec(Reg16::HL), inc))
    }
}

fn hl_step(reg: &mut Registers, long: bool, inc: bool)
    ensures
        *final(reg) == hl_step_reg(*old(reg), long, inc),
{
    if long {
        reg.inc_dec24(Reg16::HL, inc);
    } else {
        reg.inc_dec16(Reg16::HL, inc);
    }
}

/// The state with B one down.
pub open spec fn dec_b_state(s: State) -> State {
    with_reg(s, s.reg.set8_spec(Reg8::B, ((s.reg.b - 1) % 256) as u8))
}

/// F of INI/IND after reading `v` with B now `b` (TUZD-4.3).
pub open spec fn in_block_flags(r: Registers, v: u8, b: u8, inc: bool) -> u8 {
    let j = if inc { (r.c + 1) % 65536 } else { (r.c - 1) % 65536 };
    let k = (v + j % 256) as u16;
    block_io_flags_spec(r.f, v, k, b)
}

#[verifier::spinoff_prover]
#[verifier::rlimit(40)]
fn in_block_regs(reg: &mut Registers, long: bool, inc: bool, value: u8, b: u8)
    ensures
        *final(reg) == (Registers { f: in_block_flags(*old(reg), value, b, inc), ..hl_step_reg(*old(reg), long, inc) }),
{
    let ghost r0 = *reg;
    hl_step(reg, long, inc);
    assert(reg.c == r0.c && reg.f == r0.f);
    // TUZD-4.3
    let c = reg.get8(Reg8::C) as u16;
    let j = if inc { c + 1 } else { c.wrapping_sub(1) };
    assert(j == if inc { (r0.c + 1) % 65536 } else { (r0.c - 1) % 65536 });
    let k = value as u16 + (j % 256);
    reg.update_block_flags(value, k, b);
}

/// Reads a port and writes the value at (HL); returns the value.
fn port_in_to_hl<'a, M: Machine>(env: &mut Environment<'a, M>, address: u16) -> (v: u8)
    ensures
        *final(env).state == *old(env).state,
        io_written(
            *old(env).sys,
            *final(env).sys,
            seq![(index_address_spec(*old(env).state), v)],
            seq![PortAccess::Read { address, value: v }],
        ),
        *final(final(env).state) == *final(old(env).state),
        *final(final(env).sys) == *final(old(env).sys),
{
    let ghost m0 = *env.sys;
    let value = env.port_in(address);
    let ghost m1 = *env.sys;
    env.set_reg(Reg8::_HL, value);
    proof {
        let w = seq![(index_address_spec(*env.state), value)];
        let p = seq![PortAccess::Read { address, value }];
        lemma_memory_io_written(m1, *env.sys, w);
        lemma_io_written_compose(m0, m1, *env.sys, Seq::empty(), w, p, Seq::empty());
        assert(Seq::<(u32, u8)>::empty() + w =~= w);
        assert(p + Seq::<PortAccess>::empty() =~= p);
    }
    value
}

/// The state after INI/IND read `v` (TUZD-4.3 for the flags).
pub open spec fn in_block_state(s: State, inc: bool, repeat: bool, v: u8) -> State {
    let sb = dec_b_state(s);
    let b = sb.reg.b;
    let r1 = hl_step_reg(sb.reg, s.is_op_long_spec(), inc);
    let s2 = with_reg(s, Registers { f: in_block_flags(sb.reg, v, b, inc), ..r1 });
    if repeat && b != 0 {
        repeat_pc_spec(s2, 2)
    } else {
        s2
    }
}

/// Block input INI, IND, INIR and INDR; returns the value read
#[verifier::rlimit(40)]
pub fn exec_in_block<'a, M: Machine>(env: &mut Environment<'a, M>, inc: bool, repeat: bool) -> (v: u8)
    ensures
        *final(env).state == (in_block_state(*old(env).state, inc, repeat, v)),
        io_written(*old(env).sys, *final(env).sys, seq![(index_address_spec(dec_b_state(*old(env).state)), v)], in_block_ports(*old(env).state, v)),
        *final(final(env).state) == *final(old(env).state),
        *final(final(env).sys) == *final(old(env).sys),
{
    // The INI/INIR/IND/INDR instructions use BC after decrementing B
    let b = env.state.reg.inc_dec8(Reg8::B, false /* decrement */);
    let address = env.state.reg.get16(Reg16::BC);

    // We won't have IX and IY cases to consider
    let value = port_in_to_hl(env, address);
    let long = env.state.is_op_long();
    in_block_regs(&mut env.state.reg, long, inc, value, b);

    if repeat && b != 0 {
        // Back to redo the instruction
        let pc = env.wrap_address(env.state.pc(), -2);
        env.state.set_pc(pc);
    }
    value
}

pub open spec fn in_block_op(inc: bool, repeat: bool, postfix: Seq<char>) -> (Action, Seq<char>) {
    (Action::InBlock(inc, repeat), "IN"@ + postfix)
}

pub fn build_in_block(bli: (bool, bool, &'static str)) -> (op: Opcode)
    ensures
        is_op(op, in_block_op(bli.0, bli.1, bli.2@)),
{
    let (inc, repeat, postfix) = bli;
    let mut name = String::from_str("IN");
    name.append(postfix);
    Opcode { name, action: Action::InBlock(inc, repeat) }
}

/// The state after OUTI/OUTD (TUZD-4.3 for the flags).
pub open spec fn out_block_state<M: Machine>(s: State, m: M, inc: bool, repeat: bool) -> State {
    let sb = dec_b_state(s);
    let b = sb.reg.b;
    let value = reg8_ext_spec(sb, m, Reg8::_HL);
    let r1 = hl_step_reg(sb.reg, s.is_op_long_spec(), inc);
    let k = (value + r1.l) as u16;
    let s2 = with_reg(s, Registers { f: block_io_flags_spec(r1.f, value, k, b), ..r1 });
    if repeat && b != 0 {
        repeat_pc_spec(s2, 2)
    } else {
        s2
    }
}

/// Block output OUTI, OUTD, OTIR and OTDR
#[verifier::rlimit(40)]
pub fn exec_out_block<'a, M: Machine>(env: &mut Environment<'a, M>, inc: bool, repeat: bool)
    ensures
        *final(env).state == (out_block_state(*old(env).state, *old(env).sys, inc, repeat)),
        io_written(*old(env).sys, *final(env).sys, seq![], out_block_ports(*old(env).state, *old(env).sys)),
        *final(final(env).state) == *final(old(env).state),
        *final(final(env).sys) == *final(old(env).sys),
{
    // the OUTI/OTIR/OUTD/OTDR instructions use BC before decrementing B
    let address = env.state.reg.get16(Reg16::BC);
    let b = env.state.reg.inc_dec8(Reg8::B, false /* decrement */);

    // We won't have IX and IY cases to consider
    let value = env.reg8_ext(Reg8::_HL);
    env.port_out(address, value);
    let long = env.state.is_op_long();
    hl_step(&mut env.state.reg, long, inc);

    // TUZD-4.3
    let k = value as u16 + env.state.reg.get8(Reg8::L) as u16;
    env.state.reg.update_block_flags(value, k, b);

    if repeat && b != 0 {
        // Back to redo the instruction
        let pc = env.wrap_address(env.state.pc(), -2);
        env.state.set_pc(pc);
    }
}

pub open spec fn out_block_op(inc: bool, repeat: bool, postfix: Seq<char>) -> (Action, Seq<char>) {
    (Action::OutBlock(inc, repeat), (if repeat { "OT"@ } else { "OUT"@ }) + postfix)
}

pub fn build_out_block(bli: (bool, bool, &'static str)) -> (op: Opcode)
    ensures
        is_op(op, out_block_op(bli.0, bli.1, bli.2@)),
{
    let (inc, repeat, postfix) = bli;
    let n0 = if repeat { "OT" } else { "OUT" };
    let mut name = String::from_str(n0);
    name.append(postfix);
    Opcode { name, action: Action::OutBlock(inc, repeat) }
}

/// The state after OTIRX/OTDRX: Z set when BC reaches 0, N from bit 7 of
/// the byte sent; while BC is not 0 the instruction repeats.
pub open spec fn otirx_state<M: Machine>(s: State, m: M, inc: bool) -> State {
    let value = reg8_ext_spec(s, m, Reg8::_HL);
    let long = s.is_op_long_spec();
    let r1 = cp_counters_reg(s.reg, long, inc);
    let bc = counter_bc(s.reg, long);
    let f = with_bits(with_bits(r1.f, 64, bc == 0), 2, value & 0x80 == 0x80);
    let s2 = with_reg(s, Registers { f: f, ..r1 });
    if bc != 0 {
        repeat_pc_spec(s2, if s.sz_prefix == SizePrefix::NoPrefix { 2 } else { 3 })
    } else {
        s2
    }
}

fn otirx_counters(reg: &mut Registers, long: bool, inc: bool) -> (bc: u32)
    ensures
        *final(reg) == cp_counters_reg(*old(reg), long, inc),
        bc == counter_bc(*old(reg), long),
{
    if long {
        reg.inc_dec24(Reg16::HL, inc);
        reg.inc_dec24(Reg16::BC, false /*decrement*/)
    } else {
        reg.inc_dec16(Reg16::HL, inc);
        reg.inc_dec16(Reg16::BC, false /*decrement*/) as u32
    }
}

/// eZ80 OTIRX and OTDRX: block output to the port DE
#[verifier::rlimit(40)]
pub fn exec_otirx_or_otdrx<'a, M: Machine>(env: &mut Environment<'a, M>, inc: bool)
    ensures
        *final(env).state == (otirx_state(*old(env).state, *old(env).sys, inc)),
        io_written(*old(env).sys, *final(env).sys, seq![], otirx_ports(*old(env).state, *old(env).sys)),
        *final(final(env).state) == *final(old(env).state),
        *final(final(env).sys) == *final(old(env).sys),
{
    let ghost m0 = *env.sys;
    let value = env.reg8_ext(Reg8::_HL);
    let address = env.state.reg.get16(Reg16::DE);
    env.sys.use_cycles(1);
    let ghost m1 = *env.sys;

    let long = env.state.is_op_long();
    let bc = otirx_counters(&mut env.state.reg, long, inc);

    env.port_out(address, value);
    let ghost m2 = *env.sys;

    // TUZD-4.3
    env.state.reg.put_flag(Flag::Z, bc == 0);
    env.state.reg.put_flag(Flag::N, value & 0x80 == 0x80);

    if bc != 0 {
        // Back to redo the instruction
        let instruction_len: i32 = match env.state.sz_prefix {
            SizePrefix::NoPrefix => 2,
            _ => 3,
        };
        let pc = env.wrap_address(env.state.pc(), -instruction_len);
        env.state.set_pc(pc);
        // all but one repeat gets the 2-byte opcode cached
        env.sys.use_cycles(-2);
        // and the size prefix is cached if present
        if env.state.sz_prefix != SizePrefix::NoPrefix {
            env.sys.use_cycles(-1);
        }
    }
    proof {
        assert(same_memory(m1, m0));
        assert(same_memory(*env.sys, m2));
        lemma_io_same_memory(m0, m1, m2, *env.sys, otirx_ports(*old(env).state, *old(env).sys));
    }
}

pub open spec fn otirx_or_otdrx_op(inc: bool) -> (Action, Seq<char>) {
    (Action::OtirxOrOtdrx(inc), if inc { "OTIRX"@ } else { "OTDRX"@ })
}

pub fn build_otirx_or_otdrx(inc: bool) -> (op: Opcode)
    ensures
        is_op(op, otirx_or_otdrx_op(inc)),
{
    let name = if inc { "OTIRX" } else { "OTDRX" };
    Opcode { name: String::from_str(name), action: Action::OtirxOrOtdrx(inc) }
}

/// Z of the block I/O flags: set exactly when the counter is zero.
proof fn lemma_block_io_z(f: u8, reference: u8, k: u16, counter: u8)
    ensures
        (block_io_flags_spec(f, reference, k, counter) & 0x40 != 0) == (counter == 0),
{
    let f1 = sz53_spec(f, counter);
    let f2 = with_bits(f1, 16, k > 255);
    let f3 = with_bits(f2, 1, k > 255);
    let f4 = with_bits(f3, 4, parity_even(((k % 256) as u8 & 7) ^ counter));
    crate::operators::lemma_flag_bits(f, 0, counter, 0);
    crate::operators::lemma_bit_of_with_bits(f1, 16, k > 255, 0x40);
    crate::operators::lemma_bit_of_with_bits(f2, 1, k > 255, 0x40);
    crate::operators::lemma_bit_of_with_bits(f3, 4, parity_even(((k % 256) as u8 & 7) ^ counter), 0x40);
    crate::operators::lemma_bit_of_with_bits(f4, 2, reference >> 7u8 == 1, 0x40);
}

#[verifier::spinoff_prover]
#[verifier::rlimit(60)]
proof fn lemma_in_block(s: State, inc: bool, repeat: bool, v: u8)
    ensures
        ({
            let t = in_block_state(s, inc, repeat, v);
            let b = (s.reg.b + 255) % 256;
            &&& t.reg.b == b
            &&& t.reg.a == s.reg.a
            &&& (t.reg.f & 0x40 != 0) == (b == 0)
            &&& (repeat && b != 0) ==> t.reg.pc == wrap_spec(s, s.pc_spec(), -2) % 0x1000000
            &&& !(repeat && b != 0) ==> t.reg.pc == s.reg.pc
        }),
{
    let sb = dec_b_state(s);
    let bb = sb.reg.b;
    let r1 = hl_step_reg(sb.reg, s.is_op_long_spec(), inc);
    assert(r1.b == bb && r1.a == s.reg.a);
    let j = if inc { (sb.reg.c + 1) % 65536 } else { (sb.reg.c - 1) % 65536 };
    lemma_block_io_z(sb.reg.f, v, (v + j % 256) as u16, bb);
}

#[verifier::spinoff_prover]
#[verifier::rlimit(60)]
proof fn lemma_out_block<M: Machine>(s: State, m: M, inc: bool, repeat: bool)
    ensures
        ({
            let t = out_block_state(s, m, inc, repeat);
            let b = (s.reg.b + 255) % 256;
            &&& t.reg.b == b
            &&& t.reg.a == s.reg.a
            &&& (t.reg.f & 0x40 != 0) == (b == 0)
            &&& (repeat && b != 0) ==> t.reg.pc == wrap_spec(s, s.pc_spec(), -2) % 0x1000000
            &&& !(repeat && b != 0) ==> t.reg.pc == s.reg.pc
        }),
{
    let sb = dec_b_state(s);
    let bb = sb.reg.b;
    let r1 = hl_step_reg(sb.reg, s.is_op_long_spec(), inc);
    assert(r1.b == bb && r1.a == s.reg.a);
    let value = reg8_ext_spec(sb, m, Reg8::_HL);
    lemma_block_io_z(r1.f, value, (value + r1.l) as u16, bb);
}

/// INI, IND, INIR, INDR (having read `v`) and OUTI, OUTD, OTIR, OTDR count
/// B down (mod 256), keep A and set Z exactly when B reaches zero; the
/// repeating forms step the PC back over the instruction to run it again
/// exactly while B is not zero.
pub proof fn lemma_io_block<M: Machine>(s: State, m: M, inc: bool, repeat: bool, v: u8)
    ensures
        ({
            let ti = in_block_state(s, inc, repeat, v);
            let to = out_block_state(s, m, inc, repeat);
            let b = (s.reg.b + 255) % 256;
            &&& ti.reg.b == b && to.reg.b == b
            &&& ti.reg.a == s.reg.a && to.reg.a == s.reg.a
            &&& (ti.reg.f & 0x40 != 0) == (b == 0)
            &&& (to.reg.f & 0x40 != 0) == (b == 0)
            &&& (repeat && b != 0) ==> ti.reg.pc == wrap_spec(s, s.pc_spec(), -2) % 0x1000000
                && to.reg.pc == wrap_spec(s, s.pc_spec(), -2) % 0x1000000
            &&& !(repeat && b != 0) ==> ti.reg.pc == s.reg.pc && to.reg.pc == s.reg.pc
        }),
{
    lemma_in_block(s, inc, repeat, v);
    lemma_out_block(s, m, inc, repeat);
}

/// OTIRX and OTDRX count BC down (16 or 24 bits), set Z exactly when BC
/// reaches zero, and step the PC back over the instruction (2 bytes, 3 with
/// a size suffix) to run it again exactly while BC is not zero.
#[verifier::spinoff_prover]
pub proof fn lemma_otirx<M: Machine>(s: State, m: M, inc: bool)
    ensures
        ({
            let t = otirx_state(s, m, inc);
            let bc = counter_bc(s.reg, s.is_op_long_spec());
            let len: int = if s.sz_prefix == SizePrefix::NoPrefix { 2 } else { 3 };
            &&& (t.reg.f & 0x40 != 0) == (bc == 0)
            &&& t.reg.a == s.reg.a
            &&& bc != 0 ==> t.reg.pc == wrap_spec(s, s.pc_spec(), -len) % 0x1000000
            &&& bc == 0 ==> t.reg.pc == s.reg.pc
        }),
{
    let value = reg8_ext_spec(s, m, Reg8::_HL);
    let long = s.is_op_long_spec();
    let r1 = cp_counters_reg(s.reg, long, inc);
    let bc = counter_bc(s.reg, long);
    let g1 = with_bits(r1.f, 64, bc == 0);
    lemma_z_bit(r1.f, bc == 0);
    crate::operators::lemma_bit_of_with_bits(g1, 2, value & 0x80 == 0x80, 0x40);
    assert(r1.a == s.reg.a);
}

proof fn lemma_z_bit(g: u8, on: bool)
    by (bit_vector)
    ensures
        (with_bits(g, 64, on) & 0x40 != 0) == on,
{
}

} // verus!
