use vstd::prelude::*;

use crate::environment::{
    Environment,
    advance_n_spec,
    advance_pc_spec,
    code_byte,
    imm16or24_spec,
    imm_address_spec,
    imm_len,
    index_value_spec,
    lemma_advance_keeps_mode,
    push_state,
    push_writes,
    ret_state,
    set_pc_spec,
    sps_push_addr,
    sps_push_state,
    spl_push_addr,
    spl_push_state,
    with_reg,
    wrap_spec,
};
use crate::machine::{
    Machine,
    lemma_memory_written_compose,
    lemma_no_writes,
    lemma_same_memory_no_writes,
    same_memory,
    memory_written,
};
use crate::opcode::{Action, Opcode, is_op};
use crate::registers::{Flag, Reg8, Registers};
use crate::state::{SizePrefix, State};
use crate::text::{hex2_spec, hex2_string};

verus! {

/// The state after a relative jump by the signed offset `offset`.
pub open spec fn relative_jump_spec(s: State, offset: u8) -> State {
    set_pc_spec(s, wrap_spec(s, s.pc_spec(), offset as i8 as int))
}

fn relative_jump<'a, M: Machine>(env: &mut Environment<'a, M>, offset: u8)
    ensures
        *final(env).state == relative_jump_spec(*old(env).state, offset),
        *final(env).sys == *old(env).sys,
        *final(final(env).state) == *final(old(env).state),
        *final(final(env).sys) == *final(old(env).sys),
{
    let mut pc = env.state.pc();
    pc = env.wrap_address(pc, offset as i8 as i32);
    env.state.set_pc(pc);
}

// Relative jumps
pub open spec fn djnz_state<M: Machine>(s: State, m: M) -> State {
    let s1 = advance_pc_spec(s);
    let b = ((s.reg.b + 255) % 256) as u8;
    let s2 = with_reg(s1, s1.reg.set8_spec(Reg8::B, b));
    if b != 0 {
        relative_jump_spec(s2, code_byte(s, m, 0))
    } else {
        s2
    }
}

/// DJNZ counts B down (mod 256) and loops: with `s` the state after its
/// opcode (PC at the offset byte), it jumps by the signed offset from the
/// address after the instruction exactly when the new B is not zero, and
/// goes on to the next instruction when B reaches zero. The flags are kept.
pub proof fn lemma_djnz_loops<M: Machine>(s: State, m: M)
    ensures
        djnz_state(s, m).reg.b == (s.reg.b + 255) % 256,
        djnz_state(s, m).reg.f == s.reg.f,
        djnz_state(s, m).reg.b != 0 ==> djnz_state(s, m).reg.pc == wrap_spec(
            advance_pc_spec(s),
            advance_pc_spec(s).pc_spec(),
            code_byte(s, m, 0) as i8 as int,
        ) % 0x1000000,
        djnz_state(s, m).reg.b == 0 ==> djnz_state(s, m).reg.pc == advance_pc_spec(s).reg.pc,
{
}

/// DJNZ l: decrements B and jumps while it is not zero
#[verifier::spinoff_prover]
#[verifier::rlimit(80)]
pub fn exec_djnz<'a, M: Machine>(env: &mut Environment<'a, M>)
    ensures
        *final(env).state == (djnz_state(*old(env).state, *old(env).sys)),
        memory_written(*old(env).sys, *final(env).sys, seq![]),
        *final(final(env).state) == *final(old(env).state),
        *final(final(env).sys) == *final(old(env).sys),
{
    let ghost m0 = *env.sys;
    let ghost s0 = *env.state;
    let offset = env.advance_pc();
    assert(offset == code_byte(s0, m0, 0));
    let b0 = env.state.reg.get8(Reg8::B);
    let b: u8 = if b0 == 0 {
        0xff
    } else {
        b0 - 1
    };
    env.state.reg.set8(Reg8::B, b);
    let ghost s2 = *env.state;
    assert(s2 == with_reg(advance_pc_spec(s0), advance_pc_spec(s0).reg.set8_spec(Reg8::B, b)));
    if b != 0 {
        // Condition not met
        env.sys.use_cycles(1);
        let ghost m1 = *env.sys;
        assert(same_memory(m1, m0));
        relative_jump(env, offset);
        assert(*env.sys == m1);
    }
    proof {
        lemma_same_memory_no_writes(m0, *env.sys);
    }
}

pub open spec fn djnz_op() -> (Action, Seq<char>) {
    (Action::Djnz, "DJNZ l"@)
}

pub fn build_djnz() -> (op: Opcode)
    ensures
        is_op(op, djnz_op()),
{
    let mut name = String::from_str("DJNZ l");
    Opcode { name, action: Action::Djnz }
}

/// JR l
pub fn exec_jr_unconditional<'a, M: Machine>(env: &mut Environment<'a, M>)
    ensures
        *final(env).state == (relative_jump_spec(advance_pc_spec(*old(env).state), code_byte(*old(env).state, *old(env).sys, 0))),
        memory_written(*old(env).sys, *final(env).sys, seq![]),
        *final(final(env).state) == *final(old(env).state),
        *final(final(env).sys) == *final(old(env).sys),
{
    let ghost m0 = *env.sys;
    let offset = env.advance_pc();
    env.sys.use_cycles(1);
    relative_jump(env, offset);
    proof { reveal_with_fuel(advance_n_spec, 1); lemma_same_memory_no_writes(m0, *env.sys); }
}

pub open spec fn jr_unconditional_op() -> (Action, Seq<char>) {
    (Action::JrUnconditional, "JR l"@)
}

pub fn build_jr_unconditional() -> (op: Opcode)
    ensures
        is_op(op, jr_unconditional_op()),
{
    let mut name = String::from_str("JR l");
    Opcode { name, action: Action::JrUnconditional }
}

pub open spec fn jr_eq_state<M: Machine>(s: State, m: M, flag: Flag, value: bool) -> State {
    let s1 = advance_pc_spec(s);
    if s.reg.get_flag_spec(flag) == value {
        relative_jump_spec(s1, code_byte(s, m, 0))
    } else {
        s1
    }
}

/// JR cc, l
pub fn exec_jr_eq<'a, M: Machine>(env: &mut Environment<'a, M>, flag: Flag, value: bool)
    ensures
        *final(env).state == (jr_eq_state(*old(env).state, *old(env).sys, flag, value)),
        memory_written(*old(env).sys, *final(env).sys, seq![]),
        *final(final(env).state) == *final(old(env).state),
        *final(final(env).sys) == *final(old(env).sys),
{
    let ghost m0 = *env.sys;
    let offset = env.advance_pc();
    if env.state.reg.get_flag(flag) == value {
        env.sys.use_cycles(2);
        relative_jump(env, offset);
    }
    proof { reveal_with_fuel(advance_n_spec, 1); lemma_same_memory_no_writes(m0, *env.sys); }
}

pub open spec fn jr_eq_op(cc: (Flag, bool, Seq<char>)) -> (Action, Seq<char>) {
    (Action::JrEq(cc.0, cc.1), "JR "@ + cc.2 + ", l"@)
}

pub fn build_jr_eq(cc: (Flag, bool, &str)) -> (op: Opcode)
    ensures
        is_op(op, jr_eq_op((cc.0, cc.1, cc.2@))),
{
    let (flag, value, name) = cc;
    let mut text = String::from_str("JR ");
    text.append(name);
    text.append(", l");
    Opcode { name: text, action: Action::JrEq(flag, value) }
}

/// The ADL mode after an absolute jump with a size prefix: JP.SIS leaves ADL
/// mode, JP.LIL enters it; other prefixes are invalid and change nothing.
pub open spec fn jump_adl_spec(s: State) -> State {
    if s.reg.adl && s.sz_prefix == SizePrefix::SIS {
        with_reg(s, Registers { adl: false, ..s.reg })
    } else if !s.reg.adl && s.sz_prefix == SizePrefix::LIL {
        with_reg(s, Registers { adl: true, ..s.reg })
    } else {
        s
    }
}

fn handle_jump_adl_state<'a, M: Machine>(env: &mut Environment<'a, M>)
    ensures
        *final(env).state == jump_adl_spec(*old(env).state),
        *final(env).sys == *old(env).sys,
        *final(final(env).state) == *final(old(env).state),
        *final(final(env).sys) == *final(old(env).sys),
{
    if env.state.reg.adl {
        match env.state.sz_prefix {
            SizePrefix::SIS => {
                env.state.reg.adl = false;
            },
            // LIS and SIL are invalid with ADL=1
            _ => {},
        }
    } else {
        match env.state.sz_prefix {
            SizePrefix::LIL => {
                env.state.reg.adl = true;
            },
            // LIS and SIL are invalid with ADL=0
            _ => {},
        }
    }
}

// Absolute jumps
pub open spec fn jp_state<M: Machine>(s: State, m: M) -> State {
    set_pc_spec(jump_adl_spec(advance_n_spec(s, imm_len(s))), imm_address_spec(s, m))
}

/// JP nn
pub fn exec_jp_unconditional<'a, M: Machine>(env: &mut Environment<'a, M>)
    ensures
        *final(env).state == (jp_state(*old(env).state, *old(env).sys)),
        memory_written(*old(env).sys, *final(env).sys, seq![]),
        *final(final(env).state) == *final(old(env).state),
        *final(final(env).sys) == *final(old(env).sys),
{
    let ghost m0 = *env.sys;
    let address = env.advance_immediate_16mbase_or_24();
    handle_jump_adl_state(env);
    env.sys.use_cycles(1);
    env.state.set_pc(address);
    proof { lemma_same_memory_no_writes(m0, *env.sys); }
}

pub open spec fn jp_unconditional_op() -> (Action, Seq<char>) {
    (Action::JpUnconditional, "JP nn"@)
}

pub fn build_jp_unconditional() -> (op: Opcode)
    ensures
        is_op(op, jp_unconditional_op()),
{
    let mut name = String::from_str("JP nn");
    Opcode { name, action: Action::JpUnconditional }
}

pub open spec fn jp_eq_state<M: Machine>(s: State, m: M, flag: Flag, value: bool) -> State {
    let s1 = advance_n_spec(s, imm_len(s));
    if s.reg.get_flag_spec(flag) == value {
        set_pc_spec(s1, imm_address_spec(s, m))
    } else {
        s1
    }
}

/// JP cc, nn
pub fn exec_jp_eq<'a, M: Machine>(env: &mut Environment<'a, M>, flag: Flag, value: bool)
    ensures
        *final(env).state == (jp_eq_state(*old(env).state, *old(env).sys, flag, value)),
        memory_written(*old(env).sys, *final(env).sys, seq![]),
        *final(final(env).state) == *final(old(env).state),
        *final(final(env).sys) == *final(old(env).sys),
{
    let ghost m0 = *env.sys;
    let ghost s0 = *env.state;
    let address = env.advance_immediate_16mbase_or_24();
    proof { lemma_advance_keeps_mode(s0, imm_len(s0)); }
    if env.state.reg.get_flag(flag) == value {
        env.sys.use_cycles(1);
        env.state.set_pc(address);
    }
    proof { lemma_same_memory_no_writes(m0, *env.sys); }
}

pub open spec fn jp_eq_op(cc: (Flag, bool, Seq<char>)) -> (Action, Seq<char>) {
    (Action::JpEq(cc.0, cc.1), "JP "@ + cc.2 + ", nn"@)
}

pub fn build_jp_eq(cc: (Flag, bool, &str)) -> (op: Opcode)
    ensures
        is_op(op, jp_eq_op((cc.0, cc.1, cc.2@))),
{
    let (flag, value, name) = cc;
    let mut text = String::from_str("JP ");
    text.append(name);
    text.append(", nn");
    Opcode { name: text, action: Action::JpEq(flag, value) }
}

/// JP (HL)
pub fn exec_jp_hl<'a, M: Machine>(env: &mut Environment<'a, M>)
    ensures
        *final(env).state == (set_pc_spec(*old(env).state, index_value_spec(*old(env).state))),
        memory_written(*old(env).sys, *final(env).sys, seq![]),
        *final(final(env).state) == *final(old(env).state),
        *final(final(env).sys) == *final(old(env).sys),
{
    let ghost m0 = *env.sys;
    // Note: no displacement added to the index
    let address = env.index_value();
    env.sys.use_cycles(1);
    env.state.set_pc(address);
    proof { lemma_same_memory_no_writes(m0, *env.sys); }
}

pub open spec fn jp_hl_op() -> (Action, Seq<char>) {
    (Action::JpHl, "JP (HL)"@)
}

pub fn build_jp_hl() -> (op: Opcode)
    ensures
        is_op(op, jp_hl_op()),
{
    let mut name = String::from_str("JP (HL)");
    Opcode { name, action: Action::JpHl }
}

/// High and low bytes of the return address pushed by a call.
pub open spec fn word_writes2(a0: u32, a1: u32, pc: u32) -> Seq<(u32, u8)> {
    seq![(a0, (pc / 256 % 256) as u8), (a1, (pc % 256) as u8)]
}

/// Writes of two pushes on SPS: high byte then low byte of `pc`.
pub open spec fn sps_word_writes(s: State, pc: u32) -> Seq<(u32, u8)> {
    word_writes2(sps_push_addr(s), sps_push_addr(sps_push_state(s)), pc)
}

/// Writes of two pushes on SPL: high byte then low byte of `pc`.
pub open spec fn spl_word_writes(s: State, pc: u32) -> Seq<(u32, u8)> {
    word_writes2(spl_push_addr(s), spl_push_addr(spl_push_state(s)), pc)
}

/// A push of the return address followed by a mode byte `mark` on SPL.
pub open spec fn marked_push_state(s: State) -> State {
    spl_push_state(push_state(s))
}

pub open spec fn marked_push_writes(s: State, pc: u32, mark: u8) -> Seq<(u32, u8)> {
    push_writes(s, pc) + seq![(spl_push_addr(push_state(s)), mark)]
}

/// Mixed mode call from ADL into Z80 mode: the low 16 bits of the return
/// address go on SPS, its upper byte and the mode byte 3 on SPL.
pub open spec fn adl_to_z80_state(s: State) -> State {
    let s2 = spl_push_state(spl_push_state(sps_push_state(sps_push_state(s))));
    with_reg(s2, Registers { adl: false, ..s2.reg })
}

pub open spec fn adl_to_z80_writes(s: State, pc: u32) -> Seq<(u32, u8)> {
    let s1 = sps_push_state(sps_push_state(s));
    sps_word_writes(s, pc) + seq![(spl_push_addr(s1), (pc / 65536 % 256) as u8)] + seq![
        (spl_push_addr(spl_push_state(s1)), 3u8),
    ]
}

/// Mixed mode call from Z80 into ADL mode: the 16 bit return address and
/// the mode byte 2 go on SPL.
pub open spec fn z80_to_adl_state(s: State) -> State {
    let s2 = spl_push_state(spl_push_state(spl_push_state(s)));
    with_reg(s2, Registers { adl: true, ..s2.reg })
}

pub open spec fn z80_to_adl_writes(s: State, pc: u32) -> Seq<(u32, u8)> {
    spl_word_writes(s, pc) + seq![(spl_push_addr(spl_push_state(spl_push_state(s))), 2u8)]
}

/// Call from Z80 mode that stays in Z80 mode but records the mode: the
/// return address on SPS, the mode byte 2 on SPL.
pub open spec fn z80_marked_state(s: State) -> State {
    spl_push_state(sps_push_state(sps_push_state(s)))
}

pub open spec fn z80_marked_writes(s: State, pc: u32) -> Seq<(u32, u8)> {
    sps_word_writes(s, pc) + seq![(spl_push_addr(sps_push_state(sps_push_state(s))), 2u8)]
}

fn push_sps_word<'a, M: Machine>(env: &mut Environment<'a, M>, pc: u32)
    ensures
        *final(env).state == sps_push_state(sps_push_state(*old(env).state)),
        memory_written(*old(env).sys, *final(env).sys, sps_word_writes(*old(env).state, pc)),
        *final(final(env).state) == *final(old(env).state),
        *final(final(env).sys) == *final(old(env).sys),
{
    let ghost m0 = *env.sys;
    let ghost a0 = sps_push_addr(*env.state);
    env.push_byte_sps((pc / 256 % 256) as u8);
    let ghost m1 = *env.sys;
    let ghost a1 = sps_push_addr(*env.state);
    env.push_byte_sps((pc % 256) as u8);
    proof {
        let w0 = seq![(a0, (pc / 256 % 256) as u8)];
        let w1 = seq![(a1, (pc % 256) as u8)];
        lemma_memory_written_compose(m0, m1, *env.sys, w0, w1);
        assert(w0 + w1 =~= word_writes2(a0, a1, pc));
    }
}

fn push_spl_word<'a, M: Machine>(env: &mut Environment<'a, M>, pc: u32)
    ensures
        *final(env).state == spl_push_state(spl_push_state(*old(env).state)),
        memory_written(*old(env).sys, *final(env).sys, spl_word_writes(*old(env).state, pc)),
        *final(final(env).state) == *final(old(env).state),
        *final(final(env).sys) == *final(old(env).sys),
{
    let ghost m0 = *env.sys;
    let ghost a0 = spl_push_addr(*env.state);
    env.push_byte_spl((pc / 256 % 256) as u8);
    let ghost m1 = *env.sys;
    let ghost a1 = spl_push_addr(*env.state);
    env.push_byte_spl((pc % 256) as u8);
    proof {
        let w0 = seq![(a0, (pc / 256 % 256) as u8)];
        let w1 = seq![(a1, (pc % 256) as u8)];
        lemma_memory_written_compose(m0, m1, *env.sys, w0, w1);
        assert(w0 + w1 =~= word_writes2(a0, a1, pc));
    }
}

fn push_marked<'a, M: Machine>(env: &mut Environment<'a, M>, pc: u32, mark: u8)
    ensures
        *final(env).state == marked_push_state(*old(env).state),
        memory_written(*old(env).sys, *final(env).sys, marked_push_writes(*old(env).state, pc, mark)),
        *final(final(env).state) == *final(old(env).state),
        *final(final(env).sys) == *final(old(env).sys),
{
    let ghost m0 = *env.sys;
    let ghost s0 = *env.state;
    env.push(pc);
    let ghost m1 = *env.sys;
    env.push_byte_spl(mark);
    proof {
        lemma_memory_written_compose(m0, m1, *env.sys, push_writes(s0, pc), seq![(spl_push_addr(push_state(s0)), mark)]);
    }
}

fn push_adl_to_z80<'a, M: Machine>(env: &mut Environment<'a, M>, pc: u32)
    ensures
        *final(env).state == adl_to_z80_state(*old(env).state),
        memory_written(*old(env).sys, *final(env).sys, adl_to_z80_writes(*old(env).state, pc)),
        *final(final(env).state) == *final(old(env).state),
        *final(final(env).sys) == *final(old(env).sys),
{
    let ghost m0 = *env.sys;
    let ghost s0 = *env.state;
    push_sps_word(env, pc);
    let ghost m1 = *env.sys;
    let ghost s1 = *env.state;
    env.push_byte_spl((pc / 65536 % 256) as u8);
    let ghost m2 = *env.sys;
    env.push_byte_spl(3);
    env.state.reg.adl = false;
    proof {
        let w0 = sps_word_writes(s0, pc);
        let w1 = seq![(spl_push_addr(s1), (pc / 65536 % 256) as u8)];
        let w2 = seq![(spl_push_addr(spl_push_state(s1)), 3u8)];
        lemma_memory_written_compose(m0, m1, m2, w0, w1);
        lemma_memory_written_compose(m0, m2, *env.sys, w0 + w1, w2);
    }
}

fn push_z80_to_adl<'a, M: Machine>(env: &mut Environment<'a, M>, pc: u32)
    ensures
        *final(env).state == z80_to_adl_state(*old(env).state),
        memory_written(*old(env).sys, *final(env).sys, z80_to_adl_writes(*old(env).state, pc)),
        *final(final(env).state) == *final(old(env).state),
        *final(final(env).sys) == *final(old(env).sys),
{
    let ghost m0 = *env.sys;
    let ghost s0 = *env.state;
    push_spl_word(env, pc);
    let ghost m1 = *env.sys;
    let ghost s1 = *env.state;
    env.push_byte_spl(2);
    env.state.reg.adl = true;
    proof {
        lemma_memory_written_compose(m0, m1, *env.sys, spl_word_writes(s0, pc), seq![(spl_push_addr(s1), 2u8)]);
    }
}

fn push_z80_marked<'a, M: Machine>(env: &mut Environment<'a, M>, pc: u32)
    ensures
        *final(env).state == z80_marked_state(*old(env).state),
        memory_written(*old(env).sys, *final(env).sys, z80_marked_writes(*old(env).state, pc)),
        *final(final(env).state) == *final(old(env).state),
        *final(final(env).sys) == *final(old(env).sys),
{
    let ghost m0 = *env.sys;
    let ghost s0 = *env.state;
    push_sps_word(env, pc);
    let ghost m1 = *env.sys;
    let ghost s1 = *env.state;
    env.push_byte_spl(2);
    proof {
        lemma_memory_written_compose(m0, m1, *env.sys, sps_word_writes(s0, pc), seq![(spl_push_addr(s1), 2u8)]);
    }
}

/// The state after a call saves the return address `pc`, as the ADL mode
/// and the size prefix say (eZ80 mixed mode calls also push the ADL mode).
pub open spec fn call_state(s: State, pc: u32) -> State {
    if s.reg.adl {
        match s.sz_prefix {
            SizePrefix::NoPrefix => push_state(s),
            SizePrefix::LIL => marked_push_state(s),
            SizePrefix::SIL => push_state(s),
            _ => adl_to_z80_state(s),
        }
    } else {
        match s.sz_prefix {
            SizePrefix::NoPrefix => sps_push_state(sps_push_state(s)),
            SizePrefix::SIS => z80_marked_state(s),
            SizePrefix::LIS => spl_push_state(spl_push_state(s)),
            _ => z80_to_adl_state(s),
        }
    }
}

/// The memory writes of a call saving the return address `pc`.
pub open spec fn call_writes(s: State, pc: u32) -> Seq<(u32, u8)> {
    if s.reg.adl {
        match s.sz_prefix {
            SizePrefix::NoPrefix => push_writes(s, pc),
            SizePrefix::LIL => marked_push_writes(s, pc, 3),
            SizePrefix::SIL => push_writes(s, pc),
            _ => adl_to_z80_writes(s, pc),
        }
    } else {
        match s.sz_prefix {
            SizePrefix::NoPrefix => sps_word_writes(s, pc),
            SizePrefix::SIS => z80_marked_writes(s, pc),
            SizePrefix::LIS => spl_word_writes(s, pc),
            _ => z80_to_adl_writes(s, pc),
        }
    }
}

fn handle_call_adl<'a, M: Machine>(env: &mut Environment<'a, M>, pc: u32)
    requires
        old(env).state.reg.adl,
    ensures
        *final(env).state == call_state(*old(env).state, pc),
        memory_written(*old(env).sys, *final(env).sys, call_writes(*old(env).state, pc)),
        *final(final(env).state) == *final(old(env).state),
        *final(final(env).sys) == *final(old(env).sys),
{
    match env.state.sz_prefix {
        SizePrefix::NoPrefix => {
            env.push(pc); // 3 bytes onto SPL
        },
        SizePrefix::SIS | // not valid according to docs, but works
        SizePrefix::LIS => {
            push_adl_to_z80(env, pc);
        },
        SizePrefix::LIL => {
            push_marked(env, pc, 3);
        },
        SizePrefix::SIL => {
            // invalid call size prefix for ADL=1
            env.push(pc);
        },
    }
}

fn handle_call_z80<'a, M: Machine>(env: &mut Environment<'a, M>, pc: u32)
    requires
        !old(env).state.reg.adl,
    ensures
        *final(env).state == call_state(*old(env).state, pc),
        memory_written(*old(env).sys, *final(env).sys, call_writes(*old(env).state, pc)),
        *final(final(env).state) == *final(old(env).state),
        *final(final(env).sys) == *final(old(env).sys),
{
    match env.state.sz_prefix {
        SizePrefix::NoPrefix => {
            push_sps_word(env, pc);
        },
        SizePrefix::LIL | // not valid according to docs, but works
        SizePrefix::SIL => {
            push_z80_to_adl(env, pc);
        },
        SizePrefix::SIS => {
            push_z80_marked(env, pc);
        },
        SizePrefix::LIS => {
            // invalid call size prefix for ADL=0
            push_spl_word(env, pc);
        },
    }
}

fn handle_call_size_prefix<'a, M: Machine>(env: &mut Environment<'a, M>)
    ensures
        *final(env).state == call_state(*old(env).state, old(env).state.pc_spec()),
        memory_written(*old(env).sys, *final(env).sys, call_writes(*old(env).state, old(env).state.pc_spec())),
        *final(final(env).state) == *final(old(env).state),
        *final(final(env).sys) == *final(old(env).sys),
{
    let pc = env.state.pc();
    if env.state.reg.adl {
        handle_call_adl(env, pc);
    } else {
        handle_call_z80(env, pc);
    }
}

// Calls to subroutine
pub open spec fn call_nn_state<M: Machine>(s: State, m: M) -> State {
    let s1 = advance_n_spec(s, imm_len(s));
    set_pc_spec(call_state(s1, s1.pc_spec()), imm16or24_spec(s, m))
}

pub open spec fn call_nn_writes<M: Machine>(s: State, m: M) -> Seq<(u32, u8)> {
    let s1 = advance_n_spec(s, imm_len(s));
    call_writes(s1, s1.pc_spec())
}

/// CALL nn
pub fn exec_call<'a, M: Machine>(env: &mut Environment<'a, M>)
    ensures
        *final(env).state == (call_nn_state(*old(env).state, *old(env).sys)),
        memory_written(*old(env).sys, *final(env).sys, call_nn_writes(*old(env).state, *old(env).sys)),
        *final(final(env).state) == *final(old(env).state),
        *final(final(env).sys) == *final(old(env).sys),
{
    let address = env.advance_immediate16or24();
    handle_call_size_prefix(env);
    env.state.set_pc(address);
}

pub open spec fn call_op() -> (Action, Seq<char>) {
    (Action::Call, "CALL nn"@)
}

pub fn build_call() -> (op: Opcode)
    ensures
        is_op(op, call_op()),
{
    let mut name = String::from_str("CALL nn");
    Opcode { name, action: Action::Call }
}

pub open spec fn call_eq_state<M: Machine>(s: State, m: M, flag: Flag, value: bool) -> State {
    let s1 = advance_n_spec(s, imm_len(s));
    if s.reg.get_flag_spec(flag) == value {
        set_pc_spec(call_state(s1, s1.pc_spec()), imm_address_spec(s, m))
    } else {
        s1
    }
}

pub open spec fn call_eq_writes<M: Machine>(s: State, m: M, flag: Flag, value: bool) -> Seq<(u32, u8)> {
    let s1 = advance_n_spec(s, imm_len(s));
    if s.reg.get_flag_spec(flag) == value {
        call_writes(s1, s1.pc_spec())
    } else {
        seq![]
    }
}

/// CALL cc, nn
pub fn exec_call_eq<'a, M: Machine>(env: &mut Environment<'a, M>, flag: Flag, value: bool)
    ensures
        *final(env).state == (call_eq_state(*old(env).state, *old(env).sys, flag, value)),
        memory_written(*old(env).sys, *final(env).sys, call_eq_writes(*old(env).state, *old(env).sys, flag, value)),
        *final(final(env).state) == *final(old(env).state),
        *final(final(env).sys) == *final(old(env).sys),
{
    let address = env.advance_immediate_16mbase_or_24();
    if env.state.reg.get_flag(flag) == value {
        handle_call_size_prefix(env);
        env.state.set_pc(address);
    } else {
        proof { lemma_no_writes(*env.sys); }
    }
}

pub open spec fn call_eq_op(cc: (Flag, bool, Seq<char>)) -> (Action, Seq<char>) {
    (Action::CallEq(cc.0, cc.1), "CALL "@ + cc.2 + ", nn"@)
}

pub fn build_call_eq(cc: (Flag, bool, &str)) -> (op: Opcode)
    ensures
        is_op(op, call_eq_op((cc.0, cc.1, cc.2@))),
{
    let (flag, value, name) = cc;
    let mut text = String::from_str("CALL ");
    text.append(name);
    text.append(", nn");
    Opcode { name: text, action: Action::CallEq(flag, value) }
}

/// The stack effect of RST, as the ADL mode and the size prefix say.
pub open spec fn rst_push_state(s: State) -> State {
    if s.reg.adl {
        match s.sz_prefix {
            SizePrefix::NoPrefix => push_state(s),
            SizePrefix::SIL => adl_to_z80_state(s),
            SizePrefix::SIS => s,
            _ => marked_push_state(s),
        }
    } else {
        match s.sz_prefix {
            SizePrefix::NoPrefix => push_state(s),
            SizePrefix::SIL => marked_push_state(s),
            SizePrefix::SIS => marked_push_state(s),
            _ => z80_to_adl_state(s),
        }
    }
}

/// The state after RST to `vec`; RST.SIS in ADL mode is refused and does nothing.
pub open spec fn rst_state(s: State, vec: u32) -> State {
    if s.reg.adl && s.sz_prefix == SizePrefix::SIS {
        s
    } else {
        set_pc_spec(rst_push_state(s), vec)
    }
}

/// The memory writes of RST.
pub open spec fn rst_writes(s: State) -> Seq<(u32, u8)> {
    let pc = s.pc_spec();
    if s.reg.adl {
        match s.sz_prefix {
            SizePrefix::NoPrefix => push_writes(s, pc),
            SizePrefix::SIL => adl_to_z80_writes(s, pc),
            SizePrefix::SIS => seq![],
            _ => marked_push_writes(s, pc, 3),
        }
    } else {
        match s.sz_prefix {
            SizePrefix::NoPrefix => push_writes(s, pc),
            SizePrefix::SIL => marked_push_writes(s, pc, 2),
            SizePrefix::SIS => marked_push_writes(s, pc, 2),
            _ => z80_to_adl_writes(s, pc),
        }
    }
}

fn handle_rst_adl<'a, M: Machine>(env: &mut Environment<'a, M>, vec: u32)
    requires
        old(env).state.reg.adl,
        vec < 256,
    ensures
        *final(env).state == rst_state(*old(env).state, vec),
        memory_written(*old(env).sys, *final(env).sys, rst_writes(*old(env).state)),
        *final(final(env).state) == *final(old(env).state),
        *final(final(env).sys) == *final(old(env).sys),
{
    let pc = env.state.pc();
    match env.state.sz_prefix {
        SizePrefix::NoPrefix => {
            env.push(pc);
            env.state.set_pc(vec);
        },
        SizePrefix::SIL => {
            push_adl_to_z80(env, pc);
            env.state.set_pc(vec);
        },
        SizePrefix::LIS | // not valid according to spec, but works on ez80
        SizePrefix::LIL => {
            push_marked(env, pc, 3);
            env.state.set_pc(vec);
        },
        SizePrefix::SIS => {
            // invalid rst size prefix
            proof { lemma_no_writes(*env.sys); }
        },
    }
}

fn handle_rst_z80<'a, M: Machine>(env: &mut Environment<'a, M>, vec: u32)
    requires
        !old(env).state.reg.adl,
        vec < 256,
    ensures
        *final(env).state == rst_state(*old(env).state, vec),
        memory_written(*old(env).sys, *final(env).sys, rst_writes(*old(env).state)),
        *final(final(env).state) == *final(old(env).state),
        *final(final(env).sys) == *final(old(env).sys),
{
    let pc = env.state.pc();
    match env.state.sz_prefix {
        SizePrefix::NoPrefix => {
            env.push(pc);
            env.state.set_pc(vec);
        },
        SizePrefix::SIL | // <- SIL forbidden by spec, but works on ez80
        SizePrefix::SIS => {
            push_marked(env, pc, 2);
            env.state.set_pc(vec);
        },
        SizePrefix::LIL | // <- LIL is forbidden by the spec, but work on ez80
        SizePrefix::LIS => {
            push_z80_to_adl(env, pc);
            env.state.set_pc(vec);
        },
    }
}

/// RST d
pub fn exec_rst<'a, M: Machine>(env: &mut Environment<'a, M>, d: u8)
    ensures
        *final(env).state == (rst_state(*old(env).state, d as u32)),
        memory_written(*old(env).sys, *final(env).sys, rst_writes(*old(env).state)),
        *final(final(env).state) == *final(old(env).state),
        *final(final(env).sys) == *final(old(env).sys),
{
    let address = d as u32;
    if env.state.reg.adl {
        handle_rst_adl(env, address);
    } else {
        handle_rst_z80(env, address);
    }
}

pub open spec fn rst_op(d: u8) -> (Action, Seq<char>) {
    (Action::Rst(d), "RST "@ + hex2_spec(d) + "h"@)
}

pub fn build_rst(d: u8) -> (op: Opcode)
    ensures
        is_op(op, rst_op(d)),
{
    let mut name = String::from_str("RST ");
    name.append(hex2_string(d).as_str());
    name.append("h");
    Opcode { name, action: Action::Rst(d) }
}

/// RET
#[verifier::rlimit(40)]
pub fn exec_ret<'a, M: Machine>(env: &mut Environment<'a, M>)
    ensures
        *final(env).state == (ret_state(*old(env).state, *old(env).sys)),
        memory_written(*old(env).sys, *final(env).sys, seq![]),
        *final(final(env).state) == *final(old(env).state),
        *final(final(env).sys) == *final(old(env).sys),
{
    let ghost m0 = *env.sys;
    env.sys.use_cycles(2);
    let ghost m1 = *env.sys;
    env.subroutine_return();
    proof { lemma_same_memory_no_writes(m0, *env.sys); }
}

pub open spec fn ret_op() -> (Action, Seq<char>) {
    (Action::Ret, "RET"@)
}

pub fn build_ret() -> (op: Opcode)
    ensures
        is_op(op, ret_op()),
{
    let mut name = String::from_str("RET");
    Opcode { name, action: Action::Ret }
}

pub open spec fn reti_op() -> (Action, Seq<char>) {
    (Action::Reti, "RETI"@)
}

pub fn build_reti() -> (op: Opcode)
    ensures
        is_op(op, reti_op()),
{
    let mut name = String::from_str("RETI");
    Opcode { name, action: Action::Reti }
}

pub open spec fn retn_state<M: Machine>(s: State, m: M) -> State {
    let s1 = ret_state(s, m);
    with_reg(s1, Registers { iff1: s1.reg.iff2, ..s1.reg })
}

/// RETI: returns from a maskable interrupt
pub fn exec_reti<'a, M: Machine>(env: &mut Environment<'a, M>)
    ensures
        *final(env).state == (ret_state(*old(env).state, *old(env).sys)),
        memory_written(*old(env).sys, *final(env).sys, seq![]),
        *final(final(env).state) == *final(old(env).state),
        *final(final(env).sys) == *final(old(env).sys),
{
    env.subroutine_return();
    proof { lemma_no_writes(*env.sys); }
}

/// RETN: returns from a non maskable interrupt
pub fn exec_retn<'a, M: Machine>(env: &mut Environment<'a, M>)
    ensures
        *final(env).state == (retn_state(*old(env).state, *old(env).sys)),
        memory_written(*old(env).sys, *final(env).sys, seq![]),
        *final(final(env).state) == *final(old(env).state),
        *final(final(env).sys) == *final(old(env).sys),
{
    env.subroutine_return();
    env.state.reg.end_nmi();
    proof { lemma_no_writes(*env.sys); }
}

pub open spec fn retn_op() -> (Action, Seq<char>) {
    (Action::Retn, "RETN"@)
}

pub fn build_retn() -> (op: Opcode)
    ensures
        is_op(op, retn_op()),
{
    let mut name = String::from_str("RETN");
    Opcode { name, action: Action::Retn }
}

pub open spec fn ret_eq_state<M: Machine>(s: State, m: M, flag: Flag, value: bool) -> State {
    if s.reg.get_flag_spec(flag) == value {
        ret_state(s, m)
    } else {
        s
    }
}

/// RET cc
pub fn exec_ret_eq<'a, M: Machine>(env: &mut Environment<'a, M>, flag: Flag, value: bool)
    ensures
        *final(env).state == (ret_eq_state(*old(env).state, *old(env).sys, flag, value)),
        memory_written(*old(env).sys, *final(env).sys, seq![]),
        *final(final(env).state) == *final(old(env).state),
        *final(final(env).sys) == *final(old(env).sys),
{
    if env.state.reg.get_flag(flag) == value {
        env.subroutine_return();
    }
    proof { lemma_no_writes(*env.sys); }
}

pub open spec fn ret_eq_op(cc: (Flag, bool, Seq<char>)) -> (Action, Seq<char>) {
    (Action::RetEq(cc.0, cc.1), "RET "@ + cc.2)
}

pub fn build_ret_eq(cc: (Flag, bool, &str)) -> (op: Opcode)
    ensures
        is_op(op, ret_eq_op((cc.0, cc.1, cc.2@))),
{
    let (flag, value, name) = cc;
    let mut text = String::from_str("RET ");
    text.append(name);
    Opcode { name: text, action: Action::RetEq(flag, value) }
}

/// The conditional jumps, calls and returns are taken exactly when the flag
/// has the value of the condition. JR cc jumps by its signed offset from
/// the address after the instruction, JP cc and CALL cc go to their
/// immediate address, RET cc returns as RET does; not taken, they go on to
/// the next instruction (RET cc changes nothing). JR cc and JP cc change
/// nothing but PC. RST goes to its vector, but for the .SIS form in ADL
/// mode, which changes nothing.
pub proof fn lemma_conditionals<M: Machine>(s: State, m: M, flag: Flag, value: bool, vec: u32)
    ensures
        ({
            let taken = s.reg.get_flag_spec(flag) == value;
            let s1 = advance_pc_spec(s);
            let sn = advance_n_spec(s, imm_len(s));
            &&& jr_eq_state(s, m, flag, value).reg == (Registers { pc: jr_eq_state(s, m, flag, value).reg.pc, ..s.reg })
            &&& taken ==> jr_eq_state(s, m, flag, value).reg.pc == wrap_spec(s1, s1.pc_spec(), code_byte(s, m, 0) as i8 as int)
                % 0x1000000
            &&& !taken ==> jr_eq_state(s, m, flag, value).reg.pc == s1.reg.pc
            &&& taken ==> jp_eq_state(s, m, flag, value).reg.pc == imm_address_spec(s, m) % 0x1000000
            &&& !taken ==> jp_eq_state(s, m, flag, value) == sn
            &&& taken ==> call_eq_state(s, m, flag, value).reg.pc == imm_address_spec(s, m) % 0x1000000
            &&& !taken ==> call_eq_state(s, m, flag, value) == sn
            &&& taken ==> ret_eq_state(s, m, flag, value) == ret_state(s, m)
            &&& !taken ==> ret_eq_state(s, m, flag, value) == s
            &&& !(s.reg.adl && s.sz_prefix == SizePrefix::SIS) ==> rst_state(s, vec).reg.pc == vec % 0x1000000
            &&& (s.reg.adl && s.sz_prefix == SizePrefix::SIS) ==> rst_state(s, vec) == s
        }),
{
    lemma_advance_only_pc(s, imm_len(s));
}

/// Moving the program counter changes nothing but the PC register.
proof fn lemma_advance_only_pc(s: State, n: nat)
    ensures
        advance_n_spec(s, n) == (State { reg: Registers { pc: advance_n_spec(s, n).reg.pc, ..s.reg }, ..s }),
    decreases n,
{
    if n > 0 {
        lemma_advance_only_pc(s, (n - 1) as nat);
    }
}

} // verus!
