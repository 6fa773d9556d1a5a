use vstd::prelude::*;

use crate::environment::{
    Environment,
    index_address_spec,
    reg8_ext_spec,
    set_reg_state,
    set_reg_writes,
    with_reg,
};
use crate::machine::{Machine, lemma_no_writes, memory_written};
use crate::opcode::{Action, Opcode, ShiftDir, ShiftMode, is_op};
use crate::registers::{Flag, Reg8, Registers, bits_flags_spec, flags53_spec, parity_even, sz53_spec, with_bits};
use crate::state::State;
use crate::text::{decimal_spec, decimal_string};

verus! {

/*
    Bits: shifts and rotations, BIT, SET and RES, RLD and RRD.
*/

/// The result of a shift or rotation of `v` and the bit that goes to C.
pub open spec fn shift_spec(v: u8, dir: ShiftDir, mode: ShiftMode, carry_in: bool) -> (u8, bool) {
    match dir {
        ShiftDir::Left => {
            let top = v >= 128;
            let low = match mode {
                ShiftMode::Arithmetic => false,
                ShiftMode::Logical => true,
                ShiftMode::Rotate => carry_in,
                ShiftMode::RotateCarry => top,
            };
            (((v * 2) % 256 + (if low { 1int } else { 0int })) as u8, top)
        },
        ShiftDir::Right => {
            let high = match mode {
                ShiftMode::Arithmetic => v >= 128,
                ShiftMode::Logical => false,
                ShiftMode::Rotate => carry_in,
                ShiftMode::RotateCarry => v % 2 == 1,
            };
            ((v / 2 + (if high { 128int } else { 0int })) as u8, v % 2 == 1)
        },
    }
}

proof fn lemma_bit7(v: u8)
    by (bit_vector)
    ensures
        (v & 0x80u8 == 0x80u8) == (v >= 128u8),
        v & 0x80u8 == 0x80u8 || v & 0x80u8 == 0u8,
{
}

/// The shifts and rotations of the byte `v` as arithmetic, with the carry
/// `c` before and the bit that goes to C after: SLA doubles the byte (mod
/// 256), SLL also sets bit 0, RLC moves bit 7 round to bit 0, RL takes the
/// carry into bit 0; SRA halves it and keeps bit 7 (the sign), SRL halves
/// it, RRC moves bit 0 round to bit 7, RR takes the carry into bit 7. Left
/// shifts give out bit 7, right shifts bit 0.
pub proof fn lemma_shift_bits(v: u8, c: bool)
    ensures
        shift_spec(v, ShiftDir::Left, ShiftMode::Arithmetic, c) == ((2 * v % 256) as u8, v >= 128),
        shift_spec(v, ShiftDir::Left, ShiftMode::Logical, c) == ((2 * v % 256 + 1) as u8, v >= 128),
        shift_spec(v, ShiftDir::Left, ShiftMode::RotateCarry, c) == ((2 * v % 256 + v / 128) as u8, v >= 128),
        shift_spec(v, ShiftDir::Left, ShiftMode::Rotate, c) == (
            (2 * v % 256 + (if c { 1int } else { 0int })) as u8,
            v >= 128,
        ),
        shift_spec(v, ShiftDir::Right, ShiftMode::Arithmetic, c) == ((v / 2 + (v & 0x80u8)) as u8, v % 2 == 1),
        (shift_spec(v, ShiftDir::Right, ShiftMode::Arithmetic, c).0 >= 128) == (v >= 128),
        shift_spec(v, ShiftDir::Right, ShiftMode::Logical, c) == ((v / 2) as u8, v % 2 == 1),
        shift_spec(v, ShiftDir::Right, ShiftMode::RotateCarry, c) == ((v / 2 + 128 * (v % 2)) as u8, v % 2 == 1),
        shift_spec(v, ShiftDir::Right, ShiftMode::Rotate, c) == (
            (v / 2 + (if c { 128int } else { 0int })) as u8,
            v % 2 == 1,
        ),
{
    lemma_bit7(v);
}

fn shift_compute(v: u8, dir: ShiftDir, mode: ShiftMode, carry_in: bool) -> (r: (u8, bool))
    ensures
        r == shift_spec(v, dir, mode, carry_in),
{
    match dir {
        ShiftDir::Left => {
            let top = v >= 128;
            let low = match mode {
                ShiftMode::Arithmetic => false,
                ShiftMode::Logical => true,
                ShiftMode::Rotate => carry_in,
                ShiftMode::RotateCarry => top,
            };
            let shifted = ((v as u16) * 2 % 256) as u8;
            (shifted + (if low { 1u8 } else { 0u8 }), top)
        },
        ShiftDir::Right => {
            let high = match mode {
                ShiftMode::Arithmetic => v >= 128,
                ShiftMode::Logical => false,
                ShiftMode::Rotate => carry_in,
                ShiftMode::RotateCarry => v % 2 == 1,
            };
            (v / 2 + (if high { 128u8 } else { 0u8 }), v % 2 == 1)
        },
    }
}

/// F after a shift with result `v` and carry `c`: H and N cleared; the
/// fast forms on A (RLCA, ...) keep S, Z and P/V, the others set them from
/// the result.
pub open spec fn shift_flags(f: u8, v: u8, c: bool, fast: bool) -> u8 {
    let f1 = with_bits(with_bits(with_bits(f, 1, c), 16, false), 2, false);
    if fast {
        flags53_spec(f1, v)
    } else {
        with_bits(sz53_spec(f1, v), 4, parity_even(v))
    }
}

/// The operand of a shift: in the indexed form (DD CB / FD CB) it is the
/// memory at (IX+d) or (IY+d).
pub open spec fn rot_operand<M: Machine>(s: State, m: M, r: Reg8, indexed: bool) -> u8 {
    if indexed {
        m.peek_spec(index_address_spec(s))
    } else {
        reg8_ext_spec(s, m, r)
    }
}

pub open spec fn rot_result<M: Machine>(s: State, m: M, r: Reg8, dir: ShiftDir, mode: ShiftMode, indexed: bool) -> (u8, bool) {
    shift_spec(rot_operand(s, m, r, indexed), dir, mode, s.reg.f & 1 != 0)
}

/// The state after a shift or rotation. The indexed form writes the result
/// to memory and also to the register `r` unless `r` is (HL).
pub open spec fn rot_r_state<M: Machine>(
    s: State,
    m: M,
    r: Reg8,
    dir: ShiftDir,
    mode: ShiftMode,
    fast: bool,
    indexed: bool,
) -> State {
    let (v, c) = rot_result(s, m, r, dir, mode, indexed);
    let s1 = with_reg(s, Registers { f: shift_flags(s.reg.f, v, c, fast), ..s.reg });
    if indexed {
        if r == Reg8::_HL {
            s1
        } else {
            with_reg(s1, s1.reg.set8_spec(r, v))
        }
    } else {
        set_reg_state(s1, r, v)
    }
}

/// C after a shift is the bit that the shift gave out.
proof fn lemma_shift_flags_c(f: u8, v: u8, c: bool, fast: bool)
    ensures
        (shift_flags(f, v, c, fast) & 1 != 0) == c,
{
    let f0 = with_bits(f, 1, c);
    let f1 = with_bits(f0, 16, false);
    let f2 = with_bits(f1, 2, false);
    crate::operators::lemma_bit_of_with_bits(f, 1, c, 1);
    crate::operators::lemma_bit_of_with_bits(f0, 16, false, 1);
    crate::operators::lemma_bit_of_with_bits(f1, 2, false, 1);
    crate::operators::lemma_flag_bits(0, f2, 0, v);
    let g = sz53_spec(f2, v);
    crate::opcode_arith::lemma_sz53_keeps_c(f2, v);
    crate::operators::lemma_bit_of_with_bits(g, 4, parity_even(v), 1);
}

/// A shift or rotation of a register (H and L standing for the halves of IX
/// or IY under DD or FD) leaves in it the shifted value of `shift_spec` and
/// puts in C the bit that went out.
#[verifier::spinoff_prover]
pub proof fn lemma_rot_register<M: Machine>(s: State, m: M, r: Reg8, dir: ShiftDir, mode: ShiftMode, fast: bool)
    requires
        r != Reg8::_HL,
        r != Reg8::F,
    ensures
        ({
            let t = rot_r_state(s, m, r, dir, mode, fast, false);
            let res = shift_spec(reg8_ext_spec(s, m, r), dir, mode, s.reg.f & 1 != 0);
            &&& reg8_ext_spec(t, m, r) == res.0
            &&& (t.reg.f & 1 != 0) == res.1
        }),
{
    let res = shift_spec(reg8_ext_spec(s, m, r), dir, mode, s.reg.f & 1 != 0);
    let f = shift_flags(s.reg.f, res.0, res.1, fast);
    let r1 = Registers { f: f, ..s.reg };
    let x = crate::environment::translate_spec(s.index, r);
    assert(x != Reg8::F && x != Reg8::_HL);
    crate::registers::lemma_set8_get8(r1, x, Reg8::F, res.0);
    lemma_shift_flags_c(s.reg.f, res.0, res.1, fast);
}

pub open spec fn rot_r_writes<M: Machine>(
    s: State,
    m: M,
    r: Reg8,
    dir: ShiftDir,
    mode: ShiftMode,
    fast: bool,
    indexed: bool,
) -> Seq<(u32, u8)> {
    let (v, c) = rot_result(s, m, r, dir, mode, indexed);
    let s1 = with_reg(s, Registers { f: shift_flags(s.reg.f, v, c, fast), ..s.reg });
    if indexed {
        seq![(index_address_spec(s), v)]
    } else {
        set_reg_writes(s1, r, v)
    }
}

fn put_shift_flags(reg: &mut Registers, v: u8, c: bool, fast: bool)
    ensures
        *final(reg) == (Registers { f: shift_flags(old(reg).f, v, c, fast), ..*old(reg) }),
{
    reg.put_flag(Flag::C, c);
    reg.clear_flag(Flag::H);
    reg.clear_flag(Flag::N);
    if fast {
        reg.update_53_flags(v);
    } else {
        reg.update_sz53_flags(v);
        reg.update_p_flag(v);
    }
}

/// Shifts and rotations: RLC, RRC, RL, RR, SLA, SRA, SLL, SRL and the fast
/// forms on A.
pub fn exec_rot_r<'a, M: Machine>(
    env: &mut Environment<'a, M>,
    r: Reg8,
    dir: ShiftDir,
    mode: ShiftMode,
    fast: bool,
    indexed: bool,
)
    ensures
        *final(env).state == rot_r_state(*old(env).state, *old(env).sys, r, dir, mode, fast, indexed),
        memory_written(
            *old(env).sys,
            *final(env).sys,
            rot_r_writes(*old(env).state, *old(env).sys, r, dir, mode, fast, indexed),
        ),
        *final(final(env).state) == *final(old(env).state),
        *final(final(env).sys) == *final(old(env).sys),
{
    let address = env.index_address();
    let a = if indexed {
        env.peek(address)
    } else {
        env.reg8_ext(r)
    };
    let carry_in = env.state.reg.get_flag(Flag::C);
    let (v, c) = shift_compute(a, dir, mode, carry_in);
    put_shift_flags(&mut env.state.reg, v, c, fast);
    if indexed {
        env.poke(address, v);
        if r != Reg8::_HL {
            env.state.reg.set8(r, v);
        }
    } else {
        env.set_reg(r, v);
        proof {
            if r != Reg8::_HL {
                lemma_no_writes(*env.sys);
            }
        }
    }
}

/// The name of a shift: the fast forms add A to the mnemonic, the indexed
/// forms name the memory operand and the register that gets a copy.
pub open spec fn rot_r_name(r: Reg8, name: Seq<char>, fast: bool, indexed: bool) -> Seq<char> {
    if fast {
        name + "A"@
    } else if indexed && r != Reg8::_HL {
        name + " (__index), "@ + r.name_spec()
    } else {
        name + " "@ + r.name_spec()
    }
}

pub open spec fn rot_r_op(r: Reg8, rot: (ShiftDir, ShiftMode, Seq<char>), fast: bool, indexed: bool) -> (
    Action,
    Seq<char>,
) {
    (Action::RotR(r, rot.0, rot.1, fast, indexed), rot_r_name(r, rot.2, fast, indexed))
}

pub fn build_rot_r(r: Reg8, rot: (ShiftDir, ShiftMode, &str), fast: bool, indexed: bool) -> (op: Opcode)
    ensures
        is_op(op, rot_r_op(r, (rot.0, rot.1, rot.2@), fast, indexed)),
{
    let (dir, mode, text) = rot;
    let mut name = String::from_str(text);
    if fast {
        name.append("A");
    } else if indexed && r != Reg8::_HL {
        name.append(" (__index), ");
        name.append(r.name());
    } else {
        name.append(" ");
        name.append(r.name());
    }
    Opcode { name, action: Action::RotR(r, dir, mode, fast, indexed) }
}

// BIT, SET and RES

/// The mask of bit `n` (taken modulo 8).
pub open spec fn bit_mask(n: u8) -> u8 {
    (1u8 << (n % 8)) as u8
}

/// F of BIT n on `v`: Z and P/V set when the bit is clear, S when it is bit 7
/// and set, H set, N cleared, 5 and 3 from the operand.
pub open spec fn bit_flags(f: u8, v: u8, n: u8) -> u8 {
    let z = v & bit_mask(n);
    flags53_spec(with_bits(with_bits(with_bits(sz53_spec(f, z), 4, z == 0), 16, true), 2, false), v)
}

pub open spec fn bit_r_state<M: Machine>(s: State, m: M, n: u8, r: Reg8) -> State {
    with_reg(s, Registers { f: bit_flags(s.reg.f, reg8_ext_spec(s, m, r), n), ..s.reg })
}

/// BIT n, r
pub fn exec_bit_r<'a, M: Machine>(env: &mut Environment<'a, M>, n: u8, r: Reg8)
    ensures
        *final(env).state == bit_r_state(*old(env).state, *old(env).sys, n, r),
        memory_written(*old(env).sys, *final(env).sys, seq![]),
        *final(final(env).state) == *final(old(env).state),
        *final(final(env).sys) == *final(old(env).sys),
{
    let v = env.reg8_ext(r);
    let z = v & (1u8 << (n % 8));
    env.state.reg.update_sz53_flags(z);
    env.state.reg.put_flag(Flag::P, z == 0);
    env.state.reg.set_flag(Flag::H);
    env.state.reg.clear_flag(Flag::N);
    env.state.reg.update_53_flags(v);
    proof {
        lemma_no_writes(*env.sys);
    }
}

pub open spec fn bit_r_op(n: u8, r: Reg8) -> (Action, Seq<char>) {
    (Action::BitR(n, r), "BIT "@ + decimal_spec(n as nat) + ", "@ + r.name_spec())
}

pub fn build_bit_r(n: u8, r: Reg8) -> (op: Opcode)
    ensures
        is_op(op, bit_r_op(n, r)),
{
    let mut name = String::from_str("BIT ");
    name.append(decimal_string(n).as_str());
    name.append(", ");
    name.append(r.name());
    Opcode { name, action: Action::BitR(n, r) }
}

/// `v` with bit `n` set or cleared.
pub open spec fn set_res_spec(v: u8, n: u8, value: bool) -> u8 {
    if value {
        v | bit_mask(n)
    } else {
        v & !bit_mask(n)
    }
}

proof fn lemma_single_bits(v: u8, n: u8, k: u8)
    by (bit_vector)
    requires
        n < 8,
        k < 8,
    ensures
        ((v | (1u8 << n)) >> k) & 1u8 == (if k == n { 1u8 } else { (v >> k) & 1u8 }),
        ((v & !(1u8 << n)) >> k) & 1u8 == (if k == n { 0u8 } else { (v >> k) & 1u8 }),
        ((v & (1u8 << n)) == 0u8) == ((v >> n) & 1u8 == 0u8),
{
}

/// SET n sets bit n of the operand and RES n clears it, both keeping the
/// other bits; BIT n sets Z exactly when bit n of the operand is clear.
pub proof fn lemma_set_res_bit(f: u8, v: u8, n: u8, k: u8)
    requires
        n < 8,
        k < 8,
    ensures
        (set_res_spec(v, n, true) >> k) & 1u8 == (if k == n { 1u8 } else { (v >> k) & 1u8 }),
        (set_res_spec(v, n, false) >> k) & 1u8 == (if k == n { 0u8 } else { (v >> k) & 1u8 }),
        (bit_flags(f, v, n) & 0x40 != 0) == ((v >> n) & 1u8 == 0u8),
{
    assert(n % 8 == n);
    assert(bit_mask(n) == 1u8 << n);
    lemma_single_bits(v, n, k);
    let z = v & bit_mask(n);
    let g0 = sz53_spec(f, z);
    let g1 = with_bits(g0, 4, z == 0);
    let g2 = with_bits(g1, 16, true);
    let g3 = with_bits(g2, 2, false);
    crate::operators::lemma_flag_bits(f, 0, z, 0);
    crate::operators::lemma_flag_bits(f, g3, 0, v);
    crate::operators::lemma_bit_of_with_bits(g0, 4, z == 0, 0x40);
    crate::operators::lemma_bit_of_with_bits(g1, 16, true, 0x40);
    crate::operators::lemma_bit_of_with_bits(g2, 2, false, 0x40);
}

fn set_res_compute(v: u8, n: u8, value: bool) -> (r: u8)
    ensures
        r == set_res_spec(v, n, value),
{
    let mask = 1u8 << (n % 8);
    if value {
        v | mask
    } else {
        v & !mask
    }
}

pub open spec fn set_res_r_state<M: Machine>(s: State, m: M, n: u8, r: Reg8, value: bool) -> State {
    set_reg_state(s, r, set_res_spec(reg8_ext_spec(s, m, r), n, value))
}

pub open spec fn set_res_r_writes<M: Machine>(s: State, m: M, n: u8, r: Reg8, value: bool) -> Seq<(u32, u8)> {
    set_reg_writes(s, r, set_res_spec(reg8_ext_spec(s, m, r), n, value))
}

/// SET n, r and RES n, r
pub fn exec_set_res_r<'a, M: Machine>(env: &mut Environment<'a, M>, n: u8, r: Reg8, value: bool)
    ensures
        *final(env).state == set_res_r_state(*old(env).state, *old(env).sys, n, r, value),
        memory_written(*old(env).sys, *final(env).sys, set_res_r_writes(*old(env).state, *old(env).sys, n, r, value)),
        *final(final(env).state) == *final(old(env).state),
        *final(final(env).sys) == *final(old(env).sys),
{
    let v = env.reg8_ext(r);
    let w = set_res_compute(v, n, value);
    env.set_reg(r, w);
    proof {
        if r != Reg8::_HL {
            lemma_no_writes(*env.sys);
        }
    }
}

pub open spec fn set_res_r_op(n: u8, r: Reg8, value: bool) -> (Action, Seq<char>) {
    (
        Action::SetResR(n, r, value),
        (if value { "SET "@ } else { "RES "@ }) + decimal_spec(n as nat) + ", "@ + r.name_spec(),
    )
}

pub fn build_set_res_r(n: u8, r: Reg8, value: bool) -> (op: Opcode)
    ensures
        is_op(op, set_res_r_op(n, r, value)),
{
    let mut name = if value {
        String::from_str("SET ")
    } else {
        String::from_str("RES ")
    };
    name.append(decimal_string(n).as_str());
    name.append(", ");
    name.append(r.name());
    Opcode { name, action: Action::SetResR(n, r, value) }
}

/// SET and RES on (IX+d) or (IY+d); the result is also copied to `r` unless
/// `r` is (HL).
pub open spec fn indexed_set_res_r_state<M: Machine>(s: State, m: M, n: u8, r: Reg8, value: bool) -> State {
    let v = set_res_spec(m.peek_spec(index_address_spec(s)), n, value);
    if r == Reg8::_HL {
        s
    } else {
        with_reg(s, s.reg.set8_spec(r, v))
    }
}

pub open spec fn indexed_set_res_r_writes<M: Machine>(s: State, m: M, n: u8, value: bool) -> Seq<(u32, u8)> {
    let a = index_address_spec(s);
    seq![(a, set_res_spec(m.peek_spec(a), n, value))]
}

/// SET n, (IX+d), r and RES n, (IX+d), r
pub fn exec_indexed_set_res_r<'a, M: Machine>(env: &mut Environment<'a, M>, n: u8, r: Reg8, value: bool)
    ensures
        *final(env).state == indexed_set_res_r_state(*old(env).state, *old(env).sys, n, r, value),
        memory_written(*old(env).sys, *final(env).sys, indexed_set_res_r_writes(*old(env).state, *old(env).sys, n, value)),
        *final(final(env).state) == *final(old(env).state),
        *final(final(env).sys) == *final(old(env).sys),
{
    let address = env.index_address();
    let v = env.peek(address);
    let w = set_res_compute(v, n, value);
    env.poke(address, w);
    if r != Reg8::_HL {
        env.state.reg.set8(r, w);
    }
}

pub open spec fn indexed_set_res_r_name(n: u8, r: Reg8, value: bool) -> Seq<char> {
    let base = (if value { "SET "@ } else { "RES "@ }) + decimal_spec(n as nat) + ", (__index)"@;
    if r == Reg8::_HL {
        base
    } else {
        base + ", "@ + r.name_spec()
    }
}

pub open spec fn indexed_set_res_r_op(n: u8, r: Reg8, value: bool) -> (Action, Seq<char>) {
    (Action::IndexedSetResR(n, r, value), indexed_set_res_r_name(n, r, value))
}

pub fn build_indexed_set_res_r(n: u8, r: Reg8, value: bool) -> (op: Opcode)
    ensures
        is_op(op, indexed_set_res_r_op(n, r, value)),
{
    let mut name = if value {
        String::from_str("SET ")
    } else {
        String::from_str("RES ")
    };
    name.append(decimal_string(n).as_str());
    name.append(", (__index)");
    if r != Reg8::_HL {
        name.append(", ");
        name.append(r.name());
    }
    Opcode { name, action: Action::IndexedSetResR(n, r, value) }
}

// RLD and RRD

/// The new A and the new (HL) of RRD (`Right`) or RLD (`Left`): the low
/// nibbles of A and the two nibbles of (HL) rotate by one nibble.
pub open spec fn rxd_spec(a: u8, m: u8, dir: ShiftDir) -> (u8, u8) {
    match dir {
        ShiftDir::Right => ((a / 16 * 16 + m % 16) as u8, (a % 16 * 16 + m / 16) as u8),
        ShiftDir::Left => ((a / 16 * 16 + m / 16) as u8, (m % 16 * 16 + a % 16) as u8),
    }
}

pub open spec fn rxd_state<M: Machine>(s: State, m: M, dir: ShiftDir) -> State {
    let (na, nm) = rxd_spec(s.reg.a, reg8_ext_spec(s, m, Reg8::_HL), dir);
    with_reg(s, Registers { a: na, f: bits_flags_spec(s.reg.f, na), ..s.reg })
}

pub open spec fn rxd_writes<M: Machine>(s: State, m: M, dir: ShiftDir) -> Seq<(u32, u8)> {
    let (na, nm) = rxd_spec(s.reg.a, reg8_ext_spec(s, m, Reg8::_HL), dir);
    seq![(index_address_spec(s), nm)]
}

/// RRD and RLD
pub fn exec_rxd<'a, M: Machine>(env: &mut Environment<'a, M>, dir: ShiftDir)
    ensures
        *final(env).state == rxd_state(*old(env).state, *old(env).sys, dir),
        memory_written(*old(env).sys, *final(env).sys, rxd_writes(*old(env).state, *old(env).sys, dir)),
        *final(final(env).state) == *final(old(env).state),
        *final(final(env).sys) == *final(old(env).sys),
{
    let a = env.state.reg.a();
    let address = env.index_address();
    let m = env.peek(address);
    let (na, nm) = match dir {
        ShiftDir::Right => (a / 16 * 16 + m % 16, a % 16 * 16 + m / 16),
        ShiftDir::Left => (a / 16 * 16 + m / 16, m % 16 * 16 + a % 16),
    };
    env.state.reg.set_a(na);
    env.state.reg.update_bits_in_flags(na);
    env.poke(address, nm);
}

pub open spec fn rxd_op(dir: ShiftDir, name: Seq<char>) -> (Action, Seq<char>) {
    (Action::Rxd(dir), name)
}

pub fn build_rxd(dir: ShiftDir, name: &str) -> (op: Opcode)
    ensures
        is_op(op, rxd_op(dir, name@)),
{
    Opcode { name: String::from_str(name), action: Action::Rxd(dir) }
}

} // verus!
