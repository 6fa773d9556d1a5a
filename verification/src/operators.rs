use vstd::prelude::*;

use crate::registers::{
    Flag,
    Registers,
    arith_flags_spec,
    flags53_spec,
    parity_even,
    sz53_spec,
    with_bits,
};

verus! {

/// The 8 bit ALU operations of the `alu A, r` instructions.
#[derive(Clone, Copy, Debug, PartialEq, Eq, Structural)]
pub enum Operator {
    Add,
    Adc,
    Sub,
    Sbc,
    And,
    Xor,
    Or,
    Cp,
}

/// F of the logical operations on result `v`: S, Z, 5, 3 and parity from
/// `v`, H set for AND only, N and C cleared.
pub open spec fn logic_flags_spec(f: u8, v: u8, h: bool) -> u8 {
    with_bits(with_bits(with_bits(with_bits(sz53_spec(f, v), 4, parity_even(v)), 16, h), 2, false), 1, false)
}

/// Result and new F of an ALU operation on `a` and `b` with flags `f`.
pub open spec fn alu_spec(op: Operator, f: u8, a: u8, b: u8) -> (u8, u8) {
    let carry: int = if f & 1 != 0 {
        1
    } else {
        0
    };
    match op {
        Operator::Add => {
            let r = (a + b) as u16;
            ((r % 256) as u8, arith_flags_spec(f, a as u16, b as u16, r, false, true))
        },
        Operator::Adc => {
            let r = (a + b + carry) as u16;
            ((r % 256) as u8, arith_flags_spec(f, a as u16, b as u16, r, false, true))
        },
        Operator::Sub => {
            let r = ((a - b) % 65536) as u16;
            ((r % 256) as u8, arith_flags_spec(f, a as u16, b as u16, r, true, true))
        },
        Operator::Sbc => {
            let r = ((a - b - carry) % 65536) as u16;
            ((r % 256) as u8, arith_flags_spec(f, a as u16, b as u16, r, true, true))
        },
        Operator::And => ((a & b), logic_flags_spec(f, a & b, true)),
        Operator::Xor => ((a ^ b), logic_flags_spec(f, a ^ b, false)),
        Operator::Or => ((a | b), logic_flags_spec(f, a | b, false)),
        Operator::Cp => {
            let r = ((a - b) % 65536) as u16;
            (a, flags53_spec(arith_flags_spec(f, a as u16, b as u16, r, true, true), b))
        },
    }
}

fn update_logic_flags(reg: &mut Registers, v: u8, h: bool)
    ensures
        *final(reg) == (Registers { f: logic_flags_spec(old(reg).f, v, h), ..*old(reg) }),
{
    reg.update_sz53_flags(v);
    reg.update_p_flag(v);
    reg.put_flag(Flag::H, h);
    reg.clear_flag(Flag::N);
    reg.clear_flag(Flag::C);
}

pub fn operator_add(reg: &mut Registers, a: u8, b: u8) -> (v: u8)
    ensures
        v == alu_spec(Operator::Add, old(reg).f, a, b).0,
        *final(reg) == (Registers { f: alu_spec(Operator::Add, old(reg).f, a, b).1, ..*old(reg) }),
{
    let vv = (a as u16) + (b as u16);
    reg.update_arithmetic_flags(a as u16, b as u16, vv, false, true);
    (vv % 256) as u8
}

pub fn operator_adc(reg: &mut Registers, a: u8, b: u8) -> (v: u8)
    ensures
        v == alu_spec(Operator::Adc, old(reg).f, a, b).0,
        *final(reg) == (Registers { f: alu_spec(Operator::Adc, old(reg).f, a, b).1, ..*old(reg) }),
{
    let mut vv = (a as u16) + (b as u16);
    if reg.get_flag(Flag::C) {
        vv = vv + 1;
    }
    reg.update_arithmetic_flags(a as u16, b as u16, vv, false, true);
    (vv % 256) as u8
}

pub fn operator_sub(reg: &mut Registers, a: u8, b: u8) -> (v: u8)
    ensures
        v == alu_spec(Operator::Sub, old(reg).f, a, b).0,
        *final(reg) == (Registers { f: alu_spec(Operator::Sub, old(reg).f, a, b).1, ..*old(reg) }),
{
    let vv = (a as u16).wrapping_sub(b as u16);
    reg.update_arithmetic_flags(a as u16, b as u16, vv, true, true);
    (vv % 256) as u8
}

pub fn operator_sbc(reg: &mut Registers, a: u8, b: u8) -> (v: u8)
    ensures
        v == alu_spec(Operator::Sbc, old(reg).f, a, b).0,
        *final(reg) == (Registers { f: alu_spec(Operator::Sbc, old(reg).f, a, b).1, ..*old(reg) }),
{
    let mut vv = (a as u16).wrapping_sub(b as u16);
    if reg.get_flag(Flag::C) {
        vv = vv.wrapping_sub(1);
    }
    reg.update_arithmetic_flags(a as u16, b as u16, vv, true, true);
    (vv % 256) as u8
}

pub fn operator_and(reg: &mut Registers, a: u8, b: u8) -> (v: u8)
    ensures
        v == alu_spec(Operator::And, old(reg).f, a, b).0,
        *final(reg) == (Registers { f: alu_spec(Operator::And, old(reg).f, a, b).1, ..*old(reg) }),
{
    let v = a & b;
    update_logic_flags(reg, v, true);
    v
}

pub fn operator_xor(reg: &mut Registers, a: u8, b: u8) -> (v: u8)
    ensures
        v == alu_spec(Operator::Xor, old(reg).f, a, b).0,
        *final(reg) == (Registers { f: alu_spec(Operator::Xor, old(reg).f, a, b).1, ..*old(reg) }),
{
    let v = a ^ b;
    update_logic_flags(reg, v, false);
    v
}

pub fn operator_or(reg: &mut Registers, a: u8, b: u8) -> (v: u8)
    ensures
        v == alu_spec(Operator::Or, old(reg).f, a, b).0,
        *final(reg) == (Registers { f: alu_spec(Operator::Or, old(reg).f, a, b).1, ..*old(reg) }),
{
    let v = a | b;
    update_logic_flags(reg, v, false);
    v
}

/// Compares `a` with `b`: the flags of `a - b`, with bits 5 and 3 taken from
/// `b` (TUZD-8.4); returns `a` unchanged.
pub fn operator_cp(reg: &mut Registers, a: u8, b: u8) -> (v: u8)
    ensures
        v == alu_spec(Operator::Cp, old(reg).f, a, b).0,
        *final(reg) == (Registers { f: alu_spec(Operator::Cp, old(reg).f, a, b).1, ..*old(reg) }),
{
    operator_sub(reg, a, b);
    reg.update_53_flags(b);
    a
}

/// eZ80 TST: the flags of `a & b`; nothing else changes.
pub fn operator_tst(reg: &mut Registers, a: u8, b: u8)
    ensures
        *final(reg) == (Registers { f: alu_spec(Operator::And, old(reg).f, a, b).1, ..*old(reg) }),
{
    operator_and(reg, a, b);
}

/// Applies an ALU operation.
pub fn apply_operator(op: Operator, reg: &mut Registers, a: u8, b: u8) -> (v: u8)
    ensures
        v == alu_spec(op, old(reg).f, a, b).0,
        *final(reg) == (Registers { f: alu_spec(op, old(reg).f, a, b).1, ..*old(reg) }),
{
    match op {
        Operator::Add => operator_add(reg, a, b),
        Operator::Adc => operator_adc(reg, a, b),
        Operator::Sub => operator_sub(reg, a, b),
        Operator::Sbc => operator_sbc(reg, a, b),
        Operator::And => operator_and(reg, a, b),
        Operator::Xor => operator_xor(reg, a, b),
        Operator::Or => operator_or(reg, a, b),
        Operator::Cp => operator_cp(reg, a, b),
    }
}

proof fn lemma_with_bits_keeps_z(g: u8, m: u8, on: bool)
    requires
        m == 16 || m == 1 || m == 4 || m == 2,
        g & 0x40 != 0,
    ensures
        with_bits(g, m, on) & 0x40 != 0,
{
    assert((g | m) & 0x40 != 0 && (g & !m) & 0x40 != 0) by (bit_vector)
        requires
            m == 16 || m == 1 || m == 4 || m == 2,
            g & 0x40 != 0,
    ;
}

/// A bit of F after `with_bits`: the bit of the mask takes `on`, the other
/// bits are kept.
pub(crate) proof fn lemma_bit_of_with_bits(g: u8, m: u8, on: bool, o: u8)
    requires
        m == 1 || m == 2 || m == 4 || m == 16,
        o == 1 || o == 0x40 || o == 0x80,
    ensures
        (with_bits(g, m, on) & o != 0) == (if m == o { on } else { g & o != 0 }),
{
    assert(((g | m) & o != 0) == (if m == o { true } else { g & o != 0 }) && ((g & !m) & o != 0) == (if m == o {
        false
    } else {
        g & o != 0
    })) by (bit_vector)
        requires
            m == 1 || m == 2 || m == 4 || m == 16,
            o == 1 || o == 0x40 || o == 0x80,
    ;
}

/// Z, S and C of the flags that the ALU operations build.
pub(crate) proof fn lemma_flag_bits(f: u8, g: u8, r: u8, b: u8)
    by (bit_vector)
    ensures
        (sz53_spec(f, r) & 0x40 != 0) == (r == 0),
        (sz53_spec(f, r) & 0x80 != 0) == (r >= 128u8),
        (flags53_spec(g, b) & 0x40 != 0) == (g & 0x40 != 0),
        (flags53_spec(g, b) & 0x80 != 0) == (g & 0x80 != 0),
        (flags53_spec(g, b) & 1 != 0) == (g & 1 != 0),
{
}

/// Bit 8 of a ^ b ^ r is the carry out of an 8 bit addition.
proof fn lemma_add_carry_bit(a: u16, b: u16, r: u16)
    by (bit_vector)
    requires
        a < 256,
        b < 256,
        r == a + b || r == a + b + 1,
    ensures
        ((a ^ b ^ r) & 0x100 != 0) == (r >= 256),
{
}

/// Bit 8 of a ^ b ^ r is the borrow out of an 8 bit subtraction.
proof fn lemma_sub_borrow_bit(a: u16, b: u16, c: u16, r: u16)
    by (bit_vector)
    requires
        a < 256,
        b < 256,
        c < 2,
        (a >= b + c && r == a - b - c) || (a < b + c && r == 65536 + a - b - c),
    ensures
        ((a ^ b ^ r) & 0x100 != 0) == (a < b + c),
{
}

/// Z, S and C of `arith_flags_spec`.
proof fn lemma_arith_flag_bits(f: u8, a: u16, b: u16, r: u16, neg: bool)
    ensures
        (arith_flags_spec(f, a, b, r, neg, true) & 0x40 != 0) == (r % 256 == 0),
        (arith_flags_spec(f, a, b, r, neg, true) & 0x80 != 0) == (r % 256 >= 128),
        (arith_flags_spec(f, a, b, r, neg, true) & 1 != 0) == ((a ^ b ^ r) & 0x100 != 0),
{
    let x = a ^ b ^ r;
    let f1 = sz53_spec(f, (r % 256) as u8);
    let f2 = with_bits(f1, 16, x & 0x10 != 0);
    let f3 = with_bits(f2, 1, x & 0x100 != 0);
    let f4 = with_bits(f3, 4, ((x >> 7u16) ^ (x >> 8u16)) & 1 != 0);
    lemma_flag_bits(f, 0, (r % 256) as u8, 0);
    lemma_bit_of_with_bits(f1, 16, x & 0x10 != 0, 0x40);
    lemma_bit_of_with_bits(f1, 16, x & 0x10 != 0, 0x80);
    lemma_bit_of_with_bits(f1, 16, x & 0x10 != 0, 1);
    lemma_bit_of_with_bits(f2, 1, x & 0x100 != 0, 0x40);
    lemma_bit_of_with_bits(f2, 1, x & 0x100 != 0, 0x80);
    lemma_bit_of_with_bits(f2, 1, x & 0x100 != 0, 1);
    lemma_bit_of_with_bits(f3, 4, ((x >> 7u16) ^ (x >> 8u16)) & 1 != 0, 0x40);
    lemma_bit_of_with_bits(f3, 4, ((x >> 7u16) ^ (x >> 8u16)) & 1 != 0, 0x80);
    lemma_bit_of_with_bits(f3, 4, ((x >> 7u16) ^ (x >> 8u16)) & 1 != 0, 1);
    lemma_bit_of_with_bits(f4, 2, neg, 0x40);
    lemma_bit_of_with_bits(f4, 2, neg, 0x80);
    lemma_bit_of_with_bits(f4, 2, neg, 1);
}

/// Z, S and C of `logic_flags_spec`: C is cleared.
proof fn lemma_logic_flag_bits(f: u8, v: u8, h: bool)
    ensures
        (logic_flags_spec(f, v, h) & 0x40 != 0) == (v == 0),
        (logic_flags_spec(f, v, h) & 0x80 != 0) == (v >= 128),
        logic_flags_spec(f, v, h) & 1 == 0,
{
    let f1 = sz53_spec(f, v);
    let f2 = with_bits(f1, 4, parity_even(v));
    let f3 = with_bits(f2, 16, h);
    let f4 = with_bits(f3, 2, false);
    lemma_flag_bits(f, 0, v, 0);
    lemma_bit_of_with_bits(f1, 4, parity_even(v), 0x40);
    lemma_bit_of_with_bits(f1, 4, parity_even(v), 0x80);
    lemma_bit_of_with_bits(f2, 16, h, 0x40);
    lemma_bit_of_with_bits(f2, 16, h, 0x80);
    lemma_bit_of_with_bits(f3, 2, false, 0x40);
    lemma_bit_of_with_bits(f3, 2, false, 0x80);
    lemma_bit_of_with_bits(f4, 1, false, 0x40);
    lemma_bit_of_with_bits(f4, 1, false, 0x80);
    lemma_bit_of_with_bits(f4, 1, false, 1);
    assert((with_bits(f4, 1, false) & 1 != 0) == false);
}

#[verifier::spinoff_prover]
proof fn lemma_alu_add(f: u8, a: u8, b: u8)
    ensures
        alu_spec(Operator::Add, f, a, b).0 == (a + b) % 256,
        (alu_spec(Operator::Add, f, a, b).1 & 1 != 0) == (a + b >= 256),
        (alu_spec(Operator::Add, f, a, b).1 & 0x40 != 0) == (alu_spec(Operator::Add, f, a, b).0 == 0),
        (alu_spec(Operator::Add, f, a, b).1 & 0x80 != 0) == (alu_spec(Operator::Add, f, a, b).0 >= 128),
{
    let r = (a + b) as u16;
    lemma_arith_flag_bits(f, a as u16, b as u16, r, false);
    lemma_add_carry_bit(a as u16, b as u16, r);
}

#[verifier::spinoff_prover]
proof fn lemma_alu_adc(f: u8, a: u8, b: u8)
    ensures
        alu_spec(Operator::Adc, f, a, b).0 == (a + b + (if f & 1 != 0 { 1int } else { 0int })) % 256,
        (alu_spec(Operator::Adc, f, a, b).1 & 1 != 0) == (a + b + (if f & 1 != 0 { 1int } else { 0int }) >= 256),
        (alu_spec(Operator::Adc, f, a, b).1 & 0x40 != 0) == (alu_spec(Operator::Adc, f, a, b).0 == 0),
        (alu_spec(Operator::Adc, f, a, b).1 & 0x80 != 0) == (alu_spec(Operator::Adc, f, a, b).0 >= 128),
{
    let c: int = if f & 1 != 0 { 1 } else { 0 };
    let r = (a + b + c) as u16;
    lemma_arith_flag_bits(f, a as u16, b as u16, r, false);
    lemma_add_carry_bit(a as u16, b as u16, r);
}

#[verifier::spinoff_prover]
proof fn lemma_alu_sub(f: u8, a: u8, b: u8)
    ensures
        (alu_spec(Operator::Sub, f, a, b).0 + b) % 256 == a,
        (alu_spec(Operator::Sub, f, a, b).1 & 1 != 0) == (a < b),
        (alu_spec(Operator::Sub, f, a, b).1 & 0x40 != 0) == (alu_spec(Operator::Sub, f, a, b).0 == 0),
        (alu_spec(Operator::Sub, f, a, b).1 & 0x80 != 0) == (alu_spec(Operator::Sub, f, a, b).0 >= 128),
{
    let r = ((a - b) % 65536) as u16;
    lemma_arith_flag_bits(f, a as u16, b as u16, r, true);
    lemma_sub_borrow_bit(a as u16, b as u16, 0, r);
}

#[verifier::spinoff_prover]
#[verifier::rlimit(60)]
proof fn lemma_alu_sbc(f: u8, a: u8, b: u8)
    ensures
        (alu_spec(Operator::Sbc, f, a, b).0 + b + (if f & 1 != 0 { 1int } else { 0int })) % 256 == a,
        (alu_spec(Operator::Sbc, f, a, b).1 & 1 != 0) == (a < b + (if f & 1 != 0 { 1int } else { 0int })),
        (alu_spec(Operator::Sbc, f, a, b).1 & 0x40 != 0) == (alu_spec(Operator::Sbc, f, a, b).0 == 0),
        (alu_spec(Operator::Sbc, f, a, b).1 & 0x80 != 0) == (alu_spec(Operator::Sbc, f, a, b).0 >= 128),
{
    let c: int = if f & 1 != 0 { 1 } else { 0 };
    let r = ((a - b - c) % 65536) as u16;
    if a >= b + c {
        assert(r == a - b - c);
    } else {
        assert(r == 65536 + a - b - c);
    }
    assert(alu_spec(Operator::Sbc, f, a, b).0 == r % 256);
    lemma_arith_flag_bits(f, a as u16, b as u16, r, true);
    lemma_sub_borrow_bit(a as u16, b as u16, c as u16, r);
}

#[verifier::spinoff_prover]
proof fn lemma_alu_and(f: u8, a: u8, b: u8)
    ensures
        alu_spec(Operator::And, f, a, b).0 == a & b,
        alu_spec(Operator::And, f, a, b).1 & 1 == 0,
        (alu_spec(Operator::And, f, a, b).1 & 0x40 != 0) == (alu_spec(Operator::And, f, a, b).0 == 0),
        (alu_spec(Operator::And, f, a, b).1 & 0x80 != 0) == (alu_spec(Operator::And, f, a, b).0 >= 128),
{
    lemma_logic_flag_bits(f, a & b, true);
}

#[verifier::spinoff_prover]
proof fn lemma_alu_xor(f: u8, a: u8, b: u8)
    ensures
        alu_spec(Operator::Xor, f, a, b).0 == a ^ b,
        alu_spec(Operator::Xor, f, a, b).1 & 1 == 0,
        (alu_spec(Operator::Xor, f, a, b).1 & 0x40 != 0) == (alu_spec(Operator::Xor, f, a, b).0 == 0),
        (alu_spec(Operator::Xor, f, a, b).1 & 0x80 != 0) == (alu_spec(Operator::Xor, f, a, b).0 >= 128),
{
    lemma_logic_flag_bits(f, a ^ b, false);
}

#[verifier::spinoff_prover]
proof fn lemma_alu_or(f: u8, a: u8, b: u8)
    ensures
        alu_spec(Operator::Or, f, a, b).0 == a | b,
        alu_spec(Operator::Or, f, a, b).1 & 1 == 0,
        (alu_spec(Operator::Or, f, a, b).1 & 0x40 != 0) == (alu_spec(Operator::Or, f, a, b).0 == 0),
        (alu_spec(Operator::Or, f, a, b).1 & 0x80 != 0) == (alu_spec(Operator::Or, f, a, b).0 >= 128),
{
    lemma_logic_flag_bits(f, a | b, false);
}

#[verifier::spinoff_prover]
proof fn lemma_alu_cp(f: u8, a: u8, b: u8)
    ensures
        alu_spec(Operator::Cp, f, a, b).0 == a,
        (alu_spec(Operator::Cp, f, a, b).1 & 0x40 != 0) == (a == b),
        (alu_spec(Operator::Cp, f, a, b).1 & 1 != 0) == (a < b),
{
    let r = ((a - b) % 65536) as u16;
    let g = arith_flags_spec(f, a as u16, b as u16, r, true, true);
    lemma_arith_flag_bits(f, a as u16, b as u16, r, true);
    lemma_sub_borrow_bit(a as u16, b as u16, 0, r);
    lemma_flag_bits(f, g, 0, b);
}

/// The 8 bit ALU operations on A and an operand `b`, with the carry `c` of
/// F: ADD and ADC give the sum (plus the carry for ADC) modulo 256 and carry
/// out when it reaches 256; SUB and SBC give the difference (less the
/// carry for SBC), which added back to `b` gives A, and borrow when A is
/// below what is taken; AND, XOR and OR are the bitwise operations and
/// clear C; CP leaves A, sets Z exactly when A equals `b` and borrows as
/// SUB does. Every other operation sets Z exactly when its result is zero,
/// and S is bit 7 of the result.
pub proof fn lemma_alu_results(op: Operator, f: u8, a: u8, b: u8)
    ensures
        ({
            let (r, g) = alu_spec(op, f, a, b);
            let c: int = if f & 1 != 0 { 1 } else { 0 };
            &&& op == Operator::Add ==> r == (a + b) % 256 && (g & 1 != 0) == (a + b >= 256)
            &&& op == Operator::Adc ==> r == (a + b + c) % 256 && (g & 1 != 0) == (a + b + c >= 256)
            &&& op == Operator::Sub ==> (r + b) % 256 == a && (g & 1 != 0) == (a < b)
            &&& op == Operator::Sbc ==> (r + b + c) % 256 == a && (g & 1 != 0) == (a < b + c)
            &&& op == Operator::And ==> r == a & b && g & 1 == 0
            &&& op == Operator::Xor ==> r == a ^ b && g & 1 == 0
            &&& op == Operator::Or ==> r == a | b && g & 1 == 0
            &&& op == Operator::Cp ==> r == a && (g & 0x40 != 0) == (a == b) && (g & 1 != 0) == (a < b)
            &&& op != Operator::Cp ==> (g & 0x40 != 0) == (r == 0) && (g & 0x80 != 0) == (r >= 128)
        }),
{
    match op {
        Operator::Add => lemma_alu_add(f, a, b),
        Operator::Adc => lemma_alu_adc(f, a, b),
        Operator::Sub => lemma_alu_sub(f, a, b),
        Operator::Sbc => lemma_alu_sbc(f, a, b),
        Operator::And => lemma_alu_and(f, a, b),
        Operator::Xor => lemma_alu_xor(f, a, b),
        Operator::Or => lemma_alu_or(f, a, b),
        Operator::Cp => lemma_alu_cp(f, a, b),
    }
}

/// Adding 0 gives back the value; subtracting a value from itself gives 0
/// and sets the Z flag; CP leaves A unchanged.
pub proof fn lemma_alu_identities(f: u8, a: u8)
    ensures
        alu_spec(Operator::Add, f, a, 0).0 == a,
        alu_spec(Operator::Sub, f, a, a).0 == 0,
        alu_spec(Operator::Sub, f, a, a).1 & 0x40 != 0,
        alu_spec(Operator::Xor, f, a, a).0 == 0,
        alu_spec(Operator::Cp, f, a, 7).0 == a,
{
    assert(a ^ a == 0) by (bit_vector);
    let r: u16 = 0;
    let x = (a as u16) ^ (a as u16) ^ r;
    let f1 = sz53_spec(f, 0);
    assert(f1 & 0x40 != 0) by (bit_vector)
        requires
            f1 == (f & 0x17) | (0u8 & 0xa8) | 0x40u8,
    ;
    let f2 = with_bits(f1, 16, x & 0x10 != 0);
    let f3 = with_bits(f2, 1, x & 0x100 != 0);
    let f4 = with_bits(f3, 4, ((x >> 7u16) ^ (x >> 8u16)) & 1 != 0);
    let f5 = with_bits(f4, 2, true);
    lemma_with_bits_keeps_z(f1, 16, x & 0x10 != 0);
    lemma_with_bits_keeps_z(f2, 1, x & 0x100 != 0);
    lemma_with_bits_keeps_z(f3, 4, ((x >> 7u16) ^ (x >> 8u16)) & 1 != 0);
    lemma_with_bits_keeps_z(f4, 2, true);
    assert(f5 & 0x40 != 0);
}

} // verus!
