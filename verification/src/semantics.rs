use vstd::prelude::*;

use crate::environment::{advance_pc_spec, code_byte, index_address_spec, reg8_ext_spec, wrap_spec};
use crate::machine::Machine;
use crate::opcode::{Action, ShiftDir, ShiftMode};
use crate::operators::Operator;
use crate::registers::{Flag, Reg16, Reg8};
use crate::state::State;
use crate::step::{
    action_state,
    bit_r_effect,
    call_eq_effect,
    ccf_effect,
    cp_block_effect,
    cpl_effect,
    dec_r_effect,
    djnz_effect,
    in_block_effect,
    inc_r_effect,
    jp_eq_effect,
    jr_eq_effect,
    ld_block_effect,
    mlt_rr_effect,
    neg_effect,
    operator_a_n_effect,
    operator_a_r_effect,
    otirx_or_otdrx_effect,
    out_block_effect,
    ret_eq_effect,
    rot_r_effect,
    scf_effect,
    set_res_r_effect,
    tst_a_r_effect,
};

verus! {

/*
    What the instructions do, as one step of the CPU (`action_state`, the
    state after the action of a decoded instruction), in terms of their
    operands and results.
*/

/// ALU A, r: OR, AND and XOR are the bitwise operations on A and the
/// operand, ADD adds it (mod 256), SUB takes it (the result plus the
/// operand gives A back), CP leaves A and sets Z exactly when A equals the
/// operand; the others set Z exactly when the new A is zero.
pub proof fn lemma_step_alu_a_r<M: Machine>(s: State, m: M, v: u8, r: Reg8, op: Operator)
    ensures
        ({
            let t = action_state(Action::OperatorAR(r, op), s, m, v);
            let a = s.reg.a;
            let b = reg8_ext_spec(s, m, r);
            &&& op == Operator::Or ==> t.reg.a == a | b
            &&& op == Operator::And ==> t.reg.a == a & b
            &&& op == Operator::Xor ==> t.reg.a == a ^ b
            &&& op == Operator::Add ==> t.reg.a == (a + b) % 256
            &&& op == Operator::Sub ==> (t.reg.a + b) % 256 == a
            &&& op == Operator::Cp ==> t.reg.a == a && (t.reg.f & 0x40 != 0) == (a == b)
            &&& op != Operator::Cp ==> (t.reg.f & 0x40 != 0) == (t.reg.a == 0)
        }),
{
    reveal(action_state);
    reveal(operator_a_r_effect);
    crate::operators::lemma_alu_results(op, s.reg.f, s.reg.a, reg8_ext_spec(s, m, r));
}

/// ALU A, n with the byte `n` after the opcode, as for ALU A, r.
pub proof fn lemma_step_alu_a_n<M: Machine>(s: State, m: M, v: u8, op: Operator)
    ensures
        ({
            let t = action_state(Action::OperatorAN(op), s, m, v);
            let a = s.reg.a;
            let b = code_byte(s, m, 0);
            &&& op == Operator::Or ==> t.reg.a == a | b
            &&& op == Operator::And ==> t.reg.a == a & b
            &&& op == Operator::Xor ==> t.reg.a == a ^ b
            &&& op == Operator::Add ==> t.reg.a == (a + b) % 256
            &&& op == Operator::Sub ==> (t.reg.a + b) % 256 == a
            &&& op == Operator::Cp ==> t.reg.a == a && (t.reg.f & 0x40 != 0) == (a == b)
            &&& op != Operator::Cp ==> (t.reg.f & 0x40 != 0) == (t.reg.a == 0)
        }),
{
    reveal(action_state);
    reveal(operator_a_n_effect);
    crate::operators::lemma_alu_results(op, s.reg.f, s.reg.a, code_byte(s, m, 0));
}

/// TST A, r sets Z exactly when A AND the operand is zero and keeps A.
pub proof fn lemma_step_tst<M: Machine>(s: State, m: M, v: u8, r: Reg8)
    ensures
        action_state(Action::TstAR(r), s, m, v).reg.a == s.reg.a,
        (action_state(Action::TstAR(r), s, m, v).reg.f & 0x40 != 0) == (s.reg.a & reg8_ext_spec(s, m, r) == 0),
{
    reveal(action_state);
    reveal(tst_a_r_effect);
    crate::operators::lemma_alu_results(Operator::And, s.reg.f, s.reg.a, reg8_ext_spec(s, m, r));
}

/// CPI, CPD, CPIR, CPDR: Z tells whether the byte at (HL) equals A; a
/// repeating search stops at a match (PC stays after the instruction) and
/// otherwise goes back to run again while BC is not zero.
pub proof fn lemma_step_cp_block<M: Machine>(s: State, m: M, v: u8, inc: bool, repeat: bool)
    ensures
        ({
            let t = action_state(Action::CpBlock(inc, repeat), s, m, v);
            let byte = m.peek_spec(index_address_spec(s));
            let bc: int = if s.is_op_long_spec() {
                t.reg.get24_spec(Reg16::BC) as int
            } else {
                t.reg.get16_spec(Reg16::BC) as int
            };
            &&& t.reg.a == s.reg.a
            &&& (t.reg.f & 0x40 != 0) == (s.reg.a == byte)
            &&& s.reg.a == byte ==> t.reg.pc == s.reg.pc
            &&& (repeat && s.reg.a != byte && bc != 0) ==> t.reg.pc == wrap_spec(s, s.pc_spec(), -2) % 0x1000000
            &&& bc == 0 ==> t.reg.pc == s.reg.pc
        }),
{
    reveal(action_state);
    reveal(cp_block_effect);
    crate::opcode_alu::lemma_cp_block(s, m, inc, repeat);
}

/// LDI, LDD, LDIR, LDDR: the repeating forms run again exactly while BC is
/// not zero, and P/V tells whether it is.
pub proof fn lemma_step_ld_block<M: Machine>(s: State, m: M, v: u8, inc: bool, repeat: bool)
    ensures
        ({
            let t = action_state(Action::LdBlock(inc, repeat), s, m, v);
            let bc: int = if s.is_op_long_spec() {
                t.reg.get24_spec(Reg16::BC) as int
            } else {
                t.reg.get16_spec(Reg16::BC) as int
            };
            &&& t.reg.a == s.reg.a
            &&& (t.reg.f & 4 != 0) == (bc != 0)
            &&& (repeat && bc != 0) ==> t.reg.pc == wrap_spec(s, s.pc_spec(), -2) % 0x1000000
            &&& !(repeat && bc != 0) ==> t.reg.pc == s.reg.pc
        }),
{
    reveal(action_state);
    reveal(ld_block_effect);
    crate::opcode_ld::lemma_ld_block(s, m, inc, repeat);
}

/// DJNZ counts B down and jumps by its offset exactly while the new B is
/// not zero; at zero it goes on to the next instruction.
pub proof fn lemma_step_djnz<M: Machine>(s: State, m: M, v: u8)
    ensures
        ({
            let t = action_state(Action::Djnz, s, m, v);
            let s1 = advance_pc_spec(s);
            &&& t.reg.b == (s.reg.b + 255) % 256
            &&& t.reg.b != 0 ==> t.reg.pc == wrap_spec(s1, s1.pc_spec(), code_byte(s, m, 0) as i8 as int) % 0x1000000
            &&& t.reg.b == 0 ==> t.reg.pc == s1.reg.pc
        }),
{
    reveal(action_state);
    reveal(djnz_effect);
    crate::opcode_jumps::lemma_djnz_loops(s, m);
}

/// JR cc, JP cc, CALL cc and RET cc are taken exactly when the flag has the
/// value of the condition; not taken, JR cc goes on to the next
/// instruction and RET cc changes nothing.
pub proof fn lemma_step_conditionals<M: Machine>(s: State, m: M, v: u8, flag: Flag, value: bool)
    ensures
        ({
            let taken = s.reg.get_flag_spec(flag) == value;
            let s1 = advance_pc_spec(s);
            &&& taken ==> action_state(Action::JrEq(flag, value), s, m, v).reg.pc == wrap_spec(
                s1,
                s1.pc_spec(),
                code_byte(s, m, 0) as i8 as int,
            ) % 0x1000000
            &&& !taken ==> action_state(Action::JrEq(flag, value), s, m, v).reg.pc == s1.reg.pc
            &&& taken ==> action_state(Action::JpEq(flag, value), s, m, v).reg.pc
                == crate::environment::imm_address_spec(s, m) % 0x1000000
            &&& taken ==> action_state(Action::CallEq(flag, value), s, m, v).reg.pc
                == crate::environment::imm_address_spec(s, m) % 0x1000000
            &&& !taken ==> action_state(Action::RetEq(flag, value), s, m, v) == s
            &&& taken ==> action_state(Action::RetEq(flag, value), s, m, v) == crate::environment::ret_state(s, m)
        }),
{
    reveal(action_state);
    reveal(jr_eq_effect);
    reveal(jp_eq_effect);
    reveal(call_eq_effect);
    reveal(ret_eq_effect);
    crate::opcode_jumps::lemma_conditionals(s, m, flag, value, 0);
}

/// Shifts and rotations of a register: SRA halves the value and keeps its
/// bit 7, SRL halves it, SLA doubles it (mod 256); C takes the bit that
/// went out (bit 0 to the right, bit 7 to the left).
pub proof fn lemma_step_shift<M: Machine>(s: State, m: M, v: u8, r: Reg8, dir: ShiftDir, mode: ShiftMode, fast: bool)
    requires
        r != Reg8::_HL,
        r != Reg8::F,
    ensures
        ({
            let t = action_state(Action::RotR(r, dir, mode, fast, false), s, m, v);
            let x = reg8_ext_spec(s, m, r);
            let y = reg8_ext_spec(t, m, r);
            &&& (dir == ShiftDir::Right && mode == ShiftMode::Arithmetic) ==> y == x / 2 + (x & 0x80u8)
            &&& (dir == ShiftDir::Right && mode == ShiftMode::Logical) ==> y == x / 2
            &&& (dir == ShiftDir::Left && mode == ShiftMode::Arithmetic) ==> y == 2 * x % 256
            &&& dir == ShiftDir::Right ==> (t.reg.f & 1 != 0) == (x % 2 == 1)
            &&& dir == ShiftDir::Left ==> (t.reg.f & 1 != 0) == (x >= 128)
        }),
{
    reveal(action_state);
    reveal(rot_r_effect);
    let x = reg8_ext_spec(s, m, r);
    crate::opcode_bits::lemma_rot_register(s, m, r, dir, mode, fast);
    crate::opcode_bits::lemma_shift_bits(x, s.reg.f & 1 != 0);
    assert(x / 2 + (x & 0x80u8) < 256) by (bit_vector);
}

/// SET n and RES n set or clear bit n of a register and keep its other
/// bits; BIT n sets Z exactly when bit n of the operand is clear.
pub proof fn lemma_step_bits<M: Machine>(s: State, m: M, v: u8, n: u8, k: u8, r: Reg8)
    requires
        n < 8,
        k < 8,
        r != Reg8::_HL,
        r != Reg8::F,
    ensures
        ({
            let x = reg8_ext_spec(s, m, r);
            let ts = action_state(Action::SetResR(n, r, true), s, m, v);
            let tr = action_state(Action::SetResR(n, r, false), s, m, v);
            let tb = action_state(Action::BitR(n, r), s, m, v);
            &&& (reg8_ext_spec(ts, m, r) >> k) & 1u8 == (if k == n { 1u8 } else { (x >> k) & 1u8 })
            &&& (reg8_ext_spec(tr, m, r) >> k) & 1u8 == (if k == n { 0u8 } else { (x >> k) & 1u8 })
            &&& (tb.reg.f & 0x40 != 0) == ((x >> n) & 1u8 == 0u8)
        }),
{
    reveal(action_state);
    reveal(set_res_r_effect);
    reveal(bit_r_effect);
    let x = reg8_ext_spec(s, m, r);
    crate::opcode_bits::lemma_set_res_bit(s.reg.f, x, n, k);
    let xr = crate::environment::translate_spec(s.index, r);
    assert(xr != Reg8::F && xr != Reg8::_HL);
    crate::registers::lemma_set8_get8(s.reg, xr, Reg8::F, crate::opcode_bits::set_res_spec(x, n, true));
    crate::registers::lemma_set8_get8(s.reg, xr, Reg8::F, crate::opcode_bits::set_res_spec(x, n, false));
}

/// MLT BC, DE and HL leave in the pair the product of its two bytes.
pub proof fn lemma_step_mlt<M: Machine>(s: State, m: M, v: u8)
    ensures
        action_state(Action::MltRR(Reg16::BC), s, m, v).reg.get16_spec(Reg16::BC) == s.reg.b * s.reg.c,
        action_state(Action::MltRR(Reg16::DE), s, m, v).reg.get16_spec(Reg16::DE) == s.reg.d * s.reg.e,
        action_state(Action::MltRR(Reg16::HL), s, m, v).reg.get16_spec(Reg16::HL) == s.reg.h * s.reg.l,
{
    reveal(action_state);
    reveal(mlt_rr_effect);
    crate::opcode_alu::lemma_mlt_product(s, Reg16::BC);
    crate::opcode_alu::lemma_mlt_product(s, Reg16::DE);
    crate::opcode_alu::lemma_mlt_product(s, Reg16::HL);
}

/// INC and DEC of a register add or take one (mod 256) and keep C; NEG
/// gives the value that added to A makes zero; CPL complements A; SCF sets
/// C and CCF complements it.
pub proof fn lemma_step_arith<M: Machine>(s: State, m: M, v: u8, r: Reg8)
    requires
        r != Reg8::_HL,
        r != Reg8::F,
    ensures
        ({
            let x = reg8_ext_spec(s, m, r);
            let ti = action_state(Action::IncR(r), s, m, v);
            let td = action_state(Action::DecR(r), s, m, v);
            &&& reg8_ext_spec(ti, m, r) == (x + 1) % 256
            &&& (reg8_ext_spec(td, m, r) + 1) % 256 == x
            &&& (ti.reg.f & 1 != 0) == (s.reg.f & 1 != 0)
            &&& (td.reg.f & 1 != 0) == (s.reg.f & 1 != 0)
            &&& (action_state(Action::Neg, s, m, v).reg.a + s.reg.a) % 256 == 0
            &&& action_state(Action::Cpl, s, m, v).reg.a + s.reg.a == 255
            &&& action_state(Action::Scf, s, m, v).reg.f & 1 != 0
            &&& (action_state(Action::Ccf, s, m, v).reg.f & 1 != 0) == (s.reg.f & 1 == 0)
        }),
{
    reveal(action_state);
    reveal(inc_r_effect);
    reveal(dec_r_effect);
    reveal(neg_effect);
    reveal(cpl_effect);
    reveal(scf_effect);
    reveal(ccf_effect);
    crate::opcode_arith::lemma_inc_dec_r(s, m, r, true);
    crate::opcode_arith::lemma_inc_dec_r(s, m, r, false);
    crate::opcode_arith::lemma_a_and_flags(s);
}

/// The block I/O instructions count B down and run again exactly while it
/// is not zero; OTIRX and OTDRX count BC down and run again exactly while
/// it is not zero.
pub proof fn lemma_step_io_blocks<M: Machine>(s: State, m: M, v: u8, inc: bool, repeat: bool)
    ensures
        ({
            let ti = action_state(Action::InBlock(inc, repeat), s, m, v);
            let to = action_state(Action::OutBlock(inc, repeat), s, m, v);
            let tx = action_state(Action::OtirxOrOtdrx(inc), s, m, v);
            let b = (s.reg.b + 255) % 256;
            let bc = crate::opcode_alu::counter_bc(s.reg, s.is_op_long_spec());
            &&& ti.reg.b == b && to.reg.b == b
            &&& (repeat && b != 0) ==> ti.reg.pc == wrap_spec(s, s.pc_spec(), -2) % 0x1000000
                && to.reg.pc == wrap_spec(s, s.pc_spec(), -2) % 0x1000000
            &&& !(repeat && b != 0) ==> ti.reg.pc == s.reg.pc && to.reg.pc == s.reg.pc
            &&& bc == 0 ==> tx.reg.pc == s.reg.pc
            &&& bc != 0 ==> tx.reg.pc == wrap_spec(
                s,
                s.pc_spec(),
                if s.sz_prefix == crate::state::SizePrefix::NoPrefix { -2 } else { -3 },
            ) % 0x1000000
            &&& (tx.reg.f & 0x40 != 0) == (bc == 0)
        }),
{
    reveal(action_state);
    reveal(in_block_effect);
    reveal(out_block_effect);
    reveal(otirx_or_otdrx_effect);
    crate::opcode_io::lemma_io_block(s, m, inc, repeat, v);
    crate::opcode_io::lemma_otirx(s, m, inc);
}

} // verus!
