use vstd::prelude::*;

use crate::environment::Environment;
use crate::machine::{Machine, PortAccess, io_written, lemma_memory_io_written};
use crate::opcode::{Action, ShiftDir, ShiftMode};
use crate::operators::Operator;
use crate::registers::{Flag, Reg16, Reg8, Registers};
use crate::state::State;

verus! {

/*
    What each instruction does, as one function of the state, the memory and
    the byte that an IN instruction reads from its port.
*/

/// The state after the action `a` on state `s` and memory `m`, where `v` is
/// the byte read from a port by the IN instructions (ignored by the others).
#[verifier::opaque]
pub open spec fn action_state<M: Machine>(a: Action, s: State, m: M, v: u8) -> State {
    match a {
        Action::Nop => nop_effect(s, m, v),
        Action::NoniNop => noni_nop_effect(s, m, v),
        Action::Unimplemented => unimplemented_effect(s, m, v),
        Action::Halt => halt_effect(s, m, v),
        Action::PopRR(rr) => pop_rr_effect(s, m, v, rr),
        Action::PushRR(rr) => push_rr_effect(s, m, v, rr),
        Action::ConfInterrupts(enable) => conf_interrupts_effect(s, m, v, enable),
        Action::Im(im) => im_effect(s, m, v, im),
        Action::Stmix => stmix_effect(s, m, v),
        Action::Rsmix => rsmix_effect(s, m, v),
        Action::LeaRRIndOffset(dest, src) => lea_rr_ind_offset_effect(s, m, v, dest, src),
        Action::Pea(src) => pea_effect(s, m, v, src),
        Action::TstAR(reg) => tst_a_r_effect(s, m, v, reg),
        Action::TstAN => tst_a_n_effect(s, m, v),
        Action::OperatorAIdxOffset(idx, op) => operator_a_idx_offset_effect(s, m, v, idx, op),
        Action::OperatorAR(r, op) => operator_a_r_effect(s, m, v, r, op),
        Action::OperatorAN(op) => operator_a_n_effect(s, m, v, op),
        Action::CpBlock(inc, repeat) => cp_block_effect(s, m, v, inc, repeat),
        Action::MltRR(reg) => mlt_rr_effect(s, m, v, reg),
        Action::OutCR(r) => out_c_r_effect(s, m, v, r),
        Action::OutC0 => out_c_0_effect(s, m, v),
        Action::OutNA => out_n_a_effect(s, m, v),
        Action::Out0NR(r) => out0_n_r_effect(s, m, v, r),
        Action::In0RN(r) => in0_r_n_effect(s, m, v, r),
        Action::InRC(r) => in_r_c_effect(s, m, v, r),
        Action::In0C => in_0_c_effect(s, m, v),
        Action::InAN => in_a_n_effect(s, m, v),
        Action::InBlock(inc, repeat) => in_block_effect(s, m, v, inc, repeat),
        Action::OutBlock(inc, repeat) => out_block_effect(s, m, v, inc, repeat),
        Action::OtirxOrOtdrx(inc) => otirx_or_otdrx_effect(s, m, v, inc),
        Action::Djnz => djnz_effect(s, m, v),
        Action::JrUnconditional => jr_unconditional_effect(s, m, v),
        Action::JrEq(flag, value) => jr_eq_effect(s, m, v, flag, value),
        Action::JpUnconditional => jp_unconditional_effect(s, m, v),
        Action::JpEq(flag, value) => jp_eq_effect(s, m, v, flag, value),
        Action::JpHl => jp_hl_effect(s, m, v),
        Action::Call => call_effect(s, m, v),
        Action::CallEq(flag, value) => call_eq_effect(s, m, v, flag, value),
        Action::Rst(d) => rst_effect(s, m, v, d),
        Action::Ret => ret_effect(s, m, v),
        Action::Reti => reti_effect(s, m, v),
        Action::Retn => retn_effect(s, m, v),
        Action::RetEq(flag, value) => ret_eq_effect(s, m, v, flag, value),
        Action::LdRR(dst, src, flags) => ld_r_r_effect(s, m, v, dst, src, flags),
        Action::LdRN(r) => ld_r_n_effect(s, m, v, r),
        Action::LdAPrr(rr) => ld_a_prr_effect(s, m, v, rr),
        Action::LdAPnn => ld_a_pnn_effect(s, m, v),
        Action::LdPrrA(rr) => ld_prr_a_effect(s, m, v, rr),
        Action::LdPnnA => ld_pnn_a_effect(s, m, v),
        Action::LdRRNn(rr) => ld_rr_nn_effect(s, m, v, rr),
        Action::LdSpHl => ld_sp_hl_effect(s, m, v),
        Action::LdPnnRR(rr) => ld_pnn_rr_effect(s, m, v, rr),
        Action::LdRRPnn(rr) => ld_rr_pnn_effect(s, m, v, rr),
        Action::ExAf => ex_af_effect(s, m, v),
        Action::Exx => exx_effect(s, m, v),
        Action::ExDeHl => ex_de_hl_effect(s, m, v),
        Action::ExPspHl => ex_psp_hl_effect(s, m, v),
        Action::LdBlock(inc, repeat) => ld_block_effect(s, m, v, inc, repeat),
        Action::LdAMb => ld_a_mb_effect(s, m, v),
        Action::LdMbA => ld_mb_a_effect(s, m, v),
        Action::LdIdxDispRR(index_reg, src) => ld_idx_disp_rr_effect(s, m, v, index_reg, src),
        Action::LdRRIdxDisp(dest, index_reg) => ld_rr_idx_disp_effect(s, m, v, dest, index_reg),
        Action::LdRRIndHl(dest) => ld_rr_ind_hl_effect(s, m, v, dest),
        Action::LdIndHlRR(src) => ld_ind_hl_rr_effect(s, m, v, src),
        Action::IncR(r) => inc_r_effect(s, m, v, r),
        Action::DecR(r) => dec_r_effect(s, m, v, r),
        Action::IncDecRR(rr, inc) => inc_dec_rr_effect(s, m, v, rr, inc),
        Action::AddHlRR(rr) => add_hl_rr_effect(s, m, v, rr),
        Action::AdcHlRR(rr) => adc_hl_rr_effect(s, m, v, rr),
        Action::SbcHlRR(rr) => sbc_hl_rr_effect(s, m, v, rr),
        Action::Daa => daa_effect(s, m, v),
        Action::Cpl => cpl_effect(s, m, v),
        Action::Scf => scf_effect(s, m, v),
        Action::Ccf => ccf_effect(s, m, v),
        Action::Neg => neg_effect(s, m, v),
        Action::RotR(r, dir, mode, fast, indexed) => rot_r_effect(s, m, v, r, dir, mode, fast, indexed),
        Action::BitR(n, r) => bit_r_effect(s, m, v, n, r),
        Action::SetResR(n, r, value) => set_res_r_effect(s, m, v, n, r, value),
        Action::IndexedSetResR(n, r, value) => indexed_set_res_r_effect(s, m, v, n, r, value),
        Action::Rxd(dir) => rxd_effect(s, m, v, dir),
    }
}

/// The memory writes of the action `a`, in order.
#[verifier::opaque]
pub open spec fn action_writes<M: Machine>(a: Action, s: State, m: M, v: u8) -> Seq<(u32, u8)> {
    match a {
        Action::Nop => nop_effect_writes(s, m, v),
        Action::NoniNop => noni_nop_effect_writes(s, m, v),
        Action::Unimplemented => unimplemented_effect_writes(s, m, v),
        Action::Halt => halt_effect_writes(s, m, v),
        Action::PopRR(rr) => pop_rr_effect_writes(s, m, v, rr),
        Action::PushRR(rr) => push_rr_effect_writes(s, m, v, rr),
        Action::ConfInterrupts(enable) => conf_interrupts_effect_writes(s, m, v, enable),
        Action::Im(im) => im_effect_writes(s, m, v, im),
        Action::Stmix => stmix_effect_writes(s, m, v),
        Action::Rsmix => rsmix_effect_writes(s, m, v),
        Action::LeaRRIndOffset(dest, src) => lea_rr_ind_offset_effect_writes(s, m, v, dest, src),
        Action::Pea(src) => pea_effect_writes(s, m, v, src),
        Action::TstAR(reg) => tst_a_r_effect_writes(s, m, v, reg),
        Action::TstAN => tst_a_n_effect_writes(s, m, v),
        Action::OperatorAIdxOffset(idx, op) => operator_a_idx_offset_effect_writes(s, m, v, idx, op),
        Action::OperatorAR(r, op) => operator_a_r_effect_writes(s, m, v, r, op),
        Action::OperatorAN(op) => operator_a_n_effect_writes(s, m, v, op),
        Action::CpBlock(inc, repeat) => cp_block_effect_writes(s, m, v, inc, repeat),
        Action::MltRR(reg) => mlt_rr_effect_writes(s, m, v, reg),
        Action::OutCR(r) => out_c_r_effect_writes(s, m, v, r),
        Action::OutC0 => out_c_0_effect_writes(s, m, v),
        Action::OutNA => out_n_a_effect_writes(s, m, v),
        Action::Out0NR(r) => out0_n_r_effect_writes(s, m, v, r),
        Action::In0RN(r) => in0_r_n_effect_writes(s, m, v, r),
        Action::InRC(r) => in_r_c_effect_writes(s, m, v, r),
        Action::In0C => in_0_c_effect_writes(s, m, v),
        Action::InAN => in_a_n_effect_writes(s, m, v),
        Action::InBlock(inc, repeat) => in_block_effect_writes(s, m, v, inc, repeat),
        Action::OutBlock(inc, repeat) => out_block_effect_writes(s, m, v, inc, repeat),
        Action::OtirxOrOtdrx(inc) => otirx_or_otdrx_effect_writes(s, m, v, inc),
        Action::Djnz => djnz_effect_writes(s, m, v),
        Action::JrUnconditional => jr_unconditional_effect_writes(s, m, v),
        Action::JrEq(flag, value) => jr_eq_effect_writes(s, m, v, flag, value),
        Action::JpUnconditional => jp_unconditional_effect_writes(s, m, v),
        Action::JpEq(flag, value) => jp_eq_effect_writes(s, m, v, flag, value),
        Action::JpHl => jp_hl_effect_writes(s, m, v),
        Action::Call => call_effect_writes(s, m, v),
        Action::CallEq(flag, value) => call_eq_effect_writes(s, m, v, flag, value),
        Action::Rst(d) => rst_effect_writes(s, m, v, d),
        Action::Ret => ret_effect_writes(s, m, v),
        Action::Reti => reti_effect_writes(s, m, v),
        Action::Retn => retn_effect_writes(s, m, v),
        Action::RetEq(flag, value) => ret_eq_effect_writes(s, m, v, flag, value),
        Action::LdRR(dst, src, flags) => ld_r_r_effect_writes(s, m, v, dst, src, flags),
        Action::LdRN(r) => ld_r_n_effect_writes(s, m, v, r),
        Action::LdAPrr(rr) => ld_a_prr_effect_writes(s, m, v, rr),
        Action::LdAPnn => ld_a_pnn_effect_writes(s, m, v),
        Action::LdPrrA(rr) => ld_prr_a_effect_writes(s, m, v, rr),
        Action::LdPnnA => ld_pnn_a_effect_writes(s, m, v),
        Action::LdRRNn(rr) => ld_rr_nn_effect_writes(s, m, v, rr),
        Action::LdSpHl => ld_sp_hl_effect_writes(s, m, v),
        Action::LdPnnRR(rr) => ld_pnn_rr_effect_writes(s, m, v, rr),
        Action::LdRRPnn(rr) => ld_rr_pnn_effect_writes(s, m, v, rr),
        Action::ExAf => ex_af_effect_writes(s, m, v),
        Action::Exx => exx_effect_writes(s, m, v),
        Action::ExDeHl => ex_de_hl_effect_writes(s, m, v),
        Action::ExPspHl => ex_psp_hl_effect_writes(s, m, v),
        Action::LdBlock(inc, repeat) => ld_block_effect_writes(s, m, v, inc, repeat),
        Action::LdAMb => ld_a_mb_effect_writes(s, m, v),
        Action::LdMbA => ld_mb_a_effect_writes(s, m, v),
        Action::LdIdxDispRR(index_reg, src) => ld_idx_disp_rr_effect_writes(s, m, v, index_reg, src),
        Action::LdRRIdxDisp(dest, index_reg) => ld_rr_idx_disp_effect_writes(s, m, v, dest, index_reg),
        Action::LdRRIndHl(dest) => ld_rr_ind_hl_effect_writes(s, m, v, dest),
        Action::LdIndHlRR(src) => ld_ind_hl_rr_effect_writes(s, m, v, src),
        Action::IncR(r) => inc_r_effect_writes(s, m, v, r),
        Action::DecR(r) => dec_r_effect_writes(s, m, v, r),
        Action::IncDecRR(rr, inc) => inc_dec_rr_effect_writes(s, m, v, rr, inc),
        Action::AddHlRR(rr) => add_hl_rr_effect_writes(s, m, v, rr),
        Action::AdcHlRR(rr) => adc_hl_rr_effect_writes(s, m, v, rr),
        Action::SbcHlRR(rr) => sbc_hl_rr_effect_writes(s, m, v, rr),
        Action::Daa => daa_effect_writes(s, m, v),
        Action::Cpl => cpl_effect_writes(s, m, v),
        Action::Scf => scf_effect_writes(s, m, v),
        Action::Ccf => ccf_effect_writes(s, m, v),
        Action::Neg => neg_effect_writes(s, m, v),
        Action::RotR(r, dir, mode, fast, indexed) => rot_r_effect_writes(s, m, v, r, dir, mode, fast, indexed),
        Action::BitR(n, r) => bit_r_effect_writes(s, m, v, n, r),
        Action::SetResR(n, r, value) => set_res_r_effect_writes(s, m, v, n, r, value),
        Action::IndexedSetResR(n, r, value) => indexed_set_res_r_effect_writes(s, m, v, n, r, value),
        Action::Rxd(dir) => rxd_effect_writes(s, m, v, dir),
    }
}

/// The port accesses of the action `a`, in order.
#[verifier::opaque]
pub open spec fn action_ports<M: Machine>(a: Action, s: State, m: M, v: u8) -> Seq<PortAccess> {
    match a {
        Action::OutCR(r) => out_c_r_effect_ports(s, m, v, r),
        Action::OutC0 => out_c_0_effect_ports(s, m, v),
        Action::OutNA => out_n_a_effect_ports(s, m, v),
        Action::Out0NR(r) => out0_n_r_effect_ports(s, m, v, r),
        Action::In0RN(r) => in0_r_n_effect_ports(s, m, v, r),
        Action::InRC(r) => in_r_c_effect_ports(s, m, v, r),
        Action::In0C => in_0_c_effect_ports(s, m, v),
        Action::InAN => in_a_n_effect_ports(s, m, v),
        Action::InBlock(inc, repeat) => in_block_effect_ports(s, m, v, inc, repeat),
        Action::OutBlock(inc, repeat) => out_block_effect_ports(s, m, v, inc, repeat),
        Action::OtirxOrOtdrx(inc) => otirx_or_otdrx_effect_ports(s, m, v, inc),
        _ => Seq::empty(),
    }
}

/// The action `a` took state `s0` and memory `m0` to `s1` and `m1`, with `v`
/// read from a port.
#[verifier::opaque]
pub open spec fn executed<M: Machine>(a: Action, s0: State, m0: M, s1: State, m1: M, v: u8) -> bool {
    &&& s1 == action_state(a, s0, m0, v)
    &&& io_written(m0, m1, action_writes(a, s0, m0, v), action_ports(a, s0, m0, v))
}

#[verifier::opaque]
pub open spec fn nop_effect<M: Machine>(s: State, m: M, v: u8) -> State {
    (s)
}

#[verifier::opaque]
pub open spec fn nop_effect_writes<M: Machine>(s: State, m: M, v: u8) -> Seq<(u32, u8)> {
    seq![]
}

#[verifier::opaque]
pub open spec fn noni_nop_effect<M: Machine>(s: State, m: M, v: u8) -> State {
    (s)
}

#[verifier::opaque]
pub open spec fn noni_nop_effect_writes<M: Machine>(s: State, m: M, v: u8) -> Seq<(u32, u8)> {
    seq![]
}

#[verifier::opaque]
pub open spec fn unimplemented_effect<M: Machine>(s: State, m: M, v: u8) -> State {
    (s)
}

#[verifier::opaque]
pub open spec fn unimplemented_effect_writes<M: Machine>(s: State, m: M, v: u8) -> Seq<(u32, u8)> {
    seq![]
}

#[verifier::opaque]
pub open spec fn halt_effect<M: Machine>(s: State, m: M, v: u8) -> State {
    (State { halted: true, ..s })
}

#[verifier::opaque]
pub open spec fn halt_effect_writes<M: Machine>(s: State, m: M, v: u8) -> Seq<(u32, u8)> {
    seq![]
}

#[verifier::opaque]
pub open spec fn pop_rr_effect<M: Machine>(s: State, m: M, v: u8, rr: Reg16) -> State {
    (crate::opcode::pop_rr_state(s, m, rr))
}

#[verifier::opaque]
pub open spec fn pop_rr_effect_writes<M: Machine>(s: State, m: M, v: u8, rr: Reg16) -> Seq<(u32, u8)> {
    seq![]
}

#[verifier::opaque]
pub open spec fn push_rr_effect<M: Machine>(s: State, m: M, v: u8, rr: Reg16) -> State {
    (crate::environment::push_state(s))
}

#[verifier::opaque]
pub open spec fn push_rr_effect_writes<M: Machine>(s: State, m: M, v: u8, rr: Reg16) -> Seq<(u32, u8)> {
    crate::environment::push_writes(s, crate::environment::reg16or24_ext_spec(s, rr))
}

#[verifier::opaque]
pub open spec fn conf_interrupts_effect<M: Machine>(s: State, m: M, v: u8, enable: bool) -> State {
    (crate::environment::with_reg(s, Registers { iff1: enable, iff2: enable, ..s.reg }))
}

#[verifier::opaque]
pub open spec fn conf_interrupts_effect_writes<M: Machine>(s: State, m: M, v: u8, enable: bool) -> Seq<(u32, u8)> {
    seq![]
}

#[verifier::opaque]
pub open spec fn im_effect<M: Machine>(s: State, m: M, v: u8, im: u8) -> State {
    (crate::environment::with_reg(s, Registers { im: im, ..s.reg }))
}

#[verifier::opaque]
pub open spec fn im_effect_writes<M: Machine>(s: State, m: M, v: u8, im: u8) -> Seq<(u32, u8)> {
    seq![]
}

#[verifier::opaque]
pub open spec fn stmix_effect<M: Machine>(s: State, m: M, v: u8) -> State {
    (crate::environment::with_reg(s, Registers { madl: true, ..s.reg }))
}

#[verifier::opaque]
pub open spec fn stmix_effect_writes<M: Machine>(s: State, m: M, v: u8) -> Seq<(u32, u8)> {
    seq![]
}

#[verifier::opaque]
pub open spec fn rsmix_effect<M: Machine>(s: State, m: M, v: u8) -> State {
    (crate::environment::with_reg(s, Registers { madl: false, ..s.reg }))
}

#[verifier::opaque]
pub open spec fn rsmix_effect_writes<M: Machine>(s: State, m: M, v: u8) -> Seq<(u32, u8)> {
    seq![]
}

#[verifier::opaque]
pub open spec fn lea_rr_ind_offset_effect<M: Machine>(s: State, m: M, v: u8, dest: Reg16, src: Reg16) -> State {
    (crate::opcode_alu::lea_state(s, m, dest, src))
}

#[verifier::opaque]
pub open spec fn lea_rr_ind_offset_effect_writes<M: Machine>(s: State, m: M, v: u8, dest: Reg16, src: Reg16) -> Seq<(u32, u8)> {
    seq![]
}

#[verifier::opaque]
pub open spec fn pea_effect<M: Machine>(s: State, m: M, v: u8, src: Reg16) -> State {
    (crate::environment::push_state(crate::environment::advance_pc_spec(s)))
}

#[verifier::opaque]
pub open spec fn pea_effect_writes<M: Machine>(s: State, m: M, v: u8, src: Reg16) -> Seq<(u32, u8)> {
    crate::environment::push_writes(crate::environment::advance_pc_spec(s), crate::opcode_alu::reg_plus_disp(s, src, crate::environment::disp_spec(s, m) as int))
}

#[verifier::opaque]
pub open spec fn tst_a_r_effect<M: Machine>(s: State, m: M, v: u8, reg: Reg8) -> State {
    (crate::opcode_alu::alu_flags_state(s, Operator::And, s.reg.a, crate::environment::reg8_ext_spec(s, m, reg)))
}

#[verifier::opaque]
pub open spec fn tst_a_r_effect_writes<M: Machine>(s: State, m: M, v: u8, reg: Reg8) -> Seq<(u32, u8)> {
    seq![]
}

#[verifier::opaque]
pub open spec fn tst_a_n_effect<M: Machine>(s: State, m: M, v: u8) -> State {
    (crate::opcode_alu::alu_flags_state(crate::environment::advance_pc_spec(s), Operator::And, s.reg.a, crate::environment::code_byte(s, m, 0)))
}

#[verifier::opaque]
pub open spec fn tst_a_n_effect_writes<M: Machine>(s: State, m: M, v: u8) -> Seq<(u32, u8)> {
    seq![]
}

#[verifier::opaque]
pub open spec fn operator_a_idx_offset_effect<M: Machine>(s: State, m: M, v: u8, idx: Reg16, op: Operator) -> State {
    (crate::opcode_alu::operator_a_idx_offset_state(s, m, idx, op))
}

#[verifier::opaque]
pub open spec fn operator_a_idx_offset_effect_writes<M: Machine>(s: State, m: M, v: u8, idx: Reg16, op: Operator) -> Seq<(u32, u8)> {
    seq![]
}

#[verifier::opaque]
pub open spec fn operator_a_r_effect<M: Machine>(s: State, m: M, v: u8, r: Reg8, op: Operator) -> State {
    (crate::opcode_alu::alu_a_state(s, op, crate::environment::reg8_ext_spec(s, m, r)))
}

#[verifier::opaque]
pub open spec fn operator_a_r_effect_writes<M: Machine>(s: State, m: M, v: u8, r: Reg8, op: Operator) -> Seq<(u32, u8)> {
    seq![]
}

#[verifier::opaque]
pub open spec fn operator_a_n_effect<M: Machine>(s: State, m: M, v: u8, op: Operator) -> State {
    (crate::opcode_alu::alu_a_state(crate::environment::advance_pc_spec(s), op, crate::environment::code_byte(s, m, 0)))
}

#[verifier::opaque]
pub open spec fn operator_a_n_effect_writes<M: Machine>(s: State, m: M, v: u8, op: Operator) -> Seq<(u32, u8)> {
    seq![]
}

#[verifier::opaque]
pub open spec fn cp_block_effect<M: Machine>(s: State, m: M, v: u8, inc: bool, repeat: bool) -> State {
    (crate::opcode_alu::cp_block_state(s, m, inc, repeat))
}

#[verifier::opaque]
pub open spec fn cp_block_effect_writes<M: Machine>(s: State, m: M, v: u8, inc: bool, repeat: bool) -> Seq<(u32, u8)> {
    seq![]
}

#[verifier::opaque]
pub open spec fn mlt_rr_effect<M: Machine>(s: State, m: M, v: u8, reg: Reg16) -> State {
    (crate::opcode_alu::mlt_state(s, reg))
}

#[verifier::opaque]
pub open spec fn mlt_rr_effect_writes<M: Machine>(s: State, m: M, v: u8, reg: Reg16) -> Seq<(u32, u8)> {
    seq![]
}

#[verifier::opaque]
pub open spec fn out_c_r_effect<M: Machine>(s: State, m: M, v: u8, r: Reg8) -> State {
    (s)
}

#[verifier::opaque]
pub open spec fn out_c_r_effect_writes<M: Machine>(s: State, m: M, v: u8, r: Reg8) -> Seq<(u32, u8)> {
    seq![]
}

#[verifier::opaque]
pub open spec fn out_c_r_effect_ports<M: Machine>(s: State, m: M, v: u8, r: Reg8) -> Seq<PortAccess> {
    crate::opcode_io::out_c_r_ports(s, r)
}

#[verifier::opaque]
pub open spec fn out_c_0_effect<M: Machine>(s: State, m: M, v: u8) -> State {
    (s)
}

#[verifier::opaque]
pub open spec fn out_c_0_effect_writes<M: Machine>(s: State, m: M, v: u8) -> Seq<(u32, u8)> {
    seq![]
}

#[verifier::opaque]
pub open spec fn out_c_0_effect_ports<M: Machine>(s: State, m: M, v: u8) -> Seq<PortAccess> {
    crate::opcode_io::out_c_0_ports(s)
}

#[verifier::opaque]
pub open spec fn out_n_a_effect<M: Machine>(s: State, m: M, v: u8) -> State {
    (crate::environment::advance_pc_spec(s))
}

#[verifier::opaque]
pub open spec fn out_n_a_effect_writes<M: Machine>(s: State, m: M, v: u8) -> Seq<(u32, u8)> {
    seq![]
}

#[verifier::opaque]
pub open spec fn out_n_a_effect_ports<M: Machine>(s: State, m: M, v: u8) -> Seq<PortAccess> {
    crate::opcode_io::out_n_a_ports(s, m)
}

#[verifier::opaque]
pub open spec fn out0_n_r_effect<M: Machine>(s: State, m: M, v: u8, r: Reg8) -> State {
    (crate::environment::advance_pc_spec(s))
}

#[verifier::opaque]
pub open spec fn out0_n_r_effect_writes<M: Machine>(s: State, m: M, v: u8, r: Reg8) -> Seq<(u32, u8)> {
    seq![]
}

#[verifier::opaque]
pub open spec fn out0_n_r_effect_ports<M: Machine>(s: State, m: M, v: u8, r: Reg8) -> Seq<PortAccess> {
    crate::opcode_io::out0_n_r_ports(s, m, r)
}

#[verifier::opaque]
pub open spec fn in0_r_n_effect<M: Machine>(s: State, m: M, v: u8, r: Reg8) -> State {
    (crate::opcode_io::in0_r_n_state(s, r, v))
}

#[verifier::opaque]
pub open spec fn in0_r_n_effect_writes<M: Machine>(s: State, m: M, v: u8, r: Reg8) -> Seq<(u32, u8)> {
    seq![]
}

#[verifier::opaque]
pub open spec fn in0_r_n_effect_ports<M: Machine>(s: State, m: M, v: u8, r: Reg8) -> Seq<PortAccess> {
    crate::opcode_io::in0_r_n_ports(s, m, v)
}

#[verifier::opaque]
pub open spec fn in_r_c_effect<M: Machine>(s: State, m: M, v: u8, r: Reg8) -> State {
    (crate::opcode_io::in_r_c_state(s, r, v))
}

#[verifier::opaque]
pub open spec fn in_r_c_effect_writes<M: Machine>(s: State, m: M, v: u8, r: Reg8) -> Seq<(u32, u8)> {
    seq![]
}

#[verifier::opaque]
pub open spec fn in_r_c_effect_ports<M: Machine>(s: State, m: M, v: u8, r: Reg8) -> Seq<PortAccess> {
    crate::opcode_io::in_r_c_ports(s, v)
}

#[verifier::opaque]
pub open spec fn in_0_c_effect<M: Machine>(s: State, m: M, v: u8) -> State {
    (crate::environment::with_reg(s, Registers { f: crate::registers::bits_flags_spec(s.reg.f, v), ..s.reg }))
}

#[verifier::opaque]
pub open spec fn in_0_c_effect_writes<M: Machine>(s: State, m: M, v: u8) -> Seq<(u32, u8)> {
    seq![]
}

#[verifier::opaque]
pub open spec fn in_0_c_effect_ports<M: Machine>(s: State, m: M, v: u8) -> Seq<PortAccess> {
    crate::opcode_io::in_r_c_ports(s, v)
}

#[verifier::opaque]
pub open spec fn in_a_n_effect<M: Machine>(s: State, m: M, v: u8) -> State {
    (crate::environment::with_reg(crate::environment::advance_pc_spec(s), crate::environment::advance_pc_spec(s).reg.set8_spec(Reg8::A, v)))
}

#[verifier::opaque]
pub open spec fn in_a_n_effect_writes<M: Machine>(s: State, m: M, v: u8) -> Seq<(u32, u8)> {
    seq![]
}

#[verifier::opaque]
pub open spec fn in_a_n_effect_ports<M: Machine>(s: State, m: M, v: u8) -> Seq<PortAccess> {
    crate::opcode_io::in_a_n_ports(s, m, v)
}

#[verifier::opaque]
pub open spec fn in_block_effect<M: Machine>(s: State, m: M, v: u8, inc: bool, repeat: bool) -> State {
    (crate::opcode_io::in_block_state(s, inc, repeat, v))
}

#[verifier::opaque]
pub open spec fn in_block_effect_writes<M: Machine>(s: State, m: M, v: u8, inc: bool, repeat: bool) -> Seq<(u32, u8)> {
    seq![(crate::environment::index_address_spec(crate::opcode_io::dec_b_state(s)), v)]
}

#[verifier::opaque]
pub open spec fn in_block_effect_ports<M: Machine>(s: State, m: M, v: u8, inc: bool, repeat: bool) -> Seq<PortAccess> {
    crate::opcode_io::in_block_ports(s, v)
}

#[verifier::opaque]
pub open spec fn out_block_effect<M: Machine>(s: State, m: M, v: u8, inc: bool, repeat: bool) -> State {
    (crate::opcode_io::out_block_state(s, m, inc, repeat))
}

#[verifier::opaque]
pub open spec fn out_block_effect_writes<M: Machine>(s: State, m: M, v: u8, inc: bool, repeat: bool) -> Seq<(u32, u8)> {
    seq![]
}

#[verifier::opaque]
pub open spec fn out_block_effect_ports<M: Machine>(s: State, m: M, v: u8, inc: bool, repeat: bool) -> Seq<PortAccess> {
    crate::opcode_io::out_block_ports(s, m)
}

#[verifier::opaque]
pub open spec fn otirx_or_otdrx_effect<M: Machine>(s: State, m: M, v: u8, inc: bool) -> State {
    (crate::opcode_io::otirx_state(s, m, inc))
}

#[verifier::opaque]
pub open spec fn otirx_or_otdrx_effect_writes<M: Machine>(s: State, m: M, v: u8, inc: bool) -> Seq<(u32, u8)> {
    seq![]
}

#[verifier::opaque]
pub open spec fn otirx_or_otdrx_effect_ports<M: Machine>(s: State, m: M, v: u8, inc: bool) -> Seq<PortAccess> {
    crate::opcode_io::otirx_ports(s, m)
}

#[verifier::opaque]
pub open spec fn djnz_effect<M: Machine>(s: State, m: M, v: u8) -> State {
    (crate::opcode_jumps::djnz_state(s, m))
}

#[verifier::opaque]
pub open spec fn djnz_effect_writes<M: Machine>(s: State, m: M, v: u8) -> Seq<(u32, u8)> {
    seq![]
}

#[verifier::opaque]
pub open spec fn jr_unconditional_effect<M: Machine>(s: State, m: M, v: u8) -> State {
    (crate::opcode_jumps::relative_jump_spec(crate::environment::advance_pc_spec(s), crate::environment::code_byte(s, m, 0)))
}

#[verifier::opaque]
pub open spec fn jr_unconditional_effect_writes<M: Machine>(s: State, m: M, v: u8) -> Seq<(u32, u8)> {
    seq![]
}

#[verifier::opaque]
pub open spec fn jr_eq_effect<M: Machine>(s: State, m: M, v: u8, flag: Flag, value: bool) -> State {
    (crate::opcode_jumps::jr_eq_state(s, m, flag, value))
}

#[verifier::opaque]
pub open spec fn jr_eq_effect_writes<M: Machine>(s: State, m: M, v: u8, flag: Flag, value: bool) -> Seq<(u32, u8)> {
    seq![]
}

#[verifier::opaque]
pub open spec fn jp_unconditional_effect<M: Machine>(s: State, m: M, v: u8) -> State {
    (crate::opcode_jumps::jp_state(s, m))
}

#[verifier::opaque]
pub open spec fn jp_unconditional_effect_writes<M: Machine>(s: State, m: M, v: u8) -> Seq<(u32, u8)> {
    seq![]
}

#[verifier::opaque]
pub open spec fn jp_eq_effect<M: Machine>(s: State, m: M, v: u8, flag: Flag, value: bool) -> State {
    (crate::opcode_jumps::jp_eq_state(s, m, flag, value))
}

#[verifier::opaque]
pub open spec fn jp_eq_effect_writes<M: Machine>(s: State, m: M, v: u8, flag: Flag, value: bool) -> Seq<(u32, u8)> {
    seq![]
}

#[verifier::opaque]
pub open spec fn jp_hl_effect<M: Machine>(s: State, m: M, v: u8) -> State {
    (crate::environment::set_pc_spec(s, crate::environment::index_value_spec(s)))
}

#[verifier::opaque]
pub open spec fn jp_hl_effect_writes<M: Machine>(s: State, m: M, v: u8) -> Seq<(u32, u8)> {
    seq![]
}

#[verifier::opaque]
pub open spec fn call_effect<M: Machine>(s: State, m: M, v: u8) -> State {
    (crate::opcode_jumps::call_nn_state(s, m))
}

#[verifier::opaque]
pub open spec fn call_effect_writes<M: Machine>(s: State, m: M, v: u8) -> Seq<(u32, u8)> {
    crate::opcode_jumps::call_nn_writes(s, m)
}

#[verifier::opaque]
pub open spec fn call_eq_effect<M: Machine>(s: State, m: M, v: u8, flag: Flag, value: bool) -> State {
    (crate::opcode_jumps::call_eq_state(s, m, flag, value))
}

#[verifier::opaque]
pub open spec fn call_eq_effect_writes<M: Machine>(s: State, m: M, v: u8, flag: Flag, value: bool) -> Seq<(u32, u8)> {
    crate::opcode_jumps::call_eq_writes(s, m, flag, value)
}

#[verifier::opaque]
pub open spec fn rst_effect<M: Machine>(s: State, m: M, v: u8, d: u8) -> State {
    (crate::opcode_jumps::rst_state(s, d as u32))
}

#[verifier::opaque]
pub open spec fn rst_effect_writes<M: Machine>(s: State, m: M, v: u8, d: u8) -> Seq<(u32, u8)> {
    crate::opcode_jumps::rst_writes(s)
}

#[verifier::opaque]
pub open spec fn ret_effect<M: Machine>(s: State, m: M, v: u8) -> State {
    (crate::environment::ret_state(s, m))
}

#[verifier::opaque]
pub open spec fn ret_effect_writes<M: Machine>(s: State, m: M, v: u8) -> Seq<(u32, u8)> {
    seq![]
}

#[verifier::opaque]
pub open spec fn reti_effect<M: Machine>(s: State, m: M, v: u8) -> State {
    (crate::environment::ret_state(s, m))
}

#[verifier::opaque]
pub open spec fn reti_effect_writes<M: Machine>(s: State, m: M, v: u8) -> Seq<(u32, u8)> {
    seq![]
}

#[verifier::opaque]
pub open spec fn retn_effect<M: Machine>(s: State, m: M, v: u8) -> State {
    (crate::opcode_jumps::retn_state(s, m))
}

#[verifier::opaque]
pub open spec fn retn_effect_writes<M: Machine>(s: State, m: M, v: u8) -> Seq<(u32, u8)> {
    seq![]
}

#[verifier::opaque]
pub open spec fn ret_eq_effect<M: Machine>(s: State, m: M, v: u8, flag: Flag, value: bool) -> State {
    (crate::opcode_jumps::ret_eq_state(s, m, flag, value))
}

#[verifier::opaque]
pub open spec fn ret_eq_effect_writes<M: Machine>(s: State, m: M, v: u8, flag: Flag, value: bool) -> Seq<(u32, u8)> {
    seq![]
}

#[verifier::opaque]
pub open spec fn ld_r_r_effect<M: Machine>(s: State, m: M, v: u8, dst: Reg8, src: Reg8, flags: bool) -> State {
    (crate::opcode_ld::ld_r_r_state(s, m, dst, src, flags))
}

#[verifier::opaque]
pub open spec fn ld_r_r_effect_writes<M: Machine>(s: State, m: M, v: u8, dst: Reg8, src: Reg8, flags: bool) -> Seq<(u32, u8)> {
    crate::opcode_ld::ld_r_r_writes(s, m, dst, src)
}

#[verifier::opaque]
pub open spec fn ld_r_n_effect<M: Machine>(s: State, m: M, v: u8, r: Reg8) -> State {
    (crate::opcode_ld::ld_r_n_state(s, m, r))
}

#[verifier::opaque]
pub open spec fn ld_r_n_effect_writes<M: Machine>(s: State, m: M, v: u8, r: Reg8) -> Seq<(u32, u8)> {
    crate::opcode_ld::ld_r_n_writes(s, m, r)
}

#[verifier::opaque]
pub open spec fn ld_a_prr_effect<M: Machine>(s: State, m: M, v: u8, rr: Reg16) -> State {
    (crate::opcode_ld::ld_a_prr_state(s, m, rr))
}

#[verifier::opaque]
pub open spec fn ld_a_prr_effect_writes<M: Machine>(s: State, m: M, v: u8, rr: Reg16) -> Seq<(u32, u8)> {
    seq![]
}

#[verifier::opaque]
pub open spec fn ld_a_pnn_effect<M: Machine>(s: State, m: M, v: u8) -> State {
    (crate::opcode_ld::ld_a_pnn_state(s, m))
}

#[verifier::opaque]
pub open spec fn ld_a_pnn_effect_writes<M: Machine>(s: State, m: M, v: u8) -> Seq<(u32, u8)> {
    seq![]
}

#[verifier::opaque]
pub open spec fn ld_prr_a_effect<M: Machine>(s: State, m: M, v: u8, rr: Reg16) -> State {
    (s)
}

#[verifier::opaque]
pub open spec fn ld_prr_a_effect_writes<M: Machine>(s: State, m: M, v: u8, rr: Reg16) -> Seq<(u32, u8)> {
    seq![(crate::environment::reg_address_spec(s, rr), s.reg.a)]
}

#[verifier::opaque]
pub open spec fn ld_pnn_a_effect<M: Machine>(s: State, m: M, v: u8) -> State {
    (crate::environment::advance_n_spec(s, crate::environment::imm_len(s)))
}

#[verifier::opaque]
pub open spec fn ld_pnn_a_effect_writes<M: Machine>(s: State, m: M, v: u8) -> Seq<(u32, u8)> {
    seq![(crate::environment::imm_address_spec(s, m), s.reg.a)]
}

#[verifier::opaque]
pub open spec fn ld_rr_nn_effect<M: Machine>(s: State, m: M, v: u8, rr: Reg16) -> State {
    (crate::opcode_ld::ld_rr_nn_state(s, m, rr))
}

#[verifier::opaque]
pub open spec fn ld_rr_nn_effect_writes<M: Machine>(s: State, m: M, v: u8, rr: Reg16) -> Seq<(u32, u8)> {
    seq![]
}

#[verifier::opaque]
pub open spec fn ld_sp_hl_effect<M: Machine>(s: State, m: M, v: u8) -> State {
    (crate::opcode_ld::ld_sp_hl_state(s))
}

#[verifier::opaque]
pub open spec fn ld_sp_hl_effect_writes<M: Machine>(s: State, m: M, v: u8) -> Seq<(u32, u8)> {
    seq![]
}

#[verifier::opaque]
pub open spec fn ld_pnn_rr_effect<M: Machine>(s: State, m: M, v: u8, rr: Reg16) -> State {
    (crate::environment::advance_n_spec(s, crate::environment::imm_len(s)))
}

#[verifier::opaque]
pub open spec fn ld_pnn_rr_effect_writes<M: Machine>(s: State, m: M, v: u8, rr: Reg16) -> Seq<(u32, u8)> {
    crate::opcode_ld::ld_pnn_rr_writes(s, m, rr)
}

#[verifier::opaque]
pub open spec fn ld_rr_pnn_effect<M: Machine>(s: State, m: M, v: u8, rr: Reg16) -> State {
    (crate::opcode_ld::ld_rr_pnn_state(s, m, rr))
}

#[verifier::opaque]
pub open spec fn ld_rr_pnn_effect_writes<M: Machine>(s: State, m: M, v: u8, rr: Reg16) -> Seq<(u32, u8)> {
    seq![]
}

#[verifier::opaque]
pub open spec fn ex_af_effect<M: Machine>(s: State, m: M, v: u8) -> State {
    (crate::environment::with_reg(s, s.reg.swap_spec(Reg16::AF)))
}

#[verifier::opaque]
pub open spec fn ex_af_effect_writes<M: Machine>(s: State, m: M, v: u8) -> Seq<(u32, u8)> {
    seq![]
}

#[verifier::opaque]
pub open spec fn exx_effect<M: Machine>(s: State, m: M, v: u8) -> State {
    (crate::environment::with_reg(s, s.reg.swap_spec(Reg16::BC).swap_spec(Reg16::DE).swap_spec(Reg16::HL)))
}

#[verifier::opaque]
pub open spec fn exx_effect_writes<M: Machine>(s: State, m: M, v: u8) -> Seq<(u32, u8)> {
    seq![]
}

#[verifier::opaque]
pub open spec fn ex_de_hl_effect<M: Machine>(s: State, m: M, v: u8) -> State {
    (crate::opcode_ld::ex_de_hl_state(s))
}

#[verifier::opaque]
pub open spec fn ex_de_hl_effect_writes<M: Machine>(s: State, m: M, v: u8) -> Seq<(u32, u8)> {
    seq![]
}

#[verifier::opaque]
pub open spec fn ex_psp_hl_effect<M: Machine>(s: State, m: M, v: u8) -> State {
    (crate::opcode_ld::ex_psp_hl_state(s, m))
}

#[verifier::opaque]
pub open spec fn ex_psp_hl_effect_writes<M: Machine>(s: State, m: M, v: u8) -> Seq<(u32, u8)> {
    crate::opcode_ld::ex_psp_hl_writes(s)
}

#[verifier::opaque]
pub open spec fn ld_block_effect<M: Machine>(s: State, m: M, v: u8, inc: bool, repeat: bool) -> State {
    (crate::opcode_ld::ld_block_state(s, m, inc, repeat))
}

#[verifier::opaque]
pub open spec fn ld_block_effect_writes<M: Machine>(s: State, m: M, v: u8, inc: bool, repeat: bool) -> Seq<(u32, u8)> {
    seq![(crate::environment::reg_address_spec(s, Reg16::DE), crate::environment::reg8_ext_spec(s, m, Reg8::_HL))]
}

#[verifier::opaque]
pub open spec fn ld_a_mb_effect<M: Machine>(s: State, m: M, v: u8) -> State {
    (crate::environment::with_reg(s, s.reg.set8_spec(Reg8::A, s.reg.mbase)))
}

#[verifier::opaque]
pub open spec fn ld_a_mb_effect_writes<M: Machine>(s: State, m: M, v: u8) -> Seq<(u32, u8)> {
    seq![]
}

#[verifier::opaque]
pub open spec fn ld_mb_a_effect<M: Machine>(s: State, m: M, v: u8) -> State {
    (crate::environment::with_reg(s, Registers { mbase: s.reg.a, ..s.reg }))
}

#[verifier::opaque]
pub open spec fn ld_mb_a_effect_writes<M: Machine>(s: State, m: M, v: u8) -> Seq<(u32, u8)> {
    seq![]
}

#[verifier::opaque]
pub open spec fn ld_idx_disp_rr_effect<M: Machine>(s: State, m: M, v: u8, index_reg: Reg16, src: Reg16) -> State {
    (crate::environment::advance_pc_spec(s))
}

#[verifier::opaque]
pub open spec fn ld_idx_disp_rr_effect_writes<M: Machine>(s: State, m: M, v: u8, index_reg: Reg16, src: Reg16) -> Seq<(u32, u8)> {
    crate::opcode_ld::ld_idx_disp_rr_writes(s, m, index_reg, src)
}

#[verifier::opaque]
pub open spec fn ld_rr_idx_disp_effect<M: Machine>(s: State, m: M, v: u8, dest: Reg16, index_reg: Reg16) -> State {
    (crate::opcode_ld::ld_rr_idx_disp_state(s, m, dest, index_reg))
}

#[verifier::opaque]
pub open spec fn ld_rr_idx_disp_effect_writes<M: Machine>(s: State, m: M, v: u8, dest: Reg16, index_reg: Reg16) -> Seq<(u32, u8)> {
    seq![]
}

#[verifier::opaque]
pub open spec fn ld_rr_ind_hl_effect<M: Machine>(s: State, m: M, v: u8, dest: Reg16) -> State {
    (crate::opcode_ld::ld_rr_ind_hl_state(s, m, dest))
}

#[verifier::opaque]
pub open spec fn ld_rr_ind_hl_effect_writes<M: Machine>(s: State, m: M, v: u8, dest: Reg16) -> Seq<(u32, u8)> {
    seq![]
}

#[verifier::opaque]
pub open spec fn ld_ind_hl_rr_effect<M: Machine>(s: State, m: M, v: u8, src: Reg16) -> State {
    (s)
}

#[verifier::opaque]
pub open spec fn ld_ind_hl_rr_effect_writes<M: Machine>(s: State, m: M, v: u8, src: Reg16) -> Seq<(u32, u8)> {
    crate::opcode_ld::ld_ind_hl_rr_writes(s, src)
}

#[verifier::opaque]
pub open spec fn inc_r_effect<M: Machine>(s: State, m: M, v: u8, r: Reg8) -> State {
    crate::opcode_arith::inc_dec_r_state(s, m, r, true)
}

#[verifier::opaque]
pub open spec fn inc_r_effect_writes<M: Machine>(s: State, m: M, v: u8, r: Reg8) -> Seq<(u32, u8)> {
    crate::opcode_arith::inc_dec_r_writes(s, m, r, true)
}

#[verifier::opaque]
pub open spec fn dec_r_effect<M: Machine>(s: State, m: M, v: u8, r: Reg8) -> State {
    crate::opcode_arith::inc_dec_r_state(s, m, r, false)
}

#[verifier::opaque]
pub open spec fn dec_r_effect_writes<M: Machine>(s: State, m: M, v: u8, r: Reg8) -> Seq<(u32, u8)> {
    crate::opcode_arith::inc_dec_r_writes(s, m, r, false)
}

#[verifier::opaque]
pub open spec fn inc_dec_rr_effect<M: Machine>(s: State, m: M, v: u8, rr: Reg16, inc: bool) -> State {
    crate::opcode_arith::inc_dec_rr_state(s, rr, inc)
}

#[verifier::opaque]
pub open spec fn inc_dec_rr_effect_writes<M: Machine>(s: State, m: M, v: u8, rr: Reg16, inc: bool) -> Seq<(u32, u8)> {
    seq![]
}

#[verifier::opaque]
pub open spec fn add_hl_rr_effect<M: Machine>(s: State, m: M, v: u8, rr: Reg16) -> State {
    crate::opcode_arith::add_hl_rr_state(s, rr)
}

#[verifier::opaque]
pub open spec fn add_hl_rr_effect_writes<M: Machine>(s: State, m: M, v: u8, rr: Reg16) -> Seq<(u32, u8)> {
    seq![]
}

#[verifier::opaque]
pub open spec fn adc_hl_rr_effect<M: Machine>(s: State, m: M, v: u8, rr: Reg16) -> State {
    crate::opcode_arith::carry_hl_rr_state(s, rr, false)
}

#[verifier::opaque]
pub open spec fn adc_hl_rr_effect_writes<M: Machine>(s: State, m: M, v: u8, rr: Reg16) -> Seq<(u32, u8)> {
    seq![]
}

#[verifier::opaque]
pub open spec fn sbc_hl_rr_effect<M: Machine>(s: State, m: M, v: u8, rr: Reg16) -> State {
    crate::opcode_arith::carry_hl_rr_state(s, rr, true)
}

#[verifier::opaque]
pub open spec fn sbc_hl_rr_effect_writes<M: Machine>(s: State, m: M, v: u8, rr: Reg16) -> Seq<(u32, u8)> {
    seq![]
}

#[verifier::opaque]
pub open spec fn daa_effect<M: Machine>(s: State, m: M, v: u8) -> State {
    crate::opcode_arith::daa_state(s)
}

#[verifier::opaque]
pub open spec fn daa_effect_writes<M: Machine>(s: State, m: M, v: u8) -> Seq<(u32, u8)> {
    seq![]
}

#[verifier::opaque]
pub open spec fn cpl_effect<M: Machine>(s: State, m: M, v: u8) -> State {
    crate::opcode_arith::cpl_state(s)
}

#[verifier::opaque]
pub open spec fn cpl_effect_writes<M: Machine>(s: State, m: M, v: u8) -> Seq<(u32, u8)> {
    seq![]
}

#[verifier::opaque]
pub open spec fn scf_effect<M: Machine>(s: State, m: M, v: u8) -> State {
    crate::opcode_arith::scf_state(s)
}

#[verifier::opaque]
pub open spec fn scf_effect_writes<M: Machine>(s: State, m: M, v: u8) -> Seq<(u32, u8)> {
    seq![]
}

#[verifier::opaque]
pub open spec fn ccf_effect<M: Machine>(s: State, m: M, v: u8) -> State {
    crate::opcode_arith::ccf_state(s)
}

#[verifier::opaque]
pub open spec fn ccf_effect_writes<M: Machine>(s: State, m: M, v: u8) -> Seq<(u32, u8)> {
    seq![]
}

#[verifier::opaque]
pub open spec fn neg_effect<M: Machine>(s: State, m: M, v: u8) -> State {
    crate::opcode_arith::neg_state(s)
}

#[verifier::opaque]
pub open spec fn neg_effect_writes<M: Machine>(s: State, m: M, v: u8) -> Seq<(u32, u8)> {
    seq![]
}

#[verifier::opaque]
pub open spec fn rot_r_effect<M: Machine>(s: State, m: M, v: u8, r: Reg8, dir: ShiftDir, mode: ShiftMode, fast: bool, indexed: bool) -> State {
    crate::opcode_bits::rot_r_state(s, m, r, dir, mode, fast, indexed)
}

#[verifier::opaque]
pub open spec fn rot_r_effect_writes<M: Machine>(s: State, m: M, v: u8, r: Reg8, dir: ShiftDir, mode: ShiftMode, fast: bool, indexed: bool) -> Seq<(u32, u8)> {
    crate::opcode_bits::rot_r_writes(s, m, r, dir, mode, fast, indexed)
}

#[verifier::opaque]
pub open spec fn bit_r_effect<M: Machine>(s: State, m: M, v: u8, n: u8, r: Reg8) -> State {
    crate::opcode_bits::bit_r_state(s, m, n, r)
}

#[verifier::opaque]
pub open spec fn bit_r_effect_writes<M: Machine>(s: State, m: M, v: u8, n: u8, r: Reg8) -> Seq<(u32, u8)> {
    seq![]
}

#[verifier::opaque]
pub open spec fn set_res_r_effect<M: Machine>(s: State, m: M, v: u8, n: u8, r: Reg8, value: bool) -> State {
    crate::opcode_bits::set_res_r_state(s, m, n, r, value)
}

#[verifier::opaque]
pub open spec fn set_res_r_effect_writes<M: Machine>(s: State, m: M, v: u8, n: u8, r: Reg8, value: bool) -> Seq<(u32, u8)> {
    crate::opcode_bits::set_res_r_writes(s, m, n, r, value)
}

#[verifier::opaque]
pub open spec fn indexed_set_res_r_effect<M: Machine>(s: State, m: M, v: u8, n: u8, r: Reg8, value: bool) -> State {
    crate::opcode_bits::indexed_set_res_r_state(s, m, n, r, value)
}

#[verifier::opaque]
pub open spec fn indexed_set_res_r_effect_writes<M: Machine>(s: State, m: M, v: u8, n: u8, r: Reg8, value: bool) -> Seq<(u32, u8)> {
    crate::opcode_bits::indexed_set_res_r_writes(s, m, n, value)
}

#[verifier::opaque]
pub open spec fn rxd_effect<M: Machine>(s: State, m: M, v: u8, dir: ShiftDir) -> State {
    crate::opcode_bits::rxd_state(s, m, dir)
}

#[verifier::opaque]
pub open spec fn rxd_effect_writes<M: Machine>(s: State, m: M, v: u8, dir: ShiftDir) -> Seq<(u32, u8)> {
    crate::opcode_bits::rxd_writes(s, m, dir)
}

fn run_nop<'a, M: Machine>(env: &mut Environment<'a, M>) -> (v: u8)
    ensures
        executed(Action::Nop, *old(env).state, *old(env).sys, *final(env).state, *final(env).sys, v),
        final(env).state.instructions_executed == old(env).state.instructions_executed,
        *final(final(env).state) == *final(old(env).state),
        *final(final(env).sys) == *final(old(env).sys),
{
    let ghost s0 = *env.state;
    let ghost m0 = *env.sys;
    crate::opcode::exec_nop(env);
    let v: u8 = 0;
    proof {
        reveal(executed);
        reveal(action_state);
        reveal(action_writes);
        reveal(nop_effect);
        reveal(nop_effect_writes);
        reveal(action_ports);
        lemma_memory_io_written(m0, *env.sys, action_writes(Action::Nop, s0, m0, v));
    }
    v
}

fn run_noni_nop<'a, M: Machine>(env: &mut Environment<'a, M>) -> (v: u8)
    ensures
        executed(Action::NoniNop, *old(env).state, *old(env).sys, *final(env).state, *final(env).sys, v),
        final(env).state.instructions_executed == old(env).state.instructions_executed,
        *final(final(env).state) == *final(old(env).state),
        *final(final(env).sys) == *final(old(env).sys),
{
    let ghost s0 = *env.state;
    let ghost m0 = *env.sys;
    crate::opcode::exec_nop(env);
    let v: u8 = 0;
    proof {
        reveal(executed);
        reveal(action_state);
        reveal(action_writes);
        reveal(noni_nop_effect);
        reveal(noni_nop_effect_writes);
        reveal(action_ports);
        lemma_memory_io_written(m0, *env.sys, action_writes(Action::NoniNop, s0, m0, v));
    }
    v
}

fn run_unimplemented<'a, M: Machine>(env: &mut Environment<'a, M>) -> (v: u8)
    ensures
        executed(Action::Unimplemented, *old(env).state, *old(env).sys, *final(env).state, *final(env).sys, v),
        final(env).state.instructions_executed == old(env).state.instructions_executed,
        *final(final(env).state) == *final(old(env).state),
        *final(final(env).sys) == *final(old(env).sys),
{
    let ghost s0 = *env.state;
    let ghost m0 = *env.sys;
    crate::opcode::exec_nop(env);
    let v: u8 = 0;
    proof {
        reveal(executed);
        reveal(action_state);
        reveal(action_writes);
        reveal(unimplemented_effect);
        reveal(unimplemented_effect_writes);
        reveal(action_ports);
        lemma_memory_io_written(m0, *env.sys, action_writes(Action::Unimplemented, s0, m0, v));
    }
    v
}

fn run_halt<'a, M: Machine>(env: &mut Environment<'a, M>) -> (v: u8)
    ensures
        executed(Action::Halt, *old(env).state, *old(env).sys, *final(env).state, *final(env).sys, v),
        final(env).state.instructions_executed == old(env).state.instructions_executed,
        *final(final(env).state) == *final(old(env).state),
        *final(final(env).sys) == *final(old(env).sys),
{
    let ghost s0 = *env.state;
    let ghost m0 = *env.sys;
    crate::opcode::exec_halt(env);
    let v: u8 = 0;
    proof {
        reveal(executed);
        reveal(action_state);
        reveal(action_writes);
        reveal(halt_effect);
        reveal(halt_effect_writes);
        reveal(action_ports);
        lemma_memory_io_written(m0, *env.sys, action_writes(Action::Halt, s0, m0, v));
    }
    v
}

fn run_pop_rr<'a, M: Machine>(env: &mut Environment<'a, M>, rr: Reg16) -> (v: u8)
    ensures
        executed(Action::PopRR(rr), *old(env).state, *old(env).sys, *final(env).state, *final(env).sys, v),
        final(env).state.instructions_executed == old(env).state.instructions_executed,
        *final(final(env).state) == *final(old(env).state),
        *final(final(env).sys) == *final(old(env).sys),
{
    let ghost s0 = *env.state;
    let ghost m0 = *env.sys;
    crate::opcode::exec_pop_rr(env, rr);
    let v: u8 = 0;
    proof {
        reveal(executed);
        reveal(action_state);
        reveal(action_writes);
        reveal(pop_rr_effect);
        reveal(pop_rr_effect_writes);
        reveal(action_ports);
        lemma_memory_io_written(m0, *env.sys, action_writes(Action::PopRR(rr), s0, m0, v));
    }
    v
}

fn run_push_rr<'a, M: Machine>(env: &mut Environment<'a, M>, rr: Reg16) -> (v: u8)
    ensures
        executed(Action::PushRR(rr), *old(env).state, *old(env).sys, *final(env).state, *final(env).sys, v),
        final(env).state.instructions_executed == old(env).state.instructions_executed,
        *final(final(env).state) == *final(old(env).state),
        *final(final(env).sys) == *final(old(env).sys),
{
    let ghost s0 = *env.state;
    let ghost m0 = *env.sys;
    crate::opcode::exec_push_rr(env, rr);
    let v: u8 = 0;
    proof {
        reveal(executed);
        reveal(action_state);
        reveal(action_writes);
        reveal(push_rr_effect);
        reveal(push_rr_effect_writes);
        reveal(action_ports);
        lemma_memory_io_written(m0, *env.sys, action_writes(Action::PushRR(rr), s0, m0, v));
    }
    v
}

fn run_conf_interrupts<'a, M: Machine>(env: &mut Environment<'a, M>, enable: bool) -> (v: u8)
    ensures
        executed(Action::ConfInterrupts(enable), *old(env).state, *old(env).sys, *final(env).state, *final(env).sys, v),
        final(env).state.instructions_executed == old(env).state.instructions_executed,
        *final(final(env).state) == *final(old(env).state),
        *final(final(env).sys) == *final(old(env).sys),
{
    let ghost s0 = *env.state;
    let ghost m0 = *env.sys;
    crate::opcode::exec_conf_interrupts(env, enable);
    let v: u8 = 0;
    proof {
        reveal(executed);
        reveal(action_state);
        reveal(action_writes);
        reveal(conf_interrupts_effect);
        reveal(conf_interrupts_effect_writes);
        reveal(action_ports);
        lemma_memory_io_written(m0, *env.sys, action_writes(Action::ConfInterrupts(enable), s0, m0, v));
    }
    v
}

fn run_im<'a, M: Machine>(env: &mut Environment<'a, M>, im: u8) -> (v: u8)
    ensures
        executed(Action::Im(im), *old(env).state, *old(env).sys, *final(env).state, *final(env).sys, v),
        final(env).state.instructions_executed == old(env).state.instructions_executed,
        *final(final(env).state) == *final(old(env).state),
        *final(final(env).sys) == *final(old(env).sys),
{
    let ghost s0 = *env.state;
    let ghost m0 = *env.sys;
    crate::opcode::exec_im(env, im);
    let v: u8 = 0;
    proof {
        reveal(executed);
        reveal(action_state);
        reveal(action_writes);
        reveal(im_effect);
        reveal(im_effect_writes);
        reveal(action_ports);
        lemma_memory_io_written(m0, *env.sys, action_writes(Action::Im(im), s0, m0, v));
    }
    v
}

fn run_stmix<'a, M: Machine>(env: &mut Environment<'a, M>) -> (v: u8)
    ensures
        executed(Action::Stmix, *old(env).state, *old(env).sys, *final(env).state, *final(env).sys, v),
        final(env).state.instructions_executed == old(env).state.instructions_executed,
        *final(final(env).state) == *final(old(env).state),
        *final(final(env).sys) == *final(old(env).sys),
{
    let ghost s0 = *env.state;
    let ghost m0 = *env.sys;
    crate::opcode::exec_stmix(env);
    let v: u8 = 0;
    proof {
        reveal(executed);
        reveal(action_state);
        reveal(action_writes);
        reveal(stmix_effect);
        reveal(stmix_effect_writes);
        reveal(action_ports);
        lemma_memory_io_written(m0, *env.sys, action_writes(Action::Stmix, s0, m0, v));
    }
    v
}

fn run_rsmix<'a, M: Machine>(env: &mut Environment<'a, M>) -> (v: u8)
    ensures
        executed(Action::Rsmix, *old(env).state, *old(env).sys, *final(env).state, *final(env).sys, v),
        final(env).state.instructions_executed == old(env).state.instructions_executed,
        *final(final(env).state) == *final(old(env).state),
        *final(final(env).sys) == *final(old(env).sys),
{
    let ghost s0 = *env.state;
    let ghost m0 = *env.sys;
    crate::opcode::exec_rsmix(env);
    let v: u8 = 0;
    proof {
        reveal(executed);
        reveal(action_state);
        reveal(action_writes);
        reveal(rsmix_effect);
        reveal(rsmix_effect_writes);
        reveal(action_ports);
        lemma_memory_io_written(m0, *env.sys, action_writes(Action::Rsmix, s0, m0, v));
    }
    v
}

fn run_lea_rr_ind_offset<'a, M: Machine>(env: &mut Environment<'a, M>, dest: Reg16, src: Reg16) -> (v: u8)
    ensures
        executed(Action::LeaRRIndOffset(dest, src), *old(env).state, *old(env).sys, *final(env).state, *final(env).sys, v),
        final(env).state.instructions_executed == old(env).state.instructions_executed,
        *final(final(env).state) == *final(old(env).state),
        *final(final(env).sys) == *final(old(env).sys),
{
    let ghost s0 = *env.state;
    let ghost m0 = *env.sys;
    crate::opcode_alu::exec_lea_rr_ind_offset(env, dest, src);
    let v: u8 = 0;
    proof {
        reveal(executed);
        reveal(action_state);
        reveal(action_writes);
        reveal(lea_rr_ind_offset_effect);
        reveal(lea_rr_ind_offset_effect_writes);
        reveal(action_ports);
        lemma_memory_io_written(m0, *env.sys, action_writes(Action::LeaRRIndOffset(dest, src), s0, m0, v));
    }
    v
}

fn run_pea<'a, M: Machine>(env: &mut Environment<'a, M>, src: Reg16) -> (v: u8)
    ensures
        executed(Action::Pea(src), *old(env).state, *old(env).sys, *final(env).state, *final(env).sys, v),
        final(env).state.instructions_executed == old(env).state.instructions_executed,
        *final(final(env).state) == *final(old(env).state),
        *final(final(env).sys) == *final(old(env).sys),
{
    let ghost s0 = *env.state;
    let ghost m0 = *env.sys;
    crate::opcode_alu::exec_pea(env, src);
    let v: u8 = 0;
    proof {
        reveal(executed);
        reveal(action_state);
        reveal(action_writes);
        reveal(pea_effect);
        reveal(pea_effect_writes);
        reveal(action_ports);
        lemma_memory_io_written(m0, *env.sys, action_writes(Action::Pea(src), s0, m0, v));
    }
    v
}

fn run_tst_a_r<'a, M: Machine>(env: &mut Environment<'a, M>, reg: Reg8) -> (v: u8)
    ensures
        executed(Action::TstAR(reg), *old(env).state, *old(env).sys, *final(env).state, *final(env).sys, v),
        final(env).state.instructions_executed == old(env).state.instructions_executed,
        *final(final(env).state) == *final(old(env).state),
        *final(final(env).sys) == *final(old(env).sys),
{
    let ghost s0 = *env.state;
    let ghost m0 = *env.sys;
    crate::opcode_alu::exec_tst_a_r(env, reg);
    let v: u8 = 0;
    proof {
        reveal(executed);
        reveal(action_state);
        reveal(action_writes);
        reveal(tst_a_r_effect);
        reveal(tst_a_r_effect_writes);
        reveal(action_ports);
        lemma_memory_io_written(m0, *env.sys, action_writes(Action::TstAR(reg), s0, m0, v));
    }
    v
}

fn run_tst_a_n<'a, M: Machine>(env: &mut Environment<'a, M>) -> (v: u8)
    ensures
        executed(Action::TstAN, *old(env).state, *old(env).sys, *final(env).state, *final(env).sys, v),
        final(env).state.instructions_executed == old(env).state.instructions_executed,
        *final(final(env).state) == *final(old(env).state),
        *final(final(env).sys) == *final(old(env).sys),
{
    let ghost s0 = *env.state;
    let ghost m0 = *env.sys;
    crate::opcode_alu::exec_tst_a_n(env);
    let v: u8 = 0;
    proof {
        reveal(executed);
        reveal(action_state);
        reveal(action_writes);
        reveal(tst_a_n_effect);
        reveal(tst_a_n_effect_writes);
        reveal(action_ports);
        lemma_memory_io_written(m0, *env.sys, action_writes(Action::TstAN, s0, m0, v));
    }
    v
}

fn run_operator_a_idx_offset<'a, M: Machine>(env: &mut Environment<'a, M>, idx: Reg16, op: Operator) -> (v: u8)
    ensures
        executed(Action::OperatorAIdxOffset(idx, op), *old(env).state, *old(env).sys, *final(env).state, *final(env).sys, v),
        final(env).state.instructions_executed == old(env).state.instructions_executed,
        *final(final(env).state) == *final(old(env).state),
        *final(final(env).sys) == *final(old(env).sys),
{
    let ghost s0 = *env.state;
    let ghost m0 = *env.sys;
    crate::opcode_alu::exec_operator_a_idx_offset(env, idx, op);
    let v: u8 = 0;
    proof {
        reveal(executed);
        reveal(action_state);
        reveal(action_writes);
        reveal(operator_a_idx_offset_effect);
        reveal(operator_a_idx_offset_effect_writes);
        reveal(action_ports);
        lemma_memory_io_written(m0, *env.sys, action_writes(Action::OperatorAIdxOffset(idx, op), s0, m0, v));
    }
    v
}

fn run_operator_a_r<'a, M: Machine>(env: &mut Environment<'a, M>, r: Reg8, op: Operator) -> (v: u8)
    ensures
        executed(Action::OperatorAR(r, op), *old(env).state, *old(env).sys, *final(env).state, *final(env).sys, v),
        final(env).state.instructions_executed == old(env).state.instructions_executed,
        *final(final(env).state) == *final(old(env).state),
        *final(final(env).sys) == *final(old(env).sys),
{
    let ghost s0 = *env.state;
    let ghost m0 = *env.sys;
    crate::opcode_alu::exec_operator_a_r(env, r, op);
    let v: u8 = 0;
    proof {
        reveal(executed);
        reveal(action_state);
        reveal(action_writes);
        reveal(operator_a_r_effect);
        reveal(operator_a_r_effect_writes);
        reveal(action_ports);
        lemma_memory_io_written(m0, *env.sys, action_writes(Action::OperatorAR(r, op), s0, m0, v));
    }
    v
}

fn run_operator_a_n<'a, M: Machine>(env: &mut Environment<'a, M>, op: Operator) -> (v: u8)
    ensures
        executed(Action::OperatorAN(op), *old(env).state, *old(env).sys, *final(env).state, *final(env).sys, v),
        final(env).state.instructions_executed == old(env).state.instructions_executed,
        *final(final(env).state) == *final(old(env).state),
        *final(final(env).sys) == *final(old(env).sys),
{
    let ghost s0 = *env.state;
    let ghost m0 = *env.sys;
    crate::opcode_alu::exec_operator_a_n(env, op);
    let v: u8 = 0;
    proof {
        reveal(executed);
        reveal(action_state);
        reveal(action_writes);
        reveal(operator_a_n_effect);
        reveal(operator_a_n_effect_writes);
        reveal(action_ports);
        lemma_memory_io_written(m0, *env.sys, action_writes(Action::OperatorAN(op), s0, m0, v));
    }
    v
}

fn run_cp_block<'a, M: Machine>(env: &mut Environment<'a, M>, inc: bool, repeat: bool) -> (v: u8)
    ensures
        executed(Action::CpBlock(inc, repeat), *old(env).state, *old(env).sys, *final(env).state, *final(env).sys, v),
        final(env).state.instructions_executed == old(env).state.instructions_executed,
        *final(final(env).state) == *final(old(env).state),
        *final(final(env).sys) == *final(old(env).sys),
{
    let ghost s0 = *env.state;
    let ghost m0 = *env.sys;
    crate::opcode_alu::exec_cp_block(env, inc, repeat);
    let v: u8 = 0;
    proof {
        reveal(executed);
        reveal(action_state);
        reveal(action_writes);
        reveal(cp_block_effect);
        reveal(cp_block_effect_writes);
        reveal(action_ports);
        lemma_memory_io_written(m0, *env.sys, action_writes(Action::CpBlock(inc, repeat), s0, m0, v));
    }
    v
}

fn run_mlt_rr<'a, M: Machine>(env: &mut Environment<'a, M>, reg: Reg16) -> (v: u8)
    ensures
        executed(Action::MltRR(reg), *old(env).state, *old(env).sys, *final(env).state, *final(env).sys, v),
        final(env).state.instructions_executed == old(env).state.instructions_executed,
        *final(final(env).state) == *final(old(env).state),
        *final(final(env).sys) == *final(old(env).sys),
{
    let ghost s0 = *env.state;
    let ghost m0 = *env.sys;
    crate::opcode_alu::exec_mlt_rr(env, reg);
    let v: u8 = 0;
    proof {
        reveal(executed);
        reveal(action_state);
        reveal(action_writes);
        reveal(mlt_rr_effect);
        reveal(mlt_rr_effect_writes);
        reveal(action_ports);
        lemma_memory_io_written(m0, *env.sys, action_writes(Action::MltRR(reg), s0, m0, v));
    }
    v
}

fn run_out_c_r<'a, M: Machine>(env: &mut Environment<'a, M>, r: Reg8) -> (v: u8)
    ensures
        executed(Action::OutCR(r), *old(env).state, *old(env).sys, *final(env).state, *final(env).sys, v),
        final(env).state.instructions_executed == old(env).state.instructions_executed,
        *final(final(env).state) == *final(old(env).state),
        *final(final(env).sys) == *final(old(env).sys),
{
    let ghost s0 = *env.state;
    let ghost m0 = *env.sys;
    crate::opcode_io::exec_out_c_r(env, r);
    let v: u8 = 0;
    proof {
        reveal(executed);
        reveal(action_state);
        reveal(action_writes);
        reveal(out_c_r_effect);
        reveal(out_c_r_effect_writes);
        reveal(action_ports);
        reveal(out_c_r_effect_ports);
    }
    v
}

fn run_out_c_0<'a, M: Machine>(env: &mut Environment<'a, M>) -> (v: u8)
    ensures
        executed(Action::OutC0, *old(env).state, *old(env).sys, *final(env).state, *final(env).sys, v),
        final(env).state.instructions_executed == old(env).state.instructions_executed,
        *final(final(env).state) == *final(old(env).state),
        *final(final(env).sys) == *final(old(env).sys),
{
    let ghost s0 = *env.state;
    let ghost m0 = *env.sys;
    crate::opcode_io::exec_out_c_0(env);
    let v: u8 = 0;
    proof {
        reveal(executed);
        reveal(action_state);
        reveal(action_writes);
        reveal(out_c_0_effect);
        reveal(out_c_0_effect_writes);
        reveal(action_ports);
        reveal(out_c_0_effect_ports);
    }
    v
}

fn run_out_n_a<'a, M: Machine>(env: &mut Environment<'a, M>) -> (v: u8)
    ensures
        executed(Action::OutNA, *old(env).state, *old(env).sys, *final(env).state, *final(env).sys, v),
        final(env).state.instructions_executed == old(env).state.instructions_executed,
        *final(final(env).state) == *final(old(env).state),
        *final(final(env).sys) == *final(old(env).sys),
{
    let ghost s0 = *env.state;
    let ghost m0 = *env.sys;
    crate::opcode_io::exec_out_n_a(env);
    let v: u8 = 0;
    proof {
        reveal(executed);
        reveal(action_state);
        reveal(action_writes);
        reveal(out_n_a_effect);
        reveal(out_n_a_effect_writes);
        reveal(action_ports);
        reveal(out_n_a_effect_ports);
    }
    v
}

fn run_out0_n_r<'a, M: Machine>(env: &mut Environment<'a, M>, r: Reg8) -> (v: u8)
    ensures
        executed(Action::Out0NR(r), *old(env).state, *old(env).sys, *final(env).state, *final(env).sys, v),
        final(env).state.instructions_executed == old(env).state.instructions_executed,
        *final(final(env).state) == *final(old(env).state),
        *final(final(env).sys) == *final(old(env).sys),
{
    let ghost s0 = *env.state;
    let ghost m0 = *env.sys;
    crate::opcode_io::exec_out0_n_r(env, r);
    let v: u8 = 0;
    proof {
        reveal(executed);
        reveal(action_state);
        reveal(action_writes);
        reveal(out0_n_r_effect);
        reveal(out0_n_r_effect_writes);
        reveal(action_ports);
        reveal(out0_n_r_effect_ports);
    }
    v
}

fn run_in0_r_n<'a, M: Machine>(env: &mut Environment<'a, M>, r: Reg8) -> (v: u8)
    ensures
        executed(Action::In0RN(r), *old(env).state, *old(env).sys, *final(env).state, *final(env).sys, v),
        final(env).state.instructions_executed == old(env).state.instructions_executed,
        *final(final(env).state) == *final(old(env).state),
        *final(final(env).sys) == *final(old(env).sys),
{
    let ghost s0 = *env.state;
    let ghost m0 = *env.sys;
    let v = crate::opcode_io::exec_in0_r_n(env, r);
    proof {
        reveal(executed);
        reveal(action_state);
        reveal(action_writes);
        reveal(in0_r_n_effect);
        reveal(in0_r_n_effect_writes);
        reveal(action_ports);
        reveal(in0_r_n_effect_ports);
    }
    v
}

fn run_in_r_c<'a, M: Machine>(env: &mut Environment<'a, M>, r: Reg8) -> (v: u8)
    ensures
        executed(Action::InRC(r), *old(env).state, *old(env).sys, *final(env).state, *final(env).sys, v),
        final(env).state.instructions_executed == old(env).state.instructions_executed,
        *final(final(env).state) == *final(old(env).state),
        *final(final(env).sys) == *final(old(env).sys),
{
    let ghost s0 = *env.state;
    let ghost m0 = *env.sys;
    let v = crate::opcode_io::exec_in_r_c(env, r);
    proof {
        reveal(executed);
        reveal(action_state);
        reveal(action_writes);
        reveal(in_r_c_effect);
        reveal(in_r_c_effect_writes);
        reveal(action_ports);
        reveal(in_r_c_effect_ports);
    }
    v
}

fn run_in_0_c<'a, M: Machine>(env: &mut Environment<'a, M>) -> (v: u8)
    ensures
        executed(Action::In0C, *old(env).state, *old(env).sys, *final(env).state, *final(env).sys, v),
        final(env).state.instructions_executed == old(env).state.instructions_executed,
        *final(final(env).state) == *final(old(env).state),
        *final(final(env).sys) == *final(old(env).sys),
{
    let ghost s0 = *env.state;
    let ghost m0 = *env.sys;
    let v = crate::opcode_io::exec_in_0_c(env);
    proof {
        reveal(executed);
        reveal(action_state);
        reveal(action_writes);
        reveal(in_0_c_effect);
        reveal(in_0_c_effect_writes);
        reveal(action_ports);
        reveal(in_0_c_effect_ports);
    }
    v
}

fn run_in_a_n<'a, M: Machine>(env: &mut Environment<'a, M>) -> (v: u8)
    ensures
        executed(Action::InAN, *old(env).state, *old(env).sys, *final(env).state, *final(env).sys, v),
        final(env).state.instructions_executed == old(env).state.instructions_executed,
        *final(final(env).state) == *final(old(env).state),
        *final(final(env).sys) == *final(old(env).sys),
{
    let ghost s0 = *env.state;
    let ghost m0 = *env.sys;
    let v = crate::opcode_io::exec_in_a_n(env);
    proof {
        reveal(executed);
        reveal(action_state);
        reveal(action_writes);
        reveal(in_a_n_effect);
        reveal(in_a_n_effect_writes);
        reveal(action_ports);
        reveal(in_a_n_effect_ports);
    }
    v
}

fn run_in_block<'a, M: Machine>(env: &mut Environment<'a, M>, inc: bool, repeat: bool) -> (v: u8)
    ensures
        executed(Action::InBlock(inc, repeat), *old(env).state, *old(env).sys, *final(env).state, *final(env).sys, v),
        final(env).state.instructions_executed == old(env).state.instructions_executed,
        *final(final(env).state) == *final(old(env).state),
        *final(final(env).sys) == *final(old(env).sys),
{
    let ghost s0 = *env.state;
    let ghost m0 = *env.sys;
    let v = crate::opcode_io::exec_in_block(env, inc, repeat);
    proof {
        reveal(executed);
        reveal(action_state);
        reveal(action_writes);
        reveal(in_block_effect);
        reveal(in_block_effect_writes);
        reveal(action_ports);
        reveal(in_block_effect_ports);
    }
    v
}

fn run_out_block<'a, M: Machine>(env: &mut Environment<'a, M>, inc: bool, repeat: bool) -> (v: u8)
    ensures
        executed(Action::OutBlock(inc, repeat), *old(env).state, *old(env).sys, *final(env).state, *final(env).sys, v),
        final(env).state.instructions_executed == old(env).state.instructions_executed,
        *final(final(env).state) == *final(old(env).state),
        *final(final(env).sys) == *final(old(env).sys),
{
    let ghost s0 = *env.state;
    let ghost m0 = *env.sys;
    crate::opcode_io::exec_out_block(env, inc, repeat);
    let v: u8 = 0;
    proof {
        reveal(executed);
        reveal(action_state);
        reveal(action_writes);
        reveal(out_block_effect);
        reveal(out_block_effect_writes);
        reveal(action_ports);
        reveal(out_block_effect_ports);
    }
    v
}

fn run_otirx_or_otdrx<'a, M: Machine>(env: &mut Environment<'a, M>, inc: bool) -> (v: u8)
    ensures
        executed(Action::OtirxOrOtdrx(inc), *old(env).state, *old(env).sys, *final(env).state, *final(env).sys, v),
        final(env).state.instructions_executed == old(env).state.instructions_executed,
        *final(final(env).state) == *final(old(env).state),
        *final(final(env).sys) == *final(old(env).sys),
{
    let ghost s0 = *env.state;
    let ghost m0 = *env.sys;
    crate::opcode_io::exec_otirx_or_otdrx(env, inc);
    let v: u8 = 0;
    proof {
        reveal(executed);
        reveal(action_state);
        reveal(action_writes);
        reveal(otirx_or_otdrx_effect);
        reveal(otirx_or_otdrx_effect_writes);
        reveal(action_ports);
        reveal(otirx_or_otdrx_effect_ports);
    }
    v
}

fn run_djnz<'a, M: Machine>(env: &mut Environment<'a, M>) -> (v: u8)
    ensures
        executed(Action::Djnz, *old(env).state, *old(env).sys, *final(env).state, *final(env).sys, v),
        final(env).state.instructions_executed == old(env).state.instructions_executed,
        *final(final(env).state) == *final(old(env).state),
        *final(final(env).sys) == *final(old(env).sys),
{
    let ghost s0 = *env.state;
    let ghost m0 = *env.sys;
    crate::opcode_jumps::exec_djnz(env);
    let v: u8 = 0;
    proof {
        reveal(executed);
        reveal(action_state);
        reveal(action_writes);
        reveal(djnz_effect);
        reveal(djnz_effect_writes);
        reveal(action_ports);
        lemma_memory_io_written(m0, *env.sys, action_writes(Action::Djnz, s0, m0, v));
    }
    v
}

fn run_jr_unconditional<'a, M: Machine>(env: &mut Environment<'a, M>) -> (v: u8)
    ensures
        executed(Action::JrUnconditional, *old(env).state, *old(env).sys, *final(env).state, *final(env).sys, v),
        final(env).state.instructions_executed == old(env).state.instructions_executed,
        *final(final(env).state) == *final(old(env).state),
        *final(final(env).sys) == *final(old(env).sys),
{
    let ghost s0 = *env.state;
    let ghost m0 = *env.sys;
    crate::opcode_jumps::exec_jr_unconditional(env);
    let v: u8 = 0;
    proof {
        reveal(executed);
        reveal(action_state);
        reveal(action_writes);
        reveal(jr_unconditional_effect);
        reveal(jr_unconditional_effect_writes);
        reveal(action_ports);
        lemma_memory_io_written(m0, *env.sys, action_writes(Action::JrUnconditional, s0, m0, v));
    }
    v
}

fn run_jr_eq<'a, M: Machine>(env: &mut Environment<'a, M>, flag: Flag, value: bool) -> (v: u8)
    ensures
        executed(Action::JrEq(flag, value), *old(env).state, *old(env).sys, *final(env).state, *final(env).sys, v),
        final(env).state.instructions_executed == old(env).state.instructions_executed,
        *final(final(env).state) == *final(old(env).state),
        *final(final(env).sys) == *final(old(env).sys),
{
    let ghost s0 = *env.state;
    let ghost m0 = *env.sys;
    crate::opcode_jumps::exec_jr_eq(env, flag, value);
    let v: u8 = 0;
    proof {
        reveal(executed);
        reveal(action_state);
        reveal(action_writes);
        reveal(jr_eq_effect);
        reveal(jr_eq_effect_writes);
        reveal(action_ports);
        lemma_memory_io_written(m0, *env.sys, action_writes(Action::JrEq(flag, value), s0, m0, v));
    }
    v
}

fn run_jp_unconditional<'a, M: Machine>(env: &mut Environment<'a, M>) -> (v: u8)
    ensures
        executed(Action::JpUnconditional, *old(env).state, *old(env).sys, *final(env).state, *final(env).sys, v),
        final(env).state.instructions_executed == old(env).state.instructions_executed,
        *final(final(env).state) == *final(old(env).state),
        *final(final(env).sys) == *final(old(env).sys),
{
    let ghost s0 = *env.state;
    let ghost m0 = *env.sys;
    crate::opcode_jumps::exec_jp_unconditional(env);
    let v: u8 = 0;
    proof {
        reveal(executed);
        reveal(action_state);
        reveal(action_writes);
        reveal(jp_unconditional_effect);
        reveal(jp_unconditional_effect_writes);
        reveal(action_ports);
        lemma_memory_io_written(m0, *env.sys, action_writes(Action::JpUnconditional, s0, m0, v));
    }
    v
}

fn run_jp_eq<'a, M: Machine>(env: &mut Environment<'a, M>, flag: Flag, value: bool) -> (v: u8)
    ensures
        executed(Action::JpEq(flag, value), *old(env).state, *old(env).sys, *final(env).state, *final(env).sys, v),
        final(env).state.instructions_executed == old(env).state.instructions_executed,
        *final(final(env).state) == *final(old(env).state),
        *final(final(env).sys) == *final(old(env).sys),
{
    let ghost s0 = *env.state;
    let ghost m0 = *env.sys;
    crate::opcode_jumps::exec_jp_eq(env, flag, value);
    let v: u8 = 0;
    proof {
        reveal(executed);
        reveal(action_state);
        reveal(action_writes);
        reveal(jp_eq_effect);
        reveal(jp_eq_effect_writes);
        reveal(action_ports);
        lemma_memory_io_written(m0, *env.sys, action_writes(Action::JpEq(flag, value), s0, m0, v));
    }
    v
}

fn run_jp_hl<'a, M: Machine>(env: &mut Environment<'a, M>) -> (v: u8)
    ensures
        executed(Action::JpHl, *old(env).state, *old(env).sys, *final(env).state, *final(env).sys, v),
        final(env).state.instructions_executed == old(env).state.instructions_executed,
        *final(final(env).state) == *final(old(env).state),
        *final(final(env).sys) == *final(old(env).sys),
{
    let ghost s0 = *env.state;
    let ghost m0 = *env.sys;
    crate::opcode_jumps::exec_jp_hl(env);
    let v: u8 = 0;
    proof {
        reveal(executed);
        reveal(action_state);
        reveal(action_writes);
        reveal(jp_hl_effect);
        reveal(jp_hl_effect_writes);
        reveal(action_ports);
        lemma_memory_io_written(m0, *env.sys, action_writes(Action::JpHl, s0, m0, v));
    }
    v
}

fn run_call<'a, M: Machine>(env: &mut Environment<'a, M>) -> (v: u8)
    ensures
        executed(Action::Call, *old(env).state, *old(env).sys, *final(env).state, *final(env).sys, v),
        final(env).state.instructions_executed == old(env).state.instructions_executed,
        *final(final(env).state) == *final(old(env).state),
        *final(final(env).sys) == *final(old(env).sys),
{
    let ghost s0 = *env.state;
    let ghost m0 = *env.sys;
    crate::opcode_jumps::exec_call(env);
    let v: u8 = 0;
    proof {
        reveal(executed);
        reveal(action_state);
        reveal(action_writes);
        reveal(call_effect);
        reveal(call_effect_writes);
        reveal(action_ports);
        lemma_memory_io_written(m0, *env.sys, action_writes(Action::Call, s0, m0, v));
    }
    v
}

fn run_call_eq<'a, M: Machine>(env: &mut Environment<'a, M>, flag: Flag, value: bool) -> (v: u8)
    ensures
        executed(Action::CallEq(flag, value), *old(env).state, *old(env).sys, *final(env).state, *final(env).sys, v),
        final(env).state.instructions_executed == old(env).state.instructions_executed,
        *final(final(env).state) == *final(old(env).state),
        *final(final(env).sys) == *final(old(env).sys),
{
    let ghost s0 = *env.state;
    let ghost m0 = *env.sys;
    crate::opcode_jumps::exec_call_eq(env, flag, value);
    let v: u8 = 0;
    proof {
        reveal(executed);
        reveal(action_state);
        reveal(action_writes);
        reveal(call_eq_effect);
        reveal(call_eq_effect_writes);
        reveal(action_ports);
        lemma_memory_io_written(m0, *env.sys, action_writes(Action::CallEq(flag, value), s0, m0, v));
    }
    v
}

fn run_rst<'a, M: Machine>(env: &mut Environment<'a, M>, d: u8) -> (v: u8)
    ensures
        executed(Action::Rst(d), *old(env).state, *old(env).sys, *final(env).state, *final(env).sys, v),
        final(env).state.instructions_executed == old(env).state.instructions_executed,
        *final(final(env).state) == *final(old(env).state),
        *final(final(env).sys) == *final(old(env).sys),
{
    let ghost s0 = *env.state;
    let ghost m0 = *env.sys;
    crate::opcode_jumps::exec_rst(env, d);
    let v: u8 = 0;
    proof {
        reveal(executed);
        reveal(action_state);
        reveal(action_writes);
        reveal(rst_effect);
        reveal(rst_effect_writes);
        reveal(action_ports);
        lemma_memory_io_written(m0, *env.sys, action_writes(Action::Rst(d), s0, m0, v));
    }
    v
}

fn run_ret<'a, M: Machine>(env: &mut Environment<'a, M>) -> (v: u8)
    ensures
        executed(Action::Ret, *old(env).state, *old(env).sys, *final(env).state, *final(env).sys, v),
        final(env).state.instructions_executed == old(env).state.instructions_executed,
        *final(final(env).state) == *final(old(env).state),
        *final(final(env).sys) == *final(old(env).sys),
{
    let ghost s0 = *env.state;
    let ghost m0 = *env.sys;
    crate::opcode_jumps::exec_ret(env);
    let v: u8 = 0;
    proof {
        reveal(executed);
        reveal(action_state);
        reveal(action_writes);
        reveal(ret_effect);
        reveal(ret_effect_writes);
        reveal(action_ports);
        lemma_memory_io_written(m0, *env.sys, action_writes(Action::Ret, s0, m0, v));
    }
    v
}

fn run_reti<'a, M: Machine>(env: &mut Environment<'a, M>) -> (v: u8)
    ensures
        executed(Action::Reti, *old(env).state, *old(env).sys, *final(env).state, *final(env).sys, v),
        final(env).state.instructions_executed == old(env).state.instructions_executed,
        *final(final(env).state) == *final(old(env).state),
        *final(final(env).sys) == *final(old(env).sys),
{
    let ghost s0 = *env.state;
    let ghost m0 = *env.sys;
    crate::opcode_jumps::exec_reti(env);
    let v: u8 = 0;
    proof {
        reveal(executed);
        reveal(action_state);
        reveal(action_writes);
        reveal(reti_effect);
        reveal(reti_effect_writes);
        reveal(action_ports);
        lemma_memory_io_written(m0, *env.sys, action_writes(Action::Reti, s0, m0, v));
    }
    v
}

fn run_retn<'a, M: Machine>(env: &mut Environment<'a, M>) -> (v: u8)
    ensures
        executed(Action::Retn, *old(env).state, *old(env).sys, *final(env).state, *final(env).sys, v),
        final(env).state.instructions_executed == old(env).state.instructions_executed,
        *final(final(env).state) == *final(old(env).state),
        *final(final(env).sys) == *final(old(env).sys),
{
    let ghost s0 = *env.state;
    let ghost m0 = *env.sys;
    crate::opcode_jumps::exec_retn(env);
    let v: u8 = 0;
    proof {
        reveal(executed);
        reveal(action_state);
        reveal(action_writes);
        reveal(retn_effect);
        reveal(retn_effect_writes);
        reveal(action_ports);
        lemma_memory_io_written(m0, *env.sys, action_writes(Action::Retn, s0, m0, v));
    }
    v
}

fn run_ret_eq<'a, M: Machine>(env: &mut Environment<'a, M>, flag: Flag, value: bool) -> (v: u8)
    ensures
        executed(Action::RetEq(flag, value), *old(env).state, *old(env).sys, *final(env).state, *final(env).sys, v),
        final(env).state.instructions_executed == old(env).state.instructions_executed,
        *final(final(env).state) == *final(old(env).state),
        *final(final(env).sys) == *final(old(env).sys),
{
    let ghost s0 = *env.state;
    let ghost m0 = *env.sys;
    crate::opcode_jumps::exec_ret_eq(env, flag, value);
    let v: u8 = 0;
    proof {
        reveal(executed);
        reveal(action_state);
        reveal(action_writes);
        reveal(ret_eq_effect);
        reveal(ret_eq_effect_writes);
        reveal(action_ports);
        lemma_memory_io_written(m0, *env.sys, action_writes(Action::RetEq(flag, value), s0, m0, v));
    }
    v
}

fn run_ld_r_r<'a, M: Machine>(env: &mut Environment<'a, M>, dst: Reg8, src: Reg8, flags: bool) -> (v: u8)
    ensures
        executed(Action::LdRR(dst, src, flags), *old(env).state, *old(env).sys, *final(env).state, *final(env).sys, v),
        final(env).state.instructions_executed == old(env).state.instructions_executed,
        *final(final(env).state) == *final(old(env).state),
        *final(final(env).sys) == *final(old(env).sys),
{
    let ghost s0 = *env.state;
    let ghost m0 = *env.sys;
    crate::opcode_ld::exec_ld_r_r(env, dst, src, flags);
    let v: u8 = 0;
    proof {
        reveal(executed);
        reveal(action_state);
        reveal(action_writes);
        reveal(ld_r_r_effect);
        reveal(ld_r_r_effect_writes);
        reveal(action_ports);
        lemma_memory_io_written(m0, *env.sys, action_writes(Action::LdRR(dst, src, flags), s0, m0, v));
    }
    v
}

fn run_ld_r_n<'a, M: Machine>(env: &mut Environment<'a, M>, r: Reg8) -> (v: u8)
    ensures
        executed(Action::LdRN(r), *old(env).state, *old(env).sys, *final(env).state, *final(env).sys, v),
        final(env).state.instructions_executed == old(env).state.instructions_executed,
        *final(final(env).state) == *final(old(env).state),
        *final(final(env).sys) == *final(old(env).sys),
{
    let ghost s0 = *env.state;
    let ghost m0 = *env.sys;
    crate::opcode_ld::exec_ld_r_n(env, r);
    let v: u8 = 0;
    proof {
        reveal(executed);
        reveal(action_state);
        reveal(action_writes);
        reveal(ld_r_n_effect);
        reveal(ld_r_n_effect_writes);
        reveal(action_ports);
        lemma_memory_io_written(m0, *env.sys, action_writes(Action::LdRN(r), s0, m0, v));
    }
    v
}

fn run_ld_a_prr<'a, M: Machine>(env: &mut Environment<'a, M>, rr: Reg16) -> (v: u8)
    ensures
        executed(Action::LdAPrr(rr), *old(env).state, *old(env).sys, *final(env).state, *final(env).sys, v),
        final(env).state.instructions_executed == old(env).state.instructions_executed,
        *final(final(env).state) == *final(old(env).state),
        *final(final(env).sys) == *final(old(env).sys),
{
    let ghost s0 = *env.state;
    let ghost m0 = *env.sys;
    crate::opcode_ld::exec_ld_a_prr(env, rr);
    let v: u8 = 0;
    proof {
        reveal(executed);
        reveal(action_state);
        reveal(action_writes);
        reveal(ld_a_prr_effect);
        reveal(ld_a_prr_effect_writes);
        reveal(action_ports);
        lemma_memory_io_written(m0, *env.sys, action_writes(Action::LdAPrr(rr), s0, m0, v));
    }
    v
}

fn run_ld_a_pnn<'a, M: Machine>(env: &mut Environment<'a, M>) -> (v: u8)
    ensures
        executed(Action::LdAPnn, *old(env).state, *old(env).sys, *final(env).state, *final(env).sys, v),
        final(env).state.instructions_executed == old(env).state.instructions_executed,
        *final(final(env).state) == *final(old(env).state),
        *final(final(env).sys) == *final(old(env).sys),
{
    let ghost s0 = *env.state;
    let ghost m0 = *env.sys;
    crate::opcode_ld::exec_ld_a_pnn(env);
    let v: u8 = 0;
    proof {
        reveal(executed);
        reveal(action_state);
        reveal(action_writes);
        reveal(ld_a_pnn_effect);
        reveal(ld_a_pnn_effect_writes);
        reveal(action_ports);
        lemma_memory_io_written(m0, *env.sys, action_writes(Action::LdAPnn, s0, m0, v));
    }
    v
}

fn run_ld_prr_a<'a, M: Machine>(env: &mut Environment<'a, M>, rr: Reg16) -> (v: u8)
    ensures
        executed(Action::LdPrrA(rr), *old(env).state, *old(env).sys, *final(env).state, *final(env).sys, v),
        final(env).state.instructions_executed == old(env).state.instructions_executed,
        *final(final(env).state) == *final(old(env).state),
        *final(final(env).sys) == *final(old(env).sys),
{
    let ghost s0 = *env.state;
    let ghost m0 = *env.sys;
    crate::opcode_ld::exec_ld_prr_a(env, rr);
    let v: u8 = 0;
    proof {
        reveal(executed);
        reveal(action_state);
        reveal(action_writes);
        reveal(ld_prr_a_effect);
        reveal(ld_prr_a_effect_writes);
        reveal(action_ports);
        lemma_memory_io_written(m0, *env.sys, action_writes(Action::LdPrrA(rr), s0, m0, v));
    }
    v
}

fn run_ld_pnn_a<'a, M: Machine>(env: &mut Environment<'a, M>) -> (v: u8)
    ensures
        executed(Action::LdPnnA, *old(env).state, *old(env).sys, *final(env).state, *final(env).sys, v),
        final(env).state.instructions_executed == old(env).state.instructions_executed,
        *final(final(env).state) == *final(old(env).state),
        *final(final(env).sys) == *final(old(env).sys),
{
    let ghost s0 = *env.state;
    let ghost m0 = *env.sys;
    crate::opcode_ld::exec_ld_pnn_a(env);
    let v: u8 = 0;
    proof {
        reveal(executed);
        reveal(action_state);
        reveal(action_writes);
        reveal(ld_pnn_a_effect);
        reveal(ld_pnn_a_effect_writes);
        reveal(action_ports);
        lemma_memory_io_written(m0, *env.sys, action_writes(Action::LdPnnA, s0, m0, v));
    }
    v
}

fn run_ld_rr_nn<'a, M: Machine>(env: &mut Environment<'a, M>, rr: Reg16) -> (v: u8)
    ensures
        executed(Action::LdRRNn(rr), *old(env).state, *old(env).sys, *final(env).state, *final(env).sys, v),
        final(env).state.instructions_executed == old(env).state.instructions_executed,
        *final(final(env).state) == *final(old(env).state),
        *final(final(env).sys) == *final(old(env).sys),
{
    let ghost s0 = *env.state;
    let ghost m0 = *env.sys;
    crate::opcode_ld::exec_ld_rr_nn(env, rr);
    let v: u8 = 0;
    proof {
        reveal(executed);
        reveal(action_state);
        reveal(action_writes);
        reveal(ld_rr_nn_effect);
        reveal(ld_rr_nn_effect_writes);
        reveal(action_ports);
        lemma_memory_io_written(m0, *env.sys, action_writes(Action::LdRRNn(rr), s0, m0, v));
    }
    v
}

fn run_ld_sp_hl<'a, M: Machine>(env: &mut Environment<'a, M>) -> (v: u8)
    ensures
        executed(Action::LdSpHl, *old(env).state, *old(env).sys, *final(env).state, *final(env).sys, v),
        final(env).state.instructions_executed == old(env).state.instructions_executed,
        *final(final(env).state) == *final(old(env).state),
        *final(final(env).sys) == *final(old(env).sys),
{
    let ghost s0 = *env.state;
    let ghost m0 = *env.sys;
    crate::opcode_ld::exec_ld_sp_hl(env);
    let v: u8 = 0;
    proof {
        reveal(executed);
        reveal(action_state);
        reveal(action_writes);
        reveal(ld_sp_hl_effect);
        reveal(ld_sp_hl_effect_writes);
        reveal(action_ports);
        lemma_memory_io_written(m0, *env.sys, action_writes(Action::LdSpHl, s0, m0, v));
    }
    v
}

fn run_ld_pnn_rr<'a, M: Machine>(env: &mut Environment<'a, M>, rr: Reg16) -> (v: u8)
    ensures
        executed(Action::LdPnnRR(rr), *old(env).state, *old(env).sys, *final(env).state, *final(env).sys, v),
        final(env).state.instructions_executed == old(env).state.instructions_executed,
        *final(final(env).state) == *final(old(env).state),
        *final(final(env).sys) == *final(old(env).sys),
{
    let ghost s0 = *env.state;
    let ghost m0 = *env.sys;
    crate::opcode_ld::exec_ld_pnn_rr(env, rr);
    let v: u8 = 0;
    proof {
        reveal(executed);
        reveal(action_state);
        reveal(action_writes);
        reveal(ld_pnn_rr_effect);
        reveal(ld_pnn_rr_effect_writes);
        reveal(action_ports);
        lemma_memory_io_written(m0, *env.sys, action_writes(Action::LdPnnRR(rr), s0, m0, v));
    }
    v
}

fn run_ld_rr_pnn<'a, M: Machine>(env: &mut Environment<'a, M>, rr: Reg16) -> (v: u8)
    ensures
        executed(Action::LdRRPnn(rr), *old(env).state, *old(env).sys, *final(env).state, *final(env).sys, v),
        final(env).state.instructions_executed == old(env).state.instructions_executed,
        *final(final(env).state) == *final(old(env).state),
        *final(final(env).sys) == *final(old(env).sys),
{
    let ghost s0 = *env.state;
    let ghost m0 = *env.sys;
    crate::opcode_ld::exec_ld_rr_pnn(env, rr);
    let v: u8 = 0;
    proof {
        reveal(executed);
        reveal(action_state);
        reveal(action_writes);
        reveal(ld_rr_pnn_effect);
        reveal(ld_rr_pnn_effect_writes);
        reveal(action_ports);
        lemma_memory_io_written(m0, *env.sys, action_writes(Action::LdRRPnn(rr), s0, m0, v));
    }
    v
}

fn run_ex_af<'a, M: Machine>(env: &mut Environment<'a, M>) -> (v: u8)
    ensures
        executed(Action::ExAf, *old(env).state, *old(env).sys, *final(env).state, *final(env).sys, v),
        final(env).state.instructions_executed == old(env).state.instructions_executed,
        *final(final(env).state) == *final(old(env).state),
        *final(final(env).sys) == *final(old(env).sys),
{
    let ghost s0 = *env.state;
    let ghost m0 = *env.sys;
    crate::opcode_ld::exec_ex_af(env);
    let v: u8 = 0;
    proof {
        reveal(executed);
        reveal(action_state);
        reveal(action_writes);
        reveal(ex_af_effect);
        reveal(ex_af_effect_writes);
        reveal(action_ports);
        lemma_memory_io_written(m0, *env.sys, action_writes(Action::ExAf, s0, m0, v));
    }
    v
}

fn run_exx<'a, M: Machine>(env: &mut Environment<'a, M>) -> (v: u8)
    ensures
        executed(Action::Exx, *old(env).state, *old(env).sys, *final(env).state, *final(env).sys, v),
        final(env).state.instructions_executed == old(env).state.instructions_executed,
        *final(final(env).state) == *final(old(env).state),
        *final(final(env).sys) == *final(old(env).sys),
{
    let ghost s0 = *env.state;
    let ghost m0 = *env.sys;
    crate::opcode_ld::exec_exx(env);
    let v: u8 = 0;
    proof {
        reveal(executed);
        reveal(action_state);
        reveal(action_writes);
        reveal(exx_effect);
        reveal(exx_effect_writes);
        reveal(action_ports);
        lemma_memory_io_written(m0, *env.sys, action_writes(Action::Exx, s0, m0, v));
    }
    v
}

fn run_ex_de_hl<'a, M: Machine>(env: &mut Environment<'a, M>) -> (v: u8)
    ensures
        executed(Action::ExDeHl, *old(env).state, *old(env).sys, *final(env).state, *final(env).sys, v),
        final(env).state.instructions_executed == old(env).state.instructions_executed,
        *final(final(env).state) == *final(old(env).state),
        *final(final(env).sys) == *final(old(env).sys),
{
    let ghost s0 = *env.state;
    let ghost m0 = *env.sys;
    crate::opcode_ld::exec_ex_de_hl(env);
    let v: u8 = 0;
    proof {
        reveal(executed);
        reveal(action_state);
        reveal(action_writes);
        reveal(ex_de_hl_effect);
        reveal(ex_de_hl_effect_writes);
        reveal(action_ports);
        lemma_memory_io_written(m0, *env.sys, action_writes(Action::ExDeHl, s0, m0, v));
    }
    v
}

fn run_ex_psp_hl<'a, M: Machine>(env: &mut Environment<'a, M>) -> (v: u8)
    ensures
        executed(Action::ExPspHl, *old(env).state, *old(env).sys, *final(env).state, *final(env).sys, v),
        final(env).state.instructions_executed == old(env).state.instructions_executed,
        *final(final(env).state) == *final(old(env).state),
        *final(final(env).sys) == *final(old(env).sys),
{
    let ghost s0 = *env.state;
    let ghost m0 = *env.sys;
    crate::opcode_ld::exec_ex_psp_hl(env);
    let v: u8 = 0;
    proof {
        reveal(executed);
        reveal(action_state);
        reveal(action_writes);
        reveal(ex_psp_hl_effect);
        reveal(ex_psp_hl_effect_writes);
        reveal(action_ports);
        lemma_memory_io_written(m0, *env.sys, action_writes(Action::ExPspHl, s0, m0, v));
    }
    v
}

fn run_ld_block<'a, M: Machine>(env: &mut Environment<'a, M>, inc: bool, repeat: bool) -> (v: u8)
    ensures
        executed(Action::LdBlock(inc, repeat), *old(env).state, *old(env).sys, *final(env).state, *final(env).sys, v),
        final(env).state.instructions_executed == old(env).state.instructions_executed,
        *final(final(env).state) == *final(old(env).state),
        *final(final(env).sys) == *final(old(env).sys),
{
    let ghost s0 = *env.state;
    let ghost m0 = *env.sys;
    crate::opcode_ld::exec_ld_block(env, inc, repeat);
    let v: u8 = 0;
    proof {
        reveal(executed);
        reveal(action_state);
        reveal(action_writes);
        reveal(ld_block_effect);
        reveal(ld_block_effect_writes);
        reveal(action_ports);
        lemma_memory_io_written(m0, *env.sys, action_writes(Action::LdBlock(inc, repeat), s0, m0, v));
    }
    v
}

fn run_ld_a_mb<'a, M: Machine>(env: &mut Environment<'a, M>) -> (v: u8)
    ensures
        executed(Action::LdAMb, *old(env).state, *old(env).sys, *final(env).state, *final(env).sys, v),
        final(env).state.instructions_executed == old(env).state.instructions_executed,
        *final(final(env).state) == *final(old(env).state),
        *final(final(env).sys) == *final(old(env).sys),
{
    let ghost s0 = *env.state;
    let ghost m0 = *env.sys;
    crate::opcode_ld::exec_ld_a_mb(env);
    let v: u8 = 0;
    proof {
        reveal(executed);
        reveal(action_state);
        reveal(action_writes);
        reveal(ld_a_mb_effect);
        reveal(ld_a_mb_effect_writes);
        reveal(action_ports);
        lemma_memory_io_written(m0, *env.sys, action_writes(Action::LdAMb, s0, m0, v));
    }
    v
}

fn run_ld_mb_a<'a, M: Machine>(env: &mut Environment<'a, M>) -> (v: u8)
    ensures
        executed(Action::LdMbA, *old(env).state, *old(env).sys, *final(env).state, *final(env).sys, v),
        final(env).state.instructions_executed == old(env).state.instructions_executed,
        *final(final(env).state) == *final(old(env).state),
        *final(final(env).sys) == *final(old(env).sys),
{
    let ghost s0 = *env.state;
    let ghost m0 = *env.sys;
    crate::opcode_ld::exec_ld_mb_a(env);
    let v: u8 = 0;
    proof {
        reveal(executed);
        reveal(action_state);
        reveal(action_writes);
        reveal(ld_mb_a_effect);
        reveal(ld_mb_a_effect_writes);
        reveal(action_ports);
        lemma_memory_io_written(m0, *env.sys, action_writes(Action::LdMbA, s0, m0, v));
    }
    v
}

fn run_ld_idx_disp_rr<'a, M: Machine>(env: &mut Environment<'a, M>, index_reg: Reg16, src: Reg16) -> (v: u8)
    ensures
        executed(Action::LdIdxDispRR(index_reg, src), *old(env).state, *old(env).sys, *final(env).state, *final(env).sys, v),
        final(env).state.instructions_executed == old(env).state.instructions_executed,
        *final(final(env).state) == *final(old(env).state),
        *final(final(env).sys) == *final(old(env).sys),
{
    let ghost s0 = *env.state;
    let ghost m0 = *env.sys;
    crate::opcode_ld::exec_ld_idx_disp_rr(env, index_reg, src);
    let v: u8 = 0;
    proof {
        reveal(executed);
        reveal(action_state);
        reveal(action_writes);
        reveal(ld_idx_disp_rr_effect);
        reveal(ld_idx_disp_rr_effect_writes);
        reveal(action_ports);
        lemma_memory_io_written(m0, *env.sys, action_writes(Action::LdIdxDispRR(index_reg, src), s0, m0, v));
    }
    v
}

fn run_ld_rr_idx_disp<'a, M: Machine>(env: &mut Environment<'a, M>, dest: Reg16, index_reg: Reg16) -> (v: u8)
    ensures
        executed(Action::LdRRIdxDisp(dest, index_reg), *old(env).state, *old(env).sys, *final(env).state, *final(env).sys, v),
        final(env).state.instructions_executed == old(env).state.instructions_executed,
        *final(final(env).state) == *final(old(env).state),
        *final(final(env).sys) == *final(old(env).sys),
{
    let ghost s0 = *env.state;
    let ghost m0 = *env.sys;
    crate::opcode_ld::exec_ld_rr_idx_disp(env, dest, index_reg);
    let v: u8 = 0;
    proof {
        reveal(executed);
        reveal(action_state);
        reveal(action_writes);
        reveal(ld_rr_idx_disp_effect);
        reveal(ld_rr_idx_disp_effect_writes);
        reveal(action_ports);
        lemma_memory_io_written(m0, *env.sys, action_writes(Action::LdRRIdxDisp(dest, index_reg), s0, m0, v));
    }
    v
}

fn run_ld_rr_ind_hl<'a, M: Machine>(env: &mut Environment<'a, M>, dest: Reg16) -> (v: u8)
    ensures
        executed(Action::LdRRIndHl(dest), *old(env).state, *old(env).sys, *final(env).state, *final(env).sys, v),
        final(env).state.instructions_executed == old(env).state.instructions_executed,
        *final(final(env).state) == *final(old(env).state),
        *final(final(env).sys) == *final(old(env).sys),
{
    let ghost s0 = *env.state;
    let ghost m0 = *env.sys;
    crate::opcode_ld::exec_ld_rr_ind_hl(env, dest);
    let v: u8 = 0;
    proof {
        reveal(executed);
        reveal(action_state);
        reveal(action_writes);
        reveal(ld_rr_ind_hl_effect);
        reveal(ld_rr_ind_hl_effect_writes);
        reveal(action_ports);
        lemma_memory_io_written(m0, *env.sys, action_writes(Action::LdRRIndHl(dest), s0, m0, v));
    }
    v
}

fn run_ld_ind_hl_rr<'a, M: Machine>(env: &mut Environment<'a, M>, src: Reg16) -> (v: u8)
    ensures
        executed(Action::LdIndHlRR(src), *old(env).state, *old(env).sys, *final(env).state, *final(env).sys, v),
        final(env).state.instructions_executed == old(env).state.instructions_executed,
        *final(final(env).state) == *final(old(env).state),
        *final(final(env).sys) == *final(old(env).sys),
{
    let ghost s0 = *env.state;
    let ghost m0 = *env.sys;
    crate::opcode_ld::exec_ld_ind_hl_rr(env, src);
    let v: u8 = 0;
    proof {
        reveal(executed);
        reveal(action_state);
        reveal(action_writes);
        reveal(ld_ind_hl_rr_effect);
        reveal(ld_ind_hl_rr_effect_writes);
        reveal(action_ports);
        lemma_memory_io_written(m0, *env.sys, action_writes(Action::LdIndHlRR(src), s0, m0, v));
    }
    v
}

fn run_inc_r<'a, M: Machine>(env: &mut Environment<'a, M>, r: Reg8) -> (v: u8)
    ensures
        executed(Action::IncR(r), *old(env).state, *old(env).sys, *final(env).state, *final(env).sys, v),
        final(env).state.instructions_executed == old(env).state.instructions_executed,
        *final(final(env).state) == *final(old(env).state),
        *final(final(env).sys) == *final(old(env).sys),
{
    let ghost s0 = *env.state;
    let ghost m0 = *env.sys;
    crate::opcode_arith::exec_inc_r(env, r);
    let v: u8 = 0;
    proof {
        reveal(executed);
        reveal(action_state);
        reveal(action_writes);
        reveal(inc_r_effect);
        reveal(inc_r_effect_writes);
        reveal(action_ports);
        lemma_memory_io_written(m0, *env.sys, action_writes(Action::IncR(r), s0, m0, v));
    }
    v
}

fn run_dec_r<'a, M: Machine>(env: &mut Environment<'a, M>, r: Reg8) -> (v: u8)
    ensures
        executed(Action::DecR(r), *old(env).state, *old(env).sys, *final(env).state, *final(env).sys, v),
        final(env).state.instructions_executed == old(env).state.instructions_executed,
        *final(final(env).state) == *final(old(env).state),
        *final(final(env).sys) == *final(old(env).sys),
{
    let ghost s0 = *env.state;
    let ghost m0 = *env.sys;
    crate::opcode_arith::exec_dec_r(env, r);
    let v: u8 = 0;
    proof {
        reveal(executed);
        reveal(action_state);
        reveal(action_writes);
        reveal(dec_r_effect);
        reveal(dec_r_effect_writes);
        reveal(action_ports);
        lemma_memory_io_written(m0, *env.sys, action_writes(Action::DecR(r), s0, m0, v));
    }
    v
}

fn run_inc_dec_rr<'a, M: Machine>(env: &mut Environment<'a, M>, rr: Reg16, inc: bool) -> (v: u8)
    ensures
        executed(Action::IncDecRR(rr, inc), *old(env).state, *old(env).sys, *final(env).state, *final(env).sys, v),
        final(env).state.instructions_executed == old(env).state.instructions_executed,
        *final(final(env).state) == *final(old(env).state),
        *final(final(env).sys) == *final(old(env).sys),
{
    let ghost s0 = *env.state;
    let ghost m0 = *env.sys;
    crate::opcode_arith::exec_inc_dec_rr(env, rr, inc);
    let v: u8 = 0;
    proof {
        reveal(executed);
        reveal(action_state);
        reveal(action_writes);
        reveal(inc_dec_rr_effect);
        reveal(inc_dec_rr_effect_writes);
        reveal(action_ports);
        lemma_memory_io_written(m0, *env.sys, action_writes(Action::IncDecRR(rr, inc), s0, m0, v));
    }
    v
}

fn run_add_hl_rr<'a, M: Machine>(env: &mut Environment<'a, M>, rr: Reg16) -> (v: u8)
    ensures
        executed(Action::AddHlRR(rr), *old(env).state, *old(env).sys, *final(env).state, *final(env).sys, v),
        final(env).state.instructions_executed == old(env).state.instructions_executed,
        *final(final(env).state) == *final(old(env).state),
        *final(final(env).sys) == *final(old(env).sys),
{
    let ghost s0 = *env.state;
    let ghost m0 = *env.sys;
    crate::opcode_arith::exec_add_hl_rr(env, rr);
    let v: u8 = 0;
    proof {
        reveal(executed);
        reveal(action_state);
        reveal(action_writes);
        reveal(add_hl_rr_effect);
        reveal(add_hl_rr_effect_writes);
        reveal(action_ports);
        lemma_memory_io_written(m0, *env.sys, action_writes(Action::AddHlRR(rr), s0, m0, v));
    }
    v
}

fn run_adc_hl_rr<'a, M: Machine>(env: &mut Environment<'a, M>, rr: Reg16) -> (v: u8)
    ensures
        executed(Action::AdcHlRR(rr), *old(env).state, *old(env).sys, *final(env).state, *final(env).sys, v),
        final(env).state.instructions_executed == old(env).state.instructions_executed,
        *final(final(env).state) == *final(old(env).state),
        *final(final(env).sys) == *final(old(env).sys),
{
    let ghost s0 = *env.state;
    let ghost m0 = *env.sys;
    crate::opcode_arith::exec_adc_hl_rr(env, rr);
    let v: u8 = 0;
    proof {
        reveal(executed);
        reveal(action_state);
        reveal(action_writes);
        reveal(adc_hl_rr_effect);
        reveal(adc_hl_rr_effect_writes);
        reveal(action_ports);
        lemma_memory_io_written(m0, *env.sys, action_writes(Action::AdcHlRR(rr), s0, m0, v));
    }
    v
}

fn run_sbc_hl_rr<'a, M: Machine>(env: &mut Environment<'a, M>, rr: Reg16) -> (v: u8)
    ensures
        executed(Action::SbcHlRR(rr), *old(env).state, *old(env).sys, *final(env).state, *final(env).sys, v),
        final(env).state.instructions_executed == old(env).state.instructions_executed,
        *final(final(env).state) == *final(old(env).state),
        *final(final(env).sys) == *final(old(env).sys),
{
    let ghost s0 = *env.state;
    let ghost m0 = *env.sys;
    crate::opcode_arith::exec_sbc_hl_rr(env, rr);
    let v: u8 = 0;
    proof {
        reveal(executed);
        reveal(action_state);
        reveal(action_writes);
        reveal(sbc_hl_rr_effect);
        reveal(sbc_hl_rr_effect_writes);
        reveal(action_ports);
        lemma_memory_io_written(m0, *env.sys, action_writes(Action::SbcHlRR(rr), s0, m0, v));
    }
    v
}

fn run_daa<'a, M: Machine>(env: &mut Environment<'a, M>) -> (v: u8)
    ensures
        executed(Action::Daa, *old(env).state, *old(env).sys, *final(env).state, *final(env).sys, v),
        final(env).state.instructions_executed == old(env).state.instructions_executed,
        *final(final(env).state) == *final(old(env).state),
        *final(final(env).sys) == *final(old(env).sys),
{
    let ghost s0 = *env.state;
    let ghost m0 = *env.sys;
    crate::opcode_arith::exec_daa(env);
    let v: u8 = 0;
    proof {
        reveal(executed);
        reveal(action_state);
        reveal(action_writes);
        reveal(daa_effect);
        reveal(daa_effect_writes);
        reveal(action_ports);
        lemma_memory_io_written(m0, *env.sys, action_writes(Action::Daa, s0, m0, v));
    }
    v
}

fn run_cpl<'a, M: Machine>(env: &mut Environment<'a, M>) -> (v: u8)
    ensures
        executed(Action::Cpl, *old(env).state, *old(env).sys, *final(env).state, *final(env).sys, v),
        final(env).state.instructions_executed == old(env).state.instructions_executed,
        *final(final(env).state) == *final(old(env).state),
        *final(final(env).sys) == *final(old(env).sys),
{
    let ghost s0 = *env.state;
    let ghost m0 = *env.sys;
    crate::opcode_arith::exec_cpl(env);
    let v: u8 = 0;
    proof {
        reveal(executed);
        reveal(action_state);
        reveal(action_writes);
        reveal(cpl_effect);
        reveal(cpl_effect_writes);
        reveal(action_ports);
        lemma_memory_io_written(m0, *env.sys, action_writes(Action::Cpl, s0, m0, v));
    }
    v
}

fn run_scf<'a, M: Machine>(env: &mut Environment<'a, M>) -> (v: u8)
    ensures
        executed(Action::Scf, *old(env).state, *old(env).sys, *final(env).state, *final(env).sys, v),
        final(env).state.instructions_executed == old(env).state.instructions_executed,
        *final(final(env).state) == *final(old(env).state),
        *final(final(env).sys) == *final(old(env).sys),
{
    let ghost s0 = *env.state;
    let ghost m0 = *env.sys;
    crate::opcode_arith::exec_scf(env);
    let v: u8 = 0;
    proof {
        reveal(executed);
        reveal(action_state);
        reveal(action_writes);
        reveal(scf_effect);
        reveal(scf_effect_writes);
        reveal(action_ports);
        lemma_memory_io_written(m0, *env.sys, action_writes(Action::Scf, s0, m0, v));
    }
    v
}

fn run_ccf<'a, M: Machine>(env: &mut Environment<'a, M>) -> (v: u8)
    ensures
        executed(Action::Ccf, *old(env).state, *old(env).sys, *final(env).state, *final(env).sys, v),
        final(env).state.instructions_executed == old(env).state.instructions_executed,
        *final(final(env).state) == *final(old(env).state),
        *final(final(env).sys) == *final(old(env).sys),
{
    let ghost s0 = *env.state;
    let ghost m0 = *env.sys;
    crate::opcode_arith::exec_ccf(env);
    let v: u8 = 0;
    proof {
        reveal(executed);
        reveal(action_state);
        reveal(action_writes);
        reveal(ccf_effect);
        reveal(ccf_effect_writes);
        reveal(action_ports);
        lemma_memory_io_written(m0, *env.sys, action_writes(Action::Ccf, s0, m0, v));
    }
    v
}

fn run_neg<'a, M: Machine>(env: &mut Environment<'a, M>) -> (v: u8)
    ensures
        executed(Action::Neg, *old(env).state, *old(env).sys, *final(env).state, *final(env).sys, v),
        final(env).state.instructions_executed == old(env).state.instructions_executed,
        *final(final(env).state) == *final(old(env).state),
        *final(final(env).sys) == *final(old(env).sys),
{
    let ghost s0 = *env.state;
    let ghost m0 = *env.sys;
    crate::opcode_arith::exec_neg(env);
    let v: u8 = 0;
    proof {
        reveal(executed);
        reveal(action_state);
        reveal(action_writes);
        reveal(neg_effect);
        reveal(neg_effect_writes);
        reveal(action_ports);
        lemma_memory_io_written(m0, *env.sys, action_writes(Action::Neg, s0, m0, v));
    }
    v
}

fn run_rot_r<'a, M: Machine>(env: &mut Environment<'a, M>, r: Reg8, dir: ShiftDir, mode: ShiftMode, fast: bool, indexed: bool) -> (v: u8)
    ensures
        executed(Action::RotR(r, dir, mode, fast, indexed), *old(env).state, *old(env).sys, *final(env).state, *final(env).sys, v),
        final(env).state.instructions_executed == old(env).state.instructions_executed,
        *final(final(env).state) == *final(old(env).state),
        *final(final(env).sys) == *final(old(env).sys),
{
    let ghost s0 = *env.state;
    let ghost m0 = *env.sys;
    crate::opcode_bits::exec_rot_r(env, r, dir, mode, fast, indexed);
    let v: u8 = 0;
    proof {
        reveal(executed);
        reveal(action_state);
        reveal(action_writes);
        reveal(rot_r_effect);
        reveal(rot_r_effect_writes);
        reveal(action_ports);
        lemma_memory_io_written(m0, *env.sys, action_writes(Action::RotR(r, dir, mode, fast, indexed), s0, m0, v));
    }
    v
}

fn run_bit_r<'a, M: Machine>(env: &mut Environment<'a, M>, n: u8, r: Reg8) -> (v: u8)
    ensures
        executed(Action::BitR(n, r), *old(env).state, *old(env).sys, *final(env).state, *final(env).sys, v),
        final(env).state.instructions_executed == old(env).state.instructions_executed,
        *final(final(env).state) == *final(old(env).state),
        *final(final(env).sys) == *final(old(env).sys),
{
    let ghost s0 = *env.state;
    let ghost m0 = *env.sys;
    crate::opcode_bits::exec_bit_r(env, n, r);
    let v: u8 = 0;
    proof {
        reveal(executed);
        reveal(action_state);
        reveal(action_writes);
        reveal(bit_r_effect);
        reveal(bit_r_effect_writes);
        reveal(action_ports);
        lemma_memory_io_written(m0, *env.sys, action_writes(Action::BitR(n, r), s0, m0, v));
    }
    v
}

fn run_set_res_r<'a, M: Machine>(env: &mut Environment<'a, M>, n: u8, r: Reg8, value: bool) -> (v: u8)
    ensures
        executed(Action::SetResR(n, r, value), *old(env).state, *old(env).sys, *final(env).state, *final(env).sys, v),
        final(env).state.instructions_executed == old(env).state.instructions_executed,
        *final(final(env).state) == *final(old(env).state),
        *final(final(env).sys) == *final(old(env).sys),
{
    let ghost s0 = *env.state;
    let ghost m0 = *env.sys;
    crate::opcode_bits::exec_set_res_r(env, n, r, value);
    let v: u8 = 0;
    proof {
        reveal(executed);
        reveal(action_state);
        reveal(action_writes);
        reveal(set_res_r_effect);
        reveal(set_res_r_effect_writes);
        reveal(action_ports);
        lemma_memory_io_written(m0, *env.sys, action_writes(Action::SetResR(n, r, value), s0, m0, v));
    }
    v
}

fn run_indexed_set_res_r<'a, M: Machine>(env: &mut Environment<'a, M>, n: u8, r: Reg8, value: bool) -> (v: u8)
    ensures
        executed(Action::IndexedSetResR(n, r, value), *old(env).state, *old(env).sys, *final(env).state, *final(env).sys, v),
        final(env).state.instructions_executed == old(env).state.instructions_executed,
        *final(final(env).state) == *final(old(env).state),
        *final(final(env).sys) == *final(old(env).sys),
{
    let ghost s0 = *env.state;
    let ghost m0 = *env.sys;
    crate::opcode_bits::exec_indexed_set_res_r(env, n, r, value);
    let v: u8 = 0;
    proof {
        reveal(executed);
        reveal(action_state);
        reveal(action_writes);
        reveal(indexed_set_res_r_effect);
        reveal(indexed_set_res_r_effect_writes);
        reveal(action_ports);
        lemma_memory_io_written(m0, *env.sys, action_writes(Action::IndexedSetResR(n, r, value), s0, m0, v));
    }
    v
}

fn run_rxd<'a, M: Machine>(env: &mut Environment<'a, M>, dir: ShiftDir) -> (v: u8)
    ensures
        executed(Action::Rxd(dir), *old(env).state, *old(env).sys, *final(env).state, *final(env).sys, v),
        final(env).state.instructions_executed == old(env).state.instructions_executed,
        *final(final(env).state) == *final(old(env).state),
        *final(final(env).sys) == *final(old(env).sys),
{
    let ghost s0 = *env.state;
    let ghost m0 = *env.sys;
    crate::opcode_bits::exec_rxd(env, dir);
    let v: u8 = 0;
    proof {
        reveal(executed);
        reveal(action_state);
        reveal(action_writes);
        reveal(rxd_effect);
        reveal(rxd_effect_writes);
        reveal(action_ports);
        lemma_memory_io_written(m0, *env.sys, action_writes(Action::Rxd(dir), s0, m0, v));
    }
    v
}

pub open spec fn is_misc_action(a: Action) -> bool {
    match a {
        Action::Nop | Action::NoniNop | Action::Unimplemented | Action::Halt | Action::PopRR(..) | Action::PushRR(..) | Action::ConfInterrupts(..) | Action::Im(..) | Action::Stmix | Action::Rsmix => true,
        _ => false,
    }
}

fn is_misc_action_exec(a: Action) -> (b: bool)
    ensures
        b == is_misc_action(a),
{
    match a {
        Action::Nop | Action::NoniNop | Action::Unimplemented | Action::Halt | Action::PopRR(..) | Action::PushRR(..) | Action::ConfInterrupts(..) | Action::Im(..) | Action::Stmix | Action::Rsmix => true,
        _ => false,
    }
}

fn run_misc<'a, M: Machine>(env: &mut Environment<'a, M>, a: Action) -> (v: u8)
    requires
        is_misc_action(a),
    ensures
        executed(a, *old(env).state, *old(env).sys, *final(env).state, *final(env).sys, v),
        final(env).state.instructions_executed == old(env).state.instructions_executed,
        *final(final(env).state) == *final(old(env).state),
        *final(final(env).sys) == *final(old(env).sys),
{
    match a {
        Action::Nop => run_nop(env),
        Action::NoniNop => run_noni_nop(env),
        Action::Unimplemented => run_unimplemented(env),
        Action::Halt => run_halt(env),
        Action::PopRR(rr) => run_pop_rr(env, rr),
        Action::PushRR(rr) => run_push_rr(env, rr),
        Action::ConfInterrupts(enable) => run_conf_interrupts(env, enable),
        Action::Im(im) => run_im(env, im),
        Action::Stmix => run_stmix(env),
        Action::Rsmix => run_rsmix(env),
        _ => {
            proof {
                assert(false);
            }
            0
        },
    }
}

pub open spec fn is_alu_action(a: Action) -> bool {
    match a {
        Action::LeaRRIndOffset(..) | Action::Pea(..) | Action::TstAR(..) | Action::TstAN | Action::OperatorAIdxOffset(..) | Action::OperatorAR(..) | Action::OperatorAN(..) | Action::CpBlock(..) | Action::MltRR(..) => true,
        _ => false,
    }
}

fn is_alu_action_exec(a: Action) -> (b: bool)
    ensures
        b == is_alu_action(a),
{
    match a {
        Action::LeaRRIndOffset(..) | Action::Pea(..) | Action::TstAR(..) | Action::TstAN | Action::OperatorAIdxOffset(..) | Action::OperatorAR(..) | Action::OperatorAN(..) | Action::CpBlock(..) | Action::MltRR(..) => true,
        _ => false,
    }
}

fn run_alu<'a, M: Machine>(env: &mut Environment<'a, M>, a: Action) -> (v: u8)
    requires
        is_alu_action(a),
    ensures
        executed(a, *old(env).state, *old(env).sys, *final(env).state, *final(env).sys, v),
        final(env).state.instructions_executed == old(env).state.instructions_executed,
        *final(final(env).state) == *final(old(env).state),
        *final(final(env).sys) == *final(old(env).sys),
{
    match a {
        Action::LeaRRIndOffset(dest, src) => run_lea_rr_ind_offset(env, dest, src),
        Action::Pea(src) => run_pea(env, src),
        Action::TstAR(reg) => run_tst_a_r(env, reg),
        Action::TstAN => run_tst_a_n(env),
        Action::OperatorAIdxOffset(idx, op) => run_operator_a_idx_offset(env, idx, op),
        Action::OperatorAR(r, op) => run_operator_a_r(env, r, op),
        Action::OperatorAN(op) => run_operator_a_n(env, op),
        Action::CpBlock(inc, repeat) => run_cp_block(env, inc, repeat),
        Action::MltRR(reg) => run_mlt_rr(env, reg),
        _ => {
            proof {
                assert(false);
            }
            0
        },
    }
}

pub open spec fn is_io_action(a: Action) -> bool {
    match a {
        Action::OutCR(..) | Action::OutC0 | Action::OutNA | Action::Out0NR(..) | Action::In0RN(..) | Action::InRC(..) | Action::In0C | Action::InAN | Action::InBlock(..) | Action::OutBlock(..) | Action::OtirxOrOtdrx(..) => true,
        _ => false,
    }
}

fn is_io_action_exec(a: Action) -> (b: bool)
    ensures
        b == is_io_action(a),
{
    match a {
        Action::OutCR(..) | Action::OutC0 | Action::OutNA | Action::Out0NR(..) | Action::In0RN(..) | Action::InRC(..) | Action::In0C | Action::InAN | Action::InBlock(..) | Action::OutBlock(..) | Action::OtirxOrOtdrx(..) => true,
        _ => false,
    }
}

fn run_io<'a, M: Machine>(env: &mut Environment<'a, M>, a: Action) -> (v: u8)
    requires
        is_io_action(a),
    ensures
        executed(a, *old(env).state, *old(env).sys, *final(env).state, *final(env).sys, v),
        final(env).state.instructions_executed == old(env).state.instructions_executed,
        *final(final(env).state) == *final(old(env).state),
        *final(final(env).sys) == *final(old(env).sys),
{
    match a {
        Action::OutCR(r) => run_out_c_r(env, r),
        Action::OutC0 => run_out_c_0(env),
        Action::OutNA => run_out_n_a(env),
        Action::Out0NR(r) => run_out0_n_r(env, r),
        Action::In0RN(r) => run_in0_r_n(env, r),
        Action::InRC(r) => run_in_r_c(env, r),
        Action::In0C => run_in_0_c(env),
        Action::InAN => run_in_a_n(env),
        Action::InBlock(inc, repeat) => run_in_block(env, inc, repeat),
        Action::OutBlock(inc, repeat) => run_out_block(env, inc, repeat),
        Action::OtirxOrOtdrx(inc) => run_otirx_or_otdrx(env, inc),
        _ => {
            proof {
                assert(false);
            }
            0
        },
    }
}

pub open spec fn is_jumps_action(a: Action) -> bool {
    match a {
        Action::Djnz | Action::JrUnconditional | Action::JrEq(..) | Action::JpUnconditional | Action::JpEq(..) | Action::JpHl | Action::Call | Action::CallEq(..) | Action::Rst(..) | Action::Ret | Action::Reti | Action::Retn | Action::RetEq(..) => true,
        _ => false,
    }
}

fn is_jumps_action_exec(a: Action) -> (b: bool)
    ensures
        b == is_jumps_action(a),
{
    match a {
        Action::Djnz | Action::JrUnconditional | Action::JrEq(..) | Action::JpUnconditional | Action::JpEq(..) | Action::JpHl | Action::Call | Action::CallEq(..) | Action::Rst(..) | Action::Ret | Action::Reti | Action::Retn | Action::RetEq(..) => true,
        _ => false,
    }
}

fn run_jumps<'a, M: Machine>(env: &mut Environment<'a, M>, a: Action) -> (v: u8)
    requires
        is_jumps_action(a),
    ensures
        executed(a, *old(env).state, *old(env).sys, *final(env).state, *final(env).sys, v),
        final(env).state.instructions_executed == old(env).state.instructions_executed,
        *final(final(env).state) == *final(old(env).state),
        *final(final(env).sys) == *final(old(env).sys),
{
    match a {
        Action::Djnz => run_djnz(env),
        Action::JrUnconditional => run_jr_unconditional(env),
        Action::JrEq(flag, value) => run_jr_eq(env, flag, value),
        Action::JpUnconditional => run_jp_unconditional(env),
        Action::JpEq(flag, value) => run_jp_eq(env, flag, value),
        Action::JpHl => run_jp_hl(env),
        Action::Call => run_call(env),
        Action::CallEq(flag, value) => run_call_eq(env, flag, value),
        Action::Rst(d) => run_rst(env, d),
        Action::Ret => run_ret(env),
        Action::Reti => run_reti(env),
        Action::Retn => run_retn(env),
        Action::RetEq(flag, value) => run_ret_eq(env, flag, value),
        _ => {
            proof {
                assert(false);
            }
            0
        },
    }
}

pub open spec fn is_ld_action(a: Action) -> bool {
    match a {
        Action::LdRR(..) | Action::LdRN(..) | Action::LdAPrr(..) | Action::LdAPnn | Action::LdPrrA(..) | Action::LdPnnA | Action::LdRRNn(..) | Action::LdSpHl | Action::LdPnnRR(..) | Action::LdRRPnn(..) | Action::ExAf | Action::Exx | Action::ExDeHl | Action::ExPspHl | Action::LdBlock(..) | Action::LdAMb | Action::LdMbA | Action::LdIdxDispRR(..) | Action::LdRRIdxDisp(..) | Action::LdRRIndHl(..) | Action::LdIndHlRR(..) => true,
        _ => false,
    }
}

fn is_ld_action_exec(a: Action) -> (b: bool)
    ensures
        b == is_ld_action(a),
{
    match a {
        Action::LdRR(..) | Action::LdRN(..) | Action::LdAPrr(..) | Action::LdAPnn | Action::LdPrrA(..) | Action::LdPnnA | Action::LdRRNn(..) | Action::LdSpHl | Action::LdPnnRR(..) | Action::LdRRPnn(..) | Action::ExAf | Action::Exx | Action::ExDeHl | Action::ExPspHl | Action::LdBlock(..) | Action::LdAMb | Action::LdMbA | Action::LdIdxDispRR(..) | Action::LdRRIdxDisp(..) | Action::LdRRIndHl(..) | Action::LdIndHlRR(..) => true,
        _ => false,
    }
}

fn run_ld<'a, M: Machine>(env: &mut Environment<'a, M>, a: Action) -> (v: u8)
    requires
        is_ld_action(a),
    ensures
        executed(a, *old(env).state, *old(env).sys, *final(env).state, *final(env).sys, v),
        final(env).state.instructions_executed == old(env).state.instructions_executed,
        *final(final(env).state) == *final(old(env).state),
        *final(final(env).sys) == *final(old(env).sys),
{
    match a {
        Action::LdRR(dst, src, flags) => run_ld_r_r(env, dst, src, flags),
        Action::LdRN(r) => run_ld_r_n(env, r),
        Action::LdAPrr(rr) => run_ld_a_prr(env, rr),
        Action::LdAPnn => run_ld_a_pnn(env),
        Action::LdPrrA(rr) => run_ld_prr_a(env, rr),
        Action::LdPnnA => run_ld_pnn_a(env),
        Action::LdRRNn(rr) => run_ld_rr_nn(env, rr),
        Action::LdSpHl => run_ld_sp_hl(env),
        Action::LdPnnRR(rr) => run_ld_pnn_rr(env, rr),
        Action::LdRRPnn(rr) => run_ld_rr_pnn(env, rr),
        Action::ExAf => run_ex_af(env),
        Action::Exx => run_exx(env),
        Action::ExDeHl => run_ex_de_hl(env),
        Action::ExPspHl => run_ex_psp_hl(env),
        Action::LdBlock(inc, repeat) => run_ld_block(env, inc, repeat),
        Action::LdAMb => run_ld_a_mb(env),
        Action::LdMbA => run_ld_mb_a(env),
        Action::LdIdxDispRR(index_reg, src) => run_ld_idx_disp_rr(env, index_reg, src),
        Action::LdRRIdxDisp(dest, index_reg) => run_ld_rr_idx_disp(env, dest, index_reg),
        Action::LdRRIndHl(dest) => run_ld_rr_ind_hl(env, dest),
        Action::LdIndHlRR(src) => run_ld_ind_hl_rr(env, src),
        _ => {
            proof {
                assert(false);
            }
            0
        },
    }
}

pub open spec fn is_arith_action(a: Action) -> bool {
    match a {
        Action::IncR(..) | Action::DecR(..) | Action::IncDecRR(..) | Action::AddHlRR(..) | Action::AdcHlRR(..) | Action::SbcHlRR(..) | Action::Daa | Action::Cpl | Action::Scf | Action::Ccf | Action::Neg => true,
        _ => false,
    }
}

fn is_arith_action_exec(a: Action) -> (b: bool)
    ensures
        b == is_arith_action(a),
{
    match a {
        Action::IncR(..) | Action::DecR(..) | Action::IncDecRR(..) | Action::AddHlRR(..) | Action::AdcHlRR(..) | Action::SbcHlRR(..) | Action::Daa | Action::Cpl | Action::Scf | Action::Ccf | Action::Neg => true,
        _ => false,
    }
}

fn run_arith<'a, M: Machine>(env: &mut Environment<'a, M>, a: Action) -> (v: u8)
    requires
        is_arith_action(a),
    ensures
        executed(a, *old(env).state, *old(env).sys, *final(env).state, *final(env).sys, v),
        final(env).state.instructions_executed == old(env).state.instructions_executed,
        *final(final(env).state) == *final(old(env).state),
        *final(final(env).sys) == *final(old(env).sys),
{
    match a {
        Action::IncR(r) => run_inc_r(env, r),
        Action::DecR(r) => run_dec_r(env, r),
        Action::IncDecRR(rr, inc) => run_inc_dec_rr(env, rr, inc),
        Action::AddHlRR(rr) => run_add_hl_rr(env, rr),
        Action::AdcHlRR(rr) => run_adc_hl_rr(env, rr),
        Action::SbcHlRR(rr) => run_sbc_hl_rr(env, rr),
        Action::Daa => run_daa(env),
        Action::Cpl => run_cpl(env),
        Action::Scf => run_scf(env),
        Action::Ccf => run_ccf(env),
        Action::Neg => run_neg(env),
        _ => {
            proof {
                assert(false);
            }
            0
        },
    }
}

pub open spec fn is_bits_action(a: Action) -> bool {
    match a {
        Action::RotR(..) | Action::BitR(..) | Action::SetResR(..) | Action::IndexedSetResR(..) | Action::Rxd(..) => true,
        _ => false,
    }
}

fn is_bits_action_exec(a: Action) -> (b: bool)
    ensures
        b == is_bits_action(a),
{
    match a {
        Action::RotR(..) | Action::BitR(..) | Action::SetResR(..) | Action::IndexedSetResR(..) | Action::Rxd(..) => true,
        _ => false,
    }
}

fn run_bits<'a, M: Machine>(env: &mut Environment<'a, M>, a: Action) -> (v: u8)
    requires
        is_bits_action(a),
    ensures
        executed(a, *old(env).state, *old(env).sys, *final(env).state, *final(env).sys, v),
        final(env).state.instructions_executed == old(env).state.instructions_executed,
        *final(final(env).state) == *final(old(env).state),
        *final(final(env).sys) == *final(old(env).sys),
{
    match a {
        Action::RotR(r, dir, mode, fast, indexed) => run_rot_r(env, r, dir, mode, fast, indexed),
        Action::BitR(n, r) => run_bit_r(env, n, r),
        Action::SetResR(n, r, value) => run_set_res_r(env, n, r, value),
        Action::IndexedSetResR(n, r, value) => run_indexed_set_res_r(env, n, r, value),
        Action::Rxd(dir) => run_rxd(env, dir),
        _ => {
            proof {
                assert(false);
            }
            0
        },
    }
}

/// Runs the action on the environment; returns the byte read from a port
/// (0 when the action reads none).
pub fn run_action<'a, M: Machine>(env: &mut Environment<'a, M>, a: Action) -> (v: u8)
    ensures
        executed(a, *old(env).state, *old(env).sys, *final(env).state, *final(env).sys, v),
        final(env).state.instructions_executed == old(env).state.instructions_executed,
        *final(final(env).state) == *final(old(env).state),
        *final(final(env).sys) == *final(old(env).sys),
{
    if is_misc_action_exec(a) {
        run_misc(env, a)
    } else if is_alu_action_exec(a) {
        run_alu(env, a)
    } else if is_io_action_exec(a) {
        run_io(env, a)
    } else if is_jumps_action_exec(a) {
        run_jumps(env, a)
    } else if is_ld_action_exec(a) {
        run_ld(env, a)
    } else if is_arith_action_exec(a) {
        run_arith(env, a)
    } else {
        run_bits(env, a)
    }
}

} // verus!
