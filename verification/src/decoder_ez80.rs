use vstd::prelude::*;

use crate::environment::{Environment, advance_pc_spec};
use crate::machine::Machine;
use crate::opcode::{Action, Opcode, ShiftDir, ShiftMode, is_op};
use crate::operators::Operator;
use crate::registers::{Flag, Reg16, Reg8};
use crate::state::{SizePrefix, State};
use crate::opcode::{build_conf_interrupts, build_halt, build_im, build_log_unimplemented, build_noni_nop, build_nop, build_pop_rr, build_push_rr, build_rsmix, build_stmix};
use crate::opcode_alu::{build_cp_block, build_lea_rr_ind_offset, build_mlt_rr, build_operator_a_idx_offset, build_operator_a_n, build_operator_a_r, build_pea, build_tst_a_n, build_tst_a_r};
use crate::opcode_arith::{build_adc_hl_rr, build_add_hl_rr, build_ccf, build_cpl, build_daa, build_dec_r, build_inc_dec_rr, build_inc_r, build_neg, build_sbc_hl_rr, build_scf};
use crate::opcode_bits::{build_bit_r, build_indexed_set_res_r, build_rot_r, build_rxd, build_set_res_r};
use crate::opcode_io::{build_in0_r_n, build_in_0_c, build_in_a_n, build_in_block, build_in_r_c, build_otirx_or_otdrx, build_out0_n_r, build_out_block, build_out_c_0, build_out_c_r, build_out_n_a};
use crate::opcode_jumps::{build_call, build_call_eq, build_djnz, build_jp_eq, build_jp_hl, build_jp_unconditional, build_jr_eq, build_jr_unconditional, build_ret, build_ret_eq, build_reti, build_retn, build_rst};
use crate::opcode_ld::{build_ex_af, build_ex_de_hl, build_ex_psp_hl, build_exx, build_ld_a_mb, build_ld_a_pnn, build_ld_a_prr, build_ld_block, build_ld_idx_disp_rr, build_ld_ind_hl_rr, build_ld_mb_a, build_ld_pnn_a, build_ld_pnn_rr, build_ld_prr_a, build_ld_r_n, build_ld_r_r, build_ld_rr_idx_disp, build_ld_rr_ind_hl, build_ld_rr_nn, build_ld_rr_pnn, build_ld_sp_hl};
verus! {

/* See
    http://www.z80.info/decoding.htm
    http://clrhome.org/table/
    http://z80-heaven.wikidot.com/instructions-set
*/

/// The parts of an opcode byte, in the notation of the decoding tables:
/// `x` is bits 7-6, `y` bits 5-3, `z` bits 2-0, `p` bits 5-4 and `q` bit 3.
pub struct DecodingHelper {
    pub x: usize,
    pub y: usize,
    pub z: usize,
    pub p: usize,
    pub q: usize,
}

impl DecodingHelper {
    pub open spec fn wf(&self) -> bool {
        &&& self.x < 4
        &&& self.y < 8
        &&& self.z < 8
        &&& self.p < 4
        &&& self.q < 2
        &&& self.p == self.y / 2
        &&& self.q == self.y % 2
    }

    /// The parts of `code`.
    pub open spec fn parts_spec(code: u8) -> DecodingHelper {
        DecodingHelper {
            x: (code / 64) as usize,
            y: (code / 8 % 8) as usize,
            z: (code % 8) as usize,
            p: (code / 16 % 4) as usize,
            q: (code / 8 % 2) as usize,
        }
    }

    /// Splits an opcode byte into its parts.
    pub fn parts(code: u8) -> (p: DecodingHelper)
        ensures
            p == Self::parts_spec(code),
            p.wf(),
    {
        assert((code >> 6u8) == code / 64 && ((code >> 3u8) & 7) == code / 8 % 8 && (code & 7) == code % 8
            && ((code >> 4u8) & 3) == code / 16 % 4 && ((code >> 3u8) & 1) == code / 8 % 2) by (bit_vector);
        DecodingHelper {
            x: (code >> 6u8) as usize,
            y: ((code >> 3u8) & 7) as usize,
            z: (code & 7) as usize,
            p: ((code >> 4u8) & 3) as usize,
            q: ((code >> 3u8) & 1) as usize,
        }
    }
}

/// The parts of an opcode byte give it back: `x`, `y` and `z` are its
/// fields, and `p` and `q` split `y`.
pub proof fn lemma_parts_reconstruct(code: u8)
    ensures
        ({
            let p = DecodingHelper::parts_spec(code);
            &&& p.x * 64 + p.y * 8 + p.z == code
            &&& p.p * 2 + p.q == p.y
            &&& p.wf()
        }),
{
    assert((code / 64) * 64 + (code / 8 % 8) * 8 + code % 8 == code && (code / 16 % 4) * 2 + code / 8 % 2
        == code / 8 % 8) by (bit_vector);
}

// The operand tables of the decoding notation.

pub open spec fn r_spec(i: int) -> Reg8 {
    if i == 0 {
        Reg8::B
    } else if i == 1 {
        Reg8::C
    } else if i == 2 {
        Reg8::D
    } else if i == 3 {
        Reg8::E
    } else if i == 4 {
        Reg8::H
    } else if i == 5 {
        Reg8::L
    } else if i == 6 {
        Reg8::_HL
    } else {
        Reg8::A
    }
}

fn r_table(i: usize) -> (r: Reg8)
    requires
        i < 8,
    ensures
        r == r_spec(i as int),
{
    match i {
        0 => Reg8::B,
        1 => Reg8::C,
        2 => Reg8::D,
        3 => Reg8::E,
        4 => Reg8::H,
        5 => Reg8::L,
        6 => Reg8::_HL,
        _ => Reg8::A,
    }
}

pub open spec fn rp_spec(i: int) -> Reg16 {
    if i == 0 {
        Reg16::BC
    } else if i == 1 {
        Reg16::DE
    } else if i == 2 {
        Reg16::HL
    } else {
        Reg16::SP
    }
}

fn rp_table(i: usize) -> (r: Reg16)
    requires
        i < 4,
    ensures
        r == rp_spec(i as int),
{
    match i {
        0 => Reg16::BC,
        1 => Reg16::DE,
        2 => Reg16::HL,
        _ => Reg16::SP,
    }
}

pub open spec fn rp2_spec(i: int) -> Reg16 {
    if i == 0 {
        Reg16::BC
    } else if i == 1 {
        Reg16::DE
    } else if i == 2 {
        Reg16::HL
    } else {
        Reg16::AF
    }
}

fn rp2_table(i: usize) -> (r: Reg16)
    requires
        i < 4,
    ensures
        r == rp2_spec(i as int),
{
    match i {
        0 => Reg16::BC,
        1 => Reg16::DE,
        2 => Reg16::HL,
        _ => Reg16::AF,
    }
}

pub open spec fn im_spec(i: int) -> u8 {
    if i == 2 || i == 6 {
        1
    } else if i == 3 || i == 7 {
        2
    } else {
        0
    }
}

fn im_table(i: usize) -> (r: u8)
    requires
        i < 8,
    ensures
        r == im_spec(i as int),
{
    match i {
        2 | 6 => 1,
        3 | 7 => 2,
        _ => 0,
    }
}

pub open spec fn cc_spec(i: int) -> (Flag, bool, Seq<char>) {
    if i == 0 {
        (Flag::Z, false, "NZ"@)
    } else if i == 1 {
        (Flag::Z, true, "Z"@)
    } else if i == 2 {
        (Flag::C, false, "NC"@)
    } else if i == 3 {
        (Flag::C, true, "C"@)
    } else if i == 4 {
        (Flag::P, false, "PO"@)
    } else if i == 5 {
        (Flag::P, true, "PE"@)
    } else if i == 6 {
        (Flag::S, false, "P"@)
    } else {
        (Flag::S, true, "M"@)
    }
}

fn cc_table(i: usize) -> (r: (Flag, bool, &'static str))
    requires
        i < 8,
    ensures
        (r.0, r.1, r.2@) == cc_spec(i as int),
{
    match i {
        0 => (Flag::Z, false, "NZ"),
        1 => (Flag::Z, true, "Z"),
        2 => (Flag::C, false, "NC"),
        3 => (Flag::C, true, "C"),
        4 => (Flag::P, false, "PO"),
        5 => (Flag::P, true, "PE"),
        6 => (Flag::S, false, "P"),
        _ => (Flag::S, true, "M"),
    }
}

pub open spec fn rot_spec(i: int) -> (ShiftDir, ShiftMode, Seq<char>) {
    if i == 0 {
        (ShiftDir::Left, ShiftMode::RotateCarry, "RLC"@)
    } else if i == 1 {
        (ShiftDir::Right, ShiftMode::RotateCarry, "RRC"@)
    } else if i == 2 {
        (ShiftDir::Left, ShiftMode::Rotate, "RL"@)
    } else if i == 3 {
        (ShiftDir::Right, ShiftMode::Rotate, "RR"@)
    } else if i == 4 {
        (ShiftDir::Left, ShiftMode::Arithmetic, "SLA"@)
    } else if i == 5 {
        (ShiftDir::Right, ShiftMode::Arithmetic, "SRA"@)
    } else if i == 6 {
        (ShiftDir::Left, ShiftMode::Logical, "SLL"@)
    } else {
        (ShiftDir::Right, ShiftMode::Logical, "SRL"@)
    }
}

fn rot_table(i: usize) -> (r: (ShiftDir, ShiftMode, &'static str))
    requires
        i < 8,
    ensures
        (r.0, r.1, r.2@) == rot_spec(i as int),
{
    match i {
        0 => (ShiftDir::Left, ShiftMode::RotateCarry, "RLC"),
        1 => (ShiftDir::Right, ShiftMode::RotateCarry, "RRC"),
        2 => (ShiftDir::Left, ShiftMode::Rotate, "RL"),
        3 => (ShiftDir::Right, ShiftMode::Rotate, "RR"),
        4 => (ShiftDir::Left, ShiftMode::Arithmetic, "SLA"),
        5 => (ShiftDir::Right, ShiftMode::Arithmetic, "SRA"),
        6 => (ShiftDir::Left, ShiftMode::Logical, "SLL"),
        _ => (ShiftDir::Right, ShiftMode::Logical, "SRL"),
    }
}

pub open spec fn alu_entry(i: int) -> (Operator, Seq<char>) {
    if i == 0 {
        (Operator::Add, "ADD"@)
    } else if i == 1 {
        (Operator::Adc, "ADC"@)
    } else if i == 2 {
        (Operator::Sub, "SUB"@)
    } else if i == 3 {
        (Operator::Sbc, "SBC"@)
    } else if i == 4 {
        (Operator::And, "AND"@)
    } else if i == 5 {
        (Operator::Xor, "XOR"@)
    } else if i == 6 {
        (Operator::Or, "OR"@)
    } else {
        (Operator::Cp, "CP"@)
    }
}

fn alu_table(i: usize) -> (r: (Operator, &'static str))
    requires
        i < 8,
    ensures
        (r.0, r.1@) == alu_entry(i as int),
{
    match i {
        0 => (Operator::Add, "ADD"),
        1 => (Operator::Adc, "ADC"),
        2 => (Operator::Sub, "SUB"),
        3 => (Operator::Sbc, "SBC"),
        4 => (Operator::And, "AND"),
        5 => (Operator::Xor, "XOR"),
        6 => (Operator::Or, "OR"),
        _ => (Operator::Cp, "CP"),
    }
}

/// The block instructions: increment, repeat and the mnemonic's ending.
pub open spec fn bli_spec(i: int) -> (bool, bool, Seq<char>) {
    if i == 0 {
        (true, false, "I"@)
    } else if i == 1 {
        (false, false, "D"@)
    } else if i == 2 {
        (true, true, "IR"@)
    } else {
        (false, true, "DR"@)
    }
}

fn bli_table(i: usize) -> (r: (bool, bool, &'static str))
    requires
        i < 4,
    ensures
        (r.0, r.1, r.2@) == bli_spec(i as int),
{
    match i {
        0 => (true, false, "I"),
        1 => (false, false, "D"),
        2 => (true, true, "IR"),
        _ => (false, true, "DR"),
    }
}

/// An optional opcode with the given optional action and name.
pub open spec fn opt_is(o: Option<Opcode>, s: Option<(Action, Seq<char>)>) -> bool {
    match o {
        Some(op) => s is Some && is_op(op, s->0),
        None => s is None,
    }
}

// The decoding tables

pub open spec fn no_prefix_x0_spec(p: DecodingHelper) -> Option<(Action, Seq<char>)> {
    match p.z {
        0 => match p.y {
            0 => Some(crate::opcode::nop_op()),
            1 => Some(crate::opcode_ld::ex_af_op()),
            2 => Some(crate::opcode_jumps::djnz_op()),
            3 => Some(crate::opcode_jumps::jr_unconditional_op()),
            _ => Some(crate::opcode_jumps::jr_eq_op(cc_spec((p.y - 4) as int))),
        },
        1 => match p.q {
            0 => Some(crate::opcode_ld::ld_rr_nn_op(rp_spec((p.p) as int))),
            _ => Some(crate::opcode_arith::add_hl_rr_op(rp_spec((p.p) as int))),
        },
        2 => match p.q {
            0 => match p.p {
                0 => Some(crate::opcode_ld::ld_prr_a_op(Reg16::BC)),
                1 => Some(crate::opcode_ld::ld_prr_a_op(Reg16::DE)),
                2 => Some(crate::opcode_ld::ld_pnn_rr_op(Reg16::HL, true)),
                _ => Some(crate::opcode_ld::ld_pnn_a_op()),
            },
            _ => match p.p {
                0 => Some(crate::opcode_ld::ld_a_prr_op(Reg16::BC)),
                1 => Some(crate::opcode_ld::ld_a_prr_op(Reg16::DE)),
                2 => Some(crate::opcode_ld::ld_rr_pnn_op(Reg16::HL, true)),
                _ => Some(crate::opcode_ld::ld_a_pnn_op()),
            },
        },
        3 => match p.q {
            0 => Some(crate::opcode_arith::inc_dec_rr_op(rp_spec((p.p) as int), true)),
            _ => Some(crate::opcode_arith::inc_dec_rr_op(rp_spec((p.p) as int), false)),
        },
        4 => Some(crate::opcode_arith::inc_r_op(r_spec((p.y) as int))),
        5 => Some(crate::opcode_arith::dec_r_op(r_spec((p.y) as int))),
        6 => Some(crate::opcode_ld::ld_r_n_op(r_spec((p.y) as int))),
        _ => match p.y {
            0 | 1 | 2 | 3 => Some(crate::opcode_bits::rot_r_op(Reg8::A, rot_spec((p.y) as int), true, false)),
            4 => Some(crate::opcode_arith::daa_op()),
            5 => Some(crate::opcode_arith::cpl_op()),
            6 => Some(crate::opcode_arith::scf_op()),
            _ => Some(crate::opcode_arith::ccf_op()),
        },
    }
}

pub open spec fn no_prefix_x1_spec(p: DecodingHelper) -> Option<(Action, Seq<char>)> {
    if p.z == 6 && p.y == 6 {
        Some(crate::opcode::halt_op())
    } else {
        Some(crate::opcode_ld::ld_r_r_op(r_spec((p.y) as int), r_spec((p.z) as int), false))
    }
}

pub open spec fn no_prefix_x2_spec(p: DecodingHelper) -> Option<(Action, Seq<char>)> {
    Some(crate::opcode_alu::operator_a_r_op(r_spec((p.z) as int), alu_entry((p.y) as int)))
}

pub open spec fn no_prefix_x3_spec(p: DecodingHelper) -> Option<(Action, Seq<char>)> {
    match p.z {
        0 => Some(crate::opcode_jumps::ret_eq_op(cc_spec((p.y) as int))),
        1 => match p.q {
            0 => Some(crate::opcode::pop_rr_op(rp2_spec((p.p) as int))),
            _ => match p.p {
                0 => Some(crate::opcode_jumps::ret_op()),
                1 => Some(crate::opcode_ld::exx_op()),
                2 => Some(crate::opcode_jumps::jp_hl_op()),
                _ => Some(crate::opcode_ld::ld_sp_hl_op()),
            },
        },
        2 => Some(crate::opcode_jumps::jp_eq_op(cc_spec((p.y) as int))),
        3 => match p.y {
            0 => Some(crate::opcode_jumps::jp_unconditional_op()),
            1 => None,
            2 => Some(crate::opcode_io::out_n_a_op()),
            3 => Some(crate::opcode_io::in_a_n_op()),
            4 => Some(crate::opcode_ld::ex_psp_hl_op()),
            5 => Some(crate::opcode_ld::ex_de_hl_op()),
            6 => Some(crate::opcode::conf_interrupts_op(false)),
            _ => Some(crate::opcode::conf_interrupts_op(true)),
        },
        4 => Some(crate::opcode_jumps::call_eq_op(cc_spec((p.y) as int))),
        5 => match p.q {
            0 => Some(crate::opcode::push_rr_op(rp2_spec((p.p) as int))),
            _ => match p.p {
                0 => Some(crate::opcode_jumps::call_op()),
                _ => None,
            },
        },
        6 => Some(crate::opcode_alu::operator_a_n_op(alu_entry((p.y) as int))),
        _ => Some(crate::opcode_jumps::rst_op((p.y * 8) as u8)),
    }
}

pub open spec fn cb_parts_spec(p: DecodingHelper) -> Option<(Action, Seq<char>)> {
    match p.x {
        0 => Some(crate::opcode_bits::rot_r_op(r_spec((p.z) as int), rot_spec((p.y) as int), false, false)),
        1 => Some(crate::opcode_bits::bit_r_op(p.y as u8, r_spec((p.z) as int))),
        2 => Some(crate::opcode_bits::set_res_r_op(p.y as u8, r_spec((p.z) as int), false)),
        _ => Some(crate::opcode_bits::set_res_r_op(p.y as u8, r_spec((p.z) as int), true)),
    }
}

pub open spec fn cb_indexed_parts_spec(p: DecodingHelper) -> Option<(Action, Seq<char>)> {
    match p.x {
        0 => Some(crate::opcode_bits::rot_r_op(r_spec((p.z) as int), rot_spec((p.y) as int), false, true)),
        1 => Some(crate::opcode_bits::bit_r_op(p.y as u8, r_spec((p.z) as int))),
        2 => Some(crate::opcode_bits::indexed_set_res_r_op(p.y as u8, r_spec((p.z) as int), false)),
        _ => Some(crate::opcode_bits::indexed_set_res_r_op(p.y as u8, r_spec((p.z) as int), true)),
    }
}

pub open spec fn ed_x0_spec(p: DecodingHelper) -> Option<(Action, Seq<char>)> {
    match p.z {
        0 => match p.y {
            6 => Some(crate::opcode::noni_nop_op()),
            _ => Some(crate::opcode_io::in0_r_n_op(r_spec((p.y) as int))),
        },
        1 => match p.y {
            6 => Some(crate::opcode_ld::ld_rr_ind_hl_op(Reg16::IY)),
            _ => Some(crate::opcode_io::out0_n_r_op(r_spec((p.y) as int))),
        },
        2 => match p.p {
            0 | 1 | 2 => Some(crate::opcode_alu::lea_rr_ind_offset_op(rp_spec((p.p) as int), Reg16::IX)),
            _ => Some(crate::opcode_alu::lea_rr_ind_offset_op(Reg16::IX, Reg16::IX)),
        },
        3 => match p.p {
            0 | 1 | 2 => Some(crate::opcode_alu::lea_rr_ind_offset_op(rp_spec((p.p) as int), Reg16::IY)),
            _ => Some(crate::opcode_alu::lea_rr_ind_offset_op(Reg16::IY, Reg16::IY)),
        },
        4 => Some(crate::opcode_alu::tst_a_r_op(r_spec((p.y) as int))),
        6 => match p.y {
            7 => Some(crate::opcode_ld::ld_ind_hl_rr_op(Reg16::IY)),
            _ => Some(crate::opcode::noni_nop_op()),
        },
        7 => match p.y {
            0 | 2 | 4 => Some(crate::opcode_ld::ld_rr_ind_hl_op(rp_spec((p.p) as int))),
            1 | 3 | 5 => Some(crate::opcode_ld::ld_ind_hl_rr_op(rp_spec((p.p) as int))),
            6 => Some(crate::opcode_ld::ld_rr_ind_hl_op(Reg16::IX)),
            _ => Some(crate::opcode_ld::ld_ind_hl_rr_op(Reg16::IX)),
        },
        _ => Some(crate::opcode::noni_nop_op()),
    }
}

pub open spec fn ed_x1_spec(p: DecodingHelper) -> Option<(Action, Seq<char>)> {
    match p.z {
        0 => match p.y {
            6 => Some(crate::opcode_io::in_0_c_op()),
            _ => Some(crate::opcode_io::in_r_c_op(r_spec((p.y) as int))),
        },
        1 => match p.y {
            6 => Some(crate::opcode_io::out_c_0_op()),
            _ => Some(crate::opcode_io::out_c_r_op(r_spec((p.y) as int))),
        },
        2 => match p.q {
            0 => Some(crate::opcode_arith::sbc_hl_rr_op(rp_spec((p.p) as int))),
            _ => Some(crate::opcode_arith::adc_hl_rr_op(rp_spec((p.p) as int))),
        },
        3 => match p.q {
            0 => Some(crate::opcode_ld::ld_pnn_rr_op(rp_spec((p.p) as int), false)),
            _ => Some(crate::opcode_ld::ld_rr_pnn_op(rp_spec((p.p) as int), false)),
        },
        4 => match p.y {
            1 | 3 | 5 | 7 => Some(crate::opcode_alu::mlt_rr_op(rp_spec((p.p) as int))),
            2 => Some(crate::opcode_alu::lea_rr_ind_offset_op(Reg16::IX, Reg16::IY)),
            4 => Some(crate::opcode_alu::tst_a_n_op()),
            6 => Some(crate::opcode::log_unimplemented_op("0x74: TSTIO n"@)),
            _ => Some(crate::opcode_arith::neg_op()),
        },
        5 => match p.y {
            1 => Some(crate::opcode_jumps::reti_op()),
            2 => Some(crate::opcode_alu::lea_rr_ind_offset_op(Reg16::IY, Reg16::IX)),
            4 => Some(crate::opcode_alu::pea_op(Reg16::IX)),
            5 => Some(crate::opcode_ld::ld_mb_a_op()),
            7 => Some(crate::opcode::stmix_op()),
            _ => Some(crate::opcode_jumps::retn_op()),
        },
        6 => match p.y {
            4 => Some(crate::opcode_alu::pea_op(Reg16::IY)),
            5 => Some(crate::opcode_ld::ld_a_mb_op()),
            6 => Some(crate::opcode::log_unimplemented_op("SLP"@)),
            7 => Some(crate::opcode::rsmix_op()),
            _ => Some(crate::opcode::im_op(im_spec((p.y) as int))),
        },
        _ => match p.y {
            0 => Some(crate::opcode_ld::ld_r_r_op(Reg8::I, Reg8::A, true)),
            1 => Some(crate::opcode_ld::ld_r_r_op(Reg8::R, Reg8::A, true)),
            2 => Some(crate::opcode_ld::ld_r_r_op(Reg8::A, Reg8::I, true)),
            3 => Some(crate::opcode_ld::ld_r_r_op(Reg8::A, Reg8::R, true)),
            4 => Some(crate::opcode_bits::rxd_op(ShiftDir::Right, "RRD"@)),
            5 => Some(crate::opcode_bits::rxd_op(ShiftDir::Left, "RLD"@)),
            _ => Some(crate::opcode::nop_op()),
        },
    }
}

pub open spec fn ed_x2_spec(p: DecodingHelper) -> Option<(Action, Seq<char>)> {
    if p.z <= 3 && p.y >= 4 {
        match p.z {
            0 => Some(crate::opcode_ld::ld_block_op(bli_spec(p.y - 4).0, bli_spec(p.y - 4).1, bli_spec(p.y - 4).2)),
            1 => Some(crate::opcode_alu::cp_block_op(bli_spec(p.y - 4).0, bli_spec(p.y - 4).1, bli_spec(p.y - 4).2)),
            2 => Some(crate::opcode_io::in_block_op(bli_spec(p.y - 4).0, bli_spec(p.y - 4).1, bli_spec(p.y - 4).2)),
            _ => Some(crate::opcode_io::out_block_op(bli_spec(p.y - 4).0, bli_spec(p.y - 4).1, bli_spec(p.y - 4).2)),
        }
    } else if p.z == 3 {
        match p.y {
            0 => Some(crate::opcode::log_unimplemented_op("OTIM"@)),
            1 => Some(crate::opcode::log_unimplemented_op("OTDM"@)),
            2 => Some(crate::opcode::log_unimplemented_op("OTIMR"@)),
            3 => Some(crate::opcode::log_unimplemented_op("OTDMR"@)),
            _ => Some(crate::opcode::noni_nop_op()),
        }
    } else if p.z == 4 {
        match p.y {
            0 => Some(crate::opcode::log_unimplemented_op("INI2"@)),
            1 => Some(crate::opcode::log_unimplemented_op("IND2"@)),
            2 => Some(crate::opcode::log_unimplemented_op("INI2R"@)),
            3 => Some(crate::opcode::log_unimplemented_op("IND2R"@)),
            4 => Some(crate::opcode::log_unimplemented_op("OUTI2"@)),
            5 => Some(crate::opcode::log_unimplemented_op("OUTD2"@)),
            6 => Some(crate::opcode::log_unimplemented_op("OUTI2R"@)),
            _ => Some(crate::opcode::log_unimplemented_op("OTD2R"@)),
        }
    } else {
        Some(crate::opcode::noni_nop_op())
    }
}

pub open spec fn ed_x3_spec(p: DecodingHelper) -> Option<(Action, Seq<char>)> {
    match p.z {
        2 => match p.y {
            0 => Some(crate::opcode::log_unimplemented_op("INIRX"@)),
            1 => Some(crate::opcode::log_unimplemented_op("INDRX"@)),
            _ => Some(crate::opcode::noni_nop_op()),
        },
        3 => match p.y {
            0 => Some(crate::opcode_io::otirx_or_otdrx_op(true)),
            1 => Some(crate::opcode_io::otirx_or_otdrx_op(false)),
            _ => Some(crate::opcode::noni_nop_op()),
        },
        7 => match p.y {
            0 => Some(crate::opcode::log_unimplemented_op("ld i,hl"@)),
            2 => Some(crate::opcode::log_unimplemented_op("ld hl,i"@)),
            _ => Some(crate::opcode::noni_nop_op()),
        },
        _ => Some(crate::opcode::noni_nop_op()),
    }
}

pub open spec fn dd_spec(c: u8) -> Option<(Action, Seq<char>)> {
    match c {
        0x07 => Some(crate::opcode_ld::ld_rr_idx_disp_op(Reg16::BC, Reg16::IX)),
        0x0f => Some(crate::opcode_ld::ld_idx_disp_rr_op(Reg16::IX, Reg16::BC)),
        0x17 => Some(crate::opcode_ld::ld_rr_idx_disp_op(Reg16::DE, Reg16::IX)),
        0x1f => Some(crate::opcode_ld::ld_idx_disp_rr_op(Reg16::IX, Reg16::DE)),
        0x27 => Some(crate::opcode_ld::ld_rr_idx_disp_op(Reg16::HL, Reg16::IX)),
        0x2f => Some(crate::opcode_ld::ld_idx_disp_rr_op(Reg16::IX, Reg16::HL)),
        0x31 => Some(crate::opcode_ld::ld_rr_idx_disp_op(Reg16::IY, Reg16::IX)),
        0x37 => Some(crate::opcode_ld::ld_rr_idx_disp_op(Reg16::IX, Reg16::IX)),
        0x3e => Some(crate::opcode_ld::ld_idx_disp_rr_op(Reg16::IX, Reg16::IY)),
        0x3f => Some(crate::opcode_ld::ld_idx_disp_rr_op(Reg16::IX, Reg16::IX)),
        0x86 => Some(crate::opcode_alu::operator_a_idx_offset_op(Reg16::IX, (Operator::Add, "ADD"@))),
        0x8e => Some(crate::opcode_alu::operator_a_idx_offset_op(Reg16::IX, (Operator::Adc, "ADC"@))),
        0x96 => Some(crate::opcode_alu::operator_a_idx_offset_op(Reg16::IX, (Operator::Sub, "SUB"@))),
        0x9e => Some(crate::opcode_alu::operator_a_idx_offset_op(Reg16::IX, (Operator::Sbc, "SBC"@))),
        0xa6 => Some(crate::opcode_alu::operator_a_idx_offset_op(Reg16::IX, (Operator::And, "AND"@))),
        0xae => Some(crate::opcode_alu::operator_a_idx_offset_op(Reg16::IX, (Operator::Xor, "XOR"@))),
        0xb6 => Some(crate::opcode_alu::operator_a_idx_offset_op(Reg16::IX, (Operator::Or, "OR"@))),
        0xbe => Some(crate::opcode_alu::operator_a_idx_offset_op(Reg16::IX, (Operator::Cp, "CP"@))),
        _ => None,
    }
}

pub open spec fn fd_spec(c: u8) -> Option<(Action, Seq<char>)> {
    match c {
        0x07 => Some(crate::opcode_ld::ld_rr_idx_disp_op(Reg16::BC, Reg16::IY)),
        0x0f => Some(crate::opcode_ld::ld_idx_disp_rr_op(Reg16::IY, Reg16::BC)),
        0x17 => Some(crate::opcode_ld::ld_rr_idx_disp_op(Reg16::DE, Reg16::IY)),
        0x1f => Some(crate::opcode_ld::ld_idx_disp_rr_op(Reg16::IY, Reg16::DE)),
        0x27 => Some(crate::opcode_ld::ld_rr_idx_disp_op(Reg16::HL, Reg16::IY)),
        0x2f => Some(crate::opcode_ld::ld_idx_disp_rr_op(Reg16::IY, Reg16::HL)),
        0x31 => Some(crate::opcode_ld::ld_rr_idx_disp_op(Reg16::IX, Reg16::IY)),
        0x37 => Some(crate::opcode_ld::ld_rr_idx_disp_op(Reg16::IY, Reg16::IY)),
        0x3e => Some(crate::opcode_ld::ld_idx_disp_rr_op(Reg16::IY, Reg16::IX)),
        0x3f => Some(crate::opcode_ld::ld_idx_disp_rr_op(Reg16::IY, Reg16::IY)),
        0x86 => Some(crate::opcode_alu::operator_a_idx_offset_op(Reg16::IY, (Operator::Add, "ADD"@))),
        0x8e => Some(crate::opcode_alu::operator_a_idx_offset_op(Reg16::IY, (Operator::Adc, "ADC"@))),
        0x96 => Some(crate::opcode_alu::operator_a_idx_offset_op(Reg16::IY, (Operator::Sub, "SUB"@))),
        0x9e => Some(crate::opcode_alu::operator_a_idx_offset_op(Reg16::IY, (Operator::Sbc, "SBC"@))),
        0xa6 => Some(crate::opcode_alu::operator_a_idx_offset_op(Reg16::IY, (Operator::And, "ADD"@))),
        0xae => Some(crate::opcode_alu::operator_a_idx_offset_op(Reg16::IY, (Operator::Xor, "XOR"@))),
        0xb6 => Some(crate::opcode_alu::operator_a_idx_offset_op(Reg16::IY, (Operator::Or, "OR"@))),
        0xbe => Some(crate::opcode_alu::operator_a_idx_offset_op(Reg16::IY, (Operator::Cp, "CP"@))),
        _ => None,
    }
}

fn no_prefix_x0_opcode(p: &DecodingHelper) -> (o: Option<Opcode>)
    requires
        p.wf(),
    ensures
        opt_is(o, no_prefix_x0_spec(*p)),
{
    match p.z {
        0 => match p.y {
            0 => Some(build_nop()),
            1 => Some(build_ex_af()),
            2 => Some(build_djnz()),
            3 => Some(build_jr_unconditional()),
            _ => Some(build_jr_eq(cc_table(p.y - 4))),
        },
        1 => match p.q {
            0 => Some(build_ld_rr_nn(rp_table(p.p))),
            _ => Some(build_add_hl_rr(rp_table(p.p))),
        },
        2 => match p.q {
            0 => match p.p {
                0 => Some(build_ld_prr_a(Reg16::BC)),
                1 => Some(build_ld_prr_a(Reg16::DE)),
                2 => Some(build_ld_pnn_rr(Reg16::HL, true)),
                _ => Some(build_ld_pnn_a()),
            },
            _ => match p.p {
                0 => Some(build_ld_a_prr(Reg16::BC)),
                1 => Some(build_ld_a_prr(Reg16::DE)),
                2 => Some(build_ld_rr_pnn(Reg16::HL, true)),
                _ => Some(build_ld_a_pnn()),
            },
        },
        3 => match p.q {
            0 => Some(build_inc_dec_rr(rp_table(p.p), true)),
            _ => Some(build_inc_dec_rr(rp_table(p.p), false)),
        },
        4 => Some(build_inc_r(r_table(p.y))),
        5 => Some(build_dec_r(r_table(p.y))),
        6 => Some(build_ld_r_n(r_table(p.y))),
        _ => match p.y {
            0 | 1 | 2 | 3 => Some(build_rot_r(Reg8::A, rot_table(p.y), true, false)),
            4 => Some(build_daa()),
            5 => Some(build_cpl()),
            6 => Some(build_scf()),
            _ => Some(build_ccf()),
        },
    }
}

fn no_prefix_x1_opcode(p: &DecodingHelper) -> (o: Option<Opcode>)
    requires
        p.wf(),
    ensures
        opt_is(o, no_prefix_x1_spec(*p)),
{
    if p.z == 6 && p.y == 6 {
        Some(build_halt())
    } else {
        Some(build_ld_r_r(r_table(p.y), r_table(p.z), false))
    }
}

fn no_prefix_x2_opcode(p: &DecodingHelper) -> (o: Option<Opcode>)
    requires
        p.wf(),
    ensures
        opt_is(o, no_prefix_x2_spec(*p)),
{
    Some(build_operator_a_r(r_table(p.z), alu_table(p.y)))
}

fn no_prefix_x3_opcode(p: &DecodingHelper) -> (o: Option<Opcode>)
    requires
        p.wf(),
    ensures
        opt_is(o, no_prefix_x3_spec(*p)),
{
    match p.z {
        0 => Some(build_ret_eq(cc_table(p.y))),
        1 => match p.q {
            0 => Some(build_pop_rr(rp2_table(p.p))),
            _ => match p.p {
                0 => Some(build_ret()),
                1 => Some(build_exx()),
                2 => Some(build_jp_hl()),
                _ => Some(build_ld_sp_hl()),
            },
        },
        2 => Some(build_jp_eq(cc_table(p.y))),
        3 => match p.y {
            0 => Some(build_jp_unconditional()),
            1 => None,
            2 => Some(build_out_n_a()),
            3 => Some(build_in_a_n()),
            4 => Some(build_ex_psp_hl()),
            5 => Some(build_ex_de_hl()),
            6 => Some(build_conf_interrupts(false)),
            _ => Some(build_conf_interrupts(true)),
        },
        4 => Some(build_call_eq(cc_table(p.y))),
        5 => match p.q {
            0 => Some(build_push_rr(rp2_table(p.p))),
            _ => match p.p {
                0 => Some(build_call()),
                _ => None,
            },
        },
        6 => Some(build_operator_a_n(alu_table(p.y))),
        _ => Some(build_rst(p.y as u8 * 8)),
    }
}

fn cb_parts_opcode(p: &DecodingHelper) -> (o: Option<Opcode>)
    requires
        p.wf(),
    ensures
        opt_is(o, cb_parts_spec(*p)),
{
    match p.x {
        0 => Some(build_rot_r(r_table(p.z), rot_table(p.y), false, false)),
        1 => Some(build_bit_r(p.y as u8, r_table(p.z))),
        2 => Some(build_set_res_r(p.y as u8, r_table(p.z), false)),
        _ => Some(build_set_res_r(p.y as u8, r_table(p.z), true)),
    }
}

fn cb_indexed_parts_opcode(p: &DecodingHelper) -> (o: Option<Opcode>)
    requires
        p.wf(),
    ensures
        opt_is(o, cb_indexed_parts_spec(*p)),
{
    match p.x {
        0 => Some(build_rot_r(r_table(p.z), rot_table(p.y), false, true)),
        1 => Some(build_bit_r(p.y as u8, r_table(p.z))),
        2 => Some(build_indexed_set_res_r(p.y as u8, r_table(p.z), false)),
        _ => Some(build_indexed_set_res_r(p.y as u8, r_table(p.z), true)),
    }
}

fn ed_x0_opcode(p: &DecodingHelper) -> (o: Option<Opcode>)
    requires
        p.wf(),
    ensures
        opt_is(o, ed_x0_spec(*p)),
{
    match p.z {
        0 => match p.y {
            6 => Some(build_noni_nop()),
            _ => Some(build_in0_r_n(r_table(p.y))),
        },
        1 => match p.y {
            6 => Some(build_ld_rr_ind_hl(Reg16::IY)),
            _ => Some(build_out0_n_r(r_table(p.y))),
        },
        2 => match p.p {
            0 | 1 | 2 => Some(build_lea_rr_ind_offset(rp_table(p.p), Reg16::IX)),
            _ => Some(build_lea_rr_ind_offset(Reg16::IX, Reg16::IX)),
        },
        3 => match p.p {
            0 | 1 | 2 => Some(build_lea_rr_ind_offset(rp_table(p.p), Reg16::IY)),
            _ => Some(build_lea_rr_ind_offset(Reg16::IY, Reg16::IY)),
        },
        4 => Some(build_tst_a_r(r_table(p.y))),
        6 => match p.y {
            7 => Some(build_ld_ind_hl_rr(Reg16::IY)),
            _ => Some(build_noni_nop()),
        },
        7 => match p.y {
            0 | 2 | 4 => Some(build_ld_rr_ind_hl(rp_table(p.p))),
            1 | 3 | 5 => Some(build_ld_ind_hl_rr(rp_table(p.p))),
            6 => Some(build_ld_rr_ind_hl(Reg16::IX)),
            _ => Some(build_ld_ind_hl_rr(Reg16::IX)),
        },
        _ => Some(build_noni_nop()),
    }
}

fn ed_x1_opcode(p: &DecodingHelper) -> (o: Option<Opcode>)
    requires
        p.wf(),
    ensures
        opt_is(o, ed_x1_spec(*p)),
{
    match p.z {
        0 => match p.y {
            6 => Some(build_in_0_c()),
            _ => Some(build_in_r_c(r_table(p.y))),
        },
        1 => match p.y {
            6 => Some(build_out_c_0()),
            _ => Some(build_out_c_r(r_table(p.y))),
        },
        2 => match p.q {
            0 => Some(build_sbc_hl_rr(rp_table(p.p))),
            _ => Some(build_adc_hl_rr(rp_table(p.p))),
        },
        3 => match p.q {
            0 => Some(build_ld_pnn_rr(rp_table(p.p), false)),
            _ => Some(build_ld_rr_pnn(rp_table(p.p), false)),
        },
        4 => match p.y {
            1 | 3 | 5 | 7 => Some(build_mlt_rr(rp_table(p.p))),
            2 => Some(build_lea_rr_ind_offset(Reg16::IX, Reg16::IY)),
            4 => Some(build_tst_a_n()),
            6 => Some(build_log_unimplemented("0x74: TSTIO n")),
            _ => Some(build_neg()),
        },
        5 => match p.y {
            1 => Some(build_reti()),
            2 => Some(build_lea_rr_ind_offset(Reg16::IY, Reg16::IX)),
            4 => Some(build_pea(Reg16::IX)),
            5 => Some(build_ld_mb_a()),
            7 => Some(build_stmix()),
            _ => Some(build_retn()),
        },
        6 => match p.y {
            4 => Some(build_pea(Reg16::IY)),
            5 => Some(build_ld_a_mb()),
            6 => Some(build_log_unimplemented("SLP")),
            7 => Some(build_rsmix()),
            _ => Some(build_im(im_table(p.y))),
        },
        _ => match p.y {
            0 => Some(build_ld_r_r(Reg8::I, Reg8::A, true)),
            1 => Some(build_ld_r_r(Reg8::R, Reg8::A, true)),
            2 => Some(build_ld_r_r(Reg8::A, Reg8::I, true)),
            3 => Some(build_ld_r_r(Reg8::A, Reg8::R, true)),
            4 => Some(build_rxd(ShiftDir::Right, "RRD")),
            5 => Some(build_rxd(ShiftDir::Left, "RLD")),
            _ => Some(build_nop()),
        },
    }
}

fn ed_x2_opcode(p: &DecodingHelper) -> (o: Option<Opcode>)
    requires
        p.wf(),
    ensures
        opt_is(o, ed_x2_spec(*p)),
{
    if p.z <= 3 && p.y >= 4 {
        match p.z {
            0 => Some(build_ld_block(bli_table(p.y - 4))),
            1 => Some(build_cp_block(bli_table(p.y - 4))),
            2 => Some(build_in_block(bli_table(p.y - 4))),
            _ => Some(build_out_block(bli_table(p.y - 4))),
        }
    } else if p.z == 3 {
        match p.y {
            0 => Some(build_log_unimplemented("OTIM")),
            1 => Some(build_log_unimplemented("OTDM")),
            2 => Some(build_log_unimplemented("OTIMR")),
            3 => Some(build_log_unimplemented("OTDMR")),
            _ => Some(build_noni_nop()),
        }
    } else if p.z == 4 {
        match p.y {
            0 => Some(build_log_unimplemented("INI2")),
            1 => Some(build_log_unimplemented("IND2")),
            2 => Some(build_log_unimplemented("INI2R")),
            3 => Some(build_log_unimplemented("IND2R")),
            4 => Some(build_log_unimplemented("OUTI2")),
            5 => Some(build_log_unimplemented("OUTD2")),
            6 => Some(build_log_unimplemented("OUTI2R")),
            _ => Some(build_log_unimplemented("OTD2R")),
        }
    } else {
        Some(build_noni_nop())
    }
}

fn ed_x3_opcode(p: &DecodingHelper) -> (o: Option<Opcode>)
    requires
        p.wf(),
    ensures
        opt_is(o, ed_x3_spec(*p)),
{
    match p.z {
        2 => match p.y {
            0 => Some(build_log_unimplemented("INIRX")),
            1 => Some(build_log_unimplemented("INDRX")),
            _ => Some(build_noni_nop()),
        },
        3 => match p.y {
            0 => Some(build_otirx_or_otdrx(true)),
            1 => Some(build_otirx_or_otdrx(false)),
            _ => Some(build_noni_nop()),
        },
        7 => match p.y {
            0 => Some(build_log_unimplemented("ld i,hl")),
            2 => Some(build_log_unimplemented("ld hl,i")),
            _ => Some(build_noni_nop()),
        },
        _ => Some(build_noni_nop()),
    }
}

fn dd_opcode(c: u8) -> (o: Option<Opcode>)
    ensures
        opt_is(o, dd_spec(c)),
{
    match c {
        0x07 => Some(build_ld_rr_idx_disp(Reg16::BC, Reg16::IX)),
        0x0f => Some(build_ld_idx_disp_rr(Reg16::IX, Reg16::BC)),
        0x17 => Some(build_ld_rr_idx_disp(Reg16::DE, Reg16::IX)),
        0x1f => Some(build_ld_idx_disp_rr(Reg16::IX, Reg16::DE)),
        0x27 => Some(build_ld_rr_idx_disp(Reg16::HL, Reg16::IX)),
        0x2f => Some(build_ld_idx_disp_rr(Reg16::IX, Reg16::HL)),
        0x31 => Some(build_ld_rr_idx_disp(Reg16::IY, Reg16::IX)),
        0x37 => Some(build_ld_rr_idx_disp(Reg16::IX, Reg16::IX)),
        0x3e => Some(build_ld_idx_disp_rr(Reg16::IX, Reg16::IY)),
        0x3f => Some(build_ld_idx_disp_rr(Reg16::IX, Reg16::IX)),
        0x86 => Some(build_operator_a_idx_offset(Reg16::IX, (Operator::Add, "ADD"))),
        0x8e => Some(build_operator_a_idx_offset(Reg16::IX, (Operator::Adc, "ADC"))),
        0x96 => Some(build_operator_a_idx_offset(Reg16::IX, (Operator::Sub, "SUB"))),
        0x9e => Some(build_operator_a_idx_offset(Reg16::IX, (Operator::Sbc, "SBC"))),
        0xa6 => Some(build_operator_a_idx_offset(Reg16::IX, (Operator::And, "AND"))),
        0xae => Some(build_operator_a_idx_offset(Reg16::IX, (Operator::Xor, "XOR"))),
        0xb6 => Some(build_operator_a_idx_offset(Reg16::IX, (Operator::Or, "OR"))),
        0xbe => Some(build_operator_a_idx_offset(Reg16::IX, (Operator::Cp, "CP"))),
        _ => None,
    }
}

fn fd_opcode(c: u8) -> (o: Option<Opcode>)
    ensures
        opt_is(o, fd_spec(c)),
{
    match c {
        0x07 => Some(build_ld_rr_idx_disp(Reg16::BC, Reg16::IY)),
        0x0f => Some(build_ld_idx_disp_rr(Reg16::IY, Reg16::BC)),
        0x17 => Some(build_ld_rr_idx_disp(Reg16::DE, Reg16::IY)),
        0x1f => Some(build_ld_idx_disp_rr(Reg16::IY, Reg16::DE)),
        0x27 => Some(build_ld_rr_idx_disp(Reg16::HL, Reg16::IY)),
        0x2f => Some(build_ld_idx_disp_rr(Reg16::IY, Reg16::HL)),
        0x31 => Some(build_ld_rr_idx_disp(Reg16::IX, Reg16::IY)),
        0x37 => Some(build_ld_rr_idx_disp(Reg16::IY, Reg16::IY)),
        0x3e => Some(build_ld_idx_disp_rr(Reg16::IY, Reg16::IX)),
        0x3f => Some(build_ld_idx_disp_rr(Reg16::IY, Reg16::IY)),
        0x86 => Some(build_operator_a_idx_offset(Reg16::IY, (Operator::Add, "ADD"))),
        0x8e => Some(build_operator_a_idx_offset(Reg16::IY, (Operator::Adc, "ADC"))),
        0x96 => Some(build_operator_a_idx_offset(Reg16::IY, (Operator::Sub, "SUB"))),
        0x9e => Some(build_operator_a_idx_offset(Reg16::IY, (Operator::Sbc, "SBC"))),
        0xa6 => Some(build_operator_a_idx_offset(Reg16::IY, (Operator::And, "ADD"))),
        0xae => Some(build_operator_a_idx_offset(Reg16::IY, (Operator::Xor, "XOR"))),
        0xb6 => Some(build_operator_a_idx_offset(Reg16::IY, (Operator::Or, "OR"))),
        0xbe => Some(build_operator_a_idx_offset(Reg16::IY, (Operator::Cp, "CP"))),
        _ => None,
    }
}

pub open spec fn no_prefix_spec(c: u8) -> Option<(Action, Seq<char>)> {
    let p = DecodingHelper::parts_spec(c);
    if p.x == 0 {
        no_prefix_x0_spec(p)
    } else if p.x == 1 {
        no_prefix_x1_spec(p)
    } else if p.x == 2 {
        no_prefix_x2_spec(p)
    } else {
        no_prefix_x3_spec(p)
    }
}

pub open spec fn cb_spec(c: u8) -> Option<(Action, Seq<char>)> {
    cb_parts_spec(DecodingHelper::parts_spec(c))
}

pub open spec fn cb_indexed_spec(c: u8) -> Option<(Action, Seq<char>)> {
    cb_indexed_parts_spec(DecodingHelper::parts_spec(c))
}

pub open spec fn ed_spec(c: u8) -> Option<(Action, Seq<char>)> {
    let p = DecodingHelper::parts_spec(c);
    if p.x == 0 {
        ed_x0_spec(p)
    } else if p.x == 1 {
        ed_x1_spec(p)
    } else if p.x == 2 {
        ed_x2_spec(p)
    } else {
        ed_x3_spec(p)
    }
}

fn no_prefix_opcode(c: u8) -> (o: Option<Opcode>)
    ensures
        opt_is(o, no_prefix_spec(c)),
{
    let p = DecodingHelper::parts(c);
    if p.x == 0 {
        no_prefix_x0_opcode(&p)
    } else if p.x == 1 {
        no_prefix_x1_opcode(&p)
    } else if p.x == 2 {
        no_prefix_x2_opcode(&p)
    } else {
        no_prefix_x3_opcode(&p)
    }
}

fn cb_opcode(c: u8) -> (o: Option<Opcode>)
    ensures
        opt_is(o, cb_spec(c)),
{
    let p = DecodingHelper::parts(c);
    cb_parts_opcode(&p)
}

fn cb_indexed_opcode(c: u8) -> (o: Option<Opcode>)
    ensures
        opt_is(o, cb_indexed_spec(c)),
{
    let p = DecodingHelper::parts(c);
    cb_indexed_parts_opcode(&p)
}

fn ed_opcode(c: u8) -> (o: Option<Opcode>)
    ensures
        opt_is(o, ed_spec(c)),
{
    let p = DecodingHelper::parts(c);
    if p.x == 0 {
        ed_x0_opcode(&p)
    } else if p.x == 1 {
        ed_x1_opcode(&p)
    } else if p.x == 2 {
        ed_x2_opcode(&p)
    } else {
        ed_x3_opcode(&p)
    }
}

/// Opcodes after which an index prefix reads a displacement byte.
pub open spec fn has_displacement_spec(c: u8) -> bool {
    c == 0x34 || c == 0x35 || c == 0x36 || c == 0x46 || c == 0x4e || c == 0x56 || c == 0x5e || c == 0x66
        || c == 0x6e || c == 0x70 || c == 0x71 || c == 0x72 || c == 0x73 || c == 0x74 || c == 0x75 || c
        == 0x77 || c == 0x7e || c == 0x86 || c == 0x8e || c == 0x96 || c == 0x9e || c == 0xa6 || c == 0xae
        || c == 0xb6 || c == 0xbe
}

fn has_displacement_entry(c: u8) -> (b: bool)
    ensures
        b == has_displacement_spec(c),
{
    match c {
        0x34 | 0x35 | 0x36 | 0x46 | 0x4e | 0x56 | 0x5e | 0x66 | 0x6e | 0x70 | 0x71 | 0x72 | 0x73 | 0x74
        | 0x75 | 0x77 | 0x7e | 0x86 | 0x8e | 0x96 | 0x9e | 0xa6 | 0xae | 0xb6 | 0xbe => true,
        _ => false,
    }
}

/// The opcodes that the DD and FD tables decode (the other index prefixed
/// opcodes run the plain opcode with HL standing for the index register).
pub open spec fn index_table_code(c: u8) -> bool {
    c == 0x0f || c == 0x1f || c == 0x2f || c == 0x07 || c == 0x17 || c == 0x27 || c == 0x31 || c == 0x37
        || c == 0x3e || c == 0x3f || c == 0x86 || c == 0x96 || c == 0xa6 || c == 0xb6 || c == 0x8e || c
        == 0x9e || c == 0xae || c == 0xbe
}

fn index_table_code_exec(c: u8) -> (b: bool)
    ensures
        b == index_table_code(c),
{
    match c {
        0x0f | 0x1f | 0x2f | 0x07 | 0x17 | 0x27 | 0x31 | 0x37 | 0x3e | 0x3f | 0x86 | 0x96 | 0xa6 | 0xb6
        | 0x8e | 0x9e | 0xae | 0xbe => true,
        _ => false,
    }
}

/// The decoding tables.
#[derive(Clone, Copy, Debug, PartialEq, Eq, Structural)]
pub enum DecodeTable {
    NoPrefix,
    Cb,
    CbIndexed,
    Ed,
    Dd,
    Fd,
}

/// The entry of a decoding table.
#[verifier::opaque]
pub open spec fn table_spec(t: DecodeTable, c: u8) -> Option<(Action, Seq<char>)> {
    match t {
        DecodeTable::NoPrefix => no_prefix_spec(c),
        DecodeTable::Cb => cb_spec(c),
        DecodeTable::CbIndexed => cb_indexed_spec(c),
        DecodeTable::Ed => ed_spec(c),
        DecodeTable::Dd => dd_spec(c),
        DecodeTable::Fd => fd_spec(c),
    }
}

/// Every CB, indexed CB and ED opcode has an entry; every unprefixed
/// opcode has one but the prefixes CB, DD, ED and FD; the DD and FD tables
/// hold the opcodes that they decode.
pub proof fn lemma_tables_total(c: u8)
    ensures
        table_spec(DecodeTable::Cb, c) is Some,
        table_spec(DecodeTable::CbIndexed, c) is Some,
        table_spec(DecodeTable::Ed, c) is Some,
        table_spec(DecodeTable::NoPrefix, c) is Some <==> (c != 0xcb && c != 0xdd && c != 0xed && c != 0xfd),
        table_spec(DecodeTable::Dd, c) is Some <==> index_table_code(c),
        table_spec(DecodeTable::Fd, c) is Some <==> index_table_code(c),
{
    reveal(table_spec);
    lemma_parts_reconstruct(c);
}

/// Most prefix bytes read before an opcode. Past this many every address
/// that the program counter reaches holds a prefix byte.
pub const PREFIX_LIMIT: u32 = 0x1000000;

pub open spec fn size_prefix_of(b: u8) -> Option<SizePrefix> {
    if b == 0x40 {
        Some(SizePrefix::SIS)
    } else if b == 0x49 {
        Some(SizePrefix::LIS)
    } else if b == 0x52 {
        Some(SizePrefix::SIL)
    } else if b == 0x5b {
        Some(SizePrefix::LIL)
    } else {
        None
    }
}

/// The state and the byte after reading the size prefixes that start at `b`
/// (the last one read counts).
pub open spec fn after_size_prefixes<M: Machine>(s: State, m: M, b: u8, fuel: nat) -> (State, u8)
    decreases fuel,
{
    if fuel == 0 {
        (s, b)
    } else {
        match size_prefix_of(b) {
            Some(p) => after_size_prefixes(
                advance_pc_spec(State { sz_prefix: p, ..s }),
                m,
                m.peek_spec(s.pc_spec()),
                (fuel - 1) as nat,
            ),
            None => (s, b),
        }
    }
}

pub open spec fn index_prefix_of(b: u8) -> Option<Reg16> {
    if b == 0xdd {
        Some(Reg16::IX)
    } else if b == 0xfd {
        Some(Reg16::IY)
    } else {
        None
    }
}

/// The state and the byte after reading the index prefixes that start at
/// `b` (the last one read counts).
pub open spec fn after_index_prefixes<M: Machine>(s: State, m: M, b: u8, fuel: nat) -> (State, u8)
    decreases fuel,
{
    if fuel == 0 {
        (s, b)
    } else {
        match index_prefix_of(b) {
            Some(r) => after_index_prefixes(
                advance_pc_spec(State { index: r, ..s }),
                m,
                m.peek_spec(s.pc_spec()),
                (fuel - 1) as nat,
            ),
            None => (s, b),
        }
    }
}

/// The index register is HL, IX or IY.
pub open spec fn index_ok(r: Reg16) -> bool {
    r == Reg16::HL || r == Reg16::IX || r == Reg16::IY
}

/// Decoding an instruction: the state after its prefixes, opcode and
/// displacement are read, the table that holds it and its opcode byte.
#[verifier::opaque]
pub open spec fn decode_spec<M: Machine>(suffixes: bool, s: State, m: M) -> (State, DecodeTable, u8) {
    let (s1, b1) = if suffixes {
        after_size_prefixes(advance_pc_spec(s), m, m.peek_spec(s.pc_spec()), PREFIX_LIMIT as nat)
    } else {
        (advance_pc_spec(s), m.peek_spec(s.pc_spec()))
    };
    let (s2, b) = after_index_prefixes(s1, m, b1, PREFIX_LIMIT as nat);
    if b == 0xcb {
        if s2.index != Reg16::HL {
            let s3 = State { displacement: m.peek_spec(s2.pc_spec()) as i8, ..advance_pc_spec(s2) };
            (advance_pc_spec(s3), DecodeTable::CbIndexed, m.peek_spec(s3.pc_spec()))
        } else {
            (advance_pc_spec(s2), DecodeTable::Cb, m.peek_spec(s2.pc_spec()))
        }
    } else if b == 0xed {
        let s3 = State { index: Reg16::HL, ..s2 };
        (advance_pc_spec(s3), DecodeTable::Ed, m.peek_spec(s3.pc_spec()))
    } else if index_table_code(b) && s2.index != Reg16::HL {
        (
            State { index: Reg16::HL, ..s2 },
            if s2.index == Reg16::IX {
                DecodeTable::Dd
            } else {
                DecodeTable::Fd
            },
            b,
        )
    } else if has_displacement_spec(b) && s2.index != Reg16::HL {
        (State { displacement: m.peek_spec(s2.pc_spec()) as i8, ..advance_pc_spec(s2) }, DecodeTable::NoPrefix, b)
    } else {
        (s2, DecodeTable::NoPrefix, b)
    }
}

/// A table built from an entry function holds its entries.
pub open spec fn table_holds(t: Seq<Option<Opcode>>, table: DecodeTable) -> bool {
    &&& t.len() == 256
    &&& forall|c: int| 0 <= c < 256 ==> opt_is(#[trigger] t[c], table_spec(table, c as u8))
}

fn table_entry(table: DecodeTable, c: u8) -> (o: Option<Opcode>)
    ensures
        opt_is(o, table_spec(table, c)),
{
    proof {
        reveal(table_spec);
    }
    match table {
        DecodeTable::NoPrefix => no_prefix_opcode(c),
        DecodeTable::Cb => cb_opcode(c),
        DecodeTable::CbIndexed => cb_indexed_opcode(c),
        DecodeTable::Ed => ed_opcode(c),
        DecodeTable::Dd => dd_opcode(c),
        DecodeTable::Fd => fd_opcode(c),
    }
}

fn load_table(table: DecodeTable) -> (t: Vec<Option<Opcode>>)
    ensures
        table_holds(t@, table),
{
    let mut t: Vec<Option<Opcode>> = Vec::new();
    let mut c: usize = 0;
    while c < 256
        invariant
            c <= 256,
            t@.len() == c,
            forall|i: int| 0 <= i < c ==> opt_is(#[trigger] t@[i], table_spec(table, i as u8)),
        decreases 256 - c,
    {
        t.push(table_entry(table, c as u8));
        c = c + 1;
    }
    t
}

fn load_has_displacement() -> (t: Vec<bool>)
    ensures
        t@.len() == 256,
        forall|c: int| 0 <= c < 256 ==> #[trigger] t@[c] == has_displacement_spec(c as u8),
{
    let mut t: Vec<bool> = Vec::new();
    let mut c: usize = 0;
    while c < 256
        invariant
            c <= 256,
            t@.len() == c,
            forall|i: int| 0 <= i < c ==> #[trigger] t@[i] == has_displacement_spec(i as u8),
        decreases 256 - c,
    {
        t.push(has_displacement_entry(c as u8));
        c = c + 1;
    }
    t
}

/// The eZ80 instruction decoder: one table per prefix.
pub struct DecoderEZ80 {
    no_prefix: Vec<Option<Opcode>>,
    prefix_cb: Vec<Option<Opcode>>,
    prefix_cb_indexed: Vec<Option<Opcode>>,
    prefix_ed: Vec<Option<Opcode>>,
    // prefix_dd & prefix_fd are only used for a few ez80 instructions.
    // the rest of those prefixes are handled by the environment.index hack
    prefix_dd: Vec<Option<Opcode>>,
    prefix_fd: Vec<Option<Opcode>>,
    has_displacement: Vec<bool>,
    // whether 0x40, 0x49, 0x52 and 0x5B are eZ80 size suffixes (else they
    // are the Z80 loads LD B, B, LD C, C, LD D, D and LD E, E)
    suffixes: bool,
}

impl DecoderEZ80 {
    /// Every table holds the entries of its decoding table.
    #[verifier::type_invariant]
    pub closed spec fn tables_hold(self) -> bool {
        &&& table_holds(self.no_prefix@, DecodeTable::NoPrefix)
        &&& table_holds(self.prefix_cb@, DecodeTable::Cb)
        &&& table_holds(self.prefix_cb_indexed@, DecodeTable::CbIndexed)
        &&& table_holds(self.prefix_ed@, DecodeTable::Ed)
        &&& table_holds(self.prefix_dd@, DecodeTable::Dd)
        &&& table_holds(self.prefix_fd@, DecodeTable::Fd)
        &&& self.has_displacement@.len() == 256
        &&& forall|c: int| 0 <= c < 256 ==> #[trigger] self.has_displacement@[c] == has_displacement_spec(c as u8)
    }

    /// Whether the decoder reads 0x40, 0x49, 0x52 and 0x5B as eZ80 size
    /// suffixes (.SIS, .LIS, .SIL, .LIL); without them they are loads.
    pub closed spec fn size_suffixes(self) -> bool {
        self.suffixes
    }

    /// An eZ80 decoder: its tables hold the entry of every code of every
    /// table, and it reads the size suffixes.
    pub fn new() -> (d: DecoderEZ80)
        ensures
            d.tables_hold(),
            d.size_suffixes(),
    {
        Self::with_suffixes(true)
    }

    /// A Z80 decoder: the same tables, with no size suffixes, so that
    /// 0x40, 0x49, 0x52 and 0x5B are the loads LD r, r of the Z80.
    pub fn new_z80() -> (d: DecoderEZ80)
        ensures
            d.tables_hold(),
            !d.size_suffixes(),
    {
        Self::with_suffixes(false)
    }

    fn with_suffixes(suffixes: bool) -> (d: DecoderEZ80)
        ensures
            d.tables_hold(),
            d.size_suffixes() == suffixes,
    {
        let d = DecoderEZ80 {
            no_prefix: load_table(DecodeTable::NoPrefix),
            prefix_cb: load_table(DecodeTable::Cb),
            prefix_cb_indexed: load_table(DecodeTable::CbIndexed),
            prefix_ed: load_table(DecodeTable::Ed),
            prefix_dd: load_table(DecodeTable::Dd),
            prefix_fd: load_table(DecodeTable::Fd),
            has_displacement: load_has_displacement(),
            suffixes,
        };
        proof {
            use_type_invariant(&d);
        }
        d
    }

    fn entry(&self, table: DecodeTable, c: u8) -> (r: Option<&Opcode>)
        ensures
            match r {
                Some(op) => table_spec(table, c) == Some((op.action, op.name@)),
                None => table_spec(table, c) is None,
            },
    {
        proof {
            use_type_invariant(self);
        }
        let t = match table {
            DecodeTable::NoPrefix => &self.no_prefix,
            DecodeTable::Cb => &self.prefix_cb,
            DecodeTable::CbIndexed => &self.prefix_cb_indexed,
            DecodeTable::Ed => &self.prefix_ed,
            DecodeTable::Dd => &self.prefix_dd,
            DecodeTable::Fd => &self.prefix_fd,
        };
        assert(opt_is(t@[c as int], table_spec(table, c)));
        match &t[c as usize] {
            Some(o) => Some(o),
            None => None,
        }
    }

    fn read_size_prefixes<'a, M: Machine>(env: &mut Environment<'a, M>, b: u8) -> (r: u8)
        ensures
            (*final(env).state, r) == after_size_prefixes(*old(env).state, *old(env).sys, b, PREFIX_LIMIT as nat),
            final(env).state.instructions_executed == old(env).state.instructions_executed,
            *final(env).sys == *old(env).sys,
            *final(final(env).state) == *final(old(env).state),
            *final(final(env).sys) == *final(old(env).sys),
    {
        let ghost s0 = *env.state;
        let ghost m0 = *env.sys;
        let mut b0 = b;
        let mut count: u32 = 0;
        // Process prefixes even if repeated
        while count < PREFIX_LIMIT
            invariant
                count <= PREFIX_LIMIT,
                *env.sys == m0,
                after_size_prefixes(*env.state, m0, b0, (PREFIX_LIMIT - count) as nat)
                    == after_size_prefixes(s0, m0, b, PREFIX_LIMIT as nat),
                env.state.instructions_executed == s0.instructions_executed,
                *final(env.state) == *final(old(env).state),
                *final(env.sys) == *final(old(env).sys),
            ensures
                (*env.state, b0) == after_size_prefixes(s0, m0, b, PREFIX_LIMIT as nat),
                env.state.instructions_executed == s0.instructions_executed,
                *env.sys == m0,
            decreases PREFIX_LIMIT - count,
        {
            match b0 {
                0x40 => env.state.sz_prefix = SizePrefix::SIS,
                0x49 => env.state.sz_prefix = SizePrefix::LIS,
                0x52 => env.state.sz_prefix = SizePrefix::SIL,
                0x5B => env.state.sz_prefix = SizePrefix::LIL,
                _ => break,
            }
            b0 = env.advance_pc();
            count = count + 1;
        }
        b0
    }

    fn read_index_prefixes<'a, M: Machine>(env: &mut Environment<'a, M>, b: u8) -> (r: u8)
        ensures
            (*final(env).state, r) == after_index_prefixes(*old(env).state, *old(env).sys, b, PREFIX_LIMIT as nat),
            final(env).state.instructions_executed == old(env).state.instructions_executed,
            *final(env).sys == *old(env).sys,
            *final(final(env).state) == *final(old(env).state),
            *final(final(env).sys) == *final(old(env).sys),
    {
        let ghost s0 = *env.state;
        let ghost m0 = *env.sys;
        let mut b0 = b;
        let mut count: u32 = 0;
        while count < PREFIX_LIMIT
            invariant
                count <= PREFIX_LIMIT,
                *env.sys == m0,
                after_index_prefixes(*env.state, m0, b0, (PREFIX_LIMIT - count) as nat)
                    == after_index_prefixes(s0, m0, b, PREFIX_LIMIT as nat),
                env.state.instructions_executed == s0.instructions_executed,
                *final(env.state) == *final(old(env).state),
                *final(env.sys) == *final(old(env).sys),
            ensures
                (*env.state, b0) == after_index_prefixes(s0, m0, b, PREFIX_LIMIT as nat),
                env.state.instructions_executed == s0.instructions_executed,
                *env.sys == m0,
            decreases PREFIX_LIMIT - count,
        {
            match b0 {
                0xdd => env.set_index(Reg16::IX),
                0xfd => env.set_index(Reg16::IY),
                _ => break,
            }
            b0 = env.advance_pc();
            count = count + 1;
        }
        b0
    }

    /// Reads the prefixes and the opcode at the program counter and returns
    /// the opcode's entry in its table.
    pub fn decode<'a, 'b, M: Machine>(&'b self, env: &mut Environment<'a, M>) -> (r: Option<&'b Opcode>)
        requires
            index_ok(old(env).state.index),
        ensures
            ({
                let d = decode_spec(self.size_suffixes(), *old(env).state, *old(env).sys);
                &&& *final(env).state == d.0
                &&& match r {
                    Some(op) => table_spec(d.1, d.2) == Some((op.action, op.name@)),
                    None => table_spec(d.1, d.2) is None,
                }
            }),
            final(env).state.instructions_executed == old(env).state.instructions_executed,
            *final(env).sys == *old(env).sys,
            *final(final(env).state) == *final(old(env).state),
            *final(final(env).sys) == *final(old(env).sys),
    {
        proof {
            reveal(decode_spec);
        }
        let first = env.advance_pc();
        let after_size = if self.suffixes {
            Self::read_size_prefixes(env, first)
        } else {
            first
        };
        let b0 = Self::read_index_prefixes(env, after_size);
        if b0 == 0xcb {
            if env.is_alt_index() {
                env.load_displacement();
                let c = env.advance_pc();
                self.entry(DecodeTable::CbIndexed, c)
            } else {
                let c = env.advance_pc();
                self.entry(DecodeTable::Cb, c)
            }
        } else if b0 == 0xed {
            env.clear_index();  // With ed, the current prefix is ignored
            let c = env.advance_pc();
            self.entry(DecodeTable::Ed, c)
        } else if index_table_code_exec(b0) && env.is_alt_index() {
            if env.get_index() == Reg16::IX {
                env.clear_index();
                self.entry(DecodeTable::Dd, b0)
            } else {
                env.clear_index();
                self.entry(DecodeTable::Fd, b0)
            }
        } else {
            proof {
                use_type_invariant(self);
            }
            if self.has_displacement[b0 as usize] && env.is_alt_index() {
                env.load_displacement();
            }
            self.entry(DecodeTable::NoPrefix, b0)
        }
    }
}

} // verus!
