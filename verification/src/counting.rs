use vstd::prelude::*;

use crate::cpu::{instruction_step, is_halted_spec, step_with};
use crate::decoder_ez80::{decode_spec, no_prefix_spec, table_spec, DecodeTable, DecodingHelper};
use crate::diagnostic::Diagnostic;
use crate::machine::{byte_after, Machine};
use crate::opcode::Action;
use crate::registers::{Reg16, Reg8};
use crate::state::{SizePrefix, State};
use crate::step::{action_state, action_writes, executed, inc_r_effect, inc_r_effect_writes, jp_unconditional_effect, jp_unconditional_effect_writes};

verus! {

/*
    A run of many instructions: the counting loop INC A; JP $0000.
*/

/// The machine holds INC A; JP $0000 at address 0.
pub open spec fn holds_counting_loop<M: Machine>(m: M) -> bool {
    &&& m.peek_spec(0) == 0x3c
    &&& m.peek_spec(1) == 0xc3
    &&& m.peek_spec(2) == 0
    &&& m.peek_spec(3) == 0
}

/// A Z80 mode state in page 0, with no prefix, signal or halt.
pub open spec fn plain_z80(s: State) -> bool {
    &&& !s.reg.adl
    &&& s.reg.mbase == 0
    &&& s.reg.pc < 0x10000
    &&& !s.halted
    &&& !s.nmi_pending
    &&& !s.reset_pending
    &&& s.index == Reg16::HL
    &&& s.sz_prefix == SizePrefix::NoPrefix
}

proof fn lemma_codes()
    ensures
        table_spec(DecodeTable::NoPrefix, 0x3c) matches Some(e) && e.0 == Action::IncR(Reg8::A),
        table_spec(DecodeTable::NoPrefix, 0xc3) matches Some(e) && e.0 == Action::JpUnconditional,
{
    reveal(table_spec);
    assert(DecodingHelper::parts_spec(0x3c) == DecodingHelper { x: 0, y: 7, z: 4, p: 3, q: 1 });
    assert(DecodingHelper::parts_spec(0xc3) == DecodingHelper { x: 3, y: 0, z: 3, p: 0, q: 0 });
    assert(no_prefix_spec(0x3c) matches Some(e) && e.0 == Action::IncR(Reg8::A));
    assert(no_prefix_spec(0xc3) matches Some(e) && e.0 == Action::JpUnconditional);
}

/// The decoded opcode at a program counter that holds `b`, not a prefix.
proof fn lemma_decode_plain<M: Machine>(s: State, m: M, b: u8)
    requires
        plain_z80(s),
        m.peek_spec(s.pc_spec()) == b,
        b == 0x3c || b == 0xc3,
    ensures
        decode_spec(false, s, m) == (crate::environment::advance_pc_spec(s), DecodeTable::NoPrefix, b),
{
    reveal(decode_spec);
    reveal_with_fuel(crate::decoder_ez80::after_index_prefixes, 2);
}

/// One step at PC 0 runs INC A.
#[verifier::spinoff_prover]
#[verifier::rlimit(40)]
proof fn lemma_step_inc<M: Machine>(s0: State, m0: M, s1: State, m1: M, r: Option<Diagnostic>)
    requires
        instruction_step(false, s0, m0, s1, m1, r),
        plain_z80(s0),
        s0.reg.pc == 0,
        holds_counting_loop(m0),
    ensures
        plain_z80(s1),
        s1.reg.pc == 1,
        s1.reg.a == (s0.reg.a + 1) % 256,
        holds_counting_loop(m1),
{
    assert(!is_halted_spec(s0));
    let (ma, s3, v) = choose|ma: M, s3: State, v: u8| #[trigger] step_with(false, s0, m0, s1, m1, r, ma, s3, v);
    assert(ma.peek_spec(0) == byte_after(m0, seq![], 0));
    assert(ma.peek_spec(1) == byte_after(m0, seq![], 1));
    assert(ma.peek_spec(2) == byte_after(m0, seq![], 2));
    assert(ma.peek_spec(3) == byte_after(m0, seq![], 3));
    assert(s0.pc_spec() == 0);
    lemma_decode_plain(s0, ma, 0x3c);
    lemma_codes();
    reveal(executed);
    reveal(action_state);
    reveal(action_writes);
    reveal(inc_r_effect);
    reveal(inc_r_effect_writes);
    assert(m1.peek_spec(0) == byte_after(ma, seq![], 0));
    assert(m1.peek_spec(1) == byte_after(ma, seq![], 1));
    assert(m1.peek_spec(2) == byte_after(ma, seq![], 2));
    assert(m1.peek_spec(3) == byte_after(ma, seq![], 3));
}

/// Z80 mode, page 0, no prefix, PC register at `pc`.
spec fn z80_at(s: State, pc: u32) -> bool {
    &&& !s.reg.adl
    &&& s.reg.mbase == 0
    &&& s.reg.pc == pc
    &&& s.sz_prefix == SizePrefix::NoPrefix
}

/// JP $0000 with its address at 2 and 3.
proof fn lemma_jp_zero<M: Machine>(s: State, m: M)
    requires
        z80_at(s, 2),
        m.peek_spec(2) == 0,
        m.peek_spec(3) == 0,
    ensures
        crate::opcode_jumps::jp_state(s, m) == (State { reg: crate::registers::Registers { pc: 0, ..s.reg }, ..s }),
{
    reveal_with_fuel(crate::environment::advance_n_spec, 3);
    let s1 = crate::environment::advance_n_spec(s, 1);
    assert(s1.pc_spec() == 3);
    assert(crate::environment::imm16_spec(s, m) == 0);
    assert(crate::environment::imm_address_spec(s, m) == 0);
    let s2 = crate::environment::advance_n_spec(s, 2);
    assert(s2 == (State { reg: crate::registers::Registers { pc: 4, ..s.reg }, ..s }));
}

/// One step at PC 1 runs JP $0000.
#[verifier::spinoff_prover]
#[verifier::rlimit(100)]
proof fn lemma_step_jp<M: Machine>(s0: State, m0: M, s1: State, m1: M, r: Option<Diagnostic>)
    requires
        instruction_step(false, s0, m0, s1, m1, r),
        plain_z80(s0),
        s0.reg.pc == 1,
        holds_counting_loop(m0),
    ensures
        plain_z80(s1),
        s1.reg.pc == 0,
        s1.reg.a == s0.reg.a,
        holds_counting_loop(m1),
{
    assert(!is_halted_spec(s0));
    let (ma, s3, v) = choose|ma: M, s3: State, v: u8| #[trigger] step_with(false, s0, m0, s1, m1, r, ma, s3, v);
    assert(ma.peek_spec(0) == byte_after(m0, seq![], 0));
    assert(ma.peek_spec(1) == byte_after(m0, seq![], 1));
    assert(ma.peek_spec(2) == byte_after(m0, seq![], 2));
    assert(ma.peek_spec(3) == byte_after(m0, seq![], 3));
    assert(s0.pc_spec() == 1);
    lemma_decode_plain(s0, ma, 0xc3);
    lemma_codes();
    reveal(executed);
    reveal(action_state);
    reveal(action_writes);
    reveal(jp_unconditional_effect);
    reveal(jp_unconditional_effect_writes);
    let d = crate::environment::advance_pc_spec(s0);
    assert(z80_at(d, 2));
    lemma_jp_zero(d, ma);
    assert(m1.peek_spec(0) == byte_after(ma, seq![], 0));
    assert(m1.peek_spec(1) == byte_after(ma, seq![], 1));
    assert(m1.peek_spec(2) == byte_after(ma, seq![], 2));
    assert(m1.peek_spec(3) == byte_after(ma, seq![], 3));
}

/// `ss`, `ms` and `rs` are a run of `execute_instruction` on a Z80 decoder:
/// `ss[i]` and `ms[i]` are the CPU state and the machine before the
/// (i+1)-th call, `rs[i]` what that call reported.
#[verifier::opaque]
pub open spec fn z80_run<M: Machine>(ss: Seq<State>, ms: Seq<M>, rs: Seq<Option<Diagnostic>>) -> bool {
    &&& ss.len() == ms.len()
    &&& rs.len() + 1 == ss.len()
    &&& forall|i: int|
        0 <= i < rs.len() ==> #[trigger] instruction_step(false, ss[i], ms[i], ss[i + 1], ms[i + 1], rs[i])
}

proof fn lemma_loop_step<M: Machine>(ss: Seq<State>, ms: Seq<M>, rs: Seq<Option<Diagnostic>>, i: int)
    requires
        z80_run(ss, ms, rs),
        0 <= i < rs.len(),
        plain_z80(ss[i]),
        ss[i].reg.pc == 0 || ss[i].reg.pc == 1,
        holds_counting_loop(ms[i]),
    ensures
        plain_z80(ss[i + 1]),
        ss[i + 1].reg.pc == (if ss[i].reg.pc == 0 { 1int } else { 0int }),
        ss[i + 1].reg.a == (if ss[i].reg.pc == 0 { (ss[i].reg.a + 1) % 256 } else { ss[i].reg.a as int }),
        holds_counting_loop(ms[i + 1]),
{
    reveal(z80_run);
    assert(instruction_step(false, ss[i], ms[i], ss[i + 1], ms[i + 1], rs[i]));
    if ss[i].reg.pc == 0 {
        lemma_step_inc(ss[i], ms[i], ss[i + 1], ms[i + 1], rs[i]);
    } else {
        lemma_step_jp(ss[i], ms[i], ss[i + 1], ms[i + 1], rs[i]);
    }
}

/// The counting loop INC A; JP $0000 run from PC 0 on a Z80 decoder:
/// after `k` instructions A has grown by (k + 1) / 2 (mod 256) and PC is
/// k % 2; so a loop that waits for A to reach a value ends within 512
/// instructions.
pub proof fn lemma_counting_loop<M: Machine>(
    ss: Seq<State>,
    ms: Seq<M>,
    rs: Seq<Option<Diagnostic>>,
    k: int,
)
    requires
        z80_run(ss, ms, rs),
        plain_z80(ss[0]),
        ss[0].reg.pc == 0,
        holds_counting_loop(ms[0]),
        0 <= k < ss.len(),
    ensures
        ss[k].reg.a == (ss[0].reg.a + (k + 1) / 2) % 256,
        ss[k].reg.pc == k % 2,
        ss[k].pc_spec() == k % 2,
        plain_z80(ss[k]),
        holds_counting_loop(ms[k]),
    decreases k,
{
    if k > 0 {
        lemma_counting_loop(ss, ms, rs, k - 1);
        assert(ss.len() == rs.len() + 1) by {
            reveal(z80_run);
        }
        lemma_loop_step(ss, ms, rs, k - 1);
        if (k - 1) % 2 == 0 {
            assert((k + 1) / 2 == k / 2 + 1);
            assert(k / 2 == (k - 1 + 1) / 2);
        } else {
            assert((k + 1) / 2 == (k - 1 + 1) / 2);
        }
    }
}

} // verus!
