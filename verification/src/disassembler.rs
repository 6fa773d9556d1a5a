use vstd::prelude::*;

use crate::cpu::{Cpu, after_instruction, instruction_text};
use crate::decoder_ez80::{PREFIX_LIMIT, index_ok};
use crate::environment::{Environment, advance_n_spec, advance_pc_spec};
use crate::machine::Machine;
use crate::registers::{Reg16, Registers};
use crate::state::{SizePrefix, State};

verus! {

/// One line of a disassembly listing: the address of the instruction, its
/// assembler text and its bytes.
#[derive(Clone, Debug)]
pub struct Disasm {
    pub loc: u32,
    pub assembly: String,
    pub bytes: Vec<u8>,
}

/// The state of the listing at its first instruction.
pub open spec fn listing_start(s: State, adl_override: Option<bool>, start: u32) -> State {
    let reg = match adl_override {
        Some(adl) => Registers { adl: adl, ..s.reg },
        None => s.reg,
    };
    State { reg: Registers { pc: start, mbase: (start / 65536 % 256) as u8, ..reg }, ..s }
}

/// The state of the listing at the next instruction: prefixes forgotten,
/// and MBASE moved to the next page when the 16 bit program counter wrapped.
pub open spec fn listing_next<M: Machine>(sx: bool, s: State, m: M) -> State {
    let t = after_instruction(sx, s, m);
    let t1 = State { sz_prefix: SizePrefix::NoPrefix, index: Reg16::HL, ..t };
    if t1.reg.pc < s.pc_spec() {
        State { reg: Registers { mbase: ((t1.reg.mbase + 1) % 256) as u8, ..t1.reg }, ..t1 }
    } else {
        t1
    }
}

/// Most bytes read for one instruction.
pub open spec fn byte_limit() -> int {
    2 * PREFIX_LIMIT + 8
}

/// `bytes` are the bytes from the program counter of `s` up to the byte
/// where the PC register reaches `end`.
pub open spec fn bytes_to<M: Machine>(s: State, m: M, end: u32, bytes: Seq<u8>) -> bool {
    &&& bytes.len() <= byte_limit()
    &&& forall|j: int| 0 <= j < bytes.len() ==> #[trigger] bytes[j] == m.peek_spec(advance_n_spec(s, j as nat).pc_spec())
    &&& forall|j: int| 0 <= j < bytes.len() ==> (#[trigger] advance_n_spec(s, j as nat)).reg.pc != end
    &&& (advance_n_spec(s, bytes.len()).reg.pc == end || bytes.len() == byte_limit())
}

/// `states` are the states of the listing at each of its lines, and one
/// more after the last.
pub open spec fn listing_states<M: Machine>(sx: bool, states: Seq<State>, s: State, m: M, adl_override: Option<bool>, start: u32) -> bool {
    &&& states.len() >= 1
    &&& states[0] == listing_start(s, adl_override, start)
    &&& forall|k: int| 0 <= k < states.len() - 1 ==> #[trigger] states[k + 1] == listing_next(sx, states[k], m)
}

/// `line` is the listing line of the instruction at the program counter of `st`.
pub open spec fn line_ok<M: Machine>(sx: bool, line: Disasm, st: State, m: M) -> bool {
    let after = after_instruction(sx, st, m);
    &&& line.loc == st.pc_spec()
    &&& line.assembly@ == instruction_text(sx, st, m)
    &&& bytes_to(State { reg: Registers { pc: st.pc_spec(), ..after.reg }, ..after }, m, after.pc_spec(), line.bytes@)
}

/// `dis` is the listing from `start` below `end`: each line holds the
/// address, the text and the bytes of an instruction, lines follow one
/// another, and the listing stops at the first instruction at or above
/// `end` (or after `end - start` lines).
pub open spec fn is_listing<M: Machine>(
    sx: bool,
    dis: Seq<Disasm>,
    states: Seq<State>,
    s: State,
    m: M,
    adl_override: Option<bool>,
    start: u32,
    end: u32,
) -> bool {
    &&& listing_states(sx, states, s, m, adl_override, start)
    &&& states.len() == dis.len() + 1
    &&& forall|k: int| 0 <= k < dis.len() ==> (#[trigger] states[k]).pc_spec() < end
    &&& forall|k: int| 0 <= k < dis.len() ==> #[trigger] line_ok(sx, dis[k], states[k], m)
    &&& (states[dis.len() as int].pc_spec() >= end || dis.len() == (if start < end { end - start } else { 0 }))
}

/// The lines of a listing leave no gap: each line starts where the
/// instruction of the line before ended (its PC register; MBASE moves to the
/// next page when that register wrapped), and the bytes of a line are read
/// from its own address.
pub proof fn lemma_listing_contiguous<M: Machine>(
    sx: bool,
    dis: Seq<Disasm>,
    states: Seq<State>,
    s: State,
    m: M,
    adl_override: Option<bool>,
    start: u32,
    end: u32,
    k: int,
)
    requires
        is_listing(sx, dis, states, s, m, adl_override, start, end),
        0 <= k < dis.len() - 1,
    ensures
        dis[k + 1].loc == states[k + 1].pc_spec(),
        states[k + 1].reg.pc == after_instruction(sx, states[k], m).reg.pc,
        dis[k].loc == states[k].pc_spec(),
{
    assert(line_ok(sx, dis[k], states[k], m));
    assert(line_ok(sx, dis[k + 1], states[k + 1], m));
    assert(states[k + 1] == listing_next(sx, states[k], m));
}

/// Collects the bytes from the PC register `start` to `end`.
fn collect_bytes<'a, M: Machine>(env: &mut Environment<'a, M>, start: u32, end: u32) -> (bytes: Vec<u8>)
    ensures
        bytes_to(State { reg: Registers { pc: start, ..old(env).state.reg }, ..*old(env).state }, *old(env).sys, end, bytes@),
        *final(env).sys == *old(env).sys,
        *final(final(env).state) == *final(old(env).state),
        *final(final(env).sys) == *final(old(env).sys),
{
    let ghost s0 = State { reg: Registers { pc: start, ..env.state.reg }, ..*env.state };
    let ghost m0 = *env.sys;
    env.state.reg.pc = start;
    let mut bytes: Vec<u8> = vec![];
    let limit: u64 = 2 * (PREFIX_LIMIT as u64) + 8;
    let mut count: u64 = 0;
    while env.state.reg.pc != end && count < limit
        invariant
            *env.sys == m0,
            count == bytes@.len(),
            count <= limit,
            limit == byte_limit(),
            *env.state == advance_n_spec(s0, count as nat),
            forall|j: int| 0 <= j < bytes@.len() ==> #[trigger] bytes@[j] == m0.peek_spec(advance_n_spec(s0, j as nat).pc_spec()),
            forall|j: int| 0 <= j < bytes@.len() ==> (#[trigger] advance_n_spec(s0, j as nat)).reg.pc != end,
            *final(env.state) == *final(old(env).state),
            *final(env.sys) == *final(old(env).sys),
        decreases limit - count,
    {
        let b = env.advance_pc();
        bytes.push(b);
        count = count + 1;
    }
    bytes
}

/// The bytes of an instruction: they are read again from its start on a
/// copy of the state after it.
fn line_bytes<M: Machine>(machine: &mut M, after: State, opcode_start: u32, opcode_end: u32) -> (bytes: Vec<u8>)
    ensures
        bytes_to(State { reg: Registers { pc: opcode_start, ..after.reg }, ..after }, *old(machine), opcode_end, bytes@),
        *final(machine) == *old(machine),
{
    let mut scratch = after;
    let mut env = Environment::new(&mut scratch, machine);
    collect_bytes(&mut env, opcode_start, opcode_end)
}

/// The listing state after an instruction that started at `opcode_start`.
fn move_to_next_line(state: &mut State, opcode_start: u32)
    ensures
        ({
            let t1 = State { sz_prefix: SizePrefix::NoPrefix, index: Reg16::HL, ..*old(state) };
            *final(state) == if t1.reg.pc < opcode_start {
                State { reg: Registers { mbase: ((t1.reg.mbase + 1) % 256) as u8, ..t1.reg }, ..t1 }
            } else {
                t1
            }
        }),
{
    state.clear_sz_prefix();
    state.index = Reg16::HL;

    // handle pc wraparound in ADL=0 mode
    if state.reg.pc < opcode_start {
        state.reg.mbase = state.reg.mbase.wrapping_add(1);
    }
}

/// Disassembles the instruction at the program counter and moves to the
/// next one.
fn disasm_line<M: Machine>(machine: &mut M, cpu: &mut Cpu) -> (line: Disasm)
    requires
        index_ok(old(cpu).state.index),
    ensures
        line_ok(old(cpu).decoder.size_suffixes(), line, old(cpu).state, *old(machine)),
        final(cpu).state == listing_next(old(cpu).decoder.size_suffixes(), old(cpu).state, *old(machine)),
        final(cpu).trace == old(cpu).trace,
        final(cpu).decoder == old(cpu).decoder,
        *final(machine) == *old(machine),
{
    let opcode_start = cpu.state.pc();
    let assembly = cpu.disasm_instruction(machine);
    let opcode_end = cpu.state.pc();
    let bytes = line_bytes(machine, cpu.state, opcode_start, opcode_end);
    move_to_next_line(&mut cpu.state, opcode_start);
    Disasm { loc: opcode_start, assembly, bytes }
}

/**
 * Disassemble a section of code.
 *
 * Tries to not mutate state, but needs a mutable cpu ref...
 */
pub fn disassemble<M: Machine>(
    machine: &mut M,
    cpu: &mut Cpu,
    adl_override: Option<bool>,
    start: u32,
    end: u32,
) -> (dis: Vec<Disasm>)
    requires
        index_ok(old(cpu).state.index),
    ensures
        exists|states: Seq<State>| #[trigger] is_listing(
            old(cpu).decoder.size_suffixes(),
            dis@,
            states,
            old(cpu).state,
            *old(machine),
            adl_override,
            start,
            end,
        ),
        final(cpu).state == old(cpu).state,
        final(cpu).trace == old(cpu).trace,
        *final(machine) == *old(machine),
{
    let mut dis: Vec<Disasm> = vec![];
    let old_state = cpu.state;
    let ghost m0 = *machine;

    if let Some(adl) = adl_override {
        cpu.state.reg.adl = adl;
    }
    cpu.state.reg.pc = start;
    cpu.state.reg.mbase = (start / 65536 % 256) as u8;

    let lines: u32 = if start < end {
        end - start
    } else {
        0
    };
    let mut count: u32 = 0;
    let ghost mut states: Seq<State> = seq![cpu.state];
    while count < lines && cpu.state.pc() < end
        invariant
            *machine == m0,
            count <= lines,
            lines == (if start < end { end - start } else { 0 }),
            index_ok(cpu.state.index),
            cpu.decoder == old(cpu).decoder,
            listing_states(old(cpu).decoder.size_suffixes(), states, old_state, m0, adl_override, start),
            states.len() == dis@.len() + 1,
            states.last() == cpu.state,
            count == dis@.len(),
            cpu.trace == old(cpu).trace,
            forall|k: int| 0 <= k < dis@.len() ==> (#[trigger] states[k]).pc_spec() < end,
            forall|k: int| 0 <= k < dis@.len() ==> #[trigger] line_ok(old(cpu).decoder.size_suffixes(), dis@[k], states[k], m0),
        decreases lines - count,
    {
        let ghost st = cpu.state;
        let line = disasm_line(machine, cpu);
        dis.push(line);
        proof {
            assert(dis@.last() == line);
        }
        count = count + 1;
        proof {
            states = states.push(cpu.state);
        }
    }

    // restore old cpu state
    cpu.state = old_state;
    proof {
        assert(is_listing(old(cpu).decoder.size_suffixes(), dis@, states, old_state, m0, adl_override, start, end));
    }
    dis
}

} // verus!
