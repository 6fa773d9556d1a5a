use vstd::prelude::*;

use crate::decoder_ez80::{DecoderEZ80, decode_spec, index_ok, table_spec};
use crate::diagnostic::{Diagnostic, diagnose, reports};
use crate::environment::{Environment, advance_n_spec, push_state, push_writes, set_pc_spec};
use crate::machine::{Machine, lemma_no_writes, memory_written};
use crate::opcode::disasm_spec;
use crate::registers::{Reg8, Registers};
use crate::state::{SizePrefix, State};
use crate::step::executed;
use crate::registers::Reg16;

verus! {

/// Address that a non maskable interrupt calls.
pub const NMI_ADDRESS: u32 = 0x0066;

/// The state after a reset: PC, I and R cleared, interrupts disabled in
/// mode 0, and the pending signals and the halt forgotten.
pub open spec fn reset_state(s: State) -> State {
    State {
        reset_pending: false,
        nmi_pending: false,
        halted: false,
        reg: Registers { pc: 0, i: 0, r: 0, iff1: false, iff2: false, im: 0, ..s.reg },
        ..s
    }
}

/// The state when a non maskable interrupt starts: IFF1 saved in IFF2 and
/// cleared, the halt ended, before the call to the NMI address.
pub open spec fn nmi_start_state(s: State) -> State {
    State { nmi_pending: false, halted: false, reg: Registers { iff1: false, iff2: s.reg.iff1, ..s.reg }, ..s }
}

/// The state once a pending reset or non maskable interrupt is taken.
pub open spec fn signal_state(s: State) -> State {
    if s.reset_pending {
        reset_state(s)
    } else if s.nmi_pending {
        let s1 = nmi_start_state(s);
        set_pc_spec(push_state(s1), NMI_ADDRESS)
    } else {
        s
    }
}

/// The memory writes of taking a pending signal: the NMI pushes the
/// program counter.
pub open spec fn signal_writes(s: State) -> Seq<(u32, u8)> {
    if !s.reset_pending && s.nmi_pending {
        let s1 = nmi_start_state(s);
        push_writes(s1, s1.pc_spec())
    } else {
        seq![]
    }
}

/// The state after an instruction completes: index and size prefix
/// forgotten, the count of instructions and R incremented.
pub open spec fn retire_state(s: State) -> State {
    State {
        index: Reg16::HL,
        sz_prefix: SizePrefix::NoPrefix,
        instructions_executed: (s.instructions_executed + 1) as u64,
        reg: Registers { r: ((s.reg.r + 1) % 256) as u8, ..s.reg },
        ..s
    }
}

/// The CPU waits in HALT, with no reset or NMI pending.
pub open spec fn is_halted_spec(s: State) -> bool {
    s.halted && !s.nmi_pending && !s.reset_pending
}

/// One instruction from `s0` and `m0` to `s1` and `m1`, where `ma` is the
/// machine once a pending signal is taken, `s3` the state after the action
/// and `v` the byte read from a port.
pub open spec fn step_with<M: Machine>(
    sx: bool,
    s0: State,
    m0: M,
    s1: State,
    m1: M,
    r: Option<Diagnostic>,
    ma: M,
    s3: State,
    v: u8,
) -> bool {
    let d = decode_spec(sx, signal_state(s0), ma);
    &&& memory_written(m0, ma, signal_writes(s0))
    &&& match table_spec(d.1, d.2) {
        Some(e) => executed(e.0, d.0, ma, s3, m1, v) && s1 == retire_state(s3) && reports(r, e.0, e.1, d.0),
        None => m1 == ma && s1 == retire_state(d.0) && r is None,
    }
}

/// One call of `execute_instruction`: nothing while halted; else a pending
/// reset or NMI is taken, the instruction at PC is decoded and run, and it
/// is retired.
pub open spec fn instruction_step<M: Machine>(sx: bool, s0: State, m0: M, s1: State, m1: M, r: Option<Diagnostic>) -> bool {
    if is_halted_spec(s0) {
        s1 == s0 && m1 == m0 && r is None
    } else {
        exists|ma: M, s3: State, v: u8| #[trigger] step_with(sx, s0, m0, s1, m1, r, ma, s3, v)
    }
}

/// Takes a pending reset or non maskable interrupt.
fn take_signal<'a, M: Machine>(env: &mut Environment<'a, M>)
    ensures
        *final(env).state == signal_state(*old(env).state),
        final(env).state.index == old(env).state.index,
        final(env).state.instructions_executed == old(env).state.instructions_executed,
        memory_written(*old(env).sys, *final(env).sys, signal_writes(*old(env).state)),
        *final(final(env).state) == *final(old(env).state),
        *final(final(env).sys) == *final(old(env).sys),
{
    if env.state.reset_pending {
        env.state.reset_pending = false;
        env.state.nmi_pending = false;
        env.state.halted = false;
        env.state.set_pc(0x0000);
        env.state.reg.set8(Reg8::I, 0x00);
        env.state.reg.set8(Reg8::R, 0x00);
        env.state.reg.set_interrupts(false);
        env.state.reg.set_interrupt_mode(0);
        proof {
            lemma_no_writes(*env.sys);
        }
    } else if env.state.nmi_pending {
        env.state.nmi_pending = false;
        env.state.halted = false;
        env.state.reg.start_nmi();
        env.subroutine_call(NMI_ADDRESS);
    } else {
        proof {
            lemma_no_writes(*env.sys);
        }
    }
}

/// Decodes the instruction at the program counter and runs it; returns
/// the byte that it read from a port and what it reports.
fn run_decoded<'a, M: Machine>(decoder: &DecoderEZ80, env: &mut Environment<'a, M>) -> (res: (Ghost<u8>, Option<Diagnostic>))
    requires
        index_ok(old(env).state.index),
    ensures
        ({
            let d = decode_spec(decoder.size_suffixes(), *old(env).state, *old(env).sys);
            match table_spec(d.1, d.2) {
                Some(e) => executed(e.0, d.0, *old(env).sys, *final(env).state, *final(env).sys, res.0@)
                    && reports(res.1, e.0, e.1, d.0),
                None => *final(env).sys == *old(env).sys && *final(env).state == d.0 && res.1 is None,
            }
        }),
        final(env).state.instructions_executed == old(env).state.instructions_executed,
        *final(final(env).state) == *final(old(env).state),
        *final(final(env).sys) == *final(old(env).sys),
{
    let opcode = decoder.decode(env);
    match opcode {
        Some(o) => {
            let ghost s2 = *env.state;
            let ghost m2 = *env.sys;
            let report = diagnose(o, env);
            o.execute(env);
            (Ghost(choose|v: u8| executed(o.action, s2, m2, *env.state, *env.sys, v)), report)
        },
        None => (Ghost(0), None),
    }
}

/// Retires the instruction.
fn retire<'a, M: Machine>(env: &mut Environment<'a, M>)
    requires
        old(env).state.instructions_executed < u64::MAX,
    ensures
        *final(env).state == retire_state(*old(env).state),
        *final(env).sys == *old(env).sys,
        *final(final(env).state) == *final(old(env).state),
        *final(final(env).sys) == *final(old(env).sys),
{
    env.clear_index();
    env.state.clear_sz_prefix();
    env.state.instructions_executed += 1;
    let r = env.state.reg.get8(Reg8::R);
    env.state.reg.set8(Reg8::R, r.wrapping_add(1));
}

/// The text of the instruction at the program counter of `s`.
#[verifier::opaque]
pub open spec fn instruction_text<M: Machine>(sx: bool, s: State, m: M) -> Seq<char> {
    let d = decode_spec(sx, s, m);
    match table_spec(d.1, d.2) {
        Some(e) => disasm_spec(e.1, d.0, m).0,
        None => Seq::empty(),
    }
}

/// The state after the instruction at the program counter of `s` and its
/// immediates are read.
#[verifier::opaque]
pub open spec fn after_instruction<M: Machine>(sx: bool, s: State, m: M) -> State {
    let d = decode_spec(sx, s, m);
    match table_spec(d.1, d.2) {
        Some(e) => advance_n_spec(d.0, disasm_spec(e.1, d.0, m).1 as nat),
        None => d.0,
    }
}

/// A reset or a non maskable interrupt request wakes a halted CPU.
pub proof fn lemma_signal_wakes(s: State)
    ensures
        !is_halted_spec(State { reset_pending: true, ..s }),
        !is_halted_spec(State { nmi_pending: true, ..s }),
{
}

/// A pending reset starts the next instruction at PC 0 with interrupts
/// disabled in mode 0, and writes no memory.
pub proof fn lemma_reset_restarts(s: State)
    requires
        s.reset_pending,
    ensures
        signal_state(s).reg.pc == 0,
        !signal_state(s).reg.iff1,
        signal_state(s).reg.im == 0,
        !signal_state(s).reset_pending,
        !signal_state(s).nmi_pending,
        signal_writes(s) == Seq::<(u32, u8)>::empty(),
{
}

/// A pending NMI (without reset) calls the NMI address, saving IFF1 in IFF2.
pub proof fn lemma_nmi_calls(s: State)
    requires
        s.nmi_pending,
        !s.reset_pending,
    ensures
        signal_state(s).reg.pc == NMI_ADDRESS,
        !signal_state(s).reg.iff1,
        signal_state(s).reg.iff2 == s.reg.iff1,
        !signal_state(s).halted,
{
}

/// The Z80 cpu emulator.
///
/// Executes Z80 instructions changing the cpu State and Machine
pub struct Cpu {
    pub state: State,
    /// Whether the instructions executed are traced
    pub trace: bool,
    pub decoder: DecoderEZ80,
}

impl Cpu {
    /// Returns a Z80 Cpu instance. Alias of new_z80()
    pub fn new() -> (c: Cpu)
        ensures
            c.state == State::new_spec(),
            !c.trace,
            !c.decoder.size_suffixes(),
    {
        Self::new_z80()
    }

    /// Returns a Z80 Cpu instance. Its decoder reads no eZ80 size suffix:
    /// 0x40, 0x49, 0x52 and 0x5B are the loads LD B, B, LD C, C, LD D, D
    /// and LD E, E.
    pub fn new_z80() -> (c: Cpu)
        ensures
            c.state == State::new_spec(),
            !c.trace,
            !c.decoder.size_suffixes(),
    {
        Cpu { state: State::new(), trace: false, decoder: DecoderEZ80::new_z80() }
    }

    /// Returns an eZ80 Cpu instance: its decoder reads the size suffixes.
    pub fn new_ez80() -> (c: Cpu)
        ensures
            c.state == State::new_spec(),
            !c.trace,
            c.decoder.size_suffixes(),
    {
        Cpu { state: State::new(), trace: false, decoder: DecoderEZ80::new() }
    }

    /// Returns an Intel 8080 Cpu instance: the registers run in 8080 mode,
    /// and the decoder is that of new_z80, with no size suffix.
    pub fn new_8080() -> (c: Cpu)
        ensures
            c.state == (State { reg: Registers { mode8080: true, ..State::new_spec().reg }, ..State::new_spec() }),
            !c.trace,
            !c.decoder.size_suffixes(),
    {
        let mut cpu = Cpu { state: State::new(), trace: false, decoder: DecoderEZ80::new_z80() };
        cpu.state.reg.set_8080();
        cpu
    }

    /// Executes a single instruction
    ///
    /// # Arguments
    ///
    /// * `sys` - A representation of the emulated machine that has the Machine trait
    ///
    pub fn execute_instruction<M: Machine>(&mut self, sys: &mut M) -> (report: Option<Diagnostic>)
        requires
            old(self).state.instructions_executed < u64::MAX,
            index_ok(old(self).state.index),
        ensures
            instruction_step(
                old(self).decoder.size_suffixes(),
                old(self).state,
                *old(sys),
                final(self).state,
                *final(sys),
                report,
            ),
            !is_halted_spec(old(self).state) ==> final(self).state.instructions_executed
                == old(self).state.instructions_executed + 1,
            final(self).trace == old(self).trace,
            final(self).decoder == old(self).decoder,
    {
        if self.is_halted() {
            // The CPU is in HALT state. Only interrupts can execute.
            return None;
        }
        let ghost s0 = self.state;
        let ghost m0 = *sys;
        proof {
            use_type_invariant(&self.decoder);
        }
        let mut env = Environment::new(&mut self.state, sys);
        take_signal(&mut env);
        let ghost ma = *env.sys;
        let (v, report) = run_decoded(&self.decoder, &mut env);
        let ghost s3 = *env.state;
        retire(&mut env);
        proof {
            assert(step_with(self.decoder.size_suffixes(), s0, m0, *env.state, *env.sys, report, ma, s3, v@));
        }
        report
    }

    /// Returns the instruction at PC disassembled. PC is advanced.
    ///
    /// # Arguments
    ///
    /// * `sys` - A representation of the emulated machine that has the Machine trait
    ///
    pub fn disasm_instruction<M: Machine>(&mut self, sys: &mut M) -> (text: String)
        requires
            index_ok(old(self).state.index),
        ensures
            text@ == instruction_text(old(self).decoder.size_suffixes(), old(self).state, *old(sys)),
            final(self).state == after_instruction(old(self).decoder.size_suffixes(), old(self).state, *old(sys)),
            *final(sys) == *old(sys),
            final(self).trace == old(self).trace,
            final(self).decoder == old(self).decoder,
    {
        proof {
            use_type_invariant(&self.decoder);
            reveal(instruction_text);
            reveal(after_instruction);
        }
        let mut env = Environment::new(&mut self.state, sys);
        match self.decoder.decode(&mut env) {
            Some(opcode) => {
                let (text, pc_inc) = opcode.disasm(&env);
                let ghost s2 = *env.state;
                // The immediates are at most 3 bytes long.
                if pc_inc >= 1 {
                    env.advance_pc();
                }
                if pc_inc >= 2 {
                    env.advance_pc();
                }
                if pc_inc >= 3 {
                    env.advance_pc();
                }
                proof {
                    reveal_with_fuel(advance_n_spec, 4);
                }
                text
            },
            None => String::new(),
        }
    }

    /// Activates or deactivates traces of the instruction executed and
    /// the state of the registers.
    ///
    /// # Arguments
    ///
    /// * `trace` - A bool defining the trace state to set
    pub fn set_trace(&mut self, trace: bool)
        ensures
            final(self).state == old(self).state,
            final(self).trace == trace,
    {
        self.trace = trace;
    }

    /// Set eZ80 ADL state
    pub fn set_adl(&mut self, adl: bool)
        ensures
            final(self).state == (State { reg: Registers { adl: adl, ..old(self).state.reg }, ..old(self).state }),
            final(self).trace == old(self).trace,
    {
        self.state.reg.adl = adl;
    }

    /// Returns a Registers struct to read and write on the Z80 registers
    pub fn registers(&mut self) -> (r: &mut Registers)
        ensures
            *r == old(self).state.reg,
            final(self).state == (State { reg: *final(r), ..old(self).state }),
            final(self).trace == old(self).trace,
    {
        &mut self.state.reg
    }

    /// Returns if the Cpu has executed a HALT
    pub fn is_halted(&self) -> (b: bool)
        ensures
            b == is_halted_spec(self.state),
    {
        self.state.halted && !self.state.nmi_pending && !self.state.reset_pending
    }

    /// Non maskable interrupt request
    pub fn signal_nmi(&mut self)
        ensures
            final(self).state == (State { nmi_pending: true, ..old(self).state }),
            final(self).trace == old(self).trace,
    {
        self.state.nmi_pending = true
    }

    /// Signal reset
    pub fn signal_reset(&mut self)
        ensures
            final(self).state == (State { reset_pending: true, ..old(self).state }),
            final(self).trace == old(self).trace,
    {
        self.state.reset_pending = true
    }
}

impl Default for Cpu {
    fn default() -> (c: Self)
        ensures
            c.state == State::new_spec(),
            !c.trace,
            !c.decoder.size_suffixes(),
    {
        Self::new()
    }
}

} // verus!
