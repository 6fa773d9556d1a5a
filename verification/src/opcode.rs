use vstd::prelude::*;

use crate::environment::{
    Environment,
    index_description_spec,
    pair_ext,
    pop_state,
    pop_value,
    push_state,
    push_writes,
    reg16or24_ext_spec,
    wrap_spec,
    with_reg,
};
use crate::machine::{Machine, lemma_no_writes, memory_written};
use crate::operators::Operator;
use crate::registers::{Flag, Reg16, Reg8, Registers};
use crate::state::{SizePrefix, State};
use crate::step::{executed, run_action};
use crate::text::{
    contains,
    contains_spec,
    decimal_spec,
    decimal_string,
    first_index,
    first_index_spec,
    hex_spec,
    hex_string,
    insert,
    insert_spec,
    replace,
    replace_spec,
};

verus! {

/// Direction of the shift and rotate instructions.
#[derive(Clone, Copy, Debug, PartialEq, Eq, Structural)]
pub enum ShiftDir {
    Left,
    Right,
}

/// Kind of the shift and rotate instructions.
#[derive(Clone, Copy, Debug, PartialEq, Eq, Structural)]
pub enum ShiftMode {
    Arithmetic,
    Logical,
    Rotate,
    RotateCarry,
}

/// What an instruction does, with its operands.
#[derive(Clone, Copy, Debug, PartialEq, Eq, Structural)]
pub enum Action {
    Nop,
    NoniNop,
    Halt,
    Unimplemented,
    PopRR(Reg16),
    PushRR(Reg16),
    ConfInterrupts(bool),
    Im(u8),
    Stmix,
    Rsmix,
    LeaRRIndOffset(Reg16, Reg16),
    Pea(Reg16),
    TstAR(Reg8),
    TstAN,
    OperatorAIdxOffset(Reg16, Operator),
    OperatorAR(Reg8, Operator),
    OperatorAN(Operator),
    CpBlock(bool, bool),
    MltRR(Reg16),
    OutCR(Reg8),
    OutC0,
    OutNA,
    Out0NR(Reg8),
    In0RN(Reg8),
    InRC(Reg8),
    In0C,
    InAN,
    InBlock(bool, bool),
    OutBlock(bool, bool),
    OtirxOrOtdrx(bool),
    Djnz,
    JrUnconditional,
    JrEq(Flag, bool),
    JpUnconditional,
    JpEq(Flag, bool),
    JpHl,
    Call,
    CallEq(Flag, bool),
    Rst(u8),
    Ret,
    Reti,
    Retn,
    RetEq(Flag, bool),
    LdRR(Reg8, Reg8, bool),
    LdRN(Reg8),
    LdAPrr(Reg16),
    LdAPnn,
    LdPrrA(Reg16),
    LdPnnA,
    LdRRNn(Reg16),
    LdSpHl,
    LdPnnRR(Reg16),
    LdRRPnn(Reg16),
    ExAf,
    Exx,
    ExDeHl,
    ExPspHl,
    LdBlock(bool, bool),
    LdAMb,
    LdMbA,
    LdIdxDispRR(Reg16, Reg16),
    LdRRIdxDisp(Reg16, Reg16),
    LdRRIndHl(Reg16),
    LdIndHlRR(Reg16),
    IncR(Reg8),
    DecR(Reg8),
    IncDecRR(Reg16, bool),
    AddHlRR(Reg16),
    AdcHlRR(Reg16),
    SbcHlRR(Reg16),
    Daa,
    Cpl,
    Scf,
    Ccf,
    Neg,
    RotR(Reg8, ShiftDir, ShiftMode, bool, bool),
    BitR(u8, Reg8),
    SetResR(u8, Reg8, bool),
    IndexedSetResR(u8, Reg8, bool),
    Rxd(ShiftDir),
}

/// An instruction: its assembler template and what it does.
///
/// In the template, `nn` stands for a 16 or 24 bit immediate, `n` for an 8
/// bit immediate, `d` for a signed displacement, `l` for a relative jump
/// target and `__index` for the index register with its displacement.
pub struct Opcode {
    pub name: String,
    pub action: Action,
}

/// The template of an instruction with the index register and the size
/// prefix filled in: `__index` becomes the index description, the suffix of
/// the size prefix goes after the mnemonic, and HL becomes IX or IY when an
/// index prefix is in use.
pub open spec fn disasm_name_spec(name: Seq<char>, s: State) -> Seq<char> {
    let n1 = if contains_spec(name, "__index"@) {
        replace_spec(name, "__index"@, index_description_spec(s))
    } else {
        name
    };
    let n2 = if s.sz_prefix == SizePrefix::NoPrefix {
        n1
    } else {
        match first_index_spec(n1, ' ') {
            Some(i) => insert_spec(n1, i, s.sz_prefix.suffix_spec()),
            None => n1,
        }
    };
    match s.index {
        Reg16::IX => replace_spec(n2, "HL"@, "IX"@),
        Reg16::IY => replace_spec(n2, "HL"@, "IY"@),
        _ => n2,
    }
}

/// The text of an instruction and the number of immediate bytes after the
/// opcode: `nn` becomes the 16 or 24 bit immediate, else `n` the 8 bit
/// immediate, else `d` the signed displacement, else `l` the target of the
/// relative jump, all in hexadecimal after a `$`.
#[verifier::opaque]
pub open spec fn disasm_spec<M: Machine>(name: Seq<char>, s: State, m: M) -> (Seq<char>, u32) {
    let n = disasm_name_spec(name, s);
    let pc = s.pc_spec();
    let b0 = m.peek_spec(pc);
    let b1 = m.peek_spec(wrap_spec(s, pc, 1));
    let b2 = m.peek_spec(wrap_spec(s, pc, 2));
    if contains_spec(n, "nn"@) {
        if s.is_imm_long_spec() {
            (replace_spec(n, "nn"@, "$"@ + hex_spec((b0 + 256 * b1 + 65536 * b2) as nat)), 3)
        } else {
            (replace_spec(n, "nn"@, "$"@ + hex_spec((b0 + 256 * b1) as nat)), 2)
        }
    } else if contains_spec(n, "n"@) {
        (replace_spec(n, "n"@, "$"@ + hex_spec(b0 as nat)), 1)
    } else if contains_spec(n, "d"@) {
        let d = (b0 as i8) as int;
        (replace_spec(n, "d"@, if d < 0 { "-$"@ + hex_spec((-d) as nat) } else { "+$"@ + hex_spec(d as nat) }), 1)
    } else if contains_spec(n, "l"@) {
        let addr = (pc + 1 + (b0 as i8) as int) as u32;
        (replace_spec(n, "l"@, "$"@ + hex_spec(addr as nat)), 1)
    } else {
        (n, 0)
    }
}

impl Opcode {
    /// Executes the instruction on the environment.
    pub fn execute<'a, M: Machine>(&self, env: &mut Environment<'a, M>)
        ensures
            exists|v: u8| executed(self.action, *old(env).state, *old(env).sys, *final(env).state, *final(env).sys, v),
            final(env).state.instructions_executed == old(env).state.instructions_executed,
            *final(final(env).state) == *final(old(env).state),
            *final(final(env).sys) == *final(old(env).sys),
    {
        let _v = run_action(env, self.action);
    }

    fn disasm_name<'a, M: Machine>(&self, env: &Environment<'a, M>) -> (name: String)
        ensures
            name@ == disasm_name_spec(self.name@, *old(env.state)),
    {
        proof {
            reveal_strlit("__index");
            reveal_strlit("HL");
        }
        let mut name = if contains(self.name.as_str(), "__index") {
            let description = env.index_description();
            replace(self.name.as_str(), "__index", description.as_str())
        } else {
            String::from_str(self.name.as_str())
        };
        if env.state.sz_prefix != SizePrefix::NoPrefix {
            match first_index(name.as_str(), ' ') {
                Some(after_opcode_pos) => {
                    name = insert(name.as_str(), after_opcode_pos, env.state.sz_prefix.suffix());
                },
                None => {},
            }
        }
        // When the index register stands for HL, the text names it.
        match env.state.index {
            Reg16::IX => replace(name.as_str(), "HL", "IX"),
            Reg16::IY => replace(name.as_str(), "HL", "IY"),
            _ => name,
        }
    }

    /// returns String, and u32 PC increment due to immediates
    /// (the PC increment due to the opcode itself, (and due
    /// to the state.index hack), have already been applied by
    /// the decoder.
    pub fn disasm<'a, M: Machine>(&self, env: &Environment<'a, M>) -> (r: (String, u32))
        ensures
            (r.0@, r.1) == disasm_spec(self.name@, *old(env.state), *old(env.sys)),
            r.1 <= 3,
    {
        proof {
            reveal(disasm_spec);
            reveal_strlit("nn");
            reveal_strlit("n");
            reveal_strlit("d");
            reveal_strlit("l");
        }
        let name = self.disasm_name(env);
        if contains(name.as_str(), "nn") {
            let nn = if env.state.is_imm_long() {
                env.peek24_pc()
            } else {
                env.peek16_pc() as u32
            };
            let mut text = String::from_str("$");
            text.append(hex_string(nn).as_str());
            let size: u32 = if env.state.is_imm_long() {
                3
            } else {
                2
            };
            (replace(name.as_str(), "nn", text.as_str()), size)
        } else if contains(name.as_str(), "n") {
            let n = env.peek_pc();
            let mut text = String::from_str("$");
            text.append(hex_string(n as u32).as_str());
            (replace(name.as_str(), "n", text.as_str()), 1)
        } else if contains(name.as_str(), "d") {
            // Immediate argument 8 bits signed
            let d = env.peek_pc() as i8 as i16;
            let mut text = if d < 0 {
                String::from_str("-$")
            } else {
                String::from_str("+$")
            };
            let magnitude: u32 = if d < 0 {
                (-d) as u32
            } else {
                d as u32
            };
            text.append(hex_string(magnitude).as_str());
            (replace(name.as_str(), "d", text.as_str()), 1)
        } else if contains(name.as_str(), "l") {
            // Jump offset as 8 bits signed, shown as the absolute address
            let addr = (env.state.pc() as i64 + 1 + env.peek_pc() as i8 as i64) as u32;
            let mut text = String::from_str("$");
            text.append(hex_string(addr).as_str());
            (replace(name.as_str(), "l", text.as_str()), 1)
        } else {
            (name, 0)
        }
    }
}

/// An opcode with the given action and name.
pub open spec fn is_op(op: Opcode, spec: (Action, Seq<char>)) -> bool {
    op.action == spec.0 && op.name@ == spec.1
}

// Builders

/// Does nothing.
pub fn exec_nop<'a, M: Machine>(env: &mut Environment<'a, M>)
    ensures
        *final(env).state == (*old(env).state),
        memory_written(*old(env).sys, *final(env).sys, seq![]),
        *final(final(env).state) == *final(old(env).state),
        *final(final(env).sys) == *final(old(env).sys),
{
    proof { lemma_no_writes(*env.sys); }
}

pub open spec fn nop_op() -> (Action, Seq<char>) {
    (Action::Nop, "NOP"@)
}

pub fn build_nop() -> (op: Opcode)
    ensures
        is_op(op, nop_op()),
{
    let mut name = String::from_str("NOP");
    Opcode { name, action: Action::Nop }
}

pub open spec fn noni_nop_op() -> (Action, Seq<char>) {
    (Action::NoniNop, "NONINOP"@)
}

pub fn build_noni_nop() -> (op: Opcode)
    ensures
        is_op(op, noni_nop_op()),
{
    let mut name = String::from_str("NONINOP");
    Opcode { name, action: Action::NoniNop }
}

/// HALT
pub fn exec_halt<'a, M: Machine>(env: &mut Environment<'a, M>)
    ensures
        *final(env).state == (State { halted: true, ..*old(env).state }),
        memory_written(*old(env).sys, *final(env).sys, seq![]),
        *final(final(env).state) == *final(old(env).state),
        *final(final(env).sys) == *final(old(env).sys),
{
    env.state.halted = true;
    proof { lemma_no_writes(*env.sys); }
}

pub open spec fn halt_op() -> (Action, Seq<char>) {
    (Action::Halt, "HALT"@)
}

pub fn build_halt() -> (op: Opcode)
    ensures
        is_op(op, halt_op()),
{
    let mut name = String::from_str("HALT");
    Opcode { name, action: Action::Halt }
}

pub open spec fn pop_rr_state<M: Machine>(s: State, m: M, rr: Reg16) -> State {
    let v = pop_value(s, m);
    let s1 = pop_state(s);
    if s.is_op_long_spec() && rr != Reg16::AF {
        with_reg(s1, s1.reg.set24_spec(pair_ext(s1, rr), v))
    } else {
        with_reg(s1, s1.reg.set16_spec(pair_ext(s1, rr), (v % 65536) as u16))
    }
}

/// POP rr
pub fn exec_pop_rr<'a, M: Machine>(env: &mut Environment<'a, M>, rr: Reg16)
    ensures
        *final(env).state == (pop_rr_state(*old(env).state, *old(env).sys, rr)),
        memory_written(*old(env).sys, *final(env).sys, seq![]),
        *final(final(env).state) == *final(old(env).state),
        *final(final(env).sys) == *final(old(env).sys),
{
    let ghost m0 = *env.sys;
    let value = env.pop();
    if env.state.is_op_long() && rr != Reg16::AF {
        env.set_reg24(rr, value);
    } else {
        env.set_reg16(rr, (value % 65536) as u16);
    }
    proof { lemma_no_writes(m0); }
}

pub open spec fn pop_rr_op(rr: Reg16) -> (Action, Seq<char>) {
    (Action::PopRR(rr), "POP "@ + rr.name_spec())
}

pub fn build_pop_rr(rr: Reg16) -> (op: Opcode)
    ensures
        is_op(op, pop_rr_op(rr)),
{
    let mut name = String::from_str("POP ");
    name.append(rr.name());
    Opcode { name, action: Action::PopRR(rr) }
}

/// PUSH rr
pub fn exec_push_rr<'a, M: Machine>(env: &mut Environment<'a, M>, rr: Reg16)
    ensures
        *final(env).state == (push_state(*old(env).state)),
        memory_written(*old(env).sys, *final(env).sys, push_writes(*old(env).state, reg16or24_ext_spec(*old(env).state, rr))),
        *final(final(env).state) == *final(old(env).state),
        *final(final(env).sys) == *final(old(env).sys),
{
    let value = env.reg16or24_ext(rr);
    env.push(value);
}

pub open spec fn push_rr_op(rr: Reg16) -> (Action, Seq<char>) {
    (Action::PushRR(rr), "PUSH "@ + rr.name_spec())
}

pub fn build_push_rr(rr: Reg16) -> (op: Opcode)
    ensures
        is_op(op, push_rr_op(rr)),
{
    let mut name = String::from_str("PUSH ");
    name.append(rr.name());
    Opcode { name, action: Action::PushRR(rr) }
}

/// EI and DI
pub fn exec_conf_interrupts<'a, M: Machine>(env: &mut Environment<'a, M>, enable: bool)
    ensures
        *final(env).state == (with_reg(*old(env).state, Registers { iff1: enable, iff2: enable, ..old(env).state.reg })),
        memory_written(*old(env).sys, *final(env).sys, seq![]),
        *final(final(env).state) == *final(old(env).state),
        *final(final(env).sys) == *final(old(env).sys),
{
    env.state.reg.set_interrupts(enable);
    proof { lemma_no_writes(*env.sys); }
}

pub open spec fn conf_interrupts_op(enable: bool) -> (Action, Seq<char>) {
    (Action::ConfInterrupts(enable), if enable { "EI"@ } else { "DI"@ })
}

pub fn build_conf_interrupts(enable: bool) -> (op: Opcode)
    ensures
        is_op(op, conf_interrupts_op(enable)),
{
    let name = if enable { "EI" } else { "DI" };
    Opcode { name: String::from_str(name), action: Action::ConfInterrupts(enable) }
}

/// IM n
pub fn exec_im<'a, M: Machine>(env: &mut Environment<'a, M>, im: u8)
    ensures
        *final(env).state == (with_reg(*old(env).state, Registers { im: im, ..old(env).state.reg })),
        memory_written(*old(env).sys, *final(env).sys, seq![]),
        *final(final(env).state) == *final(old(env).state),
        *final(final(env).sys) == *final(old(env).sys),
{
    env.state.reg.set_interrupt_mode(im);
    proof { lemma_no_writes(*env.sys); }
}

pub open spec fn im_op(im: u8) -> (Action, Seq<char>) {
    (Action::Im(im), "IM "@ + decimal_spec(im as nat))
}

pub fn build_im(im: u8) -> (op: Opcode)
    ensures
        is_op(op, im_op(im)),
{
    let mut name = String::from_str("IM ");
    name.append(decimal_string(im).as_str());
    Opcode { name, action: Action::Im(im) }
}

/// STMIX: sets the mixed memory mode
pub fn exec_stmix<'a, M: Machine>(env: &mut Environment<'a, M>)
    ensures
        *final(env).state == (with_reg(*old(env).state, Registers { madl: true, ..old(env).state.reg })),
        memory_written(*old(env).sys, *final(env).sys, seq![]),
        *final(final(env).state) == *final(old(env).state),
        *final(final(env).sys) == *final(old(env).sys),
{
    env.state.reg.madl = true;
    proof { lemma_no_writes(*env.sys); }
}

pub open spec fn stmix_op() -> (Action, Seq<char>) {
    (Action::Stmix, "STMIX"@)
}

pub fn build_stmix() -> (op: Opcode)
    ensures
        is_op(op, stmix_op()),
{
    let mut name = String::from_str("STMIX");
    Opcode { name, action: Action::Stmix }
}

/// RSMIX: resets the mixed memory mode
pub fn exec_rsmix<'a, M: Machine>(env: &mut Environment<'a, M>)
    ensures
        *final(env).state == (with_reg(*old(env).state, Registers { madl: false, ..old(env).state.reg })),
        memory_written(*old(env).sys, *final(env).sys, seq![]),
        *final(final(env).state) == *final(old(env).state),
        *final(final(env).sys) == *final(old(env).sys),
{
    env.state.reg.madl = false;
    proof { lemma_no_writes(*env.sys); }
}

pub open spec fn rsmix_op() -> (Action, Seq<char>) {
    (Action::Rsmix, "RSMIX"@)
}

pub fn build_rsmix() -> (op: Opcode)
    ensures
        is_op(op, rsmix_op()),
{
    let mut name = String::from_str("RSMIX");
    Opcode { name, action: Action::Rsmix }
}

pub open spec fn log_unimplemented_op(name: Seq<char>) -> (Action, Seq<char>) {
    (Action::Unimplemented, name)
}

/// An instruction of the eZ80 that is not emulated: it does nothing.
pub fn build_log_unimplemented(name: &'static str) -> (op: Opcode)
    ensures
        is_op(op, log_unimplemented_op(name@)),
{
    Opcode { name: String::from_str(name), action: Action::Unimplemented }
}

} // verus!
