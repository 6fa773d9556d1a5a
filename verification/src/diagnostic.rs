use vstd::prelude::*;

use crate::environment::{Environment, advance_n_spec, imm_len};
use crate::machine::Machine;
use crate::opcode::{Action, Opcode};
use crate::state::{SizePrefix, State};

verus! {

/*
    What an instruction reports as it runs: opcodes that are decoded but not
    implemented, and size suffixes that the eZ80 does not define for an
    instruction (the instruction then runs as described in its module).
*/

/// A report of an instruction, for the host to show.
pub enum Diagnostic {
    /// An opcode that is decoded but not implemented, with its name.
    Unimplemented(String),
    /// JP nn with the suffix .LIS or .SIL, in ADL mode or not; `pc` is the
    /// program counter after the immediate address.
    InvalidJumpPrefix { adl: bool, pc: u32 },
    /// CALL with .SIL in ADL mode, or with .LIS in Z80 mode.
    InvalidCallPrefix { adl: bool },
    /// RST with .SIS in ADL mode.
    InvalidRstPrefix,
    /// RET with .SIS or .SIL; `pc` is the program counter after the opcode.
    InvalidRetPrefix { prefix: SizePrefix, pc: u32 },
}

/// JP nn has no .LIS nor .SIL form.
pub open spec fn jump_prefix_invalid(s: State) -> bool {
    s.sz_prefix == SizePrefix::LIS || s.sz_prefix == SizePrefix::SIL
}

/// CALL has no .SIL form in ADL mode, and no .LIS form in Z80 mode.
pub open spec fn call_prefix_invalid(s: State) -> bool {
    if s.reg.adl {
        s.sz_prefix == SizePrefix::SIL
    } else {
        s.sz_prefix == SizePrefix::LIS
    }
}

/// RST has no .SIS form in ADL mode.
pub open spec fn rst_prefix_invalid(s: State) -> bool {
    s.reg.adl && s.sz_prefix == SizePrefix::SIS
}

/// RET has no .SIS nor .SIL form.
pub open spec fn ret_prefix_invalid(s: State) -> bool {
    s.sz_prefix == SizePrefix::SIS || s.sz_prefix == SizePrefix::SIL
}

/// The report of a jump in state `s`, if its suffix is invalid.
pub open spec fn jump_report(r: Option<Diagnostic>, s: State) -> bool {
    if jump_prefix_invalid(s) {
        r == Some(Diagnostic::InvalidJumpPrefix { adl: s.reg.adl, pc: advance_n_spec(s, imm_len(s)).pc_spec() })
    } else {
        r is None
    }
}

/// The report of a call in state `s`, if its suffix is invalid.
pub open spec fn call_report(r: Option<Diagnostic>, s: State) -> bool {
    if call_prefix_invalid(s) {
        r == Some(Diagnostic::InvalidCallPrefix { adl: s.reg.adl })
    } else {
        r is None
    }
}

/// The report of a return in state `s`, if its suffix is invalid.
pub open spec fn ret_report(r: Option<Diagnostic>, s: State) -> bool {
    if ret_prefix_invalid(s) {
        r == Some(Diagnostic::InvalidRetPrefix { prefix: s.sz_prefix, pc: s.pc_spec() })
    } else {
        r is None
    }
}

/// `r` is what the instruction with action `a` and name `name` reports in
/// the decoded state `s`. Conditional calls and returns report only when
/// they are taken.
pub open spec fn reports(r: Option<Diagnostic>, a: Action, name: Seq<char>, s: State) -> bool {
    match a {
        Action::Unimplemented => r matches Some(Diagnostic::Unimplemented(n)) && n@ == name,
        Action::JpUnconditional => jump_report(r, s),
        Action::Call => call_report(r, s),
        Action::CallEq(flag, value) => if s.reg.get_flag_spec(flag) == value {
            call_report(r, s)
        } else {
            r is None
        },
        Action::Rst(_) => if rst_prefix_invalid(s) {
            r == Some(Diagnostic::InvalidRstPrefix)
        } else {
            r is None
        },
        Action::Ret | Action::Reti | Action::Retn => ret_report(r, s),
        Action::RetEq(flag, value) => if s.reg.get_flag_spec(flag) == value {
            ret_report(r, s)
        } else {
            r is None
        },
        _ => r is None,
    }
}

/// The program counter after the immediate address of the instruction.
fn pc_after_immediate<'a, M: Machine>(env: &Environment<'a, M>) -> (pc: u32)
    ensures
        pc == advance_n_spec(*old(env.state), imm_len(*old(env.state))).pc_spec(),
{
    let s0: State = *env.state;
    let mut st: State = s0;
    let n: u32 = if st.is_imm_long() {
        3
    } else {
        2
    };
    let mut i: u32 = 0;
    while i < n
        invariant
            i <= n,
            n == imm_len(s0),
            st == advance_n_spec(s0, i as nat),
        decreases n - i,
    {
        let pc = st.pc();
        let next = if st.reg.adl {
            env.wrap_address24(pc, 1)
        } else {
            env.wrap_address16(pc, 1)
        };
        st.set_pc(next);
        i = i + 1;
    }
    st.pc()
}

fn jump_diagnostic<'a, M: Machine>(env: &Environment<'a, M>) -> (r: Option<Diagnostic>)
    ensures
        jump_report(r, *old(env.state)),
{
    let s = *env.state;
    if s.sz_prefix == SizePrefix::LIS || s.sz_prefix == SizePrefix::SIL {
        Some(Diagnostic::InvalidJumpPrefix { adl: s.reg.adl, pc: pc_after_immediate(env) })
    } else {
        None
    }
}

fn call_diagnostic(s: &State) -> (r: Option<Diagnostic>)
    ensures
        call_report(r, *s),
{
    let invalid = if s.reg.adl {
        s.sz_prefix == SizePrefix::SIL
    } else {
        s.sz_prefix == SizePrefix::LIS
    };
    if invalid {
        Some(Diagnostic::InvalidCallPrefix { adl: s.reg.adl })
    } else {
        None
    }
}

fn ret_diagnostic(s: &State) -> (r: Option<Diagnostic>)
    ensures
        ret_report(r, *s),
{
    if s.sz_prefix == SizePrefix::SIS || s.sz_prefix == SizePrefix::SIL {
        Some(Diagnostic::InvalidRetPrefix { prefix: s.sz_prefix, pc: s.pc() })
    } else {
        None
    }
}

/// What the decoded instruction `op` will report when it runs in the
/// environment's state.
pub fn diagnose<'a, M: Machine>(op: &Opcode, env: &Environment<'a, M>) -> (r: Option<Diagnostic>)
    ensures
        reports(r, op.action, op.name@, *old(env.state)),
{
    let s = *env.state;
    match op.action {
        Action::Unimplemented => {
            let name = op.name.clone();
            Some(Diagnostic::Unimplemented(name))
        },
        Action::JpUnconditional => jump_diagnostic(env),
        Action::Call => call_diagnostic(&s),
        Action::CallEq(flag, value) => {
            if s.reg.get_flag(flag) == value {
                call_diagnostic(&s)
            } else {
                None
            }
        },
        Action::Rst(_) => {
            if s.reg.adl && s.sz_prefix == SizePrefix::SIS {
                Some(Diagnostic::InvalidRstPrefix)
            } else {
                None
            }
        },
        Action::Ret | Action::Reti | Action::Retn => ret_diagnostic(&s),
        Action::RetEq(flag, value) => {
            if s.reg.get_flag(flag) == value {
                ret_diagnostic(&s)
            } else {
                None
            }
        },
        _ => None,
    }
}

} // verus!
