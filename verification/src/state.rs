use vstd::prelude::*;

use crate::registers::{Reg16, Registers};

verus! {

/// eZ80 opcode "suffixes". They are called prefixes here because they come
/// before the opcode in machine code.
#[derive(Clone, Copy, Debug, PartialEq, Eq, Structural)]
pub enum SizePrefix {
    NoPrefix,
    LIL,
    LIS,
    SIL,
    SIS,
}

impl SizePrefix {
    pub open spec fn suffix_spec(self) -> Seq<char> {
        match self {
            SizePrefix::LIL => ".LIL"@,
            SizePrefix::LIS => ".LIS"@,
            SizePrefix::SIL => ".SIL"@,
            SizePrefix::SIS => ".SIS"@,
            SizePrefix::NoPrefix => ""@,
        }
    }

    /// The suffix as written after the mnemonic in assembler.
    pub fn suffix(&self) -> (s: &'static str)
        ensures
            s@ == self.suffix_spec(),
    {
        match self {
            SizePrefix::LIL => ".LIL",
            SizePrefix::LIS => ".LIS",
            SizePrefix::SIL => ".SIL",
            SizePrefix::SIS => ".SIS",
            SizePrefix::NoPrefix => "",
        }
    }
}

/// Internal state of the CPU
///
/// Stores the state of the registers and additional hidden execution
/// state of the CPU.
#[derive(Clone, Copy)]
pub struct State {
    /// Values of the Z80 registers
    pub reg: Registers,
    /// Halt state of the CPU
    pub halted: bool,
    /// Non maskable interrupt signaled
    pub nmi_pending: bool,
    /// Reset signaled
    pub reset_pending: bool,
    /// Alternate index management: HL, IX or IY
    pub index: Reg16,
    /// Displacement used for (IX+d) and (IY+d)
    pub displacement: i8,
    pub sz_prefix: SizePrefix,
    pub instructions_executed: u64,
}

impl State {
    pub open spec fn new_spec() -> State {
        State {
            reg: Registers::new_spec(),
            halted: false,
            nmi_pending: false,
            reset_pending: false,
            index: Reg16::HL,
            displacement: 0,
            sz_prefix: SizePrefix::NoPrefix,
            instructions_executed: 0,
        }
    }

    /// Returns the initial state of a Z80 on power up
    pub fn new() -> (s: State)
        ensures
            s == State::new_spec(),
    {
        State {
            reg: Registers::new(),
            halted: false,
            nmi_pending: false,
            reset_pending: false,
            index: Reg16::HL,
            displacement: 0,
            sz_prefix: SizePrefix::NoPrefix,
            instructions_executed: 0,
        }
    }

    /// Whether the data of the current instruction is 24 bits long.
    pub open spec fn is_op_long_spec(&self) -> bool {
        match self.sz_prefix {
            SizePrefix::NoPrefix => self.reg.adl,
            SizePrefix::LIL => true,
            SizePrefix::LIS => true,
            SizePrefix::SIL => false,
            SizePrefix::SIS => false,
        }
    }

    /// Whether the immediate operands of the current instruction are 24 bits long.
    pub open spec fn is_imm_long_spec(&self) -> bool {
        match self.sz_prefix {
            SizePrefix::NoPrefix => self.reg.adl,
            SizePrefix::LIL => true,
            SizePrefix::LIS => false,
            SizePrefix::SIL => true,
            SizePrefix::SIS => false,
        }
    }

    pub fn is_op_long(&self) -> (b: bool)
        ensures
            b == self.is_op_long_spec(),
    {
        match self.sz_prefix {
            SizePrefix::NoPrefix => self.reg.adl,
            SizePrefix::LIL => true,
            SizePrefix::LIS => true,
            SizePrefix::SIL => false,
            SizePrefix::SIS => false,
        }
    }

    pub fn is_imm_long(&self) -> (b: bool)
        ensures
            b == self.is_imm_long_spec(),
    {
        match self.sz_prefix {
            SizePrefix::NoPrefix => self.reg.adl,
            SizePrefix::LIL => true,
            SizePrefix::LIS => false,
            SizePrefix::SIL => true,
            SizePrefix::SIS => false,
        }
    }

    /// The stack pointer in use: SPL when the data is long, SPS in the MBASE page otherwise.
    pub open spec fn sp_spec(&self) -> u32 {
        if self.is_op_long_spec() {
            self.reg.get24_spec(Reg16::SP)
        } else {
            self.reg.get16_mbase_spec(Reg16::SP)
        }
    }

    pub fn sp(&self) -> (v: u32)
        ensures
            v == self.sp_spec(),
    {
        if self.is_op_long() {
            self.reg.get24(Reg16::SP)
        } else {
            self.reg.get16_mbase(Reg16::SP)
        }
    }

    /// The program counter as an address: PC in ADL mode, its low 16 bits
    /// in the MBASE page otherwise.
    pub open spec fn pc_spec(&self) -> u32 {
        if self.reg.adl {
            self.reg.pc
        } else {
            (self.reg.mbase * 65536 + self.reg.pc % 65536) as u32
        }
    }

    /// Returns the program counter
    pub fn pc(&self) -> (v: u32)
        ensures
            v == self.pc_spec(),
    {
        if self.reg.adl {
            self.reg.pc
        } else {
            (self.reg.mbase as u32) * 65536 + (self.reg.pc % 65536)
        }
    }

    /// Sets the program counter to the low 24 bits of `value`.
    pub fn set_pc(&mut self, value: u32)
        ensures
            *final(self) == (State { reg: Registers { pc: value % 0x1000000, ..old(self).reg }, ..*old(self) }),
    {
        self.reg.pc = value % 0x1000000;
    }

    /// Forgets the size prefix of the instruction just executed.
    pub fn clear_sz_prefix(&mut self)
        ensures
            *final(self) == (State { sz_prefix: SizePrefix::NoPrefix, ..*old(self) }),
    {
        self.sz_prefix = SizePrefix::NoPrefix;
    }
}

} // verus!
