use vstd::prelude::*;

use crate::machine::{
    Machine,
    PortAccess,
    io_written,
    memory_written,
    same_memory,
    lemma_poke_written,
    lemma_memory_written_compose,
};
use crate::registers::{Reg16, Reg8, Registers};
use crate::state::{SizePrefix, State};
use crate::text::{signed_decimal_spec, signed_decimal_string};

verus! {

/// `address + increment` on 32 bits.
pub open spec fn wrap24(address: u32, increment: int) -> u32 {
    ((address + increment) % 0x100000000) as u32
}

/// `address + increment` on the low 16 bits, the upper byte kept (bits above
/// 24 are dropped).
pub open spec fn wrap16(address: u32, increment: int) -> u32 {
    (address % 0x1000000 / 0x10000 * 0x10000 + (address % 0x10000 + increment) % 0x10000) as u32
}

pub proof fn lemma_i32_as_u32(i: i32)
    ensures
        (i as u32) as int == if i >= 0 {
            i as int
        } else {
            i + 0x100000000
        },
{
    assert(i >= 0 ==> (i as u32) as int == i as int) by (bit_vector);
    assert(i < 0 ==> (i as u32) as int == i as int + 0x100000000) by (bit_vector);
}

pub proof fn lemma_i32_as_u16(i: i32)
    ensures
        (i as u16) as int == (i as int) % 0x10000,
{
    assert((i as u16) as int == (i as int) % 0x10000) by (bit_vector);
}

/// The address `increment` bytes away from `address` for the data size of `s`.
pub open spec fn wrap_spec(s: State, address: u32, increment: int) -> u32 {
    if s.is_op_long_spec() {
        wrap24(address, increment)
    } else {
        wrap16(address, increment)
    }
}

/// The state with the program counter set to the low 24 bits of `v`.
pub open spec fn set_pc_spec(s: State, v: u32) -> State {
    State { reg: Registers { pc: (v % 0x1000000) as u32, ..s.reg }, ..s }
}

/// The address after the program counter, in ADL or Z80 mode.
pub open spec fn next_pc_spec(s: State) -> u32 {
    if s.reg.adl {
        wrap24(s.pc_spec(), 1)
    } else {
        wrap16(s.pc_spec(), 1)
    }
}

/// The state after the program counter moves past one byte.
pub open spec fn advance_pc_spec(s: State) -> State {
    set_pc_spec(s, next_pc_spec(s))
}

/// The state after the program counter moves past `n` bytes.
pub open spec fn advance_n_spec(s: State, n: nat) -> State
    decreases n,
{
    if n == 0 {
        s
    } else {
        advance_pc_spec(advance_n_spec(s, (n - 1) as nat))
    }
}

/// The `i`-th byte of the instruction stream at the program counter.
pub open spec fn code_byte<M: Machine>(s: State, m: M, i: nat) -> u8 {
    m.peek_spec(advance_n_spec(s, i).pc_spec())
}

/// 16 bit little endian immediate at the program counter.
pub open spec fn imm16_spec<M: Machine>(s: State, m: M) -> u16 {
    (code_byte(s, m, 0) + 256 * code_byte(s, m, 1)) as u16
}

/// 24 bit little endian immediate at the program counter.
pub open spec fn imm24_spec<M: Machine>(s: State, m: M) -> u32 {
    (code_byte(s, m, 0) + 256 * code_byte(s, m, 1) + 65536 * code_byte(s, m, 2)) as u32
}

/// Immediate of 16 or 24 bits as the instruction's immediate size says.
pub open spec fn imm16or24_spec<M: Machine>(s: State, m: M) -> u32 {
    if s.is_imm_long_spec() {
        imm24_spec(s, m)
    } else {
        imm16_spec(s, m) as u32
    }
}

/// Length in bytes of a 16 or 24 bit immediate.
pub open spec fn imm_len(s: State) -> nat {
    if s.is_imm_long_spec() {
        3
    } else {
        2
    }
}

/// Immediate address: 24 bits in long mode, 16 bits in the MBASE page otherwise.
pub open spec fn imm_address_spec<M: Machine>(s: State, m: M) -> u32 {
    if s.is_op_long_spec() {
        imm16or24_spec(s, m)
    } else {
        (imm16or24_spec(s, m) % 65536 + s.reg.mbase * 65536) as u32
    }
}

/// Address where a push on SPS writes.
pub open spec fn sps_push_addr(s: State) -> u32 {
    wrap16(s.reg.get16_mbase_spec(Reg16::SP), -1)
}

/// The state after a push on SPS.
pub open spec fn sps_push_state(s: State) -> State {
    State { reg: s.reg.set16_spec(Reg16::SP, (sps_push_addr(s) % 65536) as u16), ..s }
}

/// Address where a pop from SPS reads.
pub open spec fn sps_pop_addr(s: State) -> u32 {
    s.reg.get16_mbase_spec(Reg16::SP)
}

/// The state after a pop from SPS.
pub open spec fn sps_pop_state(s: State) -> State {
    State { reg: s.reg.set16_spec(Reg16::SP, (wrap16(sps_pop_addr(s), 1) % 65536) as u16), ..s }
}

/// Address where a push on SPL writes.
pub open spec fn spl_push_addr(s: State) -> u32 {
    wrap24(s.reg.get24_spec(Reg16::SP), -1)
}

/// The state after a push on SPL.
pub open spec fn spl_push_state(s: State) -> State {
    State { reg: s.reg.set24_spec(Reg16::SP, spl_push_addr(s)), ..s }
}

/// Address where a pop from SPL reads.
pub open spec fn spl_pop_addr(s: State) -> u32 {
    s.reg.get24_spec(Reg16::SP)
}

/// The state after a pop from SPL.
pub open spec fn spl_pop_state(s: State) -> State {
    State { reg: s.reg.set24_spec(Reg16::SP, wrap24(spl_pop_addr(s), 1)), ..s }
}

/// The state after pushing a value: 3 bytes on SPL in long mode, 2 on SPS otherwise.
pub open spec fn push_state(s: State) -> State {
    if s.is_op_long_spec() {
        spl_push_state(spl_push_state(spl_push_state(s)))
    } else {
        sps_push_state(sps_push_state(s))
    }
}

/// The memory writes of a push of `value`, upper byte first.
pub open spec fn push_writes(s: State, value: u32) -> Seq<(u32, u8)> {
    let u = (value / 65536 % 256) as u8;
    let h = (value / 256 % 256) as u8;
    let l = (value % 256) as u8;
    if s.is_op_long_spec() {
        let s1 = spl_push_state(s);
        let s2 = spl_push_state(s1);
        seq![(spl_push_addr(s), u), (spl_push_addr(s1), h), (spl_push_addr(s2), l)]
    } else {
        let s1 = sps_push_state(s);
        seq![(sps_push_addr(s), h), (sps_push_addr(s1), l)]
    }
}

/// The state after popping a value.
pub open spec fn pop_state(s: State) -> State {
    if s.is_op_long_spec() {
        spl_pop_state(spl_pop_state(spl_pop_state(s)))
    } else {
        sps_pop_state(sps_pop_state(s))
    }
}

/// The value that a pop reads, low byte first.
pub open spec fn pop_value<M: Machine>(s: State, m: M) -> u32 {
    if s.is_op_long_spec() {
        let s1 = spl_pop_state(s);
        let s2 = spl_pop_state(s1);
        (m.peek_spec(spl_pop_addr(s)) + 256 * m.peek_spec(spl_pop_addr(s1)) + 65536 * m.peek_spec(
            spl_pop_addr(s2),
        )) as u32
    } else {
        let s1 = sps_pop_state(s);
        (m.peek_spec(sps_pop_addr(s)) + 256 * m.peek_spec(sps_pop_addr(s1))) as u32
    }
}

/// Return from a mixed mode call made in ADL mode (RET.LIL): the flag byte
/// on SPL says whether the caller was in ADL mode.
pub open spec fn ret_mixed_adl_state<M: Machine>(s: State, m: M) -> State {
    let flag = m.peek_spec(spl_pop_addr(s));
    let s1 = spl_pop_state(s);
    if flag % 2 == 1 {
        set_pc_spec(pop_state(s1), pop_value(s1, m))
    } else {
        let s2 = spl_pop_state(s1);
        let s3 = spl_pop_state(s2);
        let address = (m.peek_spec(spl_pop_addr(s1)) + 256 * m.peek_spec(spl_pop_addr(s2))) as u32;
        let s4 = set_pc_spec(s3, address);
        State { reg: Registers { adl: false, ..s4.reg }, ..s4 }
    }
}

/// Return from a mixed mode call made in Z80 mode (RET.LIS): the flag byte
/// on SPL says whether the caller was in ADL mode.
pub open spec fn ret_mixed_z80_state<M: Machine>(s: State, m: M) -> State {
    let flag = m.peek_spec(spl_pop_addr(s));
    let s1 = spl_pop_state(s);
    if flag % 2 == 1 {
        let s2 = spl_pop_state(s1);
        let s3 = sps_pop_state(s2);
        let s4 = sps_pop_state(s3);
        let address = (65536 * m.peek_spec(spl_pop_addr(s1)) + m.peek_spec(sps_pop_addr(s2)) + 256
            * m.peek_spec(sps_pop_addr(s3))) as u32;
        set_pc_spec(State { reg: Registers { adl: true, ..s4.reg }, ..s4 }, address)
    } else {
        let s2 = sps_pop_state(s1);
        let s3 = sps_pop_state(s2);
        let address = (m.peek_spec(sps_pop_addr(s1)) + 256 * m.peek_spec(sps_pop_addr(s2))) as u32;
        set_pc_spec(State { reg: Registers { adl: false, ..s3.reg }, ..s3 }, address)
    }
}

/// The state after a return from a subroutine (RET): the size prefix
/// decides which stack holds the return address and whether ADL changes.
pub open spec fn ret_state<M: Machine>(s: State, m: M) -> State {
    if s.sz_prefix == SizePrefix::LIL || s.sz_prefix == SizePrefix::LIS {
        if s.reg.adl {
            ret_mixed_adl_state(s, m)
        } else {
            ret_mixed_z80_state(s, m)
        }
    } else {
        set_pc_spec(pop_state(s), pop_value(s, m))
    }
}

/// Address of the interrupt vector: I is its high byte.
pub open spec fn interrupt_vector<M: Machine>(s: State, m: M, number: u32) -> u32 {
    let va = (s.reg.i * 256 + number) as u32;
    (m.peek_spec(va) + 256 * m.peek_spec(wrap_spec(s, va, 1))) as u32
}

/// The state with maskable interrupts disabled.
pub open spec fn disable_interrupts_spec(s: State) -> State {
    State { reg: Registers { iff1: false, iff2: false, ..s.reg }, ..s }
}

/// The state after a maskable interrupt request (taken when IFF1 is set).
pub open spec fn interrupt_state<M: Machine>(s: State, m: M, number: u32) -> State {
    if !s.reg.iff1 {
        s
    } else {
        let v = interrupt_vector(s, m, number);
        let s1 = disable_interrupts_spec(s);
        if s.reg.madl {
            if s.reg.adl {
                set_pc_spec(spl_push_state(push_state(s1)), v)
            } else {
                let s2 = spl_push_state(spl_push_state(spl_push_state(s1)));
                set_pc_spec(State { reg: Registers { adl: true, ..s2.reg }, ..s2 }, v)
            }
        } else {
            set_pc_spec(push_state(s1), v)
        }
    }
}

/// The memory writes of a maskable interrupt request.
pub open spec fn interrupt_writes<M: Machine>(s: State, m: M, number: u32) -> Seq<(u32, u8)> {
    if !s.reg.iff1 {
        seq![]
    } else {
        let s1 = disable_interrupts_spec(s);
        let pc = s.pc_spec();
        if s.reg.madl {
            if s.reg.adl {
                push_writes(s1, pc) + seq![(spl_push_addr(push_state(s1)), 3u8)]
            } else {
                let a = spl_push_state(s1);
                let b = spl_push_state(a);
                seq![
                    (spl_push_addr(s1), (pc / 256 % 256) as u8),
                    (spl_push_addr(a), (pc % 256) as u8),
                    (spl_push_addr(b), 2u8),
                ]
            }
        } else {
            push_writes(s1, pc)
        }
    }
}

/// The register that `reg` stands for when the index register is `index`:
/// H and L become the halves of IX or IY.
pub open spec fn translate_spec(index: Reg16, reg: Reg8) -> Reg8 {
    match index {
        Reg16::IX => match reg {
            Reg8::H => Reg8::IXH,
            Reg8::L => Reg8::IXL,
            _ => reg,
        },
        Reg16::IY => match reg {
            Reg8::H => Reg8::IYH,
            Reg8::L => Reg8::IYL,
            _ => reg,
        },
        _ => reg,
    }
}

/// The index register as the assembler writes it: HL, or IX or IY followed
/// by the signed decimal displacement (as in IX+5 or IY-3).
pub open spec fn index_description_spec(s: State) -> Seq<char> {
    if s.index == Reg16::HL {
        "HL"@
    } else {
        s.index.name_spec() + signed_decimal_spec(s.displacement as int)
    }
}

/// The value of the index register (HL, IX or IY) for the data size.
pub open spec fn index_value_spec(s: State) -> u32 {
    if s.is_op_long_spec() {
        s.reg.get24_spec(s.index)
    } else {
        s.reg.get16_mbase_spec(s.index)
    }
}

/// Address of the pseudo register (HL), (IX+d) or (IY+d).
pub open spec fn index_address_spec(s: State) -> u32 {
    if s.index != Reg16::HL {
        wrap24(index_value_spec(s), s.displacement as int)
    } else {
        index_value_spec(s)
    }
}

/// The value of a register pair as operand of the instruction: HL stands for
/// the index register, and pairs are 24 bits long in long mode (AF excepted).
pub open spec fn reg16or24_ext_spec(s: State, rr: Reg16) -> u32 {
    if s.is_op_long_spec() {
        if rr == Reg16::HL {
            s.reg.get24_spec(s.index)
        } else if rr == Reg16::AF {
            s.reg.get16_spec(rr) as u32
        } else {
            s.reg.get24_spec(rr)
        }
    } else {
        if rr == Reg16::HL {
            s.reg.get16_spec(s.index) as u32
        } else {
            s.reg.get16_spec(rr) as u32
        }
    }
}

/// The register pair that `rr` stands for: HL is the index register.
pub open spec fn pair_ext(s: State, rr: Reg16) -> Reg16 {
    if rr == Reg16::HL {
        s.index
    } else {
        rr
    }
}

/// The value of an 8 bit operand: (HL) is memory at the index address.
pub open spec fn reg8_ext_spec<M: Machine>(s: State, m: M, r: Reg8) -> u8 {
    if r == Reg8::_HL {
        m.peek_spec(index_address_spec(s))
    } else {
        s.reg.get8_spec(translate_spec(s.index, r))
    }
}

/// The state after writing an 8 bit operand (a write to (HL) goes to memory).
pub open spec fn set_reg_state(s: State, r: Reg8, v: u8) -> State {
    if r == Reg8::_HL {
        s
    } else {
        State { reg: s.reg.set8_spec(translate_spec(s.index, r), v), ..s }
    }
}

/// The memory writes of writing an 8 bit operand.
pub open spec fn set_reg_writes(s: State, r: Reg8, v: u8) -> Seq<(u32, u8)> {
    if r == Reg8::_HL {
        seq![(index_address_spec(s), v)]
    } else {
        seq![]
    }
}

/// The state with new registers.
pub open spec fn with_reg(s: State, reg: Registers) -> State {
    State { reg: reg, ..s }
}

/// Address held by a register pair: 24 bits in long mode, 16 bits in the
/// MBASE page otherwise.
pub open spec fn reg_address_spec(s: State, rr: Reg16) -> u32 {
    if s.is_op_long_spec() {
        s.reg.get24_spec(rr)
    } else {
        s.reg.get16_mbase_spec(rr)
    }
}

/// The 16 bit value in memory at `a`, as `peek16` reads it.
pub open spec fn peek16_spec<M: Machine>(s: State, m: M, a: u32) -> u16 {
    (m.peek_spec(a) + 256 * m.peek_spec(wrap_spec(s, a, 1))) as u16
}

/// The 24 bit value in memory at `a`, as `peek24` reads it.
pub open spec fn peek24_spec<M: Machine>(s: State, m: M, a: u32) -> u32 {
    (m.peek_spec(a) + 256 * m.peek_spec(wrap_spec(s, a, 1)) + 65536 * m.peek_spec(wrap_spec(s, a, 2))) as u32
}

/// The memory writes of `poke16`.
pub open spec fn poke16_writes(s: State, a: u32, v: u16) -> Seq<(u32, u8)> {
    seq![(a, (v % 256) as u8), (wrap_spec(s, a, 1), (v / 256) as u8)]
}

/// The memory writes of `poke24`.
pub open spec fn poke24_writes(s: State, a: u32, v: u32) -> Seq<(u32, u8)> {
    seq![
        (a, (v % 256) as u8),
        (wrap_spec(s, a, 1), (v / 256 % 256) as u8),
        (wrap_spec(s, a, 2), (v / 65536 % 256) as u8),
    ]
}

/// The state after `set_reg16or24`.
pub open spec fn set_reg16or24_state(s: State, rr: Reg16, v: u32) -> State {
    if s.is_op_long_spec() {
        with_reg(s, s.reg.set24_spec(pair_ext(s, rr), v))
    } else {
        with_reg(s, s.reg.set16_spec(pair_ext(s, rr), (v % 65536) as u16))
    }
}

/// The signed displacement at the program counter.
pub open spec fn disp_spec<M: Machine>(s: State, m: M) -> i8 {
    code_byte(s, m, 0) as i8
}

/// A 24 bit value one more or one less, modulo 2^24.
pub open spec fn step24(v: u32, inc: bool) -> u32 {
    ((if inc { v + 1 } else { v - 1 }) % 0x1000000) as u32
}

/// A 16 bit value one more or one less, modulo 2^16.
pub open spec fn step16(v: u16, inc: bool) -> u16 {
    ((if inc { v + 1 } else { v - 1 }) % 0x10000) as u16
}

/// The program counter moved back over a repeated block instruction.
pub open spec fn repeat_pc_spec(s: State, len: int) -> State {
    set_pc_spec(s, wrap_spec(s, s.pc_spec(), -len))
}


/// Access to the CPU state and to the machine during the execution of an
/// instruction.
pub struct Environment<'a, M: Machine> {
    pub state: &'a mut State,
    pub sys: &'a mut M,
}

impl<'a, M: Machine> Environment<'a, M> {
    pub fn new(state: &'a mut State, sys: &'a mut M) -> (env: Environment<'a, M>)
        ensures
            *env.state == *old(state),
            *env.sys == *old(sys),
            *final(env.state) == *final(state),
            *final(env.sys) == *final(sys),
    {
        Environment { state, sys }
    }

    pub fn wrap_address24(&self, address: u32, increment: i32) -> (r: u32)
        ensures
            r == wrap24(address, increment as int),
    {
        proof {
            lemma_i32_as_u32(increment);
        }
        address.wrapping_add(increment as u32)
    }

    /// wrap the low 16-bits, leaving the top byte unchanged
    pub fn wrap_address16(&self, address: u32, increment: i32) -> (r: u32)
        ensures
            r == wrap16(address, increment as int),
    {
        proof {
            lemma_i32_as_u16(increment);
            assert((address & 0xff0000) == address % 0x1000000 / 0x10000 * 0x10000) by (bit_vector);
            assert((address as u16) as int == address % 0x10000) by (bit_vector);
        }
        (address & 0xff0000) + ((address as u16).wrapping_add(increment as u16) as u32)
    }

    pub fn wrap_address(&self, address: u32, increment: i32) -> (r: u32)
        ensures
            r == wrap_spec(*old(self.state), address, increment as int),
    {
        if self.state.is_op_long() {
            self.wrap_address24(address, increment)
        } else {
            self.wrap_address16(address, increment)
        }
    }

    fn mixed_call_from_adl(&mut self, pc: u32, vector: u32)
        ensures
            *final(self).state == set_pc_spec(spl_push_state(push_state(*old(self).state)), vector),
            memory_written(
                *old(self).sys,
                *final(self).sys,
                push_writes(*old(self).state, pc) + seq![(spl_push_addr(push_state(*old(self).state)), 3u8)],
            ),
            *final(final(self).state) == *final(old(self).state),
            *final(final(self).sys) == *final(old(self).sys),
    {
        let ghost m0 = *self.sys;
        let ghost s0 = *self.state;
        self.push(pc);
        let ghost m1 = *self.sys;
        let ghost a = spl_push_addr(*self.state);
        self.push_byte_spl(3);
        self.state.set_pc(vector);
        proof {
            lemma_memory_written_compose(m0, m1, *self.sys, push_writes(s0, pc), seq![(a, 3u8)]);
        }
    }

    fn mixed_call_from_z80(&mut self, pc: u32, vector: u32)
        ensures
            *final(self).state == ({
                let s2 = spl_push_state(spl_push_state(spl_push_state(*old(self).state)));
                set_pc_spec(State { reg: Registers { adl: true, ..s2.reg }, ..s2 }, vector)
            }),
            memory_written(
                *old(self).sys,
                *final(self).sys,
                seq![
                    (spl_push_addr(*old(self).state), (pc / 256 % 256) as u8),
                    (spl_push_addr(spl_push_state(*old(self).state)), (pc % 256) as u8),
                    (spl_push_addr(spl_push_state(spl_push_state(*old(self).state))), 2u8),
                ],
            ),
            *final(final(self).state) == *final(old(self).state),
            *final(final(self).sys) == *final(old(self).sys),
    {
        let ghost m0 = *self.sys;
        let ghost a0 = spl_push_addr(*self.state);
        self.push_byte_spl((pc / 256 % 256) as u8);
        let ghost m1 = *self.sys;
        let ghost a1 = spl_push_addr(*self.state);
        self.push_byte_spl((pc % 256) as u8);
        let ghost m2 = *self.sys;
        let ghost a2 = spl_push_addr(*self.state);
        self.push_byte_spl(2);
        self.state.reg.adl = true;
        self.state.set_pc(vector);
        proof {
            let w0 = seq![(a0, (pc / 256 % 256) as u8)];
            let w1 = seq![(a1, (pc % 256) as u8)];
            let w2 = seq![(a2, 2u8)];
            lemma_memory_written_compose(m0, m1, m2, w0, w1);
            lemma_memory_written_compose(m0, m2, *self.sys, w0 + w1, w2);
            assert(w0 + w1 + w2 =~= seq![(a0, (pc / 256 % 256) as u8), (a1, (pc % 256) as u8), (a2, 2u8)]);
        }
    }

    /// Maskable interrupt request: when IFF1 is set, interrupts are disabled
    /// and the CPU calls the address stored in the vector at I*256+number.
    /// In mixed memory mode (MADL) the call is a mixed mode call that records
    /// the ADL mode on SPL and switches to ADL mode.
    #[verifier::rlimit(60)]
    pub fn interrupt(&mut self, number: u32)
        requires
            old(self).state.reg.iff1 ==> old(self).state.reg.i * 256 + number <= 0xffffffff,
        ensures
            *final(self).state == interrupt_state(*old(self).state, *old(self).sys, number),
            memory_written(*old(self).sys, *final(self).sys, interrupt_writes(*old(self).state, *old(self).sys, number)),
            *final(final(self).state) == *final(old(self).state),
            *final(final(self).sys) == *final(old(self).sys),
    {
        if self.state.reg.get_iff1() {
            let vector_address = (self.state.reg.get8(Reg8::I) as u32) * 256 + number;
            let vector = self.peek16(vector_address) as u32;

            self.state.reg.set_interrupts(false);
            if self.state.reg.madl {
                let pc = self.state.pc();
                if self.state.reg.adl {
                    self.mixed_call_from_adl(pc, vector);
                } else {
                    self.mixed_call_from_z80(pc, vector);
                }
            } else {
                self.subroutine_call(vector);
            }
        }
    }

    pub fn peek(&self, address: u32) -> (v: u8)
        ensures
            v == old(self.sys).peek_spec(address),
    {
        self.sys.peek(address)
    }

    /// Sets the memory content to [value] in [address]
    pub fn poke(&mut self, address: u32, value: u8)
        ensures
            *final(self).state == *old(self).state,
            memory_written(*old(self).sys, *final(self).sys, seq![(address, value)]),
            *final(final(self).state) == *final(old(self).state),
            *final(final(self).sys) == *final(old(self).sys),
    {
        let ghost m0 = *self.sys;
        self.sys.poke(address, value);
        proof {
            lemma_poke_written(m0, *self.sys, address, value);
        }
    }

    /// Returns the memory contents in [address] as word
    pub fn peek16(&self, address: u32) -> (v: u16)
        ensures
            v == old(self.sys).peek_spec(address) + 256 * old(self.sys).peek_spec(
                wrap_spec(*old(self.state), address, 1),
            ),
    {
        (self.sys.peek(address) as u16) + ((self.sys.peek(self.wrap_address(address, 1)) as u16) * 256)
    }

    /// Sets the memory content to the word [value] in [address]
    pub fn poke16(&mut self, address: u32, value: u16)
        ensures
            *final(self).state == *old(self).state,
            memory_written(
                *old(self).sys,
                *final(self).sys,
                seq![
                    (address, (value % 256) as u8),
                    (wrap_spec(*old(self).state, address, 1), (value / 256) as u8),
                ],
            ),
            *final(final(self).state) == *final(old(self).state),
            *final(final(self).sys) == *final(old(self).sys),
    {
        let ghost m0 = *self.sys;
        let a1 = self.wrap_address(address, 1);
        self.poke(address, (value % 256) as u8);
        let ghost m1 = *self.sys;
        self.poke(a1, (value / 256) as u8);
        proof {
            lemma_memory_written_compose(
                m0,
                m1,
                *self.sys,
                seq![(address, (value % 256) as u8)],
                seq![(a1, (value / 256) as u8)],
            );
            assert(seq![(address, (value % 256) as u8)] + seq![(a1, (value / 256) as u8)] =~= seq![
                (address, (value % 256) as u8),
                (a1, (value / 256) as u8),
            ]);
        }
    }

    pub fn peek24(&self, address: u32) -> (v: u32)
        ensures
            v == old(self.sys).peek_spec(address) + 256 * old(self.sys).peek_spec(
                wrap_spec(*old(self.state), address, 1),
            ) + 65536 * old(self.sys).peek_spec(wrap_spec(*old(self.state), address, 2)),
    {
        (self.sys.peek(address) as u32) + ((self.sys.peek(self.wrap_address(address, 1)) as u32)
            * 256) + ((self.sys.peek(self.wrap_address(address, 2)) as u32) * 65536)
    }

    pub fn poke24(&mut self, address: u32, value: u32)
        ensures
            *final(self).state == *old(self).state,
            memory_written(
                *old(self).sys,
                *final(self).sys,
                seq![
                    (address, (value % 256) as u8),
                    (wrap_spec(*old(self).state, address, 1), (value / 256 % 256) as u8),
                    (wrap_spec(*old(self).state, address, 2), (value / 65536 % 256) as u8),
                ],
            ),
            *final(final(self).state) == *final(old(self).state),
            *final(final(self).sys) == *final(old(self).sys),
    {
        let ghost m0 = *self.sys;
        let a1 = self.wrap_address(address, 1);
        let a2 = self.wrap_address(address, 2);
        let w0 = (value % 256) as u8;
        let w1 = (value / 256 % 256) as u8;
        let w2 = (value / 65536 % 256) as u8;
        self.poke(address, w0);
        let ghost m1 = *self.sys;
        self.poke(a1, w1);
        let ghost m2 = *self.sys;
        self.poke(a2, w2);
        proof {
            lemma_memory_written_compose(m0, m1, m2, seq![(address, w0)], seq![(a1, w1)]);
            lemma_memory_written_compose(
                m0,
                m2,
                *self.sys,
                seq![(address, w0)] + seq![(a1, w1)],
                seq![(a2, w2)],
            );
            assert(seq![(address, w0)] + seq![(a1, w1)] + seq![(a2, w2)] =~= seq![
                (address, w0),
                (a1, w1),
                (a2, w2),
            ]);
        }
    }

    pub fn peek_pc(&self) -> (v: u8)
        ensures
            v == old(self.sys).peek_spec(old(self.state).pc_spec()),
    {
        let pc = self.state.pc();
        self.sys.peek(pc)
    }

    /// Returns the byte at the program counter and moves past it.
    pub fn advance_pc(&mut self) -> (v: u8)
        ensures
            v == old(self).sys.peek_spec(old(self).state.pc_spec()),
            *final(self).state == advance_pc_spec(*old(self).state),
            *final(self).sys == *old(self).sys,
            *final(final(self).state) == *final(old(self).state),
            *final(final(self).sys) == *final(old(self).sys),
    {
        let pc = self.state.pc();
        let value = self.sys.peek(pc);
        if self.state.reg.adl {
            let next = self.wrap_address24(pc, 1);
            self.state.set_pc(next);
        } else {
            let next = self.wrap_address16(pc, 1);
            self.state.set_pc(next);
        }
        value
    }

    pub fn peek16_pc(&self) -> (v: u16)
        ensures
            v == old(self.sys).peek_spec(old(self.state).pc_spec()) + 256 * old(self.sys).peek_spec(
                wrap_spec(*old(self.state), old(self.state).pc_spec(), 1),
            ),
    {
        let pc = self.state.pc();
        self.peek16(pc)
    }

    pub fn peek24_pc(&self) -> (v: u32)
        ensures
            v == old(self.sys).peek_spec(old(self.state).pc_spec()) + 256 * old(self.sys).peek_spec(
                wrap_spec(*old(self.state), old(self.state).pc_spec(), 1),
            ) + 65536 * old(self.sys).peek_spec(wrap_spec(*old(self.state), old(self.state).pc_spec(), 2)),
    {
        let pc = self.state.pc();
        self.peek24(pc)
    }

    /// Reads a 16 bit immediate and moves past it.
    pub fn advance_immediate16(&mut self) -> (v: u16)
        ensures
            v == imm16_spec(*old(self).state, *old(self).sys),
            *final(self).state == advance_n_spec(*old(self).state, 2),
            *final(self).sys == *old(self).sys,
            *final(final(self).state) == *final(old(self).state),
            *final(final(self).sys) == *final(old(self).sys),
    {
        let ghost s0 = *self.state;
        let mut value: u16 = self.advance_pc() as u16;
        value = value + (self.advance_pc() as u16) * 256;
        proof {
            reveal_with_fuel(advance_n_spec, 3);
        }
        value
    }

    /// Reads a 24 bit immediate and moves past it.
    pub fn advance_immediate24(&mut self) -> (v: u32)
        ensures
            v == imm24_spec(*old(self).state, *old(self).sys),
            *final(self).state == advance_n_spec(*old(self).state, 3),
            *final(self).sys == *old(self).sys,
            *final(final(self).state) == *final(old(self).state),
            *final(final(self).sys) == *final(old(self).sys),
    {
        let mut value = self.advance_pc() as u32;
        value = value + (self.advance_pc() as u32) * 256;
        value = value + (self.advance_pc() as u32) * 65536;
        proof {
            reveal_with_fuel(advance_n_spec, 4);
        }
        value
    }

    /// Reads an immediate of 16 or 24 bits, as the size prefix and ADL say.
    pub fn advance_immediate16or24(&mut self) -> (v: u32)
        ensures
            v == imm16or24_spec(*old(self).state, *old(self).sys),
            *final(self).state == advance_n_spec(*old(self).state, imm_len(*old(self).state)),
            *final(self).sys == *old(self).sys,
            *final(final(self).state) == *final(old(self).state),
            *final(final(self).sys) == *final(old(self).sys),
    {
        if self.state.is_imm_long() {
            self.advance_immediate24()
        } else {
            self.advance_immediate16() as u32
        }
    }

    /// Reads an immediate address: 24 bits in long mode, or 16 bits in the
    /// MBASE page.
    pub fn advance_immediate_16mbase_or_24(&mut self) -> (v: u32)
        ensures
            v == imm_address_spec(*old(self).state, *old(self).sys),
            *final(self).state == advance_n_spec(*old(self).state, imm_len(*old(self).state)),
            *final(self).sys == *old(self).sys,
            *final(final(self).state) == *final(old(self).state),
            *final(final(self).sys) == *final(old(self).sys),
    {
        let ghost s0 = *self.state;
        let imm = if self.state.is_imm_long() {
            self.advance_immediate24()
        } else {
            self.advance_immediate16() as u32
        };
        proof {
            lemma_advance_keeps_mode(s0, imm_len(s0));
        }
        if self.state.is_op_long() {
            imm
        } else {
            (imm % 65536) + (self.state.reg.mbase as u32) * 65536
        }
    }

    pub fn push_byte_sps(&mut self, value: u8)
        ensures
            *final(self).state == sps_push_state(*old(self).state),
            memory_written(*old(self).sys, *final(self).sys, seq![(sps_push_addr(*old(self).state), value)]),
            *final(final(self).state) == *final(old(self).state),
            *final(final(self).sys) == *final(old(self).sys),
    {
        let sps = self.wrap_address16(self.state.reg.get16_mbase(Reg16::SP), -1);
        self.poke(sps, value);
        self.state.reg.set16(Reg16::SP, (sps % 65536) as u16);
    }

    pub fn pop_byte_sps(&mut self) -> (v: u8)
        ensures
            v == old(self).sys.peek_spec(sps_pop_addr(*old(self).state)),
            *final(self).state == sps_pop_state(*old(self).state),
            *final(self).sys == *old(self).sys,
            *final(final(self).state) == *final(old(self).state),
            *final(final(self).sys) == *final(old(self).sys),
    {
        let sps = self.state.reg.get16_mbase(Reg16::SP);
        let l = self.sys.peek(sps);
        let next = self.wrap_address16(sps, 1);
        self.state.reg.set16(Reg16::SP, (next % 65536) as u16);
        l
    }

    pub fn push_byte_spl(&mut self, value: u8)
        ensures
            *final(self).state == spl_push_state(*old(self).state),
            memory_written(*old(self).sys, *final(self).sys, seq![(spl_push_addr(*old(self).state), value)]),
            *final(final(self).state) == *final(old(self).state),
            *final(final(self).sys) == *final(old(self).sys),
    {
        let spl = self.wrap_address24(self.state.reg.get24(Reg16::SP), -1);
        self.poke(spl, value);
        self.state.reg.set24(Reg16::SP, spl);
    }

    pub fn pop_byte_spl(&mut self) -> (v: u8)
        ensures
            v == old(self).sys.peek_spec(spl_pop_addr(*old(self).state)),
            *final(self).state == spl_pop_state(*old(self).state),
            *final(self).sys == *old(self).sys,
            *final(final(self).state) == *final(old(self).state),
            *final(final(self).sys) == *final(old(self).sys),
    {
        let spl = self.state.reg.get24(Reg16::SP);
        let l = self.sys.peek(spl);
        let next = self.wrap_address24(spl, 1);
        self.state.reg.set24(Reg16::SP, next);
        l
    }

    /// Pushes the low 24 bits of `value` on SPL in long mode, its low 16 bits
    /// on SPS otherwise.
    #[verifier::rlimit(40)]
    pub fn push(&mut self, value: u32)
        ensures
            *final(self).state == push_state(*old(self).state),
            memory_written(*old(self).sys, *final(self).sys, push_writes(*old(self).state, value)),
            *final(final(self).state) == *final(old(self).state),
            *final(final(self).sys) == *final(old(self).sys),
    {
        let u = (value / 65536 % 256) as u8;
        let h = (value / 256 % 256) as u8;
        let l = (value % 256) as u8;
        let ghost s0 = *self.state;
        let ghost m0 = *self.sys;
        if self.state.is_op_long() {
            let ghost a0 = spl_push_addr(s0);
            self.push_byte_spl(u);
            let ghost m1 = *self.sys;
            let ghost a1 = spl_push_addr(*self.state);
            self.push_byte_spl(h);
            let ghost m2 = *self.sys;
            let ghost a2 = spl_push_addr(*self.state);
            self.push_byte_spl(l);
            proof {
                lemma_memory_written_compose(m0, m1, m2, seq![(a0, u)], seq![(a1, h)]);
                lemma_memory_written_compose(m0, m2, *self.sys, seq![(a0, u)] + seq![(a1, h)], seq![(a2, l)]);
                assert(seq![(a0, u)] + seq![(a1, h)] + seq![(a2, l)] =~= seq![(a0, u), (a1, h), (a2, l)]);
            }
        } else {
            let ghost a0 = sps_push_addr(s0);
            self.push_byte_sps(h);
            let ghost m1 = *self.sys;
            let ghost a1 = sps_push_addr(*self.state);
            self.push_byte_sps(l);
            proof {
                lemma_memory_written_compose(m0, m1, *self.sys, seq![(a0, h)], seq![(a1, l)]);
                assert(seq![(a0, h)] + seq![(a1, l)] =~= seq![(a0, h), (a1, l)]);
            }
        }
    }

    /// Pops 24 bits from SPL in long mode, 16 bits from SPS otherwise.
    pub fn pop(&mut self) -> (v: u32)
        ensures
            v == pop_value(*old(self).state, *old(self).sys),
            *final(self).state == pop_state(*old(self).state),
            *final(self).sys == *old(self).sys,
            *final(final(self).state) == *final(old(self).state),
            *final(final(self).sys) == *final(old(self).sys),
    {
        let u;
        let h;
        let l;

        if self.state.is_op_long() {
            l = self.pop_byte_spl();
            h = self.pop_byte_spl();
            u = self.pop_byte_spl();
        } else {
            l = self.pop_byte_sps();
            h = self.pop_byte_sps();
            u = 0;
        }
        (l as u32) + (h as u32) * 256 + (u as u32) * 65536
    }

    /// Pushes the program counter and jumps to `address`.
    pub fn subroutine_call(&mut self, address: u32)
        ensures
            *final(self).state == set_pc_spec(push_state(*old(self).state), address),
            memory_written(
                *old(self).sys,
                *final(self).sys,
                push_writes(*old(self).state, old(self).state.pc_spec()),
            ),
            *final(final(self).state) == *final(old(self).state),
            *final(final(self).sys) == *final(old(self).sys),
    {
        let pc = self.state.pc();
        self.push(pc);
        self.state.set_pc(address);
    }

    #[verifier::rlimit(50)]
    fn return_mixed_adl(&mut self)
        requires
            old(self).state.reg.adl,
            old(self).state.sz_prefix == SizePrefix::LIL || old(self).state.sz_prefix == SizePrefix::LIS,
        ensures
            *final(self).state == ret_mixed_adl_state(*old(self).state, *old(self).sys),
            *final(self).sys == *old(self).sys,
            *final(final(self).state) == *final(old(self).state),
            *final(final(self).sys) == *final(old(self).sys),
    {
        let adl_flag = self.pop_byte_spl();
        if adl_flag % 2 == 1 {
            let address = self.pop();
            self.state.set_pc(address);
        } else {
            let mut address = self.pop_byte_spl() as u32;
            address = address + (self.pop_byte_spl() as u32) * 256;
            self.state.set_pc(address);
            self.state.reg.adl = false;
        }
    }

    #[verifier::rlimit(50)]
    fn return_mixed_z80(&mut self)
        requires
            !old(self).state.reg.adl,
        ensures
            *final(self).state == ret_mixed_z80_state(*old(self).state, *old(self).sys),
            *final(self).sys == *old(self).sys,
            *final(final(self).state) == *final(old(self).state),
            *final(final(self).sys) == *final(old(self).sys),
    {
        let adl_flag = self.pop_byte_spl();
        if adl_flag % 2 == 1 {
            let mut address = (self.pop_byte_spl() as u32) * 65536;
            address = address + self.pop_byte_sps() as u32;
            address = address + (self.pop_byte_sps() as u32) * 256;
            self.state.reg.adl = true;
            self.state.set_pc(address);
        } else {
            let mut address = self.pop_byte_sps() as u32;
            address = address + (self.pop_byte_sps() as u32) * 256;
            self.state.reg.adl = false;
            self.state.set_pc(address);
        }
    }

    /// Returns from a subroutine: pops the return address, from SPL or SPS
    /// as the size prefix says, with the change of ADL mode that the eZ80
    /// mixed mode calls record on the stack. Prefixes other than LIL and LIS
    /// are not valid on RET; they are handled as no prefix.
    pub fn subroutine_return(&mut self)
        ensures
            *final(self).state == ret_state(*old(self).state, *old(self).sys),
            *final(self).sys == *old(self).sys,
            *final(final(self).state) == *final(old(self).state),
            *final(final(self).sys) == *final(old(self).sys),
    {
        match self.state.sz_prefix {
            // according to spec only LIL is valid in ADL mode and LIS in Z80
            // mode, but both work in both modes
            SizePrefix::LIL | SizePrefix::LIS => {
                if self.state.reg.adl {
                    self.return_mixed_adl();
                } else {
                    self.return_mixed_z80();
                }
            },
            _ => {
                let pc = self.pop();
                self.state.set_pc(pc);
            },
        }
    }

    pub fn set_index(&mut self, index: Reg16)
        ensures
            *final(self).state == (State { index: index, ..*old(self).state }),
            *final(self).sys == *old(self).sys,
            *final(final(self).state) == *final(old(self).state),
            *final(final(self).sys) == *final(old(self).sys),
    {
        self.state.index = index;
    }

    pub fn clear_index(&mut self)
        ensures
            *final(self).state == (State { index: Reg16::HL, ..*old(self).state }),
            *final(self).sys == *old(self).sys,
            *final(final(self).state) == *final(old(self).state),
            *final(final(self).sys) == *final(old(self).sys),
    {
        self.state.index = Reg16::HL;
    }

    pub fn get_index(&self) -> (r: Reg16)
        ensures
            r == old(self.state).index,
    {
        self.state.index
    }

    /// The index register as the assembler writes it: HL, or IX or IY with
    /// the signed decimal displacement.
    pub fn index_description(&self) -> (d: String)
        ensures
            d@ == index_description_spec(*old(self.state)),
    {
        if self.state.index == Reg16::HL {
            String::from_str("HL")
        } else {
            let mut d = String::from_str(self.state.index.name());
            d.append(signed_decimal_string(self.state.displacement).as_str());
            d
        }
    }

    pub fn is_alt_index(&self) -> (b: bool)
        ensures
            b == (old(self.state).index != Reg16::HL),
    {
        self.state.index != Reg16::HL
    }

    /// Reads the displacement byte of (IX+d) and (IY+d), a signed 8-bit
    /// integer, and moves past it.
    pub fn load_displacement(&mut self)
        ensures
            *final(self).state == (State {
                displacement: old(self).sys.peek_spec(old(self).state.pc_spec()) as i8,
                ..advance_pc_spec(*old(self).state)
            }),
            *final(self).sys == *old(self).sys,
            *final(final(self).state) == *final(old(self).state),
            *final(final(self).sys) == *final(old(self).sys),
    {
        let d = self.advance_pc();
        self.state.displacement = d as i8;
    }

    pub fn index_value(&self) -> (v: u32)
        ensures
            v == index_value_spec(*old(self.state)),
    {
        if self.state.is_op_long() {
            self.state.reg.get24(self.state.index)
        } else {
            self.state.reg.get16_mbase(self.state.index)
        }
    }

    /// Address of the pseudo register (HL), (IX+d) or (IY+d)
    pub fn index_address(&self) -> (v: u32)
        ensures
            v == index_address_spec(*old(self.state)),
    {
        let address = if self.state.is_op_long() {
            self.state.reg.get24(self.state.index)
        } else {
            self.state.reg.get16_mbase(self.state.index)
        };
        if self.is_alt_index() {
            self.wrap_address24(address, self.state.displacement as i32)
        } else {
            address
        }
    }

    fn translate_reg(&self, reg: Reg8) -> (r: Reg8)
        ensures
            r == translate_spec(old(self.state).index, reg),
    {
        match self.state.index {
            Reg16::IX => match reg {
                Reg8::H => Reg8::IXH,
                Reg8::L => Reg8::IXL,
                _ => reg,
            },
            Reg16::IY => match reg {
                Reg8::H => Reg8::IYH,
                Reg8::L => Reg8::IYL,
                _ => reg,
            },
            _ => reg,
        }
    }

    /// Value of an 8 bit operand: (HL) reads memory at the index address, H
    /// and L stand for the halves of the index register.
    pub fn reg8_ext(&self, reg: Reg8) -> (v: u8)
        ensures
            v == if reg == Reg8::_HL {
                old(self.sys).peek_spec(index_address_spec(*old(self.state)))
            } else {
                old(self.state).reg.get8_spec(translate_spec(old(self.state).index, reg))
            },
    {
        if reg == Reg8::_HL {
            self.sys.peek(self.index_address())
        } else {
            self.state.reg.get8(self.translate_reg(reg))
        }
    }

    /// The value of a register pair as an address: 24 bits in long mode, 16
    /// bits in the MBASE page otherwise.
    pub fn reg16mbase_or_24(&mut self, rr: Reg16) -> (v: u32)
        ensures
            v == if old(self).state.is_op_long_spec() {
                old(self).state.reg.get24_spec(rr)
            } else {
                old(self).state.reg.get16_mbase_spec(rr)
            },
            *final(self).state == *old(self).state,
            *final(self).sys == *old(self).sys,
            *final(final(self).state) == *final(old(self).state),
            *final(final(self).sys) == *final(old(self).sys),
    {
        if self.state.is_op_long() {
            self.state.reg.get24(rr)
        } else {
            self.state.reg.get16_mbase(rr)
        }
    }

    pub fn reg16or24_ext(&self, rr: Reg16) -> (v: u32)
        ensures
            v == reg16or24_ext_spec(*old(self.state), rr),
    {
        if self.state.is_op_long() {
            if rr == Reg16::HL {
                self.state.reg.get24(self.state.index)
            } else if rr == Reg16::AF {
                self.state.reg.get16(rr) as u32
            } else {
                self.state.reg.get24(rr)
            }
        } else {
            if rr == Reg16::HL {
                self.state.reg.get16(self.state.index) as u32
            } else {
                self.state.reg.get16(rr) as u32
            }
        }
    }

    /// Writes an 8 bit operand: (HL) writes memory at the index address, H
    /// and L stand for the halves of the index register.
    pub fn set_reg(&mut self, reg: Reg8, value: u8)
        ensures
            reg == Reg8::_HL ==> *final(self).state == *old(self).state && memory_written(
                *old(self).sys,
                *final(self).sys,
                seq![(index_address_spec(*old(self).state), value)],
            ),
            reg != Reg8::_HL ==> *final(self).state == (State {
                reg: old(self).state.reg.set8_spec(translate_spec(old(self).state.index, reg), value),
                ..*old(self).state
            }) && *final(self).sys == *old(self).sys,
            *final(final(self).state) == *final(old(self).state),
            *final(final(self).sys) == *final(old(self).sys),
    {
        if reg == Reg8::_HL {
            let address = self.index_address();
            self.poke(address, value);
        } else {
            let r = self.translate_reg(reg);
            self.state.reg.set8(r, value);
        }
    }

    pub fn set_reg16or24(&mut self, rr: Reg16, value: u32)
        ensures
            *final(self).state == (State {
                reg: if old(self).state.is_op_long_spec() {
                    old(self).state.reg.set24_spec(pair_ext(*old(self).state, rr), value)
                } else {
                    old(self).state.reg.set16_spec(pair_ext(*old(self).state, rr), (value % 65536) as u16)
                },
                ..*old(self).state
            }),
            *final(self).sys == *old(self).sys,
            *final(final(self).state) == *final(old(self).state),
            *final(final(self).sys) == *final(old(self).sys),
    {
        if self.state.is_op_long() {
            self.set_reg24(rr, value);
        } else {
            self.set_reg16(rr, (value % 65536) as u16);
        }
    }

    pub fn set_reg16(&mut self, rr: Reg16, value: u16)
        ensures
            *final(self).state == (State {
                reg: old(self).state.reg.set16_spec(pair_ext(*old(self).state, rr), value),
                ..*old(self).state
            }),
            *final(self).sys == *old(self).sys,
            *final(final(self).state) == *final(old(self).state),
            *final(final(self).sys) == *final(old(self).sys),
    {
        if rr == Reg16::HL {
            let index = self.state.index;
            self.state.reg.set16(index, value);
        } else {
            self.state.reg.set16(rr, value);
        }
    }

    pub fn set_reg16_preserve_17_to_24(&mut self, rr: Reg16, value: u16)
        ensures
            *final(self).state == (State {
                reg: old(self).state.reg.set16_keep_upper_spec(pair_ext(*old(self).state, rr), value),
                ..*old(self).state
            }),
            *final(self).sys == *old(self).sys,
            *final(final(self).state) == *final(old(self).state),
            *final(final(self).sys) == *final(old(self).sys),
    {
        if rr == Reg16::HL {
            let index = self.state.index;
            self.state.reg.set16_preserve_17_to_24(index, value);
        } else {
            self.state.reg.set16_preserve_17_to_24(rr, value);
        }
    }

    pub fn set_reg24(&mut self, rr: Reg16, value: u32)
        ensures
            *final(self).state == (State {
                reg: old(self).state.reg.set24_spec(pair_ext(*old(self).state, rr), value),
                ..*old(self).state
            }),
            *final(self).sys == *old(self).sys,
            *final(final(self).state) == *final(old(self).state),
            *final(final(self).sys) == *final(old(self).sys),
    {
        if rr == Reg16::HL {
            let index = self.state.index;
            self.state.reg.set24(index, value);
        } else {
            self.state.reg.set24(rr, value);
        }
    }

    pub fn port_in(&mut self, address: u16) -> (v: u8)
        ensures
            *final(self).state == *old(self).state,
            io_written(*old(self).sys, *final(self).sys, seq![], seq![PortAccess::Read { address, value: v }]),
            *final(final(self).state) == *final(old(self).state),
            *final(final(self).sys) == *final(old(self).sys),
    {
        let v = self.sys.port_in(address);
        proof {
            assert(old(self).sys.port_log()@.push(PortAccess::Read { address, value: v }) =~= old(self).sys.port_log()@ + seq![PortAccess::Read { address, value: v }]);
        }
        v
    }

    pub fn port_out(&mut self, address: u16, value: u8)
        ensures
            *final(self).state == *old(self).state,
            io_written(*old(self).sys, *final(self).sys, seq![], seq![PortAccess::Write { address, value }]),
            *final(final(self).state) == *final(old(self).state),
            *final(final(self).sys) == *final(old(self).sys),
    {
        self.sys.port_out(address, value);
        proof {
            assert(old(self).sys.port_log()@.push(PortAccess::Write { address, value }) =~= old(self).sys.port_log()@ + seq![PortAccess::Write { address, value }]);
        }
    }
}

/// Advancing the program counter changes neither the data size nor the
/// immediate size nor anything but the program counter.
pub proof fn lemma_advance_keeps_mode(s: State, n: nat)
    ensures
        advance_n_spec(s, n).is_op_long_spec() == s.is_op_long_spec(),
        advance_n_spec(s, n).is_imm_long_spec() == s.is_imm_long_spec(),
        advance_n_spec(s, n) == (State { reg: Registers { pc: advance_n_spec(s, n).reg.pc, ..s.reg }, ..s }),
    decreases n,
{
    if n > 0 {
        lemma_advance_keeps_mode(s, (n - 1) as nat);
    }
}

} // verus!
