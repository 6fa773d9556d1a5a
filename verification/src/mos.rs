use vstd::prelude::*;

use crate::cpu::Cpu;
use crate::environment::{Environment, ret_state};
use crate::machine::{Machine, lemma_memory_written_compose, lemma_poke_written, memory_written};
use crate::registers::Reg16;
use crate::state::State;
use crate::z80_mem_tools::{copy_writes, fill_writes, memcpy_to_z80, memset};

verus! {

/*
    The host side of the MOS file calls (f_open, f_close, f_read, f_write,
    f_gets) of an Agon: when the CPU reaches one of them, the host reads the
    arguments from the stack, does the file work, fills the FatFS FIL
    structure and returns to the caller with the result in HL.
*/

/// Size of the FatFS FIL structure.
pub const SIZEOF_MOS_FIL_STRUCT: u32 = 36;

/// Offset of the object size in the FIL structure.
pub const FIL_MEMBER_OBJSIZE: u32 = 11;

/// Offset of the file position in the FIL structure.
pub const FIL_MEMBER_FPTR: u32 = 17;

/// f_open mode bit: open for writing.
pub const FA_WRITE: u32 = 2;

/// f_open mode bit: create the file.
pub const FA_CREATE_NEW: u32 = 4;

/// Largest file size recorded in a FIL structure (512 KiB).
pub const MAX_FILE_LEN: u64 = 0x80000;

/// FatFS result: success.
pub const FR_OK: u32 = 0;

/// FatFS result: an error of the disk.
pub const FR_DISK_ERR: u32 = 1;

/// FatFS result: no such file.
pub const FR_NO_FILE: u32 = 4;

/// The MOS file calls that the host serves.
#[derive(Clone, Copy, Debug, PartialEq, Eq, Structural)]
pub enum MosCall {
    Close,
    Gets,
    Read,
    Open,
    Write,
}

/// The call whose entry point in MOS 1.03 is `pc`.
pub open spec fn mos_call_spec(pc: u32) -> Option<MosCall> {
    if pc == 0x822b {
        Some(MosCall::Close)
    } else if pc == 0x9c91 {
        Some(MosCall::Gets)
    } else if pc == 0x785e {
        Some(MosCall::Read)
    } else if pc == 0x738c {
        Some(MosCall::Open)
    } else if pc == 0x7c10 {
        Some(MosCall::Write)
    } else {
        None
    }
}

/// The MOS file call at the program counter `pc`, if any.
pub fn mos_call(pc: u32) -> (r: Option<MosCall>)
    ensures
        r == mos_call_spec(pc),
{
    if pc == 0x822b {
        Some(MosCall::Close)
    } else if pc == 0x9c91 {
        Some(MosCall::Gets)
    } else if pc == 0x785e {
        Some(MosCall::Read)
    } else if pc == 0x738c {
        Some(MosCall::Open)
    } else if pc == 0x7c10 {
        Some(MosCall::Write)
    } else {
        None
    }
}

/// Address of the argument `i` (0, 1 or 2) of a MOS call: the arguments are
/// 24 bit values on the stack above the return address.
pub open spec fn mos_arg_address(s: State, i: u32) -> int {
    s.sp_spec() + 3 + 3 * i
}

/// The argument `i` (0, 1 or 2) of the MOS call that the CPU is entering.
pub fn mos_arg<M: Machine>(state: &State, sys: &M, i: u32) -> (v: u32)
    requires
        i < 3,
        state.sp_spec() + 9 <= u32::MAX,
    ensures
        ({
            let a = mos_arg_address(*state, i) as u32;
            v == sys.peek_spec(a) + 256 * sys.peek_spec(a.wrapping_add(1)) + 65536 * sys.peek_spec(
                a.wrapping_add(2),
            )
        }),
{
    let a = state.sp() + 3 + 3 * i;
    sys._peek24(a)
}

/// The result of f_open: FR_OK when the file opened, FR_NO_FILE when it
/// was not found, FR_DISK_ERR for any other failure.
pub fn open_result(opened: bool, not_found: bool) -> (r: u32)
    ensures
        r == (if opened {
            FR_OK
        } else if not_found {
            FR_NO_FILE
        } else {
            FR_DISK_ERR
        }),
{
    if opened {
        FR_OK
    } else if not_found {
        FR_NO_FILE
    } else {
        FR_DISK_ERR
    }
}

/// How f_open opens the file for `mode`: for writing, and creating it.
pub fn open_mode(mode: u32) -> (r: (bool, bool))
    ensures
        r == (mode & FA_WRITE != 0, mode & FA_CREATE_NEW != 0),
{
    (mode & FA_WRITE != 0, mode & FA_CREATE_NEW != 0)
}

/// f_gets stops after a newline or a zero byte.
pub fn gets_stops_at(b: u8) -> (r: bool)
    ensures
        r == (b == 10 || b == 0),
{
    b == 10 || b == 0
}

/// The 3 bytes of the low 24 bits of `v`, low byte first.
pub open spec fn le24(v: u32) -> Seq<u8> {
    seq![(v % 256) as u8, (v / 256 % 256) as u8, (v / 65536 % 256) as u8]
}

/// Writes the low 24 bits of `v` at `address`, low byte first.
fn store24<M: Machine>(sys: &mut M, address: u32, v: u32)
    requires
        address + 3 <= u32::MAX,
    ensures
        memory_written(*old(sys), *final(sys), copy_writes(address, le24(v))),
{
    let bytes = vec![(v % 256) as u8, (v / 256 % 256) as u8, (v / 65536 % 256) as u8];
    proof {
        assert(bytes@ =~= le24(v));
    }
    memcpy_to_z80(sys, address, bytes.as_slice());
}

/// Records the file position `fpos` (its low 24 bits) in the FIL structure
/// at `fptr`.
pub fn store_file_position<M: Machine>(sys: &mut M, fptr: u32, fpos: u64)
    requires
        fptr + FIL_MEMBER_FPTR + 3 <= u32::MAX,
    ensures
        memory_written(*old(sys), *final(sys), copy_writes((fptr + FIL_MEMBER_FPTR) as u32, le24(fpos as u32))),
{
    store24(sys, fptr + FIL_MEMBER_FPTR, fpos as u32);
}

/// The size recorded for a file of `len` bytes: at most 512 KiB.
pub open spec fn recorded_len(len: u64) -> u32 {
    (if len < MAX_FILE_LEN {
        len
    } else {
        MAX_FILE_LEN
    }) as u32
}

/// Fills the FIL structure at `fptr` of a file just opened: zeroes, then
/// the size of the file (at most 512 KiB).
pub fn init_fil<M: Machine>(sys: &mut M, fptr: u32, file_len: u64)
    requires
        fptr + SIZEOF_MOS_FIL_STRUCT <= u32::MAX,
    ensures
        memory_written(
            *old(sys),
            *final(sys),
            fill_writes(fptr, 0, SIZEOF_MOS_FIL_STRUCT as nat) + copy_writes(
                (fptr + FIL_MEMBER_OBJSIZE) as u32,
                le24(recorded_len(file_len)),
            ),
        ),
{
    let ghost m0 = *sys;
    memset(sys, fptr, 0, SIZEOF_MOS_FIL_STRUCT);
    let ghost m1 = *sys;
    let len = if file_len < MAX_FILE_LEN {
        file_len
    } else {
        MAX_FILE_LEN
    };
    store24(sys, fptr + FIL_MEMBER_OBJSIZE, len as u32);
    proof {
        lemma_memory_written_compose(
            m0,
            m1,
            *sys,
            fill_writes(fptr, 0, SIZEOF_MOS_FIL_STRUCT as nat),
            copy_writes((fptr + FIL_MEMBER_OBJSIZE) as u32, le24(recorded_len(file_len))),
        );
    }
}

/// Stores the line that f_gets read at `buf`, followed by a zero byte.
pub fn store_line<M: Machine>(sys: &mut M, buf: u32, line: &[u8])
    requires
        buf + line@.len() <= u32::MAX,
    ensures
        memory_written(*old(sys), *final(sys), copy_writes(buf, line@.push(0))),
{
    let ghost m0 = *sys;
    memcpy_to_z80(sys, buf, line);
    let ghost m1 = *sys;
    let end = buf + line.len() as u32;
    sys.poke(end, 0);
    proof {
        lemma_poke_written(m1, *sys, end, 0);
        lemma_memory_written_compose(m0, m1, *sys, copy_writes(buf, line@), seq![(end, 0u8)]);
        assert(copy_writes(buf, line@) + seq![(end, 0u8)] =~= copy_writes(buf, line@.push(0)));
    }
}

/// Ends a MOS call: HL holds `result` and the call returns to its caller.
pub fn finish_mos_call<M: Machine>(cpu: &mut Cpu, sys: &mut M, result: u32)
    ensures
        final(cpu).state == ret_state(
            State { reg: old(cpu).state.reg.set24_spec(Reg16::HL, result), ..old(cpu).state },
            *old(sys),
        ),
        *final(sys) == *old(sys),
        final(cpu).trace == old(cpu).trace,
        final(cpu).decoder == old(cpu).decoder,
{
    cpu.state.reg.set24(Reg16::HL, result);
    let mut env = Environment::new(&mut cpu.state, sys);
    env.subroutine_return();
}

} // verus!
