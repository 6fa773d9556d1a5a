# ez80

An emulator of the Zilog Z80 and eZ80 CPUs, written in Verus.

The library (`src/`) holds the CPU state and registers, the instruction
decoder, the instructions, the disassembler and a few memory tools. Each
instruction is described by specification functions of the state, the
memory and the byte read from a port (`step.rs`): the next state, the memory
writes and the port accesses. A `Machine` records its port accesses in a
log (`port_log`), and `Cpu::execute_instruction` is proved to take a pending
reset or NMI, decode the instruction at PC, run it and retire it as
`instruction_step` says.

The eZ80 decoder reads 0x40, 0x49, 0x52 and 0x5B as size suffixes; the
decoder of the Z80 and 8080 constructors reads them as the loads LD r, r.
`execute_instruction` returns what the instruction reports (an opcode that
is not implemented, or a size suffix that the eZ80 does not define for it),
for the host to show.

`vdp.rs` holds the protocol of the minimal VDP of an Agon Light as a step
function from a state and a received byte to the next state and an action.
`mos.rs` holds the host side of the MOS file calls: which call the CPU
entered, its arguments on the stack, the FatFS FIL structure and the
result returned in HL. `app/` holds the Agon Light machine (the file and
terminal I/O of those calls, the UART, and the VDP loop on standard
output) that runs on the library.
