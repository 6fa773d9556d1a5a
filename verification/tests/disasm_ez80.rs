use ez80::{Cpu, Machine, PlainMachine};

fn test_disasm_z80(code: &[u8], expected: &str) {
    let mut sys = PlainMachine::new();
    let mut cpu = Cpu::new_ez80();

    for i in 0..code.len() {
        sys.poke(i as u32, code[i]);
    }

    let disasm = cpu.disasm_instruction(&mut sys);
    assert_eq!(expected, disasm);
}

#[test]
fn test_disasm_ld_hl_ix_n() {
    test_disasm_z80(&[0xdd, 0x27, 0x18], "LD HL, (IX+$18)");
}

#[test]
fn test_disasm_ld_ix_n_hl() {
    test_disasm_z80(&[0xdd, 0x2f, 0x18], "LD (IX+$18), HL");
}

#[test]
fn test_disasm_push_ix() {
    test_disasm_z80(&[0xdd, 0xe5], "PUSH IX");
}

#[test]
fn test_disasm_suffix() {
    test_disasm_z80(&[0x5b, 0xdd, 0xe5], "PUSH.LIL IX");
}

#[test]
fn test_disasm_push_hl() {
    test_disasm_z80(&[0xe5], "PUSH HL");
}

#[test]
fn disasm_immediate_16() {
    test_disasm_z80(&[0x01, 0x34, 0x12], "LD BC, $1234");
}

#[test]
fn disasm_immediate_8() {
    test_disasm_z80(&[0x06, 0x7f], "LD B, $7f");
}

#[test]
fn disasm_indexed_operand_shows_displacement() {
    test_disasm_z80(&[0xdd, 0x7e, 0x05], "LD A, (IX+5)");
    test_disasm_z80(&[0xfd, 0x34, 0xfd], "INC (IY-3)");
}

#[test]
fn disasm_relative_jump_shows_target() {
    // JR at 0 with offset -2 jumps to itself.
    test_disasm_z80(&[0x18, 0xfe], "JR $0");
    test_disasm_z80(&[0x20, 0x10], "JR NZ, $12");
}

#[test]
fn disasm_rst_and_bit_names() {
    test_disasm_z80(&[0xff], "RST 38h");
    test_disasm_z80(&[0xcb, 0x58], "BIT 3, B");
    test_disasm_z80(&[0xed, 0x44], "NEG");
}

#[test]
fn disasm_advances_past_immediates() {
    let mut sys = PlainMachine::new();
    let mut cpu = Cpu::new_ez80();
    sys.poke(0, 0x01);
    sys.poke(1, 0x34);
    sys.poke(2, 0x12);
    cpu.disasm_instruction(&mut sys);
    assert_eq!(3, cpu.state.pc());
}

#[test]
fn test_disasm_fd_a6_keeps_its_table_name() {
    let mut sys = PlainMachine::new();
    let mut cpu = Cpu::new_ez80();
    for (i, b) in [0xfdu8, 0xa6, 0x05].iter().enumerate() {
        sys.poke(i as u32, *b);
    }
    let disasm = cpu.disasm_instruction(&mut sys);
    // The FD table names this AND "ADD", as its decoding table does.
    assert!(disasm.starts_with("ADD"), "{}", disasm);
}
