use ez80::disassembler::disassemble;
use ez80::{Cpu, Machine, PlainMachine};

#[test]
fn lists_instructions_with_bytes() {
    let mut m = PlainMachine::new();
    let code = [0x00, 0x01, 0x34, 0x12, 0xdd, 0x7e, 0x05, 0xc9];
    for i in 0..code.len() {
        m.poke(0x100 + i as u32, code[i]);
    }
    let mut cpu = Cpu::new_ez80();
    cpu.state.set_pc(0x42);
    let list = disassemble(&mut m, &mut cpu, None, 0x100, 0x108);
    assert_eq!(4, list.len());
    assert_eq!(0x100, list[0].loc);
    assert_eq!("NOP", list[0].assembly);
    assert_eq!(vec![0x00], list[0].bytes);
    assert_eq!(0x101, list[1].loc);
    assert_eq!("LD BC, $1234", list[1].assembly);
    assert_eq!(vec![0x01, 0x34, 0x12], list[1].bytes);
    assert_eq!(0x104, list[2].loc);
    assert_eq!("LD A, (IX+5)", list[2].assembly);
    assert_eq!(vec![0xdd, 0x7e, 0x05], list[2].bytes);
    assert_eq!("RET", list[3].assembly);
    // The cpu state is restored.
    assert_eq!(0x42, cpu.state.pc());
}

#[test]
fn lists_in_adl_mode() {
    let mut m = PlainMachine::new();
    let code = [0x21, 0x56, 0x34, 0x12, 0x00];
    for i in 0..code.len() {
        m.poke(0x10000 + i as u32, code[i]);
    }
    let mut cpu = Cpu::new_ez80();
    let list = disassemble(&mut m, &mut cpu, Some(true), 0x10000, 0x10005);
    assert_eq!(2, list.len());
    assert_eq!("LD HL, $123456", list[0].assembly);
    assert_eq!(4, list[0].bytes.len());
    assert_eq!(0x10004, list[1].loc);
    assert!(!cpu.state.reg.adl);
}

#[test]
fn empty_range_lists_nothing() {
    let mut m = PlainMachine::new();
    let mut cpu = Cpu::new_ez80();
    assert_eq!(0, disassemble(&mut m, &mut cpu, None, 0x10, 0x10).len());
}
