use ez80::mos;
use ez80::{Cpu, Machine, PlainMachine, Reg16};

#[test]
fn mos_calls_are_found_by_their_entry() {
    assert_eq!(Some(mos::MosCall::Close), mos::mos_call(0x822b));
    assert_eq!(Some(mos::MosCall::Gets), mos::mos_call(0x9c91));
    assert_eq!(Some(mos::MosCall::Read), mos::mos_call(0x785e));
    assert_eq!(Some(mos::MosCall::Open), mos::mos_call(0x738c));
    assert_eq!(Some(mos::MosCall::Write), mos::mos_call(0x7c10));
    assert_eq!(None, mos::mos_call(0x0000));
}

#[test]
fn arguments_are_read_above_the_return_address() {
    let mut sys = PlainMachine::new();
    let mut cpu = Cpu::new_ez80();
    cpu.set_adl(true);
    cpu.registers().set24(Reg16::SP, 0x1000);
    sys._poke24(0x1003, 0x123456);
    sys._poke24(0x1006, 0x000042);
    sys._poke24(0x1009, 0x0a0b0c);
    assert_eq!(0x123456, mos::mos_arg(&cpu.state, &sys, 0));
    assert_eq!(0x42, mos::mos_arg(&cpu.state, &sys, 1));
    assert_eq!(0x0a0b0c, mos::mos_arg(&cpu.state, &sys, 2));
}

#[test]
fn fil_is_wiped_and_sized() {
    let mut sys = PlainMachine::new();
    for i in 0..40 {
        sys.poke(0x2000 + i, 0xff);
    }
    mos::init_fil(&mut sys, 0x2000, 0x100000);
    assert_eq!(0x080000, sys._peek24(0x2000 + mos::FIL_MEMBER_OBJSIZE));
    assert_eq!(0, sys.peek(0x2000));
    assert_eq!(0, sys.peek(0x2000 + 35));
    assert_eq!(0xff, sys.peek(0x2000 + 36));
    mos::store_file_position(&mut sys, 0x2000, 0x1234);
    assert_eq!(0x1234, sys._peek24(0x2000 + mos::FIL_MEMBER_FPTR));
}

#[test]
fn gets_line_is_zero_terminated() {
    let mut sys = PlainMachine::new();
    sys.poke(0x3003, 0x77);
    mos::store_line(&mut sys, 0x3000, &[b'h', b'i', 10]);
    assert_eq!(b'h', sys.peek(0x3000));
    assert_eq!(10, sys.peek(0x3002));
    assert_eq!(0, sys.peek(0x3003));
    assert!(mos::gets_stops_at(10));
    assert!(mos::gets_stops_at(0));
    assert!(!mos::gets_stops_at(b'a'));
}

#[test]
fn open_results_and_modes() {
    assert_eq!(0, mos::open_result(true, false));
    assert_eq!(4, mos::open_result(false, true));
    assert_eq!(1, mos::open_result(false, false));
    assert_eq!((true, false), mos::open_mode(2));
    assert_eq!((true, true), mos::open_mode(6));
}

#[test]
fn finishing_a_call_returns_with_hl() {
    let mut sys = PlainMachine::new();
    let mut cpu = Cpu::new_ez80();
    cpu.set_adl(true);
    cpu.registers().set24(Reg16::SP, 0x1000);
    sys._poke24(0x1000, 0x004567);
    mos::finish_mos_call(&mut cpu, &mut sys, 4);
    assert_eq!(4, cpu.registers().get24(Reg16::HL));
    assert_eq!(0x4567, cpu.state.pc());
    assert_eq!(0x1003, cpu.registers().get24(Reg16::SP));
}
