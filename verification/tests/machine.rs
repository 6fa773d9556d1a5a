use ez80::{Machine, PlainMachine};

#[test]
fn set_get_byte() {
    let mut m = PlainMachine::new();
    const A: u32 = 0x2345;
    const V: u8 = 0xa0;

    m.poke(A, V);
    assert_eq!(V, m.peek(A));
}

#[test]
fn new_machine_is_zeroed() {
    let m = PlainMachine::new();
    assert_eq!(0, m.peek(0));
    assert_eq!(0, m.peek(0x3ffff));
}

#[test]
fn writes_beyond_memory_are_dropped() {
    let mut m = PlainMachine::new();
    m.poke(0x40000, 0x12);
    assert_eq!(0, m.peek(0x40000));
    m.poke(0x3ffff, 0x34);
    assert_eq!(0x34, m.peek(0x3ffff));
}

#[test]
fn word_access_is_little_endian() {
    let mut m = PlainMachine::new();
    m._poke16(0x100, 0xbeef);
    assert_eq!(0xef, m.peek(0x100));
    assert_eq!(0xbe, m.peek(0x101));
    assert_eq!(0xbeef, m._peek16(0x100));
    m._poke24(0x200, 0x123456);
    assert_eq!(0x56, m.peek(0x200));
    assert_eq!(0x123456, m._peek24(0x200));
}

#[test]
fn ports_keep_the_last_value_sent() {
    let mut m = PlainMachine::new();
    m.port_out(0x12, 0x55);
    assert_eq!(0x55, m.port_in(0x12));
    assert_eq!(0, m.port_in(0x13));
}

#[test]
fn poke24_then_peek24() {
    let mut sys = PlainMachine::new();
    sys._poke24(0x1000, 0x12345678);
    assert_eq!(0x345678, sys._peek24(0x1000));
    assert_eq!(0x78, sys.peek(0x1000));
    assert_eq!(0x56, sys.peek(0x1001));
    assert_eq!(0x34, sys.peek(0x1002));
    assert_eq!(0x00, sys.peek(0x1003));
}

#[test]
fn ports_are_kept_apart_from_memory() {
    let mut sys = PlainMachine::new();
    sys.port_out(0x1234, 0x56);
    sys.poke(0x1234, 0x99);
    assert_eq!(0x56, sys.port_in(0x1234));
    assert_eq!(0x99, sys.peek(0x1234));
}
