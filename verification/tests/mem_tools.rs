use ez80::z80_mem_tools::{checksum, get_cstring, memcpy_to_z80, memset};
use ez80::{Machine, PlainMachine};

#[test]
fn memset_fills() {
    let mut m = PlainMachine::new();
    m.poke(0x13, 7);
    memset(&mut m, 0x10, 0xaa, 3);
    assert_eq!(0xaa, m.peek(0x10));
    assert_eq!(0xaa, m.peek(0x12));
    assert_eq!(7, m.peek(0x13));
    assert_eq!(0, m.peek(0x0f));
}

#[test]
fn memcpy_copies() {
    let mut m = PlainMachine::new();
    memcpy_to_z80(&mut m, 0x100, &[1, 2, 3]);
    assert_eq!(1, m.peek(0x100));
    assert_eq!(2, m.peek(0x101));
    assert_eq!(3, m.peek(0x102));
    assert_eq!(0, m.peek(0x103));
}

#[test]
fn cstring_stops_at_zero() {
    let mut m = PlainMachine::new();
    memcpy_to_z80(&mut m, 0x200, b"MOS\0rest");
    assert_eq!(b"MOS".to_vec(), get_cstring(&m, 0x200));
    assert_eq!(Vec::<u8>::new(), get_cstring(&m, 0x203));
}

#[test]
fn checksum_xors_words() {
    let mut m = PlainMachine::new();
    memcpy_to_z80(&mut m, 0, &[0x01, 0x02, 0x03, 0x10, 0x20, 0x30]);
    assert_eq!(0x030201 ^ 0x302010, checksum(&m, 0, 6));
    assert_eq!(0x030201, checksum(&m, 0, 3));
    assert_eq!(0, checksum(&m, 0, 0));
}
