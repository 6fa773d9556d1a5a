use vstd::prelude::*;

verus! {

/// 8 bit registers. `_HL` stands for the memory operand `(HL)`.
#[derive(Clone, Copy, Debug, PartialEq, Eq, Structural)]
pub enum Reg8 {
    A,
    F,
    B,
    C,
    D,
    E,
    H,
    L,
    I,
    R,
    IXH,
    IXL,
    IYH,
    IYL,
    _HL,
}

/// 16 bit (24 bit on the eZ80) register pairs.
#[derive(Clone, Copy, Debug, PartialEq, Eq, Structural)]
pub enum Reg16 {
    AF,
    BC,
    DE,
    HL,
    IX,
    IY,
    SP,
}

/// Flags of the F register.
#[derive(Clone, Copy, Debug, PartialEq, Eq, Structural)]
pub enum Flag {
    C,
    N,
    P,
    _3,
    H,
    _5,
    Z,
    S,
}

impl Reg8 {
    /// The assembler name of the register.
    pub open spec fn name_spec(self) -> Seq<char> {
        match self {
            Reg8::A => "A"@,
            Reg8::F => "F"@,
            Reg8::B => "B"@,
            Reg8::C => "C"@,
            Reg8::D => "D"@,
            Reg8::E => "E"@,
            Reg8::H => "H"@,
            Reg8::L => "L"@,
            Reg8::I => "I"@,
            Reg8::R => "R"@,
            Reg8::IXH => "IXH"@,
            Reg8::IXL => "IXL"@,
            Reg8::IYH => "IYH"@,
            Reg8::IYL => "IYL"@,
            Reg8::_HL => "(__index)"@,
        }
    }

    /// Returns the assembler name of the register.
    pub fn name(&self) -> (s: &'static str)
        ensures
            s@ == self.name_spec(),
    {
        match self {
            Reg8::A => "A",
            Reg8::F => "F",
            Reg8::B => "B",
            Reg8::C => "C",
            Reg8::D => "D",
            Reg8::E => "E",
            Reg8::H => "H",
            Reg8::L => "L",
            Reg8::I => "I",
            Reg8::R => "R",
            Reg8::IXH => "IXH",
            Reg8::IXL => "IXL",
            Reg8::IYH => "IYH",
            Reg8::IYL => "IYL",
            Reg8::_HL => "(__index)",
        }
    }
}

impl Reg16 {
    /// The assembler name of the register pair.
    pub open spec fn name_spec(self) -> Seq<char> {
        match self {
            Reg16::AF => "AF"@,
            Reg16::BC => "BC"@,
            Reg16::DE => "DE"@,
            Reg16::HL => "HL"@,
            Reg16::IX => "IX"@,
            Reg16::IY => "IY"@,
            Reg16::SP => "SP"@,
        }
    }

    /// Returns the assembler name of the register pair.
    pub fn name(&self) -> (s: &'static str)
        ensures
            s@ == self.name_spec(),
    {
        match self {
            Reg16::AF => "AF",
            Reg16::BC => "BC",
            Reg16::DE => "DE",
            Reg16::HL => "HL",
            Reg16::IX => "IX",
            Reg16::IY => "IY",
            Reg16::SP => "SP",
        }
    }
}

impl Flag {
    pub open spec fn mask_spec(self) -> u8 {
        match self {
            Flag::C => 1,
            Flag::N => 2,
            Flag::P => 4,
            Flag::_3 => 8,
            Flag::H => 16,
            Flag::_5 => 32,
            Flag::Z => 64,
            Flag::S => 128,
        }
    }

    /// The bit of the F register that holds the flag.
    pub fn mask(&self) -> (m: u8)
        ensures
            m == self.mask_spec(),
    {
        match self {
            Flag::C => 1,
            Flag::N => 2,
            Flag::P => 4,
            Flag::_3 => 8,
            Flag::H => 16,
            Flag::_5 => 32,
            Flag::Z => 64,
            Flag::S => 128,
        }
    }
}

/// The 16 bit value made of a high and a low byte.
pub open spec fn word(hi: u8, lo: u8) -> u16 {
    (hi * 256 + lo) as u16
}

/// The 24 bit value made of an upper, a high and a low byte.
pub open spec fn triple(up: u8, hi: u8, lo: u8) -> u32 {
    (up * 65536 + hi * 256 + lo) as u32
}

/// F value with the bits of `mask` set to `on`.
pub open spec fn with_bits(f: u8, mask: u8, on: bool) -> u8 {
    if on {
        f | mask
    } else {
        f & !mask
    }
}

/// Even parity of a byte, as the P/V flag reports it.
pub open spec fn parity_even(v: u8) -> bool {
    (((v & 1) + ((v >> 1u8) & 1) + ((v >> 2u8) & 1) + ((v >> 3u8) & 1) + ((v >> 4u8) & 1) + ((v >> 5u8) & 1)
        + ((v >> 6u8) & 1) + ((v >> 7u8) & 1)) % 2) == 0
}

/// F after updating S and Z from `r` and copying its bits 5 and 3.
pub open spec fn sz53_spec(f: u8, r: u8) -> u8 {
    (f & 0x17) | (r & 0xa8) | (if r == 0 { 0x40u8 } else { 0u8 })
}

/// F after copying bits 5 and 3 of `r`.
pub open spec fn flags53_spec(f: u8, r: u8) -> u8 {
    (f & 0xd7) | (r & 0x28)
}

/// F after the undocumented block flags: bit 5 from bit 1 of `r`, bit 3 from bit 3.
pub open spec fn block53_spec(f: u8, r: u8) -> u8 {
    (f & 0xd7) | ((r & 2) << 4u8) | (r & 8)
}

/// F of the logical and bit instructions.
pub open spec fn bits_flags_spec(f: u8, r: u8) -> u8 {
    with_bits(with_bits(with_bits(sz53_spec(f, r), 16, false), 4, parity_even(r)), 2, false)
}

/// F of the block I/O instructions.
pub open spec fn block_io_flags_spec(f: u8, reference: u8, k: u16, counter: u8) -> u8 {
    let f1 = sz53_spec(f, counter);
    let f2 = with_bits(f1, 16, k > 255);
    let f3 = with_bits(f2, 1, k > 255);
    let f4 = with_bits(f3, 4, parity_even(((k % 256) as u8 & 7) ^ counter));
    with_bits(f4, 2, reference >> 7u8 == 1)
}

/// F of the arithmetic instructions on `a`, `b` with result `r`.
pub open spec fn arith_flags_spec(f: u8, a: u16, b: u16, r: u16, neg: bool, update_carry: bool) -> u8 {
    let x = a ^ b ^ r;
    let f1 = sz53_spec(f, (r % 256) as u8);
    let f2 = with_bits(f1, 16, x & 0x10 != 0);
    let f3 = if update_carry { with_bits(f2, 1, x & 0x100 != 0) } else { f2 };
    let f4 = with_bits(f3, 4, ((x >> 7u16) ^ (x >> 8u16)) & 1 != 0);
    with_bits(f4, 2, neg)
}

/// Returns the even parity of a byte.
pub fn parity(v: u8) -> (p: bool)
    ensures
        p == parity_even(v),
{
    assert((v & 1) <= 1 && ((v >> 1u8) & 1) <= 1 && ((v >> 2u8) & 1) <= 1 && ((v >> 3u8) & 1) <= 1
        && ((v >> 4u8) & 1) <= 1 && ((v >> 5u8) & 1) <= 1 && ((v >> 6u8) & 1) <= 1
        && ((v >> 7u8) & 1) <= 1) by (bit_vector);
    (((v & 1) + ((v >> 1u8) & 1) + ((v >> 2u8) & 1) + ((v >> 3u8) & 1) + ((v >> 4u8) & 1) + ((v >> 5u8) & 1)
        + ((v >> 6u8) & 1) + ((v >> 7u8) & 1)) % 2) == 0
}

/// The register file of the Z80 / eZ80.
///
/// Register pairs are held byte by byte: the upper byte (`*u`) is the eZ80
/// extension to 24 bits. The stack pointer exists twice on the eZ80: SPS
/// (16 bits, used with MBASE) and SPL (24 bits, used in ADL mode).
#[derive(Clone, Copy)]
pub struct Registers {
    pub a: u8,
    pub f: u8,
    pub b: u8,
    pub c: u8,
    pub d: u8,
    pub e: u8,
    pub h: u8,
    pub l: u8,
    pub bcu: u8,
    pub deu: u8,
    pub hlu: u8,
    pub ixu: u8,
    pub ixh: u8,
    pub ixl: u8,
    pub iyu: u8,
    pub iyh: u8,
    pub iyl: u8,
    pub sps: u16,
    pub splu: u8,
    pub splh: u8,
    pub spll: u8,
    pub i: u8,
    pub r: u8,
    pub a_alt: u8,
    pub f_alt: u8,
    pub b_alt: u8,
    pub c_alt: u8,
    pub d_alt: u8,
    pub e_alt: u8,
    pub h_alt: u8,
    pub l_alt: u8,
    pub bcu_alt: u8,
    pub deu_alt: u8,
    pub hlu_alt: u8,
    /// Program counter
    pub pc: u32,
    /// eZ80 MBASE: upper byte of the addresses in Z80 mode
    pub mbase: u8,
    /// eZ80 address and data long mode
    pub adl: bool,
    /// eZ80 mixed memory mode
    pub madl: bool,
    pub iff1: bool,
    pub iff2: bool,
    pub im: u8,
    /// Set when the flags follow the Intel 8080
    pub mode8080: bool,
}

impl Registers {
    pub open spec fn get8_spec(&self, r: Reg8) -> u8 {
        match r {
            Reg8::A => self.a,
            Reg8::F => self.f,
            Reg8::B => self.b,
            Reg8::C => self.c,
            Reg8::D => self.d,
            Reg8::E => self.e,
            Reg8::H => self.h,
            Reg8::L => self.l,
            Reg8::I => self.i,
            Reg8::R => self.r,
            Reg8::IXH => self.ixh,
            Reg8::IXL => self.ixl,
            Reg8::IYH => self.iyh,
            Reg8::IYL => self.iyl,
            Reg8::_HL => 0,
        }
    }

    /// The register file after writing `v` to the 8 bit register `r`
    /// (writes to the pseudo register `(HL)` leave it unchanged).
    pub open spec fn set8_spec(self, r: Reg8, v: u8) -> Registers {
        match r {
            Reg8::A => Registers { a: v, ..self },
            Reg8::F => Registers { f: v, ..self },
            Reg8::B => Registers { b: v, ..self },
            Reg8::C => Registers { c: v, ..self },
            Reg8::D => Registers { d: v, ..self },
            Reg8::E => Registers { e: v, ..self },
            Reg8::H => Registers { h: v, ..self },
            Reg8::L => Registers { l: v, ..self },
            Reg8::I => Registers { i: v, ..self },
            Reg8::R => Registers { r: v, ..self },
            Reg8::IXH => Registers { ixh: v, ..self },
            Reg8::IXL => Registers { ixl: v, ..self },
            Reg8::IYH => Registers { iyh: v, ..self },
            Reg8::IYL => Registers { iyl: v, ..self },
            Reg8::_HL => self,
        }
    }

    pub open spec fn get16_spec(&self, rr: Reg16) -> u16 {
        match rr {
            Reg16::AF => word(self.a, self.f),
            Reg16::BC => word(self.b, self.c),
            Reg16::DE => word(self.d, self.e),
            Reg16::HL => word(self.h, self.l),
            Reg16::IX => word(self.ixh, self.ixl),
            Reg16::IY => word(self.iyh, self.iyl),
            Reg16::SP => self.sps,
        }
    }

    pub open spec fn get24_spec(&self, rr: Reg16) -> u32 {
        match rr {
            Reg16::AF => word(self.a, self.f) as u32,
            Reg16::BC => triple(self.bcu, self.b, self.c),
            Reg16::DE => triple(self.deu, self.d, self.e),
            Reg16::HL => triple(self.hlu, self.h, self.l),
            Reg16::IX => triple(self.ixu, self.ixh, self.ixl),
            Reg16::IY => triple(self.iyu, self.iyh, self.iyl),
            Reg16::SP => triple(self.splu, self.splh, self.spll),
        }
    }

    /// The register file after a 16 bit write: the low 16 bits take `v`,
    /// the upper byte of a 24 bit pair is cleared (SPS is its own register).
    pub open spec fn set16_spec(self, rr: Reg16, v: u16) -> Registers {
        let hi = (v / 256) as u8;
        let lo = (v % 256) as u8;
        match rr {
            Reg16::AF => Registers { a: hi, f: lo, ..self },
            Reg16::BC => Registers { bcu: 0, b: hi, c: lo, ..self },
            Reg16::DE => Registers { deu: 0, d: hi, e: lo, ..self },
            Reg16::HL => Registers { hlu: 0, h: hi, l: lo, ..self },
            Reg16::IX => Registers { ixu: 0, ixh: hi, ixl: lo, ..self },
            Reg16::IY => Registers { iyu: 0, iyh: hi, iyl: lo, ..self },
            Reg16::SP => Registers { sps: v, ..self },
        }
    }

    /// The register file after a 16 bit write that keeps the upper byte.
    pub open spec fn set16_keep_upper_spec(self, rr: Reg16, v: u16) -> Registers {
        let hi = (v / 256) as u8;
        let lo = (v % 256) as u8;
        match rr {
            Reg16::AF => Registers { a: hi, f: lo, ..self },
            Reg16::BC => Registers { b: hi, c: lo, ..self },
            Reg16::DE => Registers { d: hi, e: lo, ..self },
            Reg16::HL => Registers { h: hi, l: lo, ..self },
            Reg16::IX => Registers { ixh: hi, ixl: lo, ..self },
            Reg16::IY => Registers { iyh: hi, iyl: lo, ..self },
            Reg16::SP => Registers { splh: hi, spll: lo, ..self },
        }
    }

    /// The register file after a 24 bit write of `v` (taken modulo 2^24).
    pub open spec fn set24_spec(self, rr: Reg16, v: u32) -> Registers {
        let up = (v / 65536 % 256) as u8;
        let hi = (v / 256 % 256) as u8;
        let lo = (v % 256) as u8;
        match rr {
            Reg16::AF => Registers { a: hi, f: lo, ..self },
            Reg16::BC => Registers { bcu: up, b: hi, c: lo, ..self },
            Reg16::DE => Registers { deu: up, d: hi, e: lo, ..self },
            Reg16::HL => Registers { hlu: up, h: hi, l: lo, ..self },
            Reg16::IX => Registers { ixu: up, ixh: hi, ixl: lo, ..self },
            Reg16::IY => Registers { iyu: up, iyh: hi, iyl: lo, ..self },
            Reg16::SP => Registers { splu: up, splh: hi, spll: lo, ..self },
        }
    }

    pub open spec fn get_flag_spec(&self, flag: Flag) -> bool {
        self.f & flag.mask_spec() != 0
    }

    /// Returns the registers of a Z80 at power up.
    pub fn new() -> (r: Registers)
        ensures
            r == Registers::new_spec(),
    {
        Registers {
            a: 0xff,
            f: 0xff,
            b: 0,
            c: 0,
            d: 0,
            e: 0,
            h: 0,
            l: 0,
            bcu: 0,
            deu: 0,
            hlu: 0,
            ixu: 0,
            ixh: 0,
            ixl: 0,
            iyu: 0,
            iyh: 0,
            iyl: 0,
            sps: 0xffff,
            splu: 0xff,
            splh: 0xff,
            spll: 0xff,
            i: 0,
            r: 0,
            a_alt: 0,
            f_alt: 0,
            b_alt: 0,
            c_alt: 0,
            d_alt: 0,
            e_alt: 0,
            h_alt: 0,
            l_alt: 0,
            bcu_alt: 0,
            deu_alt: 0,
            hlu_alt: 0,
            pc: 0,
            mbase: 0,
            adl: false,
            madl: false,
            iff1: false,
            iff2: false,
            im: 0,
            mode8080: false,
        }
    }

    pub open spec fn new_spec() -> Registers {
        Registers {
            a: 0xff,
            f: 0xff,
            b: 0,
            c: 0,
            d: 0,
            e: 0,
            h: 0,
            l: 0,
            bcu: 0,
            deu: 0,
            hlu: 0,
            ixu: 0,
            ixh: 0,
            ixl: 0,
            iyu: 0,
            iyh: 0,
            iyl: 0,
            sps: 0xffff,
            splu: 0xff,
            splh: 0xff,
            spll: 0xff,
            i: 0,
            r: 0,
            a_alt: 0,
            f_alt: 0,
            b_alt: 0,
            c_alt: 0,
            d_alt: 0,
            e_alt: 0,
            h_alt: 0,
            l_alt: 0,
            bcu_alt: 0,
            deu_alt: 0,
            hlu_alt: 0,
            pc: 0,
            mbase: 0,
            adl: false,
            madl: false,
            iff1: false,
            iff2: false,
            im: 0,
            mode8080: false,
        }
    }

    /// Configures the flags to behave as an Intel 8080.
    pub fn set_8080(&mut self)
        ensures
            *final(self) == (Registers { mode8080: true, ..*old(self) }),
    {
        self.mode8080 = true;
    }

    /// Returns the value of the A register.
    pub fn a(&self) -> (v: u8)
        ensures
            v == self.a,
    {
        self.a
    }

    /// Sets the value of the A register.
    pub fn set_a(&mut self, value: u8)
        ensures
            *final(self) == old(self).set8_spec(Reg8::A, value),
    {
        self.a = value;
    }

    /// Returns the value of an 8 bit register (0 for the pseudo register `(HL)`).
    pub fn get8(&self, reg: Reg8) -> (v: u8)
        ensures
            v == self.get8_spec(reg),
    {
        match reg {
            Reg8::A => self.a,
            Reg8::F => self.f,
            Reg8::B => self.b,
            Reg8::C => self.c,
            Reg8::D => self.d,
            Reg8::E => self.e,
            Reg8::H => self.h,
            Reg8::L => self.l,
            Reg8::I => self.i,
            Reg8::R => self.r,
            Reg8::IXH => self.ixh,
            Reg8::IXL => self.ixl,
            Reg8::IYH => self.iyh,
            Reg8::IYL => self.iyl,
            Reg8::_HL => 0,
        }
    }

    /// Sets the value of an 8 bit register.
    pub fn set8(&mut self, reg: Reg8, value: u8)
        ensures
            *final(self) == old(self).set8_spec(reg, value),
    {
        match reg {
            Reg8::A => self.a = value,
            Reg8::F => self.f = value,
            Reg8::B => self.b = value,
            Reg8::C => self.c = value,
            Reg8::D => self.d = value,
            Reg8::E => self.e = value,
            Reg8::H => self.h = value,
            Reg8::L => self.l = value,
            Reg8::I => self.i = value,
            Reg8::R => self.r = value,
            Reg8::IXH => self.ixh = value,
            Reg8::IXL => self.ixl = value,
            Reg8::IYH => self.iyh = value,
            Reg8::IYL => self.iyl = value,
            Reg8::_HL => {},
        }
    }

    /// Returns the 16 bit value of a register pair (SPS for SP).
    pub fn get16(&self, rr: Reg16) -> (v: u16)
        ensures
            v == self.get16_spec(rr),
    {
        match rr {
            Reg16::AF => (self.a as u16) * 256 + (self.f as u16),
            Reg16::BC => (self.b as u16) * 256 + (self.c as u16),
            Reg16::DE => (self.d as u16) * 256 + (self.e as u16),
            Reg16::HL => (self.h as u16) * 256 + (self.l as u16),
            Reg16::IX => (self.ixh as u16) * 256 + (self.ixl as u16),
            Reg16::IY => (self.iyh as u16) * 256 + (self.iyl as u16),
            Reg16::SP => self.sps,
        }
    }

    /// Sets the 16 bit value of a register pair, clearing its upper byte.
    pub fn set16(&mut self, rr: Reg16, value: u16)
        ensures
            *final(self) == old(self).set16_spec(rr, value),
    {
        let hi = (value / 256) as u8;
        let lo = (value % 256) as u8;
        match rr {
            Reg16::AF => {
                self.a = hi;
                self.f = lo;
            },
            Reg16::BC => {
                self.bcu = 0;
                self.b = hi;
                self.c = lo;
            },
            Reg16::DE => {
                self.deu = 0;
                self.d = hi;
                self.e = lo;
            },
            Reg16::HL => {
                self.hlu = 0;
                self.h = hi;
                self.l = lo;
            },
            Reg16::IX => {
                self.ixu = 0;
                self.ixh = hi;
                self.ixl = lo;
            },
            Reg16::IY => {
                self.iyu = 0;
                self.iyh = hi;
                self.iyl = lo;
            },
            Reg16::SP => {
                self.sps = value;
            },
        }
    }

    /// Sets the low 16 bits of a register pair, keeping bits 17 to 24.
    pub fn set16_preserve_17_to_24(&mut self, rr: Reg16, value: u16)
        ensures
            *final(self) == old(self).set16_keep_upper_spec(rr, value),
    {
        let hi = (value / 256) as u8;
        let lo = (value % 256) as u8;
        match rr {
            Reg16::AF => {
                self.a = hi;
                self.f = lo;
            },
            Reg16::BC => {
                self.b = hi;
                self.c = lo;
            },
            Reg16::DE => {
                self.d = hi;
                self.e = lo;
            },
            Reg16::HL => {
                self.h = hi;
                self.l = lo;
            },
            Reg16::IX => {
                self.ixh = hi;
                self.ixl = lo;
            },
            Reg16::IY => {
                self.iyh = hi;
                self.iyl = lo;
            },
            Reg16::SP => {
                self.splh = hi;
                self.spll = lo;
            },
        }
    }

    /// Returns the 24 bit value of a register pair (SPL for SP).
    pub fn get24(&self, rr: Reg16) -> (v: u32)
        ensures
            v == self.get24_spec(rr),
            v < 0x1000000,
    {
        match rr {
            Reg16::AF => (self.a as u32) * 256 + (self.f as u32),
            Reg16::BC => (self.bcu as u32) * 65536 + (self.b as u32) * 256 + (self.c as u32),
            Reg16::DE => (self.deu as u32) * 65536 + (self.d as u32) * 256 + (self.e as u32),
            Reg16::HL => (self.hlu as u32) * 65536 + (self.h as u32) * 256 + (self.l as u32),
            Reg16::IX => (self.ixu as u32) * 65536 + (self.ixh as u32) * 256 + (self.ixl as u32),
            Reg16::IY => (self.iyu as u32) * 65536 + (self.iyh as u32) * 256 + (self.iyl as u32),
            Reg16::SP => (self.splu as u32) * 65536 + (self.splh as u32) * 256 + (self.spll as u32),
        }
    }

    /// Sets the 24 bit value of a register pair; bits above 24 are dropped.
    pub fn set24(&mut self, rr: Reg16, value: u32)
        ensures
            *final(self) == old(self).set24_spec(rr, value),
    {
        let up = (value / 65536 % 256) as u8;
        let hi = (value / 256 % 256) as u8;
        let lo = (value % 256) as u8;
        match rr {
            Reg16::AF => {
                self.a = hi;
                self.f = lo;
            },
            Reg16::BC => {
                self.bcu = up;
                self.b = hi;
                self.c = lo;
            },
            Reg16::DE => {
                self.deu = up;
                self.d = hi;
                self.e = lo;
            },
            Reg16::HL => {
                self.hlu = up;
                self.h = hi;
                self.l = lo;
            },
            Reg16::IX => {
                self.ixu = up;
                self.ixh = hi;
                self.ixl = lo;
            },
            Reg16::IY => {
                self.iyu = up;
                self.iyh = hi;
                self.iyl = lo;
            },
            Reg16::SP => {
                self.splu = up;
                self.splh = hi;
                self.spll = lo;
            },
        }
    }

    /// The 16 bit value of a register pair placed in the memory page MBASE.
    pub open spec fn get16_mbase_spec(&self, rr: Reg16) -> u32 {
        (self.mbase * 65536 + self.get16_spec(rr)) as u32
    }

    /// Returns the 16 bit value of a register pair with MBASE as upper byte.
    pub fn get16_mbase(&self, rr: Reg16) -> (v: u32)
        ensures
            v == self.get16_mbase_spec(rr),
            v < 0x1000000,
    {
        (self.mbase as u32) * 65536 + (self.get16(rr) as u32)
    }

    /// Returns the 16 bit value of a register pair plus an offset (modulo
    /// 2^16), with MBASE as upper byte.
    pub fn get16_mbase_offset(&self, rr: Reg16, offset: u16) -> (v: u32)
        ensures
            v == self.mbase * 65536 + (self.get16_spec(rr) + offset) % 65536,
    {
        (self.mbase as u32) * 65536 + (self.get16(rr).wrapping_add(offset) as u32)
    }

    /// Increments or decrements an 8 bit register, returns the new value.
    pub fn inc_dec8(&mut self, reg: Reg8, inc: bool) -> (v: u8)
        ensures
            v == (if inc { old(self).get8_spec(reg) + 1 } else { old(self).get8_spec(reg) - 1 })
                % 256,
            *final(self) == old(self).set8_spec(reg, v),
    {
        let old_v = self.get8(reg);
        let v = if inc {
            old_v.wrapping_add(1)
        } else {
            old_v.wrapping_sub(1)
        };
        self.set8(reg, v);
        v
    }

    /// Increments or decrements the 16 bit value of a register pair,
    /// returns the new value.
    pub fn inc_dec16(&mut self, rr: Reg16, inc: bool) -> (v: u16)
        ensures
            v == (if inc { old(self).get16_spec(rr) + 1 } else { old(self).get16_spec(rr) - 1 })
                % 65536,
            *final(self) == old(self).set16_spec(rr, v),
    {
        let old_v = self.get16(rr);
        let v = if inc {
            old_v.wrapping_add(1)
        } else {
            old_v.wrapping_sub(1)
        };
        self.set16(rr, v);
        v
    }

    /// Increments or decrements the 24 bit value of a register pair,
    /// returns the new value.
    pub fn inc_dec24(&mut self, rr: Reg16, inc: bool) -> (v: u32)
        ensures
            v == (if inc { old(self).get24_spec(rr) + 1 } else { old(self).get24_spec(rr) - 1 })
                % 0x1000000,
            *final(self) == old(self).set24_spec(rr, v),
    {
        let old_v = self.get24(rr);
        let v = if inc {
            if old_v == 0xffffff {
                0
            } else {
                old_v + 1
            }
        } else {
            if old_v == 0 {
                0xffffff
            } else {
                old_v - 1
            }
        };
        self.set24(rr, v);
        v
    }

    /// The register file after exchanging a pair with its shadow pair.
    pub open spec fn swap_spec(self, rr: Reg16) -> Registers {
        match rr {
            Reg16::AF => Registers { a: self.a_alt, f: self.f_alt, a_alt: self.a, f_alt: self.f, ..self },
            Reg16::BC => Registers {
                bcu: self.bcu_alt,
                b: self.b_alt,
                c: self.c_alt,
                bcu_alt: self.bcu,
                b_alt: self.b,
                c_alt: self.c,
                ..self
            },
            Reg16::DE => Registers {
                deu: self.deu_alt,
                d: self.d_alt,
                e: self.e_alt,
                deu_alt: self.deu,
                d_alt: self.d,
                e_alt: self.e,
                ..self
            },
            Reg16::HL => Registers {
                hlu: self.hlu_alt,
                h: self.h_alt,
                l: self.l_alt,
                hlu_alt: self.hlu,
                h_alt: self.h,
                l_alt: self.l,
                ..self
            },
            _ => self,
        }
    }

    /// Exchanges a register pair with its shadow pair (AF, BC, DE and HL
    /// have one; other pairs are left unchanged).
    pub fn swap(&mut self, rr: Reg16)
        ensures
            *final(self) == old(self).swap_spec(rr),
    {
        match rr {
            Reg16::AF => {
                let (a, f) = (self.a, self.f);
                self.a = self.a_alt;
                self.f = self.f_alt;
                self.a_alt = a;
                self.f_alt = f;
            },
            Reg16::BC => {
                let (u, h, l) = (self.bcu, self.b, self.c);
                self.bcu = self.bcu_alt;
                self.b = self.b_alt;
                self.c = self.c_alt;
                self.bcu_alt = u;
                self.b_alt = h;
                self.c_alt = l;
            },
            Reg16::DE => {
                let (u, h, l) = (self.deu, self.d, self.e);
                self.deu = self.deu_alt;
                self.d = self.d_alt;
                self.e = self.e_alt;
                self.deu_alt = u;
                self.d_alt = h;
                self.e_alt = l;
            },
            Reg16::HL => {
                let (u, h, l) = (self.hlu, self.h, self.l);
                self.hlu = self.hlu_alt;
                self.h = self.h_alt;
                self.l = self.l_alt;
                self.hlu_alt = u;
                self.h_alt = h;
                self.l_alt = l;
            },
            _ => {},
        }
    }

    /// Returns the value of a flag.
    pub fn get_flag(&self, flag: Flag) -> (v: bool)
        ensures
            v == self.get_flag_spec(flag),
    {
        self.f & flag.mask() != 0
    }

    /// Sets a flag.
    pub fn set_flag(&mut self, flag: Flag)
        ensures
            *final(self) == (Registers { f: with_bits(old(self).f, flag.mask_spec(), true), ..*old(self) }),
    {
        self.f = self.f | flag.mask();
    }

    /// Clears a flag.
    pub fn clear_flag(&mut self, flag: Flag)
        ensures
            *final(self) == (Registers { f: with_bits(old(self).f, flag.mask_spec(), false), ..*old(self) }),
    {
        self.f = self.f & !flag.mask();
    }

    /// Sets or clears a flag.
    pub fn put_flag(&mut self, flag: Flag, value: bool)
        ensures
            *final(self) == (Registers { f: with_bits(old(self).f, flag.mask_spec(), value), ..*old(self) }),
    {
        if value {
            self.set_flag(flag);
        } else {
            self.clear_flag(flag);
        }
    }

    /// Updates S and Z from `reference` and copies its bits 5 and 3.
    pub fn update_sz53_flags(&mut self, reference: u8)
        ensures
            *final(self) == (Registers { f: sz53_spec(old(self).f, reference), ..*old(self) }),
    {
        let z: u8 = if reference == 0 { 0x40 } else { 0 };
        self.f = (self.f & 0x17) | (reference & 0xa8) | z;
    }

    /// Copies bits 5 and 3 of `reference` into F.
    pub fn update_53_flags(&mut self, reference: u8)
        ensures
            *final(self) == (Registers { f: flags53_spec(old(self).f, reference), ..*old(self) }),
    {
        self.f = (self.f & 0xd7) | (reference & 0x28);
    }

    /// Undocumented flags of the block instructions: bit 5 of F takes bit 1
    /// of `reference` and bit 3 of F takes bit 3.
    pub fn update_undocumented_flags_block(&mut self, reference: u8)
        ensures
            *final(self) == (Registers { f: block53_spec(old(self).f, reference), ..*old(self) }),
    {
        self.f = (self.f & 0xd7) | ((reference & 2) << 4u8) | (reference & 8);
    }

    /// Sets P/V to the even parity of `reference`.
    pub fn update_p_flag(&mut self, reference: u8)
        ensures
            *final(self) == (Registers { f: with_bits(old(self).f, 4, parity_even(reference)), ..*old(self) }),
    {
        let p = parity(reference);
        self.put_flag(Flag::P, p);
    }

    /// Flags of the logical and bit instructions: S, Z, 5, 3 and parity from
    /// `reference`, H and N cleared.
    pub fn update_bits_in_flags(&mut self, reference: u8)
        ensures
            *final(self) == (Registers { f: bits_flags_spec(old(self).f, reference), ..*old(self) }),
    {
        self.update_sz53_flags(reference);
        self.clear_flag(Flag::H);
        self.update_p_flag(reference);
        self.clear_flag(Flag::N);
    }

    /// Flags of the block I/O instructions (TUZD-4.3).
    pub fn update_block_flags(&mut self, reference: u8, k: u16, counter: u8)
        ensures
            *final(self) == (Registers { f: block_io_flags_spec(old(self).f, reference, k, counter), ..*old(self) }),
    {
        self.update_sz53_flags(counter);
        self.put_flag(Flag::H, k > 255);
        self.put_flag(Flag::C, k > 255);
        self.update_p_flag(((k % 256) as u8 & 7) ^ counter);
        self.put_flag(Flag::N, reference >> 7u8 == 1);
    }

    /// Flags of the arithmetic instructions. `reference` is the result of
    /// `a + b` or `a - b` computed on 16 bits; bit 8 of `a ^ b ^ reference`
    /// is the carry out of bit 7.
    pub fn update_arithmetic_flags(&mut self, a: u16, b: u16, reference: u16, neg: bool, update_carry: bool)
        ensures
            *final(self) == (Registers { f: arith_flags_spec(old(self).f, a, b, reference, neg, update_carry), ..*old(self) }),
    {
        let x = a ^ b ^ reference;
        self.update_sz53_flags((reference % 256) as u8);
        self.put_flag(Flag::H, x & 0x10 != 0);
        if update_carry {
            self.put_flag(Flag::C, x & 0x100 != 0);
        }
        self.put_flag(Flag::P, ((x >> 7u16) ^ (x >> 8u16)) & 1 != 0);
        self.put_flag(Flag::N, neg);
    }

    /// Enables or disables the maskable interrupts (IFF1 and IFF2).
    pub fn set_interrupts(&mut self, value: bool)
        ensures
            *final(self) == (Registers { iff1: value, iff2: value, ..*old(self) }),
    {
        self.iff1 = value;
        self.iff2 = value;
    }

    /// Returns IFF1: whether maskable interrupts are accepted.
    pub fn get_iff1(&self) -> (v: bool)
        ensures
            v == self.iff1,
    {
        self.iff1
    }

    /// Sets the interrupt mode.
    pub fn set_interrupt_mode(&mut self, im: u8)
        ensures
            *final(self) == (Registers { im: im, ..*old(self) }),
    {
        self.im = im;
    }

    /// Entry of a non maskable interrupt: IFF1 is saved in IFF2 and cleared.
    pub fn start_nmi(&mut self)
        ensures
            *final(self) == (Registers { iff1: false, iff2: old(self).iff1, ..*old(self) }),
    {
        self.iff2 = self.iff1;
        self.iff1 = false;
    }

    /// End of a non maskable interrupt (RETN): IFF1 is restored from IFF2.
    pub fn end_nmi(&mut self)
        ensures
            *final(self) == (Registers { iff1: old(self).iff2, ..*old(self) }),
    {
        self.iff1 = self.iff2;
    }
}

} // verus!

verus! {

/// Reading an 8 bit register gives back what was last written to it, and a
/// write to one 8 bit register leaves every other one unchanged.
pub proof fn lemma_set8_get8(regs: Registers, r: Reg8, other: Reg8, v: u8)
    requires
        r != Reg8::_HL,
        other != r,
    ensures
        regs.set8_spec(r, v).get8_spec(r) == v,
        regs.set8_spec(r, v).get8_spec(other) == regs.get8_spec(other),
{
}

/// A 16 bit write is read back by a 16 bit read; on a pair other than SP and
/// AF it also clears the upper byte, so the 24 bit read gives the same value.
pub proof fn lemma_set16_get16(regs: Registers, rr: Reg16, v: u16)
    ensures
        regs.set16_spec(rr, v).get16_spec(rr) == v,
        rr != Reg16::SP ==> regs.set16_spec(rr, v).get24_spec(rr) == v,
{
}

/// A 24 bit write is read back modulo 2^24 by a 24 bit read, and its low 16
/// bits by a 16 bit read (SP excepted: SPS and SPL are distinct registers).
pub proof fn lemma_set24_get24(regs: Registers, rr: Reg16, v: u32)
    ensures
        rr != Reg16::AF ==> regs.set24_spec(rr, v).get24_spec(rr) == v % 0x1000000,
        rr != Reg16::SP ==> regs.set24_spec(rr, v).get16_spec(rr) == v % 0x10000,
{
    lemma_split24(v);
}

proof fn lemma_split24(v: u32)
    ensures
        ((v / 65536 % 256) as u8) * 65536 + ((v / 256 % 256) as u8) * 256 + ((v % 256) as u8)
            == v % 0x1000000,
        ((v / 256 % 256) as u8) * 256 + ((v % 256) as u8) == v % 0x10000,
{
    assert(((v / 65536 % 256) as u8) * 65536 + ((v / 256 % 256) as u8) * 256 + ((v % 256) as u8)
        == v % 0x1000000) by (bit_vector);
    assert(((v / 256 % 256) as u8) * 256 + ((v % 256) as u8) == v % 0x10000) by (bit_vector);
}

/// The 16 bit value of a pair is the low 16 bits of its 24 bit value.
pub proof fn lemma_get16_low_of_get24(regs: Registers, rr: Reg16)
    requires
        rr != Reg16::SP,
    ensures
        regs.get16_spec(rr) == regs.get24_spec(rr) % 0x10000,
{
}

/// Exchanging a pair with its shadow twice restores the register file.
pub proof fn lemma_swap_twice(regs: Registers, rr: Reg16)
    ensures
        regs.swap_spec(rr).swap_spec(rr) == regs,
{
}

/// A flag reads back what was put in it, and the other flags keep their value.
pub proof fn lemma_put_flag_get_flag(regs: Registers, flag: Flag, other: Flag, v: bool)
    requires
        other != flag,
    ensures
        (Registers { f: with_bits(regs.f, flag.mask_spec(), v), ..regs }).get_flag_spec(flag) == v,
        (Registers { f: with_bits(regs.f, flag.mask_spec(), v), ..regs }).get_flag_spec(other)
            == regs.get_flag_spec(other),
{
    let f = regs.f;
    let m = flag.mask_spec();
    let o = other.mask_spec();
    assert(m == 1 || m == 2 || m == 4 || m == 8 || m == 16 || m == 32 || m == 64 || m == 128);
    assert(o == 1 || o == 2 || o == 4 || o == 8 || o == 16 || o == 32 || o == 64 || o == 128);
    assert(m != o);
    assert(((f | m) & m != 0) && ((f & !m) & m == 0)) by (bit_vector)
        requires
            m == 1 || m == 2 || m == 4 || m == 8 || m == 16 || m == 32 || m == 64 || m == 128,
    ;
    assert(((f | m) & o != 0) == (f & o != 0) && ((f & !m) & o != 0) == (f & o != 0)) by (bit_vector)
        requires
            m == 1 || m == 2 || m == 4 || m == 8 || m == 16 || m == 32 || m == 64 || m == 128,
            o == 1 || o == 2 || o == 4 || o == 8 || o == 16 || o == 32 || o == 64 || o == 128,
            m != o,
    ;
}

} // verus!
