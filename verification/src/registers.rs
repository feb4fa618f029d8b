//! The register file: eight 8-bit cells plus the 16-bit stack pointer, with
//! paired 16-bit views (AF, BC, DE, HL) and the two HL views that
//! post-increment or post-decrement the pair as a side effect of access.

use vstd::prelude::*;

verus! {

/// One of the eight 8-bit general registers.
#[derive(Clone, Copy, PartialEq, Eq, Structural, Debug)]
pub enum Register8 {
    A,
    F,
    B,
    C,
    D,
    E,
    H,
    L,
}

/// A 16-bit register view: a pairing of two 8-bit cells, the stack pointer,
/// or one of the two HL views with auto-increment/decrement semantics.
#[derive(Clone, Copy, PartialEq, Eq, Structural, Debug)]
pub enum Register16 {
    AF,
    BC,
    DE,
    HL,
    HLI,
    HLD,
    SP,
}

/// The register file. Pairings are views over these cells, not extra storage.
#[derive(Clone, Copy, PartialEq, Eq, Structural, Debug)]
pub struct Registers {
    pub a: u8,
    pub f: u8,
    pub b: u8,
    pub c: u8,
    pub d: u8,
    pub e: u8,
    pub h: u8,
    pub l: u8,
    pub sp: u16,
}

/// The 16-bit value formed from a high and a low byte.
pub open spec fn spec_combine(hi: u8, lo: u8) -> u16 {
    (hi * 256 + lo) as u16
}

/// The low byte of a 16-bit value.
pub open spec fn spec_low_byte(value: u16) -> u8 {
    (value % 256) as u8
}

/// The high byte of a 16-bit value.
pub open spec fn spec_high_byte(value: u16) -> u8 {
    (value / 256) as u8
}

/// 16-bit addition wrapping modulo 65536.
pub open spec fn spec_wadd16(a: u16, b: u16) -> u16 {
    ((a + b) % 0x10000) as u16
}

/// 16-bit subtraction wrapping modulo 65536.
pub open spec fn spec_wsub16(a: u16, b: u16) -> u16 {
    ((a + 0x10000 - b) % 0x10000) as u16
}

/// 8-bit addition wrapping modulo 256.
pub open spec fn spec_wadd8(a: u8, b: u8) -> u8 {
    ((a + b) % 0x100) as u8
}

/// 8-bit subtraction wrapping modulo 256.
pub open spec fn spec_wsub8(a: u8, b: u8) -> u8 {
    ((a + 0x100 - b) % 0x100) as u8
}

fn combine_u8(a: u8, b: u8) -> (r: u16)
    ensures
        r == spec_combine(a, b),
{
    a as u16 * 256 + b as u16
}

fn low_byte(value: u16) -> (r: u8)
    ensures
        r == spec_low_byte(value),
{
    (value % 256) as u8
}

fn high_byte(value: u16) -> (r: u8)
    ensures
        r == spec_high_byte(value),
{
    (value / 256) as u8
}

impl Registers {
    /// The AF pair as a 16-bit value, A as the high byte.
    pub open spec fn spec_af(self) -> u16 {
        spec_combine(self.a, self.f)
    }

    /// The BC pair as a 16-bit value, B as the high byte.
    pub open spec fn spec_bc(self) -> u16 {
        spec_combine(self.b, self.c)
    }

    /// The DE pair as a 16-bit value, D as the high byte.
    pub open spec fn spec_de(self) -> u16 {
        spec_combine(self.d, self.e)
    }

    /// The HL pair as a 16-bit value, H as the high byte.
    pub open spec fn spec_hl(self) -> u16 {
        spec_combine(self.h, self.l)
    }

    /// The register file after writing a 16-bit value into the AF pair.
    pub open spec fn spec_af_w(self, value: u16) -> Registers {
        Registers { a: spec_high_byte(value), f: spec_low_byte(value), ..self }
    }

    /// The register file after writing a 16-bit value into the BC pair.
    pub open spec fn spec_bc_w(self, value: u16) -> Registers {
        Registers { b: spec_high_byte(value), c: spec_low_byte(value), ..self }
    }

    /// The register file after writing a 16-bit value into the DE pair.
    pub open spec fn spec_de_w(self, value: u16) -> Registers {
        Registers { d: spec_high_byte(value), e: spec_low_byte(value), ..self }
    }

    /// The register file after writing a 16-bit value into the HL pair.
    pub open spec fn spec_hl_w(self, value: u16) -> Registers {
        Registers { h: spec_high_byte(value), l: spec_low_byte(value), ..self }
    }

    /// The value read through a 16-bit view, together with the register file
    /// afterwards (the HLI/HLD views move HL as a side effect of the read).
    pub open spec fn spec_read_reg16(self, reg16: Register16) -> (u16, Registers) {
        match reg16 {
            Register16::AF => (self.spec_af(), self),
            Register16::BC => (self.spec_bc(), self),
            Register16::DE => (self.spec_de(), self),
            Register16::HL => (self.spec_hl(), self),
            Register16::HLI => (self.spec_hl(), self.spec_hl_w(spec_wadd16(self.spec_hl(), 1))),
            Register16::HLD => (self.spec_hl(), self.spec_hl_w(spec_wsub16(self.spec_hl(), 1))),
            Register16::SP => (self.sp, self),
        }
    }

    /// The register file after a write through a 16-bit view (the HLI/HLD
    /// views store the value moved by one).
    pub open spec fn spec_write_reg16(self, reg16: Register16, value: u16) -> Registers {
        match reg16 {
            Register16::AF => self.spec_af_w(value),
            Register16::BC => self.spec_bc_w(value),
            Register16::DE => self.spec_de_w(value),
            Register16::HL => self.spec_hl_w(value),
            Register16::HLI => self.spec_hl_w(spec_wadd16(value, 1)),
            Register16::HLD => self.spec_hl_w(spec_wsub16(value, 1)),
            Register16::SP => Registers { sp: value, ..self },
        }
    }

    /// The value of one 8-bit register.
    pub open spec fn spec_read_reg8(self, reg8: Register8) -> u8 {
        match reg8 {
            Register8::A => self.a,
            Register8::F => self.f,
            Register8::B => self.b,
            Register8::C => self.c,
            Register8::D => self.d,
            Register8::E => self.e,
            Register8::H => self.h,
            Register8::L => self.l,
        }
    }

    /// The register file after writing one 8-bit register.
    pub open spec fn spec_write_reg8(self, reg8: Register8, value: u8) -> Registers {
        match reg8 {
            Register8::A => Registers { a: value, ..self },
            Register8::F => Registers { f: value, ..self },
            Register8::B => Registers { b: value, ..self },
            Register8::C => Registers { c: value, ..self },
            Register8::D => Registers { d: value, ..self },
            Register8::E => Registers { e: value, ..self },
            Register8::H => Registers { h: value, ..self },
            Register8::L => Registers { l: value, ..self },
        }
    }

    /// A fresh register file: every cell zero.
    pub fn new() -> (r: Self)
        ensures
            r == (Registers { a: 0, f: 0, b: 0, c: 0, d: 0, e: 0, h: 0, l: 0, sp: 0 }),
    {
        Registers { a: 0, f: 0, b: 0, c: 0, d: 0, e: 0, h: 0, l: 0, sp: 0 }
    }

    pub fn af(&self) -> (r: u16)
        ensures
            r == self.spec_af(),
    {
        combine_u8(self.a, self.f)
    }

    pub fn af_w(&mut self, value: u16)
        ensures
            *final(self) == old(self).spec_af_w(value),
    {
        self.a = high_byte(value);
        self.f = low_byte(value);
    }

    pub fn bc(&self) -> (r: u16)
        ensures
            r == self.spec_bc(),
    {
        combine_u8(self.b, self.c)
    }

    pub fn bc_w(&mut self, value: u16)
        ensures
            *final(self) == old(self).spec_bc_w(value),
    {
        self.b = high_byte(value);
        self.c = low_byte(value);
    }

    pub fn de(&self) -> (r: u16)
        ensures
            r == self.spec_de(),
    {
        combine_u8(self.d, self.e)
    }

    pub fn de_w(&mut self, value: u16)
        ensures
            *final(self) == old(self).spec_de_w(value),
    {
        self.d = high_byte(value);
        self.e = low_byte(value);
    }

    pub fn hl(&self) -> (r: u16)
        ensures
            r == self.spec_hl(),
    {
        combine_u8(self.h, self.l)
    }

    pub fn hl_w(&mut self, value: u16)
        ensures
            *final(self) == old(self).spec_hl_w(value),
    {
        self.h = high_byte(value);
        self.l = low_byte(value);
    }

    pub fn read_reg8(&self, reg8: &Register8) -> (r: u8)
        ensures
            r == self.spec_read_reg8(*reg8),
    {
        match reg8 {
            Register8::A => self.a,
            Register8::F => self.f,
            Register8::B => self.b,
            Register8::C => self.c,
            Register8::D => self.d,
            Register8::E => self.e,
            Register8::H => self.h,
            Register8::L => self.l,
        }
    }

    pub fn read_reg16(&mut self, reg16: &Register16) -> (r: u16)
        ensures
            (r, *final(self)) == old(self).spec_read_reg16(*reg16),
    {
        match reg16 {
            Register16::AF => self.af(),
            Register16::BC => self.bc(),
            Register16::DE => self.de(),
            Register16::HL => self.hl(),
            Register16::HLI => {
                let value = self.hl();
                let moved = wrapping_add_u16(value, 1);
                self.hl_w(moved);
                value
            }
            Register16::HLD => {
                let value = self.hl();
                let moved = wrapping_sub_u16(value, 1);
                self.hl_w(moved);
                value
            }
            Register16::SP => self.sp,
        }
    }

    pub fn write_reg8(&mut self, reg8: &Register8, value: u8)
        ensures
            *final(self) == old(self).spec_write_reg8(*reg8, value),
    {
        match reg8 {
            Register8::A => self.a = value,
            Register8::F => self.f = value,
            Register8::B => self.b = value,
            Register8::C => self.c = value,
            Register8::D => self.d = value,
            Register8::E => self.e = value,
            Register8::H => self.h = value,
            Register8::L => self.l = value,
        }
    }

    pub fn write_reg16(&mut self, reg16: &Register16, value: u16)
        ensures
            *final(self) == old(self).spec_write_reg16(*reg16, value),
    {
        match reg16 {
            Register16::AF => self.af_w(value),
            Register16::BC => self.bc_w(value),
            Register16::DE => self.de_w(value),
            Register16::HL => self.hl_w(value),
            Register16::HLI => {
                let moved = wrapping_add_u16(value, 1);
                self.hl_w(moved);
            }
            Register16::HLD => {
                let moved = wrapping_sub_u16(value, 1);
                self.hl_w(moved);
            }
            Register16::SP => self.sp = value,
        }
    }
}

/// 16-bit addition wrapping modulo 65536, as executable code.
pub fn wrapping_add_u16(a: u16, b: u16) -> (r: u16)
    ensures
        r == spec_wadd16(a, b),
{
    ((a as u32 + b as u32) % 0x10000) as u16
}

/// 16-bit subtraction wrapping modulo 65536, as executable code.
pub fn wrapping_sub_u16(a: u16, b: u16) -> (r: u16)
    ensures
        r == spec_wsub16(a, b),
{
    ((a as u32 + 0x10000 - b as u32) % 0x10000) as u16
}

/// Law: reading the post-increment HL view twice in succession yields two
/// consecutive addresses differing by exactly 1 (modulo 65536), and the
/// underlying H/L cells afterwards hold the address one past the second read.
pub proof fn lemma_hl_post_increment(regs: Registers)
    ensures
        ({
            let (v1, r1) = regs.spec_read_reg16(Register16::HLI);
            let (v2, r2) = r1.spec_read_reg16(Register16::HLI);
            &&& v2 == spec_wadd16(v1, 1)
            &&& r2.spec_hl() == spec_wadd16(v2, 1)
        }),
{
    let (v1, r1) = regs.spec_read_reg16(Register16::HLI);
    let (v2, r2) = r1.spec_read_reg16(Register16::HLI);
    assert(r1.spec_hl() == spec_wadd16(v1, 1)) by {
        lemma_combine_split(spec_wadd16(v1, 1));
    };
    assert(r2.spec_hl() == spec_wadd16(v2, 1)) by {
        lemma_combine_split(spec_wadd16(v2, 1));
    };
}

/// Splitting a 16-bit value into its bytes and recombining them gives the
/// value back.
pub proof fn lemma_combine_split(value: u16)
    ensures
        spec_combine(spec_high_byte(value), spec_low_byte(value)) == value,
{
}

/// Combining two bytes and splitting the result gives the bytes back.
pub proof fn lemma_split_combine(hi: u8, lo: u8)
    ensures
        spec_high_byte(spec_combine(hi, lo)) == hi,
        spec_low_byte(spec_combine(hi, lo)) == lo,
{
}

} // verus!
