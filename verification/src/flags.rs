//! The flag register: four independent booleans (zero, subtract, half-carry,
//! carry) and the four branch conditions read from them.

use vstd::prelude::*;

verus! {

/// A branch condition: zero, not-zero, carry, not-carry.
#[derive(Clone, Copy, PartialEq, Eq, Structural, Debug)]
pub enum Flag {
    Z,
    NZ,
    C,
    NC,
}

/// The four arithmetic flags.
#[derive(Clone, Copy, PartialEq, Eq, Structural, Debug)]
pub struct Flags {
    /// Zero.
    pub z: bool,
    /// Subtract.
    pub n: bool,
    /// Half-carry.
    pub h: bool,
    /// Carry.
    pub c: bool,
}

impl Flags {
    /// Whether a branch condition holds of these flags.
    pub open spec fn spec_flag(self, flag: Flag) -> bool {
        match flag {
            Flag::Z => self.z,
            Flag::NZ => !self.z,
            Flag::C => self.c,
            Flag::NC => !self.c,
        }
    }

    /// A fresh flag register: every flag clear.
    pub fn new() -> (r: Self)
        ensures
            r == (Flags { z: false, n: false, h: false, c: false }),
    {
        Flags { z: false, n: false, h: false, c: false }
    }

    /// Evaluate a branch condition.
    pub fn flag(&self, flag: &Flag) -> (r: bool)
        ensures
            r == self.spec_flag(*flag),
    {
        match flag {
            Flag::Z => self.z,
            Flag::NZ => !self.z,
            Flag::C => self.c,
            Flag::NC => !self.c,
        }
    }
}

} // verus!
