//! A boot image: the byte sequence copied into the low region of memory
//! before the first step.

use vstd::prelude::*;

verus! {

/// A loaded boot image.
#[derive(Debug)]
pub struct BootRom {
    pub data: Vec<u8>,
}

} // verus!
