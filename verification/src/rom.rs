//! A cartridge image: an opaque byte sequence that an external collaborator
//! loads and hands to the core to pre-fill memory.

use vstd::prelude::*;

verus! {

/// A loaded cartridge image.
#[derive(Debug)]
pub struct Rom {
    pub data: Vec<u8>,
}

} // verus!
