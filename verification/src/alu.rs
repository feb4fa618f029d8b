//! The arithmetic/logic flag model: for each operation family, the value it
//! produces and the four flags recomputed from that value.
//!
//! Half-carry is the carry out of bit 3 into bit 4 (the nibble boundary),
//! the overflow that the same addition or subtraction shows when both
//! operands are left-shifted four bits. Carry-using arithmetic folds the
//! incoming carry flag in as a one-bit operand; for subtraction either of
//! the two borrow signals sets the outgoing carry, and either of the two
//! half-width borrows sets the outgoing half-carry.

use vstd::prelude::*;
use crate::flags::Flags;

verus! {

/// 8-bit add (optionally with carry): the wrapped sum and all four flags.
pub open spec fn spec_alu_add(a: u8, b: u8, cin: bool) -> (u8, Flags) {
    let c: int = if cin {
        1
    } else {
        0
    };
    let value = ((a + b + c) % 256) as u8;
    (
        value,
        Flags {
            z: value == 0,
            n: false,
            h: a % 16 + b % 16 + c > 15,
            c: a + b + c > 255,
        },
    )
}

/// 8-bit subtract (optionally with carry): the wrapped difference and all
/// four flags.
pub open spec fn spec_alu_sub(a: u8, b: u8, cin: bool) -> (u8, Flags) {
    let c: int = if cin {
        1
    } else {
        0
    };
    let value = ((a - b - c + 512) % 256) as u8;
    (
        value,
        Flags {
            z: value == 0,
            n: true,
            h: a % 16 < b % 16 + c,
            c: a < b + c,
        },
    )
}

/// Bitwise and, with its flag convention.
pub open spec fn spec_alu_and(a: u8, b: u8) -> (u8, Flags) {
    let value = a & b;
    (value, Flags { z: value == 0, n: false, h: true, c: false })
}

/// Bitwise exclusive or, with its flag convention.
pub open spec fn spec_alu_xor(a: u8, b: u8) -> (u8, Flags) {
    let value = a ^ b;
    (value, Flags { z: value == 0, n: false, h: false, c: false })
}

/// Bitwise or, with its flag convention.
pub open spec fn spec_alu_or(a: u8, b: u8) -> (u8, Flags) {
    let value = a | b;
    (value, Flags { z: value == 0, n: false, h: true, c: false })
}

/// 8-bit increment: wraps modulo 256 and leaves the carry flag untouched.
pub open spec fn spec_alu_inc8(a: u8, old_flags: Flags) -> (u8, Flags) {
    let value = ((a + 1) % 256) as u8;
    (value, Flags { z: value == 0, n: false, h: a % 16 == 15, c: old_flags.c })
}

/// 8-bit decrement: wraps modulo 256 and leaves the carry flag untouched.
pub open spec fn spec_alu_dec8(a: u8, old_flags: Flags) -> (u8, Flags) {
    let value = ((a + 255) % 256) as u8;
    (value, Flags { z: value == 0, n: true, h: a % 16 == 0, c: old_flags.c })
}

/// 16-bit increment: wraps modulo 65536 and leaves the carry flag untouched.
pub open spec fn spec_alu_inc16(a: u16, old_flags: Flags) -> (u16, Flags) {
    let value = ((a + 1) % 0x10000) as u16;
    (value, Flags { z: value == 0, n: false, h: a % 4096 == 4095, c: old_flags.c })
}

/// 16-bit decrement: wraps modulo 65536 and leaves the carry flag untouched.
pub open spec fn spec_alu_dec16(a: u16, old_flags: Flags) -> (u16, Flags) {
    let value = ((a + 0xFFFF) % 0x10000) as u16;
    (value, Flags { z: value == 0, n: true, h: a % 4096 == 0, c: old_flags.c })
}

/// 16-bit add: the wrapped sum and all four flags, half-carry taken out of
/// bit 11 (the shifted computation's top).
pub open spec fn spec_alu_add16(a: u16, b: u16) -> (u16, Flags) {
    let value = ((a + b) % 0x10000) as u16;
    (
        value,
        Flags {
            z: value == 0,
            n: false,
            h: a % 4096 + b % 4096 > 4095,
            c: a + b > 0xFFFF,
        },
    )
}

/// Accumulator rotate left: the byte doubled modulo 256; bit 0 is filled
/// from the old carry flag when `use_flag` holds and stays clear otherwise,
/// and the bit that filled it becomes the new carry.
pub open spec fn spec_alu_rotate_left(a: u8, use_flag: bool, old_flags: Flags) -> (u8, Flags) {
    let base: u8 = if a < 128 {
        (a * 2) as u8
    } else {
        ((a - 128) * 2) as u8
    };
    let cbit: bool = if use_flag {
        old_flags.c
    } else {
        false
    };
    let value: u8 = if cbit {
        (base + 1) as u8
    } else {
        base
    };
    (value, Flags { z: value == 0, n: false, h: false, c: cbit })
}

/// Accumulator rotate right: the byte halved; bit 0 is set from the old
/// carry flag when `use_flag` holds, and the bit used becomes the new carry.
pub open spec fn spec_alu_rotate_right(a: u8, use_flag: bool, old_flags: Flags) -> (u8, Flags) {
    let half: u8 = (a / 2) as u8;
    let cbit: bool = if use_flag {
        old_flags.c
    } else {
        false
    };
    let value: u8 = if cbit && half % 2 == 0 {
        (half + 1) as u8
    } else {
        half
    };
    (value, Flags { z: value == 0, n: false, h: false, c: cbit })
}

/// The power of two selecting one bit of a byte (bit indices 0 to 7).
pub open spec fn spec_pow2(bit: u8) -> u8 {
    if bit == 0 {
        1
    } else if bit == 1 {
        2
    } else if bit == 2 {
        4
    } else if bit == 3 {
        8
    } else if bit == 4 {
        16
    } else if bit == 5 {
        32
    } else if bit == 6 {
        64
    } else {
        128
    }
}

/// Whether the named bit of a byte is set.
pub open spec fn spec_bit_of(a: u8, bit: u8) -> bool {
    (a / spec_pow2(bit)) % 2 == 1
}

/// The byte with the named bit set.
pub open spec fn spec_set_bit(a: u8, bit: u8) -> u8 {
    if spec_bit_of(a, bit) {
        a
    } else {
        ((a + spec_pow2(bit)) % 256) as u8
    }
}

/// Law: every arithmetic/logic operation sets the zero flag exactly when
/// the value it produced is zero, for all operands and carry inputs.
pub proof fn lemma_arith_zero_flag(a: u8, b: u8, cin: bool, a16: u16, b16: u16, old_flags: Flags)
    ensures
        spec_alu_add(a, b, cin).1.z == (spec_alu_add(a, b, cin).0 == 0),
        spec_alu_sub(a, b, cin).1.z == (spec_alu_sub(a, b, cin).0 == 0),
        spec_alu_and(a, b).1.z == (spec_alu_and(a, b).0 == 0),
        spec_alu_xor(a, b).1.z == (spec_alu_xor(a, b).0 == 0),
        spec_alu_or(a, b).1.z == (spec_alu_or(a, b).0 == 0),
        spec_alu_inc8(a, old_flags).1.z == (spec_alu_inc8(a, old_flags).0 == 0),
        spec_alu_dec8(a, old_flags).1.z == (spec_alu_dec8(a, old_flags).0 == 0),
        spec_alu_inc16(a16, old_flags).1.z == (spec_alu_inc16(a16, old_flags).0 == 0),
        spec_alu_dec16(a16, old_flags).1.z == (spec_alu_dec16(a16, old_flags).0 == 0),
        spec_alu_add16(a16, b16).1.z == (spec_alu_add16(a16, b16).0 == 0),
        spec_alu_rotate_left(a, cin, old_flags).1.z == (spec_alu_rotate_left(a, cin, old_flags).0
            == 0),
        spec_alu_rotate_right(a, cin, old_flags).1.z == (spec_alu_rotate_right(a, cin, old_flags).0
            == 0),
{
}

} // verus!
