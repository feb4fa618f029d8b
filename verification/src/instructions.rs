//! Instruction values: a raw opcode byte, the typed operations it decodes to
//! (primary and extended tables), the operand descriptors they carry, and the
//! typed failures the decode/execute engine can signal.

use vstd::prelude::*;
use crate::flags::Flag;
use crate::registers::{Register16, Register8};

verus! {

/// A raw instruction byte fetched from memory at the program counter.
#[derive(Clone, Copy, PartialEq, Eq, Structural, Debug)]
pub struct Opcode {
    pub value: u8,
}

/// A decoded operation of the primary opcode table, carrying only the operand
/// descriptors needed to execute it.
#[derive(Clone, Copy, PartialEq, Eq, Structural, Debug)]
pub enum Instruction {
    Noop,
    Stop,
    Halt,
    AddA { src: OpsTarget8, carry: bool },
    AddHl { src: Register16 },
    AddSpAddr8ToSp,
    SubA { src: OpsTarget8, carry: bool },
    AndA { src: OpsTarget8 },
    XorA { src: OpsTarget8 },
    OrA { src: OpsTarget8 },
    CompareA { src: OpsTarget8 },
    Inc { dst: OpsTarget8 },
    Inc16 { dst: OpsTarget16 },
    Dec { dst: OpsTarget8 },
    Dec16 { dst: OpsTarget16 },
    RotateLeftA { carry: bool },
    RotateRightA { carry: bool },
    Load { dst: OpsTarget8, src: OpsTarget8 },
    Load16 { dst: OpsTarget16, src: OpsTarget16 },
    LoadDstAddr { dst: OpsTarget8, src: OpsTarget8 },
    LoadSrcAddr { dst: OpsTarget8, src: OpsTarget8 },
    LoadSpAddSpAddr8ToHl,
    Push { reg16: Register16 },
    Pop { reg16: Register16 },
    Jump,
    JumpIf { flag: Flag },
    JumpHL,
    JumpReg,
    JumpRegIf { flag: Flag },
    Call,
    CallIf { flag: Flag },
    Return,
    ReturnIf { flag: Flag },
    ReturnInterrupt,
    Restart { addr: u16 },
    DecimalAdjustA,
    ComplementA,
    SetCarryFlag,
    ComplementCarryFlag,
    SetInterrupts { enable: bool },
    NestedInstruction,
}

/// A decoded operation of the extended (bit) opcode table.
#[derive(Clone, Copy, PartialEq, Eq, Structural, Debug)]
pub enum BitInstruction {
    RotateLeft { dst: OpsTarget8, carry: bool },
    RotateRight { dst: OpsTarget8, carry: bool },
    ShiftLeftArithmetic { dst: OpsTarget8 },
    ShiftRightArithmetic { dst: OpsTarget8 },
    SwapNibbles { dst: OpsTarget8 },
    ShiftRightLogical { dst: OpsTarget8 },
    BitTest { src: OpsTarget8, bit: u8 },
    BitReset { dst: OpsTarget8, bit: u8 },
    BitSet { dst: OpsTarget8, bit: u8 },
}

/// An 8-bit operand: a register, the byte at a 16-bit register-pair address,
/// or the byte at the program counter.
#[derive(Clone, Copy, PartialEq, Eq, Structural, Debug)]
pub enum OpsTarget8 {
    R8(Register8),
    R16Addr8(Register16),
    PcAddr8,
}

/// A 16-bit operand: a register pair, the program counter itself, or the
/// 16-bit value at the program counter.
#[derive(Clone, Copy, PartialEq, Eq, Structural, Debug)]
pub enum OpsTarget16 {
    R16(Register16),
    PC,
    PcAddr16,
}

/// A typed failure of the decode/execute engine. All three are fatal and are
/// surfaced to the caller of the step operation, never swallowed.
#[derive(Clone, Copy, PartialEq, Eq, Structural, Debug)]
pub enum CpuError {
    /// The decoder met a byte with no defined architectural meaning.
    UnsupportedOpcode(u8),
    /// The decoder succeeded but no execution routine exists for the variant.
    UnimplementedInstruction(Instruction),
    /// No execution routine exists for the decoded extended-table variant.
    UnimplementedBitInstruction(BitInstruction),
    /// A 16-bit access would touch past the top of the address space.
    AddressOutOfRange(u16),
}

} // verus!
