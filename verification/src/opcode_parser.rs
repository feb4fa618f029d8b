//! The opcode decoder: a pure, total map from a raw byte to the typed
//! `Instruction` it denotes (or an explicit unsupported-opcode failure), and
//! from a raw byte behind the extended-opcode escape to a `BitInstruction`.
//!
//! Register-addressing opcodes split the byte into a low 3-bit column index
//! and a 3-bit row index in bits 3 to 5; indices 0 to 5 name six general
//! registers, 6 names the byte at the HL address, and 7 names the
//! accumulator. The same mapping serves both operand positions and both
//! opcode tables.

use vstd::prelude::*;
use crate::flags::Flag;
use crate::instructions::{BitInstruction, CpuError, Instruction, Opcode, OpsTarget8, OpsTarget16};
use crate::registers::{Register16, Register8};

verus! {

impl OpsTarget8 {
    /// The register behind an 8-bit register operand, if it is one.
    pub fn r8(&self) -> (r: Option<&Register8>)
        ensures
            match r {
                Some(reg) => *self == OpsTarget8::R8(*reg),
                None => !(*self is R8),
            },
    {
        match self {
            OpsTarget8::R8(r8) => Some(r8),
            _ => None,
        }
    }

    /// The register pair behind a memory-at-pair operand, if it is one.
    pub fn r16addr(&self) -> (r: Option<&Register16>)
        ensures
            match r {
                Some(reg) => *self == OpsTarget8::R16Addr8(*reg),
                None => !(*self is R16Addr8),
            },
    {
        match self {
            OpsTarget8::R16Addr8(r16addr) => Some(r16addr),
            _ => None,
        }
    }
}

impl Register8 {
    /// This register as an 8-bit operand.
    pub(crate) fn to_opst8(self) -> (r: OpsTarget8)
        ensures
            r == OpsTarget8::R8(self),
    {
        OpsTarget8::R8(self)
    }
}

impl Register16 {
    /// The byte at this pair's address as an 8-bit operand.
    pub(crate) fn to_opst8_addr(self) -> (r: OpsTarget8)
        ensures
            r == OpsTarget8::R16Addr8(self),
    {
        OpsTarget8::R16Addr8(self)
    }

    /// This pair as a 16-bit operand.
    pub(crate) fn to_opst16(self) -> (r: OpsTarget16)
        ensures
            r == OpsTarget16::R16(self),
    {
        OpsTarget16::R16(self)
    }
}

/// The 8-way operand mapping shared by both opcode tables: indices 0 to 5
/// name B, C, D, E, H, L; 6 names the byte at the HL address; everything
/// else names the accumulator.
pub open spec fn spec_opst8_of_index(idx: u8) -> OpsTarget8 {
    if idx == 0 {
        OpsTarget8::R8(Register8::B)
    } else if idx == 1 {
        OpsTarget8::R8(Register8::C)
    } else if idx == 2 {
        OpsTarget8::R8(Register8::D)
    } else if idx == 3 {
        OpsTarget8::R8(Register8::E)
    } else if idx == 4 {
        OpsTarget8::R8(Register8::H)
    } else if idx == 5 {
        OpsTarget8::R8(Register8::L)
    } else if idx == 6 {
        OpsTarget8::R16Addr8(Register16::HL)
    } else {
        OpsTarget8::R8(Register8::A)
    }
}

/// The operand named by the low 3 bits of an opcode.
pub open spec fn spec_low_opst8(op: u8) -> OpsTarget8 {
    spec_opst8_of_index(op % 8)
}

/// The operand named by bits 3 to 5 of an opcode.
pub open spec fn spec_high_opst8(op: u8) -> OpsTarget8 {
    spec_opst8_of_index((op / 8) % 8)
}

/// Whether an opcode lies in the given range and 8-opcode column.
pub open spec fn spec_in_column(op: u8, lo: u8, hi: u8, mod8: u8) -> bool {
    lo <= op <= hi && op % 8 == mod8
}

/// The bit index named by bits 3 to 5 of an extended opcode (also 8 times
/// this is the fixed target of a restart opcode).
pub open spec fn spec_bit_index(op: u8) -> u8 {
    (op / 8) % 8
}

/// The primary opcode table: the unique `Instruction` a byte denotes, or an
/// unsupported-opcode failure for the bytes with no architectural meaning.
pub open spec fn spec_decode(op: u8) -> Result<Instruction, CpuError> {
    if op == 0x00 {
        Ok(Instruction::Noop)
    } else if op == 0x08 {
        Ok(Instruction::Load16 { dst: OpsTarget16::PcAddr16, src: OpsTarget16::R16(Register16::SP) })
    } else if op == 0x10 {
        Ok(Instruction::Stop)
    } else if op == 0x18 {
        Ok(Instruction::JumpReg)
    } else if op == 0x20 {
        Ok(Instruction::JumpRegIf { flag: Flag::NZ })
    } else if op == 0x28 {
        Ok(Instruction::JumpRegIf { flag: Flag::Z })
    } else if op == 0x30 {
        Ok(Instruction::JumpRegIf { flag: Flag::NC })
    } else if op == 0x38 {
        Ok(Instruction::JumpRegIf { flag: Flag::C })
    } else if op == 0x01 {
        Ok(Instruction::Load16 { dst: OpsTarget16::R16(Register16::BC), src: OpsTarget16::PcAddr16 })
    } else if op == 0x11 {
        Ok(Instruction::Load16 { dst: OpsTarget16::R16(Register16::DE), src: OpsTarget16::PcAddr16 })
    } else if op == 0x21 {
        Ok(Instruction::Load16 { dst: OpsTarget16::R16(Register16::HL), src: OpsTarget16::PcAddr16 })
    } else if op == 0x31 {
        Ok(Instruction::Load16 { dst: OpsTarget16::R16(Register16::SP), src: OpsTarget16::PcAddr16 })
    } else if op == 0x09 {
        Ok(Instruction::AddHl { src: Register16::BC })
    } else if op == 0x19 {
        Ok(Instruction::AddHl { src: Register16::DE })
    } else if op == 0x29 {
        Ok(Instruction::AddHl { src: Register16::HL })
    } else if op == 0x39 {
        Ok(Instruction::AddHl { src: Register16::SP })
    } else if op == 0x02 {
        Ok(Instruction::Load { dst: OpsTarget8::R16Addr8(Register16::BC), src: OpsTarget8::R8(Register8::A) })
    } else if op == 0x0A {
        Ok(Instruction::Load { dst: OpsTarget8::R8(Register8::A), src: OpsTarget8::R16Addr8(Register16::BC) })
    } else if op == 0x12 {
        Ok(Instruction::Load { dst: OpsTarget8::R16Addr8(Register16::DE), src: OpsTarget8::R8(Register8::A) })
    } else if op == 0x1A {
        Ok(Instruction::Load { dst: OpsTarget8::R8(Register8::A), src: OpsTarget8::R16Addr8(Register16::DE) })
    } else if op == 0x22 {
        Ok(Instruction::Load { dst: OpsTarget8::R16Addr8(Register16::HLI), src: OpsTarget8::R8(Register8::A) })
    } else if op == 0x2A {
        Ok(Instruction::Load { dst: OpsTarget8::R8(Register8::A), src: OpsTarget8::R16Addr8(Register16::HLI) })
    } else if op == 0x32 {
        Ok(Instruction::Load { dst: OpsTarget8::R16Addr8(Register16::HLD), src: OpsTarget8::R8(Register8::A) })
    } else if op == 0x3A {
        Ok(Instruction::Load { dst: OpsTarget8::R8(Register8::A), src: OpsTarget8::R16Addr8(Register16::HLD) })
    } else if op == 0x03 {
        Ok(Instruction::Inc16 { dst: OpsTarget16::R16(Register16::BC) })
    } else if op == 0x0B {
        Ok(Instruction::Dec16 { dst: OpsTarget16::R16(Register16::BC) })
    } else if op == 0x13 {
        Ok(Instruction::Inc16 { dst: OpsTarget16::R16(Register16::DE) })
    } else if op == 0x1B {
        Ok(Instruction::Dec16 { dst: OpsTarget16::R16(Register16::DE) })
    } else if op == 0x23 {
        Ok(Instruction::Inc16 { dst: OpsTarget16::R16(Register16::HL) })
    } else if op == 0x2B {
        Ok(Instruction::Dec16 { dst: OpsTarget16::R16(Register16::HL) })
    } else if op == 0x33 {
        Ok(Instruction::Inc16 { dst: OpsTarget16::R16(Register16::SP) })
    } else if op == 0x3B {
        Ok(Instruction::Dec16 { dst: OpsTarget16::R16(Register16::SP) })
    } else if spec_in_column(op, 0x00, 0x3F, 0x04) {
        Ok(Instruction::Inc { dst: spec_high_opst8(op) })
    } else if spec_in_column(op, 0x00, 0x3F, 0x05) {
        Ok(Instruction::Dec { dst: spec_high_opst8(op) })
    } else if spec_in_column(op, 0x00, 0x3F, 0x06) {
        Ok(Instruction::Load { dst: spec_high_opst8(op), src: OpsTarget8::PcAddr8 })
    } else if op == 0x07 {
        Ok(Instruction::RotateLeftA { carry: true })
    } else if op == 0x0F {
        Ok(Instruction::RotateRightA { carry: true })
    } else if op == 0x17 {
        Ok(Instruction::RotateLeftA { carry: false })
    } else if op == 0x1F {
        Ok(Instruction::RotateRightA { carry: false })
    } else if op == 0x27 {
        Ok(Instruction::DecimalAdjustA)
    } else if op == 0x2F {
        Ok(Instruction::ComplementA)
    } else if op == 0x37 {
        Ok(Instruction::SetCarryFlag)
    } else if op == 0x3F {
        Ok(Instruction::ComplementCarryFlag)
    } else if op == 0x76 {
        Ok(Instruction::Halt)
    } else if 0x40 <= op <= 0x7F {
        if spec_low_opst8(op) == spec_high_opst8(op) {
            Ok(Instruction::Noop)
        } else {
            Ok(Instruction::Load { dst: spec_high_opst8(op), src: spec_low_opst8(op) })
        }
    } else if 0x80 <= op <= 0x87 {
        Ok(Instruction::AddA { src: spec_low_opst8(op), carry: false })
    } else if 0x88 <= op <= 0x8F {
        Ok(Instruction::AddA { src: spec_low_opst8(op), carry: true })
    } else if 0x90 <= op <= 0x97 {
        Ok(Instruction::SubA { src: spec_low_opst8(op), carry: false })
    } else if 0x98 <= op <= 0x9F {
        Ok(Instruction::SubA { src: spec_low_opst8(op), carry: true })
    } else if 0xA0 <= op <= 0xA7 {
        Ok(Instruction::AndA { src: spec_low_opst8(op) })
    } else if 0xA8 <= op <= 0xAF {
        Ok(Instruction::XorA { src: spec_low_opst8(op) })
    } else if 0xB0 <= op <= 0xB7 {
        Ok(Instruction::OrA { src: spec_low_opst8(op) })
    } else if 0xB8 <= op <= 0xBF {
        Ok(Instruction::CompareA { src: spec_low_opst8(op) })
    } else if op == 0xC0 {
        Ok(Instruction::ReturnIf { flag: Flag::NZ })
    } else if op == 0xC8 {
        Ok(Instruction::ReturnIf { flag: Flag::Z })
    } else if op == 0xD0 {
        Ok(Instruction::ReturnIf { flag: Flag::NC })
    } else if op == 0xD8 {
        Ok(Instruction::ReturnIf { flag: Flag::C })
    } else if op == 0xE0 {
        Ok(Instruction::LoadDstAddr { dst: OpsTarget8::PcAddr8, src: OpsTarget8::R8(Register8::A) })
    } else if op == 0xE8 {
        Ok(Instruction::AddSpAddr8ToSp)
    } else if op == 0xF0 {
        Ok(Instruction::LoadSrcAddr { dst: OpsTarget8::R8(Register8::A), src: OpsTarget8::PcAddr8 })
    } else if op == 0xF8 {
        Ok(Instruction::LoadSpAddSpAddr8ToHl)
    } else if op == 0xC1 {
        Ok(Instruction::Pop { reg16: Register16::BC })
    } else if op == 0xC9 {
        Ok(Instruction::Return)
    } else if op == 0xD1 {
        Ok(Instruction::Pop { reg16: Register16::DE })
    } else if op == 0xD9 {
        Ok(Instruction::ReturnInterrupt)
    } else if op == 0xE1 {
        Ok(Instruction::Pop { reg16: Register16::HL })
    } else if op == 0xE9 {
        Ok(Instruction::JumpHL)
    } else if op == 0xF1 {
        Ok(Instruction::Pop { reg16: Register16::AF })
    } else if op == 0xF9 {
        Ok(Instruction::Load16 { dst: OpsTarget16::PC, src: OpsTarget16::R16(Register16::HL) })
    } else if op == 0xC2 {
        Ok(Instruction::JumpIf { flag: Flag::NZ })
    } else if op == 0xCA {
        Ok(Instruction::JumpIf { flag: Flag::Z })
    } else if op == 0xD2 {
        Ok(Instruction::JumpIf { flag: Flag::NC })
    } else if op == 0xDA {
        Ok(Instruction::JumpIf { flag: Flag::C })
    } else if op == 0xE2 {
        Ok(Instruction::LoadDstAddr { dst: OpsTarget8::R8(Register8::C), src: OpsTarget8::R8(Register8::A) })
    } else if op == 0xEA {
        Ok(Instruction::Load { dst: OpsTarget8::PcAddr8, src: OpsTarget8::R8(Register8::A) })
    } else if op == 0xF2 {
        Ok(Instruction::LoadSrcAddr { dst: OpsTarget8::R8(Register8::A), src: OpsTarget8::R8(Register8::C) })
    } else if op == 0xFA {
        Ok(Instruction::Load { dst: OpsTarget8::R8(Register8::A), src: OpsTarget8::PcAddr8 })
    } else if op == 0xC3 {
        Ok(Instruction::Jump)
    } else if op == 0xCB {
        Ok(Instruction::NestedInstruction)
    } else if op == 0xF3 {
        Ok(Instruction::SetInterrupts { enable: false })
    } else if op == 0xFB {
        Ok(Instruction::SetInterrupts { enable: true })
    } else if op == 0xC4 {
        Ok(Instruction::CallIf { flag: Flag::NZ })
    } else if op == 0xCC {
        Ok(Instruction::CallIf { flag: Flag::Z })
    } else if op == 0xD4 {
        Ok(Instruction::CallIf { flag: Flag::NC })
    } else if op == 0xDC {
        Ok(Instruction::CallIf { flag: Flag::C })
    } else if op == 0xC5 {
        Ok(Instruction::Push { reg16: Register16::BC })
    } else if op == 0xCD {
        Ok(Instruction::Call)
    } else if op == 0xD5 {
        Ok(Instruction::Push { reg16: Register16::DE })
    } else if op == 0xE5 {
        Ok(Instruction::Push { reg16: Register16::HL })
    } else if op == 0xF5 {
        Ok(Instruction::Push { reg16: Register16::AF })
    } else if op == 0xC6 {
        Ok(Instruction::AddA { src: OpsTarget8::PcAddr8, carry: false })
    } else if op == 0xCE {
        Ok(Instruction::AddA { src: OpsTarget8::PcAddr8, carry: true })
    } else if op == 0xD6 {
        Ok(Instruction::SubA { src: OpsTarget8::PcAddr8, carry: false })
    } else if op == 0xDE {
        Ok(Instruction::SubA { src: OpsTarget8::PcAddr8, carry: true })
    } else if op == 0xE6 {
        Ok(Instruction::AndA { src: OpsTarget8::PcAddr8 })
    } else if op == 0xEE {
        Ok(Instruction::XorA { src: OpsTarget8::PcAddr8 })
    } else if op == 0xF6 {
        Ok(Instruction::OrA { src: OpsTarget8::PcAddr8 })
    } else if op == 0xFE {
        Ok(Instruction::CompareA { src: OpsTarget8::PcAddr8 })
    } else if 0xC0 <= op && op % 8 == 0x07 {
        Ok(Instruction::Restart { addr: (spec_bit_index(op) * 8) as u16 })
    } else {
        Err(CpuError::UnsupportedOpcode(op))
    }
}

/// The extended opcode table: total over all 256 bytes.
pub open spec fn spec_decode_bit(op: u8) -> BitInstruction {
    let target = spec_low_opst8(op);
    if op <= 0x07 {
        BitInstruction::RotateLeft { dst: target, carry: true }
    } else if op <= 0x0F {
        BitInstruction::RotateRight { dst: target, carry: true }
    } else if op <= 0x17 {
        BitInstruction::RotateLeft { dst: target, carry: false }
    } else if op <= 0x1F {
        BitInstruction::RotateRight { dst: target, carry: false }
    } else if op <= 0x27 {
        BitInstruction::ShiftLeftArithmetic { dst: target }
    } else if op <= 0x2F {
        BitInstruction::ShiftRightArithmetic { dst: target }
    } else if op <= 0x37 {
        BitInstruction::SwapNibbles { dst: target }
    } else if op <= 0x3F {
        BitInstruction::ShiftRightLogical { dst: target }
    } else if op <= 0x7F {
        BitInstruction::BitTest { src: target, bit: spec_bit_index(op) }
    } else if op <= 0xBF {
        BitInstruction::BitReset { dst: target, bit: spec_bit_index(op) }
    } else {
        BitInstruction::BitSet { dst: target, bit: spec_bit_index(op) }
    }
}

/// Whether a byte has no architectural meaning in the primary table.
pub open spec fn spec_unsupported(op: u8) -> bool {
    ||| op == 0xD3
    ||| op == 0xDB
    ||| op == 0xDD
    ||| op == 0xE3
    ||| op == 0xE4
    ||| op == 0xEB
    ||| op == 0xEC
    ||| op == 0xED
    ||| op == 0xF4
    ||| op == 0xFC
    ||| op == 0xFD
}

/// Law: the decoder is total. Every byte decodes to a concrete instruction
/// except exactly the eleven bytes with no architectural meaning, which
/// signal the unsupported-opcode failure naming the byte; the reserved
/// self-load bit pattern decodes to the halt marker.
pub proof fn lemma_decoder_totality()
    ensures
        forall|op: u8| #[trigger] spec_decode(op) is Err <==> spec_unsupported(op),
        forall|op: u8| spec_unsupported(op)
            ==> #[trigger] spec_decode(op) == Err::<Instruction, CpuError>(
                CpuError::UnsupportedOpcode(op),
            ),
        spec_decode(0x76) == Ok::<Instruction, CpuError>(Instruction::Halt),
{
}

/// Decoding from a raw opcode value.
pub trait InstructionParser {
    /// The instruction this value denotes in the primary table.
    spec fn spec_to_instruction(&self) -> Result<Instruction, CpuError>;

    /// The instruction this value denotes in the extended table.
    spec fn spec_to_bit_instruction(&self) -> BitInstruction;

    /// Decode through the primary table.
    fn to_instruction(&self) -> (r: Result<Instruction, CpuError>)
        ensures
            r == self.spec_to_instruction(),
    ;

    /// Decode through the extended table.
    fn to_bit_instruction(&self) -> (r: BitInstruction)
        ensures
            r == self.spec_to_bit_instruction(),
    ;
}

impl InstructionParser for Opcode {
    open spec fn spec_to_instruction(&self) -> Result<Instruction, CpuError> {
        spec_decode(self.value)
    }

    open spec fn spec_to_bit_instruction(&self) -> BitInstruction {
        spec_decode_bit(self.value)
    }

    fn to_instruction(&self) -> (r: Result<Instruction, CpuError>) {
        let op = self.value;
        if op == 0x00 {
            Ok(Instruction::Noop)
        } else if op == 0x08 {
            Ok(Instruction::Load16 { dst: OpsTarget16::PcAddr16, src: Register16::SP.to_opst16() })
        } else if op == 0x10 {
            Ok(Instruction::Stop)
        } else if op == 0x18 {
            Ok(Instruction::JumpReg)
        } else if op == 0x20 {
            Ok(Instruction::JumpRegIf { flag: Flag::NZ })
        } else if op == 0x28 {
            Ok(Instruction::JumpRegIf { flag: Flag::Z })
        } else if op == 0x30 {
            Ok(Instruction::JumpRegIf { flag: Flag::NC })
        } else if op == 0x38 {
            Ok(Instruction::JumpRegIf { flag: Flag::C })
        } else if op == 0x01 {
            Ok(Instruction::Load16 { dst: Register16::BC.to_opst16(), src: OpsTarget16::PcAddr16 })
        } else if op == 0x11 {
            Ok(Instruction::Load16 { dst: Register16::DE.to_opst16(), src: OpsTarget16::PcAddr16 })
        } else if op == 0x21 {
            Ok(Instruction::Load16 { dst: Register16::HL.to_opst16(), src: OpsTarget16::PcAddr16 })
        } else if op == 0x31 {
            Ok(Instruction::Load16 { dst: Register16::SP.to_opst16(), src: OpsTarget16::PcAddr16 })
        } else if op == 0x09 {
            Ok(Instruction::AddHl { src: Register16::BC })
        } else if op == 0x19 {
            Ok(Instruction::AddHl { src: Register16::DE })
        } else if op == 0x29 {
            Ok(Instruction::AddHl { src: Register16::HL })
        } else if op == 0x39 {
            Ok(Instruction::AddHl { src: Register16::SP })
        } else if op == 0x02 {
            Ok(Instruction::Load { dst: Register16::BC.to_opst8_addr(), src: Register8::A.to_opst8() })
        } else if op == 0x0A {
            Ok(Instruction::Load { dst: Register8::A.to_opst8(), src: Register16::BC.to_opst8_addr() })
        } else if op == 0x12 {
            Ok(Instruction::Load { dst: Register16::DE.to_opst8_addr(), src: Register8::A.to_opst8() })
        } else if op == 0x1A {
            Ok(Instruction::Load { dst: Register8::A.to_opst8(), src: Register16::DE.to_opst8_addr() })
        } else if op == 0x22 {
            Ok(Instruction::Load { dst: Register16::HLI.to_opst8_addr(), src: Register8::A.to_opst8() })
        } else if op == 0x2A {
            Ok(Instruction::Load { dst: Register8::A.to_opst8(), src: Register16::HLI.to_opst8_addr() })
        } else if op == 0x32 {
            Ok(Instruction::Load { dst: Register16::HLD.to_opst8_addr(), src: Register8::A.to_opst8() })
        } else if op == 0x3A {
            Ok(Instruction::Load { dst: Register8::A.to_opst8(), src: Register16::HLD.to_opst8_addr() })
        } else if op == 0x03 {
            Ok(Instruction::Inc16 { dst: Register16::BC.to_opst16() })
        } else if op == 0x0B {
            Ok(Instruction::Dec16 { dst: Register16::BC.to_opst16() })
        } else if op == 0x13 {
            Ok(Instruction::Inc16 { dst: Register16::DE.to_opst16() })
        } else if op == 0x1B {
            Ok(Instruction::Dec16 { dst: Register16::DE.to_opst16() })
        } else if op == 0x23 {
            Ok(Instruction::Inc16 { dst: Register16::HL.to_opst16() })
        } else if op == 0x2B {
            Ok(Instruction::Dec16 { dst: Register16::HL.to_opst16() })
        } else if op == 0x33 {
            Ok(Instruction::Inc16 { dst: Register16::SP.to_opst16() })
        } else if op == 0x3B {
            Ok(Instruction::Dec16 { dst: Register16::SP.to_opst16() })
        } else if self.in_column(0x00, 0x3F, 0x04) {
            Ok(Instruction::Inc { dst: self.high_opst8() })
        } else if self.in_column(0x00, 0x3F, 0x05) {
            Ok(Instruction::Dec { dst: self.high_opst8() })
        } else if self.in_column(0x00, 0x3F, 0x06) {
            Ok(Instruction::Load { dst: self.high_opst8(), src: OpsTarget8::PcAddr8 })
        } else if op == 0x07 {
            Ok(Instruction::RotateLeftA { carry: true })
        } else if op == 0x0F {
            Ok(Instruction::RotateRightA { carry: true })
        } else if op == 0x17 {
            Ok(Instruction::RotateLeftA { carry: false })
        } else if op == 0x1F {
            Ok(Instruction::RotateRightA { carry: false })
        } else if op == 0x27 {
            Ok(Instruction::DecimalAdjustA)
        } else if op == 0x2F {
            Ok(Instruction::ComplementA)
        } else if op == 0x37 {
            Ok(Instruction::SetCarryFlag)
        } else if op == 0x3F {
            Ok(Instruction::ComplementCarryFlag)
        } else if op == 0x76 {
            Ok(Instruction::Halt)
        } else if 0x40 <= op && op <= 0x7F {
            let src: OpsTarget8 = self.low_opst8();
            let dst: OpsTarget8 = self.high_opst8();
            if src == dst {
                Ok(Instruction::Noop)
            } else {
                Ok(Instruction::Load { dst, src })
            }
        } else if 0x80 <= op && op <= 0x87 {
            Ok(Instruction::AddA { src: self.low_opst8(), carry: false })
        } else if 0x88 <= op && op <= 0x8F {
            Ok(Instruction::AddA { src: self.low_opst8(), carry: true })
        } else if 0x90 <= op && op <= 0x97 {
            Ok(Instruction::SubA { src: self.low_opst8(), carry: false })
        } else if 0x98 <= op && op <= 0x9F {
            Ok(Instruction::SubA { src: self.low_opst8(), carry: true })
        } else if 0xA0 <= op && op <= 0xA7 {
            Ok(Instruction::AndA { src: self.low_opst8() })
        } else if 0xA8 <= op && op <= 0xAF {
            Ok(Instruction::XorA { src: self.low_opst8() })
        } else if 0xB0 <= op && op <= 0xB7 {
            Ok(Instruction::OrA { src: self.low_opst8() })
        } else if 0xB8 <= op && op <= 0xBF {
            Ok(Instruction::CompareA { src: self.low_opst8() })
        } else if op == 0xC0 {
            Ok(Instruction::ReturnIf { flag: Flag::NZ })
        } else if op == 0xC8 {
            Ok(Instruction::ReturnIf { flag: Flag::Z })
        } else if op == 0xD0 {
            Ok(Instruction::ReturnIf { flag: Flag::NC })
        } else if op == 0xD8 {
            Ok(Instruction::ReturnIf { flag: Flag::C })
        } else if op == 0xE0 {
            Ok(Instruction::LoadDstAddr { dst: OpsTarget8::PcAddr8, src: Register8::A.to_opst8() })
        } else if op == 0xE8 {
            Ok(Instruction::AddSpAddr8ToSp)
        } else if op == 0xF0 {
            Ok(Instruction::LoadSrcAddr { dst: Register8::A.to_opst8(), src: OpsTarget8::PcAddr8 })
        } else if op == 0xF8 {
            Ok(Instruction::LoadSpAddSpAddr8ToHl)
        } else if op == 0xC1 {
            Ok(Instruction::Pop { reg16: Register16::BC })
        } else if op == 0xC9 {
            Ok(Instruction::Return)
        } else if op == 0xD1 {
            Ok(Instruction::Pop { reg16: Register16::DE })
        } else if op == 0xD9 {
            Ok(Instruction::ReturnInterrupt)
        } else if op == 0xE1 {
            Ok(Instruction::Pop { reg16: Register16::HL })
        } else if op == 0xE9 {
            Ok(Instruction::JumpHL)
        } else if op == 0xF1 {
            Ok(Instruction::Pop { reg16: Register16::AF })
        } else if op == 0xF9 {
            Ok(Instruction::Load16 { dst: OpsTarget16::PC, src: Register16::HL.to_opst16() })
        } else if op == 0xC2 {
            Ok(Instruction::JumpIf { flag: Flag::NZ })
        } else if op == 0xCA {
            Ok(Instruction::JumpIf { flag: Flag::Z })
        } else if op == 0xD2 {
            Ok(Instruction::JumpIf { flag: Flag::NC })
        } else if op == 0xDA {
            Ok(Instruction::JumpIf { flag: Flag::C })
        } else if op == 0xE2 {
            Ok(Instruction::LoadDstAddr { dst: Register8::C.to_opst8(), src: Register8::A.to_opst8() })
        } else if op == 0xEA {
            Ok(Instruction::Load { dst: OpsTarget8::PcAddr8, src: Register8::A.to_opst8() })
        } else if op == 0xF2 {
            Ok(Instruction::LoadSrcAddr { dst: Register8::A.to_opst8(), src: Register8::C.to_opst8() })
        } else if op == 0xFA {
            Ok(Instruction::Load { dst: Register8::A.to_opst8(), src: OpsTarget8::PcAddr8 })
        } else if op == 0xC3 {
            Ok(Instruction::Jump)
        } else if op == 0xCB {
            Ok(Instruction::NestedInstruction)
        } else if op == 0xF3 {
            Ok(Instruction::SetInterrupts { enable: false })
        } else if op == 0xFB {
            Ok(Instruction::SetInterrupts { enable: true })
        } else if op == 0xC4 {
            Ok(Instruction::CallIf { flag: Flag::NZ })
        } else if op == 0xCC {
            Ok(Instruction::CallIf { flag: Flag::Z })
        } else if op == 0xD4 {
            Ok(Instruction::CallIf { flag: Flag::NC })
        } else if op == 0xDC {
            Ok(Instruction::CallIf { flag: Flag::C })
        } else if op == 0xC5 {
            Ok(Instruction::Push { reg16: Register16::BC })
        } else if op == 0xCD {
            Ok(Instruction::Call)
        } else if op == 0xD5 {
            Ok(Instruction::Push { reg16: Register16::DE })
        } else if op == 0xE5 {
            Ok(Instruction::Push { reg16: Register16::HL })
        } else if op == 0xF5 {
            Ok(Instruction::Push { reg16: Register16::AF })
        } else if op == 0xC6 {
            Ok(Instruction::AddA { src: OpsTarget8::PcAddr8, carry: false })
        } else if op == 0xCE {
            Ok(Instruction::AddA { src: OpsTarget8::PcAddr8, carry: true })
        } else if op == 0xD6 {
            Ok(Instruction::SubA { src: OpsTarget8::PcAddr8, carry: false })
        } else if op == 0xDE {
            Ok(Instruction::SubA { src: OpsTarget8::PcAddr8, carry: true })
        } else if op == 0xE6 {
            Ok(Instruction::AndA { src: OpsTarget8::PcAddr8 })
        } else if op == 0xEE {
            Ok(Instruction::XorA { src: OpsTarget8::PcAddr8 })
        } else if op == 0xF6 {
            Ok(Instruction::OrA { src: OpsTarget8::PcAddr8 })
        } else if op == 0xFE {
            Ok(Instruction::CompareA { src: OpsTarget8::PcAddr8 })
        } else if 0xC0 <= op && op % 8 == 0x07 {
            let op_base: u8 = (op / 8) % 8;
            Ok(Instruction::Restart { addr: (op_base * 8) as u16 })
        } else {
            Err(CpuError::UnsupportedOpcode(op))
        }
    }

    fn to_bit_instruction(&self) -> (r: BitInstruction) {
        let op = self.value;
        let target: OpsTarget8 = self.low_opst8();
        let bit: u8 = (op / 8) % 8;
        if op <= 0x07 {
            BitInstruction::RotateLeft { dst: target, carry: true }
        } else if op <= 0x0F {
            BitInstruction::RotateRight { dst: target, carry: true }
        } else if op <= 0x17 {
            BitInstruction::RotateLeft { dst: target, carry: false }
        } else if op <= 0x1F {
            BitInstruction::RotateRight { dst: target, carry: false }
        } else if op <= 0x27 {
            BitInstruction::ShiftLeftArithmetic { dst: target }
        } else if op <= 0x2F {
            BitInstruction::ShiftRightArithmetic { dst: target }
        } else if op <= 0x37 {
            BitInstruction::SwapNibbles { dst: target }
        } else if op <= 0x3F {
            BitInstruction::ShiftRightLogical { dst: target }
        } else if op <= 0x7F {
            BitInstruction::BitTest { src: target, bit }
        } else if op <= 0xBF {
            BitInstruction::BitReset { dst: target, bit }
        } else {
            BitInstruction::BitSet { dst: target, bit }
        }
    }
}

impl Opcode {
    /// Whether the opcode lies in an 8-opcode column of the table.
    fn in_column(&self, lo: u8, hi: u8, mod8: u8) -> (r: bool)
        ensures
            r == spec_in_column(self.value, lo, hi, mod8),
    {
        lo <= self.value && self.value <= hi && self.value % 8 == mod8
    }

    /// The operand named by the low 3 bits.
    fn low_opst8(&self) -> (r: OpsTarget8)
        ensures
            r == spec_low_opst8(self.value),
    {
        let bytes = self.value % 8;
        self.to_opst8_impl(bytes)
    }

    /// The operand named by bits 3 to 5.
    fn high_opst8(&self) -> (r: OpsTarget8)
        ensures
            r == spec_high_opst8(self.value),
    {
        let bytes = (self.value / 8) % 8;
        self.to_opst8_impl(bytes)
    }

    /// The 8-way operand mapping on a 3-bit index.
    fn to_opst8_impl(&self, bytes: u8) -> (r: OpsTarget8)
        requires
            bytes <= 7,
        ensures
            r == spec_opst8_of_index(bytes),
    {
        if bytes == 0x0 {
            Register8::B.to_opst8()
        } else if bytes == 0x1 {
            Register8::C.to_opst8()
        } else if bytes == 0x2 {
            Register8::D.to_opst8()
        } else if bytes == 0x3 {
            Register8::E.to_opst8()
        } else if bytes == 0x4 {
            Register8::H.to_opst8()
        } else if bytes == 0x5 {
            Register8::L.to_opst8()
        } else if bytes == 0x6 {
            Register16::HL.to_opst8_addr()
        } else {
            Register8::A.to_opst8()
        }
    }
}

} // verus!
