//! Tests of the opcode decoder: totality, the unsupported bytes, and spot
//! checks of both tables.

use rgbc::flags::Flag;
use rgbc::instructions::{BitInstruction, CpuError, Instruction, Opcode, OpsTarget8, OpsTarget16};
use rgbc::opcode_parser::InstructionParser;
use rgbc::registers::{Register16, Register8};

const UNSUPPORTED: [u8; 11] = [
    0xD3, 0xDB, 0xDD, 0xE3, 0xE4, 0xEB, 0xEC, 0xED, 0xF4, 0xFC, 0xFD,
];

#[test]
fn every_byte_decodes_or_reports_unsupported() {
    for op in 0..=255u8 {
        match (Opcode { value: op }).to_instruction() {
            Ok(_) => assert!(!UNSUPPORTED.contains(&op)),
            Err(e) => {
                assert!(UNSUPPORTED.contains(&op));
                assert_eq!(e, CpuError::UnsupportedOpcode(op));
            }
        }
    }
}

#[test]
fn every_extended_byte_decodes() {
    for op in 0..=255u8 {
        // Total by construction; decoding must not panic for any byte.
        let _ = (Opcode { value: op }).to_bit_instruction();
    }
}

#[test]
fn halt_sits_inside_the_load_block() {
    assert_eq!(
        (Opcode { value: 0x76 }).to_instruction(),
        Ok(Instruction::Halt)
    );
    // Its neighbours are ordinary loads through the HL address.
    assert_eq!(
        (Opcode { value: 0x77 }).to_instruction(),
        Ok(Instruction::Load {
            dst: OpsTarget8::R16Addr8(Register16::HL),
            src: OpsTarget8::R8(Register8::A),
        })
    );
}

#[test]
fn self_loads_decode_as_noops() {
    for op in [0x40u8, 0x49, 0x52, 0x5B, 0x64, 0x6D, 0x7F] {
        assert_eq!(
            (Opcode { value: op }).to_instruction(),
            Ok(Instruction::Noop),
            "opcode {op:#04x}"
        );
    }
}

#[test]
fn arithmetic_blocks_follow_the_low_bit_operand_mapping() {
    assert_eq!(
        (Opcode { value: 0x80 }).to_instruction(),
        Ok(Instruction::AddA { src: OpsTarget8::R8(Register8::B), carry: false })
    );
    assert_eq!(
        (Opcode { value: 0x8E }).to_instruction(),
        Ok(Instruction::AddA { src: OpsTarget8::R16Addr8(Register16::HL), carry: true })
    );
    assert_eq!(
        (Opcode { value: 0x97 }).to_instruction(),
        Ok(Instruction::SubA { src: OpsTarget8::R8(Register8::A), carry: false })
    );
    assert_eq!(
        (Opcode { value: 0xA1 }).to_instruction(),
        Ok(Instruction::AndA { src: OpsTarget8::R8(Register8::C) })
    );
    assert_eq!(
        (Opcode { value: 0xAA }).to_instruction(),
        Ok(Instruction::XorA { src: OpsTarget8::R8(Register8::D) })
    );
    assert_eq!(
        (Opcode { value: 0xB3 }).to_instruction(),
        Ok(Instruction::OrA { src: OpsTarget8::R8(Register8::E) })
    );
    assert_eq!(
        (Opcode { value: 0xBC }).to_instruction(),
        Ok(Instruction::CompareA { src: OpsTarget8::R8(Register8::H) })
    );
}

#[test]
fn immediate_variants_use_the_program_counter_operand() {
    assert_eq!(
        (Opcode { value: 0xC6 }).to_instruction(),
        Ok(Instruction::AddA { src: OpsTarget8::PcAddr8, carry: false })
    );
    assert_eq!(
        (Opcode { value: 0xDE }).to_instruction(),
        Ok(Instruction::SubA { src: OpsTarget8::PcAddr8, carry: true })
    );
    assert_eq!(
        (Opcode { value: 0xFE }).to_instruction(),
        Ok(Instruction::CompareA { src: OpsTarget8::PcAddr8 })
    );
}

#[test]
fn sixteen_bit_rows_are_keyed_by_pair_index() {
    assert_eq!(
        (Opcode { value: 0x01 }).to_instruction(),
        Ok(Instruction::Load16 {
            dst: OpsTarget16::R16(Register16::BC),
            src: OpsTarget16::PcAddr16,
        })
    );
    assert_eq!(
        (Opcode { value: 0x33 }).to_instruction(),
        Ok(Instruction::Inc16 { dst: OpsTarget16::R16(Register16::SP) })
    );
    assert_eq!(
        (Opcode { value: 0x1B }).to_instruction(),
        Ok(Instruction::Dec16 { dst: OpsTarget16::R16(Register16::DE) })
    );
    assert_eq!(
        (Opcode { value: 0x29 }).to_instruction(),
        Ok(Instruction::AddHl { src: Register16::HL })
    );
}

#[test]
fn conditions_are_keyed_by_flag_index() {
    assert_eq!(
        (Opcode { value: 0xC2 }).to_instruction(),
        Ok(Instruction::JumpIf { flag: Flag::NZ })
    );
    assert_eq!(
        (Opcode { value: 0xDA }).to_instruction(),
        Ok(Instruction::JumpIf { flag: Flag::C })
    );
    assert_eq!(
        (Opcode { value: 0xCC }).to_instruction(),
        Ok(Instruction::CallIf { flag: Flag::Z })
    );
    assert_eq!(
        (Opcode { value: 0xD0 }).to_instruction(),
        Ok(Instruction::ReturnIf { flag: Flag::NC })
    );
    assert_eq!(
        (Opcode { value: 0x30 }).to_instruction(),
        Ok(Instruction::JumpRegIf { flag: Flag::NC })
    );
}

#[test]
fn restart_row_encodes_eight_times_the_bit_index() {
    let targets: [(u8, u16); 8] = [
        (0xC7, 0x00),
        (0xCF, 0x08),
        (0xD7, 0x10),
        (0xDF, 0x18),
        (0xE7, 0x20),
        (0xEF, 0x28),
        (0xF7, 0x30),
        (0xFF, 0x38),
    ];
    for (op, addr) in targets {
        assert_eq!(
            (Opcode { value: op }).to_instruction(),
            Ok(Instruction::Restart { addr }),
            "opcode {op:#04x}"
        );
    }
}

#[test]
fn extended_table_bands() {
    assert_eq!(
        (Opcode { value: 0x00 }).to_bit_instruction(),
        BitInstruction::RotateLeft { dst: OpsTarget8::R8(Register8::B), carry: true }
    );
    assert_eq!(
        (Opcode { value: 0x1F }).to_bit_instruction(),
        BitInstruction::RotateRight { dst: OpsTarget8::R8(Register8::A), carry: false }
    );
    assert_eq!(
        (Opcode { value: 0x26 }).to_bit_instruction(),
        BitInstruction::ShiftLeftArithmetic { dst: OpsTarget8::R16Addr8(Register16::HL) }
    );
    assert_eq!(
        (Opcode { value: 0x2A }).to_bit_instruction(),
        BitInstruction::ShiftRightArithmetic { dst: OpsTarget8::R8(Register8::D) }
    );
    assert_eq!(
        (Opcode { value: 0x31 }).to_bit_instruction(),
        BitInstruction::SwapNibbles { dst: OpsTarget8::R8(Register8::C) }
    );
    assert_eq!(
        (Opcode { value: 0x3B }).to_bit_instruction(),
        BitInstruction::ShiftRightLogical { dst: OpsTarget8::R8(Register8::E) }
    );
    assert_eq!(
        (Opcode { value: 0x54 }).to_bit_instruction(),
        BitInstruction::BitTest { src: OpsTarget8::R8(Register8::H), bit: 2 }
    );
    assert_eq!(
        (Opcode { value: 0xA5 }).to_bit_instruction(),
        BitInstruction::BitReset { dst: OpsTarget8::R8(Register8::L), bit: 4 }
    );
    assert_eq!(
        (Opcode { value: 0xFE }).to_bit_instruction(),
        BitInstruction::BitSet { dst: OpsTarget8::R16Addr8(Register16::HL), bit: 7 }
    );
}

#[test]
fn operand_accessors_expose_their_register() {
    let t = OpsTarget8::R8(Register8::E);
    assert_eq!(t.r8(), Some(&Register8::E));
    assert_eq!(t.r16addr(), None);

    let m = OpsTarget8::R16Addr8(Register16::HLI);
    assert_eq!(m.r8(), None);
    assert_eq!(m.r16addr(), Some(&Register16::HLI));

    let p = OpsTarget8::PcAddr8;
    assert_eq!(p.r8(), None);
    assert_eq!(p.r16addr(), None);
}

#[test]
fn accumulator_rotates_and_carry_opcodes() {
    assert_eq!(
        (Opcode { value: 0x07 }).to_instruction(),
        Ok(Instruction::RotateLeftA { carry: true })
    );
    assert_eq!(
        (Opcode { value: 0x1F }).to_instruction(),
        Ok(Instruction::RotateRightA { carry: false })
    );
    assert_eq!(
        (Opcode { value: 0x37 }).to_instruction(),
        Ok(Instruction::SetCarryFlag)
    );
    assert_eq!(
        (Opcode { value: 0x3F }).to_instruction(),
        Ok(Instruction::ComplementCarryFlag)
    );
    assert_eq!(
        (Opcode { value: 0xCB }).to_instruction(),
        Ok(Instruction::NestedInstruction)
    );
}
