//! Cycle accounting: the elapsed hardware cycle cost of an executed
//! instruction. The cost depends on the opcode byte (the same instruction
//! kind can cost differently at different opcodes) and, for conditional
//! instructions, on the flag state that decided the branch.

use vstd::prelude::*;
use crate::flags::Flags;
use crate::instructions::{Instruction, Opcode};

verus! {

/// The declared cycle cost of an instruction at a given opcode byte under a
/// given flag state.
pub open spec fn spec_cycles(i: Instruction, op: u8, flags: Flags) -> u8 {
    let op_mod8 = op % 8;
    let op_row = (op - op_mod8) as u8;
    match i {
        Instruction::Noop => 4,
        Instruction::Stop => 4,
        Instruction::Halt => 4,
        Instruction::AddA { .. } => if op_mod8 == 0x6 { 8 } else { 4 },
        Instruction::SubA { .. } => if op_mod8 == 0x6 { 8 } else { 4 },
        Instruction::AndA { .. } => if op_mod8 == 0x6 { 8 } else { 4 },
        Instruction::XorA { .. } => if op_mod8 == 0x6 { 8 } else { 4 },
        Instruction::OrA { .. } => if op_mod8 == 0x6 { 8 } else { 4 },
        Instruction::CompareA { .. } => if op_mod8 == 0x6 { 8 } else { 4 },
        Instruction::AddHl { .. } => 8,
        Instruction::AddSpAddr8ToSp => 16,
        Instruction::Inc { .. } => if op == 0x34 { 12 } else { 4 },
        Instruction::Inc16 { .. } => 8,
        Instruction::Dec { .. } => if op == 0x35 { 12 } else { 4 },
        Instruction::Dec16 { .. } => 8,
        Instruction::RotateLeftA { .. } => 4,
        Instruction::RotateRightA { .. } => 4,
        Instruction::Load { .. } => if op < 0x3F && op_mod8 == 0x02 {
            8
        } else if op_row == 0x70 || op_mod8 == 0x6 {
            8
        } else {
            4
        },
        Instruction::Load16 { .. } => 8,
        Instruction::LoadDstAddr { .. } => if op_mod8 == 0x0 { 12 } else { 8 },
        Instruction::LoadSrcAddr { .. } => if op_mod8 == 0x0 { 12 } else { 8 },
        Instruction::LoadSpAddSpAddr8ToHl => 12,
        Instruction::Push { .. } => 16,
        Instruction::Pop { .. } => 12,
        Instruction::Jump => 12,
        Instruction::JumpHL => 4,
        Instruction::JumpIf { flag } => if flags.spec_flag(flag) { 16 } else { 12 },
        Instruction::JumpReg => 12,
        Instruction::JumpRegIf { flag } => if flags.spec_flag(flag) { 12 } else { 8 },
        Instruction::Call => 24,
        Instruction::CallIf { flag } => if flags.spec_flag(flag) { 24 } else { 12 },
        Instruction::Return => 16,
        Instruction::ReturnIf { flag } => if flags.spec_flag(flag) { 20 } else { 8 },
        Instruction::ReturnInterrupt => 16,
        Instruction::Restart { .. } => 16,
        Instruction::DecimalAdjustA => 4,
        Instruction::ComplementA => 4,
        Instruction::SetCarryFlag => 4,
        Instruction::ComplementCarryFlag => 4,
        Instruction::SetInterrupts { .. } => 4,
        Instruction::NestedInstruction => 12,
    }
}

impl Instruction {
    /// The elapsed cycle cost of this instruction at the given opcode under
    /// the given flag state. Never zero, and at most 24.
    pub fn cycles(&self, opcode: &Opcode, flags: &Flags) -> (r: u8)
        ensures
            r == spec_cycles(*self, opcode.value, *flags),
            0 < r <= 24,
    {
        let op = opcode.value;
        let op_mod8 = op % 8;
        let op_row = op - op_mod8;

        match self {
            Instruction::Noop => 4,
            Instruction::Stop => 4,
            Instruction::Halt => 4,
            Instruction::AddA { .. } | Instruction::SubA { .. } | Instruction::AndA { .. }
                | Instruction::XorA { .. } | Instruction::OrA { .. }
                | Instruction::CompareA { .. } => if op_mod8 == 0x6 { 8 } else { 4 },
            Instruction::AddHl { .. } => 8,
            Instruction::AddSpAddr8ToSp => 16,
            Instruction::Inc { .. } => if op == 0x34 { 12 } else { 4 },
            Instruction::Inc16 { .. } => 8,
            Instruction::Dec { .. } => if op == 0x35 { 12 } else { 4 },
            Instruction::Dec16 { .. } => 8,
            Instruction::RotateLeftA { .. } => 4,
            Instruction::RotateRightA { .. } => 4,
            Instruction::Load { .. } => {
                if op < 0x3F && op_mod8 == 0x02 {
                    8
                } else if op_row == 0x70 || op_mod8 == 0x6 {
                    8
                } else {
                    4
                }
            }
            Instruction::Load16 { .. } => 8,
            Instruction::LoadDstAddr { .. } => if op_mod8 == 0x0 { 12 } else { 8 },
            Instruction::LoadSrcAddr { .. } => if op_mod8 == 0x0 { 12 } else { 8 },
            Instruction::LoadSpAddSpAddr8ToHl => 12,
            Instruction::Push { .. } => 16,
            Instruction::Pop { .. } => 12,
            Instruction::Jump => 12,
            Instruction::JumpHL => 4,
            Instruction::JumpIf { flag } => if flags.flag(flag) { 16 } else { 12 },
            Instruction::JumpReg => 12,
            Instruction::JumpRegIf { flag } => if flags.flag(flag) { 12 } else { 8 },
            Instruction::Call => 24,
            Instruction::CallIf { flag } => if flags.flag(flag) { 24 } else { 12 },
            Instruction::Return => 16,
            Instruction::ReturnIf { flag } => if flags.flag(flag) { 20 } else { 8 },
            Instruction::ReturnInterrupt => 16,
            Instruction::Restart { .. } => 16,
            Instruction::DecimalAdjustA => 4,
            Instruction::ComplementA => 4,
            Instruction::SetCarryFlag => 4,
            Instruction::ComplementCarryFlag => 4,
            Instruction::SetInterrupts { .. } => 4,
            Instruction::NestedInstruction => 12,
        }
    }
}

} // verus!
