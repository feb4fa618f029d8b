//! The instruction-set interpreter: fetches an opcode at the program
//! counter, decodes it, executes it against the register file, flags and
//! memory, and accounts its cycle cost against the scanline budget. Every
//! step is proved to produce exactly the state and outcome that the
//! `semantics` model gives it.

use vstd::prelude::*;
use crate::alu::{spec_pow2, spec_set_bit};
use crate::flags::{Flag, Flags};
use crate::instructions::{BitInstruction, CpuError, Instruction, Opcode, OpsTarget8, OpsTarget16};
use crate::memory::Memory;
use crate::opcode_parser::InstructionParser;
use crate::registers::{
    wrapping_add_u16, wrapping_sub_u16, Register16, Registers,
};
use crate::semantics::{
    spec_add_a, spec_add_hl, spec_add_sp_imm8, spec_and_a,
    spec_bit_set, spec_bit_test, spec_call, spec_call_if, spec_compare_a,
    spec_complement_carry_flag, spec_dec, spec_dec16, spec_exec_bit_instruction,
    spec_exec_instruction, spec_inc, spec_inc16, spec_jump, spec_jump_hl, spec_jump_if,
    spec_jump_reg, spec_jump_reg_if, spec_load, spec_load16, spec_load_dst_addr,
    spec_load_src_addr, spec_load_sp_add_imm8_to_hl, spec_or_a, spec_pop, spec_push,
    spec_read_opst16, spec_read_opst8, spec_read_pcaddr16, spec_read_pcaddr8, spec_restart,
    spec_ret, spec_ret_if, spec_ret_interrupt, spec_rotate_left_a, spec_rotate_right_a,
    spec_set_carry_flag, spec_step, spec_sub_a, spec_update_cycles, spec_write_opst16,
    spec_sext_add, spec_write_opst8, spec_write_pcaddr16, spec_write_pcaddr8, spec_xor_a, CpuV,
    CYCLES_PER_SCANLINE, MAX_SCANLINE, SCANLINE_ADDR,
};

verus! {

/// The 16-bit cursor into memory that fetches advance and control flow
/// overwrites.
#[derive(Clone, Copy, PartialEq, Eq, Structural, Debug)]
pub struct ProgramCounter {
    pub value: u16,
}

/// The processing core: register file, flags, memory, program counter and
/// the cycle accumulator owned by the timing scheduler.
pub struct Cpu {
    pub regs: Registers,
    pub flags: Flags,
    pub mem: Memory,
    pub pc: ProgramCounter,
    pub cycles: u16,
}

impl View for Cpu {
    type V = CpuV;

    open spec fn view(&self) -> CpuV {
        CpuV {
            regs: self.regs,
            flags: self.flags,
            pc: self.pc.value,
            cycles: self.cycles,
            mem: self.mem.data@,
        }
    }
}

/// Whether a decoded extended-table instruction carries a bit index in
/// range; the decoder only produces such instructions.
pub open spec fn spec_bit_instruction_wf(bi: BitInstruction) -> bool {
    match bi {
        BitInstruction::BitTest { src, bit } => bit <= 7,
        BitInstruction::BitReset { dst, bit } => bit <= 7,
        BitInstruction::BitSet { dst, bit } => bit <= 7,
        _ => true,
    }
}

/// The power of two selecting one bit of a byte, as executable code.
fn bit_mask(bit: u8) -> (r: u8)
    requires
        bit <= 7,
    ensures
        r == spec_pow2(bit),
{
    if bit == 0 {
        1
    } else if bit == 1 {
        2
    } else if bit == 2 {
        4
    } else if bit == 3 {
        8
    } else if bit == 4 {
        16
    } else if bit == 5 {
        32
    } else if bit == 6 {
        64
    } else {
        128
    }
}

impl Cpu {
    /// A fresh core over the given memory: every register and flag clear,
    /// the program counter at zero, no cycles accumulated.
    pub fn new(mem: Memory) -> (r: Self)
        requires
            mem.wf(),
        ensures
            r@.wf(),
            r@ == (CpuV {
                regs: Registers { a: 0, f: 0, b: 0, c: 0, d: 0, e: 0, h: 0, l: 0, sp: 0 },
                flags: Flags { z: false, n: false, h: false, c: false },
                pc: 0,
                cycles: 0,
                mem: mem.data@,
            }),
    {
        Cpu {
            regs: Registers::new(),
            flags: Flags::new(),
            mem,
            pc: ProgramCounter { value: 0 },
            cycles: 0,
        }
    }

    /// Execute one instruction: fetch, decode, execute, account cycles. The
    /// sole control surface; a typed failure reports an unsupported opcode,
    /// an unimplemented instruction, or an out-of-range 16-bit access.
    pub fn step(&mut self) -> (r: Result<(), CpuError>)
        requires
            old(self)@.wf(),
        ensures
            final(self)@.wf(),
            (r, final(self)@) == spec_step(old(self)@),
    {
        let opcode = Opcode { value: self.read_pcaddr8() };
        let instruction = match opcode.to_instruction() {
            Ok(i) => i,
            Err(e) => {
                return Err(e);
            }
        };
        match self.execute_instruction(&instruction) {
            Ok(()) => {}
            Err(e) => {
                return Err(e);
            }
        }
        self.update_cycles(&instruction, &opcode);
        Ok(())
    }

    #[verifier::spinoff_prover]
    fn execute_instruction(&mut self, instruction: &Instruction) -> (r: Result<(), CpuError>)
        requires
            old(self)@.wf(),
        ensures
            final(self)@.wf(),
            (r, final(self)@) == spec_exec_instruction(old(self)@, *instruction),
    {
        match instruction {
            Instruction::Noop => Ok(()),
            Instruction::Stop => Ok(()),
            Instruction::Halt => Ok(()),
            Instruction::AddA { .. } | Instruction::AddHl { .. } | Instruction::AddSpAddr8ToSp
                | Instruction::SubA { .. } | Instruction::AndA { .. } | Instruction::XorA { .. }
                | Instruction::OrA { .. } | Instruction::CompareA { .. }
                | Instruction::Inc { .. } | Instruction::Inc16 { .. } | Instruction::Dec { .. }
                | Instruction::Dec16 { .. } | Instruction::RotateLeftA { .. }
                | Instruction::RotateRightA { .. } | Instruction::SetCarryFlag
                | Instruction::ComplementCarryFlag => self.execute_arithmetic(instruction),
            Instruction::Load { .. } | Instruction::Load16 { .. }
                | Instruction::LoadDstAddr { .. } | Instruction::LoadSrcAddr { .. }
                | Instruction::LoadSpAddSpAddr8ToHl | Instruction::Push { .. }
                | Instruction::Pop { .. } => self.execute_load_group(instruction),
            Instruction::Jump | Instruction::JumpIf { .. } | Instruction::JumpHL
                | Instruction::JumpReg | Instruction::JumpRegIf { .. } | Instruction::Call
                | Instruction::CallIf { .. } | Instruction::Return | Instruction::ReturnIf { .. }
                | Instruction::ReturnInterrupt | Instruction::Restart { .. }
                | Instruction::NestedInstruction => self.execute_control_flow(instruction),
            Instruction::DecimalAdjustA => Err(CpuError::UnimplementedInstruction(*instruction)),
            Instruction::ComplementA => Err(CpuError::UnimplementedInstruction(*instruction)),
            Instruction::SetInterrupts { .. } => Err(
                CpuError::UnimplementedInstruction(*instruction),
            ),
        }
    }

    #[verifier::spinoff_prover]
    fn execute_arithmetic(&mut self, instruction: &Instruction) -> (r: Result<(), CpuError>)
        requires
            old(self)@.wf(),
            (*instruction is AddA) || (*instruction is AddHl) || (*instruction
                is AddSpAddr8ToSp) || (*instruction is SubA) || (*instruction is AndA)
                || (*instruction is XorA) || (*instruction is OrA) || (*instruction is CompareA)
                || (*instruction is Inc) || (*instruction is Inc16) || (*instruction is Dec)
                || (*instruction is Dec16) || (*instruction is RotateLeftA) || (*instruction
                is RotateRightA) || (*instruction is SetCarryFlag) || (*instruction
                is ComplementCarryFlag),
        ensures
            final(self)@.wf(),
            (r, final(self)@) == spec_exec_instruction(old(self)@, *instruction),
    {
        match instruction {
            Instruction::AddA { src, carry } => {
                self.add_a(src, carry);
                Ok(())
            }
            Instruction::AddHl { src } => {
                self.add_hl(src);
                Ok(())
            }
            Instruction::AddSpAddr8ToSp => {
                self.add_8_to_sp();
                Ok(())
            }
            Instruction::SubA { src, carry } => {
                self.sub_a(src, carry);
                Ok(())
            }
            Instruction::AndA { src } => {
                self.and_a(src);
                Ok(())
            }
            Instruction::XorA { src } => {
                self.xor_a(src);
                Ok(())
            }
            Instruction::OrA { src } => {
                self.or_a(src);
                Ok(())
            }
            Instruction::CompareA { src } => {
                self.compare_a(src);
                Ok(())
            }
            Instruction::Inc { dst } => {
                self.inc(dst);
                Ok(())
            }
            Instruction::Inc16 { dst } => self.inc16(dst),
            Instruction::Dec { dst } => {
                self.dec(dst);
                Ok(())
            }
            Instruction::Dec16 { dst } => self.dec16(dst),
            Instruction::RotateLeftA { carry } => {
                self.rotate_left_a(carry);
                Ok(())
            }
            Instruction::RotateRightA { carry } => {
                self.rotate_right_a(carry);
                Ok(())
            }
            Instruction::SetCarryFlag => {
                self.set_carry_flag();
                Ok(())
            }
            Instruction::ComplementCarryFlag => {
                self.complement_carry_flag();
                Ok(())
            }
            _ => {
                proof {
                    assert(false);
                }
                Err(CpuError::UnimplementedInstruction(*instruction))
            }
        }
    }

    #[verifier::spinoff_prover]
    fn execute_load_group(&mut self, instruction: &Instruction) -> (r: Result<(), CpuError>)
        requires
            old(self)@.wf(),
            (*instruction is Load) || (*instruction is Load16) || (*instruction is LoadDstAddr)
                || (*instruction is LoadSrcAddr) || (*instruction is LoadSpAddSpAddr8ToHl) || (
            *instruction is Push) || (*instruction is Pop),
        ensures
            final(self)@.wf(),
            (r, final(self)@) == spec_exec_instruction(old(self)@, *instruction),
    {
        match instruction {
            Instruction::Load { dst, src } => {
                self.load(dst, src);
                Ok(())
            }
            Instruction::Load16 { dst, src } => self.load16(dst, src),
            Instruction::LoadDstAddr { dst, src } => {
                self.load_dst_addr(dst, src);
                Ok(())
            }
            Instruction::LoadSrcAddr { dst, src } => {
                self.load_src_addr(dst, src);
                Ok(())
            }
            Instruction::LoadSpAddSpAddr8ToHl => {
                self.load_sp_add_spaddr8_to_hl();
                Ok(())
            }
            Instruction::Push { reg16 } => self.push(reg16),
            Instruction::Pop { reg16 } => self.pop(reg16),
            _ => {
                proof {
                    assert(false);
                }
                Err(CpuError::UnimplementedInstruction(*instruction))
            }
        }
    }

    #[verifier::spinoff_prover]
    fn execute_control_flow(&mut self, instruction: &Instruction) -> (r: Result<(), CpuError>)
        requires
            old(self)@.wf(),
            (*instruction is Jump) || (*instruction is JumpIf) || (*instruction is JumpHL) || (
            *instruction is JumpReg) || (*instruction is JumpRegIf) || (*instruction is Call) || (
            *instruction is CallIf) || (*instruction is Return) || (*instruction is ReturnIf) || (
            *instruction is ReturnInterrupt) || (*instruction is Restart) || (*instruction
                is NestedInstruction),
        ensures
            final(self)@.wf(),
            (r, final(self)@) == spec_exec_instruction(old(self)@, *instruction),
    {
        match instruction {
            Instruction::Jump => self.jump(),
            Instruction::JumpIf { flag } => self.jump_if(flag),
            Instruction::JumpHL => {
                self.jump_hl();
                Ok(())
            }
            Instruction::JumpReg => {
                self.jump_reg();
                Ok(())
            }
            Instruction::JumpRegIf { flag } => {
                self.jump_reg_if(flag);
                Ok(())
            }
            Instruction::Call => self.call(),
            Instruction::CallIf { flag } => self.call_if(flag),
            Instruction::Return => self.ret(),
            Instruction::ReturnIf { flag } => self.ret_if(flag),
            Instruction::ReturnInterrupt => {
                self.ret_interrupt();
                Ok(())
            }
            Instruction::Restart { addr } => {
                self.restart(addr);
                Ok(())
            }
            Instruction::NestedInstruction => {
                let opcode = Opcode { value: self.read_pcaddr8() };
                let bit_instruction = opcode.to_bit_instruction();
                proof {
                    assert(spec_bit_instruction_wf(bit_instruction));
                }
                self.execute_bit_instruction(&bit_instruction)
            }
            _ => {
                proof {
                    assert(false);
                }
                Err(CpuError::UnimplementedInstruction(*instruction))
            }
        }
    }

    fn update_cycles(&mut self, instruction: &Instruction, opcode: &Opcode)
        requires
            old(self)@.wf(),
        ensures
            final(self)@.wf(),
            final(self)@ == spec_update_cycles(old(self)@, *instruction, opcode.value),
    {
        let cost = instruction.cycles(opcode, &self.flags);
        self.cycles = self.cycles + cost as u16;

        if self.cycles >= CYCLES_PER_SCANLINE {
            self.cycles = 0;

            let scanline: u8 = self.mem.read_addr8(SCANLINE_ADDR);
            let value = if scanline > MAX_SCANLINE {
                0
            } else {
                scanline + 1
            };

            self.mem.write_addr8(SCANLINE_ADDR, value);
        }
    }

    fn add_a(&mut self, src: &OpsTarget8, carry: &bool)
        requires
            old(self)@.wf(),
        ensures
            final(self)@.wf(),
            final(self)@ == spec_add_a(old(self)@, *src, *carry),
    {
        let a: u8 = self.regs.a;
        let b: u8 = self.read_opst8(src);
        let c: bool = *carry && self.flags.c;
        let cv: u16 = if c {
            1
        } else {
            0
        };

        let sum: u16 = a as u16 + b as u16 + cv;
        let value: u8 = (sum % 256) as u8;
        self.regs.a = value;

        self.flags.z = value == 0;
        self.flags.n = false;
        self.flags.h = (a % 16) as u16 + (b % 16) as u16 + cv > 15;
        self.flags.c = sum > 255;
    }

    fn add_hl(&mut self, src: &Register16)
        requires
            old(self)@.wf(),
        ensures
            final(self)@.wf(),
            final(self)@ == spec_add_hl(old(self)@, *src),
    {
        let a: u16 = self.regs.hl();
        let b: u16 = self.regs.read_reg16(src);

        let sum: u32 = a as u32 + b as u32;
        let value: u16 = (sum % 0x10000) as u16;
        self.regs.hl_w(value);

        self.flags.z = value == 0;
        self.flags.n = false;
        self.flags.h = (a % 4096) as u32 + (b % 4096) as u32 > 4095;
        self.flags.c = sum > 0xFFFF;
    }

    fn add_8_to_sp(&mut self)
        requires
            old(self)@.wf(),
        ensures
            final(self)@.wf(),
            final(self)@ == spec_add_sp_imm8(old(self)@),
    {
        let a: u16 = self.pc.value;
        let b: u16 = self.read_pcaddr8() as u16;

        let sum: u32 = a as u32 + b as u32;
        let value: u16 = (sum % 0x10000) as u16;
        self.regs.sp = value;

        self.flags.z = value == 0;
        self.flags.n = false;
        self.flags.h = (a % 4096) as u32 + (b % 4096) as u32 > 4095;
        self.flags.c = sum > 0xFFFF;
    }

    fn sub_a(&mut self, src: &OpsTarget8, carry: &bool)
        requires
            old(self)@.wf(),
        ensures
            final(self)@.wf(),
            final(self)@ == spec_sub_a(old(self)@, *src, *carry),
    {
        let a: u8 = self.regs.a;
        let b: u8 = self.read_opst8(src);
        let c: bool = *carry && self.flags.c;
        let cv: u16 = if c {
            1
        } else {
            0
        };

        let diff: u16 = 512 + a as u16 - b as u16 - cv;
        let value: u8 = (diff % 256) as u8;
        self.regs.a = value;

        self.flags.z = value == 0;
        self.flags.n = true;
        self.flags.h = ((a % 16) as u16) < (b % 16) as u16 + cv;
        self.flags.c = (a as u16) < b as u16 + cv;
    }

    fn and_a(&mut self, src: &OpsTarget8)
        requires
            old(self)@.wf(),
        ensures
            final(self)@.wf(),
            final(self)@ == spec_and_a(old(self)@, *src),
    {
        let a: u8 = self.regs.a;
        let value = a & self.read_opst8(src);
        self.regs.a = value;

        self.flags.z = value == 0;
        self.flags.n = false;
        self.flags.h = true;
        self.flags.c = false;
    }

    fn xor_a(&mut self, src: &OpsTarget8)
        requires
            old(self)@.wf(),
        ensures
            final(self)@.wf(),
            final(self)@ == spec_xor_a(old(self)@, *src),
    {
        let a: u8 = self.regs.a;
        let value = a ^ self.read_opst8(src);
        self.regs.a = value;

        self.flags.z = value == 0;
        self.flags.n = false;
        self.flags.h = false;
        self.flags.c = false;
    }

    fn or_a(&mut self, src: &OpsTarget8)
        requires
            old(self)@.wf(),
        ensures
            final(self)@.wf(),
            final(self)@ == spec_or_a(old(self)@, *src),
    {
        let a: u8 = self.regs.a;
        let value = a | self.read_opst8(src);
        self.regs.a = value;

        self.flags.z = value == 0;
        self.flags.n = false;
        self.flags.h = true;
        self.flags.c = false;
    }

    fn compare_a(&mut self, src: &OpsTarget8)
        requires
            old(self)@.wf(),
        ensures
            final(self)@.wf(),
            final(self)@ == spec_compare_a(old(self)@, *src),
    {
        let a = self.regs.a;
        self.sub_a(src, &false);
        self.regs.a = a;
    }

    fn inc(&mut self, dst: &OpsTarget8)
        requires
            old(self)@.wf(),
        ensures
            final(self)@.wf(),
            final(self)@ == spec_inc(old(self)@, *dst),
    {
        let a: u8 = self.read_opst8(dst);
        let value: u8 = if a == 255 {
            0
        } else {
            a + 1
        };
        self.write_opst8(dst, value);

        self.flags.z = value == 0;
        self.flags.n = false;
        self.flags.h = a % 16 == 15;
    }

    fn inc16(&mut self, dst: &OpsTarget16) -> (r: Result<(), CpuError>)
        requires
            old(self)@.wf(),
        ensures
            final(self)@.wf(),
            (r, final(self)@) == spec_inc16(old(self)@, *dst),
    {
        let a: u16 = match self.read_opst16(dst) {
            Ok(v) => v,
            Err(e) => {
                return Err(e);
            }
        };
        let value: u16 = wrapping_add_u16(a, 1);
        match self.write_opst16(dst, value) {
            Ok(()) => {}
            Err(e) => {
                return Err(e);
            }
        }

        self.flags.z = value == 0;
        self.flags.n = false;
        self.flags.h = a % 4096 == 4095;
        Ok(())
    }

    fn dec(&mut self, dst: &OpsTarget8)
        requires
            old(self)@.wf(),
        ensures
            final(self)@.wf(),
            final(self)@ == spec_dec(old(self)@, *dst),
    {
        let a: u8 = self.read_opst8(dst);
        let value: u8 = if a == 0 {
            255
        } else {
            a - 1
        };
        self.write_opst8(dst, value);

        self.flags.z = value == 0;
        self.flags.n = true;
        self.flags.h = a % 16 == 0;
    }

    fn dec16(&mut self, dst: &OpsTarget16) -> (r: Result<(), CpuError>)
        requires
            old(self)@.wf(),
        ensures
            final(self)@.wf(),
            (r, final(self)@) == spec_dec16(old(self)@, *dst),
    {
        let a: u16 = match self.read_opst16(dst) {
            Ok(v) => v,
            Err(e) => {
                return Err(e);
            }
        };
        let value: u16 = wrapping_sub_u16(a, 1);
        match self.write_opst16(dst, value) {
            Ok(()) => {}
            Err(e) => {
                return Err(e);
            }
        }

        self.flags.z = value == 0;
        self.flags.n = true;
        self.flags.h = a % 4096 == 0;
        Ok(())
    }

    fn rotate_left_a(&mut self, carry: &bool)
        requires
            old(self)@.wf(),
        ensures
            final(self)@.wf(),
            final(self)@ == spec_rotate_left_a(old(self)@, *carry),
    {
        let a = self.regs.a;
        let base: u8 = if a < 128 {
            a * 2
        } else {
            (a - 128) * 2
        };
        let c = if *carry {
            self.flags.c
        } else {
            false
        };
        let value: u8 = if c {
            base + 1
        } else {
            base
        };

        self.flags.z = value == 0;
        self.flags.n = false;
        self.flags.h = false;
        self.flags.c = c;

        self.regs.a = value;
    }

    fn rotate_right_a(&mut self, carry: &bool)
        requires
            old(self)@.wf(),
        ensures
            final(self)@.wf(),
            final(self)@ == spec_rotate_right_a(old(self)@, *carry),
    {
        let a = self.regs.a;
        let half: u8 = a / 2;
        let c = if *carry {
            self.flags.c
        } else {
            false
        };
        let value: u8 = if c && half % 2 == 0 {
            half + 1
        } else {
            half
        };

        self.flags.z = value == 0;
        self.flags.n = false;
        self.flags.h = false;
        self.flags.c = c;

        self.regs.a = value;
    }

    fn load(&mut self, dst: &OpsTarget8, src: &OpsTarget8)
        requires
            old(self)@.wf(),
        ensures
            final(self)@.wf(),
            final(self)@ == spec_load(old(self)@, *dst, *src),
    {
        let value: u8 = self.read_opst8(src);
        self.write_opst8(dst, value);
    }

    fn load16(&mut self, dst: &OpsTarget16, src: &OpsTarget16) -> (r: Result<(), CpuError>)
        requires
            old(self)@.wf(),
        ensures
            final(self)@.wf(),
            (r, final(self)@) == spec_load16(old(self)@, *dst, *src),
    {
        let value: u16 = match self.read_opst16(src) {
            Ok(v) => v,
            Err(e) => {
                return Err(e);
            }
        };
        self.write_opst16(dst, value)
    }

    fn load_dst_addr(&mut self, dst: &OpsTarget8, src: &OpsTarget8)
        requires
            old(self)@.wf(),
        ensures
            final(self)@.wf(),
            final(self)@ == spec_load_dst_addr(old(self)@, *dst, *src),
    {
        let addr: u16 = 0xFF00 + self.read_opst8(dst) as u16;
        let value: u8 = self.read_opst8(src);
        self.write_addr8(addr, value);
    }

    fn load_src_addr(&mut self, dst: &OpsTarget8, src: &OpsTarget8)
        requires
            old(self)@.wf(),
        ensures
            final(self)@.wf(),
            final(self)@ == spec_load_src_addr(old(self)@, *dst, *src),
    {
        let addr: u16 = 0xFF00 + self.read_opst8(src) as u16;
        let value: u8 = self.read_addr8(addr);
        self.write_opst8(dst, value);
    }

    fn load_sp_add_spaddr8_to_hl(&mut self)
        requires
            old(self)@.wf(),
        ensures
            final(self)@.wf(),
            final(self)@ == spec_load_sp_add_imm8_to_hl(old(self)@),
    {
        let sp: u16 = self.regs.sp;
        let b: u16 = self.read_pcaddr8() as u16;
        let value: u16 = wrapping_add_u16(sp, b);
        self.regs.hl_w(value);
    }

    fn push(&mut self, reg16: &Register16) -> (r: Result<(), CpuError>)
        requires
            old(self)@.wf(),
        ensures
            final(self)@.wf(),
            (r, final(self)@) == spec_push(old(self)@, *reg16),
    {
        let value: u16 = self.regs.read_reg16(reg16);
        let sp_new: u16 = wrapping_sub_u16(self.regs.sp, 2);
        if sp_new == 0xFFFF {
            return Err(CpuError::AddressOutOfRange(0xFFFF));
        }
        self.regs.sp = sp_new;
        self.mem.write_addr16(sp_new, value);
        Ok(())
    }

    fn pop(&mut self, reg16: &Register16) -> (r: Result<(), CpuError>)
        requires
            old(self)@.wf(),
        ensures
            final(self)@.wf(),
            (r, final(self)@) == spec_pop(old(self)@, *reg16),
    {
        if self.regs.sp == 0xFFFF {
            return Err(CpuError::AddressOutOfRange(0xFFFF));
        }
        let value: u16 = self.mem.read_addr16(self.regs.sp);
        self.regs.sp = wrapping_add_u16(self.regs.sp, 2);
        self.regs.write_reg16(reg16, value);
        Ok(())
    }

    fn jump(&mut self) -> (r: Result<(), CpuError>)
        requires
            old(self)@.wf(),
        ensures
            final(self)@.wf(),
            (r, final(self)@) == spec_jump(old(self)@),
    {
        let target = match self.read_pcaddr16() {
            Ok(v) => v,
            Err(e) => {
                return Err(e);
            }
        };
        self.pc.value = target;
        Ok(())
    }

    fn jump_if(&mut self, flag: &Flag) -> (r: Result<(), CpuError>)
        requires
            old(self)@.wf(),
        ensures
            final(self)@.wf(),
            (r, final(self)@) == spec_jump_if(old(self)@, *flag),
    {
        if self.flags.flag(flag) {
            self.jump()
        } else {
            self.pc.value = wrapping_add_u16(self.pc.value, 2);
            Ok(())
        }
    }

    fn jump_hl(&mut self)
        requires
            old(self)@.wf(),
        ensures
            final(self)@.wf(),
            final(self)@ == spec_jump_hl(old(self)@),
    {
        self.pc.value = self.regs.hl();
    }

    fn jump_reg(&mut self)
        requires
            old(self)@.wf(),
        ensures
            final(self)@.wf(),
            final(self)@ == spec_jump_reg(old(self)@),
    {
        let b: u8 = self.read_pcaddr8();
        let a: u16 = self.pc.value;
        let target: u32 = if b < 128 {
            (a as u32 + b as u32) % 0x10000
        } else {
            (a as u32 + b as u32 + 0xFF00) % 0x10000
        };
        self.pc.value = target as u16;
        proof {
            assert(self.pc.value == spec_sext_add(a, b));
        }
    }

    fn jump_reg_if(&mut self, flag: &Flag)
        requires
            old(self)@.wf(),
        ensures
            final(self)@.wf(),
            final(self)@ == spec_jump_reg_if(old(self)@, *flag),
    {
        if self.flags.flag(flag) {
            self.jump_reg();
        } else {
            self.pc.value = wrapping_add_u16(self.pc.value, 1);
        }
    }

    fn call(&mut self) -> (r: Result<(), CpuError>)
        requires
            old(self)@.wf(),
        ensures
            final(self)@.wf(),
            (r, final(self)@) == spec_call(old(self)@),
    {
        let sp_new: u16 = wrapping_sub_u16(self.regs.sp, 2);
        if sp_new == 0xFFFF {
            return Err(CpuError::AddressOutOfRange(0xFFFF));
        }
        let ret_addr: u16 = wrapping_add_u16(self.pc.value, 2);
        self.regs.sp = sp_new;
        self.mem.write_addr16(sp_new, ret_addr);
        let target = match self.read_pcaddr16() {
            Ok(v) => v,
            Err(e) => {
                return Err(e);
            }
        };
        self.pc.value = target;
        Ok(())
    }

    fn call_if(&mut self, flag: &Flag) -> (r: Result<(), CpuError>)
        requires
            old(self)@.wf(),
        ensures
            final(self)@.wf(),
            (r, final(self)@) == spec_call_if(old(self)@, *flag),
    {
        if self.flags.flag(flag) {
            self.call()
        } else {
            self.pc.value = wrapping_add_u16(self.pc.value, 2);
            Ok(())
        }
    }

    fn ret(&mut self) -> (r: Result<(), CpuError>)
        requires
            old(self)@.wf(),
        ensures
            final(self)@.wf(),
            (r, final(self)@) == spec_ret(old(self)@),
    {
        if self.regs.sp == 0xFFFF {
            return Err(CpuError::AddressOutOfRange(0xFFFF));
        }
        self.pc.value = self.mem.read_addr16(self.regs.sp);
        self.regs.sp = wrapping_add_u16(self.regs.sp, 2);
        Ok(())
    }

    fn ret_if(&mut self, flag: &Flag) -> (r: Result<(), CpuError>)
        requires
            old(self)@.wf(),
        ensures
            final(self)@.wf(),
            (r, final(self)@) == spec_ret_if(old(self)@, *flag),
    {
        if self.flags.flag(flag) {
            self.ret()
        } else {
            Ok(())
        }
    }

    fn ret_interrupt(&mut self)
        requires
            old(self)@.wf(),
        ensures
            final(self)@.wf(),
            final(self)@ == spec_ret_interrupt(old(self)@),
    {
    }

    fn restart(&mut self, addr: &u16)
        requires
            old(self)@.wf(),
        ensures
            final(self)@.wf(),
            final(self)@ == spec_restart(old(self)@, *addr),
    {
        self.pc.value = *addr;
    }

    fn set_carry_flag(&mut self)
        requires
            old(self)@.wf(),
        ensures
            final(self)@.wf(),
            final(self)@ == spec_set_carry_flag(old(self)@),
    {
        self.flags.c = true;
    }

    fn complement_carry_flag(&mut self)
        requires
            old(self)@.wf(),
        ensures
            final(self)@.wf(),
            final(self)@ == spec_complement_carry_flag(old(self)@),
    {
        self.flags.c = !self.flags.c;
    }

    fn execute_bit_instruction(&mut self, instruction: &BitInstruction) -> (r: Result<
        (),
        CpuError,
    >)
        requires
            old(self)@.wf(),
            spec_bit_instruction_wf(*instruction),
        ensures
            final(self)@.wf(),
            (r, final(self)@) == spec_exec_bit_instruction(old(self)@, *instruction),
    {
        match instruction {
            BitInstruction::BitTest { src, bit } => {
                self.bit_test(src, bit);
                Ok(())
            }
            BitInstruction::BitSet { dst, bit } => {
                self.bit_set(dst, bit);
                Ok(())
            }
            _ => Err(CpuError::UnimplementedBitInstruction(*instruction)),
        }
    }

    fn bit_test(&mut self, src: &OpsTarget8, bit: &u8)
        requires
            old(self)@.wf(),
            *bit <= 7,
        ensures
            final(self)@.wf(),
            final(self)@ == spec_bit_test(old(self)@, *src, *bit),
    {
        let a = self.read_opst8(src);
        let mask = bit_mask(*bit);
        let bit_is_set: bool = (a / mask) % 2 == 1;

        self.flags.z = !bit_is_set;
        self.flags.n = false;
        self.flags.h = true;
    }

    fn bit_set(&mut self, dst: &OpsTarget8, bit: &u8)
        requires
            old(self)@.wf(),
            *bit <= 7,
        ensures
            final(self)@.wf(),
            final(self)@ == spec_bit_set(old(self)@, *dst, *bit),
    {
        let a = self.read_opst8(dst);
        let mask = bit_mask(*bit);
        let value: u8 = if (a / mask) % 2 == 1 {
            a
        } else {
            proof {
                assert(a + mask < 256) by {
                    let bv = *bit;
                    if bv == 0 {
                        assert(mask == 1 && (a / 1) % 2 == 0 && a + 1 < 256);
                    } else if bv == 1 {
                        assert(mask == 2 && (a / 2) % 2 == 0 && a + 2 < 256);
                    } else if bv == 2 {
                        assert(mask == 4 && (a / 4) % 2 == 0 && a + 4 < 256);
                    } else if bv == 3 {
                        assert(mask == 8 && (a / 8) % 2 == 0 && a + 8 < 256);
                    } else if bv == 4 {
                        assert(mask == 16 && (a / 16) % 2 == 0 && a + 16 < 256);
                    } else if bv == 5 {
                        assert(mask == 32 && (a / 32) % 2 == 0 && a + 32 < 256);
                    } else if bv == 6 {
                        assert(mask == 64 && (a / 64) % 2 == 0 && a + 64 < 256);
                    } else {
                        assert(mask == 128 && (a / 128) % 2 == 0 && a + 128 < 256);
                    }
                };
            }
            a + mask
        };
        proof {
            assert(value == spec_set_bit(a, *bit));
        }
        self.write_opst8(dst, value);
    }

    fn read_opst8(&mut self, opst8: &OpsTarget8) -> (r: u8)
        requires
            old(self)@.wf(),
        ensures
            final(self)@.wf(),
            (r, final(self)@) == spec_read_opst8(old(self)@, *opst8),
    {
        match opst8 {
            OpsTarget8::R8(r8) => self.regs.read_reg8(r8),
            OpsTarget8::R16Addr8(r16) => {
                let addr = self.regs.read_reg16(r16);
                self.mem.read_addr8(addr)
            }
            OpsTarget8::PcAddr8 => self.read_pcaddr8(),
        }
    }

    fn write_opst8(&mut self, opst8: &OpsTarget8, value: u8)
        requires
            old(self)@.wf(),
        ensures
            final(self)@.wf(),
            final(self)@ == spec_write_opst8(old(self)@, *opst8, value),
    {
        match opst8 {
            OpsTarget8::R8(r8) => {
                self.regs.write_reg8(r8, value);
            }
            OpsTarget8::R16Addr8(r16) => {
                let addr = self.regs.read_reg16(r16);
                self.mem.write_addr8(addr, value);
            }
            OpsTarget8::PcAddr8 => {
                self.write_pcaddr8(value);
            }
        }
    }

    fn read_opst16(&mut self, opst16: &OpsTarget16) -> (r: Result<u16, CpuError>)
        requires
            old(self)@.wf(),
        ensures
            final(self)@.wf(),
            ({
                let (sr, sv) = spec_read_opst16(old(self)@, *opst16);
                r == sr && final(self)@ == sv
            }),
    {
        match opst16 {
            OpsTarget16::R16(r16) => Ok(self.regs.read_reg16(r16)),
            OpsTarget16::PC => Ok(self.pc.value),
            OpsTarget16::PcAddr16 => self.read_pcaddr16(),
        }
    }

    fn write_opst16(&mut self, opst16: &OpsTarget16, value: u16) -> (r: Result<(), CpuError>)
        requires
            old(self)@.wf(),
        ensures
            final(self)@.wf(),
            ({
                let (sr, sv) = spec_write_opst16(old(self)@, *opst16, value);
                r == sr && final(self)@ == sv
            }),
    {
        match opst16 {
            OpsTarget16::R16(r16) => {
                self.regs.write_reg16(r16, value);
                Ok(())
            }
            OpsTarget16::PC => {
                self.pc.value = value;
                Ok(())
            }
            OpsTarget16::PcAddr16 => self.write_pcaddr16(value),
        }
    }

    fn read_addr8(&self, addr: u16) -> (r: u8)
        requires
            self@.wf(),
        ensures
            r == crate::memory::spec_read8(self@.mem, addr),
    {
        self.mem.read_addr8(addr)
    }

    fn write_addr8(&mut self, addr: u16, value: u8)
        requires
            old(self)@.wf(),
        ensures
            final(self)@.wf(),
            final(self)@ == (CpuV {
                mem: crate::memory::spec_write8(old(self)@.mem, addr, value),
                ..old(self)@
            }),
    {
        self.mem.write_addr8(addr, value);
    }

    fn read_pcaddr8(&mut self) -> (r: u8)
        requires
            old(self)@.wf(),
        ensures
            final(self)@.wf(),
            (r, final(self)@) == spec_read_pcaddr8(old(self)@),
    {
        let v = self.mem.read_addr8(self.pc.value);
        self.pc.value = wrapping_add_u16(self.pc.value, 1);
        v
    }

    fn write_pcaddr8(&mut self, value: u8)
        requires
            old(self)@.wf(),
        ensures
            final(self)@.wf(),
            final(self)@ == spec_write_pcaddr8(old(self)@, value),
    {
        self.mem.write_addr8(self.pc.value, value);
        self.pc.value = wrapping_add_u16(self.pc.value, 1);
    }

    fn read_pcaddr16(&mut self) -> (r: Result<u16, CpuError>)
        requires
            old(self)@.wf(),
        ensures
            final(self)@.wf(),
            ({
                let (sr, sv) = spec_read_pcaddr16(old(self)@);
                r == sr && final(self)@ == sv
            }),
    {
        if self.pc.value == 0xFFFF {
            return Err(CpuError::AddressOutOfRange(0xFFFF));
        }
        let v = self.mem.read_addr16(self.pc.value);
        self.pc.value = wrapping_add_u16(self.pc.value, 2);
        Ok(v)
    }

    fn write_pcaddr16(&mut self, value: u16) -> (r: Result<(), CpuError>)
        requires
            old(self)@.wf(),
        ensures
            final(self)@.wf(),
            ({
                let (sr, sv) = spec_write_pcaddr16(old(self)@, value);
                r == sr && final(self)@ == sv
            }),
    {
        if self.pc.value == 0xFFFF {
            return Err(CpuError::AddressOutOfRange(0xFFFF));
        }
        self.mem.write_addr16(self.pc.value, value);
        self.pc.value = wrapping_add_u16(self.pc.value, 2);
        Ok(())
    }
}

} // verus!
