//! The mathematical model of one fetch-decode-execute-account step: a ghost
//! machine state and, for every instruction, the state it leads to together
//! with the typed outcome. The executable interpreter in `cpu` is verified
//! against this model clause by clause.

use vstd::prelude::*;
use crate::alu::{
    spec_alu_add, spec_alu_add16, spec_alu_and, spec_alu_dec16, spec_alu_dec8, spec_alu_inc16,
    spec_alu_inc8, spec_alu_or, spec_alu_rotate_left, spec_alu_rotate_right, spec_alu_sub,
    spec_alu_xor, spec_bit_of, spec_set_bit,
};
use crate::cycles::spec_cycles;
use crate::flags::{Flag, Flags};
use crate::instructions::{BitInstruction, CpuError, Instruction, OpsTarget8, OpsTarget16};
use crate::memory::{spec_read16, spec_read8, spec_write16, spec_write8, MEMORY_SIZE};
use crate::opcode_parser::{spec_decode, spec_decode_bit};
use crate::registers::{spec_wadd16, spec_wsub16, Register16, Registers};

verus! {

/// Cycle budget of one scanline: reaching it resets the accumulator and
/// advances the scanline counter.
pub const CYCLES_PER_SCANLINE: u16 = 456;

/// The memory-mapped hardware register holding the current scanline index.
pub const SCANLINE_ADDR: u16 = 0xFF44;

/// The largest scanline index; advancing past it wraps the counter to zero.
pub const MAX_SCANLINE: u8 = 153;

/// The machine state as the contracts speak of it.
#[verifier::ext_equal]
pub ghost struct CpuV {
    pub regs: Registers,
    pub flags: Flags,
    pub pc: u16,
    pub cycles: u16,
    pub mem: Seq<u8>,
}

impl CpuV {
    /// Every address is backed by a byte and the cycle accumulator sits
    /// below the scanline budget.
    pub open spec fn wf(self) -> bool {
        &&& self.mem.len() == MEMORY_SIZE
        &&& self.cycles < CYCLES_PER_SCANLINE
    }
}

/// Read the byte at the program counter and advance it past the operand.
pub open spec fn spec_read_pcaddr8(s: CpuV) -> (u8, CpuV) {
    (spec_read8(s.mem, s.pc), CpuV { pc: spec_wadd16(s.pc, 1), ..s })
}

/// Write a byte at the program counter and advance it.
pub open spec fn spec_write_pcaddr8(s: CpuV, value: u8) -> CpuV {
    CpuV { mem: spec_write8(s.mem, s.pc, value), pc: spec_wadd16(s.pc, 1), ..s }
}

/// Read the 16-bit value at the program counter and advance it by two; a
/// read starting at the very top of the address space is out of range.
pub open spec fn spec_read_pcaddr16(s: CpuV) -> (Result<u16, CpuError>, CpuV) {
    if s.pc == 0xFFFF {
        (Err(CpuError::AddressOutOfRange(0xFFFF)), s)
    } else {
        (Ok(spec_read16(s.mem, s.pc)), CpuV { pc: spec_wadd16(s.pc, 2), ..s })
    }
}

/// Write a 16-bit value at the program counter and advance it by two.
pub open spec fn spec_write_pcaddr16(s: CpuV, value: u16) -> (Result<(), CpuError>, CpuV) {
    if s.pc == 0xFFFF {
        (Err(CpuError::AddressOutOfRange(0xFFFF)), s)
    } else {
        (Ok(()), CpuV { mem: spec_write16(s.mem, s.pc, value), pc: spec_wadd16(s.pc, 2), ..s })
    }
}

/// Read an 8-bit operand (a register pair address may move HL as a side
/// effect; the program-counter operand advances the counter).
pub open spec fn spec_read_opst8(s: CpuV, t: OpsTarget8) -> (u8, CpuV) {
    match t {
        OpsTarget8::R8(r8) => (s.regs.spec_read_reg8(r8), s),
        OpsTarget8::R16Addr8(r16) => {
            let (addr, regs1) = s.regs.spec_read_reg16(r16);
            (spec_read8(s.mem, addr), CpuV { regs: regs1, ..s })
        }
        OpsTarget8::PcAddr8 => spec_read_pcaddr8(s),
    }
}

/// Write an 8-bit operand.
pub open spec fn spec_write_opst8(s: CpuV, t: OpsTarget8, value: u8) -> CpuV {
    match t {
        OpsTarget8::R8(r8) => CpuV { regs: s.regs.spec_write_reg8(r8, value), ..s },
        OpsTarget8::R16Addr8(r16) => {
            let (addr, regs1) = s.regs.spec_read_reg16(r16);
            CpuV { regs: regs1, mem: spec_write8(s.mem, addr, value), ..s }
        }
        OpsTarget8::PcAddr8 => spec_write_pcaddr8(s, value),
    }
}

/// Read a 16-bit operand.
pub open spec fn spec_read_opst16(s: CpuV, t: OpsTarget16) -> (Result<u16, CpuError>, CpuV) {
    match t {
        OpsTarget16::R16(r16) => {
            let (value, regs1) = s.regs.spec_read_reg16(r16);
            (Ok(value), CpuV { regs: regs1, ..s })
        }
        OpsTarget16::PC => (Ok(s.pc), s),
        OpsTarget16::PcAddr16 => spec_read_pcaddr16(s),
    }
}

/// Write a 16-bit operand.
pub open spec fn spec_write_opst16(s: CpuV, t: OpsTarget16, value: u16) -> (
    Result<(), CpuError>,
    CpuV,
) {
    match t {
        OpsTarget16::R16(r16) => (Ok(()), CpuV { regs: s.regs.spec_write_reg16(r16, value), ..s }),
        OpsTarget16::PC => (Ok(()), CpuV { pc: value, ..s }),
        OpsTarget16::PcAddr16 => spec_write_pcaddr16(s, value),
    }
}

/// Add an operand (and optionally the carry flag) into the accumulator.
pub open spec fn spec_add_a(s: CpuV, src: OpsTarget8, carry: bool) -> CpuV {
    let a = s.regs.a;
    let (b, s1) = spec_read_opst8(s, src);
    let cin = carry && s.flags.c;
    let (value, flags) = spec_alu_add(a, b, cin);
    CpuV { regs: Registers { a: value, ..s1.regs }, flags, ..s1 }
}

/// Add a 16-bit register view into HL.
pub open spec fn spec_add_hl(s: CpuV, src: Register16) -> CpuV {
    let a = s.regs.spec_hl();
    let (b, regs1) = s.regs.spec_read_reg16(src);
    let (value, flags) = spec_alu_add16(a, b);
    CpuV { regs: regs1.spec_hl_w(value), flags, ..s }
}

/// Add the inline byte to the address of that byte and store the sum into
/// the stack pointer, with 16-bit flag updates.
pub open spec fn spec_add_sp_imm8(s: CpuV) -> CpuV {
    let a = s.pc;
    let (b, s1) = spec_read_pcaddr8(s);
    let (value, flags) = spec_alu_add16(a, b as u16);
    CpuV { regs: Registers { sp: value, ..s1.regs }, flags, ..s1 }
}

/// Subtract an operand (and optionally the carry flag) from the accumulator.
pub open spec fn spec_sub_a(s: CpuV, src: OpsTarget8, carry: bool) -> CpuV {
    let a = s.regs.a;
    let (b, s1) = spec_read_opst8(s, src);
    let cin = carry && s.flags.c;
    let (value, flags) = spec_alu_sub(a, b, cin);
    CpuV { regs: Registers { a: value, ..s1.regs }, flags, ..s1 }
}

/// Bitwise and of an operand into the accumulator.
pub open spec fn spec_and_a(s: CpuV, src: OpsTarget8) -> CpuV {
    let a = s.regs.a;
    let (b, s1) = spec_read_opst8(s, src);
    let (value, flags) = spec_alu_and(a, b);
    CpuV { regs: Registers { a: value, ..s1.regs }, flags, ..s1 }
}

/// Bitwise exclusive or of an operand into the accumulator.
pub open spec fn spec_xor_a(s: CpuV, src: OpsTarget8) -> CpuV {
    let a = s.regs.a;
    let (b, s1) = spec_read_opst8(s, src);
    let (value, flags) = spec_alu_xor(a, b);
    CpuV { regs: Registers { a: value, ..s1.regs }, flags, ..s1 }
}

/// Bitwise or of an operand into the accumulator.
pub open spec fn spec_or_a(s: CpuV, src: OpsTarget8) -> CpuV {
    let a = s.regs.a;
    let (b, s1) = spec_read_opst8(s, src);
    let (value, flags) = spec_alu_or(a, b);
    CpuV { regs: Registers { a: value, ..s1.regs }, flags, ..s1 }
}

/// Compare: a subtraction whose flag side effects are kept but whose
/// accumulator write is discarded.
pub open spec fn spec_compare_a(s: CpuV, src: OpsTarget8) -> CpuV {
    let s1 = spec_sub_a(s, src, false);
    CpuV { regs: Registers { a: s.regs.a, ..s1.regs }, ..s1 }
}

/// Increment an 8-bit destination in place.
pub open spec fn spec_inc(s: CpuV, dst: OpsTarget8) -> CpuV {
    let (a, s1) = spec_read_opst8(s, dst);
    let (value, flags) = spec_alu_inc8(a, s.flags);
    let s2 = spec_write_opst8(s1, dst, value);
    CpuV { flags, ..s2 }
}

/// Decrement an 8-bit destination in place.
pub open spec fn spec_dec(s: CpuV, dst: OpsTarget8) -> CpuV {
    let (a, s1) = spec_read_opst8(s, dst);
    let (value, flags) = spec_alu_dec8(a, s.flags);
    let s2 = spec_write_opst8(s1, dst, value);
    CpuV { flags, ..s2 }
}

/// Increment a 16-bit destination in place.
pub open spec fn spec_inc16(s: CpuV, dst: OpsTarget16) -> (Result<(), CpuError>, CpuV) {
    let (r1, s1) = spec_read_opst16(s, dst);
    match r1 {
        Err(e) => (Err(e), s1),
        Ok(a) => {
            let (value, flags) = spec_alu_inc16(a, s.flags);
            let (r2, s2) = spec_write_opst16(s1, dst, value);
            match r2 {
                Err(e) => (Err(e), s2),
                Ok(u) => (Ok(()), CpuV { flags, ..s2 }),
            }
        }
    }
}

/// Decrement a 16-bit destination in place.
pub open spec fn spec_dec16(s: CpuV, dst: OpsTarget16) -> (Result<(), CpuError>, CpuV) {
    let (r1, s1) = spec_read_opst16(s, dst);
    match r1 {
        Err(e) => (Err(e), s1),
        Ok(a) => {
            let (value, flags) = spec_alu_dec16(a, s.flags);
            let (r2, s2) = spec_write_opst16(s1, dst, value);
            match r2 {
                Err(e) => (Err(e), s2),
                Ok(u) => (Ok(()), CpuV { flags, ..s2 }),
            }
        }
    }
}

/// Rotate the accumulator left.
pub open spec fn spec_rotate_left_a(s: CpuV, carry: bool) -> CpuV {
    let (value, flags) = spec_alu_rotate_left(s.regs.a, carry, s.flags);
    CpuV { regs: Registers { a: value, ..s.regs }, flags, ..s }
}

/// Rotate the accumulator right.
pub open spec fn spec_rotate_right_a(s: CpuV, carry: bool) -> CpuV {
    let (value, flags) = spec_alu_rotate_right(s.regs.a, carry, s.flags);
    CpuV { regs: Registers { a: value, ..s.regs }, flags, ..s }
}

/// Copy an 8-bit operand into another.
pub open spec fn spec_load(s: CpuV, dst: OpsTarget8, src: OpsTarget8) -> CpuV {
    let (value, s1) = spec_read_opst8(s, src);
    spec_write_opst8(s1, dst, value)
}

/// Copy a 16-bit operand into another.
pub open spec fn spec_load16(s: CpuV, dst: OpsTarget16, src: OpsTarget16) -> (
    Result<(), CpuError>,
    CpuV,
) {
    let (r1, s1) = spec_read_opst16(s, src);
    match r1 {
        Err(e) => (Err(e), s1),
        Ok(value) => spec_write_opst16(s1, dst, value),
    }
}

/// Store an operand's byte into the high page at 0xFF00 plus the
/// destination operand's value.
pub open spec fn spec_load_dst_addr(s: CpuV, dst: OpsTarget8, src: OpsTarget8) -> CpuV {
    let (d, s1) = spec_read_opst8(s, dst);
    let addr = (0xFF00 + d) as u16;
    let (value, s2) = spec_read_opst8(s1, src);
    CpuV { mem: spec_write8(s2.mem, addr, value), ..s2 }
}

/// Load the byte in the high page at 0xFF00 plus the source operand's value.
pub open spec fn spec_load_src_addr(s: CpuV, dst: OpsTarget8, src: OpsTarget8) -> CpuV {
    let (sv, s1) = spec_read_opst8(s, src);
    let addr = (0xFF00 + sv) as u16;
    let value = spec_read8(s1.mem, addr);
    spec_write_opst8(s1, dst, value)
}

/// Store the stack pointer plus the inline byte into HL (wrapping).
pub open spec fn spec_load_sp_add_imm8_to_hl(s: CpuV) -> CpuV {
    let (b, s1) = spec_read_pcaddr8(s);
    let value = spec_wadd16(s.regs.sp, b as u16);
    CpuV { regs: s1.regs.spec_hl_w(value), ..s1 }
}

/// Push: decrement the stack pointer by two, then store the pair view's
/// 16-bit value little-endian at the new pointer.
pub open spec fn spec_push(s: CpuV, reg16: Register16) -> (Result<(), CpuError>, CpuV) {
    let (value, regs1) = s.regs.spec_read_reg16(reg16);
    let sp_new = spec_wsub16(regs1.sp, 2);
    if sp_new == 0xFFFF {
        (Err(CpuError::AddressOutOfRange(0xFFFF)), CpuV { regs: regs1, ..s })
    } else {
        (
            Ok(()),
            CpuV {
                regs: Registers { sp: sp_new, ..regs1 },
                mem: spec_write16(s.mem, sp_new, value),
                ..s
            },
        )
    }
}

/// Pop: read 16 bits at the stack pointer, then increment it by two and
/// store the value through the pair view.
pub open spec fn spec_pop(s: CpuV, reg16: Register16) -> (Result<(), CpuError>, CpuV) {
    if s.regs.sp == 0xFFFF {
        (Err(CpuError::AddressOutOfRange(0xFFFF)), s)
    } else {
        let value = spec_read16(s.mem, s.regs.sp);
        let regs1 = Registers { sp: spec_wadd16(s.regs.sp, 2), ..s.regs };
        (Ok(()), CpuV { regs: regs1.spec_write_reg16(reg16, value), ..s })
    }
}

/// Jump to the inline 16-bit target.
pub open spec fn spec_jump(s: CpuV) -> (Result<(), CpuError>, CpuV) {
    let (r, s1) = spec_read_pcaddr16(s);
    match r {
        Err(e) => (Err(e), s1),
        Ok(target) => (Ok(()), CpuV { pc: target, ..s1 }),
    }
}

/// Conditional jump; the not-taken path still skips the two operand bytes.
pub open spec fn spec_jump_if(s: CpuV, flag: Flag) -> (Result<(), CpuError>, CpuV) {
    if s.flags.spec_flag(flag) {
        spec_jump(s)
    } else {
        (Ok(()), CpuV { pc: spec_wadd16(s.pc, 2), ..s })
    }
}

/// Jump to the HL pair's value.
pub open spec fn spec_jump_hl(s: CpuV) -> CpuV {
    CpuV { pc: s.regs.spec_hl(), ..s }
}

/// The displaced program counter of a relative jump: the inline byte
/// reinterpreted as signed, sign-extended, and added modulo 65536.
pub open spec fn spec_sext_add(pc: u16, v: u8) -> u16 {
    let disp: int = if v < 128 {
        v as int
    } else {
        v - 256
    };
    ((pc + disp + 0x10000) % 0x10000) as u16
}

/// Relative jump by the inline signed byte.
pub open spec fn spec_jump_reg(s: CpuV) -> CpuV {
    let (v, s1) = spec_read_pcaddr8(s);
    CpuV { pc: spec_sext_add(s1.pc, v), ..s1 }
}

/// Conditional relative jump; the not-taken path skips the operand byte.
pub open spec fn spec_jump_reg_if(s: CpuV, flag: Flag) -> CpuV {
    if s.flags.spec_flag(flag) {
        spec_jump_reg(s)
    } else {
        CpuV { pc: spec_wadd16(s.pc, 1), ..s }
    }
}

/// Call: push the address of the instruction after the two operand bytes,
/// then jump to the inline target (read after the push took effect).
pub open spec fn spec_call(s: CpuV) -> (Result<(), CpuError>, CpuV) {
    let sp_new = spec_wsub16(s.regs.sp, 2);
    if sp_new == 0xFFFF {
        (Err(CpuError::AddressOutOfRange(0xFFFF)), s)
    } else {
        let s1 = CpuV {
            regs: Registers { sp: sp_new, ..s.regs },
            mem: spec_write16(s.mem, sp_new, spec_wadd16(s.pc, 2)),
            ..s
        };
        if s1.pc == 0xFFFF {
            (Err(CpuError::AddressOutOfRange(0xFFFF)), s1)
        } else {
            (Ok(()), CpuV { pc: spec_read16(s1.mem, s1.pc), ..s1 })
        }
    }
}

/// Conditional call; the not-taken path skips the two operand bytes.
pub open spec fn spec_call_if(s: CpuV, flag: Flag) -> (Result<(), CpuError>, CpuV) {
    if s.flags.spec_flag(flag) {
        spec_call(s)
    } else {
        (Ok(()), CpuV { pc: spec_wadd16(s.pc, 2), ..s })
    }
}

/// Return: pop the stored address back into the program counter.
pub open spec fn spec_ret(s: CpuV) -> (Result<(), CpuError>, CpuV) {
    if s.regs.sp == 0xFFFF {
        (Err(CpuError::AddressOutOfRange(0xFFFF)), s)
    } else {
        (
            Ok(()),
            CpuV {
                pc: spec_read16(s.mem, s.regs.sp),
                regs: Registers { sp: spec_wadd16(s.regs.sp, 2), ..s.regs },
                ..s
            },
        )
    }
}

/// Conditional return; the not-taken path changes nothing (the instruction
/// has no inline operand to skip).
pub open spec fn spec_ret_if(s: CpuV, flag: Flag) -> (Result<(), CpuError>, CpuV) {
    if s.flags.spec_flag(flag) {
        spec_ret(s)
    } else {
        (Ok(()), s)
    }
}

/// Interrupt return: modeled as leaving the whole state (flags included)
/// untouched; interrupt dispatch is not modeled by this core.
pub open spec fn spec_ret_interrupt(s: CpuV) -> CpuV {
    s
}

/// Restart: jump to the fixed target; flags and stack are left untouched.
pub open spec fn spec_restart(s: CpuV, addr: u16) -> CpuV {
    CpuV { pc: addr, ..s }
}

/// Set the carry flag; the other flags keep their values.
pub open spec fn spec_set_carry_flag(s: CpuV) -> CpuV {
    CpuV { flags: Flags { c: true, ..s.flags }, ..s }
}

/// Complement the carry flag; the other flags keep their values.
pub open spec fn spec_complement_carry_flag(s: CpuV) -> CpuV {
    CpuV { flags: Flags { c: !s.flags.c, ..s.flags }, ..s }
}

/// Bit test: the zero flag reports the named bit clear; half-carry is set,
/// subtract cleared, carry untouched, and the operand is not written.
pub open spec fn spec_bit_test(s: CpuV, src: OpsTarget8, bit: u8) -> CpuV {
    let (a, s1) = spec_read_opst8(s, src);
    CpuV { flags: Flags { z: !spec_bit_of(a, bit), n: false, h: true, c: s1.flags.c }, ..s1 }
}

/// Bit set: write the operand back with the named bit set; flags untouched.
pub open spec fn spec_bit_set(s: CpuV, dst: OpsTarget8, bit: u8) -> CpuV {
    let (a, s1) = spec_read_opst8(s, dst);
    spec_write_opst8(s1, dst, spec_set_bit(a, bit))
}

/// Execute one extended-table instruction: bit test and bit set are wired;
/// every other variant signals an unimplemented-instruction failure and
/// leaves the state unchanged.
pub open spec fn spec_exec_bit_instruction(s: CpuV, bi: BitInstruction) -> (
    Result<(), CpuError>,
    CpuV,
) {
    match bi {
        BitInstruction::BitTest { src, bit } => (Ok(()), spec_bit_test(s, src, bit)),
        BitInstruction::BitSet { dst, bit } => (Ok(()), spec_bit_set(s, dst, bit)),
        _ => (Err(CpuError::UnimplementedBitInstruction(bi)), s),
    }
}

/// Execute one decoded instruction against the state (the program counter
/// already sits past the opcode byte). The pair gives the typed outcome and
/// the state afterwards; failed steps leave the state exactly as the partial
/// accesses up to the failing one had it.
pub open spec fn spec_exec_instruction(s: CpuV, i: Instruction) -> (Result<(), CpuError>, CpuV) {
    match i {
        Instruction::Noop => (Ok(()), s),
        Instruction::Stop => (Ok(()), s),
        Instruction::Halt => (Ok(()), s),
        Instruction::AddA { src, carry } => (Ok(()), spec_add_a(s, src, carry)),
        Instruction::AddHl { src } => (Ok(()), spec_add_hl(s, src)),
        Instruction::AddSpAddr8ToSp => (Ok(()), spec_add_sp_imm8(s)),
        Instruction::SubA { src, carry } => (Ok(()), spec_sub_a(s, src, carry)),
        Instruction::AndA { src } => (Ok(()), spec_and_a(s, src)),
        Instruction::XorA { src } => (Ok(()), spec_xor_a(s, src)),
        Instruction::OrA { src } => (Ok(()), spec_or_a(s, src)),
        Instruction::CompareA { src } => (Ok(()), spec_compare_a(s, src)),
        Instruction::Inc { dst } => (Ok(()), spec_inc(s, dst)),
        Instruction::Inc16 { dst } => spec_inc16(s, dst),
        Instruction::Dec { dst } => (Ok(()), spec_dec(s, dst)),
        Instruction::Dec16 { dst } => spec_dec16(s, dst),
        Instruction::RotateLeftA { carry } => (Ok(()), spec_rotate_left_a(s, carry)),
        Instruction::RotateRightA { carry } => (Ok(()), spec_rotate_right_a(s, carry)),
        Instruction::Load { dst, src } => (Ok(()), spec_load(s, dst, src)),
        Instruction::Load16 { dst, src } => spec_load16(s, dst, src),
        Instruction::LoadDstAddr { dst, src } => (Ok(()), spec_load_dst_addr(s, dst, src)),
        Instruction::LoadSrcAddr { dst, src } => (Ok(()), spec_load_src_addr(s, dst, src)),
        Instruction::LoadSpAddSpAddr8ToHl => (Ok(()), spec_load_sp_add_imm8_to_hl(s)),
        Instruction::Push { reg16 } => spec_push(s, reg16),
        Instruction::Pop { reg16 } => spec_pop(s, reg16),
        Instruction::Jump => spec_jump(s),
        Instruction::JumpIf { flag } => spec_jump_if(s, flag),
        Instruction::JumpHL => (Ok(()), spec_jump_hl(s)),
        Instruction::JumpReg => (Ok(()), spec_jump_reg(s)),
        Instruction::JumpRegIf { flag } => (Ok(()), spec_jump_reg_if(s, flag)),
        Instruction::Call => spec_call(s),
        Instruction::CallIf { flag } => spec_call_if(s, flag),
        Instruction::Return => spec_ret(s),
        Instruction::ReturnIf { flag } => spec_ret_if(s, flag),
        Instruction::ReturnInterrupt => (Ok(()), spec_ret_interrupt(s)),
        Instruction::Restart { addr } => (Ok(()), spec_restart(s, addr)),
        Instruction::DecimalAdjustA => (Err(CpuError::UnimplementedInstruction(i)), s),
        Instruction::ComplementA => (Err(CpuError::UnimplementedInstruction(i)), s),
        Instruction::SetCarryFlag => (Ok(()), spec_set_carry_flag(s)),
        Instruction::ComplementCarryFlag => (Ok(()), spec_complement_carry_flag(s)),
        Instruction::SetInterrupts { enable } => (Err(CpuError::UnimplementedInstruction(i)), s),
        Instruction::NestedInstruction => {
            let (op, s1) = spec_read_pcaddr8(s);
            spec_exec_bit_instruction(s1, spec_decode_bit(op))
        }
    }
}

/// The scanline index after advancing by one, wrapping to zero past the
/// maximum.
pub open spec fn spec_bump_scanline(v: u8) -> u8 {
    if v > MAX_SCANLINE {
        0
    } else {
        (v + 1) as u8
    }
}

/// Accumulate one instruction's cycle cost; on reaching the scanline budget
/// the accumulator resets and the memory-mapped scanline byte advances.
pub open spec fn spec_accumulate_cycles(s: CpuV, cost: u8) -> CpuV {
    if s.cycles + cost >= CYCLES_PER_SCANLINE {
        CpuV {
            cycles: 0,
            mem: spec_write8(
                s.mem,
                SCANLINE_ADDR,
                spec_bump_scanline(spec_read8(s.mem, SCANLINE_ADDR)),
            ),
            ..s
        }
    } else {
        CpuV { cycles: (s.cycles + cost) as u16, ..s }
    }
}

/// Account for one executed instruction: its cost is read off the opcode
/// byte and the flag state left by the execution.
pub open spec fn spec_update_cycles(s: CpuV, i: Instruction, op: u8) -> CpuV {
    spec_accumulate_cycles(s, spec_cycles(i, op, s.flags))
}

/// Law: executing any accumulator-targeting arithmetic/logic instruction
/// leaves the zero flag set exactly when the accumulator came out zero.
pub proof fn lemma_accumulator_zero_flag(s: CpuV, i: Instruction)
    requires
        (i is AddA) || (i is SubA) || (i is AndA) || (i is XorA) || (i is OrA),
    ensures
        ({
            let (r, s2) = spec_exec_instruction(s, i);
            s2.flags.z == (s2.regs.a == 0)
        }),
{
}

/// Wrapping a 16-bit value down by two and back up by two gives it back.
pub proof fn lemma_wsub2_wadd2(v: u16)
    ensures
        spec_wadd16(spec_wsub16(v, 2), 2) == v,
{
    if v >= 2 {
        assert(spec_wsub16(v, 2) == v - 2);
    } else {
        assert(spec_wsub16(v, 2) == v + 0xFFFE);
    }
}

/// A 16-bit read at the address of a 16-bit write gives the written value.
pub proof fn lemma_read16_of_write16(mem: Seq<u8>, addr: u16, value: u16)
    requires
        mem.len() == MEMORY_SIZE,
        addr < 0xFFFF,
    ensures
        spec_read16(spec_write16(mem, addr, value), addr) == value,
{
    crate::registers::lemma_combine_split(value);
}

/// Law: a push followed by a pop of the same plain pair view returns the
/// original value and restores the register file (the stack pointer
/// included); flags, program counter and cycle accumulator are untouched.
/// The two HL views with access side effects are excluded, as is the one
/// stack pointer value whose push would write past the address space.
pub proof fn lemma_push_pop_round_trip(s: CpuV, reg16: Register16)
    requires
        s.wf(),
        s.regs.sp != 1,
        !(reg16 is HLI),
        !(reg16 is HLD),
    ensures
        ({
            let (r1, s1) = spec_push(s, reg16);
            let (r2, s2) = spec_pop(s1, reg16);
            &&& r1 is Ok
            &&& r2 is Ok
            &&& s2.regs == s.regs
            &&& s2.flags == s.flags
            &&& s2.pc == s.pc
            &&& s2.cycles == s.cycles
        }),
{
    let (value, regs1) = s.regs.spec_read_reg16(reg16);
    let sp_new = spec_wsub16(regs1.sp, 2);
    assert(regs1 == s.regs);
    assert(sp_new != 0xFFFF);
    let (r1, s1) = spec_push(s, reg16);
    lemma_read16_of_write16(s.mem, sp_new, value);
    lemma_wsub2_wadd2(s.regs.sp);
    let (r2, s2) = spec_pop(s1, reg16);
    crate::registers::lemma_split_combine(s.regs.a, s.regs.f);
    crate::registers::lemma_split_combine(s.regs.b, s.regs.c);
    crate::registers::lemma_split_combine(s.regs.d, s.regs.e);
    crate::registers::lemma_split_combine(s.regs.h, s.regs.l);
}

/// Law: a call followed immediately by a return leaves the program counter
/// at the position just past the call's two operand bytes, with the stack
/// pointer, register file, flags and cycle accumulator restored.
pub proof fn lemma_call_return_round_trip(s: CpuV)
    requires
        s.wf(),
        s.pc != 0xFFFF,
        s.regs.sp != 1,
    ensures
        ({
            let (r1, s1) = spec_call(s);
            let (r2, s2) = spec_ret(s1);
            &&& r1 is Ok
            &&& r2 is Ok
            &&& s2.pc == spec_wadd16(s.pc, 2)
            &&& s2.regs == s.regs
            &&& s2.flags == s.flags
            &&& s2.cycles == s.cycles
        }),
{
    let sp_new = spec_wsub16(s.regs.sp, 2);
    assert(sp_new != 0xFFFF);
    lemma_read16_of_write16(s.mem, sp_new, spec_wadd16(s.pc, 2));
    lemma_wsub2_wadd2(s.regs.sp);
}

/// The sum of a run of declared cycle costs.
pub open spec fn spec_sum_costs(costs: Seq<u8>) -> int
    decreases costs.len(),
{
    if costs.len() == 0 {
        0
    } else {
        costs[0] + spec_sum_costs(costs.drop_first())
    }
}

/// Accumulate a run of cycle costs, one instruction at a time.
pub open spec fn spec_accumulate_all(s: CpuV, costs: Seq<u8>) -> CpuV
    decreases costs.len(),
{
    if costs.len() == 0 {
        s
    } else {
        spec_accumulate_all(spec_accumulate_cycles(s, costs[0]), costs.drop_first())
    }
}

/// A run of positive costs sums to at least its length.
pub proof fn lemma_sum_costs_at_least_len(costs: Seq<u8>)
    requires
        forall|i: int| 0 <= i < costs.len() ==> costs[i] > 0,
    ensures
        spec_sum_costs(costs) >= costs.len(),
    decreases costs.len(),
{
    if costs.len() > 0 {
        let rest = costs.drop_first();
        assert(forall|i: int| 0 <= i < rest.len() ==> rest[i] > 0);
        lemma_sum_costs_at_least_len(rest);
    }
}

/// Law: accumulating a run of instructions whose positive declared costs sum
/// to exactly the remaining scanline budget resets the cycle counter to zero
/// and advances the memory-mapped scanline byte by exactly one step (to
/// zero past the maximum index); nothing else of the state changes.
pub proof fn lemma_timing_accumulation(s: CpuV, costs: Seq<u8>)
    requires
        s.wf(),
        costs.len() > 0,
        forall|i: int| 0 <= i < costs.len() ==> costs[i] > 0,
        s.cycles + spec_sum_costs(costs) == CYCLES_PER_SCANLINE,
    ensures
        ({
            let s2 = spec_accumulate_all(s, costs);
            &&& s2.cycles == 0
            &&& s2.mem == spec_write8(
                s.mem,
                SCANLINE_ADDR,
                spec_bump_scanline(spec_read8(s.mem, SCANLINE_ADDR)),
            )
            &&& s2.regs == s.regs
            &&& s2.flags == s.flags
            &&& s2.pc == s.pc
        }),
    decreases costs.len(),
{
    let c0 = costs[0];
    let rest = costs.drop_first();
    assert(forall|i: int| 0 <= i < rest.len() ==> rest[i] > 0);
    if costs.len() == 1 {
        assert(spec_sum_costs(rest) == 0);
        assert(s.cycles + c0 == CYCLES_PER_SCANLINE);
        assert(spec_accumulate_all(spec_accumulate_cycles(s, c0), rest)
            == spec_accumulate_cycles(s, c0));
    } else {
        lemma_sum_costs_at_least_len(rest);
        let s1 = spec_accumulate_cycles(s, c0);
        assert(s.cycles + c0 < CYCLES_PER_SCANLINE);
        assert(s1.cycles == s.cycles + c0 && s1.mem == s.mem);
        lemma_timing_accumulation(s1, rest);
    }
}

/// One full step: fetch the opcode at the program counter, decode it,
/// execute it, and account its cycles. A decode failure surfaces after the
/// fetch advanced the counter; an execute failure skips the accounting.
pub open spec fn spec_step(s: CpuV) -> (Result<(), CpuError>, CpuV) {
    let (op, s1) = spec_read_pcaddr8(s);
    match spec_decode(op) {
        Err(e) => (Err(e), s1),
        Ok(i) => {
            let (r, s2) = spec_exec_instruction(s1, i);
            match r {
                Err(e) => (Err(e), s2),
                Ok(u) => (Ok(()), spec_update_cycles(s2, i, op)),
            }
        }
    }
}

} // verus!
