//! Tests of the register file (pair views and their side effects), the flag
//! register, the memory surface, and the cycle table.

use rgbc::cpu::Cpu;
use rgbc::flags::{Flag, Flags};
use rgbc::instructions::{Instruction, Opcode, OpsTarget8};
use rgbc::memory::Memory;
use rgbc::registers::{Register16, Register8, Registers};
use rgbc::rom::Rom;

#[test]
fn pair_views_combine_high_byte_first() {
    let mut regs = Registers::new();
    regs.af_w(0x1234);
    assert_eq!(regs.a, 0x12);
    assert_eq!(regs.f, 0x34);
    assert_eq!(regs.af(), 0x1234);

    regs.bc_w(0xABCD);
    assert_eq!((regs.b, regs.c), (0xAB, 0xCD));
    assert_eq!(regs.bc(), 0xABCD);

    regs.de_w(0x00FF);
    assert_eq!((regs.d, regs.e), (0x00, 0xFF));
    assert_eq!(regs.de(), 0x00FF);

    regs.hl_w(0xFF00);
    assert_eq!((regs.h, regs.l), (0xFF, 0x00));
    assert_eq!(regs.hl(), 0xFF00);
}

#[test]
fn reading_the_post_increment_view_twice_gives_consecutive_addresses() {
    let mut regs = Registers::new();
    regs.hl_w(0x8FFF);
    let first = regs.read_reg16(&Register16::HLI);
    let second = regs.read_reg16(&Register16::HLI);
    assert_eq!(first, 0x8FFF);
    assert_eq!(second, 0x9000);
    assert_eq!(regs.hl(), 0x9001);
}

#[test]
fn post_increment_wraps_at_the_top() {
    let mut regs = Registers::new();
    regs.hl_w(0xFFFF);
    let v = regs.read_reg16(&Register16::HLI);
    assert_eq!(v, 0xFFFF);
    assert_eq!(regs.hl(), 0x0000);
}

#[test]
fn post_decrement_view_steps_down() {
    let mut regs = Registers::new();
    regs.hl_w(0x0000);
    let v = regs.read_reg16(&Register16::HLD);
    assert_eq!(v, 0x0000);
    assert_eq!(regs.hl(), 0xFFFF);
}

#[test]
fn write_through_moved_views_stores_one_past() {
    let mut regs = Registers::new();
    regs.write_reg16(&Register16::HLI, 0x1000);
    assert_eq!(regs.hl(), 0x1001);
    regs.write_reg16(&Register16::HLD, 0x1000);
    assert_eq!(regs.hl(), 0x0FFF);
}

#[test]
fn read_write_reg8_touch_only_the_named_cell() {
    let mut regs = Registers::new();
    regs.write_reg8(&Register8::D, 0x77);
    assert_eq!(regs.read_reg8(&Register8::D), 0x77);
    assert_eq!(regs.read_reg8(&Register8::E), 0x00);
    regs.write_reg8(&Register8::F, 0x0F);
    assert_eq!(regs.read_reg8(&Register8::F), 0x0F);
    assert_eq!(regs.read_reg8(&Register8::A), 0x00);
}

#[test]
fn read_write_reg16_cover_sp_and_pairs() {
    let mut regs = Registers::new();
    regs.write_reg16(&Register16::SP, 0xBEEF);
    assert_eq!(regs.sp, 0xBEEF);
    assert_eq!(regs.read_reg16(&Register16::SP), 0xBEEF);
    regs.write_reg16(&Register16::DE, 0x0102);
    assert_eq!(regs.read_reg16(&Register16::DE), 0x0102);
    regs.write_reg16(&Register16::AF, 0xA5A5);
    assert_eq!(regs.read_reg16(&Register16::AF), 0xA5A5);
}

#[test]
fn branch_conditions_read_the_two_flags() {
    let flags = Flags { z: true, n: false, h: false, c: false };
    assert!(flags.flag(&Flag::Z));
    assert!(!flags.flag(&Flag::NZ));
    assert!(!flags.flag(&Flag::C));
    assert!(flags.flag(&Flag::NC));

    let flags = Flags { z: false, n: true, h: true, c: true };
    assert!(!flags.flag(&Flag::Z));
    assert!(flags.flag(&Flag::NZ));
    assert!(flags.flag(&Flag::C));
    assert!(!flags.flag(&Flag::NC));
}

#[test]
fn memory_byte_and_word_access_round_trip() {
    let mut mem = Memory::new(Rom { data: Vec::new() }, None);
    mem.write_addr8(0x1234, 0x9A);
    assert_eq!(mem.read_addr8(0x1234), 0x9A);

    mem.write_addr16(0x2000, 0xCAFE);
    assert_eq!(mem.read_addr8(0x2000), 0xFE);
    assert_eq!(mem.read_addr8(0x2001), 0xCA);
    assert_eq!(mem.read_addr16(0x2000), 0xCAFE);
}

#[test]
fn boot_image_overlays_the_low_region_only() {
    let boot = vec![0x11u8; 0x200];
    let cart = vec![0x22u8; 0x400];
    let mem = Memory::new(Rom { data: boot }, Some(Rom { data: cart }));
    // The boot image is truncated to the low region.
    assert_eq!(mem.read_addr8(0x0000), 0x11);
    assert_eq!(mem.read_addr8(0x00FE), 0x11);
    // Past the boot region the cartridge image shows through.
    assert_eq!(mem.read_addr8(0x00FF), 0x22);
    assert_eq!(mem.read_addr8(0x03FF), 0x22);
    // Past both images, memory is zero.
    assert_eq!(mem.read_addr8(0x0400), 0x00);
    assert_eq!(mem.read_addr8(0xFFFF), 0x00);
}

#[test]
fn oversized_cartridge_image_is_truncated_silently() {
    let mut cart = vec![0x33u8; 0x10000 + 0x100];
    cart[0xFFFF] = 0x44;
    let mem = Memory::new(Rom { data: Vec::new() }, Some(Rom { data: cart }));
    assert_eq!(mem.read_addr8(0xFFFF), 0x44);
    assert_eq!(mem.read_addr8(0x8000), 0x33);
}

#[test]
fn fresh_core_starts_cleared() {
    let cpu = Cpu::new(Memory::new(Rom { data: Vec::new() }, None));
    assert_eq!(cpu.regs.a, 0);
    assert_eq!(cpu.regs.sp, 0);
    assert_eq!(cpu.pc.value, 0);
    assert_eq!(cpu.cycles, 0);
    assert!(!cpu.flags.z && !cpu.flags.n && !cpu.flags.h && !cpu.flags.c);
}

#[test]
fn cycle_costs_depend_on_the_opcode_byte() {
    let flags = Flags { z: false, n: false, h: false, c: false };
    // Register-operand add: 4 cycles; memory-operand add at column 6: 8.
    let add_b = Instruction::AddA { src: OpsTarget8::R8(Register8::B), carry: false };
    assert_eq!(add_b.cycles(&Opcode { value: 0x80 }, &flags), 4);
    let add_hl = Instruction::AddA { src: OpsTarget8::R16Addr8(Register16::HL), carry: false };
    assert_eq!(add_hl.cycles(&Opcode { value: 0x86 }, &flags), 8);

    // Increment through memory costs 12, through a register 4.
    let inc_mem = Instruction::Inc { dst: OpsTarget8::R16Addr8(Register16::HL) };
    assert_eq!(inc_mem.cycles(&Opcode { value: 0x34 }, &flags), 12);
    let inc_b = Instruction::Inc { dst: OpsTarget8::R8(Register8::B) };
    assert_eq!(inc_b.cycles(&Opcode { value: 0x04 }, &flags), 4);

    assert_eq!(Instruction::Noop.cycles(&Opcode { value: 0x00 }, &flags), 4);
    assert_eq!(Instruction::Call.cycles(&Opcode { value: 0xCD }, &flags), 24);
    assert_eq!(
        Instruction::Push { reg16: Register16::BC }.cycles(&Opcode { value: 0xC5 }, &flags),
        16
    );
}

#[test]
fn conditional_cycle_costs_depend_on_the_deciding_flag() {
    let taken = Flags { z: true, n: false, h: false, c: false };
    let not_taken = Flags { z: false, n: false, h: false, c: false };

    let jp_z = Instruction::JumpIf { flag: Flag::Z };
    assert_eq!(jp_z.cycles(&Opcode { value: 0xCA }, &taken), 16);
    assert_eq!(jp_z.cycles(&Opcode { value: 0xCA }, &not_taken), 12);

    let jr_z = Instruction::JumpRegIf { flag: Flag::Z };
    assert_eq!(jr_z.cycles(&Opcode { value: 0x28 }, &taken), 12);
    assert_eq!(jr_z.cycles(&Opcode { value: 0x28 }, &not_taken), 8);

    let call_z = Instruction::CallIf { flag: Flag::Z };
    assert_eq!(call_z.cycles(&Opcode { value: 0xCC }, &taken), 24);
    assert_eq!(call_z.cycles(&Opcode { value: 0xCC }, &not_taken), 12);

    let ret_z = Instruction::ReturnIf { flag: Flag::Z };
    assert_eq!(ret_z.cycles(&Opcode { value: 0xC8 }, &taken), 20);
    assert_eq!(ret_z.cycles(&Opcode { value: 0xC8 }, &not_taken), 8);
}

#[test]
fn load_cycle_costs_follow_row_and_column() {
    let flags = Flags { z: false, n: false, h: false, c: false };
    // Register-to-register load: 4 cycles.
    let ld = Instruction::Load {
        dst: OpsTarget8::R8(Register8::C),
        src: OpsTarget8::R8(Register8::B),
    };
    assert_eq!(ld.cycles(&Opcode { value: 0x48 }, &flags), 4);
    // Store through a pair address in the low rows: 8 cycles.
    let ld_bc = Instruction::Load {
        dst: OpsTarget8::R16Addr8(Register16::BC),
        src: OpsTarget8::R8(Register8::A),
    };
    assert_eq!(ld_bc.cycles(&Opcode { value: 0x02 }, &flags), 8);
    // The whole store-through-HL row costs 8.
    let ld_hl = Instruction::Load {
        dst: OpsTarget8::R16Addr8(Register16::HL),
        src: OpsTarget8::R8(Register8::B),
    };
    assert_eq!(ld_hl.cycles(&Opcode { value: 0x70 }, &flags), 8);
}
