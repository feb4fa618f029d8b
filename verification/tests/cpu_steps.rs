//! Scenario tests driving whole fetch-decode-execute-account steps.

use rgbc::cpu::Cpu;
use rgbc::instructions::{BitInstruction, CpuError, Instruction, OpsTarget8};
use rgbc::memory::Memory;
use rgbc::registers::Register8;
use rgbc::rom::Rom;

/// A core booted from the given image (copied into the low region).
fn boot(image: &[u8]) -> Cpu {
    let mem = Memory::new(Rom { data: image.to_vec() }, None);
    Cpu::new(mem)
}

/// A core whose whole 64 KiB memory is the given image.
fn boot_full(image: Vec<u8>) -> Cpu {
    let mem = Memory::new(Rom { data: Vec::new() }, Some(Rom { data: image }));
    Cpu::new(mem)
}

#[test]
fn end_to_end_add_register_into_accumulator() {
    // Load 5 into A, load 3 into B, add B into A, no-op.
    let mut cpu = boot(&[0x3E, 0x05, 0x06, 0x03, 0x80, 0x00]);
    for _ in 0..4 {
        cpu.step().unwrap();
    }
    assert_eq!(cpu.regs.a, 8);
    assert!(!cpu.flags.z);
    assert!(!cpu.flags.c);
    assert!(!cpu.flags.h);
}

#[test]
fn half_carry_set_by_nibble_overflow() {
    // A = 0x0F; ADD A, 0x01.
    let mut cpu = boot(&[0x3E, 0x0F, 0xC6, 0x01]);
    cpu.step().unwrap();
    cpu.step().unwrap();
    assert_eq!(cpu.regs.a, 0x10);
    assert!(cpu.flags.h);
    assert!(!cpu.flags.c);
    assert!(!cpu.flags.z);
}

#[test]
fn full_and_half_carry_on_wraparound_add() {
    // A = 0xFF; ADD A, 0x01.
    let mut cpu = boot(&[0x3E, 0xFF, 0xC6, 0x01]);
    cpu.step().unwrap();
    cpu.step().unwrap();
    assert_eq!(cpu.regs.a, 0x00);
    assert!(cpu.flags.z);
    assert!(cpu.flags.c);
    assert!(cpu.flags.h);
}

#[test]
fn subtract_with_carry_borrows_through() {
    // A = 0x00; set carry; SBC A, 0x00 gives 0xFF with carry and half-carry.
    let mut cpu = boot(&[0x3E, 0x00, 0x37, 0xDE, 0x00]);
    cpu.step().unwrap();
    cpu.step().unwrap();
    cpu.step().unwrap();
    assert_eq!(cpu.regs.a, 0xFF);
    assert!(cpu.flags.c);
    assert!(cpu.flags.h);
    assert!(cpu.flags.n);
    assert!(!cpu.flags.z);
}

#[test]
fn zero_flag_tracks_result_per_family() {
    // SUB of equal values: zero set.
    let mut cpu = boot(&[0x3E, 0x42, 0xD6, 0x42]);
    cpu.step().unwrap();
    cpu.step().unwrap();
    assert_eq!(cpu.regs.a, 0);
    assert!(cpu.flags.z);

    // XOR A with itself: zero set.
    let mut cpu = boot(&[0x3E, 0x37, 0xAF]);
    cpu.step().unwrap();
    cpu.step().unwrap();
    assert_eq!(cpu.regs.a, 0);
    assert!(cpu.flags.z);

    // AND with a disjoint mask: zero set; with an overlapping one: clear.
    let mut cpu = boot(&[0x3E, 0xF0, 0xE6, 0x0F, 0x3E, 0xF0, 0xE6, 0x30]);
    cpu.step().unwrap();
    cpu.step().unwrap();
    assert!(cpu.flags.z);
    cpu.step().unwrap();
    cpu.step().unwrap();
    assert_eq!(cpu.regs.a, 0x30);
    assert!(!cpu.flags.z);

    // OR of two zeros: zero set.
    let mut cpu = boot(&[0x3E, 0x00, 0xF6, 0x00]);
    cpu.step().unwrap();
    cpu.step().unwrap();
    assert!(cpu.flags.z);

    // INC wrapping 0xFF to 0: zero set, carry untouched.
    let mut cpu = boot(&[0x3E, 0xFF, 0x3C]);
    cpu.step().unwrap();
    cpu.step().unwrap();
    assert_eq!(cpu.regs.a, 0);
    assert!(cpu.flags.z);
    assert!(cpu.flags.h);

    // DEC from 1 to 0: zero set.
    let mut cpu = boot(&[0x3E, 0x01, 0x3D]);
    cpu.step().unwrap();
    cpu.step().unwrap();
    assert_eq!(cpu.regs.a, 0);
    assert!(cpu.flags.z);
    assert!(cpu.flags.n);

    // CP against an equal immediate: zero set, accumulator kept.
    let mut cpu = boot(&[0x3E, 0x7E, 0xFE, 0x7E]);
    cpu.step().unwrap();
    cpu.step().unwrap();
    assert_eq!(cpu.regs.a, 0x7E);
    assert!(cpu.flags.z);
}

#[test]
fn increment_decrement_leave_carry_untouched() {
    // Set carry, then INC A and DEC A; carry must survive both.
    let mut cpu = boot(&[0x37, 0x3C, 0x3D]);
    cpu.step().unwrap();
    assert!(cpu.flags.c);
    cpu.step().unwrap();
    assert!(cpu.flags.c);
    cpu.step().unwrap();
    assert!(cpu.flags.c);
}

#[test]
fn post_increment_and_post_decrement_loads_move_hl() {
    // HL = 0x8000; LD (HL+),A twice leaves HL at 0x8002.
    let mut cpu = boot(&[0x21, 0x00, 0x80, 0x3E, 0xAB, 0x22, 0x22]);
    cpu.step().unwrap();
    cpu.step().unwrap();
    cpu.step().unwrap();
    cpu.step().unwrap();
    assert_eq!(cpu.regs.hl(), 0x8002);
    assert_eq!(cpu.mem.read_addr8(0x8000), 0xAB);
    assert_eq!(cpu.mem.read_addr8(0x8001), 0xAB);

    // HL = 0x8001; LD A,(HL-) reads then steps HL down.
    let mut cpu = boot(&[0x21, 0x01, 0x80, 0x3A]);
    cpu.mem.write_addr8(0x8001, 0x5C);
    cpu.step().unwrap();
    cpu.step().unwrap();
    assert_eq!(cpu.regs.a, 0x5C);
    assert_eq!(cpu.regs.hl(), 0x8000);
}

#[test]
fn push_pop_round_trip_restores_pair_and_stack_pointer() {
    // SP = 0xFFFE; BC = 0x1234; PUSH BC; clear BC; POP BC.
    let mut cpu = boot(&[0x31, 0xFE, 0xFF, 0x01, 0x34, 0x12, 0xC5, 0x01, 0x00, 0x00, 0xC1]);
    for _ in 0..5 {
        cpu.step().unwrap();
    }
    assert_eq!(cpu.regs.bc(), 0x1234);
    assert_eq!(cpu.regs.sp, 0xFFFE);
}

#[test]
fn call_then_return_resumes_after_operands() {
    // SP = 0xFFFE; CALL 0x0010; the target holds RET.
    let mut image = vec![0; 0x40];
    image[0] = 0x31;
    image[1] = 0xFE;
    image[2] = 0xFF;
    image[3] = 0xCD;
    image[4] = 0x10;
    image[5] = 0x00;
    image[0x10] = 0xC9;
    let mut cpu = boot(&image);
    cpu.step().unwrap();
    cpu.step().unwrap();
    assert_eq!(cpu.pc.value, 0x0010);
    cpu.step().unwrap();
    assert_eq!(cpu.pc.value, 0x0006);
    assert_eq!(cpu.regs.sp, 0xFFFE);
}

#[test]
fn conditional_jump_skips_operands_when_not_taken() {
    // Clear zero flag via OR 1, then JP Z,0x0010 must fall through.
    let mut cpu = boot(&[0x3E, 0x01, 0xB7, 0xCA, 0x10, 0x00, 0x00]);
    cpu.step().unwrap();
    cpu.step().unwrap();
    cpu.step().unwrap();
    assert_eq!(cpu.pc.value, 0x0006);

    // With the zero flag set the same jump is taken.
    let mut cpu = boot(&[0x3E, 0x00, 0xB7, 0xCA, 0x10, 0x00]);
    cpu.step().unwrap();
    cpu.step().unwrap();
    cpu.step().unwrap();
    assert_eq!(cpu.pc.value, 0x0010);
}

#[test]
fn relative_jump_sign_extends_displacement() {
    // JR 0x02 from the byte after the operand: 0x0002 + 2 = 0x0004.
    let mut cpu = boot(&[0x18, 0x02]);
    cpu.step().unwrap();
    assert_eq!(cpu.pc.value, 0x0004);

    // JR 0xFE (-2) loops back onto the instruction itself.
    let mut cpu = boot(&[0x00, 0x00, 0x18, 0xFE]);
    cpu.step().unwrap();
    cpu.step().unwrap();
    cpu.step().unwrap();
    assert_eq!(cpu.pc.value, 0x0002);
}

#[test]
fn conditional_relative_jump_skips_one_byte_when_not_taken() {
    // Carry clear: JR C,+5 falls through to the next instruction.
    let mut cpu = boot(&[0x38, 0x05, 0x00]);
    cpu.step().unwrap();
    assert_eq!(cpu.pc.value, 0x0002);
}

#[test]
fn restart_jumps_to_fixed_target() {
    let mut cpu = boot(&[0xEF]);
    cpu.step().unwrap();
    assert_eq!(cpu.pc.value, 0x0028);
}

#[test]
fn jump_hl_loads_pair_into_program_counter() {
    let mut cpu = boot(&[0x21, 0x34, 0x12, 0xE9]);
    cpu.step().unwrap();
    cpu.step().unwrap();
    assert_eq!(cpu.pc.value, 0x1234);
}

#[test]
fn rotate_left_accumulator_doubles_and_reports_flag() {
    // RLA (carry: false variant) with carry clear: 0x80 doubles to 0x00.
    let mut cpu = boot(&[0x3E, 0x80, 0x17]);
    cpu.step().unwrap();
    cpu.step().unwrap();
    assert_eq!(cpu.regs.a, 0x00);
    assert!(!cpu.flags.c);
    assert!(cpu.flags.z);
}

#[test]
fn rotate_right_accumulator_halves() {
    let mut cpu = boot(&[0x3E, 0x07, 0x1F]);
    cpu.step().unwrap();
    cpu.step().unwrap();
    assert_eq!(cpu.regs.a, 0x03);
}

#[test]
fn extended_bit_test_and_bit_set() {
    // BIT 0,A on a clear bit sets the zero flag.
    let mut cpu = boot(&[0x3E, 0x00, 0xCB, 0x47]);
    cpu.step().unwrap();
    cpu.step().unwrap();
    assert!(cpu.flags.z);
    assert!(cpu.flags.h);
    assert!(!cpu.flags.n);

    // SET 3,A turns bit 3 on.
    let mut cpu = boot(&[0x3E, 0x00, 0xCB, 0xDF]);
    cpu.step().unwrap();
    cpu.step().unwrap();
    assert_eq!(cpu.regs.a, 0x08);

    // BIT 7,A on a set bit clears the zero flag.
    let mut cpu = boot(&[0x3E, 0x80, 0xCB, 0x7F]);
    cpu.step().unwrap();
    cpu.step().unwrap();
    assert!(!cpu.flags.z);
}

#[test]
fn scanline_advances_after_exactly_one_budget_of_cycles() {
    // 114 no-ops at 4 cycles each sum to exactly the 456-cycle budget.
    let mut cpu = boot(&[0x00]);
    for _ in 0..114 {
        cpu.step().unwrap();
    }
    assert_eq!(cpu.cycles, 0);
    assert_eq!(cpu.mem.read_addr8(0xFF44), 1);

    // One more no-op starts the next budget without another advance.
    cpu.step().unwrap();
    assert_eq!(cpu.cycles, 4);
    assert_eq!(cpu.mem.read_addr8(0xFF44), 1);
}

#[test]
fn scanline_wraps_to_zero_past_maximum_index() {
    let mut cpu = boot(&[0x00]);
    cpu.mem.write_addr8(0xFF44, 154);
    for _ in 0..114 {
        cpu.step().unwrap();
    }
    assert_eq!(cpu.mem.read_addr8(0xFF44), 0);
}

#[test]
fn unsupported_opcode_is_reported() {
    let mut cpu = boot(&[0xD3]);
    assert_eq!(cpu.step(), Err(CpuError::UnsupportedOpcode(0xD3)));
}

#[test]
fn unimplemented_instructions_are_reported() {
    let mut cpu = boot(&[0x27]);
    assert_eq!(
        cpu.step(),
        Err(CpuError::UnimplementedInstruction(Instruction::DecimalAdjustA))
    );

    let mut cpu = boot(&[0x2F]);
    assert_eq!(
        cpu.step(),
        Err(CpuError::UnimplementedInstruction(Instruction::ComplementA))
    );

    let mut cpu = boot(&[0xF3]);
    assert_eq!(
        cpu.step(),
        Err(CpuError::UnimplementedInstruction(Instruction::SetInterrupts { enable: false }))
    );

    // An extended-table rotate is decoded but has no execution routine.
    let mut cpu = boot(&[0xCB, 0x00]);
    assert_eq!(
        cpu.step(),
        Err(CpuError::UnimplementedBitInstruction(BitInstruction::RotateLeft {
            dst: OpsTarget8::R8(Register8::B),
            carry: true,
        }))
    );
}

#[test]
fn pop_at_top_of_memory_is_out_of_range() {
    // SP = 0xFFFF, then POP BC needs two bytes starting at 0xFFFF.
    let mut cpu = boot(&[0x31, 0xFF, 0xFF, 0xC1]);
    cpu.step().unwrap();
    assert_eq!(cpu.step(), Err(CpuError::AddressOutOfRange(0xFFFF)));
}

#[test]
fn push_just_above_bottom_is_out_of_range() {
    // SP = 1: pushing would write at 0xFFFF.
    let mut cpu = boot(&[0x31, 0x01, 0x00, 0xC5]);
    cpu.step().unwrap();
    assert_eq!(cpu.step(), Err(CpuError::AddressOutOfRange(0xFFFF)));
}

#[test]
fn immediate_fetch_at_top_of_memory_is_out_of_range() {
    // Jump to 0xFFFE where a JP opcode sits; its operand starts at 0xFFFF.
    let mut image = vec![0u8; 0x10000];
    image[0] = 0xC3;
    image[1] = 0xFE;
    image[2] = 0xFF;
    image[0xFFFE] = 0xC3;
    let mut cpu = boot_full(image);
    cpu.step().unwrap();
    assert_eq!(cpu.pc.value, 0xFFFE);
    assert_eq!(cpu.step(), Err(CpuError::AddressOutOfRange(0xFFFF)));
}

#[test]
fn load_high_page_store_and_load_back() {
    // LDH (0x80),A then LDH A,(0x80) round-trips through 0xFF80.
    let mut cpu = boot(&[0x3E, 0x99, 0xE0, 0x80, 0x3E, 0x00, 0xF0, 0x80]);
    cpu.step().unwrap();
    cpu.step().unwrap();
    assert_eq!(cpu.mem.read_addr8(0xFF80), 0x99);
    cpu.step().unwrap();
    cpu.step().unwrap();
    assert_eq!(cpu.regs.a, 0x99);
}

#[test]
fn add_hl_sets_carry_out_of_bit_eleven() {
    // HL = 0x0FFF, BC = 0x0001: ADD HL,BC half-carries out of bit 11.
    let mut cpu = boot(&[0x21, 0xFF, 0x0F, 0x01, 0x01, 0x00, 0x09]);
    cpu.step().unwrap();
    cpu.step().unwrap();
    cpu.step().unwrap();
    assert_eq!(cpu.regs.hl(), 0x1000);
    assert!(cpu.flags.h);
    assert!(!cpu.flags.c);
}

#[test]
fn sixteen_bit_increment_wraps() {
    // BC = 0xFFFF; INC BC wraps to zero (and this core sets zero then).
    let mut cpu = boot(&[0x01, 0xFF, 0xFF, 0x03]);
    cpu.step().unwrap();
    cpu.step().unwrap();
    assert_eq!(cpu.regs.bc(), 0x0000);
    assert!(cpu.flags.z);
}

#[test]
fn halt_and_stop_leave_state_untouched() {
    let mut cpu = boot(&[0x76, 0x10, 0x00]);
    cpu.step().unwrap();
    assert_eq!(cpu.pc.value, 1);
    cpu.step().unwrap();
    assert_eq!(cpu.pc.value, 2);
    assert_eq!(cpu.regs.a, 0);
}

#[test]
fn self_load_opcodes_act_as_noops() {
    // 0x40 is the register-to-register load of B into B: a no-op.
    let mut cpu = boot(&[0x06, 0x11, 0x40]);
    cpu.step().unwrap();
    cpu.step().unwrap();
    assert_eq!(cpu.regs.b, 0x11);
    assert_eq!(cpu.pc.value, 3);
}

#[test]
fn register_to_register_loads_copy() {
    // LD B,0x11; LD C,B; LD A,C.
    let mut cpu = boot(&[0x06, 0x11, 0x48, 0x79]);
    cpu.step().unwrap();
    cpu.step().unwrap();
    cpu.step().unwrap();
    assert_eq!(cpu.regs.c, 0x11);
    assert_eq!(cpu.regs.a, 0x11);
}

#[test]
fn memory_operand_reads_through_hl() {
    // HL = 0x9000 holding 0x2A; ADD A,(HL).
    let mut cpu = boot(&[0x21, 0x00, 0x90, 0x86]);
    cpu.mem.write_addr8(0x9000, 0x2A);
    cpu.step().unwrap();
    cpu.step().unwrap();
    assert_eq!(cpu.regs.a, 0x2A);
}

#[test]
fn interrupt_return_preserves_flags_and_stack() {
    // Set carry first; RETI is modeled as a pure no-op, flags kept.
    let mut cpu = boot(&[0x37, 0xD9]);
    cpu.step().unwrap();
    let sp_before = cpu.regs.sp;
    cpu.step().unwrap();
    assert!(cpu.flags.c);
    assert_eq!(cpu.regs.sp, sp_before);
    assert_eq!(cpu.pc.value, 2);
}

#[test]
fn restart_preserves_flags_and_stack() {
    // Set carry first; RST 0x18 jumps without touching flags or the stack.
    let mut cpu = boot(&[0x37, 0xDF]);
    cpu.step().unwrap();
    let sp_before = cpu.regs.sp;
    cpu.step().unwrap();
    assert!(cpu.flags.c);
    assert_eq!(cpu.regs.sp, sp_before);
    assert_eq!(cpu.pc.value, 0x18);
}

#[test]
fn add_immediate_to_stack_pointer_uses_the_operand_address_as_base() {
    // The base of the addition is the program counter at the operand byte.
    let mut cpu = boot(&[0xE8, 0x10]);
    cpu.step().unwrap();
    assert_eq!(cpu.regs.sp, 0x0011);
    assert_eq!(cpu.pc.value, 2);
}

#[test]
fn load_stack_pointer_plus_immediate_into_hl() {
    let mut cpu = boot(&[0x31, 0x00, 0x20, 0xF8, 0x05]);
    cpu.step().unwrap();
    cpu.step().unwrap();
    assert_eq!(cpu.regs.hl(), 0x2005);
    assert_eq!(cpu.pc.value, 5);
}

#[test]
fn store_stack_pointer_writes_at_the_operand_position() {
    let mut cpu = boot(&[0x31, 0xCD, 0xAB, 0x08, 0x00, 0x00]);
    cpu.step().unwrap();
    cpu.step().unwrap();
    assert_eq!(cpu.mem.read_addr16(0x0004), 0xABCD);
    assert_eq!(cpu.pc.value, 6);
}

#[test]
fn load_hl_into_program_counter() {
    let mut cpu = boot(&[0x21, 0x34, 0x12, 0xF9]);
    cpu.step().unwrap();
    cpu.step().unwrap();
    assert_eq!(cpu.pc.value, 0x1234);
}

#[test]
fn complement_carry_flag_flips_only_carry() {
    let mut cpu = boot(&[0x37, 0x3F, 0x3F]);
    cpu.step().unwrap();
    assert!(cpu.flags.c);
    cpu.step().unwrap();
    assert!(!cpu.flags.c);
    cpu.step().unwrap();
    assert!(cpu.flags.c);
}

#[test]
fn conditional_return_not_taken_changes_nothing() {
    // Zero flag clear: RET Z leaves the program counter just past itself.
    let mut cpu = boot(&[0x3E, 0x01, 0xB7, 0xC8]);
    cpu.step().unwrap();
    cpu.step().unwrap();
    let sp_before = cpu.regs.sp;
    cpu.step().unwrap();
    assert_eq!(cpu.pc.value, 4);
    assert_eq!(cpu.regs.sp, sp_before);
}
