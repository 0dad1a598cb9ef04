//! Tests of the CPU core: operand resolution per addressing mode, the shared
//! flag updater, cycle accounting, the instruction handlers, and two
//! end-to-end programs.

use byte_emu::cpu::{StepError, CPU};
use byte_emu::flags::{Flags, BREAK, CARRY, NEGATIVE, OVERFLOW, ZERO};
use byte_emu::opcode::{AddressingMode, Mnemonic, Opcode, Operand, TickModifier};

fn op_with_mode(mode: AddressingMode, tick_modifier: Option<TickModifier>) -> Opcode {
    Opcode { code: 0, mnemonic: Mnemonic::Other, mode, size: 2, tick: 2, tick_modifier }
}

#[test]
fn operand_accumulator_and_implied() {
    let mut cpu = CPU::new();
    cpu.reg.pc = 0x8000;
    let acc = op_with_mode(AddressingMode::Accumulator, None);
    assert_eq!(cpu.get_operand(&acc), Operand::Accumulator);
    let imp = op_with_mode(AddressingMode::NoneAddressing, None);
    assert_eq!(cpu.get_operand(&imp), Operand::Implied);
    assert_eq!(cpu.cycle, 0);
}

#[test]
fn operand_immediate_and_relative_point_at_pc() {
    let mut cpu = CPU::new();
    cpu.reg.pc = 0x8001;
    let imm = op_with_mode(AddressingMode::Immediate, None);
    assert_eq!(cpu.get_operand(&imm), Operand::Address(0x8001));
    let rel = op_with_mode(AddressingMode::Relative, None);
    assert_eq!(cpu.get_operand(&rel), Operand::Address(0x8001));
}

#[test]
fn operand_zero_page_modes_wrap_in_zero_page() {
    let mut cpu = CPU::new();
    cpu.reg.pc = 0x8000;
    cpu.bus.write(0x8000, 0xf0);
    cpu.reg.x = 0x20;
    cpu.reg.y = 0x11;
    let zp = op_with_mode(AddressingMode::ZeroPage, None);
    assert_eq!(cpu.get_operand(&zp), Operand::Address(0x00f0));
    let zpx = op_with_mode(AddressingMode::ZeroPageX, None);
    assert_eq!(cpu.get_operand(&zpx), Operand::Address(0x0010));
    let zpy = op_with_mode(AddressingMode::ZeroPageY, None);
    assert_eq!(cpu.get_operand(&zpy), Operand::Address(0x0001));
    assert_eq!(cpu.cycle, 0);
}

#[test]
fn operand_absolute_modes() {
    let mut cpu = CPU::new();
    cpu.reg.pc = 0x8000;
    cpu.bus.write(0x8000, 0x34);
    cpu.bus.write(0x8001, 0x12);
    cpu.reg.x = 0x10;
    cpu.reg.y = 0x0f;
    let abs = op_with_mode(AddressingMode::Absolute, None);
    assert_eq!(cpu.get_operand(&abs), Operand::Address(0x1234));
    let absx = op_with_mode(AddressingMode::AbsoluteX, None);
    assert_eq!(cpu.get_operand(&absx), Operand::Address(0x1244));
    let absy = op_with_mode(AddressingMode::AbsoluteY, None);
    assert_eq!(cpu.get_operand(&absy), Operand::Address(0x1243));
    assert_eq!(cpu.cycle, 0);
}

#[test]
fn operand_absolute_x_page_cross_charges_a_cycle() {
    let mut cpu = CPU::new();
    cpu.reg.pc = 0x8000;
    cpu.bus.write(0x8000, 0xff);
    cpu.bus.write(0x8001, 0x12);
    cpu.reg.x = 0x01;
    let absx = op_with_mode(AddressingMode::AbsoluteX, Some(TickModifier::PageCrossed));
    assert_eq!(cpu.get_operand(&absx), Operand::Address(0x1300));
    assert_eq!(cpu.cycle, 1);

    // same opcode, low byte one less: no boundary crossed, no extra cycle
    let mut cpu2 = CPU::new();
    cpu2.reg.pc = 0x8000;
    cpu2.bus.write(0x8000, 0xfe);
    cpu2.bus.write(0x8001, 0x12);
    cpu2.reg.x = 0x01;
    assert_eq!(cpu2.get_operand(&absx), Operand::Address(0x12ff));
    assert_eq!(cpu2.cycle, 0);
}

#[test]
fn operand_indirect_modes() {
    let mut cpu = CPU::new();
    cpu.reg.pc = 0x8000;
    // Indirect: pointer at pc, target stored at the pointer
    cpu.bus.write(0x8000, 0x00);
    cpu.bus.write(0x8001, 0x30);
    cpu.bus.write_u16(0x3000, 0x4321);
    let ind = op_with_mode(AddressingMode::Indirect, None);
    assert_eq!(cpu.get_operand(&ind), Operand::Address(0x4321));

    // IndirectX: zero-page pointer indexed by X (wrapping), then dereferenced
    let mut cpu = CPU::new();
    cpu.reg.pc = 0x8000;
    cpu.bus.write(0x8000, 0xfe);
    cpu.reg.x = 0x06;
    cpu.bus.write_u16(0x0004, 0x2211);
    let indx = op_with_mode(AddressingMode::IndirectX, None);
    assert_eq!(cpu.get_operand(&indx), Operand::Address(0x2211));

    // IndirectY: zero-page pointer dereferenced, then indexed by Y
    let mut cpu = CPU::new();
    cpu.reg.pc = 0x8000;
    cpu.bus.write(0x8000, 0x20);
    cpu.bus.write_u16(0x0020, 0x3040);
    cpu.reg.y = 0x05;
    let indy = op_with_mode(AddressingMode::IndirectY, None);
    assert_eq!(cpu.get_operand(&indy), Operand::Address(0x3045));
    assert_eq!(cpu.cycle, 0);
}

#[test]
fn operand_indirect_y_page_cross_charges_a_cycle() {
    let mut cpu = CPU::new();
    cpu.reg.pc = 0x8000;
    cpu.bus.write(0x8000, 0x20);
    cpu.bus.write_u16(0x0020, 0x30ff);
    cpu.reg.y = 0x01;
    let indy = op_with_mode(AddressingMode::IndirectY, Some(TickModifier::PageCrossed));
    assert_eq!(cpu.get_operand(&indy), Operand::Address(0x3100));
    assert_eq!(cpu.cycle, 1);
}

#[test]
fn flag_updater_over_all_byte_values() {
    for prior in [0x00u8, 0xffu8, 0x82u8, 0x7du8] {
        for v in 0..=255u8 {
            let mut cpu = CPU::new();
            cpu.reg.p = Flags { bits: prior };
            cpu.update_flags(v);
            assert_eq!(cpu.reg.p.contains(ZERO), v == 0, "v={v} prior={prior}");
            assert_eq!(cpu.reg.p.contains(NEGATIVE), v & 0x80 != 0, "v={v} prior={prior}");
            assert_eq!(cpu.reg.p.bits & 0x7d, prior & 0x7d, "v={v} prior={prior}");
        }
    }
}

#[test]
fn set_carry_flag_only_touches_carry() {
    let mut cpu = CPU::new();
    cpu.reg.p = Flags { bits: 0x80 };
    cpu.set_carry_flag(true);
    assert_eq!(cpu.reg.p.bits, 0x81);
    cpu.set_carry_flag(false);
    assert_eq!(cpu.reg.p.bits, 0x80);
}

#[test]
fn lda_absolute_x_cycle_cost_page_cross() {
    // LDA $20f8,X with X = 0x10: 0x20f8 + 0x10 crosses into page 0x21
    let mut cpu = CPU::new();
    cpu.reg.pc = 0x8000;
    cpu.reg.x = 0x10;
    cpu.bus.write(0x8000, 0xbd);
    cpu.bus.write(0x8001, 0xf8);
    cpu.bus.write(0x8002, 0x20);
    cpu.bus.write(0x2108, 0x77);
    assert!(cpu.step().is_ok());
    assert_eq!(cpu.reg.a, 0x77);
    assert_eq!(cpu.cycle, 5);
    assert_eq!(cpu.reg.pc, 0x8003);

    // LDA $2001,X with X = 0x10: stays in page 0x20, base cost exactly
    let mut cpu = CPU::new();
    cpu.reg.pc = 0x8000;
    cpu.reg.x = 0x10;
    cpu.bus.write(0x8000, 0xbd);
    cpu.bus.write(0x8001, 0x01);
    cpu.bus.write(0x8002, 0x20);
    cpu.bus.write(0x2011, 0x66);
    assert!(cpu.step().is_ok());
    assert_eq!(cpu.reg.a, 0x66);
    assert_eq!(cpu.cycle, 4);
}

#[test]
fn branch_not_taken_costs_base_cycles() {
    let mut cpu = CPU::new();
    cpu.reg.pc = 0x8000;
    cpu.bus.write(0x8000, 0xf0); // BEQ, ZERO clear: not taken
    cpu.bus.write(0x8001, 0x10);
    assert!(cpu.step().is_ok());
    assert_eq!(cpu.cycle, 2);
    assert_eq!(cpu.reg.pc, 0x8002);
}

#[test]
fn branch_taken_costs_one_extra_cycle() {
    let mut cpu = CPU::new();
    cpu.reg.pc = 0x8000;
    cpu.reg.p.insert(ZERO);
    cpu.bus.write(0x8000, 0xf0); // BEQ, ZERO set: taken, same page
    cpu.bus.write(0x8001, 0x10);
    assert!(cpu.step().is_ok());
    assert_eq!(cpu.cycle, 3);
    assert_eq!(cpu.reg.pc, 0x8011);
}

#[test]
fn branch_taken_across_page_costs_two_extra_cycles() {
    let mut cpu = CPU::new();
    cpu.reg.pc = 0x80fd;
    cpu.reg.p.insert(ZERO);
    cpu.bus.write(0x80fd, 0xf0); // BEQ at 0x80fd: offset byte at 0x80fe
    cpu.bus.write(0x80fe, 0x10); // 0xfe + 0x10 crosses the page
    assert!(cpu.step().is_ok());
    assert_eq!(cpu.cycle, 4);
    assert_eq!(cpu.reg.pc, 0x810e);
}

#[test]
fn branch_backwards_offset_is_sign_extended() {
    let mut cpu = CPU::new();
    cpu.reg.pc = 0x8010;
    cpu.reg.p.insert(CARRY);
    cpu.bus.write(0x8010, 0xb0); // BCS
    cpu.bus.write(0x8011, 0xfb); // -5: 0x8011 - 5 = 0x800c
    assert!(cpu.step().is_ok());
    assert_eq!(cpu.reg.pc, 0x800c);
}

#[test]
fn each_branch_follows_its_flag_polarity() {
    // (opcode, flag mask, branches when the flag is set)
    let cases = [
        (0x90u8, CARRY, false),
        (0xb0u8, CARRY, true),
        (0xf0u8, ZERO, true),
        (0xd0u8, ZERO, false),
        (0x30u8, NEGATIVE, true),
        (0x10u8, NEGATIVE, false),
        (0x50u8, OVERFLOW, false),
        (0x70u8, OVERFLOW, true),
    ];
    for (code, mask, on_set) in cases {
        for set in [false, true] {
            let mut cpu = CPU::new();
            cpu.reg.pc = 0x8000;
            if set {
                cpu.reg.p.insert(mask);
            }
            cpu.bus.write(0x8000, code);
            cpu.bus.write(0x8001, 0x06);
            assert!(cpu.step().is_ok());
            let taken = set == on_set;
            let expected_pc = if taken { 0x8007 } else { 0x8002 };
            assert_eq!(cpu.reg.pc, expected_pc, "opcode {code:#x} set={set}");
            assert_eq!(cpu.cycle, if taken { 3 } else { 2 }, "opcode {code:#x} set={set}");
        }
    }
}

#[test]
fn brk_pushes_three_bytes_and_jumps_to_vector() {
    let mut cpu = CPU::new();
    cpu.reg.pc = 0x8000;
    cpu.reg.p.insert(CARRY);
    cpu.bus.write(0x8000, 0x00);
    cpu.bus.write_u16(0xfffe, 0x9000);
    assert!(cpu.step().is_ok());
    // pc after the opcode fetch is 0x8001; BRK pushes 0x8001 + 2
    assert_eq!(cpu.bus.read(0x01ff), 0x80); // pc-high first
    assert_eq!(cpu.bus.read(0x01fe), 0x03); // then pc-low
    assert_eq!(cpu.bus.read(0x01fd), BREAK | CARRY); // then the packed flags
    assert_eq!(cpu.reg.sp, 0x01fc);
    assert_eq!(cpu.reg.pc, 0x9000);
    assert!(cpu.reg.p.contains(BREAK));
    assert_eq!(cpu.cycle, 7);
}

#[test]
fn and_immediate_masks_accumulator() {
    let mut cpu = CPU::new();
    cpu.reg.pc = 0x8000;
    cpu.reg.a = 0b1100_1100;
    cpu.bus.write(0x8000, 0x29);
    cpu.bus.write(0x8001, 0b1010_1010);
    assert!(cpu.step().is_ok());
    assert_eq!(cpu.reg.a, 0b1000_1000);
    assert!(cpu.reg.p.contains(NEGATIVE));
    assert!(!cpu.reg.p.contains(ZERO));
    assert_eq!(cpu.cycle, 2);
}

#[test]
fn asl_accumulator_sets_carry_from_bit_seven() {
    let mut cpu = CPU::new();
    cpu.reg.pc = 0x8000;
    cpu.reg.a = 0x81;
    cpu.bus.write(0x8000, 0x0a);
    assert!(cpu.step().is_ok());
    assert_eq!(cpu.reg.a, 0x02);
    assert!(cpu.reg.p.contains(CARRY));
    assert!(!cpu.reg.p.contains(ZERO));
    assert!(!cpu.reg.p.contains(NEGATIVE));
}

#[test]
fn asl_zero_page_shifts_in_memory() {
    let mut cpu = CPU::new();
    cpu.reg.pc = 0x8000;
    cpu.bus.write(0x8000, 0x06);
    cpu.bus.write(0x8001, 0x10);
    cpu.bus.write(0x0010, 0x40);
    assert!(cpu.step().is_ok());
    assert_eq!(cpu.bus.read(0x0010), 0x80);
    assert!(!cpu.reg.p.contains(CARRY));
    assert!(cpu.reg.p.contains(NEGATIVE));
    assert_eq!(cpu.cycle, 5);
}

#[test]
fn inx_wraps_and_sets_zero() {
    let mut cpu = CPU::new();
    cpu.reg.pc = 0x8000;
    cpu.reg.x = 0xff;
    cpu.bus.write(0x8000, 0xe8);
    assert!(cpu.step().is_ok());
    assert_eq!(cpu.reg.x, 0);
    assert!(cpu.reg.p.contains(ZERO));
    assert!(!cpu.reg.p.contains(NEGATIVE));
}

#[test]
fn dex_wraps_and_sets_negative() {
    let mut cpu = CPU::new();
    cpu.reg.pc = 0x8000;
    cpu.reg.x = 0x00;
    cpu.bus.write(0x8000, 0xca);
    assert!(cpu.step().is_ok());
    assert_eq!(cpu.reg.x, 0xff);
    assert!(!cpu.reg.p.contains(ZERO));
    assert!(cpu.reg.p.contains(NEGATIVE));
}

#[test]
fn register_transfers() {
    let mut cpu = CPU::new();
    cpu.reg.pc = 0x8000;
    cpu.reg.a = 0x42;
    cpu.bus.write(0x8000, 0xaa); // TAX
    cpu.bus.write(0x8001, 0xa8); // TAY
    cpu.bus.write(0x8002, 0x8a); // TXA
    cpu.bus.write(0x8003, 0x98); // TYA
    assert!(cpu.step().is_ok());
    assert_eq!(cpu.reg.x, 0x42);
    assert!(cpu.step().is_ok());
    assert_eq!(cpu.reg.y, 0x42);
    cpu.reg.a = 0;
    assert!(cpu.step().is_ok());
    assert_eq!(cpu.reg.a, 0x42);
    cpu.reg.a = 0;
    assert!(cpu.step().is_ok());
    assert_eq!(cpu.reg.a, 0x42);
}

#[test]
fn undefined_opcode_is_a_decode_error_and_leaves_state_alone() {
    let mut cpu = CPU::new();
    cpu.reg.pc = 0x8000;
    cpu.bus.write(0x8000, 0x02);
    let r = cpu.step();
    assert_eq!(r, Err(StepError::UnrecognizedOpcode(0x02)));
    assert_eq!(cpu.reg.pc, 0x8000);
    assert_eq!(cpu.cycle, 0);
}

#[test]
fn recognized_unimplemented_opcode_is_a_timing_accurate_no_op() {
    let mut cpu = CPU::new();
    cpu.reg.pc = 0x8000;
    cpu.reg.a = 0x55;
    cpu.bus.write(0x8000, 0x8d); // STA absolute: decodable, not implemented
    cpu.bus.write(0x8001, 0x00);
    cpu.bus.write(0x8002, 0x02);
    assert!(cpu.step().is_ok());
    assert_eq!(cpu.reg.pc, 0x8003);
    assert_eq!(cpu.cycle, 4);
    assert_eq!(cpu.reg.a, 0x55);
    assert_eq!(cpu.bus.read(0x0200), 0); // nothing was stored
}

#[test]
fn nop_advances_pc_and_cycles_only() {
    let mut cpu = CPU::new();
    cpu.reg.pc = 0x8000;
    cpu.bus.write(0x8000, 0xea);
    assert!(cpu.step().is_ok());
    assert_eq!(cpu.reg.pc, 0x8001);
    assert_eq!(cpu.cycle, 2);
}

#[test]
fn load_copies_program_and_writes_reset_vector() {
    let mut cpu = CPU::new();
    cpu.load(&[0xde, 0xad, 0xbe, 0xef], 0x8000);
    assert_eq!(cpu.bus.read(0x8000), 0xde);
    assert_eq!(cpu.bus.read(0x8003), 0xef);
    assert_eq!(cpu.bus.read_u16(0xfffc), 0x8000);
    assert_eq!(cpu.reg.pc, 0); // load alone does not move pc
}

#[test]
fn reset_rereads_the_vector_and_clears_registers() {
    let mut cpu = CPU::new();
    cpu.bus.write_u16(0xfffc, 0x1234);
    cpu.reg.a = 9;
    cpu.reg.x = 9;
    cpu.reg.p.insert(CARRY);
    cpu.cycle = 77;
    cpu.reset();
    assert_eq!(cpu.reg.pc, 0x1234);
    assert_eq!(cpu.reg.sp, 0x01ff);
    assert_eq!((cpu.reg.a, cpu.reg.x, cpu.reg.y), (0, 0, 0));
    assert_eq!(cpu.reg.p.bits, 0);
    assert_eq!(cpu.cycle, 77); // the cycle counter survives a reset
}

#[test]
fn end_to_end_lda_tax_brk() {
    let mut cpu = CPU::new();
    cpu.load(&[0xa9, 0x05, 0xaa, 0x00], 0x8000);
    cpu.reg.pc = 0x8000;
    assert!(cpu.run().is_ok());
    assert_eq!(cpu.reg.a, 0x05);
    assert_eq!(cpu.reg.x, 0x05);
    assert!(cpu.reg.p.contains(BREAK));
    assert!(!cpu.reg.p.contains(ZERO));
    assert!(!cpu.reg.p.contains(NEGATIVE));
}

#[test]
fn end_to_end_branch_on_zero_skips_second_load() {
    let mut cpu = CPU::new();
    assert!(cpu.load_and_run(&[0xa9, 0x00, 0xf0, 0x02, 0xa9, 0xff, 0x00], 0x8000).is_ok());
    assert_eq!(cpu.reg.a, 0x00);
    assert!(cpu.reg.p.contains(ZERO));
    assert!(cpu.reg.p.contains(BREAK));
}

#[test]
fn step_with_input_writes_the_input_byte_first() {
    let mut cpu = CPU::new();
    cpu.reg.pc = 0x8000;
    cpu.bus.write(0x8000, 0xa5); // LDA zero page
    cpu.bus.write(0x8001, 0xff); // the input-state byte
    assert!(cpu.step_with_input(Some(0x41)).is_ok());
    assert_eq!(cpu.bus.read(0x00ff), 0x41);
    assert_eq!(cpu.reg.a, 0x41); // the program observed the fresh input
    let before = cpu.bus.read(0x00ff);
    cpu.bus.write(cpu.reg.pc, 0xea);
    assert!(cpu.step_with_input(None).is_ok());
    assert_eq!(cpu.bus.read(0x00ff), before); // no key: the byte is untouched
}

#[test]
fn framebuffer_reads_through_the_cpu() {
    let mut cpu = CPU::new();
    cpu.bus.write(0x0200, 0xaa);
    let fb = cpu.framebuffer();
    assert_eq!(fb.len(), 1024);
    assert_eq!(fb[0], 0xaa000000);
}

#[test]
fn run_reports_the_first_undecodable_byte() {
    let mut cpu = CPU::new();
    cpu.load(&[0xa9, 0x01, 0x02], 0x8000); // LDA #1, then an undefined byte
    cpu.reg.pc = 0x8000;
    assert_eq!(cpu.run(), Err(StepError::UnrecognizedOpcode(0x02)));
    assert_eq!(cpu.reg.a, 0x01);
    assert_eq!(cpu.reg.pc, 0x8002);
}

#[test]
fn load_can_end_exactly_at_the_top_of_memory() {
    let mut cpu = CPU::new();
    cpu.load(&[0x11, 0x22], 0xfffe);
    assert_eq!(cpu.bus.read(0xfffe), 0x11);
    assert_eq!(cpu.bus.read(0xffff), 0x22);
    assert_eq!(cpu.bus.read_u16(0xfffc), 0xfffe);
}

#[test]
fn load_lets_the_image_override_the_reset_vector() {
    let mut cpu = CPU::new();
    // the image covers 0xfffc-0xffff, so its bytes win over the vector write
    cpu.load(&[0xaa, 0xbb, 0xcc, 0xdd], 0xfffc);
    assert_eq!(cpu.bus.read_u16(0xfffc), 0xbbaa);
}
