//! Tests of the leaf components: status flags, the memory bus, and the
//! opcode table.

use byte_emu::bus::Bus;
use byte_emu::flags::{Flags, BREAK, CARRY, DECIMAL, INTERRUPT, NEGATIVE, OVERFLOW, UNUSED, ZERO};
use byte_emu::messages::FileProcesserMessage;
use byte_emu::opcode::{lookup, AddressingMode, Mnemonic, TickModifier};

#[test]
fn flags_insert_remove_contains() {
    let mut p = Flags::empty();
    assert_eq!(p.bits, 0);
    assert!(!p.contains(CARRY));
    p.insert(CARRY);
    p.insert(NEGATIVE);
    assert!(p.contains(CARRY));
    assert!(p.contains(NEGATIVE));
    assert!(!p.contains(ZERO));
    assert_eq!(p.bits, 0x81);
    p.remove(CARRY);
    assert!(!p.contains(CARRY));
    assert!(p.contains(NEGATIVE));
    assert_eq!(p.to_byte(), 0x80);
    let d: Flags = Default::default();
    assert_eq!(d.bits, 0);
}

#[test]
fn flags_masks_are_distinct_bits() {
    let all = [NEGATIVE, OVERFLOW, UNUSED, BREAK, DECIMAL, INTERRUPT, ZERO, CARRY];
    let mut seen: u8 = 0;
    for m in all {
        assert_eq!(m.count_ones(), 1);
        assert_eq!(seen & m, 0);
        seen |= m;
    }
    assert_eq!(seen, 0xff);
}

#[test]
fn bus_read_write_byte() {
    let mut bus = Bus::new();
    assert_eq!(bus.read(0x1234), 0);
    bus.write(0x1234, 0xab);
    assert_eq!(bus.read(0x1234), 0xab);
    bus.write(0x0000, 0x01);
    bus.write(0xffff, 0x02);
    assert_eq!(bus.read(0x0000), 0x01);
    assert_eq!(bus.read(0xffff), 0x02);
}

#[test]
fn bus_word_access_is_little_endian() {
    let mut bus = Bus::new();
    bus.write_u16(0x2000, 0x1234);
    assert_eq!(bus.read(0x2000), 0x34);
    assert_eq!(bus.read(0x2001), 0x12);
    assert_eq!(bus.read_u16(0x2000), 0x1234);
}

#[test]
fn bus_word_read_wraps_at_top_of_address_space() {
    let mut bus = Bus::new();
    bus.write(0xffff, 0x22);
    bus.write(0x0000, 0x11);
    assert_eq!(bus.read_u16(0xffff), 0x1122);
    bus.write_u16(0xffff, 0x3344);
    assert_eq!(bus.read(0xffff), 0x44);
    assert_eq!(bus.read(0x0000), 0x33);
}

#[test]
fn bus_framebuffer_reads_packed_rgba() {
    let mut bus = Bus::new();
    bus.write(0x0200, 0x01);
    bus.write(0x0201, 0x02);
    bus.write(0x0202, 0x03);
    bus.write(0x0203, 0x04);
    bus.write(0x0204, 0xff);
    let fb = bus.framebuffer();
    assert_eq!(fb.len(), 1024);
    assert_eq!(fb[0], 0x01020304);
    assert_eq!(fb[1], 0xff000000);
    assert_eq!(fb[1023], 0);
}

#[test]
fn bus_input_state_byte() {
    let mut bus = Bus::new();
    bus.set_input_state(0x41);
    assert_eq!(bus.read(0x00ff), 0x41);
}

#[test]
fn opcode_table_implemented_entries() {
    let lda_imm = lookup(0xa9);
    assert!(matches!(lda_imm.mnemonic, Mnemonic::Lda));
    assert!(matches!(lda_imm.mode, AddressingMode::Immediate));
    assert_eq!(lda_imm.size, 2);
    assert_eq!(lda_imm.tick, 2);
    assert!(lda_imm.tick_modifier.is_none());

    let lda_absx = lookup(0xbd);
    assert!(matches!(lda_absx.mnemonic, Mnemonic::Lda));
    assert!(matches!(lda_absx.mode, AddressingMode::AbsoluteX));
    assert_eq!(lda_absx.size, 3);
    assert_eq!(lda_absx.tick, 4);
    assert!(matches!(lda_absx.tick_modifier, Some(TickModifier::PageCrossed)));

    let beq = lookup(0xf0);
    assert!(matches!(beq.mnemonic, Mnemonic::Beq));
    assert!(matches!(beq.mode, AddressingMode::Relative));
    assert_eq!((beq.size, beq.tick), (2, 2));
    assert!(matches!(beq.tick_modifier, Some(TickModifier::Branch)));

    let brk = lookup(0x00);
    assert!(matches!(brk.mnemonic, Mnemonic::Brk));
    assert_eq!((brk.size, brk.tick), (1, 7));

    let asl_acc = lookup(0x0a);
    assert!(matches!(asl_acc.mnemonic, Mnemonic::Asl));
    assert!(matches!(asl_acc.mode, AddressingMode::Accumulator));
}

#[test]
fn opcode_table_recognized_but_unimplemented() {
    let isb = lookup(0xff); // unofficial, recognized: a sized, costed no-op
    assert!(matches!(isb.mnemonic, Mnemonic::Other));
    assert_eq!((isb.size, isb.tick), (3, 7));

    let jmp = lookup(0x4c);
    assert!(matches!(jmp.mnemonic, Mnemonic::Other));
    assert!(matches!(jmp.mode, AddressingMode::Absolute));
    assert_eq!((jmp.size, jmp.tick), (3, 3));

    let sta = lookup(0x8d);
    assert!(matches!(sta.mnemonic, Mnemonic::Other));
    assert_eq!((sta.size, sta.tick), (3, 4));
}

#[test]
fn opcode_table_fully_populated() {
    let mut defined = 0;
    for code in 0..=255u8 {
        let op = lookup(code);
        assert_eq!(op.code, code);
        assert!(op.size >= 1 && op.size <= 3);
        if !matches!(op.mnemonic, Mnemonic::Undefined) {
            defined += 1;
        } else {
            assert_eq!(op.size, 1);
            assert_eq!(op.tick, 0);
        }
    }
    assert_eq!(defined, 244);
}

#[test]
fn file_processer_message_carries_name_and_bytes() {
    let m = FileProcesserMessage::BinaryFileOpen(("demo.bin".to_string(), vec![1, 2, 3]));
    match m {
        FileProcesserMessage::BinaryFileOpen((name, data)) => {
            assert_eq!(name, "demo.bin");
            assert_eq!(data, vec![1, 2, 3]);
        }
        FileProcesserMessage::SourceFileOpen(_) => panic!("wrong variant"),
    }
}
