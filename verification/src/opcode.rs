//! The opcode-metadata table: one immutable record for every possible opcode
//! byte, giving its mnemonic, addressing mode, instruction size in bytes,
//! base cycle cost, and optional cycle-modifier tag. All 256 slots are
//! populated: the official instruction set and the commonly implemented
//! unofficial opcodes are recognized, and only the twelve bytes that jam a
//! real processor carry the explicit `Undefined` mnemonic, so a missing
//! entry can never reach dispatch.

use vstd::prelude::*;

verus! {

/// Instruction mnemonic. The emulated subset has a variant per implemented
/// instruction; `Other` marks a recognized opcode (official or unofficial)
/// that executes as a timing-accurate no-op; and `Undefined` marks one of the
/// twelve processor-jamming bytes, which `step` reports as a decode error.
#[derive(Clone, Copy, Debug, PartialEq, Eq, Structural)]
pub enum Mnemonic {
    And,
    Asl,
    Lda,
    Inx,
    Dex,
    Tax,
    Txa,
    Tay,
    Tya,
    Bcc,
    Bcs,
    Beq,
    Bne,
    Bmi,
    Bpl,
    Bvc,
    Bvs,
    Brk,
    Nop,
    Other,
    Undefined,
}

/// The rule by which an instruction's operand location is computed from the
/// bytes following its opcode. `NoneAddressing` is the explicit marker for
/// opcodes that take no operand.
#[derive(Clone, Copy, Debug, PartialEq, Eq, Structural)]
pub enum AddressingMode {
    NoneAddressing,
    Accumulator,
    Immediate,
    Relative,
    ZeroPage,
    ZeroPageX,
    ZeroPageY,
    Absolute,
    AbsoluteX,
    AbsoluteY,
    Indirect,
    IndirectX,
    IndirectY,
}

/// Which cycle penalty an opcode is subject to: an extra cycle when an
/// indexed address computation crosses a page boundary, or the extra cycles
/// of a taken branch.
#[derive(Clone, Copy, Debug, PartialEq, Eq, Structural)]
pub enum TickModifier {
    PageCrossed,
    Branch,
}

/// Immutable metadata for one opcode byte.
#[derive(Clone, Copy, Debug, PartialEq, Eq, Structural)]
pub struct Opcode {
    /// The opcode byte itself.
    pub code: u8,
    /// Instruction mnemonic; selects the handler in `step`.
    pub mnemonic: Mnemonic,
    /// Operand-resolution rule.
    pub mode: AddressingMode,
    /// Instruction size in bytes (1-3), opcode byte included.
    pub size: u8,
    /// Base cycle cost, charged on every execution.
    pub tick: u8,
    /// Optional cycle penalty tag.
    pub tick_modifier: Option<TickModifier>,
}

/// A resolved operand: no operand at all, the accumulator itself, or a
/// concrete 16-bit address to read or write through the bus. Exactly one
/// variant is produced per addressing mode, and `Accumulator` only for the
/// accumulator mode.
#[derive(Clone, Copy, Debug, PartialEq, Eq, Structural)]
pub enum Operand {
    Implied,
    Accumulator,
    Address(u16),
}

/// The table as a mathematical function: metadata for each opcode byte.
/// Opaque: the 256-way case split only unfolds where a proof reveals it.
#[verifier::opaque]
pub open spec fn opcode_spec(code: u8) -> Opcode {
    match code {
        0x00 => Opcode { code: 0x00, mnemonic: Mnemonic::Brk, mode: AddressingMode::NoneAddressing, size: 1, tick: 7, tick_modifier: None::<TickModifier> },
        0x01 => Opcode { code: 0x01, mnemonic: Mnemonic::Other, mode: AddressingMode::IndirectX, size: 2, tick: 6, tick_modifier: None::<TickModifier> },
        0x03 => Opcode { code: 0x03, mnemonic: Mnemonic::Other, mode: AddressingMode::IndirectX, size: 2, tick: 8, tick_modifier: None::<TickModifier> },
        0x04 => Opcode { code: 0x04, mnemonic: Mnemonic::Other, mode: AddressingMode::ZeroPage, size: 2, tick: 3, tick_modifier: None::<TickModifier> },
        0x05 => Opcode { code: 0x05, mnemonic: Mnemonic::Other, mode: AddressingMode::ZeroPage, size: 2, tick: 3, tick_modifier: None::<TickModifier> },
        0x06 => Opcode { code: 0x06, mnemonic: Mnemonic::Asl, mode: AddressingMode::ZeroPage, size: 2, tick: 5, tick_modifier: None::<TickModifier> },
        0x07 => Opcode { code: 0x07, mnemonic: Mnemonic::Other, mode: AddressingMode::ZeroPage, size: 2, tick: 5, tick_modifier: None::<TickModifier> },
        0x08 => Opcode { code: 0x08, mnemonic: Mnemonic::Other, mode: AddressingMode::NoneAddressing, size: 1, tick: 3, tick_modifier: None::<TickModifier> },
        0x09 => Opcode { code: 0x09, mnemonic: Mnemonic::Other, mode: AddressingMode::Immediate, size: 2, tick: 2, tick_modifier: None::<TickModifier> },
        0x0a => Opcode { code: 0x0a, mnemonic: Mnemonic::Asl, mode: AddressingMode::Accumulator, size: 1, tick: 2, tick_modifier: None::<TickModifier> },
        0x0b => Opcode { code: 0x0b, mnemonic: Mnemonic::Other, mode: AddressingMode::Immediate, size: 2, tick: 2, tick_modifier: None::<TickModifier> },
        0x0c => Opcode { code: 0x0c, mnemonic: Mnemonic::Other, mode: AddressingMode::Absolute, size: 3, tick: 4, tick_modifier: None::<TickModifier> },
        0x0d => Opcode { code: 0x0d, mnemonic: Mnemonic::Other, mode: AddressingMode::Absolute, size: 3, tick: 4, tick_modifier: None::<TickModifier> },
        0x0e => Opcode { code: 0x0e, mnemonic: Mnemonic::Asl, mode: AddressingMode::Absolute, size: 3, tick: 6, tick_modifier: None::<TickModifier> },
        0x0f => Opcode { code: 0x0f, mnemonic: Mnemonic::Other, mode: AddressingMode::Absolute, size: 3, tick: 6, tick_modifier: None::<TickModifier> },
        0x10 => Opcode { code: 0x10, mnemonic: Mnemonic::Bpl, mode: AddressingMode::Relative, size: 2, tick: 2, tick_modifier: Some(TickModifier::Branch) },
        0x11 => Opcode { code: 0x11, mnemonic: Mnemonic::Other, mode: AddressingMode::IndirectY, size: 2, tick: 5, tick_modifier: Some(TickModifier::PageCrossed) },
        0x13 => Opcode { code: 0x13, mnemonic: Mnemonic::Other, mode: AddressingMode::IndirectY, size: 2, tick: 8, tick_modifier: None::<TickModifier> },
        0x14 => Opcode { code: 0x14, mnemonic: Mnemonic::Other, mode: AddressingMode::ZeroPageX, size: 2, tick: 4, tick_modifier: None::<TickModifier> },
        0x15 => Opcode { code: 0x15, mnemonic: Mnemonic::Other, mode: AddressingMode::ZeroPageX, size: 2, tick: 4, tick_modifier: None::<TickModifier> },
        0x16 => Opcode { code: 0x16, mnemonic: Mnemonic::Asl, mode: AddressingMode::ZeroPageX, size: 2, tick: 6, tick_modifier: None::<TickModifier> },
        0x17 => Opcode { code: 0x17, mnemonic: Mnemonic::Other, mode: AddressingMode::ZeroPageX, size: 2, tick: 6, tick_modifier: None::<TickModifier> },
        0x18 => Opcode { code: 0x18, mnemonic: Mnemonic::Other, mode: AddressingMode::NoneAddressing, size: 1, tick: 2, tick_modifier: None::<TickModifier> },
        0x19 => Opcode { code: 0x19, mnemonic: Mnemonic::Other, mode: AddressingMode::AbsoluteY, size: 3, tick: 4, tick_modifier: Some(TickModifier::PageCrossed) },
        0x1a => Opcode { code: 0x1a, mnemonic: Mnemonic::Other, mode: AddressingMode::NoneAddressing, size: 1, tick: 2, tick_modifier: None::<TickModifier> },
        0x1b => Opcode { code: 0x1b, mnemonic: Mnemonic::Other, mode: AddressingMode::AbsoluteY, size: 3, tick: 7, tick_modifier: None::<TickModifier> },
        0x1c => Opcode { code: 0x1c, mnemonic: Mnemonic::Other, mode: AddressingMode::AbsoluteX, size: 3, tick: 4, tick_modifier: Some(TickModifier::PageCrossed) },
        0x1d => Opcode { code: 0x1d, mnemonic: Mnemonic::Other, mode: AddressingMode::AbsoluteX, size: 3, tick: 4, tick_modifier: Some(TickModifier::PageCrossed) },
        0x1e => Opcode { code: 0x1e, mnemonic: Mnemonic::Asl, mode: AddressingMode::AbsoluteX, size: 3, tick: 7, tick_modifier: None::<TickModifier> },
        0x1f => Opcode { code: 0x1f, mnemonic: Mnemonic::Other, mode: AddressingMode::AbsoluteX, size: 3, tick: 7, tick_modifier: None::<TickModifier> },
        0x20 => Opcode { code: 0x20, mnemonic: Mnemonic::Other, mode: AddressingMode::Absolute, size: 3, tick: 6, tick_modifier: None::<TickModifier> },
        0x21 => Opcode { code: 0x21, mnemonic: Mnemonic::And, mode: AddressingMode::IndirectX, size: 2, tick: 6, tick_modifier: None::<TickModifier> },
        0x23 => Opcode { code: 0x23, mnemonic: Mnemonic::Other, mode: AddressingMode::IndirectX, size: 2, tick: 8, tick_modifier: None::<TickModifier> },
        0x24 => Opcode { code: 0x24, mnemonic: Mnemonic::Other, mode: AddressingMode::ZeroPage, size: 2, tick: 3, tick_modifier: None::<TickModifier> },
        0x25 => Opcode { code: 0x25, mnemonic: Mnemonic::And, mode: AddressingMode::ZeroPage, size: 2, tick: 3, tick_modifier: None::<TickModifier> },
        0x26 => Opcode { code: 0x26, mnemonic: Mnemonic::Other, mode: AddressingMode::ZeroPage, size: 2, tick: 5, tick_modifier: None::<TickModifier> },
        0x27 => Opcode { code: 0x27, mnemonic: Mnemonic::Other, mode: AddressingMode::ZeroPage, size: 2, tick: 5, tick_modifier: None::<TickModifier> },
        0x28 => Opcode { code: 0x28, mnemonic: Mnemonic::Other, mode: AddressingMode::NoneAddressing, size: 1, tick: 4, tick_modifier: None::<TickModifier> },
        0x29 => Opcode { code: 0x29, mnemonic: Mnemonic::And, mode: AddressingMode::Immediate, size: 2, tick: 2, tick_modifier: None::<TickModifier> },
        0x2a => Opcode { code: 0x2a, mnemonic: Mnemonic::Other, mode: AddressingMode::Accumulator, size: 1, tick: 2, tick_modifier: None::<TickModifier> },
        0x2b => Opcode { code: 0x2b, mnemonic: Mnemonic::Other, mode: AddressingMode::Immediate, size: 2, tick: 2, tick_modifier: None::<TickModifier> },
        0x2c => Opcode { code: 0x2c, mnemonic: Mnemonic::Other, mode: AddressingMode::Absolute, size: 3, tick: 4, tick_modifier: None::<TickModifier> },
        0x2d => Opcode { code: 0x2d, mnemonic: Mnemonic::And, mode: AddressingMode::Absolute, size: 3, tick: 4, tick_modifier: None::<TickModifier> },
        0x2e => Opcode { code: 0x2e, mnemonic: Mnemonic::Other, mode: AddressingMode::Absolute, size: 3, tick: 6, tick_modifier: None::<TickModifier> },
        0x2f => Opcode { code: 0x2f, mnemonic: Mnemonic::Other, mode: AddressingMode::Absolute, size: 3, tick: 6, tick_modifier: None::<TickModifier> },
        0x30 => Opcode { code: 0x30, mnemonic: Mnemonic::Bmi, mode: AddressingMode::Relative, size: 2, tick: 2, tick_modifier: Some(TickModifier::Branch) },
        0x31 => Opcode { code: 0x31, mnemonic: Mnemonic::And, mode: AddressingMode::IndirectY, size: 2, tick: 5, tick_modifier: Some(TickModifier::PageCrossed) },
        0x33 => Opcode { code: 0x33, mnemonic: Mnemonic::Other, mode: AddressingMode::IndirectY, size: 2, tick: 8, tick_modifier: None::<TickModifier> },
        0x34 => Opcode { code: 0x34, mnemonic: Mnemonic::Other, mode: AddressingMode::ZeroPageX, size: 2, tick: 4, tick_modifier: None::<TickModifier> },
        0x35 => Opcode { code: 0x35, mnemonic: Mnemonic::And, mode: AddressingMode::ZeroPageX, size: 2, tick: 4, tick_modifier: None::<TickModifier> },
        0x36 => Opcode { code: 0x36, mnemonic: Mnemonic::Other, mode: AddressingMode::ZeroPageX, size: 2, tick: 6, tick_modifier: None::<TickModifier> },
        0x37 => Opcode { code: 0x37, mnemonic: Mnemonic::Other, mode: AddressingMode::ZeroPageX, size: 2, tick: 6, tick_modifier: None::<TickModifier> },
        0x38 => Opcode { code: 0x38, mnemonic: Mnemonic::Other, mode: AddressingMode::NoneAddressing, size: 1, tick: 2, tick_modifier: None::<TickModifier> },
        0x39 => Opcode { code: 0x39, mnemonic: Mnemonic::And, mode: AddressingMode::AbsoluteY, size: 3, tick: 4, tick_modifier: Some(TickModifier::PageCrossed) },
        0x3a => Opcode { code: 0x3a, mnemonic: Mnemonic::Other, mode: AddressingMode::NoneAddressing, size: 1, tick: 2, tick_modifier: None::<TickModifier> },
        0x3b => Opcode { code: 0x3b, mnemonic: Mnemonic::Other, mode: AddressingMode::AbsoluteY, size: 3, tick: 7, tick_modifier: None::<TickModifier> },
        0x3c => Opcode { code: 0x3c, mnemonic: Mnemonic::Other, mode: AddressingMode::AbsoluteX, size: 3, tick: 4, tick_modifier: Some(TickModifier::PageCrossed) },
        0x3d => Opcode { code: 0x3d, mnemonic: Mnemonic::And, mode: AddressingMode::AbsoluteX, size: 3, tick: 4, tick_modifier: Some(TickModifier::PageCrossed) },
        0x3e => Opcode { code: 0x3e, mnemonic: Mnemonic::Other, mode: AddressingMode::AbsoluteX, size: 3, tick: 7, tick_modifier: None::<TickModifier> },
        0x3f => Opcode { code: 0x3f, mnemonic: Mnemonic::Other, mode: AddressingMode::AbsoluteX, size: 3, tick: 7, tick_modifier: None::<TickModifier> },
        0x40 => Opcode { code: 0x40, mnemonic: Mnemonic::Other, mode: AddressingMode::NoneAddressing, size: 1, tick: 6, tick_modifier: None::<TickModifier> },
        0x41 => Opcode { code: 0x41, mnemonic: Mnemonic::Other, mode: AddressingMode::IndirectX, size: 2, tick: 6, tick_modifier: None::<TickModifier> },
        0x43 => Opcode { code: 0x43, mnemonic: Mnemonic::Other, mode: AddressingMode::IndirectX, size: 2, tick: 8, tick_modifier: None::<TickModifier> },
        0x44 => Opcode { code: 0x44, mnemonic: Mnemonic::Other, mode: AddressingMode::ZeroPage, size: 2, tick: 3, tick_modifier: None::<TickModifier> },
        0x45 => Opcode { code: 0x45, mnemonic: Mnemonic::Other, mode: AddressingMode::ZeroPage, size: 2, tick: 3, tick_modifier: None::<TickModifier> },
        0x46 => Opcode { code: 0x46, mnemonic: Mnemonic::Other, mode: AddressingMode::ZeroPage, size: 2, tick: 5, tick_modifier: None::<TickModifier> },
        0x47 => Opcode { code: 0x47, mnemonic: Mnemonic::Other, mode: AddressingMode::ZeroPage, size: 2, tick: 5, tick_modifier: None::<TickModifier> },
        0x48 => Opcode { code: 0x48, mnemonic: Mnemonic::Other, mode: AddressingMode::NoneAddressing, size: 1, tick: 3, tick_modifier: None::<TickModifier> },
        0x49 => Opcode { code: 0x49, mnemonic: Mnemonic::Other, mode: AddressingMode::Immediate, size: 2, tick: 2, tick_modifier: None::<TickModifier> },
        0x4a => Opcode { code: 0x4a, mnemonic: Mnemonic::Other, mode: AddressingMode::Accumulator, size: 1, tick: 2, tick_modifier: None::<TickModifier> },
        0x4b => Opcode { code: 0x4b, mnemonic: Mnemonic::Other, mode: AddressingMode::Immediate, size: 2, tick: 2, tick_modifier: None::<TickModifier> },
        0x4c => Opcode { code: 0x4c, mnemonic: Mnemonic::Other, mode: AddressingMode::Absolute, size: 3, tick: 3, tick_modifier: None::<TickModifier> },
        0x4d => Opcode { code: 0x4d, mnemonic: Mnemonic::Other, mode: AddressingMode::Absolute, size: 3, tick: 4, tick_modifier: None::<TickModifier> },
        0x4e => Opcode { code: 0x4e, mnemonic: Mnemonic::Other, mode: AddressingMode::Absolute, size: 3, tick: 6, tick_modifier: None::<TickModifier> },
        0x4f => Opcode { code: 0x4f, mnemonic: Mnemonic::Other, mode: AddressingMode::Absolute, size: 3, tick: 6, tick_modifier: None::<TickModifier> },
        0x50 => Opcode { code: 0x50, mnemonic: Mnemonic::Bvc, mode: AddressingMode::Relative, size: 2, tick: 2, tick_modifier: Some(TickModifier::Branch) },
        0x51 => Opcode { code: 0x51, mnemonic: Mnemonic::Other, mode: AddressingMode::IndirectY, size: 2, tick: 5, tick_modifier: Some(TickModifier::PageCrossed) },
        0x53 => Opcode { code: 0x53, mnemonic: Mnemonic::Other, mode: AddressingMode::IndirectY, size: 2, tick: 8, tick_modifier: None::<TickModifier> },
        0x54 => Opcode { code: 0x54, mnemonic: Mnemonic::Other, mode: AddressingMode::ZeroPageX, size: 2, tick: 4, tick_modifier: None::<TickModifier> },
        0x55 => Opcode { code: 0x55, mnemonic: Mnemonic::Other, mode: AddressingMode::ZeroPageX, size: 2, tick: 4, tick_modifier: None::<TickModifier> },
        0x56 => Opcode { code: 0x56, mnemonic: Mnemonic::Other, mode: AddressingMode::ZeroPageX, size: 2, tick: 6, tick_modifier: None::<TickModifier> },
        0x57 => Opcode { code: 0x57, mnemonic: Mnemonic::Other, mode: AddressingMode::ZeroPageX, size: 2, tick: 6, tick_modifier: None::<TickModifier> },
        0x58 => Opcode { code: 0x58, mnemonic: Mnemonic::Other, mode: AddressingMode::NoneAddressing, size: 1, tick: 2, tick_modifier: None::<TickModifier> },
        0x59 => Opcode { code: 0x59, mnemonic: Mnemonic::Other, mode: AddressingMode::AbsoluteY, size: 3, tick: 4, tick_modifier: Some(TickModifier::PageCrossed) },
        0x5a => Opcode { code: 0x5a, mnemonic: Mnemonic::Other, mode: AddressingMode::NoneAddressing, size: 1, tick: 2, tick_modifier: None::<TickModifier> },
        0x5b => Opcode { code: 0x5b, mnemonic: Mnemonic::Other, mode: AddressingMode::AbsoluteY, size: 3, tick: 7, tick_modifier: None::<TickModifier> },
        0x5c => Opcode { code: 0x5c, mnemonic: Mnemonic::Other, mode: AddressingMode::AbsoluteX, size: 3, tick: 4, tick_modifier: Some(TickModifier::PageCrossed) },
        0x5d => Opcode { code: 0x5d, mnemonic: Mnemonic::Other, mode: AddressingMode::AbsoluteX, size: 3, tick: 4, tick_modifier: Some(TickModifier::PageCrossed) },
        0x5e => Opcode { code: 0x5e, mnemonic: Mnemonic::Other, mode: AddressingMode::AbsoluteX, size: 3, tick: 7, tick_modifier: None::<TickModifier> },
        0x5f => Opcode { code: 0x5f, mnemonic: Mnemonic::Other, mode: AddressingMode::AbsoluteX, size: 3, tick: 7, tick_modifier: None::<TickModifier> },
        0x60 => Opcode { code: 0x60, mnemonic: Mnemonic::Other, mode: AddressingMode::NoneAddressing, size: 1, tick: 6, tick_modifier: None::<TickModifier> },
        0x61 => Opcode { code: 0x61, mnemonic: Mnemonic::Other, mode: AddressingMode::IndirectX, size: 2, tick: 6, tick_modifier: None::<TickModifier> },
        0x63 => Opcode { code: 0x63, mnemonic: Mnemonic::Other, mode: AddressingMode::IndirectX, size: 2, tick: 8, tick_modifier: None::<TickModifier> },
        0x64 => Opcode { code: 0x64, mnemonic: Mnemonic::Other, mode: AddressingMode::ZeroPage, size: 2, tick: 3, tick_modifier: None::<TickModifier> },
        0x65 => Opcode { code: 0x65, mnemonic: Mnemonic::Other, mode: AddressingMode::ZeroPage, size: 2, tick: 3, tick_modifier: None::<TickModifier> },
        0x66 => Opcode { code: 0x66, mnemonic: Mnemonic::Other, mode: AddressingMode::ZeroPage, size: 2, tick: 5, tick_modifier: None::<TickModifier> },
        0x67 => Opcode { code: 0x67, mnemonic: Mnemonic::Other, mode: AddressingMode::ZeroPage, size: 2, tick: 5, tick_modifier: None::<TickModifier> },
        0x68 => Opcode { code: 0x68, mnemonic: Mnemonic::Other, mode: AddressingMode::NoneAddressing, size: 1, tick: 4, tick_modifier: None::<TickModifier> },
        0x69 => Opcode { code: 0x69, mnemonic: Mnemonic::Other, mode: AddressingMode::Immediate, size: 2, tick: 2, tick_modifier: None::<TickModifier> },
        0x6a => Opcode { code: 0x6a, mnemonic: Mnemonic::Other, mode: AddressingMode::Accumulator, size: 1, tick: 2, tick_modifier: None::<TickModifier> },
        0x6b => Opcode { code: 0x6b, mnemonic: Mnemonic::Other, mode: AddressingMode::Immediate, size: 2, tick: 2, tick_modifier: None::<TickModifier> },
        0x6c => Opcode { code: 0x6c, mnemonic: Mnemonic::Other, mode: AddressingMode::Indirect, size: 3, tick: 5, tick_modifier: None::<TickModifier> },
        0x6d => Opcode { code: 0x6d, mnemonic: Mnemonic::Other, mode: AddressingMode::Absolute, size: 3, tick: 4, tick_modifier: None::<TickModifier> },
        0x6e => Opcode { code: 0x6e, mnemonic: Mnemonic::Other, mode: AddressingMode::Absolute, size: 3, tick: 6, tick_modifier: None::<TickModifier> },
        0x6f => Opcode { code: 0x6f, mnemonic: Mnemonic::Other, mode: AddressingMode::Absolute, size: 3, tick: 6, tick_modifier: None::<TickModifier> },
        0x70 => Opcode { code: 0x70, mnemonic: Mnemonic::Bvs, mode: AddressingMode::Relative, size: 2, tick: 2, tick_modifier: Some(TickModifier::Branch) },
        0x71 => Opcode { code: 0x71, mnemonic: Mnemonic::Other, mode: AddressingMode::IndirectY, size: 2, tick: 5, tick_modifier: Some(TickModifier::PageCrossed) },
        0x73 => Opcode { code: 0x73, mnemonic: Mnemonic::Other, mode: AddressingMode::IndirectY, size: 2, tick: 8, tick_modifier: None::<TickModifier> },
        0x74 => Opcode { code: 0x74, mnemonic: Mnemonic::Other, mode: AddressingMode::ZeroPageX, size: 2, tick: 4, tick_modifier: None::<TickModifier> },
        0x75 => Opcode { code: 0x75, mnemonic: Mnemonic::Other, mode: AddressingMode::ZeroPageX, size: 2, tick: 4, tick_modifier: None::<TickModifier> },
        0x76 => Opcode { code: 0x76, mnemonic: Mnemonic::Other, mode: AddressingMode::ZeroPageX, size: 2, tick: 6, tick_modifier: None::<TickModifier> },
        0x77 => Opcode { code: 0x77, mnemonic: Mnemonic::Other, mode: AddressingMode::ZeroPageX, size: 2, tick: 6, tick_modifier: None::<TickModifier> },
        0x78 => Opcode { code: 0x78, mnemonic: Mnemonic::Other, mode: AddressingMode::NoneAddressing, size: 1, tick: 2, tick_modifier: None::<TickModifier> },
        0x79 => Opcode { code: 0x79, mnemonic: Mnemonic::Other, mode: AddressingMode::AbsoluteY, size: 3, tick: 4, tick_modifier: Some(TickModifier::PageCrossed) },
        0x7a => Opcode { code: 0x7a, mnemonic: Mnemonic::Other, mode: AddressingMode::NoneAddressing, size: 1, tick: 2, tick_modifier: None::<TickModifier> },
        0x7b => Opcode { code: 0x7b, mnemonic: Mnemonic::Other, mode: AddressingMode::AbsoluteY, size: 3, tick: 7, tick_modifier: None::<TickModifier> },
        0x7c => Opcode { code: 0x7c, mnemonic: Mnemonic::Other, mode: AddressingMode::AbsoluteX, size: 3, tick: 4, tick_modifier: Some(TickModifier::PageCrossed) },
        0x7d => Opcode { code: 0x7d, mnemonic: Mnemonic::Other, mode: AddressingMode::AbsoluteX, size: 3, tick: 4, tick_modifier: Some(TickModifier::PageCrossed) },
        0x7e => Opcode { code: 0x7e, mnemonic: Mnemonic::Other, mode: AddressingMode::AbsoluteX, size: 3, tick: 7, tick_modifier: None::<TickModifier> },
        0x7f => Opcode { code: 0x7f, mnemonic: Mnemonic::Other, mode: AddressingMode::AbsoluteX, size: 3, tick: 7, tick_modifier: None::<TickModifier> },
        0x80 => Opcode { code: 0x80, mnemonic: Mnemonic::Other, mode: AddressingMode::Immediate, size: 2, tick: 2, tick_modifier: None::<TickModifier> },
        0x81 => Opcode { code: 0x81, mnemonic: Mnemonic::Other, mode: AddressingMode::IndirectX, size: 2, tick: 6, tick_modifier: None::<TickModifier> },
        0x82 => Opcode { code: 0x82, mnemonic: Mnemonic::Other, mode: AddressingMode::Immediate, size: 2, tick: 2, tick_modifier: None::<TickModifier> },
        0x83 => Opcode { code: 0x83, mnemonic: Mnemonic::Other, mode: AddressingMode::IndirectX, size: 2, tick: 6, tick_modifier: None::<TickModifier> },
        0x84 => Opcode { code: 0x84, mnemonic: Mnemonic::Other, mode: AddressingMode::ZeroPage, size: 2, tick: 3, tick_modifier: None::<TickModifier> },
        0x85 => Opcode { code: 0x85, mnemonic: Mnemonic::Other, mode: AddressingMode::ZeroPage, size: 2, tick: 3, tick_modifier: None::<TickModifier> },
        0x86 => Opcode { code: 0x86, mnemonic: Mnemonic::Other, mode: AddressingMode::ZeroPage, size: 2, tick: 3, tick_modifier: None::<TickModifier> },
        0x87 => Opcode { code: 0x87, mnemonic: Mnemonic::Other, mode: AddressingMode::ZeroPage, size: 2, tick: 3, tick_modifier: None::<TickModifier> },
        0x88 => Opcode { code: 0x88, mnemonic: Mnemonic::Other, mode: AddressingMode::NoneAddressing, size: 1, tick: 2, tick_modifier: None::<TickModifier> },
        0x89 => Opcode { code: 0x89, mnemonic: Mnemonic::Other, mode: AddressingMode::Immediate, size: 2, tick: 2, tick_modifier: None::<TickModifier> },
        0x8a => Opcode { code: 0x8a, mnemonic: Mnemonic::Txa, mode: AddressingMode::NoneAddressing, size: 1, tick: 2, tick_modifier: None::<TickModifier> },
        0x8b => Opcode { code: 0x8b, mnemonic: Mnemonic::Other, mode: AddressingMode::Immediate, size: 2, tick: 2, tick_modifier: None::<TickModifier> },
        0x8c => Opcode { code: 0x8c, mnemonic: Mnemonic::Other, mode: AddressingMode::Absolute, size: 3, tick: 4, tick_modifier: None::<TickModifier> },
        0x8d => Opcode { code: 0x8d, mnemonic: Mnemonic::Other, mode: AddressingMode::Absolute, size: 3, tick: 4, tick_modifier: None::<TickModifier> },
        0x8e => Opcode { code: 0x8e, mnemonic: Mnemonic::Other, mode: AddressingMode::Absolute, size: 3, tick: 4, tick_modifier: None::<TickModifier> },
        0x8f => Opcode { code: 0x8f, mnemonic: Mnemonic::Other, mode: AddressingMode::Absolute, size: 3, tick: 4, tick_modifier: None::<TickModifier> },
        0x90 => Opcode { code: 0x90, mnemonic: Mnemonic::Bcc, mode: AddressingMode::Relative, size: 2, tick: 2, tick_modifier: Some(TickModifier::Branch) },
        0x91 => Opcode { code: 0x91, mnemonic: Mnemonic::Other, mode: AddressingMode::IndirectY, size: 2, tick: 6, tick_modifier: None::<TickModifier> },
        0x93 => Opcode { code: 0x93, mnemonic: Mnemonic::Other, mode: AddressingMode::IndirectY, size: 2, tick: 6, tick_modifier: None::<TickModifier> },
        0x94 => Opcode { code: 0x94, mnemonic: Mnemonic::Other, mode: AddressingMode::ZeroPageX, size: 2, tick: 4, tick_modifier: None::<TickModifier> },
        0x95 => Opcode { code: 0x95, mnemonic: Mnemonic::Other, mode: AddressingMode::ZeroPageX, size: 2, tick: 4, tick_modifier: None::<TickModifier> },
        0x96 => Opcode { code: 0x96, mnemonic: Mnemonic::Other, mode: AddressingMode::ZeroPageY, size: 2, tick: 4, tick_modifier: None::<TickModifier> },
        0x97 => Opcode { code: 0x97, mnemonic: Mnemonic::Other, mode: AddressingMode::ZeroPageY, size: 2, tick: 4, tick_modifier: None::<TickModifier> },
        0x98 => Opcode { code: 0x98, mnemonic: Mnemonic::Tya, mode: AddressingMode::NoneAddressing, size: 1, tick: 2, tick_modifier: None::<TickModifier> },
        0x99 => Opcode { code: 0x99, mnemonic: Mnemonic::Other, mode: AddressingMode::AbsoluteY, size: 3, tick: 5, tick_modifier: None::<TickModifier> },
        0x9a => Opcode { code: 0x9a, mnemonic: Mnemonic::Other, mode: AddressingMode::NoneAddressing, size: 1, tick: 2, tick_modifier: None::<TickModifier> },
        0x9b => Opcode { code: 0x9b, mnemonic: Mnemonic::Other, mode: AddressingMode::AbsoluteY, size: 3, tick: 5, tick_modifier: None::<TickModifier> },
        0x9c => Opcode { code: 0x9c, mnemonic: Mnemonic::Other, mode: AddressingMode::AbsoluteX, size: 3, tick: 5, tick_modifier: None::<TickModifier> },
        0x9d => Opcode { code: 0x9d, mnemonic: Mnemonic::Other, mode: AddressingMode::AbsoluteX, size: 3, tick: 5, tick_modifier: None::<TickModifier> },
        0x9e => Opcode { code: 0x9e, mnemonic: Mnemonic::Other, mode: AddressingMode::AbsoluteY, size: 3, tick: 5, tick_modifier: None::<TickModifier> },
        0x9f => Opcode { code: 0x9f, mnemonic: Mnemonic::Other, mode: AddressingMode::AbsoluteY, size: 3, tick: 5, tick_modifier: None::<TickModifier> },
        0xa0 => Opcode { code: 0xa0, mnemonic: Mnemonic::Other, mode: AddressingMode::Immediate, size: 2, tick: 2, tick_modifier: None::<TickModifier> },
        0xa1 => Opcode { code: 0xa1, mnemonic: Mnemonic::Lda, mode: AddressingMode::IndirectX, size: 2, tick: 6, tick_modifier: None::<TickModifier> },
        0xa2 => Opcode { code: 0xa2, mnemonic: Mnemonic::Other, mode: AddressingMode::Immediate, size: 2, tick: 2, tick_modifier: None::<TickModifier> },
        0xa3 => Opcode { code: 0xa3, mnemonic: Mnemonic::Other, mode: AddressingMode::IndirectX, size: 2, tick: 6, tick_modifier: None::<TickModifier> },
        0xa4 => Opcode { code: 0xa4, mnemonic: Mnemonic::Other, mode: AddressingMode::ZeroPage, size: 2, tick: 3, tick_modifier: None::<TickModifier> },
        0xa5 => Opcode { code: 0xa5, mnemonic: Mnemonic::Lda, mode: AddressingMode::ZeroPage, size: 2, tick: 3, tick_modifier: None::<TickModifier> },
        0xa6 => Opcode { code: 0xa6, mnemonic: Mnemonic::Other, mode: AddressingMode::ZeroPage, size: 2, tick: 3, tick_modifier: None::<TickModifier> },
        0xa7 => Opcode { code: 0xa7, mnemonic: Mnemonic::Other, mode: AddressingMode::ZeroPage, size: 2, tick: 3, tick_modifier: None::<TickModifier> },
        0xa8 => Opcode { code: 0xa8, mnemonic: Mnemonic::Tay, mode: AddressingMode::NoneAddressing, size: 1, tick: 2, tick_modifier: None::<TickModifier> },
        0xa9 => Opcode { code: 0xa9, mnemonic: Mnemonic::Lda, mode: AddressingMode::Immediate, size: 2, tick: 2, tick_modifier: None::<TickModifier> },
        0xaa => Opcode { code: 0xaa, mnemonic: Mnemonic::Tax, mode: AddressingMode::NoneAddressing, size: 1, tick: 2, tick_modifier: None::<TickModifier> },
        0xab => Opcode { code: 0xab, mnemonic: Mnemonic::Other, mode: AddressingMode::Immediate, size: 2, tick: 2, tick_modifier: None::<TickModifier> },
        0xac => Opcode { code: 0xac, mnemonic: Mnemonic::Other, mode: AddressingMode::Absolute, size: 3, tick: 4, tick_modifier: None::<TickModifier> },
        0xad => Opcode { code: 0xad, mnemonic: Mnemonic::Lda, mode: AddressingMode::Absolute, size: 3, tick: 4, tick_modifier: None::<TickModifier> },
        0xae => Opcode { code: 0xae, mnemonic: Mnemonic::Other, mode: AddressingMode::Absolute, size: 3, tick: 4, tick_modifier: None::<TickModifier> },
        0xaf => Opcode { code: 0xaf, mnemonic: Mnemonic::Other, mode: AddressingMode::Absolute, size: 3, tick: 4, tick_modifier: None::<TickModifier> },
        0xb0 => Opcode { code: 0xb0, mnemonic: Mnemonic::Bcs, mode: AddressingMode::Relative, size: 2, tick: 2, tick_modifier: Some(TickModifier::Branch) },
        0xb1 => Opcode { code: 0xb1, mnemonic: Mnemonic::Lda, mode: AddressingMode::IndirectY, size: 2, tick: 5, tick_modifier: Some(TickModifier::PageCrossed) },
        0xb3 => Opcode { code: 0xb3, mnemonic: Mnemonic::Other, mode: AddressingMode::IndirectY, size: 2, tick: 5, tick_modifier: Some(TickModifier::PageCrossed) },
        0xb4 => Opcode { code: 0xb4, mnemonic: Mnemonic::Other, mode: AddressingMode::ZeroPageX, size: 2, tick: 4, tick_modifier: None::<TickModifier> },
        0xb5 => Opcode { code: 0xb5, mnemonic: Mnemonic::Lda, mode: AddressingMode::ZeroPageX, size: 2, tick: 4, tick_modifier: None::<TickModifier> },
        0xb6 => Opcode { code: 0xb6, mnemonic: Mnemonic::Other, mode: AddressingMode::ZeroPageY, size: 2, tick: 4, tick_modifier: None::<TickModifier> },
        0xb7 => Opcode { code: 0xb7, mnemonic: Mnemonic::Other, mode: AddressingMode::ZeroPageY, size: 2, tick: 4, tick_modifier: None::<TickModifier> },
        0xb8 => Opcode { code: 0xb8, mnemonic: Mnemonic::Other, mode: AddressingMode::NoneAddressing, size: 1, tick: 2, tick_modifier: None::<TickModifier> },
        0xb9 => Opcode { code: 0xb9, mnemonic: Mnemonic::Lda, mode: AddressingMode::AbsoluteY, size: 3, tick: 4, tick_modifier: Some(TickModifier::PageCrossed) },
        0xba => Opcode { code: 0xba, mnemonic: Mnemonic::Other, mode: AddressingMode::NoneAddressing, size: 1, tick: 2, tick_modifier: None::<TickModifier> },
        0xbb => Opcode { code: 0xbb, mnemonic: Mnemonic::Other, mode: AddressingMode::AbsoluteY, size: 3, tick: 4, tick_modifier: Some(TickModifier::PageCrossed) },
        0xbc => Opcode { code: 0xbc, mnemonic: Mnemonic::Other, mode: AddressingMode::AbsoluteX, size: 3, tick: 4, tick_modifier: Some(TickModifier::PageCrossed) },
        0xbd => Opcode { code: 0xbd, mnemonic: Mnemonic::Lda, mode: AddressingMode::AbsoluteX, size: 3, tick: 4, tick_modifier: Some(TickModifier::PageCrossed) },
        0xbe => Opcode { code: 0xbe, mnemonic: Mnemonic::Other, mode: AddressingMode::AbsoluteY, size: 3, tick: 4, tick_modifier: Some(TickModifier::PageCrossed) },
        0xbf => Opcode { code: 0xbf, mnemonic: Mnemonic::Other, mode: AddressingMode::AbsoluteY, size: 3, tick: 4, tick_modifier: Some(TickModifier::PageCrossed) },
        0xc0 => Opcode { code: 0xc0, mnemonic: Mnemonic::Other, mode: AddressingMode::Immediate, size: 2, tick: 2, tick_modifier: None::<TickModifier> },
        0xc1 => Opcode { code: 0xc1, mnemonic: Mnemonic::Other, mode: AddressingMode::IndirectX, size: 2, tick: 6, tick_modifier: None::<TickModifier> },
        0xc2 => Opcode { code: 0xc2, mnemonic: Mnemonic::Other, mode: AddressingMode::Immediate, size: 2, tick: 2, tick_modifier: None::<TickModifier> },
        0xc3 => Opcode { code: 0xc3, mnemonic: Mnemonic::Other, mode: AddressingMode::IndirectX, size: 2, tick: 8, tick_modifier: None::<TickModifier> },
        0xc4 => Opcode { code: 0xc4, mnemonic: Mnemonic::Other, mode: AddressingMode::ZeroPage, size: 2, tick: 3, tick_modifier: None::<TickModifier> },
        0xc5 => Opcode { code: 0xc5, mnemonic: Mnemonic::Other, mode: AddressingMode::ZeroPage, size: 2, tick: 3, tick_modifier: None::<TickModifier> },
        0xc6 => Opcode { code: 0xc6, mnemonic: Mnemonic::Other, mode: AddressingMode::ZeroPage, size: 2, tick: 5, tick_modifier: None::<TickModifier> },
        0xc7 => Opcode { code: 0xc7, mnemonic: Mnemonic::Other, mode: AddressingMode::ZeroPage, size: 2, tick: 5, tick_modifier: None::<TickModifier> },
        0xc8 => Opcode { code: 0xc8, mnemonic: Mnemonic::Other, mode: AddressingMode::NoneAddressing, size: 1, tick: 2, tick_modifier: None::<TickModifier> },
        0xc9 => Opcode { code: 0xc9, mnemonic: Mnemonic::Other, mode: AddressingMode::Immediate, size: 2, tick: 2, tick_modifier: None::<TickModifier> },
        0xca => Opcode { code: 0xca, mnemonic: Mnemonic::Dex, mode: AddressingMode::NoneAddressing, size: 1, tick: 2, tick_modifier: None::<TickModifier> },
        0xcb => Opcode { code: 0xcb, mnemonic: Mnemonic::Other, mode: AddressingMode::Immediate, size: 2, tick: 2, tick_modifier: None::<TickModifier> },
        0xcc => Opcode { code: 0xcc, mnemonic: Mnemonic::Other, mode: AddressingMode::Absolute, size: 3, tick: 4, tick_modifier: None::<TickModifier> },
        0xcd => Opcode { code: 0xcd, mnemonic: Mnemonic::Other, mode: AddressingMode::Absolute, size: 3, tick: 4, tick_modifier: None::<TickModifier> },
        0xce => Opcode { code: 0xce, mnemonic: Mnemonic::Other, mode: AddressingMode::Absolute, size: 3, tick: 6, tick_modifier: None::<TickModifier> },
        0xcf => Opcode { code: 0xcf, mnemonic: Mnemonic::Other, mode: AddressingMode::Absolute, size: 3, tick: 6, tick_modifier: None::<TickModifier> },
        0xd0 => Opcode { code: 0xd0, mnemonic: Mnemonic::Bne, mode: AddressingMode::Relative, size: 2, tick: 2, tick_modifier: Some(TickModifier::Branch) },
        0xd1 => Opcode { code: 0xd1, mnemonic: Mnemonic::Other, mode: AddressingMode::IndirectY, size: 2, tick: 5, tick_modifier: Some(TickModifier::PageCrossed) },
        0xd3 => Opcode { code: 0xd3, mnemonic: Mnemonic::Other, mode: AddressingMode::IndirectY, size: 2, tick: 8, tick_modifier: None::<TickModifier> },
        0xd4 => Opcode { code: 0xd4, mnemonic: Mnemonic::Other, mode: AddressingMode::ZeroPageX, size: 2, tick: 4, tick_modifier: None::<TickModifier> },
        0xd5 => Opcode { code: 0xd5, mnemonic: Mnemonic::Other, mode: AddressingMode::ZeroPageX, size: 2, tick: 4, tick_modifier: None::<TickModifier> },
        0xd6 => Opcode { code: 0xd6, mnemonic: Mnemonic::Other, mode: AddressingMode::ZeroPageX, size: 2, tick: 6, tick_modifier: None::<TickModifier> },
        0xd7 => Opcode { code: 0xd7, mnemonic: Mnemonic::Other, mode: AddressingMode::ZeroPageX, size: 2, tick: 6, tick_modifier: None::<TickModifier> },
        0xd8 => Opcode { code: 0xd8, mnemonic: Mnemonic::Other, mode: AddressingMode::NoneAddressing, size: 1, tick: 2, tick_modifier: None::<TickModifier> },
        0xd9 => Opcode { code: 0xd9, mnemonic: Mnemonic::Other, mode: AddressingMode::AbsoluteY, size: 3, tick: 4, tick_modifier: Some(TickModifier::PageCrossed) },
        0xda => Opcode { code: 0xda, mnemonic: Mnemonic::Other, mode: AddressingMode::NoneAddressing, size: 1, tick: 2, tick_modifier: None::<TickModifier> },
        0xdb => Opcode { code: 0xdb, mnemonic: Mnemonic::Other, mode: AddressingMode::AbsoluteY, size: 3, tick: 7, tick_modifier: None::<TickModifier> },
        0xdc => Opcode { code: 0xdc, mnemonic: Mnemonic::Other, mode: AddressingMode::AbsoluteX, size: 3, tick: 4, tick_modifier: Some(TickModifier::PageCrossed) },
        0xdd => Opcode { code: 0xdd, mnemonic: Mnemonic::Other, mode: AddressingMode::AbsoluteX, size: 3, tick: 4, tick_modifier: Some(TickModifier::PageCrossed) },
        0xde => Opcode { code: 0xde, mnemonic: Mnemonic::Other, mode: AddressingMode::AbsoluteX, size: 3, tick: 7, tick_modifier: None::<TickModifier> },
        0xdf => Opcode { code: 0xdf, mnemonic: Mnemonic::Other, mode: AddressingMode::AbsoluteX, size: 3, tick: 7, tick_modifier: None::<TickModifier> },
        0xe0 => Opcode { code: 0xe0, mnemonic: Mnemonic::Other, mode: AddressingMode::Immediate, size: 2, tick: 2, tick_modifier: None::<TickModifier> },
        0xe1 => Opcode { code: 0xe1, mnemonic: Mnemonic::Other, mode: AddressingMode::IndirectX, size: 2, tick: 6, tick_modifier: None::<TickModifier> },
        0xe2 => Opcode { code: 0xe2, mnemonic: Mnemonic::Other, mode: AddressingMode::Immediate, size: 2, tick: 2, tick_modifier: None::<TickModifier> },
        0xe3 => Opcode { code: 0xe3, mnemonic: Mnemonic::Other, mode: AddressingMode::IndirectX, size: 2, tick: 8, tick_modifier: None::<TickModifier> },
        0xe4 => Opcode { code: 0xe4, mnemonic: Mnemonic::Other, mode: AddressingMode::ZeroPage, size: 2, tick: 3, tick_modifier: None::<TickModifier> },
        0xe5 => Opcode { code: 0xe5, mnemonic: Mnemonic::Other, mode: AddressingMode::ZeroPage, size: 2, tick: 3, tick_modifier: None::<TickModifier> },
        0xe6 => Opcode { code: 0xe6, mnemonic: Mnemonic::Other, mode: AddressingMode::ZeroPage, size: 2, tick: 5, tick_modifier: None::<TickModifier> },
        0xe7 => Opcode { code: 0xe7, mnemonic: Mnemonic::Other, mode: AddressingMode::ZeroPage, size: 2, tick: 5, tick_modifier: None::<TickModifier> },
        0xe8 => Opcode { code: 0xe8, mnemonic: Mnemonic::Inx, mode: AddressingMode::NoneAddressing, size: 1, tick: 2, tick_modifier: None::<TickModifier> },
        0xe9 => Opcode { code: 0xe9, mnemonic: Mnemonic::Other, mode: AddressingMode::Immediate, size: 2, tick: 2, tick_modifier: None::<TickModifier> },
        0xea => Opcode { code: 0xea, mnemonic: Mnemonic::Nop, mode: AddressingMode::NoneAddressing, size: 1, tick: 2, tick_modifier: None::<TickModifier> },
        0xeb => Opcode { code: 0xeb, mnemonic: Mnemonic::Other, mode: AddressingMode::Immediate, size: 2, tick: 2, tick_modifier: None::<TickModifier> },
        0xec => Opcode { code: 0xec, mnemonic: Mnemonic::Other, mode: AddressingMode::Absolute, size: 3, tick: 4, tick_modifier: None::<TickModifier> },
        0xed => Opcode { code: 0xed, mnemonic: Mnemonic::Other, mode: AddressingMode::Absolute, size: 3, tick: 4, tick_modifier: None::<TickModifier> },
        0xee => Opcode { code: 0xee, mnemonic: Mnemonic::Other, mode: AddressingMode::Absolute, size: 3, tick: 6, tick_modifier: None::<TickModifier> },
        0xef => Opcode { code: 0xef, mnemonic: Mnemonic::Other, mode: AddressingMode::Absolute, size: 3, tick: 6, tick_modifier: None::<TickModifier> },
        0xf0 => Opcode { code: 0xf0, mnemonic: Mnemonic::Beq, mode: AddressingMode::Relative, size: 2, tick: 2, tick_modifier: Some(TickModifier::Branch) },
        0xf1 => Opcode { code: 0xf1, mnemonic: Mnemonic::Other, mode: AddressingMode::IndirectY, size: 2, tick: 5, tick_modifier: Some(TickModifier::PageCrossed) },
        0xf3 => Opcode { code: 0xf3, mnemonic: Mnemonic::Other, mode: AddressingMode::IndirectY, size: 2, tick: 8, tick_modifier: None::<TickModifier> },
        0xf4 => Opcode { code: 0xf4, mnemonic: Mnemonic::Other, mode: AddressingMode::ZeroPageX, size: 2, tick: 4, tick_modifier: None::<TickModifier> },
        0xf5 => Opcode { code: 0xf5, mnemonic: Mnemonic::Other, mode: AddressingMode::ZeroPageX, size: 2, tick: 4, tick_modifier: None::<TickModifier> },
        0xf6 => Opcode { code: 0xf6, mnemonic: Mnemonic::Other, mode: AddressingMode::ZeroPageX, size: 2, tick: 6, tick_modifier: None::<TickModifier> },
        0xf7 => Opcode { code: 0xf7, mnemonic: Mnemonic::Other, mode: AddressingMode::ZeroPageX, size: 2, tick: 6, tick_modifier: None::<TickModifier> },
        0xf8 => Opcode { code: 0xf8, mnemonic: Mnemonic::Other, mode: AddressingMode::NoneAddressing, size: 1, tick: 2, tick_modifier: None::<TickModifier> },
        0xf9 => Opcode { code: 0xf9, mnemonic: Mnemonic::Other, mode: AddressingMode::AbsoluteY, size: 3, tick: 4, tick_modifier: Some(TickModifier::PageCrossed) },
        0xfa => Opcode { code: 0xfa, mnemonic: Mnemonic::Other, mode: AddressingMode::NoneAddressing, size: 1, tick: 2, tick_modifier: None::<TickModifier> },
        0xfb => Opcode { code: 0xfb, mnemonic: Mnemonic::Other, mode: AddressingMode::AbsoluteY, size: 3, tick: 7, tick_modifier: None::<TickModifier> },
        0xfc => Opcode { code: 0xfc, mnemonic: Mnemonic::Other, mode: AddressingMode::AbsoluteX, size: 3, tick: 4, tick_modifier: Some(TickModifier::PageCrossed) },
        0xfd => Opcode { code: 0xfd, mnemonic: Mnemonic::Other, mode: AddressingMode::AbsoluteX, size: 3, tick: 4, tick_modifier: Some(TickModifier::PageCrossed) },
        0xfe => Opcode { code: 0xfe, mnemonic: Mnemonic::Other, mode: AddressingMode::AbsoluteX, size: 3, tick: 7, tick_modifier: None::<TickModifier> },
        0xff => Opcode { code: 0xff, mnemonic: Mnemonic::Other, mode: AddressingMode::AbsoluteX, size: 3, tick: 7, tick_modifier: None::<TickModifier> },
        _ => Opcode { code, mnemonic: Mnemonic::Undefined, mode: AddressingMode::NoneAddressing, size: 1, tick: 0, tick_modifier: None::<TickModifier> },
    }
}

/// Whether `code` decodes at all: every byte but the twelve
/// processor-jamming ones does.
pub open spec fn is_defined(code: u8) -> bool {
    opcode_spec(code).mnemonic !is Undefined
}

/// Look an opcode byte up in the table.
pub fn lookup(code: u8) -> (r: Opcode)
    ensures
        r == opcode_spec(code),
{
    proof {
        reveal(opcode_spec);
    }
    match code {
        0x00 => Opcode { code: 0x00, mnemonic: Mnemonic::Brk, mode: AddressingMode::NoneAddressing, size: 1, tick: 7, tick_modifier: None::<TickModifier> },
        0x01 => Opcode { code: 0x01, mnemonic: Mnemonic::Other, mode: AddressingMode::IndirectX, size: 2, tick: 6, tick_modifier: None::<TickModifier> },
        0x03 => Opcode { code: 0x03, mnemonic: Mnemonic::Other, mode: AddressingMode::IndirectX, size: 2, tick: 8, tick_modifier: None::<TickModifier> },
        0x04 => Opcode { code: 0x04, mnemonic: Mnemonic::Other, mode: AddressingMode::ZeroPage, size: 2, tick: 3, tick_modifier: None::<TickModifier> },
        0x05 => Opcode { code: 0x05, mnemonic: Mnemonic::Other, mode: AddressingMode::ZeroPage, size: 2, tick: 3, tick_modifier: None::<TickModifier> },
        0x06 => Opcode { code: 0x06, mnemonic: Mnemonic::Asl, mode: AddressingMode::ZeroPage, size: 2, tick: 5, tick_modifier: None::<TickModifier> },
        0x07 => Opcode { code: 0x07, mnemonic: Mnemonic::Other, mode: AddressingMode::ZeroPage, size: 2, tick: 5, tick_modifier: None::<TickModifier> },
        0x08 => Opcode { code: 0x08, mnemonic: Mnemonic::Other, mode: AddressingMode::NoneAddressing, size: 1, tick: 3, tick_modifier: None::<TickModifier> },
        0x09 => Opcode { code: 0x09, mnemonic: Mnemonic::Other, mode: AddressingMode::Immediate, size: 2, tick: 2, tick_modifier: None::<TickModifier> },
        0x0a => Opcode { code: 0x0a, mnemonic: Mnemonic::Asl, mode: AddressingMode::Accumulator, size: 1, tick: 2, tick_modifier: None::<TickModifier> },
        0x0b => Opcode { code: 0x0b, mnemonic: Mnemonic::Other, mode: AddressingMode::Immediate, size: 2, tick: 2, tick_modifier: None::<TickModifier> },
        0x0c => Opcode { code: 0x0c, mnemonic: Mnemonic::Other, mode: AddressingMode::Absolute, size: 3, tick: 4, tick_modifier: None::<TickModifier> },
        0x0d => Opcode { code: 0x0d, mnemonic: Mnemonic::Other, mode: AddressingMode::Absolute, size: 3, tick: 4, tick_modifier: None::<TickModifier> },
        0x0e => Opcode { code: 0x0e, mnemonic: Mnemonic::Asl, mode: AddressingMode::Absolute, size: 3, tick: 6, tick_modifier: None::<TickModifier> },
        0x0f => Opcode { code: 0x0f, mnemonic: Mnemonic::Other, mode: AddressingMode::Absolute, size: 3, tick: 6, tick_modifier: None::<TickModifier> },
        0x10 => Opcode { code: 0x10, mnemonic: Mnemonic::Bpl, mode: AddressingMode::Relative, size: 2, tick: 2, tick_modifier: Some(TickModifier::Branch) },
        0x11 => Opcode { code: 0x11, mnemonic: Mnemonic::Other, mode: AddressingMode::IndirectY, size: 2, tick: 5, tick_modifier: Some(TickModifier::PageCrossed) },
        0x13 => Opcode { code: 0x13, mnemonic: Mnemonic::Other, mode: AddressingMode::IndirectY, size: 2, tick: 8, tick_modifier: None::<TickModifier> },
        0x14 => Opcode { code: 0x14, mnemonic: Mnemonic::Other, mode: AddressingMode::ZeroPageX, size: 2, tick: 4, tick_modifier: None::<TickModifier> },
        0x15 => Opcode { code: 0x15, mnemonic: Mnemonic::Other, mode: AddressingMode::ZeroPageX, size: 2, tick: 4, tick_modifier: None::<TickModifier> },
        0x16 => Opcode { code: 0x16, mnemonic: Mnemonic::Asl, mode: AddressingMode::ZeroPageX, size: 2, tick: 6, tick_modifier: None::<TickModifier> },
        0x17 => Opcode { code: 0x17, mnemonic: Mnemonic::Other, mode: AddressingMode::ZeroPageX, size: 2, tick: 6, tick_modifier: None::<TickModifier> },
        0x18 => Opcode { code: 0x18, mnemonic: Mnemonic::Other, mode: AddressingMode::NoneAddressing, size: 1, tick: 2, tick_modifier: None::<TickModifier> },
        0x19 => Opcode { code: 0x19, mnemonic: Mnemonic::Other, mode: AddressingMode::AbsoluteY, size: 3, tick: 4, tick_modifier: Some(TickModifier::PageCrossed) },
        0x1a => Opcode { code: 0x1a, mnemonic: Mnemonic::Other, mode: AddressingMode::NoneAddressing, size: 1, tick: 2, tick_modifier: None::<TickModifier> },
        0x1b => Opcode { code: 0x1b, mnemonic: Mnemonic::Other, mode: AddressingMode::AbsoluteY, size: 3, tick: 7, tick_modifier: None::<TickModifier> },
        0x1c => Opcode { code: 0x1c, mnemonic: Mnemonic::Other, mode: AddressingMode::AbsoluteX, size: 3, tick: 4, tick_modifier: Some(TickModifier::PageCrossed) },
        0x1d => Opcode { code: 0x1d, mnemonic: Mnemonic::Other, mode: AddressingMode::AbsoluteX, size: 3, tick: 4, tick_modifier: Some(TickModifier::PageCrossed) },
        0x1e => Opcode { code: 0x1e, mnemonic: Mnemonic::Asl, mode: AddressingMode::AbsoluteX, size: 3, tick: 7, tick_modifier: None::<TickModifier> },
        0x1f => Opcode { code: 0x1f, mnemonic: Mnemonic::Other, mode: AddressingMode::AbsoluteX, size: 3, tick: 7, tick_modifier: None::<TickModifier> },
        0x20 => Opcode { code: 0x20, mnemonic: Mnemonic::Other, mode: AddressingMode::Absolute, size: 3, tick: 6, tick_modifier: None::<TickModifier> },
        0x21 => Opcode { code: 0x21, mnemonic: Mnemonic::And, mode: AddressingMode::IndirectX, size: 2, tick: 6, tick_modifier: None::<TickModifier> },
        0x23 => Opcode { code: 0x23, mnemonic: Mnemonic::Other, mode: AddressingMode::IndirectX, size: 2, tick: 8, tick_modifier: None::<TickModifier> },
        0x24 => Opcode { code: 0x24, mnemonic: Mnemonic::Other, mode: AddressingMode::ZeroPage, size: 2, tick: 3, tick_modifier: None::<TickModifier> },
        0x25 => Opcode { code: 0x25, mnemonic: Mnemonic::And, mode: AddressingMode::ZeroPage, size: 2, tick: 3, tick_modifier: None::<TickModifier> },
        0x26 => Opcode { code: 0x26, mnemonic: Mnemonic::Other, mode: AddressingMode::ZeroPage, size: 2, tick: 5, tick_modifier: None::<TickModifier> },
        0x27 => Opcode { code: 0x27, mnemonic: Mnemonic::Other, mode: AddressingMode::ZeroPage, size: 2, tick: 5, tick_modifier: None::<TickModifier> },
        0x28 => Opcode { code: 0x28, mnemonic: Mnemonic::Other, mode: AddressingMode::NoneAddressing, size: 1, tick: 4, tick_modifier: None::<TickModifier> },
        0x29 => Opcode { code: 0x29, mnemonic: Mnemonic::And, mode: AddressingMode::Immediate, size: 2, tick: 2, tick_modifier: None::<TickModifier> },
        0x2a => Opcode { code: 0x2a, mnemonic: Mnemonic::Other, mode: AddressingMode::Accumulator, size: 1, tick: 2, tick_modifier: None::<TickModifier> },
        0x2b => Opcode { code: 0x2b, mnemonic: Mnemonic::Other, mode: AddressingMode::Immediate, size: 2, tick: 2, tick_modifier: None::<TickModifier> },
        0x2c => Opcode { code: 0x2c, mnemonic: Mnemonic::Other, mode: AddressingMode::Absolute, size: 3, tick: 4, tick_modifier: None::<TickModifier> },
        0x2d => Opcode { code: 0x2d, mnemonic: Mnemonic::And, mode: AddressingMode::Absolute, size: 3, tick: 4, tick_modifier: None::<TickModifier> },
        0x2e => Opcode { code: 0x2e, mnemonic: Mnemonic::Other, mode: AddressingMode::Absolute, size: 3, tick: 6, tick_modifier: None::<TickModifier> },
        0x2f => Opcode { code: 0x2f, mnemonic: Mnemonic::Other, mode: AddressingMode::Absolute, size: 3, tick: 6, tick_modifier: None::<TickModifier> },
        0x30 => Opcode { code: 0x30, mnemonic: Mnemonic::Bmi, mode: AddressingMode::Relative, size: 2, tick: 2, tick_modifier: Some(TickModifier::Branch) },
        0x31 => Opcode { code: 0x31, mnemonic: Mnemonic::And, mode: AddressingMode::IndirectY, size: 2, tick: 5, tick_modifier: Some(TickModifier::PageCrossed) },
        0x33 => Opcode { code: 0x33, mnemonic: Mnemonic::Other, mode: AddressingMode::IndirectY, size: 2, tick: 8, tick_modifier: None::<TickModifier> },
        0x34 => Opcode { code: 0x34, mnemonic: Mnemonic::Other, mode: AddressingMode::ZeroPageX, size: 2, tick: 4, tick_modifier: None::<TickModifier> },
        0x35 => Opcode { code: 0x35, mnemonic: Mnemonic::And, mode: AddressingMode::ZeroPageX, size: 2, tick: 4, tick_modifier: None::<TickModifier> },
        0x36 => Opcode { code: 0x36, mnemonic: Mnemonic::Other, mode: AddressingMode::ZeroPageX, size: 2, tick: 6, tick_modifier: None::<TickModifier> },
        0x37 => Opcode { code: 0x37, mnemonic: Mnemonic::Other, mode: AddressingMode::ZeroPageX, size: 2, tick: 6, tick_modifier: None::<TickModifier> },
        0x38 => Opcode { code: 0x38, mnemonic: Mnemonic::Other, mode: AddressingMode::NoneAddressing, size: 1, tick: 2, tick_modifier: None::<TickModifier> },
        0x39 => Opcode { code: 0x39, mnemonic: Mnemonic::And, mode: AddressingMode::AbsoluteY, size: 3, tick: 4, tick_modifier: Some(TickModifier::PageCrossed) },
        0x3a => Opcode { code: 0x3a, mnemonic: Mnemonic::Other, mode: AddressingMode::NoneAddressing, size: 1, tick: 2, tick_modifier: None::<TickModifier> },
        0x3b => Opcode { code: 0x3b, mnemonic: Mnemonic::Other, mode: AddressingMode::AbsoluteY, size: 3, tick: 7, tick_modifier: None::<TickModifier> },
        0x3c => Opcode { code: 0x3c, mnemonic: Mnemonic::Other, mode: AddressingMode::AbsoluteX, size: 3, tick: 4, tick_modifier: Some(TickModifier::PageCrossed) },
        0x3d => Opcode { code: 0x3d, mnemonic: Mnemonic::And, mode: AddressingMode::AbsoluteX, size: 3, tick: 4, tick_modifier: Some(TickModifier::PageCrossed) },
        0x3e => Opcode { code: 0x3e, mnemonic: Mnemonic::Other, mode: AddressingMode::AbsoluteX, size: 3, tick: 7, tick_modifier: None::<TickModifier> },
        0x3f => Opcode { code: 0x3f, mnemonic: Mnemonic::Other, mode: AddressingMode::AbsoluteX, size: 3, tick: 7, tick_modifier: None::<TickModifier> },
        0x40 => Opcode { code: 0x40, mnemonic: Mnemonic::Other, mode: AddressingMode::NoneAddressing, size: 1, tick: 6, tick_modifier: None::<TickModifier> },
        0x41 => Opcode { code: 0x41, mnemonic: Mnemonic::Other, mode: AddressingMode::IndirectX, size: 2, tick: 6, tick_modifier: None::<TickModifier> },
        0x43 => Opcode { code: 0x43, mnemonic: Mnemonic::Other, mode: AddressingMode::IndirectX, size: 2, tick: 8, tick_modifier: None::<TickModifier> },
        0x44 => Opcode { code: 0x44, mnemonic: Mnemonic::Other, mode: AddressingMode::ZeroPage, size: 2, tick: 3, tick_modifier: None::<TickModifier> },
        0x45 => Opcode { code: 0x45, mnemonic: Mnemonic::Other, mode: AddressingMode::ZeroPage, size: 2, tick: 3, tick_modifier: None::<TickModifier> },
        0x46 => Opcode { code: 0x46, mnemonic: Mnemonic::Other, mode: AddressingMode::ZeroPage, size: 2, tick: 5, tick_modifier: None::<TickModifier> },
        0x47 => Opcode { code: 0x47, mnemonic: Mnemonic::Other, mode: AddressingMode::ZeroPage, size: 2, tick: 5, tick_modifier: None::<TickModifier> },
        0x48 => Opcode { code: 0x48, mnemonic: Mnemonic::Other, mode: AddressingMode::NoneAddressing, size: 1, tick: 3, tick_modifier: None::<TickModifier> },
        0x49 => Opcode { code: 0x49, mnemonic: Mnemonic::Other, mode: AddressingMode::Immediate, size: 2, tick: 2, tick_modifier: None::<TickModifier> },
        0x4a => Opcode { code: 0x4a, mnemonic: Mnemonic::Other, mode: AddressingMode::Accumulator, size: 1, tick: 2, tick_modifier: None::<TickModifier> },
        0x4b => Opcode { code: 0x4b, mnemonic: Mnemonic::Other, mode: AddressingMode::Immediate, size: 2, tick: 2, tick_modifier: None::<TickModifier> },
        0x4c => Opcode { code: 0x4c, mnemonic: Mnemonic::Other, mode: AddressingMode::Absolute, size: 3, tick: 3, tick_modifier: None::<TickModifier> },
        0x4d => Opcode { code: 0x4d, mnemonic: Mnemonic::Other, mode: AddressingMode::Absolute, size: 3, tick: 4, tick_modifier: None::<TickModifier> },
        0x4e => Opcode { code: 0x4e, mnemonic: Mnemonic::Other, mode: AddressingMode::Absolute, size: 3, tick: 6, tick_modifier: None::<TickModifier> },
        0x4f => Opcode { code: 0x4f, mnemonic: Mnemonic::Other, mode: AddressingMode::Absolute, size: 3, tick: 6, tick_modifier: None::<TickModifier> },
        0x50 => Opcode { code: 0x50, mnemonic: Mnemonic::Bvc, mode: AddressingMode::Relative, size: 2, tick: 2, tick_modifier: Some(TickModifier::Branch) },
        0x51 => Opcode { code: 0x51, mnemonic: Mnemonic::Other, mode: AddressingMode::IndirectY, size: 2, tick: 5, tick_modifier: Some(TickModifier::PageCrossed) },
        0x53 => Opcode { code: 0x53, mnemonic: Mnemonic::Other, mode: AddressingMode::IndirectY, size: 2, tick: 8, tick_modifier: None::<TickModifier> },
        0x54 => Opcode { code: 0x54, mnemonic: Mnemonic::Other, mode: AddressingMode::ZeroPageX, size: 2, tick: 4, tick_modifier: None::<TickModifier> },
        0x55 => Opcode { code: 0x55, mnemonic: Mnemonic::Other, mode: AddressingMode::ZeroPageX, size: 2, tick: 4, tick_modifier: None::<TickModifier> },
        0x56 => Opcode { code: 0x56, mnemonic: Mnemonic::Other, mode: AddressingMode::ZeroPageX, size: 2, tick: 6, tick_modifier: None::<TickModifier> },
        0x57 => Opcode { code: 0x57, mnemonic: Mnemonic::Other, mode: AddressingMode::ZeroPageX, size: 2, tick: 6, tick_modifier: None::<TickModifier> },
        0x58 => Opcode { code: 0x58, mnemonic: Mnemonic::Other, mode: AddressingMode::NoneAddressing, size: 1, tick: 2, tick_modifier: None::<TickModifier> },
        0x59 => Opcode { code: 0x59, mnemonic: Mnemonic::Other, mode: AddressingMode::AbsoluteY, size: 3, tick: 4, tick_modifier: Some(TickModifier::PageCrossed) },
        0x5a => Opcode { code: 0x5a, mnemonic: Mnemonic::Other, mode: AddressingMode::NoneAddressing, size: 1, tick: 2, tick_modifier: None::<TickModifier> },
        0x5b => Opcode { code: 0x5b, mnemonic: Mnemonic::Other, mode: AddressingMode::AbsoluteY, size: 3, tick: 7, tick_modifier: None::<TickModifier> },
        0x5c => Opcode { code: 0x5c, mnemonic: Mnemonic::Other, mode: AddressingMode::AbsoluteX, size: 3, tick: 4, tick_modifier: Some(TickModifier::PageCrossed) },
        0x5d => Opcode { code: 0x5d, mnemonic: Mnemonic::Other, mode: AddressingMode::AbsoluteX, size: 3, tick: 4, tick_modifier: Some(TickModifier::PageCrossed) },
        0x5e => Opcode { code: 0x5e, mnemonic: Mnemonic::Other, mode: AddressingMode::AbsoluteX, size: 3, tick: 7, tick_modifier: None::<TickModifier> },
        0x5f => Opcode { code: 0x5f, mnemonic: Mnemonic::Other, mode: AddressingMode::AbsoluteX, size: 3, tick: 7, tick_modifier: None::<TickModifier> },
        0x60 => Opcode { code: 0x60, mnemonic: Mnemonic::Other, mode: AddressingMode::NoneAddressing, size: 1, tick: 6, tick_modifier: None::<TickModifier> },
        0x61 => Opcode { code: 0x61, mnemonic: Mnemonic::Other, mode: AddressingMode::IndirectX, size: 2, tick: 6, tick_modifier: None::<TickModifier> },
        0x63 => Opcode { code: 0x63, mnemonic: Mnemonic::Other, mode: AddressingMode::IndirectX, size: 2, tick: 8, tick_modifier: None::<TickModifier> },
        0x64 => Opcode { code: 0x64, mnemonic: Mnemonic::Other, mode: AddressingMode::ZeroPage, size: 2, tick: 3, tick_modifier: None::<TickModifier> },
        0x65 => Opcode { code: 0x65, mnemonic: Mnemonic::Other, mode: AddressingMode::ZeroPage, size: 2, tick: 3, tick_modifier: None::<TickModifier> },
        0x66 => Opcode { code: 0x66, mnemonic: Mnemonic::Other, mode: AddressingMode::ZeroPage, size: 2, tick: 5, tick_modifier: None::<TickModifier> },
        0x67 => Opcode { code: 0x67, mnemonic: Mnemonic::Other, mode: AddressingMode::ZeroPage, size: 2, tick: 5, tick_modifier: None::<TickModifier> },
        0x68 => Opcode { code: 0x68, mnemonic: Mnemonic::Other, mode: AddressingMode::NoneAddressing, size: 1, tick: 4, tick_modifier: None::<TickModifier> },
        0x69 => Opcode { code: 0x69, mnemonic: Mnemonic::Other, mode: AddressingMode::Immediate, size: 2, tick: 2, tick_modifier: None::<TickModifier> },
        0x6a => Opcode { code: 0x6a, mnemonic: Mnemonic::Other, mode: AddressingMode::Accumulator, size: 1, tick: 2, tick_modifier: None::<TickModifier> },
        0x6b => Opcode { code: 0x6b, mnemonic: Mnemonic::Other, mode: AddressingMode::Immediate, size: 2, tick: 2, tick_modifier: None::<TickModifier> },
        0x6c => Opcode { code: 0x6c, mnemonic: Mnemonic::Other, mode: AddressingMode::Indirect, size: 3, tick: 5, tick_modifier: None::<TickModifier> },
        0x6d => Opcode { code: 0x6d, mnemonic: Mnemonic::Other, mode: AddressingMode::Absolute, size: 3, tick: 4, tick_modifier: None::<TickModifier> },
        0x6e => Opcode { code: 0x6e, mnemonic: Mnemonic::Other, mode: AddressingMode::Absolute, size: 3, tick: 6, tick_modifier: None::<TickModifier> },
        0x6f => Opcode { code: 0x6f, mnemonic: Mnemonic::Other, mode: AddressingMode::Absolute, size: 3, tick: 6, tick_modifier: None::<TickModifier> },
        0x70 => Opcode { code: 0x70, mnemonic: Mnemonic::Bvs, mode: AddressingMode::Relative, size: 2, tick: 2, tick_modifier: Some(TickModifier::Branch) },
        0x71 => Opcode { code: 0x71, mnemonic: Mnemonic::Other, mode: AddressingMode::IndirectY, size: 2, tick: 5, tick_modifier: Some(TickModifier::PageCrossed) },
        0x73 => Opcode { code: 0x73, mnemonic: Mnemonic::Other, mode: AddressingMode::IndirectY, size: 2, tick: 8, tick_modifier: None::<TickModifier> },
        0x74 => Opcode { code: 0x74, mnemonic: Mnemonic::Other, mode: AddressingMode::ZeroPageX, size: 2, tick: 4, tick_modifier: None::<TickModifier> },
        0x75 => Opcode { code: 0x75, mnemonic: Mnemonic::Other, mode: AddressingMode::ZeroPageX, size: 2, tick: 4, tick_modifier: None::<TickModifier> },
        0x76 => Opcode { code: 0x76, mnemonic: Mnemonic::Other, mode: AddressingMode::ZeroPageX, size: 2, tick: 6, tick_modifier: None::<TickModifier> },
        0x77 => Opcode { code: 0x77, mnemonic: Mnemonic::Other, mode: AddressingMode::ZeroPageX, size: 2, tick: 6, tick_modifier: None::<TickModifier> },
        0x78 => Opcode { code: 0x78, mnemonic: Mnemonic::Other, mode: AddressingMode::NoneAddressing, size: 1, tick: 2, tick_modifier: None::<TickModifier> },
        0x79 => Opcode { code: 0x79, mnemonic: Mnemonic::Other, mode: AddressingMode::AbsoluteY, size: 3, tick: 4, tick_modifier: Some(TickModifier::PageCrossed) },
        0x7a => Opcode { code: 0x7a, mnemonic: Mnemonic::Other, mode: AddressingMode::NoneAddressing, size: 1, tick: 2, tick_modifier: None::<TickModifier> },
        0x7b => Opcode { code: 0x7b, mnemonic: Mnemonic::Other, mode: AddressingMode::AbsoluteY, size: 3, tick: 7, tick_modifier: None::<TickModifier> },
        0x7c => Opcode { code: 0x7c, mnemonic: Mnemonic::Other, mode: AddressingMode::AbsoluteX, size: 3, tick: 4, tick_modifier: Some(TickModifier::PageCrossed) },
        0x7d => Opcode { code: 0x7d, mnemonic: Mnemonic::Other, mode: AddressingMode::AbsoluteX, size: 3, tick: 4, tick_modifier: Some(TickModifier::PageCrossed) },
        0x7e => Opcode { code: 0x7e, mnemonic: Mnemonic::Other, mode: AddressingMode::AbsoluteX, size: 3, tick: 7, tick_modifier: None::<TickModifier> },
        0x7f => Opcode { code: 0x7f, mnemonic: Mnemonic::Other, mode: AddressingMode::AbsoluteX, size: 3, tick: 7, tick_modifier: None::<TickModifier> },
        0x80 => Opcode { code: 0x80, mnemonic: Mnemonic::Other, mode: AddressingMode::Immediate, size: 2, tick: 2, tick_modifier: None::<TickModifier> },
        0x81 => Opcode { code: 0x81, mnemonic: Mnemonic::Other, mode: AddressingMode::IndirectX, size: 2, tick: 6, tick_modifier: None::<TickModifier> },
        0x82 => Opcode { code: 0x82, mnemonic: Mnemonic::Other, mode: AddressingMode::Immediate, size: 2, tick: 2, tick_modifier: None::<TickModifier> },
        0x83 => Opcode { code: 0x83, mnemonic: Mnemonic::Other, mode: AddressingMode::IndirectX, size: 2, tick: 6, tick_modifier: None::<TickModifier> },
        0x84 => Opcode { code: 0x84, mnemonic: Mnemonic::Other, mode: AddressingMode::ZeroPage, size: 2, tick: 3, tick_modifier: None::<TickModifier> },
        0x85 => Opcode { code: 0x85, mnemonic: Mnemonic::Other, mode: AddressingMode::ZeroPage, size: 2, tick: 3, tick_modifier: None::<TickModifier> },
        0x86 => Opcode { code: 0x86, mnemonic: Mnemonic::Other, mode: AddressingMode::ZeroPage, size: 2, tick: 3, tick_modifier: None::<TickModifier> },
        0x87 => Opcode { code: 0x87, mnemonic: Mnemonic::Other, mode: AddressingMode::ZeroPage, size: 2, tick: 3, tick_modifier: None::<TickModifier> },
        0x88 => Opcode { code: 0x88, mnemonic: Mnemonic::Other, mode: AddressingMode::NoneAddressing, size: 1, tick: 2, tick_modifier: None::<TickModifier> },
        0x89 => Opcode { code: 0x89, mnemonic: Mnemonic::Other, mode: AddressingMode::Immediate, size: 2, tick: 2, tick_modifier: None::<TickModifier> },
        0x8a => Opcode { code: 0x8a, mnemonic: Mnemonic::Txa, mode: AddressingMode::NoneAddressing, size: 1, tick: 2, tick_modifier: None::<TickModifier> },
        0x8b => Opcode { code: 0x8b, mnemonic: Mnemonic::Other, mode: AddressingMode::Immediate, size: 2, tick: 2, tick_modifier: None::<TickModifier> },
        0x8c => Opcode { code: 0x8c, mnemonic: Mnemonic::Other, mode: AddressingMode::Absolute, size: 3, tick: 4, tick_modifier: None::<TickModifier> },
        0x8d => Opcode { code: 0x8d, mnemonic: Mnemonic::Other, mode: AddressingMode::Absolute, size: 3, tick: 4, tick_modifier: None::<TickModifier> },
        0x8e => Opcode { code: 0x8e, mnemonic: Mnemonic::Other, mode: AddressingMode::Absolute, size: 3, tick: 4, tick_modifier: None::<TickModifier> },
        0x8f => Opcode { code: 0x8f, mnemonic: Mnemonic::Other, mode: AddressingMode::Absolute, size: 3, tick: 4, tick_modifier: None::<TickModifier> },
        0x90 => Opcode { code: 0x90, mnemonic: Mnemonic::Bcc, mode: AddressingMode::Relative, size: 2, tick: 2, tick_modifier: Some(TickModifier::Branch) },
        0x91 => Opcode { code: 0x91, mnemonic: Mnemonic::Other, mode: AddressingMode::IndirectY, size: 2, tick: 6, tick_modifier: None::<TickModifier> },
        0x93 => Opcode { code: 0x93, mnemonic: Mnemonic::Other, mode: AddressingMode::IndirectY, size: 2, tick: 6, tick_modifier: None::<TickModifier> },
        0x94 => Opcode { code: 0x94, mnemonic: Mnemonic::Other, mode: AddressingMode::ZeroPageX, size: 2, tick: 4, tick_modifier: None::<TickModifier> },
        0x95 => Opcode { code: 0x95, mnemonic: Mnemonic::Other, mode: AddressingMode::ZeroPageX, size: 2, tick: 4, tick_modifier: None::<TickModifier> },
        0x96 => Opcode { code: 0x96, mnemonic: Mnemonic::Other, mode: AddressingMode::ZeroPageY, size: 2, tick: 4, tick_modifier: None::<TickModifier> },
        0x97 => Opcode { code: 0x97, mnemonic: Mnemonic::Other, mode: AddressingMode::ZeroPageY, size: 2, tick: 4, tick_modifier: None::<TickModifier> },
        0x98 => Opcode { code: 0x98, mnemonic: Mnemonic::Tya, mode: AddressingMode::NoneAddressing, size: 1, tick: 2, tick_modifier: None::<TickModifier> },
        0x99 => Opcode { code: 0x99, mnemonic: Mnemonic::Other, mode: AddressingMode::AbsoluteY, size: 3, tick: 5, tick_modifier: None::<TickModifier> },
        0x9a => Opcode { code: 0x9a, mnemonic: Mnemonic::Other, mode: AddressingMode::NoneAddressing, size: 1, tick: 2, tick_modifier: None::<TickModifier> },
        0x9b => Opcode { code: 0x9b, mnemonic: Mnemonic::Other, mode: AddressingMode::AbsoluteY, size: 3, tick: 5, tick_modifier: None::<TickModifier> },
        0x9c => Opcode { code: 0x9c, mnemonic: Mnemonic::Other, mode: AddressingMode::AbsoluteX, size: 3, tick: 5, tick_modifier: None::<TickModifier> },
        0x9d => Opcode { code: 0x9d, mnemonic: Mnemonic::Other, mode: AddressingMode::AbsoluteX, size: 3, tick: 5, tick_modifier: None::<TickModifier> },
        0x9e => Opcode { code: 0x9e, mnemonic: Mnemonic::Other, mode: AddressingMode::AbsoluteY, size: 3, tick: 5, tick_modifier: None::<TickModifier> },
        0x9f => Opcode { code: 0x9f, mnemonic: Mnemonic::Other, mode: AddressingMode::AbsoluteY, size: 3, tick: 5, tick_modifier: None::<TickModifier> },
        0xa0 => Opcode { code: 0xa0, mnemonic: Mnemonic::Other, mode: AddressingMode::Immediate, size: 2, tick: 2, tick_modifier: None::<TickModifier> },
        0xa1 => Opcode { code: 0xa1, mnemonic: Mnemonic::Lda, mode: AddressingMode::IndirectX, size: 2, tick: 6, tick_modifier: None::<TickModifier> },
        0xa2 => Opcode { code: 0xa2, mnemonic: Mnemonic::Other, mode: AddressingMode::Immediate, size: 2, tick: 2, tick_modifier: None::<TickModifier> },
        0xa3 => Opcode { code: 0xa3, mnemonic: Mnemonic::Other, mode: AddressingMode::IndirectX, size: 2, tick: 6, tick_modifier: None::<TickModifier> },
        0xa4 => Opcode { code: 0xa4, mnemonic: Mnemonic::Other, mode: AddressingMode::ZeroPage, size: 2, tick: 3, tick_modifier: None::<TickModifier> },
        0xa5 => Opcode { code: 0xa5, mnemonic: Mnemonic::Lda, mode: AddressingMode::ZeroPage, size: 2, tick: 3, tick_modifier: None::<TickModifier> },
        0xa6 => Opcode { code: 0xa6, mnemonic: Mnemonic::Other, mode: AddressingMode::ZeroPage, size: 2, tick: 3, tick_modifier: None::<TickModifier> },
        0xa7 => Opcode { code: 0xa7, mnemonic: Mnemonic::Other, mode: AddressingMode::ZeroPage, size: 2, tick: 3, tick_modifier: None::<TickModifier> },
        0xa8 => Opcode { code: 0xa8, mnemonic: Mnemonic::Tay, mode: AddressingMode::NoneAddressing, size: 1, tick: 2, tick_modifier: None::<TickModifier> },
        0xa9 => Opcode { code: 0xa9, mnemonic: Mnemonic::Lda, mode: AddressingMode::Immediate, size: 2, tick: 2, tick_modifier: None::<TickModifier> },
        0xaa => Opcode { code: 0xaa, mnemonic: Mnemonic::Tax, mode: AddressingMode::NoneAddressing, size: 1, tick: 2, tick_modifier: None::<TickModifier> },
        0xab => Opcode { code: 0xab, mnemonic: Mnemonic::Other, mode: AddressingMode::Immediate, size: 2, tick: 2, tick_modifier: None::<TickModifier> },
        0xac => Opcode { code: 0xac, mnemonic: Mnemonic::Other, mode: AddressingMode::Absolute, size: 3, tick: 4, tick_modifier: None::<TickModifier> },
        0xad => Opcode { code: 0xad, mnemonic: Mnemonic::Lda, mode: AddressingMode::Absolute, size: 3, tick: 4, tick_modifier: None::<TickModifier> },
        0xae => Opcode { code: 0xae, mnemonic: Mnemonic::Other, mode: AddressingMode::Absolute, size: 3, tick: 4, tick_modifier: None::<TickModifier> },
        0xaf => Opcode { code: 0xaf, mnemonic: Mnemonic::Other, mode: AddressingMode::Absolute, size: 3, tick: 4, tick_modifier: None::<TickModifier> },
        0xb0 => Opcode { code: 0xb0, mnemonic: Mnemonic::Bcs, mode: AddressingMode::Relative, size: 2, tick: 2, tick_modifier: Some(TickModifier::Branch) },
        0xb1 => Opcode { code: 0xb1, mnemonic: Mnemonic::Lda, mode: AddressingMode::IndirectY, size: 2, tick: 5, tick_modifier: Some(TickModifier::PageCrossed) },
        0xb3 => Opcode { code: 0xb3, mnemonic: Mnemonic::Other, mode: AddressingMode::IndirectY, size: 2, tick: 5, tick_modifier: Some(TickModifier::PageCrossed) },
        0xb4 => Opcode { code: 0xb4, mnemonic: Mnemonic::Other, mode: AddressingMode::ZeroPageX, size: 2, tick: 4, tick_modifier: None::<TickModifier> },
        0xb5 => Opcode { code: 0xb5, mnemonic: Mnemonic::Lda, mode: AddressingMode::ZeroPageX, size: 2, tick: 4, tick_modifier: None::<TickModifier> },
        0xb6 => Opcode { code: 0xb6, mnemonic: Mnemonic::Other, mode: AddressingMode::ZeroPageY, size: 2, tick: 4, tick_modifier: None::<TickModifier> },
        0xb7 => Opcode { code: 0xb7, mnemonic: Mnemonic::Other, mode: AddressingMode::ZeroPageY, size: 2, tick: 4, tick_modifier: None::<TickModifier> },
        0xb8 => Opcode { code: 0xb8, mnemonic: Mnemonic::Other, mode: AddressingMode::NoneAddressing, size: 1, tick: 2, tick_modifier: None::<TickModifier> },
        0xb9 => Opcode { code: 0xb9, mnemonic: Mnemonic::Lda, mode: AddressingMode::AbsoluteY, size: 3, tick: 4, tick_modifier: Some(TickModifier::PageCrossed) },
        0xba => Opcode { code: 0xba, mnemonic: Mnemonic::Other, mode: AddressingMode::NoneAddressing, size: 1, tick: 2, tick_modifier: None::<TickModifier> },
        0xbb => Opcode { code: 0xbb, mnemonic: Mnemonic::Other, mode: AddressingMode::AbsoluteY, size: 3, tick: 4, tick_modifier: Some(TickModifier::PageCrossed) },
        0xbc => Opcode { code: 0xbc, mnemonic: Mnemonic::Other, mode: AddressingMode::AbsoluteX, size: 3, tick: 4, tick_modifier: Some(TickModifier::PageCrossed) },
        0xbd => Opcode { code: 0xbd, mnemonic: Mnemonic::Lda, mode: AddressingMode::AbsoluteX, size: 3, tick: 4, tick_modifier: Some(TickModifier::PageCrossed) },
        0xbe => Opcode { code: 0xbe, mnemonic: Mnemonic::Other, mode: AddressingMode::AbsoluteY, size: 3, tick: 4, tick_modifier: Some(TickModifier::PageCrossed) },
        0xbf => Opcode { code: 0xbf, mnemonic: Mnemonic::Other, mode: AddressingMode::AbsoluteY, size: 3, tick: 4, tick_modifier: Some(TickModifier::PageCrossed) },
        0xc0 => Opcode { code: 0xc0, mnemonic: Mnemonic::Other, mode: AddressingMode::Immediate, size: 2, tick: 2, tick_modifier: None::<TickModifier> },
        0xc1 => Opcode { code: 0xc1, mnemonic: Mnemonic::Other, mode: AddressingMode::IndirectX, size: 2, tick: 6, tick_modifier: None::<TickModifier> },
        0xc2 => Opcode { code: 0xc2, mnemonic: Mnemonic::Other, mode: AddressingMode::Immediate, size: 2, tick: 2, tick_modifier: None::<TickModifier> },
        0xc3 => Opcode { code: 0xc3, mnemonic: Mnemonic::Other, mode: AddressingMode::IndirectX, size: 2, tick: 8, tick_modifier: None::<TickModifier> },
        0xc4 => Opcode { code: 0xc4, mnemonic: Mnemonic::Other, mode: AddressingMode::ZeroPage, size: 2, tick: 3, tick_modifier: None::<TickModifier> },
        0xc5 => Opcode { code: 0xc5, mnemonic: Mnemonic::Other, mode: AddressingMode::ZeroPage, size: 2, tick: 3, tick_modifier: None::<TickModifier> },
        0xc6 => Opcode { code: 0xc6, mnemonic: Mnemonic::Other, mode: AddressingMode::ZeroPage, size: 2, tick: 5, tick_modifier: None::<TickModifier> },
        0xc7 => Opcode { code: 0xc7, mnemonic: Mnemonic::Other, mode: AddressingMode::ZeroPage, size: 2, tick: 5, tick_modifier: None::<TickModifier> },
        0xc8 => Opcode { code: 0xc8, mnemonic: Mnemonic::Other, mode: AddressingMode::NoneAddressing, size: 1, tick: 2, tick_modifier: None::<TickModifier> },
        0xc9 => Opcode { code: 0xc9, mnemonic: Mnemonic::Other, mode: AddressingMode::Immediate, size: 2, tick: 2, tick_modifier: None::<TickModifier> },
        0xca => Opcode { code: 0xca, mnemonic: Mnemonic::Dex, mode: AddressingMode::NoneAddressing, size: 1, tick: 2, tick_modifier: None::<TickModifier> },
        0xcb => Opcode { code: 0xcb, mnemonic: Mnemonic::Other, mode: AddressingMode::Immediate, size: 2, tick: 2, tick_modifier: None::<TickModifier> },
        0xcc => Opcode { code: 0xcc, mnemonic: Mnemonic::Other, mode: AddressingMode::Absolute, size: 3, tick: 4, tick_modifier: None::<TickModifier> },
        0xcd => Opcode { code: 0xcd, mnemonic: Mnemonic::Other, mode: AddressingMode::Absolute, size: 3, tick: 4, tick_modifier: None::<TickModifier> },
        0xce => Opcode { code: 0xce, mnemonic: Mnemonic::Other, mode: AddressingMode::Absolute, size: 3, tick: 6, tick_modifier: None::<TickModifier> },
        0xcf => Opcode { code: 0xcf, mnemonic: Mnemonic::Other, mode: AddressingMode::Absolute, size: 3, tick: 6, tick_modifier: None::<TickModifier> },
        0xd0 => Opcode { code: 0xd0, mnemonic: Mnemonic::Bne, mode: AddressingMode::Relative, size: 2, tick: 2, tick_modifier: Some(TickModifier::Branch) },
        0xd1 => Opcode { code: 0xd1, mnemonic: Mnemonic::Other, mode: AddressingMode::IndirectY, size: 2, tick: 5, tick_modifier: Some(TickModifier::PageCrossed) },
        0xd3 => Opcode { code: 0xd3, mnemonic: Mnemonic::Other, mode: AddressingMode::IndirectY, size: 2, tick: 8, tick_modifier: None::<TickModifier> },
        0xd4 => Opcode { code: 0xd4, mnemonic: Mnemonic::Other, mode: AddressingMode::ZeroPageX, size: 2, tick: 4, tick_modifier: None::<TickModifier> },
        0xd5 => Opcode { code: 0xd5, mnemonic: Mnemonic::Other, mode: AddressingMode::ZeroPageX, size: 2, tick: 4, tick_modifier: None::<TickModifier> },
        0xd6 => Opcode { code: 0xd6, mnemonic: Mnemonic::Other, mode: AddressingMode::ZeroPageX, size: 2, tick: 6, tick_modifier: None::<TickModifier> },
        0xd7 => Opcode { code: 0xd7, mnemonic: Mnemonic::Other, mode: AddressingMode::ZeroPageX, size: 2, tick: 6, tick_modifier: None::<TickModifier> },
        0xd8 => Opcode { code: 0xd8, mnemonic: Mnemonic::Other, mode: AddressingMode::NoneAddressing, size: 1, tick: 2, tick_modifier: None::<TickModifier> },
        0xd9 => Opcode { code: 0xd9, mnemonic: Mnemonic::Other, mode: AddressingMode::AbsoluteY, size: 3, tick: 4, tick_modifier: Some(TickModifier::PageCrossed) },
        0xda => Opcode { code: 0xda, mnemonic: Mnemonic::Other, mode: AddressingMode::NoneAddressing, size: 1, tick: 2, tick_modifier: None::<TickModifier> },
        0xdb => Opcode { code: 0xdb, mnemonic: Mnemonic::Other, mode: AddressingMode::AbsoluteY, size: 3, tick: 7, tick_modifier: None::<TickModifier> },
        0xdc => Opcode { code: 0xdc, mnemonic: Mnemonic::Other, mode: AddressingMode::AbsoluteX, size: 3, tick: 4, tick_modifier: Some(TickModifier::PageCrossed) },
        0xdd => Opcode { code: 0xdd, mnemonic: Mnemonic::Other, mode: AddressingMode::AbsoluteX, size: 3, tick: 4, tick_modifier: Some(TickModifier::PageCrossed) },
        0xde => Opcode { code: 0xde, mnemonic: Mnemonic::Other, mode: AddressingMode::AbsoluteX, size: 3, tick: 7, tick_modifier: None::<TickModifier> },
        0xdf => Opcode { code: 0xdf, mnemonic: Mnemonic::Other, mode: AddressingMode::AbsoluteX, size: 3, tick: 7, tick_modifier: None::<TickModifier> },
        0xe0 => Opcode { code: 0xe0, mnemonic: Mnemonic::Other, mode: AddressingMode::Immediate, size: 2, tick: 2, tick_modifier: None::<TickModifier> },
        0xe1 => Opcode { code: 0xe1, mnemonic: Mnemonic::Other, mode: AddressingMode::IndirectX, size: 2, tick: 6, tick_modifier: None::<TickModifier> },
        0xe2 => Opcode { code: 0xe2, mnemonic: Mnemonic::Other, mode: AddressingMode::Immediate, size: 2, tick: 2, tick_modifier: None::<TickModifier> },
        0xe3 => Opcode { code: 0xe3, mnemonic: Mnemonic::Other, mode: AddressingMode::IndirectX, size: 2, tick: 8, tick_modifier: None::<TickModifier> },
        0xe4 => Opcode { code: 0xe4, mnemonic: Mnemonic::Other, mode: AddressingMode::ZeroPage, size: 2, tick: 3, tick_modifier: None::<TickModifier> },
        0xe5 => Opcode { code: 0xe5, mnemonic: Mnemonic::Other, mode: AddressingMode::ZeroPage, size: 2, tick: 3, tick_modifier: None::<TickModifier> },
        0xe6 => Opcode { code: 0xe6, mnemonic: Mnemonic::Other, mode: AddressingMode::ZeroPage, size: 2, tick: 5, tick_modifier: None::<TickModifier> },
        0xe7 => Opcode { code: 0xe7, mnemonic: Mnemonic::Other, mode: AddressingMode::ZeroPage, size: 2, tick: 5, tick_modifier: None::<TickModifier> },
        0xe8 => Opcode { code: 0xe8, mnemonic: Mnemonic::Inx, mode: AddressingMode::NoneAddressing, size: 1, tick: 2, tick_modifier: None::<TickModifier> },
        0xe9 => Opcode { code: 0xe9, mnemonic: Mnemonic::Other, mode: AddressingMode::Immediate, size: 2, tick: 2, tick_modifier: None::<TickModifier> },
        0xea => Opcode { code: 0xea, mnemonic: Mnemonic::Nop, mode: AddressingMode::NoneAddressing, size: 1, tick: 2, tick_modifier: None::<TickModifier> },
        0xeb => Opcode { code: 0xeb, mnemonic: Mnemonic::Other, mode: AddressingMode::Immediate, size: 2, tick: 2, tick_modifier: None::<TickModifier> },
        0xec => Opcode { code: 0xec, mnemonic: Mnemonic::Other, mode: AddressingMode::Absolute, size: 3, tick: 4, tick_modifier: None::<TickModifier> },
        0xed => Opcode { code: 0xed, mnemonic: Mnemonic::Other, mode: AddressingMode::Absolute, size: 3, tick: 4, tick_modifier: None::<TickModifier> },
        0xee => Opcode { code: 0xee, mnemonic: Mnemonic::Other, mode: AddressingMode::Absolute, size: 3, tick: 6, tick_modifier: None::<TickModifier> },
        0xef => Opcode { code: 0xef, mnemonic: Mnemonic::Other, mode: AddressingMode::Absolute, size: 3, tick: 6, tick_modifier: None::<TickModifier> },
        0xf0 => Opcode { code: 0xf0, mnemonic: Mnemonic::Beq, mode: AddressingMode::Relative, size: 2, tick: 2, tick_modifier: Some(TickModifier::Branch) },
        0xf1 => Opcode { code: 0xf1, mnemonic: Mnemonic::Other, mode: AddressingMode::IndirectY, size: 2, tick: 5, tick_modifier: Some(TickModifier::PageCrossed) },
        0xf3 => Opcode { code: 0xf3, mnemonic: Mnemonic::Other, mode: AddressingMode::IndirectY, size: 2, tick: 8, tick_modifier: None::<TickModifier> },
        0xf4 => Opcode { code: 0xf4, mnemonic: Mnemonic::Other, mode: AddressingMode::ZeroPageX, size: 2, tick: 4, tick_modifier: None::<TickModifier> },
        0xf5 => Opcode { code: 0xf5, mnemonic: Mnemonic::Other, mode: AddressingMode::ZeroPageX, size: 2, tick: 4, tick_modifier: None::<TickModifier> },
        0xf6 => Opcode { code: 0xf6, mnemonic: Mnemonic::Other, mode: AddressingMode::ZeroPageX, size: 2, tick: 6, tick_modifier: None::<TickModifier> },
        0xf7 => Opcode { code: 0xf7, mnemonic: Mnemonic::Other, mode: AddressingMode::ZeroPageX, size: 2, tick: 6, tick_modifier: None::<TickModifier> },
        0xf8 => Opcode { code: 0xf8, mnemonic: Mnemonic::Other, mode: AddressingMode::NoneAddressing, size: 1, tick: 2, tick_modifier: None::<TickModifier> },
        0xf9 => Opcode { code: 0xf9, mnemonic: Mnemonic::Other, mode: AddressingMode::AbsoluteY, size: 3, tick: 4, tick_modifier: Some(TickModifier::PageCrossed) },
        0xfa => Opcode { code: 0xfa, mnemonic: Mnemonic::Other, mode: AddressingMode::NoneAddressing, size: 1, tick: 2, tick_modifier: None::<TickModifier> },
        0xfb => Opcode { code: 0xfb, mnemonic: Mnemonic::Other, mode: AddressingMode::AbsoluteY, size: 3, tick: 7, tick_modifier: None::<TickModifier> },
        0xfc => Opcode { code: 0xfc, mnemonic: Mnemonic::Other, mode: AddressingMode::AbsoluteX, size: 3, tick: 4, tick_modifier: Some(TickModifier::PageCrossed) },
        0xfd => Opcode { code: 0xfd, mnemonic: Mnemonic::Other, mode: AddressingMode::AbsoluteX, size: 3, tick: 4, tick_modifier: Some(TickModifier::PageCrossed) },
        0xfe => Opcode { code: 0xfe, mnemonic: Mnemonic::Other, mode: AddressingMode::AbsoluteX, size: 3, tick: 7, tick_modifier: None::<TickModifier> },
        0xff => Opcode { code: 0xff, mnemonic: Mnemonic::Other, mode: AddressingMode::AbsoluteX, size: 3, tick: 7, tick_modifier: None::<TickModifier> },
        _ => Opcode { code, mnemonic: Mnemonic::Undefined, mode: AddressingMode::NoneAddressing, size: 1, tick: 0, tick_modifier: None::<TickModifier> },
    }
}

} // verus!
