//! Instruction-level emulator for a MOS-6502-class processor.
//!
//! The crate models a register/flag file, a flat 64 KiB memory bus with a
//! memory-mapped framebuffer window and input-state byte, a fully populated
//! opcode-metadata table, and a fetch-decode-execute core that resolves
//! operands per addressing mode and tracks cycle cost, including
//! page-crossing and branch penalties.

pub mod flags;
pub mod bus;
pub mod opcode;
pub mod model;
pub mod cpu;
pub mod laws;
pub mod messages;
