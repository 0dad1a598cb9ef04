//! The mathematical model of the machine: a ghost record of the register
//! file, cycle counter and memory, and the specification of one
//! fetch-decode-execute step over it. The executable core in `cpu` is
//! verified against `step_spec`.

use vstd::prelude::*;

use crate::bus;
use crate::flags;
use crate::opcode::{opcode_spec, AddressingMode, Mnemonic, Opcode, Operand, TickModifier};

verus! {

/// The whole machine state as plain mathematical values.
#[verifier::ext_equal]
pub ghost struct Machine {
    pub pc: u16,
    pub sp: u16,
    pub a: u8,
    pub x: u8,
    pub y: u8,
    /// The packed status byte.
    pub p: u8,
    pub cycle: u32,
    pub mem: Seq<u8>,
}

impl Machine {
    /// The memory covers the whole 16-bit address space.
    pub open spec fn wf(self) -> bool {
        self.mem.len() == bus::MEM_SIZE
    }
}

/// The shared flag-update policy: ZERO tracks whether the result byte is
/// exactly zero, NEGATIVE tracks its bit 7; the other bits keep their value.
pub open spec fn flags_updated(p: u8, v: u8) -> u8 {
    let p1 = if v == 0 {
        p | flags::ZERO
    } else {
        p & !flags::ZERO
    };
    if v & 0x80 != 0 {
        p1 | flags::NEGATIVE
    } else {
        p1 & !flags::NEGATIVE
    }
}

/// The carry bit forced to `value`, the other bits kept.
pub open spec fn carry_set(p: u8, value: bool) -> u8 {
    if value {
        p | flags::CARRY
    } else {
        p & !flags::CARRY
    }
}

/// An 8-bit addition in address computation overflows past a 256-byte
/// boundary; the page-crossing cycle penalty is charged from the unresolved
/// low byte and index, not from the wrapped final address.
pub open spec fn page_crossed(lo: u8, idx: u8) -> bool {
    lo + idx > 0xff
}

/// A relative branch offset, sign-extended to 16 bits.
pub open spec fn sign_ext(off: u8) -> u16 {
    if off < 0x80 {
        off as u16
    } else {
        (0xff00 + off) as u16
    }
}

/// Operand resolution per addressing mode, from the byte(s) at `pc` (the
/// program counter already advanced past the opcode byte itself).
pub open spec fn operand_spec(op: Opcode, mem: Seq<u8>, pc: u16, x: u8, y: u8) -> Operand {
    match op.mode {
        AddressingMode::Accumulator => Operand::Accumulator,
        AddressingMode::Immediate => Operand::Address(pc),
        AddressingMode::Relative => Operand::Address(pc),
        AddressingMode::ZeroPage => Operand::Address(mem[pc as int] as u16),
        AddressingMode::ZeroPageX => Operand::Address(mem[pc as int].wrapping_add(x) as u16),
        AddressingMode::ZeroPageY => Operand::Address(mem[pc as int].wrapping_add(y) as u16),
        AddressingMode::Absolute => Operand::Address(bus::word_at(mem, pc)),
        AddressingMode::AbsoluteX => Operand::Address(bus::word_at(mem, pc).wrapping_add(x as u16)),
        AddressingMode::AbsoluteY => Operand::Address(bus::word_at(mem, pc).wrapping_add(y as u16)),
        AddressingMode::Indirect => Operand::Address(bus::word_at(mem, bus::word_at(mem, pc))),
        AddressingMode::IndirectX => Operand::Address(
            bus::word_at(mem, mem[pc as int].wrapping_add(x) as u16),
        ),
        AddressingMode::IndirectY => Operand::Address(
            bus::word_at(mem, mem[pc as int] as u16).wrapping_add(y as u16),
        ),
        AddressingMode::NoneAddressing => Operand::Implied,
    }
}

/// The extra cycle charged during operand resolution: one cycle when the
/// opcode carries a cycle-modifier tag and the indexed low-byte addition
/// crosses a page boundary.
pub open spec fn operand_extra_cycles(op: Opcode, mem: Seq<u8>, pc: u16, x: u8, y: u8) -> u32 {
    match op.mode {
        AddressingMode::AbsoluteX => {
            if op.tick_modifier is Some && page_crossed(mem[pc as int], x) {
                1
            } else {
                0
            }
        },
        AddressingMode::AbsoluteY => {
            if op.tick_modifier is Some && page_crossed(mem[pc as int], y) {
                1
            } else {
                0
            }
        },
        AddressingMode::IndirectY => {
            if op.tick_modifier is Some && page_crossed(mem[mem[pc as int] as int], y) {
                1
            } else {
                0
            }
        },
        _ => 0,
    }
}

/// `m` after operand resolution alone: only the cycle counter can move.
pub open spec fn after_operand(m: Machine, op: Opcode) -> Machine {
    Machine { cycle: m.cycle.wrapping_add(operand_extra_cycles(op, m.mem, m.pc, m.x, m.y)), ..m }
}

/// Load-accumulator: the byte at the resolved address flows into `a` and
/// through the shared flag updater.
pub open spec fn lda_spec(m: Machine, op: Opcode) -> Machine {
    let mc = after_operand(m, op);
    match operand_spec(op, m.mem, m.pc, m.x, m.y) {
        Operand::Address(addr) => {
            let v = m.mem[addr as int];
            Machine { a: v, p: flags_updated(mc.p, v), ..mc }
        },
        _ => mc,
    }
}

/// Bitwise AND of the accumulator with the byte at the resolved address.
pub open spec fn and_spec(m: Machine, op: Opcode) -> Machine {
    let mc = after_operand(m, op);
    match operand_spec(op, m.mem, m.pc, m.x, m.y) {
        Operand::Address(addr) => {
            let v = m.a & m.mem[addr as int];
            Machine { a: v, p: flags_updated(mc.p, v), ..mc }
        },
        _ => mc,
    }
}

/// Arithmetic shift left: the previous bit 7 becomes the carry, the shifted
/// byte flows through the shared flag updater, and it lands either in the
/// accumulator or back at the resolved address.
pub open spec fn asl_spec(m: Machine, op: Opcode) -> Machine {
    let mc = after_operand(m, op);
    match operand_spec(op, m.mem, m.pc, m.x, m.y) {
        Operand::Accumulator => {
            let p1 = carry_set(mc.p, m.a >> 7 != 0);
            let v = m.a.wrapping_shl(1);
            Machine { a: v, p: flags_updated(p1, v), ..mc }
        },
        Operand::Address(addr) => {
            let old_v = m.mem[addr as int];
            let p1 = carry_set(mc.p, old_v >> 7 != 0);
            let v = old_v.wrapping_shl(1);
            Machine { mem: m.mem.update(addr as int, v), p: flags_updated(p1, v), ..mc }
        },
        Operand::Implied => mc,
    }
}

/// Which flag, with which polarity, gates each conditional branch.
pub open spec fn branch_taken(p: u8, mn: Mnemonic) -> bool {
    match mn {
        Mnemonic::Bcc => !flags::flag_set(p, flags::CARRY),
        Mnemonic::Bcs => flags::flag_set(p, flags::CARRY),
        Mnemonic::Beq => flags::flag_set(p, flags::ZERO),
        Mnemonic::Bne => !flags::flag_set(p, flags::ZERO),
        Mnemonic::Bmi => flags::flag_set(p, flags::NEGATIVE),
        Mnemonic::Bpl => !flags::flag_set(p, flags::NEGATIVE),
        Mnemonic::Bvc => !flags::flag_set(p, flags::OVERFLOW),
        Mnemonic::Bvs => flags::flag_set(p, flags::OVERFLOW),
        _ => false,
    }
}

/// Whether `mn` is one of the eight conditional branches.
pub open spec fn is_branch(mn: Mnemonic) -> bool {
    match mn {
        Mnemonic::Bcc | Mnemonic::Bcs | Mnemonic::Beq | Mnemonic::Bne | Mnemonic::Bmi
            | Mnemonic::Bpl | Mnemonic::Bvc | Mnemonic::Bvs => true,
        _ => false,
    }
}

/// A taken branch: one cycle charged unconditionally, one more when the
/// current program counter's low byte plus the offset crosses a page
/// boundary, then the sign-extended offset added to `pc` with wraparound.
pub open spec fn branch_spec(m: Machine) -> Machine {
    let off = m.mem[m.pc as int];
    let extra: u32 = if page_crossed((m.pc % 0x100) as u8, off) {
        1
    } else {
        0
    };
    Machine {
        pc: m.pc.wrapping_add(sign_ext(off)),
        cycle: m.cycle.wrapping_add(1).wrapping_add(extra),
        ..m
    }
}

/// Software break: set BREAK, push the high then low byte of `pc + 2`, push
/// the packed flags byte (decrement-after-write on the 16-bit `sp`, wrapping
/// at zero), then load `pc` from the interrupt vector.
pub open spec fn brk_spec(m: Machine) -> Machine {
    let p1 = m.p | flags::BREAK;
    let ret = m.pc.wrapping_add(2);
    let mem1 = m.mem.update(m.sp as int, (ret / 0x100) as u8);
    let sp1 = m.sp.wrapping_sub(1);
    let mem2 = mem1.update(sp1 as int, (ret % 0x100) as u8);
    let sp2 = sp1.wrapping_sub(1);
    let mem3 = mem2.update(sp2 as int, p1);
    Machine {
        p: p1,
        mem: mem3,
        sp: sp2.wrapping_sub(1),
        pc: bus::word_at(mem3, bus::IRQ_VECTOR),
        ..m
    }
}

/// Effect of the handler selected by the mnemonic, on a machine whose `pc`
/// has already been advanced past the opcode byte. `Other` is the
/// recognized-but-unimplemented case: a no-op beyond the base cycle cost.
pub open spec fn dispatch_spec(m: Machine, op: Opcode) -> Machine {
    match op.mnemonic {
        Mnemonic::And => and_spec(m, op),
        Mnemonic::Asl => asl_spec(m, op),
        Mnemonic::Lda => lda_spec(m, op),
        Mnemonic::Inx => {
            let v = m.x.wrapping_add(1);
            Machine { x: v, p: flags_updated(m.p, v), ..m }
        },
        Mnemonic::Dex => {
            let v = m.x.wrapping_sub(1);
            Machine { x: v, p: flags_updated(m.p, v), ..m }
        },
        Mnemonic::Tax => Machine { x: m.a, p: flags_updated(m.p, m.a), ..m },
        Mnemonic::Txa => Machine { a: m.x, p: flags_updated(m.p, m.x), ..m },
        Mnemonic::Tay => Machine { y: m.a, p: flags_updated(m.p, m.a), ..m },
        Mnemonic::Tya => Machine { a: m.y, p: flags_updated(m.p, m.y), ..m },
        Mnemonic::Bcc | Mnemonic::Bcs | Mnemonic::Beq | Mnemonic::Bne | Mnemonic::Bmi
            | Mnemonic::Bpl | Mnemonic::Bvc | Mnemonic::Bvs => {
            if branch_taken(m.p, op.mnemonic) {
                branch_spec(m)
            } else {
                m
            }
        },
        Mnemonic::Brk => brk_spec(m),
        Mnemonic::Nop => m,
        Mnemonic::Other => m,
        Mnemonic::Undefined => m,
    }
}

/// One full fetch-decode-execute step: fetch the opcode byte at `pc`,
/// advance `pc` past it, dispatch, skip the consumed operand bytes unless the
/// handler itself moved `pc`, and charge the base cycle cost.
pub open spec fn step_spec(m: Machine) -> Machine {
    let code = m.mem[m.pc as int];
    let op = opcode_spec(code);
    let m1 = Machine { pc: m.pc.wrapping_add(1), ..m };
    let m2 = dispatch_spec(m1, op);
    let m3 = if m2.pc == m1.pc {
        Machine { pc: m2.pc.wrapping_add((op.size - 1) as u16), ..m2 }
    } else {
        m2
    };
    Machine { cycle: m3.cycle.wrapping_add(op.tick as u32), ..m3 }
}

/// The machine is halted once the BREAK flag is observed set.
pub open spec fn halted(m: Machine) -> bool {
    flags::flag_set(m.p, flags::BREAK)
}

/// The opcode byte under the program counter decodes.
pub open spec fn decodable(m: Machine) -> bool {
    crate::opcode::is_defined(m.mem[m.pc as int])
}

/// `m` after `n` consecutive steps.
pub open spec fn run_n(m: Machine, n: nat) -> Machine
    decreases n,
{
    if n == 0 {
        m
    } else {
        step_spec(run_n(m, (n - 1) as nat))
    }
}

/// The first `n` states of the trace from `m` are neither halted nor stuck
/// on an undecodable byte, so `n` steps actually execute.
pub open spec fn runs_freely(m: Machine, n: nat) -> bool {
    forall|i: nat|
        i < n ==> !halted(#[trigger] run_n(m, i)) && decodable(run_n(m, i))
}

/// Structural facts about the opcode table that the core leans on: sizes lie
/// in 1..=3, each entry records its own byte, and every branch entry uses the
/// relative mode with the branch cycle-modifier tag.
pub proof fn lemma_table_shape(code: u8)
    ensures
        1 <= opcode_spec(code).size <= 3,
        opcode_spec(code).code == code,
        is_branch(opcode_spec(code).mnemonic) ==> opcode_spec(code).mode is Relative
            && opcode_spec(code).tick_modifier == Some(TickModifier::Branch) && opcode_spec(
            code,
        ).size == 2 && opcode_spec(code).tick == 2,
{
    reveal(opcode_spec);
}

/// Memory after `load`: the program bytes copied in at `addr` and the start
/// address recorded little-endian in the reset vector (a program that covers
/// the vector overrides it, since the copy happens after the vector write).
pub open spec fn loaded_mem(mem: Seq<u8>, prog: Seq<u8>, addr: u16) -> Seq<u8> {
    Seq::new(
        mem.len(),
        |i: int|
            if addr <= i < addr + prog.len() {
                prog[i - addr]
            } else if i == bus::RESET_VECTOR {
                (addr % 0x100) as u8
            } else if i == bus::RESET_VECTOR + 1 {
                (addr / 0x100) as u8
            } else {
                mem[i]
            },
    )
}

} // verus!
