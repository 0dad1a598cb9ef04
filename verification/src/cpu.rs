//! The CPU core: registers plus bus, driven one instruction step at a time.
//! Every step is proved equal to `model::step_spec` on the machine's
//! mathematical view.

use vstd::prelude::*;

use crate::bus::{self, Bus};
use crate::flags::{self, Flags};
use crate::model::{
    self, branch_spec, branch_taken, brk_spec, decodable, dispatch_spec, flags_updated, halted,
    loaded_mem, operand_extra_cycles, operand_spec, page_crossed, run_n, runs_freely, step_spec,
    Machine,
};
use crate::opcode::{self, AddressingMode, Mnemonic, Opcode, Operand, TickModifier};

verus! {

/// The register file.
#[derive(Clone, Copy, Debug, PartialEq, Eq, Structural)]
pub struct Registers {
    /// Program counter. 16-bit address arithmetic on it wraps, per 6502
    /// convention.
    pub pc: u16,
    /// Stack pointer, modeled as a full 16-bit address seeded to 0x01ff with
    /// a plain decrement-after-write discipline (no page-1 wraparound); the
    /// decrement wraps at zero rather than aborting.
    pub sp: u16,
    pub x: u8,
    pub y: u8,
    pub a: u8,
    pub p: Flags,
}

impl Registers {
    /// Fresh register file: everything zero but the stack pointer.
    pub fn new() -> (r: Registers)
        ensures
            r.pc == 0,
            r.sp == 0x01ff,
            r.x == 0,
            r.y == 0,
            r.a == 0,
            r.p.bits == 0,
    {
        Registers { pc: 0, sp: 0x01ff, x: 0, y: 0, a: 0, p: Flags::empty() }
    }
}

/// The one terminal error of the core: the opcode byte at `pc` is one of the
/// processor-jamming bytes, so it cannot be decoded at all. (A
/// recognized but unimplemented opcode is not an error: it executes as a
/// timing-accurate no-op.)
#[derive(Clone, Copy, Debug, PartialEq, Eq, Structural)]
pub enum StepError {
    UnrecognizedOpcode(u8),
}

/// One `run` call drives at most this many steps. The bound lies far beyond
/// any physically reachable count; it exists so the stepping loop provably
/// ends even for a program that never sets BREAK.
pub const RUN_STEP_LIMIT: u64 = 0xffff_ffff_ffff_ffff;

/// What `run` (and `load_and_run`) promise: the final state is reached from
/// `m0` by some number of fully-executed steps, and the loop stopped on the
/// BREAK flag, on the first undecodable opcode byte, or — in principle only —
/// on the step budget.
pub open spec fn run_result(m0: Machine, mf: Machine, r: Result<(), StepError>) -> bool {
    match r {
        Ok(()) => exists|n: nat|
            n <= RUN_STEP_LIMIT && runs_freely(m0, n) && mf == #[trigger] run_n(m0, n) && (halted(
                mf,
            ) || n == RUN_STEP_LIMIT),
        Err(e) => exists|n: nat|
            runs_freely(m0, n) && mf == #[trigger] run_n(m0, n) && !halted(mf) && !decodable(mf)
                && e == StepError::UnrecognizedOpcode(mf.mem[mf.pc as int]),
    }
}

/// The CPU core: owns the register file and the bus, and accumulates the
/// cycle count.
pub struct CPU {
    pub reg: Registers,
    pub bus: Bus,
    pub cycle: u32,
}

impl View for CPU {
    type V = Machine;

    open spec fn view(&self) -> Machine {
        Machine {
            pc: self.reg.pc,
            sp: self.reg.sp,
            a: self.reg.a,
            x: self.reg.x,
            y: self.reg.y,
            p: self.reg.p.bits,
            cycle: self.cycle,
            mem: self.bus@,
        }
    }
}

impl CPU {
    /// The bus covers the whole address space, so every fetch is in range.
    pub open spec fn wf(&self) -> bool {
        self.bus.wf()
    }

    /// A machine with zeroed memory and a fresh register file.
    pub fn new() -> (r: CPU)
        ensures
            r.wf(),
            r@.pc == 0,
            r@.sp == 0x01ff,
            r@.a == 0,
            r@.x == 0,
            r@.y == 0,
            r@.p == 0,
            r@.cycle == 0,
            r@.mem == Seq::new(bus::MEM_SIZE as nat, |i: int| 0u8),
    {
        CPU { reg: Registers::new(), bus: Bus::new(), cycle: 0 }
    }

    /// Reset: fresh registers, then `pc` taken from the reset vector. Memory
    /// and the cycle counter keep their contents.
    pub fn reset(&mut self)
        requires
            old(self).wf(),
        ensures
            final(self).wf(),
            final(self)@ == (Machine {
                pc: bus::word_at(old(self)@.mem, bus::RESET_VECTOR),
                sp: 0x01ff,
                a: 0,
                x: 0,
                y: 0,
                p: 0,
                cycle: old(self)@.cycle,
                mem: old(self)@.mem,
            }),
    {
        self.reg = Registers::new();
        self.reg.pc = self.bus.read_u16(bus::RESET_VECTOR);
    }

    /// Copy the program image into memory at `addr` and record `addr` in the
    /// reset vector, so a subsequent reset resumes there. The image must fit
    /// below the top of the address space.
    pub fn load(&mut self, program: &[u8], addr: u16)
        requires
            old(self).wf(),
            addr + program@.len() <= 0x10000,
        ensures
            final(self).wf(),
            final(self)@ == (Machine {
                mem: loaded_mem(old(self)@.mem, program@, addr),
                ..old(self)@
            }),
    {
        self.bus.write_u16(bus::RESET_VECTOR, addr);
        let ghost vecmem = self@.mem;
        let mut i: usize = 0;
        while i < program.len()
            invariant
                self.wf(),
                i <= program@.len(),
                addr + program@.len() <= 0x10000,
                self.reg == old(self).reg,
                self.cycle == old(self).cycle,
                self@.mem.len() == vecmem.len() == 0x10000,
                forall|j: int|
                    0 <= j < 0x10000 ==> self@.mem[j] == (if addr <= j < addr + i {
                        program@[j - addr]
                    } else {
                        vecmem[j]
                    }),
            decreases program@.len() - i,
        {
            self.bus.write(addr.wrapping_add(i as u16), program[i]);
            i = i + 1;
        }
        proof {
            assert(self@.mem =~= loaded_mem(old(self)@.mem, program@, addr));
        }
    }

    /// Load the program, point `pc` at the reset vector's contents (normally
    /// the load address, unless the image itself covered the vector), and run
    /// until the machine halts or hits an undecodable byte.
    pub fn load_and_run(&mut self, program: &[u8], addr: u16) -> (r: Result<(), StepError>)
        requires
            old(self).wf(),
            addr + program@.len() <= 0x10000,
        ensures
            final(self).wf(),
            ({
                let mem0 = loaded_mem(old(self)@.mem, program@, addr);
                let m0 = Machine {
                    pc: bus::word_at(mem0, bus::RESET_VECTOR),
                    mem: mem0,
                    ..old(self)@
                };
                run_result(m0, final(self)@, r)
            }),
    {
        self.load(program, addr);
        self.reg.pc = self.bus.read_u16(bus::RESET_VECTOR);
        self.run()
    }

    /// Step repeatedly until the BREAK flag is observed set; report the first
    /// undecodable opcode byte instead, if one is reached.
    #[verifier::rlimit(50)]
    pub fn run(&mut self) -> (r: Result<(), StepError>)
        requires
            old(self).wf(),
        ensures
            final(self).wf(),
            run_result(old(self)@, final(self)@, r),
    {
        let ghost start = self@;
        let mut steps: u64 = 0;
        loop
            invariant
                self.wf(),
                start == old(self)@,
                steps <= RUN_STEP_LIMIT,
                self@ == run_n(start, steps as nat),
                runs_freely(start, steps as nat),
            decreases RUN_STEP_LIMIT - steps,
        {
            if self.reg.p.contains(flags::BREAK) {
                proof {
                    assert(runs_freely(start, steps as nat) && self@ == run_n(start, steps as nat)
                        && halted(self@));
                }
                return Ok(());
            }
            if steps == RUN_STEP_LIMIT {
                proof {
                    assert(runs_freely(start, steps as nat) && self@ == run_n(
                        start,
                        steps as nat,
                    ));
                }
                return Ok(());
            }
            let ghost before = self@;
            match self.step() {
                Ok(()) => {
                    steps = steps + 1;
                    proof {
                        assert(run_n(start, steps as nat) == step_spec(
                            run_n(start, (steps - 1) as nat),
                        ));
                        assert forall|i: nat|
                            i < steps as nat implies !halted(#[trigger] run_n(start, i))
                            && decodable(run_n(start, i)) by {
                            if i < (steps - 1) as nat {
                                assert(runs_freely(start, (steps - 1) as nat));
                            } else {
                                assert(run_n(start, i) == before);
                            }
                        }
                    }
                },
                Err(e) => {
                    proof {
                        assert(runs_freely(start, steps as nat) && self@ == run_n(
                            start,
                            steps as nat,
                        ) && !halted(self@) && !decodable(self@) && e
                            == StepError::UnrecognizedOpcode(self@.mem[self@.pc as int]));
                    }
                    return Err(e);
                },
            }
        }
    }

    /// Write the pressed-key byte, if any, into the memory-mapped input-state
    /// byte, then advance the machine by one instruction.
    pub fn step_with_input(&mut self, key: Option<u8>) -> (r: Result<(), StepError>)
        requires
            old(self).wf(),
        ensures
            final(self).wf(),
            ({
                let m0 = match key {
                    Some(k) => Machine {
                        mem: old(self)@.mem.update(bus::INPUT_STATE as int, k),
                        ..old(self)@
                    },
                    None => old(self)@,
                };
                &&& (decodable(m0) ==> r is Ok && final(self)@ == step_spec(m0))
                &&& (!decodable(m0) ==> final(self)@ == m0 && r == Result::<(), StepError>::Err(
                    StepError::UnrecognizedOpcode(m0.mem[m0.pc as int]),
                ))
            }),
    {
        if let Some(k) = key {
            self.bus.set_input_state(k);
        }
        self.step()
    }

    /// The framebuffer window as packed RGBA pixels; read-only.
    pub fn framebuffer(&self) -> (r: Vec<u32>)
        requires
            self.wf(),
        ensures
            r@.len() == bus::FRAMEBUFFER_PIXELS,
            forall|i: int|
                0 <= i < bus::FRAMEBUFFER_PIXELS ==> r@[i] == bus::pixel_at(self@.mem, i),
    {
        self.bus.framebuffer()
    }

    /// One fetch-decode-execute step. An undecodable opcode byte (one that
    /// would jam a real processor) is a decode error: the machine is left
    /// untouched and the byte is reported. Every decodable byte executes
    /// exactly as `model::step_spec` says.
    pub fn step(&mut self) -> (r: Result<(), StepError>)
        requires
            old(self).wf(),
        ensures
            final(self).wf(),
            decodable(old(self)@) ==> r is Ok && final(self)@ == step_spec(old(self)@),
            !decodable(old(self)@) ==> final(self)@ == old(self)@ && r == Result::<(),
                StepError,
            >::Err(StepError::UnrecognizedOpcode(old(self)@.mem[old(self)@.pc as int])),
    {
        let code = self.bus.read(self.reg.pc);
        let op = opcode::lookup(code);
        proof {
            model::lemma_table_shape(code);
        }
        if matches!(op.mnemonic, Mnemonic::Undefined) {
            return Err(StepError::UnrecognizedOpcode(code));
        }
        self.reg.pc = self.reg.pc.wrapping_add(1);
        let pc_state = self.reg.pc;
        let ghost m1 = self@;
        match op.mnemonic {
            Mnemonic::And => self.and(&op),
            Mnemonic::Asl => self.asl(&op),
            Mnemonic::Lda => self.lda(&op),
            Mnemonic::Inx => self.inx(&op),
            Mnemonic::Dex => self.dex(&op),
            Mnemonic::Tax => self.tax(&op),
            Mnemonic::Txa => self.txa(&op),
            Mnemonic::Tay => self.tay(&op),
            Mnemonic::Tya => self.tya(&op),
            Mnemonic::Bcc => self.bcc(&op),
            Mnemonic::Bcs => self.bcs(&op),
            Mnemonic::Beq => self.beq(&op),
            Mnemonic::Bne => self.bne(&op),
            Mnemonic::Bmi => self.bmi(&op),
            Mnemonic::Bpl => self.bpl(&op),
            Mnemonic::Bvc => self.bvc(&op),
            Mnemonic::Bvs => self.bvs(&op),
            Mnemonic::Brk => self.brk(&op),
            Mnemonic::Nop => self.nop(&op),
            Mnemonic::Other => {},
            Mnemonic::Undefined => {},
        }
        proof {
            assert(self@ == dispatch_spec(m1, op));
        }
        if pc_state == self.reg.pc {
            self.reg.pc = self.reg.pc.wrapping_add((op.size - 1) as u16);
        }
        self.cycle = self.cycle.wrapping_add(op.tick as u32);
        proof {
            assert(self@ == step_spec(old(self)@));
        }
        Ok(())
    }

    /// Push one byte at the 16-bit stack pointer, then decrement it
    /// (wrapping at zero).
    fn stack_push(&mut self, byte: u8)
        requires
            old(self).wf(),
        ensures
            final(self).wf(),
            final(self)@ == (Machine {
                mem: old(self)@.mem.update(old(self)@.sp as int, byte),
                sp: old(self)@.sp.wrapping_sub(1),
                ..old(self)@
            }),
    {
        self.bus.write(self.reg.sp, byte);
        self.reg.sp = self.reg.sp.wrapping_sub(1);
    }

    /// Force the carry flag to `value`.
    pub fn set_carry_flag(&mut self, value: bool)
        ensures
            final(self)@ == (Machine { p: model::carry_set(old(self)@.p, value), ..old(self)@ }),
    {
        if value {
            self.reg.p.insert(flags::CARRY);
        } else {
            self.reg.p.remove(flags::CARRY);
        }
    }

    /// The single authority for ZERO and NEGATIVE: every result-producing
    /// handler routes its result byte through here.
    pub fn update_flags(&mut self, value: u8)
        ensures
            final(self)@ == (Machine { p: flags_updated(old(self)@.p, value), ..old(self)@ }),
    {
        match value {
            0 => self.reg.p.insert(flags::ZERO),
            _ => self.reg.p.remove(flags::ZERO),
        }
        self.update_negative_flag(value);
    }

    /// NEGATIVE tracks bit 7 of the value.
    pub fn update_negative_flag(&mut self, value: u8)
        ensures
            final(self)@ == (Machine {
                p: if value & 0x80 != 0 {
                    old(self)@.p | flags::NEGATIVE
                } else {
                    old(self)@.p & !flags::NEGATIVE
                },
                ..old(self)@
            }),
    {
        match value & 0x80 {
            0 => self.reg.p.remove(flags::NEGATIVE),
            _ => self.reg.p.insert(flags::NEGATIVE),
        }
    }

    /// Charge the page-crossing penalty from the unresolved low byte and
    /// index, and hand back the wrapped indexed address.
    fn on_tick_modifier(&mut self, lo: u8, hi: u8, byte: u8, modifier: TickModifier) -> (r:
        Operand)
        ensures
            r == Operand::Address(
                (((hi as u16) * 0x100 + lo as u16) as u16).wrapping_add(byte as u16),
            ),
            final(self)@ == (Machine {
                cycle: old(self)@.cycle.wrapping_add(
                    if page_crossed(lo, byte) {
                        1u32
                    } else {
                        0u32
                    },
                ),
                ..old(self)@
            }),
    {
        let crossed = lo as u16 + byte as u16 > 0xff;
        match (crossed, modifier) {
            (true, TickModifier::PageCrossed) => self.cycle = self.cycle.wrapping_add(1),
            (true, TickModifier::Branch) => self.cycle = self.cycle.wrapping_add(1),
            _ => {},
        }
        Operand::Address(((hi as u16) * 0x100 + lo as u16).wrapping_add(byte as u16))
    }

    /// Shared taken-branch routine: one cycle, the page-crossing penalty
    /// against the current `pc`, then the sign-extended offset added to `pc`.
    fn branch(&mut self, opcode: &Opcode)
        requires
            old(self).wf(),
            opcode.mode is Relative,
            opcode.tick_modifier == Some(TickModifier::Branch),
        ensures
            final(self).wf(),
            final(self)@ == branch_spec(old(self)@),
    {
        self.cycle = self.cycle.wrapping_add(1);
        let operand = self.get_operand(opcode);
        if let (Some(modifier), Operand::Address(addr)) = (opcode.tick_modifier, operand) {
            let off = self.bus.read(addr);
            let _ = self.on_tick_modifier(
                (self.reg.pc % 0x100) as u8,
                (self.reg.pc / 0x100) as u8,
                off,
                modifier,
            );
            let off2 = self.bus.read(addr);
            let delta: u16 = if off2 < 0x80 {
                off2 as u16
            } else {
                0xff00 + off2 as u16
            };
            self.reg.pc = self.reg.pc.wrapping_add(delta);
        }
    }

    /// Resolve the operand for `opcode`'s addressing mode from the bytes at
    /// `pc`, charging the page-crossing penalty where the opcode carries a
    /// cycle-modifier tag.
    pub fn get_operand(&mut self, opcode: &Opcode) -> (r: Operand)
        requires
            old(self).wf(),
        ensures
            final(self).wf(),
            r == operand_spec(*opcode, old(self)@.mem, old(self)@.pc, old(self)@.x, old(self)@.y),
            final(self)@ == (Machine {
                cycle: old(self)@.cycle.wrapping_add(
                    operand_extra_cycles(
                        *opcode,
                        old(self)@.mem,
                        old(self)@.pc,
                        old(self)@.x,
                        old(self)@.y,
                    ),
                ),
                ..old(self)@
            }),
    {
        match opcode.mode {
            AddressingMode::Accumulator => Operand::Accumulator,
            AddressingMode::Immediate => Operand::Address(self.reg.pc),
            AddressingMode::Relative => Operand::Address(self.reg.pc),
            AddressingMode::ZeroPage => Operand::Address(self.bus.read(self.reg.pc) as u16),
            AddressingMode::ZeroPageX => Operand::Address(
                self.bus.read(self.reg.pc).wrapping_add(self.reg.x) as u16,
            ),
            AddressingMode::ZeroPageY => Operand::Address(
                self.bus.read(self.reg.pc).wrapping_add(self.reg.y) as u16,
            ),
            AddressingMode::Absolute => Operand::Address(self.bus.read_u16(self.reg.pc)),
            AddressingMode::AbsoluteX => {
                if let Some(modifier) = opcode.tick_modifier {
                    let lo = self.bus.read(self.reg.pc);
                    let hi = self.bus.read(self.reg.pc.wrapping_add(1));
                    return self.on_tick_modifier(lo, hi, self.reg.x, modifier);
                }
                Operand::Address(self.bus.read_u16(self.reg.pc).wrapping_add(self.reg.x as u16))
            },
            AddressingMode::AbsoluteY => {
                if let Some(modifier) = opcode.tick_modifier {
                    let lo = self.bus.read(self.reg.pc);
                    let hi = self.bus.read(self.reg.pc.wrapping_add(1));
                    return self.on_tick_modifier(lo, hi, self.reg.y, modifier);
                }
                Operand::Address(self.bus.read_u16(self.reg.pc).wrapping_add(self.reg.y as u16))
            },
            AddressingMode::Indirect => Operand::Address(
                self.bus.read_u16(self.bus.read_u16(self.reg.pc)),
            ),
            AddressingMode::IndirectX => Operand::Address(
                self.bus.read_u16(self.bus.read(self.reg.pc).wrapping_add(self.reg.x) as u16),
            ),
            AddressingMode::IndirectY => {
                if let Some(modifier) = opcode.tick_modifier {
                    let ptr = self.bus.read(self.reg.pc);
                    let lo = self.bus.read(ptr as u16);
                    let hi = self.bus.read((ptr as u16).wrapping_add(1));
                    return self.on_tick_modifier(lo, hi, self.reg.y, modifier);
                }
                Operand::Address(
                    self.bus.read_u16(self.bus.read(self.reg.pc) as u16).wrapping_add(
                        self.reg.y as u16,
                    ),
                )
            },
            AddressingMode::NoneAddressing => Operand::Implied,
        }
    }

    /// Recognized no-op: nothing beyond the base cycle cost.
    pub fn nop(&self, _opcode: &Opcode) {
    }

    /// Bitwise AND into the accumulator, through the shared flag updater.
    pub fn and(&mut self, opcode: &Opcode)
        requires
            old(self).wf(),
        ensures
            final(self).wf(),
            final(self)@ == model::and_spec(old(self)@, *opcode),
    {
        if let Operand::Address(addr) = self.get_operand(opcode) {
            let v = self.reg.a & self.bus.read(addr);
            self.reg.a = v;
            self.update_flags(v);
        }
    }

    /// Arithmetic shift left on the accumulator or a bus-resident byte.
    pub fn asl(&mut self, opcode: &Opcode)
        requires
            old(self).wf(),
        ensures
            final(self).wf(),
            final(self)@ == model::asl_spec(old(self)@, *opcode),
    {
        match self.get_operand(opcode) {
            Operand::Accumulator => {
                self.set_carry_flag(self.reg.a >> 7 != 0);
                self.reg.a = self.reg.a.wrapping_shl(1);
                let v = self.reg.a;
                self.update_flags(v);
            },
            Operand::Address(addr) => {
                let v0 = self.bus.read(addr);
                self.set_carry_flag(v0 >> 7 != 0);
                self.bus.write(addr, v0.wrapping_shl(1));
                let v1 = self.bus.read(addr);
                self.update_flags(v1);
            },
            Operand::Implied => {},
        }
    }

    /// Load the accumulator from the resolved address.
    pub fn lda(&mut self, opcode: &Opcode)
        requires
            old(self).wf(),
        ensures
            final(self).wf(),
            final(self)@ == model::lda_spec(old(self)@, *opcode),
    {
        if let Operand::Address(addr) = self.get_operand(opcode) {
            let v = self.bus.read(addr);
            self.reg.a = v;
            self.update_flags(v);
        }
    }

    /// Branch when CARRY is clear.
    pub fn bcc(&mut self, opcode: &Opcode)
        requires
            old(self).wf(),
            opcode.mode is Relative,
            opcode.tick_modifier == Some(TickModifier::Branch),
        ensures
            final(self).wf(),
            final(self)@ == (if branch_taken(old(self)@.p, Mnemonic::Bcc) {
                branch_spec(old(self)@)
            } else {
                old(self)@
            }),
    {
        if !self.reg.p.contains(flags::CARRY) {
            self.branch(opcode);
        }
    }

    /// Branch when CARRY is set.
    pub fn bcs(&mut self, opcode: &Opcode)
        requires
            old(self).wf(),
            opcode.mode is Relative,
            opcode.tick_modifier == Some(TickModifier::Branch),
        ensures
            final(self).wf(),
            final(self)@ == (if branch_taken(old(self)@.p, Mnemonic::Bcs) {
                branch_spec(old(self)@)
            } else {
                old(self)@
            }),
    {
        if self.reg.p.contains(flags::CARRY) {
            self.branch(opcode);
        }
    }

    /// Branch when ZERO is set.
    pub fn beq(&mut self, opcode: &Opcode)
        requires
            old(self).wf(),
            opcode.mode is Relative,
            opcode.tick_modifier == Some(TickModifier::Branch),
        ensures
            final(self).wf(),
            final(self)@ == (if branch_taken(old(self)@.p, Mnemonic::Beq) {
                branch_spec(old(self)@)
            } else {
                old(self)@
            }),
    {
        if self.reg.p.contains(flags::ZERO) {
            self.branch(opcode);
        }
    }

    /// Branch when ZERO is clear.
    pub fn bne(&mut self, opcode: &Opcode)
        requires
            old(self).wf(),
            opcode.mode is Relative,
            opcode.tick_modifier == Some(TickModifier::Branch),
        ensures
            final(self).wf(),
            final(self)@ == (if branch_taken(old(self)@.p, Mnemonic::Bne) {
                branch_spec(old(self)@)
            } else {
                old(self)@
            }),
    {
        if !self.reg.p.contains(flags::ZERO) {
            self.branch(opcode);
        }
    }

    /// Branch when NEGATIVE is set.
    pub fn bmi(&mut self, opcode: &Opcode)
        requires
            old(self).wf(),
            opcode.mode is Relative,
            opcode.tick_modifier == Some(TickModifier::Branch),
        ensures
            final(self).wf(),
            final(self)@ == (if branch_taken(old(self)@.p, Mnemonic::Bmi) {
                branch_spec(old(self)@)
            } else {
                old(self)@
            }),
    {
        if self.reg.p.contains(flags::NEGATIVE) {
            self.branch(opcode);
        }
    }

    /// Branch when NEGATIVE is clear.
    pub fn bpl(&mut self, opcode: &Opcode)
        requires
            old(self).wf(),
            opcode.mode is Relative,
            opcode.tick_modifier == Some(TickModifier::Branch),
        ensures
            final(self).wf(),
            final(self)@ == (if branch_taken(old(self)@.p, Mnemonic::Bpl) {
                branch_spec(old(self)@)
            } else {
                old(self)@
            }),
    {
        if !self.reg.p.contains(flags::NEGATIVE) {
            self.branch(opcode);
        }
    }

    /// Branch when OVERFLOW is clear.
    pub fn bvc(&mut self, opcode: &Opcode)
        requires
            old(self).wf(),
            opcode.mode is Relative,
            opcode.tick_modifier == Some(TickModifier::Branch),
        ensures
            final(self).wf(),
            final(self)@ == (if branch_taken(old(self)@.p, Mnemonic::Bvc) {
                branch_spec(old(self)@)
            } else {
                old(self)@
            }),
    {
        if !self.reg.p.contains(flags::OVERFLOW) {
            self.branch(opcode);
        }
    }

    /// Branch when OVERFLOW is set.
    pub fn bvs(&mut self, opcode: &Opcode)
        requires
            old(self).wf(),
            opcode.mode is Relative,
            opcode.tick_modifier == Some(TickModifier::Branch),
        ensures
            final(self).wf(),
            final(self)@ == (if branch_taken(old(self)@.p, Mnemonic::Bvs) {
                branch_spec(old(self)@)
            } else {
                old(self)@
            }),
    {
        if self.reg.p.contains(flags::OVERFLOW) {
            self.branch(opcode);
        }
    }

    /// Software break: set BREAK, push `pc + 2` high byte then low byte, push
    /// the packed flags, then load `pc` from the interrupt vector.
    pub fn brk(&mut self, _opcode: &Opcode)
        requires
            old(self).wf(),
        ensures
            final(self).wf(),
            final(self)@ == brk_spec(old(self)@),
    {
        self.reg.p.insert(flags::BREAK);
        let ret = self.reg.pc.wrapping_add(2);
        self.stack_push((ret / 0x100) as u8);
        self.stack_push((ret % 0x100) as u8);
        self.stack_push(self.reg.p.to_byte());
        self.reg.pc = self.bus.read_u16(bus::IRQ_VECTOR);
    }

    /// Increment X, through the shared flag updater.
    pub fn inx(&mut self, _opcode: &Opcode)
        ensures
            final(self)@ == (Machine {
                x: old(self)@.x.wrapping_add(1),
                p: flags_updated(old(self)@.p, old(self)@.x.wrapping_add(1)),
                ..old(self)@
            }),
    {
        self.reg.x = self.reg.x.wrapping_add(1);
        let v = self.reg.x;
        self.update_flags(v);
    }

    /// Decrement X, through the shared flag updater.
    pub fn dex(&mut self, _opcode: &Opcode)
        ensures
            final(self)@ == (Machine {
                x: old(self)@.x.wrapping_sub(1),
                p: flags_updated(old(self)@.p, old(self)@.x.wrapping_sub(1)),
                ..old(self)@
            }),
    {
        self.reg.x = self.reg.x.wrapping_sub(1);
        let v = self.reg.x;
        self.update_flags(v);
    }

    /// Transfer A to X.
    pub fn tax(&mut self, _opcode: &Opcode)
        ensures
            final(self)@ == (Machine {
                x: old(self)@.a,
                p: flags_updated(old(self)@.p, old(self)@.a),
                ..old(self)@
            }),
    {
        self.reg.x = self.reg.a;
        let v = self.reg.x;
        self.update_flags(v);
    }

    /// Transfer X to A.
    pub fn txa(&mut self, _opcode: &Opcode)
        ensures
            final(self)@ == (Machine {
                a: old(self)@.x,
                p: flags_updated(old(self)@.p, old(self)@.x),
                ..old(self)@
            }),
    {
        self.reg.a = self.reg.x;
        let v = self.reg.a;
        self.update_flags(v);
    }

    /// Transfer A to Y.
    pub fn tay(&mut self, _opcode: &Opcode)
        ensures
            final(self)@ == (Machine {
                y: old(self)@.a,
                p: flags_updated(old(self)@.p, old(self)@.a),
                ..old(self)@
            }),
    {
        self.reg.y = self.reg.a;
        let v = self.reg.y;
        self.update_flags(v);
    }

    /// Transfer Y to A.
    pub fn tya(&mut self, _opcode: &Opcode)
        ensures
            final(self)@ == (Machine {
                a: old(self)@.y,
                p: flags_updated(old(self)@.p, old(self)@.y),
                ..old(self)@
            }),
    {
        self.reg.a = self.reg.y;
        let v = self.reg.a;
        self.update_flags(v);
    }
}

} // verus!
