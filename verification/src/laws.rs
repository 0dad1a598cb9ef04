//! The general laws of the core, each proved once and for all over the
//! machine model: the shared flag-update policy, the page-crossing and
//! branch cycle accounting, and the `BRK` stack discipline.

use vstd::prelude::*;

use crate::bus;
use crate::flags;
use crate::model::{
    branch_taken, flags_updated, is_branch, lemma_table_shape, page_crossed, step_spec, Machine,
};
use crate::opcode::opcode_spec;

verus! {

/// For every byte passed through the shared flag updater, ZERO ends set iff
/// the byte is zero and NEGATIVE ends set iff its bit 7 is set — whatever the
/// prior flag state — and every other status bit keeps its value.
pub proof fn lemma_flag_update_policy(p: u8, v: u8)
    ensures
        flags::flag_set(flags_updated(p, v), flags::ZERO) <==> v == 0,
        flags::flag_set(flags_updated(p, v), flags::NEGATIVE) <==> v & 0x80 != 0,
        flags_updated(p, v) & 0x7d == p & 0x7d,
{
    if v == 0 {
        assert(v & 0x80 == 0) by (bit_vector)
            requires
                v == 0,
        ;
        assert(flags_updated(p, v) == (p | 0x02u8) & !0x80u8);
        assert(((p | 0x02u8) & !0x80u8) & 0x02u8 == 0x02u8) by (bit_vector);
        assert(((p | 0x02u8) & !0x80u8) & 0x80u8 != 0x80u8) by (bit_vector);
        assert(((p | 0x02u8) & !0x80u8) & 0x7du8 == p & 0x7du8) by (bit_vector);
    } else if v & 0x80 != 0 {
        assert(flags_updated(p, v) == (p & !0x02u8) | 0x80u8);
        assert(((p & !0x02u8) | 0x80u8) & 0x02u8 != 0x02u8) by (bit_vector);
        assert(((p & !0x02u8) | 0x80u8) & 0x80u8 == 0x80u8) by (bit_vector);
        assert(((p & !0x02u8) | 0x80u8) & 0x7du8 == p & 0x7du8) by (bit_vector);
    } else {
        assert(flags_updated(p, v) == (p & !0x02u8) & !0x80u8);
        assert(((p & !0x02u8) & !0x80u8) & 0x02u8 != 0x02u8) by (bit_vector);
        assert(((p & !0x02u8) & !0x80u8) & 0x80u8 != 0x80u8) by (bit_vector);
        assert(((p & !0x02u8) & !0x80u8) & 0x7du8 == p & 0x7du8) by (bit_vector);
    }
}

/// Cycle cost of `LDA` absolute,X: the base four cycles, plus exactly one
/// more when adding X to the operand's low byte crosses a page boundary.
pub proof fn lemma_lda_absolute_x_page_cross(m: Machine)
    requires
        m.wf(),
        m.mem[m.pc as int] == 0xbd,
    ensures
        ({
            let lo = m.mem[m.pc.wrapping_add(1) as int];
            &&& page_crossed(lo, m.x) ==> step_spec(m).cycle == m.cycle.wrapping_add(5)
            &&& !page_crossed(lo, m.x) ==> step_spec(m).cycle == m.cycle.wrapping_add(4)
        }),
{
    reveal(opcode_spec);
}

/// Cycle cost of every conditional branch: the base two cycles when not
/// taken; one more when taken; and yet one more when the taken branch's
/// offset, added to the low byte of the address after the opcode byte,
/// crosses a page boundary.
pub proof fn lemma_branch_cycles(m: Machine)
    requires
        m.wf(),
        is_branch(opcode_spec(m.mem[m.pc as int]).mnemonic),
    ensures
        ({
            let mn = opcode_spec(m.mem[m.pc as int]).mnemonic;
            let pcf = m.pc.wrapping_add(1);
            let crossed = page_crossed((pcf % 0x100) as u8, m.mem[pcf as int]);
            &&& !branch_taken(m.p, mn) ==> step_spec(m).cycle == m.cycle.wrapping_add(2)
            &&& branch_taken(m.p, mn) && !crossed ==> step_spec(m).cycle == m.cycle.wrapping_add(3)
            &&& branch_taken(m.p, mn) && crossed ==> step_spec(m).cycle == m.cycle.wrapping_add(4)
        }),
{
    lemma_table_shape(m.mem[m.pc as int]);
}

/// `BRK` pushes exactly three bytes — the high byte of `pc + 2`, then its low
/// byte, then the packed flags with BREAK set, in that order down the stack —
/// and leaves `pc` holding the word stored at the interrupt vector.
pub proof fn lemma_brk_pushes(m: Machine)
    requires
        m.wf(),
        m.mem[m.pc as int] == 0x00,
    ensures
        ({
            let ret = m.pc.wrapping_add(1).wrapping_add(2);
            let pushed_flags = m.p | flags::BREAK;
            let mem3 = m.mem.update(m.sp as int, (ret / 0x100) as u8).update(
                m.sp.wrapping_sub(1) as int,
                (ret % 0x100) as u8,
            ).update(m.sp.wrapping_sub(2) as int, pushed_flags);
            &&& step_spec(m).mem == mem3
            &&& step_spec(m).sp == m.sp.wrapping_sub(3)
            &&& step_spec(m).pc == bus::word_at(mem3, bus::IRQ_VECTOR)
            &&& step_spec(m).p == pushed_flags
            &&& step_spec(m).cycle == m.cycle.wrapping_add(7)
        }),
{
    reveal(opcode_spec);
}

} // verus!

