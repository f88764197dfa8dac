//! The machine-level laws of the interpreter: stack round trips, program
//! loading, reset behaviour, the indirect-jump quirk, branch timing, and
//! the wrap rules for the stack and program-counter registers.
//!
//! Each law is a proof function over the pure interpreter of `cpu`; the
//! executable functions meet the same interpreter by their own contracts.

use crate::bus::{
    lemma_rd_wr_other, lemma_rd_wr_same, lemma_wr_wf, BusView,
};
use crate::cpu::{
    branch_spec, interrupt_spec, irq_pending, jmp_spec, load_reg_spec, load_spec, operand_spec,
    pull16_state, pull16_word, pull_byte, pull_state, push16_spec, push_spec, sign_ext, step_spec,
    wadd16, wadd64, wadd8, wsub8, CpuView, Interrupt, Operand, RST_VECTOR, STACK_BASE,
};
use crate::opcode::{opcode_spec, AddressingMode, Opcode};
use vstd::prelude::*;

verus! {

/// Loading a program changes no attachment: well-formedness, the ranges,
/// and address coverage all survive.
pub proof fn lemma_load_preserves(b: BusView, prog: Seq<u8>, start: u16)
    requires
        b.wf(),
    ensures
        load_spec(b, prog, start).wf(),
        load_spec(b, prog, start).ranges == b.ranges,
        forall|a: u16| #[trigger] load_spec(b, prog, start).covers(a) == b.covers(a),
    decreases prog.len(),
{
    if prog.len() > 0 {
        lemma_load_preserves(b, prog.drop_last(), start);
        lemma_wr_wf(
            load_spec(b, prog.drop_last(), start),
            wadd16(start, (prog.len() - 1) as u16),
            prog.last(),
        );
    }
}

/// Load/fetch round trip: after a load, every loaded address that an
/// attachment covers reads back its program byte, and the shadow holds the
/// byte whether or not anything covers the address.
pub proof fn lemma_load_roundtrip(b: BusView, prog: Seq<u8>, start: u16, i: int)
    requires
        b.wf(),
        prog.len() <= 0x10000,
        0 <= i < prog.len(),
    ensures
        b.covers(wadd16(start, i as u16)) ==> load_spec(b, prog, start).rd(wadd16(start, i as u16))
            == prog[i],
        load_spec(b, prog, start).shadow[wadd16(start, i as u16) as int] == prog[i],
    decreases prog.len(),
{
    let a_i = wadd16(start, i as u16);
    let last = prog.len() - 1;
    let a_last = wadd16(start, last as u16);
    let pre = load_spec(b, prog.drop_last(), start);
    lemma_load_preserves(b, prog.drop_last(), start);
    if i == last {
        lemma_rd_wr_same(pre, a_last, prog.last());
        assert(pre.shadow.len() == 0x10000);
    } else {
        lemma_load_roundtrip(b, prog.drop_last(), start, i);
        assert(a_i != a_last);
        lemma_rd_wr_other(pre, a_last, prog.last(), a_i);
    }
}

/// Stack round trip for one byte: a pull right after a push reads the
/// pushed byte back (wherever an attachment covers the stack slot) and
/// returns SP to its pre-push value.
pub proof fn lemma_stack_roundtrip(s: CpuView, byte: u8)
    requires
        s.bus.wf(),
        s.bus.covers(wadd16(STACK_BASE, s.reg.sp as u16)),
    ensures
        pull_byte(push_spec(s, byte)) == byte,
        pull_state(push_spec(s, byte)).reg == s.reg,
        pull_state(push_spec(s, byte)).cycle == s.cycle,
{
    lemma_rd_wr_same(s.bus, wadd16(STACK_BASE, s.reg.sp as u16), byte);
    assert(wadd8(wsub8(s.reg.sp, 1), 1) == s.reg.sp);
}

/// Stack round trip for one word: pulling a word right after pushing one
/// reads the word back and returns SP to its pre-push value (the two stack
/// slots must be covered, as they are under the console's full-range RAM).
pub proof fn lemma_stack_roundtrip16(s: CpuView, data: u16)
    requires
        s.bus.wf(),
        s.bus.covers(wadd16(STACK_BASE, s.reg.sp as u16)),
        s.bus.covers(wadd16(STACK_BASE, wsub8(s.reg.sp, 1) as u16)),
    ensures
        pull16_word(push16_spec(s, data)) == data,
        pull16_state(push16_spec(s, data)).reg == s.reg,
{
    let a_hi = wadd16(STACK_BASE, s.reg.sp as u16);
    let a_lo = wadd16(STACK_BASE, wsub8(s.reg.sp, 1) as u16);
    let hi = (data / 256) as u8;
    let lo = (data % 256) as u8;
    assert(a_hi != a_lo);
    let s1 = push_spec(s, hi);
    lemma_wr_wf(s.bus, a_hi, hi);
    lemma_rd_wr_same(s1.bus, a_lo, lo);
    lemma_rd_wr_other(s1.bus, a_lo, lo, a_hi);
    lemma_rd_wr_same(s.bus, a_hi, hi);
    assert(wadd8(wsub8(wsub8(s.reg.sp, 1), 1), 1) == wsub8(s.reg.sp, 1));
    assert(wadd8(wsub8(s.reg.sp, 1), 1) == s.reg.sp);
    assert(lo + 256 * hi == data);
}

/// One RST loads PC from the reset vector, and a second RST right after
/// leaves PC equal to the same vector word: RST writes no memory.
pub proof fn lemma_rst_twice(s: CpuView)
    ensures
        interrupt_spec(s, Interrupt::RST).reg.pc == s.bus.rd16(RST_VECTOR),
        interrupt_spec(interrupt_spec(s, Interrupt::RST), Interrupt::RST).reg.pc == s.bus.rd16(
            RST_VECTOR,
        ),
        interrupt_spec(s, Interrupt::RST).bus == s.bus,
{
}

/// The indirect-jump quirk: a pointer ending in `0xff` takes its high byte
/// from the start of the pointer's own page, not from the next page.
pub proof fn lemma_indirect_jmp_bug(s: CpuView, op: Opcode)
    requires
        op.code == 0x6c,
        s.bus.rd16(s.reg.pc) % 256 == 0xff,
    ensures
        jmp_spec(s, op).reg.pc == (s.bus.rd(s.bus.rd16(s.reg.pc)) + 256 * s.bus.rd(
            (s.bus.rd16(s.reg.pc) - 0xff) as u16,
        )) as u16,
{
}

/// Branch timing: an untaken branch changes nothing; a taken one costs one
/// cycle, and one more exactly when the target lies in a different page
/// than PC + 1, the byte after the whole instruction. (The step's base two
/// cycles are charged by the step tail on top of these.)
pub proof fn lemma_branch_cycles(s: CpuView, op: Opcode)
    requires
        op.mode == AddressingMode::Relative,
    ensures
        branch_spec(s, op, false) == s,
        ({
            let offset = s.bus.rd(s.reg.pc);
            let newpc = wadd16(wadd16(s.reg.pc, 1), sign_ext(offset));
            let t = branch_spec(s, op, true);
            &&& t.reg.pc == newpc
            &&& t.cycle == wadd64(
                s.cycle,
                if wadd16(s.reg.pc, 1) / 256 != newpc / 256 {
                    2
                } else {
                    1
                },
            )
            &&& t.bus == s.bus
        }),
{
}

/// A load pins Z and N: Z set exactly on a zero byte, N exactly on a byte
/// with bit 7 set, and the loaded register holds that byte.
pub proof fn lemma_load_flags(s: CpuView, op: Opcode, addr: u16, which: int)
    requires
        operand_spec(s, op).0 == Operand::Address(addr),
        0 <= which < 3,
    ensures
        ({
            let t = load_reg_spec(s, op, which);
            let v = s.bus.rd(addr);
            &&& t.reg.p.zero == (v == 0)
            &&& t.reg.p.negative == (v >= 0x80)
            &&& (which == 0 ==> t.reg.a == v)
            &&& (which == 1 ==> t.reg.x == v)
            &&& (which == 2 ==> t.reg.y == v)
        }),
{
}

/// The pointer-wrap rules: pushing at SP = 0 wraps SP to 0xFF, pulling at
/// SP = 0xFF wraps it to 0, and a fetch at PC = 0xFFFF advances PC to 0
/// (shown for an undocumented byte, where no handler moves PC further).
pub proof fn lemma_pointer_wraparound(s: CpuView, byte: u8)
    ensures
        s.reg.sp == 0 ==> push_spec(s, byte).reg.sp == 0xff,
        s.reg.sp == 0xff ==> pull_state(s).reg.sp == 0,
        push_spec(s, byte).reg.pc == s.reg.pc,
        (s.reg.pc == 0xffff && !irq_pending(s) && !s.nmi_edge && opcode_spec(s.bus.rd(0xffff))
            is None) ==> step_spec(s).reg.pc == 0,
{
}

} // verus!

