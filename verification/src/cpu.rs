//! The 6502 interpreter: registers, stack, interrupt entry, addressing-mode
//! resolution, and the per-instruction semantics, all specified against a
//! pure interpreter over `CpuView`, the ghost value of a whole machine.
//!
//! Arithmetic is modular throughout: address computation wraps on the word,
//! stack and index computation on the byte, and the cycle counter on 64 bits.

use crate::bus::{Bus, BusView, Peripheral};
use crate::flags::{b2u, bits_spec, from_bits_spec, with_flag, Flag, Flags};
use crate::opcode::{opcode_for, opcode_spec, AddressingMode, Mnemonic, Opcode, TickModifier};
use crate::Error;
use vstd::prelude::*;

verus! {

/// Base address of the hardware stack page.
pub const STACK_BASE: u16 = 0x0100;

/// Address of the non-maskable-interrupt vector.
pub const NMI_VECTOR: u16 = 0xfffa;

/// Address of the reset vector.
pub const RST_VECTOR: u16 = 0xfffc;

/// Address of the interrupt-request / break vector.
pub const IRQ_VECTOR: u16 = 0xfffe;

/// A resolved effective operand.
#[derive(Debug, Clone, Copy, PartialEq, Eq, Structural)]
pub enum Operand {
    /// The operand is the accumulator itself.
    Accumulator,
    /// The operand is the byte at this address (or the address itself, for
    /// jumps and branches).
    Address(u16),
}

/// The four interrupt entries.
#[derive(Debug, Clone, Copy, PartialEq, Eq, Structural)]
pub enum Interrupt {
    IRQ,
    NMI,
    BRK,
    RST,
}

/// The register file.
#[derive(Debug, Clone, Copy, PartialEq, Eq, Structural)]
pub struct Registers {
    /// Stack pointer; the stack lives at `0x0100 | sp`.
    pub sp: u8,
    /// Program counter.
    pub pc: u16,
    /// Index register X.
    pub x: u8,
    /// Index register Y.
    pub y: u8,
    /// Accumulator.
    pub a: u8,
    /// Status flags.
    pub p: Flags,
}

/// The power-on register file: everything zero, every flag clear.
pub open spec fn regs_zero() -> Registers {
    Registers { sp: 0, pc: 0, x: 0, y: 0, a: 0, p: crate::flags::flags_zero() }
}

impl Default for Registers {
    /// All registers zero, all flags clear.
    fn default() -> (r: Self)
        ensures
            r == regs_zero(),
    {
        Registers { sp: 0, pc: 0, x: 0, y: 0, a: 0, p: Flags::default() }
    }
}

/// The processor: registers, the owned bus, the cycle counter, and the
/// interrupt lines (`irq` is level-triggered and active-low; `nmi_edge`
/// latches a high-to-low transition of `nmi` until a step consumes it).
pub struct CPU<P: Peripheral> {
    pub bus: Bus<P>,
    pub cycle: u64,
    pub reg: Registers,
    pub irq: bool,
    pub nmi: bool,
    pub nmi_edge: bool,
}

/// The mathematical value of a whole machine.
pub struct CpuView {
    pub bus: BusView,
    pub reg: Registers,
    pub cycle: u64,
    pub irq: bool,
    pub nmi: bool,
    pub nmi_edge: bool,
}

impl<P: Peripheral> View for CPU<P> {
    type V = CpuView;

    open spec fn view(&self) -> CpuView {
        CpuView {
            bus: self.bus@,
            reg: self.reg,
            cycle: self.cycle,
            irq: self.irq,
            nmi: self.nmi,
            nmi_edge: self.nmi_edge,
        }
    }
}

/// Wrapping 16-bit addition.
pub open spec fn wadd16(a: u16, b: u16) -> u16 {
    vstd::wrapping::u16_specs::wrapping_add(a, b)
}

/// Wrapping 8-bit addition.
pub open spec fn wadd8(a: u8, b: u8) -> u8 {
    vstd::wrapping::u8_specs::wrapping_add(a, b)
}

/// Wrapping 8-bit subtraction.
pub open spec fn wsub8(a: u8, b: u8) -> u8 {
    vstd::wrapping::u8_specs::wrapping_sub(a, b)
}

/// Wrapping 64-bit addition.
pub open spec fn wadd64(a: u64, b: u64) -> u64 {
    vstd::wrapping::u64_specs::wrapping_add(a, b)
}

/// Bit 7 of a (possibly wider than 8-bit) value.
pub open spec fn bit7(x: u16) -> bool {
    x / 128 % 2 == 1
}

/// Zero and Negative recomputed from `value`; the other flags kept.
pub open spec fn nz(f: Flags, value: u8) -> Flags {
    Flags { zero: value == 0, negative: value >= 0x80, ..f }
}

/// The machine after pushing `byte`: the byte lands at `0x0100 | sp` and
/// `sp` decrements, wrapping on the byte.
pub open spec fn push_spec(s: CpuView, byte: u8) -> CpuView {
    CpuView {
        bus: s.bus.wr(wadd16(STACK_BASE, s.reg.sp as u16), byte),
        reg: Registers { sp: wsub8(s.reg.sp, 1), ..s.reg },
        ..s
    }
}

/// The machine after pushing a word, high byte first.
pub open spec fn push16_spec(s: CpuView, data: u16) -> CpuView {
    push_spec(push_spec(s, (data / 256) as u8), (data % 256) as u8)
}

/// The byte a pull returns: `sp` increments first, then the byte at
/// `0x0100 | sp` is read.
pub open spec fn pull_byte(s: CpuView) -> u8 {
    s.bus.rd(wadd16(STACK_BASE, wadd8(s.reg.sp, 1) as u16))
}

/// The machine after one pull (only `sp` moves).
pub open spec fn pull_state(s: CpuView) -> CpuView {
    CpuView { reg: Registers { sp: wadd8(s.reg.sp, 1), ..s.reg }, ..s }
}

/// The word a 16-bit pull returns, low byte first.
pub open spec fn pull16_word(s: CpuView) -> u16 {
    (pull_byte(s) + 256 * pull_byte(pull_state(s))) as u16
}

/// The machine after a 16-bit pull.
pub open spec fn pull16_state(s: CpuView) -> CpuView {
    pull_state(pull_state(s))
}

/// The vector an interrupt kind loads PC from.
pub open spec fn vector_of(kind: Interrupt) -> u16 {
    match kind {
        Interrupt::BRK => IRQ_VECTOR,
        Interrupt::IRQ => IRQ_VECTOR,
        Interrupt::NMI => NMI_VECTOR,
        Interrupt::RST => RST_VECTOR,
    }
}

/// Interrupt entry. For BRK/IRQ/NMI: PC (plus one for BRK) is pushed high
/// then low, the flag byte is pushed with Unused set and Break set only for
/// BRK, and the Interrupt-disable flag is set. RST pushes nothing. All kinds
/// then load PC from their vector and cost 7 cycles.
pub open spec fn interrupt_spec(s: CpuView, kind: Interrupt) -> CpuView {
    let s1 = if kind == Interrupt::RST {
        s
    } else {
        let pushed_pc = if kind == Interrupt::BRK {
            wadd16(s.reg.pc, 1)
        } else {
            s.reg.pc
        };
        let image = Flags { unused: true, brk: kind == Interrupt::BRK, ..s.reg.p };
        let t = push_spec(push16_spec(s, pushed_pc), bits_spec(image));
        CpuView { reg: Registers { p: Flags { interrupt: true, ..t.reg.p }, ..t.reg }, ..t }
    };
    CpuView {
        reg: Registers { pc: s1.bus.rd16(vector_of(kind)), ..s1.reg },
        cycle: wadd64(s1.cycle, 7),
        ..s1
    }
}

/// The bus after a program image is written byte by byte from `start`,
/// addresses wrapping on the word.
pub open spec fn load_spec(b: BusView, prog: Seq<u8>, start: u16) -> BusView
    decreases prog.len(),
{
    if prog.len() == 0 {
        b
    } else {
        load_spec(b, prog.drop_last(), start).wr(
            wadd16(start, (prog.len() - 1) as u16),
            prog.last(),
        )
    }
}

impl<P: Peripheral> Default for CPU<P> {
    /// Same as `CPU::new`: a machine at power-on.
    fn default() -> (r: Self)
        ensures
            r.bus.wf(),
            r.reg == regs_zero(),
            r.cycle == 0,
            r.irq,
            r.nmi,
            !r.nmi_edge,
            r@.bus.ranges.len() == 0,
            r@.bus.shadow == Seq::<u8>::new(0x10000, |i: int| 0u8),
    {
        Self::new()
    }
}

impl<P: Peripheral> CPU<P> {
    /// A machine at power-on: all registers and flags zero, cycle zero, an
    /// empty bus, interrupt lines high (inactive), no NMI latched.
    pub fn new() -> (r: Self)
        ensures
            r.bus.wf(),
            r.reg == regs_zero(),
            r.cycle == 0,
            r.irq,
            r.nmi,
            !r.nmi_edge,
            r@.bus.ranges.len() == 0,
            r@.bus.shadow == Seq::<u8>::new(0x10000, |i: int| 0u8),
    {
        CPU {
            bus: Bus::new(),
            cycle: 0,
            reg: Registers::default(),
            irq: true,
            nmi: true,
            nmi_edge: false,
        }
    }

    /// Clears the register file and reloads PC from the reset vector. The
    /// cycle counter and the bus are untouched.
    pub fn reset(&mut self)
        requires
            old(self).bus.wf(),
        ensures
            final (self).bus.wf(),
            final (self)@ == (CpuView {
                reg: Registers { pc: old(self)@.bus.rd16(RST_VECTOR), ..regs_zero() },
                ..old(self)@
            }),
    {
        self.reg = Registers::default();
        self.reg.pc = self.bus.read_u16(RST_VECTOR);
    }

    /// Writes `program` through the bus at consecutive addresses from
    /// `start`, wrapping on the word.
    pub fn load(&mut self, program: &[u8], start: u16)
        requires
            old(self).bus.wf(),
            program@.len() <= 0x10000,
        ensures
            final (self).bus.wf(),
            final (self)@ == (CpuView {
                bus: load_spec(old(self)@.bus, program@, start),
                ..old(self)@
            }),
    {
        let n = program.len();
        let mut i: usize = 0;
        while i < n
            invariant
                i <= n,
                n == program@.len() <= 0x10000,
                self.bus.wf(),
                self@ == (CpuView {
                    bus: load_spec(old(self)@.bus, program@.subrange(0, i as int), start),
                    ..old(self)@
                }),
            decreases n - i,
        {
            proof {
                assert(program@.subrange(0, i + 1).drop_last() =~= program@.subrange(0, i as int));
                assert(program@.subrange(0, i + 1).last() == program@[i as int]);
            }
            self.bus.write(start.wrapping_add(i as u16), program[i]);
            i = i + 1;
        }
        proof {
            assert(program@.subrange(0, n as int) =~= program@);
        }
    }

    /// Sets the level of the interrupt-request line (false = asserted).
    pub fn set_irq(&mut self, irq: bool)
        ensures
            final (self)@ == (CpuView { irq, ..old(self)@ }),
    {
        self.irq = irq;
    }

    /// Drives the non-maskable-interrupt line; a high-to-low transition is
    /// latched in `nmi_edge` until a step consumes it.
    pub fn set_nmi(&mut self, nmi: bool)
        ensures
            final (self)@ == (CpuView { nmi, nmi_edge: !nmi, ..old(self)@ }),
    {
        self.nmi_edge = !nmi;
        self.nmi = nmi;
    }

    /// Enters the given interrupt: see `interrupt_spec`.
    pub fn interrupt(&mut self, interrupt: Interrupt)
        requires
            old(self).bus.wf(),
        ensures
            final (self).bus.wf(),
            final (self)@ == interrupt_spec(old(self)@, interrupt),
    {
        let vector = match interrupt {
            Interrupt::BRK => IRQ_VECTOR,
            Interrupt::IRQ => IRQ_VECTOR,
            Interrupt::NMI => NMI_VECTOR,
            Interrupt::RST => RST_VECTOR,
        };
        if !matches!(interrupt, Interrupt::RST) {
            let pc = if matches!(interrupt, Interrupt::BRK) {
                self.reg.pc.wrapping_add(1)
            } else {
                self.reg.pc
            };
            let mut image = self.reg.p;
            image.set(Flag::Unused, true);
            image.set(Flag::Brk, matches!(interrupt, Interrupt::BRK));
            self.stack_push_u16(pc);
            let bits = image.bits();
            self.stack_push(bits);
            self.set_flag(Flag::Interrupt, true);
        }
        self.reg.pc = self.bus.read_u16(vector);
        self.cycle = self.cycle.wrapping_add(7);
    }

    /// Stores `byte` at `0x0100 | sp`, then decrements `sp` (wrapping).
    pub fn stack_push(&mut self, byte: u8)
        requires
            old(self).bus.wf(),
        ensures
            final (self).bus.wf(),
            final (self)@ == push_spec(old(self)@, byte),
    {
        self.bus.write(STACK_BASE.wrapping_add(self.reg.sp as u16), byte);
        self.reg.sp = self.reg.sp.wrapping_sub(1);
    }

    /// Pushes a word, high byte first.
    pub fn stack_push_u16(&mut self, data: u16)
        requires
            old(self).bus.wf(),
        ensures
            final (self).bus.wf(),
            final (self)@ == push16_spec(old(self)@, data),
    {
        self.stack_push((data / 256) as u8);
        self.stack_push((data % 256) as u8);
    }

    /// Increments `sp` (wrapping), then loads the byte at `0x0100 | sp`.
    pub fn stack_pull(&mut self) -> (r: u8)
        requires
            old(self).bus.wf(),
        ensures
            final (self).bus.wf(),
            r == pull_byte(old(self)@),
            final (self)@ == pull_state(old(self)@),
    {
        self.reg.sp = self.reg.sp.wrapping_add(1);
        self.bus.read(STACK_BASE.wrapping_add(self.reg.sp as u16))
    }

    /// Pulls a word, low byte first.
    pub fn stack_pull_u16(&mut self) -> (r: u16)
        requires
            old(self).bus.wf(),
        ensures
            final (self).bus.wf(),
            r == pull16_word(old(self)@),
            final (self)@ == pull16_state(old(self)@),
    {
        let lo = self.stack_pull();
        let hi = self.stack_pull();
        (lo as u16) + 256 * (hi as u16)
    }

    /// Sets or clears one status flag.
    pub fn set_flag(&mut self, flag: Flag, value: bool)
        ensures
            final (self)@ == (CpuView {
                reg: Registers { p: with_flag(old(self)@.reg.p, flag, value), ..old(self)@.reg },
                ..old(self)@
            }),
    {
        self.reg.p.set(flag, value);
    }

    /// Sets or clears the carry flag.
    pub fn set_carry_flag(&mut self, value: bool)
        ensures
            final (self)@ == (CpuView {
                reg: Registers {
                    p: with_flag(old(self)@.reg.p, Flag::Carry, value),
                    ..old(self)@.reg
                },
                ..old(self)@
            }),
    {
        self.set_flag(Flag::Carry, value);
    }

    /// Recomputes Zero and Negative from `value`.
    fn update_nz_flags(&mut self, value: u8)
        ensures
            final (self)@ == (CpuView {
                reg: Registers { p: nz(old(self)@.reg.p, value), ..old(self)@.reg },
                ..old(self)@
            }),
    {
        self.set_flag(Flag::Zero, value == 0);
        self.set_flag(Flag::Negative, value >= 0x80);
    }
}

} // verus!

verus! {

/// Wrapping 16-bit subtraction.
pub open spec fn wsub16(a: u16, b: u16) -> u16 {
    vstd::wrapping::u16_specs::wrapping_sub(a, b)
}

/// Bit 7 of a nonnegative value.
pub open spec fn bit7i(x: int) -> bool {
    x / 128 % 2 == 1
}

/// Sign extension of a byte displacement to a word.
pub open spec fn sign_ext(o: u8) -> u16 {
    if o < 128 {
        o as u16
    } else {
        (o + 0xff00) as u16
    }
}

/// Operand and extra cycle count for the absolute-indexed modes: with a
/// cycle modifier, the extra cycle is charged when the indexed address
/// leaves the page of the base address.
pub open spec fn indexed_operand(s: CpuView, reg: u8, modif: Option<TickModifier>) -> (Operand, u64) {
    if modif is Some {
        let lo = s.bus.rd(s.reg.pc);
        let hi = s.bus.rd(wadd16(s.reg.pc, 1));
        let addr = wadd16((hi as u16 * 256 + lo as u16) as u16, reg as u16);
        (Operand::Address(addr), if addr / 256 != hi { 1 } else { 0 })
    } else {
        (Operand::Address(wadd16(s.bus.rd16(s.reg.pc), reg as u16)), 0)
    }
}

/// Operand and extra cycle count for the indirect-indexed mode: the pointer
/// is read from the zero page, then indexed by Y with the same page-crossing
/// rule as the absolute-indexed modes.
pub open spec fn indirect_y_operand(s: CpuView, modif: Option<TickModifier>) -> (Operand, u64) {
    let ptr = s.bus.rd(s.reg.pc) as u16;
    if modif is Some {
        let lo = s.bus.rd(ptr);
        let hi = s.bus.rd((ptr + 1) as u16);
        let addr = wadd16((hi as u16 * 256 + lo as u16) as u16, s.reg.y as u16);
        (Operand::Address(addr), if addr / 256 != hi { 1 } else { 0 })
    } else {
        (Operand::Address(wadd16(s.bus.rd16(ptr), s.reg.y as u16)), 0)
    }
}

/// The resolved operand of `op` with PC at the byte after the opcode, and
/// the extra cycles the resolution itself costs. Implied instructions never
/// ask for an operand; for totality they resolve like Immediate ones.
pub open spec fn operand_spec(s: CpuView, op: Opcode) -> (Operand, u64) {
    match op.mode {
        AddressingMode::Implied => (Operand::Address(s.reg.pc), 0),
        AddressingMode::Immediate => (Operand::Address(s.reg.pc), 0),
        AddressingMode::Relative => (Operand::Address(s.reg.pc), 0),
        AddressingMode::Accumulator => (Operand::Accumulator, 0),
        AddressingMode::ZeroPage => (Operand::Address(s.bus.rd(s.reg.pc) as u16), 0),
        AddressingMode::ZeroPageX => (
            Operand::Address(wadd8(s.bus.rd(s.reg.pc), s.reg.x) as u16),
            0,
        ),
        AddressingMode::ZeroPageY => (
            Operand::Address(wadd8(s.bus.rd(s.reg.pc), s.reg.y) as u16),
            0,
        ),
        AddressingMode::Absolute => (Operand::Address(s.bus.rd16(s.reg.pc)), 0),
        AddressingMode::AbsoluteX => indexed_operand(s, s.reg.x, op.tick_modifier),
        AddressingMode::AbsoluteY => indexed_operand(s, s.reg.y, op.tick_modifier),
        AddressingMode::Indirect => (Operand::Address(s.bus.rd16(s.bus.rd16(s.reg.pc))), 0),
        AddressingMode::IndirectX => (
            Operand::Address(s.bus.rd16(wadd8(s.bus.rd(s.reg.pc), s.reg.x) as u16)),
            0,
        ),
        AddressingMode::IndirectY => indirect_y_operand(s, op.tick_modifier),
    }
}

/// The machine after operand resolution alone: only the cycle counter can
/// have moved.
pub open spec fn after_operand(s: CpuView, op: Opcode) -> CpuView {
    CpuView { cycle: wadd64(s.cycle, operand_spec(s, op).1), ..s }
}

/// The accumulator and flag byte after ADC of operand byte `n`: binary or
/// BCD per the D flag, with C, V, Z and N updated.
pub open spec fn adc_result(p: Flags, a: u8, n8: u8) -> (u8, Flags) {
    let m = a as int;
    let c = b2u(p.carry) as int;
    let n = n8 as int;
    if p.decimal {
        let l0 = m % 16 + n % 16 + c;
        let h0 = (m - m % 16) + (n - n % 16);
        let l1 = if l0 > 0x09 {
            (l0 + 0x06) % 16
        } else {
            l0
        };
        let h1 = if l0 > 0x09 {
            h0 + 0x10
        } else {
            h0
        };
        let v = (bit7i(m) == bit7i(n)) && (bit7i(m) != bit7i(h1));
        let h2 = if h1 > 0x90 {
            h1 + 0x60
        } else {
            h1
        };
        let carry = h2 / 256 > 0;
        let a1 = ((h2 + l1) % 256) as u8;
        (a1, nz(Flags { carry, overflow: v, ..p }, a1))
    } else {
        let sum = m + n + c;
        let carry = sum > 0xff;
        let v = (bit7i(m) == bit7i(n)) && (bit7i(m) != bit7i(sum));
        let a1 = (sum % 256) as u8;
        (a1, nz(Flags { carry, overflow: v, ..p }, a1))
    }
}

/// ADC: add the operand and the carry to the accumulator; in decimal mode,
/// nibble-wise with BCD correction. C, V, Z and N are updated.
pub open spec fn adc_spec(s: CpuView, op: Opcode) -> CpuView {
    let o = operand_spec(s, op).0;
    let s0 = after_operand(s, op);
    match o {
        Operand::Accumulator => s0,
        Operand::Address(addr) => {
            let r = adc_result(s.reg.p, s.reg.a, s0.bus.rd(addr));
            CpuView { reg: Registers { a: r.0, p: r.1, ..s.reg }, ..s0 }
        },
    }
}

/// SBC: subtract the operand with borrow, as the addition of its one's
/// complement; in decimal mode, nibble-wise with BCD correction. C and V
/// come from the binary formula; Z and N from the value written to A.
/// The accumulator and flag byte after SBC of operand byte `n`.
pub open spec fn sbc_result(p: Flags, a: u8, n8: u8) -> (u8, Flags) {
    let m = a as int;
    let c = b2u(p.carry) as int;
    let n = n8 as int;
    let sum = m + (255 - n) + c;
    let carry = sum > 0xff;
    let v = (bit7i(m) != bit7i(n)) && (bit7i(m) != bit7i(sum));
    let a1 = if p.decimal {
        let l0 = m % 16 - n % 16 + c - 1;
        let h0 = (m - m % 16) - (n - n % 16);
        // (l0 + 26) % 16 is (l0 - 6) mod 16; (h1 + 416) % 256 is
        // (h1 - 96) mod 256: the hardware's BCD borrow corrections.
        let l1 = if l0 < 0 {
            (l0 + 26) % 16
        } else {
            l0
        };
        let h1 = if l0 < 0 {
            h0 - 16
        } else {
            h0
        };
        let h2 = if h1 < 0 {
            (h1 + 416) % 256
        } else {
            h1
        };
        ((h2 + l1) % 256) as u8
    } else {
        (sum % 256) as u8
    };
    (a1, nz(Flags { carry, overflow: v, ..p }, a1))
}

pub open spec fn sbc_spec(s: CpuView, op: Opcode) -> CpuView {
    let o = operand_spec(s, op).0;
    let s0 = after_operand(s, op);
    match o {
        Operand::Accumulator => s0,
        Operand::Address(addr) => {
            let r = sbc_result(s.reg.p, s.reg.a, s0.bus.rd(addr));
            CpuView { reg: Registers { a: r.0, p: r.1, ..s.reg }, ..s0 }
        },
    }
}

/// AND: accumulator gets `A & M`; Z and N updated.
pub open spec fn and_spec(s: CpuView, op: Opcode) -> CpuView {
    let o = operand_spec(s, op).0;
    let s0 = after_operand(s, op);
    match o {
        Operand::Accumulator => s0,
        Operand::Address(addr) => {
            let a1 = s.reg.a & s0.bus.rd(addr);
            CpuView { reg: Registers { a: a1, p: nz(s.reg.p, a1), ..s.reg }, ..s0 }
        },
    }
}

/// ORA: accumulator gets `A | M`; Z and N updated.
pub open spec fn ora_spec(s: CpuView, op: Opcode) -> CpuView {
    let o = operand_spec(s, op).0;
    let s0 = after_operand(s, op);
    match o {
        Operand::Accumulator => s0,
        Operand::Address(addr) => {
            let a1 = s.reg.a | s0.bus.rd(addr);
            CpuView { reg: Registers { a: a1, p: nz(s.reg.p, a1), ..s.reg }, ..s0 }
        },
    }
}

/// EOR: accumulator gets `A ^ M`; Z and N updated.
pub open spec fn eor_spec(s: CpuView, op: Opcode) -> CpuView {
    let o = operand_spec(s, op).0;
    let s0 = after_operand(s, op);
    match o {
        Operand::Accumulator => s0,
        Operand::Address(addr) => {
            let a1 = s.reg.a ^ s0.bus.rd(addr);
            CpuView { reg: Registers { a: a1, p: nz(s.reg.p, a1), ..s.reg }, ..s0 }
        },
    }
}

/// The shifted-left byte: bit 7 falls off, bit 0 becomes zero.
pub open spec fn asl_val(v: u8) -> u8 {
    ((2 * v) % 256) as u8
}

/// The shifted-right byte: bit 0 falls off, bit 7 becomes zero.
pub open spec fn lsr_val(v: u8) -> u8 {
    v / 2
}

/// Rotate left through carry.
pub open spec fn rol_val(v: u8, c: bool) -> u8 {
    ((2 * v) % 256 + b2u(c)) as u8
}

/// Rotate right through carry.
pub open spec fn ror_val(v: u8, c: bool) -> u8 {
    (v / 2 + 128 * b2u(c)) as u8
}

/// The flag byte after ASL of `v`: C from old bit 7, Z and N from the result.
pub open spec fn asl_flags(p: Flags, v: u8) -> Flags {
    nz(Flags { carry: v >= 0x80, ..p }, asl_val(v))
}

/// The flag byte after LSR of `v`: C from old bit 0, Z from the value
/// before the shift, N cleared.
pub open spec fn lsr_flags(p: Flags, v: u8) -> Flags {
    Flags { carry: v % 2 == 1, zero: v == 0, negative: false, ..p }
}

/// The flag byte after ROL of `v`: C from old bit 7, Z and N from the result.
pub open spec fn rol_flags(p: Flags, v: u8) -> Flags {
    nz(Flags { carry: v >= 0x80, ..p }, rol_val(v, p.carry))
}

/// The flag byte after ROR of `v`: C from old bit 0, Z and N from the result.
pub open spec fn ror_flags(p: Flags, v: u8) -> Flags {
    nz(Flags { carry: v % 2 == 1, ..p }, ror_val(v, p.carry))
}

/// A read-modify-write shift applied to the accumulator or to memory.
pub open spec fn shift_spec(s: CpuView, op: Opcode, mn: Mnemonic) -> CpuView {
    let o = operand_spec(s, op).0;
    let s0 = after_operand(s, op);
    match o {
        Operand::Accumulator => {
            let v = s.reg.a;
            let r = match mn {
                Mnemonic::ASL => asl_val(v),
                Mnemonic::LSR => lsr_val(v),
                Mnemonic::ROL => rol_val(v, s.reg.p.carry),
                _ => ror_val(v, s.reg.p.carry),
            };
            let p1 = match mn {
                Mnemonic::ASL => asl_flags(s.reg.p, v),
                Mnemonic::LSR => lsr_flags(s.reg.p, v),
                Mnemonic::ROL => rol_flags(s.reg.p, v),
                _ => ror_flags(s.reg.p, v),
            };
            CpuView { reg: Registers { a: r, p: p1, ..s.reg }, ..s0 }
        },
        Operand::Address(addr) => {
            let v = s0.bus.rd(addr);
            let r = match mn {
                Mnemonic::ASL => asl_val(v),
                Mnemonic::LSR => lsr_val(v),
                Mnemonic::ROL => rol_val(v, s.reg.p.carry),
                _ => ror_val(v, s.reg.p.carry),
            };
            let p1 = match mn {
                Mnemonic::ASL => asl_flags(s.reg.p, v),
                Mnemonic::LSR => lsr_flags(s.reg.p, v),
                Mnemonic::ROL => rol_flags(s.reg.p, v),
                _ => ror_flags(s.reg.p, v),
            };
            CpuView { bus: s0.bus.wr(addr, r), reg: Registers { p: p1, ..s.reg }, ..s0 }
        },
    }
}

/// BIT: Z from `A & M`, N from bit 7 of M, V from bit 6 of M; A unchanged.
pub open spec fn bit_spec(s: CpuView, op: Opcode) -> CpuView {
    let o = operand_spec(s, op).0;
    let s0 = after_operand(s, op);
    match o {
        Operand::Accumulator => s0,
        Operand::Address(addr) => {
            let n = s0.bus.rd(addr);
            let p1 = Flags {
                zero: (s.reg.a & n) == 0,
                negative: n >= 0x80,
                overflow: n / 64 % 2 == 1,
                ..s.reg.p
            };
            CpuView { reg: Registers { p: p1, ..s.reg }, ..s0 }
        },
    }
}

/// A taken branch costs one cycle, reads the signed displacement at PC, and
/// adds one more cycle when the target leaves the page of PC + 1 (the byte
/// after the whole instruction); an untaken one does nothing.
pub open spec fn branch_spec(s: CpuView, op: Opcode, condition: bool) -> CpuView {
    if !condition {
        s
    } else {
        let s1 = CpuView { cycle: wadd64(s.cycle, 1), ..s };
        let o = operand_spec(s1, op).0;
        let s2 = after_operand(s1, op);
        match o {
            Operand::Accumulator => s2,
            Operand::Address(addr) => {
                let offset = s2.bus.rd(addr);
                let page = wadd16(s.reg.pc, 1) / 256;
                let newpc = wadd16(wadd16(s.reg.pc, 1), sign_ext(offset));
                let extra: u64 = if page != newpc / 256 {
                    1
                } else {
                    0
                };
                CpuView {
                    reg: Registers { pc: newpc, ..s2.reg },
                    cycle: wadd64(s2.cycle, extra),
                    ..s2
                }
            },
        }
    }
}

/// CMP/CPX/CPY against `reg`: Z if equal, C if `reg >= M`, N from bit 7 of
/// the wrapping difference. Registers unchanged.
pub open spec fn cmp_spec(s: CpuView, op: Opcode, reg: u8) -> CpuView {
    let o = operand_spec(s, op).0;
    let s0 = after_operand(s, op);
    match o {
        Operand::Accumulator => s0,
        Operand::Address(addr) => {
            let n = s0.bus.rd(addr);
            let p1 = Flags {
                zero: reg == n,
                carry: reg >= n,
                negative: wsub8(reg, n) >= 0x80,
                ..s.reg.p
            };
            CpuView { reg: Registers { p: p1, ..s.reg }, ..s0 }
        },
    }
}

/// INC or DEC on memory: wrapping by one; Z and N from the new byte.
pub open spec fn incdec_spec(s: CpuView, op: Opcode, up: bool) -> CpuView {
    let o = operand_spec(s, op).0;
    let s0 = after_operand(s, op);
    match o {
        Operand::Accumulator => s0,
        Operand::Address(addr) => {
            let v = if up {
                wadd8(s0.bus.rd(addr), 1)
            } else {
                wsub8(s0.bus.rd(addr), 1)
            };
            CpuView {
                bus: s0.bus.wr(addr, v),
                reg: Registers { p: nz(s.reg.p, v), ..s.reg },
                ..s0
            }
        },
    }
}

/// JMP: absolute sets PC to the operand; indirect reads the target through
/// the operand pointer, fetching the high byte from the start of the same
/// page when the pointer ends in `0xff` (the hardware page-wrap bug).
pub open spec fn jmp_spec(s: CpuView, op: Opcode) -> CpuView {
    let operand = s.bus.rd16(s.reg.pc);
    let target = if op.code == 0x6c {
        if operand % 256 != 0xff {
            s.bus.rd16(operand)
        } else {
            (s.bus.rd(operand) + 256 * s.bus.rd((operand - 0xff) as u16)) as u16
        }
    } else {
        operand
    };
    CpuView { reg: Registers { pc: target, ..s.reg }, ..s }
}

/// JSR: pushes PC + 1 (one less than the return address) high byte first,
/// then jumps to the absolute operand.
pub open spec fn jsr_spec(s: CpuView, op: Opcode) -> CpuView {
    let o = operand_spec(s, op).0;
    let s0 = after_operand(s, op);
    match o {
        Operand::Accumulator => s0,
        Operand::Address(addr) => {
            let t = push16_spec(s0, wadd16(s.reg.pc, 1));
            CpuView { reg: Registers { pc: addr, ..t.reg }, ..t }
        },
    }
}

/// RTS: pulls a word and sets PC to one past it.
pub open spec fn rts_spec(s: CpuView) -> CpuView {
    let t = pull16_state(s);
    CpuView { reg: Registers { pc: wadd16(pull16_word(s), 1), ..t.reg }, ..t }
}

/// RTI: pulls the flag byte (Break and Unused read back as set), then pulls
/// PC, without the RTS increment.
pub open spec fn rti_spec(s: CpuView) -> CpuView {
    let p1 = Flags { brk: true, unused: true, ..from_bits_spec(pull_byte(s)) };
    let t1 = CpuView { reg: Registers { p: p1, ..pull_state(s).reg }, ..pull_state(s) };
    let t2 = pull16_state(t1);
    CpuView { reg: Registers { pc: pull16_word(t1), ..t2.reg }, ..t2 }
}

/// PHP pushes the flag byte with Break and Unused forced set on the image.
pub open spec fn php_spec(s: CpuView) -> CpuView {
    push_spec(s, bits_spec(Flags { brk: true, unused: true, ..s.reg.p }))
}

/// PLA pulls into the accumulator and updates Z and N.
pub open spec fn pla_spec(s: CpuView) -> CpuView {
    let t = pull_state(s);
    let a1 = pull_byte(s);
    CpuView { reg: Registers { a: a1, p: nz(s.reg.p, a1), ..t.reg }, ..t }
}

/// PLP pulls the flag byte; Break and Unused read back as set.
pub open spec fn plp_spec(s: CpuView) -> CpuView {
    let t = pull_state(s);
    let p1 = Flags { brk: true, unused: true, ..from_bits_spec(pull_byte(s)) };
    CpuView { reg: Registers { p: p1, ..t.reg }, ..t }
}

/// LDA/LDX/LDY: load the operand byte and update Z and N. `which` is 0 for
/// A, 1 for X, 2 for Y.
pub open spec fn load_reg_spec(s: CpuView, op: Opcode, which: int) -> CpuView {
    let o = operand_spec(s, op).0;
    let s0 = after_operand(s, op);
    match o {
        Operand::Accumulator => s0,
        Operand::Address(addr) => {
            let v = s0.bus.rd(addr);
            let r1 = if which == 0 {
                Registers { a: v, ..s.reg }
            } else if which == 1 {
                Registers { x: v, ..s.reg }
            } else {
                Registers { y: v, ..s.reg }
            };
            CpuView { reg: Registers { p: nz(s.reg.p, v), ..r1 }, ..s0 }
        },
    }
}

/// STA/STX/STY: write `val` to the effective address; flags untouched.
pub open spec fn store_spec(s: CpuView, op: Opcode, val: u8) -> CpuView {
    let o = operand_spec(s, op).0;
    let s0 = after_operand(s, op);
    match o {
        Operand::Accumulator => s0,
        Operand::Address(addr) => CpuView { bus: s0.bus.wr(addr, val), ..s0 },
    }
}

/// A register written with `v` plus the Z/N update that goes with it.
pub open spec fn flag_op(s: CpuView, which: Flag, value: bool) -> CpuView {
    CpuView { reg: Registers { p: with_flag(s.reg.p, which, value), ..s.reg }, ..s }
}

/// Whether the level-triggered IRQ line fires a pending interrupt.
pub open spec fn irq_pending(s: CpuView) -> bool {
    !s.irq && !s.reg.p.interrupt
}

/// The per-mnemonic effect, with PC already past the opcode byte.
pub open spec fn dispatch_spec(s1: CpuView, op: Opcode) -> CpuView {
    match op.mnemonic {
        Mnemonic::ADC => adc_spec(s1, op),
        Mnemonic::AND => and_spec(s1, op),
        Mnemonic::ASL => shift_spec(s1, op, Mnemonic::ASL),
        Mnemonic::BCC => branch_spec(s1, op, !s1.reg.p.carry),
        Mnemonic::BCS => branch_spec(s1, op, s1.reg.p.carry),
        Mnemonic::BEQ => branch_spec(s1, op, s1.reg.p.zero),
        Mnemonic::BIT => bit_spec(s1, op),
        Mnemonic::BMI => branch_spec(s1, op, s1.reg.p.negative),
        Mnemonic::BNE => branch_spec(s1, op, !s1.reg.p.zero),
        Mnemonic::BPL => branch_spec(s1, op, !s1.reg.p.negative),
        Mnemonic::BRK => interrupt_spec(s1, Interrupt::BRK),
        Mnemonic::BVC => branch_spec(s1, op, !s1.reg.p.overflow),
        Mnemonic::BVS => branch_spec(s1, op, s1.reg.p.overflow),
        Mnemonic::CLC => flag_op(s1, Flag::Carry, false),
        Mnemonic::CLD => flag_op(s1, Flag::Decimal, false),
        Mnemonic::CLI => flag_op(s1, Flag::Interrupt, false),
        Mnemonic::CLV => flag_op(s1, Flag::Overflow, false),
        Mnemonic::CMP => cmp_spec(s1, op, s1.reg.a),
        Mnemonic::CPX => cmp_spec(s1, op, s1.reg.x),
        Mnemonic::CPY => cmp_spec(s1, op, s1.reg.y),
        Mnemonic::DEC => incdec_spec(s1, op, false),
        Mnemonic::DEX => CpuView {
            reg: Registers {
                x: wsub8(s1.reg.x, 1),
                p: nz(s1.reg.p, wsub8(s1.reg.x, 1)),
                ..s1.reg
            },
            ..s1
        },
        Mnemonic::DEY => CpuView {
            reg: Registers {
                y: wsub8(s1.reg.y, 1),
                p: nz(s1.reg.p, wsub8(s1.reg.y, 1)),
                ..s1.reg
            },
            ..s1
        },
        Mnemonic::EOR => eor_spec(s1, op),
        Mnemonic::INC => incdec_spec(s1, op, true),
        Mnemonic::INX => CpuView {
            reg: Registers {
                x: wadd8(s1.reg.x, 1),
                p: nz(s1.reg.p, wadd8(s1.reg.x, 1)),
                ..s1.reg
            },
            ..s1
        },
        Mnemonic::INY => CpuView {
            reg: Registers {
                y: wadd8(s1.reg.y, 1),
                p: nz(s1.reg.p, wadd8(s1.reg.y, 1)),
                ..s1.reg
            },
            ..s1
        },
        Mnemonic::JMP => jmp_spec(s1, op),
        Mnemonic::JSR => jsr_spec(s1, op),
        Mnemonic::LDA => load_reg_spec(s1, op, 0),
        Mnemonic::LDX => load_reg_spec(s1, op, 1),
        Mnemonic::LDY => load_reg_spec(s1, op, 2),
        Mnemonic::LSR => shift_spec(s1, op, Mnemonic::LSR),
        Mnemonic::NOP => s1,
        Mnemonic::ORA => ora_spec(s1, op),
        Mnemonic::PHA => push_spec(s1, s1.reg.a),
        Mnemonic::PHP => php_spec(s1),
        Mnemonic::PLA => pla_spec(s1),
        Mnemonic::PLP => plp_spec(s1),
        Mnemonic::ROL => shift_spec(s1, op, Mnemonic::ROL),
        Mnemonic::ROR => shift_spec(s1, op, Mnemonic::ROR),
        Mnemonic::RTI => rti_spec(s1),
        Mnemonic::RTS => rts_spec(s1),
        Mnemonic::SBC => sbc_spec(s1, op),
        Mnemonic::SEC => flag_op(s1, Flag::Carry, true),
        Mnemonic::SED => flag_op(s1, Flag::Decimal, true),
        Mnemonic::SEI => flag_op(s1, Flag::Interrupt, true),
        Mnemonic::STA => store_spec(s1, op, s1.reg.a),
        Mnemonic::STX => store_spec(s1, op, s1.reg.x),
        Mnemonic::STY => store_spec(s1, op, s1.reg.y),
        Mnemonic::TAX => CpuView {
            reg: Registers { x: s1.reg.a, p: nz(s1.reg.p, s1.reg.a), ..s1.reg },
            ..s1
        },
        Mnemonic::TAY => CpuView {
            reg: Registers { y: s1.reg.a, p: nz(s1.reg.p, s1.reg.a), ..s1.reg },
            ..s1
        },
        Mnemonic::TSX => CpuView {
            reg: Registers { x: s1.reg.sp, p: nz(s1.reg.p, s1.reg.sp), ..s1.reg },
            ..s1
        },
        Mnemonic::TXA => CpuView {
            reg: Registers { a: s1.reg.x, p: nz(s1.reg.p, s1.reg.x), ..s1.reg },
            ..s1
        },
        Mnemonic::TXS => CpuView { reg: Registers { sp: s1.reg.x, ..s1.reg }, ..s1 },
        Mnemonic::TYA => CpuView {
            reg: Registers { a: s1.reg.y, p: nz(s1.reg.p, s1.reg.y), ..s1.reg },
            ..s1
        },
    }
}

/// The common tail of a step: handlers that left PC alone have it advanced
/// past the operand bytes, and the base cycle count is charged.
pub open spec fn step_tail(s1: CpuView, s2: CpuView, op: Opcode) -> CpuView {
    let s3 = if s2.reg.pc == s1.reg.pc {
        CpuView {
            reg: Registers { pc: wadd16(s2.reg.pc, wsub16(op.size as u16, 1)), ..s2.reg },
            ..s2
        }
    } else {
        s2
    };
    CpuView { cycle: wadd64(s3.cycle, op.tick as u64), ..s3 }
}

/// One decoded instruction, dispatch plus tail; BRK ends the step by itself.
pub open spec fn exec_op(s1: CpuView, op: Opcode) -> CpuView {
    let s2 = dispatch_spec(s1, op);
    if op.mnemonic == Mnemonic::BRK {
        s2
    } else {
        step_tail(s1, s2, op)
    }
}

/// The machine after one `step` call: a pending IRQ or latched NMI is taken
/// first; otherwise the byte at PC is fetched (PC advances past it even for
/// an unrecognized byte) and its instruction executed.
pub open spec fn step_spec(s: CpuView) -> CpuView {
    if irq_pending(s) {
        interrupt_spec(s, Interrupt::IRQ)
    } else if s.nmi_edge {
        interrupt_spec(CpuView { nmi_edge: false, ..s }, Interrupt::NMI)
    } else {
        let code = s.bus.rd(s.reg.pc);
        let s1 = CpuView { reg: Registers { pc: wadd16(s.reg.pc, 1), ..s.reg }, ..s };
        match opcode_spec(code) {
            None => s1,
            Some(op) => exec_op(s1, op),
        }
    }
}

/// What one `step` call answers: the error exactly when the fetched byte is
/// undocumented and no interrupt preempted the fetch.
pub open spec fn step_err(s: CpuView) -> Option<Error> {
    if irq_pending(s) || s.nmi_edge {
        None
    } else {
        match opcode_spec(s.bus.rd(s.reg.pc)) {
            Some(_) => None,
            None => Some(Error::UnrecognizedOpcode(s.bus.rd(s.reg.pc))),
        }
    }
}

} // verus!

verus! {

impl<P: Peripheral> CPU<P> {
    /// Computes an indexed address from its base bytes and charges the
    /// extra cycle when the sum leaves the base page.
    fn on_tick_modifier(&mut self, lo: u8, hi: u8, byte: u8, _modifier: TickModifier) -> (r:
        Operand)
        ensures
            ({
                let addr = wadd16((hi as u16 * 256 + lo as u16) as u16, byte as u16);
                &&& r == Operand::Address(addr)
                &&& final (self)@ == (CpuView {
                    cycle: wadd64(
                        old(self)@.cycle,
                        if addr / 256 != hi {
                            1u64
                        } else {
                            0u64
                        },
                    ),
                    ..old(self)@
                })
            }),
    {
        let addr = ((hi as u16) * 256 + (lo as u16)).wrapping_add(byte as u16);
        if hi != (addr / 256) as u8 {
            self.cycle = self.cycle.wrapping_add(1);
        }
        Operand::Address(addr)
    }

    /// Resolves the operand of `opcode` with PC at the byte after the
    /// opcode; only the cycle counter may move (page-crossing penalty).
    fn get_operand(&mut self, opcode: &Opcode) -> (r: Operand)
        requires
            old(self).bus.wf(),
        ensures
            final (self).bus.wf(),
            r == operand_spec(old(self)@, *opcode).0,
            final (self)@ == after_operand(old(self)@, *opcode),
    {
        match opcode.mode {
            AddressingMode::Implied => Operand::Address(self.reg.pc),
            AddressingMode::Relative => Operand::Address(self.reg.pc),
            AddressingMode::Immediate => Operand::Address(self.reg.pc),
            AddressingMode::Accumulator => Operand::Accumulator,
            AddressingMode::ZeroPage => Operand::Address(self.bus.read(self.reg.pc) as u16),
            AddressingMode::ZeroPageX => Operand::Address(
                self.bus.read(self.reg.pc).wrapping_add(self.reg.x) as u16,
            ),
            AddressingMode::ZeroPageY => Operand::Address(
                self.bus.read(self.reg.pc).wrapping_add(self.reg.y) as u16,
            ),
            AddressingMode::Absolute => Operand::Address(self.bus.read_u16(self.reg.pc)),
            AddressingMode::AbsoluteX => {
                if let Some(modifier) = opcode.tick_modifier {
                    let lo = self.bus.read(self.reg.pc);
                    let hi = self.bus.read(self.reg.pc.wrapping_add(1));
                    let x = self.reg.x;
                    return self.on_tick_modifier(lo, hi, x, modifier);
                }
                Operand::Address(self.bus.read_u16(self.reg.pc).wrapping_add(self.reg.x as u16))
            },
            AddressingMode::AbsoluteY => {
                if let Some(modifier) = opcode.tick_modifier {
                    let lo = self.bus.read(self.reg.pc);
                    let hi = self.bus.read(self.reg.pc.wrapping_add(1));
                    let y = self.reg.y;
                    return self.on_tick_modifier(lo, hi, y, modifier);
                }
                Operand::Address(self.bus.read_u16(self.reg.pc).wrapping_add(self.reg.y as u16))
            },
            AddressingMode::Indirect => {
                let ptr = self.bus.read_u16(self.reg.pc);
                Operand::Address(self.bus.read_u16(ptr))
            },
            AddressingMode::IndirectX => Operand::Address(
                self.bus.read_u16(self.bus.read(self.reg.pc).wrapping_add(self.reg.x) as u16),
            ),
            AddressingMode::IndirectY => {
                let ptr = self.bus.read(self.reg.pc) as u16;
                if let Some(modifier) = opcode.tick_modifier {
                    let lo = self.bus.read(ptr);
                    let hi = self.bus.read(ptr + 1);
                    let y = self.reg.y;
                    return self.on_tick_modifier(lo, hi, y, modifier);
                }
                Operand::Address(self.bus.read_u16(ptr).wrapping_add(self.reg.y as u16))
            },
        }
    }

    /// The arithmetic core of ADC on the operand byte `n`.
    #[verifier::rlimit(100)]
    fn adc_apply(&mut self, n8: u8)
        ensures
            final (self)@ == (CpuView {
                reg: Registers {
                    a: adc_result(old(self)@.reg.p, old(self)@.reg.a, n8).0,
                    p: adc_result(old(self)@.reg.p, old(self)@.reg.a, n8).1,
                    ..old(self)@.reg
                },
                ..old(self)@
            }),
    {
        let m = self.reg.a as u16;
        let c: u16 = if self.reg.p.carry {
            1
        } else {
            0
        };
        let n = n8 as u16;
        if self.reg.p.decimal {
            let mut l: u16 = m % 16 + n % 16 + c;
            let mut h: u16 = (m - m % 16) + (n - n % 16);
            if l > 0x09 {
                l = (l + 0x06) % 16;
                h = h + 0x10;
            }
            self.set_flag(
                Flag::Overflow,
                ((m / 128 % 2 == 1) == (n / 128 % 2 == 1)) && ((m / 128 % 2 == 1) != (h / 128 % 2
                    == 1)),
            );
            if h > 0x90 {
                h = h + 0x60;
            }
            self.set_flag(Flag::Carry, h / 256 > 0);
            self.reg.a = ((h + l) % 256) as u8;
        } else {
            let sum: u16 = m + n + c;
            self.set_flag(Flag::Carry, sum > 0xff);
            self.set_flag(
                Flag::Overflow,
                ((m / 128 % 2 == 1) == (n / 128 % 2 == 1)) && ((m / 128 % 2 == 1) != (sum / 128 % 2
                    == 1)),
            );
            self.reg.a = (sum % 256) as u8;
        }
        let a = self.reg.a;
        self.update_nz_flags(a);
    }

    /// ADC; see `adc_spec`.
    fn adc(&mut self, opcode: &Opcode)
        requires
            old(self).bus.wf(),
        ensures
            final (self).bus.wf(),
            final (self)@ == adc_spec(old(self)@, *opcode),
    {
        if let Operand::Address(addr) = self.get_operand(opcode) {
            let n = self.bus.read(addr);
            self.adc_apply(n);
        }
    }

    /// The arithmetic core of SBC on the operand byte `n`.
    #[verifier::rlimit(100)]
    fn sbc_apply(&mut self, n8: u8)
        ensures
            final (self)@ == (CpuView {
                reg: Registers {
                    a: sbc_result(old(self)@.reg.p, old(self)@.reg.a, n8).0,
                    p: sbc_result(old(self)@.reg.p, old(self)@.reg.a, n8).1,
                    ..old(self)@.reg
                },
                ..old(self)@
            }),
    {
        let m = self.reg.a;
        let c: u8 = if self.reg.p.carry {
            1
        } else {
            0
        };
        let n = n8;
        let sum: u16 = m as u16 + (255 - n) as u16 + c as u16;
        let t = (sum % 256) as u8;
        self.update_nz_flags(t);
        self.set_flag(Flag::Carry, sum > 0xff);
        self.set_flag(
            Flag::Overflow,
            ((m / 128 % 2 == 1) != (n / 128 % 2 == 1)) && (((m as u16) / 128 % 2 == 1) != (sum / 128
                % 2 == 1)),
        );
        let result: u8 = if self.reg.p.decimal {
            let l0: i16 = (m % 16) as i16 - (n % 16) as i16 + c as i16 - 1;
            let h0: i16 = (m - m % 16) as i16 - (n - n % 16) as i16;
            let l1: i16 = if l0 < 0 {
                (l0 + 26) % 16
            } else {
                l0
            };
            let h1: i16 = if l0 < 0 {
                h0 - 16
            } else {
                h0
            };
            let h2: i16 = if h1 < 0 {
                (h1 + 416) % 256
            } else {
                h1
            };
            ((h2 + l1) % 256) as u8
        } else {
            t
        };
        self.reg.a = result;
        self.update_nz_flags(result);
    }

    /// SBC; see `sbc_spec`.
    fn sbc(&mut self, opcode: &Opcode)
        requires
            old(self).bus.wf(),
        ensures
            final (self).bus.wf(),
            final (self)@ == sbc_spec(old(self)@, *opcode),
    {
        if let Operand::Address(addr) = self.get_operand(opcode) {
            let n = self.bus.read(addr);
            self.sbc_apply(n);
        }
    }

    /// AND; see `and_spec`.
    fn and(&mut self, opcode: &Opcode)
        requires
            old(self).bus.wf(),
        ensures
            final (self).bus.wf(),
            final (self)@ == and_spec(old(self)@, *opcode),
    {
        if let Operand::Address(addr) = self.get_operand(opcode) {
            self.reg.a = self.reg.a & self.bus.read(addr);
            let a = self.reg.a;
            self.update_nz_flags(a);
        }
    }

    /// ORA; see `ora_spec`.
    fn ora(&mut self, opcode: &Opcode)
        requires
            old(self).bus.wf(),
        ensures
            final (self).bus.wf(),
            final (self)@ == ora_spec(old(self)@, *opcode),
    {
        if let Operand::Address(addr) = self.get_operand(opcode) {
            self.reg.a = self.reg.a | self.bus.read(addr);
            let a = self.reg.a;
            self.update_nz_flags(a);
        }
    }

    /// EOR; see `eor_spec`.
    fn eor(&mut self, opcode: &Opcode)
        requires
            old(self).bus.wf(),
        ensures
            final (self).bus.wf(),
            final (self)@ == eor_spec(old(self)@, *opcode),
    {
        if let Operand::Address(addr) = self.get_operand(opcode) {
            self.reg.a = self.reg.a ^ self.bus.read(addr);
            let a = self.reg.a;
            self.update_nz_flags(a);
        }
    }
}

} // verus!

verus! {

impl<P: Peripheral> CPU<P> {
    /// Arithmetic shift left of one byte, updating C, Z and N.
    fn _asl(&mut self, value: u8) -> (r: u8)
        ensures
            r == asl_val(value),
            final (self)@ == (CpuView {
                reg: Registers { p: asl_flags(old(self)@.reg.p, value), ..old(self)@.reg },
                ..old(self)@
            }),
    {
        self.set_flag(Flag::Carry, value >= 0x80);
        let result = (2 * (value as u16) % 256) as u8;
        self.update_nz_flags(result);
        result
    }

    /// Logical shift right of one byte; C from bit 0, Z from the old value,
    /// N cleared.
    fn _lsr(&mut self, value: u8) -> (r: u8)
        ensures
            r == lsr_val(value),
            final (self)@ == (CpuView {
                reg: Registers { p: lsr_flags(old(self)@.reg.p, value), ..old(self)@.reg },
                ..old(self)@
            }),
    {
        self.set_flag(Flag::Carry, value % 2 == 1);
        let result = value / 2;
        self.set_flag(Flag::Zero, value == 0);
        self.set_flag(Flag::Negative, false);
        result
    }

    /// Rotate left through carry, updating C, Z and N.
    fn _rol(&mut self, value: u8) -> (r: u8)
        ensures
            r == rol_val(value, old(self)@.reg.p.carry),
            final (self)@ == (CpuView {
                reg: Registers { p: rol_flags(old(self)@.reg.p, value), ..old(self)@.reg },
                ..old(self)@
            }),
    {
        let carry_in: u8 = if self.reg.p.carry {
            1
        } else {
            0
        };
        let result = (2 * (value as u16) % 256) as u8 + carry_in;
        self.set_flag(Flag::Carry, value >= 0x80);
        self.update_nz_flags(result);
        result
    }

    /// Rotate right through carry, updating C, Z and N.
    fn _ror(&mut self, value: u8) -> (r: u8)
        ensures
            r == ror_val(value, old(self)@.reg.p.carry),
            final (self)@ == (CpuView {
                reg: Registers { p: ror_flags(old(self)@.reg.p, value), ..old(self)@.reg },
                ..old(self)@
            }),
    {
        let carry_in: u8 = if self.reg.p.carry {
            128
        } else {
            0
        };
        let result = value / 2 + carry_in;
        self.set_flag(Flag::Carry, value % 2 == 1);
        self.update_nz_flags(result);
        result
    }

    /// ASL on the accumulator or on memory; see `shift_spec`.
    fn asl(&mut self, opcode: &Opcode)
        requires
            old(self).bus.wf(),
        ensures
            final (self).bus.wf(),
            final (self)@ == shift_spec(old(self)@, *opcode, Mnemonic::ASL),
    {
        match self.get_operand(opcode) {
            Operand::Accumulator => {
                let a = self.reg.a;
                let r = self._asl(a);
                self.reg.a = r;
            },
            Operand::Address(addr) => {
                let v = self.bus.read(addr);
                let b = self._asl(v);
                self.bus.write(addr, b);
            },
        }
    }

    /// LSR on the accumulator or on memory; see `shift_spec`.
    fn lsr(&mut self, opcode: &Opcode)
        requires
            old(self).bus.wf(),
        ensures
            final (self).bus.wf(),
            final (self)@ == shift_spec(old(self)@, *opcode, Mnemonic::LSR),
    {
        match self.get_operand(opcode) {
            Operand::Accumulator => {
                let a = self.reg.a;
                let r = self._lsr(a);
                self.reg.a = r;
            },
            Operand::Address(addr) => {
                let v = self.bus.read(addr);
                let b = self._lsr(v);
                self.bus.write(addr, b);
            },
        }
    }

    /// ROL on the accumulator or on memory; see `shift_spec`.
    fn rol(&mut self, opcode: &Opcode)
        requires
            old(self).bus.wf(),
        ensures
            final (self).bus.wf(),
            final (self)@ == shift_spec(old(self)@, *opcode, Mnemonic::ROL),
    {
        match self.get_operand(opcode) {
            Operand::Accumulator => {
                let a = self.reg.a;
                let r = self._rol(a);
                self.reg.a = r;
            },
            Operand::Address(addr) => {
                let v = self.bus.read(addr);
                let b = self._rol(v);
                self.bus.write(addr, b);
            },
        }
    }

    /// ROR on the accumulator or on memory; see `shift_spec`.
    fn ror(&mut self, opcode: &Opcode)
        requires
            old(self).bus.wf(),
        ensures
            final (self).bus.wf(),
            final (self)@ == shift_spec(old(self)@, *opcode, Mnemonic::ROR),
    {
        match self.get_operand(opcode) {
            Operand::Accumulator => {
                let a = self.reg.a;
                let r = self._ror(a);
                self.reg.a = r;
            },
            Operand::Address(addr) => {
                let v = self.bus.read(addr);
                let b = self._ror(v);
                self.bus.write(addr, b);
            },
        }
    }

    /// BIT; see `bit_spec`.
    fn bit(&mut self, opcode: &Opcode)
        requires
            old(self).bus.wf(),
        ensures
            final (self).bus.wf(),
            final (self)@ == bit_spec(old(self)@, *opcode),
    {
        if let Operand::Address(addr) = self.get_operand(opcode) {
            let operand = self.bus.read(addr);
            let result = self.reg.a & operand;
            self.update_nz_flags(result);
            self.set_flag(Flag::Negative, operand >= 0x80);
            self.set_flag(Flag::Overflow, operand / 64 % 2 == 1);
        }
    }

    /// A conditional branch; see `branch_spec`.
    #[verifier::rlimit(100)]
    fn branch(&mut self, opcode: &Opcode, condition: bool)
        requires
            old(self).bus.wf(),
        ensures
            final (self).bus.wf(),
            final (self)@ == branch_spec(old(self)@, *opcode, condition),
    {
        if !condition {
            return ;
        }
        self.cycle = self.cycle.wrapping_add(1);
        if let Operand::Address(addr) = self.get_operand(opcode) {
            let page = self.reg.pc.wrapping_add(1) / 256;
            let offset = self.bus.read(addr);
            let disp: u16 = if offset < 128 {
                offset as u16
            } else {
                offset as u16 + 0xff00
            };
            self.reg.pc = self.reg.pc.wrapping_add(1).wrapping_add(disp);
            if page != self.reg.pc / 256 {
                self.cycle = self.cycle.wrapping_add(1);
            }
        }
    }

    /// CMP/CPX/CPY against `reg`; see `cmp_spec`.
    #[verifier::rlimit(100)]
    fn cmp(&mut self, opcode: &Opcode, reg: u8)
        requires
            old(self).bus.wf(),
        ensures
            final (self).bus.wf(),
            final (self)@ == cmp_spec(old(self)@, *opcode, reg),
    {
        if let Operand::Address(addr) = self.get_operand(opcode) {
            let operand = self.bus.read(addr);
            self.set_flag(Flag::Zero, reg == operand);
            self.set_flag(Flag::Carry, reg >= operand);
            self.set_flag(Flag::Negative, reg.wrapping_sub(operand) >= 0x80);
        }
    }

    /// DEC on memory; see `incdec_spec`.
    fn dec(&mut self, opcode: &Opcode)
        requires
            old(self).bus.wf(),
        ensures
            final (self).bus.wf(),
            final (self)@ == incdec_spec(old(self)@, *opcode, false),
    {
        if let Operand::Address(addr) = self.get_operand(opcode) {
            let value = self.bus.read(addr).wrapping_sub(1);
            self.bus.write(addr, value);
            self.update_nz_flags(value);
        }
    }

    /// INC on memory; see `incdec_spec`.
    fn inc(&mut self, opcode: &Opcode)
        requires
            old(self).bus.wf(),
        ensures
            final (self).bus.wf(),
            final (self)@ == incdec_spec(old(self)@, *opcode, true),
    {
        if let Operand::Address(addr) = self.get_operand(opcode) {
            let value = self.bus.read(addr).wrapping_add(1);
            self.bus.write(addr, value);
            self.update_nz_flags(value);
        }
    }

    /// JMP, absolute or indirect with the page-wrap bug; see `jmp_spec`.
    fn jmp(&mut self, opcode: &Opcode)
        requires
            old(self).bus.wf(),
        ensures
            final (self).bus.wf(),
            final (self)@ == jmp_spec(old(self)@, *opcode),
    {
        let operand = self.bus.read_u16(self.reg.pc);
        if opcode.code == 0x6c {
            if operand % 256 != 0xff {
                self.reg.pc = self.bus.read_u16(operand);
                return ;
            }
            // the hardware bug: the high byte comes from the start of the
            // pointer's own page
            let lo = self.bus.read(operand) as u16;
            let hi = self.bus.read(operand - 0xff) as u16;
            self.reg.pc = hi * 256 + lo;
            return ;
        }
        self.reg.pc = operand;
    }

    /// JSR; see `jsr_spec`.
    fn jsr(&mut self, opcode: &Opcode)
        requires
            old(self).bus.wf(),
        ensures
            final (self).bus.wf(),
            final (self)@ == jsr_spec(old(self)@, *opcode),
    {
        if let Operand::Address(addr) = self.get_operand(opcode) {
            let ret = self.reg.pc.wrapping_add(1);
            self.stack_push_u16(ret);
            self.reg.pc = addr;
        }
    }

    /// LDA; see `load_reg_spec`.
    fn lda(&mut self, opcode: &Opcode)
        requires
            old(self).bus.wf(),
        ensures
            final (self).bus.wf(),
            final (self)@ == load_reg_spec(old(self)@, *opcode, 0),
    {
        if let Operand::Address(addr) = self.get_operand(opcode) {
            self.reg.a = self.bus.read(addr);
            let v = self.reg.a;
            self.update_nz_flags(v);
        }
    }

    /// LDX; see `load_reg_spec`.
    fn ldx(&mut self, opcode: &Opcode)
        requires
            old(self).bus.wf(),
        ensures
            final (self).bus.wf(),
            final (self)@ == load_reg_spec(old(self)@, *opcode, 1),
    {
        if let Operand::Address(addr) = self.get_operand(opcode) {
            self.reg.x = self.bus.read(addr);
            let v = self.reg.x;
            self.update_nz_flags(v);
        }
    }

    /// LDY; see `load_reg_spec`.
    fn ldy(&mut self, opcode: &Opcode)
        requires
            old(self).bus.wf(),
        ensures
            final (self).bus.wf(),
            final (self)@ == load_reg_spec(old(self)@, *opcode, 2),
    {
        if let Operand::Address(addr) = self.get_operand(opcode) {
            self.reg.y = self.bus.read(addr);
            let v = self.reg.y;
            self.update_nz_flags(v);
        }
    }

    /// STA/STX/STY of `reg`; see `store_spec`.
    fn store(&mut self, opcode: &Opcode, reg: u8)
        requires
            old(self).bus.wf(),
        ensures
            final (self).bus.wf(),
            final (self)@ == store_spec(old(self)@, *opcode, reg),
    {
        if let Operand::Address(addr) = self.get_operand(opcode) {
            self.bus.write(addr, reg);
        }
    }

    /// PHA: push the accumulator.
    fn pha(&mut self)
        requires
            old(self).bus.wf(),
        ensures
            final (self).bus.wf(),
            final (self)@ == push_spec(old(self)@, old(self)@.reg.a),
    {
        let a = self.reg.a;
        self.stack_push(a);
    }

    /// PHP: push the flag byte with Break and Unused forced set.
    fn php(&mut self)
        requires
            old(self).bus.wf(),
        ensures
            final (self).bus.wf(),
            final (self)@ == php_spec(old(self)@),
    {
        let mut image = self.reg.p;
        image.brk = true;
        image.unused = true;
        let bits = image.bits();
        self.stack_push(bits);
    }

    /// PLA: pull into the accumulator, updating Z and N.
    fn pla(&mut self)
        requires
            old(self).bus.wf(),
        ensures
            final (self).bus.wf(),
            final (self)@ == pla_spec(old(self)@),
    {
        self.reg.a = self.stack_pull();
        let a = self.reg.a;
        self.update_nz_flags(a);
    }

    /// PLP: pull the flag byte; Break and Unused read back as set.
    fn plp(&mut self)
        requires
            old(self).bus.wf(),
        ensures
            final (self).bus.wf(),
            final (self)@ == plp_spec(old(self)@),
    {
        let b = self.stack_pull();
        let mut f = Flags::from_bits(b);
        f.brk = true;
        f.unused = true;
        self.reg.p = f;
    }

    /// RTI; see `rti_spec`.
    fn rti(&mut self)
        requires
            old(self).bus.wf(),
        ensures
            final (self).bus.wf(),
            final (self)@ == rti_spec(old(self)@),
    {
        let b = self.stack_pull();
        let mut f = Flags::from_bits(b);
        f.brk = true;
        f.unused = true;
        self.reg.p = f;
        self.reg.pc = self.stack_pull_u16();
    }

    /// RTS; see `rts_spec`.
    fn rts(&mut self)
        requires
            old(self).bus.wf(),
        ensures
            final (self).bus.wf(),
            final (self)@ == rts_spec(old(self)@),
    {
        let w = self.stack_pull_u16();
        self.reg.pc = w.wrapping_add(1);
    }

    /// DEX: decrement X, updating Z and N.
    fn dex(&mut self)
        ensures
            final (self)@ == (CpuView {
                reg: Registers {
                    x: wsub8(old(self)@.reg.x, 1),
                    p: nz(old(self)@.reg.p, wsub8(old(self)@.reg.x, 1)),
                    ..old(self)@.reg
                },
                ..old(self)@
            }),
    {
        self.reg.x = self.reg.x.wrapping_sub(1);
        let v = self.reg.x;
        self.update_nz_flags(v);
    }

    /// DEY: decrement Y, updating Z and N.
    fn dey(&mut self)
        ensures
            final (self)@ == (CpuView {
                reg: Registers {
                    y: wsub8(old(self)@.reg.y, 1),
                    p: nz(old(self)@.reg.p, wsub8(old(self)@.reg.y, 1)),
                    ..old(self)@.reg
                },
                ..old(self)@
            }),
    {
        self.reg.y = self.reg.y.wrapping_sub(1);
        let v = self.reg.y;
        self.update_nz_flags(v);
    }

    /// INX: increment X, updating Z and N.
    fn inx(&mut self)
        ensures
            final (self)@ == (CpuView {
                reg: Registers {
                    x: wadd8(old(self)@.reg.x, 1),
                    p: nz(old(self)@.reg.p, wadd8(old(self)@.reg.x, 1)),
                    ..old(self)@.reg
                },
                ..old(self)@
            }),
    {
        self.reg.x = self.reg.x.wrapping_add(1);
        let v = self.reg.x;
        self.update_nz_flags(v);
    }

    /// INY: increment Y, updating Z and N.
    fn iny(&mut self)
        ensures
            final (self)@ == (CpuView {
                reg: Registers {
                    y: wadd8(old(self)@.reg.y, 1),
                    p: nz(old(self)@.reg.p, wadd8(old(self)@.reg.y, 1)),
                    ..old(self)@.reg
                },
                ..old(self)@
            }),
    {
        self.reg.y = self.reg.y.wrapping_add(1);
        let v = self.reg.y;
        self.update_nz_flags(v);
    }

    /// TAX: X gets A, updating Z and N.
    fn tax(&mut self)
        ensures
            final (self)@ == (CpuView {
                reg: Registers {
                    x: old(self)@.reg.a,
                    p: nz(old(self)@.reg.p, old(self)@.reg.a),
                    ..old(self)@.reg
                },
                ..old(self)@
            }),
    {
        self.reg.x = self.reg.a;
        let v = self.reg.x;
        self.update_nz_flags(v);
    }

    /// TAY: Y gets A, updating Z and N.
    fn tay(&mut self)
        ensures
            final (self)@ == (CpuView {
                reg: Registers {
                    y: old(self)@.reg.a,
                    p: nz(old(self)@.reg.p, old(self)@.reg.a),
                    ..old(self)@.reg
                },
                ..old(self)@
            }),
    {
        self.reg.y = self.reg.a;
        let v = self.reg.y;
        self.update_nz_flags(v);
    }

    /// TSX: X gets SP, updating Z and N.
    fn tsx(&mut self)
        ensures
            final (self)@ == (CpuView {
                reg: Registers {
                    x: old(self)@.reg.sp,
                    p: nz(old(self)@.reg.p, old(self)@.reg.sp),
                    ..old(self)@.reg
                },
                ..old(self)@
            }),
    {
        self.reg.x = self.reg.sp;
        let v = self.reg.x;
        self.update_nz_flags(v);
    }

    /// TXA: A gets X, updating Z and N.
    fn txa(&mut self)
        ensures
            final (self)@ == (CpuView {
                reg: Registers {
                    a: old(self)@.reg.x,
                    p: nz(old(self)@.reg.p, old(self)@.reg.x),
                    ..old(self)@.reg
                },
                ..old(self)@
            }),
    {
        self.reg.a = self.reg.x;
        let v = self.reg.a;
        self.update_nz_flags(v);
    }

    /// TXS: SP gets X; no flags change.
    fn txs(&mut self)
        ensures
            final (self)@ == (CpuView {
                reg: Registers { sp: old(self)@.reg.x, ..old(self)@.reg },
                ..old(self)@
            }),
    {
        self.reg.sp = self.reg.x;
    }

    /// TYA: A gets Y, updating Z and N.
    fn tya(&mut self)
        ensures
            final (self)@ == (CpuView {
                reg: Registers {
                    a: old(self)@.reg.y,
                    p: nz(old(self)@.reg.p, old(self)@.reg.y),
                    ..old(self)@.reg
                },
                ..old(self)@
            }),
    {
        self.reg.a = self.reg.y;
        let v = self.reg.a;
        self.update_nz_flags(v);
    }
}

} // verus!

verus! {

impl<P: Peripheral> CPU<P> {
    /// Executes exactly one instruction (or takes a pending interrupt):
    /// fetch the opcode byte at PC, advance PC past it, dispatch, advance PC
    /// past the operand bytes for handlers that left it alone, and charge
    /// the base cycle count. Fails with `UnrecognizedOpcode` exactly on an
    /// undocumented byte — PC has then already advanced past the byte and
    /// the cycle counter is unchanged.
    /// Hands one decoded instruction to its handler and reports whether it
    /// was BRK (whose interrupt entry replaces the usual step tail).
    #[verifier::rlimit(100)]
    fn dispatch(&mut self, op: &Opcode) -> (brk: bool)
        requires
            old(self).bus.wf(),
        ensures
            final (self).bus.wf(),
            final (self)@ == dispatch_spec(old(self)@, *op),
            brk == (op.mnemonic == Mnemonic::BRK),
    {
        match op.mnemonic {
            Mnemonic::ADC => self.adc(op),
            Mnemonic::AND => self.and(op),
            Mnemonic::ASL => self.asl(op),
            Mnemonic::BCC => {
                let c = self.reg.p.carry;
                self.branch(op, !c);
            },
            Mnemonic::BCS => {
                let c = self.reg.p.carry;
                self.branch(op, c);
            },
            Mnemonic::BEQ => {
                let c = self.reg.p.zero;
                self.branch(op, c);
            },
            Mnemonic::BIT => self.bit(op),
            Mnemonic::BMI => {
                let c = self.reg.p.negative;
                self.branch(op, c);
            },
            Mnemonic::BNE => {
                let c = self.reg.p.zero;
                self.branch(op, !c);
            },
            Mnemonic::BPL => {
                let c = self.reg.p.negative;
                self.branch(op, !c);
            },
            Mnemonic::BRK => {
                self.interrupt(Interrupt::BRK);
                return true;
            },
            Mnemonic::BVC => {
                let c = self.reg.p.overflow;
                self.branch(op, !c);
            },
            Mnemonic::BVS => {
                let c = self.reg.p.overflow;
                self.branch(op, c);
            },
            Mnemonic::CLC => self.set_flag(Flag::Carry, false),
            Mnemonic::CLD => self.set_flag(Flag::Decimal, false),
            Mnemonic::CLI => self.set_flag(Flag::Interrupt, false),
            Mnemonic::CLV => self.set_flag(Flag::Overflow, false),
            Mnemonic::CMP => {
                let r = self.reg.a;
                self.cmp(op, r);
            },
            Mnemonic::CPX => {
                let r = self.reg.x;
                self.cmp(op, r);
            },
            Mnemonic::CPY => {
                let r = self.reg.y;
                self.cmp(op, r);
            },
            Mnemonic::DEC => self.dec(op),
            Mnemonic::DEX => self.dex(),
            Mnemonic::DEY => self.dey(),
            Mnemonic::EOR => self.eor(op),
            Mnemonic::INC => self.inc(op),
            Mnemonic::INX => self.inx(),
            Mnemonic::INY => self.iny(),
            Mnemonic::JMP => self.jmp(op),
            Mnemonic::JSR => self.jsr(op),
            Mnemonic::LDA => self.lda(op),
            Mnemonic::LDX => self.ldx(op),
            Mnemonic::LDY => self.ldy(op),
            Mnemonic::LSR => self.lsr(op),
            Mnemonic::NOP => {},
            Mnemonic::ORA => self.ora(op),
            Mnemonic::PHA => self.pha(),
            Mnemonic::PHP => self.php(),
            Mnemonic::PLA => self.pla(),
            Mnemonic::PLP => self.plp(),
            Mnemonic::ROL => self.rol(op),
            Mnemonic::ROR => self.ror(op),
            Mnemonic::RTI => self.rti(),
            Mnemonic::RTS => self.rts(),
            Mnemonic::SBC => self.sbc(op),
            Mnemonic::SEC => self.set_flag(Flag::Carry, true),
            Mnemonic::SED => self.set_flag(Flag::Decimal, true),
            Mnemonic::SEI => self.set_flag(Flag::Interrupt, true),
            Mnemonic::STA => {
                let r = self.reg.a;
                self.store(op, r);
            },
            Mnemonic::STX => {
                let r = self.reg.x;
                self.store(op, r);
            },
            Mnemonic::STY => {
                let r = self.reg.y;
                self.store(op, r);
            },
            Mnemonic::TAX => self.tax(),
            Mnemonic::TAY => self.tay(),
            Mnemonic::TSX => self.tsx(),
            Mnemonic::TXA => self.txa(),
            Mnemonic::TXS => self.txs(),
            Mnemonic::TYA => self.tya(),
        }
        false
    }

    /// Executes exactly one instruction (or takes a pending interrupt):
    /// fetch the opcode byte at PC, advance PC past it, dispatch, advance PC
    /// past the operand bytes for handlers that left it alone, and charge
    /// the base cycle count. Fails with `UnrecognizedOpcode` exactly on an
    /// undocumented byte — PC has then already advanced past the byte and
    /// the cycle counter is unchanged.
    #[verifier::rlimit(100)]
    pub fn step(&mut self) -> (r: Result<(), Error>)
        requires
            old(self).bus.wf(),
        ensures
            final (self).bus.wf(),
            final (self)@ == step_spec(old(self)@),
            (r matches Err(e) ==> step_err(old(self)@) == Some(e)),
            (r is Ok ==> step_err(old(self)@) is None),
    {
        if !self.irq && !self.reg.p.interrupt {
            self.interrupt(Interrupt::IRQ);
            return Ok(());
        } else if self.nmi_edge {
            self.nmi_edge = false;
            self.interrupt(Interrupt::NMI);
            return Ok(());
        }
        let code = self.bus.read(self.reg.pc);
        self.reg.pc = self.reg.pc.wrapping_add(1);
        let pc_copy = self.reg.pc;
        let op = match opcode_for(code) {
            Some(op) => op,
            None => {
                return Err(Error::UnrecognizedOpcode(code));
            },
        };
        if self.dispatch(&op) {
            return Ok(());
        }
        if pc_copy == self.reg.pc {
            self.reg.pc = self.reg.pc.wrapping_add((op.size as u16).wrapping_sub(1));
        }
        self.cycle = self.cycle.wrapping_add(op.tick as u64);
        Ok(())
    }
}

} // verus!

verus! {

impl<P: Peripheral> CPU<P> {
    /// Steps until the Break flag reads set (`Ok(true)`), a step fails
    /// (`Err`, with that step's own error: the machine then sits just past
    /// the bad byte), or a step budget of `u64::MAX` instructions runs out
    /// first (`Ok(false)`; the verifier asks every loop for a bound, and
    /// this one is beyond reach in practice).
    pub fn run_until_brk(&mut self) -> (r: Result<bool, Error>)
        requires
            old(self).bus.wf(),
        ensures
            final (self).bus.wf(),
            r == Ok::<bool, Error>(true) ==> final (self).reg.p.brk,
            r == Ok::<bool, Error>(false) ==> !final (self).reg.p.brk,
            (r matches Err(e) ==> ({
                let pre = CpuView {
                    reg: Registers { pc: wsub16(final (self)@.reg.pc, 1), ..final (self)@.reg },
                    ..final (self)@
                };
                step_err(pre) == Some(e) && final (self)@ == step_spec(pre)
            })),
    {
        let mut budget: u64 = u64::MAX;
        while budget > 0
            invariant
                self.bus.wf(),
            decreases budget,
        {
            if self.reg.p.contains(Flag::Brk) {
                return Ok(true);
            }
            let ghost pre = self@;
            if let Err(e) = self.step() {
                proof {
                    assert(self@ == (CpuView {
                        reg: Registers { pc: wadd16(pre.reg.pc, 1), ..pre.reg },
                        ..pre
                    }));
                    assert(pre == (CpuView {
                        reg: Registers { pc: wsub16(self@.reg.pc, 1), ..self@.reg },
                        ..self@
                    }));
                }
                return Err(e);
            }
            budget = budget - 1;
        }
        if self.reg.p.contains(Flag::Brk) {
            Ok(true)
        } else {
            Ok(false)
        }
    }

    /// Calls `callback` before every instruction and steps while it answers
    /// `Continue`; stops on `Break`, on a failing step, or when the step
    /// budget of `u64::MAX` instructions runs out.
    pub fn run_with_callback<F: Fn(&CPU<P>) -> core::ops::ControlFlow<()>>(&mut self, callback: F)
        requires
            old(self).bus.wf(),
            forall|s: &CPU<P>| #[trigger] callback.requires((s,)),
        ensures
            final (self).bus.wf(),
    {
        let mut budget: u64 = u64::MAX;
        while budget > 0
            invariant
                self.bus.wf(),
                forall|s: &CPU<P>| #[trigger] callback.requires((s,)),
            decreases budget,
        {
            if matches!(callback(&*self), core::ops::ControlFlow::Break(_)) {
                return ;
            }
            if self.step().is_err() {
                return ;
            }
            budget = budget - 1;
        }
    }
}

} // verus!
