//! The 6502 status register, kept as one boolean per flag.
//!
//! The architectural register is a byte laid out as `N V _ B D I Z C`
//! (bit 7 down to bit 0); `bits` and `from_bits` translate between the
//! record and that byte whenever the register travels through the stack.

use vstd::prelude::*;

verus! {

/// Selects one status flag.
#[derive(Debug, Clone, Copy, PartialEq, Eq, Structural)]
pub enum Flag {
    Negative,
    Overflow,
    Unused,
    Brk,
    Decimal,
    Interrupt,
    Zero,
    Carry,
}

/// The status register: one field per flag, `N V _ B D I Z C`.
#[derive(Debug, Clone, Copy, PartialEq, Eq, Structural)]
pub struct Flags {
    pub negative: bool,
    pub overflow: bool,
    pub unused: bool,
    pub brk: bool,
    pub decimal: bool,
    pub interrupt: bool,
    pub zero: bool,
    pub carry: bool,
}

/// The all-clear flag byte.
pub open spec fn flags_zero() -> Flags {
    Flags {
        negative: false,
        overflow: false,
        unused: false,
        brk: false,
        decimal: false,
        interrupt: false,
        zero: false,
        carry: false,
    }
}

impl Default for Flags {
    /// Every flag clear.
    fn default() -> (r: Self)
        ensures
            r == flags_zero(),
    {
        Flags {
            negative: false,
            overflow: false,
            unused: false,
            brk: false,
            decimal: false,
            interrupt: false,
            zero: false,
            carry: false,
        }
    }
}

/// 1 for a set flag, 0 for a clear one.
pub open spec fn b2u(b: bool) -> u8 {
    if b {
        1
    } else {
        0
    }
}

/// The byte image of `f`, bit 7 = N down to bit 0 = C.
pub open spec fn bits_spec(f: Flags) -> u8 {
    (128 * b2u(f.negative) + 64 * b2u(f.overflow) + 32 * b2u(f.unused) + 16 * b2u(f.brk) + 8 * b2u(
        f.decimal,
    ) + 4 * b2u(f.interrupt) + 2 * b2u(f.zero) + b2u(f.carry)) as u8
}

/// The flag record encoded by the byte `x`.
pub open spec fn from_bits_spec(x: u8) -> Flags {
    Flags {
        negative: x / 128 % 2 == 1,
        overflow: x / 64 % 2 == 1,
        unused: x / 32 % 2 == 1,
        brk: x / 16 % 2 == 1,
        decimal: x / 8 % 2 == 1,
        interrupt: x / 4 % 2 == 1,
        zero: x / 2 % 2 == 1,
        carry: x % 2 == 1,
    }
}

/// The record `f` with the flag `which` set to `value`.
pub open spec fn with_flag(f: Flags, which: Flag, value: bool) -> Flags {
    match which {
        Flag::Negative => Flags { negative: value, ..f },
        Flag::Overflow => Flags { overflow: value, ..f },
        Flag::Unused => Flags { unused: value, ..f },
        Flag::Brk => Flags { brk: value, ..f },
        Flag::Decimal => Flags { decimal: value, ..f },
        Flag::Interrupt => Flags { interrupt: value, ..f },
        Flag::Zero => Flags { zero: value, ..f },
        Flag::Carry => Flags { carry: value, ..f },
    }
}

/// Which field of `f` the selector `which` reads.
pub open spec fn flag_of(f: Flags, which: Flag) -> bool {
    match which {
        Flag::Negative => f.negative,
        Flag::Overflow => f.overflow,
        Flag::Unused => f.unused,
        Flag::Brk => f.brk,
        Flag::Decimal => f.decimal,
        Flag::Interrupt => f.interrupt,
        Flag::Zero => f.zero,
        Flag::Carry => f.carry,
    }
}

impl Flags {
    /// Whether the selected flag is set.
    pub fn contains(&self, which: Flag) -> (r: bool)
        ensures
            r == flag_of(*self, which),
    {
        match which {
            Flag::Negative => self.negative,
            Flag::Overflow => self.overflow,
            Flag::Unused => self.unused,
            Flag::Brk => self.brk,
            Flag::Decimal => self.decimal,
            Flag::Interrupt => self.interrupt,
            Flag::Zero => self.zero,
            Flag::Carry => self.carry,
        }
    }

    /// Sets or clears the selected flag.
    pub fn set(&mut self, which: Flag, value: bool)
        ensures
            *final(self) == with_flag(*old(self), which, value),
    {
        match which {
            Flag::Negative => self.negative = value,
            Flag::Overflow => self.overflow = value,
            Flag::Unused => self.unused = value,
            Flag::Brk => self.brk = value,
            Flag::Decimal => self.decimal = value,
            Flag::Interrupt => self.interrupt = value,
            Flag::Zero => self.zero = value,
            Flag::Carry => self.carry = value,
        }
    }

    /// Packs the flags into their byte image.
    pub fn bits(&self) -> (r: u8)
        ensures
            r == bits_spec(*self),
    {
        let mut r: u8 = 0;
        if self.negative {
            r = r + 128;
        }
        if self.overflow {
            r = r + 64;
        }
        if self.unused {
            r = r + 32;
        }
        if self.brk {
            r = r + 16;
        }
        if self.decimal {
            r = r + 8;
        }
        if self.interrupt {
            r = r + 4;
        }
        if self.zero {
            r = r + 2;
        }
        if self.carry {
            r = r + 1;
        }
        r
    }

    /// Unpacks a byte image into a flag record.
    pub fn from_bits(x: u8) -> (r: Flags)
        ensures
            r == from_bits_spec(x),
    {
        Flags {
            negative: x / 128 % 2 == 1,
            overflow: x / 64 % 2 == 1,
            unused: x / 32 % 2 == 1,
            brk: x / 16 % 2 == 1,
            decimal: x / 8 % 2 == 1,
            interrupt: x / 4 % 2 == 1,
            zero: x / 2 % 2 == 1,
            carry: x % 2 == 1,
        }
    }
}

} // verus!
