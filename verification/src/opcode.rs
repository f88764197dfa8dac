//! The static description of the 151 documented 6502 instructions.
//!
//! `opcode_for` maps an opcode byte to its descriptor: operand size in bytes,
//! base cycle count, addressing mode, and an optional cycle modifier for
//! page-crossing reads and taken branches. Undocumented bytes map to `None`.
//! The same table is available to specifications through `opcode_spec`.

use vstd::prelude::*;

verus! {

/// An extra-cycle rule attached to some opcodes.
#[derive(Debug, Clone, Copy, PartialEq, Eq, Structural)]
pub enum TickModifier {
    /// A taken branch costs more, and one more again across a page.
    Branch,
    /// Reading across a page boundary costs one extra cycle.
    PageCrossed,
}

/// The thirteen documented addressing modes.
#[derive(Debug, Clone, Copy, PartialEq, Eq, Structural)]
pub enum AddressingMode {
    Implied,
    Immediate,
    Relative,
    Accumulator,
    ZeroPage,
    ZeroPageX,
    ZeroPageY,
    Absolute,
    AbsoluteX,
    AbsoluteY,
    Indirect,
    IndirectX,
    IndirectY,
}

/// The instruction family an opcode belongs to.
#[derive(Debug, Clone, Copy, PartialEq, Eq, Hash, Structural)]
pub enum Mnemonic {
    ADC,
    AND,
    ASL,
    BCC,
    BCS,
    BEQ,
    BIT,
    BMI,
    BNE,
    BPL,
    BRK,
    BVC,
    BVS,
    CLC,
    CLD,
    CLI,
    CLV,
    CMP,
    CPX,
    CPY,
    DEC,
    DEX,
    DEY,
    EOR,
    INC,
    INX,
    INY,
    JMP,
    JSR,
    LDA,
    LDX,
    LDY,
    LSR,
    NOP,
    ORA,
    PHA,
    PHP,
    PLA,
    PLP,
    ROL,
    ROR,
    RTI,
    RTS,
    SBC,
    SEC,
    SED,
    SEI,
    STA,
    STX,
    STY,
    TAX,
    TAY,
    TSX,
    TXA,
    TXS,
    TYA,
}

/// One entry of the opcode table.
#[derive(Debug, Clone, Copy, PartialEq, Eq, Structural)]
pub struct Opcode {
    /// The opcode byte itself.
    pub code: u8,
    /// Whole instruction length in bytes, opcode included (1 to 3).
    pub size: u8,
    /// Base cycle count (2 to 7).
    pub tick: u8,
    /// The instruction family.
    pub mnemonic: Mnemonic,
    /// How the operand is located.
    pub mode: AddressingMode,
    /// Extra-cycle rule, where one applies.
    pub tick_modifier: Option<TickModifier>,
}

impl Opcode {
    /// Bundles the six descriptor fields.
    #[verifier::allow_in_spec]
    pub fn new(
        code: u8,
        size: u8,
        tick: u8,
        mnemonic: Mnemonic,
        mode: AddressingMode,
        tick_modifier: Option<TickModifier>,
    ) -> Self
        returns
            (Opcode { code, size, tick, mnemonic, mode, tick_modifier }),
    {
        Opcode { code, size, tick, mnemonic, mode, tick_modifier }
    }
}

/// The opcode table as a specification-level function.
pub open spec fn opcode_spec(code: u8) -> Option<Opcode> {
    match code {
        0x00 => Some(Opcode::new(0x00, 1, 7, Mnemonic::BRK, AddressingMode::Implied, None)),
        0x01 => Some(Opcode::new(0x01, 2, 6, Mnemonic::ORA, AddressingMode::IndirectX, None)),
        0x05 => Some(Opcode::new(0x05, 2, 3, Mnemonic::ORA, AddressingMode::ZeroPage, None)),
        0x06 => Some(Opcode::new(0x06, 2, 5, Mnemonic::ASL, AddressingMode::ZeroPage, None)),
        0x08 => Some(Opcode::new(0x08, 1, 3, Mnemonic::PHP, AddressingMode::Implied, None)),
        0x09 => Some(Opcode::new(0x09, 2, 2, Mnemonic::ORA, AddressingMode::Immediate, None)),
        0x0a => Some(Opcode::new(0x0a, 1, 2, Mnemonic::ASL, AddressingMode::Accumulator, None)),
        0x0d => Some(Opcode::new(0x0d, 3, 4, Mnemonic::ORA, AddressingMode::Absolute, None)),
        0x0e => Some(Opcode::new(0x0e, 3, 6, Mnemonic::ASL, AddressingMode::Absolute, None)),
        0x10 => Some(Opcode::new(0x10, 2, 2, Mnemonic::BPL, AddressingMode::Relative, Some(TickModifier::Branch))),
        0x11 => Some(Opcode::new(0x11, 2, 5, Mnemonic::ORA, AddressingMode::IndirectY, Some(TickModifier::PageCrossed))),
        0x15 => Some(Opcode::new(0x15, 2, 4, Mnemonic::ORA, AddressingMode::ZeroPageX, None)),
        0x16 => Some(Opcode::new(0x16, 2, 6, Mnemonic::ASL, AddressingMode::ZeroPageX, None)),
        0x18 => Some(Opcode::new(0x18, 1, 2, Mnemonic::CLC, AddressingMode::Implied, None)),
        0x19 => Some(Opcode::new(0x19, 3, 4, Mnemonic::ORA, AddressingMode::AbsoluteY, Some(TickModifier::PageCrossed))),
        0x1d => Some(Opcode::new(0x1d, 3, 4, Mnemonic::ORA, AddressingMode::AbsoluteX, Some(TickModifier::PageCrossed))),
        0x1e => Some(Opcode::new(0x1e, 3, 7, Mnemonic::ASL, AddressingMode::AbsoluteX, None)),
        0x20 => Some(Opcode::new(0x20, 3, 6, Mnemonic::JSR, AddressingMode::Absolute, None)),
        0x21 => Some(Opcode::new(0x21, 2, 6, Mnemonic::AND, AddressingMode::IndirectX, None)),
        0x24 => Some(Opcode::new(0x24, 2, 3, Mnemonic::BIT, AddressingMode::ZeroPage, None)),
        0x25 => Some(Opcode::new(0x25, 2, 3, Mnemonic::AND, AddressingMode::ZeroPage, None)),
        0x26 => Some(Opcode::new(0x26, 2, 5, Mnemonic::ROL, AddressingMode::ZeroPage, None)),
        0x28 => Some(Opcode::new(0x28, 1, 4, Mnemonic::PLP, AddressingMode::Implied, None)),
        0x29 => Some(Opcode::new(0x29, 2, 2, Mnemonic::AND, AddressingMode::Immediate, None)),
        0x2a => Some(Opcode::new(0x2a, 1, 2, Mnemonic::ROL, AddressingMode::Accumulator, None)),
        0x2c => Some(Opcode::new(0x2c, 3, 4, Mnemonic::BIT, AddressingMode::Absolute, None)),
        0x2d => Some(Opcode::new(0x2d, 3, 4, Mnemonic::AND, AddressingMode::Absolute, None)),
        0x2e => Some(Opcode::new(0x2e, 3, 6, Mnemonic::ROL, AddressingMode::Absolute, None)),
        0x30 => Some(Opcode::new(0x30, 2, 2, Mnemonic::BMI, AddressingMode::Relative, Some(TickModifier::Branch))),
        0x31 => Some(Opcode::new(0x31, 2, 5, Mnemonic::AND, AddressingMode::IndirectY, Some(TickModifier::PageCrossed))),
        0x35 => Some(Opcode::new(0x35, 2, 4, Mnemonic::AND, AddressingMode::ZeroPageX, None)),
        0x36 => Some(Opcode::new(0x36, 2, 6, Mnemonic::ROL, AddressingMode::ZeroPageX, None)),
        0x38 => Some(Opcode::new(0x38, 1, 2, Mnemonic::SEC, AddressingMode::Implied, None)),
        0x39 => Some(Opcode::new(0x39, 3, 4, Mnemonic::AND, AddressingMode::AbsoluteY, Some(TickModifier::PageCrossed))),
        0x3d => Some(Opcode::new(0x3d, 3, 4, Mnemonic::AND, AddressingMode::AbsoluteX, Some(TickModifier::PageCrossed))),
        0x3e => Some(Opcode::new(0x3e, 3, 7, Mnemonic::ROL, AddressingMode::AbsoluteX, None)),
        0x40 => Some(Opcode::new(0x40, 1, 6, Mnemonic::RTI, AddressingMode::Implied, None)),
        0x41 => Some(Opcode::new(0x41, 2, 6, Mnemonic::EOR, AddressingMode::IndirectX, None)),
        0x45 => Some(Opcode::new(0x45, 2, 3, Mnemonic::EOR, AddressingMode::ZeroPage, None)),
        0x46 => Some(Opcode::new(0x46, 2, 5, Mnemonic::LSR, AddressingMode::ZeroPage, None)),
        0x48 => Some(Opcode::new(0x48, 1, 3, Mnemonic::PHA, AddressingMode::Implied, None)),
        0x49 => Some(Opcode::new(0x49, 2, 2, Mnemonic::EOR, AddressingMode::Immediate, None)),
        0x4a => Some(Opcode::new(0x4a, 1, 2, Mnemonic::LSR, AddressingMode::Accumulator, None)),
        0x4c => Some(Opcode::new(0x4c, 3, 3, Mnemonic::JMP, AddressingMode::Absolute, None)),
        0x4d => Some(Opcode::new(0x4d, 3, 4, Mnemonic::EOR, AddressingMode::Absolute, None)),
        0x4e => Some(Opcode::new(0x4e, 3, 6, Mnemonic::LSR, AddressingMode::Absolute, None)),
        0x50 => Some(Opcode::new(0x50, 2, 2, Mnemonic::BVC, AddressingMode::Relative, Some(TickModifier::Branch))),
        0x51 => Some(Opcode::new(0x51, 2, 5, Mnemonic::EOR, AddressingMode::IndirectY, Some(TickModifier::PageCrossed))),
        0x55 => Some(Opcode::new(0x55, 2, 4, Mnemonic::EOR, AddressingMode::ZeroPageX, None)),
        0x56 => Some(Opcode::new(0x56, 2, 6, Mnemonic::LSR, AddressingMode::ZeroPageX, None)),
        0x58 => Some(Opcode::new(0x58, 1, 2, Mnemonic::CLI, AddressingMode::Implied, None)),
        0x59 => Some(Opcode::new(0x59, 3, 4, Mnemonic::EOR, AddressingMode::AbsoluteY, Some(TickModifier::PageCrossed))),
        0x5d => Some(Opcode::new(0x5d, 3, 4, Mnemonic::EOR, AddressingMode::AbsoluteX, Some(TickModifier::PageCrossed))),
        0x5e => Some(Opcode::new(0x5e, 3, 7, Mnemonic::LSR, AddressingMode::AbsoluteX, None)),
        0x60 => Some(Opcode::new(0x60, 1, 6, Mnemonic::RTS, AddressingMode::Implied, None)),
        0x61 => Some(Opcode::new(0x61, 2, 6, Mnemonic::ADC, AddressingMode::IndirectX, None)),
        0x65 => Some(Opcode::new(0x65, 2, 3, Mnemonic::ADC, AddressingMode::ZeroPage, None)),
        0x66 => Some(Opcode::new(0x66, 2, 5, Mnemonic::ROR, AddressingMode::ZeroPage, None)),
        0x68 => Some(Opcode::new(0x68, 1, 4, Mnemonic::PLA, AddressingMode::Implied, None)),
        0x69 => Some(Opcode::new(0x69, 2, 2, Mnemonic::ADC, AddressingMode::Immediate, None)),
        0x6a => Some(Opcode::new(0x6a, 1, 2, Mnemonic::ROR, AddressingMode::Accumulator, None)),
        0x6c => Some(Opcode::new(0x6c, 3, 5, Mnemonic::JMP, AddressingMode::Indirect, None)),
        0x6d => Some(Opcode::new(0x6d, 3, 4, Mnemonic::ADC, AddressingMode::Absolute, None)),
        0x6e => Some(Opcode::new(0x6e, 3, 6, Mnemonic::ROR, AddressingMode::Absolute, None)),
        0x70 => Some(Opcode::new(0x70, 2, 2, Mnemonic::BVS, AddressingMode::Relative, Some(TickModifier::Branch))),
        0x71 => Some(Opcode::new(0x71, 2, 5, Mnemonic::ADC, AddressingMode::IndirectY, Some(TickModifier::PageCrossed))),
        0x75 => Some(Opcode::new(0x75, 2, 4, Mnemonic::ADC, AddressingMode::ZeroPageX, None)),
        0x76 => Some(Opcode::new(0x76, 2, 6, Mnemonic::ROR, AddressingMode::ZeroPageX, None)),
        0x78 => Some(Opcode::new(0x78, 1, 2, Mnemonic::SEI, AddressingMode::Implied, None)),
        0x79 => Some(Opcode::new(0x79, 3, 4, Mnemonic::ADC, AddressingMode::AbsoluteY, Some(TickModifier::PageCrossed))),
        0x7d => Some(Opcode::new(0x7d, 3, 4, Mnemonic::ADC, AddressingMode::AbsoluteX, Some(TickModifier::PageCrossed))),
        0x7e => Some(Opcode::new(0x7e, 3, 7, Mnemonic::ROR, AddressingMode::AbsoluteX, None)),
        0x81 => Some(Opcode::new(0x81, 2, 6, Mnemonic::STA, AddressingMode::IndirectX, None)),
        0x84 => Some(Opcode::new(0x84, 2, 3, Mnemonic::STY, AddressingMode::ZeroPage, None)),
        0x85 => Some(Opcode::new(0x85, 2, 3, Mnemonic::STA, AddressingMode::ZeroPage, None)),
        0x86 => Some(Opcode::new(0x86, 2, 3, Mnemonic::STX, AddressingMode::ZeroPage, None)),
        0x88 => Some(Opcode::new(0x88, 1, 2, Mnemonic::DEY, AddressingMode::Implied, None)),
        0x8a => Some(Opcode::new(0x8a, 1, 2, Mnemonic::TXA, AddressingMode::Implied, None)),
        0x8c => Some(Opcode::new(0x8c, 3, 4, Mnemonic::STY, AddressingMode::Absolute, None)),
        0x8d => Some(Opcode::new(0x8d, 3, 4, Mnemonic::STA, AddressingMode::Absolute, None)),
        0x8e => Some(Opcode::new(0x8e, 3, 4, Mnemonic::STX, AddressingMode::Absolute, None)),
        0x90 => Some(Opcode::new(0x90, 2, 2, Mnemonic::BCC, AddressingMode::Relative, Some(TickModifier::Branch))),
        0x91 => Some(Opcode::new(0x91, 2, 6, Mnemonic::STA, AddressingMode::IndirectY, None)),
        0x94 => Some(Opcode::new(0x94, 2, 4, Mnemonic::STY, AddressingMode::ZeroPageX, None)),
        0x95 => Some(Opcode::new(0x95, 2, 4, Mnemonic::STA, AddressingMode::ZeroPageX, None)),
        0x96 => Some(Opcode::new(0x96, 2, 4, Mnemonic::STX, AddressingMode::ZeroPageY, None)),
        0x98 => Some(Opcode::new(0x98, 1, 2, Mnemonic::TYA, AddressingMode::Implied, None)),
        0x99 => Some(Opcode::new(0x99, 3, 5, Mnemonic::STA, AddressingMode::AbsoluteY, None)),
        0x9a => Some(Opcode::new(0x9a, 1, 2, Mnemonic::TXS, AddressingMode::Implied, None)),
        0x9d => Some(Opcode::new(0x9d, 3, 5, Mnemonic::STA, AddressingMode::AbsoluteX, None)),
        0xa0 => Some(Opcode::new(0xa0, 2, 2, Mnemonic::LDY, AddressingMode::Immediate, None)),
        0xa1 => Some(Opcode::new(0xa1, 2, 6, Mnemonic::LDA, AddressingMode::IndirectX, None)),
        0xa2 => Some(Opcode::new(0xa2, 2, 2, Mnemonic::LDX, AddressingMode::Immediate, None)),
        0xa4 => Some(Opcode::new(0xa4, 2, 3, Mnemonic::LDY, AddressingMode::ZeroPage, None)),
        0xa5 => Some(Opcode::new(0xa5, 2, 3, Mnemonic::LDA, AddressingMode::ZeroPage, None)),
        0xa6 => Some(Opcode::new(0xa6, 2, 3, Mnemonic::LDX, AddressingMode::ZeroPage, None)),
        0xa8 => Some(Opcode::new(0xa8, 1, 2, Mnemonic::TAY, AddressingMode::Implied, None)),
        0xa9 => Some(Opcode::new(0xa9, 2, 2, Mnemonic::LDA, AddressingMode::Immediate, None)),
        0xaa => Some(Opcode::new(0xaa, 1, 2, Mnemonic::TAX, AddressingMode::Implied, None)),
        0xac => Some(Opcode::new(0xac, 3, 4, Mnemonic::LDY, AddressingMode::Absolute, None)),
        0xad => Some(Opcode::new(0xad, 3, 4, Mnemonic::LDA, AddressingMode::Absolute, None)),
        0xae => Some(Opcode::new(0xae, 3, 4, Mnemonic::LDX, AddressingMode::Absolute, None)),
        0xb0 => Some(Opcode::new(0xb0, 2, 2, Mnemonic::BCS, AddressingMode::Relative, Some(TickModifier::Branch))),
        0xb1 => Some(Opcode::new(0xb1, 2, 5, Mnemonic::LDA, AddressingMode::IndirectY, Some(TickModifier::PageCrossed))),
        0xb4 => Some(Opcode::new(0xb4, 2, 4, Mnemonic::LDY, AddressingMode::ZeroPageX, None)),
        0xb5 => Some(Opcode::new(0xb5, 2, 4, Mnemonic::LDA, AddressingMode::ZeroPageX, None)),
        0xb6 => Some(Opcode::new(0xb6, 2, 4, Mnemonic::LDX, AddressingMode::ZeroPageY, None)),
        0xb8 => Some(Opcode::new(0xb8, 1, 2, Mnemonic::CLV, AddressingMode::Implied, None)),
        0xb9 => Some(Opcode::new(0xb9, 3, 4, Mnemonic::LDA, AddressingMode::AbsoluteY, Some(TickModifier::PageCrossed))),
        0xba => Some(Opcode::new(0xba, 1, 2, Mnemonic::TSX, AddressingMode::Implied, None)),
        0xbc => Some(Opcode::new(0xbc, 3, 4, Mnemonic::LDY, AddressingMode::AbsoluteX, Some(TickModifier::PageCrossed))),
        0xbd => Some(Opcode::new(0xbd, 3, 4, Mnemonic::LDA, AddressingMode::AbsoluteX, Some(TickModifier::PageCrossed))),
        0xbe => Some(Opcode::new(0xbe, 3, 4, Mnemonic::LDX, AddressingMode::AbsoluteY, Some(TickModifier::PageCrossed))),
        0xc0 => Some(Opcode::new(0xc0, 2, 2, Mnemonic::CPY, AddressingMode::Immediate, None)),
        0xc1 => Some(Opcode::new(0xc1, 2, 6, Mnemonic::CMP, AddressingMode::IndirectX, None)),
        0xc4 => Some(Opcode::new(0xc4, 2, 3, Mnemonic::CPY, AddressingMode::ZeroPage, None)),
        0xc5 => Some(Opcode::new(0xc5, 2, 3, Mnemonic::CMP, AddressingMode::ZeroPage, None)),
        0xc6 => Some(Opcode::new(0xc6, 2, 5, Mnemonic::DEC, AddressingMode::ZeroPage, None)),
        0xc8 => Some(Opcode::new(0xc8, 1, 2, Mnemonic::INY, AddressingMode::Implied, None)),
        0xc9 => Some(Opcode::new(0xc9, 2, 2, Mnemonic::CMP, AddressingMode::Immediate, None)),
        0xca => Some(Opcode::new(0xca, 1, 2, Mnemonic::DEX, AddressingMode::Implied, None)),
        0xcc => Some(Opcode::new(0xcc, 3, 4, Mnemonic::CPY, AddressingMode::Absolute, None)),
        0xcd => Some(Opcode::new(0xcd, 3, 4, Mnemonic::CMP, AddressingMode::Absolute, None)),
        0xce => Some(Opcode::new(0xce, 3, 6, Mnemonic::DEC, AddressingMode::Absolute, None)),
        0xd0 => Some(Opcode::new(0xd0, 2, 2, Mnemonic::BNE, AddressingMode::Relative, Some(TickModifier::Branch))),
        0xd1 => Some(Opcode::new(0xd1, 2, 5, Mnemonic::CMP, AddressingMode::IndirectY, Some(TickModifier::PageCrossed))),
        0xd5 => Some(Opcode::new(0xd5, 2, 4, Mnemonic::CMP, AddressingMode::ZeroPageX, None)),
        0xd6 => Some(Opcode::new(0xd6, 2, 6, Mnemonic::DEC, AddressingMode::ZeroPageX, None)),
        0xd8 => Some(Opcode::new(0xd8, 1, 2, Mnemonic::CLD, AddressingMode::Implied, None)),
        0xd9 => Some(Opcode::new(0xd9, 3, 4, Mnemonic::CMP, AddressingMode::AbsoluteY, Some(TickModifier::PageCrossed))),
        0xdd => Some(Opcode::new(0xdd, 3, 4, Mnemonic::CMP, AddressingMode::AbsoluteX, Some(TickModifier::PageCrossed))),
        0xde => Some(Opcode::new(0xde, 3, 7, Mnemonic::DEC, AddressingMode::AbsoluteX, None)),
        0xe0 => Some(Opcode::new(0xe0, 2, 2, Mnemonic::CPX, AddressingMode::Immediate, None)),
        0xe1 => Some(Opcode::new(0xe1, 2, 6, Mnemonic::SBC, AddressingMode::IndirectX, None)),
        0xe4 => Some(Opcode::new(0xe4, 2, 3, Mnemonic::CPX, AddressingMode::ZeroPage, None)),
        0xe5 => Some(Opcode::new(0xe5, 2, 3, Mnemonic::SBC, AddressingMode::ZeroPage, None)),
        0xe6 => Some(Opcode::new(0xe6, 2, 5, Mnemonic::INC, AddressingMode::ZeroPage, None)),
        0xe8 => Some(Opcode::new(0xe8, 1, 2, Mnemonic::INX, AddressingMode::Implied, None)),
        0xe9 => Some(Opcode::new(0xe9, 2, 2, Mnemonic::SBC, AddressingMode::Immediate, None)),
        0xea => Some(Opcode::new(0xea, 1, 2, Mnemonic::NOP, AddressingMode::Implied, None)),
        0xec => Some(Opcode::new(0xec, 3, 4, Mnemonic::CPX, AddressingMode::Absolute, None)),
        0xed => Some(Opcode::new(0xed, 3, 4, Mnemonic::SBC, AddressingMode::Absolute, None)),
        0xee => Some(Opcode::new(0xee, 3, 6, Mnemonic::INC, AddressingMode::Absolute, None)),
        0xf0 => Some(Opcode::new(0xf0, 2, 2, Mnemonic::BEQ, AddressingMode::Relative, Some(TickModifier::Branch))),
        0xf1 => Some(Opcode::new(0xf1, 2, 5, Mnemonic::SBC, AddressingMode::IndirectY, Some(TickModifier::PageCrossed))),
        0xf5 => Some(Opcode::new(0xf5, 2, 4, Mnemonic::SBC, AddressingMode::ZeroPageX, None)),
        0xf6 => Some(Opcode::new(0xf6, 2, 6, Mnemonic::INC, AddressingMode::ZeroPageX, None)),
        0xf8 => Some(Opcode::new(0xf8, 1, 2, Mnemonic::SED, AddressingMode::Implied, None)),
        0xf9 => Some(Opcode::new(0xf9, 3, 4, Mnemonic::SBC, AddressingMode::AbsoluteY, Some(TickModifier::PageCrossed))),
        0xfd => Some(Opcode::new(0xfd, 3, 4, Mnemonic::SBC, AddressingMode::AbsoluteX, Some(TickModifier::PageCrossed))),
        0xfe => Some(Opcode::new(0xfe, 3, 7, Mnemonic::INC, AddressingMode::AbsoluteX, None)),
        _ => None,
    }
}

/// Looks an opcode byte up in the instruction table.
#[verifier::rlimit(60)]
pub fn opcode_for(code: u8) -> (r: Option<Opcode>)
    ensures
        r == opcode_spec(code),
{
    match code {
        0x00 => Some(Opcode::new(0x00, 1, 7, Mnemonic::BRK, AddressingMode::Implied, None)),
        0x01 => Some(Opcode::new(0x01, 2, 6, Mnemonic::ORA, AddressingMode::IndirectX, None)),
        0x05 => Some(Opcode::new(0x05, 2, 3, Mnemonic::ORA, AddressingMode::ZeroPage, None)),
        0x06 => Some(Opcode::new(0x06, 2, 5, Mnemonic::ASL, AddressingMode::ZeroPage, None)),
        0x08 => Some(Opcode::new(0x08, 1, 3, Mnemonic::PHP, AddressingMode::Implied, None)),
        0x09 => Some(Opcode::new(0x09, 2, 2, Mnemonic::ORA, AddressingMode::Immediate, None)),
        0x0a => Some(Opcode::new(0x0a, 1, 2, Mnemonic::ASL, AddressingMode::Accumulator, None)),
        0x0d => Some(Opcode::new(0x0d, 3, 4, Mnemonic::ORA, AddressingMode::Absolute, None)),
        0x0e => Some(Opcode::new(0x0e, 3, 6, Mnemonic::ASL, AddressingMode::Absolute, None)),
        0x10 => Some(Opcode::new(0x10, 2, 2, Mnemonic::BPL, AddressingMode::Relative, Some(TickModifier::Branch))),
        0x11 => Some(Opcode::new(0x11, 2, 5, Mnemonic::ORA, AddressingMode::IndirectY, Some(TickModifier::PageCrossed))),
        0x15 => Some(Opcode::new(0x15, 2, 4, Mnemonic::ORA, AddressingMode::ZeroPageX, None)),
        0x16 => Some(Opcode::new(0x16, 2, 6, Mnemonic::ASL, AddressingMode::ZeroPageX, None)),
        0x18 => Some(Opcode::new(0x18, 1, 2, Mnemonic::CLC, AddressingMode::Implied, None)),
        0x19 => Some(Opcode::new(0x19, 3, 4, Mnemonic::ORA, AddressingMode::AbsoluteY, Some(TickModifier::PageCrossed))),
        0x1d => Some(Opcode::new(0x1d, 3, 4, Mnemonic::ORA, AddressingMode::AbsoluteX, Some(TickModifier::PageCrossed))),
        0x1e => Some(Opcode::new(0x1e, 3, 7, Mnemonic::ASL, AddressingMode::AbsoluteX, None)),
        0x20 => Some(Opcode::new(0x20, 3, 6, Mnemonic::JSR, AddressingMode::Absolute, None)),
        0x21 => Some(Opcode::new(0x21, 2, 6, Mnemonic::AND, AddressingMode::IndirectX, None)),
        0x24 => Some(Opcode::new(0x24, 2, 3, Mnemonic::BIT, AddressingMode::ZeroPage, None)),
        0x25 => Some(Opcode::new(0x25, 2, 3, Mnemonic::AND, AddressingMode::ZeroPage, None)),
        0x26 => Some(Opcode::new(0x26, 2, 5, Mnemonic::ROL, AddressingMode::ZeroPage, None)),
        0x28 => Some(Opcode::new(0x28, 1, 4, Mnemonic::PLP, AddressingMode::Implied, None)),
        0x29 => Some(Opcode::new(0x29, 2, 2, Mnemonic::AND, AddressingMode::Immediate, None)),
        0x2a => Some(Opcode::new(0x2a, 1, 2, Mnemonic::ROL, AddressingMode::Accumulator, None)),
        0x2c => Some(Opcode::new(0x2c, 3, 4, Mnemonic::BIT, AddressingMode::Absolute, None)),
        0x2d => Some(Opcode::new(0x2d, 3, 4, Mnemonic::AND, AddressingMode::Absolute, None)),
        0x2e => Some(Opcode::new(0x2e, 3, 6, Mnemonic::ROL, AddressingMode::Absolute, None)),
        0x30 => Some(Opcode::new(0x30, 2, 2, Mnemonic::BMI, AddressingMode::Relative, Some(TickModifier::Branch))),
        0x31 => Some(Opcode::new(0x31, 2, 5, Mnemonic::AND, AddressingMode::IndirectY, Some(TickModifier::PageCrossed))),
        0x35 => Some(Opcode::new(0x35, 2, 4, Mnemonic::AND, AddressingMode::ZeroPageX, None)),
        0x36 => Some(Opcode::new(0x36, 2, 6, Mnemonic::ROL, AddressingMode::ZeroPageX, None)),
        0x38 => Some(Opcode::new(0x38, 1, 2, Mnemonic::SEC, AddressingMode::Implied, None)),
        0x39 => Some(Opcode::new(0x39, 3, 4, Mnemonic::AND, AddressingMode::AbsoluteY, Some(TickModifier::PageCrossed))),
        0x3d => Some(Opcode::new(0x3d, 3, 4, Mnemonic::AND, AddressingMode::AbsoluteX, Some(TickModifier::PageCrossed))),
        0x3e => Some(Opcode::new(0x3e, 3, 7, Mnemonic::ROL, AddressingMode::AbsoluteX, None)),
        0x40 => Some(Opcode::new(0x40, 1, 6, Mnemonic::RTI, AddressingMode::Implied, None)),
        0x41 => Some(Opcode::new(0x41, 2, 6, Mnemonic::EOR, AddressingMode::IndirectX, None)),
        0x45 => Some(Opcode::new(0x45, 2, 3, Mnemonic::EOR, AddressingMode::ZeroPage, None)),
        0x46 => Some(Opcode::new(0x46, 2, 5, Mnemonic::LSR, AddressingMode::ZeroPage, None)),
        0x48 => Some(Opcode::new(0x48, 1, 3, Mnemonic::PHA, AddressingMode::Implied, None)),
        0x49 => Some(Opcode::new(0x49, 2, 2, Mnemonic::EOR, AddressingMode::Immediate, None)),
        0x4a => Some(Opcode::new(0x4a, 1, 2, Mnemonic::LSR, AddressingMode::Accumulator, None)),
        0x4c => Some(Opcode::new(0x4c, 3, 3, Mnemonic::JMP, AddressingMode::Absolute, None)),
        0x4d => Some(Opcode::new(0x4d, 3, 4, Mnemonic::EOR, AddressingMode::Absolute, None)),
        0x4e => Some(Opcode::new(0x4e, 3, 6, Mnemonic::LSR, AddressingMode::Absolute, None)),
        0x50 => Some(Opcode::new(0x50, 2, 2, Mnemonic::BVC, AddressingMode::Relative, Some(TickModifier::Branch))),
        0x51 => Some(Opcode::new(0x51, 2, 5, Mnemonic::EOR, AddressingMode::IndirectY, Some(TickModifier::PageCrossed))),
        0x55 => Some(Opcode::new(0x55, 2, 4, Mnemonic::EOR, AddressingMode::ZeroPageX, None)),
        0x56 => Some(Opcode::new(0x56, 2, 6, Mnemonic::LSR, AddressingMode::ZeroPageX, None)),
        0x58 => Some(Opcode::new(0x58, 1, 2, Mnemonic::CLI, AddressingMode::Implied, None)),
        0x59 => Some(Opcode::new(0x59, 3, 4, Mnemonic::EOR, AddressingMode::AbsoluteY, Some(TickModifier::PageCrossed))),
        0x5d => Some(Opcode::new(0x5d, 3, 4, Mnemonic::EOR, AddressingMode::AbsoluteX, Some(TickModifier::PageCrossed))),
        0x5e => Some(Opcode::new(0x5e, 3, 7, Mnemonic::LSR, AddressingMode::AbsoluteX, None)),
        0x60 => Some(Opcode::new(0x60, 1, 6, Mnemonic::RTS, AddressingMode::Implied, None)),
        0x61 => Some(Opcode::new(0x61, 2, 6, Mnemonic::ADC, AddressingMode::IndirectX, None)),
        0x65 => Some(Opcode::new(0x65, 2, 3, Mnemonic::ADC, AddressingMode::ZeroPage, None)),
        0x66 => Some(Opcode::new(0x66, 2, 5, Mnemonic::ROR, AddressingMode::ZeroPage, None)),
        0x68 => Some(Opcode::new(0x68, 1, 4, Mnemonic::PLA, AddressingMode::Implied, None)),
        0x69 => Some(Opcode::new(0x69, 2, 2, Mnemonic::ADC, AddressingMode::Immediate, None)),
        0x6a => Some(Opcode::new(0x6a, 1, 2, Mnemonic::ROR, AddressingMode::Accumulator, None)),
        0x6c => Some(Opcode::new(0x6c, 3, 5, Mnemonic::JMP, AddressingMode::Indirect, None)),
        0x6d => Some(Opcode::new(0x6d, 3, 4, Mnemonic::ADC, AddressingMode::Absolute, None)),
        0x6e => Some(Opcode::new(0x6e, 3, 6, Mnemonic::ROR, AddressingMode::Absolute, None)),
        0x70 => Some(Opcode::new(0x70, 2, 2, Mnemonic::BVS, AddressingMode::Relative, Some(TickModifier::Branch))),
        0x71 => Some(Opcode::new(0x71, 2, 5, Mnemonic::ADC, AddressingMode::IndirectY, Some(TickModifier::PageCrossed))),
        0x75 => Some(Opcode::new(0x75, 2, 4, Mnemonic::ADC, AddressingMode::ZeroPageX, None)),
        0x76 => Some(Opcode::new(0x76, 2, 6, Mnemonic::ROR, AddressingMode::ZeroPageX, None)),
        0x78 => Some(Opcode::new(0x78, 1, 2, Mnemonic::SEI, AddressingMode::Implied, None)),
        0x79 => Some(Opcode::new(0x79, 3, 4, Mnemonic::ADC, AddressingMode::AbsoluteY, Some(TickModifier::PageCrossed))),
        0x7d => Some(Opcode::new(0x7d, 3, 4, Mnemonic::ADC, AddressingMode::AbsoluteX, Some(TickModifier::PageCrossed))),
        0x7e => Some(Opcode::new(0x7e, 3, 7, Mnemonic::ROR, AddressingMode::AbsoluteX, None)),
        0x81 => Some(Opcode::new(0x81, 2, 6, Mnemonic::STA, AddressingMode::IndirectX, None)),
        0x84 => Some(Opcode::new(0x84, 2, 3, Mnemonic::STY, AddressingMode::ZeroPage, None)),
        0x85 => Some(Opcode::new(0x85, 2, 3, Mnemonic::STA, AddressingMode::ZeroPage, None)),
        0x86 => Some(Opcode::new(0x86, 2, 3, Mnemonic::STX, AddressingMode::ZeroPage, None)),
        0x88 => Some(Opcode::new(0x88, 1, 2, Mnemonic::DEY, AddressingMode::Implied, None)),
        0x8a => Some(Opcode::new(0x8a, 1, 2, Mnemonic::TXA, AddressingMode::Implied, None)),
        0x8c => Some(Opcode::new(0x8c, 3, 4, Mnemonic::STY, AddressingMode::Absolute, None)),
        0x8d => Some(Opcode::new(0x8d, 3, 4, Mnemonic::STA, AddressingMode::Absolute, None)),
        0x8e => Some(Opcode::new(0x8e, 3, 4, Mnemonic::STX, AddressingMode::Absolute, None)),
        0x90 => Some(Opcode::new(0x90, 2, 2, Mnemonic::BCC, AddressingMode::Relative, Some(TickModifier::Branch))),
        0x91 => Some(Opcode::new(0x91, 2, 6, Mnemonic::STA, AddressingMode::IndirectY, None)),
        0x94 => Some(Opcode::new(0x94, 2, 4, Mnemonic::STY, AddressingMode::ZeroPageX, None)),
        0x95 => Some(Opcode::new(0x95, 2, 4, Mnemonic::STA, AddressingMode::ZeroPageX, None)),
        0x96 => Some(Opcode::new(0x96, 2, 4, Mnemonic::STX, AddressingMode::ZeroPageY, None)),
        0x98 => Some(Opcode::new(0x98, 1, 2, Mnemonic::TYA, AddressingMode::Implied, None)),
        0x99 => Some(Opcode::new(0x99, 3, 5, Mnemonic::STA, AddressingMode::AbsoluteY, None)),
        0x9a => Some(Opcode::new(0x9a, 1, 2, Mnemonic::TXS, AddressingMode::Implied, None)),
        0x9d => Some(Opcode::new(0x9d, 3, 5, Mnemonic::STA, AddressingMode::AbsoluteX, None)),
        0xa0 => Some(Opcode::new(0xa0, 2, 2, Mnemonic::LDY, AddressingMode::Immediate, None)),
        0xa1 => Some(Opcode::new(0xa1, 2, 6, Mnemonic::LDA, AddressingMode::IndirectX, None)),
        0xa2 => Some(Opcode::new(0xa2, 2, 2, Mnemonic::LDX, AddressingMode::Immediate, None)),
        0xa4 => Some(Opcode::new(0xa4, 2, 3, Mnemonic::LDY, AddressingMode::ZeroPage, None)),
        0xa5 => Some(Opcode::new(0xa5, 2, 3, Mnemonic::LDA, AddressingMode::ZeroPage, None)),
        0xa6 => Some(Opcode::new(0xa6, 2, 3, Mnemonic::LDX, AddressingMode::ZeroPage, None)),
        0xa8 => Some(Opcode::new(0xa8, 1, 2, Mnemonic::TAY, AddressingMode::Implied, None)),
        0xa9 => Some(Opcode::new(0xa9, 2, 2, Mnemonic::LDA, AddressingMode::Immediate, None)),
        0xaa => Some(Opcode::new(0xaa, 1, 2, Mnemonic::TAX, AddressingMode::Implied, None)),
        0xac => Some(Opcode::new(0xac, 3, 4, Mnemonic::LDY, AddressingMode::Absolute, None)),
        0xad => Some(Opcode::new(0xad, 3, 4, Mnemonic::LDA, AddressingMode::Absolute, None)),
        0xae => Some(Opcode::new(0xae, 3, 4, Mnemonic::LDX, AddressingMode::Absolute, None)),
        0xb0 => Some(Opcode::new(0xb0, 2, 2, Mnemonic::BCS, AddressingMode::Relative, Some(TickModifier::Branch))),
        0xb1 => Some(Opcode::new(0xb1, 2, 5, Mnemonic::LDA, AddressingMode::IndirectY, Some(TickModifier::PageCrossed))),
        0xb4 => Some(Opcode::new(0xb4, 2, 4, Mnemonic::LDY, AddressingMode::ZeroPageX, None)),
        0xb5 => Some(Opcode::new(0xb5, 2, 4, Mnemonic::LDA, AddressingMode::ZeroPageX, None)),
        0xb6 => Some(Opcode::new(0xb6, 2, 4, Mnemonic::LDX, AddressingMode::ZeroPageY, None)),
        0xb8 => Some(Opcode::new(0xb8, 1, 2, Mnemonic::CLV, AddressingMode::Implied, None)),
        0xb9 => Some(Opcode::new(0xb9, 3, 4, Mnemonic::LDA, AddressingMode::AbsoluteY, Some(TickModifier::PageCrossed))),
        0xba => Some(Opcode::new(0xba, 1, 2, Mnemonic::TSX, AddressingMode::Implied, None)),
        0xbc => Some(Opcode::new(0xbc, 3, 4, Mnemonic::LDY, AddressingMode::AbsoluteX, Some(TickModifier::PageCrossed))),
        0xbd => Some(Opcode::new(0xbd, 3, 4, Mnemonic::LDA, AddressingMode::AbsoluteX, Some(TickModifier::PageCrossed))),
        0xbe => Some(Opcode::new(0xbe, 3, 4, Mnemonic::LDX, AddressingMode::AbsoluteY, Some(TickModifier::PageCrossed))),
        0xc0 => Some(Opcode::new(0xc0, 2, 2, Mnemonic::CPY, AddressingMode::Immediate, None)),
        0xc1 => Some(Opcode::new(0xc1, 2, 6, Mnemonic::CMP, AddressingMode::IndirectX, None)),
        0xc4 => Some(Opcode::new(0xc4, 2, 3, Mnemonic::CPY, AddressingMode::ZeroPage, None)),
        0xc5 => Some(Opcode::new(0xc5, 2, 3, Mnemonic::CMP, AddressingMode::ZeroPage, None)),
        0xc6 => Some(Opcode::new(0xc6, 2, 5, Mnemonic::DEC, AddressingMode::ZeroPage, None)),
        0xc8 => Some(Opcode::new(0xc8, 1, 2, Mnemonic::INY, AddressingMode::Implied, None)),
        0xc9 => Some(Opcode::new(0xc9, 2, 2, Mnemonic::CMP, AddressingMode::Immediate, None)),
        0xca => Some(Opcode::new(0xca, 1, 2, Mnemonic::DEX, AddressingMode::Implied, None)),
        0xcc => Some(Opcode::new(0xcc, 3, 4, Mnemonic::CPY, AddressingMode::Absolute, None)),
        0xcd => Some(Opcode::new(0xcd, 3, 4, Mnemonic::CMP, AddressingMode::Absolute, None)),
        0xce => Some(Opcode::new(0xce, 3, 6, Mnemonic::DEC, AddressingMode::Absolute, None)),
        0xd0 => Some(Opcode::new(0xd0, 2, 2, Mnemonic::BNE, AddressingMode::Relative, Some(TickModifier::Branch))),
        0xd1 => Some(Opcode::new(0xd1, 2, 5, Mnemonic::CMP, AddressingMode::IndirectY, Some(TickModifier::PageCrossed))),
        0xd5 => Some(Opcode::new(0xd5, 2, 4, Mnemonic::CMP, AddressingMode::ZeroPageX, None)),
        0xd6 => Some(Opcode::new(0xd6, 2, 6, Mnemonic::DEC, AddressingMode::ZeroPageX, None)),
        0xd8 => Some(Opcode::new(0xd8, 1, 2, Mnemonic::CLD, AddressingMode::Implied, None)),
        0xd9 => Some(Opcode::new(0xd9, 3, 4, Mnemonic::CMP, AddressingMode::AbsoluteY, Some(TickModifier::PageCrossed))),
        0xdd => Some(Opcode::new(0xdd, 3, 4, Mnemonic::CMP, AddressingMode::AbsoluteX, Some(TickModifier::PageCrossed))),
        0xde => Some(Opcode::new(0xde, 3, 7, Mnemonic::DEC, AddressingMode::AbsoluteX, None)),
        0xe0 => Some(Opcode::new(0xe0, 2, 2, Mnemonic::CPX, AddressingMode::Immediate, None)),
        0xe1 => Some(Opcode::new(0xe1, 2, 6, Mnemonic::SBC, AddressingMode::IndirectX, None)),
        0xe4 => Some(Opcode::new(0xe4, 2, 3, Mnemonic::CPX, AddressingMode::ZeroPage, None)),
        0xe5 => Some(Opcode::new(0xe5, 2, 3, Mnemonic::SBC, AddressingMode::ZeroPage, None)),
        0xe6 => Some(Opcode::new(0xe6, 2, 5, Mnemonic::INC, AddressingMode::ZeroPage, None)),
        0xe8 => Some(Opcode::new(0xe8, 1, 2, Mnemonic::INX, AddressingMode::Implied, None)),
        0xe9 => Some(Opcode::new(0xe9, 2, 2, Mnemonic::SBC, AddressingMode::Immediate, None)),
        0xea => Some(Opcode::new(0xea, 1, 2, Mnemonic::NOP, AddressingMode::Implied, None)),
        0xec => Some(Opcode::new(0xec, 3, 4, Mnemonic::CPX, AddressingMode::Absolute, None)),
        0xed => Some(Opcode::new(0xed, 3, 4, Mnemonic::SBC, AddressingMode::Absolute, None)),
        0xee => Some(Opcode::new(0xee, 3, 6, Mnemonic::INC, AddressingMode::Absolute, None)),
        0xf0 => Some(Opcode::new(0xf0, 2, 2, Mnemonic::BEQ, AddressingMode::Relative, Some(TickModifier::Branch))),
        0xf1 => Some(Opcode::new(0xf1, 2, 5, Mnemonic::SBC, AddressingMode::IndirectY, Some(TickModifier::PageCrossed))),
        0xf5 => Some(Opcode::new(0xf5, 2, 4, Mnemonic::SBC, AddressingMode::ZeroPageX, None)),
        0xf6 => Some(Opcode::new(0xf6, 2, 6, Mnemonic::INC, AddressingMode::ZeroPageX, None)),
        0xf8 => Some(Opcode::new(0xf8, 1, 2, Mnemonic::SED, AddressingMode::Implied, None)),
        0xf9 => Some(Opcode::new(0xf9, 3, 4, Mnemonic::SBC, AddressingMode::AbsoluteY, Some(TickModifier::PageCrossed))),
        0xfd => Some(Opcode::new(0xfd, 3, 4, Mnemonic::SBC, AddressingMode::AbsoluteX, Some(TickModifier::PageCrossed))),
        0xfe => Some(Opcode::new(0xfe, 3, 7, Mnemonic::INC, AddressingMode::AbsoluteX, None)),
        _ => None,
    }
}

/// Finds the table entry with the given mnemonic and addressing mode, if any.
///
/// The entry with the smallest opcode byte is returned where several match
/// (no documented pair has more than one).
pub fn get_opcode(mnemonic: Mnemonic, mode: AddressingMode) -> (r: Option<Opcode>)
    ensures
        match r {
            Some(op) => opcode_spec(op.code) == Some(op) && op.mnemonic == mnemonic && op.mode
                == mode,
            None => forall|c: u8|
                #[trigger] opcode_spec(c) matches Some(op) ==> !(op.mnemonic == mnemonic && op.mode
                    == mode),
        },
{
    let mut i: u32 = 0;
    while i < 256
        invariant
            i <= 256,
            forall|c: u8|
                c < i ==> (#[trigger] opcode_spec(c) matches Some(op) ==> !(op.mnemonic == mnemonic
                    && op.mode == mode)),
        decreases 256 - i,
    {
        let code: u8 = i as u8;
        if let Some(op) = opcode_for(code) {
            if op.mnemonic == mnemonic && op.mode == mode {
                return Some(op);
            }
        }
        i = i + 1;
    }
    None
}

} // verus!

verus! {

/// The mnemonic spelled by a lower-cased three-letter name.
pub open spec fn mnemonic3_spec(c0: char, c1: char, c2: char) -> Option<Mnemonic> {
    match (c0, c1, c2) {
        ('a', 'd', 'c') => Some(Mnemonic::ADC),
        ('a', 'n', 'd') => Some(Mnemonic::AND),
        ('a', 's', 'l') => Some(Mnemonic::ASL),
        ('b', 'c', 'c') => Some(Mnemonic::BCC),
        ('b', 'c', 's') => Some(Mnemonic::BCS),
        ('b', 'e', 'q') => Some(Mnemonic::BEQ),
        ('b', 'i', 't') => Some(Mnemonic::BIT),
        ('b', 'm', 'i') => Some(Mnemonic::BMI),
        ('b', 'n', 'e') => Some(Mnemonic::BNE),
        ('b', 'p', 'l') => Some(Mnemonic::BPL),
        ('b', 'r', 'k') => Some(Mnemonic::BRK),
        ('b', 'v', 'c') => Some(Mnemonic::BVC),
        ('b', 'v', 's') => Some(Mnemonic::BVS),
        ('c', 'l', 'c') => Some(Mnemonic::CLC),
        ('c', 'l', 'd') => Some(Mnemonic::CLD),
        ('c', 'l', 'i') => Some(Mnemonic::CLI),
        ('c', 'l', 'v') => Some(Mnemonic::CLV),
        ('c', 'm', 'p') => Some(Mnemonic::CMP),
        ('c', 'p', 'x') => Some(Mnemonic::CPX),
        ('c', 'p', 'y') => Some(Mnemonic::CPY),
        ('d', 'e', 'c') => Some(Mnemonic::DEC),
        ('d', 'e', 'x') => Some(Mnemonic::DEX),
        ('d', 'e', 'y') => Some(Mnemonic::DEY),
        ('e', 'o', 'r') => Some(Mnemonic::EOR),
        ('i', 'n', 'c') => Some(Mnemonic::INC),
        ('i', 'n', 'x') => Some(Mnemonic::INX),
        ('i', 'n', 'y') => Some(Mnemonic::INY),
        ('j', 'm', 'p') => Some(Mnemonic::JMP),
        ('j', 's', 'r') => Some(Mnemonic::JSR),
        ('l', 'd', 'a') => Some(Mnemonic::LDA),
        ('l', 'd', 'x') => Some(Mnemonic::LDX),
        ('l', 'd', 'y') => Some(Mnemonic::LDY),
        ('l', 's', 'r') => Some(Mnemonic::LSR),
        ('n', 'o', 'p') => Some(Mnemonic::NOP),
        ('o', 'r', 'a') => Some(Mnemonic::ORA),
        ('p', 'h', 'a') => Some(Mnemonic::PHA),
        ('p', 'h', 'p') => Some(Mnemonic::PHP),
        ('p', 'l', 'a') => Some(Mnemonic::PLA),
        ('p', 'l', 'p') => Some(Mnemonic::PLP),
        ('r', 'o', 'l') => Some(Mnemonic::ROL),
        ('r', 'o', 'r') => Some(Mnemonic::ROR),
        ('r', 't', 'i') => Some(Mnemonic::RTI),
        ('r', 't', 's') => Some(Mnemonic::RTS),
        ('s', 'b', 'c') => Some(Mnemonic::SBC),
        ('s', 'e', 'c') => Some(Mnemonic::SEC),
        ('s', 'e', 'd') => Some(Mnemonic::SED),
        ('s', 'e', 'i') => Some(Mnemonic::SEI),
        ('s', 't', 'a') => Some(Mnemonic::STA),
        ('s', 't', 'x') => Some(Mnemonic::STX),
        ('s', 't', 'y') => Some(Mnemonic::STY),
        ('t', 'a', 'x') => Some(Mnemonic::TAX),
        ('t', 'a', 'y') => Some(Mnemonic::TAY),
        ('t', 's', 'x') => Some(Mnemonic::TSX),
        ('t', 'x', 'a') => Some(Mnemonic::TXA),
        ('t', 'x', 's') => Some(Mnemonic::TXS),
        ('t', 'y', 'a') => Some(Mnemonic::TYA),
        _ => None,
    }
}

/// Matches a lower-cased three-letter name against the mnemonic set.
fn mnemonic3(c0: char, c1: char, c2: char) -> (r: Option<Mnemonic>)
    ensures
        r == mnemonic3_spec(c0, c1, c2),
{
    match (c0, c1, c2) {
        ('a', 'd', 'c') => Some(Mnemonic::ADC),
        ('a', 'n', 'd') => Some(Mnemonic::AND),
        ('a', 's', 'l') => Some(Mnemonic::ASL),
        ('b', 'c', 'c') => Some(Mnemonic::BCC),
        ('b', 'c', 's') => Some(Mnemonic::BCS),
        ('b', 'e', 'q') => Some(Mnemonic::BEQ),
        ('b', 'i', 't') => Some(Mnemonic::BIT),
        ('b', 'm', 'i') => Some(Mnemonic::BMI),
        ('b', 'n', 'e') => Some(Mnemonic::BNE),
        ('b', 'p', 'l') => Some(Mnemonic::BPL),
        ('b', 'r', 'k') => Some(Mnemonic::BRK),
        ('b', 'v', 'c') => Some(Mnemonic::BVC),
        ('b', 'v', 's') => Some(Mnemonic::BVS),
        ('c', 'l', 'c') => Some(Mnemonic::CLC),
        ('c', 'l', 'd') => Some(Mnemonic::CLD),
        ('c', 'l', 'i') => Some(Mnemonic::CLI),
        ('c', 'l', 'v') => Some(Mnemonic::CLV),
        ('c', 'm', 'p') => Some(Mnemonic::CMP),
        ('c', 'p', 'x') => Some(Mnemonic::CPX),
        ('c', 'p', 'y') => Some(Mnemonic::CPY),
        ('d', 'e', 'c') => Some(Mnemonic::DEC),
        ('d', 'e', 'x') => Some(Mnemonic::DEX),
        ('d', 'e', 'y') => Some(Mnemonic::DEY),
        ('e', 'o', 'r') => Some(Mnemonic::EOR),
        ('i', 'n', 'c') => Some(Mnemonic::INC),
        ('i', 'n', 'x') => Some(Mnemonic::INX),
        ('i', 'n', 'y') => Some(Mnemonic::INY),
        ('j', 'm', 'p') => Some(Mnemonic::JMP),
        ('j', 's', 'r') => Some(Mnemonic::JSR),
        ('l', 'd', 'a') => Some(Mnemonic::LDA),
        ('l', 'd', 'x') => Some(Mnemonic::LDX),
        ('l', 'd', 'y') => Some(Mnemonic::LDY),
        ('l', 's', 'r') => Some(Mnemonic::LSR),
        ('n', 'o', 'p') => Some(Mnemonic::NOP),
        ('o', 'r', 'a') => Some(Mnemonic::ORA),
        ('p', 'h', 'a') => Some(Mnemonic::PHA),
        ('p', 'h', 'p') => Some(Mnemonic::PHP),
        ('p', 'l', 'a') => Some(Mnemonic::PLA),
        ('p', 'l', 'p') => Some(Mnemonic::PLP),
        ('r', 'o', 'l') => Some(Mnemonic::ROL),
        ('r', 'o', 'r') => Some(Mnemonic::ROR),
        ('r', 't', 'i') => Some(Mnemonic::RTI),
        ('r', 't', 's') => Some(Mnemonic::RTS),
        ('s', 'b', 'c') => Some(Mnemonic::SBC),
        ('s', 'e', 'c') => Some(Mnemonic::SEC),
        ('s', 'e', 'd') => Some(Mnemonic::SED),
        ('s', 'e', 'i') => Some(Mnemonic::SEI),
        ('s', 't', 'a') => Some(Mnemonic::STA),
        ('s', 't', 'x') => Some(Mnemonic::STX),
        ('s', 't', 'y') => Some(Mnemonic::STY),
        ('t', 'a', 'x') => Some(Mnemonic::TAX),
        ('t', 'a', 'y') => Some(Mnemonic::TAY),
        ('t', 's', 'x') => Some(Mnemonic::TSX),
        ('t', 'x', 'a') => Some(Mnemonic::TXA),
        ('t', 'x', 's') => Some(Mnemonic::TXS),
        ('t', 'y', 'a') => Some(Mnemonic::TYA),
        _ => None,
    }
}

/// The mnemonic named by `s`, compared ASCII-case-insensitively; `None`
/// unless `s` is exactly one of the 56 three-letter names.
pub open spec fn mnemonic_spec(s: Seq<char>) -> Option<Mnemonic> {
    if s.len() == 3 {
        mnemonic3_spec(
            crate::lex::chars::lower_spec(s[0]),
            crate::lex::chars::lower_spec(s[1]),
            crate::lex::chars::lower_spec(s[2]),
        )
    } else {
        None
    }
}

/// Looks the characters `[from, to)` of `chars` up as a mnemonic name.
pub fn mnemonic_lookup(chars: &Vec<char>, from: usize, to: usize) -> (r: Option<Mnemonic>)
    requires
        from <= to <= chars@.len(),
    ensures
        r == mnemonic_spec(chars@.subrange(from as int, to as int)),
{
    if to - from != 3 {
        return None;
    }
    let c0 = crate::lex::chars::lower(chars[from]);
    let c1 = crate::lex::chars::lower(chars[from + 1]);
    let c2 = crate::lex::chars::lower(chars[from + 2]);
    mnemonic3(c0, c1, c2)
}

} // verus!

verus! {

/// The lowest-numbered table entry carrying the given mnemonic.
pub fn opcode_by_name(mnemonic: Mnemonic) -> (r: Option<Opcode>)
    ensures
        match r {
            Some(op) => opcode_spec(op.code) == Some(op) && op.mnemonic == mnemonic,
            None => forall|c: u8|
                #[trigger] opcode_spec(c) matches Some(op) ==> op.mnemonic != mnemonic,
        },
{
    let mut i: u32 = 0;
    while i < 256
        invariant
            i <= 256,
            forall|c: u8|
                c < i ==> (#[trigger] opcode_spec(c) matches Some(op) ==> op.mnemonic != mnemonic),
        decreases 256 - i,
    {
        let code: u8 = i as u8;
        if let Some(op) = opcode_for(code) {
            if op.mnemonic == mnemonic {
                return Some(op);
            }
        }
        i = i + 1;
    }
    None
}

} // verus!
