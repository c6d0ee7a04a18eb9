use vstd::prelude::*;

verus! {

/// The operations of the documented 6502 instruction set.
#[allow(clippy::upper_case_acronyms)]
#[derive(Clone, Copy, Debug, PartialEq, Eq, Structural)]
pub enum Operation {
    /// Add with Carry
    ADC,
    /// Logical AND
    AND,
    /// Arithmetic Shift Left
    ASL,
    /// Branch if Carry Clear
    BCC,
    /// Branch if Carry Set
    BCS,
    /// Branch if Equal
    BEQ,
    /// Bit Test
    BIT,
    /// Branch if Minus
    BMI,
    /// Branch if Not Equal
    BNE,
    /// Branch if Positive
    BPL,
    /// Branch if Overflow Clear
    BVC,
    /// Branch if Overflow Set
    BVS,
    /// Clear Carry Flag
    CLC,
    /// Clear Decimal Mode
    CLD,
    /// Clear Interrupt Disable
    CLI,
    /// Clear Overflow Flag
    CLV,
    /// Compare
    CMP,
    /// Compare X Register
    CPX,
    /// Compare Y Register
    CPY,
    /// Decrement Memory
    DEC,
    /// Decrement X Register
    DEX,
    /// Decrement Y Register
    DEY,
    /// Exclusive OR
    EOR,
    /// Increment Memory
    INC,
    /// Increment X Register
    INX,
    /// Increment Y Register
    INY,
    /// Jump
    JMP,
    /// Jump to Subroutine
    JSR,
    /// Load Accumulator
    LDA,
    /// Load X Register
    LDX,
    /// Load Y Register
    LDY,
    /// Logical Shift Right
    LSR,
    /// No Operation
    NOP,
    /// Logical Inclusive OR
    ORA,
    /// Push Accumulator
    PHA,
    /// Push Processor Status
    PHP,
    /// Pull Accumulator
    PLA,
    /// Pull Processor Status
    PLP,
    /// Rotate Left
    ROL,
    /// Rotate Right
    ROR,
    /// Return from Subroutine
    RTS,
    /// Subtract with Carry
    SBC,
    /// Set Carry Flag
    SEC,
    /// Set Decimal Flag
    SED,
    /// Set Interrupt Disable
    SEI,
    /// Store Accumulator
    STA,
    /// Store X
    STX,
    /// Store Y
    STY,
    /// Transfer Accumulator to X
    TAX,
    /// Transfer Accumulator to Y
    TAY,
    /// Transfer Stack Pointer to X
    TSX,
    /// Transfer X to Accumulator
    TXA,
    /// Transfer X to Stack Pointer
    TXS,
    /// Transfer Y to Accumulator
    TYA,
}

/// How the bytes after an opcode select its operand.
#[derive(Clone, Copy, Debug, PartialEq, Eq, Structural)]
pub enum AddressingMode {
    Implicit,
    Accumulator,
    Immediate,
    ZeroPage,
    ZeroPageX,
    ZeroPageY,
    Relative,
    Absolute,
    AbsoluteX,
    AbsoluteY,
    Indirect,
    /// `(zp,X)`: the word at zero-page address `zp + X`.
    IndexedIndirect,
    /// `(zp),Y`: the word at zero-page address `zp`, plus `Y`.
    IndirectIndexed,
}

/// What an addressing mode resolves to: a literal byte or an address.
#[derive(Clone, Copy, Debug, PartialEq, Eq, Structural)]
pub enum Operand {
    Value(u8),
    Address(u16),
}

/// An operation together with its resolved operand, if any.
#[derive(Clone, Copy, Debug, PartialEq, Eq, Structural)]
pub struct Instruction(pub Operation, pub Option<Operand>);

/// The operation and addressing mode that an opcode byte encodes; `None` for a
/// byte outside the documented instruction set.
pub open spec fn opcode_table(opcode: u8) -> Option<(Operation, AddressingMode)> {
    match opcode {
        0x69 => Some((Operation::ADC, AddressingMode::Immediate)),
        0x65 => Some((Operation::ADC, AddressingMode::ZeroPage)),
        0x75 => Some((Operation::ADC, AddressingMode::ZeroPageX)),
        0x6d => Some((Operation::ADC, AddressingMode::Absolute)),
        0x7d => Some((Operation::ADC, AddressingMode::AbsoluteX)),
        0x79 => Some((Operation::ADC, AddressingMode::AbsoluteY)),
        0x61 => Some((Operation::ADC, AddressingMode::IndexedIndirect)),
        0x71 => Some((Operation::ADC, AddressingMode::IndirectIndexed)),
        0x29 => Some((Operation::AND, AddressingMode::Immediate)),
        0x25 => Some((Operation::AND, AddressingMode::ZeroPage)),
        0x35 => Some((Operation::AND, AddressingMode::ZeroPageX)),
        0x2d => Some((Operation::AND, AddressingMode::Absolute)),
        0x3d => Some((Operation::AND, AddressingMode::AbsoluteX)),
        0x39 => Some((Operation::AND, AddressingMode::AbsoluteY)),
        0x21 => Some((Operation::AND, AddressingMode::IndexedIndirect)),
        0x31 => Some((Operation::AND, AddressingMode::IndirectIndexed)),
        0x0a => Some((Operation::ASL, AddressingMode::Accumulator)),
        0x06 => Some((Operation::ASL, AddressingMode::ZeroPage)),
        0x16 => Some((Operation::ASL, AddressingMode::ZeroPageX)),
        0x0e => Some((Operation::ASL, AddressingMode::Absolute)),
        0x1e => Some((Operation::ASL, AddressingMode::AbsoluteX)),
        0x24 => Some((Operation::BIT, AddressingMode::ZeroPage)),
        0x2c => Some((Operation::BIT, AddressingMode::Absolute)),
        0xc9 => Some((Operation::CMP, AddressingMode::Immediate)),
        0xc5 => Some((Operation::CMP, AddressingMode::ZeroPage)),
        0xd5 => Some((Operation::CMP, AddressingMode::ZeroPageX)),
        0xcd => Some((Operation::CMP, AddressingMode::Absolute)),
        0xdd => Some((Operation::CMP, AddressingMode::AbsoluteX)),
        0xd9 => Some((Operation::CMP, AddressingMode::AbsoluteY)),
        0xc1 => Some((Operation::CMP, AddressingMode::IndexedIndirect)),
        0xd1 => Some((Operation::CMP, AddressingMode::IndirectIndexed)),
        0xe0 => Some((Operation::CPX, AddressingMode::Immediate)),
        0xe4 => Some((Operation::CPX, AddressingMode::ZeroPage)),
        0xec => Some((Operation::CPX, AddressingMode::Absolute)),
        0xc0 => Some((Operation::CPY, AddressingMode::Immediate)),
        0xc4 => Some((Operation::CPY, AddressingMode::ZeroPage)),
        0xcc => Some((Operation::CPY, AddressingMode::Absolute)),
        0xc6 => Some((Operation::DEC, AddressingMode::ZeroPage)),
        0xd6 => Some((Operation::DEC, AddressingMode::ZeroPageX)),
        0xce => Some((Operation::DEC, AddressingMode::Absolute)),
        0xde => Some((Operation::DEC, AddressingMode::AbsoluteX)),
        0xca => Some((Operation::DEX, AddressingMode::Implicit)),
        0x88 => Some((Operation::DEY, AddressingMode::Implicit)),
        0x49 => Some((Operation::EOR, AddressingMode::Immediate)),
        0x45 => Some((Operation::EOR, AddressingMode::ZeroPage)),
        0x55 => Some((Operation::EOR, AddressingMode::ZeroPageX)),
        0x4d => Some((Operation::EOR, AddressingMode::Absolute)),
        0x5d => Some((Operation::EOR, AddressingMode::AbsoluteX)),
        0x59 => Some((Operation::EOR, AddressingMode::AbsoluteY)),
        0x41 => Some((Operation::EOR, AddressingMode::IndexedIndirect)),
        0x51 => Some((Operation::EOR, AddressingMode::IndirectIndexed)),
        0xe6 => Some((Operation::INC, AddressingMode::ZeroPage)),
        0xf6 => Some((Operation::INC, AddressingMode::ZeroPageX)),
        0xee => Some((Operation::INC, AddressingMode::Absolute)),
        0xfe => Some((Operation::INC, AddressingMode::AbsoluteX)),
        0xe8 => Some((Operation::INX, AddressingMode::Implicit)),
        0xc8 => Some((Operation::INY, AddressingMode::Implicit)),
        0xa9 => Some((Operation::LDA, AddressingMode::Immediate)),
        0xa5 => Some((Operation::LDA, AddressingMode::ZeroPage)),
        0xb5 => Some((Operation::LDA, AddressingMode::ZeroPageX)),
        0xad => Some((Operation::LDA, AddressingMode::Absolute)),
        0xbd => Some((Operation::LDA, AddressingMode::AbsoluteX)),
        0xb9 => Some((Operation::LDA, AddressingMode::AbsoluteY)),
        0xa1 => Some((Operation::LDA, AddressingMode::IndexedIndirect)),
        0xb1 => Some((Operation::LDA, AddressingMode::IndirectIndexed)),
        0xa2 => Some((Operation::LDX, AddressingMode::Immediate)),
        0xa6 => Some((Operation::LDX, AddressingMode::ZeroPage)),
        0xb6 => Some((Operation::LDX, AddressingMode::ZeroPageY)),
        0xae => Some((Operation::LDX, AddressingMode::Absolute)),
        0xbe => Some((Operation::LDX, AddressingMode::AbsoluteY)),
        0xa0 => Some((Operation::LDY, AddressingMode::Immediate)),
        0xa4 => Some((Operation::LDY, AddressingMode::ZeroPage)),
        0xb4 => Some((Operation::LDY, AddressingMode::ZeroPageX)),
        0xac => Some((Operation::LDY, AddressingMode::Absolute)),
        0xbc => Some((Operation::LDY, AddressingMode::AbsoluteX)),
        0x4a => Some((Operation::LSR, AddressingMode::Accumulator)),
        0x46 => Some((Operation::LSR, AddressingMode::ZeroPage)),
        0x56 => Some((Operation::LSR, AddressingMode::ZeroPageX)),
        0x4e => Some((Operation::LSR, AddressingMode::Absolute)),
        0x5e => Some((Operation::LSR, AddressingMode::AbsoluteX)),
        0xea => Some((Operation::NOP, AddressingMode::Implicit)),
        0x09 => Some((Operation::ORA, AddressingMode::Immediate)),
        0x05 => Some((Operation::ORA, AddressingMode::ZeroPage)),
        0x15 => Some((Operation::ORA, AddressingMode::ZeroPageX)),
        0x0d => Some((Operation::ORA, AddressingMode::Absolute)),
        0x1d => Some((Operation::ORA, AddressingMode::AbsoluteX)),
        0x19 => Some((Operation::ORA, AddressingMode::AbsoluteY)),
        0x01 => Some((Operation::ORA, AddressingMode::IndexedIndirect)),
        0x11 => Some((Operation::ORA, AddressingMode::IndirectIndexed)),
        0x2a => Some((Operation::ROL, AddressingMode::Accumulator)),
        0x26 => Some((Operation::ROL, AddressingMode::ZeroPage)),
        0x36 => Some((Operation::ROL, AddressingMode::ZeroPageX)),
        0x2e => Some((Operation::ROL, AddressingMode::Absolute)),
        0x3e => Some((Operation::ROL, AddressingMode::AbsoluteX)),
        0x6a => Some((Operation::ROR, AddressingMode::Accumulator)),
        0x66 => Some((Operation::ROR, AddressingMode::ZeroPage)),
        0x76 => Some((Operation::ROR, AddressingMode::ZeroPageX)),
        0x6e => Some((Operation::ROR, AddressingMode::Absolute)),
        0x7e => Some((Operation::ROR, AddressingMode::AbsoluteX)),
        0xe9 => Some((Operation::SBC, AddressingMode::Immediate)),
        0xe5 => Some((Operation::SBC, AddressingMode::ZeroPage)),
        0xf5 => Some((Operation::SBC, AddressingMode::ZeroPageX)),
        0xed => Some((Operation::SBC, AddressingMode::Absolute)),
        0xfd => Some((Operation::SBC, AddressingMode::AbsoluteX)),
        0xf9 => Some((Operation::SBC, AddressingMode::AbsoluteY)),
        0xe1 => Some((Operation::SBC, AddressingMode::IndexedIndirect)),
        0xf1 => Some((Operation::SBC, AddressingMode::IndirectIndexed)),
        0x85 => Some((Operation::STA, AddressingMode::ZeroPage)),
        0x95 => Some((Operation::STA, AddressingMode::ZeroPageX)),
        0x8d => Some((Operation::STA, AddressingMode::Absolute)),
        0x9d => Some((Operation::STA, AddressingMode::AbsoluteX)),
        0x99 => Some((Operation::STA, AddressingMode::AbsoluteY)),
        0x81 => Some((Operation::STA, AddressingMode::IndexedIndirect)),
        0x91 => Some((Operation::STA, AddressingMode::IndirectIndexed)),
        0x86 => Some((Operation::STX, AddressingMode::ZeroPage)),
        0x96 => Some((Operation::STX, AddressingMode::ZeroPageY)),
        0x8e => Some((Operation::STX, AddressingMode::Absolute)),
        0x84 => Some((Operation::STY, AddressingMode::ZeroPage)),
        0x94 => Some((Operation::STY, AddressingMode::ZeroPageX)),
        0x8c => Some((Operation::STY, AddressingMode::Absolute)),
        0xaa => Some((Operation::TAX, AddressingMode::Implicit)),
        0xa8 => Some((Operation::TAY, AddressingMode::Implicit)),
        0xba => Some((Operation::TSX, AddressingMode::Implicit)),
        0x8a => Some((Operation::TXA, AddressingMode::Implicit)),
        0x9a => Some((Operation::TXS, AddressingMode::Implicit)),
        0x98 => Some((Operation::TYA, AddressingMode::Implicit)),
        0x18 => Some((Operation::CLC, AddressingMode::Implicit)),
        0xd8 => Some((Operation::CLD, AddressingMode::Implicit)),
        0x58 => Some((Operation::CLI, AddressingMode::Implicit)),
        0xb8 => Some((Operation::CLV, AddressingMode::Implicit)),
        0x38 => Some((Operation::SEC, AddressingMode::Implicit)),
        0xf8 => Some((Operation::SED, AddressingMode::Implicit)),
        0x78 => Some((Operation::SEI, AddressingMode::Implicit)),
        0x90 => Some((Operation::BCC, AddressingMode::Relative)),
        0xb0 => Some((Operation::BCS, AddressingMode::Relative)),
        0xf0 => Some((Operation::BEQ, AddressingMode::Relative)),
        0x30 => Some((Operation::BMI, AddressingMode::Relative)),
        0xd0 => Some((Operation::BNE, AddressingMode::Relative)),
        0x10 => Some((Operation::BPL, AddressingMode::Relative)),
        0x50 => Some((Operation::BVC, AddressingMode::Relative)),
        0x70 => Some((Operation::BVS, AddressingMode::Relative)),
        0x4c => Some((Operation::JMP, AddressingMode::Absolute)),
        0x6c => Some((Operation::JMP, AddressingMode::Indirect)),
        0x20 => Some((Operation::JSR, AddressingMode::Absolute)),
        0x60 => Some((Operation::RTS, AddressingMode::Implicit)),
        0x48 => Some((Operation::PHA, AddressingMode::Implicit)),
        0x08 => Some((Operation::PHP, AddressingMode::Implicit)),
        0x68 => Some((Operation::PLA, AddressingMode::Implicit)),
        0x28 => Some((Operation::PLP, AddressingMode::Implicit)),
        _ => None,
    }
}

pub fn decode_opcode(opcode: u8) -> (r: Option<(Operation, AddressingMode)>)
    ensures
        r == opcode_table(opcode),
{
    match opcode {
        0x69 => Some((Operation::ADC, AddressingMode::Immediate)),
        0x65 => Some((Operation::ADC, AddressingMode::ZeroPage)),
        0x75 => Some((Operation::ADC, AddressingMode::ZeroPageX)),
        0x6d => Some((Operation::ADC, AddressingMode::Absolute)),
        0x7d => Some((Operation::ADC, AddressingMode::AbsoluteX)),
        0x79 => Some((Operation::ADC, AddressingMode::AbsoluteY)),
        0x61 => Some((Operation::ADC, AddressingMode::IndexedIndirect)),
        0x71 => Some((Operation::ADC, AddressingMode::IndirectIndexed)),
        0x29 => Some((Operation::AND, AddressingMode::Immediate)),
        0x25 => Some((Operation::AND, AddressingMode::ZeroPage)),
        0x35 => Some((Operation::AND, AddressingMode::ZeroPageX)),
        0x2d => Some((Operation::AND, AddressingMode::Absolute)),
        0x3d => Some((Operation::AND, AddressingMode::AbsoluteX)),
        0x39 => Some((Operation::AND, AddressingMode::AbsoluteY)),
        0x21 => Some((Operation::AND, AddressingMode::IndexedIndirect)),
        0x31 => Some((Operation::AND, AddressingMode::IndirectIndexed)),
        0x0a => Some((Operation::ASL, AddressingMode::Accumulator)),
        0x06 => Some((Operation::ASL, AddressingMode::ZeroPage)),
        0x16 => Some((Operation::ASL, AddressingMode::ZeroPageX)),
        0x0e => Some((Operation::ASL, AddressingMode::Absolute)),
        0x1e => Some((Operation::ASL, AddressingMode::AbsoluteX)),
        0x24 => Some((Operation::BIT, AddressingMode::ZeroPage)),
        0x2c => Some((Operation::BIT, AddressingMode::Absolute)),
        0xc9 => Some((Operation::CMP, AddressingMode::Immediate)),
        0xc5 => Some((Operation::CMP, AddressingMode::ZeroPage)),
        0xd5 => Some((Operation::CMP, AddressingMode::ZeroPageX)),
        0xcd => Some((Operation::CMP, AddressingMode::Absolute)),
        0xdd => Some((Operation::CMP, AddressingMode::AbsoluteX)),
        0xd9 => Some((Operation::CMP, AddressingMode::AbsoluteY)),
        0xc1 => Some((Operation::CMP, AddressingMode::IndexedIndirect)),
        0xd1 => Some((Operation::CMP, AddressingMode::IndirectIndexed)),
        0xe0 => Some((Operation::CPX, AddressingMode::Immediate)),
        0xe4 => Some((Operation::CPX, AddressingMode::ZeroPage)),
        0xec => Some((Operation::CPX, AddressingMode::Absolute)),
        0xc0 => Some((Operation::CPY, AddressingMode::Immediate)),
        0xc4 => Some((Operation::CPY, AddressingMode::ZeroPage)),
        0xcc => Some((Operation::CPY, AddressingMode::Absolute)),
        0xc6 => Some((Operation::DEC, AddressingMode::ZeroPage)),
        0xd6 => Some((Operation::DEC, AddressingMode::ZeroPageX)),
        0xce => Some((Operation::DEC, AddressingMode::Absolute)),
        0xde => Some((Operation::DEC, AddressingMode::AbsoluteX)),
        0xca => Some((Operation::DEX, AddressingMode::Implicit)),
        0x88 => Some((Operation::DEY, AddressingMode::Implicit)),
        0x49 => Some((Operation::EOR, AddressingMode::Immediate)),
        0x45 => Some((Operation::EOR, AddressingMode::ZeroPage)),
        0x55 => Some((Operation::EOR, AddressingMode::ZeroPageX)),
        0x4d => Some((Operation::EOR, AddressingMode::Absolute)),
        0x5d => Some((Operation::EOR, AddressingMode::AbsoluteX)),
        0x59 => Some((Operation::EOR, AddressingMode::AbsoluteY)),
        0x41 => Some((Operation::EOR, AddressingMode::IndexedIndirect)),
        0x51 => Some((Operation::EOR, AddressingMode::IndirectIndexed)),
        0xe6 => Some((Operation::INC, AddressingMode::ZeroPage)),
        0xf6 => Some((Operation::INC, AddressingMode::ZeroPageX)),
        0xee => Some((Operation::INC, AddressingMode::Absolute)),
        0xfe => Some((Operation::INC, AddressingMode::AbsoluteX)),
        0xe8 => Some((Operation::INX, AddressingMode::Implicit)),
        0xc8 => Some((Operation::INY, AddressingMode::Implicit)),
        0xa9 => Some((Operation::LDA, AddressingMode::Immediate)),
        0xa5 => Some((Operation::LDA, AddressingMode::ZeroPage)),
        0xb5 => Some((Operation::LDA, AddressingMode::ZeroPageX)),
        0xad => Some((Operation::LDA, AddressingMode::Absolute)),
        0xbd => Some((Operation::LDA, AddressingMode::AbsoluteX)),
        0xb9 => Some((Operation::LDA, AddressingMode::AbsoluteY)),
        0xa1 => Some((Operation::LDA, AddressingMode::IndexedIndirect)),
        0xb1 => Some((Operation::LDA, AddressingMode::IndirectIndexed)),
        0xa2 => Some((Operation::LDX, AddressingMode::Immediate)),
        0xa6 => Some((Operation::LDX, AddressingMode::ZeroPage)),
        0xb6 => Some((Operation::LDX, AddressingMode::ZeroPageY)),
        0xae => Some((Operation::LDX, AddressingMode::Absolute)),
        0xbe => Some((Operation::LDX, AddressingMode::AbsoluteY)),
        0xa0 => Some((Operation::LDY, AddressingMode::Immediate)),
        0xa4 => Some((Operation::LDY, AddressingMode::ZeroPage)),
        0xb4 => Some((Operation::LDY, AddressingMode::ZeroPageX)),
        0xac => Some((Operation::LDY, AddressingMode::Absolute)),
        0xbc => Some((Operation::LDY, AddressingMode::AbsoluteX)),
        0x4a => Some((Operation::LSR, AddressingMode::Accumulator)),
        0x46 => Some((Operation::LSR, AddressingMode::ZeroPage)),
        0x56 => Some((Operation::LSR, AddressingMode::ZeroPageX)),
        0x4e => Some((Operation::LSR, AddressingMode::Absolute)),
        0x5e => Some((Operation::LSR, AddressingMode::AbsoluteX)),
        0xea => Some((Operation::NOP, AddressingMode::Implicit)),
        0x09 => Some((Operation::ORA, AddressingMode::Immediate)),
        0x05 => Some((Operation::ORA, AddressingMode::ZeroPage)),
        0x15 => Some((Operation::ORA, AddressingMode::ZeroPageX)),
        0x0d => Some((Operation::ORA, AddressingMode::Absolute)),
        0x1d => Some((Operation::ORA, AddressingMode::AbsoluteX)),
        0x19 => Some((Operation::ORA, AddressingMode::AbsoluteY)),
        0x01 => Some((Operation::ORA, AddressingMode::IndexedIndirect)),
        0x11 => Some((Operation::ORA, AddressingMode::IndirectIndexed)),
        0x2a => Some((Operation::ROL, AddressingMode::Accumulator)),
        0x26 => Some((Operation::ROL, AddressingMode::ZeroPage)),
        0x36 => Some((Operation::ROL, AddressingMode::ZeroPageX)),
        0x2e => Some((Operation::ROL, AddressingMode::Absolute)),
        0x3e => Some((Operation::ROL, AddressingMode::AbsoluteX)),
        0x6a => Some((Operation::ROR, AddressingMode::Accumulator)),
        0x66 => Some((Operation::ROR, AddressingMode::ZeroPage)),
        0x76 => Some((Operation::ROR, AddressingMode::ZeroPageX)),
        0x6e => Some((Operation::ROR, AddressingMode::Absolute)),
        0x7e => Some((Operation::ROR, AddressingMode::AbsoluteX)),
        0xe9 => Some((Operation::SBC, AddressingMode::Immediate)),
        0xe5 => Some((Operation::SBC, AddressingMode::ZeroPage)),
        0xf5 => Some((Operation::SBC, AddressingMode::ZeroPageX)),
        0xed => Some((Operation::SBC, AddressingMode::Absolute)),
        0xfd => Some((Operation::SBC, AddressingMode::AbsoluteX)),
        0xf9 => Some((Operation::SBC, AddressingMode::AbsoluteY)),
        0xe1 => Some((Operation::SBC, AddressingMode::IndexedIndirect)),
        0xf1 => Some((Operation::SBC, AddressingMode::IndirectIndexed)),
        0x85 => Some((Operation::STA, AddressingMode::ZeroPage)),
        0x95 => Some((Operation::STA, AddressingMode::ZeroPageX)),
        0x8d => Some((Operation::STA, AddressingMode::Absolute)),
        0x9d => Some((Operation::STA, AddressingMode::AbsoluteX)),
        0x99 => Some((Operation::STA, AddressingMode::AbsoluteY)),
        0x81 => Some((Operation::STA, AddressingMode::IndexedIndirect)),
        0x91 => Some((Operation::STA, AddressingMode::IndirectIndexed)),
        0x86 => Some((Operation::STX, AddressingMode::ZeroPage)),
        0x96 => Some((Operation::STX, AddressingMode::ZeroPageY)),
        0x8e => Some((Operation::STX, AddressingMode::Absolute)),
        0x84 => Some((Operation::STY, AddressingMode::ZeroPage)),
        0x94 => Some((Operation::STY, AddressingMode::ZeroPageX)),
        0x8c => Some((Operation::STY, AddressingMode::Absolute)),
        0xaa => Some((Operation::TAX, AddressingMode::Implicit)),
        0xa8 => Some((Operation::TAY, AddressingMode::Implicit)),
        0xba => Some((Operation::TSX, AddressingMode::Implicit)),
        0x8a => Some((Operation::TXA, AddressingMode::Implicit)),
        0x9a => Some((Operation::TXS, AddressingMode::Implicit)),
        0x98 => Some((Operation::TYA, AddressingMode::Implicit)),
        0x18 => Some((Operation::CLC, AddressingMode::Implicit)),
        0xd8 => Some((Operation::CLD, AddressingMode::Implicit)),
        0x58 => Some((Operation::CLI, AddressingMode::Implicit)),
        0xb8 => Some((Operation::CLV, AddressingMode::Implicit)),
        0x38 => Some((Operation::SEC, AddressingMode::Implicit)),
        0xf8 => Some((Operation::SED, AddressingMode::Implicit)),
        0x78 => Some((Operation::SEI, AddressingMode::Implicit)),
        0x90 => Some((Operation::BCC, AddressingMode::Relative)),
        0xb0 => Some((Operation::BCS, AddressingMode::Relative)),
        0xf0 => Some((Operation::BEQ, AddressingMode::Relative)),
        0x30 => Some((Operation::BMI, AddressingMode::Relative)),
        0xd0 => Some((Operation::BNE, AddressingMode::Relative)),
        0x10 => Some((Operation::BPL, AddressingMode::Relative)),
        0x50 => Some((Operation::BVC, AddressingMode::Relative)),
        0x70 => Some((Operation::BVS, AddressingMode::Relative)),
        0x4c => Some((Operation::JMP, AddressingMode::Absolute)),
        0x6c => Some((Operation::JMP, AddressingMode::Indirect)),
        0x20 => Some((Operation::JSR, AddressingMode::Absolute)),
        0x60 => Some((Operation::RTS, AddressingMode::Implicit)),
        0x48 => Some((Operation::PHA, AddressingMode::Implicit)),
        0x08 => Some((Operation::PHP, AddressingMode::Implicit)),
        0x68 => Some((Operation::PLA, AddressingMode::Implicit)),
        0x28 => Some((Operation::PLP, AddressingMode::Implicit)),
        _ => None,
    }
}

} // verus!
