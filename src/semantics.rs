//! The meaning of each instruction, as functions from machine state to machine state.
use vstd::prelude::*;

use crate::cpu::CpuState;
use crate::flags::{flag_of, with_flag, with_zero_and_negative, StatusFlags};
use crate::instruction::{opcode_table, AddressingMode, Operand, Operation};
use crate::memory::{byte_at, word_at, word_at_zero_page};

verus! {

/// `x` reduced to 8 bits.
pub open spec fn wrap8(x: int) -> u8 {
    (x % 0x100) as u8
}

/// `x` reduced to 16 bits.
pub open spec fn wrap16(x: int) -> u16 {
    (x % 0x10000) as u16
}

/// A branch offset read as a two's-complement signed byte.
pub open spec fn sign_extend(offset: u8) -> int {
    if offset >= 0x80 {
        offset - 0x100
    } else {
        offset as int
    }
}

/// The address in the stack page that the stack pointer `sp` designates.
pub open spec fn stack_address(sp: u8) -> int {
    0x100 + sp
}

/// How many bytes follow the opcode for an addressing mode.
pub open spec fn operand_size(mode: AddressingMode) -> int {
    match mode {
        AddressingMode::Implicit | AddressingMode::Accumulator => 0,
        AddressingMode::Absolute | AddressingMode::AbsoluteX | AddressingMode::AbsoluteY
        | AddressingMode::Indirect => 2,
        _ => 1,
    }
}

/// The operand that `mode` resolves to, with the program counter of `s` at the
/// first byte after the opcode.
pub open spec fn operand_of(mode: AddressingMode, s: CpuState, m: Seq<u8>) -> Option<Operand> {
    let pc = s.program_counter as int;
    match mode {
        AddressingMode::Implicit | AddressingMode::Accumulator => None,
        AddressingMode::Immediate | AddressingMode::Relative => Some(
            Operand::Value(byte_at(m, pc)),
        ),
        AddressingMode::ZeroPage => Some(Operand::Address(byte_at(m, pc) as u16)),
        AddressingMode::ZeroPageX => Some(Operand::Address(wrap8(byte_at(m, pc) + s.x) as u16)),
        AddressingMode::ZeroPageY => Some(Operand::Address(wrap8(byte_at(m, pc) + s.y) as u16)),
        AddressingMode::Absolute => Some(Operand::Address(word_at(m, pc))),
        AddressingMode::AbsoluteX => Some(Operand::Address(wrap16(word_at(m, pc) + s.x))),
        AddressingMode::AbsoluteY => Some(Operand::Address(wrap16(word_at(m, pc) + s.y))),
        AddressingMode::Indirect => Some(Operand::Address(word_at(m, word_at(m, pc) as int))),
        AddressingMode::IndexedIndirect => Some(
            Operand::Address(word_at_zero_page(m, wrap8(byte_at(m, pc) + s.x))),
        ),
        AddressingMode::IndirectIndexed => Some(
            Operand::Address(wrap16(word_at_zero_page(m, byte_at(m, pc)) + s.y)),
        ),
    }
}

/// The byte an operand stands for: the literal itself, the byte at its
/// address, or the accumulator where there is no operand.
pub open spec fn value_of(operand: Option<Operand>, s: CpuState, m: Seq<u8>) -> u8 {
    match operand {
        Some(Operand::Value(v)) => v,
        Some(Operand::Address(a)) => m[a as int],
        None => s.a,
    }
}

/// The state in which the program counter is `pc` and every other register as in `s`.
pub open spec fn at_pc(s: CpuState, pc: u16) -> CpuState {
    CpuState { program_counter: pc, ..s }
}

pub open spec fn with_status(s: CpuState, status: u8) -> CpuState {
    CpuState { status, ..s }
}

pub open spec fn with_a(s: CpuState, v: u8) -> CpuState {
    CpuState { a: v, status: with_zero_and_negative(s.status, v), ..s }
}

pub open spec fn with_x(s: CpuState, v: u8) -> CpuState {
    CpuState { x: v, status: with_zero_and_negative(s.status, v), ..s }
}

pub open spec fn with_y(s: CpuState, v: u8) -> CpuState {
    CpuState { y: v, status: with_zero_and_negative(s.status, v), ..s }
}

/// Writes `v` at the top of the stack and moves the stack pointer down.
pub open spec fn push_byte(s: CpuState, m: Seq<u8>, v: u8) -> (CpuState, Seq<u8>) {
    (
        CpuState { stack_pointer: wrap8(s.stack_pointer - 1), ..s },
        m.update(stack_address(s.stack_pointer), v),
    )
}

/// Moves the stack pointer up, then reads the byte it designates.
pub open spec fn pop_byte(s: CpuState, m: Seq<u8>) -> (CpuState, u8) {
    let sp = wrap8(s.stack_pointer + 1);
    (CpuState { stack_pointer: sp, ..s }, m[stack_address(sp)])
}

/// Pushes the high byte of `w`, then its low byte.
pub open spec fn push_word(s: CpuState, m: Seq<u8>, w: u16) -> (CpuState, Seq<u8>) {
    let (s1, m1) = push_byte(s, m, (w >> 8u16) as u8);
    push_byte(s1, m1, w as u8)
}

/// Pops the low byte, then the high byte, of a word.
pub open spec fn pop_word(s: CpuState, m: Seq<u8>) -> (CpuState, u16) {
    let (s1, lo) = pop_byte(s, m);
    let (s2, hi) = pop_byte(s1, m);
    (s2, crate::memory::word_of(lo, hi))
}

/// Add with carry: the accumulator becomes `A + v + C` modulo 256, C tells
/// whether the sum exceeded 0xFF and V whether two operands of equal sign gave
/// a result of the other sign.
pub open spec fn add_with_carry(s: CpuState, v: u8) -> CpuState {
    let sum = s.a + v + if flag_of(s.status, StatusFlags::Carry) {
        1int
    } else {
        0int
    };
    let r = wrap8(sum);
    let overflow = (s.a >= 0x80) == (v >= 0x80) && (r >= 0x80) != (s.a >= 0x80);
    let p = with_zero_and_negative(s.status, r);
    let p = with_flag(p, StatusFlags::Carry, sum > 0xFF);
    CpuState { a: r, status: with_flag(p, StatusFlags::Overflow, overflow), ..s }
}

/// Subtract with borrow: add with carry on the one's complement of `v`.
pub open spec fn sub_with_carry(s: CpuState, v: u8) -> CpuState {
    add_with_carry(s, v ^ 0xFF)
}

/// The flags after comparing `register` with `v`.
pub open spec fn compare(p: u8, register: u8, v: u8) -> u8 {
    let p = with_flag(p, StatusFlags::Negative, wrap8(register - v) & 0x80 != 0);
    let p = with_flag(p, StatusFlags::Carry, register >= v);
    with_flag(p, StatusFlags::Zero, register == v)
}

/// The flags after testing bits of the accumulator `a` against `v`.
pub open spec fn bit_test(p: u8, a: u8, v: u8) -> u8 {
    let p = with_flag(p, StatusFlags::Negative, a & 0x80 != 0);
    let p = with_flag(p, StatusFlags::Overflow, a & 0x40 != 0);
    with_flag(p, StatusFlags::Zero, a & v == 0)
}

/// The result of a shift or rotate of `v` with carry-in `c`, and the carry out.
pub open spec fn shifted(op: Operation, v: u8, c: bool) -> (u8, bool) {
    let c_in: u8 = if c {
        1
    } else {
        0
    };
    match op {
        Operation::ASL => (v << 1u8, v & 0x80 != 0),
        Operation::LSR => (v >> 1u8, v & 0x01 != 0),
        Operation::ROL => ((v << 1u8) | c_in, v & 0x80 != 0),
        _ => ((v >> 1u8) | (c_in << 7u8), v & 0x01 != 0),
    }
}

/// A shift or rotate of the accumulator (no operand) or of the byte at an address.
pub open spec fn shift(op: Operation, operand: Option<Operand>, s: CpuState, m: Seq<u8>) -> (
    CpuState,
    Seq<u8>,
) {
    let (r, c) = shifted(op, value_of(operand, s, m), flag_of(s.status, StatusFlags::Carry));
    let p = with_zero_and_negative(with_flag(s.status, StatusFlags::Carry, c), r);
    match operand {
        Some(Operand::Address(a)) => (with_status(s, p), m.update(a as int, r)),
        _ => (CpuState { a: r, status: p, ..s }, m),
    }
}

/// The byte at `a` replaced by `v`, with Z and N describing `v`.
pub open spec fn store_with_flags(s: CpuState, m: Seq<u8>, a: u16, v: u8) -> (CpuState, Seq<u8>) {
    (with_status(s, with_zero_and_negative(s.status, v)), m.update(a as int, v))
}

/// The state after a branch on `flag`: the offset is added to the program
/// counter when the flag equals `condition`.
pub open spec fn branch(s: CpuState, flag: StatusFlags, condition: bool, offset: u8) -> CpuState {
    if flag_of(s.status, flag) == condition {
        CpuState {
            program_counter: wrap16(s.program_counter + sign_extend(offset)),
            ..s
        }
    } else {
        s
    }
}

/// The flag and the value of it on which a branch operation is taken.
pub open spec fn branch_condition(op: Operation) -> (StatusFlags, bool) {
    match op {
        Operation::BCC => (StatusFlags::Carry, false),
        Operation::BCS => (StatusFlags::Carry, true),
        Operation::BEQ => (StatusFlags::Zero, true),
        Operation::BNE => (StatusFlags::Zero, false),
        Operation::BMI => (StatusFlags::Negative, true),
        Operation::BPL => (StatusFlags::Negative, false),
        Operation::BVC => (StatusFlags::Overflow, false),
        _ => (StatusFlags::Overflow, true),
    }
}

pub open spec fn is_branch(op: Operation) -> bool {
    match op {
        Operation::BCC | Operation::BCS | Operation::BEQ | Operation::BNE | Operation::BMI
        | Operation::BPL | Operation::BVC | Operation::BVS => true,
        _ => false,
    }
}

/// The effect of an operation with its operand, the program counter of `s`
/// already past the instruction. An operand of a form that the operation does
/// not take leaves the state as it is; the opcode table pairs none.
#[verifier::opaque]
pub open spec fn perform(op: Operation, operand: Option<Operand>, s: CpuState, m: Seq<u8>) -> (
    CpuState,
    Seq<u8>,
) {
    let v = value_of(operand, s, m);
    match (op, operand) {
        (Operation::ADC, Some(_)) => (add_with_carry(s, v), m),
        (Operation::SBC, Some(_)) => (sub_with_carry(s, v), m),
        (Operation::AND, Some(_)) => (with_a(s, s.a & v), m),
        (Operation::ORA, Some(_)) => (with_a(s, s.a | v), m),
        (Operation::EOR, Some(_)) => (with_a(s, s.a ^ v), m),
        (Operation::ASL, _) | (Operation::LSR, _) | (Operation::ROL, _) | (Operation::ROR, _) => {
            match operand {
                Some(Operand::Value(_)) => (s, m),
                _ => shift(op, operand, s, m),
            }
        },
        (Operation::BIT, Some(_)) => (with_status(s, bit_test(s.status, s.a, v)), m),
        (Operation::CMP, Some(_)) => (with_status(s, compare(s.status, s.a, v)), m),
        (Operation::CPX, Some(_)) => (with_status(s, compare(s.status, s.x, v)), m),
        (Operation::CPY, Some(_)) => (with_status(s, compare(s.status, s.y, v)), m),
        (Operation::INC, Some(Operand::Address(a))) => store_with_flags(s, m, a, wrap8(v + 1)),
        (Operation::DEC, Some(Operand::Address(a))) => store_with_flags(s, m, a, wrap8(v - 1)),
        (Operation::INX, None) => (with_x(s, wrap8(s.x + 1)), m),
        (Operation::INY, None) => (with_y(s, wrap8(s.y + 1)), m),
        (Operation::DEX, None) => (with_x(s, wrap8(s.x - 1)), m),
        (Operation::DEY, None) => (with_y(s, wrap8(s.y - 1)), m),
        (Operation::LDA, Some(_)) => (with_a(s, v), m),
        (Operation::LDX, Some(_)) => (with_x(s, v), m),
        (Operation::LDY, Some(_)) => (with_y(s, v), m),
        (Operation::STA, Some(Operand::Address(a))) => (s, m.update(a as int, s.a)),
        (Operation::STX, Some(Operand::Address(a))) => (s, m.update(a as int, s.x)),
        (Operation::STY, Some(Operand::Address(a))) => (s, m.update(a as int, s.y)),
        (Operation::TAX, None) => (with_x(s, s.a), m),
        (Operation::TAY, None) => (with_y(s, s.a), m),
        (Operation::TSX, None) => (with_x(s, s.stack_pointer), m),
        (Operation::TXA, None) => (with_a(s, s.x), m),
        (Operation::TXS, None) => (CpuState { stack_pointer: s.x, ..s }, m),
        (Operation::TYA, None) => (with_a(s, s.y), m),
        (Operation::CLC, None) => (with_status(s, with_flag(s.status, StatusFlags::Carry, false)), m),
        (Operation::CLD, None) => (
            with_status(s, with_flag(s.status, StatusFlags::DecimalMode, false)),
            m,
        ),
        (Operation::CLI, None) => (
            with_status(s, with_flag(s.status, StatusFlags::InterruptDisable, false)),
            m,
        ),
        (Operation::CLV, None) => (
            with_status(s, with_flag(s.status, StatusFlags::Overflow, false)),
            m,
        ),
        (Operation::SEC, None) => (with_status(s, with_flag(s.status, StatusFlags::Carry, true)), m),
        (Operation::SED, None) => (
            with_status(s, with_flag(s.status, StatusFlags::DecimalMode, true)),
            m,
        ),
        (Operation::SEI, None) => (
            with_status(s, with_flag(s.status, StatusFlags::InterruptDisable, true)),
            m,
        ),
        (Operation::NOP, None) => (s, m),
        (Operation::JMP, Some(Operand::Address(a))) => (CpuState { program_counter: a, ..s }, m),
        (Operation::JSR, Some(Operand::Address(a))) => {
            let (s1, m1) = push_word(s, m, s.program_counter);
            (CpuState { program_counter: a, ..s1 }, m1)
        },
        (Operation::RTS, None) => {
            let (s1, w) = pop_word(s, m);
            (CpuState { program_counter: w, ..s1 }, m)
        },
        (Operation::PHA, None) => push_byte(s, m, s.a),
        (Operation::PHP, None) => push_byte(s, m, s.status),
        (Operation::PLA, None) => {
            let (s1, v) = pop_byte(s, m);
            (with_a(s1, v), m)
        },
        (Operation::PLP, None) => {
            let (s1, v) = pop_byte(s, m);
            (with_status(s1, v), m)
        },
        (_, Some(Operand::Value(offset))) => {
            if is_branch(op) {
                let (flag, condition) = branch_condition(op);
                (branch(s, flag, condition, offset), m)
            } else {
                (s, m)
            }
        },
        _ => (s, m),
    }
}

/// One instruction: fetch the opcode at the program counter, resolve its
/// operand, and perform it. `None` when the opcode is not in the table.
pub open spec fn step(s: CpuState, m: Seq<u8>) -> Option<(CpuState, Seq<u8>)> {
    match opcode_table(byte_at(m, s.program_counter as int)) {
        None => None,
        Some((op, mode)) => {
            let at_operand = CpuState { program_counter: wrap16(s.program_counter + 1), ..s };
            let operand = operand_of(mode, at_operand, m);
            let next = CpuState {
                program_counter: wrap16(s.program_counter + 1 + operand_size(mode)),
                ..s
            };
            Some(perform(op, operand, next, m))
        },
    }
}

} // verus!
