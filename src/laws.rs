//! Properties of the instruction semantics that hold for every machine state.
use vstd::prelude::*;

use crate::cpu::CpuState;
use crate::flags::{flag_of, lemma_with_flag, with_flag, with_zero_and_negative, StatusFlags};
use crate::instruction::{opcode_table, AddressingMode, Operand, Operation};
use crate::memory::{byte_at, word_at, word_at_zero_page, word_of};
use crate::semantics::{
    at_pc,
    branch_condition, compare, operand_of, operand_size, perform, is_branch, pop_byte, pop_word, push_byte, push_word,
    stack_address, step, with_a, with_status, add_with_carry, wrap16, wrap8,
};

verus! {

/// Whether `address` lies outside the stack page 0x0100..=0x01FF.
pub open spec fn outside_stack_page(address: int) -> bool {
    address < 0x100 || 0x200 <= address
}

/// After Z and N are set from a value, Z holds exactly when the value is zero
/// and N exactly when it is 0x80 or more.
pub proof fn lemma_zero_and_negative(p: u8, value: u8)
    ensures
        flag_of(with_zero_and_negative(p, value), StatusFlags::Zero) == (value == 0),
        flag_of(with_zero_and_negative(p, value), StatusFlags::Negative) == (value >= 0x80),
{
    let z = with_flag(p, StatusFlags::Zero, value == 0);
    lemma_with_flag(p, StatusFlags::Zero, value == 0, StatusFlags::Zero);
    lemma_with_flag(z, StatusFlags::Negative, value & 0x80 != 0, StatusFlags::Zero);
    lemma_with_flag(z, StatusFlags::Negative, value & 0x80 != 0, StatusFlags::Negative);
    assert(value & 0x80 != 0 <==> value >= 0x80) by (bit_vector);
}

/// A pointer read at zero-page address 0xFF takes its high byte from 0x00,
/// not from 0x100.
pub proof fn lemma_zero_page_wrap(m: Seq<u8>)
    requires
        m.len() == 0x10000,
    ensures
        word_at_zero_page(m, 0xFF) == word_of(m[0xFF], m[0x00]),
{
}

/// Pushing a byte and popping one gives the byte back, restores every
/// register, and leaves memory outside the stack page as it was.
pub proof fn lemma_push_pop_byte(s: CpuState, m: Seq<u8>, v: u8)
    requires
        m.len() == 0x10000,
    ensures
        ({
            let (s1, m1) = push_byte(s, m, v);
            let (s2, r) = pop_byte(s1, m1);
            &&& r == v
            &&& s2 == s
            &&& m1.len() == m.len()
            &&& forall|a: int| 0 <= a < 0x10000 && outside_stack_page(a) ==> m1[a] == m[a]
        }),
{
}

/// Pushing a word and popping one gives the word back, restores every
/// register, and leaves memory outside the stack page as it was.
pub proof fn lemma_push_pop_word(s: CpuState, m: Seq<u8>, w: u16)
    requires
        m.len() == 0x10000,
    ensures
        ({
            let (s1, m1) = push_word(s, m, w);
            let (s2, r) = pop_word(s1, m1);
            &&& r == w
            &&& s2 == s
            &&& m1.len() == m.len()
            &&& forall|a: int| 0 <= a < 0x10000 && outside_stack_page(a) ==> m1[a] == m[a]
        }),
{
    assert(word_of(w as u8, (w >> 8u16) as u8) == w) by (bit_vector);
}

/// One entry of a transcript of stack operations.
#[derive(Clone, Copy, Debug, PartialEq, Eq, Structural)]
pub enum StackOp {
    Push(u8),
    Pop,
}

/// Runs a transcript of pushes and pops on the machine stack; returns the final
/// state and memory and the bytes popped, in order.
pub open spec fn run_stack(ops: Seq<StackOp>, s: CpuState, m: Seq<u8>) -> (CpuState, Seq<u8>, Seq<u8>)
    decreases ops.len(),
{
    if ops.len() == 0 {
        (s, m, Seq::empty())
    } else {
        match ops[0] {
            StackOp::Push(v) => {
                let (s1, m1) = push_byte(s, m, v);
                run_stack(ops.drop_first(), s1, m1)
            },
            StackOp::Pop => {
                let (s1, v) = pop_byte(s, m);
                let (s2, m2, popped) = run_stack(ops.drop_first(), s1, m);
                (s2, m2, seq![v] + popped)
            },
        }
    }
}

/// The bytes a last-in first-out stack hands out for a transcript, starting
/// from the contents `st` (top last); also the contents at the end.
pub open spec fn lifo_pops(ops: Seq<StackOp>, st: Seq<u8>) -> (Seq<u8>, Seq<u8>)
    decreases ops.len(),
{
    if ops.len() == 0 {
        (st, Seq::empty())
    } else {
        match ops[0] {
            StackOp::Push(v) => lifo_pops(ops.drop_first(), st.push(v)),
            StackOp::Pop => {
                let (rest, popped) = lifo_pops(ops.drop_first(), st.drop_last());
                (rest, seq![st.last()] + popped)
            },
        }
    }
}

/// Whether a transcript, begun with `depth` bytes on the stack, never pops an
/// empty stack, never holds more than the 256 bytes of the stack page, and
/// ends with an empty stack.
pub open spec fn balanced_from(ops: Seq<StackOp>, depth: int) -> bool
    decreases ops.len(),
{
    if ops.len() == 0 {
        depth == 0
    } else {
        match ops[0] {
            StackOp::Push(_) => depth + 1 <= 256 && balanced_from(ops.drop_first(), depth + 1),
            StackOp::Pop => depth >= 1 && balanced_from(ops.drop_first(), depth - 1),
        }
    }
}

proof fn lemma_wrap8_add(x: int, y: int)
    ensures
        wrap8(wrap8(x) + y) == wrap8(x + y),
{
    vstd::arithmetic::div_mod::lemma_add_mod_noop(x, y, 0x100);
    vstd::arithmetic::div_mod::lemma_mod_twice(y, 0x100);
    vstd::arithmetic::div_mod::lemma_add_mod_noop(x % 0x100, y, 0x100);
}

/// The stack invariant: the byte `i` from the bottom of `st` lies `st.len() - i`
/// places above the stack pointer of `s`.
pub open spec fn stack_holds(s: CpuState, m: Seq<u8>, st: Seq<u8>) -> bool {
    forall|i: int|
        0 <= i < st.len() ==> m[stack_address(wrap8(s.stack_pointer + st.len() - i))] == #[trigger] st[i]
}

proof fn lemma_run_stack(ops: Seq<StackOp>, s: CpuState, m: Seq<u8>, st: Seq<u8>)
    requires
        m.len() == 0x10000,
        balanced_from(ops, st.len() as int),
        stack_holds(s, m, st),
    ensures
        ({
            let (s2, m2, popped) = run_stack(ops, s, m);
            &&& popped == lifo_pops(ops, st).1
            &&& s2 == (CpuState { stack_pointer: wrap8(s.stack_pointer + st.len()), ..s })
            &&& m2.len() == m.len()
            &&& forall|a: int| 0 <= a < 0x10000 && outside_stack_page(a) ==> m2[a] == m[a]
        }),
    decreases ops.len(),
{
    let d = st.len() as int;
    let sp = s.stack_pointer;
    if ops.len() == 0 {
        assert(wrap8(sp + 0) == sp);
    } else {
        match ops[0] {
            StackOp::Push(v) => {
                let (s1, m1) = push_byte(s, m, v);
                let st1 = st.push(v);
                assert forall|i: int| 0 <= i < st1.len() implies m1[stack_address(
                    wrap8(s1.stack_pointer + st1.len() - i),
                )] == #[trigger] st1[i] by {
                    lemma_wrap8_add(sp - 1, d + 1 - i);
                    if i < d {
                        assert(0 < d - i < 0x100);
                        assert(wrap8(sp + d - i) != sp);
                    }
                }
                lemma_run_stack(ops.drop_first(), s1, m1, st1);
                lemma_wrap8_add(sp - 1, d + 1);
            },
            StackOp::Pop => {
                let (s1, v) = pop_byte(s, m);
                let st1 = st.drop_last();
                assert(v == st.last()) by {
                    assert(wrap8(sp + d - (d - 1)) == wrap8(sp + 1));
                }
                assert forall|i: int| 0 <= i < st1.len() implies m[stack_address(
                    wrap8(s1.stack_pointer + st1.len() - i),
                )] == #[trigger] st1[i] by {
                    lemma_wrap8_add(sp + 1, d - 1 - i);
                    assert(st1[i] == st[i]);
                }
                lemma_run_stack(ops.drop_first(), s1, m, st1);
                lemma_wrap8_add(sp + 1, d - 1);
            },
        }
    }
}

/// A balanced transcript of pushes and pops that never holds more than 256
/// bytes restores every register, leaves memory outside the stack page as it
/// was, and pops each byte in last-in first-out order.
pub proof fn lemma_balanced_stack(ops: Seq<StackOp>, s: CpuState, m: Seq<u8>)
    requires
        m.len() == 0x10000,
        balanced_from(ops, 0),
    ensures
        ({
            let (s2, m2, popped) = run_stack(ops, s, m);
            &&& popped == lifo_pops(ops, Seq::empty()).1
            &&& s2 == s
            &&& m2.len() == m.len()
            &&& forall|a: int| 0 <= a < 0x10000 && outside_stack_page(a) ==> m2[a] == m[a]
        }),
{
    lemma_run_stack(ops, s, m, Seq::empty());
    assert(wrap8(s.stack_pointer + 0) == s.stack_pointer);
}

/// One step is the decoded operation performed with its resolved operand.
proof fn lemma_step_decoded(s: CpuState, m: Seq<u8>, op: Operation, mode: AddressingMode)
    requires
        opcode_table(byte_at(m, s.program_counter as int)) == Some((op, mode)),
    ensures
        step(s, m) == Some(
            perform(
                op,
                operand_of(mode, at_pc(s, wrap16(s.program_counter + 1)), m),
                at_pc(s, wrap16(s.program_counter + 1 + operand_size(mode))),
                m,
            ),
        ),
{
}

proof fn lemma_perform_jsr(s: CpuState, m: Seq<u8>, target: u16)
    ensures
        perform(Operation::JSR, Some(Operand::Address(target)), s, m) == ({
            let (s1, m1) = push_word(s, m, s.program_counter);
            (at_pc(s1, target), m1)
        }),
{
    reveal(perform);
}

proof fn lemma_perform_rts(s: CpuState, m: Seq<u8>)
    ensures
        perform(Operation::RTS, None, s, m) == ({
            let (s1, w) = pop_word(s, m);
            (at_pc(s1, w), m)
        }),
{
    reveal(perform);
}

proof fn lemma_perform_clc(s: CpuState, m: Seq<u8>)
    ensures
        perform(Operation::CLC, None, s, m) == (
            with_status(s, with_flag(s.status, StatusFlags::Carry, false)),
            m,
        ),
{
    reveal(perform);
}

proof fn lemma_perform_lda(s: CpuState, m: Seq<u8>, v: u8)
    ensures
        perform(Operation::LDA, Some(Operand::Value(v)), s, m) == (with_a(s, v), m),
{
    reveal(perform);
}

proof fn lemma_perform_adc(s: CpuState, m: Seq<u8>, v: u8)
    ensures
        perform(Operation::ADC, Some(Operand::Value(v)), s, m) == (add_with_carry(s, v), m),
{
    reveal(perform);
}

proof fn lemma_perform_cmp(s: CpuState, m: Seq<u8>, v: u8)
    ensures
        perform(Operation::CMP, Some(Operand::Value(v)), s, m) == (
            with_status(s, compare(s.status, s.a, v)),
            m,
        ),
{
    reveal(perform);
}

/// `JSR target` followed by `RTS` at the target returns to the instruction
/// after the JSR, with every other register as before. The RTS must not sit in
/// the two stack bytes that the JSR writes.
pub proof fn lemma_jsr_rts(s: CpuState, m: Seq<u8>)
    requires
        m.len() == 0x10000,
        byte_at(m, s.program_counter as int) == 0x20,
        m[word_at(m, s.program_counter + 1) as int] == 0x60,
        word_at(m, s.program_counter + 1) as int != stack_address(s.stack_pointer),
        word_at(m, s.program_counter + 1) as int != stack_address(wrap8(s.stack_pointer - 1)),
    ensures
        ({
            let (s1, m1) = step(s, m).unwrap();
            let (s2, m2) = step(s1, m1).unwrap();
            &&& step(s, m) is Some
            &&& step(s1, m1) is Some
            &&& s2 == at_pc(s, wrap16(s.program_counter + 3))
        }),
{
    let pc = s.program_counter;
    let ret = wrap16(pc + 3);
    let target = word_at(m, pc + 1);
    assert(word_of(ret as u8, (ret >> 8u16) as u8) == ret) by (bit_vector);
    lemma_step_decoded(s, m, Operation::JSR, AddressingMode::Absolute);
    lemma_perform_jsr(at_pc(s, ret), m, target);
    let (s1, m1) = step(s, m).unwrap();
    assert(s1.program_counter == target);
    assert(m1[target as int] == 0x60);
    assert(byte_at(m1, target as int) == 0x60);
    lemma_step_decoded(s1, m1, Operation::RTS, AddressingMode::Implicit);
    lemma_perform_rts(at_pc(s1, wrap16(target + 1)), m1);
}

/// CMP sets Z when the accumulator equals the operand, C when it is at least
/// the operand, N from bit 7 of their difference, and leaves A unchanged.
pub proof fn lemma_compare(s: CpuState, v: u8)
    ensures
        flag_of(compare(s.status, s.a, v), StatusFlags::Zero) == (s.a == v),
        flag_of(compare(s.status, s.a, v), StatusFlags::Carry) == (s.a >= v),
        flag_of(compare(s.status, s.a, v), StatusFlags::Negative) == (wrap8(s.a - v) & 0x80 != 0),
        with_status(s, compare(s.status, s.a, v)).a == s.a,
{
    let p = s.status;
    let a = s.a;
    let p1 = with_flag(p, StatusFlags::Negative, wrap8(a - v) & 0x80 != 0);
    let p2 = with_flag(p1, StatusFlags::Carry, a >= v);
    lemma_with_flag(p2, StatusFlags::Zero, a == v, StatusFlags::Zero);
    lemma_with_flag(p2, StatusFlags::Zero, a == v, StatusFlags::Carry);
    lemma_with_flag(p2, StatusFlags::Zero, a == v, StatusFlags::Negative);
    lemma_with_flag(p1, StatusFlags::Carry, a >= v, StatusFlags::Carry);
    lemma_with_flag(p1, StatusFlags::Carry, a >= v, StatusFlags::Negative);
    lemma_with_flag(p, StatusFlags::Negative, wrap8(a - v) & 0x80 != 0, StatusFlags::Negative);
}

/// `CMP #v` changes only the flags, as the compare law says, and moves on by
/// two bytes.
pub proof fn lemma_compare_instruction(s: CpuState, m: Seq<u8>, v: u8)
    requires
        m.len() == 0x10000,
        byte_at(m, s.program_counter as int) == 0xC9,
        byte_at(m, s.program_counter + 1) == v,
    ensures
        step(s, m) == Some(
            (
                with_status(at_pc(s, wrap16(s.program_counter + 2)), compare(s.status, s.a, v)),
                m,
            ),
        ),
{
    lemma_step_decoded(s, m, Operation::CMP, AddressingMode::Immediate);
    lemma_perform_cmp(at_pc(s, wrap16(s.program_counter + 2)), m, v);
}

/// `CLC; LDA #a; ADC #b` leaves `(a + b) mod 256` in the accumulator and sets C
/// exactly when `a + b` exceeds 0xFF.
pub proof fn lemma_add_with_carry(s: CpuState, m: Seq<u8>, a: u8, b: u8)
    requires
        m.len() == 0x10000,
        byte_at(m, s.program_counter as int) == 0x18,
        byte_at(m, s.program_counter + 1) == 0xA9,
        byte_at(m, s.program_counter + 2) == a,
        byte_at(m, s.program_counter + 3) == 0x69,
        byte_at(m, s.program_counter + 4) == b,
    ensures
        ({
            let (s1, m1) = step(s, m).unwrap();
            let (s2, m2) = step(s1, m1).unwrap();
            let (s3, m3) = step(s2, m2).unwrap();
            &&& step(s, m) is Some
            &&& step(s1, m1) is Some
            &&& step(s2, m2) is Some
            &&& s3.a == wrap8(a + b)
            &&& flag_of(s3.status, StatusFlags::Carry) == (a + b > 0xFF)
            &&& s3.program_counter == wrap16(s.program_counter + 5)
        }),
{
    let pc = s.program_counter as int;
    lemma_step_decoded(s, m, Operation::CLC, AddressingMode::Implicit);
    lemma_perform_clc(at_pc(s, wrap16(pc + 1)), m);
    let (s1, m1) = step(s, m).unwrap();
    lemma_with_flag(s.status, StatusFlags::Carry, false, StatusFlags::Carry);
    assert(s1.program_counter as int == (pc + 1) % 0x10000);
    assert(byte_at(m, s1.program_counter as int) == 0xA9);
    lemma_step_decoded(s1, m1, Operation::LDA, AddressingMode::Immediate);
    lemma_perform_lda(at_pc(s1, wrap16(s1.program_counter + 2)), m1, a);
    let (s2, m2) = step(s1, m1).unwrap();
    let z = with_flag(s1.status, StatusFlags::Zero, a == 0);
    lemma_with_flag(s1.status, StatusFlags::Zero, a == 0, StatusFlags::Carry);
    lemma_with_flag(z, StatusFlags::Negative, a & 0x80 != 0, StatusFlags::Carry);
    assert(s2.program_counter as int == (pc + 3) % 0x10000);
    assert(byte_at(m, s2.program_counter as int) == 0x69);
    assert(byte_at(m, s2.program_counter + 1) == b);
    lemma_step_decoded(s2, m2, Operation::ADC, AddressingMode::Immediate);
    lemma_perform_adc(at_pc(s2, wrap16(s2.program_counter + 2)), m2, b);
    let r = wrap8(a + b);
    let p = with_zero_and_negative(s2.status, r);
    let pc3 = with_flag(p, StatusFlags::Carry, a + b > 0xFF);
    lemma_with_flag(p, StatusFlags::Carry, a + b > 0xFF, StatusFlags::Carry);
    lemma_with_flag(pc3, StatusFlags::Overflow, true, StatusFlags::Carry);
    lemma_with_flag(pc3, StatusFlags::Overflow, false, StatusFlags::Carry);
}

/// A branch whose flag does not have the value it tests for falls through to
/// the next instruction, two bytes on, and changes nothing else.
pub proof fn lemma_branch_not_taken(s: CpuState, m: Seq<u8>)
    requires
        m.len() == 0x10000,
        ({
            let t = opcode_table(byte_at(m, s.program_counter as int));
            &&& t is Some
            &&& is_branch(t.unwrap().0)
            &&& flag_of(s.status, branch_condition(t.unwrap().0).0) != branch_condition(
                t.unwrap().0,
            ).1
        }),
    ensures
        step(s, m) == Some((at_pc(s, wrap16(s.program_counter + 2)), m)),
{
    reveal(perform);
}

} // verus!
