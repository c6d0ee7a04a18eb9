use vstd::prelude::*;

use crate::flags::{flag_of, with_flag, with_zero_and_negative, StatusFlags};
use crate::instruction::{decode_opcode, opcode_table, AddressingMode, Instruction, Operand, Operation};
use crate::memory::{byte_at, word_at, Memory};
use crate::semantics::{
    self, at_pc, bit_test, compare, operand_of, operand_size, shift, step, with_a,
    with_status, with_x, with_y, wrap16, wrap8,
};

verus! {

/// Bottom of the stack page.
const STACK_LOWEST_ADDRESS: u16 = 0x100;

/// The registers of the processor, as a plain value.
#[derive(Clone, Copy, Debug, PartialEq, Eq, Structural)]
pub struct CpuState {
    pub program_counter: u16,
    pub x: u8,
    pub y: u8,
    pub a: u8,
    pub status: u8,
    pub stack_pointer: u8,
}

/// Why an instruction could not be executed.
#[derive(Clone, Copy, Debug, PartialEq, Eq, Structural)]
pub enum CpuError {
    /// The byte at `address` is no documented opcode.
    UnknownOpcode { opcode: u8, address: u16 },
}

/// The processor's registers; `state` and the view give them as a `CpuState`.
pub struct Cpu {
    program_counter: u16,
    x: u8,
    y: u8,
    a: u8,
    status: u8,
    stack_pointer: u8,
}

impl View for Cpu {
    type V = CpuState;

    closed spec fn view(&self) -> CpuState {
        CpuState {
            program_counter: self.program_counter,
            x: self.x,
            y: self.y,
            a: self.a,
            status: self.status,
            stack_pointer: self.stack_pointer,
        }
    }
}

impl AddressingMode {
    /// Reads the bytes of the operand after the opcode and resolves them.
    pub fn get_operand(&self, cpu: &mut Cpu, mem: &Memory) -> (r: Option<Operand>)
        ensures
            r == operand_of(*self, old(cpu)@, mem@),
            final(cpu)@ == at_pc(
                old(cpu)@,
                wrap16(old(cpu)@.program_counter + operand_size(*self)),
            ),
    {
        match self {
            AddressingMode::Implicit | AddressingMode::Accumulator => None,
            AddressingMode::Immediate | AddressingMode::Relative => Some(
                Operand::Value(cpu.fetch_byte(mem)),
            ),
            AddressingMode::ZeroPage => Some(Operand::Address(cpu.fetch_byte(mem) as u16)),
            AddressingMode::ZeroPageX => Some(
                Operand::Address(cpu.fetch_byte(mem).wrapping_add(cpu.x) as u16),
            ),
            AddressingMode::ZeroPageY => Some(
                Operand::Address(cpu.fetch_byte(mem).wrapping_add(cpu.y) as u16),
            ),
            AddressingMode::Absolute => Some(Operand::Address(cpu.fetch_word(mem))),
            AddressingMode::AbsoluteX => Some(
                Operand::Address(cpu.fetch_word(mem).wrapping_add(cpu.x as u16)),
            ),
            AddressingMode::AbsoluteY => Some(
                Operand::Address(cpu.fetch_word(mem).wrapping_add(cpu.y as u16)),
            ),
            AddressingMode::Indirect => {
                let pointer = cpu.fetch_word(mem);
                Some(Operand::Address(mem.read_word(pointer)))
            },
            AddressingMode::IndexedIndirect => {
                let zero_page_address = cpu.fetch_byte(mem).wrapping_add(cpu.x);
                Some(Operand::Address(mem.read_word_zp(zero_page_address)))
            },
            AddressingMode::IndirectIndexed => {
                let zero_page_address = cpu.fetch_byte(mem);
                let base = mem.read_word_zp(zero_page_address);
                Some(Operand::Address(base.wrapping_add(cpu.y as u16)))
            },
        }
    }
}

impl Cpu {
    pub fn new() -> (r: Self)
        ensures
            r@ == (CpuState {
                program_counter: 0,
                x: 0,
                y: 0,
                a: 0,
                status: 0,
                stack_pointer: 0xff,
            }),
    {
        Self { program_counter: 0, x: 0, y: 0, a: 0, status: 0, stack_pointer: 0xff }
    }

    /// A processor whose registers hold `state`.
    pub fn from_state(state: CpuState) -> (r: Self)
        ensures
            r@ == state,
    {
        Self {
            program_counter: state.program_counter,
            x: state.x,
            y: state.y,
            a: state.a,
            status: state.status,
            stack_pointer: state.stack_pointer,
        }
    }

    pub fn state(&self) -> (r: CpuState)
        ensures
            r == self@,
    {
        CpuState {
            program_counter: self.program_counter,
            x: self.x,
            y: self.y,
            a: self.a,
            status: self.status,
            stack_pointer: self.stack_pointer,
        }
    }

    /// Loads the program counter from the reset vector at 0xFFFC and empties the stack.
    pub fn reset(&mut self, mem: &Memory)
        ensures
            final(self)@ == (CpuState {
                program_counter: word_at(mem@, 0xFFFC),
                stack_pointer: 0xff,
                ..old(self)@
            }),
    {
        self.program_counter = mem.read_word(0xfffc);
        self.stack_pointer = 0xff;
    }

    fn fetch_byte(&mut self, mem: &Memory) -> (r: u8)
        ensures
            r == byte_at(mem@, old(self)@.program_counter as int),
            final(self)@ == at_pc(old(self)@, wrap16(old(self)@.program_counter + 1)),
    {
        let address = self.program_counter;
        self.program_counter = self.program_counter.wrapping_add(1);
        mem.read_byte(address)
    }

    fn fetch_word(&mut self, mem: &Memory) -> (r: u16)
        ensures
            r == word_at(mem@, old(self)@.program_counter as int),
            final(self)@ == at_pc(old(self)@, wrap16(old(self)@.program_counter + 2)),
    {
        let address = self.program_counter;
        self.program_counter = self.program_counter.wrapping_add(2);
        mem.read_word(address)
    }

    fn get_flag(&self, flag: StatusFlags) -> (r: bool)
        ensures
            r == flag_of(self@.status, flag),
    {
        self.status & flag.get_bit_mask() != 0
    }

    fn set_flag(&mut self, flag: StatusFlags, value: bool)
        ensures
            final(self)@ == with_status(old(self)@, with_flag(old(self)@.status, flag, value)),
    {
        let mask = flag.get_bit_mask();
        if value {
            self.status = self.status | mask;
        } else {
            self.status = self.status & !mask;
        }
    }

    fn update_zero_and_negative_flag(&mut self, value: u8)
        ensures
            final(self)@ == with_status(old(self)@, with_zero_and_negative(old(self)@.status, value)),
    {
        self.set_flag(StatusFlags::Zero, value == 0);
        self.set_flag(StatusFlags::Negative, value & 0x80 != 0);
    }

    fn set_a(&mut self, value: u8)
        ensures
            final(self)@ == with_a(old(self)@, value),
    {
        self.a = value;
        self.update_zero_and_negative_flag(value);
    }

    fn set_x(&mut self, value: u8)
        ensures
            final(self)@ == with_x(old(self)@, value),
    {
        self.x = value;
        self.update_zero_and_negative_flag(value);
    }

    fn set_y(&mut self, value: u8)
        ensures
            final(self)@ == with_y(old(self)@, value),
    {
        self.y = value;
        self.update_zero_and_negative_flag(value);
    }

    fn push_byte(&mut self, mem: &mut Memory, value: u8)
        ensures
            (final(self)@, final(mem)@) == semantics::push_byte(old(self)@, old(mem)@, value),
    {
        mem.write_byte(self.stack_pointer as u16 + STACK_LOWEST_ADDRESS, value);
        self.stack_pointer = self.stack_pointer.wrapping_sub(1);
    }

    fn pop_byte(&mut self, mem: &Memory) -> (r: u8)
        ensures
            (final(self)@, r) == semantics::pop_byte(old(self)@, mem@),
    {
        self.stack_pointer = self.stack_pointer.wrapping_add(1);
        mem.read_byte(self.stack_pointer as u16 + STACK_LOWEST_ADDRESS)
    }

    fn push_word(&mut self, mem: &mut Memory, value: u16)
        ensures
            (final(self)@, final(mem)@) == semantics::push_word(old(self)@, old(mem)@, value),
    {
        self.push_byte(mem, (value >> 8u16) as u8);
        self.push_byte(mem, value as u8);
    }

    fn pop_word(&mut self, mem: &Memory) -> (r: u16)
        ensures
            (final(self)@, r) == semantics::pop_word(old(self)@, mem@),
    {
        let low_byte = self.pop_byte(mem);
        let high_byte = self.pop_byte(mem);
        (high_byte as u16) << 8u16 | low_byte as u16
    }
    fn arithmetic_shift_left(&mut self, mem: &mut Memory, operand: Option<Operand>)
        requires
            !(operand matches Some(Operand::Value(_))),
        ensures
            (final(self)@, final(mem)@) == shift(Operation::ASL, operand, old(self)@, old(mem)@),
    {
        match operand {
            Some(Operand::Address(addr)) => {
                self.set_flag(StatusFlags::Carry, mem.read_byte(addr) & 0x80 != 0);
                mem.modify(addr, |x: u8| -> (r: u8) ensures r == x << 1u8 { x << 1u8 });
                self.update_zero_and_negative_flag(mem.read_byte(addr));
            },
            _ => {
                self.set_flag(StatusFlags::Carry, self.a & 0x80 != 0);
                self.set_a(self.a << 1u8);
            },
        }
    }

    fn logical_shift_right(&mut self, mem: &mut Memory, operand: Option<Operand>)
        requires
            !(operand matches Some(Operand::Value(_))),
        ensures
            (final(self)@, final(mem)@) == shift(Operation::LSR, operand, old(self)@, old(mem)@),
    {
        match operand {
            Some(Operand::Address(addr)) => {
                self.set_flag(StatusFlags::Carry, mem.read_byte(addr) & 0x01 != 0);
                mem.modify(addr, |x: u8| -> (r: u8) ensures r == x >> 1u8 { x >> 1u8 });
                self.update_zero_and_negative_flag(mem.read_byte(addr));
            },
            _ => {
                self.set_flag(StatusFlags::Carry, self.a & 0x01 != 0);
                self.set_a(self.a >> 1u8);
            },
        }
    }

    fn rotate_left(&mut self, mem: &mut Memory, operand: Option<Operand>)
        requires
            !(operand matches Some(Operand::Value(_))),
        ensures
            (final(self)@, final(mem)@) == shift(Operation::ROL, operand, old(self)@, old(mem)@),
    {
        let carry_in: u8 = if self.get_flag(StatusFlags::Carry) {
            1
        } else {
            0
        };
        match operand {
            Some(Operand::Address(addr)) => {
                self.set_flag(StatusFlags::Carry, mem.read_byte(addr) & 0x80 != 0);
                mem.modify(
                    addr,
                    |x: u8| -> (r: u8) ensures r == (x << 1u8) | carry_in { (x << 1u8) | carry_in },
                );
                self.update_zero_and_negative_flag(mem.read_byte(addr));
            },
            _ => {
                let value = (self.a << 1u8) | carry_in;
                self.set_flag(StatusFlags::Carry, self.a & 0x80 != 0);
                self.set_a(value);
            },
        }
    }

    fn rotate_right(&mut self, mem: &mut Memory, operand: Option<Operand>)
        requires
            !(operand matches Some(Operand::Value(_))),
        ensures
            (final(self)@, final(mem)@) == shift(Operation::ROR, operand, old(self)@, old(mem)@),
    {
        let carry_in: u8 = if self.get_flag(StatusFlags::Carry) {
            1
        } else {
            0
        };
        match operand {
            Some(Operand::Address(addr)) => {
                self.set_flag(StatusFlags::Carry, mem.read_byte(addr) & 0x01 != 0);
                let high_bit = carry_in << 7u8;
                mem.modify(addr, |x: u8| -> (r: u8) ensures r == (x >> 1u8) | high_bit { (x >> 1u8) | high_bit });
                self.update_zero_and_negative_flag(mem.read_byte(addr));
            },
            _ => {
                let value = (self.a >> 1u8) | (carry_in << 7u8);
                self.set_flag(StatusFlags::Carry, self.a & 0x01 != 0);
                self.set_a(value);
            },
        }
    }

    fn bit(&mut self, value: u8)
        ensures
            final(self)@ == with_status(old(self)@, bit_test(old(self)@.status, old(self)@.a, value)),
    {
        self.set_flag(StatusFlags::Negative, self.a & 0x80 != 0);
        self.set_flag(StatusFlags::Overflow, self.a & 0x40 != 0);
        self.set_flag(StatusFlags::Zero, self.a & value == 0);
    }

    fn compare_register(&mut self, value: u8, register_value: u8)
        ensures
            final(self)@ == with_status(old(self)@, compare(old(self)@.status, register_value, value)),
    {
        self.set_flag(StatusFlags::Negative, register_value.wrapping_sub(value) & 0x80 != 0);
        self.set_flag(StatusFlags::Carry, register_value >= value);
        self.set_flag(StatusFlags::Zero, register_value == value);
    }

    fn add_with_carry(&mut self, value: u8)
        ensures
            final(self)@ == semantics::add_with_carry(old(self)@, value),
    {
        let carry: u16 = if self.get_flag(StatusFlags::Carry) {
            1
        } else {
            0
        };
        let sum: u16 = self.a as u16 + value as u16 + carry;
        let result = (sum % 0x100) as u8;
        let overflow = (self.a >= 0x80) == (value >= 0x80) && (result >= 0x80) != (self.a >= 0x80);
        self.set_a(result);
        self.set_flag(StatusFlags::Carry, sum > 0xff);
        self.set_flag(StatusFlags::Overflow, overflow);
    }

    fn sub_with_carry(&mut self, value: u8)
        ensures
            final(self)@ == semantics::sub_with_carry(old(self)@, value),
    {
        self.add_with_carry(value ^ 0xff);
    }

    /// Adds the signed `offset` to the program counter when `flag` equals `condition`.
    fn branch(&mut self, flag: StatusFlags, condition: bool, offset: u8)
        ensures
            final(self)@ == semantics::branch(old(self)@, flag, condition, offset),
    {
        if self.get_flag(flag) == condition {
            if offset >= 0x80 {
                self.program_counter = self.program_counter.wrapping_sub(0x100 - offset as u16);
            } else {
                self.program_counter = self.program_counter.wrapping_add(offset as u16);
            }
        }
    }

    /// The byte an operand stands for; the accumulator where there is none.
    fn pass_by_value(&self, mem: &Memory, operand: Option<Operand>) -> (r: u8)
        ensures
            r == semantics::value_of(operand, self@, mem@),
    {
        match operand {
            Some(Operand::Value(v)) => v,
            Some(Operand::Address(a)) => mem.read_byte(a),
            None => self.a,
        }
    }
    /// Reads the opcode at the program counter and the operand after it. On an
    /// unknown opcode nothing changes.
    fn decode(&mut self, mem: &Memory) -> (r: Result<Instruction, CpuError>)
        ensures
            match opcode_table(byte_at(mem@, old(self)@.program_counter as int)) {
                None => r == Err::<Instruction, CpuError>(
                    CpuError::UnknownOpcode {
                        opcode: byte_at(mem@, old(self)@.program_counter as int),
                        address: old(self)@.program_counter,
                    },
                ) && final(self)@ == old(self)@,
                Some((op, mode)) => r == Ok::<Instruction, CpuError>(
                    Instruction(
                        op,
                        operand_of(
                            mode,
                            at_pc(old(self)@, wrap16(old(self)@.program_counter + 1)),
                            mem@,
                        ),
                    ),
                ) && final(self)@ == at_pc(
                    old(self)@,
                    wrap16(old(self)@.program_counter + 1 + operand_size(mode)),
                ),
            },
    {
        let address = self.program_counter;
        let opcode = mem.read_byte(address);
        match decode_opcode(opcode) {
            None => Err(CpuError::UnknownOpcode { opcode, address }),
            Some((operation, addressing_mode)) => {
                self.fetch_byte(mem);
                let operand = addressing_mode.get_operand(self, mem);
                Ok(Instruction(operation, operand))
            },
        }
    }

    /// Executes the instruction at the program counter. An unknown opcode is
    /// reported, with its address, and changes nothing.
    pub fn execute(&mut self, mem: &mut Memory) -> (r: Result<(), CpuError>)
        ensures
            match step(old(self)@, old(mem)@) {
                Some((s, m)) => r is Ok && final(self)@ == s && final(mem)@ == m,
                None => r == Err::<(), CpuError>(
                    CpuError::UnknownOpcode {
                        opcode: byte_at(old(mem)@, old(self)@.program_counter as int),
                        address: old(self)@.program_counter,
                    },
                ) && final(self)@ == old(self)@ && final(mem)@ == old(mem)@,
            },
    {
        match self.decode(mem) {
            Ok(instruction) => {
                self.perform(mem, instruction);
                Ok(())
            },
            Err(e) => Err(e),
        }
    }

    /// Carries out a decoded instruction, the program counter already past it.
    #[verifier::rlimit(100)]
    #[verifier::spinoff_prover]
    fn perform(&mut self, mem: &mut Memory, instruction: Instruction)
        ensures
            (final(self)@, final(mem)@) == semantics::perform(
                instruction.0,
                instruction.1,
                old(self)@,
                old(mem)@,
            ),
    {
        proof {
            reveal(semantics::perform);
        }
        let Instruction(operation, operand) = instruction;
        match (operation, operand) {
            (Operation::ADC, Some(o)) => {
                let v = self.pass_by_value(mem, Some(o));
                self.add_with_carry(v);
            },
            (Operation::SBC, Some(o)) => {
                let v = self.pass_by_value(mem, Some(o));
                self.sub_with_carry(v);
            },
            (Operation::AND, Some(o)) => {
                let v = self.pass_by_value(mem, Some(o));
                self.set_a(self.a & v);
            },
            (Operation::ORA, Some(o)) => {
                let v = self.pass_by_value(mem, Some(o));
                self.set_a(self.a | v);
            },
            (Operation::EOR, Some(o)) => {
                let v = self.pass_by_value(mem, Some(o));
                self.set_a(self.a ^ v);
            },
            (Operation::ASL, Some(Operand::Value(_)))
            | (Operation::LSR, Some(Operand::Value(_)))
            | (Operation::ROL, Some(Operand::Value(_)))
            | (Operation::ROR, Some(Operand::Value(_))) => {},
            (Operation::ASL, o) => self.arithmetic_shift_left(mem, o),
            (Operation::LSR, o) => self.logical_shift_right(mem, o),
            (Operation::ROL, o) => self.rotate_left(mem, o),
            (Operation::ROR, o) => self.rotate_right(mem, o),
            (Operation::BIT, Some(o)) => {
                let v = self.pass_by_value(mem, Some(o));
                self.bit(v);
            },
            (Operation::CMP, Some(o)) => {
                let v = self.pass_by_value(mem, Some(o));
                self.compare_register(v, self.a);
            },
            (Operation::CPX, Some(o)) => {
                let v = self.pass_by_value(mem, Some(o));
                self.compare_register(v, self.x);
            },
            (Operation::CPY, Some(o)) => {
                let v = self.pass_by_value(mem, Some(o));
                self.compare_register(v, self.y);
            },
            (Operation::INC, Some(Operand::Address(addr))) => {
                mem.modify(addr, |x: u8| -> (r: u8) ensures r == wrap8(x + 1) { x.wrapping_add(1) });
                self.update_zero_and_negative_flag(mem.read_byte(addr));
            },
            (Operation::DEC, Some(Operand::Address(addr))) => {
                mem.modify(addr, |x: u8| -> (r: u8) ensures r == wrap8(x - 1) { x.wrapping_sub(1) });
                self.update_zero_and_negative_flag(mem.read_byte(addr));
            },
            (Operation::INX, None) => self.set_x(self.x.wrapping_add(1)),
            (Operation::INY, None) => self.set_y(self.y.wrapping_add(1)),
            (Operation::DEX, None) => self.set_x(self.x.wrapping_sub(1)),
            (Operation::DEY, None) => self.set_y(self.y.wrapping_sub(1)),
            (Operation::LDA, Some(o)) => {
                let v = self.pass_by_value(mem, Some(o));
                self.set_a(v);
            },
            (Operation::LDX, Some(o)) => {
                let v = self.pass_by_value(mem, Some(o));
                self.set_x(v);
            },
            (Operation::LDY, Some(o)) => {
                let v = self.pass_by_value(mem, Some(o));
                self.set_y(v);
            },
            (Operation::STA, Some(Operand::Address(addr))) => mem.write_byte(addr, self.a),
            (Operation::STX, Some(Operand::Address(addr))) => mem.write_byte(addr, self.x),
            (Operation::STY, Some(Operand::Address(addr))) => mem.write_byte(addr, self.y),
            (Operation::TAX, None) => self.set_x(self.a),
            (Operation::TAY, None) => self.set_y(self.a),
            (Operation::TSX, None) => self.set_x(self.stack_pointer),
            (Operation::TXA, None) => self.set_a(self.x),
            (Operation::TXS, None) => self.stack_pointer = self.x,
            (Operation::TYA, None) => self.set_a(self.y),
            (Operation::CLC, None) => self.set_flag(StatusFlags::Carry, false),
            (Operation::CLD, None) => self.set_flag(StatusFlags::DecimalMode, false),
            (Operation::CLI, None) => self.set_flag(StatusFlags::InterruptDisable, false),
            (Operation::CLV, None) => self.set_flag(StatusFlags::Overflow, false),
            (Operation::SEC, None) => self.set_flag(StatusFlags::Carry, true),
            (Operation::SED, None) => self.set_flag(StatusFlags::DecimalMode, true),
            (Operation::SEI, None) => self.set_flag(StatusFlags::InterruptDisable, true),
            (Operation::NOP, None) => {},
            (Operation::JMP, Some(Operand::Address(addr))) => self.program_counter = addr,
            (Operation::JSR, Some(Operand::Address(addr))) => {
                self.push_word(mem, self.program_counter);
                self.program_counter = addr;
            },
            (Operation::RTS, None) => self.program_counter = self.pop_word(mem),
            (Operation::PHA, None) => self.push_byte(mem, self.a),
            (Operation::PHP, None) => self.push_byte(mem, self.status),
            (Operation::PLA, None) => {
                let data = self.pop_byte(mem);
                self.set_a(data);
            },
            (Operation::PLP, None) => self.status = self.pop_byte(mem),
            (Operation::BCC, Some(Operand::Value(offset))) => self.branch(
                StatusFlags::Carry,
                false,
                offset,
            ),
            (Operation::BCS, Some(Operand::Value(offset))) => self.branch(
                StatusFlags::Carry,
                true,
                offset,
            ),
            (Operation::BEQ, Some(Operand::Value(offset))) => self.branch(
                StatusFlags::Zero,
                true,
                offset,
            ),
            (Operation::BNE, Some(Operand::Value(offset))) => self.branch(
                StatusFlags::Zero,
                false,
                offset,
            ),
            (Operation::BMI, Some(Operand::Value(offset))) => self.branch(
                StatusFlags::Negative,
                true,
                offset,
            ),
            (Operation::BPL, Some(Operand::Value(offset))) => self.branch(
                StatusFlags::Negative,
                false,
                offset,
            ),
            (Operation::BVC, Some(Operand::Value(offset))) => self.branch(
                StatusFlags::Overflow,
                false,
                offset,
            ),
            (Operation::BVS, Some(Operand::Value(offset))) => self.branch(
                StatusFlags::Overflow,
                true,
                offset,
            ),
            _ => {},
        }
    }
}

} // verus!
