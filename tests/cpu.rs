use mos6502::cpu::{Cpu, CpuError, CpuState};
use mos6502::memory::{Memory, MEMORY_SIZE};

const C: u8 = 0;
const Z: u8 = 1;
const V: u8 = 6;
const N: u8 = 7;

fn memory_with(bytes: &[(u16, u8)]) -> Memory {
    let mut data = [0u8; MEMORY_SIZE];
    for &(address, value) in bytes {
        data[address as usize] = value;
    }
    Memory::new(data)
}

fn flag(cpu: &Cpu, bit: u8) -> bool {
    cpu.state().status & (1 << bit) != 0
}

fn state_at(program_counter: u16) -> CpuState {
    CpuState { program_counter, x: 0, y: 0, a: 0, status: 0, stack_pointer: 0xff }
}

fn run(cpu: &mut Cpu, mem: &mut Memory, steps: usize) {
    for _ in 0..steps {
        cpu.execute(mem).unwrap();
    }
}

#[test]
fn immediate_load_after_reset() {
    let mut mem = memory_with(&[(0xfffc, 0x34), (0xfffd, 0x12), (0x1234, 0xa9), (0x1235, 0xab)]);
    let mut cpu = Cpu::new();
    cpu.reset(&mem);
    run(&mut cpu, &mut mem, 1);
    assert_eq!(cpu.state().a, 0xab);
    assert_eq!(cpu.state().program_counter, 0x1236);
    assert!(!flag(&cpu, Z));
    assert!(flag(&cpu, N));
}

#[test]
fn indirect_indexed_load_and_zero_page_x_store() {
    let mut mem = memory_with(&[
        (0xfffc, 0x34),
        (0xfffd, 0x12),
        (0x1234, 0xb1),
        (0x1235, 0xfc),
        (0x00fc, 0x35),
        (0x00fd, 0x12),
        (0x1236, 0x95),
        (0x1237, 0x02),
    ]);
    let mut cpu = Cpu::new();
    cpu.reset(&mem);
    run(&mut cpu, &mut mem, 2);
    assert_eq!(cpu.state().a, 0xfc);
    assert_eq!(mem.read_byte(0x02), 0xfc);
    assert_eq!(cpu.state().program_counter, 0x1238);
}

#[test]
fn add_with_carry_sets_overflow() {
    let mut mem = memory_with(&[(0x0000, 0x18), (0x0001, 0xa9), (0x0002, 0x50), (0x0003, 0x69), (0x0004, 0x50)]);
    let mut cpu = Cpu::new();
    cpu.reset(&mem);
    assert_eq!(cpu.state().program_counter, 0x0000);
    run(&mut cpu, &mut mem, 3);
    assert_eq!(cpu.state().a, 0xa0);
    assert!(!flag(&cpu, C));
    assert!(flag(&cpu, V));
    assert!(flag(&cpu, N));
    assert!(!flag(&cpu, Z));
}

#[test]
fn branch_taken_adds_offset() {
    let mut mem = memory_with(&[(0x0200, 0xf0), (0x0201, 0x05)]);
    let mut cpu = Cpu::from_state(CpuState { status: 1 << Z, ..state_at(0x0200) });
    run(&mut cpu, &mut mem, 1);
    assert_eq!(cpu.state().program_counter, 0x0207);
}

#[test]
fn jsr_then_rts_returns_after_call() {
    let mut mem = memory_with(&[(0x0200, 0x20), (0x0201, 0x10), (0x0202, 0x03), (0x0310, 0x60)]);
    let mut cpu = Cpu::from_state(state_at(0x0200));
    run(&mut cpu, &mut mem, 1);
    assert_eq!(cpu.state().program_counter, 0x0310);
    assert_eq!(cpu.state().stack_pointer, 0xfd);
    assert_eq!(mem.read_byte(0x01ff), 0x02);
    assert_eq!(mem.read_byte(0x01fe), 0x03);
    run(&mut cpu, &mut mem, 1);
    assert_eq!(cpu.state().program_counter, 0x0203);
    assert_eq!(cpu.state().stack_pointer, 0xff);
}

#[test]
fn rotate_right_through_carry() {
    let mut mem = memory_with(&[(0x0200, 0x6a)]);
    let mut cpu = Cpu::from_state(CpuState { a: 0x01, status: 1 << C, ..state_at(0x0200) });
    run(&mut cpu, &mut mem, 1);
    assert_eq!(cpu.state().a, 0x80);
    assert!(flag(&cpu, C));
    assert!(flag(&cpu, N));
    assert!(!flag(&cpu, Z));
}

#[test]
fn reset_reads_little_endian_vector() {
    let mem = memory_with(&[(0xfffc, 0xef), (0xfffd, 0xbe)]);
    let mut cpu = Cpu::from_state(CpuState { a: 3, x: 4, y: 5, status: 0x41, stack_pointer: 0x10, program_counter: 7 });
    cpu.reset(&mem);
    assert_eq!(cpu.state(), CpuState { a: 3, x: 4, y: 5, status: 0x41, stack_pointer: 0xff, program_counter: 0xbeef });
}

#[test]
fn new_cpu_has_default_registers() {
    assert_eq!(Cpu::new().state(), state_at(0));
}

#[test]
fn load_sets_zero_and_negative() {
    for (value, zero, negative) in [(0x00u8, true, false), (0x80, false, true), (0x7f, false, false), (0xff, false, true)] {
        let mut mem = memory_with(&[(0x0200, 0xa9), (0x0201, value)]);
        let mut cpu = Cpu::from_state(state_at(0x0200));
        run(&mut cpu, &mut mem, 1);
        assert_eq!(cpu.state().a, value);
        assert_eq!(flag(&cpu, Z), zero);
        assert_eq!(flag(&cpu, N), negative);
    }
}

#[test]
fn zero_page_word_wraps_within_zero_page() {
    let mem = memory_with(&[(0x00ff, 0x11), (0x0000, 0x22), (0x0100, 0x33)]);
    assert_eq!(mem.read_word_zp(0xff), 0x2211);
    assert_eq!(mem.read_word(0x00ff), 0x3311);
}

#[test]
fn word_read_wraps_at_top_of_memory() {
    let mem = memory_with(&[(0xffff, 0x34), (0x0000, 0x12)]);
    assert_eq!(mem.read_word(0xffff), 0x1234);
}

#[test]
fn memory_write_and_modify() {
    let mut mem = memory_with(&[]);
    mem.write_byte(0x1234, 0x7f);
    assert_eq!(mem.read_byte(0x1234), 0x7f);
    mem.modify(0x1234, |b| b.wrapping_add(2));
    assert_eq!(mem.read_byte(0x1234), 0x81);
    assert_eq!(mem.read_byte(0x1235), 0);
}

#[test]
fn push_and_pull_accumulator_round_trip() {
    // LDA #$05; PHA; LDA #$07; PHA; LDA #$00; PLA; PLA
    let program = [0xa9, 0x05, 0x48, 0xa9, 0x07, 0x48, 0xa9, 0x00, 0x68, 0x68];
    let mut bytes: Vec<(u16, u8)> = Vec::new();
    for (i, b) in program.iter().enumerate() {
        bytes.push((0x0200 + i as u16, *b));
    }
    let mut mem = memory_with(&bytes);
    let before = mem.data;
    let mut cpu = Cpu::from_state(state_at(0x0200));
    run(&mut cpu, &mut mem, 6);
    assert_eq!(cpu.state().a, 0x07);
    assert_eq!(cpu.state().stack_pointer, 0xfe);
    run(&mut cpu, &mut mem, 1);
    assert_eq!(cpu.state().a, 0x05);
    assert_eq!(cpu.state().stack_pointer, 0xff);
    for address in 0..MEMORY_SIZE {
        if !(0x100..0x200).contains(&address) {
            assert_eq!(mem.data[address], before[address]);
        }
    }
}

#[test]
fn push_and_pull_status_round_trip() {
    // PHP; SEC; SED; PLP
    let mut mem = memory_with(&[(0x0200, 0x08), (0x0201, 0x38), (0x0202, 0xf8), (0x0203, 0x28)]);
    let mut cpu = Cpu::from_state(CpuState { status: 0x42, ..state_at(0x0200) });
    run(&mut cpu, &mut mem, 3);
    assert_eq!(cpu.state().status, 0x42 | 0x01 | 0x08);
    run(&mut cpu, &mut mem, 1);
    assert_eq!(cpu.state().status, 0x42);
    assert_eq!(cpu.state().stack_pointer, 0xff);
}

#[test]
fn stack_pointer_wraps_on_push_at_bottom() {
    let mut mem = memory_with(&[(0x0200, 0x48), (0x0201, 0x68)]);
    let mut cpu = Cpu::from_state(CpuState { a: 0x99, stack_pointer: 0x00, ..state_at(0x0200) });
    run(&mut cpu, &mut mem, 1);
    assert_eq!(mem.read_byte(0x0100), 0x99);
    assert_eq!(cpu.state().stack_pointer, 0xff);
    run(&mut cpu, &mut mem, 1);
    assert_eq!(cpu.state().a, 0x99);
    assert_eq!(cpu.state().stack_pointer, 0x00);
}

#[test]
fn jsr_rts_keeps_registers() {
    let mut mem = memory_with(&[(0x8000, 0x20), (0x8001, 0x00), (0x8002, 0x90), (0x9000, 0x60)]);
    let start = CpuState { program_counter: 0x8000, x: 0x11, y: 0x22, a: 0x33, status: 0x81, stack_pointer: 0x80 };
    let mut cpu = Cpu::from_state(start);
    run(&mut cpu, &mut mem, 2);
    assert_eq!(cpu.state(), CpuState { program_counter: 0x8003, ..start });
}

#[test]
fn compare_sets_flags() {
    for (a, v, zero, carry, negative) in [
        (0x05u8, 0x03u8, false, true, false),
        (0x03, 0x05, false, false, true),
        (0x42, 0x42, true, true, false),
        (0x80, 0x00, false, true, true),
    ] {
        let mut mem = memory_with(&[(0x0200, 0xc9), (0x0201, v)]);
        let mut cpu = Cpu::from_state(CpuState { a, ..state_at(0x0200) });
        run(&mut cpu, &mut mem, 1);
        assert_eq!(cpu.state().a, a);
        assert_eq!(flag(&cpu, Z), zero);
        assert_eq!(flag(&cpu, C), carry);
        assert_eq!(flag(&cpu, N), negative);
    }
}

#[test]
fn compare_index_registers() {
    // CPX #$10; CPY #$10
    let mut mem = memory_with(&[(0x0200, 0xe0), (0x0201, 0x10), (0x0202, 0xc0), (0x0203, 0x10)]);
    let mut cpu = Cpu::from_state(CpuState { x: 0x10, y: 0x0f, ..state_at(0x0200) });
    run(&mut cpu, &mut mem, 1);
    assert!(flag(&cpu, Z) && flag(&cpu, C));
    run(&mut cpu, &mut mem, 1);
    assert!(!flag(&cpu, Z) && !flag(&cpu, C) && flag(&cpu, N));
}

#[test]
fn add_with_carry_wraps_and_sets_carry() {
    let mut mem = memory_with(&[(0x0000, 0x18), (0x0001, 0xa9), (0x0002, 0xff), (0x0003, 0x69), (0x0004, 0x01)]);
    let mut cpu = Cpu::new();
    run(&mut cpu, &mut mem, 3);
    assert_eq!(cpu.state().a, 0x00);
    assert!(flag(&cpu, C));
    assert!(flag(&cpu, Z));
    assert!(!flag(&cpu, V));
}

#[test]
fn add_with_carry_uses_carry_in() {
    // SEC; LDA #$10; ADC #$20
    let mut mem = memory_with(&[(0x0000, 0x38), (0x0001, 0xa9), (0x0002, 0x10), (0x0003, 0x69), (0x0004, 0x20)]);
    let mut cpu = Cpu::new();
    run(&mut cpu, &mut mem, 3);
    assert_eq!(cpu.state().a, 0x31);
    assert!(!flag(&cpu, C));
}

#[test]
fn subtract_with_borrow() {
    // SEC; LDA #$05; SBC #$03
    let mut mem = memory_with(&[(0x0000, 0x38), (0x0001, 0xa9), (0x0002, 0x05), (0x0003, 0xe9), (0x0004, 0x03)]);
    let mut cpu = Cpu::new();
    run(&mut cpu, &mut mem, 3);
    assert_eq!(cpu.state().a, 0x02);
    assert!(flag(&cpu, C));
    // CLC; LDA #$05; SBC #$05: borrow in gives 0xFF and clears C
    let mut mem = memory_with(&[(0x0000, 0x18), (0x0001, 0xa9), (0x0002, 0x05), (0x0003, 0xe9), (0x0004, 0x05)]);
    let mut cpu = Cpu::new();
    run(&mut cpu, &mut mem, 3);
    assert_eq!(cpu.state().a, 0xff);
    assert!(!flag(&cpu, C));
    assert!(flag(&cpu, N));
    // SEC; LDA #$80; SBC #$01: signed overflow
    let mut mem = memory_with(&[(0x0000, 0x38), (0x0001, 0xa9), (0x0002, 0x80), (0x0003, 0xe9), (0x0004, 0x01)]);
    let mut cpu = Cpu::new();
    run(&mut cpu, &mut mem, 3);
    assert_eq!(cpu.state().a, 0x7f);
    assert!(flag(&cpu, V));
    assert!(flag(&cpu, C));
}

#[test]
fn branch_not_taken_advances_two() {
    // BNE with Z set, BCS with C clear, BMI with N clear, BVS with V clear
    for opcode in [0xd0u8, 0xb0, 0x30, 0x70] {
        let mut mem = memory_with(&[(0x0200, opcode), (0x0201, 0x40)]);
        let mut cpu = Cpu::from_state(CpuState { status: 1 << Z, ..state_at(0x0200) });
        run(&mut cpu, &mut mem, 1);
        assert_eq!(cpu.state().program_counter, 0x0202);
        assert_eq!(cpu.state().status, 1 << Z);
    }
}

#[test]
fn branch_backwards() {
    // BCC with a negative offset
    let mut mem = memory_with(&[(0x0200, 0x90), (0x0201, 0xfc)]);
    let mut cpu = Cpu::from_state(state_at(0x0200));
    run(&mut cpu, &mut mem, 1);
    assert_eq!(cpu.state().program_counter, 0x01fe);
}

#[test]
fn zero_page_x_wraps() {
    // LDA $F0,X with X = 0x20 reads 0x0010
    let mut mem = memory_with(&[(0x0200, 0xb5), (0x0201, 0xf0), (0x0010, 0x5a), (0x0110, 0xa5)]);
    let mut cpu = Cpu::from_state(CpuState { x: 0x20, ..state_at(0x0200) });
    run(&mut cpu, &mut mem, 1);
    assert_eq!(cpu.state().a, 0x5a);
}

#[test]
fn zero_page_y_wraps() {
    // LDX $FF,Y with Y = 0x02 reads 0x0001
    let mut mem = memory_with(&[(0x0200, 0xb6), (0x0201, 0xff), (0x0001, 0x44)]);
    let mut cpu = Cpu::from_state(CpuState { y: 0x02, ..state_at(0x0200) });
    run(&mut cpu, &mut mem, 1);
    assert_eq!(cpu.state().x, 0x44);
}

#[test]
fn absolute_indexed_wraps() {
    // LDA $FFFF,X with X = 2 reads 0x0001; LDA $FFFE,Y with Y = 3 reads 0x0001
    let mut mem = memory_with(&[
        (0x0200, 0xbd),
        (0x0201, 0xff),
        (0x0202, 0xff),
        (0x0203, 0xb9),
        (0x0204, 0xfe),
        (0x0205, 0xff),
        (0x0001, 0x77),
    ]);
    let mut cpu = Cpu::from_state(CpuState { x: 2, y: 3, ..state_at(0x0200) });
    run(&mut cpu, &mut mem, 1);
    assert_eq!(cpu.state().a, 0x77);
    run(&mut cpu, &mut mem, 1);
    assert_eq!(cpu.state().a, 0x77);
    assert_eq!(cpu.state().program_counter, 0x0206);
}

#[test]
fn indexed_indirect_wraps_in_zero_page() {
    // LDA ($F0,X) with X = 0x0F: pointer at 0xFF/0x00
    let mut mem = memory_with(&[(0x0200, 0xa1), (0x0201, 0xf0), (0x00ff, 0x34), (0x0000, 0x12), (0x1234, 0x66)]);
    let mut cpu = Cpu::from_state(CpuState { x: 0x0f, ..state_at(0x0200) });
    run(&mut cpu, &mut mem, 1);
    assert_eq!(cpu.state().a, 0x66);
}

#[test]
fn indirect_indexed_adds_y_with_wrap() {
    // LDA ($10),Y with pointer 0xFFFF and Y = 2 reads 0x0001
    let mut mem = memory_with(&[(0x0200, 0xb1), (0x0201, 0x10), (0x0010, 0xff), (0x0011, 0xff), (0x0001, 0x21)]);
    let mut cpu = Cpu::from_state(CpuState { y: 2, ..state_at(0x0200) });
    run(&mut cpu, &mut mem, 1);
    assert_eq!(cpu.state().a, 0x21);
}

#[test]
fn jump_absolute_and_indirect() {
    let mut mem = memory_with(&[(0x0200, 0x4c), (0x0201, 0x00), (0x0202, 0x30), (0x3000, 0x6c), (0x3001, 0x00), (0x3002, 0x40), (0x4000, 0xcd), (0x4001, 0xab)]);
    let mut cpu = Cpu::from_state(state_at(0x0200));
    run(&mut cpu, &mut mem, 1);
    assert_eq!(cpu.state().program_counter, 0x3000);
    run(&mut cpu, &mut mem, 1);
    assert_eq!(cpu.state().program_counter, 0xabcd);
}

#[test]
fn shifts_on_memory() {
    // ASL $10; LSR $11; ROL $12 (C from ASL); ROR $13
    let mut mem = memory_with(&[
        (0x0200, 0x06),
        (0x0201, 0x10),
        (0x0202, 0x46),
        (0x0203, 0x11),
        (0x0204, 0x26),
        (0x0205, 0x12),
        (0x0206, 0x66),
        (0x0207, 0x13),
        (0x0010, 0x81),
        (0x0011, 0x02),
        (0x0012, 0x40),
        (0x0013, 0x01),
    ]);
    let mut cpu = Cpu::from_state(state_at(0x0200));
    run(&mut cpu, &mut mem, 1);
    assert_eq!(mem.read_byte(0x10), 0x02);
    assert!(flag(&cpu, C));
    run(&mut cpu, &mut mem, 1);
    assert_eq!(mem.read_byte(0x11), 0x01);
    assert!(!flag(&cpu, C));
    run(&mut cpu, &mut mem, 1);
    assert_eq!(mem.read_byte(0x12), 0x80);
    assert!(!flag(&cpu, C));
    assert!(flag(&cpu, N));
    run(&mut cpu, &mut mem, 1);
    assert_eq!(mem.read_byte(0x13), 0x00);
    assert!(flag(&cpu, C));
    assert!(flag(&cpu, Z));
}

#[test]
fn shifts_on_accumulator() {
    // ASL A; ROL A; LSR A
    let mut mem = memory_with(&[(0x0200, 0x0a), (0x0201, 0x2a), (0x0202, 0x4a)]);
    let mut cpu = Cpu::from_state(CpuState { a: 0xc0, ..state_at(0x0200) });
    run(&mut cpu, &mut mem, 1);
    assert_eq!(cpu.state().a, 0x80);
    assert!(flag(&cpu, C));
    run(&mut cpu, &mut mem, 1);
    assert_eq!(cpu.state().a, 0x01);
    assert!(flag(&cpu, C));
    run(&mut cpu, &mut mem, 1);
    assert_eq!(cpu.state().a, 0x00);
    assert!(flag(&cpu, C));
    assert!(flag(&cpu, Z));
}

#[test]
fn increment_and_decrement_wrap() {
    // INC $10; DEC $11; INX; DEY
    let mut mem = memory_with(&[(0x0200, 0xe6), (0x0201, 0x10), (0x0202, 0xc6), (0x0203, 0x11), (0x0204, 0xe8), (0x0205, 0x88), (0x0010, 0xff)]);
    let mut cpu = Cpu::from_state(CpuState { x: 0xff, y: 0x00, ..state_at(0x0200) });
    run(&mut cpu, &mut mem, 1);
    assert_eq!(mem.read_byte(0x10), 0x00);
    assert!(flag(&cpu, Z));
    run(&mut cpu, &mut mem, 1);
    assert_eq!(mem.read_byte(0x11), 0xff);
    assert!(flag(&cpu, N));
    run(&mut cpu, &mut mem, 1);
    assert_eq!(cpu.state().x, 0x00);
    run(&mut cpu, &mut mem, 1);
    assert_eq!(cpu.state().y, 0xff);
}

#[test]
fn logical_operations() {
    // LDA #$F0; AND #$3C; ORA #$01; EOR #$FF
    let mut mem = memory_with(&[(0x0200, 0xa9), (0x0201, 0xf0), (0x0202, 0x29), (0x0203, 0x3c), (0x0204, 0x09), (0x0205, 0x01), (0x0206, 0x49), (0x0207, 0xff)]);
    let mut cpu = Cpu::from_state(state_at(0x0200));
    run(&mut cpu, &mut mem, 2);
    assert_eq!(cpu.state().a, 0x30);
    run(&mut cpu, &mut mem, 1);
    assert_eq!(cpu.state().a, 0x31);
    run(&mut cpu, &mut mem, 1);
    assert_eq!(cpu.state().a, 0xce);
    assert!(flag(&cpu, N));
}

#[test]
fn bit_test_flags() {
    // BIT $10 with A = 0xC0 and memory 0x0F
    let mut mem = memory_with(&[(0x0200, 0x24), (0x0201, 0x10), (0x0010, 0x0f)]);
    let mut cpu = Cpu::from_state(CpuState { a: 0xc0, ..state_at(0x0200) });
    run(&mut cpu, &mut mem, 1);
    assert!(flag(&cpu, N));
    assert!(flag(&cpu, V));
    assert!(flag(&cpu, Z));
    assert_eq!(cpu.state().a, 0xc0);
}

#[test]
fn transfers_and_stores() {
    // LDX #$80; TXS; TSX; TXA; TAY; STA $20; STX $21; STY $22
    let program = [0xa2, 0x80, 0x9a, 0xba, 0x8a, 0xa8, 0x85, 0x20, 0x86, 0x21, 0x84, 0x22];
    let mut bytes: Vec<(u16, u8)> = Vec::new();
    for (i, b) in program.iter().enumerate() {
        bytes.push((0x0200 + i as u16, *b));
    }
    let mut mem = memory_with(&bytes);
    let mut cpu = Cpu::from_state(state_at(0x0200));
    run(&mut cpu, &mut mem, 8);
    let s = cpu.state();
    assert_eq!((s.a, s.x, s.y, s.stack_pointer), (0x80, 0x80, 0x80, 0x80));
    assert_eq!((mem.read_byte(0x20), mem.read_byte(0x21), mem.read_byte(0x22)), (0x80, 0x80, 0x80));
}

#[test]
fn flag_instructions() {
    // SEC; SED; SEI; CLC; CLD; CLI; CLV; NOP
    let program = [0x38, 0xf8, 0x78];
    let mut bytes: Vec<(u16, u8)> = Vec::new();
    for (i, b) in program.iter().enumerate() {
        bytes.push((0x0200 + i as u16, *b));
    }
    let mut mem = memory_with(&bytes);
    let mut cpu = Cpu::from_state(state_at(0x0200));
    run(&mut cpu, &mut mem, 3);
    assert_eq!(cpu.state().status, 0x0d);
    let mut mem = memory_with(&[(0x0200, 0x18), (0x0201, 0xd8), (0x0202, 0x58), (0x0203, 0xb8), (0x0204, 0xea)]);
    let mut cpu = Cpu::from_state(CpuState { status: 0xff, ..state_at(0x0200) });
    run(&mut cpu, &mut mem, 5);
    assert_eq!(cpu.state().status, 0xb2);
    assert_eq!(cpu.state().program_counter, 0x0205);
}

#[test]
fn unknown_opcode_is_reported_and_changes_nothing() {
    let mut mem = memory_with(&[(0x0300, 0x02)]);
    let before = mem.data;
    let start = CpuState { a: 1, x: 2, y: 3, status: 4, stack_pointer: 5, program_counter: 0x0300 };
    let mut cpu = Cpu::from_state(start);
    assert_eq!(cpu.execute(&mut mem), Err(CpuError::UnknownOpcode { opcode: 0x02, address: 0x0300 }));
    assert_eq!(cpu.state(), start);
    assert!(mem.data == before);
}

#[test]
fn load_y_indexed_by_x() {
    // LDY $10,X and LDY $1000,X
    let mut mem = memory_with(&[(0x0200, 0xb4), (0x0201, 0x10), (0x0202, 0xbc), (0x0203, 0x00), (0x0204, 0x10), (0x0011, 0x0a), (0x1001, 0x0b)]);
    let mut cpu = Cpu::from_state(CpuState { x: 1, ..state_at(0x0200) });
    run(&mut cpu, &mut mem, 1);
    assert_eq!(cpu.state().y, 0x0a);
    run(&mut cpu, &mut mem, 1);
    assert_eq!(cpu.state().y, 0x0b);
}
