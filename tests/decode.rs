use mos6502::instruction::{decode_opcode, AddressingMode, Operation};

#[test]
fn decode_table_covers_documented_opcodes() {
    let known = (0..=255u8).filter(|&b| decode_opcode(b).is_some()).count();
    assert_eq!(known, 149);
}

#[test]
fn decode_table_entries() {
    assert_eq!(decode_opcode(0xa9), Some((Operation::LDA, AddressingMode::Immediate)));
    assert_eq!(decode_opcode(0x6a), Some((Operation::ROR, AddressingMode::Accumulator)));
    assert_eq!(decode_opcode(0xb4), Some((Operation::LDY, AddressingMode::ZeroPageX)));
    assert_eq!(decode_opcode(0xbc), Some((Operation::LDY, AddressingMode::AbsoluteX)));
    assert_eq!(decode_opcode(0x94), Some((Operation::STY, AddressingMode::ZeroPageX)));
    assert_eq!(decode_opcode(0x96), Some((Operation::STX, AddressingMode::ZeroPageY)));
    assert_eq!(decode_opcode(0x6c), Some((Operation::JMP, AddressingMode::Indirect)));
    assert_eq!(decode_opcode(0xb1), Some((Operation::LDA, AddressingMode::IndirectIndexed)));
    assert_eq!(decode_opcode(0x81), Some((Operation::STA, AddressingMode::IndexedIndirect)));
}

#[test]
fn decode_rejects_undocumented_bytes() {
    for b in [0x00u8, 0x02, 0x40, 0xff, 0x1a] {
        assert_eq!(decode_opcode(b), None);
    }
}
