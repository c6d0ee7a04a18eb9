use mos6502::memory::{Memory, MEMORY_SIZE};
use mos6502::symbols::{line_addresses, line_of_address, parse_symbol_line};

#[test]
fn parses_symbol_record() {
    assert_eq!(parse_symbol_line(b"12 0600"), Some((12, 0x0600)));
    assert_eq!(parse_symbol_line(b"  7\tfFfF  \r"), Some((7, 0xffff)));
    assert_eq!(parse_symbol_line(b"0 a"), Some((0, 0x000a)));
}

#[test]
fn rejects_malformed_symbol_records() {
    assert_eq!(parse_symbol_line(b""), None);
    assert_eq!(parse_symbol_line(b"12"), None);
    assert_eq!(parse_symbol_line(b"12 0600 9"), None);
    assert_eq!(parse_symbol_line(b"1a 0600"), None);
    assert_eq!(parse_symbol_line(b"12 06g0"), None);
    assert_eq!(parse_symbol_line(b"12 10000"), None);
    assert_eq!(parse_symbol_line(b"99999999999999999999999 10"), None);
    assert_eq!(parse_symbol_line(b"x12 0600"), None);
}

#[test]
fn maps_each_line_to_next_recorded_address() {
    let symbols = vec![(1usize, 0x0600u16), (3, 0x0602), (3, 0x0604), (9, 0x0700)];
    assert_eq!(line_addresses(&symbols, 6), vec![0x0600, 0x0600, 0x0604, 0x0604, 0, 0]);
    assert_eq!(line_addresses(&symbols, 0), Vec::<u16>::new());
}

#[test]
fn image_must_fill_memory() {
    let mut image = vec![0u8; MEMORY_SIZE];
    image[0x1234] = 0x56;
    let mem = Memory::from_image(&image).unwrap();
    assert_eq!(mem.read_byte(0x1234), 0x56);
    assert!(Memory::from_image(&image[..MEMORY_SIZE - 1]).is_none());
    image.push(0);
    assert!(Memory::from_image(&image).is_none());
}

#[test]
fn finds_first_line_of_address() {
    let addresses = vec![0x0600u16, 0x0600, 0x0602, 0x0604, 0x0602];
    assert_eq!(line_of_address(&addresses, 0x0602), Some(2));
    assert_eq!(line_of_address(&addresses, 0x0600), Some(0));
    assert_eq!(line_of_address(&addresses, 0x0700), None);
}
