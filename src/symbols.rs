//! Debug symbols: records that tie a line of assembly source to the address of
//! the code assembled from it.
use vstd::prelude::*;

verus! {

/// ASCII whitespace: space, tab, line feed, vertical tab, form feed, carriage return.
pub open spec fn is_space(b: u8) -> bool {
    b == 0x20 || (0x09 <= b && b <= 0x0d)
}

/// The value of `b` as a digit in `base` (10 or 16, either letter case), or -1.
pub open spec fn digit_value(b: u8, base: int) -> int {
    if 0x30 <= b && b <= 0x39 {
        b - 0x30
    } else if base == 16 && 0x61 <= b && b <= 0x66 {
        b - 0x61 + 10
    } else if base == 16 && 0x41 <= b && b <= 0x46 {
        b - 0x41 + 10
    } else {
        -1
    }
}

/// The number that a run of digits writes in `base`.
pub open spec fn number_value(s: Seq<u8>, base: int) -> int
    decreases s.len(),
{
    if s.len() == 0 {
        0
    } else {
        number_value(s.drop_last(), base) * base + digit_value(s.last(), base)
    }
}

/// The first index at or after `i` that holds no whitespace.
pub open spec fn skip_spaces(line: Seq<u8>, i: int) -> int
    decreases line.len() - i,
{
    if 0 <= i < line.len() && is_space(line[i]) {
        skip_spaces(line, i + 1)
    } else {
        i
    }
}

/// The first index at or after `i` that holds no digit of `base`.
pub open spec fn skip_digits(line: Seq<u8>, i: int, base: int) -> int
    decreases line.len() - i,
{
    if 0 <= i < line.len() && digit_value(line[i], base) >= 0 {
        skip_digits(line, i + 1, base)
    } else {
        i
    }
}

/// A symbol record: a decimal line number and a hexadecimal address, separated
/// by whitespace, with optional whitespace around them. `None` for any other
/// line, and where the line number exceeds `usize` or the address 0xFFFF.
pub open spec fn symbol_line(line: Seq<u8>) -> Option<(usize, u16)> {
    let a = skip_spaces(line, 0);
    let b = skip_digits(line, a, 10);
    let c = skip_spaces(line, b);
    let d = skip_digits(line, c, 16);
    let e = skip_spaces(line, d);
    let number = number_value(line.subrange(a, b), 10);
    let address = number_value(line.subrange(c, d), 16);
    if a < b && b < c && c < d && e == line.len() && number <= usize::MAX && address <= 0xFFFF {
        Some((number as usize, address as u16))
    } else {
        None
    }
}

fn is_space_byte(b: u8) -> (r: bool)
    ensures
        r == is_space(b),
{
    b == 0x20 || (0x09 <= b && b <= 0x0d)
}

fn digit_of(b: u8, base: u8) -> (r: Option<u8>)
    requires
        base == 10 || base == 16,
    ensures
        match r {
            Some(d) => d == digit_value(b, base as int) && d < base,
            None => digit_value(b, base as int) < 0,
        },
{
    if 0x30 <= b && b <= 0x39 {
        Some(b - 0x30)
    } else if base == 16 && 0x61 <= b && b <= 0x66 {
        Some(b - 0x61 + 10)
    } else if base == 16 && 0x41 <= b && b <= 0x46 {
        Some(b - 0x41 + 10)
    } else {
        None
    }
}

fn skip_space_bytes(line: &[u8], start: usize) -> (r: usize)
    requires
        start <= line@.len(),
    ensures
        r == skip_spaces(line@, start as int),
        start <= r <= line@.len(),
{
    let mut i = start;
    while i < line.len() && is_space_byte(line[i])
        invariant
            start <= i <= line@.len(),
            skip_spaces(line@, start as int) == skip_spaces(line@, i as int),
        decreases line@.len() - i,
    {
        i = i + 1;
    }
    i
}

proof fn lemma_number_grows(s: Seq<u8>, b: u8, base: int)
    requires
        base == 10 || base == 16,
        digit_value(b, base) >= 0,
        forall|i: int| 0 <= i < s.len() ==> digit_value(#[trigger] s[i], base) >= 0,
    ensures
        number_value(s.push(b), base) == number_value(s, base) * base + digit_value(b, base),
        number_value(s, base) >= 0,
    decreases s.len(),
{
    assert(s.push(b).drop_last() =~= s);
    lemma_number_nonnegative(s, base);
}

proof fn lemma_number_nonnegative(s: Seq<u8>, base: int)
    requires
        base == 10 || base == 16,
        forall|i: int| 0 <= i < s.len() ==> digit_value(#[trigger] s[i], base) >= 0,
    ensures
        number_value(s, base) >= 0,
    decreases s.len(),
{
    if s.len() > 0 {
        lemma_number_nonnegative(s.drop_last(), base);
    }
}

/// Reads the run of digits of `base` that begins at `start`: returns where it
/// ends and its value, `None` for a value above `max`.
fn scan_number(line: &[u8], start: usize, base: u8, max: u64) -> (r: (usize, Option<u64>))
    requires
        start <= line@.len(),
        base == 10 || base == 16,
    ensures
        r.0 == skip_digits(line@, start as int, base as int),
        start <= r.0 <= line@.len(),
        match r.1 {
            Some(v) => v == number_value(line@.subrange(start as int, r.0 as int), base as int) && v
                <= max,
            None => number_value(line@.subrange(start as int, r.0 as int), base as int) > max,
        },
{
    let mut i = start;
    let mut value: u128 = 0;
    let mut too_large = false;
    loop
        invariant
            start <= i <= line@.len(),
            base == 10 || base == 16,
            skip_digits(line@, start as int, base as int) == skip_digits(line@, i as int, base as int),
            forall|k: int| start <= k < i ==> digit_value(#[trigger] line@[k], base as int) >= 0,
            !too_large ==> value == number_value(line@.subrange(start as int, i as int), base as int)
                && value <= max,
            too_large ==> number_value(line@.subrange(start as int, i as int), base as int) > max,
        ensures
            skip_digits(line@, i as int, base as int) == i,
        decreases line@.len() - i,
    {
        if i >= line.len() {
            break;
        }
        let digit = match digit_of(line[i], base) {
            Some(d) => d,
            None => {
                break;
            },
        };
        let ghost prefix = line@.subrange(start as int, i as int);
        proof {
            assert(line@.subrange(start as int, i + 1) =~= prefix.push(line@[i as int]));
            assert forall|k: int| 0 <= k < prefix.len() implies digit_value(
                #[trigger] prefix[k],
                base as int,
            ) >= 0 by {
                assert(prefix[k] == line@[start + k]);
            }
            lemma_number_grows(prefix, line@[i as int], base as int);
        }
        if !too_large {
            let next = value * (base as u128) + digit as u128;
            if next > max as u128 {
                too_large = true;
            } else {
                value = next;
            }
        } else {
            proof {
                assert(number_value(prefix, base as int) * base >= number_value(prefix, base as int))
                    by (nonlinear_arith)
                    requires
                        number_value(prefix, base as int) >= 0,
                        base >= 1,
                ;
            }
        }
        i = i + 1;
    }
    if too_large {
        (i, None)
    } else {
        (i, Some(value as u64))
    }
}

/// Reads one record of a debug-symbol file.
pub fn parse_symbol_line(line: &[u8]) -> (r: Option<(usize, u16)>)
    ensures
        r == symbol_line(line@),
{
    let a = skip_space_bytes(line, 0);
    let (b, number) = scan_number(line, a, 10, usize::MAX as u64);
    let c = skip_space_bytes(line, b);
    let (d, address) = scan_number(line, c, 16, 0xffff);
    let e = skip_space_bytes(line, d);
    if a < b && b < c && c < d && e == line.len() {
        match (number, address) {
            (Some(n), Some(pc)) => Some((n as usize, pc as u16)),
            _ => None,
        }
    } else {
        None
    }
}

/// The address recorded for `line`; the last record wins where several name it.
pub open spec fn recorded_address(symbols: Seq<(usize, u16)>, line: int) -> Option<u16>
    decreases symbols.len(),
{
    if symbols.len() == 0 {
        None
    } else if symbols.last().0 == line {
        Some(symbols.last().1)
    } else {
        recorded_address(symbols.drop_last(), line)
    }
}

/// The address of the code for source line `line` of `count`: its own record,
/// else that of the nearest recorded line after it, else 0.
pub open spec fn line_address(symbols: Seq<(usize, u16)>, line: int, count: int) -> u16
    decreases count - line,
{
    if line >= count {
        0
    } else {
        match recorded_address(symbols, line) {
            Some(address) => address,
            None => line_address(symbols, line + 1, count),
        }
    }
}

fn find_address(symbols: &Vec<(usize, u16)>, line: usize) -> (r: Option<u16>)
    ensures
        r == recorded_address(symbols@, line as int),
{
    let mut i = symbols.len();
    proof {
        assert(symbols@.subrange(0, i as int) =~= symbols@);
    }
    while i > 0
        invariant
            i <= symbols@.len(),
            recorded_address(symbols@, line as int) == recorded_address(
                symbols@.subrange(0, i as int),
                line as int,
            ),
        decreases i,
    {
        let ghost head = symbols@.subrange(0, i as int);
        proof {
            assert(head.drop_last() =~= symbols@.subrange(0, i - 1));
        }
        if symbols[i - 1].0 == line {
            return Some(symbols[i - 1].1);
        }
        i = i - 1;
    }
    None
}

/// For each of `line_count` source lines, the address of the code it stands
/// for, as a debugger shows it.
pub fn line_addresses(symbols: &Vec<(usize, u16)>, line_count: usize) -> (r: Vec<u16>)
    ensures
        r@.len() == line_count,
        forall|i: int| 0 <= i < line_count ==> r@[i] == line_address(symbols@, i, line_count as int),
{
    let mut r: Vec<u16> = Vec::new();
    let mut k: usize = 0;
    while k < line_count
        invariant
            k <= line_count,
            r@.len() == k,
        decreases line_count - k,
    {
        r.push(0);
        k = k + 1;
    }
    let mut last_address: u16 = 0;
    let mut line = line_count;
    while line > 0
        invariant
            line <= line_count,
            r@.len() == line_count,
            last_address == line_address(symbols@, line as int, line_count as int),
            forall|i: int| line <= i < line_count ==> r@[i] == line_address(symbols@, i, line_count as int),
        decreases line,
    {
        line = line - 1;
        if let Some(address) = find_address(symbols, line) {
            last_address = address;
        }
        r.set(line, last_address);
    }
    r
}

/// The first source line whose code starts at `address`.
pub fn line_of_address(addresses: &Vec<u16>, address: u16) -> (r: Option<usize>)
    ensures
        match r {
            Some(i) => i < addresses@.len() && addresses@[i as int] == address && forall|j: int|
                0 <= j < i ==> addresses@[j] != address,
            None => forall|j: int| 0 <= j < addresses@.len() ==> addresses@[j] != address,
        },
{
    let mut i: usize = 0;
    while i < addresses.len()
        invariant
            i <= addresses@.len(),
            forall|j: int| 0 <= j < i ==> addresses@[j] != address,
        decreases addresses@.len() - i,
    {
        if addresses[i] == address {
            return Some(i);
        }
        i = i + 1;
    }
    None
}

} // verus!
