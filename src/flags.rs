use vstd::prelude::*;

verus! {

/// The flags of the status register that instructions read or write.
#[derive(Clone, Copy, Debug, PartialEq, Eq, Structural)]
pub enum StatusFlags {
    Carry,
    Zero,
    InterruptDisable,
    DecimalMode,
    Overflow,
    Negative,
}

impl StatusFlags {
    /// Position of the flag in the status register, least significant first.
    pub open spec fn bit(self) -> u8 {
        match self {
            StatusFlags::Carry => 0,
            StatusFlags::Zero => 1,
            StatusFlags::InterruptDisable => 2,
            StatusFlags::DecimalMode => 3,
            StatusFlags::Overflow => 6,
            StatusFlags::Negative => 7,
        }
    }

    pub open spec fn mask(self) -> u8 {
        1u8 << self.bit()
    }

    pub fn get_bit_mask(self) -> (r: u8)
        ensures
            r == self.mask(),
    {
        let bit: u8 = match self {
            StatusFlags::Carry => 0,
            StatusFlags::Zero => 1,
            StatusFlags::InterruptDisable => 2,
            StatusFlags::DecimalMode => 3,
            StatusFlags::Overflow => 6,
            StatusFlags::Negative => 7,
        };
        1u8 << bit
    }
}

/// Whether `flag` is set in the status byte `p`.
pub open spec fn flag_of(p: u8, flag: StatusFlags) -> bool {
    p & flag.mask() != 0
}

/// The status byte `p` with `flag` set to `value` and every other bit kept.
pub open spec fn with_flag(p: u8, flag: StatusFlags, value: bool) -> u8 {
    if value {
        p | flag.mask()
    } else {
        p & !flag.mask()
    }
}

/// The status byte `p` with Z and N describing `value`: Z when it is zero, N
/// when its bit 7 is set.
pub open spec fn with_zero_and_negative(p: u8, value: u8) -> u8 {
    with_flag(with_flag(p, StatusFlags::Zero, value == 0), StatusFlags::Negative, value & 0x80 != 0)
}

proof fn lemma_single_bit(p: u8, b: u8, c: u8)
    by (bit_vector)
    requires
        b < 8,
        c < 8,
    ensures
        (p | (1u8 << b)) & (1u8 << c) != 0 <==> (b == c || p & (1u8 << c) != 0),
        (p & !(1u8 << b)) & (1u8 << c) != 0 <==> (b != c && p & (1u8 << c) != 0),
{
}

/// Setting one flag gives it the new value and leaves every other flag as it was.
pub proof fn lemma_with_flag(p: u8, flag: StatusFlags, value: bool, other: StatusFlags)
    ensures
        flag_of(with_flag(p, flag, value), other) == if flag == other {
            value
        } else {
            flag_of(p, other)
        },
{
    lemma_single_bit(p, flag.bit(), other.bit());
}

} // verus!
