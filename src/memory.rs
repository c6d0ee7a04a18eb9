use vstd::prelude::*;

verus! {

/// Number of bytes in the address space.
pub const MEMORY_SIZE: usize = 0x10000;

/// The 16-bit little-endian word made of a low and a high byte.
pub open spec fn word_of(lo: u8, hi: u8) -> u16 {
    ((hi as u16) << 8u16) | (lo as u16)
}

/// The byte at `address` of a memory image, the address taken modulo 0x10000.
pub open spec fn byte_at(m: Seq<u8>, address: int) -> u8 {
    m[address % 0x10000]
}

/// The little-endian word at `address`; the high byte comes from the next
/// address, wrapping from 0xFFFF to 0x0000.
pub open spec fn word_at(m: Seq<u8>, address: int) -> u16 {
    word_of(byte_at(m, address), byte_at(m, address + 1))
}

/// The little-endian word at a zero-page address; the high byte comes from the
/// next address within the zero page, so 0xFF pairs with 0x00.
pub open spec fn word_at_zero_page(m: Seq<u8>, address: u8) -> u16 {
    word_of(m[address as int], m[(address + 1) % 0x100])
}

/// The whole address space of the machine.
pub struct Memory {
    pub data: [u8; MEMORY_SIZE],
}

impl View for Memory {
    type V = Seq<u8>;

    open spec fn view(&self) -> Seq<u8> {
        self.data@
    }
}

impl Memory {
    pub fn new(data: [u8; MEMORY_SIZE]) -> (r: Self)
        ensures
            r@ == data@,
    {
        Self { data }
    }

    /// The memory holding a ROM image byte for byte; `None` unless the image is
    /// exactly 64 KiB.
    pub fn from_image(image: &[u8]) -> (r: Option<Self>)
        ensures
            r is Some <==> image@.len() == MEMORY_SIZE,
            r is Some ==> r.unwrap()@ == image@,
    {
        if image.len() != MEMORY_SIZE {
            return None;
        }
        let mut data = [0u8; MEMORY_SIZE];
        let mut i: usize = 0;
        while i < MEMORY_SIZE
            invariant
                image@.len() == MEMORY_SIZE,
                i <= MEMORY_SIZE,
                forall|k: int| 0 <= k < i ==> data@[k] == image@[k],
            decreases MEMORY_SIZE - i,
        {
            data[i] = image[i];
            i = i + 1;
        }
        proof {
            assert(data@ =~= image@);
        }
        Some(Self { data })
    }

    pub fn read_byte(&self, address: u16) -> (r: u8)
        ensures
            r == self@[address as int],
    {
        self.data[address as usize]
    }

    pub fn read_word(&self, address: u16) -> (r: u16)
        ensures
            r == word_at(self@, address as int),
    {
        let lower_byte = self.read_byte(address) as u16;
        let higher_byte = self.read_byte(address.wrapping_add(1)) as u16;
        higher_byte << 8u16 | lower_byte
    }

    pub fn read_word_zp(&self, address: u8) -> (r: u16)
        ensures
            r == word_at_zero_page(self@, address),
    {
        let lower_byte = self.read_byte(address as u16) as u16;
        let higher_byte = self.read_byte(address.wrapping_add(1) as u16) as u16;
        higher_byte << 8u16 | lower_byte
    }

    pub fn write_byte(&mut self, address: u16, value: u8)
        ensures
            final(self)@ == old(self)@.update(address as int, value),
    {
        self.data[address as usize] = value;
    }

    /// Replaces the byte at `address` by `f` of it.
    pub fn modify<F: Fn(u8) -> u8>(&mut self, address: u16, f: F)
        requires
            f.requires((old(self)@[address as int],)),
        ensures
            f.ensures((old(self)@[address as int],), final(self)@[address as int]),
            final(self)@ == old(self)@.update(address as int, final(self)@[address as int]),
    {
        let value = f(self.data[address as usize]);
        self.data[address as usize] = value;
    }
}

} // verus!
