use vstd::prelude::*;

verus! {

/// A 128-bit globally unique identifier, held as its integer value.
#[derive(Clone, Copy, Debug, PartialEq, Eq, Structural, Hash)]
pub struct Guid {
    pub value: u128,
}

impl Guid {
    pub fn from_u128(value: u128) -> (r: Guid)
        ensures
            r.value == value,
    {
        Guid { value }
    }

    pub fn to_u128(&self) -> (r: u128)
        ensures
            r == self.value,
    {
        self.value
    }

    /// The first group of the textual form: the top 32 bits.
    pub fn data1(&self) -> (r: u32)
        ensures
            r == self.value / 0x1_0000_0000_0000_0000_0000_0000,
    {
        (self.value / 0x1_0000_0000_0000_0000_0000_0000) as u32
    }

    /// The second group: bits 80 to 95.
    pub fn data2(&self) -> (r: u16)
        ensures
            r == (self.value / 0x1_0000_0000_0000_0000_0000) % 0x1_0000,
    {
        ((self.value / 0x1_0000_0000_0000_0000_0000) % 0x1_0000) as u16
    }

    /// The third group: bits 64 to 79.
    pub fn data3(&self) -> (r: u16)
        ensures
            r == (self.value / 0x1_0000_0000_0000_0000) % 0x1_0000,
    {
        ((self.value / 0x1_0000_0000_0000_0000) % 0x1_0000) as u16
    }

    /// The low 64 bits, whose big-endian bytes are the last two groups.
    pub fn data4(&self) -> (r: u64)
        ensures
            r == self.value % 0x1_0000_0000_0000_0000,
    {
        (self.value % 0x1_0000_0000_0000_0000) as u64
    }
}

} // verus!
