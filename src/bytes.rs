use vstd::prelude::*;

verus! {

/// Little-endian value of the two bytes of `b` at `i`.
pub open spec fn le2(b: Seq<u8>, i: int) -> int {
    b[i] as int + 256 * (b[i + 1] as int)
}

/// Little-endian value of the four bytes of `b` at `i`.
pub open spec fn le4(b: Seq<u8>, i: int) -> int {
    le2(b, i) + 65536 * le2(b, i + 2)
}

/// Little-endian value of the eight bytes of `b` at `i`.
pub open spec fn le8(b: Seq<u8>, i: int) -> int {
    le4(b, i) + 4294967296 * le4(b, i + 4)
}

/// Two's-complement reading of an unsigned value `u` below `modulus`.
pub open spec fn signed(u: int, modulus: int) -> int {
    if u >= modulus / 2 { u - modulus } else { u }
}

pub fn read_u16(b: &[u8], i: usize) -> (r: u16)
    requires
        i + 2 <= b@.len(),
    ensures
        r as int == le2(b@, i as int),
{
    b[i] as u16 + 256 * (b[i + 1] as u16)
}

pub fn read_u32(b: &[u8], i: usize) -> (r: u32)
    requires
        i + 4 <= b.len(),
    ensures
        r as int == le4(b@, i as int),
{
    let lo = read_u16(b, i);
    let hi = read_u16(b, i + 2);
    lo as u32 + 65536 * (hi as u32)
}

pub fn read_u64(b: &[u8], i: usize) -> (r: u64)
    requires
        i + 8 <= b.len(),
    ensures
        r as int == le8(b@, i as int),
{
    let lo = read_u32(b, i);
    let hi = read_u32(b, i + 4);
    lo as u64 + 4294967296 * (hi as u64)
}

} // verus!
