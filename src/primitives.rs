use vstd::prelude::*;

use crate::guid::Guid;
use crate::time::{FileTime, SystemTime};
use crate::bytes::{le2, le4, le8, read_u16, read_u32, read_u64, signed};

verus! {

/// Unaligned little-endian view of consecutive `i8` values.
#[derive(Debug)]
pub struct Int8Ref<'a> {
    pub data: &'a [u8],
}

impl<'a> Int8Ref<'a> {
    /// Value of the element that starts at byte `i` of `b`.
    pub open spec fn elem(b: Seq<u8>, i: int) -> int {
        signed(b[i] as int, 256)
    }

    pub fn get(&self, idx: usize) -> (r: Option<i8>)
        ensures
            r == (if idx < self.data@.len() / 1 {
                Some(Self::elem(self.data@, idx * 1) as i8)
            } else {
                None::<i8>
            }),
    {
        if idx < self.data.len() / 1 {
            let base: usize = idx * 1;
            let v: i8 = {
            let u = self.data[base];
            if u < 128 { u as i8 } else { (u as i16 - 256) as i8 }
            };
            Some(v)
        } else {
            None
        }
    }

    pub fn len(&self) -> (r: usize)
        ensures
            r == self.data@.len() / 1,
    {
        self.data.len() / 1
    }

    pub fn is_empty(&self) -> (r: bool)
        ensures
            r == (self.data@.len() == 0),
    {
        self.data.len() == 0
    }

    pub fn raw_data(&self) -> (r: &'a [u8])
        ensures
            r@ == self.data@,
    {
        self.data
    }

    pub fn item_size() -> (r: usize)
        ensures
            r == 1,
    {
        1
    }
}

/// Unaligned little-endian view of consecutive `u8` values.
#[derive(Debug)]
pub struct UInt8Ref<'a> {
    pub data: &'a [u8],
}

impl<'a> UInt8Ref<'a> {
    /// Value of the element that starts at byte `i` of `b`.
    pub open spec fn elem(b: Seq<u8>, i: int) -> int {
        b[i] as int
    }

    pub fn get(&self, idx: usize) -> (r: Option<u8>)
        ensures
            r == (if idx < self.data@.len() / 1 {
                Some(Self::elem(self.data@, idx * 1) as u8)
            } else {
                None::<u8>
            }),
    {
        if idx < self.data.len() / 1 {
            let base: usize = idx * 1;
            let v: u8 = {
            self.data[base]
            };
            Some(v)
        } else {
            None
        }
    }

    pub fn len(&self) -> (r: usize)
        ensures
            r == self.data@.len() / 1,
    {
        self.data.len() / 1
    }

    pub fn is_empty(&self) -> (r: bool)
        ensures
            r == (self.data@.len() == 0),
    {
        self.data.len() == 0
    }

    pub fn raw_data(&self) -> (r: &'a [u8])
        ensures
            r@ == self.data@,
    {
        self.data
    }

    pub fn item_size() -> (r: usize)
        ensures
            r == 1,
    {
        1
    }
}

/// Unaligned little-endian view of consecutive `i16` values.
#[derive(Debug)]
pub struct Int16Ref<'a> {
    pub data: &'a [u8],
}

impl<'a> Int16Ref<'a> {
    /// Value of the element that starts at byte `i` of `b`.
    pub open spec fn elem(b: Seq<u8>, i: int) -> int {
        signed(le2(b, i), 65536)
    }

    pub fn get(&self, idx: usize) -> (r: Option<i16>)
        ensures
            r == (if idx < self.data@.len() / 2 {
                Some(Self::elem(self.data@, idx * 2) as i16)
            } else {
                None::<i16>
            }),
    {
        if idx < self.data.len() / 2 {
            let base: usize = idx * 2;
            let v: i16 = {
            let u = read_u16(self.data, base);
            if u < 32768 { u as i16 } else { (u as i32 - 65536) as i16 }
            };
            Some(v)
        } else {
            None
        }
    }

    pub fn len(&self) -> (r: usize)
        ensures
            r == self.data@.len() / 2,
    {
        self.data.len() / 2
    }

    pub fn is_empty(&self) -> (r: bool)
        ensures
            r == (self.data@.len() == 0),
    {
        self.data.len() == 0
    }

    pub fn raw_data(&self) -> (r: &'a [u8])
        ensures
            r@ == self.data@,
    {
        self.data
    }

    pub fn item_size() -> (r: usize)
        ensures
            r == 2,
    {
        2
    }
}

/// Unaligned little-endian view of consecutive `u16` values.
#[derive(Debug)]
pub struct UInt16Ref<'a> {
    pub data: &'a [u8],
}

impl<'a> UInt16Ref<'a> {
    /// Value of the element that starts at byte `i` of `b`.
    pub open spec fn elem(b: Seq<u8>, i: int) -> int {
        le2(b, i)
    }

    pub fn get(&self, idx: usize) -> (r: Option<u16>)
        ensures
            r == (if idx < self.data@.len() / 2 {
                Some(Self::elem(self.data@, idx * 2) as u16)
            } else {
                None::<u16>
            }),
    {
        if idx < self.data.len() / 2 {
            let base: usize = idx * 2;
            let v: u16 = {
            read_u16(self.data, base)
            };
            Some(v)
        } else {
            None
        }
    }

    pub fn len(&self) -> (r: usize)
        ensures
            r == self.data@.len() / 2,
    {
        self.data.len() / 2
    }

    pub fn is_empty(&self) -> (r: bool)
        ensures
            r == (self.data@.len() == 0),
    {
        self.data.len() == 0
    }

    pub fn raw_data(&self) -> (r: &'a [u8])
        ensures
            r@ == self.data@,
    {
        self.data
    }

    pub fn item_size() -> (r: usize)
        ensures
            r == 2,
    {
        2
    }
}

/// Unaligned little-endian view of consecutive `i32` values.
#[derive(Debug)]
pub struct Int32Ref<'a> {
    pub data: &'a [u8],
}

impl<'a> Int32Ref<'a> {
    /// Value of the element that starts at byte `i` of `b`.
    pub open spec fn elem(b: Seq<u8>, i: int) -> int {
        signed(le4(b, i), 4294967296)
    }

    pub fn get(&self, idx: usize) -> (r: Option<i32>)
        ensures
            r == (if idx < self.data@.len() / 4 {
                Some(Self::elem(self.data@, idx * 4) as i32)
            } else {
                None::<i32>
            }),
    {
        if idx < self.data.len() / 4 {
            let base: usize = idx * 4;
            let v: i32 = {
            let u = read_u32(self.data, base);
            if u < 2147483648 { u as i32 } else { (u as i64 - 4294967296) as i32 }
            };
            Some(v)
        } else {
            None
        }
    }

    pub fn len(&self) -> (r: usize)
        ensures
            r == self.data@.len() / 4,
    {
        self.data.len() / 4
    }

    pub fn is_empty(&self) -> (r: bool)
        ensures
            r == (self.data@.len() == 0),
    {
        self.data.len() == 0
    }

    pub fn raw_data(&self) -> (r: &'a [u8])
        ensures
            r@ == self.data@,
    {
        self.data
    }

    pub fn item_size() -> (r: usize)
        ensures
            r == 4,
    {
        4
    }
}

/// Unaligned little-endian view of consecutive `u32` values.
#[derive(Debug)]
pub struct UInt32Ref<'a> {
    pub data: &'a [u8],
}

impl<'a> UInt32Ref<'a> {
    /// Value of the element that starts at byte `i` of `b`.
    pub open spec fn elem(b: Seq<u8>, i: int) -> int {
        le4(b, i)
    }

    pub fn get(&self, idx: usize) -> (r: Option<u32>)
        ensures
            r == (if idx < self.data@.len() / 4 {
                Some(Self::elem(self.data@, idx * 4) as u32)
            } else {
                None::<u32>
            }),
    {
        if idx < self.data.len() / 4 {
            let base: usize = idx * 4;
            let v: u32 = {
            read_u32(self.data, base)
            };
            Some(v)
        } else {
            None
        }
    }

    pub fn len(&self) -> (r: usize)
        ensures
            r == self.data@.len() / 4,
    {
        self.data.len() / 4
    }

    pub fn is_empty(&self) -> (r: bool)
        ensures
            r == (self.data@.len() == 0),
    {
        self.data.len() == 0
    }

    pub fn raw_data(&self) -> (r: &'a [u8])
        ensures
            r@ == self.data@,
    {
        self.data
    }

    pub fn item_size() -> (r: usize)
        ensures
            r == 4,
    {
        4
    }
}

/// Unaligned little-endian view of consecutive `i64` values.
#[derive(Debug)]
pub struct Int64Ref<'a> {
    pub data: &'a [u8],
}

impl<'a> Int64Ref<'a> {
    /// Value of the element that starts at byte `i` of `b`.
    pub open spec fn elem(b: Seq<u8>, i: int) -> int {
        signed(le8(b, i), 18446744073709551616)
    }

    pub fn get(&self, idx: usize) -> (r: Option<i64>)
        ensures
            r == (if idx < self.data@.len() / 8 {
                Some(Self::elem(self.data@, idx * 8) as i64)
            } else {
                None::<i64>
            }),
    {
        if idx < self.data.len() / 8 {
            let base: usize = idx * 8;
            let v: i64 = {
            let u = read_u64(self.data, base);
            if u < 9223372036854775808 { u as i64 } else { (u as i128 - 18446744073709551616) as i64 }
            };
            Some(v)
        } else {
            None
        }
    }

    pub fn len(&self) -> (r: usize)
        ensures
            r == self.data@.len() / 8,
    {
        self.data.len() / 8
    }

    pub fn is_empty(&self) -> (r: bool)
        ensures
            r == (self.data@.len() == 0),
    {
        self.data.len() == 0
    }

    pub fn raw_data(&self) -> (r: &'a [u8])
        ensures
            r@ == self.data@,
    {
        self.data
    }

    pub fn item_size() -> (r: usize)
        ensures
            r == 8,
    {
        8
    }
}

/// Unaligned little-endian view of consecutive `u64` values.
#[derive(Debug)]
pub struct UInt64Ref<'a> {
    pub data: &'a [u8],
}

impl<'a> UInt64Ref<'a> {
    /// Value of the element that starts at byte `i` of `b`.
    pub open spec fn elem(b: Seq<u8>, i: int) -> int {
        le8(b, i)
    }

    pub fn get(&self, idx: usize) -> (r: Option<u64>)
        ensures
            r == (if idx < self.data@.len() / 8 {
                Some(Self::elem(self.data@, idx * 8) as u64)
            } else {
                None::<u64>
            }),
    {
        if idx < self.data.len() / 8 {
            let base: usize = idx * 8;
            let v: u64 = {
            read_u64(self.data, base)
            };
            Some(v)
        } else {
            None
        }
    }

    pub fn len(&self) -> (r: usize)
        ensures
            r == self.data@.len() / 8,
    {
        self.data.len() / 8
    }

    pub fn is_empty(&self) -> (r: bool)
        ensures
            r == (self.data@.len() == 0),
    {
        self.data.len() == 0
    }

    pub fn raw_data(&self) -> (r: &'a [u8])
        ensures
            r@ == self.data@,
    {
        self.data
    }

    pub fn item_size() -> (r: usize)
        ensures
            r == 8,
    {
        8
    }
}

/// Unaligned little-endian view of consecutive IEEE-754 single-precision values, read as their bit patterns.
#[derive(Debug)]
pub struct FloatRef<'a> {
    pub data: &'a [u8],
}

impl<'a> FloatRef<'a> {
    /// Value of the element that starts at byte `i` of `b`.
    pub open spec fn elem(b: Seq<u8>, i: int) -> int {
        le4(b, i)
    }

    pub fn get(&self, idx: usize) -> (r: Option<u32>)
        ensures
            r == (if idx < self.data@.len() / 4 {
                Some(Self::elem(self.data@, idx * 4) as u32)
            } else {
                None::<u32>
            }),
    {
        if idx < self.data.len() / 4 {
            let base: usize = idx * 4;
            Some(read_u32(self.data, base))
        } else {
            None
        }
    }

    pub fn len(&self) -> (r: usize)
        ensures
            r == self.data@.len() / 4,
    {
        self.data.len() / 4
    }

    pub fn is_empty(&self) -> (r: bool)
        ensures
            r == (self.data@.len() == 0),
    {
        self.data.len() == 0
    }

    pub fn raw_data(&self) -> (r: &'a [u8])
        ensures
            r@ == self.data@,
    {
        self.data
    }

    pub fn item_size() -> (r: usize)
        ensures
            r == 4,
    {
        4
    }
}

/// Unaligned little-endian view of consecutive IEEE-754 double-precision values, read as their bit patterns.
#[derive(Debug)]
pub struct DoubleRef<'a> {
    pub data: &'a [u8],
}

impl<'a> DoubleRef<'a> {
    /// Value of the element that starts at byte `i` of `b`.
    pub open spec fn elem(b: Seq<u8>, i: int) -> int {
        le8(b, i)
    }

    pub fn get(&self, idx: usize) -> (r: Option<u64>)
        ensures
            r == (if idx < self.data@.len() / 8 {
                Some(Self::elem(self.data@, idx * 8) as u64)
            } else {
                None::<u64>
            }),
    {
        if idx < self.data.len() / 8 {
            let base: usize = idx * 8;
            Some(read_u64(self.data, base))
        } else {
            None
        }
    }

    pub fn len(&self) -> (r: usize)
        ensures
            r == self.data@.len() / 8,
    {
        self.data.len() / 8
    }

    pub fn is_empty(&self) -> (r: bool)
        ensures
            r == (self.data@.len() == 0),
    {
        self.data.len() == 0
    }

    pub fn raw_data(&self) -> (r: &'a [u8])
        ensures
            r@ == self.data@,
    {
        self.data
    }

    pub fn item_size() -> (r: usize)
        ensures
            r == 8,
    {
        8
    }
}

/// Unaligned little-endian view of consecutive pointer-sized values of a 64-bit producer.
#[derive(Debug)]
pub struct USizeRef<'a> {
    pub data: &'a [u8],
}

impl<'a> USizeRef<'a> {
    /// Value of the element that starts at byte `i` of `b`.
    pub open spec fn elem(b: Seq<u8>, i: int) -> int {
        le8(b, i)
    }

    pub fn get(&self, idx: usize) -> (r: Option<u64>)
        ensures
            r == (if idx < self.data@.len() / 8 {
                Some(Self::elem(self.data@, idx * 8) as u64)
            } else {
                None::<u64>
            }),
    {
        if idx < self.data.len() / 8 {
            let base: usize = idx * 8;
            Some(read_u64(self.data, base))
        } else {
            None
        }
    }

    pub fn len(&self) -> (r: usize)
        ensures
            r == self.data@.len() / 8,
    {
        self.data.len() / 8
    }

    pub fn is_empty(&self) -> (r: bool)
        ensures
            r == (self.data@.len() == 0),
    {
        self.data.len() == 0
    }

    pub fn raw_data(&self) -> (r: &'a [u8])
        ensures
            r@ == self.data@,
    {
        self.data
    }

    pub fn item_size() -> (r: usize)
        ensures
            r == 8,
    {
        8
    }
}

/// Unaligned little-endian view of consecutive file times.
#[derive(Debug)]
pub struct FileTimeRef<'a> {
    pub data: &'a [u8],
}

impl<'a> FileTimeRef<'a> {
    /// The element that starts at byte `i` of `b`.
    pub open spec fn elem(b: Seq<u8>, i: int) -> FileTime {
        FileTime { low_date_time: le4(b, i) as u32, high_date_time: le4(b, i + 4) as u32 }
    }

    pub fn get(&self, idx: usize) -> (r: Option<FileTime>)
        ensures
            r == (if idx < self.data@.len() / 8 {
                Some(Self::elem(self.data@, idx * 8))
            } else {
                None::<FileTime>
            }),
    {
        if idx < self.data.len() / 8 {
            let base: usize = idx * 8;
            Some(FileTime { low_date_time: read_u32(self.data, base), high_date_time: read_u32(self.data, base + 4) })
        } else {
            None
        }
    }

    pub fn len(&self) -> (r: usize)
        ensures
            r == self.data@.len() / 8,
    {
        self.data.len() / 8
    }

    pub fn is_empty(&self) -> (r: bool)
        ensures
            r == (self.data@.len() == 0),
    {
        self.data.len() == 0
    }

    pub fn raw_data(&self) -> (r: &'a [u8])
        ensures
            r@ == self.data@,
    {
        self.data
    }

    pub fn item_size() -> (r: usize)
        ensures
            r == 8,
    {
        8
    }
}

/// Unaligned little-endian view of consecutive system times.
#[derive(Debug)]
pub struct SystemTimeRef<'a> {
    pub data: &'a [u8],
}

impl<'a> SystemTimeRef<'a> {
    /// The element that starts at byte `i` of `b`.
    pub open spec fn elem(b: Seq<u8>, i: int) -> SystemTime {
        SystemTime {
            year: le2(b, i) as u16,
            month: le2(b, i + 2) as u16,
            day_of_week: le2(b, i + 4) as u16,
            day: le2(b, i + 6) as u16,
            hour: le2(b, i + 8) as u16,
            minute: le2(b, i + 10) as u16,
            second: le2(b, i + 12) as u16,
            milliseconds: le2(b, i + 14) as u16,
        }
    }

    pub fn get(&self, idx: usize) -> (r: Option<SystemTime>)
        ensures
            r == (if idx < self.data@.len() / 16 {
                Some(Self::elem(self.data@, idx * 16))
            } else {
                None::<SystemTime>
            }),
    {
        if idx < self.data.len() / 16 {
            let base: usize = idx * 16;
            Some(SystemTime {
                year: read_u16(self.data, base),
                month: read_u16(self.data, base + 2),
                day_of_week: read_u16(self.data, base + 4),
                day: read_u16(self.data, base + 6),
                hour: read_u16(self.data, base + 8),
                minute: read_u16(self.data, base + 10),
                second: read_u16(self.data, base + 12),
                milliseconds: read_u16(self.data, base + 14),
            })
        } else {
            None
        }
    }

    pub fn len(&self) -> (r: usize)
        ensures
            r == self.data@.len() / 16,
    {
        self.data.len() / 16
    }

    pub fn is_empty(&self) -> (r: bool)
        ensures
            r == (self.data@.len() == 0),
    {
        self.data.len() == 0
    }

    pub fn raw_data(&self) -> (r: &'a [u8])
        ensures
            r@ == self.data@,
    {
        self.data
    }

    pub fn item_size() -> (r: usize)
        ensures
            r == 16,
    {
        16
    }
}

/// Unaligned little-endian view of consecutive identifiers, each a 128-bit little-endian integer.
#[derive(Debug)]
pub struct GuidRef<'a> {
    pub data: &'a [u8],
}

impl<'a> GuidRef<'a> {
    /// The element that starts at byte `i` of `b`.
    pub open spec fn elem(b: Seq<u8>, i: int) -> Guid {
        Guid { value: (le8(b, i) + 18446744073709551616 * le8(b, i + 8)) as u128 }
    }

    pub fn get(&self, idx: usize) -> (r: Option<Guid>)
        ensures
            r == (if idx < self.data@.len() / 16 {
                Some(Self::elem(self.data@, idx * 16))
            } else {
                None::<Guid>
            }),
    {
        if idx < self.data.len() / 16 {
            let base: usize = idx * 16;
            Some({
                let lo = read_u64(self.data, base);
                let hi = read_u64(self.data, base + 8);
                Guid { value: lo as u128 + 18446744073709551616 * (hi as u128) }
            })
        } else {
            None
        }
    }

    pub fn len(&self) -> (r: usize)
        ensures
            r == self.data@.len() / 16,
    {
        self.data.len() / 16
    }

    pub fn is_empty(&self) -> (r: bool)
        ensures
            r == (self.data@.len() == 0),
    {
        self.data.len() == 0
    }

    pub fn raw_data(&self) -> (r: &'a [u8])
        ensures
            r@ == self.data@,
    {
        self.data
    }

    pub fn item_size() -> (r: usize)
        ensures
            r == 16,
    {
        16
    }
}

} // verus!
