use vstd::prelude::*;

use crate::error::ParseError;
use crate::text::{decode_utf16, utf16_text};
use crate::value::Value;

verus! {

/// The decoded fields of one struct instance, in schema order.
#[derive(Debug)]
pub struct Struct<'a> {
    pub values: Vec<StructOrValue<'a>>,
}

/// The instances that a struct-typed field decoded to, in wire order.
#[derive(Debug)]
pub struct StructArray<'a> {
    pub values: Vec<Struct<'a>>,
    pub is_array: bool,
}

/// What one field decoded to: struct instances, or a value.
#[derive(Debug)]
pub enum StructOrValue<'a> {
    Struct(StructArray<'a>),
    Value(Value<'a>),
}

/// An event's payload: a plain string, or decoded fields.
#[derive(Debug)]
pub enum StringOrStruct<'a> {
    String(RawU16StringRef<'a>),
    Struct(Struct<'a>),
}

/// A field of an event, by shape.
#[derive(Debug)]
pub enum Property<'a> {
    Scalar(Value<'a>),
    Struct(StructProperty<'a>),
    Array(ArrayProperty),
}

/// The fields of a nested struct, each with its index, in index order.
#[derive(Debug)]
pub struct StructProperty<'a> {
    pub properties: Vec<(usize, Property<'a>)>,
}

#[derive(Debug)]
pub struct ArrayProperty;

/// UTF-16 text held as its little-endian bytes.
#[derive(Debug)]
pub struct RawU16StringRef<'a> {
    pub data: &'a [u8],
}

/// The UTF-16 units of the whole pairs of `b`.
pub open spec fn units_of(b: Seq<u8>) -> Seq<u16> {
    Seq::new(b.len() / 2, |i: int| (b[2 * i] + 256 * b[2 * i + 1]) as u16)
}

impl<'a> RawU16StringRef<'a> {
    pub fn new(data: &'a [u8]) -> (r: Self)
        ensures
            r.data@ == data@,
    {
        RawU16StringRef { data }
    }

    /// The UTF-16 units; a trailing odd byte is left out.
    pub fn to_vec(&self) -> (r: Vec<u16>)
        ensures
            r@ == units_of(self.data@),
    {
        let mut units: Vec<u16> = Vec::new();
        let len = self.data.len();
        let n = len / 2;
        let mut i: usize = 0;
        while i < n
            invariant
                len == self.data@.len(),
                n == len / 2,
                i <= n,
                units@ == units_of(self.data@).subrange(0, i as int),
            decreases n - i,
        {
            let u = crate::bytes::read_u16(self.data, 2 * i);
            units.push(u);
            proof {
                assert(units@ =~= units_of(self.data@).subrange(0, i + 1));
            }
            i = i + 1;
        }
        proof {
            assert(units@ =~= units_of(self.data@));
        }
        units
    }

    /// The text, without a trailing zero unit.
    pub fn to_string(&self) -> (r: Result<String, ParseError>)
        ensures
            ({
                let u = units_of(self.data@);
                let t = if u.len() > 0 && u.last() == 0 {
                    u.drop_last()
                } else {
                    u
                };
                match utf16_text(t) {
                    Some(x) => (r matches Ok(s) && s@ == x),
                    None => r matches Err(ParseError::Utf16Decode),
                }
            }),
    {
        let chars = self.to_vec();
        let n = chars.len();
        let decoded = if n > 0 && chars[n - 1] == 0 {
            let without = chars.as_slice().split_at(n - 1).0;
            proof {
                assert(without@ =~= chars@.drop_last());
            }
            decode_utf16(without)
        } else {
            decode_utf16(chars.as_slice())
        };
        match decoded {
            Some(s) => Ok(s),
            None => Err(ParseError::Utf16Decode),
        }
    }
}

} // verus!
