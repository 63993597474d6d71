use vstd::prelude::*;

use crate::error::ParseError;
use crate::in_type::InType;
use crate::in_value::InValue;
use crate::misc::{lemma_sids_none_stays, lemma_sids_step, sid_size, sids_size, Sid};
use crate::primitives::{
    DoubleRef, FileTimeRef, FloatRef, GuidRef, Int16Ref, Int32Ref, Int64Ref, Int8Ref,
    SystemTimeRef, UInt16Ref, UInt32Ref, UInt64Ref, UInt8Ref, USizeRef,
};
use crate::strings::{
    counted_size, counted_strings_size, nul_end_at, nul_strings_size, parse_counted_string_array,
    parse_string_array,
};

verus! {

/// Encoded size of one element of a fixed-width type; `None` for the other types.
pub open spec fn fixed_size(t: InType) -> Option<nat> {
    match t {
        InType::Int8 | InType::UInt8 | InType::AnsiChar => Some(1nat),
        InType::Int16 | InType::UInt16 | InType::UnicodeChar => Some(2nat),
        InType::Int32 | InType::UInt32 | InType::Float | InType::Boolean | InType::HexInt32 => Some(4nat),
        InType::Int64 | InType::UInt64 | InType::Double | InType::Pointer | InType::FileTime | InType::HexInt64 | InType::SizeT => Some(8nat),
        InType::Guid | InType::SystemTime => Some(16nat),
        _ => None,
    }
}

/// What decoding `count` elements of type `t` with declared `length` from the start of
/// `data` gives: the number of bytes taken, or the error.
pub open spec fn value_size(data: Seq<u8>, t: InType, length: nat, count: nat) -> Result<
    int,
    ParseError,
> {
    match t {
        InType::Null => Ok(0),
        InType::UnicodeString | InType::AnsiString => if length != 0 {
            Err(ParseError::UnexpectedSize)
        } else {
            Ok(nul_strings_size(data, if t is UnicodeString { 2 } else { 1 }, count))
        },
        InType::CountedString
        | InType::ReversedCountedString
        | InType::CountedAnsiString
        | InType::ReversedCountedAnsiString => if length != 0 {
            Err(ParseError::UnexpectedSize)
        } else {
            let w: nat = if t is CountedString || t is ReversedCountedString {
                2
            } else {
                1
            };
            match counted_strings_size(data, w, count) {
                None => Err(ParseError::PrematureEndOfData),
                Some(n) => Ok(n),
            }
        },
        InType::Binary => if length == 0 {
            Err(ParseError::UnexpectedSize)
        } else if data.len() < length * count {
            Err(ParseError::PrematureEndOfData)
        } else {
            Ok((length * count) as int)
        },
        InType::Sid => if length != 0 {
            Err(ParseError::UnexpectedSize)
        } else {
            match sids_size(data, count) {
                None => Err(ParseError::InvalidSid),
                Some(n) => Ok(n),
            }
        },
        _ => match fixed_size(t) {
            Some(size) => if length != size {
                Err(ParseError::UnexpectedSize)
            } else if data.len() < length * count {
                Err(ParseError::PrematureEndOfData)
            } else {
                Ok((length * count) as int)
            },
            None => Err(ParseError::UnknownInType(t)),
        },
    }
}

/// The bytes of string `i` of consecutive null-terminated strings at the start of `data`.
pub open spec fn nul_item(data: Seq<u8>, w: nat, i: int) -> Seq<u8> {
    let off = nul_strings_size(data, w, i as nat);
    data.subrange(off, off + nul_end_at(data.subrange(off, data.len() as int), w, 0))
}

/// The units of string `i` of consecutive length-prefixed strings at the start of `data`.
pub open spec fn counted_item(data: Seq<u8>, w: nat, i: int) -> Seq<u8> {
    let off = counted_strings_size(data, w, i as nat)->0;
    data.subrange(off + 2, off + counted_size(data.subrange(off, data.len() as int), w)->0)
}

/// The bytes of identifier `i` of consecutive security identifiers at the start of `data`.
pub open spec fn sid_item(data: Seq<u8>, i: int) -> Seq<u8> {
    let off = sids_size(data, i as nat)->0;
    data.subrange(off, off + sid_size(data.subrange(off, data.len() as int))->0)
}

/// Whether each item of a value read as separate items holds the bytes it was read from.
pub open spec fn items_match(v: InValue, data: Seq<u8>, length: nat) -> bool {
    match v {
        InValue::UnicodeString(items) => forall|i: int|
            0 <= i < items@.len() ==> (#[trigger] items@[i]).char_size == 2 && items@[i].data@
                == nul_item(data, 2, i),
        InValue::AnsiString(items) => forall|i: int|
            0 <= i < items@.len() ==> (#[trigger] items@[i]).char_size == 1 && items@[i].data@
                == nul_item(data, 1, i),
        InValue::CountedString(items) => forall|i: int|
            0 <= i < items@.len() ==> (#[trigger] items@[i]).char_size == 2 && items@[i].data@
                == counted_item(data, 2, i),
        InValue::ReversedCountedString(items) => forall|i: int|
            0 <= i < items@.len() ==> (#[trigger] items@[i]).char_size == 2 && items@[i].data@
                == counted_item(data, 2, i),
        InValue::CountedAnsiString(items) => forall|i: int|
            0 <= i < items@.len() ==> (#[trigger] items@[i]).char_size == 1 && items@[i].data@
                == counted_item(data, 1, i),
        InValue::ReversedCountedAnsiString(items) => forall|i: int|
            0 <= i < items@.len() ==> (#[trigger] items@[i]).char_size == 1 && items@[i].data@
                == counted_item(data, 1, i),
        InValue::Sid(items) => forall|i: int|
            0 <= i < items@.len() ==> (#[trigger] items@[i]).data@ == sid_item(data, i),
        InValue::Binary(items) => forall|i: int|
            0 <= i < items@.len() ==> (#[trigger] items@[i])@ == data.subrange(
                i * length,
                (i + 1) * length,
            ),
        _ => true,
    }
}

/// Splits off `count` elements of `size` bytes, checking the declared `length` first.
fn take_fixed<'b>(data: &'b [u8], length: usize, count: usize, size: usize) -> (r: Result<
    (&'b [u8], &'b [u8]),
    ParseError,
>)
    ensures
        length != size ==> r == Err::<(&'b [u8], &'b [u8]), ParseError>(ParseError::UnexpectedSize),
        length == size && data@.len() < length * count ==> r == Err::<
            (&'b [u8], &'b [u8]),
            ParseError,
        >(ParseError::PrematureEndOfData),
        length == size && data@.len() >= length * count ==> (r matches Ok((raw, rest)) && raw@
            == data@.subrange(0, length * count) && rest@ == data@.subrange(
            length * count,
            data@.len() as int,
        )),
{
    if length != size {
        return Err(ParseError::UnexpectedSize);
    }
    let len = data.len();
    match length.checked_mul(count) {
        None => {
            Err(ParseError::PrematureEndOfData)
        },
        Some(n) => {
            if data.len() < n {
                Err(ParseError::PrematureEndOfData)
            } else {
                Ok((&data[0..n], &data[n..data.len()]))
            }
        },
    }
}

/// Reads `count` consecutive security identifiers.
fn parse_sid_array<'b>(data: &'b [u8], count: usize) -> (r: Result<(Vec<Sid<'b>>, usize), ParseError>)
    ensures
        match sids_size(data@, count as nat) {
            None => r == Err::<(Vec<Sid<'b>>, usize), ParseError>(ParseError::InvalidSid),
            Some(n) => (r matches Ok((sids, size)) && size == n && n <= data@.len() && sids@.len() == count
                && forall|i: int|
                0 <= i < count ==> {
                    let off = sids_size(data@, i as nat)->0;
                    (#[trigger] sids@[i]).data@ == data@.subrange(
                        off,
                        off + sid_size(data@.subrange(off, data@.len() as int))->0,
                    )
                }),
        },
{
    let mut sids: Vec<Sid<'b>> = Vec::new();
    let mut offset: usize = 0;
    let mut i: usize = 0;
    while i < count
        invariant
            i <= count,
            sids_size(data@, i as nat) == Some(offset as int),
            offset <= data@.len(),
            sids@.len() == i,
            forall|j: int|
                0 <= j < i ==> {
                    let off = sids_size(data@, j as nat)->0;
                    (#[trigger] sids@[j]).data@ == data@.subrange(
                        off,
                        off + sid_size(data@.subrange(off, data@.len() as int))->0,
                    )
                },
        decreases count - i,
    {
        let rest = &data[offset..data.len()];
        proof {
            lemma_sids_step(data@, i as nat);
            if sids_size(data@, (i + 1) as nat) is None {
                lemma_sids_none_stays(data@, (i + 1) as nat, count as nat);
            }
        }
        match Sid::new(rest) {
            None => {
                return Err(ParseError::InvalidSid);
            },
            Some(sid) => {
                proof {
                    assert(rest@ =~= data@.subrange(offset as int, data@.len() as int));
                    let n = sid_size(rest@)->0;
                    assert(sid.data@ =~= data@.subrange(offset as int, offset + n));
                }
                offset = offset + sid.data.len();
                sids.push(sid);
            },
        }
        i = i + 1;
    }
    Ok((sids, offset))
}

/// Cuts `count` blobs of `length` bytes each.
fn split_blobs<'b>(data: &'b [u8], length: usize, count: usize) -> (r: Vec<&'b [u8]>)
    requires
        length * count <= data@.len(),
    ensures
        r@.len() == count,
        forall|i: int|
            0 <= i < count ==> (#[trigger] r@[i])@ == data@.subrange(
                i * length,
                (i + 1) * length,
            ),
{
    let len = data.len();
    let mut blobs: Vec<&'b [u8]> = Vec::new();
    let mut i: usize = 0;
    while i < count
        invariant
            i <= count,
            length * count <= data@.len(),
            len == data@.len(),
            blobs@.len() == i,
            forall|j: int|
                0 <= j < i ==> (#[trigger] blobs@[j])@ == data@.subrange(
                    j * length,
                    (j + 1) * length,
                ),
        decreases count - i,
    {
        proof {
            assert((i + 1) * length <= length * count) by (nonlinear_arith)
                requires
                    i < count,
            ;
            assert((i + 1) * length == i * length + length) by (nonlinear_arith);
            assert(data@.len() == len);
        }
        let start: usize = i * length;
        blobs.push(&data[start..start + length]);
        i = i + 1;
    }
    blobs
}

/// One decoded field value: where it was read from, what it holds, and whether the
/// schema declares it an array.
#[derive(Debug)]
pub struct Value<'a> {
    pub raw: &'a [u8],
    pub value: InValue<'a>,
    pub is_array: bool,
}

impl<'a> Value<'a> {
    pub fn raw(&self) -> (r: &'a [u8])
        ensures
            r@ == self.raw@,
    {
        self.raw
    }

    pub fn value(&self) -> (r: &InValue<'a>)
        ensures
            r == &self.value,
    {
        &self.value
    }

    pub fn is_array(&self) -> (r: bool)
        ensures
            r == self.is_array,
    {
        self.is_array
    }

    /// Decodes `count` elements of type `value_type` from the start of `data`.
    pub fn parse(data: &'a [u8], value_type: InType, length: usize, count: usize, is_array: bool) -> (r:
        Result<(Value<'a>, &'a [u8]), ParseError>)
        ensures
            match value_size(data@, value_type, length as nat, count as nat) {
                Err(e) => r == Err::<(Value<'a>, &'a [u8]), ParseError>(e),
                Ok(n) => (r matches Ok((v, rest)) && {
                    &&& 0 <= n <= data@.len()
                    &&& v.raw@ == data@.subrange(0, n)
                    &&& rest@ == data@.subrange(n, data@.len() as int)
                    &&& v.is_array == is_array
                    &&& v.value.datatype_spec() == value_type
                    &&& v.value.fixed_data() == (if fixed_size(value_type) is Some {
                        Some(v.raw@)
                    } else {
                        None
                    })
                    &&& (value_type != InType::Null ==> (v.value.fixed_data() is Some
                        || v.value.item_count() == Some(count as nat)))
                    &&& items_match(v.value, data@, length as nat)
                }),
            },
    {
        let (value, raw, remainder): (InValue<'a>, &'a [u8], &'a [u8]) = match value_type {
            InType::Null => (InValue::Null, &data[0..0], data),
            InType::UnicodeString => {
                let (strings, size, rest) = parse_string_array(data, length, count, 2)?;
                proof { crate::strings::lemma_nul_strings_bounds(data@, 2, count as nat); }
                (InValue::UnicodeString(strings), &data[0..size], rest)
            },
            InType::AnsiString => {
                let (strings, size, rest) = parse_string_array(data, length, count, 1)?;
                proof { crate::strings::lemma_nul_strings_bounds(data@, 1, count as nat); }
                (InValue::AnsiString(strings), &data[0..size], rest)
            },
            InType::Int8 => {
                let (raw, rest) = take_fixed(data, length, count, 1)?;
                (InValue::Int8(Int8Ref { data: raw }), raw, rest)
            },
            InType::UInt8 => {
                let (raw, rest) = take_fixed(data, length, count, 1)?;
                (InValue::UInt8(UInt8Ref { data: raw }), raw, rest)
            },
            InType::Int16 => {
                let (raw, rest) = take_fixed(data, length, count, 2)?;
                (InValue::Int16(Int16Ref { data: raw }), raw, rest)
            },
            InType::UInt16 => {
                let (raw, rest) = take_fixed(data, length, count, 2)?;
                (InValue::UInt16(UInt16Ref { data: raw }), raw, rest)
            },
            InType::Int32 => {
                let (raw, rest) = take_fixed(data, length, count, 4)?;
                (InValue::Int32(Int32Ref { data: raw }), raw, rest)
            },
            InType::UInt32 => {
                let (raw, rest) = take_fixed(data, length, count, 4)?;
                (InValue::UInt32(UInt32Ref { data: raw }), raw, rest)
            },
            InType::Int64 => {
                let (raw, rest) = take_fixed(data, length, count, 8)?;
                (InValue::Int64(Int64Ref { data: raw }), raw, rest)
            },
            InType::UInt64 => {
                let (raw, rest) = take_fixed(data, length, count, 8)?;
                (InValue::UInt64(UInt64Ref { data: raw }), raw, rest)
            },
            InType::Float => {
                let (raw, rest) = take_fixed(data, length, count, 4)?;
                (InValue::Float(FloatRef { data: raw }), raw, rest)
            },
            InType::Double => {
                let (raw, rest) = take_fixed(data, length, count, 8)?;
                (InValue::Double(DoubleRef { data: raw }), raw, rest)
            },
            InType::Boolean => {
                let (raw, rest) = take_fixed(data, length, count, 4)?;
                (InValue::Boolean(UInt32Ref { data: raw }), raw, rest)
            },
            InType::Guid => {
                let (raw, rest) = take_fixed(data, length, count, 16)?;
                (InValue::Guid(GuidRef { data: raw }), raw, rest)
            },
            InType::Pointer => {
                let (raw, rest) = take_fixed(data, length, count, 8)?;
                (InValue::Pointer(USizeRef { data: raw }), raw, rest)
            },
            InType::FileTime => {
                let (raw, rest) = take_fixed(data, length, count, 8)?;
                (InValue::FileTime(FileTimeRef { data: raw }), raw, rest)
            },
            InType::SystemTime => {
                let (raw, rest) = take_fixed(data, length, count, 16)?;
                (InValue::SystemTime(SystemTimeRef { data: raw }), raw, rest)
            },
            InType::HexInt32 => {
                let (raw, rest) = take_fixed(data, length, count, 4)?;
                (InValue::HexInt32(UInt32Ref { data: raw }), raw, rest)
            },
            InType::HexInt64 => {
                let (raw, rest) = take_fixed(data, length, count, 8)?;
                (InValue::HexInt64(UInt64Ref { data: raw }), raw, rest)
            },
            InType::UnicodeChar => {
                let (raw, rest) = take_fixed(data, length, count, 2)?;
                (InValue::UnicodeChar(UInt16Ref { data: raw }), raw, rest)
            },
            InType::AnsiChar => {
                let (raw, rest) = take_fixed(data, length, count, 1)?;
                (InValue::AnsiChar(UInt8Ref { data: raw }), raw, rest)
            },
            InType::SizeT => {
                let (raw, rest) = take_fixed(data, length, count, 8)?;
                (InValue::SizeT(USizeRef { data: raw }), raw, rest)
            },
            InType::Binary => {
                if length == 0 {
                    return Err(ParseError::UnexpectedSize);
                }
                let len = data.len();
                let n = match length.checked_mul(count) {
                    None => {
                        return Err(ParseError::PrematureEndOfData);
                    },
                    Some(n) => n,
                };
                if data.len() < n {
                    return Err(ParseError::PrematureEndOfData);
                }
                (InValue::Binary(split_blobs(data, length, count)), &data[0..n], &data[n..data.len()])
            },
            InType::Sid => {
                if length != 0 {
                    return Err(ParseError::UnexpectedSize);
                }
                let (sids, size) = parse_sid_array(data, count)?;
                (InValue::Sid(sids), &data[0..size], &data[size..data.len()])
            },
            InType::CountedString => {
                let (strings, size, rest) = parse_counted_string_array(data, length, count, 2)?;
                (InValue::CountedString(strings), &data[0..size], rest)
            },
            InType::CountedAnsiString => {
                let (strings, size, rest) = parse_counted_string_array(data, length, count, 1)?;
                (InValue::CountedAnsiString(strings), &data[0..size], rest)
            },
            InType::ReversedCountedString => {
                let (strings, size, rest) = parse_counted_string_array(data, length, count, 2)?;
                (InValue::ReversedCountedString(strings), &data[0..size], rest)
            },
            InType::ReversedCountedAnsiString => {
                let (strings, size, rest) = parse_counted_string_array(data, length, count, 1)?;
                (InValue::ReversedCountedAnsiString(strings), &data[0..size], rest)
            },
            _ => {
                return Err(ParseError::UnknownInType(value_type));
            },
        };
        Ok((Value { raw, value, is_array }, remainder))
    }
}

} // verus!
