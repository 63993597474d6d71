use vstd::prelude::*;

use crate::in_type::InType;
use crate::misc::Sid;
use crate::primitives::{
    DoubleRef, FileTimeRef, FloatRef, GuidRef, Int16Ref, Int32Ref, Int64Ref, Int8Ref,
    SystemTimeRef, UInt16Ref, UInt32Ref, UInt64Ref, UInt8Ref, USizeRef,
};
use crate::strings::{CountedEtwString, EtwString};

verus! {

/// A decoded value: its elements, viewed in place over the payload bytes.
#[derive(Debug)]
pub enum InValue<'a> {
    Null,
    UnicodeString(Vec<EtwString<'a>>),
    AnsiString(Vec<EtwString<'a>>),
    Int8(Int8Ref<'a>),
    UInt8(UInt8Ref<'a>),
    Int16(Int16Ref<'a>),
    UInt16(UInt16Ref<'a>),
    Int32(Int32Ref<'a>),
    UInt32(UInt32Ref<'a>),
    Int64(Int64Ref<'a>),
    UInt64(UInt64Ref<'a>),
    Float(FloatRef<'a>),
    Double(DoubleRef<'a>),
    Boolean(UInt32Ref<'a>),
    Binary(Vec<&'a [u8]>),
    Guid(GuidRef<'a>),
    Pointer(USizeRef<'a>),
    FileTime(FileTimeRef<'a>),
    SystemTime(SystemTimeRef<'a>),
    Sid(Vec<Sid<'a>>),
    HexInt32(UInt32Ref<'a>),
    HexInt64(UInt64Ref<'a>),
    CountedString(Vec<CountedEtwString<'a>>),
    CountedAnsiString(Vec<CountedEtwString<'a>>),
    ReversedCountedString(Vec<CountedEtwString<'a>>),
    ReversedCountedAnsiString(Vec<CountedEtwString<'a>>),
    NonNullTerminatedString(&'a [u8]),
    NonNullTerminatedAnsiString(&'a [u8]),
    UnicodeChar(UInt16Ref<'a>),
    AnsiChar(UInt8Ref<'a>),
    SizeT(USizeRef<'a>),
    HexDump(&'a [u8]),
    WbemSid(&'a [u8]),
}

impl<'a> InValue<'a> {
    /// The wire type that this value was decoded as.
    pub open spec fn datatype_spec(&self) -> InType {
        match self {
            InValue::Null => InType::Null,
            InValue::UnicodeString(_) => InType::UnicodeString,
            InValue::AnsiString(_) => InType::AnsiString,
            InValue::Int8(_) => InType::Int8,
            InValue::UInt8(_) => InType::UInt8,
            InValue::Int16(_) => InType::Int16,
            InValue::UInt16(_) => InType::UInt16,
            InValue::Int32(_) => InType::Int32,
            InValue::UInt32(_) => InType::UInt32,
            InValue::Int64(_) => InType::Int64,
            InValue::UInt64(_) => InType::UInt64,
            InValue::Float(_) => InType::Float,
            InValue::Double(_) => InType::Double,
            InValue::Boolean(_) => InType::Boolean,
            InValue::Binary(_) => InType::Binary,
            InValue::Guid(_) => InType::Guid,
            InValue::Pointer(_) => InType::Pointer,
            InValue::FileTime(_) => InType::FileTime,
            InValue::SystemTime(_) => InType::SystemTime,
            InValue::Sid(_) => InType::Sid,
            InValue::HexInt32(_) => InType::HexInt32,
            InValue::HexInt64(_) => InType::HexInt64,
            InValue::CountedString(_) => InType::CountedString,
            InValue::CountedAnsiString(_) => InType::CountedAnsiString,
            InValue::ReversedCountedString(_) => InType::ReversedCountedString,
            InValue::ReversedCountedAnsiString(_) => InType::ReversedCountedAnsiString,
            InValue::NonNullTerminatedString(_) => InType::NonNullTerminatedString,
            InValue::NonNullTerminatedAnsiString(_) => InType::NonNullTerminatedAnsiString,
            InValue::UnicodeChar(_) => InType::UnicodeChar,
            InValue::AnsiChar(_) => InType::AnsiChar,
            InValue::SizeT(_) => InType::SizeT,
            InValue::HexDump(_) => InType::HexDump,
            InValue::WbemSid(_) => InType::WbemSid,
        }
    }

    /// For a fixed-width type, the bytes that its elements are read from.
    pub open spec fn fixed_data(&self) -> Option<Seq<u8>> {
        match self {
            InValue::Int8(r) => Some(r.data@),
            InValue::UInt8(r) => Some(r.data@),
            InValue::Int16(r) => Some(r.data@),
            InValue::UInt16(r) => Some(r.data@),
            InValue::Int32(r) => Some(r.data@),
            InValue::UInt32(r) => Some(r.data@),
            InValue::Int64(r) => Some(r.data@),
            InValue::UInt64(r) => Some(r.data@),
            InValue::Float(r) => Some(r.data@),
            InValue::Double(r) => Some(r.data@),
            InValue::Boolean(r) => Some(r.data@),
            InValue::Guid(r) => Some(r.data@),
            InValue::Pointer(r) => Some(r.data@),
            InValue::FileTime(r) => Some(r.data@),
            InValue::SystemTime(r) => Some(r.data@),
            InValue::HexInt32(r) => Some(r.data@),
            InValue::HexInt64(r) => Some(r.data@),
            InValue::UnicodeChar(r) => Some(r.data@),
            InValue::AnsiChar(r) => Some(r.data@),
            InValue::SizeT(r) => Some(r.data@),
            _ => None,
        }
    }

    /// For a type read as a list of separate items, how many there are.
    pub open spec fn item_count(&self) -> Option<nat> {
        match self {
            InValue::UnicodeString(items) => Some(items@.len()),
            InValue::AnsiString(items) => Some(items@.len()),
            InValue::Binary(items) => Some(items@.len()),
            InValue::Sid(items) => Some(items@.len()),
            InValue::CountedString(items) => Some(items@.len()),
            InValue::CountedAnsiString(items) => Some(items@.len()),
            InValue::ReversedCountedString(items) => Some(items@.len()),
            InValue::ReversedCountedAnsiString(items) => Some(items@.len()),
            _ => None,
        }
    }

    pub fn datatype(&self) -> (r: InType)
        ensures
            r == self.datatype_spec(),
    {
        match self {
            InValue::Null => InType::Null,
            InValue::UnicodeString(_) => InType::UnicodeString,
            InValue::AnsiString(_) => InType::AnsiString,
            InValue::Int8(_) => InType::Int8,
            InValue::UInt8(_) => InType::UInt8,
            InValue::Int16(_) => InType::Int16,
            InValue::UInt16(_) => InType::UInt16,
            InValue::Int32(_) => InType::Int32,
            InValue::UInt32(_) => InType::UInt32,
            InValue::Int64(_) => InType::Int64,
            InValue::UInt64(_) => InType::UInt64,
            InValue::Float(_) => InType::Float,
            InValue::Double(_) => InType::Double,
            InValue::Boolean(_) => InType::Boolean,
            InValue::Binary(_) => InType::Binary,
            InValue::Guid(_) => InType::Guid,
            InValue::Pointer(_) => InType::Pointer,
            InValue::FileTime(_) => InType::FileTime,
            InValue::SystemTime(_) => InType::SystemTime,
            InValue::Sid(_) => InType::Sid,
            InValue::HexInt32(_) => InType::HexInt32,
            InValue::HexInt64(_) => InType::HexInt64,
            InValue::CountedString(_) => InType::CountedString,
            InValue::CountedAnsiString(_) => InType::CountedAnsiString,
            InValue::ReversedCountedString(_) => InType::ReversedCountedString,
            InValue::ReversedCountedAnsiString(_) => InType::ReversedCountedAnsiString,
            InValue::NonNullTerminatedString(_) => InType::NonNullTerminatedString,
            InValue::NonNullTerminatedAnsiString(_) => InType::NonNullTerminatedAnsiString,
            InValue::UnicodeChar(_) => InType::UnicodeChar,
            InValue::AnsiChar(_) => InType::AnsiChar,
            InValue::SizeT(_) => InType::SizeT,
            InValue::HexDump(_) => InType::HexDump,
            InValue::WbemSid(_) => InType::WbemSid,
        }
    }
}

} // verus!
