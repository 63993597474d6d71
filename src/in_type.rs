use vstd::prelude::*;

verus! {

/// How a field's value is encoded on the wire.
#[derive(Clone, Copy, Debug, PartialEq, Eq, Structural)]
pub enum InType {
    Null,
    UnicodeString,
    AnsiString,
    Int8,
    UInt8,
    Int16,
    UInt16,
    Int32,
    UInt32,
    Int64,
    UInt64,
    Float,
    Double,
    Boolean,
    Binary,
    Guid,
    Pointer,
    FileTime,
    SystemTime,
    Sid,
    HexInt32,
    HexInt64,
    ManifestCountedString,
    ManifestCountedAnsiString,
    Reserved24,
    ManifestCountedBinary,
    CountedString,
    CountedAnsiString,
    ReversedCountedString,
    ReversedCountedAnsiString,
    NonNullTerminatedString,
    NonNullTerminatedAnsiString,
    UnicodeChar,
    AnsiChar,
    SizeT,
    HexDump,
    WbemSid,
    Unknown(u16),
}

/// The InType that a wire code stands for.
pub open spec fn in_type_of(code: u16) -> InType {
    match code {
        0 => InType::Null,
        1 => InType::UnicodeString,
        2 => InType::AnsiString,
        3 => InType::Int8,
        4 => InType::UInt8,
        5 => InType::Int16,
        6 => InType::UInt16,
        7 => InType::Int32,
        8 => InType::UInt32,
        9 => InType::Int64,
        10 => InType::UInt64,
        11 => InType::Float,
        12 => InType::Double,
        13 => InType::Boolean,
        14 => InType::Binary,
        15 => InType::Guid,
        16 => InType::Pointer,
        17 => InType::FileTime,
        18 => InType::SystemTime,
        19 => InType::Sid,
        20 => InType::HexInt32,
        21 => InType::HexInt64,
        22 => InType::ManifestCountedString,
        23 => InType::ManifestCountedAnsiString,
        24 => InType::Reserved24,
        25 => InType::ManifestCountedBinary,
        300 => InType::CountedString,
        301 => InType::CountedAnsiString,
        302 => InType::ReversedCountedString,
        303 => InType::ReversedCountedAnsiString,
        304 => InType::NonNullTerminatedString,
        305 => InType::NonNullTerminatedAnsiString,
        306 => InType::UnicodeChar,
        307 => InType::AnsiChar,
        308 => InType::SizeT,
        309 => InType::HexDump,
        310 => InType::WbemSid,
        _ => InType::Unknown(code),
    }
}

impl InType {
    /// The wire code of this value.
    pub open spec fn code_spec(self) -> u16 {
        match self {
            InType::Null => 0,
            InType::UnicodeString => 1,
            InType::AnsiString => 2,
            InType::Int8 => 3,
            InType::UInt8 => 4,
            InType::Int16 => 5,
            InType::UInt16 => 6,
            InType::Int32 => 7,
            InType::UInt32 => 8,
            InType::Int64 => 9,
            InType::UInt64 => 10,
            InType::Float => 11,
            InType::Double => 12,
            InType::Boolean => 13,
            InType::Binary => 14,
            InType::Guid => 15,
            InType::Pointer => 16,
            InType::FileTime => 17,
            InType::SystemTime => 18,
            InType::Sid => 19,
            InType::HexInt32 => 20,
            InType::HexInt64 => 21,
            InType::ManifestCountedString => 22,
            InType::ManifestCountedAnsiString => 23,
            InType::Reserved24 => 24,
            InType::ManifestCountedBinary => 25,
            InType::CountedString => 300,
            InType::CountedAnsiString => 301,
            InType::ReversedCountedString => 302,
            InType::ReversedCountedAnsiString => 303,
            InType::NonNullTerminatedString => 304,
            InType::NonNullTerminatedAnsiString => 305,
            InType::UnicodeChar => 306,
            InType::AnsiChar => 307,
            InType::SizeT => 308,
            InType::HexDump => 309,
            InType::WbemSid => 310,
            InType::Unknown(c) => c,
        }
    }

    pub fn code(&self) -> (r: u16)
        ensures
            r == self.code_spec(),
    {
        match *self {
            InType::Null => 0,
            InType::UnicodeString => 1,
            InType::AnsiString => 2,
            InType::Int8 => 3,
            InType::UInt8 => 4,
            InType::Int16 => 5,
            InType::UInt16 => 6,
            InType::Int32 => 7,
            InType::UInt32 => 8,
            InType::Int64 => 9,
            InType::UInt64 => 10,
            InType::Float => 11,
            InType::Double => 12,
            InType::Boolean => 13,
            InType::Binary => 14,
            InType::Guid => 15,
            InType::Pointer => 16,
            InType::FileTime => 17,
            InType::SystemTime => 18,
            InType::Sid => 19,
            InType::HexInt32 => 20,
            InType::HexInt64 => 21,
            InType::ManifestCountedString => 22,
            InType::ManifestCountedAnsiString => 23,
            InType::Reserved24 => 24,
            InType::ManifestCountedBinary => 25,
            InType::CountedString => 300,
            InType::CountedAnsiString => 301,
            InType::ReversedCountedString => 302,
            InType::ReversedCountedAnsiString => 303,
            InType::NonNullTerminatedString => 304,
            InType::NonNullTerminatedAnsiString => 305,
            InType::UnicodeChar => 306,
            InType::AnsiChar => 307,
            InType::SizeT => 308,
            InType::HexDump => 309,
            InType::WbemSid => 310,
            InType::Unknown(c) => c,
        }
    }
}

impl From<u16> for InType {
    fn from(val: u16) -> (r: Self)
        ensures
            r == in_type_of(val),
    {
        match val {
            0 => InType::Null,
            1 => InType::UnicodeString,
            2 => InType::AnsiString,
            3 => InType::Int8,
            4 => InType::UInt8,
            5 => InType::Int16,
            6 => InType::UInt16,
            7 => InType::Int32,
            8 => InType::UInt32,
            9 => InType::Int64,
            10 => InType::UInt64,
            11 => InType::Float,
            12 => InType::Double,
            13 => InType::Boolean,
            14 => InType::Binary,
            15 => InType::Guid,
            16 => InType::Pointer,
            17 => InType::FileTime,
            18 => InType::SystemTime,
            19 => InType::Sid,
            20 => InType::HexInt32,
            21 => InType::HexInt64,
            22 => InType::ManifestCountedString,
            23 => InType::ManifestCountedAnsiString,
            24 => InType::Reserved24,
            25 => InType::ManifestCountedBinary,
            300 => InType::CountedString,
            301 => InType::CountedAnsiString,
            302 => InType::ReversedCountedString,
            303 => InType::ReversedCountedAnsiString,
            304 => InType::NonNullTerminatedString,
            305 => InType::NonNullTerminatedAnsiString,
            306 => InType::UnicodeChar,
            307 => InType::AnsiChar,
            308 => InType::SizeT,
            309 => InType::HexDump,
            310 => InType::WbemSid,
            _ => InType::Unknown(val),
        }
    }
}

impl vstd::std_specs::convert::FromSpecImpl<u16> for InType {
    open spec fn obeys_from_spec() -> bool {
        true
    }

    open spec fn from_spec(v: u16) -> InType {
        in_type_of(v)
    }
}

} // verus!
