use vstd::prelude::*;

verus! {

/// How a field's value is meant to be shown.
#[derive(Clone, Copy, Debug, PartialEq, Eq, Structural)]
pub enum OutType {
    Null,
    String,
    DateTime,
    Byte,
    UnsignedByte,
    Short,
    UnsignedShort,
    Int,
    UnsignedInt,
    Long,
    UnsignedLong,
    Float,
    Double,
    Boolean,
    Guid,
    HexBinary,
    HexInt8,
    HexInt16,
    HexInt32,
    HexInt64,
    Pid,
    Tid,
    Port,
    IpV4,
    IpV6,
    SocketAddress,
    CimDateTime,
    EtwTime,
    Xml,
    ErrorCode,
    Win32Error,
    NtStatus,
    HResult,
    CultureInsensitiveDateTime,
    Json,
    Utf8,
    ReducedString,
    NoPrint,
    Unknown(u16),
}

/// The OutType that a wire code stands for.
pub open spec fn out_type_of(code: u16) -> OutType {
    match code {
        0 => OutType::Null,
        1 => OutType::String,
        2 => OutType::DateTime,
        3 => OutType::Byte,
        4 => OutType::UnsignedByte,
        5 => OutType::Short,
        6 => OutType::UnsignedShort,
        7 => OutType::Int,
        8 => OutType::UnsignedInt,
        9 => OutType::Long,
        10 => OutType::UnsignedLong,
        11 => OutType::Float,
        12 => OutType::Double,
        13 => OutType::Boolean,
        14 => OutType::Guid,
        15 => OutType::HexBinary,
        16 => OutType::HexInt8,
        17 => OutType::HexInt16,
        18 => OutType::HexInt32,
        19 => OutType::HexInt64,
        20 => OutType::Pid,
        21 => OutType::Tid,
        22 => OutType::Port,
        23 => OutType::IpV4,
        24 => OutType::IpV6,
        25 => OutType::SocketAddress,
        26 => OutType::CimDateTime,
        27 => OutType::EtwTime,
        28 => OutType::Xml,
        29 => OutType::ErrorCode,
        30 => OutType::Win32Error,
        31 => OutType::NtStatus,
        32 => OutType::HResult,
        33 => OutType::CultureInsensitiveDateTime,
        34 => OutType::Json,
        35 => OutType::Utf8,
        300 => OutType::ReducedString,
        301 => OutType::NoPrint,
        _ => OutType::Unknown(code),
    }
}

impl OutType {
    /// The wire code of this value.
    pub open spec fn code_spec(self) -> u16 {
        match self {
            OutType::Null => 0,
            OutType::String => 1,
            OutType::DateTime => 2,
            OutType::Byte => 3,
            OutType::UnsignedByte => 4,
            OutType::Short => 5,
            OutType::UnsignedShort => 6,
            OutType::Int => 7,
            OutType::UnsignedInt => 8,
            OutType::Long => 9,
            OutType::UnsignedLong => 10,
            OutType::Float => 11,
            OutType::Double => 12,
            OutType::Boolean => 13,
            OutType::Guid => 14,
            OutType::HexBinary => 15,
            OutType::HexInt8 => 16,
            OutType::HexInt16 => 17,
            OutType::HexInt32 => 18,
            OutType::HexInt64 => 19,
            OutType::Pid => 20,
            OutType::Tid => 21,
            OutType::Port => 22,
            OutType::IpV4 => 23,
            OutType::IpV6 => 24,
            OutType::SocketAddress => 25,
            OutType::CimDateTime => 26,
            OutType::EtwTime => 27,
            OutType::Xml => 28,
            OutType::ErrorCode => 29,
            OutType::Win32Error => 30,
            OutType::NtStatus => 31,
            OutType::HResult => 32,
            OutType::CultureInsensitiveDateTime => 33,
            OutType::Json => 34,
            OutType::Utf8 => 35,
            OutType::ReducedString => 300,
            OutType::NoPrint => 301,
            OutType::Unknown(c) => c,
        }
    }

    pub fn code(&self) -> (r: u16)
        ensures
            r == self.code_spec(),
    {
        match *self {
            OutType::Null => 0,
            OutType::String => 1,
            OutType::DateTime => 2,
            OutType::Byte => 3,
            OutType::UnsignedByte => 4,
            OutType::Short => 5,
            OutType::UnsignedShort => 6,
            OutType::Int => 7,
            OutType::UnsignedInt => 8,
            OutType::Long => 9,
            OutType::UnsignedLong => 10,
            OutType::Float => 11,
            OutType::Double => 12,
            OutType::Boolean => 13,
            OutType::Guid => 14,
            OutType::HexBinary => 15,
            OutType::HexInt8 => 16,
            OutType::HexInt16 => 17,
            OutType::HexInt32 => 18,
            OutType::HexInt64 => 19,
            OutType::Pid => 20,
            OutType::Tid => 21,
            OutType::Port => 22,
            OutType::IpV4 => 23,
            OutType::IpV6 => 24,
            OutType::SocketAddress => 25,
            OutType::CimDateTime => 26,
            OutType::EtwTime => 27,
            OutType::Xml => 28,
            OutType::ErrorCode => 29,
            OutType::Win32Error => 30,
            OutType::NtStatus => 31,
            OutType::HResult => 32,
            OutType::CultureInsensitiveDateTime => 33,
            OutType::Json => 34,
            OutType::Utf8 => 35,
            OutType::ReducedString => 300,
            OutType::NoPrint => 301,
            OutType::Unknown(c) => c,
        }
    }
}

impl From<u16> for OutType {
    fn from(val: u16) -> (r: Self)
        ensures
            r == out_type_of(val),
    {
        match val {
            0 => OutType::Null,
            1 => OutType::String,
            2 => OutType::DateTime,
            3 => OutType::Byte,
            4 => OutType::UnsignedByte,
            5 => OutType::Short,
            6 => OutType::UnsignedShort,
            7 => OutType::Int,
            8 => OutType::UnsignedInt,
            9 => OutType::Long,
            10 => OutType::UnsignedLong,
            11 => OutType::Float,
            12 => OutType::Double,
            13 => OutType::Boolean,
            14 => OutType::Guid,
            15 => OutType::HexBinary,
            16 => OutType::HexInt8,
            17 => OutType::HexInt16,
            18 => OutType::HexInt32,
            19 => OutType::HexInt64,
            20 => OutType::Pid,
            21 => OutType::Tid,
            22 => OutType::Port,
            23 => OutType::IpV4,
            24 => OutType::IpV6,
            25 => OutType::SocketAddress,
            26 => OutType::CimDateTime,
            27 => OutType::EtwTime,
            28 => OutType::Xml,
            29 => OutType::ErrorCode,
            30 => OutType::Win32Error,
            31 => OutType::NtStatus,
            32 => OutType::HResult,
            33 => OutType::CultureInsensitiveDateTime,
            34 => OutType::Json,
            35 => OutType::Utf8,
            300 => OutType::ReducedString,
            301 => OutType::NoPrint,
            _ => OutType::Unknown(val),
        }
    }
}

impl vstd::std_specs::convert::FromSpecImpl<u16> for OutType {
    open spec fn obeys_from_spec() -> bool {
        true
    }

    open spec fn from_spec(v: u16) -> OutType {
        out_type_of(v)
    }
}

} // verus!
