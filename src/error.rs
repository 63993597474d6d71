use vstd::prelude::*;

use crate::guid::Guid;
use crate::in_type::InType;

verus! {

/// Why a schema could not be built or a payload could not be decoded.
#[derive(Debug)]
pub enum ParseError {
    /// The buffer ended before the value it should hold.
    PrematureEndOfData,
    /// A string was not valid UTF-16.
    Utf16Decode,
    /// An integer did not fit the type it had to be converted to.
    IntegerConversion,
    /// A declared length does not fit the field's type.
    UnexpectedSize,
    UnexpectedCount,
    InvalidSid,
    UnknownInType(InType),
    UnalignedData(String),
    /// A length or count refers to a field whose value was not published.
    InvalidPropertyReference(usize),
    /// A field that supplies a length or count has a type that cannot.
    InvalidPropertySizeType(InType),
    /// A field that supplies a length or count is not a single value.
    PropertySizeNotAScalar,
    IndexOutOfBounds { index: usize, count: usize },
    /// The struct at this index contains itself, directly or through nested structs.
    StructCycle(usize),
    CacheMutexPoisoned,
    DataLeftAfterDecoding,
    InvalidType,
    NoMapName,
    NotImplemented,
}

/// Errors met while turning raw field descriptors into decoders.
#[derive(Debug)]
pub enum ParserBuilderError {
    IndexOutOfBounds { index: usize, count: usize },
    InvalidPropertyReference { index: usize, count: usize },
}

/// Errors met while reading a single field descriptor.
#[derive(Debug)]
pub enum EventPropertyInfoError {
    IndexOutOfBounds { index: usize, count: usize },
    Utf16,
}

/// Errors of the tracing layer: a bad event, or a bad setup.
#[derive(Debug)]
pub enum TraceError {
    Configuration(String),
    UnexpectedProvider(Guid),
    UnexpectedProviderEvent(Guid, u16),
    Decode(ParseError),
    ThreadJoin,
}

} // verus!
