//! Decoding of event-tracing payloads against a field schema.
//!
//! A schema (`schema::EventInfo`) is built from a flat, index-addressed array of field
//! descriptors (`tdh::TraceEventInfo`); a payload is then decoded field by field against
//! it, where a field's length or count may be the value of an earlier field.

/// Little-endian reading of integers from bytes.
pub mod bytes;
/// Unaligned views of fixed-width elements.
pub mod primitives;
pub mod guid;
pub mod time;
/// Wire types and display types of fields.
pub mod in_type;
pub mod out_type;
pub mod error;
/// Null-terminated and length-prefixed strings.
pub mod strings;
/// Security identifiers.
pub mod misc;
/// Decoding of one leaf value.
pub mod in_value;
pub mod value;
/// Decoded trees.
pub mod compound;
/// The schema model, its builder, and the field-tree decoder.
pub mod schema;
/// Event records and headers.
pub mod event;
/// Text conversions.
pub mod text;
/// What the schema source delivers.
pub mod tdh;
/// Maps keyed by text.
pub mod textmap;
/// Memoization of built schemas.
pub mod cache;
/// Properties of the decoder, proved.
pub mod laws;
/// Settings for enabling a provider.
pub mod provider;
