use vstd::prelude::*;

use crate::compound::units_of;
use crate::event::EventDescriptor;
use crate::guid::Guid;
use crate::in_type::InType;
use crate::out_type::OutType;
use crate::strings::{nul_end_at, zero_unit};

verus! {

/// Descriptor flag: the field is a struct whose members are other descriptors.
pub const PROPERTY_STRUCT: u32 = 0x1;
/// Descriptor flag: the field's length is the value of another field.
pub const PROPERTY_PARAM_LENGTH: u32 = 0x2;
/// Descriptor flag: the field's element count is the value of another field.
pub const PROPERTY_PARAM_COUNT: u32 = 0x4;
/// Descriptor flag: the field is an array of fixed element count.
pub const PROPERTY_PARAM_FIXED_COUNT: u32 = 0x20;
/// Descriptor flag: the field's type is described by a custom schema.
pub const PROPERTY_HAS_CUSTOM_SCHEMA: u32 = 0x80;

/// One raw field descriptor of a schema. For a struct, `struct_start_index` and
/// `num_of_struct_members` name the range of its members; otherwise `in_type`, `out_type`
/// and `map_name_offset` describe the value. `count` and `length` hold a constant, or
/// the index of the field that supplies it when the matching flag is set.
#[derive(Clone, Copy, Debug, PartialEq, Eq, Structural)]
pub struct EventPropertyRaw {
    pub flags: u32,
    pub name_offset: u32,
    pub struct_start_index: u16,
    pub num_of_struct_members: u16,
    pub in_type: u16,
    pub out_type: u16,
    pub map_name_offset: u32,
    pub count: u16,
    pub length: u16,
}

/// Where a schema was described.
#[derive(Clone, Copy, Debug, PartialEq, Eq, Structural)]
pub enum DecodingSource {
    XMLFile,
    Wbem,
    WPP,
    Tlg,
}

/// The text at `offset` of a schema blob: UTF-16 units up to the first zero unit
/// (included when `with_nul`), or to the end. `None` for offset 0, an offset past the
/// end, or an odd number of bytes left without a terminator.
pub open spec fn offset_string_spec(buf: Seq<u8>, offset: int, with_nul: bool) -> Option<Seq<u16>> {
    if offset == 0 || offset > buf.len() {
        None
    } else {
        let s = buf.subrange(offset, buf.len() as int);
        let e = nul_end_at(s, 2, 0);
        if e >= 2 && zero_unit(s, e - 2, 2) {
            Some(units_of(s.subrange(0, if with_nul { e } else { e - 2 })))
        } else if s.len() % 2 != 0 {
            None
        } else {
            Some(units_of(s))
        }
    }
}

/// Reads the UTF-16 units of `s[..end]`.
fn units_upto(s: &[u8], end: usize) -> (r: Vec<u16>)
    requires
        end <= s@.len(),
    ensures
        r@ == units_of(s@.subrange(0, end as int)),
{
    let part = crate::compound::RawU16StringRef::new(&s[0..end]);
    part.to_vec()
}

/// Text of a blob at an offset, as `offset_string_spec` states.
pub fn offset_string(buf: &[u8], offset: usize, with_nul: bool) -> (r: Option<Vec<u16>>)
    ensures
        match offset_string_spec(buf@, offset as int, with_nul) {
            None => r is None,
            Some(u) => (r matches Some(v) && v@ == u),
        },
{
    if offset == 0 || offset > buf.len() {
        return None;
    }
    let s = &buf[offset..buf.len()];
    let (head, _rest) = crate::strings::EtwString::parse(s, 2);
    let e = head.data.len();
    proof {
        crate::strings::lemma_nul_end_bounds(s@, 2, 0);
    }
    if e >= 2 && s[e - 2] == 0 && s[e - 1] == 0 {
        if with_nul {
            Some(units_upto(s, e))
        } else {
            Some(units_upto(s, e - 2))
        }
    } else if s.len() % 2 != 0 {
        None
    } else {
        proof {
            assert(s@.subrange(0, s@.len() as int) =~= s@);
        }
        Some(units_upto(s, s.len()))
    }
}

/// The schema of one event as its source delivers it: identity, a flat array of field
/// descriptors (the first `top_level_property_count` are the top-level fields), and the
/// blob that names are read from by offset.
#[derive(Debug)]
pub struct TraceEventInfo {
    pub provider_guid: Guid,
    pub event_guid: Guid,
    pub event_descriptor: EventDescriptor,
    pub decoding_source: DecodingSource,
    pub provider_name_offset: u32,
    pub event_name_offset: u32,
    pub top_level_property_count: usize,
    pub properties: Vec<EventPropertyRaw>,
    pub buffer: Vec<u8>,
}

impl TraceEventInfo {
    pub fn provider_guid(&self) -> (r: Guid)
        ensures
            r == self.provider_guid,
    {
        self.provider_guid
    }

    pub fn event_guid(&self) -> (r: Guid)
        ensures
            r == self.event_guid,
    {
        self.event_guid
    }

    pub fn event_id(&self) -> (r: u16)
        ensures
            r == self.event_descriptor.id,
    {
        self.event_descriptor.id
    }

    pub fn event_version(&self) -> (r: u8)
        ensures
            r == self.event_descriptor.version,
    {
        self.event_descriptor.version
    }

    pub fn event_descriptor(&self) -> (r: EventDescriptor)
        ensures
            r == self.event_descriptor,
    {
        self.event_descriptor
    }

    pub fn decoding_source(&self) -> (r: DecodingSource)
        ensures
            r == self.decoding_source,
    {
        self.decoding_source
    }

    pub fn property_count(&self) -> (r: usize)
        ensures
            r == self.properties@.len(),
    {
        self.properties.len()
    }

    pub fn top_level_property_count(&self) -> (r: usize)
        ensures
            r == self.top_level_property_count,
    {
        self.top_level_property_count
    }

    pub fn get_raw_property(&self, index: usize) -> (r: Option<&EventPropertyRaw>)
        ensures
            index < self.properties@.len() ==> (r matches Some(p) && *p
                == self.properties@[index as int]),
            index >= self.properties@.len() ==> r is None,
    {
        if index < self.properties.len() {
            Some(&self.properties[index])
        } else {
            None
        }
    }

    /// The UTF-16 text at `offset` of the schema blob.
    pub fn offset_string(&self, offset: u32, with_null_terminator: bool) -> (r: Option<Vec<u16>>)
        ensures
            match offset_string_spec(self.buffer@, offset as int, with_null_terminator) {
                None => r is None,
                Some(u) => (r matches Some(v) && v@ == u),
            },
    {
        offset_string(self.buffer.as_slice(), offset as usize, with_null_terminator)
    }

    pub fn provider_name(&self, with_null_terminator: bool) -> (r: Option<Vec<u16>>)
        ensures
            match offset_string_spec(self.buffer@, self.provider_name_offset as int, with_null_terminator) {
                None => r is None,
                Some(u) => (r matches Some(v) && v@ == u),
            },
    {
        self.offset_string(self.provider_name_offset, with_null_terminator)
    }

    pub fn event_name(&self, with_null_terminator: bool) -> (r: Option<Vec<u16>>)
        ensures
            match offset_string_spec(self.buffer@, self.event_name_offset as int, with_null_terminator) {
                None => r is None,
                Some(u) => (r matches Some(v) && v@ == u),
            },
    {
        self.offset_string(self.event_name_offset, with_null_terminator)
    }
}

/// Map flag: the map is a pattern map, driven by a format string.
pub const EVENTMAP_INFO_FLAG_MANIFEST_PATTERNMAP: u32 = 0x4;
/// Map entry type: entries are keyed by an unsigned integer.
pub const EVENTMAP_ENTRY_VALUETYPE_ULONG: u32 = 0;
/// Map entry type: entries are keyed by a string.
pub const EVENTMAP_ENTRY_VALUETYPE_STRING: u32 = 1;

/// One entry of a value map: the offset of its label, and its key, an integer or the
/// offset of a string by the map's entry type.
#[derive(Clone, Copy, Debug, PartialEq, Eq, Structural)]
pub struct EventMapEntry {
    pub output_offset: u32,
    pub value: u32,
}

/// A value map as its source delivers it: flags, entry type, entries, and the blob that
/// strings are read from by offset.
#[derive(Debug)]
pub struct EventMapInfo {
    pub flag: u32,
    pub map_entry_value_type: u32,
    pub format_string_offset: u32,
    pub entries: Vec<EventMapEntry>,
    pub buffer: Vec<u8>,
}

/// The text at `offset` of a map blob: like `offset_string_spec`, but an odd trailing
/// byte is dropped rather than refused.
pub open spec fn map_string_spec(buf: Seq<u8>, offset: int, with_nul: bool) -> Option<Seq<u16>> {
    if offset == 0 || offset > buf.len() {
        None
    } else {
        let s = buf.subrange(offset, buf.len() as int);
        let e = nul_end_at(s, 2, 0);
        if e >= 2 && zero_unit(s, e - 2, 2) {
            Some(units_of(s.subrange(0, if with_nul { e } else { e - 2 })))
        } else {
            Some(units_of(s))
        }
    }
}

impl EventMapInfo {
    pub fn get(&self, idx: usize) -> (r: Option<&EventMapEntry>)
        ensures
            idx < self.entries@.len() ==> (r matches Some(e) && *e == self.entries@[idx as int]),
            idx >= self.entries@.len() ==> r is None,
    {
        if idx < self.entries.len() {
            Some(&self.entries[idx])
        } else {
            None
        }
    }

    pub fn len(&self) -> (r: usize)
        ensures
            r == self.entries@.len(),
    {
        self.entries.len()
    }

    pub fn is_empty(&self) -> (r: bool)
        ensures
            r == (self.entries@.len() == 0),
    {
        self.entries.len() == 0
    }

    /// The UTF-16 text at `offset` of the map blob.
    pub fn offset_string(&self, offset: usize, with_null_terminator: bool) -> (r: Option<Vec<u16>>)
        ensures
            match map_string_spec(self.buffer@, offset as int, with_null_terminator) {
                None => r is None,
                Some(u) => (r matches Some(v) && v@ == u),
            },
    {
        map_string(self.buffer.as_slice(), offset, with_null_terminator)
    }
}

/// The language a provider's schema was written in.
#[derive(Debug, Clone, Copy, PartialEq, Eq, Structural)]
pub enum SchemaSource {
    Xml,
    WmiMof,
    Unknown(u32),
}

impl SchemaSource {
    pub fn from_code(val: u32) -> (r: SchemaSource)
        ensures
            r == (if val == 0 {
                SchemaSource::Xml
            } else if val == 1 {
                SchemaSource::WmiMof
            } else {
                SchemaSource::Unknown(val)
            }),
    {
        match val {
            0 => SchemaSource::Xml,
            1 => SchemaSource::WmiMof,
            _ => SchemaSource::Unknown(val),
        }
    }

    pub fn code(&self) -> (r: u32)
        ensures
            r == match *self {
                SchemaSource::Xml => 0u32,
                SchemaSource::WmiMof => 1u32,
                SchemaSource::Unknown(v) => v,
            },
    {
        match *self {
            SchemaSource::Xml => 0,
            SchemaSource::WmiMof => 1,
            SchemaSource::Unknown(v) => v,
        }
    }

    pub open spec fn from_code_spec(val: u32) -> SchemaSource {
        if val == 0 {
            SchemaSource::Xml
        } else if val == 1 {
            SchemaSource::WmiMof
        } else {
            SchemaSource::Unknown(val)
        }
    }
}

/// One provider as the enumeration of providers lists it.
#[derive(Debug, Clone, Copy, PartialEq, Eq, Structural)]
pub struct TraceProviderInfo {
    pub provider_guid: Guid,
    pub schema_source: u32,
    pub provider_name_offset: u32,
}

/// The providers registered on a machine, and the blob their names are read from.
#[derive(Debug)]
pub struct Providers {
    pub infos: Vec<TraceProviderInfo>,
    pub buffer: Vec<u8>,
}

impl Providers {
    pub fn len(&self) -> (r: usize)
        ensures
            r == self.infos@.len(),
    {
        self.infos.len()
    }

    pub fn is_empty(&self) -> (r: bool)
        ensures
            r == (self.infos@.len() == 0),
    {
        self.infos.len() == 0
    }

    pub fn get(&self, index: usize) -> (r: Option<&TraceProviderInfo>)
        ensures
            index < self.infos@.len() ==> (r matches Some(p) && *p == self.infos@[index as int]),
            index >= self.infos@.len() ==> r is None,
    {
        if index < self.infos.len() {
            Some(&self.infos[index])
        } else {
            None
        }
    }

    /// The provider at `index`, with access to its name.
    pub fn provider(&self, index: usize) -> (r: Option<Provider<'_>>)
        ensures
            index < self.infos@.len() ==> (r matches Some(p) && *p.info == self.infos@[index as int]),
            index >= self.infos@.len() ==> r is None,
    {
        if index < self.infos.len() {
            Some(Provider { providers: self, info: &self.infos[index] })
        } else {
            None
        }
    }
}

/// One listed provider.
#[derive(Debug)]
pub struct Provider<'a> {
    pub providers: &'a Providers,
    pub info: &'a TraceProviderInfo,
}

impl<'a> Provider<'a> {
    pub fn guid(&self) -> (r: Guid)
        ensures
            r == self.info.provider_guid,
    {
        self.info.provider_guid
    }

    pub fn schema_source(&self) -> (r: SchemaSource)
        ensures
            r == SchemaSource::from_code_spec(self.info.schema_source),
    {
        SchemaSource::from_code(self.info.schema_source)
    }

    /// The provider's name as UTF-16 units, up to the terminator.
    pub fn name(&self) -> (r: Option<Vec<u16>>)
        ensures
            match map_string_spec(
                self.providers.buffer@,
                self.info.provider_name_offset as int,
                false,
            ) {
                None => r is None,
                Some(u) => (r matches Some(v) && v@ == u),
            },
    {
        map_string(self.providers.buffer.as_slice(), self.info.provider_name_offset as usize, false)
    }
}

/// Text at `offset` of a blob, as `map_string_spec` states.
fn map_string(buf: &[u8], offset: usize, with_nul: bool) -> (r: Option<Vec<u16>>)
    ensures
        match map_string_spec(buf@, offset as int, with_nul) {
            None => r is None,
            Some(u) => (r matches Some(v) && v@ == u),
        },
{
    if offset == 0 || offset > buf.len() {
        return None;
    }
    let s = &buf[offset..buf.len()];
    let (head, _rest) = crate::strings::EtwString::parse(s, 2);
    let e = head.data.len();
    proof {
        crate::strings::lemma_nul_end_bounds(s@, 2, 0);
    }
    if e >= 2 && s[e - 2] == 0 && s[e - 1] == 0 {
        if with_nul {
            Some(units_upto(s, e))
        } else {
            Some(units_upto(s, e - 2))
        }
    } else {
        proof {
            assert(units_of(s@.subrange(0, s@.len() as int)) =~= units_of(s@));
        }
        Some(units_upto(s, s.len()))
    }
}

/// The events that one provider's manifest declares.
#[derive(Debug)]
pub struct ProviderEventDescriptors {
    pub descriptors: Vec<EventDescriptor>,
    pub guid: Guid,
}

impl ProviderEventDescriptors {
    pub fn len(&self) -> (r: usize)
        ensures
            r == self.descriptors@.len(),
    {
        self.descriptors.len()
    }

    pub fn is_empty(&self) -> (r: bool)
        ensures
            r == (self.descriptors@.len() == 0),
    {
        self.descriptors.len() == 0
    }

    pub fn get(&self, index: usize) -> (r: Option<&EventDescriptor>)
        ensures
            index < self.descriptors@.len() ==> (r matches Some(d) && *d
                == self.descriptors@[index as int]),
            index >= self.descriptors@.len() ==> r is None,
    {
        if index < self.descriptors.len() {
            Some(&self.descriptors[index])
        } else {
            None
        }
    }

    /// The first declared event with this id and version.
    pub fn get_id_version(&self, event_id: u16, version: u8) -> (r: Option<EventDescriptor>)
        ensures
            match r {
                Some(d) => exists|i: int|
                    0 <= i < self.descriptors@.len() && self.descriptors@[i] == d && d.id == event_id
                        && d.version == version && forall|j: int|
                        0 <= j < i ==> !(#[trigger] self.descriptors@[j].id == event_id
                            && self.descriptors@[j].version == version),
                None => forall|j: int|
                    0 <= j < self.descriptors@.len() ==> !(#[trigger] self.descriptors@[j].id
                        == event_id && self.descriptors@[j].version == version),
            },
    {
        let mut i: usize = 0;
        while i < self.descriptors.len()
            invariant
                i <= self.descriptors@.len(),
                forall|j: int|
                    0 <= j < i ==> !(#[trigger] self.descriptors@[j].id == event_id
                        && self.descriptors@[j].version == version),
            decreases self.descriptors@.len() - i,
        {
            let d = self.descriptors[i];
            if d.id == event_id && d.version == version {
                return Some(d);
            }
            i = i + 1;
        }
        None
    }
}

/// Which kind of named field values of a provider to list.
#[derive(Debug, Clone, Copy, PartialEq, Eq, Structural)]
pub enum EventFieldType {
    KeywordInformation,
    LevelInformation,
    ChannelInformation,
    TaskInformation,
    OpcodeInformation,
}

impl EventFieldType {
    /// The code that the field-information source takes for this kind.
    pub fn value(&self) -> (r: u32)
        ensures
            r == match *self {
                EventFieldType::KeywordInformation => 0u32,
                EventFieldType::LevelInformation => 1u32,
                EventFieldType::ChannelInformation => 2u32,
                EventFieldType::TaskInformation => 3u32,
                EventFieldType::OpcodeInformation => 4u32,
            },
    {
        match *self {
            EventFieldType::KeywordInformation => 0,
            EventFieldType::LevelInformation => 1,
            EventFieldType::ChannelInformation => 2,
            EventFieldType::TaskInformation => 3,
            EventFieldType::OpcodeInformation => 4,
        }
    }
}

/// Why the named field values of a provider could not be listed.
#[derive(Debug, Clone, Copy, PartialEq, Eq, Structural)]
pub enum ProviderFieldInformationError {
    NotSupported,
}

/// One named field value of a provider: a keyword, level, channel, task or opcode.
#[derive(Debug, Clone, Copy, PartialEq, Eq, Structural)]
pub struct ProviderFieldInfo {
    pub name_offset: u32,
    pub description_offset: u32,
    pub value: u64,
}

impl ProviderFieldInfo {
    pub fn value(&self) -> (r: u64)
        ensures
            r == self.value,
    {
        self.value
    }
}

/// The named field values of one kind that a provider declares, and the blob that their
/// names and descriptions are read from.
#[derive(Debug)]
pub struct ProviderFieldInformation {
    pub fields: Vec<ProviderFieldInfo>,
    pub buffer: Vec<u8>,
}

impl ProviderFieldInformation {
    pub fn len(&self) -> (r: usize)
        ensures
            r == self.fields@.len(),
    {
        self.fields.len()
    }

    pub fn is_empty(&self) -> (r: bool)
        ensures
            r == (self.fields@.len() == 0),
    {
        self.fields.len() == 0
    }

    pub fn get(&self, index: usize) -> (r: Option<&ProviderFieldInfo>)
        ensures
            index < self.fields@.len() ==> (r matches Some(f) && *f == self.fields@[index as int]),
            index >= self.fields@.len() ==> r is None,
    {
        if index < self.fields.len() {
            Some(&self.fields[index])
        } else {
            None
        }
    }

    /// All entries, in order.
    pub fn iter(&self) -> (r: &[ProviderFieldInfo])
        ensures
            r@ == self.fields@,
    {
        self.fields.as_slice()
    }

    /// The name of an entry as UTF-16 units, up to the terminator.
    pub fn name(&self, field: &ProviderFieldInfo) -> (r: Option<Vec<u16>>)
        ensures
            match map_string_spec(self.buffer@, field.name_offset as int, false) {
                None => r is None,
                Some(u) => (r matches Some(v) && v@ == u),
            },
    {
        map_string(self.buffer.as_slice(), field.name_offset as usize, false)
    }

    /// The description of an entry as UTF-16 units, up to the terminator.
    pub fn description(&self, field: &ProviderFieldInfo) -> (r: Option<Vec<u16>>)
        ensures
            match map_string_spec(self.buffer@, field.description_offset as int, false) {
                None => r is None,
                Some(u) => (r matches Some(v) && v@ == u),
            },
    {
        map_string(self.buffer.as_slice(), field.description_offset as usize, false)
    }
}

/// Where a described field's length or count comes from.
#[derive(Debug)]
pub enum ValueSource {
    Constant(u64),
    Reference(Box<EventPropertyInfo>),
}

/// A field as a schema describes it.
#[derive(Debug)]
pub enum EventPropertyInfo {
    StructType(Vec<EventPropertyInfo>),
    NonStructType {
        name: String,
        in_type: InType,
        out_type: OutType,
        map_name: Option<String>,
        length: ValueSource,
        count: ValueSource,
        is_array: bool,
    },
    CustomSchemaType { in_type: InType, out_type: OutType, custom_schema: Vec<u8> },
}

/// The identifying header fields of one event, detached from its record.
#[derive(Debug, Clone, Copy, PartialEq, Eq, Structural)]
pub struct EventInformation {
    pub provider_id: Guid,
    pub event_id: u16,
    pub opcode: u8,
    pub version: u8,
    pub level: u8,
    pub event_flags: u16,
    pub process_id: u32,
    pub thread_id: u32,
    pub activity_id: Guid,
    pub raw_timestamp: i64,
}

} // verus!
