use vstd::prelude::*;

use crate::compound::{RawU16StringRef, StringOrStruct};
use crate::error::ParseError;
use crate::guid::Guid;
use crate::schema::{group_decoded, group_step, EventInfo};
use crate::text::{decode_utf16, utf16_text};

verus! {

/// The tuple that identifies an event's shape.
#[derive(Clone, Copy, Debug, PartialEq, Eq, Structural)]
pub struct EventDescriptor {
    pub id: u16,
    pub version: u8,
    pub channel: u8,
    pub level: u8,
    pub opcode: u8,
    pub task: u16,
    pub keyword: u64,
}

impl EventDescriptor {
    pub fn id(&self) -> (r: u16)
        ensures
            r == self.id,
    {
        self.id
    }

    pub fn version(&self) -> (r: u8)
        ensures
            r == self.version,
    {
        self.version
    }

    pub fn channel(&self) -> (r: u8)
        ensures
            r == self.channel,
    {
        self.channel
    }

    pub fn level(&self) -> (r: u8)
        ensures
            r == self.level,
    {
        self.level
    }

    pub fn opcode(&self) -> (r: u8)
        ensures
            r == self.opcode,
    {
        self.opcode
    }

    pub fn task(&self) -> (r: u16)
        ensures
            r == self.task,
    {
        self.task
    }

    pub fn keyword(&self) -> (r: u64)
        ensures
            r == self.keyword,
    {
        self.keyword
    }

    /// The descriptor itself, as the record it was read from.
    pub fn data(&self) -> (r: &EventDescriptor)
        ensures
            *r == *self,
    {
        self
    }
}

/// A descriptor detached from the record it came from.
#[derive(Clone, Copy, Debug, PartialEq, Eq, Structural)]
pub struct EventDescriptorOwned {
    pub id: u16,
    pub version: u8,
    pub channel: u8,
    pub level: u8,
    pub opcode: u8,
    pub task: u16,
    pub keyword: u64,
}

/// CPU time spent on an event: kernel and user time, or, in a private session, one
/// processor-time count.
#[derive(Clone, Copy, Debug, PartialEq, Eq, Structural)]
pub enum ElapsedExecutionTime {
    UserKernel { user: u32, kernel: u32 },
    Processor(u64),
}

/// Header flag: the event was logged by a private session.
pub const EVENT_HEADER_FLAG_PRIVATE_SESSION: u16 = 0x0002;
/// Header flag: the payload is one null-terminated UTF-16 string.
pub const EVENT_HEADER_FLAG_STRING_ONLY: u16 = 0x0004;
/// Header flag: the event comes from a software trace preprocessor message.
pub const EVENT_HEADER_FLAG_TRACE_MESSAGE: u16 = 0x0008;
/// Header flag: the producer ran with 32-bit pointers.
pub const EVENT_HEADER_FLAG_32_BIT_HEADER: u16 = 0x0020;
/// Header flag: the producer ran with 64-bit pointers.
pub const EVENT_HEADER_FLAG_64_BIT_HEADER: u16 = 0x0040;
/// All header flags that have a meaning.
pub const EVENT_HEADER_FLAGS_KNOWN: u16 = 0x017f;

/// The header of one event record.
#[derive(Clone, Copy, Debug, PartialEq, Eq, Structural)]
pub struct Header {
    pub size: u16,
    pub header_type: u16,
    pub flags: u16,
    pub event_property: u16,
    pub thread_id: u32,
    pub process_id: u32,
    pub timestamp: i64,
    pub provider_id: Guid,
    pub event_descriptor: EventDescriptor,
    /// Kernel time in the low half and user time in the high half, or, in a private
    /// session, the processor time.
    pub processor_time: u64,
    pub activity_id: Guid,
}

impl Header {
    pub fn size(&self) -> (r: u16)
        ensures
            r == self.size,
    {
        self.size
    }

    pub fn header_type(&self) -> (r: u16)
        ensures
            r == self.header_type,
    {
        self.header_type
    }

    pub fn flags(&self) -> (r: u16)
        ensures
            r == self.flags,
    {
        self.flags
    }

    pub fn event_property(&self) -> (r: u16)
        ensures
            r == self.event_property,
    {
        self.event_property
    }

    pub fn thread_id(&self) -> (r: u32)
        ensures
            r == self.thread_id,
    {
        self.thread_id
    }

    pub fn process_id(&self) -> (r: u32)
        ensures
            r == self.process_id,
    {
        self.process_id
    }

    pub fn timestamp(&self) -> (r: i64)
        ensures
            r == self.timestamp,
    {
        self.timestamp
    }

    pub fn provider_id(&self) -> (r: &Guid)
        ensures
            *r == self.provider_id,
    {
        &self.provider_id
    }

    pub fn event_descriptor(&self) -> (r: EventDescriptor)
        ensures
            r == self.event_descriptor,
    {
        self.event_descriptor
    }

    pub fn elapsed_execution_time(&self) -> (r: ElapsedExecutionTime)
        ensures
            r == (if self.flags & EVENT_HEADER_FLAG_PRIVATE_SESSION != 0 {
                ElapsedExecutionTime::Processor(self.processor_time)
            } else {
                ElapsedExecutionTime::UserKernel {
                    user: (self.processor_time / 0x1_0000_0000) as u32,
                    kernel: (self.processor_time % 0x1_0000_0000) as u32,
                }
            }),
    {
        if self.flags & EVENT_HEADER_FLAG_PRIVATE_SESSION != 0 {
            ElapsedExecutionTime::Processor(self.processor_time)
        } else {
            ElapsedExecutionTime::UserKernel {
                user: (self.processor_time / 0x1_0000_0000) as u32,
                kernel: (self.processor_time % 0x1_0000_0000) as u32,
            }
        }
    }

    pub fn activity_id(&self) -> (r: &Guid)
        ensures
            *r == self.activity_id,
    {
        &self.activity_id
    }
}

/// A header detached from its record, with its time split out.
#[derive(Clone, Copy, Debug, PartialEq, Eq, Structural)]
pub struct HeaderOwned {
    pub size: u16,
    pub header_type: u16,
    pub flags: u16,
    pub event_property: u16,
    pub thread_id: u32,
    pub process_id: u32,
    pub timestamp: i64,
    pub provider_id: Guid,
    pub event_descriptor: EventDescriptorOwned,
    pub elapsed_execution_time: ElapsedExecutionTime,
    pub activity_id: Guid,
}

impl HeaderOwned {
    pub fn from_header(h: &Header) -> (r: HeaderOwned)
        ensures
            r.size == h.size,
            r.header_type == h.header_type,
            r.flags == h.flags,
            r.event_property == h.event_property,
            r.thread_id == h.thread_id,
            r.process_id == h.process_id,
            r.timestamp == h.timestamp,
            r.provider_id == h.provider_id,
            r.event_descriptor == (EventDescriptorOwned {
                id: h.event_descriptor.id,
                version: h.event_descriptor.version,
                channel: h.event_descriptor.channel,
                level: h.event_descriptor.level,
                opcode: h.event_descriptor.opcode,
                task: h.event_descriptor.task,
                keyword: h.event_descriptor.keyword,
            }),
            r.elapsed_execution_time == (if h.flags & EVENT_HEADER_FLAG_PRIVATE_SESSION != 0 {
                ElapsedExecutionTime::Processor(h.processor_time)
            } else {
                ElapsedExecutionTime::UserKernel {
                    user: (h.processor_time / 0x1_0000_0000) as u32,
                    kernel: (h.processor_time % 0x1_0000_0000) as u32,
                }
            }),
            r.activity_id == h.activity_id,
    {
        let d = h.event_descriptor;
        HeaderOwned {
            size: h.size,
            header_type: h.header_type,
            flags: h.flags,
            event_property: h.event_property,
            thread_id: h.thread_id,
            process_id: h.process_id,
            timestamp: h.timestamp,
            provider_id: h.provider_id,
            event_descriptor: EventDescriptorOwned {
                id: d.id,
                version: d.version,
                channel: d.channel,
                level: d.level,
                opcode: d.opcode,
                task: d.task,
                keyword: d.keyword,
            },
            elapsed_execution_time: h.elapsed_execution_time(),
            activity_id: h.activity_id,
        }
    }
}

/// The flags of a header, with the bits that have no meaning cleared.
#[derive(Clone, Copy, Debug, PartialEq, Eq, Structural)]
pub struct EventHeaderFlags {
    pub bits: u16,
}

impl EventHeaderFlags {
    pub fn from_bits_truncate(bits: u16) -> (r: EventHeaderFlags)
        ensures
            r.bits == bits & EVENT_HEADER_FLAGS_KNOWN,
    {
        EventHeaderFlags { bits: bits & EVENT_HEADER_FLAGS_KNOWN }
    }

    pub fn bits(&self) -> (r: u16)
        ensures
            r == self.bits,
    {
        self.bits
    }

    pub fn contains(&self, other: EventHeaderFlags) -> (r: bool)
        ensures
            r == (self.bits & other.bits == other.bits),
    {
        self.bits & other.bits == other.bits
    }
}

/// A view of the fields of a header that identify where an event came from.
#[derive(Debug)]
pub struct EventHeader<'a> {
    pub data: &'a Header,
}

impl<'a> EventHeader<'a> {
    pub fn thread_id(&self) -> (r: u32)
        ensures
            r == self.data.thread_id,
    {
        self.data.thread_id
    }

    pub fn process_id(&self) -> (r: u32)
        ensures
            r == self.data.process_id,
    {
        self.data.process_id
    }

    pub fn timestamp(&self) -> (r: i64)
        ensures
            r == self.data.timestamp,
    {
        self.data.timestamp
    }

    pub fn flags(&self) -> (r: EventHeaderFlags)
        ensures
            r.bits == self.data.flags & EVENT_HEADER_FLAGS_KNOWN,
    {
        EventHeaderFlags::from_bits_truncate(self.data.flags)
    }

    pub fn provider_id(&self) -> (r: Guid)
        ensures
            r == self.data.provider_id,
    {
        self.data.provider_id
    }
}

/// One raw event as delivered: its header and its payload bytes.
#[derive(Debug)]
pub struct EventRecord {
    pub header: Header,
    pub user_data: Vec<u8>,
}

impl EventRecord {
    /// Pointer width of the producer in bytes: 4 or 8 by the header flags, 8 when
    /// neither flag is set.
    pub fn pointer_size(&self) -> (r: usize)
        ensures
            r == (if self.header.flags & EVENT_HEADER_FLAG_32_BIT_HEADER != 0 {
                4usize
            } else {
                8usize
            }),
    {
        if self.header.flags & EVENT_HEADER_FLAG_32_BIT_HEADER != 0 {
            4
        } else {
            8
        }
    }

    pub fn is_wpp_event(&self) -> (r: bool)
        ensures
            r == (self.header.flags & EVENT_HEADER_FLAG_TRACE_MESSAGE != 0),
    {
        self.header.flags & EVENT_HEADER_FLAG_TRACE_MESSAGE != 0
    }

    pub fn is_string_event(&self) -> (r: bool)
        ensures
            r == (self.header.flags & EVENT_HEADER_FLAG_STRING_ONLY != 0),
    {
        self.header.flags & EVENT_HEADER_FLAG_STRING_ONLY != 0
    }

    pub fn provider_guid(&self) -> (r: Guid)
        ensures
            r == self.header.provider_id,
    {
        self.header.provider_id
    }

    pub fn event_id(&self) -> (r: u16)
        ensures
            r == self.header.event_descriptor.id,
    {
        self.header.event_descriptor.id
    }

    pub fn version(&self) -> (r: u8)
        ensures
            r == self.header.event_descriptor.version,
    {
        self.header.event_descriptor.version
    }

    pub fn userdata(&self) -> (r: &[u8])
        ensures
            r@ == self.user_data@,
    {
        self.user_data.as_slice()
    }
}

/// A decoded event: its header, and its payload as a string or as decoded fields.
#[derive(Debug)]
pub struct Event<'a> {
    pub header: Header,
    pub data: StringOrStruct<'a>,
}

impl<'a> Event<'a> {
    /// Decodes one event by its kind: a trace-message event is not supported; a
    /// string-only event is its payload as UTF-16 text; any other is decoded against
    /// `schema`. Returns the event and the bytes left over.
    pub fn parse(event_record: &'a EventRecord, schema: &EventInfo) -> (r: Result<
        (Event<'a>, &'a [u8]),
        ParseError,
    >)
        ensures
            event_record.header.flags & EVENT_HEADER_FLAG_TRACE_MESSAGE != 0 ==> r matches Err(
                ParseError::NotImplemented,
            ),
            event_record.header.flags & EVENT_HEADER_FLAG_TRACE_MESSAGE == 0
                && event_record.header.flags & EVENT_HEADER_FLAG_STRING_ONLY != 0 ==> {
                if event_record.user_data@.len() % 2 != 0 {
                    r matches Err(ParseError::DataLeftAfterDecoding)
                } else if utf16_text(crate::compound::units_of(event_record.user_data@)) is None {
                    r matches Err(ParseError::Utf16Decode)
                } else {
                    r matches Ok((ev, rest)) && ev.header == event_record.header && rest@.len()
                        == 0 && (ev.data matches StringOrStruct::String(t) && t.data@
                        == event_record.user_data@)
                }
            },
            event_record.header.flags & EVENT_HEADER_FLAG_TRACE_MESSAGE == 0
                && event_record.header.flags & EVENT_HEADER_FLAG_STRING_ONLY == 0 ==> match group_step(
                schema.properties,
                event_record.user_data@,
                Map::empty(),
                schema.properties.fields@.len(),
            ) {
                Err(e) => r == Err::<(Event<'a>, &'a [u8]), ParseError>(e),
                Ok((n, _)) => (r matches Ok((ev, rest)) && ev.header == event_record.header
                    && rest@ == event_record.user_data@.subrange(
                    n,
                    event_record.user_data@.len() as int,
                ) && (ev.data matches StringOrStruct::Struct(s) && group_decoded(
                    schema.properties,
                    event_record.user_data@,
                    Map::empty(),
                    s,
                ))),
            },
    {
        if event_record.is_wpp_event() {
            return Err(ParseError::NotImplemented);
        }
        if event_record.is_string_event() {
            let userdata = event_record.userdata();
            if userdata.len() % 2 != 0 {
                return Err(ParseError::DataLeftAfterDecoding);
            }
            let text = RawU16StringRef::new(userdata);
            let units = text.to_vec();
            if decode_utf16(units.as_slice()).is_none() {
                return Err(ParseError::Utf16Decode);
            }
            let rest = &userdata[userdata.len()..userdata.len()];
            return Ok((Event { header: event_record.header, data: StringOrStruct::String(text) }, rest));
        }
        schema.decode(event_record)
    }
}

} // verus!
