use std::collections::HashSet;

use etw::cache::SchemaCache;
use etw::compound::{StringOrStruct, StructOrValue};
use etw::error::ParseError;
use etw::event::{Event, EventDescriptor, EventRecord, Header};
use etw::guid::Guid;
use etw::in_type::InType;
use etw::out_type::OutType;
use etw::schema::{EventInfo, PropertyNestedInfo, PropertyStructInfo, PropertyValue, StringOrIntegerMap};
use etw::tdh::{DecodingSource, EventMapEntry, EventMapInfo, EventPropertyRaw, TraceEventInfo};

fn utf16z(s: &str) -> Vec<u8> {
    let mut v: Vec<u8> = s.encode_utf16().flat_map(|u| u.to_le_bytes()).collect();
    v.extend_from_slice(&[0, 0]);
    v
}

fn raw(flags: u32, name_offset: u32, in_type: u16, count: u16, length: u16) -> EventPropertyRaw {
    EventPropertyRaw {
        flags,
        name_offset,
        struct_start_index: 0,
        num_of_struct_members: 0,
        in_type,
        out_type: 0,
        map_name_offset: 0,
        count,
        length,
    }
}

fn descriptor(id: u16) -> EventDescriptor {
    EventDescriptor { id, version: 1, channel: 0, level: 4, opcode: 0, task: 0, keyword: 0 }
}

/// Two top-level fields: "Count" (u8) and "Items" (u16 array counted by field 0).
fn counted_schema() -> TraceEventInfo {
    let mut buffer = vec![0u8; 4];
    let count_name = buffer.len() as u32;
    buffer.extend(utf16z("Count"));
    let items_name = buffer.len() as u32;
    buffer.extend(utf16z("Items"));
    TraceEventInfo {
        provider_guid: Guid::from_u128(0x1234),
        event_guid: Guid::from_u128(0),
        event_descriptor: descriptor(7),
        decoding_source: DecodingSource::XMLFile,
        provider_name_offset: 0,
        event_name_offset: 0,
        top_level_property_count: 2,
        properties: vec![raw(0, count_name, 4, 1, 1), raw(0x4, items_name, 6, 0, 2)],
        buffer,
    }
}

fn header(provider: u128, id: u16, flags: u16) -> Header {
    Header {
        size: 0,
        header_type: 0,
        flags,
        event_property: 0,
        thread_id: 1,
        process_id: 2,
        timestamp: 3,
        provider_id: Guid::from_u128(provider),
        event_descriptor: descriptor(id),
        processor_time: 0x0000_0002_0000_0001,
        activity_id: Guid::from_u128(9),
    }
}

#[test]
fn schema_from_descriptors() {
    let info = EventInfo::parse(&counted_schema(), None).unwrap();
    assert_eq!(info.event_id, 7);
    assert_eq!(info.event_version, 1);
    assert_eq!(info.provider_guid, Guid::from_u128(0x1234));
    let fields = &info.properties.fields;
    assert_eq!(fields.len(), 2);
    assert_eq!(fields[0].value.name(), "Count");
    assert_eq!(fields[1].value.name(), "Items");
    assert_eq!(fields[1].count, PropertyValue::Reference(0));
    assert!(fields[1].is_array);
    let PropertyNestedInfo::Value(_, a) = &fields[0].value else { panic!("expected a leaf") };
    assert_eq!(a.handle, Some(0));
    assert_eq!(a.in_type, InType::UInt8);
    let PropertyNestedInfo::Value(_, b) = &fields[1].value else { panic!("expected a leaf") };
    assert_eq!(b.handle, None);
    assert_eq!(b.in_type, InType::UInt16);
}

#[test]
fn decode_reports_leftover_bytes() {
    let info = EventInfo::parse(&counted_schema(), None).unwrap();
    let record = EventRecord { header: header(0x1234, 7, 0), user_data: vec![5, 1, 0, 2, 0, 3, 0, 4, 0, 5, 0, 0xde, 0xad] };
    let (event, rest) = info.decode(&record).unwrap();
    assert_eq!(rest, &[0xde, 0xad]);
    assert_eq!(event.header, record.header);
    let StringOrStruct::Struct(s) = event.data else { panic!("expected fields") };
    let StructOrValue::Value(items) = &s.values[1] else { panic!("expected a value") };
    assert_eq!(items.raw.len(), 10);
}

#[test]
fn decode_fails_on_short_payload() {
    let info = EventInfo::parse(&counted_schema(), None).unwrap();
    let record = EventRecord { header: header(0x1234, 7, 0), user_data: vec![5, 1, 0] };
    assert!(matches!(info.decode(&record), Err(ParseError::PrematureEndOfData)));
}

#[test]
fn unreadable_name_gets_a_fallback() {
    let mut tei = counted_schema();
    tei.properties[1].name_offset = 0;
    tei.buffer.extend_from_slice(&[0x00, 0xd8, 0, 0]);
    tei.properties[0].name_offset = (tei.buffer.len() - 4) as u32;
    let info = EventInfo::parse(&tei, None).unwrap();
    assert_eq!(info.properties.fields[0].value.name(), "_unknown_property_0");
    assert_eq!(info.properties.fields[1].value.name(), "_unknown_property_1");
}

#[test]
fn nested_struct_schema() {
    let mut tei = counted_schema();
    tei.top_level_property_count = 1;
    let mut s = raw(0x1 | 0x20, 0, 0, 2, 0);
    s.struct_start_index = 1;
    s.num_of_struct_members = 2;
    tei.properties = vec![s, raw(0, 0, 4, 1, 1), raw(0, 0, 4, 1, 1)];
    let info = EventInfo::parse(&tei, None).unwrap();
    let PropertyNestedInfo::Struct(_, g) = &info.properties.fields[0].value else { panic!("expected a struct") };
    assert_eq!(g.fields.len(), 2);
    let record = EventRecord { header: header(1, 1, 0), user_data: vec![1, 2, 3, 4] };
    let (event, rest) = info.decode(&record).unwrap();
    assert!(rest.is_empty());
    let StringOrStruct::Struct(top) = event.data else { panic!("expected fields") };
    let StructOrValue::Struct(a) = &top.values[0] else { panic!("expected structs") };
    assert_eq!(a.values.len(), 2);
}

#[test]
fn schema_errors() {
    let mut tei = counted_schema();
    tei.top_level_property_count = 3;
    assert!(matches!(EventInfo::parse(&tei, None), Err(ParseError::IndexOutOfBounds { index: 2, count: 2 })));
    let mut tei = counted_schema();
    tei.properties[0].flags = 0x80;
    assert!(matches!(EventInfo::parse(&tei, None), Err(ParseError::NotImplemented)));
    let mut tei = counted_schema();
    tei.properties[0].flags = 0x1;
    tei.properties[0].num_of_struct_members = 1;
    tei.properties[0].struct_start_index = 0;
    assert!(EventInfo::parse(&tei, None).is_err());
    let refs = HashSet::new();
    let g = PropertyStructInfo::parse(&counted_schema(), &refs, 1, 1).unwrap();
    assert!(g.fields.is_empty());
}

#[test]
fn integer_value_map() {
    let mut tei = counted_schema();
    let map_name = tei.buffer.len() as u32;
    tei.buffer.extend(utf16z("Colors"));
    tei.properties[0].map_name_offset = map_name;
    let mut buffer = vec![0u8; 2];
    let red = buffer.len() as u32;
    buffer.extend(utf16z("Red"));
    let blue = buffer.len() as u32;
    buffer.extend(utf16z("Blue"));
    let map = EventMapInfo {
        flag: 1,
        map_entry_value_type: 0,
        format_string_offset: 0,
        entries: vec![EventMapEntry { output_offset: red, value: 1 }, EventMapEntry { output_offset: blue, value: 2 }],
        buffer,
    };
    let (name, m) = StringOrIntegerMap::parse(&tei, &tei.properties[0], &map).unwrap();
    assert_eq!(name, "Colors");
    let StringOrIntegerMap::Integer(h) = &m else { panic!("expected an integer map") };
    assert_eq!(h.get(&2).map(|s| s.as_str()), Some("Blue"));
    assert_eq!(h.len(), 2);
    let info = EventInfo::parse(&tei, Some(&vec![Some(map), None])).unwrap();
    assert!(info.maps.contains_key(&"Colors".to_string()));
    assert_eq!(info.maps.len(), 1);
    let plain = EventInfo::parse(&tei, None).unwrap();
    assert_eq!(plain.maps.len(), 0);
}

#[test]
fn value_map_errors() {
    let tei = counted_schema();
    let map = EventMapInfo { flag: 4, map_entry_value_type: 0, format_string_offset: 0, entries: vec![], buffer: vec![] };
    assert!(matches!(StringOrIntegerMap::map_name(&tei, &tei.properties[0]), Err(ParseError::NoMapName)));
    let mut p = tei.properties[0];
    p.flags = 0x1;
    assert!(matches!(StringOrIntegerMap::map_name(&tei, &p), Err(ParseError::InvalidType)));
    let mut p = tei.properties[0];
    p.map_name_offset = 4;
    p.in_type = 3;
    assert!(matches!(StringOrIntegerMap::map_name(&tei, &p), Err(ParseError::InvalidType)));
    p.in_type = 4;
    assert!(matches!(StringOrIntegerMap::parse(&tei, &p, &map), Err(ParseError::NotImplemented)));
}

#[test]
fn cache_builds_once_per_key() {
    let mut cache = SchemaCache::new();
    let record = EventRecord { header: header(0x1234, 7, 0), user_data: vec![] };
    assert!(cache.get(Guid::from_u128(0x1234), 7).is_none());
    let first = cache.get_from_event_record(&record, &counted_schema(), None).unwrap();
    assert_eq!(cache.len(), 1);
    let mut other = counted_schema();
    other.top_level_property_count = 1;
    let again = cache.get_from_event_record(&record, &other, None).unwrap();
    assert_eq!(again.properties.fields.len(), 2);
    assert_eq!(first.properties.fields.len(), 2);
    assert_eq!(cache.len(), 1);
    assert!(cache.get(Guid::from_u128(0x1234), 7).is_some());
    let mut broken = counted_schema();
    broken.top_level_property_count = 5;
    let record2 = EventRecord { header: header(0x1234, 8, 0), user_data: vec![] };
    assert!(cache.get_from_event_record(&record2, &broken, None).is_err());
    assert_eq!(cache.len(), 1);
}

#[test]
fn event_kinds() {
    let info = EventInfo::parse(&counted_schema(), None).unwrap();
    let wpp = EventRecord { header: header(1, 7, 0x0008), user_data: vec![] };
    assert!(matches!(Event::parse(&wpp, &info), Err(ParseError::NotImplemented)));
    let text = EventRecord { header: header(1, 7, 0x0004), user_data: utf16z("hi") };
    let (event, rest) = Event::parse(&text, &info).unwrap();
    assert!(rest.is_empty());
    let StringOrStruct::String(s) = event.data else { panic!("expected a string") };
    assert_eq!(s.to_string().unwrap(), "hi");
    let odd = EventRecord { header: header(1, 7, 0x0004), user_data: vec![b'a', 0, 0] };
    assert!(matches!(Event::parse(&odd, &info), Err(ParseError::DataLeftAfterDecoding)));
    let plain = EventRecord { header: header(1, 7, 0x0040), user_data: vec![0] };
    let (_, rest) = Event::parse(&plain, &info).unwrap();
    assert!(rest.is_empty());
    assert_eq!(plain.pointer_size(), 8);
    assert!(!plain.is_wpp_event());
}

#[test]
fn header_accessors() {
    let h = header(5, 9, 0);
    assert_eq!(h.elapsed_execution_time(), etw::event::ElapsedExecutionTime::UserKernel { user: 2, kernel: 1 });
    let p = header(5, 9, 0x0002);
    assert_eq!(p.elapsed_execution_time(), etw::event::ElapsedExecutionTime::Processor(0x0000_0002_0000_0001));
    let r = EventRecord { header: header(5, 9, 0x0020), user_data: vec![] };
    assert_eq!(r.pointer_size(), 4);
    assert_eq!(r.event_id(), 9);
    assert_eq!(r.version(), 1);
    let flags = etw::event::EventHeader { data: &r.header }.flags();
    assert_eq!(flags.bits(), 0x0020);
    assert_eq!(etw::event::EventHeaderFlags::from_bits_truncate(0xfe00).bits(), 0);
    let _ = OutType::Null;
}

#[test]
fn struct_members_before_the_struct() {
    let mut tei = counted_schema();
    tei.top_level_property_count = 2;
    let mut s = raw(0x1, 0, 0, 1, 0);
    s.struct_start_index = 0;
    s.num_of_struct_members = 1;
    tei.properties = vec![raw(0, 0, 4, 1, 1), s];
    let info = EventInfo::parse(&tei, None).unwrap();
    let PropertyNestedInfo::Struct(_, g) = &info.properties.fields[1].value else { panic!("expected a struct") };
    assert_eq!(g.fields.len(), 1);
}

#[test]
fn self_containing_struct_is_refused() {
    let mut tei = counted_schema();
    tei.top_level_property_count = 1;
    let mut s = raw(0x1, 0, 0, 1, 0);
    s.struct_start_index = 0;
    s.num_of_struct_members = 1;
    tei.properties = vec![s];
    assert!(matches!(EventInfo::parse(&tei, None), Err(ParseError::StructCycle(0))));
}

#[test]
fn array_field_cannot_have_a_map() {
    let tei = counted_schema();
    let mut p = tei.properties[0];
    p.map_name_offset = 4;
    p.flags = 0x20;
    assert!(matches!(StringOrIntegerMap::map_name(&tei, &p), Err(ParseError::InvalidType)));
}

#[test]
fn later_map_entries_win() {
    let mut tei = counted_schema();
    let map_name = tei.buffer.len() as u32;
    tei.buffer.extend(utf16z("Flags"));
    tei.properties[0].map_name_offset = map_name;
    let mut buffer = vec![0u8; 2];
    let a = buffer.len() as u32;
    buffer.extend(utf16z("A"));
    let b = buffer.len() as u32;
    buffer.extend(utf16z("B"));
    let entries = vec![EventMapEntry { output_offset: a, value: 1 }, EventMapEntry { output_offset: b, value: 1 }];
    let ints = EventMapInfo { flag: 1, map_entry_value_type: 0, format_string_offset: 0, entries: entries.clone(), buffer: buffer.clone() };
    let (_, m) = StringOrIntegerMap::parse(&tei, &tei.properties[0], &ints).unwrap();
    let StringOrIntegerMap::Integer(h) = &m else { panic!("expected an integer map") };
    assert_eq!(h.get(&1).map(|s| s.as_str()), Some("B"));
    let strs = EventMapInfo {
        flag: 2,
        map_entry_value_type: 1,
        format_string_offset: 0,
        entries: vec![EventMapEntry { output_offset: a, value: a }, EventMapEntry { output_offset: b, value: a }],
        buffer,
    };
    let (_, m) = StringOrIntegerMap::parse(&tei, &tei.properties[0], &strs).unwrap();
    let StringOrIntegerMap::String(t) = &m else { panic!("expected a string map") };
    assert_eq!(t.len(), 1);
    assert_eq!(t.get(&"A".to_string()).map(|s| s.as_str()), Some("B"));
}
