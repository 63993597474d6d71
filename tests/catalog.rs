use etw::compound::RawU16StringRef;
use etw::event::EventDescriptor;
use etw::guid::Guid;
use etw::provider::{ProviderBuilder, TraceLevel, TRACE_LEVEL_VERBOSE};
use etw::tdh::{
    EventFieldType, ProviderEventDescriptors, ProviderFieldInfo, ProviderFieldInformation,
    Providers, SchemaSource, TraceProviderInfo,
};

fn descriptor(id: u16, version: u8, task: u16) -> EventDescriptor {
    EventDescriptor { id, version, channel: 0, level: 0, opcode: 0, task, keyword: 0 }
}

#[test]
fn provider_builder_keeps_settings() {
    let id = Guid::from_u128(0xabc);
    let p = ProviderBuilder::from_guid(&id).any(0xf0).all(0x0f).level(TraceLevel::from_u8(2)).build();
    assert_eq!(*p.id(), id);
    assert_eq!((p.any(), p.all(), p.level().value()), (0xf0, 0x0f, 2));
    let d = ProviderBuilder::from_guid(&id).build();
    assert_eq!((d.any(), d.all(), d.level().value()), (0, 0, TRACE_LEVEL_VERBOSE));
}

#[test]
fn first_descriptor_with_id_and_version() {
    let events = ProviderEventDescriptors {
        descriptors: vec![descriptor(1, 0, 10), descriptor(2, 1, 20), descriptor(2, 1, 30)],
        guid: Guid::from_u128(1),
    };
    assert_eq!(events.get_id_version(2, 1).map(|d| d.task), Some(20));
    assert!(events.get_id_version(2, 0).is_none());
    assert_eq!(events.len(), 3);
    assert!(events.get(3).is_none());
}

#[test]
fn listed_providers() {
    let mut buffer = vec![0u8; 2];
    buffer.extend_from_slice(&[b'P', 0, b'1', 0, 0, 0]);
    let providers = Providers {
        infos: vec![TraceProviderInfo { provider_guid: Guid::from_u128(5), schema_source: 1, provider_name_offset: 2 }],
        buffer,
    };
    let p = providers.provider(0).unwrap();
    assert_eq!(p.guid(), Guid::from_u128(5));
    assert_eq!(p.schema_source(), SchemaSource::WmiMof);
    assert_eq!(p.name(), Some(vec![b'P' as u16, b'1' as u16]));
    assert!(providers.provider(1).is_none());
    assert_eq!(SchemaSource::from_code(7).code(), 7);
}

#[test]
fn field_information() {
    let info = ProviderFieldInformation {
        fields: vec![ProviderFieldInfo { name_offset: 0, description_offset: 0, value: 0x80 }],
        buffer: vec![],
    };
    assert_eq!(info.iter()[0].value(), 0x80);
    assert_eq!(info.name(&info.fields[0]), None);
    assert_eq!(EventFieldType::TaskInformation.value(), 3);
}

#[test]
fn utf16_units_from_bytes() {
    let s = RawU16StringRef::new(&[0x41, 0, 0x3a, 0x26, 7]);
    assert_eq!(s.to_vec(), vec![0x41, 0x263a]);
    assert_eq!(s.to_string().unwrap(), "A\u{263a}");
    let bad = RawU16StringRef::new(&[0x00, 0xd8]);
    assert!(bad.to_string().is_err());
}
