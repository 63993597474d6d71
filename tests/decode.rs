use std::collections::HashMap;
use std::mem::size_of;

use etw::compound::StructOrValue;
use etw::error::ParseError;
use etw::in_type::InType;
use etw::in_value::InValue;
use etw::out_type::OutType;
use etw::schema::{PropertyInfo, PropertyNestedInfo, PropertyStructInfo, PropertyValue, PropertyValueInfo};
use etw::value::Value;

fn leaf(length: PropertyValue, count: PropertyValue, is_array: bool, in_type: InType, out_type: OutType, handle: Option<usize>) -> PropertyInfo {
    PropertyInfo {
        length,
        count,
        is_array,
        value: PropertyNestedInfo::Value(
            "test".to_string(),
            PropertyValueInfo { in_type, out_type, map_name: None, handle },
        ),
    }
}

#[test]
fn test_decode_u8_scalar() {
    let data = [42u8];
    let decoder = PropertyInfo {
        length: PropertyValue::Constant(1),
        count: PropertyValue::Constant(1),
        is_array: false,
        value: PropertyNestedInfo::Value(
            "test".to_string(),
            PropertyValueInfo {
                in_type: InType::UInt8,
                out_type: OutType::Byte,
                map_name: None,
                handle: None,
            },
        ),
    };
    let mut length_count_values: HashMap<usize, usize> = std::collections::HashMap::new();
    let (value, remaining) = decoder.decode(&data, &mut length_count_values).unwrap();
    assert_eq!(remaining, &[] as &[u8]);
    let StructOrValue::Value(Value {
        raw,
        is_array,
        value: InValue::UInt8(val),
    }) = value
    else {
        panic!("Expected UInt8, got {:?}", value);
    };
    assert_eq!(val.get(0), Some(42));
    assert_eq!(val.len(), 1);
    assert_eq!(raw, &data);
    assert_eq!(is_array, false);
}

#[test]
fn test_decode_u32_scalar() {
    let data = [0x40u8, 0x41u8, 0x42u8, 0x43u8];
    let decoder = PropertyInfo {
        length: PropertyValue::Constant(size_of::<u32>()),
        count: PropertyValue::Constant(1),
        is_array: false,
        value: PropertyNestedInfo::Value(
            "test".to_string(),
            PropertyValueInfo {
                in_type: InType::UInt32,
                out_type: OutType::Int,
                map_name: None,
                handle: None,
            },
        ),
    };
    let mut length_count_values: HashMap<usize, usize> = std::collections::HashMap::new();
    let (value, remaining) = decoder.decode(&data, &mut length_count_values).unwrap();
    assert_eq!(remaining, &[] as &[u8]);
    let StructOrValue::Value(Value {
        raw,
        is_array,
        value: InValue::UInt32(val),
    }) = value
    else {
        panic!("Expected UInt32, got {:?}", value);
    };
    assert_eq!(val.get(0), Some(0x43424140));
    assert_eq!(val.len(), 1);
    assert_eq!(raw, &data);
    assert_eq!(is_array, false);
}

#[test]
fn test_decode_u32_array() {
    let data = [
        0x40u8, 0x41u8, 0x42u8, 0x43u8, 0x30u8, 0x31u8, 0x32u8, 0x33u8, 0x20u8, 0x21u8, 0x22u8,
        0x23u8,
    ];
    let decoder = PropertyInfo {
        length: PropertyValue::Constant(size_of::<u32>()),
        count: PropertyValue::Constant(3),
        is_array: false,
        value: PropertyNestedInfo::Value(
            "test".to_string(),
            PropertyValueInfo {
                in_type: InType::UInt32,
                out_type: OutType::Int,
                map_name: None,
                handle: None,
            },
        ),
    };
    let mut length_count_values: HashMap<usize, usize> = std::collections::HashMap::new();
    let (value, remaining) = decoder.decode(&data, &mut length_count_values).unwrap();
    assert_eq!(remaining, &[] as &[u8]);
    let StructOrValue::Value(Value {
        raw,
        is_array,
        value: InValue::UInt32(val),
    }) = value
    else {
        panic!("Expected UInt32, got {:?}", value);
    };
    assert_eq!(val.get(0), Some(0x43424140));
    assert_eq!(val.get(1), Some(0x33323130));
    assert_eq!(val.get(2), Some(0x23222120));
    assert_eq!(val.len(), 3);
    assert_eq!(raw, &data);
    assert_eq!(is_array, false);
}

#[test]
fn test_u32_scalar_wrong_size() {
    let data = [0x40u8, 0x41u8, 0x42u8, 0x43u8];
    let decoder = PropertyInfo {
        length: PropertyValue::Constant(2),
        count: PropertyValue::Constant(1),
        is_array: false,
        value: PropertyNestedInfo::Value(
            "test".to_string(),
            PropertyValueInfo {
                in_type: InType::UInt32,
                out_type: OutType::Int,
                map_name: None,
                handle: None,
            },
        ),
    };
    let mut length_count_values: HashMap<usize, usize> = std::collections::HashMap::new();
    let ParseError::UnexpectedSize =
        decoder.decode(&data, &mut length_count_values).unwrap_err()
    else {
        panic!("Expected ParseError::UnexpectedSize");
    };
}

#[test]
fn wrong_length_fails_whatever_the_bytes() {
    for data in [vec![], vec![1u8, 2], vec![0u8; 64]] {
        let f = leaf(PropertyValue::Constant(2), PropertyValue::Constant(3), false, InType::UInt32, OutType::Int, None);
        let mut table = HashMap::new();
        assert!(matches!(f.decode(&data, &mut table), Err(ParseError::UnexpectedSize)));
    }
}

#[test]
fn fixed_width_leaves_the_rest() {
    let data = [1u8, 0, 2, 0, 3, 0, 9, 9, 9];
    let f = leaf(PropertyValue::Constant(2), PropertyValue::Constant(3), true, InType::UInt16, OutType::UnsignedShort, None);
    let mut table = HashMap::new();
    let (value, rest) = f.decode(&data, &mut table).unwrap();
    assert_eq!(rest, &[9u8, 9, 9]);
    let StructOrValue::Value(v) = value else { panic!("expected a value") };
    let InValue::UInt16(r) = v.value else { panic!("expected UInt16") };
    assert_eq!((r.get(0), r.get(1), r.get(2), r.get(3)), (Some(1), Some(2), Some(3), None));
    assert!(v.is_array);
}

#[test]
fn premature_end_of_fixed_width() {
    let data = [1u8, 2, 3];
    let f = leaf(PropertyValue::Constant(4), PropertyValue::Constant(1), false, InType::Int32, OutType::Int, None);
    let mut table = HashMap::new();
    assert!(matches!(f.decode(&data, &mut table), Err(ParseError::PrematureEndOfData)));
}

#[test]
fn signed_and_wide_values() {
    let data = [0xffu8, 0xfe, 0xff, 0xff, 0xff, 0xff, 0xff, 0xff, 0xff];
    let (v, rest) = Value::parse(&data, InType::Int64, 8, 1, false).unwrap();
    let InValue::Int64(r) = v.value else { panic!("expected Int64") };
    assert_eq!(r.get(0), Some(-257));
    assert_eq!(rest, &[0xffu8]);
    let (v, _) = Value::parse(&data, InType::Int8, 1, 2, false).unwrap();
    let InValue::Int8(r) = v.value else { panic!("expected Int8") };
    assert_eq!((r.get(0), r.get(1)), (Some(-1), Some(-2)));
}

#[test]
fn count_from_published_sibling() {
    let data = [5u8, 1, 0, 2, 0, 3, 0, 4, 0, 5, 0, 0xaa];
    let group = PropertyStructInfo {
        fields: vec![
            leaf(PropertyValue::Constant(1), PropertyValue::Constant(1), false, InType::UInt8, OutType::UnsignedByte, Some(0)),
            leaf(PropertyValue::Constant(2), PropertyValue::Reference(0), true, InType::UInt16, OutType::UnsignedShort, None),
        ],
    };
    let mut table = HashMap::new();
    let (s, rest) = group.decode(&data, &mut table).unwrap();
    assert_eq!(rest, &[0xaau8]);
    assert_eq!(table.get(&0), Some(&5));
    let StructOrValue::Value(b) = &s.values[1] else { panic!("expected a value") };
    assert_eq!(b.raw.len(), 10);
    let InValue::UInt16(r) = &b.value else { panic!("expected UInt16") };
    assert_eq!(r.get(4), Some(5));
}

#[test]
fn reference_to_later_field_fails() {
    let data = [2u8, 0, 7, 7];
    let group = PropertyStructInfo {
        fields: vec![
            leaf(PropertyValue::Constant(1), PropertyValue::Reference(1), true, InType::UInt8, OutType::UnsignedByte, None),
            leaf(PropertyValue::Constant(1), PropertyValue::Constant(1), false, InType::UInt8, OutType::UnsignedByte, Some(1)),
        ],
    };
    let mut table = HashMap::new();
    assert!(matches!(group.decode(&data, &mut table), Err(ParseError::InvalidPropertyReference(1))));
    assert!(table.is_empty());
}

#[test]
fn published_field_must_be_scalar() {
    let data = [1u8, 2];
    let f = leaf(PropertyValue::Constant(1), PropertyValue::Constant(2), false, InType::UInt8, OutType::UnsignedByte, Some(0));
    let mut table = HashMap::new();
    assert!(matches!(f.decode(&data, &mut table), Err(ParseError::PropertySizeNotAScalar)));
    assert!(table.is_empty());
    let f = leaf(PropertyValue::Constant(1), PropertyValue::Constant(1), false, InType::Int8, OutType::Byte, Some(0));
    assert!(matches!(f.decode(&data, &mut table), Err(ParseError::InvalidPropertySizeType(InType::Int8))));
}

#[test]
fn struct_field_repeats_its_group() {
    let data = [1u8, 2, 3, 4, 5, 6, 7];
    let inner = PropertyStructInfo {
        fields: vec![
            leaf(PropertyValue::Constant(1), PropertyValue::Constant(1), false, InType::UInt8, OutType::UnsignedByte, None),
            leaf(PropertyValue::Constant(1), PropertyValue::Constant(1), false, InType::UInt8, OutType::UnsignedByte, None),
        ],
    };
    let f = PropertyInfo {
        length: PropertyValue::Constant(0),
        count: PropertyValue::Constant(3),
        is_array: true,
        value: PropertyNestedInfo::Struct("s".to_string(), inner),
    };
    let mut table = HashMap::new();
    let (v, rest) = f.decode(&data, &mut table).unwrap();
    assert_eq!(rest, &[7u8]);
    let StructOrValue::Struct(a) = v else { panic!("expected structs") };
    assert_eq!(a.values.len(), 3);
    assert!(a.is_array);
    let StructOrValue::Value(x) = &a.values[2].values[1] else { panic!("expected a value") };
    assert_eq!(x.raw, &[6u8]);
}

#[test]
fn unknown_type_fails() {
    let data = [0u8; 4];
    assert!(matches!(Value::parse(&data, InType::HexDump, 0, 1, false), Err(ParseError::UnknownInType(InType::HexDump))));
    assert!(matches!(Value::parse(&data, InType::Unknown(999), 0, 1, false), Err(ParseError::UnknownInType(InType::Unknown(999)))));
}
