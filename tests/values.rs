use etw::error::ParseError;
use etw::in_type::InType;
use etw::in_value::InValue;
use etw::misc::Sid;
use etw::strings::{parse_counted_string_array, parse_string_array, CountedEtwString, EtwString};
use etw::value::Value;

#[test]
fn null_terminated_utf16_strings() {
    let data = [b'h', 0, b'i', 0, 0, 0, b'x', 0, 0, 0, 7];
    let (strings, size, rest) = parse_string_array(&data, 0, 2, 2).unwrap();
    assert_eq!(strings.len(), 2);
    assert_eq!(strings[0].data, &data[0..6]);
    assert_eq!(strings[1].data, &data[6..10]);
    assert_eq!(size, 10);
    assert_eq!(rest, &[7u8]);
    assert!(strings[0].has_trailing_null());
    assert_eq!(strings[0].len(), 3);
}

#[test]
fn unterminated_string_runs_to_the_end() {
    let data = [b'a', b'b', b'c'];
    let (s, rest) = EtwString::parse(&data, 1);
    assert_eq!(s.data, &data[..]);
    assert!(rest.is_empty());
    assert!(!s.has_trailing_null());
    let odd = [b'a', 0, b'b'];
    let (s, rest) = EtwString::parse(&odd, 2);
    assert_eq!(s.data, &odd[0..2]);
    assert_eq!(rest, &[b'b']);
}

#[test]
fn null_terminated_strings_refuse_a_length() {
    let data = [0u8, 0];
    assert!(matches!(parse_string_array(&data, 2, 1, 2), Err(ParseError::UnexpectedSize)));
    assert!(matches!(Value::parse(&data, InType::AnsiString, 1, 1, false), Err(ParseError::UnexpectedSize)));
}

#[test]
fn ansi_strings_through_value() {
    let data = [b'o', b'k', 0, b'n', 0, 1, 2];
    let (v, rest) = Value::parse(&data, InType::AnsiString, 0, 2, true).unwrap();
    assert_eq!(v.raw, &data[0..5]);
    assert_eq!(rest, &[1u8, 2]);
    let InValue::AnsiString(s) = v.value else { panic!("expected strings") };
    assert_eq!(s[1].data, &[b'n', 0]);
}

#[test]
fn counted_strings() {
    let data = [2u8, 0, b'a', 0, b'b', 0, 1, 0, b'c', 0, 9];
    let (strings, size, rest) = parse_counted_string_array(&data, 0, 2, 2).unwrap();
    assert_eq!(strings[0].data, &[b'a', 0, b'b', 0]);
    assert_eq!(strings[0].len(), 2);
    assert_eq!(strings[1].data, &[b'c', 0]);
    assert_eq!(size, 10);
    assert_eq!(rest, &[9u8]);
    let ansi = [3u8, 0, b'x', b'y', b'z', 5];
    let (s, rest) = CountedEtwString::parse(&ansi, 1).unwrap();
    assert_eq!(s.data, b"xyz");
    assert_eq!(rest, &[5u8]);
}

#[test]
fn counted_string_too_short() {
    let data = [4u8, 0, b'a', 0];
    assert!(matches!(CountedEtwString::parse(&data, 2), Err(ParseError::PrematureEndOfData)));
    assert!(matches!(CountedEtwString::parse(&[1u8], 2), Err(ParseError::PrematureEndOfData)));
    assert!(matches!(Value::parse(&data, InType::ReversedCountedString, 0, 1, false), Err(ParseError::PrematureEndOfData)));
    assert!(matches!(Value::parse(&data, InType::CountedString, 2, 1, false), Err(ParseError::UnexpectedSize)));
}

#[test]
fn security_identifiers() {
    let mut data = vec![1u8, 2, 0, 0, 0, 0, 0, 5, 1, 0, 0, 0, 2, 0, 0, 0];
    data.push(0xee);
    let sid = Sid::new(&data).unwrap();
    assert_eq!(sid.size(), 16);
    assert!(sid.is_valid());
    let (v, rest) = Value::parse(&data, InType::Sid, 0, 1, false).unwrap();
    assert_eq!(v.raw.len(), 16);
    assert_eq!(rest, &[0xeeu8]);
    let bad = [2u8, 0, 0, 0, 0, 0, 0, 5];
    assert!(Sid::new(&bad).is_none());
    assert!(matches!(Value::parse(&bad, InType::Sid, 0, 1, false), Err(ParseError::InvalidSid)));
}

#[test]
fn binary_blobs() {
    let data = [1u8, 2, 3, 4, 5, 6, 7];
    let (v, rest) = Value::parse(&data, InType::Binary, 3, 2, true).unwrap();
    assert_eq!(rest, &[7u8]);
    let InValue::Binary(blobs) = v.value else { panic!("expected blobs") };
    assert_eq!(blobs, vec![&data[0..3], &data[3..6]]);
    assert!(matches!(Value::parse(&data, InType::Binary, 0, 2, true), Err(ParseError::UnexpectedSize)));
    assert!(matches!(Value::parse(&data, InType::Binary, 4, 2, true), Err(ParseError::PrematureEndOfData)));
}

#[test]
fn guid_and_times() {
    let mut data: Vec<u8> = (0u8..16).collect();
    data.extend_from_slice(&[0xe8, 0x07, 1, 0, 2, 0, 3, 0, 4, 0, 5, 0, 6, 0, 7, 0]);
    let (v, rest) = Value::parse(&data, InType::Guid, 16, 1, false).unwrap();
    let InValue::Guid(g) = v.value else { panic!("expected a guid") };
    let g = g.get(0).unwrap();
    assert_eq!(g.to_u128(), u128::from_le_bytes(data[0..16].try_into().unwrap()));
    assert_eq!(g.data1(), 0x0f0e0d0c);
    let (v, _) = Value::parse(rest, InType::SystemTime, 16, 1, false).unwrap();
    let InValue::SystemTime(t) = v.value else { panic!("expected a time") };
    let t = t.get(0).unwrap();
    assert_eq!((t.year, t.month, t.milliseconds), (2024, 1, 7));
    let (v, _) = Value::parse(&data, InType::FileTime, 8, 1, false).unwrap();
    let InValue::FileTime(f) = v.value else { panic!("expected a file time") };
    assert_eq!(f.get(0).unwrap().ticks(), u64::from_le_bytes(data[0..8].try_into().unwrap()));
}

#[test]
fn null_type_takes_nothing() {
    let data = [1u8, 2];
    let (v, rest) = Value::parse(&data, InType::Null, 0, 0, false).unwrap();
    assert!(v.raw.is_empty());
    assert_eq!(rest, &data[..]);
    assert_eq!(v.value.datatype(), InType::Null);
}

#[test]
fn type_codes_round_trip() {
    assert_eq!(InType::from(8u16), InType::UInt32);
    assert_eq!(InType::from(300u16), InType::CountedString);
    assert_eq!(InType::from(77u16), InType::Unknown(77));
    assert_eq!(InType::SizeT.code(), 308);
    assert_eq!(etw::out_type::OutType::from(301u16), etw::out_type::OutType::NoPrint);
    assert_eq!(etw::out_type::OutType::HexInt32.code(), 18);
}
