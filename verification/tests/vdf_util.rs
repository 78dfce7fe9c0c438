use wine_cask::vdf_util::{
    binary_to_json, read_object, read_scalar, read_string, BinaryVdfError, DataType, JsonMember,
    JsonValue,
};

fn to_json(value: &JsonValue) -> serde_json::Value {
    match value {
        JsonValue::String(text) => serde_json::Value::String(text.clone()),
        JsonValue::Unsigned(n) => serde_json::Value::Number(serde_json::Number::from(*n)),
        JsonValue::Signed(n) => serde_json::Value::Number(serde_json::Number::from(*n)),
        JsonValue::Float(bits) => serde_json::Value::Number(
            serde_json::Number::from_f64(f64::from_bits(*bits)).expect("a finite number"),
        ),
        JsonValue::Object(members) => {
            let mut map = serde_json::Map::new();
            for JsonMember { key, value } in members {
                map.insert(key.clone(), to_json(value));
            }
            serde_json::Value::Object(map)
        }
    }
}

fn members(value: &JsonValue) -> &Vec<JsonMember> {
    match value {
        JsonValue::Object(members) => members,
        other => panic!("an object was expected, not {:?}", other),
    }
}

#[test]
fn test_binary_to_json() {
    // Usage example
    // This is a binary representation of the following JSON:
    // {"name": "John", "age": 30, "city": "New York"}
    let binary_data = vec![
        0x01, 0x6E, 0x61, 0x6D, 0x65, 0x00, 0x4A, 0x6F, 0x68, 0x6E, 0x00, // name: John
        0x02, 0x61, 0x67, 0x65, 0x00, 0x1E, 0x00, 0x00, 0x00, // age: 30
        0x01, 0x63, 0x69, 0x74, 0x79, 0x00, 0x4E, 0x65, 0x77, 0x20, 0x59, 0x6F, 0x72, 0x6B,
        0x00, // city: New York
        0x08, // End
    ];

    let result = binary_to_json(&binary_data[..]).unwrap();
    let mut expected = serde_json::Map::new();
    expected.insert("name".to_string(), serde_json::Value::String("John".to_string()));
    expected.insert("age".to_string(), serde_json::Value::Number(serde_json::Number::from(30)));
    expected.insert("city".to_string(), serde_json::Value::String("New York".to_string()));
    let expected_json = serde_json::Value::Object(expected);

    assert_eq!(to_json(&result), expected_json);

    let read = members(&result);
    assert_eq!(read.len(), 3);
    assert_eq!(read[0].key, "name");
    assert!(matches!(&read[0].value, JsonValue::String(text) if text == "John"));
    assert_eq!(read[1].key, "age");
    assert!(matches!(read[1].value, JsonValue::Unsigned(30)));
    assert_eq!(read[2].key, "city");
    assert!(matches!(&read[2].value, JsonValue::String(text) if text == "New York"));
}

#[test]
fn type_bytes() {
    assert_eq!(DataType::from_u8(0), Some(DataType::Nested));
    assert_eq!(DataType::from_u8(1), Some(DataType::String));
    assert_eq!(DataType::from_u8(2), Some(DataType::Integer32));
    assert_eq!(DataType::from_u8(3), Some(DataType::Float));
    assert_eq!(DataType::from_u8(4), Some(DataType::Pointer));
    assert_eq!(DataType::from_u8(5), Some(DataType::WideString));
    assert_eq!(DataType::from_u8(6), Some(DataType::Color));
    assert_eq!(DataType::from_u8(7), Some(DataType::UnsignedInteger64));
    assert_eq!(DataType::from_u8(8), Some(DataType::End));
    assert_eq!(DataType::from_u8(9), None);
    assert_eq!(DataType::from_u8(10), Some(DataType::Integer64));
    assert_eq!(DataType::from_u8(11), Some(DataType::EndAlt));
    for value in 12..=255u8 {
        assert_eq!(DataType::from_u8(value), None);
    }
}

#[test]
fn numbers_are_little_endian() {
    let bytes = [0x78, 0x56, 0x34, 0x12, 0xEF, 0xCD, 0xAB, 0x90, 0xFF];
    match read_scalar(DataType::Integer32, &bytes, 0).unwrap() {
        (JsonValue::Unsigned(n), next) => {
            assert_eq!(n, 0x1234_5678);
            assert_eq!(next, 4);
        }
        other => panic!("unexpected {:?}", other),
    }
    match read_scalar(DataType::Pointer, &bytes, 1).unwrap() {
        (JsonValue::Unsigned(n), next) => {
            assert_eq!(n, 0xEF12_3456);
            assert_eq!(next, 5);
        }
        other => panic!("unexpected {:?}", other),
    }
    match read_scalar(DataType::Color, &bytes, 5).unwrap() {
        (JsonValue::Unsigned(n), next) => {
            assert_eq!(n, 0xFF90_ABCD);
            assert_eq!(next, 9);
        }
        other => panic!("unexpected {:?}", other),
    }
    match read_scalar(DataType::UnsignedInteger64, &bytes, 0).unwrap() {
        (JsonValue::Unsigned(n), next) => {
            assert_eq!(n, 0x90AB_CDEF_1234_5678);
            assert_eq!(next, 8);
        }
        other => panic!("unexpected {:?}", other),
    }
    match read_scalar(DataType::Integer64, &bytes, 0).unwrap() {
        (JsonValue::Signed(n), next) => {
            assert_eq!(n, 0x90AB_CDEF_1234_5678u64 as i64);
            assert!(n < 0);
            assert_eq!(next, 8);
        }
        other => panic!("unexpected {:?}", other),
    }
    match read_scalar(DataType::Integer64, &(-2i64).to_le_bytes(), 0).unwrap() {
        (JsonValue::Signed(n), _) => assert_eq!(n, -2),
        other => panic!("unexpected {:?}", other),
    }
    match read_scalar(DataType::Integer64, &i64::MAX.to_le_bytes(), 0).unwrap() {
        (JsonValue::Signed(n), _) => assert_eq!(n, i64::MAX),
        other => panic!("unexpected {:?}", other),
    }
    match read_scalar(DataType::Float, &1.5f64.to_le_bytes(), 0).unwrap() {
        (JsonValue::Float(bits), next) => {
            assert_eq!(f64::from_bits(bits), 1.5);
            assert_eq!(next, 8);
        }
        other => panic!("unexpected {:?}", other),
    }
}

#[test]
fn a_number_that_breaks_off_is_an_error() {
    let bytes = [1u8, 2, 3, 4, 5, 6, 7];
    assert!(matches!(
        read_scalar(DataType::Integer32, &bytes, 4),
        Err(BinaryVdfError::UnexpectedEnd)
    ));
    assert!(read_scalar(DataType::Integer32, &bytes, 3).is_ok());
    for kind in [DataType::Float, DataType::UnsignedInteger64, DataType::Integer64] {
        assert!(matches!(read_scalar(kind, &bytes, 0), Err(BinaryVdfError::UnexpectedEnd)));
    }
    assert!(matches!(read_scalar(DataType::Integer32, &bytes, 7), Err(BinaryVdfError::UnexpectedEnd)));
    for kind in [DataType::Nested, DataType::End, DataType::EndAlt] {
        assert!(matches!(read_scalar(kind, &bytes, 0), Err(BinaryVdfError::InvalidDataType)));
    }
}

#[test]
fn strings_end_at_the_first_zero() {
    let bytes = b"ab\0\0cd\0ef";
    assert_eq!(read_string(bytes, 0).unwrap(), ("ab".to_string(), 3));
    assert_eq!(read_string(bytes, 1).unwrap(), ("b".to_string(), 3));
    assert_eq!(read_string(bytes, 2).unwrap(), (String::new(), 3));
    assert_eq!(read_string(bytes, 3).unwrap(), (String::new(), 4));
    assert_eq!(read_string(bytes, 4).unwrap(), ("cd".to_string(), 7));
    assert!(matches!(read_string(bytes, 7), Err(BinaryVdfError::UnexpectedEnd)));
    assert!(matches!(read_string(bytes, 9), Err(BinaryVdfError::UnexpectedEnd)));
    let (text, next) = read_string(&[0xC3, 0xA9, 0xFF, 0x41, 0x00], 0).unwrap();
    assert_eq!(text, "é\u{FFFD}A");
    assert_eq!(next, 5);
    match read_scalar(DataType::WideString, bytes, 4).unwrap() {
        (JsonValue::String(text), next) => {
            assert_eq!(text, "cd");
            assert_eq!(next, 7);
        }
        other => panic!("unexpected {:?}", other),
    }
}

#[test]
fn objects_nest() {
    let mut bytes = Vec::new();
    bytes.extend_from_slice(b"\x00shortcuts\0");
    bytes.extend_from_slice(b"\x000\0");
    bytes.extend_from_slice(b"\x02appid\0");
    bytes.extend_from_slice(&0x8000_0001u32.to_le_bytes());
    bytes.extend_from_slice(b"\x01AppName\0Game\0");
    bytes.extend_from_slice(b"\x00tags\0\x0B");
    bytes.extend_from_slice(b"\x07size\0");
    bytes.extend_from_slice(&u64::MAX.to_le_bytes());
    bytes.extend_from_slice(b"\x0Adelta\0");
    bytes.extend_from_slice(&(-5i64).to_le_bytes());
    bytes.push(0x08);
    bytes.push(0x08);
    bytes.extend_from_slice(b"\x01AppName\0Again\0");
    bytes.push(0x0B);
    bytes.extend_from_slice(b"trailing bytes are not read");

    let document = binary_to_json(&bytes).unwrap();
    let top = members(&document);
    assert_eq!(top.len(), 2);
    assert_eq!(top[0].key, "shortcuts");
    assert_eq!(top[1].key, "AppName");
    let shortcuts = members(&top[0].value);
    assert_eq!(shortcuts.len(), 1);
    assert_eq!(shortcuts[0].key, "0");
    let first = members(&shortcuts[0].value);
    let keys: Vec<&str> = first.iter().map(|member| member.key.as_str()).collect();
    assert_eq!(keys, vec!["appid", "AppName", "tags", "size", "delta"]);
    assert!(matches!(first[0].value, JsonValue::Unsigned(0x8000_0001)));
    assert!(matches!(&first[1].value, JsonValue::String(text) if text == "Game"));
    assert!(members(&first[2].value).is_empty());
    assert!(matches!(first[3].value, JsonValue::Unsigned(u64::MAX)));
    assert!(matches!(first[4].value, JsonValue::Signed(-5)));

    let (read, next) = read_object(&bytes, 0).unwrap();
    assert_eq!(read.len(), 2);
    assert_eq!(next, bytes.len() - "trailing bytes are not read".len());
    let (inner, next) = read_object(&bytes, 11).unwrap();
    assert_eq!(inner.len(), 1);
    assert_eq!(bytes[next - 1], 0x08);
}

#[test]
fn an_empty_object() {
    assert!(members(&binary_to_json(&[0x08]).unwrap()).is_empty());
    assert!(members(&binary_to_json(&[0x0B, 0xFF]).unwrap()).is_empty());
}

#[test]
fn repeated_keys_are_kept_in_order() {
    let document = binary_to_json(b"\x01k\0first\0\x01k\0second\0\x08").unwrap();
    let read = members(&document);
    assert_eq!(read.len(), 2);
    assert!(matches!(&read[0].value, JsonValue::String(text) if text == "first"));
    assert!(matches!(&read[1].value, JsonValue::String(text) if text == "second"));
    let mut expected = serde_json::Map::new();
    expected.insert("k".to_string(), serde_json::Value::String("second".to_string()));
    assert_eq!(to_json(&document), serde_json::Value::Object(expected));
}

#[test]
fn broken_documents() {
    assert!(matches!(binary_to_json(&[]), Err(BinaryVdfError::UnexpectedEnd)));
    assert!(matches!(binary_to_json(&[0x09]), Err(BinaryVdfError::InvalidDataType)));
    assert!(matches!(binary_to_json(&[0x0C, 0x08]), Err(BinaryVdfError::InvalidDataType)));
    assert!(matches!(binary_to_json(b"\x01key"), Err(BinaryVdfError::UnexpectedEnd)));
    assert!(matches!(binary_to_json(b"\x01key\0value"), Err(BinaryVdfError::UnexpectedEnd)));
    assert!(matches!(binary_to_json(b"\x01key\0value\0"), Err(BinaryVdfError::UnexpectedEnd)));
    assert!(matches!(binary_to_json(b"\x02key\0\x01\x02\x03"), Err(BinaryVdfError::UnexpectedEnd)));
    assert!(matches!(binary_to_json(b"\x00key\0\x08"), Err(BinaryVdfError::UnexpectedEnd)));
    assert!(matches!(
        binary_to_json(b"\x00key\0\x01a\0b\0\xFF\x08\x08"),
        Err(BinaryVdfError::InvalidDataType)
    ));
    assert_eq!(BinaryVdfError::InvalidDataType.message(), "Invalid data type");
    assert_eq!(BinaryVdfError::UnexpectedEnd.message(), "Unexpected end of data");
}
