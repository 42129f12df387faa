use rkv::error::DataError;
use rkv::value::{decode, decode_expected, encode, Type, Value};

#[test]
fn encodes_u64_as_tag_and_little_endian_bytes() {
    assert_eq!(encode(&Value::U64(0x0102)), vec![2, 0x02, 0x01, 0, 0, 0, 0, 0, 0]);
}

#[test]
fn encodes_bool_as_two_bytes() {
    assert_eq!(encode(&Value::Bool(true)), vec![1, 1]);
    assert_eq!(encode(&Value::Bool(false)), vec![1, 0]);
}

#[test]
fn encodes_negative_i64_in_twos_complement() {
    assert_eq!(encode(&Value::I64(-1)), vec![3, 255, 255, 255, 255, 255, 255, 255, 255]);
}

#[test]
fn encodes_str_with_length_prefix() {
    assert_eq!(encode(&Value::Str("hé".to_string())), vec![7, 3, 0, 0, 0, 0, 0, 0, 0, b'h', 0xc3, 0xa9]);
}

#[test]
fn encodes_blob_with_length_prefix() {
    assert_eq!(encode(&Value::Blob(vec![9, 8])), vec![9, 2, 0, 0, 0, 0, 0, 0, 0, 9, 8]);
}

#[test]
fn every_kind_round_trips() {
    let values = vec![
        Value::Bool(true),
        Value::U64(u64::MAX),
        Value::I64(i64::MIN),
        Value::F64(1234.5f64.to_bits()),
        Value::Instant(1528318073700),
        Value::Str("héllo, yöu".to_string()),
        Value::Json("{\"foo\":\"bar\", \"number\": 1}".to_string()),
        Value::Blob(b"blob".to_vec()),
        Value::Str(String::new()),
        Value::Blob(Vec::new()),
    ];
    for v in values {
        assert_eq!(decode(&encode(&v)), Ok(v.clone()));
    }
}

#[test]
fn float_round_trips_through_its_bits() {
    let bytes = encode(&Value::F64(0.1f64.to_bits()));
    match decode(&bytes) {
        Ok(Value::F64(bits)) => assert_eq!(f64::from_bits(bits), 0.1f64),
        other => panic!("unexpected {:?}", other),
    }
}

#[test]
fn empty_input_is_rejected() {
    assert_eq!(decode(&[]), Err(DataError::Empty));
}

#[test]
fn unknown_tag_is_rejected() {
    assert_eq!(decode(&[6, 0]), Err(DataError::UnknownType { tag: 6, bytes: vec![6, 0] }));
    assert_eq!(decode(&[200]), Err(DataError::UnknownType { tag: 200, bytes: vec![200] }));
}

#[test]
fn truncated_payload_is_rejected() {
    let bytes = vec![2, 1, 2, 3];
    assert_eq!(decode(&bytes), Err(DataError::DecodingError { value_type: Type::U64, bytes: bytes.clone() }));
}

#[test]
fn trailing_bytes_are_rejected() {
    let bytes = vec![1, 1, 0];
    assert_eq!(decode(&bytes), Err(DataError::DecodingError { value_type: Type::Bool, bytes: bytes.clone() }));
}

#[test]
fn bool_byte_other_than_zero_or_one_is_rejected() {
    let bytes = vec![1, 2];
    assert_eq!(decode(&bytes), Err(DataError::DecodingError { value_type: Type::Bool, bytes: bytes.clone() }));
}

#[test]
fn wrong_length_prefix_is_rejected() {
    let bytes = vec![9, 5, 0, 0, 0, 0, 0, 0, 0, 1, 2];
    assert_eq!(decode(&bytes), Err(DataError::DecodingError { value_type: Type::Blob, bytes: bytes.clone() }));
}

#[test]
fn invalid_utf8_is_rejected() {
    let bytes = vec![7, 2, 0, 0, 0, 0, 0, 0, 0, 0xc3, 0x28];
    assert_eq!(decode(&bytes), Err(DataError::DecodingError { value_type: Type::Str, bytes: bytes.clone() }));
}

#[test]
fn integer_read_as_string_is_refused() {
    let bytes = encode(&Value::I64(42));
    assert_eq!(
        decode_expected(Type::Str, &bytes),
        Err(DataError::UnexpectedType { expected: Type::Str, actual: Type::I64 })
    );
    assert_eq!(decode_expected(Type::I64, &bytes), Ok(Value::I64(42)));
}

#[test]
fn expected_type_still_reports_malformed_input() {
    assert_eq!(decode_expected(Type::U64, &[]), Err(DataError::Empty));
    assert_eq!(decode_expected(Type::U64, &[42]), Err(DataError::UnknownType { tag: 42, bytes: vec![42] }));
}

#[test]
fn tags_round_trip() {
    for t in [Type::Bool, Type::U64, Type::I64, Type::F64, Type::Instant, Type::Str, Type::Json, Type::Blob] {
        assert_eq!(Type::from_tag(t.to_tag()), Some(t));
    }
    assert_eq!(Type::from_tag(0), None);
    assert_eq!(Type::Str.to_tag(), 7);
}
