use docstore::error::DecodeError;
use docstore::value::{FieldType, Timestamp, Value, WireKind, WireValue, decode, encode};

fn assert_round_trips(v: Value, expected: Value) {
    let wire = encode(&v);
    let back = decode(&wire).expect("encoded value must decode");
    assert_eq!(back, expected);
}

#[test]
fn round_trip_null() {
    assert_round_trips(Value::Null, Value::Null);
}

#[test]
fn round_trip_boolean() {
    assert_round_trips(Value::Boolean(true), Value::Boolean(true));
    assert_round_trips(Value::Boolean(false), Value::Boolean(false));
}

#[test]
fn round_trip_integer() {
    assert_round_trips(Value::Integer(-42), Value::Integer(-42));
    assert_round_trips(Value::Integer(i64::MAX), Value::Integer(i64::MAX));
}

#[test]
fn round_trip_double_bits() {
    let bits = (1.5f64).to_bits();
    assert_round_trips(Value::Double(bits), Value::Double(bits));
    let wire = encode(&Value::Double(bits));
    let back = decode(&wire).unwrap();
    match back {
        Value::Double(b) => assert_eq!(f64::from_bits(b), 1.5f64),
        other => panic!("expected a double, got {:?}", other),
    }
}

#[test]
fn round_trip_timestamp() {
    let t = Timestamp { seconds: 1_600_000_000, nanos: 250_000_000 };
    assert_round_trips(Value::Timestamp(t), Value::Timestamp(t));
}

#[test]
fn round_trip_text_and_reference() {
    assert_round_trips(
        Value::Text(String::from("chiba")),
        Value::Text(String::from("chiba")),
    );
    assert_round_trips(
        Value::Reference(String::from("projects/p/databases/d/documents/test/doc1")),
        Value::Reference(String::from("projects/p/databases/d/documents/test/doc1")),
    );
}

#[test]
fn round_trip_nested_array_and_map() {
    let v = Value::Array(vec![
        Value::Integer(1),
        Value::Text(String::from("two")),
        Value::Mapping(vec![
            (String::from("inner"), Value::Boolean(true)),
            (String::from("list"), Value::Array(vec![Value::Null])),
        ]),
    ]);
    let expected = Value::Array(vec![
        Value::Integer(1),
        Value::Text(String::from("two")),
        Value::Mapping(vec![
            (String::from("inner"), Value::Boolean(true)),
            (String::from("list"), Value::Array(vec![Value::Null])),
        ]),
    ]);
    assert_round_trips(v, expected);
}

#[test]
fn decode_empty_union_fails() {
    let unset = WireValue { value_type: None };
    assert_eq!(decode(&unset), Err(DecodeError::EmptyValue));
}

#[test]
fn decode_empty_union_inside_array_fails() {
    let wire = WireValue {
        value_type: Some(WireKind::ArrayValue(vec![
            WireValue { value_type: Some(WireKind::IntegerValue(7)) },
            WireValue { value_type: None },
        ])),
    };
    assert_eq!(decode(&wire), Err(DecodeError::EmptyValue));
}

#[test]
fn extraction_is_strict() {
    assert_eq!(Value::Integer(1).as_boolean(), Err(FieldType::Integer));
    assert_eq!(Value::Boolean(true).as_integer(), Err(FieldType::Boolean));
    assert_eq!(Value::Text(String::from("1.5")).as_double_bits(), Err(FieldType::Text));
    assert_eq!(Value::Null.as_text(), Err(FieldType::Null));
    assert_eq!(Value::Double(0).as_timestamp(), Err(FieldType::Double));
    assert_eq!(
        Value::Timestamp(Timestamp { seconds: 0, nanos: 0 }).as_reference(),
        Err(FieldType::Timestamp),
    );
    assert!(Value::Reference(String::from("a/b")).as_array().is_err());
    assert!(Value::Array(vec![]).as_mapping().is_err());
}

#[test]
fn extraction_returns_the_payload() {
    assert_eq!(Value::Boolean(true).as_boolean(), Ok(true));
    assert_eq!(Value::Integer(-3).as_integer(), Ok(-3));
    assert_eq!(Value::Text(String::from("chiba")).as_text(), Ok(String::from("chiba")));
    let t = Timestamp { seconds: 5, nanos: 6 };
    assert_eq!(Value::Timestamp(t).as_timestamp(), Ok(t));
}

#[test]
fn field_type_names_every_variant() {
    assert_eq!(Value::Null.field_type(), FieldType::Null);
    assert_eq!(Value::Boolean(false).field_type(), FieldType::Boolean);
    assert_eq!(Value::Integer(0).field_type(), FieldType::Integer);
    assert_eq!(Value::Double(0).field_type(), FieldType::Double);
    assert_eq!(
        Value::Timestamp(Timestamp { seconds: 0, nanos: 0 }).field_type(),
        FieldType::Timestamp,
    );
    assert_eq!(Value::Text(String::new()).field_type(), FieldType::Text);
    assert_eq!(Value::Reference(String::new()).field_type(), FieldType::Reference);
    assert_eq!(Value::Array(vec![]).field_type(), FieldType::Array);
    assert_eq!(Value::Mapping(vec![]).field_type(), FieldType::Mapping);
}
