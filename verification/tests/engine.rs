use dynval::to_value;
use dynval::Error;
use dynval::Event;
use dynval::Number;
use dynval::Value;

#[test]
fn primitive_fidelity() {
    assert_eq!(Value::True, to_value(Event::Bool(true)).unwrap());
    assert_eq!(Value::False, to_value(Event::Bool(false)).unwrap());
    assert_eq!(Value::Absent, to_value(Event::AbsentOption).unwrap());
    assert_eq!(Value::Number(Number::Int(3)), to_value(Event::I32(3)).unwrap());
}

#[test]
fn byte_expansion() {
    let expected = Value::Array(vec![
        Value::Number(Number::Int(10)),
        Value::Number(Number::Int(20)),
    ]);
    assert_eq!(expected, to_value(Event::Bytes(vec![10, 20])).unwrap());
}

#[test]
fn u128_max_widens() {
    let expected = Value::Number(Number::Decimal(bigdecimal::BigDecimal::from(u128::MAX)));
    assert_eq!(expected, to_value(Event::U128(u128::MAX)).unwrap());
}

#[test]
fn i128_min_widens() {
    let expected = Value::Number(Number::Decimal(bigdecimal::BigDecimal::from(i128::MIN)));
    assert_eq!(expected, to_value(Event::I128(i128::MIN)).unwrap());
}

#[test]
fn tuple_case_fallback() {
    let event = Event::TupleVariant {
        name: "Whatever".to_owned(),
        variant: "X".to_owned(),
        fields: vec![Event::I32(1), Event::I32(2)],
    };
    let expected = Value::Object(vec![(
        "X".to_owned(),
        Value::Array(vec![
            Value::Number(Number::Int(1)),
            Value::Number(Number::Int(2)),
        ]),
    )]);
    assert_eq!(expected, to_value(event).unwrap());
}

#[test]
fn reserved_array_token() {
    let event = Event::NewtypeStruct {
        name: "$dynval::Array".to_owned(),
        value: Box::new(Event::Sequence(vec![Event::Bool(true)])),
    };
    assert_eq!(Value::Array(vec![Value::True]), to_value(event).unwrap());
}

#[test]
fn sentinel_rejection() {
    let event = Event::UnitVariant {
        name: "$dynval::Value".to_owned(),
        variant: "Bogus".to_owned(),
    };
    assert_eq!(
        Err(Error::UnknownSentinel { variant: "Bogus".to_owned() }),
        to_value(event)
    );
}

#[test]
fn unknown_constant_rejected() {
    let event = Event::UnitVariant {
        name: "$dynval::Constant".to_owned(),
        variant: "Bogus".to_owned(),
    };
    assert_eq!(
        Err(Error::UnknownConstant { variant: "Bogus".to_owned() }),
        to_value(event)
    );
}

#[test]
fn map_key_must_be_text() {
    let event = Event::Mapping(vec![(Event::Bool(true), Event::Bool(true))]);
    assert_eq!(Err(Error::ExpectedString), to_value(event));
}

#[test]
fn number_payload_shape() {
    let event = Event::NewtypeVariant {
        name: "$dynval::Number".to_owned(),
        variant: "Int".to_owned(),
        value: Box::new(Event::Bool(true)),
    };
    assert_eq!(Err(Error::Shape), to_value(event));
}

#[test]
fn char_becomes_one_character_text() {
    assert_eq!(Value::Strand("a".to_owned()), to_value(Event::Char('a')).unwrap());
}

#[test]
fn u64_wraps_into_signed_leaf() {
    assert_eq!(Value::Number(Number::Int(-1)), to_value(Event::U64(u64::MAX)).unwrap());
    assert_eq!(
        Value::Number(Number::Int(i64::MAX)),
        to_value(Event::U64(i64::MAX as u64)).unwrap()
    );
}

#[test]
fn foreign_unit_case_is_text() {
    let event = Event::UnitVariant { name: "Color".to_owned(), variant: "Red".to_owned() };
    assert_eq!(Value::Strand("Red".to_owned()), to_value(event).unwrap());
}

#[test]
fn foreign_wrapper_passes_through() {
    let event = Event::NewtypeStruct {
        name: "Wrapper".to_owned(),
        value: Box::new(Event::Bool(true)),
    };
    assert_eq!(Value::True, to_value(event).unwrap());
}

#[test]
fn foreign_one_field_case_wraps() {
    let event = Event::NewtypeVariant {
        name: "E".to_owned(),
        variant: "V".to_owned(),
        value: Box::new(Event::I32(7)),
    };
    let expected = Value::Object(vec![("V".to_owned(), Value::Number(Number::Int(7)))]);
    assert_eq!(expected, to_value(event).unwrap());
}

#[test]
fn map_duplicate_key_overwrites_in_place() {
    let event = Event::Mapping(vec![
        (Event::Str("a".to_owned()), Event::I32(1)),
        (Event::Str("b".to_owned()), Event::I32(2)),
        (Event::Str("a".to_owned()), Event::I32(3)),
    ]);
    let expected = Value::Object(vec![
        ("a".to_owned(), Value::Number(Number::Int(3))),
        ("b".to_owned(), Value::Number(Number::Int(2))),
    ]);
    assert_eq!(expected, to_value(event).unwrap());
}

#[test]
fn named_field_case_wraps_twice() {
    let event = Event::StructVariant {
        name: "E".to_owned(),
        variant: "S".to_owned(),
        fields: vec![("x".to_owned(), Event::I32(1))],
    };
    let expected = Value::Object(vec![(
        "S".to_owned(),
        Value::Object(vec![("x".to_owned(), Value::Number(Number::Int(1)))]),
    )]);
    assert_eq!(expected, to_value(event).unwrap());
}

#[test]
fn present_optional_recurses() {
    let event = Event::PresentOption(Box::new(Event::Bool(false)));
    assert_eq!(Value::False, to_value(event).unwrap());
}

#[test]
fn unit_struct_is_absence() {
    assert_eq!(Value::Absent, to_value(Event::UnitStruct("M".to_owned())).unwrap());
}

#[test]
fn sequence_failure_aborts() {
    let event = Event::Sequence(vec![
        Event::Bool(true),
        Event::UnitVariant {
            name: "$dynval::Value".to_owned(),
            variant: "Bogus".to_owned(),
        },
    ]);
    assert_eq!(
        Err(Error::UnknownSentinel { variant: "Bogus".to_owned() }),
        to_value(event)
    );
}

#[test]
fn decimal_scalar_is_decimal_leaf() {
    let expected = Value::Number(Number::Decimal(bigdecimal::BigDecimal::from(3)));
    assert_eq!(expected, to_value(Event::Decimal(bigdecimal::BigDecimal::from(3))).unwrap());
}
