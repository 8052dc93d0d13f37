use rapidquery::adaptation::builder::{Value as BuilderValue, ValueType};
use rapidquery::adaptation::common::{
    deserialize_object_with_pyjson, documents_verdict, serialize_object_with_pyjson,
    validate_json_object, Reading,
};
use rapidquery::adaptation::deserialize::{decimal_outcome, json_outcome, DeserializedValue};
use rapidquery::adaptation::serialize::RustValue;
use rapidquery::adaptation::{adapt, infer, Comparison, PyAdaptedValue, ReturnableValue};
use rapidquery::calendar::{
    Date, EngineDateTime, EngineTime, EngineZoned, HostDateTime, HostTime, HostZone,
};
use rapidquery::column::convert::{PlainColumn, TypeDeclaration};
use rapidquery::column::{ColumnType, StringLen};
use rapidquery::decimal::EngineDecimal;
use rapidquery::error::{AdaptError, ExpectedType, ExtractionFailure};
use rapidquery::host::{HostInt, HostJson, HostKind, HostObject, HostReal};

fn plain(kind: HostKind) -> HostObject {
    HostObject { kind, json: HostJson::NotEncoded, token: None }
}

fn encoded(kind: HostKind, text: &str) -> HostObject {
    HostObject { kind, json: HostJson::Text(text.to_string()), token: None }
}

fn rejected(kind: HostKind, message: &str) -> HostObject {
    HostObject { kind, json: HostJson::Rejected(message.to_string()), token: None }
}

fn number(x: f64) -> HostReal {
    HostReal { double: x.to_bits(), single: Some((x as f32).to_bits()) }
}

fn float(x: f64) -> HostKind {
    HostKind::Float(number(x))
}

fn integer(v: i128) -> HostKind {
    HostKind::Int(HostInt { value: Some(v), float: Some(number(v as f64)) })
}

fn text(s: &str) -> HostKind {
    HostKind::Str(s.to_string())
}

fn date(year: i32, month: u32, day: u32) -> Date {
    Date { year, month, day }
}

fn time(hour: u32, minute: u32, second: u32, microsecond: u32) -> HostTime {
    HostTime { hour, minute, second, microsecond }
}

fn mismatch(expected: ExpectedType, actual: &str) -> AdaptError {
    AdaptError::TypeMismatch { expected, actual: actual.to_string() }
}

fn host_side(value: &ReturnableValue) -> DeserializedValue {
    value.deserialized().expect("the host's form is held").clone()
}

#[test]
fn boolean_column_takes_a_boolean() {
    let value = ReturnableValue::with_specific_type(plain(HostKind::Bool(true)), &ColumnType::Boolean)
        .unwrap();
    assert_eq!(host_side(&value), DeserializedValue::Bool(true));
    assert!(value.serialized().is_none());
}

#[test]
fn boolean_column_rejects_a_float() {
    let error =
        ReturnableValue::with_specific_type(plain(float(1.0)), &ColumnType::Boolean).unwrap_err();
    assert_eq!(error, mismatch(ExpectedType::Bool, "float"));
    assert_eq!(error.message(), "expected bool, got float");
}

#[test]
fn boolean_column_rejects_a_truthy_integer() {
    let error = adapt(&plain(integer(1)), &ColumnType::Boolean).unwrap_err();
    assert_eq!(error, mismatch(ExpectedType::Bool, "int"));
}

#[test]
fn integer_columns_of_every_width_hold_64_bits() {
    for ty in [
        ColumnType::TinyInteger,
        ColumnType::SmallInteger,
        ColumnType::Integer,
        ColumnType::BigInteger,
        ColumnType::Year,
    ] {
        let value = adapt(&plain(integer(i64::MIN as i128)), &ty).unwrap();
        assert_eq!(value, DeserializedValue::BigInt(i64::MIN));
    }
}

#[test]
fn integer_column_overflows_beyond_64_bits() {
    let error = adapt(&plain(integer(i64::MAX as i128 + 1)), &ColumnType::BigInteger).unwrap_err();
    assert_eq!(error, AdaptError::Extraction(ExtractionFailure::SignedOverflow));
    let huge = HostKind::Int(HostInt { value: None, float: None });
    let error = adapt(&plain(huge), &ColumnType::Integer).unwrap_err();
    assert_eq!(error, AdaptError::Extraction(ExtractionFailure::SignedOverflow));
}

#[test]
fn integer_column_takes_a_boolean_as_zero_or_one() {
    assert_eq!(
        adapt(&plain(HostKind::Bool(true)), &ColumnType::Integer).unwrap(),
        DeserializedValue::BigInt(1)
    );
    assert_eq!(
        adapt(&plain(HostKind::Bool(false)), &ColumnType::Unsigned).unwrap(),
        DeserializedValue::BigUnsigned(0)
    );
}

#[test]
fn integer_column_rejects_a_string() {
    let error = adapt(&plain(text("7")), &ColumnType::Integer).unwrap_err();
    assert_eq!(error, mismatch(ExpectedType::Int, "str"));
    assert_eq!(error.message(), "expected int, got str");
}

#[test]
fn unsigned_column_takes_the_full_unsigned_range() {
    let value = adapt(&plain(integer(u64::MAX as i128)), &ColumnType::BigUnsigned).unwrap();
    assert_eq!(value, DeserializedValue::BigUnsigned(u64::MAX));
}

#[test]
fn unsigned_column_rejects_a_negative_integer() {
    let error = adapt(&plain(integer(-1)), &ColumnType::TinyUnsigned).unwrap_err();
    assert_eq!(error, AdaptError::Extraction(ExtractionFailure::UnsignedOverflow));
    let error = adapt(&plain(integer(u64::MAX as i128 + 1)), &ColumnType::Unsigned).unwrap_err();
    assert_eq!(error, AdaptError::Extraction(ExtractionFailure::UnsignedOverflow));
}

#[test]
fn text_columns_take_a_string() {
    for ty in [
        ColumnType::Char(Some(3)),
        ColumnType::String(StringLen::N(10)),
        ColumnType::Text,
        ColumnType::Interval(None, None),
        ColumnType::Cidr,
        ColumnType::Inet,
        ColumnType::MacAddr,
        ColumnType::LTree,
        ColumnType::Enum { name: "mood".to_string(), variants: vec!["happy".to_string()] },
    ] {
        let value = adapt(&plain(text("happy")), &ty).unwrap();
        assert_eq!(value, DeserializedValue::String("happy".to_string()));
        let error = adapt(&plain(HostKind::Bytes(vec![1])), &ty).unwrap_err();
        assert_eq!(error, mismatch(ExpectedType::Str, "bytes"));
    }
}

#[test]
fn binary_columns_take_bytes() {
    for ty in [
        ColumnType::Blob,
        ColumnType::Binary(4),
        ColumnType::VarBinary(StringLen::Max),
        ColumnType::Bit(None),
        ColumnType::VarBit(2),
    ] {
        let value = adapt(&plain(HostKind::Bytes(vec![0, 255])), &ty).unwrap();
        assert_eq!(value, DeserializedValue::Bytes(vec![0, 255]));
        let error = adapt(&plain(text("x")), &ty).unwrap_err();
        assert_eq!(error, mismatch(ExpectedType::Bytes, "str"));
    }
}

#[test]
fn float_column_takes_a_float_or_an_integer() {
    let value = adapt(&plain(float(2.5)), &ColumnType::Float).unwrap();
    assert_eq!(value, DeserializedValue::Double(2.5f64.to_bits()));
    let value = adapt(&plain(integer(3)), &ColumnType::Double).unwrap();
    assert_eq!(value, DeserializedValue::Double(3.0f64.to_bits()));
    let error = adapt(&plain(text("2.5")), &ColumnType::Double).unwrap_err();
    assert_eq!(error, mismatch(ExpectedType::FloatOrInt, "str"));
    assert_eq!(error.message(), "expected float or int, got str");
}

#[test]
fn float_column_fails_on_an_integer_too_large_for_a_double() {
    let huge = HostKind::Int(HostInt { value: None, float: None });
    let error = adapt(&plain(huge), &ColumnType::Double).unwrap_err();
    assert_eq!(error, AdaptError::Extraction(ExtractionFailure::FloatOverflow));
}

#[test]
fn decimal_column_rejects_a_float() {
    let error = adapt(&plain(float(1.5)), &ColumnType::Decimal(Some((10, 2)))).unwrap_err();
    assert_eq!(error, mismatch(ExpectedType::Decimal, "float"));
    assert_eq!(error.message(), "expected decimal.Decimal, got float");
    let value =
        adapt(&plain(HostKind::Decimal("1.50".to_string())), &ColumnType::Money(None)).unwrap();
    assert_eq!(value, DeserializedValue::Decimal("1.50".to_string()));
}

#[test]
fn date_and_time_columns_take_the_exact_type() {
    let d = date(2024, 2, 29);
    let t = time(23, 59, 59, 999_999);
    let dt = HostDateTime { date: d, time: t, zone: HostZone::Naive };
    assert_eq!(
        adapt(&plain(HostKind::Date(d)), &ColumnType::Date).unwrap(),
        DeserializedValue::ChronoDate(d)
    );
    assert_eq!(
        adapt(&plain(HostKind::Time(t)), &ColumnType::Time).unwrap(),
        DeserializedValue::ChronoTime(t)
    );
    for ty in [ColumnType::DateTime, ColumnType::Timestamp, ColumnType::TimestampWithTimeZone] {
        assert_eq!(
            adapt(&plain(HostKind::DateTime(dt)), &ty).unwrap(),
            DeserializedValue::ChronoDateTime(dt)
        );
        assert_eq!(
            adapt(&plain(HostKind::Date(d)), &ty).unwrap_err(),
            mismatch(ExpectedType::DateTime, "datetime.date")
        );
    }
    assert_eq!(
        adapt(&plain(HostKind::DateTime(dt)), &ColumnType::Date).unwrap_err(),
        mismatch(ExpectedType::Date, "datetime.datetime")
    );
    assert_eq!(
        adapt(&plain(HostKind::DateTime(dt)), &ColumnType::Time).unwrap_err(),
        mismatch(ExpectedType::Time, "datetime.datetime")
    );
}

#[test]
fn uuid_column_takes_a_uuid() {
    let value = adapt(&plain(HostKind::Uuid(7)), &ColumnType::Uuid).unwrap();
    assert_eq!(value, DeserializedValue::Uuid(7));
    let error = adapt(&plain(text("7")), &ColumnType::Uuid).unwrap_err();
    assert_eq!(error, mismatch(ExpectedType::Uuid, "str"));
    assert_eq!(error.message(), "expected uuid.UUID, got str");
}

#[test]
fn other_types_are_named_in_the_mismatch() {
    let object = plain(HostKind::Other("fractions.Fraction".to_string()));
    let error = adapt(&object, &ColumnType::Integer).unwrap_err();
    assert_eq!(error, mismatch(ExpectedType::Int, "fractions.Fraction"));
}

#[test]
fn json_fast_path_does_not_look_at_the_encoder() {
    for kind in [integer(1), text("a"), float(0.5), HostKind::Null] {
        let object = rejected(kind, "the encoder would have failed");
        assert_eq!(validate_json_object(&object), Ok(()));
    }
    for kind in [integer(1), text("a"), float(0.5), HostKind::Null] {
        assert_eq!(validate_json_object(&plain(kind)), Ok(()));
    }
}

#[test]
fn json_full_path_follows_the_encoder() {
    let nested = encoded(HostKind::Dict, "{\"a\": [1, 2]}");
    assert_eq!(validate_json_object(&nested), Ok(()));
    let list = encoded(HostKind::List(vec![plain(integer(1))]), "[1]");
    assert_eq!(validate_json_object(&list), Ok(()));
    let bad = rejected(HostKind::Dict, "Object of type set is not JSON serializable");
    assert_eq!(
        validate_json_object(&bad),
        Err(AdaptError::JsonCodec("Object of type set is not JSON serializable".to_string()))
    );
    let unasked = plain(HostKind::Bool(true));
    assert_eq!(validate_json_object(&unasked), Err(AdaptError::JsonNotEncoded));
}

#[test]
fn json_bridge_hands_on_the_text_of_the_encoder() {
    let object = encoded(HostKind::Dict, "{\"a\": 1}");
    assert_eq!(serialize_object_with_pyjson(&object), Ok("{\"a\": 1}".to_string()));
    let made = deserialize_object_with_pyjson("[1,2]".to_string());
    assert_eq!(made, encoded(HostKind::Decoded, "[1,2]"));
}

#[test]
fn json_column_keeps_the_object() {
    let object = encoded(HostKind::Dict, "{\"a\": 1}");
    for ty in [ColumnType::Json, ColumnType::JsonBinary] {
        let value = adapt(&object, &ty).unwrap();
        assert_eq!(value, DeserializedValue::Json(object.clone()));
    }
    let bad = rejected(HostKind::List(vec![]), "not serializable");
    let error = adapt(&bad, &ColumnType::Json).unwrap_err();
    assert_eq!(error, AdaptError::JsonCodec("not serializable".to_string()));
    assert_eq!(error.message(), "not serializable");
}

#[test]
fn array_column_adapts_each_element() {
    let list = plain(HostKind::List(vec![plain(integer(1)), plain(integer(2)), plain(HostKind::Bool(true))]));
    let ty = ColumnType::Array(Box::new(ColumnType::Integer));
    let value = adapt(&list, &ty).unwrap();
    assert_eq!(
        value,
        DeserializedValue::Array(vec![
            DeserializedValue::BigInt(1),
            DeserializedValue::BigInt(2),
            DeserializedValue::BigInt(1),
        ])
    );
    let empty = adapt(&plain(HostKind::List(vec![])), &ty).unwrap();
    assert_eq!(empty, DeserializedValue::Array(vec![]));
}

#[test]
fn array_column_fails_with_the_error_of_the_invalid_element() {
    let valid = plain(integer(1));
    let invalid = plain(text("two"));
    let ty = ColumnType::Array(Box::new(ColumnType::Integer));
    let alone = adapt(&invalid, &ColumnType::Integer).unwrap_err();
    let list = plain(HostKind::List(vec![valid, invalid]));
    let error = ReturnableValue::with_specific_type(list, &ty).unwrap_err();
    assert_eq!(error, alone);
    assert_eq!(error, mismatch(ExpectedType::Int, "str"));
}

#[test]
fn array_column_reports_the_first_failure() {
    let ty = ColumnType::Array(Box::new(ColumnType::Integer));
    let list = plain(HostKind::List(vec![
        plain(integer(1)),
        plain(integer(i64::MAX as i128 + 1)),
        plain(text("three")),
    ]));
    let error = adapt(&list, &ty).unwrap_err();
    assert_eq!(error, AdaptError::Extraction(ExtractionFailure::SignedOverflow));
}

#[test]
fn array_column_rejects_what_is_no_list() {
    let ty = ColumnType::Array(Box::new(ColumnType::Integer));
    let error = adapt(&plain(integer(1)), &ty).unwrap_err();
    assert_eq!(error, mismatch(ExpectedType::List, "int"));
    assert_eq!(error.message(), "expected list, got int");
}

#[test]
fn nested_arrays_adapt_level_by_level() {
    let ty = ColumnType::Array(Box::new(ColumnType::Array(Box::new(ColumnType::Text))));
    let list = plain(HostKind::List(vec![
        plain(HostKind::List(vec![plain(text("a"))])),
        plain(HostKind::List(vec![])),
    ]));
    let value = adapt(&list, &ty).unwrap();
    assert_eq!(
        value,
        DeserializedValue::Array(vec![
            DeserializedValue::Array(vec![DeserializedValue::String("a".to_string())]),
            DeserializedValue::Array(vec![]),
        ])
    );
}

#[test]
fn vector_column_keeps_the_list_of_numbers() {
    let items = vec![plain(float(1.5)), plain(integer(2))];
    let value =
        adapt(&plain(HostKind::List(items.clone())), &ColumnType::Vector(Some(2))).unwrap();
    assert_eq!(value, DeserializedValue::Vector(items));
}

#[test]
fn vector_column_rejects_an_element_that_is_no_number() {
    let list = plain(HostKind::List(vec![plain(float(1.5)), plain(text("x")), plain(HostKind::Null)]));
    let error = adapt(&list, &ColumnType::Vector(None)).unwrap_err();
    assert_eq!(error, AdaptError::VectorElement { actual: "str".to_string() });
    assert_eq!(error.message(), "expected list of floats, found an \"str\" element");
    let error = adapt(&plain(float(1.5)), &ColumnType::Vector(None)).unwrap_err();
    assert_eq!(error, mismatch(ExpectedType::ListOfFloats, "float"));
    assert_eq!(error.message(), "expected list of floats, got float");
}

#[test]
fn inference_classifies_by_the_exact_type() {
    assert_eq!(infer(&plain(integer(5))).unwrap(), DeserializedValue::BigInt(5));
    assert_eq!(infer(&plain(float(0.25))).unwrap(), DeserializedValue::Double(0.25f64.to_bits()));
    assert_eq!(infer(&plain(text("s"))).unwrap(), DeserializedValue::String("s".to_string()));
    assert_eq!(infer(&plain(HostKind::Bytes(vec![1]))).unwrap(), DeserializedValue::Bytes(vec![1]));
    assert_eq!(
        infer(&plain(HostKind::Decimal("2.0".to_string()))).unwrap(),
        DeserializedValue::Decimal("2.0".to_string())
    );
    assert_eq!(infer(&plain(HostKind::Uuid(9))).unwrap(), DeserializedValue::Uuid(9));
    let d = date(2020, 1, 2);
    let t = time(3, 4, 5, 6);
    let dt = HostDateTime { date: d, time: t, zone: HostZone::Fixed(3600) };
    assert_eq!(infer(&plain(HostKind::Date(d))).unwrap(), DeserializedValue::ChronoDate(d));
    assert_eq!(infer(&plain(HostKind::Time(t))).unwrap(), DeserializedValue::ChronoTime(t));
    assert_eq!(
        infer(&plain(HostKind::DateTime(dt))).unwrap(),
        DeserializedValue::ChronoDateTime(dt)
    );
}

#[test]
fn inference_takes_a_boolean_for_a_boolean() {
    let value = ReturnableValue::infer_pyobject_type(plain(HostKind::Bool(true))).unwrap();
    assert_eq!(host_side(&value), DeserializedValue::Bool(true));
    assert_ne!(host_side(&value), DeserializedValue::BigInt(1));
}

#[test]
fn inference_takes_dictionaries_and_lists_for_json() {
    let dict = encoded(HostKind::Dict, "{}");
    assert_eq!(infer(&dict).unwrap(), DeserializedValue::Json(dict.clone()));
    let list = encoded(HostKind::List(vec![plain(integer(1))]), "[1]");
    assert_eq!(infer(&list).unwrap(), DeserializedValue::Json(list.clone()));
    let bad = rejected(HostKind::List(vec![]), "no");
    assert_eq!(infer(&bad).unwrap_err(), AdaptError::JsonCodec("no".to_string()));
}

#[test]
fn inference_overflows_on_a_large_integer() {
    let error = infer(&plain(integer(1i128 << 70))).unwrap_err();
    assert_eq!(error, AdaptError::Extraction(ExtractionFailure::SignedOverflow));
}

#[test]
fn inference_fails_on_an_unrecognized_type() {
    let error = infer(&plain(HostKind::Other("set".to_string()))).unwrap_err();
    assert_eq!(error, AdaptError::UnrecognizedType("set".to_string()));
    assert_eq!(error.message(), "could not infer SQL type for \"set\"");
    let error = infer(&plain(HostKind::Null)).unwrap_err();
    assert_eq!(error, AdaptError::UnrecognizedType("NoneType".to_string()));
}

#[test]
fn null_takes_the_fast_path_whatever_the_type() {
    let foreign = TypeDeclaration::Foreign;
    let boolean = TypeDeclaration::Plain(PlainColumn::Boolean);
    for declared in [None, Some(&foreign), Some(&boolean)] {
        let object = rejected(HostKind::Null, "never asked");
        let value = ReturnableValue::from_bound(object, declared).unwrap();
        assert_eq!(value.deserialized(), Some(&DeserializedValue::Null));
        assert_eq!(value.serialized(), Some(&RustValue::Null));
    }
}

#[test]
fn from_bound_follows_the_declared_type() {
    let integer = TypeDeclaration::Plain(PlainColumn::Integer);
    let value = ReturnableValue::from_bound(plain(HostKind::Bool(true)), Some(&integer)).unwrap();
    assert_eq!(host_side(&value), DeserializedValue::BigInt(1));
    let value = ReturnableValue::from_bound(plain(HostKind::Bool(true)), None).unwrap();
    assert_eq!(host_side(&value), DeserializedValue::Bool(true));
    let array = TypeDeclaration::Array(Box::new(TypeDeclaration::Plain(PlainColumn::Text)));
    let list = plain(HostKind::List(vec![plain(text("a"))]));
    let value = ReturnableValue::from_bound(list, Some(&array)).unwrap();
    assert_eq!(
        host_side(&value),
        DeserializedValue::Array(vec![DeserializedValue::String("a".to_string())])
    );
}

#[test]
fn from_bound_rejects_what_is_no_column_type() {
    let foreign = TypeDeclaration::Foreign;
    let error = ReturnableValue::from_bound(plain(integer(1)), Some(&foreign)).unwrap_err();
    assert_eq!(error, AdaptError::UnknownColumnType);
    assert_eq!(
        error.message(),
        "could not detect column type. are you sure you're using BaseColumnType instances?"
    );
    let nested = TypeDeclaration::Array(Box::new(TypeDeclaration::Foreign));
    let error = ReturnableValue::from_bound(plain(integer(1)), Some(&nested)).unwrap_err();
    assert_eq!(error, AdaptError::UnknownColumnType);
}

#[test]
fn scalars_pass_to_the_engine_unchanged() {
    assert_eq!(DeserializedValue::Null.serialize(), Ok(RustValue::Null));
    assert_eq!(DeserializedValue::Bool(false).serialize(), Ok(RustValue::Bool(false)));
    assert_eq!(DeserializedValue::BigInt(-42).serialize(), Ok(RustValue::BigInt(-42)));
    assert_eq!(DeserializedValue::BigUnsigned(42).serialize(), Ok(RustValue::BigUnsigned(42)));
    let bits = (-0.0f64).to_bits();
    assert_eq!(DeserializedValue::Double(bits).serialize(), Ok(RustValue::Double(bits)));
    assert_eq!(DeserializedValue::Uuid(u128::MAX).serialize(), Ok(RustValue::Uuid(u128::MAX)));
    assert_eq!(DeserializedValue::Bytes(vec![0, 1]).serialize(), Ok(RustValue::Bytes(vec![0, 1])));
}

#[test]
fn string_gives_its_utf8_bytes() {
    let value = DeserializedValue::String("h\u{e9}\u{0}llo \u{1F600}".to_string());
    assert_eq!(
        value.serialize(),
        Ok(RustValue::String("h\u{e9}\u{0}llo \u{1F600}".as_bytes().to_vec()))
    );
}

#[test]
fn json_is_read_by_the_engine() {
    let object = encoded(HostKind::Dict, "{ \"a\" : [1, 2.5, \"x\"], \"b\" : null }");
    let value = DeserializedValue::Json(object);
    assert_eq!(
        value.serialize(),
        Ok(RustValue::Json("{\"a\":[1,2.5,\"x\"],\"b\":null}".to_string()))
    );
    let scalar = DeserializedValue::Json(encoded(integer(5), " 5 "));
    assert_eq!(scalar.serialize(), Ok(RustValue::Json("5".to_string())));
}

#[test]
fn json_fails_where_the_encoder_or_the_text_fails() {
    let broken = DeserializedValue::Json(encoded(HostKind::Dict, "{\"a\": "));
    let error = broken.serialize().unwrap_err();
    assert_eq!(error, AdaptError::JsonParse);
    assert_eq!(error.message(), "the JSON form of the value cannot be parsed");
    let refused = DeserializedValue::Json(rejected(HostKind::Dict, "circular reference"));
    assert_eq!(refused.serialize(), Err(AdaptError::JsonCodec("circular reference".to_string())));
    let unasked = DeserializedValue::Json(plain(integer(1)));
    let error = unasked.serialize().unwrap_err();
    assert_eq!(error, AdaptError::JsonNotEncoded);
    assert_eq!(error.message(), "the JSON form of the value is not known");
}

#[test]
fn json_outcome_wraps_the_document() {
    assert_eq!(json_outcome(Some("[1]".to_string())), Ok(RustValue::Json("[1]".to_string())));
    assert_eq!(json_outcome(None), Err(AdaptError::JsonParse));
}

#[test]
fn decimal_outcome_wraps_the_decimal() {
    let d = EngineDecimal { mantissa: -5, scale: 1 };
    assert_eq!(decimal_outcome(Some(d)), Ok(RustValue::Decimal(d)));
    assert_eq!(
        decimal_outcome(None),
        Err(AdaptError::Extraction(ExtractionFailure::InvalidDecimal))
    );
}

#[test]
fn dates_have_to_exist() {
    let leap = date(2024, 2, 29);
    assert_eq!(DeserializedValue::ChronoDate(leap).serialize(), Ok(RustValue::ChronoDate(leap)));
    for bad in [date(2023, 2, 29), date(2023, 4, 31), date(2023, 0, 1), date(2023, 13, 1),
        date(2023, 1, 0), date(1900, 2, 29), date(262143, 1, 1), date(-262144, 1, 1)]
    {
        let error = DeserializedValue::ChronoDate(bad).serialize().unwrap_err();
        assert_eq!(error, AdaptError::Extraction(ExtractionFailure::InvalidDate));
        assert_eq!(error.message(), "invalid or out-of-range date");
    }
    for good in [date(2000, 2, 29), date(-4, 2, 29), date(262142, 12, 31), date(-262143, 1, 1)] {
        assert_eq!(DeserializedValue::ChronoDate(good).serialize(), Ok(RustValue::ChronoDate(good)));
    }
}

#[test]
fn times_have_to_exist() {
    let value = DeserializedValue::ChronoTime(time(23, 59, 59, 999_999)).serialize();
    let expected = EngineTime { hour: 23, minute: 59, second: 59, nanosecond: 999_999_000 };
    assert_eq!(value, Ok(RustValue::ChronoTime(expected)));
    let leap = DeserializedValue::ChronoTime(time(23, 59, 59, 1_999_999)).serialize();
    let expected = EngineTime { hour: 23, minute: 59, second: 59, nanosecond: 1_999_999_000 };
    assert_eq!(leap, Ok(RustValue::ChronoTime(expected)));
    for bad in [time(24, 0, 0, 0), time(0, 60, 0, 0), time(0, 0, 60, 0), time(0, 0, 58, 1_000_000),
        time(23, 59, 59, 2_000_000), time(0, 0, 0, u32::MAX)]
    {
        let error = DeserializedValue::ChronoTime(bad).serialize().unwrap_err();
        assert_eq!(error, AdaptError::Extraction(ExtractionFailure::InvalidTime));
        assert_eq!(error.message(), "invalid or out-of-range time");
    }
}

#[test]
fn datetime_without_a_time_zone_is_naive() {
    let dt = HostDateTime { date: date(2021, 3, 4), time: time(5, 6, 7, 8), zone: HostZone::Naive };
    let expected = EngineDateTime {
        date: date(2021, 3, 4),
        time: EngineTime { hour: 5, minute: 6, second: 7, nanosecond: 8000 },
    };
    assert_eq!(
        DeserializedValue::ChronoDateTime(dt).serialize(),
        Ok(RustValue::ChronoDateTime(expected))
    );
}

#[test]
fn datetime_with_a_fixed_offset_keeps_it() {
    let dt = HostDateTime {
        date: date(2021, 3, 4),
        time: time(5, 6, 7, 8),
        zone: HostZone::Fixed(-18_000),
    };
    let local = EngineDateTime {
        date: date(2021, 3, 4),
        time: EngineTime { hour: 5, minute: 6, second: 7, nanosecond: 8000 },
    };
    assert_eq!(
        DeserializedValue::ChronoDateTime(dt).serialize(),
        Ok(RustValue::ChronoDateTimeWithTimeZone(EngineZoned { local, offset: -18_000 }))
    );
}

#[test]
fn datetime_fails_on_its_time_zone_first() {
    let bad_date = date(2021, 2, 30);
    let variable = HostDateTime { date: bad_date, time: time(0, 0, 0, 0), zone: HostZone::Variable };
    let error = DeserializedValue::ChronoDateTime(variable).serialize().unwrap_err();
    assert_eq!(error, AdaptError::Extraction(ExtractionFailure::VariableOffset));
    for offset in [86_400, -86_400, i32::MAX, i32::MIN] {
        let dt = HostDateTime { date: bad_date, time: time(0, 0, 0, 0), zone: HostZone::Fixed(offset) };
        let error = DeserializedValue::ChronoDateTime(dt).serialize().unwrap_err();
        assert_eq!(error, AdaptError::Extraction(ExtractionFailure::OffsetOutOfBounds));
        assert_eq!(error.message(), "fixed offset out of bounds");
    }
    let dt = HostDateTime { date: bad_date, time: time(25, 0, 0, 0), zone: HostZone::Fixed(86_399) };
    let error = DeserializedValue::ChronoDateTime(dt).serialize().unwrap_err();
    assert_eq!(error, AdaptError::Extraction(ExtractionFailure::InvalidDate));
    let dt = HostDateTime { date: date(2021, 2, 28), time: time(25, 0, 0, 0), zone: HostZone::Naive };
    let error = DeserializedValue::ChronoDateTime(dt).serialize().unwrap_err();
    assert_eq!(error, AdaptError::Extraction(ExtractionFailure::InvalidTime));
}

#[test]
fn datetime_fails_where_the_instant_leaves_the_calendar() {
    let first = HostDateTime {
        date: date(-262143, 1, 1),
        time: time(0, 59, 59, 0),
        zone: HostZone::Fixed(3600),
    };
    let error = DeserializedValue::ChronoDateTime(first).serialize().unwrap_err();
    assert_eq!(error, AdaptError::Extraction(ExtractionFailure::InstantOutOfRange));
    let inside = HostDateTime {
        date: date(-262143, 1, 1),
        time: time(1, 0, 0, 0),
        zone: HostZone::Fixed(3600),
    };
    assert!(DeserializedValue::ChronoDateTime(inside).serialize().is_ok());
    let last = HostDateTime {
        date: date(262142, 12, 31),
        time: time(23, 0, 0, 0),
        zone: HostZone::Fixed(-3600),
    };
    let error = DeserializedValue::ChronoDateTime(last).serialize().unwrap_err();
    assert_eq!(error, AdaptError::Extraction(ExtractionFailure::InstantOutOfRange));
    let inside = HostDateTime {
        date: date(262142, 12, 31),
        time: time(22, 59, 59, 0),
        zone: HostZone::Fixed(-3600),
    };
    assert!(DeserializedValue::ChronoDateTime(inside).serialize().is_ok());
    let second_day = HostDateTime {
        date: date(-262143, 1, 2),
        time: time(0, 0, 0, 0),
        zone: HostZone::Fixed(3600),
    };
    assert!(DeserializedValue::ChronoDateTime(second_day).serialize().is_ok());
}

#[test]
fn decimal_is_read_from_its_text() {
    let value = DeserializedValue::Decimal("1.50".to_string()).serialize();
    assert_eq!(value, Ok(RustValue::Decimal(EngineDecimal { mantissa: 150, scale: 2 })));
    let value = DeserializedValue::Decimal("-0.001".to_string()).serialize();
    assert_eq!(value, Ok(RustValue::Decimal(EngineDecimal { mantissa: -1, scale: 3 })));
    let value = DeserializedValue::Decimal("1.2E+3".to_string()).serialize();
    assert_eq!(value, Ok(RustValue::Decimal(EngineDecimal { mantissa: 1200, scale: 0 })));
    let value = DeserializedValue::Decimal("9.7e-7".to_string()).serialize();
    assert_eq!(value, Ok(RustValue::Decimal(EngineDecimal { mantissa: 97, scale: 8 })));
}

#[test]
fn decimal_fails_on_what_the_engine_cannot_hold() {
    for bad in ["NaN", "Infinity", "", "abc", "1e-40"] {
        let error = DeserializedValue::Decimal(bad.to_string()).serialize().unwrap_err();
        assert_eq!(error, AdaptError::Extraction(ExtractionFailure::InvalidDecimal));
        assert_eq!(error.message(), "invalid decimal");
    }
}

#[test]
fn array_serializes_each_item_and_fails_on_the_first_error() {
    let value = DeserializedValue::Array(vec![
        DeserializedValue::BigInt(1),
        DeserializedValue::String("a".to_string()),
    ]);
    assert_eq!(
        value.serialize(),
        Ok(RustValue::Array(vec![RustValue::BigInt(1), RustValue::String(vec![b'a'])]))
    );
    let failing = DeserializedValue::Array(vec![
        DeserializedValue::BigInt(1),
        DeserializedValue::ChronoDate(date(2023, 2, 29)),
        DeserializedValue::Decimal("abc".to_string()),
    ]);
    assert_eq!(
        failing.serialize(),
        Err(AdaptError::Extraction(ExtractionFailure::InvalidDate))
    );
}

#[test]
fn vector_gives_single_precision_numbers() {
    let value = DeserializedValue::Vector(vec![plain(float(1.5)), plain(integer(2)), plain(float(0.1))]);
    assert_eq!(
        value.serialize(),
        Ok(RustValue::Vector(vec![1.5f32.to_bits(), 2.0f32.to_bits(), 0.1f32.to_bits()]))
    );
}

#[test]
fn vector_fails_on_an_element_without_a_single_precision_form() {
    let not_a_number = DeserializedValue::Vector(vec![plain(float(1.0)), plain(text("x"))]);
    assert_eq!(
        not_a_number.serialize(),
        Err(AdaptError::VectorElement { actual: "str".to_string() })
    );
    let huge = HostKind::Int(HostInt { value: None, float: None });
    assert_eq!(
        DeserializedValue::Vector(vec![plain(huge)]).serialize(),
        Err(AdaptError::Extraction(ExtractionFailure::FloatOverflow))
    );
    let unknown = HostKind::Float(HostReal { double: 1.0f64.to_bits(), single: None });
    let error = DeserializedValue::Vector(vec![plain(unknown)]).serialize().unwrap_err();
    assert_eq!(error, AdaptError::Extraction(ExtractionFailure::NoSinglePrecision));
    assert_eq!(error.message(), "number has no single-precision form");
}

#[test]
fn engine_scalars_pass_to_the_host_unchanged() {
    assert_eq!(RustValue::Null.deserialize(), Ok(DeserializedValue::Null));
    assert_eq!(RustValue::Bool(true).deserialize(), Ok(DeserializedValue::Bool(true)));
    assert_eq!(RustValue::BigInt(-1).deserialize(), Ok(DeserializedValue::BigInt(-1)));
    assert_eq!(RustValue::BigUnsigned(1).deserialize(), Ok(DeserializedValue::BigUnsigned(1)));
    assert_eq!(RustValue::Double(7).deserialize(), Ok(DeserializedValue::Double(7)));
    assert_eq!(RustValue::Uuid(3).deserialize(), Ok(DeserializedValue::Uuid(3)));
    assert_eq!(RustValue::Bytes(vec![255]).deserialize(), Ok(DeserializedValue::Bytes(vec![255])));
}

#[test]
fn engine_string_becomes_a_host_string() {
    let bytes = "na\u{ef}ve \u{4e16}\u{754c}".as_bytes().to_vec();
    assert_eq!(
        RustValue::String(bytes).deserialize(),
        Ok(DeserializedValue::String("na\u{ef}ve \u{4e16}\u{754c}".to_string()))
    );
}

#[test]
fn engine_json_becomes_a_decoded_object() {
    let value = RustValue::Json("{\"a\":1}".to_string()).deserialize().unwrap();
    assert_eq!(value, DeserializedValue::Json(encoded(HostKind::Decoded, "{\"a\":1}")));
}

#[test]
fn engine_dates_have_to_lie_in_the_host_calendar() {
    let d = date(9999, 12, 31);
    assert_eq!(RustValue::ChronoDate(d).deserialize(), Ok(DeserializedValue::ChronoDate(d)));
    let d = date(1, 1, 1);
    assert_eq!(RustValue::ChronoDate(d).deserialize(), Ok(DeserializedValue::ChronoDate(d)));
    let midnight = EngineTime { hour: 0, minute: 0, second: 0, nanosecond: 0 };
    for year in [0, -1, 10_000] {
        let d = date(year, 1, 1);
        let error = RustValue::ChronoDate(d).deserialize().unwrap_err();
        assert_eq!(error, AdaptError::Extraction(ExtractionFailure::YearOutOfHostRange));
        assert_eq!(error.message(), "year is out of range");
        let local = EngineDateTime { date: d, time: midnight };
        assert_eq!(
            RustValue::ChronoDateTime(local).deserialize(),
            Err(AdaptError::Extraction(ExtractionFailure::YearOutOfHostRange))
        );
        assert_eq!(
            RustValue::ChronoDateTimeWithTimeZone(EngineZoned { local, offset: 0 }).deserialize(),
            Err(AdaptError::Extraction(ExtractionFailure::YearOutOfHostRange))
        );
    }
}

#[test]
fn engine_time_alone_comes_to_the_microsecond() {
    let t = EngineTime { hour: 1, minute: 2, second: 3, nanosecond: 456_789_123 };
    assert_eq!(
        RustValue::ChronoTime(t).deserialize(),
        Ok(DeserializedValue::ChronoTime(time(1, 2, 3, 456_789)))
    );
    let leap = EngineTime { hour: 23, minute: 59, second: 59, nanosecond: 1_000_001_000 };
    assert_eq!(
        RustValue::ChronoTime(leap).deserialize(),
        Ok(DeserializedValue::ChronoTime(time(23, 59, 59, 1)))
    );
}

#[test]
fn engine_datetime_comes_to_the_microsecond() {
    let local = EngineDateTime {
        date: date(2020, 5, 6),
        time: EngineTime { hour: 1, minute: 2, second: 3, nanosecond: 456_789_123 },
    };
    let expected = HostDateTime { date: date(2020, 5, 6), time: time(1, 2, 3, 456_789), zone: HostZone::Naive };
    assert_eq!(
        RustValue::ChronoDateTime(local).deserialize(),
        Ok(DeserializedValue::ChronoDateTime(expected))
    );
    let zoned = EngineZoned { local, offset: 7200 };
    let expected = HostDateTime { zone: HostZone::Fixed(7200), ..expected };
    assert_eq!(
        RustValue::ChronoDateTimeWithTimeZone(zoned).deserialize(),
        Ok(DeserializedValue::ChronoDateTime(expected))
    );
}

#[test]
fn engine_leap_second_is_taken_off() {
    let local = EngineDateTime {
        date: date(2016, 12, 31),
        time: EngineTime { hour: 23, minute: 59, second: 59, nanosecond: 1_500_000_000 },
    };
    let expected = HostDateTime {
        date: date(2016, 12, 31),
        time: time(23, 59, 59, 500_000),
        zone: HostZone::Naive,
    };
    assert_eq!(
        RustValue::ChronoDateTime(local).deserialize(),
        Ok(DeserializedValue::ChronoDateTime(expected))
    );
}

#[test]
fn engine_decimal_is_written_as_text() {
    let d = EngineDecimal { mantissa: 150, scale: 2 };
    assert_eq!(RustValue::Decimal(d).deserialize(), Ok(DeserializedValue::Decimal("1.50".to_string())));
    let d = EngineDecimal { mantissa: -97, scale: 8 };
    assert_eq!(
        RustValue::Decimal(d).deserialize(),
        Ok(DeserializedValue::Decimal("-0.00000097".to_string()))
    );
}

#[test]
fn engine_array_converts_each_item_and_fails_on_the_first_error() {
    let value = RustValue::Array(vec![RustValue::BigInt(1), RustValue::String(vec![b'a'])]);
    assert_eq!(
        value.deserialize(),
        Ok(DeserializedValue::Array(vec![
            DeserializedValue::BigInt(1),
            DeserializedValue::String("a".to_string()),
        ]))
    );
    let failing = RustValue::Array(vec![RustValue::Null, RustValue::ChronoDate(date(0, 1, 1))]);
    assert_eq!(
        failing.deserialize(),
        Err(AdaptError::Extraction(ExtractionFailure::YearOutOfHostRange))
    );
}

#[test]
fn engine_vector_becomes_a_list_of_floats() {
    let value = RustValue::Vector(vec![1.5f32.to_bits(), (-0.1f32).to_bits()]).deserialize().unwrap();
    let expected = DeserializedValue::Vector(vec![
        plain(HostKind::Float(HostReal { double: 1.5f64.to_bits(), single: Some(1.5f32.to_bits()) })),
        plain(HostKind::Float(HostReal {
            double: ((-0.1f32) as f64).to_bits(),
            single: Some((-0.1f32).to_bits()),
        })),
    ]);
    assert_eq!(value, expected);
}

#[test]
fn host_values_make_the_trip_to_the_engine_and_back() {
    let values = vec![
        DeserializedValue::Null,
        DeserializedValue::Bool(true),
        DeserializedValue::BigInt(i64::MIN),
        DeserializedValue::BigUnsigned(u64::MAX),
        DeserializedValue::Double(f64::NAN.to_bits()),
        DeserializedValue::Double((-0.0f64).to_bits()),
        DeserializedValue::String("gr\u{fc}\u{df}e".to_string()),
        DeserializedValue::Bytes(vec![0, 128, 255]),
        DeserializedValue::Json(encoded(HostKind::Decoded, "{\"k\":[1,\"two\",null,true]}")),
        DeserializedValue::ChronoDate(date(2024, 2, 29)),
        DeserializedValue::ChronoTime(time(12, 30, 45, 999_999)),
        DeserializedValue::ChronoDateTime(HostDateTime {
            date: date(1999, 12, 31),
            time: time(23, 59, 59, 999_999),
            zone: HostZone::Naive,
        }),
        DeserializedValue::ChronoDateTime(HostDateTime {
            date: date(1999, 12, 31),
            time: time(23, 59, 59, 1),
            zone: HostZone::Fixed(19_800),
        }),
        DeserializedValue::Uuid(0x1234_5678_9abc_def0_1234_5678_9abc_def0),
        DeserializedValue::Decimal("-12345.67800".to_string()),
        DeserializedValue::Array(vec![
            DeserializedValue::BigInt(1),
            DeserializedValue::Array(vec![DeserializedValue::String("x".to_string())]),
        ]),
        DeserializedValue::Vector(vec![
            plain(HostKind::Float(HostReal { double: 0.5f64.to_bits(), single: Some(0.5f32.to_bits()) })),
        ]),
    ];
    for value in values {
        let engine = value.serialize().unwrap();
        assert_eq!(engine.deserialize().unwrap(), value);
    }
}

#[test]
fn host_time_keeps_its_microseconds() {
    let value = DeserializedValue::ChronoTime(time(12, 34, 56, 789));
    let engine = value.serialize().unwrap();
    assert_eq!(
        engine,
        RustValue::ChronoTime(EngineTime { hour: 12, minute: 34, second: 56, nanosecond: 789_000 })
    );
    assert_eq!(engine.deserialize().unwrap(), DeserializedValue::ChronoTime(time(12, 34, 56, 789)));
}

#[test]
fn host_time_in_a_leap_second_does_not_come_back() {
    let value = DeserializedValue::ChronoTime(time(23, 59, 59, 1_000_007));
    let engine = value.serialize().unwrap();
    assert_eq!(engine.deserialize().unwrap(), DeserializedValue::ChronoTime(time(23, 59, 59, 7)));
}

#[test]
fn engine_values_make_the_trip_to_the_host_and_back() {
    let values = vec![
        RustValue::Null,
        RustValue::Bool(false),
        RustValue::BigInt(-7),
        RustValue::BigUnsigned(7),
        RustValue::Double(f64::INFINITY.to_bits()),
        RustValue::String("\u{1F980} rust".as_bytes().to_vec()),
        RustValue::String(vec![]),
        RustValue::Bytes(vec![1, 2, 3]),
        RustValue::Json("{\"a\":[1,2.5,\"x\"],\"b\":null}".to_string()),
        RustValue::ChronoDate(date(1, 1, 1)),
        RustValue::ChronoTime(EngineTime { hour: 23, minute: 0, second: 1, nanosecond: 123_456_000 }),
        RustValue::ChronoDateTime(EngineDateTime {
            date: date(2020, 2, 29),
            time: EngineTime { hour: 1, minute: 2, second: 3, nanosecond: 4_000 },
        }),
        RustValue::ChronoDateTimeWithTimeZone(EngineZoned {
            local: EngineDateTime {
                date: date(2020, 2, 29),
                time: EngineTime { hour: 1, minute: 2, second: 3, nanosecond: 999_999_000 },
            },
            offset: -86_399,
        }),
        RustValue::Uuid(1),
        RustValue::Decimal(EngineDecimal { mantissa: 79_228_162_514_264_337_593_543_950_335, scale: 28 }),
        RustValue::Decimal(EngineDecimal { mantissa: -100, scale: 2 }),
        RustValue::Array(vec![RustValue::Null, RustValue::Array(vec![RustValue::BigInt(2)])]),
        RustValue::Vector(vec![0, 1, 0x7fc0_0000, 0x8000_0000, 1.5f32.to_bits()]),
    ];
    for value in values {
        let host = value.deserialize().unwrap();
        assert_eq!(format!("{:?}", host.serialize().unwrap()), format!("{:?}", value));
    }
}

#[test]
fn engine_time_below_the_microsecond_does_not_come_back() {
    let value = RustValue::ChronoTime(EngineTime { hour: 1, minute: 2, second: 3, nanosecond: 5_005 });
    let host = value.deserialize().unwrap();
    let back = host.serialize().unwrap();
    assert_eq!(
        back,
        RustValue::ChronoTime(EngineTime { hour: 1, minute: 2, second: 3, nanosecond: 5_000 })
    );
}

#[test]
fn engine_equality_compares_numbers_as_numbers() {
    let zero = RustValue::Array(vec![RustValue::Double(0.0f64.to_bits()), RustValue::String(vec![1])]);
    let same = RustValue::Array(vec![RustValue::Double(0.0f64.to_bits()), RustValue::String(vec![1])]);
    let minus = RustValue::Array(vec![RustValue::Double((-0.0f64).to_bits()), RustValue::String(vec![1])]);
    assert!(zero.equals(&same));
    assert!(zero.equals(&minus) && minus.equals(&zero));
    assert!(zero == minus);
    let nan = RustValue::Double(f64::NAN.to_bits());
    assert!(!nan.equals(&nan));
    assert!(nan != nan);
    assert!(!nan.equals(&RustValue::Double(1.0f64.to_bits())));
    assert!(!RustValue::Double(0x7ff0_0000_0000_0001).equals(&RustValue::Double(0x7ff0_0000_0000_0001)));
    assert!(!RustValue::Double(0xfff8_0000_0000_0000).equals(&RustValue::Double(0xfff8_0000_0000_0000)));
    let infinity = RustValue::Double(f64::INFINITY.to_bits());
    assert!(infinity.equals(&infinity));
    assert!(!infinity.equals(&RustValue::Double(f64::NEG_INFINITY.to_bits())));
    assert!(RustValue::Double(1.5f64.to_bits()).equals(&RustValue::Double(1.5f64.to_bits())));
    assert!(!RustValue::Double(1.5f64.to_bits()).equals(&RustValue::Double(2.5f64.to_bits())));
    assert!(!RustValue::Array(vec![nan.clone()]).equals(&RustValue::Array(vec![nan.clone()])));
}

#[test]
fn engine_equality_compares_vectors_item_for_item() {
    let plain = RustValue::Vector(vec![1.5f32.to_bits(), 0.0f32.to_bits()]);
    let signed = RustValue::Vector(vec![1.5f32.to_bits(), (-0.0f32).to_bits()]);
    assert!(plain.equals(&signed));
    assert!(!plain.equals(&RustValue::Vector(vec![1.5f32.to_bits()])));
    assert!(!plain.equals(&RustValue::Vector(vec![0.0f32.to_bits(), 1.5f32.to_bits()])));
    let nan = RustValue::Vector(vec![f32::NAN.to_bits()]);
    assert!(!nan.equals(&nan));
    assert!(!RustValue::Vector(vec![0x7f80_0001]).equals(&RustValue::Vector(vec![0x7f80_0001])));
    assert!(RustValue::Vector(vec![0x7f80_0000]).equals(&RustValue::Vector(vec![0x7f80_0000])));
    assert!(RustValue::Vector(vec![]).equals(&RustValue::Vector(vec![])));
}

#[test]
fn engine_equality_compares_the_rest_part_for_part() {
    let a = RustValue::Array(vec![RustValue::BigInt(1), RustValue::String(vec![1])]);
    assert!(a.equals(&a.clone()));
    assert!(!a.equals(&RustValue::Array(vec![RustValue::BigInt(1)])));
    assert!(!a.equals(&RustValue::Array(vec![RustValue::BigInt(1), RustValue::String(vec![2])])));
    assert!(!RustValue::String(vec![1]).equals(&RustValue::Bytes(vec![1])));
    assert!(!RustValue::BigInt(1).equals(&RustValue::BigUnsigned(1)));
    assert!(!RustValue::Double(0).equals(&RustValue::BigUnsigned(0)));
    assert!(RustValue::Json("1".to_string()).equals(&RustValue::Json("1".to_string())));
    assert!(RustValue::Null.equals(&RustValue::Null));
    assert!(RustValue::Uuid(1).equals(&RustValue::Uuid(1)) && !RustValue::Uuid(1).equals(&RustValue::Uuid(2)));
    let noon = EngineTime { hour: 12, minute: 0, second: 0, nanosecond: 0 };
    let naive = |day| RustValue::ChronoDateTime(EngineDateTime { date: date(2021, 6, day), time: noon });
    assert!(naive(15).equals(&naive(15)) && !naive(15).equals(&naive(16)));
    assert!(RustValue::ChronoTime(noon).equals(&RustValue::ChronoTime(noon)));
}

fn decimal(mantissa: i128, scale: u32) -> RustValue {
    RustValue::Decimal(EngineDecimal { mantissa, scale })
}

#[test]
fn engine_equality_compares_decimals_as_numbers() {
    assert!(decimal(10, 1).equals(&decimal(100, 2)));
    assert!(decimal(10, 1).equals(&decimal(1, 0)));
    assert!(decimal(10, 1) == decimal(1, 0));
    assert!(decimal(15, 1).equals(&decimal(150, 2)));
    assert!(decimal(-15, 1).equals(&decimal(-1_500, 3)));
    assert!(decimal(0, 0).equals(&decimal(0, 28)));
    assert!(decimal(1, 28).equals(&decimal(1, 28)));
    assert!(!decimal(15, 1).equals(&decimal(-15, 1)));
    assert!(!decimal(15, 1).equals(&decimal(15, 2)));
    assert!(!decimal(1, 28).equals(&decimal(0, 0)));
    let largest = 79_228_162_514_264_337_593_543_950_335;
    assert!(decimal(largest, 0).equals(&decimal(largest, 0)));
    assert!(!decimal(largest, 0).equals(&decimal(largest, 1)));
    assert!(!decimal(largest, 28).equals(&decimal(7, 0)));
    assert!(decimal(7_000, 3).equals(&decimal(7, 0)));
    let beyond = 79_228_162_514_264_337_593_543_950_336;
    assert!(decimal(beyond, 0).equals(&decimal(beyond, 0)));
    assert!(!decimal(beyond, 0).equals(&decimal(beyond * 10, 1)));
    assert!(!decimal(1, 29).equals(&decimal(10, 30)));
}

fn zoned(year: i32, month: u32, day: u32, hour: u32, minute: u32, offset: i32) -> RustValue {
    RustValue::ChronoDateTimeWithTimeZone(EngineZoned {
        local: EngineDateTime {
            date: date(year, month, day),
            time: EngineTime { hour, minute, second: 0, nanosecond: 0 },
        },
        offset,
    })
}

#[test]
fn engine_equality_compares_datetimes_at_an_offset_as_instants() {
    assert!(zoned(2021, 6, 15, 12, 0, 7200).equals(&zoned(2021, 6, 15, 10, 0, 0)));
    assert!(zoned(2021, 6, 15, 12, 0, 7200) == zoned(2021, 6, 15, 10, 0, 0));
    assert!(!zoned(2021, 6, 15, 12, 0, 7200).equals(&zoned(2021, 6, 15, 12, 0, 0)));
    assert!(zoned(2024, 3, 1, 0, 30, 3600).equals(&zoned(2024, 2, 29, 23, 30, 0)));
    assert!(!zoned(2024, 3, 1, 0, 30, 3600).equals(&zoned(2024, 2, 28, 23, 30, 0)));
    assert!(zoned(2023, 3, 1, 0, 30, 3600).equals(&zoned(2023, 2, 28, 23, 30, 0)));
    assert!(zoned(2024, 1, 1, 0, 0, 0).equals(&zoned(2023, 12, 31, 19, 0, -18_000)));
    assert!(zoned(1, 1, 1, 0, 0, 0).equals(&zoned(0, 12, 31, 23, 0, -3600)));
    assert!(zoned(0, 1, 1, 0, 0, 0).equals(&zoned(-1, 12, 31, 23, 0, -3600)));
    assert!(zoned(1900, 3, 1, 0, 0, 3600).equals(&zoned(1900, 2, 28, 23, 0, 0)));
    assert!(zoned(2000, 3, 1, 0, 0, 3600).equals(&zoned(2000, 2, 29, 23, 0, 0)));
    assert!(zoned(-4, 3, 1, 0, 0, 3600).equals(&zoned(-4, 2, 29, 23, 0, 0)));
    assert!(zoned(-100, 3, 1, 0, 0, 3600).equals(&zoned(-100, 2, 28, 23, 0, 0)));
    assert!(zoned(2021, 6, 15, 23, 59, 86_340).equals(&zoned(2021, 6, 14, 23, 59, -60)));
    assert!(!zoned(2021, 6, 15, 23, 59, 86_399).equals(&zoned(2021, 6, 14, 23, 59, -60)));
    let with_nanos = |nanosecond: u32, offset: i32, hour: u32| {
        RustValue::ChronoDateTimeWithTimeZone(EngineZoned {
            local: EngineDateTime {
                date: date(2021, 6, 15),
                time: EngineTime { hour, minute: 59, second: 59, nanosecond },
            },
            offset,
        })
    };
    assert!(with_nanos(5, 3600, 11).equals(&with_nanos(5, 0, 10)));
    assert!(!with_nanos(5, 3600, 11).equals(&with_nanos(6, 0, 10)));
    assert!(with_nanos(1_000_000_005, 3600, 11).equals(&with_nanos(1_000_000_005, 0, 10)));
    assert!(!with_nanos(1_000_000_005, 0, 10).equals(&with_nanos(5, 0, 10)));
    let no_date = zoned(2021, 2, 30, 12, 0, 7200);
    assert!(no_date.equals(&zoned(2021, 2, 30, 12, 0, 7200)));
    assert!(!no_date.equals(&zoned(2021, 2, 30, 10, 0, 0)));
}

#[test]
fn engine_equality_compares_json_as_documents() {
    let json = |text: &str| RustValue::Json(text.to_string());
    assert!(json("1").equals(&json("1")));
    assert!(json("0.0").equals(&json("-0.0")));
    assert!(json("{\"a\":1,\"b\":[true,null]}").equals(&json("{ \"b\": [true, null], \"a\": 1 }")));
    assert!(json("1") == json(" 1 "));
    assert!(!json("1").equals(&json("1.0")));
    assert!(!json("1").equals(&json("2")));
    assert!(!json("[1,2]").equals(&json("[2,1]")));
    assert!(!json("\"a\"").equals(&json("\"b\"")));
    assert!(json("{broken").equals(&json("{broken")));
    assert!(!json("{broken").equals(&json("{}")));
    assert!(!json("{}").equals(&json("{broken")));
    assert!(documents_verdict(Some(true), false) && !documents_verdict(Some(false), true));
    assert!(documents_verdict(None, true) && !documents_verdict(None, false));
}

#[test]
fn as_pyobject_gives_the_host_object() {
    assert_eq!(DeserializedValue::Null.as_pyobject(), plain(HostKind::Null));
    assert_eq!(DeserializedValue::Bool(true).as_pyobject(), plain(HostKind::Bool(true)));
    assert_eq!(
        DeserializedValue::BigInt(-3).as_pyobject(),
        plain(HostKind::Int(HostInt { value: Some(-3), float: None }))
    );
    assert_eq!(
        DeserializedValue::BigUnsigned(u64::MAX).as_pyobject(),
        plain(HostKind::Int(HostInt { value: Some(u64::MAX as i128), float: None }))
    );
    assert_eq!(
        DeserializedValue::Double(9).as_pyobject(),
        plain(HostKind::Float(HostReal { double: 9, single: None }))
    );
    let object = encoded(HostKind::Dict, "{}");
    assert_eq!(DeserializedValue::Json(object.clone()).as_pyobject(), object);
    let array = DeserializedValue::Array(vec![
        DeserializedValue::String("a".to_string()),
        DeserializedValue::Array(vec![DeserializedValue::Uuid(1)]),
    ]);
    assert_eq!(
        array.as_pyobject(),
        plain(HostKind::List(vec![
            plain(text("a")),
            plain(HostKind::List(vec![plain(HostKind::Uuid(1))])),
        ]))
    );
    let items = vec![plain(float(1.0))];
    assert_eq!(
        DeserializedValue::Vector(items.clone()).as_pyobject(),
        plain(HostKind::List(items))
    );
}

#[test]
fn copies_are_equal_to_what_they_copy() {
    let host = DeserializedValue::Array(vec![
        DeserializedValue::Json(encoded(HostKind::List(vec![plain(integer(1))]), "[1]")),
        DeserializedValue::Decimal("1".to_string()),
    ]);
    assert_eq!(host.clone(), host);
    let engine = RustValue::Array(vec![RustValue::Vector(vec![1]), RustValue::String(vec![2])]);
    assert_eq!(engine.clone(), engine);
    let value = ReturnableValue::from_deserialized(host.clone());
    let copy = value.clone();
    assert_eq!(copy.deserialized(), Some(&host));
    assert_eq!(copy.serialized(), None);
    let mut filled = ReturnableValue::from_deserialized(host.clone());
    let engine = filled.serialize().unwrap().clone();
    let copy = filled.clone();
    assert_eq!(copy.deserialized(), Some(&host));
    assert_eq!(copy.serialized(), Some(&engine));
}

#[test]
fn serialize_fills_the_engine_form_once() {
    let mut value = ReturnableValue::from_deserialized(DeserializedValue::String("abc".to_string()));
    assert!(!value.has_serialized());
    let first = value.serialize().unwrap().clone();
    assert_eq!(first, RustValue::String(vec![b'a', b'b', b'c']));
    assert!(value.has_serialized());
    let second = value.serialize().unwrap().clone();
    assert_eq!(first, second);
    assert_eq!(value.deserialized(), Some(&DeserializedValue::String("abc".to_string())));
}

#[test]
fn deserialize_fills_the_host_form_once() {
    let mut value = ReturnableValue::from_serialized(RustValue::BigInt(5));
    assert!(!value.has_deserialized());
    let first = value.deserialize().unwrap().clone();
    assert_eq!(first, DeserializedValue::BigInt(5));
    let second = value.deserialize().unwrap().clone();
    assert_eq!(first, second);
    assert_eq!(value.serialized(), Some(&RustValue::BigInt(5)));
}

#[test]
fn a_failed_fill_caches_nothing() {
    let host = DeserializedValue::ChronoDate(date(2023, 2, 30));
    let mut value = ReturnableValue::from_deserialized(host.clone());
    for _ in 0..2 {
        assert_eq!(
            value.serialize().unwrap_err(),
            AdaptError::Extraction(ExtractionFailure::InvalidDate)
        );
        assert!(!value.has_serialized());
        assert_eq!(value.deserialized(), Some(&host));
    }
    let mut value = ReturnableValue::from_serialized(RustValue::ChronoDate(date(0, 1, 1)));
    for _ in 0..2 {
        assert!(value.deserialize().is_err());
        assert!(!value.has_deserialized());
    }
}

#[test]
fn create_simple_expr_forces_the_engine_form() {
    let mut value = ReturnableValue::from_deserialized(DeserializedValue::BigInt(3));
    assert_eq!(value.create_simple_expr(), Ok(BuilderValue::BigInt(3)));
    assert_eq!(value.serialized(), Some(&RustValue::BigInt(3)));
}

#[test]
fn handles_on_engine_values_compare_without_the_host() {
    let mut a = PyAdaptedValue::from_serialized(RustValue::String(vec![b'x']));
    let mut b = PyAdaptedValue::from_serialized(RustValue::String(vec![b'x']));
    let mut c = PyAdaptedValue::from_serialized(RustValue::String(vec![b'y']));
    assert_eq!(a.__eq__(&mut b), Ok(Comparison::Decided(true)));
    assert_eq!(a.__eq__(&mut c), Ok(Comparison::Decided(false)));
    assert_eq!(a.__ne__(&mut b), Ok(Comparison::Decided(false)));
    assert_eq!(a.__ne__(&mut c), Ok(Comparison::Decided(true)));
    let mut nan = PyAdaptedValue::from_serialized(RustValue::Double(f64::NAN.to_bits()));
    let mut also_nan = PyAdaptedValue::from_serialized(RustValue::Double(f64::NAN.to_bits()));
    assert_eq!(nan.__eq__(&mut also_nan), Ok(Comparison::Decided(false)));
    assert_eq!(nan.__ne__(&mut also_nan), Ok(Comparison::Decided(true)));
    let mut zero = PyAdaptedValue::from_serialized(RustValue::Double(0.0f64.to_bits()));
    let mut minus = PyAdaptedValue::from_serialized(RustValue::Double((-0.0f64).to_bits()));
    assert_eq!(zero.__eq__(&mut minus), Ok(Comparison::Decided(true)));
    assert_eq!(zero.__ne__(&mut minus), Ok(Comparison::Decided(false)));
    assert!(!nan.inner().has_deserialized() && !zero.inner().has_deserialized());
    let mut short = PyAdaptedValue::from_serialized(decimal(15, 1));
    let mut long = PyAdaptedValue::from_serialized(decimal(150, 2));
    assert_eq!(short.__eq__(&mut long), Ok(Comparison::Decided(true)));
    assert_eq!(short.__ne__(&mut long), Ok(Comparison::Decided(false)));
    let mut east = PyAdaptedValue::from_serialized(zoned(2021, 6, 15, 12, 0, 7200));
    let mut west = PyAdaptedValue::from_serialized(zoned(2021, 6, 15, 10, 0, 0));
    assert_eq!(east.__eq__(&mut west), Ok(Comparison::Decided(true)));
    assert_eq!(east.__ne__(&mut west), Ok(Comparison::Decided(false)));
    assert!(!short.inner().has_deserialized() && !east.inner().has_deserialized());
    assert_eq!(PyAdaptedValue::compare_same(false), Comparison::Decided(true));
    assert_eq!(PyAdaptedValue::compare_same(true), Comparison::Decided(false));
    assert!(!a.inner().has_deserialized());
    assert!(!b.inner().has_deserialized());
    assert!(!c.inner().has_deserialized());
}

#[test]
fn handles_without_both_engine_forms_ask_the_host() {
    let mut a = PyAdaptedValue::new(plain(integer(1)), None).unwrap();
    let mut b = PyAdaptedValue::from_serialized(RustValue::BigInt(1));
    let asked = a.__eq__(&mut b).unwrap();
    let object = plain(HostKind::Int(HostInt { value: Some(1), float: None }));
    assert_eq!(
        asked,
        Comparison::ByHost { left: object.clone(), right: object.clone(), negate: false }
    );
    assert!(b.inner().has_deserialized());
    assert!(!a.inner().has_serialized());
    let asked = b.__ne__(&mut a).unwrap();
    assert_eq!(asked, Comparison::ByHost { left: object.clone(), right: object, negate: true });
    assert!(PyAdaptedValue::conclude(true, false));
    assert!(!PyAdaptedValue::conclude(true, true));
    assert!(PyAdaptedValue::conclude(false, true));
}

#[test]
fn comparison_fails_where_the_host_form_cannot_be_made() {
    let mut a = PyAdaptedValue::new(plain(integer(1)), None).unwrap();
    let mut b = PyAdaptedValue::from_serialized(RustValue::ChronoDate(date(0, 1, 1)));
    assert_eq!(
        a.__eq__(&mut b),
        Err(AdaptError::Extraction(ExtractionFailure::YearOutOfHostRange))
    );
}

#[test]
fn handle_predicates_read_either_form() {
    let null = PyAdaptedValue::new(plain(HostKind::Null), None).unwrap();
    assert!(null.is_null());
    assert!(!null.is_integer());
    let unsigned = PyAdaptedValue::from_serialized(RustValue::BigUnsigned(1));
    assert!(unsigned.is_integer() && !unsigned.is_float() && !unsigned.is_boolean());
    assert!(PyAdaptedValue::new(plain(integer(1)), None).unwrap().is_integer());
    assert!(PyAdaptedValue::new(plain(float(1.0)), None).unwrap().is_float());
    assert!(PyAdaptedValue::new(plain(HostKind::Bool(true)), None).unwrap().is_boolean());
    assert!(PyAdaptedValue::new(plain(text("a")), None).unwrap().is_string());
    assert!(PyAdaptedValue::new(plain(HostKind::Bytes(vec![])), None).unwrap().is_bytes());
    assert!(PyAdaptedValue::new(plain(HostKind::Uuid(1)), None).unwrap().is_uuid());
    assert!(PyAdaptedValue::new(plain(HostKind::Date(date(2020, 1, 1))), None).unwrap().is_date());
    assert!(PyAdaptedValue::new(plain(HostKind::Time(time(1, 1, 1, 1))), None).unwrap().is_time());
    assert!(PyAdaptedValue::new(encoded(HostKind::Dict, "{}"), None).unwrap().is_json());
    assert!(PyAdaptedValue::new(plain(HostKind::Decimal("1".to_string())), None).unwrap().is_decimal());
    let zoned = RustValue::ChronoDateTimeWithTimeZone(EngineZoned {
        local: EngineDateTime {
            date: date(2020, 1, 1),
            time: EngineTime { hour: 0, minute: 0, second: 0, nanosecond: 0 },
        },
        offset: 0,
    });
    assert!(PyAdaptedValue::from_serialized(zoned).is_datetime());
    assert!(PyAdaptedValue::from_serialized(RustValue::Array(vec![])).is_array());
    assert!(PyAdaptedValue::from_serialized(RustValue::Vector(vec![])).is_vector());
    assert!(!PyAdaptedValue::from_serialized(RustValue::Vector(vec![])).is_array());
}

#[test]
fn handle_value_hands_out_the_host_object() {
    let mut handle = PyAdaptedValue::from_serialized(RustValue::String(vec![b'h', b'i']));
    assert_eq!(handle.value(), Ok(plain(text("hi"))));
    assert!(handle.inner().has_deserialized());
    assert_eq!(handle.__hash__(), Ok(plain(text("hi"))));
    let mut json = PyAdaptedValue::from_serialized(RustValue::Json("[1]".to_string()));
    assert_eq!(json.value(), Ok(encoded(HostKind::Decoded, "[1]")));
}

#[test]
fn handle_copies_hold_the_same_forms() {
    let mut handle = PyAdaptedValue::new(plain(text("a")), None).unwrap();
    assert_eq!(handle.to_sql(), Ok(BuilderValue::String("a".to_string())));
    let copy = handle.copy();
    assert_eq!(copy.inner().deserialized(), handle.inner().deserialized());
    assert_eq!(copy.inner().serialized(), handle.inner().serialized());
    let copy = handle.__copy__();
    assert_eq!(copy.inner().serialized(), Some(&RustValue::String(vec![b'a'])));
}

#[test]
fn engine_values_are_checked_part_by_part() {
    let midnight = EngineTime { hour: 0, minute: 0, second: 0, nanosecond: 0 };
    let good = vec![
        RustValue::Null,
        RustValue::String("\u{e9}".as_bytes().to_vec()),
        RustValue::Bytes(vec![0xff, 0xfe]),
        RustValue::ChronoDate(date(2024, 2, 29)),
        RustValue::ChronoTime(EngineTime { hour: 23, minute: 59, second: 59, nanosecond: 1_999_999_999 }),
        RustValue::ChronoDateTime(EngineDateTime { date: date(-262143, 1, 1), time: midnight }),
        RustValue::ChronoDateTimeWithTimeZone(EngineZoned {
            local: EngineDateTime { date: date(-262143, 1, 1), time: midnight },
            offset: 0,
        }),
        RustValue::Decimal(EngineDecimal { mantissa: -79_228_162_514_264_337_593_543_950_335, scale: 0 }),
        RustValue::Array(vec![RustValue::Array(vec![RustValue::String(vec![b'a'])])]),
    ];
    for value in good {
        assert!(value.is_wf());
    }
    let bad = vec![
        RustValue::String(vec![0xff]),
        RustValue::String(vec![0xed, 0xa0, 0x80]),
        RustValue::String(vec![0xc0, 0x80]),
        RustValue::ChronoDate(date(2023, 2, 29)),
        RustValue::ChronoTime(EngineTime { hour: 24, minute: 0, second: 0, nanosecond: 0 }),
        RustValue::ChronoTime(EngineTime { hour: 0, minute: 0, second: 58, nanosecond: 1_000_000_000 }),
        RustValue::ChronoTime(EngineTime { hour: 0, minute: 0, second: 59, nanosecond: 2_000_000_000 }),
        RustValue::ChronoDateTime(EngineDateTime { date: date(2023, 13, 1), time: midnight }),
        RustValue::ChronoDateTimeWithTimeZone(EngineZoned {
            local: EngineDateTime { date: date(2023, 1, 1), time: midnight },
            offset: 86_400,
        }),
        RustValue::ChronoDateTimeWithTimeZone(EngineZoned {
            local: EngineDateTime { date: date(-262143, 1, 1), time: midnight },
            offset: 1,
        }),
        RustValue::Decimal(EngineDecimal { mantissa: 1, scale: 29 }),
        RustValue::Decimal(EngineDecimal { mantissa: 79_228_162_514_264_337_593_543_950_336, scale: 0 }),
        RustValue::Array(vec![RustValue::Null, RustValue::Array(vec![RustValue::String(vec![0x80])])]),
    ];
    for value in bad {
        assert!(!value.is_wf());
    }
}

#[test]
fn a_value_is_made_of_either_form() {
    let from_host = ReturnableValue::from(DeserializedValue::Bool(true));
    assert_eq!(from_host.deserialized(), Some(&DeserializedValue::Bool(true)));
    assert_eq!(from_host.serialized(), None);
    let from_engine: ReturnableValue = RustValue::BigInt(1).into();
    assert_eq!(from_engine.deserialized(), None);
    assert_eq!(from_engine.serialized(), Some(&RustValue::BigInt(1)));
}

#[test]
fn builder_values_collapse_their_nulls() {
    for t in [ValueType::Bool, ValueType::TinyInt, ValueType::String, ValueType::Array, ValueType::Vector] {
        assert_eq!(RustValue::from(&BuilderValue::Null(t)), RustValue::Null);
    }
    assert_eq!(BuilderValue::from(&RustValue::Null), BuilderValue::Null(ValueType::BigInt));
}

#[test]
fn builder_values_keep_what_they_hold() {
    let text = "sm\u{f8}rg\u{e5}s";
    let pairs = vec![
        (RustValue::Bool(true), BuilderValue::Bool(true)),
        (RustValue::BigInt(-9), BuilderValue::BigInt(-9)),
        (RustValue::BigUnsigned(9), BuilderValue::BigUnsigned(9)),
        (RustValue::Double(1.5f64.to_bits()), BuilderValue::Double(1.5f64.to_bits())),
        (RustValue::String(text.as_bytes().to_vec()), BuilderValue::String(text.to_string())),
        (RustValue::Bytes(vec![1, 2]), BuilderValue::Bytes(vec![1, 2])),
        (RustValue::Json("[1]".to_string()), BuilderValue::Json("[1]".to_string())),
        (RustValue::ChronoDate(date(2020, 1, 2)), BuilderValue::ChronoDate(date(2020, 1, 2))),
        (RustValue::Uuid(5), BuilderValue::Uuid(5)),
        (
            RustValue::Decimal(EngineDecimal { mantissa: 5, scale: 1 }),
            BuilderValue::Decimal(EngineDecimal { mantissa: 5, scale: 1 }),
        ),
        (RustValue::Vector(vec![1, 2, 3]), BuilderValue::Vector(vec![1, 2, 3])),
        (
            RustValue::Array(vec![RustValue::Null, RustValue::String(vec![b'a'])]),
            BuilderValue::Array(
                ValueType::BigInt,
                vec![BuilderValue::Null(ValueType::BigInt), BuilderValue::String("a".to_string())],
            ),
        ),
    ];
    for (engine, builder) in pairs {
        assert_eq!(BuilderValue::from(&engine), builder);
        assert_eq!(RustValue::from(&builder), engine);
    }
}

#[test]
fn builder_values_of_other_types_are_not_held() {
    assert!(!BuilderValue::Other(ValueType::TinyInt).is_held());
    assert!(BuilderValue::Null(ValueType::TinyInt).is_held());
    let nested = BuilderValue::Array(
        ValueType::String,
        vec![
            BuilderValue::String("a".to_string()),
            BuilderValue::Array(ValueType::Char, vec![BuilderValue::Other(ValueType::Char)]),
        ],
    );
    assert!(!nested.is_held());
    let array = BuilderValue::Array(ValueType::String, vec![BuilderValue::String("a".to_string())]);
    assert!(array.is_held());
    assert_eq!(RustValue::from(&array), RustValue::Array(vec![RustValue::String(vec![b'a'])]));
}

#[test]
fn the_token_of_a_host_object_stays_with_it() {
    let marked = HostObject { kind: HostKind::Dict, json: HostJson::Text("{}".to_string()), token: Some(7) };
    let value = adapt(&marked, &ColumnType::Json).unwrap();
    assert_eq!(value.as_pyobject().token, Some(7));
    assert_eq!(value.clone().as_pyobject(), marked);
    let item = HostObject { kind: float(1.0), json: HostJson::NotEncoded, token: Some(3) };
    let list = HostObject { kind: HostKind::List(vec![item.clone()]), json: HostJson::NotEncoded, token: Some(2) };
    let vector = adapt(&list, &ColumnType::Vector(None)).unwrap();
    assert_eq!(vector.as_pyobject(), plain(HostKind::List(vec![item])));
    assert_eq!(DeserializedValue::BigInt(1).as_pyobject().token, None);
    assert_eq!(RustValue::Json("1".to_string()).deserialize().unwrap().as_pyobject().token, None);
}

#[test]
fn the_encoder_is_asked_only_where_its_answer_is_read() {
    let json = TypeDeclaration::Plain(PlainColumn::Json);
    let integer = TypeDeclaration::Plain(PlainColumn::Integer);
    let array = TypeDeclaration::Array(Box::new(TypeDeclaration::Plain(PlainColumn::JsonBinary)));
    let list = HostKind::List(vec![]);
    let inferred = Reading::at_top(None, false);
    assert!(inferred.asks_encoder(&HostKind::Dict) && inferred.asks_encoder(&list));
    assert!(!inferred.asks_encoder(&integer_kind()) && !inferred.asks_encoder(&text("a")));
    assert!(!inferred.of_items().asks_encoder(&HostKind::Dict));
    let declared = Reading::at_top(Some(&json), false);
    assert!(declared.asks_encoder(&integer_kind()) && declared.asks_encoder(&HostKind::Dict));
    assert!(!declared.of_items().asks_encoder(&HostKind::Dict));
    let plain_column = Reading::at_top(Some(&integer), false);
    assert!(!plain_column.asks_encoder(&HostKind::Dict) && !plain_column.asks_encoder(&list));
    let of_array = Reading::at_top(Some(&array), false);
    assert!(!of_array.asks_encoder(&list));
    assert!(of_array.of_items().asks_encoder(&integer_kind()));
    assert!(!of_array.of_items().of_items().asks_encoder(&integer_kind()));
    let of_null = Reading::at_top(Some(&json), true);
    assert!(!of_null.asks_encoder(&HostKind::Null));
}

fn integer_kind() -> HostKind {
    integer(1)
}

#[test]
fn objects_read_as_declared_adapt_alike() {
    let item = |json: HostJson| HostObject { kind: integer(7), json, token: None };
    let asked = HostObject {
        kind: HostKind::List(vec![item(HostJson::Text("7".to_string()))]),
        json: HostJson::Text("[7]".to_string()),
        token: None,
    };
    let skimmed = HostObject {
        kind: HostKind::List(vec![item(HostJson::NotEncoded)]),
        json: HostJson::NotEncoded,
        token: None,
    };
    let integers = TypeDeclaration::Array(Box::new(TypeDeclaration::Plain(PlainColumn::Integer)));
    let a = ReturnableValue::from_bound(asked, Some(&integers)).unwrap();
    let b = ReturnableValue::from_bound(skimmed, Some(&integers)).unwrap();
    assert_eq!(host_side(&a).serialize(), host_side(&b).serialize());
    assert_eq!(host_side(&a).serialize(), Ok(RustValue::Array(vec![RustValue::BigInt(7)])));
}
