use json_borrow::CowStr;
use json_borrow::Number;
use json_borrow::Value;

#[test]
fn array_equality_is_order_sensitive() {
    let one_two = Value::Array(vec![
        Value::Number(Number::I64(1)),
        Value::Number(Number::I64(2)),
    ]);
    let two_one = Value::Array(vec![
        Value::Number(Number::I64(2)),
        Value::Number(Number::I64(1)),
    ]);
    let one_two_again = Value::Array(vec![
        Value::Number(Number::I64(1)),
        Value::Number(Number::I64(2)),
    ]);
    assert_ne!(one_two, two_one);
    assert_eq!(one_two, one_two_again);
}

#[test]
fn object_equality_is_order_sensitive() {
    let ab = Value::Object(vec![
        ("a".into(), Value::Number(Number::I64(1))),
        ("b".into(), Value::Number(Number::I64(2))),
    ]);
    let ba = Value::Object(vec![
        ("b".into(), Value::Number(Number::I64(2))),
        ("a".into(), Value::Number(Number::I64(1))),
    ]);
    let ab_again = Value::Object(vec![
        ("a".into(), Value::Number(Number::I64(1))),
        ("b".into(), Value::Number(Number::I64(2))),
    ]);
    assert_ne!(ab, ba);
    assert_eq!(ab, ab_again);
}

#[test]
fn equality_is_structural() {
    assert_eq!(Value::Null, Value::Null);
    assert_ne!(Value::Null, Value::Bool(false));
    assert_ne!(Value::Bool(true), Value::Bool(false));
    assert_ne!(
        Value::Array(vec![Value::Null]),
        Value::Array(vec![Value::Null, Value::Null])
    );
    assert_ne!(Value::Array(vec![]), Value::Object(vec![]));
    let deep_a = Value::Object(vec![(
        "x".into(),
        Value::Array(vec![Value::Object(vec![("y".into(), Value::Str("z".into()))])]),
    )]);
    let deep_b = Value::Object(vec![(
        "x".into(),
        Value::Array(vec![Value::Object(vec![("y".into(), Value::Str("z".into()))])]),
    )]);
    let deep_c = Value::Object(vec![(
        "x".into(),
        Value::Array(vec![Value::Object(vec![("y".into(), Value::Str("w".into()))])]),
    )]);
    assert_eq!(deep_a, deep_b);
    assert_ne!(deep_a, deep_c);
}

#[test]
fn number_equality_keeps_the_parsed_form() {
    assert_eq!(Number::I64(5), Number::I64(5));
    assert_ne!(Number::I64(5), Number::U64(5));
    assert_ne!(Number::I64(5), Number::I64(6));
    let half = Number::F64Bits(0.5f64.to_bits());
    assert_eq!(half, Number::F64Bits(0.5f64.to_bits()));
    assert_ne!(half, Number::F64Bits(0.25f64.to_bits()));
    assert_ne!(Number::F64Bits(5.0f64.to_bits()), Number::I64(5));
    assert_eq!(
        Value::Number(Number::F64Bits(1.5f64.to_bits())),
        Value::Number(Number::F64Bits(1.5f64.to_bits()))
    );
}

#[test]
fn borrow_owned_transparency() {
    let borrowed = Value::Str(CowStr::Borrowed("value"));
    let owned = Value::Str(CowStr::Owned(String::from("value")));
    assert_eq!(borrowed, owned);
    assert_eq!(borrowed.as_str(), Some("value"));
    assert_eq!(owned.as_str(), Some("value"));
    assert_eq!(borrowed.as_str(), owned.as_str());
    assert_ne!(borrowed, Value::Str(CowStr::Owned(String::from("other"))));
    assert_eq!(CowStr::Borrowed("k"), CowStr::Owned(String::from("k")));
    assert_ne!(CowStr::Borrowed("k"), CowStr::Owned(String::from("kk")));
}

#[test]
fn default_is_null() {
    assert_eq!(Value::default(), Value::Null);
    assert!(Value::default().is_null());
}

#[test]
fn accessors_hit_their_own_variant_only() {
    let null = Value::Null;
    let boolean = Value::Bool(true);
    let number = Value::Number(Number::I64(-3));
    let string = Value::Str("text".into());
    let array = Value::Array(vec![Value::Null]);
    let object = Value::Object(vec![("k".into(), Value::Null)]);

    assert!(null.is_null());
    assert!(!boolean.is_null());

    assert_eq!(boolean.as_bool(), Some(true));
    assert_eq!(null.as_bool(), None);
    assert_eq!(string.as_bool(), None);

    assert_eq!(number.as_number(), Some(Number::I64(-3)));
    assert_eq!(boolean.as_number(), None);

    assert_eq!(string.as_str(), Some("text"));
    assert_eq!(number.as_str(), None);
    assert_eq!(array.as_str(), None);

    assert_eq!(array.as_array().map(|v| v.len()), Some(1));
    assert_eq!(object.as_array().map(|v| v.len()), None);

    assert_eq!(object.as_object().map(|v| v.len()), Some(1));
    assert_eq!(array.as_object().map(|v| v.len()), None);
    assert_eq!(object.as_object().map(|v| v[0].0.as_str()), Some("k"));
}
