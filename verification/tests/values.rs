use rs_puff::text::{decimal_text, join, join3, same_text};
use rs_puff::types::distance_metric::DistanceMetric;
use rs_puff::types::id::Id;
use rs_puff::types::vector_encoding::VectorEncoding;
use rs_puff::value::{insert_entry, Float32, Float64, Number, Value};

#[test]
fn values_from_literals() {
    assert_eq!(Value::from(true), Value::Bool(true));
    assert_eq!(Value::from(18), Value::Number(Number::Unsigned(18)));
    assert_eq!(Value::from(-18), Value::Number(Number::Signed(-18)));
    assert_eq!(Value::from(-18i64), Value::Number(Number::Signed(-18)));
    assert_eq!(Value::from(7u64), Value::Number(Number::Unsigned(7)));
    assert_eq!(Value::from("foo"), Value::String("foo".to_string()));
    assert_eq!(Value::from("foo".to_string()), Value::String("foo".to_string()));
    assert_eq!(
        Value::from(vec![Value::Null, Value::from(1)]),
        Value::Array(vec![Value::Null, Value::Number(Number::Unsigned(1))])
    );
    let half = Float64::from_bits(0.5f64.to_bits());
    assert_eq!(Value::from(half), Value::Number(Number::Double(half)));
    let third = Float32::from_bits(0.25f32.to_bits());
    assert_eq!(Value::from(third), Value::Number(Number::Single(third)));
}

#[test]
fn integers_compare_by_value() {
    assert_eq!(Number::Unsigned(5), Number::Signed(5));
    assert_eq!(Number::Signed(5), Number::Unsigned(5));
    assert_ne!(Number::Signed(-5), Number::Unsigned(5));
    assert_ne!(Number::Unsigned(u64::MAX), Number::Signed(-1));
    assert_eq!(Number::from_i64(5), Number::Unsigned(5));
    assert!(matches!(Number::from_i64(5), Number::Unsigned(5)));
    assert!(matches!(Number::from_i64(-5), Number::Signed(-5)));
    assert!(matches!(Number::from_i64(0), Number::Unsigned(0)));
    assert!(matches!(Number::from_i64(i64::MIN), Number::Signed(i64::MIN)));
}

#[test]
fn floats_compare_by_bits() {
    let zero = Float64::from_bits(0.0f64.to_bits());
    let minus_zero = Float64::from_bits((-0.0f64).to_bits());
    assert_ne!(Number::Double(zero), Number::Double(minus_zero));
    assert_eq!(Number::Double(zero), Number::Double(zero));
    let nan = Float32::from_bits(f32::NAN.to_bits());
    assert_eq!(Number::Single(nan), Number::Single(nan));
    let one = Float32::from_bits(1.0f32.to_bits());
    assert_ne!(Number::Single(one), Number::Double(Float64::from_bits(1.0f64.to_bits())));
    assert_ne!(Number::Single(one), Number::Unsigned(1));
    assert_eq!(one.to_bits(), 0x3f80_0000);
    assert_eq!(Float64::from_bits(7).to_bits(), 7);
}

#[test]
fn values_compare_structurally() {
    let list = |items: Vec<Value>| Value::Array(items);
    let object = |entries: Vec<(&str, Value)>| {
        Value::Object(entries.into_iter().map(|(k, v)| (k.to_string(), v)).collect())
    };
    assert_eq!(Value::Null, Value::Null);
    assert_ne!(Value::Null, Value::Bool(false));
    assert_ne!(Value::from("1"), Value::from(1));
    assert_eq!(list(vec![1.into(), "two".into(), Value::Null]), list(vec![1.into(), "two".into(), Value::Null]));
    assert_ne!(list(vec![1.into(), 2.into()]), list(vec![2.into(), 1.into()]));
    assert_ne!(list(vec![1.into()]), list(vec![1.into(), 1.into()]));
    assert_ne!(list(vec![]), object(vec![]));
    assert_eq!(
        object(vec![("a", list(vec![object(vec![("b", 1.into())])]))]),
        object(vec![("a", list(vec![object(vec![("b", 1.into())])]))])
    );
    assert_ne!(object(vec![("a", 1.into())]), object(vec![("b", 1.into())]));
    assert_ne!(object(vec![("a", 1.into())]), object(vec![("a", 2.into())]));
    assert_ne!(
        object(vec![("a", 1.into()), ("b", 2.into())]),
        object(vec![("b", 2.into()), ("a", 1.into())])
    );
    assert!(Value::from(3).same(&Value::Number(Number::Signed(3))));
    assert!(!Value::from(3).same(&Value::from(4)));
}

#[test]
fn clones_are_equal() {
    let v = Value::Object(vec![
        ("a".to_string(), Value::Array(vec![1.into(), Value::Null, "x".into()])),
        ("b".to_string(), Value::Bool(true)),
    ]);
    assert_eq!(v.clone(), v);
    assert_eq!(Value::clone_list(&vec![v.clone(), Value::Null]), vec![v.clone(), Value::Null]);
    assert_eq!(
        Value::clone_entries(&vec![("k".to_string(), v.clone())]),
        vec![("k".to_string(), v.clone())]
    );
}

#[test]
fn ids_from_numbers_and_text() {
    assert_eq!(Id::from(7u64), Id::Uint(7));
    assert_eq!(Id::from(7i64), Id::Uint(7));
    assert_eq!(Id::from(7i32), Id::Uint(7));
    assert_eq!(Id::from(-1i64), Id::Uint(u64::MAX));
    assert_eq!(Id::from(-1i32), Id::Uint(u64::MAX));
    assert_eq!(Id::from(i32::MIN), Id::Uint(0xffff_ffff_8000_0000));
    assert_eq!(Id::from("a"), Id::String("a".to_string()));
    assert_eq!(Id::from("a".to_string()), Id::String("a".to_string()));
    assert_ne!(Id::from("7"), Id::from(7u64));
    assert_eq!(Id::from("a").clone(), Id::from("a"));
    assert_eq!(Id::Uint(7).encode(), Value::from(7u64));
    assert_eq!(Id::from("a").encode(), Value::from("a"));
}

#[test]
fn tags_of_metrics_and_encodings() {
    assert_eq!(DistanceMetric::CosineDistance.as_str(), "cosine_distance");
    assert_eq!(DistanceMetric::EuclideanSquared.as_str(), "euclidean_squared");
    assert_eq!(DistanceMetric::CosineDistance.encode(), Value::from("cosine_distance"));
    assert_eq!(VectorEncoding::Float.as_str(), "float");
    assert_eq!(VectorEncoding::Base64.as_str(), "base64");
    assert_eq!(VectorEncoding::Base64.encode(), Value::from("base64"));
}

#[test]
fn decimal_text_of_numbers() {
    assert_eq!(decimal_text(0), "0");
    assert_eq!(decimal_text(7), "7");
    assert_eq!(decimal_text(10), "10");
    assert_eq!(decimal_text(404), "404");
    assert_eq!(decimal_text(1234567890), "1234567890");
    assert_eq!(decimal_text(u64::MAX), "18446744073709551615");
}

#[test]
fn texts_are_joined_and_compared() {
    assert_eq!(join("a", "b"), "ab");
    assert_eq!(join("", ""), "");
    assert_eq!(join3("a", "", "c"), "ac");
    assert!(same_text("abc", "abc"));
    assert!(!same_text("abc", "abd"));
    assert!(!same_text("abc", "ab"));
    assert!(same_text("", ""));
}

#[test]
fn entries_are_set_as_in_a_map() {
    let mut row: Vec<(String, Value)> = Vec::new();
    insert_entry(&mut row, "id", 1.into());
    insert_entry(&mut row, "name", "alice".into());
    insert_entry(&mut row, "age", 30.into());
    assert_eq!(
        row,
        vec![
            ("id".to_string(), Value::from(1)),
            ("name".to_string(), Value::from("alice")),
            ("age".to_string(), Value::from(30)),
        ]
    );
    insert_entry(&mut row, "name", "bob".into());
    assert_eq!(
        row,
        vec![
            ("id".to_string(), Value::from(1)),
            ("name".to_string(), Value::from("bob")),
            ("age".to_string(), Value::from(30)),
        ]
    );
    insert_entry(&mut row, "id", Value::Null);
    assert_eq!(row[0], ("id".to_string(), Value::Null));
    assert_eq!(row.len(), 3);
    let mut twice = vec![("k".to_string(), Value::from(1)), ("k".to_string(), Value::from(2))];
    insert_entry(&mut twice, "k", 3.into());
    assert_eq!(twice, vec![("k".to_string(), Value::from(3)), ("k".to_string(), Value::from(2))]);
    assert_eq!(Value::from(row.clone()), Value::Object(row));
}
