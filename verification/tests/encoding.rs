use rs_puff::filter::{ContainsAllTokensParams, Filter};
use rs_puff::rank_by::{Bm25Params, Order, RankBy};
use rs_puff::value::{Float32, Float64, Number, Value};
use serde::ser::{SerializeMap, SerializeSeq};

struct Wire<'a>(&'a Value);

impl<'a> serde::Serialize for Wire<'a> {
    fn serialize<S: serde::Serializer>(&self, serializer: S) -> Result<S::Ok, S::Error> {
        match self.0 {
            Value::Null => serializer.serialize_unit(),
            Value::Bool(b) => serializer.serialize_bool(*b),
            Value::Number(Number::Unsigned(n)) => serializer.serialize_u64(*n),
            Value::Number(Number::Signed(n)) => serializer.serialize_i64(*n),
            Value::Number(Number::Single(x)) => serializer.serialize_f32(f32::from_bits(x.bits)),
            Value::Number(Number::Double(x)) => serializer.serialize_f64(f64::from_bits(x.bits)),
            Value::String(text) => serializer.serialize_str(text),
            Value::Array(items) => {
                let mut seq = serializer.serialize_seq(Some(items.len()))?;
                for item in items {
                    seq.serialize_element(&Wire(item))?;
                }
                seq.end()
            }
            Value::Object(entries) => {
                let mut map = serializer.serialize_map(Some(entries.len()))?;
                for (key, value) in entries {
                    map.serialize_entry(key, &Wire(value))?;
                }
                map.end()
            }
        }
    }
}

fn json(value: &Value) -> String {
    serde_json::to_string(&Wire(value)).unwrap()
}

fn single(x: f32) -> Float32 {
    Float32::from_bits(x.to_bits())
}

fn double(x: f64) -> Float64 {
    Float64::from_bits(x.to_bits())
}

#[test]
fn test_eq_serialization() {
    let f = Filter::eq("name", "foo".into());
    let json = json(&f.encode());
    assert_eq!(json, r#"["name","Eq","foo"]"#);
}

#[test]
fn test_and_serialization() {
    let f = Filter::and(vec![
        Filter::eq("name", "foo".into()),
        Filter::gt("age", 18.into()),
    ]);
    let json = json(&f.encode());
    assert_eq!(json, r#"["And",[["name","Eq","foo"],["age","Gt",18]]]"#);
}

#[test]
fn test_in_serialization() {
    let f = Filter::in_("status", vec!["active".into(), "pending".into()]);
    let json = json(&f.encode());
    assert_eq!(json, r#"["status","In",["active","pending"]]"#);
}

#[test]
fn test_vector_serialization() {
    let r = RankBy::vector("vector", vec![single(0.1), single(0.2), single(0.3)]);
    let json = json(&r.encode());
    assert_eq!(json, r#"["vector","ANN",[0.1,0.2,0.3]]"#);
}

#[test]
fn test_bm25_serialization() {
    let r = RankBy::bm25("content", "quick fox");
    let json = json(&r.encode());
    assert_eq!(json, r#"["content","BM25","quick fox"]"#);
}

#[test]
fn test_attribute_serialization() {
    let r = RankBy::desc("timestamp");
    let json = json(&r.encode());
    assert_eq!(json, r#"["timestamp","desc"]"#);
}

#[test]
fn test_sum_serialization() {
    let r = RankBy::sum(vec![
        RankBy::bm25("title", "fox"),
        RankBy::bm25("content", "fox"),
    ]);
    let json = json(&r.encode());
    assert_eq!(json, r#"["Sum",[["title","BM25","fox"],["content","BM25","fox"]]]"#);
}

#[test]
fn test_product_serialization() {
    let r = RankBy::product(double(2.0), RankBy::bm25("title", "fox"));
    let json = json(&r.encode());
    assert_eq!(json, r#"["Product",2.0,["title","BM25","fox"]]"#);
}

#[test]
fn attribute_with_explicit_order() {
    assert_eq!(
        json(&RankBy::attribute("timestamp", Order::Desc).encode()),
        r#"["timestamp","desc"]"#
    );
    assert_eq!(json(&RankBy::attribute("timestamp", Order::Asc).encode()), r#"["timestamp","asc"]"#);
    assert_eq!(json(&RankBy::asc("age").encode()), r#"["age","asc"]"#);
    assert_eq!(Order::Asc.as_str(), "asc");
    assert_eq!(Order::Desc.as_str(), "desc");
}

#[test]
fn every_value_test_has_its_tag() {
    let v = || Value::from(1);
    let cases: Vec<(Filter, &str)> = vec![
        (Filter::eq("a", v()), "Eq"),
        (Filter::not_eq("a", v()), "NotEq"),
        (Filter::lt("a", v()), "Lt"),
        (Filter::lte("a", v()), "Lte"),
        (Filter::gt("a", v()), "Gt"),
        (Filter::gte("a", v()), "Gte"),
        (Filter::any_lt("a", v()), "AnyLt"),
        (Filter::any_lte("a", v()), "AnyLte"),
        (Filter::any_gt("a", v()), "AnyGt"),
        (Filter::any_gte("a", v()), "AnyGte"),
        (Filter::contains("a", v()), "Contains"),
        (Filter::not_contains("a", v()), "NotContains"),
    ];
    for (filter, tag) in cases {
        assert_eq!(json(&filter.encode()), format!(r#"["a","{}",1]"#, tag));
    }
}

#[test]
fn every_list_test_has_its_tag() {
    let v = || vec![Value::from(1), Value::from("two"), Value::Null];
    let cases: Vec<(Filter, &str)> = vec![
        (Filter::in_("a", v()), "In"),
        (Filter::not_in("a", v()), "NotIn"),
        (Filter::contains_any("a", v()), "ContainsAny"),
        (Filter::not_contains_any("a", v()), "NotContainsAny"),
    ];
    for (filter, tag) in cases {
        assert_eq!(json(&filter.encode()), format!(r#"["a","{}",[1,"two",null]]"#, tag));
    }
}

#[test]
fn every_pattern_test_has_its_tag() {
    let cases: Vec<(Filter, &str)> = vec![
        (Filter::glob("a", "x*"), "Glob"),
        (Filter::not_glob("a", "x*"), "NotGlob"),
        (Filter::iglob("a", "x*"), "IGlob"),
        (Filter::not_iglob("a", "x*"), "NotIGlob"),
        (Filter::regex("a", "x*"), "Regex"),
        (Filter::contains_all_tokens("a", "x*"), "ContainsAllTokens"),
        (Filter::contains_token_sequence("a", "x*"), "ContainsTokenSequence"),
    ];
    for (filter, tag) in cases {
        assert_eq!(json(&filter.encode()), format!(r#"["a","{}","x*"]"#, tag));
    }
}

#[test]
fn logical_operators() {
    let a = || Filter::eq("a", 1.into());
    let b = || Filter::glob("b", "x*");
    assert_eq!(json(&Filter::or(vec![a(), b()]).encode()), r#"["Or",[["a","Eq",1],["b","Glob","x*"]]]"#);
    assert_eq!(json(&Filter::not(a()).encode()), r#"["Not",["a","Eq",1]]"#);
    assert_eq!(json(&Filter::and(vec![]).encode()), r#"["And",[]]"#);
    assert_eq!(json(&Filter::or(vec![]).encode()), r#"["Or",[]]"#);
    assert_eq!(json(&Filter::and(vec![a()]).encode()), r#"["And",[["a","Eq",1]]]"#);
}

#[test]
fn malformed_but_legal_trees_are_accepted() {
    assert_eq!(json(&Filter::eq("", Value::Null).encode()), r#"["","Eq",null]"#);
    assert_eq!(json(&Filter::in_("status", vec![]).encode()), r#"["status","In",[]]"#);
    assert_eq!(json(&RankBy::vector("v", vec![]).encode()), r#"["v","ANN",[]]"#);
    assert_eq!(json(&RankBy::sum(vec![]).encode()), r#"["Sum",[]]"#);
    assert_eq!(json(&RankBy::max(vec![]).encode()), r#"["Max",[]]"#);
}

#[test]
fn token_options_are_left_out_when_none_is_set() {
    let plain = Filter::contains_all_tokens("text", "walrus whisker");
    assert_eq!(json(&plain.encode()), r#"["text","ContainsAllTokens","walrus whisker"]"#);
    let unset = Filter::contains_all_tokens_with_params(
        "text",
        "walrus whisker",
        ContainsAllTokensParams { last_as_prefix: None },
    );
    assert_eq!(json(&unset.encode()), r#"["text","ContainsAllTokens","walrus whisker"]"#);
    let on = Filter::contains_all_tokens_with_params(
        "text",
        "walrus whisker",
        ContainsAllTokensParams { last_as_prefix: Some(true) },
    );
    assert_eq!(
        json(&on.encode()),
        r#"["text","ContainsAllTokens","walrus whisker",{"last_as_prefix":true}]"#
    );
    let off = Filter::contains_all_tokens_with_params(
        "text",
        "walrus whisker",
        ContainsAllTokensParams { last_as_prefix: Some(false) },
    );
    assert_eq!(
        json(&off.encode()),
        r#"["text","ContainsAllTokens","walrus whisker",{"last_as_prefix":false}]"#
    );
}

#[test]
fn bm25_options_are_left_out_when_none_is_set() {
    let unset = RankBy::bm25_with_params("text", "fox", Bm25Params { last_as_prefix: None });
    assert_eq!(json(&unset.encode()), r#"["text","BM25","fox"]"#);
    let on = RankBy::bm25_with_params("text", "fox", Bm25Params { last_as_prefix: Some(true) });
    assert_eq!(json(&on.encode()), r#"["text","BM25","fox",{"last_as_prefix":true}]"#);
}

#[test]
fn double_negation_is_not_collapsed() {
    let x = || Filter::eq("status", "deleted".into());
    let twice = Filter::not(Filter::not(x()));
    assert_eq!(json(&twice.encode()), r#"["Not",["Not",["status","Eq","deleted"]]]"#);
    assert_ne!(twice.encode(), x().encode());
    let four = Filter::not(Filter::not(Filter::not(Filter::not(x()))));
    assert_ne!(four.encode(), twice.encode());
}

#[test]
fn encoding_twice_gives_the_same_output() {
    let f = Filter::and(vec![
        Filter::or(vec![Filter::eq("a", 1.into()), Filter::lt("b", 2.into())]),
        Filter::not(Filter::glob("c", "x*")),
    ]);
    assert_eq!(f.encode(), f.encode());
    assert_eq!(json(&f.encode()), json(&f.clone().encode()));
    let r = RankBy::max(vec![
        RankBy::sum(vec![RankBy::bm25("t", "x"), RankBy::bm25("c", "x")]),
        RankBy::product(double(0.5), RankBy::bm25("t", "y")),
    ]);
    assert_eq!(r.encode(), r.encode());
    assert_eq!(json(&r.encode()), json(&r.clone().encode()));
}

#[test]
fn children_keep_the_order_given() {
    let forward = Filter::and(vec![Filter::eq("a", 1.into()), Filter::eq("b", 2.into())]);
    let backward = Filter::and(vec![Filter::eq("b", 2.into()), Filter::eq("a", 1.into())]);
    assert_eq!(json(&forward.encode()), r#"["And",[["a","Eq",1],["b","Eq",2]]]"#);
    assert_eq!(json(&backward.encode()), r#"["And",[["b","Eq",2],["a","Eq",1]]]"#);
    let ranks = RankBy::max(vec![RankBy::desc("z"), RankBy::asc("a"), RankBy::desc("m")]);
    assert_eq!(json(&ranks.encode()), r#"["Max",[["z","desc"],["a","asc"],["m","desc"]]]"#);
}

#[test]
fn deep_trees_keep_their_full_structure() {
    let r = RankBy::product(
        double(2.0),
        RankBy::max(vec![
            RankBy::product(
                double(3.0),
                RankBy::sum(vec![
                    RankBy::product(double(0.5), RankBy::max(vec![RankBy::bm25("title", "fox")])),
                    RankBy::bm25("content", "fox"),
                ]),
            ),
            RankBy::bm25("body", "fox"),
        ]),
    );
    assert_eq!(
        json(&r.encode()),
        concat_all(&[
            r#"["Product",2.0,["Max",[["Product",3.0,["Sum",[["Product",0.5,["Max",[["title","BM25","fox"]]]],"#,
            r#"["content","BM25","fox"]]]],["body","BM25","fox"]]]]"#,
        ])
    );
    let mut f = Filter::eq("a", 1.into());
    let mut expected = String::from(r#"["a","Eq",1]"#);
    for _ in 0..200 {
        f = Filter::not(f);
        expected = format!(r#"["Not",{}]"#, expected);
    }
    assert_eq!(json(&f.encode()), expected);
}

fn concat_all(parts: &[&str]) -> String {
    let mut out = String::new();
    for part in parts {
        out.push_str(part);
    }
    out
}

#[test]
fn options_round_trip() {
    for flag in [Some(true), Some(false), None] {
        let p = ContainsAllTokensParams { last_as_prefix: flag };
        let back = ContainsAllTokensParams::decode(&p.encode()).unwrap();
        assert_eq!(back.last_as_prefix, flag);
        let q = Bm25Params { last_as_prefix: flag };
        let back = Bm25Params::decode(&q.encode()).unwrap();
        assert_eq!(back.last_as_prefix, flag);
    }
    let on = Bm25Params { last_as_prefix: Some(true) };
    assert_eq!(json(&on.encode()), r#"{"last_as_prefix":true}"#);
    assert_eq!(json(&Bm25Params { last_as_prefix: None }.encode()), "{}");
}

#[test]
fn options_are_read_from_objects_and_lists() {
    let key = || "last_as_prefix".to_string();
    let object = |entries: Vec<(String, Value)>| Value::Object(entries);
    let read = |v: &Value| Bm25Params::decode(v).map(|p| p.last_as_prefix);
    assert_eq!(read(&object(vec![])), Some(None));
    assert_eq!(read(&object(vec![(key(), Value::Bool(true))])), Some(Some(true)));
    assert_eq!(read(&object(vec![(key(), Value::Null)])), Some(None));
    assert_eq!(
        read(&object(vec![("other".to_string(), 1.into()), (key(), Value::Bool(false))])),
        Some(Some(false))
    );
    assert_eq!(read(&object(vec![(key(), 1.into())])), None);
    assert_eq!(
        read(&object(vec![(key(), Value::Bool(true)), (key(), Value::Bool(true))])),
        None
    );
    assert_eq!(read(&Value::Array(vec![Value::Bool(true)])), Some(Some(true)));
    assert_eq!(read(&Value::Array(vec![Value::Null])), Some(None));
    assert_eq!(read(&Value::Array(vec![])), None);
    assert_eq!(read(&Value::Array(vec![Value::Bool(true), Value::Bool(true)])), None);
    assert_eq!(read(&Value::Bool(true)), None);
    assert_eq!(read(&Value::Null), None);
    assert!(ContainsAllTokensParams::decode(&Value::from("x")).is_none());
}

#[test]
fn clones_encode_alike() {
    let f = Filter::and(vec![
        Filter::in_("a", vec![1.into(), "x".into()]),
        Filter::not(Filter::contains_all_tokens_with_params(
            "t",
            "q",
            ContainsAllTokensParams { last_as_prefix: Some(true) },
        )),
    ]);
    assert_eq!(f.clone().encode(), f.encode());
    let r = RankBy::sum(vec![
        RankBy::vector_knn("v", vec![single(1.5), single(-2.0)]),
        RankBy::attribute("a", Order::Asc),
    ]);
    assert_eq!(r.clone().encode(), r.encode());
    assert_eq!(json(&r.encode()), r#"["Sum",[["v","kNN",[1.5,-2.0]],["a","asc"]]]"#);
}

#[test]
fn filters_compare_structurally() {
    let tree = || {
        Filter::and(vec![
            Filter::in_("a", vec![1.into(), "x".into()]),
            Filter::not(Filter::glob("b", "y*")),
            Filter::contains_all_tokens_with_params(
                "t",
                "q",
                ContainsAllTokensParams { last_as_prefix: Some(true) },
            ),
        ])
    };
    assert_eq!(tree(), tree());
    assert_eq!(tree().clone(), tree());
    assert_ne!(tree(), Filter::or(vec![]));
    assert_ne!(Filter::eq("a", 1.into()), Filter::not_eq("a", 1.into()));
    assert_ne!(Filter::eq("a", 1.into()), Filter::eq("b", 1.into()));
    assert_ne!(Filter::eq("a", 1.into()), Filter::eq("a", 2.into()));
    assert_ne!(Filter::glob("a", "x"), Filter::iglob("a", "x"));
    assert_ne!(Filter::glob("a", "x"), Filter::eq("a", "x".into()));
    assert_ne!(
        Filter::and(vec![Filter::eq("a", 1.into()), Filter::eq("b", 2.into())]),
        Filter::and(vec![Filter::eq("b", 2.into()), Filter::eq("a", 1.into())])
    );
    assert_ne!(Filter::and(vec![]), Filter::or(vec![]));
    assert_ne!(
        Filter::contains_all_tokens("t", "q"),
        Filter::contains_all_tokens_with_params(
            "t",
            "q",
            ContainsAllTokensParams { last_as_prefix: None }
        )
    );
    assert_eq!(Filter::eq("a", 5.into()), Filter::eq("a", Value::Number(Number::Signed(5))));
    assert!(tree().same(&tree()));
}

#[test]
fn formulas_compare_structurally() {
    let tree = || {
        RankBy::sum(vec![
            RankBy::vector("v", vec![single(0.5)]),
            RankBy::product(double(2.0), RankBy::bm25("t", "q")),
            RankBy::desc("age"),
        ])
    };
    assert_eq!(tree(), tree());
    assert_eq!(tree().clone(), tree());
    assert_ne!(tree(), RankBy::max(vec![]));
    assert_ne!(RankBy::vector("v", vec![single(0.5)]), RankBy::vector_knn("v", vec![single(0.5)]));
    assert_ne!(RankBy::vector("v", vec![single(0.5)]), RankBy::vector("v", vec![single(0.25)]));
    assert_ne!(RankBy::vector("v", vec![single(0.5)]), RankBy::vector("v", vec![]));
    assert_ne!(RankBy::asc("a"), RankBy::desc("a"));
    assert_ne!(
        RankBy::product(double(2.0), RankBy::asc("a")),
        RankBy::product(double(3.0), RankBy::asc("a"))
    );
    assert_ne!(
        RankBy::bm25("t", "q"),
        RankBy::bm25_with_params("t", "q", Bm25Params { last_as_prefix: Some(false) })
    );
}

#[test]
fn different_trees_are_written_differently() {
    let filters = vec![
        Filter::eq("And", "x".into()),
        Filter::and(vec![]),
        Filter::or(vec![]),
        Filter::and(vec![Filter::and(vec![])]),
        Filter::not(Filter::and(vec![])),
        Filter::glob("a", "x"),
        Filter::eq("a", "x".into()),
        Filter::in_("a", vec!["x".into()]),
        Filter::contains("a", vec![Value::from("x")].into()),
        Filter::contains_all_tokens("a", "x"),
        Filter::contains_token_sequence("a", "x"),
        Filter::contains_all_tokens_with_params(
            "a",
            "x",
            ContainsAllTokensParams { last_as_prefix: Some(true) },
        ),
        Filter::contains_all_tokens_with_params(
            "a",
            "x",
            ContainsAllTokensParams { last_as_prefix: Some(false) },
        ),
    ];
    for (i, a) in filters.iter().enumerate() {
        for (k, b) in filters.iter().enumerate() {
            assert_eq!(a.encode() == b.encode(), i == k, "{:?} and {:?}", a, b);
        }
    }
    let formulas = vec![
        RankBy::asc("Sum"),
        RankBy::sum(vec![]),
        RankBy::max(vec![]),
        RankBy::vector("Product", vec![]),
        RankBy::vector_knn("Product", vec![]),
        RankBy::bm25("Product", "x"),
        RankBy::product(double(1.0), RankBy::sum(vec![])),
        RankBy::product(double(1.0), RankBy::max(vec![])),
        RankBy::sum(vec![RankBy::sum(vec![])]),
    ];
    for (i, a) in formulas.iter().enumerate() {
        for (k, b) in formulas.iter().enumerate() {
            assert_eq!(a.encode() == b.encode(), i == k, "{:?} and {:?}", a, b);
        }
    }
}
