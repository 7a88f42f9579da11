use rs_puff::client::{Client, Method};
use rs_puff::error::Error;
use rs_puff::filter::Filter;
use rs_puff::namespace::Namespace;
use rs_puff::params::{
    AggregateBy, Consistency, ConsistencyLevel, IncludeAttributes, MultiQueryParams,
    PatchByFilter, QueryParams, WriteParams,
};
use rs_puff::rank_by::RankBy;
use rs_puff::types::distance_metric::DistanceMetric;
use rs_puff::types::vector_encoding::VectorEncoding;
use rs_puff::value::{Float32, Number, Value};
use serde::ser::{SerializeMap, SerializeSeq};

struct Body<'a>(&'a Value);

impl<'a> serde::Serialize for Body<'a> {
    fn serialize<S: serde::Serializer>(&self, serializer: S) -> Result<S::Ok, S::Error> {
        match self.0 {
            Value::Null => serializer.serialize_unit(),
            Value::Bool(b) => serializer.serialize_bool(*b),
            Value::Number(Number::Unsigned(n)) => serializer.serialize_u64(*n),
            Value::Number(Number::Signed(n)) => serializer.serialize_i64(*n),
            Value::Number(Number::Single(x)) => serializer.serialize_f32(f32::from_bits(x.bits)),
            Value::Number(Number::Double(x)) => serializer.serialize_f64(f64::from_bits(x.bits)),
            Value::String(text) => serializer.serialize_str(text),
            Value::Array(items) => {
                let mut seq = serializer.serialize_seq(Some(items.len()))?;
                for item in items {
                    seq.serialize_element(&Body(item))?;
                }
                seq.end()
            }
            Value::Object(entries) => {
                let mut map = serializer.serialize_map(Some(entries.len()))?;
                for (key, value) in entries {
                    map.serialize_entry(key, &Body(value))?;
                }
                map.end()
            }
        }
    }
}

fn body_text(value: &Value) -> String {
    serde_json::to_string(&Body(value)).unwrap()
}

fn attrs(entries: Vec<(&str, Value)>) -> Vec<(String, Value)> {
    entries.into_iter().map(|(k, v)| (k.to_string(), v)).collect()
}

#[test]
fn clients_and_their_addresses() {
    let c = Client::new("key");
    assert_eq!(c.api_key(), "key");
    assert_eq!(c.base_url(), "https://api.turbopuffer.com");
    let c = Client::with_region("key", "gcp-us-central1");
    assert_eq!(c.base_url(), "https://gcp-us-central1.turbopuffer.com");
    let c = Client::with_base_url("key", "http://localhost:8080");
    assert_eq!(c.base_url(), "http://localhost:8080");
    assert_eq!(c.api_key(), "key");
}

#[test]
fn clients_from_the_environment() {
    let c = Client::from_env(Some("key".to_string()), None).unwrap();
    assert_eq!(c.api_key(), "key");
    assert_eq!(c.base_url(), "https://api.turbopuffer.com");
    let c = Client::from_env(Some("key".to_string()), Some("aws-eu".to_string())).unwrap();
    assert_eq!(c.base_url(), "https://aws-eu.turbopuffer.com");
    match Client::from_env(None, Some("aws-eu".to_string())) {
        Err(Error::Api { status, message }) => {
            assert_eq!(status, 0);
            assert_eq!(message, "TURBOPUFFER_API_KEY not set");
        }
        Err(other) => panic!("expected an API error, got {:?}", other),
        Ok(_) => panic!("expected an error"),
    }
    assert!(matches!(Client::from_env(None, None), Err(Error::Api { status: 0, .. })));
}

#[test]
fn requests_carry_the_key_and_the_content_type() {
    let c = Client::with_base_url("s3cret", "http://host");
    let r = c.request(Method::Post, "/v2/x", Some(Value::Null));
    assert_eq!(r.method, Method::Post);
    assert_eq!(r.url, "http://host/v2/x");
    assert_eq!(
        r.headers,
        vec![
            ("Authorization".to_string(), "Bearer s3cret".to_string()),
            ("Content-Type".to_string(), "application/json".to_string()),
        ]
    );
    assert_eq!(r.body, Some(Value::Null));
    let r = c.request_no_body(Method::Get, "/v1/y");
    assert_eq!(r.method, Method::Get);
    assert_eq!(r.url, "http://host/v1/y");
    assert_eq!(r.headers.len(), 2);
    assert_eq!(r.body, None);
}

#[test]
fn statuses_and_api_errors() {
    assert!(!Client::is_success(199));
    assert!(Client::is_success(200));
    assert!(Client::is_success(204));
    assert!(Client::is_success(299));
    assert!(!Client::is_success(300));
    assert!(!Client::is_success(404));
    assert!(!Client::is_success(0));
    match Client::api_error(422, Some("bad filter".to_string())) {
        Error::Api { status, message } => {
            assert_eq!(status, 422);
            assert_eq!(message, "bad filter");
        }
        other => panic!("expected an API error, got {:?}", other),
    }
    match Client::api_error(500, None) {
        Error::Api { status, message } => {
            assert_eq!(status, 500);
            assert_eq!(message, "");
        }
        other => panic!("expected an API error, got {:?}", other),
    }
}

#[test]
fn errors_describe_themselves() {
    assert_eq!(Error::Http("timed out".to_string()).message(), "HTTP error: timed out");
    assert_eq!(
        Error::Api { status: 404, message: "no such namespace".to_string() }.message(),
        "API error (404): no such namespace"
    );
    assert_eq!(Error::Api { status: 0, message: String::new() }.message(), "API error (0): ");
    assert_eq!(
        Error::Api { status: 65535, message: "x".to_string() }.message(),
        "API error (65535): x"
    );
    assert_eq!(Error::Json("eof".to_string()).message(), "JSON error: eof");
    let e = Error::Api { status: 7, message: "m".to_string() };
    assert_eq!(e.clone().message(), e.message());
}

#[test]
fn namespaces_and_their_paths() {
    let c = Client::with_base_url("key", "http://host");
    let ns = c.namespace("rust-example");
    assert_eq!(ns.name(), "rust-example");
    assert_eq!(ns.v1_path("/metadata"), "/v1/namespaces/rust-example/metadata");
    assert_eq!(ns.v2_path(""), "/v2/namespaces/rust-example");
    assert_eq!(ns.v2_path("/query"), "/v2/namespaces/rust-example/query");
}

#[test]
fn requests_of_a_namespace() {
    let c = Client::with_base_url("key", "http://host");
    let ns = c.namespace("n");
    let r = ns.write(WriteParams::default());
    assert_eq!((r.method, r.url.as_str()), (Method::Post, "http://host/v2/namespaces/n"));
    assert_eq!(body_text(r.body.as_ref().unwrap()), "{}");
    let r = ns.query(QueryParams { top_k: Some(10), ..Default::default() });
    assert_eq!((r.method, r.url.as_str()), (Method::Post, "http://host/v2/namespaces/n/query"));
    assert_eq!(body_text(r.body.as_ref().unwrap()), r#"{"top_k":10}"#);
    let r = ns.multi_query(MultiQueryParams::default());
    assert_eq!((r.method, r.url.as_str()), (Method::Post, "http://host/v2/namespaces/n/query"));
    assert_eq!(body_text(r.body.as_ref().unwrap()), r#"{"queries":[]}"#);
    let r = ns.delete_all();
    assert_eq!((r.method, r.url.as_str()), (Method::Delete, "http://host/v2/namespaces/n"));
    assert!(r.body.is_none());
    let r = ns.metadata();
    assert_eq!((r.method, r.url.as_str()), (Method::Get, "http://host/v1/namespaces/n/metadata"));
    assert!(r.body.is_none());
    let r = ns.schema();
    assert_eq!((r.method, r.url.as_str()), (Method::Get, "http://host/v1/namespaces/n/schema"));
    let r = ns.hint_cache_warm();
    assert_eq!(
        (r.method, r.url.as_str()),
        (Method::Get, "http://host/v1/namespaces/n/hint_cache_warm")
    );
    assert_eq!(r.headers[0].1, "Bearer key");
}

#[test]
fn existence_from_the_outcome_of_metadata() {
    assert!(matches!(Namespace::exists_from(Ok(())), Ok(true)));
    assert!(matches!(Namespace::exists_from(Ok("anything")), Ok(true)));
    let missing: Result<(), Error> = Err(Error::Api { status: 404, message: "gone".to_string() });
    assert!(matches!(Namespace::exists_from(missing), Ok(false)));
    let denied: Result<(), Error> = Err(Error::Api { status: 403, message: "no".to_string() });
    match Namespace::exists_from(denied) {
        Err(Error::Api { status, message }) => {
            assert_eq!(status, 403);
            assert_eq!(message, "no");
        }
        other => panic!("expected the error to be handed on, got {:?}", other),
    }
    let broken: Result<(), Error> = Err(Error::Http("reset".to_string()));
    assert!(matches!(Namespace::exists_from(broken), Err(Error::Http(text)) if text == "reset"));
    let garbled: Result<(), Error> = Err(Error::Json("eof".to_string()));
    assert!(matches!(Namespace::exists_from(garbled), Err(Error::Json(text)) if text == "eof"));
}

#[test]
fn small_parameters() {
    assert_eq!(body_text(&IncludeAttributes::All(true).encode()), "true");
    assert_eq!(body_text(&IncludeAttributes::All(false).encode()), "false");
    assert_eq!(
        body_text(&IncludeAttributes::List(vec!["a".to_string(), "b".to_string()]).encode()),
        r#"["a","b"]"#
    );
    assert_eq!(body_text(&IncludeAttributes::List(vec![]).encode()), "[]");
    assert_eq!(
        body_text(&Consistency { level: ConsistencyLevel::Strong }.encode()),
        r#"{"level":"strong"}"#
    );
    assert_eq!(
        body_text(&Consistency { level: ConsistencyLevel::Eventual }.encode()),
        r#"{"level":"eventual"}"#
    );
    assert_eq!(ConsistencyLevel::Strong.as_str(), "strong");
    assert_eq!(body_text(&AggregateBy::Count.encode()), r#"["Count"]"#);
    assert_eq!(body_text(&AggregateBy::Sum("price".to_string()).encode()), r#"["Sum","price"]"#);
}

#[test]
fn query_body_holds_what_is_set_in_order() {
    assert_eq!(body_text(&QueryParams::default().encode()), "{}");
    let q = QueryParams {
        rank_by: Some(RankBy::vector(
            "vector",
            vec![Float32::from_bits(0.5f32.to_bits()), Float32::from_bits(1.0f32.to_bits())],
        )),
        top_k: Some(10),
        filters: Some(Filter::gte("age", 20.into())),
        include_attributes: Some(IncludeAttributes::List(vec!["name".to_string()])),
        exclude_attributes: Some(vec!["vector".to_string()]),
        vector_encoding: Some(VectorEncoding::Base64),
        distance_metric: Some(DistanceMetric::EuclideanSquared),
        consistency: Some(Consistency { level: ConsistencyLevel::Eventual }),
        aggregate_by: Some(vec![
            ("n".to_string(), AggregateBy::Count),
            ("total".to_string(), AggregateBy::Sum("price".to_string())),
        ]),
        group_by: Some(vec!["kind".to_string()]),
    };
    assert_eq!(
        body_text(&q.encode()),
        [
            r#"{"rank_by":["vector","ANN",[0.5,1.0]],"top_k":10,"filters":["age","Gte",20],"#,
            r#""include_attributes":["name"],"exclude_attributes":["vector"],"#,
            r#""vector_encoding":"base64","distance_metric":"euclidean_squared","#,
            r#""consistency":{"level":"eventual"},"#,
            r#""aggregate_by":{"n":["Count"],"total":["Sum","price"]},"group_by":["kind"]}"#,
        ]
        .concat()
    );
    let sparse = QueryParams {
        rank_by: Some(RankBy::desc("age")),
        include_attributes: Some(IncludeAttributes::All(true)),
        ..Default::default()
    };
    assert_eq!(body_text(&sparse.encode()), r#"{"rank_by":["age","desc"],"include_attributes":true}"#);
    assert_eq!(body_text(&sparse.clone().encode()), body_text(&sparse.encode()));
}

#[test]
fn write_body_holds_what_is_set_in_order() {
    assert_eq!(body_text(&WriteParams::default().encode()), "{}");
    let row = |id: u64, name: &str| attrs(vec![("id", id.into()), ("name", name.into())]);
    let w = WriteParams {
        upsert_rows: Some(vec![row(1, "alice"), row(2, "bob")]),
        upsert_columns: Some(vec![
            ("id".to_string(), vec![3.into(), 4.into()]),
            ("name".to_string(), vec!["c".into(), "d".into()]),
        ]),
        patch_rows: Some(vec![row(5, "e")]),
        patch_columns: Some(vec![("id".to_string(), vec![6.into()])]),
        deletes: Some(vec![7.into(), "eight".into()]),
        delete_by_filter: Some(Filter::eq("name", "x".into())),
        patch_by_filter: Some(PatchByFilter {
            filters: Filter::lt("id", 3.into()),
            patch: attrs(vec![("name", "y".into())]),
        }),
        upsert_condition: Some(Filter::gt("v", 1.into())),
        patch_condition: Some(Filter::gt("v", 2.into())),
        delete_condition: Some(Filter::gt("v", 3.into())),
        distance_metric: Some(DistanceMetric::CosineDistance),
        schema: Some(attrs(vec![("name", Value::Object(attrs(vec![("type", "string".into())])))])),
        delete_by_filter_allow_partial: Some(true),
        patch_by_filter_allow_partial: Some(false),
        disable_backpressure: Some(true),
        return_affected_ids: Some(false),
        copy_from_namespace: Some("other".to_string()),
    };
    assert_eq!(
        body_text(&w.encode()),
        [
            r#"{"upsert_rows":[{"id":1,"name":"alice"},{"id":2,"name":"bob"}],"#,
            r#""upsert_columns":{"id":[3,4],"name":["c","d"]},"#,
            r#""patch_rows":[{"id":5,"name":"e"}],"patch_columns":{"id":[6]},"#,
            r#""deletes":[7,"eight"],"delete_by_filter":["name","Eq","x"],"#,
            r#""patch_by_filter":{"filters":["id","Lt",3],"patch":{"name":"y"}},"#,
            r#""upsert_condition":["v","Gt",1],"patch_condition":["v","Gt",2],"#,
            r#""delete_condition":["v","Gt",3],"distance_metric":"cosine_distance","#,
            r#""schema":{"name":{"type":"string"}},"delete_by_filter_allow_partial":true,"#,
            r#""patch_by_filter_allow_partial":false,"disable_backpressure":true,"#,
            r#""return_affected_ids":false,"copy_from_namespace":"other"}"#,
        ]
        .concat()
    );
    let sparse = WriteParams {
        deletes: Some(vec![]),
        distance_metric: Some(DistanceMetric::CosineDistance),
        ..Default::default()
    };
    assert_eq!(body_text(&sparse.encode()), r#"{"deletes":[],"distance_metric":"cosine_distance"}"#);
}

#[test]
fn multi_query_body_always_holds_the_queries() {
    let m = MultiQueryParams {
        queries: vec![
            QueryParams { top_k: Some(1), ..Default::default() },
            QueryParams { rank_by: Some(RankBy::asc("a")), ..Default::default() },
        ],
        vector_encoding: Some(VectorEncoding::Float),
        consistency: Some(Consistency { level: ConsistencyLevel::Strong }),
    };
    assert_eq!(
        body_text(&m.encode()),
        r#"{"queries":[{"top_k":1},{"rank_by":["a","asc"]}],"vector_encoding":"float","consistency":{"level":"strong"}}"#
    );
    assert_eq!(body_text(&MultiQueryParams::default().encode()), r#"{"queries":[]}"#);
}
