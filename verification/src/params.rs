//! The parameters of write and query requests, and their bodies on the wire.
//!
//! A body is an object that holds one entry for each parameter that is set,
//! in the order in which the parameters are declared. A parameter that is
//! not set leaves no trace.

use crate::filter::Filter;
use crate::rank_by::RankBy;
use crate::types::distance_metric::DistanceMetric;
use crate::types::vector_encoding::VectorEncoding;
use crate::value::{
    entry_views, lemma_array_view, lemma_object_view, views, Json, Num, Number, Value,
};
use crate::wire::{
    columns, columns_value, field, list_value, object_value, optional_view, put_field, rows,
    rows_value, tagged, tagged_value, text_value, texts, texts_value,
};
use vstd::prelude::*;

verus! {

/// The attributes of one row: names and values, in the order given.
pub type Attributes = Vec<(String, Value)>;

/// Which attributes a query returns.
#[derive(Debug)]
pub enum IncludeAttributes {
    /// All of them, or none.
    All(bool),
    /// Those that are named.
    List(Vec<String>),
}

impl IncludeAttributes {
    /// The wire form: a bare boolean, or the list of names.
    pub open spec fn wire(&self) -> Json {
        match self {
            IncludeAttributes::All(all) => Json::Bool(*all),
            IncludeAttributes::List(names) => texts(names@),
        }
    }

    /// Writes the selection.
    pub fn encode(&self) -> (v: Value)
        ensures
            v@ == self.wire(),
    {
        match self {
            IncludeAttributes::All(all) => Value::Bool(*all),
            IncludeAttributes::List(names) => texts_value(names),
        }
    }
}

/// How fresh the data that a query reads must be.
#[derive(Debug, Clone, Copy, PartialEq, Eq, Structural)]
pub enum ConsistencyLevel {
    Strong,
    Eventual,
}

impl ConsistencyLevel {
    /// The tag of the level on the wire: its name in snake case.
    pub open spec fn tag(self) -> Seq<char> {
        match self {
            ConsistencyLevel::Strong => "strong"@,
            ConsistencyLevel::Eventual => "eventual"@,
        }
    }

    /// The tag of the level on the wire.
    pub fn as_str(self) -> (tag: &'static str)
        ensures
            tag@ == self.tag(),
    {
        match self {
            ConsistencyLevel::Strong => "strong",
            ConsistencyLevel::Eventual => "eventual",
        }
    }
}

/// The consistency that a query asks for.
#[derive(Debug, Clone, Copy, PartialEq, Eq, Structural)]
pub struct Consistency {
    pub level: ConsistencyLevel,
}

impl Consistency {
    /// The wire form: an object with the level under `level`.
    pub open spec fn wire(self) -> Json {
        Json::Object(seq![("level"@, Json::String(self.level.tag()))])
    }

    /// Writes the consistency.
    pub fn encode(self) -> (v: Value)
        ensures
            v@ == self.wire(),
    {
        let mut entries: Vec<(String, Value)> = Vec::new();
        entries.push(("level".to_owned(), text_value(self.level.as_str())));
        proof {
            lemma_object_view(entries);
            assert(entry_views(entries@) =~= seq![("level"@, Json::String(self.level.tag()))]);
        }
        Value::Object(entries)
    }
}

/// An aggregate that a query computes over the rows it matches.
#[derive(Debug)]
pub enum AggregateBy {
    /// The number of rows.
    Count,
    /// The sum of an attribute.
    Sum(String),
}

impl AggregateBy {
    /// The wire form: `["Count"]`, or `["Sum", attr]`.
    pub open spec fn wire(&self) -> Json {
        match self {
            AggregateBy::Count => Json::Array(seq![Json::String("Count"@)]),
            AggregateBy::Sum(attr) => tagged("Sum"@, Json::String(attr@)),
        }
    }

    /// Writes the aggregate.
    pub fn encode(&self) -> (v: Value)
        ensures
            v@ == self.wire(),
    {
        match self {
            AggregateBy::Count => {
                let mut items: Vec<Value> = Vec::new();
                items.push(text_value("Count"));
                proof {
                    lemma_array_view(items);
                    assert(views(items@) =~= seq![Json::String("Count"@)]);
                }
                Value::Array(items)
            },
            AggregateBy::Sum(attr) => tagged_value("Sum", text_value(attr)),
        }
    }
}

/// The object of named aggregates: each aggregate under its name, in order.
pub open spec fn aggregates(items: Seq<(String, AggregateBy)>) -> Json {
    Json::Object(items.map_values(|a: (String, AggregateBy)| (a.0@, a.1.wire())))
}

/// Builds the object of named aggregates.
fn aggregates_value(items: &Vec<(String, AggregateBy)>) -> (v: Value)
    ensures
        v@ == aggregates(items@),
{
    let mut out: Vec<(String, Value)> = Vec::new();
    let mut i: usize = 0;
    while i < items.len()
        invariant
            i <= items.len(),
            out.len() == i,
            forall|k: int|
                0 <= k < i ==> out[k].0@ == items[k].0@ && out[k].1@ == items[k].1.wire(),
        decreases items.len() - i,
    {
        let name = items[i].0.clone();
        let aggregate = items[i].1.encode();
        out.push((name, aggregate));
        i = i + 1;
    }
    proof {
        lemma_object_view(out);
        assert(entry_views(out@) =~= items@.map_values(
            |a: (String, AggregateBy)| (a.0@, a.1.wire()),
        ));
    }
    Value::Object(out)
}

/// The wire form of a filter that may be absent.
pub open spec fn filter_wire(filter: Option<Filter>) -> Option<Json> {
    match filter {
        Some(f) => Some(f@.wire()),
        None => None,
    }
}

/// Writes a filter that may be absent.
fn filter_value(filter: &Option<Filter>) -> (v: Option<Value>)
    ensures
        optional_view(v) == filter_wire(*filter),
{
    match filter {
        Some(f) => Some(f.encode()),
        None => None,
    }
}

/// The wire form of a switch that may be absent.
pub open spec fn flag_wire(flag: Option<bool>) -> Option<Json> {
    match flag {
        Some(b) => Some(Json::Bool(b)),
        None => None,
    }
}

/// Writes a switch that may be absent.
fn flag_value(flag: Option<bool>) -> (v: Option<Value>)
    ensures
        optional_view(v) == flag_wire(flag),
{
    match flag {
        Some(b) => Some(Value::Bool(b)),
        None => None,
    }
}

/// The wire form of rows that may be absent.
pub open spec fn rows_wire(items: Option<Vec<Attributes>>) -> Option<Json> {
    match items {
        Some(r) => Some(rows(r@)),
        None => None,
    }
}

/// Writes rows that may be absent.
fn optional_rows_value(items: &Option<Vec<Attributes>>) -> (v: Option<Value>)
    ensures
        optional_view(v) == rows_wire(*items),
{
    match items {
        Some(r) => Some(rows_value(r)),
        None => None,
    }
}

/// The wire form of columns that may be absent.
pub open spec fn columns_wire(items: Option<Vec<(String, Vec<Value>)>>) -> Option<Json> {
    match items {
        Some(c) => Some(columns(c@)),
        None => None,
    }
}

/// Writes columns that may be absent.
fn optional_columns_value(items: &Option<Vec<(String, Vec<Value>)>>) -> (v: Option<Value>)
    ensures
        optional_view(v) == columns_wire(*items),
{
    match items {
        Some(c) => Some(columns_value(c)),
        None => None,
    }
}

/// The wire form of a list of names that may be absent.
pub open spec fn names_wire(names: Option<Vec<String>>) -> Option<Json> {
    match names {
        Some(n) => Some(texts(n@)),
        None => None,
    }
}

/// Writes a list of names that may be absent.
fn names_value(names: &Option<Vec<String>>) -> (v: Option<Value>)
    ensures
        optional_view(v) == names_wire(*names),
{
    match names {
        Some(n) => Some(texts_value(n)),
        None => None,
    }
}

/// The wire form of a distance metric that may be absent.
pub open spec fn metric_wire(metric: Option<DistanceMetric>) -> Option<Json> {
    match metric {
        Some(m) => Some(m.wire()),
        None => None,
    }
}

/// Writes a distance metric that may be absent.
fn metric_value(metric: Option<DistanceMetric>) -> (v: Option<Value>)
    ensures
        optional_view(v) == metric_wire(metric),
{
    match metric {
        Some(m) => Some(m.encode()),
        None => None,
    }
}

/// The wire form of a vector encoding that may be absent.
pub open spec fn vector_encoding_wire(encoding: Option<VectorEncoding>) -> Option<Json> {
    match encoding {
        Some(e) => Some(e.wire()),
        None => None,
    }
}

/// Writes a vector encoding that may be absent.
fn vector_encoding_value(encoding: Option<VectorEncoding>) -> (v: Option<Value>)
    ensures
        optional_view(v) == vector_encoding_wire(encoding),
{
    match encoding {
        Some(e) => Some(e.encode()),
        None => None,
    }
}

/// The wire form of a consistency that may be absent.
pub open spec fn consistency_wire(consistency: Option<Consistency>) -> Option<Json> {
    match consistency {
        Some(c) => Some(c.wire()),
        None => None,
    }
}

/// Writes a consistency that may be absent.
fn consistency_value(consistency: Option<Consistency>) -> (v: Option<Value>)
    ensures
        optional_view(v) == consistency_wire(consistency),
{
    match consistency {
        Some(c) => Some(c.encode()),
        None => None,
    }
}

/// A patch that is applied to every row that a filter matches.
#[derive(Debug)]
pub struct PatchByFilter {
    pub filters: Filter,
    pub patch: Attributes,
}

impl PatchByFilter {
    /// The wire form: an object with the filter under `filters` and the
    /// patched attributes under `patch`.
    pub open spec fn wire(&self) -> Json {
        Json::Object(
            seq![
                ("filters"@, self.filters@.wire()),
                ("patch"@, Json::Object(entry_views(self.patch@))),
            ],
        )
    }

    /// Writes the patch.
    pub fn encode(&self) -> (v: Value)
        ensures
            v@ == self.wire(),
    {
        let mut entries: Vec<(String, Value)> = Vec::new();
        entries.push(("filters".to_owned(), self.filters.encode()));
        entries.push(("patch".to_owned(), object_value(&self.patch)));
        proof {
            lemma_object_view(entries);
            assert(entry_views(entries@) =~= seq![
                ("filters"@, self.filters@.wire()),
                ("patch"@, Json::Object(entry_views(self.patch@))),
            ]);
        }
        Value::Object(entries)
    }
}

/// The parameters of a write.
#[derive(Debug)]
pub struct WriteParams {
    pub upsert_rows: Option<Vec<Attributes>>,
    pub upsert_columns: Option<Vec<(String, Vec<Value>)>>,
    pub patch_rows: Option<Vec<Attributes>>,
    pub patch_columns: Option<Vec<(String, Vec<Value>)>>,
    pub deletes: Option<Vec<Value>>,
    pub delete_by_filter: Option<Filter>,
    pub patch_by_filter: Option<PatchByFilter>,
    pub upsert_condition: Option<Filter>,
    pub patch_condition: Option<Filter>,
    pub delete_condition: Option<Filter>,
    pub distance_metric: Option<DistanceMetric>,
    pub schema: Option<Attributes>,
    pub delete_by_filter_allow_partial: Option<bool>,
    pub patch_by_filter_allow_partial: Option<bool>,
    pub disable_backpressure: Option<bool>,
    pub return_affected_ids: Option<bool>,
    pub copy_from_namespace: Option<String>,
}

impl WriteParams {
    /// The entries of the body, in order.
    pub open spec fn entries(&self) -> Seq<(Seq<char>, Json)> {
        Seq::empty() + field("upsert_rows"@, rows_wire(self.upsert_rows)) + field(
            "upsert_columns"@,
            columns_wire(self.upsert_columns),
        ) + field("patch_rows"@, rows_wire(self.patch_rows)) + field(
            "patch_columns"@,
            columns_wire(self.patch_columns),
        ) + field(
            "deletes"@,
            match self.deletes {
                Some(ids) => Some(Json::Array(views(ids@))),
                None => None,
            },
        ) + field("delete_by_filter"@, filter_wire(self.delete_by_filter)) + field(
            "patch_by_filter"@,
            match self.patch_by_filter {
                Some(p) => Some(p.wire()),
                None => None,
            },
        ) + field("upsert_condition"@, filter_wire(self.upsert_condition)) + field(
            "patch_condition"@,
            filter_wire(self.patch_condition),
        ) + field("delete_condition"@, filter_wire(self.delete_condition)) + field(
            "distance_metric"@,
            metric_wire(self.distance_metric),
        ) + field(
            "schema"@,
            match self.schema {
                Some(s) => Some(Json::Object(entry_views(s@))),
                None => None,
            },
        ) + field(
            "delete_by_filter_allow_partial"@,
            flag_wire(self.delete_by_filter_allow_partial),
        ) + field(
            "patch_by_filter_allow_partial"@,
            flag_wire(self.patch_by_filter_allow_partial),
        ) + field("disable_backpressure"@, flag_wire(self.disable_backpressure)) + field(
            "return_affected_ids"@,
            flag_wire(self.return_affected_ids),
        ) + field(
            "copy_from_namespace"@,
            match self.copy_from_namespace {
                Some(name) => Some(Json::String(name@)),
                None => None,
            },
        )
    }

    /// The body of the request: an object of the parameters that are set.
    pub open spec fn wire(&self) -> Json {
        Json::Object(self.entries())
    }

    /// Writes the body of the request.
    pub fn encode(&self) -> (v: Value)
        ensures
            v@ == self.wire(),
    {
        let mut entries: Vec<(String, Value)> = Vec::new();
        assert(entry_views(entries@) =~= Seq::empty());
        put_field(&mut entries, "upsert_rows", optional_rows_value(&self.upsert_rows));
        put_field(&mut entries, "upsert_columns", optional_columns_value(&self.upsert_columns));
        put_field(&mut entries, "patch_rows", optional_rows_value(&self.patch_rows));
        put_field(&mut entries, "patch_columns", optional_columns_value(&self.patch_columns));
        let deletes = match &self.deletes {
            Some(ids) => Some(list_value(ids)),
            None => None,
        };
        put_field(&mut entries, "deletes", deletes);
        put_field(&mut entries, "delete_by_filter", filter_value(&self.delete_by_filter));
        let patch_by_filter = match &self.patch_by_filter {
            Some(p) => Some(p.encode()),
            None => None,
        };
        put_field(&mut entries, "patch_by_filter", patch_by_filter);
        put_field(&mut entries, "upsert_condition", filter_value(&self.upsert_condition));
        put_field(&mut entries, "patch_condition", filter_value(&self.patch_condition));
        put_field(&mut entries, "delete_condition", filter_value(&self.delete_condition));
        put_field(&mut entries, "distance_metric", metric_value(self.distance_metric));
        let schema = match &self.schema {
            Some(s) => Some(object_value(s)),
            None => None,
        };
        put_field(&mut entries, "schema", schema);
        put_field(
            &mut entries,
            "delete_by_filter_allow_partial",
            flag_value(self.delete_by_filter_allow_partial),
        );
        put_field(
            &mut entries,
            "patch_by_filter_allow_partial",
            flag_value(self.patch_by_filter_allow_partial),
        );
        put_field(&mut entries, "disable_backpressure", flag_value(self.disable_backpressure));
        put_field(&mut entries, "return_affected_ids", flag_value(self.return_affected_ids));
        let copy_from_namespace = match &self.copy_from_namespace {
            Some(name) => Some(text_value(name)),
            None => None,
        };
        put_field(&mut entries, "copy_from_namespace", copy_from_namespace);
        proof {
            lemma_object_view(entries);
        }
        Value::Object(entries)
    }
}

impl Default for WriteParams {
    fn default() -> (p: WriteParams)
        ensures
            p.entries() == Seq::<(Seq<char>, Json)>::empty(),
            p.wire() == Json::Object(Seq::empty()),
    {
        let p = WriteParams {
            upsert_rows: None,
            upsert_columns: None,
            patch_rows: None,
            patch_columns: None,
            deletes: None,
            delete_by_filter: None,
            patch_by_filter: None,
            upsert_condition: None,
            patch_condition: None,
            delete_condition: None,
            distance_metric: None,
            schema: None,
            delete_by_filter_allow_partial: None,
            patch_by_filter_allow_partial: None,
            disable_backpressure: None,
            return_affected_ids: None,
            copy_from_namespace: None,
        };
        assert(p.entries() =~= Seq::empty());
        p
    }
}

/// The parameters of a query.
#[derive(Debug)]
pub struct QueryParams {
    pub rank_by: Option<RankBy>,
    pub top_k: Option<u64>,
    pub filters: Option<Filter>,
    pub include_attributes: Option<IncludeAttributes>,
    pub exclude_attributes: Option<Vec<String>>,
    pub vector_encoding: Option<VectorEncoding>,
    pub distance_metric: Option<DistanceMetric>,
    pub consistency: Option<Consistency>,
    pub aggregate_by: Option<Vec<(String, AggregateBy)>>,
    pub group_by: Option<Vec<String>>,
}

impl QueryParams {
    /// The entries of the body, in order.
    pub open spec fn entries(&self) -> Seq<(Seq<char>, Json)> {
        Seq::empty() + field(
            "rank_by"@,
            match self.rank_by {
                Some(r) => Some(r@.wire()),
                None => None,
            },
        ) + field(
            "top_k"@,
            match self.top_k {
                Some(k) => Some(Json::Number(Num::Int(k as int))),
                None => None,
            },
        ) + field("filters"@, filter_wire(self.filters)) + field(
            "include_attributes"@,
            match self.include_attributes {
                Some(i) => Some(i.wire()),
                None => None,
            },
        ) + field("exclude_attributes"@, names_wire(self.exclude_attributes)) + field(
            "vector_encoding"@,
            vector_encoding_wire(self.vector_encoding),
        ) + field("distance_metric"@, metric_wire(self.distance_metric)) + field(
            "consistency"@,
            consistency_wire(self.consistency),
        ) + field(
            "aggregate_by"@,
            match self.aggregate_by {
                Some(a) => Some(aggregates(a@)),
                None => None,
            },
        ) + field("group_by"@, names_wire(self.group_by))
    }

    /// The body of the request: an object of the parameters that are set.
    pub open spec fn wire(&self) -> Json {
        Json::Object(self.entries())
    }

    /// Writes the body of the request.
    pub fn encode(&self) -> (v: Value)
        ensures
            v@ == self.wire(),
    {
        let mut entries: Vec<(String, Value)> = Vec::new();
        assert(entry_views(entries@) =~= Seq::empty());
        let rank_by = match &self.rank_by {
            Some(r) => Some(r.encode()),
            None => None,
        };
        put_field(&mut entries, "rank_by", rank_by);
        let top_k = match self.top_k {
            Some(k) => Some(Value::Number(Number::Unsigned(k))),
            None => None,
        };
        put_field(&mut entries, "top_k", top_k);
        put_field(&mut entries, "filters", filter_value(&self.filters));
        let include_attributes = match &self.include_attributes {
            Some(i) => Some(i.encode()),
            None => None,
        };
        put_field(&mut entries, "include_attributes", include_attributes);
        put_field(&mut entries, "exclude_attributes", names_value(&self.exclude_attributes));
        put_field(&mut entries, "vector_encoding", vector_encoding_value(self.vector_encoding));
        put_field(&mut entries, "distance_metric", metric_value(self.distance_metric));
        put_field(&mut entries, "consistency", consistency_value(self.consistency));
        let aggregate_by = match &self.aggregate_by {
            Some(a) => Some(aggregates_value(a)),
            None => None,
        };
        put_field(&mut entries, "aggregate_by", aggregate_by);
        put_field(&mut entries, "group_by", names_value(&self.group_by));
        proof {
            lemma_object_view(entries);
        }
        Value::Object(entries)
    }
}

impl Default for QueryParams {
    fn default() -> (p: QueryParams)
        ensures
            p.entries() == Seq::<(Seq<char>, Json)>::empty(),
            p.wire() == Json::Object(Seq::empty()),
    {
        let p = QueryParams {
            rank_by: None,
            top_k: None,
            filters: None,
            include_attributes: None,
            exclude_attributes: None,
            vector_encoding: None,
            distance_metric: None,
            consistency: None,
            aggregate_by: None,
            group_by: None,
        };
        assert(p.entries() =~= Seq::empty());
        p
    }
}

/// The parameters of several queries that are sent as one request.
#[derive(Debug)]
pub struct MultiQueryParams {
    pub queries: Vec<QueryParams>,
    pub vector_encoding: Option<VectorEncoding>,
    pub consistency: Option<Consistency>,
}

/// The bodies of a list of queries, in order.
pub open spec fn query_wires(queries: Seq<QueryParams>) -> Seq<Json> {
    queries.map_values(|q: QueryParams| q.wire())
}

impl MultiQueryParams {
    /// The entries of the body, in order. The list of queries is always written.
    pub open spec fn entries(&self) -> Seq<(Seq<char>, Json)> {
        seq![("queries"@, Json::Array(query_wires(self.queries@)))] + field(
            "vector_encoding"@,
            vector_encoding_wire(self.vector_encoding),
        ) + field("consistency"@, consistency_wire(self.consistency))
    }

    /// The body of the request.
    pub open spec fn wire(&self) -> Json {
        Json::Object(self.entries())
    }

    /// Writes the body of the request.
    pub fn encode(&self) -> (v: Value)
        ensures
            v@ == self.wire(),
    {
        let mut bodies: Vec<Value> = Vec::new();
        let mut i: usize = 0;
        while i < self.queries.len()
            invariant
                i <= self.queries.len(),
                bodies.len() == i,
                forall|k: int| 0 <= k < i ==> bodies[k]@ == self.queries[k].wire(),
            decreases self.queries.len() - i,
        {
            bodies.push(self.queries[i].encode());
            i = i + 1;
        }
        proof {
            lemma_array_view(bodies);
            assert(views(bodies@) =~= query_wires(self.queries@));
        }
        let mut entries: Vec<(String, Value)> = Vec::new();
        entries.push(("queries".to_owned(), Value::Array(bodies)));
        assert(entry_views(entries@) =~= seq![
            ("queries"@, Json::Array(query_wires(self.queries@))),
        ]);
        put_field(&mut entries, "vector_encoding", vector_encoding_value(self.vector_encoding));
        put_field(&mut entries, "consistency", consistency_value(self.consistency));
        proof {
            lemma_object_view(entries);
        }
        Value::Object(entries)
    }
}

impl Default for MultiQueryParams {
    fn default() -> (p: MultiQueryParams)
        ensures
            p.queries@.len() == 0,
            p.vector_encoding is None,
            p.consistency is None,
    {
        MultiQueryParams { queries: Vec::new(), vector_encoding: None, consistency: None }
    }
}

/// Copies a list of texts.
fn clone_texts(items: &Vec<String>) -> (out: Vec<String>)
    ensures
        texts(out@) == texts(items@),
        out@.len() == items@.len(),
        forall|i: int| 0 <= i < items@.len() ==> out@[i]@ == items@[i]@,
{
    let mut out: Vec<String> = Vec::new();
    let mut i: usize = 0;
    while i < items.len()
        invariant
            i <= items.len(),
            out.len() == i,
            forall|k: int| 0 <= k < i ==> out[k]@ == items[k]@,
        decreases items.len() - i,
    {
        out.push(items[i].clone());
        i = i + 1;
    }
    assert(texts(out@)->Array_0 =~= texts(items@)->Array_0);
    out
}

/// Copies a list of rows.
fn clone_rows(items: &Vec<Attributes>) -> (out: Vec<Attributes>)
    ensures
        rows(out@) == rows(items@),
{
    let mut out: Vec<Attributes> = Vec::new();
    let mut i: usize = 0;
    while i < items.len()
        invariant
            i <= items.len(),
            out.len() == i,
            forall|k: int| 0 <= k < i ==> entry_views(out[k]@) == entry_views(items[k]@),
        decreases items.len() - i,
    {
        out.push(Value::clone_entries(&items[i]));
        i = i + 1;
    }
    assert(rows(out@)->Array_0 =~= rows(items@)->Array_0);
    out
}

/// Copies a table of columns.
fn clone_columns(items: &Vec<(String, Vec<Value>)>) -> (out: Vec<(String, Vec<Value>)>)
    ensures
        columns(out@) == columns(items@),
{
    let mut out: Vec<(String, Vec<Value>)> = Vec::new();
    let mut i: usize = 0;
    while i < items.len()
        invariant
            i <= items.len(),
            out.len() == i,
            forall|k: int|
                0 <= k < i ==> out[k].0@ == items[k].0@ && views(out[k].1@) == views(items[k].1@),
        decreases items.len() - i,
    {
        let name = items[i].0.clone();
        let cells = Value::clone_list(&items[i].1);
        out.push((name, cells));
        i = i + 1;
    }
    assert(columns(out@)->Object_0 =~= columns(items@)->Object_0);
    out
}

/// Copies a list of named aggregates.
fn clone_aggregates(items: &Vec<(String, AggregateBy)>) -> (out: Vec<(String, AggregateBy)>)
    ensures
        aggregates(out@) == aggregates(items@),
{
    let mut out: Vec<(String, AggregateBy)> = Vec::new();
    let mut i: usize = 0;
    while i < items.len()
        invariant
            i <= items.len(),
            out.len() == i,
            forall|k: int|
                0 <= k < i ==> out[k].0@ == items[k].0@ && out[k].1.wire() == items[k].1.wire(),
        decreases items.len() - i,
    {
        let name = items[i].0.clone();
        let aggregate = items[i].1.clone();
        out.push((name, aggregate));
        i = i + 1;
    }
    assert(aggregates(out@)->Object_0 =~= aggregates(items@)->Object_0);
    out
}

/// Copies a filter that may be absent.
fn clone_filter(filter: &Option<Filter>) -> (out: Option<Filter>)
    ensures
        filter_wire(out) == filter_wire(*filter),
{
    match filter {
        Some(f) => Some(f.clone()),
        None => None,
    }
}

impl Clone for IncludeAttributes {
    fn clone(&self) -> (out: IncludeAttributes)
        ensures
            out.wire() == self.wire(),
    {
        match self {
            IncludeAttributes::All(all) => IncludeAttributes::All(*all),
            IncludeAttributes::List(names) => IncludeAttributes::List(clone_texts(names)),
        }
    }
}

impl Clone for AggregateBy {
    fn clone(&self) -> (out: AggregateBy)
        ensures
            out.wire() == self.wire(),
    {
        match self {
            AggregateBy::Count => AggregateBy::Count,
            AggregateBy::Sum(attr) => AggregateBy::Sum(attr.clone()),
        }
    }
}

impl Clone for PatchByFilter {
    fn clone(&self) -> (out: PatchByFilter)
        ensures
            out.wire() == self.wire(),
    {
        PatchByFilter { filters: self.filters.clone(), patch: Value::clone_entries(&self.patch) }
    }
}

impl Clone for WriteParams {
    fn clone(&self) -> (out: WriteParams)
        ensures
            out.wire() == self.wire(),
    {
        WriteParams {
            upsert_rows: match &self.upsert_rows {
                Some(r) => Some(clone_rows(r)),
                None => None,
            },
            upsert_columns: match &self.upsert_columns {
                Some(c) => Some(clone_columns(c)),
                None => None,
            },
            patch_rows: match &self.patch_rows {
                Some(r) => Some(clone_rows(r)),
                None => None,
            },
            patch_columns: match &self.patch_columns {
                Some(c) => Some(clone_columns(c)),
                None => None,
            },
            deletes: match &self.deletes {
                Some(ids) => Some(Value::clone_list(ids)),
                None => None,
            },
            delete_by_filter: clone_filter(&self.delete_by_filter),
            patch_by_filter: match &self.patch_by_filter {
                Some(p) => Some(p.clone()),
                None => None,
            },
            upsert_condition: clone_filter(&self.upsert_condition),
            patch_condition: clone_filter(&self.patch_condition),
            delete_condition: clone_filter(&self.delete_condition),
            distance_metric: self.distance_metric,
            schema: match &self.schema {
                Some(s) => Some(Value::clone_entries(s)),
                None => None,
            },
            delete_by_filter_allow_partial: self.delete_by_filter_allow_partial,
            patch_by_filter_allow_partial: self.patch_by_filter_allow_partial,
            disable_backpressure: self.disable_backpressure,
            return_affected_ids: self.return_affected_ids,
            copy_from_namespace: match &self.copy_from_namespace {
                Some(name) => Some(name.clone()),
                None => None,
            },
        }
    }
}

impl Clone for QueryParams {
    fn clone(&self) -> (out: QueryParams)
        ensures
            out.wire() == self.wire(),
    {
        QueryParams {
            rank_by: match &self.rank_by {
                Some(r) => Some(r.clone()),
                None => None,
            },
            top_k: self.top_k,
            filters: clone_filter(&self.filters),
            include_attributes: match &self.include_attributes {
                Some(i) => Some(i.clone()),
                None => None,
            },
            exclude_attributes: match &self.exclude_attributes {
                Some(n) => Some(clone_texts(n)),
                None => None,
            },
            vector_encoding: self.vector_encoding,
            distance_metric: self.distance_metric,
            consistency: self.consistency,
            aggregate_by: match &self.aggregate_by {
                Some(a) => Some(clone_aggregates(a)),
                None => None,
            },
            group_by: match &self.group_by {
                Some(n) => Some(clone_texts(n)),
                None => None,
            },
        }
    }
}

impl Clone for MultiQueryParams {
    fn clone(&self) -> (out: MultiQueryParams)
        ensures
            out.wire() == self.wire(),
    {
        let mut queries: Vec<QueryParams> = Vec::new();
        let mut i: usize = 0;
        while i < self.queries.len()
            invariant
                i <= self.queries.len(),
                queries.len() == i,
                forall|k: int| 0 <= k < i ==> queries[k].wire() == self.queries[k].wire(),
            decreases self.queries.len() - i,
        {
            queries.push(self.queries[i].clone());
            i = i + 1;
        }
        assert(query_wires(queries@) =~= query_wires(self.queries@));
        MultiQueryParams {
            queries,
            vector_encoding: self.vector_encoding,
            consistency: self.consistency,
        }
    }
}

} // verus!
