//! The shapes on the wire that the modules share.
//!
//! Every operator is written as a flat array whose tag is a fixed string:
//! `[attr, tag, operand]` for a test on an attribute, `[tag, body]` for a
//! combinator. The options of a text operator travel as an object that
//! holds only the keys that are set, and so do the parameters of a request.

use crate::text::same_text;
use crate::value::{
    entry_views, lemma_array_view, lemma_object_view, views, Float32, Float64, Json, Num, Number,
    Value,
};
use vstd::prelude::*;

verus! {

/// The key under which the prefix option of a text operator travels.
pub open spec fn last_as_prefix_key() -> Seq<char> {
    "last_as_prefix"@
}

/// `[attr, tag]`.
pub open spec fn pair(attr: Seq<char>, tag: Seq<char>) -> Json {
    Json::Array(seq![Json::String(attr), Json::String(tag)])
}

/// `[tag, body]`.
pub open spec fn tagged(tag: Seq<char>, body: Json) -> Json {
    Json::Array(seq![Json::String(tag), body])
}

/// `[attr, tag, operand]`.
pub open spec fn triple(attr: Seq<char>, tag: Seq<char>, operand: Json) -> Json {
    Json::Array(seq![Json::String(attr), Json::String(tag), operand])
}

/// `[attr, tag, operand, params]`.
pub open spec fn quad(attr: Seq<char>, tag: Seq<char>, operand: Json, params: Json) -> Json {
    Json::Array(seq![Json::String(attr), Json::String(tag), operand, params])
}

/// The option object of a text operator: it holds the key only if the option is set.
pub open spec fn prefix_object(last_as_prefix: Option<bool>) -> Json {
    match last_as_prefix {
        Some(flag) => Json::Object(seq![(last_as_prefix_key(), Json::Bool(flag))]),
        None => Json::Object(Seq::empty()),
    }
}

/// A list of single-precision numbers.
pub open spec fn vector(query: Seq<Float32>) -> Json {
    Json::Array(query.map_values(|x: Float32| Json::Number(Num::Single(x))))
}

/// A double-precision number.
pub open spec fn double(x: Float64) -> Json {
    Json::Number(Num::Double(x))
}

/// A string value with the given text.
pub fn text_value(text: &str) -> (v: Value)
    ensures
        v@ == Json::String(text@),
{
    Value::String(text.to_owned())
}

/// A list value that holds copies of the given items.
pub fn list_value(items: &Vec<Value>) -> (v: Value)
    ensures
        v@ == Json::Array(views(items@)),
{
    let copy = Value::clone_list(items);
    proof {
        lemma_array_view(copy);
    }
    Value::Array(copy)
}

/// A list value that holds the given single-precision numbers, in order.
pub fn vector_value(query: &Vec<Float32>) -> (v: Value)
    ensures
        v@ == vector(query@),
{
    let mut items: Vec<Value> = Vec::new();
    let mut i: usize = 0;
    while i < query.len()
        invariant
            i <= query.len(),
            items.len() == i,
            forall|k: int| 0 <= k < i ==> items[k]@ == Json::Number(Num::Single(query[k])),
        decreases query.len() - i,
    {
        items.push(Value::Number(Number::Single(query[i])));
        i = i + 1;
    }
    proof {
        lemma_array_view(items);
        assert(views(items@) =~= query@.map_values(|x: Float32| Json::Number(Num::Single(x))));
    }
    Value::Array(items)
}

/// A number value that holds the given double-precision number.
pub fn double_value(x: Float64) -> (v: Value)
    ensures
        v@ == double(x),
{
    Value::Number(Number::Double(x))
}

/// Builds `[attr, tag]`.
pub fn pair_value(attr: &str, tag: &str) -> (v: Value)
    ensures
        v@ == pair(attr@, tag@),
{
    let mut items: Vec<Value> = Vec::new();
    items.push(text_value(attr));
    items.push(text_value(tag));
    proof {
        lemma_array_view(items);
        assert(views(items@) =~= seq![Json::String(attr@), Json::String(tag@)]);
    }
    Value::Array(items)
}

/// Builds `[tag, body]`.
pub fn tagged_value(tag: &str, body: Value) -> (v: Value)
    ensures
        v@ == tagged(tag@, body@),
{
    let mut items: Vec<Value> = Vec::new();
    items.push(text_value(tag));
    items.push(body);
    proof {
        lemma_array_view(items);
        assert(views(items@) =~= seq![Json::String(tag@), body@]);
    }
    Value::Array(items)
}

/// Builds `[attr, tag, operand]`.
pub fn triple_value(attr: &str, tag: &str, operand: Value) -> (v: Value)
    ensures
        v@ == triple(attr@, tag@, operand@),
{
    let mut items: Vec<Value> = Vec::new();
    items.push(text_value(attr));
    items.push(text_value(tag));
    items.push(operand);
    proof {
        lemma_array_view(items);
        assert(views(items@) =~= seq![Json::String(attr@), Json::String(tag@), operand@]);
    }
    Value::Array(items)
}

/// Builds `[attr, tag, operand, params]`.
pub fn quad_value(attr: &str, tag: &str, operand: Value, params: Value) -> (v: Value)
    ensures
        v@ == quad(attr@, tag@, operand@, params@),
{
    let mut items: Vec<Value> = Vec::new();
    items.push(text_value(attr));
    items.push(text_value(tag));
    items.push(operand);
    items.push(params);
    proof {
        lemma_array_view(items);
        assert(views(items@) =~= seq![
            Json::String(attr@),
            Json::String(tag@),
            operand@,
            params@,
        ]);
    }
    Value::Array(items)
}

/// Builds the option object of a text operator.
pub fn prefix_object_value(last_as_prefix: Option<bool>) -> (v: Value)
    ensures
        v@ == prefix_object(last_as_prefix),
{
    let mut entries: Vec<(String, Value)> = Vec::new();
    match last_as_prefix {
        Some(flag) => {
            entries.push(("last_as_prefix".to_owned(), Value::Bool(flag)));
            proof {
                lemma_object_view(entries);
                assert(entry_views(entries@) =~= seq![(last_as_prefix_key(), Json::Bool(flag))]);
            }
        },
        None => {
            proof {
                lemma_object_view(entries);
                assert(entry_views(entries@) =~= Seq::empty());
            }
        },
    }
    Value::Object(entries)
}

/// Whether the entry at position `i` is keyed by the prefix option.
pub open spec fn names_prefix(entries: Seq<(Seq<char>, Json)>, i: int) -> bool {
    0 <= i < entries.len() && entries[i].0 == last_as_prefix_key()
}

/// The option that a value under the key stands for: a boolean sets it,
/// `null` leaves it unset, anything else is refused.
pub open spec fn prefix_flag(value: Json) -> Option<Option<bool>> {
    match value {
        Json::Bool(flag) => Some(Some(flag)),
        Json::Null => Some(None),
        _ => None,
    }
}

/// Reads an option object back.
///
/// An object is accepted if at most one entry is keyed by the option and
/// that entry holds a boolean or `null`; other keys are ignored, and a
/// missing key leaves the option unset. A list is accepted if it holds
/// exactly one element, which is read as the value of the option. Everything
/// else is refused.
pub open spec fn parse_prefix_object(object: Json) -> Option<Option<bool>> {
    match object {
        Json::Object(entries) => {
            if exists|i: int, k: int|
                i != k && names_prefix(entries, i) && names_prefix(entries, k) {
                None
            } else if exists|i: int| names_prefix(entries, i) {
                prefix_flag(entries[choose|i: int| names_prefix(entries, i)].1)
            } else {
                Some(None)
            }
        },
        Json::Array(items) => {
            if items.len() == 1 {
                prefix_flag(items[0])
            } else {
                None
            }
        },
        _ => None,
    }
}

/// An option object that was written is read back unchanged.
pub proof fn lemma_prefix_object_round_trip(last_as_prefix: Option<bool>)
    ensures
        parse_prefix_object(prefix_object(last_as_prefix)) == Some(last_as_prefix),
{
    match last_as_prefix {
        Some(flag) => {
            let entries = seq![(last_as_prefix_key(), Json::Bool(flag))];
            assert(names_prefix(entries, 0));
            assert(forall|i: int| names_prefix(entries, i) ==> i == 0);
        },
        None => {
            let entries = Seq::<(Seq<char>, Json)>::empty();
            assert(forall|i: int| !names_prefix(entries, i));
        },
    }
}

/// Whether two optional switches are the same.
pub fn same_flag(left: Option<bool>, right: Option<bool>) -> (same: bool)
    ensures
        same == (left == right),
{
    match (left, right) {
        (None, None) => true,
        (Some(a), Some(b)) => a == b,
        _ => false,
    }
}

/// Reads the value under the option's key.
fn read_prefix_flag(value: &Value) -> (r: Option<Option<bool>>)
    ensures
        r == prefix_flag(value@),
{
    match value {
        Value::Bool(flag) => Some(Some(*flag)),
        Value::Null => Some(None),
        _ => None,
    }
}

/// Reads an option object back. `None` means that the value is refused.
pub fn read_prefix_object(object: &Value) -> (r: Option<Option<bool>>)
    ensures
        r == parse_prefix_object(object@),
{
    match object {
        Value::Object(entries) => {
            proof {
                lemma_object_view(*entries);
            }
            let ghost model = entry_views(entries@);
            let mut found: Option<usize> = None;
            let mut i: usize = 0;
            while i < entries.len()
                invariant
                    i <= entries.len(),
                    model == entry_views(entries@),
                    model.len() == entries.len(),
                    object@ == Json::Object(model),
                    found matches Some(at) ==> at < i && names_prefix(model, at as int),
                    forall|k: int|
                        0 <= k < i && names_prefix(model, k) ==> found == Some(k as usize),
                decreases entries.len() - i,
            {
                if same_text(&entries[i].0, "last_as_prefix") {
                    assert(names_prefix(model, i as int));
                    match found {
                        Some(at) => {
                            assert(names_prefix(model, at as int));
                            return None;
                        },
                        None => {
                            found = Some(i);
                        },
                    }
                }
                i = i + 1;
            }
            match found {
                Some(at) => {
                    proof {
                        assert(names_prefix(model, at as int));
                        let chosen = choose|k: int| names_prefix(model, k);
                        assert(names_prefix(model, chosen));
                        assert(chosen == at);
                    }
                    read_prefix_flag(&entries[at].1)
                },
                None => {
                    assert(forall|k: int| !names_prefix(model, k));
                    Some(None)
                },
            }
        },
        Value::Array(items) => {
            proof {
                lemma_array_view(*items);
            }
            if items.len() == 1 {
                read_prefix_flag(&items[0])
            } else {
                None
            }
        },
        _ => None,
    }
}

/// The model of a value that may be absent.
pub open spec fn optional_view(value: Option<Value>) -> Option<Json> {
    match value {
        Some(v) => Some(v@),
        None => None,
    }
}

/// The entries that one field of a request adds to its object: one entry
/// under the field's name if the field is set, none if it is not.
pub open spec fn field(key: Seq<char>, value: Option<Json>) -> Seq<(Seq<char>, Json)> {
    match value {
        Some(v) => seq![(key, v)],
        None => Seq::empty(),
    }
}

/// Appends the entry of one field to an object under construction, if the
/// field is set.
pub fn put_field(entries: &mut Vec<(String, Value)>, key: &str, value: Option<Value>)
    ensures
        entry_views(final(entries)@) == entry_views(old(entries)@) + field(
            key@,
            optional_view(value),
        ),
{
    match value {
        Some(v) => {
            let ghost before = entries@;
            entries.push((key.to_owned(), v));
            assert(entry_views(entries@) =~= entry_views(before) + seq![(key@, v@)]);
        },
        None => {
            assert(entry_views(entries@) =~= entry_views(entries@) + Seq::empty());
        },
    }
}

/// A list value that holds the given texts, in order.
pub open spec fn texts(items: Seq<String>) -> Json {
    Json::Array(items.map_values(|s: String| Json::String(s@)))
}

/// Builds a list value from texts.
pub fn texts_value(items: &Vec<String>) -> (v: Value)
    ensures
        v@ == texts(items@),
{
    let mut out: Vec<Value> = Vec::new();
    let mut i: usize = 0;
    while i < items.len()
        invariant
            i <= items.len(),
            out.len() == i,
            forall|k: int| 0 <= k < i ==> out[k]@ == Json::String(items[k]@),
        decreases items.len() - i,
    {
        out.push(Value::String(items[i].clone()));
        i = i + 1;
    }
    proof {
        lemma_array_view(out);
        assert(views(out@) =~= items@.map_values(|s: String| Json::String(s@)));
    }
    Value::Array(out)
}

/// A mapping value that holds copies of the given entries, in order.
pub fn object_value(entries: &Vec<(String, Value)>) -> (v: Value)
    ensures
        v@ == Json::Object(entry_views(entries@)),
{
    let copy = Value::clone_entries(entries);
    proof {
        lemma_object_view(copy);
    }
    Value::Object(copy)
}

/// The mapping values of a list of rows, in order.
pub open spec fn rows(items: Seq<Vec<(String, Value)>>) -> Json {
    Json::Array(items.map_values(|row: Vec<(String, Value)>| Json::Object(entry_views(row@))))
}

/// Builds a list of mapping values from rows.
pub fn rows_value(items: &Vec<Vec<(String, Value)>>) -> (v: Value)
    ensures
        v@ == rows(items@),
{
    let mut out: Vec<Value> = Vec::new();
    let mut i: usize = 0;
    while i < items.len()
        invariant
            i <= items.len(),
            out.len() == i,
            forall|k: int| 0 <= k < i ==> out[k]@ == Json::Object(entry_views(items[k]@)),
        decreases items.len() - i,
    {
        out.push(object_value(&items[i]));
        i = i + 1;
    }
    proof {
        lemma_array_view(out);
        assert(views(out@) =~= items@.map_values(
            |row: Vec<(String, Value)>| Json::Object(entry_views(row@)),
        ));
    }
    Value::Array(out)
}

/// The mapping value of a table of columns: each column is a list under its name.
pub open spec fn columns(items: Seq<(String, Vec<Value>)>) -> Json {
    Json::Object(items.map_values(|c: (String, Vec<Value>)| (c.0@, Json::Array(views(c.1@)))))
}

/// Builds a mapping value from columns.
pub fn columns_value(items: &Vec<(String, Vec<Value>)>) -> (v: Value)
    ensures
        v@ == columns(items@),
{
    let mut out: Vec<(String, Value)> = Vec::new();
    let mut i: usize = 0;
    while i < items.len()
        invariant
            i <= items.len(),
            out.len() == i,
            forall|k: int|
                0 <= k < i ==> out[k].0@ == items[k].0@ && out[k].1@ == Json::Array(
                    views(items[k].1@),
                ),
        decreases items.len() - i,
    {
        let name = items[i].0.clone();
        let cells = list_value(&items[i].1);
        out.push((name, cells));
        i = i + 1;
    }
    proof {
        lemma_object_view(out);
        assert(entry_views(out@) =~= items@.map_values(
            |c: (String, Vec<Value>)| (c.0@, Json::Array(views(c.1@))),
        ));
    }
    Value::Object(out)
}

} // verus!
