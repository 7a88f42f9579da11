//! The operand domain: dynamically typed scalars, lists and string-keyed maps.

use crate::text::same_text;
use vstd::prelude::*;
use vstd::std_specs::cmp::PartialEqSpecImpl;
use vstd::std_specs::convert::FromSpecImpl;

verus! {

broadcast use vstd::std_specs::vec::group_vec_axioms;

/// A single-precision floating-point number, held by its IEEE-754 bit pattern.
///
/// The library carries such numbers through unchanged and compares them bit
/// for bit; it never computes with them.
#[derive(Clone, Copy, Debug, PartialEq, Eq, Structural)]
pub struct Float32 {
    pub bits: u32,
}

/// A double-precision floating-point number, held by its IEEE-754 bit pattern.
#[derive(Clone, Copy, Debug, PartialEq, Eq, Structural)]
pub struct Float64 {
    pub bits: u64,
}

impl Float32 {
    /// The number with the given bit pattern.
    pub fn from_bits(bits: u32) -> (x: Float32)
        ensures
            x.bits == bits,
    {
        Float32 { bits }
    }

    /// The bit pattern of the number.
    pub fn to_bits(self) -> (bits: u32)
        ensures
            bits == self.bits,
    {
        self.bits
    }
}

impl Float64 {
    /// The number with the given bit pattern.
    pub fn from_bits(bits: u64) -> (x: Float64)
        ensures
            x.bits == bits,
    {
        Float64 { bits }
    }

    /// The bit pattern of the number.
    pub fn to_bits(self) -> (bits: u64)
        ensures
            bits == self.bits,
    {
        self.bits
    }
}

/// A number operand as it is stored.
#[derive(Clone, Copy, Debug)]
pub enum Number {
    /// A non-negative integer.
    Unsigned(u64),
    /// A signed integer.
    Signed(i64),
    /// A single-precision number.
    Single(Float32),
    /// A double-precision number.
    Double(Float64),
}

/// What a [`Number`] denotes.
pub enum Num {
    /// A mathematical integer.
    Int(int),
    /// A single-precision number.
    Single(Float32),
    /// A double-precision number.
    Double(Float64),
}

impl View for Number {
    type V = Num;

    open spec fn view(&self) -> Num {
        match *self {
            Number::Unsigned(n) => Num::Int(n as int),
            Number::Signed(n) => Num::Int(n as int),
            Number::Single(x) => Num::Single(x),
            Number::Double(x) => Num::Double(x),
        }
    }
}

/// The mathematical model of a [`Value`].
pub enum Json {
    Null,
    Bool(bool),
    Number(Num),
    String(Seq<char>),
    Array(Seq<Json>),
    Object(Seq<(Seq<char>, Json)>),
}

/// A dynamically typed operand.
///
/// A list may mix values of any kind. A mapping holds its entries in the
/// order given; [`insert_entry`] builds one in which no key occurs twice.
#[derive(Debug)]
pub enum Value {
    Null,
    Bool(bool),
    Number(Number),
    String(String),
    Array(Vec<Value>),
    Object(Vec<(String, Value)>),
}

impl Value {
    /// The model of this value: the same tree over mathematical sequences.
    pub open spec fn model(&self) -> Json
        decreases self,
    {
        match self {
            Value::Null => Json::Null,
            Value::Bool(b) => Json::Bool(*b),
            Value::Number(n) => Json::Number(n@),
            Value::String(s) => Json::String(s@),
            Value::Array(items) => Json::Array(
                Seq::new(
                    items.len() as nat,
                    |i: int|
                        if 0 <= i < items.len() {
                            items[i].model()
                        } else {
                            Json::Null
                        },
                ),
            ),
            Value::Object(entries) => Json::Object(
                Seq::new(
                    entries.len() as nat,
                    |i: int|
                        if 0 <= i < entries.len() {
                            (entries[i].0@, entries[i].1.model())
                        } else {
                            (Seq::empty(), Json::Null)
                        },
                ),
            ),
        }
    }
}

impl View for Value {
    type V = Json;

    open spec fn view(&self) -> Json {
        self.model()
    }
}

/// The models of a list of values, in order.
pub open spec fn views(items: Seq<Value>) -> Seq<Json> {
    items.map_values(|v: Value| v@)
}

/// The models of the entries of a mapping, in order.
pub open spec fn entry_views(entries: Seq<(String, Value)>) -> Seq<(Seq<char>, Json)> {
    entries.map_values(|e: (String, Value)| (e.0@, e.1@))
}

/// A list value is modelled by the models of its items.
pub proof fn lemma_array_view(items: Vec<Value>)
    ensures
        Value::Array(items)@ == Json::Array(views(items@)),
{
    assert(Value::Array(items)@->Array_0 =~= views(items@));
}

/// A mapping value is modelled by the models of its entries.
pub proof fn lemma_object_view(entries: Vec<(String, Value)>)
    ensures
        Value::Object(entries)@ == Json::Object(entry_views(entries@)),
{
    assert(Value::Object(entries)@->Object_0 =~= entry_views(entries@));
}

impl Value {
    /// Copies a list of values, element by element.
    pub fn clone_list(items: &Vec<Value>) -> (out: Vec<Value>)
        ensures
            views(out@) == views(items@),
        decreases items,
    {
        let mut out: Vec<Value> = Vec::new();
        let mut i: usize = 0;
        while i < items.len()
            invariant
                i <= items.len(),
                out.len() == i,
                forall|k: int| 0 <= k < i ==> out[k]@ == items[k]@,
            decreases items.len() - i,
        {
            out.push(items[i].clone());
            i = i + 1;
        }
        assert(views(out@) =~= views(items@));
        out
    }

    /// Copies the entries of a mapping, in order.
    pub fn clone_entries(entries: &Vec<(String, Value)>) -> (out: Vec<(String, Value)>)
        ensures
            entry_views(out@) == entry_views(entries@),
        decreases entries,
    {
        let mut out: Vec<(String, Value)> = Vec::new();
        let mut i: usize = 0;
        while i < entries.len()
            invariant
                i <= entries.len(),
                out.len() == i,
                forall|k: int|
                    0 <= k < i ==> out[k].0@ == entries[k].0@ && out[k].1@ == entries[k].1@,
            decreases entries.len() - i,
        {
            let key = entries[i].0.clone();
            let value = entries[i].1.clone();
            out.push((key, value));
            i = i + 1;
        }
        assert(entry_views(out@) =~= entry_views(entries@));
        out
    }
}

impl Clone for Value {
    fn clone(&self) -> (out: Value)
        ensures
            out@ == self@,
        decreases self,
    {
        match self {
            Value::Null => Value::Null,
            Value::Bool(b) => Value::Bool(*b),
            Value::Number(n) => Value::Number(*n),
            Value::String(s) => Value::String(s.clone()),
            Value::Array(items) => {
                let copy = Value::clone_list(items);
                proof {
                    lemma_array_view(*items);
                    lemma_array_view(copy);
                }
                Value::Array(copy)
            },
            Value::Object(entries) => {
                let copy = Value::clone_entries(entries);
                proof {
                    lemma_object_view(*entries);
                    lemma_object_view(copy);
                }
                Value::Object(copy)
            },
        }
    }
}

impl Number {
    /// Whether two numbers are the same: equal integers, or floating-point
    /// numbers of one width with the same bit pattern.
    pub fn same(&self, other: &Number) -> (same: bool)
        ensures
            same == (self@ == other@),
    {
        match (*self, *other) {
            (Number::Unsigned(a), Number::Unsigned(b)) => a == b,
            (Number::Signed(a), Number::Signed(b)) => a == b,
            (Number::Unsigned(a), Number::Signed(b)) => b >= 0 && a == b as u64,
            (Number::Signed(a), Number::Unsigned(b)) => a >= 0 && a as u64 == b,
            (Number::Single(a), Number::Single(b)) => a.bits == b.bits,
            (Number::Double(a), Number::Double(b)) => a.bits == b.bits,
            _ => false,
        }
    }
}

impl Value {
    /// Whether two lists hold the same values, position by position.
    pub fn same_list(left: &Vec<Value>, right: &Vec<Value>) -> (same: bool)
        ensures
            same == (views(left@) == views(right@)),
        decreases left,
    {
        if left.len() != right.len() {
            assert(views(left@).len() != views(right@).len());
            return false;
        }
        let mut i: usize = 0;
        while i < left.len()
            invariant
                i <= left.len(),
                left.len() == right.len(),
                forall|k: int| 0 <= k < i ==> left[k]@ == right[k]@,
            decreases left.len() - i,
        {
            if !left[i].same(&right[i]) {
                assert(views(left@)[i as int] != views(right@)[i as int]);
                return false;
            }
            i = i + 1;
        }
        assert(views(left@) =~= views(right@));
        true
    }

    /// Whether two mappings hold the same entries, position by position.
    pub fn same_entries(left: &Vec<(String, Value)>, right: &Vec<(String, Value)>) -> (same: bool)
        ensures
            same == (entry_views(left@) == entry_views(right@)),
        decreases left,
    {
        if left.len() != right.len() {
            assert(entry_views(left@).len() != entry_views(right@).len());
            return false;
        }
        let mut i: usize = 0;
        while i < left.len()
            invariant
                i <= left.len(),
                left.len() == right.len(),
                forall|k: int|
                    0 <= k < i ==> left[k].0@ == right[k].0@ && left[k].1@ == right[k].1@,
            decreases left.len() - i,
        {
            let keys = left[i].0 == right[i].0;
            if !keys || !left[i].1.same(&right[i].1) {
                assert(entry_views(left@)[i as int] != entry_views(right@)[i as int]);
                return false;
            }
            i = i + 1;
        }
        assert(entry_views(left@) =~= entry_views(right@));
        true
    }

    /// Whether two values are structurally equal.
    pub fn same(&self, other: &Value) -> (same: bool)
        ensures
            same == (self@ == other@),
        decreases self,
    {
        match (self, other) {
            (Value::Null, Value::Null) => true,
            (Value::Bool(a), Value::Bool(b)) => *a == *b,
            (Value::Number(a), Value::Number(b)) => a.same(b),
            (Value::String(a), Value::String(b)) => *a == *b,
            (Value::Array(a), Value::Array(b)) => {
                proof {
                    lemma_array_view(*a);
                    lemma_array_view(*b);
                }
                Value::same_list(a, b)
            },
            (Value::Object(a), Value::Object(b)) => {
                proof {
                    lemma_object_view(*a);
                    lemma_object_view(*b);
                }
                Value::same_entries(a, b)
            },
            _ => false,
        }
    }
}

impl PartialEq for Number {
    fn eq(&self, other: &Number) -> (r: bool) {
        self.same(other)
    }
}

impl PartialEqSpecImpl for Number {
    open spec fn obeys_eq_spec() -> bool {
        true
    }

    open spec fn eq_spec(&self, other: &Number) -> bool {
        self@ == other@
    }
}

impl PartialEq for Value {
    fn eq(&self, other: &Value) -> (r: bool) {
        self.same(other)
    }
}

impl PartialEqSpecImpl for Value {
    open spec fn obeys_eq_spec() -> bool {
        true
    }

    open spec fn eq_spec(&self, other: &Value) -> bool {
        self@ == other@
    }
}

impl Number {
    /// The number that stands for a signed integer. An integer that is not
    /// negative is stored as an unsigned one.
    pub open spec fn of_signed(n: i64) -> Number {
        if n >= 0 {
            Number::Unsigned(n as u64)
        } else {
            Number::Signed(n)
        }
    }

    /// The number that stands for a signed integer.
    pub fn from_i64(n: i64) -> (x: Number)
        ensures
            x == Number::of_signed(n),
            x@ == Num::Int(n as int),
    {
        if n >= 0 {
            Number::Unsigned(n as u64)
        } else {
            Number::Signed(n)
        }
    }
}

impl From<bool> for Value {
    fn from(v: bool) -> (r: Value) {
        Value::Bool(v)
    }
}

impl FromSpecImpl<bool> for Value {
    open spec fn obeys_from_spec() -> bool {
        true
    }

    open spec fn from_spec(v: bool) -> Value {
        Value::Bool(v)
    }
}

impl From<u64> for Value {
    fn from(v: u64) -> (r: Value) {
        Value::Number(Number::Unsigned(v))
    }
}

impl FromSpecImpl<u64> for Value {
    open spec fn obeys_from_spec() -> bool {
        true
    }

    open spec fn from_spec(v: u64) -> Value {
        Value::Number(Number::Unsigned(v))
    }
}

impl From<i64> for Value {
    fn from(v: i64) -> (r: Value) {
        Value::Number(Number::from_i64(v))
    }
}

impl FromSpecImpl<i64> for Value {
    open spec fn obeys_from_spec() -> bool {
        true
    }

    open spec fn from_spec(v: i64) -> Value {
        Value::Number(Number::of_signed(v))
    }
}

impl From<i32> for Value {
    fn from(v: i32) -> (r: Value) {
        Value::Number(Number::from_i64(v as i64))
    }
}

impl FromSpecImpl<i32> for Value {
    open spec fn obeys_from_spec() -> bool {
        true
    }

    open spec fn from_spec(v: i32) -> Value {
        Value::Number(Number::of_signed(v as i64))
    }
}

impl From<Float32> for Value {
    fn from(v: Float32) -> (r: Value) {
        Value::Number(Number::Single(v))
    }
}

impl FromSpecImpl<Float32> for Value {
    open spec fn obeys_from_spec() -> bool {
        true
    }

    open spec fn from_spec(v: Float32) -> Value {
        Value::Number(Number::Single(v))
    }
}

impl From<Float64> for Value {
    fn from(v: Float64) -> (r: Value) {
        Value::Number(Number::Double(v))
    }
}

impl FromSpecImpl<Float64> for Value {
    open spec fn obeys_from_spec() -> bool {
        true
    }

    open spec fn from_spec(v: Float64) -> Value {
        Value::Number(Number::Double(v))
    }
}

impl From<String> for Value {
    fn from(v: String) -> (r: Value) {
        Value::String(v)
    }
}

impl FromSpecImpl<String> for Value {
    open spec fn obeys_from_spec() -> bool {
        true
    }

    open spec fn from_spec(v: String) -> Value {
        Value::String(v)
    }
}

impl From<Vec<Value>> for Value {
    fn from(v: Vec<Value>) -> (r: Value) {
        Value::Array(v)
    }
}

impl FromSpecImpl<Vec<Value>> for Value {
    open spec fn obeys_from_spec() -> bool {
        true
    }

    open spec fn from_spec(v: Vec<Value>) -> Value {
        Value::Array(v)
    }
}

/// The owned copy of a text is known by its view only, so the result is
/// stated on `from` itself.
impl From<&str> for Value {
    fn from(v: &str) -> (r: Value)
        ensures
            r@ == Json::String(v@),
    {
        Value::String(v.to_owned())
    }
}

impl FromSpecImpl<&str> for Value {
    open spec fn obeys_from_spec() -> bool {
        false
    }

    open spec fn from_spec(v: &str) -> Value {
        Value::Null
    }
}

/// Whether no key occurs twice among the entries.
pub open spec fn has_distinct_keys(entries: Seq<(Seq<char>, Json)>) -> bool {
    forall|i: int, j: int| 0 <= i < j < entries.len() ==> entries[i].0 != entries[j].0
}

/// Whether the entry at position `i` is the first one under the key.
pub open spec fn is_first_under(entries: Seq<(Seq<char>, Json)>, key: Seq<char>, i: int) -> bool {
    &&& 0 <= i < entries.len()
    &&& entries[i].0 == key
    &&& forall|k: int| 0 <= k < i ==> entries[k].0 != key
}

/// Whether no entry is under the key.
pub open spec fn is_absent(entries: Seq<(Seq<char>, Json)>, key: Seq<char>) -> bool {
    forall|k: int| 0 <= k < entries.len() ==> entries[k].0 != key
}

/// Sets the value under a key, as a map does: the first entry under the key
/// gets the new value and keeps its place; if there is none, a new entry is
/// appended. Entries with distinct keys keep distinct keys.
pub fn insert_entry(entries: &mut Vec<(String, Value)>, key: &str, value: Value)
    ensures
        is_absent(entry_views(old(entries)@), key@) ==> entry_views(final(entries)@)
            == entry_views(old(entries)@).push((key@, value@)),
        forall|i: int|
            is_first_under(entry_views(old(entries)@), key@, i) ==> entry_views(final(entries)@)
                == entry_views(old(entries)@).update(i, (key@, value@)),
        has_distinct_keys(entry_views(old(entries)@)) ==> has_distinct_keys(
            entry_views(final(entries)@),
        ),
{
    let ghost before = entry_views(entries@);
    let mut i: usize = 0;
    while i < entries.len()
        invariant
            i <= entries.len(),
            entry_views(entries@) == before,
            before == entry_views(old(entries)@),
            before.len() == entries.len(),
            forall|k: int| 0 <= k < i ==> before[k].0 != key@,
        decreases entries.len() - i,
    {
        if same_text(&entries[i].0, key) {
            let ghost stale = entries@;
            entries.set(i, (key.to_owned(), value));
            assert(entry_views(entries@) =~= before.update(i as int, (key@, value@)));
            assert(is_first_under(before, key@, i as int));
            assert forall|j: int| is_first_under(before, key@, j) implies j == i by {}
            return ;
        }
        i = i + 1;
    }
    assert(is_absent(before, key@));
    entries.push((key.to_owned(), value));
    assert(entry_views(entries@) =~= before.push((key@, value@)));
    assert forall|j: int| !is_first_under(before, key@, j) by {}
}

impl From<Vec<(String, Value)>> for Value {
    fn from(v: Vec<(String, Value)>) -> (r: Value) {
        Value::Object(v)
    }
}

impl FromSpecImpl<Vec<(String, Value)>> for Value {
    open spec fn obeys_from_spec() -> bool {
        true
    }

    open spec fn from_spec(v: Vec<(String, Value)>) -> Value {
        Value::Object(v)
    }
}

} // verus!
