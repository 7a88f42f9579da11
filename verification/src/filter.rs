//! Filter predicates and their wire form.

use crate::value::{views, Json, Value};
use crate::wire::{
    last_as_prefix_key, lemma_prefix_object_round_trip, list_value, parse_prefix_object,
    prefix_object, prefix_object_value, quad, quad_value, read_prefix_object, same_flag, tagged,
    tagged_value, text_value, triple, triple_value,
};
use vstd::prelude::*;
use vstd::std_specs::cmp::PartialEqSpecImpl;

verus! {

broadcast use vstd::std_specs::vec::group_vec_axioms;

/// Options of the `ContainsAllTokens` operator.
#[derive(Debug, Clone, Copy, PartialEq, Eq, Structural)]
pub struct ContainsAllTokensParams {
    /// Whether the last token of the query matches as a prefix.
    pub last_as_prefix: Option<bool>,
}

/// A boolean predicate over the attributes of a row.
#[derive(Debug)]
#[allow(inconsistent_fields)]
pub enum Filter {
    Eq { attr: String, value: Value },
    NotEq { attr: String, value: Value },
    Lt { attr: String, value: Value },
    Lte { attr: String, value: Value },
    Gt { attr: String, value: Value },
    Gte { attr: String, value: Value },
    /// True if any element of an array attribute is less than the value.
    AnyLt { attr: String, value: Value },
    AnyLte { attr: String, value: Value },
    AnyGt { attr: String, value: Value },
    AnyGte { attr: String, value: Value },
    In { attr: String, values: Vec<Value> },
    NotIn { attr: String, values: Vec<Value> },
    /// True if an array attribute holds the value.
    Contains { attr: String, value: Value },
    NotContains { attr: String, value: Value },
    /// True if an array attribute holds any of the values.
    ContainsAny { attr: String, values: Vec<Value> },
    NotContainsAny { attr: String, values: Vec<Value> },
    Glob { attr: String, pattern: String },
    NotGlob { attr: String, pattern: String },
    /// A glob that ignores case.
    IGlob { attr: String, pattern: String },
    NotIGlob { attr: String, pattern: String },
    Regex { attr: String, pattern: String },
    /// True if the text holds every token of the query.
    ContainsAllTokens { attr: String, value: String, params: Option<ContainsAllTokensParams> },
    /// True if the text holds the tokens of the query next to each other, in order.
    ContainsTokenSequence { attr: String, value: String },
    And(Vec<Filter>),
    Or(Vec<Filter>),
    Not(Box<Filter>),
}

/// The mathematical model of a [`Filter`].
#[allow(inconsistent_fields)]
pub enum FilterExpr {
    Eq { attr: Seq<char>, value: Json },
    NotEq { attr: Seq<char>, value: Json },
    Lt { attr: Seq<char>, value: Json },
    Lte { attr: Seq<char>, value: Json },
    Gt { attr: Seq<char>, value: Json },
    Gte { attr: Seq<char>, value: Json },
    AnyLt { attr: Seq<char>, value: Json },
    AnyLte { attr: Seq<char>, value: Json },
    AnyGt { attr: Seq<char>, value: Json },
    AnyGte { attr: Seq<char>, value: Json },
    In { attr: Seq<char>, values: Seq<Json> },
    NotIn { attr: Seq<char>, values: Seq<Json> },
    Contains { attr: Seq<char>, value: Json },
    NotContains { attr: Seq<char>, value: Json },
    ContainsAny { attr: Seq<char>, values: Seq<Json> },
    NotContainsAny { attr: Seq<char>, values: Seq<Json> },
    Glob { attr: Seq<char>, pattern: Seq<char> },
    NotGlob { attr: Seq<char>, pattern: Seq<char> },
    IGlob { attr: Seq<char>, pattern: Seq<char> },
    NotIGlob { attr: Seq<char>, pattern: Seq<char> },
    Regex { attr: Seq<char>, pattern: Seq<char> },
    ContainsAllTokens {
        attr: Seq<char>,
        value: Seq<char>,
        params: Option<ContainsAllTokensParams>,
    },
    ContainsTokenSequence { attr: Seq<char>, value: Seq<char> },
    And(Seq<FilterExpr>),
    Or(Seq<FilterExpr>),
    Not(Box<FilterExpr>),
}

/// The wire forms of a list of filters, in order.
pub open spec fn wires(children: Seq<FilterExpr>) -> Seq<Json> {
    children.map_values(|child: FilterExpr| child.wire())
}

/// The models of a list of filters, in order.
pub open spec fn models(filters: Seq<Filter>) -> Seq<FilterExpr> {
    filters.map_values(|filter: Filter| filter@)
}

impl ContainsAllTokensParams {
    /// Whether any option is set.
    pub open spec fn is_set(self) -> bool {
        self.last_as_prefix is Some
    }

    /// The option object: it holds exactly the keys that are set.
    pub open spec fn wire(self) -> Json {
        prefix_object(self.last_as_prefix)
    }

    /// Writes the option object.
    pub fn encode(&self) -> (v: Value)
        ensures
            v@ == self.wire(),
    {
        prefix_object_value(self.last_as_prefix)
    }

    /// The options that an object on the wire stands for, if it is accepted.
    pub open spec fn parse(object: Json) -> Option<ContainsAllTokensParams> {
        match parse_prefix_object(object) {
            Some(last_as_prefix) => Some(ContainsAllTokensParams { last_as_prefix }),
            None => None,
        }
    }

    /// Reads the options back from an object on the wire. `None` means that
    /// the object is refused.
    pub fn decode(object: &Value) -> (r: Option<ContainsAllTokensParams>)
        ensures
            r == ContainsAllTokensParams::parse(object@),
    {
        match read_prefix_object(object) {
            Some(last_as_prefix) => Some(ContainsAllTokensParams { last_as_prefix }),
            None => None,
        }
    }
}

/// Options that were written are read back unchanged.
pub proof fn lemma_token_options_round_trip(params: ContainsAllTokensParams)
    ensures
        ContainsAllTokensParams::parse(params.wire()) == Some(params),
{
    lemma_prefix_object_round_trip(params.last_as_prefix);
}

impl FilterExpr {
    /// The tag of the operator on the wire.
    pub open spec fn tag(self) -> Seq<char> {
        match self {
            FilterExpr::Eq { .. } => "Eq"@,
            FilterExpr::NotEq { .. } => "NotEq"@,
            FilterExpr::Lt { .. } => "Lt"@,
            FilterExpr::Lte { .. } => "Lte"@,
            FilterExpr::Gt { .. } => "Gt"@,
            FilterExpr::Gte { .. } => "Gte"@,
            FilterExpr::AnyLt { .. } => "AnyLt"@,
            FilterExpr::AnyLte { .. } => "AnyLte"@,
            FilterExpr::AnyGt { .. } => "AnyGt"@,
            FilterExpr::AnyGte { .. } => "AnyGte"@,
            FilterExpr::In { .. } => "In"@,
            FilterExpr::NotIn { .. } => "NotIn"@,
            FilterExpr::Contains { .. } => "Contains"@,
            FilterExpr::NotContains { .. } => "NotContains"@,
            FilterExpr::ContainsAny { .. } => "ContainsAny"@,
            FilterExpr::NotContainsAny { .. } => "NotContainsAny"@,
            FilterExpr::Glob { .. } => "Glob"@,
            FilterExpr::NotGlob { .. } => "NotGlob"@,
            FilterExpr::IGlob { .. } => "IGlob"@,
            FilterExpr::NotIGlob { .. } => "NotIGlob"@,
            FilterExpr::Regex { .. } => "Regex"@,
            FilterExpr::ContainsAllTokens { .. } => "ContainsAllTokens"@,
            FilterExpr::ContainsTokenSequence { .. } => "ContainsTokenSequence"@,
            FilterExpr::And(_) => "And"@,
            FilterExpr::Or(_) => "Or"@,
            FilterExpr::Not(_) => "Not"@,
        }
    }

    /// The position of the operator in the tag table.
    pub open spec fn ordinal(self) -> int {
        match self {
            FilterExpr::Eq { .. } => 0,
            FilterExpr::NotEq { .. } => 1,
            FilterExpr::Lt { .. } => 2,
            FilterExpr::Lte { .. } => 3,
            FilterExpr::Gt { .. } => 4,
            FilterExpr::Gte { .. } => 5,
            FilterExpr::AnyLt { .. } => 6,
            FilterExpr::AnyLte { .. } => 7,
            FilterExpr::AnyGt { .. } => 8,
            FilterExpr::AnyGte { .. } => 9,
            FilterExpr::In { .. } => 10,
            FilterExpr::NotIn { .. } => 11,
            FilterExpr::Contains { .. } => 12,
            FilterExpr::NotContains { .. } => 13,
            FilterExpr::ContainsAny { .. } => 14,
            FilterExpr::NotContainsAny { .. } => 15,
            FilterExpr::Glob { .. } => 16,
            FilterExpr::NotGlob { .. } => 17,
            FilterExpr::IGlob { .. } => 18,
            FilterExpr::NotIGlob { .. } => 19,
            FilterExpr::Regex { .. } => 20,
            FilterExpr::ContainsAllTokens { .. } => 21,
            FilterExpr::ContainsTokenSequence { .. } => 22,
            FilterExpr::And(_) => 23,
            FilterExpr::Or(_) => 24,
            FilterExpr::Not(_) => 25,
        }
    }

    /// Whether the operator combines other filters.
    pub open spec fn is_logical(self) -> bool {
        self is And || self is Or || self is Not
    }

    /// Whether every option set in the tree has an option set. A tree that
    /// carries an option set with nothing in it is written like the tree
    /// without it.
    pub open spec fn is_canonical(self) -> bool
        decreases self,
    {
        match self {
            FilterExpr::ContainsAllTokens { params, .. } => match params {
                Some(p) => p.is_set(),
                None => true,
            },
            FilterExpr::And(children) => forall|i: int|
                0 <= i < children.len() ==> (#[trigger] children[i]).is_canonical(),
            FilterExpr::Or(children) => forall|i: int|
                0 <= i < children.len() ==> (#[trigger] children[i]).is_canonical(),
            FilterExpr::Not(child) => child.is_canonical(),
            _ => true,
        }
    }
}

impl FilterExpr {
    /// The attribute that a test reads. A combinator reads none.
    pub open spec fn attr(self) -> Seq<char> {
        match self {
            FilterExpr::Eq { attr, .. } => attr,
            FilterExpr::NotEq { attr, .. } => attr,
            FilterExpr::Lt { attr, .. } => attr,
            FilterExpr::Lte { attr, .. } => attr,
            FilterExpr::Gt { attr, .. } => attr,
            FilterExpr::Gte { attr, .. } => attr,
            FilterExpr::AnyLt { attr, .. } => attr,
            FilterExpr::AnyLte { attr, .. } => attr,
            FilterExpr::AnyGt { attr, .. } => attr,
            FilterExpr::AnyGte { attr, .. } => attr,
            FilterExpr::In { attr, .. } => attr,
            FilterExpr::NotIn { attr, .. } => attr,
            FilterExpr::Contains { attr, .. } => attr,
            FilterExpr::NotContains { attr, .. } => attr,
            FilterExpr::ContainsAny { attr, .. } => attr,
            FilterExpr::NotContainsAny { attr, .. } => attr,
            FilterExpr::Glob { attr, .. } => attr,
            FilterExpr::NotGlob { attr, .. } => attr,
            FilterExpr::IGlob { attr, .. } => attr,
            FilterExpr::NotIGlob { attr, .. } => attr,
            FilterExpr::Regex { attr, .. } => attr,
            FilterExpr::ContainsAllTokens { attr, .. } => attr,
            FilterExpr::ContainsTokenSequence { attr, .. } => attr,
            _ => Seq::empty(),
        }
    }

    /// The operand of a test, as it is written. A combinator has none.
    pub open spec fn operand(self) -> Json {
        match self {
            FilterExpr::Eq { value, .. } => value,
            FilterExpr::NotEq { value, .. } => value,
            FilterExpr::Lt { value, .. } => value,
            FilterExpr::Lte { value, .. } => value,
            FilterExpr::Gt { value, .. } => value,
            FilterExpr::Gte { value, .. } => value,
            FilterExpr::AnyLt { value, .. } => value,
            FilterExpr::AnyLte { value, .. } => value,
            FilterExpr::AnyGt { value, .. } => value,
            FilterExpr::AnyGte { value, .. } => value,
            FilterExpr::In { values, .. } => Json::Array(values),
            FilterExpr::NotIn { values, .. } => Json::Array(values),
            FilterExpr::Contains { value, .. } => value,
            FilterExpr::NotContains { value, .. } => value,
            FilterExpr::ContainsAny { values, .. } => Json::Array(values),
            FilterExpr::NotContainsAny { values, .. } => Json::Array(values),
            FilterExpr::Glob { pattern, .. } => Json::String(pattern),
            FilterExpr::NotGlob { pattern, .. } => Json::String(pattern),
            FilterExpr::IGlob { pattern, .. } => Json::String(pattern),
            FilterExpr::NotIGlob { pattern, .. } => Json::String(pattern),
            FilterExpr::Regex { pattern, .. } => Json::String(pattern),
            FilterExpr::ContainsAllTokens { value, .. } => Json::String(value),
            FilterExpr::ContainsTokenSequence { value, .. } => Json::String(value),
            _ => Json::Null,
        }
    }

    /// The option set of a test, if one is written: an option set in which
    /// nothing is set is not.
    pub open spec fn written_options(self) -> Option<ContainsAllTokensParams> {
        match self {
            FilterExpr::ContainsAllTokens { params: Some(p), .. } if p.is_set() => Some(p),
            _ => None,
        }
    }
}

impl FilterExpr {
    /// The wire form of the combinator's children.
    pub open spec fn wire_children(children: Seq<FilterExpr>) -> Seq<Json>
        decreases children, 0nat,
    {
        Seq::new(
            children.len(),
            |i: int|
                if 0 <= i < children.len() {
                    children[i].wire()
                } else {
                    Json::Null
                },
        )
    }

    /// The canonical wire form.
    ///
    /// A test on an attribute is `[attr, tag, operand]`, followed by its
    /// option object if an option is set. `And` and `Or` are
    /// `[tag, [children...]]` with the children in the order given; `Not` is
    /// `["Not", child]`.
    pub open spec fn wire(self) -> Json
        decreases self, 1nat,
    {
        match self {
            FilterExpr::And(children) => tagged(
                self.tag(),
                Json::Array(FilterExpr::wire_children(children)),
            ),
            FilterExpr::Or(children) => tagged(
                self.tag(),
                Json::Array(FilterExpr::wire_children(children)),
            ),
            FilterExpr::Not(child) => tagged(self.tag(), child.wire()),
            _ => match self.written_options() {
                Some(p) => quad(self.attr(), self.tag(), self.operand(), p.wire()),
                None => triple(self.attr(), self.tag(), self.operand()),
            },
        }
    }
}

/// The children of a combinator are written one by one.
pub proof fn lemma_wire_children(children: Seq<FilterExpr>)
    ensures
        FilterExpr::wire_children(children) == wires(children),
{
    assert(FilterExpr::wire_children(children) =~= wires(children));
}

impl Filter {
    /// The models of the children of a combinator.
    pub open spec fn model_children(filters: &Vec<Filter>) -> Seq<FilterExpr>
        decreases filters, 0nat,
    {
        Seq::new(
            filters.len() as nat,
            |i: int|
                if 0 <= i < filters.len() {
                    filters[i].model()
                } else {
                    FilterExpr::And(Seq::empty())
                },
        )
    }

    /// The model of this filter: the same tree over mathematical values.
    pub open spec fn model(&self) -> FilterExpr
        decreases self, 1nat,
    {
        match self {
            Filter::Eq { attr, value } => FilterExpr::Eq { attr: attr@, value: value@ },
            Filter::NotEq { attr, value } => FilterExpr::NotEq { attr: attr@, value: value@ },
            Filter::Lt { attr, value } => FilterExpr::Lt { attr: attr@, value: value@ },
            Filter::Lte { attr, value } => FilterExpr::Lte { attr: attr@, value: value@ },
            Filter::Gt { attr, value } => FilterExpr::Gt { attr: attr@, value: value@ },
            Filter::Gte { attr, value } => FilterExpr::Gte { attr: attr@, value: value@ },
            Filter::AnyLt { attr, value } => FilterExpr::AnyLt { attr: attr@, value: value@ },
            Filter::AnyLte { attr, value } => FilterExpr::AnyLte { attr: attr@, value: value@ },
            Filter::AnyGt { attr, value } => FilterExpr::AnyGt { attr: attr@, value: value@ },
            Filter::AnyGte { attr, value } => FilterExpr::AnyGte { attr: attr@, value: value@ },
            Filter::In { attr, values } => FilterExpr::In { attr: attr@, values: views(values@) },
            Filter::NotIn { attr, values } => FilterExpr::NotIn {
                attr: attr@,
                values: views(values@),
            },
            Filter::Contains { attr, value } => FilterExpr::Contains { attr: attr@, value: value@ },
            Filter::NotContains { attr, value } => FilterExpr::NotContains {
                attr: attr@,
                value: value@,
            },
            Filter::ContainsAny { attr, values } => FilterExpr::ContainsAny {
                attr: attr@,
                values: views(values@),
            },
            Filter::NotContainsAny { attr, values } => FilterExpr::NotContainsAny {
                attr: attr@,
                values: views(values@),
            },
            Filter::Glob { attr, pattern } => FilterExpr::Glob { attr: attr@, pattern: pattern@ },
            Filter::NotGlob { attr, pattern } => FilterExpr::NotGlob {
                attr: attr@,
                pattern: pattern@,
            },
            Filter::IGlob { attr, pattern } => FilterExpr::IGlob { attr: attr@, pattern: pattern@ },
            Filter::NotIGlob { attr, pattern } => FilterExpr::NotIGlob {
                attr: attr@,
                pattern: pattern@,
            },
            Filter::Regex { attr, pattern } => FilterExpr::Regex { attr: attr@, pattern: pattern@ },
            Filter::ContainsAllTokens { attr, value, params } => FilterExpr::ContainsAllTokens {
                attr: attr@,
                value: value@,
                params: *params,
            },
            Filter::ContainsTokenSequence { attr, value } => FilterExpr::ContainsTokenSequence {
                attr: attr@,
                value: value@,
            },
            Filter::And(filters) => FilterExpr::And(Filter::model_children(filters)),
            Filter::Or(filters) => FilterExpr::Or(Filter::model_children(filters)),
            Filter::Not(inner) => FilterExpr::Not(Box::new(inner.model())),
        }
    }
}

impl View for Filter {
    type V = FilterExpr;

    open spec fn view(&self) -> FilterExpr {
        self.model()
    }
}

/// The children of a combinator are modelled one by one.
pub proof fn lemma_model_children(filters: Vec<Filter>)
    ensures
        Filter::model_children(&filters) == models(filters@),
{
    assert(Filter::model_children(&filters) =~= models(filters@));
}

impl Filter {
    /// The attribute equals the value.
    pub fn eq(attr: &str, value: Value) -> (f: Filter)
        ensures
            f@ == (FilterExpr::Eq { attr: attr@, value: value@ }),
    {
        Filter::Eq { attr: attr.to_owned(), value }
    }

    /// The attribute differs from the value.
    pub fn not_eq(attr: &str, value: Value) -> (f: Filter)
        ensures
            f@ == (FilterExpr::NotEq { attr: attr@, value: value@ }),
    {
        Filter::NotEq { attr: attr.to_owned(), value }
    }

    /// The attribute is less than the value.
    pub fn lt(attr: &str, value: Value) -> (f: Filter)
        ensures
            f@ == (FilterExpr::Lt { attr: attr@, value: value@ }),
    {
        Filter::Lt { attr: attr.to_owned(), value }
    }

    /// The attribute is at most the value.
    pub fn lte(attr: &str, value: Value) -> (f: Filter)
        ensures
            f@ == (FilterExpr::Lte { attr: attr@, value: value@ }),
    {
        Filter::Lte { attr: attr.to_owned(), value }
    }

    /// The attribute is greater than the value.
    pub fn gt(attr: &str, value: Value) -> (f: Filter)
        ensures
            f@ == (FilterExpr::Gt { attr: attr@, value: value@ }),
    {
        Filter::Gt { attr: attr.to_owned(), value }
    }

    /// The attribute is at least the value.
    pub fn gte(attr: &str, value: Value) -> (f: Filter)
        ensures
            f@ == (FilterExpr::Gte { attr: attr@, value: value@ }),
    {
        Filter::Gte { attr: attr.to_owned(), value }
    }

    /// Some element of the array attribute is less than the value.
    pub fn any_lt(attr: &str, value: Value) -> (f: Filter)
        ensures
            f@ == (FilterExpr::AnyLt { attr: attr@, value: value@ }),
    {
        Filter::AnyLt { attr: attr.to_owned(), value }
    }

    /// Some element of the array attribute is at most the value.
    pub fn any_lte(attr: &str, value: Value) -> (f: Filter)
        ensures
            f@ == (FilterExpr::AnyLte { attr: attr@, value: value@ }),
    {
        Filter::AnyLte { attr: attr.to_owned(), value }
    }

    /// Some element of the array attribute is greater than the value.
    pub fn any_gt(attr: &str, value: Value) -> (f: Filter)
        ensures
            f@ == (FilterExpr::AnyGt { attr: attr@, value: value@ }),
    {
        Filter::AnyGt { attr: attr.to_owned(), value }
    }

    /// Some element of the array attribute is at least the value.
    pub fn any_gte(attr: &str, value: Value) -> (f: Filter)
        ensures
            f@ == (FilterExpr::AnyGte { attr: attr@, value: value@ }),
    {
        Filter::AnyGte { attr: attr.to_owned(), value }
    }

    /// The attribute is one of the values.
    pub fn in_(attr: &str, values: Vec<Value>) -> (f: Filter)
        ensures
            f@ == (FilterExpr::In { attr: attr@, values: views(values@) }),
    {
        Filter::In { attr: attr.to_owned(), values }
    }

    /// The attribute is none of the values.
    pub fn not_in(attr: &str, values: Vec<Value>) -> (f: Filter)
        ensures
            f@ == (FilterExpr::NotIn { attr: attr@, values: views(values@) }),
    {
        Filter::NotIn { attr: attr.to_owned(), values }
    }

    /// The array attribute holds the value.
    pub fn contains(attr: &str, value: Value) -> (f: Filter)
        ensures
            f@ == (FilterExpr::Contains { attr: attr@, value: value@ }),
    {
        Filter::Contains { attr: attr.to_owned(), value }
    }

    /// The array attribute does not hold the value.
    pub fn not_contains(attr: &str, value: Value) -> (f: Filter)
        ensures
            f@ == (FilterExpr::NotContains { attr: attr@, value: value@ }),
    {
        Filter::NotContains { attr: attr.to_owned(), value }
    }

    /// The array attribute holds at least one of the values.
    pub fn contains_any(attr: &str, values: Vec<Value>) -> (f: Filter)
        ensures
            f@ == (FilterExpr::ContainsAny { attr: attr@, values: views(values@) }),
    {
        Filter::ContainsAny { attr: attr.to_owned(), values }
    }

    /// The array attribute holds none of the values.
    pub fn not_contains_any(attr: &str, values: Vec<Value>) -> (f: Filter)
        ensures
            f@ == (FilterExpr::NotContainsAny { attr: attr@, values: views(values@) }),
    {
        Filter::NotContainsAny { attr: attr.to_owned(), values }
    }

    /// The attribute matches the glob pattern.
    pub fn glob(attr: &str, pattern: &str) -> (f: Filter)
        ensures
            f@ == (FilterExpr::Glob { attr: attr@, pattern: pattern@ }),
    {
        Filter::Glob { attr: attr.to_owned(), pattern: pattern.to_owned() }
    }

    /// The attribute does not match the glob pattern.
    pub fn not_glob(attr: &str, pattern: &str) -> (f: Filter)
        ensures
            f@ == (FilterExpr::NotGlob { attr: attr@, pattern: pattern@ }),
    {
        Filter::NotGlob { attr: attr.to_owned(), pattern: pattern.to_owned() }
    }

    /// The attribute matches the glob pattern, ignoring case.
    pub fn iglob(attr: &str, pattern: &str) -> (f: Filter)
        ensures
            f@ == (FilterExpr::IGlob { attr: attr@, pattern: pattern@ }),
    {
        Filter::IGlob { attr: attr.to_owned(), pattern: pattern.to_owned() }
    }

    /// The attribute does not match the glob pattern, ignoring case.
    pub fn not_iglob(attr: &str, pattern: &str) -> (f: Filter)
        ensures
            f@ == (FilterExpr::NotIGlob { attr: attr@, pattern: pattern@ }),
    {
        Filter::NotIGlob { attr: attr.to_owned(), pattern: pattern.to_owned() }
    }

    /// The attribute matches the regular expression.
    pub fn regex(attr: &str, pattern: &str) -> (f: Filter)
        ensures
            f@ == (FilterExpr::Regex { attr: attr@, pattern: pattern@ }),
    {
        Filter::Regex { attr: attr.to_owned(), pattern: pattern.to_owned() }
    }

    /// The text attribute holds every token of the query.
    pub fn contains_all_tokens(attr: &str, query: &str) -> (f: Filter)
        ensures
            f@ == (FilterExpr::ContainsAllTokens { attr: attr@, value: query@, params: None }),
    {
        Filter::ContainsAllTokens { attr: attr.to_owned(), value: query.to_owned(), params: None }
    }

    /// The text attribute holds every token of the query, under the given options.
    pub fn contains_all_tokens_with_params(
        attr: &str,
        query: &str,
        params: ContainsAllTokensParams,
    ) -> (f: Filter)
        ensures
            f@ == (FilterExpr::ContainsAllTokens {
                attr: attr@,
                value: query@,
                params: Some(params),
            }),
    {
        Filter::ContainsAllTokens {
            attr: attr.to_owned(),
            value: query.to_owned(),
            params: Some(params),
        }
    }

    /// The text attribute holds the tokens of the query next to each other, in order.
    pub fn contains_token_sequence(attr: &str, query: &str) -> (f: Filter)
        ensures
            f@ == (FilterExpr::ContainsTokenSequence { attr: attr@, value: query@ }),
    {
        Filter::ContainsTokenSequence { attr: attr.to_owned(), value: query.to_owned() }
    }

    /// Every filter of the list holds. The order of the list is kept.
    pub fn and(filters: Vec<Filter>) -> (f: Filter)
        ensures
            f@ == FilterExpr::And(models(filters@)),
    {
        proof {
            lemma_model_children(filters);
        }
        Filter::And(filters)
    }

    /// At least one filter of the list holds. The order of the list is kept.
    pub fn or(filters: Vec<Filter>) -> (f: Filter)
        ensures
            f@ == FilterExpr::Or(models(filters@)),
    {
        proof {
            lemma_model_children(filters);
        }
        Filter::Or(filters)
    }

    /// The filter does not hold.
    pub fn not(filter: Filter) -> (f: Filter)
        ensures
            f@ == FilterExpr::Not(Box::new(filter@)),
    {
        Filter::Not(Box::new(filter))
    }
}

impl Filter {
    /// Copies a list of filters, element by element.
    pub fn clone_all(filters: &Vec<Filter>) -> (out: Vec<Filter>)
        ensures
            models(out@) == models(filters@),
        decreases filters,
    {
        let mut out: Vec<Filter> = Vec::new();
        let mut i: usize = 0;
        while i < filters.len()
            invariant
                i <= filters.len(),
                out.len() == i,
                forall|k: int| 0 <= k < i ==> out[k]@ == filters[k]@,
            decreases filters.len() - i,
        {
            out.push(filters[i].clone());
            i = i + 1;
        }
        assert(models(out@) =~= models(filters@));
        out
    }
}

impl Clone for Filter {
    fn clone(&self) -> (out: Filter)
        ensures
            out@ == self@,
        decreases self,
    {
        match self {
            Filter::Eq { attr, value } => Filter::Eq { attr: attr.clone(), value: value.clone() },
            Filter::NotEq { attr, value } => Filter::NotEq {
                attr: attr.clone(),
                value: value.clone(),
            },
            Filter::Lt { attr, value } => Filter::Lt { attr: attr.clone(), value: value.clone() },
            Filter::Lte { attr, value } => Filter::Lte { attr: attr.clone(), value: value.clone() },
            Filter::Gt { attr, value } => Filter::Gt { attr: attr.clone(), value: value.clone() },
            Filter::Gte { attr, value } => Filter::Gte { attr: attr.clone(), value: value.clone() },
            Filter::AnyLt { attr, value } => Filter::AnyLt {
                attr: attr.clone(),
                value: value.clone(),
            },
            Filter::AnyLte { attr, value } => Filter::AnyLte {
                attr: attr.clone(),
                value: value.clone(),
            },
            Filter::AnyGt { attr, value } => Filter::AnyGt {
                attr: attr.clone(),
                value: value.clone(),
            },
            Filter::AnyGte { attr, value } => Filter::AnyGte {
                attr: attr.clone(),
                value: value.clone(),
            },
            Filter::Contains { attr, value } => Filter::Contains {
                attr: attr.clone(),
                value: value.clone(),
            },
            Filter::NotContains { attr, value } => Filter::NotContains {
                attr: attr.clone(),
                value: value.clone(),
            },
            Filter::In { attr, values } => Filter::In {
                attr: attr.clone(),
                values: Value::clone_list(values),
            },
            Filter::NotIn { attr, values } => Filter::NotIn {
                attr: attr.clone(),
                values: Value::clone_list(values),
            },
            Filter::ContainsAny { attr, values } => Filter::ContainsAny {
                attr: attr.clone(),
                values: Value::clone_list(values),
            },
            Filter::NotContainsAny { attr, values } => Filter::NotContainsAny {
                attr: attr.clone(),
                values: Value::clone_list(values),
            },
            Filter::Glob { attr, pattern } => Filter::Glob {
                attr: attr.clone(),
                pattern: pattern.clone(),
            },
            Filter::NotGlob { attr, pattern } => Filter::NotGlob {
                attr: attr.clone(),
                pattern: pattern.clone(),
            },
            Filter::IGlob { attr, pattern } => Filter::IGlob {
                attr: attr.clone(),
                pattern: pattern.clone(),
            },
            Filter::NotIGlob { attr, pattern } => Filter::NotIGlob {
                attr: attr.clone(),
                pattern: pattern.clone(),
            },
            Filter::Regex { attr, pattern } => Filter::Regex {
                attr: attr.clone(),
                pattern: pattern.clone(),
            },
            Filter::ContainsAllTokens { attr, value, params } => Filter::ContainsAllTokens {
                attr: attr.clone(),
                value: value.clone(),
                params: *params,
            },
            Filter::ContainsTokenSequence { attr, value } => Filter::ContainsTokenSequence {
                attr: attr.clone(),
                value: value.clone(),
            },
            Filter::And(filters) => {
                let copy = Filter::clone_all(filters);
                proof {
                    lemma_model_children(*filters);
                    lemma_model_children(copy);
                }
                Filter::And(copy)
            },
            Filter::Or(filters) => {
                let copy = Filter::clone_all(filters);
                proof {
                    lemma_model_children(*filters);
                    lemma_model_children(copy);
                }
                Filter::Or(copy)
            },
            Filter::Not(inner) => Filter::Not(Box::new((**inner).clone())),
        }
    }
}

impl Filter {
    /// Whether two lists hold the same filters, position by position.
    pub fn same_all(left: &Vec<Filter>, right: &Vec<Filter>) -> (same: bool)
        ensures
            same == (models(left@) == models(right@)),
        decreases left,
    {
        if left.len() != right.len() {
            assert(models(left@).len() != models(right@).len());
            return false;
        }
        let mut i: usize = 0;
        while i < left.len()
            invariant
                i <= left.len(),
                left.len() == right.len(),
                forall|k: int| 0 <= k < i ==> left[k]@ == right[k]@,
            decreases left.len() - i,
        {
            if !left[i].same(&right[i]) {
                assert(models(left@)[i as int] != models(right@)[i as int]);
                return false;
            }
            i = i + 1;
        }
        assert(models(left@) =~= models(right@));
        true
    }

    /// Whether two filters are structurally equal.
    pub fn same(&self, other: &Filter) -> (same: bool)
        ensures
            same == (self@ == other@),
        decreases self,
    {
        match (self, other) {
            (Filter::Eq { attr: a, value: v }, Filter::Eq { attr: b, value: w }) => {
                *a == *b && v.same(w)
            },
            (Filter::NotEq { attr: a, value: v }, Filter::NotEq { attr: b, value: w }) => {
                *a == *b && v.same(w)
            },
            (Filter::Lt { attr: a, value: v }, Filter::Lt { attr: b, value: w }) => {
                *a == *b && v.same(w)
            },
            (Filter::Lte { attr: a, value: v }, Filter::Lte { attr: b, value: w }) => {
                *a == *b && v.same(w)
            },
            (Filter::Gt { attr: a, value: v }, Filter::Gt { attr: b, value: w }) => {
                *a == *b && v.same(w)
            },
            (Filter::Gte { attr: a, value: v }, Filter::Gte { attr: b, value: w }) => {
                *a == *b && v.same(w)
            },
            (Filter::AnyLt { attr: a, value: v }, Filter::AnyLt { attr: b, value: w }) => {
                *a == *b && v.same(w)
            },
            (Filter::AnyLte { attr: a, value: v }, Filter::AnyLte { attr: b, value: w }) => {
                *a == *b && v.same(w)
            },
            (Filter::AnyGt { attr: a, value: v }, Filter::AnyGt { attr: b, value: w }) => {
                *a == *b && v.same(w)
            },
            (Filter::AnyGte { attr: a, value: v }, Filter::AnyGte { attr: b, value: w }) => {
                *a == *b && v.same(w)
            },
            (Filter::Contains { attr: a, value: v }, Filter::Contains { attr: b, value: w }) => {
                *a == *b && v.same(w)
            },
            (
                Filter::NotContains { attr: a, value: v },
                Filter::NotContains { attr: b, value: w },
            ) => {
                *a == *b && v.same(w)
            },
            (Filter::In { attr: a, values: v }, Filter::In { attr: b, values: w }) => {
                *a == *b && Value::same_list(v, w)
            },
            (Filter::NotIn { attr: a, values: v }, Filter::NotIn { attr: b, values: w }) => {
                *a == *b && Value::same_list(v, w)
            },
            (
                Filter::ContainsAny { attr: a, values: v },
                Filter::ContainsAny { attr: b, values: w },
            ) => {
                *a == *b && Value::same_list(v, w)
            },
            (
                Filter::NotContainsAny { attr: a, values: v },
                Filter::NotContainsAny { attr: b, values: w },
            ) => {
                *a == *b && Value::same_list(v, w)
            },
            (Filter::Glob { attr: a, pattern: p }, Filter::Glob { attr: b, pattern: q }) => {
                *a == *b && *p == *q
            },
            (Filter::NotGlob { attr: a, pattern: p }, Filter::NotGlob { attr: b, pattern: q }) => {
                *a == *b && *p == *q
            },
            (Filter::IGlob { attr: a, pattern: p }, Filter::IGlob { attr: b, pattern: q }) => {
                *a == *b && *p == *q
            },
            (
                Filter::NotIGlob { attr: a, pattern: p },
                Filter::NotIGlob { attr: b, pattern: q },
            ) => {
                *a == *b && *p == *q
            },
            (Filter::Regex { attr: a, pattern: p }, Filter::Regex { attr: b, pattern: q }) => {
                *a == *b && *p == *q
            },
            (
                Filter::ContainsAllTokens { attr: a, value: v, params: p },
                Filter::ContainsAllTokens { attr: b, value: w, params: q },
            ) => { *a == *b && *v == *w && same_options(p, q) },
            (
                Filter::ContainsTokenSequence { attr: a, value: v },
                Filter::ContainsTokenSequence { attr: b, value: w },
            ) => { *a == *b && *v == *w },
            (Filter::And(a), Filter::And(b)) => {
                proof {
                    lemma_model_children(*a);
                    lemma_model_children(*b);
                }
                Filter::same_all(a, b)
            },
            (Filter::Or(a), Filter::Or(b)) => {
                proof {
                    lemma_model_children(*a);
                    lemma_model_children(*b);
                }
                Filter::same_all(a, b)
            },
            (Filter::Not(a), Filter::Not(b)) => (**a).same(&**b),
            _ => false,
        }
    }
}

/// Whether two optional option sets are the same.
fn same_options(
    left: &Option<ContainsAllTokensParams>,
    right: &Option<ContainsAllTokensParams>,
) -> (same: bool)
    ensures
        same == (*left == *right),
{
    match (left, right) {
        (None, None) => true,
        (Some(p), Some(q)) => same_flag(p.last_as_prefix, q.last_as_prefix),
        _ => false,
    }
}

impl PartialEq for Filter {
    fn eq(&self, other: &Filter) -> (r: bool) {
        self.same(other)
    }
}

impl PartialEqSpecImpl for Filter {
    open spec fn obeys_eq_spec() -> bool {
        true
    }

    open spec fn eq_spec(&self, other: &Filter) -> bool {
        self@ == other@
    }
}

impl Filter {
    /// Writes the wire form of each filter of a list, in order.
    pub fn encode_all(filters: &Vec<Filter>) -> (out: Vec<Value>)
        ensures
            views(out@) == wires(models(filters@)),
        decreases filters,
    {
        let mut out: Vec<Value> = Vec::new();
        let mut i: usize = 0;
        while i < filters.len()
            invariant
                i <= filters.len(),
                out.len() == i,
                forall|k: int| 0 <= k < i ==> out[k]@ == filters[k]@.wire(),
            decreases filters.len() - i,
        {
            out.push(filters[i].encode());
            i = i + 1;
        }
        assert(views(out@) =~= wires(models(filters@)));
        out
    }

    /// Writes the canonical wire form of this filter.
    pub fn encode(&self) -> (v: Value)
        ensures
            v@ == self@.wire(),
        decreases self,
    {
        match self {
            Filter::Eq { attr, value } => triple_value(attr, "Eq", value.clone()),
            Filter::NotEq { attr, value } => triple_value(attr, "NotEq", value.clone()),
            Filter::Lt { attr, value } => triple_value(attr, "Lt", value.clone()),
            Filter::Lte { attr, value } => triple_value(attr, "Lte", value.clone()),
            Filter::Gt { attr, value } => triple_value(attr, "Gt", value.clone()),
            Filter::Gte { attr, value } => triple_value(attr, "Gte", value.clone()),
            Filter::AnyLt { attr, value } => triple_value(attr, "AnyLt", value.clone()),
            Filter::AnyLte { attr, value } => triple_value(attr, "AnyLte", value.clone()),
            Filter::AnyGt { attr, value } => triple_value(attr, "AnyGt", value.clone()),
            Filter::AnyGte { attr, value } => triple_value(attr, "AnyGte", value.clone()),
            Filter::In { attr, values } => triple_value(attr, "In", list_value(values)),
            Filter::NotIn { attr, values } => triple_value(attr, "NotIn", list_value(values)),
            Filter::Contains { attr, value } => triple_value(attr, "Contains", value.clone()),
            Filter::NotContains { attr, value } => triple_value(attr, "NotContains", value.clone()),
            Filter::ContainsAny { attr, values } => triple_value(
                attr,
                "ContainsAny",
                list_value(values),
            ),
            Filter::NotContainsAny { attr, values } => triple_value(
                attr,
                "NotContainsAny",
                list_value(values),
            ),
            Filter::Glob { attr, pattern } => triple_value(attr, "Glob", text_value(pattern)),
            Filter::NotGlob { attr, pattern } => triple_value(attr, "NotGlob", text_value(pattern)),
            Filter::IGlob { attr, pattern } => triple_value(attr, "IGlob", text_value(pattern)),
            Filter::NotIGlob { attr, pattern } => triple_value(
                attr,
                "NotIGlob",
                text_value(pattern),
            ),
            Filter::Regex { attr, pattern } => triple_value(attr, "Regex", text_value(pattern)),
            Filter::ContainsAllTokens { attr, value, params } => {
                match params {
                    Some(p) => {
                        if p.last_as_prefix.is_some() {
                            quad_value(attr, "ContainsAllTokens", text_value(value), p.encode())
                        } else {
                            triple_value(attr, "ContainsAllTokens", text_value(value))
                        }
                    },
                    None => triple_value(attr, "ContainsAllTokens", text_value(value)),
                }
            },
            Filter::ContainsTokenSequence { attr, value } => triple_value(
                attr,
                "ContainsTokenSequence",
                text_value(value),
            ),
            Filter::And(filters) => {
                let children = Filter::encode_all(filters);
                proof {
                    crate::value::lemma_array_view(children);
                    lemma_model_children(*filters);
                    lemma_wire_children(models(filters@));
                }
                tagged_value("And", Value::Array(children))
            },
            Filter::Or(filters) => {
                let children = Filter::encode_all(filters);
                proof {
                    crate::value::lemma_array_view(children);
                    lemma_model_children(*filters);
                    lemma_wire_children(models(filters@));
                }
                tagged_value("Or", Value::Array(children))
            },
            Filter::Not(inner) => tagged_value("Not", inner.encode()),
        }
    }
}

/// The negation of a filter.
pub open spec fn negation(x: FilterExpr) -> FilterExpr {
    FilterExpr::Not(Box::new(x))
}

/// Nothing is simplified: a doubly negated filter is written with both
/// negations, so its wire form differs from that of the filter itself.
pub proof fn lemma_double_negation_is_kept(x: FilterExpr)
    ensures
        negation(negation(x)).wire() == tagged("Not"@, tagged("Not"@, x.wire())),
        negation(negation(x)).wire() != x.wire(),
    decreases x,
{
    reveal_strlit("Not");
    reveal_strlit("And");
    reveal_strlit("Or");
    let twice = tagged("Not"@, tagged("Not"@, x.wire()));
    assert(negation(x).wire() == tagged("Not"@, x.wire()));
    assert(negation(negation(x)).wire() == tagged("Not"@, negation(x).wire()));
    assert(twice->Array_0.len() == 2);
    assert(twice->Array_0[0] == Json::String("Not"@));
    assert(twice->Array_0[1] == tagged("Not"@, x.wire()));
    if x.wire() == twice {
        match x {
            FilterExpr::Not(child) => {
                let once = tagged("Not"@, child.wire());
                assert(once->Array_0[1] == child.wire());
                assert(child.wire() == tagged("Not"@, x.wire()));
                lemma_double_negation_is_kept(*child);
            },
            FilterExpr::And(children) => {
                let w = tagged("And"@, Json::Array(FilterExpr::wire_children(children)));
                assert(w->Array_0[0] == Json::String("And"@));
                assert("And"@.len() == 3);
                assert("And"@[0] != "Not"@[0]);
            },
            FilterExpr::Or(children) => {
                let w = tagged("Or"@, Json::Array(FilterExpr::wire_children(children)));
                assert(w->Array_0[0] == Json::String("Or"@));
                assert("Or"@.len() == 2);
            },
            _ => {
                assert(x.wire()->Array_0.len() >= 3);
            },
        }
    }
}

/// The option object of `ContainsAllTokens` is written only if an option is
/// set. Without one the filter has the three-element form; with one, the
/// fourth element holds exactly the key that is set. No element is ever
/// `null` or an empty object.
pub proof fn lemma_token_options_are_omitted_when_unset(
    attr: Seq<char>,
    value: Seq<char>,
    params: Option<ContainsAllTokensParams>,
)
    ensures
        ({
            let w = (FilterExpr::ContainsAllTokens { attr, value, params }).wire();
            let short = triple(attr, "ContainsAllTokens"@, Json::String(value));
            &&& params is None ==> w == short
            &&& (params matches Some(p) && p.last_as_prefix is None) ==> w == short
            &&& forall|flag: bool|
                params == Some(ContainsAllTokensParams { last_as_prefix: Some(flag) }) ==> w
                    == quad(
                    attr,
                    "ContainsAllTokens"@,
                    Json::String(value),
                    Json::Object(seq![("last_as_prefix"@, Json::Bool(flag))]),
                )
            &&& w is Array
            &&& 3 <= w->Array_0.len() <= 4
            &&& forall|i: int|
                0 <= i < w->Array_0.len() ==> w->Array_0[i] != Json::Null && w->Array_0[i]
                    != Json::Object(Seq::empty())
        }),
{
    let w = (FilterExpr::ContainsAllTokens { attr, value, params }).wire();
    match params {
        Some(p) => {
            match p.last_as_prefix {
                Some(flag) => {
                    let object = Json::Object(seq![("last_as_prefix"@, Json::Bool(flag))]);
                    assert(w == quad(attr, "ContainsAllTokens"@, Json::String(value), object));
                    assert(object->Object_0.len() == 1);
                    assert(w->Array_0.len() == 4);
                },
                None => {
                    assert(w->Array_0.len() == 3);
                },
            }
        },
        None => {
            assert(w->Array_0.len() == 3);
        },
    }
}

/// Encoding is a function of the tree: two encodings of equal trees are equal.
pub proof fn lemma_encoding_is_deterministic(a: Filter, b: Filter, first: Value, second: Value)
    requires
        a@ == b@,
        call_ensures(Filter::encode, (&a,), first),
        call_ensures(Filter::encode, (&b,), second),
    ensures
        first@ == second@,
{
}

/// `And` and `Or` write their children in the order given: the list on the
/// wire has one element per child, and the element at each position is the
/// wire form of the child at that position.
pub proof fn lemma_children_keep_their_order(children: Seq<FilterExpr>)
    ensures
        FilterExpr::And(children).wire() == tagged("And"@, Json::Array(wires(children))),
        FilterExpr::Or(children).wire() == tagged("Or"@, Json::Array(wires(children))),
        wires(children).len() == children.len(),
        forall|i: int| 0 <= i < children.len() ==> wires(children)[i] == children[i].wire(),
{
    lemma_wire_children(children);
}

/// The operator whose tag has the given length, first and fourth character.
spec fn ordinal_by_print(len: nat, first: char, fourth: char) -> int {
    if len == 2 {
        if first == 'E' {
            0
        } else if first == 'L' {
            2
        } else if first == 'G' {
            4
        } else if first == 'I' {
            10
        } else {
            24
        }
    } else if len == 3 {
        if first == 'L' {
            3
        } else if first == 'G' {
            5
        } else if first == 'A' {
            23
        } else {
            25
        }
    } else if len == 4 {
        16
    } else if len == 5 {
        if first == 'N' {
            if fourth == 'E' {
                1
            } else {
                11
            }
        } else if first == 'A' {
            if fourth == 'L' {
                6
            } else {
                8
            }
        } else if first == 'I' {
            18
        } else {
            20
        }
    } else if len == 6 {
        if fourth == 'L' {
            7
        } else {
            9
        }
    } else if len == 7 {
        17
    } else if len == 8 {
        if first == 'C' {
            12
        } else {
            19
        }
    } else if len == 11 {
        if first == 'N' {
            13
        } else {
            14
        }
    } else if len == 14 {
        15
    } else if len == 17 {
        21
    } else if len == 21 {
        22
    } else {
        -1
    }
}

/// The tag of an operator tells its place in the tag table.
proof fn lemma_tag_print(x: FilterExpr)
    ensures
        x.ordinal() == ordinal_by_print(x.tag().len(), x.tag()[0], x.tag()[3]),
{
    reveal_strlit("Eq");
    reveal_strlit("NotEq");
    reveal_strlit("Lt");
    reveal_strlit("Lte");
    reveal_strlit("Gt");
    reveal_strlit("Gte");
    reveal_strlit("AnyLt");
    reveal_strlit("AnyLte");
    reveal_strlit("AnyGt");
    reveal_strlit("AnyGte");
    reveal_strlit("In");
    reveal_strlit("NotIn");
    reveal_strlit("Contains");
    reveal_strlit("NotContains");
    reveal_strlit("ContainsAny");
    reveal_strlit("NotContainsAny");
    reveal_strlit("Glob");
    reveal_strlit("NotGlob");
    reveal_strlit("IGlob");
    reveal_strlit("NotIGlob");
    reveal_strlit("Regex");
    reveal_strlit("ContainsAllTokens");
    reveal_strlit("ContainsTokenSequence");
    reveal_strlit("And");
    reveal_strlit("Or");
    reveal_strlit("Not");
}

/// No two operators share a tag.
pub proof fn lemma_tags_are_distinct(a: FilterExpr, b: FilterExpr)
    requires
        a.tag() == b.tag(),
    ensures
        a.ordinal() == b.ordinal(),
{
    lemma_tag_print(a);
    lemma_tag_print(b);
}

/// The shape of a wire form: a combinator is `[tag, body]`; a test on an
/// attribute is `[attr, tag, operand]`, followed by its option set if one is
/// written.
pub proof fn lemma_wire_shape(x: FilterExpr)
    ensures
        x.wire() is Array,
        x.is_logical() ==> x.wire()->Array_0.len() == 2 && x.wire()->Array_0[0] == Json::String(
            x.tag(),
        ),
        !x.is_logical() ==> x.wire() == (match x.written_options() {
            Some(p) => quad(x.attr(), x.tag(), x.operand(), p.wire()),
            None => triple(x.attr(), x.tag(), x.operand()),
        }),
{
}

/// A test is known by its operator, its attribute, its operand and its
/// option set.
proof fn lemma_test_is_determined(a: FilterExpr, b: FilterExpr)
    requires
        !a.is_logical(),
        !b.is_logical(),
        a.ordinal() == b.ordinal(),
        a.attr() == b.attr(),
        a.operand() == b.operand(),
        a.is_canonical(),
        b.is_canonical(),
        a.written_options() == b.written_options(),
    ensures
        a == b,
{
}

/// Nothing is lost on the wire: two filters with the same wire form are the
/// same filter, provided that neither carries an option set with nothing in
/// it.
pub proof fn lemma_wire_is_injective(a: FilterExpr, b: FilterExpr)
    requires
        a.is_canonical(),
        b.is_canonical(),
        a.wire() == b.wire(),
    ensures
        a == b,
    decreases a,
{
    lemma_wire_shape(a);
    lemma_wire_shape(b);
    if a.is_logical() {
        assert(b.wire()->Array_0.len() == 2);
        assert(b.is_logical());
        lemma_tags_are_distinct(a, b);
        match a {
            FilterExpr::And(left) => {
                let right = b->And_0;
                lemma_wire_children(left);
                lemma_wire_children(right);
                assert(a.wire()->Array_0[1] == Json::Array(wires(left)));
                assert(b.wire()->Array_0[1] == Json::Array(wires(right)));
                assert(wires(left).len() == wires(right).len());
                assert forall|i: int| 0 <= i < left.len() implies left[i] == right[i] by {
                    assert(wires(left)[i] == wires(right)[i]);
                    lemma_wire_is_injective(left[i], right[i]);
                }
                assert(left =~= right);
            },
            FilterExpr::Or(left) => {
                let right = b->Or_0;
                lemma_wire_children(left);
                lemma_wire_children(right);
                assert(a.wire()->Array_0[1] == Json::Array(wires(left)));
                assert(b.wire()->Array_0[1] == Json::Array(wires(right)));
                assert(wires(left).len() == wires(right).len());
                assert forall|i: int| 0 <= i < left.len() implies left[i] == right[i] by {
                    assert(wires(left)[i] == wires(right)[i]);
                    lemma_wire_is_injective(left[i], right[i]);
                }
                assert(left =~= right);
            },
            FilterExpr::Not(left) => {
                let right = b->Not_0;
                assert(a.wire()->Array_0[1] == left.wire());
                assert(b.wire()->Array_0[1] == right.wire());
                lemma_wire_is_injective(*left, *right);
            },
            _ => {},
        }
    } else {
        let w = a.wire()->Array_0;
        let v = b.wire()->Array_0;
        assert(w.len() >= 3);
        assert(!b.is_logical());
        assert(w[0] == v[0] && w[1] == v[1] && w[2] == v[2]);
        lemma_tags_are_distinct(a, b);
        match a.written_options() {
            Some(p) => {
                assert(w.len() == 4);
                let q = b.written_options()->Some_0;
                assert(w[3] == v[3]);
                assert(w[3]->Object_0[0] == (
                    last_as_prefix_key(),
                    Json::Bool(p.last_as_prefix->Some_0),
                ));
                assert(v[3]->Object_0[0] == (
                    last_as_prefix_key(),
                    Json::Bool(q.last_as_prefix->Some_0),
                ));
            },
            None => {
                assert(w.len() == 3);
            },
        }
        lemma_test_is_determined(a, b);
    }
}

} // verus!
