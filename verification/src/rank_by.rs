//! Ranking formulas and their wire form.

use crate::value::{lemma_array_view, views, Float32, Float64, Json, Num, Value};
use crate::wire::{
    double, double_value, last_as_prefix_key, lemma_prefix_object_round_trip, pair, pair_value,
    parse_prefix_object, prefix_object, prefix_object_value, quad, quad_value,
    read_prefix_object, same_flag, tagged, tagged_value, text_value, triple, triple_value,
    vector, vector_value,
};
use vstd::prelude::*;
use vstd::std_specs::cmp::PartialEqSpecImpl;

verus! {

broadcast use vstd::std_specs::vec::group_vec_axioms;

/// The direction of an ordering by attribute.
#[derive(Debug, Clone, Copy, PartialEq, Eq, Structural)]
pub enum Order {
    Asc,
    Desc,
}

impl Order {
    /// The tag of the direction on the wire. It is lower case.
    pub open spec fn tag(self) -> Seq<char> {
        match self {
            Order::Asc => "asc"@,
            Order::Desc => "desc"@,
        }
    }

    /// The tag of the direction on the wire.
    pub fn as_str(self) -> (tag: &'static str)
        ensures
            tag@ == self.tag(),
    {
        match self {
            Order::Asc => "asc",
            Order::Desc => "desc",
        }
    }
}

/// Options of the `BM25` operator.
#[derive(Debug, Clone, Copy, PartialEq, Eq, Structural)]
pub struct Bm25Params {
    /// Whether the last token of the query matches as a prefix.
    pub last_as_prefix: Option<bool>,
}

impl Bm25Params {
    /// Whether any option is set.
    pub open spec fn is_set(self) -> bool {
        self.last_as_prefix is Some
    }

    /// The option object: it holds exactly the keys that are set.
    pub open spec fn wire(self) -> Json {
        prefix_object(self.last_as_prefix)
    }

    /// Writes the option object.
    pub fn encode(&self) -> (v: Value)
        ensures
            v@ == self.wire(),
    {
        prefix_object_value(self.last_as_prefix)
    }

    /// The options that an object on the wire stands for, if it is accepted.
    pub open spec fn parse(object: Json) -> Option<Bm25Params> {
        match parse_prefix_object(object) {
            Some(last_as_prefix) => Some(Bm25Params { last_as_prefix }),
            None => None,
        }
    }

    /// Reads the options back from an object on the wire. `None` means that
    /// the object is refused.
    pub fn decode(object: &Value) -> (r: Option<Bm25Params>)
        ensures
            r == Bm25Params::parse(object@),
    {
        match read_prefix_object(object) {
            Some(last_as_prefix) => Some(Bm25Params { last_as_prefix }),
            None => None,
        }
    }
}

/// Options that were written are read back unchanged.
pub proof fn lemma_bm25_options_round_trip(params: Bm25Params)
    ensures
        Bm25Params::parse(params.wire()) == Some(params),
{
    lemma_prefix_object_round_trip(params.last_as_prefix);
}

/// A formula by which rows are ranked.
#[derive(Debug)]
#[allow(inconsistent_fields)]
pub enum RankBy {
    /// The approximate nearest-neighbour score of a vector attribute.
    Vector { attr: String, query: Vec<Float32> },
    /// The exact nearest-neighbour score of a vector attribute.
    VectorKnn { attr: String, query: Vec<Float32> },
    /// The text relevance of an attribute for a query.
    Bm25 { attr: String, query: String, params: Option<Bm25Params> },
    /// The value of an attribute, in the given direction.
    Attribute { attr: String, order: Order },
    /// The sum of the scores.
    Sum(Vec<RankBy>),
    /// The greatest of the scores.
    Max(Vec<RankBy>),
    /// One score, scaled by a weight.
    Product { weight: Float64, subquery: Box<RankBy> },
}

/// The mathematical model of a [`RankBy`].
#[allow(inconsistent_fields)]
pub enum RankExpr {
    Vector { attr: Seq<char>, query: Seq<Float32> },
    VectorKnn { attr: Seq<char>, query: Seq<Float32> },
    Bm25 { attr: Seq<char>, query: Seq<char>, params: Option<Bm25Params> },
    Attribute { attr: Seq<char>, order: Order },
    Sum(Seq<RankExpr>),
    Max(Seq<RankExpr>),
    Product { weight: Float64, subquery: Box<RankExpr> },
}

/// The wire forms of a list of formulas, in order.
pub open spec fn wires(children: Seq<RankExpr>) -> Seq<Json> {
    children.map_values(|child: RankExpr| child.wire())
}

/// The models of a list of formulas, in order.
pub open spec fn models(formulas: Seq<RankBy>) -> Seq<RankExpr> {
    formulas.map_values(|formula: RankBy| formula@)
}

impl RankExpr {
    /// The wire form of the combinator's children.
    pub open spec fn wire_children(children: Seq<RankExpr>) -> Seq<Json>
        decreases children, 0nat,
    {
        Seq::new(
            children.len(),
            |i: int|
                if 0 <= i < children.len() {
                    children[i].wire()
                } else {
                    Json::Null
                },
        )
    }

    /// The canonical wire form.
    ///
    /// A vector score is `[attr, tag, [numbers...]]`. `BM25` is
    /// `[attr, "BM25", query]` and gets a fourth element, its option object,
    /// only if an option is set. An ordering is `[attr, direction]`. `Sum`
    /// and `Max` are `[tag, [children...]]` with the children in the order
    /// given; `Product` is `["Product", weight, child]`.
    pub open spec fn wire(self) -> Json
        decreases self, 1nat,
    {
        match self {
            RankExpr::Vector { attr, query } => triple(attr, "ANN"@, vector(query)),
            RankExpr::VectorKnn { attr, query } => triple(attr, "kNN"@, vector(query)),
            RankExpr::Bm25 { attr, query, params } => match params {
                Some(p) if p.is_set() => quad(attr, "BM25"@, Json::String(query), p.wire()),
                _ => triple(attr, "BM25"@, Json::String(query)),
            },
            RankExpr::Attribute { attr, order } => pair(attr, order.tag()),
            RankExpr::Sum(children) => tagged(
                "Sum"@,
                Json::Array(RankExpr::wire_children(children)),
            ),
            RankExpr::Max(children) => tagged(
                "Max"@,
                Json::Array(RankExpr::wire_children(children)),
            ),
            RankExpr::Product { weight, subquery } => triple_of(
                "Product"@,
                double(weight),
                subquery.wire(),
            ),
        }
    }
}

/// `[tag, weight, body]`.
pub open spec fn triple_of(tag: Seq<char>, weight: Json, body: Json) -> Json {
    Json::Array(seq![Json::String(tag), weight, body])
}

/// The children of a combinator are written one by one.
pub proof fn lemma_wire_children(children: Seq<RankExpr>)
    ensures
        RankExpr::wire_children(children) == wires(children),
{
    assert(RankExpr::wire_children(children) =~= wires(children));
}

impl RankBy {
    /// The models of the children of a combinator.
    pub open spec fn model_children(formulas: &Vec<RankBy>) -> Seq<RankExpr>
        decreases formulas, 0nat,
    {
        Seq::new(
            formulas.len() as nat,
            |i: int|
                if 0 <= i < formulas.len() {
                    formulas[i].model()
                } else {
                    RankExpr::Sum(Seq::empty())
                },
        )
    }

    /// The model of this formula: the same tree over mathematical values.
    pub open spec fn model(&self) -> RankExpr
        decreases self, 1nat,
    {
        match self {
            RankBy::Vector { attr, query } => RankExpr::Vector { attr: attr@, query: query@ },
            RankBy::VectorKnn { attr, query } => RankExpr::VectorKnn { attr: attr@, query: query@ },
            RankBy::Bm25 { attr, query, params } => RankExpr::Bm25 {
                attr: attr@,
                query: query@,
                params: *params,
            },
            RankBy::Attribute { attr, order } => RankExpr::Attribute { attr: attr@, order: *order },
            RankBy::Sum(formulas) => RankExpr::Sum(RankBy::model_children(formulas)),
            RankBy::Max(formulas) => RankExpr::Max(RankBy::model_children(formulas)),
            RankBy::Product { weight, subquery } => RankExpr::Product {
                weight: *weight,
                subquery: Box::new(subquery.model()),
            },
        }
    }
}

impl View for RankBy {
    type V = RankExpr;

    open spec fn view(&self) -> RankExpr {
        self.model()
    }
}

/// The children of a combinator are modelled one by one.
pub proof fn lemma_model_children(formulas: Vec<RankBy>)
    ensures
        RankBy::model_children(&formulas) == models(formulas@),
{
    assert(RankBy::model_children(&formulas) =~= models(formulas@));
}

impl RankBy {
    /// The approximate nearest-neighbour score of `attr` for the query vector.
    pub fn vector(attr: &str, query: Vec<Float32>) -> (r: RankBy)
        ensures
            r@ == (RankExpr::Vector { attr: attr@, query: query@ }),
    {
        RankBy::Vector { attr: attr.to_owned(), query }
    }

    /// The exact nearest-neighbour score of `attr` for the query vector.
    pub fn vector_knn(attr: &str, query: Vec<Float32>) -> (r: RankBy)
        ensures
            r@ == (RankExpr::VectorKnn { attr: attr@, query: query@ }),
    {
        RankBy::VectorKnn { attr: attr.to_owned(), query }
    }

    /// The text relevance of `attr` for the query, with no option set.
    pub fn bm25(attr: &str, query: &str) -> (r: RankBy)
        ensures
            r@ == (RankExpr::Bm25 { attr: attr@, query: query@, params: None }),
    {
        RankBy::Bm25 { attr: attr.to_owned(), query: query.to_owned(), params: None }
    }

    /// The text relevance of `attr` for the query, under the given options.
    pub fn bm25_with_params(attr: &str, query: &str, params: Bm25Params) -> (r: RankBy)
        ensures
            r@ == (RankExpr::Bm25 { attr: attr@, query: query@, params: Some(params) }),
    {
        RankBy::Bm25 { attr: attr.to_owned(), query: query.to_owned(), params: Some(params) }
    }

    /// The value of `attr`, in the given direction.
    pub fn attribute(attr: &str, order: Order) -> (r: RankBy)
        ensures
            r@ == (RankExpr::Attribute { attr: attr@, order }),
    {
        RankBy::Attribute { attr: attr.to_owned(), order }
    }

    /// The value of `attr`, smallest first.
    pub fn asc(attr: &str) -> (r: RankBy)
        ensures
            r@ == (RankExpr::Attribute { attr: attr@, order: Order::Asc }),
    {
        RankBy::Attribute { attr: attr.to_owned(), order: Order::Asc }
    }

    /// The value of `attr`, greatest first.
    pub fn desc(attr: &str) -> (r: RankBy)
        ensures
            r@ == (RankExpr::Attribute { attr: attr@, order: Order::Desc }),
    {
        RankBy::Attribute { attr: attr.to_owned(), order: Order::Desc }
    }

    /// The sum of the scores of the formulas. The order of the list is kept.
    pub fn sum(subqueries: Vec<RankBy>) -> (r: RankBy)
        ensures
            r@ == RankExpr::Sum(models(subqueries@)),
    {
        proof {
            lemma_model_children(subqueries);
        }
        RankBy::Sum(subqueries)
    }

    /// The greatest of the scores of the formulas. The order of the list is kept.
    pub fn max(subqueries: Vec<RankBy>) -> (r: RankBy)
        ensures
            r@ == RankExpr::Max(models(subqueries@)),
    {
        proof {
            lemma_model_children(subqueries);
        }
        RankBy::Max(subqueries)
    }

    /// The score of the formula, scaled by the weight.
    pub fn product(weight: Float64, subquery: RankBy) -> (r: RankBy)
        ensures
            r@ == (RankExpr::Product { weight, subquery: Box::new(subquery@) }),
    {
        RankBy::Product { weight, subquery: Box::new(subquery) }
    }
}

impl RankBy {
    /// Copies a list of formulas, element by element.
    pub fn clone_all(formulas: &Vec<RankBy>) -> (out: Vec<RankBy>)
        ensures
            models(out@) == models(formulas@),
        decreases formulas,
    {
        let mut out: Vec<RankBy> = Vec::new();
        let mut i: usize = 0;
        while i < formulas.len()
            invariant
                i <= formulas.len(),
                out.len() == i,
                forall|k: int| 0 <= k < i ==> out[k]@ == formulas[k]@,
            decreases formulas.len() - i,
        {
            out.push(formulas[i].clone());
            i = i + 1;
        }
        assert(models(out@) =~= models(formulas@));
        out
    }
}

/// Copies a list of numbers.
fn clone_vector(query: &Vec<Float32>) -> (out: Vec<Float32>)
    ensures
        out@ == query@,
{
    let mut out: Vec<Float32> = Vec::new();
    let mut i: usize = 0;
    while i < query.len()
        invariant
            i <= query.len(),
            out.len() == i,
            forall|k: int| 0 <= k < i ==> out[k] == query[k],
        decreases query.len() - i,
    {
        out.push(query[i]);
        i = i + 1;
    }
    assert(out@ =~= query@);
    out
}

impl Clone for RankBy {
    fn clone(&self) -> (out: RankBy)
        ensures
            out@ == self@,
        decreases self,
    {
        match self {
            RankBy::Vector { attr, query } => RankBy::Vector {
                attr: attr.clone(),
                query: clone_vector(query),
            },
            RankBy::VectorKnn { attr, query } => RankBy::VectorKnn {
                attr: attr.clone(),
                query: clone_vector(query),
            },
            RankBy::Bm25 { attr, query, params } => RankBy::Bm25 {
                attr: attr.clone(),
                query: query.clone(),
                params: *params,
            },
            RankBy::Attribute { attr, order } => RankBy::Attribute {
                attr: attr.clone(),
                order: *order,
            },
            RankBy::Sum(formulas) => {
                let copy = RankBy::clone_all(formulas);
                proof {
                    lemma_model_children(*formulas);
                    lemma_model_children(copy);
                }
                RankBy::Sum(copy)
            },
            RankBy::Max(formulas) => {
                let copy = RankBy::clone_all(formulas);
                proof {
                    lemma_model_children(*formulas);
                    lemma_model_children(copy);
                }
                RankBy::Max(copy)
            },
            RankBy::Product { weight, subquery } => RankBy::Product {
                weight: *weight,
                subquery: Box::new((**subquery).clone()),
            },
        }
    }
}

/// Whether two vectors hold the same numbers, bit for bit.
fn same_vector(left: &Vec<Float32>, right: &Vec<Float32>) -> (same: bool)
    ensures
        same == (left@ == right@),
{
    if left.len() != right.len() {
        return false;
    }
    let mut i: usize = 0;
    while i < left.len()
        invariant
            i <= left.len(),
            left.len() == right.len(),
            forall|k: int| 0 <= k < i ==> left[k] == right[k],
        decreases left.len() - i,
    {
        if left[i].bits != right[i].bits {
            assert(left@[i as int] != right@[i as int]);
            return false;
        }
        i = i + 1;
    }
    assert(left@ =~= right@);
    true
}

/// Whether two optional option sets are the same.
fn same_options(left: &Option<Bm25Params>, right: &Option<Bm25Params>) -> (same: bool)
    ensures
        same == (*left == *right),
{
    match (left, right) {
        (None, None) => true,
        (Some(p), Some(q)) => same_flag(p.last_as_prefix, q.last_as_prefix),
        _ => false,
    }
}

impl RankBy {
    /// Whether two lists hold the same formulas, position by position.
    pub fn same_all(left: &Vec<RankBy>, right: &Vec<RankBy>) -> (same: bool)
        ensures
            same == (models(left@) == models(right@)),
        decreases left,
    {
        if left.len() != right.len() {
            assert(models(left@).len() != models(right@).len());
            return false;
        }
        let mut i: usize = 0;
        while i < left.len()
            invariant
                i <= left.len(),
                left.len() == right.len(),
                forall|k: int| 0 <= k < i ==> left[k]@ == right[k]@,
            decreases left.len() - i,
        {
            if !left[i].same(&right[i]) {
                assert(models(left@)[i as int] != models(right@)[i as int]);
                return false;
            }
            i = i + 1;
        }
        assert(models(left@) =~= models(right@));
        true
    }

    /// Whether two formulas are structurally equal.
    pub fn same(&self, other: &RankBy) -> (same: bool)
        ensures
            same == (self@ == other@),
        decreases self,
    {
        match (self, other) {
            (RankBy::Vector { attr: a, query: v }, RankBy::Vector { attr: b, query: w }) => {
                *a == *b && same_vector(v, w)
            },
            (RankBy::VectorKnn { attr: a, query: v }, RankBy::VectorKnn { attr: b, query: w }) => {
                *a == *b && same_vector(v, w)
            },
            (
                RankBy::Bm25 { attr: a, query: v, params: p },
                RankBy::Bm25 { attr: b, query: w, params: q },
            ) => { *a == *b && *v == *w && same_options(p, q) },
            (RankBy::Attribute { attr: a, order: o }, RankBy::Attribute { attr: b, order: p }) => {
                *a == *b && *o == *p
            },
            (RankBy::Sum(a), RankBy::Sum(b)) => {
                proof {
                    lemma_model_children(*a);
                    lemma_model_children(*b);
                }
                RankBy::same_all(a, b)
            },
            (RankBy::Max(a), RankBy::Max(b)) => {
                proof {
                    lemma_model_children(*a);
                    lemma_model_children(*b);
                }
                RankBy::same_all(a, b)
            },
            (
                RankBy::Product { weight: a, subquery: x },
                RankBy::Product { weight: b, subquery: y },
            ) => { a.bits == b.bits && (**x).same(&**y) },
            _ => false,
        }
    }
}

impl PartialEq for RankBy {
    fn eq(&self, other: &RankBy) -> (r: bool) {
        self.same(other)
    }
}

impl PartialEqSpecImpl for RankBy {
    open spec fn obeys_eq_spec() -> bool {
        true
    }

    open spec fn eq_spec(&self, other: &RankBy) -> bool {
        self@ == other@
    }
}

impl RankBy {
    /// Writes the wire form of each formula of a list, in order.
    pub fn encode_all(formulas: &Vec<RankBy>) -> (out: Vec<Value>)
        ensures
            views(out@) == wires(models(formulas@)),
        decreases formulas,
    {
        let mut out: Vec<Value> = Vec::new();
        let mut i: usize = 0;
        while i < formulas.len()
            invariant
                i <= formulas.len(),
                out.len() == i,
                forall|k: int| 0 <= k < i ==> out[k]@ == formulas[k]@.wire(),
            decreases formulas.len() - i,
        {
            out.push(formulas[i].encode());
            i = i + 1;
        }
        assert(views(out@) =~= wires(models(formulas@)));
        out
    }

    /// Writes the canonical wire form of this formula.
    pub fn encode(&self) -> (v: Value)
        ensures
            v@ == self@.wire(),
        decreases self,
    {
        match self {
            RankBy::Vector { attr, query } => triple_value(attr, "ANN", vector_value(query)),
            RankBy::VectorKnn { attr, query } => triple_value(attr, "kNN", vector_value(query)),
            RankBy::Bm25 { attr, query, params } => {
                match params {
                    Some(p) => {
                        if p.last_as_prefix.is_some() {
                            quad_value(attr, "BM25", text_value(query), p.encode())
                        } else {
                            triple_value(attr, "BM25", text_value(query))
                        }
                    },
                    None => triple_value(attr, "BM25", text_value(query)),
                }
            },
            RankBy::Attribute { attr, order } => pair_value(attr, order.as_str()),
            RankBy::Sum(formulas) => {
                let children = RankBy::encode_all(formulas);
                proof {
                    lemma_array_view(children);
                    lemma_model_children(*formulas);
                    lemma_wire_children(models(formulas@));
                }
                tagged_value("Sum", Value::Array(children))
            },
            RankBy::Max(formulas) => {
                let children = RankBy::encode_all(formulas);
                proof {
                    lemma_array_view(children);
                    lemma_model_children(*formulas);
                    lemma_wire_children(models(formulas@));
                }
                tagged_value("Max", Value::Array(children))
            },
            RankBy::Product { weight, subquery } => {
                let body = subquery.encode();
                let mut items: Vec<Value> = Vec::new();
                items.push(text_value("Product"));
                items.push(double_value(*weight));
                items.push(body);
                proof {
                    lemma_array_view(items);
                    assert(views(items@) =~= seq![
                        Json::String("Product"@),
                        double(*weight),
                        subquery@.wire(),
                    ]);
                }
                Value::Array(items)
            },
        }
    }
}

/// The option object of `BM25` is written only if an option is set. Without
/// one the formula has the three-element form; with one, the fourth element
/// holds exactly the key that is set. No element is ever `null` or an empty
/// object.
pub proof fn lemma_bm25_options_are_omitted_when_unset(
    attr: Seq<char>,
    query: Seq<char>,
    params: Option<Bm25Params>,
)
    ensures
        ({
            let w = (RankExpr::Bm25 { attr, query, params }).wire();
            let short = triple(attr, "BM25"@, Json::String(query));
            &&& params is None ==> w == short
            &&& (params matches Some(p) && p.last_as_prefix is None) ==> w == short
            &&& forall|flag: bool|
                params == Some(Bm25Params { last_as_prefix: Some(flag) }) ==> w == quad(
                    attr,
                    "BM25"@,
                    Json::String(query),
                    Json::Object(seq![("last_as_prefix"@, Json::Bool(flag))]),
                )
            &&& w is Array
            &&& 3 <= w->Array_0.len() <= 4
            &&& forall|i: int|
                0 <= i < w->Array_0.len() ==> w->Array_0[i] != Json::Null && w->Array_0[i]
                    != Json::Object(Seq::empty())
        }),
{
    let w = (RankExpr::Bm25 { attr, query, params }).wire();
    match params {
        Some(p) => {
            match p.last_as_prefix {
                Some(flag) => {
                    let object = Json::Object(seq![("last_as_prefix"@, Json::Bool(flag))]);
                    assert(w == quad(attr, "BM25"@, Json::String(query), object));
                    assert(object->Object_0.len() == 1);
                    assert(w->Array_0.len() == 4);
                },
                None => {
                    assert(w->Array_0.len() == 3);
                },
            }
        },
        None => {
            assert(w->Array_0.len() == 3);
        },
    }
}

/// Encoding is a function of the tree: two encodings of equal trees are equal.
pub proof fn lemma_encoding_is_deterministic(a: RankBy, b: RankBy, first: Value, second: Value)
    requires
        a@ == b@,
        call_ensures(RankBy::encode, (&a,), first),
        call_ensures(RankBy::encode, (&b,), second),
    ensures
        first@ == second@,
{
}

/// `Sum` and `Max` write their children in the order given: the list on the
/// wire has one element per child, and the element at each position is the
/// wire form of the child at that position.
pub proof fn lemma_children_keep_their_order(children: Seq<RankExpr>)
    ensures
        RankExpr::Sum(children).wire() == tagged("Sum"@, Json::Array(wires(children))),
        RankExpr::Max(children).wire() == tagged("Max"@, Json::Array(wires(children))),
        wires(children).len() == children.len(),
        forall|i: int| 0 <= i < children.len() ==> wires(children)[i] == children[i].wire(),
{
    lemma_wire_children(children);
}

/// A vector is written number by number, in the order given.
pub proof fn lemma_vector_keeps_its_order(query: Seq<Float32>)
    ensures
        vector(query) is Array,
        vector(query)->Array_0.len() == query.len(),
        forall|i: int|
            0 <= i < query.len() ==> vector(query)->Array_0[i] == Json::Number(
                Num::Single(query[i]),
            ),
{
}

impl RankExpr {
    /// Whether every option set in the tree has an option set. A tree that
    /// carries an option set with nothing in it is written like the tree
    /// without it.
    pub open spec fn is_canonical(self) -> bool
        decreases self,
    {
        match self {
            RankExpr::Bm25 { params, .. } => match params {
                Some(p) => p.is_set(),
                None => true,
            },
            RankExpr::Sum(children) => forall|i: int|
                0 <= i < children.len() ==> (#[trigger] children[i]).is_canonical(),
            RankExpr::Max(children) => forall|i: int|
                0 <= i < children.len() ==> (#[trigger] children[i]).is_canonical(),
            RankExpr::Product { subquery, .. } => subquery.is_canonical(),
            _ => true,
        }
    }
}

/// The tags of the ranking operators differ from one another, and so do the
/// two directions.
pub proof fn lemma_tags_are_distinct()
    ensures
        "ANN"@ != "kNN"@,
        "ANN"@ != "BM25"@,
        "kNN"@ != "BM25"@,
        "Sum"@ != "Max"@,
        Order::Asc.tag() != Order::Desc.tag(),
{
    reveal_strlit("ANN");
    reveal_strlit("kNN");
    reveal_strlit("BM25");
    reveal_strlit("Sum");
    reveal_strlit("Max");
    reveal_strlit("asc");
    reveal_strlit("desc");
    assert("ANN"@[0] != "kNN"@[0]);
    assert("Sum"@[0] != "Max"@[0]);
    assert("ANN"@.len() != "BM25"@.len());
    assert("kNN"@.len() != "BM25"@.len());
    assert("asc"@.len() != "desc"@.len());
}

/// A vector is known by its numbers on the wire.
pub proof fn lemma_vector_is_injective(left: Seq<Float32>, right: Seq<Float32>)
    requires
        vector(left) == vector(right),
    ensures
        left == right,
{
    let a = vector(left)->Array_0;
    let b = vector(right)->Array_0;
    assert(a.len() == left.len() && b.len() == right.len());
    assert forall|i: int| 0 <= i < left.len() implies left[i] == right[i] by {
        assert(a[i] == Json::Number(Num::Single(left[i])));
        assert(b[i] == Json::Number(Num::Single(right[i])));
    }
    assert(left =~= right);
}

/// The shape of a wire form, operator by operator.
pub proof fn lemma_wire_shape(x: RankExpr)
    ensures
        x.wire() is Array,
        x is Vector ==> x.wire()->Array_0.len() == 3 && x.wire()->Array_0[1] == Json::String(
            "ANN"@,
        ),
        x is VectorKnn ==> x.wire()->Array_0.len() == 3 && x.wire()->Array_0[1] == Json::String(
            "kNN"@,
        ),
        x is Bm25 ==> 3 <= x.wire()->Array_0.len() <= 4 && x.wire()->Array_0[1] == Json::String(
            "BM25"@,
        ),
        x is Attribute ==> x.wire()->Array_0.len() == 2 && x.wire()->Array_0[1] is String,
        x is Sum ==> x.wire()->Array_0.len() == 2 && x.wire()->Array_0[0] == Json::String("Sum"@)
            && x.wire()->Array_0[1] is Array,
        x is Max ==> x.wire()->Array_0.len() == 2 && x.wire()->Array_0[0] == Json::String("Max"@)
            && x.wire()->Array_0[1] is Array,
        x is Product ==> x.wire()->Array_0.len() == 3 && x.wire()->Array_0[1] is Number,
{
}

/// Nothing is lost on the wire: two formulas with the same wire form are the
/// same formula, provided that neither carries an option set with nothing in
/// it.
pub proof fn lemma_wire_is_injective(a: RankExpr, b: RankExpr)
    requires
        a.is_canonical(),
        b.is_canonical(),
        a.wire() == b.wire(),
    ensures
        a == b,
    decreases a,
{
    lemma_tags_are_distinct();
    lemma_wire_shape(a);
    lemma_wire_shape(b);
    let w = a.wire()->Array_0;
    let v = b.wire()->Array_0;
    assert(w == v);
    match a {
        RankExpr::Vector { attr, query } => {
            assert(w.len() == 3 && w[1] == Json::String("ANN"@) && w[2] == vector(query));
            assert(v[0] == w[0] && v[1] == w[1] && v[2] == w[2]);
            assert(b is Vector);
            lemma_vector_is_injective(query, b->Vector_query);
        },
        RankExpr::VectorKnn { attr, query } => {
            assert(w.len() == 3 && w[1] == Json::String("kNN"@) && w[2] == vector(query));
            assert(v[0] == w[0] && v[1] == w[1] && v[2] == w[2]);
            assert(b is VectorKnn);
            lemma_vector_is_injective(query, b->VectorKnn_query);
        },
        RankExpr::Bm25 { attr, query, params } => {
            assert(w[1] == Json::String("BM25"@) && w[2] == Json::String(query));
            assert(v[0] == w[0] && v[1] == w[1] && v[2] == w[2]);
            assert(b is Bm25);
            if w.len() == 4 {
                assert(w[3] == v[3]);
                let p = params->Some_0.last_as_prefix->Some_0;
                let q = b->Bm25_params->Some_0.last_as_prefix->Some_0;
                assert(w[3]->Object_0[0] == (last_as_prefix_key(), Json::Bool(p)));
                assert(v[3]->Object_0[0] == (last_as_prefix_key(), Json::Bool(q)));
            }
        },
        RankExpr::Attribute { attr, order } => {
            assert(w.len() == 2 && w[1] == Json::String(order.tag()));
            assert(v[0] == w[0] && v[1] == w[1]);
            assert(b is Attribute);
        },
        RankExpr::Sum(left) => {
            assert(w.len() == 2 && w[0] == Json::String("Sum"@) && w[1] is Array);
            assert(v[0] == w[0] && v[1] == w[1]);
            assert(b is Sum);
            let right = b->Sum_0;
            lemma_wire_children(left);
            lemma_wire_children(right);
            assert(w[1] == Json::Array(wires(left)));
            assert(v[1] == Json::Array(wires(right)));
            assert(wires(left).len() == wires(right).len());
            assert forall|i: int| 0 <= i < left.len() implies left[i] == right[i] by {
                assert(wires(left)[i] == wires(right)[i]);
                lemma_wire_is_injective(left[i], right[i]);
            }
            assert(left =~= right);
        },
        RankExpr::Max(left) => {
            assert(w.len() == 2 && w[0] == Json::String("Max"@) && w[1] is Array);
            assert(v[0] == w[0] && v[1] == w[1]);
            assert(b is Max);
            let right = b->Max_0;
            lemma_wire_children(left);
            lemma_wire_children(right);
            assert(w[1] == Json::Array(wires(left)));
            assert(v[1] == Json::Array(wires(right)));
            assert(wires(left).len() == wires(right).len());
            assert forall|i: int| 0 <= i < left.len() implies left[i] == right[i] by {
                assert(wires(left)[i] == wires(right)[i]);
                lemma_wire_is_injective(left[i], right[i]);
            }
            assert(left =~= right);
        },
        RankExpr::Product { weight, subquery } => {
            assert(w.len() == 3 && w[1] == double(weight) && w[2] == subquery.wire());
            assert(v[0] == w[0] && v[1] == w[1] && v[2] == w[2]);
            assert(b is Product);
            assert(v[2] == b->Product_subquery.wire());
            lemma_wire_is_injective(*subquery, *b->Product_subquery);
        },
    }
}

} // verus!
