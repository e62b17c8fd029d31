//! A plain JSON value: the arguments and results of commands and the payloads
//! of events.
//!
//! Text is parsed and printed at the edges of the program; the kernel itself
//! only builds, copies and inspects values.

use vstd::prelude::*;
use crate::text::str_equal;

verus! {

/// A JSON number: a non-negative integer, a negative integer, or any other
/// number kept as its decimal text.
#[derive(Debug, PartialEq)]
pub enum JsonNumber {
    PosInt(u64),
    NegInt(i64),
    Float(String),
}

/// A JSON value. An object keeps its members in order; lookups find the first
/// member with a given key.
#[derive(Debug, PartialEq)]
pub enum Json {
    Null,
    Bool(bool),
    Number(JsonNumber),
    String(String),
    Array(Vec<Json>),
    Object(Vec<(String, Json)>),
}

/// The mathematical content of a JSON value.
pub enum JsonModel {
    Null,
    Bool(bool),
    Number(JsonNumber),
    String(Seq<char>),
    Array(Seq<JsonModel>),
    Object(Seq<(Seq<char>, JsonModel)>),
}

/// The content of a value.
pub open spec fn json_model(v: Json) -> JsonModel
    decreases v, 1nat,
{
    match v {
        Json::Null => JsonModel::Null,
        Json::Bool(b) => JsonModel::Bool(b),
        Json::Number(n) => JsonModel::Number(n),
        Json::String(s) => JsonModel::String(s@),
        Json::Array(items) => {
            proof {
                broadcast use vstd::std_specs::vec::axiom_vec_decreases_to_view;
                assert(decreases_to!(items => items@));
            }
            JsonModel::Array(json_models(items@))
        },
        Json::Object(fields) => {
            proof {
                broadcast use vstd::std_specs::vec::axiom_vec_decreases_to_view;
                assert(decreases_to!(fields => fields@));
            }
            JsonModel::Object(member_models(fields@))
        },
    }
}

/// The contents of a sequence of values.
pub open spec fn json_models(items: Seq<Json>) -> Seq<JsonModel>
    decreases items, 0nat,
{
    if items.len() == 0 {
        Seq::empty()
    } else {
        seq![json_model(items[0])] + json_models(items.drop_first())
    }
}

/// The contents of the members of an object.
pub open spec fn member_models(fields: Seq<(String, Json)>) -> Seq<(Seq<char>, JsonModel)>
    decreases fields, 0nat,
{
    if fields.len() == 0 {
        Seq::empty()
    } else {
        proof {
            assert(decreases_to!(fields => fields[0]));
        }
        seq![(fields[0].0@, json_model(fields[0].1))] + member_models(fields.drop_first())
    }
}

impl View for Json {
    type V = JsonModel;

    open spec fn view(&self) -> JsonModel {
        json_model(*self)
    }
}

/// The first member of `fields` whose key is `key`.
pub open spec fn lookup_member(fields: Seq<(Seq<char>, JsonModel)>, key: Seq<char>) -> Option<JsonModel>
    decreases fields.len(),
{
    if fields.len() == 0 {
        None
    } else if fields[0].0 == key {
        Some(fields[0].1)
    } else {
        lookup_member(fields.drop_first(), key)
    }
}

/// The value of member `key` of an object; `None` for a missing key or a
/// value that is not an object.
pub open spec fn json_get(v: JsonModel, key: Seq<char>) -> Option<JsonModel> {
    match v {
        JsonModel::Object(fields) => lookup_member(fields, key),
        _ => None,
    }
}

impl Clone for JsonNumber {
    fn clone(&self) -> (r: Self)
        ensures
            r == *self,
    {
        match self {
            JsonNumber::PosInt(n) => JsonNumber::PosInt(*n),
            JsonNumber::NegInt(n) => JsonNumber::NegInt(*n),
            JsonNumber::Float(s) => JsonNumber::Float(s.clone()),
        }
    }
}

/// Two sequences of values whose elements have the same contents have the
/// same contents.
pub proof fn lemma_json_models_ext(a: Seq<Json>, b: Seq<Json>)
    requires
        a.len() == b.len(),
        forall|i: int| 0 <= i < a.len() ==> json_model(a[i]) == json_model(b[i]),
    ensures
        json_models(a) == json_models(b),
    decreases a.len(),
{
    if a.len() > 0 {
        lemma_json_models_ext(a.drop_first(), b.drop_first());
    }
}

/// Two member sequences with the same keys and same value contents have the
/// same contents.
pub proof fn lemma_member_models_ext(a: Seq<(String, Json)>, b: Seq<(String, Json)>)
    requires
        a.len() == b.len(),
        forall|i: int| 0 <= i < a.len() ==> a[i].0@ == b[i].0@ && json_model(a[i].1) == json_model(b[i].1),
    ensures
        member_models(a) == member_models(b),
    decreases a.len(),
{
    if a.len() > 0 {
        lemma_member_models_ext(a.drop_first(), b.drop_first());
    }
}

/// The contents of one or two members.
pub proof fn lemma_member_models_small(a: (String, Json), b: (String, Json))
    ensures
        member_models(seq![a]) == seq![(a.0@, json_model(a.1))],
        member_models(seq![a, b]) == seq![(a.0@, json_model(a.1)), (b.0@, json_model(b.1))],
{
    assert(member_models(Seq::<(String, Json)>::empty()) == Seq::<(Seq<char>, JsonModel)>::empty());
    assert(seq![a][0] == a);
    assert(seq![a, b][0] == a);
    assert(seq![b][0] == b);
    assert(seq![a].drop_first() =~= Seq::<(String, Json)>::empty());
    assert(seq![a, b].drop_first() =~= seq![b]);
    assert(seq![b].drop_first() =~= Seq::<(String, Json)>::empty());
    assert(member_models(seq![a]) =~= seq![(a.0@, json_model(a.1))]);
    assert(member_models(seq![b]) =~= seq![(b.0@, json_model(b.1))]);
    assert(member_models(seq![a, b]) =~= seq![(a.0@, json_model(a.1)), (b.0@, json_model(b.1))]);
}

/// The contents of three members.
pub proof fn lemma_member_models_three(a: (String, Json), b: (String, Json), c: (String, Json))
    ensures
        member_models(seq![a, b, c]) == seq![
            (a.0@, json_model(a.1)),
            (b.0@, json_model(b.1)),
            (c.0@, json_model(c.1)),
        ],
{
    lemma_member_models_small(b, c);
    assert(seq![a, b, c][0] == a);
    assert(seq![a, b, c].drop_first() =~= seq![b, c]);
    assert(member_models(seq![a, b, c]) =~= seq![
        (a.0@, json_model(a.1)),
        (b.0@, json_model(b.1)),
        (c.0@, json_model(c.1)),
    ]);
}

impl Clone for Json {
    fn clone(&self) -> (r: Self)
        ensures
            r@ == self@,
        decreases self,
    {
        match self {
            Json::Null => Json::Null,
            Json::Bool(b) => Json::Bool(*b),
            Json::Number(n) => Json::Number(n.clone()),
            Json::String(s) => Json::String(s.clone()),
            Json::Array(items) => {
                let mut out: Vec<Json> = Vec::new();
                let mut i: usize = 0;
                while i < items.len()
                    invariant
                        *self == Json::Array(*items),
                        i <= items.len(),
                        out@.len() == i,
                        forall|j: int| 0 <= j < i ==> json_model(out@[j]) == json_model(items@[j]),
                    decreases items.len() - i,
                {
                    proof {
                        broadcast use vstd::std_specs::vec::axiom_vec_decreases_to_view;
                        let ghost v = *self;
                        assert(decreases_to!(v => v->Array_0));
                        assert(decreases_to!(*items => items@));
                        assert(decreases_to!(items@ => items@[i as int]));
                        assert(decreases_to!(*self => items@[i as int]));
                    }
                    let item = items[i].clone();
                    out.push(item);
                    i = i + 1;
                }
                proof {
                    lemma_json_models_ext(out@, items@);
                }
                Json::Array(out)
            },
            Json::Object(fields) => {
                let mut out: Vec<(String, Json)> = Vec::new();
                let mut i: usize = 0;
                while i < fields.len()
                    invariant
                        *self == Json::Object(*fields),
                        i <= fields.len(),
                        out@.len() == i,
                        forall|j: int|
                            0 <= j < i ==> out@[j].0@ == fields@[j].0@ && json_model(out@[j].1)
                                == json_model(fields@[j].1),
                    decreases fields.len() - i,
                {
                    proof {
                        broadcast use vstd::std_specs::vec::axiom_vec_decreases_to_view;
                        let ghost v = *self;
                        assert(decreases_to!(v => v->Object_0));
                        assert(decreases_to!(*fields => fields@));
                        assert(decreases_to!(fields@ => fields@[i as int]));
                        assert(decreases_to!(fields@[i as int] => fields@[i as int].1));
                        assert(decreases_to!(*self => fields@[i as int].1));
                    }
                    let key = fields[i].0.clone();
                    let value = fields[i].1.clone();
                    out.push((key, value));
                    i = i + 1;
                }
                proof {
                    lemma_member_models_ext(out@, fields@);
                }
                Json::Object(out)
            },
        }
    }
}

impl Json {
    /// An object with no members.
    pub fn empty_object() -> (r: Json)
        ensures
            r@ == JsonModel::Object(Seq::empty()),
    {
        Json::Object(Vec::new())
    }

    /// A string value.
    pub fn text(s: String) -> (r: Json)
        ensures
            r@ == JsonModel::String(s@),
    {
        Json::String(s)
    }

    /// A non-negative integer value.
    pub fn uint(n: u64) -> (r: Json)
        ensures
            r@ == JsonModel::Number(JsonNumber::PosInt(n)),
    {
        Json::Number(JsonNumber::PosInt(n))
    }

    /// An object with the given members, in order.
    pub fn object(fields: Vec<(String, Json)>) -> (r: Json)
        ensures
            r@ == JsonModel::Object(member_models(fields@)),
    {
        Json::Object(fields)
    }

    /// The value of member `key`, if this is an object that has one; the
    /// first such member when several share the key.
    pub fn get(&self, key: &str) -> (r: Option<&Json>)
        ensures
            match r {
                Some(v) => json_get(self@, key@) == Some(v@),
                None => json_get(self@, key@) is None,
            },
    {
        match self {
            Json::Object(fields) => {
                assert(fields@.skip(0) =~= fields@);
                let mut i: usize = 0;
                while i < fields.len()
                    invariant
                        *self == Json::Object(*fields),
                        self@ == JsonModel::Object(member_models(fields@)),
                        i <= fields.len(),
                        lookup_member(member_models(fields@), key@) == lookup_member(
                            member_models(fields@.skip(i as int)),
                            key@,
                        ),
                    decreases fields.len() - i,
                {
                    let ghost rest = fields@.skip(i as int);
                    assert(rest.drop_first() =~= fields@.skip(i + 1));
                    assert(rest[0] == fields@[i as int]);
                    assert(member_models(rest) == seq![(rest[0].0@, json_model(rest[0].1))]
                        + member_models(rest.drop_first()));
                    assert(member_models(rest).drop_first() =~= member_models(rest.drop_first()));
                    if str_equal(fields[i].0.as_str(), key) {
                        return Some(&fields[i].1);
                    }
                    i = i + 1;
                }
                assert(fields@.skip(i as int).len() == 0);
                None
            },
            _ => None,
        }
    }

    /// The value of a boolean.
    pub fn as_bool(&self) -> (r: Option<bool>)
        ensures
            r == match self@ {
                JsonModel::Bool(b) => Some(b),
                _ => None::<bool>,
            },
    {
        match self {
            Json::Bool(b) => Some(*b),
            _ => None,
        }
    }

    /// The text of a string value.
    pub fn as_str(&self) -> (r: Option<&str>)
        ensures
            match r {
                Some(s) => self@ == JsonModel::String(s@),
                None => !(self@ is String),
            },
    {
        match self {
            Json::String(s) => Some(s.as_str()),
            _ => None,
        }
    }
}

} // verus!
