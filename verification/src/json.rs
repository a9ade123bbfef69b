//! A generic JSON tree, the exchange format between the outside decoder and
//! the verified logic.
//!
//! Objects keep their entries in insertion order as key/value pairs, and a
//! lookup takes the first entry with the key, so the canonical envelopes
//! built by the emitter have a fixed entry order.
//! Numbers are integers: nothing in the dump or in the emitted call format
//! carries a fraction.

use vstd::prelude::*;
use crate::strutil::str_eq;

verus! {

/// Ghost model of [`Json`].
pub ghost enum JsonModel {
    Null,
    Bool(bool),
    Int(i64),
    Str(Seq<char>),
    Arr(Seq<JsonModel>),
    Obj(Seq<(Seq<char>, JsonModel)>),
}

/// One JSON value.
#[derive(Debug, PartialEq, Eq)]
pub enum Json {
    Null,
    Bool(bool),
    Int(i64),
    Str(String),
    Arr(Vec<Json>),
    Obj(Vec<(String, Json)>),
}

/// The model of one JSON value.
pub open spec fn json_model(j: Json) -> JsonModel
    decreases j,
{
    match j {
        Json::Null => JsonModel::Null,
        Json::Bool(b) => JsonModel::Bool(b),
        Json::Int(n) => JsonModel::Int(n),
        Json::Str(s) => JsonModel::Str(s@),
        Json::Arr(v) => JsonModel::Arr(json_arr_model(v@)),
        Json::Obj(v) => JsonModel::Obj(json_obj_model(v@)),
    }
}

/// The models of the elements of an array, in order.
pub open spec fn json_arr_model(s: Seq<Json>) -> Seq<JsonModel>
    decreases s,
{
    if s.len() == 0 {
        Seq::empty()
    } else {
        seq![json_model(s[0])] + json_arr_model(s.drop_first())
    }
}

/// The models of the entries of an object, in order.
pub open spec fn json_obj_model(s: Seq<(String, Json)>) -> Seq<(Seq<char>, JsonModel)>
    decreases s,
{
    if s.len() == 0 {
        Seq::empty()
    } else {
        seq![(s[0].0@, json_model(s[0].1))] + json_obj_model(s.drop_first())
    }
}

impl DeepView for Json {
    type V = JsonModel;

    open spec fn deep_view(&self) -> JsonModel {
        json_model(*self)
    }
}

/// Indexing into the model of an array is the model of the element.
pub proof fn lemma_arr_model_index(s: Seq<Json>)
    ensures
        json_arr_model(s).len() == s.len(),
        forall|i: int| 0 <= i < s.len() ==> json_arr_model(s)[i] == json_model(s[i]),
    decreases s,
{
    if s.len() > 0 {
        lemma_arr_model_index(s.drop_first());
        assert forall|i: int| 0 <= i < s.len() implies json_arr_model(s)[i] == json_model(
            s[i],
        ) by {
            if i > 0 {
                assert(json_arr_model(s)[i] == json_arr_model(s.drop_first())[i - 1]);
                assert(s.drop_first()[i - 1] == s[i]);
            }
        }
    }
}

/// Indexing into the model of an object is the model of the entry.
pub proof fn lemma_obj_model_index(s: Seq<(String, Json)>)
    ensures
        json_obj_model(s).len() == s.len(),
        forall|i: int|
            0 <= i < s.len() ==> json_obj_model(s)[i] == (s[i].0@, json_model(s[i].1)),
    decreases s,
{
    if s.len() > 0 {
        lemma_obj_model_index(s.drop_first());
        assert forall|i: int| 0 <= i < s.len() implies json_obj_model(s)[i] == (
            s[i].0@,
            json_model(s[i].1),
        ) by {
            if i > 0 {
                assert(json_obj_model(s)[i] == json_obj_model(s.drop_first())[i - 1]);
                assert(s.drop_first()[i - 1] == s[i]);
            }
        }
    }
}

/// The value under `key` among `entries`: the first match, if any.
pub open spec fn obj_lookup(entries: Seq<(Seq<char>, JsonModel)>, key: Seq<char>) -> Option<
    JsonModel,
>
    decreases entries.len(),
{
    if entries.len() == 0 {
        None
    } else if entries[0].0 == key {
        Some(entries[0].1)
    } else {
        obj_lookup(entries.skip(1), key)
    }
}

/// Whether some entry has `key`.
pub open spec fn obj_has_key(entries: Seq<(Seq<char>, JsonModel)>, key: Seq<char>) -> bool {
    obj_lookup(entries, key) is Some
}

/// The value under `key` in object `o`, reading an entry list.
pub fn obj_get<'a>(entries: &'a Vec<(String, Json)>, key: &str) -> (r: Option<&'a Json>)
    ensures
        match r {
            Some(v) => obj_lookup(entries.deep_view(), key@) == Some(v.deep_view()),
            None => obj_lookup(entries.deep_view(), key@) is None,
        },
{
    let ghost m = entries.deep_view();
    proof {
        assert(m.skip(0) =~= m);
    }
    let mut i: usize = 0;
    while i < entries.len()
        invariant
            i <= entries.len(),
            m == entries.deep_view(),
            m.len() == entries.len(),
            forall|k: int| 0 <= k < m.len() ==> m[k] == (entries@[k].0@, entries@[k].1.deep_view()),
            obj_lookup(m, key@) == obj_lookup(m.skip(i as int), key@),
        decreases entries.len() - i,
    {
        proof {
            assert(m.skip(i as int)[0] == m[i as int]);
            assert(m.skip(i as int).skip(1) =~= m.skip(i as int + 1));
        }
        if str_eq(entries[i].0.as_str(), key) {
            return Some(&entries[i].1);
        }
        i = i + 1;
    }
    proof {
        assert(m.skip(i as int) =~= Seq::<(Seq<char>, JsonModel)>::empty());
    }
    None
}

/// Where `j` is the first index with `key`, the lookup yields its value.
pub proof fn lemma_obj_lookup_at(s: Seq<(Seq<char>, JsonModel)>, key: Seq<char>, j: int)
    requires
        0 <= j < s.len(),
        s[j].0 == key,
        forall|k: int| 0 <= k < j ==> s[k].0 != key,
    ensures
        obj_lookup(s, key) == Some(s[j].1),
    decreases j,
{
    if j == 0 {
    } else {
        assert(s[0].0 != key);
        assert(forall|k: int| 0 <= k < s.skip(1).len() ==> s.skip(1)[k] == s[k + 1]);
        lemma_obj_lookup_at(s.skip(1), key, j - 1);
    }
}

/// Where no entry has `key`, the lookup yields nothing.
pub proof fn lemma_obj_lookup_none(s: Seq<(Seq<char>, JsonModel)>, key: Seq<char>)
    requires
        forall|k: int| 0 <= k < s.len() ==> s[k].0 != key,
    ensures
        obj_lookup(s, key) is None,
    decreases s.len(),
{
    if s.len() > 0 {
        assert(forall|k: int| 0 <= k < s.skip(1).len() ==> s.skip(1)[k] == s[k + 1]);
        lemma_obj_lookup_none(s.skip(1), key);
    }
}


/// The deep view of an entry list is its object model.
pub proof fn lemma_obj_deep(v: Vec<(String, Json)>)
    ensures
        v.deep_view() == json_obj_model(v@),
{
    lemma_obj_model_index(v@);
    assert(v.deep_view() =~= json_obj_model(v@));
}

/// The deep view of an element list is its array model.
pub proof fn lemma_arr_deep(v: Vec<Json>)
    ensures
        v.deep_view() == json_arr_model(v@),
{
    lemma_arr_model_index(v@);
    assert(v.deep_view() =~= json_arr_model(v@));
}

} // verus!
