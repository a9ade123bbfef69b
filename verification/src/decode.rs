//! The decoder from the generic JSON tree into the schema model, with
//! typed failure on shape mismatch.
//!
//! The wire format's unions are discriminated by shape: an icon object
//! with an `arguments` entry is the argument-carrying icon, any other is
//! the event icon; an argument or return token with a `text` entry is a
//! literal, any other is typed.  `returnValues` and `subActionBlocks` may
//! be absent and default to empty; every other field is required.  The
//! top-level document must be an object with an `actions` array, and every
//! element must match the schema — except elements named `dynamic`, which
//! are skipped unread.

use vstd::prelude::*;
use crate::json::{Json, JsonModel, obj_lookup, obj_get, lemma_obj_deep, lemma_arr_deep};
use crate::strutil::str_eq;

verus! {

/// Ghost model of [`FieldError`].
pub ghost struct FieldErrorModel {
    pub field: Seq<char>,
}

/// A required field that is missing or has the wrong shape.
#[derive(Debug, PartialEq, Eq)]
pub struct FieldError {
    pub field: String,
}

impl DeepView for FieldError {
    type V = FieldErrorModel;

    open spec fn deep_view(&self) -> FieldErrorModel {
        FieldErrorModel { field: self.field@ }
    }
}

/// Whether `key` holds a string.
pub open spec fn is_str_at(o: Seq<(Seq<char>, JsonModel)>, key: Seq<char>) -> bool {
    match obj_lookup(o, key) {
        Some(JsonModel::Str(s)) => true,
        _ => false,
    }
}

/// The string under `key`.
pub open spec fn str_at(o: Seq<(Seq<char>, JsonModel)>, key: Seq<char>) -> Seq<char> {
    match obj_lookup(o, key) {
        Some(JsonModel::Str(s)) => s,
        _ => Seq::empty(),
    }
}

/// Whether `key` holds a boolean.
pub open spec fn is_bool_at(o: Seq<(Seq<char>, JsonModel)>, key: Seq<char>) -> bool {
    match obj_lookup(o, key) {
        Some(JsonModel::Bool(b)) => true,
        _ => false,
    }
}

/// The boolean under `key`.
pub open spec fn bool_at(o: Seq<(Seq<char>, JsonModel)>, key: Seq<char>) -> bool {
    match obj_lookup(o, key) {
        Some(JsonModel::Bool(b)) => b,
        _ => false,
    }
}

/// Whether `key` holds an integer that fits a `usize`.
pub open spec fn is_usize_at(o: Seq<(Seq<char>, JsonModel)>, key: Seq<char>) -> bool {
    match obj_lookup(o, key) {
        Some(JsonModel::Int(n)) => 0 <= n && n <= usize::MAX,
        _ => false,
    }
}

/// The integer under `key`.
pub open spec fn usize_at(o: Seq<(Seq<char>, JsonModel)>, key: Seq<char>) -> usize {
    match obj_lookup(o, key) {
        Some(JsonModel::Int(n)) => n as usize,
        _ => 0,
    }
}

/// Whether `key` holds an array.
pub open spec fn is_arr_at(o: Seq<(Seq<char>, JsonModel)>, key: Seq<char>) -> bool {
    match obj_lookup(o, key) {
        Some(JsonModel::Arr(s)) => true,
        _ => false,
    }
}

/// The array under `key`.
pub open spec fn arr_at(o: Seq<(Seq<char>, JsonModel)>, key: Seq<char>) -> Seq<JsonModel> {
    match obj_lookup(o, key) {
        Some(JsonModel::Arr(s)) => s,
        _ => Seq::empty(),
    }
}

/// Whether every element is a string.
pub open spec fn is_str_arr(s: Seq<JsonModel>) -> bool {
    forall|i: int| 0 <= i < s.len() ==> (#[trigger] s[i]) matches JsonModel::Str(t)
}

/// The strings of a string array.
pub open spec fn str_arr_of(s: Seq<JsonModel>) -> Seq<Seq<char>> {
    s.map_values(
        |e: JsonModel|
            match e {
                JsonModel::Str(t) => t,
                _ => Seq::<char>::empty(),
            },
    )
}

/// Whether `key` holds an array of strings.
pub open spec fn is_str_arr_at(o: Seq<(Seq<char>, JsonModel)>, key: Seq<char>) -> bool {
    is_arr_at(o, key) && is_str_arr(arr_at(o, key))
}

/// The strings under `key`.
pub open spec fn str_arr_at(o: Seq<(Seq<char>, JsonModel)>, key: Seq<char>) -> Seq<Seq<char>> {
    str_arr_of(arr_at(o, key))
}

/// Whether every element is an array of strings.
pub open spec fn is_str_arr_arr(s: Seq<JsonModel>) -> bool {
    forall|i: int|
        0 <= i < s.len() ==> ((#[trigger] s[i]) matches JsonModel::Arr(inner) && is_str_arr(inner))
}

/// The string lists of an array of string arrays.
pub open spec fn str_arr_arr_of(s: Seq<JsonModel>) -> Seq<Seq<Seq<char>>> {
    s.map_values(
        |e: JsonModel|
            match e {
                JsonModel::Arr(inner) => str_arr_of(inner),
                _ => Seq::<Seq<char>>::empty(),
            },
    )
}

/// Whether `key` holds an array of string arrays.
pub open spec fn is_str_arr_arr_at(o: Seq<(Seq<char>, JsonModel)>, key: Seq<char>) -> bool {
    is_arr_at(o, key) && is_str_arr_arr(arr_at(o, key))
}

/// The string lists under `key`.
pub open spec fn str_arr_arr_at(o: Seq<(Seq<char>, JsonModel)>, key: Seq<char>) -> Seq<
    Seq<Seq<char>>,
> {
    str_arr_arr_of(arr_at(o, key))
}

fn field_err(key: &str) -> (r: FieldError)
    ensures
        r.field@ == key@,
{
    FieldError { field: String::from_str(key) }
}

/// The string under `key`, or the field as the error.
fn get_str(entries: &Vec<(String, Json)>, key: &str) -> (r: Result<String, FieldError>)
    ensures
        match r {
            Ok(s) => is_str_at(entries.deep_view(), key@) && s@ == str_at(
                entries.deep_view(),
                key@,
            ),
            Err(e) => !is_str_at(entries.deep_view(), key@) && e.field@ == key@,
        },
{
    match obj_get(entries, key) {
        Some(Json::Str(s)) => Ok(s.clone()),
        _ => Err(field_err(key)),
    }
}

/// The boolean under `key`, or the field as the error.
fn get_bool(entries: &Vec<(String, Json)>, key: &str) -> (r: Result<bool, FieldError>)
    ensures
        match r {
            Ok(b) => is_bool_at(entries.deep_view(), key@) && b == bool_at(
                entries.deep_view(),
                key@,
            ),
            Err(e) => !is_bool_at(entries.deep_view(), key@) && e.field@ == key@,
        },
{
    match obj_get(entries, key) {
        Some(Json::Bool(b)) => Ok(*b),
        _ => Err(field_err(key)),
    }
}

/// The `usize` under `key`, or the field as the error.
fn get_usize(entries: &Vec<(String, Json)>, key: &str) -> (r: Result<usize, FieldError>)
    ensures
        match r {
            Ok(n) => is_usize_at(entries.deep_view(), key@) && n == usize_at(
                entries.deep_view(),
                key@,
            ),
            Err(e) => !is_usize_at(entries.deep_view(), key@) && e.field@ == key@,
        },
{
    match obj_get(entries, key) {
        Some(Json::Int(n)) => {
            let n = *n;
            if n >= 0 && (n as u64) <= (usize::MAX as u64) {
                Ok(n as usize)
            } else {
                Err(field_err(key))
            }
        },
        _ => Err(field_err(key)),
    }
}

/// The string array under `key`, or the field as the error.
fn get_str_arr(entries: &Vec<(String, Json)>, key: &str) -> (r: Result<Vec<String>, FieldError>)
    ensures
        match r {
            Ok(v) => is_str_arr_at(entries.deep_view(), key@) && v.deep_view() == str_arr_at(
                entries.deep_view(),
                key@,
            ),
            Err(e) => !is_str_arr_at(entries.deep_view(), key@) && e.field@ == key@,
        },
{
    match obj_get(entries, key) {
        Some(j) => match j {
            Json::Arr(items) => {
                proof {
                    lemma_arr_deep(*items);
                    assert(j.deep_view() == JsonModel::Arr(crate::json::json_arr_model(items@)));
                    assert(arr_at(entries.deep_view(), key@) == items.deep_view());
                }
                match str_vec_of(items) {
                    Some(v) => Ok(v),
                    None => Err(field_err(key)),
                }
            },
            _ => Err(field_err(key)),
        },
        None => Err(field_err(key)),
    }
}

/// The strings of an all-string array, or nothing.
fn str_vec_of(items: &Vec<Json>) -> (r: Option<Vec<String>>)
    ensures
        match r {
            Some(v) => is_str_arr(items.deep_view()) && v.deep_view() == str_arr_of(
                items.deep_view(),
            ),
            None => !is_str_arr(items.deep_view()),
        },
{
    let ghost m = items.deep_view();
    let mut v: Vec<String> = Vec::new();
    let mut i: usize = 0;
    while i < items.len()
        invariant
            i <= items.len(),
            m == items.deep_view(),
            m.len() == items.len(),
            forall|k: int| 0 <= k < m.len() ==> m[k] == items@[k].deep_view(),
            v.deep_view() =~= str_arr_of(m.subrange(0, i as int)),
            forall|k: int| 0 <= k < i ==> (#[trigger] m[k]) matches JsonModel::Str(t),
        decreases items.len() - i,
    {
        match &items[i] {
            Json::Str(s) => {
                let ghost prev = v.deep_view();
                v.push(s.clone());
                proof {
                    assert(v.deep_view() =~= prev.push(s@));
                    assert(str_arr_of(m.subrange(0, i as int + 1)) =~= str_arr_of(
                        m.subrange(0, i as int),
                    ).push(s@));
                }
            },
            _ => {
                proof {
                    if is_str_arr(m) {
                        assert((m[i as int] matches JsonModel::Str(t)));
                        assert(false);
                    }
                }
                return None;
            },
        }
        i = i + 1;
    }
    proof {
        assert(m.subrange(0, m.len() as int) =~= m);
    }
    Some(v)
}

/// The array of string arrays under `key`, or the field as the error.
fn get_str_arr_arr(entries: &Vec<(String, Json)>, key: &str) -> (r: Result<
    Vec<Vec<String>>,
    FieldError,
>)
    ensures
        match r {
            Ok(v) => is_str_arr_arr_at(entries.deep_view(), key@) && v.deep_view()
                == str_arr_arr_at(entries.deep_view(), key@),
            Err(e) => !is_str_arr_arr_at(entries.deep_view(), key@) && e.field@ == key@,
        },
{
    match obj_get(entries, key) {
        Some(j) => match j {
            Json::Arr(items) => {
            proof {
                lemma_arr_deep(*items);
                assert(j.deep_view() == JsonModel::Arr(crate::json::json_arr_model(items@)));
                assert(arr_at(entries.deep_view(), key@) == items.deep_view());
            }
            let ghost m = items.deep_view();
            let mut v: Vec<Vec<String>> = Vec::new();
            let mut i: usize = 0;
            while i < items.len()
                invariant
                    i <= items.len(),
                    m == items.deep_view(),
                    m.len() == items.len(),
                    is_arr_at(entries.deep_view(), key@),
                    arr_at(entries.deep_view(), key@) == m,
                    forall|k: int| 0 <= k < m.len() ==> m[k] == items@[k].deep_view(),
                    v.deep_view() =~= str_arr_arr_of(m.subrange(0, i as int)),
                    forall|k: int|
                        0 <= k < i ==> ((#[trigger] m[k]) matches JsonModel::Arr(inner)
                            && is_str_arr(inner)),
                decreases items.len() - i,
            {
                match &items[i] {
                    Json::Arr(inner) => {
                        proof {
                            lemma_arr_deep(*inner);
                        }
                        match str_vec_of(inner) {
                            Some(strs) => {
                                let ghost prev = v.deep_view();
                                let ghost sm = strs.deep_view();
                                v.push(strs);
                                proof {
                                    assert(v.deep_view() =~= prev.push(sm));
                                    assert(str_arr_arr_of(m.subrange(0, i as int + 1))
                                        =~= str_arr_arr_of(m.subrange(0, i as int)).push(sm));
                                }
                            },
                            None => {
                                proof {
                                    assert(m[i as int] == JsonModel::Arr(
                                        crate::json::json_arr_model(inner@),
                                    ));
                                    if is_str_arr_arr(m) {
                                        assert((m[i as int] matches JsonModel::Arr(inner2)
                                            && is_str_arr(inner2)));
                                        assert(false);
                                    }
                                    assert(!is_str_arr_arr_at(entries.deep_view(), key@));
                                }
                                return Err(field_err(key));
                            },
                        }
                    },
                    _ => {
                        proof {
                            if is_str_arr_arr(m) {
                                assert((m[i as int] matches JsonModel::Arr(inner2) && is_str_arr(
                                    inner2,
                                )));
                                assert(false);
                            }
                        }
                        return Err(field_err(key));
                    },
                }
                i = i + 1;
            }
            proof {
                assert(m.subrange(0, m.len() as int) =~= m);
            }
            Ok(v)
            },
            _ => Err(field_err(key)),
        },
        None => Err(field_err(key)),
    }
}


/// Whether `key` holds an object.
pub open spec fn is_obj_at(o: Seq<(Seq<char>, JsonModel)>, key: Seq<char>) -> bool {
    match obj_lookup(o, key) {
        Some(JsonModel::Obj(e)) => true,
        _ => false,
    }
}

/// The object entries under `key`.
pub open spec fn obj_at(o: Seq<(Seq<char>, JsonModel)>, key: Seq<char>) -> Seq<
    (Seq<char>, JsonModel),
> {
    match obj_lookup(o, key) {
        Some(JsonModel::Obj(e)) => e,
        _ => Seq::empty(),
    }
}

/// The object under `key`, or the field as the error.
fn get_obj<'a>(entries: &'a Vec<(String, Json)>, key: &str) -> (r: Result<
    &'a Vec<(String, Json)>,
    FieldError,
>)
    ensures
        match r {
            Ok(v) => is_obj_at(entries.deep_view(), key@) && obj_at(entries.deep_view(), key@)
                == v.deep_view(),
            Err(e) => !is_obj_at(entries.deep_view(), key@) && e.field@ == key@,
        },
{
    match obj_get(entries, key) {
        Some(j) => match j {
            Json::Obj(inner) => {
                proof {
                    lemma_obj_deep(*inner);
                    assert(j.deep_view() == JsonModel::Obj(crate::json::json_obj_model(inner@)));
                }
                Ok(inner)
            },
            _ => Err(field_err(key)),
        },
        None => Err(field_err(key)),
    }
}

/// The array elements under `key`, or the field as the error.
fn get_arr<'a>(entries: &'a Vec<(String, Json)>, key: &str) -> (r: Result<
    &'a Vec<Json>,
    FieldError,
>)
    ensures
        match r {
            Ok(v) => is_arr_at(entries.deep_view(), key@) && arr_at(entries.deep_view(), key@)
                == v.deep_view(),
            Err(e) => !is_arr_at(entries.deep_view(), key@) && e.field@ == key@,
        },
{
    match obj_get(entries, key) {
        Some(j) => match j {
            Json::Arr(inner) => {
                proof {
                    lemma_arr_deep(*inner);
                    assert(j.deep_view() == JsonModel::Arr(crate::json::json_arr_model(inner@)));
                }
                Ok(inner)
            },
            _ => Err(field_err(key)),
        },
        None => Err(field_err(key)),
    }
}

/// Whether the object has an entry under `key`.
fn obj_has(entries: &Vec<(String, Json)>, key: &str) -> (r: bool)
    ensures
        r == crate::json::obj_has_key(entries.deep_view(), key@),
{
    match obj_get(entries, key) {
        Some(j) => true,
        None => false,
    }
}

/// Well-formedness of a tag option icon object.
pub open spec fn tag_icon_wf(o: Seq<(Seq<char>, JsonModel)>) -> bool {
    &&& is_str_at(o, "material"@)
    &&& is_str_at(o, "name"@)
    &&& is_str_arr_at(o, "deprecatedNote"@)
    &&& is_str_arr_at(o, "description"@)
    &&& is_str_arr_at(o, "example"@)
    &&& is_str_arr_at(o, "worksWith"@)
    &&& is_str_arr_arr_at(o, "additionalInfo"@)
    &&& is_str_at(o, "requiredRank"@)
    &&& is_bool_at(o, "requireTokens"@)
    &&& is_bool_at(o, "requireRankAndTokens"@)
    &&& is_bool_at(o, "advanced"@)
    &&& is_str_at(o, "loadedItem"@)
}

/// The tag option icon a well-formed object decodes to.
pub open spec fn tag_icon_of(o: Seq<(Seq<char>, JsonModel)>) -> crate::raw_types::ActionTagIconModel {
    crate::raw_types::ActionTagIconModel {
        material: str_at(o, "material"@),
        name: str_at(o, "name"@),
        deprecated_note: str_arr_at(o, "deprecatedNote"@),
        description: str_arr_at(o, "description"@),
        example: str_arr_at(o, "example"@),
        works_with: str_arr_at(o, "worksWith"@),
        additional_info: str_arr_arr_at(o, "additionalInfo"@),
        required_rank: str_at(o, "requiredRank"@),
        require_tokens: bool_at(o, "requireTokens"@),
        require_rank_and_tokens: bool_at(o, "requireRankAndTokens"@),
        advanced: bool_at(o, "advanced"@),
        loaded_item: str_at(o, "loadedItem"@),
    }
}

/// Decodes a tag option icon object.
pub fn decode_tag_icon(entries: &Vec<(String, Json)>) -> (r: Result<
    crate::raw_types::ActionTagIcon,
    FieldError,
>)
    ensures
        match r {
            Ok(x) => tag_icon_wf(entries.deep_view()) && x.deep_view() == tag_icon_of(
                entries.deep_view(),
            ),
            Err(e) => !tag_icon_wf(entries.deep_view()),
        },
{
    let material = match get_str(entries, "material") {
        Ok(x) => x,
        Err(e) => {
            return Err(e);
        },
    };
    let name = match get_str(entries, "name") {
        Ok(x) => x,
        Err(e) => {
            return Err(e);
        },
    };
    let deprecated_note = match get_str_arr(entries, "deprecatedNote") {
        Ok(x) => x,
        Err(e) => {
            return Err(e);
        },
    };
    let description = match get_str_arr(entries, "description") {
        Ok(x) => x,
        Err(e) => {
            return Err(e);
        },
    };
    let example = match get_str_arr(entries, "example") {
        Ok(x) => x,
        Err(e) => {
            return Err(e);
        },
    };
    let works_with = match get_str_arr(entries, "worksWith") {
        Ok(x) => x,
        Err(e) => {
            return Err(e);
        },
    };
    let additional_info = match get_str_arr_arr(entries, "additionalInfo") {
        Ok(x) => x,
        Err(e) => {
            return Err(e);
        },
    };
    let required_rank = match get_str(entries, "requiredRank") {
        Ok(x) => x,
        Err(e) => {
            return Err(e);
        },
    };
    let require_tokens = match get_bool(entries, "requireTokens") {
        Ok(x) => x,
        Err(e) => {
            return Err(e);
        },
    };
    let require_rank_and_tokens = match get_bool(entries, "requireRankAndTokens") {
        Ok(x) => x,
        Err(e) => {
            return Err(e);
        },
    };
    let advanced = match get_bool(entries, "advanced") {
        Ok(x) => x,
        Err(e) => {
            return Err(e);
        },
    };
    let loaded_item = match get_str(entries, "loadedItem") {
        Ok(x) => x,
        Err(e) => {
            return Err(e);
        },
    };
    Ok(
        crate::raw_types::ActionTagIcon {
            material,
            name,
            deprecated_note,
            description,
            example,
            works_with,
            additional_info,
            required_rank,
            require_tokens,
            require_rank_and_tokens,
            advanced,
            loaded_item,
        },
    )
}

/// Well-formedness of a tag option object.
pub open spec fn tag_option_wf(o: Seq<(Seq<char>, JsonModel)>) -> bool {
    &&& is_str_at(o, "name"@)
    &&& is_obj_at(o, "icon"@)
    &&& tag_icon_wf(obj_at(o, "icon"@))
    &&& is_str_arr_at(o, "aliases"@)
}

/// The tag option a well-formed object decodes to.
pub open spec fn tag_option_of(o: Seq<(Seq<char>, JsonModel)>) -> crate::raw_types::ActionTagOptionModel {
    crate::raw_types::ActionTagOptionModel {
        name: str_at(o, "name"@),
        icon: tag_icon_of(obj_at(o, "icon"@)),
        aliases: str_arr_at(o, "aliases"@),
    }
}

/// Decodes a tag option object.
pub fn decode_tag_option(entries: &Vec<(String, Json)>) -> (r: Result<
    crate::raw_types::ActionTagOption,
    FieldError,
>)
    ensures
        match r {
            Ok(x) => tag_option_wf(entries.deep_view()) && x.deep_view() == tag_option_of(
                entries.deep_view(),
            ),
            Err(e) => !tag_option_wf(entries.deep_view()),
        },
{
    let name = match get_str(entries, "name") {
        Ok(x) => x,
        Err(e) => {
            return Err(e);
        },
    };
    let icon_entries = match get_obj(entries, "icon") {
        Ok(x) => x,
        Err(e) => {
            return Err(e);
        },
    };
    let icon = match decode_tag_icon(icon_entries) {
        Ok(x) => x,
        Err(e) => {
            return Err(e);
        },
    };
    let aliases = match get_str_arr(entries, "aliases") {
        Ok(x) => x,
        Err(e) => {
            return Err(e);
        },
    };
    Ok(crate::raw_types::ActionTagOption { name, icon, aliases })
}


/// Well-formedness of an options array: every element an object holding a
/// well-formed tag option.
pub open spec fn tag_options_wf(s: Seq<JsonModel>) -> bool {
    forall|i: int|
        0 <= i < s.len() ==> ((#[trigger] s[i]) matches JsonModel::Obj(o) && tag_option_wf(o))
}

/// The tag options of a well-formed options array.
pub open spec fn tag_options_of(s: Seq<JsonModel>) -> Seq<crate::raw_types::ActionTagOptionModel> {
    s.map_values(
        |e: JsonModel|
            match e {
                JsonModel::Obj(o) => tag_option_of(o),
                _ => tag_option_of(Seq::empty()),
            },
    )
}

/// Decodes an options array.
pub fn decode_tag_options(items: &Vec<Json>) -> (r: Result<
    Vec<crate::raw_types::ActionTagOption>,
    FieldError,
>)
    ensures
        match r {
            Ok(v) => tag_options_wf(items.deep_view()) && v.deep_view() == tag_options_of(
                items.deep_view(),
            ),
            Err(e) => !tag_options_wf(items.deep_view()),
        },
{
    let ghost m = items.deep_view();
    proof {
        lemma_arr_deep(*items);
    }
    let mut v: Vec<crate::raw_types::ActionTagOption> = Vec::new();
    let mut i: usize = 0;
    while i < items.len()
        invariant
            i <= items.len(),
            m == items.deep_view(),
            m.len() == items.len(),
            forall|k: int| 0 <= k < m.len() ==> m[k] == items@[k].deep_view(),
            v.deep_view() =~= tag_options_of(m.subrange(0, i as int)),
            forall|k: int|
                0 <= k < i ==> ((#[trigger] m[k]) matches JsonModel::Obj(o) && tag_option_wf(o)),
        decreases items.len() - i,
    {
        match &items[i] {
            Json::Obj(o) => {
                proof {
                    lemma_obj_deep(*o);
                    assert(m[i as int] == JsonModel::Obj(o.deep_view()));
                }
                match decode_tag_option(o) {
                    Ok(x) => {
                        let ghost prev = v.deep_view();
                        let ghost xm = x.deep_view();
                        v.push(x);
                        proof {
                            assert(v.deep_view() =~= prev.push(xm));
                            assert(tag_options_of(m.subrange(0, i as int + 1)) =~= tag_options_of(
                                m.subrange(0, i as int),
                            ).push(xm));
                        }
                    },
                    Err(e) => {
                        proof {
                            if tag_options_wf(m) {
                                assert((m[i as int] matches JsonModel::Obj(o2) && tag_option_wf(
                                    o2,
                                )));
                                assert(false);
                            }
                        }
                        return Err(e);
                    },
                }
            },
            _ => {
                proof {
                    if tag_options_wf(m) {
                        assert((m[i as int] matches JsonModel::Obj(o2) && tag_option_wf(o2)));
                        assert(false);
                    }
                }
                return Err(field_err("options"));
            },
        }
        i = i + 1;
    }
    proof {
        assert(m.subrange(0, m.len() as int) =~= m);
    }
    Ok(v)
}

/// Well-formedness of one tag object.
pub open spec fn tag_wf(o: Seq<(Seq<char>, JsonModel)>) -> bool {
    &&& is_str_at(o, "name"@)
    &&& is_arr_at(o, "options"@)
    &&& tag_options_wf(arr_at(o, "options"@))
    &&& is_str_at(o, "defaultOption"@)
    &&& is_usize_at(o, "slot"@)
}

/// The tag a well-formed object decodes to.
pub open spec fn tag_of(o: Seq<(Seq<char>, JsonModel)>) -> crate::raw_types::ActionTagsModel {
    crate::raw_types::ActionTagsModel {
        name: str_at(o, "name"@),
        options: tag_options_of(arr_at(o, "options"@)),
        default_option: str_at(o, "defaultOption"@),
        slot: usize_at(o, "slot"@),
    }
}

/// Decodes one tag object.
pub fn decode_tag(entries: &Vec<(String, Json)>) -> (r: Result<
    crate::raw_types::ActionTags,
    FieldError,
>)
    ensures
        match r {
            Ok(x) => tag_wf(entries.deep_view()) && x.deep_view() == tag_of(entries.deep_view()),
            Err(e) => !tag_wf(entries.deep_view()),
        },
{
    let name = match get_str(entries, "name") {
        Ok(x) => x,
        Err(e) => {
            return Err(e);
        },
    };
    let option_items = match get_arr(entries, "options") {
        Ok(x) => x,
        Err(e) => {
            return Err(e);
        },
    };
    let options = match decode_tag_options(option_items) {
        Ok(x) => x,
        Err(e) => {
            return Err(e);
        },
    };
    let default_option = match get_str(entries, "defaultOption") {
        Ok(x) => x,
        Err(e) => {
            return Err(e);
        },
    };
    let slot = match get_usize(entries, "slot") {
        Ok(x) => x,
        Err(e) => {
            return Err(e);
        },
    };
    Ok(crate::raw_types::ActionTags { name, options, default_option, slot })
}

/// Well-formedness of a tags array.
pub open spec fn tags_wf(s: Seq<JsonModel>) -> bool {
    forall|i: int|
        0 <= i < s.len() ==> ((#[trigger] s[i]) matches JsonModel::Obj(o) && tag_wf(o))
}

/// The tags of a well-formed tags array.
pub open spec fn tags_of(s: Seq<JsonModel>) -> Seq<crate::raw_types::ActionTagsModel> {
    s.map_values(
        |e: JsonModel|
            match e {
                JsonModel::Obj(o) => tag_of(o),
                _ => tag_of(Seq::empty()),
            },
    )
}

/// Decodes a tags array.
pub fn decode_tags(items: &Vec<Json>) -> (r: Result<Vec<crate::raw_types::ActionTags>, FieldError>)
    ensures
        match r {
            Ok(v) => tags_wf(items.deep_view()) && v.deep_view() == tags_of(items.deep_view()),
            Err(e) => !tags_wf(items.deep_view()),
        },
{
    let ghost m = items.deep_view();
    proof {
        lemma_arr_deep(*items);
    }
    let mut v: Vec<crate::raw_types::ActionTags> = Vec::new();
    let mut i: usize = 0;
    while i < items.len()
        invariant
            i <= items.len(),
            m == items.deep_view(),
            m.len() == items.len(),
            forall|k: int| 0 <= k < m.len() ==> m[k] == items@[k].deep_view(),
            v.deep_view() =~= tags_of(m.subrange(0, i as int)),
            forall|k: int|
                0 <= k < i ==> ((#[trigger] m[k]) matches JsonModel::Obj(o) && tag_wf(o)),
        decreases items.len() - i,
    {
        match &items[i] {
            Json::Obj(o) => {
                proof {
                    lemma_obj_deep(*o);
                    assert(m[i as int] == JsonModel::Obj(o.deep_view()));
                }
                match decode_tag(o) {
                    Ok(x) => {
                        let ghost prev = v.deep_view();
                        let ghost xm = x.deep_view();
                        v.push(x);
                        proof {
                            assert(v.deep_view() =~= prev.push(xm));
                            assert(tags_of(m.subrange(0, i as int + 1)) =~= tags_of(
                                m.subrange(0, i as int),
                            ).push(xm));
                        }
                    },
                    Err(e) => {
                        proof {
                            if tags_wf(m) {
                                assert((m[i as int] matches JsonModel::Obj(o2) && tag_wf(o2)));
                                assert(false);
                            }
                        }
                        return Err(e);
                    },
                }
            },
            _ => {
                proof {
                    if tags_wf(m) {
                        assert((m[i as int] matches JsonModel::Obj(o2) && tag_wf(o2)));
                        assert(false);
                    }
                }
                return Err(field_err("tags"));
            },
        }
        i = i + 1;
    }
    proof {
        assert(m.subrange(0, m.len() as int) =~= m);
    }
    Ok(v)
}


/// Well-formedness of one typed argument token object.
pub open spec fn arg_wf(o: Seq<(Seq<char>, JsonModel)>) -> bool {
    &&& is_str_at(o, "type"@)
    &&& is_bool_at(o, "plural"@)
    &&& is_bool_at(o, "optional"@)
    &&& is_str_arr_at(o, "description"@)
    &&& is_str_arr_arr_at(o, "notes"@)
}

/// The typed token a well-formed object decodes to.
pub open spec fn arg_of(o: Seq<(Seq<char>, JsonModel)>) -> crate::raw_types::ActionArgModel {
    crate::raw_types::ActionArgModel {
        arg_type: str_at(o, "type"@),
        plural: bool_at(o, "plural"@),
        optional: bool_at(o, "optional"@),
        description: str_arr_at(o, "description"@),
        notes: str_arr_arr_at(o, "notes"@),
    }
}

/// Well-formedness of one argument token object: a `text` entry makes it a
/// literal, any other shape must be a typed token.
pub open spec fn arg_token_wf(o: Seq<(Seq<char>, JsonModel)>) -> bool {
    if crate::json::obj_has_key(o, "text"@) {
        is_str_at(o, "text"@)
    } else {
        arg_wf(o)
    }
}

/// The argument token a well-formed object decodes to.
pub open spec fn arg_token_of(o: Seq<(Seq<char>, JsonModel)>) -> crate::raw_types::ActionArgOptionsModel {
    if crate::json::obj_has_key(o, "text"@) {
        crate::raw_types::ActionArgOptionsModel::Text { text: str_at(o, "text"@) }
    } else {
        crate::raw_types::ActionArgOptionsModel::Arg(arg_of(o))
    }
}

/// Decodes one argument token object, by shape.
pub fn decode_arg_token(entries: &Vec<(String, Json)>) -> (r: Result<
    crate::raw_types::ActionArgOptions,
    FieldError,
>)
    ensures
        match r {
            Ok(x) => arg_token_wf(entries.deep_view()) && x.deep_view() == arg_token_of(
                entries.deep_view(),
            ),
            Err(e) => !arg_token_wf(entries.deep_view()),
        },
{
    if obj_has(entries, "text") {
        let text = match get_str(entries, "text") {
            Ok(x) => x,
            Err(e) => {
                return Err(e);
            },
        };
        Ok(crate::raw_types::ActionArgOptions::Text { text })
    } else {
        let arg_type = match get_str(entries, "type") {
            Ok(x) => x,
            Err(e) => {
                return Err(e);
            },
        };
        let plural = match get_bool(entries, "plural") {
            Ok(x) => x,
            Err(e) => {
                return Err(e);
            },
        };
        let optional = match get_bool(entries, "optional") {
            Ok(x) => x,
            Err(e) => {
                return Err(e);
            },
        };
        let description = match get_str_arr(entries, "description") {
            Ok(x) => x,
            Err(e) => {
                return Err(e);
            },
        };
        let notes = match get_str_arr_arr(entries, "notes") {
            Ok(x) => x,
            Err(e) => {
                return Err(e);
            },
        };
        Ok(
            crate::raw_types::ActionArgOptions::Arg(
                crate::raw_types::ActionArg { arg_type, plural, optional, description, notes },
            ),
        )
    }
}

/// Well-formedness of an arguments array.
pub open spec fn arg_tokens_wf(s: Seq<JsonModel>) -> bool {
    forall|i: int|
        0 <= i < s.len() ==> ((#[trigger] s[i]) matches JsonModel::Obj(o) && arg_token_wf(o))
}

/// The argument tokens of a well-formed arguments array.
pub open spec fn arg_tokens_of(s: Seq<JsonModel>) -> Seq<crate::raw_types::ActionArgOptionsModel> {
    s.map_values(
        |e: JsonModel|
            match e {
                JsonModel::Obj(o) => arg_token_of(o),
                _ => arg_token_of(Seq::empty()),
            },
    )
}

/// Decodes an arguments array.
pub fn decode_arg_tokens(items: &Vec<Json>) -> (r: Result<
    Vec<crate::raw_types::ActionArgOptions>,
    FieldError,
>)
    ensures
        match r {
            Ok(v) => arg_tokens_wf(items.deep_view()) && v.deep_view() == arg_tokens_of(
                items.deep_view(),
            ),
            Err(e) => !arg_tokens_wf(items.deep_view()),
        },
{
    let ghost m = items.deep_view();
    proof {
        lemma_arr_deep(*items);
    }
    let mut v: Vec<crate::raw_types::ActionArgOptions> = Vec::new();
    let mut i: usize = 0;
    while i < items.len()
        invariant
            i <= items.len(),
            m == items.deep_view(),
            m.len() == items.len(),
            forall|k: int| 0 <= k < m.len() ==> m[k] == items@[k].deep_view(),
            v.deep_view() =~= arg_tokens_of(m.subrange(0, i as int)),
            forall|k: int|
                0 <= k < i ==> ((#[trigger] m[k]) matches JsonModel::Obj(o) && arg_token_wf(o)),
        decreases items.len() - i,
    {
        match &items[i] {
            Json::Obj(o) => {
                proof {
                    lemma_obj_deep(*o);
                    assert(m[i as int] == JsonModel::Obj(o.deep_view()));
                }
                match decode_arg_token(o) {
                    Ok(x) => {
                        let ghost prev = v.deep_view();
                        let ghost xm = x.deep_view();
                        v.push(x);
                        proof {
                            assert(v.deep_view() =~= prev.push(xm));
                            assert(arg_tokens_of(m.subrange(0, i as int + 1)) =~= arg_tokens_of(
                                m.subrange(0, i as int),
                            ).push(xm));
                        }
                    },
                    Err(e) => {
                        proof {
                            if arg_tokens_wf(m) {
                                assert((m[i as int] matches JsonModel::Obj(o2) && arg_token_wf(
                                    o2,
                                )));
                                assert(false);
                            }
                        }
                        return Err(e);
                    },
                }
            },
            _ => {
                proof {
                    if arg_tokens_wf(m) {
                        assert((m[i as int] matches JsonModel::Obj(o2) && arg_token_wf(o2)));
                        assert(false);
                    }
                }
                return Err(field_err("arguments"));
            },
        }
        i = i + 1;
    }
    proof {
        assert(m.subrange(0, m.len() as int) =~= m);
    }
    Ok(v)
}

/// Well-formedness of one return value token object.
pub open spec fn ret_token_wf(o: Seq<(Seq<char>, JsonModel)>) -> bool {
    if crate::json::obj_has_key(o, "text"@) {
        is_str_at(o, "text"@)
    } else {
        is_str_at(o, "type"@) && is_str_arr_at(o, "description"@)
    }
}

/// The return value token a well-formed object decodes to.
pub open spec fn ret_token_of(o: Seq<(Seq<char>, JsonModel)>) -> crate::raw_types::ActionIconReturnTypeOptionModel {
    if crate::json::obj_has_key(o, "text"@) {
        crate::raw_types::ActionIconReturnTypeOptionModel::Text { text: str_at(o, "text"@) }
    } else {
        crate::raw_types::ActionIconReturnTypeOptionModel::Arg(
            crate::raw_types::ActionIconReturnTypeModel {
                ret_type: str_at(o, "type"@),
                description: str_arr_at(o, "description"@),
            },
        )
    }
}

/// Decodes one return value token object, by shape.
pub fn decode_ret_token(entries: &Vec<(String, Json)>) -> (r: Result<
    crate::raw_types::ActionIconReturnTypeOption,
    FieldError,
>)
    ensures
        match r {
            Ok(x) => ret_token_wf(entries.deep_view()) && x.deep_view() == ret_token_of(
                entries.deep_view(),
            ),
            Err(e) => !ret_token_wf(entries.deep_view()),
        },
{
    if obj_has(entries, "text") {
        let text = match get_str(entries, "text") {
            Ok(x) => x,
            Err(e) => {
                return Err(e);
            },
        };
        Ok(crate::raw_types::ActionIconReturnTypeOption::Text { text })
    } else {
        let ret_type = match get_str(entries, "type") {
            Ok(x) => x,
            Err(e) => {
                return Err(e);
            },
        };
        let description = match get_str_arr(entries, "description") {
            Ok(x) => x,
            Err(e) => {
                return Err(e);
            },
        };
        Ok(
            crate::raw_types::ActionIconReturnTypeOption::Arg(
                crate::raw_types::ActionIconReturnType { ret_type, description },
            ),
        )
    }
}

/// Well-formedness of a return values array.
pub open spec fn ret_tokens_wf(s: Seq<JsonModel>) -> bool {
    forall|i: int|
        0 <= i < s.len() ==> ((#[trigger] s[i]) matches JsonModel::Obj(o) && ret_token_wf(o))
}

/// The return value tokens of a well-formed return values array.
pub open spec fn ret_tokens_of(s: Seq<JsonModel>) -> Seq<
    crate::raw_types::ActionIconReturnTypeOptionModel,
> {
    s.map_values(
        |e: JsonModel|
            match e {
                JsonModel::Obj(o) => ret_token_of(o),
                _ => ret_token_of(Seq::empty()),
            },
    )
}

/// Decodes a return values array.
pub fn decode_ret_tokens(items: &Vec<Json>) -> (r: Result<
    Vec<crate::raw_types::ActionIconReturnTypeOption>,
    FieldError,
>)
    ensures
        match r {
            Ok(v) => ret_tokens_wf(items.deep_view()) && v.deep_view() == ret_tokens_of(
                items.deep_view(),
            ),
            Err(e) => !ret_tokens_wf(items.deep_view()),
        },
{
    let ghost m = items.deep_view();
    proof {
        lemma_arr_deep(*items);
    }
    let mut v: Vec<crate::raw_types::ActionIconReturnTypeOption> = Vec::new();
    let mut i: usize = 0;
    while i < items.len()
        invariant
            i <= items.len(),
            m == items.deep_view(),
            m.len() == items.len(),
            forall|k: int| 0 <= k < m.len() ==> m[k] == items@[k].deep_view(),
            v.deep_view() =~= ret_tokens_of(m.subrange(0, i as int)),
            forall|k: int|
                0 <= k < i ==> ((#[trigger] m[k]) matches JsonModel::Obj(o) && ret_token_wf(o)),
        decreases items.len() - i,
    {
        match &items[i] {
            Json::Obj(o) => {
                proof {
                    lemma_obj_deep(*o);
                    assert(m[i as int] == JsonModel::Obj(o.deep_view()));
                }
                match decode_ret_token(o) {
                    Ok(x) => {
                        let ghost prev = v.deep_view();
                        let ghost xm = x.deep_view();
                        v.push(x);
                        proof {
                            assert(v.deep_view() =~= prev.push(xm));
                            assert(ret_tokens_of(m.subrange(0, i as int + 1)) =~= ret_tokens_of(
                                m.subrange(0, i as int),
                            ).push(xm));
                        }
                    },
                    Err(e) => {
                        proof {
                            if ret_tokens_wf(m) {
                                assert((m[i as int] matches JsonModel::Obj(o2) && ret_token_wf(
                                    o2,
                                )));
                                assert(false);
                            }
                        }
                        return Err(e);
                    },
                }
            },
            _ => {
                proof {
                    if ret_tokens_wf(m) {
                        assert((m[i as int] matches JsonModel::Obj(o2) && ret_token_wf(o2)));
                        assert(false);
                    }
                }
                return Err(field_err("returnValues"));
            },
        }
        i = i + 1;
    }
    proof {
        assert(m.subrange(0, m.len() as int) =~= m);
    }
    Ok(v)
}


/// Well-formedness of the display fields both icon shapes share.
pub open spec fn icon_common_wf(o: Seq<(Seq<char>, JsonModel)>) -> bool {
    &&& is_str_at(o, "material"@)
    &&& is_str_at(o, "name"@)
    &&& is_str_arr_at(o, "deprecatedNote"@)
    &&& is_str_arr_at(o, "description"@)
    &&& is_str_arr_at(o, "example"@)
    &&& is_str_arr_at(o, "worksWith"@)
    &&& is_str_arr_arr_at(o, "additionalInfo"@)
    &&& is_str_at(o, "requiredRank"@)
    &&& is_bool_at(o, "requireTokens"@)
    &&& is_bool_at(o, "requireRankAndTokens"@)
    &&& is_bool_at(o, "advanced"@)
    &&& is_str_at(o, "loadedItem"@)
}

/// The event icon a well-formed object decodes to.
pub open spec fn event_icon_of(o: Seq<(Seq<char>, JsonModel)>) -> crate::raw_types::ActionEventIconModel {
    crate::raw_types::ActionEventIconModel {
        material: str_at(o, "material"@),
        name: str_at(o, "name"@),
        deprecated_note: str_arr_at(o, "deprecatedNote"@),
        description: str_arr_at(o, "description"@),
        example: str_arr_at(o, "example"@),
        works_with: str_arr_at(o, "worksWith"@),
        additional_info: str_arr_arr_at(o, "additionalInfo"@),
        required_rank: str_at(o, "requiredRank"@),
        require_tokens: bool_at(o, "requireTokens"@),
        require_rank_and_tokens: bool_at(o, "requireRankAndTokens"@),
        advanced: bool_at(o, "advanced"@),
        loaded_item: str_at(o, "loadedItem"@),
    }
}

/// Decodes an event icon object.
pub fn decode_event_icon(entries: &Vec<(String, Json)>) -> (r: Result<
    crate::raw_types::ActionEventIcon,
    FieldError,
>)
    ensures
        match r {
            Ok(x) => icon_common_wf(entries.deep_view()) && x.deep_view() == event_icon_of(
                entries.deep_view(),
            ),
            Err(e) => !icon_common_wf(entries.deep_view()),
        },
{
    let material = match get_str(entries, "material") {
        Ok(x) => x,
        Err(e) => {
            return Err(e);
        },
    };
    let name = match get_str(entries, "name") {
        Ok(x) => x,
        Err(e) => {
            return Err(e);
        },
    };
    let deprecated_note = match get_str_arr(entries, "deprecatedNote") {
        Ok(x) => x,
        Err(e) => {
            return Err(e);
        },
    };
    let description = match get_str_arr(entries, "description") {
        Ok(x) => x,
        Err(e) => {
            return Err(e);
        },
    };
    let example = match get_str_arr(entries, "example") {
        Ok(x) => x,
        Err(e) => {
            return Err(e);
        },
    };
    let works_with = match get_str_arr(entries, "worksWith") {
        Ok(x) => x,
        Err(e) => {
            return Err(e);
        },
    };
    let additional_info = match get_str_arr_arr(entries, "additionalInfo") {
        Ok(x) => x,
        Err(e) => {
            return Err(e);
        },
    };
    let required_rank = match get_str(entries, "requiredRank") {
        Ok(x) => x,
        Err(e) => {
            return Err(e);
        },
    };
    let require_tokens = match get_bool(entries, "requireTokens") {
        Ok(x) => x,
        Err(e) => {
            return Err(e);
        },
    };
    let require_rank_and_tokens = match get_bool(entries, "requireRankAndTokens") {
        Ok(x) => x,
        Err(e) => {
            return Err(e);
        },
    };
    let advanced = match get_bool(entries, "advanced") {
        Ok(x) => x,
        Err(e) => {
            return Err(e);
        },
    };
    let loaded_item = match get_str(entries, "loadedItem") {
        Ok(x) => x,
        Err(e) => {
            return Err(e);
        },
    };
    Ok(
        crate::raw_types::ActionEventIcon {
            material,
            name,
            deprecated_note,
            description,
            example,
            works_with,
            additional_info,
            required_rank,
            require_tokens,
            require_rank_and_tokens,
            advanced,
            loaded_item,
        },
    )
}

/// Well-formedness of an argument-carrying icon object.  `returnValues`
/// may be absent and defaults to empty.
pub open spec fn icon_wf(o: Seq<(Seq<char>, JsonModel)>) -> bool {
    &&& icon_common_wf(o)
    &&& is_arr_at(o, "arguments"@)
    &&& arg_tokens_wf(arr_at(o, "arguments"@))
    &&& crate::json::obj_has_key(o, "returnValues"@) ==> (is_arr_at(o, "returnValues"@)
        && ret_tokens_wf(arr_at(o, "returnValues"@)))
}

/// The argument-carrying icon a well-formed object decodes to.
pub open spec fn icon_of(o: Seq<(Seq<char>, JsonModel)>) -> crate::raw_types::ActionIconModel {
    let common = event_icon_of(o);
    crate::raw_types::ActionIconModel {
        material: common.material,
        name: common.name,
        deprecated_note: common.deprecated_note,
        description: common.description,
        example: common.example,
        works_with: common.works_with,
        additional_info: common.additional_info,
        required_rank: common.required_rank,
        require_tokens: common.require_tokens,
        require_rank_and_tokens: common.require_rank_and_tokens,
        advanced: common.advanced,
        loaded_item: common.loaded_item,
        arguments: arg_tokens_of(arr_at(o, "arguments"@)),
        return_values: if crate::json::obj_has_key(o, "returnValues"@) {
            ret_tokens_of(arr_at(o, "returnValues"@))
        } else {
            Seq::empty()
        },
    }
}

/// Decodes an argument-carrying icon object.
pub fn decode_icon(entries: &Vec<(String, Json)>) -> (r: Result<
    crate::raw_types::ActionIcon,
    FieldError,
>)
    ensures
        match r {
            Ok(x) => icon_wf(entries.deep_view()) && x.deep_view() == icon_of(
                entries.deep_view(),
            ),
            Err(e) => !icon_wf(entries.deep_view()),
        },
{
    let common = match decode_event_icon(entries) {
        Ok(x) => x,
        Err(e) => {
            return Err(e);
        },
    };
    let argument_items = match get_arr(entries, "arguments") {
        Ok(x) => x,
        Err(e) => {
            return Err(e);
        },
    };
    let arguments = match decode_arg_tokens(argument_items) {
        Ok(x) => x,
        Err(e) => {
            return Err(e);
        },
    };
    let return_values = if obj_has(entries, "returnValues") {
        let ret_items = match get_arr(entries, "returnValues") {
            Ok(x) => x,
            Err(e) => {
                return Err(e);
            },
        };
        match decode_ret_tokens(ret_items) {
            Ok(x) => x,
            Err(e) => {
                return Err(e);
            },
        }
    } else {
        Vec::new()
    };
    proof {
        if !crate::json::obj_has_key(entries.deep_view(), "returnValues"@) {
            assert(return_values.deep_view()
                =~= Seq::<crate::raw_types::ActionIconReturnTypeOptionModel>::empty());
        }
    }
    Ok(
        crate::raw_types::ActionIcon {
            material: common.material,
            name: common.name,
            deprecated_note: common.deprecated_note,
            description: common.description,
            example: common.example,
            works_with: common.works_with,
            additional_info: common.additional_info,
            required_rank: common.required_rank,
            require_tokens: common.require_tokens,
            require_rank_and_tokens: common.require_rank_and_tokens,
            advanced: common.advanced,
            loaded_item: common.loaded_item,
            arguments,
            return_values,
        },
    )
}

/// Well-formedness of an icon object of either shape: an `arguments` entry
/// makes it the argument-carrying shape, any other the event shape.
pub open spec fn icon_options_wf(o: Seq<(Seq<char>, JsonModel)>) -> bool {
    if crate::json::obj_has_key(o, "arguments"@) {
        icon_wf(o)
    } else {
        icon_common_wf(o)
    }
}

/// The icon a well-formed object of either shape decodes to.
pub open spec fn icon_options_of(o: Seq<(Seq<char>, JsonModel)>) -> crate::raw_types::ActionIconOptionsModel {
    if crate::json::obj_has_key(o, "arguments"@) {
        crate::raw_types::ActionIconOptionsModel::Icon(icon_of(o))
    } else {
        crate::raw_types::ActionIconOptionsModel::Event(event_icon_of(o))
    }
}

/// Decodes an icon object, discriminating its shape by the presence of an
/// `arguments` entry.
pub fn decode_icon_options(entries: &Vec<(String, Json)>) -> (r: Result<
    crate::raw_types::ActionIconOptions,
    FieldError,
>)
    ensures
        match r {
            Ok(x) => icon_options_wf(entries.deep_view()) && x.deep_view() == icon_options_of(
                entries.deep_view(),
            ),
            Err(e) => !icon_options_wf(entries.deep_view()),
        },
{
    if obj_has(entries, "arguments") {
        match decode_icon(entries) {
            Ok(x) => Ok(crate::raw_types::ActionIconOptions::Icon(x)),
            Err(e) => Err(e),
        }
    } else {
        match decode_event_icon(entries) {
            Ok(x) => Ok(crate::raw_types::ActionIconOptions::Event(x)),
            Err(e) => Err(e),
        }
    }
}

/// Well-formedness of one action object.  `subActionBlocks` may be absent
/// and defaults to empty.
pub open spec fn action_wf(o: Seq<(Seq<char>, JsonModel)>) -> bool {
    &&& is_str_at(o, "name"@)
    &&& is_str_at(o, "codeblockName"@)
    &&& is_arr_at(o, "tags"@)
    &&& tags_wf(arr_at(o, "tags"@))
    &&& is_str_arr_at(o, "aliases"@)
    &&& is_obj_at(o, "icon"@)
    &&& icon_options_wf(obj_at(o, "icon"@))
    &&& crate::json::obj_has_key(o, "subActionBlocks"@) ==> is_str_arr_at(o, "subActionBlocks"@)
}

/// The action a well-formed object decodes to.
pub open spec fn action_of(o: Seq<(Seq<char>, JsonModel)>) -> crate::raw_types::ActionModel {
    crate::raw_types::ActionModel {
        name: str_at(o, "name"@),
        codeblock_name: str_at(o, "codeblockName"@),
        tags: tags_of(arr_at(o, "tags"@)),
        aliases: str_arr_at(o, "aliases"@),
        icon: icon_options_of(obj_at(o, "icon"@)),
        sub_action_blocks: if crate::json::obj_has_key(o, "subActionBlocks"@) {
            str_arr_at(o, "subActionBlocks"@)
        } else {
            Seq::empty()
        },
    }
}

/// Decodes one action object.
pub fn decode_action(entries: &Vec<(String, Json)>) -> (r: Result<
    crate::raw_types::Action,
    FieldError,
>)
    ensures
        match r {
            Ok(x) => action_wf(entries.deep_view()) && x.deep_view() == action_of(
                entries.deep_view(),
            ),
            Err(e) => !action_wf(entries.deep_view()),
        },
{
    let name = match get_str(entries, "name") {
        Ok(x) => x,
        Err(e) => {
            return Err(e);
        },
    };
    let codeblock_name = match get_str(entries, "codeblockName") {
        Ok(x) => x,
        Err(e) => {
            return Err(e);
        },
    };
    let tag_items = match get_arr(entries, "tags") {
        Ok(x) => x,
        Err(e) => {
            return Err(e);
        },
    };
    let tags = match decode_tags(tag_items) {
        Ok(x) => x,
        Err(e) => {
            return Err(e);
        },
    };
    let aliases = match get_str_arr(entries, "aliases") {
        Ok(x) => x,
        Err(e) => {
            return Err(e);
        },
    };
    let icon_entries = match get_obj(entries, "icon") {
        Ok(x) => x,
        Err(e) => {
            return Err(e);
        },
    };
    let icon = match decode_icon_options(icon_entries) {
        Ok(x) => x,
        Err(e) => {
            return Err(e);
        },
    };
    let sub_action_blocks = if obj_has(entries, "subActionBlocks") {
        match get_str_arr(entries, "subActionBlocks") {
            Ok(x) => x,
            Err(e) => {
                return Err(e);
            },
        }
    } else {
        Vec::new()
    };
    proof {
        if !crate::json::obj_has_key(entries.deep_view(), "subActionBlocks"@) {
            assert(sub_action_blocks.deep_view() =~= Seq::<Seq<char>>::empty());
        }
    }
    Ok(
        crate::raw_types::Action { name, codeblock_name, tags, aliases, icon, sub_action_blocks },
    )
}


/// Ghost model of [`DecodeError`].
pub ghost enum DecodeErrorModel {
    NotAnObject,
    MissingActions,
    ActionsNotArray,
    BadAction { index: int, field: Seq<char> },
}

/// A fatal input-shape error of the whole dump.
#[derive(Debug, PartialEq, Eq)]
pub enum DecodeError {
    /// The document is not an object.
    NotAnObject,
    /// The document has no `actions` entry.
    MissingActions,
    /// The `actions` entry is not an array.
    ActionsNotArray,
    /// The action at `index` does not match the schema; `field` names the
    /// offending field.
    BadAction { index: usize, field: String },
}

impl DeepView for DecodeError {
    type V = DecodeErrorModel;

    open spec fn deep_view(&self) -> DecodeErrorModel {
        match self {
            DecodeError::NotAnObject => DecodeErrorModel::NotAnObject,
            DecodeError::MissingActions => DecodeErrorModel::MissingActions,
            DecodeError::ActionsNotArray => DecodeErrorModel::ActionsNotArray,
            DecodeError::BadAction { index, field } => DecodeErrorModel::BadAction {
                index: *index as int,
                field: field@,
            },
        }
    }
}

/// Whether a dump element is the reserved `dynamic` action, which is
/// skipped unread.
pub open spec fn is_dynamic_element(e: JsonModel) -> bool {
    match e {
        JsonModel::Obj(o) => is_str_at(o, "name"@) && str_at(o, "name"@) == "dynamic"@,
        _ => false,
    }
}

/// The entries of an object element.
pub open spec fn obj_of(e: JsonModel) -> Seq<(Seq<char>, JsonModel)> {
    match e {
        JsonModel::Obj(o) => o,
        _ => Seq::empty(),
    }
}

/// Well-formedness of the dump's elements: each is the skipped `dynamic`
/// sentinel or a well-formed action object.
pub open spec fn dump_items_wf(s: Seq<JsonModel>) -> bool {
    forall|i: int|
        0 <= i < s.len() ==> (is_dynamic_element(#[trigger] s[i]) || (s[i] matches JsonModel::Obj(
            o,
        ) && action_wf(o)))
}

/// The actions of a well-formed dump, `dynamic` elements skipped.
pub open spec fn dump_items_of(s: Seq<JsonModel>) -> Seq<crate::raw_types::ActionModel>
    decreases s.len(),
{
    if s.len() == 0 {
        Seq::empty()
    } else if is_dynamic_element(s[0]) {
        dump_items_of(s.skip(1))
    } else {
        seq![action_of(obj_of(s[0]))] + dump_items_of(s.skip(1))
    }
}

/// Whether one dump element is the skipped `dynamic` sentinel.
fn is_dynamic_exec(e: &Json) -> (r: bool)
    ensures
        r == is_dynamic_element(e.deep_view()),
{
    match e {
        Json::Obj(entries) => {
            proof {
                lemma_obj_deep(*entries);
            }
            match obj_get(entries, "name") {
                Some(j) => match j {
                    Json::Str(s) => str_eq(s.as_str(), "dynamic"),
                    _ => false,
                },
                None => false,
            }
        },
        _ => false,
    }
}

/// Decodes the whole dump: the document must be an object whose `actions`
/// entry is an array; every element must be the skipped `dynamic` sentinel
/// or match the action schema, else the run fails with the offending
/// index and field and no actions are handed out.
pub fn decode_dump(j: &Json) -> (r: Result<Vec<crate::raw_types::Action>, DecodeError>)
    ensures
        match r {
            Ok(actions) => {
                &&& j.deep_view() matches JsonModel::Obj(o)
                &&& is_arr_at(o, "actions"@)
                &&& dump_items_wf(arr_at(o, "actions"@))
                &&& actions.deep_view() == dump_items_of(arr_at(o, "actions"@))
            },
            Err(e) => match e.deep_view() {
                DecodeErrorModel::NotAnObject => !(j.deep_view() matches JsonModel::Obj(o)),
                DecodeErrorModel::MissingActions => j.deep_view() matches JsonModel::Obj(o)
                    && !crate::json::obj_has_key(o, "actions"@),
                DecodeErrorModel::ActionsNotArray => j.deep_view() matches JsonModel::Obj(o)
                    && crate::json::obj_has_key(o, "actions"@) && !is_arr_at(o, "actions"@),
                DecodeErrorModel::BadAction { index, field } => {
                    &&& j.deep_view() matches JsonModel::Obj(o)
                    &&& is_arr_at(o, "actions"@)
                    &&& 0 <= index < arr_at(o, "actions"@).len()
                    &&& !is_dynamic_element(arr_at(o, "actions"@)[index])
                    &&& !(arr_at(o, "actions"@)[index] matches JsonModel::Obj(ao) && action_wf(
                        ao,
                    ))
                },
            },
        },
{
    let entries = match j {
        Json::Obj(entries) => entries,
        _ => {
            return Err(DecodeError::NotAnObject);
        },
    };
    proof {
        lemma_obj_deep(*entries);
    }
    if !obj_has(entries, "actions") {
        return Err(DecodeError::MissingActions);
    }
    let items = match get_arr(entries, "actions") {
        Ok(x) => x,
        Err(e) => {
            return Err(DecodeError::ActionsNotArray);
        },
    };
    let ghost m = items.deep_view();
    proof {
        lemma_arr_deep(*items);
        assert(m.skip(0) =~= m);
    }
    let mut actions: Vec<crate::raw_types::Action> = Vec::new();
    let mut i: usize = 0;
    while i < items.len()
        invariant
            i <= items.len(),
            m == items.deep_view(),
            m.len() == items.len(),
            j.deep_view() matches JsonModel::Obj(o2) && is_arr_at(o2, "actions"@) && arr_at(
                o2,
                "actions"@,
            ) == m,
            forall|k: int| 0 <= k < m.len() ==> m[k] == items@[k].deep_view(),
            dump_items_of(m) =~= actions.deep_view() + dump_items_of(m.skip(i as int)),
            forall|k: int|
                0 <= k < i ==> (is_dynamic_element(#[trigger] m[k]) || (m[k]
                    matches JsonModel::Obj(o) && action_wf(o))),
        decreases items.len() - i,
    {
        proof {
            assert(m.skip(i as int)[0] == m[i as int]);
            assert(m.skip(i as int).skip(1) =~= m.skip(i as int + 1));
        }
        if is_dynamic_exec(&items[i]) {
            i = i + 1;
            continue ;
        }
        match &items[i] {
            Json::Obj(o) => {
                proof {
                    lemma_obj_deep(*o);
                    assert(m[i as int] == JsonModel::Obj(o.deep_view()));
                }
                match decode_action(o) {
                    Ok(a) => {
                        let ghost prev = actions.deep_view();
                        let ghost am = a.deep_view();
                        actions.push(a);
                        proof {
                            assert(actions.deep_view() =~= prev.push(am));
                            assert(dump_items_of(m.skip(i as int)) == seq![am] + dump_items_of(
                                m.skip(i as int + 1),
                            ));
                            assert(prev.push(am) + dump_items_of(m.skip(i as int + 1)) =~= prev + (
                            seq![am] + dump_items_of(m.skip(i as int + 1))));
                        }
                    },
                    Err(e) => {
                        return Err(DecodeError::BadAction { index: i, field: e.field });
                    },
                }
            },
            _ => {
                return Err(
                    DecodeError::BadAction { index: i, field: String::from_str("action") },
                );
            },
        }
        i = i + 1;
    }
    proof {
        assert(m.skip(i as int) =~= Seq::<JsonModel>::empty());
        assert(actions.deep_view() + Seq::<crate::raw_types::ActionModel>::empty()
            =~= actions.deep_view());
    }
    Ok(actions)
}

/// No decoded action carries the reserved raw name `dynamic`: elements so
/// named are skipped before decoding.
pub proof fn lemma_decoded_no_dynamic(s: Seq<JsonModel>)
    requires
        dump_items_wf(s),
    ensures
        forall|i: int|
            0 <= i < dump_items_of(s).len() ==> (#[trigger] dump_items_of(s)[i]).name
                != "dynamic"@,
    decreases s.len(),
{
    if s.len() > 0 {
        assert(forall|k: int| 0 <= k < s.skip(1).len() ==> s.skip(1)[k] == s[k + 1]);
        lemma_decoded_no_dynamic(s.skip(1));
        if !is_dynamic_element(s[0]) {
            assert((s[0] matches JsonModel::Obj(o) && action_wf(o)));
            assert(action_of(obj_of(s[0])).name != "dynamic"@);
            assert forall|i: int| 0 <= i < dump_items_of(s).len() implies (
            #[trigger] dump_items_of(s)[i]).name != "dynamic"@ by {
                if i > 0 {
                    assert(dump_items_of(s)[i] == dump_items_of(s.skip(1))[i - 1]);
                }
            }
        }
    }
}

} // verus!
