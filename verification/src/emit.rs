//! The canonical call envelope the generated serializers must produce.
//!
//! An invocation serializes to `{"action": <raw action name>, "args":
//! {"items": [<parameter JSON>..., <tag JSON>...]}}`; parameters stand
//! before tags, in their original order — the engine reads the items
//! positionally.  An action with a subaction does not rebuild the
//! envelope: the subaction's own envelope is reused, its `action` entry's
//! value moves to an appended `subaction` entry, and `action` is
//! overwritten with the outer action's raw name.

use vstd::prelude::*;
use vstd::string::StringExecFns;
use crate::json::{
    Json, JsonModel, json_arr_model, json_model, json_obj_model, lemma_arr_model_index,
    lemma_obj_lookup_at, lemma_obj_model_index, obj_has_key, obj_lookup,
};
use crate::strutil::str_eq;

verus! {

/// The call envelope for `raw_name` with the given serialized items.
pub open spec fn envelope_model(raw_name: Seq<char>, items: Seq<JsonModel>) -> JsonModel {
    JsonModel::Obj(
        seq![
            ("action"@, JsonModel::Str(raw_name)),
            ("args"@, JsonModel::Obj(seq![("items"@, JsonModel::Arr(items))])),
        ],
    )
}

/// Serializes one invocation: the parameter items, then the tag items,
/// under the action's raw name.
pub fn serialize_invocation(raw_name: &str, arg_items: Vec<Json>, tag_items: Vec<Json>) -> (r:
    Json)
    ensures
        r.deep_view() == envelope_model(
            raw_name@,
            json_arr_model(arg_items@) + json_arr_model(tag_items@),
        ),
{
    let ghost av = arg_items@;
    let ghost tv = tag_items@;
    let ghost am = json_arr_model(arg_items@);
    let ghost tm = json_arr_model(tag_items@);
    let mut items = arg_items;
    let mut tags = tag_items;
    items.append(&mut tags);
    proof {
        lemma_arr_model_index(items@);
        lemma_arr_model_index(av);
        lemma_arr_model_index(tv);
        assert(json_arr_model(items@) =~= am + tm);
    }
    let mut args: Vec<(String, Json)> = Vec::new();
    args.push((String::from_str("items"), Json::Arr(items)));
    let mut top: Vec<(String, Json)> = Vec::new();
    top.push((String::from_str("action"), Json::Str(String::from_str(raw_name))));
    top.push((String::from_str("args"), Json::Obj(args)));
    let r = Json::Obj(top);
    proof {
        let t = top@;
        lemma_obj_model_index(t);
        lemma_obj_model_index(t[1].1->Obj_0@);
        assert(json_obj_model(t[1].1->Obj_0@) =~= seq![
            ("items"@, JsonModel::Arr(json_arr_model(t[1].1->Obj_0@[0].1->Arr_0@))),
        ]);
        assert(json_arr_model(t[1].1->Obj_0@[0].1->Arr_0@) =~= am + tm);
        assert(json_obj_model(t) =~= seq![
            ("action"@, JsonModel::Str(raw_name@)),
            ("args"@, JsonModel::Obj(seq![("items"@, JsonModel::Arr(am + tm))])),
        ]);
    }
    r
}

/// The reused envelope: every entry of the inner envelope kept in place
/// with the `action` value overwritten, and the old `action` value
/// appended under `subaction`.
pub open spec fn subaction_envelope_model(
    entries: Seq<(Seq<char>, JsonModel)>,
    raw_name: Seq<char>,
) -> JsonModel {
    let renamed = entries.map_values(
        |e: (Seq<char>, JsonModel)|
            (e.0, if e.0 == "action"@ {
                JsonModel::Str(raw_name)
            } else {
                e.1
            }),
    );
    match obj_lookup(entries, "action"@) {
        Some(v) => JsonModel::Obj(renamed.push(("subaction"@, v))),
        None => JsonModel::Obj(renamed),
    }
}

/// Rewrites a subaction's envelope into the outer action's envelope.
pub fn subaction_envelope(inner: Json, raw_name: &str) -> (r: Json)
    requires
        inner is Obj,
        obj_has_key(json_obj_model(inner->Obj_0@), "action"@),
    ensures
        r.deep_view() == subaction_envelope_model(json_obj_model(inner->Obj_0@), raw_name@),
{
    match inner {
        Json::Obj(mut entries) => {
            let ghost oe = entries@;
            let ghost om = json_obj_model(oe);
            proof {
                lemma_obj_model_index(oe);
                assert(oe.skip(0) =~= oe);
            }
            let mut out: Vec<(String, Json)> = Vec::new();
            let mut sub_val: Option<Json> = None;
            while entries.len() > 0
                invariant
                    om == json_obj_model(oe),
                    om.len() == oe.len(),
                    forall|k: int| 0 <= k < oe.len() ==> om[k] == (oe[k].0@, json_model(oe[k].1)),
                    out.len() + entries.len() == oe.len(),
                    entries@ =~= oe.skip(out.len() as int),
                    forall|k: int|
                        0 <= k < out.len() ==> (#[trigger] out@[k]).0@ == om[k].0 && json_model(
                            out@[k].1,
                        ) == (if om[k].0 == "action"@ {
                            JsonModel::Str(raw_name@)
                        } else {
                            om[k].1
                        }),
                    match sub_val {
                        None => forall|k: int| 0 <= k < out.len() ==> om[k].0 != "action"@,
                        Some(v) => exists|j: int|
                            0 <= j < out.len() && om[j].0 == "action"@ && json_model(v) == om[j].1
                                && (forall|k: int| 0 <= k < j ==> om[k].0 != "action"@),
                    },
                decreases entries.len(),
            {
                let ghost p = out.len() as int;
                proof {
                    assert(entries@[0] == oe[p]);
                }
                let e = entries.remove(0);
                proof {
                    assert(entries@ =~= oe.skip(p + 1));
                }
                if str_eq(e.0.as_str(), "action") {
                    out.push((String::from_str("action"), Json::Str(String::from_str(raw_name))));
                    if sub_val.is_none() {
                        sub_val = Some(e.1);
                        proof {
                            assert(om[p].0 == "action"@ && json_model(e.1) == om[p].1);
                        }
                    }
                } else {
                    out.push(e);
                }
            }
            proof {
                assert(oe.skip(out.len() as int) =~= entries@);
            }
            let old_action = match sub_val {
                Some(v) => v,
                None => {
                    proof {
                        crate::json::lemma_obj_lookup_none(om, "action"@);
                    }
                    unreached()
                },
            };
            out.push((String::from_str("subaction"), old_action));
            let r = Json::Obj(out);
            proof {
                let renamed = om.map_values(
                    |e: (Seq<char>, JsonModel)|
                        (e.0, if e.0 == "action"@ {
                            JsonModel::Str(raw_name@)
                        } else {
                            e.1
                        }),
                );
                let fo = r->Obj_0@;
                lemma_obj_model_index(fo);
                let j = choose|j: int|
                    0 <= j < om.len() && om[j].0 == "action"@ && json_model(old_action) == om[j].1
                        && (forall|k: int| 0 <= k < j ==> om[k].0 != "action"@);
                lemma_obj_lookup_at(om, "action"@, j);
                assert(json_obj_model(fo) =~= renamed.push(("subaction"@, om[j].1)));
            }
            r
        },
        _ => unreached(),
    }
}

} // verus!
