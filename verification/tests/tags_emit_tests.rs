use actiongen::emit::{serialize_invocation, subaction_envelope};
use actiongen::json::Json;
use actiongen::raw_types::{ActionTagIcon, ActionTagOption, ActionTags};
use actiongen::tags::{synthesize_tag, tag_option_json, TagSet};

fn option_icon(description: Vec<&str>) -> ActionTagIcon {
    ActionTagIcon {
        material: String::new(),
        name: String::new(),
        deprecated_note: vec![],
        description: description.into_iter().map(|s| s.to_string()).collect(),
        example: vec![],
        works_with: vec![],
        additional_info: vec![],
        required_rank: String::new(),
        require_tokens: false,
        require_rank_and_tokens: false,
        advanced: false,
        loaded_item: String::new(),
    }
}

fn option(name: &str, aliases: Vec<&str>, description: Vec<&str>) -> ActionTagOption {
    ActionTagOption {
        name: name.to_string(),
        icon: option_icon(description),
        aliases: aliases.into_iter().map(|s| s.to_string()).collect(),
    }
}

fn obj(entries: Vec<(&str, Json)>) -> Json {
    Json::Obj(entries.into_iter().map(|(k, v)| (k.to_string(), v)).collect())
}

fn s(x: &str) -> Json {
    Json::Str(x.to_string())
}

#[test]
fn test_tag_default_matches_option_named_true() {
    let tag = ActionTags {
        name: "Reduced Debug Info Enabled".to_string(),
        options: vec![option("True", vec![], vec![]), option("False", vec![], vec![])],
        default_option: "True".to_string(),
        slot: 26,
    };
    let g = synthesize_tag(&tag, "SetReducedDebug", "SetReducedDebug");
    assert_eq!(g.options, vec!["True".to_string(), "False".to_string()]);
    // The generated default identifier corresponds to the option whose raw
    // name is `True`.
    assert_eq!(g.default, "True");
    assert_eq!(g.option_json_strings, vec!["True".to_string(), "False".to_string()]);
    assert_eq!(g.identifier, "ReducedDebugInfoEnabledSetReducedDebug");
    assert_eq!(g.field_ident, "reduced_debug_info_enabled_tag");
}

#[test]
fn test_tag_default_placeholder_when_unmatched() {
    // The known defect: an unmatched default silently falls back to an
    // unresolved placeholder identifier.
    let tag = ActionTags {
        name: "Mode".to_string(),
        options: vec![option("On", vec![], vec![])],
        default_option: "Off".to_string(),
        slot: 1,
    };
    let g = synthesize_tag(&tag, "Act", "Act");
    assert_eq!(g.default, "placeholder");
}

#[test]
fn test_option_ident_priorities() {
    let tag = ActionTags {
        name: "T".to_string(),
        options: vec![
            option("5 Hearts", vec![], vec![]),
            option("!!!", vec!["Second Alias"], vec![]),
            option("!!!", vec![], vec!["absorption hearts"]),
        ],
        default_option: "5 Hearts".to_string(),
        slot: 0,
    };
    let g = synthesize_tag(&tag, "Act", "Act");
    // Digits are spelled out before sanitation.
    assert_eq!(g.options[0], "FiveHearts");
    // An unusable name falls back to the first alias.
    assert_eq!(g.options[1], "SecondAlias");
    // Then to the case-folded first description line (sanitation has
    // already removed the space, so only the first word is capitalized).
    assert_eq!(g.options[2], "Absorptionhearts");
    // The raw names are echoed unchanged for serialization.
    assert_eq!(g.option_json_strings[0], "5 Hearts");
}

#[test]
fn test_tag_option_json_shape() {
    let j = tag_option_json("Reduced Debug Info Enabled", "True", "SetReducedDebug");
    let expected = obj(vec![
        (
            "data",
            obj(vec![
                ("action", s("SetReducedDebug")),
                ("block", s("SetReducedDebug")),
                ("option", s("True")),
                ("tag", s("Reduced Debug Info Enabled")),
            ]),
        ),
        ("id", s("bl_tag")),
    ]);
    assert_eq!(j, expected);
}

fn item_json() -> Json {
    obj(vec![("id", s("item")), ("slot", Json::Int(0))])
}

#[test]
fn test_serializer_round_trip_shape() {
    // One plural ITEM parameter, no subaction, no tags.
    let j = serialize_invocation("SetHotbarItems", vec![item_json()], vec![]);
    let expected = obj(vec![
        ("action", s("SetHotbarItems")),
        ("args", obj(vec![("items", Json::Arr(vec![item_json()]))])),
    ]);
    assert_eq!(j, expected);
}

#[test]
fn test_items_keep_parameters_before_tags() {
    let j = serialize_invocation("Act", vec![s("param")], vec![s("tag")]);
    let expected = obj(vec![
        ("action", s("Act")),
        ("args", obj(vec![("items", Json::Arr(vec![s("param"), s("tag")]))])),
    ]);
    assert_eq!(j, expected);
}

fn chooser_args() -> Json {
    obj(vec![("items", Json::Arr(vec![s("x")]))])
}

#[test]
fn test_subaction_nesting_renames_action_key() {
    let inner = obj(vec![("action", s("IsSneaking")), ("args", chooser_args())]);
    let j = subaction_envelope(inner, "OuterAction");
    // The inner chooser's `action` value moves under `subaction`, the outer
    // raw name overwrites `action`, and every other inner key is untouched.
    let expected = obj(vec![
        ("action", s("OuterAction")),
        ("args", chooser_args()),
        ("subaction", s("IsSneaking")),
    ]);
    assert_eq!(j, expected);
}

#[test]
fn test_tag_set_records() {
    let mut set = TagSet::new();
    assert_eq!(set.tags.len(), 0);
    set.record("Mode", "Act", "PLAYER ACTION");
    assert_eq!(set.tags.len(), 1);
    assert_eq!(set.tags[0].name, "Mode");
    assert_eq!(set.tags[0].action_name, "Act");
    assert_eq!(set.tags[0].block_name, "PLAYER ACTION");
}
