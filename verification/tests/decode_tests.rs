use actiongen::decode::{
    decode_action, decode_arg_token, decode_dump, decode_icon_options, DecodeError,
};
use actiongen::json::Json;
use actiongen::raw_types::{ActionArgOptions, ActionIconOptions};

fn obj(entries: Vec<(&str, Json)>) -> Json {
    Json::Obj(entries.into_iter().map(|(k, v)| (k.to_string(), v)).collect())
}

fn s(x: &str) -> Json {
    Json::Str(x.to_string())
}

fn strs(items: Vec<&str>) -> Json {
    Json::Arr(items.into_iter().map(s).collect())
}

fn entries_of(j: Json) -> Vec<(String, Json)> {
    match j {
        Json::Obj(entries) => entries,
        _ => panic!("expected an object"),
    }
}

fn option_icon(material: &str) -> Json {
    obj(vec![
        ("material", s(material)),
        ("name", s("")),
        ("deprecatedNote", strs(vec![])),
        ("description", strs(vec![])),
        ("example", strs(vec![])),
        ("worksWith", strs(vec![])),
        ("additionalInfo", Json::Arr(vec![])),
        ("requiredRank", s("")),
        ("requireTokens", Json::Bool(false)),
        ("requireRankAndTokens", Json::Bool(false)),
        ("advanced", Json::Bool(false)),
        ("loadedItem", s("")),
    ])
}

fn tag_option(name: &str, material: &str) -> Json {
    obj(vec![("name", s(name)), ("icon", option_icon(material)), ("aliases", strs(vec![]))])
}

fn set_reduced_debug_action() -> Json {
    obj(vec![
        ("name", s("SetReducedDebug")),
        ("codeblockName", s("PLAYER ACTION")),
        (
            "tags",
            Json::Arr(vec![
                obj(vec![
                    ("name", s("Reduced Debug Info Enabled")),
                    (
                        "options",
                        Json::Arr(vec![
                            tag_option("True", "LIME_DYE"),
                            tag_option("False", "RED_DYE"),
                        ]),
                    ),
                    ("defaultOption", s("True")),
                    ("slot", Json::Int(26)),
                ]),
            ]),
        ),
        ("aliases", strs(vec![])),
        (
            "icon",
            obj(vec![
                ("material", s("COMPASS")),
                ("name", s("\u{a7}9Set Reduced Debug Info Enabled")),
                ("deprecatedNote", strs(vec![])),
                (
                    "description",
                    strs(vec![
                        "When enabled, a player won't be",
                        "able to see their coordinates,",
                        "block info, or other info.",
                    ]),
                ),
                ("example", strs(vec![])),
                ("worksWith", strs(vec![])),
                ("additionalInfo", Json::Arr(vec![])),
                ("requiredRank", s("")),
                ("requireTokens", Json::Bool(false)),
                ("requireRankAndTokens", Json::Bool(false)),
                ("advanced", Json::Bool(false)),
                ("loadedItem", s("")),
                ("tags", Json::Int(1)),
                ("arguments", Json::Arr(vec![])),
                ("returnValues", Json::Arr(vec![])),
            ]),
        ),
    ])
}

#[test]
fn test_action() {
    let entries = entries_of(set_reduced_debug_action());
    let action = decode_action(&entries).unwrap();
    println!("{:#?}", action);
    assert_eq!(action.name, "SetReducedDebug");
    assert_eq!(action.codeblock_name, "PLAYER ACTION");
    assert_eq!(action.tags.len(), 1);
    assert_eq!(action.tags[0].options.len(), 2);
    assert_eq!(action.tags[0].default_option, "True");
    assert_eq!(action.tags[0].slot, 26);
    assert!(action.sub_action_blocks.is_empty());
    assert!(matches!(action.icon, ActionIconOptions::Icon(_)));
}

#[test]
fn test_action_icon() {
    let icon = obj(vec![
        ("material", s("DROPPER")),
        ("name", s("Set Hotbar Items")),
        ("deprecatedNote", strs(vec![])),
        ("description", strs(vec!["Sets items in a player's", "hotbar."])),
        ("example", strs(vec![])),
        ("worksWith", strs(vec![])),
        ("additionalInfo", Json::Arr(vec![])),
        ("requiredRank", s("")),
        ("requireTokens", Json::Bool(false)),
        ("requireRankAndTokens", Json::Bool(false)),
        ("advanced", Json::Bool(false)),
        ("loadedItem", s("")),
        ("tags", Json::Int(0)),
        (
            "arguments",
            Json::Arr(vec![
                obj(vec![
                    ("type", s("ITEM")),
                    ("plural", Json::Bool(true)),
                    ("optional", Json::Bool(false)),
                    ("description", strs(vec!["Item(s) to set"])),
                    ("notes", Json::Arr(vec![strs(vec!["Slots 1-9"])])),
                ]),
            ]),
        ),
    ]);
    let entries = entries_of(icon);
    let decoded = decode_icon_options(&entries).unwrap();
    println!("{:#?}", decoded);
    // An icon with an `arguments` entry is the argument-carrying shape; a
    // missing `returnValues` defaults to empty.
    match decoded {
        ActionIconOptions::Icon(icon) => {
            assert_eq!(icon.name, "Set Hotbar Items");
            assert_eq!(icon.arguments.len(), 1);
            assert!(icon.return_values.is_empty());
        },
        ActionIconOptions::Event(_) => panic!("expected the argument-carrying icon shape"),
    }
}

#[test]
fn test_action_args() {
    let token = entries_of(obj(vec![("text", s("OR"))]));
    let decoded = decode_arg_token(&token).unwrap();
    println!("{:#?}", decoded);
    match decoded {
        ActionArgOptions::Text { text } => assert_eq!(text, "OR"),
        ActionArgOptions::Arg(_) => panic!("expected a literal token"),
    }
}

#[test]
fn test_icon_without_arguments_is_event() {
    let entries = entries_of(option_icon("COMPASS"));
    let decoded = decode_icon_options(&entries).unwrap();
    assert!(matches!(decoded, ActionIconOptions::Event(_)));
}

#[test]
fn test_dump_not_an_object() {
    let err = decode_dump(&Json::Arr(vec![])).unwrap_err();
    assert_eq!(err, DecodeError::NotAnObject);
}

#[test]
fn test_dump_missing_actions() {
    let err = decode_dump(&obj(vec![("other", Json::Null)])).unwrap_err();
    assert_eq!(err, DecodeError::MissingActions);
}

#[test]
fn test_dump_actions_not_array() {
    let err = decode_dump(&obj(vec![("actions", Json::Int(3))])).unwrap_err();
    assert_eq!(err, DecodeError::ActionsNotArray);
}

#[test]
fn test_dump_bad_action_names_index_and_field() {
    let dump = obj(vec![
        (
            "actions",
            Json::Arr(vec![set_reduced_debug_action(), obj(vec![("name", s("Broken"))])]),
        ),
    ]);
    let err = decode_dump(&dump).unwrap_err();
    match err {
        DecodeError::BadAction { index, field } => {
            assert_eq!(index, 1);
            assert_eq!(field, "codeblockName");
        },
        _ => panic!("expected a bad-action error"),
    }
}

#[test]
fn test_dump_decodes_actions_in_order() {
    let dump = obj(vec![("actions", Json::Arr(vec![set_reduced_debug_action()]))]);
    let actions = decode_dump(&dump).unwrap();
    assert_eq!(actions.len(), 1);
    assert_eq!(actions[0].name, "SetReducedDebug");
}

#[test]
fn test_dump_skips_dynamic_unread() {
    // A `dynamic` element is skipped entirely, even when it would not
    // match the schema.
    let dump = obj(vec![
        (
            "actions",
            Json::Arr(vec![
                obj(vec![("name", s("dynamic")), ("garbage", Json::Null)]),
                set_reduced_debug_action(),
            ]),
        ),
    ]);
    let actions = decode_dump(&dump).unwrap();
    assert_eq!(actions.len(), 1);
    assert_eq!(actions[0].name, "SetReducedDebug");
}
