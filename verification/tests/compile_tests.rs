use actiongen::compile::{compile_action_dump, compile_dump, CompileError, DumpError, SubactionKind};
use actiongen::decode::DecodeError;
use actiongen::json::Json;
use actiongen::raw_types::{
    Action, ActionArg, ActionArgOptions, ActionIcon, ActionIconOptions, ActionTagIcon,
    ActionTagOption, ActionTags,
};

fn icon(display_name: &str, arguments: Vec<ActionArgOptions>) -> ActionIconOptions {
    ActionIconOptions::Icon(ActionIcon {
        material: String::new(),
        name: display_name.to_string(),
        deprecated_note: vec![],
        description: vec![],
        example: vec![],
        works_with: vec![],
        additional_info: vec![],
        required_rank: String::new(),
        require_tokens: false,
        require_rank_and_tokens: false,
        advanced: false,
        loaded_item: String::new(),
        arguments,
        return_values: vec![],
    })
}

fn typed(arg_type: &str, plural: bool, desc: &str) -> ActionArgOptions {
    ActionArgOptions::Arg(ActionArg {
        arg_type: arg_type.to_string(),
        plural,
        optional: false,
        description: vec![desc.to_string()],
        notes: vec![],
    })
}

fn action(raw_name: &str, codeblock: &str, display_name: &str) -> Action {
    Action {
        name: raw_name.to_string(),
        codeblock_name: codeblock.to_string(),
        tags: vec![],
        aliases: vec![],
        icon: icon(display_name, vec![]),
        sub_action_blocks: vec![],
    }
}

fn unit_of<'a>(
    units: &'a Vec<actiongen::compile::CodeblockUnit>,
    key: &str,
) -> &'a actiongen::compile::CodeblockUnit {
    units.iter().find(|u| u.key == key).unwrap()
}

#[test]
fn test_units_cover_the_closed_key_set() {
    let units = compile_dump(&vec![]).unwrap();
    let keys: Vec<&str> = units.iter().map(|u| u.key.as_str()).collect();
    assert_eq!(
        keys,
        vec![
            "player_event",
            "player_action",
            "if_player",
            "entity_event",
            "entity_action",
            "if_entity",
            "game_action",
            "if_game",
            "set_variable",
            "if_variable",
            "repeat",
            "control",
            "select_object",
        ],
    );
    assert_eq!(unit_of(&units, "player_action").enum_name, "PlayerAction");
    for u in &units {
        assert!(u.variants.is_empty());
        assert!(u.tag_types.is_empty());
    }
}

#[test]
fn test_actions_land_in_their_codeblock() {
    let actions = vec![
        action("GiveItems", "PLAYER ACTION", "Give Items"),
        action("IsSneaking", "IF PLAYER", "Is Sneaking"),
    ];
    let units = compile_dump(&actions).unwrap();
    let pa = unit_of(&units, "player_action");
    assert_eq!(pa.variants.len(), 1);
    assert_eq!(pa.variants[0].identifier, "GiveItems");
    assert_eq!(pa.variants[0].raw_name, "GiveItems");
    assert_eq!(pa.variants[0].raw_codeblock, "PLAYER ACTION");
    let ip = unit_of(&units, "if_player");
    assert_eq!(ip.variants.len(), 1);
    assert_eq!(ip.variants[0].identifier, "IsSneaking");
}

#[test]
fn test_dynamic_never_appears_in_any_unit() {
    let actions = vec![
        action("dynamic", "PLAYER ACTION", "Call Function"),
        action("GiveItems", "PLAYER ACTION", "Give Items"),
    ];
    let units = compile_dump(&actions).unwrap();
    for u in &units {
        for v in &u.variants {
            assert_ne!(v.raw_name, "dynamic");
        }
    }
    assert_eq!(unit_of(&units, "player_action").variants.len(), 1);
}

#[test]
fn test_unknown_arg_type_fails_the_run() {
    let actions = vec![
        action("Fine", "PLAYER ACTION", "Fine"),
        Action {
            name: "Broken".to_string(),
            codeblock_name: "PLAYER ACTION".to_string(),
            tags: vec![],
            aliases: vec![],
            icon: icon("Broken", vec![typed("BOGUS", false, "x")]),
            sub_action_blocks: vec![],
        },
    ];
    let err = compile_dump(&actions).unwrap_err();
    assert_eq!(
        err,
        CompileError::UnknownArgType {
            index: 1,
            action: "Broken".to_string(),
            arg_type: "BOGUS".to_string(),
        },
    );
}

#[test]
fn test_unknown_codeblock_fails_the_run() {
    let actions = vec![action("X", "NO SUCH BLOCK", "X")];
    let err = compile_dump(&actions).unwrap_err();
    assert_eq!(
        err,
        CompileError::UnknownCodeblock { index: 0, codeblock: "NO SUCH BLOCK".to_string() },
    );
}

#[test]
fn test_subaction_patterns() {
    let mut a = action("Outer", "PLAYER ACTION", "Outer");
    a.sub_action_blocks = vec!["if_player".to_string(), "if_var".to_string(), "if_game".to_string()];
    let units = compile_dump(&vec![a]).unwrap();
    let v = &unit_of(&units, "player_action").variants[0];
    assert_eq!(v.subaction_field, Some(SubactionKind::SelectPlayer));

    let mut b = action("Outer", "PLAYER ACTION", "Outer");
    b.sub_action_blocks = vec![
        "if_player".to_string(),
        "if_entity".to_string(),
        "if_var".to_string(),
        "if_game".to_string(),
    ];
    let units = compile_dump(&vec![b]).unwrap();
    let v = &unit_of(&units, "player_action").variants[0];
    assert_eq!(v.subaction_field, Some(SubactionKind::AllSubactions));

    let mut c = action("Outer", "ENTITY ACTION", "Outer");
    c.sub_action_blocks = vec!["if_entity".to_string(), "if_var".to_string(), "if_game".to_string()];
    let units = compile_dump(&vec![c]).unwrap();
    let v = &unit_of(&units, "entity_action").variants[0];
    assert_eq!(v.subaction_field, Some(SubactionKind::SelectEntity));
}

#[test]
fn test_unhandled_subaction_pattern_fails_loudly() {
    let mut a = action("Outer", "PLAYER ACTION", "Outer");
    a.sub_action_blocks = vec!["if_player".to_string()];
    let err = compile_dump(&vec![a]).unwrap_err();
    assert_eq!(
        err,
        CompileError::UnknownSubactionPattern { index: 0, action: "Outer".to_string() },
    );
}

#[test]
fn test_collision_within_codeblock_gets_suffix() {
    let actions = vec![
        action("Label", "PLAYER ACTION", ""),
        action("Label", "PLAYER ACTION", ""),
    ];
    let units = compile_dump(&actions).unwrap();
    let pa = unit_of(&units, "player_action");
    assert_eq!(pa.variants[0].identifier, "Label");
    assert_eq!(pa.variants[1].identifier, "LabelN");
}

#[test]
fn test_same_label_in_two_codeblocks_is_kept() {
    let actions = vec![
        action("Label", "PLAYER ACTION", ""),
        action("Label", "ENTITY ACTION", ""),
    ];
    let units = compile_dump(&actions).unwrap();
    assert_eq!(unit_of(&units, "player_action").variants[0].identifier, "Label");
    assert_eq!(unit_of(&units, "entity_action").variants[0].identifier, "Label");
}

#[test]
fn test_variant_carries_parameters_and_tags() {
    let tag = ActionTags {
        name: "Mode".to_string(),
        options: vec![
            ActionTagOption {
                name: "On".to_string(),
                icon: ActionTagIcon {
                    material: String::new(),
                    name: String::new(),
                    deprecated_note: vec![],
                    description: vec![],
                    example: vec![],
                    works_with: vec![],
                    additional_info: vec![],
                    required_rank: String::new(),
                    require_tokens: false,
                    require_rank_and_tokens: false,
                    advanced: false,
                    loaded_item: String::new(),
                },
                aliases: vec![],
            },
        ],
        default_option: "On".to_string(),
        slot: 0,
    };
    let a = Action {
        name: "SetHotbarItems".to_string(),
        codeblock_name: "PLAYER ACTION".to_string(),
        tags: vec![tag],
        aliases: vec![],
        icon: icon("Set Hotbar Items", vec![typed("ITEM", true, "Item(s) to set")]),
        sub_action_blocks: vec![],
    };
    let units = compile_dump(&vec![a]).unwrap();
    let pa = unit_of(&units, "player_action");
    let v = &pa.variants[0];
    assert_eq!(v.identifier, "SetHotbarItems");
    assert_eq!(v.parameters.len(), 1);
    assert_eq!(v.parameters[0].name, "items_to_set");
    assert_eq!(v.tag_fields.len(), 1);
    assert_eq!(v.tag_fields[0].field_ident, "mode_tag");
    assert_eq!(v.tag_fields[0].type_ident, "ModeSetHotbarItems");
    assert_eq!(pa.tag_types.len(), 1);
    assert_eq!(pa.tag_types[0].identifier, "ModeSetHotbarItems");
    assert_eq!(pa.tag_types[0].raw_tag_name, "Mode");
    assert_eq!(pa.tag_types[0].raw_action_name, "SetHotbarItems");
    assert_eq!(pa.tag_types[0].default, "On");
}

fn obj(entries: Vec<(&str, Json)>) -> Json {
    Json::Obj(entries.into_iter().map(|(k, v)| (k.to_string(), v)).collect())
}

#[test]
fn test_pipeline_rejects_bad_document_before_any_output() {
    let err = compile_action_dump(&obj(vec![("other", Json::Null)])).unwrap_err();
    assert_eq!(err, DumpError::Decode(DecodeError::MissingActions));
}

#[test]
fn test_pipeline_compiles_empty_dump() {
    let units = compile_action_dump(&obj(vec![("actions", Json::Arr(vec![]))])).unwrap();
    assert_eq!(units.len(), 13);
}
