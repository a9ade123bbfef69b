use actiongen::grammar::{resolve_arguments, ArgKind, ParamShape, ParamType, Parameter};
use actiongen::raw_types::{ActionArg, ActionArgOptions};

fn typed(arg_type: &str, plural: bool, optional: bool, desc: &str) -> ActionArgOptions {
    ActionArgOptions::Arg(ActionArg {
        arg_type: arg_type.to_string(),
        plural,
        optional,
        description: vec![desc.to_string()],
        notes: vec![],
    })
}

fn literal(text: &str) -> ActionArgOptions {
    ActionArgOptions::Text { text: text.to_string() }
}

#[test]
fn test_or_none_resolves_to_optional() {
    let toks = vec![typed("NUMBER", false, false, "Num"), literal("OR"), typed("NONE", false, false, "x")];
    let params = resolve_arguments(&toks).unwrap();
    assert_eq!(
        params,
        vec![
            Parameter {
                name: "num".to_string(),
                shape: ParamShape::Optional(ParamType::Scalar(ArgKind::Number)),
            },
        ],
    );
}

#[test]
fn test_or_resolves_to_alternation() {
    let toks = vec![typed("NUMBER", false, false, "Num"), literal("OR"), typed("TEXT", false, false, "x")];
    let params = resolve_arguments(&toks).unwrap();
    assert_eq!(
        params,
        vec![
            Parameter {
                name: "num".to_string(),
                shape: ParamShape::Plain(ParamType::Alternation(
                    Box::new(ParamType::Scalar(ArgKind::Number)),
                    ArgKind::Text,
                )),
            },
        ],
    );
}

#[test]
fn test_plural_resolves_to_list() {
    let toks = vec![typed("ITEM", true, false, "Item(s) to set")];
    let params = resolve_arguments(&toks).unwrap();
    assert_eq!(
        params,
        vec![
            Parameter {
                name: "items_to_set".to_string(),
                shape: ParamShape::List(ParamType::Scalar(ArgKind::Item)),
            },
        ],
    );
}

#[test]
fn test_alternation_chain_of_three() {
    let toks = vec![
        typed("NUMBER", false, false, "Val"),
        literal("OR"),
        typed("TEXT", false, false, "x"),
        literal("OR"),
        typed("ITEM", false, false, "y"),
    ];
    let params = resolve_arguments(&toks).unwrap();
    assert_eq!(
        params,
        vec![
            Parameter {
                name: "val".to_string(),
                shape: ParamShape::Plain(ParamType::Alternation(
                    Box::new(ParamType::Alternation(
                        Box::new(ParamType::Scalar(ArgKind::Number)),
                        ArgKind::Text,
                    )),
                    ArgKind::Item,
                )),
            },
        ],
    );
}

#[test]
fn test_or_literal_is_colour_and_case_insensitive() {
    let toks = vec![typed("NUMBER", false, false, "Num"), literal("\u{a7}aOr"), typed("NONE", false, false, "x")];
    let params = resolve_arguments(&toks).unwrap();
    assert_eq!(params.len(), 1);
    assert_eq!(
        params[0].shape,
        ParamShape::Optional(ParamType::Scalar(ArgKind::Number)),
    );
}

#[test]
fn test_plural_takes_precedence_over_optional() {
    let toks = vec![typed("ITEM", true, true, "Items")];
    let params = resolve_arguments(&toks).unwrap();
    assert_eq!(params[0].shape, ParamShape::List(ParamType::Scalar(ArgKind::Item)));
}

#[test]
fn test_stray_literal_is_skipped() {
    let toks = vec![literal("and"), typed("VECTOR", false, false, "Dir")];
    let params = resolve_arguments(&toks).unwrap();
    assert_eq!(params.len(), 1);
    assert_eq!(params[0].shape, ParamShape::Plain(ParamType::Scalar(ArgKind::Vector)));
}

#[test]
fn test_unknown_type_fails() {
    let toks = vec![typed("BOGUS", false, false, "x")];
    let err = resolve_arguments(&toks).unwrap_err();
    assert_eq!(err.arg_type, "BOGUS");
}

#[test]
fn test_unknown_type_inside_chain_fails() {
    let toks = vec![typed("NUMBER", false, false, "x"), literal("OR"), typed("BOGUS", false, false, "y")];
    let err = resolve_arguments(&toks).unwrap_err();
    assert_eq!(err.arg_type, "BOGUS");
}

#[test]
fn test_bare_none_is_unknown() {
    let toks = vec![typed("NONE", false, false, "x")];
    let err = resolve_arguments(&toks).unwrap_err();
    assert_eq!(err.arg_type, "NONE");
}

#[test]
fn test_all_nineteen_types_resolve() {
    let names = [
        "NUMBER", "TEXT", "COMPONENT", "LOCATION", "ITEM", "PARTICLE", "VECTOR", "SOUND",
        "BLOCK", "BLOCK_TAG", "PROJECTILE", "POTION", "SPAWN_EGG", "ENTITY_TYPE", "VARIABLE",
        "ANY_TYPE", "DICT", "LIST", "VEHICLE",
    ];
    for n in names {
        let toks = vec![typed(n, false, false, "x")];
        assert!(resolve_arguments(&toks).is_ok(), "type {} should resolve", n);
    }
}
