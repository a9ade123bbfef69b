//! The codeblock aggregator and variant emitter: the whole dump becomes one
//! generated unit per codeblock.
//!
//! Per action: its identifier is resolved against the run-wide collision
//! set, its argument grammar becomes the parameter list, each of its tags
//! becomes a generated option type and a field, and its `sub_action_blocks`
//! become a chooser field when they match one of the three known patterns
//! — any other non-empty pattern fails the run.  An action whose raw name
//! is `dynamic` is skipped entirely.  The run either completes the full
//! dump or fails outright with a diagnostic naming the offending action.

use vstd::prelude::*;
use vstd::string::StringExecFns;
use crate::grammar::{
    resolve_args_model, resolve_arguments, Parameter, ParameterModel,
};
use crate::names::{
    resolve_name, resolve_name_model, NameKeyModel, UsedNames, used_contains,
};
use crate::raw_types::{Action, ActionModel, ActionIconOptions, ActionIconOptionsModel,
    ActionArgOptionsModel};
use crate::sanitize::{
    camel_seq, codeblock_key, codeblock_key_seq, field_ident_seq, format_name_seq,
    snake_to_camel_case,
};
use crate::strutil::str_eq;
use crate::decode::{decode_dump, DecodeError, DecodeErrorModel};
use crate::json::Json;
use crate::tags::{
    synthesize_tag, synthesize_tag_model, GeneratedTagType, GeneratedTagTypeModel, TagRecordModel,
    TagSet,
};

verus! {

/// The three known subaction chooser types.
#[derive(Clone, Copy, Debug, PartialEq, Eq, Structural)]
pub enum SubactionKind {
    SelectEntity,
    SelectPlayer,
    AllSubactions,
}

/// Ghost model of [`TagFieldRef`].
pub ghost struct TagFieldModel {
    pub field_ident: Seq<char>,
    pub type_ident: Seq<char>,
}

/// One tag field of a generated variant: its field identifier and the
/// identifier of its generated option type.
#[derive(Debug)]
pub struct TagFieldRef {
    pub field_ident: String,
    pub type_ident: String,
}

impl DeepView for TagFieldRef {
    type V = TagFieldModel;

    open spec fn deep_view(&self) -> TagFieldModel {
        TagFieldModel { field_ident: self.field_ident@, type_ident: self.type_ident@ }
    }
}

/// Ghost model of [`GeneratedVariant`].
pub ghost struct GeneratedVariantModel {
    pub identifier: Seq<char>,
    pub raw_name: Seq<char>,
    pub raw_codeblock: Seq<char>,
    pub subaction_field: Option<SubactionKind>,
    pub parameters: Seq<ParameterModel>,
    pub tag_fields: Seq<TagFieldModel>,
}

/// One generated variant: everything a valid invocation of the action
/// carries.
#[derive(Debug)]
pub struct GeneratedVariant {
    /// The resolved identifier, unique within the codeblock.
    pub identifier: String,
    /// The raw action name, echoed verbatim by the serializer.
    pub raw_name: String,
    /// The raw codeblock name of the owning action.
    pub raw_codeblock: String,
    /// The chooser field, where the action embeds a subaction.
    pub subaction_field: Option<SubactionKind>,
    /// The positional parameters, in original order, before the tags.
    pub parameters: Vec<Parameter>,
    /// The tag fields, in tag declaration order.
    pub tag_fields: Vec<TagFieldRef>,
}

impl DeepView for GeneratedVariant {
    type V = GeneratedVariantModel;

    open spec fn deep_view(&self) -> GeneratedVariantModel {
        GeneratedVariantModel {
            identifier: self.identifier@,
            raw_name: self.raw_name@,
            raw_codeblock: self.raw_codeblock@,
            subaction_field: self.subaction_field,
            parameters: self.parameters.deep_view(),
            tag_fields: self.tag_fields.deep_view(),
        }
    }
}

/// Ghost model of [`CodeblockUnit`].
pub ghost struct CodeblockUnitModel {
    pub key: Seq<char>,
    pub enum_name: Seq<char>,
    pub variants: Seq<GeneratedVariantModel>,
    pub tag_types: Seq<GeneratedTagTypeModel>,
}

/// One generated unit: the sum type and serializer of one codeblock, with
/// its auxiliary tag option types.
#[derive(Debug)]
pub struct CodeblockUnit {
    pub key: String,
    pub enum_name: String,
    pub variants: Vec<GeneratedVariant>,
    pub tag_types: Vec<GeneratedTagType>,
}

impl DeepView for CodeblockUnit {
    type V = CodeblockUnitModel;

    open spec fn deep_view(&self) -> CodeblockUnitModel {
        CodeblockUnitModel {
            key: self.key@,
            enum_name: self.enum_name@,
            variants: self.variants.deep_view(),
            tag_types: self.tag_types.deep_view(),
        }
    }
}

/// Ghost model of [`CompileError`].
pub ghost enum CompileErrorModel {
    UnknownArgType { index: int, action: Seq<char>, arg_type: Seq<char> },
    UnknownSubactionPattern { index: int, action: Seq<char> },
    UnknownCodeblock { index: int, codeblock: Seq<char> },
}

/// A fatal compilation error, naming the offending action.
#[derive(Debug, PartialEq, Eq)]
pub enum CompileError {
    /// An argument type string outside the fixed enumerated set.
    UnknownArgType { index: usize, action: String, arg_type: String },
    /// A `sub_action_blocks` value outside the three known patterns.
    UnknownSubactionPattern { index: usize, action: String },
    /// A codeblock name outside the closed key set.
    UnknownCodeblock { index: usize, codeblock: String },
}

impl DeepView for CompileError {
    type V = CompileErrorModel;

    open spec fn deep_view(&self) -> CompileErrorModel {
        match self {
            CompileError::UnknownArgType { index, action, arg_type } =>
                CompileErrorModel::UnknownArgType {
                index: *index as int,
                action: action@,
                arg_type: arg_type@,
            },
            CompileError::UnknownSubactionPattern { index, action } =>
                CompileErrorModel::UnknownSubactionPattern { index: *index as int, action: action@ },
            CompileError::UnknownCodeblock { index, codeblock } =>
                CompileErrorModel::UnknownCodeblock { index: *index as int, codeblock: codeblock@ },
        }
    }
}

/// The chooser type selected by a `sub_action_blocks` pattern: nothing for
/// an empty list, a known chooser for the three fixed patterns, and a
/// failure for any other pattern.
pub open spec fn subaction_kind_model(blocks: Seq<Seq<char>>) -> Result<
    Option<SubactionKind>,
    (),
> {
    if blocks.len() == 0 {
        Ok(None)
    } else if blocks == seq!["if_entity"@, "if_var"@, "if_game"@] {
        Ok(Some(SubactionKind::SelectEntity))
    } else if blocks == seq!["if_player"@, "if_var"@, "if_game"@] {
        Ok(Some(SubactionKind::SelectPlayer))
    } else if blocks == seq!["if_player"@, "if_entity"@, "if_var"@, "if_game"@] {
        Ok(Some(SubactionKind::AllSubactions))
    } else {
        Err(())
    }
}

fn blocks_match3(blocks: &Vec<String>, a: &str, b: &str, c: &str) -> (r: bool)
    ensures
        r == (blocks.deep_view() == seq![a@, b@, c@]),
{
    if blocks.len() != 3 {
        return false;
    }
    let r = str_eq(blocks[0].as_str(), a) && str_eq(blocks[1].as_str(), b) && str_eq(
        blocks[2].as_str(),
        c,
    );
    proof {
        if r {
            assert(blocks.deep_view() =~= seq![a@, b@, c@]);
        }
    }
    r
}

fn blocks_match4(blocks: &Vec<String>, a: &str, b: &str, c: &str, d: &str) -> (r: bool)
    ensures
        r == (blocks.deep_view() == seq![a@, b@, c@, d@]),
{
    if blocks.len() != 4 {
        return false;
    }
    let r = str_eq(blocks[0].as_str(), a) && str_eq(blocks[1].as_str(), b) && str_eq(
        blocks[2].as_str(),
        c,
    ) && str_eq(blocks[3].as_str(), d);
    proof {
        if r {
            assert(blocks.deep_view() =~= seq![a@, b@, c@, d@]);
        }
    }
    r
}

/// The chooser type selected by a `sub_action_blocks` pattern.
pub fn subaction_kind(blocks: &Vec<String>) -> (r: Result<Option<SubactionKind>, ()>)
    ensures
        r == subaction_kind_model(blocks.deep_view()),
{
    if blocks.len() == 0 {
        Ok(None)
    } else if blocks_match3(blocks, "if_entity", "if_var", "if_game") {
        Ok(Some(SubactionKind::SelectEntity))
    } else if blocks_match3(blocks, "if_player", "if_var", "if_game") {
        Ok(Some(SubactionKind::SelectPlayer))
    } else if blocks_match4(blocks, "if_player", "if_entity", "if_var", "if_game") {
        Ok(Some(SubactionKind::AllSubactions))
    } else {
        Err(())
    }
}

/// The argument token stream of an action: its icon's, or nothing for the
/// argument-less event shape.
pub open spec fn action_arguments(a: ActionModel) -> Seq<ActionArgOptionsModel> {
    match a.icon {
        ActionIconOptionsModel::Icon(i) => i.arguments,
        ActionIconOptionsModel::Event(e) => Seq::empty(),
    }
}

/// The tag records one action contributes to the run-wide record.
pub open spec fn tag_records_model(a: ActionModel) -> Seq<TagRecordModel> {
    a.tags.map_values(
        |t: crate::raw_types::ActionTagsModel|
            TagRecordModel { name: t.name, action_name: a.name, block_name: a.codeblock_name },
    )
}

/// The generated option types of one action, in tag declaration order.
pub open spec fn tag_types_model(a: ActionModel, ident: Seq<char>) -> Seq<GeneratedTagTypeModel> {
    a.tags.map_values(
        |t: crate::raw_types::ActionTagsModel| synthesize_tag_model(t, ident, a.name),
    )
}

/// The tag fields of one action's variant, in tag declaration order.
pub open spec fn tag_fields_model(a: ActionModel, ident: Seq<char>) -> Seq<TagFieldModel> {
    a.tags.map_values(
        |t: crate::raw_types::ActionTagsModel|
            TagFieldModel {
                field_ident: field_ident_seq(t.name) + "_tag"@,
                type_ident: format_name_seq(t.name) + ident,
            },
    )
}

/// Ghost model of [`GenError`].
pub ghost enum GenErrorModel {
    UnknownArgType { arg_type: Seq<char> },
    UnknownSubactionPattern,
}

/// A failure while generating one variant.
#[derive(Debug, PartialEq, Eq)]
pub enum GenError {
    UnknownArgType { arg_type: String },
    UnknownSubactionPattern,
}

impl DeepView for GenError {
    type V = GenErrorModel;

    open spec fn deep_view(&self) -> GenErrorModel {
        match self {
            GenError::UnknownArgType { arg_type } => GenErrorModel::UnknownArgType {
                arg_type: arg_type@,
            },
            GenError::UnknownSubactionPattern => GenErrorModel::UnknownSubactionPattern,
        }
    }
}

/// The variant and option types generated for one action, given the
/// collision set.
pub open spec fn gen_variant_model(a: ActionModel, used: Seq<NameKeyModel>) -> Result<
    (GeneratedVariantModel, Seq<GeneratedTagTypeModel>),
    GenErrorModel,
> {
    let ident = resolve_name_model(a, used);
    match resolve_args_model(action_arguments(a)) {
        Err(t) => Err(GenErrorModel::UnknownArgType { arg_type: t }),
        Ok(ps) => match subaction_kind_model(a.sub_action_blocks) {
            Err(u) => Err(GenErrorModel::UnknownSubactionPattern),
            Ok(sub) => Ok(
                (
                    GeneratedVariantModel {
                        identifier: ident,
                        raw_name: a.name,
                        raw_codeblock: a.codeblock_name,
                        subaction_field: sub,
                        parameters: ps,
                        tag_fields: tag_fields_model(a, ident),
                    },
                    tag_types_model(a, ident),
                ),
            ),
        },
    }
}

/// Generates one action's variant and option types, updating the collision
/// set and the tag record.
pub fn gen_variant(action: &Action, used: &mut UsedNames, tags: &mut TagSet) -> (r: Result<
    (GeneratedVariant, Vec<GeneratedTagType>),
    GenError,
>)
    ensures
        final(used)@ == old(used)@.push(
            NameKeyModel {
                name: resolve_name_model(action.deep_view(), old(used)@),
                codeblock: action.codeblock_name@,
            },
        ),
        match r {
            Ok(out) => gen_variant_model(action.deep_view(), old(used)@) == Ok::<
                (GeneratedVariantModel, Seq<GeneratedTagTypeModel>),
                GenErrorModel,
            >((out.0.deep_view(), out.1.deep_view())) && final(tags)@ == old(tags)@
                + tag_records_model(action.deep_view()),
            Err(e) => gen_variant_model(action.deep_view(), old(used)@) == Err::<
                (GeneratedVariantModel, Seq<GeneratedTagTypeModel>),
                GenErrorModel,
            >(e.deep_view()),
        },
{
    let ghost am = action.deep_view();
    let name = resolve_name(action, used);
    let ghost nm = name@;
    let params: Vec<Parameter> = match &action.icon {
        ActionIconOptions::Icon(icon) => {
            match resolve_arguments(&icon.arguments) {
                Ok(ps) => ps,
                Err(e) => {
                    return Err(GenError::UnknownArgType { arg_type: e.arg_type });
                },
            }
        },
        ActionIconOptions::Event(_) => {
            let empty_params: Vec<Parameter> = Vec::new();
            proof {
                assert(empty_params.deep_view() =~= Seq::<ParameterModel>::empty());
                assert(action_arguments(am) =~= Seq::<ActionArgOptionsModel>::empty());
            }
            empty_params
        },
    };
    let mut tag_types: Vec<GeneratedTagType> = Vec::new();
    let mut tag_fields: Vec<TagFieldRef> = Vec::new();
    let ghost tags0 = tags@;
    let mut i: usize = 0;
    while i < action.tags.len()
        invariant
            i <= action.tags.len(),
            am == action.deep_view(),
            nm == name@,
            am.tags.len() == action.tags.len(),
            forall|k: int| 0 <= k < am.tags.len() ==> am.tags[k] == action.tags@[k].deep_view(),
            tag_types.deep_view() =~= am.tags.subrange(0, i as int).map_values(
                |t: crate::raw_types::ActionTagsModel| synthesize_tag_model(t, nm, am.name),
            ),
            tag_fields.deep_view() =~= am.tags.subrange(0, i as int).map_values(
                |t: crate::raw_types::ActionTagsModel|
                    TagFieldModel {
                        field_ident: field_ident_seq(t.name) + "_tag"@,
                        type_ident: format_name_seq(t.name) + nm,
                    },
            ),
            tags@ =~= tags0 + am.tags.subrange(0, i as int).map_values(
                |t: crate::raw_types::ActionTagsModel|
                    TagRecordModel {
                        name: t.name,
                        action_name: am.name,
                        block_name: am.codeblock_name,
                    },
            ),
        decreases action.tags.len() - i,
    {
        let t = &action.tags[i];
        let ghost prev_types = tag_types.deep_view();
        let ghost prev_fields = tag_fields.deep_view();
        let ghost prev_recs = tags@;
        let tt = synthesize_tag(t, name.as_str(), action.name.as_str());
        tags.record(t.name.as_str(), action.name.as_str(), action.codeblock_name.as_str());
        tag_fields.push(
            TagFieldRef { field_ident: tt.field_ident.clone(), type_ident: tt.identifier.clone() },
        );
        tag_types.push(tt);
        proof {
            let ghost tm = am.tags[i as int];
            assert(am.tags.subrange(0, i as int + 1).drop_last() =~= am.tags.subrange(0, i as int));
            assert(am.tags.subrange(0, i as int + 1).last() == tm);
            assert(tag_types.deep_view() =~= prev_types.push(synthesize_tag_model(tm, nm, am.name)));
            assert(am.tags.subrange(0, i as int + 1).map_values(
                |t0: crate::raw_types::ActionTagsModel| synthesize_tag_model(t0, nm, am.name),
            ) =~= am.tags.subrange(0, i as int).map_values(
                |t0: crate::raw_types::ActionTagsModel| synthesize_tag_model(t0, nm, am.name),
            ).push(synthesize_tag_model(tm, nm, am.name)));
            assert(tag_fields.deep_view() =~= prev_fields.push(
                TagFieldModel {
                    field_ident: field_ident_seq(tm.name) + "_tag"@,
                    type_ident: format_name_seq(tm.name) + nm,
                },
            ));
            assert(am.tags.subrange(0, i as int + 1).map_values(
                |t0: crate::raw_types::ActionTagsModel|
                    TagFieldModel {
                        field_ident: field_ident_seq(t0.name) + "_tag"@,
                        type_ident: format_name_seq(t0.name) + nm,
                    },
            ) =~= am.tags.subrange(0, i as int).map_values(
                |t0: crate::raw_types::ActionTagsModel|
                    TagFieldModel {
                        field_ident: field_ident_seq(t0.name) + "_tag"@,
                        type_ident: format_name_seq(t0.name) + nm,
                    },
            ).push(
                TagFieldModel {
                    field_ident: field_ident_seq(tm.name) + "_tag"@,
                    type_ident: format_name_seq(tm.name) + nm,
                },
            ));
            assert(tags@ =~= prev_recs.push(
                TagRecordModel { name: tm.name, action_name: am.name, block_name: am.codeblock_name },
            ));
            assert(am.tags.subrange(0, i as int + 1).map_values(
                |t0: crate::raw_types::ActionTagsModel|
                    TagRecordModel {
                        name: t0.name,
                        action_name: am.name,
                        block_name: am.codeblock_name,
                    },
            ) =~= am.tags.subrange(0, i as int).map_values(
                |t0: crate::raw_types::ActionTagsModel|
                    TagRecordModel {
                        name: t0.name,
                        action_name: am.name,
                        block_name: am.codeblock_name,
                    },
            ).push(
                TagRecordModel { name: tm.name, action_name: am.name, block_name: am.codeblock_name },
            ));
            assert(tags@ =~= tags0 + am.tags.subrange(0, i as int + 1).map_values(
                |t0: crate::raw_types::ActionTagsModel|
                    TagRecordModel {
                        name: t0.name,
                        action_name: am.name,
                        block_name: am.codeblock_name,
                    },
            ));
        }
        i = i + 1;
    }
    proof {
        assert(am.tags.subrange(0, am.tags.len() as int) =~= am.tags);
    }
    let sub = match subaction_kind(&action.sub_action_blocks) {
        Ok(s) => s,
        Err(_) => {
            return Err(GenError::UnknownSubactionPattern);
        },
    };
    let variant = GeneratedVariant {
        identifier: name,
        raw_name: action.name.clone(),
        raw_codeblock: action.codeblock_name.clone(),
        subaction_field: sub,
        parameters: params,
        tag_fields,
    };
    Ok((variant, tag_types))
}


/// The closed set of codeblock keys, in emission order.
pub open spec fn codeblock_keys() -> Seq<Seq<char>> {
    seq![
        "player_event"@,
        "player_action"@,
        "if_player"@,
        "entity_event"@,
        "entity_action"@,
        "if_entity"@,
        "game_action"@,
        "if_game"@,
        "set_variable"@,
        "if_variable"@,
        "repeat"@,
        "control"@,
        "select_object"@,
    ]
}

/// A unit with no variants yet.
pub open spec fn empty_unit_model(key: Seq<char>) -> CodeblockUnitModel {
    CodeblockUnitModel {
        key,
        enum_name: camel_seq(key, true),
        variants: Seq::empty(),
        tag_types: Seq::empty(),
    }
}

/// One empty unit per codeblock key, in emission order.
pub open spec fn init_units_model() -> Seq<CodeblockUnitModel> {
    codeblock_keys().map_values(|k: Seq<char>| empty_unit_model(k))
}

/// The index of the unit with `key`, searching from `from`.
pub open spec fn find_unit_from(
    units: Seq<CodeblockUnitModel>,
    key: Seq<char>,
    from: int,
) -> Option<int>
    decreases units.len() - from,
{
    if from < 0 || from >= units.len() {
        None
    } else if units[from].key == key {
        Some(from)
    } else {
        find_unit_from(units, key, from + 1)
    }
}

/// A found unit carries the key it was found under.
pub proof fn lemma_find_unit(units: Seq<CodeblockUnitModel>, key: Seq<char>, from: int)
    ensures
        match find_unit_from(units, key, from) {
            Some(u) => from <= u < units.len() && units[u].key == key,
            None => true,
        },
    decreases units.len() - from,
{
    if 0 <= from < units.len() && units[from].key != key {
        lemma_find_unit(units, key, from + 1);
    }
}

/// `unit` with one more variant and its option types.
pub open spec fn add_to_unit(
    u: CodeblockUnitModel,
    v: GeneratedVariantModel,
    tt: Seq<GeneratedTagTypeModel>,
) -> CodeblockUnitModel {
    CodeblockUnitModel {
        key: u.key,
        enum_name: u.enum_name,
        variants: u.variants.push(v),
        tag_types: u.tag_types + tt,
    }
}

/// The whole compilation, one action at a time from index `i`: actions
/// named `dynamic` are skipped; every other action lands in the unit of
/// its codeblock key or fails the run.
pub open spec fn compile_fold(
    actions: Seq<ActionModel>,
    i: int,
    units: Seq<CodeblockUnitModel>,
    used: Seq<NameKeyModel>,
) -> Result<Seq<CodeblockUnitModel>, CompileErrorModel>
    decreases actions.len() - i,
{
    if i < 0 || i >= actions.len() {
        Ok(units)
    } else {
        let a = actions[i];
        if a.name == "dynamic"@ {
            compile_fold(actions, i + 1, units, used)
        } else {
            match find_unit_from(units, codeblock_key_seq(a.codeblock_name), 0) {
                None => Err(
                    CompileErrorModel::UnknownCodeblock { index: i, codeblock: a.codeblock_name },
                ),
                Some(u) => match gen_variant_model(a, used) {
                    Err(GenErrorModel::UnknownArgType { arg_type }) => Err(
                        CompileErrorModel::UnknownArgType { index: i, action: a.name, arg_type },
                    ),
                    Err(GenErrorModel::UnknownSubactionPattern) => Err(
                        CompileErrorModel::UnknownSubactionPattern { index: i, action: a.name },
                    ),
                    Ok(out) => compile_fold(
                        actions,
                        i + 1,
                        units.update(u, add_to_unit(units[u], out.0, out.1)),
                        used.push(NameKeyModel { name: out.0.identifier, codeblock: a.codeblock_name }),
                    ),
                },
            }
        }
    }
}

fn make_unit(key: &str) -> (r: CodeblockUnit)
    ensures
        r.deep_view() == empty_unit_model(key@),
{
    let r = CodeblockUnit {
        key: String::from_str(key),
        enum_name: snake_to_camel_case(key),
        variants: Vec::new(),
        tag_types: Vec::new(),
    };
    proof {
        assert(r.deep_view().variants =~= Seq::<GeneratedVariantModel>::empty());
        assert(r.deep_view().tag_types =~= Seq::<GeneratedTagTypeModel>::empty());
    }
    r
}

fn init_units() -> (r: Vec<CodeblockUnit>)
    ensures
        r.deep_view() == init_units_model(),
{
    let mut r: Vec<CodeblockUnit> = Vec::new();
    r.push(make_unit("player_event"));
    r.push(make_unit("player_action"));
    r.push(make_unit("if_player"));
    r.push(make_unit("entity_event"));
    r.push(make_unit("entity_action"));
    r.push(make_unit("if_entity"));
    r.push(make_unit("game_action"));
    r.push(make_unit("if_game"));
    r.push(make_unit("set_variable"));
    r.push(make_unit("if_variable"));
    r.push(make_unit("repeat"));
    r.push(make_unit("control"));
    r.push(make_unit("select_object"));
    proof {
        assert(r.deep_view() =~= init_units_model());
    }
    r
}

fn find_unit(units: &Vec<CodeblockUnit>, key: &str) -> (r: Option<usize>)
    ensures
        match r {
            Some(u) => find_unit_from(units.deep_view(), key@, 0) == Some(u as int),
            None => find_unit_from(units.deep_view(), key@, 0) is None,
        },
{
    let ghost m = units.deep_view();
    let mut i: usize = 0;
    while i < units.len()
        invariant
            i <= units.len(),
            m == units.deep_view(),
            m.len() == units.len(),
            forall|k: int| 0 <= k < m.len() ==> m[k] == units@[k].deep_view(),
            find_unit_from(m, key@, 0) == find_unit_from(m, key@, i as int),
        decreases units.len() - i,
    {
        if str_eq(units[i].key.as_str(), key) {
            return Some(i);
        }
        i = i + 1;
    }
    None
}

/// Compiles the whole dump into one generated unit per codeblock, in the
/// closed key order, or fails on the first offending action with no
/// output.
pub fn compile_dump(actions: &Vec<Action>) -> (r: Result<Vec<CodeblockUnit>, CompileError>)
    ensures
        match r {
            Ok(units) => compile_fold(
                actions.deep_view(),
                0,
                init_units_model(),
                Seq::empty(),
            ) == Ok::<Seq<CodeblockUnitModel>, CompileErrorModel>(units.deep_view()),
            Err(e) => compile_fold(actions.deep_view(), 0, init_units_model(), Seq::empty())
                == Err::<Seq<CodeblockUnitModel>, CompileErrorModel>(e.deep_view()),
        },
{
    let mut units = init_units();
    let mut used = UsedNames::new();
    let mut tags = TagSet::new();
    let ghost am = actions.deep_view();
    let mut i: usize = 0;
    while i < actions.len()
        invariant
            i <= actions.len(),
            am == actions.deep_view(),
            am.len() == actions.len(),
            forall|k: int| 0 <= k < am.len() ==> am[k] == actions@[k].deep_view(),
            compile_fold(am, 0, init_units_model(), Seq::<NameKeyModel>::empty()) == compile_fold(
                am,
                i as int,
                units.deep_view(),
                used@,
            ),
        decreases actions.len() - i,
    {
        let action = &actions[i];
        if str_eq(action.name.as_str(), "dynamic") {
            i = i + 1;
            continue ;
        }
        let key = codeblock_key(action.codeblock_name.as_str());
        let u = match find_unit(&units, key.as_str()) {
            Some(u) => u,
            None => {
                return Err(
                    CompileError::UnknownCodeblock {
                        index: i,
                        codeblock: action.codeblock_name.clone(),
                    },
                );
            },
        };
        proof {
            lemma_find_unit(units.deep_view(), key@, 0);
        }
        let ghost units_before = units.deep_view();
        match gen_variant(action, &mut used, &mut tags) {
            Err(GenError::UnknownArgType { arg_type }) => {
                return Err(
                    CompileError::UnknownArgType {
                        index: i,
                        action: action.name.clone(),
                        arg_type,
                    },
                );
            },
            Err(GenError::UnknownSubactionPattern) => {
                return Err(
                    CompileError::UnknownSubactionPattern { index: i, action: action.name.clone() },
                );
            },
            Ok((v, tt)) => {
                let ghost vm = v.deep_view();
                let ghost ttm = tt.deep_view();
                let mut unit = units.remove(u);
                let ghost um = unit.deep_view();
                unit.variants.push(v);
                let mut tt_in = tt;
                unit.tag_types.append(&mut tt_in);
                proof {
                    assert(unit.deep_view().variants =~= um.variants.push(vm));
                    assert(unit.deep_view().tag_types =~= um.tag_types + ttm);
                    assert(unit.deep_view() == add_to_unit(um, vm, ttm));
                }
                units.insert(u, unit);
                proof {
                    assert(units.deep_view() =~= units_before.update(
                        u as int,
                        add_to_unit(units_before[u as int], vm, ttm),
                    ));
                }
            },
        }
        i = i + 1;
    }
    proof {
        assert(compile_fold(am, i as int, units.deep_view(), used@) == Ok::<
            Seq<CodeblockUnitModel>,
            CompileErrorModel,
        >(units.deep_view()));
    }
    Ok(units)
}


/// Whether some typed token of the action's grammar declares a type
/// outside the enumerated set.
pub open spec fn action_has_bad_arg(a: ActionModel) -> bool {
    crate::grammar::has_bad_token(action_arguments(a))
}

/// An action whose grammar declares an unrecognized argument type fails
/// the whole run: no unit list is ever produced.
pub proof fn lemma_unknown_arg_type_fails(
    actions: Seq<ActionModel>,
    i: int,
    units: Seq<CodeblockUnitModel>,
    used: Seq<NameKeyModel>,
)
    requires
        0 <= i,
        exists|j: int|
            i <= j < actions.len() && actions[j].name != "dynamic"@ && action_has_bad_arg(
                actions[j],
            ),
    ensures
        compile_fold(actions, i, units, used) is Err,
    decreases actions.len() - i,
{
    let j = choose|j: int|
        i <= j < actions.len() && actions[j].name != "dynamic"@ && action_has_bad_arg(actions[j]);
    let a = actions[i];
    if a.name == "dynamic"@ {
        assert(j >= i + 1);
        lemma_unknown_arg_type_fails(actions, i + 1, units, used);
    } else {
        match find_unit_from(units, codeblock_key_seq(a.codeblock_name), 0) {
            None => {},
            Some(u) => {
                lemma_find_unit(units, codeblock_key_seq(a.codeblock_name), 0);
                match gen_variant_model(a, used) {
                    Err(e) => {},
                    Ok(out) => {
                        if i == j {
                            crate::grammar::lemma_bad_token_fails(action_arguments(a));
                            assert(false);
                        } else {
                            lemma_unknown_arg_type_fails(
                                actions,
                                i + 1,
                                units.update(u, add_to_unit(units[u], out.0, out.1)),
                                used.push(
                                    NameKeyModel {
                                        name: out.0.identifier,
                                        codeblock: a.codeblock_name,
                                    },
                                ),
                            );
                        }
                    },
                }
            },
        }
    }
}

/// No variant of any unit carries the reserved raw name `dynamic`.
pub open spec fn no_dynamic_variants(units: Seq<CodeblockUnitModel>) -> bool {
    forall|u: int, v: int|
        0 <= u < units.len() && 0 <= v < units[u].variants.len() ==> (#[trigger] units[u].variants[v]).raw_name
            != "dynamic"@
}

/// An action whose raw name is `dynamic` never appears in any generated
/// unit.
pub proof fn lemma_no_dynamic(
    actions: Seq<ActionModel>,
    i: int,
    units: Seq<CodeblockUnitModel>,
    used: Seq<NameKeyModel>,
)
    requires
        no_dynamic_variants(units),
    ensures
        match compile_fold(actions, i, units, used) {
            Ok(funits) => no_dynamic_variants(funits),
            Err(e) => true,
        },
    decreases actions.len() - i,
{
    if i < 0 || i >= actions.len() {
    } else {
        let a = actions[i];
        if a.name == "dynamic"@ {
            lemma_no_dynamic(actions, i + 1, units, used);
        } else {
            match find_unit_from(units, codeblock_key_seq(a.codeblock_name), 0) {
                None => {},
                Some(u) => {
                    lemma_find_unit(units, codeblock_key_seq(a.codeblock_name), 0);
                    match gen_variant_model(a, used) {
                        Err(e) => {},
                        Ok(out) => {
                            let next = units.update(u, add_to_unit(units[u], out.0, out.1));
                            assert(out.0.raw_name == a.name);
                            assert forall|u2: int, v: int|
                                0 <= u2 < next.len() && 0 <= v < next[u2].variants.len() implies (
                            #[trigger] next[u2].variants[v]).raw_name != "dynamic"@ by {
                                if u2 == u && v == next[u2].variants.len() - 1 {
                                } else {
                                    assert(next[u2].variants[v] == units[u2].variants[v]);
                                }
                            }
                            lemma_no_dynamic(
                                actions,
                                i + 1,
                                next,
                                used.push(
                                    NameKeyModel {
                                        name: out.0.identifier,
                                        codeblock: a.codeblock_name,
                                    },
                                ),
                            );
                        },
                    }
                },
            }
        }
    }
}

/// Every variant's composite key stands in the collision set.
pub open spec fn units_recorded(units: Seq<CodeblockUnitModel>, used: Seq<NameKeyModel>) -> bool {
    forall|u: int, v: int|
        0 <= u < units.len() && 0 <= v < units[u].variants.len() ==> used_contains(
            used,
            (#[trigger] units[u].variants[v]).identifier,
            units[u].variants[v].raw_codeblock,
        )
}

/// Within one codeblock, variant identifiers are pairwise distinct — except
/// that a later variant whose identifier is its sanitized raw name with the
/// `N` suffix may duplicate an earlier one: the known single-retry defect.
pub open spec fn identifiers_distinct(units: Seq<CodeblockUnitModel>) -> bool {
    forall|u: int, i: int, j: int|
        0 <= u < units.len() && 0 <= i < j < units[u].variants.len()
            && (#[trigger] units[u].variants[i]).raw_codeblock == (
        #[trigger] units[u].variants[j]).raw_codeblock ==> units[u].variants[i].identifier
            != units[u].variants[j].identifier || units[u].variants[j].identifier
            == format_name_seq(units[u].variants[j].raw_name) + seq!['N']
}

/// The resolver yields a fresh key, or the suffixed fallback name.
proof fn lemma_resolve_fresh_or_defect(a: ActionModel, used: Seq<NameKeyModel>)
    ensures
        !used_contains(used, resolve_name_model(a, used), a.codeblock_name)
            || resolve_name_model(a, used) == format_name_seq(a.name) + seq!['N'],
{
}

proof fn lemma_distinct_helper(
    actions: Seq<ActionModel>,
    i: int,
    units: Seq<CodeblockUnitModel>,
    used: Seq<NameKeyModel>,
)
    requires
        units_recorded(units, used),
        identifiers_distinct(units),
    ensures
        match compile_fold(actions, i, units, used) {
            Ok(funits) => identifiers_distinct(funits),
            Err(e) => true,
        },
    decreases actions.len() - i,
{
    if i < 0 || i >= actions.len() {
    } else {
        let a = actions[i];
        if a.name == "dynamic"@ {
            lemma_distinct_helper(actions, i + 1, units, used);
        } else {
            match find_unit_from(units, codeblock_key_seq(a.codeblock_name), 0) {
                None => {},
                Some(u) => {
                    lemma_find_unit(units, codeblock_key_seq(a.codeblock_name), 0);
                    match gen_variant_model(a, used) {
                        Err(e) => {},
                        Ok(out) => {
                            let vm = out.0;
                            assert(vm.identifier == resolve_name_model(a, used));
                            assert(vm.raw_codeblock == a.codeblock_name);
                            assert(vm.raw_name == a.name);
                            let next = units.update(u, add_to_unit(units[u], vm, out.1));
                            let key = NameKeyModel {
                                name: vm.identifier,
                                codeblock: a.codeblock_name,
                            };
                            let used2 = used.push(key);
                            assert forall|n: Seq<char>, c: Seq<char>|
                                used_contains(used, n, c) implies used_contains(used2, n, c) by {
                                let w = choose|k: int|
                                    0 <= k < used.len() && used[k].name == n && used[k].codeblock
                                        == c;
                                assert(used2[w].name == n && used2[w].codeblock == c);
                            }
                            assert(used_contains(used2, vm.identifier, vm.raw_codeblock)) by {
                                assert(used2[used.len() as int] == key);
                            }
                            assert forall|u2: int, v: int|
                                0 <= u2 < next.len() && 0 <= v < next[u2].variants.len() implies
                                used_contains(
                                used2,
                                (#[trigger] next[u2].variants[v]).identifier,
                                next[u2].variants[v].raw_codeblock,
                            ) by {
                                if u2 == u && v == next[u2].variants.len() - 1 {
                                } else {
                                    assert(next[u2].variants[v] == units[u2].variants[v]);
                                }
                            }
                            lemma_resolve_fresh_or_defect(a, used);
                            assert forall|u2: int, i2: int, j2: int|
                                0 <= u2 < next.len() && 0 <= i2 < j2 < next[u2].variants.len()
                                    && (#[trigger] next[u2].variants[i2]).raw_codeblock == (
                            #[trigger] next[u2].variants[j2]).raw_codeblock implies next[u2].variants[i2].identifier
                                != next[u2].variants[j2].identifier
                                || next[u2].variants[j2].identifier == format_name_seq(
                                next[u2].variants[j2].raw_name,
                            ) + seq!['N'] by {
                                if u2 == u && j2 == next[u2].variants.len() - 1 {
                                    assert(next[u2].variants[i2] == units[u2].variants[i2]);
                                    assert(next[u2].variants[j2] == vm);
                                    if next[u2].variants[i2].raw_codeblock == vm.raw_codeblock
                                        && next[u2].variants[i2].identifier == vm.identifier {
                                        assert(used_contains(
                                            used,
                                            units[u2].variants[i2].identifier,
                                            units[u2].variants[i2].raw_codeblock,
                                        ));
                                        assert(vm.identifier == format_name_seq(a.name)
                                            + seq!['N']);
                                    }
                                } else {
                                    assert(next[u2].variants[i2] == units[u2].variants[i2]);
                                    assert(next[u2].variants[j2] == units[u2].variants[j2]);
                                }
                            }
                            lemma_distinct_helper(actions, i + 1, next, used2);
                        },
                    }
                },
            }
        }
    }
}

/// Within one codeblock, resolved identifiers are pairwise distinct —
/// except the known single-retry defect, where a variant falls back to its
/// suffixed name and two prior collisions on the same label are not
/// guaranteed distinct.
pub proof fn lemma_identifiers_distinct(actions: Seq<ActionModel>)
    ensures
        match compile_fold(actions, 0, init_units_model(), Seq::<NameKeyModel>::empty()) {
            Ok(units) => identifiers_distinct(units),
            Err(e) => true,
        },
{
    let init = init_units_model();
    assert(forall|u: int|
        0 <= u < init.len() ==> (#[trigger] init[u]).variants.len() == 0);
    lemma_distinct_helper(actions, 0, init, Seq::<NameKeyModel>::empty());
}

/// An action whose raw name is `dynamic` never appears in any generated
/// unit of a completed run.
pub proof fn lemma_dynamic_never_emitted(actions: Seq<ActionModel>)
    ensures
        match compile_fold(actions, 0, init_units_model(), Seq::<NameKeyModel>::empty()) {
            Ok(units) => no_dynamic_variants(units),
            Err(e) => true,
        },
{
    let init = init_units_model();
    assert(forall|u: int|
        0 <= u < init.len() ==> (#[trigger] init[u]).variants.len() == 0);
    lemma_no_dynamic(actions, 0, init, Seq::<NameKeyModel>::empty());
}


/// Ghost model of [`DumpError`].
pub ghost enum DumpErrorModel {
    Decode(DecodeErrorModel),
    Compile(CompileErrorModel),
}

/// A fatal error of the whole run: the dump did not match the schema, or
/// an action could not be compiled.
#[derive(Debug, PartialEq, Eq)]
pub enum DumpError {
    Decode(DecodeError),
    Compile(CompileError),
}

impl DeepView for DumpError {
    type V = DumpErrorModel;

    open spec fn deep_view(&self) -> DumpErrorModel {
        match self {
            DumpError::Decode(e) => DumpErrorModel::Decode(e.deep_view()),
            DumpError::Compile(e) => DumpErrorModel::Compile(e.deep_view()),
        }
    }
}

/// Whether the JSON document is a well-formed dump: an object whose
/// `actions` entry is an array of schema-conforming (or skipped `dynamic`)
/// elements.
pub open spec fn dump_ok(j: crate::json::JsonModel) -> bool {
    &&& j matches crate::json::JsonModel::Obj(o)
    &&& crate::decode::is_arr_at(o, "actions"@)
    &&& crate::decode::dump_items_wf(crate::decode::arr_at(o, "actions"@))
}

/// The actions of a well-formed dump document.
pub open spec fn dump_actions(j: crate::json::JsonModel) -> Seq<ActionModel> {
    crate::decode::dump_items_of(
        crate::decode::arr_at(
            match j {
                crate::json::JsonModel::Obj(o) => o,
                _ => Seq::empty(),
            },
            "actions"@,
        ),
    )
}

/// The whole run over one JSON document: the dump is decoded, then
/// compiled into one generated unit per codeblock; the first failure of
/// either stage aborts the run with no output.
pub fn compile_action_dump(j: &Json) -> (r: Result<Vec<CodeblockUnit>, DumpError>)
    ensures
        match r {
            Ok(units) => dump_ok(j.deep_view()) && compile_fold(
                dump_actions(j.deep_view()),
                0,
                init_units_model(),
                Seq::<NameKeyModel>::empty(),
            ) == Ok::<Seq<CodeblockUnitModel>, CompileErrorModel>(units.deep_view()),
            Err(e) => match e.deep_view() {
                DumpErrorModel::Decode(de) => !dump_ok(j.deep_view()),
                DumpErrorModel::Compile(ce) => dump_ok(j.deep_view()) && compile_fold(
                    dump_actions(j.deep_view()),
                    0,
                    init_units_model(),
                    Seq::<NameKeyModel>::empty(),
                ) == Err::<Seq<CodeblockUnitModel>, CompileErrorModel>(ce),
            },
        },
{
    let actions = match decode_dump(j) {
        Ok(actions) => actions,
        Err(e) => {
            return Err(DumpError::Decode(e));
        },
    };
    match compile_dump(&actions) {
        Ok(units) => Ok(units),
        Err(e) => Err(DumpError::Compile(e)),
    }
}

} // verus!