//! The tag/option synthesizer: each tag attached to an action becomes a
//! closed option type with a default and a serializer shape.
//!
//! Option identifiers are derived by priority: the sanitized option name
//! with digits spelled out; else the sanitized first alias; else the
//! case-folded sanitized first line of the option's icon description.  The
//! serializer echoes the raw (unsanitized) tag name, option name and owning
//! action name verbatim.  The default is the option whose raw name equals
//! the tag's `default_option`; where none matches, the default silently
//! falls back to the unresolved `placeholder` identifier — a known defect
//! that is kept as it is.  Tag type identifiers are disambiguated by
//! suffixing the owning action's identifier; no collision check is made
//! here.

use vstd::prelude::*;
use vstd::string::StrSliceExecFns;
use vstd::string::StringExecFns;
use crate::json::{Json, JsonModel, json_model, json_obj_model, lemma_obj_model_index};
use crate::raw_types::{ActionTagOption, ActionTagOptionModel, ActionTags, ActionTagsModel};
use crate::sanitize::{
    camel_seq, field_ident, field_ident_seq, format_name, format_name_seq, replace_numeric,
    replace_numeric_seq, snake_to_camel_case,
};
use crate::strutil::string_eq;

verus! {

/// Ghost model of [`GeneratedTagType`].
pub ghost struct GeneratedTagTypeModel {
    pub identifier: Seq<char>,
    pub field_ident: Seq<char>,
    pub raw_tag_name: Seq<char>,
    pub raw_action_name: Seq<char>,
    pub options: Seq<Seq<char>>,
    pub option_json_strings: Seq<Seq<char>>,
    pub default: Seq<char>,
}

/// One generated closed option type for a tag.
#[derive(Debug)]
pub struct GeneratedTagType {
    /// Type identifier: the sanitized tag name suffixed with the owning
    /// action's identifier.
    pub identifier: String,
    /// Field identifier under which the tag stands in its variant.
    pub field_ident: String,
    /// The raw tag name, echoed verbatim by the serializer.
    pub raw_tag_name: String,
    /// The raw owning action name, echoed verbatim by the serializer.
    pub raw_action_name: String,
    /// One identifier per option, in declaration order.
    pub options: Vec<String>,
    /// The raw option names, in the same order.
    pub option_json_strings: Vec<String>,
    /// The identifier of the default option.
    pub default: String,
}

impl DeepView for GeneratedTagType {
    type V = GeneratedTagTypeModel;

    open spec fn deep_view(&self) -> GeneratedTagTypeModel {
        GeneratedTagTypeModel {
            identifier: self.identifier@,
            field_ident: self.field_ident@,
            raw_tag_name: self.raw_tag_name@,
            raw_action_name: self.raw_action_name@,
            options: self.options.deep_view(),
            option_json_strings: self.option_json_strings.deep_view(),
            default: self.default@,
        }
    }
}

/// The first line of a description, or nothing.
pub open spec fn first_line(description: Seq<Seq<char>>) -> Seq<char> {
    if description.len() == 0 {
        Seq::empty()
    } else {
        description[0]
    }
}

/// The identifier of one tag option, by candidate priority.
pub open spec fn option_ident_model(o: ActionTagOptionModel) -> Seq<char> {
    let c1 = format_name_seq(replace_numeric_seq(o.name));
    let c2 = if o.aliases.len() > 0 {
        format_name_seq(replace_numeric_seq(o.aliases[0]))
    } else {
        Seq::empty()
    };
    if c1.len() > 0 {
        c1
    } else if c2.len() > 0 {
        c2
    } else {
        camel_seq(format_name_seq(first_line(o.icon.description)), true)
    }
}

/// The default identifier: that of the last option whose raw name equals
/// `default_option`, or the unresolved `placeholder` where none matches.
pub open spec fn default_ident_from(
    options: Seq<ActionTagOptionModel>,
    default_option: Seq<char>,
) -> Seq<char>
    decreases options.len(),
{
    if options.len() == 0 {
        "placeholder"@
    } else if options.last().name == default_option {
        option_ident_model(options.last())
    } else {
        default_ident_from(options.drop_last(), default_option)
    }
}

/// The generated tag type for `tag`, owned by the action with identifier
/// `action_ident` and raw name `action_raw_name`.
pub open spec fn synthesize_tag_model(
    tag: ActionTagsModel,
    action_ident: Seq<char>,
    action_raw_name: Seq<char>,
) -> GeneratedTagTypeModel {
    GeneratedTagTypeModel {
        identifier: format_name_seq(tag.name) + action_ident,
        field_ident: field_ident_seq(tag.name) + "_tag"@,
        raw_tag_name: tag.name,
        raw_action_name: action_raw_name,
        options: tag.options.map_values(|o: ActionTagOptionModel| option_ident_model(o)),
        option_json_strings: tag.options.map_values(|o: ActionTagOptionModel| o.name),
        default: default_ident_from(tag.options, tag.default_option),
    }
}

/// If some option's raw name equals the default, the default identifier is
/// the identifier of such an option (the last one in declaration order);
/// else it is the unresolved `placeholder`.
pub proof fn lemma_default_ident(options: Seq<ActionTagOptionModel>, d: Seq<char>)
    ensures
        (exists|i: int| 0 <= i < options.len() && options[i].name == d) ==> exists|i: int|
            0 <= i < options.len() && options[i].name == d && default_ident_from(options, d)
                == option_ident_model(options[i]),
        (forall|i: int| 0 <= i < options.len() ==> options[i].name != d) ==> default_ident_from(
            options,
            d,
        ) == "placeholder"@,
    decreases options.len(),
{
    if options.len() > 0 {
        lemma_default_ident(options.drop_last(), d);
        if options.last().name == d {
        } else {
            assert(forall|i: int|
                0 <= i < options.drop_last().len() ==> options.drop_last()[i] == options[i]);
            if exists|i: int| 0 <= i < options.len() && options[i].name == d {
                let w = choose|i: int| 0 <= i < options.len() && options[i].name == d;
                assert(w < options.len() - 1);
                assert(options.drop_last()[w].name == d);
            }
        }
    }
}

/// The identifier of one tag option.
pub fn option_ident(o: &ActionTagOption) -> (r: String)
    ensures
        r@ == option_ident_model(o.deep_view()),
{
    let c1 = format_name(replace_numeric(o.name.as_str()).as_str());
    if !c1.as_str().is_empty() {
        return c1;
    }
    if o.aliases.len() > 0 {
        let c2 = format_name(replace_numeric(o.aliases[0].as_str()).as_str());
        if !c2.as_str().is_empty() {
            return c2;
        }
    }
    let line = if o.icon.description.len() == 0 {
        String::new()
    } else {
        o.icon.description[0].clone()
    };
    snake_to_camel_case(format_name(line.as_str()).as_str())
}

/// Synthesizes the generated option type for one tag.
pub fn synthesize_tag(tag: &ActionTags, action_ident: &str, action_raw_name: &str) -> (r:
    GeneratedTagType)
    ensures
        r.deep_view() == synthesize_tag_model(tag.deep_view(), action_ident@, action_raw_name@),
{
    let mut identifier = format_name(tag.name.as_str());
    identifier.append(action_ident);
    let mut field = field_ident(tag.name.as_str());
    field.append("_tag");
    proof {
        reveal_strlit("_tag");
    }
    let mut options: Vec<String> = Vec::new();
    let mut option_json_strings: Vec<String> = Vec::new();
    let mut default = String::from_str("placeholder");
    let ghost opts = tag.deep_view().options;
    let mut i: usize = 0;
    while i < tag.options.len()
        invariant
            i <= tag.options.len(),
            opts == tag.deep_view().options,
            opts.len() == tag.options.len(),
            forall|k: int| 0 <= k < opts.len() ==> opts[k] == tag.options@[k].deep_view(),
            options.deep_view() =~= opts.subrange(0, i as int).map_values(
                |o: ActionTagOptionModel| option_ident_model(o),
            ),
            option_json_strings.deep_view() =~= opts.subrange(0, i as int).map_values(
                |o: ActionTagOptionModel| o.name,
            ),
            default@ == default_ident_from(
                opts.subrange(0, i as int),
                tag.default_option@,
            ),
        decreases tag.options.len() - i,
    {
        let ident = option_ident(&tag.options[i]);
        let ghost prev_options = options.deep_view();
        let ghost prev_strings = option_json_strings.deep_view();
        options.push(ident.clone());
        option_json_strings.push(tag.options[i].name.clone());
        if string_eq(&tag.options[i].name, &tag.default_option) {
            default = ident;
        }
        proof {
            assert(opts.subrange(0, i as int + 1).drop_last() =~= opts.subrange(0, i as int));
            assert(opts.subrange(0, i as int + 1).last() == opts[i as int]);
            assert(options.deep_view() =~= prev_options.push(option_ident_model(opts[i as int])));
            assert(option_json_strings.deep_view() =~= prev_strings.push(opts[i as int].name));
            assert forall|k: int| 0 <= k < i + 1 implies options.deep_view()[k]
                == option_ident_model(opts.subrange(0, i as int + 1)[k]) by {
                if k < i {
                    assert(prev_options[k] == opts.subrange(0, i as int).map_values(
                        |o: ActionTagOptionModel| option_ident_model(o),
                    )[k]);
                }
            }
            assert(options.deep_view() =~= opts.subrange(0, i as int + 1).map_values(
                |o: ActionTagOptionModel| option_ident_model(o),
            ));
            assert forall|k: int| 0 <= k < i + 1 implies option_json_strings.deep_view()[k]
                == opts.subrange(0, i as int + 1)[k].name by {
                if k < i {
                    assert(prev_strings[k] == opts.subrange(0, i as int).map_values(
                        |o: ActionTagOptionModel| o.name,
                    )[k]);
                }
            }
            assert(option_json_strings.deep_view() =~= opts.subrange(0, i as int + 1).map_values(
                |o: ActionTagOptionModel| o.name,
            ));
        }
        i = i + 1;
    }
    proof {
        assert(opts.subrange(0, opts.len() as int) =~= opts);
    }
    GeneratedTagType {
        identifier,
        field_ident: field,
        raw_tag_name: tag.name.clone(),
        raw_action_name: String::from_str(action_raw_name),
        options,
        option_json_strings,
        default,
    }
}

/// The tag JSON the generated serializer emits for one chosen option: the
/// raw tag name, raw option name and raw owning action name verbatim, under
/// the `bl_tag` envelope.
pub open spec fn tag_json_model(
    raw_tag_name: Seq<char>,
    raw_option_name: Seq<char>,
    raw_action_name: Seq<char>,
) -> JsonModel {
    JsonModel::Obj(
        seq![
            (
                "data"@,
                JsonModel::Obj(
                    seq![
                        ("action"@, JsonModel::Str(raw_action_name)),
                        ("block"@, JsonModel::Str(raw_action_name)),
                        ("option"@, JsonModel::Str(raw_option_name)),
                        ("tag"@, JsonModel::Str(raw_tag_name)),
                    ],
                ),
            ),
            ("id"@, JsonModel::Str("bl_tag"@)),
        ],
    )
}

/// Builds the tag JSON for one chosen option.
pub fn tag_option_json(
    raw_tag_name: &str,
    raw_option_name: &str,
    raw_action_name: &str,
) -> (r: Json)
    ensures
        r.deep_view() == tag_json_model(raw_tag_name@, raw_option_name@, raw_action_name@),
{
    let mut data: Vec<(String, Json)> = Vec::new();
    data.push((String::from_str("action"), Json::Str(String::from_str(raw_action_name))));
    data.push((String::from_str("block"), Json::Str(String::from_str(raw_action_name))));
    data.push((String::from_str("option"), Json::Str(String::from_str(raw_option_name))));
    data.push((String::from_str("tag"), Json::Str(String::from_str(raw_tag_name))));
    let mut top: Vec<(String, Json)> = Vec::new();
    top.push((String::from_str("data"), Json::Obj(data)));
    top.push((String::from_str("id"), Json::Str(String::from_str("bl_tag"))));
    let r = Json::Obj(top);
    proof {
        let t = top@;
        let d = t[0].1->Obj_0@;
        lemma_obj_model_index(d);
        lemma_obj_model_index(t);
        assert(json_obj_model(d) =~= seq![
            ("action"@, JsonModel::Str(raw_action_name@)),
            ("block"@, JsonModel::Str(raw_action_name@)),
            ("option"@, JsonModel::Str(raw_option_name@)),
            ("tag"@, JsonModel::Str(raw_tag_name@)),
        ]);
        assert(json_obj_model(t) =~= seq![
            ("data"@, JsonModel::Obj(json_obj_model(d))),
            ("id"@, JsonModel::Str("bl_tag"@)),
        ]);
    }
    r
}

/// Ghost model of [`TagRecord`].
pub ghost struct TagRecordModel {
    pub name: Seq<char>,
    pub action_name: Seq<char>,
    pub block_name: Seq<char>,
}

/// One synthesized tag, as recorded for the whole run.
#[derive(Debug)]
pub struct TagRecord {
    pub name: String,
    pub action_name: String,
    pub block_name: String,
}

impl DeepView for TagRecord {
    type V = TagRecordModel;

    open spec fn deep_view(&self) -> TagRecordModel {
        TagRecordModel {
            name: self.name@,
            action_name: self.action_name@,
            block_name: self.block_name@,
        }
    }
}

/// The run-wide record of synthesized tags.  Tag names are not globally
/// unique; (tag name, action) pairs are assumed to be, and no collision
/// check is made.
pub struct TagSet {
    pub tags: Vec<TagRecord>,
}

impl View for TagSet {
    type V = Seq<TagRecordModel>;

    open spec fn view(&self) -> Seq<TagRecordModel> {
        self.tags.deep_view()
    }
}

impl TagSet {
    /// The empty record.
    pub fn new() -> (r: TagSet)
        ensures
            r@ == Seq::<TagRecordModel>::empty(),
    {
        let r = TagSet { tags: Vec::new() };
        proof {
            assert(r@ =~= Seq::<TagRecordModel>::empty());
        }
        r
    }

    /// Records one synthesized tag.
    pub fn record(&mut self, name: &str, action_name: &str, block_name: &str)
        ensures
            final(self)@ == old(self)@.push(
                TagRecordModel { name: name@, action_name: action_name@, block_name: block_name@ },
            ),
    {
        self.tags.push(
            TagRecord {
                name: String::from_str(name),
                action_name: String::from_str(action_name),
                block_name: String::from_str(block_name),
            },
        );
        proof {
            assert(final(self)@ =~= old(self)@.push(
                TagRecordModel { name: name@, action_name: action_name@, block_name: block_name@ },
            ));
        }
    }
}

} // verus!
