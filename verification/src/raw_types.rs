//! The schema model of the action dump: one type per JSON shape.
//!
//! The wire format discriminates its unions structurally (an icon with an
//! `arguments` field is an [`ActionIcon`], one without is an
//! [`ActionEventIcon`]; an argument token with a `text` field is a literal,
//! any other is typed), so the discriminant that the wire format omits is
//! explicit here.  Each type has a ghost model over sequences, reached
//! through `deep_view`, which the contracts of the decoder and the compiler
//! speak of.

use vstd::prelude::*;

verus! {

/// Ghost model of [`ActionTagIcon`].
pub ghost struct ActionTagIconModel {
    pub material: Seq<char>,
    pub name: Seq<char>,
    pub deprecated_note: Seq<Seq<char>>,
    pub description: Seq<Seq<char>>,
    pub example: Seq<Seq<char>>,
    pub works_with: Seq<Seq<char>>,
    pub additional_info: Seq<Seq<Seq<char>>>,
    pub required_rank: Seq<char>,
    pub require_tokens: bool,
    pub require_rank_and_tokens: bool,
    pub advanced: bool,
    pub loaded_item: Seq<char>,
}

/// Display metadata of one tag option.
#[derive(Debug)]
pub struct ActionTagIcon {
    pub material: String,
    pub name: String,
    pub deprecated_note: Vec<String>,
    pub description: Vec<String>,
    pub example: Vec<String>,
    pub works_with: Vec<String>,
    pub additional_info: Vec<Vec<String>>,
    pub required_rank: String,
    pub require_tokens: bool,
    pub require_rank_and_tokens: bool,
    pub advanced: bool,
    pub loaded_item: String,
}

impl DeepView for ActionTagIcon {
    type V = ActionTagIconModel;

    open spec fn deep_view(&self) -> ActionTagIconModel {
        ActionTagIconModel {
            material: self.material.deep_view(),
            name: self.name.deep_view(),
            deprecated_note: self.deprecated_note.deep_view(),
            description: self.description.deep_view(),
            example: self.example.deep_view(),
            works_with: self.works_with.deep_view(),
            additional_info: self.additional_info.deep_view(),
            required_rank: self.required_rank.deep_view(),
            require_tokens: self.require_tokens,
            require_rank_and_tokens: self.require_rank_and_tokens,
            advanced: self.advanced,
            loaded_item: self.loaded_item.deep_view(),
        }
    }
}

/// Ghost model of [`ActionTagOption`].
pub ghost struct ActionTagOptionModel {
    pub name: Seq<char>,
    pub icon: ActionTagIconModel,
    pub aliases: Seq<Seq<char>>,
}

/// One selectable option of a tag.
#[derive(Debug)]
pub struct ActionTagOption {
    pub name: String,
    pub icon: ActionTagIcon,
    pub aliases: Vec<String>,
}

impl DeepView for ActionTagOption {
    type V = ActionTagOptionModel;

    open spec fn deep_view(&self) -> ActionTagOptionModel {
        ActionTagOptionModel {
            name: self.name.deep_view(),
            icon: self.icon.deep_view(),
            aliases: self.aliases.deep_view(),
        }
    }
}

/// Ghost model of [`ActionTags`].
pub ghost struct ActionTagsModel {
    pub name: Seq<char>,
    pub options: Seq<ActionTagOptionModel>,
    pub default_option: Seq<char>,
    pub slot: usize,
}

/// A closed-choice configuration slot attached to one action.
#[derive(Debug)]
pub struct ActionTags {
    pub name: String,
    pub options: Vec<ActionTagOption>,
    pub default_option: String,
    pub slot: usize,
}

impl DeepView for ActionTags {
    type V = ActionTagsModel;

    open spec fn deep_view(&self) -> ActionTagsModel {
        ActionTagsModel {
            name: self.name.deep_view(),
            options: self.options.deep_view(),
            default_option: self.default_option.deep_view(),
            slot: self.slot,
        }
    }
}

/// Ghost model of [`ActionArg`].
pub ghost struct ActionArgModel {
    pub arg_type: Seq<char>,
    pub plural: bool,
    pub optional: bool,
    pub description: Seq<Seq<char>>,
    pub notes: Seq<Seq<Seq<char>>>,
}

/// A typed token of an action's argument grammar.
#[derive(Debug)]
pub struct ActionArg {
    pub arg_type: String,
    pub plural: bool,
    pub optional: bool,
    pub description: Vec<String>,
    pub notes: Vec<Vec<String>>,
}

impl DeepView for ActionArg {
    type V = ActionArgModel;

    open spec fn deep_view(&self) -> ActionArgModel {
        ActionArgModel {
            arg_type: self.arg_type.deep_view(),
            plural: self.plural,
            optional: self.optional,
            description: self.description.deep_view(),
            notes: self.notes.deep_view(),
        }
    }
}

/// Ghost model of [`ActionArgOptions`].
pub ghost enum ActionArgOptionsModel {
    Text { text: Seq<char> },
    Arg(ActionArgModel),
}

/// One token of an argument grammar: a literal (the `OR` sentinel) or a
/// typed token.
#[derive(Debug)]
pub enum ActionArgOptions {
    Text { text: String },
    Arg(ActionArg),
}

impl DeepView for ActionArgOptions {
    type V = ActionArgOptionsModel;

    open spec fn deep_view(&self) -> ActionArgOptionsModel {
        match self {
            ActionArgOptions::Text { text } => ActionArgOptionsModel::Text {
                text: text.deep_view(),
            },
            ActionArgOptions::Arg(a) => ActionArgOptionsModel::Arg(a.deep_view()),
        }
    }
}

/// Ghost model of [`ActionIconReturnType`].
pub ghost struct ActionIconReturnTypeModel {
    pub ret_type: Seq<char>,
    pub description: Seq<Seq<char>>,
}

/// A typed token of an action's return value list.
#[derive(Debug)]
pub struct ActionIconReturnType {
    pub ret_type: String,
    pub description: Vec<String>,
}

impl DeepView for ActionIconReturnType {
    type V = ActionIconReturnTypeModel;

    open spec fn deep_view(&self) -> ActionIconReturnTypeModel {
        ActionIconReturnTypeModel {
            ret_type: self.ret_type.deep_view(),
            description: self.description.deep_view(),
        }
    }
}

/// Ghost model of [`ActionIconReturnTypeOption`].
pub ghost enum ActionIconReturnTypeOptionModel {
    Text { text: Seq<char> },
    Arg(ActionIconReturnTypeModel),
}

/// One token of a return value list: a literal or a typed token.
#[derive(Debug)]
pub enum ActionIconReturnTypeOption {
    Text { text: String },
    Arg(ActionIconReturnType),
}

impl DeepView for ActionIconReturnTypeOption {
    type V = ActionIconReturnTypeOptionModel;

    open spec fn deep_view(&self) -> ActionIconReturnTypeOptionModel {
        match self {
            ActionIconReturnTypeOption::Text { text } => ActionIconReturnTypeOptionModel::Text {
                text: text.deep_view(),
            },
            ActionIconReturnTypeOption::Arg(a) => ActionIconReturnTypeOptionModel::Arg(
                a.deep_view(),
            ),
        }
    }
}

/// Ghost model of [`ActionIcon`].
pub ghost struct ActionIconModel {
    pub material: Seq<char>,
    pub name: Seq<char>,
    pub deprecated_note: Seq<Seq<char>>,
    pub description: Seq<Seq<char>>,
    pub example: Seq<Seq<char>>,
    pub works_with: Seq<Seq<char>>,
    pub additional_info: Seq<Seq<Seq<char>>>,
    pub required_rank: Seq<char>,
    pub require_tokens: bool,
    pub require_rank_and_tokens: bool,
    pub advanced: bool,
    pub loaded_item: Seq<char>,
    pub arguments: Seq<ActionArgOptionsModel>,
    pub return_values: Seq<ActionIconReturnTypeOptionModel>,
}

/// An action's icon when it carries an argument grammar.
#[derive(Debug)]
pub struct ActionIcon {
    pub material: String,
    pub name: String,
    pub deprecated_note: Vec<String>,
    pub description: Vec<String>,
    pub example: Vec<String>,
    pub works_with: Vec<String>,
    pub additional_info: Vec<Vec<String>>,
    pub required_rank: String,
    pub require_tokens: bool,
    pub require_rank_and_tokens: bool,
    pub advanced: bool,
    pub loaded_item: String,
    pub arguments: Vec<ActionArgOptions>,
    pub return_values: Vec<ActionIconReturnTypeOption>,
}

impl DeepView for ActionIcon {
    type V = ActionIconModel;

    open spec fn deep_view(&self) -> ActionIconModel {
        ActionIconModel {
            material: self.material.deep_view(),
            name: self.name.deep_view(),
            deprecated_note: self.deprecated_note.deep_view(),
            description: self.description.deep_view(),
            example: self.example.deep_view(),
            works_with: self.works_with.deep_view(),
            additional_info: self.additional_info.deep_view(),
            required_rank: self.required_rank.deep_view(),
            require_tokens: self.require_tokens,
            require_rank_and_tokens: self.require_rank_and_tokens,
            advanced: self.advanced,
            loaded_item: self.loaded_item.deep_view(),
            arguments: self.arguments.deep_view(),
            return_values: self.return_values.deep_view(),
        }
    }
}

/// Ghost model of [`ActionEventIcon`].
pub ghost struct ActionEventIconModel {
    pub material: Seq<char>,
    pub name: Seq<char>,
    pub deprecated_note: Seq<Seq<char>>,
    pub description: Seq<Seq<char>>,
    pub example: Seq<Seq<char>>,
    pub works_with: Seq<Seq<char>>,
    pub additional_info: Seq<Seq<Seq<char>>>,
    pub required_rank: Seq<char>,
    pub require_tokens: bool,
    pub require_rank_and_tokens: bool,
    pub advanced: bool,
    pub loaded_item: Seq<char>,
}

/// An action's icon when it carries a display name only, no arguments.
#[derive(Debug)]
pub struct ActionEventIcon {
    pub material: String,
    pub name: String,
    pub deprecated_note: Vec<String>,
    pub description: Vec<String>,
    pub example: Vec<String>,
    pub works_with: Vec<String>,
    pub additional_info: Vec<Vec<String>>,
    pub required_rank: String,
    pub require_tokens: bool,
    pub require_rank_and_tokens: bool,
    pub advanced: bool,
    pub loaded_item: String,
}

impl DeepView for ActionEventIcon {
    type V = ActionEventIconModel;

    open spec fn deep_view(&self) -> ActionEventIconModel {
        ActionEventIconModel {
            material: self.material.deep_view(),
            name: self.name.deep_view(),
            deprecated_note: self.deprecated_note.deep_view(),
            description: self.description.deep_view(),
            example: self.example.deep_view(),
            works_with: self.works_with.deep_view(),
            additional_info: self.additional_info.deep_view(),
            required_rank: self.required_rank.deep_view(),
            require_tokens: self.require_tokens,
            require_rank_and_tokens: self.require_rank_and_tokens,
            advanced: self.advanced,
            loaded_item: self.loaded_item.deep_view(),
        }
    }
}

/// Ghost model of [`ActionIconOptions`].
pub ghost enum ActionIconOptionsModel {
    Icon(ActionIconModel),
    Event(ActionEventIconModel),
}

/// The two icon shapes, made explicit.
#[derive(Debug)]
pub enum ActionIconOptions {
    Icon(ActionIcon),
    Event(ActionEventIcon),
}

impl DeepView for ActionIconOptions {
    type V = ActionIconOptionsModel;

    open spec fn deep_view(&self) -> ActionIconOptionsModel {
        match self {
            ActionIconOptions::Icon(i) => ActionIconOptionsModel::Icon(i.deep_view()),
            ActionIconOptions::Event(e) => ActionIconOptionsModel::Event(e.deep_view()),
        }
    }
}

/// Ghost model of [`Action`].
pub ghost struct ActionModel {
    pub name: Seq<char>,
    pub codeblock_name: Seq<char>,
    pub tags: Seq<ActionTagsModel>,
    pub aliases: Seq<Seq<char>>,
    pub icon: ActionIconOptionsModel,
    pub sub_action_blocks: Seq<Seq<char>>,
}

/// One instruction definition of the dump.
#[derive(Debug)]
pub struct Action {
    pub name: String,
    pub codeblock_name: String,
    pub tags: Vec<ActionTags>,
    pub aliases: Vec<String>,
    pub icon: ActionIconOptions,
    pub sub_action_blocks: Vec<String>,
}

impl DeepView for Action {
    type V = ActionModel;

    open spec fn deep_view(&self) -> ActionModel {
        ActionModel {
            name: self.name.deep_view(),
            codeblock_name: self.codeblock_name.deep_view(),
            tags: self.tags.deep_view(),
            aliases: self.aliases.deep_view(),
            icon: self.icon.deep_view(),
            sub_action_blocks: self.sub_action_blocks.deep_view(),
        }
    }
}

/// The event icon with every field empty.
pub open spec fn empty_event_icon_model() -> ActionEventIconModel {
    ActionEventIconModel {
        material: Seq::empty(),
        name: Seq::empty(),
        deprecated_note: Seq::empty(),
        description: Seq::empty(),
        example: Seq::empty(),
        works_with: Seq::empty(),
        additional_info: Seq::empty(),
        required_rank: Seq::empty(),
        require_tokens: false,
        require_rank_and_tokens: false,
        advanced: false,
        loaded_item: Seq::empty(),
    }
}

impl ActionEventIcon {
    /// The icon with every field empty.
    pub fn empty() -> (r: ActionEventIcon)
        ensures
            r.deep_view() == empty_event_icon_model(),
    {
        let r = ActionEventIcon {
            material: String::new(),
            name: String::new(),
            deprecated_note: Vec::new(),
            description: Vec::new(),
            example: Vec::new(),
            works_with: Vec::new(),
            additional_info: Vec::new(),
            required_rank: String::new(),
            require_tokens: false,
            require_rank_and_tokens: false,
            advanced: false,
            loaded_item: String::new(),
        };
        proof {
            assert(r.deep_view().deprecated_note =~= Seq::<Seq<char>>::empty());
            assert(r.deep_view().description =~= Seq::<Seq<char>>::empty());
            assert(r.deep_view().example =~= Seq::<Seq<char>>::empty());
            assert(r.deep_view().works_with =~= Seq::<Seq<char>>::empty());
            assert(r.deep_view().additional_info =~= Seq::<Seq<Seq<char>>>::empty());
        }
        r
    }
}

impl Default for ActionIconOptions {
    /// The default icon is the argument-less event shape with every field
    /// empty, so a defaulted action carries no argument grammar.
    fn default() -> (r: Self)
        ensures
            r.deep_view() == ActionIconOptionsModel::Event(empty_event_icon_model()),
    {
        ActionIconOptions::Event(ActionEventIcon::empty())
    }
}

} // verus!
