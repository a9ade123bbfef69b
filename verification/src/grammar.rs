//! The argument grammar resolver: an action's token stream becomes an
//! ordered list of typed parameters.
//!
//! The stream is scanned left to right.  A typed token opens a parameter;
//! while the two following tokens are the literal `OR` (compared after
//! colour stripping, case-insensitively) and another typed token, the
//! alternation chain grows — unless the second typed token declares the
//! sentinel type `NONE`, which marks the parameter optional and ends the
//! chain.  A `plural` token is wrapped as a list, else an optional one as
//! an option; plural takes precedence.  A literal token anywhere else is
//! skipped.  A declared type outside the fixed enumerated set fails the
//! whole resolution.

use vstd::prelude::*;
use crate::chars::to_upper;
use crate::raw_types::{ActionArg, ActionArgOptions, ActionArgOptionsModel};
use crate::sanitize::{
    field_ident, field_ident_seq, strip_colour_seq, upper_seq,
};
use crate::strutil::{str_chars, str_eq};

verus! {

/// The closed set of argument types the emitted type system supports.
#[derive(Clone, Copy, Debug, PartialEq, Eq)]
pub enum ArgKind {
    Number,
    Text,
    RichText,
    Location,
    Item,
    Particle,
    Vector,
    Sound,
    Block,
    BlockTag,
    Projectile,
    Potion,
    SpawnEgg,
    EntityType,
    Variable,
    AnyType,
    Dict,
    List,
    Vehicle,
}

/// A parameter's type: a single kind, or a left-nested alternation chain.
#[derive(Debug, PartialEq, Eq)]
pub enum ParamType {
    Scalar(ArgKind),
    Alternation(Box<ParamType>, ArgKind),
}

/// How a parameter's type is wrapped.
#[derive(Debug, PartialEq, Eq)]
pub enum ParamShape {
    Plain(ParamType),
    List(ParamType),
    Optional(ParamType),
}

/// Ghost model of [`Parameter`].
pub ghost struct ParameterModel {
    pub name: Seq<char>,
    pub shape: ParamShape,
}

/// One resolved positional parameter.
#[derive(Debug, PartialEq, Eq)]
pub struct Parameter {
    pub name: String,
    pub shape: ParamShape,
}

impl DeepView for Parameter {
    type V = ParameterModel;

    open spec fn deep_view(&self) -> ParameterModel {
        ParameterModel { name: self.name@, shape: self.shape }
    }
}

/// An argument type string outside the enumerated set: a schema contract
/// violation that fails the whole run.
#[derive(Debug, PartialEq, Eq)]
pub struct GrammarError {
    pub arg_type: String,
}

/// The argument kind declared by a type string, if it is in the set.
pub open spec fn arg_kind_of(s: Seq<char>) -> Option<ArgKind> {
    if s == "NUMBER"@ {
        Some(ArgKind::Number)
    } else if s == "TEXT"@ {
        Some(ArgKind::Text)
    } else if s == "COMPONENT"@ {
        Some(ArgKind::RichText)
    } else if s == "LOCATION"@ {
        Some(ArgKind::Location)
    } else if s == "ITEM"@ {
        Some(ArgKind::Item)
    } else if s == "PARTICLE"@ {
        Some(ArgKind::Particle)
    } else if s == "VECTOR"@ {
        Some(ArgKind::Vector)
    } else if s == "SOUND"@ {
        Some(ArgKind::Sound)
    } else if s == "BLOCK"@ {
        Some(ArgKind::Block)
    } else if s == "BLOCK_TAG"@ {
        Some(ArgKind::BlockTag)
    } else if s == "PROJECTILE"@ {
        Some(ArgKind::Projectile)
    } else if s == "POTION"@ {
        Some(ArgKind::Potion)
    } else if s == "SPAWN_EGG"@ {
        Some(ArgKind::SpawnEgg)
    } else if s == "ENTITY_TYPE"@ {
        Some(ArgKind::EntityType)
    } else if s == "VARIABLE"@ {
        Some(ArgKind::Variable)
    } else if s == "ANY_TYPE"@ {
        Some(ArgKind::AnyType)
    } else if s == "DICT"@ {
        Some(ArgKind::Dict)
    } else if s == "LIST"@ {
        Some(ArgKind::List)
    } else if s == "VEHICLE"@ {
        Some(ArgKind::Vehicle)
    } else {
        None
    }
}

/// Whether a literal token is the `OR` sentinel: colour-stripped and
/// case-insensitive.
pub open spec fn is_or_text(s: Seq<char>) -> bool {
    upper_seq(strip_colour_seq(s)) == seq!['O', 'R']
}

/// The parameter identifier derived from a typed token's description: its
/// first line through the field identifier pipeline, or the empty name
/// where there is no description.
pub open spec fn param_name_model(description: Seq<Seq<char>>) -> Seq<char> {
    if description.len() == 0 {
        field_ident_seq(Seq::empty())
    } else {
        field_ident_seq(description[0])
    }
}

/// The parameter an opening token `a` yields once its alternation chain has
/// resolved to `acc` and its optionality to `opt`.
pub open spec fn param_of(a: crate::raw_types::ActionArgModel, acc: ParamType, opt: bool) -> ParameterModel {
    ParameterModel {
        name: param_name_model(a.description),
        shape: if a.plural {
            ParamShape::List(acc)
        } else if opt {
            ParamShape::Optional(acc)
        } else {
            ParamShape::Plain(acc)
        },
    }
}

/// Resolves the whole token stream.
pub open spec fn resolve_args_model(toks: Seq<ActionArgOptionsModel>) -> Result<
    Seq<ParameterModel>,
    Seq<char>,
>
    decreases toks.len(), 0int,
{
    if toks.len() == 0 {
        Ok(Seq::empty())
    } else {
        match toks[0] {
            ActionArgOptionsModel::Text { text } => resolve_args_model(toks.skip(1)),
            ActionArgOptionsModel::Arg(a) => match arg_kind_of(a.arg_type) {
                None => Err(a.arg_type),
                Some(k) => resolve_chain_model(a, ParamType::Scalar(k), a.optional, toks.skip(1)),
            },
        }
    }
}

/// Closes the parameter opened by `a` and resolves the rest of the stream.
pub open spec fn finish_chain_model(
    a: crate::raw_types::ActionArgModel,
    acc: ParamType,
    opt: bool,
    rest: Seq<ActionArgOptionsModel>,
) -> Result<Seq<ParameterModel>, Seq<char>>
    decreases rest.len(), 1int,
{
    match resolve_args_model(rest) {
        Err(e) => Err(e),
        Ok(ps) => Ok(seq![param_of(a, acc, opt)] + ps),
    }
}

/// Resolves one alternation chain opened by token `a`, then the rest of the
/// stream.
pub open spec fn resolve_chain_model(
    a: crate::raw_types::ActionArgModel,
    acc: ParamType,
    opt: bool,
    rest: Seq<ActionArgOptionsModel>,
) -> Result<Seq<ParameterModel>, Seq<char>>
    decreases rest.len(), 2int,
{
    if rest.len() >= 2 {
        match (rest[0], rest[1]) {
            (ActionArgOptionsModel::Text { text }, ActionArgOptionsModel::Arg(inner)) => {
                if is_or_text(text) {
                    if inner.arg_type == "NONE"@ {
                        finish_chain_model(a, acc, true, rest.skip(2))
                    } else {
                        match arg_kind_of(inner.arg_type) {
                            None => Err(inner.arg_type),
                            Some(k) => resolve_chain_model(
                                a,
                                ParamType::Alternation(Box::new(acc), k),
                                opt,
                                rest.skip(2),
                            ),
                        }
                    }
                } else {
                    finish_chain_model(a, acc, opt, rest)
                }
            },
            _ => finish_chain_model(a, acc, opt, rest),
        }
    } else {
        finish_chain_model(a, acc, opt, rest)
    }
}

/// The argument kind declared by a type string.
pub fn parse_arg_kind(s: &str) -> (r: Option<ArgKind>)
    ensures
        r == arg_kind_of(s@),
{
    if str_eq(s, "NUMBER") {
        Some(ArgKind::Number)
    } else if str_eq(s, "TEXT") {
        Some(ArgKind::Text)
    } else if str_eq(s, "COMPONENT") {
        Some(ArgKind::RichText)
    } else if str_eq(s, "LOCATION") {
        Some(ArgKind::Location)
    } else if str_eq(s, "ITEM") {
        Some(ArgKind::Item)
    } else if str_eq(s, "PARTICLE") {
        Some(ArgKind::Particle)
    } else if str_eq(s, "VECTOR") {
        Some(ArgKind::Vector)
    } else if str_eq(s, "SOUND") {
        Some(ArgKind::Sound)
    } else if str_eq(s, "BLOCK") {
        Some(ArgKind::Block)
    } else if str_eq(s, "BLOCK_TAG") {
        Some(ArgKind::BlockTag)
    } else if str_eq(s, "PROJECTILE") {
        Some(ArgKind::Projectile)
    } else if str_eq(s, "POTION") {
        Some(ArgKind::Potion)
    } else if str_eq(s, "SPAWN_EGG") {
        Some(ArgKind::SpawnEgg)
    } else if str_eq(s, "ENTITY_TYPE") {
        Some(ArgKind::EntityType)
    } else if str_eq(s, "VARIABLE") {
        Some(ArgKind::Variable)
    } else if str_eq(s, "ANY_TYPE") {
        Some(ArgKind::AnyType)
    } else if str_eq(s, "DICT") {
        Some(ArgKind::Dict)
    } else if str_eq(s, "LIST") {
        Some(ArgKind::List)
    } else if str_eq(s, "VEHICLE") {
        Some(ArgKind::Vehicle)
    } else {
        None
    }
}

/// Whether a literal token is the `OR` sentinel.
pub fn is_or_literal(text: &str) -> (r: bool)
    ensures
        r == is_or_text(text@),
{
    let v = str_chars(text);
    proof {
        assert(v@.skip(0) =~= v@);
    }
    let stripped = crate::sanitize::strip_colour_vec(&v);
    if stripped.len() != 2 {
        proof {
            assert(upper_seq(strip_colour_seq(text@)).len() == strip_colour_seq(text@).len());
        }
        return false;
    }
    let c0 = crate::chars::char_to_upper(stripped[0]);
    let c1 = crate::chars::char_to_upper(stripped[1]);
    let r = c0 == 'O' && c1 == 'R';
    proof {
        let u = upper_seq(strip_colour_seq(text@));
        assert(u.len() == 2);
        assert(u[0] == to_upper(stripped@[0]));
        assert(u[1] == to_upper(stripped@[1]));
        if r {
            assert(u =~= seq!['O', 'R']);
        } else {
            assert(u != seq!['O', 'R']);
        }
    }
    r
}

/// The parameter identifier derived from a typed token's description.
pub fn param_name(description: &Vec<String>) -> (r: String)
    ensures
        r@ == param_name_model(description.deep_view()),
{
    if description.len() == 0 {
        let r = field_ident("");
        proof {
            reveal_strlit("");
            assert(""@ =~= Seq::<char>::empty());
        }
        r
    } else {
        field_ident(description[0].as_str())
    }
}

fn resolve_args_from(toks: &Vec<ActionArgOptions>, i: usize) -> (r: Result<
    Vec<Parameter>,
    GrammarError,
>)
    requires
        i <= toks.len(),
    ensures
        match r {
            Ok(ps) => resolve_args_model(toks.deep_view().skip(i as int)) == Ok::<
                Seq<ParameterModel>,
                Seq<char>,
            >(ps.deep_view()),
            Err(e) => resolve_args_model(toks.deep_view().skip(i as int)) == Err::<
                Seq<ParameterModel>,
                Seq<char>,
            >(e.arg_type@),
        },
    decreases toks.len() - i, 0int,
{
    let ghost md = toks.deep_view().skip(i as int);
    if i == toks.len() {
        let empty_params: Vec<Parameter> = Vec::new();
        proof {
            assert(md =~= Seq::<ActionArgOptionsModel>::empty());
            assert(empty_params.deep_view() =~= Seq::<ParameterModel>::empty());
        }
        return Ok(empty_params);
    }
    proof {
        assert(md[0] == toks.deep_view()[i as int]);
        assert(md.skip(1) =~= toks.deep_view().skip(i as int + 1));
    }
    match &toks[i] {
        ActionArgOptions::Text { text } => resolve_args_from(toks, i + 1),
        ActionArgOptions::Arg(a) => {
            match parse_arg_kind(a.arg_type.as_str()) {
                None => Err(GrammarError { arg_type: a.arg_type.clone() }),
                Some(k) => resolve_chain_from(toks, i + 1, a, ParamType::Scalar(k), a.optional),
            }
        },
    }
}

/// Closes the parameter opened by `a` and resolves the rest of the stream.
fn finish_chain_from(
    toks: &Vec<ActionArgOptions>,
    i: usize,
    a: &ActionArg,
    acc: ParamType,
    opt: bool,
) -> (r: Result<Vec<Parameter>, GrammarError>)
    requires
        i <= toks.len(),
    ensures
        match r {
            Ok(ps) => finish_chain_model(
                a.deep_view(),
                acc,
                opt,
                toks.deep_view().skip(i as int),
            ) == Ok::<Seq<ParameterModel>, Seq<char>>(ps.deep_view()),
            Err(e) => finish_chain_model(
                a.deep_view(),
                acc,
                opt,
                toks.deep_view().skip(i as int),
            ) == Err::<Seq<ParameterModel>, Seq<char>>(e.arg_type@),
        },
    decreases toks.len() - i, 1int,
{
    let ghost md = toks.deep_view().skip(i as int);
    let ghost accg = acc;
    match resolve_args_from(toks, i) {
        Err(e) => Err(e),
        Ok(ps) => {
            let p = Parameter { name: param_name(&a.description), shape: wrap_shape(a, acc, opt) };
            let mut out: Vec<Parameter> = Vec::new();
            out.push(p);
            let mut rest = ps;
            out.append(&mut rest);
            proof {
                assert(out.deep_view() =~= seq![param_of(a.deep_view(), accg, opt)]
                    + (match resolve_args_model(md) {
                        Ok(ps0) => ps0,
                        Err(e0) => Seq::empty(),
                    }));
            }
            Ok(out)
        },
    }
}

fn resolve_chain_from(
    toks: &Vec<ActionArgOptions>,
    i: usize,
    a: &ActionArg,
    acc: ParamType,
    opt: bool,
) -> (r: Result<Vec<Parameter>, GrammarError>)
    requires
        i <= toks.len(),
    ensures
        match r {
            Ok(ps) => resolve_chain_model(
                a.deep_view(),
                acc,
                opt,
                toks.deep_view().skip(i as int),
            ) == Ok::<Seq<ParameterModel>, Seq<char>>(ps.deep_view()),
            Err(e) => resolve_chain_model(
                a.deep_view(),
                acc,
                opt,
                toks.deep_view().skip(i as int),
            ) == Err::<Seq<ParameterModel>, Seq<char>>(e.arg_type@),
        },
    decreases toks.len() - i, 2int,
{
    let ghost md = toks.deep_view().skip(i as int);
    proof {
        assert(md.len() == toks.len() - i);
        if md.len() >= 2 {
            assert(md[0] == toks.deep_view()[i as int]);
            assert(md[1] == toks.deep_view()[i as int + 1]);
            assert(md.skip(2) =~= toks.deep_view().skip(i as int + 2));
        }
    }
    if toks.len() - i >= 2 {
        let or_here: bool = match &toks[i] {
            ActionArgOptions::Text { text } => is_or_literal(text.as_str()),
            _ => false,
        };
        if or_here {
            match &toks[i + 1] {
                ActionArgOptions::Arg(inner) => {
                    if str_eq(inner.arg_type.as_str(), "NONE") {
                        return finish_chain_from(toks, i + 2, a, acc, true);
                    }
                    match parse_arg_kind(inner.arg_type.as_str()) {
                        None => {
                            return Err(GrammarError { arg_type: inner.arg_type.clone() });
                        },
                        Some(k) => {
                            return resolve_chain_from(
                                toks,
                                i + 2,
                                a,
                                ParamType::Alternation(Box::new(acc), k),
                                opt,
                            );
                        },
                    }
                },
                _ => {},
            }
        }
    }
    finish_chain_from(toks, i, a, acc, opt)
}

/// The wrapping of a resolved chain: plural wins, else optionality.
fn wrap_shape(a: &ActionArg, acc: ParamType, opt: bool) -> (r: ParamShape)
    ensures
        r == param_of(a.deep_view(), acc, opt).shape,
{
    if a.plural {
        ParamShape::List(acc)
    } else if opt {
        ParamShape::Optional(acc)
    } else {
        ParamShape::Plain(acc)
    }
}

/// Resolves an action's token stream into its ordered parameter list, or
/// fails on the first declared type outside the enumerated set.
pub fn resolve_arguments(toks: &Vec<ActionArgOptions>) -> (r: Result<Vec<Parameter>, GrammarError>)
    ensures
        match r {
            Ok(ps) => resolve_args_model(toks.deep_view()) == Ok::<
                Seq<ParameterModel>,
                Seq<char>,
            >(ps.deep_view()),
            Err(e) => resolve_args_model(toks.deep_view()) == Err::<
                Seq<ParameterModel>,
                Seq<char>,
            >(e.arg_type@),
        },
{
    proof {
        assert(toks.deep_view().skip(0) =~= toks.deep_view());
    }
    resolve_args_from(toks, 0)
}


/// A typed token whose declared type is outside the enumerated set and is
/// not the `NONE` sentinel.
pub open spec fn bad_token(t: ActionArgOptionsModel) -> bool {
    match t {
        ActionArgOptionsModel::Arg(a) => arg_kind_of(a.arg_type) is None && a.arg_type != "NONE"@,
        _ => false,
    }
}

/// Whether some token of the stream declares such a type.
pub open spec fn has_bad_token(toks: Seq<ActionArgOptionsModel>) -> bool {
    exists|i: int| 0 <= i < toks.len() && bad_token(toks[i])
}

/// A stream holding a typed token with an unrecognized type never
/// resolves: the whole resolution fails.
pub proof fn lemma_bad_token_fails(toks: Seq<ActionArgOptionsModel>)
    requires
        has_bad_token(toks),
    ensures
        resolve_args_model(toks) is Err,
    decreases toks.len(), 0int,
{
    let w = choose|i: int| 0 <= i < toks.len() && bad_token(toks[i]);
    assert(forall|k: int| 0 <= k < toks.skip(1).len() ==> toks.skip(1)[k] == toks[k + 1]);
    match toks[0] {
        ActionArgOptionsModel::Text { text } => {
            assert(w > 0);
            assert(bad_token(toks.skip(1)[w - 1]));
            lemma_bad_token_fails(toks.skip(1));
        },
        ActionArgOptionsModel::Arg(a) => {
            match arg_kind_of(a.arg_type) {
                None => {},
                Some(k) => {
                    assert(w > 0);
                    assert(bad_token(toks.skip(1)[w - 1]));
                    lemma_chain_bad(a, ParamType::Scalar(k), a.optional, toks.skip(1));
                },
            }
        },
    }
}

proof fn lemma_finish_bad(
    a: crate::raw_types::ActionArgModel,
    acc: ParamType,
    opt: bool,
    rest: Seq<ActionArgOptionsModel>,
)
    requires
        has_bad_token(rest),
    ensures
        finish_chain_model(a, acc, opt, rest) is Err,
    decreases rest.len(), 1int,
{
    lemma_bad_token_fails(rest);
}

proof fn lemma_chain_bad(
    a: crate::raw_types::ActionArgModel,
    acc: ParamType,
    opt: bool,
    rest: Seq<ActionArgOptionsModel>,
)
    requires
        has_bad_token(rest),
    ensures
        resolve_chain_model(a, acc, opt, rest) is Err,
    decreases rest.len(), 2int,
{
    let w = choose|i: int| 0 <= i < rest.len() && bad_token(rest[i]);
    if rest.len() >= 2 {
        assert(forall|k: int| 0 <= k < rest.skip(2).len() ==> rest.skip(2)[k] == rest[k + 2]);
        match (rest[0], rest[1]) {
            (ActionArgOptionsModel::Text { text }, ActionArgOptionsModel::Arg(inner)) => {
                if is_or_text(text) {
                    if inner.arg_type == "NONE"@ {
                        assert(!bad_token(rest[0]));
                        assert(!bad_token(rest[1]));
                        assert(w >= 2);
                        assert(bad_token(rest.skip(2)[w - 2]));
                        lemma_finish_bad(a, acc, true, rest.skip(2));
                    } else {
                        match arg_kind_of(inner.arg_type) {
                            None => {},
                            Some(k) => {
                                assert(!bad_token(rest[0]));
                                assert(!bad_token(rest[1]));
                                assert(w >= 2);
                                assert(bad_token(rest.skip(2)[w - 2]));
                                lemma_chain_bad(
                                    a,
                                    ParamType::Alternation(Box::new(acc), k),
                                    opt,
                                    rest.skip(2),
                                );
                            },
                        }
                    }
                } else {
                    lemma_finish_bad(a, acc, opt, rest);
                }
            },
            _ => {
                lemma_finish_bad(a, acc, opt, rest);
            },
        }
    } else {
        lemma_finish_bad(a, acc, opt, rest);
    }
}

} // verus!
