//! The name resolver: each action gets a unique identifier within its
//! codeblock.
//!
//! Candidates, in priority order: the sanitized display name of the
//! action's icon, then the sanitized raw action name.  Collisions are
//! checked against the composite key (candidate, codeblock), so the same
//! label may stand in two different codeblocks but not twice in one.  If
//! the fallback candidate still collides, a literal `N` is appended exactly
//! once — a third collision on the same label is not retried and yields a
//! duplicate, a known defect that is kept as it is.  Every resolved name is
//! recorded in the collision set before the resolver returns.

use vstd::prelude::*;
use vstd::string::StringExecFns;
use crate::raw_types::{Action, ActionModel, ActionIconOptions, ActionIconOptionsModel};
use crate::sanitize::{format_name, format_name_seq};
use crate::strutil::str_eq;

verus! {

/// Ghost model of [`NameKey`].
pub ghost struct NameKeyModel {
    pub name: Seq<char>,
    pub codeblock: Seq<char>,
}

/// One composite key of the collision set.
pub struct NameKey {
    pub name: String,
    pub codeblock: String,
}

impl DeepView for NameKey {
    type V = NameKeyModel;

    open spec fn deep_view(&self) -> NameKeyModel {
        NameKeyModel { name: self.name@, codeblock: self.codeblock@ }
    }
}

/// Whether the collision set holds the key (`name`, `codeblock`).
pub open spec fn used_contains(s: Seq<NameKeyModel>, name: Seq<char>, codeblock: Seq<char>) -> bool {
    exists|i: int| 0 <= i < s.len() && s[i].name == name && s[i].codeblock == codeblock
}

/// The collision set of resolved names, one run wide.
pub struct UsedNames {
    entries: Vec<NameKey>,
}

impl View for UsedNames {
    type V = Seq<NameKeyModel>;

    closed spec fn view(&self) -> Seq<NameKeyModel> {
        self.entries.deep_view()
    }
}

impl UsedNames {
    /// The empty collision set.
    pub fn new() -> (r: UsedNames)
        ensures
            r@ == Seq::<NameKeyModel>::empty(),
    {
        let r = UsedNames { entries: Vec::new() };
        proof {
            assert(r@ =~= Seq::<NameKeyModel>::empty());
        }
        r
    }

    /// Whether (`name`, `codeblock`) was already resolved.
    pub fn contains(&self, name: &str, codeblock: &str) -> (r: bool)
        ensures
            r == used_contains(self@, name@, codeblock@),
    {
        let mut i: usize = 0;
        while i < self.entries.len()
            invariant
                i <= self.entries.len(),
                self@.len() == self.entries.len(),
                forall|k: int|
                    0 <= k < self@.len() ==> self@[k] == (NameKeyModel {
                        name: self.entries@[k].name@,
                        codeblock: self.entries@[k].codeblock@,
                    }),
                forall|k: int|
                    0 <= k < i ==> !(self@[k].name == name@ && self@[k].codeblock == codeblock@),
            decreases self.entries.len() - i,
        {
            if str_eq(self.entries[i].name.as_str(), name) && str_eq(
                self.entries[i].codeblock.as_str(),
                codeblock,
            ) {
                proof {
                    assert(self@[i as int].name == name@ && self@[i as int].codeblock
                        == codeblock@);
                }
                return true;
            }
            i = i + 1;
        }
        false
    }

    fn insert(&mut self, name: &String, codeblock: &String)
        ensures
            final(self)@ == old(self)@.push(NameKeyModel { name: name@, codeblock: codeblock@ }),
    {
        let key = NameKey { name: name.clone(), codeblock: codeblock.clone() };
        self.entries.push(key);
        proof {
            assert(final(self)@ =~= old(self)@.push(
                NameKeyModel { name: name@, codeblock: codeblock@ },
            ));
        }
    }
}

/// The display name carried by either icon shape.
pub open spec fn icon_display_name(icon: ActionIconOptionsModel) -> Seq<char> {
    match icon {
        ActionIconOptionsModel::Icon(i) => i.name,
        ActionIconOptionsModel::Event(e) => e.name,
    }
}

/// The identifier the resolver assigns to `a` against the collision set
/// `used`.
pub open spec fn resolve_name_model(a: ActionModel, used: Seq<NameKeyModel>) -> Seq<char> {
    let c1 = format_name_seq(icon_display_name(a.icon));
    let c2 = format_name_seq(a.name);
    if c1.len() > 0 && !used_contains(used, c1, a.codeblock_name) {
        c1
    } else if !used_contains(used, c2, a.codeblock_name) {
        c2
    } else {
        c2 + seq!['N']
    }
}

/// Assigns `action` its identifier and records it in the collision set.
///
/// The result is fresh for the action's codeblock unless it is the suffixed
/// fallback name: a resolution that needs the `N` suffix is not retried.
/// In particular, as long as the suffixed fallback label itself was never
/// handed out in this codeblock, the result is always fresh.
pub fn resolve_name(action: &Action, used: &mut UsedNames) -> (r: String)
    ensures
        r@ == resolve_name_model(action.deep_view(), old(used)@),
        final(used)@ == old(used)@.push(
            NameKeyModel { name: r@, codeblock: action.codeblock_name@ },
        ),
        !used_contains(old(used)@, r@, action.codeblock_name@) || r@ == format_name_seq(
            action.name@,
        ) + seq!['N'],
        !used_contains(
            old(used)@,
            format_name_seq(action.name@) + seq!['N'],
            action.codeblock_name@,
        ) ==> !used_contains(old(used)@, r@, action.codeblock_name@),
{
    let c1 = match &action.icon {
        ActionIconOptions::Icon(i) => format_name(i.name.as_str()),
        ActionIconOptions::Event(e) => format_name(e.name.as_str()),
    };
    let name = if !c1.as_str().is_empty() && !used.contains(
        c1.as_str(),
        action.codeblock_name.as_str(),
    ) {
        c1
    } else {
        let c2 = format_name(action.name.as_str());
        if !used.contains(c2.as_str(), action.codeblock_name.as_str()) {
            c2
        } else {
            let mut suffixed = c2;
            suffixed.append("N");
            proof {
                reveal_strlit("N");
                assert("N"@ =~= seq!['N']);
            }
            suffixed
        }
    };
    used.insert(&name, &action.codeblock_name);
    name
}

} // verus!
