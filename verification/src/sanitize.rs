//! The identifier sanitizer: pure string-to-identifier normalization.
//!
//! `format_name` runs the full pipeline, in order: colour escapes are
//! stripped, everything before the first ASCII letter is removed, whitespace
//! is removed, the comparison symbols `=` `<` `>` become the words `Eq`,
//! `LessThan`, `GreaterThan`, and every remaining character that is not
//! ASCII alphanumeric or underscore is dropped.  The empty string is a valid
//! result and means "no usable name".
//!
//! `snake_to_camel_case` is the case-folding helper used when forming enum
//! and type identifiers, and `replace_numeric` spells digits out as words
//! before it runs.  `field_ident` is the lower-case variant used for field
//! names.

use vstd::prelude::*;
use crate::chars::{
    is_ascii_letter, is_colour_escape, is_ident_char, is_space_char, to_lower, to_upper,
    char_is_ascii_letter, char_is_colour_escape, char_is_ident, char_is_space, char_to_lower,
    char_to_upper,
};
use crate::strutil::{str_chars, chars_to_string};

verus! {

/// Colour escapes removed: the section-sign escape character and the one
/// character after it are dropped as a pair (a trailing lone escape
/// character is dropped alone).
pub open spec fn strip_colour_seq(s: Seq<char>) -> Seq<char>
    decreases s.len(),
{
    if s.len() == 0 {
        Seq::empty()
    } else if is_colour_escape(s[0]) {
        if s.len() >= 2 {
            strip_colour_seq(s.skip(2))
        } else {
            Seq::empty()
        }
    } else {
        seq![s[0]] + strip_colour_seq(s.skip(1))
    }
}

/// Everything before the first ASCII letter removed.
pub open spec fn remove_leading_seq(s: Seq<char>) -> Seq<char>
    decreases s.len(),
{
    if s.len() == 0 {
        Seq::empty()
    } else if is_ascii_letter(s[0]) {
        s
    } else {
        remove_leading_seq(s.skip(1))
    }
}

/// Whitespace removed.
pub open spec fn remove_space_seq(s: Seq<char>) -> Seq<char>
    decreases s.len(),
{
    if s.len() == 0 {
        Seq::empty()
    } else if is_space_char(s[0]) {
        remove_space_seq(s.skip(1))
    } else {
        seq![s[0]] + remove_space_seq(s.skip(1))
    }
}

/// What one character contributes once comparison symbols become words.
pub open spec fn symbol_word(c: char) -> Seq<char> {
    if c == '=' {
        seq!['E', 'q']
    } else if c == '<' {
        seq!['L', 'e', 's', 's', 'T', 'h', 'a', 'n']
    } else if c == '>' {
        seq!['G', 'r', 'e', 'a', 't', 'e', 'r', 'T', 'h', 'a', 'n']
    } else {
        seq![c]
    }
}

/// Comparison symbols replaced by words.
pub open spec fn replace_symbols_seq(s: Seq<char>) -> Seq<char>
    decreases s.len(),
{
    if s.len() == 0 {
        Seq::empty()
    } else {
        symbol_word(s[0]) + replace_symbols_seq(s.skip(1))
    }
}

/// Only ASCII alphanumerics and underscores kept.
pub open spec fn keep_ident_seq(s: Seq<char>) -> Seq<char>
    decreases s.len(),
{
    if s.len() == 0 {
        Seq::empty()
    } else if is_ident_char(s[0]) {
        seq![s[0]] + keep_ident_seq(s.skip(1))
    } else {
        keep_ident_seq(s.skip(1))
    }
}

/// The full sanitizer pipeline.
pub open spec fn format_name_seq(s: Seq<char>) -> Seq<char> {
    keep_ident_seq(
        replace_symbols_seq(remove_space_seq(remove_leading_seq(strip_colour_seq(s)))),
    )
}

/// What one character contributes once digits are spelled out as words.
pub open spec fn digit_word(c: char) -> Seq<char> {
    if c == '0' {
        seq!['Z', 'e', 'r', 'o']
    } else if c == '1' {
        seq!['O', 'n', 'e']
    } else if c == '2' {
        seq!['T', 'w', 'o']
    } else if c == '3' {
        seq!['T', 'h', 'r', 'e', 'e']
    } else if c == '4' {
        seq!['F', 'o', 'u', 'r']
    } else if c == '5' {
        seq!['F', 'i', 'v', 'e']
    } else if c == '6' {
        seq!['S', 'i', 'x']
    } else if c == '7' {
        seq!['S', 'e', 'v', 'e', 'n']
    } else if c == '8' {
        seq!['E', 'i', 'g', 'h', 't']
    } else if c == '9' {
        seq!['N', 'i', 'n', 'e']
    } else {
        seq![c]
    }
}

/// Digits spelled out as capitalized words.
pub open spec fn replace_numeric_seq(s: Seq<char>) -> Seq<char>
    decreases s.len(),
{
    if s.len() == 0 {
        Seq::empty()
    } else {
        digit_word(s[0]) + replace_numeric_seq(s.skip(1))
    }
}

/// Case folding into capitalized words: a letter that follows an underscore,
/// a space, or the start of the phrase is capitalized; the separators are
/// dropped.
pub open spec fn camel_seq(s: Seq<char>, capitalize: bool) -> Seq<char>
    decreases s.len(),
{
    if s.len() == 0 {
        Seq::empty()
    } else if s[0] == '_' || s[0] == ' ' {
        camel_seq(s.skip(1), true)
    } else if capitalize && is_ascii_letter(s[0]) {
        seq![to_upper(s[0])] + camel_seq(s.skip(1), false)
    } else {
        seq![s[0]] + camel_seq(s.skip(1), capitalize)
    }
}

/// Spaces turned into underscores.
pub open spec fn space_to_underscore(c: char) -> char {
    if c == ' ' {
        '_'
    } else {
        c
    }
}

pub open spec fn underscore_seq(s: Seq<char>) -> Seq<char> {
    s.map_values(|c: char| space_to_underscore(c))
}

pub open spec fn lower_seq(s: Seq<char>) -> Seq<char> {
    s.map_values(|c: char| to_lower(c))
}

pub open spec fn upper_seq(s: Seq<char>) -> Seq<char> {
    s.map_values(|c: char| to_upper(c))
}

/// Whether the name ends in the raw substring `type`, which would clash with
/// a reserved word.
pub open spec fn ends_in_type(s: Seq<char>) -> bool {
    s.len() >= 4 && s.subrange(s.len() - 4, s.len() as int) == seq!['t', 'y', 'p', 'e']
}

/// The lower-case identifier pipeline used for parameter and tag field
/// names: leading non-letters removed, spaces turned into underscores,
/// non-identifier characters dropped, lower-cased, and a trailing
/// underscore appended when the result ends in `type`.
pub open spec fn field_ident_seq(s: Seq<char>) -> Seq<char> {
    let base = lower_seq(keep_ident_seq(underscore_seq(remove_leading_seq(s))));
    if ends_in_type(base) {
        base + seq!['_']
    } else {
        base
    }
}

/// Every character of `s` may stand in an identifier.
pub open spec fn all_ident(s: Seq<char>) -> bool {
    forall|i: int| 0 <= i < s.len() ==> is_ident_char(s[i])
}

proof fn lemma_keep_ident_all(s: Seq<char>)
    ensures
        all_ident(keep_ident_seq(s)),
    decreases s.len(),
{
    if s.len() == 0 {
    } else {
        lemma_keep_ident_all(s.skip(1));
        if is_ident_char(s[0]) {
            assert forall|i: int| 0 <= i < keep_ident_seq(s).len() implies is_ident_char(
                keep_ident_seq(s)[i],
            ) by {
                if i > 0 {
                    assert(keep_ident_seq(s)[i] == keep_ident_seq(s.skip(1))[i - 1]);
                }
            }
        }
    }
}

proof fn lemma_strip_colour_noop(s: Seq<char>)
    requires
        forall|i: int| 0 <= i < s.len() ==> !is_colour_escape(s[i]),
    ensures
        strip_colour_seq(s) == s,
    decreases s.len(),
{
    if s.len() == 0 {
        assert(strip_colour_seq(s) =~= s);
    } else {
        assert(forall|i: int| 0 <= i < s.skip(1).len() ==> s.skip(1)[i] == s[i + 1]);
        lemma_strip_colour_noop(s.skip(1));
        assert(strip_colour_seq(s) =~= seq![s[0]] + s.skip(1));
        assert(seq![s[0]] + s.skip(1) =~= s);
    }
}

proof fn lemma_remove_space_noop(s: Seq<char>)
    requires
        forall|i: int| 0 <= i < s.len() ==> !is_space_char(s[i]),
    ensures
        remove_space_seq(s) == s,
    decreases s.len(),
{
    if s.len() == 0 {
        assert(remove_space_seq(s) =~= s);
    } else {
        assert(forall|i: int| 0 <= i < s.skip(1).len() ==> s.skip(1)[i] == s[i + 1]);
        lemma_remove_space_noop(s.skip(1));
        assert(remove_space_seq(s) =~= seq![s[0]] + s.skip(1));
        assert(seq![s[0]] + s.skip(1) =~= s);
    }
}

proof fn lemma_replace_symbols_noop(s: Seq<char>)
    requires
        forall|i: int| 0 <= i < s.len() ==> s[i] != '=' && s[i] != '<' && s[i] != '>',
    ensures
        replace_symbols_seq(s) == s,
    decreases s.len(),
{
    if s.len() == 0 {
        assert(replace_symbols_seq(s) =~= s);
    } else {
        assert(forall|i: int| 0 <= i < s.skip(1).len() ==> s.skip(1)[i] == s[i + 1]);
        lemma_replace_symbols_noop(s.skip(1));
        assert(symbol_word(s[0]) == seq![s[0]]);
        assert(replace_symbols_seq(s) =~= seq![s[0]] + s.skip(1));
        assert(seq![s[0]] + s.skip(1) =~= s);
    }
}

proof fn lemma_keep_ident_noop(s: Seq<char>)
    requires
        all_ident(s),
    ensures
        keep_ident_seq(s) == s,
    decreases s.len(),
{
    if s.len() == 0 {
        assert(keep_ident_seq(s) =~= s);
    } else {
        assert(forall|i: int| 0 <= i < s.skip(1).len() ==> s.skip(1)[i] == s[i + 1]);
        lemma_keep_ident_noop(s.skip(1));
        assert(keep_ident_seq(s) =~= seq![s[0]] + s.skip(1));
        assert(seq![s[0]] + s.skip(1) =~= s);
    }
}

proof fn lemma_remove_leading_first(s: Seq<char>)
    ensures
        remove_leading_seq(s).len() == 0 || is_ascii_letter(remove_leading_seq(s)[0]),
    decreases s.len(),
{
    if s.len() == 0 {
    } else if is_ascii_letter(s[0]) {
    } else {
        lemma_remove_leading_first(s.skip(1));
    }
}

proof fn lemma_remove_space_first(s: Seq<char>)
    requires
        s.len() > 0,
        is_ascii_letter(s[0]),
    ensures
        remove_space_seq(s).len() > 0,
        remove_space_seq(s)[0] == s[0],
{
    assert(remove_space_seq(s) == seq![s[0]] + remove_space_seq(s.skip(1)));
}

proof fn lemma_replace_symbols_first(s: Seq<char>)
    requires
        s.len() > 0,
        is_ascii_letter(s[0]),
    ensures
        replace_symbols_seq(s).len() > 0,
        replace_symbols_seq(s)[0] == s[0],
{
    assert(symbol_word(s[0]) == seq![s[0]]);
    assert(replace_symbols_seq(s) == seq![s[0]] + replace_symbols_seq(s.skip(1)));
}

proof fn lemma_keep_ident_first(s: Seq<char>)
    requires
        s.len() > 0,
        is_ascii_letter(s[0]),
    ensures
        keep_ident_seq(s).len() > 0,
        keep_ident_seq(s)[0] == s[0],
{
    assert(keep_ident_seq(s) == seq![s[0]] + keep_ident_seq(s.skip(1)));
}

/// A sanitized name is empty or starts with an ASCII letter, and holds only
/// identifier characters.
pub proof fn lemma_format_name_shape(s: Seq<char>)
    ensures
        all_ident(format_name_seq(s)),
        format_name_seq(s).len() == 0 || is_ascii_letter(format_name_seq(s)[0]),
{
    let t = remove_leading_seq(strip_colour_seq(s));
    lemma_keep_ident_all(replace_symbols_seq(remove_space_seq(t)));
    lemma_remove_leading_first(strip_colour_seq(s));
    if t.len() == 0 {
        assert(remove_space_seq(t) =~= Seq::<char>::empty());
        assert(replace_symbols_seq(remove_space_seq(t)) =~= Seq::<char>::empty());
        assert(format_name_seq(s) =~= Seq::<char>::empty());
    } else {
        lemma_remove_space_first(t);
        lemma_replace_symbols_first(remove_space_seq(t));
        lemma_keep_ident_first(replace_symbols_seq(remove_space_seq(t)));
    }
}

/// The sanitizer is idempotent: running it on its own output changes
/// nothing.
pub proof fn lemma_format_name_idempotent(s: Seq<char>)
    ensures
        format_name_seq(format_name_seq(s)) == format_name_seq(s),
{
    let y = format_name_seq(s);
    lemma_format_name_shape(s);
    assert(forall|i: int| 0 <= i < y.len() ==> !is_colour_escape(y[i]));
    lemma_strip_colour_noop(y);
    if y.len() > 0 {
        assert(remove_leading_seq(y) == y);
    } else {
        assert(remove_leading_seq(y) =~= y);
    }
    assert(forall|i: int| 0 <= i < y.len() ==> !is_space_char(y[i]));
    lemma_remove_space_noop(y);
    assert(forall|i: int| 0 <= i < y.len() ==> y[i] != '=' && y[i] != '<' && y[i] != '>');
    lemma_replace_symbols_noop(y);
    lemma_keep_ident_noop(y);
}

fn strip_colour_rec(v: &Vec<char>, i: usize) -> (r: Vec<char>)
    requires
        i <= v.len(),
    ensures
        r@ == strip_colour_seq(v@.skip(i as int)),
    decreases v.len() - i,
{
    if i == v.len() {
        proof {
            assert(v@.skip(i as int) =~= Seq::<char>::empty());
        }
        Vec::new()
    } else if char_is_colour_escape(v[i]) {
        if v.len() - i >= 2 {
            let r = strip_colour_rec(v, i + 2);
            proof {
                assert(v@.skip(i as int).skip(2) =~= v@.skip(i as int + 2));
            }
            r
        } else {
            Vec::new()
        }
    } else {
        let mut r: Vec<char> = Vec::new();
        r.push(v[i]);
        let mut rest = strip_colour_rec(v, i + 1);
        r.append(&mut rest);
        proof {
            assert(v@.skip(i as int).skip(1) =~= v@.skip(i as int + 1));
            assert(r@ =~= seq![v@[i as int]] + strip_colour_seq(v@.skip(i as int + 1)));
        }
        r
    }
}

fn remove_leading_rec(v: &Vec<char>, i: usize) -> (r: Vec<char>)
    requires
        i <= v.len(),
    ensures
        r@ == remove_leading_seq(v@.skip(i as int)),
    decreases v.len() - i,
{
    if i == v.len() {
        proof {
            assert(v@.skip(i as int) =~= Seq::<char>::empty());
        }
        Vec::new()
    } else if char_is_ascii_letter(v[i]) {
        let mut r: Vec<char> = Vec::new();
        let mut j: usize = i;
        while j < v.len()
            invariant
                i <= j <= v.len(),
                r@ == v@.subrange(i as int, j as int),
            decreases v.len() - j,
        {
            r.push(v[j]);
            proof {
                assert(v@.subrange(i as int, j as int + 1) =~= v@.subrange(
                    i as int,
                    j as int,
                ).push(v@[j as int]));
            }
            j = j + 1;
        }
        proof {
            assert(v@.subrange(i as int, v@.len() as int) =~= v@.skip(i as int));
        }
        r
    } else {
        let r = remove_leading_rec(v, i + 1);
        proof {
            assert(v@.skip(i as int).skip(1) =~= v@.skip(i as int + 1));
        }
        r
    }
}

fn remove_space_rec(v: &Vec<char>, i: usize) -> (r: Vec<char>)
    requires
        i <= v.len(),
    ensures
        r@ == remove_space_seq(v@.skip(i as int)),
    decreases v.len() - i,
{
    if i == v.len() {
        proof {
            assert(v@.skip(i as int) =~= Seq::<char>::empty());
        }
        Vec::new()
    } else if char_is_space(v[i]) {
        let r = remove_space_rec(v, i + 1);
        proof {
            assert(v@.skip(i as int).skip(1) =~= v@.skip(i as int + 1));
        }
        r
    } else {
        let mut r: Vec<char> = Vec::new();
        r.push(v[i]);
        let mut rest = remove_space_rec(v, i + 1);
        r.append(&mut rest);
        proof {
            assert(v@.skip(i as int).skip(1) =~= v@.skip(i as int + 1));
            assert(r@ =~= seq![v@[i as int]] + remove_space_seq(v@.skip(i as int + 1)));
        }
        r
    }
}

fn symbol_word_vec(c: char) -> (r: Vec<char>)
    ensures
        r@ == symbol_word(c),
{
    let mut r: Vec<char> = Vec::new();
    if c == '=' {
        r.push('E');
        r.push('q');
        proof {
            assert(r@ =~= symbol_word(c));
        }
    } else if c == '<' {
        r.push('L');
        r.push('e');
        r.push('s');
        r.push('s');
        r.push('T');
        r.push('h');
        r.push('a');
        r.push('n');
        proof {
            assert(r@ =~= symbol_word(c));
        }
    } else if c == '>' {
        r.push('G');
        r.push('r');
        r.push('e');
        r.push('a');
        r.push('t');
        r.push('e');
        r.push('r');
        r.push('T');
        r.push('h');
        r.push('a');
        r.push('n');
        proof {
            assert(r@ =~= symbol_word(c));
        }
    } else {
        r.push(c);
        proof {
            assert(r@ =~= symbol_word(c));
        }
    }
    r
}

fn replace_symbols_rec(v: &Vec<char>, i: usize) -> (r: Vec<char>)
    requires
        i <= v.len(),
    ensures
        r@ == replace_symbols_seq(v@.skip(i as int)),
    decreases v.len() - i,
{
    if i == v.len() {
        proof {
            assert(v@.skip(i as int) =~= Seq::<char>::empty());
        }
        Vec::new()
    } else {
        let mut r = symbol_word_vec(v[i]);
        let mut rest = replace_symbols_rec(v, i + 1);
        r.append(&mut rest);
        proof {
            assert(v@.skip(i as int).skip(1) =~= v@.skip(i as int + 1));
            assert(r@ =~= symbol_word(v@[i as int]) + replace_symbols_seq(v@.skip(i as int + 1)));
        }
        r
    }
}

fn keep_ident_rec(v: &Vec<char>, i: usize) -> (r: Vec<char>)
    requires
        i <= v.len(),
    ensures
        r@ == keep_ident_seq(v@.skip(i as int)),
    decreases v.len() - i,
{
    if i == v.len() {
        proof {
            assert(v@.skip(i as int) =~= Seq::<char>::empty());
        }
        Vec::new()
    } else if char_is_ident(v[i]) {
        let mut r: Vec<char> = Vec::new();
        r.push(v[i]);
        let mut rest = keep_ident_rec(v, i + 1);
        r.append(&mut rest);
        proof {
            assert(v@.skip(i as int).skip(1) =~= v@.skip(i as int + 1));
            assert(r@ =~= seq![v@[i as int]] + keep_ident_seq(v@.skip(i as int + 1)));
        }
        r
    } else {
        let r = keep_ident_rec(v, i + 1);
        proof {
            assert(v@.skip(i as int).skip(1) =~= v@.skip(i as int + 1));
        }
        r
    }
}

fn digit_word_vec(c: char) -> (r: Vec<char>)
    ensures
        r@ == digit_word(c),
{
    let mut r: Vec<char> = Vec::new();
    if c == '0' {
        r.push('Z');
        r.push('e');
        r.push('r');
        r.push('o');
    } else if c == '1' {
        r.push('O');
        r.push('n');
        r.push('e');
    } else if c == '2' {
        r.push('T');
        r.push('w');
        r.push('o');
    } else if c == '3' {
        r.push('T');
        r.push('h');
        r.push('r');
        r.push('e');
        r.push('e');
    } else if c == '4' {
        r.push('F');
        r.push('o');
        r.push('u');
        r.push('r');
    } else if c == '5' {
        r.push('F');
        r.push('i');
        r.push('v');
        r.push('e');
    } else if c == '6' {
        r.push('S');
        r.push('i');
        r.push('x');
    } else if c == '7' {
        r.push('S');
        r.push('e');
        r.push('v');
        r.push('e');
        r.push('n');
    } else if c == '8' {
        r.push('E');
        r.push('i');
        r.push('g');
        r.push('h');
        r.push('t');
    } else if c == '9' {
        r.push('N');
        r.push('i');
        r.push('n');
        r.push('e');
    } else {
        r.push(c);
    }
    proof {
        assert(r@ =~= digit_word(c));
    }
    r
}

fn replace_numeric_rec(v: &Vec<char>, i: usize) -> (r: Vec<char>)
    requires
        i <= v.len(),
    ensures
        r@ == replace_numeric_seq(v@.skip(i as int)),
    decreases v.len() - i,
{
    if i == v.len() {
        proof {
            assert(v@.skip(i as int) =~= Seq::<char>::empty());
        }
        Vec::new()
    } else {
        let mut r = digit_word_vec(v[i]);
        let mut rest = replace_numeric_rec(v, i + 1);
        r.append(&mut rest);
        proof {
            assert(v@.skip(i as int).skip(1) =~= v@.skip(i as int + 1));
            assert(r@ =~= digit_word(v@[i as int]) + replace_numeric_seq(v@.skip(i as int + 1)));
        }
        r
    }
}

fn camel_rec(v: &Vec<char>, i: usize, capitalize: bool) -> (r: Vec<char>)
    requires
        i <= v.len(),
    ensures
        r@ == camel_seq(v@.skip(i as int), capitalize),
    decreases v.len() - i,
{
    if i == v.len() {
        proof {
            assert(v@.skip(i as int) =~= Seq::<char>::empty());
        }
        Vec::new()
    } else if v[i] == '_' || v[i] == ' ' {
        let r = camel_rec(v, i + 1, true);
        proof {
            assert(v@.skip(i as int).skip(1) =~= v@.skip(i as int + 1));
        }
        r
    } else if capitalize && char_is_ascii_letter(v[i]) {
        let mut r: Vec<char> = Vec::new();
        r.push(char_to_upper(v[i]));
        let mut rest = camel_rec(v, i + 1, false);
        r.append(&mut rest);
        proof {
            assert(v@.skip(i as int).skip(1) =~= v@.skip(i as int + 1));
            assert(r@ =~= seq![to_upper(v@[i as int])] + camel_seq(v@.skip(i as int + 1), false));
        }
        r
    } else {
        let mut r: Vec<char> = Vec::new();
        r.push(v[i]);
        let mut rest = camel_rec(v, i + 1, capitalize);
        r.append(&mut rest);
        proof {
            assert(v@.skip(i as int).skip(1) =~= v@.skip(i as int + 1));
            assert(r@ =~= seq![v@[i as int]] + camel_seq(v@.skip(i as int + 1), capitalize));
        }
        r
    }
}

fn underscore_vec(v: &Vec<char>) -> (r: Vec<char>)
    ensures
        r@ == underscore_seq(v@),
{
    let mut r: Vec<char> = Vec::new();
    let mut i: usize = 0;
    while i < v.len()
        invariant
            i <= v.len(),
            r@.len() == i,
            forall|k: int| 0 <= k < i ==> r@[k] == space_to_underscore(v@[k]),
        decreases v.len() - i,
    {
        if v[i] == ' ' {
            r.push('_');
        } else {
            r.push(v[i]);
        }
        i = i + 1;
    }
    proof {
        assert(r@ =~= underscore_seq(v@));
    }
    r
}

fn lower_vec(v: &Vec<char>) -> (r: Vec<char>)
    ensures
        r@ == lower_seq(v@),
{
    let mut r: Vec<char> = Vec::new();
    let mut i: usize = 0;
    while i < v.len()
        invariant
            i <= v.len(),
            r@.len() == i,
            forall|k: int| 0 <= k < i ==> r@[k] == to_lower(v@[k]),
        decreases v.len() - i,
    {
        r.push(char_to_lower(v[i]));
        i = i + 1;
    }
    proof {
        assert(r@ =~= lower_seq(v@));
    }
    r
}

fn ends_in_type_vec(v: &Vec<char>) -> (r: bool)
    ensures
        r == ends_in_type(v@),
{
    let n = v.len();
    if n < 4 {
        return false;
    }
    let r = v[n - 4] == 't' && v[n - 3] == 'y' && v[n - 2] == 'p' && v[n - 1] == 'e';
    proof {
        let tail = v@.subrange(v@.len() - 4, v@.len() as int);
        assert(tail.len() == 4);
        assert(tail[0] == v@[v@.len() - 4]);
        assert(tail[1] == v@[v@.len() - 3]);
        assert(tail[2] == v@[v@.len() - 2]);
        assert(tail[3] == v@[v@.len() - 1]);
        if r {
            assert(tail =~= seq!['t', 'y', 'p', 'e']);
        } else {
            assert(tail != seq!['t', 'y', 'p', 'e']);
        }
    }
    r
}

/// Colour escapes stripped from a character buffer.
pub(crate) fn strip_colour_vec(v: &Vec<char>) -> (r: Vec<char>)
    ensures
        r@ == strip_colour_seq(v@),
{
    proof {
        assert(v@.skip(0) =~= v@);
    }
    strip_colour_rec(v, 0)
}

/// Colour escapes stripped, nothing else changed.
pub fn strip_colour(name: &str) -> (r: String)
    ensures
        r@ == strip_colour_seq(name@),
{
    let v = str_chars(name);
    let out = strip_colour_rec(&v, 0);
    proof {
        assert(v@.skip(0) =~= v@);
    }
    chars_to_string(&out)
}

/// Everything before the first ASCII letter removed, nothing else changed.
pub fn remove_leading_nonalpha(name: &str) -> (r: String)
    ensures
        r@ == remove_leading_seq(name@),
{
    let v = str_chars(name);
    let out = remove_leading_rec(&v, 0);
    proof {
        assert(v@.skip(0) =~= v@);
    }
    chars_to_string(&out)
}

/// Digits spelled out as capitalized words, nothing else changed.
pub fn replace_numeric(name: &str) -> (r: String)
    ensures
        r@ == replace_numeric_seq(name@),
{
    let v = str_chars(name);
    let out = replace_numeric_rec(&v, 0);
    proof {
        assert(v@.skip(0) =~= v@);
    }
    chars_to_string(&out)
}

/// The full sanitizer.
pub fn format_name(name: &str) -> (r: String)
    ensures
        r@ == format_name_seq(name@),
{
    let v = str_chars(name);
    proof {
        assert(v@.skip(0) =~= v@);
    }
    let a = strip_colour_rec(&v, 0);
    proof {
        assert(a@.skip(0) =~= a@);
    }
    let b = remove_leading_rec(&a, 0);
    proof {
        assert(b@.skip(0) =~= b@);
    }
    let c = remove_space_rec(&b, 0);
    proof {
        assert(c@.skip(0) =~= c@);
    }
    let d = replace_symbols_rec(&c, 0);
    proof {
        assert(d@.skip(0) =~= d@);
    }
    let e = keep_ident_rec(&d, 0);
    chars_to_string(&e)
}

/// The case-folding helper.
pub fn snake_to_camel_case(s: &str) -> (r: String)
    ensures
        r@ == camel_seq(s@, true),
{
    let v = str_chars(s);
    proof {
        assert(v@.skip(0) =~= v@);
    }
    let out = camel_rec(&v, 0, true);
    chars_to_string(&out)
}

/// The codeblock key of a codeblock display name: lower-cased, spaces as
/// underscores.
pub open spec fn codeblock_key_seq(s: Seq<char>) -> Seq<char> {
    underscore_seq(lower_seq(s))
}

/// The codeblock key of a codeblock display name.
pub fn codeblock_key(s: &str) -> (r: String)
    ensures
        r@ == codeblock_key_seq(s@),
{
    let v = str_chars(s);
    let a = lower_vec(&v);
    let b = underscore_vec(&a);
    chars_to_string(&b)
}

/// The lower-case field identifier pipeline.
pub fn field_ident(s: &str) -> (r: String)
    ensures
        r@ == field_ident_seq(s@),
{
    let v = str_chars(s);
    proof {
        assert(v@.skip(0) =~= v@);
    }
    let a = remove_leading_rec(&v, 0);
    let b = underscore_vec(&a);
    proof {
        assert(b@.skip(0) =~= b@);
    }
    let c = keep_ident_rec(&b, 0);
    let mut d = lower_vec(&c);
    if ends_in_type_vec(&d) {
        d.push('_');
    }
    chars_to_string(&d)
}

} // verus!
