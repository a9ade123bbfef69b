//! Character classes and ASCII case maps used by the identifier sanitizer.
//!
//! All predicates are defined over the scalar value of a `char`, so the spec
//! functions and their executable twins share one definition.

use vstd::prelude::*;

verus! {

/// An ASCII letter, `A`-`Z` or `a`-`z`.
pub open spec fn is_ascii_letter(c: char) -> bool {
    (65 <= c as u32 && c as u32 <= 90) || (97 <= c as u32 && c as u32 <= 122)
}

/// An ASCII decimal digit.
pub open spec fn is_ascii_digit(c: char) -> bool {
    48 <= c as u32 && c as u32 <= 57
}

/// A character that may stand in a generated identifier: ASCII alphanumeric
/// or underscore.
pub open spec fn is_ident_char(c: char) -> bool {
    is_ascii_letter(c) || is_ascii_digit(c) || c == '_'
}

/// The colour-escape character of the dump's display strings: the section
/// sign.  A colour escape is this character followed by one colour
/// selector.
pub open spec fn is_colour_escape(c: char) -> bool {
    c == '\u{a7}'
}

/// ASCII whitespace.  The sanitizer removes these.
pub open spec fn is_space_char(c: char) -> bool {
    c == ' ' || c as u32 == 9 || c as u32 == 10 || c as u32 == 13 || c as u32 == 11 || c as u32
        == 12
}

/// An ASCII uppercase letter mapped to lowercase; everything else unchanged.
pub open spec fn to_lower(c: char) -> char {
    if 65 <= c as u32 && c as u32 <= 90 {
        ((c as u32) + 32) as char
    } else {
        c
    }
}

/// An ASCII lowercase letter mapped to uppercase; everything else unchanged.
pub open spec fn to_upper(c: char) -> char {
    if 97 <= c as u32 && c as u32 <= 122 {
        ((c as u32) - 32) as char
    } else {
        c
    }
}

pub fn char_is_ascii_letter(c: char) -> (r: bool)
    ensures
        r == is_ascii_letter(c),
{
    let u = c as u32;
    (65 <= u && u <= 90) || (97 <= u && u <= 122)
}

pub fn char_is_ident(c: char) -> (r: bool)
    ensures
        r == is_ident_char(c),
{
    let u = c as u32;
    (65 <= u && u <= 90) || (97 <= u && u <= 122) || (48 <= u && u <= 57) || c == '_'
}

pub fn char_is_colour_escape(c: char) -> (r: bool)
    ensures
        r == is_colour_escape(c),
{
    c == '\u{a7}'
}

pub fn char_is_space(c: char) -> (r: bool)
    ensures
        r == is_space_char(c),
{
    let u = c as u32;
    u == 32 || u == 9 || u == 10 || u == 13 || u == 11 || u == 12
}

pub fn char_to_lower(c: char) -> (r: char)
    ensures
        r == to_lower(c),
{
    let u = c as u32;
    if 65 <= u && u <= 90 {
        ((u + 32) as u8) as char
    } else {
        c
    }
}

pub fn char_to_upper(c: char) -> (r: char)
    ensures
        r == to_upper(c),
{
    let u = c as u32;
    if 97 <= u && u <= 122 {
        ((u - 32) as u8) as char
    } else {
        c
    }
}

} // verus!
