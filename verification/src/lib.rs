//! Compiler from a JSON "action dump" (a visual-scripting instruction set)
//! to generated sum types and serializers, one per codeblock.
//!
//! The pipeline: a generic JSON tree ([`json::Json`]) is decoded into the
//! schema model ([`raw_types`]), names are sanitized ([`sanitize`]) and
//! resolved against a collision set ([`names`]), the positional argument
//! grammar is parsed into typed parameters ([`grammar`]), tags are turned
//! into closed option types ([`tags`]), and everything is aggregated into
//! one generated unit per codeblock ([`compile`]).  The canonical JSON call
//! envelope the generated serializers must produce is defined in [`emit`].

pub mod chars;
mod strutil;
pub mod sanitize;
pub mod raw_types;
pub mod json;
pub mod decode;
pub mod grammar;
pub mod names;
pub mod tags;
pub mod emit;
pub mod compile;
