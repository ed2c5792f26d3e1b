//! Literals of Rust source text, read by the `litrs` crate.

use vstd::prelude::*;
use crate::text::ends_in_ascii;

verus! {

/// Whether `text` is an integer literal, as `litrs::IntegerLit::parse` decides it.
pub uninterp spec fn is_integer_literal(text: Seq<char>) -> bool;

/// The number that the integer literal `text` stands for, as
/// `litrs::IntegerLit::value` computes it for `u16`; `None` where it does not
/// fit 16 bits.
pub uninterp spec fn integer_literal_u16(text: Seq<char>) -> Option<u16>;

/// Whether `text` is a string literal, as `litrs::StringLit::parse` decides it.
pub uninterp spec fn is_string_literal(text: Seq<char>) -> bool;

/// The characters that the string literal `text` stands for, as
/// `litrs::StringLit::value` gives them: escapes resolved, quotes removed.
pub uninterp spec fn string_literal_value(text: Seq<char>) -> Seq<char>;

/// Reads `text` as an integer literal with `litrs::IntegerLit::parse`, and
/// takes its value as a `u16` with `litrs::IntegerLit::value`.
///
/// The outer `Option` says whether `text` is an integer literal at all: a base
/// prefix, underscores and a type suffix are part of the literal. The inner
/// one holds its value, or `None` where the value overflows `u16`; the type
/// suffix plays no part in the value.
///
/// Nothing is proved of this function. Its contract claims that the parser
/// returns on every text, and that what it returns depends on the text alone,
/// which is what gives the two names their meaning.
#[verifier::external_body]
pub(crate) fn integer_literal(text: &str) -> (r: Option<Option<u16>>)
    ensures
        r is Some <==> is_integer_literal(text@),
        r matches Some(v) ==> v == integer_literal_u16(text@),
{
    match litrs::IntegerLit::parse(text) {
        Ok(lit) => Some(lit.value::<u16>()),
        Err(_) => None,
    }
}

/// Reads `text` as a string literal with `litrs::StringLit::parse`, and takes
/// the string it stands for with `litrs::StringLit::value`.
///
/// The result is `None` where `text` is no string literal, plain or raw. A
/// suffix behind the closing quote is part of the literal and plays no part in
/// the string.
///
/// Nothing is proved of this function. Its contract claims that the parser
/// returns on every text that ends in an ASCII character, and that what it
/// returns depends on the text alone. On other texts it may not return: it
/// slices the text one byte before its end when it meets an escape, and that
/// is then no character boundary.
#[verifier::external_body]
pub(crate) fn string_literal(text: &str) -> (r: Option<String>)
    requires
        ends_in_ascii(text@),
    ensures
        r is Some <==> is_string_literal(text@),
        r matches Some(s) ==> s@ == string_literal_value(text@),
{
    match litrs::StringLit::parse(text) {
        Ok(lit) => Some(lit.value().to_owned()),
        Err(_) => None,
    }
}

} // verus!
