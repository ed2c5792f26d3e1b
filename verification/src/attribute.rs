//! The `error(..)` attribute of a variant.

use vstd::prelude::*;
use crate::error::{Expected, GenerationError, GenerationErrorView};
use crate::literal::{
    integer_literal, integer_literal_u16, is_integer_literal, is_string_literal, string_literal,
    string_literal_value,
};
use crate::model::result_view;
use crate::text::{ends_in_ascii, last_is_ascii, same_text};
use crate::token::{Token, TokenView};

verus! {

/// The smallest status code that is accepted.
pub const MIN_STATUS_CODE: u16 = 100;

/// The largest status code that is accepted.
pub const MAX_STATUS_CODE: u16 = 599;

/// What an `error(..)` attribute says: the status code of the response and
/// the template of its message.
#[derive(Debug, PartialEq, Eq)]
pub struct ErrorSpec {
    pub code: u16,
    pub msg: String,
}

/// The mathematical value of an [`ErrorSpec`].
pub struct ErrorSpecView {
    pub code: u16,
    pub msg: Seq<char>,
}

impl View for ErrorSpec {
    type V = ErrorSpecView;

    open spec fn view(&self) -> ErrorSpecView {
        ErrorSpecView { code: self.code, msg: self.msg@ }
    }
}

impl DeepView for ErrorSpec {
    type V = ErrorSpecView;

    open spec fn deep_view(&self) -> ErrorSpecView {
        self@
    }
}

impl ErrorSpecView {
    /// The code is an HTTP status code.
    pub open spec fn wf(self) -> bool {
        MIN_STATUS_CODE <= self.code <= MAX_STATUS_CODE
    }
}

/// Whether the token at place `i` is the word `word`.
pub open spec fn is_ident(tokens: Seq<TokenView>, i: int, word: Seq<char>) -> bool {
    0 <= i < tokens.len() && tokens[i] == TokenView::Ident(word)
}

/// Whether the token at place `i` is the punctuation character `c`.
pub open spec fn is_punct(tokens: Seq<TokenView>, i: int, c: char) -> bool {
    0 <= i < tokens.len() && tokens[i] == TokenView::Punct(c)
}

/// Whether the token at place `i` is a literal.
pub open spec fn is_literal(tokens: Seq<TokenView>, i: int) -> bool {
    0 <= i < tokens.len() && tokens[i] is Literal
}

/// The token at place `i`, or `None` where the tokens end before it.
pub open spec fn found_at(tokens: Seq<TokenView>, i: int) -> Option<TokenView> {
    if 0 <= i < tokens.len() {
        Some(tokens[i])
    } else {
        None
    }
}

/// The error for tokens that depart from the grammar at place `i`.
pub open spec fn malformed(tokens: Seq<TokenView>, i: int, expected: Expected)
    -> GenerationErrorView {
    GenerationErrorView::MalformedErrorSpec { expected, found: found_at(tokens, i) }
}

/// What the tokens of an `error(..)` attribute say, given the reading `code`
/// of the third token as an integer literal and the reading `msg` of the
/// seventh as a string literal.
///
/// The grammar is `code = <integer> , msg = <string>` and nothing else. The
/// first place that departs from it decides the error. Tokens that end right
/// after the status code miss the message, and the error names `msg`.
pub open spec fn error_spec_of(
    tokens: Seq<TokenView>,
    code: Option<Option<u16>>,
    msg: Option<Seq<char>>,
) -> Result<ErrorSpecView, GenerationErrorView> {
    if !is_ident(tokens, 0, "code"@) {
        Err(malformed(tokens, 0, Expected::Code))
    } else if !is_punct(tokens, 1, '=') {
        Err(malformed(tokens, 1, Expected::Assign))
    } else if !(is_literal(tokens, 2) && code is Some) {
        Err(malformed(tokens, 2, Expected::StatusCode))
    } else if !(code->0 matches Some(c) && MIN_STATUS_CODE <= c <= MAX_STATUS_CODE) {
        Err(GenerationErrorView::InvalidStatusCode { literal: tokens[2].text() })
    } else if tokens.len() == 3 {
        Err(malformed(tokens, 3, Expected::Msg))
    } else if !is_punct(tokens, 3, ',') {
        Err(malformed(tokens, 3, Expected::Comma))
    } else if !is_ident(tokens, 4, "msg"@) {
        Err(malformed(tokens, 4, Expected::Msg))
    } else if !is_punct(tokens, 5, '=') {
        Err(malformed(tokens, 5, Expected::Assign))
    } else if !(is_literal(tokens, 6) && msg is Some) {
        Err(malformed(tokens, 6, Expected::Message))
    } else if tokens.len() > 7 {
        Err(malformed(tokens, 7, Expected::End))
    } else {
        Ok(ErrorSpecView { code: code->0->0, msg: msg->0 })
    }
}

/// The reading of the token at place `i` as an integer literal: `None` where
/// there is no such token or it is no integer literal, else its value as far
/// as it fits 16 bits.
pub open spec fn integer_reading(tokens: Seq<TokenView>, i: int) -> Option<Option<u16>> {
    if is_literal(tokens, i) && is_integer_literal(tokens[i].text()) {
        Some(integer_literal_u16(tokens[i].text()))
    } else {
        None
    }
}

/// The reading of the token at place `i` as a string literal: `None` where
/// there is no such token, where it is no string literal or where its text
/// ends in a character outside of ASCII, else the string it stands for.
pub open spec fn string_reading(tokens: Seq<TokenView>, i: int) -> Option<Seq<char>> {
    if is_literal(tokens, i) && ends_in_ascii(tokens[i].text()) && is_string_literal(
        tokens[i].text(),
    ) {
        Some(string_literal_value(tokens[i].text()))
    } else {
        None
    }
}

/// What the tokens of an `error(..)` attribute say: the third of them read as
/// an integer literal and the seventh as a string literal, and all of them
/// held against the grammar.
pub open spec fn declared_spec(tokens: Seq<TokenView>) -> Result<
    ErrorSpecView,
    GenerationErrorView,
> {
    error_spec_of(tokens, integer_reading(tokens, 2), string_reading(tokens, 6))
}

/// Whether the token at place `i` is the word `word`.
fn ident_at(tokens: &Vec<Token>, i: usize, word: &str) -> (r: bool)
    ensures
        r == is_ident(tokens.deep_view(), i as int, word@),
{
    if i < tokens.len() {
        match &tokens[i] {
            Token::Ident(s) => same_text(s.as_str(), word),
            _ => false,
        }
    } else {
        false
    }
}

/// Whether the token at place `i` is the punctuation character `c`.
fn punct_at(tokens: &Vec<Token>, i: usize, c: char) -> (r: bool)
    ensures
        r == is_punct(tokens.deep_view(), i as int, c),
{
    if i < tokens.len() {
        match &tokens[i] {
            Token::Punct(p) => *p == c,
            _ => false,
        }
    } else {
        false
    }
}

/// Whether the token at place `i` is a literal.
fn literal_at(tokens: &Vec<Token>, i: usize) -> (r: bool)
    ensures
        r == is_literal(tokens.deep_view(), i as int),
{
    if i < tokens.len() {
        match &tokens[i] {
            Token::Literal(_) => true,
            _ => false,
        }
    } else {
        false
    }
}

/// A copy of the token at place `i`, or `None` where the tokens end before it.
pub(crate) fn found(tokens: &Vec<Token>, i: usize) -> (r: Option<Token>)
    ensures
        r.deep_view() == found_at(tokens.deep_view(), i as int),
{
    if i < tokens.len() {
        Some(tokens[i].clone())
    } else {
        None
    }
}

/// The error for tokens that depart from the grammar at place `i`.
fn depart(tokens: &Vec<Token>, i: usize, expected: Expected) -> (r: GenerationError)
    ensures
        r@ == malformed(tokens.deep_view(), i as int, expected),
{
    GenerationError::MalformedErrorSpec { expected, found: found(tokens, i) }
}

/// Holds the tokens of an `error(..)` attribute against the grammar, given
/// what the two literals among them were read as: `code` for the third token
/// and `msg` for the seventh.
pub fn error_spec_from(tokens: &Vec<Token>, code: Option<Option<u16>>, msg: Option<String>) -> (r:
    Result<ErrorSpec, GenerationError>)
    ensures
        result_view(r) == error_spec_of(tokens.deep_view(), code, msg.deep_view()),
        r matches Ok(spec) ==> spec@.wf(),
{
    if !ident_at(tokens, 0, "code") {
        return Err(depart(tokens, 0, Expected::Code));
    }
    if !punct_at(tokens, 1, '=') {
        return Err(depart(tokens, 1, Expected::Assign));
    }
    if !literal_at(tokens, 2) {
        return Err(depart(tokens, 2, Expected::StatusCode));
    }
    let code = match code {
        Some(value) => value,
        None => {
            return Err(depart(tokens, 2, Expected::StatusCode));
        },
    };
    let code = match code {
        Some(c) if MIN_STATUS_CODE <= c && c <= MAX_STATUS_CODE => c,
        _ => {
            return Err(GenerationError::InvalidStatusCode { literal: tokens[2].text() });
        },
    };
    if tokens.len() == 3 {
        return Err(depart(tokens, 3, Expected::Msg));
    }
    if !punct_at(tokens, 3, ',') {
        return Err(depart(tokens, 3, Expected::Comma));
    }
    if !ident_at(tokens, 4, "msg") {
        return Err(depart(tokens, 4, Expected::Msg));
    }
    if !punct_at(tokens, 5, '=') {
        return Err(depart(tokens, 5, Expected::Assign));
    }
    if !literal_at(tokens, 6) {
        return Err(depart(tokens, 6, Expected::Message));
    }
    let msg = match msg {
        Some(value) => value,
        None => {
            return Err(depart(tokens, 6, Expected::Message));
        },
    };
    if tokens.len() > 7 {
        return Err(depart(tokens, 7, Expected::End));
    }
    Ok(ErrorSpec { code, msg })
}

/// Reads the token at place `i` as an integer literal.
pub(crate) fn read_integer(tokens: &Vec<Token>, i: usize) -> (r: Option<Option<u16>>)
    ensures
        r == integer_reading(tokens.deep_view(), i as int),
{
    if i < tokens.len() {
        match &tokens[i] {
            Token::Literal(text) => integer_literal(text.as_str()),
            _ => None,
        }
    } else {
        None
    }
}

/// Reads the token at place `i` as a string literal.
pub(crate) fn read_string(tokens: &Vec<Token>, i: usize) -> (r: Option<String>)
    ensures
        r.deep_view() == string_reading(tokens.deep_view(), i as int),
{
    if i < tokens.len() {
        match &tokens[i] {
            Token::Literal(text) => {
                if last_is_ascii(text.as_str()) {
                    string_literal(text.as_str())
                } else {
                    None
                }
            },
            _ => None,
        }
    } else {
        None
    }
}

/// Decodes the tokens of an `error(..)` attribute into a status code and a
/// message template.
///
/// The tokens must read `code = <integer> , msg = <string>`, in this order
/// and with nothing after. The integer must be a status code, from 100 to
/// 599. The string is taken as the template, with its escapes resolved and
/// without a look at its placeholders.
pub fn validate_attribute(tokens: &Vec<Token>) -> (r: Result<ErrorSpec, GenerationError>)
    ensures
        result_view(r) == declared_spec(tokens.deep_view()),
        r matches Ok(spec) ==> spec@.wf(),
{
    let code = read_integer(tokens, 2);
    let msg = read_string(tokens, 6);
    error_spec_from(tokens, code, msg)
}

} // verus!
