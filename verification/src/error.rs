//! What stops generation.

use vstd::prelude::*;
use crate::token::{Token, TokenView};

verus! {

/// What the grammar `code = <integer>, msg = "<template>"` asks for at one
/// place of an `error(..)` attribute.
#[derive(Debug, Clone, Copy, PartialEq, Eq, Structural)]
pub enum Expected {
    /// The word `code`.
    Code,
    /// The character `=`.
    Assign,
    /// An integer literal.
    StatusCode,
    /// The character `,`.
    Comma,
    /// The word `msg`.
    Msg,
    /// A string literal.
    Message,
    /// Nothing more.
    End,
}

/// Why no conversion is generated for a declaration. Every one of these
/// stops generation for the whole enumeration.
#[derive(Debug, PartialEq, Eq)]
pub enum GenerationError {
    /// The declaration is a struct or a union.
    NotAnEnum,
    /// The variant has named fields, which cannot be bound by position.
    UnsupportedVariantShape { variant: String },
    /// The variant carries no `error(..)` attribute.
    MissingErrorSpec { variant: String },
    /// An `error(..)` attribute departs from the grammar: `found` is the token
    /// that stands where `expected` should, or `None` where the tokens end.
    MalformedErrorSpec { expected: Expected, found: Option<Token> },
    /// The `code` literal is no status code.
    InvalidStatusCode { literal: String },
    /// The `error_format(..)` attribute names no known content type: `found`
    /// is its first token.
    UnknownContentType { found: Option<Token> },
}

/// The mathematical value of a [`GenerationError`].
pub enum GenerationErrorView {
    NotAnEnum,
    UnsupportedVariantShape { variant: Seq<char> },
    MissingErrorSpec { variant: Seq<char> },
    MalformedErrorSpec { expected: Expected, found: Option<TokenView> },
    InvalidStatusCode { literal: Seq<char> },
    UnknownContentType { found: Option<TokenView> },
}

impl View for GenerationError {
    type V = GenerationErrorView;

    open spec fn view(&self) -> GenerationErrorView {
        match self {
            GenerationError::NotAnEnum => GenerationErrorView::NotAnEnum,
            GenerationError::UnsupportedVariantShape { variant } =>
                GenerationErrorView::UnsupportedVariantShape { variant: variant@ },
            GenerationError::MissingErrorSpec { variant } =>
                GenerationErrorView::MissingErrorSpec { variant: variant@ },
            GenerationError::MalformedErrorSpec { expected, found } =>
                GenerationErrorView::MalformedErrorSpec {
                    expected: *expected,
                    found: found.deep_view(),
                },
            GenerationError::InvalidStatusCode { literal } =>
                GenerationErrorView::InvalidStatusCode { literal: literal@ },
            GenerationError::UnknownContentType { found } =>
                GenerationErrorView::UnknownContentType { found: found.deep_view() },
        }
    }
}

impl DeepView for GenerationError {
    type V = GenerationErrorView;

    open spec fn deep_view(&self) -> GenerationErrorView {
        self@
    }
}

impl Expected {
    /// What is asked for, in words.
    pub open spec fn describe_spec(self) -> Seq<char> {
        match self {
            Expected::Code => "'code'"@,
            Expected::Assign => "'='"@,
            Expected::StatusCode => "http code error"@,
            Expected::Comma => "','"@,
            Expected::Msg => "'msg'"@,
            Expected::Message => "error message"@,
            Expected::End => "end of attribute"@,
        }
    }

    /// What is asked for, in words.
    pub fn describe(&self) -> (r: String)
        ensures
            r@ == self.describe_spec(),
    {
        match self {
            Expected::Code => "'code'".to_owned(),
            Expected::Assign => "'='".to_owned(),
            Expected::StatusCode => "http code error".to_owned(),
            Expected::Comma => "','".to_owned(),
            Expected::Msg => "'msg'".to_owned(),
            Expected::Message => "error message".to_owned(),
            Expected::End => "end of attribute".to_owned(),
        }
    }
}

/// A token that was found, as it is written, or the end of the attribute.
pub open spec fn found_text(found: Option<TokenView>) -> Seq<char> {
    match found {
        Some(token) => token.text(),
        None => "end of attribute"@,
    }
}

/// A token that was found, as it is written, or the end of the attribute.
fn write_found(found: &Option<Token>) -> (r: String)
    ensures
        r@ == found_text(found.deep_view()),
{
    match found {
        Some(token) => token.text(),
        None => "end of attribute".to_owned(),
    }
}

impl GenerationErrorView {
    /// The diagnostic message of the error: it names the variant or the
    /// token that is at fault.
    pub open spec fn message(self) -> Seq<char> {
        match self {
            GenerationErrorView::NotAnEnum => "Expected an enum"@,
            GenerationErrorView::UnsupportedVariantShape { variant } => "Variant "@ + variant
                + " has fields that cannot be bound by position"@,
            GenerationErrorView::MissingErrorSpec { variant } => "Variant "@ + variant
                + " has no error attribute"@,
            GenerationErrorView::MalformedErrorSpec { expected, found } => "Expected "@
                + expected.describe_spec() + ", found "@ + found_text(found),
            GenerationErrorView::InvalidStatusCode { literal } =>
                "Error code must be valid, found "@ + literal,
            GenerationErrorView::UnknownContentType { found } => "Unknown content type, found "@
                + found_text(found),
        }
    }
}

impl GenerationError {
    /// The diagnostic message of the error: it names the variant or the
    /// token that is at fault.
    pub fn message(&self) -> (r: String)
        ensures
            r@ == self@.message(),
    {
        match self {
            GenerationError::NotAnEnum => "Expected an enum".to_owned(),
            GenerationError::UnsupportedVariantShape { variant } => {
                let mut out = "Variant ".to_owned();
                out.append(variant.as_str());
                out.append(" has fields that cannot be bound by position");
                out
            },
            GenerationError::MissingErrorSpec { variant } => {
                let mut out = "Variant ".to_owned();
                out.append(variant.as_str());
                out.append(" has no error attribute");
                out
            },
            GenerationError::MalformedErrorSpec { expected, found } => {
                let mut out = "Expected ".to_owned();
                out.append(expected.describe().as_str());
                out.append(", found ");
                out.append(write_found(found).as_str());
                out
            },
            GenerationError::InvalidStatusCode { literal } => {
                let mut out = "Error code must be valid, found ".to_owned();
                out.append(literal.as_str());
                out
            },
            GenerationError::UnknownContentType { found } => {
                let mut out = "Unknown content type, found ".to_owned();
                out.append(write_found(found).as_str());
                out
            },
        }
    }
}

} // verus!
