//! Response generation for error enumerations.
//!
//! An enumeration whose variants carry `error(code = .., msg = "..")` is
//! turned into a conversion from each variant to an HTTP response: the status
//! code of the variant, a content type, and the variant's message with its
//! fields substituted, as plain text or wrapped in a JSON object.
//!
//! [`impl_error`] generates the source text of the conversion from a
//! [`DeriveInput`]; [`generate`] gives the same conversion as a value, which
//! [`Conversion::into_response`] applies to a variant and its fields.

pub mod model;
pub mod text;
pub mod token;
pub mod literal;
pub mod error;
pub mod attribute;
pub mod declaration;
pub mod arm;
pub mod template;
pub mod response;
pub mod conversion;
pub mod source;

pub use crate::arm::{match_arm, match_error, retrieve_params, MatchArm};
pub use crate::attribute::{error_spec_from, validate_attribute, ErrorSpec};
pub use crate::conversion::{generate, Conversion, ConversionError};
pub use crate::declaration::{
    find_block, find_named, retrieve_variants, Attribute, Data, DeriveInput, Fields, MetaKind, Variant,
};
pub use crate::error::{Expected, GenerationError};
pub use crate::response::{
    assemble, json_envelope, response_format, response_format_from, response_format_named,
    wrap_body, Response, ResponseFormat,
};
pub use crate::source::{axum_error_macro_derive, impl_error, write_string_literal};
pub use crate::template::{
    parse_template, render, FieldValue, RenderError, Segment, Style,
};
pub use crate::token::Token;
