//! The generated conversion: from a variant with its fields to a response.

use vstd::prelude::*;
use vstd::utf8::encode_utf8;
use crate::arm::{
    arm_of, arms_of, first_fault, lemma_arms_all_or_none, match_error, bindings_of, MatchArm,
    MatchArmView,
};
use crate::attribute::{declared_spec, MAX_STATUS_CODE, MIN_STATUS_CODE};
use crate::declaration::{
    first_block, first_named, retrieve_variants, variants_of, DeriveInput, DeriveInputView,
};
use crate::error::{GenerationError, GenerationErrorView};
use crate::model::{first_where, lemma_first_where, result_view};
use crate::response::{
    assemble, json_string_text, response_format, response_format_of, response_of, Response,
    ResponseFormat, ResponseView,
};
use crate::template::{render, render_spec, FieldValue, FieldValueView, RenderError};
use crate::text::same_text;

verus! {

/// What is generated for one enumeration: its name, the format of its
/// responses, and one arm per variant.
#[derive(Debug, PartialEq, Eq)]
pub struct Conversion {
    pub ident: String,
    pub format: ResponseFormat,
    pub arms: Vec<MatchArm>,
}

/// The mathematical value of a [`Conversion`].
pub struct ConversionView {
    pub ident: Seq<char>,
    pub format: ResponseFormat,
    pub arms: Seq<MatchArmView>,
}

impl View for Conversion {
    type V = ConversionView;

    open spec fn view(&self) -> ConversionView {
        ConversionView { ident: self.ident@, format: self.format, arms: self.arms.deep_view() }
    }
}

impl DeepView for Conversion {
    type V = ConversionView;

    open spec fn deep_view(&self) -> ConversionView {
        self@
    }
}

impl ConversionView {
    /// Every arm is well formed.
    pub open spec fn wf(self) -> bool {
        forall|i: int| 0 <= i < self.arms.len() ==> (#[trigger] self.arms[i]).wf()
    }
}

/// The conversion of a declaration. The declaration must be an enumeration,
/// its `error_format(..)` must name a format, and every variant must have
/// its arm; the first of these that fails decides the error.
pub open spec fn conversion_of(ast: DeriveInputView) -> Result<
    ConversionView,
    GenerationErrorView,
> {
    match variants_of(ast) {
        Err(e) => Err(e),
        Ok(variants) => match response_format_of(ast.attrs) {
            Err(e) => Err(e),
            Ok(format) => match arms_of(variants) {
                Err(e) => Err(e),
                Ok(arms) => Ok(ConversionView { ident: ast.ident, format, arms }),
            },
        },
    }
}

/// Generates the conversion of a declaration: scans its variants, decodes
/// their attributes and builds their arms. Any failure stops generation;
/// nothing is generated in part.
pub fn generate(ast: &DeriveInput) -> (r: Result<Conversion, GenerationError>)
    ensures
        result_view(r) == conversion_of(ast@),
        r matches Ok(conversion) ==> conversion@.wf(),
{
    let variants = match retrieve_variants(ast) {
        Ok(variants) => variants,
        Err(e) => {
            return Err(e);
        },
    };
    let format = match response_format(&ast.attrs) {
        Ok(format) => format,
        Err(e) => {
            return Err(e);
        },
    };
    match match_error(variants) {
        Ok(arms) => Ok(Conversion { ident: ast.ident.clone(), format, arms }),
        Err(e) => Err(e),
    }
}

/// The place of the first arm for the variant of the given name.
pub open spec fn first_arm(arms: Seq<MatchArmView>, variant: Seq<char>) -> Option<int> {
    first_where(arms, |arm: MatchArmView| arm.variant == variant)
}

/// The place of the first arm for the variant of the given name.
pub fn find_arm(arms: &Vec<MatchArm>, variant: &str) -> (r: Option<usize>)
    ensures
        match r {
            Some(i) => i < arms.len() && first_arm(arms.deep_view(), variant@) == Some(i as int),
            None => first_arm(arms.deep_view(), variant@) is None,
        },
{
    let ghost all = arms.deep_view();
    let ghost wanted = |arm: MatchArmView| arm.variant == variant@;
    let mut i: usize = 0;
    assert(all.skip(0) == all);
    while i < arms.len()
        invariant
            i <= arms.len(),
            all == arms.deep_view(),
            wanted == |arm: MatchArmView| arm.variant == variant@,
            first_where(all, wanted) == match first_where(all.skip(i as int), wanted) {
                Some(k) => Some(k + i),
                None => None,
            },
        decreases arms.len() - i,
    {
        proof {
            assert(all.skip(i as int)[0] == arms[i as int]@);
            assert(all.skip(i as int).skip(1) == all.skip(i + 1));
        }
        if same_text(arms[i].variant.as_str(), variant) {
            return Some(i);
        }
        i += 1;
    }
    None
}

/// Why a value has no response.
#[derive(Debug, Clone, Copy, PartialEq, Eq, Structural)]
pub enum ConversionError {
    /// The value is none of the enumeration: no arm is for a variant of this
    /// name, or the variant has another number of fields.
    NotAnInstance,
    /// The message of the arm could not be rendered with the fields.
    Render(RenderError),
}

impl View for ConversionError {
    type V = ConversionError;

    open spec fn view(&self) -> ConversionError {
        *self
    }
}

impl DeepView for ConversionError {
    type V = ConversionError;

    open spec fn deep_view(&self) -> ConversionError {
        *self
    }
}

/// The response to a value of the enumeration, given as the name of its
/// variant and its fields. The first arm for the variant answers: with its
/// status code, and with its template rendered with the fields as the message.
pub open spec fn response_to(
    conversion: ConversionView,
    variant: Seq<char>,
    fields: Seq<FieldValueView>,
) -> Result<ResponseView, ConversionError> {
    match first_arm(conversion.arms, variant) {
        None => Err(ConversionError::NotAnInstance),
        Some(i) => {
            let arm = conversion.arms[i];
            if fields.len() != arm.params.len() {
                Err(ConversionError::NotAnInstance)
            } else {
                match render_spec(arm.msg, fields) {
                    Err(e) => Err(ConversionError::Render(e)),
                    Ok(rendered) => Ok(response_of(arm.code, conversion.format, rendered)),
                }
            }
        },
    }
}

impl Conversion {
    /// Converts a value of the enumeration, given as the name of its variant
    /// and its fields in the order of their declaration, into its response.
    pub fn into_response(&self, variant: &str, fields: &Vec<FieldValue>) -> (r: Result<
        Response,
        ConversionError,
    >)
        ensures
            result_view(r) == response_to(self@, variant@, fields.deep_view()),
    {
        let arm = match find_arm(&self.arms, variant) {
            Some(i) => &self.arms[i],
            None => {
                return Err(ConversionError::NotAnInstance);
            },
        };
        if fields.len() != arm.params.len() {
            return Err(ConversionError::NotAnInstance);
        }
        match render(arm.msg.as_str(), fields) {
            Ok(rendered) => Ok(assemble(arm.code, self.format, rendered.as_str())),
            Err(e) => Err(ConversionError::Render(e)),
        }
    }
}

/// A conversion is generated exactly for an enumeration whose format is
/// known and whose every variant can have its arm, and it then holds one arm
/// per variant: nothing is generated in part.
pub proof fn lemma_generation_all_or_nothing(ast: DeriveInputView)
    ensures
        conversion_of(ast) is Ok <==> variants_of(ast) is Ok && response_format_of(ast.attrs)
            is Ok && forall|i: int|
            0 <= i < ast.variants().len() ==> arm_of(#[trigger] ast.variants()[i]) is Ok,
        conversion_of(ast) matches Ok(conversion) ==> conversion.arms.len()
            == ast.variants().len(),
{
    lemma_arms_all_or_none(ast.variants());
    if let Err(e) = arms_of(ast.variants()) {
        let i = choose|i: int| first_fault(ast.variants(), i);
        assert(arm_of(ast.variants()[i]) is Err);
    }
}

/// A value of the variant at place `i` is answered by the arm at place `i`.
pub proof fn lemma_variant_finds_its_arm(ast: DeriveInputView, i: int)
    requires
        ast.wf(),
        conversion_of(ast) is Ok,
        0 <= i < ast.variants().len(),
    ensures
        first_arm(conversion_of(ast)->Ok_0.arms, ast.variants()[i].ident) == Some(i),
        arm_of(ast.variants()[i]) == Ok::<MatchArmView, GenerationErrorView>(
            conversion_of(ast)->Ok_0.arms[i],
        ),
{
    let variants = ast.variants();
    let arms = conversion_of(ast)->Ok_0.arms;
    let name = variants[i].ident;
    lemma_arms_all_or_none(variants);
    let wanted = |arm: MatchArmView| arm.variant == name;
    lemma_first_where(arms, wanted);
    assert(wanted(arms[i])) by {
        assert(arm_of(variants[i]) == Ok::<MatchArmView, GenerationErrorView>(arms[i]));
    }
    match first_where(arms, wanted) {
        Some(k) => {
            if k < i {
                assert(arm_of(variants[k]) == Ok::<MatchArmView, GenerationErrorView>(arms[k]));
                assert(variants[k].ident == variants[i].ident);
            }
        },
        None => {},
    }
}

/// The response to a value of a variant carries the status code that the
/// variant's `error(..)` attribute declares, which is a status code from 100
/// to 599.
pub proof fn lemma_status_code_fidelity(ast: DeriveInputView, i: int, fields: Seq<FieldValueView>)
    requires
        ast.wf(),
        conversion_of(ast) is Ok,
        0 <= i < ast.variants().len(),
    ensures
        first_block(ast.variants()[i].attrs, "error"@) matches Some(at) && declared_spec(
            ast.variants()[i].attrs[at].tokens,
        ) matches Ok(spec) && MIN_STATUS_CODE <= spec.code <= MAX_STATUS_CODE && (response_to(
            conversion_of(ast)->Ok_0,
            ast.variants()[i].ident,
            fields,
        ) matches Ok(response) ==> response.status == spec.code),
{
    lemma_variant_finds_its_arm(ast, i);
}

/// A value of a variant has a response exactly where it has as many fields
/// as the variant and the variant's template renders with them. The message
/// in the response is then the rendered template.
pub proof fn lemma_response_of_variant(ast: DeriveInputView, i: int, fields: Seq<FieldValueView>)
    requires
        ast.wf(),
        conversion_of(ast) is Ok,
        0 <= i < ast.variants().len(),
    ensures
        ({
            let conversion = conversion_of(ast)->Ok_0;
            let arm = conversion.arms[i];
            let response = response_to(conversion, ast.variants()[i].ident, fields);
            &&& bindings_of(ast.variants()[i].fields) == arm.params
            &&& response is Ok <==> fields.len() == arm.params.len() && render_spec(
                arm.msg,
                fields,
            ) is Ok
            &&& response matches Ok(r) ==> r == response_of(
                arm.code,
                conversion.format,
                render_spec(arm.msg, fields)->Ok_0,
            )
        }),
{
    lemma_variant_finds_its_arm(ast, i);
}

/// In plain text the body of a response is the UTF-8 encoding of the
/// rendered template, and the content type is `text/plain`.
pub proof fn lemma_plain_text_body(
    conversion: ConversionView,
    variant: Seq<char>,
    fields: Seq<FieldValueView>,
)
    requires
        conversion.format == ResponseFormat::PlainText,
        response_to(conversion, variant, fields) is Ok,
    ensures
        ({
            let response = response_to(conversion, variant, fields)->Ok_0;
            let arm = conversion.arms[first_arm(conversion.arms, variant)->0];
            &&& render_spec(arm.msg, fields) is Ok
            &&& response.body == encode_utf8(render_spec(arm.msg, fields)->Ok_0)
            &&& response.content_type == "text/plain"@
        }),
{
}

/// In JSON the body of a response is the UTF-8 encoding of the compact
/// object `{"message":<rendered>}`, the rendered template written as a JSON
/// string, and the content type is `application/json`.
pub proof fn lemma_json_envelope(
    conversion: ConversionView,
    variant: Seq<char>,
    fields: Seq<FieldValueView>,
)
    requires
        conversion.format == ResponseFormat::JsonMessage,
        response_to(conversion, variant, fields) is Ok,
    ensures
        ({
            let response = response_to(conversion, variant, fields)->Ok_0;
            let arm = conversion.arms[first_arm(conversion.arms, variant)->0];
            &&& render_spec(arm.msg, fields) is Ok
            &&& response.body == encode_utf8(
                "{\"message\":"@ + json_string_text(render_spec(arm.msg, fields)->Ok_0) + "}"@,
            )
            &&& response.content_type == "application/json"@
        }),
{
}

/// An enumeration without an attribute named `error_format` answers in plain
/// text, with the content type `text/plain`.
pub proof fn lemma_default_format(ast: DeriveInputView)
    requires
        first_named(ast.attrs, "error_format"@) is None,
        conversion_of(ast) is Ok,
    ensures
        conversion_of(ast)->Ok_0.format == ResponseFormat::PlainText,
        conversion_of(ast)->Ok_0.format.content_type_spec() == "text/plain"@,
{
}

} // verus!
