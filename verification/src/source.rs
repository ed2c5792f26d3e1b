//! The source text of a conversion: an implementation of
//! `axum::response::IntoResponse` for the enumeration.

use vstd::prelude::*;
use crate::arm::{MatchArm, MatchArmView};
use crate::conversion::{conversion_of, generate, Conversion, ConversionView};
use crate::declaration::{DeriveInput, DeriveInputView};
use crate::error::{GenerationError, GenerationErrorView};
use crate::model::result_view;
use crate::response::ResponseFormat;
use crate::text::{chars_of, decimal, hexadecimal, numeral};

verus! {

/// One character of a string, as it stands inside a string literal: a quote
/// or a backslash behind a backslash, any other printable ASCII character as
/// it is, and every other character as the escape `\u{..}` of its code point.
pub open spec fn escaped_char(c: char) -> Seq<char> {
    if c == '"' || c == '\\' {
        seq!['\\', c]
    } else if 32 <= c as u32 && (c as u32) < 127 {
        seq![c]
    } else {
        "\\u{"@ + numeral(c as u32 as nat, 16) + "}"@
    }
}

/// The characters of a string, as they stand inside a string literal.
pub open spec fn escaped(s: Seq<char>) -> Seq<char>
    decreases s.len(),
{
    if s.len() == 0 {
        Seq::empty()
    } else {
        escaped(s.drop_last()) + escaped_char(s.last())
    }
}

/// The string literal that stands for `s`.
pub open spec fn string_literal_text(s: Seq<char>) -> Seq<char> {
    "\""@ + escaped(s) + "\""@
}

/// Whether a text is made of printable ASCII characters alone.
pub open spec fn printable(text: Seq<char>) -> bool {
    forall|i: int|
        0 <= i < text.len() ==> 32 <= (#[trigger] text[i]) as u32 && (text[i] as u32) < 127
}

/// Printable texts, put together, make a printable text.
proof fn lemma_printable_concat(a: Seq<char>, b: Seq<char>)
    requires
        printable(a),
        printable(b),
    ensures
        printable(a + b),
{
    assert forall|i: int| 0 <= i < (a + b).len() implies 32 <= (#[trigger] (a + b)[i]) as u32 && (
    (a + b)[i] as u32) < 127 by {
        if i >= a.len() {
            assert((a + b)[i] == b[i - a.len()]);
        }
    }
}

/// The digits of a number are printable.
proof fn lemma_numeral_is_printable(n: nat, radix: nat)
    requires
        2 <= radix <= 16,
    ensures
        printable(numeral(n, radix)),
    decreases n,
{
    if n >= radix {
        assert(n / radix < n && n % radix < radix) by (nonlinear_arith)
            requires
                n >= radix >= 2,
        ;
        lemma_numeral_is_printable(n / radix, radix);
    }
}

/// The characters of a string, as they stand inside a string literal, are
/// printable.
proof fn lemma_escaped_is_printable(s: Seq<char>)
    ensures
        printable(escaped(s)),
    decreases s.len(),
{
    if s.len() > 0 {
        lemma_escaped_is_printable(s.drop_last());
        let c = s.last();
        reveal_strlit("\\u{");
        reveal_strlit("}");
        lemma_numeral_is_printable(c as u32 as nat, 16);
        lemma_printable_concat("\\u{"@, numeral(c as u32 as nat, 16));
        lemma_printable_concat("\\u{"@ + numeral(c as u32 as nat, 16), "}"@);
        lemma_printable_concat(escaped(s.drop_last()), escaped_char(c));
    }
}

/// A string literal that is written here holds printable ASCII characters
/// alone, whatever the string holds.
pub proof fn lemma_string_literal_is_printable(s: Seq<char>)
    ensures
        printable(string_literal_text(s)),
{
    reveal_strlit("\"");
    lemma_escaped_is_printable(s);
    lemma_printable_concat("\""@, escaped(s));
    lemma_printable_concat("\""@ + escaped(s), "\""@);
}

/// Writes the string literal that stands for `s`: between quotes, in
/// printable ASCII characters alone.
pub fn write_string_literal(s: &str) -> (r: String)
    ensures
        r@ == string_literal_text(s@),
        printable(r@),
{
    proof {
        lemma_string_literal_is_printable(s@);
    }
    let chars = chars_of(s);
    let mut body = String::new();
    let mut i: usize = 0;
    assert(chars@.take(0) =~= Seq::empty());
    while i < chars.len()
        invariant
            i <= chars.len(),
            body@ == escaped(chars@.take(i as int)),
        decreases chars.len() - i,
    {
        let c = chars[i];
        proof {
            assert(chars@.take(i + 1).drop_last() == chars@.take(i as int));
        }
        if c == '"' || c == '\\' {
            let ghost before = body@;
            body.push('\\');
            body.push(c);
            assert(body@ =~= before + seq!['\\', c]);
        } else if 32 <= c as u32 && (c as u32) < 127 {
            let ghost before = body@;
            body.push(c);
            assert(body@ =~= before + seq![c]);
        } else {
            let ghost before = body@;
            let code = c as u32;
            body.append("\\u{");
            body.append(hexadecimal(code).as_str());
            body.append("}");
            assert(body@ =~= before + ("\\u{"@ + numeral(c as u32 as nat, 16) + "}"@));
        }
        i += 1;
    }
    assert(chars@.take(chars.len() as int) == chars@);
    let mut out = "\"".to_owned();
    out.append(body.as_str());
    out.append("\"");
    out
}

/// The names of a list, each followed by a comma and a space.
pub open spec fn listed(names: Seq<Seq<char>>) -> Seq<char>
    decreases names.len(),
{
    if names.len() == 0 {
        Seq::empty()
    } else {
        listed(names.drop_last()) + names.last() + ", "@
    }
}

/// Writes the names of a list, each followed by a comma and a space.
pub fn write_listed(names: &Vec<String>) -> (r: String)
    ensures
        r@ == listed(names.deep_view()),
{
    let ghost all = names.deep_view();
    let mut out = String::new();
    let mut i: usize = 0;
    assert(all.take(0) =~= Seq::empty());
    while i < names.len()
        invariant
            i <= names.len(),
            all == names.deep_view(),
            out@ == listed(all.take(i as int)),
        decreases names.len() - i,
    {
        proof {
            assert(all.take(i + 1).drop_last() == all.take(i as int));
            assert(all.take(i + 1).last() == names[i as int]@);
        }
        out.append(names[i].as_str());
        out.append(", ");
        i += 1;
    }
    assert(all.take(names.len() as int) == all);
    out
}

/// The pattern of an arm: the variant of the enumeration `ident`, and in
/// round brackets the names that its fields are bound to, where it has any.
pub open spec fn pattern_text(ident: Seq<char>, arm: MatchArmView) -> Seq<char> {
    if arm.params.len() == 0 {
        ident + "::"@ + arm.variant
    } else {
        ident + "::"@ + arm.variant + "("@ + listed(arm.params) + ")"@
    }
}

/// The text of one arm: its pattern, then the pair of its status code and of
/// its message, formatted from the template and the bound fields.
pub open spec fn arm_text(ident: Seq<char>, arm: MatchArmView) -> Seq<char> {
    pattern_text(ident, arm) + " => ("@ + numeral(arm.code as nat, 10) + "u16, format!("@
        + string_literal_text(arm.msg) + ", "@ + listed(arm.params) + ")),"@
}

impl MatchArm {
    /// Writes the arm as source text, for the enumeration `ident`.
    pub fn source(&self, ident: &str) -> (r: String)
        ensures
            r@ == arm_text(ident@, self@),
    {
        let params = write_listed(&self.params);
        let mut out = ident.to_owned();
        out.append("::");
        out.append(self.variant.as_str());
        if self.params.len() > 0 {
            out.append("(");
            out.append(params.as_str());
            out.append(")");
        }
        out.append(" => (");
        out.append(decimal(self.code as u64).as_str());
        out.append("u16, format!(");
        out.append(write_string_literal(self.msg.as_str()).as_str());
        out.append(", ");
        out.append(params.as_str());
        out.append(")),");
        out
    }
}

/// The text of all arms, each on a line of its own.
pub open spec fn arms_text(ident: Seq<char>, arms: Seq<MatchArmView>) -> Seq<char>
    decreases arms.len(),
{
    if arms.len() == 0 {
        Seq::empty()
    } else {
        arms_text(ident, arms.drop_last()) + "            "@ + arm_text(ident, arms.last())
            + "\n"@
    }
}

/// The expression that makes the body of the response from the message.
pub open spec fn body_expression(format: ResponseFormat) -> Seq<char> {
    match format {
        ResponseFormat::PlainText => "message"@,
        ResponseFormat::JsonMessage =>
            "format!(\"{{\\\"message\\\":{}}}\", serde_json::Value::String(message))"@,
    }
}

/// The source text of a conversion: a match over the variants that gives the
/// status code and the message, and the assembly of the response from them.
pub open spec fn source_text(conversion: ConversionView) -> Seq<char> {
    "impl axum::response::IntoResponse for "@ + conversion.ident + " {\n"@
        + "    fn into_response(self) -> axum::response::Response {\n"@
        + "        let (code, message): (u16, String) = match self {\n"@ + arms_text(
        conversion.ident,
        conversion.arms,
    ) + "        };\n"@ + "        let body = "@ + body_expression(conversion.format) + ";\n"@
        + "        axum::response::Response::builder()\n"@
        + "            .status(axum::http::StatusCode::from_u16(code).expect(\"Error code must be valid\"))\n"@
        + "            .header(hyper::header::CONTENT_TYPE, axum::http::HeaderValue::from_static(\""@
        + conversion.format.content_type_spec() + "\"))\n"@
        + "            .body(axum::body::boxed(axum::body::Body::from(body)))\n"@
        + "            .unwrap()\n"@ + "    }\n"@ + "}\n"@
}

impl Conversion {
    /// Writes the arms as source text, each on a line of its own.
    fn arms_source(&self) -> (r: String)
        ensures
            r@ == arms_text(self@.ident, self@.arms),
    {
        let ghost all = self.arms.deep_view();
        let mut out = String::new();
        let mut i: usize = 0;
        assert(all.take(0) =~= Seq::empty());
        while i < self.arms.len()
            invariant
                i <= self.arms.len(),
                all == self.arms.deep_view(),
                out@ == arms_text(self.ident@, all.take(i as int)),
            decreases self.arms.len() - i,
        {
            proof {
                assert(all.take(i + 1).drop_last() == all.take(i as int));
                assert(all.take(i + 1).last() == self.arms[i as int]@);
            }
            out.append("            ");
            out.append(self.arms[i].source(self.ident.as_str()).as_str());
            out.append("\n");
            i += 1;
        }
        assert(all.take(self.arms.len() as int) == all);
        out
    }

    /// Writes the conversion as source text: an implementation of
    /// `axum::response::IntoResponse` for the enumeration.
    pub fn source(&self) -> (r: String)
        ensures
            r@ == source_text(self@),
    {
        let mut out = "impl axum::response::IntoResponse for ".to_owned();
        out.append(self.ident.as_str());
        out.append(" {\n");
        out.append("    fn into_response(self) -> axum::response::Response {\n");
        out.append("        let (code, message): (u16, String) = match self {\n");
        out.append(self.arms_source().as_str());
        out.append("        };\n");
        out.append("        let body = ");
        match self.format {
            ResponseFormat::PlainText => {
                out.append("message");
            },
            ResponseFormat::JsonMessage => {
                out.append(
                    "format!(\"{{\\\"message\\\":{}}}\", serde_json::Value::String(message))",
                );
            },
        }
        out.append(";\n");
        out.append("        axum::response::Response::builder()\n");
        out.append(
            "            .status(axum::http::StatusCode::from_u16(code).expect(\"Error code must be valid\"))\n",
        );
        out.append(
            "            .header(hyper::header::CONTENT_TYPE, axum::http::HeaderValue::from_static(\"",
        );
        out.append(self.format.content_type().as_str());
        out.append("\"))\n");
        out.append("            .body(axum::body::boxed(axum::body::Body::from(body)))\n");
        out.append("            .unwrap()\n");
        out.append("    }\n");
        out.append("}\n");
        out
    }
}

/// The source text that is generated for a declaration, or the error that
/// stops generation.
pub open spec fn source_of(ast: DeriveInputView) -> Result<Seq<char>, GenerationErrorView> {
    match conversion_of(ast) {
        Ok(conversion) => Ok(source_text(conversion)),
        Err(e) => Err(e),
    }
}

/// Generates the source text of the conversion of a declaration, or says
/// why there is none.
pub fn impl_error(ast: &DeriveInput) -> (r: Result<String, GenerationError>)
    ensures
        result_view(r) == source_of(ast@),
{
    match generate(ast) {
        Ok(conversion) => Ok(conversion.source()),
        Err(e) => Err(e),
    }
}

/// The derive for a declaration: the source text of the implementation that
/// turns each variant of the enumeration into its response, or the error that
/// stops the build.
pub fn axum_error_macro_derive(input: &DeriveInput) -> (r: Result<String, GenerationError>)
    ensures
        result_view(r) == source_of(input@),
{
    impl_error(input)
}

/// Generating again from an unchanged declaration gives the same text, or
/// the same error: the outcome depends on nothing but the declaration.
pub proof fn lemma_regeneration_is_identical(first: DeriveInputView, second: DeriveInputView)
    requires
        first == second,
    ensures
        source_of(first) == source_of(second),
{
}

} // verus!
