//! Responses and the two formats of their body.

use vstd::prelude::*;
use vstd::utf8::encode_utf8;
use crate::attribute::{found, found_at, is_literal, read_string, string_reading};
use crate::declaration::{find_named, first_named, Attribute, AttributeView, MetaKind};
use crate::error::{GenerationError, GenerationErrorView};
use crate::model::result_view;
use crate::text::{digit_char, same_text};
use crate::token::{Token, TokenView};

verus! {

/// How the rendered message becomes the body of a response.
#[derive(Debug, Clone, Copy, PartialEq, Eq, Structural)]
pub enum ResponseFormat {
    /// The message itself, as `text/plain`.
    PlainText,
    /// A JSON object with the message under the key `message`, as
    /// `application/json`.
    JsonMessage,
}

impl View for ResponseFormat {
    type V = ResponseFormat;

    open spec fn view(&self) -> ResponseFormat {
        *self
    }
}

impl DeepView for ResponseFormat {
    type V = ResponseFormat;

    open spec fn deep_view(&self) -> ResponseFormat {
        *self
    }
}

impl Default for ResponseFormat {
    /// An enumeration that names no format answers in plain text.
    fn default() -> (r: Self)
        ensures
            r == ResponseFormat::PlainText,
    {
        ResponseFormat::PlainText
    }
}

impl ResponseFormat {
    /// The value of the `Content-Type` header.
    pub open spec fn content_type_spec(self) -> Seq<char> {
        match self {
            ResponseFormat::PlainText => "text/plain"@,
            ResponseFormat::JsonMessage => "application/json"@,
        }
    }

    /// The value of the `Content-Type` header.
    pub fn content_type(&self) -> (r: String)
        ensures
            r@ == self.content_type_spec(),
    {
        match self {
            ResponseFormat::PlainText => "text/plain".to_owned(),
            ResponseFormat::JsonMessage => "application/json".to_owned(),
        }
    }
}

/// The format that a content type stands for.
pub open spec fn format_named(content_type: Seq<char>) -> Option<ResponseFormat> {
    if content_type == "application/json"@ {
        Some(ResponseFormat::JsonMessage)
    } else if content_type == "text/plain"@ {
        Some(ResponseFormat::PlainText)
    } else {
        None
    }
}

/// The format that a content type stands for: `application/json` or
/// `text/plain`, and no other.
pub fn response_format_named(content_type: &str) -> (r: Option<ResponseFormat>)
    ensures
        r == format_named(content_type@),
{
    if same_text(content_type, "application/json") {
        Some(ResponseFormat::JsonMessage)
    } else if same_text(content_type, "text/plain") {
        Some(ResponseFormat::PlainText)
    } else {
        None
    }
}

/// Each format is the one that its own content type stands for.
pub proof fn lemma_content_type_names_format(format: ResponseFormat)
    ensures
        format_named(format.content_type_spec()) == Some(format),
{
    reveal_strlit("application/json");
    reveal_strlit("text/plain");
    assert("application/json"@.len() != "text/plain"@.len());
}

/// What the tokens of an `error_format(..)` attribute say, given the reading
/// `value` of the first token as a string literal: there is one token, a
/// string literal that names a format.
pub open spec fn format_of_tokens(tokens: Seq<TokenView>, value: Option<Seq<char>>) -> Result<
    ResponseFormat,
    GenerationErrorView,
> {
    if tokens.len() == 1 && is_literal(tokens, 0) && value is Some && format_named(value->0)
        is Some {
        Ok(format_named(value->0)->0)
    } else {
        Err(GenerationErrorView::UnknownContentType { found: found_at(tokens, 0) })
    }
}

/// Holds the tokens of an `error_format(..)` attribute against its grammar,
/// given what the first of them was read as.
pub fn response_format_from(tokens: &Vec<Token>, value: Option<String>) -> (r: Result<
    ResponseFormat,
    GenerationError,
>)
    ensures
        result_view(r) == format_of_tokens(tokens.deep_view(), value.deep_view()),
{
    if tokens.len() == 1 {
        if let Token::Literal(_) = &tokens[0] {
            if let Some(content_type) = &value {
                if let Some(format) = response_format_named(content_type.as_str()) {
                    return Ok(format);
                }
            }
        }
    }
    Err(GenerationError::UnknownContentType { found: found(tokens, 0) })
}

/// The format that the attributes of an enumeration select: that of the first
/// attribute named `error_format` among them, and plain text where there is
/// none. That attribute must be a list, `error_format(..)`: in any other shape
/// it names no content type.
pub open spec fn response_format_of(attrs: Seq<AttributeView>) -> Result<
    ResponseFormat,
    GenerationErrorView,
> {
    match first_named(attrs, "error_format"@) {
        None => Ok(ResponseFormat::PlainText),
        Some(i) => if attrs[i].kind == MetaKind::List {
            format_of_tokens(attrs[i].tokens, string_reading(attrs[i].tokens, 0))
        } else {
            Err(GenerationErrorView::UnknownContentType { found: None })
        },
    }
}

/// Decodes the format that the attributes of an enumeration select. The first
/// attribute named `error_format` decides, and must be a list that names a
/// content type; without such an attribute the format is plain text.
pub fn response_format(attrs: &Vec<Attribute>) -> (r: Result<ResponseFormat, GenerationError>)
    ensures
        result_view(r) == response_format_of(attrs.deep_view()),
{
    match find_named(attrs, "error_format") {
        None => Ok(ResponseFormat::default()),
        Some(i) => {
            if attrs[i].kind == MetaKind::List {
                let tokens = &attrs[i].tokens;
                let value = read_string(tokens, 0);
                response_format_from(tokens, value)
            } else {
                Err(GenerationError::UnknownContentType { found: None })
            }
        },
    }
}

/// One character of a string, as it stands in JSON text: a quote or a
/// backslash behind a backslash; backspace, tab, line feed, form feed and
/// carriage return as `\b`, `\t`, `\n`, `\f` and `\r`; any other character
/// below U+0020 as `\u00` and its two hexadecimal digits, the letters in lower
/// case; every other character as it is.
pub open spec fn json_char(c: char) -> Seq<char> {
    let code = c as u32;
    if c == '"' || c == '\\' {
        seq!['\\', c]
    } else if code == 8 {
        seq!['\\', 'b']
    } else if code == 9 {
        seq!['\\', 't']
    } else if code == 10 {
        seq!['\\', 'n']
    } else if code == 12 {
        seq!['\\', 'f']
    } else if code == 13 {
        seq!['\\', 'r']
    } else if code < 32 {
        seq![
            '\\',
            'u',
            '0',
            '0',
            digit_char((code / 16) as nat),
            digit_char((code % 16) as nat),
        ]
    } else {
        seq![c]
    }
}

/// The characters of a string, as they stand in JSON text.
pub open spec fn json_chars(s: Seq<char>) -> Seq<char>
    decreases s.len(),
{
    if s.len() == 0 {
        Seq::empty()
    } else {
        json_chars(s.drop_last()) + json_char(s.last())
    }
}

/// The JSON text of a string: its characters between quotes, with the
/// escapes of JSON.
pub open spec fn json_string_text(s: Seq<char>) -> Seq<char> {
    seq!['"'] + json_chars(s) + seq!['"']
}

/// Whether a string holds no character that JSON escapes.
pub open spec fn json_plain(s: Seq<char>) -> bool {
    forall|i: int|
        0 <= i < s.len() ==> (#[trigger] s[i]) != '"' && s[i] != '\\' && s[i] as u32 >= 32
}

/// A string without a quote, a backslash or a control character stands in
/// JSON text as it is, between quotes.
pub proof fn lemma_json_of_plain_string(s: Seq<char>)
    requires
        json_plain(s),
    ensures
        json_chars(s) == s,
        json_string_text(s) == seq!['"'] + s + seq!['"'],
    decreases s.len(),
{
    if s.len() > 0 {
        let front = s.drop_last();
        assert(json_plain(front)) by {
            assert forall|i: int| 0 <= i < front.len() implies (#[trigger] front[i]) != '"'
                && front[i] != '\\' && front[i] as u32 >= 32 by {
                assert(front[i] == s[i]);
            }
        }
        lemma_json_of_plain_string(front);
        assert(json_char(s.last()) == seq![s.last()]);
        assert(front + seq![s.last()] =~= s);
    } else {
        assert(json_chars(s) =~= s);
    }
}

/// Writes a string as JSON text with `serde_json`: the compact rendering that
/// the `Display` of `serde_json::Value` gives to a `Value::String`.
///
/// Nothing is proved of this function. Its contract claims that the rendering
/// returns for every string, and that it writes a quote, each character of
/// the string as the escape table of `serde_json` has it, and a quote.
#[verifier::external_body]
fn json_string(s: &str) -> (r: String)
    ensures
        r@ == json_string_text(s@),
{
    serde_json::Value::String(s.to_owned()).to_string()
}

/// The compact JSON object with the single key `message`, around the JSON
/// text `quoted` of its value.
pub open spec fn json_envelope_spec(quoted: Seq<char>) -> Seq<char> {
    "{\"message\":"@ + quoted + "}"@
}

/// Puts the JSON text of a message into the envelope: a compact object with
/// the single key `message`.
pub fn json_envelope(quoted: &str) -> (r: String)
    ensures
        r@ == json_envelope_spec(quoted@),
{
    let mut out = "{\"message\":".to_owned();
    out.append(quoted);
    out.append("}");
    out
}

/// The text of the body of a response with the given rendered message.
pub open spec fn body_text(format: ResponseFormat, rendered: Seq<char>) -> Seq<char> {
    match format {
        ResponseFormat::PlainText => rendered,
        ResponseFormat::JsonMessage => json_envelope_spec(json_string_text(rendered)),
    }
}

/// The JSON body of a message without a quote, a backslash or a control
/// character is the message itself inside the envelope.
pub proof fn lemma_json_body_of_plain_message(rendered: Seq<char>)
    requires
        json_plain(rendered),
    ensures
        body_text(ResponseFormat::JsonMessage, rendered) == "{\"message\":\""@ + rendered
            + "\"}"@,
{
    reveal_strlit("{\"message\":");
    reveal_strlit("{\"message\":\"");
    reveal_strlit("}");
    reveal_strlit("\"}");
    lemma_json_of_plain_string(rendered);
    assert("{\"message\":"@ + (seq!['"'] + rendered + seq!['"']) + "}"@ =~= "{\"message\":\""@
        + rendered + "\"}"@);
}

/// Wraps a rendered message into the body of a response: the UTF-8 bytes of
/// the message itself, or of its JSON envelope.
pub fn wrap_body(format: ResponseFormat, rendered: &str) -> (r: Vec<u8>)
    ensures
        r@ == encode_utf8(body_text(format, rendered@)),
{
    match format {
        ResponseFormat::PlainText => rendered.as_bytes_vec(),
        ResponseFormat::JsonMessage => {
            let quoted = json_string(rendered);
            let text = json_envelope(quoted.as_str());
            text.as_str().as_bytes_vec()
        },
    }
}

/// What a conversion answers with: a status code, the value of the
/// `Content-Type` header and the bytes of the body.
#[derive(Debug, PartialEq, Eq)]
pub struct Response {
    pub status: u16,
    pub content_type: String,
    pub body: Vec<u8>,
}

/// The mathematical value of a [`Response`].
pub struct ResponseView {
    pub status: u16,
    pub content_type: Seq<char>,
    pub body: Seq<u8>,
}

impl View for Response {
    type V = ResponseView;

    open spec fn view(&self) -> ResponseView {
        ResponseView { status: self.status, content_type: self.content_type@, body: self.body@ }
    }
}

impl DeepView for Response {
    type V = ResponseView;

    open spec fn deep_view(&self) -> ResponseView {
        self@
    }
}

/// The response with the given status code and rendered message.
pub open spec fn response_of(code: u16, format: ResponseFormat, rendered: Seq<char>)
    -> ResponseView {
    ResponseView {
        status: code,
        content_type: format.content_type_spec(),
        body: encode_utf8(body_text(format, rendered)),
    }
}

/// Assembles the response of one arm: its status code as it is, the content
/// type of the format, and the rendered message wrapped as the format says.
pub fn assemble(code: u16, format: ResponseFormat, rendered: &str) -> (r: Response)
    ensures
        r@ == response_of(code, format, rendered@),
{
    Response {
        status: code,
        content_type: format.content_type(),
        body: wrap_body(format, rendered),
    }
}

} // verus!
