//! Message templates and their rendering.
//!
//! A template is text with placeholders. `{}` takes the display form of the
//! next field and `{:?}` its debug form; `{{` and `}}` stand for one brace.

use vstd::prelude::*;
use crate::model::{lemma_append_front, lemma_push_front, result_view};
use crate::text::chars_of;

verus! {

/// The two forms in which a field can be shown.
#[derive(Debug, Clone, Copy, PartialEq, Eq, Structural)]
pub enum Style {
    Display,
    Debug,
}

/// One piece of a template: a character of its text, or a placeholder.
#[derive(Debug, Clone, Copy, PartialEq, Eq, Structural)]
pub enum Segment {
    Text(char),
    Field(Style),
}

/// `s` in front of the segments `rest`, where there are any.
pub open spec fn segment_then(s: Segment, rest: Option<Seq<Segment>>) -> Option<Seq<Segment>> {
    match rest {
        Some(r) => Some(seq![s] + r),
        None => None,
    }
}

/// The pieces of a template, or `None` for text that is no template: a brace
/// that neither opens `{}` or `{:?}` nor is doubled.
pub open spec fn segments_of(t: Seq<char>) -> Option<Seq<Segment>>
    decreases t.len(),
{
    if t.len() == 0 {
        Some(Seq::empty())
    } else if t[0] == '{' {
        if t.len() >= 2 && t[1] == '{' {
            segment_then(Segment::Text('{'), segments_of(t.skip(2)))
        } else if t.len() >= 2 && t[1] == '}' {
            segment_then(Segment::Field(Style::Display), segments_of(t.skip(2)))
        } else if t.len() >= 4 && t[1] == ':' && t[2] == '?' && t[3] == '}' {
            segment_then(Segment::Field(Style::Debug), segments_of(t.skip(4)))
        } else {
            None
        }
    } else if t[0] == '}' {
        if t.len() >= 2 && t[1] == '}' {
            segment_then(Segment::Text('}'), segments_of(t.skip(2)))
        } else {
            None
        }
    } else {
        segment_then(Segment::Text(t[0]), segments_of(t.skip(1)))
    }
}

/// The number of placeholders among the segments.
pub open spec fn placeholders(segments: Seq<Segment>) -> nat
    decreases segments.len(),
{
    if segments.len() == 0 {
        0
    } else if segments[0] is Field {
        1 + placeholders(segments.skip(1))
    } else {
        placeholders(segments.skip(1))
    }
}

/// Splits a template into its pieces. `None` says that the text is no
/// template.
pub fn parse_template(template: &str) -> (r: Option<Vec<Segment>>)
    ensures
        match r {
            Some(segments) => segments_of(template@) == Some(segments@),
            None => segments_of(template@) is None,
        },
{
    let chars = chars_of(template);
    let ghost t = template@;
    let n = chars.len();
    let mut segments: Vec<Segment> = Vec::new();
    let mut i: usize = 0;
    assert(t.skip(0) == t);
    assert(Seq::<Segment>::empty() + segments_of(t)->0 =~= segments_of(t)->0);
    while i < n
        invariant
            i <= n == chars.len(),
            chars@ == t,
            t == template@,
            segments_of(t) == match segments_of(t.skip(i as int)) {
                Some(rest) => Some(segments@ + rest),
                None => None,
            },
        decreases n - i,
    {
        let ghost before = segments@;
        let ghost from = i as int;
        let c = chars[i];
        let left = n - i;
        let segment;
        proof {
            let tail = t.skip(from);
            assert(tail.len() == left);
            assert(forall|k: int| 0 <= k < left ==> tail[k] == chars[from + k]);
        }
        if c == '{' {
            if left >= 2 && chars[i + 1] == '{' {
                segment = Segment::Text('{');
                i += 2;
            } else if left >= 2 && chars[i + 1] == '}' {
                segment = Segment::Field(Style::Display);
                i += 2;
            } else if left >= 4 && chars[i + 1] == ':' && chars[i + 2] == '?' && chars[i + 3]
                == '}' {
                segment = Segment::Field(Style::Debug);
                i += 4;
            } else {
                return None;
            }
        } else if c == '}' {
            if left >= 2 && chars[i + 1] == '}' {
                segment = Segment::Text('}');
                i += 2;
            } else {
                return None;
            }
        } else {
            segment = Segment::Text(c);
            i += 1;
        }
        segments.push(segment);
        proof {
            assert(t.skip(from).skip(i - from) == t.skip(i as int));
            if let Some(rest) = segments_of(t.skip(i as int)) {
                lemma_push_front(before, segment, rest);
            }
        }
    }
    proof {
        assert(segments@ + Seq::<Segment>::empty() =~= segments@);
    }
    Some(segments)
}

/// A field of a variant, as the two strings that it is shown as. A form that
/// the field's type does not have is `None`.
#[derive(Debug, PartialEq, Eq)]
pub struct FieldValue {
    pub display: Option<String>,
    pub debug: Option<String>,
}

/// The mathematical value of a [`FieldValue`].
pub struct FieldValueView {
    pub display: Option<Seq<char>>,
    pub debug: Option<Seq<char>>,
}

impl View for FieldValue {
    type V = FieldValueView;

    open spec fn view(&self) -> FieldValueView {
        FieldValueView { display: self.display.deep_view(), debug: self.debug.deep_view() }
    }
}

impl DeepView for FieldValue {
    type V = FieldValueView;

    open spec fn deep_view(&self) -> FieldValueView {
        self@
    }
}

impl FieldValueView {
    /// The field in the given form.
    pub open spec fn shown(self, style: Style) -> Option<Seq<char>> {
        match style {
            Style::Display => self.display,
            Style::Debug => self.debug,
        }
    }
}

/// Why a template could not be rendered.
#[derive(Debug, Clone, Copy, PartialEq, Eq, Structural)]
pub enum RenderError {
    /// The text is no template.
    MalformedTemplate,
    /// The template has another number of placeholders than there are fields.
    ArityMismatch { placeholders: usize, fields: usize },
    /// The field at this place lacks the form that its placeholder asks for.
    NoRepresentation { field: usize },
}

impl View for RenderError {
    type V = RenderError;

    open spec fn view(&self) -> RenderError {
        *self
    }
}

impl DeepView for RenderError {
    type V = RenderError;

    open spec fn deep_view(&self) -> RenderError {
        *self
    }
}

/// `text` in front of what the rest renders as, where it renders.
pub open spec fn text_then(text: Seq<char>, rest: Result<Seq<char>, RenderError>) -> Result<
    Seq<char>,
    RenderError,
> {
    match rest {
        Ok(r) => Ok(text + r),
        Err(e) => Err(e),
    }
}

/// The segments with their placeholders filled from left to right, the first
/// of them with the field at place `next`.
pub open spec fn fill(segments: Seq<Segment>, fields: Seq<FieldValueView>, next: int) -> Result<
    Seq<char>,
    RenderError,
>
    decreases segments.len(),
{
    if segments.len() == 0 {
        Ok(Seq::empty())
    } else {
        match segments[0] {
            Segment::Text(c) => text_then(seq![c], fill(segments.skip(1), fields, next)),
            Segment::Field(style) => match fields[next].shown(style) {
                Some(text) => text_then(text, fill(segments.skip(1), fields, next + 1)),
                None => Err(RenderError::NoRepresentation { field: next as usize }),
            },
        }
    }
}

/// What a template renders as with the given fields: its text, with each
/// placeholder replaced by one field, the first placeholder by the first
/// field and so on.
pub open spec fn render_spec(template: Seq<char>, fields: Seq<FieldValueView>) -> Result<
    Seq<char>,
    RenderError,
> {
    match segments_of(template) {
        None => Err(RenderError::MalformedTemplate),
        Some(segments) => if placeholders(segments) != fields.len() {
            Err(
                RenderError::ArityMismatch {
                    placeholders: placeholders(segments) as usize,
                    fields: fields.len() as usize,
                },
            )
        } else {
            fill(segments, fields, 0)
        },
    }
}

/// Counts the placeholders among the segments.
pub fn count_placeholders(segments: &Vec<Segment>) -> (r: usize)
    ensures
        r == placeholders(segments@),
{
    let mut count: usize = 0;
    let mut i: usize = 0;
    assert(segments@.skip(0) == segments@);
    while i < segments.len()
        invariant
            i <= segments.len(),
            count <= i,
            placeholders(segments@) == count + placeholders(segments@.skip(i as int)),
        decreases segments.len() - i,
    {
        proof {
            assert(segments@.skip(i as int).skip(1) == segments@.skip(i + 1));
        }
        match segments[i] {
            Segment::Field(_) => {
                count += 1;
            },
            Segment::Text(_) => {},
        }
        i += 1;
    }
    count
}

/// Renders a template with the fields of one variant. Each placeholder takes
/// one field, from left to right, in the form that the placeholder asks for.
/// The number of placeholders must be the number of fields.
pub fn render(template: &str, fields: &Vec<FieldValue>) -> (r: Result<String, RenderError>)
    ensures
        result_view(r) == render_spec(template@, fields.deep_view()),
{
    let segments = match parse_template(template) {
        Some(segments) => segments,
        None => {
            return Err(RenderError::MalformedTemplate);
        },
    };
    let count = count_placeholders(&segments);
    if count != fields.len() {
        return Err(RenderError::ArityMismatch { placeholders: count, fields: fields.len() });
    }
    let ghost all = segments@;
    let ghost values = fields.deep_view();
    let mut out = String::new();
    let mut next: usize = 0;
    let mut i: usize = 0;
    assert(all.skip(0) == all);
    assert(Seq::<char>::empty() + fill(all, values, 0)->Ok_0 =~= fill(all, values, 0)->Ok_0);
    while i < segments.len()
        invariant
            i <= segments.len(),
            all == segments@,
            values == fields.deep_view(),
            segments_of(template@) == Some(all),
            placeholders(all) == fields.len(),
            next + placeholders(all.skip(i as int)) == fields.len(),
            fill(all, values, 0) == text_then(out@, fill(all.skip(i as int), values, next as int)),
        decreases segments.len() - i,
    {
        let ghost before = out@;
        proof {
            assert(all.skip(i as int).skip(1) == all.skip(i + 1));
        }
        match segments[i] {
            Segment::Text(c) => {
                out.push(c);
                proof {
                    if let Ok(rest) = fill(all.skip(i + 1), values, next as int) {
                        lemma_push_front(before, c, rest);
                    }
                }
            },
            Segment::Field(style) => {
                let field = &fields[next];
                assert(values[next as int] == field@);
                let shown = match style {
                    Style::Display => &field.display,
                    Style::Debug => &field.debug,
                };
                assert(shown.deep_view() == field@.shown(style));
                match shown {
                    Some(text) => {
                        out.append(text.as_str());
                        proof {
                            if let Ok(rest) = fill(all.skip(i + 1), values, next + 1) {
                                lemma_append_front(before, text@, rest);
                            }
                        }
                    },
                    None => {
                        return Err(RenderError::NoRepresentation { field: next });
                    },
                }
                next += 1;
            },
        }
        i += 1;
    }
    proof {
        assert(out@ + Seq::<char>::empty() =~= out@);
    }
    Ok(out)
}

/// Whether a text holds no brace: it is then a template without placeholders
/// and without doubled braces.
pub open spec fn plain(text: Seq<char>) -> bool {
    forall|i: int| 0 <= i < text.len() ==> text[i] != '{' && text[i] != '}'
}

/// One character of a text as a segment.
pub open spec fn text_segment(c: char) -> Segment {
    Segment::Text(c)
}

/// The characters of a text as segments.
pub open spec fn texts(text: Seq<char>) -> Seq<Segment> {
    Seq::new(text.len(), |i: int| text_segment(text[i]))
}

/// The text of a placeholder in the given style.
pub open spec fn placeholder(style: Style) -> Seq<char> {
    match style {
        Style::Display => "{}"@,
        Style::Debug => "{:?}"@,
    }
}

/// The segments of a text are that of its first character, then those of
/// the rest.
proof fn lemma_texts_split(text: Seq<char>)
    requires
        text.len() > 0,
    ensures
        texts(text) == seq![text_segment(text[0])] + texts(text.skip(1)),
{
    let tail = text.skip(1);
    let joined = seq![text_segment(text[0])] + texts(tail);
    assert(texts(text).len() == joined.len());
    assert forall|i: int| 0 <= i < text.len() implies texts(text)[i] == joined[i] by {
        if i > 0 {
            assert(tail[i - 1] == text[i]);
            assert(joined[i] == texts(tail)[i - 1]);
        }
    }
    assert(texts(text) =~= joined);
}

/// A template that starts with text without braces has the characters of
/// that text as its first segments.
proof fn lemma_segments_after_text(text: Seq<char>, rest: Seq<char>)
    requires
        plain(text),
    ensures
        segments_of(text + rest) == match segments_of(rest) {
            Some(r) => Some(texts(text) + r),
            None => None,
        },
    decreases text.len(),
{
    if text.len() == 0 {
        assert(text + rest =~= rest);
        if let Some(r) = segments_of(rest) {
            assert(texts(text) + r =~= r);
        }
    } else {
        let tail = text.skip(1);
        assert((text + rest).skip(1) =~= tail + rest);
        assert((text + rest)[0] == text[0]);
        assert(plain(tail)) by {
            assert forall|i: int| 0 <= i < tail.len() implies tail[i] != '{' && tail[i]
                != '}' by {
                assert(tail[i] == text[i + 1]);
            }
        }
        lemma_segments_after_text(tail, rest);
        lemma_texts_split(text);
        if let Some(r) = segments_of(rest) {
            lemma_append_front(seq![text_segment(text[0])], texts(tail), r);
        }
    }
}

/// A template that starts with a placeholder has it as its first segment.
proof fn lemma_segments_after_placeholder(style: Style, rest: Seq<char>)
    ensures
        segments_of(placeholder(style) + rest) == segment_then(
            Segment::Field(style),
            segments_of(rest),
        ),
{
    reveal_strlit("{}");
    reveal_strlit("{:?}");
    let t = placeholder(style) + rest;
    match style {
        Style::Display => {
            assert(t.skip(2) =~= rest);
        },
        Style::Debug => {
            assert(t.skip(4) =~= rest);
        },
    }
}

/// Text in front of segments adds no placeholder, and renders as itself in
/// front of what the segments render as.
proof fn lemma_fill_after_text(
    text: Seq<char>,
    segments: Seq<Segment>,
    fields: Seq<FieldValueView>,
    next: int,
)
    ensures
        placeholders(texts(text) + segments) == placeholders(segments),
        fill(texts(text) + segments, fields, next) == text_then(
            text,
            fill(segments, fields, next),
        ),
    decreases text.len(),
{
    if text.len() == 0 {
        assert(texts(text) + segments =~= segments);
        if let Ok(r) = fill(segments, fields, next) {
            assert(text + r =~= r);
        }
    } else {
        let tail = text.skip(1);
        let all = texts(text) + segments;
        lemma_texts_split(text);
        assert(all.skip(1) =~= texts(tail) + segments);
        assert(all[0] == Segment::Text(text[0]));
        lemma_fill_after_text(tail, segments, fields, next);
        if let Ok(r) = fill(segments, fields, next) {
            assert(seq![text[0]] + (tail + r) =~= text + r);
        }
    }
}

/// With one more field in front, segments that start from the field one
/// place further render as before.
proof fn lemma_fill_shifted(
    segments: Seq<Segment>,
    field: FieldValueView,
    fields: Seq<FieldValueView>,
    next: int,
)
    requires
        0 <= next,
        next + placeholders(segments) <= fields.len(),
    ensures
        fill(segments, fields, next) is Ok ==> fill(segments, seq![field] + fields, next + 1)
            == fill(segments, fields, next),
    decreases segments.len(),
{
    if segments.len() > 0 {
        let more = seq![field] + fields;
        match segments[0] {
            Segment::Text(c) => {
                lemma_fill_shifted(segments.skip(1), field, fields, next);
            },
            Segment::Field(style) => {
                assert(more[next + 1] == fields[next]);
                lemma_fill_shifted(segments.skip(1), field, fields, next + 1);
            },
        }
    }
}

/// A text without braces is a template that renders, without fields, as
/// itself: unchanged and in full.
pub proof fn lemma_plain_template_is_verbatim(template: Seq<char>)
    requires
        plain(template),
    ensures
        render_spec(template, Seq::empty()) == Ok::<Seq<char>, RenderError>(template),
{
    let nothing = Seq::<char>::empty();
    assert(template + nothing =~= template);
    lemma_segments_after_text(template, nothing);
    lemma_fill_after_text(template, Seq::empty(), Seq::empty(), 0);
    assert(texts(template) + Seq::<Segment>::empty() =~= texts(template));
}

/// Text without braces in front of a template stays in front of what the
/// template renders as, and changes nothing else of the outcome.
pub proof fn lemma_render_text_first(
    text: Seq<char>,
    rest: Seq<char>,
    fields: Seq<FieldValueView>,
)
    requires
        plain(text),
    ensures
        render_spec(text + rest, fields) == text_then(text, render_spec(rest, fields)),
{
    lemma_segments_after_text(text, rest);
    if let Some(segments) = segments_of(rest) {
        lemma_fill_after_text(text, segments, fields, 0);
    }
}

/// Placeholders take the fields from left to right: a placeholder in front
/// of a template takes the first field, in its own style, and the rest of the
/// template renders with the fields after it.
pub proof fn lemma_render_placeholder_first(
    style: Style,
    rest: Seq<char>,
    field: FieldValueView,
    fields: Seq<FieldValueView>,
)
    requires
        field.shown(style) is Some,
        render_spec(rest, fields) is Ok,
    ensures
        render_spec(placeholder(style) + rest, seq![field] + fields) == Ok::<
            Seq<char>,
            RenderError,
        >(field.shown(style)->0 + render_spec(rest, fields)->Ok_0),
{
    lemma_segments_after_placeholder(style, rest);
    let segments = segments_of(rest)->0;
    let all = seq![Segment::Field(style)] + segments;
    let more = seq![field] + fields;
    assert(all.skip(1) =~= segments);
    assert(more[0] == field);
    lemma_fill_shifted(segments, field, fields, 0);
}

/// A template with two placeholders takes the first field into the first
/// and the second field into the second.
pub proof fn lemma_two_fields_in_order(
    before: Seq<char>,
    between: Seq<char>,
    after: Seq<char>,
    first: FieldValueView,
    second: FieldValueView,
)
    requires
        plain(before),
        plain(between),
        plain(after),
        first.display is Some,
        second.display is Some,
    ensures
        render_spec(before + "{}"@ + between + "{}"@ + after, seq![first, second]) == Ok::<
            Seq<char>,
            RenderError,
        >(before + first.display->0 + between + second.display->0 + after),
{
    let hole = placeholder(Style::Display);
    let none = Seq::<FieldValueView>::empty();
    lemma_plain_template_is_verbatim(after);
    lemma_render_placeholder_first(Style::Display, after, second, none);
    assert(seq![second] + none =~= seq![second]);
    lemma_render_text_first(between, hole + after, seq![second]);
    lemma_render_placeholder_first(
        Style::Display,
        between + (hole + after),
        first,
        seq![second],
    );
    assert(seq![first] + seq![second] =~= seq![first, second]);
    lemma_render_text_first(before, hole + (between + (hole + after)), seq![first, second]);
    assert(before + (hole + (between + (hole + after))) =~= before + "{}"@ + between + "{}"@
        + after);
    assert(before + (first.display->0 + (between + (second.display->0 + after))) =~= before
        + first.display->0 + between + second.display->0 + after);
}

} // verus!
