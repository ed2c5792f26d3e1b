use axum_error_macro::{parse_template, render, FieldValue, RenderError, Segment, Style};

fn shown(display: &str, debug: &str) -> FieldValue {
    FieldValue { display: Some(display.to_string()), debug: Some(debug.to_string()) }
}

fn texts(text: &str) -> Vec<Segment> {
    text.chars().map(Segment::Text).collect()
}

#[test]
fn template_splits_into_text_and_placeholders() {
    assert_eq!(parse_template(""), Some(vec![]));
    assert_eq!(parse_template("abc"), Some(texts("abc")));
    assert_eq!(parse_template("{}"), Some(vec![Segment::Field(Style::Display)]));
    assert_eq!(parse_template("{:?}"), Some(vec![Segment::Field(Style::Debug)]));
    assert_eq!(
        parse_template("a{}b{:?}"),
        Some(vec![
            Segment::Text('a'),
            Segment::Field(Style::Display),
            Segment::Text('b'),
            Segment::Field(Style::Debug),
        ])
    );
    assert_eq!(parse_template("{{}}"), Some(texts("{}")));
    assert_eq!(
        parse_template("{{{}}}"),
        Some(vec![Segment::Text('{'), Segment::Field(Style::Display), Segment::Text('}')])
    );
    assert_eq!(parse_template("\u{e9}{}"), Some(vec![
        Segment::Text('\u{e9}'),
        Segment::Field(Style::Display)
    ]));
}

#[test]
fn stray_braces_are_no_template() {
    for text in ["{", "}", "a{", "a}b", "{0}", "{name}", "{ }", "{:?", "{:", "{:?x}", "{:>5}", "{}}", "{{}"] {
        assert_eq!(parse_template(text), None, "{}", text);
        assert_eq!(render(text, &vec![]), Err(RenderError::MalformedTemplate), "{}", text);
    }
}

#[test]
fn template_without_placeholders_renders_verbatim() {
    for text in ["", "Internal server error!!!", "Bad request!!!", "123", "Gr\u{fc}\u{df}e\n\t\"\\"] {
        assert_eq!(render(text, &vec![]), Ok(text.to_string()));
    }
}

#[test]
fn two_placeholders_take_two_fields_in_order() {
    assert_eq!(
        render(
            "User by {} username with {} role was not found",
            &vec![shown("Bebra", "\"Bebra\""), shown("ADMIN", "\"ADMIN\"")]
        ),
        Ok("User by Bebra username with ADMIN role was not found".to_string())
    );
    assert_eq!(
        render("{}{}", &vec![shown("1", "x"), shown("2", "y")]),
        Ok("12".to_string())
    );
}

#[test]
fn placeholder_chooses_the_form_of_the_field() {
    let name = shown("Bebra", "\"Bebra\"");
    assert_eq!(render("<{}>", &vec![shown("Bebra", "\"Bebra\"")]), Ok("<Bebra>".to_string()));
    assert_eq!(render("<{:?}>", &vec![name]), Ok("<\"Bebra\">".to_string()));
    assert_eq!(
        render("{:?} then {}", &vec![shown("a", "A"), shown("b", "B")]),
        Ok("A then b".to_string())
    );
}

#[test]
fn doubled_braces_render_as_one() {
    assert_eq!(render("{{}}", &vec![]), Ok("{}".to_string()));
    assert_eq!(render("{{{}}}", &vec![shown("x", "y")]), Ok("{x}".to_string()));
}

#[test]
fn placeholders_and_fields_must_be_as_many() {
    assert_eq!(
        render("{} and {}", &vec![shown("a", "a")]),
        Err(RenderError::ArityMismatch { placeholders: 2, fields: 1 })
    );
    assert_eq!(
        render("none", &vec![shown("a", "a")]),
        Err(RenderError::ArityMismatch { placeholders: 0, fields: 1 })
    );
    assert_eq!(
        render("{}", &vec![]),
        Err(RenderError::ArityMismatch { placeholders: 1, fields: 0 })
    );
    assert_eq!(
        render("{:?}{}{}", &vec![shown("a", "a"), shown("b", "b")]),
        Err(RenderError::ArityMismatch { placeholders: 3, fields: 2 })
    );
}

#[test]
fn field_without_the_form_cannot_be_shown() {
    let debug_only = || FieldValue { display: None, debug: Some("D".to_string()) };
    let display_only = || FieldValue { display: Some("d".to_string()), debug: None };
    assert_eq!(render("{:?}", &vec![debug_only()]), Ok("D".to_string()));
    assert_eq!(render("{}", &vec![debug_only()]), Err(RenderError::NoRepresentation { field: 0 }));
    assert_eq!(
        render("{} {:?} {:?}", &vec![display_only(), debug_only(), display_only()]),
        Err(RenderError::NoRepresentation { field: 2 })
    );
    assert_eq!(
        render("{:?} {}", &vec![display_only(), debug_only()]),
        Err(RenderError::NoRepresentation { field: 0 })
    );
}

#[test]
fn malformed_template_wins_over_the_count() {
    assert_eq!(render("{} {", &vec![]), Err(RenderError::MalformedTemplate));
    let debug_only = FieldValue { display: None, debug: Some("D".to_string()) };
    assert_eq!(
        render("{} {}", &vec![debug_only]),
        Err(RenderError::ArityMismatch { placeholders: 2, fields: 1 })
    );
}
