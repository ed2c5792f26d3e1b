use axum_error_macro::{
    generate, Attribute, Conversion, Data, DeriveInput, Fields, MetaKind, Token, Variant,
};

fn format_error_attr(code: &str, msg: &str) -> Attribute {
    Attribute {
        name: "error".to_string(),
        kind: MetaKind::List,
        tokens: vec![
            Token::Ident("code".to_string()),
            Token::Punct('='),
            Token::Literal(code.to_string()),
            Token::Punct(','),
            Token::Ident("msg".to_string()),
            Token::Punct('='),
            Token::Literal(msg.to_string()),
        ],
    }
}

fn format_attr(content_type: &str) -> Attribute {
    Attribute {
        name: "error_format".to_string(),
        kind: MetaKind::List,
        tokens: vec![Token::Literal(content_type.to_string())],
    }
}

fn format_unit(ident: &str, code: &str, msg: &str) -> Variant {
    Variant {
        ident: ident.to_string(),
        fields: Fields::Unit,
        attrs: vec![format_error_attr(code, msg)],
    }
}

/// enum Error {
///     #[error(code = 500, msg = "123")] InternalServerError,
///     #[error(code = 400, msg = "123")] BadRequest,
/// }
fn format_conversion(attrs: Vec<Attribute>) -> Conversion {
    let input = DeriveInput {
        ident: "Error".to_string(),
        attrs,
        data: Data::Enum(vec![
            format_unit("InternalServerError", "500", "\"123\""),
            format_unit("BadRequest", "400", "\"123\""),
        ]),
    };
    generate(&input).unwrap()
}

#[test]
fn json_format() {
    let error = format_conversion(vec![format_attr("\"application/json\"")]);

    assert_eq!(
        error.into_response("InternalServerError", &vec![]).unwrap().content_type,
        "application/json"
    );
    assert_eq!(
        error.into_response("BadRequest", &vec![]).unwrap().content_type,
        "application/json"
    );
}

#[test]
fn text_format() {
    let error = format_conversion(vec![format_attr("\"text/plain\"")]);

    assert_eq!(
        error.into_response("InternalServerError", &vec![]).unwrap().content_type,
        "text/plain"
    );
    assert_eq!(
        error.into_response("BadRequest", &vec![]).unwrap().content_type,
        "text/plain"
    );
}

#[test]
fn implicit_text_format() {
    let error = format_conversion(vec![]);

    assert_eq!(
        error.into_response("InternalServerError", &vec![]).unwrap().content_type,
        "text/plain"
    );
    assert_eq!(
        error.into_response("BadRequest", &vec![]).unwrap().content_type,
        "text/plain"
    );
}
