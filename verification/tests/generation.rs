use axum_error_macro::{
    find_block, find_named, generate, match_arm, match_error, response_format, response_format_from,
    response_format_named, retrieve_params, retrieve_variants, Attribute, Data, DeriveInput,
    Expected, Fields, GenerationError, MatchArm, MetaKind, ResponseFormat, Token, Variant,
};

fn list(name: &str, tokens: Vec<Token>) -> Attribute {
    Attribute { name: name.to_string(), kind: MetaKind::List, tokens }
}

fn error_attr(code: &str, msg: &str) -> Attribute {
    list(
        "error",
        vec![
            Token::Ident("code".to_string()),
            Token::Punct('='),
            Token::Literal(code.to_string()),
            Token::Punct(','),
            Token::Ident("msg".to_string()),
            Token::Punct('='),
            Token::Literal(msg.to_string()),
        ],
    )
}

fn doc_attr() -> Attribute {
    Attribute { name: "doc".to_string(), kind: MetaKind::NameValue, tokens: vec![] }
}

fn variant(ident: &str, fields: Fields, attrs: Vec<Attribute>) -> Variant {
    Variant { ident: ident.to_string(), fields, attrs }
}

fn enumeration(attrs: Vec<Attribute>, variants: Vec<Variant>) -> DeriveInput {
    DeriveInput { ident: "Error".to_string(), attrs, data: Data::Enum(variants) }
}

fn format_literal(text: &str) -> Attribute {
    list("error_format", vec![Token::Literal(text.to_string())])
}

#[test]
fn variants_come_in_the_order_of_their_declaration() {
    let input = enumeration(
        vec![],
        vec![
            variant("B", Fields::Unit, vec![]),
            variant("A", Fields::Unnamed(1), vec![]),
            variant("C", Fields::Named, vec![]),
        ],
    );
    let names: Vec<&str> =
        retrieve_variants(&input).unwrap().iter().map(|v| v.ident.as_str()).collect();
    assert_eq!(names, ["B", "A", "C"]);
}

#[test]
fn struct_and_union_are_no_enum() {
    for data in [Data::Struct, Data::Union] {
        let input = DeriveInput { ident: "Error".to_string(), attrs: vec![], data };
        assert_eq!(retrieve_variants(&input), Err(GenerationError::NotAnEnum));
        assert_eq!(generate(&input), Err(GenerationError::NotAnEnum));
    }
}

#[test]
fn fields_are_bound_to_names_in_order() {
    assert_eq!(retrieve_params(&Fields::Unnamed(1)), Some(vec!["param_a".to_string()]));
    assert_eq!(
        retrieve_params(&Fields::Unnamed(3)),
        Some(vec!["param_a".to_string(), "param_b".to_string(), "param_c".to_string()])
    );
    let letters = retrieve_params(&Fields::Unnamed(26)).unwrap();
    assert_eq!(letters.len(), 26);
    assert_eq!(letters[25], "param_z");
}

#[test]
fn fields_beyond_the_letters_are_bound_to_their_numbers() {
    let names = retrieve_params(&Fields::Unnamed(27)).unwrap();
    assert_eq!(names.len(), 27);
    assert_eq!(names[25], "param_z");
    assert_eq!(names[26], "param_26");
    let many = retrieve_params(&Fields::Unnamed(1000)).unwrap();
    assert_eq!(many.len(), 1000);
    assert_eq!(many[0], "param_a");
    assert_eq!(many[27], "param_27");
    assert_eq!(many[100], "param_100");
    assert_eq!(many[999], "param_999");
    let mut sorted: Vec<&String> = many.iter().collect();
    sorted.sort();
    sorted.dedup();
    assert_eq!(sorted.len(), 1000);
    for name in &many {
        assert!(syn::parse_str::<syn::Ident>(name).is_ok(), "{}", name);
    }
}

#[test]
fn variant_without_positional_fields_binds_nothing() {
    assert_eq!(retrieve_params(&Fields::Unit), None);
    assert_eq!(retrieve_params(&Fields::Unnamed(0)), None);
    assert_eq!(retrieve_params(&Fields::Named), None);
    for fields in [Fields::Unit, Fields::Unnamed(0)] {
        let arm = match_arm(&variant("Empty", fields, vec![error_attr("500", "\"x\"")])).unwrap();
        assert_eq!(arm.params, Vec::<String>::new());
        assert_eq!(arm.source("Error"), "Error::Empty => (500u16, format!(\"x\", )),");
    }
}

#[test]
fn first_list_under_the_name_is_found() {
    let attrs = vec![
        doc_attr(),
        Attribute { name: "error".to_string(), kind: MetaKind::Path, tokens: vec![] },
        error_attr("500", "\"first\""),
        error_attr("400", "\"second\""),
    ];
    assert_eq!(find_block(&attrs, "error"), Some(2));
    assert_eq!(find_block(&attrs, "doc"), None);
    assert_eq!(find_block(&attrs, "error_format"), None);
    assert_eq!(find_block(&vec![], "error"), None);
}

#[test]
fn arm_holds_variant_bindings_code_and_template() {
    let v = variant(
        "UserByUsernameAndRoleNotFound",
        Fields::Unnamed(2),
        vec![doc_attr(), error_attr("404", "\"User by {} username with {} role was not found\"")],
    );
    assert_eq!(
        match_arm(&v),
        Ok(MatchArm {
            variant: "UserByUsernameAndRoleNotFound".to_string(),
            params: vec!["param_a".to_string(), "param_b".to_string()],
            code: 404,
            msg: "User by {} username with {} role was not found".to_string(),
        })
    );
}

#[test]
fn first_error_attribute_of_a_variant_decides() {
    let v = variant(
        "Twice",
        Fields::Unit,
        vec![error_attr("500", "\"first\""), error_attr("400", "\"second\"")],
    );
    let arm = match_arm(&v).unwrap();
    assert_eq!((arm.code, arm.msg.as_str()), (500, "first"));
}

#[test]
fn variant_without_error_attribute_stops_generation() {
    let bare = variant("Bare", Fields::Unit, vec![]);
    assert_eq!(
        match_arm(&bare),
        Err(GenerationError::MissingErrorSpec { variant: "Bare".to_string() })
    );
    let documented = variant(
        "Documented",
        Fields::Unit,
        vec![
            doc_attr(),
            Attribute { name: "error".to_string(), kind: MetaKind::Path, tokens: vec![] },
        ],
    );
    assert_eq!(
        match_arm(&documented),
        Err(GenerationError::MissingErrorSpec { variant: "Documented".to_string() })
    );
    let input = enumeration(
        vec![],
        vec![variant("Fine", Fields::Unit, vec![error_attr("500", "\"x\"")]), bare],
    );
    assert_eq!(
        generate(&input),
        Err(GenerationError::MissingErrorSpec { variant: "Bare".to_string() })
    );
}

#[test]
fn variant_with_named_fields_stops_generation() {
    let named = variant("Named", Fields::Named, vec![error_attr("500", "\"x\"")]);
    assert_eq!(
        match_arm(&named),
        Err(GenerationError::UnsupportedVariantShape { variant: "Named".to_string() })
    );
}

#[test]
fn variant_with_many_fields_has_its_arm() {
    let wide = variant("Wide", Fields::Unnamed(27), vec![error_attr("500", "\"x\"")]);
    let arm = match_arm(&wide).unwrap();
    assert_eq!(arm.params.len(), 27);
    assert_eq!(arm.params[26], "param_26");
    let source = arm.source("Error");
    assert!(source.starts_with("Error::Wide(param_a, param_b, "));
    assert!(source.contains("param_z, param_26, ) => (500u16, format!(\"x\", param_a, "));
    assert!(source.ends_with("param_z, param_26, )),"));
}

#[test]
fn malformed_attribute_is_reported_before_the_shape() {
    let v = variant(
        "Named",
        Fields::Named,
        vec![list("error", vec![Token::Ident("code".to_string())])],
    );
    assert_eq!(
        match_arm(&v),
        Err(GenerationError::MalformedErrorSpec { expected: Expected::Assign, found: None })
    );
}

#[test]
fn first_variant_at_fault_decides_the_error() {
    let variants = vec![
        variant("Good", Fields::Unit, vec![error_attr("500", "\"x\"")]),
        variant("Range", Fields::Unit, vec![error_attr("600", "\"x\"")]),
        variant("Bare", Fields::Unit, vec![]),
    ];
    assert_eq!(
        match_error(&variants),
        Err(GenerationError::InvalidStatusCode { literal: "600".to_string() })
    );
    assert_eq!(match_error(&vec![]), Ok(vec![]));
}

#[test]
fn arms_follow_the_variants() {
    let variants = vec![
        variant("A", Fields::Unit, vec![error_attr("500", "\"a\"")]),
        variant("B", Fields::Unnamed(1), vec![error_attr("201", "\"b {}\"")]),
    ];
    let arms = match_error(&variants).unwrap();
    assert_eq!(arms.len(), 2);
    assert_eq!((arms[0].variant.as_str(), arms[0].code, arms[0].params.len()), ("A", 500, 0));
    assert_eq!((arms[1].variant.as_str(), arms[1].code, arms[1].params.len()), ("B", 201, 1));
}

#[test]
fn content_types_name_the_formats() {
    assert_eq!(response_format_named("application/json"), Some(ResponseFormat::JsonMessage));
    assert_eq!(response_format_named("text/plain"), Some(ResponseFormat::PlainText));
    for other in ["", "text/html", "TEXT/PLAIN", "application/json ", "json"] {
        assert_eq!(response_format_named(other), None);
    }
    assert_eq!(ResponseFormat::JsonMessage.content_type(), "application/json");
    assert_eq!(ResponseFormat::PlainText.content_type(), "text/plain");
    assert_eq!(ResponseFormat::default(), ResponseFormat::PlainText);
}

#[test]
fn format_attribute_selects_the_format() {
    assert_eq!(response_format(&vec![]), Ok(ResponseFormat::PlainText));
    assert_eq!(response_format(&vec![doc_attr()]), Ok(ResponseFormat::PlainText));
    assert_eq!(
        response_format(&vec![doc_attr(), format_literal("\"application/json\"")]),
        Ok(ResponseFormat::JsonMessage)
    );
    assert_eq!(
        response_format(&vec![format_literal("\"text/plain\"")]),
        Ok(ResponseFormat::PlainText)
    );
    assert_eq!(
        response_format(&vec![format_literal("r\"application/json\"")]),
        Ok(ResponseFormat::JsonMessage)
    );
    assert_eq!(
        response_format(&vec![
            format_literal("\"application/json\""),
            format_literal("\"text/plain\"")
        ]),
        Ok(ResponseFormat::JsonMessage)
    );
}

#[test]
fn unknown_content_type_stops_generation() {
    let unknown = |found: Option<Token>| Err(GenerationError::UnknownContentType { found });
    let html = Token::Literal("\"text/html\"".to_string());
    assert_eq!(response_format(&vec![format_literal("\"text/html\"")]), unknown(Some(html)));
    assert_eq!(response_format(&vec![list("error_format", vec![])]), unknown(None));
    let word = Token::Ident("json".to_string());
    assert_eq!(
        response_format(&vec![list("error_format", vec![word.clone()])]),
        unknown(Some(word))
    );
    let number = Token::Literal("1".to_string());
    assert_eq!(
        response_format(&vec![list("error_format", vec![number.clone()])]),
        unknown(Some(number))
    );
    let json = Token::Literal("\"application/json\"".to_string());
    assert_eq!(
        response_format(&vec![list("error_format", vec![json.clone(), Token::Punct(',')])]),
        unknown(Some(json.clone()))
    );
    assert_eq!(
        response_format_from(&vec![json.clone()], None),
        Err(GenerationError::UnknownContentType { found: Some(json.clone()) })
    );
    assert_eq!(
        response_format_from(&vec![json], Some("text/plain".to_string())),
        Ok(ResponseFormat::PlainText)
    );
}

#[test]
fn format_attribute_in_another_shape_names_no_content_type() {
    for kind in [MetaKind::NameValue, MetaKind::Path] {
        let attrs = vec![
            doc_attr(),
            Attribute { name: "error_format".to_string(), kind, tokens: vec![] },
            format_literal("\"application/json\""),
        ];
        assert_eq!(
            response_format(&attrs),
            Err(GenerationError::UnknownContentType { found: None })
        );
        let input = enumeration(
            vec![Attribute { name: "error_format".to_string(), kind, tokens: vec![] }],
            vec![variant("A", Fields::Unit, vec![error_attr("500", "\"a\"")])],
        );
        assert_eq!(generate(&input), Err(GenerationError::UnknownContentType { found: None }));
    }
    assert_eq!(find_named(&vec![doc_attr()], "error_format"), None);
    assert_eq!(find_named(&vec![doc_attr(), list("doc", vec![])], "doc"), Some(0));
}

#[test]
fn format_is_decoded_before_the_variants() {
    let input = enumeration(
        vec![format_literal("\"text/html\"")],
        vec![variant("Bare", Fields::Unit, vec![])],
    );
    assert_eq!(
        generate(&input),
        Err(GenerationError::UnknownContentType {
            found: Some(Token::Literal("\"text/html\"".to_string()))
        })
    );
}

#[test]
fn conversion_holds_name_format_and_arms() {
    let input = enumeration(
        vec![format_literal("\"application/json\"")],
        vec![variant("A", Fields::Unit, vec![error_attr("500", "\"a\"")])],
    );
    let conversion = generate(&input).unwrap();
    assert_eq!(conversion.ident, "Error");
    assert_eq!(conversion.format, ResponseFormat::JsonMessage);
    assert_eq!(
        conversion.arms,
        vec![MatchArm {
            variant: "A".to_string(),
            params: vec![],
            code: 500,
            msg: "a".to_string()
        }]
    );
}

#[test]
fn enumeration_without_variants_has_no_arms() {
    let conversion = generate(&enumeration(vec![], vec![])).unwrap();
    assert_eq!(conversion.arms, vec![]);
    assert_eq!(conversion.format, ResponseFormat::PlainText);
}
