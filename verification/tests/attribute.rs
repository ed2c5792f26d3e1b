use axum_error_macro::{
    error_spec_from, validate_attribute, ErrorSpec, Expected, GenerationError, Token,
};

fn ident(word: &str) -> Token {
    Token::Ident(word.to_string())
}

fn literal(text: &str) -> Token {
    Token::Literal(text.to_string())
}

fn spec_tokens(code: &str, msg: &str) -> Vec<Token> {
    vec![
        ident("code"),
        Token::Punct('='),
        literal(code),
        Token::Punct(','),
        ident("msg"),
        Token::Punct('='),
        literal(msg),
    ]
}

fn malformed(expected: Expected, found: Option<Token>) -> Result<ErrorSpec, GenerationError> {
    Err(GenerationError::MalformedErrorSpec { expected, found })
}

fn spec(code: u16, msg: &str) -> Result<ErrorSpec, GenerationError> {
    Ok(ErrorSpec { code, msg: msg.to_string() })
}

#[test]
fn attribute_gives_code_and_template() {
    assert_eq!(
        validate_attribute(&spec_tokens("404", "\"User by {} id was not found\"")),
        spec(404, "User by {} id was not found")
    );
}

#[test]
fn attribute_without_msg_names_msg() {
    let tokens = vec![ident("code"), Token::Punct('='), literal("500")];
    let result = validate_attribute(&tokens);
    assert_eq!(result, malformed(Expected::Msg, None));
    assert_eq!(result.unwrap_err().message(), "Expected 'msg', found end of attribute");
}

#[test]
fn attribute_that_ends_early_says_what_is_missing() {
    let full = spec_tokens("500", "\"x\"");
    let expected = [
        Expected::Code,
        Expected::Assign,
        Expected::StatusCode,
        Expected::Msg,
        Expected::Msg,
        Expected::Assign,
        Expected::Message,
    ];
    for cut in 0..7 {
        let tokens: Vec<Token> = full[..cut].to_vec();
        assert_eq!(validate_attribute(&tokens), malformed(expected[cut], None), "cut at {}", cut);
    }
}

#[test]
fn attribute_with_a_wrong_token_reports_it() {
    let wrong = [
        (0, ident("kode"), Expected::Code),
        (0, literal("500"), Expected::Code),
        (1, Token::Punct(':'), Expected::Assign),
        (2, ident("five"), Expected::StatusCode),
        (2, Token::Punct('-'), Expected::StatusCode),
        (3, Token::Punct(';'), Expected::Comma),
        (3, ident("msg"), Expected::Comma),
        (4, ident("message"), Expected::Msg),
        (5, Token::Punct(','), Expected::Assign),
        (6, ident("text"), Expected::Message),
        (6, Token::Group("(\"x\")".to_string()), Expected::Message),
    ];
    for (place, token, expected) in wrong {
        let mut tokens = spec_tokens("500", "\"x\"");
        tokens[place] = token.clone();
        assert_eq!(validate_attribute(&tokens), malformed(expected, Some(token)));
    }
}

#[test]
fn attribute_with_a_literal_of_the_wrong_kind_is_malformed() {
    for code in ["\"500\"", "5.0", "5e2", "'5'", "true", "b'5'"] {
        assert_eq!(
            validate_attribute(&spec_tokens(code, "\"x\"")),
            malformed(Expected::StatusCode, Some(literal(code))),
            "code {}",
            code
        );
    }
    for msg in ["500", "'x'", "b\"x\"", "br\"x\"", "1.5", "\"unterminated", "x"] {
        assert_eq!(
            validate_attribute(&spec_tokens("500", msg)),
            malformed(Expected::Message, Some(literal(msg))),
            "msg {}",
            msg
        );
    }
}

#[test]
fn attribute_with_more_tokens_is_malformed() {
    let mut tokens = spec_tokens("500", "\"x\"");
    tokens.push(Token::Punct(','));
    assert_eq!(validate_attribute(&tokens), malformed(Expected::End, Some(Token::Punct(','))));
}

#[test]
fn status_code_must_lie_between_100_and_599() {
    for code in ["100", "200", "404", "599"] {
        let value: u16 = code.parse().unwrap();
        assert_eq!(validate_attribute(&spec_tokens(code, "\"x\"")), spec(value, "x"));
    }
    for code in ["0", "99", "600", "999", "65535", "65536", "70000", "340282366920938463463374607431768211456"] {
        assert_eq!(
            validate_attribute(&spec_tokens(code, "\"x\"")),
            Err(GenerationError::InvalidStatusCode { literal: code.to_string() }),
            "code {}",
            code
        );
    }
}

#[test]
fn status_code_is_read_in_every_form_of_integer_literal() {
    for (code, value) in [
        ("0x1F4", 500),
        ("0x1f4", 500),
        ("0o764", 500),
        ("0b111110100", 500),
        ("5_00", 500),
        ("500u16", 500),
        ("404u8", 404),
        ("0_404_i64", 404),
    ] {
        assert_eq!(validate_attribute(&spec_tokens(code, "\"x\"")), spec(value, "x"), "{}", code);
    }
}

#[test]
fn invalid_status_code_wins_over_what_follows_it() {
    let tokens = vec![ident("code"), Token::Punct('='), literal("99"), ident("oops")];
    assert_eq!(
        validate_attribute(&tokens),
        Err(GenerationError::InvalidStatusCode { literal: "99".to_string() })
    );
}

#[test]
fn template_is_the_string_that_the_literal_stands_for() {
    for (msg, value) in [
        ("\"\"", ""),
        ("\"plain\"", "plain"),
        ("\"line\\nbreak\"", "line\nbreak"),
        ("\"quote \\\" and backslash \\\\\"", "quote \" and backslash \\"),
        ("\"tab\\tnul\\0\"", "tab\tnul\0"),
        ("\"\\x41\\u{e9}\\u{1F600}\"", "A\u{e9}\u{1F600}"),
        ("\"Gr\u{fc}\u{df}e {}\"", "Gr\u{fc}\u{df}e {}"),
        ("r\"raw \\n {}\"", "raw \\n {}"),
        ("r#\"with \"quotes\"\"#", "with \"quotes\""),
        ("\"a \\\n      b\"", "a b"),
    ] {
        assert_eq!(validate_attribute(&spec_tokens("500", msg)), spec(500, value), "{}", msg);
    }
}

#[test]
fn literal_that_ends_in_a_wide_character_is_no_message() {
    for msg in ["\"a\\nb\"\u{e9}", "\"\\\u{e9}", "\"abc\"\u{e9}"] {
        assert_eq!(
            validate_attribute(&spec_tokens("500", msg)),
            malformed(Expected::Message, Some(literal(msg))),
            "{}",
            msg
        );
    }
}

#[test]
fn grammar_is_decided_from_the_readings_of_the_literals() {
    let tokens = spec_tokens("500", "\"x\"");
    assert_eq!(error_spec_from(&tokens, Some(Some(500)), Some("x".to_string())), spec(500, "x"));
    assert_eq!(
        error_spec_from(&tokens, None, Some("x".to_string())),
        malformed(Expected::StatusCode, Some(literal("500")))
    );
    assert_eq!(
        error_spec_from(&tokens, Some(None), Some("x".to_string())),
        Err(GenerationError::InvalidStatusCode { literal: "500".to_string() })
    );
    assert_eq!(
        error_spec_from(&tokens, Some(Some(600)), Some("x".to_string())),
        Err(GenerationError::InvalidStatusCode { literal: "500".to_string() })
    );
    assert_eq!(
        error_spec_from(&tokens, Some(Some(500)), None),
        malformed(Expected::Message, Some(literal("\"x\"")))
    );
    assert_eq!(error_spec_from(&vec![], Some(Some(500)), None), malformed(Expected::Code, None));
}

#[test]
fn errors_speak_of_the_variant_or_the_token() {
    assert_eq!(GenerationError::NotAnEnum.message(), "Expected an enum");
    assert_eq!(
        GenerationError::UnsupportedVariantShape { variant: "Named".to_string() }.message(),
        "Variant Named has fields that cannot be bound by position"
    );
    assert_eq!(
        GenerationError::MissingErrorSpec { variant: "Bare".to_string() }.message(),
        "Variant Bare has no error attribute"
    );
    assert_eq!(
        GenerationError::MalformedErrorSpec {
            expected: Expected::Code,
            found: Some(ident("kode"))
        }
        .message(),
        "Expected 'code', found kode"
    );
    assert_eq!(
        GenerationError::MalformedErrorSpec {
            expected: Expected::Assign,
            found: Some(Token::Punct(':'))
        }
        .message(),
        "Expected '=', found :"
    );
    assert_eq!(
        GenerationError::MalformedErrorSpec {
            expected: Expected::StatusCode,
            found: Some(literal("\"500\""))
        }
        .message(),
        "Expected http code error, found \"500\""
    );
    assert_eq!(
        GenerationError::MalformedErrorSpec { expected: Expected::Comma, found: None }.message(),
        "Expected ',', found end of attribute"
    );
    assert_eq!(
        GenerationError::MalformedErrorSpec {
            expected: Expected::Message,
            found: Some(Token::Group("(x)".to_string()))
        }
        .message(),
        "Expected error message, found (x)"
    );
    assert_eq!(
        GenerationError::MalformedErrorSpec {
            expected: Expected::End,
            found: Some(Token::Punct(','))
        }
        .message(),
        "Expected end of attribute, found ,"
    );
    assert_eq!(
        GenerationError::InvalidStatusCode { literal: "70000".to_string() }.message(),
        "Error code must be valid, found 70000"
    );
    assert_eq!(
        GenerationError::UnknownContentType { found: Some(literal("\"text/html\"")) }.message(),
        "Unknown content type, found \"text/html\""
    );
    assert_eq!(
        GenerationError::UnknownContentType { found: None }.message(),
        "Unknown content type, found end of attribute"
    );
}

#[test]
fn token_text_is_the_token_as_written() {
    assert_eq!(ident("code").text(), "code");
    assert_eq!(Token::Punct('=').text(), "=");
    assert_eq!(literal("0x1F4").text(), "0x1F4");
    assert_eq!(Token::Group("(a, b)".to_string()).text(), "(a, b)");
    assert_eq!(literal("\"x\"").clone(), literal("\"x\""));
}
