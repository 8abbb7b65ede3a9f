use lox::{scan_tokens, Literal, Token, TokenType};

fn make_test_token(tt: TokenType) -> Token {
    Token {
        token_type: tt,
        literal: None,
    }
}

fn numeral(text: &str) -> Token {
    Token {
        token_type: TokenType::Number,
        literal: Some(Literal::Numeric(String::from(text))),
    }
}

#[test]
fn lexer_test_scan_tokens_all_success() {
    let tokens = match scan_tokens(String::from(
        "   !,.- + != <= >=\n\n\n\n ==\t !\r<>}{()   / //\n;\"fo\no\" 1 6.78",
    )) {
        Ok(tokens) => tokens,
        Err(err) => panic!("Unexpected error in test: {}", err),
    };

    let expected_tokens = vec![
        make_test_token(TokenType::Bang),
        make_test_token(TokenType::Comma),
        make_test_token(TokenType::Dot),
        make_test_token(TokenType::Minus),
        make_test_token(TokenType::Plus),
        make_test_token(TokenType::BangEqual),
        make_test_token(TokenType::LessEqual),
        make_test_token(TokenType::GreaterEqual),
        make_test_token(TokenType::EqualEqual),
        make_test_token(TokenType::Bang),
        make_test_token(TokenType::Less),
        make_test_token(TokenType::Greater),
        make_test_token(TokenType::RightBrace),
        make_test_token(TokenType::LeftBrace),
        make_test_token(TokenType::LeftParen),
        make_test_token(TokenType::RightParen),
        make_test_token(TokenType::Slash),
        make_test_token(TokenType::Comment),
        make_test_token(TokenType::Semicolon),
        Token {
            token_type: TokenType::String,
            literal: Some(Literal::String(String::from("fo\no"))),
        },
        numeral("1"),
        numeral("6.78"),
    ];

    assert_eq!(tokens.len(), expected_tokens.len());

    for (i, _) in tokens.iter().enumerate() {
        assert_eq!(tokens[i].token_type, expected_tokens[i].token_type);
    }
}

#[test]
fn lexer_test_scan_tokens_unexpected_character() {
    match scan_tokens(String::from("?")) {
        Ok(tokens) => {
            assert!(tokens.is_empty())
        }
        Err(err) => {
            assert_eq!("unrecognized character '?'", err)
        }
    };
}

#[test]
fn lexer_test_scan_tokens_comments() {
    let tokens = match scan_tokens(String::from("// a comment \n+")) {
        Ok(tokens) => tokens,
        Err(err) => panic!("Unexpected error in test: {}", err),
    };

    let expected_tokens = vec![
        make_test_token(TokenType::Comment),
        make_test_token(TokenType::Plus),
    ];

    assert_eq!(tokens.len(), expected_tokens.len());

    for (i, _) in tokens.iter().enumerate() {
        assert_eq!(tokens[i].token_type, expected_tokens[i].token_type);
    }
}

#[test]
fn lexer_test_scan_tokens_literals() {
    let tokens = match scan_tokens(String::from("\"helloworld\"")) {
        Ok(tokens) => tokens,
        Err(err) => panic!("Unexpected error in test: {}", err),
    };

    let expected_tokens = vec![Token {
        token_type: TokenType::String,
        literal: Some(Literal::String(String::from("helloworld"))),
    }];

    assert_eq!(tokens.len(), expected_tokens.len());

    for (i, _) in tokens.iter().enumerate() {
        assert_eq!(tokens[i].token_type, expected_tokens[i].token_type);
    }
}

#[test]
fn lexer_test_scan_tokens_unterminated_string() {
    match scan_tokens(String::from("\"helloworld")) {
        Ok(tokens) => assert!(tokens.is_empty()),
        Err(err) => {
            assert_eq!(err, "Unterminated string")
        }
    };
}

#[test]
fn lexer_test_scan_tokens_multiline_literals() {
    let tokens = match scan_tokens(String::from("\"hello\nworld\"")) {
        Ok(tokens) => tokens,
        Err(err) => panic!("Unexpected error in test: {}", err),
    };

    let expected_tokens = vec![Token {
        token_type: TokenType::String,
        literal: Some(Literal::String(String::from("hello\nworld"))),
    }];

    assert_eq!(tokens.len(), expected_tokens.len());

    for (i, _) in tokens.iter().enumerate() {
        assert_eq!(tokens[i].token_type, expected_tokens[i].token_type);
    }
}

#[test]
fn lexer_test_scan_tokens_number_literals() {
    let tokens = match scan_tokens(String::from("1.0 23433434.1233456 1 542 2348923409")) {
        Ok(tokens) => tokens,
        Err(err) => panic!("Unexpected error in test: {}", err),
    };

    let expected_tokens = vec![
        numeral("1.0"),
        numeral("23433434.123456"),
        numeral("1.0"),
        numeral("542.0"),
        numeral("2348923409.0"),
    ];

    assert_eq!(tokens.len(), expected_tokens.len());

    for (i, _) in tokens.iter().enumerate() {
        assert_eq!(tokens[i].token_type, expected_tokens[i].token_type);
    }
}

#[test]
fn scanner_test_scan_tokens_all_success() {
    let tokens = match scan_tokens(String::from(
        "   !,.- + != <= >=\n\n\n\n ==\t !\r<>}{()   / //\n;\"fo\no\" 1 6.78",
    )) {
        Ok(tokens) => tokens,
        Err(err) => panic!("Unexpected error in test: {}", err),
    };

    let expected_tokens = vec![
        make_test_token(TokenType::Bang),
        make_test_token(TokenType::Comma),
        make_test_token(TokenType::Dot),
        make_test_token(TokenType::Minus),
        make_test_token(TokenType::Plus),
        make_test_token(TokenType::BangEqual),
        make_test_token(TokenType::LessEqual),
        make_test_token(TokenType::GreaterEqual),
        make_test_token(TokenType::EqualEqual),
        make_test_token(TokenType::Bang),
        make_test_token(TokenType::Less),
        make_test_token(TokenType::Greater),
        make_test_token(TokenType::RightBrace),
        make_test_token(TokenType::LeftBrace),
        make_test_token(TokenType::LeftParen),
        make_test_token(TokenType::RightParen),
        make_test_token(TokenType::Slash),
        make_test_token(TokenType::Comment),
        make_test_token(TokenType::Semicolon),
        Token {
            token_type: TokenType::String,
            literal: Some(Literal::String(String::from("fo\no"))),
        },
        numeral("1"),
        numeral("6.78"),
    ];

    assert_eq!(tokens.len(), expected_tokens.len());

    for (i, _) in tokens.iter().enumerate() {
        assert_eq!(tokens[i].token_type, expected_tokens[i].token_type);
    }
}

#[test]
fn scanner_test_scan_tokens_unexpected_character() {
    match scan_tokens(String::from("?")) {
        Ok(tokens) => {
            assert!(tokens.is_empty())
        }
        Err(err) => {
            assert_eq!("unrecognized character '?'", err)
        }
    };
}

#[test]
fn scanner_test_scan_tokens_comments() {
    let tokens = match scan_tokens(String::from("// a comment \n+")) {
        Ok(tokens) => tokens,
        Err(err) => panic!("Unexpected error in test: {}", err),
    };

    let expected_tokens = vec![
        make_test_token(TokenType::Comment),
        make_test_token(TokenType::Plus),
    ];

    assert_eq!(tokens.len(), expected_tokens.len());

    for (i, _) in tokens.iter().enumerate() {
        assert_eq!(tokens[i].token_type, expected_tokens[i].token_type);
    }
}

#[test]
fn scanner_test_scan_tokens_literals() {
    let tokens = match scan_tokens(String::from("\"helloworld\"")) {
        Ok(tokens) => tokens,
        Err(err) => panic!("Unexpected error in test: {}", err),
    };

    let expected_tokens = vec![Token {
        token_type: TokenType::String,
        literal: Some(Literal::String(String::from("helloworld"))),
    }];

    assert_eq!(tokens.len(), expected_tokens.len());

    for (i, _) in tokens.iter().enumerate() {
        assert_eq!(tokens[i].token_type, expected_tokens[i].token_type);
    }
}

#[test]
fn scanner_test_scan_tokens_unterminated_string() {
    match scan_tokens(String::from("\"helloworld")) {
        Ok(tokens) => assert!(tokens.is_empty()),
        Err(err) => {
            assert_eq!(err, "Unterminated string")
        }
    };
}

#[test]
fn scanner_test_scan_tokens_multiline_literals() {
    let tokens = match scan_tokens(String::from("\"hello\nworld\"")) {
        Ok(tokens) => tokens,
        Err(err) => panic!("Unexpected error in test: {}", err),
    };

    let expected_tokens = vec![Token {
        token_type: TokenType::String,
        literal: Some(Literal::String(String::from("hello\nworld"))),
    }];

    assert_eq!(tokens.len(), expected_tokens.len());

    for (i, _) in tokens.iter().enumerate() {
        assert_eq!(tokens[i].token_type, expected_tokens[i].token_type);
    }
}

#[test]
fn scanner_test_scan_tokens_number_literals() {
    let tokens = match scan_tokens(String::from("1.0 23.123 1 542 2348923409")) {
        Ok(tokens) => tokens,
        Err(err) => panic!("Unexpected error in test: {}", err),
    };

    let expected_tokens = vec![
        numeral("1.0"),
        numeral("23.123"),
        numeral("1.0"),
        numeral("542.0"),
        numeral("2348923409.0"),
    ];

    assert_eq!(tokens.len(), expected_tokens.len());

    for (i, _) in tokens.iter().enumerate() {
        assert_eq!(tokens[i].token_type, expected_tokens[i].token_type);
    }
}

#[test]
fn test_scan_tokens_identifiers_keywords() {
    let tokens = match scan_tokens(String::from(
        "test and class else fun for if nil or print return super this true var while _my_variable_",
    )) {
        Ok(tokens) => tokens,
        Err(err) => panic!("Unexpected error in test: {}", err),
    };

    let expected_tokens = vec![
        Token {
            token_type: TokenType::Identifier,
            literal: Some(Literal::Identifier(String::from("test"))),
        },
        Token {
            token_type: TokenType::And,
            literal: None,
        },
        Token {
            token_type: TokenType::Class,
            literal: None,
        },
        Token {
            token_type: TokenType::Else,
            literal: None,
        },
        Token {
            token_type: TokenType::Fun,
            literal: None,
        },
        Token {
            token_type: TokenType::For,
            literal: None,
        },
        Token {
            token_type: TokenType::If,
            literal: None,
        },
        Token {
            token_type: TokenType::Nil,
            literal: None,
        },
        Token {
            token_type: TokenType::Or,
            literal: None,
        },
        Token {
            token_type: TokenType::Print,
            literal: None,
        },
        Token {
            token_type: TokenType::Return,
            literal: None,
        },
        Token {
            token_type: TokenType::Super,
            literal: None,
        },
        Token {
            token_type: TokenType::This,
            literal: None,
        },
        Token {
            token_type: TokenType::True,
            literal: None,
        },
        Token {
            token_type: TokenType::Var,
            literal: None,
        },
        Token {
            token_type: TokenType::While,
            literal: None,
        },
        Token {
            token_type: TokenType::Identifier,
            literal: Some(Literal::Identifier(String::from("_my_variable_"))),
        },
    ];

    assert_eq!(tokens.len(), expected_tokens.len());

    for (i, _) in tokens.iter().enumerate() {
        assert_eq!(tokens[i].token_type, expected_tokens[i].token_type);
        assert_eq!(tokens[i].literal, expected_tokens[i].literal);
    }
}
