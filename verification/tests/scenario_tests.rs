use tokparse::{
    BoxStruct, Parsable, ParseError, ParseErrorType, Parser, TestStruct, Token, TokenIter,
    TokenMatch, Tuple2Validator,
};

fn ident(s: &str) -> Token {
    Token::Identifier(s.to_string())
}

#[test]
fn round_trip_scenario() {
    // The declaration shape followed by a semicolon: five tokens in all.
    let tokens = vec![
        Token::KInt,
        ident("x"),
        Token::Assign,
        Token::LiteralInt(3),
        Token::SemiColon,
    ];
    let mut iter = TokenIter::new(tokens);
    let result: Result<(TestStruct, Token), ParseError> = iter.parse();
    let (decl, semi) = result.expect("the five tokens form the full shape");
    assert_eq!(
        decl,
        TestStruct {
            var_type: Token::KInt,
            var_name: "x".to_string(),
            equals_sign: Token::Assign,
            value: 3,
        }
    );
    assert_eq!(semi, Token::SemiColon);
    assert_eq!(iter.current, 5);
    assert!(iter.is_at_end());
}

#[test]
fn partial_match_rejection_scenario() {
    // The identifier is missing: the parse fails and rewinds to the start.
    let tokens = vec![Token::KInt, Token::Assign, Token::LiteralInt(3)];
    let mut iter = TokenIter::new(tokens);
    let result: Result<TestStruct, ParseError> = iter.parse();
    let err = result.expect_err("the identifier is missing");
    assert_eq!(err.failed_at, 1);
    assert_eq!(err.type_label, "TestStruct");
    match err.failure_type {
        ParseErrorType::ConjunctBranchParsingFailure {
            successes,
            err_source,
        } => {
            assert_eq!(successes, vec!["KInt".to_string()]);
            assert_eq!(err_source.failed_at, 1);
            assert!(matches!(
                err_source.failure_type,
                ParseErrorType::ParsedButUnmatching { .. }
            ));
        }
        _ => panic!("expected the failing part to be wrapped"),
    }
    assert_eq!(iter.current, 0);
    assert_eq!(iter.stack.len(), 0);
}

#[test]
fn repetition_boundary_scenario() {
    // Zero, one, and two leading identifiers: lists of exactly that length,
    // consuming exactly that many tokens, trailing tokens left alone.
    for count in 0..3usize {
        let mut tokens: Vec<Token> = Vec::new();
        for i in 0..count {
            tokens.push(ident(&format!("id{i}")));
        }
        tokens.push(Token::SemiColon);
        let mut iter = TokenIter::new(tokens);
        let result = Vec::<Token>::parser()
            .with_matcher(TokenMatch::KindOf(ident("")))
            .parse(&mut iter)
            .expect("repetition never fails");
        assert_eq!(result.len(), count);
        assert_eq!(iter.current, count);
        assert!(!iter.is_at_end());
    }
}

#[test]
fn matcher_rejection_leaves_cursor_alone() {
    // A token of the right shape is present, but the matcher wants other
    // text: the optional parse reports absence and consumes nothing.
    let mut iter = TokenIter::new(vec![ident("ident1")]);
    let result = Option::<Token>::parser()
        .with_matcher(TokenMatch::Exactly(ident("NOT_IDENT_1")))
        .parse(&mut iter);
    assert_eq!(result, Ok(None));
    assert_eq!(iter.current, 0);
}

#[test]
fn tuple_rejection_rewinds_both_parts() {
    // The second slot parses but its matcher rejects it: the whole pair is
    // rewound, nothing stays consumed.
    let tokens = vec![Token::Comma, Token::Comma, Token::SemiColon];
    let mut iter = TokenIter::new(tokens);
    let validator = Tuple2Validator::default().with_matchers(
        TokenMatch::KindOf(Token::Comma),
        TokenMatch::KindOf(ident("")),
    );
    let result: Result<(Token, Token), ParseError> = iter.parse_with_validator(&validator);
    assert!(result.is_err());
    assert_eq!(iter.current, 0);
    assert_eq!(iter.stack.len(), 0);
}

#[test]
fn tuple_failure_rewinds_first_part() {
    // The second slot has no token left: the first slot's consumption is
    // fully undone.
    let tokens = vec![Token::Comma];
    let mut iter = TokenIter::new(tokens);
    let result: Result<(Token, Token), ParseError> = iter.parse();
    assert!(result.is_err());
    assert_eq!(iter.current, 0);
    assert_eq!(iter.stack.len(), 0);
}

#[test]
fn triple_and_quadruple_parse() {
    let tokens = vec![
        Token::Comma,
        Token::Comma,
        Token::Comma,
        Token::SemiColon,
    ];
    let mut iter = TokenIter::new(tokens.clone());
    let triple: Result<(Token, Token, Token), ParseError> = iter.parse();
    assert_eq!(
        triple,
        Ok((Token::Comma, Token::Comma, Token::Comma))
    );
    assert_eq!(iter.current, 3);

    let mut iter = TokenIter::new(tokens);
    let quad: Result<(Token, Token, Token, Token), ParseError> = iter.parse();
    assert_eq!(
        quad,
        Ok((Token::Comma, Token::Comma, Token::Comma, Token::SemiColon))
    );
    assert_eq!(iter.current, 4);
}

#[test]
fn try_do_rewinds_on_failure() {
    let tokens = vec![Token::Comma, Token::Comma, Token::SemiColon];
    let mut iter = TokenIter::new(tokens);
    let result: Result<Token, &str> = iter.try_do(|it| {
        let _ = it.consume();
        let _ = it.consume();
        Err("abandon the attempt")
    });
    assert!(result.is_err());
    assert_eq!(iter.current, 0);
    assert_eq!(iter.stack.len(), 0);

    let result: Result<Token, &str> = iter.try_do(|it| Ok(it.consume().unwrap()));
    assert_eq!(result, Ok(Token::Comma));
    assert_eq!(iter.current, 1);
    assert_eq!(iter.stack.len(), 0);
}

#[test]
fn nested_try_do_restores_outer_mark() {
    let tokens = vec![Token::Comma, Token::Comma, Token::SemiColon];
    let mut iter = TokenIter::new(tokens);
    let result: Result<(), &str> = iter.try_do(|outer| {
        let _ = outer.consume();
        let inner: Result<(), &str> = outer.try_do(|inner| {
            let _ = inner.consume();
            Err("inner attempt fails")
        });
        assert!(inner.is_err());
        assert_eq!(outer.current, 1);
        Err("outer attempt fails too")
    });
    assert!(result.is_err());
    assert_eq!(iter.current, 0);
    assert_eq!(iter.stack.len(), 0);
}

#[test]
fn parse_while_collects_until_declined() {
    let tokens = vec![Token::Comma, Token::Comma, Token::SemiColon];
    let mut iter = TokenIter::new(tokens);
    let collected: Vec<Token> = iter.parse_while(|t: &Token| !matches!(t, Token::SemiColon));
    assert_eq!(collected, vec![Token::Comma, Token::Comma]);
    assert_eq!(iter.current, 2);
    assert_eq!(iter.stack.len(), 0);
}

#[test]
fn failure_trace_renders_the_rejection() {
    let mut iter = TokenIter::new(vec![Token::KInt, Token::Assign, Token::LiteralInt(3)]);
    let result: Result<TestStruct, ParseError> = iter.parse();
    let err = result.expect_err("the identifier is missing");
    let trace = err.stringify(0);
    assert_eq!(
        trace,
        "Failed: TestStruct:\n\t Success: KInt\n\tParsed Assign: Token, but it did not match pattern 'Token::Identifier(_)'"
    );
}

#[test]
fn tuple_wraps_the_failing_part() {
    // The second slot has no token left: its exhausted-input error comes
    // back wrapped with the pair construct, after a full rewind.
    let tokens = vec![Token::Comma];
    let mut iter = TokenIter::new(tokens);
    let result: Result<(Token, Token), ParseError> = iter.parse();
    let err = result.expect_err("the second slot has nothing to read");
    assert_eq!(err.failed_at, 1);
    assert_eq!(err.type_label, "(_, _)");
    match err.failure_type {
        ParseErrorType::ConjunctBranchParsingFailure {
            successes,
            err_source,
        } => {
            assert_eq!(successes, vec!["Comma".to_string()]);
            assert_eq!(*err_source, ParseError::no_more_tokens::<Token>(1));
        }
        _ => panic!("expected the failing part to be wrapped"),
    }
    assert_eq!(iter.current, 0);
}

#[test]
fn box_rejection_names_value_and_pattern() {
    let mut iter = TokenIter::new(vec![Token::LiteralInt(4)]);
    let result = BoxStruct::parser()
        .with_matcher(TokenMatch::KindOf(Token::KReturn))
        .parse(&mut iter);
    let err = result.expect_err("the matcher wants a keyword");
    // The rejection is recorded after the rejected node, then rewound.
    assert_eq!(err.failed_at, 1);
    match err.failure_type {
        ParseErrorType::ParsedButUnmatching { err_msg } => {
            assert_eq!(
                err_msg,
                "Parsed LiteralInt(4): Token, but it did not match pattern 'Token::KReturn'"
            );
        }
        _ => panic!("expected a rejection"),
    }
    assert_eq!(iter.current, 0);
}
