use tokparse::{
    identifier, IdentifierValue, LiteralIntValue, LiteralStringValue, Matcher, NoOpParser,
    PairMatcher, ParseError, ParseErrorType, Parser, Pattern, TestStruct, Token, TokenIter,
    TokenMatch,
};

#[test]
fn identifier_names_the_construct() {
    assert_eq!(identifier::<Token>(), "Token");
    assert_eq!(identifier::<TestStruct>(), "TestStruct");
    assert_eq!(identifier::<Option<Token>>(), "Option");
    assert_eq!(identifier::<Vec<Token>>(), "Vec");
    assert_eq!(identifier::<Box<Token>>(), "Box");
    assert_eq!(identifier::<(Token, Token)>(), "(_, _)");
}

#[test]
fn new_keeps_its_fields() {
    let e = ParseError::new("Token", 7, ParseErrorType::NoMoreTokens);
    assert_eq!(e.failed_at, 7);
    assert_eq!(e.failure_type, ParseErrorType::NoMoreTokens);
}

#[test]
fn unmatching_message_names_the_pattern() {
    let e = ParseError::parsed_but_unmatching::<Token, Token>(3, &Token::Comma, "Token::KInt");
    assert_eq!(e.failed_at, 3);
    match e.failure_type {
        ParseErrorType::ParsedButUnmatching { err_msg } => {
            assert_eq!(
                err_msg,
                "Parsed Comma: Token, but it did not match pattern 'Token::KInt'"
            );
        }
        _ => panic!("expected a rejection"),
    }
}

#[test]
fn conjunct_error_wraps_the_child_untouched() {
    let child = ParseError::no_more_tokens::<Token>(2);
    let wrapped = ParseError::from_conjunct_error::<Token>(
        ParseError::no_more_tokens::<Token>(2),
        vec!["Token::KInt".to_string()],
    );
    assert_eq!(wrapped.failed_at, 2);
    match wrapped.failure_type {
        ParseErrorType::ConjunctBranchParsingFailure {
            successes,
            err_source,
        } => {
            assert_eq!(successes, vec!["Token::KInt".to_string()]);
            assert_eq!(*err_source, child);
        }
        _ => panic!("expected a wrapped part failure"),
    }
}

#[test]
fn disjunct_error_keeps_every_alternative_in_order() {
    let first = ParseError::no_more_tokens::<Token>(1);
    let second = ParseError::parsed_but_unmatching::<Token, Token>(1, &Token::Comma, "Token::KInt");
    let wrapped = ParseError::from_disjunct_errors::<Token>(
        1,
        vec![
            ParseError::no_more_tokens::<Token>(1),
            ParseError::parsed_but_unmatching::<Token, Token>(1, &Token::Comma, "Token::KInt"),
        ],
    );
    assert_eq!(wrapped.failed_at, 1);
    match wrapped.failure_type {
        ParseErrorType::DisjunctBranchParsingFailure { err_source } => {
            assert_eq!(err_source.len(), 2);
            assert_eq!(err_source[0], first);
            assert_eq!(err_source[1], second);
        }
        _ => panic!("expected a wrapped choice failure"),
    }
}

#[test]
fn stringify_renders_a_leaf() {
    let e = ParseError::no_more_tokens::<Token>(0);
    assert_eq!(e.stringify(0), "Ran out of tokens\n");
    assert_eq!(e.stringify(2), "\t\tRan out of tokens\n");

    let e = ParseError::parsed_but_unmatching::<Token, Token>(0, &Token::Comma, "X");
    assert_eq!(
        e.stringify(1),
        "\tParsed Comma: Token, but it did not match pattern 'X'"
    );
}

#[test]
fn stringify_renders_the_attempt_tree() {
    let inner = ParseError::from_disjunct_errors::<Token>(
        1,
        vec![
            ParseError::no_more_tokens::<Token>(1),
            ParseError::parsed_but_unmatching::<Token, Token>(1, &Token::Comma, "Token::KInt"),
        ],
    );
    let e = ParseError::from_conjunct_error::<Token>(
        inner,
        vec!["Token::KReturn".to_string(), "Token::LiteralInt(4)".to_string()],
    );
    let expected = "Failed: Token:\n\t Success: Token::KReturn\n\t Success: Token::LiteralInt(4)\n\tFailed: Token:\n\t\tRan out of tokens\n\n\t\tParsed Comma: Token, but it did not match pattern 'Token::KInt'";
    assert_eq!(e.stringify(0), expected);
}

#[test]
fn value_carriers_keep_their_text() {
    let s = LiteralStringValue::from("hello".to_string());
    assert_eq!(s.value, "hello");
    let i = LiteralIntValue::from("42".to_string());
    assert_eq!(i.value, "42");
    let d = IdentifierValue::from("name".to_string());
    assert_eq!(d.value, "name");
}

#[test]
fn pattern_accepts_everything() {
    let p: Pattern<Token> = Pattern::new();
    assert!(p.matches(&Token::Comma));
    assert!(p.matches(&Token::Identifier("anything".to_string())));
    assert_eq!(p.describe(), "_");
}

#[test]
fn token_match_distinguishes_kind_and_value() {
    let exact = TokenMatch::Exactly(Token::LiteralInt(4));
    assert!(exact.matches(&Token::LiteralInt(4)));
    assert!(!exact.matches(&Token::LiteralInt(5)));

    let kind = TokenMatch::KindOf(Token::LiteralInt(4));
    assert!(kind.matches(&Token::LiteralInt(5)));
    assert!(!kind.matches(&Token::Comma));

    let dup = kind.duplicate();
    assert!(dup.matches(&Token::LiteralInt(9)));
}

#[test]
fn noop_parser_delegates_to_the_default() {
    let mut iter = TokenIter::new(vec![Token::Comma]);
    let r: Result<Token, ParseError> = Parser::<Token, Token>::parse(&NoOpParser, &mut iter);
    assert_eq!(r, Ok(Token::Comma));
    assert_eq!(iter.current, 1);
}

#[test]
fn errors_can_be_cloned() {
    let e = ParseError::from_conjunct_error::<Token>(
        ParseError::from_disjunct_errors::<Token>(
            1,
            vec![
                ParseError::no_more_tokens::<Token>(1),
                ParseError::parsed_but_unmatching::<Token, Token>(1, &Token::Comma, "X"),
            ],
        ),
        vec!["Token::KInt".to_string()],
    );
    let copy = e.clone();
    assert_eq!(copy, e);
}

#[test]
fn pair_matcher_describes_both_halves() {
    let m = PairMatcher::new(
        TokenMatch::KindOf(Token::KReturn),
        TokenMatch::KindOf(Token::LiteralInt(0)),
    );
    assert_eq!(m.describe(), "(Token::KReturn, Token::LiteralInt(_))");
    assert!(m.matches(&(Token::KReturn, Token::LiteralInt(7))));
    assert!(!m.matches(&(Token::Comma, Token::LiteralInt(7))));
}
