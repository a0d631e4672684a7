use tokparse::{Parsable, ParseError, Parser, TestStruct, Token, TokenIter, TokenMatch};

fn ident(s: &str) -> Token {
    Token::Identifier(s.to_string())
}

#[test]
fn parse_if_match_match_enum_token() {
    let mut iter: TokenIter<Token> = TokenIter::new(vec![
        Token::Comma,
        Token::Identifier("Some identifier".to_string()),
    ]);

    let result = Token::parser()
        .with_matcher(TokenMatch::KindOf(Token::Comma))
        .parse(&mut iter);
    assert_eq!(result, Ok(Token::Comma));

    let result = Token::parser()
        .with_matcher(TokenMatch::KindOf(ident("")))
        .parse(&mut iter);
    assert_eq!(result, Ok(Token::Identifier("Some identifier".to_string())));

    let result = Token::parser()
        .with_matcher(TokenMatch::KindOf(ident("")))
        .parse(&mut iter);
    assert_eq!(result, Err(ParseError::no_more_tokens::<Token>(2)));

    let mut iter: TokenIter<Token> = TokenIter::new(vec![ident("Some identifier")]);

    let result: Result<Token, _> = Token::parser()
        .with_matcher(TokenMatch::KindOf(Token::Comma))
        .parse(&mut iter);
    assert!(result.is_err());
}

#[test]
fn failed_parse_if_match() {
    let tokens = vec![Token::LiteralInt(32)];
    let mut iter = TokenIter::new(tokens);
    let result: Result<Token, _> = Token::parser()
        .with_matcher(TokenMatch::KindOf(Token::KReturn))
        .parse(&mut iter);
    assert!(result.is_err());
    assert!(iter.current == 0);
}

#[test]
fn failed_parse() {
    let tokens = vec![
        Token::KInt,
        // variable_name is missing, so TestStruct will not be parsed
        Token::Assign,
        Token::LiteralInt(3),
    ];

    let mut iter = TokenIter::new(tokens);
    let result = TestStruct::parser().parse(&mut iter);
    assert!(result.is_err());

    // current should be zero, since struct was not parsed
    assert!(iter.current == 0)
}

#[test]
fn successful_parse() {
    let parse_if_matched_var_name = "variable1";
    let parse_if_matched_value = 3;
    let tokens = vec![
        Token::KInt,
        ident(parse_if_matched_var_name),
        Token::Assign,
        Token::LiteralInt(parse_if_matched_value),
        Token::LiteralInt(parse_if_matched_value),
        Token::SemiColon,
    ];
    let mut iter = TokenIter::new(tokens);
    let parse_if_matched_struct = TestStruct {
        var_type: Token::KInt,
        var_name: parse_if_matched_var_name.to_string(),
        equals_sign: Token::Assign,
        value: parse_if_matched_value,
    };
    let result = TestStruct::parser()
        .parse(&mut iter)
        .expect("Should succeed, since tokens represent a valid TestStruct");
    assert_eq!(result, parse_if_matched_struct);
}

#[test]
fn test_parse_if_match_empty_token_list() {
    let tokens = vec![];
    let mut iter = TokenIter::new(tokens);

    let result: Result<Token, _> = Token::parser()
        .with_matcher(TokenMatch::KindOf(Token::LParen))
        .parse(&mut iter);
    assert!(result.is_err());
    assert!(iter.current == 0);
}

#[test]
fn test_parse_if_match() {
    let tokens = vec![
        Token::LParen,
        Token::RParen,
        Token::Comma,
        Token::LiteralInt(4),
    ];
    let mut iter = TokenIter::new(tokens);

    let lparen_r: Token = Token::parser()
        .with_matcher(TokenMatch::KindOf(Token::LParen))
        .parse(&mut iter)
        .unwrap();
    assert!(lparen_r == Token::LParen);

    let rparen_r: Token = Token::parser()
        .with_matcher(TokenMatch::KindOf(Token::RParen))
        .parse(&mut iter)
        .unwrap();
    assert!(rparen_r == Token::RParen);

    let comma_r: Token = Token::parser()
        .with_matcher(TokenMatch::KindOf(Token::Comma))
        .parse(&mut iter)
        .unwrap();
    assert_eq!(comma_r, Token::Comma);

    let litint_r: Token = Token::parser()
        .with_matcher(TokenMatch::Exactly(Token::LiteralInt(4)))
        .parse(&mut iter)
        .unwrap();
    assert!(litint_r == Token::LiteralInt(4));

    assert!(iter.current == 4)
}

#[test]
fn test_new() {
    let tokens = vec![
        Token::LParen,
        Token::LiteralInt(21),
        Token::Comma,
        Token::LiteralInt(2),
        Token::Comma,
        Token::LiteralInt(21),
        Token::Comma,
        Token::LiteralInt(2),
        Token::Comma,
        Token::RParen,
    ];
    let iter = TokenIter::new(tokens);
    assert_eq!(iter.current, 0);
    assert_eq!(iter.tokens.len(), 10);
    assert_eq!(iter.stack.len(), 0);
}

#[test]
fn test_new_empty() {
    let max = usize::MAX;
    println!("{max}");
    let tokens = vec![];
    let iter = TokenIter::<Token>::new(tokens);
    assert_eq!(iter.current, 0);
    assert_eq!(iter.tokens.len(), 0);
    assert_eq!(iter.stack.len(), 0);
}
