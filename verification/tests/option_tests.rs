use tokparse::{Parsable, Parser, Token, TokenIter, TokenMatch};

#[test]
fn option_none_when_unmatching() {
    let mut tokens = TokenIter::new(vec![Token::Identifier("ident1".to_string())]);
    let result = Option::<Token>::parser()
        .with_matcher(TokenMatch::Exactly(Token::Identifier(
            "NOT_IDENT_1".to_string(),
        )))
        .parse(&mut tokens);

    assert!(result.is_ok());
    assert!(result.unwrap().is_none())
}

#[test]
fn option_is_none_when_cannot_parse() {
    let mut tokens = TokenIter::new(vec![Token::SemiColon]);
    let result = Option::<Token>::parser()
        .with_matcher(TokenMatch::KindOf(Token::Identifier(String::new())))
        .parse(&mut tokens);

    assert!(result.is_ok());
    assert!(result.unwrap().is_none())
}

#[test]
fn option_is_some_when_when_parsed_and_matched() {
    let mut tokens = TokenIter::new(vec![Token::SemiColon]);
    let result = Option::<Token>::parser()
        .with_matcher(TokenMatch::KindOf(Token::SemiColon))
        .parse(&mut tokens);

    assert!(result.is_ok());
    assert!(result.unwrap().is_some())
}
