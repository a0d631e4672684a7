use tokparse::{BoxStruct, ParseError, Parsable, Parser, Token, TokenIter, TokenMatch};

#[test]
fn different_patterns() {
    let litint1 = Token::LiteralInt(4);
    let litint2 = Token::LiteralInt(6);

    let mut tokens = TokenIter::new(vec![litint1.clone(), litint2.clone()]);

    let result = BoxStruct::parser()
        .with_matcher(TokenMatch::KindOf(Token::LiteralInt(0)))
        .parse(&mut tokens)
        .expect("Expected Ok Result");
    assert_eq!(
        result,
        BoxStruct {
            ident: Box::new(litint1)
        }
    );

    let result = BoxStruct::parser()
        .with_matcher(TokenMatch::KindOf(Token::LiteralInt(0)))
        .parse(&mut tokens)
        .expect("Expected Ok Result");
    assert_eq!(
        result,
        BoxStruct {
            ident: Box::new(litint2)
        }
    );

    assert!(tokens.is_at_end());

    let result = BoxStruct::parser()
        .with_matcher(TokenMatch::KindOf(Token::LiteralInt(0)))
        .parse(&mut tokens);
    assert_eq!(result, Err(ParseError::no_more_tokens::<Token>(2)));
}

#[test]
fn empty_test() {
    let tokens = vec![];
    let result = BoxStruct::parser().parse(&mut TokenIter::new(tokens));
    assert!(result.is_err());
}
