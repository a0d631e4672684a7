use tokparse::{
    PairMatcher, Parsable, Parser, Token, TokenIter, TokenMatch, VecStruct,
};

fn ident(s: &str) -> Token {
    Token::Identifier(s.to_string())
}

#[test]
fn vec_parse_2() {
    let litint = Token::LiteralInt(4);
    let mut idents = vec![ident("ident1"), ident("ident2")];
    let mut tokens = vec![litint];
    tokens.append(&mut idents);
    let mut iter = TokenIter::new(tokens);

    let result = VecStruct::parser()
        .with_matcher(TokenMatch::KindOf(ident("")))
        .parse(&mut iter)
        .expect("Expected Ok Result");

    assert_eq!(result.idents, vec![ident("ident1"), ident("ident2")]);
    assert_eq!(result.fn_name, Token::LiteralInt(4));

    assert!(iter.is_at_end())
}

#[test]
fn vec_parse_1() {
    let litint = Token::LiteralInt(4);
    let mut idents = vec![ident("ident1")];
    let mut tokens = vec![litint.clone()];
    tokens.append(&mut idents);
    let mut iter = TokenIter::new(tokens);

    let result = VecStruct::parser()
        .with_matcher(TokenMatch::KindOf(ident("")))
        .parse(&mut iter)
        .expect("Expected Ok Result");

    assert_eq!(result.idents, vec![ident("ident1")]);
    assert_eq!(result.fn_name, litint);
    assert!(iter.is_at_end())
}

#[test]
fn vec_parse_0() {
    let litint = Token::LiteralInt(4);
    let mut idents = vec![];
    let mut tokens = vec![litint.clone()];
    tokens.append(&mut idents);
    let mut iter = TokenIter::new(tokens);

    let result = VecStruct::parser()
        .with_matcher(TokenMatch::KindOf(ident("")))
        .parse(&mut iter)
        .expect("Expected Ok Result");

    assert_eq!(result.idents, vec![]);
    assert_eq!(result.fn_name, litint);
    assert!(iter.is_at_end())
}

#[test]
fn vec_leaves_undesirables() {
    let litint = Token::LiteralInt(4);
    let mut idents = vec![ident("ident1"), ident("ident2")];
    let mut tokens = vec![litint.clone()];
    tokens.append(&mut idents);
    tokens.push(Token::SemiColon);
    let mut iter = TokenIter::new(tokens);

    let result = VecStruct::parser()
        .with_matcher(TokenMatch::KindOf(ident("")))
        .parse(&mut iter)
        .expect("Expected Ok Result");

    assert_eq!(result.idents, vec![ident("ident1"), ident("ident2")]);
    assert_eq!(result.fn_name, litint);
    assert!(iter.is_at_end() == false);
    let _ = iter.consume();
    assert!(iter.is_at_end())
}

#[test]
fn vec_of_tuples_arity2() {
    let tokens = vec![
        Token::KReturn,
        Token::LiteralInt(3),
        Token::KReturn,
        Token::LiteralInt(3),
    ];
    let mut iter = TokenIter::new(tokens.clone());
    let parser = Vec::<(Token, Token)>::parser().with_matcher(PairMatcher::new(
        TokenMatch::KindOf(Token::KReturn),
        TokenMatch::KindOf(Token::LiteralInt(0)),
    ));
    let result = parser
        .parse(&mut iter)
        .expect("Should have parsed Vec with no issue");
    // 2 tuples of len == 4
    assert!(result.len() == 2);
    assert_eq!(
        result,
        vec![
            (
                tokens.get(0).unwrap().clone(),
                tokens.get(1).unwrap().clone()
            ),
            (
                tokens.get(2).unwrap().clone(),
                tokens.get(3).unwrap().clone()
            )
        ]
    );

    assert!(iter.is_at_end());

    let tokens = vec![Token::KReturn, Token::LiteralInt(3), Token::KReturn];
    let mut iter = TokenIter::new(tokens.clone());
    let result = parser
        .parse(&mut iter)
        .expect("Should have parsed Vec with no issue");
    assert!(result.len() == 1);
    assert_eq!(
        result,
        vec![(
            tokens.get(0).unwrap().clone(),
            tokens.get(1).unwrap().clone()
        ),]
    );
    assert!(iter.current == 2);
}
