use tokparse::{Token, TokenIter};

#[test]
fn regex_result_strips_string_quotes() {
    let template = Token::LiteralString(String::new());
    let (token, len) = template.from_regex_result("\"hello\"".to_string());
    assert_eq!(token, Token::LiteralString("hello".to_string()));
    assert_eq!(len, 7);
}

#[test]
fn regex_result_reads_decimal_literals() {
    let template = Token::LiteralInt(0);
    let (token, len) = template.from_regex_result("42".to_string());
    assert_eq!(token, Token::LiteralInt(42));
    assert_eq!(len, 2);

    let (token, _) = template.from_regex_result("4294967295".to_string());
    assert_eq!(token, Token::LiteralInt(u32::MAX));
}

#[test]
fn regex_result_keeps_identifier_text() {
    let template = Token::Identifier(String::new());
    let (token, len) = template.from_regex_result("some_name".to_string());
    assert_eq!(token, Token::Identifier("some_name".to_string()));
    assert_eq!(len, 9);
}

#[test]
fn regex_result_keeps_fixed_tokens() {
    let (token, len) = Token::Comma.from_regex_result(",".to_string());
    assert_eq!(token, Token::Comma);
    assert_eq!(len, 1);

    let (token, len) = Token::KReturn.from_regex_result("return".to_string());
    assert_eq!(token, Token::KReturn);
    assert_eq!(len, 6);
}

#[test]
fn consume_walks_the_sequence() {
    let mut iter = TokenIter::new(vec![Token::Comma, Token::SemiColon]);
    assert!(!iter.is_at_end());
    assert_eq!(iter.consume(), Some(Token::Comma));
    assert_eq!(iter.consume(), Some(Token::SemiColon));
    assert!(iter.is_at_end());
    assert_eq!(iter.consume(), None);
    assert_eq!(iter.current, 2);
}

#[test]
fn get_peeks_without_moving() {
    let iter = TokenIter::new(vec![Token::Comma, Token::SemiColon]);
    assert_eq!(iter.get(0), Some(Token::Comma));
    assert_eq!(iter.get(1), Some(Token::SemiColon));
    assert_eq!(iter.get(2), None);
    assert_eq!(iter.current, 0);
}

#[test]
fn regex_result_accepts_a_leading_plus() {
    let template = Token::LiteralInt(0);
    let (token, len) = template.from_regex_result("+42".to_string());
    assert_eq!(token, Token::LiteralInt(42));
    assert_eq!(len, 3);
}
