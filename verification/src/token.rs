use vstd::prelude::*;

use crate::base_traits::{ConsumableToken, Matcher, Named, Parsable, Parser, Pattern};
use crate::iter::TokenIter;
use crate::parse_error::ParseError;

verus! {

use vstd::string::StringSliceAdditionalSpecFns;


/// The carrier of a string literal's text.
#[derive(PartialEq, Default, Debug, Clone)]
pub struct LiteralStringValue {
    pub value: String,
}

impl From<String> for LiteralStringValue {
    fn from(s: String) -> Self {
        LiteralStringValue { value: s }
    }
}

impl vstd::std_specs::convert::FromSpecImpl<String> for LiteralStringValue {
    open spec fn obeys_from_spec() -> bool {
        true
    }

    open spec fn from_spec(s: String) -> Self {
        LiteralStringValue { value: s }
    }
}

/// The carrier of an integer literal's text.
#[derive(PartialEq, Default, Debug, Clone)]
pub struct LiteralIntValue {
    pub value: String,
}

impl From<String> for LiteralIntValue {
    fn from(s: String) -> Self {
        LiteralIntValue { value: s }
    }
}

impl vstd::std_specs::convert::FromSpecImpl<String> for LiteralIntValue {
    open spec fn obeys_from_spec() -> bool {
        true
    }

    open spec fn from_spec(s: String) -> Self {
        LiteralIntValue { value: s }
    }
}

/// The carrier of an identifier's text.
#[derive(PartialEq, Default, Debug, Clone)]
pub struct IdentifierValue {
    pub value: String,
}

impl From<String> for IdentifierValue {
    fn from(s: String) -> Self {
        IdentifierValue { value: s }
    }
}

impl vstd::std_specs::convert::FromSpecImpl<String> for IdentifierValue {
    open spec fn obeys_from_spec() -> bool {
        true
    }

    open spec fn from_spec(s: String) -> Self {
        IdentifierValue { value: s }
    }
}

/// One lexical unit of the toy language the tests parse: operators, keywords,
/// literals, identifiers, delimiters and punctuation.
#[derive(Debug, Clone, Eq)]
pub enum Token {
    Assign,
    Plus,
    Minus,
    Mult,
    Div,
    KInt,
    KFloat,
    KReturn,
    LiteralString(String),
    LiteralInt(u32),
    Identifier(String),
    RCurly,
    LCurly,
    RBracket,
    LBracket,
    RParen,
    LParen,
    Comma,
    SemiColon,
    INVALID,
    EMPTY,
}

/// Equality of tokens: same variant, and equal text or value where the
/// variant carries one.
pub open spec fn spec_token_eq(a: Token, b: Token) -> bool {
    match (a, b) {
            (Token::Assign, Token::Assign) => true,
            (Token::Plus, Token::Plus) => true,
            (Token::Minus, Token::Minus) => true,
            (Token::Mult, Token::Mult) => true,
            (Token::Div, Token::Div) => true,
            (Token::KInt, Token::KInt) => true,
            (Token::KFloat, Token::KFloat) => true,
            (Token::KReturn, Token::KReturn) => true,
            (Token::RCurly, Token::RCurly) => true,
            (Token::LCurly, Token::LCurly) => true,
            (Token::RBracket, Token::RBracket) => true,
            (Token::LBracket, Token::LBracket) => true,
            (Token::RParen, Token::RParen) => true,
            (Token::LParen, Token::LParen) => true,
            (Token::Comma, Token::Comma) => true,
            (Token::SemiColon, Token::SemiColon) => true,
            (Token::INVALID, Token::INVALID) => true,
            (Token::EMPTY, Token::EMPTY) => true,
            (Token::LiteralString(a), Token::LiteralString(b)) => a@ == b@,
            (Token::LiteralInt(a), Token::LiteralInt(b)) => a == b,
            (Token::Identifier(a), Token::Identifier(b)) => a@ == b@,
            _ => false,
    }
}

/// Two tokens are of the same kind: the same variant, whatever either one
/// carries.
pub open spec fn spec_same_kind(a: Token, b: Token) -> bool {
    match (a, b) {
            (Token::Assign, Token::Assign) => true,
            (Token::Plus, Token::Plus) => true,
            (Token::Minus, Token::Minus) => true,
            (Token::Mult, Token::Mult) => true,
            (Token::Div, Token::Div) => true,
            (Token::KInt, Token::KInt) => true,
            (Token::KFloat, Token::KFloat) => true,
            (Token::KReturn, Token::KReturn) => true,
            (Token::RCurly, Token::RCurly) => true,
            (Token::LCurly, Token::LCurly) => true,
            (Token::RBracket, Token::RBracket) => true,
            (Token::LBracket, Token::LBracket) => true,
            (Token::RParen, Token::RParen) => true,
            (Token::LParen, Token::LParen) => true,
            (Token::Comma, Token::Comma) => true,
            (Token::SemiColon, Token::SemiColon) => true,
            (Token::INVALID, Token::INVALID) => true,
            (Token::EMPTY, Token::EMPTY) => true,
            (Token::LiteralString(_), Token::LiteralString(_)) => true,
            (Token::LiteralInt(_), Token::LiteralInt(_)) => true,
            (Token::Identifier(_), Token::Identifier(_)) => true,
            _ => false,
    }
}

impl PartialEq for Token {
    fn eq(&self, other: &Self) -> (r: bool) {
        match (self, other) {
            (Token::Assign, Token::Assign) => true,
            (Token::Plus, Token::Plus) => true,
            (Token::Minus, Token::Minus) => true,
            (Token::Mult, Token::Mult) => true,
            (Token::Div, Token::Div) => true,
            (Token::KInt, Token::KInt) => true,
            (Token::KFloat, Token::KFloat) => true,
            (Token::KReturn, Token::KReturn) => true,
            (Token::RCurly, Token::RCurly) => true,
            (Token::LCurly, Token::LCurly) => true,
            (Token::RBracket, Token::RBracket) => true,
            (Token::LBracket, Token::LBracket) => true,
            (Token::RParen, Token::RParen) => true,
            (Token::LParen, Token::LParen) => true,
            (Token::Comma, Token::Comma) => true,
            (Token::SemiColon, Token::SemiColon) => true,
            (Token::INVALID, Token::INVALID) => true,
            (Token::EMPTY, Token::EMPTY) => true,
            (Token::LiteralString(a), Token::LiteralString(b)) => *a == *b,
            (Token::LiteralInt(a), Token::LiteralInt(b)) => *a == *b,
            (Token::Identifier(a), Token::Identifier(b)) => *a == *b,
            _ => false,
        }
    }
}

impl vstd::std_specs::cmp::PartialEqSpecImpl for Token {
    open spec fn obeys_eq_spec() -> bool {
        true
    }

    open spec fn eq_spec(&self, other: &Self) -> bool {
        spec_token_eq(*self, *other)
    }
}

/// The name of a token's kind, as text.
pub open spec fn spec_kind_name(t: Token) -> Seq<char> {
    match t {
        Token::Assign => "Token::Assign"@,
        Token::Plus => "Token::Plus"@,
        Token::Minus => "Token::Minus"@,
        Token::Mult => "Token::Mult"@,
        Token::Div => "Token::Div"@,
        Token::KInt => "Token::KInt"@,
        Token::KFloat => "Token::KFloat"@,
        Token::KReturn => "Token::KReturn"@,
        Token::RCurly => "Token::RCurly"@,
        Token::LCurly => "Token::LCurly"@,
        Token::RBracket => "Token::RBracket"@,
        Token::LBracket => "Token::LBracket"@,
        Token::RParen => "Token::RParen"@,
        Token::LParen => "Token::LParen"@,
        Token::Comma => "Token::Comma"@,
        Token::SemiColon => "Token::SemiColon"@,
        Token::INVALID => "Token::INVALID"@,
        Token::EMPTY => "Token::EMPTY"@,
        Token::LiteralString(_) => "Token::LiteralString(_)"@,
        Token::LiteralInt(_) => "Token::LiteralInt(_)"@,
        Token::Identifier(_) => "Token::Identifier(_)"@,
    }
}

impl Token {
    /// Decides whether two tokens are of the same kind.
    pub fn same_kind(&self, other: &Self) -> (r: bool)
        ensures
            r == spec_same_kind(*self, *other),
    {
        match (self, other) {
            (Token::Assign, Token::Assign) => true,
            (Token::Plus, Token::Plus) => true,
            (Token::Minus, Token::Minus) => true,
            (Token::Mult, Token::Mult) => true,
            (Token::Div, Token::Div) => true,
            (Token::KInt, Token::KInt) => true,
            (Token::KFloat, Token::KFloat) => true,
            (Token::KReturn, Token::KReturn) => true,
            (Token::RCurly, Token::RCurly) => true,
            (Token::LCurly, Token::LCurly) => true,
            (Token::RBracket, Token::RBracket) => true,
            (Token::LBracket, Token::LBracket) => true,
            (Token::RParen, Token::RParen) => true,
            (Token::LParen, Token::LParen) => true,
            (Token::Comma, Token::Comma) => true,
            (Token::SemiColon, Token::SemiColon) => true,
            (Token::INVALID, Token::INVALID) => true,
            (Token::EMPTY, Token::EMPTY) => true,
            (Token::LiteralString(_), Token::LiteralString(_)) => true,
            (Token::LiteralInt(_), Token::LiteralInt(_)) => true,
            (Token::Identifier(_), Token::Identifier(_)) => true,
            _ => false,
        }
    }

    /// The name of this token's kind.
    pub fn kind_name(&self) -> (r: &'static str)
        ensures
            r@ == spec_kind_name(*self),
    {
        match self {
            Token::Assign => "Token::Assign",
            Token::Plus => "Token::Plus",
            Token::Minus => "Token::Minus",
            Token::Mult => "Token::Mult",
            Token::Div => "Token::Div",
            Token::KInt => "Token::KInt",
            Token::KFloat => "Token::KFloat",
            Token::KReturn => "Token::KReturn",
            Token::RCurly => "Token::RCurly",
            Token::LCurly => "Token::LCurly",
            Token::RBracket => "Token::RBracket",
            Token::LBracket => "Token::LBracket",
            Token::RParen => "Token::RParen",
            Token::LParen => "Token::LParen",
            Token::Comma => "Token::Comma",
            Token::SemiColon => "Token::SemiColon",
            Token::INVALID => "Token::INVALID",
            Token::EMPTY => "Token::EMPTY",
            Token::LiteralString(_) => "Token::LiteralString(_)",
            Token::LiteralInt(_) => "Token::LiteralInt(_)",
            Token::Identifier(_) => "Token::Identifier(_)",
        }
    }
}

impl Named for Token {
    open spec fn spec_name() -> Seq<char> {
        "Token"@
    }

    fn construct_name() -> (s: &'static str) {
        "Token"
    }
}

impl ConsumableToken for Token {
    fn copy_token(&self) -> (t: Self) {
        match self {
            Token::Assign => Token::Assign,
            Token::Plus => Token::Plus,
            Token::Minus => Token::Minus,
            Token::Mult => Token::Mult,
            Token::Div => Token::Div,
            Token::KInt => Token::KInt,
            Token::KFloat => Token::KFloat,
            Token::KReturn => Token::KReturn,
            Token::RCurly => Token::RCurly,
            Token::LCurly => Token::LCurly,
            Token::RBracket => Token::RBracket,
            Token::LBracket => Token::LBracket,
            Token::RParen => Token::RParen,
            Token::LParen => Token::LParen,
            Token::Comma => Token::Comma,
            Token::SemiColon => Token::SemiColon,
            Token::INVALID => Token::INVALID,
            Token::EMPTY => Token::EMPTY,
            Token::LiteralString(s) => Token::LiteralString(s.clone()),
            Token::LiteralInt(n) => Token::LiteralInt(*n),
            Token::Identifier(s) => Token::Identifier(s.clone()),
        }
    }
}


/// A matcher over tokens: accept any token, exactly one token, or any token
/// of the same kind as a given one.
#[derive(Debug, Clone)]
pub enum TokenMatch {
    AnyToken,
    Exactly(Token),
    KindOf(Token),
}

impl Matcher<Token> for TokenMatch {
    open spec fn accepts(&self, v: Token) -> bool {
        match self {
            TokenMatch::AnyToken => true,
            TokenMatch::Exactly(t) => spec_token_eq(*t, v),
            TokenMatch::KindOf(t) => spec_same_kind(*t, v),
        }
    }

    fn matches(&self, v: &Token) -> (r: bool) {
        match self {
            TokenMatch::AnyToken => true,
            TokenMatch::Exactly(t) => t == v,
            TokenMatch::KindOf(t) => t.same_kind(v),
        }
    }

    open spec fn spec_describe(&self) -> Seq<char> {
        match self {
            TokenMatch::AnyToken => "_"@,
            TokenMatch::Exactly(t) => spec_kind_name(*t),
            TokenMatch::KindOf(t) => spec_kind_name(*t),
        }
    }

    fn describe(&self) -> (r: String) {
        match self {
            TokenMatch::AnyToken => "_".to_owned(),
            TokenMatch::Exactly(t) => t.kind_name().to_owned(),
            TokenMatch::KindOf(t) => t.kind_name().to_owned(),
        }
    }

    fn duplicate(&self) -> (m: Self) {
        match self {
            TokenMatch::AnyToken => TokenMatch::AnyToken,
            TokenMatch::Exactly(t) => TokenMatch::Exactly(t.copy_token()),
            TokenMatch::KindOf(t) => TokenMatch::KindOf(t.copy_token()),
        }
    }
}

/// The strategy for a single token: consume one token and hold it against
/// the configured matcher.
pub struct TokenParser<M: Matcher<Token>> {
    pub matcher: M,
}

impl Default for TokenParser<Pattern<Token>> {
    fn default() -> Self {
        TokenParser { matcher: Pattern::new() }
    }
}

impl<M: Matcher<Token>> TokenParser<M> {
    /// Replace the matcher wholesale; the strategy is otherwise unchanged.
    pub fn with_matcher<M2: Matcher<Token>>(self, matcher: M2) -> (p: TokenParser<M2>)
        ensures
            p.matcher == matcher,
    {
        TokenParser { matcher }
    }
}

impl Parsable<Token> for Token {
    type P = TokenParser<Pattern<Token>>;

    open spec fn spec_parse(tokens: Seq<Token>, pos: int, end: int, v: Token) -> bool {
        pos < tokens.len() && end == pos + 1 && v == tokens[pos]
    }

    open spec fn spec_fails(tokens: Seq<Token>, pos: int) -> bool {
        pos >= tokens.len()
    }

    open spec fn spec_error(tokens: Seq<Token>, pos: int, e: ParseError) -> bool {
        pos >= tokens.len() && crate::parse_error::spec_exhausted_error("Token"@, pos, e)
    }

    fn parser() -> (p: Self::P) {
        let p = TokenParser { matcher: Pattern::new() };
        proof {
            assert forall|tokens: Seq<Token>, pos: int, end: int, v: Token| #[trigger]
                p.spec_parse(tokens, pos, end, v) == <Token as Parsable<Token>>::spec_parse(
                tokens,
                pos,
                end,
                v,
            ) by {}
            assert forall|tokens: Seq<Token>, pos: int| #[trigger] p.spec_fails(tokens, pos)
                == <Token as Parsable<Token>>::spec_fails(tokens, pos) by {}
            assert forall|tokens: Seq<Token>, pos: int, e: ParseError| #[trigger] p.spec_error(
                tokens,
                pos,
                e,
            ) == <Token as Parsable<Token>>::spec_error(tokens, pos, e) by {}
        }
        p
    }
}

impl<M: Matcher<Token>> Parser<Token, Token> for TokenParser<M> {
    open spec fn spec_parse(&self, tokens: Seq<Token>, pos: int, end: int, v: Token) -> bool {
        pos < tokens.len() && end == pos + 1 && v == tokens[pos] && self.matcher.accepts(
            tokens[pos],
        )
    }

    open spec fn spec_fails(&self, tokens: Seq<Token>, pos: int) -> bool {
        pos >= tokens.len() || !self.matcher.accepts(tokens[pos])
    }

    open spec fn spec_error(&self, tokens: Seq<Token>, pos: int, e: ParseError) -> bool {
        ||| pos >= tokens.len() && crate::parse_error::spec_exhausted_error("Token"@, pos, e)
        ||| pos < tokens.len() && !self.matcher.accepts(tokens[pos])
            && crate::parse_error::spec_rejected_error(
            "Token"@,
            pos,
            self.matcher.spec_describe(),
            e,
        )
    }

    fn parse(&self, iter: &mut TokenIter<Token>) -> (r: Result<Token, ParseError>)
        ensures
            r is Err ==> old(iter).same_state(*final(iter)),
            r matches Err(e) ==> e.failed_at == old(iter).current && (if old(iter).current
                < old(iter).tokens@.len() {
                e.failure_type is ParsedButUnmatching
            } else {
                e.failure_type is NoMoreTokens
            }),
    {
        match iter.consume() {
            None => Err(ParseError::no_more_tokens::<Token>(iter.current)),
            Some(t) => {
                if self.matcher.matches(&t) {
                    Ok(t)
                } else {
                    iter.current = iter.current - 1;
                    let text = self.matcher.describe();
                    Err(
                        ParseError::parsed_but_unmatching::<Token, Token>(
                            iter.current,
                            &t,
                            text.as_str(),
                        ),
                    )
                }
            },
        }
    }
}

/// All characters of the sequence are decimal digits.
pub open spec fn all_digits(s: Seq<char>) -> bool {
    forall|i: int| 0 <= i < s.len() ==> '0' <= #[trigger] s[i] <= '9'
}

/// The digits of a decimal numeral: the whole text, or what follows one
/// optional leading plus sign.
pub open spec fn numeral_digits(s: Seq<char>) -> Seq<char> {
    if s.len() >= 1 && s.first() == '+' {
        s.drop_first()
    } else {
        s
    }
}

/// The number a sequence of decimal digits denotes.
pub open spec fn digits_val(s: Seq<char>) -> int
    decreases s.len(),
{
    if s.len() == 0 {
        0
    } else {
        digits_val(s.drop_last()) * 10 + (s.last() as u32 - 48)
    }
}

proof fn lemma_digits_val_nonneg(s: Seq<char>)
    requires
        all_digits(s),
    ensures
        digits_val(s) >= 0,
    decreases s.len(),
{
    if s.len() > 0 {
        assert(all_digits(s.drop_last()));
        lemma_digits_val_nonneg(s.drop_last());
    }
}

proof fn lemma_digits_val_step(s: Seq<char>, i: int)
    requires
        0 <= i < s.len(),
    ensures
        digits_val(s.take(i + 1)) == digits_val(s.take(i)) * 10 + (s[i] as u32 - 48),
{
    assert(s.take(i + 1).drop_last() =~= s.take(i));
    assert(s.take(i + 1).last() == s[i]);
}

proof fn lemma_digits_val_prefix_le(s: Seq<char>, i: int)
    requires
        all_digits(s),
        0 <= i <= s.len(),
    ensures
        digits_val(s.take(i)) <= digits_val(s),
    decreases s.len() - i,
{
    if i < s.len() {
        assert(all_digits(s.take(i)));
        lemma_digits_val_nonneg(s.take(i));
        lemma_digits_val_step(s, i);
        lemma_digits_val_prefix_le(s, i + 1);
    } else {
        assert(s.take(i) =~= s);
    }
}

/// Reads a number from a decimal numeral: digits, with one optional leading
/// plus sign.
pub fn parse_u32_numeral(s: &str) -> (v: u32)
    requires
        numeral_digits(s@).len() >= 1,
        all_digits(numeral_digits(s@)),
        digits_val(numeral_digits(s@)) <= u32::MAX,
    ensures
        v == digits_val(numeral_digits(s@)),
{
    let ghost d = numeral_digits(s@);
    let ghost off: int = s@.len() - d.len();
    proof {
        assert(vstd::utf8::is_ascii_chars(s@)) by {
            assert forall|j: int| 0 <= j < s@.len() implies '\0' <= #[trigger] s@[j]
                <= '\u{7f}' by {
                if s@.len() >= 1 && s@.first() == '+' {
                    if j >= 1 {
                        assert(s@[j] == d[j - 1]);
                    }
                } else {
                    assert(s@[j] == d[j]);
                }
            }
        }
        vstd::string::is_ascii_spec_bytes(s);
    }
    let bytes = s.as_bytes();
    let n = bytes.len();
    let mut i: usize = if bytes[0] == 43 {
        1
    } else {
        0
    };
    proof {
        assert(i as int == off);
    }
    let mut v: u32 = 0;
    while i < n
        invariant
            d == numeral_digits(s@),
            off == s@.len() - d.len(),
            0 <= off <= 1,
            forall|k: int| 0 <= k < d.len() ==> #[trigger] d[k] == s@[k + off],
            all_digits(d),
            digits_val(d) <= u32::MAX,
            n == s@.len(),
            bytes@.len() == n,
            forall|j: int| 0 <= j < n ==> bytes@[j] == (#[trigger] s@[j]) as u8,
            off <= i <= n,
            v == digits_val(d.take(i - off)),
        decreases n - i,
    {
        proof {
            assert(d[i - off] == s@[i as int]);
            lemma_digits_val_step(d, i - off);
            lemma_digits_val_prefix_le(d, i - off + 1);
            assert(all_digits(d.take(i - off)));
            lemma_digits_val_nonneg(d.take(i - off));
            assert('0' <= s@[i as int] <= '9');
            assert(48 <= s@[i as int] as u8 <= 57);
        }
        let g = bytes[i] - 48;
        v = v * 10 + g as u32;
        i = i + 1;
    }
    proof {
        assert(d.take(n - off) =~= d);
    }
    v
}

/// The UTF-8 encoding of a sequence ending in a one-byte character is the
/// encoding of the front followed by that character's single byte.
proof fn lemma_encode_utf8_snoc(chars: Seq<char>)
    requires
        chars.len() >= 1,
    ensures
        vstd::utf8::encode_utf8(chars) =~= vstd::utf8::encode_utf8(chars.drop_last())
            + vstd::utf8::encode_scalar(chars.last() as u32),
    decreases chars.len(),
{
    if chars.len() == 1 {
        assert(chars.drop_last() =~= Seq::<char>::empty());
        assert(chars.drop_first() =~= Seq::<char>::empty());
    } else {
        let tail = chars.drop_first();
        lemma_encode_utf8_snoc(tail);
        assert(tail.drop_last() =~= chars.drop_last().drop_first());
        assert(chars.drop_last()[0] == chars[0]);
        assert(chars.drop_last().len() >= 1);
        assert(tail.last() == chars.last());
    }
}

/// A double quote is one byte of UTF-8.
proof fn lemma_quote_byte()
    ensures
        vstd::utf8::encode_scalar('"' as u32) =~= seq![34u8],
        !vstd::utf8::is_continuation_byte(34u8),
{
    assert(34u32 & 0x7f == 34u32) by (bit_vector);
}

/// The characters strictly between the first and the last one, which must
/// both be double quotes.
fn strip_edges(input: &str) -> (r: String)
    requires
        input@.len() >= 2,
        input@.first() == '"',
        input@.last() == '"',
    ensures
        r@ == input@.subrange(1, input@.len() - 1),
{
    let ghost chars = input@;
    let ghost tail = chars.drop_first();
    let ghost tb = vstd::utf8::encode_utf8(tail);
    proof {
        vstd::utf8::encode_utf8_valid_utf8(chars);
        vstd::utf8::encode_utf8_valid_utf8(tail);
        lemma_quote_byte();
        assert(chars[0] == '"');
        assert(input.spec_bytes() =~= seq![34u8] + tb);
        assert(vstd::utf8::encode_scalar(tail[0] as u32).len() >= 1);
        assert(tb.len() >= 1);
        assert(vstd::utf8::is_char_boundary(tb, 0));
        vstd::utf8::is_char_boundary_iff_not_is_continuation_byte(tb, 0);
        assert(input.spec_bytes()[1] == tb[0]);
        vstd::utf8::is_char_boundary_iff_not_is_continuation_byte(input.spec_bytes(), 1);
    }
    let (_head, rest) = input.split_at(1);
    proof {
        assert(rest.spec_bytes() =~= tb);
        assert(vstd::utf8::encode_utf8(rest@) == tb);
        vstd::utf8::encode_utf8_decode_utf8(rest@);
        vstd::utf8::encode_utf8_decode_utf8(tail);
        assert(rest@ == tail);
        lemma_encode_utf8_snoc(tail);
        assert(tail.last() == chars.last());
        assert(tb =~= vstd::utf8::encode_utf8(tail.drop_last()) + seq![34u8]);
        assert(tb[tb.len() - 1] == 34u8);
        vstd::utf8::is_char_boundary_iff_not_is_continuation_byte(tb, tb.len() - 1);
        assert(vstd::utf8::is_char_boundary(tb, tb.len() - 1));
    }
    let rest_bytes = rest.as_bytes();
    let n = rest_bytes.len();
    proof {
        assert(n == tb.len());
    }
    let (mid, _last) = rest.split_at(n - 1);
    proof {
        assert(mid.spec_bytes() =~= vstd::utf8::encode_utf8(tail.drop_last()));
        assert(vstd::utf8::encode_utf8(mid@) == vstd::utf8::encode_utf8(tail.drop_last()));
        vstd::utf8::encode_utf8_decode_utf8(mid@);
        vstd::utf8::encode_utf8_decode_utf8(tail.drop_last());
        assert(mid@ == tail.drop_last());
        assert(mid@ =~= chars.subrange(1, chars.len() - 1));
    }
    mid.to_owned()
}

impl Token {
    /// Builds the token a piece of matched text denotes, using this token as
    /// the template for which variant to build: string literals lose their
    /// surrounding quotes, identifiers keep the text, integer literals are
    /// read as decimal numerals (one leading plus sign allowed), and every
    /// other template stands for itself. Returns the token with the byte
    /// length of the matched text.
    pub fn from_regex_result(&self, input: String) -> (r: (Token, usize))
        requires
            *self matches Token::LiteralString(_) ==> input@.len() >= 2 && input@.first() == '"'
                && input@.last() == '"',
            *self matches Token::LiteralInt(_) ==> numeral_digits(input@).len() >= 1
                && all_digits(numeral_digits(input@)) && digits_val(numeral_digits(input@))
                <= u32::MAX,
        ensures
            *self matches Token::LiteralString(_) ==> r.0 matches Token::LiteralString(s) && s@
                == input@.subrange(1, input@.len() - 1),
            *self matches Token::Identifier(_) ==> r.0 matches Token::Identifier(s) && s == input,
            *self matches Token::LiteralInt(_) ==> r.0 matches Token::LiteralInt(n) && n
                == digits_val(numeral_digits(input@)),
            !(*self matches Token::LiteralString(_)) && !(*self matches Token::Identifier(_)) && !(
            *self matches Token::LiteralInt(_)) ==> r.0 == *self,
            r.1 == vstd::utf8::encode_utf8(input@).len() as usize,
            vstd::string::string_is_ascii(&input) && input@.len() <= usize::MAX ==> r.1
                == input@.len(),
    {
        proof {
            if vstd::utf8::is_ascii_chars(input@) {
                vstd::utf8::is_ascii_chars_encode_utf8(input@);
            }
        }
        let len = input.as_str().len();
        let token = match self {
            Token::LiteralString(_) => Token::LiteralString(strip_edges(input.as_str())),
            Token::Identifier(_) => Token::Identifier(input.clone()),
            Token::LiteralInt(_) => Token::LiteralInt(parse_u32_numeral(input.as_str())),
            _ => self.copy_token(),
        };
        (token, len)
    }
}

} // verus!
