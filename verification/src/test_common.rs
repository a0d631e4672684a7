use vstd::prelude::*;

use crate::base_traits::{Matcher, Named, Parsable, Parser, Pattern};
use crate::box_impl::BoxValidator;
use crate::iter::TokenIter;
use crate::parse_error::{
    debug_text, spec_exhausted_error, spec_rejected_error, ParseError, ParseErrorType,
};
use crate::token::{Token, TokenMatch};
use crate::vec_impl::{spec_chain, VecValidator};

verus! {

use vstd::pervasive::unreached;

/// A small grammar node used to exercise the combinators: a variable
/// declaration of the shape `int <identifier> = <integer literal>`.
#[derive(PartialEq, Debug, Clone)]
pub struct TestStruct {
    pub var_type: Token,
    pub var_name: String,
    pub equals_sign: Token,
    pub value: u32,
}

/// The token shape a `TestStruct` is parsed from: the `int` keyword, an
/// identifier, the assignment sign and an integer literal, in that order.
pub open spec fn test_struct_shape(tokens: Seq<Token>, pos: int) -> bool {
    &&& pos + 4 <= tokens.len()
    &&& tokens[pos] is KInt
    &&& tokens[pos + 1] is Identifier
    &&& tokens[pos + 2] is Assign
    &&& tokens[pos + 3] is LiteralInt
}

/// What parsing a `TestStruct` at `pos` produces: the declaration's four
/// tokens, carried over into the struct's fields.
pub open spec fn test_struct_parse(tokens: Seq<Token>, pos: int, end: int, v: TestStruct) -> bool {
    &&& test_struct_shape(tokens, pos)
    &&& end == pos + 4
    &&& v.var_type == tokens[pos]
    &&& tokens[pos + 1] matches Token::Identifier(name) && v.var_name == name
    &&& v.equals_sign == tokens[pos + 2]
    &&& tokens[pos + 3] matches Token::LiteralInt(value) && v.value == value
}

/// The first of the four parts that does not fit at `pos`.
pub open spec fn test_struct_bad_index(tokens: Seq<Token>, pos: int) -> int {
    if pos >= tokens.len() || !(tokens[pos] is KInt) {
        0
    } else if pos + 1 >= tokens.len() || !(tokens[pos + 1] is Identifier) {
        1
    } else if pos + 2 >= tokens.len() || !(tokens[pos + 2] is Assign) {
        2
    } else {
        3
    }
}

/// The pattern text each of the four parts is held against.
pub open spec fn test_struct_step_pattern(i: int) -> Seq<char> {
    if i == 0 {
        "Token::KInt"@
    } else if i == 1 {
        "Token::Identifier(_)"@
    } else if i == 2 {
        "Token::Assign"@
    } else {
        "Token::LiteralInt(_)"@
    }
}

/// The error a failed `TestStruct` parse reports: the failing part's own
/// error — exhausted input, or a rejection naming the part's pattern, at the
/// position of the first part that does not fit — wrapped with the
/// enclosing construct.
pub open spec fn test_struct_error(tokens: Seq<Token>, pos: int, e: ParseError) -> bool {
    let i = test_struct_bad_index(tokens, pos);
    &&& e.type_label@ == "TestStruct"@
    &&& e.failure_type matches ParseErrorType::ConjunctBranchParsingFailure { err_source, .. }
        && e.failed_at == err_source.failed_at && (if pos + i >= tokens.len() {
        spec_exhausted_error("Token"@, pos + i, *err_source)
    } else {
        spec_rejected_error("Token"@, pos + i, test_struct_step_pattern(i), *err_source)
    })
}

impl Named for TestStruct {
    open spec fn spec_name() -> Seq<char> {
        "TestStruct"@
    }

    fn construct_name() -> (s: &'static str) {
        "TestStruct"
    }
}

impl Parsable<Token> for TestStruct {
    type P = TestStructParser;

    open spec fn spec_parse(tokens: Seq<Token>, pos: int, end: int, v: TestStruct) -> bool {
        test_struct_parse(tokens, pos, end, v)
    }

    open spec fn spec_fails(tokens: Seq<Token>, pos: int) -> bool {
        !test_struct_shape(tokens, pos)
    }

    open spec fn spec_error(tokens: Seq<Token>, pos: int, e: ParseError) -> bool {
        test_struct_error(tokens, pos, e)
    }

    fn parser() -> (p: Self::P) {
        TestStructParser {  }
    }
}

/// The strategy for `TestStruct`: four token parses in strict order, as one
/// scoped attempt; on any failure the whole attempt is rewound.
#[derive(Default)]
pub struct TestStructParser {}

impl TestStructParser {
    /// The four parts, in order; the caller provides the scope.
    fn parse_parts(&self, iter: &mut TokenIter<Token>) -> (r: Result<TestStruct, ParseError>)
        requires
            old(iter).wf(),
        ensures
            final(iter).wf(),
            final(iter).tokens@ == old(iter).tokens@,
            final(iter).stack@ == old(iter).stack@,
            old(iter).current <= final(iter).current,
            r matches Ok(v) ==> test_struct_parse(
                old(iter).tokens@,
                old(iter).current as int,
                final(iter).current as int,
                v,
            ),
            r is Err ==> !test_struct_shape(old(iter).tokens@, old(iter).current as int),
            r matches Err(e) ==> test_struct_error(
                old(iter).tokens@,
                old(iter).current as int,
                e,
            ) && e.wf(),
    {
        let var_type = match Token::parser().with_matcher(TokenMatch::KindOf(Token::KInt)).parse(
            iter,
        ) {
            Ok(t) => t,
            Err(e) => {
                return Err(ParseError::from_conjunct_error::<TestStruct>(e, Vec::new()));
            },
        };
        let var_name = match Token::parser().with_matcher(
            TokenMatch::KindOf(Token::Identifier(String::new())),
        ).parse(iter) {
            Ok(t) => match t {
                Token::Identifier(ident_str) => ident_str,
                _ => unreached(),
            },
            Err(e) => {
                let mut successes: Vec<String> = Vec::new();
                successes.push(debug_text(&var_type));
                return Err(ParseError::from_conjunct_error::<TestStruct>(e, successes));
            },
        };
        let equals_sign = match Token::parser().with_matcher(
            TokenMatch::KindOf(Token::Assign),
        ).parse(iter) {
            Ok(t) => t,
            Err(e) => {
                let mut successes: Vec<String> = Vec::new();
                successes.push(debug_text(&var_type));
                successes.push(debug_text(&var_name));
                return Err(ParseError::from_conjunct_error::<TestStruct>(e, successes));
            },
        };
        let value = match Token::parser().with_matcher(
            TokenMatch::KindOf(Token::LiteralInt(0)),
        ).parse(iter) {
            Ok(t) => match t {
                Token::LiteralInt(n) => n,
                _ => unreached(),
            },
            Err(e) => {
                let mut successes: Vec<String> = Vec::new();
                successes.push(debug_text(&var_type));
                successes.push(debug_text(&var_name));
                successes.push(debug_text(&equals_sign));
                return Err(ParseError::from_conjunct_error::<TestStruct>(e, successes));
            },
        };
        Ok(TestStruct { var_type, var_name, equals_sign, value })
    }
}

impl Parser<Token, TestStruct> for TestStructParser {
    open spec fn spec_parse(&self, tokens: Seq<Token>, pos: int, end: int, v: TestStruct) -> bool {
        test_struct_parse(tokens, pos, end, v)
    }

    open spec fn spec_fails(&self, tokens: Seq<Token>, pos: int) -> bool {
        !test_struct_shape(tokens, pos)
    }

    open spec fn spec_error(&self, tokens: Seq<Token>, pos: int, e: ParseError) -> bool {
        test_struct_error(tokens, pos, e)
    }

    fn parse(&self, iter: &mut TokenIter<Token>) -> (r: Result<TestStruct, ParseError>)
        ensures
            r is Err ==> old(iter).same_state(*final(iter)),
    {
        iter.stack.push(iter.current);
        let result = self.parse_parts(iter);
        if result.is_ok() {
            let _ = iter.stack.pop();
        } else {
            let c = iter.stack.pop();
            if let Some(c) = c {
                iter.current = c;
            }
        }
        proof {
            assert(final(iter).stack@ =~= old(iter).stack@);
        }
        result
    }
}


/// What parsing a `VecStruct` at `pos` produces: an integer-literal token
/// followed by every consecutive token the matcher accepts.
pub open spec fn vec_struct_parse<M: Matcher<Token>>(
    m: M,
    tokens: Seq<Token>,
    pos: int,
    end: int,
    v: VecStruct,
) -> bool {
    &&& pos < tokens.len()
    &&& tokens[pos] is LiteralInt
    &&& v.fn_name == tokens[pos]
    &&& spec_chain(m, tokens, pos + 1, end, v.idents@)
}

/// A grammar node exercising repetition: an integer literal naming the node,
/// then any run of accepted tokens.
#[derive(PartialEq, Debug, Clone)]
pub struct VecStruct {
    pub fn_name: Token,
    pub idents: Vec<Token>,
}

impl Named for VecStruct {
    open spec fn spec_name() -> Seq<char> {
        "VecStruct"@
    }

    fn construct_name() -> (s: &'static str) {
        "VecStruct"
    }
}

impl Parsable<Token> for VecStruct {
    type P = VecStructParser<Pattern<Token>>;

    open spec fn spec_parse(tokens: Seq<Token>, pos: int, end: int, v: VecStruct) -> bool {
        vec_struct_parse(
            Pattern::<Token> { marker: core::marker::PhantomData },
            tokens,
            pos,
            end,
            v,
        )
    }

    open spec fn spec_fails(tokens: Seq<Token>, pos: int) -> bool {
        pos >= tokens.len() || !(tokens[pos] is LiteralInt)
    }

    open spec fn spec_error(tokens: Seq<Token>, pos: int, e: ParseError) -> bool {
        vec_struct_error(tokens, pos, e)
    }

    fn parser() -> (p: Self::P) {
        VecStructParser { m: Pattern::new() }
    }
}

/// The error a failed `VecStruct` parse reports: its leading integer-literal
/// token was missing or of the wrong kind; the repetition itself never
/// fails.
pub open spec fn vec_struct_error(tokens: Seq<Token>, pos: int, e: ParseError) -> bool {
    ||| pos >= tokens.len() && spec_exhausted_error("Token"@, pos, e)
    ||| pos < tokens.len() && !(tokens[pos] is LiteralInt) && spec_rejected_error(
        "Token"@,
        pos,
        "Token::LiteralInt(_)"@,
        e,
    )
}

/// The strategy for `VecStruct`: one integer-literal token, then a greedy,
/// matcher-filtered repetition of tokens.
pub struct VecStructParser<M: Matcher<Token>> {
    pub m: M,
}

impl Default for VecStructParser<Pattern<Token>> {
    fn default() -> Self {
        VecStructParser { m: Pattern::new() }
    }
}

impl<M: Matcher<Token>> VecStructParser<M> {
    /// Replace the matcher wholesale; the strategy is otherwise unchanged.
    pub fn with_matcher<M2: Matcher<Token>>(self, m: M2) -> (r: VecStructParser<M2>)
        ensures
            r.m == m,
    {
        VecStructParser { m }
    }
}

impl<M: Matcher<Token>> Parser<Token, VecStruct> for VecStructParser<M> {
    open spec fn spec_parse(&self, tokens: Seq<Token>, pos: int, end: int, v: VecStruct) -> bool {
        vec_struct_parse(self.m, tokens, pos, end, v)
    }

    open spec fn spec_fails(&self, tokens: Seq<Token>, pos: int) -> bool {
        pos >= tokens.len() || !(tokens[pos] is LiteralInt)
    }

    open spec fn spec_error(&self, tokens: Seq<Token>, pos: int, e: ParseError) -> bool {
        vec_struct_error(tokens, pos, e)
    }

    fn parse(&self, iter: &mut TokenIter<Token>) -> (r: Result<VecStruct, ParseError>) {
        let fn_name = match Token::parser().with_matcher(
            TokenMatch::KindOf(Token::LiteralInt(0)),
        ).parse(iter) {
            Ok(t) => t,
            Err(e) => {
                return Err(e);
            },
        };
        let rep = VecValidator { matcher: self.m.duplicate(), marker: core::marker::PhantomData };
        let idents = match rep.parse(iter) {
            Ok(v) => v,
            Err(e) => {
                return Err(e);
            },
        };
        Ok(VecStruct { fn_name, idents })
    }
}

/// What parsing a `BoxStruct` at `pos` produces: one accepted token, boxed.
pub open spec fn box_struct_parse<M: Matcher<Token>>(
    m: M,
    tokens: Seq<Token>,
    pos: int,
    end: int,
    v: BoxStruct,
) -> bool {
    &&& pos < tokens.len()
    &&& end == pos + 1
    &&& *v.ident == tokens[pos]
    &&& m.accepts(tokens[pos])
}

/// A grammar node exercising indirection: one token behind a box.
#[derive(PartialEq, Debug, Clone)]
pub struct BoxStruct {
    pub ident: Box<Token>,
}

impl Named for BoxStruct {
    open spec fn spec_name() -> Seq<char> {
        "BoxStruct"@
    }

    fn construct_name() -> (s: &'static str) {
        "BoxStruct"
    }
}

impl Parsable<Token> for BoxStruct {
    type P = BoxStructParser<Pattern<Token>>;

    open spec fn spec_parse(tokens: Seq<Token>, pos: int, end: int, v: BoxStruct) -> bool {
        box_struct_parse(
            Pattern::<Token> { marker: core::marker::PhantomData },
            tokens,
            pos,
            end,
            v,
        )
    }

    open spec fn spec_fails(tokens: Seq<Token>, pos: int) -> bool {
        pos >= tokens.len()
    }

    open spec fn spec_error(tokens: Seq<Token>, pos: int, e: ParseError) -> bool {
        pos >= tokens.len() && spec_exhausted_error("Token"@, pos, e)
    }

    fn parser() -> (p: Self::P) {
        BoxStructParser { m: Pattern::new() }
    }
}

/// The strategy for `BoxStruct`: parse one accepted token behind a box.
pub struct BoxStructParser<M: Matcher<Token>> {
    pub m: M,
}

impl Default for BoxStructParser<Pattern<Token>> {
    fn default() -> Self {
        BoxStructParser { m: Pattern::new() }
    }
}

impl<M: Matcher<Token>> BoxStructParser<M> {
    /// Replace the matcher wholesale; the strategy is otherwise unchanged.
    pub fn with_matcher<M2: Matcher<Token>>(self, m: M2) -> (r: BoxStructParser<M2>)
        ensures
            r.m == m,
    {
        BoxStructParser { m }
    }
}

impl<M: Matcher<Token>> Parser<Token, BoxStruct> for BoxStructParser<M> {
    open spec fn spec_parse(&self, tokens: Seq<Token>, pos: int, end: int, v: BoxStruct) -> bool {
        box_struct_parse(self.m, tokens, pos, end, v)
    }

    open spec fn spec_fails(&self, tokens: Seq<Token>, pos: int) -> bool {
        pos >= tokens.len() || !self.m.accepts(tokens[pos])
    }

    open spec fn spec_error(&self, tokens: Seq<Token>, pos: int, e: ParseError) -> bool {
        ||| pos >= tokens.len() && spec_exhausted_error("Token"@, pos, e)
        ||| pos < tokens.len() && !self.m.accepts(tokens[pos]) && spec_rejected_error(
            "Token"@,
            pos + 1,
            self.m.spec_describe(),
            e,
        )
    }

    fn parse(&self, iter: &mut TokenIter<Token>) -> (r: Result<BoxStruct, ParseError>)
        ensures
            r is Err ==> old(iter).same_state(*final(iter)),
    {
        let inner = BoxValidator { m: self.m.duplicate(), marker: core::marker::PhantomData };
        let ident = match iter.parse_with_validator(&inner) {
            Ok(b) => b,
            Err(e) => {
                return Err(e);
            },
        };
        Ok(BoxStruct { ident })
    }
}

} // verus!
