use vstd::prelude::*;

use crate::base_traits::{ConsumableToken, Matcher, Named, Parsable, Parser, Pattern};
use crate::iter::TokenIter;
use crate::parse_error::{debug_text, spec_rejected_error, ParseError, ParseErrorType};

verus! {

use vstd::string::StringExecFns;

/// The rendering of two matchers side by side, as text.
pub open spec fn spec_pair_text<P1, P2, M1: Matcher<P1>, M2: Matcher<P2>>(
    first: M1,
    second: M2,
) -> Seq<char> {
    "("@ + first.spec_describe() + ", "@ + second.spec_describe() + ")"@
}

/// The rendering of three matchers side by side, as text.
pub open spec fn spec_triple_text<P1, P2, P3, M1: Matcher<P1>, M2: Matcher<P2>, M3: Matcher<P3>>(
    first: M1,
    second: M2,
    third: M3,
) -> Seq<char> {
    "("@ + first.spec_describe() + ", "@ + second.spec_describe() + ", "@ + third.spec_describe()
        + ")"@
}

/// The rendering of four matchers side by side, as text.
pub open spec fn spec_quad_text<
    P1,
    P2,
    P3,
    P4,
    M1: Matcher<P1>,
    M2: Matcher<P2>,
    M3: Matcher<P3>,
    M4: Matcher<P4>,
>(first: M1, second: M2, third: M3, fourth: M4) -> Seq<char> {
    "("@ + first.spec_describe() + ", "@ + second.spec_describe() + ", "@ + third.spec_describe()
        + ", "@ + fourth.spec_describe() + ")"@
}

/// A matcher over pairs: each half holds against its own matcher.
pub struct PairMatcher<P1, P2, M1: Matcher<P1>, M2: Matcher<P2>> {
    pub first: M1,
    pub second: M2,
    pub marker: core::marker::PhantomData<(P1, P2)>,
}

impl<P1, P2, M1: Matcher<P1>, M2: Matcher<P2>> PairMatcher<P1, P2, M1, M2> {
    pub fn new(first: M1, second: M2) -> (r: Self)
        ensures
            r.first == first,
            r.second == second,
    {
        PairMatcher { first, second, marker: core::marker::PhantomData }
    }
}

impl<P1, P2, M1: Matcher<P1>, M2: Matcher<P2>> Matcher<(P1, P2)> for PairMatcher<
    P1,
    P2,
    M1,
    M2,
> {
    open spec fn accepts(&self, v: (P1, P2)) -> bool {
        self.first.accepts(v.0) && self.second.accepts(v.1)
    }

    fn matches(&self, v: &(P1, P2)) -> (r: bool) {
        let (a, b) = v;
        let ra = self.first.matches(a);
        let rb = self.second.matches(b);
        ra && rb
    }

    open spec fn spec_describe(&self) -> Seq<char> {
        spec_pair_text(self.first, self.second)
    }

    fn describe(&self) -> (r: String) {
        let mut text = "(".to_owned();
        let a = self.first.describe();
        let b = self.second.describe();
        text.append(a.as_str());
        text.append(", ");
        text.append(b.as_str());
        text.append(")");
        text
    }

    fn duplicate(&self) -> (m: Self) {
        PairMatcher {
            first: self.first.duplicate(),
            second: self.second.duplicate(),
            marker: core::marker::PhantomData,
        }
    }
}

/// The strategy for a pair: parse the first part, then the second, in strict
/// order, then hold each part against its own matcher. On any part's failure
/// or any rejection the whole attempt fails and is fully rewound; no partial
/// pair is ever returned.
pub struct Tuple2Validator<P1, P2, M1: Matcher<P1>, M2: Matcher<P2>> {
    pub first: M1,
    pub second: M2,
    pub marker: core::marker::PhantomData<(P1, P2)>,
}

impl<P1, P2> Default for Tuple2Validator<P1, P2, Pattern<P1>, Pattern<P2>> {
    fn default() -> Self {
        Tuple2Validator {
            first: Pattern::new(),
            second: Pattern::new(),
            marker: core::marker::PhantomData,
        }
    }
}

impl<P1, P2, M1: Matcher<P1>, M2: Matcher<P2>> Tuple2Validator<P1, P2, M1, M2> {
    /// Replace both matchers wholesale; the strategy is otherwise unchanged.
    pub fn with_matchers<N1: Matcher<P1>, N2: Matcher<P2>>(self, p0: N1, p1: N2) -> (r:
        Tuple2Validator<P1, P2, N1, N2>)
        ensures
            r.first == p0,
            r.second == p1,
    {
        Tuple2Validator { first: p0, second: p1, marker: core::marker::PhantomData }
    }
}

impl<A, B> Named for (A, B) {
    open spec fn spec_name() -> Seq<char> {
        "(_, _)"@
    }

    fn construct_name() -> (s: &'static str) {
        "(_, _)"
    }
}

impl<T: ConsumableToken, P1: Parsable<T>, P2: Parsable<T>> Parsable<T> for (P1, P2) {
    type P = Tuple2Validator<P1, P2, Pattern<P1>, Pattern<P2>>;

    open spec fn spec_parse(tokens: Seq<T>, pos: int, end: int, v: (P1, P2)) -> bool {
        exists|mid: int|
            #[trigger] P1::spec_parse(tokens, pos, mid, v.0) && P2::spec_parse(
                tokens,
                mid,
                end,
                v.1,
            )
    }

    open spec fn spec_fails(tokens: Seq<T>, pos: int) -> bool {
        P1::spec_fails(tokens, pos) || exists|v1: P1, mid: int|
            #[trigger] P1::spec_parse(tokens, pos, mid, v1) && P2::spec_fails(tokens, mid)
    }

    open spec fn spec_error(tokens: Seq<T>, pos: int, e: ParseError) -> bool {
        e.failure_type matches ParseErrorType::ConjunctBranchParsingFailure { err_source, .. }
            && e.type_label@ == "(_, _)"@ && e.failed_at == err_source.failed_at && (
        P1::spec_error(tokens, pos, *err_source) || exists|v1: P1, mid: int|
            #[trigger] P1::spec_parse(tokens, pos, mid, v1) && P2::spec_error(
                tokens,
                mid,
                *err_source,
            ))
    }

    fn parser() -> (p: Self::P) {
        Tuple2Validator {
            first: Pattern::new(),
            second: Pattern::new(),
            marker: core::marker::PhantomData,
        }
    }
}

impl<T: ConsumableToken, P1: Parsable<T>, P2: Parsable<T>, M1: Matcher<P1>, M2: Matcher<P2>> Parser<
    T,
    (P1, P2),
> for Tuple2Validator<P1, P2, M1, M2> {
    open spec fn spec_parse(&self, tokens: Seq<T>, pos: int, end: int, v: (P1, P2)) -> bool {
        (exists|mid: int|
            #[trigger] P1::spec_parse(tokens, pos, mid, v.0) && P2::spec_parse(
                tokens,
                mid,
                end,
                v.1,
            )) && self.first.accepts(v.0) && self.second.accepts(v.1)
    }

    open spec fn spec_fails(&self, tokens: Seq<T>, pos: int) -> bool {
        P1::spec_fails(tokens, pos) || exists|v1: P1, mid: int|
            #[trigger] P1::spec_parse(tokens, pos, mid, v1) && (P2::spec_fails(tokens, mid)
                || exists|v2: P2, e2: int|
                #[trigger] P2::spec_parse(tokens, mid, e2, v2) && !(self.first.accepts(v1)
                    && self.second.accepts(v2)))
    }

    open spec fn spec_error(&self, tokens: Seq<T>, pos: int, e: ParseError) -> bool {
        ||| e.failure_type matches ParseErrorType::ConjunctBranchParsingFailure {
            err_source,
            ..
        } && e.type_label@ == "(_, _)"@ && e.failed_at == err_source.failed_at && (
        P1::spec_error(tokens, pos, *err_source) || exists|v1: P1, mid: int|
            #[trigger] P1::spec_parse(tokens, pos, mid, v1) && P2::spec_error(
                tokens,
                mid,
                *err_source,
            ))
        ||| exists|v1: P1, mid: int, v2: P2, e2: int|
            #[trigger] P1::spec_parse(tokens, pos, mid, v1) && #[trigger] P2::spec_parse(
                tokens,
                mid,
                e2,
                v2,
            ) && !(self.first.accepts(v1) && self.second.accepts(v2)) && spec_rejected_error(
                "(_, _)"@,
                e2,
                spec_pair_text(self.first, self.second),
                e,
            )
    }

    fn parse(&self, iter: &mut TokenIter<T>) -> (r: Result<(P1, P2), ParseError>)
        ensures
            r is Err ==> old(iter).same_state(*final(iter)),
    {
        let before = iter.current;
        let p1 = match iter.parse::<P1>() {
            Ok(v) => v,
            Err(e) => {
                return Err(ParseError::from_conjunct_error::<(P1, P2)>(e, Vec::new()));
            },
        };
        let ghost mid = iter.current as int;
        let p2 = match iter.parse::<P2>() {
            Ok(v) => v,
            Err(e) => {
                let mut successes: Vec<String> = Vec::new();
                successes.push(debug_text(&p1));
                iter.current = before;
                return Err(ParseError::from_conjunct_error::<(P1, P2)>(e, successes));
            },
        };
        let ghost e2 = iter.current as int;
        let ok1 = self.first.matches(&p1);
        let ok2 = self.second.matches(&p2);
        if ok1 && ok2 {
            proof {
                let toks = old(iter).tokens@;
                let pos = old(iter).current as int;
                assert(P1::spec_parse(toks, pos, mid, (p1, p2).0));
                assert(P2::spec_parse(toks, mid, e2, (p1, p2).1));
            }
            Ok((p1, p2))
        } else {
            let text = self.describe_pair();
            let e = ParseError::parsed_but_unmatching::<T, (P1, P2)>(
                iter.current,
                &(p1, p2),
                text.as_str(),
            );
            iter.current = before;
            Err(e)
        }
    }
}

impl<P1, P2, M1: Matcher<P1>, M2: Matcher<P2>> Tuple2Validator<P1, P2, M1, M2> {
    /// The rendering of the two matchers, for error messages.
    fn describe_pair(&self) -> (r: String)
        ensures
            r@ == spec_pair_text(self.first, self.second),
    {
        let mut text = "(".to_owned();
        let a = self.first.describe();
        let b = self.second.describe();
        text.append(a.as_str());
        text.append(", ");
        text.append(b.as_str());
        text.append(")");
        text
    }
}


/// The strategy for a triple: parse the three parts in strict order, then
/// hold each part against its own matcher; any failure or rejection fails
/// the whole attempt and is fully rewound; no partial triple is ever
/// returned.
pub struct Tuple3Validator<P1, P2, P3, M1: Matcher<P1>, M2: Matcher<P2>, M3: Matcher<P3>> {
    pub first: M1,
    pub second: M2,
    pub third: M3,
    pub marker: core::marker::PhantomData<(P1, P2, P3)>,
}

impl<P1, P2, P3> Default for Tuple3Validator<P1, P2, P3, Pattern<P1>, Pattern<P2>, Pattern<P3>> {
    fn default() -> Self {
        Tuple3Validator {
            first: Pattern::new(),
            second: Pattern::new(),
            third: Pattern::new(),
            marker: core::marker::PhantomData,
        }
    }
}

impl<A, B, C> Named for (A, B, C) {
    open spec fn spec_name() -> Seq<char> {
        "(_, _, _)"@
    }

    fn construct_name() -> (s: &'static str) {
        "(_, _, _)"
    }
}

impl<T: ConsumableToken, P1: Parsable<T>, P2: Parsable<T>, P3: Parsable<T>> Parsable<T> for (
    P1,
    P2,
    P3,
) {
    type P = Tuple3Validator<P1, P2, P3, Pattern<P1>, Pattern<P2>, Pattern<P3>>;

    open spec fn spec_parse(tokens: Seq<T>, pos: int, end: int, v: (P1, P2, P3)) -> bool {
        exists|m1: int, m2: int|
            #[trigger] P1::spec_parse(tokens, pos, m1, v.0) && #[trigger] P2::spec_parse(
                tokens,
                m1,
                m2,
                v.1,
            ) && P3::spec_parse(tokens, m2, end, v.2)
    }

    open spec fn spec_fails(tokens: Seq<T>, pos: int) -> bool {
        P1::spec_fails(tokens, pos) || exists|v1: P1, m1: int|
            #[trigger] P1::spec_parse(tokens, pos, m1, v1) && (P2::spec_fails(tokens, m1)
                || exists|v2: P2, m2: int|
                #[trigger] P2::spec_parse(tokens, m1, m2, v2) && P3::spec_fails(tokens, m2))
    }

    open spec fn spec_error(tokens: Seq<T>, pos: int, e: ParseError) -> bool {
        e.failure_type matches ParseErrorType::ConjunctBranchParsingFailure { err_source, .. }
            && e.type_label@ == "(_, _, _)"@ && e.failed_at == err_source.failed_at && (
        P1::spec_error(tokens, pos, *err_source) || exists|v1: P1, m1: int|
            #[trigger] P1::spec_parse(tokens, pos, m1, v1) && (P2::spec_error(
                tokens,
                m1,
                *err_source,
            ) || exists|v2: P2, m2: int|
                #[trigger] P2::spec_parse(tokens, m1, m2, v2) && P3::spec_error(
                    tokens,
                    m2,
                    *err_source,
                )))
    }

    fn parser() -> (p: Self::P) {
        Tuple3Validator {
            first: Pattern::new(),
            second: Pattern::new(),
            third: Pattern::new(),
            marker: core::marker::PhantomData,
        }
    }
}

impl<
    T: ConsumableToken,
    P1: Parsable<T>,
    P2: Parsable<T>,
    P3: Parsable<T>,
    M1: Matcher<P1>,
    M2: Matcher<P2>,
    M3: Matcher<P3>,
> Parser<T, (P1, P2, P3)> for Tuple3Validator<P1, P2, P3, M1, M2, M3> {
    open spec fn spec_parse(&self, tokens: Seq<T>, pos: int, end: int, v: (P1, P2, P3)) -> bool {
        (exists|m1: int, m2: int|
            #[trigger] P1::spec_parse(tokens, pos, m1, v.0) && #[trigger] P2::spec_parse(
                tokens,
                m1,
                m2,
                v.1,
            ) && P3::spec_parse(tokens, m2, end, v.2)) && self.first.accepts(v.0)
            && self.second.accepts(v.1) && self.third.accepts(v.2)
    }

    open spec fn spec_fails(&self, tokens: Seq<T>, pos: int) -> bool {
        P1::spec_fails(tokens, pos) || exists|v1: P1, m1: int|
            #[trigger] P1::spec_parse(tokens, pos, m1, v1) && (P2::spec_fails(tokens, m1)
                || exists|v2: P2, m2: int|
                #[trigger] P2::spec_parse(tokens, m1, m2, v2) && (P3::spec_fails(tokens, m2)
                    || exists|v3: P3, e3: int|
                    #[trigger] P3::spec_parse(tokens, m2, e3, v3) && !(self.first.accepts(v1)
                        && self.second.accepts(v2) && self.third.accepts(v3))))
    }

    open spec fn spec_error(&self, tokens: Seq<T>, pos: int, e: ParseError) -> bool {
        ||| e.failure_type matches ParseErrorType::ConjunctBranchParsingFailure {
            err_source,
            ..
        } && e.type_label@ == "(_, _, _)"@ && e.failed_at == err_source.failed_at && (
        P1::spec_error(tokens, pos, *err_source) || exists|v1: P1, m1: int|
            #[trigger] P1::spec_parse(tokens, pos, m1, v1) && (P2::spec_error(
                tokens,
                m1,
                *err_source,
            ) || exists|v2: P2, m2: int|
                #[trigger] P2::spec_parse(tokens, m1, m2, v2) && P3::spec_error(
                    tokens,
                    m2,
                    *err_source,
                )))
        ||| exists|v1: P1, m1: int, v2: P2, m2: int, v3: P3, e3: int|
            #[trigger] P1::spec_parse(tokens, pos, m1, v1) && #[trigger] P2::spec_parse(
                tokens,
                m1,
                m2,
                v2,
            ) && #[trigger] P3::spec_parse(tokens, m2, e3, v3) && !(self.first.accepts(v1)
                && self.second.accepts(v2) && self.third.accepts(v3)) && spec_rejected_error(
                "(_, _, _)"@,
                e3,
                spec_triple_text(self.first, self.second, self.third),
                e,
            )
    }

    fn parse(&self, iter: &mut TokenIter<T>) -> (r: Result<(P1, P2, P3), ParseError>)
        ensures
            r is Err ==> old(iter).same_state(*final(iter)),
    {
        let before = iter.current;
        let p1 = match iter.parse::<P1>() {
            Ok(v) => v,
            Err(e) => {
                return Err(ParseError::from_conjunct_error::<(P1, P2, P3)>(e, Vec::new()));
            },
        };
        let ghost m1 = iter.current as int;
        let p2 = match iter.parse::<P2>() {
            Ok(v) => v,
            Err(e) => {
                let mut successes: Vec<String> = Vec::new();
                successes.push(debug_text(&p1));
                iter.current = before;
                return Err(ParseError::from_conjunct_error::<(P1, P2, P3)>(e, successes));
            },
        };
        let ghost m2 = iter.current as int;
        let p3 = match iter.parse::<P3>() {
            Ok(v) => v,
            Err(e) => {
                let mut successes: Vec<String> = Vec::new();
                successes.push(debug_text(&p1));
                successes.push(debug_text(&p2));
                iter.current = before;
                return Err(ParseError::from_conjunct_error::<(P1, P2, P3)>(e, successes));
            },
        };
        let ghost e3 = iter.current as int;
        let ok1 = self.first.matches(&p1);
        let ok2 = self.second.matches(&p2);
        let ok3 = self.third.matches(&p3);
        if ok1 && ok2 && ok3 {
            proof {
                let toks = old(iter).tokens@;
                let pos = old(iter).current as int;
                assert(P1::spec_parse(toks, pos, m1, (p1, p2, p3).0));
                assert(P2::spec_parse(toks, m1, m2, (p1, p2, p3).1));
                assert(P3::spec_parse(toks, m2, e3, (p1, p2, p3).2));
            }
            Ok((p1, p2, p3))
        } else {
            let text = self.describe_triple();
            let e = ParseError::parsed_but_unmatching::<T, (P1, P2, P3)>(
                iter.current,
                &(p1, p2, p3),
                text.as_str(),
            );
            iter.current = before;
            Err(e)
        }
    }
}

/// The strategy for a quadruple: parse the four parts in strict order, then
/// hold each part against its own matcher; any failure or rejection fails
/// the whole attempt and is fully rewound; no partial quadruple is ever
/// returned.
pub struct Tuple4Validator<
    P1,
    P2,
    P3,
    P4,
    M1: Matcher<P1>,
    M2: Matcher<P2>,
    M3: Matcher<P3>,
    M4: Matcher<P4>,
> {
    pub first: M1,
    pub second: M2,
    pub third: M3,
    pub fourth: M4,
    pub marker: core::marker::PhantomData<(P1, P2, P3, P4)>,
}

impl<P1, P2, P3, P4> Default for Tuple4Validator<
    P1,
    P2,
    P3,
    P4,
    Pattern<P1>,
    Pattern<P2>,
    Pattern<P3>,
    Pattern<P4>,
> {
    fn default() -> Self {
        Tuple4Validator {
            first: Pattern::new(),
            second: Pattern::new(),
            third: Pattern::new(),
            fourth: Pattern::new(),
            marker: core::marker::PhantomData,
        }
    }
}

impl<A, B, C, D> Named for (A, B, C, D) {
    open spec fn spec_name() -> Seq<char> {
        "(_, _, _, _)"@
    }

    fn construct_name() -> (s: &'static str) {
        "(_, _, _, _)"
    }
}

impl<
    T: ConsumableToken,
    P1: Parsable<T>,
    P2: Parsable<T>,
    P3: Parsable<T>,
    P4: Parsable<T>,
> Parsable<T> for (P1, P2, P3, P4) {
    type P = Tuple4Validator<P1, P2, P3, P4, Pattern<P1>, Pattern<P2>, Pattern<P3>, Pattern<P4>>;

    open spec fn spec_parse(tokens: Seq<T>, pos: int, end: int, v: (P1, P2, P3, P4)) -> bool {
        exists|m1: int, m2: int, m3: int|
            #[trigger] P1::spec_parse(tokens, pos, m1, v.0) && #[trigger] P2::spec_parse(
                tokens,
                m1,
                m2,
                v.1,
            ) && #[trigger] P3::spec_parse(tokens, m2, m3, v.2) && P4::spec_parse(
                tokens,
                m3,
                end,
                v.3,
            )
    }

    open spec fn spec_fails(tokens: Seq<T>, pos: int) -> bool {
        P1::spec_fails(tokens, pos) || exists|v1: P1, m1: int|
            #[trigger] P1::spec_parse(tokens, pos, m1, v1) && (P2::spec_fails(tokens, m1)
                || exists|v2: P2, m2: int|
                #[trigger] P2::spec_parse(tokens, m1, m2, v2) && (P3::spec_fails(tokens, m2)
                    || exists|v3: P3, m3: int|
                    #[trigger] P3::spec_parse(tokens, m2, m3, v3) && P4::spec_fails(tokens, m3)))
    }

    open spec fn spec_error(tokens: Seq<T>, pos: int, e: ParseError) -> bool {
        e.failure_type matches ParseErrorType::ConjunctBranchParsingFailure { err_source, .. }
            && e.type_label@ == "(_, _, _, _)"@ && e.failed_at == err_source.failed_at && (
        P1::spec_error(tokens, pos, *err_source) || exists|v1: P1, m1: int|
            #[trigger] P1::spec_parse(tokens, pos, m1, v1) && (P2::spec_error(
                tokens,
                m1,
                *err_source,
            ) || exists|v2: P2, m2: int|
                #[trigger] P2::spec_parse(tokens, m1, m2, v2) && (P3::spec_error(
                    tokens,
                    m2,
                    *err_source,
                ) || exists|v3: P3, m3: int|
                    #[trigger] P3::spec_parse(tokens, m2, m3, v3) && P4::spec_error(
                        tokens,
                        m3,
                        *err_source,
                    ))))
    }

    fn parser() -> (p: Self::P) {
        Tuple4Validator {
            first: Pattern::new(),
            second: Pattern::new(),
            third: Pattern::new(),
            fourth: Pattern::new(),
            marker: core::marker::PhantomData,
        }
    }
}

impl<
    T: ConsumableToken,
    P1: Parsable<T>,
    P2: Parsable<T>,
    P3: Parsable<T>,
    P4: Parsable<T>,
    M1: Matcher<P1>,
    M2: Matcher<P2>,
    M3: Matcher<P3>,
    M4: Matcher<P4>,
> Parser<T, (P1, P2, P3, P4)> for Tuple4Validator<P1, P2, P3, P4, M1, M2, M3, M4> {
    open spec fn spec_parse(
        &self,
        tokens: Seq<T>,
        pos: int,
        end: int,
        v: (P1, P2, P3, P4),
    ) -> bool {
        (exists|m1: int, m2: int, m3: int|
            #[trigger] P1::spec_parse(tokens, pos, m1, v.0) && #[trigger] P2::spec_parse(
                tokens,
                m1,
                m2,
                v.1,
            ) && #[trigger] P3::spec_parse(tokens, m2, m3, v.2) && P4::spec_parse(
                tokens,
                m3,
                end,
                v.3,
            )) && self.first.accepts(v.0) && self.second.accepts(v.1) && self.third.accepts(v.2)
            && self.fourth.accepts(v.3)
    }

    open spec fn spec_fails(&self, tokens: Seq<T>, pos: int) -> bool {
        P1::spec_fails(tokens, pos) || exists|v1: P1, m1: int|
            #[trigger] P1::spec_parse(tokens, pos, m1, v1) && (P2::spec_fails(tokens, m1)
                || exists|v2: P2, m2: int|
                #[trigger] P2::spec_parse(tokens, m1, m2, v2) && (P3::spec_fails(tokens, m2)
                    || exists|v3: P3, m3: int|
                    #[trigger] P3::spec_parse(tokens, m2, m3, v3) && (P4::spec_fails(tokens, m3)
                        || exists|v4: P4, e4: int|
                        #[trigger] P4::spec_parse(tokens, m3, e4, v4) && !(self.first.accepts(v1)
                            && self.second.accepts(v2) && self.third.accepts(v3)
                            && self.fourth.accepts(v4)))))
    }

    open spec fn spec_error(&self, tokens: Seq<T>, pos: int, e: ParseError) -> bool {
        ||| e.failure_type matches ParseErrorType::ConjunctBranchParsingFailure {
            err_source,
            ..
        } && e.type_label@ == "(_, _, _, _)"@ && e.failed_at == err_source.failed_at && (
        P1::spec_error(tokens, pos, *err_source) || exists|v1: P1, m1: int|
            #[trigger] P1::spec_parse(tokens, pos, m1, v1) && (P2::spec_error(
                tokens,
                m1,
                *err_source,
            ) || exists|v2: P2, m2: int|
                #[trigger] P2::spec_parse(tokens, m1, m2, v2) && (P3::spec_error(
                    tokens,
                    m2,
                    *err_source,
                ) || exists|v3: P3, m3: int|
                    #[trigger] P3::spec_parse(tokens, m2, m3, v3) && P4::spec_error(
                        tokens,
                        m3,
                        *err_source,
                    ))))
        ||| exists|v1: P1, m1: int, v2: P2, m2: int, v3: P3, m3: int, v4: P4, e4: int|
            #[trigger] P1::spec_parse(tokens, pos, m1, v1) && #[trigger] P2::spec_parse(
                tokens,
                m1,
                m2,
                v2,
            ) && #[trigger] P3::spec_parse(tokens, m2, m3, v3) && #[trigger] P4::spec_parse(
                tokens,
                m3,
                e4,
                v4,
            ) && !(self.first.accepts(v1) && self.second.accepts(v2) && self.third.accepts(v3)
                && self.fourth.accepts(v4)) && spec_rejected_error(
                "(_, _, _, _)"@,
                e4,
                spec_quad_text(self.first, self.second, self.third, self.fourth),
                e,
            )
    }

    fn parse(&self, iter: &mut TokenIter<T>) -> (r: Result<(P1, P2, P3, P4), ParseError>)
        ensures
            r is Err ==> old(iter).same_state(*final(iter)),
    {
        let before = iter.current;
        let p1 = match iter.parse::<P1>() {
            Ok(v) => v,
            Err(e) => {
                return Err(ParseError::from_conjunct_error::<(P1, P2, P3, P4)>(e, Vec::new()));
            },
        };
        let ghost m1 = iter.current as int;
        let p2 = match iter.parse::<P2>() {
            Ok(v) => v,
            Err(e) => {
                let mut successes: Vec<String> = Vec::new();
                successes.push(debug_text(&p1));
                iter.current = before;
                return Err(ParseError::from_conjunct_error::<(P1, P2, P3, P4)>(e, successes));
            },
        };
        let ghost m2 = iter.current as int;
        let p3 = match iter.parse::<P3>() {
            Ok(v) => v,
            Err(e) => {
                let mut successes: Vec<String> = Vec::new();
                successes.push(debug_text(&p1));
                successes.push(debug_text(&p2));
                iter.current = before;
                return Err(ParseError::from_conjunct_error::<(P1, P2, P3, P4)>(e, successes));
            },
        };
        let ghost m3 = iter.current as int;
        let p4 = match iter.parse::<P4>() {
            Ok(v) => v,
            Err(e) => {
                let mut successes: Vec<String> = Vec::new();
                successes.push(debug_text(&p1));
                successes.push(debug_text(&p2));
                successes.push(debug_text(&p3));
                iter.current = before;
                return Err(ParseError::from_conjunct_error::<(P1, P2, P3, P4)>(e, successes));
            },
        };
        let ghost e4 = iter.current as int;
        let ok1 = self.first.matches(&p1);
        let ok2 = self.second.matches(&p2);
        let ok3 = self.third.matches(&p3);
        let ok4 = self.fourth.matches(&p4);
        if ok1 && ok2 && ok3 && ok4 {
            proof {
                let toks = old(iter).tokens@;
                let pos = old(iter).current as int;
                assert(P1::spec_parse(toks, pos, m1, (p1, p2, p3, p4).0));
                assert(P2::spec_parse(toks, m1, m2, (p1, p2, p3, p4).1));
                assert(P3::spec_parse(toks, m2, m3, (p1, p2, p3, p4).2));
                assert(P4::spec_parse(toks, m3, e4, (p1, p2, p3, p4).3));
            }
            Ok((p1, p2, p3, p4))
        } else {
            let text = self.describe_quad();
            let e = ParseError::parsed_but_unmatching::<T, (P1, P2, P3, P4)>(
                iter.current,
                &(p1, p2, p3, p4),
                text.as_str(),
            );
            iter.current = before;
            Err(e)
        }
    }
}


impl<
    P1,
    P2,
    P3,
    M1: Matcher<P1>,
    M2: Matcher<P2>,
    M3: Matcher<P3>,
> Tuple3Validator<P1, P2, P3, M1, M2, M3> {
    /// The rendering of the three matchers, for error messages.
    fn describe_triple(&self) -> (r: String)
        ensures
            r@ == spec_triple_text(self.first, self.second, self.third),
    {
        let mut text = "(".to_owned();
        let a = self.first.describe();
        let b = self.second.describe();
        let c = self.third.describe();
        text.append(a.as_str());
        text.append(", ");
        text.append(b.as_str());
        text.append(", ");
        text.append(c.as_str());
        text.append(")");
        text
    }
}

impl<
    P1,
    P2,
    P3,
    P4,
    M1: Matcher<P1>,
    M2: Matcher<P2>,
    M3: Matcher<P3>,
    M4: Matcher<P4>,
> Tuple4Validator<P1, P2, P3, P4, M1, M2, M3, M4> {
    /// The rendering of the four matchers, for error messages.
    fn describe_quad(&self) -> (r: String)
        ensures
            r@ == spec_quad_text(self.first, self.second, self.third, self.fourth),
    {
        let mut text = "(".to_owned();
        let a = self.first.describe();
        let b = self.second.describe();
        let c = self.third.describe();
        let d = self.fourth.describe();
        text.append(a.as_str());
        text.append(", ");
        text.append(b.as_str());
        text.append(", ");
        text.append(c.as_str());
        text.append(", ");
        text.append(d.as_str());
        text.append(")");
        text
    }
}

} // verus!
