use vstd::prelude::*;

use crate::base_traits::{ConsumableToken, Matcher, Named, Parsable, Parser, Pattern};
use crate::iter::TokenIter;
use crate::parse_error::ParseError;

verus! {

/// The strategy for `Option<P>`: attempt one `P` in its own scope and
/// produce the value when the attempt succeeds and the matcher accepts its
/// result; produce nothing otherwise, consuming no tokens. Absence is not an
/// error: this strategy never fails.
pub struct OptionValidator<P, M: Matcher<P>> {
    pub matcher: M,
    pub marker: core::marker::PhantomData<P>,
}

impl<P> Default for OptionValidator<P, Pattern<P>> {
    fn default() -> Self {
        OptionValidator { matcher: Pattern::new(), marker: core::marker::PhantomData }
    }
}

impl<P, M: Matcher<P>> OptionValidator<P, M> {
    /// Replace the matcher wholesale; the strategy is otherwise unchanged.
    pub fn with_matcher<M2: Matcher<P>>(self, m: M2) -> (r: OptionValidator<P, M2>)
        ensures
            r.matcher == m,
    {
        OptionValidator { matcher: m, marker: core::marker::PhantomData }
    }
}

impl<P> Named for Option<P> {
    open spec fn spec_name() -> Seq<char> {
        "Option"@
    }

    fn construct_name() -> (s: &'static str) {
        "Option"
    }
}

impl<T: ConsumableToken, P: Parsable<T>> Parsable<T> for Option<P> {
    type P = OptionValidator<P, Pattern<P>>;

    open spec fn spec_parse(tokens: Seq<T>, pos: int, end: int, v: Option<P>) -> bool {
        match v {
            Some(x) => P::spec_parse(tokens, pos, end, x),
            None => end == pos && P::spec_fails(tokens, pos),
        }
    }

    open spec fn spec_fails(tokens: Seq<T>, pos: int) -> bool {
        false
    }

    open spec fn spec_error(tokens: Seq<T>, pos: int, e: ParseError) -> bool {
        false
    }

    fn parser() -> (p: Self::P) {
        OptionValidator { matcher: Pattern::new(), marker: core::marker::PhantomData }
    }
}

/// An optional node never fails, whatever the element type, the matcher,
/// and the cursor state: absence is an answer, not an error, and no error
/// value is ever reported.
pub proof fn lemma_optional_totality<T: ConsumableToken, P: Parsable<T>>(tokens: Seq<T>, pos: int)
    ensures
        !<Option<P> as Parsable<T>>::spec_fails(tokens, pos),
        forall|e: ParseError| !<Option<P> as Parsable<T>>::spec_error(tokens, pos, e),
{
}

impl<T: ConsumableToken, P: Parsable<T>, M: Matcher<P>> Parser<T, Option<P>> for OptionValidator<
    P,
    M,
> {
    open spec fn spec_parse(&self, tokens: Seq<T>, pos: int, end: int, v: Option<P>) -> bool {
        match v {
            Some(x) => P::spec_parse(tokens, pos, end, x) && self.matcher.accepts(x),
            None => end == pos && (P::spec_fails(tokens, pos) || exists|x: P, e2: int|
                #[trigger] P::spec_parse(tokens, pos, e2, x) && !self.matcher.accepts(x)),
        }
    }

    open spec fn spec_fails(&self, tokens: Seq<T>, pos: int) -> bool {
        false
    }

    open spec fn spec_error(&self, tokens: Seq<T>, pos: int, e: ParseError) -> bool {
        false
    }

    fn parse(&self, iter: &mut TokenIter<T>) -> (r: Result<Option<P>, ParseError>)
        ensures
            r is Ok,
    {
        let before = iter.current;
        let attempt = iter.parse::<P>();
        match attempt {
            Ok(p) => {
                if self.matcher.matches(&p) {
                    Ok(Some(p))
                } else {
                    iter.current = before;
                    Ok(None)
                }
            },
            Err(_) => Ok(None),
        }
    }
}

} // verus!
