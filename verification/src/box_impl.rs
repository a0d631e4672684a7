use vstd::prelude::*;

use crate::base_traits::{ConsumableToken, Matcher, Named, Parsable, Parser, Pattern};
use crate::iter::TokenIter;
use crate::parse_error::{spec_rejected_error, ParseError};

verus! {

/// The strategy for `Box<P>` (an owning indirection, for recursive grammar
/// nodes): parse one `P`, hold it against the matcher, and box it. It
/// propagates `P`'s failure untouched, and rejects where the matcher does.
pub struct BoxValidator<P, M: Matcher<P>> {
    pub m: M,
    pub marker: core::marker::PhantomData<P>,
}

impl<P> Default for BoxValidator<P, Pattern<P>> {
    fn default() -> Self {
        BoxValidator { m: Pattern::new(), marker: core::marker::PhantomData }
    }
}

impl<P, M: Matcher<P>> BoxValidator<P, M> {
    /// Replace the matcher wholesale; the strategy is otherwise unchanged.
    pub fn with_matcher<M2: Matcher<P>>(self, m: M2) -> (r: BoxValidator<P, M2>)
        ensures
            r.m == m,
    {
        BoxValidator { m, marker: core::marker::PhantomData }
    }
}

impl<P> Named for Box<P> {
    open spec fn spec_name() -> Seq<char> {
        "Box"@
    }

    fn construct_name() -> (s: &'static str) {
        "Box"
    }
}

impl<T: ConsumableToken, P: Parsable<T>> Parsable<T> for Box<P> {
    type P = BoxValidator<P, Pattern<P>>;

    open spec fn spec_parse(tokens: Seq<T>, pos: int, end: int, v: Box<P>) -> bool {
        P::spec_parse(tokens, pos, end, *v)
    }

    open spec fn spec_fails(tokens: Seq<T>, pos: int) -> bool {
        P::spec_fails(tokens, pos)
    }

    open spec fn spec_error(tokens: Seq<T>, pos: int, e: ParseError) -> bool {
        P::spec_error(tokens, pos, e)
    }

    fn parser() -> (p: Self::P) {
        BoxValidator { m: Pattern::new(), marker: core::marker::PhantomData }
    }
}

impl<T: ConsumableToken, P: Parsable<T>, M: Matcher<P>> Parser<T, Box<P>> for BoxValidator<P, M> {
    open spec fn spec_parse(&self, tokens: Seq<T>, pos: int, end: int, v: Box<P>) -> bool {
        P::spec_parse(tokens, pos, end, *v) && self.m.accepts(*v)
    }

    open spec fn spec_fails(&self, tokens: Seq<T>, pos: int) -> bool {
        P::spec_fails(tokens, pos) || exists|x: P, e2: int| #[trigger] P::spec_parse(
            tokens,
            pos,
            e2,
            x,
        ) && !self.m.accepts(x)
    }

    open spec fn spec_error(&self, tokens: Seq<T>, pos: int, e: ParseError) -> bool {
        ||| P::spec_error(tokens, pos, e)
        ||| exists|x: P, e2: int|
            #[trigger] P::spec_parse(tokens, pos, e2, x) && !self.m.accepts(x)
                && spec_rejected_error(P::spec_name(), e2, self.m.spec_describe(), e)
    }

    fn parse(&self, iter: &mut TokenIter<T>) -> (r: Result<Box<P>, ParseError>)
        ensures
            r is Err ==> old(iter).same_state(*final(iter)),
    {
        let before = iter.current;
        match iter.parse::<P>() {
            Err(e) => Err(e),
            Ok(p) => {
                if self.m.matches(&p) {
                    Ok(Box::new(p))
                } else {
                    let failed_at = iter.current;
                    let text = self.m.describe();
                    let e = ParseError::parsed_but_unmatching::<T, P>(
                        failed_at,
                        &p,
                        text.as_str(),
                    );
                    iter.current = before;
                    Err(e)
                }
            },
        }
    }
}

} // verus!
