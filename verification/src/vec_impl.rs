use vstd::prelude::*;

use crate::base_traits::{ConsumableToken, Matcher, Named, Parsable, Parser, Pattern};
use crate::iter::TokenIter;
use crate::parse_error::ParseError;

verus! {

/// What a matcher keeps: the values it accepts.
pub open spec fn accepts_pred<P, M: Matcher<P>>(m: M) -> spec_fn(P) -> bool {
    |x: P| m.accepts(x)
}

/// What a matcher turns away: the values it does not accept.
pub open spec fn declines_pred<P, M: Matcher<P>>(m: M) -> spec_fn(P) -> bool {
    |x: P| !m.accepts(x)
}

/// `elems` are the values of consecutive successful, kept, strictly
/// advancing parses of `P`, starting at `pos` and ending at `end`.
pub open spec fn spec_links_by<T: ConsumableToken, P: Parsable<T>>(
    keep: spec_fn(P) -> bool,
    tokens: Seq<T>,
    pos: int,
    end: int,
    elems: Seq<P>,
) -> bool
    decreases elems.len(),
{
    if elems.len() == 0 {
        end == pos
    } else {
        exists|mid: int|
            pos < mid <= tokens.len() && #[trigger] P::spec_parse(tokens, pos, mid, elems[0])
                && keep(elems[0]) && spec_links_by(keep, tokens, mid, end, elems.drop_first())
    }
}

/// No further element can be taken at `pos`: the next attempt fails, or a
/// value it may produce is turned away or consumes nothing.
pub open spec fn spec_stops_by<T: ConsumableToken, P: Parsable<T>>(
    decline: spec_fn(P) -> bool,
    tokens: Seq<T>,
    pos: int,
) -> bool {
    P::spec_fails(tokens, pos) || exists|x: P, e2: int| #[trigger] P::spec_parse(
        tokens,
        pos,
        e2,
        x,
    ) && (decline(x) || e2 == pos)
}

/// `elems` are the values of consecutive successful, accepted, strictly
/// advancing parses of `P`, starting at `pos` and ending at `end`.
pub open spec fn spec_links<T: ConsumableToken, P: Parsable<T>, M: Matcher<P>>(
    m: M,
    tokens: Seq<T>,
    pos: int,
    end: int,
    elems: Seq<P>,
) -> bool {
    spec_links_by(accepts_pred(m), tokens, pos, end, elems)
}

/// No further element can be taken at `pos`: the next attempt fails, or a
/// value it may produce is rejected by the matcher or consumes nothing.
pub open spec fn spec_stops<T: ConsumableToken, P: Parsable<T>, M: Matcher<P>>(
    m: M,
    tokens: Seq<T>,
    pos: int,
) -> bool {
    spec_stops_by(declines_pred(m), tokens, pos)
}

/// The meaning of greedy repetition: `elems` are taken one after the other
/// from `pos` to `end`, and at `end` the repetition had reason to stop.
pub open spec fn spec_chain<T: ConsumableToken, P: Parsable<T>, M: Matcher<P>>(
    m: M,
    tokens: Seq<T>,
    pos: int,
    end: int,
    elems: Seq<P>,
) -> bool {
    spec_links(m, tokens, pos, end, elems) && spec_stops(m, tokens, end)
}

/// Appending one more parsed, kept, advancing element to a chain of links
/// keeps it a chain of links.
pub proof fn lemma_links_snoc_by<T: ConsumableToken, P: Parsable<T>>(
    keep: spec_fn(P) -> bool,
    tokens: Seq<T>,
    pos: int,
    mid: int,
    end: int,
    elems: Seq<P>,
    x: P,
)
    requires
        spec_links_by(keep, tokens, pos, mid, elems),
        P::spec_parse(tokens, mid, end, x),
        keep(x),
        mid < end <= tokens.len(),
    ensures
        spec_links_by(keep, tokens, pos, end, elems.push(x)),
    decreases elems.len(),
{
    if elems.len() == 0 {
        assert(mid == pos);
        assert(elems.push(x)[0] == x);
        assert(elems.push(x).drop_first() =~= Seq::<P>::empty());
        assert(spec_links_by(keep, tokens, end, end, elems.push(x).drop_first()));
    } else {
        let mid1 = choose|mid1: int|
            pos < mid1 <= tokens.len() && #[trigger] P::spec_parse(tokens, pos, mid1, elems[0])
                && keep(elems[0]) && spec_links_by(keep, tokens, mid1, mid, elems.drop_first());
        lemma_links_snoc_by(keep, tokens, mid1, mid, end, elems.drop_first(), x);
        assert(elems.push(x).drop_first() =~= elems.drop_first().push(x));
        assert(elems.push(x)[0] == elems[0]);
    }
}

/// The matcher form of the appending lemma.
pub proof fn lemma_links_snoc<T: ConsumableToken, P: Parsable<T>, M: Matcher<P>>(
    m: M,
    tokens: Seq<T>,
    pos: int,
    mid: int,
    end: int,
    elems: Seq<P>,
    x: P,
)
    requires
        spec_links(m, tokens, pos, mid, elems),
        P::spec_parse(tokens, mid, end, x),
        m.accepts(x),
        mid < end <= tokens.len(),
    ensures
        spec_links(m, tokens, pos, end, elems.push(x)),
{
    lemma_links_snoc_by(accepts_pred(m), tokens, pos, mid, end, elems, x);
}

/// A repetition never overruns the input: the elements taken from `pos` to
/// `end` each consumed at least one token, so there are at most `end - pos`
/// of them, and `end` stays within the sequence; taking no element leaves
/// the position unchanged.
pub proof fn lemma_sequence_monotonic_by<T: ConsumableToken, P: Parsable<T>>(
    keep: spec_fn(P) -> bool,
    tokens: Seq<T>,
    pos: int,
    end: int,
    elems: Seq<P>,
)
    requires
        spec_links_by(keep, tokens, pos, end, elems),
        0 <= pos <= tokens.len(),
    ensures
        pos + elems.len() <= end,
        end <= tokens.len(),
        elems.len() == 0 ==> end == pos,
    decreases elems.len(),
{
    if elems.len() > 0 {
        let mid = choose|mid: int|
            pos < mid <= tokens.len() && #[trigger] P::spec_parse(tokens, pos, mid, elems[0])
                && keep(elems[0]) && spec_links_by(keep, tokens, mid, end, elems.drop_first());
        lemma_sequence_monotonic_by(keep, tokens, mid, end, elems.drop_first());
    }
}

/// The matcher form of the bound: a matcher-filtered repetition never
/// overruns the input.
pub proof fn lemma_sequence_monotonic<T: ConsumableToken, P: Parsable<T>, M: Matcher<P>>(
    m: M,
    tokens: Seq<T>,
    pos: int,
    end: int,
    elems: Seq<P>,
)
    requires
        spec_links(m, tokens, pos, end, elems),
        0 <= pos <= tokens.len(),
    ensures
        pos + elems.len() <= end,
        end <= tokens.len(),
        elems.len() == 0 ==> end == pos,
{
    lemma_sequence_monotonic_by(accepts_pred(m), tokens, pos, end, elems);
}

/// The strategy for `Vec<P>` (greedy repetition): attempt one `P` after
/// another, each in its own scope, keeping the values the matcher accepts,
/// until an attempt fails, is rejected, or consumes nothing; that last
/// attempt is fully rewound and the values collected so far are the result.
/// An empty list is a valid result: this strategy never fails.
pub struct VecValidator<P, M: Matcher<P>> {
    pub matcher: M,
    pub marker: core::marker::PhantomData<P>,
}

impl<P> Default for VecValidator<P, Pattern<P>> {
    fn default() -> Self {
        VecValidator { matcher: Pattern::new(), marker: core::marker::PhantomData }
    }
}

impl<P, M: Matcher<P>> VecValidator<P, M> {
    /// Replace the matcher wholesale; the strategy is otherwise unchanged.
    pub fn with_matcher<M2: Matcher<P>>(self, m: M2) -> (r: VecValidator<P, M2>)
        ensures
            r.matcher == m,
    {
        VecValidator { matcher: m, marker: core::marker::PhantomData }
    }
}

impl<P> Named for Vec<P> {
    open spec fn spec_name() -> Seq<char> {
        "Vec"@
    }

    fn construct_name() -> (s: &'static str) {
        "Vec"
    }
}

impl<T: ConsumableToken, P: Parsable<T>> Parsable<T> for Vec<P> {
    type P = VecValidator<P, Pattern<P>>;

    open spec fn spec_parse(tokens: Seq<T>, pos: int, end: int, v: Vec<P>) -> bool {
        spec_chain(Pattern::<P> { marker: core::marker::PhantomData }, tokens, pos, end, v@)
    }

    open spec fn spec_fails(tokens: Seq<T>, pos: int) -> bool {
        false
    }

    open spec fn spec_error(tokens: Seq<T>, pos: int, e: ParseError) -> bool {
        false
    }

    fn parser() -> (p: Self::P) {
        VecValidator { matcher: Pattern::new(), marker: core::marker::PhantomData }
    }
}

impl<T: ConsumableToken, P: Parsable<T>, M: Matcher<P>> Parser<T, Vec<P>> for VecValidator<
    P,
    M,
> {
    open spec fn spec_parse(&self, tokens: Seq<T>, pos: int, end: int, v: Vec<P>) -> bool {
        spec_chain(self.matcher, tokens, pos, end, v@)
    }

    open spec fn spec_fails(&self, tokens: Seq<T>, pos: int) -> bool {
        false
    }

    open spec fn spec_error(&self, tokens: Seq<T>, pos: int, e: ParseError) -> bool {
        false
    }

    fn parse(&self, iter: &mut TokenIter<T>) -> (r: Result<Vec<P>, ParseError>)
        ensures
            r is Ok,
    {
        let mut result: Vec<P> = Vec::new();
        let mut stop = false;
        while !stop
            invariant
                iter.wf(),
                iter.tokens@ == old(iter).tokens@,
                iter.stack@ == old(iter).stack@,
                old(iter).current <= iter.current,
                spec_links(
                    self.matcher,
                    old(iter).tokens@,
                    old(iter).current as int,
                    iter.current as int,
                    result@,
                ),
                stop ==> spec_stops(self.matcher, old(iter).tokens@, iter.current as int),
            decreases iter.tokens@.len() - iter.current + (if stop {
                0int
            } else {
                1int
            }),
        {
            let before = iter.current;
            match iter.parse::<P>() {
                Err(_) => {
                    stop = true;
                },
                Ok(p) => {
                    if !self.matcher.matches(&p) {
                        proof {
                            assert(P::spec_parse(
                                iter.tokens@,
                                before as int,
                                iter.current as int,
                                p,
                            ));
                        }
                        iter.current = before;
                        stop = true;
                    } else if iter.current > before {
                        proof {
                            lemma_links_snoc(
                                self.matcher,
                                iter.tokens@,
                                old(iter).current as int,
                                before as int,
                                iter.current as int,
                                result@,
                                p,
                            );
                        }
                        result.push(p);
                    } else {
                        stop = true;
                    }
                },
            }
        }
        Ok(result)
    }
}

} // verus!
