use vstd::prelude::*;

use crate::base_traits::{ConsumableToken, Parsable, Parser};
use crate::vec_impl::{lemma_links_snoc_by, spec_links_by, spec_stops_by};
use crate::parse_error::ParseError;

verus! {

/// The cursor over an immutable token sequence: a current position and a
/// stack of saved positions (marks) for backtracking. The sequence itself is
/// never mutated once wrapped; rewinding the position is therefore always
/// enough to undo a failed attempt.
pub struct TokenIter<T> {
    pub current: usize,
    pub tokens: Vec<T>,
    pub stack: Vec<usize>,
}

impl<T> TokenIter<T> {
    /// The cursor's invariant: the position never passes the end of the
    /// sequence, and every saved mark is a valid position.
    pub open spec fn wf(self) -> bool {
        self.current <= self.tokens@.len() && (forall|i: int|
            0 <= i < self.stack@.len() ==> #[trigger] self.stack@[i] <= self.tokens@.len())
    }

    /// Two cursor states are observationally identical: same sequence, same
    /// position, same mark stack.
    pub open spec fn same_state(self, other: Self) -> bool {
        self.tokens@ == other.tokens@ && self.current == other.current && self.stack@
            == other.stack@
    }
}

impl<T> TokenIter<T> where T: ConsumableToken {
    pub fn new(tokens: Vec<T>) -> (it: TokenIter<T>)
        ensures
            it.wf(),
            it.tokens@ == tokens@,
            it.current == 0,
            it.stack@ == Seq::<usize>::empty(),
    {
        TokenIter { current: 0, tokens, stack: Vec::new() }
    }

    /// The backtracking primitive: saves the position as a mark, runs the
    /// attempt, and on success discards the mark (commit) while on failure
    /// restores the position to the mark (full rewind). An attempt must leave
    /// the token sequence and the mark stack as it found them; nested
    /// attempts therefore form a proper stack and an inner failure cannot
    /// corrupt an outer mark.
    ///
    /// If the attempt fails, the cursor's position and mark stack afterwards
    /// are exactly their values from before the call.
    pub fn try_do<Q, E, F: FnOnce(&mut TokenIter<T>) -> Result<Q, E>>(&mut self, f: F) -> (r:
        Result<Q, E>)
        requires
            old(self).wf(),
            forall|m: &mut TokenIter<T>|
                mut_ref_current(m).wf() && mut_ref_current(m).tokens@ == old(self).tokens@
                    && mut_ref_current(m).current == old(self).current ==> #[trigger] call_requires(
                    f,
                    (m,),
                ),
            forall|m: &mut TokenIter<T>, q: Result<Q, E>|
                call_ensures(f, (m,), q) ==> mut_ref_future(m).wf() && mut_ref_future(m).tokens@
                    == mut_ref_current(m).tokens@ && mut_ref_future(m).stack@ == mut_ref_current(
                    m,
                ).stack@,
        ensures
            final(self).wf(),
            final(self).tokens@ == old(self).tokens@,
            final(self).stack@ == old(self).stack@,
            r is Err ==> old(self).same_state(*final(self)),
            exists|m: &mut TokenIter<T>|
                {
                    &&& #[trigger] call_ensures(f, (m,), r)
                    &&& mut_ref_current(m).tokens@ == old(self).tokens@
                    &&& mut_ref_current(m).current == old(self).current
                    &&& mut_ref_current(m).stack@ == old(self).stack@.push(old(self).current)
                    &&& r is Ok ==> mut_ref_future(m).current == final(self).current
                },
    {
        self.stack.push(self.current);
        let result = f(self);
        if result.is_ok() {
            let _ = self.stack.pop();
        } else {
            let c = self.stack.pop();
            if let Some(c) = c {
                self.current = c;
            }
        }
        proof {
            assert(final(self).stack@ =~= old(self).stack@);
        }
        result
    }

    /// Parse one node of type `P` with its default strategy, as one scoped
    /// attempt: on failure the cursor is rewound to exactly where it was.
    pub fn parse<P>(&mut self) -> (r: Result<P, ParseError>) where P: Parsable<T>
        requires
            old(self).wf(),
        ensures
            final(self).wf(),
            final(self).tokens@ == old(self).tokens@,
            final(self).stack@ == old(self).stack@,
            old(self).current <= final(self).current,
            r matches Ok(v) ==> P::spec_parse(
                old(self).tokens@,
                old(self).current as int,
                final(self).current as int,
                v,
            ),
            r is Err ==> P::spec_fails(old(self).tokens@, old(self).current as int) && old(
                self,
            ).same_state(*final(self)),
            r matches Err(e) ==> P::spec_error(
                old(self).tokens@,
                old(self).current as int,
                e,
            ) && e.wf(),
    {
        let strat = P::parser();
        self.parse_with_validator(&strat)
    }

    /// Parse one node with the given strategy, as one scoped attempt: on
    /// failure the cursor is rewound to exactly where it was.
    pub fn parse_with_validator<P, V>(&mut self, parser: &V) -> (r: Result<P, ParseError>) where
        P: Parsable<T>,
        V: Parser<T, P>,

        requires
            old(self).wf(),
        ensures
            final(self).wf(),
            final(self).tokens@ == old(self).tokens@,
            final(self).stack@ == old(self).stack@,
            old(self).current <= final(self).current,
            r matches Ok(v) ==> parser.spec_parse(
                old(self).tokens@,
                old(self).current as int,
                final(self).current as int,
                v,
            ),
            r is Err ==> parser.spec_fails(old(self).tokens@, old(self).current as int) && old(
                self,
            ).same_state(*final(self)),
            r matches Err(e) ==> parser.spec_error(
                old(self).tokens@,
                old(self).current as int,
                e,
            ) && e.wf(),
    {
        self.stack.push(self.current);
        let result = parser.parse(self);
        if result.is_ok() {
            let _ = self.stack.pop();
        } else {
            let c = self.stack.pop();
            if let Some(c) = c {
                self.current = c;
            }
        }
        proof {
            assert(final(self).stack@ =~= old(self).stack@);
        }
        result
    }


    /// Parse nodes of type `Q` one after the other, each in its own scoped
    /// attempt, for as long as they parse and satisfy `keep_going`; the
    /// first attempt that fails, is declined, or consumes nothing is fully
    /// rewound, and the values collected so far are the result.
    pub fn parse_while<Q, F: Fn(&Q) -> bool>(&mut self, keep_going: F) -> (r: Vec<Q>) where
        Q: Parsable<T>,

        requires
            old(self).wf(),
            forall|q: &Q| #[trigger] call_requires(keep_going, (q,)),
        ensures
            final(self).wf(),
            final(self).tokens@ == old(self).tokens@,
            final(self).stack@ == old(self).stack@,
            old(self).current + r@.len() <= final(self).current,
            spec_links_by(
                |q: Q| call_ensures(keep_going, (&q,), true),
                old(self).tokens@,
                old(self).current as int,
                final(self).current as int,
                r@,
            ),
            spec_stops_by(
                |q: Q| call_ensures(keep_going, (&q,), false),
                old(self).tokens@,
                final(self).current as int,
            ),
            forall|i: int|
                0 <= i < r@.len() ==> call_ensures(keep_going, (&r@[i],), true),
    {
        let mut result: Vec<Q> = Vec::new();
        let mut stop = false;
        while !stop
            invariant
                self.wf(),
                self.tokens@ == old(self).tokens@,
                self.stack@ == old(self).stack@,
                forall|q: &Q| #[trigger] call_requires(keep_going, (q,)),
                old(self).current + result@.len() <= self.current,
                spec_links_by(
                    |q: Q| call_ensures(keep_going, (&q,), true),
                    old(self).tokens@,
                    old(self).current as int,
                    self.current as int,
                    result@,
                ),
                stop ==> spec_stops_by(
                    |q: Q| call_ensures(keep_going, (&q,), false),
                    old(self).tokens@,
                    self.current as int,
                ),
                forall|i: int|
                    0 <= i < result@.len() ==> call_ensures(keep_going, (&result@[i],), true),
            decreases self.tokens@.len() - self.current + (if stop {
                0int
            } else {
                1int
            }),
        {
            let before = self.current;
            match self.parse::<Q>() {
                Err(_) => {
                    stop = true;
                },
                Ok(q) => {
                    let wanted = keep_going(&q);
                    if wanted {
                        if self.current > before {
                            proof {
                                lemma_links_snoc_by(
                                    |q0: Q| call_ensures(keep_going, (&q0,), true),
                                    self.tokens@,
                                    old(self).current as int,
                                    before as int,
                                    self.current as int,
                                    result@,
                                    q,
                                );
                            }
                            result.push(q);
                        } else {
                            stop = true;
                        }
                    } else {
                        proof {
                            assert(Q::spec_parse(
                                self.tokens@,
                                before as int,
                                self.current as int,
                                q,
                            ));
                        }
                        self.current = before;
                        stop = true;
                    }
                },
            }
        }
        result
    }

    /// True exactly when the position has reached the end of the sequence.
    pub fn is_at_end(&self) -> (r: bool)
        ensures
            r == (self.current == self.tokens@.len()),
    {
        self.current == self.tokens.len()
    }

    /// Returns the token at the position and advances by one; at the end of
    /// the input returns nothing and leaves the position unchanged. Running
    /// out of tokens is not itself an error: the caller decides.
    pub fn consume(&mut self) -> (r: Option<T>)
        requires
            old(self).wf(),
        ensures
            final(self).wf(),
            final(self).tokens@ == old(self).tokens@,
            final(self).stack@ == old(self).stack@,
            old(self).current < old(self).tokens@.len() ==> r == Some(
                old(self).tokens@[old(self).current as int],
            ) && final(self).current == old(self).current + 1,
            old(self).current >= old(self).tokens@.len() ==> r is None && old(self).same_state(
                *final(self),
            ),
    {
        let n = self.tokens.len();
        match self.get(self.current) {
            Some(element) => {
                proof {
                    assert(old(self).current < n);
                }
                self.current = self.current + 1;
                Some(element)
            },
            None => None,
        }
    }

    /// The token at an arbitrary absolute position, without touching the
    /// cursor state; nothing if the position is out of bounds.
    pub fn get(&self, position: usize) -> (r: Option<T>)
        ensures
            position < self.tokens@.len() ==> r == Some(self.tokens@[position as int]),
            position >= self.tokens@.len() ==> r is None,
    {
        if position < self.tokens.len() {
            Some(self.tokens[position].copy_token())
        } else {
            None
        }
    }
}

} // verus!
