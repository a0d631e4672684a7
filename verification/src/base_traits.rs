use vstd::prelude::*;

use crate::iter::TokenIter;
use crate::parse_error::ParseError;

verus! {

/// The capability a token type must offer to participate in parsing: it can
/// be duplicated without loss.
pub trait ConsumableToken: Sized {
    /// A faithful copy: the duplicate equals the original.
    fn copy_token(&self) -> (t: Self)
        ensures
            t == *self,
    ;
}

/// A grammar construct's identity: the name its errors are labelled with.
pub trait Named {
    /// The construct's name, as text.
    spec fn spec_name() -> Seq<char>;

    /// The construct's name.
    fn construct_name() -> (s: &'static str)
        ensures
            s@ == Self::spec_name(),
    ;
}

/// A named predicate over a parsed value, used to accept or reject a value
/// after its structural parse succeeded. Configuration, not state: a matcher
/// is only ever replaced wholesale.
pub trait Matcher<P>: Sized {
    /// What this matcher accepts.
    spec fn accepts(&self, v: P) -> bool;

    /// Decides acceptance, exactly as `accepts` says.
    fn matches(&self, v: &P) -> (r: bool)
        ensures
            r == self.accepts(*v),
    ;

    /// The text this matcher renders as in error messages.
    spec fn spec_describe(&self) -> Seq<char>;

    /// A human-readable rendering of the predicate, for error messages.
    fn describe(&self) -> (r: String)
        ensures
            r@ == self.spec_describe(),
    ;

    /// A faithful copy: the duplicate accepts exactly what the original does.
    fn duplicate(&self) -> (m: Self)
        ensures
            m == *self,
    ;
}

/// The default matcher: accepts every value.
pub struct Pattern<P> {
    pub marker: core::marker::PhantomData<P>,
}

impl<P> Pattern<P> {
    pub fn new() -> (p: Self) {
        Pattern { marker: core::marker::PhantomData }
    }
}

impl<P> Clone for Pattern<P> {
    fn clone(&self) -> (c: Self)
        ensures
            c == *self,
    {
        Pattern { marker: core::marker::PhantomData }
    }
}

impl<P> Default for Pattern<P> {
    fn default() -> (p: Self) {
        Pattern { marker: core::marker::PhantomData }
    }
}

impl<P> Matcher<P> for Pattern<P> {
    open spec fn accepts(&self, v: P) -> bool {
        true
    }

    fn matches(&self, v: &P) -> (r: bool) {
        true
    }

    open spec fn spec_describe(&self) -> Seq<char> {
        "_"@
    }

    fn describe(&self) -> (r: String) {
        "_".to_owned()
    }

    fn duplicate(&self) -> (m: Self) {
        Pattern { marker: core::marker::PhantomData }
    }
}

/// A grammar node type: it names its default parsing strategy, and it gives
/// the mathematical meaning of that strategy over a token sequence.
///
/// `spec_parse(tokens, pos, end, v)` holds when the default strategy, run at
/// `pos`, may produce the value `v` and leave the position at `end`;
/// `spec_fails(tokens, pos)` holds when it may fail at `pos`.
pub trait Parsable<T: ConsumableToken>: Sized + core::fmt::Debug + Named {
    type P: Parser<T, Self>;

    /// The meaning of this node's default strategy on success.
    spec fn spec_parse(tokens: Seq<T>, pos: int, end: int, v: Self) -> bool;

    /// The meaning of this node's default strategy on failure.
    spec fn spec_fails(tokens: Seq<T>, pos: int) -> bool;

    /// The errors this node's default strategy may report at `pos`.
    spec fn spec_error(tokens: Seq<T>, pos: int, e: ParseError) -> bool;

    /// The default strategy value; its own meaning, pointwise, is this
    /// node's meaning.
    fn parser() -> (p: Self::P)
        ensures
            forall|tokens: Seq<T>, pos: int, end: int, v: Self| #[trigger] p.spec_parse(
                tokens,
                pos,
                end,
                v,
            ) == Self::spec_parse(tokens, pos, end, v),
            forall|tokens: Seq<T>, pos: int| #[trigger] p.spec_fails(tokens, pos)
                == Self::spec_fails(tokens, pos),
            forall|tokens: Seq<T>, pos: int, e: ParseError| #[trigger] p.spec_error(
                tokens,
                pos,
                e,
            ) == Self::spec_error(tokens, pos, e),
    ;
}

/// A parsing strategy for the grammar node type `P` over tokens of type `T`.
///
/// `parse` never touches the token sequence, leaves the mark stack exactly as
/// it found it, and never moves the position backwards past where it started;
/// on success the produced value and final position are as `spec_parse` says,
/// it only fails where `spec_fails` allows, and the error it reports is a
/// well-formed tree of the shape `spec_error` describes.
pub trait Parser<T: ConsumableToken, P>: Sized {
    /// The meaning of this strategy value on success.
    spec fn spec_parse(&self, tokens: Seq<T>, pos: int, end: int, v: P) -> bool;

    /// The meaning of this strategy value on failure.
    spec fn spec_fails(&self, tokens: Seq<T>, pos: int) -> bool;

    /// The errors this strategy value may report at `pos`.
    spec fn spec_error(&self, tokens: Seq<T>, pos: int, e: ParseError) -> bool;

    fn parse(&self, iter: &mut TokenIter<T>) -> (r: Result<P, ParseError>)
        requires
            old(iter).wf(),
        ensures
            final(iter).wf(),
            final(iter).tokens@ == old(iter).tokens@,
            final(iter).stack@ == old(iter).stack@,
            old(iter).current <= final(iter).current,
            r matches Ok(v) ==> self.spec_parse(
                old(iter).tokens@,
                old(iter).current as int,
                final(iter).current as int,
                v,
            ),
            r is Err ==> self.spec_fails(old(iter).tokens@, old(iter).current as int),
            r matches Err(e) ==> self.spec_error(
                old(iter).tokens@,
                old(iter).current as int,
                e,
            ) && e.wf(),
    ;
}

/// The trivial strategy: delegate to the node type's own default strategy.
#[derive(Default)]
pub struct NoOpParser;

impl<T: ConsumableToken, P: Parsable<T>> Parser<T, P> for NoOpParser {
    open spec fn spec_parse(&self, tokens: Seq<T>, pos: int, end: int, v: P) -> bool {
        P::spec_parse(tokens, pos, end, v)
    }

    open spec fn spec_fails(&self, tokens: Seq<T>, pos: int) -> bool {
        P::spec_fails(tokens, pos)
    }

    open spec fn spec_error(&self, tokens: Seq<T>, pos: int, e: ParseError) -> bool {
        P::spec_error(tokens, pos, e)
    }

    fn parse(&self, iter: &mut TokenIter<T>) -> (r: Result<P, ParseError>) {
        let r: Result<P, ParseError> = iter.parse::<P>();
        r
    }
}

} // verus!
