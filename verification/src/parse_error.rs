use vstd::prelude::*;

use crate::base_traits::{ConsumableToken, Named, Parsable};

verus! {

/// The failure taxonomy: input ran out, a value was produced but rejected by a
/// matcher, a multi-part construct failed at one part, or every alternative of
/// a choice failed.
#[derive(Debug, PartialEq, Eq)]
#[allow(inconsistent_fields)]
pub enum ParseErrorType {
    NoMoreTokens,
    ParsedButUnmatching { err_msg: String },
    ConjunctBranchParsingFailure { successes: Vec<String>, err_source: Box<ParseError> },
    DisjunctBranchParsingFailure { err_source: Vec<ParseError> },
}

/// A structured parse failure: the name of the construct that was being
/// parsed, the position (in the cursor's position space) at which the failure
/// occurred, and the failure itself, possibly wrapping inner failures.
#[derive(Debug, PartialEq, Eq)]
pub struct ParseError {
    pub type_label: &'static str,
    pub failed_at: usize,
    pub failure_type: ParseErrorType,
}

/// The label attached to errors for the construct `P`: its name, so a
/// rendered trace says what was being parsed at every level.
pub fn identifier<P: Named>() -> (s: &'static str)
    ensures
        s@ == P::spec_name(),
{
    P::construct_name()
}

/// The standard rendering of a value, for error messages.
///
/// Relies on the `format!` macro with the `{:?}` specifier; nothing is
/// assumed about the returned text.
#[verifier::external_body]
pub(crate) fn debug_text<P: core::fmt::Debug>(value: &P) -> String {
    format!("{:?}", value)
}

impl ParseError {
    /// Every error tree is well formed: a set of failed alternatives is never
    /// empty (a choice with no alternatives is a construction error, not a
    /// runtime one).
    pub open spec fn wf(self) -> bool
        decreases self,
    {
        match self.failure_type {
            ParseErrorType::NoMoreTokens => true,
            ParseErrorType::ParsedButUnmatching { .. } => true,
            ParseErrorType::ConjunctBranchParsingFailure { successes, err_source } => (*err_source).wf(),
            ParseErrorType::DisjunctBranchParsingFailure { err_source } => err_source@.len() > 0
                && (forall|i: int|
                0 <= i < err_source@.len() ==> (#[trigger] err_source@[i]).wf()),
        }
    }

    pub fn new(type_label: &'static str, failed_at: usize, failure_type: ParseErrorType) -> (e:
        ParseError)
        ensures
            e.type_label == type_label,
            e.failed_at == failed_at,
            e.failure_type == failure_type,
    {
        Self { type_label, failed_at, failure_type }
    }

    /// A value was produced but a matcher rejected it; the message records the
    /// offending value, the construct's name, and the pattern that was
    /// expected.
    pub fn parsed_but_unmatching<T, P>(failed_at: usize, result: &P, pattern: &str) -> (e:
        ParseError) where T: ConsumableToken, P: Parsable<T>
        ensures
            e.type_label@ == P::spec_name(),
            e.failed_at == failed_at,
            e.failure_type matches ParseErrorType::ParsedButUnmatching { err_msg }
                && is_unmatching_msg(err_msg@, P::spec_name(), pattern@),
            e.wf(),
    {
        let label = identifier::<P>();
        let shown = debug_text(result);
        let mut err_msg = "Parsed ".to_owned();
        err_msg.append(shown.as_str());
        err_msg.append(": ");
        err_msg.append(label);
        err_msg.append(", but it did not match pattern '");
        err_msg.append(pattern);
        err_msg.append("'");
        proof {
            assert(err_msg@ == "Parsed "@ + shown@ + ": "@ + P::spec_name()
                + ", but it did not match pattern '"@ + pattern@ + "'"@);
        }
        ParseError::new(label, failed_at, ParseErrorType::ParsedButUnmatching { err_msg })
    }

    /// No token remained where one was required.
    pub fn no_more_tokens<T: ConsumableToken + Named>(failed_at: usize) -> (e: ParseError)
        ensures
            e.type_label@ == T::spec_name(),
            e.failed_at == failed_at,
            e.failure_type == ParseErrorType::NoMoreTokens,
            e.wf(),
    {
        ParseError::new(identifier::<T>(), failed_at, ParseErrorType::NoMoreTokens)
    }

    /// A multi-part construct failed partway: wraps the child failure with the
    /// enclosing construct, keeping the child untouched.
    pub fn from_conjunct_error<P: Named>(other: ParseError, successes: Vec<String>) -> (e:
        ParseError)
        ensures
            e.type_label@ == P::spec_name(),
            e.failed_at == other.failed_at,
            e.failure_type matches ParseErrorType::ConjunctBranchParsingFailure {
                successes: s,
                err_source,
            } && s == successes && *err_source == other,
            other.wf() ==> e.wf(),
    {
        let failed_at = other.failed_at;
        ParseError::new(
            identifier::<P>(),
            failed_at,
            ParseErrorType::ConjunctBranchParsingFailure {
                successes,
                err_source: Box::new(other),
            },
        )
    }

    /// Every alternative of a choice failed: wraps the inner failures, exactly
    /// one per attempted alternative, in attempt order, keeping each
    /// untouched. A choice must present at least one alternative.
    pub fn from_disjunct_errors<P: Named>(failed_at: usize, err_source: Vec<ParseError>) -> (e:
        ParseError)
        requires
            err_source@.len() > 0,
        ensures
            e.type_label@ == P::spec_name(),
            e.failed_at == failed_at,
            e.failure_type matches ParseErrorType::DisjunctBranchParsingFailure {
                err_source: inner,
            } && inner == err_source,
            (forall|i: int| 0 <= i < err_source@.len() ==> (#[trigger] err_source@[i]).wf())
                ==> e.wf(),
    {
        ParseError::new(
            identifier::<P>(),
            failed_at,
            ParseErrorType::DisjunctBranchParsingFailure { err_source },
        )
    }
}


impl Clone for ParseError {
    /// A deep copy of the failure tree; as with a derived clone, nothing is
    /// assumed of the copy in specifications.
    fn clone(&self) -> (c: Self)
        decreases *self,
    {
        let failure_type = match &self.failure_type {
            ParseErrorType::NoMoreTokens => ParseErrorType::NoMoreTokens,
            ParseErrorType::ParsedButUnmatching { err_msg } => {
                ParseErrorType::ParsedButUnmatching { err_msg: err_msg.clone() }
            },
            ParseErrorType::ConjunctBranchParsingFailure { successes, err_source } => {
                ParseErrorType::ConjunctBranchParsingFailure {
                    successes: successes.clone(),
                    err_source: Box::new((**err_source).clone()),
                }
            },
            ParseErrorType::DisjunctBranchParsingFailure { err_source } => {
                let mut list: Vec<ParseError> = Vec::new();
                let n = err_source.len();
                let mut i: usize = 0;
                while i < n
                    invariant
                        n == err_source@.len(),
                        0 <= i <= n,
                        self.failure_type matches ParseErrorType::DisjunctBranchParsingFailure {
                            err_source: es,
                        } && es == *err_source,
                    decreases n - i,
                {
                    list.push(err_source[i].clone());
                    i = i + 1;
                }
                ParseErrorType::DisjunctBranchParsingFailure { err_source: list }
            },
        };
        ParseError { type_label: self.type_label, failed_at: self.failed_at, failure_type }
    }
}

/// An error labelled with the construct named `label`, reporting exhausted
/// input at `pos`: no token remained where one was required.
pub open spec fn spec_exhausted_error(label: Seq<char>, pos: int, e: ParseError) -> bool {
    &&& e.type_label@ == label
    &&& e.failed_at == pos
    &&& e.failure_type is NoMoreTokens
}

/// An error labelled with the construct named `label`, reporting a value
/// rejected at `pos` by the pattern whose text is `pattern`.
pub open spec fn spec_rejected_error(label: Seq<char>, pos: int, pattern: Seq<char>, e: ParseError) -> bool {
    &&& e.type_label@ == label
    &&& e.failed_at == pos
    &&& e.failure_type matches ParseErrorType::ParsedButUnmatching { err_msg }
        && is_unmatching_msg(err_msg@, label, pattern)
}

/// A rejection message: some rendering of the offending value, the
/// construct's name, then the pattern that was expected.
pub open spec fn is_unmatching_msg(msg: Seq<char>, label: Seq<char>, pattern: Seq<char>) -> bool {
    exists|shown: Seq<char>|
        msg == "Parsed "@ + shown + ": "@ + label + ", but it did not match pattern '"@ + pattern
            + "'"@
}


/// `n` tab characters.
pub open spec fn tab_seq(n: int) -> Seq<char> {
    Seq::new(n as nat, |i: int| '\t')
}

/// One rendered line for a successfully parsed part.
pub open spec fn success_line(s: String, indent: int) -> Seq<char> {
    tab_seq(indent) + " Success: "@ + s@
}

/// The rendered lines for the successfully parsed parts, one per line.
pub open spec fn render_successes(ss: Seq<String>, indent: int) -> Seq<char>
    decreases ss.len(),
{
    if ss.len() == 0 {
        Seq::<char>::empty()
    } else if ss.len() == 1 {
        success_line(ss[0], indent)
    } else {
        render_successes(ss.drop_last(), indent) + "\n"@ + success_line(ss.last(), indent)
    }
}

/// The rendered traces of a list of failures, one per line.
pub open spec fn render_list(es: Seq<ParseError>, indent: int) -> Seq<char>
    decreases es, 1int, es.len(),
{
    if es.len() == 0 {
        Seq::<char>::empty()
    } else if es.len() == 1 {
        render_spec(es[0], indent)
    } else {
        render_list(es.drop_last(), indent) + "\n"@ + render_spec(es.last(), indent)
    }
}

/// The indented, human-readable trace of a failure: each nesting level one
/// tab deeper, every failed alternative rendered in attempt order.
pub open spec fn render_spec(e: ParseError, indent: int) -> Seq<char>
    decreases e, 0int, 0int,
{
    match e.failure_type {
        ParseErrorType::NoMoreTokens => tab_seq(indent) + "Ran out of tokens\n"@,
        ParseErrorType::ParsedButUnmatching { err_msg } => tab_seq(indent) + err_msg@,
        ParseErrorType::ConjunctBranchParsingFailure { successes, err_source } => tab_seq(indent)
            + "Failed: "@ + e.type_label@ + ":\n"@ + render_successes(successes@, indent + 1)
            + "\n"@ + render_spec(*err_source, indent + 1),
        ParseErrorType::DisjunctBranchParsingFailure { err_source } => tab_seq(indent)
            + "Failed: "@ + e.type_label@ + ":\n"@ + render_list(err_source@, indent + 1),
    }
}

/// How deeply failures are nested within `e`.
pub open spec fn err_depth(e: ParseError) -> int
    decreases e, 0int, 0int,
{
    match e.failure_type {
        ParseErrorType::NoMoreTokens => 0,
        ParseErrorType::ParsedButUnmatching { .. } => 0,
        ParseErrorType::ConjunctBranchParsingFailure { err_source, .. } => 1 + err_depth(
            *err_source,
        ),
        ParseErrorType::DisjunctBranchParsingFailure { err_source } => 1 + depth_list(
            err_source@,
        ),
    }
}

/// The deepest nesting among a list of failures.
pub open spec fn depth_list(es: Seq<ParseError>) -> int
    decreases es, 1int, es.len(),
{
    if es.len() == 0 {
        0
    } else {
        let d0 = err_depth(es[0]);
        let dr = depth_list(es.drop_first());
        if d0 >= dr {
            d0
        } else {
            dr
        }
    }
}

proof fn lemma_depth_nonneg(e: ParseError)
    ensures
        err_depth(e) >= 0,
    decreases e, 0int, 0int,
{
    match e.failure_type {
        ParseErrorType::ConjunctBranchParsingFailure { err_source, .. } => {
            lemma_depth_nonneg(*err_source);
        },
        ParseErrorType::DisjunctBranchParsingFailure { err_source } => {
            lemma_depth_list_nonneg(err_source@);
        },
        _ => {},
    }
}

proof fn lemma_depth_list_nonneg(es: Seq<ParseError>)
    ensures
        depth_list(es) >= 0,
    decreases es, 1int, es.len(),
{
    if es.len() > 0 {
        lemma_depth_nonneg(es[0]);
        lemma_depth_list_nonneg(es.drop_first());
    }
}

proof fn lemma_depth_list_elem(es: Seq<ParseError>, i: int)
    requires
        0 <= i < es.len(),
    ensures
        err_depth(es[i]) <= depth_list(es),
    decreases es, 1int, es.len(),
{
    if i > 0 {
        lemma_depth_list_elem(es.drop_first(), i - 1);
        assert(es.drop_first()[i - 1] == es[i]);
    } else {
        lemma_depth_list_nonneg(es.drop_first());
    }
}

/// `n` tab characters, as text.
fn tabs(n: usize) -> (s: String)
    ensures
        s@ == tab_seq(n as int),
{
    let mut s = String::new();
    let mut i: usize = 0;
    proof {
        reveal_strlit("\t");
    }
    while i < n
        invariant
            0 <= i <= n,
            s@ == tab_seq(i as int),
        decreases n - i,
    {
        s.append("\t");
        proof {
            reveal_strlit("\t");
            assert(s@ =~= tab_seq(i + 1));
        }
        i = i + 1;
    }
    s
}

impl ParseError {
    /// The indented, human-readable trace of this failure: each nesting
    /// level one tab deeper; every branch of a failed choice is rendered, in
    /// attempt order, so a reader can see all the ways the parse was tried
    /// and why each attempt stopped.
    pub fn stringify(&self, indentation_level: usize) -> (r: String)
        requires
            self.wf(),
            indentation_level + err_depth(*self) <= usize::MAX,
        ensures
            r@ == render_spec(*self, indentation_level as int),
        decreases *self,
    {
        proof {
            lemma_depth_nonneg(*self);
        }
        match &self.failure_type {
            ParseErrorType::NoMoreTokens => {
                let mut s = tabs(indentation_level);
                s.append("Ran out of tokens\n");
                s
            },
            ParseErrorType::ParsedButUnmatching { err_msg } => {
                let mut s = tabs(indentation_level);
                s.append(err_msg.as_str());
                s
            },
            ParseErrorType::ConjunctBranchParsingFailure { successes, err_source } => {
                let mut s = tabs(indentation_level);
                s.append("Failed: ");
                s.append(self.type_label);
                s.append(":\n");
                proof {
                    lemma_depth_nonneg(**err_source);
                }
                let mut i: usize = 0;
                let n = successes.len();
                while i < n
                    invariant
                        0 <= i <= n,
                        n == successes@.len(),
                        indentation_level + 1 <= usize::MAX,
                        s@ == tab_seq(indentation_level as int) + "Failed: "@
                            + self.type_label@ + ":\n"@ + render_successes(
                            successes@.take(i as int),
                            indentation_level as int + 1,
                        ),
                    decreases n - i,
                {
                    if i > 0 {
                        s.append("\n");
                    }
                    let t = tabs(indentation_level + 1);
                    s.append(t.as_str());
                    s.append(" Success: ");
                    s.append(successes[i].as_str());
                    proof {
                        assert(successes@.take(i as int + 1).drop_last() =~= successes@.take(
                            i as int,
                        ));
                        assert(successes@.take(i as int + 1).last() == successes@[i as int]);
                    }
                    i = i + 1;
                }
                proof {
                    assert(successes@.take(n as int) =~= successes@);
                    lemma_depth_nonneg(**err_source);
                }
                s.append("\n");
                let inner = err_source.stringify(indentation_level + 1);
                s.append(inner.as_str());
                s
            },
            ParseErrorType::DisjunctBranchParsingFailure { err_source } => {
                let mut s = tabs(indentation_level);
                s.append("Failed: ");
                s.append(self.type_label);
                s.append(":\n");
                let mut i: usize = 0;
                let n = err_source.len();
                while i < n
                    invariant
                        0 <= i <= n,
                        n == err_source@.len(),
                        self.wf(),
                        self.failure_type matches ParseErrorType::DisjunctBranchParsingFailure {
                            err_source: es,
                        } && es == *err_source,
                        indentation_level + err_depth(*self) <= usize::MAX,
                        err_depth(*self) == 1 + depth_list(err_source@),
                        s@ == tab_seq(indentation_level as int) + "Failed: "@
                            + self.type_label@ + ":\n"@ + render_list(
                            err_source@.take(i as int),
                            indentation_level as int + 1,
                        ),
                    decreases n - i,
                {
                    if i > 0 {
                        s.append("\n");
                    }
                    proof {
                        lemma_depth_list_elem(err_source@, i as int);
                        lemma_depth_nonneg(err_source@[i as int]);
                        lemma_depth_list_nonneg(err_source@);
                    }
                    let inner = err_source[i].stringify(indentation_level + 1);
                    s.append(inner.as_str());
                    proof {
                        assert(err_source@.take(i as int + 1).drop_last() =~= err_source@.take(
                            i as int,
                        ));
                        assert(err_source@.take(i as int + 1).last() == err_source@[i as int]);
                    }
                    i = i + 1;
                }
                proof {
                    assert(err_source@.take(n as int) =~= err_source@);
                }
                s
            },
        }
    }
}

} // verus!
