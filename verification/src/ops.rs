//! The combinator operators: each builds a new parser around this one.
//!
//! Every method returns a parser whose pattern is the corresponding
//! combinator node; what that node means is [`crate::interp::parse_spec`].

use vstd::prelude::*;
use crate::{Parser, Pattern};
use crate::error::Error;
use crate::value::Value;

verus! {

impl<T, M, E: Error<T>> Parser<T, M, E> {
    /// Transform the output through the mapper: on success the output
    /// becomes `m.spec_apply` of it; failures pass through untouched.
    pub fn map(self, m: M) -> (r: Self)
        ensures
            r.pat == Pattern::MapVal(Box::new(self.pat), m),
    {
        Parser { pat: Pattern::MapVal(Box::new(self.pat), m) }
    }

    /// Like [`Parser::map`], but the mapper also receives the span of the
    /// region this parser consumed.
    pub fn map_with_span(self, m: M) -> (r: Self)
        ensures
            r.pat == Pattern::MapSpan(Box::new(self.pat), m),
    {
        Parser { pat: Pattern::MapSpan(Box::new(self.pat), m) }
    }

    /// Wrap the output into a one-element list, ready for [`Parser::chain`].
    pub fn chained(self) -> (r: Self)
        ensures
            r.pat == Pattern::Chained(Box::new(self.pat)),
    {
        Parser { pat: Pattern::Chained(Box::new(self.pat)) }
    }

    /// Fold an output of shape `Pair(init, List(items))` from the left,
    /// combining with `m.spec_combine`; any other shape passes through.
    pub fn reduce_left(self, m: M) -> (r: Self)
        ensures
            r.pat == Pattern::ReduceLeft(Box::new(self.pat), m),
    {
        Parser { pat: Pattern::ReduceLeft(Box::new(self.pat), m) }
    }

    /// Fold an output of shape `Pair(List(items), init)` from the right,
    /// combining with `m.spec_combine`; any other shape passes through.
    pub fn reduce_right(self, m: M) -> (r: Self)
        ensures
            r.pat == Pattern::ReduceRight(Box::new(self.pat), m),
    {
        Parser { pat: Pattern::ReduceRight(Box::new(self.pat), m) }
    }

    /// Replace the output with a constant.
    pub fn to(self, out: Value<T>) -> (r: Self)
        ensures
            r.pat == Pattern::To(Box::new(self.pat), out),
    {
        Parser { pat: Pattern::To(Box::new(self.pat), out) }
    }

    /// Transform every error through the mapper, in the failure of a failed
    /// parse and in the residual of a successful one alike.
    pub fn map_err(self, m: M) -> (r: Self)
        ensures
            r.pat == Pattern::MapErr(Box::new(self.pat), m),
    {
        Parser { pat: Pattern::MapErr(Box::new(self.pat), m) }
    }

    /// Annotate every error with the context `ctx`.
    pub fn context(self, ctx: E::Context) -> (r: Self)
        ensures
            r.pat == Pattern::Context(Box::new(self.pat), ctx),
    {
        Parser { pat: Pattern::Context(Box::new(self.pat), ctx) }
    }

    /// Run this parser, then `other`, pairing the outputs.  If `other`
    /// fails, the stream is restored to before this parser ran.
    pub fn then(self, other: Self) -> (r: Self)
        ensures
            r.pat == Pattern::Then(Box::new(self.pat), Box::new(other.pat)),
    {
        Parser { pat: Pattern::Then(Box::new(self.pat), Box::new(other.pat)) }
    }

    /// Run this parser, then `other`, concatenating the outputs as lists:
    /// a `List` output contributes its elements, any other output itself.
    pub fn chain(self, other: Self) -> (r: Self)
        ensures
            r.pat == Pattern::Chain(Box::new(self.pat), Box::new(other.pat)),
    {
        Parser { pat: Pattern::Chain(Box::new(self.pat), Box::new(other.pat)) }
    }

    /// Ordered choice: run this parser; only where it fails, run `other`
    /// from the same position.  Failures of both branches merge by the
    /// furthest-position rule.
    pub fn or(self, other: Self) -> (r: Self)
        ensures
            r.pat == Pattern::Or(Box::new(self.pat), Box::new(other.pat)),
    {
        Parser { pat: Pattern::Or(Box::new(self.pat), Box::new(other.pat)) }
    }

    /// Run this parser, then `other`, keeping only `other`'s output.
    pub fn padding_for(self, other: Self) -> (r: Self)
        ensures
            r.pat == Pattern::PaddingFor(Box::new(self.pat), Box::new(other.pat)),
    {
        Parser { pat: Pattern::PaddingFor(Box::new(self.pat), Box::new(other.pat)) }
    }

    /// Run this parser, then `other`, keeping only this parser's output.
    pub fn padded_by(self, other: Self) -> (r: Self)
        ensures
            r.pat == Pattern::PaddedBy(Box::new(self.pat), Box::new(other.pat)),
    {
        Parser { pat: Pattern::PaddedBy(Box::new(self.pat), Box::new(other.pat)) }
    }

    /// Zero or more repetitions, greedy: outputs accumulate until a failure,
    /// which becomes the residual.  Never fails.  An iteration that
    /// consumes nothing ends the repetition.
    pub fn repeated(self) -> (r: Self)
        ensures
            r.pat == Pattern::Repeated(Box::new(self.pat)),
    {
        Parser { pat: Pattern::Repeated(Box::new(self.pat)) }
    }

    /// Zero or more repetitions separated by `other`; a trailing separator
    /// is not consumed.  Never fails.
    pub fn separated_by(self, other: Self) -> (r: Self)
        ensures
            r.pat == Pattern::SeparatedBy(Box::new(self.pat), Box::new(other.pat)),
    {
        Parser { pat: Pattern::SeparatedBy(Box::new(self.pat), Box::new(other.pat)) }
    }

    /// One or more repetitions, greedy: fails exactly where the first
    /// repetition fails.
    pub fn once_or_more(self) -> (r: Self)
        ensures
            r.pat == Pattern::OnceOrMore(Box::new(self.pat)),
    {
        Parser { pat: Pattern::OnceOrMore(Box::new(self.pat)) }
    }

    /// Zero or one: success wraps the output in `Maybe(Some(..))`; failure
    /// turns into success with `Maybe(None)` and the failure as residual.
    pub fn or_not(self) -> (r: Self)
        ensures
            r.pat == Pattern::OrNot(Box::new(self.pat)),
    {
        Parser { pat: Pattern::OrNot(Box::new(self.pat)) }
    }
}

} // verus!
