//! Parser combinators over a typed token stream, with backtracking and
//! furthest-position error accumulation.
//!
//! A grammar is an immutable [`Pattern`] value built from primitive parsers
//! and combinator operators; [`Parser`] wraps a pattern and runs it over a
//! [`stream::Stream`] of tokens.  The meaning of every pattern is given by
//! one specification function, [`interp::parse_spec`], and the executable
//! interpreter [`interp::attempt`] is proved to follow it exactly: parsing
//! is deterministic, a failing parse leaves the stream where it was, and a
//! succeeding parse only moves it forward.

use vstd::prelude::*;

pub mod declare;
pub mod error;
pub mod fail;
pub mod interp;
pub mod laws;
pub mod mapper;
pub mod ops;
pub mod prelude;
pub mod primitives;
pub mod region;
pub mod span;
pub mod stream;
pub mod token;
pub mod value;

use crate::error::Error;
use crate::fail::Fail;
use crate::interp::parse_spec;
use crate::mapper::Mapper;
use crate::stream::Stream;
use crate::token::Token;
use crate::value::Value;

verus! {

/// A position in the input, as reported in failures.
pub type Index = u64;

/// The position reported for a failure at the end of the input.
pub const END_INDEX: Index = u64::MAX;

/// How many recursion unfoldings one parse may perform.  Each step through a
/// grammar built by `define` or `recursive` spends one unit; a parse that
/// exhausts the budget fails silently.  The budget is far beyond what any
/// terminating grammar reaches.
pub const PARSE_FUEL: u64 = u64::MAX;

/// What running a pattern returns: on success, the output together with
/// residual failure information gathered while exploring alternatives that
/// did not block success; on failure, the failure alone.
pub type ParseResult<O, E> = Result<(O, Fail<E>), Fail<E>>;

/// A grammar, as a value.
///
/// Every primitive parser and every combinator is one shape of this enum,
/// so grammars of any output structure share a single type and recursion
/// needs no late binding: `Rec` closes over its body and `Link` refers to
/// the innermost enclosing `Rec`.  `T` is the token type, `M` the
/// [`Mapper`] supplying user operations, `E` the error type.
///
/// Values of this type are built with the constructors in
/// [`primitives`], the methods in [`ops`], and [`declare`]; their meaning
/// is [`interp::parse_spec`].
pub enum Pattern<T, M, E: Error<T>> {
    /// Accept any one token, yielding it.
    Any,
    /// Succeed only at the end of the input, yielding `Unit`.
    End,
    /// Accept exactly this token.
    Just(T),
    /// Accept exactly this run of tokens, yielding the list of them.
    Exact(value::Items<T>),
    /// Accept one token the mapper's predicate allows, yielding it.
    Permit(M),
    /// Accept one token the mapper maps to `Some` output.
    PermitMap(M),
    /// Read one token, open it into child tokens through the mapper, and
    /// run the inner pattern over them as a fresh input.
    Nested(M, Box<Pattern<T, M, E>>),
    /// Transform the output through the mapper.
    MapVal(Box<Pattern<T, M, E>>, M),
    /// Transform the output through the mapper, handing it the span of the
    /// consumed region as well.
    MapSpan(Box<Pattern<T, M, E>>, M),
    /// Transform every error through the mapper, in failures and residuals
    /// alike.
    MapErr(Box<Pattern<T, M, E>>, M),
    /// Annotate every error with a context value.
    Context(Box<Pattern<T, M, E>>, E::Context),
    /// Replace the output with a constant.
    To(Box<Pattern<T, M, E>>, Value<T>),
    /// Run two patterns in sequence, pairing their outputs.
    Then(Box<Pattern<T, M, E>>, Box<Pattern<T, M, E>>),
    /// Run two patterns in sequence, concatenating their outputs as lists.
    Chain(Box<Pattern<T, M, E>>, Box<Pattern<T, M, E>>),
    /// Ordered choice: the second pattern runs only where the first fails.
    Or(Box<Pattern<T, M, E>>, Box<Pattern<T, M, E>>),
    /// Run two patterns in sequence, keeping only the second output.
    PaddingFor(Box<Pattern<T, M, E>>, Box<Pattern<T, M, E>>),
    /// Run two patterns in sequence, keeping only the first output.
    PaddedBy(Box<Pattern<T, M, E>>, Box<Pattern<T, M, E>>),
    /// Zero or more repetitions, greedy; never fails.
    Repeated(Box<Pattern<T, M, E>>),
    /// One or more repetitions, greedy; fails where the first fails.
    OnceOrMore(Box<Pattern<T, M, E>>),
    /// Zero or more repetitions separated by a second pattern; never
    /// consumes a trailing separator.
    SeparatedBy(Box<Pattern<T, M, E>>, Box<Pattern<T, M, E>>),
    /// Zero or one: a failure turns into success with `Maybe(None)`.
    OrNot(Box<Pattern<T, M, E>>),
    /// Wrap the output into a one-element list.
    Chained(Box<Pattern<T, M, E>>),
    /// Fold an output of shape `Pair(init, List(items))` from the left with
    /// the mapper.
    ReduceLeft(Box<Pattern<T, M, E>>, M),
    /// Fold an output of shape `Pair(List(items), init)` from the right
    /// with the mapper.
    ReduceRight(Box<Pattern<T, M, E>>, M),
    /// A recursive grammar: inside the body, `Link` stands for the whole
    /// `Rec` pattern.
    Rec(Box<Pattern<T, M, E>>),
    /// A reference to the innermost enclosing `Rec`.
    Link,
}

/// The user-facing wrapper around a [`Pattern`]: all combinator methods
/// live on it, and [`Parser::parse`] runs it over an input.
pub struct Parser<T, M, E: Error<T>> {
    pub pat: Pattern<T, M, E>,
}

impl<T, M, E: Error<T>> Parser<T, M, E> {
    /// Wrap a pattern.
    pub fn from_pat(pat: Pattern<T, M, E>) -> (r: Self)
        ensures
            r.pat == pat,
    {
        Parser { pat }
    }

    /// A structurally identical, independent copy.
    pub fn cloned(&self) -> (r: Self)
        where T: Token, M: Mapper<T, E>,
        ensures
            r == self,
    {
        Parser { pat: self.pat.cloned() }
    }

    /// Run the pattern over `inputs` from the start, returning the raw
    /// result: the output with its residual failure, or the failure.
    ///
    /// A grammar whose `Link`s are all bound by a `Rec` never reaches the
    /// bare-`Link` case; running an undefined link is a contract violation,
    /// which this library rules out by precondition rather than by
    /// panicking.
    pub fn parse_inner(&self, inputs: &[T]) -> (r: ParseResult<Value<T>, E>)
        where T: Token, M: Mapper<T, E>,
        requires
            self.pat.closed(),
        ensures
            r == parse_spec(self.pat, inputs@, 0, PARSE_FUEL as nat).0,
    {
        let mut stream = Stream::new(inputs);
        interp::attempt(&self.pat, &mut stream, PARSE_FUEL)
    }

    /// Parse `inputs`: the output on success, the list of collected errors
    /// on failure.  Success and failure, the output, the errors and their
    /// positions are all exactly those of [`interp::parse_spec`] on the
    /// same input.
    pub fn parse(&self, inputs: &[T]) -> (r: Result<Value<T>, Vec<E>>)
        where T: Token, M: Mapper<T, E>,
        requires
            self.pat.closed(),
        ensures
            ({
                let step = parse_spec(self.pat, inputs@, 0, PARSE_FUEL as nat).0;
                &&& (step matches Ok(p) ==> r == Ok::<Value<T>, Vec<E>>(p.0))
                &&& (step matches Err(f) ==> r matches Err(es) && es@ == f.spec_errors())
            }),
    {
        match self.parse_inner(inputs) {
            Ok((out, _)) => Ok(out),
            Err(fail) => Err(fail.collect()),
        }
    }

    /// An opaque carrier of the same grammar.  Patterns are already plain
    /// values of one type, so no erasure is needed: the parser itself is
    /// returned.
    pub fn boxed(self) -> (r: Self)
        ensures
            r == self,
    {
        self
    }
}

} // verus!
