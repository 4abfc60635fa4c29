//! The failure-value capability and the two error types the library ships.

use vstd::prelude::*;
use core::marker::PhantomData;
use crate::span::Bounds;
use crate::token::Token;
use crate::value::Items;

verus! {

/// The capability a user-chosen error value must offer.
///
/// Every constructor and operation comes in a specification/executable pair,
/// so that the meaning of a whole parse can be stated as one specification
/// function.  `T` is the token type; the span handed to the constructors is
/// the index interval of the offending region.
pub trait Error<T>: Sized {
    /// What [`Error::context`] annotates an error with.
    type Context;

    /// The error built by [`Error::unexpected_sym`].
    spec fn spec_unexpected_sym(sym: T, at: Option<Bounds>) -> Self;

    /// The error built by [`Error::unexpected_end`].
    spec fn spec_unexpected_end() -> Self;

    /// The error built by [`Error::expected_end`].
    spec fn spec_expected_end(sym: T, at: Option<Bounds>) -> Self;

    /// The error built by [`Error::expected`].
    spec fn spec_expected(self, sym: T) -> Self;

    /// The error built by [`Error::merge`].
    spec fn spec_merge(self, other: Self) -> Self;

    /// The error built by [`Error::context`].
    spec fn spec_context(self, ctx: Self::Context) -> Self;

    /// An unexpected symbol `sym` was found in the region `at`.
    fn unexpected_sym(sym: &T, at: Option<Bounds>) -> (r: Self)
        ensures
            r == Self::spec_unexpected_sym(*sym, at),
    ;

    /// The input ended where a token was needed.
    fn unexpected_end() -> (r: Self)
        ensures
            r == Self::spec_unexpected_end(),
    ;

    /// The input was expected to end, but `sym` was found in the region `at`.
    fn expected_end(sym: &T, at: Option<Bounds>) -> (r: Self)
        ensures
            r == Self::spec_expected_end(*sym, at),
    ;

    /// Annotate the error with one more thing that would have been accepted.
    fn expected(self, sym: T) -> (r: Self)
        ensures
            r == self.spec_expected(sym),
    ;

    /// Merge with another error reported at the same position.
    fn merge(self, other: Self) -> (r: Self)
        ensures
            r == self.spec_merge(other),
    ;

    /// Annotate the error with the context it arose in.
    fn context(self, ctx: Self::Context) -> (r: Self)
        ensures
            r == self.spec_context(ctx),
    ;

    /// An identical copy of a context value.
    fn dup_context(ctx: &Self::Context) -> (r: Self::Context)
        ensures
            r == ctx,
    ;
}

/// The error type used when none is named.
pub type DefaultError<S> = EmptyError<S>;

/// An error that retains no information at all: useful for tests and for
/// grammars whose callers only care whether parsing succeeded.
#[derive(PartialEq, Eq, Debug)]
pub struct EmptyError<S>(pub PhantomData<S>);

impl<S> Error<S> for EmptyError<S> {
    type Context = ();

    open spec fn spec_unexpected_sym(sym: S, at: Option<Bounds>) -> Self {
        EmptyError(PhantomData)
    }

    open spec fn spec_unexpected_end() -> Self {
        EmptyError(PhantomData)
    }

    open spec fn spec_expected_end(sym: S, at: Option<Bounds>) -> Self {
        EmptyError(PhantomData)
    }

    open spec fn spec_expected(self, sym: S) -> Self {
        EmptyError(PhantomData)
    }

    open spec fn spec_merge(self, other: Self) -> Self {
        self
    }

    open spec fn spec_context(self, ctx: ()) -> Self {
        self
    }

    fn unexpected_sym(sym: &S, at: Option<Bounds>) -> (r: Self) {
        EmptyError(PhantomData)
    }

    fn unexpected_end() -> (r: Self) {
        EmptyError(PhantomData)
    }

    fn expected_end(sym: &S, at: Option<Bounds>) -> (r: Self) {
        EmptyError(PhantomData)
    }

    fn expected(self, sym: S) -> (r: Self) {
        EmptyError(PhantomData)
    }

    fn merge(self, other: Self) -> (r: Self) {
        self
    }

    fn context(self, ctx: ()) -> (r: Self) {
        self
    }

    fn dup_context(ctx: &()) -> (r: ()) {
        ()
    }
}

/// An error that records what was found, where, and what was expected.
///
/// `expected` is `Some` (a list of acceptable tokens, possibly empty) after
/// `unexpected_sym` and `unexpected_end`, and `None` after `expected_end`:
/// the `None` stands for "the end of the input was the one thing expected"
/// and absorbs symbolic expectations merged into it only when the other side
/// also has none.
#[derive(PartialEq, Eq, Debug)]
pub struct SimpleError<T> {
    pub found: Option<T>,
    pub at: Option<Option<Bounds>>,
    pub expected: Option<Items<T>>,
}

impl<T: Token> Error<T> for SimpleError<T> {
    type Context = ();

    open spec fn spec_unexpected_sym(sym: T, at: Option<Bounds>) -> Self {
        SimpleError { found: Some(sym), at: Some(at), expected: Some(Items::Nil) }
    }

    open spec fn spec_unexpected_end() -> Self {
        SimpleError { found: None, at: None, expected: Some(Items::Nil) }
    }

    open spec fn spec_expected_end(sym: T, at: Option<Bounds>) -> Self {
        SimpleError { found: Some(sym), at: Some(at), expected: None }
    }

    open spec fn spec_expected(self, sym: T) -> Self {
        match self.expected {
            Some(things) => SimpleError {
                found: self.found,
                at: self.at,
                expected: Some(Items::Cons(sym, Box::new(things))),
            },
            None => self,
        }
    }

    open spec fn spec_merge(self, other: Self) -> Self {
        SimpleError {
            found: if self.found is Some {
                self.found
            } else {
                other.found
            },
            at: self.at,
            expected: match (self.expected, other.expected) {
                (None, None) => None,
                (Some(a), None) => Some(a),
                (None, Some(b)) => Some(b),
                (Some(a), Some(b)) => Some(a.concat_spec(b)),
            },
        }
    }

    open spec fn spec_context(self, ctx: ()) -> Self {
        self
    }

    fn unexpected_sym(sym: &T, at: Option<Bounds>) -> (r: Self) {
        SimpleError { found: Some(sym.dup()), at: Some(at), expected: Some(Items::Nil) }
    }

    fn unexpected_end() -> (r: Self) {
        SimpleError { found: None, at: None, expected: Some(Items::Nil) }
    }

    fn expected_end(sym: &T, at: Option<Bounds>) -> (r: Self) {
        SimpleError { found: Some(sym.dup()), at: Some(at), expected: None }
    }

    fn expected(self, sym: T) -> (r: Self) {
        match self.expected {
            Some(things) => SimpleError {
                found: self.found,
                at: self.at,
                expected: Some(Items::Cons(sym, Box::new(things))),
            },
            None => self,
        }
    }

    fn merge(self, other: Self) -> (r: Self) {
        SimpleError {
            found: match self.found {
                Some(f) => Some(f),
                None => other.found,
            },
            at: self.at,
            expected: match (self.expected, other.expected) {
                (None, None) => None,
                (Some(a), None) => Some(a),
                (None, Some(b)) => Some(b),
                (Some(a), Some(b)) => Some(a.append(b)),
            },
        }
    }

    fn context(self, ctx: ()) -> (r: Self) {
        self
    }

    fn dup_context(ctx: &()) -> (r: ()) {
        ()
    }
}

} // verus!
