//! The user-function capability.
//!
//! Combinators such as `map`, `permit` or `reduce_left` take a user-supplied
//! operation.  Because a pattern is plain data whose meaning is a
//! specification function, those operations cannot be closures: they are the
//! methods of one user-chosen type implementing [`Mapper`], each an
//! executable function tied to its own specification.  A grammar that needs
//! several different operations uses an enum whose variants select them.

use vstd::prelude::*;
use crate::error::Error;
use crate::span::Bounds;
use crate::value::Value;

verus! {

/// The operations a grammar may hand to its combinators.
///
/// `T` is the token type and `E` the error type.  Every method comes as a
/// specification/executable pair; a grammar that uses none of them can use
/// [`Unchanged`].
pub trait Mapper<T, E>: Sized {
    /// What [`Mapper::apply`] returns: the transformation used by `map`.
    spec fn spec_apply(&self, v: Value<T>) -> Value<T>;

    /// What [`Mapper::apply_with_span`] returns: the transformation used by
    /// `map_with_span`; `at` covers the consumed region.
    spec fn spec_apply_with_span(&self, v: Value<T>, at: Option<Bounds>) -> Value<T>;

    /// What [`Mapper::fix_err`] returns: the error transformation used by
    /// `map_err`.
    spec fn spec_fix_err(&self, e: E) -> E;

    /// What [`Mapper::combine`] returns: the folding step used by
    /// `reduce_left` and `reduce_right`.
    spec fn spec_combine(&self, a: Value<T>, b: Value<T>) -> Value<T>;

    /// What [`Mapper::allows`] returns: the predicate used by `permit`.
    spec fn spec_allows(&self, t: T) -> bool;

    /// What [`Mapper::filter`] returns: the partial map used by
    /// `permit_map`.
    spec fn spec_filter(&self, t: T) -> Option<Value<T>>;

    /// What [`Mapper::child_tokens`] returns: the tokens a compound token
    /// opens into, used by `nested_parse`.
    spec fn spec_child_tokens(&self, t: T) -> Option<Seq<T>>;

    /// Transform an output value.
    fn apply(&self, v: Value<T>) -> (r: Value<T>)
        ensures
            r == self.spec_apply(v),
    ;

    /// Transform an output value, given the region it was parsed from.
    fn apply_with_span(&self, v: Value<T>, at: Option<Bounds>) -> (r: Value<T>)
        ensures
            r == self.spec_apply_with_span(v, at),
    ;

    /// Transform an error value.
    fn fix_err(&self, e: E) -> (r: E)
        ensures
            r == self.spec_fix_err(e),
    ;

    /// Fold two output values into one.
    fn combine(&self, a: Value<T>, b: Value<T>) -> (r: Value<T>)
        ensures
            r == self.spec_combine(a, b),
    ;

    /// Whether a token is acceptable.
    fn allows(&self, t: &T) -> (r: bool)
        ensures
            r == self.spec_allows(*t),
    ;

    /// Turn an acceptable token into an output, or reject it.
    fn filter(&self, t: T) -> (r: Option<Value<T>>)
        ensures
            r == self.spec_filter(t),
    ;

    /// The tokens a compound token opens into, if it opens at all.
    fn child_tokens(&self, t: T) -> (r: Option<Vec<T>>)
        ensures
            match r {
                Some(ts) => self.spec_child_tokens(t) == Some(ts@),
                None => self.spec_child_tokens(t) is None,
            },
    ;

    /// An identical copy of the mapper.
    fn dup(&self) -> (r: Self)
        ensures
            r == self,
    ;
}

/// The mapper that changes nothing: outputs, errors and tokens pass through
/// untouched, every token is acceptable, and no token opens into children.
#[derive(PartialEq, Eq, Clone, Copy, Debug)]
pub struct Unchanged;

impl<T, E: Error<T>> Mapper<T, E> for Unchanged {
    open spec fn spec_apply(&self, v: Value<T>) -> Value<T> {
        v
    }

    open spec fn spec_apply_with_span(&self, v: Value<T>, at: Option<Bounds>) -> Value<T> {
        v
    }

    open spec fn spec_fix_err(&self, e: E) -> E {
        e
    }

    open spec fn spec_combine(&self, a: Value<T>, b: Value<T>) -> Value<T> {
        a
    }

    open spec fn spec_allows(&self, t: T) -> bool {
        true
    }

    open spec fn spec_filter(&self, t: T) -> Option<Value<T>> {
        Some(Value::Tok(t))
    }

    open spec fn spec_child_tokens(&self, t: T) -> Option<Seq<T>> {
        None
    }

    fn apply(&self, v: Value<T>) -> (r: Value<T>) {
        v
    }

    fn apply_with_span(&self, v: Value<T>, at: Option<Bounds>) -> (r: Value<T>) {
        v
    }

    fn fix_err(&self, e: E) -> (r: E) {
        e
    }

    fn combine(&self, a: Value<T>, b: Value<T>) -> (r: Value<T>) {
        a
    }

    fn allows(&self, t: &T) -> (r: bool) {
        true
    }

    fn filter(&self, t: T) -> (r: Option<Value<T>>) {
        Some(Value::Tok(t))
    }

    fn child_tokens(&self, t: T) -> (r: Option<Vec<T>>) {
        None
    }

    fn dup(&self) -> (r: Self) {
        Unchanged
    }
}

} // verus!
