//! Recursive grammars.
//!
//! A [`Declaration`] is a placeholder for a grammar still being built:
//! [`Declaration::link`] yields a parser that refers to the grammar, and
//! [`Declaration::define`] closes the loop by installing the body.  The
//! binding is positional: `define` wraps the body in a `Rec` node, and every
//! link inside the body (outside any nested `Rec`) refers to that innermost
//! `Rec`.  A declaration can be defined only once: `define` consumes it.
//!
//! A parser holding links that no `define` has bound is not closed in the
//! sense of [`crate::Pattern::closed`], and running it is a contract
//! violation; [`crate::Parser::parse`] rules it out by precondition.

use vstd::prelude::*;
use core::marker::PhantomData;
use crate::{Parser, Pattern};
use crate::error::Error;

verus! {

/// A placeholder for a grammar under construction, enabling recursion.
pub struct Declaration<T, M, E: Error<T>> {
    pub marker: PhantomData<(T, M, E)>,
}

impl<T, M, E: Error<T>> Declaration<T, M, E> {
    /// A parser that refers to this declaration's grammar: inside the body
    /// handed to [`Declaration::define`], it parses the whole recursive
    /// grammar.
    pub fn link(&self) -> (r: Parser<T, M, E>)
        ensures
            r.pat == Pattern::<T, M, E>::Link,
    {
        Parser { pat: Pattern::Link }
    }

    /// Install `parser` as this declaration's grammar, binding every link
    /// in it, and return the finished recursive parser.
    pub fn define(self, parser: Parser<T, M, E>) -> (r: Parser<T, M, E>)
        ensures
            r.pat == Pattern::Rec(Box::new(parser.pat)),
    {
        Parser { pat: Pattern::Rec(Box::new(parser.pat)) }
    }
}

/// A fresh, empty declaration.
pub fn declare<T, M, E: Error<T>>() -> (r: Declaration<T, M, E>) {
    Declaration { marker: PhantomData }
}

/// Build a recursive grammar in one step: `f` receives the declaration and
/// may use its links inside the body it returns; the body is then installed
/// with [`Declaration::define`].
pub fn recursive<T, M, E, F>(f: F) -> (r: Parser<T, M, E>)
    where
        E: Error<T>,
        F: FnOnce(&Declaration<T, M, E>) -> Parser<T, M, E>,
    requires
        forall|d: Declaration<T, M, E>| #[trigger] call_requires(f, (&d,)),
    ensures
        exists|d: Declaration<T, M, E>, q: Parser<T, M, E>|
            #[trigger] call_ensures(f, (&d,), q) && r.pat == Pattern::Rec(Box::new(q.pat)),
{
    let declaration = declare();
    let parser = f(&declaration);
    declaration.define(parser)
}

} // verus!
