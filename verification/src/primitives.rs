//! The leaf parsers.
//!
//! Each consumes zero or one tokens (or, for `seq`, a fixed run), and fails
//! at the end of the input with an unexpected-end error at the sentinel
//! position.

use vstd::prelude::*;
use crate::{Parser, Pattern};
use crate::error::Error;
use crate::token::{tokens_to_items, Token};

verus! {

/// Accept any one token, yielding it; fail only at the end of the input.
pub fn any<T, M, E: Error<T>>() -> (r: Parser<T, M, E>)
    ensures
        r.pat == Pattern::<T, M, E>::Any,
{
    Parser { pat: Pattern::Any }
}

/// Succeed only at the end of the input, yielding `Unit`; otherwise fail
/// with an expected-end error at the offending token.
pub fn end<T, M, E: Error<T>>() -> (r: Parser<T, M, E>)
    ensures
        r.pat == Pattern::<T, M, E>::End,
{
    Parser { pat: Pattern::End }
}

/// Accept exactly the token `item`, yielding it; on another token fail with
/// an unexpected-symbol error annotated with `item` as the expected thing.
pub fn just<T, M, E: Error<T>>(item: T) -> (r: Parser<T, M, E>)
    ensures
        r.pat == Pattern::<T, M, E>::Just(item),
{
    Parser { pat: Pattern::Just(item) }
}

/// Accept exactly the run of tokens `items`, yielding the list of them;
/// fail at the first mismatch or at a premature end of the input.
pub fn seq<T: Token, M, E: Error<T>>(items: Vec<T>) -> (r: Parser<T, M, E>)
    ensures
        r.pat matches Pattern::Exact(l) && l.seq() == items@,
{
    let l = tokens_to_items(&items, 0);
    proof {
        assert(items@.skip(0) =~= items@);
    }
    Parser { pat: Pattern::Exact(l) }
}

/// Read one token, open it into child tokens through the mapper's
/// `spec_child_tokens`, and run `inner` over them as a fresh input.  A
/// token that opens into nothing fails with an unexpected-symbol error;
/// a failure of `inner` is reported shifted to the outer token's position.
pub fn nested_parse<T, M, E: Error<T>>(m: M, inner: Parser<T, M, E>) -> (r: Parser<T, M, E>)
    ensures
        r.pat == Pattern::Nested(m, Box::new(inner.pat)),
{
    Parser { pat: Pattern::Nested(m, Box::new(inner.pat)) }
}

/// Accept one token that the mapper maps to `Some` output, yielding that
/// output; on `None` fail with an unexpected-symbol error.
pub fn permit_map<T, M, E: Error<T>>(m: M) -> (r: Parser<T, M, E>)
    ensures
        r.pat == Pattern::<T, M, E>::PermitMap(m),
{
    Parser { pat: Pattern::PermitMap(m) }
}

/// Accept one token that the mapper's predicate allows, yielding it; on a
/// refused token fail with an unexpected-symbol error.
pub fn permit<T, M, E: Error<T>>(m: M) -> (r: Parser<T, M, E>)
    ensures
        r.pat == Pattern::<T, M, E>::Permit(m),
{
    Parser { pat: Pattern::Permit(m) }
}

} // verus!
