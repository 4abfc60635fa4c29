//! The capability a token type must offer: decidable equality and copying,
//! each tied to its specification.

use vstd::prelude::*;
use crate::value::Items;

verus! {

/// A token: a value that primitives such as `just` can compare and that the
/// interpreter can copy out of the input.
pub trait Token: Sized {
    /// Equality between tokens, exactly the mathematical equality of the
    /// values.
    fn tok_eq(&self, other: &Self) -> (r: bool)
        ensures
            r == (self == other),
    ;

    /// An identical copy of the token.
    fn dup(&self) -> (r: Self)
        ensures
            r == self,
    ;
}

/// An identical copy of a list of tokens.
pub fn dup_token_items<T: Token>(toks: &Items<T>) -> (r: Items<T>)
    ensures
        r == toks,
    decreases toks,
{
    match toks {
        Items::Nil => Items::Nil,
        Items::Cons(head, tail) => Items::Cons(head.dup(), Box::new(dup_token_items(tail))),
    }
}

/// The tokens of a vector, as a list, front first.
pub fn tokens_to_items<T: Token>(toks: &Vec<T>, from: usize) -> (r: Items<T>)
    requires
        from <= toks@.len(),
    ensures
        r.seq() == toks@.skip(from as int),
    decreases toks@.len() - from,
{
    if from == toks.len() {
        proof {
            assert(toks@.skip(from as int) =~= Seq::<T>::empty());
        }
        Items::Nil
    } else {
        let rest = tokens_to_items(toks, from + 1);
        proof {
            assert(seq![toks@[from as int]] + toks@.skip(from + 1 as int) =~= toks@.skip(
                from as int,
            ));
        }
        Items::Cons(toks[from].dup(), Box::new(rest))
    }
}

impl Token for char {
    fn tok_eq(&self, other: &Self) -> (r: bool) {
        *self == *other
    }

    fn dup(&self) -> (r: Self) {
        *self
    }
}

impl Token for u8 {
    fn tok_eq(&self, other: &Self) -> (r: bool) {
        *self == *other
    }

    fn dup(&self) -> (r: Self) {
        *self
    }
}

impl Token for u16 {
    fn tok_eq(&self, other: &Self) -> (r: bool) {
        *self == *other
    }

    fn dup(&self) -> (r: Self) {
        *self
    }
}

impl Token for u32 {
    fn tok_eq(&self, other: &Self) -> (r: bool) {
        *self == *other
    }

    fn dup(&self) -> (r: Self) {
        *self
    }
}

impl Token for u64 {
    fn tok_eq(&self, other: &Self) -> (r: bool) {
        *self == *other
    }

    fn dup(&self) -> (r: Self) {
        *self
    }
}

impl Token for usize {
    fn tok_eq(&self, other: &Self) -> (r: bool) {
        *self == *other
    }

    fn dup(&self) -> (r: Self) {
        *self
    }
}

impl Token for i32 {
    fn tok_eq(&self, other: &Self) -> (r: bool) {
        *self == *other
    }

    fn dup(&self) -> (r: Self) {
        *self
    }
}

impl Token for i64 {
    fn tok_eq(&self, other: &Self) -> (r: bool) {
        *self == *other
    }

    fn dup(&self) -> (r: Self) {
        *self
    }
}

impl Token for bool {
    fn tok_eq(&self, other: &Self) -> (r: bool) {
        *self == *other
    }

    fn dup(&self) -> (r: Self) {
        *self
    }
}

} // verus!
