//! The universal output value of a parse, and the cons-list it builds on.
//!
//! Combinators are enumerated as data, so every pattern produces one output
//! type: a [`Value`] tree over the token type.  Both layers are plain
//! datatypes, so the same constructors serve executable code and
//! specifications alike.

use vstd::prelude::*;

verus! {

/// A linked list of `A`, usable both in executable code and in
/// specifications.
#[derive(PartialEq, Eq, Debug)]
pub enum Items<A> {
    Nil,
    Cons(A, Box<Items<A>>),
}

impl<A> Items<A> {
    /// The sequence of elements, front first.
    pub open spec fn seq(self) -> Seq<A>
        decreases self,
    {
        match self {
            Items::Nil => Seq::empty(),
            Items::Cons(head, tail) => seq![head] + tail.seq(),
        }
    }

    /// The concatenation of two lists, as a specification.
    pub open spec fn concat_spec(self, other: Items<A>) -> Items<A>
        decreases self,
    {
        match self {
            Items::Nil => other,
            Items::Cons(head, tail) => Items::Cons(head, Box::new(tail.concat_spec(other))),
        }
    }

    /// Concatenate two lists.
    pub fn append(self, other: Items<A>) -> (r: Items<A>)
        ensures
            r == self.concat_spec(other),
        decreases self,
    {
        match self {
            Items::Nil => other,
            Items::Cons(head, tail) => {
                let rest = tail.append(other);
                Items::Cons(head, Box::new(rest))
            }
        }
    }

    /// Move the elements into a vector, front first.
    pub fn into_vec(self) -> (r: Vec<A>)
        ensures
            r@ == self.seq(),
    {
        let mut out: Vec<A> = Vec::new();
        let mut rest = self;
        loop
            invariant
                out@ + rest.seq() == self.seq(),
            decreases rest,
        {
            match rest {
                Items::Nil => {
                    proof {
                        assert(out@ =~= out@ + Seq::<A>::empty());
                    }
                    return out;
                }
                Items::Cons(head, tail) => {
                    proof {
                        assert(out@ + rest.seq() =~= (out@ + seq![head]) + tail.seq());
                    }
                    out.push(head);
                    rest = *tail;
                }
            }
        }
    }
}

/// The output of a parse: a tree of tokens and groupings.
///
/// Primitives yield `Unit` or `Tok`; `then` yields `Pair`; the repetition
/// combinators yield `List`; `or_not` yields `Maybe`.
#[derive(PartialEq, Eq, Debug)]
pub enum Value<T> {
    /// No information, as from `end`.
    Unit,
    /// A single token, as from `any` or `just`.
    Tok(T),
    /// Two outputs in sequence, as from `then`.
    Pair(Box<Value<T>>, Box<Value<T>>),
    /// Zero or more outputs, as from `repeated` or `seq`.
    List(Box<Items<Value<T>>>),
    /// An optional output, as from `or_not`.
    Maybe(Option<Box<Value<T>>>),
}

impl<T> Value<T> {
    /// A value seen as a run of items: a `List` contributes its elements,
    /// anything else stands alone.  `chain` concatenates on this view.
    pub open spec fn spec_items(self) -> Items<Value<T>> {
        match self {
            Value::List(items) => *items,
            other => Items::Cons(other, Box::new(Items::Nil)),
        }
    }

    /// The run of items of [`Value::spec_items`].
    pub fn into_items(self) -> (r: Items<Value<T>>)
        ensures
            r == self.spec_items(),
    {
        match self {
            Value::List(items) => *items,
            other => Items::Cons(other, Box::new(Items::Nil)),
        }
    }

    /// An identical copy of the value.
    pub fn cloned(&self) -> (r: Self)
        where T: crate::token::Token
        ensures
            r == self,
        decreases self,
    {
        match self {
            Value::Unit => Value::Unit,
            Value::Tok(t) => Value::Tok(t.dup()),
            Value::Pair(a, b) => Value::Pair(Box::new(a.cloned()), Box::new(b.cloned())),
            Value::List(items) => Value::List(Box::new(cloned_value_items(items))),
            Value::Maybe(opt) => match opt {
                Some(v) => Value::Maybe(Some(Box::new(v.cloned()))),
                None => Value::Maybe(None),
            },
        }
    }
}

/// The list holding the elements of a sequence, front first.
pub open spec fn items_of_seq<A>(s: Seq<A>) -> Items<A>
    decreases s.len(),
{
    if s.len() == 0 {
        Items::Nil
    } else {
        Items::Cons(s[0], Box::new(items_of_seq(s.skip(1))))
    }
}

/// An identical copy of a list of values.
pub fn cloned_value_items<T: crate::token::Token>(items: &Items<Value<T>>) -> (r: Items<Value<T>>)
    ensures
        r == items,
    decreases items,
{
    match items {
        Items::Nil => Items::Nil,
        Items::Cons(head, tail) => Items::Cons(head.cloned(), Box::new(cloned_value_items(tail))),
    }
}

} // verus!
