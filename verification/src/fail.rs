//! The internal failure carrier: errors together with the furthest position
//! they were reported at.

use vstd::prelude::*;
use crate::Index;
use crate::error::Error;
use crate::mapper::Mapper;
use crate::value::Items;

verus! {

/// Failure information gathered while parsing.
///
/// `Silent` carries no information and counts as position `0` when compared;
/// `One` is a single error at a position; `Group` is several errors at or
/// before a position.
#[derive(PartialEq, Eq, Debug)]
pub enum Fail<E> {
    Silent,
    One(Index, E),
    Group(Index, Items<E>),
}

impl<E> Fail<E> {
    /// The furthest position this failure reaches: `0` when silent.
    pub open spec fn spec_furthest(self) -> Index {
        match self {
            Fail::Silent => 0,
            Fail::One(idx, _) => idx,
            Fail::Group(idx, _) => idx,
        }
    }

    /// The errors carried, in order.
    pub open spec fn spec_errors(self) -> Seq<E> {
        match self {
            Fail::Silent => Seq::empty(),
            Fail::One(_, err) => seq![err],
            Fail::Group(_, errs) => errs.seq(),
        }
    }

    /// The merge of two failures: the one that got further wins; two single
    /// errors at the same position merge into one.  A silent failure counts
    /// as position `0`, so anything at all beats it.
    pub open spec fn spec_max<T>(self, other: Self) -> Self where E: Error<T> {
        match (self, other) {
            (Fail::One(a_idx, a_err), Fail::One(b_idx, b_err)) => {
                if a_idx > b_idx {
                    Fail::One(a_idx, a_err)
                } else if a_idx < b_idx {
                    Fail::One(b_idx, b_err)
                } else {
                    Fail::One(a_idx, a_err.spec_merge(b_err))
                }
            }
            (this, that) => {
                if this.spec_furthest() > that.spec_furthest() {
                    this
                } else {
                    that
                }
            }
        }
    }

    /// Every error transformed by the mapper, positions kept.
    pub open spec fn spec_map<T, M: Mapper<T, E>>(self, m: M) -> Self {
        match self {
            Fail::Silent => Fail::Silent,
            Fail::One(idx, err) => Fail::One(idx, m.spec_fix_err(err)),
            Fail::Group(idx, errs) => Fail::Group(idx, Self::spec_map_items(errs, m)),
        }
    }

    /// Every error in a list transformed by the mapper.
    pub open spec fn spec_map_items<T, M: Mapper<T, E>>(errs: Items<E>, m: M) -> Items<E>
        decreases errs,
    {
        match errs {
            Items::Nil => Items::Nil,
            Items::Cons(err, rest) => Items::Cons(
                m.spec_fix_err(err),
                Box::new(Self::spec_map_items(*rest, m)),
            ),
        }
    }

    /// Every error annotated with the context `ctx`, positions kept.
    pub open spec fn spec_in_context<T>(self, ctx: E::Context) -> Self where E: Error<T> {
        match self {
            Fail::Silent => Fail::Silent,
            Fail::One(idx, err) => Fail::One(idx, err.spec_context(ctx)),
            Fail::Group(idx, errs) => Fail::Group(idx, Self::spec_context_items(errs, ctx)),
        }
    }

    /// Every error in a list annotated with the context `ctx`.
    pub open spec fn spec_context_items<T>(errs: Items<E>, ctx: E::Context) -> Items<E>
        where E: Error<T>
        decreases errs,
    {
        match errs {
            Items::Nil => Items::Nil,
            Items::Cons(err, rest) => Items::Cons(
                err.spec_context(ctx),
                Box::new(Self::spec_context_items(*rest, ctx)),
            ),
        }
    }

    /// The position shifted outward by `by`, saturating: a failure inside a
    /// nested input is reported relative to the token it came from, and the
    /// end-of-input sentinel stays the sentinel.
    pub open spec fn spec_shift(self, by: Index) -> Self {
        match self {
            Fail::Silent => Fail::Silent,
            Fail::One(idx, err) => Fail::One(Self::spec_shift_idx(idx, by), err),
            Fail::Group(idx, errs) => Fail::Group(Self::spec_shift_idx(idx, by), errs),
        }
    }

    /// Saturating addition of positions.
    pub open spec fn spec_shift_idx(idx: Index, by: Index) -> Index {
        if idx + by > u64::MAX {
            u64::MAX
        } else {
            (idx + by) as Index
        }
    }

    /// Shift the position outward by `by`, saturating.
    pub fn shift(self, by: Index) -> (r: Self)
        ensures
            r == self.spec_shift(by),
    {
        match self {
            Fail::Silent => Fail::Silent,
            Fail::One(idx, err) => Fail::One(Self::shift_idx(idx, by), err),
            Fail::Group(idx, errs) => Fail::Group(Self::shift_idx(idx, by), errs),
        }
    }

    /// Saturating addition of positions.
    pub fn shift_idx(idx: Index, by: Index) -> (r: Index)
        ensures
            r == Self::spec_shift_idx(idx, by),
    {
        if idx > u64::MAX - by {
            u64::MAX
        } else {
            idx + by
        }
    }

    /// No failure information.
    pub fn none() -> (r: Self)
        ensures
            r == Fail::<E>::Silent,
    {
        Fail::Silent
    }

    /// A single error at a position.
    pub fn one(idx: Index, err: E) -> (r: Self)
        ensures
            r == Fail::One(idx, err),
    {
        Fail::One(idx, err)
    }

    /// The furthest position this failure reaches.
    pub fn furthest_idx(&self) -> (r: Index)
        ensures
            r == self.spec_furthest(),
    {
        match self {
            Fail::Silent => 0,
            Fail::One(idx, _) => *idx,
            Fail::Group(idx, _) => *idx,
        }
    }

    /// Merge with another failure: the one that got further wins, and ties
    /// between single errors merge the errors.
    pub fn max<T>(self, other: Self) -> (r: Self)
        where E: Error<T>
        ensures
            r == self.spec_max(other),
    {
        match (self, other) {
            (Fail::One(a_idx, a_err), Fail::One(b_idx, b_err)) => {
                if a_idx > b_idx {
                    Fail::One(a_idx, a_err)
                } else if a_idx < b_idx {
                    Fail::One(b_idx, b_err)
                } else {
                    Fail::One(a_idx, a_err.merge(b_err))
                }
            }
            (this, that) => {
                if this.furthest_idx() > that.furthest_idx() {
                    this
                } else {
                    that
                }
            }
        }
    }

    /// Transform every error carried, keeping positions.
    pub fn map<T, M: Mapper<T, E>>(self, m: &M) -> (r: Self)
        ensures
            r == self.spec_map(*m),
    {
        match self {
            Fail::Silent => Fail::Silent,
            Fail::One(idx, err) => Fail::One(idx, m.fix_err(err)),
            Fail::Group(idx, errs) => Fail::Group(idx, Self::map_items(errs, m)),
        }
    }

    /// Transform every error in a list, front first.
    pub fn map_items<T, M: Mapper<T, E>>(errs: Items<E>, m: &M) -> (r: Items<E>)
        ensures
            r == Self::spec_map_items(errs, *m),
        decreases errs,
    {
        match errs {
            Items::Nil => Items::Nil,
            Items::Cons(err, rest) => Items::Cons(
                m.fix_err(err),
                Box::new(Self::map_items(*rest, m)),
            ),
        }
    }

    /// Annotate every error carried with the context `ctx`.
    pub fn in_context<T>(self, ctx: &E::Context) -> (r: Self)
        where E: Error<T>
        ensures
            r == self.spec_in_context(*ctx),
    {
        match self {
            Fail::Silent => Fail::Silent,
            Fail::One(idx, err) => Fail::One(idx, err.context(E::dup_context(ctx))),
            Fail::Group(idx, errs) => Fail::Group(idx, Self::context_items(errs, ctx)),
        }
    }

    /// Annotate every error in a list with the context `ctx`.
    pub fn context_items<T>(errs: Items<E>, ctx: &E::Context) -> (r: Items<E>)
        where E: Error<T>
        ensures
            r == Self::spec_context_items(errs, *ctx),
        decreases errs,
    {
        match errs {
            Items::Nil => Items::Nil,
            Items::Cons(err, rest) => Items::Cons(
                err.context(E::dup_context(ctx)),
                Box::new(Self::context_items(*rest, ctx)),
            ),
        }
    }

    /// Flatten into the plain list of errors: empty when silent.
    pub fn collect(self) -> (r: Vec<E>)
        ensures
            r@ == self.spec_errors(),
    {
        match self {
            Fail::Silent => Vec::new(),
            Fail::One(_, err) => {
                let mut out = Vec::new();
                out.push(err);
                out
            }
            Fail::Group(_, errs) => errs.into_vec(),
        }
    }
}

} // verus!
