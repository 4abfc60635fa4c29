//! The positioned cursor over the input.

use vstd::prelude::*;
use vstd::slice::slice_index_get;
use crate::Index;
use crate::span::Span;
use crate::token::Token;

verus! {

/// A cursor over an indexed, finite input: the buffer is shared, only the
/// position is owned, so copying a stream is cheap and backtracking is a
/// position assignment.
#[derive(Clone, Copy)]
pub struct Stream<'a, T> {
    pub slice: &'a [T],
    pub index: usize,
}

impl<'a, T> Stream<'a, T> {
    /// All tokens of the input.
    pub open spec fn all(self) -> Seq<T> {
        self.slice@
    }

    /// The current position.
    pub open spec fn at(self) -> int {
        self.index as int
    }

    /// The position never passes the end of the input.
    pub open spec fn wf(self) -> bool {
        self.index <= self.slice@.len()
    }

    /// A stream over `slice`, positioned at its start.
    pub fn new(slice: &'a [T]) -> (r: Self)
        ensures
            r.all() == slice@,
            r.at() == 0,
            r.wf(),
    {
        Stream { slice, index: 0 }
    }

    /// An opaque snapshot of the current position.
    pub fn checkpoint(&self) -> (r: Index)
        ensures
            r == self.at(),
    {
        self.index as Index
    }

    /// The span covering the region from `checkpoint` to the current
    /// position, in whatever representation the caller asks for.
    pub fn span_from<R: Span<T>>(&self, checkpoint: Index) -> (r: R)
        requires
            checkpoint <= self.at(),
        ensures
            r == R::spec_group(self.all(), checkpoint as int, self.at()),
    {
        R::group(self.slice, checkpoint as usize, self.index)
    }

    /// Return to a previously taken snapshot.
    pub fn rewind(&mut self, checkpoint: Index)
        requires
            checkpoint <= old(self).at(),
        ensures
            final(self).all() == old(self).all(),
            final(self).at() == checkpoint,
            old(self).wf() ==> final(self).wf(),
    {
        self.index = checkpoint as usize;
    }

    /// The next `(position, token)`, advancing by one; `None` at the end of
    /// the input.
    pub fn next(&mut self) -> (r: Option<(Index, T)>)
        where T: Token
        requires
            old(self).wf(),
        ensures
            final(self).all() == old(self).all(),
            final(self).wf(),
            match r {
                Some((idx, tok)) => {
                    &&& old(self).at() < old(self).all().len()
                    &&& idx == old(self).at()
                    &&& tok == old(self).all()[old(self).at()]
                    &&& final(self).at() == old(self).at() + 1
                },
                None => {
                    &&& old(self).at() == old(self).all().len()
                    &&& final(self).at() == old(self).at()
                },
            },
    {
        if self.index < self.slice.len() {
            let idx = self.index;
            let tok = slice_index_get(self.slice, idx).dup();
            self.index = idx + 1;
            Some((idx as Index, tok))
        } else {
            None
        }
    }
}

} // verus!
