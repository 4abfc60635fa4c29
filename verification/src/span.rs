//! Spans: user-chosen representations of a region of the input.

use vstd::prelude::*;

verus! {

/// A half-open index interval `[lo, hi)` over the input.
#[derive(PartialEq, Eq, Clone, Copy, Debug)]
pub struct Bounds {
    pub lo: usize,
    pub hi: usize,
}

/// The capability of building a region value from positions in the input.
///
/// Errors carry a span built through this trait; the library provides the
/// implementation below for `Option<Bounds>`, which keeps the index interval
/// and drops the tokens.
pub trait Span<T>: Sized {
    /// The span built by [`Span::none`].
    spec fn spec_none() -> Self;

    /// The span built by [`Span::single`].
    spec fn spec_single(index: int, sym: T) -> Self;

    /// The span built by [`Span::group`].
    spec fn spec_group(syms: Seq<T>, lo: int, hi: int) -> Self;

    /// A span standing for no region at all.
    fn none() -> (r: Self)
        ensures
            r == Self::spec_none(),
    ;

    /// The region of the single token `sym` at `index`.
    fn single(index: usize, sym: &T) -> (r: Self)
        ensures
            r == Self::spec_single(index as int, *sym),
    ;

    /// The region `[lo, hi)` of the input `syms`.
    fn group(syms: &[T], lo: usize, hi: usize) -> (r: Self)
        ensures
            r == Self::spec_group(syms@, lo as int, hi as int),
    ;
}

impl<T> Span<T> for Option<Bounds> {
    open spec fn spec_none() -> Self {
        None
    }

    open spec fn spec_single(index: int, sym: T) -> Self {
        Some(Bounds {
            lo: index as usize,
            hi: if index + 1 <= usize::MAX { (index + 1) as usize } else { 0 },
        })
    }

    open spec fn spec_group(syms: Seq<T>, lo: int, hi: int) -> Self {
        Some(Bounds { lo: lo as usize, hi: hi as usize })
    }

    fn none() -> (r: Self) {
        None
    }

    fn single(index: usize, sym: &T) -> (r: Self)
    {
        if index < usize::MAX {
            Some(Bounds { lo: index, hi: index + 1 })
        } else {
            Some(Bounds { lo: index, hi: 0 })
        }
    }

    fn group(syms: &[T], lo: usize, hi: usize) -> (r: Self) {
        Some(Bounds { lo, hi })
    }
}

} // verus!
