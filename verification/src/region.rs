//! Regions: an alternative name for the span-building capability, kept for
//! callers that phrase their grammars in terms of regions.

use vstd::prelude::*;
use crate::span::Bounds;

verus! {

/// The capability of building a region value from positions in the input.
/// It mirrors [`crate::span::Span`]; the implementation below keeps the
/// index interval and drops the tokens.
pub trait Region<T>: Sized {
    /// The region built by [`Region::none`].
    spec fn spec_none() -> Self;

    /// The region built by [`Region::single`].
    spec fn spec_single(index: int, sym: T) -> Self;

    /// The region built by [`Region::group`].
    spec fn spec_group(syms: Seq<T>, lo: int, hi: int) -> Self;

    /// A region standing for no part of the input.
    fn none() -> (r: Self)
        ensures
            r == Self::spec_none(),
    ;

    /// The region of the single token `sym` at `index`.
    fn single(index: usize, sym: &T) -> (r: Self)
        ensures
            r == Self::spec_single(index as int, *sym),
    ;

    /// The region `[lo, hi)` of the input `syms`.
    fn group(syms: &[T], lo: usize, hi: usize) -> (r: Self)
        ensures
            r == Self::spec_group(syms@, lo as int, hi as int),
    ;
}

impl<T> Region<T> for Option<Bounds> {
    open spec fn spec_none() -> Self {
        None
    }

    open spec fn spec_single(index: int, sym: T) -> Self {
        Some(Bounds {
            lo: index as usize,
            hi: if index + 1 <= usize::MAX { (index + 1) as usize } else { 0 },
        })
    }

    open spec fn spec_group(syms: Seq<T>, lo: int, hi: int) -> Self {
        Some(Bounds { lo: lo as usize, hi: hi as usize })
    }

    fn none() -> (r: Self) {
        None
    }

    fn single(index: usize, sym: &T) -> (r: Self) {
        if index < usize::MAX {
            Some(Bounds { lo: index, hi: index + 1 })
        } else {
            Some(Bounds { lo: index, hi: 0 })
        }
    }

    fn group(syms: &[T], lo: usize, hi: usize) -> (r: Self) {
        Some(Bounds { lo, hi })
    }
}

} // verus!
