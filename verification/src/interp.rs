//! The meaning of a pattern, and the interpreter that realizes it.
//!
//! [`parse_spec`] is the single specification function that gives every
//! pattern its meaning: from a pattern, the input, a position and a
//! recursion budget, it returns the [`ParseResult`] and the position the
//! stream is left at.  [`attempt`] is the executable interpreter, proved to
//! return exactly the specified result and to leave the stream exactly at
//! the specified position — in particular it restores the entry position
//! whenever it fails.

use vstd::prelude::*;
use crate::{END_INDEX, Index, ParseResult, Pattern};
use crate::error::Error;
use crate::fail::Fail;
use crate::mapper::Mapper;
use crate::span::{Bounds, Span};
use crate::stream::Stream;
use crate::token::{dup_token_items, Token};
use crate::value::{Items, Value};

verus! {

impl<T, M, E: Error<T>> Pattern<T, M, E> {
    /// The structural height of a pattern, used as a termination measure:
    /// every combinator stands strictly above its children, and
    /// `OnceOrMore` also stands above the `Repeated` of the same child.
    pub open spec fn height(self) -> nat
        decreases self,
    {
        match self {
            Pattern::Any => 0,
            Pattern::End => 0,
            Pattern::Just(_) => 0,
            Pattern::Exact(_) => 0,
            Pattern::Permit(_) => 0,
            Pattern::PermitMap(_) => 0,
            Pattern::Link => 0,
            Pattern::Nested(_, a) => 1 + a.height(),
            Pattern::MapVal(a, _) => 1 + a.height(),
            Pattern::MapSpan(a, _) => 1 + a.height(),
            Pattern::MapErr(a, _) => 1 + a.height(),
            Pattern::Context(a, _) => 1 + a.height(),
            Pattern::To(a, _) => 1 + a.height(),
            Pattern::Then(a, b) => 1 + Self::max_height(a.height(), b.height()),
            Pattern::Chain(a, b) => 1 + Self::max_height(a.height(), b.height()),
            Pattern::Or(a, b) => 1 + Self::max_height(a.height(), b.height()),
            Pattern::PaddingFor(a, b) => 1 + Self::max_height(a.height(), b.height()),
            Pattern::PaddedBy(a, b) => 1 + Self::max_height(a.height(), b.height()),
            Pattern::Repeated(a) => 1 + a.height(),
            Pattern::OnceOrMore(a) => 2 + a.height(),
            Pattern::SeparatedBy(a, b) => 1 + Self::max_height(a.height(), b.height()),
            Pattern::OrNot(a) => 1 + a.height(),
            Pattern::Chained(a) => 1 + a.height(),
            Pattern::ReduceLeft(a, _) => 1 + a.height(),
            Pattern::ReduceRight(a, _) => 1 + a.height(),
            Pattern::Rec(a) => 1 + a.height(),
        }
    }

    /// The larger of two heights.
    pub open spec fn max_height(a: nat, b: nat) -> nat {
        if a > b {
            a
        } else {
            b
        }
    }

    /// Whether every `Link` is bound: under a `Rec` binder when `bound`
    /// says so.
    pub open spec fn bound_ok(self, bound: bool) -> bool
        decreases self,
    {
        match self {
            Pattern::Any => true,
            Pattern::End => true,
            Pattern::Just(_) => true,
            Pattern::Exact(_) => true,
            Pattern::Permit(_) => true,
            Pattern::PermitMap(_) => true,
            Pattern::Link => bound,
            Pattern::Nested(_, a) => a.bound_ok(bound),
            Pattern::MapVal(a, _) => a.bound_ok(bound),
            Pattern::MapSpan(a, _) => a.bound_ok(bound),
            Pattern::MapErr(a, _) => a.bound_ok(bound),
            Pattern::Context(a, _) => a.bound_ok(bound),
            Pattern::To(a, _) => a.bound_ok(bound),
            Pattern::Then(a, b) => a.bound_ok(bound) && b.bound_ok(bound),
            Pattern::Chain(a, b) => a.bound_ok(bound) && b.bound_ok(bound),
            Pattern::Or(a, b) => a.bound_ok(bound) && b.bound_ok(bound),
            Pattern::PaddingFor(a, b) => a.bound_ok(bound) && b.bound_ok(bound),
            Pattern::PaddedBy(a, b) => a.bound_ok(bound) && b.bound_ok(bound),
            Pattern::Repeated(a) => a.bound_ok(bound),
            Pattern::OnceOrMore(a) => a.bound_ok(bound),
            Pattern::SeparatedBy(a, b) => a.bound_ok(bound) && b.bound_ok(bound),
            Pattern::OrNot(a) => a.bound_ok(bound),
            Pattern::Chained(a) => a.bound_ok(bound),
            Pattern::ReduceLeft(a, _) => a.bound_ok(bound),
            Pattern::ReduceRight(a, _) => a.bound_ok(bound),
            Pattern::Rec(a) => a.bound_ok(true),
        }
    }

    /// Whether the pattern can stand alone: no `Link` outside a `Rec`.
    pub open spec fn closed(self) -> bool {
        self.bound_ok(false)
    }

    /// The pattern with every `Link` bound by the innermost enclosing `Rec`
    /// replaced by `r`; nested `Rec` bodies keep their own links.
    pub open spec fn subst_spec(self, r: Self) -> Self
        decreases self,
    {
        match self {
            Pattern::Any => self,
            Pattern::End => self,
            Pattern::Just(_) => self,
            Pattern::Exact(_) => self,
            Pattern::Permit(_) => self,
            Pattern::PermitMap(_) => self,
            Pattern::Link => r,
            Pattern::Nested(m, a) => Pattern::Nested(m, Box::new(a.subst_spec(r))),
            Pattern::MapVal(a, m) => Pattern::MapVal(Box::new(a.subst_spec(r)), m),
            Pattern::MapSpan(a, m) => Pattern::MapSpan(Box::new(a.subst_spec(r)), m),
            Pattern::MapErr(a, m) => Pattern::MapErr(Box::new(a.subst_spec(r)), m),
            Pattern::Context(a, c) => Pattern::Context(Box::new(a.subst_spec(r)), c),
            Pattern::To(a, v) => Pattern::To(Box::new(a.subst_spec(r)), v),
            Pattern::Then(a, b) => Pattern::Then(
                Box::new(a.subst_spec(r)),
                Box::new(b.subst_spec(r)),
            ),
            Pattern::Chain(a, b) => Pattern::Chain(
                Box::new(a.subst_spec(r)),
                Box::new(b.subst_spec(r)),
            ),
            Pattern::Or(a, b) => Pattern::Or(
                Box::new(a.subst_spec(r)),
                Box::new(b.subst_spec(r)),
            ),
            Pattern::PaddingFor(a, b) => Pattern::PaddingFor(
                Box::new(a.subst_spec(r)),
                Box::new(b.subst_spec(r)),
            ),
            Pattern::PaddedBy(a, b) => Pattern::PaddedBy(
                Box::new(a.subst_spec(r)),
                Box::new(b.subst_spec(r)),
            ),
            Pattern::Repeated(a) => Pattern::Repeated(Box::new(a.subst_spec(r))),
            Pattern::OnceOrMore(a) => Pattern::OnceOrMore(Box::new(a.subst_spec(r))),
            Pattern::SeparatedBy(a, b) => Pattern::SeparatedBy(
                Box::new(a.subst_spec(r)),
                Box::new(b.subst_spec(r)),
            ),
            Pattern::OrNot(a) => Pattern::OrNot(Box::new(a.subst_spec(r))),
            Pattern::Chained(a) => Pattern::Chained(Box::new(a.subst_spec(r))),
            Pattern::ReduceLeft(a, m) => Pattern::ReduceLeft(Box::new(a.subst_spec(r)), m),
            Pattern::ReduceRight(a, m) => Pattern::ReduceRight(Box::new(a.subst_spec(r)), m),
            Pattern::Rec(a) => Pattern::Rec(a),
        }
    }

    /// A structurally identical, independent copy.
    pub fn cloned(&self) -> (r: Self)
        where T: Token, M: Mapper<T, E>,
        ensures
            r == self,
        decreases self,
    {
        match self {
            Pattern::Any => Pattern::Any,
            Pattern::End => Pattern::End,
            Pattern::Just(t) => Pattern::Just(t.dup()),
            Pattern::Exact(ts) => Pattern::Exact(dup_token_items(ts)),
            Pattern::Permit(m) => Pattern::Permit(m.dup()),
            Pattern::PermitMap(m) => Pattern::PermitMap(m.dup()),
            Pattern::Link => Pattern::Link,
            Pattern::Nested(m, a) => Pattern::Nested(m.dup(), Box::new(a.cloned())),
            Pattern::MapVal(a, m) => Pattern::MapVal(Box::new(a.cloned()), m.dup()),
            Pattern::MapSpan(a, m) => Pattern::MapSpan(Box::new(a.cloned()), m.dup()),
            Pattern::MapErr(a, m) => Pattern::MapErr(Box::new(a.cloned()), m.dup()),
            Pattern::Context(a, c) => Pattern::Context(Box::new(a.cloned()), E::dup_context(c)),
            Pattern::To(a, v) => Pattern::To(Box::new(a.cloned()), v.cloned()),
            Pattern::Then(a, b) => Pattern::Then(Box::new(a.cloned()), Box::new(b.cloned())),
            Pattern::Chain(a, b) => Pattern::Chain(Box::new(a.cloned()), Box::new(b.cloned())),
            Pattern::Or(a, b) => Pattern::Or(Box::new(a.cloned()), Box::new(b.cloned())),
            Pattern::PaddingFor(a, b) => Pattern::PaddingFor(
                Box::new(a.cloned()),
                Box::new(b.cloned()),
            ),
            Pattern::PaddedBy(a, b) => Pattern::PaddedBy(
                Box::new(a.cloned()),
                Box::new(b.cloned()),
            ),
            Pattern::Repeated(a) => Pattern::Repeated(Box::new(a.cloned())),
            Pattern::OnceOrMore(a) => Pattern::OnceOrMore(Box::new(a.cloned())),
            Pattern::SeparatedBy(a, b) => Pattern::SeparatedBy(
                Box::new(a.cloned()),
                Box::new(b.cloned()),
            ),
            Pattern::OrNot(a) => Pattern::OrNot(Box::new(a.cloned())),
            Pattern::Chained(a) => Pattern::Chained(Box::new(a.cloned())),
            Pattern::ReduceLeft(a, m) => Pattern::ReduceLeft(Box::new(a.cloned()), m.dup()),
            Pattern::ReduceRight(a, m) => Pattern::ReduceRight(Box::new(a.cloned()), m.dup()),
            Pattern::Rec(a) => Pattern::Rec(Box::new(a.cloned())),
        }
    }

    /// Build [`Pattern::subst_spec`]: the pattern with every link bound by
    /// the innermost `Rec` replaced by a copy of `r`.
    pub fn subst(&self, r: &Self) -> (out: Self)
        where T: Token, M: Mapper<T, E>,
        ensures
            out == self.subst_spec(*r),
        decreases self,
    {
        match self {
            Pattern::Any => Pattern::Any,
            Pattern::End => Pattern::End,
            Pattern::Just(t) => Pattern::Just(t.dup()),
            Pattern::Exact(ts) => Pattern::Exact(dup_token_items(ts)),
            Pattern::Permit(m) => Pattern::Permit(m.dup()),
            Pattern::PermitMap(m) => Pattern::PermitMap(m.dup()),
            Pattern::Link => r.cloned(),
            Pattern::Nested(m, a) => Pattern::Nested(m.dup(), Box::new(a.subst(r))),
            Pattern::MapVal(a, m) => Pattern::MapVal(Box::new(a.subst(r)), m.dup()),
            Pattern::MapSpan(a, m) => Pattern::MapSpan(Box::new(a.subst(r)), m.dup()),
            Pattern::MapErr(a, m) => Pattern::MapErr(Box::new(a.subst(r)), m.dup()),
            Pattern::Context(a, c) => Pattern::Context(Box::new(a.subst(r)), E::dup_context(c)),
            Pattern::To(a, v) => Pattern::To(Box::new(a.subst(r)), v.cloned()),
            Pattern::Then(a, b) => Pattern::Then(Box::new(a.subst(r)), Box::new(b.subst(r))),
            Pattern::Chain(a, b) => Pattern::Chain(Box::new(a.subst(r)), Box::new(b.subst(r))),
            Pattern::Or(a, b) => Pattern::Or(Box::new(a.subst(r)), Box::new(b.subst(r))),
            Pattern::PaddingFor(a, b) => Pattern::PaddingFor(
                Box::new(a.subst(r)),
                Box::new(b.subst(r)),
            ),
            Pattern::PaddedBy(a, b) => Pattern::PaddedBy(
                Box::new(a.subst(r)),
                Box::new(b.subst(r)),
            ),
            Pattern::Repeated(a) => Pattern::Repeated(Box::new(a.subst(r))),
            Pattern::OnceOrMore(a) => Pattern::OnceOrMore(Box::new(a.subst(r))),
            Pattern::SeparatedBy(a, b) => Pattern::SeparatedBy(
                Box::new(a.subst(r)),
                Box::new(b.subst(r)),
            ),
            Pattern::OrNot(a) => Pattern::OrNot(Box::new(a.subst(r))),
            Pattern::Chained(a) => Pattern::Chained(Box::new(a.subst(r))),
            Pattern::ReduceLeft(a, m) => Pattern::ReduceLeft(Box::new(a.subst(r)), m.dup()),
            Pattern::ReduceRight(a, m) => Pattern::ReduceRight(Box::new(a.subst(r)), m.dup()),
            Pattern::Rec(a) => Pattern::Rec(Box::new(a.cloned())),
        }
    }
}

/// How many tokens remain at `pos`; zero outside the input.
pub open spec fn left<T>(toks: Seq<T>, pos: int) -> nat {
    if 0 <= pos <= toks.len() {
        (toks.len() - pos) as nat
    } else {
        0
    }
}

/// The span of the region `[lo, hi)` of the input, in the representation
/// errors carry.
pub open spec fn region_of<T>(toks: Seq<T>, lo: int, hi: int) -> Option<Bounds> {
    <Option<Bounds> as Span<T>>::spec_group(toks, lo, hi)
}

/// The meaning of `Exact`: each token of `items` must equal the input token
/// in turn.  `start` is where the whole run began, for error spans and for
/// the position a failure restores.
pub open spec fn exact_spec<T, M: Mapper<T, E>, E: Error<T>>(
    items: Items<T>,
    toks: Seq<T>,
    start: int,
    pos: int,
) -> (ParseResult<Value<T>, E>, int)
    decreases items,
{
    match items {
        Items::Nil => (Ok((Value::List(Box::new(Items::Nil)), Fail::Silent)), pos),
        Items::Cons(want, rest) => {
            if 0 <= pos < toks.len() {
                if toks[pos] == want {
                    let (r, np) = exact_spec::<T, M, E>(*rest, toks, start, pos + 1);
                    match r {
                        Ok((v, f)) => match v {
                            Value::List(l) => (
                                Ok((Value::List(Box::new(Items::Cons(Value::Tok(toks[pos]), l))), f)),
                                np,
                            ),
                            other => (Ok((other, f)), np),
                        },
                        Err(f) => (Err(f), start),
                    }
                } else {
                    (
                        Err(Fail::One(
                            pos as Index,
                            E::spec_unexpected_sym(
                                toks[pos],
                                region_of(toks, start, pos + 1),
                            ).spec_expected(want),
                        )),
                        start,
                    )
                }
            } else {
                (Err(Fail::One(END_INDEX, E::spec_unexpected_end())), start)
            }
        }
    }
}

/// The fold behind `reduce_left`: combine the accumulator with each item in
/// turn, left to right.
pub open spec fn fold_left_spec<T, M: Mapper<T, E>, E: Error<T>>(
    m: M,
    acc: Value<T>,
    items: Items<Value<T>>,
) -> Value<T>
    decreases items,
{
    match items {
        Items::Nil => acc,
        Items::Cons(head, tail) => fold_left_spec(m, m.spec_combine(acc, head), *tail),
    }
}

/// The fold behind `reduce_right`: combine each item with the accumulator
/// in turn, right to left.
pub open spec fn fold_right_spec<T, M: Mapper<T, E>, E: Error<T>>(
    m: M,
    items: Items<Value<T>>,
    acc: Value<T>,
) -> Value<T>
    decreases items,
{
    match items {
        Items::Nil => acc,
        Items::Cons(head, tail) => m.spec_combine(head, fold_right_spec(m, *tail, acc)),
    }
}

/// What `reduce_left` makes of an output: an output of shape
/// `Pair(init, List(items))` is folded; any other shape passes through.
pub open spec fn reduce_left_val<T, M: Mapper<T, E>, E: Error<T>>(m: M, v: Value<T>) -> Value<T> {
    match v {
        Value::Pair(init, rest) => match *rest {
            Value::List(l) => fold_left_spec(m, *init, *l),
            _ => v,
        },
        _ => v,
    }
}

/// What `reduce_right` makes of an output: an output of shape
/// `Pair(List(items), init)` is folded; any other shape passes through.
pub open spec fn reduce_right_val<T, M: Mapper<T, E>, E: Error<T>>(m: M, v: Value<T>) -> Value<T> {
    match v {
        Value::Pair(rest, init) => match *rest {
            Value::List(l) => fold_right_spec(m, *l, *init),
            _ => v,
        },
        _ => v,
    }
}

/// The meaning of every pattern: the parse result, and the position the
/// stream is left at.
///
/// On failure the position is always the entry position: failure never
/// consumes.  `fuel` bounds how many `Rec` unfoldings may happen; when it
/// runs out the parse fails silently.  The repetition combinators stop on an
/// iteration that consumes nothing, so the meaning is total even for
/// grammars that repeat an empty match.
pub open spec fn parse_spec<T, M: Mapper<T, E>, E: Error<T>>(
    p: Pattern<T, M, E>,
    toks: Seq<T>,
    pos: int,
    fuel: nat,
) -> (ParseResult<Value<T>, E>, int)
    decreases fuel, p.height(), left(toks, pos),
{
    match p {
        Pattern::Any => {
            if 0 <= pos < toks.len() {
                (Ok((Value::Tok(toks[pos]), Fail::Silent)), pos + 1)
            } else {
                (Err(Fail::One(END_INDEX, E::spec_unexpected_end())), pos)
            }
        }
        Pattern::End => {
            if 0 <= pos < toks.len() {
                (
                    Err(Fail::One(
                        pos as Index,
                        E::spec_expected_end(toks[pos], region_of(toks, pos, pos + 1)),
                    )),
                    pos,
                )
            } else {
                (Ok((Value::Unit, Fail::Silent)), pos)
            }
        }
        Pattern::Just(want) => {
            if 0 <= pos < toks.len() {
                if toks[pos] == want {
                    (Ok((Value::Tok(toks[pos]), Fail::Silent)), pos + 1)
                } else {
                    (
                        Err(Fail::One(
                            pos as Index,
                            E::spec_unexpected_sym(
                                toks[pos],
                                region_of(toks, pos, pos + 1),
                            ).spec_expected(want),
                        )),
                        pos,
                    )
                }
            } else {
                (Err(Fail::One(END_INDEX, E::spec_unexpected_end())), pos)
            }
        }
        Pattern::Exact(items) => exact_spec::<T, M, E>(items, toks, pos, pos),
        Pattern::Permit(m) => {
            if 0 <= pos < toks.len() {
                if m.spec_allows(toks[pos]) {
                    (Ok((Value::Tok(toks[pos]), Fail::Silent)), pos + 1)
                } else {
                    (
                        Err(Fail::One(
                            pos as Index,
                            E::spec_unexpected_sym(toks[pos], region_of(toks, pos, pos + 1)),
                        )),
                        pos,
                    )
                }
            } else {
                (Err(Fail::One(END_INDEX, E::spec_unexpected_end())), pos)
            }
        }
        Pattern::PermitMap(m) => {
            if 0 <= pos < toks.len() {
                match m.spec_filter(toks[pos]) {
                    Some(v) => (Ok((v, Fail::Silent)), pos + 1),
                    None => (
                        Err(Fail::One(
                            pos as Index,
                            E::spec_unexpected_sym(toks[pos], region_of(toks, pos, pos + 1)),
                        )),
                        pos,
                    ),
                }
            } else {
                (Err(Fail::One(END_INDEX, E::spec_unexpected_end())), pos)
            }
        }
        Pattern::Nested(m, inner) => {
            if 0 <= pos < toks.len() {
                match m.spec_child_tokens(toks[pos]) {
                    Some(sub) => {
                        let (ri, _) = parse_spec(*inner, sub, 0, fuel);
                        match ri {
                            Ok((v, _)) => (Ok((v, Fail::Silent)), pos + 1),
                            Err(f) => (Err(f.spec_shift(pos as Index)), pos),
                        }
                    }
                    None => (
                        Err(Fail::One(
                            pos as Index,
                            E::spec_unexpected_sym(toks[pos], region_of(toks, pos, pos + 1)),
                        )),
                        pos,
                    ),
                }
            } else {
                (Err(Fail::One(END_INDEX, E::spec_unexpected_end())), pos)
            }
        }
        Pattern::MapVal(a, m) => {
            let (ra, p1) = parse_spec(*a, toks, pos, fuel);
            match ra {
                Ok((v, f)) => (Ok((m.spec_apply(v), f)), p1),
                Err(f) => (Err(f), pos),
            }
        }
        Pattern::MapSpan(a, m) => {
            let (ra, p1) = parse_spec(*a, toks, pos, fuel);
            match ra {
                Ok((v, f)) => (
                    Ok((m.spec_apply_with_span(v, region_of(toks, pos, p1)), f)),
                    p1,
                ),
                Err(f) => (Err(f), pos),
            }
        }
        Pattern::MapErr(a, m) => {
            let (ra, p1) = parse_spec(*a, toks, pos, fuel);
            match ra {
                Ok((v, f)) => (Ok((v, f.spec_map(m))), p1),
                Err(f) => (Err(f.spec_map(m)), pos),
            }
        }
        Pattern::Context(a, ctx) => {
            let (ra, p1) = parse_spec(*a, toks, pos, fuel);
            match ra {
                Ok((v, f)) => (Ok((v, f.spec_in_context(ctx))), p1),
                Err(f) => (Err(f.spec_in_context(ctx)), pos),
            }
        }
        Pattern::To(a, out) => {
            let (ra, p1) = parse_spec(*a, toks, pos, fuel);
            match ra {
                Ok((_, f)) => (Ok((out, f)), p1),
                Err(f) => (Err(f), pos),
            }
        }
        Pattern::Then(a, b) => {
            let (ra, p1) = parse_spec(*a, toks, pos, fuel);
            match ra {
                Err(f) => (Err(f), pos),
                Ok((va, fa)) => {
                    let (rb, p2) = parse_spec(*b, toks, p1, fuel);
                    match rb {
                        Err(g) => (Err(fa.spec_max(g)), pos),
                        Ok((vb, gb)) => (
                            Ok((
                                Value::Pair(Box::new(va), Box::new(vb)),
                                fa.spec_max(gb),
                            )),
                            p2,
                        ),
                    }
                }
            }
        }
        Pattern::Chain(a, b) => {
            let (ra, p1) = parse_spec(*a, toks, pos, fuel);
            match ra {
                Err(f) => (Err(f), pos),
                Ok((va, fa)) => {
                    let (rb, p2) = parse_spec(*b, toks, p1, fuel);
                    match rb {
                        Err(g) => (Err(fa.spec_max(g)), pos),
                        Ok((vb, gb)) => (
                            Ok((
                                Value::List(Box::new(
                                    va.spec_items().concat_spec(vb.spec_items()),
                                )),
                                fa.spec_max(gb),
                            )),
                            p2,
                        ),
                    }
                }
            }
        }
        Pattern::Or(a, b) => {
            let (ra, p1) = parse_spec(*a, toks, pos, fuel);
            match ra {
                Ok(x) => (Ok(x), p1),
                Err(fa) => {
                    let (rb, p2) = parse_spec(*b, toks, pos, fuel);
                    match rb {
                        Ok((v, fb)) => (Ok((v, fa.spec_max(fb))), p2),
                        Err(fb) => (Err(fa.spec_max(fb)), pos),
                    }
                }
            }
        }
        Pattern::PaddingFor(a, b) => {
            let (ra, p1) = parse_spec(*a, toks, pos, fuel);
            match ra {
                Err(f) => (Err(f), pos),
                Ok((_, fa)) => {
                    let (rb, p2) = parse_spec(*b, toks, p1, fuel);
                    match rb {
                        Err(g) => (Err(fa.spec_max(g)), pos),
                        Ok((vb, gb)) => (Ok((vb, fa.spec_max(gb))), p2),
                    }
                }
            }
        }
        Pattern::PaddedBy(a, b) => {
            let (ra, p1) = parse_spec(*a, toks, pos, fuel);
            match ra {
                Err(f) => (Err(f), pos),
                Ok((va, fa)) => {
                    let (rb, p2) = parse_spec(*b, toks, p1, fuel);
                    match rb {
                        Err(g) => (Err(fa.spec_max(g)), pos),
                        Ok((_, gb)) => (Ok((va, fa.spec_max(gb))), p2),
                    }
                }
            }
        }
        Pattern::Repeated(a) => {
            let (ra, p1) = parse_spec(*a, toks, pos, fuel);
            match ra {
                Err(f) => (Ok((Value::List(Box::new(Items::Nil)), f)), pos),
                Ok((v, _)) => {
                    if 0 <= pos < p1 <= toks.len() {
                        let (rest, p2) = parse_spec(p, toks, p1, fuel);
                        match rest {
                            Ok((v2, f)) => match v2 {
                                Value::List(l) => (
                                    Ok((Value::List(Box::new(Items::Cons(v, l))), f)),
                                    p2,
                                ),
                                other => (Ok((other, f)), p2),
                            },
                            Err(f) => (Err(f), pos),
                        }
                    } else {
                        (
                            Ok((
                                Value::List(Box::new(Items::Cons(v, Box::new(Items::Nil)))),
                                Fail::Silent,
                            )),
                            p1,
                        )
                    }
                }
            }
        }
        Pattern::OnceOrMore(a) => {
            let (ra, p1) = parse_spec(*a, toks, pos, fuel);
            match ra {
                Err(f) => (Err(f), pos),
                Ok((v, _)) => {
                    if 0 <= pos < p1 <= toks.len() {
                        let (rest, p2) = parse_spec(Pattern::Repeated(a), toks, p1, fuel);
                        match rest {
                            Ok((v2, f)) => match v2 {
                                Value::List(l) => (
                                    Ok((Value::List(Box::new(Items::Cons(v, l))), f)),
                                    p2,
                                ),
                                other => (Ok((other, f)), p2),
                            },
                            Err(f) => (Err(f), pos),
                        }
                    } else {
                        (
                            Ok((
                                Value::List(Box::new(Items::Cons(v, Box::new(Items::Nil)))),
                                Fail::Silent,
                            )),
                            p1,
                        )
                    }
                }
            }
        }
        Pattern::SeparatedBy(a, b) => {
            let (ra, p1) = parse_spec(*a, toks, pos, fuel);
            match ra {
                Err(f) => (Ok((Value::List(Box::new(Items::Nil)), f)), pos),
                Ok((v, _)) => {
                    if 0 <= pos < p1 <= toks.len() {
                        let (rb, p2) = parse_spec(*b, toks, p1, fuel);
                        match rb {
                            Err(g) => (
                                Ok((
                                    Value::List(Box::new(Items::Cons(v, Box::new(Items::Nil)))),
                                    g,
                                )),
                                p1,
                            ),
                            Ok((_, _)) => {
                                if 0 <= pos < p2 <= toks.len() {
                                    let (rest, p3) = parse_spec(p, toks, p2, fuel);
                                    match rest {
                                        Ok((v2, f)) => match v2 {
                                            Value::List(l) => match *l {
                                                Items::Nil => (
                                                    Ok((
                                                        Value::List(Box::new(Items::Cons(
                                                            v,
                                                            Box::new(Items::Nil),
                                                        ))),
                                                        f,
                                                    )),
                                                    p1,
                                                ),
                                                Items::Cons(_, _) => (
                                                    Ok((
                                                        Value::List(Box::new(Items::Cons(v, l))),
                                                        f,
                                                    )),
                                                    p3,
                                                ),
                                            },
                                            other => (Ok((other, f)), p3),
                                        },
                                        Err(f) => (Err(f), pos),
                                    }
                                } else {
                                    (
                                        Ok((
                                            Value::List(Box::new(Items::Cons(
                                                v,
                                                Box::new(Items::Nil),
                                            ))),
                                            Fail::Silent,
                                        )),
                                        p2,
                                    )
                                }
                            }
                        }
                    } else {
                        (
                            Ok((
                                Value::List(Box::new(Items::Cons(v, Box::new(Items::Nil)))),
                                Fail::Silent,
                            )),
                            p1,
                        )
                    }
                }
            }
        }
        Pattern::OrNot(a) => {
            let (ra, p1) = parse_spec(*a, toks, pos, fuel);
            match ra {
                Ok((v, f)) => (Ok((Value::Maybe(Some(Box::new(v))), f)), p1),
                Err(f) => (Ok((Value::Maybe(None), f)), pos),
            }
        }
        Pattern::Chained(a) => {
            let (ra, p1) = parse_spec(*a, toks, pos, fuel);
            match ra {
                Ok((v, f)) => (
                    Ok((Value::List(Box::new(Items::Cons(v, Box::new(Items::Nil)))), f)),
                    p1,
                ),
                Err(f) => (Err(f), pos),
            }
        }
        Pattern::ReduceLeft(a, m) => {
            let (ra, p1) = parse_spec(*a, toks, pos, fuel);
            match ra {
                Ok((v, f)) => (Ok((reduce_left_val(m, v), f)), p1),
                Err(f) => (Err(f), pos),
            }
        }
        Pattern::ReduceRight(a, m) => {
            let (ra, p1) = parse_spec(*a, toks, pos, fuel);
            match ra {
                Ok((v, f)) => (Ok((reduce_right_val(m, v), f)), p1),
                Err(f) => (Err(f), pos),
            }
        }
        Pattern::Rec(a) => {
            if fuel == 0 {
                (Err(Fail::Silent), pos)
            } else {
                parse_spec(a.subst_spec(p), toks, pos, (fuel - 1) as nat)
            }
        }
        Pattern::Link => (Err(Fail::Silent), pos),
    }
}


/// Positions stay inside the input, and failure restores the entry
/// position: the run of `Exact` never leaves `[start, len]`, and any failure
/// returns to `start`.
pub proof fn lemma_exact_range<T, M: Mapper<T, E>, E: Error<T>>(
    items: Items<T>,
    toks: Seq<T>,
    start: int,
    pos: int,
)
    requires
        0 <= start <= pos <= toks.len(),
    ensures
        ({
            let (r, np) = exact_spec::<T, M, E>(items, toks, start, pos);
            &&& (r is Ok ==> pos <= np <= toks.len())
            &&& (r is Err ==> np == start)
        }),
    decreases items,
{
    match items {
        Items::Nil => {}
        Items::Cons(want, rest) => {
            if 0 <= pos < toks.len() {
                if toks[pos] == want {
                    lemma_exact_range::<T, M, E>(*rest, toks, start, pos + 1);
                }
            }
        }
    }
}

/// The fundamental range property of the semantics: from a position inside
/// the input, parsing ends inside the input and never moves backward, and a
/// failing parse ends exactly where it began.  The non-consuming-failure
/// guarantee of every combinator is this lemma.
pub proof fn lemma_parse_spec_range<T, M: Mapper<T, E>, E: Error<T>>(
    p: Pattern<T, M, E>,
    toks: Seq<T>,
    pos: int,
    fuel: nat,
)
    requires
        0 <= pos <= toks.len(),
    ensures
        pos <= parse_spec(p, toks, pos, fuel).1 <= toks.len(),
        parse_spec(p, toks, pos, fuel).0 is Err ==> parse_spec(p, toks, pos, fuel).1 == pos,
    decreases fuel, p.height(), left(toks, pos),
{
    match p {
        Pattern::Any => {}
        Pattern::End => {}
        Pattern::Just(_) => {}
        Pattern::Exact(items) => {
            lemma_exact_range::<T, M, E>(items, toks, pos, pos);
        }
        Pattern::Permit(_) => {}
        Pattern::PermitMap(_) => {}
        Pattern::Nested(_, _) => {}
        Pattern::MapVal(a, _) => {
            lemma_parse_spec_range(*a, toks, pos, fuel);
        }
        Pattern::MapSpan(a, _) => {
            lemma_parse_spec_range(*a, toks, pos, fuel);
        }
        Pattern::MapErr(a, _) => {
            lemma_parse_spec_range(*a, toks, pos, fuel);
        }
        Pattern::Context(a, _) => {
            lemma_parse_spec_range(*a, toks, pos, fuel);
        }
        Pattern::To(a, _) => {
            lemma_parse_spec_range(*a, toks, pos, fuel);
        }
        Pattern::Then(a, b) => {
            lemma_parse_spec_range(*a, toks, pos, fuel);
            let (ra, p1) = parse_spec(*a, toks, pos, fuel);
            if ra is Ok {
                lemma_parse_spec_range(*b, toks, p1, fuel);
            }
        }
        Pattern::Chain(a, b) => {
            lemma_parse_spec_range(*a, toks, pos, fuel);
            let (ra, p1) = parse_spec(*a, toks, pos, fuel);
            if ra is Ok {
                lemma_parse_spec_range(*b, toks, p1, fuel);
            }
        }
        Pattern::Or(a, b) => {
            lemma_parse_spec_range(*a, toks, pos, fuel);
            lemma_parse_spec_range(*b, toks, pos, fuel);
        }
        Pattern::PaddingFor(a, b) => {
            lemma_parse_spec_range(*a, toks, pos, fuel);
            let (ra, p1) = parse_spec(*a, toks, pos, fuel);
            if ra is Ok {
                lemma_parse_spec_range(*b, toks, p1, fuel);
            }
        }
        Pattern::PaddedBy(a, b) => {
            lemma_parse_spec_range(*a, toks, pos, fuel);
            let (ra, p1) = parse_spec(*a, toks, pos, fuel);
            if ra is Ok {
                lemma_parse_spec_range(*b, toks, p1, fuel);
            }
        }
        Pattern::Repeated(a) => {
            lemma_parse_spec_range(*a, toks, pos, fuel);
            let (ra, p1) = parse_spec(*a, toks, pos, fuel);
            if ra is Ok && 0 <= pos < p1 <= toks.len() {
                lemma_parse_spec_range(p, toks, p1, fuel);
            }
        }
        Pattern::OnceOrMore(a) => {
            lemma_parse_spec_range(*a, toks, pos, fuel);
            let (ra, p1) = parse_spec(*a, toks, pos, fuel);
            if ra is Ok && 0 <= pos < p1 <= toks.len() {
                lemma_parse_spec_range(Pattern::Repeated(a), toks, p1, fuel);
            }
        }
        Pattern::SeparatedBy(a, b) => {
            lemma_parse_spec_range(*a, toks, pos, fuel);
            let (ra, p1) = parse_spec(*a, toks, pos, fuel);
            if ra is Ok && 0 <= pos < p1 <= toks.len() {
                lemma_parse_spec_range(*b, toks, p1, fuel);
                let (rb, p2) = parse_spec(*b, toks, p1, fuel);
                if rb is Ok && 0 <= pos < p2 <= toks.len() {
                    lemma_parse_spec_range(p, toks, p2, fuel);
                }
            }
        }
        Pattern::OrNot(a) => {
            lemma_parse_spec_range(*a, toks, pos, fuel);
        }
        Pattern::Chained(a) => {
            lemma_parse_spec_range(*a, toks, pos, fuel);
        }
        Pattern::ReduceLeft(a, _) => {
            lemma_parse_spec_range(*a, toks, pos, fuel);
        }
        Pattern::ReduceRight(a, _) => {
            lemma_parse_spec_range(*a, toks, pos, fuel);
        }
        Pattern::Rec(a) => {
            if fuel > 0 {
                lemma_parse_spec_range(a.subst_spec(p), toks, pos, (fuel - 1) as nat);
            }
        }
        Pattern::Link => {}
    }
}

/// Run a pattern on a stream: the backtracking primitive.
///
/// Returns exactly what [`parse_spec`] specifies and leaves the stream at
/// exactly the specified position; in particular, on failure the stream is
/// untouched, and on success it only moves forward.
pub fn attempt<'a, T: Token, M: Mapper<T, E>, E: Error<T>>(
    p: &Pattern<T, M, E>,
    s: &mut Stream<'a, T>,
    fuel: u64,
) -> (r: ParseResult<Value<T>, E>)
    requires
        old(s).wf(),
    ensures
        final(s).all() == old(s).all(),
        final(s).wf(),
        r == parse_spec(*p, old(s).all(), old(s).at(), fuel as nat).0,
        final(s).at() == parse_spec(*p, old(s).all(), old(s).at(), fuel as nat).1,
        old(s).at() <= final(s).at(),
        r is Err ==> final(s).at() == old(s).at(),
    decreases fuel, p.height(), left(s.all(), s.at()), 1int,
{
    proof {
        lemma_parse_spec_range(*p, s.all(), s.at(), fuel as nat);
    }
    match p {
        Pattern::Any => {
            match s.next() {
                Some((_, tok)) => Ok((Value::Tok(tok), Fail::Silent)),
                None => Err(Fail::One(END_INDEX, E::unexpected_end())),
            }
        }
        Pattern::End => {
            let cp = s.checkpoint();
            match s.next() {
                Some((idx, tok)) => {
                    let sp: Option<Bounds> = s.span_from(cp);
                    s.rewind(cp);
                    Err(Fail::One(idx, E::expected_end(&tok, sp)))
                }
                None => Ok((Value::Unit, Fail::Silent)),
            }
        }
        Pattern::Just(want) => {
            let cp = s.checkpoint();
            match s.next() {
                Some((idx, tok)) => {
                    if tok.tok_eq(want) {
                        Ok((Value::Tok(tok), Fail::Silent))
                    } else {
                        let sp: Option<Bounds> = s.span_from(cp);
                        s.rewind(cp);
                        Err(Fail::One(idx, E::unexpected_sym(&tok, sp).expected(want.dup())))
                    }
                }
                None => Err(Fail::One(END_INDEX, E::unexpected_end())),
            }
        }
        Pattern::Exact(items) => {
            let cp = s.checkpoint();
            exact_run::<T, M, E>(items, s, cp)
        }
        Pattern::Permit(m) => {
            let cp = s.checkpoint();
            match s.next() {
                Some((idx, tok)) => {
                    if m.allows(&tok) {
                        Ok((Value::Tok(tok), Fail::Silent))
                    } else {
                        let sp: Option<Bounds> = s.span_from(cp);
                        s.rewind(cp);
                        Err(Fail::One(idx, E::unexpected_sym(&tok, sp)))
                    }
                }
                None => Err(Fail::One(END_INDEX, E::unexpected_end())),
            }
        }
        Pattern::PermitMap(m) => {
            let cp = s.checkpoint();
            match s.next() {
                Some((idx, tok)) => {
                    let t2 = tok.dup();
                    match m.filter(t2) {
                        Some(v) => Ok((v, Fail::Silent)),
                        None => {
                            let sp: Option<Bounds> = s.span_from(cp);
                            s.rewind(cp);
                            Err(Fail::One(idx, E::unexpected_sym(&tok, sp)))
                        }
                    }
                }
                None => Err(Fail::One(END_INDEX, E::unexpected_end())),
            }
        }
        Pattern::Nested(m, inner) => {
            let cp = s.checkpoint();
            match s.next() {
                Some((idx, tok)) => {
                    let t2 = tok.dup();
                    match m.child_tokens(t2) {
                        Some(sub) => {
                            let mut sub_stream = Stream::new(sub.as_slice());
                            match attempt(inner, &mut sub_stream, fuel) {
                                Ok((v, _)) => Ok((v, Fail::Silent)),
                                Err(f) => {
                                    s.rewind(cp);
                                    Err(f.shift(idx))
                                }
                            }
                        }
                        None => {
                            let sp: Option<Bounds> = s.span_from(cp);
                            s.rewind(cp);
                            Err(Fail::One(idx, E::unexpected_sym(&tok, sp)))
                        }
                    }
                }
                None => Err(Fail::One(END_INDEX, E::unexpected_end())),
            }
        }
        Pattern::MapVal(a, m) => {
            match attempt(a, s, fuel) {
                Ok((v, f)) => Ok((m.apply(v), f)),
                Err(f) => Err(f),
            }
        }
        Pattern::MapSpan(a, m) => {
            let cp = s.checkpoint();
            match attempt(a, s, fuel) {
                Ok((v, f)) => {
                    let sp: Option<Bounds> = s.span_from(cp);
                    Ok((m.apply_with_span(v, sp), f))
                }
                Err(f) => Err(f),
            }
        }
        Pattern::MapErr(a, m) => {
            match attempt(a, s, fuel) {
                Ok((v, f)) => Ok((v, f.map(m))),
                Err(f) => Err(f.map(m)),
            }
        }
        Pattern::Context(a, ctx) => {
            match attempt(a, s, fuel) {
                Ok((v, f)) => Ok((v, f.in_context(ctx))),
                Err(f) => Err(f.in_context(ctx)),
            }
        }
        Pattern::To(a, out) => {
            match attempt(a, s, fuel) {
                Ok((_, f)) => Ok((out.cloned(), f)),
                Err(f) => Err(f),
            }
        }
        Pattern::Then(a, b) => {
            let cp = s.checkpoint();
            match attempt(a, s, fuel) {
                Err(f) => Err(f),
                Ok((va, fa)) => {
                    match attempt(b, s, fuel) {
                        Err(g) => {
                            s.rewind(cp);
                            Err(fa.max(g))
                        }
                        Ok((vb, gb)) => Ok((
                            Value::Pair(Box::new(va), Box::new(vb)),
                            fa.max(gb),
                        )),
                    }
                }
            }
        }
        Pattern::Chain(a, b) => {
            let cp = s.checkpoint();
            match attempt(a, s, fuel) {
                Err(f) => Err(f),
                Ok((va, fa)) => {
                    match attempt(b, s, fuel) {
                        Err(g) => {
                            s.rewind(cp);
                            Err(fa.max(g))
                        }
                        Ok((vb, gb)) => {
                            let joined = va.into_items().append(vb.into_items());
                            Ok((Value::List(Box::new(joined)), fa.max(gb)))
                        }
                    }
                }
            }
        }
        Pattern::Or(a, b) => {
            match attempt(a, s, fuel) {
                Ok(x) => Ok(x),
                Err(fa) => {
                    match attempt(b, s, fuel) {
                        Ok((v, fb)) => Ok((v, fa.max(fb))),
                        Err(fb) => Err(fa.max(fb)),
                    }
                }
            }
        }
        Pattern::PaddingFor(a, b) => {
            let cp = s.checkpoint();
            match attempt(a, s, fuel) {
                Err(f) => Err(f),
                Ok((_, fa)) => {
                    match attempt(b, s, fuel) {
                        Err(g) => {
                            s.rewind(cp);
                            Err(fa.max(g))
                        }
                        Ok((vb, gb)) => Ok((vb, fa.max(gb))),
                    }
                }
            }
        }
        Pattern::PaddedBy(a, b) => {
            let cp = s.checkpoint();
            match attempt(a, s, fuel) {
                Err(f) => Err(f),
                Ok((va, fa)) => {
                    match attempt(b, s, fuel) {
                        Err(g) => {
                            s.rewind(cp);
                            Err(fa.max(g))
                        }
                        Ok((_, gb)) => Ok((va, fa.max(gb))),
                    }
                }
            }
        }
        Pattern::Repeated(a) => repeat_run(a, s, fuel),
        Pattern::OnceOrMore(a) => {
            let cp = s.checkpoint();
            match attempt(a, s, fuel) {
                Err(f) => Err(f),
                Ok((v, _)) => {
                    let p1 = s.checkpoint();
                    if p1 > cp {
                        match repeat_run(a, s, fuel) {
                            Ok((v2, f)) => match v2 {
                                Value::List(l) => Ok((
                                    Value::List(Box::new(Items::Cons(v, l))),
                                    f,
                                )),
                                other => Ok((other, f)),
                            },
                            Err(f) => {
                                s.rewind(cp);
                                Err(f)
                            }
                        }
                    } else {
                        Ok((
                            Value::List(Box::new(Items::Cons(v, Box::new(Items::Nil)))),
                            Fail::Silent,
                        ))
                    }
                }
            }
        }
        Pattern::SeparatedBy(a, b) => sep_run(a, b, s, fuel),
        Pattern::OrNot(a) => {
            match attempt(a, s, fuel) {
                Ok((v, f)) => Ok((Value::Maybe(Some(Box::new(v))), f)),
                Err(f) => Ok((Value::Maybe(None), f)),
            }
        }
        Pattern::Chained(a) => {
            match attempt(a, s, fuel) {
                Ok((v, f)) => Ok((
                    Value::List(Box::new(Items::Cons(v, Box::new(Items::Nil)))),
                    f,
                )),
                Err(f) => Err(f),
            }
        }
        Pattern::ReduceLeft(a, m) => {
            match attempt(a, s, fuel) {
                Ok((v, f)) => Ok((reduce_left_run(m, v), f)),
                Err(f) => Err(f),
            }
        }
        Pattern::ReduceRight(a, m) => {
            match attempt(a, s, fuel) {
                Ok((v, f)) => Ok((reduce_right_run(m, v), f)),
                Err(f) => Err(f),
            }
        }
        Pattern::Rec(a) => {
            if fuel == 0 {
                Err(Fail::Silent)
            } else {
                let unfolded = a.subst(p);
                attempt(&unfolded, s, fuel - 1)
            }
        }
        Pattern::Link => Err(Fail::Silent),
    }
}

/// Run `Repeated(inner)` on the stream: inner successes accumulate until a
/// failure (which becomes the residual) or an iteration that consumes
/// nothing.
fn repeat_run<'a, T: Token, M: Mapper<T, E>, E: Error<T>>(
    inner: &Pattern<T, M, E>,
    s: &mut Stream<'a, T>,
    fuel: u64,
) -> (r: ParseResult<Value<T>, E>)
    requires
        old(s).wf(),
    ensures
        final(s).all() == old(s).all(),
        final(s).wf(),
        r == parse_spec(
            Pattern::Repeated(Box::new(*inner)),
            old(s).all(),
            old(s).at(),
            fuel as nat,
        ).0,
        final(s).at() == parse_spec(
            Pattern::Repeated(Box::new(*inner)),
            old(s).all(),
            old(s).at(),
            fuel as nat,
        ).1,
        old(s).at() <= final(s).at(),
    decreases fuel, inner.height() + 1, left(s.all(), s.at()), 0int,
{
    let cp = s.checkpoint();
    match attempt(inner, s, fuel) {
        Err(f) => Ok((Value::List(Box::new(Items::Nil)), f)),
        Ok((v, _)) => {
            let p1 = s.checkpoint();
            if p1 > cp {
                match repeat_run(inner, s, fuel) {
                    Ok((v2, f)) => match v2 {
                        Value::List(l) => Ok((Value::List(Box::new(Items::Cons(v, l))), f)),
                        other => Ok((other, f)),
                    },
                    Err(f) => {
                        s.rewind(cp);
                        Err(f)
                    }
                }
            } else {
                Ok((
                    Value::List(Box::new(Items::Cons(v, Box::new(Items::Nil)))),
                    Fail::Silent,
                ))
            }
        }
    }
}

/// Run `SeparatedBy(a, b)` on the stream: `a`-outputs accumulate with a
/// `b` between each two; a trailing separator is given back.
fn sep_run<'a, T: Token, M: Mapper<T, E>, E: Error<T>>(
    a: &Pattern<T, M, E>,
    b: &Pattern<T, M, E>,
    s: &mut Stream<'a, T>,
    fuel: u64,
) -> (r: ParseResult<Value<T>, E>)
    requires
        old(s).wf(),
    ensures
        final(s).all() == old(s).all(),
        final(s).wf(),
        r == parse_spec(
            Pattern::SeparatedBy(Box::new(*a), Box::new(*b)),
            old(s).all(),
            old(s).at(),
            fuel as nat,
        ).0,
        final(s).at() == parse_spec(
            Pattern::SeparatedBy(Box::new(*a), Box::new(*b)),
            old(s).all(),
            old(s).at(),
            fuel as nat,
        ).1,
        old(s).at() <= final(s).at(),
    decreases fuel, Pattern::<T, M, E>::max_height(a.height(), b.height()) + 1, left(s.all(), s.at()), 0int,
{
    let cp = s.checkpoint();
    match attempt(a, s, fuel) {
        Err(f) => Ok((Value::List(Box::new(Items::Nil)), f)),
        Ok((v, _)) => {
            let p1 = s.checkpoint();
            if p1 > cp {
                match attempt(b, s, fuel) {
                    Err(g) => Ok((
                        Value::List(Box::new(Items::Cons(v, Box::new(Items::Nil)))),
                        g,
                    )),
                    Ok((_, _)) => {
                        match sep_run(a, b, s, fuel) {
                            Ok((v2, f)) => match v2 {
                                Value::List(l) => match *l {
                                    Items::Nil => {
                                        s.rewind(p1);
                                        Ok((
                                            Value::List(Box::new(Items::Cons(
                                                v,
                                                Box::new(Items::Nil),
                                            ))),
                                            f,
                                        ))
                                    }
                                    Items::Cons(h, t) => Ok((
                                        Value::List(Box::new(Items::Cons(
                                            v,
                                            Box::new(Items::Cons(h, t)),
                                        ))),
                                        f,
                                    )),
                                },
                                other => Ok((other, f)),
                            },
                            Err(f) => {
                                s.rewind(cp);
                                Err(f)
                            }
                        }
                    }
                }
            } else {
                Ok((
                    Value::List(Box::new(Items::Cons(v, Box::new(Items::Nil)))),
                    Fail::Silent,
                ))
            }
        }
    }
}

/// Run `Exact(items)` on the stream: each token of `items` must equal the
/// input token in turn; any failure restores the position `start` the run
/// began at.
fn exact_run<'a, T: Token, M: Mapper<T, E>, E: Error<T>>(
    items: &Items<T>,
    s: &mut Stream<'a, T>,
    start: Index,
) -> (r: ParseResult<Value<T>, E>)
    requires
        old(s).wf(),
        start <= old(s).at(),
    ensures
        final(s).all() == old(s).all(),
        final(s).wf(),
        r == exact_spec::<T, M, E>(*items, old(s).all(), start as int, old(s).at()).0,
        final(s).at() == exact_spec::<T, M, E>(
            *items,
            old(s).all(),
            start as int,
            old(s).at(),
        ).1,
    decreases items,
{
    match items {
        Items::Nil => Ok((Value::List(Box::new(Items::Nil)), Fail::Silent)),
        Items::Cons(want, rest) => {
            match s.next() {
                Some((idx, tok)) => {
                    if tok.tok_eq(want) {
                        match exact_run::<T, M, E>(rest, s, start) {
                            Ok((v, f)) => match v {
                                Value::List(l) => Ok((
                                    Value::List(Box::new(Items::Cons(Value::Tok(tok), l))),
                                    f,
                                )),
                                other => Ok((other, f)),
                            },
                            Err(f) => Err(f),
                        }
                    } else {
                        let sp: Option<Bounds> = s.span_from(start);
                        s.rewind(start);
                        Err(Fail::One(idx, E::unexpected_sym(&tok, sp).expected(want.dup())))
                    }
                }
                None => {
                    s.rewind(start);
                    Err(Fail::One(END_INDEX, E::unexpected_end()))
                }
            }
        }
    }
}

/// Build [`reduce_left_val`]: fold a `Pair(init, List(items))` output from
/// the left.
fn reduce_left_run<T: Token, M: Mapper<T, E>, E: Error<T>>(m: &M, v: Value<T>) -> (r: Value<T>)
    ensures
        r == reduce_left_val(*m, v),
{
    match v {
        Value::Pair(init, rest) => match *rest {
            Value::List(l) => fold_left_run(m, *init, *l),
            other => Value::Pair(init, Box::new(other)),
        },
        other => other,
    }
}

/// Build [`reduce_right_val`]: fold a `Pair(List(items), init)` output from
/// the right.
fn reduce_right_run<T: Token, M: Mapper<T, E>, E: Error<T>>(m: &M, v: Value<T>) -> (r: Value<T>)
    ensures
        r == reduce_right_val(*m, v),
{
    match v {
        Value::Pair(rest, init) => match *rest {
            Value::List(l) => fold_right_run(m, *l, *init),
            other => Value::Pair(Box::new(other), init),
        },
        other => other,
    }
}

/// Build [`fold_left_spec`].
fn fold_left_run<T: Token, M: Mapper<T, E>, E: Error<T>>(
    m: &M,
    acc: Value<T>,
    items: Items<Value<T>>,
) -> (r: Value<T>)
    ensures
        r == fold_left_spec(*m, acc, items),
    decreases items,
{
    match items {
        Items::Nil => acc,
        Items::Cons(head, tail) => {
            let next = m.combine(acc, head);
            fold_left_run(m, next, *tail)
        }
    }
}

/// Build [`fold_right_spec`].
fn fold_right_run<T: Token, M: Mapper<T, E>, E: Error<T>>(
    m: &M,
    items: Items<Value<T>>,
    acc: Value<T>,
) -> (r: Value<T>)
    ensures
        r == fold_right_spec(*m, items, acc),
    decreases items,
{
    match items {
        Items::Nil => acc,
        Items::Cons(head, tail) => {
            let rest = fold_right_run(m, *tail, acc);
            m.combine(head, rest)
        }
    }
}

} // verus!
