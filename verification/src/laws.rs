//! The laws of the combinator algebra, proved once and for all against the
//! semantics [`parse_spec`].
//!
//! Together with [`crate::interp::lemma_parse_spec_range`] (failure never
//! consumes, success never moves backward) and the contract of
//! [`crate::interp::attempt`] (the interpreter returns exactly what the
//! semantics specifies), these pin down the behavior every grammar can rely
//! on.

use vstd::prelude::*;
use crate::Pattern;
use crate::error::Error;
use crate::fail::Fail;
use crate::interp::{lemma_parse_spec_range, parse_spec};
use crate::mapper::Mapper;
use crate::value::{items_of_seq, Items, Value};

verus! {

/// Non-consuming failure, and forward-only success: a failing parse leaves
/// the position exactly where it was, and a succeeding parse never moves it
/// backward nor past the end of the input.  The interpreter realizes this
/// literally: `attempt` ensures the stream's final position is the one
/// given here.
pub proof fn lemma_failure_keeps_position<T, M: Mapper<T, E>, E: Error<T>>(
    p: Pattern<T, M, E>,
    toks: Seq<T>,
    pos: int,
    fuel: nat,
)
    requires
        0 <= pos <= toks.len(),
    ensures
        parse_spec(p, toks, pos, fuel).0 is Err ==> parse_spec(p, toks, pos, fuel).1 == pos,
        pos <= parse_spec(p, toks, pos, fuel).1 <= toks.len(),
{
    lemma_parse_spec_range(p, toks, pos, fuel);
}

/// Determinism: parsing is a mathematical function of the pattern, the
/// stream contents and position, and the recursion budget — two invocations
/// on equal streams yield equal results.  The interpreter returns exactly
/// this function's value, so two runs of `attempt` or `parse` on equal
/// streams return equal results and leave equal positions.
pub proof fn lemma_parse_deterministic<T, M: Mapper<T, E>, E: Error<T>>(
    p: Pattern<T, M, E>,
    toks1: Seq<T>,
    pos1: int,
    toks2: Seq<T>,
    pos2: int,
    fuel: nat,
)
    requires
        toks1 == toks2,
        pos1 == pos2,
    ensures
        parse_spec(p, toks1, pos1, fuel) == parse_spec(p, toks2, pos2, fuel),
{
}

/// Mapping with an identity mapper changes nothing: `p.map(m)` and `p`
/// have the same result and leave the stream at the same position whenever
/// `m.spec_apply` is the identity.
pub proof fn lemma_map_identity<T, M: Mapper<T, E>, E: Error<T>>(
    p: Pattern<T, M, E>,
    m: M,
    toks: Seq<T>,
    pos: int,
    fuel: nat,
)
    requires
        0 <= pos <= toks.len(),
        forall|v: Value<T>| #[trigger] m.spec_apply(v) == v,
    ensures
        parse_spec(Pattern::MapVal(Box::new(p), m), toks, pos, fuel) == parse_spec(
            p,
            toks,
            pos,
            fuel,
        ),
{
    lemma_parse_spec_range(p, toks, pos, fuel);
}

/// `p.or(p)` behaves as `p` on success: where `p` succeeds, the choice
/// returns the very same output, residual and position; and where `p`
/// fails, the choice fails too, at the same position.
pub proof fn lemma_or_idempotent<T, M: Mapper<T, E>, E: Error<T>>(
    p: Pattern<T, M, E>,
    toks: Seq<T>,
    pos: int,
    fuel: nat,
)
    requires
        0 <= pos <= toks.len(),
    ensures
        parse_spec(p, toks, pos, fuel).0 is Ok ==> parse_spec(
            Pattern::Or(Box::new(p), Box::new(p)),
            toks,
            pos,
            fuel,
        ) == parse_spec(p, toks, pos, fuel),
        parse_spec(p, toks, pos, fuel).0 is Err ==> parse_spec(
            Pattern::Or(Box::new(p), Box::new(p)),
            toks,
            pos,
            fuel,
        ).0 is Err && parse_spec(Pattern::Or(Box::new(p), Box::new(p)), toks, pos, fuel).1
            == parse_spec(p, toks, pos, fuel).1,
{
    lemma_parse_spec_range(p, toks, pos, fuel);
}

/// `p.or_not()` degrades gracefully: it never fails; where `p` succeeds it
/// wraps the output, and where `p` fails it yields `Maybe(None)` at the
/// entry position, keeping the failure as residual.
pub proof fn lemma_or_not_total<T, M: Mapper<T, E>, E: Error<T>>(
    p: Pattern<T, M, E>,
    toks: Seq<T>,
    pos: int,
    fuel: nat,
)
    ensures
        parse_spec(Pattern::OrNot(Box::new(p)), toks, pos, fuel).0 is Ok,
        parse_spec(p, toks, pos, fuel).0 matches Ok(q) ==> parse_spec(
            Pattern::OrNot(Box::new(p)),
            toks,
            pos,
            fuel,
        ) == (
            Ok::<_, Fail<E>>((Value::Maybe(Some(Box::new(q.0))), q.1)),
            parse_spec(p, toks, pos, fuel).1,
        ),
        parse_spec(p, toks, pos, fuel).0 matches Err(f) ==> parse_spec(
            Pattern::OrNot(Box::new(p)),
            toks,
            pos,
            fuel,
        ) == (Ok::<_, Fail<E>>((Value::Maybe(None::<Box<Value<T>>>), f)), pos),
{
}

/// Ordered choice commutes on outputs where the branches never both
/// succeed: if at most one of `a`, `b` succeeds on this stream, then
/// `a.or(b)` and `b.or(a)` agree on success, on the output, and on the
/// position.
pub proof fn lemma_or_commutes_when_exclusive<T, M: Mapper<T, E>, E: Error<T>>(
    a: Pattern<T, M, E>,
    b: Pattern<T, M, E>,
    toks: Seq<T>,
    pos: int,
    fuel: nat,
)
    requires
        !(parse_spec(a, toks, pos, fuel).0 is Ok && parse_spec(b, toks, pos, fuel).0 is Ok),
    ensures
        ({
            let ab = parse_spec(Pattern::Or(Box::new(a), Box::new(b)), toks, pos, fuel);
            let ba = parse_spec(Pattern::Or(Box::new(b), Box::new(a)), toks, pos, fuel);
            &&& (ab.0 is Ok <==> ba.0 is Ok)
            &&& (ab.0 matches Ok(q1) ==> (ba.0 matches Ok(q2) && q1.0 == q2.0))
            &&& ab.1 == ba.1
        }),
{
}

/// Furthest position wins: the merge of two failures reaches exactly as
/// far as the further of the two.
pub proof fn lemma_max_furthest<T, E: Error<T>>(a: Fail<E>, b: Fail<E>)
    ensures
        a.spec_max(b).spec_furthest() == if a.spec_furthest() > b.spec_furthest() {
            a.spec_furthest()
        } else {
            b.spec_furthest()
        },
{
}

/// Furthest position surfaces through choice: where both branches of
/// `a.or(b)` fail, the reported failure's position is the maximum of the
/// two branches' positions.
pub proof fn lemma_or_furthest<T, M: Mapper<T, E>, E: Error<T>>(
    a: Pattern<T, M, E>,
    b: Pattern<T, M, E>,
    toks: Seq<T>,
    pos: int,
    fuel: nat,
)
    requires
        parse_spec(a, toks, pos, fuel).0 is Err,
        parse_spec(b, toks, pos, fuel).0 is Err,
    ensures
        ({
            let fa = parse_spec(a, toks, pos, fuel).0->Err_0;
            let fb = parse_spec(b, toks, pos, fuel).0->Err_0;
            let or_r = parse_spec(Pattern::Or(Box::new(a), Box::new(b)), toks, pos, fuel);
            &&& or_r.0 matches Err(f) && f.spec_furthest() == if fa.spec_furthest()
                > fb.spec_furthest() {
                fa.spec_furthest()
            } else {
                fb.spec_furthest()
            }
        }),
{
    let fa = parse_spec(a, toks, pos, fuel).0->Err_0;
    let fb = parse_spec(b, toks, pos, fuel).0->Err_0;
    lemma_max_furthest::<T, E>(fa, fb);
}

/// Greediness of `repeated`: where `p` succeeds `k` times in a row, each
/// time consuming at least one token, and then fails, `p.repeated()`
/// returns exactly those `k` outputs in order, leaves the stream at the
/// position of the failure, and keeps that failure as the residual.
pub proof fn lemma_repeated_greedy<T, M: Mapper<T, E>, E: Error<T>>(
    p: Pattern<T, M, E>,
    toks: Seq<T>,
    fuel: nat,
    k: nat,
    ps: Seq<int>,
    vs: Seq<Value<T>>,
)
    requires
        ps.len() == k + 1,
        vs.len() == k,
        forall|i: int| 0 <= i <= k ==> 0 <= #[trigger] ps[i] <= toks.len(),
        forall|i: int| 0 <= i < k ==> #[trigger] ps[i] < ps[i + 1],
        forall|i: int|
            0 <= i < k ==> ((#[trigger] parse_spec(p, toks, ps[i], fuel)).0 matches Ok(q)
                && q.0 == vs[i] && parse_spec(p, toks, ps[i], fuel).1 == ps[i + 1]),
        parse_spec(p, toks, ps[k as int], fuel).0 is Err,
    ensures
        ({
            let f_end = parse_spec(p, toks, ps[k as int], fuel).0->Err_0;
            parse_spec(Pattern::Repeated(Box::new(p)), toks, ps[0], fuel) == (
                Ok::<_, Fail<E>>((Value::List(Box::new(items_of_seq(vs))), f_end)),
                ps[k as int],
            )
        }),
    decreases k,
{
    if k == 0 {
        assert(vs =~= Seq::<Value<T>>::empty());
    } else {
        let ps2 = ps.skip(1);
        let vs2 = vs.skip(1);
        assert forall|i: int| 0 <= i <= k - 1 implies 0 <= #[trigger] ps2[i] <= toks.len() by {
            assert(ps2[i] == ps[i + 1]);
        }
        assert forall|i: int| 0 <= i < k - 1 implies #[trigger] ps2[i] < ps2[i + 1] by {
            assert(ps2[i] == ps[i + 1]);
            assert(ps2[i + 1] == ps[i + 2]);
        }
        assert forall|i: int|
            0 <= i < k - 1 implies ((#[trigger] parse_spec(p, toks, ps2[i], fuel)).0 matches Ok(q)
                && q.0 == vs2[i] && parse_spec(p, toks, ps2[i], fuel).1 == ps2[i + 1]) by {
            assert(ps2[i] == ps[i + 1]);
            assert(ps2[i + 1] == ps[i + 2]);
            assert(vs2[i] == vs[i + 1]);
            assert((#[trigger] parse_spec(p, toks, ps[i + 1], fuel)).0 matches Ok(q) && q.0 == vs[
                i + 1
            ] && parse_spec(p, toks, ps[i + 1], fuel).1 == ps[i + 2]);
        }
        assert(ps2[(k - 1) as int] == ps[k as int]);
        lemma_repeated_greedy(p, toks, fuel, (k - 1) as nat, ps2, vs2);
        assert((parse_spec(p, toks, ps[0], fuel)).0 matches Ok(q) && q.0 == vs[0]
            && parse_spec(p, toks, ps[0], fuel).1 == ps[1]);
        assert(items_of_seq(vs) == Items::Cons(vs[0], Box::new(items_of_seq(vs2))));
    }
}

/// Rollback of `then`: where `a` succeeds and `b` then fails, `a.then(b)`
/// fails and the stream stands where it stood before `a` ran.
pub proof fn lemma_then_rollback<T, M: Mapper<T, E>, E: Error<T>>(
    a: Pattern<T, M, E>,
    b: Pattern<T, M, E>,
    toks: Seq<T>,
    pos: int,
    fuel: nat,
)
    requires
        parse_spec(a, toks, pos, fuel).0 is Ok,
        parse_spec(b, toks, parse_spec(a, toks, pos, fuel).1, fuel).0 is Err,
    ensures
        parse_spec(Pattern::Then(Box::new(a), Box::new(b)), toks, pos, fuel).0 is Err,
        parse_spec(Pattern::Then(Box::new(a), Box::new(b)), toks, pos, fuel).1 == pos,
{
}

} // verus!
