use parze::END_INDEX;
use parze::region::Region;
use parze::span::Span;
use parze::declare::declare;
use parze::error::{DefaultError, EmptyError, SimpleError};
use parze::fail::Fail;
use parze::mapper::{Mapper, Unchanged};
use parze::primitives::{any, end, just, nested_parse, permit, permit_map};
use parze::span::Bounds;
use parze::stream::Stream;
use parze::value::{Items, Value};

fn vtok(c: char) -> Value<char> {
    Value::Tok(c)
}

fn vlist(vs: Vec<Value<char>>) -> Value<char> {
    let mut items = Items::Nil;
    for v in vs.into_iter().rev() {
        items = Items::Cons(v, Box::new(items));
    }
    Value::List(Box::new(items))
}

fn vpair(a: Value<char>, b: Value<char>) -> Value<char> {
    Value::Pair(Box::new(a), Box::new(b))
}

fn expected_of(cs: Vec<char>) -> Items<char> {
    let mut items = Items::Nil;
    for c in cs.into_iter().rev() {
        items = Items::Cons(c, Box::new(items));
    }
    items
}

#[derive(Clone, Copy)]
enum Op {
    Keep,
    OpenGroup,
    PairUp,
    OnlyBang,
    DigitOnly,
    TagSpan,
}

impl Mapper<char, EmptyError<char>> for Op {
    // Specification stubs: never called at run time.
    fn spec_apply(&self, _v: Value<char>) -> Value<char> {
        panic!()
    }

    fn spec_apply_with_span(&self, _v: Value<char>, _at: Option<Bounds>) -> Value<char> {
        panic!()
    }

    fn spec_fix_err(&self, _e: EmptyError<char>) -> EmptyError<char> {
        panic!()
    }

    fn spec_combine(&self, _a: Value<char>, _b: Value<char>) -> Value<char> {
        panic!()
    }

    fn spec_allows(&self, _t: char) -> bool {
        panic!()
    }

    fn spec_filter(&self, _t: char) -> Option<Value<char>> {
        panic!()
    }

    fn spec_child_tokens(&self, _t: char) -> Option<vstd::seq::Seq<char>> {
        panic!()
    }

    fn apply(&self, v: Value<char>) -> Value<char> {
        v
    }

    fn apply_with_span(&self, v: Value<char>, at: Option<Bounds>) -> Value<char> {
        match self {
            Op::TagSpan => {
                if at == Some(Bounds { lo: 0, hi: 1 }) {
                    Value::Pair(Box::new(v), Box::new(Value::Unit))
                } else {
                    v
                }
            }
            _ => v,
        }
    }

    fn fix_err(&self, e: EmptyError<char>) -> EmptyError<char> {
        e
    }

    fn combine(&self, a: Value<char>, b: Value<char>) -> Value<char> {
        match self {
            Op::PairUp => Value::Pair(Box::new(a), Box::new(b)),
            _ => a,
        }
    }

    fn allows(&self, t: &char) -> bool {
        match self {
            Op::OnlyBang => *t == '!',
            _ => true,
        }
    }

    fn filter(&self, t: char) -> Option<Value<char>> {
        match self {
            Op::DigitOnly => {
                if t.is_ascii_digit() {
                    Some(Value::Tok(t))
                } else {
                    None
                }
            }
            _ => Some(Value::Tok(t)),
        }
    }

    fn child_tokens(&self, t: char) -> Option<Vec<char>> {
        match self {
            Op::OpenGroup => {
                if t == 'G' {
                    Some(vec!['a', 'b'])
                } else {
                    None
                }
            }
            _ => None,
        }
    }

    fn dup(&self) -> Self {
        *self
    }
}

#[derive(Clone, Copy)]
struct StripExpected;

impl Mapper<char, SimpleError<char>> for StripExpected {
    // Specification stubs: never called at run time.
    fn spec_apply(&self, _v: Value<char>) -> Value<char> {
        panic!()
    }

    fn spec_apply_with_span(&self, _v: Value<char>, _at: Option<Bounds>) -> Value<char> {
        panic!()
    }

    fn spec_fix_err(&self, _e: SimpleError<char>) -> SimpleError<char> {
        panic!()
    }

    fn spec_combine(&self, _a: Value<char>, _b: Value<char>) -> Value<char> {
        panic!()
    }

    fn spec_allows(&self, _t: char) -> bool {
        panic!()
    }

    fn spec_filter(&self, _t: char) -> Option<Value<char>> {
        panic!()
    }

    fn spec_child_tokens(&self, _t: char) -> Option<vstd::seq::Seq<char>> {
        panic!()
    }

    fn apply(&self, v: Value<char>) -> Value<char> {
        v
    }

    fn apply_with_span(&self, v: Value<char>, _at: Option<Bounds>) -> Value<char> {
        v
    }

    fn fix_err(&self, e: SimpleError<char>) -> SimpleError<char> {
        SimpleError { found: e.found, at: e.at, expected: None }
    }

    fn combine(&self, a: Value<char>, _b: Value<char>) -> Value<char> {
        a
    }

    fn allows(&self, _t: &char) -> bool {
        true
    }

    fn filter(&self, t: char) -> Option<Value<char>> {
        Some(Value::Tok(t))
    }

    fn child_tokens(&self, _t: char) -> Option<Vec<char>> {
        None
    }

    fn dup(&self) -> Self {
        StripExpected
    }
}

#[test]
fn seq_matches_run() {
    let p = parze::primitives::seq::<char, Unchanged, DefaultError<char>>(vec!['a', 'b']);

    assert_eq!(p.parse(&vec!['a', 'b']), Ok(vlist(vec![vtok('a'), vtok('b')])));
    assert_eq!(p.parse(&vec!['a', 'b', 'c']), Ok(vlist(vec![vtok('a'), vtok('b')])));
    assert!(p.parse(&vec!['a', 'x']).is_err());
    assert!(p.parse(&vec!['a']).is_err());
    assert!(p.parse(&vec![]).is_err());
}

#[test]
fn chain_concatenates() {
    let p = just::<char, Unchanged, DefaultError<char>>('a')
        .chained()
        .chain(just('b').chained());

    assert_eq!(p.parse(&vec!['a', 'b']), Ok(vlist(vec![vtok('a'), vtok('b')])));
    assert!(p.parse(&vec!['a']).is_err());
}

#[test]
fn padding_keeps_one_side() {
    let p = just::<char, Unchanged, DefaultError<char>>('(')
        .padding_for(just('x'))
        .padded_by(just(')'));

    assert_eq!(p.parse(&vec!['(', 'x', ')']), Ok(vtok('x')));
    assert!(p.parse(&vec!['(', 'x']).is_err());
}

#[test]
fn separated_by_leaves_trailing_separator() {
    let p = just::<char, Unchanged, DefaultError<char>>('x').separated_by(just(','));

    assert_eq!(
        p.parse(&vec!['x', ',', 'x', ',', 'x']),
        Ok(vlist(vec![vtok('x'), vtok('x'), vtok('x')])),
    );
    assert_eq!(p.parse(&vec!['x', ',', 'x', ',']), Ok(vlist(vec![vtok('x'), vtok('x')])));
    assert_eq!(p.parse(&vec![]), Ok(vlist(vec![])));

    // The trailing separator stays unconsumed: the next parser still sees it.
    let q = just::<char, Unchanged, DefaultError<char>>('x')
        .separated_by(just(','))
        .then(just(','));

    assert_eq!(
        q.parse(&vec!['x', ',']),
        Ok(vpair(vlist(vec![vtok('x')]), vtok(','))),
    );
}

#[test]
fn permit_filters_tokens() {
    let p = permit::<char, Op, EmptyError<char>>(Op::OnlyBang);

    assert_eq!(p.parse(&vec!['!']), Ok(vtok('!')));
    assert!(p.parse(&vec!['?']).is_err());
    assert!(p.parse(&vec![]).is_err());
}

#[test]
fn permit_map_filters_and_maps() {
    let p = permit_map::<char, Op, EmptyError<char>>(Op::DigitOnly);

    assert_eq!(p.parse(&vec!['5']), Ok(vtok('5')));
    assert!(p.parse(&vec!['x']).is_err());
}

#[test]
fn nested_parse_opens_group_token() {
    let inner = just::<char, Op, EmptyError<char>>('a').then(just('b'));
    let p = nested_parse(Op::OpenGroup, inner);

    assert_eq!(p.parse(&vec!['G']), Ok(vpair(vtok('a'), vtok('b'))));
    assert!(p.parse(&vec!['x']).is_err());
    assert!(p.parse(&vec![]).is_err());
}

#[test]
fn reduce_left_folds() {
    let p = just::<char, Op, EmptyError<char>>('a')
        .then(just('b').repeated())
        .reduce_left(Op::PairUp);

    assert_eq!(
        p.parse(&vec!['a', 'b', 'b']),
        Ok(vpair(vpair(vtok('a'), vtok('b')), vtok('b'))),
    );
}

#[test]
fn reduce_right_folds() {
    let p = just::<char, Op, EmptyError<char>>('a')
        .repeated()
        .then(just('z'))
        .reduce_right(Op::PairUp);

    assert_eq!(
        p.parse(&vec!['a', 'a', 'z']),
        Ok(vpair(vtok('a'), vpair(vtok('a'), vtok('z')))),
    );
}

#[test]
fn map_with_span_sees_consumed_region() {
    let p = any::<char, Op, EmptyError<char>>().map_with_span(Op::TagSpan);

    assert_eq!(p.parse(&vec!['q']), Ok(vpair(vtok('q'), Value::Unit)));
}

#[test]
fn map_err_rewrites_errors() {
    let p = just::<char, StripExpected, SimpleError<char>>('a').map_err(StripExpected);

    assert_eq!(
        p.parse(&vec!['b']),
        Err(vec![SimpleError {
            found: Some('b'),
            at: Some(Some(Bounds { lo: 0, hi: 1 })),
            expected: None,
        }]),
    );
}

#[test]
fn context_keeps_simple_error() {
    let p = just::<char, Unchanged, SimpleError<char>>('a').context(());

    assert_eq!(
        p.parse(&vec!['b']),
        Err(vec![SimpleError {
            found: Some('b'),
            at: Some(Some(Bounds { lo: 0, hi: 1 })),
            expected: Some(expected_of(vec!['a'])),
        }]),
    );
}

#[test]
fn simple_error_unexpected_sym() {
    let p = just::<char, Unchanged, SimpleError<char>>('a');

    assert_eq!(
        p.parse(&vec!['b']),
        Err(vec![SimpleError {
            found: Some('b'),
            at: Some(Some(Bounds { lo: 0, hi: 1 })),
            expected: Some(expected_of(vec!['a'])),
        }]),
    );
}

#[test]
fn simple_error_unexpected_end() {
    let p = any::<char, Unchanged, SimpleError<char>>();

    assert_eq!(
        p.parse(&vec![]),
        Err(vec![SimpleError { found: None, at: None, expected: Some(expected_of(vec![])) }]),
    );
}

#[test]
fn simple_error_expected_end() {
    let p = end::<char, Unchanged, SimpleError<char>>();

    assert_eq!(
        p.parse(&vec!['x']),
        Err(vec![SimpleError {
            found: Some('x'),
            at: Some(Some(Bounds { lo: 0, hi: 1 })),
            expected: None,
        }]),
    );
}

#[test]
fn furthest_failure_wins() {
    let p = just::<char, Unchanged, SimpleError<char>>('a')
        .then(just('b'))
        .or(just('x'));

    // The left branch fails at position 1, the right at position 0: the
    // report comes from position 1.
    assert_eq!(
        p.parse(&vec!['a', 'c']),
        Err(vec![SimpleError {
            found: Some('c'),
            at: Some(Some(Bounds { lo: 1, hi: 2 })),
            expected: Some(expected_of(vec!['b'])),
        }]),
    );
}

#[test]
fn tied_failures_merge_expectations() {
    let p = just::<char, Unchanged, SimpleError<char>>('a').or(just('b'));

    assert_eq!(
        p.parse(&vec!['c']),
        Err(vec![SimpleError {
            found: Some('c'),
            at: Some(Some(Bounds { lo: 0, hi: 1 })),
            expected: Some(expected_of(vec!['a', 'b'])),
        }]),
    );
}

#[test]
fn then_rolls_back_on_late_failure() {
    // The first branch consumes 'a' before failing; the second branch must
    // see 'a' again, so `then` restored the stream.
    let p = just::<char, Unchanged, DefaultError<char>>('a')
        .then(just('b'))
        .or(just('a').then(just('c')));

    assert_eq!(p.parse(&vec!['a', 'c']), Ok(vpair(vtok('a'), vtok('c'))));
}

#[test]
fn repeated_is_greedy() {
    let p = just::<char, Unchanged, DefaultError<char>>('!')
        .repeated()
        .then(just('?'));

    assert_eq!(
        p.parse(&vec!['!', '!', '?']),
        Ok(vpair(vlist(vec![vtok('!'), vtok('!')]), vtok('?'))),
    );
}

#[test]
fn parsing_is_deterministic() {
    let p = just::<char, Unchanged, DefaultError<char>>('a').or(just('b')).repeated();
    let input = vec!['a', 'b', 'a', 'c'];

    assert_eq!(p.parse(&input), p.parse(&input));
}

#[test]
fn or_commutes_on_disjoint_branches() {
    let ab = just::<char, Unchanged, DefaultError<char>>('a').or(just('b'));
    let ba = just::<char, Unchanged, DefaultError<char>>('b').or(just('a'));

    assert_eq!(ab.parse(&vec!['a']), ba.parse(&vec!['a']));
    assert_eq!(ab.parse(&vec!['b']), ba.parse(&vec!['b']));
    assert_eq!(ab.parse(&vec!['c']).is_err(), ba.parse(&vec!['c']).is_err());
}

#[test]
fn map_with_identity_changes_nothing() {
    let plain = any::<char, Op, EmptyError<char>>();
    let mapped = any::<char, Op, EmptyError<char>>().map(Op::Keep);

    assert_eq!(mapped.parse(&vec!['z']), plain.parse(&vec!['z']));
    assert_eq!(mapped.parse(&vec![]).is_err(), plain.parse(&vec![]).is_err());
}

#[test]
fn or_not_never_fails() {
    let p = just::<char, Unchanged, DefaultError<char>>('!').or_not();

    assert_eq!(p.parse(&vec!['!']), Ok(Value::Maybe(Some(Box::new(vtok('!'))))));
    assert_eq!(p.parse(&vec!['?']), Ok(Value::Maybe(None)));
}

#[test]
fn boxed_and_cloned_preserve_behavior() {
    let p = just::<char, Unchanged, DefaultError<char>>('a').then(just('b'));
    let q = p.cloned().boxed();

    assert_eq!(q.parse(&vec!['a', 'b']), Ok(vpair(vtok('a'), vtok('b'))));
    assert_eq!(q.parse(&vec!['a', 'b']), p.parse(&vec!['a', 'b']));
}

#[test]
fn stream_checkpoint_and_span() {
    let input = vec!['a', 'b'];
    let mut s = Stream::new(&input);

    let cp = s.checkpoint();
    assert_eq!(cp, 0);
    assert_eq!(s.next(), Some((0, 'a')));
    let sp: Option<Bounds> = s.span_from(cp);
    assert_eq!(sp, Some(Bounds { lo: 0, hi: 1 }));
    assert_eq!(s.next(), Some((1, 'b')));
    assert_eq!(s.next(), None);
    assert_eq!(s.checkpoint(), 2);
}

#[test]
fn fail_max_prefers_furthest() {
    let a: Fail<EmptyError<char>> = Fail::one(3, EmptyError(std::marker::PhantomData));
    let b: Fail<EmptyError<char>> = Fail::one(5, EmptyError(std::marker::PhantomData));

    assert_eq!(a.max::<char>(b).furthest_idx(), 5);

    let c: Fail<EmptyError<char>> = Fail::none();
    let d: Fail<EmptyError<char>> = Fail::one(1, EmptyError(std::marker::PhantomData));
    assert_eq!(c.max::<char>(d).furthest_idx(), 1);
}

#[test]
fn fail_collect_flattens() {
    let errs = Items::Cons(
        EmptyError::<char>(std::marker::PhantomData),
        Box::new(Items::Cons(EmptyError(std::marker::PhantomData), Box::new(Items::Nil))),
    );
    let f: Fail<EmptyError<char>> = Fail::Group(2, errs);

    assert_eq!(f.collect().len(), 2);
    assert_eq!(Fail::<EmptyError<char>>::none().collect().len(), 0);
}

#[test]
fn fail_shift_saturates() {
    let e = EmptyError::<char>(std::marker::PhantomData);
    let f = Fail::one(2, e);
    assert_eq!(f.shift(3).furthest_idx(), 5);

    let e = EmptyError::<char>(std::marker::PhantomData);
    let f = Fail::one(END_INDEX, e);
    assert_eq!(f.shift(4).furthest_idx(), END_INDEX);
}

#[test]
fn parse_inner_keeps_residual_failure() {
    let p = just::<char, Unchanged, EmptyError<char>>('!').or_not();

    assert_eq!(
        p.parse_inner(&vec!['?']),
        Ok((
            Value::Maybe(None),
            Fail::One(0, EmptyError(std::marker::PhantomData)),
        )),
    );
}

#[test]
fn span_and_region_build_intervals() {
    let syms = vec!['a', 'b', 'c'];
    let s: Option<Bounds> = Span::group(&syms, 1, 3);
    assert_eq!(s, Some(Bounds { lo: 1, hi: 3 }));
    let s: Option<Bounds> = Span::single(2, &'c');
    assert_eq!(s, Some(Bounds { lo: 2, hi: 3 }));
    let s: Option<Bounds> = <Option<Bounds> as Span<char>>::none();
    assert_eq!(s, None);

    let r: Option<Bounds> = Region::group(&syms, 0, 2);
    assert_eq!(r, Some(Bounds { lo: 0, hi: 2 }));
    let r: Option<Bounds> = Region::single(0, &'a');
    assert_eq!(r, Some(Bounds { lo: 0, hi: 1 }));
    let r: Option<Bounds> = <Option<Bounds> as Region<char>>::none();
    assert_eq!(r, None);
}

#[test]
fn to_replaces_output() {
    let p = just::<char, Unchanged, DefaultError<char>>('a').to(Value::Unit);

    assert_eq!(p.parse(&vec!['a']), Ok(Value::Unit));
    assert!(p.parse(&vec!['b']).is_err());
}

#[test]
fn declare_and_define_build_recursion() {
    // Balanced parentheses: each level holds at most one nested level.
    let d = declare::<char, Unchanged, DefaultError<char>>();
    let inner = d.link().or_not();
    let p = d.define(just('(').padding_for(inner).padded_by(just(')')));

    assert_eq!(p.parse(&vec!['(', ')']), Ok(Value::Maybe(None)));
    assert_eq!(
        p.parse(&vec!['(', '(', ')', ')']),
        Ok(Value::Maybe(Some(Box::new(Value::Maybe(None))))),
    );
    assert!(p.parse(&vec!['(', '(', ')']).is_err());
}
