use parze::declare::{recursive, Declaration};
use parze::error::{DefaultError, EmptyError};
use parze::mapper::{Mapper, Unchanged};
use parze::primitives::{any, end, just};
use parze::span::Bounds;
use parze::value::{Items, Value};

fn chars_of(s: &str) -> Vec<char> {
    s.chars().collect()
}

fn tok(c: char) -> Value<char> {
    Value::Tok(c)
}

fn list(vs: Vec<Value<char>>) -> Value<char> {
    let mut items = Items::Nil;
    for v in vs.into_iter().rev() {
        items = Items::Cons(v, Box::new(items));
    }
    Value::List(Box::new(items))
}

fn pair(a: Value<char>, b: Value<char>) -> Value<char> {
    Value::Pair(Box::new(a), Box::new(b))
}

#[derive(Clone, Copy)]
struct ToQm;

impl Mapper<char, EmptyError<char>> for ToQm {
    // Specification stubs: never called at run time.
    fn spec_apply(&self, _v: Value<char>) -> Value<char> {
        panic!()
    }

    fn spec_apply_with_span(&self, _v: Value<char>, _at: Option<Bounds>) -> Value<char> {
        panic!()
    }

    fn spec_fix_err(&self, _e: EmptyError<char>) -> EmptyError<char> {
        panic!()
    }

    fn spec_combine(&self, _a: Value<char>, _b: Value<char>) -> Value<char> {
        panic!()
    }

    fn spec_allows(&self, _t: char) -> bool {
        panic!()
    }

    fn spec_filter(&self, _t: char) -> Option<Value<char>> {
        panic!()
    }

    fn spec_child_tokens(&self, _t: char) -> Option<vstd::seq::Seq<char>> {
        panic!()
    }

    fn apply(&self, _v: Value<char>) -> Value<char> {
        Value::Tok('?')
    }

    fn apply_with_span(&self, v: Value<char>, _at: Option<Bounds>) -> Value<char> {
        v
    }

    fn fix_err(&self, e: EmptyError<char>) -> EmptyError<char> {
        e
    }

    fn combine(&self, a: Value<char>, _b: Value<char>) -> Value<char> {
        a
    }

    fn allows(&self, _t: &char) -> bool {
        true
    }

    fn filter(&self, t: char) -> Option<Value<char>> {
        Some(Value::Tok(t))
    }

    fn child_tokens(&self, _t: char) -> Option<Vec<char>> {
        None
    }

    fn dup(&self) -> Self {
        ToQm
    }
}

#[test]
fn a() {
    // Any

    let p = any::<char, Unchanged, DefaultError<char>>();

    assert_eq!(p.parse(&vec!['!']), Ok(tok('!')));
    assert!(p.parse(&vec![]).is_err());

    // End

    let p = end::<char, Unchanged, DefaultError<char>>();

    assert_eq!(p.parse(&vec![]), Ok(Value::Unit));
    assert!(p.parse(&vec!['!']).is_err());

    // Map

    let p = any::<char, ToQm, DefaultError<char>>().map(ToQm);

    assert_eq!(p.parse(&vec!['!']), Ok(tok('?')));

    // Just

    let p = just::<char, Unchanged, DefaultError<char>>('!');

    assert!(p.parse(&vec!['?']).is_err());

    // Then

    let p = just::<char, Unchanged, DefaultError<char>>('!').then(just('?'));

    assert_eq!(p.parse(&vec!['!', '?']), Ok(pair(tok('!'), tok('?'))));
    assert!(p.parse(&vec!['!', '!']).is_err());
    assert!(p.parse(&vec!['?', '?']).is_err());

    // Or

    let p = just::<char, Unchanged, DefaultError<char>>('!').or(just('?'));

    assert_eq!(p.parse(&vec!['!']), Ok(tok('!')));
    assert_eq!(p.parse(&vec!['?']), Ok(tok('?')));
    assert!(p.parse(&vec!['@']).is_err());

    // Repeated

    let p = just::<char, Unchanged, DefaultError<char>>('!').repeated();

    assert_eq!(p.parse(&vec!['!', '!', '!']), Ok(list(vec![tok('!'), tok('!'), tok('!')])));
    assert_eq!(p.parse(&vec!['!', '!', '?']), Ok(list(vec![tok('!'), tok('!')])));
    assert_eq!(p.parse(&vec!['?']), Ok(list(vec![])));
    assert_eq!(p.parse(&vec![]), Ok(list(vec![])));

    // OnceOrMore

    let p = just::<char, Unchanged, DefaultError<char>>('!').once_or_more();

    assert_eq!(p.parse(&vec!['!', '!', '!']), Ok(list(vec![tok('!'), tok('!'), tok('!')])));
    assert_eq!(p.parse(&vec!['!', '!', '?']), Ok(list(vec![tok('!'), tok('!')])));
    assert_eq!(p.parse(&vec!['!', '?']), Ok(list(vec![tok('!')])));
    assert!(p.parse(&vec!['?']).is_err());
    assert!(p.parse(&vec![]).is_err());

    // OrNot

    let p = just::<char, Unchanged, DefaultError<char>>('!').or_not();

    assert_eq!(p.parse(&vec!['!']), Ok(Value::Maybe(Some(Box::new(tok('!'))))));
    assert_eq!(p.parse(&vec!['?']), Ok(Value::Maybe(None)));
    assert_eq!(p.parse(&vec![]), Ok(Value::Maybe(None)));
}

#[derive(Clone, Debug, PartialEq)]
enum Instr {
    Add,
    Sub,
    Left,
    Right,
    In,
    Out,
    Loop(Vec<Instr>),
}

fn instr_of(v: &Value<char>) -> Instr {
    match v {
        Value::Tok('+') => Instr::Add,
        Value::Tok('-') => Instr::Sub,
        Value::Tok('<') => Instr::Left,
        Value::Tok('>') => Instr::Right,
        Value::Tok(',') => Instr::In,
        Value::Tok('.') => Instr::Out,
        Value::List(_) => Instr::Loop(instrs_of(v)),
        other => panic!("not an instruction: {:?}", other),
    }
}

fn instrs_of(v: &Value<char>) -> Vec<Instr> {
    let mut out = Vec::new();
    let mut items = match v {
        Value::List(items) => &**items,
        other => panic!("not a list: {:?}", other),
    };
    while let Items::Cons(head, tail) = items {
        out.push(instr_of(head));
        items = &**tail;
    }
    out
}

#[test]
fn bf() {
    let bf = recursive(|bf: &Declaration<char, Unchanged, DefaultError<char>>| {
        just('+')
            .or(just('-'))
            .or(just('<'))
            .or(just('>'))
            .or(just(','))
            .or(just('.'))
            .or(just('[').padding_for(bf.link()).padded_by(just(']')))
            .repeated()
    });

    let out = bf.parse(&chars_of("++--[->++<].")).expect("bf grammar parses");

    assert_eq!(
        instrs_of(&out),
        vec![
            Instr::Add,
            Instr::Add,
            Instr::Sub,
            Instr::Sub,
            Instr::Loop(vec![
                Instr::Sub,
                Instr::Right,
                Instr::Add,
                Instr::Add,
                Instr::Left,
            ]),
            Instr::Out,
        ],
    );
}
