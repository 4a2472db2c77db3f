use nexus_rt::resource::{Res, ResMut, SeqMut, SeqRead};
use nexus_rt::world::Sequence;

#[derive(Debug, PartialEq)]
struct Val(u64);

#[test]
fn res_deref() {
    let val = Val(42);
    let res = Res::new(&val);
    assert_eq!(res.0, 42);
    assert_eq!(res.get().0, 42);
}

#[test]
fn res_mut_deref() {
    let mut val = Val(0);
    let mut res = ResMut::new(&mut val);
    res.set(Val(99));
    assert_eq!(val.0, 99);
}

#[test]
fn res_mut_deref_mut_no_stamp() {
    let mut val = Val(0);
    let mut res = ResMut::new(&mut val);
    *res.value = Val(123);
    assert_eq!(res.get().0, 123);
    assert_eq!(val.0, 123);
}

#[test]
fn seq_get() {
    let seq = SeqRead(Sequence(42));
    assert_eq!(seq.get(), 42);
}

#[test]
fn seq_mut_advance() {
    let mut cell = Sequence(0);
    let mut seq = SeqMut(&mut cell);
    let next = seq.advance();
    assert_eq!(next, Sequence(1));
    assert_eq!(seq.get(), Sequence(1));
    assert_eq!(cell, Sequence(1));
}

#[test]
fn seq_mut_advance_wraps() {
    let mut cell = Sequence(i64::MAX);
    let mut seq = SeqMut(&mut cell);
    assert_eq!(seq.advance(), Sequence(i64::MIN));
}
