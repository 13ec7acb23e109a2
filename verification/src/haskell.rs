//! The small vocabulary of function plumbing that the point-free
//! combinators are written in.

use vstd::prelude::*;

verus! {

/// A value of one of two types.
#[derive(Debug, PartialEq, Eq, Clone, Copy, Hash)]
pub enum Either<L, R> {
    Left(L),
    Right(R),
}

/// `curry f a b = f (a, b)`
pub fn curry<A, B, C>(f: impl FnOnce((A, B)) -> C) -> (h: impl FnOnce(A, B) -> C)
    ensures
        forall|a: A, b: B| f.requires(((a, b),)) ==> #[trigger] h.requires((a, b)),
        forall|a: A, b: B, c: C| #[trigger] h.ensures((a, b), c) ==> f.ensures(((a, b),), c),
{
    move |a: A, b: B| -> (c: C)
        requires
            f.requires(((a, b),)),
        ensures
            f.ensures(((a, b),), c),
        { f((a, b)) }
}

/// `uncurry f (a, b) = f a b`
pub fn uncurry<A, B, C>(f: impl FnOnce(A, B) -> C) -> (h: impl FnOnce((A, B)) -> C)
    ensures
        forall|a: A, b: B| f.requires((a, b)) ==> #[trigger] h.requires(((a, b),)),
        forall|a: A, b: B, c: C| #[trigger] h.ensures(((a, b),), c) ==> f.ensures((a, b), c),
{
    move |p: (A, B)| -> (c: C)
        requires
            f.requires((p.0, p.1)),
        ensures
            f.ensures((p.0, p.1), c),
        { f(p.0, p.1) }
}

/// `(f . g) a = f (g a)`
pub fn dot<A, B, C>(f: impl FnOnce(B) -> C, g: impl FnOnce(A) -> B) -> (h: impl FnOnce(A) -> C)
    ensures
        forall|a: A|
            g.requires((a,)) && (forall|b: B| g.ensures((a,), b) ==> f.requires((b,)))
                ==> #[trigger] h.requires((a,)),
        forall|a: A, c: C| #[trigger]
            h.ensures((a,), c) ==> exists|b: B| g.ensures((a,), b) && f.ensures((b,), c),
{
    move |a: A| -> (c: C)
        requires
            g.requires((a,)),
            forall|b: B| g.ensures((a,), b) ==> f.requires((b,)),
        ensures
            exists|b: B| g.ensures((a,), b) && f.ensures((b,), c),
        { f(g(a)) }
}

/// `id a = a`
pub fn id<A>(a: A) -> (r: A)
    ensures
        r == a,
{
    a
}

/// `constant a _ = a`
pub fn constant<A, B>(a: A) -> (h: impl FnOnce(B) -> A)
    ensures
        forall|b: B| #[trigger] h.requires((b,)),
        forall|b: B, r: A| #[trigger] h.ensures((b,), r) ==> r == a,
{
    move |_b: B| -> (r: A)
        ensures
            r == a,
        { a }
}

/// `flip f b a = f a b`, for a function that is called once.
pub fn flip_once<A, B, C>(f: impl FnOnce(A, B) -> C) -> (h: impl FnOnce(B, A) -> C)
    ensures
        forall|a: A, b: B| f.requires((a, b)) ==> #[trigger] h.requires((b, a)),
        forall|a: A, b: B, c: C| #[trigger] h.ensures((b, a), c) ==> f.ensures((a, b), c),
{
    move |b: B, a: A| -> (c: C)
        requires
            f.requires((a, b)),
        ensures
            f.ensures((a, b), c),
        { f(a, b) }
}

/// `flip f b a = f a b`, for a function that is called any number of times.
pub fn flip<A, B, C>(f: impl Fn(A, B) -> C) -> (h: impl Fn(B, A) -> C)
    ensures
        forall|a: A, b: B| f.requires((a, b)) ==> #[trigger] h.requires((b, a)),
        forall|a: A, b: B, c: C| #[trigger] h.ensures((b, a), c) ==> f.ensures((a, b), c),
{
    move |b: B, a: A| -> (c: C)
        requires
            f.requires((a, b)),
        ensures
            f.ensures((a, b), c),
        { f(a, b) }
}

/// `either f g (Left a) = f a`, `either f g (Right b) = g b`
pub fn either<A, B, C>(f: impl FnOnce(A) -> C, g: impl FnOnce(B) -> C) -> (h: impl FnOnce(
    Either<A, B>,
) -> C)
    ensures
        forall|a: A| f.requires((a,)) ==> #[trigger] h.requires((Either::<A, B>::Left(a),)),
        forall|b: B| g.requires((b,)) ==> #[trigger] h.requires((Either::<A, B>::Right(b),)),
        forall|a: A, c: C| #[trigger]
            h.ensures((Either::<A, B>::Left(a),), c) ==> f.ensures((a,), c),
        forall|b: B, c: C| #[trigger]
            h.ensures((Either::<A, B>::Right(b),), c) ==> g.ensures((b,), c),
{
    move |e: Either<A, B>| -> (c: C)
        requires
            match e {
                Either::Left(a) => f.requires((a,)),
                Either::Right(b) => g.requires((b,)),
            },
        ensures
            match e {
                Either::Left(a) => f.ensures((a,), c),
                Either::Right(b) => g.ensures((b,), c),
            },
        {
            match e {
                Either::Left(a) => f(a),
                Either::Right(b) => g(b),
            }
        }
}

} // verus!
