//! Point-free combinators over products, coproducts and functions.
//!
//! A combinator that hands back a function says, for every argument, when
//! that function may be called and what it then returns, in terms of the
//! functions it was built from.

use crate::haskell::Either;
use vstd::prelude::*;

verus! {

// Products

/// `split f g a = (f a, g a)`. The first function gets a clone of the
/// argument, the second the argument itself.
pub fn split<A: Clone, B, C>(f: impl FnOnce(A) -> B, g: impl FnOnce(A) -> C) -> (h: impl FnOnce(
    A,
) -> (B, C))
    ensures
        forall|a: A|
            g.requires((a,)) && (forall|copy: A| cloned(a, copy) ==> f.requires((copy,)))
                ==> #[trigger] h.requires((a,)),
        forall|a: A, r: (B, C)| #[trigger]
            h.ensures((a,), r) ==> g.ensures((a,), r.1) && exists|copy: A|
                cloned(a, copy) && f.ensures((copy,), r.0),
{
    move |a: A| -> (r: (B, C))
        requires
            g.requires((a,)),
            forall|copy: A| cloned(a, copy) ==> f.requires((copy,)),
        ensures
            g.ensures((a,), r.1),
            exists|copy: A| cloned(a, copy) && f.ensures((copy,), r.0),
        {
            let copy = a.clone();
            assert(cloned(a, copy));
            (f(copy), g(a))
        }
}

/// `(f >< g) (a, c) = (f a, g c)`
pub fn cross<A, B, C, D>(f: impl FnOnce(A) -> B, g: impl FnOnce(C) -> D) -> (h: impl FnOnce(
    (A, C),
) -> (B, D))
    ensures
        forall|a: A, c: C|
            f.requires((a,)) && g.requires((c,)) ==> #[trigger] h.requires(((a, c),)),
        forall|a: A, c: C, r: (B, D)|
            #[trigger] h.ensures(((a, c),), r) ==> f.ensures((a,), r.0) && g.ensures((c,), r.1),
{
    move |p: (A, C)| -> (r: (B, D))
        requires
            f.requires((p.0,)),
            g.requires((p.1,)),
        ensures
            f.ensures((p.0,), r.0),
            g.ensures((p.1,), r.1),
        { (f(p.0), g(p.1)) }
}

/// `bang a = ()`
pub fn bang<A>(a: A) -> (r: ())
    ensures
        r == (),
{
}

/// `p1 (a, b) = a`
pub fn p1<A, B>(pair: (A, B)) -> (a: A)
    ensures
        a == pair.0,
{
    pair.0
}

/// `p2 (a, b) = b`
pub fn p2<A, B>(pair: (A, B)) -> (b: B)
    ensures
        b == pair.1,
{
    pair.1
}

// Coproducts

/// `i1 a = Left a`
pub fn i1<A, B>(a: A) -> (e: Either<A, B>)
    ensures
        e == Either::<A, B>::Left(a),
{
    Either::Left(a)
}

/// `i2 b = Right b`
pub fn i2<A, B>(b: B) -> (e: Either<A, B>)
    ensures
        e == Either::<A, B>::Right(b),
{
    Either::Right(b)
}

/// `(f -|- g) (Left a) = Left (f a)`, `(f -|- g) (Right c) = Right (g c)`
pub fn plus<A, B, C, D>(f: impl FnOnce(A) -> B, g: impl FnOnce(C) -> D) -> (h: impl FnOnce(
    Either<A, C>,
) -> Either<B, D>)
    ensures
        forall|a: A| f.requires((a,)) ==> #[trigger] h.requires((Either::<A, C>::Left(a),)),
        forall|c: C| g.requires((c,)) ==> #[trigger] h.requires((Either::<A, C>::Right(c),)),
        forall|a: A, r: Either<B, D>|
            #[trigger] h.ensures((Either::<A, C>::Left(a),), r) ==> r is Left && f.ensures(
                (a,),
                r->Left_0,
            ),
        forall|c: C, r: Either<B, D>|
            #[trigger] h.ensures((Either::<A, C>::Right(c),), r) ==> r is Right && g.ensures(
                (c,),
                r->Right_0,
            ),
{
    move |e: Either<A, C>| -> (r: Either<B, D>)
        requires
            match e {
                Either::Left(a) => f.requires((a,)),
                Either::Right(c) => g.requires((c,)),
            },
        ensures
            match e {
                Either::Left(a) => r is Left && f.ensures((a,), r->Left_0),
                Either::Right(c) => r is Right && g.ensures((c,), r->Right_0),
            },
        {
            match e {
                Either::Left(a) => Either::Left(f(a)),
                Either::Right(c) => Either::Right(g(c)),
            }
        }
}

/// `grd p a = if p a then Left a else Right a`
pub fn grd<A>(predicate: impl FnOnce(&A) -> bool) -> (h: impl FnOnce(A) -> Either<A, A>)
    ensures
        forall|a: A| predicate.requires((&a,)) ==> #[trigger] h.requires((a,)),
        forall|a: A, r: Either<A, A>|
            #[trigger] h.ensures((a,), r) ==> (r == Either::<A, A>::Left(a) && predicate.ensures(
                (&a,),
                true,
            )) || (r == Either::<A, A>::Right(a) && predicate.ensures((&a,), false)),
{
    move |a: A| -> (r: Either<A, A>)
        requires
            predicate.requires((&a,)),
        ensures
            (r == Either::<A, A>::Left(a) && predicate.ensures((&a,), true)) || (r == Either::<
                A,
                A,
            >::Right(a) && predicate.ensures((&a,), false)),
        {
            if predicate(&a) {
                Either::Left(a)
            } else {
                Either::Right(a)
            }
        }
}

/// McCarthy's conditional: `cond p f g a = if p a then f a else g a`
pub fn cond<A, B>(
    predicate: impl FnOnce(&A) -> bool,
    then: impl FnOnce(A) -> B,
    otherwise: impl FnOnce(A) -> B,
) -> (h: impl FnOnce(A) -> B)
    ensures
        forall|a: A|
            predicate.requires((&a,)) && then.requires((a,)) && otherwise.requires((a,))
                ==> #[trigger] h.requires((a,)),
        forall|a: A, r: B|
            #[trigger] h.ensures((a,), r) ==> (predicate.ensures((&a,), true) && then.ensures(
                (a,),
                r,
            )) || (predicate.ensures((&a,), false) && otherwise.ensures((a,), r)),
{
    move |a: A| -> (r: B)
        requires
            predicate.requires((&a,)),
            then.requires((a,)),
            otherwise.requires((a,)),
        ensures
            (predicate.ensures((&a,), true) && then.ensures((a,), r)) || (predicate.ensures(
                (&a,),
                false,
            ) && otherwise.ensures((a,), r)),
        {
            if predicate(&a) {
                then(a)
            } else {
                otherwise(a)
            }
        }
}

// Exponentials

/// `ap (f, a) = f a`
pub fn ap<A, B, F: FnOnce(A) -> B>(t: (F, A)) -> (b: B)
    requires
        t.0.requires((t.1,)),
    ensures
        t.0.ensures((t.1,), b),
{
    (t.0)(t.1)
}

/// `expn f g a = f (g a)`
pub fn expn<A, B, C>(f: impl FnOnce(B) -> C, g: impl FnOnce(A) -> B) -> (h: impl FnOnce(A) -> C)
    ensures
        forall|a: A|
            g.requires((a,)) && (forall|b: B| g.ensures((a,), b) ==> f.requires((b,)))
                ==> #[trigger] h.requires((a,)),
        forall|a: A, c: C| #[trigger]
            h.ensures((a,), c) ==> exists|b: B| g.ensures((a,), b) && f.ensures((b,), c),
{
    move |a: A| -> (c: C)
        requires
            g.requires((a,)),
            forall|b: B| g.ensures((a,), b) ==> f.requires((b,)),
        ensures
            exists|b: B| g.ensures((a,), b) && f.ensures((b,), c),
        { f(g(a)) }
}

/// `p2p (x, y) b = if b then y else x`
pub fn p2p<A>(pair: (A, A), b: bool) -> (r: A)
    ensures
        r == if b {
            pair.1
        } else {
            pair.0
        },
{
    if b {
        pair.1
    } else {
        pair.0
    }
}

// Natural isomorphisms

/// What [`swap`] returns.
pub open spec fn spec_swap<A, B>(pair: (A, B)) -> (B, A) {
    (pair.1, pair.0)
}

/// `swap (a, b) = (b, a)`
pub fn swap<A, B>(pair: (A, B)) -> (r: (B, A))
    ensures
        r == spec_swap(pair),
{
    (pair.1, pair.0)
}

/// What [`assocr`] returns.
pub open spec fn spec_assocr<A, B, C>(tuple: ((A, B), C)) -> (A, (B, C)) {
    (tuple.0.0, (tuple.0.1, tuple.1))
}

/// `assocr ((a, b), c) = (a, (b, c))`
pub fn assocr<A, B, C>(tuple: ((A, B), C)) -> (r: (A, (B, C)))
    ensures
        r == spec_assocr(tuple),
{
    let ((a, b), c) = tuple;
    (a, (b, c))
}

/// What [`assocl`] returns.
pub open spec fn spec_assocl<A, B, C>(tuple: (A, (B, C))) -> ((A, B), C) {
    ((tuple.0, tuple.1.0), tuple.1.1)
}

/// `assocl (a, (b, c)) = ((a, b), c)`
pub fn assocl<A, B, C>(tuple: (A, (B, C))) -> (r: ((A, B), C))
    ensures
        r == spec_assocl(tuple),
{
    let (a, (b, c)) = tuple;
    ((a, b), c)
}

/// What [`undistr`] makes of each case.
pub open spec fn spec_undistr<A, B, C>(e: Either<(A, B), (A, C)>) -> (A, Either<B, C>) {
    match e {
        Either::Left((a, b)) => (a, Either::Left(b)),
        Either::Right((a, c)) => (a, Either::Right(c)),
    }
}

/// `undistr (Left (a, b)) = (a, Left b)`, `undistr (Right (a, c)) = (a, Right c)`
pub fn undistr<A, B, C>(e: Either<(A, B), (A, C)>) -> (r: (A, Either<B, C>))
    ensures
        r == spec_undistr(e),
{
    match e {
        Either::Left((a, b)) => (a, Either::Left(b)),
        Either::Right((a, c)) => (a, Either::Right(c)),
    }
}

/// What [`undistl`] makes of each case.
pub open spec fn spec_undistl<A, B, C>(e: Either<(B, C), (A, C)>) -> (Either<B, A>, C) {
    match e {
        Either::Left((b, c)) => (Either::Left(b), c),
        Either::Right((a, c)) => (Either::Right(a), c),
    }
}

/// `undistl (Left (b, c)) = (Left b, c)`, `undistl (Right (a, c)) = (Right a, c)`
pub fn undistl<A, B, C>(e: Either<(B, C), (A, C)>) -> (r: (Either<B, A>, C))
    ensures
        r == spec_undistl(e),
{
    match e {
        Either::Left((b, c)) => (Either::Left(b), c),
        Either::Right((a, c)) => (Either::Right(a), c),
    }
}

/// `flatr (a, (b, c)) = (a, b, c)`
pub fn flatr<A, B, C>(tuple: (A, (B, C))) -> (r: (A, B, C))
    ensures
        r == (tuple.0, tuple.1.0, tuple.1.1),
{
    let (a, (b, c)) = tuple;
    (a, b, c)
}

/// `flatl ((b, c), a) = (b, c, a)`
pub fn flatl<A, B, C>(tuple: ((B, C), A)) -> (r: (B, C, A))
    ensures
        r == (tuple.0.0, tuple.0.1, tuple.1),
{
    let ((b, c), a) = tuple;
    (b, c, a)
}

/// `br a = (a, ())`
pub fn br<A>(a: A) -> (r: (A, ()))
    ensures
        r == (a, ()),
{
    (a, ())
}

/// `bl a = ((), a)`
pub fn bl<A>(a: A) -> (r: ((), A))
    ensures
        r == ((), a),
{
    swap(br(a))
}

/// What [`coswap`] makes of each case.
pub open spec fn spec_coswap<A, B>(e: Either<A, B>) -> Either<B, A> {
    match e {
        Either::Left(a) => Either::Right(a),
        Either::Right(b) => Either::Left(b),
    }
}

/// `coswap (Left a) = Right a`, `coswap (Right b) = Left b`
pub fn coswap<A, B>(e: Either<A, B>) -> (r: Either<B, A>)
    ensures
        r == spec_coswap(e),
{
    match e {
        Either::Left(a) => i2(a),
        Either::Right(b) => i1(b),
    }
}

/// What [`coassocr`] makes of each case.
pub open spec fn spec_coassocr<A, B, C>(e: Either<Either<A, B>, C>) -> Either<A, Either<B, C>> {
    match e {
        Either::Left(Either::Left(a)) => Either::Left(a),
        Either::Left(Either::Right(b)) => Either::Right(Either::Left(b)),
        Either::Right(c) => Either::Right(Either::Right(c)),
    }
}

/// Regroups a nested choice to the right.
pub fn coassocr<A, B, C>(e: Either<Either<A, B>, C>) -> (r: Either<A, Either<B, C>>)
    ensures
        r == spec_coassocr(e),
{
    match e {
        Either::Left(Either::Left(a)) => Either::Left(a),
        Either::Left(Either::Right(b)) => Either::Right(Either::Left(b)),
        Either::Right(c) => Either::Right(Either::Right(c)),
    }
}

/// What [`coassocl`] makes of each case.
pub open spec fn spec_coassocl<A, B, C>(e: Either<B, Either<A, C>>) -> Either<Either<B, A>, C> {
    match e {
        Either::Left(b) => Either::Left(Either::Left(b)),
        Either::Right(Either::Left(a)) => Either::Left(Either::Right(a)),
        Either::Right(Either::Right(c)) => Either::Right(c),
    }
}

/// Regroups a nested choice to the left.
pub fn coassocl<A, B, C>(e: Either<B, Either<A, C>>) -> (r: Either<Either<B, A>, C>)
    ensures
        r == spec_coassocl(e),
{
    match e {
        Either::Left(b) => Either::Left(Either::Left(b)),
        Either::Right(Either::Left(a)) => Either::Left(Either::Right(a)),
        Either::Right(Either::Right(c)) => Either::Right(c),
    }
}

/// What [`distl`] makes of each case.
pub open spec fn spec_distl<A, B, C>(tuple: (Either<C, A>, B)) -> Either<(C, B), (A, B)> {
    match tuple.0 {
        Either::Left(c) => Either::Left((c, tuple.1)),
        Either::Right(a) => Either::Right((a, tuple.1)),
    }
}

/// `distl (Left c, b) = Left (c, b)`, `distl (Right a, b) = Right (a, b)`
pub fn distl<A, B, C>(tuple: (Either<C, A>, B)) -> (r: Either<(C, B), (A, B)>)
    ensures
        r == spec_distl(tuple),
{
    let (e, b) = tuple;
    match e {
        Either::Left(c) => Either::Left((c, b)),
        Either::Right(a) => Either::Right((a, b)),
    }
}

/// What [`distr`] makes of each case.
pub open spec fn spec_distr<A, B, C>(tuple: (B, Either<C, A>)) -> Either<(B, C), (B, A)> {
    match tuple.1 {
        Either::Left(c) => Either::Left((tuple.0, c)),
        Either::Right(a) => Either::Right((tuple.0, a)),
    }
}

/// `distr (b, Left c) = Left (b, c)`, `distr (b, Right a) = Right (b, a)`
pub fn distr<A, B, C>(tuple: (B, Either<C, A>)) -> (r: Either<(B, C), (B, A)>)
    ensures
        r == spec_distr(tuple),
{
    match distl(swap(tuple)) {
        Either::Left(p) => Either::Left(swap(p)),
        Either::Right(p) => Either::Right(swap(p)),
    }
}

// Lists

/// `singl a = [a]`
pub fn singl<A>(a: A) -> (v: Vec<A>)
    ensures
        v@ == seq![a],
{
    let mut v = Vec::new();
    v.push(a);
    v
}

/// Swapping twice gives back the pair.
pub proof fn lemma_swap_involutive<A, B>(pair: (A, B))
    ensures
        spec_swap(spec_swap(pair)) == pair,
{
}

/// `assocr` and `assocl` undo each other.
pub proof fn lemma_assoc_inverse<A, B, C>(left: ((A, B), C), right: (A, (B, C)))
    ensures
        spec_assocl(spec_assocr(left)) == left,
        spec_assocr(spec_assocl(right)) == right,
{
}

/// `coswap` undoes itself.
pub proof fn lemma_coswap_involutive<A, B>(e: Either<A, B>)
    ensures
        spec_coswap(spec_coswap(e)) == e,
{
}

/// `distl` and `undistl` undo each other.
pub proof fn lemma_distl_undistl<A, B, C>(tuple: (Either<C, A>, B), e: Either<(C, B), (A, B)>)
    ensures
        spec_undistl(spec_distl(tuple)) == tuple,
        spec_distl(spec_undistl(e)) == e,
{
}

/// `distr` and `undistr` undo each other.
pub proof fn lemma_distr_undistr<A, B, C>(tuple: (B, Either<C, A>), e: Either<(B, C), (B, A)>)
    ensures
        spec_undistr(spec_distr(tuple)) == tuple,
        spec_distr(spec_undistr(e)) == e,
{
}

/// `coassocr` and `coassocl` undo each other.
pub proof fn lemma_coassoc_inverse<A, B, C>(
    left: Either<Either<A, B>, C>,
    right: Either<A, Either<B, C>>,
)
    ensures
        spec_coassocl(spec_coassocr(left)) == left,
        spec_coassocr(spec_coassocl(right)) == right,
{
}

} // verus!
