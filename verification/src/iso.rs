//! Pairs of types that carry the same information, with the two conversions
//! and the proof that each undoes the other.

use crate::haskell::Either;
use vstd::prelude::*;

verus! {

/// `Self` and `Out` are two shapes of the same data.
///
/// An implementation gives both conversions and proves that going there and
/// back changes nothing, in either direction.
pub trait Isomorphism<Out>: Sized {
    /// What [`Isomorphism::inn`] returns.
    spec fn spec_inn(out: Out) -> Self;

    /// What [`Isomorphism::out`] returns.
    spec fn spec_out(self) -> Out;

    fn inn(out: Out) -> (this: Self)
        ensures
            this == Self::spec_inn(out),
    ;

    fn out(self) -> (out: Out)
        ensures
            out == self.spec_out(),
    ;

    /// The two conversions are inverse to each other.
    proof fn lemma_inverse(this: Self, out: Out)
        ensures
            Self::spec_inn(this.spec_out()) == this,
            Self::spec_inn(out).spec_out() == out,
    ;
}

impl<T, U> Isomorphism<(U, T)> for (T, U) {
    open spec fn spec_inn(out: (U, T)) -> (T, U) {
        (out.1, out.0)
    }

    open spec fn spec_out(self) -> (U, T) {
        (self.1, self.0)
    }

    fn inn(out: (U, T)) -> (this: (T, U)) {
        (out.1, out.0)
    }

    fn out(self) -> (out: (U, T)) {
        (self.1, self.0)
    }

    proof fn lemma_inverse(this: (T, U), out: (U, T)) {
    }
}

impl<A, B, C> Isomorphism<(A, Either<B, C>)> for Either<(A, B), (A, C)> {
    open spec fn spec_inn(out: (A, Either<B, C>)) -> Either<(A, B), (A, C)> {
        match out.1 {
            Either::Left(b) => Either::Left((out.0, b)),
            Either::Right(c) => Either::Right((out.0, c)),
        }
    }

    open spec fn spec_out(self) -> (A, Either<B, C>) {
        match self {
            Either::Left((a, b)) => (a, Either::Left(b)),
            Either::Right((a, c)) => (a, Either::Right(c)),
        }
    }

    fn inn(out: (A, Either<B, C>)) -> (this: Either<(A, B), (A, C)>) {
        match out {
            (a, Either::Left(b)) => Either::Left((a, b)),
            (a, Either::Right(c)) => Either::Right((a, c)),
        }
    }

    fn out(self) -> (out: (A, Either<B, C>)) {
        match self {
            Either::Left((a, b)) => (a, Either::Left(b)),
            Either::Right((a, c)) => (a, Either::Right(c)),
        }
    }

    proof fn lemma_inverse(this: Either<(A, B), (A, C)>, out: (A, Either<B, C>)) {
    }
}

impl<A, B, C> Isomorphism<(A, B, C)> for (A, (B, C)) {
    open spec fn spec_inn(out: (A, B, C)) -> (A, (B, C)) {
        (out.0, (out.1, out.2))
    }

    open spec fn spec_out(self) -> (A, B, C) {
        (self.0, self.1.0, self.1.1)
    }

    fn inn(out: (A, B, C)) -> (this: (A, (B, C))) {
        let (a, b, c) = out;
        (a, (b, c))
    }

    fn out(self) -> (out: (A, B, C)) {
        let (a, (b, c)) = self;
        (a, b, c)
    }

    proof fn lemma_inverse(this: (A, (B, C)), out: (A, B, C)) {
    }
}

impl<A, B, C> Isomorphism<(A, B, C)> for ((A, B), C) {
    open spec fn spec_inn(out: (A, B, C)) -> ((A, B), C) {
        ((out.0, out.1), out.2)
    }

    open spec fn spec_out(self) -> (A, B, C) {
        (self.0.0, self.0.1, self.1)
    }

    fn inn(out: (A, B, C)) -> (this: ((A, B), C)) {
        let (a, b, c) = out;
        ((a, b), c)
    }

    fn out(self) -> (out: (A, B, C)) {
        let ((a, b), c) = self;
        (a, b, c)
    }

    proof fn lemma_inverse(this: ((A, B), C), out: (A, B, C)) {
    }
}

impl<A> Isomorphism<(A, ())> for A {
    open spec fn spec_inn(out: (A, ())) -> A {
        out.0
    }

    open spec fn spec_out(self) -> (A, ()) {
        (self, ())
    }

    fn inn(out: (A, ())) -> (this: A) {
        out.0
    }

    fn out(self) -> (out: (A, ())) {
        (self, ())
    }

    proof fn lemma_inverse(this: A, out: (A, ())) {
    }
}

impl<A, B> Isomorphism<Either<A, B>> for Either<B, A> {
    open spec fn spec_inn(out: Either<A, B>) -> Either<B, A> {
        match out {
            Either::Left(a) => Either::Right(a),
            Either::Right(b) => Either::Left(b),
        }
    }

    open spec fn spec_out(self) -> Either<A, B> {
        match self {
            Either::Left(b) => Either::Right(b),
            Either::Right(a) => Either::Left(a),
        }
    }

    fn inn(out: Either<A, B>) -> (this: Either<B, A>) {
        match out {
            Either::Left(a) => Either::Right(a),
            Either::Right(b) => Either::Left(b),
        }
    }

    fn out(self) -> (out: Either<A, B>) {
        match self {
            Either::Left(b) => Either::Right(b),
            Either::Right(a) => Either::Left(a),
        }
    }

    proof fn lemma_inverse(this: Either<B, A>, out: Either<A, B>) {
    }
}

impl<A, B, C> Isomorphism<(Either<C, A>, B)> for Either<(C, B), (A, B)> {
    open spec fn spec_inn(out: (Either<C, A>, B)) -> Either<(C, B), (A, B)> {
        match out.0 {
            Either::Left(c) => Either::Left((c, out.1)),
            Either::Right(a) => Either::Right((a, out.1)),
        }
    }

    open spec fn spec_out(self) -> (Either<C, A>, B) {
        match self {
            Either::Left((c, b)) => (Either::Left(c), b),
            Either::Right((a, b)) => (Either::Right(a), b),
        }
    }

    fn inn(out: (Either<C, A>, B)) -> (this: Either<(C, B), (A, B)>) {
        let (e, b) = out;
        match e {
            Either::Left(c) => Either::Left((c, b)),
            Either::Right(a) => Either::Right((a, b)),
        }
    }

    fn out(self) -> (out: (Either<C, A>, B)) {
        match self {
            Either::Left((c, b)) => (Either::Left(c), b),
            Either::Right((a, b)) => (Either::Right(a), b),
        }
    }

    proof fn lemma_inverse(this: Either<(C, B), (A, B)>, out: (Either<C, A>, B)) {
    }
}

} // verus!
