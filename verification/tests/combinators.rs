use threadpool::cp::{
    ap, assocl, assocr, bang, bl, br, coassocl, coassocr, cond, coswap, cross, distl, distr, expn,
    flatl, flatr, grd, i1, i2, p1, p2, p2p, plus, singl, split, swap, undistl, undistr,
};
use threadpool::haskell::{constant, curry, dot, either, flip, flip_once, id, uncurry, Either};
use threadpool::iso::Isomorphism;

type E = Either<i32, &'static str>;

#[test]
fn products() {
    assert_eq!(split(|a: i32| a + 1, |a: i32| a * 2)(5), (6, 10));
    assert_eq!(cross(|a: i32| a + 1, |c: &str| c.len())((1, "abc")), (2, 3));
    assert_eq!(bang(17), ());
    assert_eq!(p1((1, "x")), 1);
    assert_eq!(p2((1, "x")), "x");
}

#[test]
fn coproducts() {
    assert_eq!(i1::<i32, &str>(3), Either::Left(3));
    assert_eq!(i2::<i32, &str>("r"), Either::Right("r"));
    assert_eq!(plus(|a: i32| a + 1, |c: &str| c.len())(Either::Left(1)), Either::Left(2));
    assert_eq!(plus(|a: i32| a + 1, |c: &str| c.len())(Either::Right("four")), Either::Right(4));
    assert_eq!(grd(|a: &i32| *a > 0)(5), Either::Left(5));
    assert_eq!(grd(|a: &i32| *a > 0)(-5), Either::Right(-5));
    assert_eq!(cond(|a: &i32| *a > 0, |a| a * 2, |a| -a)(4), 8);
    assert_eq!(cond(|a: &i32| *a > 0, |a| a * 2, |a| -a)(-4), 4);
}

#[test]
fn exponentials() {
    assert_eq!(ap((|a: i32| a + 1, 1)), 2);
    assert_eq!(expn(|b: i32| b * 10, |a: i32| a + 1)(2), 30);
    assert_eq!(p2p((1, 2), true), 2);
    assert_eq!(p2p((1, 2), false), 1);
}

#[test]
fn natural_isomorphisms() {
    assert_eq!(swap((1, "a")), ("a", 1));
    assert_eq!(assocr(((1, 2), 3)), (1, (2, 3)));
    assert_eq!(assocl((1, (2, 3))), ((1, 2), 3));
    assert_eq!(undistr::<i32, i32, &str>(Either::Left((1, 2))), (1, Either::Left(2)));
    assert_eq!(undistr::<i32, i32, &str>(Either::Right((1, "c"))), (1, Either::Right("c")));
    assert_eq!(undistl::<&str, i32, i32>(Either::Left((1, 2))), (Either::Left(1), 2));
    assert_eq!(undistl::<&str, i32, i32>(Either::Right(("a", 2))), (Either::Right("a"), 2));
    assert_eq!(flatr((1, (2, 3))), (1, 2, 3));
    assert_eq!(flatl(((1, 2), 3)), (1, 2, 3));
    assert_eq!(br(1), (1, ()));
    assert_eq!(bl(1), ((), 1));
    assert_eq!(coswap::<i32, &str>(Either::Left(1)), Either::Right(1));
    assert_eq!(coswap::<i32, &str>(Either::Right("b")), Either::Left("b"));
}

#[test]
fn regrouping_choices() {
    type L = Either<Either<i32, &'static str>, u8>;
    type R = Either<i32, Either<&'static str, u8>>;
    let l1: L = Either::Left(Either::Left(1));
    let l2: L = Either::Left(Either::Right("b"));
    let l3: L = Either::Right(3);
    let r1: R = Either::Left(1);
    let r2: R = Either::Right(Either::Left("b"));
    let r3: R = Either::Right(Either::Right(3));
    assert_eq!(coassocr(l1), r1);
    assert_eq!(coassocr(l2), r2);
    assert_eq!(coassocr(l3), r3);
    assert_eq!(coassocl(r1), l1);
    assert_eq!(coassocl(r2), l2);
    assert_eq!(coassocl(r3), l3);
}

#[test]
fn distributing() {
    let left: (Either<&str, i32>, u8) = (Either::Left("c"), 1);
    let right: (Either<&str, i32>, u8) = (Either::Right(7), 1);
    assert_eq!(distl(left), Either::Left(("c", 1)));
    assert_eq!(distl(right), Either::Right((7, 1)));
    assert_eq!(undistl(distl(left)), left);
    let left: (u8, Either<&str, i32>) = (1, Either::Left("c"));
    let right: (u8, Either<&str, i32>) = (1, Either::Right(7));
    assert_eq!(distr(left), Either::Left((1, "c")));
    assert_eq!(distr(right), Either::Right((1, 7)));
    assert_eq!(undistr(distr(right)), right);
}

#[test]
fn lists() {
    assert_eq!(singl(3), vec![3]);
    assert_eq!(singl("a").len(), 1);
}

#[test]
fn function_plumbing() {
    assert_eq!(curry(|p: (i32, i32)| p.0 - p.1)(5, 3), 2);
    assert_eq!(uncurry(|a: i32, b: i32| a - b)((5, 3)), 2);
    assert_eq!(dot(|b: i32| b * 2, |a: i32| a + 1)(3), 8);
    assert_eq!(id(9), 9);
    assert_eq!(constant::<i32, &str>(4)("ignored"), 4);
    assert_eq!(flip_once(|a: i32, b: i32| a - b)(1, 3), 2);
    let f = flip(|a: i32, b: i32| a - b);
    assert_eq!(f(1, 3), 2);
    assert_eq!(f(10, 3), -7);
    let l: E = Either::Left(3);
    let r: E = Either::Right("four");
    assert_eq!(either(|a: i32| a as usize, |b: &str| b.len())(l), 3);
    assert_eq!(either(|a: i32| a as usize, |b: &str| b.len())(r), 4);
}

#[test]
fn isomorphisms_go_there_and_back() {
    let pair = (1, "a");
    let out: (&str, i32) = pair.out();
    assert_eq!(out, ("a", 1));
    assert_eq!(<(i32, &str) as Isomorphism<(&str, i32)>>::inn(out), pair);

    let e: Either<(i32, u8), (i32, &str)> = Either::Right((1, "c"));
    let out: (i32, Either<u8, &str>) = e.out();
    assert_eq!(out, (1, Either::Right("c")));
    assert_eq!(<Either<(i32, u8), (i32, &str)> as Isomorphism<(i32, Either<u8, &str>)>>::inn(out), e);

    let nested = (1, (2u8, "c"));
    let flat: (i32, u8, &str) = nested.out();
    assert_eq!(flat, (1, 2, "c"));
    assert_eq!(<(i32, (u8, &str)) as Isomorphism<(i32, u8, &str)>>::inn(flat), nested);

    let nested = ((1, 2u8), "c");
    let flat: (i32, u8, &str) = nested.out();
    assert_eq!(flat, (1, 2, "c"));
    assert_eq!(<((i32, u8), &str) as Isomorphism<(i32, u8, &str)>>::inn(flat), nested);

    let with_unit: (i32, ()) = Isomorphism::<(i32, ())>::out(5);
    assert_eq!(with_unit, (5, ()));
    assert_eq!(<i32 as Isomorphism<(i32, ())>>::inn(with_unit), 5);

    let e: Either<&str, i32> = Either::Left("b");
    let out: Either<i32, &str> = e.out();
    assert_eq!(out, Either::Right("b"));
    assert_eq!(<Either<&str, i32> as Isomorphism<Either<i32, &str>>>::inn(out), e);

    let e: Either<(&str, u8), (i32, u8)> = Either::Left(("c", 1));
    let out: (Either<&str, i32>, u8) = e.out();
    assert_eq!(out, (Either::Left("c"), 1));
    assert_eq!(<Either<(&str, u8), (i32, u8)> as Isomorphism<(Either<&str, i32>, u8)>>::inn(out), e);
}
