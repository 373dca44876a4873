//! What an executable closure means in specifications: a closure that accepts
//! every argument and whose results agree on arguments with equal views
//! denotes a function between views.
use vstd::prelude::*;

verus! {

/// `f` accepts every argument, and equal views of arguments give equal views of results.
pub open spec fn fn1_det<X: DeepView, Y: DeepView, F: Fn(X) -> Y>(f: F) -> bool {
    &&& forall|x: X| #[trigger] call_requires(f, (x,))
    &&& forall|x1: X, x2: X, y1: Y, y2: Y|
        #[trigger] call_ensures(f, (x1,), y1) && #[trigger] call_ensures(f, (x2,), y2)
            && x1.deep_view() == x2.deep_view() ==> y1.deep_view() == y2.deep_view()
}

/// The view of what `f` returns for an argument with view `xv`.
pub open spec fn fn1_view<X: DeepView, Y: DeepView, F: Fn(X) -> Y>(f: F, xv: X::V) -> Y::V {
    let (x, y) = choose|x: X, y: Y| x.deep_view() == xv && #[trigger] call_ensures(f, (x,), y);
    y.deep_view()
}

pub proof fn lemma_fn1_view<X: DeepView, Y: DeepView, F: Fn(X) -> Y>(f: F, x: X, y: Y)
    requires
        fn1_det(f),
        call_ensures(f, (x,), y),
    ensures
        fn1_view(f, x.deep_view()) == y.deep_view(),
{
    assert(exists|x1: X, y1: Y| x1.deep_view() == x.deep_view() && #[trigger] call_ensures(f, (x1,), y1));
}

/// The view of a `Result` whose error is kept as it is.
pub open spec fn result_view<V: DeepView, E>(r: Result<V, E>) -> Result<V::V, E> {
    match r {
        Ok(v) => Ok(v.deep_view()),
        Err(e) => Err(e),
    }
}

/// `f` accepts every argument, and equal views of arguments give equal results up to views.
pub open spec fn fn1_try_det<X: DeepView, V: DeepView, E, F: Fn(X) -> Result<V, E>>(f: F) -> bool {
    &&& forall|x: X| #[trigger] call_requires(f, (x,))
    &&& forall|x1: X, x2: X, y1: Result<V, E>, y2: Result<V, E>|
        #[trigger] call_ensures(f, (x1,), y1) && #[trigger] call_ensures(f, (x2,), y2)
            && x1.deep_view() == x2.deep_view() ==> result_view(y1) == result_view(y2)
}

/// What `f` returns, up to views, for an argument with view `xv`.
pub open spec fn fn1_try_view<X: DeepView, V: DeepView, E, F: Fn(X) -> Result<V, E>>(
    f: F,
    xv: X::V,
) -> Result<V::V, E> {
    let (x, y) = choose|x: X, y: Result<V, E>|
        x.deep_view() == xv && #[trigger] call_ensures(f, (x,), y);
    result_view(y)
}

pub proof fn lemma_fn1_try_view<X: DeepView, V: DeepView, E, F: Fn(X) -> Result<V, E>>(
    f: F,
    x: X,
    y: Result<V, E>,
)
    requires
        fn1_try_det(f),
        call_ensures(f, (x,), y),
    ensures
        fn1_try_view(f, x.deep_view()) == result_view(y),
{
    assert(exists|x1: X, y1: Result<V, E>|
        x1.deep_view() == x.deep_view() && #[trigger] call_ensures(f, (x1,), y1));
}

/// `f` accepts every character and gives one answer for each.
pub open spec fn pred_det<F: Fn(char) -> bool>(f: F) -> bool {
    &&& forall|c: char| #[trigger] call_requires(f, (c,))
    &&& forall|c: char, b1: bool, b2: bool|
        #[trigger] call_ensures(f, (c,), b1) && #[trigger] call_ensures(f, (c,), b2) ==> b1 == b2
}

/// The answer of `f` for `c`.
pub open spec fn pred_holds<F: Fn(char) -> bool>(f: F, c: char) -> bool {
    choose|b: bool| #[trigger] call_ensures(f, (c,), b)
}

pub proof fn lemma_pred_holds<F: Fn(char) -> bool>(f: F, c: char, b: bool)
    requires
        pred_det(f),
        call_ensures(f, (c,), b),
    ensures
        pred_holds(f, c) == b,
{
}

/// `f` accepts every argument, and equal views of arguments give equal views of results.
pub open spec fn fn3_det<A: DeepView, B: DeepView, D: DeepView, F: Fn(A, D, B) -> A>(f: F) -> bool {
    &&& forall|a: A, d: D, b: B| #[trigger] call_requires(f, (a, d, b))
    &&& forall|a1: A, d1: D, b1: B, r1: A, a2: A, d2: D, b2: B, r2: A|
        #[trigger] call_ensures(f, (a1, d1, b1), r1) && #[trigger] call_ensures(f, (a2, d2, b2), r2)
            && a1.deep_view() == a2.deep_view() && d1.deep_view() == d2.deep_view()
            && b1.deep_view() == b2.deep_view() ==> r1.deep_view() == r2.deep_view()
}

/// The view of what `f` returns for arguments with views `av`, `dv`, `bv`.
pub open spec fn fn3_view<A: DeepView, B: DeepView, D: DeepView, F: Fn(A, D, B) -> A>(
    f: F,
    av: A::V,
    dv: D::V,
    bv: B::V,
) -> A::V {
    let (a, d, b, r) = choose|a: A, d: D, b: B, r: A|
        a.deep_view() == av && d.deep_view() == dv && b.deep_view() == bv && #[trigger] call_ensures(
            f,
            (a, d, b),
            r,
        );
    r.deep_view()
}

pub proof fn lemma_fn3_view<A: DeepView, B: DeepView, D: DeepView, F: Fn(A, D, B) -> A>(
    f: F,
    a: A,
    d: D,
    b: B,
    r: A,
)
    requires
        fn3_det(f),
        call_ensures(f, (a, d, b), r),
    ensures
        fn3_view(f, a.deep_view(), d.deep_view(), b.deep_view()) == r.deep_view(),
{
    assert(exists|a1: A, d1: D, b1: B, r1: A|
        a1.deep_view() == a.deep_view() && d1.deep_view() == d.deep_view() && b1.deep_view()
            == b.deep_view() && #[trigger] call_ensures(f, (a1, d1, b1), r1));
}

} // verus!
