//! The boundary to the packed-lane type.
//!
//! A packed-lane type `P` holds `N` lanes of scalar type `S`. It is built
//! from an array of lanes through `From<[S; N]>` and read back through
//! `Into<[S; N]>`; in between, one of its own operations is applied to all
//! lanes at once. The functions here make those three steps, and the
//! predicates say what the steps may give. They are relations, not functions:
//! nothing forces `P` to return the same lanes twice for the same operands.

use vstd::prelude::*;

verus! {

/// `p` is a packed value that `P` may build from `lanes`.
pub open spec fn packs<S, P: From<[S; N]>, const N: usize>(lanes: [S; N], p: P) -> bool {
    call_ensures(<P as From<[S; N]>>::from, (lanes,), p)
}

/// `lanes` is an array that `P` may hand out for the packed value `p`.
pub open spec fn unpacks<S, P: Into<[S; N]>, const N: usize>(p: P, lanes: [S; N]) -> bool {
    call_ensures(<P as Into<[S; N]>>::into, (p,), lanes)
}

/// `out` may come of packing `a` and `b`, applying `f` to the two packed
/// values, and unpacking what `f` returned.
pub open spec fn zipped<S, P: From<[S; N]> + Into<[S; N]>, F: FnOnce(P, P) -> P, const N: usize>(
    a: [S; N],
    b: [S; N],
    out: [S; N],
    f: F,
) -> bool {
    exists|pa: P, pb: P, pr: P|
        packs::<S, P, N>(a, pa) && packs::<S, P, N>(b, pb) && call_ensures(f, (pa, pb), pr)
            && unpacks::<S, P, N>(pr, out)
}

/// `out` may come of packing `a`, applying `f` to the packed value and the
/// scalar `s` as it is, and unpacking what `f` returned.
pub open spec fn broadcast<S, P: From<[S; N]> + Into<[S; N]>, F: FnOnce(P, S) -> P, const N: usize>(
    a: [S; N],
    s: S,
    out: [S; N],
    f: F,
) -> bool {
    exists|pa: P, pr: P|
        packs::<S, P, N>(a, pa) && call_ensures(f, (pa, s), pr) && unpacks::<S, P, N>(pr, out)
}

/// `out` may come of packing `a`, applying `f` to the packed value, and
/// unpacking what `f` returned.
pub open spec fn mapped<S, P: From<[S; N]> + Into<[S; N]>, F: FnOnce(P) -> P, const N: usize>(
    a: [S; N],
    out: [S; N],
    f: F,
) -> bool {
    exists|pa: P, pr: P|
        packs::<S, P, N>(a, pa) && call_ensures(f, (pa,), pr) && unpacks::<S, P, N>(pr, out)
}

/// `f` accepts every pair of packed values that `a` and `b` may pack to.
pub open spec fn zip_ready<S, P: From<[S; N]>, F: FnOnce(P, P) -> P, const N: usize>(
    a: [S; N],
    b: [S; N],
    f: F,
) -> bool {
    forall|pa: P, pb: P|
        #![trigger packs::<S, P, N>(a, pa), packs::<S, P, N>(b, pb)]
        packs::<S, P, N>(a, pa) && packs::<S, P, N>(b, pb) ==> call_requires(f, (pa, pb))
}

/// `f` accepts the scalar `s` beside every packed value that `a` may pack to.
pub open spec fn broadcast_ready<S, P: From<[S; N]>, F: FnOnce(P, S) -> P, const N: usize>(
    a: [S; N],
    s: S,
    f: F,
) -> bool {
    forall|pa: P| #[trigger] packs::<S, P, N>(a, pa) ==> call_requires(f, (pa, s))
}

/// `f` accepts every packed value that `a` may pack to.
pub open spec fn map_ready<S, P: From<[S; N]>, F: FnOnce(P) -> P, const N: usize>(
    a: [S; N],
    f: F,
) -> bool {
    forall|pa: P| #[trigger] packs::<S, P, N>(a, pa) ==> call_requires(f, (pa,))
}

/// Packs both lane arrays, applies `f` to the packed values, unpacks.
pub fn zip_packed<S, P: From<[S; N]> + Into<[S; N]>, F: FnOnce(P, P) -> P, const N: usize>(
    a: [S; N],
    b: [S; N],
    f: F,
) -> (out: [S; N])
    requires
        zip_ready::<S, P, F, N>(a, b, f),
    ensures
        zipped::<S, P, F, N>(a, b, out, f),
{
    let pa: P = P::from(a);
    let pb: P = P::from(b);
    assert(packs::<S, P, N>(a, pa) && packs::<S, P, N>(b, pb));
    let pr: P = f(pa, pb);
    let out: [S; N] = pr.into();
    assert(unpacks::<S, P, N>(pr, out));
    out
}

/// Packs the lane array, applies `f` to the packed value and the scalar,
/// unpacks. The scalar is not packed: `f` takes it as it is.
pub fn broadcast_packed<S, P: From<[S; N]> + Into<[S; N]>, F: FnOnce(P, S) -> P, const N: usize>(
    a: [S; N],
    s: S,
    f: F,
) -> (out: [S; N])
    requires
        broadcast_ready::<S, P, F, N>(a, s, f),
    ensures
        broadcast::<S, P, F, N>(a, s, out, f),
{
    let pa: P = P::from(a);
    assert(packs::<S, P, N>(a, pa));
    let pr: P = f(pa, s);
    let out: [S; N] = pr.into();
    assert(unpacks::<S, P, N>(pr, out));
    out
}

/// Packs the lane array, applies `f` to the packed value, unpacks.
pub fn map_packed<S, P: From<[S; N]> + Into<[S; N]>, F: FnOnce(P) -> P, const N: usize>(
    a: [S; N],
    f: F,
) -> (out: [S; N])
    requires
        map_ready::<S, P, F, N>(a, f),
    ensures
        mapped::<S, P, F, N>(a, out, f),
{
    let pa: P = P::from(a);
    assert(packs::<S, P, N>(a, pa));
    let pr: P = f(pa);
    let out: [S; N] = pr.into();
    assert(unpacks::<S, P, N>(pr, out));
    out
}

/// `P` keeps lanes: what it hands out for a packed value is what the value
/// was built from.
pub open spec fn faithful<S, P: From<[S; N]> + Into<[S; N]>, const N: usize>() -> bool {
    forall|l: [S; N], p: P, back: [S; N]|
        #![trigger packs::<S, P, N>(l, p), unpacks::<S, P, N>(p, back)]
        packs::<S, P, N>(l, p) && unpacks::<S, P, N>(p, back) ==> forall|i: int|
            0 <= i < N ==> #[trigger] back[i] == l[i]
}

/// Between packing and unpacking, `f` works lane by lane as the scalar
/// function `g`: lane `i` of the result is `g` of lane `i` of each operand,
/// and of nothing else.
pub open spec fn lanewise_zip<
    S,
    P: From<[S; N]> + Into<[S; N]>,
    F: FnOnce(P, P) -> P,
    const N: usize,
>(f: F, g: spec_fn(S, S) -> S) -> bool {
    forall|a: [S; N], b: [S; N], out: [S; N]| #[trigger]
        zipped::<S, P, F, N>(a, b, out, f) ==> forall|i: int|
            0 <= i < N ==> #[trigger] out[i] == g(a[i], b[i])
}

/// Between packing and unpacking, `f` works lane by lane as the scalar
/// function `g`, with the same scalar operand for every lane.
pub open spec fn lanewise_broadcast<
    S,
    P: From<[S; N]> + Into<[S; N]>,
    F: FnOnce(P, S) -> P,
    const N: usize,
>(f: F, g: spec_fn(S, S) -> S) -> bool {
    forall|a: [S; N], s: S, out: [S; N]| #[trigger]
        broadcast::<S, P, F, N>(a, s, out, f) ==> forall|i: int|
            0 <= i < N ==> #[trigger] out[i] == g(a[i], s)
}

/// Between packing and unpacking, `f` works lane by lane as the scalar
/// function `g`.
pub open spec fn lanewise_map<
    S,
    P: From<[S; N]> + Into<[S; N]>,
    F: FnOnce(P) -> P,
    const N: usize,
>(f: F, g: spec_fn(S) -> S) -> bool {
    forall|a: [S; N], out: [S; N]| #[trigger]
        mapped::<S, P, F, N>(a, out, f) ==> forall|i: int|
            0 <= i < N ==> #[trigger] out[i] == g(a[i])
}

} // verus!
