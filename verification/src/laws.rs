//! What holds of the conversions and the operators, for every vector type
//! and every packed type.
//!
//! The operators' contracts speak of what the packed type may return. Where
//! the packed type works lane by lane, as [`lanewise_zip`],
//! [`lanewise_broadcast`] and [`lanewise_map`] say it, the lemmas here turn
//! those contracts into statements on the components of the vectors.

use crate::lanes::broadcast_result;
use crate::lanes::carries;
use crate::lanes::map_result;
use crate::lanes::packed_as;
use crate::lanes::packs_as;
use crate::lanes::unpacked_as;
use crate::lanes::zip_result;
use crate::lanes::Lanes;
use crate::packed::broadcast;
use crate::packed::faithful;
use crate::packed::lanewise_broadcast;
use crate::packed::lanewise_map;
use crate::packed::lanewise_zip;
use crate::packed::mapped;
use crate::packed::packs;
use crate::packed::unpacks;
use crate::packed::zipped;
use core::ops::Neg;
use vstd::prelude::*;

verus! {

/// Converting a vector into lanes and the lanes back into a vector gives the
/// vector again, whatever the padding lanes hold.
pub proof fn lemma_lanes_round_trip<S: Copy, V: Lanes<S, N>, const N: usize>(
    v: V,
    l: [S; N],
    back: V,
)
    requires
        carries::<S, V, N>(v, l),
        carries::<S, V, N>(back, l),
    ensures
        back == v,
{
    assert forall|i: int| 0 <= i < V::width() implies back.component(i) == v.component(i) by {
        assert(l[i] == v.component(i));
        assert(l[i] == back.component(i));
    }
    back.lemma_determined(v);
}

/// Converting lanes into a vector and the vector back into lanes gives the
/// same lanes wherever a component stands.
pub proof fn lemma_lanes_kept<S: Copy, V: Lanes<S, N>, const N: usize>(
    l: [S; N],
    v: V,
    again: [S; N],
)
    requires
        carries::<S, V, N>(v, l),
        carries::<S, V, N>(v, again),
    ensures
        forall|i: int| 0 <= i < V::width() ==> #[trigger] again[i] == l[i],
{
    assert forall|i: int| 0 <= i < V::width() implies #[trigger] again[i] == l[i] by {
        assert(l[i] == v.component(i));
        assert(again[i] == v.component(i));
    }
}

/// Conversion out of lanes does not read the padding: two lane arrays that
/// agree wherever a component stands convert to the same vector.
pub proof fn lemma_padding_not_read<S: Copy, V: Lanes<S, N>, const N: usize>(
    l1: [S; N],
    l2: [S; N],
    v1: V,
    v2: V,
)
    requires
        carries::<S, V, N>(v1, l1),
        carries::<S, V, N>(v2, l2),
        forall|i: int| 0 <= i < V::width() ==> l1[i] == l2[i],
    ensures
        v1 == v2,
{
    assert forall|i: int| 0 <= i < V::width() implies v1.component(i) == v2.component(i) by {
        assert(l1[i] == v1.component(i));
        assert(l2[i] == v2.component(i));
    }
    v1.lemma_determined(v2);
}

/// Converting a vector into a packed value and the packed value back into a
/// vector gives the vector again, for a packed type that keeps lanes.
pub proof fn lemma_packed_round_trip<
    S: Copy,
    V: Lanes<S, N>,
    P: From<[S; N]> + Into<[S; N]>,
    const N: usize,
>(v: V, p: P, back: V)
    requires
        faithful::<S, P, N>(),
        packed_as::<S, V, P, N>(v, p),
        unpacked_as::<S, V, P, N>(p, back),
    ensures
        back == v,
{
    let l = choose|l: [S; N]| packs_as::<S, V, N>(v, l) && packs::<S, P, N>(l, p);
    let m = choose|m: [S; N]| unpacks::<S, P, N>(p, m) && carries::<S, V, N>(back, m);
    V::lemma_width();
    assert forall|i: int| 0 <= i < V::width() implies back.component(i) == v.component(i) by {
        assert(m[i] == l[i]);
        assert(l[i] == v.component(i));
        assert(m[i] == back.component(i));
    }
    back.lemma_determined(v);
}

/// An operator on two vectors is three steps: both operands converted into
/// packed values, the packed operation applied to them, and what it returned
/// converted back into a vector.
pub proof fn lemma_zip_in_three_steps<
    S: Copy,
    V: Lanes<S, N>,
    P: From<[S; N]> + Into<[S; N]>,
    F: FnOnce(P, P) -> P,
    const N: usize,
>(lhs: V, rhs: V, r: V, f: F)
    ensures
        zip_result::<S, V, P, F, N>(lhs, rhs, r, f) <==> exists|pa: P, pb: P, pr: P|
            packed_as::<S, V, P, N>(lhs, pa) && packed_as::<S, V, P, N>(rhs, pb) && call_ensures(
                f,
                (pa, pb),
                pr,
            ) && unpacked_as::<S, V, P, N>(pr, r),
{
    if zip_result::<S, V, P, F, N>(lhs, rhs, r, f) {
        let (a, b, out) = choose|a: [S; N], b: [S; N], out: [S; N]|
            packs_as::<S, V, N>(lhs, a) && packs_as::<S, V, N>(rhs, b) && zipped::<S, P, F, N>(
                a,
                b,
                out,
                f,
            ) && carries::<S, V, N>(r, out);
        let (pa, pb, pr) = choose|pa: P, pb: P, pr: P|
            packs::<S, P, N>(a, pa) && packs::<S, P, N>(b, pb) && call_ensures(f, (pa, pb), pr)
                && unpacks::<S, P, N>(pr, out);
        assert(packed_as::<S, V, P, N>(lhs, pa));
        assert(packed_as::<S, V, P, N>(rhs, pb));
        assert(unpacked_as::<S, V, P, N>(pr, r));
    }
    if exists|pa: P, pb: P, pr: P|
        packed_as::<S, V, P, N>(lhs, pa) && packed_as::<S, V, P, N>(rhs, pb) && call_ensures(
            f,
            (pa, pb),
            pr,
        ) && unpacked_as::<S, V, P, N>(pr, r) {
        let (pa, pb, pr) = choose|pa: P, pb: P, pr: P|
            packed_as::<S, V, P, N>(lhs, pa) && packed_as::<S, V, P, N>(rhs, pb) && call_ensures(
                f,
                (pa, pb),
                pr,
            ) && unpacked_as::<S, V, P, N>(pr, r);
        let a = choose|a: [S; N]| packs_as::<S, V, N>(lhs, a) && packs::<S, P, N>(a, pa);
        let b = choose|b: [S; N]| packs_as::<S, V, N>(rhs, b) && packs::<S, P, N>(b, pb);
        let out = choose|out: [S; N]| unpacks::<S, P, N>(pr, out) && carries::<S, V, N>(r, out);
        assert(zipped::<S, P, F, N>(a, b, out, f));
    }
}

/// An operator on a vector and a scalar is three steps: the vector converted
/// into a packed value, the packed operation applied to it and the scalar,
/// and what it returned converted back into a vector.
pub proof fn lemma_broadcast_in_three_steps<
    S: Copy,
    V: Lanes<S, N>,
    P: From<[S; N]> + Into<[S; N]>,
    F: FnOnce(P, S) -> P,
    const N: usize,
>(lhs: V, s: S, r: V, f: F)
    ensures
        broadcast_result::<S, V, P, F, N>(lhs, s, r, f) <==> exists|pa: P, pr: P|
            packed_as::<S, V, P, N>(lhs, pa) && call_ensures(f, (pa, s), pr) && unpacked_as::<
                S,
                V,
                P,
                N,
            >(pr, r),
{
    if broadcast_result::<S, V, P, F, N>(lhs, s, r, f) {
        let (a, out) = choose|a: [S; N], out: [S; N]|
            packs_as::<S, V, N>(lhs, a) && broadcast::<S, P, F, N>(a, s, out, f) && carries::<
                S,
                V,
                N,
            >(r, out);
        let (pa, pr) = choose|pa: P, pr: P|
            packs::<S, P, N>(a, pa) && call_ensures(f, (pa, s), pr) && unpacks::<S, P, N>(pr, out);
        assert(packed_as::<S, V, P, N>(lhs, pa));
        assert(unpacked_as::<S, V, P, N>(pr, r));
    }
    if exists|pa: P, pr: P|
        packed_as::<S, V, P, N>(lhs, pa) && call_ensures(f, (pa, s), pr) && unpacked_as::<
            S,
            V,
            P,
            N,
        >(pr, r) {
        let (pa, pr) = choose|pa: P, pr: P|
            packed_as::<S, V, P, N>(lhs, pa) && call_ensures(f, (pa, s), pr) && unpacked_as::<
                S,
                V,
                P,
                N,
            >(pr, r);
        let a = choose|a: [S; N]| packs_as::<S, V, N>(lhs, a) && packs::<S, P, N>(a, pa);
        let out = choose|out: [S; N]| unpacks::<S, P, N>(pr, out) && carries::<S, V, N>(r, out);
        assert(broadcast::<S, P, F, N>(a, s, out, f));
    }
}

/// An operator on one vector is three steps: the vector converted into a
/// packed value, the packed operation applied to it, and what it returned
/// converted back into a vector.
pub proof fn lemma_map_in_three_steps<
    S: Copy,
    V: Lanes<S, N>,
    P: From<[S; N]> + Into<[S; N]>,
    F: FnOnce(P) -> P,
    const N: usize,
>(v: V, r: V, f: F)
    ensures
        map_result::<S, V, P, F, N>(v, r, f) <==> exists|pa: P, pr: P|
            packed_as::<S, V, P, N>(v, pa) && call_ensures(f, (pa,), pr) && unpacked_as::<
                S,
                V,
                P,
                N,
            >(pr, r),
{
    if map_result::<S, V, P, F, N>(v, r, f) {
        let (a, out) = choose|a: [S; N], out: [S; N]|
            packs_as::<S, V, N>(v, a) && mapped::<S, P, F, N>(a, out, f) && carries::<S, V, N>(
                r,
                out,
            );
        let (pa, pr) = choose|pa: P, pr: P|
            packs::<S, P, N>(a, pa) && call_ensures(f, (pa,), pr) && unpacks::<S, P, N>(pr, out);
        assert(packed_as::<S, V, P, N>(v, pa));
        assert(unpacked_as::<S, V, P, N>(pr, r));
    }
    if exists|pa: P, pr: P|
        packed_as::<S, V, P, N>(v, pa) && call_ensures(f, (pa,), pr) && unpacked_as::<S, V, P, N>(
            pr,
            r,
        ) {
        let (pa, pr) = choose|pa: P, pr: P|
            packed_as::<S, V, P, N>(v, pa) && call_ensures(f, (pa,), pr) && unpacked_as::<
                S,
                V,
                P,
                N,
            >(pr, r);
        let a = choose|a: [S; N]| packs_as::<S, V, N>(v, a) && packs::<S, P, N>(a, pa);
        let out = choose|out: [S; N]| unpacks::<S, P, N>(pr, out) && carries::<S, V, N>(r, out);
        assert(mapped::<S, P, F, N>(a, out, f));
    }
}

/// Whatever the padding lanes of the operands held, each component that a
/// lane-by-lane operation on two vectors gives is the scalar function of the
/// two operands' components in the same place.
pub proof fn lemma_zip_lanes<
    S: Copy,
    V: Lanes<S, N>,
    P: From<[S; N]> + Into<[S; N]>,
    F: FnOnce(P, P) -> P,
    const N: usize,
>(lhs: V, rhs: V, a: [S; N], b: [S; N], out: [S; N], r: V, f: F, g: spec_fn(S, S) -> S)
    requires
        lanewise_zip::<S, P, F, N>(f, g),
        carries::<S, V, N>(lhs, a),
        carries::<S, V, N>(rhs, b),
        zipped::<S, P, F, N>(a, b, out, f),
        carries::<S, V, N>(r, out),
    ensures
        forall|i: int|
            0 <= i < V::width() ==> #[trigger] r.component(i) == g(
                lhs.component(i),
                rhs.component(i),
            ),
{
    V::lemma_width();
    assert forall|i: int| 0 <= i < V::width() implies #[trigger] r.component(i) == g(
        lhs.component(i),
        rhs.component(i),
    ) by {
        assert(out[i] == g(a[i], b[i]));
        assert(a[i] == lhs.component(i));
        assert(b[i] == rhs.component(i));
    }
}

/// Whatever the padding lanes of the operand held, each component that a
/// lane-by-lane operation on a vector and a scalar gives is the scalar
/// function of the operand's component in the same place and the scalar.
pub proof fn lemma_broadcast_lanes<
    S: Copy,
    V: Lanes<S, N>,
    P: From<[S; N]> + Into<[S; N]>,
    F: FnOnce(P, S) -> P,
    const N: usize,
>(lhs: V, s: S, a: [S; N], out: [S; N], r: V, f: F, g: spec_fn(S, S) -> S)
    requires
        lanewise_broadcast::<S, P, F, N>(f, g),
        carries::<S, V, N>(lhs, a),
        broadcast::<S, P, F, N>(a, s, out, f),
        carries::<S, V, N>(r, out),
    ensures
        forall|i: int| 0 <= i < V::width() ==> #[trigger] r.component(i) == g(lhs.component(i), s),
{
    V::lemma_width();
    assert forall|i: int| 0 <= i < V::width() implies #[trigger] r.component(i) == g(
        lhs.component(i),
        s,
    ) by {
        assert(out[i] == g(a[i], s));
        assert(a[i] == lhs.component(i));
    }
}

/// Whatever the padding lanes of the operand held, each component that a
/// lane-by-lane operation on one vector gives is the scalar function of the
/// operand's component in the same place.
pub proof fn lemma_map_lanes<
    S: Copy,
    V: Lanes<S, N>,
    P: From<[S; N]> + Into<[S; N]>,
    F: FnOnce(P) -> P,
    const N: usize,
>(v: V, a: [S; N], out: [S; N], r: V, f: F, g: spec_fn(S) -> S)
    requires
        lanewise_map::<S, P, F, N>(f, g),
        carries::<S, V, N>(v, a),
        mapped::<S, P, F, N>(a, out, f),
        carries::<S, V, N>(r, out),
    ensures
        forall|i: int| 0 <= i < V::width() ==> #[trigger] r.component(i) == g(v.component(i)),
{
    V::lemma_width();
    assert forall|i: int| 0 <= i < V::width() implies #[trigger] r.component(i) == g(
        v.component(i),
    ) by {
        assert(out[i] == g(a[i]));
        assert(a[i] == v.component(i));
    }
}

/// An operator on two vectors gives, in each component, the scalar function
/// of the operands' components in the same place, where the packed operation
/// works lane by lane.
pub proof fn lemma_zip_componentwise<
    S: Copy,
    V: Lanes<S, N>,
    P: From<[S; N]> + Into<[S; N]>,
    F: FnOnce(P, P) -> P,
    const N: usize,
>(lhs: V, rhs: V, r: V, f: F, g: spec_fn(S, S) -> S)
    requires
        lanewise_zip::<S, P, F, N>(f, g),
        zip_result::<S, V, P, F, N>(lhs, rhs, r, f),
    ensures
        forall|i: int|
            0 <= i < V::width() ==> #[trigger] r.component(i) == g(
                lhs.component(i),
                rhs.component(i),
            ),
{
    let (a, b, out) = choose|a: [S; N], b: [S; N], out: [S; N]|
        packs_as::<S, V, N>(lhs, a) && packs_as::<S, V, N>(rhs, b) && zipped::<S, P, F, N>(
            a,
            b,
            out,
            f,
        ) && carries::<S, V, N>(r, out);
    lemma_zip_lanes::<S, V, P, F, N>(lhs, rhs, a, b, out, r, f, g);
}

/// An operator on a vector and a scalar gives, in each component, the scalar
/// function of the operand's component in the same place and the scalar,
/// where the packed operation works lane by lane.
pub proof fn lemma_broadcast_componentwise<
    S: Copy,
    V: Lanes<S, N>,
    P: From<[S; N]> + Into<[S; N]>,
    F: FnOnce(P, S) -> P,
    const N: usize,
>(lhs: V, s: S, r: V, f: F, g: spec_fn(S, S) -> S)
    requires
        lanewise_broadcast::<S, P, F, N>(f, g),
        broadcast_result::<S, V, P, F, N>(lhs, s, r, f),
    ensures
        forall|i: int| 0 <= i < V::width() ==> #[trigger] r.component(i) == g(lhs.component(i), s),
{
    let (a, out) = choose|a: [S; N], out: [S; N]|
        packs_as::<S, V, N>(lhs, a) && broadcast::<S, P, F, N>(a, s, out, f) && carries::<S, V, N>(
            r,
            out,
        );
    lemma_broadcast_lanes::<S, V, P, F, N>(lhs, s, a, out, r, f, g);
}

/// An operator on one vector gives, in each component, the scalar function
/// of the operand's component in the same place, where the packed operation
/// works lane by lane.
pub proof fn lemma_map_componentwise<
    S: Copy,
    V: Lanes<S, N>,
    P: From<[S; N]> + Into<[S; N]>,
    F: FnOnce(P) -> P,
    const N: usize,
>(v: V, r: V, f: F, g: spec_fn(S) -> S)
    requires
        lanewise_map::<S, P, F, N>(f, g),
        map_result::<S, V, P, F, N>(v, r, f),
    ensures
        forall|i: int| 0 <= i < V::width() ==> #[trigger] r.component(i) == g(v.component(i)),
{
    let (a, out) = choose|a: [S; N], out: [S; N]|
        packs_as::<S, V, N>(v, a) && mapped::<S, P, F, N>(a, out, f) && carries::<S, V, N>(r, out);
    lemma_map_lanes::<S, V, P, F, N>(v, a, out, r, f, g);
}

/// The padding lanes do not show in a result: two runs of a lane-by-lane
/// operation on the same two vectors give the same vector, whatever each run
/// put into the padding lanes of its operands.
pub proof fn lemma_zip_ignores_padding<
    S: Copy,
    V: Lanes<S, N>,
    P: From<[S; N]> + Into<[S; N]>,
    F: FnOnce(P, P) -> P,
    const N: usize,
>(
    lhs: V,
    rhs: V,
    a1: [S; N],
    b1: [S; N],
    out1: [S; N],
    r1: V,
    a2: [S; N],
    b2: [S; N],
    out2: [S; N],
    r2: V,
    f: F,
    g: spec_fn(S, S) -> S,
)
    requires
        lanewise_zip::<S, P, F, N>(f, g),
        carries::<S, V, N>(lhs, a1),
        carries::<S, V, N>(rhs, b1),
        zipped::<S, P, F, N>(a1, b1, out1, f),
        carries::<S, V, N>(r1, out1),
        carries::<S, V, N>(lhs, a2),
        carries::<S, V, N>(rhs, b2),
        zipped::<S, P, F, N>(a2, b2, out2, f),
        carries::<S, V, N>(r2, out2),
    ensures
        r1 == r2,
{
    lemma_zip_lanes::<S, V, P, F, N>(lhs, rhs, a1, b1, out1, r1, f, g);
    lemma_zip_lanes::<S, V, P, F, N>(lhs, rhs, a2, b2, out2, r2, f, g);
    r1.lemma_determined(r2);
}

/// The padding lanes do not show in a result: two runs of a lane-by-lane
/// operation on the same vector and scalar give the same vector, whatever
/// each run put into the padding lanes of its operand.
pub proof fn lemma_broadcast_ignores_padding<
    S: Copy,
    V: Lanes<S, N>,
    P: From<[S; N]> + Into<[S; N]>,
    F: FnOnce(P, S) -> P,
    const N: usize,
>(
    lhs: V,
    s: S,
    a1: [S; N],
    out1: [S; N],
    r1: V,
    a2: [S; N],
    out2: [S; N],
    r2: V,
    f: F,
    g: spec_fn(S, S) -> S,
)
    requires
        lanewise_broadcast::<S, P, F, N>(f, g),
        carries::<S, V, N>(lhs, a1),
        broadcast::<S, P, F, N>(a1, s, out1, f),
        carries::<S, V, N>(r1, out1),
        carries::<S, V, N>(lhs, a2),
        broadcast::<S, P, F, N>(a2, s, out2, f),
        carries::<S, V, N>(r2, out2),
    ensures
        r1 == r2,
{
    lemma_broadcast_lanes::<S, V, P, F, N>(lhs, s, a1, out1, r1, f, g);
    lemma_broadcast_lanes::<S, V, P, F, N>(lhs, s, a2, out2, r2, f, g);
    r1.lemma_determined(r2);
}

/// The padding lanes do not show in a result: two runs of a lane-by-lane
/// operation on the same vector give the same vector, whatever each run put
/// into the padding lanes of its operand.
pub proof fn lemma_map_ignores_padding<
    S: Copy,
    V: Lanes<S, N>,
    P: From<[S; N]> + Into<[S; N]>,
    F: FnOnce(P) -> P,
    const N: usize,
>(v: V, a1: [S; N], out1: [S; N], r1: V, a2: [S; N], out2: [S; N], r2: V, f: F, g: spec_fn(S) -> S)
    requires
        lanewise_map::<S, P, F, N>(f, g),
        carries::<S, V, N>(v, a1),
        mapped::<S, P, F, N>(a1, out1, f),
        carries::<S, V, N>(r1, out1),
        carries::<S, V, N>(v, a2),
        mapped::<S, P, F, N>(a2, out2, f),
        carries::<S, V, N>(r2, out2),
    ensures
        r1 == r2,
{
    lemma_map_lanes::<S, V, P, F, N>(v, a1, out1, r1, f, g);
    lemma_map_lanes::<S, V, P, F, N>(v, a2, out2, r2, f, g);
    r1.lemma_determined(r2);
}

/// Two results of the same lane-by-lane operation on the same two vectors
/// are equal. So a compound assignment leaves in its receiver what the
/// operator returns, and `add_element_wise` and `sub_element_wise` return
/// what `add` and `sub` return: each pair has one contract.
pub proof fn lemma_zip_determined<
    S: Copy,
    V: Lanes<S, N>,
    P: From<[S; N]> + Into<[S; N]>,
    F: FnOnce(P, P) -> P,
    const N: usize,
>(lhs: V, rhs: V, r1: V, r2: V, f: F, g: spec_fn(S, S) -> S)
    requires
        lanewise_zip::<S, P, F, N>(f, g),
        zip_result::<S, V, P, F, N>(lhs, rhs, r1, f),
        zip_result::<S, V, P, F, N>(lhs, rhs, r2, f),
    ensures
        r1 == r2,
{
    lemma_zip_componentwise::<S, V, P, F, N>(lhs, rhs, r1, f, g);
    lemma_zip_componentwise::<S, V, P, F, N>(lhs, rhs, r2, f, g);
    r1.lemma_determined(r2);
}

/// Two results of the same lane-by-lane operation on the same vector and
/// scalar are equal. So a compound assignment by a scalar leaves in its
/// receiver what the operator returns, and the element-wise product,
/// quotient and remainder by a scalar return what `mul`, `div` and `rem`
/// return: each pair has one contract.
pub proof fn lemma_broadcast_determined<
    S: Copy,
    V: Lanes<S, N>,
    P: From<[S; N]> + Into<[S; N]>,
    F: FnOnce(P, S) -> P,
    const N: usize,
>(lhs: V, s: S, r1: V, r2: V, f: F, g: spec_fn(S, S) -> S)
    requires
        lanewise_broadcast::<S, P, F, N>(f, g),
        broadcast_result::<S, V, P, F, N>(lhs, s, r1, f),
        broadcast_result::<S, V, P, F, N>(lhs, s, r2, f),
    ensures
        r1 == r2,
{
    lemma_broadcast_componentwise::<S, V, P, F, N>(lhs, s, r1, f, g);
    lemma_broadcast_componentwise::<S, V, P, F, N>(lhs, s, r2, f, g);
    r1.lemma_determined(r2);
}

/// Negating twice gives the vector again, where the packed negation works
/// lane by lane as a scalar function that undoes itself.
pub proof fn lemma_neg_involution<
    S: Copy,
    V: Lanes<S, N>,
    P: From<[S; N]> + Into<[S; N]> + Neg<Output = P>,
    const N: usize,
>(v: V, once: V, twice: V, g: spec_fn(S) -> S)
    requires
        lanewise_map::<S, P, _, N>(<P as Neg>::neg, g),
        forall|x: S| #[trigger] g(g(x)) == x,
        map_result::<S, V, P, _, N>(v, once, <P as Neg>::neg),
        map_result::<S, V, P, _, N>(once, twice, <P as Neg>::neg),
    ensures
        twice == v,
{
    lemma_map_componentwise::<S, V, P, _, N>(v, once, <P as Neg>::neg, g);
    lemma_map_componentwise::<S, V, P, _, N>(once, twice, <P as Neg>::neg, g);
    assert forall|i: int| 0 <= i < V::width() implies twice.component(i) == v.component(i) by {
        assert(once.component(i) == g(v.component(i)));
        assert(twice.component(i) == g(once.component(i)));
    }
    twice.lemma_determined(v);
}

} // verus!
