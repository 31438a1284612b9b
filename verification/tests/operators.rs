#![allow(dead_code)]

use simd_vector::{Operators, PackedApply, Vector2, Vector3, Vector4};
use std::ops::{Add, Div, Mul, Neg, Rem, Sub};

/// A packed value for the tests: the lanes in an array, every operation
/// applied to each lane by itself.
#[derive(Clone, Copy, Debug, PartialEq)]
struct Pack<T, const N: usize>([T; N]);

impl<T, const N: usize> From<[T; N]> for Pack<T, N> {
    fn from(lanes: [T; N]) -> Self {
        Pack(lanes)
    }
}

impl<T, const N: usize> From<Pack<T, N>> for [T; N] {
    fn from(p: Pack<T, N>) -> Self {
        p.0
    }
}

impl<T: Copy + Add<Output = T>, const N: usize> Add for Pack<T, N> {
    type Output = Pack<T, N>;

    fn add(self, rhs: Pack<T, N>) -> Pack<T, N> {
        let mut lanes = self.0;
        for i in 0..N {
            lanes[i] = self.0[i] + rhs.0[i];
        }
        Pack(lanes)
    }
}

impl<T: Copy + Add<Output = T>, const N: usize> Add<T> for Pack<T, N> {
    type Output = Pack<T, N>;

    fn add(self, rhs: T) -> Pack<T, N> {
        let mut lanes = self.0;
        for i in 0..N {
            lanes[i] = self.0[i] + rhs;
        }
        Pack(lanes)
    }
}

impl<T: Copy + Sub<Output = T>, const N: usize> Sub for Pack<T, N> {
    type Output = Pack<T, N>;

    fn sub(self, rhs: Pack<T, N>) -> Pack<T, N> {
        let mut lanes = self.0;
        for i in 0..N {
            lanes[i] = self.0[i] - rhs.0[i];
        }
        Pack(lanes)
    }
}

impl<T: Copy + Sub<Output = T>, const N: usize> Sub<T> for Pack<T, N> {
    type Output = Pack<T, N>;

    fn sub(self, rhs: T) -> Pack<T, N> {
        let mut lanes = self.0;
        for i in 0..N {
            lanes[i] = self.0[i] - rhs;
        }
        Pack(lanes)
    }
}

impl<T: Copy + Mul<Output = T>, const N: usize> Mul for Pack<T, N> {
    type Output = Pack<T, N>;

    fn mul(self, rhs: Pack<T, N>) -> Pack<T, N> {
        let mut lanes = self.0;
        for i in 0..N {
            lanes[i] = self.0[i] * rhs.0[i];
        }
        Pack(lanes)
    }
}

impl<T: Copy + Mul<Output = T>, const N: usize> Mul<T> for Pack<T, N> {
    type Output = Pack<T, N>;

    fn mul(self, rhs: T) -> Pack<T, N> {
        let mut lanes = self.0;
        for i in 0..N {
            lanes[i] = self.0[i] * rhs;
        }
        Pack(lanes)
    }
}

impl<T: Copy + Div<Output = T>, const N: usize> Div for Pack<T, N> {
    type Output = Pack<T, N>;

    fn div(self, rhs: Pack<T, N>) -> Pack<T, N> {
        let mut lanes = self.0;
        for i in 0..N {
            lanes[i] = self.0[i] / rhs.0[i];
        }
        Pack(lanes)
    }
}

impl<T: Copy + Div<Output = T>, const N: usize> Div<T> for Pack<T, N> {
    type Output = Pack<T, N>;

    fn div(self, rhs: T) -> Pack<T, N> {
        let mut lanes = self.0;
        for i in 0..N {
            lanes[i] = self.0[i] / rhs;
        }
        Pack(lanes)
    }
}

impl<T: Copy + Rem<Output = T>, const N: usize> Rem for Pack<T, N> {
    type Output = Pack<T, N>;

    fn rem(self, rhs: Pack<T, N>) -> Pack<T, N> {
        let mut lanes = self.0;
        for i in 0..N {
            lanes[i] = self.0[i] % rhs.0[i];
        }
        Pack(lanes)
    }
}

impl<T: Copy + Rem<Output = T>, const N: usize> Rem<T> for Pack<T, N> {
    type Output = Pack<T, N>;

    fn rem(self, rhs: T) -> Pack<T, N> {
        let mut lanes = self.0;
        for i in 0..N {
            lanes[i] = self.0[i] % rhs;
        }
        Pack(lanes)
    }
}

impl<T: Copy + Neg<Output = T>, const N: usize> Neg for Pack<T, N> {
    type Output = Pack<T, N>;

    fn neg(self) -> Pack<T, N> {
        let mut lanes = self.0;
        for i in 0..N {
            lanes[i] = -self.0[i];
        }
        Pack(lanes)
    }
}

type P2 = Pack<f32, 2>;
type P4 = Pack<f32, 4>;
type D4 = Pack<f64, 4>;
type I4 = Pack<i32, 4>;

#[test]
fn add_is_the_sum_of_each_component() {
    let a = Vector3 { x: 1.0f32, y: 2.0, z: 3.0 };
    let b = Vector3 { x: 10.0f32, y: 20.0, z: 30.0 };
    assert_eq!(a.add::<P4>(b), Vector3 { x: 11.0, y: 22.0, z: 33.0 });
}

#[test]
fn sub_is_the_difference_of_each_component() {
    let a = Vector3 { x: 1.0f32, y: 2.0, z: 3.0 };
    let b = Vector3 { x: 10.0f32, y: 20.0, z: 30.0 };
    assert_eq!(a.sub::<P4>(b), Vector3 { x: -9.0, y: -18.0, z: -27.0 });
    assert_eq!(b.sub::<P4>(a), Vector3 { x: 9.0, y: 18.0, z: 27.0 });
}

#[test]
fn mul_scales_each_component() {
    let a = Vector4 { x: 1.0f64, y: -2.0, z: 0.5, w: 0.0 };
    assert_eq!(a.mul::<D4>(4.0), Vector4 { x: 4.0, y: -8.0, z: 2.0, w: 0.0 });
}

#[test]
fn div_divides_each_component() {
    let a = Vector2 { x: 9.0f32, y: -3.0 };
    assert_eq!(a.div::<P2>(3.0), Vector2 { x: 3.0, y: -1.0 });
}

#[test]
fn rem_takes_the_remainder_of_each_component() {
    let a = Vector3 { x: 7.5f32, y: -7.5, z: 4.0 };
    assert_eq!(a.rem::<P4>(2.0), Vector3 { x: 1.5, y: -1.5, z: 0.0 });
}

#[test]
fn neg_negates_each_component() {
    let a = Vector3 { x: 1.0f32, y: -2.0, z: 0.0 };
    let n = a.neg::<P4>();
    assert_eq!(n, Vector3 { x: -1.0, y: 2.0, z: -0.0 });
    assert!(n.z.is_sign_negative());
}

#[test]
fn operators_work_on_two_and_four_components() {
    let a = Vector2 { x: 1.0f32, y: 2.0 };
    let b = Vector2 { x: 0.5f32, y: 0.25 };
    assert_eq!(a.add::<P2>(b), Vector2 { x: 1.5, y: 2.25 });
    assert_eq!(a.sub::<P2>(b), Vector2 { x: 0.5, y: 1.75 });
    let c = Vector4 { x: 1.0f32, y: 2.0, z: 3.0, w: 4.0 };
    let d = Vector4 { x: 4.0f32, y: 3.0, z: 2.0, w: 1.0 };
    assert_eq!(c.add::<P4>(d), Vector4 { x: 5.0, y: 5.0, z: 5.0, w: 5.0 });
    assert_eq!(c.sub::<P4>(d), Vector4 { x: -3.0, y: -1.0, z: 1.0, w: 3.0 });
    assert_eq!(c.neg::<P4>(), Vector4 { x: -1.0, y: -2.0, z: -3.0, w: -4.0 });
}

#[test]
fn operators_equal_the_scalar_operators_on_many_pairs() {
    let mut seed: u32 = 0x9e37_79b9;
    for _ in 0..300 {
        let mut next = || {
            seed ^= seed << 13;
            seed ^= seed >> 17;
            seed ^= seed << 5;
            (seed % 20_001) as f32 / 8.0 - 1250.0
        };
        let a = Vector3 { x: next(), y: next(), z: next() };
        let b = Vector3 { x: next(), y: next(), z: next() };
        let s = next();
        assert_eq!(a.add::<P4>(b), Vector3 { x: a.x + b.x, y: a.y + b.y, z: a.z + b.z });
        assert_eq!(a.sub::<P4>(b), Vector3 { x: a.x - b.x, y: a.y - b.y, z: a.z - b.z });
        assert_eq!(a.mul::<P4>(s), Vector3 { x: a.x * s, y: a.y * s, z: a.z * s });
        if s != 0.0 {
            assert_eq!(a.div::<P4>(s), Vector3 { x: a.x / s, y: a.y / s, z: a.z / s });
            assert_eq!(a.rem::<P4>(s), Vector3 { x: a.x % s, y: a.y % s, z: a.z % s });
        }
        assert_eq!(a.neg::<P4>(), Vector3 { x: -a.x, y: -a.y, z: -a.z });
    }
}

#[test]
fn division_by_zero_is_what_the_scalar_type_gives() {
    let a = Vector3 { x: 1.0f32, y: -1.0, z: 0.0 };
    let q = a.div::<P4>(0.0);
    assert_eq!(q.x, f32::INFINITY);
    assert_eq!(q.y, f32::NEG_INFINITY);
    assert!(q.z.is_nan());
    let r = a.rem::<P4>(0.0);
    assert!(r.x.is_nan() && r.y.is_nan() && r.z.is_nan());
}

#[test]
fn overflow_goes_to_infinity_in_its_own_lane_only() {
    let a = Vector3 { x: f32::MAX, y: 1.0, z: -f32::MAX };
    let r = a.mul::<P4>(2.0);
    assert_eq!(r, Vector3 { x: f32::INFINITY, y: 2.0, z: f32::NEG_INFINITY });
}

#[test]
fn a_nan_component_stays_in_its_lane() {
    let a = Vector3 { x: f32::NAN, y: 2.0, z: 3.0 };
    let b = Vector3 { x: 1.0f32, y: 1.0, z: 1.0 };
    let r = a.add::<P4>(b);
    assert!(r.x.is_nan());
    assert_eq!(r.y, 3.0);
    assert_eq!(r.z, 4.0);
}

#[test]
fn add_assign_leaves_the_sum() {
    let v1 = Vector3 { x: 1.0f32, y: 2.0, z: 3.0 };
    let v2 = Vector3 { x: 10.0f32, y: 20.0, z: 30.0 };
    let mut a = v1;
    a.add_assign::<P4>(v2);
    assert_eq!(a, v1.add::<P4>(v2));
    assert_eq!(a, Vector3 { x: 11.0, y: 22.0, z: 33.0 });
}

#[test]
fn sub_assign_leaves_the_difference() {
    let v1 = Vector4 { x: 1.0f32, y: 2.0, z: 3.0, w: 4.0 };
    let v2 = Vector4 { x: 0.5f32, y: 0.5, z: 0.5, w: 0.5 };
    let mut a = v1;
    a.sub_assign::<P4>(v2);
    assert_eq!(a, v1.sub::<P4>(v2));
    assert_eq!(a, Vector4 { x: 0.5, y: 1.5, z: 2.5, w: 3.5 });
}

#[test]
fn mul_assign_leaves_the_product() {
    let v1 = Vector2 { x: 3.0f32, y: -4.0 };
    let mut a = v1;
    a.mul_assign::<P2>(2.5);
    assert_eq!(a, v1.mul::<P2>(2.5));
    assert_eq!(a, Vector2 { x: 7.5, y: -10.0 });
}

#[test]
fn div_assign_leaves_the_quotient() {
    let v1 = Vector3 { x: 3.0f32, y: -4.0, z: 10.0 };
    let mut a = v1;
    a.div_assign::<P4>(4.0);
    assert_eq!(a, v1.div::<P4>(4.0));
    assert_eq!(a, Vector3 { x: 0.75, y: -1.0, z: 2.5 });
}

#[test]
fn rem_assign_leaves_the_remainder() {
    let v1 = Vector3 { x: 3.0f32, y: -4.5, z: 10.0 };
    let mut a = v1;
    a.rem_assign::<P4>(4.0);
    assert_eq!(a, v1.rem::<P4>(4.0));
    assert_eq!(a, Vector3 { x: 3.0, y: -0.5, z: 2.0 });
}

#[test]
fn compound_assignment_changes_the_receiver_only() {
    let v2 = Vector3 { x: 10.0f32, y: 20.0, z: 30.0 };
    let mut a = Vector3 { x: 1.0f32, y: 2.0, z: 3.0 };
    let kept = v2;
    a.add_assign::<P4>(v2);
    a.add_assign::<P4>(v2);
    assert_eq!(v2, kept);
    assert_eq!(a, Vector3 { x: 21.0, y: 42.0, z: 63.0 });
}

#[test]
fn negating_twice_gives_the_vector_again() {
    let vs = [
        Vector3 { x: 1.0f32, y: -2.0, z: 3.5 },
        Vector3 { x: 0.0, y: -0.0, z: f32::INFINITY },
        Vector3 { x: f32::MIN_POSITIVE, y: f32::MAX, z: -1.0e-40 },
    ];
    for v in vs {
        let back = v.neg::<P4>().neg::<P4>();
        assert_eq!(back.x.to_bits(), v.x.to_bits());
        assert_eq!(back.y.to_bits(), v.y.to_bits());
        assert_eq!(back.z.to_bits(), v.z.to_bits());
    }
    let w = Vector4 { x: 1.0f64, y: -2.0, z: 0.0, w: 4.0 };
    assert_eq!(w.neg::<D4>().neg::<D4>(), w);
    let i = Vector3 { x: 5i32, y: -6, z: 0 };
    assert_eq!(i.neg::<I4>().neg::<I4>(), i);
}

#[test]
fn integer_scalars_go_value_for_value() {
    let a = Vector3 { x: 1i32, y: 2, z: 3 };
    let b = Vector3 { x: 10i32, y: 20, z: 30 };
    assert_eq!(a.add::<I4>(b), Vector3 { x: 11, y: 22, z: 33 });
    assert_eq!(b.sub::<I4>(a), Vector3 { x: 9, y: 18, z: 27 });
    assert_eq!(b.mul::<I4>(3), Vector3 { x: 30, y: 60, z: 90 });
    assert_eq!(b.div::<I4>(7), Vector3 { x: 1, y: 2, z: 4 });
    assert_eq!(b.rem::<I4>(7), Vector3 { x: 3, y: 6, z: 2 });
}

#[test]
fn a_borrowed_operand_gives_the_same_result() {
    let a = Vector3 { x: 1.0f32, y: 2.0, z: 3.0 };
    let b = Vector3 { x: 10.0f32, y: 20.0, z: 30.0 };
    let (ra, rb) = (&a, &b);
    assert_eq!(ra.add::<P4>(*rb), a.add::<P4>(b));
    assert_eq!(ra.sub::<P4>(b), a.sub::<P4>(b));
    assert_eq!(a.add::<P4>(*rb), a.add::<P4>(b));
    assert_eq!(ra.mul::<P4>(2.0), a.mul::<P4>(2.0));
    assert_eq!(ra.neg::<P4>(), a.neg::<P4>());
    assert_eq!(a, Vector3 { x: 1.0, y: 2.0, z: 3.0 });
}

#[test]
fn the_scalar_operand_goes_to_the_packed_type_as_it_is() {
    let a = Vector3 { x: 1.0f32, y: 2.0, z: 3.0 };
    let seen = a.broadcast_with::<P4, _>(5.0, |p: P4, s: f32| Pack([s, s, p.0[2], p.0[3]]));
    assert_eq!(seen, Vector3 { x: 5.0, y: 5.0, z: 3.0 });
}

#[test]
fn zip_with_applies_the_given_packed_operation() {
    let a = Vector4 { x: 1.0f32, y: 5.0, z: 3.0, w: 7.0 };
    let b = Vector4 { x: 4.0f32, y: 2.0, z: 6.0, w: 0.0 };
    let larger = a.zip_with::<P4, _>(b, |p: P4, q: P4| {
        Pack([p.0[0].max(q.0[0]), p.0[1].max(q.0[1]), p.0[2].max(q.0[2]), p.0[3].max(q.0[3])])
    });
    assert_eq!(larger, Vector4 { x: 4.0, y: 5.0, z: 6.0, w: 7.0 });
}

#[test]
fn map_with_applies_the_given_packed_operation() {
    let a = Vector2 { x: -1.5f32, y: 2.0 };
    let r = a.map_with::<P2, _>(|p: P2| Pack([p.0[0].abs(), p.0[1].abs()]));
    assert_eq!(r, Vector2 { x: 1.5, y: 2.0 });
}
