//! Laws that relate the operations of the three vector types: each is a
//! public proof function whose statement ranges over all inputs its
//! hypotheses allow.

use vstd::prelude::*;
use vstd::std_specs::ops::{AddSpec, MulSpec, NegSpec};

use crate::traits::{HasComponents, HasCross, HasDot, HasZero};
use crate::vec2::Vec2;
use crate::vec3::Vec3;
use crate::vec4::Vec4;

verus! {

/// Construction round-trip: a vector built from an array hands the same
/// array back. The hypotheses are the contracts of `Vec2::new` and
/// `Vec2::as_array`.
pub proof fn lemma_round_trip_vec2<T: Copy>(vals: [T; 2], v: Vec2<T>, back: [T; 2])
    requires
        v.comps() == vals@,
        back@ == v.comps(),
    ensures
        back == vals,
{
    assert(back =~= vals);
}

/// Construction round-trip for `Vec3`; see `lemma_round_trip_vec2`.
pub proof fn lemma_round_trip_vec3<T: Copy>(vals: [T; 3], v: Vec3<T>, back: [T; 3])
    requires
        v.comps() == vals@,
        back@ == v.comps(),
    ensures
        back == vals,
{
    assert(back =~= vals);
}

/// Construction round-trip for `Vec4`; see `lemma_round_trip_vec2`.
pub proof fn lemma_round_trip_vec4<T: Copy>(vals: [T; 4], v: Vec4<T>, back: [T; 4])
    requires
        v.comps() == vals@,
        back@ == v.comps(),
    ensures
        back == vals,
{
    assert(back =~= vals);
}

/// Indexing matches the named accessors: the component sequence that the
/// indexed accessors return from is, position by position, the named fields
/// that `x()`, `y()` return.
pub proof fn lemma_accessors_match_components_vec2<T: Copy>(v: Vec2<T>)
    ensures
        v.comps().len() == 2,
        v.comps()[0] == v.x,
        v.comps()[1] == v.y,
{
}

/// Indexing matches the named accessors for `Vec3`.
pub proof fn lemma_accessors_match_components_vec3<T: Copy>(v: Vec3<T>)
    ensures
        v.comps().len() == 3,
        v.comps()[0] == v.x,
        v.comps()[1] == v.y,
        v.comps()[2] == v.z,
{
}

/// Indexing matches the named accessors for `Vec4`.
pub proof fn lemma_accessors_match_components_vec4<T: Copy>(v: Vec4<T>)
    ensures
        v.comps().len() == 4,
        v.comps()[0] == v.x,
        v.comps()[1] == v.y,
        v.comps()[2] == v.z,
        v.comps()[3] == v.w,
{
}

/// Additive identity: adding the zero vector to any vector is defined and
/// returns the vector unchanged, for every scalar with an additive identity.
pub proof fn lemma_add_zero_identity_vec2<T: HasZero>(v: Vec2<T>)
    ensures
        v.add_req(Vec2::<T>::zero_spec()),
        v.add_spec(Vec2::<T>::zero_spec()) == v,
{
    T::zero_is_add_identity(v.x);
    T::zero_is_add_identity(v.y);
}

/// Additive identity for `Vec3`; see `lemma_add_zero_identity_vec2`.
pub proof fn lemma_add_zero_identity_vec3<T: HasZero>(v: Vec3<T>)
    ensures
        v.add_req(Vec3::<T>::zero_spec()),
        v.add_spec(Vec3::<T>::zero_spec()) == v,
{
    T::zero_is_add_identity(v.x);
    T::zero_is_add_identity(v.y);
    T::zero_is_add_identity(v.z);
}

/// Additive identity for `Vec4`; see `lemma_add_zero_identity_vec2`.
pub proof fn lemma_add_zero_identity_vec4<T: HasZero>(v: Vec4<T>)
    ensures
        v.add_req(Vec4::<T>::zero_spec()),
        v.add_spec(Vec4::<T>::zero_spec()) == v,
{
    T::zero_is_add_identity(v.x);
    T::zero_is_add_identity(v.y);
    T::zero_is_add_identity(v.z);
    T::zero_is_add_identity(v.w);
}

/// Dot product symmetry for every scalar whose multiplication is
/// commutative: the two orders give the same value, for all vectors.
pub proof fn lemma_dot_symmetric_vec2<T: core::ops::Add<Output = T> + core::ops::Mul<
    Output = T,
> + Copy>(a: Vec2<T>, b: Vec2<T>)
    requires
        forall|s: T, t: T| #[trigger] s.mul_spec(t) == t.mul_spec(s),
    ensures
        a.dot_spec(&b) == b.dot_spec(&a),
{
}

/// Dot product symmetry for commutative scalars, on `Vec3`.
pub proof fn lemma_dot_symmetric_vec3<T: core::ops::Add<Output = T> + core::ops::Mul<
    Output = T,
> + Copy>(a: Vec3<T>, b: Vec3<T>)
    requires
        forall|s: T, t: T| #[trigger] s.mul_spec(t) == t.mul_spec(s),
    ensures
        a.dot_spec(&b) == b.dot_spec(&a),
{
}

/// Dot product symmetry for commutative scalars, on `Vec4`.
pub proof fn lemma_dot_symmetric_vec4<T: core::ops::Add<Output = T> + core::ops::Mul<
    Output = T,
> + Copy>(a: Vec4<T>, b: Vec4<T>)
    requires
        forall|s: T, t: T| #[trigger] s.mul_spec(t) == t.mul_spec(s),
    ensures
        a.dot_spec(&b) == b.dot_spec(&a),
{
}

/// Dot product symmetry over `i64` scalars: the two orders give the same
/// value, for all vectors, with no overflow hypothesis needed.
pub proof fn lemma_dot_symmetric_vec2_i64(a: Vec2<i64>, b: Vec2<i64>)
    ensures
        a.dot_spec(&b) == b.dot_spec(&a),
{
    assert(a.x * b.x == b.x * a.x) by (nonlinear_arith);
    assert(a.y * b.y == b.y * a.y) by (nonlinear_arith);
}

/// Dot product symmetry over `i64` scalars for `Vec3`.
pub proof fn lemma_dot_symmetric_vec3_i64(a: Vec3<i64>, b: Vec3<i64>)
    ensures
        a.dot_spec(&b) == b.dot_spec(&a),
{
    assert(a.x * b.x == b.x * a.x) by (nonlinear_arith);
    assert(a.y * b.y == b.y * a.y) by (nonlinear_arith);
    assert(a.z * b.z == b.z * a.z) by (nonlinear_arith);
}

/// Dot product symmetry over `i64` scalars for `Vec4`.
pub proof fn lemma_dot_symmetric_vec4_i64(a: Vec4<i64>, b: Vec4<i64>)
    ensures
        a.dot_spec(&b) == b.dot_spec(&a),
{
    assert(a.x * b.x == b.x * a.x) by (nonlinear_arith);
    assert(a.y * b.y == b.y * a.y) by (nonlinear_arith);
    assert(a.z * b.z == b.z * a.z) by (nonlinear_arith);
    assert(a.w * b.w == b.w * a.w) by (nonlinear_arith);
}

/// Cross product anti-commutativity over `i64` scalars: swapping the
/// operands negates the result, on all inputs where both orders are free of
/// overflow.
pub proof fn lemma_cross_anticommutes_i64(a: Vec3<i64>, b: Vec3<i64>)
    requires
        a.cross_req(&b),
        b.cross_req(&a),
    ensures
        b.cross_spec(&a).neg_req(),
        a.cross_spec(&b) == b.cross_spec(&a).neg_spec(),
{
    assert(a.y * b.z == b.z * a.y) by (nonlinear_arith);
    assert(a.z * b.y == b.y * a.z) by (nonlinear_arith);
    assert(a.z * b.x == b.x * a.z) by (nonlinear_arith);
    assert(a.x * b.z == b.z * a.x) by (nonlinear_arith);
    assert(a.x * b.y == b.y * a.x) by (nonlinear_arith);
    assert(a.y * b.x == b.x * a.y) by (nonlinear_arith);
}

/// Cross product orthogonality over `i64` scalars: the cross product is
/// perpendicular to both of its operands, on all inputs where the products
/// involved are free of overflow.
pub proof fn lemma_cross_orthogonal_i64(a: Vec3<i64>, b: Vec3<i64>)
    requires
        a.cross_req(&b),
        a.cross_spec(&b).dot_req(&a),
        a.cross_spec(&b).dot_req(&b),
    ensures
        a.cross_spec(&b).dot_spec(&a) == 0,
        a.cross_spec(&b).dot_spec(&b) == 0,
{
    let c = a.cross_spec(&b);
    assert((a.y * b.z - a.z * b.y) * a.x + (a.z * b.x - a.x * b.z) * a.y + (a.x * b.y - a.y
        * b.x) * a.z == 0) by (nonlinear_arith);
    assert((a.y * b.z - a.z * b.y) * b.x + (a.z * b.x - a.x * b.z) * b.y + (a.x * b.y - a.y
        * b.x) * b.z == 0) by (nonlinear_arith);
    assert(c.x * a.x == (a.y * b.z - a.z * b.y) * a.x) by (nonlinear_arith)
        requires
            c.x == a.y * b.z - a.z * b.y,
    ;
    assert(c.y * a.y == (a.z * b.x - a.x * b.z) * a.y) by (nonlinear_arith)
        requires
            c.y == a.z * b.x - a.x * b.z,
    ;
    assert(c.z * a.z == (a.x * b.y - a.y * b.x) * a.z) by (nonlinear_arith)
        requires
            c.z == a.x * b.y - a.y * b.x,
    ;
    assert(c.x * b.x == (a.y * b.z - a.z * b.y) * b.x) by (nonlinear_arith)
        requires
            c.x == a.y * b.z - a.z * b.y,
    ;
    assert(c.y * b.y == (a.z * b.x - a.x * b.z) * b.y) by (nonlinear_arith)
        requires
            c.y == a.z * b.x - a.x * b.z,
    ;
    assert(c.z * b.z == (a.x * b.y - a.y * b.x) * b.z) by (nonlinear_arith)
        requires
            c.z == a.x * b.y - a.y * b.x,
    ;
}

/// Scalar broadcast consistency: adding a scalar to a vector adds it to
/// every component, for every component position and every scalar.
pub proof fn lemma_broadcast_add_vec2<T: core::ops::Add<Output = T> + Copy>(
    v: Vec2<T>,
    s: T,
    i: int,
)
    requires
        0 <= i < 2,
    ensures
        v.add_spec(s).comps()[i] == v.comps()[i].add_spec(s),
{
}

/// Scalar broadcast consistency for `Vec3`.
pub proof fn lemma_broadcast_add_vec3<T: core::ops::Add<Output = T> + Copy>(
    v: Vec3<T>,
    s: T,
    i: int,
)
    requires
        0 <= i < 3,
    ensures
        v.add_spec(s).comps()[i] == v.comps()[i].add_spec(s),
{
}

/// Scalar broadcast consistency for `Vec4`.
pub proof fn lemma_broadcast_add_vec4<T: core::ops::Add<Output = T> + Copy>(
    v: Vec4<T>,
    s: T,
    i: int,
)
    requires
        0 <= i < 4,
    ensures
        v.add_spec(s).comps()[i] == v.comps()[i].add_spec(s),
{
}

} // verus!
