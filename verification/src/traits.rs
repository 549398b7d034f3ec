//! Capability traits: each names one operation family, independent of the
//! vector width, so that generic code can request exactly the operations it
//! needs. The concrete vector types implement every capability whose arity
//! applies; traits that lift scalar primitives this library does not model
//! (square roots, trigonometry) are declared here for implementers that have
//! such a scalar.

use vstd::prelude::*;
use vstd::std_specs::ops::{AddSpec, MulSpec};

verus! {

/// The common spec-level model of a vector-like type: the ordered sequence of
/// its scalar components. Every capability trait whose contract speaks of
/// components by position builds on this.
pub trait HasComponents {
    type ElemType;

    /// The components of this value, in index order.
    spec fn comps(&self) -> Seq<Self::ElemType>;
}

/// Access to component 0 by its semantic name.
pub trait HasX: HasComponents {
    /// A type with an x component has at least one component.
    proof fn x_capability(&self)
        ensures
            self.comps().len() >= 1,
    ;

    /// Returns component 0.
    fn x(&self) -> (r: Self::ElemType)
        ensures
            r == self.comps()[0],
    ;
}

/// Access to component 1 by its semantic name; strictly extends `HasX`.
pub trait HasY: HasX {
    /// A type with a y component has at least two components.
    proof fn y_capability(&self)
        ensures
            self.comps().len() >= 2,
    ;

    /// Returns component 1.
    fn y(&self) -> (r: Self::ElemType)
        ensures
            r == self.comps()[1],
    ;
}

/// Access to component 2 by its semantic name; strictly extends `HasY`.
pub trait HasZ: HasY {
    /// A type with a z component has at least three components.
    proof fn z_capability(&self)
        ensures
            self.comps().len() >= 3,
    ;

    /// Returns component 2.
    fn z(&self) -> (r: Self::ElemType)
        ensures
            r == self.comps()[2],
    ;
}

/// Access to component 3 by its semantic name; strictly extends `HasZ`.
pub trait HasW: HasZ {
    /// A type with a w component has at least four components.
    proof fn w_capability(&self)
        ensures
            self.comps().len() >= 4,
    ;

    /// Returns component 3.
    fn w(&self) -> (r: Self::ElemType)
        ensures
            r == self.comps()[3],
    ;
}

/// The dot product: the sum over all component positions of the products of
/// matching components.
pub trait HasDot: Sized {
    type Output;

    /// The inputs on which the dot product is defined: the scalar type's
    /// arithmetic is fully specified and no intermediate product or sum hits
    /// one of its edge cases (overflow, for machine integers).
    spec fn dot_req(&self, other: &Self) -> bool;

    /// The value of the dot product.
    spec fn dot_spec(&self, other: &Self) -> Self::Output;

    fn dot(&self, other: Self) -> (r: Self::Output)
        requires
            self.dot_req(&other),
        ensures
            r == self.dot_spec(&other),
    ;
}

/// The right-handed cross product; a capability of three-component vectors
/// only.
pub trait HasCross: Sized {
    /// The inputs on which the cross product is defined: the scalar type's
    /// arithmetic is fully specified and no intermediate product or
    /// difference hits one of its edge cases.
    spec fn cross_req(&self, other: &Self) -> bool;

    /// The value of the cross product.
    spec fn cross_spec(&self, other: &Self) -> Self;

    fn cross(&self, other: Self) -> (r: Self)
        requires
            self.cross_req(&other),
        ensures
            r == self.cross_spec(&other),
    ;
}

/// Per-element map: applies a function independently to every component,
/// preserving order and arity.
pub trait HasPerElementOps: HasComponents + Sized {
    fn apply_op<U: Fn(Self::ElemType) -> Self::ElemType>(&self, func: U) -> (r: Self)
        requires
            forall|i: int|
                0 <= i < self.comps().len() ==> call_requires(func, (#[trigger] self.comps()[i],)),
        ensures
            r.comps().len() == self.comps().len(),
            forall|i: int|
                0 <= i < self.comps().len() ==> call_ensures(
                    func,
                    (self.comps()[i],),
                    #[trigger] r.comps()[i],
                ),
    ;
}

/// Per-element zip: applies a function pairwise to the components of two
/// vectors of the same width, matching by index.
pub trait HasPerElementBinOps: HasComponents + Sized {
    fn apply_bin_op<U: Fn(Self::ElemType, Self::ElemType) -> Self::ElemType>(
        &self,
        rhs: Self,
        func: U,
    ) -> (r: Self)
        requires
            rhs.comps().len() == self.comps().len(),
            forall|i: int|
                0 <= i < self.comps().len() ==> call_requires(
                    func,
                    (#[trigger] self.comps()[i], rhs.comps()[i]),
                ),
        ensures
            r.comps().len() == self.comps().len(),
            forall|i: int|
                0 <= i < self.comps().len() ==> call_ensures(
                    func,
                    (self.comps()[i], rhs.comps()[i]),
                    #[trigger] r.comps()[i],
                ),
    ;
}

/// Component-wise minimum, maximum, and clamping.
pub trait HasMinMax: Sized {
    /// Whether the scalar type's ordering is fully specified; the contracts
    /// below are exact exactly when this holds.
    spec fn minmax_obeys() -> bool;

    /// The component-wise minimum of the two vectors.
    spec fn min_spec(&self, rhs: &Self) -> Self;

    /// The component-wise maximum of the two vectors.
    spec fn max_spec(&self, rhs: &Self) -> Self;

    /// Component-wise clamping: `min(max(self, lo), hi)` at every position.
    spec fn clamp_spec(&self, lo: &Self, hi: &Self) -> Self;

    fn min(&self, rhs: Self) -> (r: Self)
        ensures
            Self::minmax_obeys() ==> r == self.min_spec(&rhs),
    ;

    fn max(&self, rhs: Self) -> (r: Self)
        ensures
            Self::minmax_obeys() ==> r == self.max_spec(&rhs),
    ;

    fn clamp(&self, min: Self, max: Self) -> (r: Self)
        ensures
            Self::minmax_obeys() ==> r == self.clamp_spec(&min, &max),
    ;
}

/// Component-wise modulus by another vector.
pub trait HasMod: Sized {
    /// Whether the scalar type's remainder operation is fully specified.
    spec fn mod_obeys() -> bool;

    /// The inputs on which every component's remainder is defined.
    spec fn mod_req(&self, modulus: &Self) -> bool;

    /// The component-wise remainder.
    spec fn mod_spec(&self, modulus: &Self) -> Self;

    fn modulus(&self, modulus: Self) -> (r: Self)
        requires
            self.mod_req(&modulus),
        ensures
            Self::mod_obeys() ==> r == self.mod_spec(&modulus),
    ;
}

/// Component-wise step: 0 where the component is below the matching edge,
/// 1 otherwise.
pub trait HasStep: Sized {
    /// Whether the scalar type's ordering is fully specified.
    spec fn step_obeys() -> bool;

    /// The component-wise step value.
    spec fn step_spec(&self, edge: &Self) -> Self;

    fn step(&self, edge: Self) -> (r: Self)
        ensures
            Self::step_obeys() ==> r == self.step_spec(&edge),
    ;
}

/// Linear blend of two vectors by a scalar factor:
/// `self * (1 - f) + rhs * f` at every position.
pub trait HasMix: Sized {
    type ElemType;

    /// The inputs on which the blend is defined: the scalar type's arithmetic
    /// is fully specified and no intermediate value hits one of its edge
    /// cases.
    spec fn mix_req(&self, rhs: &Self, f: Self::ElemType) -> bool;

    /// The component-wise blend value.
    spec fn mix_spec(&self, rhs: &Self, f: Self::ElemType) -> Self;

    fn mix(&self, rhs: Self, f: Self::ElemType) -> (r: Self)
        requires
            self.mix_req(&rhs, f),
        ensures
            r == self.mix_spec(&rhs, f),
    ;
}

/// A scalar type with an additive identity, for identity-based vector
/// constructors. Adding the identity to any value is always defined and
/// returns the value unchanged.
pub trait HasZero: core::ops::Add<Output = Self> + Copy + Sized {
    /// The additive identity of the scalar type.
    spec fn zero_spec() -> Self;

    fn zero() -> (r: Self)
        ensures
            r == Self::zero_spec(),
    ;

    /// The identity law: adding zero on either side is defined and is the
    /// identity.
    proof fn zero_is_add_identity(x: Self)
        ensures
            x.add_req(Self::zero_spec()),
            x.add_spec(Self::zero_spec()) == x,
            Self::zero_spec().add_req(x),
            Self::zero_spec().add_spec(x) == x,
    ;
}

/// A scalar type with a multiplicative identity, for unit-basis vector
/// constructors. Multiplying by the identity is always defined and returns
/// the value unchanged.
pub trait HasOne: core::ops::Mul<Output = Self> + Copy + Sized {
    /// The multiplicative identity of the scalar type.
    spec fn one_spec() -> Self;

    fn one() -> (r: Self)
        ensures
            r == Self::one_spec(),
    ;

    /// The identity law: multiplying by one on either side is defined and is
    /// the identity.
    proof fn one_is_mul_identity(x: Self)
        ensures
            x.mul_req(Self::one_spec()),
            x.mul_spec(Self::one_spec()) == x,
            Self::one_spec().mul_req(x),
            Self::one_spec().mul_spec(x) == x,
    ;
}

/// Relies on `num::Zero::zero` for `i64`: returns the additive identity, 0.
#[verifier::external_body]
fn num_zero_i64() -> (r: i64)
    ensures
        r == 0i64,
{
    num::Zero::zero()
}

/// Relies on `num::One::one` for `i64`: returns the multiplicative
/// identity, 1.
#[verifier::external_body]
fn num_one_i64() -> (r: i64)
    ensures
        r == 1i64,
{
    num::One::one()
}

/// Relies on `num::Zero::zero` for `i32`: returns the additive identity, 0.
#[verifier::external_body]
fn num_zero_i32() -> (r: i32)
    ensures
        r == 0i32,
{
    num::Zero::zero()
}

/// Relies on `num::One::one` for `i32`: returns the multiplicative
/// identity, 1.
#[verifier::external_body]
fn num_one_i32() -> (r: i32)
    ensures
        r == 1i32,
{
    num::One::one()
}

impl HasZero for i64 {
    open spec fn zero_spec() -> i64 {
        0i64
    }

    fn zero() -> (r: i64) {
        num_zero_i64()
    }

    proof fn zero_is_add_identity(x: i64) {
    }
}

impl HasOne for i64 {
    open spec fn one_spec() -> i64 {
        1i64
    }

    fn one() -> (r: i64) {
        num_one_i64()
    }

    proof fn one_is_mul_identity(x: i64) {
    }
}

impl HasZero for i32 {
    open spec fn zero_spec() -> i32 {
        0i32
    }

    fn zero() -> (r: i32) {
        num_zero_i32()
    }

    proof fn zero_is_add_identity(x: i32) {
    }
}

impl HasOne for i32 {
    open spec fn one_spec() -> i32 {
        1i32
    }

    fn one() -> (r: i32) {
        num_one_i32()
    }

    proof fn one_is_mul_identity(x: i32) {
    }
}

/// Euclidean length. Implementable only by vectors over a scalar with a
/// square root primitive, which this library does not model; declared so
/// that such an implementer shares the common vocabulary.
pub trait HasLength: Sized {
    type Output;

    /// The Euclidean length, `sqrt(dot(self, self))`.
    spec fn length_spec(&self) -> Self::Output;

    fn length(&self) -> (r: Self::Output)
        ensures
            r == self.length_spec(),
    ;

    /// A synonym for `length`: it returns the same value.
    fn magnitude(&self) -> (r: Self::Output)
        ensures
            r == self.length_spec(),
    {
        self.length()
    }

    /// `self / self.length()`; callers must not pass a zero-length vector.
    fn normalize(&self) -> Self;
}

/// Euclidean distance: `(self - rhs).length()`. Declared for implementers
/// whose scalar has a square root primitive.
pub trait HasDistance: Sized {
    type Output;

    fn distance(&self, rhs: Self) -> Self::Output;
}

/// Orients a normal against an incident vector: the normal itself where the
/// reference points against the incident direction, its negation otherwise.
pub trait HasFaceForward: Sized {
    /// The inputs on which the orientation test and the possible negation
    /// are defined.
    spec fn faceforward_req(&self, i: &Self, nref: &Self) -> bool;

    /// The oriented normal.
    spec fn faceforward_spec(&self, i: &Self, nref: &Self) -> Self;

    fn faceforward(&self, i: Self, nref: Self) -> (r: Self)
        requires
            self.faceforward_req(&i, &nref),
        ensures
            r == self.faceforward_spec(&i, &nref),
    ;
}

/// Reflection of an incident vector about a normal:
/// `self - n * (2 * dot(n, self))`.
pub trait HasReflect: Sized {
    /// The inputs on which every intermediate product, sum, and difference
    /// is free of the scalar type's arithmetic edge cases.
    spec fn reflect_req(&self, n: &Self) -> bool;

    /// The reflected vector.
    spec fn reflect_spec(&self, n: &Self) -> Self;

    fn reflect(&self, n: Self) -> (r: Self)
        requires
            self.reflect_req(&n),
        ensures
            r == self.reflect_spec(&n),
    ;
}

/// Snell's-law refraction; returns the zero vector on total internal
/// reflection. Declared for implementers whose scalar has a square root
/// primitive.
pub trait HasRefract: Sized {
    type ElemType;

    fn refract(&self, n: Self, eta: Self::ElemType) -> Self;
}

/// Component-wise absolute value.
pub trait HasAbs: Sized {
    /// The inputs on which negating the negative components is defined.
    spec fn abs_req(&self) -> bool;

    /// The component-wise absolute value.
    spec fn abs_spec(&self) -> Self;

    fn abs(&self) -> (r: Self)
        requires
            self.abs_req(),
        ensures
            r == self.abs_spec(),
    ;
}

/// Component-wise trigonometric primitives. Declared for implementers whose
/// scalar carries them.
pub trait HasTrig: Sized {
    fn sin(&self) -> Self;

    fn cos(&self) -> Self;

    fn tan(&self) -> Self;

    fn asin(&self) -> Self;

    fn acos(&self) -> Self;

    fn atan(&self) -> Self;
}

/// Component-wise exponential primitives. Declared for implementers whose
/// scalar carries them.
pub trait HasExponential: Sized {
    fn pow(&self, exponent: Self) -> Self;

    fn log(&self) -> Self;

    fn exp(&self) -> Self;

    fn log2(&self) -> Self;

    fn exp2(&self) -> Self;
}

/// Component-wise square root and inverse square root. Declared for
/// implementers whose scalar carries them.
pub trait HasSqrt: Sized {
    fn sqrt(&self) -> Self;

    fn inv_sqrt(&self) -> Self;
}

/// Component-wise sign: the negated multiplicative identity, the additive
/// identity, or the multiplicative identity, as the component is negative,
/// zero, or positive.
pub trait HasSign: Sized {
    /// The inputs on which the sign is defined.
    spec fn sign_req(&self) -> bool;

    /// The component-wise sign.
    spec fn sign_spec(&self) -> Self;

    fn sign(&self) -> (r: Self)
        requires
            self.sign_req(),
        ensures
            r == self.sign_spec(),
    ;
}

/// Component-wise floor. Declared for implementers whose scalar carries it.
pub trait HasFloor: Sized {
    fn floor(&self) -> Self;
}

/// Component-wise ceiling. Declared for implementers whose scalar carries it.
pub trait HasCeil: Sized {
    fn ceil(&self) -> Self;
}

/// Component-wise fractional part. Declared for implementers whose scalar
/// carries it.
pub trait HasFract: Sized {
    fn fract(&self) -> Self;
}

/// Component-wise cubic Hermite interpolation between two edges. Declared
/// for implementers whose scalar has division.
pub trait HasSmoothStep: Sized {
    fn smoothstep(&self, edge0: Self, edge1: Self) -> Self;
}

} // verus!
