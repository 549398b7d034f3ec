//! A three-component vector.

use core::cmp::Ordering;

use vstd::prelude::*;
use vstd::std_specs::cmp::PartialOrdSpec;
use vstd::std_specs::ops::{
    AddSpec, AddSpecImpl, DivSpec, DivSpecImpl, MulSpec, MulSpecImpl, NegSpec, NegSpecImpl,
    RemSpec, RemSpecImpl, SubSpec, SubSpecImpl,
};

use crate::traits::{
    HasAbs, HasComponents, HasCross, HasDot, HasFaceForward, HasMinMax, HasMix, HasMod,
    HasOne, HasPerElementBinOps, HasPerElementOps, HasReflect, HasSign, HasStep, HasX,
    HasY, HasZ, HasZero,
};

verus! {

/// A 3D vector.
#[derive(Copy, Clone, Debug, PartialEq, Default)]
pub struct Vec3<T> {
    pub x: T,
    pub y: T,
    pub z: T,
}

/// Constructs a Vec3 from individual components.
pub fn vec3<T: Copy>(x: T, y: T, z: T) -> (r: Vec3<T>)
    ensures
        r.x == x,
        r.y == y,
        r.z == z,
{
    Vec3 { x, y, z }
}

impl<T: Copy> HasComponents for Vec3<T> {
    type ElemType = T;

    open spec fn comps(&self) -> Seq<T> {
        seq![self.x, self.y, self.z]
    }
}

impl<T: Copy> Vec3<T> {
    /// Creates a new vector from an array of components.
    pub fn new(vals: [T; 3]) -> (r: Self)
        ensures
            r.comps() == vals@,
            r.x == vals@[0],
            r.y == vals@[1],
            r.z == vals@[2],
    {
        let r = Vec3 { x: vals[0], y: vals[1], z: vals[2] };
        proof {
            assert(r.comps() =~= vals@);
        }
        r
    }

    /// Returns an array containing all the elements of the vector.
    pub fn as_array(self) -> (r: [T; 3])
        ensures
            r@ == self.comps(),
    {
        let r = [self.x, self.y, self.z];
        proof {
            assert(r@ =~= self.comps());
        }
        r
    }

    /// Returns the component at `idx`, or `None` when `idx` is out of range.
    pub fn get(&self, idx: usize) -> (r: Option<T>)
        ensures
            idx < 3 ==> r == Some(self.comps()[idx as int]),
            idx >= 3 ==> r is None,
    {
        match idx {
            0 => Some(self.x),
            1 => Some(self.y),
            2 => Some(self.z),
            _ => None,
        }
    }

    /// Replaces the component at `idx` with `val`.
    pub fn set(&mut self, idx: usize, val: T)
        requires
            idx < 3,
        ensures
            final(self).comps() == old(self).comps().update(idx as int, val),
    {
        match idx {
            0 => self.x = val,
            1 => self.y = val,
            _ => self.z = val,
        }
        proof {
            assert(self.comps() =~= old(self).comps().update(idx as int, val));
        }
    }
}

impl<T: Copy> core::ops::Index<usize> for Vec3<T> {
    type Output = T;

    /// Indexed access for positions 0 to 2; any other index is a
    /// caller-contract violation and is statically rejected.
    fn index(&self, idx: usize) -> (r: &T)
        ensures
            *r == self.comps()[idx as int],
    {
        match idx {
            0 => &self.x,
            1 => &self.y,
            2 => &self.z,
            _ => unreached(),
        }
    }
}

impl<T: Copy> vstd::std_specs::core::IndexSpecImpl<usize> for Vec3<T> {
    open spec fn index_req(&self, index: &usize) -> bool {
        *index < 3
    }
}

impl<T: Copy> HasX for Vec3<T> {
    proof fn x_capability(&self) {
    }

    fn x(&self) -> (r: T) {
        self.x
    }
}

impl<T: Copy> HasY for Vec3<T> {
    proof fn y_capability(&self) {
    }

    fn y(&self) -> (r: T) {
        self.y
    }
}

impl<T: Copy> HasZ for Vec3<T> {
    proof fn z_capability(&self) {
    }

    fn z(&self) -> (r: T) {
        self.z
    }
}

impl<T: core::ops::Add<Output = T> + Copy> core::ops::Add for Vec3<T> {
    type Output = Vec3<T>;

    /// Component-wise addition of two vectors.
    fn add(self, rhs: Vec3<T>) -> Vec3<T> {
        Vec3 { x: self.x + rhs.x, y: self.y + rhs.y, z: self.z + rhs.z }
    }
}

impl<T: core::ops::Add<Output = T> + Copy> AddSpecImpl for Vec3<T> {
    open spec fn obeys_add_spec() -> bool {
        T::obeys_add_spec()
    }

    open spec fn add_req(self, rhs: Vec3<T>) -> bool {
        self.x.add_req(rhs.x) && self.y.add_req(rhs.y) && self.z.add_req(rhs.z)
    }

    open spec fn add_spec(self, rhs: Vec3<T>) -> Vec3<T> {
        Vec3 { x: self.x.add_spec(rhs.x), y: self.y.add_spec(rhs.y), z: self.z.add_spec(rhs.z) }
    }
}

impl<T: core::ops::Add<Output = T> + Copy> core::ops::Add<T> for Vec3<T> {
    type Output = Vec3<T>;

    /// Broadcast addition: the scalar is added to every component.
    fn add(self, rhs: T) -> Vec3<T> {
        Vec3 { x: self.x + rhs, y: self.y + rhs, z: self.z + rhs }
    }
}

impl<T: core::ops::Add<Output = T> + Copy> AddSpecImpl<T> for Vec3<T> {
    open spec fn obeys_add_spec() -> bool {
        T::obeys_add_spec()
    }

    open spec fn add_req(self, rhs: T) -> bool {
        self.x.add_req(rhs) && self.y.add_req(rhs) && self.z.add_req(rhs)
    }

    open spec fn add_spec(self, rhs: T) -> Vec3<T> {
        Vec3 { x: self.x.add_spec(rhs), y: self.y.add_spec(rhs), z: self.z.add_spec(rhs) }
    }
}

impl<T: core::ops::Sub<Output = T> + Copy> core::ops::Sub for Vec3<T> {
    type Output = Vec3<T>;

    /// Component-wise subtraction of two vectors.
    fn sub(self, rhs: Vec3<T>) -> Vec3<T> {
        Vec3 { x: self.x - rhs.x, y: self.y - rhs.y, z: self.z - rhs.z }
    }
}

impl<T: core::ops::Sub<Output = T> + Copy> SubSpecImpl for Vec3<T> {
    open spec fn obeys_sub_spec() -> bool {
        T::obeys_sub_spec()
    }

    open spec fn sub_req(self, rhs: Vec3<T>) -> bool {
        self.x.sub_req(rhs.x) && self.y.sub_req(rhs.y) && self.z.sub_req(rhs.z)
    }

    open spec fn sub_spec(self, rhs: Vec3<T>) -> Vec3<T> {
        Vec3 { x: self.x.sub_spec(rhs.x), y: self.y.sub_spec(rhs.y), z: self.z.sub_spec(rhs.z) }
    }
}

impl<T: core::ops::Sub<Output = T> + Copy> core::ops::Sub<T> for Vec3<T> {
    type Output = Vec3<T>;

    /// Broadcast subtraction: the scalar is subtracted from every component.
    fn sub(self, rhs: T) -> Vec3<T> {
        Vec3 { x: self.x - rhs, y: self.y - rhs, z: self.z - rhs }
    }
}

impl<T: core::ops::Sub<Output = T> + Copy> SubSpecImpl<T> for Vec3<T> {
    open spec fn obeys_sub_spec() -> bool {
        T::obeys_sub_spec()
    }

    open spec fn sub_req(self, rhs: T) -> bool {
        self.x.sub_req(rhs) && self.y.sub_req(rhs) && self.z.sub_req(rhs)
    }

    open spec fn sub_spec(self, rhs: T) -> Vec3<T> {
        Vec3 { x: self.x.sub_spec(rhs), y: self.y.sub_spec(rhs), z: self.z.sub_spec(rhs) }
    }
}

impl<T: core::ops::Mul<Output = T> + Copy> core::ops::Mul for Vec3<T> {
    type Output = Vec3<T>;

    /// Component-wise multiplication of two vectors.
    fn mul(self, rhs: Vec3<T>) -> Vec3<T> {
        Vec3 { x: self.x * rhs.x, y: self.y * rhs.y, z: self.z * rhs.z }
    }
}

impl<T: core::ops::Mul<Output = T> + Copy> MulSpecImpl for Vec3<T> {
    open spec fn obeys_mul_spec() -> bool {
        T::obeys_mul_spec()
    }

    open spec fn mul_req(self, rhs: Vec3<T>) -> bool {
        self.x.mul_req(rhs.x) && self.y.mul_req(rhs.y) && self.z.mul_req(rhs.z)
    }

    open spec fn mul_spec(self, rhs: Vec3<T>) -> Vec3<T> {
        Vec3 { x: self.x.mul_spec(rhs.x), y: self.y.mul_spec(rhs.y), z: self.z.mul_spec(rhs.z) }
    }
}

impl<T: core::ops::Mul<Output = T> + Copy> core::ops::Mul<T> for Vec3<T> {
    type Output = Vec3<T>;

    /// Broadcast multiplication: every component is multiplied by the scalar.
    fn mul(self, rhs: T) -> Vec3<T> {
        Vec3 { x: self.x * rhs, y: self.y * rhs, z: self.z * rhs }
    }
}

impl<T: core::ops::Mul<Output = T> + Copy> MulSpecImpl<T> for Vec3<T> {
    open spec fn obeys_mul_spec() -> bool {
        T::obeys_mul_spec()
    }

    open spec fn mul_req(self, rhs: T) -> bool {
        self.x.mul_req(rhs) && self.y.mul_req(rhs) && self.z.mul_req(rhs)
    }

    open spec fn mul_spec(self, rhs: T) -> Vec3<T> {
        Vec3 { x: self.x.mul_spec(rhs), y: self.y.mul_spec(rhs), z: self.z.mul_spec(rhs) }
    }
}

impl<T: core::ops::Div<Output = T> + Copy> core::ops::Div for Vec3<T> {
    type Output = Vec3<T>;

    /// Component-wise division of two vectors.
    fn div(self, rhs: Vec3<T>) -> Vec3<T> {
        Vec3 { x: self.x / rhs.x, y: self.y / rhs.y, z: self.z / rhs.z }
    }
}

impl<T: core::ops::Div<Output = T> + Copy> DivSpecImpl for Vec3<T> {
    open spec fn obeys_div_spec() -> bool {
        T::obeys_div_spec()
    }

    open spec fn div_req(self, rhs: Vec3<T>) -> bool {
        self.x.div_req(rhs.x) && self.y.div_req(rhs.y) && self.z.div_req(rhs.z)
    }

    open spec fn div_spec(self, rhs: Vec3<T>) -> Vec3<T> {
        Vec3 { x: self.x.div_spec(rhs.x), y: self.y.div_spec(rhs.y), z: self.z.div_spec(rhs.z) }
    }
}

impl<T: core::ops::Div<Output = T> + Copy> core::ops::Div<T> for Vec3<T> {
    type Output = Vec3<T>;

    /// Broadcast division: every component is divided by the scalar.
    fn div(self, rhs: T) -> Vec3<T> {
        Vec3 { x: self.x / rhs, y: self.y / rhs, z: self.z / rhs }
    }
}

impl<T: core::ops::Div<Output = T> + Copy> DivSpecImpl<T> for Vec3<T> {
    open spec fn obeys_div_spec() -> bool {
        T::obeys_div_spec()
    }

    open spec fn div_req(self, rhs: T) -> bool {
        self.x.div_req(rhs) && self.y.div_req(rhs) && self.z.div_req(rhs)
    }

    open spec fn div_spec(self, rhs: T) -> Vec3<T> {
        Vec3 { x: self.x.div_spec(rhs), y: self.y.div_spec(rhs), z: self.z.div_spec(rhs) }
    }
}

impl<T: core::ops::Rem<Output = T> + Copy> core::ops::Rem for Vec3<T> {
    type Output = Vec3<T>;

    /// Component-wise remainder of two vectors.
    fn rem(self, rhs: Vec3<T>) -> Vec3<T> {
        Vec3 { x: self.x % rhs.x, y: self.y % rhs.y, z: self.z % rhs.z }
    }
}

impl<T: core::ops::Rem<Output = T> + Copy> RemSpecImpl for Vec3<T> {
    open spec fn obeys_rem_spec() -> bool {
        T::obeys_rem_spec()
    }

    open spec fn rem_req(self, rhs: Vec3<T>) -> bool {
        self.x.rem_req(rhs.x) && self.y.rem_req(rhs.y) && self.z.rem_req(rhs.z)
    }

    open spec fn rem_spec(self, rhs: Vec3<T>) -> Vec3<T> {
        Vec3 { x: self.x.rem_spec(rhs.x), y: self.y.rem_spec(rhs.y), z: self.z.rem_spec(rhs.z) }
    }
}

impl<T: core::ops::Rem<Output = T> + Copy> core::ops::Rem<T> for Vec3<T> {
    type Output = Vec3<T>;

    /// Broadcast remainder: every component is reduced modulo the scalar.
    fn rem(self, rhs: T) -> Vec3<T> {
        Vec3 { x: self.x % rhs, y: self.y % rhs, z: self.z % rhs }
    }
}

impl<T: core::ops::Rem<Output = T> + Copy> RemSpecImpl<T> for Vec3<T> {
    open spec fn obeys_rem_spec() -> bool {
        T::obeys_rem_spec()
    }

    open spec fn rem_req(self, rhs: T) -> bool {
        self.x.rem_req(rhs) && self.y.rem_req(rhs) && self.z.rem_req(rhs)
    }

    open spec fn rem_spec(self, rhs: T) -> Vec3<T> {
        Vec3 { x: self.x.rem_spec(rhs), y: self.y.rem_spec(rhs), z: self.z.rem_spec(rhs) }
    }
}

impl<T: core::ops::Neg<Output = T> + Copy> core::ops::Neg for Vec3<T> {
    type Output = Vec3<T>;

    /// Component-wise negation.
    fn neg(self) -> Vec3<T> {
        Vec3 { x: core::ops::Neg::neg(self.x), y: core::ops::Neg::neg(self.y), z: core::ops::Neg::neg(self.z) }
    }
}

impl<T: core::ops::Neg<Output = T> + Copy> NegSpecImpl for Vec3<T> {
    open spec fn obeys_neg_spec() -> bool {
        T::obeys_neg_spec()
    }

    open spec fn neg_req(self) -> bool {
        self.x.neg_req() && self.y.neg_req() && self.z.neg_req()
    }

    open spec fn neg_spec(self) -> Vec3<T> {
        Vec3 { x: self.x.neg_spec(), y: self.y.neg_spec(), z: self.z.neg_spec() }
    }
}

impl<T: Copy> HasPerElementOps for Vec3<T> {
    fn apply_op<U: Fn(T) -> T>(&self, func: U) -> (r: Self) {
        proof {
            assert(self.comps()[0] == self.x);
            assert(self.comps()[1] == self.y);
            assert(self.comps()[2] == self.z);
        }
        let rx = func(self.x);
        let ry = func(self.y);
        let rz = func(self.z);
        let r = Vec3 { x: rx, y: ry, z: rz };
        proof {
            assert(r.comps()[0] == rx);
            assert(r.comps()[1] == ry);
            assert(r.comps()[2] == rz);
        }
        r
    }
}

impl<T: Copy> HasPerElementBinOps for Vec3<T> {
    fn apply_bin_op<U: Fn(T, T) -> T>(&self, rhs: Self, func: U) -> (r: Self) {
        proof {
            assert(self.comps()[0] == self.x);
            assert(self.comps()[1] == self.y);
            assert(self.comps()[2] == self.z);
        }
        let rx = func(self.x, rhs.x);
        let ry = func(self.y, rhs.y);
        let rz = func(self.z, rhs.z);
        let r = Vec3 { x: rx, y: ry, z: rz };
        proof {
            assert(r.comps()[0] == rx);
            assert(r.comps()[1] == ry);
            assert(r.comps()[2] == rz);
        }
        r
    }
}

impl<T: core::ops::Add<Output = T> + core::ops::Mul<Output = T> + Copy> HasDot for Vec3<T> {
    type Output = T;

    open spec fn dot_req(&self, other: &Self) -> bool {
        &&& T::obeys_add_spec()
        &&& T::obeys_mul_spec()
        &&& self.x.mul_req(other.x)
        &&& self.y.mul_req(other.y)
        &&& self.z.mul_req(other.z)
        &&& self.x.mul_spec(other.x).add_req(self.y.mul_spec(other.y))
        &&& self.x.mul_spec(other.x).add_spec(self.y.mul_spec(other.y)).add_req(self.z.mul_spec(other.z))
    }

    open spec fn dot_spec(&self, other: &Self) -> T {
        self.x.mul_spec(other.x).add_spec(self.y.mul_spec(other.y)).add_spec(self.z.mul_spec(other.z))
    }

    fn dot(&self, other: Self) -> (r: T) {
        self.x * other.x + self.y * other.y + self.z * other.z
    }
}

impl<T: core::ops::Sub<Output = T> + core::ops::Mul<Output = T> + Copy> HasCross for Vec3<T> {
    open spec fn cross_req(&self, other: &Self) -> bool {
        &&& T::obeys_sub_spec()
        &&& T::obeys_mul_spec()
        &&& self.y.mul_req(other.z)
        &&& self.z.mul_req(other.y)
        &&& self.z.mul_req(other.x)
        &&& self.x.mul_req(other.z)
        &&& self.x.mul_req(other.y)
        &&& self.y.mul_req(other.x)
        &&& self.y.mul_spec(other.z).sub_req(self.z.mul_spec(other.y))
        &&& self.z.mul_spec(other.x).sub_req(self.x.mul_spec(other.z))
        &&& self.x.mul_spec(other.y).sub_req(self.y.mul_spec(other.x))
    }

    open spec fn cross_spec(&self, other: &Self) -> Self {
        Vec3 {
            x: self.y.mul_spec(other.z).sub_spec(self.z.mul_spec(other.y)),
            y: self.z.mul_spec(other.x).sub_spec(self.x.mul_spec(other.z)),
            z: self.x.mul_spec(other.y).sub_spec(self.y.mul_spec(other.x)),
        }
    }

    fn cross(&self, other: Self) -> (r: Self) {
        Vec3 {
            x: self.y * other.z - self.z * other.y,
            y: self.z * other.x - self.x * other.z,
            z: self.x * other.y - self.y * other.x,
        }
    }
}

impl<T: PartialOrd + Copy> HasMinMax for Vec3<T> {
    open spec fn minmax_obeys() -> bool {
        T::obeys_partial_cmp_spec()
    }

    open spec fn min_spec(&self, rhs: &Self) -> Self {
        Vec3 {
            x: if rhs.x.partial_cmp_spec(&self.x) == Some(Ordering::Less) {
                rhs.x
            } else {
                self.x
            },
            y: if rhs.y.partial_cmp_spec(&self.y) == Some(Ordering::Less) {
                rhs.y
            } else {
                self.y
            },
            z: if rhs.z.partial_cmp_spec(&self.z) == Some(Ordering::Less) {
                rhs.z
            } else {
                self.z
            },
        }
    }

    open spec fn max_spec(&self, rhs: &Self) -> Self {
        Vec3 {
            x: if self.x.partial_cmp_spec(&rhs.x) == Some(Ordering::Less) {
                rhs.x
            } else {
                self.x
            },
            y: if self.y.partial_cmp_spec(&rhs.y) == Some(Ordering::Less) {
                rhs.y
            } else {
                self.y
            },
            z: if self.z.partial_cmp_spec(&rhs.z) == Some(Ordering::Less) {
                rhs.z
            } else {
                self.z
            },
        }
    }

    open spec fn clamp_spec(&self, lo: &Self, hi: &Self) -> Self {
        self.max_spec(lo).min_spec(hi)
    }

    fn min(&self, rhs: Self) -> (r: Self) {
        Vec3 {
            x: if rhs.x < self.x {
                rhs.x
            } else {
                self.x
            },
            y: if rhs.y < self.y {
                rhs.y
            } else {
                self.y
            },
            z: if rhs.z < self.z {
                rhs.z
            } else {
                self.z
            },
        }
    }

    fn max(&self, rhs: Self) -> (r: Self) {
        Vec3 {
            x: if self.x < rhs.x {
                rhs.x
            } else {
                self.x
            },
            y: if self.y < rhs.y {
                rhs.y
            } else {
                self.y
            },
            z: if self.z < rhs.z {
                rhs.z
            } else {
                self.z
            },
        }
    }

    fn clamp(&self, min: Self, max: Self) -> (r: Self) {
        let lifted = self.max(min);
        lifted.min(max)
    }
}

impl<T: core::ops::Rem<Output = T> + Copy> HasMod for Vec3<T> {
    open spec fn mod_obeys() -> bool {
        T::obeys_rem_spec()
    }

    open spec fn mod_req(&self, modulus: &Self) -> bool {
        self.x.rem_req(modulus.x) && self.y.rem_req(modulus.y) && self.z.rem_req(modulus.z)
    }

    open spec fn mod_spec(&self, modulus: &Self) -> Self {
        Vec3 { x: self.x.rem_spec(modulus.x), y: self.y.rem_spec(modulus.y), z: self.z.rem_spec(modulus.z) }
    }

    fn modulus(&self, modulus: Self) -> (r: Self) {
        Vec3 { x: self.x % modulus.x, y: self.y % modulus.y, z: self.z % modulus.z }
    }
}

impl<T: PartialOrd + HasZero + HasOne + Copy> HasStep for Vec3<T> {
    open spec fn step_obeys() -> bool {
        T::obeys_partial_cmp_spec()
    }

    open spec fn step_spec(&self, edge: &Self) -> Self {
        Vec3 {
            x: if self.x.partial_cmp_spec(&edge.x) == Some(Ordering::Less) {
                T::zero_spec()
            } else {
                T::one_spec()
            },
            y: if self.y.partial_cmp_spec(&edge.y) == Some(Ordering::Less) {
                T::zero_spec()
            } else {
                T::one_spec()
            },
            z: if self.z.partial_cmp_spec(&edge.z) == Some(Ordering::Less) {
                T::zero_spec()
            } else {
                T::one_spec()
            },
        }
    }

    fn step(&self, edge: Self) -> (r: Self) {
        Vec3 {
            x: if self.x < edge.x {
                T::zero()
            } else {
                T::one()
            },
            y: if self.y < edge.y {
                T::zero()
            } else {
                T::one()
            },
            z: if self.z < edge.z {
                T::zero()
            } else {
                T::one()
            },
        }
    }
}

impl<
    T: core::ops::Add<Output = T> + core::ops::Sub<Output = T> + core::ops::Mul<Output = T>
        + HasOne + Copy,
> HasMix for Vec3<T> {
    type ElemType = T;

    open spec fn mix_req(&self, rhs: &Self, f: T) -> bool {
        &&& T::obeys_add_spec()
        &&& T::obeys_sub_spec()
        &&& T::obeys_mul_spec()
        &&& T::one_spec().sub_req(f)
        &&& self.x.mul_req(T::one_spec().sub_spec(f))
        &&& self.y.mul_req(T::one_spec().sub_spec(f))
        &&& self.z.mul_req(T::one_spec().sub_spec(f))
        &&& rhs.x.mul_req(f)
        &&& rhs.y.mul_req(f)
        &&& rhs.z.mul_req(f)
        &&& self.x.mul_spec(T::one_spec().sub_spec(f)).add_req(rhs.x.mul_spec(f))
        &&& self.y.mul_spec(T::one_spec().sub_spec(f)).add_req(rhs.y.mul_spec(f))
        &&& self.z.mul_spec(T::one_spec().sub_spec(f)).add_req(rhs.z.mul_spec(f))
    }

    open spec fn mix_spec(&self, rhs: &Self, f: T) -> Self {
        Vec3 {
            x: self.x.mul_spec(T::one_spec().sub_spec(f)).add_spec(rhs.x.mul_spec(f)),
            y: self.y.mul_spec(T::one_spec().sub_spec(f)).add_spec(rhs.y.mul_spec(f)),
            z: self.z.mul_spec(T::one_spec().sub_spec(f)).add_spec(rhs.z.mul_spec(f)),
        }
    }

    fn mix(&self, rhs: Self, f: T) -> (r: Self) {
        let g = T::one() - f;
        Vec3 { x: self.x * g + rhs.x * f, y: self.y * g + rhs.y * f, z: self.z * g + rhs.z * f }
    }
}

impl<T: PartialOrd + core::ops::Neg<Output = T> + HasZero + Copy> HasAbs for Vec3<T> {
    open spec fn abs_req(&self) -> bool {
        &&& T::obeys_partial_cmp_spec()
        &&& T::obeys_neg_spec()
        &&& (self.x.partial_cmp_spec(&T::zero_spec()) == Some(Ordering::Less) ==> self.x.neg_req())
        &&& (self.y.partial_cmp_spec(&T::zero_spec()) == Some(Ordering::Less) ==> self.y.neg_req())
        &&& (self.z.partial_cmp_spec(&T::zero_spec()) == Some(Ordering::Less) ==> self.z.neg_req())
    }

    open spec fn abs_spec(&self) -> Self {
        Vec3 {
            x: if self.x.partial_cmp_spec(&T::zero_spec()) == Some(Ordering::Less) {
                self.x.neg_spec()
            } else {
                self.x
            },
            y: if self.y.partial_cmp_spec(&T::zero_spec()) == Some(Ordering::Less) {
                self.y.neg_spec()
            } else {
                self.y
            },
            z: if self.z.partial_cmp_spec(&T::zero_spec()) == Some(Ordering::Less) {
                self.z.neg_spec()
            } else {
                self.z
            },
        }
    }

    fn abs(&self) -> (r: Self) {
        Vec3 {
            x: if self.x < T::zero() {
                core::ops::Neg::neg(self.x)
            } else {
                self.x
            },
            y: if self.y < T::zero() {
                core::ops::Neg::neg(self.y)
            } else {
                self.y
            },
            z: if self.z < T::zero() {
                core::ops::Neg::neg(self.z)
            } else {
                self.z
            },
        }
    }
}

impl<T: PartialOrd + core::ops::Neg<Output = T> + HasZero + HasOne + Copy> HasSign for Vec3<T> {
    open spec fn sign_req(&self) -> bool {
        &&& T::obeys_partial_cmp_spec()
        &&& T::obeys_neg_spec()
        &&& T::one_spec().neg_req()
    }

    open spec fn sign_spec(&self) -> Self {
        Vec3 {
            x: if self.x.partial_cmp_spec(&T::zero_spec()) == Some(Ordering::Less) {
                T::one_spec().neg_spec()
            } else if T::zero_spec().partial_cmp_spec(&self.x) == Some(Ordering::Less) {
                T::one_spec()
            } else {
                T::zero_spec()
            },
            y: if self.y.partial_cmp_spec(&T::zero_spec()) == Some(Ordering::Less) {
                T::one_spec().neg_spec()
            } else if T::zero_spec().partial_cmp_spec(&self.y) == Some(Ordering::Less) {
                T::one_spec()
            } else {
                T::zero_spec()
            },
            z: if self.z.partial_cmp_spec(&T::zero_spec()) == Some(Ordering::Less) {
                T::one_spec().neg_spec()
            } else if T::zero_spec().partial_cmp_spec(&self.z) == Some(Ordering::Less) {
                T::one_spec()
            } else {
                T::zero_spec()
            },
        }
    }

    fn sign(&self) -> (r: Self) {
        Vec3 {
            x: if self.x < T::zero() {
                core::ops::Neg::neg(T::one())
            } else if T::zero() < self.x {
                T::one()
            } else {
                T::zero()
            },
            y: if self.y < T::zero() {
                core::ops::Neg::neg(T::one())
            } else if T::zero() < self.y {
                T::one()
            } else {
                T::zero()
            },
            z: if self.z < T::zero() {
                core::ops::Neg::neg(T::one())
            } else if T::zero() < self.z {
                T::one()
            } else {
                T::zero()
            },
        }
    }
}

impl<
    T: core::ops::Add<Output = T> + core::ops::Sub<Output = T> + core::ops::Mul<Output = T>
        + Copy,
> HasReflect for Vec3<T> {
    open spec fn reflect_req(&self, n: &Self) -> bool {
        &&& T::obeys_add_spec()
        &&& T::obeys_sub_spec()
        &&& T::obeys_mul_spec()
        &&& n.dot_req(self)
        &&& n.dot_spec(self).add_req(n.dot_spec(self))
        &&& n.x.mul_req(n.dot_spec(self).add_spec(n.dot_spec(self)))
        &&& n.y.mul_req(n.dot_spec(self).add_spec(n.dot_spec(self)))
        &&& n.z.mul_req(n.dot_spec(self).add_spec(n.dot_spec(self)))
        &&& self.x.sub_req(n.x.mul_spec(n.dot_spec(self).add_spec(n.dot_spec(self))))
        &&& self.y.sub_req(n.y.mul_spec(n.dot_spec(self).add_spec(n.dot_spec(self))))
        &&& self.z.sub_req(n.z.mul_spec(n.dot_spec(self).add_spec(n.dot_spec(self))))
    }

    open spec fn reflect_spec(&self, n: &Self) -> Self {
        Vec3 {
            x: self.x.sub_spec(n.x.mul_spec(n.dot_spec(self).add_spec(n.dot_spec(self)))),
            y: self.y.sub_spec(n.y.mul_spec(n.dot_spec(self).add_spec(n.dot_spec(self)))),
            z: self.z.sub_spec(n.z.mul_spec(n.dot_spec(self).add_spec(n.dot_spec(self)))),
        }
    }

    fn reflect(&self, n: Self) -> (r: Self) {
        let d = n.dot(*self);
        let t = d + d;
        Vec3 { x: self.x - n.x * t, y: self.y - n.y * t, z: self.z - n.z * t }
    }
}

impl<
    T: PartialOrd + core::ops::Neg<Output = T> + core::ops::Add<Output = T>
        + core::ops::Mul<Output = T> + HasZero + Copy,
> HasFaceForward for Vec3<T> {
    open spec fn faceforward_req(&self, i: &Self, nref: &Self) -> bool {
        &&& T::obeys_partial_cmp_spec()
        &&& T::obeys_neg_spec()
        &&& nref.dot_req(i)
        &&& (nref.dot_spec(i).partial_cmp_spec(&T::zero_spec()) != Some(Ordering::Less)
            ==> NegSpec::neg_req(*self))
    }

    open spec fn faceforward_spec(&self, i: &Self, nref: &Self) -> Self {
        if nref.dot_spec(i).partial_cmp_spec(&T::zero_spec()) == Some(Ordering::Less) {
            *self
        } else {
            NegSpec::neg_spec(*self)
        }
    }

    fn faceforward(&self, i: Self, nref: Self) -> (r: Self) {
        let d = nref.dot(i);
        if d < T::zero() {
            *self
        } else {
            core::ops::Neg::neg(*self)
        }
    }
}
impl<T: HasZero> Vec3<T> {
    /// The all-zeros vector, as a spec value.
    pub open spec fn zero_spec() -> Self {
        Vec3 { x: T::zero_spec(), y: T::zero_spec(), z: T::zero_spec() }
    }

    /// Returns a vector containing only zeros.
    pub fn zero() -> (r: Self)
        ensures
            r == Self::zero_spec(),
    {
        Vec3 { x: T::zero(), y: T::zero(), z: T::zero() }
    }
}

impl<T: HasZero + HasOne> Vec3<T> {
    /// The x basis vector, as a spec value.
    pub open spec fn unit_x_spec() -> Self {
        Vec3 { x: T::one_spec(), y: T::zero_spec(), z: T::zero_spec() }
    }

    /// The y basis vector, as a spec value.
    pub open spec fn unit_y_spec() -> Self {
        Vec3 { x: T::zero_spec(), y: T::one_spec(), z: T::zero_spec() }
    }

    /// The z basis vector, as a spec value.
    pub open spec fn unit_z_spec() -> Self {
        Vec3 { x: T::zero_spec(), y: T::zero_spec(), z: T::one_spec() }
    }

    /// Returns a vector with x equal to 1 and all other elements equal to 0.
    pub fn unit_x() -> (r: Self)
        ensures
            r == Self::unit_x_spec(),
    {
        Vec3 { x: T::one(), y: T::zero(), z: T::zero() }
    }

    /// Returns a vector with y equal to 1 and all other elements equal to 0.
    pub fn unit_y() -> (r: Self)
        ensures
            r == Self::unit_y_spec(),
    {
        Vec3 { x: T::zero(), y: T::one(), z: T::zero() }
    }

    /// Returns a vector with z equal to 1 and all other elements equal to 0.
    pub fn unit_z() -> (r: Self)
        ensures
            r == Self::unit_z_spec(),
    {
        Vec3 { x: T::zero(), y: T::zero(), z: T::one() }
    }
}

} // verus!
