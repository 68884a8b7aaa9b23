use vstd::prelude::*;
use std::ops::{
    Add, AddAssign, Div, DivAssign, Mul, MulAssign, Neg, Rem, RemAssign, Sub, SubAssign,
};
use vstd::std_specs::cmp::{PartialEqSpec, PartialOrdSpec};
use vstd::std_specs::convert::FromSpec;
use vstd::std_specs::ops::{AddSpec, DivSpec, MulSpec, NegSpec, RemSpec, SubSpec};
use crate::math::order::{greatest, greatest_by_calls, greatest_of, least, least_by_calls, least_of};

verus! {

/// A 4-dimensional vector whose components are of type `T`, such as `f32`
/// for positions and sizes on the screen.
///
/// The arithmetic operators work component by component: each component of a
/// result is what the component type's own operator returns on the
/// components, so a vector operation carries whatever the component type
/// promises of its operator. Each one needs what the component type's own
/// operator needs (for an integer type: that the result fits), and where that
/// operator follows its specification (`obeys_add_spec` and the like) the
/// result is exactly the components combined by it.
#[derive(PartialEq, Copy, Clone, Debug)]
pub struct Vector4<T> {
    /// The x component of the vector.
    pub x: T,
    /// The y component of the vector.
    pub y: T,
    /// The z component of the vector.
    pub z: T,
    /// The w component of the vector.
    pub w: T,
}

impl<T> Vector4<T> {
    /// Construct a new vector using the provided components.
    pub fn new(x: T, y: T, z: T, w: T) -> (r: Vector4<T>)
        ensures
            r.x == x,
            r.y == y,
            r.z == z,
            r.w == w,
    {
        Vector4 { x, y, z, w }
    }
}

impl<T: From<i8>> Vector4<T> {
    /// The vector whose components are the component type's values of the
    /// given small integers.
    pub open spec fn from_ints(x: i8, y: i8, z: i8, w: i8) -> Vector4<T> {
        Vector4 { x: T::from_spec(x), y: T::from_spec(y), z: T::from_spec(z), w: T::from_spec(w) }
    }

    /// Construct a new vector where all components are 0.
    pub fn zero() -> (r: Vector4<T>)
        ensures
            T::obeys_from_spec() ==> r == Self::from_ints(0i8, 0i8, 0i8, 0i8),
    {
        Vector4::new(T::from(0i8), T::from(0i8), T::from(0i8), T::from(0i8))
    }

    /// The unit vector pointing up: `y` is 1.
    pub fn up() -> (r: Vector4<T>)
        ensures
            T::obeys_from_spec() ==> r == Self::from_ints(0i8, 1i8, 0i8, 0i8),
    {
        Vector4::new(T::from(0i8), T::from(1i8), T::from(0i8), T::from(0i8))
    }

    /// The unit vector pointing down: `y` is -1.
    pub fn down() -> (r: Vector4<T>)
        ensures
            T::obeys_from_spec() ==> r == Self::from_ints(0i8, -1i8, 0i8, 0i8),
    {
        Vector4::new(T::from(0i8), T::from(-1i8), T::from(0i8), T::from(0i8))
    }

    /// The unit vector pointing left: `x` is -1.
    pub fn left() -> (r: Vector4<T>)
        ensures
            T::obeys_from_spec() ==> r == Self::from_ints(-1i8, 0i8, 0i8, 0i8),
    {
        Vector4::new(T::from(-1i8), T::from(0i8), T::from(0i8), T::from(0i8))
    }

    /// The unit vector pointing right: `x` is 1.
    pub fn right() -> (r: Vector4<T>)
        ensures
            T::obeys_from_spec() ==> r == Self::from_ints(1i8, 0i8, 0i8, 0i8),
    {
        Vector4::new(T::from(1i8), T::from(0i8), T::from(0i8), T::from(0i8))
    }

    /// The unit vector pointing forward: `z` is 1.
    pub fn forward() -> (r: Vector4<T>)
        ensures
            T::obeys_from_spec() ==> r == Self::from_ints(0i8, 0i8, 1i8, 0i8),
    {
        Vector4::new(T::from(0i8), T::from(0i8), T::from(1i8), T::from(0i8))
    }

    /// The unit vector pointing backward: `z` is -1.
    pub fn backward() -> (r: Vector4<T>)
        ensures
            T::obeys_from_spec() ==> r == Self::from_ints(0i8, 0i8, -1i8, 0i8),
    {
        Vector4::new(T::from(0i8), T::from(0i8), T::from(-1i8), T::from(0i8))
    }
}

impl<T: From<i8> + PartialEq> Vector4<T> {
    /// Whether each component compares equal, by the component type's `==`,
    /// to the component type's value of the given small integer.
    pub open spec fn equals_ints(self, x: i8, y: i8, z: i8, w: i8) -> bool {
        self.x.eq_spec(&T::from_spec(x)) && self.y.eq_spec(&T::from_spec(y)) && self.z.eq_spec(&T::from_spec(z)) && self.w.eq_spec(&T::from_spec(w))
    }

    /// Check if the vector is zero.
    pub fn is_zero(self) -> (r: bool)
        ensures
            T::obeys_from_spec() && T::obeys_eq_spec() ==> r == self.equals_ints(0i8, 0i8, 0i8, 0i8),
    {
        self.x == T::from(0i8) && self.y == T::from(0i8) && self.z == T::from(0i8) && self.w == T::from(0i8)
    }

    /// Check if the vector is the unit vector pointing up.
    pub fn is_up(self) -> (r: bool)
        ensures
            T::obeys_from_spec() && T::obeys_eq_spec() ==> r == self.equals_ints(0i8, 1i8, 0i8, 0i8),
    {
        self.x == T::from(0i8) && self.y == T::from(1i8) && self.z == T::from(0i8) && self.w == T::from(0i8)
    }

    /// Check if the vector is the unit vector pointing down.
    pub fn is_down(self) -> (r: bool)
        ensures
            T::obeys_from_spec() && T::obeys_eq_spec() ==> r == self.equals_ints(0i8, -1i8, 0i8, 0i8),
    {
        self.x == T::from(0i8) && self.y == T::from(-1i8) && self.z == T::from(0i8) && self.w == T::from(0i8)
    }

    /// Check if the vector is the unit vector pointing left.
    pub fn is_left(self) -> (r: bool)
        ensures
            T::obeys_from_spec() && T::obeys_eq_spec() ==> r == self.equals_ints(-1i8, 0i8, 0i8, 0i8),
    {
        self.x == T::from(-1i8) && self.y == T::from(0i8) && self.z == T::from(0i8) && self.w == T::from(0i8)
    }

    /// Check if the vector is the unit vector pointing right.
    pub fn is_right(self) -> (r: bool)
        ensures
            T::obeys_from_spec() && T::obeys_eq_spec() ==> r == self.equals_ints(1i8, 0i8, 0i8, 0i8),
    {
        self.x == T::from(1i8) && self.y == T::from(0i8) && self.z == T::from(0i8) && self.w == T::from(0i8)
    }

    /// Check if the vector is the unit vector pointing forward.
    pub fn is_forward(self) -> (r: bool)
        ensures
            T::obeys_from_spec() && T::obeys_eq_spec() ==> r == self.equals_ints(0i8, 0i8, 1i8, 0i8),
    {
        self.x == T::from(0i8) && self.y == T::from(0i8) && self.z == T::from(1i8) && self.w == T::from(0i8)
    }

    /// Check if the vector is the unit vector pointing backward.
    pub fn is_backward(self) -> (r: bool)
        ensures
            T::obeys_from_spec() && T::obeys_eq_spec() ==> r == self.equals_ints(0i8, 0i8, -1i8, 0i8),
    {
        self.x == T::from(0i8) && self.y == T::from(0i8) && self.z == T::from(-1i8) && self.w == T::from(0i8)
    }

}

impl<T: Add<Output = T> + Copy> Vector4<T> {
    /// The sum of the components as the component type's `+` specifies it,
    /// taken from left to right.
    pub open spec fn sum_spec(self) -> T {
        self.x.add_spec(self.y).add_spec(self.z).add_spec(self.w)
    }

    /// Calculate the sum of the components of the vector, from left to
    /// right. Every partial result must be allowed as an operand: as the
    /// operator specifies it where it follows its specification, and any value
    /// where it does not.
    pub fn sum(self) -> (r: T)
        requires
            self.x.add_req(self.y),
            T::obeys_add_spec() ==> self.x.add_spec(self.y).add_req(self.z),
            T::obeys_add_spec() ==> self.x.add_spec(self.y).add_spec(self.z).add_req(self.w),
            !T::obeys_add_spec() ==> forall|a: T, b: T| a.add_req(b),
        ensures
            exists|s1: T, s2: T|
                #![trigger
                    call_ensures(T::add, (self.x, self.y), s1),
                    call_ensures(T::add, (s1, self.z), s2),
                ]
                call_ensures(T::add, (self.x, self.y), s1)
                    && call_ensures(T::add, (s1, self.z), s2)
                    && call_ensures(T::add, (s2, self.w), r),
            T::obeys_add_spec() ==> r == self.sum_spec(),
    {
        let s1 = self.x + self.y;
        let s2 = s1 + self.z;
        s2 + self.w
    }
}

impl<T: Mul<Output = T> + Copy> Vector4<T> {
    /// The product of the components as the component type's `*` specifies it,
    /// taken from left to right.
    pub open spec fn product_spec(self) -> T {
        self.x.mul_spec(self.y).mul_spec(self.z).mul_spec(self.w)
    }

    /// Calculate the product of the components of the vector, from left to
    /// right. Every partial result must be allowed as an operand: as the
    /// operator specifies it where it follows its specification, and any value
    /// where it does not.
    pub fn product(self) -> (r: T)
        requires
            self.x.mul_req(self.y),
            T::obeys_mul_spec() ==> self.x.mul_spec(self.y).mul_req(self.z),
            T::obeys_mul_spec() ==> self.x.mul_spec(self.y).mul_spec(self.z).mul_req(self.w),
            !T::obeys_mul_spec() ==> forall|a: T, b: T| a.mul_req(b),
        ensures
            exists|s1: T, s2: T|
                #![trigger
                    call_ensures(T::mul, (self.x, self.y), s1),
                    call_ensures(T::mul, (s1, self.z), s2),
                ]
                call_ensures(T::mul, (self.x, self.y), s1)
                    && call_ensures(T::mul, (s1, self.z), s2)
                    && call_ensures(T::mul, (s2, self.w), r),
            T::obeys_mul_spec() ==> r == self.product_spec(),
    {
        let s1 = self.x * self.y;
        let s2 = s1 * self.z;
        s2 * self.w
    }
}

impl<T: Add<Output = T> + Mul<Output = T> + Copy> Vector4<T> {
    /// The dot product of `lhs` and `rhs` as the component type's operators
    /// specify it: the sum, from left to right, of the pairwise products.
    pub open spec fn dot_spec(lhs: Vector4<T>, rhs: Vector4<T>) -> T {
        lhs.x.mul_spec(rhs.x).add_spec(lhs.y.mul_spec(rhs.y)).add_spec(lhs.z.mul_spec(rhs.z)).add_spec(lhs.w.mul_spec(rhs.w))
    }

    /// Get the dot product of two vectors: `lhs.x * rhs.x` + `lhs.y * rhs.y` + `lhs.z * rhs.z` + `lhs.w * rhs.w`.
    ///
    /// Every sum must be allowed on its operands: on the partial results as
    /// the operators specify them where both follow their specifications, and
    /// on any two values where one does not.
    pub fn dot(lhs: Vector4<T>, rhs: Vector4<T>) -> (r: T)
        requires
            lhs.x.mul_req(rhs.x),
            lhs.y.mul_req(rhs.y),
            lhs.z.mul_req(rhs.z),
            lhs.w.mul_req(rhs.w),
            T::obeys_mul_spec() && T::obeys_add_spec() ==> lhs.x.mul_spec(rhs.x).add_req(lhs.y.mul_spec(rhs.y)),
            T::obeys_mul_spec() && T::obeys_add_spec() ==> lhs.x.mul_spec(rhs.x).add_spec(lhs.y.mul_spec(rhs.y)).add_req(lhs.z.mul_spec(rhs.z)),
            T::obeys_mul_spec() && T::obeys_add_spec() ==> lhs.x.mul_spec(rhs.x).add_spec(lhs.y.mul_spec(rhs.y)).add_spec(lhs.z.mul_spec(rhs.z)).add_req(lhs.w.mul_spec(rhs.w)),
            !(T::obeys_mul_spec() && T::obeys_add_spec()) ==> forall|a: T, b: T| a.add_req(b),
        ensures
            exists|p_x: T, p_y: T, p_z: T, p_w: T, s1: T, s2: T|
                #![trigger
                    call_ensures(T::mul, (lhs.x, rhs.x), p_x),
                    call_ensures(T::mul, (lhs.y, rhs.y), p_y),
                    call_ensures(T::mul, (lhs.z, rhs.z), p_z),
                    call_ensures(T::mul, (lhs.w, rhs.w), p_w),
                    call_ensures(T::add, (p_x, p_y), s1),
                    call_ensures(T::add, (s1, p_z), s2),
                ]
                call_ensures(T::mul, (lhs.x, rhs.x), p_x)
                    && call_ensures(T::mul, (lhs.y, rhs.y), p_y)
                    && call_ensures(T::mul, (lhs.z, rhs.z), p_z)
                    && call_ensures(T::mul, (lhs.w, rhs.w), p_w)
                    && call_ensures(T::add, (p_x, p_y), s1)
                    && call_ensures(T::add, (s1, p_z), s2)
                    && call_ensures(T::add, (s2, p_w), r),
            T::obeys_mul_spec() && T::obeys_add_spec() ==> r == Self::dot_spec(lhs, rhs),
    {
        let p_x = lhs.x * rhs.x;
        let p_y = lhs.y * rhs.y;
        let p_z = lhs.z * rhs.z;
        let p_w = lhs.w * rhs.w;
        let s1 = p_x + p_y;
        let s2 = s1 + p_z;
        s2 + p_w
    }
}

impl<T: PartialOrd + Copy> Vector4<T> {
    /// Get the smallest component of the vector, taking the components from
    /// left to right and keeping the smaller of each pair; a component that
    /// is not equal to itself (a NaN) is passed over.
    pub fn min(self) -> (r: T)
        ensures
            r == self.x || r == self.y || r == self.z || r == self.w,
            exists|m1: T, m2: T|
                #![trigger
                    least_by_calls(self.x, self.y, m1),
                    least_by_calls(m1, self.z, m2),
                ]
                least_by_calls(self.x, self.y, m1)
                    && least_by_calls(m1, self.z, m2)
                    && least_by_calls(m2, self.w, r),
            T::obeys_partial_cmp_spec() && T::obeys_eq_spec() ==> r == least(least(least(self.x, self.y), self.z), self.w),
    {
        least_of(least_of(least_of(self.x, self.y), self.z), self.w)
    }

    /// Get the largest component of the vector, taking the components from
    /// left to right and keeping the larger of each pair; a component that
    /// is not equal to itself (a NaN) is passed over.
    pub fn max(self) -> (r: T)
        ensures
            r == self.x || r == self.y || r == self.z || r == self.w,
            exists|m1: T, m2: T|
                #![trigger
                    greatest_by_calls(self.x, self.y, m1),
                    greatest_by_calls(m1, self.z, m2),
                ]
                greatest_by_calls(self.x, self.y, m1)
                    && greatest_by_calls(m1, self.z, m2)
                    && greatest_by_calls(m2, self.w, r),
            T::obeys_partial_cmp_spec() && T::obeys_eq_spec() ==> r == greatest(greatest(greatest(self.x, self.y), self.z), self.w),
    {
        greatest_of(greatest_of(greatest_of(self.x, self.y), self.z), self.w)
    }
}

impl<T: Default> Default for Vector4<T> {
    /// The vector whose components are all the component type's default,
    /// which for the number types is zero.
    fn default() -> (r: Vector4<T>)
        ensures
            call_ensures(T::default, (), r.x),
            call_ensures(T::default, (), r.y),
            call_ensures(T::default, (), r.z),
            call_ensures(T::default, (), r.w),
    {
        Vector4 { x: T::default(), y: T::default(), z: T::default(), w: T::default() }
    }
}

impl<T: Neg<Output = T>> Neg for Vector4<T> {
    type Output = Vector4<T>;

    /// Flip the sign of every component of the vector.
    fn neg(self) -> (r: Vector4<T>)
        ensures
            call_ensures(T::neg, (self.x,), r.x),
            call_ensures(T::neg, (self.y,), r.y),
            call_ensures(T::neg, (self.z,), r.z),
            call_ensures(T::neg, (self.w,), r.w),
            T::obeys_neg_spec() ==> r == (Vector4 { x: self.x.neg_spec(), y: self.y.neg_spec(), z: self.z.neg_spec(), w: self.w.neg_spec() }),
    {
        Vector4 { x: self.x.neg(), y: self.y.neg(), z: self.z.neg(), w: self.w.neg() }
    }
}

impl<T: Neg<Output = T>> vstd::std_specs::ops::NegSpecImpl for Vector4<T> {
    open spec fn obeys_neg_spec() -> bool {
        T::obeys_neg_spec()
    }

    open spec fn neg_req(self) -> bool {
        self.x.neg_req() && self.y.neg_req() && self.z.neg_req() && self.w.neg_req()
    }

    open spec fn neg_spec(self) -> Vector4<T> {
        Vector4 { x: self.x.neg_spec(), y: self.y.neg_spec(), z: self.z.neg_spec(), w: self.w.neg_spec() }
    }
}

impl<T: Add<Output = T>> Add<Vector4<T>> for Vector4<T> {
    type Output = Vector4<T>;

    /// Add the components of two vectors pairwise.
    fn add(self, rhs: Vector4<T>) -> (r: Vector4<T>)
        ensures
            call_ensures(T::add, (self.x, rhs.x), r.x),
            call_ensures(T::add, (self.y, rhs.y), r.y),
            call_ensures(T::add, (self.z, rhs.z), r.z),
            call_ensures(T::add, (self.w, rhs.w), r.w),
            T::obeys_add_spec() ==> r == (Vector4 { x: self.x.add_spec(rhs.x), y: self.y.add_spec(rhs.y), z: self.z.add_spec(rhs.z), w: self.w.add_spec(rhs.w) }),
    {
        Vector4 { x: self.x + rhs.x, y: self.y + rhs.y, z: self.z + rhs.z, w: self.w + rhs.w }
    }
}

impl<T: Add<Output = T>> vstd::std_specs::ops::AddSpecImpl<Vector4<T>> for Vector4<T> {
    open spec fn obeys_add_spec() -> bool {
        T::obeys_add_spec()
    }

    open spec fn add_req(self, rhs: Vector4<T>) -> bool {
        self.x.add_req(rhs.x) && self.y.add_req(rhs.y) && self.z.add_req(rhs.z) && self.w.add_req(rhs.w)
    }

    open spec fn add_spec(self, rhs: Vector4<T>) -> Vector4<T> {
        Vector4 { x: self.x.add_spec(rhs.x), y: self.y.add_spec(rhs.y), z: self.z.add_spec(rhs.z), w: self.w.add_spec(rhs.w) }
    }
}

impl<T: Add<Output = T> + Copy> AddAssign<Vector4<T>> for Vector4<T> {
    /// Add the components of two vectors pairwise. The vector is replaced by the result.
    fn add_assign(&mut self, rhs: Vector4<T>)
        requires
            old(self).x.add_req(rhs.x),
            old(self).y.add_req(rhs.y),
            old(self).z.add_req(rhs.z),
            old(self).w.add_req(rhs.w),
        ensures
            call_ensures(T::add, (old(self).x, rhs.x), final(self).x),
            call_ensures(T::add, (old(self).y, rhs.y), final(self).y),
            call_ensures(T::add, (old(self).z, rhs.z), final(self).z),
            call_ensures(T::add, (old(self).w, rhs.w), final(self).w),
            T::obeys_add_spec() ==> *final(self) == <Vector4<T> as AddSpec<Vector4<T>>>::add_spec(*old(self), rhs),
            T::obeys_add_spec() ==> final(self).x == old(self).x.add_spec(rhs.x),
            T::obeys_add_spec() ==> final(self).y == old(self).y.add_spec(rhs.y),
            T::obeys_add_spec() ==> final(self).z == old(self).z.add_spec(rhs.z),
            T::obeys_add_spec() ==> final(self).w == old(self).w.add_spec(rhs.w),
    {
        self.x = self.x + rhs.x;
        self.y = self.y + rhs.y;
        self.z = self.z + rhs.z;
        self.w = self.w + rhs.w;
    }
}

impl<T: Add<Output = T> + Copy> Add<T> for Vector4<T> {
    type Output = Vector4<T>;

    /// Add a scalar to each component.
    fn add(self, rhs: T) -> (r: Vector4<T>)
        ensures
            call_ensures(T::add, (self.x, rhs), r.x),
            call_ensures(T::add, (self.y, rhs), r.y),
            call_ensures(T::add, (self.z, rhs), r.z),
            call_ensures(T::add, (self.w, rhs), r.w),
            T::obeys_add_spec() ==> r == (Vector4 { x: self.x.add_spec(rhs), y: self.y.add_spec(rhs), z: self.z.add_spec(rhs), w: self.w.add_spec(rhs) }),
    {
        Vector4 { x: self.x + rhs, y: self.y + rhs, z: self.z + rhs, w: self.w + rhs }
    }
}

impl<T: Add<Output = T> + Copy> vstd::std_specs::ops::AddSpecImpl<T> for Vector4<T> {
    open spec fn obeys_add_spec() -> bool {
        T::obeys_add_spec()
    }

    open spec fn add_req(self, rhs: T) -> bool {
        self.x.add_req(rhs) && self.y.add_req(rhs) && self.z.add_req(rhs) && self.w.add_req(rhs)
    }

    open spec fn add_spec(self, rhs: T) -> Vector4<T> {
        Vector4 { x: self.x.add_spec(rhs), y: self.y.add_spec(rhs), z: self.z.add_spec(rhs), w: self.w.add_spec(rhs) }
    }
}

impl<T: Add<Output = T> + Copy> AddAssign<T> for Vector4<T> {
    /// Add a scalar to each component. The vector is replaced by the result.
    fn add_assign(&mut self, rhs: T)
        requires
            old(self).x.add_req(rhs),
            old(self).y.add_req(rhs),
            old(self).z.add_req(rhs),
            old(self).w.add_req(rhs),
        ensures
            call_ensures(T::add, (old(self).x, rhs), final(self).x),
            call_ensures(T::add, (old(self).y, rhs), final(self).y),
            call_ensures(T::add, (old(self).z, rhs), final(self).z),
            call_ensures(T::add, (old(self).w, rhs), final(self).w),
            T::obeys_add_spec() ==> *final(self) == <Vector4<T> as AddSpec<T>>::add_spec(*old(self), rhs),
            T::obeys_add_spec() ==> final(self).x == old(self).x.add_spec(rhs),
            T::obeys_add_spec() ==> final(self).y == old(self).y.add_spec(rhs),
            T::obeys_add_spec() ==> final(self).z == old(self).z.add_spec(rhs),
            T::obeys_add_spec() ==> final(self).w == old(self).w.add_spec(rhs),
    {
        self.x = self.x + rhs;
        self.y = self.y + rhs;
        self.z = self.z + rhs;
        self.w = self.w + rhs;
    }
}

impl<T: Sub<Output = T>> Sub<Vector4<T>> for Vector4<T> {
    type Output = Vector4<T>;

    /// Subtract the components of `rhs` from those of the vector pairwise.
    fn sub(self, rhs: Vector4<T>) -> (r: Vector4<T>)
        ensures
            call_ensures(T::sub, (self.x, rhs.x), r.x),
            call_ensures(T::sub, (self.y, rhs.y), r.y),
            call_ensures(T::sub, (self.z, rhs.z), r.z),
            call_ensures(T::sub, (self.w, rhs.w), r.w),
            T::obeys_sub_spec() ==> r == (Vector4 { x: self.x.sub_spec(rhs.x), y: self.y.sub_spec(rhs.y), z: self.z.sub_spec(rhs.z), w: self.w.sub_spec(rhs.w) }),
    {
        Vector4 { x: self.x - rhs.x, y: self.y - rhs.y, z: self.z - rhs.z, w: self.w - rhs.w }
    }
}

impl<T: Sub<Output = T>> vstd::std_specs::ops::SubSpecImpl<Vector4<T>> for Vector4<T> {
    open spec fn obeys_sub_spec() -> bool {
        T::obeys_sub_spec()
    }

    open spec fn sub_req(self, rhs: Vector4<T>) -> bool {
        self.x.sub_req(rhs.x) && self.y.sub_req(rhs.y) && self.z.sub_req(rhs.z) && self.w.sub_req(rhs.w)
    }

    open spec fn sub_spec(self, rhs: Vector4<T>) -> Vector4<T> {
        Vector4 { x: self.x.sub_spec(rhs.x), y: self.y.sub_spec(rhs.y), z: self.z.sub_spec(rhs.z), w: self.w.sub_spec(rhs.w) }
    }
}

impl<T: Sub<Output = T> + Copy> SubAssign<Vector4<T>> for Vector4<T> {
    /// Subtract the components of `rhs` from those of the vector pairwise. The vector is replaced by the result.
    fn sub_assign(&mut self, rhs: Vector4<T>)
        requires
            old(self).x.sub_req(rhs.x),
            old(self).y.sub_req(rhs.y),
            old(self).z.sub_req(rhs.z),
            old(self).w.sub_req(rhs.w),
        ensures
            call_ensures(T::sub, (old(self).x, rhs.x), final(self).x),
            call_ensures(T::sub, (old(self).y, rhs.y), final(self).y),
            call_ensures(T::sub, (old(self).z, rhs.z), final(self).z),
            call_ensures(T::sub, (old(self).w, rhs.w), final(self).w),
            T::obeys_sub_spec() ==> *final(self) == <Vector4<T> as SubSpec<Vector4<T>>>::sub_spec(*old(self), rhs),
            T::obeys_sub_spec() ==> final(self).x == old(self).x.sub_spec(rhs.x),
            T::obeys_sub_spec() ==> final(self).y == old(self).y.sub_spec(rhs.y),
            T::obeys_sub_spec() ==> final(self).z == old(self).z.sub_spec(rhs.z),
            T::obeys_sub_spec() ==> final(self).w == old(self).w.sub_spec(rhs.w),
    {
        self.x = self.x - rhs.x;
        self.y = self.y - rhs.y;
        self.z = self.z - rhs.z;
        self.w = self.w - rhs.w;
    }
}

impl<T: Sub<Output = T> + Copy> Sub<T> for Vector4<T> {
    type Output = Vector4<T>;

    /// Subtract a scalar from each component.
    fn sub(self, rhs: T) -> (r: Vector4<T>)
        ensures
            call_ensures(T::sub, (self.x, rhs), r.x),
            call_ensures(T::sub, (self.y, rhs), r.y),
            call_ensures(T::sub, (self.z, rhs), r.z),
            call_ensures(T::sub, (self.w, rhs), r.w),
            T::obeys_sub_spec() ==> r == (Vector4 { x: self.x.sub_spec(rhs), y: self.y.sub_spec(rhs), z: self.z.sub_spec(rhs), w: self.w.sub_spec(rhs) }),
    {
        Vector4 { x: self.x - rhs, y: self.y - rhs, z: self.z - rhs, w: self.w - rhs }
    }
}

impl<T: Sub<Output = T> + Copy> vstd::std_specs::ops::SubSpecImpl<T> for Vector4<T> {
    open spec fn obeys_sub_spec() -> bool {
        T::obeys_sub_spec()
    }

    open spec fn sub_req(self, rhs: T) -> bool {
        self.x.sub_req(rhs) && self.y.sub_req(rhs) && self.z.sub_req(rhs) && self.w.sub_req(rhs)
    }

    open spec fn sub_spec(self, rhs: T) -> Vector4<T> {
        Vector4 { x: self.x.sub_spec(rhs), y: self.y.sub_spec(rhs), z: self.z.sub_spec(rhs), w: self.w.sub_spec(rhs) }
    }
}

impl<T: Sub<Output = T> + Copy> SubAssign<T> for Vector4<T> {
    /// Subtract a scalar from each component. The vector is replaced by the result.
    fn sub_assign(&mut self, rhs: T)
        requires
            old(self).x.sub_req(rhs),
            old(self).y.sub_req(rhs),
            old(self).z.sub_req(rhs),
            old(self).w.sub_req(rhs),
        ensures
            call_ensures(T::sub, (old(self).x, rhs), final(self).x),
            call_ensures(T::sub, (old(self).y, rhs), final(self).y),
            call_ensures(T::sub, (old(self).z, rhs), final(self).z),
            call_ensures(T::sub, (old(self).w, rhs), final(self).w),
            T::obeys_sub_spec() ==> *final(self) == <Vector4<T> as SubSpec<T>>::sub_spec(*old(self), rhs),
            T::obeys_sub_spec() ==> final(self).x == old(self).x.sub_spec(rhs),
            T::obeys_sub_spec() ==> final(self).y == old(self).y.sub_spec(rhs),
            T::obeys_sub_spec() ==> final(self).z == old(self).z.sub_spec(rhs),
            T::obeys_sub_spec() ==> final(self).w == old(self).w.sub_spec(rhs),
    {
        self.x = self.x - rhs;
        self.y = self.y - rhs;
        self.z = self.z - rhs;
        self.w = self.w - rhs;
    }
}

impl<T: Mul<Output = T>> Mul<Vector4<T>> for Vector4<T> {
    type Output = Vector4<T>;

    /// Multiply the components of two vectors pairwise.
    fn mul(self, rhs: Vector4<T>) -> (r: Vector4<T>)
        ensures
            call_ensures(T::mul, (self.x, rhs.x), r.x),
            call_ensures(T::mul, (self.y, rhs.y), r.y),
            call_ensures(T::mul, (self.z, rhs.z), r.z),
            call_ensures(T::mul, (self.w, rhs.w), r.w),
            T::obeys_mul_spec() ==> r == (Vector4 { x: self.x.mul_spec(rhs.x), y: self.y.mul_spec(rhs.y), z: self.z.mul_spec(rhs.z), w: self.w.mul_spec(rhs.w) }),
    {
        Vector4 { x: self.x * rhs.x, y: self.y * rhs.y, z: self.z * rhs.z, w: self.w * rhs.w }
    }
}

impl<T: Mul<Output = T>> vstd::std_specs::ops::MulSpecImpl<Vector4<T>> for Vector4<T> {
    open spec fn obeys_mul_spec() -> bool {
        T::obeys_mul_spec()
    }

    open spec fn mul_req(self, rhs: Vector4<T>) -> bool {
        self.x.mul_req(rhs.x) && self.y.mul_req(rhs.y) && self.z.mul_req(rhs.z) && self.w.mul_req(rhs.w)
    }

    open spec fn mul_spec(self, rhs: Vector4<T>) -> Vector4<T> {
        Vector4 { x: self.x.mul_spec(rhs.x), y: self.y.mul_spec(rhs.y), z: self.z.mul_spec(rhs.z), w: self.w.mul_spec(rhs.w) }
    }
}

impl<T: Mul<Output = T> + Copy> MulAssign<Vector4<T>> for Vector4<T> {
    /// Multiply the components of two vectors pairwise. The vector is replaced by the result.
    fn mul_assign(&mut self, rhs: Vector4<T>)
        requires
            old(self).x.mul_req(rhs.x),
            old(self).y.mul_req(rhs.y),
            old(self).z.mul_req(rhs.z),
            old(self).w.mul_req(rhs.w),
        ensures
            call_ensures(T::mul, (old(self).x, rhs.x), final(self).x),
            call_ensures(T::mul, (old(self).y, rhs.y), final(self).y),
            call_ensures(T::mul, (old(self).z, rhs.z), final(self).z),
            call_ensures(T::mul, (old(self).w, rhs.w), final(self).w),
            T::obeys_mul_spec() ==> *final(self) == <Vector4<T> as MulSpec<Vector4<T>>>::mul_spec(*old(self), rhs),
            T::obeys_mul_spec() ==> final(self).x == old(self).x.mul_spec(rhs.x),
            T::obeys_mul_spec() ==> final(self).y == old(self).y.mul_spec(rhs.y),
            T::obeys_mul_spec() ==> final(self).z == old(self).z.mul_spec(rhs.z),
            T::obeys_mul_spec() ==> final(self).w == old(self).w.mul_spec(rhs.w),
    {
        self.x = self.x * rhs.x;
        self.y = self.y * rhs.y;
        self.z = self.z * rhs.z;
        self.w = self.w * rhs.w;
    }
}

impl<T: Mul<Output = T> + Copy> Mul<T> for Vector4<T> {
    type Output = Vector4<T>;

    /// Multiply each component by a scalar.
    fn mul(self, rhs: T) -> (r: Vector4<T>)
        ensures
            call_ensures(T::mul, (self.x, rhs), r.x),
            call_ensures(T::mul, (self.y, rhs), r.y),
            call_ensures(T::mul, (self.z, rhs), r.z),
            call_ensures(T::mul, (self.w, rhs), r.w),
            T::obeys_mul_spec() ==> r == (Vector4 { x: self.x.mul_spec(rhs), y: self.y.mul_spec(rhs), z: self.z.mul_spec(rhs), w: self.w.mul_spec(rhs) }),
    {
        Vector4 { x: self.x * rhs, y: self.y * rhs, z: self.z * rhs, w: self.w * rhs }
    }
}

impl<T: Mul<Output = T> + Copy> vstd::std_specs::ops::MulSpecImpl<T> for Vector4<T> {
    open spec fn obeys_mul_spec() -> bool {
        T::obeys_mul_spec()
    }

    open spec fn mul_req(self, rhs: T) -> bool {
        self.x.mul_req(rhs) && self.y.mul_req(rhs) && self.z.mul_req(rhs) && self.w.mul_req(rhs)
    }

    open spec fn mul_spec(self, rhs: T) -> Vector4<T> {
        Vector4 { x: self.x.mul_spec(rhs), y: self.y.mul_spec(rhs), z: self.z.mul_spec(rhs), w: self.w.mul_spec(rhs) }
    }
}

impl<T: Mul<Output = T> + Copy> MulAssign<T> for Vector4<T> {
    /// Multiply each component by a scalar. The vector is replaced by the result.
    fn mul_assign(&mut self, rhs: T)
        requires
            old(self).x.mul_req(rhs),
            old(self).y.mul_req(rhs),
            old(self).z.mul_req(rhs),
            old(self).w.mul_req(rhs),
        ensures
            call_ensures(T::mul, (old(self).x, rhs), final(self).x),
            call_ensures(T::mul, (old(self).y, rhs), final(self).y),
            call_ensures(T::mul, (old(self).z, rhs), final(self).z),
            call_ensures(T::mul, (old(self).w, rhs), final(self).w),
            T::obeys_mul_spec() ==> *final(self) == <Vector4<T> as MulSpec<T>>::mul_spec(*old(self), rhs),
            T::obeys_mul_spec() ==> final(self).x == old(self).x.mul_spec(rhs),
            T::obeys_mul_spec() ==> final(self).y == old(self).y.mul_spec(rhs),
            T::obeys_mul_spec() ==> final(self).z == old(self).z.mul_spec(rhs),
            T::obeys_mul_spec() ==> final(self).w == old(self).w.mul_spec(rhs),
    {
        self.x = self.x * rhs;
        self.y = self.y * rhs;
        self.z = self.z * rhs;
        self.w = self.w * rhs;
    }
}

impl<T: Div<Output = T>> Div<Vector4<T>> for Vector4<T> {
    type Output = Vector4<T>;

    /// Divide the components of the vector by those of `rhs` pairwise.
    fn div(self, rhs: Vector4<T>) -> (r: Vector4<T>)
        ensures
            call_ensures(T::div, (self.x, rhs.x), r.x),
            call_ensures(T::div, (self.y, rhs.y), r.y),
            call_ensures(T::div, (self.z, rhs.z), r.z),
            call_ensures(T::div, (self.w, rhs.w), r.w),
            T::obeys_div_spec() ==> r == (Vector4 { x: self.x.div_spec(rhs.x), y: self.y.div_spec(rhs.y), z: self.z.div_spec(rhs.z), w: self.w.div_spec(rhs.w) }),
    {
        Vector4 { x: self.x / rhs.x, y: self.y / rhs.y, z: self.z / rhs.z, w: self.w / rhs.w }
    }
}

impl<T: Div<Output = T>> vstd::std_specs::ops::DivSpecImpl<Vector4<T>> for Vector4<T> {
    open spec fn obeys_div_spec() -> bool {
        T::obeys_div_spec()
    }

    open spec fn div_req(self, rhs: Vector4<T>) -> bool {
        self.x.div_req(rhs.x) && self.y.div_req(rhs.y) && self.z.div_req(rhs.z) && self.w.div_req(rhs.w)
    }

    open spec fn div_spec(self, rhs: Vector4<T>) -> Vector4<T> {
        Vector4 { x: self.x.div_spec(rhs.x), y: self.y.div_spec(rhs.y), z: self.z.div_spec(rhs.z), w: self.w.div_spec(rhs.w) }
    }
}

impl<T: Div<Output = T> + Copy> DivAssign<Vector4<T>> for Vector4<T> {
    /// Divide the components of the vector by those of `rhs` pairwise. The vector is replaced by the result.
    fn div_assign(&mut self, rhs: Vector4<T>)
        requires
            old(self).x.div_req(rhs.x),
            old(self).y.div_req(rhs.y),
            old(self).z.div_req(rhs.z),
            old(self).w.div_req(rhs.w),
        ensures
            call_ensures(T::div, (old(self).x, rhs.x), final(self).x),
            call_ensures(T::div, (old(self).y, rhs.y), final(self).y),
            call_ensures(T::div, (old(self).z, rhs.z), final(self).z),
            call_ensures(T::div, (old(self).w, rhs.w), final(self).w),
            T::obeys_div_spec() ==> *final(self) == <Vector4<T> as DivSpec<Vector4<T>>>::div_spec(*old(self), rhs),
            T::obeys_div_spec() ==> final(self).x == old(self).x.div_spec(rhs.x),
            T::obeys_div_spec() ==> final(self).y == old(self).y.div_spec(rhs.y),
            T::obeys_div_spec() ==> final(self).z == old(self).z.div_spec(rhs.z),
            T::obeys_div_spec() ==> final(self).w == old(self).w.div_spec(rhs.w),
    {
        self.x = self.x / rhs.x;
        self.y = self.y / rhs.y;
        self.z = self.z / rhs.z;
        self.w = self.w / rhs.w;
    }
}

impl<T: Div<Output = T> + Copy> Div<T> for Vector4<T> {
    type Output = Vector4<T>;

    /// Divide each component by a scalar.
    fn div(self, rhs: T) -> (r: Vector4<T>)
        ensures
            call_ensures(T::div, (self.x, rhs), r.x),
            call_ensures(T::div, (self.y, rhs), r.y),
            call_ensures(T::div, (self.z, rhs), r.z),
            call_ensures(T::div, (self.w, rhs), r.w),
            T::obeys_div_spec() ==> r == (Vector4 { x: self.x.div_spec(rhs), y: self.y.div_spec(rhs), z: self.z.div_spec(rhs), w: self.w.div_spec(rhs) }),
    {
        Vector4 { x: self.x / rhs, y: self.y / rhs, z: self.z / rhs, w: self.w / rhs }
    }
}

impl<T: Div<Output = T> + Copy> vstd::std_specs::ops::DivSpecImpl<T> for Vector4<T> {
    open spec fn obeys_div_spec() -> bool {
        T::obeys_div_spec()
    }

    open spec fn div_req(self, rhs: T) -> bool {
        self.x.div_req(rhs) && self.y.div_req(rhs) && self.z.div_req(rhs) && self.w.div_req(rhs)
    }

    open spec fn div_spec(self, rhs: T) -> Vector4<T> {
        Vector4 { x: self.x.div_spec(rhs), y: self.y.div_spec(rhs), z: self.z.div_spec(rhs), w: self.w.div_spec(rhs) }
    }
}

impl<T: Div<Output = T> + Copy> DivAssign<T> for Vector4<T> {
    /// Divide each component by a scalar. The vector is replaced by the result.
    fn div_assign(&mut self, rhs: T)
        requires
            old(self).x.div_req(rhs),
            old(self).y.div_req(rhs),
            old(self).z.div_req(rhs),
            old(self).w.div_req(rhs),
        ensures
            call_ensures(T::div, (old(self).x, rhs), final(self).x),
            call_ensures(T::div, (old(self).y, rhs), final(self).y),
            call_ensures(T::div, (old(self).z, rhs), final(self).z),
            call_ensures(T::div, (old(self).w, rhs), final(self).w),
            T::obeys_div_spec() ==> *final(self) == <Vector4<T> as DivSpec<T>>::div_spec(*old(self), rhs),
            T::obeys_div_spec() ==> final(self).x == old(self).x.div_spec(rhs),
            T::obeys_div_spec() ==> final(self).y == old(self).y.div_spec(rhs),
            T::obeys_div_spec() ==> final(self).z == old(self).z.div_spec(rhs),
            T::obeys_div_spec() ==> final(self).w == old(self).w.div_spec(rhs),
    {
        self.x = self.x / rhs;
        self.y = self.y / rhs;
        self.z = self.z / rhs;
        self.w = self.w / rhs;
    }
}

impl<T: Rem<Output = T>> Rem<Vector4<T>> for Vector4<T> {
    type Output = Vector4<T>;

    /// The pairwise remainder of the components of the vector by those of `rhs`.
    fn rem(self, rhs: Vector4<T>) -> (r: Vector4<T>)
        ensures
            call_ensures(T::rem, (self.x, rhs.x), r.x),
            call_ensures(T::rem, (self.y, rhs.y), r.y),
            call_ensures(T::rem, (self.z, rhs.z), r.z),
            call_ensures(T::rem, (self.w, rhs.w), r.w),
            T::obeys_rem_spec() ==> r == (Vector4 { x: self.x.rem_spec(rhs.x), y: self.y.rem_spec(rhs.y), z: self.z.rem_spec(rhs.z), w: self.w.rem_spec(rhs.w) }),
    {
        Vector4 { x: self.x % rhs.x, y: self.y % rhs.y, z: self.z % rhs.z, w: self.w % rhs.w }
    }
}

impl<T: Rem<Output = T>> vstd::std_specs::ops::RemSpecImpl<Vector4<T>> for Vector4<T> {
    open spec fn obeys_rem_spec() -> bool {
        T::obeys_rem_spec()
    }

    open spec fn rem_req(self, rhs: Vector4<T>) -> bool {
        self.x.rem_req(rhs.x) && self.y.rem_req(rhs.y) && self.z.rem_req(rhs.z) && self.w.rem_req(rhs.w)
    }

    open spec fn rem_spec(self, rhs: Vector4<T>) -> Vector4<T> {
        Vector4 { x: self.x.rem_spec(rhs.x), y: self.y.rem_spec(rhs.y), z: self.z.rem_spec(rhs.z), w: self.w.rem_spec(rhs.w) }
    }
}

impl<T: Rem<Output = T> + Copy> RemAssign<Vector4<T>> for Vector4<T> {
    /// The pairwise remainder of the components of the vector by those of `rhs`. The vector is replaced by the result.
    fn rem_assign(&mut self, rhs: Vector4<T>)
        requires
            old(self).x.rem_req(rhs.x),
            old(self).y.rem_req(rhs.y),
            old(self).z.rem_req(rhs.z),
            old(self).w.rem_req(rhs.w),
        ensures
            call_ensures(T::rem, (old(self).x, rhs.x), final(self).x),
            call_ensures(T::rem, (old(self).y, rhs.y), final(self).y),
            call_ensures(T::rem, (old(self).z, rhs.z), final(self).z),
            call_ensures(T::rem, (old(self).w, rhs.w), final(self).w),
            T::obeys_rem_spec() ==> *final(self) == <Vector4<T> as RemSpec<Vector4<T>>>::rem_spec(*old(self), rhs),
            T::obeys_rem_spec() ==> final(self).x == old(self).x.rem_spec(rhs.x),
            T::obeys_rem_spec() ==> final(self).y == old(self).y.rem_spec(rhs.y),
            T::obeys_rem_spec() ==> final(self).z == old(self).z.rem_spec(rhs.z),
            T::obeys_rem_spec() ==> final(self).w == old(self).w.rem_spec(rhs.w),
    {
        self.x = self.x % rhs.x;
        self.y = self.y % rhs.y;
        self.z = self.z % rhs.z;
        self.w = self.w % rhs.w;
    }
}

impl<T: Rem<Output = T> + Copy> Rem<T> for Vector4<T> {
    type Output = Vector4<T>;

    /// The remainder of each component by a scalar.
    fn rem(self, rhs: T) -> (r: Vector4<T>)
        ensures
            call_ensures(T::rem, (self.x, rhs), r.x),
            call_ensures(T::rem, (self.y, rhs), r.y),
            call_ensures(T::rem, (self.z, rhs), r.z),
            call_ensures(T::rem, (self.w, rhs), r.w),
            T::obeys_rem_spec() ==> r == (Vector4 { x: self.x.rem_spec(rhs), y: self.y.rem_spec(rhs), z: self.z.rem_spec(rhs), w: self.w.rem_spec(rhs) }),
    {
        Vector4 { x: self.x % rhs, y: self.y % rhs, z: self.z % rhs, w: self.w % rhs }
    }
}

impl<T: Rem<Output = T> + Copy> vstd::std_specs::ops::RemSpecImpl<T> for Vector4<T> {
    open spec fn obeys_rem_spec() -> bool {
        T::obeys_rem_spec()
    }

    open spec fn rem_req(self, rhs: T) -> bool {
        self.x.rem_req(rhs) && self.y.rem_req(rhs) && self.z.rem_req(rhs) && self.w.rem_req(rhs)
    }

    open spec fn rem_spec(self, rhs: T) -> Vector4<T> {
        Vector4 { x: self.x.rem_spec(rhs), y: self.y.rem_spec(rhs), z: self.z.rem_spec(rhs), w: self.w.rem_spec(rhs) }
    }
}

impl<T: Rem<Output = T> + Copy> RemAssign<T> for Vector4<T> {
    /// The remainder of each component by a scalar. The vector is replaced by the result.
    fn rem_assign(&mut self, rhs: T)
        requires
            old(self).x.rem_req(rhs),
            old(self).y.rem_req(rhs),
            old(self).z.rem_req(rhs),
            old(self).w.rem_req(rhs),
        ensures
            call_ensures(T::rem, (old(self).x, rhs), final(self).x),
            call_ensures(T::rem, (old(self).y, rhs), final(self).y),
            call_ensures(T::rem, (old(self).z, rhs), final(self).z),
            call_ensures(T::rem, (old(self).w, rhs), final(self).w),
            T::obeys_rem_spec() ==> *final(self) == <Vector4<T> as RemSpec<T>>::rem_spec(*old(self), rhs),
            T::obeys_rem_spec() ==> final(self).x == old(self).x.rem_spec(rhs),
            T::obeys_rem_spec() ==> final(self).y == old(self).y.rem_spec(rhs),
            T::obeys_rem_spec() ==> final(self).z == old(self).z.rem_spec(rhs),
            T::obeys_rem_spec() ==> final(self).w == old(self).w.rem_spec(rhs),
    {
        self.x = self.x % rhs;
        self.y = self.y % rhs;
        self.z = self.z % rhs;
        self.w = self.w % rhs;
    }
}

impl<T: Copy> From<[T; 4]> for Vector4<T> {
    /// The vector whose components are the items of the array, in order.
    fn from(lhs: [T; 4]) -> (r: Vector4<T>)
        ensures
            r == (Vector4 { x: lhs[0], y: lhs[1], z: lhs[2], w: lhs[3] }),
    {
        Vector4 { x: lhs[0], y: lhs[1], z: lhs[2], w: lhs[3] }
    }
}

impl<T: Copy> vstd::std_specs::convert::FromSpecImpl<[T; 4]> for Vector4<T> {
    open spec fn obeys_from_spec() -> bool {
        true
    }

    open spec fn from_spec(lhs: [T; 4]) -> Vector4<T> {
        Vector4 { x: lhs[0], y: lhs[1], z: lhs[2], w: lhs[3] }
    }
}

impl<T> From<(T, T, T, T)> for Vector4<T> {
    /// The vector whose components are the items of the tuple, in order.
    fn from(lhs: (T, T, T, T)) -> (r: Vector4<T>)
        ensures
            r == (Vector4 { x: lhs.0, y: lhs.1, z: lhs.2, w: lhs.3 }),
    {
        let (x, y, z, w) = lhs;
        Vector4 { x, y, z, w }
    }
}

impl<T> vstd::std_specs::convert::FromSpecImpl<(T, T, T, T)> for Vector4<T> {
    open spec fn obeys_from_spec() -> bool {
        true
    }

    open spec fn from_spec(lhs: (T, T, T, T)) -> Vector4<T> {
        Vector4 { x: lhs.0, y: lhs.1, z: lhs.2, w: lhs.3 }
    }
}

impl<T> From<Vector4<T>> for [T; 4] {
    /// The array of the components, in order.
    fn from(lhs: Vector4<T>) -> (r: [T; 4])
        ensures
            r == [lhs.x, lhs.y, lhs.z, lhs.w],
    {
        [lhs.x, lhs.y, lhs.z, lhs.w]
    }
}

impl<T> vstd::std_specs::convert::FromSpecImpl<Vector4<T>> for [T; 4] {
    open spec fn obeys_from_spec() -> bool {
        true
    }

    open spec fn from_spec(lhs: Vector4<T>) -> [T; 4] {
        [lhs.x, lhs.y, lhs.z, lhs.w]
    }
}

impl<T> From<Vector4<T>> for (T, T, T, T) {
    /// The tuple of the components, in order.
    fn from(lhs: Vector4<T>) -> (r: (T, T, T, T))
        ensures
            r == (lhs.x, lhs.y, lhs.z, lhs.w),
    {
        (lhs.x, lhs.y, lhs.z, lhs.w)
    }
}

impl<T> vstd::std_specs::convert::FromSpecImpl<Vector4<T>> for (T, T, T, T) {
    open spec fn obeys_from_spec() -> bool {
        true
    }

    open spec fn from_spec(lhs: Vector4<T>) -> (T, T, T, T) {
        (lhs.x, lhs.y, lhs.z, lhs.w)
    }
}

/// An operation of a vector with a scalar is the same operation with the
/// vector whose components all equal the scalar: it is allowed on the same
/// inputs and gives the same result.
pub proof fn lemma_scalar_ops_act_on_every_component<T: Add<Output = T> + Sub<Output = T> + Mul<Output = T> + Div<Output = T> + Rem<Output = T> + Copy>(v: Vector4<T>, s: T)
    ensures
        <Vector4<T> as AddSpec<T>>::add_req(v, s) == <Vector4<T> as AddSpec<Vector4<T>>>::add_req(v, Vector4 { x: s, y: s, z: s, w: s }),
        <Vector4<T> as SubSpec<T>>::sub_req(v, s) == <Vector4<T> as SubSpec<Vector4<T>>>::sub_req(v, Vector4 { x: s, y: s, z: s, w: s }),
        <Vector4<T> as MulSpec<T>>::mul_req(v, s) == <Vector4<T> as MulSpec<Vector4<T>>>::mul_req(v, Vector4 { x: s, y: s, z: s, w: s }),
        <Vector4<T> as DivSpec<T>>::div_req(v, s) == <Vector4<T> as DivSpec<Vector4<T>>>::div_req(v, Vector4 { x: s, y: s, z: s, w: s }),
        <Vector4<T> as RemSpec<T>>::rem_req(v, s) == <Vector4<T> as RemSpec<Vector4<T>>>::rem_req(v, Vector4 { x: s, y: s, z: s, w: s }),
        <Vector4<T> as AddSpec<T>>::add_spec(v, s) == <Vector4<T> as AddSpec<Vector4<T>>>::add_spec(v, Vector4 { x: s, y: s, z: s, w: s }),
        <Vector4<T> as SubSpec<T>>::sub_spec(v, s) == <Vector4<T> as SubSpec<Vector4<T>>>::sub_spec(v, Vector4 { x: s, y: s, z: s, w: s }),
        <Vector4<T> as MulSpec<T>>::mul_spec(v, s) == <Vector4<T> as MulSpec<Vector4<T>>>::mul_spec(v, Vector4 { x: s, y: s, z: s, w: s }),
        <Vector4<T> as DivSpec<T>>::div_spec(v, s) == <Vector4<T> as DivSpec<Vector4<T>>>::div_spec(v, Vector4 { x: s, y: s, z: s, w: s }),
        <Vector4<T> as RemSpec<T>>::rem_spec(v, s) == <Vector4<T> as RemSpec<Vector4<T>>>::rem_spec(v, Vector4 { x: s, y: s, z: s, w: s }),
{
}

/// The dot product is the sum of the components of the pairwise product.
pub proof fn lemma_dot_is_sum_of_pairwise_product<T: Add<Output = T> + Mul<Output = T> + Copy>(
    lhs: Vector4<T>,
    rhs: Vector4<T>,
)
    ensures
        Vector4::dot_spec(lhs, rhs) == <Vector4<T> as MulSpec<Vector4<T>>>::mul_spec(lhs, rhs).sum_spec(),
{
}

/// Turning a vector into an array, or into a tuple, and back gives the vector
/// again.
pub proof fn lemma_conversions_round_trip<T: Copy>(v: Vector4<T>)
    ensures
        <Vector4<T> as FromSpec<[T; 4]>>::from_spec(<[T; 4] as FromSpec<Vector4<T>>>::from_spec(v)) == v,
        <Vector4<T> as FromSpec<(T, T, T, T)>>::from_spec(<(T, T, T, T) as FromSpec<Vector4<T>>>::from_spec(v)) == v,
{
}

/// Negating twice gives the vector back, for any component type whose
/// negation does so.
pub proof fn lemma_neg_twice<T: Neg<Output = T>>(v: Vector4<T>)
    requires
        forall|a: T| #[trigger] a.neg_spec().neg_spec() == a,
    ensures
        v.neg_spec().neg_spec() == v,
{
}

/// Subtracting what was added gives the vector back, for any component type
/// whose subtraction undoes its addition.
pub proof fn lemma_sub_undoes_add<T: Add<Output = T> + Sub<Output = T> + Copy>(v: Vector4<T>, w: Vector4<T>)
    requires
        forall|a: T, b: T| #[trigger] a.add_spec(b).sub_spec(b) == a,
    ensures
        <Vector4<T> as SubSpec<Vector4<T>>>::sub_spec(<Vector4<T> as AddSpec<Vector4<T>>>::add_spec(v, w), w) == v,
{
}

/// Adding vectors does not depend on their order, for any component type
/// whose addition does not.
pub proof fn lemma_add_commutes<T: Add<Output = T>>(v: Vector4<T>, w: Vector4<T>)
    requires
        forall|a: T, b: T| #[trigger] a.add_spec(b) == b.add_spec(a),
    ensures
        <Vector4<T> as AddSpec<Vector4<T>>>::add_spec(v, w) == <Vector4<T> as AddSpec<Vector4<T>>>::add_spec(w, v),
{
}

/// The dot product does not depend on the order of its operands, for any
/// component type whose multiplication does not.
pub proof fn lemma_dot_symmetric<T: Add<Output = T> + Mul<Output = T> + Copy>(lhs: Vector4<T>, rhs: Vector4<T>)
    requires
        forall|a: T, b: T| #[trigger] a.mul_spec(b) == b.mul_spec(a),
    ensures
        Vector4::dot_spec(lhs, rhs) == Vector4::dot_spec(rhs, lhs),
{
}

/// A vector plus its negation is the zero vector, for any component type in
/// which a value plus its negation is zero.
pub proof fn lemma_add_neg_is_zero<T: Add<Output = T> + Neg<Output = T> + From<i8>>(v: Vector4<T>)
    requires
        forall|a: T| #[trigger] a.add_spec(a.neg_spec()) == T::from_spec(0i8),
    ensures
        <Vector4<T> as AddSpec<Vector4<T>>>::add_spec(v, v.neg_spec()) == Vector4::<T>::from_ints(0i8, 0i8, 0i8, 0i8),
{
}

} // verus!
