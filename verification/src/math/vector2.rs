use vstd::prelude::*;
use std::ops::{
    Add, AddAssign, Div, DivAssign, Mul, MulAssign, Neg, Rem, RemAssign, Sub, SubAssign,
};
use vstd::std_specs::cmp::{PartialEqSpec, PartialOrdSpec};
use vstd::std_specs::convert::FromSpec;
use vstd::std_specs::ops::{AddSpec, DivSpec, MulSpec, NegSpec, RemSpec, SubSpec};

verus! {

/// A 2-dimensional vector whose components are of type `T`, such as `f32`
/// for positions and sizes on the screen.
///
/// The arithmetic operators work component by component: each component of a
/// result is what the component type's own operator returns on the
/// components, so a vector operation carries whatever the component type
/// promises of its operator. Each one needs what the component type's own
/// operator needs (for an integer type: that the result fits), and where that
/// operator follows its specification (`obeys_add_spec` and the like) the
/// result is exactly the components combined by it.
#[derive(PartialEq, Copy, Clone, Debug)]
pub struct Vector2<T> {
    /// The x component of the vector.
    pub x: T,
    /// The y component of the vector.
    pub y: T,
}

impl<T> Vector2<T> {
    /// Construct a new vector using the provided components.
    pub fn new(x: T, y: T) -> (r: Vector2<T>)
        ensures
            r.x == x,
            r.y == y,
    {
        Vector2 { x, y }
    }
}

impl<T: From<i8>> Vector2<T> {
    /// The vector whose components are the component type's values of the
    /// given small integers.
    pub open spec fn from_ints(x: i8, y: i8) -> Vector2<T> {
        Vector2 { x: T::from_spec(x), y: T::from_spec(y) }
    }

    /// Construct a new vector where all components are 0.
    pub fn zero() -> (r: Vector2<T>)
        ensures
            T::obeys_from_spec() ==> r == Self::from_ints(0i8, 0i8),
    {
        Vector2::new(T::from(0i8), T::from(0i8))
    }

    /// The unit vector pointing up: `y` is 1.
    pub fn up() -> (r: Vector2<T>)
        ensures
            T::obeys_from_spec() ==> r == Self::from_ints(0i8, 1i8),
    {
        Vector2::new(T::from(0i8), T::from(1i8))
    }

    /// The unit vector pointing down: `y` is -1.
    pub fn down() -> (r: Vector2<T>)
        ensures
            T::obeys_from_spec() ==> r == Self::from_ints(0i8, -1i8),
    {
        Vector2::new(T::from(0i8), T::from(-1i8))
    }

    /// The unit vector pointing left: `x` is -1.
    pub fn left() -> (r: Vector2<T>)
        ensures
            T::obeys_from_spec() ==> r == Self::from_ints(-1i8, 0i8),
    {
        Vector2::new(T::from(-1i8), T::from(0i8))
    }

    /// The unit vector pointing right: `x` is 1.
    pub fn right() -> (r: Vector2<T>)
        ensures
            T::obeys_from_spec() ==> r == Self::from_ints(1i8, 0i8),
    {
        Vector2::new(T::from(1i8), T::from(0i8))
    }
}

impl<T: From<i8> + PartialEq> Vector2<T> {
    /// Whether each component compares equal, by the component type's `==`,
    /// to the component type's value of the given small integer.
    pub open spec fn equals_ints(self, x: i8, y: i8) -> bool {
        self.x.eq_spec(&T::from_spec(x)) && self.y.eq_spec(&T::from_spec(y))
    }

    /// Check if the vector is zero.
    pub fn is_zero(self) -> (r: bool)
        ensures
            T::obeys_from_spec() && T::obeys_eq_spec() ==> r == self.equals_ints(0i8, 0i8),
    {
        self.x == T::from(0i8) && self.y == T::from(0i8)
    }

    /// Check if the vector is the unit vector pointing up.
    pub fn is_up(self) -> (r: bool)
        ensures
            T::obeys_from_spec() && T::obeys_eq_spec() ==> r == self.equals_ints(0i8, 1i8),
    {
        self.x == T::from(0i8) && self.y == T::from(1i8)
    }

    /// Check if the vector is the unit vector pointing down.
    pub fn is_down(self) -> (r: bool)
        ensures
            T::obeys_from_spec() && T::obeys_eq_spec() ==> r == self.equals_ints(0i8, -1i8),
    {
        self.x == T::from(0i8) && self.y == T::from(-1i8)
    }

    /// Check if the vector is the unit vector pointing left.
    pub fn is_left(self) -> (r: bool)
        ensures
            T::obeys_from_spec() && T::obeys_eq_spec() ==> r == self.equals_ints(-1i8, 0i8),
    {
        self.x == T::from(-1i8) && self.y == T::from(0i8)
    }

    /// Check if the vector is the unit vector pointing right.
    pub fn is_right(self) -> (r: bool)
        ensures
            T::obeys_from_spec() && T::obeys_eq_spec() ==> r == self.equals_ints(1i8, 0i8),
    {
        self.x == T::from(1i8) && self.y == T::from(0i8)
    }

}

impl<T: Add<Output = T> + Copy> Vector2<T> {
    /// The sum of the components as the component type's `+` specifies it,
    /// taken from left to right.
    pub open spec fn sum_spec(self) -> T {
        self.x.add_spec(self.y)
    }

    /// Calculate the sum of the components of the vector.
    pub fn sum(self) -> (r: T)
        requires
            self.x.add_req(self.y),
        ensures
            call_ensures(T::add, (self.x, self.y), r),
            T::obeys_add_spec() ==> r == self.sum_spec(),
    {
        self.x + self.y
    }
}

impl<T: Mul<Output = T> + Copy> Vector2<T> {
    /// The product of the components as the component type's `*` specifies it,
    /// taken from left to right.
    pub open spec fn product_spec(self) -> T {
        self.x.mul_spec(self.y)
    }

    /// Calculate the product of the components of the vector.
    pub fn product(self) -> (r: T)
        requires
            self.x.mul_req(self.y),
        ensures
            call_ensures(T::mul, (self.x, self.y), r),
            T::obeys_mul_spec() ==> r == self.product_spec(),
    {
        self.x * self.y
    }
}

impl<T: Add<Output = T> + Mul<Output = T> + Copy> Vector2<T> {
    /// The dot product of `lhs` and `rhs` as the component type's operators
    /// specify it: the sum, from left to right, of the pairwise products.
    pub open spec fn dot_spec(lhs: Vector2<T>, rhs: Vector2<T>) -> T {
        lhs.x.mul_spec(rhs.x).add_spec(lhs.y.mul_spec(rhs.y))
    }

    /// Get the dot product of two vectors: `lhs.x * rhs.x` + `lhs.y * rhs.y`.
    ///
    /// The sum must be allowed on the two products: on the products as the
    /// multiplication specifies them where it follows its specification, and
    /// on any two values where it does not.
    pub fn dot(lhs: Vector2<T>, rhs: Vector2<T>) -> (r: T)
        requires
            lhs.x.mul_req(rhs.x),
            lhs.y.mul_req(rhs.y),
            T::obeys_mul_spec() ==> lhs.x.mul_spec(rhs.x).add_req(lhs.y.mul_spec(rhs.y)),
            !T::obeys_mul_spec() ==> forall|a: T, b: T| a.add_req(b),
        ensures
            exists|p_x: T, p_y: T|
                #![trigger
                    call_ensures(T::mul, (lhs.x, rhs.x), p_x),
                    call_ensures(T::mul, (lhs.y, rhs.y), p_y),
                ]
                call_ensures(T::mul, (lhs.x, rhs.x), p_x)
                    && call_ensures(T::mul, (lhs.y, rhs.y), p_y)
                    && call_ensures(T::add, (p_x, p_y), r),
            T::obeys_mul_spec() && T::obeys_add_spec() ==> r == Self::dot_spec(lhs, rhs),
    {
        let p_x = lhs.x * rhs.x;
        let p_y = lhs.y * rhs.y;
        p_x + p_y
    }
}

impl<T: PartialOrd + Copy> Vector2<T> {
    /// Get the smallest component of the vector: `x` when it compares less
    /// than `y`, and `y` otherwise.
    pub fn min(self) -> (r: T)
        ensures
            r == self.x || r == self.y,
            exists|lt: bool| #[trigger] call_ensures(T::lt, (&self.x, &self.y), lt) && r == (if lt {
                self.x
            } else {
                self.y
            }),
            T::obeys_partial_cmp_spec() ==> (r == if self.x.partial_cmp_spec(&self.y) == Some(
                core::cmp::Ordering::Less,
            ) {
                self.x
            } else {
                self.y
            }),
    {
        if self.x < self.y {
            self.x
        } else {
            self.y
        }
    }

    /// Get the largest component of the vector: `x` when it compares greater
    /// than `y`, and `y` otherwise.
    pub fn max(self) -> (r: T)
        ensures
            r == self.x || r == self.y,
            exists|gt: bool| #[trigger] call_ensures(T::gt, (&self.x, &self.y), gt) && r == (if gt {
                self.x
            } else {
                self.y
            }),
            T::obeys_partial_cmp_spec() ==> (r == if self.x.partial_cmp_spec(&self.y) == Some(
                core::cmp::Ordering::Greater,
            ) {
                self.x
            } else {
                self.y
            }),
    {
        if self.x > self.y {
            self.x
        } else {
            self.y
        }
    }
}

impl<T: Default> Default for Vector2<T> {
    /// The vector whose components are all the component type's default,
    /// which for the number types is zero.
    fn default() -> (r: Vector2<T>)
        ensures
            call_ensures(T::default, (), r.x),
            call_ensures(T::default, (), r.y),
    {
        Vector2 { x: T::default(), y: T::default() }
    }
}

impl<T: Neg<Output = T>> Neg for Vector2<T> {
    type Output = Vector2<T>;

    /// Flip the sign of every component of the vector.
    fn neg(self) -> (r: Vector2<T>)
        ensures
            call_ensures(T::neg, (self.x,), r.x),
            call_ensures(T::neg, (self.y,), r.y),
            T::obeys_neg_spec() ==> r == (Vector2 { x: self.x.neg_spec(), y: self.y.neg_spec() }),
    {
        Vector2 { x: self.x.neg(), y: self.y.neg() }
    }
}

impl<T: Neg<Output = T>> vstd::std_specs::ops::NegSpecImpl for Vector2<T> {
    open spec fn obeys_neg_spec() -> bool {
        T::obeys_neg_spec()
    }

    open spec fn neg_req(self) -> bool {
        self.x.neg_req() && self.y.neg_req()
    }

    open spec fn neg_spec(self) -> Vector2<T> {
        Vector2 { x: self.x.neg_spec(), y: self.y.neg_spec() }
    }
}

impl<T: Add<Output = T>> Add<Vector2<T>> for Vector2<T> {
    type Output = Vector2<T>;

    /// Add the components of two vectors pairwise.
    fn add(self, rhs: Vector2<T>) -> (r: Vector2<T>)
        ensures
            call_ensures(T::add, (self.x, rhs.x), r.x),
            call_ensures(T::add, (self.y, rhs.y), r.y),
            T::obeys_add_spec() ==> r == (Vector2 { x: self.x.add_spec(rhs.x), y: self.y.add_spec(rhs.y) }),
    {
        Vector2 { x: self.x + rhs.x, y: self.y + rhs.y }
    }
}

impl<T: Add<Output = T>> vstd::std_specs::ops::AddSpecImpl<Vector2<T>> for Vector2<T> {
    open spec fn obeys_add_spec() -> bool {
        T::obeys_add_spec()
    }

    open spec fn add_req(self, rhs: Vector2<T>) -> bool {
        self.x.add_req(rhs.x) && self.y.add_req(rhs.y)
    }

    open spec fn add_spec(self, rhs: Vector2<T>) -> Vector2<T> {
        Vector2 { x: self.x.add_spec(rhs.x), y: self.y.add_spec(rhs.y) }
    }
}

impl<T: Add<Output = T> + Copy> AddAssign<Vector2<T>> for Vector2<T> {
    /// Add the components of two vectors pairwise. The vector is replaced by the result.
    fn add_assign(&mut self, rhs: Vector2<T>)
        requires
            old(self).x.add_req(rhs.x),
            old(self).y.add_req(rhs.y),
        ensures
            call_ensures(T::add, (old(self).x, rhs.x), final(self).x),
            call_ensures(T::add, (old(self).y, rhs.y), final(self).y),
            T::obeys_add_spec() ==> *final(self) == <Vector2<T> as AddSpec<Vector2<T>>>::add_spec(*old(self), rhs),
            T::obeys_add_spec() ==> final(self).x == old(self).x.add_spec(rhs.x),
            T::obeys_add_spec() ==> final(self).y == old(self).y.add_spec(rhs.y),
    {
        self.x = self.x + rhs.x;
        self.y = self.y + rhs.y;
    }
}

impl<T: Add<Output = T> + Copy> Add<T> for Vector2<T> {
    type Output = Vector2<T>;

    /// Add a scalar to each component.
    fn add(self, rhs: T) -> (r: Vector2<T>)
        ensures
            call_ensures(T::add, (self.x, rhs), r.x),
            call_ensures(T::add, (self.y, rhs), r.y),
            T::obeys_add_spec() ==> r == (Vector2 { x: self.x.add_spec(rhs), y: self.y.add_spec(rhs) }),
    {
        Vector2 { x: self.x + rhs, y: self.y + rhs }
    }
}

impl<T: Add<Output = T> + Copy> vstd::std_specs::ops::AddSpecImpl<T> for Vector2<T> {
    open spec fn obeys_add_spec() -> bool {
        T::obeys_add_spec()
    }

    open spec fn add_req(self, rhs: T) -> bool {
        self.x.add_req(rhs) && self.y.add_req(rhs)
    }

    open spec fn add_spec(self, rhs: T) -> Vector2<T> {
        Vector2 { x: self.x.add_spec(rhs), y: self.y.add_spec(rhs) }
    }
}

impl<T: Add<Output = T> + Copy> AddAssign<T> for Vector2<T> {
    /// Add a scalar to each component. The vector is replaced by the result.
    fn add_assign(&mut self, rhs: T)
        requires
            old(self).x.add_req(rhs),
            old(self).y.add_req(rhs),
        ensures
            call_ensures(T::add, (old(self).x, rhs), final(self).x),
            call_ensures(T::add, (old(self).y, rhs), final(self).y),
            T::obeys_add_spec() ==> *final(self) == <Vector2<T> as AddSpec<T>>::add_spec(*old(self), rhs),
            T::obeys_add_spec() ==> final(self).x == old(self).x.add_spec(rhs),
            T::obeys_add_spec() ==> final(self).y == old(self).y.add_spec(rhs),
    {
        self.x = self.x + rhs;
        self.y = self.y + rhs;
    }
}

impl<T: Sub<Output = T>> Sub<Vector2<T>> for Vector2<T> {
    type Output = Vector2<T>;

    /// Subtract the components of `rhs` from those of the vector pairwise.
    fn sub(self, rhs: Vector2<T>) -> (r: Vector2<T>)
        ensures
            call_ensures(T::sub, (self.x, rhs.x), r.x),
            call_ensures(T::sub, (self.y, rhs.y), r.y),
            T::obeys_sub_spec() ==> r == (Vector2 { x: self.x.sub_spec(rhs.x), y: self.y.sub_spec(rhs.y) }),
    {
        Vector2 { x: self.x - rhs.x, y: self.y - rhs.y }
    }
}

impl<T: Sub<Output = T>> vstd::std_specs::ops::SubSpecImpl<Vector2<T>> for Vector2<T> {
    open spec fn obeys_sub_spec() -> bool {
        T::obeys_sub_spec()
    }

    open spec fn sub_req(self, rhs: Vector2<T>) -> bool {
        self.x.sub_req(rhs.x) && self.y.sub_req(rhs.y)
    }

    open spec fn sub_spec(self, rhs: Vector2<T>) -> Vector2<T> {
        Vector2 { x: self.x.sub_spec(rhs.x), y: self.y.sub_spec(rhs.y) }
    }
}

impl<T: Sub<Output = T> + Copy> SubAssign<Vector2<T>> for Vector2<T> {
    /// Subtract the components of `rhs` from those of the vector pairwise. The vector is replaced by the result.
    fn sub_assign(&mut self, rhs: Vector2<T>)
        requires
            old(self).x.sub_req(rhs.x),
            old(self).y.sub_req(rhs.y),
        ensures
            call_ensures(T::sub, (old(self).x, rhs.x), final(self).x),
            call_ensures(T::sub, (old(self).y, rhs.y), final(self).y),
            T::obeys_sub_spec() ==> *final(self) == <Vector2<T> as SubSpec<Vector2<T>>>::sub_spec(*old(self), rhs),
            T::obeys_sub_spec() ==> final(self).x == old(self).x.sub_spec(rhs.x),
            T::obeys_sub_spec() ==> final(self).y == old(self).y.sub_spec(rhs.y),
    {
        self.x = self.x - rhs.x;
        self.y = self.y - rhs.y;
    }
}

impl<T: Sub<Output = T> + Copy> Sub<T> for Vector2<T> {
    type Output = Vector2<T>;

    /// Subtract a scalar from each component.
    fn sub(self, rhs: T) -> (r: Vector2<T>)
        ensures
            call_ensures(T::sub, (self.x, rhs), r.x),
            call_ensures(T::sub, (self.y, rhs), r.y),
            T::obeys_sub_spec() ==> r == (Vector2 { x: self.x.sub_spec(rhs), y: self.y.sub_spec(rhs) }),
    {
        Vector2 { x: self.x - rhs, y: self.y - rhs }
    }
}

impl<T: Sub<Output = T> + Copy> vstd::std_specs::ops::SubSpecImpl<T> for Vector2<T> {
    open spec fn obeys_sub_spec() -> bool {
        T::obeys_sub_spec()
    }

    open spec fn sub_req(self, rhs: T) -> bool {
        self.x.sub_req(rhs) && self.y.sub_req(rhs)
    }

    open spec fn sub_spec(self, rhs: T) -> Vector2<T> {
        Vector2 { x: self.x.sub_spec(rhs), y: self.y.sub_spec(rhs) }
    }
}

impl<T: Sub<Output = T> + Copy> SubAssign<T> for Vector2<T> {
    /// Subtract a scalar from each component. The vector is replaced by the result.
    fn sub_assign(&mut self, rhs: T)
        requires
            old(self).x.sub_req(rhs),
            old(self).y.sub_req(rhs),
        ensures
            call_ensures(T::sub, (old(self).x, rhs), final(self).x),
            call_ensures(T::sub, (old(self).y, rhs), final(self).y),
            T::obeys_sub_spec() ==> *final(self) == <Vector2<T> as SubSpec<T>>::sub_spec(*old(self), rhs),
            T::obeys_sub_spec() ==> final(self).x == old(self).x.sub_spec(rhs),
            T::obeys_sub_spec() ==> final(self).y == old(self).y.sub_spec(rhs),
    {
        self.x = self.x - rhs;
        self.y = self.y - rhs;
    }
}

impl<T: Mul<Output = T>> Mul<Vector2<T>> for Vector2<T> {
    type Output = Vector2<T>;

    /// Multiply the components of two vectors pairwise.
    fn mul(self, rhs: Vector2<T>) -> (r: Vector2<T>)
        ensures
            call_ensures(T::mul, (self.x, rhs.x), r.x),
            call_ensures(T::mul, (self.y, rhs.y), r.y),
            T::obeys_mul_spec() ==> r == (Vector2 { x: self.x.mul_spec(rhs.x), y: self.y.mul_spec(rhs.y) }),
    {
        Vector2 { x: self.x * rhs.x, y: self.y * rhs.y }
    }
}

impl<T: Mul<Output = T>> vstd::std_specs::ops::MulSpecImpl<Vector2<T>> for Vector2<T> {
    open spec fn obeys_mul_spec() -> bool {
        T::obeys_mul_spec()
    }

    open spec fn mul_req(self, rhs: Vector2<T>) -> bool {
        self.x.mul_req(rhs.x) && self.y.mul_req(rhs.y)
    }

    open spec fn mul_spec(self, rhs: Vector2<T>) -> Vector2<T> {
        Vector2 { x: self.x.mul_spec(rhs.x), y: self.y.mul_spec(rhs.y) }
    }
}

impl<T: Mul<Output = T> + Copy> MulAssign<Vector2<T>> for Vector2<T> {
    /// Multiply the components of two vectors pairwise. The vector is replaced by the result.
    fn mul_assign(&mut self, rhs: Vector2<T>)
        requires
            old(self).x.mul_req(rhs.x),
            old(self).y.mul_req(rhs.y),
        ensures
            call_ensures(T::mul, (old(self).x, rhs.x), final(self).x),
            call_ensures(T::mul, (old(self).y, rhs.y), final(self).y),
            T::obeys_mul_spec() ==> *final(self) == <Vector2<T> as MulSpec<Vector2<T>>>::mul_spec(*old(self), rhs),
            T::obeys_mul_spec() ==> final(self).x == old(self).x.mul_spec(rhs.x),
            T::obeys_mul_spec() ==> final(self).y == old(self).y.mul_spec(rhs.y),
    {
        self.x = self.x * rhs.x;
        self.y = self.y * rhs.y;
    }
}

impl<T: Mul<Output = T> + Copy> Mul<T> for Vector2<T> {
    type Output = Vector2<T>;

    /// Multiply each component by a scalar.
    fn mul(self, rhs: T) -> (r: Vector2<T>)
        ensures
            call_ensures(T::mul, (self.x, rhs), r.x),
            call_ensures(T::mul, (self.y, rhs), r.y),
            T::obeys_mul_spec() ==> r == (Vector2 { x: self.x.mul_spec(rhs), y: self.y.mul_spec(rhs) }),
    {
        Vector2 { x: self.x * rhs, y: self.y * rhs }
    }
}

impl<T: Mul<Output = T> + Copy> vstd::std_specs::ops::MulSpecImpl<T> for Vector2<T> {
    open spec fn obeys_mul_spec() -> bool {
        T::obeys_mul_spec()
    }

    open spec fn mul_req(self, rhs: T) -> bool {
        self.x.mul_req(rhs) && self.y.mul_req(rhs)
    }

    open spec fn mul_spec(self, rhs: T) -> Vector2<T> {
        Vector2 { x: self.x.mul_spec(rhs), y: self.y.mul_spec(rhs) }
    }
}

impl<T: Mul<Output = T> + Copy> MulAssign<T> for Vector2<T> {
    /// Multiply each component by a scalar. The vector is replaced by the result.
    fn mul_assign(&mut self, rhs: T)
        requires
            old(self).x.mul_req(rhs),
            old(self).y.mul_req(rhs),
        ensures
            call_ensures(T::mul, (old(self).x, rhs), final(self).x),
            call_ensures(T::mul, (old(self).y, rhs), final(self).y),
            T::obeys_mul_spec() ==> *final(self) == <Vector2<T> as MulSpec<T>>::mul_spec(*old(self), rhs),
            T::obeys_mul_spec() ==> final(self).x == old(self).x.mul_spec(rhs),
            T::obeys_mul_spec() ==> final(self).y == old(self).y.mul_spec(rhs),
    {
        self.x = self.x * rhs;
        self.y = self.y * rhs;
    }
}

impl<T: Div<Output = T>> Div<Vector2<T>> for Vector2<T> {
    type Output = Vector2<T>;

    /// Divide the components of the vector by those of `rhs` pairwise.
    fn div(self, rhs: Vector2<T>) -> (r: Vector2<T>)
        ensures
            call_ensures(T::div, (self.x, rhs.x), r.x),
            call_ensures(T::div, (self.y, rhs.y), r.y),
            T::obeys_div_spec() ==> r == (Vector2 { x: self.x.div_spec(rhs.x), y: self.y.div_spec(rhs.y) }),
    {
        Vector2 { x: self.x / rhs.x, y: self.y / rhs.y }
    }
}

impl<T: Div<Output = T>> vstd::std_specs::ops::DivSpecImpl<Vector2<T>> for Vector2<T> {
    open spec fn obeys_div_spec() -> bool {
        T::obeys_div_spec()
    }

    open spec fn div_req(self, rhs: Vector2<T>) -> bool {
        self.x.div_req(rhs.x) && self.y.div_req(rhs.y)
    }

    open spec fn div_spec(self, rhs: Vector2<T>) -> Vector2<T> {
        Vector2 { x: self.x.div_spec(rhs.x), y: self.y.div_spec(rhs.y) }
    }
}

impl<T: Div<Output = T> + Copy> DivAssign<Vector2<T>> for Vector2<T> {
    /// Divide the components of the vector by those of `rhs` pairwise. The vector is replaced by the result.
    fn div_assign(&mut self, rhs: Vector2<T>)
        requires
            old(self).x.div_req(rhs.x),
            old(self).y.div_req(rhs.y),
        ensures
            call_ensures(T::div, (old(self).x, rhs.x), final(self).x),
            call_ensures(T::div, (old(self).y, rhs.y), final(self).y),
            T::obeys_div_spec() ==> *final(self) == <Vector2<T> as DivSpec<Vector2<T>>>::div_spec(*old(self), rhs),
            T::obeys_div_spec() ==> final(self).x == old(self).x.div_spec(rhs.x),
            T::obeys_div_spec() ==> final(self).y == old(self).y.div_spec(rhs.y),
    {
        self.x = self.x / rhs.x;
        self.y = self.y / rhs.y;
    }
}

impl<T: Div<Output = T> + Copy> Div<T> for Vector2<T> {
    type Output = Vector2<T>;

    /// Divide each component by a scalar.
    fn div(self, rhs: T) -> (r: Vector2<T>)
        ensures
            call_ensures(T::div, (self.x, rhs), r.x),
            call_ensures(T::div, (self.y, rhs), r.y),
            T::obeys_div_spec() ==> r == (Vector2 { x: self.x.div_spec(rhs), y: self.y.div_spec(rhs) }),
    {
        Vector2 { x: self.x / rhs, y: self.y / rhs }
    }
}

impl<T: Div<Output = T> + Copy> vstd::std_specs::ops::DivSpecImpl<T> for Vector2<T> {
    open spec fn obeys_div_spec() -> bool {
        T::obeys_div_spec()
    }

    open spec fn div_req(self, rhs: T) -> bool {
        self.x.div_req(rhs) && self.y.div_req(rhs)
    }

    open spec fn div_spec(self, rhs: T) -> Vector2<T> {
        Vector2 { x: self.x.div_spec(rhs), y: self.y.div_spec(rhs) }
    }
}

impl<T: Div<Output = T> + Copy> DivAssign<T> for Vector2<T> {
    /// Divide each component by a scalar. The vector is replaced by the result.
    fn div_assign(&mut self, rhs: T)
        requires
            old(self).x.div_req(rhs),
            old(self).y.div_req(rhs),
        ensures
            call_ensures(T::div, (old(self).x, rhs), final(self).x),
            call_ensures(T::div, (old(self).y, rhs), final(self).y),
            T::obeys_div_spec() ==> *final(self) == <Vector2<T> as DivSpec<T>>::div_spec(*old(self), rhs),
            T::obeys_div_spec() ==> final(self).x == old(self).x.div_spec(rhs),
            T::obeys_div_spec() ==> final(self).y == old(self).y.div_spec(rhs),
    {
        self.x = self.x / rhs;
        self.y = self.y / rhs;
    }
}

impl<T: Rem<Output = T>> Rem<Vector2<T>> for Vector2<T> {
    type Output = Vector2<T>;

    /// The pairwise remainder of the components of the vector by those of `rhs`.
    fn rem(self, rhs: Vector2<T>) -> (r: Vector2<T>)
        ensures
            call_ensures(T::rem, (self.x, rhs.x), r.x),
            call_ensures(T::rem, (self.y, rhs.y), r.y),
            T::obeys_rem_spec() ==> r == (Vector2 { x: self.x.rem_spec(rhs.x), y: self.y.rem_spec(rhs.y) }),
    {
        Vector2 { x: self.x % rhs.x, y: self.y % rhs.y }
    }
}

impl<T: Rem<Output = T>> vstd::std_specs::ops::RemSpecImpl<Vector2<T>> for Vector2<T> {
    open spec fn obeys_rem_spec() -> bool {
        T::obeys_rem_spec()
    }

    open spec fn rem_req(self, rhs: Vector2<T>) -> bool {
        self.x.rem_req(rhs.x) && self.y.rem_req(rhs.y)
    }

    open spec fn rem_spec(self, rhs: Vector2<T>) -> Vector2<T> {
        Vector2 { x: self.x.rem_spec(rhs.x), y: self.y.rem_spec(rhs.y) }
    }
}

impl<T: Rem<Output = T> + Copy> RemAssign<Vector2<T>> for Vector2<T> {
    /// The pairwise remainder of the components of the vector by those of `rhs`. The vector is replaced by the result.
    fn rem_assign(&mut self, rhs: Vector2<T>)
        requires
            old(self).x.rem_req(rhs.x),
            old(self).y.rem_req(rhs.y),
        ensures
            call_ensures(T::rem, (old(self).x, rhs.x), final(self).x),
            call_ensures(T::rem, (old(self).y, rhs.y), final(self).y),
            T::obeys_rem_spec() ==> *final(self) == <Vector2<T> as RemSpec<Vector2<T>>>::rem_spec(*old(self), rhs),
            T::obeys_rem_spec() ==> final(self).x == old(self).x.rem_spec(rhs.x),
            T::obeys_rem_spec() ==> final(self).y == old(self).y.rem_spec(rhs.y),
    {
        self.x = self.x % rhs.x;
        self.y = self.y % rhs.y;
    }
}

impl<T: Rem<Output = T> + Copy> Rem<T> for Vector2<T> {
    type Output = Vector2<T>;

    /// The remainder of each component by a scalar.
    fn rem(self, rhs: T) -> (r: Vector2<T>)
        ensures
            call_ensures(T::rem, (self.x, rhs), r.x),
            call_ensures(T::rem, (self.y, rhs), r.y),
            T::obeys_rem_spec() ==> r == (Vector2 { x: self.x.rem_spec(rhs), y: self.y.rem_spec(rhs) }),
    {
        Vector2 { x: self.x % rhs, y: self.y % rhs }
    }
}

impl<T: Rem<Output = T> + Copy> vstd::std_specs::ops::RemSpecImpl<T> for Vector2<T> {
    open spec fn obeys_rem_spec() -> bool {
        T::obeys_rem_spec()
    }

    open spec fn rem_req(self, rhs: T) -> bool {
        self.x.rem_req(rhs) && self.y.rem_req(rhs)
    }

    open spec fn rem_spec(self, rhs: T) -> Vector2<T> {
        Vector2 { x: self.x.rem_spec(rhs), y: self.y.rem_spec(rhs) }
    }
}

impl<T: Rem<Output = T> + Copy> RemAssign<T> for Vector2<T> {
    /// The remainder of each component by a scalar. The vector is replaced by the result.
    fn rem_assign(&mut self, rhs: T)
        requires
            old(self).x.rem_req(rhs),
            old(self).y.rem_req(rhs),
        ensures
            call_ensures(T::rem, (old(self).x, rhs), final(self).x),
            call_ensures(T::rem, (old(self).y, rhs), final(self).y),
            T::obeys_rem_spec() ==> *final(self) == <Vector2<T> as RemSpec<T>>::rem_spec(*old(self), rhs),
            T::obeys_rem_spec() ==> final(self).x == old(self).x.rem_spec(rhs),
            T::obeys_rem_spec() ==> final(self).y == old(self).y.rem_spec(rhs),
    {
        self.x = self.x % rhs;
        self.y = self.y % rhs;
    }
}

impl<T: Copy> From<[T; 2]> for Vector2<T> {
    /// The vector whose components are the items of the array, in order.
    fn from(lhs: [T; 2]) -> (r: Vector2<T>)
        ensures
            r == (Vector2 { x: lhs[0], y: lhs[1] }),
    {
        Vector2 { x: lhs[0], y: lhs[1] }
    }
}

impl<T: Copy> vstd::std_specs::convert::FromSpecImpl<[T; 2]> for Vector2<T> {
    open spec fn obeys_from_spec() -> bool {
        true
    }

    open spec fn from_spec(lhs: [T; 2]) -> Vector2<T> {
        Vector2 { x: lhs[0], y: lhs[1] }
    }
}

impl<T> From<(T, T)> for Vector2<T> {
    /// The vector whose components are the items of the tuple, in order.
    fn from(lhs: (T, T)) -> (r: Vector2<T>)
        ensures
            r == (Vector2 { x: lhs.0, y: lhs.1 }),
    {
        let (x, y) = lhs;
        Vector2 { x, y }
    }
}

impl<T> vstd::std_specs::convert::FromSpecImpl<(T, T)> for Vector2<T> {
    open spec fn obeys_from_spec() -> bool {
        true
    }

    open spec fn from_spec(lhs: (T, T)) -> Vector2<T> {
        Vector2 { x: lhs.0, y: lhs.1 }
    }
}

impl<T> From<Vector2<T>> for [T; 2] {
    /// The array of the components, in order.
    fn from(lhs: Vector2<T>) -> (r: [T; 2])
        ensures
            r == [lhs.x, lhs.y],
    {
        [lhs.x, lhs.y]
    }
}

impl<T> vstd::std_specs::convert::FromSpecImpl<Vector2<T>> for [T; 2] {
    open spec fn obeys_from_spec() -> bool {
        true
    }

    open spec fn from_spec(lhs: Vector2<T>) -> [T; 2] {
        [lhs.x, lhs.y]
    }
}

impl<T> From<Vector2<T>> for (T, T) {
    /// The tuple of the components, in order.
    fn from(lhs: Vector2<T>) -> (r: (T, T))
        ensures
            r == (lhs.x, lhs.y),
    {
        (lhs.x, lhs.y)
    }
}

impl<T> vstd::std_specs::convert::FromSpecImpl<Vector2<T>> for (T, T) {
    open spec fn obeys_from_spec() -> bool {
        true
    }

    open spec fn from_spec(lhs: Vector2<T>) -> (T, T) {
        (lhs.x, lhs.y)
    }
}

/// An operation of a vector with a scalar is the same operation with the
/// vector whose components all equal the scalar: it is allowed on the same
/// inputs and gives the same result.
pub proof fn lemma_scalar_ops_act_on_every_component<T: Add<Output = T> + Sub<Output = T> + Mul<Output = T> + Div<Output = T> + Rem<Output = T> + Copy>(v: Vector2<T>, s: T)
    ensures
        <Vector2<T> as AddSpec<T>>::add_req(v, s) == <Vector2<T> as AddSpec<Vector2<T>>>::add_req(v, Vector2 { x: s, y: s }),
        <Vector2<T> as SubSpec<T>>::sub_req(v, s) == <Vector2<T> as SubSpec<Vector2<T>>>::sub_req(v, Vector2 { x: s, y: s }),
        <Vector2<T> as MulSpec<T>>::mul_req(v, s) == <Vector2<T> as MulSpec<Vector2<T>>>::mul_req(v, Vector2 { x: s, y: s }),
        <Vector2<T> as DivSpec<T>>::div_req(v, s) == <Vector2<T> as DivSpec<Vector2<T>>>::div_req(v, Vector2 { x: s, y: s }),
        <Vector2<T> as RemSpec<T>>::rem_req(v, s) == <Vector2<T> as RemSpec<Vector2<T>>>::rem_req(v, Vector2 { x: s, y: s }),
        <Vector2<T> as AddSpec<T>>::add_spec(v, s) == <Vector2<T> as AddSpec<Vector2<T>>>::add_spec(v, Vector2 { x: s, y: s }),
        <Vector2<T> as SubSpec<T>>::sub_spec(v, s) == <Vector2<T> as SubSpec<Vector2<T>>>::sub_spec(v, Vector2 { x: s, y: s }),
        <Vector2<T> as MulSpec<T>>::mul_spec(v, s) == <Vector2<T> as MulSpec<Vector2<T>>>::mul_spec(v, Vector2 { x: s, y: s }),
        <Vector2<T> as DivSpec<T>>::div_spec(v, s) == <Vector2<T> as DivSpec<Vector2<T>>>::div_spec(v, Vector2 { x: s, y: s }),
        <Vector2<T> as RemSpec<T>>::rem_spec(v, s) == <Vector2<T> as RemSpec<Vector2<T>>>::rem_spec(v, Vector2 { x: s, y: s }),
{
}

/// The dot product is the sum of the components of the pairwise product.
pub proof fn lemma_dot_is_sum_of_pairwise_product<T: Add<Output = T> + Mul<Output = T> + Copy>(
    lhs: Vector2<T>,
    rhs: Vector2<T>,
)
    ensures
        Vector2::dot_spec(lhs, rhs) == <Vector2<T> as MulSpec<Vector2<T>>>::mul_spec(lhs, rhs).sum_spec(),
{
}

/// Turning a vector into an array, or into a tuple, and back gives the vector
/// again.
pub proof fn lemma_conversions_round_trip<T: Copy>(v: Vector2<T>)
    ensures
        <Vector2<T> as FromSpec<[T; 2]>>::from_spec(<[T; 2] as FromSpec<Vector2<T>>>::from_spec(v)) == v,
        <Vector2<T> as FromSpec<(T, T)>>::from_spec(<(T, T) as FromSpec<Vector2<T>>>::from_spec(v)) == v,
{
}

/// Negating twice gives the vector back, for any component type whose
/// negation does so.
pub proof fn lemma_neg_twice<T: Neg<Output = T>>(v: Vector2<T>)
    requires
        forall|a: T| #[trigger] a.neg_spec().neg_spec() == a,
    ensures
        v.neg_spec().neg_spec() == v,
{
}

/// Subtracting what was added gives the vector back, for any component type
/// whose subtraction undoes its addition.
pub proof fn lemma_sub_undoes_add<T: Add<Output = T> + Sub<Output = T> + Copy>(v: Vector2<T>, w: Vector2<T>)
    requires
        forall|a: T, b: T| #[trigger] a.add_spec(b).sub_spec(b) == a,
    ensures
        <Vector2<T> as SubSpec<Vector2<T>>>::sub_spec(<Vector2<T> as AddSpec<Vector2<T>>>::add_spec(v, w), w) == v,
{
}

/// Adding vectors does not depend on their order, for any component type
/// whose addition does not.
pub proof fn lemma_add_commutes<T: Add<Output = T>>(v: Vector2<T>, w: Vector2<T>)
    requires
        forall|a: T, b: T| #[trigger] a.add_spec(b) == b.add_spec(a),
    ensures
        <Vector2<T> as AddSpec<Vector2<T>>>::add_spec(v, w) == <Vector2<T> as AddSpec<Vector2<T>>>::add_spec(w, v),
{
}

/// The dot product does not depend on the order of its operands, for any
/// component type whose multiplication does not.
pub proof fn lemma_dot_symmetric<T: Add<Output = T> + Mul<Output = T> + Copy>(lhs: Vector2<T>, rhs: Vector2<T>)
    requires
        forall|a: T, b: T| #[trigger] a.mul_spec(b) == b.mul_spec(a),
    ensures
        Vector2::dot_spec(lhs, rhs) == Vector2::dot_spec(rhs, lhs),
{
}

/// A vector plus its negation is the zero vector, for any component type in
/// which a value plus its negation is zero.
pub proof fn lemma_add_neg_is_zero<T: Add<Output = T> + Neg<Output = T> + From<i8>>(v: Vector2<T>)
    requires
        forall|a: T| #[trigger] a.add_spec(a.neg_spec()) == T::from_spec(0i8),
    ensures
        <Vector2<T> as AddSpec<Vector2<T>>>::add_spec(v, v.neg_spec()) == Vector2::<T>::from_ints(0i8, 0i8),
{
}

} // verus!
