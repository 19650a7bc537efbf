//! A pair of coordinates, with the arithmetic of its component type.
//!
//! The component type brings its own `+`, `-`, `*` and `/`. What these do is
//! known here only through the specification that the type gives them, so
//! each operation on a pair asks that the operation on the components is
//! allowed and promises the result that the components' operation defines.

use vstd::prelude::*;
use vstd::std_specs::ops::{AddSpec, DivSpec, MulSpec, NegSpec, SubSpec};
use vstd::std_specs::ops::{AddSpecImpl, DivSpecImpl, MulSpecImpl, NegSpecImpl, SubSpecImpl};

verus! {

/// A point or an extent in the plane.
#[derive(Clone, Copy, Debug, PartialEq, Eq)]
pub struct Vec2<T> {
    pub x: T,
    pub y: T,
}

impl<T> Vec2<T> {
    /// The pair `(x, y)`.
    pub fn new(x: T, y: T) -> (v: Self)
        ensures
            v == (Vec2 { x, y }),
    {
        Vec2 { x, y }
    }
}

impl<T: core::ops::Add<Output = T> + core::ops::Mul<Output = T>> Vec2<T> {
    /// The products of the components, added up from the first to the last.
    pub open spec fn products(self, rhs: Self) -> T {
        self.x.mul_spec(rhs.x)
            .add_spec(self.y.mul_spec(rhs.y))
    }

    /// Whether every product and every sum on the way to `products` is
    /// allowed.
    pub open spec fn products_allowed(self, rhs: Self) -> bool {
        &&& self.x.mul_req(rhs.x)
        &&& self.y.mul_req(rhs.y)
        &&& self.x.mul_spec(rhs.x)
            .add_req(self.y.mul_spec(rhs.y))
    }

    /// The inner product with `rhs`: the products of the components, added
    /// up from the first to the last and then added to the component type's
    /// default value.
    pub fn dot(self, rhs: Self) -> (product: T) where T: Copy + Default
        requires
            T::obeys_mul_spec(),
            T::obeys_add_spec(),
            self.products_allowed(rhs),
            forall|zero: T| #[trigger]
                call_ensures(T::default, (), zero) ==> self.products(rhs).add_req(zero),
        ensures
            exists|zero: T| #[trigger]
                call_ensures(T::default, (), zero) && product == self.products(rhs).add_spec(
                    zero,
                ),
    {
        let zero = T::default();
        self.x * rhs.x + self.y * rhs.y + zero
    }
}

impl<T: core::ops::Add<Output = T>> core::ops::Add for Vec2<T> {
    type Output = Self;

    /// The sum, component by component.
    fn add(self, other: Self) -> Self {
        Vec2 { x: self.x + other.x, y: self.y + other.y }
    }
}

impl<T: core::ops::Add<Output = T>> AddSpecImpl for Vec2<T> {
    open spec fn obeys_add_spec() -> bool {
        T::obeys_add_spec()
    }

    open spec fn add_req(self, other: Self) -> bool {
        self.x.add_req(other.x) && self.y.add_req(other.y)
    }

    open spec fn add_spec(self, other: Self) -> Self {
        Vec2 { x: self.x.add_spec(other.x), y: self.y.add_spec(other.y) }
    }
}

impl<T: core::ops::Sub<Output = T>> core::ops::Sub for Vec2<T> {
    type Output = Self;

    /// The difference, component by component.
    fn sub(self, other: Self) -> Self {
        Vec2 { x: self.x - other.x, y: self.y - other.y }
    }
}

impl<T: core::ops::Sub<Output = T>> SubSpecImpl for Vec2<T> {
    open spec fn obeys_sub_spec() -> bool {
        T::obeys_sub_spec()
    }

    open spec fn sub_req(self, other: Self) -> bool {
        self.x.sub_req(other.x) && self.y.sub_req(other.y)
    }

    open spec fn sub_spec(self, other: Self) -> Self {
        Vec2 { x: self.x.sub_spec(other.x), y: self.y.sub_spec(other.y) }
    }
}

impl<T: core::ops::Neg<Output = T>> core::ops::Neg for Vec2<T> {
    type Output = Self;

    /// The opposite pair.
    fn neg(self) -> Self {
        Vec2 { x: self.x.neg(), y: self.y.neg() }
    }
}

impl<T: core::ops::Neg<Output = T>> NegSpecImpl for Vec2<T> {
    open spec fn obeys_neg_spec() -> bool {
        T::obeys_neg_spec()
    }

    open spec fn neg_req(self) -> bool {
        self.x.neg_req() && self.y.neg_req()
    }

    open spec fn neg_spec(self) -> Self {
        Vec2 { x: self.x.neg_spec(), y: self.y.neg_spec() }
    }
}

impl<T: Copy + core::ops::Mul<Output = T>> core::ops::Mul<T> for Vec2<T> {
    type Output = Self;

    /// Both components times `rhs`.
    fn mul(self, rhs: T) -> Self {
        Vec2 { x: self.x * rhs, y: self.y * rhs }
    }
}

impl<T: Copy + core::ops::Mul<Output = T>> MulSpecImpl<T> for Vec2<T> {
    open spec fn obeys_mul_spec() -> bool {
        T::obeys_mul_spec()
    }

    open spec fn mul_req(self, rhs: T) -> bool {
        self.x.mul_req(rhs) && self.y.mul_req(rhs)
    }

    open spec fn mul_spec(self, rhs: T) -> Self {
        Vec2 { x: self.x.mul_spec(rhs), y: self.y.mul_spec(rhs) }
    }
}

impl<T: Copy + core::ops::Div<Output = T>> core::ops::Div<T> for Vec2<T> {
    type Output = Self;

    /// Both components divided by `rhs`.
    fn div(self, rhs: T) -> Self {
        Vec2 { x: self.x / rhs, y: self.y / rhs }
    }
}

impl<T: Copy + core::ops::Div<Output = T>> DivSpecImpl<T> for Vec2<T> {
    open spec fn obeys_div_spec() -> bool {
        T::obeys_div_spec()
    }

    open spec fn div_req(self, rhs: T) -> bool {
        self.x.div_req(rhs) && self.y.div_req(rhs)
    }

    open spec fn div_spec(self, rhs: T) -> Self {
        Vec2 { x: self.x.div_spec(rhs), y: self.y.div_spec(rhs) }
    }
}

impl<T: Default> Default for Vec2<T> {
    /// The pair of the component type's default values.
    fn default() -> (v: Self)
        ensures
            call_ensures(T::default, (), v.x),
            call_ensures(T::default, (), v.y),
    {
        Vec2 { x: T::default(), y: T::default() }
    }
}

} // verus!
