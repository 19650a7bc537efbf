//! Four coordinates, with the arithmetic of its component type.

use vstd::prelude::*;
use vstd::std_specs::ops::{AddSpec, MulSpec, NegSpec, SubSpec};
use vstd::std_specs::ops::{AddSpecImpl, NegSpecImpl, SubSpecImpl};

verus! {

/// A point in four dimensions, or a point in space with a weight.
#[derive(Clone, Copy, Debug, PartialEq, Eq)]
pub struct Vec4<T> {
    pub x: T,
    pub y: T,
    pub z: T,
    pub w: T,
}

impl<T> Vec4<T> {
    /// The components in the order given.
    pub fn new(x: T, y: T, z: T, w: T) -> (v: Self)
        ensures
            v == (Vec4 { x, y, z, w }),
    {
        Vec4 { x, y, z, w }
    }
}

impl<T: core::ops::Add<Output = T> + core::ops::Mul<Output = T>> Vec4<T> {
    /// The products of the components, added up from the first to the last.
    pub open spec fn products(self, rhs: Self) -> T {
        self.x.mul_spec(rhs.x)
            .add_spec(self.y.mul_spec(rhs.y))
            .add_spec(self.z.mul_spec(rhs.z))
            .add_spec(self.w.mul_spec(rhs.w))
    }

    /// Whether every product and every sum on the way to `products` is
    /// allowed.
    pub open spec fn products_allowed(self, rhs: Self) -> bool {
        &&& self.x.mul_req(rhs.x)
        &&& self.y.mul_req(rhs.y)
        &&& self.z.mul_req(rhs.z)
        &&& self.w.mul_req(rhs.w)
        &&& self.x.mul_spec(rhs.x)
            .add_req(self.y.mul_spec(rhs.y))
        &&& self.x.mul_spec(rhs.x)
            .add_spec(self.y.mul_spec(rhs.y))
            .add_req(self.z.mul_spec(rhs.z))
        &&& self.x.mul_spec(rhs.x)
            .add_spec(self.y.mul_spec(rhs.y))
            .add_spec(self.z.mul_spec(rhs.z))
            .add_req(self.w.mul_spec(rhs.w))
    }

    /// The inner product with `rhs`: the products of the components, added
    /// up from the first to the last and then added to the component type's
    /// default value.
    pub fn dot(self, rhs: Self) -> (product: T) where T: Copy + Default
        requires
            T::obeys_mul_spec(),
            T::obeys_add_spec(),
            self.products_allowed(rhs),
            forall|zero: T| #[trigger]
                call_ensures(T::default, (), zero) ==> self.products(rhs).add_req(zero),
        ensures
            exists|zero: T| #[trigger]
                call_ensures(T::default, (), zero) && product == self.products(rhs).add_spec(
                    zero,
                ),
    {
        let zero = T::default();
        self.x * rhs.x + self.y * rhs.y + self.z * rhs.z + self.w * rhs.w + zero
    }
}

impl<T: core::ops::Neg<Output = T>> core::ops::Neg for Vec4<T> {
    type Output = Self;

    /// The opposite of every component.
    fn neg(self) -> Self {
        Vec4 { x: self.x.neg(), y: self.y.neg(), z: self.z.neg(), w: self.w.neg() }
    }
}

impl<T: core::ops::Neg<Output = T>> NegSpecImpl for Vec4<T> {
    open spec fn obeys_neg_spec() -> bool {
        T::obeys_neg_spec()
    }

    open spec fn neg_req(self) -> bool {
        self.x.neg_req() && self.y.neg_req() && self.z.neg_req() && self.w.neg_req()
    }

    open spec fn neg_spec(self) -> Self {
        Vec4 {
            x: self.x.neg_spec(),
            y: self.y.neg_spec(),
            z: self.z.neg_spec(),
            w: self.w.neg_spec(),
        }
    }
}

impl<T: core::ops::Add<Output = T>> core::ops::Add for Vec4<T> {
    type Output = Self;

    /// The sum, component by component.
    fn add(self, other: Self) -> Self {
        Vec4 { x: self.x + other.x, y: self.y + other.y, z: self.z + other.z, w: self.w + other.w }
    }
}

impl<T: core::ops::Add<Output = T>> AddSpecImpl for Vec4<T> {
    open spec fn obeys_add_spec() -> bool {
        T::obeys_add_spec()
    }

    open spec fn add_req(self, other: Self) -> bool {
        &&& self.x.add_req(other.x)
        &&& self.y.add_req(other.y)
        &&& self.z.add_req(other.z)
        &&& self.w.add_req(other.w)
    }

    open spec fn add_spec(self, other: Self) -> Self {
        Vec4 {
            x: self.x.add_spec(other.x),
            y: self.y.add_spec(other.y),
            z: self.z.add_spec(other.z),
            w: self.w.add_spec(other.w),
        }
    }
}

impl<T: core::ops::Sub<Output = T>> core::ops::Sub for Vec4<T> {
    type Output = Self;

    /// The difference, component by component.
    fn sub(self, other: Self) -> Self {
        Vec4 { x: self.x - other.x, y: self.y - other.y, z: self.z - other.z, w: self.w - other.w }
    }
}

impl<T: core::ops::Sub<Output = T>> SubSpecImpl for Vec4<T> {
    open spec fn obeys_sub_spec() -> bool {
        T::obeys_sub_spec()
    }

    open spec fn sub_req(self, other: Self) -> bool {
        &&& self.x.sub_req(other.x)
        &&& self.y.sub_req(other.y)
        &&& self.z.sub_req(other.z)
        &&& self.w.sub_req(other.w)
    }

    open spec fn sub_spec(self, other: Self) -> Self {
        Vec4 {
            x: self.x.sub_spec(other.x),
            y: self.y.sub_spec(other.y),
            z: self.z.sub_spec(other.z),
            w: self.w.sub_spec(other.w),
        }
    }
}

impl<T: Default> Default for Vec4<T> {
    /// The component type's default value in every place.
    fn default() -> (v: Self)
        ensures
            call_ensures(T::default, (), v.x),
            call_ensures(T::default, (), v.y),
            call_ensures(T::default, (), v.z),
            call_ensures(T::default, (), v.w),
    {
        Vec4 { x: T::default(), y: T::default(), z: T::default(), w: T::default() }
    }
}

} // verus!
