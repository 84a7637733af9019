use core::ops::{Add, Div, Index, Mul, Neg, Sub};
use vstd::prelude::*;
use vstd::std_specs::cmp::PartialEqSpec;
use vstd::std_specs::ops::{AddSpec, DivSpec, MulSpec, NegSpec, SubSpec};

verus! {

/// A vector of three components of one element type.
///
/// Arithmetic is element-wise and goes through the element type's own
/// operators: overflow and division by zero are whatever `T` makes of them,
/// and the contracts below rule out exactly the inputs on which `T`'s
/// operators have a precondition. Results are stated under
/// `T::obeys_*_spec()`, which holds for the primitive integer types.
#[derive(Debug, Clone, Copy)]
pub struct Vec3<T> {
    pub x: T,
    pub y: T,
    pub z: T,
}

// ---------------------------------------------------------------------------
// Indexed access: 0 selects x, 1 selects y, 2 selects z.
// ---------------------------------------------------------------------------

impl<T> Vec3<T> {
    /// The component selected by `i` (0, 1 or 2).
    pub open spec fn component(self, i: int) -> T {
        if i == 0 {
            self.x
        } else if i == 1 {
            self.y
        } else {
            self.z
        }
    }

    /// This vector with the component selected by `i` replaced by `v`.
    pub open spec fn with_component(self, i: int, v: T) -> Vec3<T> {
        if i == 0 {
            Vec3 { x: v, ..self }
        } else if i == 1 {
            Vec3 { y: v, ..self }
        } else {
            Vec3 { z: v, ..self }
        }
    }

    /// A mutable handle on the component selected by `i`.
    ///
    /// An index of 3 or more is a programming error: it is excluded here,
    /// and an unchecked caller that passes one aborts.
    pub fn index_mut(&mut self, i: usize) -> (r: &mut T)
        requires
            i < 3,
        ensures
            *r == old(self).component(i as int),
            *final(self) == old(self).with_component(i as int, *final(r)),
    {
        match i {
            0 => &mut self.x,
            1 => &mut self.y,
            2 => &mut self.z,
            _ => unreached(),
        }
    }

    /// Writing a component and reading it back gives the written value, and
    /// leaves the other two components as they were.
    pub proof fn lemma_write_then_read(self, i: int, v: T)
        requires
            0 <= i < 3,
        ensures
            self.with_component(i, v).component(i) == v,
            forall|j: int|
                0 <= j < 3 && j != i ==> #[trigger] self.with_component(i, v).component(j)
                    == self.component(j),
    {
    }
}

impl<T> Index<usize> for Vec3<T> {
    type Output = T;

    /// The component selected by `i`; an index of 3 or more aborts.
    fn index(&self, i: usize) -> (r: &T)
        ensures
            *r == self.component(i as int),
    {
        match i {
            0 => &self.x,
            1 => &self.y,
            2 => &self.z,
            _ => unreached(),
        }
    }
}

impl<T> vstd::std_specs::core::IndexSpecImpl<usize> for Vec3<T> {
    open spec fn index_req(&self, i: &usize) -> bool {
        *i < 3
    }
}

// ---------------------------------------------------------------------------
// Equality: all three components equal under T's own equality.
// ---------------------------------------------------------------------------

impl<T: PartialEq> PartialEq for Vec3<T> {
    fn eq(&self, other: &Vec3<T>) -> (r: bool)
        ensures
            T::obeys_eq_spec() ==> r == (self.x.eq_spec(&other.x) && self.y.eq_spec(&other.y)
                && self.z.eq_spec(&other.z)),
    {
        self.x == other.x && self.y == other.y && self.z == other.z
    }
}

impl<T: PartialEq> vstd::std_specs::cmp::PartialEqSpecImpl for Vec3<T> {
    open spec fn obeys_eq_spec() -> bool {
        T::obeys_eq_spec()
    }

    open spec fn eq_spec(&self, other: &Vec3<T>) -> bool {
        self.x.eq_spec(&other.x) && self.y.eq_spec(&other.y) && self.z.eq_spec(&other.z)
    }
}

// ---------------------------------------------------------------------------
// Negation.
// ---------------------------------------------------------------------------

impl<T: Copy + Neg<Output = T>> Vec3<T> {
    /// Every component can be negated by T.
    pub open spec fn can_neg(self) -> bool {
        &&& self.x.neg_req()
        &&& self.y.neg_req()
        &&& self.z.neg_req()
    }

    /// The component-wise negation.
    pub open spec fn negation(self) -> Vec3<T> {
        Vec3 { x: self.x.neg_spec(), y: self.y.neg_spec(), z: self.z.neg_spec() }
    }
}

impl<T: Copy + Neg<Output = T>> Neg for Vec3<T> {
    type Output = Vec3<T>;

    fn neg(self) -> (r: Vec3<T>)
        ensures
            T::obeys_neg_spec() ==> r == self.negation(),
    {
        Vec3 { x: self.x.neg(), y: self.y.neg(), z: self.z.neg() }
    }
}

impl<T: Copy + Neg<Output = T>> vstd::std_specs::ops::NegSpecImpl for Vec3<T> {
    open spec fn obeys_neg_spec() -> bool {
        T::obeys_neg_spec()
    }

    open spec fn neg_req(self) -> bool {
        self.can_neg()
    }

    open spec fn neg_spec(self) -> Vec3<T> {
        self.negation()
    }
}

/// Negating a vector of `i8` twice gives it back, whenever the first
/// negation is defined (no component is `i8::MIN`); the second one then is too.
pub proof fn lemma_neg_involutive_i8(u: Vec3<i8>)
    requires
        u.can_neg(),
    ensures
        u.negation().can_neg(),
        u.negation().negation() == u,
{
}

/// Negating a vector of `i16` twice gives it back, whenever the first
/// negation is defined (no component is `i16::MIN`); the second one then is too.
pub proof fn lemma_neg_involutive_i16(u: Vec3<i16>)
    requires
        u.can_neg(),
    ensures
        u.negation().can_neg(),
        u.negation().negation() == u,
{
}

/// Negating a vector of `i32` twice gives it back, whenever the first
/// negation is defined (no component is `i32::MIN`); the second one then is too.
pub proof fn lemma_neg_involutive_i32(u: Vec3<i32>)
    requires
        u.can_neg(),
    ensures
        u.negation().can_neg(),
        u.negation().negation() == u,
{
}

/// Negating a vector of `i64` twice gives it back, whenever the first
/// negation is defined (no component is `i64::MIN`); the second one then is too.
pub proof fn lemma_neg_involutive_i64(u: Vec3<i64>)
    requires
        u.can_neg(),
    ensures
        u.negation().can_neg(),
        u.negation().negation() == u,
{
}

// ---------------------------------------------------------------------------
// Widening conversion.
// ---------------------------------------------------------------------------

impl From<Vec3<i8>> for Vec3<i32> {
    /// Widens each component; every value is kept exactly.
    fn from(input: Vec3<i8>) -> (r: Vec3<i32>)
        ensures
            r.x as int == input.x as int,
            r.y as int == input.y as int,
            r.z as int == input.z as int,
    {
        Vec3 { x: input.x.into(), y: input.y.into(), z: input.z.into() }
    }
}

impl vstd::std_specs::convert::FromSpecImpl<Vec3<i8>> for Vec3<i32> {
    open spec fn obeys_from_spec() -> bool {
        true
    }

    open spec fn from_spec(input: Vec3<i8>) -> Vec3<i32> {
        Vec3 { x: input.x as i32, y: input.y as i32, z: input.z as i32 }
    }
}

// ---------------------------------------------------------------------------
// Addition.
// ---------------------------------------------------------------------------

impl<T: Copy + Add<Output = T>> Vec3<T> {
    /// Every pair of corresponding components can be added by T.
    pub open spec fn can_add(self, rhs: Vec3<T>) -> bool {
        &&& self.x.add_req(rhs.x)
        &&& self.y.add_req(rhs.y)
        &&& self.z.add_req(rhs.z)
    }

    /// The component-wise sum.
    pub open spec fn sum(self, rhs: Vec3<T>) -> Vec3<T> {
        Vec3 { x: self.x.add_spec(rhs.x), y: self.y.add_spec(rhs.y), z: self.z.add_spec(rhs.z) }
    }

    /// Every component can have `s` added to it by T.
    pub open spec fn can_add_scalar(self, s: T) -> bool {
        &&& self.x.add_req(s)
        &&& self.y.add_req(s)
        &&& self.z.add_req(s)
    }

    /// Each component plus `s`.
    pub open spec fn sum_scalar(self, s: T) -> Vec3<T> {
        Vec3 { x: self.x.add_spec(s), y: self.y.add_spec(s), z: self.z.add_spec(s) }
    }

    /// Adds `rhs` into this vector, component by component.
    /// It ends equal to what the matching non-mutating operator returns.
    pub fn add_assign(&mut self, rhs: Vec3<T>)
        requires
            old(self).can_add(rhs),
        ensures
            T::obeys_add_spec() ==> *final(self) == old(self).sum(rhs),
    {
        self.x = self.x + rhs.x;
        self.y = self.y + rhs.y;
        self.z = self.z + rhs.z;
    }

    /// Adds `s` to every component of this vector.
    /// It ends equal to what the matching non-mutating operator returns.
    pub fn add_assign_scalar(&mut self, s: T)
        requires
            old(self).can_add_scalar(s),
        ensures
            T::obeys_add_spec() ==> *final(self) == old(self).sum_scalar(s),
    {
        self.x = self.x + s;
        self.y = self.y + s;
        self.z = self.z + s;
    }
}

impl<T: Copy + Add<Output = T>> Add for Vec3<T> {
    type Output = Vec3<T>;

    fn add(self, rhs: Vec3<T>) -> (r: Vec3<T>)
        ensures
            T::obeys_add_spec() ==> r == self.sum(rhs),
    {
        Vec3 { x: self.x + rhs.x, y: self.y + rhs.y, z: self.z + rhs.z }
    }
}

impl<T: Copy + Add<Output = T>> vstd::std_specs::ops::AddSpecImpl for Vec3<T> {
    open spec fn obeys_add_spec() -> bool {
        T::obeys_add_spec()
    }

    open spec fn add_req(self, rhs: Vec3<T>) -> bool {
        self.can_add(rhs)
    }

    open spec fn add_spec(self, rhs: Vec3<T>) -> Vec3<T> {
        self.sum(rhs)
    }
}

impl<'a, T: Copy + Add<Output = T>> Add<&'a Vec3<T>> for &'a Vec3<T> {
    type Output = Vec3<T>;

    fn add(self, rhs: &'a Vec3<T>) -> (r: Vec3<T>)
        ensures
            T::obeys_add_spec() ==> r == self.sum(*rhs),
    {
        Vec3 { x: self.x + rhs.x, y: self.y + rhs.y, z: self.z + rhs.z }
    }
}

impl<'a, T: Copy + Add<Output = T>> vstd::std_specs::ops::AddSpecImpl<&'a Vec3<T>> for &'a Vec3<T> {
    open spec fn obeys_add_spec() -> bool {
        T::obeys_add_spec()
    }

    open spec fn add_req(self, rhs: &'a Vec3<T>) -> bool {
        self.can_add(*rhs)
    }

    open spec fn add_spec(self, rhs: &'a Vec3<T>) -> Vec3<T> {
        self.sum(*rhs)
    }
}

impl<'a, T: Copy + Add<Output = T>> Add<&'a Vec3<T>> for Vec3<T> {
    type Output = Vec3<T>;

    fn add(self, rhs: &'a Vec3<T>) -> (r: Vec3<T>)
        ensures
            T::obeys_add_spec() ==> r == self.sum(*rhs),
    {
        Vec3 { x: self.x + rhs.x, y: self.y + rhs.y, z: self.z + rhs.z }
    }
}

impl<'a, T: Copy + Add<Output = T>> vstd::std_specs::ops::AddSpecImpl<&'a Vec3<T>> for Vec3<T> {
    open spec fn obeys_add_spec() -> bool {
        T::obeys_add_spec()
    }

    open spec fn add_req(self, rhs: &'a Vec3<T>) -> bool {
        self.can_add(*rhs)
    }

    open spec fn add_spec(self, rhs: &'a Vec3<T>) -> Vec3<T> {
        self.sum(*rhs)
    }
}

impl<T: Copy + Add<Output = T>> Add<T> for Vec3<T> {
    type Output = Vec3<T>;

    fn add(self, s: T) -> (r: Vec3<T>)
        ensures
            T::obeys_add_spec() ==> r == self.sum_scalar(s),
    {
        Vec3 { x: self.x + s, y: self.y + s, z: self.z + s }
    }
}

impl<T: Copy + Add<Output = T>> vstd::std_specs::ops::AddSpecImpl<T> for Vec3<T> {
    open spec fn obeys_add_spec() -> bool {
        T::obeys_add_spec()
    }

    open spec fn add_req(self, s: T) -> bool {
        self.can_add_scalar(s)
    }

    open spec fn add_spec(self, s: T) -> Vec3<T> {
        self.sum_scalar(s)
    }
}

// ---------------------------------------------------------------------------
// Subtraction.
// ---------------------------------------------------------------------------

impl<T: Copy + Sub<Output = T>> Vec3<T> {
    /// Every pair of corresponding components can be subtracted by T.
    pub open spec fn can_sub(self, rhs: Vec3<T>) -> bool {
        &&& self.x.sub_req(rhs.x)
        &&& self.y.sub_req(rhs.y)
        &&& self.z.sub_req(rhs.z)
    }

    /// The component-wise difference.
    pub open spec fn difference(self, rhs: Vec3<T>) -> Vec3<T> {
        Vec3 { x: self.x.sub_spec(rhs.x), y: self.y.sub_spec(rhs.y), z: self.z.sub_spec(rhs.z) }
    }

    /// Every component can have `s` subtracted from it by T.
    pub open spec fn can_sub_scalar(self, s: T) -> bool {
        &&& self.x.sub_req(s)
        &&& self.y.sub_req(s)
        &&& self.z.sub_req(s)
    }

    /// Each component minus `s`.
    pub open spec fn difference_scalar(self, s: T) -> Vec3<T> {
        Vec3 { x: self.x.sub_spec(s), y: self.y.sub_spec(s), z: self.z.sub_spec(s) }
    }

    /// Subtracts `rhs` from this vector, component by component.
    /// It ends equal to what the matching non-mutating operator returns.
    pub fn sub_assign(&mut self, rhs: Vec3<T>)
        requires
            old(self).can_sub(rhs),
        ensures
            T::obeys_sub_spec() ==> *final(self) == old(self).difference(rhs),
    {
        self.x = self.x - rhs.x;
        self.y = self.y - rhs.y;
        self.z = self.z - rhs.z;
    }

    /// Subtracts `s` from every component of this vector.
    /// It ends equal to what the matching non-mutating operator returns.
    pub fn sub_assign_scalar(&mut self, s: T)
        requires
            old(self).can_sub_scalar(s),
        ensures
            T::obeys_sub_spec() ==> *final(self) == old(self).difference_scalar(s),
    {
        self.x = self.x - s;
        self.y = self.y - s;
        self.z = self.z - s;
    }
}

impl<T: Copy + Sub<Output = T>> Sub for Vec3<T> {
    type Output = Vec3<T>;

    fn sub(self, rhs: Vec3<T>) -> (r: Vec3<T>)
        ensures
            T::obeys_sub_spec() ==> r == self.difference(rhs),
    {
        Vec3 { x: self.x - rhs.x, y: self.y - rhs.y, z: self.z - rhs.z }
    }
}

impl<T: Copy + Sub<Output = T>> vstd::std_specs::ops::SubSpecImpl for Vec3<T> {
    open spec fn obeys_sub_spec() -> bool {
        T::obeys_sub_spec()
    }

    open spec fn sub_req(self, rhs: Vec3<T>) -> bool {
        self.can_sub(rhs)
    }

    open spec fn sub_spec(self, rhs: Vec3<T>) -> Vec3<T> {
        self.difference(rhs)
    }
}

impl<'a, T: Copy + Sub<Output = T>> Sub<&'a Vec3<T>> for &'a Vec3<T> {
    type Output = Vec3<T>;

    fn sub(self, rhs: &'a Vec3<T>) -> (r: Vec3<T>)
        ensures
            T::obeys_sub_spec() ==> r == self.difference(*rhs),
    {
        Vec3 { x: self.x - rhs.x, y: self.y - rhs.y, z: self.z - rhs.z }
    }
}

impl<'a, T: Copy + Sub<Output = T>> vstd::std_specs::ops::SubSpecImpl<&'a Vec3<T>> for &'a Vec3<T> {
    open spec fn obeys_sub_spec() -> bool {
        T::obeys_sub_spec()
    }

    open spec fn sub_req(self, rhs: &'a Vec3<T>) -> bool {
        self.can_sub(*rhs)
    }

    open spec fn sub_spec(self, rhs: &'a Vec3<T>) -> Vec3<T> {
        self.difference(*rhs)
    }
}

impl<'a, T: Copy + Sub<Output = T>> Sub<&'a Vec3<T>> for Vec3<T> {
    type Output = Vec3<T>;

    fn sub(self, rhs: &'a Vec3<T>) -> (r: Vec3<T>)
        ensures
            T::obeys_sub_spec() ==> r == self.difference(*rhs),
    {
        Vec3 { x: self.x - rhs.x, y: self.y - rhs.y, z: self.z - rhs.z }
    }
}

impl<'a, T: Copy + Sub<Output = T>> vstd::std_specs::ops::SubSpecImpl<&'a Vec3<T>> for Vec3<T> {
    open spec fn obeys_sub_spec() -> bool {
        T::obeys_sub_spec()
    }

    open spec fn sub_req(self, rhs: &'a Vec3<T>) -> bool {
        self.can_sub(*rhs)
    }

    open spec fn sub_spec(self, rhs: &'a Vec3<T>) -> Vec3<T> {
        self.difference(*rhs)
    }
}

impl<T: Copy + Sub<Output = T>> Sub<T> for Vec3<T> {
    type Output = Vec3<T>;

    fn sub(self, s: T) -> (r: Vec3<T>)
        ensures
            T::obeys_sub_spec() ==> r == self.difference_scalar(s),
    {
        Vec3 { x: self.x - s, y: self.y - s, z: self.z - s }
    }
}

impl<T: Copy + Sub<Output = T>> vstd::std_specs::ops::SubSpecImpl<T> for Vec3<T> {
    open spec fn obeys_sub_spec() -> bool {
        T::obeys_sub_spec()
    }

    open spec fn sub_req(self, s: T) -> bool {
        self.can_sub_scalar(s)
    }

    open spec fn sub_spec(self, s: T) -> Vec3<T> {
        self.difference_scalar(s)
    }
}

// ---------------------------------------------------------------------------
// Multiplication.
// ---------------------------------------------------------------------------

impl<T: Copy + Mul<Output = T>> Vec3<T> {
    /// Every pair of corresponding components can be multiplied by T.
    pub open spec fn can_mul(self, rhs: Vec3<T>) -> bool {
        &&& self.x.mul_req(rhs.x)
        &&& self.y.mul_req(rhs.y)
        &&& self.z.mul_req(rhs.z)
    }

    /// The component-wise product.
    pub open spec fn product(self, rhs: Vec3<T>) -> Vec3<T> {
        Vec3 { x: self.x.mul_spec(rhs.x), y: self.y.mul_spec(rhs.y), z: self.z.mul_spec(rhs.z) }
    }

    /// Every component can be multiplied by `s` in T.
    pub open spec fn can_mul_scalar(self, s: T) -> bool {
        &&& self.x.mul_req(s)
        &&& self.y.mul_req(s)
        &&& self.z.mul_req(s)
    }

    /// Each component times `s`.
    pub open spec fn product_scalar(self, s: T) -> Vec3<T> {
        Vec3 { x: self.x.mul_spec(s), y: self.y.mul_spec(s), z: self.z.mul_spec(s) }
    }

    /// Multiplies this vector by `rhs`, component by component.
    /// It ends equal to what the matching non-mutating operator returns.
    pub fn mul_assign(&mut self, rhs: Vec3<T>)
        requires
            old(self).can_mul(rhs),
        ensures
            T::obeys_mul_spec() ==> *final(self) == old(self).product(rhs),
    {
        self.x = self.x * rhs.x;
        self.y = self.y * rhs.y;
        self.z = self.z * rhs.z;
    }

    /// Multiplies every component of this vector by `s`.
    /// It ends equal to what the matching non-mutating operator returns.
    pub fn mul_assign_scalar(&mut self, s: T)
        requires
            old(self).can_mul_scalar(s),
        ensures
            T::obeys_mul_spec() ==> *final(self) == old(self).product_scalar(s),
    {
        self.x = self.x * s;
        self.y = self.y * s;
        self.z = self.z * s;
    }
}

impl<T: Copy + Mul<Output = T>> Mul for Vec3<T> {
    type Output = Vec3<T>;

    fn mul(self, rhs: Vec3<T>) -> (r: Vec3<T>)
        ensures
            T::obeys_mul_spec() ==> r == self.product(rhs),
    {
        Vec3 { x: self.x * rhs.x, y: self.y * rhs.y, z: self.z * rhs.z }
    }
}

impl<T: Copy + Mul<Output = T>> vstd::std_specs::ops::MulSpecImpl for Vec3<T> {
    open spec fn obeys_mul_spec() -> bool {
        T::obeys_mul_spec()
    }

    open spec fn mul_req(self, rhs: Vec3<T>) -> bool {
        self.can_mul(rhs)
    }

    open spec fn mul_spec(self, rhs: Vec3<T>) -> Vec3<T> {
        self.product(rhs)
    }
}

impl<'a, T: Copy + Mul<Output = T>> Mul<&'a Vec3<T>> for &'a Vec3<T> {
    type Output = Vec3<T>;

    fn mul(self, rhs: &'a Vec3<T>) -> (r: Vec3<T>)
        ensures
            T::obeys_mul_spec() ==> r == self.product(*rhs),
    {
        Vec3 { x: self.x * rhs.x, y: self.y * rhs.y, z: self.z * rhs.z }
    }
}

impl<'a, T: Copy + Mul<Output = T>> vstd::std_specs::ops::MulSpecImpl<&'a Vec3<T>> for &'a Vec3<T> {
    open spec fn obeys_mul_spec() -> bool {
        T::obeys_mul_spec()
    }

    open spec fn mul_req(self, rhs: &'a Vec3<T>) -> bool {
        self.can_mul(*rhs)
    }

    open spec fn mul_spec(self, rhs: &'a Vec3<T>) -> Vec3<T> {
        self.product(*rhs)
    }
}

impl<'a, T: Copy + Mul<Output = T>> Mul<&'a Vec3<T>> for Vec3<T> {
    type Output = Vec3<T>;

    fn mul(self, rhs: &'a Vec3<T>) -> (r: Vec3<T>)
        ensures
            T::obeys_mul_spec() ==> r == self.product(*rhs),
    {
        Vec3 { x: self.x * rhs.x, y: self.y * rhs.y, z: self.z * rhs.z }
    }
}

impl<'a, T: Copy + Mul<Output = T>> vstd::std_specs::ops::MulSpecImpl<&'a Vec3<T>> for Vec3<T> {
    open spec fn obeys_mul_spec() -> bool {
        T::obeys_mul_spec()
    }

    open spec fn mul_req(self, rhs: &'a Vec3<T>) -> bool {
        self.can_mul(*rhs)
    }

    open spec fn mul_spec(self, rhs: &'a Vec3<T>) -> Vec3<T> {
        self.product(*rhs)
    }
}

impl<T: Copy + Mul<Output = T>> Mul<T> for Vec3<T> {
    type Output = Vec3<T>;

    fn mul(self, s: T) -> (r: Vec3<T>)
        ensures
            T::obeys_mul_spec() ==> r == self.product_scalar(s),
    {
        Vec3 { x: self.x * s, y: self.y * s, z: self.z * s }
    }
}

impl<T: Copy + Mul<Output = T>> vstd::std_specs::ops::MulSpecImpl<T> for Vec3<T> {
    open spec fn obeys_mul_spec() -> bool {
        T::obeys_mul_spec()
    }

    open spec fn mul_req(self, s: T) -> bool {
        self.can_mul_scalar(s)
    }

    open spec fn mul_spec(self, s: T) -> Vec3<T> {
        self.product_scalar(s)
    }
}

// ---------------------------------------------------------------------------
// Division.
// ---------------------------------------------------------------------------

impl<T: Copy + Div<Output = T>> Vec3<T> {
    /// Every component can be divided by the corresponding one of `rhs` in T
    /// (for integers: no zero divisor and no overflow).
    pub open spec fn can_div(self, rhs: Vec3<T>) -> bool {
        &&& self.x.div_req(rhs.x)
        &&& self.y.div_req(rhs.y)
        &&& self.z.div_req(rhs.z)
    }

    /// The component-wise quotient.
    pub open spec fn quotient(self, rhs: Vec3<T>) -> Vec3<T> {
        Vec3 { x: self.x.div_spec(rhs.x), y: self.y.div_spec(rhs.y), z: self.z.div_spec(rhs.z) }
    }

    /// Every component can be divided by `s` in T.
    pub open spec fn can_div_scalar(self, s: T) -> bool {
        &&& self.x.div_req(s)
        &&& self.y.div_req(s)
        &&& self.z.div_req(s)
    }

    /// Each component divided by `s`.
    pub open spec fn quotient_scalar(self, s: T) -> Vec3<T> {
        Vec3 { x: self.x.div_spec(s), y: self.y.div_spec(s), z: self.z.div_spec(s) }
    }

    /// Divides this vector by `rhs`, component by component.
    /// It ends equal to what the matching non-mutating operator returns.
    pub fn div_assign(&mut self, rhs: Vec3<T>)
        requires
            old(self).can_div(rhs),
        ensures
            T::obeys_div_spec() ==> *final(self) == old(self).quotient(rhs),
    {
        self.x = self.x / rhs.x;
        self.y = self.y / rhs.y;
        self.z = self.z / rhs.z;
    }

    /// Divides every component of this vector by `s`.
    /// It ends equal to what the matching non-mutating operator returns.
    pub fn div_assign_scalar(&mut self, s: T)
        requires
            old(self).can_div_scalar(s),
        ensures
            T::obeys_div_spec() ==> *final(self) == old(self).quotient_scalar(s),
    {
        self.x = self.x / s;
        self.y = self.y / s;
        self.z = self.z / s;
    }
}

impl<T: Copy + Div<Output = T>> Div for Vec3<T> {
    type Output = Vec3<T>;

    fn div(self, rhs: Vec3<T>) -> (r: Vec3<T>)
        ensures
            T::obeys_div_spec() ==> r == self.quotient(rhs),
    {
        Vec3 { x: self.x / rhs.x, y: self.y / rhs.y, z: self.z / rhs.z }
    }
}

impl<T: Copy + Div<Output = T>> vstd::std_specs::ops::DivSpecImpl for Vec3<T> {
    open spec fn obeys_div_spec() -> bool {
        T::obeys_div_spec()
    }

    open spec fn div_req(self, rhs: Vec3<T>) -> bool {
        self.can_div(rhs)
    }

    open spec fn div_spec(self, rhs: Vec3<T>) -> Vec3<T> {
        self.quotient(rhs)
    }
}

impl<'a, T: Copy + Div<Output = T>> Div<&'a Vec3<T>> for &'a Vec3<T> {
    type Output = Vec3<T>;

    fn div(self, rhs: &'a Vec3<T>) -> (r: Vec3<T>)
        ensures
            T::obeys_div_spec() ==> r == self.quotient(*rhs),
    {
        Vec3 { x: self.x / rhs.x, y: self.y / rhs.y, z: self.z / rhs.z }
    }
}

impl<'a, T: Copy + Div<Output = T>> vstd::std_specs::ops::DivSpecImpl<&'a Vec3<T>> for &'a Vec3<T> {
    open spec fn obeys_div_spec() -> bool {
        T::obeys_div_spec()
    }

    open spec fn div_req(self, rhs: &'a Vec3<T>) -> bool {
        self.can_div(*rhs)
    }

    open spec fn div_spec(self, rhs: &'a Vec3<T>) -> Vec3<T> {
        self.quotient(*rhs)
    }
}

impl<'a, T: Copy + Div<Output = T>> Div<&'a Vec3<T>> for Vec3<T> {
    type Output = Vec3<T>;

    fn div(self, rhs: &'a Vec3<T>) -> (r: Vec3<T>)
        ensures
            T::obeys_div_spec() ==> r == self.quotient(*rhs),
    {
        Vec3 { x: self.x / rhs.x, y: self.y / rhs.y, z: self.z / rhs.z }
    }
}

impl<'a, T: Copy + Div<Output = T>> vstd::std_specs::ops::DivSpecImpl<&'a Vec3<T>> for Vec3<T> {
    open spec fn obeys_div_spec() -> bool {
        T::obeys_div_spec()
    }

    open spec fn div_req(self, rhs: &'a Vec3<T>) -> bool {
        self.can_div(*rhs)
    }

    open spec fn div_spec(self, rhs: &'a Vec3<T>) -> Vec3<T> {
        self.quotient(*rhs)
    }
}

impl<T: Copy + Div<Output = T>> Div<T> for Vec3<T> {
    type Output = Vec3<T>;

    fn div(self, s: T) -> (r: Vec3<T>)
        ensures
            T::obeys_div_spec() ==> r == self.quotient_scalar(s),
    {
        Vec3 { x: self.x / s, y: self.y / s, z: self.z / s }
    }
}

impl<T: Copy + Div<Output = T>> vstd::std_specs::ops::DivSpecImpl<T> for Vec3<T> {
    open spec fn obeys_div_spec() -> bool {
        T::obeys_div_spec()
    }

    open spec fn div_req(self, s: T) -> bool {
        self.can_div_scalar(s)
    }

    open spec fn div_spec(self, s: T) -> Vec3<T> {
        self.quotient_scalar(s)
    }
}

} // verus!
