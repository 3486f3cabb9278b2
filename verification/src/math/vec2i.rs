use std::ops::{Add, Sub, Mul, Div, AddAssign, SubAssign, MulAssign, DivAssign};
use vstd::prelude::*;
use vstd::std_specs::ops::{AddSpecImpl, SubSpecImpl, MulSpecImpl, DivSpecImpl};
use crate::math::{trunc_div, div_i32};

verus! {

/// A two-component vector of `i32`, used for chunk regions and screen sizes.
///
/// Every operator works lane by lane; it requires that no lane overflows and that no
/// lane divides by zero, the inputs on which the operation would panic.
#[derive(Clone, Copy, Debug, PartialEq, Eq, Structural)]
pub struct Vec2i {
    pub x: i32,
    pub y: i32,
}

impl Vec2i {
    /// Builds the vector from its components.
    pub fn new(x: i32, y: i32) -> (r: Self)
        ensures
            r.x == x,
            r.y == y,
    {
        Self { x, y }
    }

    /// Builds the vector with every component equal to `value`.
    pub fn from1f(value: i32) -> (r: Self)
        ensures
            r.x == value,
            r.y == value,
    {
        Self { x: value, y: value }
    }

    /// The vector with every component zero.
    pub fn zero() -> (r: Self)
        ensures
            r.x == 0,
            r.y == 0,
    {
        Self { x: 0, y: 0 }
    }
}

impl Add for Vec2i {
    type Output = Self;

    fn add(self, o: Self) -> (r: Self)
        ensures
            r.x == self.x + o.x,
            r.y == self.y + o.y,
    {
        Self { x: self.x + o.x, y: self.y + o.y }
    }
}

impl AddSpecImpl for Vec2i {
    open spec fn obeys_add_spec() -> bool {
        true
    }

    open spec fn add_req(self, o: Self) -> bool {
        (i32::MIN <= self.x + o.x <= i32::MAX)
        && (i32::MIN <= self.y + o.y <= i32::MAX)
    }

    open spec fn add_spec(self, o: Self) -> Self {
        Vec2i { x: (self.x + o.x) as i32, y: (self.y + o.y) as i32 }
    }
}

impl AddAssign for Vec2i {
    fn add_assign(&mut self, o: Self)
        requires
            i32::MIN <= old(self).x + o.x <= i32::MAX,
            i32::MIN <= old(self).y + o.y <= i32::MAX,
        ensures
            final(self).x == old(self).x + o.x,
            final(self).y == old(self).y + o.y,
    {
        self.x = self.x + o.x;
        self.y = self.y + o.y;
    }
}

impl Add<i32> for Vec2i {
    type Output = Self;

    fn add(self, o: i32) -> (r: Self)
        ensures
            r.x == self.x + o,
            r.y == self.y + o,
    {
        Self { x: self.x + o, y: self.y + o }
    }
}

impl AddSpecImpl<i32> for Vec2i {
    open spec fn obeys_add_spec() -> bool {
        true
    }

    open spec fn add_req(self, o: i32) -> bool {
        (i32::MIN <= self.x + o <= i32::MAX)
        && (i32::MIN <= self.y + o <= i32::MAX)
    }

    open spec fn add_spec(self, o: i32) -> Self {
        Vec2i { x: (self.x + o) as i32, y: (self.y + o) as i32 }
    }
}

impl AddAssign<i32> for Vec2i {
    fn add_assign(&mut self, o: i32)
        requires
            i32::MIN <= old(self).x + o <= i32::MAX,
            i32::MIN <= old(self).y + o <= i32::MAX,
        ensures
            final(self).x == old(self).x + o,
            final(self).y == old(self).y + o,
    {
        self.x = self.x + o;
        self.y = self.y + o;
    }
}

impl Sub for Vec2i {
    type Output = Self;

    fn sub(self, o: Self) -> (r: Self)
        ensures
            r.x == self.x - o.x,
            r.y == self.y - o.y,
    {
        Self { x: self.x - o.x, y: self.y - o.y }
    }
}

impl SubSpecImpl for Vec2i {
    open spec fn obeys_sub_spec() -> bool {
        true
    }

    open spec fn sub_req(self, o: Self) -> bool {
        (i32::MIN <= self.x - o.x <= i32::MAX)
        && (i32::MIN <= self.y - o.y <= i32::MAX)
    }

    open spec fn sub_spec(self, o: Self) -> Self {
        Vec2i { x: (self.x - o.x) as i32, y: (self.y - o.y) as i32 }
    }
}

impl SubAssign for Vec2i {
    fn sub_assign(&mut self, o: Self)
        requires
            i32::MIN <= old(self).x - o.x <= i32::MAX,
            i32::MIN <= old(self).y - o.y <= i32::MAX,
        ensures
            final(self).x == old(self).x - o.x,
            final(self).y == old(self).y - o.y,
    {
        self.x = self.x - o.x;
        self.y = self.y - o.y;
    }
}

impl Sub<i32> for Vec2i {
    type Output = Self;

    fn sub(self, o: i32) -> (r: Self)
        ensures
            r.x == self.x - o,
            r.y == self.y - o,
    {
        Self { x: self.x - o, y: self.y - o }
    }
}

impl SubSpecImpl<i32> for Vec2i {
    open spec fn obeys_sub_spec() -> bool {
        true
    }

    open spec fn sub_req(self, o: i32) -> bool {
        (i32::MIN <= self.x - o <= i32::MAX)
        && (i32::MIN <= self.y - o <= i32::MAX)
    }

    open spec fn sub_spec(self, o: i32) -> Self {
        Vec2i { x: (self.x - o) as i32, y: (self.y - o) as i32 }
    }
}

impl SubAssign<i32> for Vec2i {
    fn sub_assign(&mut self, o: i32)
        requires
            i32::MIN <= old(self).x - o <= i32::MAX,
            i32::MIN <= old(self).y - o <= i32::MAX,
        ensures
            final(self).x == old(self).x - o,
            final(self).y == old(self).y - o,
    {
        self.x = self.x - o;
        self.y = self.y - o;
    }
}

impl Mul for Vec2i {
    type Output = Self;

    fn mul(self, o: Self) -> (r: Self)
        ensures
            r.x == self.x * o.x,
            r.y == self.y * o.y,
    {
        Self { x: self.x * o.x, y: self.y * o.y }
    }
}

impl MulSpecImpl for Vec2i {
    open spec fn obeys_mul_spec() -> bool {
        true
    }

    open spec fn mul_req(self, o: Self) -> bool {
        (i32::MIN <= self.x * o.x <= i32::MAX)
        && (i32::MIN <= self.y * o.y <= i32::MAX)
    }

    open spec fn mul_spec(self, o: Self) -> Self {
        Vec2i { x: (self.x * o.x) as i32, y: (self.y * o.y) as i32 }
    }
}

impl MulAssign for Vec2i {
    fn mul_assign(&mut self, o: Self)
        requires
            i32::MIN <= old(self).x * o.x <= i32::MAX,
            i32::MIN <= old(self).y * o.y <= i32::MAX,
        ensures
            final(self).x == old(self).x * o.x,
            final(self).y == old(self).y * o.y,
    {
        self.x = self.x * o.x;
        self.y = self.y * o.y;
    }
}

impl Mul<i32> for Vec2i {
    type Output = Self;

    fn mul(self, o: i32) -> (r: Self)
        ensures
            r.x == self.x * o,
            r.y == self.y * o,
    {
        Self { x: self.x * o, y: self.y * o }
    }
}

impl MulSpecImpl<i32> for Vec2i {
    open spec fn obeys_mul_spec() -> bool {
        true
    }

    open spec fn mul_req(self, o: i32) -> bool {
        (i32::MIN <= self.x * o <= i32::MAX)
        && (i32::MIN <= self.y * o <= i32::MAX)
    }

    open spec fn mul_spec(self, o: i32) -> Self {
        Vec2i { x: (self.x * o) as i32, y: (self.y * o) as i32 }
    }
}

impl MulAssign<i32> for Vec2i {
    fn mul_assign(&mut self, o: i32)
        requires
            i32::MIN <= old(self).x * o <= i32::MAX,
            i32::MIN <= old(self).y * o <= i32::MAX,
        ensures
            final(self).x == old(self).x * o,
            final(self).y == old(self).y * o,
    {
        self.x = self.x * o;
        self.y = self.y * o;
    }
}

impl Div for Vec2i {
    type Output = Self;

    fn div(self, o: Self) -> (r: Self)
        ensures
            r.x == trunc_div(self.x as int, o.x as int),
            r.y == trunc_div(self.y as int, o.y as int),
    {
        Self { x: div_i32(self.x, o.x), y: div_i32(self.y, o.y) }
    }
}

impl DivSpecImpl for Vec2i {
    open spec fn obeys_div_spec() -> bool {
        true
    }

    open spec fn div_req(self, o: Self) -> bool {
        (o.x != 0 && !(self.x == i32::MIN && o.x == -1))
        && (o.y != 0 && !(self.y == i32::MIN && o.y == -1))
    }

    open spec fn div_spec(self, o: Self) -> Self {
        Vec2i { x: trunc_div(self.x as int, o.x as int) as i32, y: trunc_div(self.y as int, o.y as int) as i32 }
    }
}

impl DivAssign for Vec2i {
    fn div_assign(&mut self, o: Self)
        requires
            o.x != 0 && !(old(self).x == i32::MIN && o.x == -1),
            o.y != 0 && !(old(self).y == i32::MIN && o.y == -1),
        ensures
            final(self).x == trunc_div(old(self).x as int, o.x as int),
            final(self).y == trunc_div(old(self).y as int, o.y as int),
    {
        self.x = div_i32(self.x, o.x);
        self.y = div_i32(self.y, o.y);
    }
}

impl Div<i32> for Vec2i {
    type Output = Self;

    fn div(self, o: i32) -> (r: Self)
        ensures
            r.x == trunc_div(self.x as int, o as int),
            r.y == trunc_div(self.y as int, o as int),
    {
        Self { x: div_i32(self.x, o), y: div_i32(self.y, o) }
    }
}

impl DivSpecImpl<i32> for Vec2i {
    open spec fn obeys_div_spec() -> bool {
        true
    }

    open spec fn div_req(self, o: i32) -> bool {
        (o != 0 && !(self.x == i32::MIN && o == -1))
        && (o != 0 && !(self.y == i32::MIN && o == -1))
    }

    open spec fn div_spec(self, o: i32) -> Self {
        Vec2i { x: trunc_div(self.x as int, o as int) as i32, y: trunc_div(self.y as int, o as int) as i32 }
    }
}

impl DivAssign<i32> for Vec2i {
    fn div_assign(&mut self, o: i32)
        requires
            o != 0 && !(old(self).x == i32::MIN && o == -1),
            o != 0 && !(old(self).y == i32::MIN && o == -1),
        ensures
            final(self).x == trunc_div(old(self).x as int, o as int),
            final(self).y == trunc_div(old(self).y as int, o as int),
    {
        self.x = div_i32(self.x, o);
        self.y = div_i32(self.y, o);
    }
}

} // verus!
