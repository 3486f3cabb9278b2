use std::ops::{Add, Sub, Mul, Div, AddAssign, SubAssign, MulAssign, DivAssign};
use vstd::prelude::*;
use vstd::std_specs::ops::{AddSpecImpl, SubSpecImpl, MulSpecImpl, DivSpecImpl};
use crate::math::{trunc_div, div_i16};

verus! {

/// A two-component vector of `i16`, used in sprite and text vertices.
///
/// Every operator works lane by lane; it requires that no lane overflows and that no
/// lane divides by zero, the inputs on which the operation would panic.
#[derive(Clone, Copy, Debug, PartialEq, Eq, Structural)]
pub struct Vec2i16 {
    pub x: i16,
    pub y: i16,
}

impl Vec2i16 {
    /// Builds the vector from its components.
    pub fn new(x: i16, y: i16) -> (r: Self)
        ensures
            r.x == x,
            r.y == y,
    {
        Self { x, y }
    }

    /// Builds the vector with every component equal to `value`.
    pub fn from1(value: i16) -> (r: Self)
        ensures
            r.x == value,
            r.y == value,
    {
        Self { x: value, y: value }
    }

    /// The vector with every component zero.
    pub fn zero() -> (r: Self)
        ensures
            r.x == 0,
            r.y == 0,
    {
        Self { x: 0, y: 0 }
    }
}

impl Add for Vec2i16 {
    type Output = Self;

    fn add(self, o: Self) -> (r: Self)
        ensures
            r.x == self.x + o.x,
            r.y == self.y + o.y,
    {
        Self { x: self.x + o.x, y: self.y + o.y }
    }
}

impl AddSpecImpl for Vec2i16 {
    open spec fn obeys_add_spec() -> bool {
        true
    }

    open spec fn add_req(self, o: Self) -> bool {
        (i16::MIN <= self.x + o.x <= i16::MAX)
        && (i16::MIN <= self.y + o.y <= i16::MAX)
    }

    open spec fn add_spec(self, o: Self) -> Self {
        Vec2i16 { x: (self.x + o.x) as i16, y: (self.y + o.y) as i16 }
    }
}

impl AddAssign for Vec2i16 {
    fn add_assign(&mut self, o: Self)
        requires
            i16::MIN <= old(self).x + o.x <= i16::MAX,
            i16::MIN <= old(self).y + o.y <= i16::MAX,
        ensures
            final(self).x == old(self).x + o.x,
            final(self).y == old(self).y + o.y,
    {
        self.x = self.x + o.x;
        self.y = self.y + o.y;
    }
}

impl Add<i16> for Vec2i16 {
    type Output = Self;

    fn add(self, o: i16) -> (r: Self)
        ensures
            r.x == self.x + o,
            r.y == self.y + o,
    {
        Self { x: self.x + o, y: self.y + o }
    }
}

impl AddSpecImpl<i16> for Vec2i16 {
    open spec fn obeys_add_spec() -> bool {
        true
    }

    open spec fn add_req(self, o: i16) -> bool {
        (i16::MIN <= self.x + o <= i16::MAX)
        && (i16::MIN <= self.y + o <= i16::MAX)
    }

    open spec fn add_spec(self, o: i16) -> Self {
        Vec2i16 { x: (self.x + o) as i16, y: (self.y + o) as i16 }
    }
}

impl AddAssign<i16> for Vec2i16 {
    fn add_assign(&mut self, o: i16)
        requires
            i16::MIN <= old(self).x + o <= i16::MAX,
            i16::MIN <= old(self).y + o <= i16::MAX,
        ensures
            final(self).x == old(self).x + o,
            final(self).y == old(self).y + o,
    {
        self.x = self.x + o;
        self.y = self.y + o;
    }
}

impl Sub for Vec2i16 {
    type Output = Self;

    fn sub(self, o: Self) -> (r: Self)
        ensures
            r.x == self.x - o.x,
            r.y == self.y - o.y,
    {
        Self { x: self.x - o.x, y: self.y - o.y }
    }
}

impl SubSpecImpl for Vec2i16 {
    open spec fn obeys_sub_spec() -> bool {
        true
    }

    open spec fn sub_req(self, o: Self) -> bool {
        (i16::MIN <= self.x - o.x <= i16::MAX)
        && (i16::MIN <= self.y - o.y <= i16::MAX)
    }

    open spec fn sub_spec(self, o: Self) -> Self {
        Vec2i16 { x: (self.x - o.x) as i16, y: (self.y - o.y) as i16 }
    }
}

impl SubAssign for Vec2i16 {
    fn sub_assign(&mut self, o: Self)
        requires
            i16::MIN <= old(self).x - o.x <= i16::MAX,
            i16::MIN <= old(self).y - o.y <= i16::MAX,
        ensures
            final(self).x == old(self).x - o.x,
            final(self).y == old(self).y - o.y,
    {
        self.x = self.x - o.x;
        self.y = self.y - o.y;
    }
}

impl Sub<i16> for Vec2i16 {
    type Output = Self;

    fn sub(self, o: i16) -> (r: Self)
        ensures
            r.x == self.x - o,
            r.y == self.y - o,
    {
        Self { x: self.x - o, y: self.y - o }
    }
}

impl SubSpecImpl<i16> for Vec2i16 {
    open spec fn obeys_sub_spec() -> bool {
        true
    }

    open spec fn sub_req(self, o: i16) -> bool {
        (i16::MIN <= self.x - o <= i16::MAX)
        && (i16::MIN <= self.y - o <= i16::MAX)
    }

    open spec fn sub_spec(self, o: i16) -> Self {
        Vec2i16 { x: (self.x - o) as i16, y: (self.y - o) as i16 }
    }
}

impl SubAssign<i16> for Vec2i16 {
    fn sub_assign(&mut self, o: i16)
        requires
            i16::MIN <= old(self).x - o <= i16::MAX,
            i16::MIN <= old(self).y - o <= i16::MAX,
        ensures
            final(self).x == old(self).x - o,
            final(self).y == old(self).y - o,
    {
        self.x = self.x - o;
        self.y = self.y - o;
    }
}

impl Mul for Vec2i16 {
    type Output = Self;

    fn mul(self, o: Self) -> (r: Self)
        ensures
            r.x == self.x * o.x,
            r.y == self.y * o.y,
    {
        Self { x: self.x * o.x, y: self.y * o.y }
    }
}

impl MulSpecImpl for Vec2i16 {
    open spec fn obeys_mul_spec() -> bool {
        true
    }

    open spec fn mul_req(self, o: Self) -> bool {
        (i16::MIN <= self.x * o.x <= i16::MAX)
        && (i16::MIN <= self.y * o.y <= i16::MAX)
    }

    open spec fn mul_spec(self, o: Self) -> Self {
        Vec2i16 { x: (self.x * o.x) as i16, y: (self.y * o.y) as i16 }
    }
}

impl MulAssign for Vec2i16 {
    fn mul_assign(&mut self, o: Self)
        requires
            i16::MIN <= old(self).x * o.x <= i16::MAX,
            i16::MIN <= old(self).y * o.y <= i16::MAX,
        ensures
            final(self).x == old(self).x * o.x,
            final(self).y == old(self).y * o.y,
    {
        self.x = self.x * o.x;
        self.y = self.y * o.y;
    }
}

impl Mul<i16> for Vec2i16 {
    type Output = Self;

    fn mul(self, o: i16) -> (r: Self)
        ensures
            r.x == self.x * o,
            r.y == self.y * o,
    {
        Self { x: self.x * o, y: self.y * o }
    }
}

impl MulSpecImpl<i16> for Vec2i16 {
    open spec fn obeys_mul_spec() -> bool {
        true
    }

    open spec fn mul_req(self, o: i16) -> bool {
        (i16::MIN <= self.x * o <= i16::MAX)
        && (i16::MIN <= self.y * o <= i16::MAX)
    }

    open spec fn mul_spec(self, o: i16) -> Self {
        Vec2i16 { x: (self.x * o) as i16, y: (self.y * o) as i16 }
    }
}

impl MulAssign<i16> for Vec2i16 {
    fn mul_assign(&mut self, o: i16)
        requires
            i16::MIN <= old(self).x * o <= i16::MAX,
            i16::MIN <= old(self).y * o <= i16::MAX,
        ensures
            final(self).x == old(self).x * o,
            final(self).y == old(self).y * o,
    {
        self.x = self.x * o;
        self.y = self.y * o;
    }
}

impl Div for Vec2i16 {
    type Output = Self;

    fn div(self, o: Self) -> (r: Self)
        ensures
            r.x == trunc_div(self.x as int, o.x as int),
            r.y == trunc_div(self.y as int, o.y as int),
    {
        Self { x: div_i16(self.x, o.x), y: div_i16(self.y, o.y) }
    }
}

impl DivSpecImpl for Vec2i16 {
    open spec fn obeys_div_spec() -> bool {
        true
    }

    open spec fn div_req(self, o: Self) -> bool {
        (o.x != 0 && !(self.x == i16::MIN && o.x == -1))
        && (o.y != 0 && !(self.y == i16::MIN && o.y == -1))
    }

    open spec fn div_spec(self, o: Self) -> Self {
        Vec2i16 { x: trunc_div(self.x as int, o.x as int) as i16, y: trunc_div(self.y as int, o.y as int) as i16 }
    }
}

impl DivAssign for Vec2i16 {
    fn div_assign(&mut self, o: Self)
        requires
            o.x != 0 && !(old(self).x == i16::MIN && o.x == -1),
            o.y != 0 && !(old(self).y == i16::MIN && o.y == -1),
        ensures
            final(self).x == trunc_div(old(self).x as int, o.x as int),
            final(self).y == trunc_div(old(self).y as int, o.y as int),
    {
        self.x = div_i16(self.x, o.x);
        self.y = div_i16(self.y, o.y);
    }
}

impl Div<i16> for Vec2i16 {
    type Output = Self;

    fn div(self, o: i16) -> (r: Self)
        ensures
            r.x == trunc_div(self.x as int, o as int),
            r.y == trunc_div(self.y as int, o as int),
    {
        Self { x: div_i16(self.x, o), y: div_i16(self.y, o) }
    }
}

impl DivSpecImpl<i16> for Vec2i16 {
    open spec fn obeys_div_spec() -> bool {
        true
    }

    open spec fn div_req(self, o: i16) -> bool {
        (o != 0 && !(self.x == i16::MIN && o == -1))
        && (o != 0 && !(self.y == i16::MIN && o == -1))
    }

    open spec fn div_spec(self, o: i16) -> Self {
        Vec2i16 { x: trunc_div(self.x as int, o as int) as i16, y: trunc_div(self.y as int, o as int) as i16 }
    }
}

impl DivAssign<i16> for Vec2i16 {
    fn div_assign(&mut self, o: i16)
        requires
            o != 0 && !(old(self).x == i16::MIN && o == -1),
            o != 0 && !(old(self).y == i16::MIN && o == -1),
        ensures
            final(self).x == trunc_div(old(self).x as int, o as int),
            final(self).y == trunc_div(old(self).y as int, o as int),
    {
        self.x = div_i16(self.x, o);
        self.y = div_i16(self.y, o);
    }
}

} // verus!
