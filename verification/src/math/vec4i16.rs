use std::ops::{Add, Sub, Mul, Div, AddAssign, SubAssign, MulAssign, DivAssign};
use vstd::prelude::*;
use vstd::std_specs::ops::{AddSpecImpl, SubSpecImpl, MulSpecImpl, DivSpecImpl};
use crate::math::{trunc_div, div_i16};

verus! {

/// A four-component vector of `i16`.
///
/// Every operator works lane by lane; it requires that no lane overflows and that no
/// lane divides by zero, the inputs on which the operation would panic.
#[derive(Clone, Copy, Debug, PartialEq, Eq, Structural, Default)]
pub struct Vec4i16 {
    pub x: i16,
    pub y: i16,
    pub z: i16,
    pub w: i16,
}

impl Vec4i16 {
    /// Builds the vector from its components.
    pub fn new(x: i16, y: i16, z: i16, w: i16) -> (r: Self)
        ensures
            r.x == x,
            r.y == y,
            r.z == z,
            r.w == w,
    {
        Self { x, y, z, w }
    }

    /// Builds the vector with every component equal to `value`.
    pub fn from1f(value: i16) -> (r: Self)
        ensures
            r.x == value,
            r.y == value,
            r.z == value,
            r.w == value,
    {
        Self { x: value, y: value, z: value, w: value }
    }

    /// The vector with every component zero.
    pub fn zero() -> (r: Self)
        ensures
            r.x == 0,
            r.y == 0,
            r.z == 0,
            r.w == 0,
    {
        Self { x: 0, y: 0, z: 0, w: 0 }
    }
}

impl Add for Vec4i16 {
    type Output = Self;

    fn add(self, o: Self) -> (r: Self)
        ensures
            r.x == self.x + o.x,
            r.y == self.y + o.y,
            r.z == self.z + o.z,
            r.w == self.w + o.w,
    {
        Self { x: self.x + o.x, y: self.y + o.y, z: self.z + o.z, w: self.w + o.w }
    }
}

impl AddSpecImpl for Vec4i16 {
    open spec fn obeys_add_spec() -> bool {
        true
    }

    open spec fn add_req(self, o: Self) -> bool {
        (i16::MIN <= self.x + o.x <= i16::MAX)
        && (i16::MIN <= self.y + o.y <= i16::MAX)
        && (i16::MIN <= self.z + o.z <= i16::MAX)
        && (i16::MIN <= self.w + o.w <= i16::MAX)
    }

    open spec fn add_spec(self, o: Self) -> Self {
        Vec4i16 { x: (self.x + o.x) as i16, y: (self.y + o.y) as i16, z: (self.z + o.z) as i16, w: (self.w + o.w) as i16 }
    }
}

impl AddAssign for Vec4i16 {
    fn add_assign(&mut self, o: Self)
        requires
            i16::MIN <= old(self).x + o.x <= i16::MAX,
            i16::MIN <= old(self).y + o.y <= i16::MAX,
            i16::MIN <= old(self).z + o.z <= i16::MAX,
            i16::MIN <= old(self).w + o.w <= i16::MAX,
        ensures
            final(self).x == old(self).x + o.x,
            final(self).y == old(self).y + o.y,
            final(self).z == old(self).z + o.z,
            final(self).w == old(self).w + o.w,
    {
        self.x = self.x + o.x;
        self.y = self.y + o.y;
        self.z = self.z + o.z;
        self.w = self.w + o.w;
    }
}

impl Add<i16> for Vec4i16 {
    type Output = Self;

    fn add(self, o: i16) -> (r: Self)
        ensures
            r.x == self.x + o,
            r.y == self.y + o,
            r.z == self.z + o,
            r.w == self.w + o,
    {
        Self { x: self.x + o, y: self.y + o, z: self.z + o, w: self.w + o }
    }
}

impl AddSpecImpl<i16> for Vec4i16 {
    open spec fn obeys_add_spec() -> bool {
        true
    }

    open spec fn add_req(self, o: i16) -> bool {
        (i16::MIN <= self.x + o <= i16::MAX)
        && (i16::MIN <= self.y + o <= i16::MAX)
        && (i16::MIN <= self.z + o <= i16::MAX)
        && (i16::MIN <= self.w + o <= i16::MAX)
    }

    open spec fn add_spec(self, o: i16) -> Self {
        Vec4i16 { x: (self.x + o) as i16, y: (self.y + o) as i16, z: (self.z + o) as i16, w: (self.w + o) as i16 }
    }
}

impl AddAssign<i16> for Vec4i16 {
    fn add_assign(&mut self, o: i16)
        requires
            i16::MIN <= old(self).x + o <= i16::MAX,
            i16::MIN <= old(self).y + o <= i16::MAX,
            i16::MIN <= old(self).z + o <= i16::MAX,
            i16::MIN <= old(self).w + o <= i16::MAX,
        ensures
            final(self).x == old(self).x + o,
            final(self).y == old(self).y + o,
            final(self).z == old(self).z + o,
            final(self).w == old(self).w + o,
    {
        self.x = self.x + o;
        self.y = self.y + o;
        self.z = self.z + o;
        self.w = self.w + o;
    }
}

impl Sub for Vec4i16 {
    type Output = Self;

    fn sub(self, o: Self) -> (r: Self)
        ensures
            r.x == self.x - o.x,
            r.y == self.y - o.y,
            r.z == self.z - o.z,
            r.w == self.w - o.w,
    {
        Self { x: self.x - o.x, y: self.y - o.y, z: self.z - o.z, w: self.w - o.w }
    }
}

impl SubSpecImpl for Vec4i16 {
    open spec fn obeys_sub_spec() -> bool {
        true
    }

    open spec fn sub_req(self, o: Self) -> bool {
        (i16::MIN <= self.x - o.x <= i16::MAX)
        && (i16::MIN <= self.y - o.y <= i16::MAX)
        && (i16::MIN <= self.z - o.z <= i16::MAX)
        && (i16::MIN <= self.w - o.w <= i16::MAX)
    }

    open spec fn sub_spec(self, o: Self) -> Self {
        Vec4i16 { x: (self.x - o.x) as i16, y: (self.y - o.y) as i16, z: (self.z - o.z) as i16, w: (self.w - o.w) as i16 }
    }
}

impl SubAssign for Vec4i16 {
    fn sub_assign(&mut self, o: Self)
        requires
            i16::MIN <= old(self).x - o.x <= i16::MAX,
            i16::MIN <= old(self).y - o.y <= i16::MAX,
            i16::MIN <= old(self).z - o.z <= i16::MAX,
            i16::MIN <= old(self).w - o.w <= i16::MAX,
        ensures
            final(self).x == old(self).x - o.x,
            final(self).y == old(self).y - o.y,
            final(self).z == old(self).z - o.z,
            final(self).w == old(self).w - o.w,
    {
        self.x = self.x - o.x;
        self.y = self.y - o.y;
        self.z = self.z - o.z;
        self.w = self.w - o.w;
    }
}

impl Sub<i16> for Vec4i16 {
    type Output = Self;

    fn sub(self, o: i16) -> (r: Self)
        ensures
            r.x == self.x - o,
            r.y == self.y - o,
            r.z == self.z - o,
            r.w == self.w - o,
    {
        Self { x: self.x - o, y: self.y - o, z: self.z - o, w: self.w - o }
    }
}

impl SubSpecImpl<i16> for Vec4i16 {
    open spec fn obeys_sub_spec() -> bool {
        true
    }

    open spec fn sub_req(self, o: i16) -> bool {
        (i16::MIN <= self.x - o <= i16::MAX)
        && (i16::MIN <= self.y - o <= i16::MAX)
        && (i16::MIN <= self.z - o <= i16::MAX)
        && (i16::MIN <= self.w - o <= i16::MAX)
    }

    open spec fn sub_spec(self, o: i16) -> Self {
        Vec4i16 { x: (self.x - o) as i16, y: (self.y - o) as i16, z: (self.z - o) as i16, w: (self.w - o) as i16 }
    }
}

impl SubAssign<i16> for Vec4i16 {
    fn sub_assign(&mut self, o: i16)
        requires
            i16::MIN <= old(self).x - o <= i16::MAX,
            i16::MIN <= old(self).y - o <= i16::MAX,
            i16::MIN <= old(self).z - o <= i16::MAX,
            i16::MIN <= old(self).w - o <= i16::MAX,
        ensures
            final(self).x == old(self).x - o,
            final(self).y == old(self).y - o,
            final(self).z == old(self).z - o,
            final(self).w == old(self).w - o,
    {
        self.x = self.x - o;
        self.y = self.y - o;
        self.z = self.z - o;
        self.w = self.w - o;
    }
}

impl Mul for Vec4i16 {
    type Output = Self;

    fn mul(self, o: Self) -> (r: Self)
        ensures
            r.x == self.x * o.x,
            r.y == self.y * o.y,
            r.z == self.z * o.z,
            r.w == self.w * o.w,
    {
        Self { x: self.x * o.x, y: self.y * o.y, z: self.z * o.z, w: self.w * o.w }
    }
}

impl MulSpecImpl for Vec4i16 {
    open spec fn obeys_mul_spec() -> bool {
        true
    }

    open spec fn mul_req(self, o: Self) -> bool {
        (i16::MIN <= self.x * o.x <= i16::MAX)
        && (i16::MIN <= self.y * o.y <= i16::MAX)
        && (i16::MIN <= self.z * o.z <= i16::MAX)
        && (i16::MIN <= self.w * o.w <= i16::MAX)
    }

    open spec fn mul_spec(self, o: Self) -> Self {
        Vec4i16 { x: (self.x * o.x) as i16, y: (self.y * o.y) as i16, z: (self.z * o.z) as i16, w: (self.w * o.w) as i16 }
    }
}

impl MulAssign for Vec4i16 {
    fn mul_assign(&mut self, o: Self)
        requires
            i16::MIN <= old(self).x * o.x <= i16::MAX,
            i16::MIN <= old(self).y * o.y <= i16::MAX,
            i16::MIN <= old(self).z * o.z <= i16::MAX,
            i16::MIN <= old(self).w * o.w <= i16::MAX,
        ensures
            final(self).x == old(self).x * o.x,
            final(self).y == old(self).y * o.y,
            final(self).z == old(self).z * o.z,
            final(self).w == old(self).w * o.w,
    {
        self.x = self.x * o.x;
        self.y = self.y * o.y;
        self.z = self.z * o.z;
        self.w = self.w * o.w;
    }
}

impl Mul<i16> for Vec4i16 {
    type Output = Self;

    fn mul(self, o: i16) -> (r: Self)
        ensures
            r.x == self.x * o,
            r.y == self.y * o,
            r.z == self.z * o,
            r.w == self.w * o,
    {
        Self { x: self.x * o, y: self.y * o, z: self.z * o, w: self.w * o }
    }
}

impl MulSpecImpl<i16> for Vec4i16 {
    open spec fn obeys_mul_spec() -> bool {
        true
    }

    open spec fn mul_req(self, o: i16) -> bool {
        (i16::MIN <= self.x * o <= i16::MAX)
        && (i16::MIN <= self.y * o <= i16::MAX)
        && (i16::MIN <= self.z * o <= i16::MAX)
        && (i16::MIN <= self.w * o <= i16::MAX)
    }

    open spec fn mul_spec(self, o: i16) -> Self {
        Vec4i16 { x: (self.x * o) as i16, y: (self.y * o) as i16, z: (self.z * o) as i16, w: (self.w * o) as i16 }
    }
}

impl MulAssign<i16> for Vec4i16 {
    fn mul_assign(&mut self, o: i16)
        requires
            i16::MIN <= old(self).x * o <= i16::MAX,
            i16::MIN <= old(self).y * o <= i16::MAX,
            i16::MIN <= old(self).z * o <= i16::MAX,
            i16::MIN <= old(self).w * o <= i16::MAX,
        ensures
            final(self).x == old(self).x * o,
            final(self).y == old(self).y * o,
            final(self).z == old(self).z * o,
            final(self).w == old(self).w * o,
    {
        self.x = self.x * o;
        self.y = self.y * o;
        self.z = self.z * o;
        self.w = self.w * o;
    }
}

impl Div for Vec4i16 {
    type Output = Self;

    fn div(self, o: Self) -> (r: Self)
        ensures
            r.x == trunc_div(self.x as int, o.x as int),
            r.y == trunc_div(self.y as int, o.y as int),
            r.z == trunc_div(self.z as int, o.z as int),
            r.w == trunc_div(self.w as int, o.w as int),
    {
        Self { x: div_i16(self.x, o.x), y: div_i16(self.y, o.y), z: div_i16(self.z, o.z), w: div_i16(self.w, o.w) }
    }
}

impl DivSpecImpl for Vec4i16 {
    open spec fn obeys_div_spec() -> bool {
        true
    }

    open spec fn div_req(self, o: Self) -> bool {
        (o.x != 0 && !(self.x == i16::MIN && o.x == -1))
        && (o.y != 0 && !(self.y == i16::MIN && o.y == -1))
        && (o.z != 0 && !(self.z == i16::MIN && o.z == -1))
        && (o.w != 0 && !(self.w == i16::MIN && o.w == -1))
    }

    open spec fn div_spec(self, o: Self) -> Self {
        Vec4i16 { x: trunc_div(self.x as int, o.x as int) as i16, y: trunc_div(self.y as int, o.y as int) as i16, z: trunc_div(self.z as int, o.z as int) as i16, w: trunc_div(self.w as int, o.w as int) as i16 }
    }
}

impl DivAssign for Vec4i16 {
    fn div_assign(&mut self, o: Self)
        requires
            o.x != 0 && !(old(self).x == i16::MIN && o.x == -1),
            o.y != 0 && !(old(self).y == i16::MIN && o.y == -1),
            o.z != 0 && !(old(self).z == i16::MIN && o.z == -1),
            o.w != 0 && !(old(self).w == i16::MIN && o.w == -1),
        ensures
            final(self).x == trunc_div(old(self).x as int, o.x as int),
            final(self).y == trunc_div(old(self).y as int, o.y as int),
            final(self).z == trunc_div(old(self).z as int, o.z as int),
            final(self).w == trunc_div(old(self).w as int, o.w as int),
    {
        self.x = div_i16(self.x, o.x);
        self.y = div_i16(self.y, o.y);
        self.z = div_i16(self.z, o.z);
        self.w = div_i16(self.w, o.w);
    }
}

impl Div<i16> for Vec4i16 {
    type Output = Self;

    fn div(self, o: i16) -> (r: Self)
        ensures
            r.x == trunc_div(self.x as int, o as int),
            r.y == trunc_div(self.y as int, o as int),
            r.z == trunc_div(self.z as int, o as int),
            r.w == trunc_div(self.w as int, o as int),
    {
        Self { x: div_i16(self.x, o), y: div_i16(self.y, o), z: div_i16(self.z, o), w: div_i16(self.w, o) }
    }
}

impl DivSpecImpl<i16> for Vec4i16 {
    open spec fn obeys_div_spec() -> bool {
        true
    }

    open spec fn div_req(self, o: i16) -> bool {
        (o != 0 && !(self.x == i16::MIN && o == -1))
        && (o != 0 && !(self.y == i16::MIN && o == -1))
        && (o != 0 && !(self.z == i16::MIN && o == -1))
        && (o != 0 && !(self.w == i16::MIN && o == -1))
    }

    open spec fn div_spec(self, o: i16) -> Self {
        Vec4i16 { x: trunc_div(self.x as int, o as int) as i16, y: trunc_div(self.y as int, o as int) as i16, z: trunc_div(self.z as int, o as int) as i16, w: trunc_div(self.w as int, o as int) as i16 }
    }
}

impl DivAssign<i16> for Vec4i16 {
    fn div_assign(&mut self, o: i16)
        requires
            o != 0 && !(old(self).x == i16::MIN && o == -1),
            o != 0 && !(old(self).y == i16::MIN && o == -1),
            o != 0 && !(old(self).z == i16::MIN && o == -1),
            o != 0 && !(old(self).w == i16::MIN && o == -1),
        ensures
            final(self).x == trunc_div(old(self).x as int, o as int),
            final(self).y == trunc_div(old(self).y as int, o as int),
            final(self).z == trunc_div(old(self).z as int, o as int),
            final(self).w == trunc_div(old(self).w as int, o as int),
    {
        self.x = div_i16(self.x, o);
        self.y = div_i16(self.y, o);
        self.z = div_i16(self.z, o);
        self.w = div_i16(self.w, o);
    }
}

} // verus!
