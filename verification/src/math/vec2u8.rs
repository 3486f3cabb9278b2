use std::ops::{Add, Sub, Mul, Div, AddAssign, SubAssign, MulAssign, DivAssign};
use vstd::prelude::*;
use vstd::std_specs::ops::{AddSpecImpl, SubSpecImpl, MulSpecImpl, DivSpecImpl};

verus! {

/// A two-component vector of `u8`, used for glyph sizes.
///
/// Every operator works lane by lane; it requires that no lane overflows and that no
/// lane divides by zero, the inputs on which the operation would panic.
#[derive(Clone, Copy, Debug, PartialEq, Eq, Structural)]
pub struct Vec2u8 {
    pub x: u8,
    pub y: u8,
}

impl Vec2u8 {
    /// Builds the vector from its components.
    pub fn new(x: u8, y: u8) -> (r: Self)
        ensures
            r.x == x,
            r.y == y,
    {
        Self { x, y }
    }

    /// Builds the vector with every component equal to `value`.
    pub fn from1f(value: u8) -> (r: Self)
        ensures
            r.x == value,
            r.y == value,
    {
        Self { x: value, y: value }
    }

    /// The vector with every component zero.
    pub fn zero() -> (r: Self)
        ensures
            r.x == 0,
            r.y == 0,
    {
        Self { x: 0, y: 0 }
    }
}

impl Add for Vec2u8 {
    type Output = Self;

    fn add(self, o: Self) -> (r: Self)
        ensures
            r.x == self.x + o.x,
            r.y == self.y + o.y,
    {
        Self { x: self.x + o.x, y: self.y + o.y }
    }
}

impl AddSpecImpl for Vec2u8 {
    open spec fn obeys_add_spec() -> bool {
        true
    }

    open spec fn add_req(self, o: Self) -> bool {
        (u8::MIN <= self.x + o.x <= u8::MAX)
        && (u8::MIN <= self.y + o.y <= u8::MAX)
    }

    open spec fn add_spec(self, o: Self) -> Self {
        Vec2u8 { x: (self.x + o.x) as u8, y: (self.y + o.y) as u8 }
    }
}

impl AddAssign for Vec2u8 {
    fn add_assign(&mut self, o: Self)
        requires
            u8::MIN <= old(self).x + o.x <= u8::MAX,
            u8::MIN <= old(self).y + o.y <= u8::MAX,
        ensures
            final(self).x == old(self).x + o.x,
            final(self).y == old(self).y + o.y,
    {
        self.x = self.x + o.x;
        self.y = self.y + o.y;
    }
}

impl Add<u8> for Vec2u8 {
    type Output = Self;

    fn add(self, o: u8) -> (r: Self)
        ensures
            r.x == self.x + o,
            r.y == self.y + o,
    {
        Self { x: self.x + o, y: self.y + o }
    }
}

impl AddSpecImpl<u8> for Vec2u8 {
    open spec fn obeys_add_spec() -> bool {
        true
    }

    open spec fn add_req(self, o: u8) -> bool {
        (u8::MIN <= self.x + o <= u8::MAX)
        && (u8::MIN <= self.y + o <= u8::MAX)
    }

    open spec fn add_spec(self, o: u8) -> Self {
        Vec2u8 { x: (self.x + o) as u8, y: (self.y + o) as u8 }
    }
}

impl AddAssign<u8> for Vec2u8 {
    fn add_assign(&mut self, o: u8)
        requires
            u8::MIN <= old(self).x + o <= u8::MAX,
            u8::MIN <= old(self).y + o <= u8::MAX,
        ensures
            final(self).x == old(self).x + o,
            final(self).y == old(self).y + o,
    {
        self.x = self.x + o;
        self.y = self.y + o;
    }
}

impl Sub for Vec2u8 {
    type Output = Self;

    fn sub(self, o: Self) -> (r: Self)
        ensures
            r.x == self.x - o.x,
            r.y == self.y - o.y,
    {
        Self { x: self.x - o.x, y: self.y - o.y }
    }
}

impl SubSpecImpl for Vec2u8 {
    open spec fn obeys_sub_spec() -> bool {
        true
    }

    open spec fn sub_req(self, o: Self) -> bool {
        (u8::MIN <= self.x - o.x <= u8::MAX)
        && (u8::MIN <= self.y - o.y <= u8::MAX)
    }

    open spec fn sub_spec(self, o: Self) -> Self {
        Vec2u8 { x: (self.x - o.x) as u8, y: (self.y - o.y) as u8 }
    }
}

impl SubAssign for Vec2u8 {
    fn sub_assign(&mut self, o: Self)
        requires
            u8::MIN <= old(self).x - o.x <= u8::MAX,
            u8::MIN <= old(self).y - o.y <= u8::MAX,
        ensures
            final(self).x == old(self).x - o.x,
            final(self).y == old(self).y - o.y,
    {
        self.x = self.x - o.x;
        self.y = self.y - o.y;
    }
}

impl Sub<u8> for Vec2u8 {
    type Output = Self;

    fn sub(self, o: u8) -> (r: Self)
        ensures
            r.x == self.x - o,
            r.y == self.y - o,
    {
        Self { x: self.x - o, y: self.y - o }
    }
}

impl SubSpecImpl<u8> for Vec2u8 {
    open spec fn obeys_sub_spec() -> bool {
        true
    }

    open spec fn sub_req(self, o: u8) -> bool {
        (u8::MIN <= self.x - o <= u8::MAX)
        && (u8::MIN <= self.y - o <= u8::MAX)
    }

    open spec fn sub_spec(self, o: u8) -> Self {
        Vec2u8 { x: (self.x - o) as u8, y: (self.y - o) as u8 }
    }
}

impl SubAssign<u8> for Vec2u8 {
    fn sub_assign(&mut self, o: u8)
        requires
            u8::MIN <= old(self).x - o <= u8::MAX,
            u8::MIN <= old(self).y - o <= u8::MAX,
        ensures
            final(self).x == old(self).x - o,
            final(self).y == old(self).y - o,
    {
        self.x = self.x - o;
        self.y = self.y - o;
    }
}

impl Mul for Vec2u8 {
    type Output = Self;

    fn mul(self, o: Self) -> (r: Self)
        ensures
            r.x == self.x * o.x,
            r.y == self.y * o.y,
    {
        Self { x: self.x * o.x, y: self.y * o.y }
    }
}

impl MulSpecImpl for Vec2u8 {
    open spec fn obeys_mul_spec() -> bool {
        true
    }

    open spec fn mul_req(self, o: Self) -> bool {
        (u8::MIN <= self.x * o.x <= u8::MAX)
        && (u8::MIN <= self.y * o.y <= u8::MAX)
    }

    open spec fn mul_spec(self, o: Self) -> Self {
        Vec2u8 { x: (self.x * o.x) as u8, y: (self.y * o.y) as u8 }
    }
}

impl MulAssign for Vec2u8 {
    fn mul_assign(&mut self, o: Self)
        requires
            u8::MIN <= old(self).x * o.x <= u8::MAX,
            u8::MIN <= old(self).y * o.y <= u8::MAX,
        ensures
            final(self).x == old(self).x * o.x,
            final(self).y == old(self).y * o.y,
    {
        self.x = self.x * o.x;
        self.y = self.y * o.y;
    }
}

impl Mul<u8> for Vec2u8 {
    type Output = Self;

    fn mul(self, o: u8) -> (r: Self)
        ensures
            r.x == self.x * o,
            r.y == self.y * o,
    {
        Self { x: self.x * o, y: self.y * o }
    }
}

impl MulSpecImpl<u8> for Vec2u8 {
    open spec fn obeys_mul_spec() -> bool {
        true
    }

    open spec fn mul_req(self, o: u8) -> bool {
        (u8::MIN <= self.x * o <= u8::MAX)
        && (u8::MIN <= self.y * o <= u8::MAX)
    }

    open spec fn mul_spec(self, o: u8) -> Self {
        Vec2u8 { x: (self.x * o) as u8, y: (self.y * o) as u8 }
    }
}

impl MulAssign<u8> for Vec2u8 {
    fn mul_assign(&mut self, o: u8)
        requires
            u8::MIN <= old(self).x * o <= u8::MAX,
            u8::MIN <= old(self).y * o <= u8::MAX,
        ensures
            final(self).x == old(self).x * o,
            final(self).y == old(self).y * o,
    {
        self.x = self.x * o;
        self.y = self.y * o;
    }
}

impl Div for Vec2u8 {
    type Output = Self;

    fn div(self, o: Self) -> (r: Self)
        ensures
            r.x == self.x / o.x,
            r.y == self.y / o.y,
    {
        Self { x: self.x / o.x, y: self.y / o.y }
    }
}

impl DivSpecImpl for Vec2u8 {
    open spec fn obeys_div_spec() -> bool {
        true
    }

    open spec fn div_req(self, o: Self) -> bool {
        (o.x != 0)
        && (o.y != 0)
    }

    open spec fn div_spec(self, o: Self) -> Self {
        Vec2u8 { x: (self.x / o.x) as u8, y: (self.y / o.y) as u8 }
    }
}

impl DivAssign for Vec2u8 {
    fn div_assign(&mut self, o: Self)
        requires
            o.x != 0,
            o.y != 0,
        ensures
            final(self).x == old(self).x / o.x,
            final(self).y == old(self).y / o.y,
    {
        self.x = self.x / o.x;
        self.y = self.y / o.y;
    }
}

impl Div<u8> for Vec2u8 {
    type Output = Self;

    fn div(self, o: u8) -> (r: Self)
        ensures
            r.x == self.x / o,
            r.y == self.y / o,
    {
        Self { x: self.x / o, y: self.y / o }
    }
}

impl DivSpecImpl<u8> for Vec2u8 {
    open spec fn obeys_div_spec() -> bool {
        true
    }

    open spec fn div_req(self, o: u8) -> bool {
        (o != 0)
        && (o != 0)
    }

    open spec fn div_spec(self, o: u8) -> Self {
        Vec2u8 { x: (self.x / o) as u8, y: (self.y / o) as u8 }
    }
}

impl DivAssign<u8> for Vec2u8 {
    fn div_assign(&mut self, o: u8)
        requires
            o != 0,
            o != 0,
        ensures
            final(self).x == old(self).x / o,
            final(self).y == old(self).y / o,
    {
        self.x = self.x / o;
        self.y = self.y / o;
    }
}

} // verus!
