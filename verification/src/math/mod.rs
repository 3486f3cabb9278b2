use vstd::prelude::*;

pub mod vec2i;
pub mod vec2i16;
pub mod vec2u8;
pub mod vec3i;
pub mod vec4i16;
pub mod color3b;
pub mod color4b;
pub mod utils;
pub mod math;

pub use vec2i::Vec2i;
pub use vec2i16::Vec2i16;
pub use vec2u8::Vec2u8;
pub use vec3i::Vec3i;
pub use vec4i16::Vec4i16;
pub use color3b::Color3b;
pub use color4b::Color4b;

verus! {

/// Absolute value of a mathematical integer.
pub open spec fn abs_int(a: int) -> int {
    if a < 0 { -a } else { a }
}

/// Integer division that rounds toward zero, as Rust's `/` does on signed integers.
pub open spec fn trunc_div(a: int, b: int) -> int {
    if (a >= 0 && b > 0) || (a < 0 && b < 0) {
        abs_int(a) / abs_int(b)
    } else {
        -(abs_int(a) / abs_int(b))
    }
}

/// Rust's `a / b` on `i32`, stated as truncating division.
pub(crate) fn div_i32(a: i32, b: i32) -> (q: i32)
    requires
        b != 0,
        !(a == i32::MIN && b == -1),
    ensures
        q == trunc_div(a as int, b as int),
{
    if b > 0 {
        let q = a / b;
        assert(q == trunc_div(a as int, b as int));
        q
    } else if b == i32::MIN {
        assert(abs_int(b as int) == 0x8000_0000);
        if a == i32::MIN {
            assert(abs_int(a as int) / abs_int(b as int) == 1);
            1
        } else {
            assert(0 <= abs_int(a as int) < 0x8000_0000);
            assert(abs_int(a as int) / abs_int(b as int) == 0);
            0
        }
    } else {
        let nb = -b;
        let q = a / nb;
        assert(q == trunc_div(a as int, nb as int));
        if nb == 1 {
            assert(abs_int(a as int) / 1 == abs_int(a as int));
        } else {
            assert(abs_int(a as int) / (nb as int) <= abs_int(a as int) / 2) by (nonlinear_arith)
                requires nb >= 2, abs_int(a as int) >= 0;
        }
        -q
    }
}

/// Rust's `a / b` on `i16`, stated as truncating division.
pub(crate) fn div_i16(a: i16, b: i16) -> (q: i16)
    requires
        b != 0,
        !(a == i16::MIN && b == -1),
    ensures
        q == trunc_div(a as int, b as int),
{
    if b > 0 {
        let q = a / b;
        assert(q == trunc_div(a as int, b as int));
        q
    } else if b == i16::MIN {
        assert(abs_int(b as int) == 0x8000);
        if a == i16::MIN {
            assert(abs_int(a as int) / abs_int(b as int) == 1);
            1
        } else {
            assert(0 <= abs_int(a as int) < 0x8000);
            assert(abs_int(a as int) / abs_int(b as int) == 0);
            0
        }
    } else {
        let nb = -b;
        let q = a / nb;
        assert(q == trunc_div(a as int, nb as int));
        if nb == 1 {
            assert(abs_int(a as int) / 1 == abs_int(a as int));
        } else {
            assert(abs_int(a as int) / (nb as int) <= abs_int(a as int) / 2) by (nonlinear_arith)
                requires nb >= 2, abs_int(a as int) >= 0;
        }
        -q
    }
}

} // verus!
