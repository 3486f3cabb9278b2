use vstd::prelude::*;
use crate::math::color3b::{Color3b, byte_at};

verus! {

/// An RGBA color with one byte per channel.
#[derive(Clone, Copy, Debug, PartialEq, Eq, Structural)]
pub struct Color4b {
    pub r: u8,
    pub g: u8,
    pub b: u8,
    pub a: u8,
}

impl Color4b {
    /// Fully transparent black.
    pub fn zero() -> (c: Self)
        ensures
            c.r == 0 && c.g == 0 && c.b == 0 && c.a == 0,
    {
        Self { r: 0, g: 0, b: 0, a: 0 }
    }

    /// Opaque white.
    pub fn white() -> (c: Self)
        ensures
            c.r == 255 && c.g == 255 && c.b == 255 && c.a == 255,
    {
        Self { r: 255, g: 255, b: 255, a: 255 }
    }

    /// Builds the color from its channels.
    pub fn new(r: u8, g: u8, b: u8, a: u8) -> (c: Self)
        ensures
            c.r == r,
            c.g == g,
            c.b == b,
            c.a == a,
    {
        Self { r, g, b, a }
    }

    /// Every channel, alpha included, equal to `value`.
    pub fn from1(value: u8) -> (c: Self)
        ensures
            c.r == value,
            c.g == value,
            c.b == value,
            c.a == value,
    {
        Self { r: value, g: value, b: value, a: value }
    }

    /// The color `rgb` with alpha `a`.
    pub fn from3(rgb: Color3b, a: u8) -> (c: Self)
        ensures
            c.r == rgb.r,
            c.g == rgb.g,
            c.b == rgb.b,
            c.a == a,
    {
        Self { r: rgb.r, g: rgb.g, b: rgb.b, a }
    }

    /// Reads `0xRRGGBBAA`: red from the top byte down to alpha in the lowest byte.
    pub fn from_hex(hex: u32) -> (c: Self)
        ensures
            c.r == byte_at(hex, 24),
            c.g == byte_at(hex, 16),
            c.b == byte_at(hex, 8),
            c.a == byte_at(hex, 0),
    {
        let r = (hex >> 24u32) as u8;
        let g = (hex >> 16u32) as u8;
        let b = (hex >> 8u32) as u8;
        let a = hex as u8;
        proof {
            assert(((hex >> 24u32) as u8) == ((hex / 0x100_0000u32) % 256u32) as u8) by (bit_vector);
            assert(((hex >> 16u32) as u8) == ((hex / 0x1_0000u32) % 256u32) as u8) by (bit_vector);
            assert(((hex >> 8u32) as u8) == ((hex / 0x100u32) % 256u32) as u8) by (bit_vector);
            assert((hex as u8) == ((hex / 1u32) % 256u32) as u8) by (bit_vector);
        }
        Self { r, g, b, a }
    }
}

/// The `0xRRGGBBAA` value of four channels.
pub open spec fn pack_rgba(r: u8, g: u8, b: u8, a: u8) -> u32 {
    ((r as int) * 0x100_0000 + (g as int) * 0x1_0000 + (b as int) * 0x100 + (a as int)) as u32
}

/// Law: reading back the hex value of four channels gives the channels.
pub proof fn lemma_color4b_hex_round_trip(r: u8, g: u8, b: u8, a: u8)
    ensures
        byte_at(pack_rgba(r, g, b, a), 24) == r,
        byte_at(pack_rgba(r, g, b, a), 16) == g,
        byte_at(pack_rgba(r, g, b, a), 8) == b,
        byte_at(pack_rgba(r, g, b, a), 0) == a,
{
    let h = pack_rgba(r, g, b, a) as int;
    let (ri, gi, bi, ai) = (r as int, g as int, b as int, a as int);
    assert(h == ri * 0x100_0000 + gi * 0x1_0000 + bi * 0x100 + ai);
    assert(h / 0x100_0000 == ri) by (nonlinear_arith)
        requires h == ri * 0x100_0000 + gi * 0x1_0000 + bi * 0x100 + ai,
            0 <= ri < 256, 0 <= gi < 256, 0 <= bi < 256, 0 <= ai < 256;
    assert(h / 0x1_0000 == ri * 0x100 + gi) by (nonlinear_arith)
        requires h == ri * 0x100_0000 + gi * 0x1_0000 + bi * 0x100 + ai,
            0 <= ri < 256, 0 <= gi < 256, 0 <= bi < 256, 0 <= ai < 256;
    assert(h / 0x100 == ri * 0x1_0000 + gi * 0x100 + bi) by (nonlinear_arith)
        requires h == ri * 0x100_0000 + gi * 0x1_0000 + bi * 0x100 + ai,
            0 <= ri < 256, 0 <= gi < 256, 0 <= bi < 256, 0 <= ai < 256;
    assert((ri * 0x100 + gi) % 256 == gi) by (nonlinear_arith)
        requires 0 <= ri < 256, 0 <= gi < 256;
    assert((ri * 0x1_0000 + gi * 0x100 + bi) % 256 == bi) by (nonlinear_arith)
        requires 0 <= ri < 256, 0 <= gi < 256, 0 <= bi < 256;
    assert(h % 256 == ai) by (nonlinear_arith)
        requires h == ri * 0x100_0000 + gi * 0x1_0000 + bi * 0x100 + ai,
            0 <= ri < 256, 0 <= gi < 256, 0 <= bi < 256, 0 <= ai < 256;
}

} // verus!
