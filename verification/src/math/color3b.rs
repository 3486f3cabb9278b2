use vstd::prelude::*;

verus! {

/// An RGB color with one byte per channel.
#[derive(Clone, Copy, Debug, PartialEq, Eq, Structural)]
pub struct Color3b {
    pub r: u8,
    pub g: u8,
    pub b: u8,
}

/// The byte of `hex` that starts at bit `shift`, as `(hex >> shift) as u8` computes it.
pub open spec fn byte_at(hex: u32, shift: u32) -> u8 {
    ((hex as nat / pow2_u32(shift)) % 256) as u8
}

/// `2` raised to `shift`, for the shifts that pick a byte out of a `u32`.
pub open spec fn pow2_u32(shift: u32) -> nat {
    if shift == 0 {
        1
    } else if shift == 8 {
        0x100
    } else if shift == 16 {
        0x1_0000
    } else {
        0x100_0000
    }
}

impl Color3b {
    /// Black.
    pub fn zero() -> (c: Self)
        ensures
            c.r == 0 && c.g == 0 && c.b == 0,
    {
        Self { r: 0, g: 0, b: 0 }
    }

    /// White.
    pub fn white() -> (c: Self)
        ensures
            c.r == 255 && c.g == 255 && c.b == 255,
    {
        Self { r: 255, g: 255, b: 255 }
    }

    /// Builds the color from its channels.
    pub fn new(r: u8, g: u8, b: u8) -> (c: Self)
        ensures
            c.r == r,
            c.g == g,
            c.b == b,
    {
        Self { r, g, b }
    }

    /// A gray with every channel equal to `value`.
    pub fn from1(value: u8) -> (c: Self)
        ensures
            c.r == value,
            c.g == value,
            c.b == value,
    {
        Self { r: value, g: value, b: value }
    }

    /// Reads `0xRRGGBB`: red from bits 16..24, green from bits 8..16, blue from bits 0..8.
    /// The top byte is ignored.
    pub fn from_hex(hex: u32) -> (c: Self)
        ensures
            c.r == byte_at(hex, 16),
            c.g == byte_at(hex, 8),
            c.b == byte_at(hex, 0),
    {
        let r = (hex >> 16u32) as u8;
        let g = (hex >> 8u32) as u8;
        let b = hex as u8;
        proof {
            assert(((hex >> 16u32) as u8) == ((hex / 0x1_0000u32) % 256u32) as u8) by (bit_vector);
            assert(((hex >> 8u32) as u8) == ((hex / 0x100u32) % 256u32) as u8) by (bit_vector);
            assert((hex as u8) == ((hex / 1u32) % 256u32) as u8) by (bit_vector);
        }
        Self { r, g, b }
    }
}

} // verus!
