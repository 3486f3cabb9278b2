use vstd::prelude::*;
use vstd::arithmetic::div_mod::{lemma_fundamental_div_mod, lemma_fundamental_div_mod_converse, lemma_mod_multiples_basic};
use crate::math::{trunc_div, div_i32, Vec2i, Vec3i};

verus! {

/// The linear index of block `(x, y, z)` in a chunk whose size is `(sx, sy, _)`:
/// blocks are stored x-fastest, then y, then z.
pub open spec fn chunk_index(x: int, y: int, z: int, sx: int, sy: int) -> int {
    z * sy * sx + y * sx + x
}

/// What `align_up` computes, with Rust's truncating division.
pub open spec fn align_up_spec(value: int, alignment: int) -> int {
    trunc_div(value + alignment - 1, alignment) * alignment
}

/// `r` is the integer square root of `n`: the largest `r >= 0` with `r * r <= n`.
pub open spec fn is_isqrt(n: int, r: int) -> bool {
    &&& 0 <= r
    &&& r * r <= n
    &&& n < (r + 1) * (r + 1)
}

/// Rounds `value` up to a multiple of `alignment`, as `((value + alignment - 1) / alignment) * alignment`.
///
/// The inputs are those on which none of the three steps overflows or divides by zero.
pub fn align_up(value: i32, alignment: i32) -> (r: i32)
    requires
        alignment != 0,
        i32::MIN <= value + alignment - 1 <= i32::MAX,
        i32::MIN <= value + alignment <= i32::MAX,
        !(value + alignment - 1 == i32::MIN && alignment == -1),
        i32::MIN <= align_up_spec(value as int, alignment as int) <= i32::MAX,
    ensures
        r == align_up_spec(value as int, alignment as int),
{
    let q = div_i32(value + alignment - 1, alignment);
    q * alignment
}

/// The index of block `(x, y, z)` in the flat block array of a chunk of size `chunk_size`:
/// `z * size.y * size.x + y * size.x + x`, converted to `usize` as `as` does.
///
/// The inputs are those on which none of the `i32` steps overflows.
pub fn get_index(x: i32, y: i32, z: i32, chunk_size: Vec3i) -> (r: usize)
    requires
        i32::MIN <= z * chunk_size.y <= i32::MAX,
        i32::MIN <= z * chunk_size.y * chunk_size.x <= i32::MAX,
        i32::MIN <= y * chunk_size.x <= i32::MAX,
        i32::MIN <= z * chunk_size.y * chunk_size.x + y * chunk_size.x <= i32::MAX,
        i32::MIN <= chunk_index(x as int, y as int, z as int, chunk_size.x as int, chunk_size.y as int) <= i32::MAX,
    ensures
        r == chunk_index(x as int, y as int, z as int, chunk_size.x as int, chunk_size.y as int) as usize,
{
    let zy = z * chunk_size.y;
    let zyx = zy * chunk_size.x;
    let yx = y * chunk_size.x;
    let i = zyx + yx + x;
    i as usize
}

/// The region of a chunk: its x and z positions divided by `region_size`, rounding toward zero.
#[allow(non_snake_case)]
pub fn GetChunkRegion(chunk_pos: Vec3i, region_size: i32) -> (r: Vec2i)
    requires
        region_size != 0,
        !(chunk_pos.x == i32::MIN && region_size == -1),
        !(chunk_pos.z == i32::MIN && region_size == -1),
    ensures
        r.x == trunc_div(chunk_pos.x as int, region_size as int),
        r.y == trunc_div(chunk_pos.z as int, region_size as int),
{
    Vec2i { x: div_i32(chunk_pos.x, region_size), y: div_i32(chunk_pos.z, region_size) }
}

/// The integer square root of `n`.
pub fn isqrt(n: u64) -> (r: u64)
    requires
        n < 0x2_0000_0000,
    ensures
        is_isqrt(n as int, r as int),
{
    let mut lo: u64 = 0;
    let mut hi: u64 = 0x2_0000;
    assert(0x2_0000 * 0x2_0000 > 0x2_0000_0000) by (nonlinear_arith);
    while hi - lo > 1
        invariant
            lo < hi <= 0x2_0000,
            lo * lo <= n,
            n < hi * hi,
        decreases hi - lo,
    {
        let mid = lo + (hi - lo) / 2;
        assert(mid * mid <= 0x2_0000 * 0x2_0000) by (nonlinear_arith)
            requires mid <= 0x2_0000;
        if mid * mid <= n {
            lo = mid;
        } else {
            hi = mid;
        }
    }
    assert(hi == lo + 1);
    lo
}

/// The gap between neighbouring `f32` values around a nonnegative integer `n < 2^33`: every
/// integer below `2^24` is an `f32`, and above it the gap doubles with each power of two.
pub open spec fn f32_spacing(n: int) -> int {
    if n < 0x100_0000 { 1 }
    else if n < 0x200_0000 { 2 }
    else if n < 0x400_0000 { 4 }
    else if n < 0x800_0000 { 8 }
    else if n < 0x1000_0000 { 16 }
    else if n < 0x2000_0000 { 32 }
    else if n < 0x4000_0000 { 64 }
    else if n < 0x8000_0000 { 128 }
    else if n < 0x1_0000_0000 { 256 }
    else { 512 }
}

/// The `f32` nearest to a nonnegative integer `n < 2^33`, ties to the even one, as `as f32`
/// and `f32` addition round.
pub open spec fn f32_round(n: int) -> int {
    let s = f32_spacing(n);
    let q = n / s;
    let rem = n % s;
    if 2 * rem < s {
        s * q
    } else if 2 * rem > s {
        s * q + s
    } else if q % 2 == 0 {
        s * q
    } else {
        s * q + s
    }
}

/// For `1 <= p <= 2^17`: `2^(24 - e)`, where `2^e` is the largest power of two below `p`. The
/// `f32` just below `p` is then `p - 2 / d`, and the midpoint between the two is `p - 1 / d`.
pub open spec fn f32_half_gap_scale(p: int) -> int {
    if p <= 1 { 0x200_0000 }
    else if p <= 2 { 0x100_0000 }
    else if p <= 4 { 0x80_0000 }
    else if p <= 8 { 0x40_0000 }
    else if p <= 0x10 { 0x20_0000 }
    else if p <= 0x20 { 0x10_0000 }
    else if p <= 0x40 { 0x8_0000 }
    else if p <= 0x80 { 0x4_0000 }
    else if p <= 0x100 { 0x2_0000 }
    else if p <= 0x200 { 0x1_0000 }
    else if p <= 0x400 { 0x8000 }
    else if p <= 0x800 { 0x4000 }
    else if p <= 0x1000 { 0x2000 }
    else if p <= 0x2000 { 0x1000 }
    else if p <= 0x4000 { 0x800 }
    else if p <= 0x8000 { 0x400 }
    else if p <= 0x1_0000 { 0x200 }
    else { 0x100 }
}

/// The square root of the integer `n` lies above the midpoint `p - 1 / d` between the integer `p`
/// and the `f32` below it, so that it rounds to `p` or above.
pub open spec fn f32_sqrt_reaches(n: int, p: int) -> bool {
    let d = f32_half_gap_scale(p);
    (p * d - 1) * (p * d - 1) < n * (d * d)
}

/// The integer square root of `n >= 0`.
pub open spec fn int_sqrt(n: int) -> int {
    choose|r: int| is_isqrt(n, r)
}

/// `n.sqrt() as i32` for an `f32` holding the integer `n`: the correctly rounded square root,
/// truncated. It is the integer square root, or one more where the root is so close below the
/// next integer that it rounds up to it.
pub open spec fn f32_sqrt_trunc(n: int) -> int {
    let r = int_sqrt(n);
    if f32_sqrt_reaches(n, r + 1) { r + 1 } else { r }
}

/// The distance in whole chunks for differences `dx` and `dz`, as the `f32` computation
/// `((dx * dx) as f32 + (dz * dz) as f32).sqrt() as i32` gives it.
pub open spec fn chunk_distance(dx: int, dz: int) -> int {
    f32_sqrt_trunc(f32_round(f32_round(dx * dx) + f32_round(dz * dz)))
}

/// The gap between neighbouring `f32` values around `n`.
fn f32_spacing_of(n: u64) -> (s: u64)
    requires
        n < 0x2_0000_0000,
    ensures
        s == f32_spacing(n as int),
        1 <= s <= 512,
{
    if n < 0x100_0000 { 1 }
    else if n < 0x200_0000 { 2 }
    else if n < 0x400_0000 { 4 }
    else if n < 0x800_0000 { 8 }
    else if n < 0x1000_0000 { 16 }
    else if n < 0x2000_0000 { 32 }
    else if n < 0x4000_0000 { 64 }
    else if n < 0x8000_0000 { 128 }
    else if n < 0x1_0000_0000 { 256 }
    else { 512 }
}

/// The `f32` nearest to `n`, ties to even, as an integer.
fn f32_round_int(n: u64) -> (r: u64)
    requires
        n < 0x2_0000_0000,
    ensures
        r == f32_round(n as int),
        r <= n + 256,
        n <= r + 256,
{
    let s = f32_spacing_of(n);
    let q = n / s;
    let rem = n % s;
    proof {
        lemma_fundamental_div_mod(n as int, s as int);
    }
    if 2 * rem < s {
        s * q
    } else if 2 * rem > s {
        s * q + s
    } else if q % 2 == 0 {
        s * q
    } else {
        s * q + s
    }
}

/// `f32_half_gap_scale(p)`.
fn f32_half_gap_scale_of(p: u64) -> (d: u64)
    requires
        1 <= p <= 0x2_0000,
    ensures
        d == f32_half_gap_scale(p as int),
        1 <= d <= 0x200_0000,
        p * d <= 0x200_0000,
{
    let d: u64 = if p <= 1 { 0x200_0000 }
    else if p <= 2 { 0x100_0000 }
    else if p <= 4 { 0x80_0000 }
    else if p <= 8 { 0x40_0000 }
    else if p <= 0x10 { 0x20_0000 }
    else if p <= 0x20 { 0x10_0000 }
    else if p <= 0x40 { 0x8_0000 }
    else if p <= 0x80 { 0x4_0000 }
    else if p <= 0x100 { 0x2_0000 }
    else if p <= 0x200 { 0x1_0000 }
    else if p <= 0x400 { 0x8000 }
    else if p <= 0x800 { 0x4000 }
    else if p <= 0x1000 { 0x2000 }
    else if p <= 0x2000 { 0x1000 }
    else if p <= 0x4000 { 0x800 }
    else if p <= 0x8000 { 0x400 }
    else if p <= 0x1_0000 { 0x200 }
    else { 0x100 };
    assert(p * d <= 0x200_0000) by (nonlinear_arith)
        requires
            1 <= p <= 0x2_0000,
            d == f32_half_gap_scale(p as int);
    d
}

/// The horizontal distance between two chunk positions in whole chunks, as the `f32`
/// computation `((dx * dx) as f32 + (dz * dz) as f32).sqrt() as i32` gives it, where `dx` and
/// `dz` are the differences in x and z. It is worked out in exact integer arithmetic that
/// follows each rounding of single precision.
///
/// The inputs are those on which the differences and their squares fit in `i32`.
pub fn get_chunk_distance(pos1: Vec3i, pos2: Vec3i) -> (r: i32)
    requires
        i32::MIN <= pos1.x - pos2.x <= i32::MAX,
        i32::MIN <= pos1.z - pos2.z <= i32::MAX,
        (pos1.x - pos2.x) * (pos1.x - pos2.x) <= i32::MAX,
        (pos1.z - pos2.z) * (pos1.z - pos2.z) <= i32::MAX,
    ensures
        r == chunk_distance(pos1.x - pos2.x, pos1.z - pos2.z),
{
    let dx = pos1.x - pos2.x;
    let dz = pos1.z - pos2.z;
    assert(dx * dx >= 0 && dz * dz >= 0) by (nonlinear_arith);
    let x = dx * dx;
    let z = dz * dz;
    let fx = f32_round_int(x as u64);
    let fz = f32_round_int(z as u64);
    let n = f32_round_int(fx + fz);
    let r = isqrt(n);
    assert(r <= 0x1_6A0A) by (nonlinear_arith)
        requires r * r <= n, n < 0x2_0000_0000, r >= 0;
    proof {
        assert(is_isqrt(n as int, r as int));
        lemma_isqrt_unique(n as int, r as int, int_sqrt(n as int));
    }
    let p = r + 1;
    let d = f32_half_gap_scale_of(p);
    let pd = p * d;
    let dd = d * d;
    assert(dd <= 0x4_0000_0000_0000) by (nonlinear_arith)
        requires dd == d * d, 1 <= d <= 0x200_0000;
    let below = pd - 1;
    assert(below * below <= 0x4_0000_0000_0000) by (nonlinear_arith)
        requires 0 <= below <= 0x200_0000;
    let lhs = (below as u128) * (below as u128);
    assert((n as u128) * (dd as u128) <= 0x8_0000_0000_0000_0000_0000) by (nonlinear_arith)
        requires n < 0x2_0000_0000, dd <= 0x4_0000_0000_0000;
    let rhs = (n as u128) * (dd as u128);
    if lhs < rhs {
        (r + 1) as i32
    } else {
        r as i32
    }
}

/// An integer square root is unique.
pub proof fn lemma_isqrt_unique(n: int, r1: int, r2: int)
    requires
        is_isqrt(n, r1),
        is_isqrt(n, r2),
    ensures
        r1 == r2,
{
    if r1 < r2 {
        assert((r1 + 1) * (r1 + 1) <= r2 * r2) by (nonlinear_arith)
            requires 0 <= r1 < r2;
    } else if r2 < r1 {
        assert((r2 + 1) * (r2 + 1) <= r1 * r1) by (nonlinear_arith)
            requires 0 <= r2 < r1;
    }
}

/// Law: for a non-negative `value` and a positive `alignment`, `align_up` gives a multiple of
/// `alignment` that is at least `value` and less than `value + alignment`.
pub proof fn lemma_align_up_rounds_up(value: int, alignment: int)
    requires
        value >= 0,
        alignment > 0,
    ensures
        align_up_spec(value, alignment) % alignment == 0,
        value <= align_up_spec(value, alignment) < value + alignment,
{
    let n = value + alignment - 1;
    let q = n / alignment;
    lemma_fundamental_div_mod(n, alignment);
    assert(trunc_div(n, alignment) == q);
    assert(q * alignment == alignment * q) by (nonlinear_arith);
    lemma_mod_multiples_basic(q, alignment);
}

/// Law: for a non-negative `value` and a positive `alignment`, aligning an aligned value
/// changes nothing.
pub proof fn lemma_align_up_idempotent(value: int, alignment: int)
    requires
        value >= 0,
        alignment > 0,
    ensures
        align_up_spec(align_up_spec(value, alignment), alignment) == align_up_spec(value, alignment),
{
    lemma_align_up_rounds_up(value, alignment);
    let r = align_up_spec(value, alignment);
    let q = r / alignment;
    lemma_fundamental_div_mod(r, alignment);
    assert(r == q * alignment) by (nonlinear_arith)
        requires r == alignment * q + r % alignment, r % alignment == 0;
    assert(r + alignment - 1 == q * alignment + (alignment - 1));
    lemma_fundamental_div_mod_converse(r + alignment - 1, alignment, q, alignment - 1);
}

/// Law: a block inside a chunk of size `(sx, sy, sz)` has an index in `0 .. sx * sy * sz`.
pub proof fn lemma_chunk_index_in_bounds(x: int, y: int, z: int, sx: int, sy: int, sz: int)
    requires
        0 <= x < sx,
        0 <= y < sy,
        0 <= z < sz,
    ensures
        0 <= chunk_index(x, y, z, sx, sy) < sx * sy * sz,
{
    let w = z * sy + y;
    assert(0 <= w <= sz * sy - 1) by (nonlinear_arith)
        requires 0 <= y < sy, 0 <= z < sz, w == z * sy + y;
    assert(chunk_index(x, y, z, sx, sy) == w * sx + x) by (nonlinear_arith)
        requires w == z * sy + y;
    assert(0 <= w * sx + x <= (sz * sy - 1) * sx + sx - 1) by (nonlinear_arith)
        requires 0 <= w <= sz * sy - 1, 0 <= x < sx;
    assert((sz * sy - 1) * sx + sx - 1 == sx * sy * sz - 1) by (nonlinear_arith);
}

/// Law: two blocks inside a chunk share an index only if they are the same block.
pub proof fn lemma_chunk_index_injective(
    x1: int, y1: int, z1: int,
    x2: int, y2: int, z2: int,
    sx: int, sy: int, sz: int,
)
    requires
        0 <= x1 < sx, 0 <= y1 < sy, 0 <= z1 < sz,
        0 <= x2 < sx, 0 <= y2 < sy, 0 <= z2 < sz,
        chunk_index(x1, y1, z1, sx, sy) == chunk_index(x2, y2, z2, sx, sy),
    ensures
        x1 == x2 && y1 == y2 && z1 == z2,
{
    let i = chunk_index(x1, y1, z1, sx, sy);
    let w1 = z1 * sy + y1;
    let w2 = z2 * sy + y2;
    assert(i == w1 * sx + x1) by (nonlinear_arith) requires w1 == z1 * sy + y1, i == chunk_index(x1, y1, z1, sx, sy);
    assert(i == w2 * sx + x2) by (nonlinear_arith) requires w2 == z2 * sy + y2, i == chunk_index(x2, y2, z2, sx, sy);
    lemma_fundamental_div_mod_converse(i, sx, w1, x1);
    lemma_fundamental_div_mod_converse(i, sx, w2, x2);
    lemma_fundamental_div_mod_converse(w1, sy, z1, y1);
    lemma_fundamental_div_mod_converse(w1, sy, z2, y2);
}

} // verus!
