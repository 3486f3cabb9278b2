use voxel_game::math::{Color3b, Color4b, Vec2i, Vec2i16, Vec2u8, Vec3i, Vec4i16};
use voxel_game::math::utils::{align_up, get_index, get_chunk_distance, isqrt, GetChunkRegion};
use voxel_game::math::math::{get_chunk_block, get_chunk_region};
use std::ops::{AddAssign, DivAssign, MulAssign, SubAssign};

#[test]
fn vec2i_lane_operators() {
    let a = Vec2i::new(7, -8);
    let b = Vec2i::new(2, 3);
    assert_eq!(a + b, Vec2i::new(9, -5));
    assert_eq!(a - b, Vec2i::new(5, -11));
    assert_eq!(a * b, Vec2i::new(14, -24));
    assert_eq!(a / b, Vec2i::new(3, -2));
    assert_eq!(a + 1, Vec2i::new(8, -7));
    assert_eq!(a * 2, Vec2i::new(14, -16));
    assert_eq!(Vec2i::from1f(4), Vec2i::new(4, 4));
    assert_eq!(Vec2i::zero(), Vec2i::new(0, 0));
}

#[test]
fn signed_division_rounds_toward_zero() {
    let a = Vec2i::new(-7, 7);
    assert_eq!(a / Vec2i::new(2, -2), Vec2i::new(-3, -3));
    assert_eq!(a / -2, Vec2i::new(3, -3));
    assert_eq!(Vec2i::new(i32::MIN, 5) / Vec2i::new(i32::MIN, i32::MIN), Vec2i::new(1, 0));
    assert_eq!(Vec4i16::new(-9, 9, -1, i16::MIN) / 4, Vec4i16::new(-2, 2, 0, -8192));
}

#[test]
fn assign_operators_update_in_place() {
    let mut v = Vec3i::new(1, 2, 3);
    v.add_assign(Vec3i::from1(10));
    assert_eq!(v, Vec3i::new(11, 12, 13));
    v.sub_assign(1);
    assert_eq!(v, Vec3i::new(10, 11, 12));
    v.mul_assign(Vec3i::new(2, -1, 0));
    assert_eq!(v, Vec3i::new(20, -11, 0));
    v.div_assign(3);
    assert_eq!(v, Vec3i::new(6, -3, 0));
    let mut u = Vec2u8::new(200, 7);
    u.add_assign(Vec2u8::new(55, 1));
    assert_eq!(u, Vec2u8::new(255, 8));
    u.div_assign(2);
    assert_eq!(u, Vec2u8::new(127, 4));
    let mut s = Vec2i16::from1(-3);
    s.mul_assign(Vec2i16::new(3, -3));
    assert_eq!(s, Vec2i16::new(-9, 9));
}

#[test]
fn color3b_from_hex_reads_rgb_and_ignores_top_byte() {
    let c = Color3b::from_hex(0x12AB34CD);
    assert_eq!(c, Color3b::new(0xAB, 0x34, 0xCD));
    assert_eq!(Color3b::from_hex(0xFFFFFF), Color3b::white());
    assert_eq!(Color3b::from1(9), Color3b::new(9, 9, 9));
}

#[test]
fn color4b_hex_round_trip() {
    let c = Color4b::from_hex(0x11223344);
    assert_eq!(c, Color4b::new(0x11, 0x22, 0x33, 0x44));
    let packed = (0xDEu32 << 24) | (0xADu32 << 16) | (0xBEu32 << 8) | 0xEFu32;
    assert_eq!(Color4b::from_hex(packed), Color4b::new(0xDE, 0xAD, 0xBE, 0xEF));
    assert_eq!(Color4b::from3(Color3b::new(1, 2, 3), 4), Color4b::new(1, 2, 3, 4));
    assert_eq!(Color4b::from1(0), Color4b::zero());
}

#[test]
fn align_up_rounds_to_the_next_multiple() {
    assert_eq!(align_up(5, 4), 8);
    assert_eq!(align_up(8, 4), 8);
    assert_eq!(align_up(0, 4), 0);
    assert_eq!(align_up(1, 256), 256);
    assert_eq!(align_up(align_up(13, 8), 8), align_up(13, 8));
}

#[test]
fn align_up_of_a_negative_value_rounds_toward_zero() {
    assert_eq!(align_up(-5, 4), 0);
    assert_eq!(align_up(-8, 4), -4);
}

#[test]
fn get_index_is_x_fastest_then_y_then_z() {
    let size = Vec3i::new(16, 256, 16);
    assert_eq!(get_index(0, 0, 0, size), 0);
    assert_eq!(get_index(1, 2, 3, size), 3 * 256 * 16 + 2 * 16 + 1);
    assert_eq!(get_index(15, 255, 15, size), 16 * 256 * 16 - 1);
    assert_ne!(get_index(0, 1, 0, size), get_index(16 - 1, 0, 0, size));
}

#[test]
fn chunk_region_divides_toward_zero() {
    assert_eq!(GetChunkRegion(Vec3i::new(33, 5, -1), 32), Vec2i::new(1, 0));
    assert_eq!(get_chunk_region(Vec3i::new(-33, 0, 64), 32), Vec2i::new(-1, 2));
}

#[test]
fn chunk_distance_small_values() {
    let origin = Vec3i::new(0, 0, 0);
    assert_eq!(get_chunk_distance(origin, Vec3i::new(3, 99, 4)), 5);
    assert_eq!(get_chunk_distance(origin, Vec3i::new(1, 0, 1)), 1);
    assert_eq!(get_chunk_distance(Vec3i::new(-2, 0, 7), Vec3i::new(4, 0, -1)), 10);
    assert_eq!(
        get_chunk_distance(Vec3i::new(5, 0, 9), Vec3i::new(-3, 0, 2)),
        get_chunk_distance(Vec3i::new(-3, 0, 2), Vec3i::new(5, 0, 9))
    );
    assert_eq!(voxel_game::math::math::get_chunk_distance(origin, Vec3i::new(6, 0, 8)), 10);
}

#[test]
fn isqrt_exact_values() {
    assert_eq!(isqrt(0), 0);
    assert_eq!(isqrt(15), 3);
    assert_eq!(isqrt(16), 4);
    assert_eq!(isqrt(0x1_FFFF_FFFF), 92681);
}

#[test]
fn chunk_block_is_the_offset_from_the_chunk_origin() {
    let size = Vec3i::new(16, 256, 16);
    assert_eq!(get_chunk_block(Vec3i::new(2, 0, -1), Vec3i::new(37, 70, -3), size), Vec3i::new(5, 70, 13));
}

#[test]
fn chunk_indices_are_distinct_and_in_bounds() {
    let size = Vec3i::new(2, 3, 4);
    let mut seen = vec![false; 24];
    for z in 0..4 {
        for y in 0..3 {
            for x in 0..2 {
                let i = get_index(x, y, z, size);
                assert!(i < 24);
                assert!(!seen[i]);
                seen[i] = true;
            }
        }
    }
    assert!(seen.iter().all(|s| *s));
}

/// The distance as single precision floating point computes it.
fn float_chunk_distance(dx: i32, dz: i32) -> i32 {
    let x = dx.pow(2) as f32;
    let z = dz.pow(2) as f32;
    (x + z).sqrt() as i32
}

#[test]
fn chunk_distance_rounds_like_single_precision() {
    let origin = Vec3i::new(0, 0, 0);
    // the square root of 17918288 is 4232.99998..., which single precision rounds to 4233
    assert_eq!(get_chunk_distance(origin, Vec3i::new(4232, 0, 92)), 4233);
    assert_eq!(get_chunk_distance(Vec3i::new(4232, 0, 92), origin), 4233);
    assert_eq!(get_chunk_distance(origin, Vec3i::new(46340, 0, 46340)), float_chunk_distance(46340, 46340));
}

#[test]
fn chunk_distance_matches_single_precision_on_many_inputs() {
    let origin = Vec3i::new(0, 0, 0);
    let mut checked = 0u32;
    // near every large square, and a spread of other points
    let mut k: i32 = 1000;
    while k <= 46340 {
        for dz in 0..40 {
            for dx in [k - 1, k, k + 1] {
                if dx > 46340 {
                    continue;
                }
                let got = get_chunk_distance(origin, Vec3i::new(dx, 0, dz));
                assert_eq!(got, float_chunk_distance(dx, dz), "dx {} dz {}", dx, dz);
                checked += 1;
            }
        }
        k += 7;
    }
    // sums just below a square, where single precision may round the root up
    for k in 2..46340i32 {
        let dz0 = ((2 * k - 1) as f64).sqrt() as i32;
        for dz in (dz0 - 1).max(0)..=(dz0 + 1) {
            let dx = k - 1;
            let got = get_chunk_distance(origin, Vec3i::new(dx, 0, dz));
            assert_eq!(got, float_chunk_distance(dx, dz), "dx {} dz {}", dx, dz);
            checked += 1;
        }
    }
    let mut seed: u64 = 0x2545_F491_4F6C_DD1D;
    for _ in 0..200_000 {
        seed ^= seed << 13;
        seed ^= seed >> 7;
        seed ^= seed << 17;
        let dx = (seed % 46341) as i32;
        let dz = ((seed >> 20) % 46341) as i32;
        let got = get_chunk_distance(origin, Vec3i::new(dx, 0, -dz));
        assert_eq!(got, float_chunk_distance(dx, dz), "dx {} dz {}", dx, dz);
        checked += 1;
    }
    assert!(checked > 200_000);
}
