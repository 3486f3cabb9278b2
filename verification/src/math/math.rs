use vstd::prelude::*;
use crate::math::{trunc_div, div_i32, Vec2i, Vec3i};
use crate::math::utils::chunk_distance;

verus! {

/// The position of a block inside its chunk: the block's global position minus the chunk's
/// origin, `-(chunk_pos * chunk_size - global_block)` on each axis. `global_block` is the global
/// position already rounded down to whole blocks.
pub fn get_chunk_block(chunk_pos: Vec3i, global_block: Vec3i, chunk_size: Vec3i) -> (r: Vec3i)
    requires
        i32::MIN <= chunk_pos.x * chunk_size.x <= i32::MAX,
        i32::MIN <= chunk_pos.y * chunk_size.y <= i32::MAX,
        i32::MIN <= chunk_pos.z * chunk_size.z <= i32::MAX,
        i32::MIN < chunk_pos.x * chunk_size.x - global_block.x <= i32::MAX,
        i32::MIN < chunk_pos.y * chunk_size.y - global_block.y <= i32::MAX,
        i32::MIN < chunk_pos.z * chunk_size.z - global_block.z <= i32::MAX,
    ensures
        r.x == global_block.x - chunk_pos.x * chunk_size.x,
        r.y == global_block.y - chunk_pos.y * chunk_size.y,
        r.z == global_block.z - chunk_pos.z * chunk_size.z,
{
    Vec3i {
        x: -(chunk_pos.x * chunk_size.x - global_block.x),
        y: -(chunk_pos.y * chunk_size.y - global_block.y),
        z: -(chunk_pos.z * chunk_size.z - global_block.z),
    }
}

/// The region of a chunk: its x and z positions divided by `region_size`, rounding toward zero.
pub fn get_chunk_region(chunk_pos: Vec3i, region_size: i32) -> (r: Vec2i)
    requires
        region_size != 0,
        !(chunk_pos.x == i32::MIN && region_size == -1),
        !(chunk_pos.z == i32::MIN && region_size == -1),
    ensures
        r.x == trunc_div(chunk_pos.x as int, region_size as int),
        r.y == trunc_div(chunk_pos.z as int, region_size as int),
{
    Vec2i { x: div_i32(chunk_pos.x, region_size), y: div_i32(chunk_pos.z, region_size) }
}

/// The horizontal distance between two chunk positions in whole chunks, as the `f32`
/// computation `((dx * dx) as f32 + (dz * dz) as f32).sqrt() as i32` gives it, where `dx` and
/// `dz` are the differences in x and z.
///
/// The inputs are those on which the differences and their squares fit in `i32`.
pub fn get_chunk_distance(pos1: Vec3i, pos2: Vec3i) -> (r: i32)
    requires
        i32::MIN <= pos1.x - pos2.x <= i32::MAX,
        i32::MIN <= pos1.z - pos2.z <= i32::MAX,
        (pos1.x - pos2.x) * (pos1.x - pos2.x) <= i32::MAX,
        (pos1.z - pos2.z) * (pos1.z - pos2.z) <= i32::MAX,
    ensures
        r == chunk_distance(pos1.x - pos2.x, pos1.z - pos2.z),
{
    crate::math::utils::get_chunk_distance(pos1, pos2)
}

/// Law: the distance from one chunk to another is the distance back.
pub proof fn lemma_chunk_distance_symmetric(a: Vec3i, b: Vec3i)
    ensures
        chunk_distance(a.x - b.x, a.z - b.z) == chunk_distance(b.x - a.x, b.z - a.z),
{
    assert((b.x - a.x) * (b.x - a.x) == (a.x - b.x) * (a.x - b.x)) by (nonlinear_arith);
    assert((b.z - a.z) * (b.z - a.z) == (a.z - b.z) * (a.z - b.z)) by (nonlinear_arith);
}

} // verus!
