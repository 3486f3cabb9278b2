use vstd::prelude::*;
use crate::render::vao::Vao;

verus! {

/// Draws the sun and the moon as instanced sprites from one vertex array.
pub struct SkyBodiesRenderer {
    pub vao: Vao,
    /// The number of instances drawn: the length of the instance buffer given at start.
    pub instances_count: usize,
}

impl SkyBodiesRenderer {
    /// A renderer with an empty vertex array and no instances.
    pub fn new() -> (r: Self)
        ensures
            r.instances_count == 0,
            r.vao.id_spec() == 0,
            r.vao.triangles_count_spec() == 0,
    {
        SkyBodiesRenderer { vao: Vao::new(), instances_count: 0 }
    }
}

} // verus!
