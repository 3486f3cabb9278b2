use vstd::prelude::*;

verus! {

/// The buffers of a mesh.
#[derive(Clone, Copy, Debug, PartialEq, Eq, Structural)]
pub enum BuffersTypes {
    Vertex,
    Instance,
    Index,
}

/// The slot of a buffer kind in a mesh.
pub open spec fn mesh_slot(kind: BuffersTypes) -> int {
    match kind {
        BuffersTypes::Vertex => 0,
        BuffersTypes::Instance => 1,
        BuffersTypes::Index => 2,
    }
}

impl BuffersTypes {
    /// The slot of this buffer kind.
    pub fn slot(self) -> (i: usize)
        ensures
            i == mesh_slot(self),
    {
        match self {
            BuffersTypes::Vertex => 0,
            BuffersTypes::Instance => 1,
            BuffersTypes::Index => 2,
        }
    }
}

/// The number of indices held by an index buffer of `size` bytes, each index a `u32`,
/// stored as `(size / 4) as u32`.
pub fn index_count_of(size: usize) -> (n: u32)
    ensures
        n == (size / 4) as u32,
{
    #[verifier::truncate] ((size / 4) as u32)
}

/// The count a mesh keeps after writing `size` bytes to one of its buffers: writing the index
/// buffer sets it to the new number of indices, writing another buffer keeps it.
pub fn triangles_after_write(kind: BuffersTypes, size: usize, current: u32) -> (n: u32)
    ensures
        n == (if kind == BuffersTypes::Index { (size / 4) as u32 } else { current }),
{
    match kind {
        BuffersTypes::Index => index_count_of(size),
        _ => current,
    }
}

} // verus!
