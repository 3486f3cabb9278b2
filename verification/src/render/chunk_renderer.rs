use vstd::prelude::*;

verus! {

/// The two passes that chunks are drawn in.
#[derive(Clone, Copy, Debug, PartialEq, Eq, Structural)]
pub enum RendererType {
    Opaque,
    Alpha,
}

impl RendererType {
    /// Number of passes.
    pub const RENDERS_COUNT: usize = 2;

    /// The index of the pass's mesh data in a mesh result.
    pub fn index(self) -> (i: usize)
        ensures
            i < Self::RENDERS_COUNT,
            i == (match self { RendererType::Opaque => 0usize, RendererType::Alpha => 1usize }),
    {
        match self {
            RendererType::Opaque => 0,
            RendererType::Alpha => 1,
        }
    }
}

} // verus!
