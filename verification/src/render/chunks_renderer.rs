use vstd::prelude::*;

verus! {

/// The two passes that the chunks renderer draws, each from its own profile.
#[derive(Clone, Copy, Debug, PartialEq, Eq, Structural)]
pub enum ChunksRendererType {
    Opaque,
    Alpha,
}

impl ChunksRendererType {
    /// Number of passes.
    pub const RENDERS_COUNT: usize = 2;

    /// The index of the pass's profile and mesh data.
    pub fn index(self) -> (i: usize)
        ensures
            i < Self::RENDERS_COUNT,
            i == (match self { ChunksRendererType::Opaque => 0usize, ChunksRendererType::Alpha => 1usize }),
    {
        match self {
            ChunksRendererType::Opaque => 0,
            ChunksRendererType::Alpha => 1,
        }
    }
}

} // verus!
