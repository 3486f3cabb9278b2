use vstd::prelude::*;
use crate::render::global_renderer::{MAX_DESCRIPTORS_BINDING_COUNT, MAX_PUSH_CONSTANT_SIZE};
use crate::render::vulkan_app::FRAMES_COUNT;

verus! {

/// `VK_SHADER_STAGE_VERTEX_BIT | VK_SHADER_STAGE_FRAGMENT_BIT`.
pub const SHADER_STAGES_VERTEX_FRAGMENT: u32 = 0x11;

/// A push constant range of a pipeline layout.
#[derive(Clone, Copy, Debug, PartialEq, Eq, Structural)]
pub struct PushConstantRange {
    pub stage_flags: u32,
    pub offset: u32,
    pub size: u32,
}

/// The descriptor set layouts of a pipeline layout and, for each frame in flight, the
/// descriptor sets bound with it. Handles are raw Vulkan handles; 0 is the null handle.
pub struct PipelineLayout {
    layout: u64,
    descriptors_layout: [u64; 2],
    descriptors_sets: [[u64; 2]; 2],
    descriptors_count: u32,
}

impl PipelineLayout {
    /// The pipeline layout handle.
    pub closed spec fn layout_spec(&self) -> u64 {
        self.layout
    }

    /// The layouts of the descriptor sets, in binding order; unused slots hold 0.
    pub closed spec fn layouts(&self) -> Seq<u64> {
        self.descriptors_layout@
    }

    /// The descriptor sets of a frame, in binding order; unused slots hold 0.
    pub closed spec fn sets(&self, frame: int) -> Seq<u64> {
        self.descriptors_sets[frame]@
    }

    /// How many descriptor sets were added.
    pub closed spec fn count(&self) -> nat {
        self.descriptors_count as nat
    }

    /// A layout with no descriptor set and a null handle.
    pub fn new() -> (p: Self)
        ensures
            p.layout_spec() == 0,
            p.count() == 0,
            p.layouts() == seq![0u64, 0u64],
            p.sets(0) == seq![0u64, 0u64],
            p.sets(1) == seq![0u64, 0u64],
    {
        let p = PipelineLayout {
            layout: 0,
            descriptors_layout: [0, 0],
            descriptors_sets: [[0, 0], [0, 0]],
            descriptors_count: 0,
        };
        assert(p.layouts() =~= seq![0u64, 0u64]);
        assert(p.sets(0) =~= seq![0u64, 0u64]);
        assert(p.sets(1) =~= seq![0u64, 0u64]);
        p
    }

    /// The layouts are those of `descriptor_layouts`, slot by slot.
    pub fn is_same(&self, descriptor_layouts: &[u64; 2]) -> (r: bool)
        ensures
            r == (self.layouts() == descriptor_layouts@),
    {
        let mut i: usize = 0;
        while i < MAX_DESCRIPTORS_BINDING_COUNT
            invariant
                i <= 2,
                forall|j: int| 0 <= j < i ==> self.descriptors_layout@[j] == descriptor_layouts@[j],
            decreases 2 - i,
        {
            if self.descriptors_layout[i] != descriptor_layouts[i] {
                return false;
            }
            i = i + 1;
        }
        assert(self.descriptors_layout@ =~= descriptor_layouts@);
        true
    }

    /// Draws with this layout bind descriptor sets.
    pub fn use_descriptor_sets(&self) -> (r: bool)
        ensures
            r == (self.count() != 0),
    {
        self.descriptors_count != 0
    }

    /// The pipeline layout handle.
    pub fn get_layout(&self) -> (l: u64)
        ensures
            l == self.layout_spec(),
    {
        self.layout
    }

    /// How many descriptor sets were added.
    pub fn descriptors_count(&self) -> (n: u32)
        ensures
            n == self.count(),
    {
        self.descriptors_count
    }

    /// The descriptor sets of a frame.
    pub fn get_descriptors_sets(&self, frame_index: usize) -> (s: [u64; 2])
        requires
            frame_index < FRAMES_COUNT,
        ensures
            s@ == self.sets(frame_index as int),
    {
        self.descriptors_sets[frame_index]
    }

    /// Adds a descriptor set in the next slot: its layout, and its set for each frame.
    pub fn add_descriptor(&mut self, layout: u64, sets: [u64; 2])
        requires
            old(self).count() < MAX_DESCRIPTORS_BINDING_COUNT,
        ensures
            final(self).count() == old(self).count() + 1,
            final(self).layouts() == old(self).layouts().update(old(self).count() as int, layout),
            final(self).sets(0) == old(self).sets(0).update(old(self).count() as int, sets@[0]),
            final(self).sets(1) == old(self).sets(1).update(old(self).count() as int, sets@[1]),
            final(self).layout_spec() == old(self).layout_spec(),
    {
        let c = self.descriptors_count as usize;
        self.descriptors_layout[c] = layout;
        let mut frame0 = self.descriptors_sets[0];
        frame0[c] = sets[0];
        let mut frame1 = self.descriptors_sets[1];
        frame1[c] = sets[1];
        self.descriptors_sets = [frame0, frame1];
        self.descriptors_count = self.descriptors_count + 1;
    }

    /// Takes a layout that is shared with another pipeline instead of creating one.
    /// Returns whether a layout must be created: it must when `shared` is null.
    pub fn create(&mut self, shared: u64) -> (must_create: bool)
        ensures
            must_create == (shared == 0),
            shared != 0 ==> final(self).layout_spec() == shared,
            shared == 0 ==> final(self).layout_spec() == old(self).layout_spec(),
            final(self).count() == old(self).count(),
            final(self).layouts() == old(self).layouts(),
            final(self).sets(0) == old(self).sets(0),
            final(self).sets(1) == old(self).sets(1),
    {
        if shared != 0 {
            self.layout = shared;
            return false;
        }
        true
    }

    /// Records the layout that Vulkan created.
    pub fn set_layout(&mut self, layout: u64)
        ensures
            final(self).layout_spec() == layout,
            final(self).count() == old(self).count(),
            final(self).layouts() == old(self).layouts(),
            final(self).sets(0) == old(self).sets(0),
            final(self).sets(1) == old(self).sets(1),
    {
        self.layout = layout;
    }

    /// What a new pipeline layout is created over, when `create` asks for one: the descriptor
    /// set layouts added so far, in binding order, and one push constant range for the vertex
    /// and fragment stages, from offset 0 over `MAX_PUSH_CONSTANT_SIZE` bytes.
    pub fn new_layout_info(&self) -> (r: (Vec<u64>, PushConstantRange))
        requires
            self.count() <= MAX_DESCRIPTORS_BINDING_COUNT,
        ensures
            r.0@ == self.layouts().subrange(0, self.count() as int),
            r.1 == (PushConstantRange {
                stage_flags: SHADER_STAGES_VERTEX_FRAGMENT,
                offset: 0,
                size: MAX_PUSH_CONSTANT_SIZE as u32,
            }),
    {
        let mut set_layouts: Vec<u64> = Vec::new();
        let n = self.descriptors_count as usize;
        let mut i: usize = 0;
        while i < n
            invariant
                i <= n,
                n == self.count(),
                n <= 2,
                set_layouts@ == self.layouts().subrange(0, i as int),
            decreases n - i,
        {
            set_layouts.push(self.descriptors_layout[i]);
            assert(set_layouts@ =~= self.layouts().subrange(0, i + 1));
            i = i + 1;
        }
        (set_layouts, PushConstantRange { stage_flags: SHADER_STAGES_VERTEX_FRAGMENT, offset: 0, size: 128 })
    }
}

} // verus!
