use vstd::prelude::*;
use crate::render::raw_buffer::{creation_flags_ok, holds_bits, BufferFlags, ONCE_BIT};

verus! {

/// The buffers of a set of vertex attributes: vertex and instance buffers are bound as
/// vertex bindings 0 and 1; the index buffer is kept apart.
#[derive(Clone, Copy, Debug, PartialEq, Eq, Structural)]
pub enum BuffersTypes {
    Vertex,
    Instance,
    Index,
}

impl BuffersTypes {
    /// The vertex binding slot of a vertex or instance buffer, or `None` for the index buffer.
    pub fn binding_slot(self) -> (i: Option<usize>)
        ensures
            i == (match self {
                BuffersTypes::Vertex => Some(0usize),
                BuffersTypes::Instance => Some(1usize),
                BuffersTypes::Index => None,
            }),
    {
        match self {
            BuffersTypes::Vertex => Some(0),
            BuffersTypes::Instance => Some(1),
            BuffersTypes::Index => None,
        }
    }
}

/// Gathers the vertex bindings that are in use, in slot order: a binding is in use when its
/// buffer size is not 0. Returns the slots to bind with one call.
pub fn used_bindings(sizes: &Vec<u64>) -> (slots: Vec<usize>)
    ensures
        slots@.len() <= sizes@.len(),
        forall|k: int| 0 <= k < slots@.len() ==> slots@[k] < sizes@.len() && sizes@[slots@[k] as int] != 0,
        forall|k: int, l: int| 0 <= k < l < slots@.len() ==> slots@[k] < slots@[l],
        forall|i: int| 0 <= i < sizes@.len() && sizes@[i] != 0 ==> slots@.contains(i as usize),
{
    let mut slots: Vec<usize> = Vec::new();
    let mut i: usize = 0;
    while i < sizes.len()
        invariant
            i <= sizes@.len(),
            slots@.len() <= i,
            forall|k: int| 0 <= k < slots@.len() ==> slots@[k] < i && sizes@[slots@[k] as int] != 0,
            forall|k: int, l: int| 0 <= k < l < slots@.len() ==> slots@[k] < slots@[l],
            forall|j: int| 0 <= j < i && sizes@[j] != 0 ==> slots@.contains(j as usize),
        decreases sizes@.len() - i,
    {
        let ghost before = slots@;
        if sizes[i] != 0 {
            slots.push(i);
            assert(slots@[slots@.len() - 1] == i);
        }
        assert forall|j: int| 0 <= j < i + 1 && sizes@[j] != 0 implies slots@.contains(j as usize) by {
            if j < i {
                let k = choose|k: int| 0 <= k < before.len() && before[k] == j as usize;
                assert(slots@[k] == j as usize);
            } else {
                assert(slots@[slots@.len() - 1] == i);
            }
        }
        i = i + 1;
    }
    slots
}

/// The slot of a buffer kind in a set of vertex attributes: vertex 0, instance 1, index 2.
pub open spec fn attrib_slot(kind: BuffersTypes) -> int {
    match kind {
        BuffersTypes::Vertex => 0,
        BuffersTypes::Instance => 1,
        BuffersTypes::Index => 2,
    }
}

fn attrib_slot_of(kind: BuffersTypes) -> (i: usize)
    ensures
        i == attrib_slot(kind),
{
    match kind {
        BuffersTypes::Vertex => 0,
        BuffersTypes::Instance => 1,
        BuffersTypes::Index => 2,
    }
}

/// What binding a set of vertex attributes records: the vertex buffers in use (`slots`, in
/// increasing order, compacted) bound with one call from binding `first_binding`, and the index
/// buffer when it holds data.
pub struct VertexBindPlan {
    pub first_binding: u32,
    pub slots: Vec<usize>,
    pub bind_index: bool,
}

/// The sizes and flags of the vertex, instance and index buffers of a set of vertex attributes
/// (0 for a buffer not created), and the number of indices it draws.
pub struct VerticesAttributesView {
    pub sizes: Seq<u64>,
    pub flags: Seq<BufferFlags>,
    pub triangles_count: u32,
}

/// The vertex, instance and index buffers of a mesh: their sizes and flags, and the number of
/// indices it draws. The device buffers themselves live with the caller, in the same slots.
pub struct VerticesAttributes {
    sizes: [u64; 3],
    flags: [BufferFlags; 3],
    pub triangles_count: u32,
}

impl VerticesAttributes {
    /// The sizes, flags and index count.
    pub closed spec fn view(&self) -> VerticesAttributesView {
        VerticesAttributesView { sizes: self.sizes@, flags: self.flags@, triangles_count: self.triangles_count }
    }

    /// No buffer created.
    pub fn new() -> (a: Self)
        ensures
            a.view().sizes == seq![0u64, 0u64, 0u64],
            a.view().flags.len() == 3,
            a.view().triangles_count == 0,
    {
        let a = VerticesAttributes {
            sizes: [0, 0, 0],
            flags: [BufferFlags::empty(), BufferFlags::empty(), BufferFlags::empty()],
            triangles_count: 0,
        };
        assert(a.view().sizes =~= seq![0u64, 0u64, 0u64]);
        a
    }

    /// The size of a buffer (0 when it is not in use).
    pub fn size(&self, kind: BuffersTypes) -> (n: u64)
        ensures
            n == self.view().sizes[attrib_slot(kind)],
    {
        self.sizes[attrib_slot_of(kind)]
    }

    /// Records the creation of a buffer of `size` bytes with `flags`; creating the index
    /// buffer sets the index count to `size / 4`.
    pub fn create_buffer(&mut self, kind: BuffersTypes, size: u64, flags: BufferFlags)
        requires
            creation_flags_ok(flags),
            size != 0,
        ensures
            final(self).view().sizes == old(self).view().sizes.update(attrib_slot(kind), size),
            final(self).view().flags == old(self).view().flags.update(attrib_slot(kind), flags),
            final(self).view().triangles_count
                == (if kind == BuffersTypes::Index { (size / 4) as u32 } else { old(self).view().triangles_count }),
    {
        let i = attrib_slot_of(kind);
        self.sizes[i] = size;
        self.flags[i] = flags;
        if i == 2 {
            self.triangles_count = #[verifier::truncate] ((size / 4) as u32);
        }
    }

    /// Writes `data_size` bytes to a buffer. A write-once buffer, or one smaller than the data, is
    /// destroyed and created again with the data, at that size and with `flags`; otherwise the
    /// data overwrites its start and its size and flags stay. Writing the index buffer sets the
    /// index count to `data_size / 4`. Returns whether the buffer is created again.
    pub fn update_or_realloc(&mut self, kind: BuffersTypes, data_size: u64, flags: BufferFlags) -> (recreate: bool)
        requires
            creation_flags_ok(flags),
            data_size != 0,
        ensures
            recreate == (holds_bits(old(self).view().flags[attrib_slot(kind)], ONCE_BIT)
                || data_size > old(self).view().sizes[attrib_slot(kind)]),
            recreate ==> final(self).view().sizes == old(self).view().sizes.update(attrib_slot(kind), data_size),
            recreate ==> final(self).view().flags == old(self).view().flags.update(attrib_slot(kind), flags),
            !recreate ==> final(self).view().sizes == old(self).view().sizes,
            !recreate ==> final(self).view().flags == old(self).view().flags,
            final(self).view().triangles_count
                == (if kind == BuffersTypes::Index { (data_size / 4) as u32 } else { old(self).view().triangles_count }),
    {
        let i = attrib_slot_of(kind);
        if i == 2 {
            self.triangles_count = #[verifier::truncate] ((data_size / 4) as u32);
        }
        let recreate = self.flags[i].contains(BufferFlags::once()) || data_size > self.sizes[i];
        if recreate {
            self.sizes[i] = data_size;
            self.flags[i] = flags;
        }
        recreate
    }

    /// What `bind` records: the vertex and instance buffers that hold data, compacted, from
    /// binding 0, and the index buffer only when it holds data.
    pub fn bind_plan(&self) -> (p: VertexBindPlan)
        ensures
            p.first_binding == 0,
            p.slots@.len() <= 2,
            forall|k: int| 0 <= k < p.slots@.len() ==> p.slots@[k] < 2 && self.view().sizes[p.slots@[k] as int] != 0,
            forall|k: int, l: int| 0 <= k < l < p.slots@.len() ==> p.slots@[k] < p.slots@[l],
            forall|i: int| 0 <= i < 2 && self.view().sizes[i] != 0 ==> p.slots@.contains(i as usize),
            p.bind_index == (self.view().sizes[2] != 0),
    {
        let mut sizes: Vec<u64> = Vec::new();
        sizes.push(self.sizes[0]);
        sizes.push(self.sizes[1]);
        let slots = used_bindings(&sizes);
        assert(sizes@[0] == self.view().sizes[0] && sizes@[1] == self.view().sizes[1]);
        assert forall|i: int| 0 <= i < 2 && self.view().sizes[i] != 0 implies slots@.contains(i as usize) by {
            assert(sizes@[i] != 0);
        }
        VertexBindPlan { first_binding: 0, slots, bind_index: self.sizes[2] != 0 }
    }
}

} // verus!
