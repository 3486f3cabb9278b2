use vstd::prelude::*;
use crate::math::trunc_div;
use crate::render::render_utils::{GlState, GlStateView};

verus! {

/// The three buffers a vertex array can own.
#[derive(Clone, Copy, Debug, PartialEq, Eq, Structural)]
pub enum VaoBuffers {
    Vbo,
    Ebo,
    Instance,
}

/// The slot of a buffer kind in a vertex array.
pub open spec fn vao_slot(kind: VaoBuffers) -> int {
    match kind {
        VaoBuffers::Vbo => 0,
        VaoBuffers::Ebo => 1,
        VaoBuffers::Instance => 2,
    }
}

impl VaoBuffers {
    /// The slot of this buffer kind.
    pub fn slot(self) -> (i: usize)
        ensures
            i == vao_slot(self),
    {
        match self {
            VaoBuffers::Vbo => 0,
            VaoBuffers::Ebo => 1,
            VaoBuffers::Instance => 2,
        }
    }
}

/// One buffer of a vertex array: its GL name, its size in bytes and its binding index.
#[derive(Clone, Copy, Debug, PartialEq, Eq, Structural)]
pub struct BufferInfo {
    pub id: u32,
    pub size: u32,
    pub binding_index: u32,
}

/// How a buffer is refilled by `smart_reallocate_buffer`.
#[derive(Clone, Copy, Debug, PartialEq, Eq, Structural)]
pub enum BufferWrite {
    /// Allocate new storage of the data's size (`glNamedBufferData`).
    Reallocate,
    /// Overwrite the start of the existing storage (`glNamedBufferSubData`).
    SubData,
}

/// The book-keeping of a GL vertex array object: its name, its buffers and the binding
/// index that attribute calls use. The GL calls themselves are made by the caller, which
/// hands the names that GL returns to these methods.
pub struct Vao {
    triangles_count: i32,
    id: u32,
    binding_index: u32,
    binding_buffer: VaoBuffers,
    buffers: [BufferInfo; 3],
}

/// `size as i32 / 4`, as the triangle count is computed from a byte size.
pub open spec fn quarter_of_size(size: usize) -> int {
    trunc_div((size as i32) as int, 4)
}

impl Vao {
    /// Number of indices to draw: a quarter of the index buffer's size in bytes.
    pub closed spec fn triangles_count_spec(&self) -> i32 {
        self.triangles_count
    }

    /// The GL name of the vertex array, 0 when none was generated.
    pub closed spec fn id_spec(&self) -> u32 {
        self.id
    }

    /// A vertex array was generated: its name is not 0.
    pub closed spec fn is_generated_spec(&self) -> bool {
        self.id != 0
    }

    /// The binding index that attribute calls use.
    pub closed spec fn binding_index_spec(&self) -> u32 {
        self.binding_index
    }

    /// The buffer that the last data upload went to.
    pub closed spec fn binding_buffer_spec(&self) -> VaoBuffers {
        self.binding_buffer
    }

    /// The buffer of each kind.
    pub closed spec fn buffer_spec(&self, kind: VaoBuffers) -> BufferInfo {
        self.buffers[vao_slot(kind)]
    }

    /// An empty vertex array: nothing generated, no triangles.
    pub fn new() -> (v: Self)
        ensures
            v.triangles_count_spec() == 0,
            v.id_spec() == 0,
            v.binding_index_spec() == 0,
            v.binding_buffer_spec() == VaoBuffers::Vbo,
            forall|k: VaoBuffers| v.buffer_spec(k) == (BufferInfo { id: 0, size: 0, binding_index: 0 }),
    {
        Vao {
            triangles_count: 0,
            id: 0,
            binding_index: 0,
            binding_buffer: VaoBuffers::Vbo,
            buffers: [BufferInfo { id: 0, size: 0, binding_index: 0 }; 3],
        }
    }

    /// Number of indices to draw.
    pub fn triangles_count(&self) -> (n: i32)
        ensures
            n == self.triangles_count_spec(),
    {
        self.triangles_count
    }

    /// The GL name of the vertex array.
    pub fn id(&self) -> (id: u32)
        ensures
            id == self.id_spec(),
    {
        self.id
    }

    /// The binding index that attribute calls use.
    pub fn binding_index(&self) -> (b: u32)
        ensures
            b == self.binding_index_spec(),
    {
        self.binding_index
    }

    /// The buffer of a kind.
    pub fn buffer(&self, kind: VaoBuffers) -> (b: BufferInfo)
        ensures
            b == self.buffer_spec(kind),
    {
        self.buffers[kind.slot()]
    }

    /// The vertex array has been generated.
    pub fn is_generated(&self) -> (r: bool)
        ensures
            r == self.is_generated_spec(),
            r == (self.id_spec() != 0),
    {
        self.id != 0
    }

    /// Makes this vertex array current. Returns whether `glBindVertexArray` must be called
    /// with this array's name.
    pub fn bind(&self, gl: &mut GlState) -> (call: bool)
        ensures
            call == (old(gl).view().vao != self.id_spec()),
            final(gl).view() == (GlStateView { vao: self.id_spec(), ..old(gl).view() }),
    {
        gl.bind_vao(self.id)
    }

    /// Records the name that `glCreateVertexArrays` returned.
    pub fn gen_vao(&mut self, id: u32)
        ensures
            final(self).id_spec() == id,
            final(self).triangles_count_spec() == old(self).triangles_count_spec(),
            final(self).binding_index_spec() == old(self).binding_index_spec(),
            final(self).binding_buffer_spec() == old(self).binding_buffer_spec(),
            forall|k: VaoBuffers| final(self).buffer_spec(k) == old(self).buffer_spec(k),
    {
        self.id = id;
    }

    /// Records a buffer that `glCreateBuffers` returned for a kind. The buffer takes the
    /// current binding index; a vertex or instance buffer then moves the binding index on,
    /// an index buffer does not.
    pub fn gen_buffer(&mut self, vao_buffer: VaoBuffers, buffer_id: u32)
        requires
            vao_buffer != VaoBuffers::Ebo ==> old(self).binding_index_spec() < u32::MAX,
        ensures
            final(self).buffer_spec(vao_buffer)
                == (BufferInfo { id: buffer_id, size: 0, binding_index: old(self).binding_index_spec() }),
            forall|k: VaoBuffers| k != vao_buffer ==> final(self).buffer_spec(k) == old(self).buffer_spec(k),
            final(self).binding_index_spec() == (if vao_buffer == VaoBuffers::Ebo {
                old(self).binding_index_spec() as int
            } else {
                old(self).binding_index_spec() + 1
            }),
            final(self).id_spec() == old(self).id_spec(),
            final(self).triangles_count_spec() == old(self).triangles_count_spec(),
            final(self).binding_buffer_spec() == old(self).binding_buffer_spec(),
    {
        let i = vao_buffer.slot();
        self.buffers[i] = BufferInfo { id: buffer_id, size: 0, binding_index: self.binding_index };
        match vao_buffer {
            VaoBuffers::Ebo => {}
            _ => {
                self.binding_index = self.binding_index + 1;
            }
        }
    }

    /// Records an upload of `size` bytes to a buffer and returns the buffer's name, to pass to
    /// `glNamedBufferData`. The buffer's size becomes `size as u32`. An index buffer sets the
    /// triangle count to `size as i32 / 4` (and is attached with `glVertexArrayElementBuffer`);
    /// another buffer makes its binding index current. The buffer becomes the one that
    /// `set_stride` refers to.
    pub fn buffer_data(&mut self, buffer: VaoBuffers, size: usize) -> (id: u32)
        ensures
            id == old(self).buffer_spec(buffer).id,
            final(self).buffer_spec(buffer)
                == (BufferInfo { size: size as u32, ..old(self).buffer_spec(buffer) }),
            forall|k: VaoBuffers| k != buffer ==> final(self).buffer_spec(k) == old(self).buffer_spec(k),
            final(self).triangles_count_spec() == (if buffer == VaoBuffers::Ebo {
                quarter_of_size(size)
            } else {
                old(self).triangles_count_spec() as int
            }),
            final(self).binding_index_spec() == (if buffer == VaoBuffers::Ebo {
                old(self).binding_index_spec()
            } else {
                old(self).buffer_spec(buffer).binding_index
            }),
            final(self).binding_buffer_spec() == buffer,
            final(self).id_spec() == old(self).id_spec(),
    {
        let i = buffer.slot();
        let mut info = self.buffers[i];
        info.size = #[verifier::truncate] (size as u32);
        self.buffers[i] = info;
        match buffer {
            VaoBuffers::Ebo => {
                self.triangles_count = div4(#[verifier::truncate] (size as i32));
            }
            _ => {
                self.binding_index = info.binding_index;
            }
        }
        self.binding_buffer = buffer;
        info.id
    }

    /// Checks an update of `data_size` bytes against the buffer's size and returns the buffer's
    /// name, to pass to `glNamedBufferSubData`. Larger data is refused: the update panics.
    pub fn update_buffer(&self, buffer: VaoBuffers, data_size: isize) -> (id: u32)
        requires
            data_size <= self.buffer_spec(buffer).size as isize,
        ensures
            id == self.buffer_spec(buffer).id,
    {
        self.buffers[buffer.slot()].id
    }

    /// Decides how `data_size` bytes are written to a buffer: new storage when the data is at
    /// least as large as the buffer's recorded size, otherwise an overwrite. An index buffer sets
    /// the triangle count to `data_size as i32 / 4`. The recorded size is left as it was.
    pub fn smart_reallocate_buffer(&mut self, buffer: VaoBuffers, data_size: isize) -> (w: BufferWrite)
        ensures
            w == (if data_size >= old(self).buffer_spec(buffer).size as isize {
                BufferWrite::Reallocate
            } else {
                BufferWrite::SubData
            }),
            final(self).triangles_count_spec() == (if buffer == VaoBuffers::Ebo {
                trunc_div((data_size as i32) as int, 4)
            } else {
                old(self).triangles_count_spec() as int
            }),
            final(self).id_spec() == old(self).id_spec(),
            final(self).binding_index_spec() == old(self).binding_index_spec(),
            final(self).binding_buffer_spec() == old(self).binding_buffer_spec(),
            forall|k: VaoBuffers| final(self).buffer_spec(k) == old(self).buffer_spec(k),
    {
        let info = self.buffers[buffer.slot()];
        match buffer {
            VaoBuffers::Ebo => {
                self.triangles_count = div4(#[verifier::truncate] (data_size as i32));
            }
            _ => {}
        }
        if data_size >= #[verifier::truncate] (info.size as isize) {
            BufferWrite::Reallocate
        } else {
            BufferWrite::SubData
        }
    }

    /// The buffer that `glVertexArrayVertexBuffer` attaches when the stride is set: the one that
    /// the last upload went to.
    pub fn stride_buffer(&self) -> (id: u32)
        ensures
            id == self.buffer_spec(self.binding_buffer_spec()).id,
    {
        self.buffers[self.binding_buffer.slot()].id
    }

    /// Forgets the vertex array and its buffers. Returns the buffer names to pass to
    /// `glDeleteBuffers` (those that are not 0, in slot order) and the array's name to pass to
    /// `glDeleteVertexArrays`.
    pub fn delete(&mut self) -> (r: (Vec<u32>, u32))
        ensures
            r.1 == old(self).id_spec(),
            r.0@ == seq![
                old(self).buffer_spec(VaoBuffers::Vbo).id,
                old(self).buffer_spec(VaoBuffers::Ebo).id,
                old(self).buffer_spec(VaoBuffers::Instance).id,
            ].filter(|id: u32| id != 0),
            final(self).id_spec() == 0,
            !final(self).is_generated_spec(),
            forall|k: VaoBuffers| final(self).buffer_spec(k) == (BufferInfo { id: 0, ..old(self).buffer_spec(k) }),
            final(self).triangles_count_spec() == old(self).triangles_count_spec(),
            final(self).binding_index_spec() == old(self).binding_index_spec(),
            final(self).binding_buffer_spec() == old(self).binding_buffer_spec(),
    {
        let mut ids: Vec<u32> = Vec::new();
        let ghost all = seq![self.buffers[0].id, self.buffers[1].id, self.buffers[2].id];
        let mut i: usize = 0;
        while i < 3
            invariant
                i <= 3,
                all == seq![old(self).buffers[0].id, old(self).buffers[1].id, old(self).buffers[2].id],
                ids@ == all.subrange(0, i as int).filter(|id: u32| id != 0),
                self.id == old(self).id,
                self.triangles_count == old(self).triangles_count_spec(),
                self.binding_index == old(self).binding_index,
                self.binding_buffer == old(self).binding_buffer,
                forall|j: int| 0 <= j < i ==> self.buffers[j] == (BufferInfo { id: 0, ..old(self).buffers[j] }),
                forall|j: int| i <= j < 3 ==> self.buffers[j] == old(self).buffers[j],
            decreases 3 - i,
        {
            let info = self.buffers[i];
            proof {
                reveal_with_fuel(Seq::filter, 1);
                assert(all.subrange(0, i as int + 1).drop_last() == all.subrange(0, i as int));
            }
            if info.id != 0 {
                ids.push(info.id);
            }
            self.buffers[i] = BufferInfo { id: 0, ..info };
            i = i + 1;
        }
        assert(all.subrange(0, 3) == all);
        let vao = self.id;
        self.id = 0;
        (ids, vao)
    }
}

/// `n / 4`, rounding toward zero.
fn div4(n: i32) -> (q: i32)
    ensures
        q == trunc_div(n as int, 4),
{
    crate::math::div_i32(n, 4)
}

} // verus!
