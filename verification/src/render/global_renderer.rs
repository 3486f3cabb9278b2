use vstd::prelude::*;
use crate::render::material::{pass_of, Material, MaterialType};

verus! {

/// Bytes of push constant data a draw can carry.
pub const MAX_PUSH_CONSTANT_SIZE: usize = 128;
/// Descriptor sets a pipeline layout can hold.
pub const MAX_DESCRIPTORS_BINDING_COUNT: usize = 2;

/// The push constant blocks recorded in a frame. Values set before a draw go to one block,
/// opened by the first value set after the previous draw; the draw then takes the block.
pub struct PushConstants {
    sizes: Vec<u8>,
    blocks: Vec<[u8; 128]>,
    current: i32,
}

/// The abstract push constant state: each block's used size and bytes, and the block that
/// values go to, or -1 when none is open.
pub struct PushConstantsView {
    pub sizes: Seq<u8>,
    pub blocks: Seq<Seq<u8>>,
    pub current: int,
}

/// A well-formed push constant state.
pub open spec fn push_constants_ok(v: PushConstantsView) -> bool {
    &&& v.sizes.len() == v.blocks.len()
    &&& v.blocks.len() < i32::MAX
    &&& forall|i: int| 0 <= i < v.blocks.len() ==> (#[trigger] v.blocks[i]).len() == MAX_PUSH_CONSTANT_SIZE
    &&& forall|i: int| 0 <= i < v.sizes.len() ==> #[trigger] v.sizes[i] <= MAX_PUSH_CONSTANT_SIZE
    &&& v.current == -1 || 0 <= v.current
}

/// `bytes` written over `block` from `offset` on.
pub open spec fn write_bytes(block: Seq<u8>, offset: int, bytes: Seq<u8>) -> Seq<u8> {
    Seq::new(block.len(), |i: int| if offset <= i < offset + bytes.len() { bytes[i - offset] } else { block[i] })
}

impl PushConstants {
    /// The abstract state.
    pub closed spec fn view(&self) -> PushConstantsView {
        PushConstantsView {
            sizes: self.sizes@,
            blocks: self.blocks@.map_values(|b: [u8; 128]| b@),
            current: self.current as int,
        }
    }

    /// Well-formed.
    pub closed spec fn wf(&self) -> bool {
        push_constants_ok(self.view())
    }

    /// No block, none open.
    pub fn new() -> (p: Self)
        ensures
            p.wf(),
            p.view().sizes.len() == 0,
            p.view().blocks.len() == 0,
            p.view().current == -1,
    {
        let p = PushConstants { sizes: Vec::new(), blocks: Vec::new(), current: -1 };
        assert(p.view().blocks =~= Seq::<Seq<u8>>::empty());
        p
    }

    /// Forgets every block, at the start of a frame. The index of the open block, if any, is
    /// kept as it is.
    pub fn clear(&mut self)
        requires
            old(self).wf(),
        ensures
            final(self).wf(),
            final(self).view().sizes.len() == 0,
            final(self).view().blocks.len() == 0,
            final(self).view().current == old(self).view().current,
    {
        self.sizes.clear();
        self.blocks.clear();
        assert(self.view().blocks =~= Seq::<Seq<u8>>::empty());
    }

    /// Writes `bytes` at `offset` in the open block, opening a new zeroed block first when none
    /// is open. The block's size grows to cover the written bytes.
    pub fn set_push_constant(&mut self, offset: usize, bytes: &[u8])
        requires
            old(self).wf(),
            old(self).view().current < old(self).view().blocks.len(),
            offset + bytes@.len() <= MAX_PUSH_CONSTANT_SIZE,
            old(self).view().blocks.len() + 1 < i32::MAX,
        ensures
            final(self).wf(),
            old(self).view().current != -1 ==> final(self).view().current == old(self).view().current,
            old(self).view().current == -1 ==> final(self).view().current == old(self).view().blocks.len(),
            ({
                let c = final(self).view().current;
                let was_open = old(self).view().current != -1;
                let old_size: int = if was_open { old(self).view().sizes[c] as int } else { bytes@.len() as int };
                let old_block = if was_open {
                    old(self).view().blocks[c]
                } else {
                    Seq::new(MAX_PUSH_CONSTANT_SIZE as nat, |i: int| 0u8)
                };
                &&& final(self).view().sizes[c] as int
                    == if old_size >= offset + bytes@.len() { old_size } else { offset + bytes@.len() }
                &&& final(self).view().blocks[c] == write_bytes(old_block, offset as int, bytes@)
                &&& forall|i: int| 0 <= i < final(self).view().blocks.len() && i != c
                    ==> final(self).view().blocks[i] == old(self).view().blocks[i]
                        && final(self).view().sizes[i] == old(self).view().sizes[i]
                &&& final(self).view().blocks.len()
                    == old(self).view().blocks.len() + if was_open { 0int } else { 1int }
            }),
    {
        let ghost old_blocks = self.view().blocks;
        if self.current == -1 {
            self.current = self.blocks.len() as i32;
            self.sizes.push(bytes.len() as u8);
            self.blocks.push([0u8; 128]);
            proof {
                assert(self.blocks@[self.current as int]@ =~= Seq::new(MAX_PUSH_CONSTANT_SIZE as nat, |i: int| 0u8));
            }
        }
        let c = self.current as usize;
        let end = (offset + bytes.len()) as u8;
        if self.sizes[c] < end {
            self.sizes.set(c, end);
        }
        let mut block = self.blocks[c];
        let ghost start_block = block@;
        let mut i: usize = 0;
        while i < bytes.len()
            invariant
                i <= bytes@.len(),
                offset + bytes@.len() <= MAX_PUSH_CONSTANT_SIZE,
                block@.len() == MAX_PUSH_CONSTANT_SIZE,
                forall|j: int| 0 <= j < MAX_PUSH_CONSTANT_SIZE ==> #[trigger] block@[j]
                    == if offset <= j < offset + i { bytes@[j - offset] } else { start_block[j] },
            decreases bytes@.len() - i,
        {
            block[offset + i] = bytes[i];
            i = i + 1;
        }
        assert(block@ =~= write_bytes(start_block, offset as int, bytes@));
        self.blocks.set(c, block);
        proof {
            assert forall|k: int| 0 <= k < self.blocks@.len() implies (#[trigger] self.view().blocks[k]).len() == MAX_PUSH_CONSTANT_SIZE by {
                assert(self.view().blocks[k] == self.blocks@[k]@);
            }
        }
    }

    /// The number of blocks recorded this frame.
    pub fn blocks_count(&self) -> (n: usize)
        requires
            self.wf(),
        ensures
            n == self.view().blocks.len(),
    {
        self.blocks.len()
    }

    /// Hands the open block to a draw: returns its index, or -1 when no value was set since the
    /// previous draw, and closes it.
    pub fn take_for_draw(&mut self) -> (idx: i32)
        requires
            old(self).wf(),
        ensures
            final(self).wf(),
            idx == old(self).view().current,
            final(self).view().current == -1,
            final(self).view().sizes == old(self).view().sizes,
            final(self).view().blocks == old(self).view().blocks,
    {
        let idx = self.current;
        self.current = -1;
        idx
    }

    /// The used bytes of a block: what a draw pushes.
    pub fn block_bytes(&self, idx: usize) -> (r: Vec<u8>)
        requires
            self.wf(),
            idx < self.view().blocks.len(),
        ensures
            r@ == self.view().blocks[idx as int].subrange(0, self.view().sizes[idx as int] as int),
    {
        let size = self.sizes[idx] as usize;
        let block = self.blocks[idx];
        proof {
            assert(self.view().blocks[idx as int] == block@);
        }
        let mut out: Vec<u8> = Vec::new();
        let mut i: usize = 0;
        let n = size;
        assert(self.view().sizes[idx as int] <= MAX_PUSH_CONSTANT_SIZE);
        while i < n
            invariant
                i <= n,
                n == size,
                n <= 128,
                out@ == block@.subrange(0, i as int),
            decreases n - i,
        {
            out.push(block[i]);
            i = i + 1;
        }
        out
    }
}

/// The descriptor sets bound while a draw list is recorded, and the pipeline and layout in use.
#[derive(Clone, Copy, Debug)]
pub struct BoundState {
    pub pipeline: u64,
    pub pipeline_layout: u64,
    pub descriptor_sets: [u64; 2],
}

/// What a draw asks to be bound.
#[derive(Clone, Copy, Debug)]
pub struct DrawBinds {
    pub pipeline: u64,
    pub pipeline_layout: u64,
    pub descriptor_sets: [u64; 2],
    pub descriptors_count: u32,
}

/// The binding commands a draw needs.
#[derive(Clone, Copy, Debug, PartialEq, Eq, Structural)]
pub struct BindCommands {
    /// Bind this draw's pipeline.
    pub bind_pipeline: bool,
    /// Bind the descriptor sets from this index up to the draw's count, after a layout change.
    pub first_set: Option<usize>,
    /// The layout changed.
    pub layout_changed: bool,
}

/// The first index below `count` where the sets differ, or `None`.
pub open spec fn first_changed(cur: Seq<u64>, new: Seq<u64>, count: int, r: Option<usize>) -> bool {
    match r {
        Some(i) => i < count && cur[i as int] != new[i as int] && forall|j: int| 0 <= j < i ==> cur[j] == new[j],
        None => forall|j: int| 0 <= j < count ==> cur[j] == new[j],
    }
}

impl BoundState {
    /// Nothing bound: every handle null.
    pub fn new() -> (s: Self)
        ensures
            s.pipeline == 0 && s.pipeline_layout == 0 && s.descriptor_sets@ == seq![0u64, 0u64],
    {
        let s = BoundState { pipeline: 0, pipeline_layout: 0, descriptor_sets: [0, 0] };
        assert(s.descriptor_sets@ =~= seq![0u64, 0u64]);
        s
    }

    /// Decides the binding commands of the next draw and records what is then bound. The pipeline
    /// is bound when it changes. When the layout changes, the draw's descriptor sets up to its count
    /// replace the bound ones and those from the first changed one are bound; when none changed,
    /// there is no first set (the recording then stops).
    pub fn next_draw(&mut self, draw: DrawBinds) -> (c: BindCommands)
        requires
            draw.descriptors_count <= MAX_DESCRIPTORS_BINDING_COUNT,
        ensures
            c.bind_pipeline == (old(self).pipeline != draw.pipeline),
            c.layout_changed == (old(self).pipeline_layout != draw.pipeline_layout),
            final(self).pipeline == draw.pipeline,
            final(self).pipeline_layout == draw.pipeline_layout,
            c.layout_changed ==> first_changed(old(self).descriptor_sets@, draw.descriptor_sets@,
                draw.descriptors_count as int, c.first_set),
            !c.layout_changed ==> c.first_set.is_none() && final(self).descriptor_sets == old(self).descriptor_sets,
            c.layout_changed ==> forall|j: int| 0 <= j < 2 ==> #[trigger] final(self).descriptor_sets@[j]
                == if j < draw.descriptors_count { draw.descriptor_sets@[j] } else { old(self).descriptor_sets@[j] },
    {
        let bind_pipeline = self.pipeline != draw.pipeline;
        if bind_pipeline {
            self.pipeline = draw.pipeline;
        }
        let layout_changed = self.pipeline_layout != draw.pipeline_layout;
        let mut first_set: Option<usize> = None;
        if layout_changed {
            self.pipeline_layout = draw.pipeline_layout;
            let ghost before = self.descriptor_sets@;
            let count = draw.descriptors_count as usize;
            let mut i: usize = 0;
            while i < count
                invariant
                    i <= count,
                    count <= 2,
                    count == draw.descriptors_count,
                    self.pipeline == draw.pipeline,
                    self.pipeline_layout == draw.pipeline_layout,
                    forall|j: int| 0 <= j < 2 ==> #[trigger] self.descriptor_sets@[j]
                        == if j < i { draw.descriptor_sets@[j] } else { before[j] },
                    first_changed(before, draw.descriptor_sets@, i as int, first_set),
                decreases count - i,
            {
                if draw.descriptor_sets[i] != self.descriptor_sets[i] {
                    self.descriptor_sets[i] = draw.descriptor_sets[i];
                    if first_set.is_none() {
                        first_set = Some(i);
                    }
                }
                i = i + 1;
            }
        }
        BindCommands { bind_pipeline, first_set, layout_changed }
    }
}

/// A draw has work: an indexed draw needs indices and instances, an indirect draw needs commands.
pub fn has_work(indirect: bool, index_count: u32, instance_count: u32, draw_count: u32) -> (r: bool)
    ensures
        r == (if indirect { draw_count != 0 } else { index_count != 0 && instance_count != 0 }),
{
    if indirect { draw_count != 0 } else { index_count != 0 && instance_count != 0 }
}

/// An indirect indexed draw command.
#[derive(Clone, Copy, Debug, PartialEq, Eq, Structural)]
pub struct DrawIndexedIndirectCommand {
    pub index_count: u32,
    pub instance_count: u32,
    pub first_index: u32,
    pub vertex_offset: i32,
    pub first_instance: u32,
}

/// The command that draws one mesh of a shared mesh buffer, from where its indices and vertices
/// start in bytes: the first index is the byte start over 4, the vertex offset the byte start
/// over the vertex size (as `i32`). A mesh with no index draws nothing.
pub fn indirect_command(index_count: u32, indices_start: u32, vertices_start: u32, vertices_size: u32)
    -> (c: Option<DrawIndexedIndirectCommand>)
    requires
        vertices_size != 0,
    ensures
        index_count == 0 ==> c.is_none(),
        index_count != 0 ==> c == Some(DrawIndexedIndirectCommand {
            index_count,
            instance_count: 1,
            first_index: indices_start / 4,
            vertex_offset: (vertices_start / vertices_size) as i32,
            first_instance: 0,
        }),
{
    if index_count == 0 {
        return None;
    }
    Some(DrawIndexedIndirectCommand {
        index_count,
        instance_count: 1,
        first_index: indices_start / 4,
        vertex_offset: #[verifier::truncate] ((vertices_start / vertices_size) as i32),
        first_instance: 0,
    })
}

/// The distance between indirect commands in a buffer: `size_of::<DrawIndexedIndirectCommand>()`,
/// five 4-byte fields.
pub const INDIRECT_COMMAND_STRIDE: u32 = 20;

/// How a draw is issued: indexed, with its index and instance counts, or indirect, with the
/// number of commands in its command buffer.
#[derive(Clone, Copy, Debug, PartialEq, Eq, Structural)]
pub enum DrawType {
    Default(u32, u32),
    Indirect(u32),
}

/// A queued draw: its pipeline, layout and descriptor sets, its vertex buffer and custom buffer
/// (instances for an indexed draw, the commands for an indirect one), its index buffer, how it is
/// issued, and the push constant block it took (-1 for none). Handles are raw, 0 for null.
#[derive(Clone, Copy, Debug)]
pub struct DrawRecord {
    pub pipeline: u64,
    pub pipeline_layout: u64,
    pub descriptor_sets: [u64; 2],
    pub descriptors_count: u32,
    pub buffers: [u64; 2],
    pub index_buffer: u64,
    pub draw_type: DrawType,
    pub push_constant_idx: i32,
}

/// The draw call of a draw.
#[derive(Clone, Copy, Debug, PartialEq, Eq, Structural)]
pub enum DrawCall {
    /// `vkCmdDrawIndexed(index_count, instance_count, 0, 0, 0)`.
    Indexed { index_count: u32, instance_count: u32 },
    /// `vkCmdDrawIndexedIndirect(buffer, 0, draw_count, stride)`.
    Indirect { buffer: u64, draw_count: u32, stride: u32 },
}

/// Everything recorded for one draw, in order: the binds, the push of a block's bytes with the
/// current layout, the index buffer bound at offset 0 as 32-bit indices, the first
/// `vertex_buffer_count` of the draw's buffers bound from binding 0 at offset 0, and the call.
#[derive(Clone, Copy, Debug, PartialEq, Eq, Structural)]
pub struct DrawCommands {
    pub binds: BindCommands,
    pub push_block: Option<usize>,
    pub index_buffer: u64,
    pub vertex_buffer_count: usize,
    pub call: DrawCall,
}

/// The call of a draw: an indirect draw reads its commands from its custom buffer.
pub open spec fn call_of(d: DrawRecord) -> DrawCall {
    match d.draw_type {
        DrawType::Default(index_count, instance_count) => DrawCall::Indexed { index_count, instance_count },
        DrawType::Indirect(draw_count) => DrawCall::Indirect {
            buffer: d.buffers@[1],
            draw_count,
            stride: INDIRECT_COMMAND_STRIDE,
        },
    }
}

/// The vertex buffers a draw binds: an indexed draw binds its custom buffer too unless it is
/// null; an indirect draw binds only the vertex buffer.
pub open spec fn vertex_buffer_count_of(d: DrawRecord) -> usize {
    match d.draw_type {
        DrawType::Default(_, _) => if d.buffers@[1] == 0 { 1 } else { 2 },
        DrawType::Indirect(_) => 1,
    }
}

/// The push constant block a draw pushes: the one it took, if any.
pub open spec fn push_block_of(d: DrawRecord) -> Option<usize> {
    if d.push_constant_idx == -1 { None } else { Some(d.push_constant_idx as usize) }
}

/// A draw asks nothing impossible: at most two descriptor sets and a block index or -1.
pub open spec fn draw_ok(d: DrawRecord) -> bool {
    d.descriptors_count <= MAX_DESCRIPTORS_BINDING_COUNT && d.push_constant_idx >= -1
}

/// Decides everything recorded for the next draw of a list and records what is then bound: the
/// binds as `next_draw` decides them, then the draw's push block, index buffer, vertex buffers
/// and call.
pub fn draw_commands(bound: &mut BoundState, draw: DrawRecord) -> (c: DrawCommands)
    requires
        draw_ok(draw),
    ensures
        c.binds.bind_pipeline == (old(bound).pipeline != draw.pipeline),
        c.binds.layout_changed == (old(bound).pipeline_layout != draw.pipeline_layout),
        final(bound).pipeline == draw.pipeline,
        final(bound).pipeline_layout == draw.pipeline_layout,
        c.binds.layout_changed ==> first_changed(old(bound).descriptor_sets@, draw.descriptor_sets@,
            draw.descriptors_count as int, c.binds.first_set),
        !c.binds.layout_changed ==> c.binds.first_set.is_none(),
        final(bound).descriptor_sets@ == sets_after(old(bound).descriptor_sets@, old(bound).pipeline_layout, draw),
        c.push_block == push_block_of(draw),
        c.index_buffer == draw.index_buffer,
        c.vertex_buffer_count == vertex_buffer_count_of(draw),
        c.call == call_of(draw),
{
    let binds = bound.next_draw(DrawBinds {
        pipeline: draw.pipeline,
        pipeline_layout: draw.pipeline_layout,
        descriptor_sets: draw.descriptor_sets,
        descriptors_count: draw.descriptors_count,
    });
    assert(bound.descriptor_sets@ =~= sets_after(old(bound).descriptor_sets@, old(bound).pipeline_layout, draw));
    let push_block = if draw.push_constant_idx == -1 { None } else { Some(draw.push_constant_idx as usize) };
    let (vertex_buffer_count, call) = match draw.draw_type {
        DrawType::Default(index_count, instance_count) => {
            let n: usize = if draw.buffers[1] == 0 { 1 } else { 2 };
            (n, DrawCall::Indexed { index_count, instance_count })
        },
        DrawType::Indirect(draw_count) => {
            (1usize, DrawCall::Indirect { buffer: draw.buffers[1], draw_count, stride: INDIRECT_COMMAND_STRIDE })
        },
    };
    DrawCommands { binds, push_block, index_buffer: draw.index_buffer, vertex_buffer_count, call }
}

/// The pipeline bound before draw `i` of a list: null before the first.
pub open spec fn pipeline_before(list: Seq<DrawRecord>, i: int) -> u64 {
    if i <= 0 { 0 } else { list[i - 1].pipeline }
}

/// The layout bound before draw `i` of a list: null before the first.
pub open spec fn layout_before(list: Seq<DrawRecord>, i: int) -> u64 {
    if i <= 0 { 0 } else { list[i - 1].pipeline_layout }
}

/// The descriptor sets bound after a draw: on a layout change, its sets replace the bound ones
/// up to its count.
pub open spec fn sets_after(sets: Seq<u64>, layout: u64, d: DrawRecord) -> Seq<u64> {
    if layout != d.pipeline_layout {
        Seq::new(2, |j: int| if j < d.descriptors_count { d.descriptor_sets@[j] } else { sets[j] })
    } else {
        sets
    }
}

/// The descriptor sets bound before draw `i` of a list: null before the first.
pub open spec fn sets_before(list: Seq<DrawRecord>, i: int) -> Seq<u64>
    decreases i,
{
    if i <= 0 {
        seq![0u64, 0u64]
    } else {
        sets_after(sets_before(list, i - 1), layout_before(list, i - 1), list[i - 1])
    }
}

/// The commands of draw `i` of a list recorded from its start.
pub open spec fn commands_of(list: Seq<DrawRecord>, i: int, c: DrawCommands) -> bool {
    let d = list[i];
    &&& c.binds.bind_pipeline == (pipeline_before(list, i) != d.pipeline)
    &&& c.binds.layout_changed == (layout_before(list, i) != d.pipeline_layout)
    &&& c.binds.layout_changed ==> first_changed(sets_before(list, i), d.descriptor_sets@,
        d.descriptors_count as int, c.binds.first_set)
    &&& !c.binds.layout_changed ==> c.binds.first_set.is_none()
    &&& c.push_block == push_block_of(d)
    &&& c.index_buffer == d.index_buffer
    &&& c.vertex_buffer_count == vertex_buffer_count_of(d)
    &&& c.call == call_of(d)
}

/// The commands that record a draw list, starting with nothing bound: one entry per draw, in
/// the list's order, each as `draw_commands` decides it after the draws before it.
pub fn render_plan(list: &Vec<DrawRecord>) -> (cmds: Vec<DrawCommands>)
    requires
        forall|i: int| 0 <= i < list@.len() ==> draw_ok(#[trigger] list@[i]),
    ensures
        cmds@.len() == list@.len(),
        forall|i: int| 0 <= i < list@.len() ==> commands_of(list@, i, #[trigger] cmds@[i]),
{
    let mut bound = BoundState::new();
    let mut cmds: Vec<DrawCommands> = Vec::new();
    let mut i: usize = 0;
    assert(bound.descriptor_sets@ =~= sets_before(list@, 0));
    while i < list.len()
        invariant
            i <= list@.len(),
            cmds@.len() == i,
            forall|k: int| 0 <= k < list@.len() ==> draw_ok(#[trigger] list@[k]),
            bound.pipeline == pipeline_before(list@, i as int),
            bound.pipeline_layout == layout_before(list@, i as int),
            bound.descriptor_sets@ == sets_before(list@, i as int),
            forall|k: int| 0 <= k < i ==> commands_of(list@, k, #[trigger] cmds@[k]),
        decreases list@.len() - i,
    {
        let draw = list[i];
        let c = draw_commands(&mut bound, draw);
        cmds.push(c);
        assert(commands_of(list@, i as int, cmds@[i as int]));
        i = i + 1;
    }
    cmds
}

/// The draw lists of a frame, one per material kind, in the order of the kinds' passes.
pub struct DrawLists {
    lists: Vec<Vec<DrawRecord>>,
}

impl DrawLists {
    /// The lists, by pass.
    pub closed spec fn view(&self) -> Seq<Seq<DrawRecord>> {
        self.lists@.map_values(|l: Vec<DrawRecord>| l@)
    }

    /// One list per pass.
    pub closed spec fn wf(&self) -> bool {
        self.lists@.len() == 8
    }

    /// Eight empty lists.
    pub fn new() -> (d: Self)
        ensures
            d.wf(),
            d.view().len() == 8,
            forall|i: int| 0 <= i < 8 ==> (#[trigger] d.view()[i]).len() == 0,
    {
        let mut lists: Vec<Vec<DrawRecord>> = Vec::new();
        let mut i: usize = 0;
        while i < 8
            invariant
                i <= 8,
                lists@.len() == i,
                forall|k: int| 0 <= k < i ==> (#[trigger] lists@[k])@.len() == 0,
            decreases 8 - i,
        {
            lists.push(Vec::new());
            i = i + 1;
        }
        DrawLists { lists }
    }

    /// The list of a material kind.
    pub fn list(&self, kind: MaterialType) -> (l: &Vec<DrawRecord>)
        requires
            self.wf(),
        ensures
            l@ == self.view()[pass_of(kind) as int],
    {
        &self.lists[kind.pass()]
    }

    /// Empties every list, at the start of a frame.
    pub fn clear(&mut self)
        requires
            old(self).wf(),
        ensures
            final(self).wf(),
            final(self).view().len() == 8,
            forall|i: int| 0 <= i < 8 ==> (#[trigger] final(self).view()[i]).len() == 0,
    {
        *self = DrawLists::new();
    }
}

/// A draw has work: an indexed draw needs indices and instances, an indirect draw commands.
pub open spec fn draw_has_work_spec(draw_type: DrawType) -> bool {
    match draw_type {
        DrawType::Default(index_count, instance_count) => index_count != 0 && instance_count != 0,
        DrawType::Indirect(draw_count) => draw_count != 0,
    }
}

/// What a draw issues: the indices of all its instances for an indexed draw (index count times
/// instance count), its commands for an indirect draw.
pub open spec fn issued_work(draw_type: DrawType) -> int {
    match draw_type {
        DrawType::Default(index_count, instance_count) => index_count * instance_count,
        DrawType::Indirect(draw_count) => draw_count as int,
    }
}

/// Law: a draw has work exactly when it issues something. An indexed draw with no index, or with
/// no instance, draws nothing and is dropped; so is an indirect draw with no command.
pub proof fn lemma_draw_work(draw_type: DrawType)
    ensures
        draw_has_work_spec(draw_type) <==> issued_work(draw_type) > 0,
{
    match draw_type {
        DrawType::Default(i, n) => {
            assert((i as int) * (n as int) > 0 <==> (i != 0 && n != 0)) by (nonlinear_arith)
                requires 0 <= i, 0 <= n;
        },
        DrawType::Indirect(_) => {},
    }
}

/// Whether a draw has work; only then is its material's pipeline brought up to date.
pub fn draw_has_work(draw_type: DrawType) -> (r: bool)
    ensures
        r == draw_has_work_spec(draw_type),
{
    match draw_type {
        DrawType::Default(index_count, instance_count) => has_work(false, index_count, instance_count, 0),
        DrawType::Indirect(draw_count) => has_work(true, 0, 0, draw_count),
    }
}

/// Queues a draw of a material, whose pipeline the caller brought up to date when the draw has
/// work. The open push constant block is taken in every case. A draw without work, or of a
/// material without a pipeline, is dropped and `false` comes back; otherwise the list of the
/// material's kind gains one draw with the material's pipeline and layout, the given descriptor
/// sets, the vertex and custom buffers `buffers[0]` and `buffers[1]`, the index buffer
/// `buffers[2]`, and the block it took.
pub fn prepare_draw_info(
    lists: &mut DrawLists,
    push: &mut PushConstants,
    material: &Material,
    descriptor_sets: [u64; 2],
    descriptors_count: u32,
    buffers: [u64; 3],
    draw_type: DrawType,
) -> (queued: bool)
    requires
        old(lists).wf(),
        old(push).wf(),
    ensures
        final(lists).wf(),
        final(push).wf(),
        final(push).view() == (PushConstantsView { current: -1, ..old(push).view() }),
        queued == (draw_has_work_spec(draw_type) && material.view().pipeline != 0),
        queued ==> issued_work(draw_type) > 0,
        !queued ==> final(lists).view() == old(lists).view(),
        queued ==> final(lists).view() == old(lists).view().update(
            pass_of(material.view().material_type) as int,
            old(lists).view()[pass_of(material.view().material_type) as int].push(DrawRecord {
                pipeline: material.view().pipeline,
                pipeline_layout: material.layout_spec(),
                descriptor_sets,
                descriptors_count,
                buffers: [buffers@[0], buffers@[1]],
                index_buffer: buffers@[2],
                draw_type,
                push_constant_idx: old(push).view().current as i32,
            }),
        ),
{
    let push_constant_idx = push.take_for_draw();
    proof {
        lemma_draw_work(draw_type);
    }
    if !draw_has_work(draw_type) {
        return false;
    }
    let (pipeline, pipeline_layout) = match material.draw_pipeline() {
        Some(p) => p,
        None => return false,
    };
    let record = DrawRecord {
        pipeline,
        pipeline_layout,
        descriptor_sets,
        descriptors_count,
        buffers: [buffers[0], buffers[1]],
        index_buffer: buffers[2],
        draw_type,
        push_constant_idx,
    };
    let p = material.get_type().pass();
    let mut l = lists.lists.remove(p);
    l.push(record);
    lists.lists.insert(p, l);
    assert(lists.view() =~= old(lists).view().update(p as int, old(lists).view()[p as int].push(record)));
    true
}

} // verus!
