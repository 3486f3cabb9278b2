use vstd::prelude::*;

verus! {

/// Highest number of vertex bindings a material can describe.
pub const MAX_VERTEX_BINDING_COUNT: usize = 2;
/// Highest number of vertex attributes a material can describe.
pub const MAX_VERTEX_ATTRIBUTES_COUNT: usize = 10;
/// The format of a four-float attribute (`R32G32B32A32_SFLOAT`).
pub const FORMAT_VEC4: i32 = 109;
/// Bytes in four floats.
pub const VEC4_SIZE: usize = 16;

/// What a material draws; each kind has its own draw list.
#[derive(Clone, Copy, Debug, PartialEq, Eq, Structural)]
pub enum MaterialType {
    Sky,
    ChunksOpaque,
    ChunksAlpha,
    Opaque,
    Alpha,
    Particle,
    FirstPerson,
    Ui,
}

/// The position of a kind's draw list in a frame: sky first, then opaque chunks, opaque
/// meshes, transparent meshes, particles, transparent chunks, the first-person view, and
/// the user interface last.
pub open spec fn pass_of(t: MaterialType) -> nat {
    match t {
        MaterialType::Sky => 0,
        MaterialType::ChunksOpaque => 1,
        MaterialType::Opaque => 2,
        MaterialType::Alpha => 3,
        MaterialType::Particle => 4,
        MaterialType::ChunksAlpha => 5,
        MaterialType::FirstPerson => 6,
        MaterialType::Ui => 7,
    }
}

impl MaterialType {
    /// The position of this kind's draw list in a frame.
    pub fn pass(self) -> (p: usize)
        ensures
            p == pass_of(self),
    {
        match self {
            MaterialType::Sky => 0,
            MaterialType::ChunksOpaque => 1,
            MaterialType::Opaque => 2,
            MaterialType::Alpha => 3,
            MaterialType::Particle => 4,
            MaterialType::ChunksAlpha => 5,
            MaterialType::FirstPerson => 6,
            MaterialType::Ui => 7,
        }
    }

    /// Only the opaque and transparent mesh lists are sorted before they are drawn.
    pub fn is_sorted(self) -> (r: bool)
        ensures
            r == (self == MaterialType::Opaque || self == MaterialType::Alpha),
    {
        match self {
            MaterialType::Opaque | MaterialType::Alpha => true,
            _ => false,
        }
    }
}

/// Law: every kind has its own pass, and the user interface is drawn after everything else.
pub proof fn lemma_passes_distinct(a: MaterialType, b: MaterialType)
    ensures
        pass_of(a) == pass_of(b) <==> a == b,
        a != MaterialType::Ui ==> pass_of(a) < pass_of(MaterialType::Ui),
        pass_of(a) < 8,
{
}

/// Kinds of solid world geometry: opaque chunks and opaque meshes.
pub open spec fn is_opaque_world(t: MaterialType) -> bool {
    t == MaterialType::ChunksOpaque || t == MaterialType::Opaque
}

/// Kinds of see-through world geometry: transparent meshes, particles and transparent chunks.
pub open spec fn is_transparent_world(t: MaterialType) -> bool {
    t == MaterialType::Alpha || t == MaterialType::Particle || t == MaterialType::ChunksAlpha
}

/// Law: the order in which a frame's lists are drawn. The sky comes first, behind everything;
/// then all solid world geometry (opaque chunks, then opaque meshes), so that see-through
/// geometry blends over it; then the see-through geometry (transparent meshes, particles,
/// transparent chunks); then the first-person view over the world; and the user interface last.
pub proof fn lemma_pass_order(a: MaterialType, b: MaterialType)
    ensures
        a == MaterialType::Sky && b != MaterialType::Sky ==> pass_of(a) < pass_of(b),
        is_opaque_world(a) && is_transparent_world(b) ==> pass_of(a) < pass_of(b),
        (is_opaque_world(a) || is_transparent_world(a)) && b == MaterialType::FirstPerson ==> pass_of(a) < pass_of(b),
        b == MaterialType::Ui && a != MaterialType::Ui ==> pass_of(a) < pass_of(b),
        pass_of(MaterialType::ChunksOpaque) < pass_of(MaterialType::Opaque),
        pass_of(MaterialType::Alpha) < pass_of(MaterialType::Particle),
        pass_of(MaterialType::Particle) < pass_of(MaterialType::ChunksAlpha),
{
}

/// One vertex binding: its index, the stride in bytes, and whether it advances per instance.
#[derive(Clone, Copy, Debug, PartialEq, Eq, Structural)]
pub struct VertexBinding {
    pub binding: u32,
    pub stride: u32,
    pub instance: bool,
}

/// One vertex attribute: its shader location, the binding it reads, its format and its offset.
#[derive(Clone, Copy, Debug, PartialEq, Eq, Structural)]
pub struct VertexAttribute {
    pub location: u32,
    pub binding: u32,
    pub format: i32,
    pub offset: u32,
}

/// The vertex input layout of a material, built binding by binding. Each attribute reads the
/// binding added last and takes the next shader location.
pub struct VertexAttribInfo {
    bindings_info: Vec<VertexBinding>,
    attributes_info: Vec<VertexAttribute>,
}

/// A layout whose bindings are numbered from 0, whose attributes have locations numbered
/// from 0 and read existing bindings, within the limits.
pub open spec fn layout_ok(bindings: Seq<VertexBinding>, attributes: Seq<VertexAttribute>) -> bool {
    &&& bindings.len() <= MAX_VERTEX_BINDING_COUNT
    &&& attributes.len() <= MAX_VERTEX_ATTRIBUTES_COUNT
    &&& forall|i: int| 0 <= i < bindings.len() ==> (#[trigger] bindings[i]).binding == i
    &&& forall|i: int| 0 <= i < attributes.len() ==> (#[trigger] attributes[i]).location == i
    &&& forall|i: int| 0 <= i < attributes.len() ==> (#[trigger] attributes[i]).binding < bindings.len()
}

impl VertexAttribInfo {
    /// The bindings added so far.
    pub closed spec fn bindings(&self) -> Seq<VertexBinding> {
        self.bindings_info@
    }

    /// The attributes added so far.
    pub closed spec fn attributes(&self) -> Seq<VertexAttribute> {
        self.attributes_info@
    }

    /// An empty layout.
    pub fn new() -> (r: Self)
        ensures
            r.bindings() == Seq::<VertexBinding>::empty(),
            r.attributes() == Seq::<VertexAttribute>::empty(),
            layout_ok(r.bindings(), r.attributes()),
    {
        VertexAttribInfo { bindings_info: Vec::new(), attributes_info: Vec::new() }
    }

    /// The attributes added so far.
    pub fn get_attributes(&self) -> (r: &Vec<VertexAttribute>)
        ensures
            r@ == self.attributes(),
    {
        &self.attributes_info
    }

    /// The bindings added so far.
    pub fn get_bindings(&self) -> (r: &Vec<VertexBinding>)
        ensures
            r@ == self.bindings(),
    {
        &self.bindings_info
    }

    /// Adds a binding with the next index. The stride is stored as `stride as u32`.
    pub fn add_vertex(&mut self, stride: usize, is_instance: bool)
        requires
            old(self).bindings().len() < MAX_VERTEX_BINDING_COUNT,
        ensures
            final(self).bindings() == old(self).bindings().push(VertexBinding {
                binding: old(self).bindings().len() as u32,
                stride: stride as u32,
                instance: is_instance,
            }),
            final(self).attributes() == old(self).attributes(),
            layout_ok(old(self).bindings(), old(self).attributes())
                ==> layout_ok(final(self).bindings(), final(self).attributes()),
    {
        let binding = self.bindings_info.len() as u32;
        self.bindings_info.push(VertexBinding {
            binding,
            stride: #[verifier::truncate] (stride as u32),
            instance: is_instance,
        });
    }

    /// Adds an attribute at the next location, reading the binding added last. The offset is
    /// stored as `offset as u32`.
    pub fn add_attribute(&mut self, format: i32, offset: usize)
        requires
            old(self).bindings().len() >= 1,
            old(self).attributes().len() < MAX_VERTEX_ATTRIBUTES_COUNT,
        ensures
            final(self).attributes() == old(self).attributes().push(VertexAttribute {
                location: old(self).attributes().len() as u32,
                binding: (old(self).bindings().len() - 1) as u32,
                format,
                offset: offset as u32,
            }),
            final(self).bindings() == old(self).bindings(),
            layout_ok(old(self).bindings(), old(self).attributes())
                ==> layout_ok(final(self).bindings(), final(self).attributes()),
    {
        let location = self.attributes_info.len() as u32;
        let binding = (self.bindings_info.len() - 1) as u32;
        self.attributes_info.push(VertexAttribute {
            location,
            binding,
            format,
            offset: #[verifier::truncate] (offset as u32),
        });
    }

    /// Adds the four columns of a 4x4 float matrix at `offset` as four four-float attributes.
    pub fn add_attribute_matrix(&mut self, offset: usize)
        requires
            old(self).bindings().len() >= 1,
            old(self).attributes().len() + 4 <= MAX_VERTEX_ATTRIBUTES_COUNT,
            offset + 3 * VEC4_SIZE <= usize::MAX,
        ensures
            final(self).bindings() == old(self).bindings(),
            final(self).attributes().len() == old(self).attributes().len() + 4,
            final(self).attributes().subrange(0, old(self).attributes().len() as int) == old(self).attributes(),
            forall|k: int| 0 <= k < 4 ==> #[trigger] final(self).attributes()[old(self).attributes().len() + k]
                == (VertexAttribute {
                    location: (old(self).attributes().len() + k) as u32,
                    binding: (old(self).bindings().len() - 1) as u32,
                    format: FORMAT_VEC4,
                    offset: (offset + k * VEC4_SIZE) as u32,
                }),
            layout_ok(old(self).bindings(), old(self).attributes())
                ==> layout_ok(final(self).bindings(), final(self).attributes()),
    {
        self.add_attribute_array_vec4(offset, 4);
    }

    /// Adds `array_len` four-float attributes for an array starting at `offset`.
    pub fn add_attribute_array_vec4(&mut self, offset: usize, array_len: usize)
        requires
            old(self).bindings().len() >= 1,
            old(self).attributes().len() + array_len <= MAX_VERTEX_ATTRIBUTES_COUNT,
            array_len >= 1 ==> offset + (array_len - 1) * VEC4_SIZE <= usize::MAX,
        ensures
            final(self).bindings() == old(self).bindings(),
            final(self).attributes().len() == old(self).attributes().len() + array_len,
            final(self).attributes().subrange(0, old(self).attributes().len() as int) == old(self).attributes(),
            forall|k: int| 0 <= k < array_len ==> #[trigger] final(self).attributes()[old(self).attributes().len() + k]
                == (VertexAttribute {
                    location: (old(self).attributes().len() + k) as u32,
                    binding: (old(self).bindings().len() - 1) as u32,
                    format: FORMAT_VEC4,
                    offset: (offset + k * VEC4_SIZE) as u32,
                }),
            layout_ok(old(self).bindings(), old(self).attributes())
                ==> layout_ok(final(self).bindings(), final(self).attributes()),
    {
        let ghost start = self.attributes_info@.len();
        let mut i: usize = 0;
        while i < array_len
            invariant
                i <= array_len,
                start == old(self).attributes().len(),
                self.bindings_info@ == old(self).bindings(),
                self.bindings_info@.len() >= 1,
                self.attributes_info@.len() == start + i,
                start + array_len <= MAX_VERTEX_ATTRIBUTES_COUNT,
                array_len >= 1 ==> offset + (array_len - 1) * VEC4_SIZE <= usize::MAX,
                self.attributes_info@.subrange(0, start as int) == old(self).attributes(),
                forall|k: int| 0 <= k < i ==> #[trigger] self.attributes_info@[start + k]
                    == (VertexAttribute {
                        location: (start + k) as u32,
                        binding: (old(self).bindings().len() - 1) as u32,
                        format: FORMAT_VEC4,
                        offset: (offset + k * VEC4_SIZE) as u32,
                    }),
                layout_ok(old(self).bindings(), old(self).attributes())
                    ==> layout_ok(self.bindings_info@, self.attributes_info@),
            decreases array_len - i,
        {
            assert(i * VEC4_SIZE <= (array_len - 1) * VEC4_SIZE) by (nonlinear_arith)
                requires i < array_len;
            let ghost before = self.attributes_info@;
            self.add_attribute(FORMAT_VEC4, offset + i * VEC4_SIZE);
            assert(self.attributes_info@.subrange(0, start as int) == before.subrange(0, start as int));
            i = i + 1;
        }
    }
}

impl Default for VertexAttribInfo {
    fn default() -> (r: Self)
        ensures
            r.bindings() == Seq::<VertexBinding>::empty(),
            r.attributes() == Seq::<VertexAttribute>::empty(),
    {
        VertexAttribInfo::new()
    }
}

/// `VK_CULL_MODE_FRONT_BIT`, a new material's cull mode.
pub const CULL_MODE_FRONT: u32 = 0x1;
/// `VK_PRIMITIVE_TOPOLOGY_TRIANGLE_LIST`, a new material's topology.
pub const TOPOLOGY_TRIANGLE_LIST: i32 = 3;

/// The settings of a material that its pipeline is built from, whether they changed since the
/// pipeline was built, and the pipeline's handle (0 when there is none).
pub struct MaterialView {
    pub shader_name: Seq<char>,
    pub material_type: MaterialType,
    pub cull_mode: u32,
    pub blend: bool,
    pub depth_test: bool,
    pub topology: i32,
    pub pipeline: u64,
    pub modified: bool,
}

/// The fixed-function settings a material's pipeline is built with.
#[derive(Clone, Copy, Debug, PartialEq, Eq, Structural)]
pub struct MaterialSettings {
    pub cull_mode: u32,
    pub blend: bool,
    pub depth_test: bool,
    pub topology: i32,
}

/// A material: the settings of a graphics pipeline and the pipeline built from them. Any change
/// of a setting marks the pipeline out of date; before the next draw the old pipeline is
/// destroyed and a new one built, and a material without a pipeline draws nothing.
///
/// The vertex layout and the shaders' name are kept here too; the line width, a float, stays
/// with the caller that builds the pipeline.
pub struct Material {
    shader_name: String,
    material_type: MaterialType,
    cull_mode: u32,
    blend: bool,
    depth_test: bool,
    topology: i32,
    vertex_attributes_info: VertexAttribInfo,
    pipeline: u64,
    pipeline_layout: u64,
    modified: bool,
}

impl Material {
    /// The settings, the pipeline and whether it is out of date.
    pub closed spec fn view(&self) -> MaterialView {
        MaterialView {
            shader_name: self.shader_name@,
            material_type: self.material_type,
            cull_mode: self.cull_mode,
            blend: self.blend,
            depth_test: self.depth_test,
            topology: self.topology,
            pipeline: self.pipeline,
            modified: self.modified,
        }
    }

    /// The vertex layout.
    pub closed spec fn attributes_info(&self) -> &VertexAttribInfo {
        &self.vertex_attributes_info
    }

    /// The layout handle of the pipeline.
    pub closed spec fn layout_spec(&self) -> u64 {
        self.pipeline_layout
    }

    /// A material of a kind whose shaders are `shader_name` with the `.vsh` and `.fsh`
    /// extensions, with front faces culled, no blending, depth test on, triangle lists, an empty
    /// vertex layout, and no pipeline yet: the first draw builds it.
    pub fn new(shader_name: String, material_type: MaterialType) -> (m: Self)
        ensures
            m.view() == (MaterialView {
                shader_name: shader_name@,
                material_type,
                cull_mode: CULL_MODE_FRONT,
                blend: false,
                depth_test: true,
                topology: TOPOLOGY_TRIANGLE_LIST,
                pipeline: 0,
                modified: true,
            }),
            m.attributes_info().bindings().len() == 0,
            m.attributes_info().attributes().len() == 0,
            m.layout_spec() == 0,
    {
        Material {
            shader_name,
            material_type,
            cull_mode: CULL_MODE_FRONT,
            blend: false,
            depth_test: true,
            topology: TOPOLOGY_TRIANGLE_LIST,
            vertex_attributes_info: VertexAttribInfo::new(),
            pipeline: 0,
            pipeline_layout: 0,
            modified: true,
        }
    }

    /// The name of the material's shaders, without extension.
    pub fn shader_name(&self) -> (r: &String)
        ensures
            r@ == self.view().shader_name,
    {
        &self.shader_name
    }

    /// The settings the pipeline is built with.
    pub fn settings(&self) -> (r: MaterialSettings)
        ensures
            r == (MaterialSettings {
                cull_mode: self.view().cull_mode,
                blend: self.view().blend,
                depth_test: self.view().depth_test,
                topology: self.view().topology,
            }),
    {
        MaterialSettings { cull_mode: self.cull_mode, blend: self.blend, depth_test: self.depth_test, topology: self.topology }
    }

    /// The kind of the material.
    pub fn get_type(&self) -> (t: MaterialType)
        ensures
            t == self.view().material_type,
    {
        self.material_type
    }

    /// The vertex layout the pipeline is built with.
    pub fn get_attributes_info(&self) -> (r: &VertexAttribInfo)
        ensures
            r == self.attributes_info(),
    {
        &self.vertex_attributes_info
    }

    /// Replaces the vertex layout and marks the pipeline out of date.
    pub fn set_attributes_info(&mut self, info: VertexAttribInfo)
        ensures
            final(self).view() == (MaterialView { modified: true, ..old(self).view() }),
            final(self).attributes_info() == &info,
            final(self).layout_spec() == old(self).layout_spec(),
    {
        self.vertex_attributes_info = info;
        self.modified = true;
    }

    /// Sets the cull mode and marks the pipeline out of date.
    pub fn set_cull_mode(&mut self, mode: u32)
        ensures
            final(self).view() == (MaterialView { cull_mode: mode, modified: true, ..old(self).view() }),
            final(self).attributes_info() == old(self).attributes_info(),
            final(self).layout_spec() == old(self).layout_spec(),
    {
        self.cull_mode = mode;
        self.modified = true;
    }

    /// Sets blending and marks the pipeline out of date.
    pub fn set_blend(&mut self, value: bool)
        ensures
            final(self).view() == (MaterialView { blend: value, modified: true, ..old(self).view() }),
            final(self).attributes_info() == old(self).attributes_info(),
            final(self).layout_spec() == old(self).layout_spec(),
    {
        self.blend = value;
        self.modified = true;
    }

    /// Sets the depth test and marks the pipeline out of date.
    pub fn set_depth_test(&mut self, value: bool)
        ensures
            final(self).view() == (MaterialView { depth_test: value, modified: true, ..old(self).view() }),
            final(self).attributes_info() == old(self).attributes_info(),
            final(self).layout_spec() == old(self).layout_spec(),
    {
        self.depth_test = value;
        self.modified = true;
    }

    /// Sets the primitive topology and marks the pipeline out of date.
    pub fn set_topology(&mut self, topology: i32)
        ensures
            final(self).view() == (MaterialView { topology, modified: true, ..old(self).view() }),
            final(self).attributes_info() == old(self).attributes_info(),
            final(self).layout_spec() == old(self).layout_spec(),
    {
        self.topology = topology;
        self.modified = true;
    }

    /// Marks the pipeline out of date, as a change of the line width does.
    pub fn mark_modified(&mut self)
        ensures
            final(self).view() == (MaterialView { modified: true, ..old(self).view() }),
            final(self).attributes_info() == old(self).attributes_info(),
            final(self).layout_spec() == old(self).layout_spec(),
    {
        self.modified = true;
    }

    /// The first step of a draw. When the pipeline is out of date, it is dropped: the material
    /// forgets it and hands back its handles (pipeline, layout) for the caller to destroy and
    /// must then be given a new pipeline; nothing is out of date any more. Otherwise nothing
    /// changes and `None` comes back.
    pub fn take_outdated_pipeline(&mut self) -> (old_handles: Option<(u64, u64)>)
        ensures
            final(self).view() == after_draw_step(old(self).view()),
            old(self).view().modified ==> old_handles == Some((old(self).view().pipeline, old(self).layout_spec()))
                && final(self).view() == (MaterialView { pipeline: 0, modified: false, ..old(self).view() })
                && final(self).layout_spec() == 0,
            !old(self).view().modified ==> old_handles.is_none() && final(self).view() == old(self).view()
                && final(self).layout_spec() == old(self).layout_spec(),
            final(self).attributes_info() == old(self).attributes_info(),
    {
        if self.modified {
            let handles = (self.pipeline, self.pipeline_layout);
            self.pipeline = 0;
            self.pipeline_layout = 0;
            self.modified = false;
            Some(handles)
        } else {
            None
        }
    }

    /// Records the pipeline that was built from the current settings (0 when building failed).
    pub fn set_pipeline(&mut self, pipeline: u64, pipeline_layout: u64)
        ensures
            final(self).view() == (MaterialView { pipeline, ..old(self).view() }),
            final(self).layout_spec() == pipeline_layout,
            final(self).attributes_info() == old(self).attributes_info(),
    {
        self.pipeline = pipeline;
        self.pipeline_layout = pipeline_layout;
    }

    /// The pipeline and layout to draw with, or `None` when the material has no pipeline.
    pub fn draw_pipeline(&self) -> (r: Option<(u64, u64)>)
        ensures
            self.view().pipeline == 0 ==> r.is_none(),
            self.view().pipeline != 0 ==> r == Some((self.view().pipeline, self.layout_spec())),
    {
        if self.pipeline == 0 {
            None
        } else {
            Some((self.pipeline, self.pipeline_layout))
        }
    }
}

/// The material after the first step of a draw.
pub open spec fn after_draw_step(v: MaterialView) -> MaterialView {
    if v.modified { MaterialView { pipeline: 0, modified: false, ..v } } else { v }
}

/// Law: a material is never drawn with a pipeline built from settings it no longer has. After
/// any change, the next draw step drops the pipeline, so that until a new one is recorded the
/// material draws nothing; a step with no change keeps the pipeline.
pub proof fn lemma_changed_material_drops_its_pipeline(v: MaterialView, cull_mode: u32, blend: bool)
    ensures
        after_draw_step(MaterialView { cull_mode, modified: true, ..v }).pipeline == 0,
        after_draw_step(MaterialView { blend, modified: true, ..v }).pipeline == 0,
        after_draw_step(MaterialView { modified: true, ..v }).pipeline == 0,
        !v.modified ==> after_draw_step(v) == v,
        !after_draw_step(v).modified,
{
}

} // verus!
