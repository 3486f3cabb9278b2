use vstd::prelude::*;
use crate::render::material::{
    is_opaque_world, is_transparent_world, Material, MaterialType, MaterialView, VertexAttribInfo, VertexAttribute, VertexBinding, CULL_MODE_FRONT,
    TOPOLOGY_TRIANGLE_LIST,
};

verus! {

/// `VK_CULL_MODE_NONE`.
pub const CULL_MODE_NONE: u32 = 0;
/// `VK_PRIMITIVE_TOPOLOGY_LINE_LIST`.
pub const TOPOLOGY_LINE_LIST: i32 = 1;
/// `VK_FORMAT_R8_UINT`.
pub const FORMAT_R8_UINT: i32 = 13;
/// `VK_FORMAT_R8_SINT`.
pub const FORMAT_R8_SINT: i32 = 14;
/// `VK_FORMAT_R8G8B8_SINT`.
pub const FORMAT_R8G8B8_SINT: i32 = 28;
/// `VK_FORMAT_R32G32_SFLOAT`.
pub const FORMAT_R32G32_SFLOAT: i32 = 103;
/// `VK_FORMAT_R32G32B32_SFLOAT`.
pub const FORMAT_R32G32B32_SFLOAT: i32 = 106;

/// Bytes of a cloud instance: a two-float position and a cull-face byte, padded to 12.
pub const CLOUDS_INSTANCE_SIZE: usize = 12;
/// Bytes of a three-float vector.
pub const VEC3_SIZE: usize = 12;

/// The materials the renderer makes at start.
#[derive(Clone, Copy, Debug, PartialEq, Eq, Structural)]
pub enum DefaultMaterial {
    Chunks,
    ChunksAlpha,
    UiSprites,
    UiText,
    Clouds,
    SkyDome,
    SelectionBox,
    SkyBodies,
    Particles,
    FirstPerson,
    Entities,
}

/// The settings of a default material before its first draw: its shaders, kind, cull mode,
/// blending, depth test and topology, and no pipeline yet.
pub open spec fn default_view(name: DefaultMaterial) -> MaterialView {
    let (shader, kind, cull, blend, depth, topology): (Seq<char>, MaterialType, u32, bool, bool, i32) = match name {
        DefaultMaterial::Chunks => ("chunk"@, MaterialType::ChunksOpaque, CULL_MODE_FRONT, false, true, TOPOLOGY_TRIANGLE_LIST),
        DefaultMaterial::ChunksAlpha => ("chunk"@, MaterialType::ChunksAlpha, CULL_MODE_NONE, true, true, TOPOLOGY_TRIANGLE_LIST),
        DefaultMaterial::UiSprites => ("ui\\sprites"@, MaterialType::Ui, CULL_MODE_FRONT, true, false, TOPOLOGY_TRIANGLE_LIST),
        DefaultMaterial::UiText => ("ui\\text"@, MaterialType::Ui, CULL_MODE_FRONT, true, false, TOPOLOGY_TRIANGLE_LIST),
        DefaultMaterial::Clouds => ("clouds"@, MaterialType::Alpha, CULL_MODE_FRONT, true, true, TOPOLOGY_TRIANGLE_LIST),
        DefaultMaterial::SkyDome => ("skyDome"@, MaterialType::Sky, CULL_MODE_FRONT, false, false, TOPOLOGY_TRIANGLE_LIST),
        DefaultMaterial::SelectionBox => ("selectionBox"@, MaterialType::Alpha, CULL_MODE_FRONT, true, true, TOPOLOGY_LINE_LIST),
        DefaultMaterial::SkyBodies => ("skyBodies"@, MaterialType::Sky, CULL_MODE_FRONT, true, false, TOPOLOGY_TRIANGLE_LIST),
        DefaultMaterial::Particles => ("particles"@, MaterialType::Particle, CULL_MODE_FRONT, true, true, TOPOLOGY_TRIANGLE_LIST),
        DefaultMaterial::FirstPerson => ("firstPerson"@, MaterialType::FirstPerson, CULL_MODE_FRONT, true, true, TOPOLOGY_TRIANGLE_LIST),
        DefaultMaterial::Entities => ("entities"@, MaterialType::Alpha, CULL_MODE_NONE, true, true, TOPOLOGY_TRIANGLE_LIST),
    };
    MaterialView {
        shader_name: shader,
        material_type: kind,
        cull_mode: cull,
        blend,
        depth_test: depth,
        topology,
        pipeline: 0,
        modified: true,
    }
}

/// The vertex bindings of the default materials whose vertex types are plain byte and float
/// layouts: clouds (a 7-byte vertex and a cloud instance), the sky dome (a three-float vertex)
/// and the selection box (a 3-byte vertex). The others are empty here.
pub open spec fn default_bindings(name: DefaultMaterial) -> Seq<VertexBinding> {
    match name {
        DefaultMaterial::Clouds => seq![
            VertexBinding { binding: 0, stride: 7, instance: false },
            VertexBinding { binding: 1, stride: CLOUDS_INSTANCE_SIZE as u32, instance: true },
        ],
        DefaultMaterial::SkyDome => seq![VertexBinding { binding: 0, stride: VEC3_SIZE as u32, instance: false }],
        DefaultMaterial::SelectionBox => seq![VertexBinding { binding: 0, stride: 3, instance: false }],
        _ => Seq::empty(),
    }
}

/// The vertex attributes of the same default materials.
pub open spec fn default_attributes(name: DefaultMaterial) -> Seq<VertexAttribute> {
    match name {
        DefaultMaterial::Clouds => seq![
            VertexAttribute { location: 0, binding: 0, format: FORMAT_R8G8B8_SINT, offset: 0 },
            VertexAttribute { location: 1, binding: 0, format: FORMAT_R8G8B8_SINT, offset: 3 },
            VertexAttribute { location: 2, binding: 0, format: FORMAT_R8_SINT, offset: 6 },
            VertexAttribute { location: 3, binding: 1, format: FORMAT_R32G32_SFLOAT, offset: 0 },
            VertexAttribute { location: 4, binding: 1, format: FORMAT_R8_UINT, offset: 8 },
        ],
        DefaultMaterial::SkyDome => seq![
            VertexAttribute { location: 0, binding: 0, format: FORMAT_R32G32B32_SFLOAT, offset: 0 },
        ],
        DefaultMaterial::SelectionBox => seq![
            VertexAttribute { location: 0, binding: 0, format: FORMAT_R8G8B8_SINT, offset: 0 },
        ],
        _ => Seq::empty(),
    }
}

/// The vertex layout of a default material, as `default_bindings` and `default_attributes`.
fn default_layout(name: DefaultMaterial) -> (info: VertexAttribInfo)
    ensures
        info.bindings() == default_bindings(name),
        info.attributes() == default_attributes(name),
{
    let mut info = VertexAttribInfo::new();
    match name {
        DefaultMaterial::Clouds => {
            info.add_vertex(7, false);
            info.add_attribute(FORMAT_R8G8B8_SINT, 0);
            info.add_attribute(FORMAT_R8G8B8_SINT, 3);
            info.add_attribute(FORMAT_R8_SINT, 6);
            info.add_vertex(CLOUDS_INSTANCE_SIZE, true);
            info.add_attribute(FORMAT_R32G32_SFLOAT, 0);
            info.add_attribute(FORMAT_R8_UINT, 8);
        },
        DefaultMaterial::SkyDome => {
            info.add_vertex(VEC3_SIZE, false);
            info.add_attribute(FORMAT_R32G32B32_SFLOAT, 0);
        },
        DefaultMaterial::SelectionBox => {
            info.add_vertex(3, false);
            info.add_attribute(FORMAT_R8G8B8_SINT, 0);
        },
        _ => {},
    }
    assert(info.bindings() =~= default_bindings(name));
    assert(info.attributes() =~= default_attributes(name));
    info
}

/// Makes one of the renderer's default materials, with its settings and, where its vertex types
/// are plain, its vertex layout. The selection box also draws 3-pixel-wide lines, which the
/// caller that builds its pipeline applies.
pub fn default_material(name: DefaultMaterial) -> (m: Material)
    ensures
        m.view() == default_view(name),
        m.attributes_info().bindings() == default_bindings(name),
        m.attributes_info().attributes() == default_attributes(name),
        m.layout_spec() == 0,
{
    let mut m = match name {
        DefaultMaterial::Chunks => Material::new("chunk".to_owned(), MaterialType::ChunksOpaque),
        DefaultMaterial::ChunksAlpha => {
            let mut m = Material::new("chunk".to_owned(), MaterialType::ChunksAlpha);
            m.set_blend(true);
            m.set_cull_mode(CULL_MODE_NONE);
            m
        },
        DefaultMaterial::UiSprites => {
            let mut m = Material::new("ui\\sprites".to_owned(), MaterialType::Ui);
            m.set_blend(true);
            m.set_depth_test(false);
            m
        },
        DefaultMaterial::UiText => {
            let mut m = Material::new("ui\\text".to_owned(), MaterialType::Ui);
            m.set_blend(true);
            m.set_depth_test(false);
            m
        },
        DefaultMaterial::Clouds => {
            let mut m = Material::new("clouds".to_owned(), MaterialType::Alpha);
            m.set_blend(true);
            m
        },
        DefaultMaterial::SkyDome => {
            let mut m = Material::new("skyDome".to_owned(), MaterialType::Sky);
            m.set_depth_test(false);
            m
        },
        DefaultMaterial::SelectionBox => {
            let mut m = Material::new("selectionBox".to_owned(), MaterialType::Alpha);
            m.set_blend(true);
            m.set_topology(TOPOLOGY_LINE_LIST);
            m.mark_modified();
            m
        },
        DefaultMaterial::SkyBodies => {
            let mut m = Material::new("skyBodies".to_owned(), MaterialType::Sky);
            m.set_blend(true);
            m.set_depth_test(false);
            m
        },
        DefaultMaterial::Particles => {
            let mut m = Material::new("particles".to_owned(), MaterialType::Particle);
            m.set_blend(true);
            m
        },
        DefaultMaterial::FirstPerson => {
            let mut m = Material::new("firstPerson".to_owned(), MaterialType::FirstPerson);
            m.set_blend(true);
            m
        },
        DefaultMaterial::Entities => {
            let mut m = Material::new("entities".to_owned(), MaterialType::Alpha);
            m.set_blend(true);
            m.set_cull_mode(CULL_MODE_NONE);
            m
        },
    };
    m.set_attributes_info(default_layout(name));
    m
}

/// Law: how the default materials are drawn, by what they draw. Every see-through kind (the
/// transparent world, the first-person view and the user interface) blends, and solid world
/// geometry does not. The user interface is drawn over everything and the sky behind everything,
/// so both skip the depth test, and everything else is depth-tested. The two user-interface
/// materials are the only ones of that kind and the sky dome and sky bodies the only sky ones.
/// The selection box alone draws lines, and only the transparent chunks and the entities are
/// drawn from both sides. No default material has a pipeline before its first draw.
pub proof fn lemma_default_material_settings(name: DefaultMaterial)
    ensures
        (is_transparent_world(default_view(name).material_type)
            || default_view(name).material_type == MaterialType::FirstPerson
            || default_view(name).material_type == MaterialType::Ui) ==> default_view(name).blend,
        is_opaque_world(default_view(name).material_type) ==> !default_view(name).blend,
        (default_view(name).material_type == MaterialType::Ui || default_view(name).material_type == MaterialType::Sky)
            <==> !default_view(name).depth_test,
        default_view(name).material_type == MaterialType::Ui
            <==> (name == DefaultMaterial::UiSprites || name == DefaultMaterial::UiText),
        default_view(name).material_type == MaterialType::Sky
            <==> (name == DefaultMaterial::SkyDome || name == DefaultMaterial::SkyBodies),
        (default_view(name).topology == TOPOLOGY_LINE_LIST) <==> (name == DefaultMaterial::SelectionBox),
        default_view(name).topology == TOPOLOGY_LINE_LIST || default_view(name).topology == TOPOLOGY_TRIANGLE_LIST,
        (default_view(name).cull_mode == CULL_MODE_NONE)
            <==> (name == DefaultMaterial::ChunksAlpha || name == DefaultMaterial::Entities),
        default_view(name).cull_mode == CULL_MODE_NONE || default_view(name).cull_mode == CULL_MODE_FRONT,
        default_view(name).pipeline == 0,
        default_view(name).modified,
{
}

/// Law: the opaque and transparent chunk materials share their shaders and differ in being
/// see-through: the transparent one blends and is drawn from both sides.
pub proof fn lemma_chunk_materials_differ_in_transparency()
    ensures
        default_view(DefaultMaterial::Chunks).shader_name == default_view(DefaultMaterial::ChunksAlpha).shader_name,
        default_view(DefaultMaterial::Chunks).material_type == MaterialType::ChunksOpaque,
        default_view(DefaultMaterial::ChunksAlpha).material_type == MaterialType::ChunksAlpha,
        !default_view(DefaultMaterial::Chunks).blend && default_view(DefaultMaterial::ChunksAlpha).blend,
        default_view(DefaultMaterial::ChunksAlpha).cull_mode == CULL_MODE_NONE,
        default_view(DefaultMaterial::Chunks).depth_test && default_view(DefaultMaterial::ChunksAlpha).depth_test,
{
}

} // verus!
