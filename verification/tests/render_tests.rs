use voxel_game::render::render_utils::{GlState, RenderCap};
use voxel_game::render::vao::{BufferWrite, Vao, VaoBuffers};
use voxel_game::render::shader::Shader;
use voxel_game::render::sky_bodies_renderer::SkyBodiesRenderer;
use voxel_game::render::raw_buffer::{
    buffer_slot, can_create, frames_used, initial_uploads, keeps_staging_ranges, must_recreate,
    update_route, BufferFlags, UpdateRoute,
};
use voxel_game::render::mesh::{index_count_of, triangles_after_write, BuffersTypes};
use voxel_game::render::vertices_attributes::{used_bindings, BuffersTypes as AttribBuffers};
use voxel_game::render::chunk_renderer::RendererType;
use voxel_game::render::chunks_renderer::ChunksRendererType;
use voxel_game::render::material::{Material, MaterialType, VertexAttribInfo, FORMAT_VEC4};

#[test]
fn capabilities_are_switched_once() {
    let mut gl = GlState::new();
    assert_eq!(gl.enable(RenderCap::Blend), Some(0x0BE2));
    assert_eq!(gl.enable(RenderCap::Blend), None);
    assert_eq!(gl.enable(RenderCap::DepthTest), Some(0x0B71));
    assert_eq!(gl.disable(RenderCap::Blend), Some(0x0BE2));
    assert_eq!(gl.disable(RenderCap::Blend), None);
    assert_eq!(gl.disable(RenderCap::CullFace), None);
    assert_eq!(gl.enable(RenderCap::CullFace), Some(0x0B44));
}

#[test]
fn binds_that_change_nothing_are_skipped() {
    let mut gl = GlState::new();
    assert!(!gl.bind_vao(0));
    assert!(gl.bind_vao(3));
    assert!(!gl.bind_vao(3));
    assert!(gl.bind_texture(5));
    assert!(!gl.bind_texture(5));
    assert!(gl.bind_shader(9));
    assert!(!gl.bind_shader(9));
    assert!(gl.bind_buffer(0x8892, 4));
    assert!(!gl.bind_buffer(0x8892, 4));
    assert!(gl.bind_buffer(0x8893, 4));
}

#[test]
fn vao_book_keeping_follows_the_upload_sequence() {
    let mut vao = Vao::new();
    assert!(!vao.is_generated());
    vao.gen_vao(7);
    assert!(vao.is_generated());
    vao.gen_buffer(VaoBuffers::Ebo, 11);
    vao.gen_buffer(VaoBuffers::Vbo, 12);
    vao.gen_buffer(VaoBuffers::Instance, 13);
    assert_eq!(vao.buffer(VaoBuffers::Ebo).binding_index, 0);
    assert_eq!(vao.buffer(VaoBuffers::Vbo).binding_index, 0);
    assert_eq!(vao.buffer(VaoBuffers::Instance).binding_index, 1);
    assert_eq!(vao.binding_index(), 2);
    assert_eq!(vao.buffer_data(VaoBuffers::Ebo, 24), 11);
    assert_eq!(vao.triangles_count(), 6);
    assert_eq!(vao.buffer_data(VaoBuffers::Vbo, 80), 12);
    assert_eq!(vao.binding_index(), 0);
    assert_eq!(vao.stride_buffer(), 12);
    assert_eq!(vao.buffer_data(VaoBuffers::Instance, 640), 13);
    assert_eq!(vao.binding_index(), 1);
    assert_eq!(vao.stride_buffer(), 13);
    assert_eq!(vao.update_buffer(VaoBuffers::Instance, 640), 13);
    assert_eq!(vao.smart_reallocate_buffer(VaoBuffers::Vbo, 40), BufferWrite::SubData);
    assert_eq!(vao.smart_reallocate_buffer(VaoBuffers::Vbo, 80), BufferWrite::Reallocate);
    assert_eq!(vao.smart_reallocate_buffer(VaoBuffers::Ebo, 48), BufferWrite::Reallocate);
    assert_eq!(vao.triangles_count(), 12);
    let mut gl = GlState::new();
    assert!(vao.bind(&mut gl));
    assert!(!vao.bind(&mut gl));
    let (buffers, id) = vao.delete();
    assert_eq!(buffers, vec![12, 11, 13]);
    assert_eq!(id, 7);
    assert!(!vao.is_generated());
    assert_eq!(vao.delete().0, Vec::<u32>::new());
}

#[test]
fn shader_bind_and_uniform_guard() {
    let mut gl = GlState::new();
    let empty = Shader::new();
    assert!(!empty.accepts_uniforms());
    let shader = Shader::from_program(4);
    assert!(shader.accepts_uniforms());
    assert!(shader.bind(&mut gl));
    assert!(!shader.bind(&mut gl));
    assert!(empty.bind(&mut gl));
    assert_eq!(shader.id(), 4);
}

#[test]
fn sky_bodies_renderer_starts_empty() {
    let r = SkyBodiesRenderer::new();
    assert_eq!(r.instances_count, 0);
    assert!(!r.vao.is_generated());
}

#[test]
fn buffer_flags_union_and_containment() {
    let f = BufferFlags::vram() | BufferFlags::once();
    assert!(f.contains(BufferFlags::vram()));
    assert!(f.contains(BufferFlags::once()));
    assert!(!f.contains(BufferFlags::ram()));
    assert!(f.contains(BufferFlags::empty()));
    assert!(f.contains(f));
    assert!(!BufferFlags::vram().contains(f));
    assert!(f == BufferFlags::once() | BufferFlags::vram());
}

#[test]
fn buffer_creation_rules() {
    let vram = BufferFlags::vram();
    let ram = BufferFlags::ram();
    let once = BufferFlags::once();
    let rare = BufferFlags::rare_update();
    assert!(can_create(vram | once, 64));
    assert!(can_create(ram | rare, 64));
    assert!(!can_create(vram, 0));
    assert!(!can_create(BufferFlags::empty(), 64));
    assert!(!can_create(vram | ram, 64));
    assert!(!can_create(ram | once, 64));
    assert!(!can_create(vram | once | rare, 64));
    assert_eq!(frames_used(vram | once), 1);
    assert_eq!(frames_used(vram), 2);
    assert_eq!(initial_uploads(vram | rare), 1);
    assert_eq!(initial_uploads(ram), 2);
    assert_eq!(buffer_slot(vram | once, 1), 0);
    assert_eq!(buffer_slot(vram, 1), 1);
    assert!(keeps_staging_ranges(vram));
    assert!(!keeps_staging_ranges(vram | rare));
    assert!(!keeps_staging_ranges(ram));
    assert_eq!(update_route(vram | rare), UpdateRoute::Deferred);
    assert_eq!(update_route(vram), UpdateRoute::Staging);
    assert_eq!(update_route(ram), UpdateRoute::Mapped);
    assert!(must_recreate(10, 20, vram | once));
    assert!(must_recreate(30, 20, vram));
    assert!(!must_recreate(20, 20, vram));
}

#[test]
fn mesh_index_counts() {
    assert_eq!(index_count_of(24), 6);
    assert_eq!(index_count_of(7), 1);
    assert_eq!(triangles_after_write(BuffersTypes::Index, 36, 3), 9);
    assert_eq!(triangles_after_write(BuffersTypes::Vertex, 36, 3), 3);
    assert_eq!(BuffersTypes::Instance.slot(), 1);
}

#[test]
fn used_vertex_bindings() {
    assert_eq!(used_bindings(&vec![64, 0]), vec![0]);
    assert_eq!(used_bindings(&vec![0, 32]), vec![1]);
    assert_eq!(used_bindings(&vec![8, 32]), vec![0, 1]);
    assert_eq!(AttribBuffers::Index.binding_slot(), None);
    assert_eq!(AttribBuffers::Instance.binding_slot(), Some(1));
}

#[test]
fn render_pass_indices() {
    assert_eq!(RendererType::Alpha.index(), 1);
    assert_eq!(ChunksRendererType::Opaque.index(), 0);
    assert_eq!(RendererType::RENDERS_COUNT, 2);
    assert_eq!(MaterialType::Sky.pass(), 0);
    assert_eq!(MaterialType::ChunksAlpha.pass(), 5);
    assert_eq!(MaterialType::Ui.pass(), 7);
    assert!(MaterialType::Opaque.is_sorted());
    assert!(!MaterialType::Particle.is_sorted());
}

#[test]
fn vertex_layout_builder() {
    let mut info = VertexAttribInfo::new();
    info.add_vertex(20, false);
    info.add_attribute(106, 0);
    info.add_attribute(103, 12);
    info.add_vertex(96, true);
    info.add_attribute_matrix(0);
    info.add_attribute_array_vec4(64, 2);
    let b = info.get_bindings();
    assert_eq!(b.len(), 2);
    assert_eq!((b[1].binding, b[1].stride, b[1].instance), (1, 96, true));
    let a = info.get_attributes();
    assert_eq!(a.len(), 8);
    assert_eq!((a[1].location, a[1].binding, a[1].offset), (1, 0, 12));
    assert_eq!((a[5].location, a[5].binding, a[5].format, a[5].offset), (5, 1, FORMAT_VEC4, 48));
    assert_eq!((a[7].location, a[7].offset), (7, 80));
    let d = VertexAttribInfo::default();
    assert!(d.get_attributes().is_empty());
}

#[test]
fn flag_union_groups_freely() {
    let a = BufferFlags::vram();
    let b = BufferFlags::once();
    let c = BufferFlags::rare_update();
    assert!((a | b) | c == a | (b | c));
    assert!(a | b == b | a);
    assert!((a | b).contains(a) && (a | b).contains(b));
}

#[test]
fn every_material_kind_has_its_own_pass() {
    let kinds = [
        MaterialType::Sky,
        MaterialType::ChunksOpaque,
        MaterialType::ChunksAlpha,
        MaterialType::Opaque,
        MaterialType::Alpha,
        MaterialType::Particle,
        MaterialType::FirstPerson,
        MaterialType::Ui,
    ];
    let mut passes: Vec<usize> = kinds.iter().map(|k| k.pass()).collect();
    passes.sort();
    assert_eq!(passes, vec![0, 1, 2, 3, 4, 5, 6, 7]);
}

#[test]
fn material_rebuilds_its_pipeline_after_a_change() {
    let mut m = Material::new(String::from("entities"), MaterialType::Opaque);
    assert_eq!(m.shader_name(), "entities");
    assert_eq!(m.get_type(), MaterialType::Opaque);
    // a new material has no pipeline and must build one first
    assert_eq!(m.draw_pipeline(), None);
    assert_eq!(m.take_outdated_pipeline(), Some((0, 0)));
    m.set_pipeline(77, 5);
    assert_eq!(m.draw_pipeline(), Some((77, 5)));
    // no change: the pipeline stays
    assert_eq!(m.take_outdated_pipeline(), None);
    assert_eq!(m.draw_pipeline(), Some((77, 5)));
    // a change: the old pipeline is handed back and nothing is drawn until a new one comes
    m.set_blend(true);
    assert_eq!(m.take_outdated_pipeline(), Some((77, 5)));
    assert_eq!(m.draw_pipeline(), None);
    // building failed: still nothing to draw, and no second rebuild
    m.set_pipeline(0, 0);
    assert_eq!(m.draw_pipeline(), None);
    assert_eq!(m.take_outdated_pipeline(), None);
    m.set_cull_mode(2);
    m.set_depth_test(false);
    m.set_topology(1);
    m.mark_modified();
    let mut info = VertexAttribInfo::new();
    info.add_vertex(24, false);
    m.set_attributes_info(info);
    assert_eq!(m.get_attributes_info().get_bindings().len(), 1);
    assert_eq!(m.take_outdated_pipeline(), Some((0, 0)));
}

#[test]
fn binds_change_only_their_own_slot() {
    let mut gl = GlState::new();
    gl.enable(RenderCap::Blend);
    let vao = Vao::new();
    let shader = Shader::from_program(3);
    shader.bind(&mut gl);
    vao.bind(&mut gl);
    // blending stays on, and the program stays current
    assert_eq!(gl.enable(RenderCap::Blend), None);
    assert!(!shader.bind(&mut gl));
}
