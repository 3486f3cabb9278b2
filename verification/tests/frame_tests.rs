use voxel_game::game::{GameEvents, GameFlow, GameStates, UpdateWork};
use voxel_game::render::default_materials::{default_material, DefaultMaterial, CULL_MODE_NONE, TOPOLOGY_LINE_LIST};
use voxel_game::render::global_renderer::{
    draw_commands, draw_has_work, prepare_draw_info, render_plan, BoundState, DrawCall, DrawLists, DrawRecord,
    DrawType, PushConstants,
};
use voxel_game::render::material::{Material, MaterialType};
use voxel_game::render::pipeline_layout::{PipelineLayout, PushConstantRange};
use voxel_game::render::raw_buffer::{ownership_release, releases_ownership, BufferFlags, OwnershipRelease};
use voxel_game::render::vertices_attributes::{BuffersTypes, VerticesAttributes};

fn record(pipeline: u64, layout: u64, sets: [u64; 2], buffers: [u64; 2], draw_type: DrawType, push: i32) -> DrawRecord {
    DrawRecord {
        pipeline,
        pipeline_layout: layout,
        descriptor_sets: sets,
        descriptors_count: 2,
        buffers,
        index_buffer: 50,
        draw_type,
        push_constant_idx: push,
    }
}

#[test]
fn each_draw_is_recorded_once_in_order() {
    let list = vec![
        record(1, 10, [100, 101], [20, 0], DrawType::Default(36, 1), -1),
        record(1, 10, [100, 101], [20, 21], DrawType::Default(6, 4), 0),
        record(2, 11, [100, 102], [20, 30], DrawType::Indirect(3), 1),
    ];
    let plan = render_plan(&list);
    assert_eq!(plan.len(), 3);
    // first draw: everything is bound
    assert!(plan[0].binds.bind_pipeline && plan[0].binds.layout_changed);
    assert_eq!(plan[0].binds.first_set, Some(0));
    assert_eq!(plan[0].push_block, None);
    assert_eq!(plan[0].vertex_buffer_count, 1);
    assert_eq!(plan[0].call, DrawCall::Indexed { index_count: 36, instance_count: 1 });
    // same pipeline and layout: nothing rebound, its block is pushed, instances bound
    assert!(!plan[1].binds.bind_pipeline && !plan[1].binds.layout_changed);
    assert_eq!(plan[1].push_block, Some(0));
    assert_eq!(plan[1].vertex_buffer_count, 2);
    assert_eq!(plan[1].call, DrawCall::Indexed { index_count: 6, instance_count: 4 });
    // new pipeline and layout: only the second set changed; indirect draw reads the custom buffer
    assert!(plan[2].binds.bind_pipeline && plan[2].binds.layout_changed);
    assert_eq!(plan[2].binds.first_set, Some(1));
    assert_eq!(plan[2].vertex_buffer_count, 1);
    assert_eq!(plan[2].call, DrawCall::Indirect { buffer: 30, draw_count: 3, stride: 20 });
    assert_eq!(plan[2].index_buffer, 50);
}

#[test]
fn draw_commands_follow_the_bound_state() {
    let mut bound = BoundState::new();
    let d = record(5, 6, [7, 8], [1, 2], DrawType::Default(3, 1), 2);
    let c = draw_commands(&mut bound, d);
    assert!(c.binds.bind_pipeline);
    assert_eq!(c.push_block, Some(2));
    assert_eq!((bound.pipeline, bound.pipeline_layout, bound.descriptor_sets), (5, 6, [7, 8]));
    let again = draw_commands(&mut bound, d);
    assert!(!again.binds.bind_pipeline && !again.binds.layout_changed);
    assert_eq!(again.binds.first_set, None);
}

#[test]
fn prepared_draws_go_to_the_list_of_their_kind() {
    let mut lists = DrawLists::new();
    let mut push = PushConstants::new();
    let mut m = Material::new(String::from("clouds"), MaterialType::Alpha);
    m.take_outdated_pipeline();
    m.set_pipeline(9, 4);
    push.set_push_constant(0, &[1, 2, 3, 4]);
    // no work: dropped, but the block is taken
    assert!(!draw_has_work(DrawType::Default(0, 1)));
    assert!(!prepare_draw_info(&mut lists, &mut push, &m, [1, 2], 2, [10, 11, 12], DrawType::Default(0, 1)));
    assert_eq!(lists.list(MaterialType::Alpha).len(), 0);
    push.set_push_constant(0, &[5]);
    assert!(prepare_draw_info(&mut lists, &mut push, &m, [1, 2], 2, [10, 11, 12], DrawType::Indirect(2)));
    let l = lists.list(MaterialType::Alpha);
    assert_eq!(l.len(), 1);
    assert_eq!((l[0].pipeline, l[0].pipeline_layout, l[0].buffers, l[0].index_buffer), (9, 4, [10, 11], 12));
    assert_eq!(l[0].push_constant_idx, 1);
    assert_eq!(l[0].draw_type, DrawType::Indirect(2));
    assert_eq!(lists.list(MaterialType::Ui).len(), 0);
    // a material without a pipeline draws nothing
    let fresh = Material::new(String::from("x"), MaterialType::Ui);
    assert!(!prepare_draw_info(&mut lists, &mut push, &fresh, [0, 0], 0, [1, 0, 2], DrawType::Default(3, 1)));
    assert_eq!(lists.list(MaterialType::Ui).len(), 0);
    lists.clear();
    assert_eq!(lists.list(MaterialType::Alpha).len(), 0);
}

#[test]
fn write_once_buffers_release_ownership_to_graphics() {
    let once = BufferFlags::vram() | BufferFlags::once();
    assert!(releases_ownership(once));
    assert!(!releases_ownership(BufferFlags::vram()));
    assert_eq!(
        ownership_release(once, 2, 0),
        Some(OwnershipRelease { src_access: 0x1000, src_stage: 0x1000, dst_stage: 0x2000, src_queue_family: 2, dst_queue_family: 0 })
    );
    assert_eq!(ownership_release(BufferFlags::ram(), 2, 0), None);
}

#[test]
fn update_work_follows_the_flow() {
    let mut flow: GameFlow<u8, u8> = GameFlow::new();
    assert_eq!(flow.update_work(), UpdateWork { generate_chunks: false, update_world: false, update_ui: true });
    flow.apply_event(GameEvents::LoadChunks, 1);
    assert!(flow.state() == GameStates::Loading);
    assert_eq!(flow.update_work(), UpdateWork { generate_chunks: true, update_world: false, update_ui: true });
    flow.apply_event(GameEvents::EnterToWorld, 1);
    assert_eq!(flow.update_work(), UpdateWork { generate_chunks: false, update_world: true, update_ui: true });
}

#[test]
fn vertex_attributes_recreate_and_bind_rules() {
    let mut a = VerticesAttributes::new();
    let plan = a.bind_plan();
    assert!(plan.slots.is_empty() && !plan.bind_index && plan.first_binding == 0);
    a.create_buffer(BuffersTypes::Instance, 64, BufferFlags::vram());
    let plan = a.bind_plan();
    // the instance buffer alone is bound from binding 0
    assert_eq!((plan.first_binding, plan.slots.clone()), (0, vec![1]));
    assert!(!plan.bind_index);
    // writing fewer bytes updates in place
    assert!(!a.update_or_realloc(BuffersTypes::Instance, 32, BufferFlags::vram()));
    assert_eq!(a.size(BuffersTypes::Instance), 64);
    // writing more bytes recreates at the new size
    assert!(a.update_or_realloc(BuffersTypes::Instance, 100, BufferFlags::vram()));
    assert_eq!(a.size(BuffersTypes::Instance), 100);
    // a write-once index buffer is recreated on every write, and sets the index count
    let once = BufferFlags::vram() | BufferFlags::once();
    a.create_buffer(BuffersTypes::Index, 24, once);
    assert_eq!(a.triangles_count, 6);
    assert!(a.update_or_realloc(BuffersTypes::Index, 12, BufferFlags::vram()));
    assert_eq!(a.triangles_count, 3);
    assert_eq!(a.size(BuffersTypes::Index), 12);
    assert!(a.bind_plan().bind_index);
    a.create_buffer(BuffersTypes::Vertex, 8, BufferFlags::ram());
    assert_eq!(a.bind_plan().slots, vec![0, 1]);
}

#[test]
fn new_layouts_cover_the_added_sets_and_the_push_range() {
    let mut layout = PipelineLayout::new();
    layout.add_descriptor(77, [1, 2]);
    assert!(layout.create(0));
    let (sets, range) = layout.new_layout_info();
    assert_eq!(sets, vec![77]);
    assert_eq!(range, PushConstantRange { stage_flags: 0x11, offset: 0, size: 128 });
    assert!(!layout.create(5));
    assert_eq!(layout.get_layout(), 5);
}

#[test]
fn default_materials_table() {
    let m = default_material(DefaultMaterial::ChunksAlpha);
    assert_eq!(m.shader_name(), "chunk");
    assert_eq!(m.get_type(), MaterialType::ChunksAlpha);
    let box_m = default_material(DefaultMaterial::SelectionBox);
    assert_eq!(box_m.get_type(), MaterialType::Alpha);
    assert_eq!(box_m.get_attributes_info().get_bindings().len(), 1);
    let clouds = default_material(DefaultMaterial::Clouds);
    let attrs = clouds.get_attributes_info().get_attributes();
    assert_eq!(attrs.len(), 5);
    assert_eq!((attrs[4].location, attrs[4].binding, attrs[4].format, attrs[4].offset), (4, 1, 13, 8));
    assert_eq!(default_material(DefaultMaterial::UiText).shader_name(), "ui\\text");
    let _ = (CULL_MODE_NONE, TOPOLOGY_LINE_LIST);
}

#[test]
fn material_settings_follow_the_setters() {
    let mut m = default_material(DefaultMaterial::SelectionBox);
    let s = m.settings();
    assert_eq!((s.cull_mode, s.blend, s.depth_test, s.topology), (1, true, true, TOPOLOGY_LINE_LIST));
    m.set_depth_test(false);
    assert!(!m.settings().depth_test);
}
