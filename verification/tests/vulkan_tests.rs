use ash::vk;
use voxel_game::render::vkutl::{
    layout_transition, CommandQueue, Transition, ACCESS_NONE, ACCESS_SHADER_READ, ACCESS_TRANSFER_WRITE,
    IMAGE_LAYOUT_SHADER_READ_ONLY_OPTIMAL, IMAGE_LAYOUT_TRANSFER_DST_OPTIMAL, IMAGE_LAYOUT_UNDEFINED,
    QUEUE_FAMILY_IGNORED, STAGE_FRAGMENT_SHADER, STAGE_TOP_OF_PIPE, STAGE_TRANSFER,
};
use voxel_game::render::pipeline_layout::PipelineLayout;
use voxel_game::render::vulkan_app::FrameState;
use voxel_game::render::vulkan_app::{
    choose_extent, choose_present_mode, choose_surface_format, find_queue_families, images_shared,
    is_adequade, next_frame_index, supports_image_count, Extent2D, GarbageQueue, QueueFamilyIndices,
    SurfaceCapabilities, SurfaceFormat, PRESENT_MODE_FIFO, PRESENT_MODE_IMMEDIATE, PRESENT_MODE_MAILBOX,
};
use voxel_game::render::global_renderer::{has_work, indirect_command, BoundState, DrawBinds, PushConstants};
use voxel_game::render::draw_info::{sorted_order, DrawKey};

#[test]
fn queue_families_prefer_a_separate_transfer_family() {
    let flags = vec![0x2, 0x1 | 0x2 | 0x4, 0x4, 0x1];
    let support = vec![false, false, true, true];
    let q = find_queue_families(&flags, &support);
    assert_eq!(q.graphics, Some(1));
    assert_eq!(q.present, Some(3));
    assert_eq!(q.transfer, Some(2));
    assert!(q.is_complete());
    assert!(!QueueFamilyIndices::new().is_complete());
}

#[test]
fn queue_families_fall_back_to_the_graphics_family() {
    let flags = vec![0x1 | 0x4];
    let support = vec![false];
    let q = find_queue_families(&flags, &support);
    assert_eq!(q.graphics, Some(0));
    assert_eq!(q.present, Some(0));
    assert_eq!(q.transfer, Some(0));
}

#[test]
fn swapchain_settings() {
    let formats = vec![
        SurfaceFormat { format: 37, color_space: 0 },
        SurfaceFormat { format: 44, color_space: 0 },
    ];
    assert_eq!(choose_surface_format(&formats), formats[1]);
    let other = vec![SurfaceFormat { format: 50, color_space: 0 }, SurfaceFormat { format: 44, color_space: 1 }];
    assert_eq!(choose_surface_format(&other), other[0]);
    assert_eq!(choose_present_mode(&vec![PRESENT_MODE_FIFO, PRESENT_MODE_MAILBOX]), PRESENT_MODE_MAILBOX);
    assert_eq!(choose_present_mode(&vec![PRESENT_MODE_FIFO]), PRESENT_MODE_IMMEDIATE);
    let caps = SurfaceCapabilities {
        min_image_count: 2,
        current_extent: Extent2D { width: u32::MAX, height: u32::MAX },
        min_image_extent: Extent2D { width: 1, height: 1 },
        max_image_extent: Extent2D { width: 800, height: 600 },
    };
    assert_eq!(choose_extent(caps, 1050, 650), Extent2D { width: 800, height: 600 });
    assert_eq!(choose_extent(caps, 640, 0), Extent2D { width: 640, height: 1 });
    let fixed = SurfaceCapabilities { current_extent: Extent2D { width: 1050, height: 650 }, ..caps };
    assert_eq!(choose_extent(fixed, 1, 1), Extent2D { width: 1050, height: 650 });
    assert!(supports_image_count(caps));
    assert!(!supports_image_count(SurfaceCapabilities { min_image_count: 4, ..caps }));
    assert!(is_adequade(1, 1));
    assert!(!is_adequade(0, 3));
    assert!(images_shared(0, 1));
    assert!(!images_shared(2, 2));
}

#[test]
fn frames_wrap_around() {
    assert_eq!(next_frame_index(0), 1);
    assert_eq!(next_frame_index(1), 0);
}

#[test]
fn garbage_is_released_after_the_swapchain_images() {
    let mut q: GarbageQueue<u32> = GarbageQueue::new();
    q.retire(10, vec![1, 2]);
    q.retire(11, vec![]);
    q.retire(12, vec![3]);
    assert!(q.collect(13).is_empty());
    assert!(q.collect(10 + 3).is_empty());
    assert_eq!(q.collect(14), vec![vec![1, 2]]);
    assert!(q.collect(15).is_empty());
    assert_eq!(q.collect(16), vec![vec![3]]);
    assert!(q.collect(100).is_empty());
}

#[test]
fn push_constants_grow_one_block_per_draw() {
    let mut p = PushConstants::new();
    assert_eq!(p.take_for_draw(), -1);
    p.set_push_constant(4, &[1, 2, 3, 4]);
    p.set_push_constant(0, &[9, 9]);
    assert_eq!(p.take_for_draw(), 0);
    assert_eq!(p.block_bytes(0), vec![9, 9, 0, 0, 1, 2, 3, 4]);
    p.set_push_constant(0, &[5]);
    assert_eq!(p.take_for_draw(), 1);
    assert_eq!(p.block_bytes(1), vec![5]);
    p.clear();
    p.set_push_constant(0, &[7, 7]);
    assert_eq!(p.take_for_draw(), 0);
}

#[test]
fn descriptor_sets_are_bound_from_the_first_change() {
    let mut state = BoundState::new();
    let c = state.next_draw(DrawBinds { pipeline: 1, pipeline_layout: 10, descriptor_sets: [100, 200], descriptors_count: 2 });
    assert!(c.bind_pipeline && c.layout_changed);
    assert_eq!(c.first_set, Some(0));
    let c = state.next_draw(DrawBinds { pipeline: 1, pipeline_layout: 10, descriptor_sets: [100, 200], descriptors_count: 2 });
    assert!(!c.bind_pipeline && !c.layout_changed);
    assert_eq!(c.first_set, None);
    let c = state.next_draw(DrawBinds { pipeline: 2, pipeline_layout: 11, descriptor_sets: [100, 300], descriptors_count: 2 });
    assert!(c.bind_pipeline && c.layout_changed);
    assert_eq!(c.first_set, Some(1));
    let c = state.next_draw(DrawBinds { pipeline: 2, pipeline_layout: 12, descriptor_sets: [100, 300], descriptors_count: 2 });
    assert!(c.layout_changed);
    assert_eq!(c.first_set, None);
    assert_eq!(state.descriptor_sets, [100, 300]);
}

#[test]
fn draw_work_and_indirect_commands() {
    assert!(has_work(false, 6, 1, 0));
    assert!(!has_work(false, 6, 0, 5));
    assert!(!has_work(true, 6, 1, 0));
    assert!(has_work(true, 0, 0, 2));
    let c = indirect_command(36, 400, 960, 24).unwrap();
    assert_eq!((c.index_count, c.instance_count, c.first_index, c.vertex_offset, c.first_instance), (36, 1, 100, 40, 0));
    assert!(indirect_command(0, 400, 960, 24).is_none());
}

#[test]
fn draws_sorted_stably_by_pipeline_then_layout() {
    let keys = vec![
        DrawKey { pipeline: 2, pipeline_layout: 1 },
        DrawKey { pipeline: 1, pipeline_layout: 5 },
        DrawKey { pipeline: 2, pipeline_layout: 0 },
        DrawKey { pipeline: 1, pipeline_layout: 5 },
        DrawKey { pipeline: 1, pipeline_layout: 3 },
    ];
    assert_eq!(sorted_order(&keys), vec![4, 1, 3, 2, 0]);
    assert_eq!(sorted_order(&Vec::new()), Vec::<usize>::new());
}

#[test]
fn pipeline_layout_book_keeping() {
    let mut p = PipelineLayout::new();
    assert!(!p.use_descriptor_sets());
    assert!(p.is_same(&[0, 0]));
    p.add_descriptor(5, [50, 51]);
    p.add_descriptor(6, [60, 61]);
    assert!(p.use_descriptor_sets());
    assert_eq!(p.descriptors_count(), 2);
    assert!(p.is_same(&[5, 6]));
    assert!(!p.is_same(&[5, 7]));
    assert_eq!(p.get_descriptors_sets(0), [50, 60]);
    assert_eq!(p.get_descriptors_sets(1), [51, 61]);
    assert!(!p.create(77));
    assert_eq!(p.get_layout(), 77);
    let mut q = PipelineLayout::new();
    assert!(q.create(0));
    q.set_layout(9);
    assert_eq!(q.get_layout(), 9);
}

#[test]
fn retired_resources_outlive_the_frames_in_flight() {
    let mut frames: FrameState<&str> = FrameState::new();
    assert_eq!(frames.frame_index(), 0);
    let (recreate, released) = frames.begin_frame();
    assert!(!recreate && released.is_empty());
    frames.retire("old vertex buffer");
    frames.end_frame();
    assert_eq!(frames.frame_index(), 1);
    frames.resize();
    let (recreate, released) = frames.begin_frame();
    assert!(recreate && released.is_empty());
    frames.end_frame();
    for _ in 0..2 {
        assert!(frames.begin_frame().1.is_empty());
        frames.end_frame();
    }
    let (recreate, released) = frames.begin_frame();
    assert!(!recreate);
    assert_eq!(released, vec![vec!["old vertex buffer"]]);
    assert_eq!(frames.frame_index(), 0);
}

#[test]
fn upload_layout_transitions() {
    let before_copy = layout_transition(0, 7, 2, 0).unwrap();
    assert_eq!(before_copy, Transition {
        src_access: 0,
        dst_access: 0x1000,
        src_stage: 0x1,
        dst_stage: 0x1000,
        src_queue_family: u32::MAX,
        dst_queue_family: u32::MAX,
        command: CommandQueue::Transfer,
    });
    let after_copy = layout_transition(7, 5, 2, 0).unwrap();
    assert_eq!(after_copy, Transition {
        src_access: 0x1000,
        dst_access: 0x20,
        src_stage: 0x1000,
        dst_stage: 0x80,
        src_queue_family: 2,
        dst_queue_family: 0,
        command: CommandQueue::Graphics,
    });
    assert_eq!(layout_transition(5, 7, 2, 0), None);
    assert_eq!(layout_transition(0, 5, 2, 0), None);
}

#[test]
fn layout_transition_constants_match_vulkan() {
    assert_eq!(IMAGE_LAYOUT_UNDEFINED, vk::ImageLayout::UNDEFINED.as_raw());
    assert_eq!(IMAGE_LAYOUT_TRANSFER_DST_OPTIMAL, vk::ImageLayout::TRANSFER_DST_OPTIMAL.as_raw());
    assert_eq!(IMAGE_LAYOUT_SHADER_READ_ONLY_OPTIMAL, vk::ImageLayout::SHADER_READ_ONLY_OPTIMAL.as_raw());
    assert_eq!(ACCESS_NONE, vk::AccessFlags::NONE.as_raw());
    assert_eq!(ACCESS_TRANSFER_WRITE, vk::AccessFlags::TRANSFER_WRITE.as_raw());
    assert_eq!(ACCESS_SHADER_READ, vk::AccessFlags::SHADER_READ.as_raw());
    assert_eq!(STAGE_TOP_OF_PIPE, vk::PipelineStageFlags::TOP_OF_PIPE.as_raw());
    assert_eq!(STAGE_TRANSFER, vk::PipelineStageFlags::TRANSFER.as_raw());
    assert_eq!(STAGE_FRAGMENT_SHADER, vk::PipelineStageFlags::FRAGMENT_SHADER.as_raw());
    assert_eq!(QUEUE_FAMILY_IGNORED, vk::QUEUE_FAMILY_IGNORED);
}
