pub mod render_utils;
pub mod vao;
pub mod shader;
pub mod sky_bodies_renderer;
pub mod raw_buffer;
pub mod mesh;
pub mod vertices_attributes;
pub mod chunk_renderer;
pub mod chunks_renderer;
pub mod material;
pub mod vulkan_app;
pub mod global_renderer;
pub mod draw_info;
pub mod pipeline_layout;
pub mod multi_mesh;
pub mod vkutl;
pub mod default_materials;
