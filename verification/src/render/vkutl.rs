use vstd::prelude::*;

verus! {

/// `VK_IMAGE_LAYOUT_UNDEFINED`.
pub const IMAGE_LAYOUT_UNDEFINED: i32 = 0;
/// `VK_IMAGE_LAYOUT_SHADER_READ_ONLY_OPTIMAL`.
pub const IMAGE_LAYOUT_SHADER_READ_ONLY_OPTIMAL: i32 = 5;
/// `VK_IMAGE_LAYOUT_TRANSFER_DST_OPTIMAL`.
pub const IMAGE_LAYOUT_TRANSFER_DST_OPTIMAL: i32 = 7;

/// `VK_ACCESS_NONE`.
pub const ACCESS_NONE: u32 = 0;
/// `VK_ACCESS_SHADER_READ_BIT`.
pub const ACCESS_SHADER_READ: u32 = 0x20;
/// `VK_ACCESS_TRANSFER_WRITE_BIT`.
pub const ACCESS_TRANSFER_WRITE: u32 = 0x1000;

/// `VK_PIPELINE_STAGE_TOP_OF_PIPE_BIT`.
pub const STAGE_TOP_OF_PIPE: u32 = 0x1;
/// `VK_PIPELINE_STAGE_FRAGMENT_SHADER_BIT`.
pub const STAGE_FRAGMENT_SHADER: u32 = 0x80;
/// `VK_PIPELINE_STAGE_TRANSFER_BIT`.
pub const STAGE_TRANSFER: u32 = 0x1000;

/// `VK_QUEUE_FAMILY_IGNORED`: the barrier transfers no queue ownership.
pub const QUEUE_FAMILY_IGNORED: u32 = 0xFFFF_FFFF;

/// The command buffer a barrier is recorded into.
#[derive(Clone, Copy, Debug, PartialEq, Eq, Structural)]
pub enum CommandQueue {
    /// The frame's transfer command buffer.
    Transfer,
    /// The frame's graphics command buffer.
    Graphics,
}

/// The image memory barrier of a layout transition of a color image: its access masks, the
/// pipeline stages it waits between, the queue families whose ownership it moves, and the
/// command buffer it goes into.
#[derive(Clone, Copy, Debug, PartialEq, Eq, Structural)]
pub struct Transition {
    pub src_access: u32,
    pub dst_access: u32,
    pub src_stage: u32,
    pub dst_stage: u32,
    pub src_queue_family: u32,
    pub dst_queue_family: u32,
    pub command: CommandQueue,
}

/// The barrier of a texture upload's layout transition. Two transitions are supported:
///
/// - from undefined to transfer destination, before the copy: no access to transfer writes,
///   from the top of the pipe to the transfer stage, no ownership transfer, on the transfer
///   command buffer;
/// - from transfer destination to shader read-only, after the copy: transfer writes to shader
///   reads, from the transfer stage to the fragment shader, ownership moved from the transfer
///   family to the graphics family, on the graphics command buffer.
///
/// Any other pair is unsupported and gives `None`.
pub fn layout_transition(old_layout: i32, new_layout: i32, transfer_family: u32, graphics_family: u32) -> (r: Option<Transition>)
    ensures
        old_layout == IMAGE_LAYOUT_UNDEFINED && new_layout == IMAGE_LAYOUT_TRANSFER_DST_OPTIMAL
            ==> r == Some(Transition {
                src_access: ACCESS_NONE,
                dst_access: ACCESS_TRANSFER_WRITE,
                src_stage: STAGE_TOP_OF_PIPE,
                dst_stage: STAGE_TRANSFER,
                src_queue_family: QUEUE_FAMILY_IGNORED,
                dst_queue_family: QUEUE_FAMILY_IGNORED,
                command: CommandQueue::Transfer,
            }),
        old_layout == IMAGE_LAYOUT_TRANSFER_DST_OPTIMAL && new_layout == IMAGE_LAYOUT_SHADER_READ_ONLY_OPTIMAL
            ==> r == Some(Transition {
                src_access: ACCESS_TRANSFER_WRITE,
                dst_access: ACCESS_SHADER_READ,
                src_stage: STAGE_TRANSFER,
                dst_stage: STAGE_FRAGMENT_SHADER,
                src_queue_family: transfer_family,
                dst_queue_family: graphics_family,
                command: CommandQueue::Graphics,
            }),
        !(old_layout == IMAGE_LAYOUT_UNDEFINED && new_layout == IMAGE_LAYOUT_TRANSFER_DST_OPTIMAL)
            && !(old_layout == IMAGE_LAYOUT_TRANSFER_DST_OPTIMAL && new_layout == IMAGE_LAYOUT_SHADER_READ_ONLY_OPTIMAL)
            ==> r.is_none(),
{
    if old_layout == IMAGE_LAYOUT_UNDEFINED && new_layout == IMAGE_LAYOUT_TRANSFER_DST_OPTIMAL {
        Some(Transition {
            src_access: ACCESS_NONE,
            dst_access: ACCESS_TRANSFER_WRITE,
            src_stage: STAGE_TOP_OF_PIPE,
            dst_stage: STAGE_TRANSFER,
            src_queue_family: QUEUE_FAMILY_IGNORED,
            dst_queue_family: QUEUE_FAMILY_IGNORED,
            command: CommandQueue::Transfer,
        })
    } else if old_layout == IMAGE_LAYOUT_TRANSFER_DST_OPTIMAL && new_layout == IMAGE_LAYOUT_SHADER_READ_ONLY_OPTIMAL {
        Some(Transition {
            src_access: ACCESS_TRANSFER_WRITE,
            dst_access: ACCESS_SHADER_READ,
            src_stage: STAGE_TRANSFER,
            dst_stage: STAGE_FRAGMENT_SHADER,
            src_queue_family: transfer_family,
            dst_queue_family: graphics_family,
            command: CommandQueue::Graphics,
        })
    } else {
        None
    }
}

} // verus!
