use std::ops::BitOr;
use vstd::prelude::*;
use vstd::std_specs::ops::BitOrSpecImpl;
use crate::render::vkutl::{ACCESS_TRANSFER_WRITE, STAGE_TRANSFER};

verus! {

/// Number of frames in flight; a buffer that changes every frame has one copy per frame.
pub const FRAMES_COUNT: usize = 2;

/// Bit of `BufferFlags::vram`.
pub const VRAM_BIT: u32 = 0b0000_0001;
/// Bit of `BufferFlags::ram`.
pub const RAM_BIT: u32 = 0b0000_0010;
/// Bit of `BufferFlags::once`.
pub const ONCE_BIT: u32 = 0b0000_0100;
/// Bit of `BufferFlags::rare_update`.
pub const RARE_UPDATE_BIT: u32 = 0b0000_1000;

/// How a GPU buffer is placed and updated, as a set of bits.
#[derive(Clone, Copy, Debug, PartialEq, Eq, Structural)]
pub struct BufferFlags(u32);

impl BufferFlags {
    /// The bits of the set.
    pub closed spec fn bits(self) -> u32 {
        self.0
    }

    /// No flag.
    pub fn empty() -> (f: Self)
        ensures
            f.bits() == 0,
    {
        BufferFlags(0)
    }

    /// The buffer lives in video memory (device local).
    pub fn vram() -> (f: Self)
        ensures
            f.bits() == VRAM_BIT,
    {
        BufferFlags(VRAM_BIT)
    }

    /// The buffer lives in host memory (host visible).
    pub fn ram() -> (f: Self)
        ensures
            f.bits() == RAM_BIT,
    {
        BufferFlags(RAM_BIT)
    }

    /// The buffer is written once, when it is created, and has a single copy; only for video memory.
    pub fn once() -> (f: Self)
        ensures
            f.bits() == ONCE_BIT,
    {
        BufferFlags(ONCE_BIT)
    }

    /// The buffer is not updated every frame.
    pub fn rare_update() -> (f: Self)
        ensures
            f.bits() == RARE_UPDATE_BIT,
    {
        BufferFlags(RARE_UPDATE_BIT)
    }

    /// Every bit of `flag` is set in `self`.
    pub fn contains(self, flag: Self) -> (r: bool)
        ensures
            r == (self.bits() & flag.bits() == flag.bits()),
    {
        self.0 & flag.0 == flag.0
    }
}

impl BitOr for BufferFlags {
    type Output = Self;

    fn bitor(self, rhs: Self) -> (r: Self)
        ensures
            r.bits() == self.bits() | rhs.bits(),
    {
        BufferFlags(self.0 | rhs.0)
    }
}

impl BitOrSpecImpl for BufferFlags {
    open spec fn obeys_bitor_spec() -> bool {
        true
    }

    open spec fn bitor_req(self, rhs: Self) -> bool {
        true
    }

    closed spec fn bitor_spec(self, rhs: Self) -> Self {
        BufferFlags(self.bits() | rhs.bits())
    }
}

/// `flags` holds every bit of `flag`.
pub open spec fn holds_bits(flags: BufferFlags, flag: u32) -> bool {
    flags.bits() & flag == flag
}

/// A set of flags that a buffer can be created with: exactly one of video and host memory,
/// write-once only in video memory, and never both write-once and rarely updated.
pub open spec fn creation_flags_ok(flags: BufferFlags) -> bool {
    &&& holds_bits(flags, VRAM_BIT) || holds_bits(flags, RAM_BIT)
    &&& !(holds_bits(flags, VRAM_BIT) && holds_bits(flags, RAM_BIT))
    &&& !(holds_bits(flags, RAM_BIT) && holds_bits(flags, ONCE_BIT))
    &&& !(holds_bits(flags, ONCE_BIT) && holds_bits(flags, RARE_UPDATE_BIT))
}

/// Checks the flags and the size that a buffer is created with: a buffer is created only
/// with `creation_flags_ok` flags and a size that is not 0.
pub fn can_create(flags: BufferFlags, size: usize) -> (r: bool)
    ensures
        r == (creation_flags_ok(flags) && size != 0),
{
    let vram = flags.contains(BufferFlags::vram());
    let ram = flags.contains(BufferFlags::ram());
    let once = flags.contains(BufferFlags::once());
    let rare = flags.contains(BufferFlags::rare_update());
    (vram || ram) && !(vram && ram) && !(ram && once) && !(once && rare) && size != 0
}

/// The number of per-frame copies a buffer has: one for a write-once buffer, otherwise one
/// per frame in flight.
pub fn frames_used(flags: BufferFlags) -> (n: usize)
    ensures
        n == (if holds_bits(flags, ONCE_BIT) { 1 } else { FRAMES_COUNT }),
{
    if flags.contains(BufferFlags::once()) { 1 } else { FRAMES_COUNT }
}

/// The number of copies the initial data is written to: one for a write-once or rarely
/// updated buffer, otherwise every per-frame copy.
pub fn initial_uploads(flags: BufferFlags) -> (n: usize)
    ensures
        n == (if holds_bits(flags, ONCE_BIT) || holds_bits(flags, RARE_UPDATE_BIT) { 1 } else { FRAMES_COUNT }),
{
    if flags.contains(BufferFlags::once()) || flags.contains(BufferFlags::rare_update()) {
        1
    } else {
        FRAMES_COUNT
    }
}

/// The copy that a frame draws from: the single copy of a write-once buffer, otherwise the
/// frame's own copy.
pub fn buffer_slot(flags: BufferFlags, frame_index: usize) -> (i: usize)
    requires
        frame_index < FRAMES_COUNT,
    ensures
        i == (if holds_bits(flags, ONCE_BIT) { 0 } else { frame_index as int }),
        i < FRAMES_COUNT,
{
    if flags.contains(BufferFlags::once()) { 0 } else { frame_index }
}

/// A video-memory buffer that changes keeps a staging range per frame; a write-once or
/// rarely updated one does not.
pub fn keeps_staging_ranges(flags: BufferFlags) -> (r: bool)
    ensures
        r == (holds_bits(flags, VRAM_BIT) && !holds_bits(flags, ONCE_BIT) && !holds_bits(flags, RARE_UPDATE_BIT)),
{
    flags.contains(BufferFlags::vram()) && !flags.contains(BufferFlags::once())
        && !flags.contains(BufferFlags::rare_update())
}

/// The way new data reaches a buffer.
#[derive(Clone, Copy, Debug, PartialEq, Eq, Structural)]
pub enum UpdateRoute {
    /// Through the application's shared update path, for rarely updated buffers.
    Deferred,
    /// Written to the frame's staging range, then copied on the transfer queue.
    Staging,
    /// Written straight into the mapped host memory, then flushed.
    Mapped,
}

/// How an update reaches a buffer with these flags.
pub fn update_route(flags: BufferFlags) -> (r: UpdateRoute)
    ensures
        r == (if holds_bits(flags, RARE_UPDATE_BIT) {
            UpdateRoute::Deferred
        } else if holds_bits(flags, VRAM_BIT) {
            UpdateRoute::Staging
        } else {
            UpdateRoute::Mapped
        }),
{
    if flags.contains(BufferFlags::rare_update()) {
        UpdateRoute::Deferred
    } else if flags.contains(BufferFlags::vram()) {
        UpdateRoute::Staging
    } else {
        UpdateRoute::Mapped
    }
}

/// `VK_PIPELINE_STAGE_BOTTOM_OF_PIPE_BIT`.
pub const STAGE_BOTTOM_OF_PIPE: u32 = 0x2000;

/// A write-once buffer is uploaded once on the transfer queue and then handed to the graphics
/// queue: after its upload it releases its ownership to the graphics family.
pub fn releases_ownership(flags: BufferFlags) -> (r: bool)
    ensures
        r == holds_bits(flags, ONCE_BIT),
{
    flags.contains(BufferFlags::once())
}

/// The barrier that releases a buffer's ownership from the transfer family to the graphics
/// family, for its whole size.
#[derive(Clone, Copy, Debug, PartialEq, Eq, Structural)]
pub struct OwnershipRelease {
    pub src_access: u32,
    pub src_stage: u32,
    pub dst_stage: u32,
    pub src_queue_family: u32,
    pub dst_queue_family: u32,
}

/// The release barrier recorded on the transfer command buffer after a buffer is created: for a
/// write-once buffer, transfer writes made available from the transfer stage to the bottom of the
/// pipe, ownership moving from the transfer family to the graphics family; none for another one.
pub fn ownership_release(flags: BufferFlags, transfer_family: u32, graphics_family: u32) -> (r: Option<OwnershipRelease>)
    ensures
        r.is_some() == holds_bits(flags, ONCE_BIT),
        r.is_some() ==> r == Some(OwnershipRelease {
            src_access: ACCESS_TRANSFER_WRITE,
            src_stage: STAGE_TRANSFER,
            dst_stage: STAGE_BOTTOM_OF_PIPE,
            src_queue_family: transfer_family,
            dst_queue_family: graphics_family,
        }),
{
    if releases_ownership(flags) {
        Some(OwnershipRelease {
            src_access: ACCESS_TRANSFER_WRITE,
            src_stage: STAGE_TRANSFER,
            dst_stage: STAGE_BOTTOM_OF_PIPE,
            src_queue_family: transfer_family,
            dst_queue_family: graphics_family,
        })
    } else {
        None
    }
}

/// A buffer is destroyed and created again, rather than updated, when the new data is larger
/// than it or when it is write-once.
pub fn must_recreate(size: usize, current_size: usize, current_flags: BufferFlags) -> (r: bool)
    ensures
        r == (size > current_size || holds_bits(current_flags, ONCE_BIT)),
{
    size > current_size || current_flags.contains(BufferFlags::once())
}

/// Law: a union holds each of its parts.
pub proof fn lemma_union_contains_parts(a: BufferFlags, b: BufferFlags)
    ensures
        (a.bits() | b.bits()) & a.bits() == a.bits(),
        (a.bits() | b.bits()) & b.bits() == b.bits(),
{
    let x = a.bits();
    let y = b.bits();
    assert((x | y) & x == x) by (bit_vector);
    assert((x | y) & y == y) by (bit_vector);
}

/// Law: every set holds the empty set and itself, and holding is transitive.
pub proof fn lemma_contains_order(a: BufferFlags, b: BufferFlags, c: BufferFlags)
    ensures
        a.bits() & 0 == 0,
        a.bits() & a.bits() == a.bits(),
        (a.bits() & b.bits() == b.bits() && b.bits() & c.bits() == c.bits())
            ==> a.bits() & c.bits() == c.bits(),
{
    let x = a.bits();
    let y = b.bits();
    let z = c.bits();
    assert(x & 0 == 0) by (bit_vector);
    assert(x & x == x) by (bit_vector);
    assert((x & y == y && y & z == z) ==> x & z == z) by (bit_vector);
}

/// Law: the union of flags does not depend on order or grouping.
pub proof fn lemma_union_commutes(a: BufferFlags, b: BufferFlags, c: BufferFlags)
    ensures
        a.bits() | b.bits() == b.bits() | a.bits(),
        (a.bits() | b.bits()) | c.bits() == a.bits() | (b.bits() | c.bits()),
{
    let x = a.bits();
    let y = b.bits();
    let z = c.bits();
    assert(x | y == y | x) by (bit_vector);
    assert((x | y) | z == x | (y | z)) by (bit_vector);
}

} // verus!
