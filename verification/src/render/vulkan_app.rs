use vstd::prelude::*;

verus! {

/// Frames recorded ahead of the GPU.
pub const FRAMES_COUNT: usize = 2;
/// Images in the swapchain.
pub const SWAPCHAIN_IMAGES_COUNT: usize = 3;
/// Whether presentation waits for vertical sync.
pub const V_SYNC: bool = false;

/// The queue family capability bit for graphics.
pub const QUEUE_GRAPHICS_BIT: u32 = 0x1;
/// The queue family capability bit for transfers.
pub const QUEUE_TRANSFER_BIT: u32 = 0x4;

/// The surface format with blue-green-red-alpha unsigned normalized bytes.
pub const FORMAT_B8G8R8A8_UNORM: i32 = 44;
/// The non-linear sRGB color space.
pub const COLOR_SPACE_SRGB_NONLINEAR: i32 = 0;
/// Presentation without waiting.
pub const PRESENT_MODE_IMMEDIATE: i32 = 0;
/// Presentation that replaces the queued image.
pub const PRESENT_MODE_MAILBOX: i32 = 1;
/// Presentation in order, one image per vertical blank.
pub const PRESENT_MODE_FIFO: i32 = 2;

/// The queue families the renderer uses, once found.
#[derive(Clone, Copy, Debug, PartialEq, Eq, Structural)]
pub struct QueueFamilyIndices {
    pub graphics: Option<u32>,
    pub present: Option<u32>,
    pub transfer: Option<u32>,
}

impl QueueFamilyIndices {
    /// No family found yet.
    pub fn new() -> (r: Self)
        ensures
            r.graphics.is_none() && r.present.is_none() && r.transfer.is_none(),
    {
        QueueFamilyIndices { graphics: None, present: None, transfer: None }
    }

    /// All three families were found.
    pub fn is_complete(&self) -> (r: bool)
        ensures
            r == (self.graphics.is_some() && self.present.is_some() && self.transfer.is_some()),
    {
        self.graphics.is_some() && self.present.is_some() && self.transfer.is_some()
    }
}

/// Family `i` can run graphics work.
pub open spec fn family_graphics(flags: Seq<u32>, i: int) -> bool {
    flags[i] & QUEUE_GRAPHICS_BIT == QUEUE_GRAPHICS_BIT
}

/// Family `i` can present: it runs graphics work and the surface supports it.
pub open spec fn family_present(flags: Seq<u32>, support: Seq<bool>, i: int) -> bool {
    family_graphics(flags, i) && support[i]
}

/// Family `i` is a transfer family apart from graphics.
pub open spec fn family_transfer_only(flags: Seq<u32>, i: int) -> bool {
    flags[i] & QUEUE_TRANSFER_BIT == QUEUE_TRANSFER_BIT && !family_graphics(flags, i)
}

/// `r` is the first index below `len` where `p` holds, or `None` if there is none.
pub open spec fn first_where(len: nat, p: spec_fn(int) -> bool, r: Option<u32>) -> bool {
    match r {
        Some(i) => i < len && p(i as int) && forall|j: int| 0 <= j < i ==> !#[trigger] p(j),
        None => forall|j: int| 0 <= j < len ==> !#[trigger] p(j),
    }
}

/// The first index below `flags.len()` at which `pick` holds, with `pick` given as a code.
fn first_family(flags: &Vec<u32>, support: &Vec<bool>, pick: u8) -> (r: Option<u32>)
    requires
        flags@.len() == support@.len(),
        flags@.len() <= u32::MAX,
        pick < 3,
    ensures
        first_where(flags@.len(), |i: int| family_pick(flags@, support@, pick, i), r),
{
    let mut i: usize = 0;
    while i < flags.len()
        invariant
            i <= flags@.len(),
            flags@.len() == support@.len(),
            flags@.len() <= u32::MAX,
            pick < 3,
            forall|j: int| 0 <= j < i ==> !family_pick(flags@, support@, pick, j),
        decreases flags@.len() - i,
    {
        let f = flags[i];
        let graphics = f & QUEUE_GRAPHICS_BIT == QUEUE_GRAPHICS_BIT;
        let hit = if pick == 0 {
            graphics
        } else if pick == 1 {
            graphics && support[i]
        } else {
            f & QUEUE_TRANSFER_BIT == QUEUE_TRANSFER_BIT && !graphics
        };
        if hit {
            return Some(i as u32);
        }
        i = i + 1;
    }
    None
}

/// The predicate that `first_family` searches for: graphics (0), present (1) or transfer-only (2).
pub open spec fn family_pick(flags: Seq<u32>, support: Seq<bool>, pick: u8, i: int) -> bool {
    if pick == 0 {
        family_graphics(flags, i)
    } else if pick == 1 {
        family_present(flags, support, i)
    } else {
        family_transfer_only(flags, i)
    }
}

/// Chooses the queue families of a device from the capability bits of its families and
/// whether the window surface supports presenting from each of them.
///
/// Graphics goes to the first graphics family. Present goes to the first graphics family that
/// the surface supports, else to the graphics family. Transfer goes to the first family that
/// transfers and is not a graphics family, else to the graphics family. A device without a
/// graphics family is refused: the search panics.
pub fn find_queue_families(queue_flags: &Vec<u32>, present_support: &Vec<bool>) -> (r: QueueFamilyIndices)
    requires
        queue_flags@.len() == present_support@.len(),
        queue_flags@.len() <= u32::MAX,
        exists|i: int| 0 <= i < queue_flags@.len() && family_graphics(queue_flags@, i),
    ensures
        first_where(queue_flags@.len(), |i: int| family_graphics(queue_flags@, i), r.graphics),
        r.graphics.is_some(),
        (exists|i: int| 0 <= i < queue_flags@.len() && family_present(queue_flags@, present_support@, i))
            ==> first_where(queue_flags@.len(), |i: int| family_present(queue_flags@, present_support@, i), r.present),
        !(exists|i: int| 0 <= i < queue_flags@.len() && family_present(queue_flags@, present_support@, i))
            ==> r.present == r.graphics,
        (exists|i: int| 0 <= i < queue_flags@.len() && family_transfer_only(queue_flags@, i))
            ==> first_where(queue_flags@.len(), |i: int| family_transfer_only(queue_flags@, i), r.transfer),
        !(exists|i: int| 0 <= i < queue_flags@.len() && family_transfer_only(queue_flags@, i))
            ==> r.transfer == r.graphics,
        r.graphics.is_some() && r.present.is_some() && r.transfer.is_some(),
{
    let graphics = first_family(queue_flags, present_support, 0);
    let present = first_family(queue_flags, present_support, 1);
    let transfer = first_family(queue_flags, present_support, 2);
    proof {
        let g = choose|i: int| 0 <= i < queue_flags@.len() && family_graphics(queue_flags@, i);
        assert(family_pick(queue_flags@, present_support@, 0, g));
        assert((|i: int| family_pick(queue_flags@, present_support@, 0u8, i))
            =~= (|i: int| family_graphics(queue_flags@, i)));
        assert((|i: int| family_pick(queue_flags@, present_support@, 1u8, i))
            =~= (|i: int| family_present(queue_flags@, present_support@, i)));
        assert((|i: int| family_pick(queue_flags@, present_support@, 2u8, i))
            =~= (|i: int| family_transfer_only(queue_flags@, i)));
        let pg = |i: int| family_graphics(queue_flags@, i);
        assert(pg(g));
        if exists|i: int| 0 <= i < queue_flags@.len() && family_present(queue_flags@, present_support@, i) {
            let w = choose|i: int| 0 <= i < queue_flags@.len() && family_present(queue_flags@, present_support@, i);
            let pp = |i: int| family_present(queue_flags@, present_support@, i);
            assert(pp(w));
        }
        if exists|i: int| 0 <= i < queue_flags@.len() && family_transfer_only(queue_flags@, i) {
            let w = choose|i: int| 0 <= i < queue_flags@.len() && family_transfer_only(queue_flags@, i);
            let pt = |i: int| family_transfer_only(queue_flags@, i);
            assert(pt(w));
        }
    }
    QueueFamilyIndices {
        graphics,
        present: if present.is_none() { graphics } else { present },
        transfer: if transfer.is_none() { graphics } else { transfer },
    }
}

/// A surface format: a pixel format and a color space.
#[derive(Clone, Copy, Debug, PartialEq, Eq, Structural)]
pub struct SurfaceFormat {
    pub format: i32,
    pub color_space: i32,
}

/// A width and a height in pixels.
#[derive(Clone, Copy, Debug, PartialEq, Eq, Structural)]
pub struct Extent2D {
    pub width: u32,
    pub height: u32,
}

/// What a surface allows for its swapchain.
#[derive(Clone, Copy, Debug, PartialEq, Eq, Structural)]
pub struct SurfaceCapabilities {
    pub min_image_count: u32,
    pub current_extent: Extent2D,
    pub min_image_extent: Extent2D,
    pub max_image_extent: Extent2D,
}

/// The preferred surface format: 8-bit BGRA in the sRGB color space.
pub open spec fn preferred_format(f: SurfaceFormat) -> bool {
    f.format == FORMAT_B8G8R8A8_UNORM && f.color_space == COLOR_SPACE_SRGB_NONLINEAR
}

/// A device is adequate for the swapchain when its surface offers a format and a present mode.
pub fn is_adequade(formats_count: usize, present_modes_count: usize) -> (r: bool)
    ensures
        r == (formats_count != 0 && present_modes_count != 0),
{
    formats_count != 0 && present_modes_count != 0
}

/// Chooses the swapchain's format: the first preferred format, else the first format.
/// An empty list is refused: indexing it panics.
pub fn choose_surface_format(formats: &Vec<SurfaceFormat>) -> (f: SurfaceFormat)
    requires
        formats@.len() > 0,
    ensures
        (exists|i: int| 0 <= i < formats@.len() && preferred_format(formats@[i]))
            ==> exists|i: int| 0 <= i < formats@.len() && f == formats@[i] && preferred_format(f)
                && forall|j: int| 0 <= j < i ==> !preferred_format(#[trigger] formats@[j]),
        !(exists|i: int| 0 <= i < formats@.len() && preferred_format(formats@[i])) ==> f == formats@[0],
{
    let mut i: usize = 0;
    while i < formats.len()
        invariant
            i <= formats@.len(),
            forall|j: int| 0 <= j < i ==> !preferred_format(#[trigger] formats@[j]),
        decreases formats@.len() - i,
    {
        let f = formats[i];
        if f.format == FORMAT_B8G8R8A8_UNORM && f.color_space == COLOR_SPACE_SRGB_NONLINEAR {
            return f;
        }
        i = i + 1;
    }
    formats[0]
}

/// Chooses the present mode: mailbox when offered, else FIFO with vertical sync and immediate
/// without it.
pub fn choose_present_mode(modes: &Vec<i32>) -> (m: i32)
    ensures
        m == (if modes@.contains(PRESENT_MODE_MAILBOX) {
            PRESENT_MODE_MAILBOX
        } else if V_SYNC {
            PRESENT_MODE_FIFO
        } else {
            PRESENT_MODE_IMMEDIATE
        }),
{
    let mut i: usize = 0;
    while i < modes.len()
        invariant
            i <= modes@.len(),
            forall|j: int| 0 <= j < i ==> modes@[j] != PRESENT_MODE_MAILBOX,
        decreases modes@.len() - i,
    {
        if modes[i] == PRESENT_MODE_MAILBOX {
            assert(modes@[i as int] == PRESENT_MODE_MAILBOX);
            return PRESENT_MODE_MAILBOX;
        }
        i = i + 1;
    }
    if V_SYNC { PRESENT_MODE_FIFO } else { PRESENT_MODE_IMMEDIATE }
}

/// `v` clamped to `lo ..= hi`.
pub open spec fn clamp_spec(v: u32, lo: u32, hi: u32) -> u32 {
    if v < lo { lo } else if v > hi { hi } else { v }
}

/// `v` clamped to `lo ..= hi`, which must not be empty.
fn clamp_u32(v: u32, lo: u32, hi: u32) -> (r: u32)
    requires
        lo <= hi,
    ensures
        r == clamp_spec(v, lo, hi),
{
    if v < lo { lo } else if v > hi { hi } else { v }
}

/// Chooses the swapchain's size: the surface's current size when it has one (a width other
/// than `u32::MAX`), else the window's framebuffer size, taken `as u32` and clamped to the
/// surface's limits. Limits whose minimum exceeds their maximum are refused: clamping panics.
pub fn choose_extent(caps: SurfaceCapabilities, framebuffer_width: i32, framebuffer_height: i32) -> (e: Extent2D)
    requires
        caps.current_extent.width == u32::MAX ==> caps.min_image_extent.width <= caps.max_image_extent.width
            && caps.min_image_extent.height <= caps.max_image_extent.height,
    ensures
        caps.current_extent.width != u32::MAX ==> e == caps.current_extent,
        caps.current_extent.width == u32::MAX ==> e == (Extent2D {
            width: clamp_spec(framebuffer_width as u32, caps.min_image_extent.width, caps.max_image_extent.width),
            height: clamp_spec(framebuffer_height as u32, caps.min_image_extent.height, caps.max_image_extent.height),
        }),
{
    if caps.current_extent.width != u32::MAX {
        caps.current_extent
    } else {
        Extent2D {
            width: clamp_u32(#[verifier::truncate] (framebuffer_width as u32), caps.min_image_extent.width, caps.max_image_extent.width),
            height: clamp_u32(#[verifier::truncate] (framebuffer_height as u32), caps.min_image_extent.height, caps.max_image_extent.height),
        }
    }
}

/// The swapchain is created with a fixed number of images, which the surface must allow.
pub fn supports_image_count(caps: SurfaceCapabilities) -> (r: bool)
    ensures
        r == (caps.min_image_count <= SWAPCHAIN_IMAGES_COUNT),
{
    caps.min_image_count <= SWAPCHAIN_IMAGES_COUNT as u32
}

/// Swapchain images are shared between queues only when graphics and present use different
/// families.
pub fn images_shared(graphics: u32, present: u32) -> (r: bool)
    ensures
        r == (graphics != present),
{
    graphics != present
}

/// The frame slot after `frame_index`, wrapping around the frames in flight.
pub fn next_frame_index(frame_index: usize) -> (n: usize)
    requires
        frame_index < FRAMES_COUNT,
    ensures
        n == (frame_index + 1) % (FRAMES_COUNT as int),
        n < FRAMES_COUNT,
{
    (frame_index + 1) % FRAMES_COUNT
}

/// Resources that the GPU may still use, held until enough frames have passed. A list retired
/// in frame `f` is released in the first frame after `f + SWAPCHAIN_IMAGES_COUNT`.
pub struct GarbageQueue<T> {
    lists: Vec<(usize, Vec<T>)>,
}

impl<T> GarbageQueue<T> {
    /// The held lists, each with the frame count it is held until.
    pub closed spec fn entries(&self) -> Seq<(usize, Vec<T>)> {
        self.lists@
    }

    /// Nothing held.
    pub fn new() -> (q: Self)
        ensures
            q.entries() == Seq::<(usize, Vec<T>)>::empty(),
    {
        GarbageQueue { lists: Vec::new() }
    }

    /// Holds the resources retired in frame `frame_count`, if there are any.
    pub fn retire(&mut self, frame_count: usize, items: Vec<T>)
        requires
            frame_count + SWAPCHAIN_IMAGES_COUNT <= usize::MAX,
        ensures
            items@.len() == 0 ==> final(self).entries() == old(self).entries(),
            items@.len() != 0 ==> final(self).entries()
                == old(self).entries().push(((frame_count + SWAPCHAIN_IMAGES_COUNT) as usize, items)),
    {
        if items.len() != 0 {
            self.lists.push((frame_count + SWAPCHAIN_IMAGES_COUNT, items));
        }
    }

    /// Releases, in the order they were retired, the lists whose frame count has passed:
    /// those held until a count below `frame_count`. The others stay, in order.
    pub fn collect(&mut self, frame_count: usize) -> (released: Vec<Vec<T>>)
        ensures
            final(self).entries() == old(self).entries().filter(|e: (usize, Vec<T>)| e.0 >= frame_count),
            released@ == old(self).entries().filter(|e: (usize, Vec<T>)| e.0 < frame_count)
                .map_values(|e: (usize, Vec<T>)| e.1),
    {
        let ghost all = self.lists@;
        let mut lists = Vec::new();
        std::mem::swap(&mut lists, &mut self.lists);
        let mut kept: Vec<(usize, Vec<T>)> = Vec::new();
        let mut released: Vec<Vec<T>> = Vec::new();
        let ghost mut done: int = 0;
        let mut rest = lists;
        while rest.len() > 0
            invariant
                0 <= done <= all.len(),
                rest@ == all.subrange(done, all.len() as int),
                kept@ == all.subrange(0, done).filter(|e: (usize, Vec<T>)| e.0 >= frame_count),
                released@ == all.subrange(0, done).filter(|e: (usize, Vec<T>)| e.0 < frame_count)
                    .map_values(|e: (usize, Vec<T>)| e.1),
            decreases rest@.len(),
        {
            let entry = rest.remove(0);
            proof {
                reveal_with_fuel(Seq::filter, 1);
                assert(entry == all[done]);
                assert(all.subrange(0, done + 1).drop_last() == all.subrange(0, done));
                assert(rest@ == all.subrange(done + 1, all.len() as int));
            }
            if entry.0 < frame_count {
                released.push(entry.1);
            } else {
                kept.push(entry);
            }
            proof {
                done = done + 1;
            }
        }
        proof {
            assert(all.subrange(0, all.len() as int) == all);
        }
        self.lists = kept;
        released
    }
}

/// The frame loop's counters and the resources retired during the current frame.
pub struct FrameState<T> {
    frame_index: usize,
    frame_count: usize,
    resized: bool,
    current_garbage: Vec<T>,
    garbage: GarbageQueue<T>,
}

impl<T> FrameState<T> {
    /// The slot of the frame being recorded.
    pub closed spec fn frame_index_spec(&self) -> usize {
        self.frame_index
    }

    /// The number of frames ended so far.
    pub closed spec fn frame_count_spec(&self) -> usize {
        self.frame_count
    }

    /// The window was resized since the swapchain was last made.
    pub closed spec fn resized_spec(&self) -> bool {
        self.resized
    }

    /// Resources retired during the current frame.
    pub closed spec fn current_garbage_spec(&self) -> Seq<T> {
        self.current_garbage@
    }

    /// Lists retired in ended frames, with the frame count they are held until.
    pub closed spec fn held_spec(&self) -> Seq<(usize, Vec<T>)> {
        self.garbage.entries()
    }

    /// Well-formed: the frame slot is in range.
    pub closed spec fn wf(&self) -> bool {
        self.frame_index < FRAMES_COUNT
    }

    /// The first frame: slot 0, nothing ended, nothing retired.
    pub fn new() -> (f: Self)
        ensures
            f.wf(),
            f.frame_index_spec() == 0,
            f.frame_count_spec() == 0,
            !f.resized_spec(),
            f.current_garbage_spec().len() == 0,
            f.held_spec().len() == 0,
    {
        FrameState { frame_index: 0, frame_count: 0, resized: false, current_garbage: Vec::new(), garbage: GarbageQueue::new() }
    }

    /// The slot of the frame being recorded.
    pub fn frame_index(&self) -> (i: usize)
        requires
            self.wf(),
        ensures
            i == self.frame_index_spec(),
            i < FRAMES_COUNT,
    {
        self.frame_index
    }

    /// The number of frames ended so far.
    pub fn frame_count(&self) -> (n: usize)
        ensures
            n == self.frame_count_spec(),
    {
        self.frame_count
    }

    /// Notes a resize of the window (to a size that is not empty); the swapchain is made again
    /// at the start of the next frame.
    pub fn resize(&mut self)
        ensures
            final(self).resized_spec(),
            final(self).frame_index_spec() == old(self).frame_index_spec(),
            final(self).frame_count_spec() == old(self).frame_count_spec(),
            final(self).current_garbage_spec() == old(self).current_garbage_spec(),
            final(self).held_spec() == old(self).held_spec(),
            old(self).wf() ==> final(self).wf(),
    {
        self.resized = true;
    }

    /// Retires a resource that the GPU may still use in the frames in flight.
    pub fn retire(&mut self, item: T)
        ensures
            final(self).current_garbage_spec() == old(self).current_garbage_spec().push(item),
            final(self).frame_index_spec() == old(self).frame_index_spec(),
            final(self).frame_count_spec() == old(self).frame_count_spec(),
            final(self).resized_spec() == old(self).resized_spec(),
            final(self).held_spec() == old(self).held_spec(),
            old(self).wf() ==> final(self).wf(),
    {
        self.current_garbage.push(item);
    }

    /// Starts a frame. Returns whether the swapchain must be made again (the window was
    /// resized), and the retired lists whose frames have all passed, to destroy now.
    pub fn begin_frame(&mut self) -> (r: (bool, Vec<Vec<T>>))
        ensures
            r.0 == old(self).resized_spec(),
            !final(self).resized_spec(),
            r.1@ == old(self).held_spec().filter(|e: (usize, Vec<T>)| e.0 < old(self).frame_count_spec())
                .map_values(|e: (usize, Vec<T>)| e.1),
            final(self).held_spec() == old(self).held_spec().filter(|e: (usize, Vec<T>)| e.0 >= old(self).frame_count_spec()),
            final(self).frame_index_spec() == old(self).frame_index_spec(),
            final(self).frame_count_spec() == old(self).frame_count_spec(),
            final(self).current_garbage_spec() == old(self).current_garbage_spec(),
            old(self).wf() ==> final(self).wf(),
    {
        let recreate = self.resized;
        self.resized = false;
        let released = self.garbage.collect(self.frame_count);
        (recreate, released)
    }

    /// Ends a frame: the resources retired during it are held until the swapchain's images have
    /// all been presented again, and the next frame slot is taken.
    pub fn end_frame(&mut self)
        requires
            old(self).wf(),
            old(self).frame_count_spec() + SWAPCHAIN_IMAGES_COUNT < usize::MAX,
        ensures
            final(self).wf(),
            final(self).frame_index_spec() == (old(self).frame_index_spec() + 1) % (FRAMES_COUNT as int),
            final(self).frame_count_spec() == old(self).frame_count_spec() + 1,
            final(self).current_garbage_spec().len() == 0,
            old(self).current_garbage_spec().len() == 0 ==> final(self).held_spec() == old(self).held_spec(),
            old(self).current_garbage_spec().len() != 0 ==> final(self).held_spec().len() == old(self).held_spec().len() + 1
                && final(self).held_spec().last().0 == old(self).frame_count_spec() + SWAPCHAIN_IMAGES_COUNT
                && final(self).held_spec().last().1@ == old(self).current_garbage_spec()
                && final(self).held_spec().drop_last() == old(self).held_spec(),
            final(self).resized_spec() == old(self).resized_spec(),
    {
        let mut list = Vec::new();
        std::mem::swap(&mut list, &mut self.current_garbage);
        self.garbage.retire(self.frame_count, list);
        self.frame_index = next_frame_index(self.frame_index);
        self.frame_count = self.frame_count + 1;
    }
}

/// Law: a list retired in frame `retired_at` is released by the first collection in a frame
/// after `retired_at + SWAPCHAIN_IMAGES_COUNT`, and kept by every earlier one; the lists held
/// before are released or kept as they were.
pub proof fn lemma_retired_release_time<T>(held: Seq<(usize, Vec<T>)>, retired_at: usize, items: Vec<T>, now: usize)
    requires
        retired_at + SWAPCHAIN_IMAGES_COUNT <= usize::MAX,
    ensures ({
        let entry = ((retired_at + SWAPCHAIN_IMAGES_COUNT) as usize, items);
        let all = held.push(entry);
        &&& retired_at + SWAPCHAIN_IMAGES_COUNT < now ==>
            all.filter(|e: (usize, Vec<T>)| e.0 < now) == held.filter(|e: (usize, Vec<T>)| e.0 < now).push(entry)
            && all.filter(|e: (usize, Vec<T>)| e.0 >= now) == held.filter(|e: (usize, Vec<T>)| e.0 >= now)
        &&& retired_at + SWAPCHAIN_IMAGES_COUNT >= now ==>
            all.filter(|e: (usize, Vec<T>)| e.0 < now) == held.filter(|e: (usize, Vec<T>)| e.0 < now)
            && all.filter(|e: (usize, Vec<T>)| e.0 >= now) == held.filter(|e: (usize, Vec<T>)| e.0 >= now).push(entry)
    }),
{
    let entry = ((retired_at + SWAPCHAIN_IMAGES_COUNT) as usize, items);
    let all = held.push(entry);
    reveal_with_fuel(Seq::filter, 1);
    assert(all.drop_last() == held);
}

} // verus!
