use vstd::prelude::*;
use crate::render::global_renderer::{indirect_command, DrawIndexedIndirectCommand};

verus! {

/// A range of bytes in a shared buffer: where it starts and how long it is.
#[derive(Clone, Copy, Debug, PartialEq, Eq, Structural)]
pub struct RangeInfo {
    pub start: u32,
    pub size: u32,
}

impl RangeInfo {
    /// The empty range, at the start of the buffer.
    pub fn empty() -> (r: Self)
        ensures
            r == (RangeInfo { start: 0, size: 0 }),
    {
        RangeInfo { start: 0, size: 0 }
    }
}

/// Where one mesh lives in the shared buffers: its vertex bytes, its index bytes, and how many
/// indices it draws. A mesh that draws no index records no draw.
#[derive(Clone, Copy, Debug, PartialEq, Eq, Structural)]
pub struct MultiMeshInfo {
    vertices_range: RangeInfo,
    indices_range: RangeInfo,
    index_count: u32,
}

impl MultiMeshInfo {
    /// The ranges of the mesh's vertices.
    pub closed spec fn vertices_range_spec(&self) -> RangeInfo {
        self.vertices_range
    }

    /// The ranges of the mesh's indices.
    pub closed spec fn indices_range_spec(&self) -> RangeInfo {
        self.indices_range
    }

    /// The number of indices the mesh draws.
    pub closed spec fn index_count_spec(&self) -> u32 {
        self.index_count
    }

    /// A mesh with nothing placed: empty ranges and no index.
    pub fn new() -> (m: Self)
        ensures
            m.vertices_range_spec() == (RangeInfo { start: 0, size: 0 }),
            m.indices_range_spec() == (RangeInfo { start: 0, size: 0 }),
            m.index_count_spec() == 0,
    {
        MultiMeshInfo { vertices_range: RangeInfo::empty(), indices_range: RangeInfo::empty(), index_count: 0 }
    }

    /// A mesh placed at the given ranges, drawing `index_count` indices.
    pub fn placed(vertices_range: RangeInfo, indices_range: RangeInfo, index_count: u32) -> (m: Self)
        ensures
            m.vertices_range_spec() == vertices_range,
            m.indices_range_spec() == indices_range,
            m.index_count_spec() == index_count,
    {
        MultiMeshInfo { vertices_range, indices_range, index_count }
    }

    /// The ranges of the mesh's vertices.
    pub fn vertices_range(&self) -> (r: RangeInfo)
        ensures
            r == self.vertices_range_spec(),
    {
        self.vertices_range
    }

    /// The ranges of the mesh's indices.
    pub fn indices_range(&self) -> (r: RangeInfo)
        ensures
            r == self.indices_range_spec(),
    {
        self.indices_range
    }

    /// The number of indices the mesh draws.
    pub fn index_count(&self) -> (n: u32)
        ensures
            n == self.index_count_spec(),
    {
        self.index_count
    }
}

/// One draw profile of a shared mesh buffer: the indirect commands recorded this frame, the
/// buffer they are uploaded to, and the number of commands uploaded last.
pub struct ProfileInfo<B> {
    pub indirect_data: Vec<DrawIndexedIndirectCommand>,
    pub buffer: B,
    pub draw_count: u32,
}

/// The draw profiles of a shared mesh buffer. There is one profile at first, and every index
/// then names it; once a second profile is added, each profile has its own index.
pub struct Profiles<B> {
    profiles: Vec<ProfileInfo<B>>,
    multi: bool,
}

impl<B> Profiles<B> {
    /// The profiles, in the order they were added.
    pub closed spec fn all(&self) -> Seq<ProfileInfo<B>> {
        self.profiles@
    }

    /// Whether more than the first profile was ever added.
    pub closed spec fn is_multi(&self) -> bool {
        self.multi
    }

    /// Which profile an index names.
    pub open spec fn slot(&self, idx: int) -> int {
        if self.is_multi() { idx } else { 0 }
    }

    /// An index names a profile.
    pub open spec fn valid_index(&self, idx: int) -> bool {
        0 <= self.slot(idx) < self.all().len()
    }

    /// Well-formed: at least one profile, exactly one until more were added.
    pub closed spec fn wf(&self) -> bool {
        &&& self.profiles@.len() >= 1
        &&& !self.multi ==> self.profiles@.len() == 1
        &&& self.profiles@.len() < usize::MAX
    }

    /// Profiles made of one profile that uses `buffer`.
    pub fn new(buffer: B) -> (p: Self)
        ensures
            p.wf(),
            !p.is_multi(),
            p.all().len() == 1,
            p.all()[0].buffer == buffer,
            p.all()[0].indirect_data@.len() == 0,
            p.all()[0].draw_count == 0,
    {
        let mut profiles = Vec::new();
        profiles.push(ProfileInfo { indirect_data: Vec::new(), buffer, draw_count: 0 });
        Profiles { profiles, multi: false }
    }

    /// Adds a profile that uses `buffer` and returns its index.
    pub fn create_profile(&mut self, buffer: B) -> (idx: usize)
        requires
            old(self).wf(),
            old(self).all().len() + 1 < usize::MAX,
        ensures
            final(self).wf(),
            final(self).is_multi(),
            idx == old(self).all().len(),
            final(self).all().len() == old(self).all().len() + 1,
            final(self).all().subrange(0, idx as int) == old(self).all(),
            final(self).all()[idx as int].buffer == buffer,
            final(self).all()[idx as int].indirect_data@.len() == 0,
            final(self).all()[idx as int].draw_count == 0,
            create_profile_step(*old(self), *final(self), buffer, idx),
    {
        let idx = self.profiles.len();
        self.profiles.push(ProfileInfo { indirect_data: Vec::new(), buffer, draw_count: 0 });
        self.multi = true;
        assert(self.profiles@.subrange(0, idx as int) =~= old(self).profiles@);
        idx
    }

    /// Whether an index names a profile: any index does while there is a single profile.
    pub fn has_profile(&self, profile_idx: usize) -> (r: bool)
        requires
            self.wf(),
        ensures
            r == self.valid_index(profile_idx as int),
    {
        !self.multi || profile_idx < self.profiles.len()
    }

    /// The profile that an index names.
    pub fn get(&self, profile_idx: usize) -> (p: &ProfileInfo<B>)
        requires
            self.wf(),
            self.valid_index(profile_idx as int),
        ensures
            *p == self.all()[self.slot(profile_idx as int)],
    {
        let i = if self.multi { profile_idx } else { 0 };
        &self.profiles[i]
    }

    /// The number of commands last uploaded for a profile.
    pub fn get_profile_draw_count(&self, profile_idx: usize) -> (n: u32)
        requires
            self.wf(),
            self.valid_index(profile_idx as int),
        ensures
            n == self.all()[self.slot(profile_idx as int)].draw_count,
    {
        self.get(profile_idx).draw_count
    }

    /// Records the draw of one mesh in a profile, whose vertices are `vertices_size` bytes each;
    /// a mesh without indices records nothing. The draw starts at the mesh's first index (indices
    /// are 4 bytes) and offsets its vertices by the mesh's first vertex.
    pub fn record_mesh_info(&mut self, mesh_info: MultiMeshInfo, profile_idx: usize, vertices_size: u32)
        requires
            old(self).wf(),
            old(self).valid_index(profile_idx as int),
            vertices_size != 0,
        ensures
            final(self).wf(),
            final(self).is_multi() == old(self).is_multi(),
            final(self).all().len() == old(self).all().len(),
            ({
                let s = old(self).slot(profile_idx as int);
                let before = old(self).all()[s];
                let after = final(self).all()[s];
                let index_count = mesh_info.index_count_spec();
                let indices_start = mesh_info.indices_range_spec().start;
                let vertices_start = mesh_info.vertices_range_spec().start;
                &&& after.buffer == before.buffer
                &&& after.draw_count == before.draw_count
                &&& index_count == 0 ==> after.indirect_data@ == before.indirect_data@
                &&& index_count != 0 ==> after.indirect_data@ == before.indirect_data@.push(
                    DrawIndexedIndirectCommand {
                        index_count,
                        instance_count: 1,
                        first_index: indices_start / 4,
                        vertex_offset: (vertices_start / vertices_size) as i32,
                        first_instance: 0,
                    })
            }),
            forall|j: int| 0 <= j < old(self).all().len() && j != old(self).slot(profile_idx as int)
                ==> #[trigger] final(self).all()[j] == old(self).all()[j],
    {
        let cmd = indirect_command(
            mesh_info.index_count(),
            mesh_info.indices_range().start,
            mesh_info.vertices_range().start,
            vertices_size,
        );
        match cmd {
            Some(c) => {
                let i = if self.multi { profile_idx } else { 0 };
                let mut p = self.profiles.remove(i);
                p.indirect_data.push(c);
                self.profiles.insert(i, p);
            }
            None => {}
        }
    }

    /// Ends a profile's frame: when commands were recorded, the draw count becomes their number,
    /// they are handed back for upload and the profile's list is emptied. Otherwise nothing
    /// changes and nothing is handed back.
    pub fn update_profile(&mut self, profile_idx: usize) -> (upload: Option<Vec<DrawIndexedIndirectCommand>>)
        requires
            old(self).wf(),
            old(self).valid_index(profile_idx as int),
        ensures
            final(self).wf(),
            final(self).is_multi() == old(self).is_multi(),
            final(self).all().len() == old(self).all().len(),
            ({
                let s = old(self).slot(profile_idx as int);
                let before = old(self).all()[s];
                let after = final(self).all()[s];
                &&& after.buffer == before.buffer
                &&& before.indirect_data@.len() == 0 ==> upload.is_none() && after == before
                &&& before.indirect_data@.len() != 0 ==> upload.is_some()
                    && upload.unwrap()@ == before.indirect_data@
                    && after.indirect_data@.len() == 0
                    && after.draw_count == before.indirect_data@.len() as u32
            }),
            forall|j: int| 0 <= j < old(self).all().len() && j != old(self).slot(profile_idx as int)
                ==> #[trigger] final(self).all()[j] == old(self).all()[j],
    {
        let i = if self.multi { profile_idx } else { 0 };
        if self.profiles[i].indirect_data.len() == 0 {
            return None;
        }
        let p = self.profiles.remove(i);
        let n = p.indirect_data.len();
        let data = p.indirect_data;
        let updated = ProfileInfo {
            indirect_data: Vec::new(),
            buffer: p.buffer,
            draw_count: #[verifier::truncate] (n as u32),
        };
        self.profiles.insert(i, updated);
        Some(data)
    }
}

/// What one `create_profile` call relates: the profiles before and after, the buffer given and
/// the index returned.
pub open spec fn create_profile_step<B>(before: Profiles<B>, after: Profiles<B>, buffer: B, idx: usize) -> bool {
    &&& after.is_multi()
    &&& idx == before.all().len()
    &&& after.all().len() == before.all().len() + 1
    &&& after.all().subrange(0, idx as int) == before.all()
    &&& after.all()[idx as int].buffer == buffer
    &&& after.all()[idx as int].indirect_data@.len() == 0
    &&& after.all()[idx as int].draw_count == 0
}

/// Law: starting from a single profile, the `k`-th call of `create_profile` (counting from 0)
/// returns `k + 1`; after all of them the first profile is unchanged, and profile `k + 1` has the
/// buffer given to the `k`-th call, no recorded command and a draw count of 0.
pub proof fn lemma_create_profile_calls<B>(states: Seq<Profiles<B>>, buffers: Seq<B>, idxs: Seq<usize>)
    requires
        states.len() == idxs.len() + 1,
        buffers.len() == idxs.len(),
        states[0].all().len() == 1,
        forall|i: int| 0 <= i < idxs.len() ==> create_profile_step(states[i], states[i + 1], buffers[i], #[trigger] idxs[i]),
    ensures
        forall|i: int| 0 <= i < idxs.len() ==> #[trigger] idxs[i] == i + 1,
        states.last().all().len() == idxs.len() + 1,
        states.last().all()[0] == states[0].all()[0],
        forall|k: int| 0 <= k < idxs.len() ==> {
            let p = #[trigger] states.last().all()[k + 1];
            &&& p.buffer == buffers[k]
            &&& p.indirect_data@.len() == 0
            &&& p.draw_count == 0
        },
    decreases idxs.len(),
{
    let n = idxs.len() as int;
    if n > 0 {
        let prev = states.subrange(0, n);
        lemma_create_profile_calls(prev, buffers.subrange(0, n - 1), idxs.subrange(0, n - 1));
        assert(prev.last() == states[n - 1]);
        assert(create_profile_step(states[n - 1], states[n], buffers[n - 1], idxs[n - 1]));
        assert forall|i: int| 0 <= i < n implies #[trigger] idxs[i] == i + 1 by {
            if i < n - 1 {
                assert(idxs.subrange(0, n - 1)[i] == idxs[i]);
            }
        }
        let last = states[n];
        assert(last.all().subrange(0, n)[0] == last.all()[0]);
        assert forall|k: int| 0 <= k < n implies {
            let p = #[trigger] states.last().all()[k + 1];
            &&& p.buffer == buffers[k]
            &&& p.indirect_data@.len() == 0
            &&& p.draw_count == 0
        } by {
            if k < n - 1 {
                assert(last.all().subrange(0, n)[k + 1] == last.all()[k + 1]);
                assert(prev.last().all()[k + 1] == states[n - 1].all()[k + 1]);
                assert(buffers.subrange(0, n - 1)[k] == buffers[k]);
            }
        }
    }
}

} // verus!
