use vstd::prelude::*;

verus! {

/// A fixed-function capability that can be switched on and off.
#[derive(Clone, Copy, Debug, PartialEq, Eq, Structural)]
pub enum RenderCap {
    Blend,
    CullFace,
    DepthTest,
}

/// The GL enum of a capability: `BLEND`, `CULL_FACE` or `DEPTH_TEST`.
pub open spec fn cap_gl_enum(cap: RenderCap) -> u32 {
    match cap {
        RenderCap::Blend => 0x0BE2,
        RenderCap::CullFace => 0x0B44,
        RenderCap::DepthTest => 0x0B71,
    }
}

impl RenderCap {
    /// The GL enum of this capability.
    pub fn gl_enum(self) -> (e: u32)
        ensures
            e == cap_gl_enum(self),
    {
        match self {
            RenderCap::Blend => 0x0BE2,
            RenderCap::CullFace => 0x0B44,
            RenderCap::DepthTest => 0x0B71,
        }
    }
}

/// What the state cache knows of the GL context: which capabilities are on and what is bound.
pub struct GlStateView {
    pub blend: bool,
    pub cull_face: bool,
    pub depth_test: bool,
    pub buffer_type: u32,
    pub buffer_id: u32,
    pub texture: u32,
    pub vao: u32,
    pub shader: u32,
}

/// Whether a capability is on in a state.
pub open spec fn cap_enabled(v: GlStateView, cap: RenderCap) -> bool {
    match cap {
        RenderCap::Blend => v.blend,
        RenderCap::CullFace => v.cull_face,
        RenderCap::DepthTest => v.depth_test,
    }
}

/// A state with one capability set to `on` and the rest unchanged.
pub open spec fn with_cap(v: GlStateView, cap: RenderCap, on: bool) -> GlStateView {
    match cap {
        RenderCap::Blend => GlStateView { blend: on, ..v },
        RenderCap::CullFace => GlStateView { cull_face: on, ..v },
        RenderCap::DepthTest => GlStateView { depth_test: on, ..v },
    }
}

/// A cache of the GL context state, so that a switch or bind that would change nothing is
/// not sent to GL. Each operation returns the GL call to make, if any.
///
/// A context starts with every capability off and nothing bound (id 0).
pub struct GlState {
    capabilities: [u32; 3],
    buffer_type: u32,
    buffer_id: u32,
    texture: u32,
    vao: u32,
    shader: u32,
}

impl GlState {
    /// The cached state.
    pub closed spec fn view(&self) -> GlStateView {
        GlStateView {
            blend: self.capabilities[0] != 0,
            cull_face: self.capabilities[1] != 0,
            depth_test: self.capabilities[2] != 0,
            buffer_type: self.buffer_type,
            buffer_id: self.buffer_id,
            texture: self.texture,
            vao: self.vao,
            shader: self.shader,
        }
    }

    /// The slot of a capability in the cache.
    fn slot(cap: RenderCap) -> (i: usize)
        ensures
            i < 3,
            i == 0 <==> cap == RenderCap::Blend,
            i == 1 <==> cap == RenderCap::CullFace,
            i == 2 <==> cap == RenderCap::DepthTest,
    {
        match cap {
            RenderCap::Blend => 0,
            RenderCap::CullFace => 1,
            RenderCap::DepthTest => 2,
        }
    }

    /// The state of a fresh context.
    pub fn new() -> (s: Self)
        ensures
            s.view() == (GlStateView {
                blend: false,
                cull_face: false,
                depth_test: false,
                buffer_type: 0,
                buffer_id: 0,
                texture: 0,
                vao: 0,
                shader: 0,
            }),
    {
        GlState { capabilities: [0, 0, 0], buffer_type: 0, buffer_id: 0, texture: 0, vao: 0, shader: 0 }
    }

    /// Switches a capability on. Returns the enum to pass to `glEnable`, or `None` when it is
    /// already on.
    pub fn enable(&mut self, cap: RenderCap) -> (call: Option<u32>)
        ensures
            call == (if cap_enabled(old(self).view(), cap) { None } else { Some(cap_gl_enum(cap)) }),
            final(self).view() == with_cap(old(self).view(), cap, true),
    {
        let index = Self::slot(cap);
        if self.capabilities[index] == 0 {
            let e = cap.gl_enum();
            self.capabilities[index] = e;
            Some(e)
        } else {
            None
        }
    }

    /// Switches a capability off. Returns the enum to pass to `glDisable`, or `None` when it is
    /// already off.
    pub fn disable(&mut self, cap: RenderCap) -> (call: Option<u32>)
        ensures
            call == (if cap_enabled(old(self).view(), cap) { Some(cap_gl_enum(cap)) } else { None }),
            final(self).view() == with_cap(old(self).view(), cap, false),
    {
        let index = Self::slot(cap);
        if self.capabilities[index] != 0 {
            self.capabilities[index] = 0;
            Some(cap.gl_enum())
        } else {
            None
        }
    }

    /// Binds a buffer to a target. Returns whether `glBindBuffer` must be called: it need not when
    /// the same buffer is already bound to the same target.
    pub fn bind_buffer(&mut self, buffer_type: u32, buffer_id: u32) -> (call: bool)
        ensures
            call == !(old(self).view().buffer_type == buffer_type && old(self).view().buffer_id == buffer_id),
            final(self).view() == (GlStateView { buffer_type, buffer_id, ..old(self).view() }),
    {
        if buffer_type == self.buffer_type && buffer_id == self.buffer_id {
            return false;
        }
        self.buffer_type = buffer_type;
        self.buffer_id = buffer_id;
        true
    }

    /// Binds a 2D texture. Returns whether `glBindTexture` must be called.
    pub fn bind_texture(&mut self, texture_id: u32) -> (call: bool)
        ensures
            call == (old(self).view().texture != texture_id),
            final(self).view() == (GlStateView { texture: texture_id, ..old(self).view() }),
    {
        if self.texture == texture_id {
            return false;
        }
        self.texture = texture_id;
        true
    }

    /// Binds a vertex array. Returns whether `glBindVertexArray` must be called.
    pub fn bind_vao(&mut self, vao_id: u32) -> (call: bool)
        ensures
            call == (old(self).view().vao != vao_id),
            final(self).view() == (GlStateView { vao: vao_id, ..old(self).view() }),
    {
        if self.vao == vao_id {
            return false;
        }
        self.vao = vao_id;
        true
    }

    /// Makes a program current. Returns whether `glUseProgram` must be called.
    pub fn bind_shader(&mut self, shader_id: u32) -> (call: bool)
        ensures
            call == (old(self).view().shader != shader_id),
            final(self).view() == (GlStateView { shader: shader_id, ..old(self).view() }),
    {
        if self.shader == shader_id {
            return false;
        }
        self.shader = shader_id;
        true
    }
}

/// Law: once a capability is switched on, switching it on again makes no GL call, and switching
/// it off makes one; the same holds the other way round.
pub proof fn lemma_cap_toggle(v: GlStateView, cap: RenderCap)
    ensures
        cap_enabled(with_cap(v, cap, true), cap),
        !cap_enabled(with_cap(v, cap, false), cap),
        forall|other: RenderCap| other != cap ==> cap_enabled(#[trigger] with_cap(v, cap, true), other) == cap_enabled(v, other),
        forall|other: RenderCap| other != cap ==> cap_enabled(#[trigger] with_cap(v, cap, false), other) == cap_enabled(v, other),
        cap_gl_enum(cap) != 0,
{
}

/// Law: a call that the cache skips would change nothing. When `enable`, `disable` or a bind
/// returns no call, the state it records is the state the context is already in, so a context
/// that matched the cache still matches it.
pub proof fn lemma_skipped_calls_change_nothing(v: GlStateView, cap: RenderCap, id: u32, buffer_type: u32)
    ensures
        cap_enabled(v, cap) ==> with_cap(v, cap, true) == v,
        !cap_enabled(v, cap) ==> with_cap(v, cap, false) == v,
        v.vao == id ==> (GlStateView { vao: id, ..v }) == v,
        v.shader == id ==> (GlStateView { shader: id, ..v }) == v,
        v.texture == id ==> (GlStateView { texture: id, ..v }) == v,
        (v.buffer_type == buffer_type && v.buffer_id == id)
            ==> (GlStateView { buffer_type, buffer_id: id, ..v }) == v,
{
}

} // verus!
