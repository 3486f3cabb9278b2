use vstd::prelude::*;
use crate::render::render_utils::{GlState, GlStateView};

verus! {

/// A linked GL program, known by its name; 0 means no program.
pub struct Shader {
    id: u32,
}

impl Shader {
    /// The program's GL name.
    pub closed spec fn id_spec(&self) -> u32 {
        self.id
    }

    /// A shader with no program.
    pub fn new() -> (s: Self)
        ensures
            s.id_spec() == 0,
    {
        Shader { id: 0 }
    }

    /// A shader for the program that `glCreateProgram` returned and that has been linked.
    pub fn from_program(id: u32) -> (s: Self)
        ensures
            s.id_spec() == id,
    {
        Shader { id }
    }

    /// The program's GL name.
    pub fn id(&self) -> (id: u32)
        ensures
            id == self.id_spec(),
    {
        self.id
    }

    /// Uniforms are set only on a shader that has a program; the setters do nothing otherwise.
    pub fn accepts_uniforms(&self) -> (r: bool)
        ensures
            r == (self.id_spec() != 0),
    {
        self.id != 0
    }

    /// Makes this program current. Returns whether `glUseProgram` must be called with its name.
    pub fn bind(&self, gl: &mut GlState) -> (call: bool)
        ensures
            call == (old(gl).view().shader != self.id_spec()),
            final(gl).view() == (GlStateView { shader: self.id_spec(), ..old(gl).view() }),
    {
        gl.bind_shader(self.id)
    }
}

} // verus!
