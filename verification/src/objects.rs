use vstd::prelude::*;
use crate::call::GlCall;

verus! {

/// The names of the objects that a renderer owns in the graphics API, and
/// the locations of its program's two uniform variables.
#[derive(Clone, Copy, Debug, PartialEq, Eq)]
pub struct Names {
    /// The streaming vertex buffer.
    pub vbo: u32,
    /// The streaming index buffer.
    pub ebo: u32,
    /// The vertex array that records the vertex layout.
    pub vao: u32,
    /// The shader program.
    pub shader: u32,
    /// The font atlas texture.
    pub texture: u32,
    /// Where the program takes the projection matrix.
    pub u_matrix: i32,
    /// Where the program takes the texture sampler.
    pub u_texture: i32,
}

/// The objects of one renderer. A value of this type comes out of a
/// finished setup only, holds what the graphics API answered there, and is
/// given up when the objects are released: it cannot be copied.
#[derive(Debug)]
pub struct Objects {
    names: Names,
}

impl View for Objects {
    type V = Names;

    closed spec fn view(&self) -> Names {
        self.names
    }
}

/// The calls that release the objects of a renderer: the texture, both
/// buffers, the vertex array and the program, in that order.
pub open spec fn released(names: Names) -> Seq<GlCall> {
    seq![
        GlCall::DeleteTexture { texture: names.texture },
        GlCall::DeleteBuffers { first: names.vbo, second: names.ebo },
        GlCall::DeleteVertexArray { array: names.vao },
        GlCall::DeleteProgram { program: names.shader },
    ]
}

impl Objects {
    /// Takes ownership of the objects that a setup has created.
    pub(crate) fn adopt(names: Names) -> (objects: Objects)
        ensures
            objects@ == names,
    {
        Objects { names }
    }

    /// The names of these objects.
    pub fn names(&self) -> (names: Names)
        ensures
            names == self@,
    {
        self.names
    }

    /// Plans the release of these objects and gives them up.
    pub fn teardown(self) -> (calls: Vec<GlCall>)
        ensures
            calls@ == released(self@),
    {
        let names = self.names;
        let mut calls: Vec<GlCall> = Vec::new();
        calls.push(GlCall::DeleteTexture { texture: names.texture });
        calls.push(GlCall::DeleteBuffers { first: names.vbo, second: names.ebo });
        calls.push(GlCall::DeleteVertexArray { array: names.vao });
        calls.push(GlCall::DeleteProgram { program: names.shader });
        assert(calls@ =~= released(names));
        calls
    }
}

} // verus!
