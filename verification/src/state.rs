use vstd::prelude::*;
use crate::call::{BlendFactor, BufferTarget, Capability, GlCall};
use crate::frame::ScissorRect;

verus! {

/// The part of the graphics API's state that the renderer's calls set: what
/// is switched on, and what is bound where. The name zero stands for no
/// object.
pub struct GlState {
    /// Whether the scissor test is on.
    pub scissor_test: bool,
    /// Whether blending is on.
    pub blend: bool,
    /// The two factors of the blend equation.
    pub blend_factors: (BlendFactor, BlendFactor),
    /// The rectangle of the scissor test.
    pub scissor_box: ScissorRect,
    /// The program in use.
    pub program: u32,
    /// The bound vertex array.
    pub vertex_array: u32,
    /// The buffer bound as array buffer.
    pub array_buffer: u32,
    /// For each vertex array the buffer bound as its element array. A
    /// vertex array that was never bound is not in the map.
    pub element_arrays: Map<u32, u32>,
    /// The active texture unit.
    pub active_unit: u32,
    /// For each texture unit the two-dimensional texture bound to it. A unit
    /// that nothing was bound to is not in the map.
    pub textures: Map<u32, u32>,
}

impl GlState {
    /// The state with a capability switched on or off.
    pub open spec fn switch(self, capability: Capability, on: bool) -> GlState {
        match capability {
            Capability::ScissorTest => GlState { scissor_test: on, ..self },
            Capability::Blend => GlState { blend: on, ..self },
        }
    }

    /// The state with a buffer bound to a target. The element array binding
    /// belongs to the bound vertex array.
    pub open spec fn bind_buffer(self, target: BufferTarget, buffer: u32) -> GlState {
        match target {
            BufferTarget::Array => GlState { array_buffer: buffer, ..self },
            BufferTarget::ElementArray => GlState {
                element_arrays: self.element_arrays.insert(self.vertex_array, buffer),
                ..self
            },
        }
    }

    /// The state without a texture: each unit that it was bound to has
    /// nothing bound.
    pub open spec fn without_texture(self, texture: u32) -> GlState {
        GlState {
            textures: Map::new(
                |unit: u32| self.textures.dom().contains(unit),
                |unit: u32|
                    if self.textures[unit] == texture {
                        0
                    } else {
                        self.textures[unit]
                    },
            ),
            ..self
        }
    }

    /// The state without a buffer: where it was bound as array buffer, or as
    /// element array of the bound vertex array, nothing is bound. What other
    /// vertex arrays hold of it stays.
    pub open spec fn without_buffer(self, buffer: u32) -> GlState {
        GlState {
            array_buffer: if self.array_buffer == buffer {
                0
            } else {
                self.array_buffer
            },
            element_arrays: if self.element_arrays.dom().contains(self.vertex_array)
                && self.element_arrays[self.vertex_array] == buffer {
                self.element_arrays.insert(self.vertex_array, 0)
            } else {
                self.element_arrays
            },
            ..self
        }
    }

    /// The state without a vertex array: where it was bound, none is.
    pub open spec fn without_vertex_array(self, array: u32) -> GlState {
        GlState {
            vertex_array: if self.vertex_array == array {
                0
            } else {
                self.vertex_array
            },
            ..self
        }
    }

    /// The state after one call. A call that sets nothing of this state
    /// leaves it as it is. A deleted texture, buffer or vertex array is
    /// unbound; a deleted program stays in use until another is.
    pub open spec fn apply(self, call: GlCall) -> GlState {
        match call {
            GlCall::Enable { capability } => self.switch(capability, true),
            GlCall::Disable { capability } => self.switch(capability, false),
            GlCall::BlendFunc { source, destination } => GlState {
                blend_factors: (source, destination),
                ..self
            },
            GlCall::Scissor { x, y, width, height } => GlState {
                scissor_box: ScissorRect { x, y, width, height },
                ..self
            },
            GlCall::UseProgram { program } => GlState { program, ..self },
            GlCall::BindVertexArray { array } => GlState { vertex_array: array, ..self },
            GlCall::BindBuffer { target, buffer } => self.bind_buffer(target, buffer),
            GlCall::ActiveTexture { unit } => GlState { active_unit: unit, ..self },
            GlCall::BindTexture { texture } => GlState {
                textures: self.textures.insert(self.active_unit, texture),
                ..self
            },
            GlCall::DeleteTexture { texture } => self.without_texture(texture),
            GlCall::DeleteBuffers { first, second } => self.without_buffer(first).without_buffer(
                second,
            ),
            GlCall::DeleteVertexArray { array } => self.without_vertex_array(array),
            _ => self,
        }
    }

    /// The state after the first `n` of the calls, made in their order.
    pub open spec fn after(self, calls: Seq<GlCall>, n: int) -> GlState
        decreases n,
    {
        if n <= 0 {
            self
        } else {
            self.after(calls, n - 1).apply(calls[n - 1])
        }
    }

    /// The state after all of the calls, made in their order.
    pub open spec fn run(self, calls: Seq<GlCall>) -> GlState {
        self.after(calls, calls.len() as int)
    }
}

/// The first calls of a sequence lead to the same state whatever follows
/// them.
pub proof fn after_in_first(s: GlState, first: Seq<GlCall>, second: Seq<GlCall>, n: int)
    requires
        n <= first.len(),
    ensures
        s.after(first + second, n) == s.after(first, n),
    decreases n,
{
    if n > 0 {
        after_in_first(s, first, second, n - 1);
    }
}

/// Behind the first of two sequences, the second goes on from the state
/// that the first has led to.
pub proof fn after_in_second(s: GlState, first: Seq<GlCall>, second: Seq<GlCall>, n: int)
    requires
        0 <= n <= second.len(),
    ensures
        s.after(first + second, first.len() + n) == s.run(first).after(second, n),
    decreases n,
{
    if n == 0 {
        after_in_first(s, first, second, first.len() as int);
    } else {
        after_in_second(s, first, second, n - 1);
    }
}

/// Two sequences made one behind the other lead where the second leads from
/// the state that the first has led to.
pub proof fn run_in_turn(s: GlState, first: Seq<GlCall>, second: Seq<GlCall>)
    ensures
        s.run(first + second) == s.run(first).run(second),
{
    after_in_second(s, first, second, second.len() as int);
}

} // verus!
