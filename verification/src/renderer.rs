use vstd::prelude::*;
use imgui::ImGui;
use crate::call::{BlendFactor, Capability, GlCall};
use crate::context::{atlas_extent, atlas_size};
use crate::executor::{commands_fit, commands_in_bounds, issue, issued};
use crate::frame::{DrawCommand, DrawList, Viewport};
use crate::mesh::{index_bytes, mesh_upload, update_mesh, vertex_bytes};
use crate::mesh::{BUFFER_CAPACITY, INDEX_SIZE, VERTEX_SIZE};
use crate::objects::{released, Names, Objects};
use crate::projection::{orthographic, orthographic_matrix};
use crate::setup::{Answers, Setup, SetupView};
use crate::texture::ATLAS_UNIT;

verus! {

/// Why a draw list is not rendered.
#[derive(Clone, Copy, Debug, PartialEq, Eq)]
pub enum FrameError {
    /// The vertices take more bytes than the vertex buffer has.
    VertexOverflow,
    /// The indices take more bytes than the index buffer has.
    IndexOverflow,
    /// The commands consume indices beyond the end of the index buffer.
    CommandOverflow,
}

/// The reason for which a draw list with these counts and commands is
/// refused, if there is one. The vertices are looked at first, then the
/// indices, then the commands.
pub open spec fn refusal(vertex_count: int, index_count: int, commands: Seq<DrawCommand>) -> Option<
    FrameError,
> {
    if vertex_bytes(vertex_count) > BUFFER_CAPACITY {
        Some(FrameError::VertexOverflow)
    } else if index_bytes(index_count) > BUFFER_CAPACITY {
        Some(FrameError::IndexOverflow)
    } else if !commands_fit(commands) {
        Some(FrameError::CommandOverflow)
    } else {
        None
    }
}

/// The calls that prepare the pipeline for the draw calls of a frame: the
/// vertex array and the program are bound, the atlas is bound to its unit,
/// the projection of the viewport and the number of the atlas unit are
/// handed to the program, and scissor test and alpha blending are switched
/// on.
pub open spec fn prepared(names: Names, viewport: Viewport) -> Seq<GlCall> {
    seq![
        GlCall::BindVertexArray { array: names.vao },
        GlCall::UseProgram { program: names.shader },
        GlCall::ActiveTexture { unit: ATLAS_UNIT },
        GlCall::BindTexture { texture: names.texture },
        GlCall::UniformMatrix4 {
            location: names.u_matrix,
            matrix: orthographic_matrix(viewport.width, viewport.height),
        },
        GlCall::Uniform1i { location: names.u_texture, value: ATLAS_UNIT as i32 },
        GlCall::Enable { capability: Capability::ScissorTest },
        GlCall::Enable { capability: Capability::Blend },
        GlCall::BlendFunc {
            source: BlendFactor::SrcAlpha,
            destination: BlendFactor::OneMinusSrcAlpha,
        },
    ]
}

/// The calls that give the pipeline back: scissor test and blending are
/// switched off, and the program and the vertex array are unbound.
pub open spec fn restored() -> Seq<GlCall> {
    seq![
        GlCall::Disable { capability: Capability::ScissorTest },
        GlCall::Disable { capability: Capability::Blend },
        GlCall::UseProgram { program: 0 },
        GlCall::BindVertexArray { array: 0 },
    ]
}

/// The calls that render one draw list: its mesh is uploaded, the pipeline
/// is prepared, the commands are drawn in their order, and the pipeline is
/// given back.
pub open spec fn rendered(
    names: Names,
    vertex_count: int,
    index_count: int,
    commands: Seq<DrawCommand>,
    viewport: Viewport,
) -> Seq<GlCall> {
    mesh_upload(names.vbo, names.ebo, vertex_count, index_count) + prepared(names, viewport)
        + issued(commands, viewport.height) + restored()
}

/// Renders draw lists with the objects that it owns.
#[derive(Debug)]
pub struct Renderer {
    objects: Objects,
}

impl View for Renderer {
    type V = Names;

    closed spec fn view(&self) -> Names {
        self.objects@
    }
}

impl Renderer {
    /// Makes a renderer of the objects that a setup has created.
    pub(crate) fn with_objects(objects: Objects) -> (renderer: Renderer)
        ensures
            renderer@ == objects@,
    {
        Renderer { objects }
    }

    /// Starts the setup of a renderer for a context of the user interface
    /// library: the setup is that of [`Setup::new`] for the width and the
    /// height of the font atlas that the context holds. The renderer comes
    /// out of the setup when all its calls are made.
    pub fn init(ctx: &mut ImGui) -> (setup: Setup)
        ensures
            setup@ == (SetupView {
                answers: Answers::none(),
                width: atlas_extent(*final(ctx)).0,
                height: atlas_extent(*final(ctx)).1,
                step: 0,
                failure: None,
            }),
            setup@.well_formed(),
    {
        let (width, height) = atlas_size(ctx);
        Setup::new(width, height)
    }

    /// The names of the objects that this renderer owns.
    pub fn names(&self) -> (names: Names)
        ensures
            names == self@,
    {
        self.objects.names()
    }

    /// Plans the calls that give the pipeline back after a frame. A frame's
    /// plan ends with them; a caller that has to abandon a plan halfway
    /// makes them before it leaves.
    pub fn restore() -> (calls: Vec<GlCall>)
        ensures
            calls@ == restored(),
    {
        let mut calls: Vec<GlCall> = Vec::new();
        calls.push(GlCall::Disable { capability: Capability::ScissorTest });
        calls.push(GlCall::Disable { capability: Capability::Blend });
        calls.push(GlCall::UseProgram { program: 0 });
        calls.push(GlCall::BindVertexArray { array: 0 });
        assert(calls@ =~= restored());
        calls
    }

    /// Plans the rendering of one draw list into a viewport.
    ///
    /// A draw list that does not fit the streaming buffers is refused, and
    /// no call is planned for it. For any other the plan is exactly
    /// [`rendered`], to be carried out call by call in its order.
    pub fn render(&self, frame: &DrawList, viewport: Viewport) -> (plan: Result<
        Vec<GlCall>,
        FrameError,
    >)
        ensures
            match refusal(frame.vertex_count as int, frame.index_count as int, frame.commands@) {
                Some(error) => plan == Err::<Vec<GlCall>, FrameError>(error),
                None => plan is Ok && plan->Ok_0@ == rendered(
                    self@,
                    frame.vertex_count as int,
                    frame.index_count as int,
                    frame.commands@,
                    viewport,
                ),
            },
    {
        if frame.vertex_count > BUFFER_CAPACITY / VERTEX_SIZE {
            return Err(FrameError::VertexOverflow);
        }
        if frame.index_count > BUFFER_CAPACITY / INDEX_SIZE {
            return Err(FrameError::IndexOverflow);
        }
        if !commands_in_bounds(&frame.commands) {
            return Err(FrameError::CommandOverflow);
        }
        let names = self.objects.names();
        let mut calls = update_mesh(names.vbo, names.ebo, frame.index_count, frame.vertex_count);
        calls.push(GlCall::BindVertexArray { array: names.vao });
        calls.push(GlCall::UseProgram { program: names.shader });
        calls.push(GlCall::ActiveTexture { unit: ATLAS_UNIT });
        calls.push(GlCall::BindTexture { texture: names.texture });
        calls.push(
            GlCall::UniformMatrix4 {
                location: names.u_matrix,
                matrix: orthographic(viewport.width, viewport.height),
            },
        );
        calls.push(GlCall::Uniform1i { location: names.u_texture, value: ATLAS_UNIT as i32 });
        calls.push(GlCall::Enable { capability: Capability::ScissorTest });
        calls.push(GlCall::Enable { capability: Capability::Blend });
        calls.push(
            GlCall::BlendFunc {
                source: BlendFactor::SrcAlpha,
                destination: BlendFactor::OneMinusSrcAlpha,
            },
        );
        let ghost upload = mesh_upload(
            names.vbo,
            names.ebo,
            frame.vertex_count as int,
            frame.index_count as int,
        );
        assert(calls@ =~= upload + prepared(names, viewport));
        let mut draws = issue(&frame.commands, viewport.height);
        calls.append(&mut draws);
        let mut tail = Renderer::restore();
        calls.append(&mut tail);
        Ok(calls)
    }

    /// Plans the release of this renderer's objects and gives the renderer
    /// up. Each object is named in one releasing call, and no other name
    /// is.
    pub fn teardown(self) -> (calls: Vec<GlCall>)
        ensures
            calls@ == released(self@),
    {
        self.objects.teardown()
    }
}

} // verus!
