use vstd::prelude::*;
use crate::call::{BlendFactor, GlCall};
use crate::executor::{draw_call, issued, scissor_call};
use crate::frame::{scissor_of, DrawCommand, Viewport};
use crate::mesh::{mesh_setup, mesh_upload};
use crate::objects::{released, Names};
use crate::pass::{pass_ends_restoring, PassView};
use crate::renderer::{prepared, rendered, restored};
use crate::setup::{setup_calls, Answers};
use crate::shader::program_setup;
use crate::state::{after_in_first, after_in_second, run_in_turn, GlState};
use crate::texture::{texture_setup, ATLAS_UNIT};

verus! {

/// Number of calls that upload a mesh.
pub const UPLOAD_LEN: usize = 6;

/// Number of calls that prepare the pipeline.
pub const PREPARED_LEN: usize = 9;

/// Number of calls that give the pipeline back.
pub const RESTORED_LEN: usize = 4;

/// Place of the draw call of command `i` in the plan of a frame.
pub open spec fn draw_position(i: int) -> int {
    UPLOAD_LEN + PREPARED_LEN + 2 * i + 1
}

/// Whether the pipeline is prepared for a renderer's draw calls: scissor
/// test and alpha blending are on, the renderer's program and vertex array
/// are bound, and its atlas is bound to the atlas unit.
pub open spec fn is_prepared(s: GlState, names: Names) -> bool {
    &&& s.scissor_test
    &&& s.blend
    &&& s.blend_factors == (BlendFactor::SrcAlpha, BlendFactor::OneMinusSrcAlpha)
    &&& s.program == names.shader
    &&& s.vertex_array == names.vao
    &&& s.textures.dom().contains(ATLAS_UNIT)
    &&& s.textures[ATLAS_UNIT] == names.texture
}

/// Whether the pipeline is given back: scissor test and blending are off,
/// and neither a program nor a vertex array is bound.
pub open spec fn is_restored(s: GlState) -> bool {
    &&& !s.scissor_test
    &&& !s.blend
    &&& s.program == 0
    &&& s.vertex_array == 0
}

/// An upload leaves no array buffer bound, and changes nothing else but the
/// element array of the vertex array that is bound while it runs.
pub proof fn upload_unbinds(s: GlState, vbo: u32, ebo: u32, vertex_count: int, index_count: int)
    ensures
        s.run(mesh_upload(vbo, ebo, vertex_count, index_count)) == (GlState {
            array_buffer: 0,
            element_arrays: s.element_arrays.insert(s.vertex_array, 0),
            ..s
        }),
{
    reveal_with_fuel(GlState::after, 7);
    assert(s.element_arrays.insert(s.vertex_array, ebo).insert(s.vertex_array, 0)
        =~= s.element_arrays.insert(s.vertex_array, 0));
}

/// Whatever the state before, the preparing calls lead to a prepared
/// pipeline, and they touch neither buffer binding.
pub proof fn prepared_prepares(s: GlState, names: Names, viewport: Viewport)
    ensures
        is_prepared(s.run(prepared(names, viewport)), names),
        s.run(prepared(names, viewport)).array_buffer == s.array_buffer,
        s.run(prepared(names, viewport)).element_arrays == s.element_arrays,
        s.run(prepared(names, viewport)).scissor_box == s.scissor_box,
{
    reveal_with_fuel(GlState::after, 10);
}

/// Whatever the state before, the restoring calls give the pipeline back,
/// and they touch neither a buffer nor a texture binding.
pub proof fn restored_restores(s: GlState)
    ensures
        is_restored(s.run(restored())),
        s.run(restored()).array_buffer == s.array_buffer,
        s.run(restored()).element_arrays == s.element_arrays,
        s.run(restored()).textures == s.textures,
        s.run(restored()).active_unit == s.active_unit,
{
    reveal_with_fuel(GlState::after, 5);
}

/// The calls that draw a frame's commands change nothing but the scissor
/// rectangle: after the first `n` of them it is that of the command that the
/// last of them belongs to.
pub proof fn issued_sets_scissor_only(
    s: GlState,
    commands: Seq<DrawCommand>,
    viewport_height: u32,
    n: int,
)
    requires
        0 <= n <= 2 * commands.len(),
    ensures
        s.after(issued(commands, viewport_height), n) == (GlState {
            scissor_box: if n == 0 {
                s.scissor_box
            } else {
                scissor_of(commands[(n - 1) / 2].clip_rect, viewport_height)
            },
            ..s
        }),
    decreases n,
{
    if n > 0 {
        issued_sets_scissor_only(s, commands, viewport_height, n - 1);
        let calls = issued(commands, viewport_height);
        assert(calls[n - 1] == if (n - 1) % 2 == 0 {
            scissor_call(commands, viewport_height, (n - 1) / 2)
        } else {
            draw_call(commands, (n - 1) / 2)
        });
        if (n - 1) % 2 == 1 {
            assert((n - 2) / 2 == (n - 1) / 2);
        }
    }
}

/// After a frame's plan the pipeline is given back, whatever the state
/// before it and whatever the frame: scissor test and blending are off,
/// and no program, vertex array or array buffer is bound.
pub proof fn render_restores_pipeline(
    s: GlState,
    names: Names,
    vertex_count: int,
    index_count: int,
    commands: Seq<DrawCommand>,
    viewport: Viewport,
)
    ensures
        is_restored(s.run(rendered(names, vertex_count, index_count, commands, viewport))),
        s.run(rendered(names, vertex_count, index_count, commands, viewport)).array_buffer == 0,
{
    let upload = mesh_upload(names.vbo, names.ebo, vertex_count, index_count);
    let bind = prepared(names, viewport);
    let draw = issued(commands, viewport.height);
    let s1 = s.run(upload);
    let s2 = s1.run(bind);
    let s3 = s2.run(draw);
    run_in_turn(s, upload, bind);
    run_in_turn(s, upload + bind, draw);
    run_in_turn(s, upload + bind + draw, restored());
    upload_unbinds(s, names.vbo, names.ebo, vertex_count, index_count);
    prepared_prepares(s1, names, viewport);
    issued_sets_scissor_only(s2, commands, viewport.height, 2 * (commands.len() as int));
    restored_restores(s3);
}

/// However a pass through a frame's plan ends, well or with an error at any
/// of its calls, the calls that it has made leave the pipeline given back.
pub proof fn pass_restores_pipeline(
    s: GlState,
    pass: PassView,
    names: Names,
    vertex_count: int,
    index_count: int,
    commands: Seq<DrawCommand>,
    viewport: Viewport,
)
    requires
        pass.well_formed(),
        pass.pending() is None,
        pass.plan == rendered(names, vertex_count, index_count, commands, viewport),
    ensures
        is_restored(s.run(pass.made())),
{
    pass_ends_restoring(pass);
    if pass.failure is None {
        render_restores_pipeline(s, names, vertex_count, index_count, commands, viewport);
    } else {
        let made = pass.plan.take(pass.step as int + 1);
        run_in_turn(s, made, restored());
        restored_restores(s.run(made));
    }
}

/// Each command of a frame is drawn by the call at its place in the plan,
/// and that call finds the pipeline prepared: scissor test and alpha
/// blending are on, the scissor rectangle is that of the command, and the
/// renderer's program, vertex array and atlas are bound. Where the renderer's
/// vertex array held its index buffer before the frame and was not bound
/// then, it holds it at the draw call too.
pub proof fn draw_calls_find_pipeline(
    s: GlState,
    names: Names,
    vertex_count: int,
    index_count: int,
    commands: Seq<DrawCommand>,
    viewport: Viewport,
    i: int,
)
    requires
        0 <= i < commands.len(),
    ensures
        ({
            let plan = rendered(names, vertex_count, index_count, commands, viewport);
            let at_draw = s.after(plan, draw_position(i));
            &&& plan[draw_position(i)] == draw_call(commands, i)
            &&& is_prepared(at_draw, names)
            &&& at_draw.scissor_box == scissor_of(commands[i].clip_rect, viewport.height)
            &&& at_draw.array_buffer == 0
            &&& (s.vertex_array != names.vao && s.element_arrays.dom().contains(names.vao)
                && s.element_arrays[names.vao] == names.ebo) ==> at_draw.element_arrays[names.vao]
                == names.ebo
        }),
{
    let upload = mesh_upload(names.vbo, names.ebo, vertex_count, index_count);
    let bind = prepared(names, viewport);
    let draw = issued(commands, viewport.height);
    let plan = rendered(names, vertex_count, index_count, commands, viewport);
    let s1 = s.run(upload);
    let s2 = s1.run(bind);
    let n = 2 * i + 1;
    run_in_turn(s, upload, bind);
    after_in_second(s, upload + bind, draw, n);
    after_in_first(s, upload + bind + draw, restored(), (upload + bind).len() + n);
    upload_unbinds(s, names.vbo, names.ebo, vertex_count, index_count);
    prepared_prepares(s1, names, viewport);
    issued_sets_scissor_only(s2, commands, viewport.height, n);
    assert((n - 1) / 2 == i);
    assert(plan[draw_position(i)] == draw[n]);
}

/// The draw calls of a frame's plan are those of its commands and no
/// others: a call of the plan draws exactly where it stands at the place of
/// a command's draw call.
pub proof fn only_commands_draw(
    names: Names,
    vertex_count: int,
    index_count: int,
    commands: Seq<DrawCommand>,
    viewport: Viewport,
    k: int,
)
    requires
        0 <= k < rendered(names, vertex_count, index_count, commands, viewport).len(),
    ensures
        rendered(names, vertex_count, index_count, commands, viewport).len() == UPLOAD_LEN
            + PREPARED_LEN + 2 * commands.len() + RESTORED_LEN,
        rendered(names, vertex_count, index_count, commands, viewport)[k] is DrawElements <==> exists|
            i: int,
        |
            0 <= i < commands.len() && k == draw_position(i),
{
    let upload = mesh_upload(names.vbo, names.ebo, vertex_count, index_count);
    let bind = prepared(names, viewport);
    let draw = issued(commands, viewport.height);
    let plan = rendered(names, vertex_count, index_count, commands, viewport);
    let base = UPLOAD_LEN + PREPARED_LEN;
    if base <= k < base + draw.len() {
        let j = k - base;
        assert(plan[k] == draw[j]);
        if j % 2 == 1 {
            assert(k == draw_position(j / 2));
        } else {
            assert forall|i: int| 0 <= i < commands.len() implies k != draw_position(i) by {}
        }
    } else if k < base {
        if k < UPLOAD_LEN {
            assert(plan[k] == upload[k]);
        } else {
            assert(plan[k] == bind[k - UPLOAD_LEN]);
        }
    } else {
        assert(plan[k] == restored()[k - base - draw.len()]);
    }
}

/// The setup of the mesh objects leaves neither a vertex array nor an array
/// buffer bound, and switches nothing. A vertex array with a name other than
/// zero holds the index buffer as its element array from then on.
pub proof fn mesh_setup_leaves_unbound(s: GlState, vbo: u32, ebo: u32, vao: u32)
    ensures
        s.run(mesh_setup(vbo, ebo, vao)) == (GlState {
            vertex_array: 0,
            array_buffer: 0,
            element_arrays: s.element_arrays.insert(vao, ebo).insert(0, 0),
            ..s
        }),
        vao != 0 ==> s.run(mesh_setup(vbo, ebo, vao)).element_arrays[vao] == ebo,
{
    let calls = mesh_setup(vbo, ebo, vao);
    assert(calls.len() == 20);
    let bound = GlState {
        vertex_array: vao,
        array_buffer: vbo,
        element_arrays: s.element_arrays.insert(vao, ebo),
        ..s
    };
    reveal_with_fuel(GlState::after, 7);
    assert(s.after(calls, 6) == bound);
    assert(s.after(calls, 12) == bound);
    assert(s.after(calls, 14) == bound);
    assert(s.after(calls, 20) == (GlState {
        vertex_array: 0,
        array_buffer: 0,
        element_arrays: s.element_arrays.insert(vao, ebo).insert(0, 0),
        ..s
    }));
}

/// The build of the shader program changes nothing of the state: the
/// program is linked, not used.
pub proof fn program_setup_leaves_state(s: GlState, vert: u32, frag: u32, program: u32)
    ensures
        s.run(program_setup(vert, frag, program)) == s,
{
    let calls = program_setup(vert, frag, program);
    assert(calls.len() == 17);
    reveal_with_fuel(GlState::after, 10);
    assert(s.after(calls, 8) == s);
    assert(s.after(calls, 17) == s);
}

/// The upload of the atlas makes the atlas unit the active one and leaves
/// no texture bound to it.
pub proof fn texture_setup_leaves_unbound(s: GlState, texture: u32, width: u32, height: u32)
    ensures
        s.run(texture_setup(texture, width, height)) == (GlState {
            active_unit: ATLAS_UNIT,
            textures: s.textures.insert(ATLAS_UNIT, 0),
            ..s
        }),
{
    reveal_with_fuel(GlState::after, 8);
    assert(s.textures.insert(ATLAS_UNIT, texture).insert(ATLAS_UNIT, 0) =~= s.textures.insert(
        ATLAS_UNIT,
        0,
    ));
}

/// A whole setup leaves nothing bound that it has created: no vertex array,
/// no array buffer, no texture on the atlas unit. It switches nothing and
/// uses no program.
pub proof fn setup_leaves_nothing_bound(s: GlState, a: Answers, width: u32, height: u32)
    ensures
        s.run(setup_calls(a, width, height)) == (GlState {
            vertex_array: 0,
            array_buffer: 0,
            element_arrays: s.element_arrays.insert(a.vao, a.ebo).insert(0, 0),
            active_unit: ATLAS_UNIT,
            textures: s.textures.insert(ATLAS_UNIT, 0),
            ..s
        }),
{
    let mesh = mesh_setup(a.vbo, a.ebo, a.vao);
    let program = program_setup(a.vert, a.frag, a.program);
    let texture = texture_setup(a.texture, width, height);
    run_in_turn(s, mesh, program);
    run_in_turn(s, mesh + program, texture);
    mesh_setup_leaves_unbound(s, a.vbo, a.ebo, a.vao);
    program_setup_leaves_state(s.run(mesh), a.vert, a.frag, a.program);
    texture_setup_leaves_unbound(s.run(mesh), a.texture, width, height);
}

/// After a teardown no binding names a released object: where the texture,
/// a buffer or the vertex array was bound, nothing is bound. The program is
/// not touched; after a frame none is in use.
pub proof fn teardown_unbinds(s: GlState, names: Names)
    ensures
        ({
            let t = s.run(released(names));
            &&& t.textures.dom() == s.textures.dom()
            &&& forall|unit: u32| #[trigger]
                t.textures.dom().contains(unit) ==> t.textures[unit] == if s.textures[unit]
                    == names.texture {
                    0
                } else {
                    s.textures[unit]
                }
            &&& t.array_buffer == if s.array_buffer == names.vbo || s.array_buffer == names.ebo {
                0
            } else {
                s.array_buffer
            }
            &&& t.vertex_array == if s.vertex_array == names.vao {
                0
            } else {
                s.vertex_array
            }
            &&& t.program == s.program
        }),
{
    reveal_with_fuel(GlState::after, 5);
}

} // verus!
