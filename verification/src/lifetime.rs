use vstd::prelude::*;
use vstd::multiset::Multiset;
use crate::call::{GlCall, Reply};
use crate::executor::issued;
use crate::frame::{DrawCommand, Viewport};
use crate::mesh::{mesh_setup, mesh_upload, MESH_SETUP_LEN};
use crate::objects::{released, Names};
use crate::pipeline::{PREPARED_LEN, UPLOAD_LEN};
use crate::renderer::{prepared, rendered, restored};
use crate::setup::{answer_at, setup_calls, setup_calls_listed, Answers};
use crate::setup::{EBO_STEP, FRAG_STEP, PROGRAM_STEP, TEXTURE_STEP, VAO_STEP, VBO_STEP, VERT_STEP};
use crate::setup::SETUP_LEN;
use crate::shader::{program_setup, PROGRAM_SETUP_LEN};
use crate::texture::texture_setup;

verus! {

/// An object of the graphics API: its kind and its name.
pub enum GlObject {
    Buffer(u32),
    VertexArray(u32),
    Texture(u32),
    Shader(u32),
    Program(u32),
}

/// The object that a call creates, where the graphics API answers it with
/// `reply`.
pub open spec fn created_by(call: GlCall, reply: Reply) -> Multiset<GlObject> {
    match (call, reply) {
        (GlCall::GenBuffer, Reply::Name(name)) => Multiset::singleton(GlObject::Buffer(name)),
        (GlCall::GenVertexArray, Reply::Name(name)) => Multiset::singleton(
            GlObject::VertexArray(name),
        ),
        (GlCall::GenTexture, Reply::Name(name)) => Multiset::singleton(GlObject::Texture(name)),
        (GlCall::CreateShader { .. }, Reply::Name(name)) => Multiset::singleton(
            GlObject::Shader(name),
        ),
        (GlCall::CreateProgram, Reply::Name(name)) => Multiset::singleton(GlObject::Program(name)),
        _ => Multiset::empty(),
    }
}

/// The objects that a call releases.
pub open spec fn released_by(call: GlCall) -> Multiset<GlObject> {
    match call {
        GlCall::DeleteShader { shader } => Multiset::singleton(GlObject::Shader(shader)),
        GlCall::DeleteTexture { texture } => Multiset::singleton(GlObject::Texture(texture)),
        GlCall::DeleteBuffers { first, second } => Multiset::singleton(
            GlObject::Buffer(first),
        ).insert(GlObject::Buffer(second)),
        GlCall::DeleteVertexArray { array } => Multiset::singleton(GlObject::VertexArray(array)),
        GlCall::DeleteProgram { program } => Multiset::singleton(GlObject::Program(program)),
        _ => Multiset::empty(),
    }
}

/// The objects that the first `n` calls of a setup create, each as often
/// as it is created, where the setup ends with the answers `a`.
pub open spec fn created_in_setup(a: Answers, width: u32, height: u32, n: int) -> Multiset<
    GlObject,
>
    decreases n,
{
    if n <= 0 {
        Multiset::empty()
    } else {
        created_in_setup(a, width, height, n - 1).add(
            created_by(setup_calls(a, width, height)[n - 1], answer_at(a, n - 1)),
        )
    }
}

/// The objects that the first `n` of the calls release, each as often as it
/// is released.
pub open spec fn released_in(calls: Seq<GlCall>, n: int) -> Multiset<GlObject>
    decreases n,
{
    if n <= 0 {
        Multiset::empty()
    } else {
        released_in(calls, n - 1).add(released_by(calls[n - 1]))
    }
}

/// The objects that a renderer owns, each once.
pub open spec fn owned(names: Names) -> Multiset<GlObject> {
    Multiset::singleton(GlObject::Texture(names.texture)).insert(
        GlObject::Buffer(names.vbo),
    ).insert(GlObject::Buffer(names.ebo)).insert(GlObject::VertexArray(names.vao)).insert(
        GlObject::Program(names.shader),
    )
}

/// The two shader objects of a setup, each once.
pub open spec fn stages(a: Answers) -> Multiset<GlObject> {
    Multiset::singleton(GlObject::Shader(a.vert)).insert(GlObject::Shader(a.frag))
}

/// What two sequences release one behind the other is what the first
/// releases together with what the second releases.
pub proof fn released_in_turn(first: Seq<GlCall>, second: Seq<GlCall>, n: int)
    requires
        0 <= n <= second.len(),
    ensures
        released_in(first + second, first.len() + n) == released_in(first, first.len() as int).add(
            released_in(second, n),
        ),
    decreases n,
{
    if n == 0 {
        released_in_first(first, second, first.len() as int);
        assert(released_in(first, first.len() as int).add(Multiset::empty()) =~= released_in(
            first,
            first.len() as int,
        ));
    } else {
        released_in_turn(first, second, n - 1);
        assert(released_in(first, first.len() as int).add(released_in(second, n - 1)).add(
            released_by(second[n - 1]),
        ) =~= released_in(first, first.len() as int).add(
            released_in(second, n - 1).add(released_by(second[n - 1])),
        ));
    }
}

/// What the first calls of a sequence release does not depend on what
/// follows them.
pub proof fn released_in_first(first: Seq<GlCall>, second: Seq<GlCall>, n: int)
    requires
        n <= first.len(),
    ensures
        released_in(first + second, n) == released_in(first, n),
    decreases n,
{
    if n > 0 {
        released_in_first(first, second, n - 1);
    }
}

/// The teardown of a renderer releases each object that the renderer owns
/// exactly once, and nothing else.
pub proof fn teardown_releases_owned(names: Names)
    ensures
        released_in(released(names), released(names).len() as int) == owned(names),
{
    reveal_with_fuel(released_in, 5);
    assert(released_in(released(names), 4) =~= owned(names));
}

/// What each step of a setup creates and releases: the three mesh objects
/// at the first three steps, a shader object at the first step of each
/// stage, the program and the texture at the first step of their parts, and
/// nothing at any other step; the two shader objects are released behind the
/// linking, and nothing else is.
pub proof fn setup_steps_listed(a: Answers, width: u32, height: u32, k: int)
    requires
        0 <= k < SETUP_LEN,
    ensures
        created_by(setup_calls(a, width, height)[k], answer_at(a, k)) == if k == VBO_STEP {
            Multiset::singleton(GlObject::Buffer(a.vbo))
        } else if k == EBO_STEP {
            Multiset::singleton(GlObject::Buffer(a.ebo))
        } else if k == VAO_STEP {
            Multiset::singleton(GlObject::VertexArray(a.vao))
        } else if k == VERT_STEP {
            Multiset::singleton(GlObject::Shader(a.vert))
        } else if k == FRAG_STEP {
            Multiset::singleton(GlObject::Shader(a.frag))
        } else if k == PROGRAM_STEP {
            Multiset::singleton(GlObject::Program(a.program))
        } else if k == TEXTURE_STEP {
            Multiset::singleton(GlObject::Texture(a.texture))
        } else {
            Multiset::empty()
        },
        released_by(setup_calls(a, width, height)[k]) == if k == PROGRAM_STEP + 5 {
            Multiset::singleton(GlObject::Shader(a.vert))
        } else if k == PROGRAM_STEP + 6 {
            Multiset::singleton(GlObject::Shader(a.frag))
        } else {
            Multiset::empty()
        },
{
    let calls = setup_calls(a, width, height);
    setup_calls_listed(a, width, height);
    if k < MESH_SETUP_LEN {
        assert(calls[k] == mesh_setup(a.vbo, a.ebo, a.vao)[k]);
    } else if k < MESH_SETUP_LEN + PROGRAM_SETUP_LEN {
        let j = k - MESH_SETUP_LEN;
        assert(calls[MESH_SETUP_LEN + j] == program_setup(a.vert, a.frag, a.program)[j]);
    } else {
        let j = k - MESH_SETUP_LEN - PROGRAM_SETUP_LEN;
        assert(calls[MESH_SETUP_LEN + PROGRAM_SETUP_LEN + j] == texture_setup(
            a.texture,
            width,
            height,
        )[j]);
    }
}

/// Whether the call at a step of a setup creates an object.
pub open spec fn creates_at(k: int) -> bool {
    k == VBO_STEP || k == EBO_STEP || k == VAO_STEP || k == VERT_STEP || k == FRAG_STEP || k
        == PROGRAM_STEP || k == TEXTURE_STEP
}

/// Whether the call at a step of a setup releases an object.
pub open spec fn releases_at(k: int) -> bool {
    k == PROGRAM_STEP + 5 || k == PROGRAM_STEP + 6
}

/// Steps of a setup that create nothing add nothing to what is created.
proof fn created_over_idle_steps(a: Answers, width: u32, height: u32, m: int, n: int)
    requires
        0 <= m <= n <= SETUP_LEN,
        forall|k: int| m <= k < n ==> !#[trigger] creates_at(k),
    ensures
        created_in_setup(a, width, height, n) == created_in_setup(a, width, height, m),
    decreases n - m,
{
    if m < n {
        created_over_idle_steps(a, width, height, m, n - 1);
        setup_steps_listed(a, width, height, n - 1);
        assert(!creates_at(n - 1));
        assert(created_in_setup(a, width, height, n - 1).add(Multiset::empty())
            =~= created_in_setup(a, width, height, n - 1));
    }
}

/// A step of a setup that creates an object adds it to what is created.
proof fn created_over_step(a: Answers, width: u32, height: u32, k: int, object: GlObject)
    requires
        0 <= k < SETUP_LEN,
        created_by(setup_calls(a, width, height)[k], answer_at(a, k)) == Multiset::singleton(
            object,
        ),
    ensures
        created_in_setup(a, width, height, k + 1) == created_in_setup(a, width, height, k).insert(
            object,
        ),
{
    assert(created_in_setup(a, width, height, k).add(Multiset::singleton(object))
        =~= created_in_setup(a, width, height, k).insert(object));
}

/// Calls of a setup that release nothing add nothing to what is released.
proof fn released_over_idle_steps(a: Answers, width: u32, height: u32, m: int, n: int)
    requires
        0 <= m <= n <= SETUP_LEN,
        forall|k: int| m <= k < n ==> !#[trigger] releases_at(k),
    ensures
        released_in(setup_calls(a, width, height), n) == released_in(
            setup_calls(a, width, height),
            m,
        ),
    decreases n - m,
{
    if m < n {
        released_over_idle_steps(a, width, height, m, n - 1);
        setup_steps_listed(a, width, height, n - 1);
        assert(!releases_at(n - 1));
        let calls = setup_calls(a, width, height);
        assert(released_in(calls, n - 1).add(Multiset::empty()) =~= released_in(calls, n - 1));
    }
}

/// A setup creates the objects that its renderer owns and the two shader
/// objects, each exactly once, and releases the two shader objects, each
/// exactly once.
pub proof fn setup_creates_owned(a: Answers, width: u32, height: u32)
    ensures
        created_in_setup(a, width, height, SETUP_LEN as int) == owned(a.names()).add(stages(a)),
        released_in(setup_calls(a, width, height), SETUP_LEN as int) == stages(a),
{
    let calls = setup_calls(a, width, height);
    let none = Multiset::<GlObject>::empty();
    let vbo = VBO_STEP as int;
    let ebo = EBO_STEP as int;
    let vao = VAO_STEP as int;
    let vert = VERT_STEP as int;
    let frag = FRAG_STEP as int;
    let program = PROGRAM_STEP as int;
    let texture = TEXTURE_STEP as int;
    let end = SETUP_LEN as int;
    setup_steps_listed(a, width, height, vbo);
    setup_steps_listed(a, width, height, ebo);
    setup_steps_listed(a, width, height, vao);
    setup_steps_listed(a, width, height, vert);
    setup_steps_listed(a, width, height, frag);
    setup_steps_listed(a, width, height, program);
    setup_steps_listed(a, width, height, texture);
    created_over_step(a, width, height, vbo, GlObject::Buffer(a.vbo));
    created_over_step(a, width, height, ebo, GlObject::Buffer(a.ebo));
    created_over_step(a, width, height, vao, GlObject::VertexArray(a.vao));
    created_over_idle_steps(a, width, height, vao + 1, vert);
    created_over_step(a, width, height, vert, GlObject::Shader(a.vert));
    created_over_idle_steps(a, width, height, vert + 1, frag);
    created_over_step(a, width, height, frag, GlObject::Shader(a.frag));
    created_over_idle_steps(a, width, height, frag + 1, program);
    created_over_step(a, width, height, program, GlObject::Program(a.program));
    created_over_idle_steps(a, width, height, program + 1, texture);
    created_over_step(a, width, height, texture, GlObject::Texture(a.texture));
    created_over_idle_steps(a, width, height, texture + 1, end);
    assert(created_in_setup(a, width, height, 0) == none);
    assert(created_in_setup(a, width, height, end) == none.insert(GlObject::Buffer(a.vbo)).insert(
        GlObject::Buffer(a.ebo),
    ).insert(GlObject::VertexArray(a.vao)).insert(GlObject::Shader(a.vert)).insert(
        GlObject::Shader(a.frag),
    ).insert(GlObject::Program(a.program)).insert(GlObject::Texture(a.texture)));
    assert(created_in_setup(a, width, height, end) =~= owned(a.names()).add(stages(a)));

    let first = program + 5;
    let second = program + 6;
    setup_steps_listed(a, width, height, first);
    setup_steps_listed(a, width, height, second);
    released_over_idle_steps(a, width, height, 0, first);
    released_over_idle_steps(a, width, height, second + 1, end);
    assert(released_in(calls, 0) == none);
    assert(released_in(calls, second) == released_in(calls, first).add(released_by(calls[first])));
    assert(released_in(calls, second + 1) == released_in(calls, second).add(
        released_by(calls[second]),
    ));
    assert(released_in(calls, end) =~= stages(a));
}

/// Over its whole life, from the first call of its setup to the last call of
/// its teardown, a renderer releases exactly the objects that were created
/// for it, each as often as it was created: none is left, none is released
/// twice, and no name is released that no setup call was answered with.
pub proof fn life_releases_what_it_created(a: Answers, width: u32, height: u32)
    ensures
        released_in(
            setup_calls(a, width, height) + released(a.names()),
            SETUP_LEN + released(a.names()).len(),
        ) == created_in_setup(a, width, height, SETUP_LEN as int),
{
    let setup = setup_calls(a, width, height);
    let teardown = released(a.names());
    setup_calls_listed(a, width, height);
    setup_creates_owned(a, width, height);
    teardown_releases_owned(a.names());
    released_in_turn(setup, teardown, teardown.len() as int);
    assert(stages(a).add(owned(a.names())) =~= owned(a.names()).add(stages(a)));
}

/// The plan of a frame releases nothing.
pub proof fn render_releases_nothing(
    names: Names,
    vertex_count: int,
    index_count: int,
    commands: Seq<DrawCommand>,
    viewport: Viewport,
    n: int,
)
    requires
        0 <= n <= rendered(names, vertex_count, index_count, commands, viewport).len(),
    ensures
        released_in(rendered(names, vertex_count, index_count, commands, viewport), n)
            == Multiset::<GlObject>::empty(),
    decreases n,
{
    if n > 0 {
        render_releases_nothing(names, vertex_count, index_count, commands, viewport, n - 1);
        let plan = rendered(names, vertex_count, index_count, commands, viewport);
        let upload = mesh_upload(names.vbo, names.ebo, vertex_count, index_count);
        let bind = prepared(names, viewport);
        let draw = issued(commands, viewport.height);
        let k = n - 1;
        let base = UPLOAD_LEN + PREPARED_LEN;
        if k < UPLOAD_LEN {
            assert(plan[k] == upload[k]);
        } else if k < base {
            assert(plan[k] == bind[k - UPLOAD_LEN]);
        } else if k < base + draw.len() {
            assert(plan[k] == draw[k - base]);
        } else {
            assert(plan[k] == restored()[k - base - draw.len()]);
        }
        assert(released_by(plan[k]) =~= Multiset::empty());
        assert(Multiset::<GlObject>::empty().add(Multiset::empty()) =~= Multiset::empty());
    }
}

} // verus!
