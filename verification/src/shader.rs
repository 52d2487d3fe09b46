use vstd::prelude::*;
use crate::call::{GlCall, ShaderStage, UniformName};

verus! {

/// Source of the vertex stage. It takes the three attributes of a vertex at
/// the locations of the vertex layout, scales the colour from bytes to the
/// unit range and projects the position with the matrix.
pub const VERTEX_SOURCE: &'static str = "#version 330 core
layout(location = 0) in vec2 a_position;
layout(location = 1) in vec2 a_uv;
layout(location = 2) in vec4 a_color;
uniform mat4 u_matrix;
out vec2 v_uv;
out vec4 v_color;
void main() {
    v_uv = a_uv;
    v_color = a_color / 255.0;
    gl_Position = u_matrix * vec4(a_position, 0.0, 1.0);
}
";

/// Source of the fragment stage. It tints the texel of the atlas with the
/// colour of the vertex.
pub const FRAGMENT_SOURCE: &'static str = "#version 330 core
uniform sampler2D u_texture;
in vec2 v_uv;
in vec4 v_color;
out vec4 f_color;
void main() {
    f_color = v_color * texture(u_texture, v_uv);
}
";

/// The source text of a stage.
pub open spec fn source_of(stage: ShaderStage) -> Seq<char> {
    match stage {
        ShaderStage::Vertex => VERTEX_SOURCE@,
        ShaderStage::Fragment => FRAGMENT_SOURCE@,
    }
}

/// The source text that a stage is compiled from.
pub fn shader_source(stage: ShaderStage) -> (text: &'static str)
    ensures
        text@ == source_of(stage),
{
    match stage {
        ShaderStage::Vertex => VERTEX_SOURCE,
        ShaderStage::Fragment => FRAGMENT_SOURCE,
    }
}

/// The name of a uniform variable as the source texts spell it.
pub open spec fn spelling_of(name: UniformName) -> Seq<char> {
    match name {
        UniformName::Matrix => "u_matrix"@,
        UniformName::Texture => "u_texture"@,
    }
}

/// The name by which the program knows a uniform variable.
pub fn uniform_name(name: UniformName) -> (text: &'static str)
    ensures
        text@ == spelling_of(name),
{
    match name {
        UniformName::Matrix => "u_matrix",
        UniformName::Texture => "u_texture",
    }
}

/// The calls that compile one stage of the program, where the graphics API
/// answers the creating call with the name `shader`: the shader is created,
/// given the source of its stage and compiled, and the length of its
/// information log is asked for.
pub open spec fn shader_setup(stage: ShaderStage, shader: u32) -> Seq<GlCall> {
    seq![
        GlCall::CreateShader { stage },
        GlCall::ShaderSource { shader, stage },
        GlCall::CompileShader { shader },
        GlCall::GetShaderInfoLog { shader },
    ]
}

/// Number of calls in [`shader_setup`].
pub const SHADER_SETUP_LEN: usize = 4;

/// Plans the compilation of one stage for the name that the graphics API
/// gave to its shader object.
pub fn create_shader(stage: ShaderStage, shader: u32) -> (calls: Vec<GlCall>)
    ensures
        calls@ == shader_setup(stage, shader),
        calls@.len() == SHADER_SETUP_LEN,
{
    let mut calls: Vec<GlCall> = Vec::new();
    calls.push(GlCall::CreateShader { stage });
    calls.push(GlCall::ShaderSource { shader, stage });
    calls.push(GlCall::CompileShader { shader });
    calls.push(GlCall::GetShaderInfoLog { shader });
    assert(calls@ =~= shader_setup(stage, shader));
    calls
}

/// Whether a compilation or a linking went through: it did where the
/// information log of the shader or the program is empty.
pub open spec fn log_is_clean(length: i32) -> bool {
    length == 0
}

/// Tells whether an information log of `length` bytes reports a clean
/// compilation or linking.
pub fn compiled_cleanly(length: i32) -> (clean: bool)
    ensures
        clean == log_is_clean(length),
{
    length == 0
}

/// The calls that link the two compiled stages `vert` and `frag`, where the
/// graphics API answers the creating call with the name `program`: both
/// stages are attached and the program is linked, the length of the
/// program's information log is asked for, the two stage objects are
/// deleted, and the locations of the two uniform variables are asked for.
pub open spec fn program_link(vert: u32, frag: u32, program: u32) -> Seq<GlCall> {
    seq![
        GlCall::CreateProgram,
        GlCall::AttachShader { program, shader: vert },
        GlCall::AttachShader { program, shader: frag },
        GlCall::LinkProgram { program },
        GlCall::GetProgramInfoLog { program },
        GlCall::DeleteShader { shader: vert },
        GlCall::DeleteShader { shader: frag },
        GlCall::GetUniformLocation { program, name: UniformName::Matrix },
        GlCall::GetUniformLocation { program, name: UniformName::Texture },
    ]
}

/// The calls that build the shader program: the vertex stage is compiled,
/// then the fragment stage, then the two are linked.
pub open spec fn program_setup(vert: u32, frag: u32, program: u32) -> Seq<GlCall> {
    shader_setup(ShaderStage::Vertex, vert) + shader_setup(ShaderStage::Fragment, frag)
        + program_link(vert, frag, program)
}

/// Number of calls in [`program_setup`].
pub const PROGRAM_SETUP_LEN: usize = 17;

/// Plans the build of the shader program for the names that the graphics
/// API gave to the vertex shader, the fragment shader and the program.
pub fn init_program(vert: u32, frag: u32, program: u32) -> (calls: Vec<GlCall>)
    ensures
        calls@ == program_setup(vert, frag, program),
        calls@.len() == PROGRAM_SETUP_LEN,
{
    let mut calls = create_shader(ShaderStage::Vertex, vert);
    let mut fragment = create_shader(ShaderStage::Fragment, frag);
    calls.append(&mut fragment);
    let ghost stages = calls@;
    calls.push(GlCall::CreateProgram);
    calls.push(GlCall::AttachShader { program, shader: vert });
    calls.push(GlCall::AttachShader { program, shader: frag });
    calls.push(GlCall::LinkProgram { program });
    calls.push(GlCall::GetProgramInfoLog { program });
    calls.push(GlCall::DeleteShader { shader: vert });
    calls.push(GlCall::DeleteShader { shader: frag });
    calls.push(GlCall::GetUniformLocation { program, name: UniformName::Matrix });
    calls.push(GlCall::GetUniformLocation { program, name: UniformName::Texture });
    assert(calls@ =~= stages + program_link(vert, frag, program));
    calls
}

} // verus!
