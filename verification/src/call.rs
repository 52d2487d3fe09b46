use vstd::prelude::*;
use crate::projection::Matrix4;

verus! {

/// A binding point for buffer objects.
#[derive(Clone, Copy, Debug, PartialEq, Eq)]
pub enum BufferTarget {
    /// Vertex data.
    Array,
    /// Element indices.
    ElementArray,
}

/// How a buffer's store is going to be used.
#[derive(Clone, Copy, Debug, PartialEq, Eq)]
pub enum BufferUsage {
    /// Written once per frame and drawn from a few times.
    StreamDraw,
}

/// A stage of the shader program.
#[derive(Clone, Copy, Debug, PartialEq, Eq)]
pub enum ShaderStage {
    Vertex,
    Fragment,
}

/// A uniform variable of the shader program.
#[derive(Clone, Copy, Debug, PartialEq, Eq)]
pub enum UniformName {
    /// The projection matrix, `u_matrix` in the shader sources.
    Matrix,
    /// The texture sampler, `u_texture` in the shader sources.
    Texture,
}

/// The type of one component of a vertex attribute.
#[derive(Clone, Copy, Debug, PartialEq, Eq)]
pub enum ComponentType {
    /// A 32-bit float.
    Float,
    /// An unsigned byte.
    UnsignedByte,
}

/// A switchable piece of the pipeline.
#[derive(Clone, Copy, Debug, PartialEq, Eq)]
pub enum Capability {
    ScissorTest,
    Blend,
}

/// A factor of the blend equation.
#[derive(Clone, Copy, Debug, PartialEq, Eq)]
pub enum BlendFactor {
    SrcAlpha,
    OneMinusSrcAlpha,
}

/// Which of a texture's two filters a parameter sets.
#[derive(Clone, Copy, Debug, PartialEq, Eq)]
pub enum TextureFilter {
    Minify,
    Magnify,
}

/// How a texture is sampled.
#[derive(Clone, Copy, Debug, PartialEq, Eq)]
pub enum FilterMode {
    Nearest,
}

/// One call into the graphics API, with its arguments.
///
/// The first eight variants are answered with a value (see [`Reply`]); all
/// others return nothing. Data that a call reads from memory is not part of
/// it: `BufferData` reads zeroes, `BufferSubData` the frame's vertices or
/// indices according to its target, `TexImage2D` the atlas pixels, and
/// `ShaderSource` the source text of its stage.
#[allow(inconsistent_fields)]
#[derive(Clone, Copy, Debug, PartialEq, Eq)]
pub enum GlCall {
    /// Generates one buffer name.
    GenBuffer,
    /// Generates one vertex array name.
    GenVertexArray,
    /// Generates one texture name.
    GenTexture,
    /// Creates an empty shader object of a stage.
    CreateShader { stage: ShaderStage },
    /// Creates an empty program object.
    CreateProgram,
    /// Asks for the length of a shader's information log.
    GetShaderInfoLog { shader: u32 },
    /// Asks for the length of a program's information log.
    GetProgramInfoLog { program: u32 },
    /// Asks for the location of a uniform variable in a linked program.
    GetUniformLocation { program: u32, name: UniformName },
    BindVertexArray { array: u32 },
    BindBuffer { target: BufferTarget, buffer: u32 },
    /// Allocates `size` zeroed bytes for the buffer bound to `target`.
    BufferData { target: BufferTarget, size: usize, usage: BufferUsage },
    /// Replaces `size` bytes of the buffer bound to `target`, from the byte
    /// `offset` on.
    BufferSubData { target: BufferTarget, offset: usize, size: usize },
    EnableVertexAttribArray { index: u32 },
    DisableVertexAttribArray { index: u32 },
    /// Describes attribute `index`: `components` values of type `kind`, taken
    /// as they are, `stride` bytes from one vertex to the next, the first at
    /// byte `offset` of the bound array buffer.
    VertexAttribPointer {
        index: u32,
        components: i32,
        kind: ComponentType,
        stride: i32,
        offset: usize,
    },
    ShaderSource { shader: u32, stage: ShaderStage },
    CompileShader { shader: u32 },
    AttachShader { program: u32, shader: u32 },
    LinkProgram { program: u32 },
    DeleteShader { shader: u32 },
    UseProgram { program: u32 },
    /// Uploads one matrix, in column-major order, not transposed.
    UniformMatrix4 { location: i32, matrix: Matrix4 },
    Uniform1i { location: i32, value: i32 },
    /// Selects the texture unit with this number, counted from zero.
    ActiveTexture { unit: u32 },
    /// Binds a two-dimensional texture to the active unit.
    BindTexture { texture: u32 },
    TexParameter { filter: TextureFilter, mode: FilterMode },
    /// Uploads level zero of the bound texture: `width` by `height` pixels
    /// of four bytes each, red, green, blue and alpha.
    TexImage2D { width: u32, height: u32 },
    Enable { capability: Capability },
    Disable { capability: Capability },
    BlendFunc { source: BlendFactor, destination: BlendFactor },
    Scissor { x: i32, y: i32, width: i32, height: i32 },
    /// Draws triangles from `count` 16-bit indices, the first at byte
    /// `offset` of the bound element array buffer.
    DrawElements { count: u32, offset: usize },
    DeleteTexture { texture: u32 },
    /// Deletes two buffers in one call.
    DeleteBuffers { first: u32, second: u32 },
    DeleteVertexArray { array: u32 },
    DeleteProgram { program: u32 },
}

/// What the graphics API hands back for a call.
#[derive(Clone, Copy, Debug, PartialEq, Eq)]
pub enum Reply {
    /// The call returns nothing.
    Nothing,
    /// The name of a new object.
    Name(u32),
    /// The location of a uniform variable; `-1` where the program has none
    /// of that name.
    Location(i32),
    /// The number of bytes in an information log.
    LogLength(i32),
}

/// The kind of value that answers a call.
#[derive(Clone, Copy, Debug, PartialEq, Eq)]
pub enum ReplyKind {
    Nothing,
    Name,
    Location,
    LogLength,
}

impl Reply {
    /// The kind of a reply.
    pub open spec fn kind_of(self) -> ReplyKind {
        match self {
            Reply::Nothing => ReplyKind::Nothing,
            Reply::Name(_) => ReplyKind::Name,
            Reply::Location(_) => ReplyKind::Location,
            Reply::LogLength(_) => ReplyKind::LogLength,
        }
    }
}

impl GlCall {
    /// The kind of value that answers a call: a name for the five calls that
    /// create an object, a length or a location for the three that ask for
    /// one, and nothing for every other call.
    pub open spec fn answer_of(self) -> ReplyKind {
        match self {
            GlCall::GenBuffer => ReplyKind::Name,
            GlCall::GenVertexArray => ReplyKind::Name,
            GlCall::GenTexture => ReplyKind::Name,
            GlCall::CreateShader { .. } => ReplyKind::Name,
            GlCall::CreateProgram => ReplyKind::Name,
            GlCall::GetShaderInfoLog { .. } => ReplyKind::LogLength,
            GlCall::GetProgramInfoLog { .. } => ReplyKind::LogLength,
            GlCall::GetUniformLocation { .. } => ReplyKind::Location,
            _ => ReplyKind::Nothing,
        }
    }

    /// The kind of value that the graphics API answers this call with.
    pub fn answer(&self) -> (k: ReplyKind)
        ensures
            k == self.answer_of(),
    {
        match self {
            GlCall::GenBuffer => ReplyKind::Name,
            GlCall::GenVertexArray => ReplyKind::Name,
            GlCall::GenTexture => ReplyKind::Name,
            GlCall::CreateShader { .. } => ReplyKind::Name,
            GlCall::CreateProgram => ReplyKind::Name,
            GlCall::GetShaderInfoLog { .. } => ReplyKind::LogLength,
            GlCall::GetProgramInfoLog { .. } => ReplyKind::LogLength,
            GlCall::GetUniformLocation { .. } => ReplyKind::Location,
            _ => ReplyKind::Nothing,
        }
    }
}

} // verus!
