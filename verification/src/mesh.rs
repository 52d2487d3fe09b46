use vstd::prelude::*;
use crate::call::{BufferTarget, BufferUsage, ComponentType, GlCall};

verus! {

/// Capacity in bytes of each of the two streaming buffers. It is fixed when
/// the buffers are allocated and never grows.
pub const BUFFER_CAPACITY: usize = 524288;

/// Bytes from one vertex to the next in the vertex buffer.
pub const VERTEX_SIZE: usize = 20;

/// Bytes of one element index.
pub const INDEX_SIZE: usize = 2;

/// Number of attributes of a vertex.
pub const ATTRIBUTE_COUNT: usize = 3;

/// One attribute of a vertex: where it lies in the vertex and what it is
/// made of.
#[derive(Clone, Copy, Debug, PartialEq, Eq)]
pub struct VertexAttribute {
    /// The attribute's location in the vertex shader.
    pub index: u32,
    /// Number of components.
    pub components: i32,
    /// Type of each component.
    pub kind: ComponentType,
    /// Byte at which the attribute starts in its vertex.
    pub offset: usize,
}

/// Bytes of one component of a type.
pub open spec fn component_size(kind: ComponentType) -> int {
    match kind {
        ComponentType::Float => 4,
        ComponentType::UnsignedByte => 1,
    }
}

impl VertexAttribute {
    /// First byte behind this attribute in its vertex.
    pub open spec fn end(self) -> int {
        self.offset + self.components * component_size(self.kind)
    }

    /// The call that switches this attribute on.
    pub open spec fn enable(self) -> GlCall {
        GlCall::EnableVertexAttribArray { index: self.index }
    }

    /// The call that switches this attribute off.
    pub open spec fn disable(self) -> GlCall {
        GlCall::DisableVertexAttribArray { index: self.index }
    }

    /// The call that describes this attribute to the graphics API.
    pub open spec fn pointer(self) -> GlCall {
        GlCall::VertexAttribPointer {
            index: self.index,
            components: self.components,
            kind: self.kind,
            stride: VERTEX_SIZE as i32,
            offset: self.offset,
        }
    }
}

/// The layout of a vertex: position, two floats at byte 0; texture
/// coordinate, two floats at byte 8; colour, four unsigned bytes at byte 16.
pub open spec fn vertex_layout() -> Seq<VertexAttribute> {
    seq![
        VertexAttribute { index: 0, components: 2, kind: ComponentType::Float, offset: 0 },
        VertexAttribute { index: 1, components: 2, kind: ComponentType::Float, offset: 8 },
        VertexAttribute { index: 2, components: 4, kind: ComponentType::UnsignedByte, offset: 16 },
    ]
}

/// The layout of a vertex as a table.
pub fn vertex_attributes() -> (table: [VertexAttribute; 3])
    ensures
        table@ == vertex_layout(),
{
    let table = [
        VertexAttribute { index: 0, components: 2, kind: ComponentType::Float, offset: 0 },
        VertexAttribute { index: 1, components: 2, kind: ComponentType::Float, offset: 8 },
        VertexAttribute { index: 2, components: 4, kind: ComponentType::UnsignedByte, offset: 16 },
    ];
    assert(table@ =~= vertex_layout());
    table
}

/// The attributes of a vertex fill it without gap or overlap: the first
/// starts at byte 0, each next one where the one before it ends, and the
/// last ends at the vertex size. Their locations count up from zero.
pub proof fn vertex_layout_is_packed()
    ensures
        vertex_layout().len() == ATTRIBUTE_COUNT,
        vertex_layout()[0].offset == 0,
        forall|i: int|
            0 < i < vertex_layout().len() ==> (#[trigger] vertex_layout()[i]).offset
                == vertex_layout()[i - 1].end(),
        vertex_layout().last().end() == VERTEX_SIZE,
        forall|i: int| 0 <= i < vertex_layout().len() ==> (#[trigger] vertex_layout()[i]).index == i,
{
}

/// The calls that set the mesh objects up, where the graphics API answers
/// the three generating calls with the names `vbo`, `ebo` and `vao`: both
/// buffers get their fixed capacity, and the vertex array records the layout
/// of a vertex in `vbo` and `ebo` as its element array. At the end nothing
/// is left bound.
pub open spec fn mesh_setup(vbo: u32, ebo: u32, vao: u32) -> Seq<GlCall> {
    seq![
        GlCall::GenBuffer,
        GlCall::GenBuffer,
        GlCall::GenVertexArray,
        GlCall::BindVertexArray { array: vao },
        GlCall::BindBuffer { target: BufferTarget::Array, buffer: vbo },
        GlCall::BindBuffer { target: BufferTarget::ElementArray, buffer: ebo },
        GlCall::BufferData {
            target: BufferTarget::Array,
            size: BUFFER_CAPACITY,
            usage: BufferUsage::StreamDraw,
        },
        GlCall::BufferData {
            target: BufferTarget::ElementArray,
            size: BUFFER_CAPACITY,
            usage: BufferUsage::StreamDraw,
        },
    ] + vertex_layout().map_values(|a: VertexAttribute| a.enable())
        + vertex_layout().map_values(|a: VertexAttribute| a.pointer())
        + seq![GlCall::BindVertexArray { array: 0 }]
        + vertex_layout().map_values(|a: VertexAttribute| a.disable())
        + seq![
        GlCall::BindBuffer { target: BufferTarget::Array, buffer: 0 },
        GlCall::BindBuffer { target: BufferTarget::ElementArray, buffer: 0 },
    ]
}

/// Number of calls in [`mesh_setup`].
pub const MESH_SETUP_LEN: usize = 20;

/// Plans the setup of the mesh objects for the names that the graphics API
/// gave to the vertex buffer, the index buffer and the vertex array.
pub fn init_mesh(vbo: u32, ebo: u32, vao: u32) -> (calls: Vec<GlCall>)
    ensures
        calls@ == mesh_setup(vbo, ebo, vao),
        calls@.len() == MESH_SETUP_LEN,
{
    let table = vertex_attributes();
    let mut calls: Vec<GlCall> = Vec::new();
    calls.push(GlCall::GenBuffer);
    calls.push(GlCall::GenBuffer);
    calls.push(GlCall::GenVertexArray);
    calls.push(GlCall::BindVertexArray { array: vao });
    calls.push(GlCall::BindBuffer { target: BufferTarget::Array, buffer: vbo });
    calls.push(GlCall::BindBuffer { target: BufferTarget::ElementArray, buffer: ebo });
    calls.push(
        GlCall::BufferData {
            target: BufferTarget::Array,
            size: BUFFER_CAPACITY,
            usage: BufferUsage::StreamDraw,
        },
    );
    calls.push(
        GlCall::BufferData {
            target: BufferTarget::ElementArray,
            size: BUFFER_CAPACITY,
            usage: BufferUsage::StreamDraw,
        },
    );
    let ghost head = calls@;
    for i in 0..3usize
        invariant
            table@ == vertex_layout(),
            calls@ == head + vertex_layout().take(i as int).map_values(
                |a: VertexAttribute| a.enable(),
            ),
    {
        let a = table[i];
        calls.push(GlCall::EnableVertexAttribArray { index: a.index });
        assert(calls@ =~= head + vertex_layout().take(i + 1).map_values(
            |a: VertexAttribute| a.enable(),
        ));
    }
    assert(vertex_layout().take(3) =~= vertex_layout());
    let ghost head = calls@;
    for i in 0..3usize
        invariant
            table@ == vertex_layout(),
            calls@ == head + vertex_layout().take(i as int).map_values(
                |a: VertexAttribute| a.pointer(),
            ),
    {
        let a = table[i];
        calls.push(
            GlCall::VertexAttribPointer {
                index: a.index,
                components: a.components,
                kind: a.kind,
                stride: VERTEX_SIZE as i32,
                offset: a.offset,
            },
        );
        assert(calls@ =~= head + vertex_layout().take(i + 1).map_values(
            |a: VertexAttribute| a.pointer(),
        ));
    }
    calls.push(GlCall::BindVertexArray { array: 0 });
    let ghost head = calls@;
    for i in 0..3usize
        invariant
            table@ == vertex_layout(),
            calls@ == head + vertex_layout().take(i as int).map_values(
                |a: VertexAttribute| a.disable(),
            ),
    {
        let a = table[i];
        calls.push(GlCall::DisableVertexAttribArray { index: a.index });
        assert(calls@ =~= head + vertex_layout().take(i + 1).map_values(
            |a: VertexAttribute| a.disable(),
        ));
    }
    calls.push(GlCall::BindBuffer { target: BufferTarget::Array, buffer: 0 });
    calls.push(GlCall::BindBuffer { target: BufferTarget::ElementArray, buffer: 0 });
    assert(calls@ =~= mesh_setup(vbo, ebo, vao));
    calls
}

/// Bytes that `count` vertices take in the vertex buffer.
pub open spec fn vertex_bytes(count: int) -> int {
    count * VERTEX_SIZE
}

/// Bytes that `count` indices take in the index buffer.
pub open spec fn index_bytes(count: int) -> int {
    count * INDEX_SIZE
}

/// The calls that replace the contents of the two streaming buffers with one
/// frame's vertices and indices: both buffers are bound, each is overwritten
/// from its first byte with exactly the bytes of the frame, and both are
/// unbound again.
pub open spec fn mesh_upload(vbo: u32, ebo: u32, vertex_count: int, index_count: int) -> Seq<
    GlCall,
> {
    seq![
        GlCall::BindBuffer { target: BufferTarget::Array, buffer: vbo },
        GlCall::BindBuffer { target: BufferTarget::ElementArray, buffer: ebo },
        GlCall::BufferSubData {
            target: BufferTarget::Array,
            offset: 0,
            size: vertex_bytes(vertex_count) as usize,
        },
        GlCall::BufferSubData {
            target: BufferTarget::ElementArray,
            offset: 0,
            size: index_bytes(index_count) as usize,
        },
        GlCall::BindBuffer { target: BufferTarget::Array, buffer: 0 },
        GlCall::BindBuffer { target: BufferTarget::ElementArray, buffer: 0 },
    ]
}

/// Whether a frame's vertices and indices fit the streaming buffers.
pub open spec fn mesh_fits(vertex_count: int, index_count: int) -> bool {
    &&& vertex_bytes(vertex_count) <= BUFFER_CAPACITY
    &&& index_bytes(index_count) <= BUFFER_CAPACITY
}

/// Plans the upload of one frame's mesh into the streaming buffers `vbo` and
/// `ebo`. The frame must fit them.
pub fn update_mesh(vbo: u32, ebo: u32, index_count: usize, vertex_count: usize) -> (calls: Vec<
    GlCall,
>)
    requires
        mesh_fits(vertex_count as int, index_count as int),
    ensures
        calls@ == mesh_upload(vbo, ebo, vertex_count as int, index_count as int),
{
    let mut calls: Vec<GlCall> = Vec::new();
    calls.push(GlCall::BindBuffer { target: BufferTarget::Array, buffer: vbo });
    calls.push(GlCall::BindBuffer { target: BufferTarget::ElementArray, buffer: ebo });
    calls.push(
        GlCall::BufferSubData {
            target: BufferTarget::Array,
            offset: 0,
            size: vertex_count * VERTEX_SIZE,
        },
    );
    calls.push(
        GlCall::BufferSubData {
            target: BufferTarget::ElementArray,
            offset: 0,
            size: index_count * INDEX_SIZE,
        },
    );
    calls.push(GlCall::BindBuffer { target: BufferTarget::Array, buffer: 0 });
    calls.push(GlCall::BindBuffer { target: BufferTarget::ElementArray, buffer: 0 });
    assert(calls@ =~= mesh_upload(vbo, ebo, vertex_count as int, index_count as int));
    calls
}

} // verus!
