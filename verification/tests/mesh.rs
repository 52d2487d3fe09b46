use imgui_gl_renderer::call::{BufferTarget, BufferUsage, ComponentType, GlCall};
use imgui_gl_renderer::mesh::{init_mesh, update_mesh, vertex_attributes, VertexAttribute};
use imgui_gl_renderer::mesh::{BUFFER_CAPACITY, INDEX_SIZE, MESH_SETUP_LEN, VERTEX_SIZE};

#[test]
fn capacity_is_half_a_mebibyte() {
    assert_eq!(BUFFER_CAPACITY, 512 * 1024);
    assert_eq!(VERTEX_SIZE, 20);
    assert_eq!(INDEX_SIZE, 2);
}

#[test]
fn vertex_layout_has_three_attributes() {
    let table = vertex_attributes();
    assert_eq!(
        table,
        [
            VertexAttribute { index: 0, components: 2, kind: ComponentType::Float, offset: 0 },
            VertexAttribute { index: 1, components: 2, kind: ComponentType::Float, offset: 8 },
            VertexAttribute {
                index: 2,
                components: 4,
                kind: ComponentType::UnsignedByte,
                offset: 16
            },
        ]
    );
}

#[test]
fn vertex_layout_is_packed() {
    let table = vertex_attributes();
    let mut end: usize = 0;
    for a in table.iter() {
        assert_eq!(a.offset, end);
        let size = match a.kind {
            ComponentType::Float => 4,
            ComponentType::UnsignedByte => 1,
        };
        end += a.components as usize * size;
    }
    assert_eq!(end, VERTEX_SIZE);
}

#[test]
fn init_mesh_plans_twenty_calls() {
    let calls = init_mesh(7, 8, 9);
    assert_eq!(calls.len(), MESH_SETUP_LEN);
    assert_eq!(
        calls,
        vec![
            GlCall::GenBuffer,
            GlCall::GenBuffer,
            GlCall::GenVertexArray,
            GlCall::BindVertexArray { array: 9 },
            GlCall::BindBuffer { target: BufferTarget::Array, buffer: 7 },
            GlCall::BindBuffer { target: BufferTarget::ElementArray, buffer: 8 },
            GlCall::BufferData {
                target: BufferTarget::Array,
                size: 524288,
                usage: BufferUsage::StreamDraw
            },
            GlCall::BufferData {
                target: BufferTarget::ElementArray,
                size: 524288,
                usage: BufferUsage::StreamDraw
            },
            GlCall::EnableVertexAttribArray { index: 0 },
            GlCall::EnableVertexAttribArray { index: 1 },
            GlCall::EnableVertexAttribArray { index: 2 },
            GlCall::VertexAttribPointer {
                index: 0,
                components: 2,
                kind: ComponentType::Float,
                stride: 20,
                offset: 0
            },
            GlCall::VertexAttribPointer {
                index: 1,
                components: 2,
                kind: ComponentType::Float,
                stride: 20,
                offset: 8
            },
            GlCall::VertexAttribPointer {
                index: 2,
                components: 4,
                kind: ComponentType::UnsignedByte,
                stride: 20,
                offset: 16
            },
            GlCall::BindVertexArray { array: 0 },
            GlCall::DisableVertexAttribArray { index: 0 },
            GlCall::DisableVertexAttribArray { index: 1 },
            GlCall::DisableVertexAttribArray { index: 2 },
            GlCall::BindBuffer { target: BufferTarget::Array, buffer: 0 },
            GlCall::BindBuffer { target: BufferTarget::ElementArray, buffer: 0 },
        ]
    );
}

#[test]
fn update_mesh_uploads_exactly_the_frame() {
    let calls = update_mesh(7, 8, 6, 4);
    assert_eq!(
        calls,
        vec![
            GlCall::BindBuffer { target: BufferTarget::Array, buffer: 7 },
            GlCall::BindBuffer { target: BufferTarget::ElementArray, buffer: 8 },
            GlCall::BufferSubData { target: BufferTarget::Array, offset: 0, size: 80 },
            GlCall::BufferSubData { target: BufferTarget::ElementArray, offset: 0, size: 12 },
            GlCall::BindBuffer { target: BufferTarget::Array, buffer: 0 },
            GlCall::BindBuffer { target: BufferTarget::ElementArray, buffer: 0 },
        ]
    );
}

#[test]
fn update_mesh_of_an_empty_frame() {
    let calls = update_mesh(1, 2, 0, 0);
    assert_eq!(calls[2], GlCall::BufferSubData { target: BufferTarget::Array, offset: 0, size: 0 });
    assert_eq!(
        calls[3],
        GlCall::BufferSubData { target: BufferTarget::ElementArray, offset: 0, size: 0 }
    );
}

#[test]
fn update_mesh_of_the_largest_frame() {
    let calls = update_mesh(1, 2, 262144, 26214);
    assert_eq!(
        calls[2],
        GlCall::BufferSubData { target: BufferTarget::Array, offset: 0, size: 524280 }
    );
    assert_eq!(
        calls[3],
        GlCall::BufferSubData { target: BufferTarget::ElementArray, offset: 0, size: 524288 }
    );
}
