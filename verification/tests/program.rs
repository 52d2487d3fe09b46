use imgui_gl_renderer::call::{FilterMode, GlCall, ShaderStage, TextureFilter, UniformName};
use imgui_gl_renderer::shader::{compiled_cleanly, create_shader, init_program};
use imgui_gl_renderer::texture::{atlas_bytes, init_texture};

#[test]
fn create_shader_compiles_and_asks_for_the_log() {
    assert_eq!(
        create_shader(ShaderStage::Fragment, 5),
        vec![
            GlCall::CreateShader { stage: ShaderStage::Fragment },
            GlCall::ShaderSource { shader: 5, stage: ShaderStage::Fragment },
            GlCall::CompileShader { shader: 5 },
            GlCall::GetShaderInfoLog { shader: 5 },
        ]
    );
}

#[test]
fn only_an_empty_log_is_clean() {
    assert!(compiled_cleanly(0));
    assert!(!compiled_cleanly(1));
    assert!(!compiled_cleanly(1024));
    assert!(!compiled_cleanly(-1));
}

#[test]
fn init_program_compiles_links_and_deletes_the_stages() {
    assert_eq!(
        init_program(4, 5, 6),
        vec![
            GlCall::CreateShader { stage: ShaderStage::Vertex },
            GlCall::ShaderSource { shader: 4, stage: ShaderStage::Vertex },
            GlCall::CompileShader { shader: 4 },
            GlCall::GetShaderInfoLog { shader: 4 },
            GlCall::CreateShader { stage: ShaderStage::Fragment },
            GlCall::ShaderSource { shader: 5, stage: ShaderStage::Fragment },
            GlCall::CompileShader { shader: 5 },
            GlCall::GetShaderInfoLog { shader: 5 },
            GlCall::CreateProgram,
            GlCall::AttachShader { program: 6, shader: 4 },
            GlCall::AttachShader { program: 6, shader: 5 },
            GlCall::LinkProgram { program: 6 },
            GlCall::GetProgramInfoLog { program: 6 },
            GlCall::DeleteShader { shader: 4 },
            GlCall::DeleteShader { shader: 5 },
            GlCall::GetUniformLocation { program: 6, name: UniformName::Matrix },
            GlCall::GetUniformLocation { program: 6, name: UniformName::Texture },
        ]
    );
}

#[test]
fn init_texture_uploads_without_interpolation() {
    assert_eq!(
        init_texture(3, 512, 64),
        vec![
            GlCall::GenTexture,
            GlCall::ActiveTexture { unit: 0 },
            GlCall::BindTexture { texture: 3 },
            GlCall::TexParameter { filter: TextureFilter::Minify, mode: FilterMode::Nearest },
            GlCall::TexParameter { filter: TextureFilter::Magnify, mode: FilterMode::Nearest },
            GlCall::TexImage2D { width: 512, height: 64 },
            GlCall::BindTexture { texture: 0 },
        ]
    );
}

#[test]
fn atlas_bytes_are_four_for_each_pixel() {
    assert_eq!(atlas_bytes(1, 1), Some(4));
    assert_eq!(atlas_bytes(512, 64), Some(131072));
    assert_eq!(atlas_bytes(0, 7), Some(0));
    assert_eq!(atlas_bytes(7, 0), Some(0));
    assert_eq!(atlas_bytes(65536, 65536), Some(17179869184));
}

#[test]
fn atlas_bytes_beyond_a_usize_are_not_counted() {
    assert_eq!(atlas_bytes(u32::MAX, u32::MAX), None);
    assert_eq!(atlas_bytes(u32::MAX, 1), Some(17179869180));
    assert_eq!(atlas_bytes(2147483648, 2147483648), None);
    assert_eq!(atlas_bytes(2147483648, 2147483647), Some(18446744065119617024));
}
