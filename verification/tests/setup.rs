use imgui_gl_renderer::call::{GlCall, Reply, ReplyKind, ShaderStage, UniformName};
use imgui_gl_renderer::objects::{Names, Objects};
use imgui::ImGui;
use imgui_gl_renderer::renderer::Renderer;
use imgui_gl_renderer::pass::{check, GlError};
use imgui_gl_renderer::setup::{Answers, Setup, SetupError, SETUP_LEN};

/// Answers as a graphics API would: names count up from one for each kind,
/// the matrix lies at location 3 and the sampler at location 4.
struct Api {
    buffers: u32,
    arrays: u32,
    textures: u32,
    shaders: u32,
    heard: Vec<GlCall>,
}

impl Api {
    fn new() -> Api {
        Api { buffers: 0, arrays: 0, textures: 0, shaders: 0, heard: Vec::new() }
    }

    fn answer(&mut self, call: GlCall) -> Reply {
        self.heard.push(call);
        match call {
            GlCall::GenBuffer => {
                self.buffers += 1;
                Reply::Name(10 + self.buffers)
            }
            GlCall::GenVertexArray => {
                self.arrays += 1;
                Reply::Name(20 + self.arrays)
            }
            GlCall::GenTexture => {
                self.textures += 1;
                Reply::Name(30 + self.textures)
            }
            GlCall::CreateShader { .. } => {
                self.shaders += 1;
                Reply::Name(40 + self.shaders)
            }
            GlCall::CreateProgram => Reply::Name(50),
            GlCall::GetShaderInfoLog { .. } => Reply::LogLength(0),
            GlCall::GetProgramInfoLog { .. } => Reply::LogLength(0),
            GlCall::GetUniformLocation { name: UniformName::Matrix, .. } => Reply::Location(3),
            GlCall::GetUniformLocation { name: UniformName::Texture, .. } => Reply::Location(4),
            _ => Reply::Nothing,
        }
    }
}

fn expected_answers() -> Answers {
    Answers {
        vbo: 11,
        ebo: 12,
        vao: 21,
        vert: 41,
        frag: 42,
        program: 50,
        u_matrix: 3,
        u_texture: 4,
        texture: 31,
    }
}

fn run_until(setup: &mut Setup, api: &mut Api, steps: usize) {
    for _ in 0..steps {
        let call = setup.pending().unwrap();
        let reply = api.answer(call);
        assert_eq!(setup.advance(0, reply), Ok(()));
    }
}

#[test]
fn setup_starts_with_the_first_buffer() {
    let setup = Setup::new(1, 1);
    assert_eq!(setup.pending(), Some(GlCall::GenBuffer));
}

#[test]
fn init_starts_a_setup_for_the_atlas_of_the_context() {
    let mut ctx = ImGui::init();
    let (width, height) = ctx.prepare_texture(|atlas| (atlas.width, atlas.height));
    assert!(width > 0);
    assert!(height > 0);
    let mut setup = Renderer::init(&mut ctx);
    assert_eq!(setup.pending(), Some(GlCall::GenBuffer));
    let mut api = Api::new();
    run_until(&mut setup, &mut api, 42);
    assert_eq!(setup.pending(), Some(GlCall::TexImage2D { width, height }));
    run_until(&mut setup, &mut api, 2);
    let renderer = setup.finish(&mut ctx).unwrap();
    assert_eq!(renderer.names().texture, 31);
}

#[test]
fn setup_makes_the_calls_of_its_script() {
    let mut setup = Setup::new(256, 128);
    let mut api = Api::new();
    let mut steps = 0;
    while let Some(call) = setup.pending() {
        let reply = api.answer(call);
        assert_eq!(setup.advance(0, reply), Ok(()));
        steps += 1;
        assert!(steps <= SETUP_LEN);
    }
    assert_eq!(steps, SETUP_LEN);
    assert_eq!(api.heard, Objects::init(&expected_answers(), 256, 128));
    let renderer = setup.finish(&mut ImGui::init()).unwrap();
    assert_eq!(
        renderer.names(),
        Names { vbo: 11, ebo: 12, vao: 21, shader: 50, texture: 31, u_matrix: 3, u_texture: 4 }
    );
}

#[test]
fn setup_script_has_the_three_parts_in_order() {
    let script = Objects::init(&expected_answers(), 2, 3);
    assert_eq!(script.len(), 44);
    assert_eq!(script[0], GlCall::GenBuffer);
    assert_eq!(script[3], GlCall::BindVertexArray { array: 21 });
    assert_eq!(script[20], GlCall::CreateShader { stage: ShaderStage::Vertex });
    assert_eq!(script[23], GlCall::GetShaderInfoLog { shader: 41 });
    assert_eq!(script[24], GlCall::CreateShader { stage: ShaderStage::Fragment });
    assert_eq!(script[27], GlCall::GetShaderInfoLog { shader: 42 });
    assert_eq!(script[28], GlCall::CreateProgram);
    assert_eq!(script[31], GlCall::LinkProgram { program: 50 });
    assert_eq!(script[32], GlCall::GetProgramInfoLog { program: 50 });
    assert_eq!(script[33], GlCall::DeleteShader { shader: 41 });
    assert_eq!(script[35], GlCall::GetUniformLocation { program: 50, name: UniformName::Matrix });
    assert_eq!(script[36], GlCall::GetUniformLocation { program: 50, name: UniformName::Texture });
    assert_eq!(script[37], GlCall::GenTexture);
    assert_eq!(script[42], GlCall::TexImage2D { width: 2, height: 3 });
    assert_eq!(script[43], GlCall::BindTexture { texture: 0 });
}

#[test]
fn setup_uses_each_name_after_it_was_given() {
    let mut setup = Setup::new(1, 1);
    let mut api = Api::new();
    run_until(&mut setup, &mut api, 3);
    assert_eq!(setup.pending(), Some(GlCall::BindVertexArray { array: 21 }));
    run_until(&mut setup, &mut api, 18);
    assert_eq!(setup.pending(), Some(GlCall::ShaderSource { shader: 41, stage: ShaderStage::Vertex }));
}

#[test]
fn setup_stops_at_an_error_code() {
    let mut setup = Setup::new(1, 1);
    let mut api = Api::new();
    run_until(&mut setup, &mut api, 6);
    let call = setup.pending().unwrap();
    let error = SetupError::Gl(GlError { call, code: 1281 });
    assert_eq!(setup.failure(), None);
    assert_eq!(setup.advance(1281, Reply::Nothing), Err(error));
    assert_eq!(setup.failure(), Some(error));
    assert_eq!(setup.pending(), None);
    assert!(setup.finish(&mut ImGui::init()).is_none());
}

#[test]
fn setup_keeps_to_its_first_error() {
    let mut setup = Setup::new(1, 1);
    let mut api = Api::new();
    run_until(&mut setup, &mut api, 6);
    let call = setup.pending().unwrap();
    let error = SetupError::Gl(GlError { call, code: 1281 });
    assert_eq!(setup.advance(1281, Reply::Nothing), Err(error));
    assert_eq!(setup.advance(0, Reply::Nothing), Err(error));
    assert_eq!(setup.advance(1285, Reply::Name(3)), Err(error));
    assert_eq!(setup.pending(), None);
    assert_eq!(setup.failure(), Some(error));
    assert!(setup.finish(&mut ImGui::init()).is_none());
}

#[test]
fn setup_looks_at_the_error_code_first() {
    let mut setup = Setup::new(1, 1);
    let error = setup.advance(1282, Reply::Location(5));
    assert_eq!(error, Err(SetupError::Gl(GlError { call: GlCall::GenBuffer, code: 1282 })));
}

#[test]
fn setup_refuses_a_reply_of_the_wrong_kind() {
    for reply in [Reply::Nothing, Reply::Location(1), Reply::LogLength(0)] {
        let mut setup = Setup::new(1, 1);
        let error = SetupError::UnexpectedReply { call: GlCall::GenBuffer, reply };
        assert_eq!(setup.advance(0, reply), Err(error));
        assert_eq!(setup.pending(), None);
        assert_eq!(setup.advance(0, Reply::Name(1)), Err(error));
    }
    let mut setup = Setup::new(1, 1);
    let mut api = Api::new();
    run_until(&mut setup, &mut api, 3);
    let call = GlCall::BindVertexArray { array: 21 };
    assert_eq!(
        setup.advance(0, Reply::Name(1)),
        Err(SetupError::UnexpectedReply { call, reply: Reply::Name(1) })
    );
    assert!(setup.finish(&mut ImGui::init()).is_none());
}

#[test]
fn setup_stops_at_a_shader_log() {
    let mut setup = Setup::new(1, 1);
    let mut api = Api::new();
    run_until(&mut setup, &mut api, 23);
    let call = GlCall::GetShaderInfoLog { shader: 41 };
    assert_eq!(setup.pending(), Some(call));
    let error = SetupError::ShaderLog { call, length: 17 };
    assert_eq!(setup.advance(0, Reply::LogLength(17)), Err(error));
    assert_eq!(setup.pending(), None);
    assert_eq!(setup.advance(0, Reply::LogLength(0)), Err(error));
    assert!(setup.finish(&mut ImGui::init()).is_none());
}

#[test]
fn setup_stops_at_the_log_of_the_second_stage() {
    let mut setup = Setup::new(1, 1);
    let mut api = Api::new();
    run_until(&mut setup, &mut api, 27);
    let call = GlCall::GetShaderInfoLog { shader: 42 };
    assert_eq!(setup.pending(), Some(call));
    assert_eq!(
        setup.advance(0, Reply::LogLength(1024)),
        Err(SetupError::ShaderLog { call, length: 1024 })
    );
    assert!(setup.finish(&mut ImGui::init()).is_none());
}

#[test]
fn setup_stops_at_a_link_log() {
    let mut setup = Setup::new(1, 1);
    let mut api = Api::new();
    run_until(&mut setup, &mut api, 31);
    assert_eq!(setup.pending(), Some(GlCall::LinkProgram { program: 50 }));
    assert_eq!(setup.advance(0, Reply::Nothing), Ok(()));
    let call = GlCall::GetProgramInfoLog { program: 50 };
    assert_eq!(setup.pending(), Some(call));
    let error = SetupError::ProgramLog { call, length: 60 };
    assert_eq!(setup.advance(0, Reply::LogLength(60)), Err(error));
    assert_eq!(setup.pending(), None);
    assert_eq!(setup.failure(), Some(error));
    assert_eq!(setup.advance(0, Reply::LogLength(0)), Err(error));
    assert!(setup.finish(&mut ImGui::init()).is_none());
}

#[test]
fn setup_goes_on_after_a_clean_link_log() {
    let mut setup = Setup::new(1, 1);
    let mut api = Api::new();
    run_until(&mut setup, &mut api, 32);
    assert_eq!(setup.advance(0, Reply::LogLength(0)), Ok(()));
    assert_eq!(setup.pending(), Some(GlCall::DeleteShader { shader: 41 }));
    assert_eq!(setup.failure(), None);
}

#[test]
fn a_failed_setup_tells_the_context_nothing() {
    let mut ctx = ImGui::init();
    let mut setup = Renderer::init(&mut ctx);
    let mut api = Api::new();
    run_until(&mut setup, &mut api, 32);
    assert!(setup.advance(0, Reply::LogLength(1)).is_err());
    assert!(setup.finish(&mut ctx).is_none());
    let ui = ctx.frame((800, 600), (800, 600), 0.1);
    ui.text("text");
    let mut ids: Vec<usize> = Vec::new();
    let rendered: Result<(), ()> = ui.render(|_, draw| {
        for cmd in draw.cmd_buffer.iter() {
            ids.push(cmd.texture_id as usize);
        }
        Ok(())
    });
    assert_eq!(rendered, Ok(()));
    assert!(!ids.is_empty());
    assert!(ids.iter().all(|id| *id == 0));
}

#[test]
fn setup_takes_a_missing_uniform() {
    let mut setup = Setup::new(1, 1);
    let mut api = Api::new();
    run_until(&mut setup, &mut api, 35);
    assert_eq!(setup.advance(0, Reply::Location(-1)), Ok(()));
    assert_eq!(setup.advance(0, Reply::Location(-1)), Ok(()));
    run_until(&mut setup, &mut api, 7);
    let names = setup.finish(&mut ImGui::init()).unwrap().names();
    assert_eq!(names.u_matrix, -1);
    assert_eq!(names.u_texture, -1);
}

#[test]
fn setup_that_is_through_has_nothing_pending() {
    let mut setup = Setup::new(1, 1);
    let mut api = Api::new();
    run_until(&mut setup, &mut api, SETUP_LEN);
    assert_eq!(setup.pending(), None);
    assert_eq!(setup.advance(0, Reply::Nothing), Err(SetupError::NothingPending));
    assert_eq!(setup.advance(7, Reply::Nothing), Err(SetupError::NothingPending));
    assert!(setup.finish(&mut ImGui::init()).is_some());
}

#[test]
fn setup_that_is_not_through_ends_in_nothing() {
    let mut setup = Setup::new(1, 1);
    assert!(setup.finish(&mut ImGui::init()).is_none());
    setup = Setup::new(1, 1);
    let mut api = Api::new();
    run_until(&mut setup, &mut api, SETUP_LEN - 1);
    assert!(setup.finish(&mut ImGui::init()).is_none());
}

#[test]
fn check_takes_zero_only() {
    let call = GlCall::LinkProgram { program: 1 };
    assert_eq!(check(call, 0), Ok(()));
    assert_eq!(check(call, 1280), Err(GlError { call, code: 1280 }));
    assert_eq!(check(call, u32::MAX), Err(GlError { call, code: u32::MAX }));
}

#[test]
fn eight_calls_are_answered_with_a_value() {
    assert_eq!(GlCall::GenBuffer.answer(), ReplyKind::Name);
    assert_eq!(GlCall::GenVertexArray.answer(), ReplyKind::Name);
    assert_eq!(GlCall::GenTexture.answer(), ReplyKind::Name);
    assert_eq!(GlCall::CreateShader { stage: ShaderStage::Vertex }.answer(), ReplyKind::Name);
    assert_eq!(GlCall::CreateProgram.answer(), ReplyKind::Name);
    assert_eq!(GlCall::GetShaderInfoLog { shader: 1 }.answer(), ReplyKind::LogLength);
    assert_eq!(GlCall::GetProgramInfoLog { program: 1 }.answer(), ReplyKind::LogLength);
    assert_eq!(
        GlCall::GetUniformLocation { program: 1, name: UniformName::Matrix }.answer(),
        ReplyKind::Location
    );
    assert_eq!(GlCall::UseProgram { program: 1 }.answer(), ReplyKind::Nothing);
    assert_eq!(GlCall::DrawElements { count: 1, offset: 0 }.answer(), ReplyKind::Nothing);
}

#[test]
fn finish_tells_the_context_the_name_of_the_atlas() {
    let mut ctx = ImGui::init();
    let mut setup = Renderer::init(&mut ctx);
    let mut api = Api::new();
    run_until(&mut setup, &mut api, SETUP_LEN);
    let renderer = setup.finish(&mut ctx).unwrap();
    assert_eq!(renderer.names().texture, 31);
    let ui = ctx.frame((800, 600), (800, 600), 0.1);
    ui.text("text");
    let mut ids: Vec<usize> = Vec::new();
    let rendered: Result<(), ()> = ui.render(|_, draw| {
        for cmd in draw.cmd_buffer.iter() {
            ids.push(cmd.texture_id as usize);
        }
        Ok(())
    });
    assert_eq!(rendered, Ok(()));
    assert!(!ids.is_empty());
    assert!(ids.iter().all(|id| *id == 31));
}

#[test]
fn a_setup_that_is_not_through_tells_the_context_nothing() {
    let mut ctx = ImGui::init();
    let mut setup = Renderer::init(&mut ctx);
    let mut api = Api::new();
    run_until(&mut setup, &mut api, SETUP_LEN - 1);
    assert!(setup.finish(&mut ctx).is_none());
    let ui = ctx.frame((800, 600), (800, 600), 0.1);
    ui.text("text");
    let mut ids: Vec<usize> = Vec::new();
    let rendered: Result<(), ()> = ui.render(|_, draw| {
        for cmd in draw.cmd_buffer.iter() {
            ids.push(cmd.texture_id as usize);
        }
        Ok(())
    });
    assert_eq!(rendered, Ok(()));
    assert!(!ids.is_empty());
    assert!(ids.iter().all(|id| *id == 0));
}
