use vstd::prelude::*;
use imgui::ImGui;
use crate::call::{GlCall, Reply, ReplyKind};
use crate::context::{register_atlas, registered_atlas};
use crate::mesh::{init_mesh, mesh_setup, MESH_SETUP_LEN};
use crate::objects::{Names, Objects};
use crate::pass::{GlError, NO_ERROR};
use crate::renderer::Renderer;
use crate::shader::{compiled_cleanly, init_program, log_is_clean, program_setup};
use crate::shader::PROGRAM_SETUP_LEN;
use crate::texture::{init_texture, texture_setup, TEXTURE_SETUP_LEN};

verus! {

/// What the graphics API has answered during a setup: the names of the
/// objects it created and the locations of the two uniform variables. An
/// answer that has not come yet stands as zero.
#[derive(Clone, Copy, Debug, PartialEq, Eq)]
pub struct Answers {
    pub vbo: u32,
    pub ebo: u32,
    pub vao: u32,
    /// The vertex shader, which lives until the program is linked.
    pub vert: u32,
    /// The fragment shader, which lives until the program is linked.
    pub frag: u32,
    pub program: u32,
    pub u_matrix: i32,
    pub u_texture: i32,
    pub texture: u32,
}

impl Answers {
    /// No answer yet.
    pub open spec fn none() -> Answers {
        Answers {
            vbo: 0,
            ebo: 0,
            vao: 0,
            vert: 0,
            frag: 0,
            program: 0,
            u_matrix: 0,
            u_texture: 0,
            texture: 0,
        }
    }

    /// What a renderer keeps of these answers.
    pub open spec fn names(self) -> Names {
        Names {
            vbo: self.vbo,
            ebo: self.ebo,
            vao: self.vao,
            shader: self.program,
            texture: self.texture,
            u_matrix: self.u_matrix,
            u_texture: self.u_texture,
        }
    }
}

/// Number of calls of a setup.
pub const SETUP_LEN: usize = 44;

/// The step whose answer names the vertex buffer.
pub const VBO_STEP: usize = 0;

/// The step whose answer names the index buffer.
pub const EBO_STEP: usize = 1;

/// The step whose answer names the vertex array.
pub const VAO_STEP: usize = 2;

/// The step whose answer names the vertex shader.
pub const VERT_STEP: usize = 20;

/// The step whose answer is the length of the vertex shader's log.
pub const VERT_LOG_STEP: usize = 23;

/// The step whose answer names the fragment shader.
pub const FRAG_STEP: usize = 24;

/// The step whose answer is the length of the fragment shader's log.
pub const FRAG_LOG_STEP: usize = 27;

/// The step whose answer names the program.
pub const PROGRAM_STEP: usize = 28;

/// The step whose answer is the length of the program's log.
pub const LINK_LOG_STEP: usize = 32;

/// The step whose answer is the location of the projection matrix.
pub const MATRIX_STEP: usize = 35;

/// The step whose answer is the location of the texture sampler.
pub const SAMPLER_STEP: usize = 36;

/// The step whose answer names the atlas texture.
pub const TEXTURE_STEP: usize = 37;

/// The calls of a whole setup for an atlas of `width` by `height` pixels,
/// where the graphics API gives the answers `a`: the mesh objects are set
/// up, then the shader program is built, then the atlas is uploaded.
pub open spec fn setup_calls(a: Answers, width: u32, height: u32) -> Seq<GlCall> {
    mesh_setup(a.vbo, a.ebo, a.vao) + program_setup(a.vert, a.frag, a.program) + texture_setup(
        a.texture,
        width,
        height,
    )
}

/// The answer that a setup which ends with the answers `a` has got at a
/// step: a name or a location where the call of that step asks for one, an
/// empty log where it asks for a log, and nothing at every other step.
pub open spec fn answer_at(a: Answers, step: int) -> Reply {
    if step == VBO_STEP {
        Reply::Name(a.vbo)
    } else if step == EBO_STEP {
        Reply::Name(a.ebo)
    } else if step == VAO_STEP {
        Reply::Name(a.vao)
    } else if step == VERT_STEP {
        Reply::Name(a.vert)
    } else if step == FRAG_STEP {
        Reply::Name(a.frag)
    } else if step == PROGRAM_STEP {
        Reply::Name(a.program)
    } else if step == MATRIX_STEP {
        Reply::Location(a.u_matrix)
    } else if step == SAMPLER_STEP {
        Reply::Location(a.u_texture)
    } else if step == TEXTURE_STEP {
        Reply::Name(a.texture)
    } else if step == VERT_LOG_STEP || step == FRAG_LOG_STEP || step == LINK_LOG_STEP {
        Reply::LogLength(0)
    } else {
        Reply::Nothing
    }
}

/// The answers `a` with the reply to the call of a step written down.
pub open spec fn recorded(a: Answers, step: int, reply: Reply) -> Answers {
    match reply {
        Reply::Name(name) => {
            if step == VBO_STEP {
                Answers { vbo: name, ..a }
            } else if step == EBO_STEP {
                Answers { ebo: name, ..a }
            } else if step == VAO_STEP {
                Answers { vao: name, ..a }
            } else if step == VERT_STEP {
                Answers { vert: name, ..a }
            } else if step == FRAG_STEP {
                Answers { frag: name, ..a }
            } else if step == PROGRAM_STEP {
                Answers { program: name, ..a }
            } else if step == TEXTURE_STEP {
                Answers { texture: name, ..a }
            } else {
                a
            }
        },
        Reply::Location(location) => {
            if step == MATRIX_STEP {
                Answers { u_matrix: location, ..a }
            } else if step == SAMPLER_STEP {
                Answers { u_texture: location, ..a }
            } else {
                a
            }
        },
        _ => a,
    }
}

/// Why a setup cannot go on.
#[derive(Clone, Copy, Debug, PartialEq, Eq)]
pub enum SetupError {
    /// The setup has made all its calls.
    NothingPending,
    /// The graphics API reported an error after the call.
    Gl(GlError),
    /// The reply is not of the kind that answers the call.
    UnexpectedReply { call: GlCall, reply: Reply },
    /// A shader's information log is not empty: the stage did not compile
    /// cleanly.
    ShaderLog { call: GlCall, length: i32 },
    /// The program's information log is not empty: the stages did not link
    /// cleanly.
    ProgramLog { call: GlCall, length: i32 },
}

/// The error for an information log of `length` bytes that is not empty,
/// by the call that asked for it.
pub open spec fn log_error(call: GlCall, length: i32) -> SetupError {
    if call is GetProgramInfoLog {
        SetupError::ProgramLog { call, length }
    } else {
        SetupError::ShaderLog { call, length }
    }
}

/// What a setup shows of itself.
pub struct SetupView {
    /// The answers it has got so far.
    pub answers: Answers,
    /// Width of the atlas in pixels.
    pub width: u32,
    /// Height of the atlas in pixels.
    pub height: u32,
    /// Number of calls that it has made and got a good answer for.
    pub step: nat,
    /// The error at which it has stopped for good.
    pub failure: Option<SetupError>,
}

impl SetupView {
    /// The calls of the whole setup, as far as the answers so far tell.
    pub open spec fn script(self) -> Seq<GlCall> {
        setup_calls(self.answers, self.width, self.height)
    }

    /// The call to make next, if the setup has neither failed nor is
    /// through.
    pub open spec fn pending(self) -> Option<GlCall> {
        if self.failure is None && self.step < SETUP_LEN {
            Some(self.script()[self.step as int])
        } else {
            None
        }
    }

    /// Whether the setup has made all its calls and got a good answer for
    /// each.
    pub open spec fn through(self) -> bool {
        self.failure is None && self.step == SETUP_LEN
    }

    /// How the setup takes an error code and a reply. A setup that has
    /// failed keeps to its error, and one that is through has nothing
    /// pending. After the pending call the error code is looked at first,
    /// then the kind of the reply, then the length of a log.
    pub open spec fn verdict(self, code: u32, reply: Reply) -> Result<(), SetupError> {
        match self.failure {
            Some(error) => Err(error),
            None => match self.pending() {
                None => Err(SetupError::NothingPending),
                Some(call) => {
                    if code != NO_ERROR {
                        Err(SetupError::Gl(GlError { call, code }))
                    } else if reply.kind_of() != call.answer_of() {
                        Err(SetupError::UnexpectedReply { call, reply })
                    } else if reply is LogLength && !log_is_clean(reply->LogLength_0) {
                        Err(log_error(call, reply->LogLength_0))
                    } else {
                        Ok(())
                    }
                },
            },
        }
    }

    /// The setup one step on, with the reply to its pending call written
    /// down.
    pub open spec fn next(self, reply: Reply) -> SetupView {
        SetupView {
            answers: recorded(self.answers, self.step as int, reply),
            step: self.step + 1,
            ..self
        }
    }

    /// The setup stopped for good at its pending call.
    pub open spec fn failed(self, error: SetupError) -> SetupView {
        SetupView { failure: Some(error), ..self }
    }

    /// The setup after an error code and a reply: one step on where the
    /// verdict is good, stopped for good where the pending call has gone
    /// wrong, and as it was where nothing was pending.
    pub open spec fn after(self, code: u32, reply: Reply) -> SetupView {
        match self.verdict(code, reply) {
            Ok(_) => self.next(reply),
            Err(error) => if self.pending() is Some {
                self.failed(error)
            } else {
                self
            },
        }
    }

    /// The calls that the setup has made so far, in their order: those that
    /// got a good answer, and behind them the one that went wrong, if one
    /// did.
    pub open spec fn made(self) -> Seq<GlCall> {
        if self.failure is None {
            self.script().take(self.step as int)
        } else {
            self.script().take(self.step as int + 1)
        }
    }

    /// The good answers that the setup has taken so far, in their order.
    pub open spec fn heard(self) -> Seq<Reply> {
        Seq::new(self.step, |k: int| answer_at(self.answers, k))
    }

    /// What holds of every setup: it is inside its script, and one that has
    /// failed has stopped at a call of the script.
    pub open spec fn well_formed(self) -> bool {
        &&& self.step <= SETUP_LEN
        &&& self.failure is Some ==> self.step < SETUP_LEN && self.failure
            != Some(SetupError::NothingPending)
    }
}

/// The setup of a renderer's objects, as a dialogue with the graphics API:
/// it names the call to make next, takes the error code and the reply that
/// came back, and ends in a renderer when all calls are made. The first
/// error is final: from then on nothing is pending and no renderer comes
/// out.
pub struct Setup {
    answers: Answers,
    width: u32,
    height: u32,
    step: usize,
    failure: Option<SetupError>,
    script: Vec<GlCall>,
}

impl View for Setup {
    type V = SetupView;

    closed spec fn view(&self) -> SetupView {
        SetupView {
            answers: self.answers,
            width: self.width,
            height: self.height,
            step: self.step as nat,
            failure: self.failure,
        }
    }
}

impl Objects {
    /// Plans a whole setup for the answers of the graphics API and an atlas
    /// of `width` by `height` pixels.
    pub fn init(answers: &Answers, width: u32, height: u32) -> (calls: Vec<GlCall>)
        ensures
            calls@ == setup_calls(*answers, width, height),
            calls@.len() == SETUP_LEN,
    {
        let mut calls = init_mesh(answers.vbo, answers.ebo, answers.vao);
        let mut program = init_program(answers.vert, answers.frag, answers.program);
        let mut texture = init_texture(answers.texture, width, height);
        calls.append(&mut program);
        calls.append(&mut texture);
        calls
    }
}

impl Setup {
    #[verifier::type_invariant]
    spec fn inv(self) -> bool {
        &&& self@.well_formed()
        &&& self.script@ == setup_calls(self.answers, self.width, self.height)
    }

    /// Starts the setup for an atlas of `width` by `height` pixels.
    pub fn new(width: u32, height: u32) -> (setup: Setup)
        ensures
            setup@ == (SetupView {
                answers: Answers::none(),
                width,
                height,
                step: 0,
                failure: None,
            }),
            setup@.well_formed(),
    {
        let answers = Answers {
            vbo: 0,
            ebo: 0,
            vao: 0,
            vert: 0,
            frag: 0,
            program: 0,
            u_matrix: 0,
            u_texture: 0,
            texture: 0,
        };
        let script = Objects::init(&answers, width, height);
        Setup { answers, width, height, step: 0, failure: None, script }
    }

    /// The call to make next, or nothing when the setup is through or has
    /// failed.
    pub fn pending(&self) -> (call: Option<GlCall>)
        ensures
            call == self@.pending(),
            self@.well_formed(),
    {
        proof {
            use_type_invariant(self);
        }
        if self.failure.is_none() && self.step < SETUP_LEN {
            Some(self.script[self.step])
        } else {
            None
        }
    }

    /// The error at which the setup has stopped for good, if it has.
    pub fn failure(&self) -> (failure: Option<SetupError>)
        ensures
            failure == self@.failure,
            self@.well_formed(),
    {
        proof {
            use_type_invariant(self);
        }
        self.failure
    }

    /// Takes the error code that the graphics API reports after the pending
    /// call, and the call's reply.
    ///
    /// Where the verdict on them is good the setup is one step on. Where the
    /// pending call has gone wrong the setup stops for good: it keeps the
    /// error, has nothing pending from then on, and answers every further
    /// report with the same error. The calls made grow by the pending call
    /// either way.
    pub fn advance(&mut self, code: u32, reply: Reply) -> (r: Result<(), SetupError>)
        ensures
            r == old(self)@.verdict(code, reply),
            final(self)@ == old(self)@.after(code, reply),
            final(self)@.well_formed(),
            old(self)@.pending() is Some ==> final(self)@.made() == old(self)@.made().push(
                old(self)@.pending()->0,
            ),
            r is Ok ==> final(self)@.heard() == old(self)@.heard().push(reply),
            r is Err ==> final(self)@.heard() == old(self)@.heard(),
    {
        proof {
            use_type_invariant(&*self);
        }
        match self.failure {
            Some(error) => {
                return Err(error);
            },
            None => {},
        }
        if self.step >= SETUP_LEN {
            return Err(SetupError::NothingPending);
        }
        let call = self.script[self.step];
        let step = self.step;
        proof {
            assert(self@.script().take(step as int + 1) =~= self@.script().take(step as int).push(
                call,
            ));
        }
        if code != NO_ERROR {
            let error = SetupError::Gl(GlError { call, code });
            self.failure = Some(error);
            return Err(error);
        }
        let mut answers = self.answers;
        match reply {
            Reply::Nothing => {
                match call.answer() {
                    ReplyKind::Nothing => {},
                    _ => {
                        let error = SetupError::UnexpectedReply { call, reply };
                        self.failure = Some(error);
                        return Err(error);
                    },
                }
            },
            Reply::Name(name) => {
                match call.answer() {
                    ReplyKind::Name => {},
                    _ => {
                        let error = SetupError::UnexpectedReply { call, reply };
                        self.failure = Some(error);
                        return Err(error);
                    },
                }
                if step == VBO_STEP {
                    answers.vbo = name;
                } else if step == EBO_STEP {
                    answers.ebo = name;
                } else if step == VAO_STEP {
                    answers.vao = name;
                } else if step == VERT_STEP {
                    answers.vert = name;
                } else if step == FRAG_STEP {
                    answers.frag = name;
                } else if step == PROGRAM_STEP {
                    answers.program = name;
                } else if step == TEXTURE_STEP {
                    answers.texture = name;
                }
            },
            Reply::Location(location) => {
                match call.answer() {
                    ReplyKind::Location => {},
                    _ => {
                        let error = SetupError::UnexpectedReply { call, reply };
                        self.failure = Some(error);
                        return Err(error);
                    },
                }
                if step == MATRIX_STEP {
                    answers.u_matrix = location;
                } else if step == SAMPLER_STEP {
                    answers.u_texture = location;
                }
            },
            Reply::LogLength(length) => {
                match call.answer() {
                    ReplyKind::LogLength => {},
                    _ => {
                        let error = SetupError::UnexpectedReply { call, reply };
                        self.failure = Some(error);
                        return Err(error);
                    },
                }
                if !compiled_cleanly(length) {
                    let error = match call {
                        GlCall::GetProgramInfoLog { .. } => SetupError::ProgramLog { call, length },
                        _ => SetupError::ShaderLog { call, length },
                    };
                    self.failure = Some(error);
                    return Err(error);
                }
            },
        }
        let script = Objects::init(&answers, self.width, self.height);
        proof {
            assert(answers == recorded(self.answers, step as int, reply));
            script_keeps_made(self.answers, self.width, self.height, step as int, reply);
            answers_keep_heard(self.answers, self.width, self.height, step as int, reply);
            let before = self@;
            let after = before.next(reply);
            assert(after.made() =~= before.made().push(call));
            assert(after.heard() =~= before.heard().push(reply));
        }
        *self = Setup {
            answers,
            width: self.width,
            height: self.height,
            step: step + 1,
            failure: None,
            script,
        };
        Ok(())
    }

    /// Ends a setup that is through in the renderer that owns the objects it
    /// has created, and tells the context of the user interface library the
    /// name of the atlas texture, so that the draw commands of its frames
    /// refer to it. A setup that is not through, or that has failed, ends in
    /// nothing, and the context is left as it is.
    ///
    /// A setup that is through has made exactly the calls of
    /// [`setup_calls`] for the answers that it ends with, and has taken
    /// those answers.
    pub fn finish(self, ctx: &mut ImGui) -> (renderer: Option<Renderer>)
        ensures
            renderer is Some <==> self@.through(),
            renderer is Some ==> {
                &&& renderer->0@ == self@.answers.names()
                &&& registered_atlas(*final(ctx)) == self@.answers.texture as usize
                &&& self@.made() == self@.script()
                &&& self@.heard() == Seq::new(SETUP_LEN as nat, |k: int| answer_at(self@.answers, k))
            },
            renderer is None ==> *final(ctx) == *old(ctx),
    {
        proof {
            use_type_invariant(&self);
        }
        if self.failure.is_some() || self.step < SETUP_LEN {
            return None;
        }
        proof {
            setup_calls_listed(self.answers, self.width, self.height);
            assert(self.script@.take(self.step as int) =~= self.script@);
        }
        let a = self.answers;
        register_atlas(ctx, a.texture);
        let names = Names {
            vbo: a.vbo,
            ebo: a.ebo,
            vao: a.vao,
            shader: a.program,
            texture: a.texture,
            u_matrix: a.u_matrix,
            u_texture: a.u_texture,
        };
        Some(Renderer::with_objects(Objects::adopt(names)))
    }
}

/// The whole script of a setup, call by call.
pub proof fn setup_calls_listed(a: Answers, width: u32, height: u32)
    ensures
        setup_calls(a, width, height).len() == SETUP_LEN,
        forall|k: int|
            0 <= k < MESH_SETUP_LEN ==> #[trigger] setup_calls(a, width, height)[k] == mesh_setup(
                a.vbo,
                a.ebo,
                a.vao,
            )[k],
        forall|k: int|
            0 <= k < PROGRAM_SETUP_LEN ==> #[trigger] setup_calls(a, width, height)[MESH_SETUP_LEN
                + k] == program_setup(a.vert, a.frag, a.program)[k],
        forall|k: int|
            0 <= k < TEXTURE_SETUP_LEN ==> #[trigger] setup_calls(a, width, height)[MESH_SETUP_LEN
                + PROGRAM_SETUP_LEN + k] == texture_setup(a.texture, width, height)[k],
{
}

/// At each step of a setup the call asks for the kind of answer that
/// [`answer_at`] gives for the step.
pub proof fn answers_fit_calls(a: Answers, width: u32, height: u32, step: int)
    requires
        0 <= step < SETUP_LEN,
    ensures
        setup_calls(a, width, height)[step].answer_of() == answer_at(a, step).kind_of(),
{
    setup_calls_listed(a, width, height);
    let calls = setup_calls(a, width, height);
    if step < MESH_SETUP_LEN {
        assert(calls[step] == mesh_setup(a.vbo, a.ebo, a.vao)[step]);
    } else if step < MESH_SETUP_LEN + PROGRAM_SETUP_LEN {
        assert(calls[MESH_SETUP_LEN + (step - MESH_SETUP_LEN)] == program_setup(
            a.vert,
            a.frag,
            a.program,
        )[step - MESH_SETUP_LEN]);
    } else {
        assert(calls[MESH_SETUP_LEN + PROGRAM_SETUP_LEN + (step - MESH_SETUP_LEN
            - PROGRAM_SETUP_LEN)] == texture_setup(a.texture, width, height)[step - MESH_SETUP_LEN
            - PROGRAM_SETUP_LEN]);
    }
}

/// An answer changes no call that was made before it came: the script that
/// the answers tell after a reply is written down agrees with the script
/// before, up to and with the call that the reply answers.
pub proof fn script_keeps_made(a: Answers, width: u32, height: u32, step: int, reply: Reply)
    requires
        0 <= step < SETUP_LEN,
    ensures
        setup_calls(recorded(a, step, reply), width, height).take(step + 1) == setup_calls(
            a,
            width,
            height,
        ).take(step + 1),
{
    let b = recorded(a, step, reply);
    let before = setup_calls(a, width, height);
    let after = setup_calls(b, width, height);
    setup_calls_listed(a, width, height);
    setup_calls_listed(b, width, height);
    assert forall|k: int| 0 <= k <= step implies before[k] == after[k] by {
        if k < MESH_SETUP_LEN {
            assert(before[k] == mesh_setup(a.vbo, a.ebo, a.vao)[k]);
            assert(after[k] == mesh_setup(b.vbo, b.ebo, b.vao)[k]);
        } else if k < MESH_SETUP_LEN + PROGRAM_SETUP_LEN {
            let j = k - MESH_SETUP_LEN;
            assert(before[MESH_SETUP_LEN + j] == program_setup(a.vert, a.frag, a.program)[j]);
            assert(after[MESH_SETUP_LEN + j] == program_setup(b.vert, b.frag, b.program)[j]);
        } else {
            let j = k - MESH_SETUP_LEN - PROGRAM_SETUP_LEN;
            assert(before[MESH_SETUP_LEN + PROGRAM_SETUP_LEN + j] == texture_setup(
                a.texture,
                width,
                height,
            )[j]);
            assert(after[MESH_SETUP_LEN + PROGRAM_SETUP_LEN + j] == texture_setup(
                b.texture,
                width,
                height,
            )[j]);
        }
    }
    assert(after.take(step + 1) =~= before.take(step + 1));
}

/// A reply that is accepted at a step becomes the answer at that step and
/// leaves the answers at the steps before it as they were.
pub proof fn answers_keep_heard(a: Answers, width: u32, height: u32, step: int, reply: Reply)
    requires
        0 <= step < SETUP_LEN,
        reply.kind_of() == setup_calls(a, width, height)[step].answer_of(),
        reply matches Reply::LogLength(length) ==> log_is_clean(length),
    ensures
        answer_at(recorded(a, step, reply), step) == reply,
        forall|k: int| 0 <= k < step ==> answer_at(recorded(a, step, reply), k) == answer_at(a, k),
{
    answers_fit_calls(a, width, height, step);
}

} // verus!
