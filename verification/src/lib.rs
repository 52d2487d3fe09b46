//! A rendering backend for the `imgui` user interface library, as a planner.
//!
//! The library decides which calls into the graphics API set a renderer's
//! objects up, draw the draw lists of a frame and release the objects again,
//! with which arguments and in which order. It makes none of those calls
//! itself: a caller carries each plan out call by call and reports what came
//! back, the error code after every call and the value that a call is
//! answered with. [`setup::Setup`] and [`pass::Pass`] lead through that
//! dialogue.
//!
//! Of the user interface library it asks the size of the font atlas when a
//! setup starts, and tells it the name of the atlas texture when the setup
//! ends ([`context`]). The draw lists of a frame come in as plain values
//! ([`frame::DrawList`]).
//!
//! What the plans do to the pipeline is stated over [`state::GlState`], and
//! which objects they create and release over [`lifetime::GlObject`].

pub mod call;
pub mod context;
pub mod executor;
pub mod frame;
pub mod lifetime;
pub mod mesh;
pub mod objects;
pub mod pass;
pub mod pipeline;
pub mod projection;
pub mod renderer;
pub mod setup;
pub mod shader;
pub mod state;
pub mod texture;

pub use crate::call::{GlCall, Reply};
pub use crate::frame::{ClipRect, DrawCommand, DrawList, Viewport};
pub use crate::pass::{GlError, Pass};
pub use crate::renderer::{FrameError, Renderer};
pub use crate::setup::{Setup, SetupError};
