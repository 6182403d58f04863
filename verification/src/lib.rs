//! A typed, verified facade over an immediate-mode graphics backend.
//!
//! Resources (buffers, images, shaders, pipelines) are modelled as plain
//! values, the per-frame draw state is an explicit state machine, and every
//! operation returns the backend commands it issues as data.  A thin,
//! unverified executor owns the real graphics context and performs the
//! commands in order.

pub mod blend;
pub mod buffer;
pub mod command;
pub mod context;
pub mod error;
pub mod gl;
pub mod image;
pub mod pass;
pub mod pipeline;
pub mod shader;

pub use crate::blend::{BlendFactor, BlendOp, BlendState};
pub use crate::buffer::{Buffer, BufferKind, BufferUsage};
pub use crate::command::Command;
pub use crate::context::Context;
pub use crate::error::Error;
pub use crate::image::{Image, ImageFilter, ImageFormat, ImageWrap};
pub use crate::pass::PassAction;
pub use crate::pipeline::{
    BufferLayout, Pipeline, PipelineInternal, VertexAttribute, VertexAttributeInternal,
    VertexFormat, VertexStep,
};
pub use crate::shader::{ImageUniform, ProgramOutcome, Shader, Uniform, UniformFormat};
