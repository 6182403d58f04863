//! Backend commands as plain data.
//!
//! Every drawing operation of this library computes the exact sequence of
//! backend calls it wants issued and returns them as [`Command`] values.  An
//! executor that owns the real graphics context performs them in order.
//! Resource handles are the backend's raw object names; color and depth
//! values are IEEE-754 single-precision bit patterns, so that command lists
//! stay plain integer data.

use vstd::prelude::*;

use crate::shader::UniformFormat;

verus! {

/// One backend call, recorded with all of its arguments.
#[derive(Clone, Debug, PartialEq, Eq)]
pub enum Command {
    /// Bind a buffer object (or none) to a buffer target.
    BindBuffer { target: u32, buffer: Option<u32> },
    /// Allocate uninitialized storage for the bound buffer.
    BufferData { target: u32, size: usize, usage: u32 },
    /// Allocate storage for the bound buffer and fill it with `data`.
    BufferDataSlice { target: u32, data: Vec<u8>, usage: u32 },
    /// Overwrite a sub-range of the bound buffer.
    BufferSubData { target: u32, offset: i32, data: Vec<u8> },
    /// Make a linked program (or none) current.
    UseProgram { program: Option<u32> },
    /// Enable one vertex attribute slot.
    EnableVertexAttribArray { location: u32 },
    /// Describe how one attribute reads the bound vertex buffer.
    VertexAttribPointer { location: u32, size: i32, format: u32, stride: i32, offset: i32 },
    /// Set the per-instance advance rate of one attribute.
    VertexAttribDivisor { location: u32, divisor: u32 },
    /// Upload one uniform value; `data` holds its tightly packed components.
    SetUniform { location: u32, format: UniformFormat, data: Vec<u8> },
    /// Set the sampler uniform at `location` to a texture unit index.
    Uniform1Int { location: u32, value: i32 },
    /// Select the active texture unit.
    ActiveTexture { unit: u32 },
    /// Bind a texture object (or none) to a texture target.
    BindTexture { target: u32, texture: Option<u32> },
    /// Allocate a 2D image, optionally seeded with pixel data.
    TexImage2D {
        target: u32,
        internal_format: u32,
        width: u32,
        height: u32,
        format: u32,
        kind: u32,
        data: Option<Vec<u8>>,
    },
    /// Overwrite a rectangle of the bound texture.
    TexSubImage2D {
        target: u32,
        x: u32,
        y: u32,
        width: u32,
        height: u32,
        format: u32,
        kind: u32,
        data: Vec<u8>,
    },
    /// Build the mipmap chain of the bound texture.
    GenerateMipmap { target: u32 },
    /// Set one integer sampler parameter of the bound texture.
    TexParameter { target: u32, parameter: u32, value: u32 },
    /// Set the clear color; components are single-precision bit patterns.
    ClearColor { red: u32, green: u32, blue: u32, alpha: u32 },
    /// Set the clear depth; a single-precision bit pattern.
    ClearDepth { depth: u32 },
    /// Set the clear stencil value.
    ClearStencil { stencil: i32 },
    /// Clear the buffers selected by `mask`.
    Clear { mask: u32 },
    /// Bind a framebuffer object to a framebuffer target.
    BindFramebuffer { target: u32, framebuffer: u32 },
    /// Issue a non-indexed, instanced draw call.
    DrawArraysInstanced { mode: u32, first: usize, count: usize, instances: usize },
    /// Issue an indexed, instanced draw call reading indices at `byte_offset`.
    DrawElementsInstanced {
        mode: u32,
        count: usize,
        element_type: u32,
        byte_offset: usize,
        instances: usize,
    },
    /// Set the viewport rectangle.
    Viewport { x: u32, y: u32, width: u32, height: u32 },
    /// Switch on a backend capability.
    Enable { capability: u32 },
    /// Set the blend equation, per color and alpha channel.
    BlendEquationSeparate { color_op: u32, alpha_op: u32 },
    /// Set the blend factors, per color and alpha channel.
    BlendFuncSeparate { source_color: u32, dest_color: u32, source_alpha: u32, dest_alpha: u32 },
}

} // verus!
