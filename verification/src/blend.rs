//! Blend equation and factor descriptors, and their backend codes.

use vstd::prelude::*;

use crate::gl;

verus! {

/// A blending operation.
#[derive(Debug, Clone, Copy, PartialEq, Eq, Structural)]
pub enum BlendOp {
    Add,
    Subtract,
    ReverseSubtract,
}

/// A blending factor.
#[derive(Debug, Clone, Copy, PartialEq, Eq, Structural)]
pub enum BlendFactor {
    Zero,
    One,
    SourceColor,
    OneMinusSourceColor,
    SourceAlpha,
    OneMinusSourceAlpha,
    DestColor,
    OneMinusDestColor,
    DestAlpha,
    OneMinusDestAlpha,
}

/// A blend equation: one operation and its two factors.
#[derive(Debug, Clone, Copy, PartialEq, Eq, Structural)]
pub struct BlendState {
    /// The blending operation.
    pub op: BlendOp,
    /// The source blending factor.
    pub source: BlendFactor,
    /// The destination blending factor.
    pub dest: BlendFactor,
}

/// The backend code of a blending operation.
pub open spec fn blend_op_code(op: BlendOp) -> u32 {
    match op {
        BlendOp::Add => gl::FUNC_ADD,
        BlendOp::Subtract => gl::FUNC_SUBTRACT,
        BlendOp::ReverseSubtract => gl::FUNC_REVERSE_SUBTRACT,
    }
}

/// The backend code of a blending factor.
pub open spec fn blend_factor_code(factor: BlendFactor) -> u32 {
    match factor {
        BlendFactor::Zero => gl::ZERO,
        BlendFactor::One => gl::ONE,
        BlendFactor::SourceColor => gl::SRC_COLOR,
        BlendFactor::OneMinusSourceColor => gl::ONE_MINUS_SRC_COLOR,
        BlendFactor::SourceAlpha => gl::SRC_ALPHA,
        BlendFactor::OneMinusSourceAlpha => gl::ONE_MINUS_SRC_ALPHA,
        BlendFactor::DestColor => gl::DST_COLOR,
        BlendFactor::OneMinusDestColor => gl::ONE_MINUS_DST_COLOR,
        BlendFactor::DestAlpha => gl::DST_ALPHA,
        BlendFactor::OneMinusDestAlpha => gl::ONE_MINUS_DST_ALPHA,
    }
}

/// Translates a blending operation into its backend code.
pub fn gl_blend_op(op: BlendOp) -> (r: u32)
    ensures
        r == blend_op_code(op),
{
    match op {
        BlendOp::Add => gl::FUNC_ADD,
        BlendOp::Subtract => gl::FUNC_SUBTRACT,
        BlendOp::ReverseSubtract => gl::FUNC_REVERSE_SUBTRACT,
    }
}

/// Translates a blending factor into its backend code.
pub fn gl_blend_factor(factor: BlendFactor) -> (r: u32)
    ensures
        r == blend_factor_code(factor),
{
    match factor {
        BlendFactor::Zero => gl::ZERO,
        BlendFactor::One => gl::ONE,
        BlendFactor::SourceColor => gl::SRC_COLOR,
        BlendFactor::OneMinusSourceColor => gl::ONE_MINUS_SRC_COLOR,
        BlendFactor::SourceAlpha => gl::SRC_ALPHA,
        BlendFactor::OneMinusSourceAlpha => gl::ONE_MINUS_SRC_ALPHA,
        BlendFactor::DestColor => gl::DST_COLOR,
        BlendFactor::OneMinusDestColor => gl::ONE_MINUS_DST_COLOR,
        BlendFactor::DestAlpha => gl::DST_ALPHA,
        BlendFactor::OneMinusDestAlpha => gl::ONE_MINUS_DST_ALPHA,
    }
}

} // verus!
