//! Failures raised by resource construction and by the draw-state machine.

use vstd::prelude::*;

verus! {

/// Why a resource could not be built or an operation was refused.
#[derive(Clone, Debug, PartialEq, Eq)]
pub enum Error {
    /// The backend refused to allocate a buffer, texture or program object.
    ResourceCreationFailed,
    /// A shader stage failed to compile; carries the backend's diagnostic log.
    ShaderCompileError { log: String },
    /// The program failed to link; carries the backend's diagnostic log.
    ShaderLinkError { log: String },
    /// A declared uniform name does not exist in the linked program.
    UniformNotFound { name: &'static str },
    /// A declared vertex attribute name does not exist in the linked program.
    AttributeNotFound { name: &'static str },
    /// A caller broke an ordering or sizing contract of the draw state
    /// machine: no pipeline is current, too few buffers or images were
    /// supplied, or uniform data is shorter than the declared layout.
    PreconditionViolation,
}

} // verus!
