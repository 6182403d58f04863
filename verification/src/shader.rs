//! Shader programs: uniform declarations and their resolved bindings.
//!
//! Compiling and linking happen in the backend; the outcome — a program
//! handle or a diagnostic log, and the locations the backend found for each
//! declared name — is handed to [`Shader::new`], which turns it into either a
//! resolved shader value or the exact error the outcome calls for.

use vstd::prelude::*;

use crate::error::Error;

verus! {

/// Component layouts a uniform value can have.
#[derive(Clone, Copy, Debug, PartialEq, Eq, Structural)]
pub enum UniformFormat {
    Float1,
    Float2,
    Float3,
    Float4,
    Int1,
    Int2,
    Int3,
    Int4,
}

/// A uniform declaration: a name and the layout of its value.
#[derive(Clone, Copy, Debug)]
pub struct Uniform {
    /// The name of the uniform in the shader source.
    pub name: &'static str,
    /// The component layout of the uniform's value.
    pub format: UniformFormat,
}

/// An image (sampler) uniform declaration.
#[derive(Clone, Copy, Debug)]
pub struct ImageUniform {
    /// The name of the sampler in the shader source.
    pub name: &'static str,
}

/// A uniform resolved to its backend location.
#[derive(Clone, Copy, Debug, PartialEq, Eq, Structural)]
pub struct UniformInternal {
    /// The backend location of the uniform.
    pub location: u32,
    /// The declared component layout.
    pub format: UniformFormat,
}

/// An image uniform resolved to its backend location.
#[derive(Clone, Copy, Debug, PartialEq, Eq, Structural)]
pub struct ImageUniformInternal {
    /// The backend location of the sampler uniform.
    pub location: u32,
}

/// What the backend reported after compiling and linking the two stages.
#[derive(Clone, Debug, PartialEq, Eq)]
pub enum ProgramOutcome {
    /// Both stages compiled and the program linked; carries its handle.
    Linked { program: u32 },
    /// A stage failed to compile; carries the backend's log.
    CompileFailed { log: String },
    /// The program failed to link; carries the backend's log.
    LinkFailed { log: String },
}

/// A linked shader program with its resolved uniform bindings, in
/// declaration order.
#[derive(Debug)]
pub struct Shader {
    /// The backend program handle.
    pub program: u32,
    /// Resolved value uniforms, in the order they were declared.
    pub uniforms: Vec<UniformInternal>,
    /// Resolved image uniforms, in the order they were declared.
    pub image_uniforms: Vec<ImageUniformInternal>,
}

/// The byte size of one uniform value of the given layout: four bytes per
/// component, whether float or integer.
pub open spec fn uniform_byte_size(format: UniformFormat) -> int {
    match format {
        UniformFormat::Float1 => 4,
        UniformFormat::Float2 => 8,
        UniformFormat::Float3 => 12,
        UniformFormat::Float4 => 16,
        UniformFormat::Int1 => 4,
        UniformFormat::Int2 => 8,
        UniformFormat::Int3 => 12,
        UniformFormat::Int4 => 16,
    }
}

/// Computes the byte size of one uniform value of the given layout.
pub fn uniform_format_byte_size(format: UniformFormat) -> (r: usize)
    ensures
        r == uniform_byte_size(format),
{
    match format {
        UniformFormat::Float1 => 4,
        UniformFormat::Float2 => 8,
        UniformFormat::Float3 => 12,
        UniformFormat::Float4 => 16,
        UniformFormat::Int1 => 4,
        UniformFormat::Int2 => 8,
        UniformFormat::Int3 => 12,
        UniformFormat::Int4 => 16,
    }
}

/// Whether the backend found a location for every declared name.
pub open spec fn all_locations_found(locations: Seq<Option<u32>>) -> bool {
    forall|i: int| 0 <= i < locations.len() ==> locations[i] is Some
}

/// The contract of shader construction: a compile or link failure surfaces
/// its log; a missing name fails with `UniformNotFound` naming the first
/// declared name the backend did not find; otherwise the resolved lists pair
/// each declaration with its location, in declaration order.
pub open spec fn shader_new_spec(
    outcome: ProgramOutcome,
    uniforms: Seq<Uniform>,
    images: Seq<ImageUniform>,
    uniform_locations: Seq<Option<u32>>,
    image_locations: Seq<Option<u32>>,
    r: Result<Shader, Error>,
) -> bool {
    match outcome {
        ProgramOutcome::CompileFailed { log } => r == Err::<Shader, Error>(
            Error::ShaderCompileError { log },
        ),
        ProgramOutcome::LinkFailed { log } => r == Err::<Shader, Error>(
            Error::ShaderLinkError { log },
        ),
        ProgramOutcome::Linked { program } => {
            if all_locations_found(uniform_locations) && all_locations_found(image_locations) {
                r matches Ok(shader) && {
                    &&& shader.program == program
                    &&& shader.uniforms@.len() == uniforms.len()
                    &&& forall|i: int|
                        0 <= i < uniforms.len() ==> shader.uniforms@[i] == (UniformInternal {
                            location: uniform_locations[i]->0,
                            format: uniforms[i].format,
                        })
                    &&& shader.image_uniforms@.len() == images.len()
                    &&& forall|i: int|
                        0 <= i < images.len() ==> shader.image_uniforms@[i] == (
                        ImageUniformInternal { location: image_locations[i]->0 })
                }
            } else if !all_locations_found(uniform_locations) {
                r matches Err(e) && exists|j: int|
                    #![trigger uniform_locations[j]]
                    {
                        &&& 0 <= j < uniform_locations.len()
                        &&& uniform_locations[j] is None
                        &&& forall|i: int| 0 <= i < j ==> uniform_locations[i] is Some
                        &&& e == (Error::UniformNotFound { name: uniforms[j].name })
                    }
            } else {
                r matches Err(e) && exists|j: int|
                    #![trigger image_locations[j]]
                    {
                        &&& 0 <= j < image_locations.len()
                        &&& image_locations[j] is None
                        &&& forall|i: int| 0 <= i < j ==> image_locations[i] is Some
                        &&& e == (Error::UniformNotFound { name: images[j].name })
                    }
            }
        },
    }
}

impl Shader {
    /// Builds a shader from the backend's program outcome and the locations
    /// it reported for each declared uniform and image uniform name.
    ///
    /// Fails with the compile or link log if a stage failed, and with
    /// `UniformNotFound` naming the first declared name the backend did not
    /// find.  On success the resolved lists keep declaration order exactly.
    pub fn new(
        outcome: ProgramOutcome,
        uniforms: &[Uniform],
        images: &[ImageUniform],
        uniform_locations: &[Option<u32>],
        image_locations: &[Option<u32>],
    ) -> (r: Result<Shader, Error>)
        requires
            uniform_locations@.len() == uniforms@.len(),
            image_locations@.len() == images@.len(),
            images@.len() <= 0x7FFF_FFFF,
        ensures
            shader_new_spec(outcome, uniforms@, images@, uniform_locations@, image_locations@, r),
    {
        let program = match outcome {
            ProgramOutcome::CompileFailed { log } => {
                return Err(Error::ShaderCompileError { log });
            },
            ProgramOutcome::LinkFailed { log } => {
                return Err(Error::ShaderLinkError { log });
            },
            ProgramOutcome::Linked { program } => program,
        };

        let mut resolved: Vec<UniformInternal> = Vec::new();
        let mut i: usize = 0;
        while i < uniforms.len()
            invariant
                outcome == (ProgramOutcome::Linked { program }),
                uniform_locations@.len() == uniforms@.len(),
                i <= uniforms@.len(),
                resolved@.len() == i,
                forall|k: int| 0 <= k < i ==> uniform_locations@[k] is Some,
                forall|k: int|
                    0 <= k < i ==> resolved@[k] == (UniformInternal {
                        location: uniform_locations@[k]->0,
                        format: uniforms@[k].format,
                    }),
            decreases uniforms@.len() - i,
        {
            match uniform_locations[i] {
                Some(location) => {
                    resolved.push(UniformInternal { location, format: uniforms[i].format });
                },
                None => {
                    let e = Error::UniformNotFound { name: uniforms[i].name };
                    proof {
                        let j = i as int;
                        assert({
                            &&& 0 <= j < uniform_locations@.len()
                            &&& uniform_locations@[j] is None
                            &&& forall|k: int| 0 <= k < j ==> uniform_locations@[k] is Some
                            &&& e == (Error::UniformNotFound { name: uniforms@[j].name })
                        });
                    }
                    return Err(e);
                },
            }
            i += 1;
        }

        let mut resolved_images: Vec<ImageUniformInternal> = Vec::new();
        let mut i: usize = 0;
        while i < images.len()
            invariant
                outcome == (ProgramOutcome::Linked { program }),
                all_locations_found(uniform_locations@),
                image_locations@.len() == images@.len(),
                i <= images@.len(),
                resolved_images@.len() == i,
                forall|k: int| 0 <= k < i ==> image_locations@[k] is Some,
                forall|k: int|
                    0 <= k < i ==> resolved_images@[k] == (ImageUniformInternal {
                        location: image_locations@[k]->0,
                    }),
            decreases images@.len() - i,
        {
            match image_locations[i] {
                Some(location) => {
                    resolved_images.push(ImageUniformInternal { location });
                },
                None => {
                    let e = Error::UniformNotFound { name: images[i].name };
                    proof {
                        let j = i as int;
                        assert({
                            &&& 0 <= j < image_locations@.len()
                            &&& image_locations@[j] is None
                            &&& forall|k: int| 0 <= k < j ==> image_locations@[k] is Some
                            &&& e == (Error::UniformNotFound { name: images@[j].name })
                        });
                    }
                    return Err(e);
                },
            }
            i += 1;
        }

        Ok(Shader { program, uniforms: resolved, image_uniforms: resolved_images })
    }
}

} // verus!
