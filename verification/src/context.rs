//! The device context: pipeline registry and per-frame draw state.
//!
//! The context owns an append-only registry of pipelines and two pieces of
//! transient state: which pipeline is current, and whether an index buffer
//! has been bound since the last commit.  Binding operations require a
//! current pipeline; `commit_frame` always resets both flags.  Every
//! operation returns the backend commands it issues as data.

use vstd::prelude::*;

use crate::blend::{blend_factor_code, blend_op_code, gl_blend_factor, gl_blend_op, BlendState};
use crate::command::Command;
use crate::error::Error;
use crate::gl;
use crate::buffer::{buffer_new_spec, buffer_with_data_spec, Buffer, BufferKind, BufferUsage};
use crate::image::{image_new_spec, bytes_per_pixel, Image, ImageFilter, ImageFormat, ImageWrap};
use crate::pass::{pass_commands, PassAction};
use crate::pipeline::{layout_inputs_ok, location_values, resolve_attributes, slot_schedule,
    BufferLayout, Pipeline, PipelineInternal, VertexAttribute, VertexAttributeInternal};
use crate::shader::{all_locations_found, shader_new_spec, uniform_byte_size,
    uniform_format_byte_size, ImageUniform, ImageUniformInternal, ProgramOutcome, Shader, Uniform,
    UniformInternal};

verus! {

/// The device context.
#[derive(Debug)]
pub struct Context {
    /// The append-only pipeline registry; handles index into it.
    pub pipelines: Vec<PipelineInternal>,
    /// The pipeline made current by `set_pipeline`, if any.
    pub curr_pipeline: Option<usize>,
    /// Whether an index buffer has been bound since the last commit.
    pub idx_buffer_set: bool,
    /// The default framebuffer binding captured at context creation.
    pub default_framebuffer: u32,
}

/// The commands that enable blending and configure its equation and
/// factors, possibly asymmetric between the color and alpha channels.
pub open spec fn blend_commands(color: BlendState, alpha: BlendState) -> Seq<Command> {
    seq![
        Command::Enable { capability: gl::BLEND },
        Command::BlendEquationSeparate {
            color_op: blend_op_code(color.op),
            alpha_op: blend_op_code(alpha.op),
        },
        Command::BlendFuncSeparate {
            source_color: blend_factor_code(color.source),
            dest_color: blend_factor_code(color.dest),
            source_alpha: blend_factor_code(alpha.source),
            dest_alpha: blend_factor_code(alpha.dest),
        },
    ]
}

/// The three commands that configure one resolved attribute.
pub open spec fn attr_commands(attr: VertexAttributeInternal) -> Seq<Command> {
    seq![
        Command::EnableVertexAttribArray { location: attr.location },
        Command::VertexAttribPointer {
            location: attr.location,
            size: attr.size,
            format: attr.format,
            stride: attr.stride,
            offset: attr.offset,
        },
        Command::VertexAttribDivisor { location: attr.location, divisor: attr.divisor },
    ]
}

/// The commands of the first `n` attributes of one slot, in order.
pub open spec fn attr_row_commands(row: Seq<VertexAttributeInternal>, n: int) -> Seq<Command>
    decreases n,
{
    if n <= 0 {
        Seq::empty()
    } else {
        attr_row_commands(row, n - 1) + attr_commands(row[n - 1])
    }
}

/// The commands that bind the first `n` buffer slots: bind each buffer to
/// the vertex target, then configure every attribute of that slot.
pub open spec fn vertex_bind_commands(
    rows: Seq<Vec<VertexAttributeInternal>>,
    buffers: Seq<Buffer>,
    n: int,
) -> Seq<Command>
    decreases n,
{
    if n <= 0 {
        Seq::empty()
    } else {
        vertex_bind_commands(rows, buffers, n - 1) + seq![
            Command::BindBuffer { target: gl::ARRAY_BUFFER, buffer: Some(buffers[n - 1].id) },
        ] + attr_row_commands(rows[n - 1]@, rows[n - 1]@.len() as int)
    }
}

/// The byte offset of uniform `n` in the packed aggregate: the sum of the
/// declared sizes of the uniforms before it.
pub open spec fn uniform_prefix_bytes(uniforms: Seq<UniformInternal>, n: int) -> int
    decreases n,
{
    if n <= 0 {
        0
    } else {
        uniform_prefix_bytes(uniforms, n - 1) + uniform_byte_size(uniforms[n - 1].format)
    }
}

/// Uniform byte offsets only grow as more uniforms are considered.
pub proof fn lemma_uniform_prefix_monotone(uniforms: Seq<UniformInternal>, n: int, m: int)
    requires
        0 <= n <= m,
    ensures
        0 <= uniform_prefix_bytes(uniforms, n) <= uniform_prefix_bytes(uniforms, m),
    decreases m,
{
    if m > 0 {
        if n <= m - 1 {
            lemma_uniform_prefix_monotone(uniforms, n, m - 1);
        } else {
            lemma_uniform_prefix_monotone(uniforms, n - 1, m - 1);
        }
    }
}

/// The commands that bind the first `n` images: select unit `k`, bind the
/// `k`-th image to it, and point the `k`-th sampler uniform at unit `k`.
pub open spec fn image_bind_commands(
    image_uniforms: Seq<ImageUniformInternal>,
    images: Seq<Image>,
    n: int,
) -> Seq<Command>
    decreases n,
{
    if n <= 0 {
        Seq::empty()
    } else {
        image_bind_commands(image_uniforms, images, n - 1) + seq![
            Command::ActiveTexture { unit: (gl::TEXTURE0 + n - 1) as u32 },
            Command::BindTexture { target: gl::TEXTURE_2D, texture: Some(images[n - 1].id) },
            Command::Uniform1Int {
                location: image_uniforms[n - 1].location,
                value: (n - 1) as i32,
            },
        ]
    }
}

impl Context {
    /// Well-formedness: the current pipeline, if set, indexes the registry,
    /// and every registered shader's image uniform count fits the backend's
    /// signed 32-bit texture unit index.
    pub open spec fn wf(&self) -> bool {
        &&& match self.curr_pipeline {
            Some(p) => p < self.pipelines@.len(),
            None => true,
        }
        &&& forall|i: int|
            0 <= i < self.pipelines@.len()
                ==> #[trigger] self.pipelines@[i].shader.image_uniforms@.len() <= 0x7FFF_FFFF
    }

    /// Creates a context with an empty registry and no transient state,
    /// remembering the backend's default framebuffer binding.
    pub fn new(default_framebuffer: u32) -> (r: Context)
        ensures
            r.wf(),
            r.pipelines@.len() == 0,
            r.curr_pipeline is None,
            !r.idx_buffer_set,
            r.default_framebuffer == default_framebuffer,
    {
        Context {
            pipelines: Vec::new(),
            curr_pipeline: None,
            idx_buffer_set: false,
            default_framebuffer,
        }
    }

    /// Makes `pipeline` current and activates its shader's program.  The
    /// handle must come from this context's registry.
    pub fn set_pipeline(&mut self, pipeline: &Pipeline) -> (commands: Vec<Command>)
        requires
            old(self).wf(),
            (pipeline.id as int) < old(self).pipelines@.len(),
        ensures
            final(self).wf(),
            final(self).curr_pipeline == Some(pipeline.id),
            final(self).pipelines@ == old(self).pipelines@,
            final(self).idx_buffer_set == old(self).idx_buffer_set,
            final(self).default_framebuffer == old(self).default_framebuffer,
            commands@ == seq![
                Command::UseProgram {
                    program: Some(old(self).pipelines@[pipeline.id as int].shader.program),
                },
            ],
    {
        self.curr_pipeline = Some(pipeline.id);
        let program = self.pipelines[pipeline.id].shader.program;
        let mut commands: Vec<Command> = Vec::new();
        commands.push(Command::UseProgram { program: Some(program) });
        commands
    }

    /// Binds `buffer` as the index buffer; subsequent draws take the indexed
    /// path until the next commit.
    pub fn set_index_buffer(&mut self, buffer: &Buffer) -> (commands: Vec<Command>)
        requires
            old(self).wf(),
        ensures
            final(self).wf(),
            final(self).idx_buffer_set,
            final(self).curr_pipeline == old(self).curr_pipeline,
            final(self).pipelines@ == old(self).pipelines@,
            final(self).default_framebuffer == old(self).default_framebuffer,
            commands@ == seq![
                Command::BindBuffer {
                    target: gl::ELEMENT_ARRAY_BUFFER,
                    buffer: Some(buffer.id),
                },
            ],
    {
        self.idx_buffer_set = true;
        let mut commands: Vec<Command> = Vec::new();
        commands.push(
            Command::BindBuffer { target: gl::ELEMENT_ARRAY_BUFFER, buffer: Some(buffer.id) },
        );
        commands
    }

    /// Issues a draw call: indexed if and only if an index buffer has been
    /// bound since the last commit, non-indexed otherwise.  Indexed draws
    /// read 16-bit indices, so `start` is scaled by two bytes per index.
    /// Fails when no pipeline is current.
    pub fn draw(&self, start: usize, count: usize, instances: usize) -> (r: Result<
        Vec<Command>,
        Error,
    >)
        requires
            self.wf(),
            self.idx_buffer_set ==> start <= usize::MAX / 2,
        ensures
            match r {
                Ok(commands) => {
                    &&& self.curr_pipeline is Some
                    &&& commands@.len() == 1
                    &&& commands@[0] == if self.idx_buffer_set {
                        (Command::DrawElementsInstanced {
                            mode: gl::TRIANGLES,
                            count,
                            element_type: gl::UNSIGNED_SHORT,
                            byte_offset: (2 * start) as usize,
                            instances,
                        })
                    } else {
                        (Command::DrawArraysInstanced {
                            mode: gl::TRIANGLES,
                            first: start,
                            count,
                            instances,
                        })
                    }
                },
                Err(e) => self.curr_pipeline is None && e == Error::PreconditionViolation,
            },
    {
        if self.curr_pipeline.is_none() {
            return Err(Error::PreconditionViolation);
        }
        let mut commands: Vec<Command> = Vec::new();
        if self.idx_buffer_set {
            commands.push(
                Command::DrawElementsInstanced {
                    mode: gl::TRIANGLES,
                    count,
                    element_type: gl::UNSIGNED_SHORT,
                    byte_offset: start * 2,
                    instances,
                },
            );
        } else {
            commands.push(
                Command::DrawArraysInstanced { mode: gl::TRIANGLES, first: start, count, instances },
            );
        }
        Ok(commands)
    }

    /// Begins the default pass: `Nothing` issues no command; `Clear` sets
    /// each supplied component's clear value and clears exactly the union of
    /// their flags.
    pub fn begin_default_pass(&self, action: PassAction) -> (commands: Vec<Command>)
        ensures
            commands@ == pass_commands(action),
    {
        let mut commands: Vec<Command> = Vec::new();
        match action {
            PassAction::Nothing => {
                proof {
                    assert(commands@ =~= pass_commands(action));
                }
            },
            PassAction::Clear { color, depth, stencil } => {
                match color {
                    Some(c) => {
                        let (red, green, blue, alpha) = c;
                        commands.push(Command::ClearColor { red, green, blue, alpha });
                    },
                    None => {},
                }
                match depth {
                    Some(depth_value) => {
                        commands.push(Command::ClearDepth { depth: depth_value });
                    },
                    None => {},
                }
                match stencil {
                    Some(stencil_value) => {
                        commands.push(Command::ClearStencil { stencil: stencil_value });
                    },
                    None => {},
                }
                let mask_color: u32 = if color.is_some() {
                    gl::COLOR_BUFFER_BIT
                } else {
                    0
                };
                let mask_depth: u32 = if depth.is_some() {
                    gl::DEPTH_BUFFER_BIT
                } else {
                    0
                };
                let mask_stencil: u32 = if stencil.is_some() {
                    gl::STENCIL_BUFFER_BIT
                } else {
                    0
                };
                commands.push(Command::Clear { mask: mask_color | mask_depth | mask_stencil });
                proof {
                    assert(commands@ =~= pass_commands(action));
                }
            },
        }
        commands
    }

    /// Ends the render pass, restoring the default framebuffer binding
    /// captured at context creation.
    pub fn end_render_pass(&self) -> (commands: Vec<Command>)
        ensures
            commands@ == seq![
                Command::BindFramebuffer {
                    target: gl::FRAMEBUFFER,
                    framebuffer: self.default_framebuffer,
                },
            ],
    {
        let mut commands: Vec<Command> = Vec::new();
        commands.push(
            Command::BindFramebuffer {
                target: gl::FRAMEBUFFER,
                framebuffer: self.default_framebuffer,
            },
        );
        commands
    }

    /// Commits the frame: unbinds the raw vertex and index buffer slots and
    /// always resets the current-pipeline and index-buffer state, whatever
    /// was drawn.
    pub fn commit_frame(&mut self) -> (commands: Vec<Command>)
        requires
            old(self).wf(),
        ensures
            final(self).wf(),
            final(self).curr_pipeline is None,
            !final(self).idx_buffer_set,
            final(self).pipelines@ == old(self).pipelines@,
            final(self).default_framebuffer == old(self).default_framebuffer,
            commands@ == seq![
                Command::BindBuffer { target: gl::ARRAY_BUFFER, buffer: None },
                Command::BindBuffer { target: gl::ELEMENT_ARRAY_BUFFER, buffer: None },
            ],
    {
        self.curr_pipeline = None;
        self.idx_buffer_set = false;
        let mut commands: Vec<Command> = Vec::new();
        commands.push(Command::BindBuffer { target: gl::ARRAY_BUFFER, buffer: None });
        commands.push(Command::BindBuffer { target: gl::ELEMENT_ARRAY_BUFFER, buffer: None });
        commands
    }

    /// Sets the viewport rectangle.
    pub fn set_viewport(&self, x: u32, y: u32, width: u32, height: u32) -> (commands: Vec<Command>)
        ensures
            commands@ == seq![Command::Viewport { x, y, width, height }],
    {
        let mut commands: Vec<Command> = Vec::new();
        commands.push(Command::Viewport { x, y, width, height });
        commands
    }

    /// Enables blending and configures the same equation and factors for the
    /// color and alpha channels.
    pub fn set_blend(&self, state: BlendState) -> (commands: Vec<Command>)
        ensures
            commands@ == blend_commands(state, state),
    {
        self.set_blend_separate(state, state)
    }

    /// Enables blending and configures the equation and factors separately
    /// for the color and alpha channels.
    pub fn set_blend_separate(&self, color: BlendState, alpha: BlendState) -> (commands: Vec<
        Command,
    >)
        ensures
            commands@ == blend_commands(color, alpha),
    {
        let mut commands: Vec<Command> = Vec::new();
        commands.push(Command::Enable { capability: gl::BLEND });
        commands.push(
            Command::BlendEquationSeparate {
                color_op: gl_blend_op(color.op),
                alpha_op: gl_blend_op(alpha.op),
            },
        );
        commands.push(
            Command::BlendFuncSeparate {
                source_color: gl_blend_factor(color.source),
                dest_color: gl_blend_factor(color.dest),
                source_alpha: gl_blend_factor(alpha.source),
                dest_alpha: gl_blend_factor(alpha.dest),
            },
        );
        proof {
            assert(commands@ =~= blend_commands(color, alpha));
        }
        commands
    }

    /// Binds each supplied buffer to its slot in the current pipeline's
    /// attribute schedule and re-issues every resolved attribute's location,
    /// format, offset, stride and divisor.  Fails when no pipeline is
    /// current or fewer buffers than slots are supplied.
    pub fn set_vertex_buffers(&self, buffers: &[Buffer]) -> (r: Result<Vec<Command>, Error>)
        requires
            self.wf(),
        ensures
            match r {
                Ok(commands) => self.curr_pipeline matches Some(p) && {
                    let rows = self.pipelines@[p as int].attrs@;
                    &&& buffers@.len() >= rows.len()
                    &&& commands@ == vertex_bind_commands(rows, buffers@, rows.len() as int)
                },
                Err(e) => {
                    &&& e == Error::PreconditionViolation
                    &&& (self.curr_pipeline is None || buffers@.len() < self.pipelines@[
                        self.curr_pipeline->0 as int
                    ].attrs@.len())
                },
            },
    {
        let p = match self.curr_pipeline {
            Some(p) => p,
            None => {
                return Err(Error::PreconditionViolation);
            },
        };
        let entry = &self.pipelines[p];
        if buffers.len() < entry.attrs.len() {
            return Err(Error::PreconditionViolation);
        }
        let mut commands: Vec<Command> = Vec::new();
        let mut s: usize = 0;
        while s < entry.attrs.len()
            invariant
                buffers@.len() >= entry.attrs@.len(),
                s <= entry.attrs@.len(),
                commands@ == vertex_bind_commands(entry.attrs@, buffers@, s as int),
            decreases entry.attrs@.len() - s,
        {
            commands.push(
                Command::BindBuffer { target: gl::ARRAY_BUFFER, buffer: Some(buffers[s].id) },
            );
            let ghost prefix = commands@;
            let row = &entry.attrs[s];
            let mut k: usize = 0;
            while k < row.len()
                invariant
                    k <= row@.len(),
                    s < entry.attrs@.len(),
                    row@ == entry.attrs@[s as int]@,
                    buffers@.len() >= entry.attrs@.len(),
                    prefix == vertex_bind_commands(entry.attrs@, buffers@, s as int) + seq![
                        Command::BindBuffer {
                            target: gl::ARRAY_BUFFER,
                            buffer: Some(buffers@[s as int].id),
                        },
                    ],
                    commands@ == prefix + attr_row_commands(row@, k as int),
                decreases row@.len() - k,
            {
                let attr = row[k];
                commands.push(Command::EnableVertexAttribArray { location: attr.location });
                commands.push(
                    Command::VertexAttribPointer {
                        location: attr.location,
                        size: attr.size,
                        format: attr.format,
                        stride: attr.stride,
                        offset: attr.offset,
                    },
                );
                commands.push(
                    Command::VertexAttribDivisor { location: attr.location, divisor: attr.divisor },
                );
                proof {
                    assert(commands@ =~= prefix + attr_row_commands(row@, k as int + 1));
                }
                k += 1;
            }
            proof {
                assert(commands@ =~= vertex_bind_commands(entry.attrs@, buffers@, s as int + 1));
            }
            s += 1;
        }
        Ok(commands)
    }

    /// Binds a single vertex buffer, as a one-element `set_vertex_buffers`.
    pub fn set_vertex_buffer(&self, buffer: &Buffer) -> (r: Result<Vec<Command>, Error>)
        requires
            self.wf(),
        ensures
            match r {
                Ok(commands) => self.curr_pipeline matches Some(p) && {
                    let rows = self.pipelines@[p as int].attrs@;
                    &&& rows.len() <= 1
                    &&& commands@ == vertex_bind_commands(rows, seq![*buffer], rows.len() as int)
                },
                Err(e) => {
                    &&& e == Error::PreconditionViolation
                    &&& (self.curr_pipeline is None || self.pipelines@[
                        self.curr_pipeline->0 as int
                    ].attrs@.len() > 1)
                },
            },
    {
        let mut list: Vec<Buffer> = Vec::new();
        list.push(*buffer);
        proof {
            assert(list@ =~= seq![*buffer]);
        }
        self.set_vertex_buffers(list.as_slice())
    }

    /// Walks the current shader's uniforms in declaration order,
    /// interpreting successive byte ranges of `data` as each uniform's
    /// packed value, and issues one typed upload per uniform.  Fails when no
    /// pipeline is current or `data` is shorter than the declared layout.
    pub fn set_uniforms(&self, data: &[u8]) -> (r: Result<Vec<Command>, Error>)
        requires
            self.wf(),
        ensures
            match r {
                Ok(commands) => self.curr_pipeline matches Some(p) && {
                    let us = self.pipelines@[p as int].shader.uniforms@;
                    &&& uniform_prefix_bytes(us, us.len() as int) <= data@.len()
                    &&& commands@.len() == us.len()
                    &&& forall|i: int|
                        0 <= i < us.len() ==> ((#[trigger] commands@[i]) matches Command::SetUniform {
                            location,
                            format,
                            data: chunk,
                        } && {
                            &&& location == us[i].location
                            &&& format == us[i].format
                            &&& chunk@ == data@.subrange(
                                uniform_prefix_bytes(us, i),
                                uniform_prefix_bytes(us, i + 1),
                            )
                        })
                },
                Err(e) => {
                    &&& e == Error::PreconditionViolation
                    &&& (self.curr_pipeline is None || {
                        let us = self.pipelines@[self.curr_pipeline->0 as int].shader.uniforms@;
                        uniform_prefix_bytes(us, us.len() as int) > data@.len()
                    })
                },
            },
    {
        let p = match self.curr_pipeline {
            Some(p) => p,
            None => {
                return Err(Error::PreconditionViolation);
            },
        };
        let shader = &self.pipelines[p].shader;
        let mut commands: Vec<Command> = Vec::new();
        let mut cursor: usize = 0;
        let mut i: usize = 0;
        while i < shader.uniforms.len()
            invariant
                self.curr_pipeline == Some(p),
                p < self.pipelines@.len(),
                shader.uniforms@ == self.pipelines@[p as int].shader.uniforms@,
                i <= shader.uniforms@.len(),
                cursor == uniform_prefix_bytes(shader.uniforms@, i as int),
                cursor <= data@.len(),
                commands@.len() == i,
                forall|j: int|
                    0 <= j < i ==> ((#[trigger] commands@[j]) matches Command::SetUniform {
                        location,
                        format,
                        data: chunk,
                    } && {
                        &&& location == shader.uniforms@[j].location
                        &&& format == shader.uniforms@[j].format
                        &&& chunk@ == data@.subrange(
                            uniform_prefix_bytes(shader.uniforms@, j),
                            uniform_prefix_bytes(shader.uniforms@, j + 1),
                        )
                    }),
            decreases shader.uniforms@.len() - i,
        {
            let u = shader.uniforms[i];
            let size = uniform_format_byte_size(u.format);
            if data.len() - cursor < size {
                proof {
                    lemma_uniform_prefix_monotone(
                        shader.uniforms@,
                        i as int + 1,
                        shader.uniforms@.len() as int,
                    );
                }
                return Err(Error::PreconditionViolation);
            }
            let mut chunk: Vec<u8> = Vec::new();
            let mut j: usize = 0;
            while j < size
                invariant
                    j <= size,
                    chunk@.len() == j,
                    cursor + size <= data@.len(),
                    cursor + size <= usize::MAX,
                    forall|t: int| 0 <= t < j ==> chunk@[t] == data@[cursor + t],
                decreases size - j,
            {
                chunk.push(data[cursor + j]);
                j += 1;
            }
            proof {
                assert(chunk@ =~= data@.subrange(cursor as int, cursor as int + size as int));
            }
            commands.push(Command::SetUniform { location: u.location, format: u.format, data: chunk });
            cursor = cursor + size;
            i += 1;
        }
        Ok(commands)
    }

    /// Binds each image to the texture unit matching its declaration index
    /// and points the corresponding sampler uniform at that unit.  Fails
    /// when no pipeline is current or fewer images than declared samplers
    /// are supplied.
    pub fn set_images(&self, images: &[Image]) -> (r: Result<Vec<Command>, Error>)
        requires
            self.wf(),
        ensures
            match r {
                Ok(commands) => self.curr_pipeline matches Some(p) && {
                    let ius = self.pipelines@[p as int].shader.image_uniforms@;
                    &&& images@.len() >= ius.len()
                    &&& commands@ == image_bind_commands(ius, images@, ius.len() as int)
                },
                Err(e) => {
                    &&& e == Error::PreconditionViolation
                    &&& (self.curr_pipeline is None || images@.len() < self.pipelines@[
                        self.curr_pipeline->0 as int
                    ].shader.image_uniforms@.len())
                },
            },
    {
        let p = match self.curr_pipeline {
            Some(p) => p,
            None => {
                return Err(Error::PreconditionViolation);
            },
        };
        let shader = &self.pipelines[p].shader;
        if images.len() < shader.image_uniforms.len() {
            return Err(Error::PreconditionViolation);
        }
        let mut commands: Vec<Command> = Vec::new();
        let mut i: usize = 0;
        while i < shader.image_uniforms.len()
            invariant
                shader.image_uniforms@ == self.pipelines@[p as int].shader.image_uniforms@,
                shader.image_uniforms@.len() <= 0x7FFF_FFFF,
                images@.len() >= shader.image_uniforms@.len(),
                i <= shader.image_uniforms@.len(),
                commands@ == image_bind_commands(shader.image_uniforms@, images@, i as int),
            decreases shader.image_uniforms@.len() - i,
        {
            commands.push(Command::ActiveTexture { unit: gl::TEXTURE0 + (i as u32) });
            commands.push(
                Command::BindTexture { target: gl::TEXTURE_2D, texture: Some(images[i].id) },
            );
            commands.push(
                Command::Uniform1Int {
                    location: shader.image_uniforms[i].location,
                    value: i as i32,
                },
            );
            proof {
                assert(commands@ =~= image_bind_commands(
                    shader.image_uniforms@,
                    images@,
                    i as int + 1,
                ));
            }
            i += 1;
        }
        Ok(commands)
    }

    /// Creates a buffer of `size` uninitialized bytes; `id` is the backend's
    /// allocation outcome.  See [`Buffer::new`].
    pub fn create_buffer(
        &self,
        id: Option<u32>,
        kind: BufferKind,
        usage: BufferUsage,
        size: usize,
    ) -> (r: Result<(Buffer, Vec<Command>), Error>)
        requires
            usage != BufferUsage::Static,
        ensures
            buffer_new_spec(id, kind, usage, size, r),
    {
        Buffer::new(id, kind, usage, size)
    }

    /// Creates a buffer seeded with `data`; `id` is the backend's allocation
    /// outcome.  See [`Buffer::with_data`].
    pub fn create_buffer_with_data(
        &self,
        id: Option<u32>,
        kind: BufferKind,
        usage: BufferUsage,
        data: Vec<u8>,
    ) -> (r: Result<(Buffer, Vec<Command>), Error>)
        ensures
            buffer_with_data_spec(id, kind, usage, data, r),
    {
        Buffer::with_data(id, kind, usage, data)
    }

    /// Creates an uninitialized image; `id` is the backend's allocation
    /// outcome.  See [`Image::new`].
    pub fn create_image(
        &self,
        id: Option<u32>,
        width: u32,
        height: u32,
        format: ImageFormat,
        filter: ImageFilter,
        wrap: ImageWrap,
    ) -> (r: Result<(Image, Vec<Command>), Error>)
        ensures
            image_new_spec(id, width, height, format, filter, wrap, None, r),
    {
        Image::new(id, width, height, format, filter, wrap)
    }

    /// Creates an image seeded with `data`; `id` is the backend's allocation
    /// outcome.  See [`Image::with_data`].
    pub fn create_image_with_data(
        &self,
        id: Option<u32>,
        width: u32,
        height: u32,
        format: ImageFormat,
        filter: ImageFilter,
        wrap: ImageWrap,
        data: Vec<u8>,
    ) -> (r: Result<(Image, Vec<Command>), Error>)
        requires
            data@.len() == width as int * height as int * bytes_per_pixel(format),
        ensures
            image_new_spec(id, width, height, format, filter, wrap, Some(data), r),
    {
        Image::with_data(id, width, height, format, filter, wrap, data)
    }

    /// Creates a shader from the backend's program outcome and reported
    /// locations.  See [`Shader::new`].
    pub fn create_shader(
        &self,
        outcome: ProgramOutcome,
        uniforms: &[Uniform],
        images: &[ImageUniform],
        uniform_locations: &[Option<u32>],
        image_locations: &[Option<u32>],
    ) -> (r: Result<Shader, Error>)
        requires
            uniform_locations@.len() == uniforms@.len(),
            image_locations@.len() == images@.len(),
            images@.len() <= 0x7FFF_FFFF,
        ensures
            shader_new_spec(outcome, uniforms@, images@, uniform_locations@, image_locations@, r),
    {
        Shader::new(outcome, uniforms, images, uniform_locations, image_locations)
    }

    /// Compiles a pipeline and appends it to the registry, returning its
    /// handle.  `locations` holds the backend attribute location reported
    /// for each attribute's name, in the same order; a missing one fails the
    /// whole call with `AttributeNotFound`, naming the first such attribute,
    /// and leaves the context unchanged.
    pub fn create_pipeline(
        &mut self,
        shader: Shader,
        buffers: &[BufferLayout],
        attrs: &[VertexAttribute],
        locations: &[Option<u32>],
    ) -> (r: Result<Pipeline, Error>)
        requires
            old(self).wf(),
            locations@.len() == attrs@.len(),
            layout_inputs_ok(buffers@, attrs@),
            shader.image_uniforms@.len() <= 0x7FFF_FFFF,
            old(self).pipelines@.len() < usize::MAX,
        ensures
            final(self).wf(),
            final(self).curr_pipeline == old(self).curr_pipeline,
            final(self).idx_buffer_set == old(self).idx_buffer_set,
            final(self).default_framebuffer == old(self).default_framebuffer,
            match r {
                Ok(pipeline) => {
                    &&& all_locations_found(locations@)
                    &&& pipeline.id == old(self).pipelines@.len()
                    &&& final(self).pipelines@.len() == old(self).pipelines@.len() + 1
                    &&& forall|i: int|
                        0 <= i < old(self).pipelines@.len() ==> final(self).pipelines@[i] == old(
                            self,
                        ).pipelines@[i]
                    &&& final(self).pipelines@[pipeline.id as int].shader == shader
                    &&& final(self).pipelines@[pipeline.id as int].attrs@.len() == buffers@.len()
                    &&& forall|s: int|
                        0 <= s < buffers@.len() ==> final(self).pipelines@[
                            pipeline.id as int
                        ].attrs@[s]@ == slot_schedule(
                            buffers@,
                            attrs@,
                            location_values(locations@),
                            s,
                            attrs@.len() as int,
                        )
                },
                Err(e) => {
                    &&& *final(self) == *old(self)
                    &&& !all_locations_found(locations@)
                    &&& exists|j: int|
                        #![trigger locations@[j]]
                        {
                            &&& 0 <= j < locations@.len()
                            &&& locations@[j] is None
                            &&& forall|i: int| 0 <= i < j ==> locations@[i] is Some
                            &&& e == (Error::AttributeNotFound { name: attrs@[j].name })
                        }
                },
            },
    {
        let mut found: Vec<u32> = Vec::new();
        let mut k: usize = 0;
        while k < locations.len()
            invariant
                *self == *old(self),
                old(self).wf(),
                locations@.len() == attrs@.len(),
                k <= locations@.len(),
                found@.len() == k,
                forall|t: int| 0 <= t < k ==> (#[trigger] locations@[t]) is Some,
                forall|t: int| 0 <= t < k ==> (#[trigger] found@[t]) == locations@[t]->0,
            decreases locations@.len() - k,
        {
            match locations[k] {
                Some(location) => {
                    found.push(location);
                },
                None => {
                    let e = Error::AttributeNotFound { name: attrs[k].name };
                    proof {
                        let j = k as int;
                        assert(0 <= j < locations@.len());
                        assert(locations@[j] is None);
                        assert(forall|i: int| 0 <= i < j ==> locations@[i] is Some);
                        assert(e == (Error::AttributeNotFound { name: attrs@[j].name }));
                    }
                    return Err(e);
                },
            }
            k += 1;
        }
        proof {
            assert(found@ =~= location_values(locations@));
        }
        let resolved = resolve_attributes(buffers, attrs, found.as_slice());
        let id = self.pipelines.len();
        self.pipelines.push(PipelineInternal { attrs: resolved, shader });
        Ok(Pipeline { id })
    }
}

} // verus!
