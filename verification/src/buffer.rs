//! GPU buffer handles and their creation and update commands.

use vstd::prelude::*;

use crate::command::Command;
use crate::error::Error;
use crate::gl;

verus! {

/// Kinds of a GPU buffer.
#[derive(Debug, Clone, Copy, PartialEq, Eq, Structural)]
pub enum BufferKind {
    /// A vertex buffer.
    Vertex,
    /// An index buffer.
    Index,
}

/// Usage hints for a GPU buffer.
#[derive(Debug, Clone, Copy, PartialEq, Eq, Structural)]
pub enum BufferUsage {
    /// The contents of the buffer will be set once and then used many times.
    Static,
    /// The contents of the buffer will be modified repeatedly and then used
    /// many times.
    Dynamic,
    /// The contents of the buffer will be modified repeatedly and then used at
    /// most a few times.
    Stream,
}

/// A GPU buffer: its backend object name, kind, and byte capacity.  The
/// capacity is fixed at creation; updates must stay within it.
#[derive(Debug, Clone, Copy, PartialEq, Eq, Structural)]
pub struct Buffer {
    /// The backend buffer object name.
    pub id: u32,
    /// Whether the buffer holds vertices or indices.
    pub kind: BufferKind,
    /// The byte capacity fixed at creation.
    pub size: usize,
}

/// The backend binding target of a buffer kind.
pub open spec fn buffer_target(kind: BufferKind) -> u32 {
    match kind {
        BufferKind::Vertex => gl::ARRAY_BUFFER,
        BufferKind::Index => gl::ELEMENT_ARRAY_BUFFER,
    }
}

/// The backend code of a usage hint.
pub open spec fn buffer_usage_code(usage: BufferUsage) -> u32 {
    match usage {
        BufferUsage::Static => gl::STATIC_DRAW,
        BufferUsage::Dynamic => gl::DYNAMIC_DRAW,
        BufferUsage::Stream => gl::STREAM_DRAW,
    }
}

/// Computes the backend binding target of a buffer kind.
pub fn gl_buffer_target(kind: BufferKind) -> (r: u32)
    ensures
        r == buffer_target(kind),
{
    match kind {
        BufferKind::Vertex => gl::ARRAY_BUFFER,
        BufferKind::Index => gl::ELEMENT_ARRAY_BUFFER,
    }
}

/// Computes the backend code of a usage hint.
pub fn gl_buffer_usage(usage: BufferUsage) -> (r: u32)
    ensures
        r == buffer_usage_code(usage),
{
    match usage {
        BufferUsage::Static => gl::STATIC_DRAW,
        BufferUsage::Dynamic => gl::DYNAMIC_DRAW,
        BufferUsage::Stream => gl::STREAM_DRAW,
    }
}

/// The contract of sized buffer creation: a missing backend id fails with
/// `ResourceCreationFailed`; otherwise the handle keeps the id, kind and
/// capacity, and the commands bind the buffer and allocate its storage.
pub open spec fn buffer_new_spec(
    id: Option<u32>,
    kind: BufferKind,
    usage: BufferUsage,
    size: usize,
    r: Result<(Buffer, Vec<Command>), Error>,
) -> bool {
    match r {
        Ok((buffer, commands)) => {
            &&& id is Some
            &&& buffer == (Buffer { id: id->0, kind, size })
            &&& commands@ == seq![
                Command::BindBuffer { target: buffer_target(kind), buffer: Some(id->0) },
                Command::BufferData {
                    target: buffer_target(kind),
                    size,
                    usage: buffer_usage_code(usage),
                },
            ]
        },
        Err(e) => id is None && e == Error::ResourceCreationFailed,
    }
}

/// The contract of seeded buffer creation: as [`buffer_new_spec`], but the
/// capacity is the data's length and the commands upload the data.
pub open spec fn buffer_with_data_spec(
    id: Option<u32>,
    kind: BufferKind,
    usage: BufferUsage,
    data: Vec<u8>,
    r: Result<(Buffer, Vec<Command>), Error>,
) -> bool {
    match r {
        Ok((buffer, commands)) => {
            &&& id is Some
            &&& buffer == (Buffer { id: id->0, kind, size: data@.len() as usize })
            &&& commands@ == seq![
                Command::BindBuffer { target: buffer_target(kind), buffer: Some(id->0) },
                Command::BufferDataSlice {
                    target: buffer_target(kind),
                    data,
                    usage: buffer_usage_code(usage),
                },
            ]
        },
        Err(e) => id is None && e == Error::ResourceCreationFailed,
    }
}

impl Buffer {
    /// Builds a buffer of `size` uninitialized bytes from the backend's
    /// allocation outcome `id`.  Static buffers must be created with data,
    /// so that usage is excluded up front.
    pub fn new(id: Option<u32>, kind: BufferKind, usage: BufferUsage, size: usize) -> (r: Result<
        (Buffer, Vec<Command>),
        Error,
    >)
        requires
            usage != BufferUsage::Static,
        ensures
            buffer_new_spec(id, kind, usage, size, r),
    {
        let backend_id = match id {
            Some(backend_id) => backend_id,
            None => {
                return Err(Error::ResourceCreationFailed);
            },
        };
        let target = gl_buffer_target(kind);
        let mut commands: Vec<Command> = Vec::new();
        commands.push(Command::BindBuffer { target, buffer: Some(backend_id) });
        commands.push(Command::BufferData { target, size, usage: gl_buffer_usage(usage) });
        proof {
            assert(commands@ =~= seq![
                Command::BindBuffer { target: buffer_target(kind), buffer: Some(id->0) },
                Command::BufferData {
                    target: buffer_target(kind),
                    size,
                    usage: buffer_usage_code(usage),
                },
            ]);
        }
        Ok((Buffer { id: backend_id, kind, size }, commands))
    }

    /// Builds a buffer seeded with `data` from the backend's allocation
    /// outcome `id`; the byte capacity is the length of `data`.
    pub fn with_data(id: Option<u32>, kind: BufferKind, usage: BufferUsage, data: Vec<u8>) -> (r:
        Result<(Buffer, Vec<Command>), Error>)
        ensures
            buffer_with_data_spec(id, kind, usage, data, r),
    {
        let backend_id = match id {
            Some(backend_id) => backend_id,
            None => {
                return Err(Error::ResourceCreationFailed);
            },
        };
        let size = data.len();
        let target = gl_buffer_target(kind);
        let usage_code = gl_buffer_usage(usage);
        let mut commands: Vec<Command> = Vec::new();
        commands.push(Command::BindBuffer { target, buffer: Some(backend_id) });
        commands.push(Command::BufferDataSlice { target, data, usage: usage_code });
        proof {
            assert(commands@ =~= seq![
                Command::BindBuffer { target: buffer_target(kind), buffer: Some(id->0) },
                Command::BufferDataSlice {
                    target: buffer_target(kind),
                    data,
                    usage: buffer_usage_code(usage),
                },
            ]);
        }
        Ok((Buffer { id: backend_id, kind, size }, commands))
    }

    /// Computes the commands that overwrite the start of the buffer with the
    /// given data, which must not exceed the buffer's capacity.
    pub fn update(&self, data: Vec<u8>) -> (commands: Vec<Command>)
        requires
            data@.len() <= self.size,
        ensures
            commands@ == seq![
                Command::BindBuffer { target: buffer_target(self.kind), buffer: Some(self.id) },
                Command::BufferSubData { target: buffer_target(self.kind), offset: 0, data },
            ],
    {
        let target = gl_buffer_target(self.kind);
        let mut commands: Vec<Command> = Vec::new();
        commands.push(Command::BindBuffer { target, buffer: Some(self.id) });
        commands.push(Command::BufferSubData { target, offset: 0, data });
        commands
    }

    /// Returns the size of the buffer in bytes.
    pub fn size(&self) -> (r: usize)
        ensures
            r == self.size,
    {
        self.size
    }
}

} // verus!
