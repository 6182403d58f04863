//! GPU image handles and their creation and update commands.

use vstd::prelude::*;

use crate::command::Command;
use crate::error::Error;
use crate::gl;

verus! {

/// Formats of a GPU image.
#[derive(Debug, Clone, Copy, PartialEq, Eq, Structural)]
pub enum ImageFormat {
    Rgb8,
    Rgba8,
}

/// Filter modes for a GPU image.
#[derive(Debug, Clone, Copy, PartialEq, Eq, Structural)]
pub enum ImageFilter {
    /// Nearest neighbor interpolation.
    Nearest,
    /// Linear interpolation.
    Linear,
}

/// Wrapping modes for a GPU image.
#[derive(Debug, Clone, Copy, PartialEq, Eq, Structural)]
pub enum ImageWrap {
    /// Clamps sampling to the bounds of the image.
    Clamp,
    /// Repeats the image.
    Repeat,
}

/// A GPU image: its backend object name, extent, and backend pixel codes.
/// Format and extent are immutable after creation; partial updates must stay
/// within bounds.
#[derive(Debug, Clone, Copy, PartialEq, Eq, Structural)]
pub struct Image {
    /// The backend texture object name.
    pub id: u32,
    /// The width in pixels.
    pub width: u32,
    /// The height in pixels.
    pub height: u32,
    /// The backend pixel format code.
    pub format: u32,
    /// The backend component type code.
    pub kind: u32,
}

/// The backend pixel format code of an image format.
pub open spec fn image_format_code(format: ImageFormat) -> u32 {
    match format {
        ImageFormat::Rgb8 => gl::RGB,
        ImageFormat::Rgba8 => gl::RGBA,
    }
}

/// The backend component type code of an image format.
pub open spec fn image_kind_code(format: ImageFormat) -> u32 {
    match format {
        ImageFormat::Rgb8 => gl::UNSIGNED_BYTE,
        ImageFormat::Rgba8 => gl::UNSIGNED_BYTE,
    }
}

/// The backend code of a filter mode.
pub open spec fn image_filter_code(filter: ImageFilter) -> u32 {
    match filter {
        ImageFilter::Nearest => gl::NEAREST,
        ImageFilter::Linear => gl::LINEAR,
    }
}

/// The backend code of a wrapping mode.
pub open spec fn image_wrap_code(wrap: ImageWrap) -> u32 {
    match wrap {
        ImageWrap::Clamp => gl::CLAMP_TO_EDGE,
        ImageWrap::Repeat => gl::REPEAT,
    }
}

/// Bytes per pixel of an image format.
pub open spec fn bytes_per_pixel(format: ImageFormat) -> int {
    match format {
        ImageFormat::Rgb8 => 3,
        ImageFormat::Rgba8 => 4,
    }
}

/// Bytes per pixel, from a backend pixel format code.
pub open spec fn code_bytes_per_pixel(format: u32) -> int {
    if format == gl::RGB {
        3
    } else {
        4
    }
}

/// The commands that allocate and parameterize a 2D image: bind, allocate
/// (optionally seeded with pixels), build mipmaps, then set both filters and
/// both wrap modes.
pub open spec fn image_setup_commands(
    id: u32,
    width: u32,
    height: u32,
    format: ImageFormat,
    filter: ImageFilter,
    wrap: ImageWrap,
    data: Option<Vec<u8>>,
) -> Seq<Command> {
    seq![
        Command::BindTexture { target: gl::TEXTURE_2D, texture: Some(id) },
        Command::TexImage2D {
            target: gl::TEXTURE_2D,
            internal_format: image_format_code(format),
            width,
            height,
            format: image_format_code(format),
            kind: image_kind_code(format),
            data,
        },
        Command::GenerateMipmap { target: gl::TEXTURE_2D },
        Command::TexParameter {
            target: gl::TEXTURE_2D,
            parameter: gl::TEXTURE_MIN_FILTER,
            value: image_filter_code(filter),
        },
        Command::TexParameter {
            target: gl::TEXTURE_2D,
            parameter: gl::TEXTURE_MAG_FILTER,
            value: image_filter_code(filter),
        },
        Command::TexParameter {
            target: gl::TEXTURE_2D,
            parameter: gl::TEXTURE_WRAP_S,
            value: image_wrap_code(wrap),
        },
        Command::TexParameter {
            target: gl::TEXTURE_2D,
            parameter: gl::TEXTURE_WRAP_T,
            value: image_wrap_code(wrap),
        },
    ]
}

/// The contract of image creation: a missing backend id fails with
/// `ResourceCreationFailed`; otherwise the handle keeps the id, extent and
/// backend codes, and the commands allocate and parameterize the image,
/// seeded with `data` when given.
pub open spec fn image_new_spec(
    id: Option<u32>,
    width: u32,
    height: u32,
    format: ImageFormat,
    filter: ImageFilter,
    wrap: ImageWrap,
    data: Option<Vec<u8>>,
    r: Result<(Image, Vec<Command>), Error>,
) -> bool {
    match r {
        Ok((image, commands)) => {
            &&& id is Some
            &&& image == (Image {
                id: id->0,
                width,
                height,
                format: image_format_code(format),
                kind: image_kind_code(format),
            })
            &&& commands@ == image_setup_commands(id->0, width, height, format, filter, wrap, data)
        },
        Err(e) => id is None && e == Error::ResourceCreationFailed,
    }
}

impl Image {
    /// Builds an uninitialized image from the backend's allocation outcome
    /// `id` and the declared extent, format, filter and wrap modes.
    pub fn new(
        id: Option<u32>,
        width: u32,
        height: u32,
        format: ImageFormat,
        filter: ImageFilter,
        wrap: ImageWrap,
    ) -> (r: Result<(Image, Vec<Command>), Error>)
        ensures
            image_new_spec(id, width, height, format, filter, wrap, None, r),
    {
        let backend_id = match id {
            Some(backend_id) => backend_id,
            None => {
                return Err(Error::ResourceCreationFailed);
            },
        };
        let commands = Self::setup_commands(backend_id, width, height, format, filter, wrap, None);
        let format_code = gl_image_format(format);
        let kind_code = gl_image_kind(format);
        Ok((Image { id: backend_id, width, height, format: format_code, kind: kind_code }, commands))
    }

    /// Builds an image seeded with `data`, which must hold exactly
    /// width x height pixels of the declared format.
    pub fn with_data(
        id: Option<u32>,
        width: u32,
        height: u32,
        format: ImageFormat,
        filter: ImageFilter,
        wrap: ImageWrap,
        data: Vec<u8>,
    ) -> (r: Result<(Image, Vec<Command>), Error>)
        requires
            data@.len() == width as int * height as int * bytes_per_pixel(format),
        ensures
            image_new_spec(id, width, height, format, filter, wrap, Some(data), r),
    {
        let backend_id = match id {
            Some(backend_id) => backend_id,
            None => {
                return Err(Error::ResourceCreationFailed);
            },
        };
        let format_code = gl_image_format(format);
        let kind_code = gl_image_kind(format);
        let commands = Self::setup_commands(
            backend_id,
            width,
            height,
            format,
            filter,
            wrap,
            Some(data),
        );
        Ok((Image { id: backend_id, width, height, format: format_code, kind: kind_code }, commands))
    }

    /// Computes the shared creation command list.
    fn setup_commands(
        id: u32,
        width: u32,
        height: u32,
        format: ImageFormat,
        filter: ImageFilter,
        wrap: ImageWrap,
        data: Option<Vec<u8>>,
    ) -> (commands: Vec<Command>)
        ensures
            commands@ == image_setup_commands(id, width, height, format, filter, wrap, data),
    {
        let format_code = gl_image_format(format);
        let kind_code = gl_image_kind(format);
        let filter_code = gl_image_filter(filter);
        let wrap_code = gl_image_wrap(wrap);
        let mut commands: Vec<Command> = Vec::new();
        commands.push(Command::BindTexture { target: gl::TEXTURE_2D, texture: Some(id) });
        commands.push(
            Command::TexImage2D {
                target: gl::TEXTURE_2D,
                internal_format: format_code,
                width,
                height,
                format: format_code,
                kind: kind_code,
                data,
            },
        );
        commands.push(Command::GenerateMipmap { target: gl::TEXTURE_2D });
        commands.push(
            Command::TexParameter {
                target: gl::TEXTURE_2D,
                parameter: gl::TEXTURE_MIN_FILTER,
                value: filter_code,
            },
        );
        commands.push(
            Command::TexParameter {
                target: gl::TEXTURE_2D,
                parameter: gl::TEXTURE_MAG_FILTER,
                value: filter_code,
            },
        );
        commands.push(
            Command::TexParameter {
                target: gl::TEXTURE_2D,
                parameter: gl::TEXTURE_WRAP_S,
                value: wrap_code,
            },
        );
        commands.push(
            Command::TexParameter {
                target: gl::TEXTURE_2D,
                parameter: gl::TEXTURE_WRAP_T,
                value: wrap_code,
            },
        );
        proof {
            assert(commands@ =~= image_setup_commands(id, width, height, format, filter, wrap, data));
        }
        commands
    }

    /// Computes the commands that overwrite the whole image.
    pub fn update(&self, data: Vec<u8>) -> (commands: Vec<Command>)
        requires
            data@.len() == self.width as int * self.height as int * code_bytes_per_pixel(
                self.format,
            ),
        ensures
            commands@ == seq![
                Command::BindTexture { target: gl::TEXTURE_2D, texture: Some(self.id) },
                Command::TexSubImage2D {
                    target: gl::TEXTURE_2D,
                    x: 0,
                    y: 0,
                    width: self.width,
                    height: self.height,
                    format: self.format,
                    kind: self.kind,
                    data,
                },
            ],
    {
        self.update_part(0, 0, self.width, self.height, data)
    }

    /// Computes the commands that overwrite a rectangle of the image, which
    /// must lie within its bounds and come with exactly matching pixel data.
    pub fn update_part(&self, x: u32, y: u32, width: u32, height: u32, data: Vec<u8>) -> (commands:
        Vec<Command>)
        requires
            x as int + width as int <= self.width as int,
            y as int + height as int <= self.height as int,
            data@.len() == width as int * height as int * code_bytes_per_pixel(self.format),
        ensures
            commands@ == seq![
                Command::BindTexture { target: gl::TEXTURE_2D, texture: Some(self.id) },
                Command::TexSubImage2D {
                    target: gl::TEXTURE_2D,
                    x,
                    y,
                    width,
                    height,
                    format: self.format,
                    kind: self.kind,
                    data,
                },
            ],
    {
        let mut commands: Vec<Command> = Vec::new();
        commands.push(Command::BindTexture { target: gl::TEXTURE_2D, texture: Some(self.id) });
        commands.push(
            Command::TexSubImage2D {
                target: gl::TEXTURE_2D,
                x,
                y,
                width,
                height,
                format: self.format,
                kind: self.kind,
                data,
            },
        );
        commands
    }
}

/// Computes the backend pixel format code of an image format.
pub fn gl_image_format(format: ImageFormat) -> (r: u32)
    ensures
        r == image_format_code(format),
{
    match format {
        ImageFormat::Rgb8 => gl::RGB,
        ImageFormat::Rgba8 => gl::RGBA,
    }
}

/// Computes the backend component type code of an image format.
pub fn gl_image_kind(format: ImageFormat) -> (r: u32)
    ensures
        r == image_kind_code(format),
{
    match format {
        ImageFormat::Rgb8 => gl::UNSIGNED_BYTE,
        ImageFormat::Rgba8 => gl::UNSIGNED_BYTE,
    }
}

/// Computes the backend code of a filter mode.
pub fn gl_image_filter(filter: ImageFilter) -> (r: u32)
    ensures
        r == image_filter_code(filter),
{
    match filter {
        ImageFilter::Nearest => gl::NEAREST,
        ImageFilter::Linear => gl::LINEAR,
    }
}

/// Computes the backend code of a wrapping mode.
pub fn gl_image_wrap(wrap: ImageWrap) -> (r: u32)
    ensures
        r == image_wrap_code(wrap),
{
    match wrap {
        ImageWrap::Clamp => gl::CLAMP_TO_EDGE,
        ImageWrap::Repeat => gl::REPEAT,
    }
}

} // verus!
