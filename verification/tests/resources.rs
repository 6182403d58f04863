use fugu::buffer::{Buffer, BufferKind, BufferUsage};
use fugu::command::Command;
use fugu::context::Context;
use fugu::error::Error;
use fugu::image::{Image, ImageFilter, ImageFormat, ImageWrap};
use fugu::shader::{ImageUniform, ProgramOutcome};

const ARRAY_BUFFER: u32 = 0x8892;
const ELEMENT_ARRAY_BUFFER: u32 = 0x8893;
const TEXTURE_2D: u32 = 0x0DE1;
const TEXTURE0: u32 = 0x84C0;

#[test]
fn buffer_creation_binds_and_allocates() {
    let (buffer, commands) =
        Buffer::new(Some(3), BufferKind::Vertex, BufferUsage::Dynamic, 128).unwrap();
    assert_eq!(buffer.id, 3);
    assert_eq!(buffer.size(), 128);
    assert_eq!(
        commands,
        vec![
            Command::BindBuffer { target: ARRAY_BUFFER, buffer: Some(3) },
            Command::BufferData { target: ARRAY_BUFFER, size: 128, usage: 0x88E8 },
        ]
    );
}

#[test]
fn buffer_creation_without_backend_id_fails() {
    assert_eq!(
        Buffer::new(None, BufferKind::Vertex, BufferUsage::Stream, 16),
        Err(Error::ResourceCreationFailed)
    );
}

#[test]
fn index_buffer_with_data_uploads_and_sizes_from_data() {
    let data: Vec<u8> = vec![0, 1, 2, 3, 4, 5];
    let (buffer, commands) =
        Buffer::with_data(Some(9), BufferKind::Index, BufferUsage::Static, data.clone()).unwrap();
    assert_eq!(buffer.size(), 6);
    assert_eq!(
        commands,
        vec![
            Command::BindBuffer { target: ELEMENT_ARRAY_BUFFER, buffer: Some(9) },
            Command::BufferDataSlice { target: ELEMENT_ARRAY_BUFFER, data, usage: 0x88E4 },
        ]
    );
}

#[test]
fn buffer_update_writes_from_the_start() {
    let (buffer, _) = Buffer::new(Some(3), BufferKind::Vertex, BufferUsage::Stream, 16).unwrap();
    let data: Vec<u8> = vec![7, 8, 9];
    assert_eq!(
        buffer.update(data.clone()),
        vec![
            Command::BindBuffer { target: ARRAY_BUFFER, buffer: Some(3) },
            Command::BufferSubData { target: ARRAY_BUFFER, offset: 0, data },
        ]
    );
}

#[test]
fn image_creation_allocates_and_parameterizes() {
    let (image, commands) =
        Image::new(Some(4), 8, 4, ImageFormat::Rgba8, ImageFilter::Linear, ImageWrap::Repeat)
            .unwrap();
    assert_eq!(image.id, 4);
    assert_eq!((image.width, image.height), (8, 4));
    assert_eq!(image.format, 0x1908);
    assert_eq!(image.kind, 0x1401);
    assert_eq!(
        commands,
        vec![
            Command::BindTexture { target: TEXTURE_2D, texture: Some(4) },
            Command::TexImage2D {
                target: TEXTURE_2D,
                internal_format: 0x1908,
                width: 8,
                height: 4,
                format: 0x1908,
                kind: 0x1401,
                data: None,
            },
            Command::GenerateMipmap { target: TEXTURE_2D },
            Command::TexParameter { target: TEXTURE_2D, parameter: 0x2801, value: 0x2601 },
            Command::TexParameter { target: TEXTURE_2D, parameter: 0x2800, value: 0x2601 },
            Command::TexParameter { target: TEXTURE_2D, parameter: 0x2802, value: 0x2901 },
            Command::TexParameter { target: TEXTURE_2D, parameter: 0x2803, value: 0x2901 },
        ]
    );
}

#[test]
fn image_with_data_seeds_the_pixels() {
    let data: Vec<u8> = vec![0; 2 * 2 * 3];
    let (image, commands) = Image::with_data(
        Some(5),
        2,
        2,
        ImageFormat::Rgb8,
        ImageFilter::Nearest,
        ImageWrap::Clamp,
        data.clone(),
    )
    .unwrap();
    assert_eq!(image.format, 0x1907);
    assert_eq!(commands[1], Command::TexImage2D {
        target: TEXTURE_2D,
        internal_format: 0x1907,
        width: 2,
        height: 2,
        format: 0x1907,
        kind: 0x1401,
        data: Some(data),
    });
    assert_eq!(commands[3], Command::TexParameter {
        target: TEXTURE_2D,
        parameter: 0x2801,
        value: 0x2600,
    });
    assert_eq!(commands[5], Command::TexParameter {
        target: TEXTURE_2D,
        parameter: 0x2802,
        value: 0x812F,
    });
}

#[test]
fn image_creation_without_backend_id_fails() {
    assert_eq!(
        Image::new(None, 8, 8, ImageFormat::Rgb8, ImageFilter::Nearest, ImageWrap::Clamp),
        Err(Error::ResourceCreationFailed)
    );
}

#[test]
fn image_update_part_stays_in_bounds() {
    let (image, _) =
        Image::new(Some(4), 8, 8, ImageFormat::Rgba8, ImageFilter::Linear, ImageWrap::Repeat)
            .unwrap();
    let data: Vec<u8> = vec![1; 2 * 3 * 4];
    assert_eq!(
        image.update_part(1, 2, 2, 3, data.clone()),
        vec![
            Command::BindTexture { target: TEXTURE_2D, texture: Some(4) },
            Command::TexSubImage2D {
                target: TEXTURE_2D,
                x: 1,
                y: 2,
                width: 2,
                height: 3,
                format: 0x1908,
                kind: 0x1401,
                data,
            },
        ]
    );
}

#[test]
fn image_update_covers_the_whole_image() {
    let (image, _) =
        Image::new(Some(4), 2, 2, ImageFormat::Rgba8, ImageFilter::Linear, ImageWrap::Repeat)
            .unwrap();
    let data: Vec<u8> = vec![1; 2 * 2 * 4];
    let commands = image.update(data.clone());
    assert_eq!(
        commands[1],
        Command::TexSubImage2D {
            target: TEXTURE_2D,
            x: 0,
            y: 0,
            width: 2,
            height: 2,
            format: 0x1908,
            kind: 0x1401,
            data,
        }
    );
}

#[test]
fn set_images_binds_units_in_declaration_order() {
    let mut ctx = Context::new(0);
    let shader = ctx
        .create_shader(
            ProgramOutcome::Linked { program: 1 },
            &[],
            &[ImageUniform { name: "u_a" }, ImageUniform { name: "u_b" }],
            &[],
            &[Some(30), Some(31)],
        )
        .unwrap();
    let pipeline = ctx.create_pipeline(shader, &[], &[], &[]).unwrap();
    ctx.set_pipeline(&pipeline);
    let (first, _) =
        Image::new(Some(6), 1, 1, ImageFormat::Rgba8, ImageFilter::Nearest, ImageWrap::Clamp)
            .unwrap();
    let (second, _) =
        Image::new(Some(7), 1, 1, ImageFormat::Rgba8, ImageFilter::Nearest, ImageWrap::Clamp)
            .unwrap();

    let commands = ctx.set_images(&[first, second]).unwrap();
    assert_eq!(
        commands,
        vec![
            Command::ActiveTexture { unit: TEXTURE0 },
            Command::BindTexture { target: TEXTURE_2D, texture: Some(6) },
            Command::Uniform1Int { location: 30, value: 0 },
            Command::ActiveTexture { unit: TEXTURE0 + 1 },
            Command::BindTexture { target: TEXTURE_2D, texture: Some(7) },
            Command::Uniform1Int { location: 31, value: 1 },
        ]
    );

    // too few images is refused rather than read out of bounds
    assert_eq!(ctx.set_images(&[first]), Err(Error::PreconditionViolation));
}

#[test]
fn context_create_buffer_forwards() {
    let ctx = Context::new(0);
    let (buffer, _) = ctx
        .create_buffer_with_data(Some(2), BufferKind::Vertex, BufferUsage::Static, vec![0; 12])
        .unwrap();
    assert_eq!(buffer.size(), 12);
    let (image, _) = ctx
        .create_image(Some(3), 4, 4, ImageFormat::Rgb8, ImageFilter::Linear, ImageWrap::Clamp)
        .unwrap();
    assert_eq!(image.id, 3);
    let data: Vec<u8> = vec![0; 4 * 4 * 3];
    let (seeded, _) = ctx
        .create_image_with_data(
            Some(4),
            4,
            4,
            ImageFormat::Rgb8,
            ImageFilter::Linear,
            ImageWrap::Clamp,
            data,
        )
        .unwrap();
    assert_eq!(seeded.kind, 0x1401);
}
