use fugu::buffer::{BufferKind, BufferUsage};
use fugu::command::Command;
use fugu::context::Context;
use fugu::error::Error;
use fugu::pipeline::{BufferLayout, Pipeline, VertexAttribute, VertexFormat, VertexStep};
use fugu::shader::{ProgramOutcome, Uniform, UniformFormat};

const TRIANGLES: u32 = 0x0004;
const UNSIGNED_SHORT: u32 = 0x1403;
const ARRAY_BUFFER: u32 = 0x8892;
const ELEMENT_ARRAY_BUFFER: u32 = 0x8893;

fn empty_pipeline(ctx: &mut Context, program: u32) -> Pipeline {
    let shader = ctx
        .create_shader(ProgramOutcome::Linked { program }, &[], &[], &[], &[])
        .unwrap();
    ctx.create_pipeline(shader, &[], &[], &[]).unwrap()
}

#[test]
fn draw_without_pipeline_is_refused() {
    let ctx = Context::new(0);
    assert_eq!(ctx.draw(0, 3, 1), Err(Error::PreconditionViolation));
}

#[test]
fn draw_takes_array_path_until_index_buffer_is_bound() {
    let mut ctx = Context::new(0);
    let pipeline = empty_pipeline(&mut ctx, 1);
    ctx.set_pipeline(&pipeline);

    let commands = ctx.draw(4, 9, 2).unwrap();
    assert_eq!(
        commands,
        vec![Command::DrawArraysInstanced { mode: TRIANGLES, first: 4, count: 9, instances: 2 }]
    );

    let (index_buffer, _) = ctx
        .create_buffer(Some(11), BufferKind::Index, BufferUsage::Stream, 64)
        .unwrap();
    ctx.set_index_buffer(&index_buffer);

    let commands = ctx.draw(4, 9, 2).unwrap();
    assert_eq!(
        commands,
        vec![Command::DrawElementsInstanced {
            mode: TRIANGLES,
            count: 9,
            element_type: UNSIGNED_SHORT,
            byte_offset: 8,
            instances: 2,
        }]
    );
}

#[test]
fn commit_frame_resets_pipeline_and_index_state() {
    let mut ctx = Context::new(3);
    let pipeline = empty_pipeline(&mut ctx, 1);
    ctx.set_pipeline(&pipeline);
    let (index_buffer, _) = ctx
        .create_buffer(Some(11), BufferKind::Index, BufferUsage::Stream, 64)
        .unwrap();
    ctx.set_index_buffer(&index_buffer);

    let commands = ctx.commit_frame();
    assert_eq!(
        commands,
        vec![
            Command::BindBuffer { target: ARRAY_BUFFER, buffer: None },
            Command::BindBuffer { target: ELEMENT_ARRAY_BUFFER, buffer: None },
        ]
    );

    // the pipeline is no longer current ...
    assert_eq!(ctx.draw(0, 3, 1), Err(Error::PreconditionViolation));

    // ... and after re-binding, the index-buffer flag is gone too
    ctx.set_pipeline(&pipeline);
    let commands = ctx.draw(0, 3, 1).unwrap();
    assert!(matches!(commands[0], Command::DrawArraysInstanced { .. }));
}

#[test]
fn set_pipeline_activates_its_program() {
    let mut ctx = Context::new(0);
    let first = empty_pipeline(&mut ctx, 21);
    let second = empty_pipeline(&mut ctx, 22);
    assert_eq!(first.id, 0);
    assert_eq!(second.id, 1);
    let commands = ctx.set_pipeline(&second);
    assert_eq!(commands, vec![Command::UseProgram { program: Some(22) }]);
}

#[test]
fn set_index_buffer_binds_the_buffer() {
    let mut ctx = Context::new(0);
    let (index_buffer, _) = ctx
        .create_buffer(Some(5), BufferKind::Index, BufferUsage::Dynamic, 32)
        .unwrap();
    let commands = ctx.set_index_buffer(&index_buffer);
    assert_eq!(
        commands,
        vec![Command::BindBuffer { target: ELEMENT_ARRAY_BUFFER, buffer: Some(5) }]
    );
}

fn one_slot_pipeline(ctx: &mut Context) -> Pipeline {
    let shader = ctx
        .create_shader(ProgramOutcome::Linked { program: 1 }, &[], &[], &[], &[])
        .unwrap();
    let buffers = [BufferLayout { stride: 0, step_func: VertexStep::PerVertex }];
    let attrs = [
        VertexAttribute { name: "pos", format: VertexFormat::Float2, buffer_index: 0 },
        VertexAttribute { name: "uv", format: VertexFormat::Float2, buffer_index: 0 },
    ];
    ctx.create_pipeline(shader, &buffers, &attrs, &[Some(0), Some(1)]).unwrap()
}

#[test]
fn set_vertex_buffers_reissues_the_attribute_schedule() {
    let mut ctx = Context::new(0);
    let pipeline = one_slot_pipeline(&mut ctx);
    ctx.set_pipeline(&pipeline);
    let (vertex_buffer, _) = ctx
        .create_buffer(Some(7), BufferKind::Vertex, BufferUsage::Stream, 256)
        .unwrap();

    let commands = ctx.set_vertex_buffer(&vertex_buffer).unwrap();
    assert_eq!(
        commands,
        vec![
            Command::BindBuffer { target: ARRAY_BUFFER, buffer: Some(7) },
            Command::EnableVertexAttribArray { location: 0 },
            Command::VertexAttribPointer {
                location: 0,
                size: 2,
                format: 0x1406,
                stride: 16,
                offset: 0,
            },
            Command::VertexAttribDivisor { location: 0, divisor: 0 },
            Command::EnableVertexAttribArray { location: 1 },
            Command::VertexAttribPointer {
                location: 1,
                size: 2,
                format: 0x1406,
                stride: 16,
                offset: 8,
            },
            Command::VertexAttribDivisor { location: 1, divisor: 0 },
        ]
    );
}

#[test]
fn set_vertex_buffers_needs_a_pipeline_and_enough_buffers() {
    let mut ctx = Context::new(0);
    let (vertex_buffer, _) = ctx
        .create_buffer(Some(7), BufferKind::Vertex, BufferUsage::Stream, 256)
        .unwrap();
    assert_eq!(
        ctx.set_vertex_buffers(&[vertex_buffer]),
        Err(Error::PreconditionViolation)
    );

    let pipeline = one_slot_pipeline(&mut ctx);
    ctx.set_pipeline(&pipeline);
    assert_eq!(ctx.set_vertex_buffers(&[]), Err(Error::PreconditionViolation));
}

#[test]
fn missing_attribute_name_fails_pipeline_creation() {
    let mut ctx = Context::new(0);
    let shader = ctx
        .create_shader(ProgramOutcome::Linked { program: 1 }, &[], &[], &[], &[])
        .unwrap();
    let buffers = [BufferLayout { stride: 0, step_func: VertexStep::PerVertex }];
    let attrs = [
        VertexAttribute { name: "pos", format: VertexFormat::Float2, buffer_index: 0 },
        VertexAttribute { name: "ghostly", format: VertexFormat::Float2, buffer_index: 0 },
    ];
    let r = ctx.create_pipeline(shader, &buffers, &attrs, &[Some(0), None]);
    match r {
        Err(Error::AttributeNotFound { name }) => assert_eq!(name, "ghostly"),
        other => panic!("expected AttributeNotFound, got {:?}", other),
    }
    // a failed creation leaves the registry untouched
    let shader = ctx
        .create_shader(ProgramOutcome::Linked { program: 1 }, &[], &[], &[], &[])
        .unwrap();
    let pipeline = ctx.create_pipeline(shader, &[], &[], &[]).unwrap();
    assert_eq!(pipeline.id, 0);
}

#[test]
fn uniform_declaration_order_survives_pipeline_creation() {
    let mut ctx = Context::new(0);
    let shader = ctx
        .create_shader(
            ProgramOutcome::Linked { program: 2 },
            &[Uniform { name: "u_a", format: UniformFormat::Int4 }],
            &[],
            &[Some(13)],
            &[],
        )
        .unwrap();
    let pipeline = ctx.create_pipeline(shader, &[], &[], &[]).unwrap();
    let entry = &ctx.pipelines[pipeline.id];
    assert_eq!(entry.shader.program, 2);
    assert_eq!(entry.shader.uniforms[0].location, 13);
}

#[test]
fn pipeline_registry_entries_are_structurally_identical() {
    let mut ctx = Context::new(0);
    let buffers = [BufferLayout { stride: 0, step_func: VertexStep::PerVertex }];
    let attrs = [
        VertexAttribute { name: "pos", format: VertexFormat::Float2, buffer_index: 0 },
        VertexAttribute { name: "uv", format: VertexFormat::Float3, buffer_index: 0 },
    ];
    let shader = ctx
        .create_shader(ProgramOutcome::Linked { program: 1 }, &[], &[], &[], &[])
        .unwrap();
    let first = ctx.create_pipeline(shader, &buffers, &attrs, &[Some(4), Some(5)]).unwrap();
    let shader = ctx
        .create_shader(ProgramOutcome::Linked { program: 2 }, &[], &[], &[], &[])
        .unwrap();
    let second = ctx.create_pipeline(shader, &buffers, &attrs, &[Some(9), Some(8)]).unwrap();

    let rows = &ctx.pipelines[first.id].attrs;
    let other = &ctx.pipelines[second.id].attrs;
    assert_eq!(rows.len(), other.len());
    for (row1, row2) in rows.iter().zip(other.iter()) {
        assert_eq!(row1.len(), row2.len());
        for (a, b) in row1.iter().zip(row2.iter()) {
            assert_eq!(
                (a.format, a.offset, a.stride, a.divisor, a.size),
                (b.format, b.offset, b.stride, b.divisor, b.size)
            );
        }
    }
}
