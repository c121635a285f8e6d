use twilight_wgpu_backend::output::command::{DrawCommand, FrameReport};
use twilight_wgpu_backend::output::error::ConfigError;
use twilight_wgpu_backend::output::object::{ClassHandle, Object, ObjectClass, ObjectShader};
use twilight_wgpu_backend::output::Output;

const FORMAT: wgpu::TextureFormat = wgpu::TextureFormat::Rgba8UnormSrgb;

fn device() -> (wgpu::Device, wgpu::Queue) {
    wgpu::Device::noop(&wgpu::DeviceDescriptor::default())
}

fn words(values: &[f32]) -> Vec<u32> {
    values.iter().map(|value| value.to_bits()).collect()
}

/// A unit quad of four positions.
fn quad() -> Vec<u32> {
    words(&[-0.5, -0.5, 0.5, -0.5, 0.5, 0.5, -0.5, 0.5])
}

/// A unit quad of four positions, each with a colour.
fn colored_quad() -> Vec<u32> {
    words(&[
        -0.5, -0.5, 1.0, 0.0, 0.0, 1.0, //
        0.5, -0.5, 0.0, 1.0, 0.0, 1.0, //
        0.5, 0.5, 0.0, 0.0, 1.0, 1.0, //
        -0.5, 0.5, 1.0, 1.0, 1.0, 1.0,
    ])
}

fn class(device: &wgpu::Device, shape_id: usize, shader: ObjectShader) -> ObjectClass {
    let vertexes = match shader {
        ObjectShader::Vertex => colored_quad(),
        ObjectShader::Texture => words(&[0.0; 16]),
        _ => quad(),
    };
    ObjectClass::new(device, shape_id, shader, &vertexes).unwrap()
}

fn object(device: &wgpu::Device, indices: &[u32]) -> Object {
    Object::new(device, &indices.to_vec()).unwrap()
}

/// Records one frame of the registry into a real render pass and submits it.
fn render(device: &wgpu::Device, queue: &wgpu::Queue, output: &Output) -> FrameReport {
    let texture = device.create_texture(&wgpu::TextureDescriptor {
        label: None,
        size: wgpu::Extent3d { width: 8, height: 8, depth_or_array_layers: 1 },
        mip_level_count: 1,
        sample_count: 1,
        dimension: wgpu::TextureDimension::D2,
        format: FORMAT,
        usage: wgpu::TextureUsages::RENDER_ATTACHMENT,
        view_formats: &[],
    });
    let view = texture.create_view(&wgpu::TextureViewDescriptor::default());
    let mut encoder = device.create_command_encoder(&wgpu::CommandEncoderDescriptor { label: None });
    let report = {
        let mut pass = encoder.begin_render_pass(&wgpu::RenderPassDescriptor {
            label: None,
            color_attachments: &[Some(wgpu::RenderPassColorAttachment {
                view: &view,
                resolve_target: None,
                ops: wgpu::Operations {
                    load: wgpu::LoadOp::Clear(wgpu::Color::TRANSPARENT),
                    store: wgpu::StoreOp::Store,
                },
            })],
            depth_stencil_attachment: None,
            timestamp_writes: None,
            occlusion_query_set: None,
        });
        output.render(&mut pass)
    };
    queue.submit([encoder.finish()]);
    report
}

#[test]
fn single_quad_issues_one_bind_of_each_sort_and_one_draw() {
    let (device, queue) = device();
    let mut output = Output::new(&device, FORMAT);
    let a = output.add_class(class(&device, 1, ObjectShader::Uniform)).unwrap();
    output.add_instance(a, object(&device, &[0, 1, 2, 2, 3, 0])).unwrap();

    assert_eq!(
        output.commands(),
        vec![
            DrawCommand::SetPipeline { shader: ObjectShader::Uniform },
            DrawCommand::SetBindGroup { shader: ObjectShader::Uniform, bound: true },
            DrawCommand::SetVertexBuffer { class: 0 },
            DrawCommand::SetIndexBuffer { class: 0, object: 0 },
            DrawCommand::DrawIndexed { index_count: 6 },
        ]
    );
    let report = render(&device, &queue, &output);
    assert_eq!(report.pipeline_binds, 1);
    assert_eq!(report.group_binds, 1);
    assert_eq!(report.vertex_binds, 1);
    assert_eq!(report.index_binds, 1);
    assert_eq!(report.draws, 1);
    assert!(report.skipped.is_empty());
}

#[test]
fn two_uniform_classes_then_a_vertex_color_class_bind_two_pipelines() {
    let (device, queue) = device();
    let mut output = Output::new(&device, FORMAT);
    assert!(output.compile(&device, ObjectShader::Vertex).is_ok());
    let a = output.add_class(class(&device, 1, ObjectShader::Uniform)).unwrap();
    let b = output.add_class(class(&device, 2, ObjectShader::Uniform)).unwrap();
    let c = output.add_class(class(&device, 3, ObjectShader::Vertex)).unwrap();
    output.add_instance(a, object(&device, &[0, 1, 2])).unwrap();
    output.add_instance(b, object(&device, &[0, 2, 3])).unwrap();
    output.add_instance(c, object(&device, &[0, 1, 2, 2, 3, 0])).unwrap();

    assert_eq!(
        output.commands(),
        vec![
            DrawCommand::SetPipeline { shader: ObjectShader::Uniform },
            DrawCommand::SetBindGroup { shader: ObjectShader::Uniform, bound: true },
            DrawCommand::SetVertexBuffer { class: 0 },
            DrawCommand::SetIndexBuffer { class: 0, object: 0 },
            DrawCommand::DrawIndexed { index_count: 3 },
            DrawCommand::SetVertexBuffer { class: 1 },
            DrawCommand::SetIndexBuffer { class: 1, object: 0 },
            DrawCommand::DrawIndexed { index_count: 3 },
            DrawCommand::SetPipeline { shader: ObjectShader::Vertex },
            DrawCommand::SetBindGroup { shader: ObjectShader::Vertex, bound: false },
            DrawCommand::SetVertexBuffer { class: 2 },
            DrawCommand::SetIndexBuffer { class: 2, object: 0 },
            DrawCommand::DrawIndexed { index_count: 6 },
        ]
    );
    let report = render(&device, &queue, &output);
    assert_eq!(report.pipeline_binds, 2);
    assert_eq!(report.group_binds, 2);
    assert_eq!(report.vertex_binds, 3);
    assert_eq!(report.index_binds, 3);
    assert_eq!(report.draws, 3);
    assert!(report.skipped.is_empty());
}

#[test]
fn a_format_without_blending_makes_a_configuration_error_and_its_classes_are_skipped() {
    let (device, _queue) = device();
    let mut output = Output::new(&device, wgpu::TextureFormat::Rgba32Uint);
    match output.compile(&device, ObjectShader::Uniform) {
        Err(ConfigError::Rejected { kind, message }) => {
            assert_eq!(kind, ObjectShader::Uniform);
            assert!(!message.is_empty());
        }
        other => panic!("expected a rejection, got {:?}", other),
    }
    let a = output.add_class(class(&device, 1, ObjectShader::Uniform)).unwrap();
    output.add_instance(a, object(&device, &[0, 1, 2])).unwrap();

    assert_eq!(output.commands(), vec![]);
    assert_eq!(output.skipped(), vec![a]);
}

#[test]
fn a_class_without_a_variant_is_skipped_and_the_others_are_drawn() {
    let (device, queue) = device();
    let mut output = Output::new(&device, FORMAT);
    match output.compile(&device, ObjectShader::BlurBehind) {
        Err(ConfigError::Unsupported { kind }) => assert_eq!(kind, ObjectShader::BlurBehind),
        other => panic!("expected an unsupported kind, got {:?}", other),
    }
    let a = output.add_class(class(&device, 1, ObjectShader::Uniform)).unwrap();
    let x = output.add_class(class(&device, 2, ObjectShader::BlurBehind)).unwrap();
    let b = output.add_class(class(&device, 3, ObjectShader::Uniform)).unwrap();
    output.add_instance(a, object(&device, &[0, 1, 2])).unwrap();
    output.add_instance(x, object(&device, &[0, 1, 2])).unwrap();
    output.add_instance(b, object(&device, &[1, 2, 3])).unwrap();

    // The skipped class stands between two classes of one kind: the variant
    // stays bound across it.
    assert_eq!(
        output.commands(),
        vec![
            DrawCommand::SetPipeline { shader: ObjectShader::Uniform },
            DrawCommand::SetBindGroup { shader: ObjectShader::Uniform, bound: true },
            DrawCommand::SetVertexBuffer { class: 0 },
            DrawCommand::SetIndexBuffer { class: 0, object: 0 },
            DrawCommand::DrawIndexed { index_count: 3 },
            DrawCommand::SetVertexBuffer { class: 2 },
            DrawCommand::SetIndexBuffer { class: 2, object: 0 },
            DrawCommand::DrawIndexed { index_count: 3 },
        ]
    );
    let report = render(&device, &queue, &output);
    assert_eq!(report.pipeline_binds, 1);
    assert_eq!(report.draws, 2);
    assert_eq!(report.skipped, vec![x]);
}

#[test]
fn a_class_of_a_kind_nobody_compiled_is_skipped() {
    let (device, _queue) = device();
    let mut output = Output::empty(FORMAT);
    let c = output.add_class(class(&device, 1, ObjectShader::Vertex)).unwrap();
    output.add_instance(c, object(&device, &[0, 1, 2])).unwrap();
    assert_eq!(output.commands(), vec![]);
    assert_eq!(output.skipped(), vec![c]);

    assert!(output.compile(&device, ObjectShader::Vertex).is_ok());
    assert_eq!(output.commands().len(), 5);
    assert_eq!(output.skipped(), Vec::<ClassHandle>::new());
}

#[test]
fn classes_and_instances_are_drawn_in_the_order_they_were_added() {
    let (device, queue) = device();
    let mut output = Output::new(&device, FORMAT);
    assert!(output.compile(&device, ObjectShader::Vertex).is_ok());
    let a = output.add_class(class(&device, 7, ObjectShader::Vertex)).unwrap();
    let b = output.add_class(class(&device, 5, ObjectShader::Uniform)).unwrap();
    // Instances are added to the two classes in turn.
    output.add_instance(b, object(&device, &[0, 1, 2])).unwrap();
    output.add_instance(a, object(&device, &[3, 2, 1, 0, 1, 2])).unwrap();
    output.add_instance(b, object(&device, &[0, 1, 2, 1, 2, 3, 0, 2, 3])).unwrap();
    output.add_instance(a, object(&device, &[0, 1, 3])).unwrap();

    assert_eq!(
        output.commands(),
        vec![
            DrawCommand::SetPipeline { shader: ObjectShader::Vertex },
            DrawCommand::SetBindGroup { shader: ObjectShader::Vertex, bound: false },
            DrawCommand::SetVertexBuffer { class: 0 },
            DrawCommand::SetIndexBuffer { class: 0, object: 0 },
            DrawCommand::DrawIndexed { index_count: 6 },
            DrawCommand::SetIndexBuffer { class: 0, object: 1 },
            DrawCommand::DrawIndexed { index_count: 3 },
            DrawCommand::SetPipeline { shader: ObjectShader::Uniform },
            DrawCommand::SetBindGroup { shader: ObjectShader::Uniform, bound: true },
            DrawCommand::SetVertexBuffer { class: 1 },
            DrawCommand::SetIndexBuffer { class: 1, object: 0 },
            DrawCommand::DrawIndexed { index_count: 3 },
            DrawCommand::SetIndexBuffer { class: 1, object: 1 },
            DrawCommand::DrawIndexed { index_count: 9 },
        ]
    );
    let report = render(&device, &queue, &output);
    assert_eq!(report.pipeline_binds, 2);
    assert_eq!(report.vertex_binds, 2);
    assert_eq!(report.index_binds, 4);
    assert_eq!(report.draws, 4);
}

#[test]
fn kinds_that_alternate_bind_a_pipeline_for_each_class() {
    let (device, queue) = device();
    let mut output = Output::new(&device, FORMAT);
    assert!(output.compile(&device, ObjectShader::Vertex).is_ok());
    for shader in [ObjectShader::Uniform, ObjectShader::Vertex, ObjectShader::Uniform, ObjectShader::Vertex] {
        let handle = output.add_class(class(&device, 0, shader)).unwrap();
        output.add_instance(handle, object(&device, &[0, 1, 2])).unwrap();
    }
    let report = render(&device, &queue, &output);
    assert_eq!(report.pipeline_binds, 4);
    assert_eq!(report.group_binds, 4);
    assert_eq!(report.vertex_binds, 4);
}

#[test]
fn a_new_registry_draws_classes_of_every_kind_it_has_a_pipeline_for() {
    let (device, queue) = device();
    let mut output = Output::new(&device, FORMAT);
    let a = output.add_class(class(&device, 1, ObjectShader::Vertex)).unwrap();
    let b = output.add_class(class(&device, 2, ObjectShader::Uniform)).unwrap();
    let x = output.add_class(class(&device, 3, ObjectShader::Texture)).unwrap();
    for handle in [a, b, x] {
        output.add_instance(handle, object(&device, &[0, 1, 2])).unwrap();
    }
    let report = render(&device, &queue, &output);
    assert_eq!(report.pipeline_binds, 2);
    assert_eq!(report.draws, 2);
    assert_eq!(report.skipped, vec![x]);
}

#[test]
fn an_empty_registry_records_nothing() {
    let (device, queue) = device();
    let output = Output::new(&device, FORMAT);
    assert_eq!(output.commands(), vec![]);
    let report = render(&device, &queue, &output);
    assert_eq!(
        report,
        FrameReport {
            pipeline_binds: 0,
            group_binds: 0,
            vertex_binds: 0,
            index_binds: 0,
            draws: 0,
            skipped: vec![],
        }
    );
}

#[test]
fn a_class_without_instances_is_a_no_op() {
    let (device, queue) = device();
    let mut output = Output::new(&device, FORMAT);
    let a = output.add_class(class(&device, 1, ObjectShader::Uniform)).unwrap();
    // Neither is a class of a kind without a variant, as long as it is empty.
    output.add_class(class(&device, 2, ObjectShader::Texture)).unwrap();
    assert_eq!(output.commands(), vec![]);
    assert_eq!(output.skipped(), Vec::<ClassHandle>::new());

    // An instance without indices leaves the class with nothing to draw.
    output.add_instance(a, object(&device, &[])).unwrap();
    assert_eq!(output.commands(), vec![]);
    let report = render(&device, &queue, &output);
    assert_eq!(report.pipeline_binds, 0);
    assert_eq!(report.draws, 0);
}

#[test]
fn an_instance_without_indices_is_left_out_among_others() {
    let (device, queue) = device();
    let mut output = Output::new(&device, FORMAT);
    let a = output.add_class(class(&device, 1, ObjectShader::Uniform)).unwrap();
    output.add_instance(a, object(&device, &[])).unwrap();
    output.add_instance(a, object(&device, &[0, 1, 2])).unwrap();
    assert_eq!(
        output.commands(),
        vec![
            DrawCommand::SetPipeline { shader: ObjectShader::Uniform },
            DrawCommand::SetBindGroup { shader: ObjectShader::Uniform, bound: true },
            DrawCommand::SetVertexBuffer { class: 0 },
            DrawCommand::SetIndexBuffer { class: 0, object: 1 },
            DrawCommand::DrawIndexed { index_count: 3 },
        ]
    );
    let report = render(&device, &queue, &output);
    assert_eq!(report.draws, 1);
}

#[test]
fn a_class_without_vertices_takes_only_instances_without_indices() {
    let (device, queue) = device();
    let mut output = Output::new(&device, FORMAT);
    let empty = ObjectClass::new(&device, 9, ObjectShader::Uniform, &vec![]).unwrap();
    assert_eq!(empty.vertex_count(), 0);
    let a = output.add_class(empty).unwrap();
    assert!(output.add_instance(a, object(&device, &[])).is_ok());
    assert!(output.add_instance(a, object(&device, &[0])).is_err());
    let report = render(&device, &queue, &output);
    assert_eq!(report.vertex_binds, 0);
}

#[test]
fn removing_a_class_moves_the_later_classes_up() {
    let (device, queue) = device();
    let mut output = Output::new(&device, FORMAT);
    let a = output.add_class(class(&device, 1, ObjectShader::Uniform)).unwrap();
    let b = output.add_class(class(&device, 2, ObjectShader::Uniform)).unwrap();
    let first = output.add_instance(a, object(&device, &[0, 1, 2])).unwrap();
    output.add_instance(b, object(&device, &[0, 1, 2, 1, 2, 3])).unwrap();

    output.remove_instance(first).unwrap();
    output.remove_class(a).unwrap();
    assert_eq!(
        output.commands(),
        vec![
            DrawCommand::SetPipeline { shader: ObjectShader::Uniform },
            DrawCommand::SetBindGroup { shader: ObjectShader::Uniform, bound: true },
            DrawCommand::SetVertexBuffer { class: 0 },
            DrawCommand::SetIndexBuffer { class: 0, object: 0 },
            DrawCommand::DrawIndexed { index_count: 6 },
        ]
    );
    let report = render(&device, &queue, &output);
    assert_eq!(report.draws, 1);
}
