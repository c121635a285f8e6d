use twilight_wgpu_backend::output::error::{ConfigError, Error, UploadError};
use twilight_wgpu_backend::output::gpu::Reports;
use twilight_wgpu_backend::output::object::ObjectShader;
use twilight_wgpu_backend::output::uniform_shader::{
    Color, ColorRegister, UniformShader, COLOR_BYTES,
};
use twilight_wgpu_backend::output::variant::{ShaderVariant, VariantSlot};
use twilight_wgpu_backend::output::vertex_shader::VertexShader;
use twilight_wgpu_backend::output::{Output, RenderObject};

const FORMAT: wgpu::TextureFormat = wgpu::TextureFormat::Rgba8UnormSrgb;

fn device() -> wgpu::Device {
    wgpu::Device::noop(&wgpu::DeviceDescriptor::default()).0
}

fn color(red: f32, green: f32, blue: f32, alpha: f32) -> Color {
    Color { color: [red.to_bits(), green.to_bits(), blue.to_bits(), alpha.to_bits()] }
}

fn register_of(output: &Output) -> ColorRegister {
    match output.variant(ObjectShader::Uniform) {
        Some(ShaderVariant::Uniform(shader)) => shader.register(),
        _ => panic!("the uniform variant is not ready"),
    }
}

#[test]
fn a_new_registry_has_tried_every_kind() {
    let device = device();
    let output = Output::new(&device, FORMAT);
    assert!(matches!(output.slot(ObjectShader::Uniform), VariantSlot::Ready(_)));
    assert!(matches!(output.slot(ObjectShader::Vertex), VariantSlot::Ready(_)));
    assert!(matches!(
        output.slot(ObjectShader::BlurBehind),
        VariantSlot::Failed(ConfigError::Unsupported { kind: ObjectShader::BlurBehind })
    ));
    assert!(matches!(
        output.slot(ObjectShader::Texture),
        VariantSlot::Failed(ConfigError::Unsupported { kind: ObjectShader::Texture })
    ));
    assert_eq!(output.variant(ObjectShader::Uniform).unwrap().kind(), ObjectShader::Uniform);
    assert_eq!(output.variant(ObjectShader::Vertex).unwrap().kind(), ObjectShader::Vertex);
    assert!(output.variant(ObjectShader::Texture).is_none());
}

#[test]
fn a_registry_that_cannot_use_the_format_has_tried_every_kind_too() {
    let device = device();
    let output = Output::new(&device, wgpu::TextureFormat::Rgba32Uint);
    assert!(matches!(
        output.slot(ObjectShader::Uniform),
        VariantSlot::Failed(ConfigError::Rejected { kind: ObjectShader::Uniform, .. })
    ));
    assert!(matches!(
        output.slot(ObjectShader::Vertex),
        VariantSlot::Failed(ConfigError::Rejected { kind: ObjectShader::Vertex, .. })
    ));
    assert!(matches!(output.slot(ObjectShader::Texture), VariantSlot::Failed(_)));
}

#[test]
fn an_empty_registry_has_no_variant() {
    let output = Output::empty(FORMAT);
    assert!(matches!(output.slot(ObjectShader::Uniform), VariantSlot::Missing));
    assert_eq!(output.len(), 0);
}

#[test]
fn compiling_a_kind_again_returns_the_identical_pipeline() {
    let device = device();
    let mut output = Output::new(&device, FORMAT);
    assert!(output.compile(&device, ObjectShader::Vertex).is_ok());
    let uniform = output.variant(ObjectShader::Uniform).unwrap().render_object().pipeline.clone();
    let vertex = output.variant(ObjectShader::Vertex).unwrap().render_object().pipeline.clone();
    assert!(uniform != vertex);

    assert!(output.compile(&device, ObjectShader::Uniform).is_ok());
    assert!(output.compile(&device, ObjectShader::Vertex).is_ok());
    // wgpu compares handles by identity.
    assert!(output.variant(ObjectShader::Uniform).unwrap().render_object().pipeline == uniform);
    assert!(output.variant(ObjectShader::Vertex).unwrap().render_object().pipeline == vertex);
    // Another registry builds another pipeline.
    let other = Output::new(&device, FORMAT);
    assert!(other.variant(ObjectShader::Uniform).unwrap().render_object().pipeline != uniform);
}

#[test]
fn a_recorded_outcome_is_not_replaced() {
    let device = device();
    let mut output = Output::empty(FORMAT);
    let first = ShaderVariant::build(&device, FORMAT, ObjectShader::Uniform).unwrap();
    let pipeline = first.render_object().pipeline.clone();
    assert!(output.install(Ok(first)).is_ok());

    let second = ShaderVariant::build(&device, FORMAT, ObjectShader::Uniform).unwrap();
    assert!(second.render_object().pipeline != pipeline);
    assert!(output.install(Ok(second)).is_ok());
    assert!(output.variant(ObjectShader::Uniform).unwrap().render_object().pipeline == pipeline);

    // A later failure does not replace a ready variant either.
    let failure = ConfigError::Rejected { kind: ObjectShader::Uniform, message: "late".to_string() };
    assert!(output.install(Err(failure)).is_ok());
    assert!(output.variant(ObjectShader::Uniform).unwrap().render_object().pipeline == pipeline);
}

#[test]
fn a_recorded_failure_is_kept() {
    let device = device();
    let mut output = Output::empty(FORMAT);
    let failure = ConfigError::Rejected { kind: ObjectShader::Vertex, message: "no blending".to_string() };
    match output.install(Err(failure)) {
        Err(ConfigError::Rejected { kind, message }) => {
            assert_eq!(kind, ObjectShader::Vertex);
            assert_eq!(message, "no blending");
        }
        other => panic!("expected the failure, got {:?}", other),
    }
    // Asking again answers with the kept failure and builds nothing.
    match output.compile(&device, ObjectShader::Vertex) {
        Err(ConfigError::Rejected { message, .. }) => assert_eq!(message, "no blending"),
        other => panic!("expected the failure, got {:?}", other),
    }
    assert!(matches!(output.slot(ObjectShader::Vertex), VariantSlot::Failed(_)));
    assert!(output.variant(ObjectShader::Vertex).is_none());
}

#[test]
fn kinds_without_a_pipeline_are_unsupported() {
    let device = device();
    assert!(ObjectShader::Uniform.supported());
    assert!(ObjectShader::Vertex.supported());
    assert!(!ObjectShader::BlurBehind.supported());
    assert!(!ObjectShader::Texture.supported());
    for kind in [ObjectShader::BlurBehind, ObjectShader::Texture] {
        match ShaderVariant::build(&device, FORMAT, kind) {
            Err(ConfigError::Unsupported { kind: refused }) => assert_eq!(refused, kind),
            other => panic!("expected an unsupported kind, got {:?}", other),
        }
    }
    let mut output = Output::empty(FORMAT);
    let answer = output.compile(&device, ObjectShader::Texture);
    assert!(matches!(answer, Err(ConfigError::Unsupported { kind: ObjectShader::Texture })));
    assert_eq!(answer.unwrap_err().kind(), ObjectShader::Texture);
}

#[test]
fn the_device_decides_on_the_target_format() {
    let device = device();
    assert!(UniformShader::new(&device, FORMAT).is_ok());
    assert!(VertexShader::new(&device, FORMAT).is_ok());
    assert!(UniformShader::new(&device, wgpu::TextureFormat::Bgra8Unorm).is_ok());
    // A depth format is no colour target, and an integer format cannot blend.
    for format in [wgpu::TextureFormat::Depth32Float, wgpu::TextureFormat::Rgba32Uint] {
        match UniformShader::new(&device, format) {
            Err(ConfigError::Rejected { kind, message }) => {
                assert_eq!(kind, ObjectShader::Uniform);
                assert!(!message.is_empty());
            }
            other => panic!("expected a rejection, got {:?}", other.map(|_| ())),
        }
        match VertexShader::new(&device, format) {
            Err(error) => assert_eq!(error.kind(), ObjectShader::Vertex),
            Ok(_) => panic!("expected a rejection"),
        }
    }
}

#[test]
fn variants_have_the_bind_group_their_kind_needs() {
    let device = device();
    let uniform = ShaderVariant::build(&device, FORMAT, ObjectShader::Uniform).unwrap();
    let vertex = ShaderVariant::build(&device, FORMAT, ObjectShader::Vertex).unwrap();
    assert_eq!(uniform.kind(), ObjectShader::Uniform);
    assert_eq!(vertex.kind(), ObjectShader::Vertex);
    assert!(uniform.render_object().bind_group.is_some());
    assert!(vertex.render_object().bind_group.is_none());
}

#[test]
fn the_color_buffer_has_room_for_one_color() {
    let device = device();
    assert_eq!(COLOR_BYTES, 16);
    let buffer = Color::create(&device).unwrap();
    assert_eq!(buffer.size(), 16);
    assert_eq!(buffer.usage(), wgpu::BufferUsages::UNIFORM);
}

#[test]
fn a_written_color_waits_for_the_flush() {
    let device = device();
    let mut output = Output::new(&device, FORMAT);
    assert_eq!(register_of(&output), ColorRegister { value: Color::zero(), staged: None });

    let red = color(1.0, 0.0, 0.0, 1.0);
    let blue = color(0.0, 0.0, 1.0, 1.0);
    assert_eq!(output.update(red), Ok(()));
    assert_eq!(register_of(&output), ColorRegister { value: Color::zero(), staged: Some(red) });
    // The last write before a flush wins.
    assert_eq!(output.update(blue), Ok(()));
    assert_eq!(register_of(&output), ColorRegister { value: Color::zero(), staged: Some(blue) });

    assert!(output.flush(&device).is_ok());
    assert_eq!(register_of(&output), ColorRegister { value: blue, staged: None });
    // A flush with nothing waiting changes nothing.
    assert!(output.flush(&device).is_ok());
    assert_eq!(register_of(&output), ColorRegister { value: blue, staged: None });
}

#[test]
fn a_color_cannot_be_written_without_the_uniform_variant() {
    let device = device();
    let mut output = Output::empty(FORMAT);
    assert_eq!(output.update(color(1.0, 1.0, 1.0, 1.0)), Err(Error::VariantUnavailable));
    assert!(output.flush(&device).is_ok());

    let mut failed = Output::new(&device, wgpu::TextureFormat::Rgba32Uint);
    assert_eq!(failed.update(color(1.0, 1.0, 1.0, 1.0)), Err(Error::VariantUnavailable));
    assert!(matches!(failed.slot(ObjectShader::Uniform), VariantSlot::Failed(_)));
}

#[test]
fn the_uniform_shader_keeps_its_own_register() {
    let device = device();
    let mut shader = UniformShader::new(&device, FORMAT).unwrap();
    assert!(shader.render_object().bind_group.is_some());
    let green = color(0.0, 1.0, 0.0, 1.0);
    shader.update(green);
    assert_eq!(shader.register(), ColorRegister { value: Color::zero(), staged: Some(green) });
    assert!(shader.flush(&device).is_ok());
    assert_eq!(shader.register(), ColorRegister { value: green, staged: None });
}

#[test]
fn a_new_target_format_rebuilds_every_variant() {
    let device = device();
    let mut output = Output::new(&device, FORMAT);
    assert!(output.compile(&device, ObjectShader::Vertex).is_ok());
    assert!(output.compile(&device, ObjectShader::BlurBehind).is_err());
    let uniform = output.variant(ObjectShader::Uniform).unwrap().render_object().pipeline.clone();
    let vertex = output.variant(ObjectShader::Vertex).unwrap().render_object().pipeline.clone();
    let red = color(1.0, 0.0, 0.0, 1.0);
    output.update(red).unwrap();
    output.flush(&device).unwrap();

    output.on_target_format_changed(&device, wgpu::TextureFormat::Bgra8Unorm);
    assert_eq!(output.format(), wgpu::TextureFormat::Bgra8Unorm);
    assert!(output.variant(ObjectShader::Uniform).unwrap().render_object().pipeline != uniform);
    assert!(output.variant(ObjectShader::Vertex).unwrap().render_object().pipeline != vertex);
    assert!(matches!(output.slot(ObjectShader::BlurBehind), VariantSlot::Failed(_)));
    assert!(matches!(output.slot(ObjectShader::Texture), VariantSlot::Failed(_)));
    // The colour goes to the new variant with the next flush.
    assert_eq!(register_of(&output), ColorRegister { value: Color::zero(), staged: Some(red) });
}

#[test]
fn a_new_target_format_can_fail_and_can_mend_a_variant() {
    let device = device();
    let mut output = Output::new(&device, FORMAT);
    output.on_target_format_changed(&device, wgpu::TextureFormat::Rgba32Uint);
    assert!(matches!(output.slot(ObjectShader::Uniform), VariantSlot::Failed(_)));
    assert!(matches!(output.slot(ObjectShader::Vertex), VariantSlot::Failed(_)));
    assert!(output.compile(&device, ObjectShader::Uniform).is_err());

    // A kind nobody asked for stays missing through a change of format.
    let mut empty = Output::empty(FORMAT);
    assert!(empty.compile(&device, ObjectShader::Uniform).is_ok());
    empty.on_target_format_changed(&device, wgpu::TextureFormat::Bgra8Unorm);
    assert!(matches!(empty.slot(ObjectShader::Uniform), VariantSlot::Ready(_)));
    assert!(matches!(empty.slot(ObjectShader::Vertex), VariantSlot::Missing));

    output.on_target_format_changed(&device, FORMAT);
    assert!(matches!(output.slot(ObjectShader::Uniform), VariantSlot::Ready(_)));
    assert!(output.compile(&device, ObjectShader::Uniform).is_ok());
}

#[test]
fn a_slot_answers_for_what_it_holds() {
    let device = device();
    assert!(VariantSlot::Missing.answer().is_none());
    let ready = VariantSlot::of(ShaderVariant::build(&device, FORMAT, ObjectShader::Vertex));
    assert!(matches!(ready, VariantSlot::Ready(_)));
    assert!(matches!(ready.answer(), Some(Ok(()))));
    let failed = VariantSlot::of(Err(ConfigError::Unsupported { kind: ObjectShader::Texture }));
    assert!(matches!(failed, VariantSlot::Failed(_)));
    assert!(matches!(
        failed.answer(),
        Some(Err(ConfigError::Unsupported { kind: ObjectShader::Texture }))
    ));
}

fn refusal(message: &str) -> Reports {
    Reports { validation: Some(message.to_string()), memory: None, internal: None }
}

#[test]
fn a_pipeline_is_settled_by_the_reports_of_its_parts_and_its_own() {
    assert_eq!(RenderObject::settle(None, Ok(7)), Ok(7));
    assert_eq!(RenderObject::settle(Some("parts".to_string()), Ok(7)), Err("parts".to_string()));
    assert_eq!(RenderObject::settle::<u32>(None, Err(refusal("own"))), Err("own".to_string()));
    assert_eq!(
        RenderObject::settle::<u32>(Some("parts".to_string()), Err(refusal("own"))),
        Err("parts".to_string())
    );
}

#[test]
fn a_vertex_shader_is_assembled_around_its_pipeline() {
    let device = device();
    let built = VertexShader::new(&device, FORMAT).unwrap();
    let pipeline = built.render_object().pipeline.clone();
    let shader = VertexShader::assemble(Ok(pipeline.clone())).unwrap();
    assert!(shader.render_object().pipeline == pipeline);
    assert!(shader.render_object().bind_group.is_none());
    match VertexShader::assemble(Err("refused".to_string())) {
        Err(ConfigError::Rejected { kind, message }) => {
            assert_eq!(kind, ObjectShader::Vertex);
            assert_eq!(message, "refused");
        }
        other => panic!("expected a rejection, got {:?}", other.map(|_| ())),
    }
}

#[test]
fn a_uniform_shader_is_assembled_around_its_parts() {
    let device = device();
    let donor = UniformShader::new(&device, FORMAT).unwrap();
    let pipeline = donor.render_object().pipeline.clone();
    let group = donor.render_object().bind_group.clone().unwrap();
    let layout = || pipeline.get_bind_group_layout(0);
    let color = || Color::create(&device).unwrap();

    let shader =
        UniformShader::assemble(color(), layout(), Ok(group.clone()), Ok(pipeline.clone())).unwrap();
    assert!(shader.render_object().pipeline == pipeline);
    assert!(shader.render_object().bind_group.as_ref() == Some(&group));
    assert_eq!(shader.register(), ColorRegister { value: Color::zero(), staged: None });

    // The refusal of the bind group goes before that of the pipeline.
    let refused = |group: Result<wgpu::BindGroup, String>, pipeline: Result<wgpu::RenderPipeline, String>| {
        match UniformShader::assemble(color(), layout(), group, pipeline) {
            Err(ConfigError::Rejected { kind: ObjectShader::Uniform, message }) => message,
            other => panic!("expected a rejection, got {:?}", other.map(|_| ())),
        }
    };
    assert_eq!(refused(Err("group".to_string()), Ok(pipeline.clone())), "group");
    assert_eq!(refused(Ok(group.clone()), Err("pipeline".to_string())), "pipeline");
    assert_eq!(refused(Err("group".to_string()), Err("pipeline".to_string())), "group");
}

#[test]
fn a_flushed_color_is_adopted_with_its_buffer_and_group() {
    let device = device();
    let donor = UniformShader::new(&device, FORMAT).unwrap();
    let group = donor.render_object().bind_group.clone().unwrap();
    let mut shader = UniformShader::new(&device, FORMAT).unwrap();
    let before = shader.render_object().bind_group.clone().unwrap();
    let red = color(1.0, 0.0, 0.0, 1.0);
    shader.update(red);

    // A refused bind group leaves the colour waiting and the group in place.
    match shader.adopt(Color::create(&device).unwrap(), Err(refusal("refused"))) {
        Err(UploadError::Rejected { message }) => assert_eq!(message, "refused"),
        other => panic!("expected a rejection, got {:?}", other),
    }
    assert_eq!(shader.register(), ColorRegister { value: Color::zero(), staged: Some(red) });
    assert!(shader.render_object().bind_group.as_ref() == Some(&before));

    assert!(shader.adopt(Color::create(&device).unwrap(), Ok(group.clone())).is_ok());
    assert_eq!(shader.register(), ColorRegister { value: red, staged: None });
    assert!(shader.render_object().bind_group.as_ref() == Some(&group));
}

#[test]
fn a_flush_binds_a_new_group() {
    let device = device();
    let mut output = Output::new(&device, FORMAT);
    let before = output.variant(ObjectShader::Uniform).unwrap().render_object().bind_group.clone();
    output.update(color(0.0, 1.0, 0.0, 1.0)).unwrap();
    assert!(output.variant(ObjectShader::Uniform).unwrap().render_object().bind_group == before);
    output.flush(&device).unwrap();
    let after = output.variant(ObjectShader::Uniform).unwrap().render_object().bind_group.clone();
    assert!(after.is_some());
    assert!(after != before);
    // With nothing waiting the group stays.
    output.flush(&device).unwrap();
    assert!(output.variant(ObjectShader::Uniform).unwrap().render_object().bind_group == after);
}

#[test]
fn the_color_buffer_is_made_for_uniform_use() {
    let device = device();
    let buffer = Color::create(&device).unwrap();
    assert_eq!(buffer.usage(), wgpu::BufferUsages::UNIFORM);
    assert_eq!(buffer.size(), 16);
}
