use twilight_wgpu_backend::output::capture::first_of;
use twilight_wgpu_backend::output::command::{DrawCommand, FrameReport};
use twilight_wgpu_backend::output::error::{ConfigError, UploadError};
use twilight_wgpu_backend::output::gpu::Reports;
use twilight_wgpu_backend::output::layout::{
    Attribute, AttributeFormat, IndexWidth, PipelineRules, Topology,
};
use twilight_wgpu_backend::output::object::{index_span, ClassHandle, ObjectShader};
use twilight_wgpu_backend::output::uniform_shader::{Color, ColorRegister, Vertex, COLOR_BINDING};
use twilight_wgpu_backend::output::vertex_shader::VertexShader;
use twilight_wgpu_backend::output::{
    BASE_VERTEX, BIND_GROUP, FRAGMENT_ENTRY, INDEX_WIDTH, INSTANCES, VERTEX_ENTRY, VERTEX_SLOT,
};

#[test]
fn the_span_is_one_past_the_largest_index() {
    assert_eq!(index_span(&vec![]), 0);
    assert_eq!(index_span(&vec![0]), 1);
    assert_eq!(index_span(&vec![0, 1, 2, 2, 3, 0]), 4);
    assert_eq!(index_span(&vec![7, 1, 2]), 8);
    assert_eq!(index_span(&vec![u32::MAX, 0]), 4_294_967_296);
}

#[test]
fn each_kind_has_its_vertex_size() {
    assert_eq!(ObjectShader::Uniform.vertex_words(), 2);
    assert_eq!(ObjectShader::Vertex.vertex_words(), 6);
    assert_eq!(ObjectShader::BlurBehind.vertex_words(), 2);
    assert_eq!(ObjectShader::Texture.vertex_words(), 4);
    assert_eq!(ObjectShader::Uniform.vertex_bytes(), 8);
    assert_eq!(ObjectShader::Vertex.vertex_bytes(), 24);
    assert_eq!(ObjectShader::BlurBehind.vertex_bytes(), 8);
    assert_eq!(ObjectShader::Texture.vertex_bytes(), 16);
    assert_eq!(COLOR_BINDING, 0);
    assert_eq!(VERTEX_ENTRY, "vs_main");
    assert_eq!(FRAGMENT_ENTRY, "fs_main");
}

#[test]
fn vertices_flatten_to_their_coordinates_in_order() {
    let vertices = vec![
        Vertex { position: [1.0f32.to_bits(), 2.0f32.to_bits()] },
        Vertex { position: [3.0f32.to_bits(), 4.0f32.to_bits()] },
    ];
    assert_eq!(
        Vertex::flatten(&vertices),
        vec![1.0f32.to_bits(), 2.0f32.to_bits(), 3.0f32.to_bits(), 4.0f32.to_bits()]
    );
    assert_eq!(Vertex::flatten(&vec![]), Vec::<u32>::new());
}

#[test]
fn pipelines_read_positions_and_colors_where_the_vertices_have_them() {
    assert_eq!(
        Vertex::attributes(),
        vec![Attribute { format: AttributeFormat::Float32x2, offset: 0, location: 0 }]
    );
    assert_eq!(
        VertexShader::attributes(),
        vec![
            Attribute { format: AttributeFormat::Float32x2, offset: 0, location: 0 },
            Attribute { format: AttributeFormat::Float32x4, offset: 8, location: 1 },
        ]
    );
}

#[test]
fn a_color_is_four_words() {
    let color = Color { color: [1, 2, 3, 4] };
    assert_eq!(color.words(), vec![1, 2, 3, 4]);
    assert_eq!(Color::zero(), Color { color: [0, 0, 0, 0] });
    assert_eq!(Color::zero().words(), vec![0, 0, 0, 0]);
}

#[test]
fn the_register_sends_the_last_written_color_once() {
    let first = Color { color: [1, 1, 1, 1] };
    let second = Color { color: [2, 2, 2, 2] };
    let mut register = ColorRegister::new(Color::zero());
    assert_eq!(register, ColorRegister { value: Color::zero(), staged: None });
    assert_eq!(register.flush(), None);

    register.stage(first);
    assert_eq!(register, ColorRegister { value: Color::zero(), staged: Some(first) });
    register.stage(second);
    assert_eq!(register, ColorRegister { value: Color::zero(), staged: Some(second) });
    assert_eq!(register.flush(), Some(second));
    assert_eq!(register, ColorRegister { value: second, staged: None });
    assert_eq!(register.flush(), None);
    assert_eq!(register, ColorRegister { value: second, staged: None });
}

#[test]
fn a_report_counts_each_sort_of_command() {
    let commands = vec![
        DrawCommand::SetPipeline { shader: ObjectShader::Uniform },
        DrawCommand::SetBindGroup { shader: ObjectShader::Uniform, bound: true },
        DrawCommand::SetVertexBuffer { class: 0 },
        DrawCommand::SetIndexBuffer { class: 0, object: 0 },
        DrawCommand::DrawIndexed { index_count: 3 },
        DrawCommand::SetIndexBuffer { class: 0, object: 1 },
        DrawCommand::DrawIndexed { index_count: 6 },
        DrawCommand::SetVertexBuffer { class: 2 },
        DrawCommand::SetIndexBuffer { class: 2, object: 0 },
        DrawCommand::DrawIndexed { index_count: 9 },
    ];
    let report = FrameReport::of(&commands, vec![ClassHandle { id: 5 }]);
    assert_eq!(
        report,
        FrameReport {
            pipeline_binds: 1,
            group_binds: 1,
            vertex_binds: 2,
            index_binds: 3,
            draws: 3,
            skipped: vec![ClassHandle { id: 5 }],
        }
    );
    assert_eq!(FrameReport::of(&vec![], vec![]).draws, 0);
}

#[test]
fn a_device_report_turns_a_built_value_into_an_error() {
    assert!(matches!(UploadError::settle(7u32, None), Ok(7)));
    match UploadError::settle(7u32, Some("full".to_string())) {
        Err(UploadError::Rejected { message }) => assert_eq!(message, "full"),
        other => panic!("expected a rejection, got {:?}", other),
    }
}

#[test]
fn an_error_can_be_copied() {
    let error = ConfigError::Rejected { kind: ObjectShader::Uniform, message: "refused".to_string() };
    match error.duplicate() {
        ConfigError::Rejected { kind, message } => {
            assert_eq!(kind, ObjectShader::Uniform);
            assert_eq!(message, "refused");
        }
        other => panic!("expected a rejection, got {:?}", other),
    }
    assert_eq!(error.kind(), ObjectShader::Uniform);
    let unsupported = ConfigError::Unsupported { kind: ObjectShader::Texture };
    assert!(matches!(unsupported.duplicate(), ConfigError::Unsupported { kind: ObjectShader::Texture }));
}

#[test]
fn the_first_report_wins() {
    let a = Some("a".to_string());
    let b = Some("b".to_string());
    assert_eq!(first_of(a.clone(), b.clone()), a);
    assert_eq!(first_of(None, b.clone()), b);
    assert_eq!(first_of(a.clone(), None), a);
    assert_eq!(first_of(None, None), None);
}

#[test]
fn a_validation_error_goes_before_the_others() {
    let reports = |validation: Option<&str>, memory: Option<&str>, internal: Option<&str>| Reports {
        validation: validation.map(str::to_string),
        memory: memory.map(str::to_string),
        internal: internal.map(str::to_string),
    };
    assert_eq!(reports(None, None, None).first(), None);
    assert_eq!(reports(Some("v"), Some("m"), Some("i")).first(), Some("v".to_string()));
    assert_eq!(reports(None, Some("m"), Some("i")).first(), Some("m".to_string()));
    assert_eq!(reports(None, None, Some("i")).first(), Some("i".to_string()));
    assert_eq!(reports(Some("v"), None, Some("i")).first(), Some("v".to_string()));
}

#[test]
fn the_message_of_a_report_is_its_first_or_empty() {
    let reports = Reports { validation: None, memory: Some("m".to_string()), internal: None };
    assert_eq!(reports.message(), "m");
    let clean = Reports { validation: None, memory: None, internal: None };
    assert_eq!(clean.message(), "");
    assert_eq!(UploadError::Rejected { message: "full".to_string() }.message(), "full");
    assert_eq!(UploadError::TooLarge.message(), "");
    assert_eq!(UploadError::Ragged.message(), "");
}

#[test]
fn the_pass_is_told_group_and_slot_zero_and_one_instance() {
    assert_eq!(BIND_GROUP, 0);
    assert_eq!(VERTEX_SLOT, 0);
    assert_eq!(BASE_VERTEX, 0);
    assert_eq!(INSTANCES, 1);
    assert_eq!(INDEX_WIDTH, IndexWidth::Bits32);
    assert_eq!(
        PipelineRules::fixed(),
        PipelineRules {
            topology: Topology::TriangleList,
            depth_test: false,
            samples: 1,
            blend: true,
            write_all: true,
            per_vertex: true,
        }
    );
}
