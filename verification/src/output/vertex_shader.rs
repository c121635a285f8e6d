//! The vertex-colour shader variant.

use vstd::prelude::*;
use crate::output::error::ConfigError;
use crate::output::gpu::{pipeline_plan, pipeline_sound};
use crate::output::layout::{tiles, Attribute, AttributeFormat};
use crate::output::object::ObjectShader;
use crate::output::variant::{plan_of, VariantView};
use crate::output::RenderObject;

verus! {

/// The shader of the vertex-colour variant.
pub const VERTEX_WGSL: &'static str = "
struct Colored {
    @builtin(position) position: vec4<f32>,
    @location(0) color: vec4<f32>,
}

@vertex
fn vs_main(@location(0) position: vec2<f32>, @location(1) color: vec4<f32>) -> Colored {
    var colored: Colored;
    colored.position = vec4<f32>(position, 0, 1);
    colored.color = color;
    return colored;
}

@fragment
fn fs_main(colored: Colored) -> @location(0) vec4<f32> {
    return colored.color;
}
";

/// The vertex-colour variant: a pipeline that blends the colours of a
/// triangle's vertices. It has no bind group.
#[derive(Debug)]
pub struct VertexShader {
    render_object: RenderObject,
}

impl View for VertexShader {
    type V = VariantView;

    closed spec fn view(&self) -> VariantView {
        VariantView {
            kind: ObjectShader::Vertex,
            pipeline: self.render_object.pipeline,
            group: self.render_object.bind_group,
            layout: None,
            color: None,
            register: None,
        }
    }
}

impl VertexShader {
    /// The view is well formed: the pipeline is sound and there is no bind
    /// group.
    pub open spec fn wf(&self) -> bool {
        self@.wf()
    }

    /// What the view of a vertex-colour variant always says.
    pub proof fn lemma_view(&self)
        ensures
            self@.kind == ObjectShader::Vertex,
            self@.layout is None,
            self@.color is None,
            self@.register is None,
    {
    }

    /// How the pipeline reads a vertex: the position at the start, for
    /// `@location(0)`, and the colour behind it, for `@location(1)`. That is
    /// the whole vertex of the vertex-colour kind.
    pub fn attributes() -> (attributes: Vec<Attribute>)
        ensures
            attributes@ == seq![
                Attribute { format: AttributeFormat::Float32x2, offset: 0, location: 0 },
                Attribute { format: AttributeFormat::Float32x4, offset: 8, location: 1 },
            ],
            tiles(attributes@, 4 * ObjectShader::Vertex.spec_vertex_words()),
    {
        let mut attributes: Vec<Attribute> = Vec::new();
        attributes.push(Attribute { format: AttributeFormat::Float32x2, offset: 0, location: 0 });
        attributes.push(Attribute { format: AttributeFormat::Float32x4, offset: 8, location: 1 });
        proof {
            assert(attributes@ =~= seq![
                Attribute { format: AttributeFormat::Float32x2, offset: 0, location: 0 },
                Attribute { format: AttributeFormat::Float32x4, offset: 8, location: 1 },
            ]);
        }
        attributes
    }

    /// Builds the variant for a target format. The device decides whether it
    /// comes back: whatever it reports while the variant is built makes a
    /// rejection of the kind `Vertex`.
    pub fn new(device: &wgpu::Device, format: wgpu::TextureFormat) -> (built: Result<
        VertexShader,
        ConfigError,
    >)
        ensures
            built matches Ok(shader) ==> shader.wf() && shader@.format() == format,
            built matches Err(error) ==> error is Rejected && error.spec_kind()
                == ObjectShader::Vertex,
    {
        let attributes = VertexShader::attributes();
        let built = RenderObject::pipeline_for(
            device,
            format,
            VERTEX_WGSL,
            None,
            ObjectShader::Vertex.vertex_bytes(),
            &attributes,
        );
        VertexShader::assemble(built)
    }

    /// The variant around a pipeline that was built, or the rejection that
    /// the device's message makes.
    pub fn assemble(built: Result<wgpu::RenderPipeline, String>) -> (assembled: Result<
        VertexShader,
        ConfigError,
    >)
        requires
            built matches Ok(pipeline) ==> pipeline_sound(pipeline) && pipeline_plan(pipeline)
                =~= plan_of(ObjectShader::Vertex, pipeline_plan(pipeline).format, None),
        ensures
            match built {
                Ok(pipeline) => assembled matches Ok(shader) && shader.wf() && shader@
                    == (VariantView {
                    kind: ObjectShader::Vertex,
                    pipeline,
                    group: None,
                    layout: None,
                    color: None,
                    register: None,
                }),
                Err(message) => assembled == Err::<VertexShader, ConfigError>(
                    ConfigError::Rejected { kind: ObjectShader::Vertex, message },
                ),
            },
    {
        match built {
            Ok(pipeline) => Ok(
                VertexShader { render_object: RenderObject { pipeline, bind_group: None } },
            ),
            Err(message) => Err(ConfigError::Rejected { kind: ObjectShader::Vertex, message }),
        }
    }

    /// The pipeline.
    pub fn render_object(&self) -> (render_object: &RenderObject)
        ensures
            render_object.pipeline == self@.pipeline,
            render_object.bind_group == self@.group,
    {
        &self.render_object
    }
}

} // verus!
