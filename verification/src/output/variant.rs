//! Shader variants as a tagged union, and the slot a registry keeps for each
//! kind.

use vstd::prelude::*;
use crate::output::error::ConfigError;
use crate::output::object::ObjectShader;
use crate::output::gpu::{
    buffer_role, buffer_size, group_plan, group_sound, layout_entry, pipeline_plan,
    pipeline_sound, BufferRole, GroupPlan, PipelinePlan,
};
use crate::output::layout::{Attribute, AttributeFormat, BindingKind, LayoutEntry, PipelineRules, Stage};
use crate::output::uniform_shader::{COLOR_BINDING, UNIFORM_WGSL};
use crate::output::vertex_shader::VERTEX_WGSL;
use crate::output::{FRAGMENT_ENTRY, VERTEX_ENTRY};
use crate::output::uniform_shader::{Color, ColorRegister, UniformShader, COLOR_BYTES};
use crate::output::vertex_shader::VertexShader;
use crate::output::RenderObject;

verus! {

impl ObjectShader {
    /// Whether the crate has a pipeline for this kind.
    pub open spec fn spec_supported(self) -> bool {
        self == ObjectShader::Uniform || self == ObjectShader::Vertex
    }

    /// Whether the crate has a pipeline for this kind.
    #[verifier::when_used_as_spec(spec_supported)]
    pub fn supported(self) -> (supported: bool)
        ensures
            supported == self.spec_supported(),
    {
        match self {
            ObjectShader::Uniform => true,
            ObjectShader::Vertex => true,
            ObjectShader::BlurBehind => false,
            ObjectShader::Texture => false,
        }
    }
}

/// The entry of the layout by which the colour is bound: a uniform buffer at
/// the colour's binding, seen by the fragment stage.
pub open spec fn color_entry() -> LayoutEntry {
    LayoutEntry { binding: COLOR_BINDING, stage: Stage::Fragment, kind: BindingKind::UniformBuffer }
}

impl ObjectShader {
    /// The inputs of the kind's vertex stage: the position, and behind it
    /// the colour for the vertex-colour kind. A kind without a pipeline has
    /// none.
    pub open spec fn spec_attributes(self) -> Seq<Attribute> {
        match self {
            ObjectShader::Uniform => seq![
                Attribute { format: AttributeFormat::Float32x2, offset: 0, location: 0 },
            ],
            ObjectShader::Vertex => seq![
                Attribute { format: AttributeFormat::Float32x2, offset: 0, location: 0 },
                Attribute { format: AttributeFormat::Float32x4, offset: 8, location: 1 },
            ],
            _ => Seq::empty(),
        }
    }

    /// The WGSL text of the kind's shader, empty for a kind without a
    /// pipeline.
    pub open spec fn spec_source(self) -> Seq<char> {
        match self {
            ObjectShader::Uniform => UNIFORM_WGSL@,
            ObjectShader::Vertex => VERTEX_WGSL@,
            _ => Seq::empty(),
        }
    }
}

/// What the pipeline of a kind is asked to be for a target format: the
/// crate's rules, the kind's vertex size, inputs and shader, the two entry
/// points every shader has, and the layout of the kind's bind group if it has
/// one.
pub open spec fn plan_of(
    kind: ObjectShader,
    format: wgpu::TextureFormat,
    layout: Option<wgpu::BindGroupLayout>,
) -> PipelinePlan {
    PipelinePlan {
        format,
        rules: PipelineRules::spec_fixed(),
        stride: (4 * kind.spec_vertex_words()) as u64,
        attributes: kind.spec_attributes(),
        vertex_entry: VERTEX_ENTRY@,
        fragment_entry: FRAGMENT_ENTRY@,
        source: kind.spec_source(),
        group: layout,
    }
}

/// What the registry knows of a built variant.
pub struct VariantView {
    /// The kind of the variant.
    pub kind: ObjectShader,
    /// The pipeline.
    pub pipeline: wgpu::RenderPipeline,
    /// The bind group the pipeline is drawn with, if the variant has one.
    pub group: Option<wgpu::BindGroup>,
    /// The layout that bind groups for the pipeline are made by, if the
    /// variant has a bind group.
    pub layout: Option<wgpu::BindGroupLayout>,
    /// The buffer that holds the variant's colour, if it has a colour.
    pub color: Option<wgpu::Buffer>,
    /// The variant's colour register, if it has a colour.
    pub register: Option<ColorRegister>,
}

impl VariantView {
    /// Whether the variant has a bind group.
    pub open spec fn bound(self) -> bool {
        self.group is Some
    }

    /// The format of the colour target the pipeline was built for.
    pub open spec fn format(self) -> wgpu::TextureFormat {
        pipeline_plan(self.pipeline).format
    }

    /// The pipeline is sound and was built as the variant's kind asks, with
    /// the variant's own layout for its bind group. The uniform variant, and
    /// only it, has a bind group, a layout, a colour buffer and a colour
    /// register: the layout is that of a uniform buffer for the fragment
    /// stage, the buffer is a uniform buffer with room for one colour, and
    /// the bind group is sound and binds that buffer by that layout. The
    /// other kind with a pipeline is the vertex-colour one.
    pub open spec fn wf(self) -> bool {
        &&& self.kind.spec_supported()
        &&& pipeline_sound(self.pipeline)
        &&& pipeline_plan(self.pipeline) =~= plan_of(self.kind, self.format(), self.layout)
        &&& self.layout is Some == (self.kind == ObjectShader::Uniform)
        &&& self.layout matches Some(layout) ==> layout_entry(layout) == color_entry()
        &&& self.color is Some == (self.kind == ObjectShader::Uniform)
        &&& self.color matches Some(color) ==> buffer_size(color) == COLOR_BYTES && buffer_role(
            color,
        ) == BufferRole::Uniform
        &&& self.group is Some == (self.kind == ObjectShader::Uniform)
        &&& self.group matches Some(group) ==> group_sound(group) && self.layout == Some(
            group_plan(group).layout,
        ) && group_plan(group).binding == COLOR_BINDING && self.color == Some(
            group_plan(group).buffer,
        )
        &&& self.register is Some == (self.kind == ObjectShader::Uniform)
    }
}

/// A built shader variant of one of the kinds the crate has a pipeline for.
#[derive(Debug)]
pub enum ShaderVariant {
    Uniform(UniformShader),
    Vertex(VertexShader),
}

impl View for ShaderVariant {
    type V = VariantView;

    open spec fn view(&self) -> VariantView {
        match *self {
            ShaderVariant::Uniform(shader) => shader@,
            ShaderVariant::Vertex(shader) => shader@,
        }
    }
}

impl ShaderVariant {
    /// The variant inside is well formed.
    pub open spec fn wf(&self) -> bool {
        match *self {
            ShaderVariant::Uniform(shader) => shader.wf(),
            ShaderVariant::Vertex(shader) => shader.wf(),
        }
    }

    /// The kind in the view of a variant is the variant's tag, and the view
    /// shows what the variant inside shows.
    pub proof fn lemma_view(&self)
        ensures
            self.wf() ==> self@.wf(),
            self is Uniform <==> self@.kind == ObjectShader::Uniform,
            self is Vertex <==> self@.kind == ObjectShader::Vertex,
            self matches ShaderVariant::Uniform(shader) ==> self@ == shader@,
            self matches ShaderVariant::Vertex(shader) ==> self@ == shader@,
    {
        match *self {
            ShaderVariant::Uniform(shader) => shader.lemma_view(),
            ShaderVariant::Vertex(shader) => shader.lemma_view(),
        }
    }

    /// Builds the variant of a kind for a target format.
    ///
    /// A kind without a pipeline is refused as unsupported before the device
    /// is asked. For the others the device decides: whatever it reports while
    /// the variant is built makes a rejection of that kind.
    pub fn build(device: &wgpu::Device, format: wgpu::TextureFormat, kind: ObjectShader) -> (built:
        Result<ShaderVariant, ConfigError>)
        ensures
            !kind.spec_supported() ==> built == Err::<ShaderVariant, ConfigError>(
                ConfigError::Unsupported { kind },
            ),
            kind.spec_supported() ==> match built {
                Ok(variant) => variant.wf() && variant@.kind == kind && variant@.format()
                    == format,
                Err(error) => error is Rejected && error.spec_kind() == kind,
            },
            kind == ObjectShader::Uniform ==> (built matches Ok(variant) ==> variant@.register
                == Some(
                ColorRegister { value: Color { color: [0u32, 0u32, 0u32, 0u32] }, staged: None },
            )),
    {
        match kind {
            ObjectShader::Uniform => match UniformShader::new(device, format) {
                Ok(shader) => {
                    proof {
                        shader.lemma_view();
                    }
                    Ok(ShaderVariant::Uniform(shader))
                },
                Err(error) => Err(error),
            },
            ObjectShader::Vertex => match VertexShader::new(device, format) {
                Ok(shader) => {
                    proof {
                        shader.lemma_view();
                    }
                    Ok(ShaderVariant::Vertex(shader))
                },
                Err(error) => Err(error),
            },
            ObjectShader::BlurBehind => Err(ConfigError::Unsupported { kind }),
            ObjectShader::Texture => Err(ConfigError::Unsupported { kind }),
        }
    }

    /// The kind of the variant.
    pub fn kind(&self) -> (kind: ObjectShader)
        ensures
            kind == self@.kind,
    {
        proof {
            self.lemma_view();
        }
        match self {
            ShaderVariant::Uniform(_) => ObjectShader::Uniform,
            ShaderVariant::Vertex(_) => ObjectShader::Vertex,
        }
    }

    /// The pipeline and bind group.
    pub fn render_object(&self) -> (render_object: &RenderObject)
        ensures
            render_object.pipeline == self@.pipeline,
            render_object.bind_group == self@.group,
    {
        proof {
            self.lemma_view();
        }
        match self {
            ShaderVariant::Uniform(shader) => shader.render_object(),
            ShaderVariant::Vertex(shader) => shader.render_object(),
        }
    }
}

/// What a registry keeps for one shader kind.
#[derive(Debug)]
pub enum VariantSlot {
    /// Nobody asked for the variant yet.
    Missing,
    /// The variant was built.
    Ready(ShaderVariant),
    /// The variant could not be built, and why.
    Failed(ConfigError),
}

/// What the registry knows of a slot.
pub enum SlotView {
    Missing,
    Ready(VariantView),
    Failed(ConfigError),
}

impl SlotView {
    /// What is in the slot of `kind` belongs to that kind.
    pub open spec fn wf(self, kind: ObjectShader) -> bool {
        match self {
            SlotView::Missing => true,
            SlotView::Ready(variant) => variant.wf() && variant.kind == kind,
            SlotView::Failed(error) => error.spec_kind() == kind,
        }
    }

    /// Whether the variant in the slot, if there is one, was built for the
    /// format.
    pub open spec fn built_for(self, format: wgpu::TextureFormat) -> bool {
        self matches SlotView::Ready(variant) ==> variant.format() == format
    }

    /// What asking for the variant answers: nothing yet for a missing one,
    /// success for a ready one, the kept error for a failed one.
    pub open spec fn answer(self) -> Option<Result<(), ConfigError>> {
        match self {
            SlotView::Missing => None,
            SlotView::Ready(_) => Some(Ok(())),
            SlotView::Failed(error) => Some(Err(error)),
        }
    }

    /// Whether this can be the slot of `kind` right after building the
    /// kind's variant was tried: it is filled; for a kind without a pipeline
    /// with the failure of an unsupported kind, and with nothing else; for a
    /// kind with a pipeline with a variant or with the device's rejection,
    /// never with the failure of an unsupported kind; and a variant with a
    /// colour has a fresh register, which holds transparent black and has
    /// nothing waiting.
    pub open spec fn built(self, kind: ObjectShader) -> bool {
        &&& !(self is Missing)
        &&& !kind.spec_supported() ==> self == SlotView::Failed(ConfigError::Unsupported { kind })
        &&& kind.spec_supported() ==> (self matches SlotView::Failed(error) ==> error is Rejected)
        &&& kind == ObjectShader::Uniform ==> (self matches SlotView::Ready(variant)
            ==> variant.register == Some(
            ColorRegister { value: Color { color: [0u32, 0u32, 0u32, 0u32] }, staged: None },
        ))
    }

    /// Whether this can be the slot of `kind` after the variants were built
    /// anew: still missing if it was missing, else as building leaves it.
    pub open spec fn rebuilt(self, kind: ObjectShader, was_missing: bool) -> bool {
        if was_missing {
            self is Missing
        } else {
            self.built(kind)
        }
    }

    /// The slot that the outcome of building a variant fills.
    pub open spec fn of(outcome: Result<ShaderVariant, ConfigError>) -> SlotView {
        match outcome {
            Ok(variant) => SlotView::Ready(variant@),
            Err(error) => SlotView::Failed(error),
        }
    }
}

impl View for VariantSlot {
    type V = SlotView;

    open spec fn view(&self) -> SlotView {
        match *self {
            VariantSlot::Missing => SlotView::Missing,
            VariantSlot::Ready(variant) => SlotView::Ready(variant@),
            VariantSlot::Failed(error) => SlotView::Failed(error),
        }
    }
}

impl VariantSlot {
    /// What is in the slot of `kind` is well formed and belongs to that kind.
    pub open spec fn wf(&self, kind: ObjectShader) -> bool {
        &&& self@.wf(kind)
        &&& self matches VariantSlot::Ready(variant) ==> variant.wf()
    }

    /// The slot that the outcome of building a variant fills.
    pub fn of(outcome: Result<ShaderVariant, ConfigError>) -> (slot: VariantSlot)
        ensures
            slot@ == SlotView::of(outcome),
            outcome matches Ok(variant) ==> slot == VariantSlot::Ready(variant),
            outcome matches Err(error) ==> slot == VariantSlot::Failed(error),
    {
        match outcome {
            Ok(variant) => VariantSlot::Ready(variant),
            Err(error) => VariantSlot::Failed(error),
        }
    }

    /// What asking for the variant answers.
    pub fn answer(&self) -> (answer: Option<Result<(), ConfigError>>)
        ensures
            answer == self@.answer(),
    {
        match self {
            VariantSlot::Missing => None,
            VariantSlot::Ready(_) => Some(Ok(())),
            VariantSlot::Failed(error) => Some(Err(error.duplicate())),
        }
    }
}

/// The kind that the outcome of building a variant belongs to.
pub open spec fn outcome_kind(outcome: Result<ShaderVariant, ConfigError>) -> ObjectShader {
    match outcome {
        Ok(variant) => variant@.kind,
        Err(error) => error.spec_kind(),
    }
}

} // verus!
