//! The uniform-colour shader variant, and the colour and vertex data it
//! reads.

use vstd::prelude::*;
use crate::output::error::{ConfigError, UploadError};
use crate::output::gpu::{
    buffer_role, buffer_size, buffer_sound, create_bind_group, create_bind_group_layout,
    create_buffer, group_plan, group_sound, layout_entry, pipeline_plan, pipeline_sound,
    BufferRole, ErrorTrap, GroupPlan, Reports,
};
use crate::output::layout::{
    tiles, Attribute, AttributeFormat, BindingKind, LayoutEntry, Stage,
};
use crate::output::object::{upload, ObjectShader};
use crate::output::variant::{color_entry, plan_of, VariantView};
use crate::output::RenderObject;

verus! {

/// The size in bytes of a colour on the device.
pub const COLOR_BYTES: u64 = 16;

/// The binding of the colour in bind group 0.
pub const COLOR_BINDING: u32 = 0;

/// The shader of the uniform-colour variant.
pub const UNIFORM_WGSL: &'static str = "
@group(0) @binding(0) var<uniform> color: vec4<f32>;

@vertex
fn vs_main(@location(0) position: vec2<f32>) -> @builtin(position) vec4<f32> {
    return vec4<f32>(position, 0, 1);
}

@fragment
fn fs_main() -> @location(0) vec4<f32> {
    return color;
}
";

/// A vertex with nothing but a position: the bit patterns of its two
/// single-precision coordinates.
#[derive(Clone, Copy, Debug, PartialEq, Eq)]
pub struct Vertex {
    pub position: [u32; 2],
}

impl Vertex {
    /// The words of a list of vertices as a vertex buffer holds them: the two
    /// coordinates of the first vertex, then those of the second, and so on.
    pub fn flatten(vertices: &Vec<Vertex>) -> (words: Vec<u32>)
        ensures
            words@.len() == 2 * vertices@.len(),
            forall|i: int|
                0 <= i < vertices@.len() ==> words@[2 * i] == (#[trigger] vertices@[i]).position@[0]
                    && words@[2 * i + 1] == vertices@[i].position@[1],
    {
        let mut words: Vec<u32> = Vec::new();
        let mut i: usize = 0;
        while i < vertices.len()
            invariant
                i <= vertices@.len(),
                words@.len() == 2 * i,
                forall|j: int|
                    0 <= j < i ==> words@[2 * j] == (#[trigger] vertices@[j]).position@[0]
                        && words@[2 * j + 1] == vertices@[j].position@[1],
            decreases vertices.len() - i,
        {
            words.push(vertices[i].position[0]);
            words.push(vertices[i].position[1]);
            i += 1;
        }
        words
    }

    /// How a pipeline reads a vertex: the position at the start, for
    /// `@location(0)`. That is the whole vertex of the uniform kind.
    pub fn attributes() -> (attributes: Vec<Attribute>)
        ensures
            attributes@ == seq![
                Attribute { format: AttributeFormat::Float32x2, offset: 0, location: 0 },
            ],
            tiles(attributes@, 4 * ObjectShader::Uniform.spec_vertex_words()),
    {
        let mut attributes: Vec<Attribute> = Vec::new();
        attributes.push(Attribute { format: AttributeFormat::Float32x2, offset: 0, location: 0 });
        proof {
            assert(attributes@ =~= seq![
                Attribute { format: AttributeFormat::Float32x2, offset: 0, location: 0 },
            ]);
        }
        attributes
    }
}

/// A colour: the bit patterns of its red, green, blue and alpha components,
/// each a single-precision number.
#[derive(Clone, Copy, Debug, PartialEq, Eq)]
pub struct Color {
    pub color: [u32; 4],
}

impl Color {
    /// The colour whose components are all zero: transparent black, and what
    /// a new buffer holds.
    pub fn zero() -> (color: Color)
        ensures
            color.color@ == seq![0u32, 0u32, 0u32, 0u32],
    {
        let color = Color { color: [0, 0, 0, 0] };
        proof {
            assert(color.color@ =~= seq![0u32, 0u32, 0u32, 0u32]);
        }
        color
    }

    /// The four words of the colour, in order.
    pub fn words(&self) -> (words: Vec<u32>)
        ensures
            words@ == self.color@,
    {
        let mut words: Vec<u32> = Vec::new();
        words.push(self.color[0]);
        words.push(self.color[1]);
        words.push(self.color[2]);
        words.push(self.color[3]);
        proof {
            assert(words@ =~= self.color@);
        }
        words
    }

    /// Makes a uniform buffer with room for one colour, unmapped and not
    /// written to. The device decides whether it comes back.
    pub fn create(device: &wgpu::Device) -> (made: Result<wgpu::Buffer, UploadError>)
        ensures
            made matches Ok(buffer) ==> buffer_size(buffer) == COLOR_BYTES && buffer_role(buffer)
                == BufferRole::Uniform && buffer_sound(buffer),
            made matches Err(error) ==> error is Rejected,
    {
        match create_buffer(device, COLOR_BYTES, BufferRole::Uniform, false) {
            Ok(new) => Ok(new.unfilled()),
            Err(reports) => Err(UploadError::Rejected { message: reports.message() }),
        }
    }
}

/// The colour of the uniform variant as a staged-write register: one slot
/// for the colour the device has, one for a colour that waits to be sent.
///
/// A write only fills the waiting slot, so the frame in flight keeps its
/// colour; the next flush moves the waiting colour to the device. Of several
/// writes before one flush the last one wins.
#[derive(Clone, Copy, Debug, PartialEq, Eq)]
pub struct ColorRegister {
    /// The colour in the device's buffer.
    pub value: Color,
    /// The colour written since the last flush, if there was a write.
    pub staged: Option<Color>,
}

impl ColorRegister {
    /// A register that holds a colour and has nothing waiting.
    pub fn new(value: Color) -> (register: ColorRegister)
        ensures
            register == (ColorRegister { value, staged: None }),
    {
        ColorRegister { value, staged: None }
    }

    /// The register after a write: the written colour waits, and the
    /// device's colour is what it was.
    pub open spec fn written(self, value: Color) -> ColorRegister {
        ColorRegister { value: self.value, staged: Some(value) }
    }

    /// Writes a colour: it waits for the next flush, in place of any colour
    /// that waited before.
    pub fn stage(&mut self, value: Color)
        ensures
            *final(self) == old(self).written(value),
    {
        self.staged = Some(value);
    }

    /// The register after a flush: the waiting colour, if there is one, is
    /// now the device's.
    pub open spec fn flushed(self) -> ColorRegister {
        ColorRegister {
            value: match self.staged {
                Some(value) => value,
                None => self.value,
            },
            staged: None,
        }
    }

    /// Of several writes before one flush the last one wins, and until the
    /// flush the device keeps the colour it had.
    pub proof fn law_last_write_wins(self, first: Color, second: Color)
        ensures
            self.written(first).value == self.value,
            self.written(first).written(second).value == self.value,
            self.written(first).written(second).flushed() == (ColorRegister {
                value: second,
                staged: None,
            }),
            self.flushed().flushed() == self.flushed(),
    {
    }

    /// Moves the waiting colour to the device's slot and hands it out for
    /// sending; `None` if nothing waited.
    pub fn flush(&mut self) -> (sent: Option<Color>)
        ensures
            sent == old(self).staged,
            *final(self) == old(self).flushed(),
    {
        let sent = self.staged;
        match sent {
            Some(value) => {
                self.value = value;
                self.staged = None;
            },
            None => {},
        }
        sent
    }
}

/// The uniform-colour variant: a pipeline that fills every triangle with one
/// colour, the buffer that holds the colour, and the register that says what
/// the buffer holds.
#[derive(Debug)]
pub struct UniformShader {
    render_object: RenderObject,
    bind_layout: wgpu::BindGroupLayout,
    color: wgpu::Buffer,
    register: ColorRegister,
}

impl View for UniformShader {
    type V = VariantView;

    closed spec fn view(&self) -> VariantView {
        VariantView {
            kind: ObjectShader::Uniform,
            pipeline: self.render_object.pipeline,
            group: self.render_object.bind_group,
            layout: Some(self.bind_layout),
            color: Some(self.color),
            register: Some(self.register),
        }
    }
}

impl UniformShader {
    /// The view is well formed: the pipeline and the bind group are sound,
    /// and the colour buffer has room for one colour.
    pub open spec fn wf(&self) -> bool {
        self@.wf()
    }

    /// What the view of a uniform variant always says.
    pub proof fn lemma_view(&self)
        ensures
            self@.kind == ObjectShader::Uniform,
            self@.layout is Some,
            self@.color is Some,
            self@.register is Some,
    {
    }

    /// Builds the variant for a target format, with transparent black as its
    /// colour. The device decides whether it comes back: whatever it reports
    /// while the variant is built makes a rejection of the kind `Uniform`.
    pub fn new(device: &wgpu::Device, format: wgpu::TextureFormat) -> (built: Result<
        UniformShader,
        ConfigError,
    >)
        ensures
            built matches Ok(shader) ==> shader.wf() && shader@.format() == format
                && shader@.register == Some(
                ColorRegister { value: Color { color: [0u32, 0u32, 0u32, 0u32] }, staged: None },
            ),
            built matches Err(error) ==> error is Rejected && error.spec_kind()
                == ObjectShader::Uniform,
    {
        let color = match Color::create(device) {
            Ok(color) => color,
            Err(error) => {
                return Err(
                    ConfigError::Rejected { kind: ObjectShader::Uniform, message: error.message() },
                );
            },
        };
        let trap = ErrorTrap::open(device);
        let entry = LayoutEntry {
            binding: COLOR_BINDING,
            stage: Stage::Fragment,
            kind: BindingKind::UniformBuffer,
        };
        let bind_layout = create_bind_group_layout(&trap, entry);
        let report = trap.report();
        let group = create_bind_group(device, &bind_layout, COLOR_BINDING, &color);
        let attributes = Vertex::attributes();
        let pipeline = RenderObject::pipeline_for(
            device,
            format,
            UNIFORM_WGSL,
            Some(&bind_layout),
            ObjectShader::Uniform.vertex_bytes(),
            &attributes,
        );
        UniformShader::assemble(color, bind_layout, RenderObject::settle(report, group), pipeline)
    }

    /// The variant around the parts that were built, with transparent black
    /// in its register, or the rejection that the device's message makes:
    /// that of the bind group before that of the pipeline.
    pub fn assemble(
        color: wgpu::Buffer,
        bind_layout: wgpu::BindGroupLayout,
        group: Result<wgpu::BindGroup, String>,
        pipeline: Result<wgpu::RenderPipeline, String>,
    ) -> (assembled: Result<UniformShader, ConfigError>)
        requires
            buffer_size(color) == COLOR_BYTES,
            buffer_role(color) == BufferRole::Uniform,
            layout_entry(bind_layout) == color_entry(),
            group matches Ok(group) ==> group_sound(group) && group_plan(group) == (GroupPlan {
                layout: bind_layout,
                binding: COLOR_BINDING,
                buffer: color,
            }),
            pipeline matches Ok(pipeline) ==> pipeline_sound(pipeline) && pipeline_plan(pipeline)
                =~= plan_of(
                ObjectShader::Uniform,
                pipeline_plan(pipeline).format,
                Some(bind_layout),
            ),
        ensures
            match (group, pipeline) {
                (Ok(group), Ok(pipeline)) => assembled matches Ok(shader) && shader.wf()
                    && shader@ == (VariantView {
                    kind: ObjectShader::Uniform,
                    pipeline,
                    group: Some(group),
                    layout: Some(bind_layout),
                    color: Some(color),
                    register: Some(
                        ColorRegister {
                            value: Color { color: [0u32, 0u32, 0u32, 0u32] },
                            staged: None,
                        },
                    ),
                }),
                (Err(message), _) => assembled == Err::<UniformShader, ConfigError>(
                    ConfigError::Rejected { kind: ObjectShader::Uniform, message },
                ),
                (Ok(_), Err(message)) => assembled == Err::<UniformShader, ConfigError>(
                    ConfigError::Rejected { kind: ObjectShader::Uniform, message },
                ),
            },
    {
        match group {
            Err(message) => Err(ConfigError::Rejected { kind: ObjectShader::Uniform, message }),
            Ok(group) => match pipeline {
                Err(message) => Err(
                    ConfigError::Rejected { kind: ObjectShader::Uniform, message },
                ),
                Ok(pipeline) => Ok(
                    UniformShader {
                        render_object: RenderObject { pipeline, bind_group: Some(group) },
                        bind_layout,
                        color,
                        register: ColorRegister::new(Color { color: [0, 0, 0, 0] }),
                    },
                ),
            },
        }
    }

    /// The pipeline and bind group.
    pub fn render_object(&self) -> (render_object: &RenderObject)
        ensures
            render_object.pipeline == self@.pipeline,
            render_object.bind_group == self@.group,
    {
        &self.render_object
    }

    /// The colour register.
    pub fn register(&self) -> (register: ColorRegister)
        ensures
            Some(register) == self@.register,
    {
        self.register
    }

    /// Writes a new colour. It waits in the register until the next flush, so
    /// frames already recorded keep the colour they had.
    pub fn update(&mut self, value: Color)
        ensures
            final(self)@ == (VariantView {
                register: Some(old(self)@.register->0.written(value)),
                ..old(self)@
            }),
    {
        self.register.stage(value);
    }

    /// Puts the waiting colour, if there is one, on the device: in a new
    /// buffer, bound by a new bind group, so that frames recorded from now on
    /// are drawn with it and frames recorded before keep the colour they had.
    ///
    /// With nothing waiting the variant is left as it was. Otherwise the
    /// device decides: if it reports an error the colour keeps waiting and the
    /// variant keeps its buffer and bind group.
    pub fn flush(&mut self, device: &wgpu::Device) -> (sent: Result<(), UploadError>)
        requires
            old(self).wf(),
        ensures
            final(self).wf(),
            old(self)@.register->0.staged is None ==> sent is Ok && *final(self) == *old(self),
            match sent {
                Ok(()) => final(self)@ == (VariantView {
                    color: final(self)@.color,
                    group: final(self)@.group,
                    register: Some(old(self)@.register->0.flushed()),
                    ..old(self)@
                }),
                Err(error) => error is Rejected && *final(self) == *old(self),
            },
    {
        let value = match self.register.staged {
            None => {
                assert(self.register == self.register.flushed());
                return Ok(());
            },
            Some(value) => value,
        };
        let color = match upload(device, &value.words(), BufferRole::Uniform) {
            Ok(color) => color,
            Err(error) => {
                return Err(error);
            },
        };
        let group = create_bind_group(device, &self.bind_layout, COLOR_BINDING, &color);
        self.adopt(color, group)
    }

    /// Takes over a buffer that holds the waiting colour and the bind group
    /// the device made for it, or keeps everything as it is if the device
    /// refused the bind group.
    pub fn adopt(&mut self, color: wgpu::Buffer, group: Result<wgpu::BindGroup, Reports>) -> (sent:
        Result<(), UploadError>)
        requires
            old(self).wf(),
            buffer_size(color) == COLOR_BYTES,
            buffer_role(color) == BufferRole::Uniform,
            group matches Ok(group) ==> group_sound(group) && group_plan(group) == (GroupPlan {
                layout: old(self)@.layout->0,
                binding: COLOR_BINDING,
                buffer: color,
            }),
        ensures
            final(self).wf(),
            match group {
                Ok(group) => sent is Ok && final(self)@ == (VariantView {
                    color: Some(color),
                    group: Some(group),
                    register: Some(old(self)@.register->0.flushed()),
                    ..old(self)@
                }),
                Err(reports) => {
                    &&& sent matches Err(UploadError::Rejected { message }) && message@
                        == reports.spec_message()
                    &&& *final(self) == *old(self)
                },
            },
    {
        match group {
            Ok(group) => {
                self.render_object.bind_group = Some(group);
                self.color = color;
                self.register.flush();
                Ok(())
            },
            Err(reports) => Err(UploadError::Rejected { message: reports.message() }),
        }
    }
}

} // verus!
