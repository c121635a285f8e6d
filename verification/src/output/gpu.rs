//! The boundary with wgpu.
//!
//! Every wgpu item the registry touches is declared here, and nothing else in
//! the crate calls wgpu. The handles are opaque. What the registry knows of
//! one is what it was asked to be when it was made (a size and a use, a
//! source text, a layout entry, the plan of a pipeline or of a bind group)
//! and, of a buffer, a pipeline or a bind group, whether the device made it
//! without reporting an error. Of a render pass it knows what the pass was
//! told, in the meaning wgpu's documentation gives to the calls.
//!
//! No contract of a function that calls wgpu is proved; each doc comment
//! says what it takes on trust. A call that makes a handle the pass is later
//! given stands inside error scopes of its own and hands the handle out only
//! if the scopes caught nothing, so that the calls on a pass can ask for
//! sound handles and never meet one that wgpu would report. The other calls
//! on the device take an open [`ErrorTrap`] in place of the device.
//!
//! wgpu keeps error scopes for each device, not for each thread. What is
//! said here of scopes, and so of soundness, holds while no other thread
//! pushes or pops scopes on the same device: a registry and its device are
//! used from one thread.

use vstd::prelude::*;
use crate::output::layout::{
    Attribute, AttributeFormat, BindingKind, IndexWidth, LayoutEntry, PipelineRules, Stage,
    Topology,
};
use wgpu::{
    BlendState, ColorTargetState, ColorWrites, FragmentState, RenderPipelineDescriptor,
    VertexBufferLayout, VertexState, VertexStepMode,
};

verus! {

#[verifier::external_type_specification]
#[verifier::external_body]
pub struct ExDevice(wgpu::Device);

#[verifier::external_type_specification]
#[verifier::external_body]
pub struct ExTextureFormat(wgpu::TextureFormat);

#[verifier::external_type_specification]
#[verifier::external_body]
pub struct ExBuffer(wgpu::Buffer);

#[verifier::external_type_specification]
#[verifier::external_body]
pub struct ExShaderModule(wgpu::ShaderModule);

#[verifier::external_type_specification]
#[verifier::external_body]
pub struct ExBindGroupLayout(wgpu::BindGroupLayout);

#[verifier::external_type_specification]
#[verifier::external_body]
pub struct ExBindGroup(wgpu::BindGroup);

#[verifier::external_type_specification]
#[verifier::external_body]
pub struct ExPipelineLayout(wgpu::PipelineLayout);

#[verifier::external_type_specification]
#[verifier::external_body]
pub struct ExRenderPipeline(wgpu::RenderPipeline);

#[verifier::external_type_specification]
#[verifier::external_body]
pub struct ExRenderPass<'a>(wgpu::RenderPass<'a>);

#[verifier::external_type_specification]
#[verifier::external_body]
pub struct ExVertexAttribute(wgpu::VertexAttribute);

/// The byte size a buffer was created with, as `wgpu::Buffer::size` reports it.
pub uninterp spec fn buffer_size(buffer: wgpu::Buffer) -> u64;

/// Whether the device made the buffer without reporting an error, so that
/// the handle names a buffer of the device. A handle is sound or not from
/// its making on.
pub uninterp spec fn buffer_sound(buffer: wgpu::Buffer) -> bool;

/// What the buffer was created for.
pub uninterp spec fn buffer_role(buffer: wgpu::Buffer) -> BufferRole;

/// The WGSL text a shader module was created from.
pub uninterp spec fn shader_source(module: wgpu::ShaderModule) -> Seq<char>;

/// The one entry a bind group layout was created with.
pub uninterp spec fn layout_entry(layout: wgpu::BindGroupLayout) -> LayoutEntry;

/// The bind group layout a pipeline layout was created with as its group 0,
/// if it was created with one.
pub uninterp spec fn layout_group(layout: wgpu::PipelineLayout) -> Option<wgpu::BindGroupLayout>;

/// The attribute that one of wgpu's own stands for.
pub uninterp spec fn attribute_of(attribute: wgpu::VertexAttribute) -> Attribute;

/// The attributes that a list of wgpu's own stands for, one for one.
pub open spec fn attributes_of(list: Seq<wgpu::VertexAttribute>) -> Seq<Attribute> {
    Seq::new(list.len(), |i: int| attribute_of(list[i]))
}

/// What a pipeline was asked to be.
#[verifier::ext_equal]
pub struct PipelinePlan {
    /// The format of the one colour target.
    pub format: wgpu::TextureFormat,
    /// The rules that hold of every pipeline.
    pub rules: PipelineRules,
    /// The size in bytes of a vertex in the one vertex buffer.
    pub stride: u64,
    /// The inputs of the vertex stage.
    pub attributes: Seq<Attribute>,
    /// The name of the vertex stage's entry point.
    pub vertex_entry: Seq<char>,
    /// The name of the fragment stage's entry point.
    pub fragment_entry: Seq<char>,
    /// The WGSL text of the shader.
    pub source: Seq<char>,
    /// The layout of bind group 0, if the pipeline has a bind group.
    pub group: Option<wgpu::BindGroupLayout>,
}

/// What a bind group was asked to be: the whole of one buffer at one
/// binding, by one layout.
pub struct GroupPlan {
    pub layout: wgpu::BindGroupLayout,
    pub binding: u32,
    pub buffer: wgpu::Buffer,
}

/// Whether the device made the pipeline without reporting an error.
pub uninterp spec fn pipeline_sound(pipeline: wgpu::RenderPipeline) -> bool;

/// What the pipeline was asked to be when it was created.
pub uninterp spec fn pipeline_plan(pipeline: wgpu::RenderPipeline) -> PipelinePlan;

/// Whether the device made the bind group without reporting an error.
pub uninterp spec fn group_sound(group: wgpu::BindGroup) -> bool;

/// What the bind group was asked to be when it was created.
pub uninterp spec fn group_plan(group: wgpu::BindGroup) -> GroupPlan;

/// What a buffer is created for.
#[derive(Clone, Copy, Debug, PartialEq, Eq, Structural)]
pub enum BufferRole {
    Vertex,
    Index,
    Uniform,
}

/// What the three error scopes of a trap caught: for each class of error the
/// message of the first error of that class, if there was one.
#[derive(Debug)]
pub struct Reports {
    pub validation: Option<String>,
    pub memory: Option<String>,
    pub internal: Option<String>,
}

/// Three error scopes that are open on a device, one for each class of error
/// the device reports.
///
/// Only [`ErrorTrap::open`] makes a trap, and it pushes the scopes that
/// [`ErrorTrap::seal`] pops, so a pop never meets an empty scope stack.
/// While a trap is open, every error the device reports finds a scope of its
/// class and is kept there; none reaches the device's handler for uncaptured
/// errors, which by default panics. The calls below that can make a device
/// report an error take the trap in place of the device for that reason.
pub struct ErrorTrap<'a> {
    device: &'a wgpu::Device,
}

impl<'a> ErrorTrap<'a> {
    /// Calls `wgpu::Device::push_error_scope` three times, for validation
    /// errors, for out-of-memory errors and for internal errors. Nothing is
    /// claimed of the result beyond its existence.
    #[verifier::external_body]
    pub(crate) fn open(device: &'a wgpu::Device) -> ErrorTrap<'a> {
        device.push_error_scope(wgpu::ErrorFilter::Validation);
        device.push_error_scope(wgpu::ErrorFilter::OutOfMemory);
        device.push_error_scope(wgpu::ErrorFilter::Internal);
        ErrorTrap { device }
    }

    /// Calls `wgpu::Device::pop_error_scope` three times, innermost scope
    /// first, and waits for each answer with `pollster::block_on`. If no
    /// scope caught an error `made` comes back as it is; else the errors come
    /// back as their messages and `made` is dropped. What the scopes caught
    /// depends on the device, so nothing is claimed of it.
    #[verifier::external_body]
    pub(crate) fn seal<T>(self, made: T) -> Result<T, Reports> {
        let internal = pollster::block_on(self.device.pop_error_scope());
        let memory = pollster::block_on(self.device.pop_error_scope());
        let validation = pollster::block_on(self.device.pop_error_scope());
        match (validation, memory, internal) {
            (None, None, None) => Ok(made),
            (validation, memory, internal) => Err(Reports {
                validation: validation.map(|error| error.to_string()),
                memory: memory.map(|error| error.to_string()),
                internal: internal.map(|error| error.to_string()),
            }),
        }
    }
}

/// A buffer the device has just made without reporting an error, and
/// whether it is still mapped from its making.
///
/// Only [`create_buffer`] makes one, after its own error scopes came back
/// empty, and [`fill_buffer`] uses it up: a buffer is filled once, and only
/// while it is mapped.
pub struct NewBuffer {
    buffer: wgpu::Buffer,
    mapped: bool,
}

impl NewBuffer {
    /// The buffer.
    pub closed spec fn buffer(self) -> wgpu::Buffer {
        self.buffer
    }

    /// Whether the buffer is mapped for writing.
    pub closed spec fn mapped(self) -> bool {
        self.mapped
    }

    /// The buffer as it is, if it was made unmapped.
    pub(crate) fn unfilled(self) -> (buffer: wgpu::Buffer)
        requires
            !self.mapped(),
        ensures
            buffer == self.buffer(),
    {
        self.buffer
    }
}

/// Calls `wgpu::Device::create_shader_module` on WGSL source text. A source
/// that does not compile is reported to the trap; the handle is opaque.
#[verifier::external_body]
pub(crate) fn create_shader_module(trap: &ErrorTrap<'_>, source: &str) -> (module: wgpu::ShaderModule)
    ensures
        shader_source(module) == source@,
{
    trap.device.create_shader_module(wgpu::ShaderModuleDescriptor {
        label: None,
        source: wgpu::ShaderSource::Wgsl(std::borrow::Cow::Borrowed(source)),
    })
}

/// Calls `wgpu::Device::create_buffer` for a buffer of `size` bytes, mapped
/// for writing from the start if `mapped` says so, inside error scopes of its
/// own, with the usage of wgpu that stands for the role. The buffer comes
/// back only if the scopes caught nothing, and is then sound; the handle
/// records the size and the usage it was asked for.
#[verifier::external_body]
pub(crate) fn create_buffer(device: &wgpu::Device, size: u64, role: BufferRole, mapped: bool) -> (made:
    Result<NewBuffer, Reports>)
    ensures
        made matches Ok(new) ==> buffer_size(new.buffer()) == size && buffer_role(new.buffer())
            == role && buffer_sound(new.buffer()) && new.mapped() == mapped,
{
    let usage = match role {
        BufferRole::Vertex => wgpu::BufferUsages::VERTEX,
        BufferRole::Index => wgpu::BufferUsages::INDEX,
        BufferRole::Uniform => wgpu::BufferUsages::UNIFORM,
    };
    let trap = ErrorTrap::open(device);
    let buffer = device.create_buffer(&wgpu::BufferDescriptor { label: None, size, usage, mapped_at_creation: mapped });
    match trap.seal(buffer) {
        Ok(buffer) => Ok(NewBuffer { buffer, mapped }),
        Err(reports) => Err(reports),
    }
}

/// Copies the words into a new buffer that is mapped from its making, as the
/// bytes `bytemuck::cast_slice` gives, through
/// `wgpu::BufferSlice::get_mapped_range_mut`, then calls `wgpu::Buffer::unmap`,
/// which reports to the trap, and hands out the same buffer.
///
/// The precondition leaves out every input on which wgpu panics: an empty
/// buffer (`wgpu::Buffer::slice`), a buffer of another size than the words
/// (the copy), and a buffer that is not mapped. A [`NewBuffer`] that says it
/// is mapped was made so without error and has not been filled before.
#[verifier::external_body]
pub(crate) fn fill_buffer(_trap: &ErrorTrap<'_>, new: NewBuffer, words: &Vec<u32>) -> (buffer:
    wgpu::Buffer)
    requires
        new.mapped(),
        words@.len() > 0,
        buffer_size(new.buffer()) == 4 * words@.len(),
    ensures
        buffer == new.buffer(),
{
    new.buffer.slice(..).get_mapped_range_mut().copy_from_slice(bytemuck::cast_slice(words.as_slice()));
    new.buffer.unmap();
    new.buffer
}

/// Calls `wgpu::Device::create_bind_group_layout` for a layout of the one
/// entry given. The body writes the entry of a uniform buffer without dynamic
/// offset that the fragment stage sees, which is the only entry the
/// precondition lets in. What the device refuses is reported to the trap.
#[verifier::external_body]
pub(crate) fn create_bind_group_layout(trap: &ErrorTrap<'_>, entry: LayoutEntry) -> (layout:
    wgpu::BindGroupLayout)
    requires
        entry.stage == Stage::Fragment,
        entry.kind == BindingKind::UniformBuffer,
    ensures
        layout_entry(layout) == entry,
{
    trap.device.create_bind_group_layout(&wgpu::BindGroupLayoutDescriptor {
        label: None,
        entries: &[wgpu::BindGroupLayoutEntry {
            binding: entry.binding,
            visibility: wgpu::ShaderStages::FRAGMENT,
            ty: wgpu::BindingType::Buffer {
                ty: wgpu::BufferBindingType::Uniform,
                has_dynamic_offset: false,
                min_binding_size: None,
            },
            count: None,
        }],
    })
}

/// Calls `wgpu::Device::create_bind_group` for a group that binds the whole of
/// `buffer` at `binding` by the given layout, inside error scopes of its own.
/// The group comes back only if the scopes caught nothing, and is then
/// sound.
#[verifier::external_body]
pub(crate) fn create_bind_group(
    device: &wgpu::Device,
    layout: &wgpu::BindGroupLayout,
    binding: u32,
    buffer: &wgpu::Buffer,
) -> (made: Result<wgpu::BindGroup, Reports>)
    ensures
        made matches Ok(group) ==> group_sound(group) && group_plan(group) == (GroupPlan {
            layout: *layout,
            binding,
            buffer: *buffer,
        }),
{
    let trap = ErrorTrap::open(device);
    let group = device.create_bind_group(&wgpu::BindGroupDescriptor {
        label: None,
        layout,
        entries: &[wgpu::BindGroupEntry { binding, resource: buffer.as_entire_binding() }],
    });
    trap.seal(group)
}

/// Calls `wgpu::Device::create_pipeline_layout` with the given bind group
/// layout as group 0, or with no group, and no push constants. What the
/// device refuses is reported to the trap.
#[verifier::external_body]
pub(crate) fn create_pipeline_layout(
    trap: &ErrorTrap<'_>,
    group: Option<&wgpu::BindGroupLayout>,
) -> (layout: wgpu::PipelineLayout)
    ensures
        layout_group(layout) == (match group {
            Some(group) => Some(*group),
            None => None,
        }),
{
    trap.device.create_pipeline_layout(&wgpu::PipelineLayoutDescriptor {
        label: None,
        bind_group_layouts: group.as_slice(),
        push_constant_ranges: &[],
    })
}

/// Writes each attribute as wgpu's own `wgpu::VertexAttribute`, field for
/// field and in the same order.
#[verifier::external_body]
pub(crate) fn vertex_attributes(attributes: &Vec<Attribute>) -> (converted: Vec<
    wgpu::VertexAttribute,
>)
    ensures
        converted@.len() == attributes@.len(),
        forall|i: int|
            0 <= i < converted@.len() ==> attribute_of(#[trigger] converted@[i]) == attributes@[i],
{
    attributes.iter().map(|a| wgpu::VertexAttribute {
        format: match a.format {
            AttributeFormat::Float32x2 => wgpu::VertexFormat::Float32x2,
            AttributeFormat::Float32x4 => wgpu::VertexFormat::Float32x4,
        },
        offset: a.offset,
        shader_location: a.location,
    }).collect()
}

/// Calls `wgpu::Device::create_render_pipeline` for a pipeline that reads one
/// vertex buffer of the given stride and attributes, runs the two named entry
/// points of `module`, and writes one colour target of `format`; the call
/// stands inside error scopes of its own.
///
/// The body writes a pipeline for triangle lists without depth or stencil
/// state, with one sample for each pixel, that steps its vertex buffer once
/// for each vertex and writes all channels, through the blend unit in
/// replace mode if the rules say so. The precondition lets in no other
/// rules. The pipeline comes back only if the scopes caught nothing, and is
/// then sound; a format, a layout or a shader that the device refuses makes
/// an error.
#[verifier::external_body]
pub(crate) fn create_render_pipeline(
    device: &wgpu::Device,
    layout: &wgpu::PipelineLayout,
    module: &wgpu::ShaderModule,
    entry_points: (&str, &str),
    stride: u64,
    attributes: &Vec<wgpu::VertexAttribute>,
    format: wgpu::TextureFormat,
    rules: PipelineRules,
) -> (made: Result<wgpu::RenderPipeline, Reports>)
    requires
        rules.topology == Topology::TriangleList,
        !rules.depth_test,
        rules.samples == 1,
        rules.write_all,
        rules.per_vertex,
    ensures
        made matches Ok(pipeline) ==> pipeline_sound(pipeline) && pipeline_plan(pipeline)
            == (PipelinePlan {
            format,
            rules,
            stride,
            attributes: attributes_of(attributes@),
            vertex_entry: entry_points.0@,
            fragment_entry: entry_points.1@,
            source: shader_source(*module),
            group: layout_group(*layout),
        }),
{
    let buffers = [VertexBufferLayout { array_stride: stride, step_mode: VertexStepMode::Vertex, attributes }];
    let targets = [Some(ColorTargetState { format, blend: rules.blend.then_some(BlendState::REPLACE), write_mask: ColorWrites::ALL })];
    let trap = ErrorTrap::open(device);
    let pipeline = device.create_render_pipeline(&RenderPipelineDescriptor {
        label: None,
        layout: Some(layout),
        vertex: VertexState { module, entry_point: Some(entry_points.0), compilation_options: Default::default(), buffers: &buffers },
        primitive: Default::default(),
        multisample: Default::default(),
        fragment: Some(FragmentState { module, entry_point: Some(entry_points.1), compilation_options: Default::default(), targets: &targets }),
        depth_stencil: None, multiview: None, cache: None,
    });
    trap.seal(pipeline)
}

/// One draw of a render pass: what was active when it was called, and what
/// it was asked to draw.
#[verifier::ext_equal]
pub struct Draw {
    pub pipeline: Option<wgpu::RenderPipeline>,
    pub groups: Map<u32, Option<wgpu::BindGroup>>,
    pub vertex_buffers: Map<u32, wgpu::Buffer>,
    pub index_buffer: Option<(wgpu::Buffer, IndexWidth)>,
    pub index_count: u32,
    pub base_vertex: i32,
    pub instances: u32,
}

/// What a render pass was told so far, as wgpu's documentation tells the
/// meaning of its calls: a bind makes a pipeline, a bind group, a vertex
/// buffer or an index buffer the active one, and a draw uses what is active
/// when it is called, whatever is bound after it.
#[verifier::ext_equal]
pub struct PassState {
    /// The active pipeline.
    pub pipeline: Option<wgpu::RenderPipeline>,
    /// The active bind group of each index that was bound; `None` where the
    /// group was unbound.
    pub groups: Map<u32, Option<wgpu::BindGroup>>,
    /// The active vertex buffer of each slot that was bound, whole.
    pub vertex_buffers: Map<u32, wgpu::Buffer>,
    /// The active index buffer, whole, and the width its indices are read
    /// with.
    pub index_buffer: Option<(wgpu::Buffer, IndexWidth)>,
    /// The draws, in the order they were called.
    pub draws: Seq<Draw>,
}

/// What the pass was told so far. Whether the device accepts it is decided
/// when the pass ends, and is no part of this.
pub uninterp spec fn pass_state(pass: wgpu::RenderPass<'_>) -> PassState;

/// Calls `wgpu::RenderPass::set_pipeline`, which makes the pipeline the
/// active one. wgpu reports a handle that is not sound to the device's error
/// handler, which may panic, and binds nothing then; the precondition leaves
/// such a handle out.
#[verifier::external_body]
pub(crate) fn set_pipeline(pass: &mut wgpu::RenderPass<'_>, pipeline: &wgpu::RenderPipeline)
    requires
        pipeline_sound(*pipeline),
    ensures
        pass_state(*final(pass)) == (PassState {
            pipeline: Some(*pipeline),
            ..pass_state(*old(pass))
        }),
{
    pass.set_pipeline(pipeline);
}

/// Calls `wgpu::RenderPass::set_bind_group` without dynamic offsets, which
/// makes the group the active one of the given index; `None` unbinds the
/// index. The precondition leaves out a group that is not sound.
#[verifier::external_body]
pub(crate) fn set_bind_group(pass: &mut wgpu::RenderPass<'_>, index: u32, group: Option<&wgpu::BindGroup>)
    requires
        group matches Some(group) ==> group_sound(*group),
    ensures
        pass_state(*final(pass)) == (PassState {
            groups: pass_state(*old(pass)).groups.insert(
                index,
                match group {
                    Some(group) => Some(*group),
                    None => None,
                },
            ),
            ..pass_state(*old(pass))
        }),
{
    pass.set_bind_group(index, group, &[]);
}

/// Calls `wgpu::RenderPass::set_vertex_buffer` with the whole buffer, which
/// makes it the active vertex buffer of the given slot. The precondition
/// leaves out a buffer of size 0, on which `wgpu::Buffer::slice` panics, and
/// a buffer that is not sound.
#[verifier::external_body]
pub(crate) fn set_vertex_buffer(pass: &mut wgpu::RenderPass<'_>, slot: u32, buffer: &wgpu::Buffer)
    requires
        buffer_size(*buffer) > 0,
        buffer_sound(*buffer),
    ensures
        pass_state(*final(pass)) == (PassState {
            vertex_buffers: pass_state(*old(pass)).vertex_buffers.insert(slot, *buffer),
            ..pass_state(*old(pass))
        }),
{
    pass.set_vertex_buffer(slot, buffer.slice(..));
}

/// Calls `wgpu::RenderPass::set_index_buffer` with the whole buffer, which
/// makes it the active index buffer, read with indices of the given width.
/// The precondition leaves out a buffer of size 0, on which
/// `wgpu::Buffer::slice` panics, and a buffer that is not sound.
#[verifier::external_body]
pub(crate) fn set_index_buffer(pass: &mut wgpu::RenderPass<'_>, buffer: &wgpu::Buffer, width: IndexWidth)
    requires
        buffer_size(*buffer) > 0,
        buffer_sound(*buffer),
    ensures
        pass_state(*final(pass)) == (PassState {
            index_buffer: Some((*buffer, width)),
            ..pass_state(*old(pass))
        }),
{
    pass.set_index_buffer(buffer.slice(..), match width {
        IndexWidth::Bits16 => wgpu::IndexFormat::Uint16,
        IndexWidth::Bits32 => wgpu::IndexFormat::Uint32,
    });
}

/// Calls `wgpu::RenderPass::draw_indexed` for the first `index_count` indices
/// of the active index buffer, with the given base vertex, for the instances
/// from 0 up to `instances`. The draw uses what is active now.
#[verifier::external_body]
pub(crate) fn draw_indexed(pass: &mut wgpu::RenderPass<'_>, index_count: u32, base_vertex: i32, instances: u32)
    ensures
        pass_state(*final(pass)) == (PassState {
            draws: pass_state(*old(pass)).draws.push(
                Draw {
                    pipeline: pass_state(*old(pass)).pipeline,
                    groups: pass_state(*old(pass)).groups,
                    vertex_buffers: pass_state(*old(pass)).vertex_buffers,
                    index_buffer: pass_state(*old(pass)).index_buffer,
                    index_count,
                    base_vertex,
                    instances,
                },
            ),
            ..pass_state(*old(pass))
        }),
{
    pass.draw_indexed(0..index_count, base_vertex, 0..instances);
}

} // verus!
