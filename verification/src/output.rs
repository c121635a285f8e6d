//! The registry of one render target, and the modules it is built from.

pub mod calls;
pub mod capture;
pub mod command;
pub mod error;
pub mod frame;
pub mod gpu;
pub mod laws;
pub mod layout;
pub mod object;
pub mod uniform_shader;
pub mod variant;
pub mod vertex_shader;

use vstd::prelude::*;
use crate::output::calls::{call_of, calls, calls_of, law_frame_calls, run, Call};
use crate::output::command::{
    all_encodable, bound_after, class_commands, encodable, frame, frame_prefix,
    lemma_frame_encodable, skipped_prefix, DrawCommand, FrameReport, Ready,
};
use crate::output::error::{ConfigError, Error, UploadError};
use crate::output::gpu::{
    create_pipeline_layout, create_render_pipeline, create_shader_module, draw_indexed,
    attributes_of, layout_group, pass_state, pipeline_plan, pipeline_sound, set_bind_group,
    set_index_buffer,
    set_pipeline, set_vertex_buffer, shader_source, vertex_attributes, ErrorTrap, PipelinePlan,
    Reports,
};
use crate::output::layout::{Attribute, IndexWidth, PipelineRules};
use crate::output::object::{
    class_views, ClassHandle, ClassView, InstanceHandle, Object, ObjectClass, ObjectShader,
    ObjectView,
};
use crate::output::uniform_shader::{Color, ColorRegister};
use crate::output::variant::{outcome_kind, ShaderVariant, SlotView, VariantSlot, VariantView};

verus! {

/// The entry point of every variant's vertex stage.
pub const VERTEX_ENTRY: &'static str = "vs_main";

/// The entry point of every variant's fragment stage.
pub const FRAGMENT_ENTRY: &'static str = "fs_main";

/// The index of the one bind group a variant may have.
pub const BIND_GROUP: u32 = 0;

/// The slot of the one vertex buffer a class has.
pub const VERTEX_SLOT: u32 = 0;

/// The number added to every index of a draw: indices count from the start
/// of the class's vertex buffer.
pub const BASE_VERTEX: i32 = 0;

/// The number of times a draw draws its triangles.
pub const INSTANCES: u32 = 1;

/// The width of the indices in every index buffer.
pub const INDEX_WIDTH: IndexWidth = IndexWidth::Bits32;

/// A compiled pipeline and the bind group it is drawn with, if it has one.
#[derive(Debug)]
pub struct RenderObject {
    pub pipeline: wgpu::RenderPipeline,
    pub bind_group: Option<wgpu::BindGroup>,
}

impl RenderObject {
    /// Compiles a shader and builds the pipeline that draws triangle lists
    /// with it, by the crate's rules, into a target of the given format.
    ///
    /// The device decides whether the pipeline comes back: it does, sound
    /// and built from exactly what was handed in, unless the device reported
    /// an error for the shader, the layout or the pipeline, whose message
    /// then comes back in its place.
    pub(crate) fn pipeline_for(
        device: &wgpu::Device,
        format: wgpu::TextureFormat,
        source: &str,
        group: Option<&wgpu::BindGroupLayout>,
        stride: u64,
        attributes: &Vec<Attribute>,
    ) -> (built: Result<wgpu::RenderPipeline, String>)
        ensures
            built matches Ok(pipeline) ==> pipeline_sound(pipeline) && pipeline_plan(pipeline)
                =~= (PipelinePlan {
                format,
                rules: PipelineRules::spec_fixed(),
                stride,
                attributes: attributes@,
                vertex_entry: VERTEX_ENTRY@,
                fragment_entry: FRAGMENT_ENTRY@,
                source: source@,
                group: match group {
                    Some(group) => Some(*group),
                    None => None,
                },
            }),
    {
        let trap = ErrorTrap::open(device);
        let shader = create_shader_module(&trap, source);
        let layout = create_pipeline_layout(&trap, group);
        let report = trap.report();
        let converted = vertex_attributes(attributes);
        proof {
            assert(attributes_of(converted@) =~= attributes@);
        }
        let made = create_render_pipeline(
            device,
            &layout,
            &shader,
            (VERTEX_ENTRY, FRAGMENT_ENTRY),
            stride,
            &converted,
            format,
            PipelineRules::fixed(),
        );
        RenderObject::settle(report, made)
    }

    /// What the device's reports make of a pipeline: the pipeline, if
    /// neither its parts nor the pipeline itself were refused; else the
    /// message of the parts' refusal, or failing that of the pipeline's.
    pub fn settle<T>(parts: Option<String>, made: Result<T, Reports>) -> (built: Result<T, String>)
        ensures
            match parts {
                Some(message) => built == Err::<T, String>(message),
                None => match made {
                    Ok(pipeline) => built == Ok::<T, String>(pipeline),
                    Err(reports) => built matches Err(message) && message@
                        == reports.spec_message(),
                },
            },
    {
        match parts {
            Some(message) => Err(message),
            None => match made {
                Ok(pipeline) => Ok(pipeline),
                Err(reports) => Err(reports.message()),
            },
        }
    }
}

/// What a registry holds, without the device's handles.
pub struct OutputView {
    /// The format of the render target the variants are built for.
    pub format: wgpu::TextureFormat,
    /// The slot of every shader kind.
    pub slots: Map<ObjectShader, SlotView>,
    /// The classes, in the order they were added.
    pub classes: Seq<ClassView>,
    /// The number the next class's handle gets.
    pub next_class: u64,
}

impl OutputView {
    /// Every kind has a slot, and what is in it belongs to the kind; every
    /// class is well formed; no two classes share a handle number, now or
    /// later.
    pub open spec fn wf(self) -> bool {
        &&& forall|kind: ObjectShader| #[trigger]
            self.slots.dom().contains(kind) && self.slots[kind].wf(kind)
                && self.slots[kind].built_for(self.format)
        &&& self.classes.len() <= usize::MAX
        &&& forall|i: int|
            0 <= i < self.classes.len() ==> (#[trigger] self.classes[i]).wf() && self.classes[i].id
                < self.next_class
        &&& forall|i: int, j: int|
            0 <= i < j < self.classes.len() ==> (#[trigger] self.classes[i]).id != (
            #[trigger] self.classes[j]).id
    }

    /// The kinds whose variant is ready, each with whether the variant has a
    /// bind group.
    pub open spec fn ready(self) -> Ready {
        Map::new(
            |kind: ObjectShader| self.slots[kind] is Ready,
            |kind: ObjectShader| self.slots[kind]->Ready_0.group is Some,
        )
    }

    /// The commands of one frame of the registry.
    pub open spec fn frame(self) -> Seq<DrawCommand> {
        frame(self.classes, self.ready())
    }

    /// The handles of the classes that a frame skips, in the order of the
    /// class list.
    pub open spec fn skipped(self) -> Seq<ClassHandle> {
        skipped_prefix(self.classes, self.ready(), self.classes.len() as int)
    }

    /// No class has this handle number.
    pub open spec fn lacks(self, id: u64) -> bool {
        forall|i: int| 0 <= i < self.classes.len() ==> (#[trigger] self.classes[i]).id != id
    }

    /// The position of the class with this handle number, if the registry
    /// does not lack it.
    pub open spec fn index_of(self, id: u64) -> int {
        choose|i: int| 0 <= i < self.classes.len() && (#[trigger] self.classes[i]).id == id
    }

    /// In a well-formed registry the class with a handle number stands at one
    /// position only.
    pub proof fn lemma_index_of(self, id: u64, position: int)
        requires
            self.wf(),
            0 <= position < self.classes.len(),
            self.classes[position].id == id,
        ensures
            self.index_of(id) == position,
            !self.lacks(id),
    {
        let found = self.index_of(id);
        if found < position {
            assert(self.classes[found].id != self.classes[position].id);
        } else if position < found {
            assert(self.classes[position].id != self.classes[found].id);
        }
    }

    /// A registry in which one class was changed for a well-formed class
    /// with the same handle number, and nothing else, is well formed.
    pub proof fn lemma_class_changed(self, after: OutputView, position: int)
        requires
            self.wf(),
            0 <= position < self.classes.len(),
            after.classes == self.classes.update(position, after.classes[position]),
            after.classes[position].wf(),
            after.classes[position].id == self.classes[position].id,
            after.slots == self.slots,
            after.format == self.format,
            after.next_class == self.next_class,
        ensures
            after.wf(),
    {
        assert forall|i: int| 0 <= i < after.classes.len() implies (#[trigger] after.classes[i]).wf()
            && after.classes[i].id < after.next_class by {
            if i != position {
                assert(after.classes[i] == self.classes[i]);
            }
        }
        assert forall|i: int, j: int| 0 <= i < j < after.classes.len() implies (
        #[trigger] after.classes[i]).id != (#[trigger] after.classes[j]).id by {
            assert(after.classes[i].id == self.classes[i].id);
            assert(after.classes[j].id == self.classes[j].id);
        }
    }

    /// The registry after the outcome of building the variant of a kind was
    /// recorded: the outcome fills the kind's slot if the slot was missing,
    /// and changes nothing if it was not.
    pub open spec fn installed(self, kind: ObjectShader, slot: SlotView) -> OutputView {
        if self.slots[kind] is Missing {
            OutputView { slots: self.slots.insert(kind, slot), ..self }
        } else {
            self
        }
    }

    /// The registry after a colour was written to the register of its ready
    /// uniform variant: the colour waits there, in place of any that waited.
    pub open spec fn with_color(self, value: Color) -> OutputView {
        let variant = self.slots[ObjectShader::Uniform]->Ready_0;
        OutputView {
            slots: self.slots.insert(
                ObjectShader::Uniform,
                SlotView::Ready(
                    VariantView { register: Some(variant.register->0.written(value)), ..variant },
                ),
            ),
            ..self
        }
    }

    /// The registry after the register of its ready uniform variant was
    /// flushed into the given colour buffer, bound by the given bind group.
    pub open spec fn flushed(
        self,
        color: Option<wgpu::Buffer>,
        group: Option<wgpu::BindGroup>,
    ) -> OutputView {
        let variant = self.slots[ObjectShader::Uniform]->Ready_0;
        OutputView {
            slots: self.slots.insert(
                ObjectShader::Uniform,
                SlotView::Ready(
                    VariantView {
                        color,
                        group,
                        register: Some(variant.register->0.flushed()),
                        ..variant
                    },
                ),
            ),
            ..self
        }
    }

    /// The registry with one more class, behind those it has, under the next
    /// handle number.
    pub open spec fn with_class(self, class: ClassView) -> OutputView {
        OutputView {
            classes: self.classes.push(ClassView { id: self.next_class, ..class }),
            next_class: (self.next_class + 1) as u64,
            ..self
        }
    }

    /// What adding an instance to the class of a handle answers: the new
    /// instance's handle, or why the instance is refused.
    pub open spec fn add_instance_answer(self, class: ClassHandle, object: ObjectView) -> Result<
        InstanceHandle,
        Error,
    > {
        if self.lacks(class.id) {
            Err(Error::UnknownClass)
        } else if object.vertex_span > self.classes[self.index_of(class.id)].vertex_count {
            Err(Error::IndexOutOfBounds)
        } else if self.classes[self.index_of(class.id)].next_object == u64::MAX {
            Err(Error::HandlesExhausted)
        } else {
            Ok(InstanceHandle { class, id: self.classes[self.index_of(class.id)].next_object })
        }
    }

    /// The registry with one more instance in the class of a handle number,
    /// behind those the class has, under the class's next handle number.
    pub open spec fn with_instance(self, class: u64, object: ObjectView) -> OutputView {
        let position = self.index_of(class);
        let target = self.classes[position];
        OutputView {
            classes: self.classes.update(
                position,
                ClassView {
                    next_object: (target.next_object + 1) as u64,
                    objects: target.objects.push(ObjectView { id: target.next_object, ..object }),
                    ..target
                },
            ),
            ..self
        }
    }

    /// Why removing the instance of a handle is refused, if it is.
    pub open spec fn remove_instance_refusal(self, handle: InstanceHandle) -> Option<Error> {
        if self.lacks(handle.class.id) {
            Some(Error::UnknownClass)
        } else if self.classes[self.index_of(handle.class.id)].lacks(handle.id) {
            Some(Error::UnknownInstance)
        } else {
            None
        }
    }

    /// The instance of a handle.
    pub open spec fn instance(self, handle: InstanceHandle) -> ObjectView {
        let target = self.classes[self.index_of(handle.class.id)];
        target.objects[target.index_of(handle.id)]
    }

    /// The registry without the instance of a handle; the other instances of
    /// its class keep their order.
    pub open spec fn without_instance(self, handle: InstanceHandle) -> OutputView {
        let position = self.index_of(handle.class.id);
        let target = self.classes[position];
        OutputView {
            classes: self.classes.update(
                position,
                ClassView { objects: target.objects.remove(target.index_of(handle.id)), ..target },
            ),
            ..self
        }
    }

    /// Why removing the class of a handle is refused, if it is.
    pub open spec fn remove_class_refusal(self, handle: ClassHandle) -> Option<Error> {
        if self.lacks(handle.id) {
            Some(Error::UnknownClass)
        } else if self.classes[self.index_of(handle.id)].objects.len() > 0 {
            Some(Error::ClassNotEmpty)
        } else {
            None
        }
    }

    /// The registry without the class of a handle number; the other classes
    /// keep their order.
    pub open spec fn without_class(self, class: u64) -> OutputView {
        OutputView { classes: self.classes.remove(self.index_of(class)), ..self }
    }
}

/// The registry of one render target: the shader variants built for the
/// target's format, at most one of each kind, and the object classes in the
/// order in which a frame draws them.
#[derive(Debug)]
pub struct Output {
    format: wgpu::TextureFormat,
    uniform: VariantSlot,
    vertex: VariantSlot,
    blur_behind: VariantSlot,
    texture: VariantSlot,
    object_classes: Vec<ObjectClass>,
    next_class: u64,
}

impl View for Output {
    type V = OutputView;

    closed spec fn view(&self) -> OutputView {
        OutputView {
            format: self.format,
            slots: Map::new(|kind: ObjectShader| true, |kind: ObjectShader| self.slot_of(kind)@),
            classes: class_views(self.object_classes@),
            next_class: self.next_class,
        }
    }
}

impl Output {
    /// The slot the registry keeps for a kind.
    pub closed spec fn slot_of(&self, kind: ObjectShader) -> VariantSlot {
        match kind {
            ObjectShader::Uniform => self.uniform,
            ObjectShader::Vertex => self.vertex,
            ObjectShader::BlurBehind => self.blur_behind,
            ObjectShader::Texture => self.texture,
        }
    }

    /// The view is well formed.
    pub open spec fn wf(&self) -> bool {
        self@.wf()
    }

    /// The slot a well-formed registry keeps for a kind is well formed, and
    /// is the one the view shows.
    proof fn lemma_slot(&self, kind: ObjectShader)
        ensures
            self@.slots.dom().contains(kind),
            self@.slots[kind] == self.slot_of(kind)@,
            self.wf() ==> self.slot_of(kind).wf(kind) && self.slot_of(kind)@.built_for(
                self.format,
            ),
    {
        if self.wf() {
            assert(self@.slots.dom().contains(kind));
            if self.slot_of(kind) is Ready {
                self.slot_of(kind)->Ready_0.lemma_view();
            }
        }
    }

    /// A registry in which one slot was changed for a well-formed one, and
    /// nothing else, is well formed, and its view shows the new slot in the
    /// place of the old one.
    proof fn lemma_refilled(before: Output, after: Output, kind: ObjectShader)
        requires
            before.wf(),
            after.slot_of(kind).wf(kind),
            after.slot_of(kind)@.built_for(before.format),
            forall|other: ObjectShader|
                other != kind ==> #[trigger] after.slot_of(other) == before.slot_of(other),
            after.format == before.format,
            after.object_classes == before.object_classes,
            after.next_class == before.next_class,
        ensures
            after.wf(),
            after@ == (OutputView {
                slots: before@.slots.insert(kind, after.slot_of(kind)@),
                ..before@
            }),
    {
        assert(after@.slots =~= before@.slots.insert(kind, after.slot_of(kind)@));
        assert forall|other: ObjectShader| #[trigger]
            after@.slots.dom().contains(other) && after@.slots[other].wf(other)
                && after@.slots[other].built_for(after@.format) by {
            if other != kind {
                before.lemma_slot(other);
            }
        }
    }

    /// A registry without variants and without classes.
    pub fn empty(format: wgpu::TextureFormat) -> (output: Output)
        ensures
            output.wf(),
            output@.format == format,
            output@.classes == Seq::<ClassView>::empty(),
            output@.next_class == 0,
            forall|kind: ObjectShader| #[trigger] output@.slots[kind] is Missing,
    {
        let output = Output {
            format,
            uniform: VariantSlot::Missing,
            vertex: VariantSlot::Missing,
            blur_behind: VariantSlot::Missing,
            texture: VariantSlot::Missing,
            object_classes: Vec::new(),
            next_class: 0,
        };
        proof {
            assert(output@.classes =~= Seq::<ClassView>::empty());
        }
        output
    }

    /// A registry for a render target of the given format, without classes,
    /// that has tried to build the variant of every kind, so that a class of
    /// any kind finds its variant built or failed. A variant that is ready
    /// is built for the given format; whether a kind with a pipeline is
    /// ready or rejected is the device's decision.
    pub fn new(device: &wgpu::Device, format: wgpu::TextureFormat) -> (output: Output)
        ensures
            output.wf(),
            output@.format == format,
            output@.classes == Seq::<ClassView>::empty(),
            output@.next_class == 0,
            forall|kind: ObjectShader| (#[trigger] output@.slots[kind]).built(kind),
    {
        let mut output = Output::empty(format);
        let _ = output.compile(device, ObjectShader::Uniform);
        let _ = output.compile(device, ObjectShader::Vertex);
        let _ = output.compile(device, ObjectShader::BlurBehind);
        let _ = output.compile(device, ObjectShader::Texture);
        output
    }

    /// The format of the render target.
    pub fn format(&self) -> (format: wgpu::TextureFormat)
        ensures
            format == self@.format,
    {
        self.format
    }

    /// The slot of a kind.
    pub fn slot(&self, kind: ObjectShader) -> (slot: &VariantSlot)
        ensures
            *slot == self.slot_of(kind),
            slot@ == self@.slots[kind],
            self.wf() ==> slot.wf(kind) && slot@.built_for(self@.format),
    {
        proof {
            self.lemma_slot(kind);
        }
        match kind {
            ObjectShader::Uniform => &self.uniform,
            ObjectShader::Vertex => &self.vertex,
            ObjectShader::BlurBehind => &self.blur_behind,
            ObjectShader::Texture => &self.texture,
        }
    }

    /// The variant of a kind, if it is ready.
    pub fn variant(&self, kind: ObjectShader) -> (variant: Option<&ShaderVariant>)
        ensures
            match variant {
                Some(variant) => self@.slots[kind] == SlotView::Ready(variant@) && (self.wf()
                    ==> variant.wf()),
                None => !(self@.slots[kind] is Ready),
            },
    {
        match self.slot(kind) {
            VariantSlot::Ready(variant) => Some(variant),
            _ => None,
        }
    }

    /// Puts a slot in the place of a kind.
    fn fill(&mut self, kind: ObjectShader, slot: VariantSlot)
        requires
            old(self).wf(),
            slot.wf(kind),
            slot@.built_for(old(self)@.format),
        ensures
            final(self).wf(),
            final(self).slot_of(kind) == slot,
            final(self)@ == (OutputView {
                slots: old(self)@.slots.insert(kind, slot@),
                ..old(self)@
            }),
    {
        match kind {
            ObjectShader::Uniform => {
                self.uniform = slot;
            },
            ObjectShader::Vertex => {
                self.vertex = slot;
            },
            ObjectShader::BlurBehind => {
                self.blur_behind = slot;
            },
            ObjectShader::Texture => {
                self.texture = slot;
            },
        }
        proof {
            Output::lemma_refilled(*old(self), *self, kind);
        }
    }

    /// Records the outcome of building a variant, for the kind the outcome
    /// belongs to.
    ///
    /// The first outcome for a kind fills the kind's slot. Any later one is
    /// dropped and the registry is left as it was, handles included: a kind
    /// has one variant for as long as the target format stays. Either way the
    /// answer is that of the slot: success for a ready variant, the kept error
    /// for a failed one.
    pub fn install(&mut self, outcome: Result<ShaderVariant, ConfigError>) -> (answer: Result<
        (),
        ConfigError,
    >)
        requires
            old(self).wf(),
            outcome matches Ok(variant) ==> variant.wf() && variant@.format() == old(self)@.format,
        ensures
            final(self).wf(),
            final(self)@ == old(self)@.installed(outcome_kind(outcome), SlotView::of(outcome)),
            !(old(self)@.slots[outcome_kind(outcome)] is Missing) ==> *final(self) == *old(self),
            Some(answer) == final(self)@.slots[outcome_kind(outcome)].answer(),
    {
        let kind = match &outcome {
            Ok(variant) => variant.kind(),
            Err(error) => error.kind(),
        };
        proof {
            if outcome is Ok {
                outcome->Ok_0.lemma_view();
            }
        }
        if let Some(answer) = self.slot(kind).answer() {
            return answer;
        }
        let slot = VariantSlot::of(outcome);
        let answer = slot.answer();
        self.fill(kind, slot);
        match answer {
            Some(answer) => answer,
            None => Ok(()),
        }
    }

    /// Makes sure that building the variant of a kind has been tried, and
    /// says how it went.
    ///
    /// If the slot of the kind is filled the registry is left as it was,
    /// handles included, and nothing is built. Otherwise the variant is built
    /// for the registry's format and the outcome fills the slot: unsupported
    /// for a kind without a pipeline, else what the device decides.
    pub fn compile(&mut self, device: &wgpu::Device, kind: ObjectShader) -> (answer: Result<
        (),
        ConfigError,
    >)
        requires
            old(self).wf(),
        ensures
            final(self).wf(),
            !(old(self)@.slots[kind] is Missing) ==> *final(self) == *old(self),
            !(final(self)@.slots[kind] is Missing),
            final(self)@ == old(self)@.installed(kind, final(self)@.slots[kind]),
            old(self)@.slots[kind] is Missing ==> final(self)@.slots[kind].built(kind),
            Some(answer) == final(self)@.slots[kind].answer(),
    {
        if let Some(answer) = self.slot(kind).answer() {
            return answer;
        }
        let outcome = ShaderVariant::build(device, self.format, kind);
        self.install(outcome)
    }
}

impl Output {
    /// The number of classes.
    pub fn len(&self) -> (count: usize)
        ensures
            count == self@.classes.len(),
    {
        self.object_classes.len()
    }

    /// The position of the class of a handle in the order of drawing, if the
    /// registry has the class.
    pub fn position(&self, handle: ClassHandle) -> (found: Option<usize>)
        ensures
            match found {
                Some(position) => position < self@.classes.len() && self@.classes[position as int].id
                    == handle.id,
                None => self@.lacks(handle.id),
            },
    {
        let mut i: usize = 0;
        while i < self.object_classes.len()
            invariant
                i <= self.object_classes@.len(),
                forall|j: int| 0 <= j < i ==> (#[trigger] self@.classes[j]).id != handle.id,
            decreases self.object_classes.len() - i,
        {
            if self.object_classes[i].id() == handle.id {
                return Some(i);
            }
            i += 1;
        }
        None
    }

    /// The class at a position in the order of drawing.
    pub fn class_at(&self, position: usize) -> (class: &ObjectClass)
        requires
            position < self@.classes.len(),
        ensures
            class@ == self@.classes[position as int],
            self.wf() ==> class.wf(),
    {
        &self.object_classes[position]
    }

    /// The class of a handle, if the registry has it.
    pub fn class(&self, handle: ClassHandle) -> (class: Option<&ObjectClass>)
        requires
            self.wf(),
        ensures
            match class {
                Some(class) => !self@.lacks(handle.id) && class@ == self@.classes[self@.index_of(
                    handle.id,
                )] && class.wf(),
                None => self@.lacks(handle.id),
            },
    {
        match self.position(handle) {
            Some(position) => {
                proof {
                    self@.lemma_index_of(handle.id, position as int);
                }
                Some(&self.object_classes[position])
            },
            None => None,
        }
    }

    /// Adds a class behind those the registry has, so that it is drawn after
    /// them, and gives it the next handle.
    ///
    /// Once the handle numbers have run out the class is refused and the
    /// registry is left as it was.
    pub fn add_class(&mut self, class: ObjectClass) -> (added: Result<ClassHandle, Error>)
        requires
            old(self).wf(),
            class.wf(),
        ensures
            final(self).wf(),
            match added {
                Ok(handle) => {
                    &&& old(self)@.next_class < u64::MAX
                    &&& handle.id == old(self)@.next_class
                    &&& final(self)@ == old(self)@.with_class(class@)
                },
                Err(error) => {
                    &&& old(self)@.next_class == u64::MAX
                    &&& error == Error::HandlesExhausted
                    &&& *final(self) == *old(self)
                },
            },
    {
        if self.next_class == u64::MAX {
            return Err(Error::HandlesExhausted);
        }
        let id = self.next_class;
        let class = class.with_id(id);
        proof {
        }
        self.next_class = id + 1;
        self.object_classes.push(class);
        proof {
            assert(self.object_classes@.len() == self.object_classes.len());
            assert(self@.classes =~= old(self)@.classes.push(class@));
            assert forall|i: int| 0 <= i < self@.classes.len() implies (
            #[trigger] self@.classes[i]).wf() && self@.classes[i].id < self@.next_class by {
                if i < old(self)@.classes.len() {
                    assert(self@.classes[i] == old(self)@.classes[i]);
                }
            }
            assert forall|i: int, j: int| 0 <= i < j < self@.classes.len() implies (
            #[trigger] self@.classes[i]).id != (#[trigger] self@.classes[j]).id by {
                assert(self@.classes[i] == old(self)@.classes[i]);
                if j < old(self)@.classes.len() {
                    assert(self@.classes[j] == old(self)@.classes[j]);
                }
            }
            assert(self@.slots =~= old(self)@.slots);
        }
        Ok(ClassHandle { id })
    }

    /// Adds an instance to the class of a handle, behind those the class has,
    /// so that it is drawn after them, and gives it the class's next handle.
    /// An instance without indices is taken like any other and keeps its
    /// place, but no frame binds or draws it: there is nothing to draw, and
    /// wgpu cannot bind an empty buffer.
    ///
    /// The instance is refused, and the registry left as it was, if the
    /// registry has no such class, if an index of the instance addresses a
    /// vertex the class does not have, or if the class's handle numbers have
    /// run out.
    pub fn add_instance(&mut self, class: ClassHandle, object: Object) -> (added: Result<
        InstanceHandle,
        Error,
    >)
        requires
            old(self).wf(),
            object.wf(),
        ensures
            final(self).wf(),
            added == old(self)@.add_instance_answer(class, object@),
            added is Ok ==> final(self)@ == old(self)@.with_instance(class.id, object@),
            added is Err ==> *final(self) == *old(self),
    {
        let position = match self.position(class) {
            Some(position) => position,
            None => {
                return Err(Error::UnknownClass);
            },
        };
        proof {
            old(self)@.lemma_index_of(class.id, position as int);
        }
        if object.vertex_span() > self.object_classes[position].vertex_count() {
            return Err(Error::IndexOutOfBounds);
        }
        if self.object_classes[position].is_full() {
            return Err(Error::HandlesExhausted);
        }
        let attached = self.object_classes[position].attach(object);
        proof {
            assert(self@.classes =~= old(self)@.with_instance(class.id, object@).classes);
            assert(self@.slots =~= old(self)@.slots);
            old(self)@.lemma_class_changed(self@, position as int);
        }
        match attached {
            Ok(id) => Ok(InstanceHandle { class, id }),
            Err(error) => Err(error),
        }
    }

    /// Removes the instance of a handle and hands it back. The other
    /// instances of its class keep their order.
    ///
    /// If the registry has no such class, or the class no such instance, the
    /// registry is left as it was.
    pub fn remove_instance(&mut self, handle: InstanceHandle) -> (removed: Result<Object, Error>)
        requires
            old(self).wf(),
        ensures
            final(self).wf(),
            match removed {
                Ok(object) => {
                    &&& old(self)@.remove_instance_refusal(handle) is None
                    &&& object.wf()
                    &&& object@ == old(self)@.instance(handle)
                    &&& final(self)@ == old(self)@.without_instance(handle)
                },
                Err(error) => {
                    &&& old(self)@.remove_instance_refusal(handle) == Some(error)
                    &&& *final(self) == *old(self)
                },
            },
    {
        let position = match self.position(handle.class) {
            Some(position) => position,
            None => {
                return Err(Error::UnknownClass);
            },
        };
        proof {
            old(self)@.lemma_index_of(handle.class.id, position as int);
        }
        if self.object_classes[position].position(handle.id).is_none() {
            return Err(Error::UnknownInstance);
        }
        let detached = self.object_classes[position].detach(handle.id);
        proof {
            assert(self@.classes =~= old(self)@.without_instance(handle).classes);
            assert(self@.slots =~= old(self)@.slots);
            old(self)@.lemma_class_changed(self@, position as int);
        }
        match detached {
            Ok(object) => Ok(object),
            Err(error) => Err(error),
        }
    }

    /// Removes the class of a handle and hands it back. The other classes
    /// keep their order.
    ///
    /// A class that still has instances is refused, and so is a handle the
    /// registry has no class for; the registry is then left as it was.
    pub fn remove_class(&mut self, handle: ClassHandle) -> (removed: Result<ObjectClass, Error>)
        requires
            old(self).wf(),
        ensures
            final(self).wf(),
            match removed {
                Ok(class) => {
                    &&& old(self)@.remove_class_refusal(handle) is None
                    &&& class.wf()
                    &&& class@ == old(self)@.classes[old(self)@.index_of(handle.id)]
                    &&& final(self)@ == old(self)@.without_class(handle.id)
                },
                Err(error) => {
                    &&& old(self)@.remove_class_refusal(handle) == Some(error)
                    &&& *final(self) == *old(self)
                },
            },
    {
        let position = match self.position(handle) {
            Some(position) => position,
            None => {
                return Err(Error::UnknownClass);
            },
        };
        proof {
            old(self)@.lemma_index_of(handle.id, position as int);
        }
        if self.object_classes[position].len() > 0 {
            return Err(Error::ClassNotEmpty);
        }
        let class = self.object_classes.remove(position);
        proof {
            assert(self@.classes =~= old(self)@.classes.remove(position as int));
            assert forall|i: int| 0 <= i < self@.classes.len() implies (
            #[trigger] self@.classes[i]).wf() && self@.classes[i].id < self@.next_class by {
                if i < position {
                    assert(self@.classes[i] == old(self)@.classes[i]);
                } else {
                    assert(self@.classes[i] == old(self)@.classes[i + 1]);
                }
            }
            assert forall|i: int, j: int| 0 <= i < j < self@.classes.len() implies (
            #[trigger] self@.classes[i]).id != (#[trigger] self@.classes[j]).id by {
                let a = if i < position { i } else { i + 1 };
                let b = if j < position { j } else { j + 1 };
                assert(self@.classes[i] == old(self)@.classes[a]);
                assert(self@.classes[j] == old(self)@.classes[b]);
            }
            assert(self@.slots =~= old(self)@.slots);
        }
        Ok(class)
    }
}

impl Output {
    /// The commands of one frame, in the order a pass must get them.
    ///
    /// The classes are taken in the order they were added. A class whose
    /// variant is not ready, or that has no index to draw, adds nothing. Any
    /// other class binds its variant unless the class drawn before it left
    /// the same variant bound, then binds its vertex buffer, then for each of
    /// its instances that has indices, in the order they were added, binds
    /// the index buffer and draws all its indices once.
    pub fn commands(&self) -> (commands: Vec<DrawCommand>)
        requires
            self.wf(),
        ensures
            commands@ == self@.frame(),
    {
        let mut commands: Vec<DrawCommand> = Vec::new();
        let mut bound: Option<ObjectShader> = None;
        let mut i: usize = 0;
        while i < self.object_classes.len()
            invariant
                self.wf(),
                i <= self.object_classes@.len(),
                commands@ == frame_prefix(self@.classes, self@.ready(), i as int),
                bound == bound_after(self@.classes, self@.ready(), i as int),
            decreases self.object_classes.len() - i,
        {
            let class = &self.object_classes[i];
            let shader = class.shader();
            let ghost before = commands@;
            assert(class@ == self@.classes[i as int]);
            if let VariantSlot::Ready(variant) = self.slot(shader) {
                if class.has_indices() {
                    let rebind = match bound {
                        Some(kind) => kind != shader,
                        None => true,
                    };
                    if rebind {
                        commands.push(DrawCommand::SetPipeline { shader });
                        commands.push(
                            DrawCommand::SetBindGroup {
                                shader,
                                bound: variant.render_object().bind_group.is_some(),
                            },
                        );
                    }
                    commands.push(DrawCommand::SetVertexBuffer { class: i });
                    class.record(i, &mut commands);
                    proof {
                        assert(commands@ =~= before + class_commands(
                            i as int,
                            class@,
                            self@.ready(),
                            bound,
                        ));
                    }
                    bound = Some(shader);
                }
            }
            proof {
                assert(commands@ =~= before + class_commands(
                    i as int,
                    self@.classes[i as int],
                    self@.ready(),
                    bound_after(self@.classes, self@.ready(), i as int),
                ));
            }
            i += 1;
        }
        commands
    }

    /// The handles of the classes that a frame skips: those that have an
    /// index to draw and no ready variant to draw it with, in the order of
    /// the class list.
    pub fn skipped(&self) -> (skipped: Vec<ClassHandle>)
        ensures
            skipped@ == self@.skipped(),
    {
        let mut handles: Vec<ClassHandle> = Vec::new();
        let mut i: usize = 0;
        while i < self.object_classes.len()
            invariant
                i <= self.object_classes@.len(),
                handles@ == skipped_prefix(self@.classes, self@.ready(), i as int),
            decreases self.object_classes.len() - i,
        {
            let class = &self.object_classes[i];
            assert(class@ == self@.classes[i as int]);
            let ready = match self.slot(class.shader()) {
                VariantSlot::Ready(_) => true,
                _ => false,
            };
            if !ready && class.has_indices() {
                handles.push(ClassHandle { id: class.id() });
            }
            i += 1;
        }
        handles
    }

    /// Hands a list of commands to a render pass, one call for each: for
    /// every command the call that [`call_of`] gives, with the pipeline, the
    /// bind group or the buffer that the command's positions name in this
    /// registry.
    fn encode(&self, commands: &Vec<DrawCommand>, pass: &mut wgpu::RenderPass<'_>)
        requires
            self.wf(),
            all_encodable(self@.classes, self@.ready(), commands@),
        ensures
            pass_state(*final(pass)) == run(pass_state(*old(pass)), calls_of(self@, commands@)),
    {
        let mut k: usize = 0;
        while k < commands.len()
            invariant
                self.wf(),
                k <= commands@.len(),
                all_encodable(self@.classes, self@.ready(), commands@),
                pass_state(*pass) == run(
                    pass_state(*old(pass)),
                    calls_of(self@, commands@.take(k as int)),
                ),
            decreases commands.len() - k,
        {
            let command = commands[k];
            proof {
                let next = calls_of(self@, commands@.take(k + 1));
                assert(next.drop_last() =~= calls_of(self@, commands@.take(k as int)));
                assert(next.last() == call_of(self@, command));
            }
            assert(encodable(self@.classes, self@.ready(), command));
            match command {
                DrawCommand::SetPipeline { shader } => match self.variant(shader) {
                    Some(variant) => {
                        proof {
                            variant.lemma_view();
                        }
                        let pipeline = &variant.render_object().pipeline;
                        assert(call_of(self@, command) == Call::SetPipeline(*pipeline));
                        set_pipeline(pass, pipeline)
                    },
                    None => unreached(),
                },
                DrawCommand::SetBindGroup { shader, bound } => match self.variant(shader) {
                    Some(variant) => {
                        proof {
                            variant.lemma_view();
                        }
                        let group = &variant.render_object().bind_group;
                        assert(call_of(self@, command) == Call::SetBindGroup(*group));
                        match group {
                            Some(group) => set_bind_group(pass, BIND_GROUP, Some(group)),
                            None => set_bind_group(pass, BIND_GROUP, None),
                        }
                    },
                    None => unreached(),
                },
                DrawCommand::SetVertexBuffer { class } => {
                    let buffer = self.object_classes[class].vertexes();
                    assert(call_of(self@, command) == Call::SetVertexBuffer(*buffer));
                    set_vertex_buffer(pass, VERTEX_SLOT, buffer);
                },
                DrawCommand::SetIndexBuffer { class, object } => {
                    let buffer = self.object_classes[class].object(object).indexes();
                    assert(call_of(self@, command) == Call::SetIndexBuffer(*buffer));
                    set_index_buffer(pass, buffer, INDEX_WIDTH);
                },
                DrawCommand::DrawIndexed { index_count } => {
                    assert(call_of(self@, command) == Call::DrawIndexed(index_count));
                    draw_indexed(pass, index_count, BASE_VERTEX, INSTANCES);
                },
            }
            k += 1;
        }
        proof {
            assert(commands@.take(k as int) =~= commands@);
        }
    }

    /// Records one frame into a render pass: the commands of
    /// [`Output::commands`], each as one call on the pass, in that order,
    /// with the handles that [`calls`](crate::output::calls::calls) tells.
    /// What the pass was told before stays, and the frame's calls are told
    /// on top of it. The report counts them and names the classes that were
    /// skipped.
    pub fn render(&self, pass: &mut wgpu::RenderPass<'_>) -> (report: FrameReport)
        requires
            self.wf(),
        ensures
            report.is_of(self@.frame(), self@.skipped()),
            pass_state(*final(pass)) == run(pass_state(*old(pass)), calls(self@)),
    {
        let commands = self.commands();
        proof {
            assert(self.object_classes@.len() == self.object_classes.len());
            lemma_frame_encodable(self@.classes, self@.ready(), self@.classes.len() as int);
            law_frame_calls(self@, self@.classes.len() as int);
        }
        self.encode(&commands, pass);
        FrameReport::of(&commands, self.skipped())
    }
}

impl Output {
    /// Writes a new colour for the uniform variant. The colour waits in the
    /// variant's register until the next [`Output::flush`], in place of any
    /// colour that waited there, so a frame already recorded keeps its
    /// colour.
    ///
    /// Without a ready uniform variant the write is refused and the registry
    /// left as it was.
    pub fn update(&mut self, value: Color) -> (written: Result<(), Error>)
        requires
            old(self).wf(),
        ensures
            final(self).wf(),
            match written {
                Ok(()) => {
                    &&& old(self)@.slots[ObjectShader::Uniform] is Ready
                    &&& final(self)@ == old(self)@.with_color(value)
                },
                Err(error) => {
                    &&& !(old(self)@.slots[ObjectShader::Uniform] is Ready)
                    &&& error == Error::VariantUnavailable
                    &&& *final(self) == *old(self)
                },
            },
    {
        proof {
            old(self).lemma_slot(ObjectShader::Uniform);
            if old(self).uniform is Ready {
                old(self).uniform->Ready_0.lemma_view();
            }
        }
        let mut slot = VariantSlot::Missing;
        core::mem::swap(&mut slot, &mut self.uniform);
        match slot {
            VariantSlot::Ready(ShaderVariant::Uniform(mut shader)) => {
                shader.update(value);
                proof {
                    shader.lemma_view();
                    old(self).uniform->Ready_0->Uniform_0.lemma_view();
                }
                self.uniform = VariantSlot::Ready(ShaderVariant::Uniform(shader));
                proof {
                    Output::lemma_refilled(*old(self), *self, ObjectShader::Uniform);
                    assert(self@.slots =~= old(self)@.with_color(value).slots);
                }
                Ok(())
            },
            other => {
                self.uniform = other;
                Err(Error::VariantUnavailable)
            },
        }
    }

    /// Puts the colour that waits in the register of the uniform variant on
    /// the device, so that frames recorded from now on are drawn with it. Call
    /// it between frames, before the next one is recorded.
    ///
    /// Without a ready uniform variant, or with no colour waiting, there is
    /// nothing to send, and the answer is success. Otherwise the device
    /// decides: if it reports an error the colour keeps waiting and the
    /// registry shows what it showed before.
    pub fn flush(&mut self, device: &wgpu::Device) -> (sent: Result<(), UploadError>)
        requires
            old(self).wf(),
        ensures
            final(self).wf(),
            match old(self)@.slots[ObjectShader::Uniform] {
                SlotView::Ready(variant) => {
                    &&& variant.register->0.staged is None ==> sent is Ok && *final(self) == *old(
                        self,
                    )
                    &&& match sent {
                        Ok(()) => final(self)@ == old(self)@.flushed(
                            final(self)@.slots[ObjectShader::Uniform]->Ready_0.color,
                            final(self)@.slots[ObjectShader::Uniform]->Ready_0.group,
                        ),
                        Err(error) => error is Rejected && *final(self) == *old(self),
                    }
                },
                _ => sent is Ok && *final(self) == *old(self),
            },
    {
        proof {
            old(self).lemma_slot(ObjectShader::Uniform);
            if old(self).uniform is Ready {
                old(self).uniform->Ready_0.lemma_view();
            }
        }
        let mut slot = VariantSlot::Missing;
        core::mem::swap(&mut slot, &mut self.uniform);
        match slot {
            VariantSlot::Ready(ShaderVariant::Uniform(mut shader)) => {
                let sent = shader.flush(device);
                proof {
                    shader.lemma_view();
                    old(self).uniform->Ready_0->Uniform_0.lemma_view();
                }
                self.uniform = VariantSlot::Ready(ShaderVariant::Uniform(shader));
                proof {
                    Output::lemma_refilled(*old(self), *self, ObjectShader::Uniform);
                    if sent is Ok {
                        assert(self@.slots =~= old(self)@.flushed(shader@.color, shader@.group).slots);
                    }
                }
                sent
            },
            other => {
                self.uniform = other;
                Ok(())
            },
        }
    }

    /// Forgets every variant and takes a new target format.
    fn retarget(&mut self, format: wgpu::TextureFormat)
        requires
            old(self).wf(),
        ensures
            final(self).wf(),
            final(self)@.format == format,
            final(self)@.classes == old(self)@.classes,
            final(self)@.next_class == old(self)@.next_class,
            forall|kind: ObjectShader| #[trigger] final(self)@.slots[kind] is Missing,
    {
        self.format = format;
        self.uniform = VariantSlot::Missing;
        self.vertex = VariantSlot::Missing;
        self.blur_behind = VariantSlot::Missing;
        self.texture = VariantSlot::Missing;
    }

    /// Builds the variant of a kind again if it was there before.
    fn rebuild(&mut self, device: &wgpu::Device, kind: ObjectShader, was_missing: bool)
        requires
            old(self).wf(),
            old(self)@.slots[kind] is Missing,
        ensures
            final(self).wf(),
            final(self)@.format == old(self)@.format,
            final(self)@.classes == old(self)@.classes,
            final(self)@.next_class == old(self)@.next_class,
            forall|other: ObjectShader|
                other != kind ==> #[trigger] final(self)@.slots[other] == old(self)@.slots[other],
            final(self)@.slots[kind].rebuilt(kind, was_missing),
    {
        if !was_missing {
            let outcome = ShaderVariant::build(device, self.format, kind);
            let _ = self.install(outcome);
        }
    }

    /// Takes a new target format and builds every variant again that was
    /// there before.
    fn rebuild_all(&mut self, device: &wgpu::Device, format: wgpu::TextureFormat)
        requires
            old(self).wf(),
        ensures
            final(self).wf(),
            final(self)@.format == format,
            final(self)@.classes == old(self)@.classes,
            final(self)@.next_class == old(self)@.next_class,
            forall|kind: ObjectShader| (#[trigger] final(self)@.slots[kind]).rebuilt(
                kind,
                old(self)@.slots[kind] is Missing,
            ),
    {
        let no_uniform = self.slot(ObjectShader::Uniform).answer().is_none();
        let no_vertex = self.slot(ObjectShader::Vertex).answer().is_none();
        let no_blur_behind = self.slot(ObjectShader::BlurBehind).answer().is_none();
        let no_texture = self.slot(ObjectShader::Texture).answer().is_none();
        self.retarget(format);
        self.rebuild(device, ObjectShader::Uniform, no_uniform);
        self.rebuild(device, ObjectShader::Vertex, no_vertex);
        self.rebuild(device, ObjectShader::BlurBehind, no_blur_behind);
        self.rebuild(device, ObjectShader::Texture, no_texture);
    }

    /// Takes a new target format and builds for it every variant that the
    /// registry had or had tried to build: pipelines are bound to the format
    /// they were built for, so none is kept.
    ///
    /// The classes stay as they are. A kind whose slot was missing stays
    /// missing; any other is built anew, with the outcome the device decides,
    /// or unsupported for a kind without a pipeline. The colour that the
    /// uniform variant showed or had waiting is written to the new uniform
    /// variant, where it waits for the next flush.
    pub fn on_target_format_changed(&mut self, device: &wgpu::Device, format: wgpu::TextureFormat)
        requires
            old(self).wf(),
        ensures
            final(self).wf(),
            final(self)@.format == format,
            final(self)@.classes == old(self)@.classes,
            final(self)@.next_class == old(self)@.next_class,
            forall|kind: ObjectShader|
                (#[trigger] final(self)@.slots[kind] is Missing) == (old(self)@.slots[kind] is Missing),
            forall|kind: ObjectShader|
                !(old(self)@.slots[kind] is Missing) && !kind.spec_supported() ==> (
                #[trigger] final(self)@.slots[kind]) == SlotView::Failed(
                    ConfigError::Unsupported { kind },
                ),
            forall|kind: ObjectShader|
                !(old(self)@.slots[kind] is Missing) && kind.spec_supported() ==> (
                #[trigger] final(self)@.slots[kind] matches SlotView::Failed(error)
                    ==> error is Rejected),
            final(self)@.slots[ObjectShader::Uniform] matches SlotView::Ready(after)
                ==> after.register == Some(
                ColorRegister {
                    value: Color { color: [0u32, 0u32, 0u32, 0u32] },
                    staged: match old(self)@.slots[ObjectShader::Uniform] {
                        SlotView::Ready(before) => Some(before.register->0.flushed().value),
                        _ => None,
                    },
                },
            ),
    {
        proof {
            old(self).lemma_slot(ObjectShader::Uniform);
        }
        let color = match self.variant(ObjectShader::Uniform) {
            Some(variant) => {
                proof {
                    variant.lemma_view();
                }
                match variant {
                    ShaderVariant::Uniform(shader) => {
                        let mut register = shader.register();
                        register.flush();
                        Some(register.value)
                    },
                    _ => None,
                }
            },
            None => None,
        };
        self.rebuild_all(device, format);
        let ghost rebuilt = self@;
        assert(rebuilt.slots[ObjectShader::Uniform].rebuilt(
            ObjectShader::Uniform,
            old(self)@.slots[ObjectShader::Uniform] is Missing,
        ));
        if let Some(color) = color {
            let _ = self.update(color);
            proof {
                assert forall|kind: ObjectShader|
                    (#[trigger] self@.slots[kind]).rebuilt(kind, old(self)@.slots[kind] is Missing)
                        || kind == ObjectShader::Uniform by {
                    assert(rebuilt.slots[kind].rebuilt(kind, old(self)@.slots[kind] is Missing));
                    if kind != ObjectShader::Uniform && rebuilt.slots[ObjectShader::Uniform] is Ready {
                        assert(self@.slots[kind] == rebuilt.slots[kind]);
                    }
                }
            }
        }
    }
}

} // verus!
