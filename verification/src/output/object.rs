//! Object classes, their instances and the shader kinds that draw them.

use vstd::prelude::*;
use crate::output::command::{object_commands, objects_commands, DrawCommand};
use crate::output::error::{Error, UploadError};
use crate::output::gpu::{
    buffer_role, buffer_size, buffer_sound, create_buffer, fill_buffer, BufferRole, ErrorTrap,
};

verus! {

/// The shading algorithm of an object class: the tag of a shader variant.
#[derive(Clone, Copy, Debug, PartialEq, Eq, Hash, Structural)]
pub enum ObjectShader {
    /// A uniformly colored object.
    Uniform,
    /// Colored based on the color of vertexes.
    Vertex,
    /// Blurs what lies behind the object.
    BlurBehind,
    /// Filled from a texture.
    Texture,
}

/// Names one class of a registry. A handle stays with its class until the
/// class is removed, whatever else is added or removed, and is never given
/// out again.
#[derive(Clone, Copy, Debug, PartialEq, Eq, Hash, Structural)]
pub struct ClassHandle {
    pub id: u64,
}

/// Names one instance of one class of a registry.
#[derive(Clone, Copy, Debug, PartialEq, Eq, Hash, Structural)]
pub struct InstanceHandle {
    pub class: ClassHandle,
    pub id: u64,
}

/// One past the largest index of the sequence, 0 for the empty sequence: the
/// number of vertices a class must have for every index to address one.
pub open spec fn span(indices: Seq<u32>) -> nat
    decreases indices.len(),
{
    if indices.len() == 0 {
        0
    } else {
        let rest = span(indices.drop_last());
        if indices.last() + 1 > rest {
            (indices.last() + 1) as nat
        } else {
            rest
        }
    }
}

/// The span is above every index, and is reached by one of them unless there
/// is none.
pub proof fn lemma_span_bounds(indices: Seq<u32>)
    ensures
        forall|i: int| 0 <= i < indices.len() ==> (#[trigger] indices[i]) < span(indices),
        indices.len() > 0 ==> exists|i: int|
            0 <= i < indices.len() && (#[trigger] indices[i]) + 1 == span(indices),
        indices.len() == 0 <==> span(indices) == 0,
        span(indices) <= 0x1_0000_0000,
    decreases indices.len(),
{
    if indices.len() > 0 {
        let rest = indices.drop_last();
        lemma_span_bounds(rest);
        let last = indices.len() - 1;
        assert forall|i: int| 0 <= i < indices.len() implies (#[trigger] indices[i]) < span(
            indices,
        ) by {
            if i < last {
                assert(rest[i] == indices[i]);
            }
        }
        if indices.last() + 1 > span(rest) {
            assert(indices[last] + 1 == span(indices));
        } else {
            let i = choose|i: int| 0 <= i < rest.len() && (#[trigger] rest[i]) + 1 == span(rest);
            assert(indices[i] == rest[i]);
            assert(indices[i] + 1 == span(indices));
        }
    }
}

/// What the registry knows of an instance.
pub struct ObjectView {
    /// The number in the instance's handle.
    pub id: u64,
    /// The number of indices in its index buffer.
    pub index_count: u32,
    /// One past the largest of those indices, 0 if there is none.
    pub vertex_span: u64,
    /// The index buffer.
    pub indexes: wgpu::Buffer,
}

impl ObjectView {
    /// An instance has a span exactly if it has indices, and its index
    /// buffer is sound and has room for exactly its indices.
    pub open spec fn wf(self) -> bool {
        &&& (self.index_count == 0) == (self.vertex_span == 0)
        &&& buffer_size(self.indexes) == 4 * self.index_count
        &&& buffer_role(self.indexes) == BufferRole::Index
        &&& buffer_sound(self.indexes)
    }
}

/// One drawable: an index buffer on the device, read as a triangle list of
/// 32-bit indices into the vertex buffer of the class it is added to.
#[derive(Debug)]
pub struct Object {
    id: u64,
    indexes: wgpu::Buffer,
    index_count: u32,
    vertex_span: u64,
}

impl View for Object {
    type V = ObjectView;

    closed spec fn view(&self) -> ObjectView {
        ObjectView {
            id: self.id,
            index_count: self.index_count,
            vertex_span: self.vertex_span,
            indexes: self.indexes,
        }
    }
}

impl Object {
    /// The view is well formed.
    pub open spec fn wf(&self) -> bool {
        self@.wf()
    }

    /// Puts the indices into a new index buffer on the device.
    ///
    /// More indices than a draw call can count are refused as too large
    /// before the device is asked. Otherwise the device decides: the instance
    /// comes back unless the device reported an error while the buffer was
    /// made and filled, which makes a rejection.
    pub fn new(device: &wgpu::Device, indices: &Vec<u32>) -> (made: Result<Object, UploadError>)
        ensures
            indices@.len() > u32::MAX ==> made matches Err(UploadError::TooLarge),
            indices@.len() <= u32::MAX ==> match made {
                Ok(object) => {
                    &&& object.wf()
                    &&& object@.id == 0
                    &&& object@.index_count == indices@.len()
                    &&& object@.vertex_span == span(indices@)
                },
                Err(error) => error is Rejected,
            },
    {
        if indices.len() > u32::MAX as usize {
            return Err(UploadError::TooLarge);
        }
        let index_count = indices.len() as u32;
        let vertex_span = index_span(indices);
        match upload(device, indices, BufferRole::Index) {
            Ok(indexes) => Ok(Object { id: 0, indexes, index_count, vertex_span }),
            Err(error) => Err(error),
        }
    }

    /// The number of indices.
    pub fn index_count(&self) -> (count: u32)
        ensures
            count == self@.index_count,
    {
        self.index_count
    }

    /// One past the largest index, 0 if there is none.
    pub fn vertex_span(&self) -> (span: u64)
        ensures
            span == self@.vertex_span,
    {
        self.vertex_span
    }

    /// The index buffer.
    pub fn indexes(&self) -> (buffer: &wgpu::Buffer)
        ensures
            *buffer == self@.indexes,
    {
        &self.indexes
    }

    /// The number in the handle the instance has in its class.
    pub(crate) fn id(&self) -> (id: u64)
        ensures
            id == self@.id,
    {
        self.id
    }

    /// The same instance under another handle number.
    pub(crate) fn with_id(self, id: u64) -> (renamed: Object)
        ensures
            renamed@ == (ObjectView { id, ..self@ }),
            self.wf() ==> renamed.wf(),
    {
        Object { id, indexes: self.indexes, index_count: self.index_count, vertex_span: self.vertex_span }
    }
}

/// Puts 32-bit words into a new buffer on the device.
///
/// Words whose bytes a buffer size cannot count are refused before the device
/// is asked. Otherwise the device decides whether the buffer comes back: it
/// does, sound and of the size of the words, unless the device reported an
/// error while the buffer was made or while it was filled.
pub fn upload(device: &wgpu::Device, words: &Vec<u32>, role: BufferRole) -> (made: Result<
    wgpu::Buffer,
    UploadError,
>)
    ensures
        made matches Ok(buffer) ==> buffer_size(buffer) == 4 * words@.len() && buffer_role(buffer)
            == role && buffer_sound(buffer),
        made matches Err(error) ==> (error is TooLarge || error is Rejected),
        made matches Err(UploadError::TooLarge) <==> 4 * words@.len() > u64::MAX,
{
    if words.len() as u64 > u64::MAX / 4 {
        return Err(UploadError::TooLarge);
    }
    let filled = words.len() > 0;
    let made = create_buffer(device, 4 * (words.len() as u64), role, filled);
    match made {
        Err(reports) => Err(UploadError::Rejected { message: reports.message() }),
        Ok(new) => {
            if filled {
                let trap = ErrorTrap::open(device);
                let buffer = fill_buffer(&trap, new, words);
                UploadError::settle(buffer, trap.report())
            } else {
                Ok(new.unfilled())
            }
        },
    }
}

/// Computes the span of a list of indices: the least number that is above
/// every index.
pub fn index_span(indices: &Vec<u32>) -> (reach: u64)
    ensures
        reach == span(indices@),
        forall|i: int| 0 <= i < indices@.len() ==> (#[trigger] indices@[i]) < reach,
        reach > 0 ==> exists|i: int|
            0 <= i < indices@.len() && (#[trigger] indices@[i]) + 1 == reach,
{
    let mut reach: u64 = 0;
    let mut i: usize = 0;
    while i < indices.len()
        invariant
            i <= indices.len(),
            reach == span(indices@.take(i as int)),
            reach <= 0x1_0000_0000,
        decreases indices.len() - i,
    {
        proof {
            assert(indices@.take(i + 1).drop_last() =~= indices@.take(i as int));
            assert(indices@.take(i + 1).last() == indices@[i as int]);
        }
        let next: u64 = indices[i] as u64 + 1;
        if next > reach {
            reach = next;
        }
        i += 1;
    }
    proof {
        assert(indices@.take(i as int) =~= indices@);
        lemma_span_bounds(indices@);
    }
    reach
}

/// The views of a list of instances, position by position.
pub open spec fn object_views(objects: Seq<Object>) -> Seq<ObjectView> {
    Seq::new(objects.len(), |i: int| objects[i]@)
}

/// The views of a list of classes, position by position.
pub open spec fn class_views(classes: Seq<ObjectClass>) -> Seq<ClassView> {
    Seq::new(classes.len(), |i: int| classes[i]@)
}

/// What the registry knows of a class.
pub struct ClassView {
    /// The number in the class's handle.
    pub id: u64,
    /// The caller's own name for the shape.
    pub shape_id: usize,
    /// The kind of variant that draws the class.
    pub shader: ObjectShader,
    /// The number of vertices in the shared vertex buffer.
    pub vertex_count: u64,
    /// The number the next instance's handle gets.
    pub next_object: u64,
    /// The shared vertex buffer.
    pub vertexes: wgpu::Buffer,
    /// The instances, in the order they were added.
    pub objects: Seq<ObjectView>,
}

impl ClassView {
    /// The vertex buffer is sound and has room for exactly the class's
    /// vertices; every instance is well formed and every index of it
    /// addresses a vertex of the class; and no two instances share a handle
    /// number, now or later.
    pub open spec fn wf(self) -> bool {
        &&& buffer_size(self.vertexes) == 4 * (self.vertex_count * self.shader.spec_vertex_words())
        &&& buffer_role(self.vertexes) == BufferRole::Vertex
        &&& buffer_sound(self.vertexes)
        &&& self.objects.len() <= usize::MAX
        &&& forall|i: int|
            0 <= i < self.objects.len() ==> {
                &&& (#[trigger] self.objects[i]).wf()
                &&& self.objects[i].vertex_span <= self.vertex_count
                &&& self.objects[i].id < self.next_object
            }
        &&& forall|i: int, j: int|
            0 <= i < j < self.objects.len() ==> (#[trigger] self.objects[i]).id != (
            #[trigger] self.objects[j]).id
    }

    /// Some instance has an index, so the class has something to draw.
    pub open spec fn has_indices(self) -> bool {
        exists|i: int| 0 <= i < self.objects.len() && (#[trigger] self.objects[i]).index_count > 0
    }

    /// No instance has this handle number.
    pub open spec fn lacks(self, id: u64) -> bool {
        forall|i: int| 0 <= i < self.objects.len() ==> (#[trigger] self.objects[i]).id != id
    }

    /// The position of the instance with this handle number, if the class
    /// does not lack it.
    pub open spec fn index_of(self, id: u64) -> int {
        choose|i: int| 0 <= i < self.objects.len() && (#[trigger] self.objects[i]).id == id
    }

    /// In a well-formed class the instance with a handle number stands at one
    /// position only.
    pub proof fn lemma_index_of(self, id: u64, position: int)
        requires
            self.wf(),
            0 <= position < self.objects.len(),
            self.objects[position].id == id,
        ensures
            self.index_of(id) == position,
            !self.lacks(id),
    {
        let found = self.index_of(id);
        if found < position {
            assert(self.objects[found].id != self.objects[position].id);
        } else if position < found {
            assert(self.objects[position].id != self.objects[found].id);
        }
    }
}

/// A batch of instances that share one shader kind and one vertex buffer.
#[derive(Debug)]
pub struct ObjectClass {
    id: u64,
    shape_id: usize,
    shader: ObjectShader,
    vertexes: wgpu::Buffer,
    vertex_count: u64,
    next_object: u64,
    objects: Vec<Object>,
}

impl View for ObjectClass {
    type V = ClassView;

    closed spec fn view(&self) -> ClassView {
        ClassView {
            id: self.id,
            shape_id: self.shape_id,
            shader: self.shader,
            vertex_count: self.vertex_count,
            next_object: self.next_object,
            vertexes: self.vertexes,
            objects: object_views(self.objects@),
        }
    }
}

impl ObjectClass {
    /// The view is well formed.
    pub open spec fn wf(&self) -> bool {
        self@.wf()
    }

    /// Why vertex data of a number of words is refused for a shader kind
    /// before the device is asked, if it is: as ragged if the words do not
    /// divide into whole vertices of the kind, else as too large if a buffer
    /// size cannot count their bytes.
    pub open spec fn refusal(shader: ObjectShader, words: nat) -> Option<UploadError> {
        if words % (shader.spec_vertex_words() as nat) != 0 {
            Some(UploadError::Ragged)
        } else if 4 * words > u64::MAX {
            Some(UploadError::TooLarge)
        } else {
            None
        }
    }

    /// Puts vertex data into a new vertex buffer on the device and makes a
    /// class without instances around it. `vertexes` holds the vertices one
    /// after the other, each as the 32-bit words its shader kind reads.
    ///
    /// Data that does not divide into whole vertices, or whose byte size a
    /// buffer cannot have, is refused before the device is asked. Otherwise
    /// the device decides: the class comes back unless the device reported an
    /// error while the buffer was made and filled.
    pub fn new(
        device: &wgpu::Device,
        shape_id: usize,
        shader: ObjectShader,
        vertexes: &Vec<u32>,
    ) -> (made: Result<ObjectClass, UploadError>)
        ensures
            match ObjectClass::refusal(shader, vertexes@.len()) {
                Some(refusal) => made matches Err(error) && error == refusal,
                None => match made {
                    Ok(class) => class.wf() && class@ == (ClassView {
                        id: 0,
                        shape_id,
                        shader,
                        vertex_count: (vertexes@.len() / (shader.spec_vertex_words() as nat)) as u64,
                        next_object: 0,
                        vertexes: class@.vertexes,
                        objects: Seq::empty(),
                    }),
                    Err(error) => error is Rejected,
                },
            },
    {
        let words = shader.vertex_words();
        if vertexes.len() % words != 0 {
            return Err(UploadError::Ragged);
        }
        let vertex_count = (vertexes.len() / words) as u64;
        let buffer = match upload(device, vertexes, BufferRole::Vertex) {
            Ok(buffer) => buffer,
            Err(error) => {
                return Err(error);
            },
        };
        let class = ObjectClass {
            id: 0,
            shape_id,
            shader,
            vertexes: buffer,
            vertex_count,
            next_object: 0,
            objects: Vec::new(),
        };
        proof {
            assert(class@.objects =~= Seq::empty());
            assert(vertex_count * words == vertexes@.len()) by (nonlinear_arith)
                requires
                    vertex_count == vertexes@.len() / (words as nat),
                    vertexes@.len() % (words as nat) == 0,
                    words > 0,
            ;
        }
        Ok(class)
    }

    /// The caller's own name for the shape.
    pub fn shape_id(&self) -> (shape_id: usize)
        ensures
            shape_id == self@.shape_id,
    {
        self.shape_id
    }

    /// The kind of variant that draws the class.
    pub fn shader(&self) -> (shader: ObjectShader)
        ensures
            shader == self@.shader,
    {
        self.shader
    }

    /// The number of vertices in the shared vertex buffer.
    pub fn vertex_count(&self) -> (count: u64)
        ensures
            count == self@.vertex_count,
    {
        self.vertex_count
    }

    /// The number of instances.
    pub fn len(&self) -> (count: usize)
        ensures
            count == self@.objects.len(),
    {
        self.objects.len()
    }

    /// Whether the class has given out its last handle number.
    pub fn is_full(&self) -> (full: bool)
        ensures
            full == (self@.next_object == u64::MAX),
    {
        self.next_object == u64::MAX
    }

    /// The shared vertex buffer. It is not empty if the class has a vertex.
    pub fn vertexes(&self) -> (buffer: &wgpu::Buffer)
        ensures
            *buffer == self@.vertexes,
            self.wf() && self@.vertex_count > 0 ==> buffer_size(*buffer) > 0,
    {
        proof {
            if self.wf() && self.vertex_count > 0 {
                assert(self.vertex_count * self.shader.spec_vertex_words() > 0) by (nonlinear_arith)
                    requires
                        self.vertex_count > 0,
                        self.shader.spec_vertex_words() >= 2,
                ;
            }
        }
        &self.vertexes
    }

    /// The instance at a position.
    pub fn object(&self, position: usize) -> (object: &Object)
        requires
            position < self@.objects.len(),
        ensures
            object@ == self@.objects[position as int],
            self.wf() ==> object.wf(),
    {
        &self.objects[position]
    }

    /// The number in the handle the class has in its registry.
    pub(crate) fn id(&self) -> (id: u64)
        ensures
            id == self@.id,
    {
        self.id
    }

    /// The same class under another handle number.
    pub(crate) fn with_id(self, id: u64) -> (renamed: ObjectClass)
        ensures
            renamed@ == (ClassView { id, ..self@ }),
            self.wf() ==> renamed.wf(),
    {
        ObjectClass {
            id,
            shape_id: self.shape_id,
            shader: self.shader,
            vertexes: self.vertexes,
            vertex_count: self.vertex_count,
            next_object: self.next_object,
            objects: self.objects,
        }
    }

    /// Whether some instance has an index.
    pub fn has_indices(&self) -> (found: bool)
        ensures
            found == self@.has_indices(),
    {
        let mut i: usize = 0;
        while i < self.objects.len()
            invariant
                i <= self.objects@.len(),
                forall|j: int| 0 <= j < i ==> (#[trigger] self@.objects[j]).index_count == 0,
            decreases self.objects.len() - i,
        {
            if self.objects[i].index_count() > 0 {
                assert(self@.objects[i as int].index_count > 0);
                return true;
            }
            i += 1;
        }
        false
    }

    /// The position of the instance with a handle number, if the class has it.
    pub fn position(&self, id: u64) -> (found: Option<usize>)
        ensures
            match found {
                Some(position) => position < self@.objects.len() && self@.objects[position as int].id
                    == id,
                None => self@.lacks(id),
            },
    {
        let mut i: usize = 0;
        while i < self.objects.len()
            invariant
                i <= self.objects@.len(),
                forall|j: int| 0 <= j < i ==> (#[trigger] self@.objects[j]).id != id,
            decreases self.objects.len() - i,
        {
            if self.objects[i].id() == id {
                return Some(i);
            }
            i += 1;
        }
        None
    }

    /// Adds an instance after those the class has and gives it the class's
    /// next handle number.
    ///
    /// An instance with an index that addresses no vertex of the class is
    /// refused, and so is any instance once the handle numbers have run out;
    /// the class is then left as it was.
    pub(crate) fn attach(&mut self, object: Object) -> (attached: Result<u64, Error>)
        requires
            old(self).wf(),
            object.wf(),
        ensures
            final(self).wf(),
            match attached {
                Ok(id) => {
                    &&& object@.vertex_span <= old(self)@.vertex_count
                    &&& id == old(self)@.next_object
                    &&& id < u64::MAX
                    &&& final(self)@ == (ClassView {
                        next_object: (id + 1) as u64,
                        objects: old(self)@.objects.push(ObjectView { id, ..object@ }),
                        ..old(self)@
                    })
                },
                Err(error) => {
                    &&& *final(self) == *old(self)
                    &&& error == (if object@.vertex_span > old(self)@.vertex_count {
                        Error::IndexOutOfBounds
                    } else {
                        Error::HandlesExhausted
                    })
                    &&& object@.vertex_span > old(self)@.vertex_count || old(self)@.next_object
                        == u64::MAX
                },
            },
    {
        if object.vertex_span() > self.vertex_count {
            return Err(Error::IndexOutOfBounds);
        }
        if self.next_object == u64::MAX {
            return Err(Error::HandlesExhausted);
        }
        let id = self.next_object;
        self.next_object = id + 1;
        self.objects.push(object.with_id(id));
        proof {
            assert(self.objects@.len() == self.objects.len());
            assert(self@.objects =~= old(self)@.objects.push(ObjectView { id, ..object@ }));
        }
        Ok(id)
    }

    /// Removes the instance with a handle number and hands it back. The other
    /// instances keep their order.
    pub(crate) fn detach(&mut self, id: u64) -> (detached: Result<Object, Error>)
        requires
            old(self).wf(),
        ensures
            final(self).wf(),
            match detached {
                Ok(object) => {
                    &&& !old(self)@.lacks(id)
                    &&& object@ == old(self)@.objects[old(self)@.index_of(id)]
                    &&& object.wf()
                    &&& final(self)@ == (ClassView {
                        objects: old(self)@.objects.remove(old(self)@.index_of(id)),
                        ..old(self)@
                    })
                },
                Err(error) => {
                    &&& *final(self) == *old(self)
                    &&& error == Error::UnknownInstance
                    &&& old(self)@.lacks(id)
                },
            },
    {
        match self.position(id) {
            None => Err(Error::UnknownInstance),
            Some(position) => {
                let object = self.objects.remove(position);
                proof {
                    old(self)@.lemma_index_of(id, position as int);
                    assert(self@.objects =~= old(self)@.objects.remove(position as int));
                    assert(old(self)@.objects[position as int] == object@);
                }
                Ok(object)
            },
        }
    }

    /// Appends the commands of the class's instances, the class standing at
    /// position `class` of its registry.
    pub(crate) fn record(&self, class: usize, commands: &mut Vec<DrawCommand>)
        ensures
            final(commands)@ == old(commands)@ + objects_commands(
                class as int,
                self@,
                self@.objects.len() as int,
            ),
    {
        let mut i: usize = 0;
        while i < self.objects.len()
            invariant
                i <= self.objects@.len(),
                commands@ == old(commands)@ + objects_commands(class as int, self@, i as int),
            decreases self.objects.len() - i,
        {
            let index_count = self.objects[i].index_count();
            if index_count > 0 {
                commands.push(DrawCommand::SetIndexBuffer { class, object: i });
                commands.push(DrawCommand::DrawIndexed { index_count });
            }
            proof {
                assert(commands@ =~= old(commands)@ + (objects_commands(class as int, self@, i as int)
                    + object_commands(class as int, self@, i as int)));
            }
            i += 1;
        }
    }
}

} // verus!
