//! The commands of one frame.
//!
//! A frame is a sequence of [`DrawCommand`]s, and which sequence a registry
//! records is defined here as a function of what the registry holds: the
//! views of its classes, in order, and for each shader kind whether its
//! variant is ready and has a bind group.

use vstd::prelude::*;
use crate::output::object::{ClassHandle, ClassView, ObjectShader};

verus! {

/// One command of a render pass. Classes and instances are named by their
/// positions in the registry at the time the frame is recorded.
#[derive(Clone, Copy, Debug, PartialEq, Eq, Structural)]
pub enum DrawCommand {
    /// Bind the pipeline of the variant of this kind.
    SetPipeline { shader: ObjectShader },
    /// Bind the variant's bind group as group 0, or bind no group there if
    /// `bound` is false.
    SetBindGroup { shader: ObjectShader, bound: bool },
    /// Bind the vertex buffer of the class at this position to slot 0.
    SetVertexBuffer { class: usize },
    /// Bind the index buffer of this instance of this class.
    SetIndexBuffer { class: usize, object: usize },
    /// Draw the first `index_count` indices of the bound index buffer once.
    DrawIndexed { index_count: u32 },
}

/// For each shader kind whose variant is ready, whether the variant has a
/// bind group. A kind outside the domain has no usable variant.
pub type Ready = Map<ObjectShader, bool>;

/// A class is drawn if its variant is ready and it has something to draw.
pub open spec fn drawn(class: ClassView, ready: Ready) -> bool {
    ready.dom().contains(class.shader) && class.has_indices()
}

/// A class is skipped, and reported, if it has something to draw and its
/// variant is not ready.
pub open spec fn skipped(class: ClassView, ready: Ready) -> bool {
    !ready.dom().contains(class.shader) && class.has_indices()
}

/// The commands of the instance at position `object` of the class at position
/// `class`: its index buffer and one draw over all its indices, or nothing if
/// it has no index.
pub open spec fn object_commands(class: int, view: ClassView, object: int) -> Seq<DrawCommand> {
    if view.objects[object].index_count > 0 {
        seq![
            DrawCommand::SetIndexBuffer { class: class as usize, object: object as usize },
            DrawCommand::DrawIndexed { index_count: view.objects[object].index_count },
        ]
    } else {
        Seq::empty()
    }
}

/// The commands of the first `count` instances of a class, in the order the
/// instances were added.
pub open spec fn objects_commands(class: int, view: ClassView, count: int) -> Seq<DrawCommand>
    decreases count,
{
    if count <= 0 {
        Seq::empty()
    } else {
        objects_commands(class, view, count - 1) + object_commands(class, view, count - 1)
    }
}

/// The commands that bind the variant of a kind: its pipeline, then its bind
/// group or explicitly none.
pub open spec fn bind_commands(shader: ObjectShader, ready: Ready) -> Seq<DrawCommand> {
    seq![
        DrawCommand::SetPipeline { shader },
        DrawCommand::SetBindGroup { shader, bound: ready[shader] },
    ]
}

/// The commands of the class at position `class` when `bound` is the kind
/// whose variant the pass has bound: nothing unless the class is drawn; else
/// the variant, if it is not the bound one, then the vertex buffer, then the
/// instances.
pub open spec fn class_commands(
    class: int,
    view: ClassView,
    ready: Ready,
    bound: Option<ObjectShader>,
) -> Seq<DrawCommand> {
    if !drawn(view, ready) {
        Seq::empty()
    } else {
        (if bound == Some(view.shader) {
            Seq::empty()
        } else {
            bind_commands(view.shader, ready)
        }) + seq![DrawCommand::SetVertexBuffer { class: class as usize }] + objects_commands(
            class,
            view,
            view.objects.len() as int,
        )
    }
}

/// The kind whose variant is bound after the first `count` classes: that of
/// the last drawn class among them, if there is one.
pub open spec fn bound_after(classes: Seq<ClassView>, ready: Ready, count: int) -> Option<
    ObjectShader,
>
    decreases count,
{
    if count <= 0 {
        None
    } else if drawn(classes[count - 1], ready) {
        Some(classes[count - 1].shader)
    } else {
        bound_after(classes, ready, count - 1)
    }
}

/// The commands of the first `count` classes, in the order of the class list.
pub open spec fn frame_prefix(classes: Seq<ClassView>, ready: Ready, count: int) -> Seq<
    DrawCommand,
>
    decreases count,
{
    if count <= 0 {
        Seq::empty()
    } else {
        frame_prefix(classes, ready, count - 1) + class_commands(
            count - 1,
            classes[count - 1],
            ready,
            bound_after(classes, ready, count - 1),
        )
    }
}

/// The commands of one frame.
pub open spec fn frame(classes: Seq<ClassView>, ready: Ready) -> Seq<DrawCommand> {
    frame_prefix(classes, ready, classes.len() as int)
}

/// The handles of those of the first `count` classes that are skipped, in the
/// order of the class list.
pub open spec fn skipped_prefix(classes: Seq<ClassView>, ready: Ready, count: int) -> Seq<
    ClassHandle,
>
    decreases count,
{
    if count <= 0 {
        Seq::empty()
    } else if skipped(classes[count - 1], ready) {
        skipped_prefix(classes, ready, count - 1).push(ClassHandle { id: classes[count - 1].id })
    } else {
        skipped_prefix(classes, ready, count - 1)
    }
}

/// Whether a pass can take a command for these classes and variants: the
/// variant it names is ready, the class and instance it names exist, and the
/// buffer it binds is not empty.
pub open spec fn encodable(classes: Seq<ClassView>, ready: Ready, command: DrawCommand) -> bool {
    match command {
        DrawCommand::SetPipeline { shader } => ready.dom().contains(shader),
        DrawCommand::SetBindGroup { shader, bound } => ready.dom().contains(shader) && bound
            == ready[shader],
        DrawCommand::SetVertexBuffer { class } => class < classes.len() && classes[class as int].vertex_count
            > 0,
        DrawCommand::SetIndexBuffer { class, object } => class < classes.len() && object
            < classes[class as int].objects.len()
            && classes[class as int].objects[object as int].index_count > 0,
        DrawCommand::DrawIndexed { .. } => true,
    }
}

/// The number of commands of a sequence that a predicate picks.
pub open spec fn tally(commands: Seq<DrawCommand>, wanted: spec_fn(DrawCommand) -> bool) -> nat
    decreases commands.len(),
{
    if commands.len() == 0 {
        0
    } else {
        tally(commands.drop_last(), wanted) + if wanted(commands.last()) {
            1nat
        } else {
            0nat
        }
    }
}

/// The number of pipeline binds in a sequence of commands.
pub open spec fn pipeline_binds(commands: Seq<DrawCommand>) -> nat {
    tally(commands, |command: DrawCommand| command is SetPipeline)
}

/// The number of bind-group binds in a sequence of commands.
pub open spec fn group_binds(commands: Seq<DrawCommand>) -> nat {
    tally(commands, |command: DrawCommand| command is SetBindGroup)
}

/// The number of vertex-buffer binds in a sequence of commands.
pub open spec fn vertex_binds(commands: Seq<DrawCommand>) -> nat {
    tally(commands, |command: DrawCommand| command is SetVertexBuffer)
}

/// The number of index-buffer binds in a sequence of commands.
pub open spec fn index_binds(commands: Seq<DrawCommand>) -> nat {
    tally(commands, |command: DrawCommand| command is SetIndexBuffer)
}

/// The number of draw calls in a sequence of commands.
pub open spec fn draws(commands: Seq<DrawCommand>) -> nat {
    tally(commands, |command: DrawCommand| command is DrawIndexed)
}

/// What recording a frame did: how many commands of each sort the pass got,
/// and which classes it could not draw.
#[derive(Debug, PartialEq, Eq)]
pub struct FrameReport {
    /// The number of pipeline binds.
    pub pipeline_binds: usize,
    /// The number of bind-group binds, those of no group among them.
    pub group_binds: usize,
    /// The number of vertex-buffer binds.
    pub vertex_binds: usize,
    /// The number of index-buffer binds.
    pub index_binds: usize,
    /// The number of draw calls.
    pub draws: usize,
    /// The classes that had something to draw and no variant to draw it
    /// with, in the order of the class list.
    pub skipped: Vec<ClassHandle>,
}

impl FrameReport {
    /// Whether this is the report of recording `commands` and skipping
    /// `skipped`.
    pub open spec fn is_of(self, commands: Seq<DrawCommand>, skipped: Seq<ClassHandle>) -> bool {
        &&& self.pipeline_binds == pipeline_binds(commands)
        &&& self.group_binds == group_binds(commands)
        &&& self.vertex_binds == vertex_binds(commands)
        &&& self.index_binds == index_binds(commands)
        &&& self.draws == draws(commands)
        &&& self.skipped@ == skipped
    }

    /// Counts the commands of a frame.
    pub fn of(commands: &Vec<DrawCommand>, skipped: Vec<ClassHandle>) -> (report: FrameReport)
        ensures
            report.is_of(commands@, skipped@),
    {
        let mut report = FrameReport {
            pipeline_binds: 0,
            group_binds: 0,
            vertex_binds: 0,
            index_binds: 0,
            draws: 0,
            skipped,
        };
        let mut i: usize = 0;
        while i < commands.len()
            invariant
                i <= commands@.len(),
                report.is_of(commands@.take(i as int), skipped@),
                report.pipeline_binds <= i,
                report.group_binds <= i,
                report.vertex_binds <= i,
                report.index_binds <= i,
                report.draws <= i,
            decreases commands.len() - i,
        {
            proof {
                assert(commands@.take(i + 1).drop_last() =~= commands@.take(i as int));
                assert(commands@.take(i + 1).last() == commands@[i as int]);
            }
            match commands[i] {
                DrawCommand::SetPipeline { .. } => {
                    report.pipeline_binds = report.pipeline_binds + 1;
                },
                DrawCommand::SetBindGroup { .. } => {
                    report.group_binds = report.group_binds + 1;
                },
                DrawCommand::SetVertexBuffer { .. } => {
                    report.vertex_binds = report.vertex_binds + 1;
                },
                DrawCommand::SetIndexBuffer { .. } => {
                    report.index_binds = report.index_binds + 1;
                },
                DrawCommand::DrawIndexed { .. } => {
                    report.draws = report.draws + 1;
                },
            }
            i += 1;
        }
        proof {
            assert(commands@.take(i as int) =~= commands@);
        }
        report
    }
}

/// Whether a pass can take every command of a sequence.
pub open spec fn all_encodable(
    classes: Seq<ClassView>,
    ready: Ready,
    commands: Seq<DrawCommand>,
) -> bool {
    forall|k: int| 0 <= k < commands.len() ==> encodable(classes, ready, #[trigger] commands[k])
}

/// What a pass can take in two parts it can take as one.
pub proof fn lemma_encodable_concat(
    classes: Seq<ClassView>,
    ready: Ready,
    first: Seq<DrawCommand>,
    second: Seq<DrawCommand>,
)
    requires
        all_encodable(classes, ready, first),
        all_encodable(classes, ready, second),
    ensures
        all_encodable(classes, ready, first + second),
{
    assert forall|k: int| 0 <= k < (first + second).len() implies encodable(
        classes,
        ready,
        #[trigger] (first + second)[k],
    ) by {
        if k < first.len() {
            assert((first + second)[k] == first[k]);
        } else {
            assert((first + second)[k] == second[k - first.len()]);
        }
    }
}

/// A pass can take every command of the first `count` instances of a class.
pub proof fn lemma_objects_encodable(classes: Seq<ClassView>, ready: Ready, class: int, count: int)
    requires
        0 <= class < classes.len() <= usize::MAX,
        0 <= count <= classes[class].objects.len() <= usize::MAX,
    ensures
        all_encodable(classes, ready, objects_commands(class, classes[class], count)),
    decreases count,
{
    if count > 0 {
        lemma_objects_encodable(classes, ready, class, count - 1);
        lemma_encodable_concat(
            classes,
            ready,
            objects_commands(class, classes[class], count - 1),
            object_commands(class, classes[class], count - 1),
        );
    }
}

/// A pass can take every command of a frame of well-formed classes: each
/// command names a ready variant, a class or an instance that exists, and
/// binds no empty buffer.
pub proof fn lemma_frame_encodable(classes: Seq<ClassView>, ready: Ready, count: int)
    requires
        0 <= count <= classes.len() <= usize::MAX,
        forall|i: int| 0 <= i < classes.len() ==> (#[trigger] classes[i]).wf(),
    ensures
        all_encodable(classes, ready, frame_prefix(classes, ready, count)),
    decreases count,
{
    if count > 0 {
        lemma_frame_encodable(classes, ready, count - 1);
        let class = classes[count - 1];
        let bound = bound_after(classes, ready, count - 1);
        assert(class.wf());
        if drawn(class, ready) {
            let witness = choose|i: int|
                0 <= i < class.objects.len() && (#[trigger] class.objects[i]).index_count > 0;
            assert(class.objects[witness].wf());
            assert(class.vertex_count > 0);
            let binds = if bound == Some(class.shader) {
                Seq::<DrawCommand>::empty()
            } else {
                bind_commands(class.shader, ready)
            };
            let vertex = seq![DrawCommand::SetVertexBuffer { class: (count - 1) as usize }];
            lemma_objects_encodable(classes, ready, count - 1, class.objects.len() as int);
            lemma_encodable_concat(classes, ready, binds, vertex);
            lemma_encodable_concat(
                classes,
                ready,
                binds + vertex,
                objects_commands(count - 1, class, class.objects.len() as int),
            );
        }
        lemma_encodable_concat(
            classes,
            ready,
            frame_prefix(classes, ready, count - 1),
            class_commands(count - 1, class, ready, bound),
        );
    }
}

} // verus!
