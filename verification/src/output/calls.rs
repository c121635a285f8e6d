//! What a frame hands to the render pass.
//!
//! A [`DrawCommand`] names classes and instances by their positions. Here
//! the frame is told a second time, by the handles themselves: which
//! pipeline, which bind group and which buffers the pass is given, in which
//! order. The two tellings are proved to agree, and the second one shows
//! that classes which cannot be drawn leave no trace in a frame.

use vstd::prelude::*;
use crate::output::command::{
    bound_after, class_commands, drawn, frame_prefix, object_commands, objects_commands,
    DrawCommand, Ready,
};
use crate::output::gpu::{Draw, PassState};
use crate::output::object::{ClassView, ObjectShader};
use crate::output::{OutputView, BASE_VERTEX, BIND_GROUP, INDEX_WIDTH, INSTANCES, VERTEX_SLOT};

verus! {

/// One call on a render pass, with the handle it hands over.
pub enum Call {
    /// Bind this pipeline.
    SetPipeline(wgpu::RenderPipeline),
    /// Bind this bind group, or none.
    SetBindGroup(Option<wgpu::BindGroup>),
    /// Bind this vertex buffer.
    SetVertexBuffer(wgpu::Buffer),
    /// Bind this index buffer.
    SetIndexBuffer(wgpu::Buffer),
    /// Draw this many indices of the bound index buffer.
    DrawIndexed(u32),
}

/// What a pass was told once a call is made on it: a bind makes its handle
/// the active one, for the one bind group index and the one vertex slot the
/// crate uses, and a draw is noted with what is active.
pub open spec fn apply(state: PassState, call: Call) -> PassState {
    match call {
        Call::SetPipeline(pipeline) => PassState { pipeline: Some(pipeline), ..state },
        Call::SetBindGroup(group) => PassState {
            groups: state.groups.insert(BIND_GROUP, group),
            ..state
        },
        Call::SetVertexBuffer(buffer) => PassState {
            vertex_buffers: state.vertex_buffers.insert(VERTEX_SLOT, buffer),
            ..state
        },
        Call::SetIndexBuffer(buffer) => PassState {
            index_buffer: Some((buffer, INDEX_WIDTH)),
            ..state
        },
        Call::DrawIndexed(index_count) => PassState {
            draws: state.draws.push(
                Draw {
                    pipeline: state.pipeline,
                    groups: state.groups,
                    vertex_buffers: state.vertex_buffers,
                    index_buffer: state.index_buffer,
                    index_count,
                    base_vertex: BASE_VERTEX,
                    instances: INSTANCES,
                },
            ),
            ..state
        },
    }
}

/// What a pass was told once a sequence of calls is made on it, one after
/// the other.
pub open spec fn run(state: PassState, calls: Seq<Call>) -> PassState
    decreases calls.len(),
{
    if calls.len() == 0 {
        state
    } else {
        apply(run(state, calls.drop_last()), calls.last())
    }
}

/// The call that a command of a registry's frame stands for: the command's
/// positions and kinds looked up in the registry.
pub open spec fn call_of(view: OutputView, command: DrawCommand) -> Call {
    match command {
        DrawCommand::SetPipeline { shader } => Call::SetPipeline(
            view.slots[shader]->Ready_0.pipeline,
        ),
        DrawCommand::SetBindGroup { shader, .. } => Call::SetBindGroup(
            view.slots[shader]->Ready_0.group,
        ),
        DrawCommand::SetVertexBuffer { class } => Call::SetVertexBuffer(
            view.classes[class as int].vertexes,
        ),
        DrawCommand::SetIndexBuffer { class, object } => Call::SetIndexBuffer(
            view.classes[class as int].objects[object as int].indexes,
        ),
        DrawCommand::DrawIndexed { index_count } => Call::DrawIndexed(index_count),
    }
}

/// The calls that a sequence of commands stands for, one for one.
pub open spec fn calls_of(view: OutputView, commands: Seq<DrawCommand>) -> Seq<Call> {
    Seq::new(commands.len(), |k: int| call_of(view, commands[k]))
}

/// The calls for one instance: its own index buffer, then the draw of all
/// its indices; nothing for an instance without indices.
pub open spec fn object_calls(class: ClassView, object: int) -> Seq<Call> {
    if class.objects[object].index_count > 0 {
        seq![
            Call::SetIndexBuffer(class.objects[object].indexes),
            Call::DrawIndexed(class.objects[object].index_count),
        ]
    } else {
        Seq::empty()
    }
}

/// The calls for the first `count` instances of a class, in the order the
/// instances were added.
pub open spec fn objects_calls(class: ClassView, count: int) -> Seq<Call>
    decreases count,
{
    if count <= 0 {
        Seq::empty()
    } else {
        objects_calls(class, count - 1) + object_calls(class, count - 1)
    }
}

/// The calls for one class when `bound` is the kind whose variant the pass
/// has bound: nothing unless the class is drawn; else the pipeline and the
/// bind group of the class's own variant, unless that variant is the bound
/// one, then the class's own vertex buffer, then the calls for its
/// instances.
pub open spec fn class_calls(view: OutputView, class: ClassView, bound: Option<ObjectShader>) -> Seq<
    Call,
> {
    if !drawn(class, view.ready()) {
        Seq::empty()
    } else {
        (if bound == Some(class.shader) {
            Seq::empty()
        } else {
            seq![
                Call::SetPipeline(view.slots[class.shader]->Ready_0.pipeline),
                Call::SetBindGroup(view.slots[class.shader]->Ready_0.group),
            ]
        }) + seq![Call::SetVertexBuffer(class.vertexes)] + objects_calls(
            class,
            class.objects.len() as int,
        )
    }
}

/// The calls for the first `count` classes of a registry, in the order the
/// classes were added.
pub open spec fn calls_prefix(view: OutputView, count: int) -> Seq<Call>
    decreases count,
{
    if count <= 0 {
        Seq::empty()
    } else {
        calls_prefix(view, count - 1) + class_calls(
            view,
            view.classes[count - 1],
            bound_after(view.classes, view.ready(), count - 1),
        )
    }
}

/// The calls of one frame of a registry.
pub open spec fn calls(view: OutputView) -> Seq<Call> {
    calls_prefix(view, view.classes.len() as int)
}

/// The commands of a class's first `count` instances stand for the calls for
/// those instances.
pub proof fn lemma_objects_calls(view: OutputView, class: int, count: int)
    requires
        0 <= class < view.classes.len() <= usize::MAX,
        0 <= count <= view.classes[class].objects.len() <= usize::MAX,
    ensures
        calls_of(view, objects_commands(class, view.classes[class], count)) == objects_calls(
            view.classes[class],
            count,
        ),
    decreases count,
{
    if count > 0 {
        lemma_objects_calls(view, class, count - 1);
        let before = objects_commands(class, view.classes[class], count - 1);
        let last = object_commands(class, view.classes[class], count - 1);
        assert(calls_of(view, before + last) =~= calls_of(view, before) + calls_of(view, last));
        assert(calls_of(view, last) =~= object_calls(view.classes[class], count - 1));
    } else {
        assert(calls_of(view, Seq::<DrawCommand>::empty()) =~= Seq::<Call>::empty());
    }
}

/// The commands of a frame stand for the calls of the frame: looking up each
/// command's positions gives, call for call, the pipeline of the class's own
/// kind, the class's own vertex buffer and the instance's own index buffer.
pub proof fn law_frame_calls(view: OutputView, count: int)
    requires
        view.wf(),
        0 <= count <= view.classes.len(),
    ensures
        calls_of(view, frame_prefix(view.classes, view.ready(), count)) == calls_prefix(view, count),
    decreases count,
{
    if count > 0 {
        law_frame_calls(view, count - 1);
        let class = view.classes[count - 1];
        let bound = bound_after(view.classes, view.ready(), count - 1);
        let before = frame_prefix(view.classes, view.ready(), count - 1);
        let last = class_commands(count - 1, class, view.ready(), bound);
        assert(class.wf());
        assert(calls_of(view, before + last) =~= calls_of(view, before) + calls_of(view, last));
        if drawn(class, view.ready()) {
            lemma_objects_calls(view, count - 1, class.objects.len() as int);
            let objects = objects_commands(count - 1, class, class.objects.len() as int);
            let head = last.subrange(0, last.len() - objects.len());
            assert(last =~= head + objects);
            assert(calls_of(view, head + objects) =~= calls_of(view, head) + calls_of(
                view,
                objects,
            ));
            assert(calls_of(view, last) =~= class_calls(view, class, bound));
        } else {
            assert(calls_of(view, last) =~= class_calls(view, class, bound));
        }
    } else {
        assert(calls_of(view, Seq::<DrawCommand>::empty()) =~= Seq::<Call>::empty());
    }
}

/// The first `count` classes without those whose variant is not ready, in
/// the order they were added.
pub open spec fn kept(classes: Seq<ClassView>, ready: Ready, count: int) -> Seq<ClassView>
    decreases count,
{
    if count <= 0 {
        Seq::empty()
    } else if ready.dom().contains(classes[count - 1].shader) {
        kept(classes, ready, count - 1).push(classes[count - 1])
    } else {
        kept(classes, ready, count - 1)
    }
}

/// The calls for the first `count` classes do not depend on the classes
/// behind them.
pub proof fn lemma_calls_local(view: OutputView, longer: OutputView, count: int)
    requires
        0 <= count <= view.classes.len() <= longer.classes.len(),
        forall|i: int| 0 <= i < view.classes.len() ==> #[trigger] longer.classes[i] == view.classes[i],
        longer.slots == view.slots,
    ensures
        calls_prefix(longer, count) == calls_prefix(view, count),
        bound_after(longer.classes, longer.ready(), count) == bound_after(
            view.classes,
            view.ready(),
            count,
        ),
    decreases count,
{
    assert(longer.ready() =~= view.ready());
    if count > 0 {
        lemma_calls_local(view, longer, count - 1);
        assert(longer.classes[count - 1] == view.classes[count - 1]);
    }
}

/// Classes that cannot be drawn leave no trace in a frame: the registry
/// without the classes whose variant is not ready, the others in their
/// order, is handed the same calls with the same handles in the same order,
/// and ends with the same variant bound.
pub proof fn law_failed_classes_leave_no_trace(view: OutputView, count: int)
    requires
        0 <= count <= view.classes.len(),
    ensures
        ({
            let rest = OutputView { classes: kept(view.classes, view.ready(), count), ..view };
            &&& calls(rest) == calls_prefix(view, count)
            &&& bound_after(rest.classes, rest.ready(), rest.classes.len() as int) == bound_after(
                view.classes,
                view.ready(),
                count,
            )
        }),
    decreases count,
{
    let ready = view.ready();
    let rest = OutputView { classes: kept(view.classes, ready, count), ..view };
    assert(rest.ready() =~= ready);
    if count > 0 {
        law_failed_classes_leave_no_trace(view, count - 1);
        let shorter = OutputView { classes: kept(view.classes, ready, count - 1), ..view };
        assert(shorter.ready() =~= ready);
        let class = view.classes[count - 1];
        if ready.dom().contains(class.shader) {
            lemma_calls_local(shorter, rest, shorter.classes.len() as int);
            assert(rest.classes[rest.classes.len() - 1] == class);
        } else {
            assert(!drawn(class, ready));
        }
    }
}

/// Calls made one sequence after the other are the calls of the two
/// sequences in a row.
pub proof fn lemma_run_concat(state: PassState, first: Seq<Call>, second: Seq<Call>)
    ensures
        run(state, first + second) == run(run(state, first), second),
    decreases second.len(),
{
    if second.len() == 0 {
        assert(first + second =~= first);
    } else {
        assert((first + second).drop_last() =~= first + second.drop_last());
        lemma_run_concat(state, first, second.drop_last());
    }
}

/// A single call is applied.
pub proof fn lemma_run_one(state: PassState, call: Call)
    ensures
        run(state, seq![call]) == apply(state, call),
{
    let one = seq![call];
    assert(one.drop_last() =~= Seq::<Call>::empty());
    assert(run(state, one.drop_last()) == state);
    assert(one.last() == call);
}

/// The draw of one instance of a class, as a pass notes it that had
/// `groups` and `vertex_buffers` active before the frame: under the pipeline
/// and bind group of the class's own variant, with the class's own vertex
/// buffer and the instance's own index buffer, for all its indices, once.
pub open spec fn draw_of(
    view: OutputView,
    groups: Map<u32, Option<wgpu::BindGroup>>,
    vertex_buffers: Map<u32, wgpu::Buffer>,
    class: ClassView,
    object: int,
) -> Draw {
    Draw {
        pipeline: Some(view.slots[class.shader]->Ready_0.pipeline),
        groups: groups.insert(BIND_GROUP, view.slots[class.shader]->Ready_0.group),
        vertex_buffers: vertex_buffers.insert(VERTEX_SLOT, class.vertexes),
        index_buffer: Some((class.objects[object].indexes, INDEX_WIDTH)),
        index_count: class.objects[object].index_count,
        base_vertex: BASE_VERTEX,
        instances: INSTANCES,
    }
}

/// The draws of the first `count` instances of a class: one for each that
/// has indices, in the order the instances were added.
pub open spec fn objects_draws(
    view: OutputView,
    groups: Map<u32, Option<wgpu::BindGroup>>,
    vertex_buffers: Map<u32, wgpu::Buffer>,
    class: ClassView,
    count: int,
) -> Seq<Draw>
    decreases count,
{
    if count <= 0 {
        Seq::empty()
    } else if class.objects[count - 1].index_count > 0 {
        objects_draws(view, groups, vertex_buffers, class, count - 1).push(
            draw_of(view, groups, vertex_buffers, class, count - 1),
        )
    } else {
        objects_draws(view, groups, vertex_buffers, class, count - 1)
    }
}

/// The draws of the first `count` classes of a registry: those of every
/// drawn class, in the order the classes were added.
pub open spec fn draws_prefix(
    view: OutputView,
    groups: Map<u32, Option<wgpu::BindGroup>>,
    vertex_buffers: Map<u32, wgpu::Buffer>,
    count: int,
) -> Seq<Draw>
    decreases count,
{
    if count <= 0 {
        Seq::empty()
    } else if drawn(view.classes[count - 1], view.ready()) {
        draws_prefix(view, groups, vertex_buffers, count - 1) + objects_draws(
            view,
            groups,
            vertex_buffers,
            view.classes[count - 1],
            view.classes[count - 1].objects.len() as int,
        )
    } else {
        draws_prefix(view, groups, vertex_buffers, count - 1)
    }
}

/// Whether a pass stands as the frame leaves it behind a class of kind
/// `bound` with vertex buffer `buffer`: that kind's pipeline and bind group
/// and that buffer are active, and none if no class was drawn yet.
pub open spec fn stands(
    view: OutputView,
    start: PassState,
    state: PassState,
    last: Option<ClassView>,
) -> bool {
    match last {
        None => {
            &&& state.pipeline == start.pipeline
            &&& state.groups == start.groups
            &&& state.vertex_buffers == start.vertex_buffers
        },
        Some(class) => {
            &&& state.pipeline == Some(view.slots[class.shader]->Ready_0.pipeline)
            &&& state.groups == start.groups.insert(
                BIND_GROUP,
                view.slots[class.shader]->Ready_0.group,
            )
            &&& state.vertex_buffers == start.vertex_buffers.insert(VERTEX_SLOT, class.vertexes)
        },
    }
}

/// The last drawn class among the first `count` classes, if there is one.
pub open spec fn last_drawn(classes: Seq<ClassView>, ready: Ready, count: int) -> Option<ClassView>
    decreases count,
{
    if count <= 0 {
        None
    } else if drawn(classes[count - 1], ready) {
        Some(classes[count - 1])
    } else {
        last_drawn(classes, ready, count - 1)
    }
}

/// The variant bound behind some classes is that of the last drawn class.
pub proof fn lemma_last_drawn(classes: Seq<ClassView>, ready: Ready, count: int)
    ensures
        bound_after(classes, ready, count) == (match last_drawn(classes, ready, count) {
            Some(class) => Some(class.shader),
            None => None,
        }),
    decreases count,
{
    if count > 0 {
        lemma_last_drawn(classes, ready, count - 1);
    }
}

/// The calls for a class's first `count` instances, made on a pass that has
/// the class's variant and vertex buffer active, add the draws of those
/// instances and leave pipeline, bind groups and vertex buffers as they are.
pub proof fn lemma_objects_draws(
    view: OutputView,
    start: PassState,
    state: PassState,
    class: ClassView,
    count: int,
)
    requires
        stands(view, start, state, Some(class)),
        0 <= count <= class.objects.len(),
    ensures
        stands(view, start, run(state, objects_calls(class, count)), Some(class)),
        run(state, objects_calls(class, count)).draws == state.draws + objects_draws(
            view,
            start.groups,
            start.vertex_buffers,
            class,
            count,
        ),
    decreases count,
{
    if count > 0 {
        lemma_objects_draws(view, start, state, class, count - 1);
        let before = run(state, objects_calls(class, count - 1));
        lemma_run_concat(state, objects_calls(class, count - 1), object_calls(class, count - 1));
        let draws = objects_draws(view, start.groups, start.vertex_buffers, class, count - 1);
        if class.objects[count - 1].index_count > 0 {
            let bind = Call::SetIndexBuffer(class.objects[count - 1].indexes);
            let draw = Call::DrawIndexed(class.objects[count - 1].index_count);
            assert(object_calls(class, count - 1) =~= seq![bind] + seq![draw]);
            lemma_run_concat(before, seq![bind], seq![draw]);
            lemma_run_one(before, bind);
            lemma_run_one(apply(before, bind), draw);
            let after = run(state, objects_calls(class, count));
            assert(after.draws =~= state.draws + draws.push(
                draw_of(view, start.groups, start.vertex_buffers, class, count - 1),
            ));
        } else {
            assert(object_calls(class, count - 1) =~= Seq::<Call>::empty());
            assert(state.draws + draws =~= state.draws + draws);
        }
    } else {
        assert(state.draws + Seq::<Draw>::empty() =~= state.draws);
    }
}

/// What a frame makes of a pass: whatever the pass was told before, the
/// frame adds one draw for each instance with indices of each drawn class,
/// in the order the classes and the instances were added, and each draw is
/// made under the pipeline and bind group of its class's own variant, with
/// its class's own vertex buffer and its own index buffer, over all its
/// indices, once. Bind groups of other indices and vertex buffers of other
/// slots are left as the pass had them.
pub proof fn law_frame_draws(view: OutputView, start: PassState, count: int)
    requires
        0 <= count <= view.classes.len(),
    ensures
        run(start, calls_prefix(view, count)).draws == start.draws + draws_prefix(
            view,
            start.groups,
            start.vertex_buffers,
            count,
        ),
        stands(
            view,
            start,
            run(start, calls_prefix(view, count)),
            last_drawn(view.classes, view.ready(), count),
        ),
    decreases count,
{
    if count > 0 {
        law_frame_draws(view, start, count - 1);
        lemma_last_drawn(view.classes, view.ready(), count - 1);
        let class = view.classes[count - 1];
        let bound = bound_after(view.classes, view.ready(), count - 1);
        let before = run(start, calls_prefix(view, count - 1));
        let draws = draws_prefix(view, start.groups, start.vertex_buffers, count - 1);
        lemma_run_concat(start, calls_prefix(view, count - 1), class_calls(view, class, bound));
        if drawn(class, view.ready()) {
            let pipeline = Call::SetPipeline(view.slots[class.shader]->Ready_0.pipeline);
            let group = Call::SetBindGroup(view.slots[class.shader]->Ready_0.group);
            let vertex = Call::SetVertexBuffer(class.vertexes);
            let objects = objects_calls(class, class.objects.len() as int);
            let bound_state = if bound == Some(class.shader) {
                before
            } else {
                apply(apply(before, pipeline), group)
            };
            if bound == Some(class.shader) {
                assert(class_calls(view, class, bound) =~= seq![vertex] + objects);
            } else {
                assert(class_calls(view, class, bound) =~= (seq![pipeline] + seq![group]) + (
                seq![vertex] + objects));
                lemma_run_concat(before, seq![pipeline] + seq![group], seq![vertex] + objects);
                lemma_run_concat(before, seq![pipeline], seq![group]);
                lemma_run_one(before, pipeline);
                lemma_run_one(apply(before, pipeline), group);
            }
            lemma_run_concat(bound_state, seq![vertex], objects);
            lemma_run_one(bound_state, vertex);
            let ready = apply(bound_state, vertex);
            assert(ready.groups =~= start.groups.insert(
                BIND_GROUP,
                view.slots[class.shader]->Ready_0.group,
            ));
            assert(ready.vertex_buffers =~= start.vertex_buffers.insert(
                VERTEX_SLOT,
                class.vertexes,
            ));
            assert(stands(view, start, ready, Some(class)));
            lemma_objects_draws(view, start, ready, class, class.objects.len() as int);
            let own = objects_draws(
                view,
                start.groups,
                start.vertex_buffers,
                class,
                class.objects.len() as int,
            );
            assert(start.draws + (draws + own) =~= (start.draws + draws) + own);
        } else {
            assert(class_calls(view, class, bound) =~= Seq::<Call>::empty());
        }
    } else {
        assert(start.draws + Seq::<Draw>::empty() =~= start.draws);
    }
}

} // verus!
