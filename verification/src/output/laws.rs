//! What holds of every frame.
//!
//! The proofs here speak of the frame as [`frame`] defines it, which is what
//! [`Output::commands`](crate::output::Output::commands) returns and
//! [`Output::render`](crate::output::Output::render) hands to the pass.

use vstd::prelude::*;
use crate::output::command::{
    bind_commands, bound_after, class_commands, drawn, frame, frame_prefix, group_binds,
    object_commands, objects_commands, pipeline_binds, tally, DrawCommand, Ready,
};
use crate::output::object::{ClassView, ObjectShader, ObjectView};
use crate::output::variant::SlotView;
use crate::output::OutputView;

verus! {

/// Counting the picked commands of two sequences in a row is counting them
/// in each and adding up.
pub proof fn lemma_tally_concat(
    first: Seq<DrawCommand>,
    second: Seq<DrawCommand>,
    wanted: spec_fn(DrawCommand) -> bool,
)
    ensures
        tally(first + second, wanted) == tally(first, wanted) + tally(second, wanted),
    decreases second.len(),
{
    if second.len() == 0 {
        assert(first + second =~= first);
    } else {
        assert((first + second).drop_last() =~= first + second.drop_last());
        lemma_tally_concat(first, second.drop_last(), wanted);
    }
}

/// A sequence of which the predicate picks no command counts zero.
pub proof fn lemma_tally_none(commands: Seq<DrawCommand>, wanted: spec_fn(DrawCommand) -> bool)
    requires
        forall|k: int| 0 <= k < commands.len() ==> !wanted(#[trigger] commands[k]),
    ensures
        tally(commands, wanted) == 0,
    decreases commands.len(),
{
    if commands.len() > 0 {
        lemma_tally_none(commands.drop_last(), wanted);
    }
}

/// A single command counts one if the predicate picks it, else zero.
pub proof fn lemma_tally_one(command: DrawCommand, wanted: spec_fn(DrawCommand) -> bool)
    ensures
        tally(seq![command], wanted) == (if wanted(command) {
            1nat
        } else {
            0nat
        }),
{
    let one = seq![command];
    assert(one.drop_last() =~= Seq::<DrawCommand>::empty());
    assert(tally(one.drop_last(), wanted) == 0);
    assert(one.last() == command);
}

/// The commands of a class's instances are index-buffer binds and draws,
/// nothing else.
pub proof fn lemma_objects_commands_kinds(class: int, view: ClassView, count: int)
    ensures
        forall|k: int|
            0 <= k < objects_commands(class, view, count).len() ==> {
                let command = #[trigger] objects_commands(class, view, count)[k];
                command is SetIndexBuffer || command is DrawIndexed
            },
    decreases count,
{
    if count > 0 {
        lemma_objects_commands_kinds(class, view, count - 1);
    }
}

/// A class binds its variant once if it is drawn and the variant is not the
/// bound one, and never otherwise.
pub proof fn lemma_class_binds(
    class: int,
    view: ClassView,
    ready: Ready,
    bound: Option<ObjectShader>,
)
    ensures
        pipeline_binds(class_commands(class, view, ready, bound)) == (if drawn(view, ready)
            && bound != Some(view.shader) {
            1nat
        } else {
            0nat
        }),
        group_binds(class_commands(class, view, ready, bound)) == pipeline_binds(
            class_commands(class, view, ready, bound),
        ),
{
    let pipelines = |command: DrawCommand| command is SetPipeline;
    let groups = |command: DrawCommand| command is SetBindGroup;
    if drawn(view, ready) {
        let binds = if bound == Some(view.shader) {
            Seq::<DrawCommand>::empty()
        } else {
            bind_commands(view.shader, ready)
        };
        let vertex = seq![DrawCommand::SetVertexBuffer { class: class as usize }];
        let objects = objects_commands(class, view, view.objects.len() as int);
        lemma_objects_commands_kinds(class, view, view.objects.len() as int);
        lemma_tally_none(objects, pipelines);
        lemma_tally_none(objects, groups);
        lemma_tally_none(vertex, pipelines);
        lemma_tally_none(vertex, groups);
        lemma_tally_concat(binds, vertex, pipelines);
        lemma_tally_concat(binds, vertex, groups);
        lemma_tally_concat(binds + vertex, objects, pipelines);
        lemma_tally_concat(binds + vertex, objects, groups);
        if bound != Some(view.shader) {
            let pipeline = seq![DrawCommand::SetPipeline { shader: view.shader }];
            let group = seq![
                DrawCommand::SetBindGroup { shader: view.shader, bound: ready[view.shader] },
            ];
            assert(binds =~= pipeline + group);
            lemma_tally_one(pipeline[0], pipelines);
            lemma_tally_one(pipeline[0], groups);
            lemma_tally_one(group[0], pipelines);
            lemma_tally_one(group[0], groups);
            lemma_tally_concat(pipeline, group, pipelines);
            lemma_tally_concat(pipeline, group, groups);
        }
    }
}

/// The commands of the classes from position `from` up to, but without,
/// position `to`, as they stand in the frame.
pub open spec fn frame_range(classes: Seq<ClassView>, ready: Ready, from: int, to: int) -> Seq<
    DrawCommand,
>
    decreases to - from,
{
    if to <= from {
        Seq::empty()
    } else {
        frame_range(classes, ready, from, to - 1) + class_commands(
            to - 1,
            classes[to - 1],
            ready,
            bound_after(classes, ready, to - 1),
        )
    }
}

/// The frame up to a class is the frame up to an earlier class, then the
/// commands of the classes between.
pub proof fn lemma_frame_split(classes: Seq<ClassView>, ready: Ready, from: int, to: int)
    requires
        0 <= from <= to,
    ensures
        frame_prefix(classes, ready, to) == frame_prefix(classes, ready, from) + frame_range(
            classes,
            ready,
            from,
            to,
        ),
    decreases to - from,
{
    if to <= from {
        assert(frame_prefix(classes, ready, from) + Seq::<DrawCommand>::empty() =~= frame_prefix(
            classes,
            ready,
            from,
        ));
    } else {
        lemma_frame_split(classes, ready, from, to - 1);
        let last = class_commands(
            to - 1,
            classes[to - 1],
            ready,
            bound_after(classes, ready, to - 1),
        );
        assert(frame_prefix(classes, ready, from) + (frame_range(classes, ready, from, to - 1)
            + last) =~= (frame_prefix(classes, ready, from) + frame_range(
            classes,
            ready,
            from,
            to - 1,
        )) + last);
    }
}

/// A run of drawn classes that share a shader kind binds the kind's variant
/// once for the whole run, at its start, and not once for each class; and it
/// does not bind it at all if the class drawn before the run left the same
/// variant bound. The bind group goes with the pipeline.
pub proof fn law_run_binds_once(classes: Seq<ClassView>, ready: Ready, from: int, to: int)
    requires
        0 <= from < to <= classes.len(),
        forall|class: int|
            from <= class < to ==> drawn(#[trigger] classes[class], ready) && classes[class].shader
                == classes[from].shader,
    ensures
        pipeline_binds(frame_range(classes, ready, from, to)) == (if bound_after(
            classes,
            ready,
            from,
        ) == Some(classes[from].shader) {
            0nat
        } else {
            1nat
        }),
        group_binds(frame_range(classes, ready, from, to)) == pipeline_binds(
            frame_range(classes, ready, from, to),
        ),
    decreases to - from,
{
    let bound = bound_after(classes, ready, to - 1);
    let last = class_commands(to - 1, classes[to - 1], ready, bound);
    lemma_class_binds(to - 1, classes[to - 1], ready, bound);
    lemma_tally_concat(
        frame_range(classes, ready, from, to - 1),
        last,
        |command: DrawCommand| command is SetPipeline,
    );
    lemma_tally_concat(
        frame_range(classes, ready, from, to - 1),
        last,
        |command: DrawCommand| command is SetBindGroup,
    );
    assert(drawn(classes[to - 1], ready));
    if to - 1 > from {
        law_run_binds_once(classes, ready, from, to - 1);
        assert(drawn(classes[to - 2], ready));
        assert(bound == Some(classes[from].shader));
    } else {
        assert(frame_range(classes, ready, from, from) =~= Seq::<DrawCommand>::empty());
    }
}

/// The shader kinds of those of the first `count` classes that are drawn, in
/// the order of the class list.
pub open spec fn drawn_shaders(classes: Seq<ClassView>, ready: Ready, count: int) -> Seq<
    ObjectShader,
>
    decreases count,
{
    if count <= 0 {
        Seq::empty()
    } else if drawn(classes[count - 1], ready) {
        drawn_shaders(classes, ready, count - 1).push(classes[count - 1].shader)
    } else {
        drawn_shaders(classes, ready, count - 1)
    }
}

/// The number of runs in a sequence of shader kinds: of stretches of equal
/// kinds that no equal kind stands next to.
pub open spec fn runs(shaders: Seq<ObjectShader>) -> nat
    decreases shaders.len(),
{
    if shaders.len() == 0 {
        0
    } else if shaders.len() == 1 {
        1
    } else {
        runs(shaders.drop_last()) + if shaders[shaders.len() - 1] != shaders[shaders.len() - 2] {
            1nat
        } else {
            0nat
        }
    }
}

/// The variant bound after some classes is that of the last drawn one.
pub proof fn lemma_bound_is_last_drawn(classes: Seq<ClassView>, ready: Ready, count: int)
    ensures
        bound_after(classes, ready, count) == (if drawn_shaders(classes, ready, count).len() > 0 {
            Some(drawn_shaders(classes, ready, count).last())
        } else {
            None
        }),
    decreases count,
{
    if count > 0 {
        lemma_bound_is_last_drawn(classes, ready, count - 1);
    }
}

/// A frame binds a pipeline as often as the shader kinds of the drawn classes
/// have runs, and a bind group as often as a pipeline: however many classes
/// there are, the variant changes only where the kind does.
pub proof fn law_binds_count_runs(classes: Seq<ClassView>, ready: Ready, count: int)
    requires
        0 <= count <= classes.len(),
    ensures
        pipeline_binds(frame_prefix(classes, ready, count)) == runs(
            drawn_shaders(classes, ready, count),
        ),
        group_binds(frame_prefix(classes, ready, count)) == runs(
            drawn_shaders(classes, ready, count),
        ),
    decreases count,
{
    if count > 0 {
        law_binds_count_runs(classes, ready, count - 1);
        lemma_bound_is_last_drawn(classes, ready, count - 1);
        let bound = bound_after(classes, ready, count - 1);
        let last = class_commands(count - 1, classes[count - 1], ready, bound);
        lemma_class_binds(count - 1, classes[count - 1], ready, bound);
        lemma_tally_concat(
            frame_prefix(classes, ready, count - 1),
            last,
            |command: DrawCommand| command is SetPipeline,
        );
        lemma_tally_concat(
            frame_prefix(classes, ready, count - 1),
            last,
            |command: DrawCommand| command is SetBindGroup,
        );
        if drawn(classes[count - 1], ready) {
            let before = drawn_shaders(classes, ready, count - 1);
            let shaders = drawn_shaders(classes, ready, count);
            assert(shaders.drop_last() =~= before);
            if before.len() > 0 {
                assert(shaders[shaders.len() - 2] == before.last());
            }
        }
    }
}

/// Where a command stands in the order of drawing: a vertex-buffer bind at
/// its class, before all the class's instances; an index-buffer bind at its
/// class and instance. The other commands name no place.
pub open spec fn place(command: DrawCommand) -> Option<(int, int)> {
    match command {
        DrawCommand::SetVertexBuffer { class } => Some((class as int, -1int)),
        DrawCommand::SetIndexBuffer { class, object } => Some((class as int, object as int)),
        _ => None,
    }
}

/// The first place is an earlier class than the second, or the same class
/// and an earlier instance.
pub open spec fn precedes(first: (int, int), second: (int, int)) -> bool {
    first.0 < second.0 || (first.0 == second.0 && first.1 < second.1)
}

/// Of any two commands that name a place, the one that comes first names the
/// earlier place.
pub open spec fn in_order(commands: Seq<DrawCommand>) -> bool {
    forall|a: int, b: int|
        #![trigger commands[a], commands[b]]
        0 <= a < b < commands.len() && place(commands[a]) is Some && place(commands[b]) is Some
            ==> precedes(place(commands[a])->0, place(commands[b])->0)
}

/// Every place the commands name is `low` or later, and earlier than `high`.
pub open spec fn within(commands: Seq<DrawCommand>, low: (int, int), high: (int, int)) -> bool {
    forall|k: int|
        0 <= k < commands.len() && place(#[trigger] commands[k]) is Some ==> !precedes(
            place(commands[k])->0,
            low,
        ) && precedes(place(commands[k])->0, high)
}

/// Commands in order before a place, followed by commands in order from that
/// place on, are in order.
pub proof fn lemma_in_order_concat(
    first: Seq<DrawCommand>,
    second: Seq<DrawCommand>,
    low: (int, int),
    middle: (int, int),
    high: (int, int),
)
    requires
        in_order(first),
        in_order(second),
        within(first, low, middle),
        within(second, middle, high),
        !precedes(middle, low),
        !precedes(high, middle),
    ensures
        in_order(first + second),
        within(first + second, low, high),
{
    let both = first + second;
    assert forall|k: int| 0 <= k < both.len() && place(#[trigger] both[k]) is Some implies !precedes(
        place(both[k])->0,
        low,
    ) && precedes(place(both[k])->0, high) by {
        if k < first.len() {
            assert(both[k] == first[k]);
        } else {
            assert(both[k] == second[k - first.len()]);
        }
    }
    assert forall|a: int, b: int|
        #![trigger both[a], both[b]]
        0 <= a < b < both.len() && place(both[a]) is Some && place(both[b]) is Some implies precedes(
        place(both[a])->0,
        place(both[b])->0,
    ) by {
        if b < first.len() {
            assert(both[a] == first[a] && both[b] == first[b]);
        } else if a < first.len() {
            assert(both[a] == first[a]);
            assert(both[b] == second[b - first.len()]);
        } else {
            assert(both[a] == second[a - first.len()]);
            assert(both[b] == second[b - first.len()]);
        }
    }
}

/// The commands of a class's first `count` instances name the instances in
/// the order they were added.
pub proof fn lemma_objects_in_order(class: int, view: ClassView, count: int)
    requires
        0 <= class <= usize::MAX,
        0 <= count <= view.objects.len() <= usize::MAX,
    ensures
        in_order(objects_commands(class, view, count)),
        within(objects_commands(class, view, count), (class, 0), (class, count)),
    decreases count,
{
    if count > 0 {
        lemma_objects_in_order(class, view, count - 1);
        lemma_in_order_concat(
            objects_commands(class, view, count - 1),
            object_commands(class, view, count - 1),
            (class, 0),
            (class, count - 1),
            (class, count),
        );
    }
}

/// The commands of a class name the class's vertex buffer, then its
/// instances in the order they were added, and no other class.
pub proof fn lemma_class_in_order(
    class: int,
    view: ClassView,
    ready: Ready,
    bound: Option<ObjectShader>,
)
    requires
        0 <= class <= usize::MAX,
        view.objects.len() <= usize::MAX,
    ensures
        in_order(class_commands(class, view, ready, bound)),
        within(class_commands(class, view, ready, bound), (class, -1), (class + 1, -1)),
{
    if drawn(view, ready) {
        let binds = if bound == Some(view.shader) {
            Seq::<DrawCommand>::empty()
        } else {
            bind_commands(view.shader, ready)
        };
        let vertex = seq![DrawCommand::SetVertexBuffer { class: class as usize }];
        let count = view.objects.len() as int;
        lemma_objects_in_order(class, view, count);
        lemma_in_order_concat(binds, vertex, (class, -1), (class, -1), (class, 0));
        lemma_in_order_concat(
            binds + vertex,
            objects_commands(class, view, count),
            (class, -1),
            (class, 0),
            (class, count),
        );
    }
}

/// The commands of the first `count` classes name the classes in the order
/// they were added.
pub proof fn lemma_frame_in_order(classes: Seq<ClassView>, ready: Ready, count: int)
    requires
        0 <= count <= classes.len() <= usize::MAX,
        forall|i: int| 0 <= i < classes.len() ==> (#[trigger] classes[i]).wf(),
    ensures
        in_order(frame_prefix(classes, ready, count)),
        within(frame_prefix(classes, ready, count), (0, -1), (count, -1)),
    decreases count,
{
    if count > 0 {
        lemma_frame_in_order(classes, ready, count - 1);
        assert(classes[count - 1].wf());
        lemma_class_in_order(
            count - 1,
            classes[count - 1],
            ready,
            bound_after(classes, ready, count - 1),
        );
        lemma_in_order_concat(
            frame_prefix(classes, ready, count - 1),
            class_commands(
                count - 1,
                classes[count - 1],
                ready,
                bound_after(classes, ready, count - 1),
            ),
            (0, -1),
            (count - 1, -1),
            (count, -1),
        );
    }
}

/// A frame takes the classes in the order they were added and, within a
/// class, the instances in the order they were added: of two buffer binds in
/// a frame, the earlier one is for the class added earlier, or for the same
/// class and then for its vertex buffer or for the instance added earlier.
/// So no class and no instance is bound twice either.
pub proof fn law_frame_in_order(classes: Seq<ClassView>, ready: Ready)
    requires
        classes.len() <= usize::MAX,
        forall|i: int| 0 <= i < classes.len() ==> (#[trigger] classes[i]).wf(),
    ensures
        in_order(frame(classes, ready)),
{
    lemma_frame_in_order(classes, ready, classes.len() as int);
}

/// What must hold at position `k` of a sequence of commands for the pass to
/// be in a sound state there: a pipeline bind names a ready variant and is
/// followed by the bind of that variant's group, or of no group if it has
/// none; a buffer bind names a class that is drawn; an index-buffer bind
/// names an instance that has indices and is followed by the draw of exactly
/// those; and a bind-group bind or a draw stands nowhere else.
pub open spec fn sound_at(
    classes: Seq<ClassView>,
    ready: Ready,
    commands: Seq<DrawCommand>,
    k: int,
) -> bool {
    match commands[k] {
        DrawCommand::SetPipeline { shader } => {
            &&& ready.dom().contains(shader)
            &&& k + 1 < commands.len()
            &&& commands[k + 1] == DrawCommand::SetBindGroup { shader, bound: ready[shader] }
        },
        DrawCommand::SetBindGroup { .. } => k > 0 && commands[k - 1] is SetPipeline,
        DrawCommand::SetVertexBuffer { class } => {
            &&& class < classes.len()
            &&& drawn(classes[class as int], ready)
        },
        DrawCommand::SetIndexBuffer { class, object } => {
            &&& class < classes.len()
            &&& drawn(classes[class as int], ready)
            &&& object < classes[class as int].objects.len()
            &&& classes[class as int].objects[object as int].index_count > 0
            &&& k + 1 < commands.len()
            &&& commands[k + 1] == DrawCommand::DrawIndexed {
                index_count: classes[class as int].objects[object as int].index_count,
            }
        },
        DrawCommand::DrawIndexed { .. } => k > 0 && commands[k - 1] is SetIndexBuffer,
    }
}

/// The pass is in a sound state at every position of a sequence of commands.
pub open spec fn sound(classes: Seq<ClassView>, ready: Ready, commands: Seq<DrawCommand>) -> bool {
    forall|k: int| 0 <= k < commands.len() ==> sound_at(classes, ready, commands, k)
}

/// Two sound sequences in a row are sound.
pub proof fn lemma_sound_concat(
    classes: Seq<ClassView>,
    ready: Ready,
    first: Seq<DrawCommand>,
    second: Seq<DrawCommand>,
)
    requires
        sound(classes, ready, first),
        sound(classes, ready, second),
    ensures
        sound(classes, ready, first + second),
{
    let both = first + second;
    assert forall|k: int| 0 <= k < both.len() implies sound_at(classes, ready, both, k) by {
        if k < first.len() {
            assert(sound_at(classes, ready, first, k));
            assert(both[k] == first[k]);
            if k + 1 < first.len() {
                assert(both[k + 1] == first[k + 1]);
            }
            if k > 0 {
                assert(both[k - 1] == first[k - 1]);
            }
        } else {
            let j = k - first.len();
            assert(sound_at(classes, ready, second, j));
            assert(both[k] == second[j]);
            if j + 1 < second.len() {
                assert(both[k + 1] == second[j + 1]);
            }
            if j > 0 {
                assert(both[k - 1] == second[j - 1]);
            }
        }
    }
}

/// The commands of the first `count` instances of a drawn class are sound.
pub proof fn lemma_objects_sound(classes: Seq<ClassView>, ready: Ready, class: int, count: int)
    requires
        0 <= class < classes.len() <= usize::MAX,
        0 <= count <= classes[class].objects.len() <= usize::MAX,
        drawn(classes[class], ready),
    ensures
        sound(classes, ready, objects_commands(class, classes[class], count)),
    decreases count,
{
    if count > 0 {
        lemma_objects_sound(classes, ready, class, count - 1);
        let last = object_commands(class, classes[class], count - 1);
        assert forall|k: int| 0 <= k < last.len() implies sound_at(classes, ready, last, k) by {
            assert(last[0] is SetIndexBuffer);
            assert(last[1] is DrawIndexed);
        }
        lemma_sound_concat(
            classes,
            ready,
            objects_commands(class, classes[class], count - 1),
            last,
        );
    }
}

/// A frame keeps the pass in a sound state from its first command to its
/// last, and names only classes that are drawn: a class whose variant is not
/// ready, or that has no index, gets no command, and the others get theirs
/// as if it were not there.
pub proof fn law_frame_sound(classes: Seq<ClassView>, ready: Ready, count: int)
    requires
        0 <= count <= classes.len() <= usize::MAX,
        forall|i: int| 0 <= i < classes.len() ==> (#[trigger] classes[i]).wf(),
    ensures
        sound(classes, ready, frame_prefix(classes, ready, count)),
    decreases count,
{
    if count > 0 {
        law_frame_sound(classes, ready, count - 1);
        let class = classes[count - 1];
        let bound = bound_after(classes, ready, count - 1);
        assert(class.wf());
        if drawn(class, ready) {
            let binds = if bound == Some(class.shader) {
                Seq::<DrawCommand>::empty()
            } else {
                bind_commands(class.shader, ready)
            };
            let vertex = seq![DrawCommand::SetVertexBuffer { class: (count - 1) as usize }];
            assert forall|k: int| 0 <= k < binds.len() implies sound_at(
                classes,
                ready,
                binds,
                k,
            ) by {
                assert(binds[0] is SetPipeline);
                assert(binds[1] is SetBindGroup);
            }
            assert(sound_at(classes, ready, vertex, 0));
            lemma_objects_sound(classes, ready, count - 1, class.objects.len() as int);
            lemma_sound_concat(classes, ready, binds, vertex);
            lemma_sound_concat(
                classes,
                ready,
                binds + vertex,
                objects_commands(count - 1, class, class.objects.len() as int),
            );
        }
        lemma_sound_concat(
            classes,
            ready,
            frame_prefix(classes, ready, count - 1),
            class_commands(count - 1, class, ready, bound),
        );
    }
}

/// Whether a sequence of commands holds a command.
pub open spec fn holds(commands: Seq<DrawCommand>, command: DrawCommand) -> bool {
    exists|k: int| 0 <= k < commands.len() && #[trigger] commands[k] == command
}

/// What one of two sequences holds, the two in a row hold.
pub proof fn lemma_holds_concat(
    first: Seq<DrawCommand>,
    second: Seq<DrawCommand>,
    command: DrawCommand,
)
    requires
        holds(first, command) || holds(second, command),
    ensures
        holds(first + second, command),
{
    let both = first + second;
    if holds(first, command) {
        let k = choose|k: int| 0 <= k < first.len() && #[trigger] first[k] == command;
        assert(both[k] == command);
    } else {
        let k = choose|k: int| 0 <= k < second.len() && #[trigger] second[k] == command;
        assert(both[k + first.len()] == command);
    }
}

/// The commands of a class's first `count` instances bind the index buffer
/// of each of them that has indices.
pub proof fn lemma_objects_hold(class: int, view: ClassView, count: int, object: int)
    requires
        0 <= object < count <= view.objects.len(),
        view.objects[object].index_count > 0,
    ensures
        holds(
            objects_commands(class, view, count),
            DrawCommand::SetIndexBuffer { class: class as usize, object: object as usize },
        ),
    decreases count,
{
    let command = DrawCommand::SetIndexBuffer { class: class as usize, object: object as usize };
    if object < count - 1 {
        lemma_objects_hold(class, view, count - 1, object);
    } else {
        assert(object_commands(class, view, count - 1)[0] == command);
    }
    lemma_holds_concat(
        objects_commands(class, view, count - 1),
        object_commands(class, view, count - 1),
        command,
    );
}

/// The commands of a drawn class bind its vertex buffer and the index buffer
/// of each of its instances that has indices.
pub proof fn lemma_class_holds(
    class: int,
    view: ClassView,
    ready: Ready,
    bound: Option<ObjectShader>,
)
    requires
        drawn(view, ready),
    ensures
        holds(
            class_commands(class, view, ready, bound),
            DrawCommand::SetVertexBuffer { class: class as usize },
        ),
        forall|object: int|
            0 <= object < view.objects.len() && (#[trigger] view.objects[object]).index_count > 0
                ==> holds(
                class_commands(class, view, ready, bound),
                DrawCommand::SetIndexBuffer { class: class as usize, object: object as usize },
            ),
{
    let binds = if bound == Some(view.shader) {
        Seq::<DrawCommand>::empty()
    } else {
        bind_commands(view.shader, ready)
    };
    let vertex = seq![DrawCommand::SetVertexBuffer { class: class as usize }];
    let objects = objects_commands(class, view, view.objects.len() as int);
    assert(vertex[0] == DrawCommand::SetVertexBuffer { class: class as usize });
    lemma_holds_concat(binds, vertex, vertex[0]);
    lemma_holds_concat(binds + vertex, objects, vertex[0]);
    assert forall|object: int|
        0 <= object < view.objects.len() && (#[trigger] view.objects[object]).index_count
            > 0 implies holds(
        class_commands(class, view, ready, bound),
        DrawCommand::SetIndexBuffer { class: class as usize, object: object as usize },
    ) by {
        lemma_objects_hold(class, view, view.objects.len() as int, object);
        lemma_holds_concat(
            binds + vertex,
            objects,
            DrawCommand::SetIndexBuffer { class: class as usize, object: object as usize },
        );
    }
}

/// A frame leaves out nothing it can draw: it binds the vertex buffer of
/// every drawn class and the index buffer of every instance of such a class
/// that has indices. With [`law_frame_sound`] each of those index-buffer
/// binds is followed by the draw of all the instance's indices, and with
/// [`law_frame_in_order`] there is one bind for each and no more.
pub proof fn law_frame_complete(classes: Seq<ClassView>, ready: Ready, count: int, class: int)
    requires
        0 <= class < count <= classes.len(),
        drawn(classes[class], ready),
    ensures
        holds(
            frame_prefix(classes, ready, count),
            DrawCommand::SetVertexBuffer { class: class as usize },
        ),
        forall|object: int|
            0 <= object < classes[class].objects.len() && (
            #[trigger] classes[class].objects[object]).index_count > 0 ==> holds(
                frame_prefix(classes, ready, count),
                DrawCommand::SetIndexBuffer { class: class as usize, object: object as usize },
            ),
    decreases count,
{
    let before = frame_prefix(classes, ready, count - 1);
    let last = class_commands(
        count - 1,
        classes[count - 1],
        ready,
        bound_after(classes, ready, count - 1),
    );
    if class < count - 1 {
        law_frame_complete(classes, ready, count - 1, class);
    } else {
        lemma_class_holds(class, classes[class], ready, bound_after(classes, ready, count - 1));
    }
    lemma_holds_concat(before, last, DrawCommand::SetVertexBuffer { class: class as usize });
    assert forall|object: int|
        0 <= object < classes[class].objects.len() && (
        #[trigger] classes[class].objects[object]).index_count > 0 implies holds(
        frame_prefix(classes, ready, count),
        DrawCommand::SetIndexBuffer { class: class as usize, object: object as usize },
    ) by {
        lemma_holds_concat(
            before,
            last,
            DrawCommand::SetIndexBuffer { class: class as usize, object: object as usize },
        );
    }
}

/// The latest thing of a sort that a sequence of commands names, if it names
/// one: `pick` says what a command names.
pub open spec fn latest<T>(
    commands: Seq<DrawCommand>,
    pick: spec_fn(DrawCommand) -> Option<T>,
) -> Option<T>
    decreases commands.len(),
{
    if commands.len() == 0 {
        None
    } else if pick(commands.last()) is Some {
        pick(commands.last())
    } else {
        latest(commands.drop_last(), pick)
    }
}

/// The kind whose pipeline a pass has bound after a sequence of commands.
pub open spec fn bound_pipeline(commands: Seq<DrawCommand>) -> Option<ObjectShader> {
    latest(
        commands,
        |command: DrawCommand|
            match command {
                DrawCommand::SetPipeline { shader } => Some(shader),
                _ => None,
            },
    )
}

/// The class whose vertex buffer a pass has bound after a sequence of
/// commands.
pub open spec fn bound_vertex_buffer(commands: Seq<DrawCommand>) -> Option<usize> {
    latest(
        commands,
        |command: DrawCommand|
            match command {
                DrawCommand::SetVertexBuffer { class } => Some(class),
                _ => None,
            },
    )
}

/// The latest thing two sequences in a row name is the latest the second
/// names, or else the latest the first names.
pub proof fn lemma_latest_concat<T>(
    first: Seq<DrawCommand>,
    second: Seq<DrawCommand>,
    pick: spec_fn(DrawCommand) -> Option<T>,
)
    ensures
        latest(first + second, pick) == (if latest(second, pick) is Some {
            latest(second, pick)
        } else {
            latest(first, pick)
        }),
    decreases second.len(),
{
    if second.len() == 0 {
        assert(first + second =~= first);
    } else {
        assert((first + second).drop_last() =~= first + second.drop_last());
        assert((first + second).last() == second.last());
        lemma_latest_concat(first, second.drop_last(), pick);
    }
}

/// A sequence whose commands name nothing of the sort has no latest.
pub proof fn lemma_latest_none<T>(
    commands: Seq<DrawCommand>,
    pick: spec_fn(DrawCommand) -> Option<T>,
)
    requires
        forall|k: int| 0 <= k < commands.len() ==> pick(#[trigger] commands[k]) is None,
    ensures
        latest(commands, pick) is None,
    decreases commands.len(),
{
    if commands.len() > 0 {
        lemma_latest_none(commands.drop_last(), pick);
    }
}

/// What a pass has bound at a position inside the commands of a drawn class:
/// from the class's vertex-buffer bind on, the pipeline of the class's kind,
/// and behind that bind, the class's vertex buffer.
pub proof fn lemma_class_state(
    class: int,
    view: ClassView,
    ready: Ready,
    bound: Option<ObjectShader>,
    before: Seq<DrawCommand>,
    k: int,
)
    requires
        0 <= class <= usize::MAX,
        view.objects.len() <= usize::MAX,
        drawn(view, ready),
        bound_pipeline(before) == bound,
        0 <= k <= class_commands(class, view, ready, bound).len(),
    ensures
        k == class_commands(class, view, ready, bound).len() || place(
            class_commands(class, view, ready, bound)[k],
        ) is Some ==> bound_pipeline(before + class_commands(class, view, ready, bound).take(k))
            == Some(view.shader),
        k < class_commands(class, view, ready, bound).len() && class_commands(
            class,
            view,
            ready,
            bound,
        )[k] is SetIndexBuffer ==> bound_vertex_buffer(
            before + class_commands(class, view, ready, bound).take(k),
        ) == Some(class as usize),
{
    let commands = class_commands(class, view, ready, bound);
    let pipelines = |command: DrawCommand|
        match command {
            DrawCommand::SetPipeline { shader } => Some(shader),
            _ => None,
        };
    let buffers = |command: DrawCommand|
        match command {
            DrawCommand::SetVertexBuffer { class } => Some(class),
            _ => None,
        };
    let binds = if bound == Some(view.shader) {
        Seq::<DrawCommand>::empty()
    } else {
        bind_commands(view.shader, ready)
    };
    let vertex = seq![DrawCommand::SetVertexBuffer { class: class as usize }];
    let objects = objects_commands(class, view, view.objects.len() as int);
    lemma_objects_commands_kinds(class, view, view.objects.len() as int);
    let head = binds + vertex;
    assert(commands =~= head + objects);
    if k == commands.len() || place(commands[k]) is Some {
        // The position is behind the binds of the variant.
        assert(k >= binds.len()) by {
            if k < binds.len() {
                assert(commands[k] == binds[k]);
            }
        }
        let rest = commands.take(k).skip(binds.len() as int);
        assert(commands.take(k) =~= binds + rest);
        assert forall|j: int| 0 <= j < rest.len() implies pipelines(#[trigger] rest[j]) is None by {
            let at = j + binds.len();
            assert(rest[j] == commands[at]);
            if at < head.len() {
                assert(commands[at] == vertex[0]);
            } else {
                assert(commands[at] == objects[at - head.len()]);
            }
        }
        lemma_latest_none(rest, pipelines);
        lemma_latest_concat(binds, rest, pipelines);
        lemma_latest_concat(before, binds + rest, pipelines);
        if bound != Some(view.shader) {
            assert(binds.drop_last().drop_last() =~= Seq::<DrawCommand>::empty());
            assert(binds.drop_last().last() == DrawCommand::SetPipeline { shader: view.shader });
            assert(latest(binds.drop_last(), pipelines) == Some(view.shader));
            assert(latest(binds, pipelines) == Some(view.shader));
        } else {
            lemma_latest_none(binds, pipelines);
        }
    }
    if k < commands.len() && commands[k] is SetIndexBuffer {
        assert(k >= head.len()) by {
            if k < binds.len() {
                assert(commands[k] == binds[k]);
            } else if k < head.len() {
                assert(commands[k] == vertex[0]);
            }
        }
        let rest = commands.take(k).skip(head.len() as int);
        assert(commands.take(k) =~= head + rest);
        assert forall|j: int| 0 <= j < rest.len() implies buffers(#[trigger] rest[j]) is None by {
            assert(rest[j] == objects[j]);
        }
        lemma_latest_none(rest, buffers);
        lemma_latest_concat(head, rest, buffers);
        lemma_latest_concat(before, head + rest, buffers);
        assert(head.last() == vertex[0]);
        assert(latest(head, buffers) == Some(class as usize));
    }
}

/// The variant that is bound behind the first `count` classes of a frame is
/// that of the last drawn class among them.
pub proof fn lemma_frame_bound(classes: Seq<ClassView>, ready: Ready, count: int)
    requires
        0 <= count <= classes.len() <= usize::MAX,
        forall|i: int| 0 <= i < classes.len() ==> (#[trigger] classes[i]).wf(),
    ensures
        bound_pipeline(frame_prefix(classes, ready, count)) == bound_after(classes, ready, count),
    decreases count,
{
    if count > 0 {
        lemma_frame_bound(classes, ready, count - 1);
        let class = classes[count - 1];
        assert(class.wf());
        let bound = bound_after(classes, ready, count - 1);
        let commands = class_commands(count - 1, class, ready, bound);
        if drawn(class, ready) {
            lemma_class_state(
                count - 1,
                class,
                ready,
                bound,
                frame_prefix(classes, ready, count - 1),
                commands.len() as int,
            );
            assert(commands.take(commands.len() as int) =~= commands);
        } else {
            assert(frame_prefix(classes, ready, count - 1) + commands =~= frame_prefix(
                classes,
                ready,
                count - 1,
            ));
        }
    }
}

/// Every buffer a frame binds is bound in the right state: when a class's
/// vertex buffer or an instance's index buffer is bound, the pipeline the
/// pass has bound is that of the class's own shader kind, and when an
/// instance's index buffer is bound, the vertex buffer the pass has bound is
/// that of the instance's own class. Leaving a bind out where the variant
/// does not change never lets a class be drawn with another class's variant.
pub proof fn law_frame_state(classes: Seq<ClassView>, ready: Ready, count: int, k: int)
    requires
        0 <= count <= classes.len() <= usize::MAX,
        forall|i: int| 0 <= i < classes.len() ==> (#[trigger] classes[i]).wf(),
        0 <= k < frame_prefix(classes, ready, count).len(),
    ensures
        match frame_prefix(classes, ready, count)[k] {
            DrawCommand::SetVertexBuffer { class } => class < count && bound_pipeline(
                frame_prefix(classes, ready, count).take(k),
            ) == Some(classes[class as int].shader),
            DrawCommand::SetIndexBuffer { class, .. } => {
                &&& class < count
                &&& bound_pipeline(frame_prefix(classes, ready, count).take(k)) == Some(
                    classes[class as int].shader,
                )
                &&& bound_vertex_buffer(frame_prefix(classes, ready, count).take(k)) == Some(
                    class,
                )
            },
            _ => true,
        },
    decreases count,
{
    let before = frame_prefix(classes, ready, count - 1);
    let class = classes[count - 1];
    let bound = bound_after(classes, ready, count - 1);
    let commands = class_commands(count - 1, class, ready, bound);
    let all = frame_prefix(classes, ready, count);
    assert(class.wf());
    if k < before.len() {
        law_frame_state(classes, ready, count - 1, k);
        assert(all[k] == before[k]);
        assert(all.take(k) =~= before.take(k));
    } else {
        let j = k - before.len();
        assert(all[k] == commands[j]);
        assert(all.take(k) =~= before + commands.take(j));
        lemma_frame_bound(classes, ready, count - 1);
        lemma_class_in_order(count - 1, class, ready, bound);
        lemma_class_state(count - 1, class, ready, bound, before, j);
    }
}

/// Building a variant is idempotent: once the outcome of building the variant
/// of a kind is recorded, recording another for the same kind changes
/// nothing, and the slot keeps what it got first.
pub proof fn law_install_idempotent(
    view: OutputView,
    kind: ObjectShader,
    first: SlotView,
    second: SlotView,
)
    requires
        !(first is Missing),
    ensures
        view.installed(kind, first).installed(kind, second) == view.installed(kind, first),
        view.slots[kind] is Missing ==> view.installed(kind, first).slots[kind] == first,
        !(view.slots[kind] is Missing) ==> view.installed(kind, first) == view,
{
}

/// What a frame does with its first `count` classes does not depend on the
/// classes behind them.
pub proof fn lemma_frame_local(
    classes: Seq<ClassView>,
    longer: Seq<ClassView>,
    ready: Ready,
    count: int,
)
    requires
        0 <= count <= classes.len() <= longer.len(),
        forall|i: int| 0 <= i < classes.len() ==> #[trigger] longer[i] == classes[i],
    ensures
        frame_prefix(longer, ready, count) == frame_prefix(classes, ready, count),
        bound_after(longer, ready, count) == bound_after(classes, ready, count),
    decreases count,
{
    if count > 0 {
        lemma_frame_local(classes, longer, ready, count - 1);
        assert(longer[count - 1] == classes[count - 1]);
        lemma_bound_local(classes, longer, ready, count);
    }
}

/// Which variant is bound behind the first `count` classes does not depend
/// on the classes behind them.
pub proof fn lemma_bound_local(
    classes: Seq<ClassView>,
    longer: Seq<ClassView>,
    ready: Ready,
    count: int,
)
    requires
        0 <= count <= classes.len() <= longer.len(),
        forall|i: int| 0 <= i < classes.len() ==> #[trigger] longer[i] == classes[i],
    ensures
        bound_after(longer, ready, count) == bound_after(classes, ready, count),
    decreases count,
{
    if count > 0 {
        lemma_bound_local(classes, longer, ready, count - 1);
        assert(longer[count - 1] == classes[count - 1]);
    }
}

/// A class that is added is drawn last: the frame of the registry with the
/// new class is the frame without it, unchanged, followed by the commands of
/// the new class.
pub proof fn law_added_class_draws_last(view: OutputView, class: ClassView)
    ensures
        view.with_class(class).classes.len() == view.classes.len() + 1,
        forall|i: int|
            0 <= i < view.classes.len() ==> #[trigger] view.with_class(class).classes[i]
                == view.classes[i],
        view.with_class(class).classes.last() == (ClassView { id: view.next_class, ..class }),
        view.with_class(class).frame() == view.frame() + class_commands(
            view.classes.len() as int,
            ClassView { id: view.next_class, ..class },
            view.ready(),
            bound_after(view.classes, view.ready(), view.classes.len() as int),
        ),
{
    let after = view.with_class(class);
    assert(after.ready() =~= view.ready());
    lemma_frame_local(view.classes, after.classes, view.ready(), view.classes.len() as int);
}

/// An instance that is added is the last of its class, and the instances
/// and classes that were there keep their places.
pub proof fn law_added_instance_is_last(view: OutputView, class: u64, object: ObjectView)
    requires
        view.wf(),
        !view.lacks(class),
    ensures
        ({
            let position = view.index_of(class);
            let before = view.classes[position];
            let after = view.with_instance(class, object).classes[position];
            &&& view.with_instance(class, object).classes.len() == view.classes.len()
            &&& forall|i: int|
                0 <= i < view.classes.len() && i != position ==> #[trigger] view.with_instance(
                    class,
                    object,
                ).classes[i] == view.classes[i]
            &&& after.objects.len() == before.objects.len() + 1
            &&& forall|i: int|
                0 <= i < before.objects.len() ==> #[trigger] after.objects[i] == before.objects[i]
            &&& after.objects.last() == (ObjectView { id: before.next_object, ..object })
        }),
{
}

/// All of the above for the frame of a well-formed registry: the frame takes
/// the classes and their instances in the order they were added, keeps the
/// pass in a sound state, binds every buffer under the pipeline of its own
/// class, and binds a pipeline, with its bind group, once for each run of
/// equal kinds among the classes it draws.
pub proof fn law_registry_frame(view: OutputView)
    requires
        view.wf(),
    ensures
        in_order(view.frame()),
        sound(view.classes, view.ready(), view.frame()),
        forall|k: int|
            0 <= k < view.frame().len() ==> match #[trigger] view.frame()[k] {
                DrawCommand::SetVertexBuffer { class } => bound_pipeline(view.frame().take(k))
                    == Some(view.classes[class as int].shader),
                DrawCommand::SetIndexBuffer { class, .. } => bound_pipeline(
                    view.frame().take(k),
                ) == Some(view.classes[class as int].shader) && bound_vertex_buffer(
                    view.frame().take(k),
                ) == Some(class),
                _ => true,
            },
        pipeline_binds(view.frame()) == runs(
            drawn_shaders(view.classes, view.ready(), view.classes.len() as int),
        ),
        group_binds(view.frame()) == pipeline_binds(view.frame()),
{
    let count = view.classes.len() as int;
    law_frame_in_order(view.classes, view.ready());
    law_frame_sound(view.classes, view.ready(), count);
    law_binds_count_runs(view.classes, view.ready(), count);
    assert forall|k: int| 0 <= k < view.frame().len() implies match #[trigger] view.frame()[k] {
        DrawCommand::SetVertexBuffer { class } => bound_pipeline(view.frame().take(k)) == Some(
            view.classes[class as int].shader,
        ),
        DrawCommand::SetIndexBuffer { class, .. } => bound_pipeline(view.frame().take(k)) == Some(
            view.classes[class as int].shader,
        ) && bound_vertex_buffer(view.frame().take(k)) == Some(class),
        _ => true,
    } by {
        law_frame_state(view.classes, view.ready(), count, k);
    }
}

} // verus!
