//! The state that a frame-build pass threads through the quad pipeline: the
//! GPU buffer, the render-task graph, the render-task cache, the tasks the
//! current surface depends on, and the draw commands.

use crate::clip::SpatialNodeIndex;
use crate::flags::{EdgeMask, QuadFlags};
use crate::geometry::{DeviceIntSize, DevicePoint};
use crate::gpu_types::{GpuBlock, GpuBufferAddress, GpuBufferBuilderF, GpuTransformId, QuadSegment};
use crate::pattern::{PatternKind, PatternShaderInput, RenderTaskId};
use crate::strategy::QuadCacheKey;
use vstd::prelude::*;

verus! {

/// Which space a rectangle clip mask is drawn in.
#[derive(Clone, Copy, Debug, PartialEq, Eq, Structural)]
pub enum ClipSpace {
    /// The quad covers the render task in device space.
    Device,
    /// The quad is the primitive's coverage in its own space.
    Primitive,
}

/// A mask drawn from a rectangle or rounded rectangle clip.
#[derive(Clone, Copy, Debug, PartialEq, Eq, Structural)]
pub struct RectangleClipSubTask {
    pub quad_address: GpuBufferAddress,
    pub quad_transform_id: GpuTransformId,
    pub clip_address: GpuBufferAddress,
    pub clip_transform_id: GpuTransformId,
    pub quad_flags: QuadFlags,
    pub clip_space: ClipSpace,
    pub needs_scissor_rect: bool,
    pub rounded_rect_fast_path: bool,
}

/// A mask drawn from one source tile of an image clip.
#[derive(Clone, Copy, Debug, PartialEq, Eq, Structural)]
pub struct ImageClipSubTask {
    pub quad_address: GpuBufferAddress,
    pub quad_transform_id: GpuTransformId,
    pub src_task: RenderTaskId,
    pub quad_flags: QuadFlags,
    pub needs_scissor_rect: bool,
}

/// A mask applied to the content of a render task.
#[derive(Clone, Copy, Debug, PartialEq, Eq, Structural)]
pub enum SubTask {
    RectangleClip(RectangleClipSubTask),
    ImageClip(ImageClipSubTask),
}

/// A run of sub-tasks of the graph.
#[derive(Clone, Copy, Debug, PartialEq, Eq, Structural)]
pub struct SubTaskRange {
    pub start: usize,
    pub end: usize,
}

/// What a render task draws: one quad with its pattern.
#[derive(Clone, Copy, Debug, PartialEq, Eq, Structural)]
pub struct PrimTask {
    pub pattern: PatternKind,
    pub pattern_input: PatternShaderInput,
    pub content_origin: DevicePoint,
    pub prim_address_f: GpuBufferAddress,
    pub transform_id: GpuTransformId,
    pub edge_flags: EdgeMask,
    pub quad_flags: QuadFlags,
    pub needs_scissor_rect: bool,
    pub texture_input: RenderTaskId,
}

/// A node of the render-task graph.
#[derive(Clone, Copy, Debug, PartialEq, Eq, Structural)]
pub struct RenderTask {
    pub size: DeviceIntSize,
    pub kind: PrimTask,
    pub sub_tasks: SubTaskRange,
}

/// An edge of the render-task graph: `task` reads what `input` draws.
#[derive(Clone, Copy, Debug, PartialEq, Eq, Structural)]
pub struct TaskDependency {
    pub task: RenderTaskId,
    pub input: RenderTaskId,
}

/// Identity of a cached render task: the quad's key and the task's size.
#[derive(Clone, Copy, Debug, PartialEq, Eq)]
pub struct RenderTaskCacheKey {
    pub size: DeviceIntSize,
    pub kind: QuadCacheKey,
}

impl RenderTaskCacheKey {
    /// The two keys name the same task.
    pub open spec fn spec_same(&self, other: &RenderTaskCacheKey) -> bool {
        &&& self.size == other.size
        &&& self.kind.prim == other.kind.prim
        &&& self.kind.clips@ == other.kind.clips@
        &&& self.kind.spatial_node == other.kind.spatial_node
    }

    #[verifier::when_used_as_spec(spec_same)]
    pub fn same(&self, other: &RenderTaskCacheKey) -> (r: bool)
        ensures
            r == self.spec_same(other),
    {
        let r = self.size.width == other.size.width && self.size.height == other.size.height
            && self.kind.prim == other.kind.prim && self.kind.clips[0] == other.kind.clips[0]
            && self.kind.clips[1] == other.kind.clips[1] && self.kind.clips[2]
            == other.kind.clips[2] && self.kind.spatial_node == other.kind.spatial_node;
        proof {
            if r {
                assert(self.kind.clips@ =~= other.kind.clips@);
            }
        }
        r
    }
}

/// An entry of the render-task cache.
#[derive(Clone, Copy, Debug, PartialEq, Eq)]
pub struct CachedTask {
    pub key: RenderTaskCacheKey,
    pub task_id: RenderTaskId,
    /// Whether the task's content covers its pixels fully.
    pub is_opaque: bool,
}

/// Index of a command buffer.
#[derive(Clone, Copy, Debug, PartialEq, Eq, Structural)]
pub struct CommandBufferIndex {
    pub index: u32,
}

/// Index of a primitive instance.
#[derive(Clone, Copy, Debug, PartialEq, Eq, Structural)]
pub struct PrimitiveInstanceIndex {
    pub index: u32,
}

/// The command that draws one quad instance.
#[derive(Clone, Copy, Debug, PartialEq, Eq, Structural)]
pub struct QuadCommand {
    pub pattern: PatternKind,
    pub pattern_input: PatternShaderInput,
    pub src_task_id: RenderTaskId,
    pub prim_instance_index: PrimitiveInstanceIndex,
    pub gpu_buffer_address: GpuBufferAddress,
    pub transform_id: GpuTransformId,
    pub quad_flags: QuadFlags,
    pub edge_flags: EdgeMask,
}

/// A command of a command buffer.
#[derive(Clone, Copy, Debug, PartialEq, Eq, Structural)]
pub enum PrimitiveCommand {
    /// Draw a quad.
    Quad(QuadCommand),
    /// The segments `start .. start + count` of the frame's segment list
    /// belong to the quad that follows.
    Segments { start: usize, count: usize },
}

/// A command together with the buffer it was pushed to. A primitive that
/// is pushed with its spatial node carries it.
#[derive(Clone, Copy, Debug, PartialEq, Eq, Structural)]
pub struct TargetedCommand {
    pub target: CommandBufferIndex,
    pub spatial_node: Option<SpatialNodeIndex>,
    pub command: PrimitiveCommand,
}

/// The state of a frame-build pass.
pub struct FrameBuildingState {
    /// The GPU buffer of the frame.
    pub frame_gpu_data: GpuBufferBuilderF,
    /// The nodes of the render-task graph; a task's id is its index.
    pub tasks: Vec<RenderTask>,
    /// The edges of the render-task graph.
    pub dependencies: Vec<TaskDependency>,
    /// The sub-tasks of all render tasks.
    pub sub_tasks: Vec<SubTask>,
    /// The render-task cache.
    pub task_cache: Vec<CachedTask>,
    /// The render tasks that the current surface depends on.
    pub surface_tasks: Vec<RenderTaskId>,
    /// The segments that `Segments` commands refer to.
    pub segments: Vec<QuadSegment>,
    /// The commands pushed so far, over all command buffers.
    pub commands: Vec<TargetedCommand>,
}

/// The state of a frame-build pass as plain sequences.
pub struct FrameView {
    pub gpu: Seq<GpuBlock>,
    pub tasks: Seq<RenderTask>,
    pub dependencies: Seq<TaskDependency>,
    pub sub_tasks: Seq<SubTask>,
    pub task_cache: Seq<CachedTask>,
    pub surface_tasks: Seq<RenderTaskId>,
    pub segments: Seq<QuadSegment>,
    pub commands: Seq<TargetedCommand>,
}

impl View for FrameBuildingState {
    type V = FrameView;

    open spec fn view(&self) -> FrameView {
        FrameView {
            gpu: self.frame_gpu_data@,
            tasks: self.tasks@,
            dependencies: self.dependencies@,
            sub_tasks: self.sub_tasks@,
            task_cache: self.task_cache@,
            surface_tasks: self.surface_tasks@,
            segments: self.segments@,
            commands: self.commands@,
        }
    }
}

/// `command` once for each target, in the order of the targets.
pub open spec fn targeted(
    targets: Seq<CommandBufferIndex>,
    spatial_node: Option<SpatialNodeIndex>,
    command: PrimitiveCommand,
) -> Seq<TargetedCommand> {
    Seq::new(
        targets.len(),
        |i: int| TargetedCommand { target: targets[i], spatial_node, command },
    )
}

/// Position in `cache` of the first entry under `key`, or the length of
/// `cache` when there is none.
pub open spec fn cache_position(cache: Seq<CachedTask>, key: RenderTaskCacheKey, from: int) -> int
    decreases cache.len() - from,
{
    if from < 0 || from >= cache.len() {
        cache.len() as int
    } else if cache[from].key.spec_same(&key) {
        from
    } else {
        cache_position(cache, key, from + 1)
    }
}

/// The task cached under `key`, if any.
pub open spec fn cached_task(cache: Seq<CachedTask>, key: RenderTaskCacheKey) -> Option<
    RenderTaskId,
> {
    let at = cache_position(cache, key, 0);
    if at < cache.len() {
        Some(cache[at].task_id)
    } else {
        None
    }
}

/// No two entries of the cache share a key.
pub open spec fn cache_keys_distinct(cache: Seq<CachedTask>) -> bool {
    forall|i: int, j: int|
        0 <= i < j < cache.len() ==> !(#[trigger] cache[i]).key.spec_same(&(#[trigger] cache[j]).key)
}

/// `cache_position` finds the first entry under `key` at or after `from`.
pub proof fn lemma_cache_position(cache: Seq<CachedTask>, key: RenderTaskCacheKey, from: int)
    requires
        0 <= from <= cache.len(),
    ensures
        from <= cache_position(cache, key, from) <= cache.len(),
        cache_position(cache, key, from) < cache.len() ==> cache[cache_position(
            cache,
            key,
            from,
        )].key.spec_same(&key),
        forall|i: int|
            from <= i < cache_position(cache, key, from) ==> !(#[trigger] cache[i]).key.spec_same(
                &key,
            ),
    decreases cache.len() - from,
{
    if from < cache.len() && !cache[from].key.spec_same(&key) {
        lemma_cache_position(cache, key, from + 1);
    }
}

impl FrameBuildingState {
    /// A state in which nothing has been recorded.
    pub fn new() -> (state: FrameBuildingState)
        ensures
            state@.gpu == Seq::<GpuBlock>::empty(),
            state@.tasks == Seq::<RenderTask>::empty(),
            state@.dependencies == Seq::<TaskDependency>::empty(),
            state@.sub_tasks == Seq::<SubTask>::empty(),
            state@.task_cache == Seq::<CachedTask>::empty(),
            state@.surface_tasks == Seq::<RenderTaskId>::empty(),
            state@.segments == Seq::<QuadSegment>::empty(),
            state@.commands == Seq::<TargetedCommand>::empty(),
    {
        FrameBuildingState {
            frame_gpu_data: GpuBufferBuilderF::new(),
            tasks: Vec::new(),
            dependencies: Vec::new(),
            sub_tasks: Vec::new(),
            task_cache: Vec::new(),
            surface_tasks: Vec::new(),
            segments: Vec::new(),
            commands: Vec::new(),
        }
    }

    /// Pushes a command to each target buffer.
    pub fn push_cmd(&mut self, command: &PrimitiveCommand, targets: &Vec<CommandBufferIndex>)
        ensures
            final(self)@ == (FrameView {
                commands: old(self)@.commands + targeted(targets@, None, *command),
                ..old(self)@
            }),
    {
        self.push_targeted(command, None, targets);
    }

    /// Pushes a primitive's command, with the primitive's spatial node, to
    /// each target buffer.
    pub fn push_prim(
        &mut self,
        command: &PrimitiveCommand,
        spatial_node_index: SpatialNodeIndex,
        targets: &Vec<CommandBufferIndex>,
    )
        ensures
            final(self)@ == (FrameView {
                commands: old(self)@.commands + targeted(
                    targets@,
                    Some(spatial_node_index),
                    *command,
                ),
                ..old(self)@
            }),
    {
        self.push_targeted(command, Some(spatial_node_index), targets);
    }

    fn push_targeted(
        &mut self,
        command: &PrimitiveCommand,
        spatial_node: Option<SpatialNodeIndex>,
        targets: &Vec<CommandBufferIndex>,
    )
        ensures
            final(self)@ == (FrameView {
                commands: old(self)@.commands + targeted(targets@, spatial_node, *command),
                ..old(self)@
            }),
    {
        let ghost before = self@;
        let ghost all = targeted(targets@, spatial_node, *command);
        let mut i: usize = 0;
        while i < targets.len()
            invariant
                i <= targets.len(),
                all == targeted(targets@, spatial_node, *command),
                self@ == (FrameView { commands: before.commands + all.take(i as int), ..before }),
            decreases targets.len() - i,
        {
            self.commands.push(
                TargetedCommand { target: targets[i], spatial_node, command: *command },
            );
            assert(before.commands + all.take(i as int + 1) =~= (before.commands + all.take(
                i as int,
            )).push(all[i as int]));
            i += 1;
        }
        assert(all.take(all.len() as int) =~= all);
    }

    /// Records the segments of the quad that is pushed next to each target
    /// buffer.
    pub fn set_segments(&mut self, segments: &Vec<QuadSegment>, targets: &Vec<CommandBufferIndex>)
        ensures
            final(self)@ == (FrameView {
                segments: old(self)@.segments + segments@,
                commands: old(self)@.commands + targeted(
                    targets@,
                    None,
                    PrimitiveCommand::Segments {
                        start: old(self)@.segments.len() as usize,
                        count: segments@.len() as usize,
                    },
                ),
                ..old(self)@
            }),
    {
        let ghost before = self@;
        let start = self.segments.len();
        let mut i: usize = 0;
        while i < segments.len()
            invariant
                i <= segments.len(),
                self@ == (FrameView {
                    segments: before.segments + segments@.take(i as int),
                    ..before
                }),
            decreases segments.len() - i,
        {
            self.segments.push(segments[i]);
            assert(before.segments + segments@.take(i as int + 1) =~= (before.segments
                + segments@.take(i as int)).push(segments@[i as int]));
            i += 1;
        }
        assert(segments@.take(segments@.len() as int) =~= segments@);
        self.push_targeted(
            &PrimitiveCommand::Segments { start, count: segments.len() },
            None,
            targets,
        );
    }

    /// Makes the current surface depend on a render task.
    pub fn add_child_render_task(&mut self, task_id: RenderTaskId)
        ensures
            final(self)@ == (FrameView {
                surface_tasks: old(self)@.surface_tasks.push(task_id),
                ..old(self)@
            }),
    {
        self.surface_tasks.push(task_id);
    }

    /// Adds a node to the render-task graph. Its id is the number of tasks
    /// added before it.
    pub fn add_task(&mut self, task: RenderTask) -> (id: RenderTaskId)
        requires
            !task.size.spec_is_empty(),
        ensures
            id.index == old(self)@.tasks.len(),
            id.spec_is_valid(),
            final(self)@ == (FrameView { tasks: old(self)@.tasks.push(task), ..old(self)@ }),
    {
        let id = RenderTaskId { index: self.tasks.len() };
        self.tasks.push(task);
        let len = self.tasks.len();
        id
    }

    /// Adds an edge to the render-task graph.
    pub fn add_dependency(&mut self, task: RenderTaskId, input: RenderTaskId)
        ensures
            final(self)@ == (FrameView {
                dependencies: old(self)@.dependencies.push(TaskDependency { task, input }),
                ..old(self)@
            }),
    {
        self.dependencies.push(TaskDependency { task, input });
    }

    /// An empty run of sub-tasks at the end of the graph's sub-tasks.
    pub fn begin_sub_tasks(&self) -> (range: SubTaskRange)
        ensures
            range.start == self@.sub_tasks.len(),
            range.end == self@.sub_tasks.len(),
    {
        SubTaskRange { start: self.sub_tasks.len(), end: self.sub_tasks.len() }
    }

    /// Appends a sub-task to a run that ends at the end of the graph's
    /// sub-tasks.
    pub fn push_sub_task(&mut self, range: &mut SubTaskRange, sub_task: SubTask)
        requires
            old(range).end == old(self)@.sub_tasks.len(),
        ensures
            final(range).start == old(range).start,
            final(range).end == old(range).end + 1,
            final(self)@ == (FrameView {
                sub_tasks: old(self)@.sub_tasks.push(sub_task),
                ..old(self)@
            }),
    {
        self.sub_tasks.push(sub_task);
        let len = self.sub_tasks.len();
        range.end = range.end + 1;
    }

    /// Attaches a run of sub-tasks to a render task.
    pub fn set_sub_tasks(&mut self, task_id: RenderTaskId, range: SubTaskRange)
        requires
            task_id.index < old(self)@.tasks.len(),
        ensures
            final(self)@ == (FrameView {
                tasks: old(self)@.tasks.update(
                    task_id.index as int,
                    RenderTask { sub_tasks: range, ..old(self)@.tasks[task_id.index as int] },
                ),
                ..old(self)@
            }),
    {
        let task = self.tasks[task_id.index];
        self.tasks.set(task_id.index, RenderTask { sub_tasks: range, ..task });
    }

    /// The task cached under `key`, if any.
    pub fn find_cached_task(&self, key: &RenderTaskCacheKey) -> (found: Option<RenderTaskId>)
        ensures
            found == cached_task(self@.task_cache, *key),
    {
        let mut i: usize = 0;
        while i < self.task_cache.len()
            invariant
                i <= self.task_cache.len(),
                cache_position(self@.task_cache, *key, i as int) == cache_position(
                    self@.task_cache,
                    *key,
                    0,
                ),
            decreases self.task_cache.len() - i,
        {
            if self.task_cache[i].key.same(key) {
                return Some(self.task_cache[i].task_id);
            }
            i += 1;
        }
        None
    }

    /// Enters a task into the cache under a key that it does not hold yet.
    pub fn insert_cached_task(
        &mut self,
        key: RenderTaskCacheKey,
        task_id: RenderTaskId,
        is_opaque: bool,
    )
        requires
            cached_task(old(self)@.task_cache, key).is_none(),
        ensures
            final(self)@ == (FrameView {
                task_cache: old(self)@.task_cache.push(CachedTask { key, task_id, is_opaque }),
                ..old(self)@
            }),
            cache_keys_distinct(old(self)@.task_cache) ==> cache_keys_distinct(
                final(self)@.task_cache,
            ),
    {
        proof {
            lemma_cache_position(self@.task_cache, key, 0);
        }
        self.task_cache.push(CachedTask { key, task_id, is_opaque });
    }
}

} // verus!
