//! The masks of a masked render task: one sub-task per clip, drawn in the
//! coordinate space that costs least.

use crate::clip::{
    ClipItem, ClipItemKind, ClipNodeRange, ClipStore, SpatialNode, VisibleMaskImageTile,
};
use crate::flags::{EdgeMask, QuadFlags};
use crate::frame::{
    cache_keys_distinct, cache_position, cached_task, lemma_cache_position, CachedTask, ClipSpace, FrameBuildingState, FrameView, ImageClipSubTask, PrimTask,
    RectangleClipSubTask, RenderTask, RenderTaskCacheKey, SubTask, SubTaskRange, TaskDependency,
};
use crate::geometry::{DeviceIntSize, DevicePoint, DeviceRect, LayoutRect, Rect};
use crate::gpu_types::{
    prim_blocks, write_device_prim_blocks, write_layout_prim_blocks, GpuBlock, GpuBufferAddress,
    GpuTransformId, PatternTransform, QuadPrimitive, QuadSegment,
};
use crate::pattern::{ColorU, Pattern, RenderTaskId};
use vstd::prelude::*;

verus! {

/// By how much the primitive's coverage is grown on each side for a mask
/// drawn in the primitive's space, to cover its anti-aliasing fringe.
pub const MASK_INFLATION: i32 = 2;

/// What one step of mask building appends: blocks to the GPU buffer and
/// sub-tasks to the graph.
pub struct MaskOutput {
    pub blocks: Seq<GpuBlock>,
    pub sub_tasks: Seq<SubTask>,
}

impl MaskOutput {
    pub open spec fn nothing() -> MaskOutput {
        MaskOutput { blocks: Seq::empty(), sub_tasks: Seq::empty() }
    }

    /// This output followed by `next`.
    pub open spec fn followed_by(self, next: MaskOutput) -> MaskOutput {
        MaskOutput { blocks: self.blocks + next.blocks, sub_tasks: self.sub_tasks + next.sub_tasks }
    }

    /// The state after this output was appended to `state`.
    pub open spec fn after(self, state: FrameView) -> FrameView {
        FrameView {
            gpu: state.gpu + self.blocks,
            sub_tasks: state.sub_tasks + self.sub_tasks,
            ..state
        }
    }
}

/// The record of a rectangle or rounded-rectangle clip: three blocks with
/// one radius per corner where the cheap encoding applies, four blocks
/// with a width and a height per corner where it does not. Other clips have
/// no record.
pub open spec fn clip_record(clip: ClipItem) -> Seq<GpuBlock> {
    match clip.kind {
        ClipItemKind::RoundedRectangle { rect, radius, mode } => {
            if clip.can_use_fast_path {
                seq![
                    GpuBlock::Rect(rect),
                    GpuBlock::Values(
                        radius.bottom_right.width,
                        radius.top_right.width,
                        radius.bottom_left.width,
                        radius.top_left.width,
                    ),
                    GpuBlock::Mode(mode),
                ]
            } else {
                seq![
                    GpuBlock::Rect(rect),
                    GpuBlock::Values(
                        radius.top_left.width,
                        radius.top_left.height,
                        radius.top_right.width,
                        radius.top_right.height,
                    ),
                    GpuBlock::Values(
                        radius.bottom_left.width,
                        radius.bottom_left.height,
                        radius.bottom_right.width,
                        radius.bottom_right.height,
                    ),
                    GpuBlock::Mode(mode),
                ]
            }
        },
        ClipItemKind::Rectangle { rect, mode } => seq![
            GpuBlock::Rect(rect),
            GpuBlock::Values(0, 0, 0, 0),
            GpuBlock::Mode(mode),
        ],
        _ => Seq::empty(),
    }
}

/// Whether the record of a clip has the cheap encoding.
pub open spec fn clip_uses_fast_path(clip: ClipItem) -> bool {
    match clip.kind {
        ClipItemKind::RoundedRectangle { .. } => clip.can_use_fast_path,
        _ => true,
    }
}

/// The head of the record of a white quad over `rect`.
pub open spec fn mask_quad(rect: Rect) -> QuadPrimitive {
    QuadPrimitive {
        bounds: rect,
        clip: rect,
        input_task: RenderTaskId::spec_invalid(),
        pattern_scale_offset: PatternTransform::Identity,
        color: ColorU::spec_white(),
    }
}

/// The mask of one source tile of an image clip, written at `address`.
pub open spec fn image_tile_mask(
    address: int,
    clip: ClipItem,
    rect: Rect,
    tile: VisibleMaskImageTile,
    raster_node: SpatialNode,
) -> MaskOutput {
    MaskOutput {
        blocks: prim_blocks(
            mask_quad(rect),
            seq![QuadSegment { rect: tile.tile_rect, task_id: tile.task_id }],
        ),
        sub_tasks: seq![
            SubTask::ImageClip(
                ImageClipSubTask {
                    quad_address: GpuBufferAddress { index: address as usize },
                    quad_transform_id: GpuTransformId::PostScale {
                        from: clip.spatial_node.index,
                        to: raster_node.index,
                    },
                    src_task: tile.task_id,
                    quad_flags: QuadFlags {
                        use_aa_segments: false,
                        apply_render_task_clip: clip.raster_transform_is_scale_offset,
                        is_opaque: false,
                        is_mask: true,
                    },
                    needs_scissor_rect: !clip.raster_transform_is_scale_offset,
                },
            ),
        ],
    }
}

/// The masks of the first `n` source tiles of an image clip, the first
/// written at `address`.
pub open spec fn image_masks(
    address: int,
    clip: ClipItem,
    rect: Rect,
    tiles: Seq<VisibleMaskImageTile>,
    raster_node: SpatialNode,
    n: int,
) -> MaskOutput
    decreases n,
{
    if n <= 0 {
        MaskOutput::nothing()
    } else {
        let before = image_masks(address, clip, rect, tiles, raster_node, n - 1);
        before.followed_by(
            image_tile_mask(address + before.blocks.len(), clip, rect, tiles[n - 1], raster_node),
        )
    }
}

/// The mask of a rectangle or rounded-rectangle clip, its record written
/// at `address`. Where the clip shares the coordinate system of the raster
/// node, the mask is a quad over the render task in device space, clipped
/// to the task. Otherwise it is the primitive's coverage, grown by
/// `MASK_INFLATION`, in the primitive's space, and it is clipped to the
/// task only if the primitive shares the raster node's coordinate system,
/// and scissored if not.
pub open spec fn rectangle_mask(
    address: int,
    clip: ClipItem,
    task_rect: Rect,
    prim_local_coverage_rect: Rect,
    prim_node: SpatialNode,
    raster_node: SpatialNode,
) -> MaskOutput {
    let record = clip_record(clip);
    let quad_address = GpuBufferAddress { index: (address + record.len()) as usize };
    let clip_address = GpuBufferAddress { index: address as usize };
    if raster_node.coordinate_system_id == clip.spatial_node.coordinate_system_id {
        MaskOutput {
            blocks: record + prim_blocks(mask_quad(task_rect), Seq::empty()),
            sub_tasks: seq![
                SubTask::RectangleClip(
                    RectangleClipSubTask {
                        quad_address,
                        quad_transform_id: GpuTransformId::Identity,
                        clip_address,
                        clip_transform_id: GpuTransformId::PreScale {
                            from: raster_node.index,
                            to: clip.spatial_node.index,
                        },
                        quad_flags: QuadFlags {
                            use_aa_segments: false,
                            apply_render_task_clip: true,
                            is_opaque: false,
                            is_mask: false,
                        },
                        clip_space: ClipSpace::Device,
                        needs_scissor_rect: false,
                        rounded_rect_fast_path: clip_uses_fast_path(clip),
                    },
                ),
            ],
        }
    } else {
        let same = prim_node.coordinate_system_id == raster_node.coordinate_system_id;
        MaskOutput {
            blocks: record + prim_blocks(
                mask_quad(prim_local_coverage_rect.spec_inflate(MASK_INFLATION, MASK_INFLATION)),
                Seq::empty(),
            ),
            sub_tasks: seq![
                SubTask::RectangleClip(
                    RectangleClipSubTask {
                        quad_address,
                        quad_transform_id: GpuTransformId::PostScale {
                            from: prim_node.index,
                            to: raster_node.index,
                        },
                        clip_address,
                        clip_transform_id: if prim_node.coordinate_system_id
                            < clip.spatial_node.coordinate_system_id {
                            GpuTransformId::Relative {
                                from: clip.spatial_node.index,
                                to: prim_node.index,
                            }
                        } else {
                            GpuTransformId::Relative {
                                from: prim_node.index,
                                to: clip.spatial_node.index,
                            }
                        },
                        quad_flags: QuadFlags {
                            use_aa_segments: false,
                            apply_render_task_clip: same,
                            is_opaque: false,
                            is_mask: false,
                        },
                        clip_space: ClipSpace::Primitive,
                        needs_scissor_rect: !same,
                        rounded_rect_fast_path: clip_uses_fast_path(clip),
                    },
                ),
            ],
        }
    }
}

/// What the mask of one clip appends when the GPU buffer holds `address`
/// blocks: for an image one mask per visible source tile, for a rectangle
/// or rounded rectangle one mask.
pub open spec fn clip_mask(
    address: int,
    clip: ClipItem,
    tiles: Seq<VisibleMaskImageTile>,
    task_rect: Rect,
    prim_local_coverage_rect: Rect,
    prim_node: SpatialNode,
    raster_node: SpatialNode,
) -> MaskOutput {
    match clip.kind {
        ClipItemKind::Image { rect } => image_masks(
            address,
            clip,
            rect,
            tiles,
            raster_node,
            tiles.len() as int,
        ),
        _ => rectangle_mask(
            address,
            clip,
            task_rect,
            prim_local_coverage_rect,
            prim_node,
            raster_node,
        ),
    }
}

/// Writes the record of a rectangle or rounded-rectangle clip.
fn write_clip_record(state: &mut FrameBuildingState, clip_item: &ClipItem) -> (address:
    GpuBufferAddress)
    requires
        clip_item.kind is Rectangle || clip_item.kind is RoundedRectangle,
    ensures
        address.index == old(state)@.gpu.len(),
        final(state)@ == (FrameView {
            gpu: old(state)@.gpu + clip_record(*clip_item),
            ..old(state)@
        }),
{
    let ghost before = state@;
    let address = GpuBufferAddress { index: state.frame_gpu_data.blocks.len() };
    match clip_item.kind {
        ClipItemKind::RoundedRectangle { rect, radius, mode } => {
            if clip_item.can_use_fast_path {
                state.frame_gpu_data.blocks.push(GpuBlock::Rect(rect));
                state.frame_gpu_data.blocks.push(
                    GpuBlock::Values(
                        radius.bottom_right.width,
                        radius.top_right.width,
                        radius.bottom_left.width,
                        radius.top_left.width,
                    ),
                );
                state.frame_gpu_data.blocks.push(GpuBlock::Mode(mode));
            } else {
                state.frame_gpu_data.blocks.push(GpuBlock::Rect(rect));
                state.frame_gpu_data.blocks.push(
                    GpuBlock::Values(
                        radius.top_left.width,
                        radius.top_left.height,
                        radius.top_right.width,
                        radius.top_right.height,
                    ),
                );
                state.frame_gpu_data.blocks.push(
                    GpuBlock::Values(
                        radius.bottom_left.width,
                        radius.bottom_left.height,
                        radius.bottom_right.width,
                        radius.bottom_right.height,
                    ),
                );
                state.frame_gpu_data.blocks.push(GpuBlock::Mode(mode));
            }
        },
        ClipItemKind::Rectangle { rect, mode } => {
            state.frame_gpu_data.blocks.push(GpuBlock::Rect(rect));
            state.frame_gpu_data.blocks.push(GpuBlock::Values(0, 0, 0, 0));
            state.frame_gpu_data.blocks.push(GpuBlock::Mode(mode));
        },
        _ => {},
    }
    assert(state@.gpu =~= before.gpu + clip_record(*clip_item));
    address
}

/// Writes the masks of the visible source tiles of an image clip.
fn prepare_image_clip_task(
    clip_item: &ClipItem,
    rect: &LayoutRect,
    raster_spatial_node: &SpatialNode,
    clip_store: &ClipStore,
    state: &mut FrameBuildingState,
    sub_tasks: &mut SubTaskRange,
)
    requires
        clip_store.has_tiles(clip_item.mask_tiles),
        old(sub_tasks).end == old(state)@.sub_tasks.len(),
    ensures
        ({
            let tiles = clip_store.range_tiles(clip_item.mask_tiles);
            let out = image_masks(
                old(state)@.gpu.len() as int,
                *clip_item,
                *rect,
                tiles,
                *raster_spatial_node,
                tiles.len() as int,
            );
            &&& final(state)@ == out.after(old(state)@)
            &&& final(sub_tasks).start == old(sub_tasks).start
            &&& final(sub_tasks).end == old(sub_tasks).end + out.sub_tasks.len()
        }),
{
    let ghost before = state@;
    let ghost tiles = clip_store.range_tiles(clip_item.mask_tiles);
    let ghost address = before.gpu.len() as int;
    let transform_id = GpuTransformId::PostScale {
        from: clip_item.spatial_node.index,
        to: raster_spatial_node.index,
    };
    let is_scale_offset = clip_item.raster_transform_is_scale_offset;
    let needs_scissor_rect = !is_scale_offset;
    let pattern = Pattern::color(ColorU::white());
    let mut quad_flags = QuadFlags::empty();
    quad_flags.is_mask = true;
    if is_scale_offset {
        quad_flags.apply_render_task_clip = true;
    }
    let range = clip_item.mask_tiles;
    assert(MaskOutput::nothing().after(before).gpu =~= before.gpu);
    assert(MaskOutput::nothing().after(before).sub_tasks =~= before.sub_tasks);
    let mut i: u32 = 0;
    while i < range.count
        invariant
            i <= range.count,
            range == clip_item.mask_tiles,
            clip_store.has_tiles(range),
            tiles == clip_store.range_tiles(range),
            address == before.gpu.len(),
            pattern == Pattern::spec_color(ColorU::spec_white()),
            transform_id == (GpuTransformId::PostScale {
                from: clip_item.spatial_node.index,
                to: raster_spatial_node.index,
            }),
            quad_flags == (QuadFlags {
                use_aa_segments: false,
                apply_render_task_clip: clip_item.raster_transform_is_scale_offset,
                is_opaque: false,
                is_mask: true,
            }),
            needs_scissor_rect == !clip_item.raster_transform_is_scale_offset,
            sub_tasks.end == state@.sub_tasks.len(),
            sub_tasks.start == old(sub_tasks).start,
            sub_tasks.end == old(sub_tasks).end + image_masks(
                address,
                *clip_item,
                *rect,
                tiles,
                *raster_spatial_node,
                i as int,
            ).sub_tasks.len(),
            state@ == image_masks(
                address,
                *clip_item,
                *rect,
                tiles,
                *raster_spatial_node,
                i as int,
            ).after(before),
        decreases range.count - i,
    {
        let ghost so_far = image_masks(
            address,
            *clip_item,
            *rect,
            tiles,
            *raster_spatial_node,
            i as int,
        );
        let tile = clip_store.get_tile_from_range(&range, i);
        let mut segments: Vec<QuadSegment> = Vec::new();
        segments.push(QuadSegment { rect: tile.tile_rect, task_id: tile.task_id });
        assert(segments@ =~= seq![QuadSegment { rect: tile.tile_rect, task_id: tile.task_id }]);
        let prim_address = write_layout_prim_blocks(
            &mut state.frame_gpu_data,
            rect,
            rect,
            pattern.base_color,
            pattern.texture_input.task_id,
            &segments,
        );
        state.push_sub_task(
            sub_tasks,
            SubTask::ImageClip(
                ImageClipSubTask {
                    quad_address: prim_address,
                    quad_transform_id: transform_id,
                    src_task: tile.task_id,
                    quad_flags,
                    needs_scissor_rect,
                },
            ),
        );
        proof {
            let step = image_tile_mask(
                address + so_far.blocks.len(),
                *clip_item,
                *rect,
                tiles[i as int],
                *raster_spatial_node,
            );
            let next = so_far.followed_by(step);
            assert(state@.gpu =~= next.after(before).gpu);
            assert(state@.sub_tasks =~= next.after(before).sub_tasks);
        }
        i += 1;
    }
}

/// Turns one clip of a masked render task into its masks.
pub fn prepare_clip_task(
    clip_item: &ClipItem,
    task_rect: &DeviceRect,
    prim_local_coverage_rect: &LayoutRect,
    prim_spatial_node: &SpatialNode,
    raster_spatial_node: &SpatialNode,
    clip_store: &ClipStore,
    state: &mut FrameBuildingState,
    sub_tasks: &mut SubTaskRange,
)
    requires
        !(clip_item.kind is BoxShadow),
        clip_store.has_tiles(clip_item.mask_tiles),
        old(sub_tasks).end == old(state)@.sub_tasks.len(),
    ensures
        ({
            let out = clip_mask(
                old(state)@.gpu.len() as int,
                *clip_item,
                clip_store.range_tiles(clip_item.mask_tiles),
                *task_rect,
                *prim_local_coverage_rect,
                *prim_spatial_node,
                *raster_spatial_node,
            );
            &&& final(state)@ == out.after(old(state)@)
            &&& final(sub_tasks).start == old(sub_tasks).start
            &&& final(sub_tasks).end == old(sub_tasks).end + out.sub_tasks.len()
        }),
{
    let ghost before = state@;
    let fast_path = match clip_item.kind {
        ClipItemKind::RoundedRectangle { .. } => clip_item.can_use_fast_path,
        ClipItemKind::Rectangle { .. } => true,
        ClipItemKind::Image { rect } => {
            prepare_image_clip_task(
                clip_item,
                &rect,
                raster_spatial_node,
                clip_store,
                state,
                sub_tasks,
            );
            return ;
        },
        ClipItemKind::BoxShadow => {
            return ;
        },
    };
    let clip_address = write_clip_record(state, clip_item);
    let raster_clip = raster_spatial_node.coordinate_system_id
        == clip_item.spatial_node.coordinate_system_id;
    let no_segments: Vec<QuadSegment> = Vec::new();

    let (clip_space, clip_transform_id, quad_address, quad_transform_id, is_same_coord_system) =
        if raster_clip {
        let quad_transform_id = GpuTransformId::Identity;
        let pattern = Pattern::color(ColorU::white());
        let clip_transform_id = GpuTransformId::PreScale {
            from: raster_spatial_node.index,
            to: clip_item.spatial_node.index,
        };
        let quad_address = write_device_prim_blocks(
            &mut state.frame_gpu_data,
            task_rect,
            task_rect,
            pattern.base_color,
            pattern.texture_input.task_id,
            &no_segments,
            PatternTransform::Identity,
        );
        (ClipSpace::Device, clip_transform_id, quad_address, quad_transform_id, true)
    } else {
        let quad_transform_id = GpuTransformId::PostScale {
            from: prim_spatial_node.index,
            to: raster_spatial_node.index,
        };
        let rect = prim_local_coverage_rect.inflate(MASK_INFLATION, MASK_INFLATION);
        let quad_address = write_layout_prim_blocks(
            &mut state.frame_gpu_data,
            &rect,
            &rect,
            ColorU::white(),
            RenderTaskId::invalid(),
            &no_segments,
        );
        let clip_transform_id = if prim_spatial_node.coordinate_system_id
            < clip_item.spatial_node.coordinate_system_id {
            GpuTransformId::Relative {
                from: clip_item.spatial_node.index,
                to: prim_spatial_node.index,
            }
        } else {
            GpuTransformId::Relative {
                from: prim_spatial_node.index,
                to: clip_item.spatial_node.index,
            }
        };
        let is_same_coord_system = prim_spatial_node.is_matching_coord_system(raster_spatial_node);
        (
            ClipSpace::Primitive,
            clip_transform_id,
            quad_address,
            quad_transform_id,
            is_same_coord_system,
        )
    };
    let needs_scissor_rect = !is_same_coord_system;
    let mut quad_flags = QuadFlags::empty();
    if is_same_coord_system {
        quad_flags.apply_render_task_clip = true;
    }
    state.push_sub_task(
        sub_tasks,
        SubTask::RectangleClip(
            RectangleClipSubTask {
                quad_address,
                quad_transform_id,
                clip_address,
                clip_transform_id,
                quad_flags,
                clip_space,
                needs_scissor_rect,
                rounded_rect_fast_path: fast_path,
            },
        ),
    );
    proof {
        let out = rectangle_mask(
            before.gpu.len() as int,
            *clip_item,
            *task_rect,
            *prim_local_coverage_rect,
            *prim_spatial_node,
            *raster_spatial_node,
        );
        assert(no_segments@ =~= Seq::<QuadSegment>::empty());
        assert(state@.gpu =~= out.after(before).gpu);
        assert(state@.sub_tasks =~= out.after(before).sub_tasks);
    }
}

/// What the masks of the first `n` clips of `range` append when the GPU
/// buffer holds `address` blocks.
pub open spec fn range_masks(
    address: int,
    clip_store: ClipStore,
    range: ClipNodeRange,
    task_rect: Rect,
    prim_local_coverage_rect: Rect,
    prim_node: SpatialNode,
    raster_node: SpatialNode,
    n: int,
) -> MaskOutput
    decreases n,
{
    if n <= 0 {
        MaskOutput::nothing()
    } else {
        let before = range_masks(
            address,
            clip_store,
            range,
            task_rect,
            prim_local_coverage_rect,
            prim_node,
            raster_node,
            n - 1,
        );
        let clip = clip_store.instances@[range.first + n - 1];
        before.followed_by(
            clip_mask(
                address + before.blocks.len(),
                clip,
                clip_store.range_tiles(clip.mask_tiles),
                task_rect,
                prim_local_coverage_rect,
                prim_node,
                raster_node,
            ),
        )
    }
}

/// Every clip of `range` can be masked: the store holds the range and the
/// tiles of its image clips, and none of its clips is a box shadow.
pub open spec fn maskable(clip_store: ClipStore, range: ClipNodeRange) -> bool {
    &&& clip_store.has_range(range)
    &&& clip_store.has_tiles_of(range)
    &&& forall|i: int|
        0 <= i < range.count ==> !((#[trigger] clip_store.instances@[range.first + i]).kind is BoxShadow)
}

/// Builds the masks of all clips of a masked render task and attaches
/// them to the task.
pub fn prepare_clip_range(
    clips_range: ClipNodeRange,
    masked_prim_task_id: RenderTaskId,
    task_rect: &DeviceRect,
    prim_local_coverage_rect: &LayoutRect,
    prim_spatial_node: &SpatialNode,
    raster_spatial_node: &SpatialNode,
    clip_store: &ClipStore,
    state: &mut FrameBuildingState,
)
    requires
        maskable(*clip_store, clips_range),
        masked_prim_task_id.index < old(state)@.tasks.len(),
    ensures
        ({
            let before = old(state)@;
            let out = range_masks(
                before.gpu.len() as int,
                *clip_store,
                clips_range,
                *task_rect,
                *prim_local_coverage_rect,
                *prim_spatial_node,
                *raster_spatial_node,
                clips_range.count as int,
            );
            final(state)@ == (FrameView {
                tasks: before.tasks.update(
                    masked_prim_task_id.index as int,
                    RenderTask {
                        sub_tasks: SubTaskRange {
                            start: before.sub_tasks.len() as usize,
                            end: (before.sub_tasks.len() + out.sub_tasks.len()) as usize,
                        },
                        ..before.tasks[masked_prim_task_id.index as int]
                    },
                ),
                ..out.after(before)
            })
        }),
{
    let ghost before = state@;
    let ghost address = before.gpu.len() as int;
    let mut sub_tasks = state.begin_sub_tasks();
    assert(MaskOutput::nothing().after(before).gpu =~= before.gpu);
    assert(MaskOutput::nothing().after(before).sub_tasks =~= before.sub_tasks);
    let mut i: u32 = 0;
    while i < clips_range.count
        invariant
            i <= clips_range.count,
            maskable(*clip_store, clips_range),
            address == before.gpu.len(),
            sub_tasks.start == before.sub_tasks.len(),
            sub_tasks.end == state@.sub_tasks.len(),
            state@ == range_masks(
                address,
                *clip_store,
                clips_range,
                *task_rect,
                *prim_local_coverage_rect,
                *prim_spatial_node,
                *raster_spatial_node,
                i as int,
            ).after(before),
        decreases clips_range.count - i,
    {
        let ghost so_far = range_masks(
            address,
            *clip_store,
            clips_range,
            *task_rect,
            *prim_local_coverage_rect,
            *prim_spatial_node,
            *raster_spatial_node,
            i as int,
        );
        let clip_item = clip_store.get_instance_from_range(&clips_range, i);
        assert(*clip_item == clip_store.instances@[clips_range.first + i]);
        prepare_clip_task(
            clip_item,
            task_rect,
            prim_local_coverage_rect,
            prim_spatial_node,
            raster_spatial_node,
            clip_store,
            state,
            &mut sub_tasks,
        );
        proof {
            let step = clip_mask(
                address + so_far.blocks.len(),
                *clip_item,
                clip_store.range_tiles(clip_item.mask_tiles),
                *task_rect,
                *prim_local_coverage_rect,
                *prim_spatial_node,
                *raster_spatial_node,
            );
            let next = so_far.followed_by(step);
            assert(state@.gpu =~= next.after(before).gpu);
            assert(state@.sub_tasks =~= next.after(before).sub_tasks);
        }
        i += 1;
    }
    state.set_sub_tasks(masked_prim_task_id, sub_tasks);
}

/// The state after a render task that draws one quad was built, with the
/// masks of the clips of `clips_range`. The task's id is the number of
/// tasks before. The task depends on the pattern's texture input, if it
/// has one.
pub open spec fn with_masked_task(
    state: FrameView,
    task_size: DeviceIntSize,
    kind: PrimTask,
    prim_local_coverage_rect: Rect,
    clips_range: ClipNodeRange,
    prim_node: SpatialNode,
    raster_node: SpatialNode,
    clip_store: ClipStore,
) -> FrameView {
    let id = RenderTaskId { index: state.tasks.len() as usize };
    let masks = range_masks(
        state.gpu.len() as int,
        clip_store,
        clips_range,
        Rect::spec_from_origin_and_size(kind.content_origin, task_size),
        prim_local_coverage_rect,
        prim_node,
        raster_node,
        clips_range.count as int,
    );
    let sub_tasks = if clips_range.count > 0 {
        SubTaskRange {
            start: state.sub_tasks.len() as usize,
            end: (state.sub_tasks.len() + masks.sub_tasks.len()) as usize,
        }
    } else {
        SubTaskRange { start: 0, end: 0 }
    };
    FrameView {
        gpu: state.gpu + masks.blocks,
        sub_tasks: state.sub_tasks + masks.sub_tasks,
        tasks: state.tasks.push(RenderTask { size: task_size, kind, sub_tasks }),
        dependencies: if kind.texture_input.spec_is_valid() {
            state.dependencies.push(TaskDependency { task: id, input: kind.texture_input })
        } else {
            state.dependencies
        },
        ..state
    }
}

/// The state after a masked render task was requested, and the task that
/// answers the request. A task cached under the key answers it and leaves
/// the state as it is. Otherwise a task is built, entered into the cache
/// if there is a key, and made an input of the current surface. The cache
/// is told that the task is opaque if the pattern is and no clip applies.
pub open spec fn with_requested_task(
    state: FrameView,
    task_size: DeviceIntSize,
    kind: PrimTask,
    prim_local_coverage_rect: Rect,
    clips_range: ClipNodeRange,
    prim_node: SpatialNode,
    raster_node: SpatialNode,
    cache_key: Option<RenderTaskCacheKey>,
    is_opaque: bool,
    clip_store: ClipStore,
) -> (FrameView, RenderTaskId) {
    let id = RenderTaskId { index: state.tasks.len() as usize };
    let built = with_masked_task(
        state,
        task_size,
        kind,
        prim_local_coverage_rect,
        clips_range,
        prim_node,
        raster_node,
        clip_store,
    );
    match cache_key {
        Some(key) => match cached_task(state.task_cache, key) {
            Some(cached) => (state, cached),
            None => (
                FrameView {
                    task_cache: built.task_cache.push(CachedTask { key, task_id: id, is_opaque }),
                    surface_tasks: built.surface_tasks.push(id),
                    ..built
                },
                id,
            ),
        },
        None => (FrameView { surface_tasks: built.surface_tasks.push(id), ..built }, id),
    }
}

/// Builds a render task that draws one quad, with the masks of its clips.
pub fn build_masked_task(
    task_size: DeviceIntSize,
    kind: PrimTask,
    prim_local_coverage_rect: &LayoutRect,
    clips_range: ClipNodeRange,
    prim_spatial_node: &SpatialNode,
    raster_spatial_node: &SpatialNode,
    clip_store: &ClipStore,
    state: &mut FrameBuildingState,
) -> (task_id: RenderTaskId)
    requires
        !task_size.spec_is_empty(),
        maskable(*clip_store, clips_range),
    ensures
        task_id.index == old(state)@.tasks.len(),
        task_id.spec_is_valid(),
        final(state)@ == with_masked_task(
            old(state)@,
            task_size,
            kind,
            *prim_local_coverage_rect,
            clips_range,
            *prim_spatial_node,
            *raster_spatial_node,
            *clip_store,
        ),
{
    let ghost before = state@;
    let task_id = state.add_task(
        RenderTask { size: task_size, kind, sub_tasks: SubTaskRange { start: 0, end: 0 } },
    );
    if kind.texture_input.is_valid() {
        state.add_dependency(task_id, kind.texture_input);
    }
    if clips_range.count > 0 {
        let task_rect = Rect::from_origin_and_size(kind.content_origin, task_size);
        prepare_clip_range(
            clips_range,
            task_id,
            &task_rect,
            prim_local_coverage_rect,
            prim_spatial_node,
            raster_spatial_node,
            clip_store,
            state,
        );
    }
    proof {
        let after = with_masked_task(
            before,
            task_size,
            kind,
            *prim_local_coverage_rect,
            clips_range,
            *prim_spatial_node,
            *raster_spatial_node,
            *clip_store,
        );
        assert(state@.gpu =~= after.gpu);
        assert(state@.sub_tasks =~= after.sub_tasks);
        assert(state@.tasks =~= after.tasks);
    }
    task_id
}

/// Requests the render task that draws a pattern over a quad with the
/// masks of its clips applied. With a cache key, a task built earlier
/// under that key is reused.
pub fn add_render_task_with_mask(
    pattern: &Pattern,
    prim_local_coverage_rect: &LayoutRect,
    task_size: DeviceIntSize,
    content_origin: DevicePoint,
    clips_range: ClipNodeRange,
    prim_spatial_node: &SpatialNode,
    raster_spatial_node: &SpatialNode,
    prim_address_f: GpuBufferAddress,
    transform_id: GpuTransformId,
    aa_flags: EdgeMask,
    quad_flags: QuadFlags,
    needs_scissor_rect: bool,
    cache_key: Option<&RenderTaskCacheKey>,
    clip_store: &ClipStore,
    state: &mut FrameBuildingState,
) -> (task_id: RenderTaskId)
    requires
        !task_size.spec_is_empty(),
        maskable(*clip_store, clips_range),
    ensures
        (final(state)@, task_id) == with_requested_task(
            old(state)@,
            task_size,
            PrimTask {
                pattern: pattern.kind,
                pattern_input: pattern.shader_input,
                content_origin,
                prim_address_f,
                transform_id,
                edge_flags: aa_flags,
                quad_flags,
                needs_scissor_rect,
                texture_input: pattern.texture_input.task_id,
            },
            *prim_local_coverage_rect,
            clips_range,
            *prim_spatial_node,
            *raster_spatial_node,
            match cache_key {
                Some(key) => Some(*key),
                None => None,
            },
            pattern.is_opaque && clips_range.count == 0,
            *clip_store,
        ),
{
    let is_opaque = pattern.is_opaque && clips_range.count == 0;
    let kind = PrimTask {
        pattern: pattern.kind,
        pattern_input: pattern.shader_input,
        content_origin,
        prim_address_f,
        transform_id,
        edge_flags: aa_flags,
        quad_flags,
        needs_scissor_rect,
        texture_input: pattern.texture_input.task_id,
    };
    match cache_key {
        Some(key) => {
            match state.find_cached_task(key) {
                Some(cached) => cached,
                None => {
                    let task_id = build_masked_task(
                        task_size,
                        kind,
                        prim_local_coverage_rect,
                        clips_range,
                        prim_spatial_node,
                        raster_spatial_node,
                        clip_store,
                        state,
                    );
                    state.insert_cached_task(*key, task_id, is_opaque);
                    state.add_child_render_task(task_id);
                    task_id
                },
            }
        },
        None => {
            let task_id = build_masked_task(
                task_size,
                kind,
                prim_local_coverage_rect,
                clips_range,
                prim_spatial_node,
                raster_spatial_node,
                clip_store,
                state,
            );
            state.add_child_render_task(task_id);
            task_id
        },
    }
}

/// The cache holds at most one task for each key: a request keeps the keys
/// of the cache distinct, and a second request under a key is answered by
/// the task of the first and changes nothing.
pub proof fn lemma_request_is_deduplicated(
    state: FrameView,
    task_size: DeviceIntSize,
    kind: PrimTask,
    prim_local_coverage_rect: Rect,
    clips_range: ClipNodeRange,
    prim_node: SpatialNode,
    raster_node: SpatialNode,
    key: RenderTaskCacheKey,
    is_opaque: bool,
    clip_store: ClipStore,
    second_size: DeviceIntSize,
    second_kind: PrimTask,
    second_coverage_rect: Rect,
    second_is_opaque: bool,
)
    ensures
        ({
            let first = with_requested_task(
                state,
                task_size,
                kind,
                prim_local_coverage_rect,
                clips_range,
                prim_node,
                raster_node,
                Some(key),
                is_opaque,
                clip_store,
            );
            let second = with_requested_task(
                first.0,
                second_size,
                second_kind,
                second_coverage_rect,
                clips_range,
                prim_node,
                raster_node,
                Some(key),
                second_is_opaque,
                clip_store,
            );
            &&& second == first
            &&& first.0.tasks.len() <= state.tasks.len() + 1
            &&& (cache_keys_distinct(state.task_cache) ==> cache_keys_distinct(first.0.task_cache))
        }),
{
    let first = with_requested_task(
        state,
        task_size,
        kind,
        prim_local_coverage_rect,
        clips_range,
        prim_node,
        raster_node,
        Some(key),
        is_opaque,
        clip_store,
    );
    lemma_cache_position(state.task_cache, key, 0);
    if cached_task(state.task_cache, key).is_none() {
        let id = RenderTaskId { index: state.tasks.len() as usize };
        let entry = CachedTask { key, task_id: id, is_opaque };
        assert(first.0.task_cache == state.task_cache.push(entry));
        lemma_cache_position_pushed(state.task_cache, entry, 0);
    }
}

/// In a cache that holds no entry under a key, an entry pushed under that
/// key is the one that is found.
proof fn lemma_cache_position_pushed(cache: Seq<CachedTask>, entry: CachedTask, from: int)
    requires
        0 <= from <= cache.len(),
        forall|i: int| from <= i < cache.len() ==> !(#[trigger] cache[i]).key.spec_same(&entry.key),
    ensures
        cache_position(cache.push(entry), entry.key, from) == cache.len(),
    decreases cache.len() - from,
{
    if from < cache.len() {
        assert(cache.push(entry)[from] == cache[from]);
        lemma_cache_position_pushed(cache, entry, from + 1);
    } else {
        assert(cache.push(entry)[from] == entry);
    }
}

} // verus!
