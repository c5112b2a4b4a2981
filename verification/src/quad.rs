//! The decomposition of a quad into draws: directly into the destination,
//! through one masked render task, as a grid of tiles, or as a nine-patch.

use crate::clip::{ClipChainInstance, ClipStore, SpatialNode};
use crate::clip_mask::{add_render_task_with_mask, maskable, with_requested_task};
use crate::flags::{EdgeMask, QuadFlags};
use crate::frame::{
    targeted, CommandBufferIndex, FrameBuildingState, FrameView, PrimTask, PrimitiveCommand,
    PrimitiveInstanceIndex, QuadCommand, RenderTaskCacheKey,
};
use crate::geometry::{DeviceRect, LayoutRect, Rect, ScaleOffset, Size};
use crate::gpu_types::{
    create_quad_primitive, prim_blocks, quad_primitive, write_device_prim_blocks,
    write_prim_blocks_impl, GpuBufferAddress, GpuTransformId, PatternTransform, QuadPrimitive,
    QuadSegment,
};
use crate::pattern::{ColorU, Pattern, PatternKind, PatternShaderInput, RenderTaskId};
use crate::strategy::QuadCacheKey;
use crate::tile_classifier::QuadTileClassifier;
use vstd::prelude::*;

verus! {

/// A quad is drawn with anti-aliased strips only if it is larger than this
/// on both axes.
pub const MIN_AA_SEGMENTS_SIZE: i64 = 4;

/// How the primitive's space relates to device space.
#[derive(Clone, Copy, Debug, PartialEq, Eq, Structural)]
pub struct PrimitiveMapping {
    /// The scale and offset that take the primitive's space to device
    /// space, when the two are so related.
    pub local_to_device: Option<ScaleOffset>,
    /// Whether the primitive's edges stay parallel to the device axes.
    pub is_2d_axis_aligned: bool,
    /// The extent of the primitive on screen, in device units. It is read
    /// only where the primitive is not under a scale and offset; under
    /// one, the extent is that of the primitive's image.
    pub on_screen_size: Size,
}

/// What the pipeline reads of the surface that is drawn to.
#[derive(Clone, Copy, Debug, PartialEq, Eq, Structural)]
pub struct SurfaceInfo {
    /// What of the picture the surface shows.
    pub clipping_rect: Rect,
    /// The scale and offset that take picture space to device space, when
    /// picture rectangles can be mapped there.
    pub pic_to_device: Option<ScaleOffset>,
}

/// The picture that the quad belongs to.
#[derive(Clone, Copy, Debug, PartialEq, Eq, Structural)]
pub struct PictureContext {
    pub raster_spatial_node: SpatialNode,
    pub surface: SurfaceInfo,
}

/// Lists and a classifier that are reused from quad to quad. Each use
/// clears what it needs first.
pub struct PrimitiveScratchBuffer {
    pub quad_direct_segments: Vec<QuadSegment>,
    pub quad_indirect_segments: Vec<QuadSegment>,
    pub quad_tile_classifier: QuadTileClassifier,
}

impl PrimitiveScratchBuffer {
    /// Empty segment lists and a disarmed classifier without regions.
    pub fn new() -> (scratch: PrimitiveScratchBuffer)
        ensures
            scratch.quad_direct_segments@ == Seq::<QuadSegment>::empty(),
            scratch.quad_indirect_segments@ == Seq::<QuadSegment>::empty(),
            scratch.quad_tile_classifier.wf(),
            scratch.quad_tile_classifier.x_tiles() == 0,
            scratch.quad_tile_classifier.y_tiles() == 0,
            scratch.quad_tile_classifier.rect() == Rect::spec_zero(),
            !scratch.quad_tile_classifier.force_masks(),
            scratch.quad_tile_classifier.mask_regions() == Seq::<Rect>::empty(),
            scratch.quad_tile_classifier.clip_in_regions() == Seq::<Rect>::empty(),
            scratch.quad_tile_classifier.clip_out_regions() == Seq::<Rect>::empty(),
    {
        PrimitiveScratchBuffer {
            quad_direct_segments: Vec::new(),
            quad_indirect_segments: Vec::new(),
            quad_tile_classifier: QuadTileClassifier::new(),
        }
    }
}

/// What stays the same over all draws of one quad.
#[derive(Clone, Copy, Debug, PartialEq, Eq, Structural)]
pub struct QuadParams {
    pub local_rect: LayoutRect,
    pub prim_instance_index: PrimitiveInstanceIndex,
    pub prim_spatial_node: SpatialNode,
    pub raster_spatial_node: SpatialNode,
    pub clip_chain: ClipChainInstance,
    pub local_to_device: Option<ScaleOffset>,
    pub transform_id: GpuTransformId,
    /// The edges that are anti-aliased.
    pub aa_flags: EdgeMask,
    /// The flags that hold of every draw of the quad.
    pub quad_flags: QuadFlags,
}

/// The state after the record of a quad with segments was written, the
/// segments were recorded, and the command that draws the quad was pushed
/// to each target. `command` is the command but for the address of the
/// record, which is the number of blocks written before.
pub open spec fn with_segmented_quad(
    state: FrameView,
    prim: QuadPrimitive,
    segments: Seq<QuadSegment>,
    command: QuadCommand,
    targets: Seq<CommandBufferIndex>,
) -> FrameView {
    FrameView {
        gpu: state.gpu + prim_blocks(prim, segments),
        segments: state.segments + segments,
        commands: state.commands + targeted(
            targets,
            None,
            PrimitiveCommand::Segments {
                start: state.segments.len() as usize,
                count: segments.len() as usize,
            },
        ) + targeted(
            targets,
            None,
            PrimitiveCommand::Quad(
                QuadCommand {
                    gpu_buffer_address: GpuBufferAddress { index: state.gpu.len() as usize },
                    ..command
                },
            ),
        ),
        ..state
    }
}

/// The command that draws segments of a quad with its pattern, straight
/// into the destination: clipped to the render task, without anti-aliasing.
pub open spec fn pattern_prim_command(
    pattern: Pattern,
    prim_instance_index: PrimitiveInstanceIndex,
    is_opaque: bool,
) -> QuadCommand {
    QuadCommand {
        pattern: pattern.kind,
        pattern_input: pattern.shader_input,
        src_task_id: pattern.texture_input.task_id,
        prim_instance_index,
        gpu_buffer_address: GpuBufferAddress { index: 0 },
        transform_id: GpuTransformId::Identity,
        quad_flags: QuadFlags {
            use_aa_segments: false,
            apply_render_task_clip: true,
            is_opaque,
            is_mask: false,
        },
        edge_flags: EdgeMask::spec_empty(),
    }
}

/// The command that composites the render tasks of a quad's segments into
/// the destination: clipped to the render task, without anti-aliasing.
pub open spec fn composite_prim_command(prim_instance_index: PrimitiveInstanceIndex) -> QuadCommand {
    QuadCommand {
        pattern: PatternKind::ColorOrTexture,
        pattern_input: PatternShaderInput { first: 0, second: 0 },
        src_task_id: RenderTaskId::spec_invalid(),
        prim_instance_index,
        gpu_buffer_address: GpuBufferAddress { index: 0 },
        transform_id: GpuTransformId::Identity,
        quad_flags: QuadFlags {
            use_aa_segments: false,
            apply_render_task_clip: true,
            is_opaque: false,
            is_mask: false,
        },
        edge_flags: EdgeMask::spec_empty(),
    }
}

/// The state after the direct segments of a quad were drawn with its
/// pattern.
pub open spec fn with_pattern_prim(
    state: FrameView,
    pattern: Pattern,
    pattern_transform: PatternTransform,
    prim_instance_index: PrimitiveInstanceIndex,
    rect: Rect,
    clip_rect: Rect,
    is_opaque: bool,
    targets: Seq<CommandBufferIndex>,
    segments: Seq<QuadSegment>,
) -> FrameView {
    with_segmented_quad(
        state,
        QuadPrimitive {
            bounds: rect,
            clip: clip_rect,
            input_task: pattern.texture_input.task_id,
            pattern_scale_offset: pattern_transform,
            color: pattern.base_color,
        },
        segments,
        pattern_prim_command(pattern, prim_instance_index, is_opaque),
        targets,
    )
}

/// The state after the masked segments of a quad were composited.
pub open spec fn with_composite_prim(
    state: FrameView,
    base_color: ColorU,
    prim_instance_index: PrimitiveInstanceIndex,
    rect: Rect,
    targets: Seq<CommandBufferIndex>,
    segments: Seq<QuadSegment>,
) -> FrameView {
    with_segmented_quad(
        state,
        QuadPrimitive {
            bounds: rect,
            clip: rect,
            input_task: RenderTaskId::spec_invalid(),
            pattern_scale_offset: PatternTransform::Identity,
            color: base_color,
        },
        segments,
        composite_prim_command(prim_instance_index),
        targets,
    )
}

/// Draws the direct segments of a quad with its pattern.
pub fn add_pattern_prim(
    pattern: &Pattern,
    pattern_transform: PatternTransform,
    prim_instance_index: PrimitiveInstanceIndex,
    rect: &DeviceRect,
    clip_rect: &DeviceRect,
    is_opaque: bool,
    frame_state: &mut FrameBuildingState,
    targets: &Vec<CommandBufferIndex>,
    segments: &Vec<QuadSegment>,
)
    ensures
        final(frame_state)@ == with_pattern_prim(
            old(frame_state)@,
            *pattern,
            pattern_transform,
            prim_instance_index,
            *rect,
            *clip_rect,
            is_opaque,
            targets@,
            segments@,
        ),
{
    let prim_address = write_device_prim_blocks(
        &mut frame_state.frame_gpu_data,
        rect,
        clip_rect,
        pattern.base_color,
        pattern.texture_input.task_id,
        segments,
        pattern_transform,
    );
    frame_state.set_segments(segments, targets);
    let mut quad_flags = QuadFlags::empty();
    quad_flags.apply_render_task_clip = true;
    if is_opaque {
        quad_flags.is_opaque = true;
    }
    frame_state.push_cmd(
        &PrimitiveCommand::Quad(
            QuadCommand {
                pattern: pattern.kind,
                pattern_input: pattern.shader_input,
                src_task_id: pattern.texture_input.task_id,
                prim_instance_index,
                gpu_buffer_address: prim_address,
                transform_id: GpuTransformId::Identity,
                quad_flags,
                edge_flags: EdgeMask::empty(),
            },
        ),
        targets,
    );
}

/// Composites the masked segments of a quad into the destination.
pub fn add_composite_prim(
    base_color: ColorU,
    prim_instance_index: PrimitiveInstanceIndex,
    rect: &DeviceRect,
    frame_state: &mut FrameBuildingState,
    targets: &Vec<CommandBufferIndex>,
    segments: &Vec<QuadSegment>,
)
    requires
        segments@.len() > 0,
    ensures
        final(frame_state)@ == with_composite_prim(
            old(frame_state)@,
            base_color,
            prim_instance_index,
            *rect,
            targets@,
            segments@,
        ),
{
    let composite_prim_address = write_device_prim_blocks(
        &mut frame_state.frame_gpu_data,
        rect,
        rect,
        base_color,
        RenderTaskId::invalid(),
        segments,
        PatternTransform::Identity,
    );
    frame_state.set_segments(segments, targets);
    let mut quad_flags = QuadFlags::empty();
    quad_flags.apply_render_task_clip = true;
    frame_state.push_cmd(
        &PrimitiveCommand::Quad(
            QuadCommand {
                pattern: PatternKind::ColorOrTexture,
                pattern_input: PatternShaderInput { first: 0, second: 0 },
                src_task_id: RenderTaskId::invalid(),
                prim_instance_index,
                gpu_buffer_address: composite_prim_address,
                transform_id: GpuTransformId::Identity,
                quad_flags,
                edge_flags: EdgeMask::empty(),
            },
        ),
        targets,
    );
}

/// Whether a quad is larger on screen than `MIN_AA_SEGMENTS_SIZE` device
/// units on both axes. Under a scale and offset its extent on screen is
/// that of its image in device space; otherwise it is the extent that the
/// mapping gives.
pub open spec fn exceeds_aa_size(local_rect: Rect, mapping: PrimitiveMapping) -> bool {
    match mapping.local_to_device {
        Some(t) => {
            let on_screen = t.spec_map_rect(local_rect);
            on_screen.spec_width() > MIN_AA_SEGMENTS_SIZE && on_screen.spec_height()
                > MIN_AA_SEGMENTS_SIZE
        },
        None => mapping.on_screen_size.width > MIN_AA_SEGMENTS_SIZE
            && mapping.on_screen_size.height > MIN_AA_SEGMENTS_SIZE,
    }
}

/// The flags that hold of every draw of a quad: anti-aliased strips only
/// for a quad that is larger on screen than `MIN_AA_SEGMENTS_SIZE` on
/// both axes, and clipping to the render task only under a scale and
/// offset.
pub open spec fn base_quad_flags(local_rect: Rect, mapping: PrimitiveMapping) -> QuadFlags {
    QuadFlags {
        use_aa_segments: exceeds_aa_size(local_rect, mapping),
        apply_render_task_clip: mapping.local_to_device.is_some(),
        is_opaque: false,
        is_mask: false,
    }
}

/// What stays the same over all draws of a quad. Under a scale and offset
/// the geometry is sent in device space with the identity transform,
/// otherwise in layout space with the transform to raster space. The
/// anti-aliased edges are those given for an axis-aligned primitive or
/// those given for a transformed one.
pub open spec fn quad_params(
    local_rect: Rect,
    aligned_aa_edges: EdgeMask,
    transformed_aa_edges: EdgeMask,
    prim_instance_index: PrimitiveInstanceIndex,
    prim_spatial_node: SpatialNode,
    clip_chain: ClipChainInstance,
    mapping: PrimitiveMapping,
    pic_context: PictureContext,
) -> QuadParams {
    QuadParams {
        local_rect,
        prim_instance_index,
        prim_spatial_node,
        raster_spatial_node: pic_context.raster_spatial_node,
        clip_chain,
        local_to_device: mapping.local_to_device,
        transform_id: if mapping.local_to_device.is_some() {
            GpuTransformId::Identity
        } else {
            GpuTransformId::PostScale {
                from: prim_spatial_node.index,
                to: pic_context.raster_spatial_node.index,
            }
        },
        aa_flags: if mapping.is_2d_axis_aligned {
            aligned_aa_edges
        } else {
            transformed_aa_edges
        },
        quad_flags: base_quad_flags(local_rect, mapping),
    }
}

/// `flags`, with the opaque flag set if the pattern is opaque.
pub open spec fn flags_with_pattern(flags: QuadFlags, pattern: Pattern) -> QuadFlags {
    QuadFlags { is_opaque: flags.is_opaque || pattern.is_opaque, ..flags }
}

/// The state after a quad was drawn directly: its record is written, its
/// command is pushed with its spatial node to each target, and the current
/// surface depends on the pattern's texture input, if it has one.
pub open spec fn with_direct_quad(
    state: FrameView,
    params: QuadParams,
    pattern: Pattern,
    targets: Seq<CommandBufferIndex>,
) -> FrameView {
    let quad = quad_primitive(
        params.local_rect,
        params.clip_chain.local_clip_rect,
        Rect::spec_max_rect(),
        params.local_to_device,
        pattern,
    );
    FrameView {
        gpu: state.gpu + prim_blocks(quad, Seq::empty()),
        commands: state.commands + targeted(
            targets,
            Some(params.prim_spatial_node.index),
            PrimitiveCommand::Quad(
                QuadCommand {
                    pattern: pattern.kind,
                    pattern_input: pattern.shader_input,
                    src_task_id: pattern.texture_input.task_id,
                    prim_instance_index: params.prim_instance_index,
                    gpu_buffer_address: GpuBufferAddress { index: state.gpu.len() as usize },
                    transform_id: params.transform_id,
                    quad_flags: flags_with_pattern(params.quad_flags, pattern),
                    edge_flags: params.aa_flags,
                },
            ),
        ),
        surface_tasks: if pattern.texture_input.task_id.spec_is_valid() {
            state.surface_tasks.push(pattern.texture_input.task_id)
        } else {
            state.surface_tasks
        },
        ..state
    }
}

/// Draws a quad directly into the destination.
pub fn prepare_direct(
    params: &QuadParams,
    pattern: &Pattern,
    frame_state: &mut FrameBuildingState,
    targets: &Vec<CommandBufferIndex>,
)
    ensures
        final(frame_state)@ == with_direct_quad(old(frame_state)@, *params, *pattern, targets@),
{
    let mut quad_flags = params.quad_flags;
    if pattern.is_opaque {
        quad_flags.is_opaque = true;
    }
    let quad = create_quad_primitive(
        &params.local_rect,
        &params.clip_chain.local_clip_rect,
        &Rect::max_rect(),
        params.local_to_device.as_ref(),
        pattern,
    );
    let no_segments: Vec<QuadSegment> = Vec::new();
    let main_prim_address = write_prim_blocks_impl(
        &mut frame_state.frame_gpu_data,
        quad.bounds,
        quad.clip,
        quad.color,
        quad.input_task,
        &no_segments,
        quad.pattern_scale_offset,
    );
    frame_state.push_prim(
        &PrimitiveCommand::Quad(
            QuadCommand {
                pattern: pattern.kind,
                pattern_input: pattern.shader_input,
                src_task_id: pattern.texture_input.task_id,
                prim_instance_index: params.prim_instance_index,
                gpu_buffer_address: main_prim_address,
                transform_id: params.transform_id,
                quad_flags,
                edge_flags: params.aa_flags,
            },
        ),
        params.prim_spatial_node.index,
        targets,
    );
    if pattern.texture_input.task_id.is_valid() {
        frame_state.add_child_render_task(pattern.texture_input.task_id);
    }
}

/// The part of the surface that a quad can show: what it covers in the
/// picture, cut to what the surface shows, in device space. Nothing when
/// picture rectangles cannot be mapped or the part has no interior.
pub open spec fn clipped_surface_rect(clip_chain: ClipChainInstance, surface: SurfaceInfo) -> Option<
    Rect,
> {
    match surface.pic_to_device {
        Some(t) => {
            let rect = t.spec_map_rect(
                clip_chain.pic_coverage_rect.spec_intersection_unchecked(surface.clipping_rect),
            );
            if rect.spec_is_empty() {
                None
            } else {
                Some(rect)
            }
        },
        None => None,
    }
}

/// Computes `clipped_surface_rect`.
pub fn compute_clipped_surface_rect(clip_chain: &ClipChainInstance, surface: &SurfaceInfo) -> (r:
    Option<DeviceRect>)
    ensures
        r == clipped_surface_rect(*clip_chain, *surface),
{
    match surface.pic_to_device {
        Some(t) => {
            let clipped_pic_rect = clip_chain.pic_coverage_rect.intersection_unchecked(
                &surface.clipping_rect,
            );
            let rect = t.map_rect(&clipped_pic_rect);
            if rect.is_empty() {
                None
            } else {
                Some(rect)
            }
        },
        None => None,
    }
}

/// The rectangle of the render task of a quad drawn indirectly: the
/// quad's clip where it is in device space and no edge is anti-aliased, so
/// that the quad covers the task exactly, and `clipped_surface_rect`
/// otherwise.
pub open spec fn indirect_task_rect(
    params: QuadParams,
    pattern: Pattern,
    clipped_surface_rect: Rect,
) -> Rect {
    if params.local_to_device.is_some() && params.aa_flags.spec_is_empty() {
        quad_primitive(
            params.local_rect,
            params.clip_chain.local_clip_rect,
            clipped_surface_rect,
            params.local_to_device,
            pattern,
        ).clip
    } else {
        clipped_surface_rect
    }
}

/// The state after a quad was drawn indirectly. Nothing changes when the
/// render task would have no area. Otherwise the quad's record is
/// written, a masked render task of the size of the task rectangle is
/// requested, under the cache key if there is one, and the task is
/// composited into the destination as a single segment.
pub open spec fn with_indirect_quad(
    state: FrameView,
    params: QuadParams,
    pattern: Pattern,
    base_color: ColorU,
    clipped_surface_rect: Rect,
    cache_key: Option<QuadCacheKey>,
    clip_store: ClipStore,
    targets: Seq<CommandBufferIndex>,
) -> FrameView {
    let quad = quad_primitive(
        params.local_rect,
        params.clip_chain.local_clip_rect,
        clipped_surface_rect,
        params.local_to_device,
        pattern,
    );
    let task_rect = indirect_task_rect(params, pattern, clipped_surface_rect);
    let task_size = task_rect.spec_size();
    if task_size.spec_is_empty() {
        state
    } else {
        let written = FrameView { gpu: state.gpu + prim_blocks(quad, Seq::empty()), ..state };
        let (requested, task_id) = with_requested_task(
            written,
            task_size,
            PrimTask {
                pattern: pattern.kind,
                pattern_input: pattern.shader_input,
                content_origin: task_rect.min,
                prim_address_f: GpuBufferAddress { index: state.gpu.len() as usize },
                transform_id: params.transform_id,
                edge_flags: params.aa_flags,
                quad_flags: flags_with_pattern(params.quad_flags, pattern),
                needs_scissor_rect: params.local_to_device.is_none(),
                texture_input: pattern.texture_input.task_id,
            },
            params.local_rect.spec_intersection_unchecked(params.clip_chain.local_clip_rect),
            params.clip_chain.clips_range,
            params.prim_spatial_node,
            params.raster_spatial_node,
            match cache_key {
                Some(key) => Some(RenderTaskCacheKey { size: task_size, kind: key }),
                None => None,
            },
            pattern.is_opaque && params.clip_chain.clips_range.count == 0,
            clip_store,
        );
        with_composite_prim(
            requested,
            base_color,
            params.prim_instance_index,
            task_rect,
            targets,
            seq![QuadSegment { rect: task_rect, task_id }],
        )
    }
}

/// Draws a quad through one masked render task and composites the task
/// into the destination.
pub fn prepare_indirect(
    params: &QuadParams,
    pattern: &Pattern,
    base_color: ColorU,
    clipped_surface_rect: &DeviceRect,
    cache_key: &Option<QuadCacheKey>,
    clip_store: &ClipStore,
    frame_state: &mut FrameBuildingState,
    targets: &Vec<CommandBufferIndex>,
)
    requires
        maskable(*clip_store, params.clip_chain.clips_range),
    ensures
        final(frame_state)@ == with_indirect_quad(
            old(frame_state)@,
            *params,
            *pattern,
            base_color,
            *clipped_surface_rect,
            *cache_key,
            *clip_store,
            targets@,
        ),
{
    let quad = create_quad_primitive(
        &params.local_rect,
        &params.clip_chain.local_clip_rect,
        clipped_surface_rect,
        params.local_to_device.as_ref(),
        pattern,
    );
    let mut task_rect = *clipped_surface_rect;
    if params.local_to_device.is_some() && params.aa_flags.is_empty() {
        task_rect = quad.clip;
    }
    let task_size = task_rect.size();
    if task_size.is_empty() {
        return ;
    }
    let no_segments: Vec<QuadSegment> = Vec::new();
    let main_prim_address = write_prim_blocks_impl(
        &mut frame_state.frame_gpu_data,
        quad.bounds,
        quad.clip,
        quad.color,
        quad.input_task,
        &no_segments,
        quad.pattern_scale_offset,
    );
    let task_cache_key = match cache_key {
        Some(key) => Some(RenderTaskCacheKey { size: task_size, kind: *key }),
        None => None,
    };
    let mut quad_flags = params.quad_flags;
    if pattern.is_opaque {
        quad_flags.is_opaque = true;
    }
    let coverage = params.local_rect.intersection_unchecked(&params.clip_chain.local_clip_rect);
    let task_id = add_render_task_with_mask(
        pattern,
        &coverage,
        task_size,
        task_rect.min,
        params.clip_chain.clips_range,
        &params.prim_spatial_node,
        &params.raster_spatial_node,
        main_prim_address,
        params.transform_id,
        params.aa_flags,
        quad_flags,
        params.local_to_device.is_none(),
        task_cache_key.as_ref(),
        clip_store,
        frame_state,
    );
    let mut segments: Vec<QuadSegment> = Vec::new();
    segments.push(QuadSegment { rect: task_rect, task_id });
    assert(segments@ =~= seq![QuadSegment { rect: task_rect, task_id }]);
    add_composite_prim(
        base_color,
        params.prim_instance_index,
        &task_rect,
        frame_state,
        targets,
        &segments,
    );
}

} // verus!
