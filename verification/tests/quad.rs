use quad_prep::clip::{
    BorderRadius, ClipChainInstance, ClipItem, ClipItemKind, ClipMode, ClipNodeRange, ClipStore,
    SpatialNode, SpatialNodeIndex,
};
use quad_prep::flags::{EdgeMask, QuadFlags};
use quad_prep::frame::{
    CommandBufferIndex, FrameBuildingState, PrimitiveCommand, PrimitiveInstanceIndex, QuadCommand,
    RenderTaskCacheKey, SubTaskRange, TargetedCommand,
};
use quad_prep::geometry::{Point, Rect, ScaleOffset, Size};
use quad_prep::gpu_types::{
    GpuBlock, GpuBufferAddress, GpuTransformId, PatternTransform, QuadSegment,
};
use quad_prep::nine_patch::{prepare_nine_patch, sort_four};
use quad_prep::pattern::{
    ColorU, Pattern, PatternKind, PatternShaderInput, PatternTextureInput, RenderTaskId,
};
use quad_prep::quad::{
    add_composite_prim, add_pattern_prim, compute_clipped_surface_rect, prepare_direct,
    prepare_indirect, PrimitiveScratchBuffer, QuadParams, SurfaceInfo,
};
use quad_prep::strategy::QuadCacheKey;

fn rect(x0: i32, y0: i32, x1: i32, y1: i32) -> Rect {
    Rect::new(Point::new(x0, y0), Point::new(x1, y1))
}

fn node(index: u32, system: u32) -> SpatialNode {
    SpatialNode { index: SpatialNodeIndex { index }, uid: 100 + index as u64, coordinate_system_id: system }
}

fn idx(index: u32) -> SpatialNodeIndex {
    SpatialNodeIndex { index }
}

fn targets() -> Vec<CommandBufferIndex> {
    vec![CommandBufferIndex { index: 0 }, CommandBufferIndex { index: 4 }]
}

fn pattern(texture: RenderTaskId, is_opaque: bool) -> Pattern {
    Pattern {
        kind: PatternKind::Gradient,
        shader_input: PatternShaderInput { first: 3, second: 4 },
        texture_input: PatternTextureInput { task_id: texture },
        base_color: ColorU { r: 1, g: 2, b: 3, a: 255 },
        is_opaque,
    }
}

fn params(local_to_device: Option<ScaleOffset>, aa_flags: EdgeMask, range: ClipNodeRange) -> QuadParams {
    QuadParams {
        local_rect: rect(0, 0, 100, 100),
        prim_instance_index: PrimitiveInstanceIndex { index: 12 },
        prim_spatial_node: node(1, 0),
        raster_spatial_node: node(2, 0),
        clip_chain: ClipChainInstance {
            clips_range: range,
            local_clip_rect: rect(-10, -10, 90, 200),
            pic_coverage_rect: rect(0, 0, 90, 100),
            needs_mask: true,
        },
        local_to_device,
        transform_id: match local_to_device {
            Some(_) => GpuTransformId::Identity,
            None => GpuTransformId::PostScale { from: idx(1), to: idx(2) },
        },
        aa_flags,
        quad_flags: QuadFlags {
            use_aa_segments: true,
            apply_render_task_clip: local_to_device.is_some(),
            is_opaque: false,
            is_mask: false,
        },
    }
}

fn no_clips() -> ClipNodeRange {
    ClipNodeRange { first: 0, count: 0 }
}

fn empty_store() -> ClipStore {
    ClipStore { instances: Vec::new(), mask_tiles: Vec::new() }
}

fn quad_command(
    p: &Pattern,
    address: usize,
    transform_id: GpuTransformId,
    quad_flags: QuadFlags,
    edge_flags: EdgeMask,
) -> PrimitiveCommand {
    PrimitiveCommand::Quad(QuadCommand {
        pattern: p.kind,
        pattern_input: p.shader_input,
        src_task_id: p.texture_input.task_id,
        prim_instance_index: PrimitiveInstanceIndex { index: 12 },
        gpu_buffer_address: GpuBufferAddress { index: address },
        transform_id,
        quad_flags,
        edge_flags,
    })
}

fn to_targets(command: PrimitiveCommand, spatial_node: Option<SpatialNodeIndex>) -> Vec<TargetedCommand> {
    targets().into_iter().map(|target| TargetedCommand { target, spatial_node, command }).collect()
}

fn composite_command(address: usize) -> PrimitiveCommand {
    PrimitiveCommand::Quad(QuadCommand {
        pattern: PatternKind::ColorOrTexture,
        pattern_input: PatternShaderInput { first: 0, second: 0 },
        src_task_id: RenderTaskId::invalid(),
        prim_instance_index: PrimitiveInstanceIndex { index: 12 },
        gpu_buffer_address: GpuBufferAddress { index: address },
        transform_id: GpuTransformId::Identity,
        quad_flags: QuadFlags { apply_render_task_clip: true, ..QuadFlags::empty() },
        edge_flags: EdgeMask::empty(),
    })
}

#[test]
fn pattern_prim_writes_record_segments_and_command() {
    let mut state = FrameBuildingState::new();
    state.segments.push(QuadSegment { rect: rect(9, 9, 9, 9), task_id: RenderTaskId::invalid() });
    let p = pattern(RenderTaskId { index: 5 }, true);
    let segments = vec![
        QuadSegment { rect: rect(0, 0, 5, 5), task_id: RenderTaskId::invalid() },
        QuadSegment { rect: rect(5, 0, 9, 5), task_id: RenderTaskId::invalid() },
    ];
    let t = ScaleOffset { scale: Point::new(2, 2), offset: Point::new(0, 0) };
    add_pattern_prim(
        &p,
        PatternTransform::InverseOf(t),
        PrimitiveInstanceIndex { index: 12 },
        &rect(0, 0, 10, 10),
        &rect(1, 1, 9, 9),
        true,
        &mut state,
        &targets(),
        &segments,
    );
    assert_eq!(state.frame_gpu_data.blocks.len(), 9);
    assert_eq!(state.frame_gpu_data.blocks[2], GpuBlock::Transform(PatternTransform::InverseOf(t)));
    assert_eq!(state.frame_gpu_data.blocks[4], GpuBlock::Task(RenderTaskId { index: 5 }));
    assert_eq!(state.segments.len(), 3);
    assert_eq!(state.segments[1..], segments[..]);
    let mut commands = to_targets(PrimitiveCommand::Segments { start: 1, count: 2 }, None);
    commands.extend(to_targets(
        quad_command(
            &p,
            0,
            GpuTransformId::Identity,
            QuadFlags { apply_render_task_clip: true, is_opaque: true, ..QuadFlags::empty() },
            EdgeMask::empty(),
        ),
        None,
    ));
    assert_eq!(state.commands, commands);
}

#[test]
fn composite_prim_samples_no_texture() {
    let mut state = FrameBuildingState::new();
    let segments = vec![QuadSegment { rect: rect(0, 0, 5, 5), task_id: RenderTaskId { index: 3 } }];
    add_composite_prim(
        ColorU { r: 9, g: 8, b: 7, a: 6 },
        PrimitiveInstanceIndex { index: 12 },
        &rect(0, 0, 10, 10),
        &mut state,
        &targets(),
        &segments,
    );
    assert_eq!(
        state.frame_gpu_data.blocks,
        vec![
            GpuBlock::Rect(rect(0, 0, 10, 10)),
            GpuBlock::Rect(rect(0, 0, 10, 10)),
            GpuBlock::Transform(PatternTransform::Identity),
            GpuBlock::Color(ColorU { r: 9, g: 8, b: 7, a: 6 }),
            GpuBlock::Task(RenderTaskId::invalid()),
            GpuBlock::Rect(rect(0, 0, 5, 5)),
            GpuBlock::Task(RenderTaskId { index: 3 }),
        ]
    );
    let mut commands = to_targets(PrimitiveCommand::Segments { start: 0, count: 1 }, None);
    commands.extend(to_targets(composite_command(0), None));
    assert_eq!(state.commands, commands);
}

#[test]
fn direct_quad_in_device_space() {
    let mut state = FrameBuildingState::new();
    let t = ScaleOffset { scale: Point::new(2, 2), offset: Point::new(1, 1) };
    let aa = EdgeMask { left: true, top: false, right: false, bottom: false };
    let p = pattern(RenderTaskId { index: 5 }, true);
    prepare_direct(&params(Some(t), aa, no_clips()), &p, &mut state, &targets());
    assert_eq!(
        state.frame_gpu_data.blocks,
        vec![
            GpuBlock::Rect(rect(1, 1, 201, 201)),
            GpuBlock::Rect(rect(-19, -19, 181, 401)),
            GpuBlock::Transform(PatternTransform::InverseOf(t)),
            GpuBlock::Color(ColorU { r: 1, g: 2, b: 3, a: 255 }),
            GpuBlock::Task(RenderTaskId { index: 5 }),
        ]
    );
    assert_eq!(
        state.commands,
        to_targets(
            quad_command(
                &p,
                0,
                GpuTransformId::Identity,
                QuadFlags {
                    use_aa_segments: true,
                    apply_render_task_clip: true,
                    is_opaque: true,
                    is_mask: false
                },
                aa,
            ),
            Some(idx(1)),
        )
    );
    assert_eq!(state.surface_tasks, vec![RenderTaskId { index: 5 }]);
    assert!(state.tasks.is_empty());
}

#[test]
fn direct_quad_in_layout_space() {
    let mut state = FrameBuildingState::new();
    let p = pattern(RenderTaskId::invalid(), false);
    prepare_direct(&params(None, EdgeMask::all(), no_clips()), &p, &mut state, &targets());
    assert_eq!(state.frame_gpu_data.blocks[0], GpuBlock::Rect(rect(0, 0, 100, 100)));
    assert_eq!(state.frame_gpu_data.blocks[1], GpuBlock::Rect(rect(-10, -10, 90, 200)));
    assert_eq!(state.frame_gpu_data.blocks[2], GpuBlock::Transform(PatternTransform::Identity));
    assert_eq!(
        state.commands,
        to_targets(
            quad_command(
                &p,
                0,
                GpuTransformId::PostScale { from: idx(1), to: idx(2) },
                QuadFlags {
                    use_aa_segments: true,
                    apply_render_task_clip: false,
                    is_opaque: false,
                    is_mask: false
                },
                EdgeMask::all(),
            ),
            Some(idx(1)),
        )
    );
    assert!(state.surface_tasks.is_empty());
}

#[test]
fn clipped_surface_rect_is_the_covered_part_of_the_surface() {
    let chain = ClipChainInstance {
        clips_range: no_clips(),
        local_clip_rect: Rect::max_rect(),
        pic_coverage_rect: rect(0, 0, 90, 100),
        needs_mask: true,
    };
    let t = ScaleOffset { scale: Point::new(2, 2), offset: Point::new(0, 0) };
    let surface = SurfaceInfo { clipping_rect: rect(10, -5, 50, 50), pic_to_device: Some(t) };
    assert_eq!(compute_clipped_surface_rect(&chain, &surface), Some(rect(20, 0, 100, 100)));
    let unmappable = SurfaceInfo { clipping_rect: rect(10, -5, 50, 50), pic_to_device: None };
    assert_eq!(compute_clipped_surface_rect(&chain, &unmappable), None);
    let outside = SurfaceInfo { clipping_rect: rect(90, 0, 500, 50), pic_to_device: Some(t) };
    assert_eq!(compute_clipped_surface_rect(&chain, &outside), None);
}

#[test]
fn indirect_quad_without_anti_aliasing_covers_its_task_exactly() {
    let mut state = FrameBuildingState::new();
    let t = ScaleOffset::identity();
    let p = pattern(RenderTaskId::invalid(), true);
    let key = QuadCacheKey { prim: 1, clips: [u64::MAX; 3], spatial_node: 2 };
    prepare_indirect(
        &params(Some(t), EdgeMask::empty(), no_clips()),
        &p,
        ColorU { r: 9, g: 9, b: 9, a: 9 },
        &rect(-50, 20, 500, 500),
        &Some(key),
        &empty_store(),
        &mut state,
        &targets(),
    );
    // The quad's clip is the local clip cut to the surface rectangle.
    let task_rect = rect(-10, 20, 90, 200);
    assert_eq!(state.frame_gpu_data.blocks[0], GpuBlock::Rect(rect(0, 0, 100, 100)));
    assert_eq!(state.frame_gpu_data.blocks[1], GpuBlock::Rect(task_rect));
    assert_eq!(state.tasks.len(), 1);
    assert_eq!(state.tasks[0].size, Size::new(100, 180));
    assert_eq!(state.tasks[0].kind.content_origin, Point::new(-10, 20));
    assert_eq!(state.tasks[0].kind.prim_address_f, GpuBufferAddress { index: 0 });
    assert!(state.tasks[0].kind.quad_flags.is_opaque);
    assert!(!state.tasks[0].kind.needs_scissor_rect);
    assert_eq!(state.tasks[0].sub_tasks, SubTaskRange { start: 0, end: 0 });
    assert_eq!(state.task_cache.len(), 1);
    assert_eq!(
        state.task_cache[0].key,
        RenderTaskCacheKey { size: Size::new(100, 180), kind: key }
    );
    assert!(state.task_cache[0].is_opaque);
    assert_eq!(state.surface_tasks, vec![RenderTaskId { index: 0 }]);
    assert_eq!(
        state.segments,
        vec![QuadSegment { rect: task_rect, task_id: RenderTaskId { index: 0 } }]
    );
    // The composite record follows the quad's record.
    assert_eq!(state.frame_gpu_data.blocks.len(), 5 + 7);
    assert_eq!(state.frame_gpu_data.blocks[5], GpuBlock::Rect(task_rect));
    assert_eq!(state.frame_gpu_data.blocks[8], GpuBlock::Color(ColorU { r: 9, g: 9, b: 9, a: 9 }));
    let mut commands = to_targets(PrimitiveCommand::Segments { start: 0, count: 1 }, None);
    commands.extend(to_targets(composite_command(5), None));
    assert_eq!(state.commands, commands);
}

#[test]
fn indirect_quad_with_anti_aliasing_uses_the_surface_rectangle() {
    let mut state = FrameBuildingState::new();
    let p = pattern(RenderTaskId::invalid(), false);
    prepare_indirect(
        &params(Some(ScaleOffset::identity()), EdgeMask::all(), no_clips()),
        &p,
        ColorU::white(),
        &rect(-50, 20, 500, 500),
        &None,
        &empty_store(),
        &mut state,
        &targets(),
    );
    assert_eq!(state.tasks[0].size, Size::new(550, 480));
    assert_eq!(state.tasks[0].kind.content_origin, Point::new(-50, 20));
    assert!(state.task_cache.is_empty());
    assert_eq!(state.segments[0].rect, rect(-50, 20, 500, 500));
}

#[test]
fn indirect_quad_without_area_draws_nothing() {
    let mut state = FrameBuildingState::new();
    let p = pattern(RenderTaskId::invalid(), false);
    prepare_indirect(
        &params(Some(ScaleOffset::identity()), EdgeMask::empty(), no_clips()),
        &p,
        ColorU::white(),
        &rect(90, 0, 500, 500),
        &None,
        &empty_store(),
        &mut state,
        &targets(),
    );
    assert!(state.frame_gpu_data.blocks.is_empty());
    assert!(state.tasks.is_empty());
    assert!(state.commands.is_empty());
}

#[test]
fn four_values_are_sorted() {
    assert_eq!(sort_four([4, 3, 2, 1]), [1, 2, 3, 4]);
    assert_eq!(sort_four([1, 2, 3, 4]), [1, 2, 3, 4]);
    assert_eq!(sort_four([0, 10, 5, 20]), [0, 5, 10, 20]);
    assert_eq!(sort_four([7, 7, -1, 7]), [-1, 7, 7, 7]);
    assert_eq!(sort_four([3, 1, 3, 1]), [1, 1, 3, 3]);
    assert_eq!(sort_four([i32::MAX, i32::MIN, 0, 0]), [i32::MIN, 0, 0, i32::MAX]);
}

fn rounded_store() -> ClipStore {
    let r = Size::new(10, 10);
    ClipStore {
        instances: vec![ClipItem {
            uid: 1,
            spatial_node: node(1, 0),
            kind: ClipItemKind::RoundedRectangle {
                rect: rect(0, 0, 100, 100),
                radius: BorderRadius { top_left: r, top_right: r, bottom_left: r, bottom_right: r },
                mode: ClipMode::Clip,
            },
            rect_in_prim_space: Some(rect(0, 0, 100, 100)),
            to_device: Some(ScaleOffset::identity()),
            inner_rect: None,
            can_use_fast_path: true,
            raster_transform_is_scale_offset: true,
            mask_tiles: ClipNodeRange { first: 0, count: 0 },
        }],
        mask_tiles: Vec::new(),
    }
}

#[test]
fn nine_patch_masks_the_four_corners() {
    let mut state = FrameBuildingState::new();
    let mut scratch = PrimitiveScratchBuffer::new();
    let store = rounded_store();
    let mut quad = params(
        Some(ScaleOffset::identity()),
        EdgeMask::empty(),
        ClipNodeRange { first: 0, count: 1 },
    );
    quad.clip_chain.local_clip_rect = rect(0, 0, 100, 100);
    let p = pattern(RenderTaskId::invalid(), true);
    prepare_nine_patch(
        &quad,
        &rect(0, 0, 100, 100),
        &rect(0, 0, 100, 100),
        Size::new(10, 10),
        &p,
        &store,
        &mut state,
        &mut scratch,
        &targets(),
    );
    let direct: Vec<Rect> = scratch.quad_direct_segments.iter().map(|s| s.rect).collect();
    assert_eq!(
        direct,
        vec![
            rect(10, 0, 90, 10),
            rect(0, 10, 10, 90),
            rect(10, 10, 90, 90),
            rect(90, 10, 100, 90),
            rect(10, 90, 90, 100),
        ]
    );
    assert!(scratch.quad_direct_segments.iter().all(|s| !s.task_id.is_valid()));
    assert_eq!(
        scratch.quad_indirect_segments,
        vec![
            QuadSegment { rect: rect(0, 0, 10, 10), task_id: RenderTaskId { index: 0 } },
            QuadSegment { rect: rect(90, 0, 100, 10), task_id: RenderTaskId { index: 1 } },
            QuadSegment { rect: rect(0, 90, 10, 100), task_id: RenderTaskId { index: 2 } },
            QuadSegment { rect: rect(90, 90, 100, 100), task_id: RenderTaskId { index: 3 } },
        ]
    );
    assert_eq!(state.tasks.len(), 4);
    for (i, task) in state.tasks.iter().enumerate() {
        assert_eq!(task.size, Size::new(10, 10));
        assert_eq!(task.kind.prim_address_f, GpuBufferAddress { index: 0 });
        assert!(task.kind.quad_flags.is_opaque);
        assert!(!task.kind.needs_scissor_rect);
        assert_eq!(task.sub_tasks, SubTaskRange { start: i, end: i + 1 });
    }
    assert_eq!(state.tasks[1].kind.content_origin, Point::new(90, 0));
    assert_eq!(state.surface_tasks.len(), 4);
    // One shared record, a clip record and a mask quad for each corner,
    // then the record of the direct segments and that of the composite.
    assert_eq!(state.frame_gpu_data.blocks.len(), 5 + 4 * 8 + (5 + 2 * 5) + (5 + 2 * 4));
    assert_eq!(state.segments.len(), 9);
    let mut commands = to_targets(PrimitiveCommand::Segments { start: 0, count: 5 }, None);
    commands.extend(to_targets(
        quad_command(
            &p,
            37,
            GpuTransformId::Identity,
            QuadFlags { apply_render_task_clip: true, is_opaque: true, ..QuadFlags::empty() },
            EdgeMask::empty(),
        ),
        None,
    ));
    commands.extend(to_targets(PrimitiveCommand::Segments { start: 5, count: 4 }, None));
    commands.extend(to_targets(composite_command(52), None));
    assert_eq!(state.commands, commands);
}

#[test]
fn nine_patch_skips_parts_between_coinciding_cuts() {
    let mut state = FrameBuildingState::new();
    let mut scratch = PrimitiveScratchBuffer::new();
    let store = rounded_store();
    let mut quad = params(
        Some(ScaleOffset::identity()),
        EdgeMask::empty(),
        ClipNodeRange { first: 0, count: 1 },
    );
    quad.clip_chain.local_clip_rect = rect(0, 0, 100, 100);
    let p = pattern(RenderTaskId::invalid(), false);
    // Corners of half the width: the two middle cuts coincide.
    prepare_nine_patch(
        &quad,
        &rect(0, 0, 100, 100),
        &rect(0, 0, 100, 100),
        Size::new(50, 10),
        &p,
        &store,
        &mut state,
        &mut scratch,
        &targets(),
    );
    let direct: Vec<Rect> = scratch.quad_direct_segments.iter().map(|s| s.rect).collect();
    assert_eq!(direct, vec![rect(0, 10, 50, 90), rect(50, 10, 100, 90)]);
    let indirect: Vec<Rect> = scratch.quad_indirect_segments.iter().map(|s| s.rect).collect();
    assert_eq!(
        indirect,
        vec![rect(0, 0, 50, 10), rect(50, 0, 100, 10), rect(0, 90, 50, 100), rect(50, 90, 100, 100)]
    );
}

#[test]
fn nine_patch_parts_are_cut_to_the_surface() {
    let mut state = FrameBuildingState::new();
    let mut scratch = PrimitiveScratchBuffer::new();
    let store = rounded_store();
    let mut quad = params(
        Some(ScaleOffset::identity()),
        EdgeMask::all(),
        ClipNodeRange { first: 0, count: 1 },
    );
    quad.clip_chain.local_clip_rect = rect(0, 0, 100, 100);
    let p = pattern(RenderTaskId::invalid(), false);
    prepare_nine_patch(
        &quad,
        &rect(0, 0, 95, 5),
        &rect(0, 0, 100, 100),
        Size::new(10, 10),
        &p,
        &store,
        &mut state,
        &mut scratch,
        &targets(),
    );
    let direct: Vec<Rect> = scratch.quad_direct_segments.iter().map(|s| s.rect).collect();
    assert_eq!(direct, vec![rect(10, 0, 90, 5)]);
    let indirect: Vec<Rect> = scratch.quad_indirect_segments.iter().map(|s| s.rect).collect();
    assert_eq!(indirect, vec![rect(0, 0, 10, 5), rect(90, 0, 95, 5)]);
    assert_eq!(state.tasks[1].size, Size::new(5, 5));
}

#[test]
fn fresh_scratch_buffer_is_empty() {
    let scratch = PrimitiveScratchBuffer::new();
    assert!(scratch.quad_direct_segments.is_empty());
    assert!(scratch.quad_indirect_segments.is_empty());
}
