use quad_prep::clip::{
    BorderRadius, ClipChainInstance, ClipItem, ClipItemKind, ClipMode, ClipNodeRange, ClipStore,
    SpatialNode, SpatialNodeIndex,
};
use quad_prep::flags::{EdgeMask, QuadFlags};
use quad_prep::frame::{FrameBuildingState, CommandBufferIndex, PrimitiveInstanceIndex, SubTaskRange};
use quad_prep::geometry::{DeviceRect, Point, Rect, ScaleOffset, Size};
use quad_prep::gpu_types::{GpuBlock, GpuBufferAddress, GpuTransformId, QuadSegment};
use quad_prep::pattern::{
    ColorU, Pattern, PatternBuilder, PatternKind, PatternShaderInput, PatternTextureInput,
    RenderTaskId, SolidColor,
};
use quad_prep::quad::{PrimitiveScratchBuffer, QuadParams};
use quad_prep::tile_classifier::{QuadTileClassifier, QuadTileInfo, QuadTileKind};
use quad_prep::tiles::{classify_quad_tiles, draw_tiles, prepare_tiles};

fn rect(x0: i32, y0: i32, x1: i32, y1: i32) -> Rect {
    Rect::new(Point::new(x0, y0), Point::new(x1, y1))
}

fn node(index: u32, system: u32) -> SpatialNode {
    SpatialNode { index: SpatialNodeIndex { index }, uid: 100 + index as u64, coordinate_system_id: system }
}

fn clip(kind: ClipItemKind, to_device: Option<ScaleOffset>) -> ClipItem {
    ClipItem {
        uid: 1,
        spatial_node: node(1, 0),
        kind,
        rect_in_prim_space: None,
        to_device,
        inner_rect: None,
        can_use_fast_path: true,
        raster_transform_is_scale_offset: true,
        mask_tiles: ClipNodeRange { first: 0, count: 0 },
    }
}

fn store(instances: Vec<ClipItem>) -> ClipStore {
    ClipStore { instances, mask_tiles: Vec::new() }
}

fn all_of(store: &ClipStore) -> ClipNodeRange {
    ClipNodeRange { first: 0, count: store.instances.len() as u32 }
}

const P: QuadTileKind = QuadTileKind::Pattern { has_mask: false };

const M: QuadTileKind = QuadTileKind::Pattern { has_mask: true };

fn classify(store: &ClipStore, grid: Rect, x: usize, y: usize, force: bool) -> Vec<(Rect, QuadTileKind)> {
    let mut classifier = QuadTileClassifier::new();
    let tiles = classify_quad_tiles(all_of(store), &grid, x, y, force, store, &mut classifier);
    tiles.iter().map(|t| (t.rect, t.kind)).collect()
}

fn identity() -> Option<ScaleOffset> {
    Some(ScaleOffset::identity())
}

#[test]
fn rectangle_clip_culls_the_tiles_outside_it() {
    let s = store(vec![clip(
        ClipItemKind::Rectangle { rect: rect(0, 0, 600, 300), mode: ClipMode::Clip },
        identity(),
    )]);
    assert_eq!(
        classify(&s, rect(0, 0, 1000, 300), 4, 2, false),
        vec![(rect(0, 0, 750, 150), P), (rect(0, 150, 750, 300), P)]
    );
}

#[test]
fn clip_is_mapped_to_device_space() {
    let double = ScaleOffset { scale: Point::new(2, 2), offset: Point::new(0, 0) };
    let s = store(vec![clip(
        ClipItemKind::Rectangle { rect: rect(0, 0, 300, 150), mode: ClipMode::Clip },
        Some(double),
    )]);
    assert_eq!(
        classify(&s, rect(0, 0, 1000, 300), 4, 2, false),
        vec![(rect(0, 0, 750, 150), P), (rect(0, 150, 750, 300), P)]
    );
}

#[test]
fn clip_out_rectangle_masks_the_surviving_tiles() {
    let s = store(vec![clip(
        ClipItemKind::Rectangle { rect: rect(250, 0, 500, 300), mode: ClipMode::ClipOut },
        identity(),
    )]);
    assert_eq!(
        classify(&s, rect(0, 0, 1000, 300), 4, 2, false),
        vec![
            (rect(0, 0, 250, 150), M),
            (rect(500, 0, 1000, 150), M),
            (rect(0, 150, 250, 300), M),
            (rect(500, 150, 1000, 300), M),
        ]
    );
}

#[test]
fn clip_in_an_unrelated_space_masks_every_tile() {
    let s = store(vec![clip(
        ClipItemKind::Rectangle { rect: rect(0, 0, 1, 1), mode: ClipMode::Clip },
        None,
    )]);
    assert_eq!(
        classify(&s, rect(0, 0, 1000, 300), 4, 2, false),
        vec![(rect(0, 0, 1000, 150), M), (rect(0, 150, 1000, 300), M)]
    );
}

#[test]
fn forced_masks_mask_every_tile() {
    let s = store(vec![]);
    assert_eq!(
        classify(&s, rect(0, 0, 600, 300), 2, 1, true),
        vec![(rect(0, 0, 600, 300), M)]
    );
}

fn radius(r: i32) -> BorderRadius {
    let r = Size::new(r, r);
    BorderRadius { top_left: r, top_right: r, bottom_left: r, bottom_right: r }
}

#[test]
fn rounded_clip_masks_its_corners() {
    let s = store(vec![clip(
        ClipItemKind::RoundedRectangle {
            rect: rect(0, 0, 1000, 400),
            radius: radius(20),
            mode: ClipMode::Clip,
        },
        identity(),
    )]);
    assert_eq!(
        classify(&s, rect(0, 0, 1000, 400), 4, 4, false),
        vec![
            (rect(0, 0, 250, 100), M),
            (rect(250, 0, 750, 100), P),
            (rect(750, 0, 1000, 100), M),
            (rect(0, 100, 1000, 200), P),
            (rect(0, 200, 1000, 300), P),
            (rect(0, 300, 250, 400), M),
            (rect(250, 300, 750, 400), P),
            (rect(750, 300, 1000, 400), M),
        ]
    );
}

#[test]
fn bottom_left_corner_is_placed_from_the_clip_as_given() {
    // Under a scale the bottom-left box does not follow the clip's image.
    let double = ScaleOffset { scale: Point::new(2, 2), offset: Point::new(0, 0) };
    let s = store(vec![clip(
        ClipItemKind::RoundedRectangle {
            rect: rect(0, 0, 500, 200),
            radius: radius(10),
            mode: ClipMode::Clip,
        },
        Some(double),
    )]);
    assert_eq!(
        classify(&s, rect(0, 0, 1000, 400), 4, 4, false),
        vec![
            (rect(0, 0, 250, 100), M),
            (rect(250, 0, 750, 100), P),
            (rect(750, 0, 1000, 100), M),
            (rect(0, 100, 250, 200), M),
            (rect(250, 100, 1000, 200), P),
            (rect(0, 200, 1000, 300), P),
            (rect(0, 300, 750, 400), P),
            (rect(750, 300, 1000, 400), M),
        ]
    );
}

#[test]
fn rounded_clip_out_uses_its_inner_rectangle() {
    let mut with_inner = clip(
        ClipItemKind::RoundedRectangle {
            rect: rect(200, 0, 800, 300),
            radius: radius(100),
            mode: ClipMode::ClipOut,
        },
        identity(),
    );
    with_inner.inner_rect = Some(rect(250, 0, 750, 300));
    assert_eq!(
        classify(&store(vec![with_inner]), rect(0, 0, 1000, 300), 4, 1, false),
        vec![(rect(0, 0, 250, 300), M), (rect(750, 0, 1000, 300), M)]
    );
    let without = clip(
        ClipItemKind::RoundedRectangle {
            rect: rect(300, 0, 700, 300),
            radius: radius(200),
            mode: ClipMode::ClipOut,
        },
        identity(),
    );
    assert_eq!(
        classify(&store(vec![without]), rect(0, 0, 1000, 300), 4, 1, false),
        vec![(rect(0, 0, 250, 300), P), (rect(250, 0, 750, 300), M), (rect(750, 0, 1000, 300), P)]
    );
}

fn params(local_to_device: Option<ScaleOffset>, range: ClipNodeRange) -> QuadParams {
    QuadParams {
        local_rect: rect(0, 0, 1000, 300),
        prim_instance_index: PrimitiveInstanceIndex { index: 12 },
        prim_spatial_node: node(1, 0),
        raster_spatial_node: node(2, 0),
        clip_chain: ClipChainInstance {
            clips_range: range,
            local_clip_rect: rect(0, 0, 1000, 300),
            pic_coverage_rect: rect(0, 0, 1000, 300),
            needs_mask: true,
        },
        local_to_device,
        transform_id: GpuTransformId::Identity,
        aa_flags: EdgeMask::empty(),
        quad_flags: QuadFlags {
            use_aa_segments: true,
            apply_render_task_clip: local_to_device.is_some(),
            is_opaque: false,
            is_mask: false,
        },
    }
}

fn targets() -> Vec<CommandBufferIndex> {
    vec![CommandBufferIndex { index: 0 }]
}

struct PerTile;

impl PatternBuilder for PerTile {
    fn build(&self, sub_rect: Option<DeviceRect>) -> Pattern {
        let rect = sub_rect.unwrap();
        Pattern {
            kind: PatternKind::Mask,
            shader_input: PatternShaderInput { first: rect.min.x, second: rect.min.y },
            texture_input: PatternTextureInput { task_id: RenderTaskId::invalid() },
            base_color: ColorU { r: 5, g: 5, b: 5, a: 5 },
            is_opaque: rect.min.x == 500 && rect.min.y == 0,
        }
    }

    fn get_base_color(&self) -> ColorU {
        ColorU { r: 6, g: 6, b: 6, a: 6 }
    }

    fn use_shared_pattern(&self) -> bool {
        false
    }

    fn can_use_nine_patch(&self) -> bool {
        false
    }
}

#[test]
fn tiles_with_a_shared_pattern_share_one_record() {
    let s = store(vec![clip(
        ClipItemKind::Rectangle { rect: rect(250, 0, 500, 300), mode: ClipMode::ClipOut },
        identity(),
    )]);
    let mut state = FrameBuildingState::new();
    let mut scratch = PrimitiveScratchBuffer::new();
    let builder = SolidColor { color: ColorU { r: 1, g: 1, b: 1, a: 255 } };
    let shared = builder.build(None);
    prepare_tiles(
        &params(identity(), all_of(&s)),
        &rect(0, 0, 1000, 300),
        4,
        2,
        &builder,
        Some(&shared),
        &s,
        &mut state,
        &mut scratch,
        &targets(),
    );
    assert!(scratch.quad_direct_segments.is_empty());
    assert_eq!(
        scratch.quad_indirect_segments,
        vec![
            QuadSegment { rect: rect(0, 0, 250, 150), task_id: RenderTaskId { index: 0 } },
            QuadSegment { rect: rect(500, 0, 1000, 150), task_id: RenderTaskId { index: 1 } },
            QuadSegment { rect: rect(0, 150, 250, 300), task_id: RenderTaskId { index: 2 } },
            QuadSegment { rect: rect(500, 150, 1000, 300), task_id: RenderTaskId { index: 3 } },
        ]
    );
    assert_eq!(state.tasks.len(), 4);
    for (i, task) in state.tasks.iter().enumerate() {
        assert_eq!(task.kind.prim_address_f, GpuBufferAddress { index: 0 });
        assert!(task.kind.quad_flags.is_opaque);
        assert_eq!(task.sub_tasks, SubTaskRange { start: i, end: i + 1 });
    }
    assert_eq!(state.tasks[1].size, Size::new(500, 150));
    assert_eq!(state.tasks[1].kind.content_origin, Point::new(500, 0));
    // The shared record, a mask for each task, the composite record.
    assert_eq!(state.frame_gpu_data.blocks.len(), 5 + 4 * 8 + (5 + 2 * 4));
    assert_eq!(state.frame_gpu_data.blocks[40], GpuBlock::Color(ColorU { r: 1, g: 1, b: 1, a: 255 }));
    assert_eq!(state.commands.len(), 2);
}

#[test]
fn tiles_without_a_shared_pattern_are_all_masked_and_built_one_by_one() {
    let s = store(vec![clip(
        ClipItemKind::Rectangle { rect: rect(0, 0, 1000, 300), mode: ClipMode::Clip },
        identity(),
    )]);
    let mut state = FrameBuildingState::new();
    let mut scratch = PrimitiveScratchBuffer::new();
    prepare_tiles(
        &params(identity(), all_of(&s)),
        &rect(0, 0, 1000, 300),
        2,
        2,
        &PerTile,
        None,
        &s,
        &mut state,
        &mut scratch,
        &targets(),
    );
    assert!(scratch.quad_direct_segments.is_empty());
    let rects: Vec<Rect> = scratch.quad_indirect_segments.iter().map(|s| s.rect).collect();
    assert_eq!(rects, vec![rect(0, 0, 1000, 150), rect(0, 150, 1000, 300)]);
    assert_eq!(state.tasks[0].kind.pattern_input, PatternShaderInput { first: 0, second: 0 });
    assert_eq!(state.tasks[1].kind.pattern_input, PatternShaderInput { first: 0, second: 150 });
    // Each tile has a record of its own, written before its masks.
    assert_eq!(state.tasks[0].kind.prim_address_f, GpuBufferAddress { index: 0 });
    assert_eq!(state.tasks[1].kind.prim_address_f, GpuBufferAddress { index: 13 });
    // The composite takes the colour that the builder gives.
    assert_eq!(state.frame_gpu_data.blocks[26 + 3], GpuBlock::Color(ColorU { r: 6, g: 6, b: 6, a: 6 }));
}

#[test]
fn opacity_of_one_tile_carries_over_to_the_tiles_after_it() {
    let s = store(vec![clip(
        ClipItemKind::Rectangle { rect: rect(250, 0, 500, 300), mode: ClipMode::ClipOut },
        identity(),
    )]);
    let mut state = FrameBuildingState::new();
    let mut scratch = PrimitiveScratchBuffer::new();
    prepare_tiles(
        &params(identity(), all_of(&s)),
        &rect(0, 0, 1000, 300),
        4,
        2,
        &PerTile,
        None,
        &s,
        &mut state,
        &mut scratch,
        &targets(),
    );
    let opaque: Vec<bool> = state.tasks.iter().map(|t| t.kind.quad_flags.is_opaque).collect();
    assert_eq!(opaque, vec![false, true, true, true]);
}

#[test]
fn unmasked_tiles_are_drawn_with_the_shared_pattern() {
    let s = store(vec![clip(
        ClipItemKind::Rectangle { rect: rect(0, 0, 600, 300), mode: ClipMode::Clip },
        identity(),
    )]);
    let mut state = FrameBuildingState::new();
    let mut scratch = PrimitiveScratchBuffer::new();
    let builder = SolidColor { color: ColorU { r: 1, g: 1, b: 1, a: 255 } };
    let shared = builder.build(None);
    prepare_tiles(
        &params(identity(), all_of(&s)),
        &rect(0, 0, 1000, 300),
        4,
        2,
        &builder,
        Some(&shared),
        &s,
        &mut state,
        &mut scratch,
        &targets(),
    );
    assert!(scratch.quad_indirect_segments.is_empty());
    assert_eq!(
        scratch.quad_direct_segments,
        vec![
            QuadSegment { rect: rect(0, 0, 750, 150), task_id: RenderTaskId::invalid() },
            QuadSegment { rect: rect(0, 150, 750, 300), task_id: RenderTaskId::invalid() },
        ]
    );
    assert!(state.tasks.is_empty());
    assert_eq!(state.frame_gpu_data.blocks.len(), 5 + (5 + 2 * 2));
    assert_eq!(state.commands.len(), 2);
}

#[test]
fn tiles_without_area_are_skipped() {
    let s = store(vec![]);
    let mut state = FrameBuildingState::new();
    let mut scratch = PrimitiveScratchBuffer::new();
    let tiles = vec![
        QuadTileInfo { rect: rect(0, 0, 0, 10), kind: M },
        QuadTileInfo { rect: rect(0, 0, 10, 0), kind: P },
        QuadTileInfo { rect: rect(0, 0, 10, 10), kind: QuadTileKind::Clipped },
        QuadTileInfo { rect: rect(0, 0, 10, 10), kind: M },
    ];
    let pattern = Pattern::color(ColorU::white());
    let patterns = vec![pattern; 4];
    draw_tiles(
        &params(identity(), all_of(&s)),
        &rect(0, 0, 1000, 300),
        &tiles,
        &patterns,
        Some(&pattern),
        ColorU::white(),
        &s,
        &mut state,
        &mut scratch,
        &targets(),
    );
    assert!(scratch.quad_direct_segments.is_empty());
    assert_eq!(
        scratch.quad_indirect_segments,
        vec![QuadSegment { rect: rect(0, 0, 10, 10), task_id: RenderTaskId { index: 0 } }]
    );
}
