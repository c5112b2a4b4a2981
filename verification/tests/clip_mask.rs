use quad_prep::clip::{
    BorderRadius, ClipItem, ClipItemKind, ClipMode, ClipNodeRange, ClipStore, SpatialNode,
    SpatialNodeIndex, VisibleMaskImageTile,
};
use quad_prep::clip_mask::{add_render_task_with_mask, prepare_clip_range, prepare_clip_task};
use quad_prep::flags::{EdgeMask, QuadFlags};
use quad_prep::frame::{
    CachedTask, ClipSpace, FrameBuildingState, ImageClipSubTask, PrimTask, RectangleClipSubTask,
    RenderTask, RenderTaskCacheKey, SubTask, SubTaskRange, TaskDependency,
};
use quad_prep::geometry::{Point, Rect, Size};
use quad_prep::gpu_types::{GpuBlock, GpuBufferAddress, GpuTransformId, PatternTransform};
use quad_prep::pattern::{
    ColorU, Pattern, PatternKind, PatternShaderInput, PatternTextureInput, RenderTaskId,
};
use quad_prep::strategy::QuadCacheKey;

fn rect(x0: i32, y0: i32, x1: i32, y1: i32) -> Rect {
    Rect::new(Point::new(x0, y0), Point::new(x1, y1))
}

fn node(index: u32, system: u32) -> SpatialNode {
    SpatialNode { index: SpatialNodeIndex { index }, uid: 100 + index as u64, coordinate_system_id: system }
}

fn clip(spatial_node: SpatialNode, kind: ClipItemKind) -> ClipItem {
    ClipItem {
        uid: 1,
        spatial_node,
        kind,
        rect_in_prim_space: None,
        to_device: None,
        inner_rect: None,
        can_use_fast_path: false,
        raster_transform_is_scale_offset: false,
        mask_tiles: ClipNodeRange { first: 0, count: 0 },
    }
}

fn radius() -> BorderRadius {
    BorderRadius {
        top_left: Size::new(1, 2),
        top_right: Size::new(3, 4),
        bottom_left: Size::new(5, 6),
        bottom_right: Size::new(7, 8),
    }
}

fn white_quad(r: Rect) -> Vec<GpuBlock> {
    vec![
        GpuBlock::Rect(r),
        GpuBlock::Rect(r),
        GpuBlock::Transform(PatternTransform::Identity),
        GpuBlock::Color(ColorU::white()),
        GpuBlock::Task(RenderTaskId::invalid()),
    ]
}

fn no_flags() -> QuadFlags {
    QuadFlags::empty()
}

fn clip_flag() -> QuadFlags {
    QuadFlags { apply_render_task_clip: true, ..QuadFlags::empty() }
}

fn idx(index: u32) -> SpatialNodeIndex {
    SpatialNodeIndex { index }
}

#[test]
fn rectangle_clip_in_the_raster_coordinate_system_is_masked_in_device_space() {
    let store = ClipStore { instances: Vec::new(), mask_tiles: Vec::new() };
    let item = clip(
        node(3, 0),
        ClipItemKind::Rectangle { rect: rect(1, 2, 30, 40), mode: ClipMode::ClipOut },
    );
    let mut state = FrameBuildingState::new();
    let mut range = state.begin_sub_tasks();
    prepare_clip_task(
        &item,
        &rect(0, 0, 64, 64),
        &rect(5, 5, 50, 50),
        &node(1, 7),
        &node(2, 0),
        &store,
        &mut state,
        &mut range,
    );
    let mut blocks = vec![
        GpuBlock::Rect(rect(1, 2, 30, 40)),
        GpuBlock::Values(0, 0, 0, 0),
        GpuBlock::Mode(ClipMode::ClipOut),
    ];
    blocks.extend(white_quad(rect(0, 0, 64, 64)));
    assert_eq!(state.frame_gpu_data.blocks, blocks);
    assert_eq!(
        state.sub_tasks,
        vec![SubTask::RectangleClip(RectangleClipSubTask {
            quad_address: GpuBufferAddress { index: 3 },
            quad_transform_id: GpuTransformId::Identity,
            clip_address: GpuBufferAddress { index: 0 },
            clip_transform_id: GpuTransformId::PreScale { from: idx(2), to: idx(3) },
            quad_flags: clip_flag(),
            clip_space: ClipSpace::Device,
            needs_scissor_rect: false,
            rounded_rect_fast_path: true,
        })]
    );
    assert_eq!(range, SubTaskRange { start: 0, end: 1 });
}

#[test]
fn rounded_clip_elsewhere_is_masked_in_primitive_space() {
    let store = ClipStore { instances: Vec::new(), mask_tiles: Vec::new() };
    let item = clip(
        node(3, 5),
        ClipItemKind::RoundedRectangle {
            rect: rect(1, 2, 30, 40),
            radius: radius(),
            mode: ClipMode::Clip,
        },
    );
    let mut state = FrameBuildingState::new();
    let mut range = state.begin_sub_tasks();
    prepare_clip_task(
        &item,
        &rect(0, 0, 64, 64),
        &rect(5, 5, 50, 50),
        &node(1, 7),
        &node(2, 0),
        &store,
        &mut state,
        &mut range,
    );
    let mut blocks = vec![
        GpuBlock::Rect(rect(1, 2, 30, 40)),
        GpuBlock::Values(1, 2, 3, 4),
        GpuBlock::Values(5, 6, 7, 8),
        GpuBlock::Mode(ClipMode::Clip),
    ];
    blocks.extend(white_quad(rect(3, 3, 52, 52)));
    assert_eq!(state.frame_gpu_data.blocks, blocks);
    assert_eq!(
        state.sub_tasks,
        vec![SubTask::RectangleClip(RectangleClipSubTask {
            quad_address: GpuBufferAddress { index: 4 },
            quad_transform_id: GpuTransformId::PostScale { from: idx(1), to: idx(2) },
            clip_address: GpuBufferAddress { index: 0 },
            clip_transform_id: GpuTransformId::Relative { from: idx(1), to: idx(3) },
            quad_flags: no_flags(),
            clip_space: ClipSpace::Primitive,
            needs_scissor_rect: true,
            rounded_rect_fast_path: false,
        })]
    );
}

#[test]
fn fast_path_record_has_one_radius_for_each_corner() {
    let store = ClipStore { instances: Vec::new(), mask_tiles: Vec::new() };
    let mut item = clip(
        node(3, 9),
        ClipItemKind::RoundedRectangle {
            rect: rect(1, 2, 30, 40),
            radius: radius(),
            mode: ClipMode::Clip,
        },
    );
    item.can_use_fast_path = true;
    let mut state = FrameBuildingState::new();
    let mut range = state.begin_sub_tasks();
    // The primitive lies in a coordinate system before that of the clip
    // and shares that of the raster node.
    prepare_clip_task(
        &item,
        &rect(0, 0, 64, 64),
        &rect(5, 5, 50, 50),
        &node(1, 4),
        &node(2, 4),
        &store,
        &mut state,
        &mut range,
    );
    assert_eq!(
        state.frame_gpu_data.blocks[..3],
        [
            GpuBlock::Rect(rect(1, 2, 30, 40)),
            GpuBlock::Values(7, 3, 5, 1),
            GpuBlock::Mode(ClipMode::Clip),
        ]
    );
    assert_eq!(state.frame_gpu_data.blocks.len(), 8);
    assert_eq!(
        state.sub_tasks,
        vec![SubTask::RectangleClip(RectangleClipSubTask {
            quad_address: GpuBufferAddress { index: 3 },
            quad_transform_id: GpuTransformId::PostScale { from: idx(1), to: idx(2) },
            clip_address: GpuBufferAddress { index: 0 },
            clip_transform_id: GpuTransformId::Relative { from: idx(3), to: idx(1) },
            quad_flags: clip_flag(),
            clip_space: ClipSpace::Primitive,
            needs_scissor_rect: false,
            rounded_rect_fast_path: true,
        })]
    );
}

fn image_store() -> ClipStore {
    ClipStore {
        instances: Vec::new(),
        mask_tiles: vec![
            VisibleMaskImageTile { tile_rect: rect(9, 9, 9, 9), task_id: RenderTaskId { index: 9 } },
            VisibleMaskImageTile { tile_rect: rect(0, 0, 8, 8), task_id: RenderTaskId { index: 20 } },
            VisibleMaskImageTile { tile_rect: rect(8, 0, 16, 8), task_id: RenderTaskId { index: 21 } },
        ],
    }
}

#[test]
fn image_clip_gives_one_mask_for_each_visible_tile() {
    let store = image_store();
    let mut item = clip(node(3, 0), ClipItemKind::Image { rect: rect(0, 0, 16, 8) });
    item.mask_tiles = ClipNodeRange { first: 1, count: 2 };
    item.raster_transform_is_scale_offset = true;
    let mut state = FrameBuildingState::new();
    let mut range = state.begin_sub_tasks();
    prepare_clip_task(
        &item,
        &rect(0, 0, 64, 64),
        &rect(5, 5, 50, 50),
        &node(1, 7),
        &node(2, 0),
        &store,
        &mut state,
        &mut range,
    );
    let mut blocks = white_quad(rect(0, 0, 16, 8));
    blocks.push(GpuBlock::Rect(rect(0, 0, 8, 8)));
    blocks.push(GpuBlock::Task(RenderTaskId { index: 20 }));
    blocks.extend(white_quad(rect(0, 0, 16, 8)));
    blocks.push(GpuBlock::Rect(rect(8, 0, 16, 8)));
    blocks.push(GpuBlock::Task(RenderTaskId { index: 21 }));
    assert_eq!(state.frame_gpu_data.blocks, blocks);
    let flags = QuadFlags { is_mask: true, apply_render_task_clip: true, ..QuadFlags::empty() };
    let transform = GpuTransformId::PostScale { from: idx(3), to: idx(2) };
    assert_eq!(
        state.sub_tasks,
        vec![
            SubTask::ImageClip(ImageClipSubTask {
                quad_address: GpuBufferAddress { index: 0 },
                quad_transform_id: transform,
                src_task: RenderTaskId { index: 20 },
                quad_flags: flags,
                needs_scissor_rect: false,
            }),
            SubTask::ImageClip(ImageClipSubTask {
                quad_address: GpuBufferAddress { index: 7 },
                quad_transform_id: transform,
                src_task: RenderTaskId { index: 21 },
                quad_flags: flags,
                needs_scissor_rect: false,
            }),
        ]
    );
    assert_eq!(range, SubTaskRange { start: 0, end: 2 });
}

#[test]
fn image_clip_under_a_general_transform_is_scissored() {
    let store = image_store();
    let mut item = clip(node(3, 0), ClipItemKind::Image { rect: rect(0, 0, 16, 8) });
    item.mask_tiles = ClipNodeRange { first: 0, count: 1 };
    let mut state = FrameBuildingState::new();
    let mut range = state.begin_sub_tasks();
    prepare_clip_task(
        &item,
        &rect(0, 0, 64, 64),
        &rect(5, 5, 50, 50),
        &node(1, 7),
        &node(2, 0),
        &store,
        &mut state,
        &mut range,
    );
    assert_eq!(
        state.sub_tasks,
        vec![SubTask::ImageClip(ImageClipSubTask {
            quad_address: GpuBufferAddress { index: 0 },
            quad_transform_id: GpuTransformId::PostScale { from: idx(3), to: idx(2) },
            src_task: RenderTaskId { index: 9 },
            quad_flags: QuadFlags { is_mask: true, ..QuadFlags::empty() },
            needs_scissor_rect: true,
        })]
    );
}

fn prim_task(origin: Point, address: usize, texture: RenderTaskId) -> PrimTask {
    PrimTask {
        pattern: PatternKind::ColorOrTexture,
        pattern_input: PatternShaderInput { first: 0, second: 0 },
        content_origin: origin,
        prim_address_f: GpuBufferAddress { index: address },
        transform_id: GpuTransformId::Identity,
        edge_flags: EdgeMask::empty(),
        quad_flags: QuadFlags::empty(),
        needs_scissor_rect: false,
        texture_input: texture,
    }
}

fn two_clip_store() -> ClipStore {
    ClipStore {
        instances: vec![
            clip(node(9, 9), ClipItemKind::BoxShadow),
            clip(
                node(3, 0),
                ClipItemKind::Rectangle { rect: rect(1, 2, 30, 40), mode: ClipMode::Clip },
            ),
            clip(
                node(4, 1),
                ClipItemKind::RoundedRectangle {
                    rect: rect(0, 0, 9, 9),
                    radius: radius(),
                    mode: ClipMode::Clip,
                },
            ),
        ],
        mask_tiles: Vec::new(),
    }
}

#[test]
fn clip_range_attaches_its_masks_to_the_task() {
    let store = two_clip_store();
    let mut state = FrameBuildingState::new();
    let first = state.add_task(RenderTask {
        size: Size::new(1, 1),
        kind: prim_task(Point::new(0, 0), 0, RenderTaskId::invalid()),
        sub_tasks: SubTaskRange { start: 0, end: 0 },
    });
    let second = state.add_task(RenderTask {
        size: Size::new(2, 2),
        kind: prim_task(Point::new(0, 0), 0, RenderTaskId::invalid()),
        sub_tasks: SubTaskRange { start: 0, end: 0 },
    });
    assert_eq!(first, RenderTaskId { index: 0 });
    assert_eq!(second, RenderTaskId { index: 1 });
    prepare_clip_range(
        ClipNodeRange { first: 1, count: 2 },
        second,
        &rect(0, 0, 64, 64),
        &rect(5, 5, 50, 50),
        &node(1, 0),
        &node(2, 0),
        &store,
        &mut state,
    );
    assert_eq!(state.frame_gpu_data.blocks.len(), 3 + 5 + 4 + 5);
    assert_eq!(state.sub_tasks.len(), 2);
    match state.sub_tasks[1] {
        SubTask::RectangleClip(task) => {
            assert_eq!(task.clip_address, GpuBufferAddress { index: 8 });
            assert_eq!(task.quad_address, GpuBufferAddress { index: 12 });
            assert_eq!(task.clip_space, ClipSpace::Primitive);
            assert_eq!(task.quad_flags, clip_flag());
        }
        _ => panic!("a rectangle mask was expected"),
    }
    assert_eq!(state.tasks[0].sub_tasks, SubTaskRange { start: 0, end: 0 });
    assert_eq!(state.tasks[1].sub_tasks, SubTaskRange { start: 0, end: 2 });
    assert_eq!(state.tasks[1].size, Size::new(2, 2));
}

fn textured(task: RenderTaskId, is_opaque: bool) -> Pattern {
    Pattern {
        kind: PatternKind::Gradient,
        shader_input: PatternShaderInput { first: 3, second: 4 },
        texture_input: PatternTextureInput { task_id: task },
        base_color: ColorU { r: 1, g: 2, b: 3, a: 255 },
        is_opaque,
    }
}

fn request(
    state: &mut FrameBuildingState,
    store: &ClipStore,
    range: ClipNodeRange,
    pattern: &Pattern,
    key: Option<&RenderTaskCacheKey>,
) -> RenderTaskId {
    add_render_task_with_mask(
        pattern,
        &rect(5, 5, 50, 50),
        Size::new(20, 10),
        Point::new(100, 200),
        range,
        &node(1, 0),
        &node(2, 0),
        GpuBufferAddress { index: 77 },
        GpuTransformId::PostScale { from: idx(1), to: idx(2) },
        EdgeMask::all(),
        QuadFlags { is_opaque: true, ..QuadFlags::empty() },
        true,
        key,
        store,
        state,
    )
}

#[test]
fn masked_task_without_clips_has_no_masks() {
    let store = two_clip_store();
    let mut state = FrameBuildingState::new();
    let pattern = textured(RenderTaskId::invalid(), true);
    let id = request(&mut state, &store, ClipNodeRange { first: 0, count: 0 }, &pattern, None);
    assert_eq!(id, RenderTaskId { index: 0 });
    assert_eq!(
        state.tasks,
        vec![RenderTask {
            size: Size::new(20, 10),
            kind: PrimTask {
                pattern: PatternKind::Gradient,
                pattern_input: PatternShaderInput { first: 3, second: 4 },
                content_origin: Point::new(100, 200),
                prim_address_f: GpuBufferAddress { index: 77 },
                transform_id: GpuTransformId::PostScale { from: idx(1), to: idx(2) },
                edge_flags: EdgeMask::all(),
                quad_flags: QuadFlags { is_opaque: true, ..QuadFlags::empty() },
                needs_scissor_rect: true,
                texture_input: RenderTaskId::invalid(),
            },
            sub_tasks: SubTaskRange { start: 0, end: 0 },
        }]
    );
    assert!(state.dependencies.is_empty());
    assert!(state.sub_tasks.is_empty());
    assert!(state.frame_gpu_data.blocks.is_empty());
    assert!(state.task_cache.is_empty());
    assert_eq!(state.surface_tasks, vec![id]);
}

#[test]
fn masked_task_depends_on_the_texture_of_its_pattern() {
    let store = two_clip_store();
    let mut state = FrameBuildingState::new();
    let pattern = textured(RenderTaskId { index: 40 }, false);
    let id = request(&mut state, &store, ClipNodeRange { first: 1, count: 1 }, &pattern, None);
    assert_eq!(
        state.dependencies,
        vec![TaskDependency { task: id, input: RenderTaskId { index: 40 } }]
    );
    // The mask covers the task: its rectangle starts at the content origin.
    let mut blocks = vec![
        GpuBlock::Rect(rect(1, 2, 30, 40)),
        GpuBlock::Values(0, 0, 0, 0),
        GpuBlock::Mode(ClipMode::Clip),
    ];
    blocks.extend(white_quad(rect(100, 200, 120, 210)));
    assert_eq!(state.frame_gpu_data.blocks, blocks);
    assert_eq!(state.tasks[0].sub_tasks, SubTaskRange { start: 0, end: 1 });
    assert_eq!(state.surface_tasks, vec![id]);
}

fn cache_key(prim: u64) -> RenderTaskCacheKey {
    RenderTaskCacheKey {
        size: Size::new(20, 10),
        kind: QuadCacheKey { prim, clips: [1, 2, u64::MAX], spatial_node: 3 },
    }
}

#[test]
fn a_cached_task_is_built_once() {
    let store = two_clip_store();
    let mut state = FrameBuildingState::new();
    let pattern = textured(RenderTaskId::invalid(), true);
    let none = ClipNodeRange { first: 0, count: 0 };
    let one = ClipNodeRange { first: 1, count: 1 };
    let a = request(&mut state, &store, none, &pattern, Some(&cache_key(5)));
    assert_eq!(a, RenderTaskId { index: 0 });
    assert_eq!(
        state.task_cache,
        vec![CachedTask { key: cache_key(5), task_id: a, is_opaque: true }]
    );
    assert_eq!(state.surface_tasks, vec![a]);

    let again = request(&mut state, &store, none, &pattern, Some(&cache_key(5)));
    assert_eq!(again, a);
    assert_eq!(state.tasks.len(), 1);
    assert_eq!(state.task_cache.len(), 1);
    assert_eq!(state.surface_tasks, vec![a]);

    let b = request(&mut state, &store, one, &pattern, Some(&cache_key(6)));
    assert_eq!(b, RenderTaskId { index: 1 });
    assert_eq!(state.tasks.len(), 2);
    assert_eq!(state.task_cache[1], CachedTask { key: cache_key(6), task_id: b, is_opaque: false });
    assert_eq!(state.surface_tasks, vec![a, b]);
    assert_eq!(state.find_cached_task(&cache_key(6)), Some(b));
    assert_eq!(state.find_cached_task(&cache_key(7)), None);
    let mut other_size = cache_key(5);
    other_size.size = Size::new(21, 10);
    assert_eq!(state.find_cached_task(&other_size), None);
    let mut other_clips = cache_key(5);
    other_clips.kind.clips[2] = 0;
    assert!(!other_clips.same(&cache_key(5)));
    assert!(cache_key(5).same(&cache_key(5)));
}
