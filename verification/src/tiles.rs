//! The tiled decomposition of a quad: a grid over the part of the surface
//! that the quad can show, each surviving tile drawn directly or through
//! a masked render task of its own.

use crate::clip::{ClipItem, ClipItemKind, ClipMode, ClipNodeRange, ClipStore};
use crate::clip_mask::{add_render_task_with_mask, maskable, with_requested_task};
use crate::flags::{EdgeMask, QuadFlags};
use crate::frame::{CommandBufferIndex, FrameBuildingState, FrameView, PrimTask};
use crate::geometry::{clamp_coord, sub_clamped, DeviceRect, Point, Rect, ScaleOffset};
use crate::gpu_types::{
    prim_blocks, write_prim_blocks, written_quad_primitive, GpuBufferAddress, PatternTransform,
    QuadSegment,
};
use crate::nine_patch::{with_segments_drawn, SegmentProgress};
use crate::pattern::{pattern_value, ColorU, Pattern, PatternBuilder, RenderTaskId};
use crate::quad::{
    add_composite_prim, add_pattern_prim, flags_with_pattern, PrimitiveScratchBuffer, QuadParams,
};
use crate::tile_classifier::{
    classified_cells, merged_tiles, QuadTileClassifier, QuadTileInfo,
    QuadTileKind, MAX_TILES_PER_QUAD,
};
use crate::tile_laws::lemma_merged_tiles_kinds;
use vstd::prelude::*;

verus! {

/// The regions that clips add to the tile classifier.
pub struct TileRegions {
    pub clip_in: Seq<Rect>,
    pub clip_out: Seq<Rect>,
    pub masks: Seq<Rect>,
}

impl TileRegions {
    pub open spec fn nothing() -> TileRegions {
        TileRegions { clip_in: Seq::empty(), clip_out: Seq::empty(), masks: Seq::empty() }
    }

    /// These regions followed by `next`.
    pub open spec fn followed_by(self, next: TileRegions) -> TileRegions {
        TileRegions {
            clip_in: self.clip_in + next.clip_in,
            clip_out: self.clip_out + next.clip_out,
            masks: self.masks + next.masks,
        }
    }
}

/// The regions of a clip rectangle in device space: in `Clip` mode a
/// region that tiles have to intersect, in `ClipOut` mode a region that
/// tiles must not lie within, together with the whole grid as a mask.
pub open spec fn clip_rect_regions(rect: Rect, mode: ClipMode, grid_rect: Rect) -> TileRegions {
    match mode {
        ClipMode::Clip => TileRegions {
            clip_in: seq![rect],
            clip_out: Seq::empty(),
            masks: Seq::empty(),
        },
        ClipMode::ClipOut => TileRegions {
            clip_in: Seq::empty(),
            clip_out: seq![rect],
            masks: seq![grid_rect],
        },
    }
}

/// The four corner boxes of a rounded rectangle under the transform `t`,
/// top left, top right, bottom right, bottom left. The first three are
/// placed from the rectangle's image in device space; the bottom-left box
/// is placed from the rectangle as given.
pub open spec fn corner_mask_regions(
    t: ScaleOffset,
    rect: Rect,
    radius: crate::clip::BorderRadius,
) -> Seq<Rect> {
    let device = t.spec_map_rect(rect);
    let r_tl = t.spec_map_size(radius.top_left);
    let r_tr = t.spec_map_size(radius.top_right);
    let r_br = t.spec_map_size(radius.bottom_right);
    let r_bl = t.spec_map_size(radius.bottom_left);
    seq![
        Rect::spec_from_origin_and_size(device.min, r_tl),
        Rect::spec_from_origin_and_size(
            Point { x: clamp_coord(device.max.x - r_tr.width) as i32, y: device.min.y },
            r_tr,
        ),
        Rect::spec_from_origin_and_size(
            Point {
                x: clamp_coord(device.max.x - r_br.width) as i32,
                y: clamp_coord(device.max.y - r_br.height) as i32,
            },
            r_br,
        ),
        Rect::spec_from_origin_and_size(
            Point { x: rect.min.x, y: clamp_coord(rect.max.y - r_bl.height) as i32 },
            r_bl,
        ),
    ]
}

/// The regions that one clip adds for a grid over `grid_rect`. A clip
/// whose space is not related to device space by a scale and an offset
/// masks the whole grid. A rectangle adds its image. A rounded rectangle
/// in `Clip` mode adds its image and masks its four corners; in `ClipOut`
/// mode it adds the image of its inner rectangle, or masks its image when
/// it has none.
pub open spec fn clip_regions(clip: ClipItem, grid_rect: Rect) -> TileRegions {
    match clip.to_device {
        None => TileRegions {
            clip_in: Seq::empty(),
            clip_out: Seq::empty(),
            masks: seq![grid_rect],
        },
        Some(t) => match clip.kind {
            ClipItemKind::Rectangle { rect, mode } => clip_rect_regions(
                t.spec_map_rect(rect),
                mode,
                grid_rect,
            ),
            ClipItemKind::RoundedRectangle { rect, radius, mode } => match mode {
                ClipMode::Clip => TileRegions {
                    clip_in: seq![t.spec_map_rect(rect)],
                    clip_out: Seq::empty(),
                    masks: corner_mask_regions(t, rect, radius),
                },
                ClipMode::ClipOut => match clip.inner_rect {
                    Some(inner) => clip_rect_regions(
                        t.spec_map_rect(inner),
                        ClipMode::ClipOut,
                        grid_rect,
                    ),
                    None => TileRegions {
                        clip_in: Seq::empty(),
                        clip_out: Seq::empty(),
                        masks: seq![t.spec_map_rect(rect)],
                    },
                },
            },
            _ => TileRegions::nothing(),
        },
    }
}

/// The regions that the first `n` clips of `range` add.
pub open spec fn range_regions(
    clip_store: ClipStore,
    range: ClipNodeRange,
    grid_rect: Rect,
    n: int,
) -> TileRegions
    decreases n,
{
    if n <= 0 {
        TileRegions::nothing()
    } else {
        range_regions(clip_store, range, grid_rect, n - 1).followed_by(
            clip_regions(clip_store.instances@[range.first + n - 1], grid_rect),
        )
    }
}

/// The clips of `range` can be tiled: they can be masked, and each of
/// them whose space is related to device space by a scale and an offset
/// is a rectangle or a rounded rectangle.
pub open spec fn tileable(clip_store: ClipStore, range: ClipNodeRange) -> bool {
    &&& maskable(clip_store, range)
    &&& forall|i: int|
        0 <= i < range.count ==> {
            let clip = #[trigger] clip_store.instances@[range.first + i];
            clip.to_device.is_some() ==> !(clip.kind is Image)
        }
}

/// The tiles of a quad: the cells of the grid over `grid_rect`, classified
/// against the regions of the clips of `range`, merged into runs.
pub open spec fn quad_tiles(
    clip_store: ClipStore,
    range: ClipNodeRange,
    grid_rect: Rect,
    x_tiles: int,
    y_tiles: int,
    force_masks: bool,
) -> Seq<QuadTileInfo> {
    let regions = range_regions(clip_store, range, grid_rect, range.count as int);
    merged_tiles(
        classified_cells(
            grid_rect,
            x_tiles,
            y_tiles,
            force_masks,
            regions.clip_in,
            regions.clip_out,
            regions.masks,
        ),
        0,
    )
}

/// Adds the regions of one clip to the classifier.
fn add_clip_regions(classifier: &mut QuadTileClassifier, clip: &ClipItem, grid_rect: &DeviceRect)
    requires
        old(classifier).wf(),
        old(classifier).rect() == *grid_rect,
        clip.to_device.is_some() ==> clip.kind is Rectangle || clip.kind is RoundedRectangle,
    ensures
        final(classifier).wf(),
        final(classifier).x_tiles() == old(classifier).x_tiles(),
        final(classifier).y_tiles() == old(classifier).y_tiles(),
        final(classifier).rect() == old(classifier).rect(),
        final(classifier).force_masks() == old(classifier).force_masks(),
        final(classifier).cells() == old(classifier).cells(),
        ({
            let added = clip_regions(*clip, old(classifier).rect());
            &&& final(classifier).clip_in_regions() == old(classifier).clip_in_regions()
                + added.clip_in
            &&& final(classifier).clip_out_regions() == old(classifier).clip_out_regions()
                + added.clip_out
            &&& final(classifier).mask_regions() == old(classifier).mask_regions() + added.masks
        }),
{
    let ghost added = clip_regions(*clip, *grid_rect);
    let ghost before_in = classifier.clip_in_regions();
    let ghost before_out = classifier.clip_out_regions();
    let ghost before_masks = classifier.mask_regions();
    let transform = match clip.to_device {
        Some(transform) => transform,
        None => {
            classifier.add_mask_region(*grid_rect);
            assert(classifier.clip_in_regions() =~= before_in + added.clip_in);
            assert(classifier.clip_out_regions() =~= before_out + added.clip_out);
            assert(classifier.mask_regions() =~= before_masks + added.masks);
            return ;
        },
    };
    match clip.kind {
        ClipItemKind::Rectangle { rect, mode } => {
            let rect = transform.map_rect(&rect);
            classifier.add_clip_rect(rect, mode);
        },
        ClipItemKind::RoundedRectangle { rect, radius, mode } => match mode {
            ClipMode::Clip => {
                let clip_device_rect = transform.map_rect(&rect);
                let r_tl = transform.map_size(&radius.top_left);
                let r_tr = transform.map_size(&radius.top_right);
                let r_br = transform.map_size(&radius.bottom_right);
                let r_bl = transform.map_size(&radius.bottom_left);
                let c_tl = Rect::from_origin_and_size(clip_device_rect.min, r_tl);
                let c_tr = Rect::from_origin_and_size(
                    Point::new(
                        sub_clamped(clip_device_rect.max.x, r_tr.width),
                        clip_device_rect.min.y,
                    ),
                    r_tr,
                );
                let c_br = Rect::from_origin_and_size(
                    Point::new(
                        sub_clamped(clip_device_rect.max.x, r_br.width),
                        sub_clamped(clip_device_rect.max.y, r_br.height),
                    ),
                    r_br,
                );
                let c_bl = Rect::from_origin_and_size(
                    Point::new(rect.min.x, sub_clamped(rect.max.y, r_bl.height)),
                    r_bl,
                );
                classifier.add_clip_rect(clip_device_rect, ClipMode::Clip);
                classifier.add_mask_region(c_tl);
                classifier.add_mask_region(c_tr);
                classifier.add_mask_region(c_br);
                classifier.add_mask_region(c_bl);
            },
            ClipMode::ClipOut => match clip.inner_rect {
                Some(inner_rect) => {
                    let rect = transform.map_rect(&inner_rect);
                    classifier.add_clip_rect(rect, ClipMode::ClipOut);
                },
                None => {
                    let clip_device_rect = transform.map_rect(&rect);
                    classifier.add_mask_region(clip_device_rect);
                },
            },
        },
        _ => {},
    }
    assert(classifier.clip_in_regions() =~= before_in + added.clip_in);
    assert(classifier.clip_out_regions() =~= before_out + added.clip_out);
    assert(classifier.mask_regions() =~= before_masks + added.masks);
}

/// Lays the grid of a quad over `grid_rect`, adds the regions of its clips
/// and classifies: the result is the tiles that survive, merged into runs.
pub fn classify_quad_tiles(
    clips_range: ClipNodeRange,
    grid_rect: &DeviceRect,
    x_tiles: usize,
    y_tiles: usize,
    force_masks: bool,
    clip_store: &ClipStore,
    classifier: &mut QuadTileClassifier,
) -> (tiles: Vec<QuadTileInfo>)
    requires
        old(classifier).wf(),
        old(classifier).x_tiles() == 0,
        old(classifier).y_tiles() == 0,
        x_tiles > 0,
        y_tiles > 0,
        x_tiles * y_tiles <= MAX_TILES_PER_QUAD,
        tileable(*clip_store, clips_range),
    ensures
        final(classifier).wf(),
        final(classifier).x_tiles() == 0,
        final(classifier).y_tiles() == 0,
        tiles@ == quad_tiles(
            *clip_store,
            clips_range,
            *grid_rect,
            x_tiles as int,
            y_tiles as int,
            force_masks,
        ),
{
    classifier.reset(x_tiles, y_tiles, *grid_rect, force_masks);
    let mut i: u32 = 0;
    while i < clips_range.count
        invariant
            i <= clips_range.count,
            tileable(*clip_store, clips_range),
            classifier.wf(),
            classifier.x_tiles() == x_tiles,
            classifier.y_tiles() == y_tiles,
            classifier.rect() == *grid_rect,
            classifier.force_masks() == force_masks,
            ({
                let regions = range_regions(*clip_store, clips_range, *grid_rect, i as int);
                &&& classifier.clip_in_regions() == regions.clip_in
                &&& classifier.clip_out_regions() == regions.clip_out
                &&& classifier.mask_regions() == regions.masks
            }),
        decreases clips_range.count - i,
    {
        let clip = clip_store.get_instance_from_range(&clips_range, i);
        assert(*clip == clip_store.instances@[clips_range.first + i]);
        add_clip_regions(classifier, clip, grid_rect);
        i += 1;
    }
    let mut tiles = classifier.classify();
    tiles.collect()
}

/// The state, the flags and the two segment lists while the tiles of a
/// quad are gone through. The opaque flag, once set by an opaque pattern,
/// stays set for the tiles that follow.
pub struct TileProgress {
    pub state: FrameView,
    pub quad_flags: QuadFlags,
    pub direct: Seq<QuadSegment>,
    pub indirect: Seq<QuadSegment>,
}

/// The progress after one more tile. A tile whose size is empty is
/// skipped. An unmasked tile is a direct segment. A masked tile is drawn
/// by a render task of its own, of the tile's size, from the quad's shared
/// record if there is one and else from a record written for the tile.
pub open spec fn tile_step(
    before: TileProgress,
    tile: QuadTileInfo,
    pattern: Pattern,
    shared_address: Option<GpuBufferAddress>,
    params: QuadParams,
    device_clip_rect: Rect,
    clip_store: ClipStore,
) -> TileProgress {
    let size = tile.rect.spec_size();
    match tile.kind {
        QuadTileKind::Clipped => before,
        QuadTileKind::Pattern { has_mask } => if size.spec_is_empty() {
            before
        } else if !has_mask {
            TileProgress {
                direct: before.direct.push(
                    QuadSegment { rect: tile.rect, task_id: RenderTaskId::spec_invalid() },
                ),
                ..before
            }
        } else {
            let quad_flags = flags_with_pattern(before.quad_flags, pattern);
            let written = match shared_address {
                Some(_) => before.state,
                None => FrameView {
                    gpu: before.state.gpu + prim_blocks(
                        written_quad_primitive(
                            params.local_rect,
                            params.clip_chain.local_clip_rect,
                            device_clip_rect,
                            params.local_to_device,
                            EdgeMask::spec_all(),
                            pattern,
                        ),
                        Seq::empty(),
                    ),
                    ..before.state
                },
            };
            let prim_address_f = match shared_address {
                Some(address) => address,
                None => GpuBufferAddress { index: before.state.gpu.len() as usize },
            };
            let (state, task_id) = with_requested_task(
                written,
                size,
                PrimTask {
                    pattern: pattern.kind,
                    pattern_input: pattern.shader_input,
                    content_origin: tile.rect.min,
                    prim_address_f,
                    transform_id: params.transform_id,
                    edge_flags: params.aa_flags,
                    quad_flags,
                    needs_scissor_rect: params.local_to_device.is_none(),
                    texture_input: pattern.texture_input.task_id,
                },
                params.local_rect,
                params.clip_chain.clips_range,
                params.prim_spatial_node,
                params.raster_spatial_node,
                None,
                pattern.is_opaque && params.clip_chain.clips_range.count == 0,
                clip_store,
            );
            TileProgress {
                state,
                quad_flags,
                direct: before.direct,
                indirect: before.indirect.push(QuadSegment { rect: tile.rect, task_id }),
            }
        },
    }
}

/// The progress after the first `n` tiles, tile `i` drawn with pattern
/// `i`.
pub open spec fn tiles_progress(
    start: TileProgress,
    tiles: Seq<QuadTileInfo>,
    patterns: Seq<Pattern>,
    shared_address: Option<GpuBufferAddress>,
    params: QuadParams,
    device_clip_rect: Rect,
    clip_store: ClipStore,
    n: int,
) -> TileProgress
    decreases n,
{
    if n <= 0 {
        start
    } else {
        tile_step(
            tiles_progress(
                start,
                tiles,
                patterns,
                shared_address,
                params,
                device_clip_rect,
                clip_store,
                n - 1,
            ),
            tiles[n - 1],
            patterns[n - 1],
            shared_address,
            params,
            device_clip_rect,
            clip_store,
        )
    }
}

/// The progress after all tiles of a quad were gone through. With a
/// shared pattern the quad's record is written once before, its clip
/// edges that are not anti-aliased taken from its bounds.
pub open spec fn drawn_tiles_progress(
    state: FrameView,
    params: QuadParams,
    device_clip_rect: Rect,
    tiles: Seq<QuadTileInfo>,
    patterns: Seq<Pattern>,
    shared_pattern: Option<Pattern>,
    clip_store: ClipStore,
) -> TileProgress {
    let written = match shared_pattern {
        Some(pattern) => FrameView {
            gpu: state.gpu + prim_blocks(
                written_quad_primitive(
                    params.local_rect,
                    params.clip_chain.local_clip_rect,
                    device_clip_rect,
                    params.local_to_device,
                    params.aa_flags.spec_complement(),
                    pattern,
                ),
                Seq::empty(),
            ),
            ..state
        },
        None => state,
    };
    let shared_address = match shared_pattern {
        Some(_) => Some(GpuBufferAddress { index: state.gpu.len() as usize }),
        None => None,
    };
    tiles_progress(
        TileProgress {
            state: written,
            quad_flags: params.quad_flags,
            direct: Seq::empty(),
            indirect: Seq::empty(),
        },
        tiles,
        patterns,
        shared_address,
        params,
        device_clip_rect,
        clip_store,
        tiles.len() as int,
    )
}

/// The state after the tiles of a quad were drawn: the tiles are gone
/// through, and the segments are drawn, the direct ones with the shared
/// pattern, the masked ones composited with `base_color`.
pub open spec fn with_tiles(
    state: FrameView,
    params: QuadParams,
    device_clip_rect: Rect,
    tiles: Seq<QuadTileInfo>,
    patterns: Seq<Pattern>,
    shared_pattern: Option<Pattern>,
    base_color: ColorU,
    clip_store: ClipStore,
    targets: Seq<CommandBufferIndex>,
) -> FrameView {
    let progress = drawn_tiles_progress(
        state,
        params,
        device_clip_rect,
        tiles,
        patterns,
        shared_pattern,
        clip_store,
    );
    with_segments_drawn(
        SegmentProgress {
            state: progress.state,
            direct: progress.direct,
            indirect: progress.indirect,
        },
        shared_pattern.unwrap(),
        base_color,
        PatternTransform::InverseOf(params.local_to_device.unwrap()),
        params,
        params.local_to_device.unwrap().spec_map_rect(params.local_rect),
        device_clip_rect,
        targets,
    )
}

/// An unmasked tile can only be drawn with a shared pattern under a scale
/// and offset.
pub open spec fn direct_tiles_drawable(
    tiles: Seq<QuadTileInfo>,
    params: QuadParams,
    shared_pattern: Option<Pattern>,
) -> bool {
    forall|i: int|
        0 <= i < tiles.len() && (#[trigger] tiles[i]).kind == (QuadTileKind::Pattern {
            has_mask: false,
        }) ==> shared_pattern.is_some() && params.local_to_device.is_some()
}

/// Draws the tiles of a quad, tile `i` with pattern `i`.
pub fn draw_tiles(
    params: &QuadParams,
    device_clip_rect: &DeviceRect,
    tiles: &Vec<QuadTileInfo>,
    patterns: &Vec<Pattern>,
    shared_pattern: Option<&Pattern>,
    base_color: ColorU,
    clip_store: &ClipStore,
    frame_state: &mut FrameBuildingState,
    scratch: &mut PrimitiveScratchBuffer,
    targets: &Vec<CommandBufferIndex>,
)
    requires
        patterns@.len() == tiles@.len(),
        maskable(*clip_store, params.clip_chain.clips_range),
        direct_tiles_drawable(
            tiles@,
            *params,
            match shared_pattern {
                Some(p) => Some(*p),
                None => None,
            },
        ),
    ensures
        final(frame_state)@ == with_tiles(
            old(frame_state)@,
            *params,
            *device_clip_rect,
            tiles@,
            patterns@,
            match shared_pattern {
                Some(p) => Some(*p),
                None => None,
            },
            base_color,
            *clip_store,
            targets@,
        ),
        final(scratch).quad_tile_classifier == old(scratch).quad_tile_classifier,
        ({
            let progress = drawn_tiles_progress(
                old(frame_state)@,
                *params,
                *device_clip_rect,
                tiles@,
                patterns@,
                pattern_value(shared_pattern),
                *clip_store,
            );
            &&& final(scratch).quad_direct_segments@ == progress.direct
            &&& final(scratch).quad_indirect_segments@ == progress.indirect
        }),
{
    let ghost shared = match shared_pattern {
        Some(p) => Some(*p),
        None => None,
    };
    let indirect_prim_address = match shared_pattern {
        Some(pattern) => Some(
            write_prim_blocks(
                &mut frame_state.frame_gpu_data,
                &params.local_rect,
                &params.clip_chain.local_clip_rect,
                device_clip_rect,
                params.local_to_device.as_ref(),
                params.aa_flags.complement(),
                pattern,
            ),
        ),
        None => None,
    };
    let ghost written = frame_state@;
    let ghost start = TileProgress {
        state: written,
        quad_flags: params.quad_flags,
        direct: Seq::empty(),
        indirect: Seq::empty(),
    };
    scratch.quad_direct_segments.clear();
    scratch.quad_indirect_segments.clear();
    let mut quad_flags = params.quad_flags;

    let mut i: usize = 0;
    while i < tiles.len()
        invariant
            i <= tiles.len(),
            patterns@.len() == tiles@.len(),
            maskable(*clip_store, params.clip_chain.clips_range),
            scratch.quad_tile_classifier == old(scratch).quad_tile_classifier,
            start == (TileProgress {
                state: written,
                quad_flags: params.quad_flags,
                direct: Seq::empty(),
                indirect: Seq::empty(),
            }),
            ({
                let progress = tiles_progress(
                    start,
                    tiles@,
                    patterns@,
                    indirect_prim_address,
                    *params,
                    *device_clip_rect,
                    *clip_store,
                    i as int,
                );
                &&& frame_state@ == progress.state
                &&& quad_flags == progress.quad_flags
                &&& scratch.quad_direct_segments@ == progress.direct
                &&& scratch.quad_indirect_segments@ == progress.indirect
                &&& progress.direct.len() > 0 ==> exists|j: int|
                    0 <= j < i && (#[trigger] tiles@[j]).kind == (QuadTileKind::Pattern {
                        has_mask: false,
                    })
            }),
        decreases tiles.len() - i,
    {
        let tile = tiles[i];
        let pattern = patterns[i];
        let ghost before = tiles_progress(
            start,
            tiles@,
            patterns@,
            indirect_prim_address,
            *params,
            *device_clip_rect,
            *clip_store,
            i as int,
        );
        i += 1;
        let is_direct = match tile.kind {
            QuadTileKind::Clipped => {
                continue ;
            },
            QuadTileKind::Pattern { has_mask } => !has_mask,
        };
        let tile_size = tile.rect.size();
        if tile_size.is_empty() {
            continue ;
        }
        if is_direct {
            scratch.quad_direct_segments.push(
                QuadSegment { rect: tile.rect, task_id: RenderTaskId::invalid() },
            );
            assert(tiles@[i - 1].kind == (QuadTileKind::Pattern { has_mask: false }));
        } else {
            if pattern.is_opaque {
                quad_flags.is_opaque = true;
            }
            let prim_address = match indirect_prim_address {
                Some(address) => address,
                None => write_prim_blocks(
                    &mut frame_state.frame_gpu_data,
                    &params.local_rect,
                    &params.clip_chain.local_clip_rect,
                    device_clip_rect,
                    params.local_to_device.as_ref(),
                    EdgeMask::all(),
                    &pattern,
                ),
            };
            let needs_scissor = params.local_to_device.is_none();
            let task_id = add_render_task_with_mask(
                &pattern,
                &params.local_rect,
                tile_size,
                tile.rect.min,
                params.clip_chain.clips_range,
                &params.prim_spatial_node,
                &params.raster_spatial_node,
                prim_address,
                params.transform_id,
                params.aa_flags,
                quad_flags,
                needs_scissor,
                None,
                clip_store,
                frame_state,
            );
            scratch.quad_indirect_segments.push(QuadSegment { rect: tile.rect, task_id });
        }
    }

    if scratch.quad_direct_segments.len() > 0 {
        match (params.local_to_device, shared_pattern) {
            (Some(local_to_device), Some(pattern)) => {
                let device_prim_rect = local_to_device.map_rect(&params.local_rect);
                add_pattern_prim(
                    pattern,
                    PatternTransform::InverseOf(local_to_device),
                    params.prim_instance_index,
                    &device_prim_rect,
                    device_clip_rect,
                    pattern.is_opaque,
                    frame_state,
                    targets,
                    &scratch.quad_direct_segments,
                );
            },
            _ => {},
        }
    }
    if scratch.quad_indirect_segments.len() > 0 {
        add_composite_prim(
            base_color,
            params.prim_instance_index,
            device_clip_rect,
            frame_state,
            targets,
            &scratch.quad_indirect_segments,
        );
    }
}

/// Whether a tile is drawn through a render task of its own.
pub open spec fn tile_needs_pattern(tile: QuadTileInfo) -> bool {
    tile.kind == (QuadTileKind::Pattern { has_mask: true }) && !tile.rect.spec_size().spec_is_empty()
}

/// The tiles of a quad drawn as a grid over `device_clip_rect`. Masks are
/// forced on all tiles unless the quad has a shared pattern and is under
/// a scale and offset.
pub open spec fn tiles_of_quad(
    params: QuadParams,
    device_clip_rect: Rect,
    x_tiles: int,
    y_tiles: int,
    has_shared_pattern: bool,
    clip_store: ClipStore,
) -> Seq<QuadTileInfo> {
    quad_tiles(
        clip_store,
        params.clip_chain.clips_range,
        device_clip_rect,
        x_tiles,
        y_tiles,
        params.local_to_device.is_none() || !has_shared_pattern,
    )
}

/// The state after a quad was drawn as a grid of `x_tiles` by `y_tiles`
/// tiles over `device_clip_rect`, tile `i` of `tiles_of_quad` with pattern
/// `i`.
pub open spec fn with_prepared_tiles(
    state: FrameView,
    params: QuadParams,
    device_clip_rect: Rect,
    x_tiles: int,
    y_tiles: int,
    patterns: Seq<Pattern>,
    shared_pattern: Option<Pattern>,
    base_color: ColorU,
    clip_store: ClipStore,
    targets: Seq<CommandBufferIndex>,
) -> FrameView {
    with_tiles(
        state,
        params,
        device_clip_rect,
        tiles_of_quad(
            params,
            device_clip_rect,
            x_tiles,
            y_tiles,
            shared_pattern.is_some(),
            clip_store,
        ),
        patterns,
        shared_pattern,
        base_color,
        clip_store,
        targets,
    )
}

/// Without a shared pattern, pattern `i` is an answer of the builder to
/// the rectangle of tile `i`, for each tile that is drawn through a render
/// task.
pub open spec fn tile_patterns_asked<P: PatternBuilder>(
    builder: &P,
    tiles: Seq<QuadTileInfo>,
    patterns: Seq<Pattern>,
    has_shared_pattern: bool,
) -> bool {
    forall|i: int|
        0 <= i < tiles.len() && !has_shared_pattern && tile_needs_pattern(#[trigger] tiles[i])
            ==> builder.may_build(Some(tiles[i].rect), patterns[i])
}

/// Draws a quad as a grid of tiles in device space. Without a shared
/// pattern the builder is asked for a pattern for each tile that is drawn
/// through a render task, and for the colour to composite with if there
/// is such a tile; it is asked for each such tile with the tile's
/// rectangle. Whatever it answers, the state is that of
/// `with_prepared_tiles` for the answers.
pub fn prepare_tiles<P: PatternBuilder>(
    params: &QuadParams,
    device_clip_rect: &DeviceRect,
    x_tiles: u16,
    y_tiles: u16,
    pattern_builder: &P,
    shared_pattern: Option<&Pattern>,
    clip_store: &ClipStore,
    frame_state: &mut FrameBuildingState,
    scratch: &mut PrimitiveScratchBuffer,
    targets: &Vec<CommandBufferIndex>,
)
    requires
        old(scratch).quad_tile_classifier.wf(),
        old(scratch).quad_tile_classifier.x_tiles() == 0,
        old(scratch).quad_tile_classifier.y_tiles() == 0,
        x_tiles > 0,
        y_tiles > 0,
        x_tiles * y_tiles <= MAX_TILES_PER_QUAD,
        tileable(*clip_store, params.clip_chain.clips_range),
    ensures
        final(scratch).quad_tile_classifier.wf(),
        final(scratch).quad_tile_classifier.x_tiles() == 0,
        final(scratch).quad_tile_classifier.y_tiles() == 0,
        exists|patterns: Seq<Pattern>, base_color: ColorU|
            patterns.len() == tiles_of_quad(
                *params,
                *device_clip_rect,
                x_tiles as int,
                y_tiles as int,
                shared_pattern.is_some(),
                *clip_store,
            ).len() && tile_patterns_asked(
                pattern_builder,
                tiles_of_quad(
                    *params,
                    *device_clip_rect,
                    x_tiles as int,
                    y_tiles as int,
                    shared_pattern.is_some(),
                    *clip_store,
                ),
                patterns,
                shared_pattern.is_some(),
            ) && final(scratch).quad_direct_segments@ == drawn_tiles_progress(
                old(frame_state)@,
                *params,
                *device_clip_rect,
                tiles_of_quad(
                    *params,
                    *device_clip_rect,
                    x_tiles as int,
                    y_tiles as int,
                    shared_pattern.is_some(),
                    *clip_store,
                ),
                patterns,
                pattern_value(shared_pattern),
                *clip_store,
            ).direct && final(scratch).quad_indirect_segments@ == drawn_tiles_progress(
                old(frame_state)@,
                *params,
                *device_clip_rect,
                tiles_of_quad(
                    *params,
                    *device_clip_rect,
                    x_tiles as int,
                    y_tiles as int,
                    shared_pattern.is_some(),
                    *clip_store,
                ),
                patterns,
                pattern_value(shared_pattern),
                *clip_store,
            ).indirect && final(frame_state)@ == #[trigger] with_prepared_tiles(
                old(frame_state)@,
                *params,
                *device_clip_rect,
                x_tiles as int,
                y_tiles as int,
                patterns,
                pattern_value(shared_pattern),
                base_color,
                *clip_store,
                targets@,
            ),
{
    let ghost shared = match shared_pattern {
        Some(p) => Some(*p),
        None => None,
    };
    let force_masks = params.local_to_device.is_none() || shared_pattern.is_none();
    let tiles = classify_quad_tiles(
        params.clip_chain.clips_range,
        device_clip_rect,
        x_tiles as usize,
        y_tiles as usize,
        force_masks,
        clip_store,
        &mut scratch.quad_tile_classifier,
    );
    proof {
        let regions = range_regions(
            *clip_store,
            params.clip_chain.clips_range,
            *device_clip_rect,
            params.clip_chain.clips_range.count as int,
        );
        let cells = classified_cells(
            *device_clip_rect,
            x_tiles as int,
            y_tiles as int,
            force_masks,
            regions.clip_in,
            regions.clip_out,
            regions.masks,
        );
        if force_masks {
            let holds = |kind: QuadTileKind| kind != (QuadTileKind::Pattern { has_mask: false });
            assert forall|j: int|
                0 <= j < cells.len() && (#[trigger] cells[j]).kind
                    != QuadTileKind::Clipped implies holds(cells[j].kind) by {}
            lemma_merged_tiles_kinds(cells, 0, holds);
            assert forall|i: int| 0 <= i < tiles@.len() implies (#[trigger] tiles@[i]).kind != (
            QuadTileKind::Pattern { has_mask: false }) by {
                assert(holds(merged_tiles(cells, 0)[i].kind));
            }
        }
        assert(direct_tiles_drawable(tiles@, *params, shared));
    }
    let mut patterns: Vec<Pattern> = Vec::new();
    let mut any_masked = false;
    let mut i: usize = 0;
    while i < tiles.len()
        invariant
            i <= tiles.len(),
            patterns@.len() == i,
            forall|k: int|
                0 <= k < i && shared_pattern.is_none() && tile_needs_pattern(#[trigger] tiles@[k])
                    ==> pattern_builder.may_build(Some(tiles@[k].rect), patterns@[k]),
        decreases tiles.len() - i,
    {
        let tile = tiles[i];
        let masked = match tile.kind {
            QuadTileKind::Pattern { has_mask } => has_mask && !tile.rect.size().is_empty(),
            QuadTileKind::Clipped => false,
        };
        if masked {
            any_masked = true;
        }
        let pattern = match shared_pattern {
            Some(pattern) => *pattern,
            None => {
                if masked {
                    pattern_builder.build(Some(tile.rect))
                } else {
                    Pattern::color(ColorU::white())
                }
            },
        };
        patterns.push(pattern);
        i += 1;
    }
    let base_color = if any_masked {
        pattern_builder.get_base_color()
    } else {
        ColorU::white()
    };
    let ghost before = frame_state@;
    assert(tile_patterns_asked(pattern_builder, tiles@, patterns@, shared_pattern.is_some()));
    draw_tiles(
        params,
        device_clip_rect,
        &tiles,
        &patterns,
        shared_pattern,
        base_color,
        clip_store,
        frame_state,
        scratch,
        targets,
    );
    assert(frame_state@ == with_prepared_tiles(
        before,
        *params,
        *device_clip_rect,
        x_tiles as int,
        y_tiles as int,
        patterns@,
        pattern_value(shared_pattern),
        base_color,
        *clip_store,
        targets@,
    ));
}

} // verus!
