//! The nine-patch of a quad under a single rounded-rectangle clip: two
//! corner boxes cut the quad into up to three by three parts, of which
//! only the four corners need a mask.

use crate::clip::ClipStore;
use crate::clip_mask::{add_render_task_with_mask, maskable, with_requested_task};
use crate::frame::{CommandBufferIndex, FrameBuildingState, FrameView, PrimTask};
use crate::geometry::{
    clamp_coord, sub_clamped, DeviceRect, LayoutRect, LayoutVector2D, Point, Rect, ScaleOffset,
    Size,
};
use crate::gpu_types::{
    prim_blocks, write_device_prim_blocks, GpuBufferAddress, PatternTransform, QuadPrimitive,
    QuadSegment,
};
use crate::pattern::{Pattern, RenderTaskId};
use crate::quad::{
    add_composite_prim, add_pattern_prim, flags_with_pattern, with_composite_prim,
    with_pattern_prim, PrimitiveScratchBuffer, QuadParams,
};
use vstd::prelude::*;

verus! {

/// Number of values of `vals` below `v`.
pub open spec fn count_below(vals: Seq<i32>, v: int) -> int {
    (if vals[0] < v { 1int } else { 0 }) + (if vals[1] < v { 1int } else { 0 }) + (if vals[2] < v {
        1int
    } else {
        0
    }) + (if vals[3] < v { 1int } else { 0 })
}

/// Number of values of `vals` that are at most `v`.
pub open spec fn count_up_to(vals: Seq<i32>, v: int) -> int {
    (if vals[0] <= v { 1int } else { 0 }) + (if vals[1] <= v { 1int } else { 0 }) + (if vals[2]
        <= v { 1int } else { 0 }) + (if vals[3] <= v { 1int } else { 0 })
}

/// Whether `vals[i]` stands at place `k` when the four values are put in
/// ascending order.
pub open spec fn has_rank(vals: Seq<i32>, i: int, k: int) -> bool {
    count_below(vals, vals[i] as int) <= k < count_up_to(vals, vals[i] as int)
}

/// The value at place `k` of four values put in ascending order.
pub open spec fn kth_of_four(vals: Seq<i32>, k: int) -> i32 {
    if has_rank(vals, 0, k) {
        vals[0]
    } else if has_rank(vals, 1, k) {
        vals[1]
    } else if has_rank(vals, 2, k) {
        vals[2]
    } else {
        vals[3]
    }
}

/// Four values in ascending order.
pub open spec fn sorted_four(vals: Seq<i32>) -> Seq<i32> {
    seq![kth_of_four(vals, 0), kth_of_four(vals, 1), kth_of_four(vals, 2), kth_of_four(vals, 3)]
}

/// Puts four values in ascending order.
pub fn sort_four(vals: [i32; 4]) -> (sorted: [i32; 4])
    ensures
        sorted@ == sorted_four(vals@),
        sorted[0] <= sorted[1] <= sorted[2] <= sorted[3],
{
    let (a, b) = if vals[0] <= vals[1] {
        (vals[0], vals[1])
    } else {
        (vals[1], vals[0])
    };
    let (c, d) = if vals[2] <= vals[3] {
        (vals[2], vals[3])
    } else {
        (vals[3], vals[2])
    };
    let (lo, m1) = if a <= c {
        (a, c)
    } else {
        (c, a)
    };
    let (m2, hi) = if b <= d {
        (b, d)
    } else {
        (d, b)
    };
    let (mid_lo, mid_hi) = if m1 <= m2 {
        (m1, m2)
    } else {
        (m2, m1)
    };
    let sorted = [lo, mid_lo, mid_hi, hi];
    assert(sorted@ =~= sorted_four(vals@));
    sorted
}

/// The device-space geometry of a nine-patch.
pub struct NinePatchGeometry {
    /// The quad in device space.
    pub device_prim_rect: Rect,
    /// The quad's clip in device space, cut to the surface.
    pub device_clip_rect: Rect,
    /// What the parts are cut to: per edge the clip where the edge is not
    /// anti-aliased, the surface rectangle where it is.
    pub part_clip: Rect,
    /// The four vertical cuts, ascending.
    pub xs: Seq<i32>,
    /// The four horizontal cuts, ascending.
    pub ys: Seq<i32>,
}

/// The box from `max` minus `extent` to `max`.
pub open spec fn box_before(max: Point, extent: Size) -> Rect {
    Rect {
        min: Point {
            x: clamp_coord(max.x - extent.width) as i32,
            y: clamp_coord(max.y - extent.height) as i32,
        },
        max,
    }
}

/// The geometry of the nine-patch of a quad: the cuts are the edges of the
/// corner box at the `min` corner of `ninepatch_rect` and of the one at
/// its `max` corner, both of the extent `radius`, in device space.
pub open spec fn nine_patch_geometry(
    params: QuadParams,
    clipped_surface_rect: Rect,
    ninepatch_rect: Rect,
    radius: Size,
) -> NinePatchGeometry {
    let t = params.local_to_device.unwrap();
    let device_clip_rect = t.spec_map_rect(
        params.clip_chain.local_clip_rect,
    ).spec_intersection_unchecked(clipped_surface_rect);
    let c0 = t.spec_map_rect(Rect::spec_from_origin_and_size(ninepatch_rect.min, radius));
    let c1 = t.spec_map_rect(box_before(ninepatch_rect.max, radius));
    NinePatchGeometry {
        device_prim_rect: t.spec_map_rect(params.local_rect),
        device_clip_rect,
        part_clip: params.aa_flags.spec_complement().spec_select(
            device_clip_rect,
            clipped_surface_rect,
        ),
        xs: sorted_four(seq![c0.min.x, c0.max.x, c1.min.x, c1.max.x]),
        ys: sorted_four(seq![c0.min.y, c0.max.y, c1.min.y, c1.max.y]),
    }
}

/// Part `k` of a nine-patch, counted row by row: the box between two
/// neighbouring cuts on each axis, cut to `part_clip`. Nothing when two
/// cuts coincide or nothing of the part is left.
pub open spec fn nine_patch_part(geometry: NinePatchGeometry, k: int) -> Option<Rect> {
    let x = k % 3;
    let y = k / 3;
    if geometry.ys[y + 1] <= geometry.ys[y] || geometry.xs[x + 1] <= geometry.xs[x] {
        None
    } else {
        (Rect {
            min: Point { x: geometry.xs[x], y: geometry.ys[y] },
            max: Point { x: geometry.xs[x + 1], y: geometry.ys[y + 1] },
        }).spec_intersection(geometry.part_clip)
    }
}

/// Whether part `k` is one of the four corners.
pub open spec fn is_corner_part(k: int) -> bool {
    k % 3 != 1 && k / 3 != 1
}

/// The state and the two segment lists while the parts of a quad are
/// gone through.
pub struct SegmentProgress {
    pub state: FrameView,
    pub direct: Seq<QuadSegment>,
    pub indirect: Seq<QuadSegment>,
}

/// The render task that draws the corner part `rect` of a nine-patch.
pub open spec fn corner_task(
    params: QuadParams,
    pattern: Pattern,
    prim_address_f: GpuBufferAddress,
    rect: Rect,
) -> PrimTask {
    PrimTask {
        pattern: pattern.kind,
        pattern_input: pattern.shader_input,
        content_origin: rect.min,
        prim_address_f,
        transform_id: params.transform_id,
        edge_flags: params.aa_flags,
        quad_flags: flags_with_pattern(params.quad_flags, pattern),
        needs_scissor_rect: false,
        texture_input: pattern.texture_input.task_id,
    }
}

/// The progress after the first `n` parts of a nine-patch: each part that
/// is left is a masked segment with a render task of its own if it is a
/// corner, and a direct segment otherwise.
pub open spec fn nine_patch_progress(
    start: FrameView,
    geometry: NinePatchGeometry,
    params: QuadParams,
    pattern: Pattern,
    prim_address_f: GpuBufferAddress,
    clip_store: ClipStore,
    n: int,
) -> SegmentProgress
    decreases n,
{
    if n <= 0 {
        SegmentProgress { state: start, direct: Seq::empty(), indirect: Seq::empty() }
    } else {
        let before = nine_patch_progress(
            start,
            geometry,
            params,
            pattern,
            prim_address_f,
            clip_store,
            n - 1,
        );
        match nine_patch_part(geometry, n - 1) {
            None => before,
            Some(rect) => if is_corner_part(n - 1) {
                let (state, task_id) = with_requested_task(
                    before.state,
                    rect.spec_size(),
                    corner_task(params, pattern, prim_address_f, rect),
                    params.local_rect,
                    params.clip_chain.clips_range,
                    params.prim_spatial_node,
                    params.raster_spatial_node,
                    None,
                    pattern.is_opaque && params.clip_chain.clips_range.count == 0,
                    clip_store,
                );
                SegmentProgress {
                    state,
                    direct: before.direct,
                    indirect: before.indirect.push(QuadSegment { rect, task_id }),
                }
            } else {
                SegmentProgress {
                    state: before.state,
                    direct: before.direct.push(
                        QuadSegment { rect, task_id: RenderTaskId::spec_invalid() },
                    ),
                    indirect: before.indirect,
                }
            },
        }
    }
}

/// The state after the segments of a quad were drawn: the direct ones, if
/// there are any, with the pattern, then the masked ones, if there are
/// any, by compositing their render tasks.
pub open spec fn with_segments_drawn(
    progress: SegmentProgress,
    pattern: Pattern,
    composite_color: crate::pattern::ColorU,
    pattern_transform: PatternTransform,
    params: QuadParams,
    device_prim_rect: Rect,
    device_clip_rect: Rect,
    targets: Seq<CommandBufferIndex>,
) -> FrameView {
    let drawn = if progress.direct.len() > 0 {
        with_pattern_prim(
            progress.state,
            pattern,
            pattern_transform,
            params.prim_instance_index,
            device_prim_rect,
            device_clip_rect,
            pattern.is_opaque,
            targets,
            progress.direct,
        )
    } else {
        progress.state
    };
    if progress.indirect.len() > 0 {
        with_composite_prim(
            drawn,
            composite_color,
            params.prim_instance_index,
            device_clip_rect,
            targets,
            progress.indirect,
        )
    } else {
        drawn
    }
}

/// The progress after all nine parts of a nine-patch were gone through,
/// the quad's record in device space written before for the corner tasks.
pub open spec fn nine_patch_parts(
    state: FrameView,
    params: QuadParams,
    clipped_surface_rect: Rect,
    ninepatch_rect: Rect,
    radius: Size,
    pattern: Pattern,
    clip_store: ClipStore,
) -> SegmentProgress {
    let geometry = nine_patch_geometry(params, clipped_surface_rect, ninepatch_rect, radius);
    let written = FrameView {
        gpu: state.gpu + prim_blocks(
            QuadPrimitive {
                bounds: geometry.device_prim_rect,
                clip: geometry.device_clip_rect,
                input_task: pattern.texture_input.task_id,
                pattern_scale_offset: PatternTransform::InverseOf(params.local_to_device.unwrap()),
                color: pattern.base_color,
            },
            Seq::empty(),
        ),
        ..state
    };
    nine_patch_progress(
        written,
        geometry,
        params,
        pattern,
        GpuBufferAddress { index: state.gpu.len() as usize },
        clip_store,
        9,
    )
}

/// The state after a quad was drawn as a nine-patch: the parts are gone
/// through, and the segments are drawn.
pub open spec fn with_nine_patch(
    state: FrameView,
    params: QuadParams,
    clipped_surface_rect: Rect,
    ninepatch_rect: Rect,
    radius: Size,
    pattern: Pattern,
    clip_store: ClipStore,
    targets: Seq<CommandBufferIndex>,
) -> FrameView {
    let geometry = nine_patch_geometry(params, clipped_surface_rect, ninepatch_rect, radius);
    with_segments_drawn(
        nine_patch_parts(
            state,
            params,
            clipped_surface_rect,
            ninepatch_rect,
            radius,
            pattern,
            clip_store,
        ),
        pattern,
        pattern.base_color,
        PatternTransform::InverseOf(params.local_to_device.unwrap()),
        params,
        geometry.device_prim_rect,
        geometry.device_clip_rect,
        targets,
    )
}

/// Draws a quad under a single rounded-rectangle clip as a nine-patch in
/// device space.
pub fn prepare_nine_patch(
    params: &QuadParams,
    clipped_surface_rect: &DeviceRect,
    ninepatch_rect: &LayoutRect,
    radius: LayoutVector2D,
    pattern: &Pattern,
    clip_store: &ClipStore,
    frame_state: &mut FrameBuildingState,
    scratch: &mut PrimitiveScratchBuffer,
    targets: &Vec<CommandBufferIndex>,
)
    requires
        params.local_to_device.is_some(),
        maskable(*clip_store, params.clip_chain.clips_range),
    ensures
        final(frame_state)@ == with_nine_patch(
            old(frame_state)@,
            *params,
            *clipped_surface_rect,
            *ninepatch_rect,
            radius,
            *pattern,
            *clip_store,
            targets@,
        ),
        final(scratch).quad_tile_classifier == old(scratch).quad_tile_classifier,
        ({
            let progress = nine_patch_parts(
                old(frame_state)@,
                *params,
                *clipped_surface_rect,
                *ninepatch_rect,
                radius,
                *pattern,
                *clip_store,
            );
            &&& final(scratch).quad_direct_segments@ == progress.direct
            &&& final(scratch).quad_indirect_segments@ == progress.indirect
        }),
{
    let ghost start = frame_state@;
    let ghost geometry = nine_patch_geometry(
        *params,
        *clipped_surface_rect,
        *ninepatch_rect,
        radius,
    );
    let local_to_device = match params.local_to_device {
        Some(t) => t,
        None => ScaleOffset::identity(),
    };
    let device_prim_rect = local_to_device.map_rect(&params.local_rect);
    let device_clip_rect = local_to_device.map_rect(
        &params.clip_chain.local_clip_rect,
    ).intersection_unchecked(clipped_surface_rect);
    let rounded_edges = params.aa_flags.complement();
    let part_clip = rounded_edges.select(device_clip_rect, *clipped_surface_rect);

    let local_corner_0 = Rect::from_origin_and_size(ninepatch_rect.min, radius);
    let local_corner_1 = Rect {
        min: Point {
            x: sub_clamped(ninepatch_rect.max.x, radius.width),
            y: sub_clamped(ninepatch_rect.max.y, radius.height),
        },
        max: ninepatch_rect.max,
    };
    let surface_rect_0 = local_to_device.map_rect(&local_corner_0);
    let surface_rect_1 = local_to_device.map_rect(&local_corner_1);
    let x_coords = sort_four(
        [surface_rect_0.min.x, surface_rect_0.max.x, surface_rect_1.min.x, surface_rect_1.max.x],
    );
    let y_coords = sort_four(
        [surface_rect_0.min.y, surface_rect_0.max.y, surface_rect_1.min.y, surface_rect_1.max.y],
    );
    proof {
        assert([
            surface_rect_0.min.x,
            surface_rect_0.max.x,
            surface_rect_1.min.x,
            surface_rect_1.max.x,
        ]@ =~= seq![
            surface_rect_0.min.x,
            surface_rect_0.max.x,
            surface_rect_1.min.x,
            surface_rect_1.max.x,
        ]);
        assert([
            surface_rect_0.min.y,
            surface_rect_0.max.y,
            surface_rect_1.min.y,
            surface_rect_1.max.y,
        ]@ =~= seq![
            surface_rect_0.min.y,
            surface_rect_0.max.y,
            surface_rect_1.min.y,
            surface_rect_1.max.y,
        ]);
        assert(geometry.xs == x_coords@);
        assert(geometry.ys == y_coords@);
    }

    scratch.quad_direct_segments.clear();
    scratch.quad_indirect_segments.clear();

    let mut quad_flags = params.quad_flags;
    if pattern.is_opaque {
        quad_flags.is_opaque = true;
    }
    let transform = PatternTransform::InverseOf(local_to_device);
    let no_segments: Vec<QuadSegment> = Vec::new();
    let indirect_prim_address = write_device_prim_blocks(
        &mut frame_state.frame_gpu_data,
        &device_prim_rect,
        &device_clip_rect,
        pattern.base_color,
        pattern.texture_input.task_id,
        &no_segments,
        transform,
    );
    let ghost written = frame_state@;

    let mut k: usize = 0;
    while k < 9
        invariant
            k <= 9,
            maskable(*clip_store, params.clip_chain.clips_range),
            geometry == nine_patch_geometry(*params, *clipped_surface_rect, *ninepatch_rect, radius),
            geometry.xs == x_coords@,
            geometry.ys == y_coords@,
            geometry.part_clip == part_clip,
            quad_flags == flags_with_pattern(params.quad_flags, *pattern),
            scratch.quad_tile_classifier == old(scratch).quad_tile_classifier,
            ({
                let progress = nine_patch_progress(
                    written,
                    geometry,
                    *params,
                    *pattern,
                    indirect_prim_address,
                    *clip_store,
                    k as int,
                );
                &&& frame_state@ == progress.state
                &&& scratch.quad_direct_segments@ == progress.direct
                &&& scratch.quad_indirect_segments@ == progress.indirect
            }),
        decreases 9 - k,
    {
        let x: usize = k % 3;
        let y: usize = k / 3;
        let y0 = y_coords[y];
        let y1 = y_coords[y + 1];
        let x0 = x_coords[x];
        let x1 = x_coords[x + 1];
        k += 1;
        if y1 <= y0 || x1 <= x0 {
            continue ;
        }
        let segment = Rect::new(Point::new(x0, y0), Point::new(x1, y1));
        let segment_device_rect = match segment.intersection(&part_clip) {
            Some(rect) => rect,
            None => {
                continue ;
            },
        };
        if x != 1 && y != 1 {
            let task_id = add_render_task_with_mask(
                pattern,
                &params.local_rect,
                segment_device_rect.size(),
                segment_device_rect.min,
                params.clip_chain.clips_range,
                &params.prim_spatial_node,
                &params.raster_spatial_node,
                indirect_prim_address,
                params.transform_id,
                params.aa_flags,
                quad_flags,
                false,
                None,
                clip_store,
                frame_state,
            );
            scratch.quad_indirect_segments.push(
                QuadSegment { rect: segment_device_rect, task_id },
            );
        } else {
            scratch.quad_direct_segments.push(
                QuadSegment { rect: segment_device_rect, task_id: RenderTaskId::invalid() },
            );
        }
    }

    if scratch.quad_direct_segments.len() > 0 {
        add_pattern_prim(
            pattern,
            transform,
            params.prim_instance_index,
            &device_prim_rect,
            &device_clip_rect,
            pattern.is_opaque,
            frame_state,
            targets,
            &scratch.quad_direct_segments,
        );
    }
    if scratch.quad_indirect_segments.len() > 0 {
        add_composite_prim(
            pattern.base_color,
            params.prim_instance_index,
            &device_clip_rect,
            frame_state,
            targets,
            &scratch.quad_indirect_segments,
        );
    }
}

} // verus!
