//! The entry points of the quad pipeline: choose the strategy of a quad
//! and draw it, once or once for each repetition.

use crate::clip::{ClipChainInstance, ClipStore, SpatialNode};
use crate::clip_mask::maskable;
use crate::flags::{EdgeMask, QuadFlags};
use crate::frame::{CommandBufferIndex, FrameBuildingState, FrameView, PrimitiveInstanceIndex};
use crate::geometry::{LayoutPoint, LayoutRect, LayoutSize, Rect, Size};
use crate::gpu_types::GpuTransformId;
use crate::nine_patch::{prepare_nine_patch, with_nine_patch};
use crate::pattern::{pattern_value, ColorU, Pattern, PatternBuilder};
use crate::quad::{
    clipped_surface_rect, compute_clipped_surface_rect, prepare_direct,
    prepare_indirect, quad_params, with_direct_quad, with_indirect_quad, PictureContext,
    PrimitiveMapping, PrimitiveScratchBuffer, QuadParams, MIN_AA_SEGMENTS_SIZE,
};
use crate::strategy::{
    get_prim_render_strategy, prim_render_strategy, QuadCacheKey, QuadRenderStrategy,
};
use crate::tile_classifier::MAX_TILES_PER_QUAD;
use crate::tiles::{
    prepare_tiles, tile_patterns_asked, tileable, tiles_of_quad, with_prepared_tiles,
};
use vstd::prelude::*;

verus! {

/// What a pattern builder answered while one quad was drawn.
pub struct BuilderAnswers {
    /// Whether one pattern serves all segments.
    pub shares_pattern: bool,
    /// Whether the quad may be drawn as a nine-patch.
    pub can_use_nine_patch: bool,
    /// The pattern built for the whole quad.
    pub pattern: Pattern,
    /// The colour to composite masked segments with.
    pub base_color: ColorU,
    /// The patterns built for the tiles, one for each tile.
    pub tile_patterns: Seq<Pattern>,
}

/// The pattern of the whole quad: the shared one, or the one the builder
/// answered.
pub open spec fn whole_pattern(shared_pattern: Option<Pattern>, answers: BuilderAnswers) -> Pattern {
    match shared_pattern {
        Some(pattern) => pattern,
        None => answers.pattern,
    }
}

/// The state after a quad was drawn with a given strategy. A direct quad
/// is drawn at once. For the other strategies nothing is drawn when the
/// quad can show nothing of the surface; otherwise the quad is drawn
/// through one masked task, as tiles, or as a nine-patch, over the part
/// of the surface that it can show.
pub open spec fn with_quad(
    state: FrameView,
    strategy: QuadRenderStrategy,
    shared_pattern: Option<Pattern>,
    answers: BuilderAnswers,
    params: QuadParams,
    cache_key: Option<QuadCacheKey>,
    pic_context: PictureContext,
    clip_store: ClipStore,
    targets: Seq<CommandBufferIndex>,
) -> FrameView {
    match strategy {
        QuadRenderStrategy::Direct => with_direct_quad(
            state,
            params,
            whole_pattern(shared_pattern, answers),
            targets,
        ),
        _ => match clipped_surface_rect(params.clip_chain, pic_context.surface) {
            None => state,
            Some(surface_rect) => match strategy {
                QuadRenderStrategy::Direct => state,
                QuadRenderStrategy::Indirect => with_indirect_quad(
                    state,
                    params,
                    whole_pattern(shared_pattern, answers),
                    answers.base_color,
                    surface_rect,
                    cache_key,
                    clip_store,
                    targets,
                ),
                QuadRenderStrategy::Tiled { x_tiles, y_tiles } => with_prepared_tiles(
                    state,
                    params,
                    surface_rect,
                    x_tiles as int,
                    y_tiles as int,
                    answers.tile_patterns,
                    shared_pattern,
                    answers.base_color,
                    clip_store,
                    targets,
                ),
                QuadRenderStrategy::NinePatch { radius, clip_rect } => with_nine_patch(
                    state,
                    params,
                    surface_rect,
                    clip_rect,
                    radius,
                    shared_pattern.unwrap(),
                    clip_store,
                    targets,
                ),
            },
        },
    }
}

/// The answers are answers to what the builder was asked: the pattern of
/// the whole quad, where the quad is drawn directly or through one task
/// and has no shared pattern, is an answer to no rectangle; and a tiled
/// quad has one pattern for each tile, which without a shared pattern is
/// an answer to the rectangle of the tile wherever the tile is drawn
/// through a render task.
pub open spec fn answers_fit<P: PatternBuilder>(
    builder: &P,
    answers: BuilderAnswers,
    strategy: QuadRenderStrategy,
    has_shared_pattern: bool,
    params: QuadParams,
    pic_context: PictureContext,
    clip_store: ClipStore,
) -> bool {
    match strategy {
        QuadRenderStrategy::Direct => !has_shared_pattern ==> builder.may_build(
            None,
            answers.pattern,
        ),
        _ => match clipped_surface_rect(params.clip_chain, pic_context.surface) {
            None => true,
            Some(surface_rect) => match strategy {
                QuadRenderStrategy::Indirect => !has_shared_pattern ==> builder.may_build(
                    None,
                    answers.pattern,
                ),
                QuadRenderStrategy::Tiled { x_tiles, y_tiles } => {
                    let tiles = tiles_of_quad(
                        params,
                        surface_rect,
                        x_tiles as int,
                        y_tiles as int,
                        has_shared_pattern,
                        clip_store,
                    );
                    &&& answers.tile_patterns.len() == tiles.len()
                    &&& tile_patterns_asked(
                        builder,
                        tiles,
                        answers.tile_patterns,
                        has_shared_pattern,
                    )
                },
                _ => true,
            },
        },
    }
}

/// Whether drawing a quad leaves the two segment lists of the scratch
/// buffer as they are: a quad that is drawn directly or through one task,
/// or that can show nothing of the surface, fills neither.
pub open spec fn keeps_segment_lists(
    strategy: QuadRenderStrategy,
    clip_chain: ClipChainInstance,
    pic_context: PictureContext,
) -> bool {
    strategy is Direct || strategy is Indirect || clipped_surface_rect(
        clip_chain,
        pic_context.surface,
    ) is None
}

/// What a strategy asks of its inputs: a strategy other than `Direct`
/// needs clips that can be masked; a nine-patch needs a shared pattern and
/// a scale and offset; tiles need a grid within the classifier's capacity
/// and clips that can be tiled.
pub open spec fn strategy_applies(
    strategy: QuadRenderStrategy,
    has_shared_pattern: bool,
    params: QuadParams,
    clip_store: ClipStore,
) -> bool {
    match strategy {
        QuadRenderStrategy::Direct => true,
        QuadRenderStrategy::Indirect => maskable(clip_store, params.clip_chain.clips_range),
        QuadRenderStrategy::NinePatch { .. } => {
            &&& maskable(clip_store, params.clip_chain.clips_range)
            &&& has_shared_pattern
            &&& params.local_to_device.is_some()
        },
        QuadRenderStrategy::Tiled { x_tiles, y_tiles } => {
            &&& tileable(clip_store, params.clip_chain.clips_range)
            &&& x_tiles > 0
            &&& y_tiles > 0
            &&& x_tiles * y_tiles <= MAX_TILES_PER_QUAD
        },
    }
}

/// Computes `quad_params`.
pub fn make_quad_params(
    local_rect: &LayoutRect,
    aligned_aa_edges: EdgeMask,
    transformed_aa_edges: EdgeMask,
    prim_instance_index: PrimitiveInstanceIndex,
    prim_spatial_node: &SpatialNode,
    clip_chain: &ClipChainInstance,
    map_prim_to_raster: &PrimitiveMapping,
    pic_context: &PictureContext,
) -> (params: QuadParams)
    ensures
        params == quad_params(
            *local_rect,
            aligned_aa_edges,
            transformed_aa_edges,
            prim_instance_index,
            *prim_spatial_node,
            *clip_chain,
            *map_prim_to_raster,
            *pic_context,
        ),
{
    let transform_id = if map_prim_to_raster.local_to_device.is_some() {
        GpuTransformId::Identity
    } else {
        GpuTransformId::PostScale {
            from: prim_spatial_node.index,
            to: pic_context.raster_spatial_node.index,
        }
    };
    let mut quad_flags = QuadFlags::empty();
    // Strips for the anti-aliased edges only if the quad is large enough on
    // screen to need them.
    let large_enough = match map_prim_to_raster.local_to_device {
        Some(local_to_device) => {
            let on_screen = local_to_device.map_rect(local_rect);
            on_screen.width() > MIN_AA_SEGMENTS_SIZE && on_screen.height() > MIN_AA_SEGMENTS_SIZE
        },
        None => map_prim_to_raster.on_screen_size.width as i64 > MIN_AA_SEGMENTS_SIZE
            && map_prim_to_raster.on_screen_size.height as i64 > MIN_AA_SEGMENTS_SIZE,
    };
    if large_enough {
        quad_flags.use_aa_segments = true;
    }
    let needs_scissor = map_prim_to_raster.local_to_device.is_none();
    if !needs_scissor {
        quad_flags.apply_render_task_clip = true;
    }
    let aa_flags = if map_prim_to_raster.is_2d_axis_aligned {
        aligned_aa_edges
    } else {
        transformed_aa_edges
    };
    QuadParams {
        local_rect: *local_rect,
        prim_instance_index,
        prim_spatial_node: *prim_spatial_node,
        raster_spatial_node: pic_context.raster_spatial_node,
        clip_chain: *clip_chain,
        local_to_device: map_prim_to_raster.local_to_device,
        transform_id,
        aa_flags,
        quad_flags,
    }
}

/// Draws a quad with a given strategy. The builder is asked for what the
/// strategy needs and the shared pattern does not give. Whatever it
/// answers, the state is that of `with_quad` for the answers. A quad that
/// can show nothing of the surface changes nothing.
pub fn prepare_quad_impl<P: PatternBuilder>(
    strategy: QuadRenderStrategy,
    pattern_builder: &P,
    shared_pattern: Option<&Pattern>,
    local_rect: &LayoutRect,
    aligned_aa_edges: EdgeMask,
    transfomed_aa_edges: EdgeMask,
    prim_instance_index: PrimitiveInstanceIndex,
    cache_key: &Option<QuadCacheKey>,
    prim_spatial_node: &SpatialNode,
    clip_chain: &ClipChainInstance,
    map_prim_to_raster: &PrimitiveMapping,
    pic_context: &PictureContext,
    targets: &Vec<CommandBufferIndex>,
    clip_store: &ClipStore,
    frame_state: &mut FrameBuildingState,
    scratch: &mut PrimitiveScratchBuffer,
)
    requires
        old(scratch).quad_tile_classifier.wf(),
        old(scratch).quad_tile_classifier.x_tiles() == 0,
        old(scratch).quad_tile_classifier.y_tiles() == 0,
        strategy_applies(
            strategy,
            shared_pattern.is_some(),
            quad_params(
                *local_rect,
                aligned_aa_edges,
                transfomed_aa_edges,
                prim_instance_index,
                *prim_spatial_node,
                *clip_chain,
                *map_prim_to_raster,
                *pic_context,
            ),
            *clip_store,
        ),
    ensures
        final(scratch).quad_tile_classifier.wf(),
        final(scratch).quad_tile_classifier.x_tiles() == 0,
        final(scratch).quad_tile_classifier.y_tiles() == 0,
        keeps_segment_lists(strategy, *clip_chain, *pic_context) ==> {
            &&& final(scratch).quad_direct_segments@ == old(scratch).quad_direct_segments@
            &&& final(scratch).quad_indirect_segments@ == old(scratch).quad_indirect_segments@
        },
        exists|answers: BuilderAnswers|
            {
                &&& answers_fit(
                    pattern_builder,
                    answers,
                    strategy,
                    shared_pattern.is_some(),
                    quad_params(
                        *local_rect,
                        aligned_aa_edges,
                        transfomed_aa_edges,
                        prim_instance_index,
                        *prim_spatial_node,
                        *clip_chain,
                        *map_prim_to_raster,
                        *pic_context,
                    ),
                    *pic_context,
                    *clip_store,
                )
                &&& final(frame_state)@ == #[trigger] with_quad(
                    old(frame_state)@,
                    strategy,
                    pattern_value(shared_pattern),
                    answers,
                    quad_params(
                        *local_rect,
                        aligned_aa_edges,
                        transfomed_aa_edges,
                        prim_instance_index,
                        *prim_spatial_node,
                        *clip_chain,
                        *map_prim_to_raster,
                        *pic_context,
                    ),
                    *cache_key,
                    *pic_context,
                    *clip_store,
                    targets@,
                )
            },
{
    let ghost before = frame_state@;
    let params = make_quad_params(
        local_rect,
        aligned_aa_edges,
        transfomed_aa_edges,
        prim_instance_index,
        prim_spatial_node,
        clip_chain,
        map_prim_to_raster,
        pic_context,
    );
    let ghost shared = pattern_value(shared_pattern);
    let ghost mut answers = BuilderAnswers {
        shares_pattern: shared_pattern.is_some(),
        can_use_nine_patch: false,
        pattern: Pattern::spec_color(ColorU::spec_white()),
        base_color: ColorU::spec_white(),
        tile_patterns: Seq::empty(),
    };

    if let QuadRenderStrategy::Direct = strategy {
        let pattern = match shared_pattern {
            Some(pattern) => *pattern,
            None => pattern_builder.build(None),
        };
        proof {
            answers.pattern = pattern;
        }
        prepare_direct(&params, &pattern, frame_state, targets);
        assert(answers_fit(
            pattern_builder,
            answers,
            strategy,
            shared_pattern.is_some(),
            params,
            *pic_context,
            *clip_store,
        ));
        assert(frame_state@ == with_quad(
            before,
            strategy,
            shared,
            answers,
            params,
            *cache_key,
            *pic_context,
            *clip_store,
            targets@,
        ));
        return ;
    }
    let clipped_surface_rect = match compute_clipped_surface_rect(clip_chain, &pic_context.surface) {
        Some(rect) => rect,
        None => {
            assert(frame_state@ == with_quad(
                before,
                strategy,
                shared,
                answers,
                params,
                *cache_key,
                *pic_context,
                *clip_store,
                targets@,
            ));
            return ;
        },
    };

    match strategy {
        QuadRenderStrategy::Direct => {},
        QuadRenderStrategy::Indirect => {
            let pattern = match shared_pattern {
                Some(pattern) => *pattern,
                None => pattern_builder.build(None),
            };
            let base_color = pattern_builder.get_base_color();
            proof {
                answers.pattern = pattern;
                answers.base_color = base_color;
            }
            prepare_indirect(
                &params,
                &pattern,
                base_color,
                &clipped_surface_rect,
                cache_key,
                clip_store,
                frame_state,
                targets,
            );
        },
        QuadRenderStrategy::Tiled { x_tiles, y_tiles } => {
            prepare_tiles(
                &params,
                &clipped_surface_rect,
                x_tiles,
                y_tiles,
                pattern_builder,
                shared_pattern,
                clip_store,
                frame_state,
                scratch,
                targets,
            );
            proof {
                let (patterns, base_color) = choose|patterns: Seq<Pattern>, base_color: ColorU|
                    patterns.len() == tiles_of_quad(
                        params,
                        clipped_surface_rect,
                        x_tiles as int,
                        y_tiles as int,
                        shared_pattern.is_some(),
                        *clip_store,
                    ).len() && tile_patterns_asked(
                        pattern_builder,
                        tiles_of_quad(
                            params,
                            clipped_surface_rect,
                            x_tiles as int,
                            y_tiles as int,
                            shared_pattern.is_some(),
                            *clip_store,
                        ),
                        patterns,
                        shared_pattern.is_some(),
                    ) && frame_state@ == #[trigger] with_prepared_tiles(
                        before,
                        params,
                        clipped_surface_rect,
                        x_tiles as int,
                        y_tiles as int,
                        patterns,
                        pattern_value(shared_pattern),
                        base_color,
                        *clip_store,
                        targets@,
                    );
                answers.tile_patterns = patterns;
                answers.base_color = base_color;
            }
        },
        QuadRenderStrategy::NinePatch { clip_rect, radius } => {
            let pattern = match shared_pattern {
                Some(pattern) => *pattern,
                None => Pattern::color(ColorU::white()),
            };
            prepare_nine_patch(
                &params,
                &clipped_surface_rect,
                &clip_rect,
                radius,
                &pattern,
                clip_store,
                frame_state,
                scratch,
                targets,
            );
        },
    }
    assert(answers_fit(
        pattern_builder,
        answers,
        strategy,
        shared_pattern.is_some(),
        params,
        *pic_context,
        *clip_store,
    ));
    assert(frame_state@ == with_quad(
        before,
        strategy,
        shared,
        answers,
        params,
        *cache_key,
        *pic_context,
        *clip_store,
        targets@,
    ));
}

/// The strategy of a quad. A quad with a cache key is drawn indirectly,
/// whatever else holds of it.
pub open spec fn chosen_strategy(
    cache_key: Option<QuadCacheKey>,
    prim_spatial_node: SpatialNode,
    clip_chain: ClipChainInstance,
    clip_store: ClipStore,
    can_use_nine_patch: bool,
    prim_is_scale_offset: bool,
) -> QuadRenderStrategy {
    match cache_key {
        Some(_) => QuadRenderStrategy::Indirect,
        None => prim_render_strategy(
            prim_spatial_node,
            clip_chain,
            clip_store.range_items(clip_chain.clips_range),
            can_use_nine_patch,
            prim_is_scale_offset,
        ),
    }
}

/// The shared pattern that the answers give: the pattern of the whole
/// quad if it serves all segments.
pub open spec fn shared_pattern_of(answers: BuilderAnswers) -> Option<Pattern> {
    if answers.shares_pattern {
        Some(answers.pattern)
    } else {
        None
    }
}

/// The strategy of a quad for given answers of its builder. A nine-patch
/// is considered only under a scale and offset, with a shared pattern,
/// and if the builder allows it.
pub open spec fn strategy_for_answers(
    answers: BuilderAnswers,
    cache_key: Option<QuadCacheKey>,
    prim_spatial_node: SpatialNode,
    clip_chain: ClipChainInstance,
    map_prim_to_raster: PrimitiveMapping,
    clip_store: ClipStore,
) -> QuadRenderStrategy {
    chosen_strategy(
        cache_key,
        prim_spatial_node,
        clip_chain,
        clip_store,
        map_prim_to_raster.local_to_device.is_some() && answers.shares_pattern
            && answers.can_use_nine_patch,
        map_prim_to_raster.local_to_device.is_some(),
    )
}

/// What drawing a quad asks of its inputs: the store holds the quad's
/// clips; the clips can be masked if the quad has a cache key or needs a
/// mask; and they can be tiled if the quad may be tiled.
pub open spec fn quad_drawable(
    cache_key: Option<QuadCacheKey>,
    prim_spatial_node: SpatialNode,
    clip_chain: ClipChainInstance,
    map_prim_to_raster: PrimitiveMapping,
    clip_store: ClipStore,
) -> bool {
    &&& clip_store.has_range(clip_chain.clips_range)
    &&& (cache_key.is_some() || clip_chain.needs_mask ==> maskable(
        clip_store,
        clip_chain.clips_range,
    ))
    &&& (chosen_strategy(
        cache_key,
        prim_spatial_node,
        clip_chain,
        clip_store,
        false,
        map_prim_to_raster.local_to_device.is_some(),
    ) is Tiled ==> tileable(clip_store, clip_chain.clips_range))
}

/// The state after a quad was prepared, for given answers of its builder.
pub open spec fn with_prepared_quad(
    state: FrameView,
    answers: BuilderAnswers,
    local_rect: Rect,
    aligned_aa_edges: EdgeMask,
    transformed_aa_edges: EdgeMask,
    prim_instance_index: PrimitiveInstanceIndex,
    cache_key: Option<QuadCacheKey>,
    prim_spatial_node: SpatialNode,
    clip_chain: ClipChainInstance,
    map_prim_to_raster: PrimitiveMapping,
    pic_context: PictureContext,
    clip_store: ClipStore,
    targets: Seq<CommandBufferIndex>,
) -> FrameView {
    with_quad(
        state,
        strategy_for_answers(
            answers,
            cache_key,
            prim_spatial_node,
            clip_chain,
            map_prim_to_raster,
            clip_store,
        ),
        shared_pattern_of(answers),
        answers,
        quad_params(
            local_rect,
            aligned_aa_edges,
            transformed_aa_edges,
            prim_instance_index,
            prim_spatial_node,
            clip_chain,
            map_prim_to_raster,
            pic_context,
        ),
        cache_key,
        pic_context,
        clip_store,
        targets,
    )
}

/// Asks the builder how the quad is to be drawn and chooses the strategy.
fn choose_strategy<P: PatternBuilder>(
    pattern_builder: &P,
    cache_key: &Option<QuadCacheKey>,
    prim_spatial_node: &SpatialNode,
    clip_chain: &ClipChainInstance,
    map_prim_to_raster: &PrimitiveMapping,
    clip_store: &ClipStore,
) -> (chosen: (QuadRenderStrategy, Option<Pattern>, Ghost<BuilderAnswers>))
    requires
        quad_drawable(
            *cache_key,
            *prim_spatial_node,
            *clip_chain,
            *map_prim_to_raster,
            *clip_store,
        ),
    ensures
        chosen.0 == strategy_for_answers(
            chosen.2@,
            *cache_key,
            *prim_spatial_node,
            *clip_chain,
            *map_prim_to_raster,
            *clip_store,
        ),
        chosen.1 == shared_pattern_of(chosen.2@),
        chosen.1.is_none() ==> !chosen.2@.shares_pattern,
        chosen.2@.shares_pattern ==> pattern_builder.may_build(None, chosen.2@.pattern),
        forall|params: QuadParams|
            params.clip_chain == *clip_chain && params.local_to_device
                == map_prim_to_raster.local_to_device ==> #[trigger] strategy_applies(
                chosen.0,
                chosen.1.is_some(),
                params,
                *clip_store,
            ),
{
    let shared_pattern = if pattern_builder.use_shared_pattern() {
        Some(pattern_builder.build(None))
    } else {
        None
    };
    let prim_is_scale_offset = map_prim_to_raster.local_to_device.is_some();
    let builder_allows = if prim_is_scale_offset && shared_pattern.is_some() {
        pattern_builder.can_use_nine_patch()
    } else {
        false
    };
    let can_use_nine_patch = prim_is_scale_offset && shared_pattern.is_some() && builder_allows;
    let strategy = match cache_key {
        Some(_) => QuadRenderStrategy::Indirect,
        None => get_prim_render_strategy(
            prim_spatial_node,
            clip_chain,
            clip_store,
            can_use_nine_patch,
            prim_is_scale_offset,
        ),
    };
    let ghost answers = BuilderAnswers {
        shares_pattern: shared_pattern.is_some(),
        can_use_nine_patch: builder_allows,
        pattern: match shared_pattern {
            Some(pattern) => pattern,
            None => Pattern::spec_color(ColorU::spec_white()),
        },
        base_color: ColorU::spec_white(),
        tile_patterns: Seq::empty(),
    };
    proof {
        let clips = clip_store.range_items(clip_chain.clips_range);
        match strategy {
            QuadRenderStrategy::Tiled { x_tiles, y_tiles } => {
                assert(x_tiles * y_tiles <= MAX_TILES_PER_QUAD) by (nonlinear_arith)
                    requires
                        1 <= x_tiles <= 8,
                        1 <= y_tiles <= 4,
                ;
                assert(prim_render_strategy(
                    *prim_spatial_node,
                    *clip_chain,
                    clips,
                    false,
                    prim_is_scale_offset,
                ) is Tiled);
            },
            _ => {},
        }
        assert forall|params: QuadParams|
            params.clip_chain == *clip_chain && params.local_to_device
                == map_prim_to_raster.local_to_device implies #[trigger] strategy_applies(
            strategy,
            shared_pattern.is_some(),
            params,
            *clip_store,
        ) by {}
    }
    (strategy, shared_pattern, Ghost(answers))
}

/// Chooses the strategy of a quad and draws it. The builder is asked
/// whether it shares one pattern, for that pattern if it does, and whether
/// it allows a nine-patch if that is possible; the drawing asks for what
/// else it needs. Whatever the builder answers, the state is that of
/// `with_prepared_quad` for the answers.
pub fn prepare_quad<P: PatternBuilder>(
    pattern_builder: &P,
    local_rect: &LayoutRect,
    aligned_aa_edges: EdgeMask,
    transfomed_aa_edges: EdgeMask,
    prim_instance_index: PrimitiveInstanceIndex,
    cache_key: &Option<QuadCacheKey>,
    prim_spatial_node: &SpatialNode,
    clip_chain: &ClipChainInstance,
    map_prim_to_raster: &PrimitiveMapping,
    pic_context: &PictureContext,
    targets: &Vec<CommandBufferIndex>,
    clip_store: &ClipStore,
    frame_state: &mut FrameBuildingState,
    scratch: &mut PrimitiveScratchBuffer,
)
    requires
        old(scratch).quad_tile_classifier.wf(),
        old(scratch).quad_tile_classifier.x_tiles() == 0,
        old(scratch).quad_tile_classifier.y_tiles() == 0,
        quad_drawable(
            *cache_key,
            *prim_spatial_node,
            *clip_chain,
            *map_prim_to_raster,
            *clip_store,
        ),
    ensures
        final(scratch).quad_tile_classifier.wf(),
        final(scratch).quad_tile_classifier.x_tiles() == 0,
        final(scratch).quad_tile_classifier.y_tiles() == 0,
        exists|answers: BuilderAnswers|
            {
                &&& answers_fit(
                    pattern_builder,
                    answers,
                    strategy_for_answers(
                        answers,
                        *cache_key,
                        *prim_spatial_node,
                        *clip_chain,
                        *map_prim_to_raster,
                        *clip_store,
                    ),
                    answers.shares_pattern,
                    quad_params(
                        *local_rect,
                        aligned_aa_edges,
                        transfomed_aa_edges,
                        prim_instance_index,
                        *prim_spatial_node,
                        *clip_chain,
                        *map_prim_to_raster,
                        *pic_context,
                    ),
                    *pic_context,
                    *clip_store,
                )
                &&& answers.shares_pattern ==> pattern_builder.may_build(None, answers.pattern)
                &&& keeps_segment_lists(
                    strategy_for_answers(
                        answers,
                        *cache_key,
                        *prim_spatial_node,
                        *clip_chain,
                        *map_prim_to_raster,
                        *clip_store,
                    ),
                    *clip_chain,
                    *pic_context,
                ) ==> {
                    &&& final(scratch).quad_direct_segments@ == old(scratch).quad_direct_segments@
                    &&& final(scratch).quad_indirect_segments@
                        == old(scratch).quad_indirect_segments@
                }
                &&& final(frame_state)@ == #[trigger] with_prepared_quad(
                    old(frame_state)@,
                    answers,
                    *local_rect,
                    aligned_aa_edges,
                    transfomed_aa_edges,
                    prim_instance_index,
                    *cache_key,
                    *prim_spatial_node,
                    *clip_chain,
                    *map_prim_to_raster,
                    *pic_context,
                    *clip_store,
                    targets@,
                )
            },
{
    let ghost before = frame_state@;
    let (strategy, shared_pattern, Ghost(first)) = choose_strategy(
        pattern_builder,
        cache_key,
        prim_spatial_node,
        clip_chain,
        map_prim_to_raster,
        clip_store,
    );
    let ghost params = quad_params(
        *local_rect,
        aligned_aa_edges,
        transfomed_aa_edges,
        prim_instance_index,
        *prim_spatial_node,
        *clip_chain,
        *map_prim_to_raster,
        *pic_context,
    );
    assert(strategy_applies(strategy, shared_pattern.is_some(), params, *clip_store));
    let shared_ref = shared_pattern.as_ref();
    assert(pattern_value(shared_ref) == shared_pattern);
    prepare_quad_impl(
        strategy,
        pattern_builder,
        shared_ref,
        local_rect,
        aligned_aa_edges,
        transfomed_aa_edges,
        prim_instance_index,
        cache_key,
        prim_spatial_node,
        clip_chain,
        map_prim_to_raster,
        pic_context,
        targets,
        clip_store,
        frame_state,
        scratch,
    );
    proof {
        let drawn = choose|answers: BuilderAnswers|
            answers_fit(
                pattern_builder,
                answers,
                strategy,
                shared_pattern.is_some(),
                params,
                *pic_context,
                *clip_store,
            ) && frame_state@ == #[trigger] with_quad(
                before,
                strategy,
                shared_pattern,
                answers,
                params,
                *cache_key,
                *pic_context,
                *clip_store,
                targets@,
            );
        let answers = merged_answers(first, drawn);
        assert(answers_fit(
            pattern_builder,
            answers,
            strategy,
            answers.shares_pattern,
            params,
            *pic_context,
            *clip_store,
        ));
        assert(frame_state@ == with_prepared_quad(
            before,
            answers,
            *local_rect,
            aligned_aa_edges,
            transfomed_aa_edges,
            prim_instance_index,
            *cache_key,
            *prim_spatial_node,
            *clip_chain,
            *map_prim_to_raster,
            *pic_context,
            *clip_store,
            targets@,
        ));
    }
}

/// The answers of a builder over the choice of the strategy and the
/// drawing that followed: if the pattern is shared it is the one built for
/// the choice, else the one built for the drawing.
pub open spec fn merged_answers(first: BuilderAnswers, drawn: BuilderAnswers) -> BuilderAnswers {
    BuilderAnswers {
        shares_pattern: first.shares_pattern,
        can_use_nine_patch: first.can_use_nine_patch,
        pattern: if first.shares_pattern {
            first.pattern
        } else {
            drawn.pattern
        },
        base_color: drawn.base_color,
        tile_patterns: drawn.tile_patterns,
    }
}

/// One repetition of a repeated quad: where it starts, and which of its
/// edges lie on an edge of the whole.
#[derive(Clone, Copy, Debug, PartialEq, Eq, Structural)]
pub struct Repetition {
    pub origin: LayoutPoint,
    pub edge_flags: EdgeMask,
    /// The extent of the repetition on screen, in device units. It is
    /// read only where the primitive is not under a scale and offset.
    pub on_screen_size: Size,
}

/// The mapping of a primitive, for one of its repetitions.
pub open spec fn repetition_mapping(
    repetition: Repetition,
    map_prim_to_raster: PrimitiveMapping,
) -> PrimitiveMapping {
    PrimitiveMapping { on_screen_size: repetition.on_screen_size, ..map_prim_to_raster }
}

/// A quad is repeated when it is smaller than its rectangle on either
/// axis.
pub open spec fn needs_repetition(local_rect: Rect, stretch_size: LayoutSize) -> bool {
    stretch_size.width < local_rect.spec_width() || stretch_size.height < local_rect.spec_height()
}

/// What stays the same over the draws of one repetition: the repetition's
/// rectangle has the stretch size, and only those of its edges are
/// anti-aliased that lie on an edge of the whole.
pub open spec fn repetition_params(
    repetition: Repetition,
    stretch_size: LayoutSize,
    aligned_aa_edges: EdgeMask,
    transformed_aa_edges: EdgeMask,
    prim_instance_index: PrimitiveInstanceIndex,
    prim_spatial_node: SpatialNode,
    clip_chain: ClipChainInstance,
    map_prim_to_raster: PrimitiveMapping,
    pic_context: PictureContext,
) -> QuadParams {
    quad_params(
        Rect::spec_from_origin_and_size(repetition.origin, stretch_size),
        aligned_aa_edges.spec_intersection(repetition.edge_flags),
        transformed_aa_edges.spec_intersection(repetition.edge_flags),
        prim_instance_index,
        prim_spatial_node,
        clip_chain,
        repetition_mapping(repetition, map_prim_to_raster),
        pic_context,
    )
}

/// The state after as many repetitions were drawn as there are answers,
/// repetition `i` with answers `i`, all with one strategy and one shared
/// pattern.
pub open spec fn with_repetitions(
    state: FrameView,
    strategy: QuadRenderStrategy,
    shared_pattern: Option<Pattern>,
    answers: Seq<BuilderAnswers>,
    repetitions: Seq<Repetition>,
    stretch_size: LayoutSize,
    aligned_aa_edges: EdgeMask,
    transformed_aa_edges: EdgeMask,
    prim_instance_index: PrimitiveInstanceIndex,
    cache_key: Option<QuadCacheKey>,
    prim_spatial_node: SpatialNode,
    clip_chain: ClipChainInstance,
    map_prim_to_raster: PrimitiveMapping,
    pic_context: PictureContext,
    clip_store: ClipStore,
    targets: Seq<CommandBufferIndex>,
) -> FrameView
    decreases answers.len(),
{
    if answers.len() == 0 {
        state
    } else {
        with_quad(
            with_repetitions(
                state,
                strategy,
                shared_pattern,
                answers.drop_last(),
                repetitions,
                stretch_size,
                aligned_aa_edges,
                transformed_aa_edges,
                prim_instance_index,
                cache_key,
                prim_spatial_node,
                clip_chain,
                map_prim_to_raster,
                pic_context,
                clip_store,
                targets,
            ),
            strategy,
            shared_pattern,
            answers.last(),
            repetition_params(
                repetitions[answers.len() - 1],
                stretch_size,
                aligned_aa_edges,
                transformed_aa_edges,
                prim_instance_index,
                prim_spatial_node,
                clip_chain,
                map_prim_to_raster,
                pic_context,
            ),
            cache_key,
            pic_context,
            clip_store,
            targets,
        )
    }
}

/// The state after a repeatable quad was prepared. `first` holds what the
/// builder answered for the choice of the strategy. A quad that needs no
/// repetition is drawn once, with the answers `answers[0]`; one that
/// does is drawn once for each repetition.
pub open spec fn with_prepared_repeatable_quad(
    state: FrameView,
    first: BuilderAnswers,
    answers: Seq<BuilderAnswers>,
    local_rect: Rect,
    stretch_size: LayoutSize,
    repetitions: Seq<Repetition>,
    aligned_aa_edges: EdgeMask,
    transformed_aa_edges: EdgeMask,
    prim_instance_index: PrimitiveInstanceIndex,
    cache_key: Option<QuadCacheKey>,
    prim_spatial_node: SpatialNode,
    clip_chain: ClipChainInstance,
    map_prim_to_raster: PrimitiveMapping,
    pic_context: PictureContext,
    clip_store: ClipStore,
    targets: Seq<CommandBufferIndex>,
) -> FrameView {
    let strategy = strategy_for_answers(
        first,
        cache_key,
        prim_spatial_node,
        clip_chain,
        map_prim_to_raster,
        clip_store,
    );
    if !needs_repetition(local_rect, stretch_size) {
        with_quad(
            state,
            strategy,
            shared_pattern_of(first),
            answers[0],
            quad_params(
                local_rect,
                aligned_aa_edges,
                transformed_aa_edges,
                prim_instance_index,
                prim_spatial_node,
                clip_chain,
                map_prim_to_raster,
                pic_context,
            ),
            cache_key,
            pic_context,
            clip_store,
            targets,
        )
    } else {
        with_repetitions(
            state,
            strategy,
            shared_pattern_of(first),
            answers,
            repetitions,
            stretch_size,
            aligned_aa_edges,
            transformed_aa_edges,
            prim_instance_index,
            cache_key,
            prim_spatial_node,
            clip_chain,
            map_prim_to_raster,
            pic_context,
            clip_store,
            targets,
        )
    }
}

/// What stays the same over draw `i` of a repeatable quad: that of the
/// whole quad if it is drawn once, that of repetition `i` if it is
/// repeated.
pub open spec fn repeatable_params(
    i: int,
    local_rect: Rect,
    stretch_size: LayoutSize,
    repetitions: Seq<Repetition>,
    aligned_aa_edges: EdgeMask,
    transformed_aa_edges: EdgeMask,
    prim_instance_index: PrimitiveInstanceIndex,
    prim_spatial_node: SpatialNode,
    clip_chain: ClipChainInstance,
    map_prim_to_raster: PrimitiveMapping,
    pic_context: PictureContext,
) -> QuadParams {
    if needs_repetition(local_rect, stretch_size) {
        repetition_params(
            repetitions[i],
            stretch_size,
            aligned_aa_edges,
            transformed_aa_edges,
            prim_instance_index,
            prim_spatial_node,
            clip_chain,
            map_prim_to_raster,
            pic_context,
        )
    } else {
        quad_params(
            local_rect,
            aligned_aa_edges,
            transformed_aa_edges,
            prim_instance_index,
            prim_spatial_node,
            clip_chain,
            map_prim_to_raster,
            pic_context,
        )
    }
}

/// The answers of a builder over a repeatable quad are answers to what it
/// was asked: there is one list of answers for each draw, each fits its
/// draw, and a shared pattern is an answer to no rectangle.
pub open spec fn repeatable_answers_fit<P: PatternBuilder>(
    builder: &P,
    first: BuilderAnswers,
    answers: Seq<BuilderAnswers>,
    local_rect: Rect,
    stretch_size: LayoutSize,
    repetitions: Seq<Repetition>,
    aligned_aa_edges: EdgeMask,
    transformed_aa_edges: EdgeMask,
    prim_instance_index: PrimitiveInstanceIndex,
    cache_key: Option<QuadCacheKey>,
    prim_spatial_node: SpatialNode,
    clip_chain: ClipChainInstance,
    map_prim_to_raster: PrimitiveMapping,
    pic_context: PictureContext,
    clip_store: ClipStore,
) -> bool {
    &&& answers.len() == (if needs_repetition(local_rect, stretch_size) {
        repetitions.len()
    } else {
        1
    })
    &&& first.shares_pattern ==> builder.may_build(None, first.pattern)
    &&& forall|i: int|
        0 <= i < answers.len() ==> answers_fit(
            builder,
            #[trigger] answers[i],
            strategy_for_answers(
                first,
                cache_key,
                prim_spatial_node,
                clip_chain,
                map_prim_to_raster,
                clip_store,
            ),
            first.shares_pattern,
            repeatable_params(
                i,
                local_rect,
                stretch_size,
                repetitions,
                aligned_aa_edges,
                transformed_aa_edges,
                prim_instance_index,
                prim_spatial_node,
                clip_chain,
                map_prim_to_raster,
                pic_context,
            ),
            pic_context,
            clip_store,
        )
}

/// Chooses the strategy of a quad that may repeat over its rectangle and
/// draws it: once if its stretch size covers its rectangle, and else once
/// for each of `repetitions`. Whatever the builder answers, the state is
/// that of `with_prepared_repeatable_quad` for the answers.
pub fn prepare_repeatable_quad<P: PatternBuilder>(
    pattern_builder: &P,
    local_rect: &LayoutRect,
    stretch_size: LayoutSize,
    repetitions: &Vec<Repetition>,
    aligned_aa_edges: EdgeMask,
    transfomed_aa_edges: EdgeMask,
    prim_instance_index: PrimitiveInstanceIndex,
    cache_key: &Option<QuadCacheKey>,
    prim_spatial_node: &SpatialNode,
    clip_chain: &ClipChainInstance,
    map_prim_to_raster: &PrimitiveMapping,
    pic_context: &PictureContext,
    targets: &Vec<CommandBufferIndex>,
    clip_store: &ClipStore,
    frame_state: &mut FrameBuildingState,
    scratch: &mut PrimitiveScratchBuffer,
)
    requires
        old(scratch).quad_tile_classifier.wf(),
        old(scratch).quad_tile_classifier.x_tiles() == 0,
        old(scratch).quad_tile_classifier.y_tiles() == 0,
        quad_drawable(
            *cache_key,
            *prim_spatial_node,
            *clip_chain,
            *map_prim_to_raster,
            *clip_store,
        ),
    ensures
        final(scratch).quad_tile_classifier.wf(),
        final(scratch).quad_tile_classifier.x_tiles() == 0,
        final(scratch).quad_tile_classifier.y_tiles() == 0,
        exists|first: BuilderAnswers, answers: Seq<BuilderAnswers>|
            repeatable_answers_fit(
                pattern_builder,
                first,
                answers,
                *local_rect,
                stretch_size,
                repetitions@,
                aligned_aa_edges,
                transfomed_aa_edges,
                prim_instance_index,
                *cache_key,
                *prim_spatial_node,
                *clip_chain,
                *map_prim_to_raster,
                *pic_context,
                *clip_store,
            ) && (keeps_segment_lists(
                strategy_for_answers(
                    first,
                    *cache_key,
                    *prim_spatial_node,
                    *clip_chain,
                    *map_prim_to_raster,
                    *clip_store,
                ),
                *clip_chain,
                *pic_context,
            ) ==> final(scratch).quad_direct_segments@ == old(scratch).quad_direct_segments@
                && final(scratch).quad_indirect_segments@ == old(scratch).quad_indirect_segments@)
                && final(frame_state)@ == #[trigger] with_prepared_repeatable_quad(
                old(frame_state)@,
                first,
                answers,
                *local_rect,
                stretch_size,
                repetitions@,
                aligned_aa_edges,
                transfomed_aa_edges,
                prim_instance_index,
                *cache_key,
                *prim_spatial_node,
                *clip_chain,
                *map_prim_to_raster,
                *pic_context,
                *clip_store,
                targets@,
            ),
{
    let ghost before = frame_state@;
    let (strategy, shared_pattern, Ghost(first)) = choose_strategy(
        pattern_builder,
        cache_key,
        prim_spatial_node,
        clip_chain,
        map_prim_to_raster,
        clip_store,
    );
    let shared_ref = shared_pattern.as_ref();
    assert(pattern_value(shared_ref) == shared_pattern);
    let repeats = (stretch_size.width as i64) < local_rect.width() || (stretch_size.height as i64)
        < local_rect.height();

    if !repeats {
        let ghost params = quad_params(
            *local_rect,
            aligned_aa_edges,
            transfomed_aa_edges,
            prim_instance_index,
            *prim_spatial_node,
            *clip_chain,
            *map_prim_to_raster,
            *pic_context,
        );
        assert(strategy_applies(strategy, shared_pattern.is_some(), params, *clip_store));
        prepare_quad_impl(
            strategy,
            pattern_builder,
            shared_ref,
            local_rect,
            aligned_aa_edges,
            transfomed_aa_edges,
            prim_instance_index,
            cache_key,
            prim_spatial_node,
            clip_chain,
            map_prim_to_raster,
            pic_context,
            targets,
            clip_store,
            frame_state,
            scratch,
        );
        proof {
            let drawn = choose|answers: BuilderAnswers|
                answers_fit(
                    pattern_builder,
                    answers,
                    strategy,
                    shared_pattern.is_some(),
                    params,
                    *pic_context,
                    *clip_store,
                ) && frame_state@ == #[trigger] with_quad(
                    before,
                    strategy,
                    shared_pattern,
                    answers,
                    params,
                    *cache_key,
                    *pic_context,
                    *clip_store,
                    targets@,
                );
            let answers = seq![drawn];
            assert(answers[0] == drawn);
            assert(repeatable_answers_fit(
                pattern_builder,
                first,
                answers,
                *local_rect,
                stretch_size,
                repetitions@,
                aligned_aa_edges,
                transfomed_aa_edges,
                prim_instance_index,
                *cache_key,
                *prim_spatial_node,
                *clip_chain,
                *map_prim_to_raster,
                *pic_context,
                *clip_store,
            ));
            assert(frame_state@ == with_prepared_repeatable_quad(
                before,
                first,
                answers,
                *local_rect,
                stretch_size,
                repetitions@,
                aligned_aa_edges,
                transfomed_aa_edges,
                prim_instance_index,
                *cache_key,
                *prim_spatial_node,
                *clip_chain,
                *map_prim_to_raster,
                *pic_context,
                *clip_store,
                targets@,
            ));
        }
        return ;
    }
    let ghost mut all: Seq<BuilderAnswers> = Seq::empty();
    let mut i: usize = 0;
    while i < repetitions.len()
        invariant
            i <= repetitions.len(),
            all.len() == i,
            needs_repetition(*local_rect, stretch_size),
            shared_pattern.is_some() == first.shares_pattern,
            strategy == strategy_for_answers(
                first,
                *cache_key,
                *prim_spatial_node,
                *clip_chain,
                *map_prim_to_raster,
                *clip_store,
            ),
            keeps_segment_lists(strategy, *clip_chain, *pic_context) ==> {
                &&& scratch.quad_direct_segments@ == old(scratch).quad_direct_segments@
                &&& scratch.quad_indirect_segments@ == old(scratch).quad_indirect_segments@
            },
            forall|k: int|
                0 <= k < i ==> answers_fit(
                    pattern_builder,
                    #[trigger] all[k],
                    strategy,
                    first.shares_pattern,
                    repetition_params(
                        repetitions@[k],
                        stretch_size,
                        aligned_aa_edges,
                        transfomed_aa_edges,
                        prim_instance_index,
                        *prim_spatial_node,
                        *clip_chain,
                        *map_prim_to_raster,
                        *pic_context,
                    ),
                    *pic_context,
                    *clip_store,
                ),
            scratch.quad_tile_classifier.wf(),
            scratch.quad_tile_classifier.x_tiles() == 0,
            scratch.quad_tile_classifier.y_tiles() == 0,
            pattern_value(shared_ref) == shared_pattern,
            forall|params: QuadParams|
                params.clip_chain == *clip_chain && params.local_to_device
                    == map_prim_to_raster.local_to_device ==> #[trigger] strategy_applies(
                    strategy,
                    shared_pattern.is_some(),
                    params,
                    *clip_store,
                ),
            frame_state@ == with_repetitions(
                before,
                strategy,
                shared_pattern,
                all,
                repetitions@,
                stretch_size,
                aligned_aa_edges,
                transfomed_aa_edges,
                prim_instance_index,
                *cache_key,
                *prim_spatial_node,
                *clip_chain,
                *map_prim_to_raster,
                *pic_context,
                *clip_store,
                targets@,
            ),
        decreases repetitions.len() - i,
    {
        let ghost so_far = frame_state@;
        let tile = repetitions[i];
        let tile_rect = Rect::from_origin_and_size(tile.origin, stretch_size);
        let ghost params = repetition_params(
            tile,
            stretch_size,
            aligned_aa_edges,
            transfomed_aa_edges,
            prim_instance_index,
            *prim_spatial_node,
            *clip_chain,
            *map_prim_to_raster,
            *pic_context,
        );
        assert(strategy_applies(strategy, shared_pattern.is_some(), params, *clip_store));
        let tile_mapping = PrimitiveMapping {
            local_to_device: map_prim_to_raster.local_to_device,
            is_2d_axis_aligned: map_prim_to_raster.is_2d_axis_aligned,
            on_screen_size: tile.on_screen_size,
        };
        prepare_quad_impl(
            strategy,
            pattern_builder,
            shared_ref,
            &tile_rect,
            aligned_aa_edges.intersection(tile.edge_flags),
            transfomed_aa_edges.intersection(tile.edge_flags),
            prim_instance_index,
            cache_key,
            prim_spatial_node,
            clip_chain,
            &tile_mapping,
            pic_context,
            targets,
            clip_store,
            frame_state,
            scratch,
        );
        proof {
            let drawn = choose|answers: BuilderAnswers|
                answers_fit(
                    pattern_builder,
                    answers,
                    strategy,
                    shared_pattern.is_some(),
                    params,
                    *pic_context,
                    *clip_store,
                ) && frame_state@ == #[trigger] with_quad(
                    so_far,
                    strategy,
                    shared_pattern,
                    answers,
                    params,
                    *cache_key,
                    *pic_context,
                    *clip_store,
                    targets@,
                );
            assert(all.push(drawn).drop_last() =~= all);
            all = all.push(drawn);
        }
        i += 1;
    }
    assert(repeatable_answers_fit(
            pattern_builder,
            first,
            all,
            *local_rect,
            stretch_size,
            repetitions@,
            aligned_aa_edges,
            transfomed_aa_edges,
            prim_instance_index,
            *cache_key,
            *prim_spatial_node,
            *clip_chain,
            *map_prim_to_raster,
            *pic_context,
            *clip_store,
        ));
    assert(frame_state@ == with_prepared_repeatable_quad(
        before,
        first,
        all,
        *local_rect,
        stretch_size,
        repetitions@,
        aligned_aa_edges,
        transfomed_aa_edges,
        prim_instance_index,
        *cache_key,
        *prim_spatial_node,
        *clip_chain,
        *map_prim_to_raster,
        *pic_context,
        *clip_store,
        targets@,
    ));
}

} // verus!
