//! The choice of a rendering strategy for a quad, and the identity under
//! which a masked render of it can be reused.

use crate::clip::{ClipChainInstance, ClipItem, ClipItemKind, ClipMode, ClipStore, SpatialNode};
use crate::geometry::{LayoutRect, LayoutVector2D, Size};
use crate::tile_classifier::{MAX_TILES_PER_QUAD_X, MAX_TILES_PER_QUAD_Y};
use vstd::prelude::*;

verus! {

/// Extent, in picture units, from which on a quad is worth splitting.
pub const MIN_QUAD_SPLIT_SIZE: i64 = 256;

/// From this many clips on a quad is not cached.
pub const CACHE_MAX_CLIPS: usize = 3;

/// The identity in a key of a clip slot that no clip fills.
pub const NO_CLIP_UID: u64 = 0xffff_ffff_ffff_ffff;

/// Stable identity of an interned item.
#[derive(Clone, Copy, Debug, PartialEq, Eq, Structural)]
pub struct ItemUid {
    pub uid: u64,
}

impl ItemUid {
    pub fn get_uid(&self) -> (uid: u64)
        ensures
            uid == self.uid,
    {
        self.uid
    }
}

/// Identity of a quad with its clips and its anchoring node, under which a
/// masked render task of it is kept for reuse.
#[derive(Clone, Copy, Debug, Hash, PartialEq, Eq)]
pub struct QuadCacheKey {
    pub prim: u64,
    pub clips: [u64; 3],
    pub spatial_node: u64,
}

/// Describes how clipping affects the rendering of a quad primitive.
#[derive(Debug, Copy, Clone, PartialEq, Eq, Structural)]
pub enum QuadRenderStrategy {
    /// The quad is not affected by any mask and is drawn directly in the
    /// destination target.
    Direct,
    /// The quad is drawn entirely in an intermediate target and a mask is
    /// applied before compositing in the destination target.
    Indirect,
    /// A rounded rectangle clip is applied to the quad via a nine-patch:
    /// the corners are masked in an intermediate target, the other parts
    /// are drawn directly.
    NinePatch { radius: LayoutVector2D, clip_rect: LayoutRect },
    /// The quad is split into coarse tiles, each drawn directly or through
    /// an intermediate target on its own.
    Tiled { x_tiles: u16, y_tiles: u16 },
}

/// The identities of up to three clips, the free slots filled with
/// `NO_CLIP_UID`.
pub open spec fn clip_uid_slots(clips: Seq<ClipItem>) -> Seq<u64> {
    Seq::new(
        3,
        |i: int|
            if i < clips.len() {
                clips[i].uid
            } else {
                NO_CLIP_UID
            },
    )
}

/// A quad can be cached when it has fewer than three clips and each of them
/// is anchored to the node of the primitive.
pub open spec fn cacheable(prim_node: SpatialNode, clips: Seq<ClipItem>) -> bool {
    &&& clips.len() < CACHE_MAX_CLIPS
    &&& forall|i: int| 0 <= i < clips.len() ==> (#[trigger] clips[i]).spatial_node.index == prim_node.index
}

/// `key` is the key of the primitive `prim_uid` anchored to `prim_node`
/// with the clips `clips`.
pub open spec fn is_cache_key_of(
    key: QuadCacheKey,
    prim_uid: ItemUid,
    prim_node: SpatialNode,
    clips: Seq<ClipItem>,
) -> bool {
    &&& key.prim == prim_uid.uid
    &&& key.clips@ == clip_uid_slots(clips)
    &&& key.spatial_node == prim_node.uid
}

/// The key of a quad is determined by the quad: two keys of the same
/// primitive, node and clips agree in every part.
pub proof fn lemma_cache_key_stable(
    first: QuadCacheKey,
    second: QuadCacheKey,
    prim_uid: ItemUid,
    prim_node: SpatialNode,
    clips: Seq<ClipItem>,
)
    requires
        is_cache_key_of(first, prim_uid, prim_node, clips),
        is_cache_key_of(second, prim_uid, prim_node, clips),
    ensures
        first.prim == second.prim,
        first.clips@ == second.clips@,
        first.spatial_node == second.spatial_node,
        first.clips[0] == second.clips[0],
        first.clips[1] == second.clips[1],
        first.clips[2] == second.clips[2],
{
}

/// The key under which a masked render of the quad is cached, or nothing
/// when the quad cannot be cached.
pub fn cache_key(
    prim_uid: ItemUid,
    prim_spatial_node: &SpatialNode,
    clip_chain: &ClipChainInstance,
    clip_store: &ClipStore,
) -> (key: Option<QuadCacheKey>)
    requires
        clip_store.has_range(clip_chain.clips_range),
    ensures
        key.is_some() <==> cacheable(
            *prim_spatial_node,
            clip_store.range_items(clip_chain.clips_range),
        ),
        key.is_some() ==> is_cache_key_of(
            key.unwrap(),
            prim_uid,
            *prim_spatial_node,
            clip_store.range_items(clip_chain.clips_range),
        ),
{
    let range = clip_chain.clips_range;
    let ghost clips = clip_store.range_items(range);
    if range.count as usize >= CACHE_MAX_CLIPS {
        return None;
    }
    let mut clip_uids: [u64; 3] = [NO_CLIP_UID; 3];
    let mut i: u32 = 0;
    while i < range.count
        invariant
            i <= range.count,
            range.count < CACHE_MAX_CLIPS,
            range == clip_chain.clips_range,
            clip_store.has_range(range),
            clips == clip_store.range_items(range),
            forall|k: int| 0 <= k < i ==> (#[trigger] clips[k]).spatial_node.index == prim_spatial_node.index,
            forall|k: int|
                0 <= k < 3 ==> clip_uids@[k] == (if k < i {
                    clips[k].uid
                } else {
                    NO_CLIP_UID
                }),
        decreases range.count - i,
    {
        let clip = clip_store.get_instance_from_range(&range, i);
        clip_uids[i as usize] = clip.uid;
        if clip.spatial_node.index.index != prim_spatial_node.index.index {
            assert(clips[i as int].spatial_node.index != prim_spatial_node.index);
            return None;
        }
        i += 1;
    }
    assert(clip_uids@ =~= clip_uid_slots(clips));
    Some(QuadCacheKey { prim: prim_uid.get_uid(), clips: clip_uids, spatial_node: prim_spatial_node.uid })
}

/// Number of tiles along an axis for a covered extent: the extent in units
/// of `MIN_QUAD_SPLIT_SIZE`, rounded up, at least one and at most `max`.
pub open spec fn tile_count(extent: int, max: int) -> int {
    let wanted = (extent + (MIN_QUAD_SPLIT_SIZE - 1)) / (MIN_QUAD_SPLIT_SIZE as int);
    if wanted < 1 {
        1
    } else if wanted > max {
        max
    } else {
        wanted
    }
}

/// Computes `tile_count`.
pub fn tile_count_for(extent: i64, max: u16) -> (n: u16)
    requires
        1 <= max,
    ensures
        n == tile_count(extent as int, max as int),
        1 <= n <= max,
{
    if extent <= MIN_QUAD_SPLIT_SIZE {
        1
    } else {
        let wanted: i64 = (extent - 1) / MIN_QUAD_SPLIT_SIZE + 1;
        if wanted > max as i64 {
            max
        } else {
            wanted as u16
        }
    }
}

/// The nine-patch that a single clip allows: the clip is a rounded
/// rectangle in `Clip` mode whose largest corner is at most half of the
/// rectangle on both axes, it shares the coordinate system of the
/// primitive, and its rectangle can be mapped into the primitive's space.
pub open spec fn nine_patch_of(prim_node: SpatialNode, clip: ClipItem) -> Option<
    QuadRenderStrategy,
> {
    match clip.kind {
        ClipItemKind::RoundedRectangle { rect, radius, mode } => {
            if mode == ClipMode::Clip && 2 * radius.spec_max_width() <= rect.spec_width() && 2
                * radius.spec_max_height() <= rect.spec_height()
                && prim_node.spec_is_matching_coord_system(&clip.spatial_node)
                && clip.rect_in_prim_space.is_some() {
                Some(
                    QuadRenderStrategy::NinePatch {
                        radius: Size {
                            width: radius.spec_max_width() as i32,
                            height: radius.spec_max_height() as i32,
                        },
                        clip_rect: clip.rect_in_prim_space.unwrap(),
                    },
                )
            } else {
                None
            }
        },
        _ => None,
    }
}

/// The strategy for a quad that has no cache key.
pub open spec fn prim_render_strategy(
    prim_node: SpatialNode,
    clip_chain: ClipChainInstance,
    clips: Seq<ClipItem>,
    can_use_nine_patch: bool,
    prim_is_scale_offset: bool,
) -> QuadRenderStrategy {
    let x_tiles = tile_count(clip_chain.pic_coverage_rect.spec_width(), MAX_TILES_PER_QUAD_X as int);
    let y_tiles = tile_count(
        clip_chain.pic_coverage_rect.spec_height(),
        MAX_TILES_PER_QUAD_Y as int,
    );
    if !clip_chain.needs_mask {
        QuadRenderStrategy::Direct
    } else if !prim_is_scale_offset || (x_tiles <= 1 && y_tiles <= 1) {
        QuadRenderStrategy::Indirect
    } else if can_use_nine_patch && clips.len() == 1 && nine_patch_of(prim_node, clips[0]).is_some() {
        nine_patch_of(prim_node, clips[0]).unwrap()
    } else {
        QuadRenderStrategy::Tiled { x_tiles: x_tiles as u16, y_tiles: y_tiles as u16 }
    }
}

/// Chooses how a quad without a cache key is rendered.
pub fn get_prim_render_strategy(
    prim_spatial_node: &SpatialNode,
    clip_chain: &ClipChainInstance,
    clip_store: &ClipStore,
    can_use_nine_patch: bool,
    prim_is_scale_offset: bool,
) -> (strategy: QuadRenderStrategy)
    requires
        clip_store.has_range(clip_chain.clips_range),
    ensures
        strategy == prim_render_strategy(
            *prim_spatial_node,
            *clip_chain,
            clip_store.range_items(clip_chain.clips_range),
            can_use_nine_patch,
            prim_is_scale_offset,
        ),
        strategy matches QuadRenderStrategy::Tiled { x_tiles, y_tiles } ==> 1 <= x_tiles
            <= MAX_TILES_PER_QUAD_X && 1 <= y_tiles <= MAX_TILES_PER_QUAD_Y && (x_tiles > 1
            || y_tiles > 1),
{
    if !clip_chain.needs_mask {
        return QuadRenderStrategy::Direct;
    }
    let mut x_tiles: u16 = 0;
    let mut y_tiles: u16 = 0;
    let try_split_prim = if prim_is_scale_offset {
        x_tiles = tile_count_for(clip_chain.pic_coverage_rect.width(), MAX_TILES_PER_QUAD_X as u16);
        y_tiles = tile_count_for(clip_chain.pic_coverage_rect.height(), MAX_TILES_PER_QUAD_Y as u16);
        x_tiles > 1 || y_tiles > 1
    } else {
        false
    };

    if !try_split_prim {
        return QuadRenderStrategy::Indirect;
    }
    if can_use_nine_patch && clip_chain.clips_range.count == 1 {
        let clip = clip_store.get_instance_from_range(&clip_chain.clips_range, 0);
        if let ClipItemKind::RoundedRectangle { rect, radius, mode } = clip.kind {
            if mode == ClipMode::Clip {
                let max_corner_width = radius.max_width();
                let max_corner_height = radius.max_height();
                if 2 * (max_corner_width as i64) <= rect.width() && 2 * (max_corner_height as i64)
                    <= rect.height() {
                    if prim_spatial_node.is_matching_coord_system(&clip.spatial_node) {
                        if let Some(rect) = clip.rect_in_prim_space {
                            return QuadRenderStrategy::NinePatch {
                                radius: Size::new(max_corner_width, max_corner_height),
                                clip_rect: rect,
                            };
                        }
                    }
                }
            }
        }
    }
    QuadRenderStrategy::Tiled { x_tiles, y_tiles }
}

} // verus!
