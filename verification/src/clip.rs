//! Clip chains as the quad pipeline reads them: each entry carries its shape
//! and the facts about its coordinate space that the pipeline consults.

use crate::geometry::{LayoutRect, LayoutSize, Rect, ScaleOffset};
use crate::pattern::RenderTaskId;
pub use crate::tile_classifier::ClipMode;
use vstd::prelude::*;

verus! {

/// Index of a node of the spatial tree.
#[derive(Clone, Copy, Debug, PartialEq, Eq, Structural)]
pub struct SpatialNodeIndex {
    pub index: u32,
}

/// What the pipeline reads of a node of the spatial tree: its place in the
/// tree, its stable identity, and the coordinate system it belongs to. Two
/// nodes of one coordinate system are related by a scale and an offset.
#[derive(Clone, Copy, Debug, PartialEq, Eq, Structural)]
pub struct SpatialNode {
    pub index: SpatialNodeIndex,
    pub uid: u64,
    pub coordinate_system_id: u32,
}

impl SpatialNode {
    /// The two nodes belong to one coordinate system.
    pub open spec fn spec_is_matching_coord_system(&self, other: &SpatialNode) -> bool {
        self.coordinate_system_id == other.coordinate_system_id
    }

    #[verifier::when_used_as_spec(spec_is_matching_coord_system)]
    pub fn is_matching_coord_system(&self, other: &SpatialNode) -> (r: bool)
        ensures
            r == self.spec_is_matching_coord_system(other),
    {
        self.coordinate_system_id == other.coordinate_system_id
    }
}

/// The four corner radii of a rounded rectangle.
#[derive(Clone, Copy, Debug, PartialEq, Eq, Structural)]
pub struct BorderRadius {
    pub top_left: LayoutSize,
    pub top_right: LayoutSize,
    pub bottom_left: LayoutSize,
    pub bottom_right: LayoutSize,
}

/// The larger of two coordinates.
pub open spec fn max_of(a: int, b: int) -> int {
    if a >= b {
        a
    } else {
        b
    }
}

impl BorderRadius {
    /// The widest corner.
    pub open spec fn spec_max_width(&self) -> int {
        max_of(
            max_of(max_of(self.top_left.width as int, self.bottom_left.width as int), self.top_right.width as int),
            self.bottom_right.width as int,
        )
    }

    /// The tallest corner.
    pub open spec fn spec_max_height(&self) -> int {
        max_of(
            max_of(
                max_of(self.top_left.height as int, self.bottom_left.height as int),
                self.top_right.height as int,
            ),
            self.bottom_right.height as int,
        )
    }

    pub fn max_width(&self) -> (w: i32)
        ensures
            w == self.spec_max_width(),
    {
        let mut w: i32 = self.top_left.width;
        if self.bottom_left.width > w {
            w = self.bottom_left.width;
        }
        if self.top_right.width > w {
            w = self.top_right.width;
        }
        if self.bottom_right.width > w {
            w = self.bottom_right.width;
        }
        w
    }

    pub fn max_height(&self) -> (h: i32)
        ensures
            h == self.spec_max_height(),
    {
        let mut h: i32 = self.top_left.height;
        if self.bottom_left.height > h {
            h = self.bottom_left.height;
        }
        if self.top_right.height > h {
            h = self.top_right.height;
        }
        if self.bottom_right.height > h {
            h = self.bottom_right.height;
        }
        h
    }
}

/// The shape of a clip.
#[derive(Clone, Copy, Debug, PartialEq, Eq, Structural)]
pub enum ClipItemKind {
    Rectangle { rect: LayoutRect, mode: ClipMode },
    RoundedRectangle { rect: LayoutRect, radius: BorderRadius, mode: ClipMode },
    Image { rect: LayoutRect },
    BoxShadow,
}

/// One visible source tile of an image mask.
#[derive(Clone, Copy, Debug, PartialEq, Eq, Structural)]
pub struct VisibleMaskImageTile {
    pub tile_rect: LayoutRect,
    pub task_id: RenderTaskId,
}

/// A run of entries of a store.
#[derive(Clone, Copy, Debug, PartialEq, Eq, Structural)]
pub struct ClipNodeRange {
    pub first: u32,
    pub count: u32,
}

/// One entry of a clip chain.
#[derive(Clone, Copy, Debug, PartialEq, Eq, Structural)]
pub struct ClipItem {
    /// Stable identity of the clip.
    pub uid: u64,
    /// The node that anchors the clip.
    pub spatial_node: SpatialNode,
    pub kind: ClipItemKind,
    /// The clip's rectangle in the space of the primitive, when it can be
    /// mapped there.
    pub rect_in_prim_space: Option<LayoutRect>,
    /// The scale and offset that take the clip's space to device space,
    /// when the two are so related.
    pub to_device: Option<ScaleOffset>,
    /// For a rounded rectangle, a rectangle that lies within the rounded
    /// shape, when one was found.
    pub inner_rect: Option<LayoutRect>,
    /// For a rounded rectangle, whether its radii allow the cheap encoding
    /// with one radius per corner.
    pub can_use_fast_path: bool,
    /// For an image, whether its transform to raster space is a scale and
    /// an offset.
    pub raster_transform_is_scale_offset: bool,
    /// For an image, its visible source tiles in the store.
    pub mask_tiles: ClipNodeRange,
}

/// The clip-chain entries and image-mask tiles of a frame.
pub struct ClipStore {
    pub instances: Vec<ClipItem>,
    pub mask_tiles: Vec<VisibleMaskImageTile>,
}

impl ClipStore {
    /// The store holds every entry of `range`.
    pub open spec fn has_range(&self, range: ClipNodeRange) -> bool {
        range.first + range.count <= self.instances@.len()
    }

    /// The store holds every tile of `range`.
    pub open spec fn has_tiles(&self, range: ClipNodeRange) -> bool {
        range.first + range.count <= self.mask_tiles@.len()
    }

    /// The entries of `range`, in order.
    pub open spec fn range_items(&self, range: ClipNodeRange) -> Seq<ClipItem> {
        self.instances@.subrange(range.first as int, range.first + range.count)
    }

    /// The tiles of `range`, in order.
    pub open spec fn range_tiles(&self, range: ClipNodeRange) -> Seq<VisibleMaskImageTile> {
        self.mask_tiles@.subrange(range.first as int, range.first + range.count)
    }

    /// The store holds the tiles of every image clip of `range`.
    pub open spec fn has_tiles_of(&self, range: ClipNodeRange) -> bool {
        forall|i: int|
            0 <= i < range.count ==> self.has_tiles(
                (#[trigger] self.instances@[range.first + i]).mask_tiles,
            )
    }

    /// Entry `index` of `range`.
    pub fn get_instance_from_range(&self, range: &ClipNodeRange, index: u32) -> (item: &ClipItem)
        requires
            self.has_range(*range),
            index < range.count,
        ensures
            *item == self.range_items(*range)[index as int],
            *item == self.instances@[range.first + index],
    {
        let len = self.instances.len();
        assert(range.first + index < len);
        &self.instances[range.first as usize + index as usize]
    }

    /// Tile `index` of `range`.
    pub fn get_tile_from_range(&self, range: &ClipNodeRange, index: u32) -> (tile:
        &VisibleMaskImageTile)
        requires
            self.has_tiles(*range),
            index < range.count,
        ensures
            *tile == self.range_tiles(*range)[index as int],
    {
        let len = self.mask_tiles.len();
        assert(range.first + index < len);
        &self.mask_tiles[range.first as usize + index as usize]
    }
}

/// The clips that apply to one primitive, with what the clip chain knows
/// of their combined effect.
#[derive(Clone, Copy, Debug, PartialEq, Eq, Structural)]
pub struct ClipChainInstance {
    pub clips_range: ClipNodeRange,
    /// The clip rectangle in the primitive's space.
    pub local_clip_rect: LayoutRect,
    /// What the primitive covers in picture space.
    pub pic_coverage_rect: Rect,
    /// Whether any clip needs more than the clip rectangle.
    pub needs_mask: bool,
}

} // verus!
