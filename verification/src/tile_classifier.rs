//! Classification of the cells of a bounded grid laid over a primitive: each
//! cell is clipped out, drawn directly, or drawn through a mask, and runs of
//! compatible cells in a row are merged into wider tiles.

use crate::geometry::{DeviceRect, Point, Rect};
use crate::rounding::{grid_line, grid_line_i32, lemma_grid_line_within};
use vstd::arithmetic::div_mod::lemma_fundamental_div_mod_converse;
use vstd::prelude::*;

verus! {

/// Most columns a grid can have.
pub const MAX_TILES_PER_QUAD_X: usize = 8;

/// Most rows a grid can have.
pub const MAX_TILES_PER_QUAD_Y: usize = 4;

/// Capacity of the classifier's grid, in cells.
pub const MAX_TILES_PER_QUAD: usize = 32;

/// Widest merged tile, in device units, that is still drawn through a mask.
pub const MAX_MASKED_TILE_WIDTH: i64 = 1024;

/// How a clip shape acts on what it covers.
#[derive(Debug, Copy, Clone, PartialEq, Eq, Structural)]
pub enum ClipMode {
    /// Keep what is inside the shape.
    Clip,
    /// Keep what is outside the shape.
    ClipOut,
}

/// Classification result for a tile within a quad.
#[derive(Debug, Copy, Clone, PartialEq, Eq, Structural)]
pub enum QuadTileKind {
    /// Clipped out: can be skipped.
    Clipped,
    /// Drawn with the pattern, through a mask if `has_mask`.
    Pattern { has_mask: bool },
}

/// A grid cell, or a run of merged cells, with its classification.
#[derive(Copy, Clone, Debug, PartialEq, Eq, Structural)]
pub struct QuadTileInfo {
    pub rect: DeviceRect,
    pub kind: QuadTileKind,
}

impl Default for QuadTileInfo {
    fn default() -> (info: QuadTileInfo)
        ensures
            info == (QuadTileInfo {
                rect: Rect::spec_zero(),
                kind: QuadTileKind::Pattern { has_mask: false },
            }),
    {
        QuadTileInfo { rect: Rect::zero(), kind: QuadTileKind::Pattern { has_mask: false } }
    }
}

/// The box of the cell in column `x` and row `y` of the grid that cuts
/// `rect` into `x_tiles` columns and `y_tiles` rows.
pub open spec fn grid_cell_rect(rect: Rect, x_tiles: int, y_tiles: int, x: int, y: int) -> Rect {
    Rect {
        min: Point {
            x: grid_line(rect.min.x as int, rect.max.x as int, x_tiles, x) as i32,
            y: grid_line(rect.min.y as int, rect.max.y as int, y_tiles, y) as i32,
        },
        max: Point {
            x: grid_line(rect.min.x as int, rect.max.x as int, x_tiles, x + 1) as i32,
            y: grid_line(rect.min.y as int, rect.max.y as int, y_tiles, y + 1) as i32,
        },
    }
}

/// The cells of a freshly laid grid, row by row.
pub open spec fn grid_cells(rect: Rect, x_tiles: int, y_tiles: int, force_masks: bool) -> Seq<
    QuadTileInfo,
> {
    Seq::new(
        (x_tiles * y_tiles) as nat,
        |i: int|
            QuadTileInfo {
                rect: grid_cell_rect(rect, x_tiles, y_tiles, i % x_tiles, i / x_tiles),
                kind: QuadTileKind::Pattern { has_mask: force_masks },
            },
    )
}

/// Some region of `regions` fails to intersect `rect`.
pub open spec fn misses_some(regions: Seq<Rect>, rect: Rect) -> bool {
    exists|i: int| 0 <= i < regions.len() && !(#[trigger] regions[i]).spec_intersects(rect)
}

/// Some region of `regions` contains `rect`.
pub open spec fn contained_by_some(regions: Seq<Rect>, rect: Rect) -> bool {
    exists|i: int| 0 <= i < regions.len() && (#[trigger] regions[i]).spec_contains_box(rect)
}

/// Some region of `regions` intersects `rect`.
pub open spec fn touched_by_some(regions: Seq<Rect>, rect: Rect) -> bool {
    exists|i: int| 0 <= i < regions.len() && (#[trigger] regions[i]).spec_intersects(rect)
}

/// The classification of a cell: clipped when a clip-in region misses it or
/// a clip-out region contains it; otherwise masked when masks are forced or
/// a mask region touches it.
pub open spec fn classified_kind(
    rect: Rect,
    force_masks: bool,
    clip_in: Seq<Rect>,
    clip_out: Seq<Rect>,
    masks: Seq<Rect>,
) -> QuadTileKind {
    if misses_some(clip_in, rect) || contained_by_some(clip_out, rect) {
        QuadTileKind::Clipped
    } else {
        QuadTileKind::Pattern { has_mask: force_masks || touched_by_some(masks, rect) }
    }
}

/// The cells of a grid after classification against the three region lists.
pub open spec fn classified_cells(
    rect: Rect,
    x_tiles: int,
    y_tiles: int,
    force_masks: bool,
    clip_in: Seq<Rect>,
    clip_out: Seq<Rect>,
    masks: Seq<Rect>,
) -> Seq<QuadTileInfo> {
    Seq::new(
        (x_tiles * y_tiles) as nat,
        |i: int|
            {
                let r = grid_cell_rect(rect, x_tiles, y_tiles, i % x_tiles, i / x_tiles);
                QuadTileInfo {
                    rect: r,
                    kind: classified_kind(r, force_masks, clip_in, clip_out, masks),
                }
            },
    )
}

/// Index of the first cell at or after `from` that is not clipped, or the
/// length of `cells` when there is none.
pub open spec fn first_unclipped(cells: Seq<QuadTileInfo>, from: int) -> int
    decreases cells.len() - from,
{
    if from < 0 || from >= cells.len() {
        cells.len() as int
    } else if cells[from].kind == QuadTileKind::Clipped {
        first_unclipped(cells, from + 1)
    } else {
        from
    }
}

/// Whether `next` may join the run that `first` started: same row, same
/// classification, and, for a masked run, a merged width within the limit.
pub open spec fn mergeable(first: QuadTileInfo, next: QuadTileInfo) -> bool {
    &&& first.rect.min.y == next.rect.min.y
    &&& first.kind == next.kind
    &&& (first.kind == (QuadTileKind::Pattern { has_mask: true }) ==> next.rect.max.x
        - first.rect.min.x <= MAX_MASKED_TILE_WIDTH)
}

/// One past the last cell of the run that `first` started, when the cells
/// from `from` on are the candidates to join it.
pub open spec fn run_end(cells: Seq<QuadTileInfo>, first: QuadTileInfo, from: int) -> int
    decreases cells.len() - from,
{
    if from < 0 || from >= cells.len() {
        from
    } else if mergeable(first, cells[from]) {
        run_end(cells, first, from + 1)
    } else {
        from
    }
}

/// The tile made of the cells `start .. end` of one run: the first cell,
/// stretched to the right edge of the last.
pub open spec fn merged_tile(cells: Seq<QuadTileInfo>, start: int, end: int) -> QuadTileInfo {
    QuadTileInfo {
        rect: Rect {
            min: cells[start].rect.min,
            max: Point { x: cells[end - 1].rect.max.x, y: cells[start].rect.max.y },
        },
        kind: cells[start].kind,
    }
}

/// The tiles that remain to be yielded from position `from` on.
pub open spec fn merged_tiles(cells: Seq<QuadTileInfo>, from: int) -> Seq<QuadTileInfo>
    decreases cells.len() - from,
    when from >= 0
    via merged_tiles_decreases
{
    let start = first_unclipped(cells, from);
    if start >= cells.len() {
        Seq::empty()
    } else {
        let end = run_end(cells, cells[start], start + 1);
        seq![merged_tile(cells, start, end)] + merged_tiles(cells, end)
    }
}

#[via_fn]
proof fn merged_tiles_decreases(cells: Seq<QuadTileInfo>, from: int) {
    if from <= cells.len() {
        lemma_first_unclipped(cells, from);
        let start = first_unclipped(cells, from);
        if start < cells.len() {
            lemma_run_end(cells, cells[start], start + 1);
        }
    }
}

/// `first_unclipped` stops at an unclipped cell at or after `from`, with
/// only clipped cells before it.
pub proof fn lemma_first_unclipped(cells: Seq<QuadTileInfo>, from: int)
    requires
        0 <= from <= cells.len(),
    ensures
        from <= first_unclipped(cells, from) <= cells.len(),
        first_unclipped(cells, from) < cells.len() ==> cells[first_unclipped(cells, from)].kind
            != QuadTileKind::Clipped,
        forall|i: int|
            from <= i < first_unclipped(cells, from) ==> (#[trigger] cells[i]).kind
                == QuadTileKind::Clipped,
    decreases cells.len() - from,
{
    if from < cells.len() && cells[from].kind == QuadTileKind::Clipped {
        lemma_first_unclipped(cells, from + 1);
    }
}

/// A run holds only cells that may join it, and ends at the end of the
/// cells or at a cell that may not.
pub proof fn lemma_run_end(cells: Seq<QuadTileInfo>, first: QuadTileInfo, from: int)
    requires
        0 <= from <= cells.len(),
    ensures
        from <= run_end(cells, first, from) <= cells.len(),
        forall|i: int|
            from <= i < run_end(cells, first, from) ==> mergeable(first, #[trigger] cells[i]),
        run_end(cells, first, from) < cells.len() ==> !mergeable(
            first,
            cells[run_end(cells, first, from)],
        ),
    decreases cells.len() - from,
{
    if from < cells.len() && mergeable(first, cells[from]) {
        lemma_run_end(cells, first, from + 1);
    }
}

/// Decides the classification of one cell.
pub fn classify_tile(
    rect: &DeviceRect,
    force_masks: bool,
    clip_in: &Vec<DeviceRect>,
    clip_out: &Vec<DeviceRect>,
    masks: &Vec<DeviceRect>,
) -> (kind: QuadTileKind)
    ensures
        kind == classified_kind(*rect, force_masks, clip_in@, clip_out@, masks@),
{
    let mut clipped = false;
    let mut i: usize = 0;
    while i < clip_in.len()
        invariant
            i <= clip_in.len(),
            clipped == misses_some(clip_in@.take(i as int), *rect),
        decreases clip_in.len() - i,
    {
        let hit = clip_in[i].intersects(rect);
        proof {
            let before = clip_in@.take(i as int);
            let after = clip_in@.take(i as int + 1);
            assert(after[i as int] == clip_in@[i as int]);
            if misses_some(before, *rect) {
                let w = choose|w: int| 0 <= w < before.len() && !before[w].spec_intersects(*rect);
                assert(after[w] == before[w]);
            }
            if misses_some(after, *rect) && hit {
                let w = choose|w: int| 0 <= w < after.len() && !after[w].spec_intersects(*rect);
                assert(before[w] == after[w]);
            }
        }
        if !hit {
            clipped = true;
        }
        i += 1;
    }
    assert(clip_in@.take(clip_in@.len() as int) =~= clip_in@);

    let mut contained = false;
    let mut i: usize = 0;
    while i < clip_out.len()
        invariant
            i <= clip_out.len(),
            contained == contained_by_some(clip_out@.take(i as int), *rect),
        decreases clip_out.len() - i,
    {
        let inside = clip_out[i].contains_box(rect);
        proof {
            let before = clip_out@.take(i as int);
            let after = clip_out@.take(i as int + 1);
            assert(after[i as int] == clip_out@[i as int]);
            if contained_by_some(before, *rect) {
                let w = choose|w: int| 0 <= w < before.len() && before[w].spec_contains_box(*rect);
                assert(after[w] == before[w]);
            }
            if contained_by_some(after, *rect) && !inside {
                let w = choose|w: int| 0 <= w < after.len() && after[w].spec_contains_box(*rect);
                assert(before[w] == after[w]);
            }
        }
        if inside {
            contained = true;
        }
        i += 1;
    }
    assert(clip_out@.take(clip_out@.len() as int) =~= clip_out@);

    if clipped || contained {
        return QuadTileKind::Clipped;
    }
    let mut has_mask = force_masks;
    let mut i: usize = 0;
    while i < masks.len()
        invariant
            i <= masks.len(),
            has_mask == (force_masks || touched_by_some(masks@.take(i as int), *rect)),
        decreases masks.len() - i,
    {
        let hit = masks[i].intersects(rect);
        proof {
            let before = masks@.take(i as int);
            let after = masks@.take(i as int + 1);
            assert(after[i as int] == masks@[i as int]);
            if touched_by_some(before, *rect) {
                let w = choose|w: int| 0 <= w < before.len() && before[w].spec_intersects(*rect);
                assert(after[w] == before[w]);
            }
            if touched_by_some(after, *rect) && !hit {
                let w = choose|w: int| 0 <= w < after.len() && after[w].spec_intersects(*rect);
                assert(before[w] == after[w]);
            }
        }
        if hit {
            has_mask = true;
        }
        i += 1;
    }
    assert(masks@.take(masks@.len() as int) =~= masks@);
    QuadTileKind::Pattern { has_mask }
}

/// Grid lines of a span of 32-bit coordinates are 32-bit coordinates.
pub proof fn lemma_grid_cell_rect_exact(rect: Rect, x_tiles: int, y_tiles: int, x: int, y: int)
    requires
        x_tiles > 0,
        y_tiles > 0,
    ensures
        grid_cell_rect(rect, x_tiles, y_tiles, x, y).min.x == grid_line(
            rect.min.x as int,
            rect.max.x as int,
            x_tiles,
            x,
        ),
        grid_cell_rect(rect, x_tiles, y_tiles, x, y).max.x == grid_line(
            rect.min.x as int,
            rect.max.x as int,
            x_tiles,
            x + 1,
        ),
        grid_cell_rect(rect, x_tiles, y_tiles, x, y).min.y == grid_line(
            rect.min.y as int,
            rect.max.y as int,
            y_tiles,
            y,
        ),
        grid_cell_rect(rect, x_tiles, y_tiles, x, y).max.y == grid_line(
            rect.min.y as int,
            rect.max.y as int,
            y_tiles,
            y + 1,
        ),
{
    lemma_grid_line_within(rect.min.x as int, rect.max.x as int, x_tiles, x);
    lemma_grid_line_within(rect.min.x as int, rect.max.x as int, x_tiles, x + 1);
    lemma_grid_line_within(rect.min.y as int, rect.max.y as int, y_tiles, y);
    lemma_grid_line_within(rect.min.y as int, rect.max.y as int, y_tiles, y + 1);
}

/// A helper for classifying the cells of a grid laid over a quad by how
/// each of them has to be drawn.
///
/// The classifier is armed by `reset` and disarmed by `classify`; it has to
/// be reset again before each further use.
pub struct QuadTileClassifier {
    buffer: Vec<QuadTileInfo>,
    mask_regions: Vec<DeviceRect>,
    clip_in_regions: Vec<DeviceRect>,
    clip_out_regions: Vec<DeviceRect>,
    rect: DeviceRect,
    x_tiles: usize,
    y_tiles: usize,
    force_masks: bool,
}

impl QuadTileClassifier {
    /// Number of columns of the armed grid, zero when disarmed.
    pub closed spec fn x_tiles(&self) -> usize {
        self.x_tiles
    }

    /// Number of rows of the armed grid, zero when disarmed.
    pub closed spec fn y_tiles(&self) -> usize {
        self.y_tiles
    }

    /// The rectangle the grid was laid over.
    pub closed spec fn rect(&self) -> DeviceRect {
        self.rect
    }

    /// Whether every surviving cell is treated as masked.
    pub closed spec fn force_masks(&self) -> bool {
        self.force_masks
    }

    /// Regions that force a mask on the cells they touch.
    pub closed spec fn mask_regions(&self) -> Seq<DeviceRect> {
        self.mask_regions@
    }

    /// Regions a cell has to intersect to survive.
    pub closed spec fn clip_in_regions(&self) -> Seq<DeviceRect> {
        self.clip_in_regions@
    }

    /// Regions a cell must not lie within to survive.
    pub closed spec fn clip_out_regions(&self) -> Seq<DeviceRect> {
        self.clip_out_regions@
    }

    /// The cells of the grid, row by row.
    pub closed spec fn cells(&self) -> Seq<QuadTileInfo> {
        self.buffer@.take(self.x_tiles * self.y_tiles)
    }

    /// The grid fits the buffer, and its cells are those of a fresh grid
    /// over `rect()`.
    pub closed spec fn wf(&self) -> bool {
        &&& self.buffer@.len() == MAX_TILES_PER_QUAD
        &&& self.x_tiles * self.y_tiles <= MAX_TILES_PER_QUAD
        &&& self.cells() == grid_cells(
            self.rect,
            self.x_tiles as int,
            self.y_tiles as int,
            self.force_masks,
        )
    }

    /// Whether the classifier is disarmed: it can be reset, and cannot
    /// classify.
    pub fn is_disarmed(&self) -> (r: bool)
        ensures
            r == (self.x_tiles() == 0 && self.y_tiles() == 0),
    {
        self.x_tiles == 0 && self.y_tiles == 0
    }

    /// Whether the classifier is armed with a grid that has cells: it can
    /// classify.
    pub fn is_armed(&self) -> (r: bool)
        ensures
            r == (self.x_tiles() != 0 && self.y_tiles() != 0),
    {
        self.x_tiles != 0 && self.y_tiles != 0
    }

    /// A disarmed classifier without regions.
    pub fn new() -> (qc: QuadTileClassifier)
        ensures
            qc.wf(),
            qc.x_tiles() == 0,
            qc.y_tiles() == 0,
            qc.rect() == Rect::spec_zero(),
            !qc.force_masks(),
            qc.mask_regions() == Seq::<DeviceRect>::empty(),
            qc.clip_in_regions() == Seq::<DeviceRect>::empty(),
            qc.clip_out_regions() == Seq::<DeviceRect>::empty(),
    {
        let mut buffer: Vec<QuadTileInfo> = Vec::new();
        let mut i: usize = 0;
        while i < MAX_TILES_PER_QUAD
            invariant
                i <= MAX_TILES_PER_QUAD,
                buffer@.len() == i,
            decreases MAX_TILES_PER_QUAD - i,
        {
            buffer.push(QuadTileInfo::default());
            i += 1;
        }
        let qc = QuadTileClassifier {
            buffer,
            mask_regions: Vec::new(),
            clip_in_regions: Vec::new(),
            clip_out_regions: Vec::new(),
            rect: Rect::zero(),
            x_tiles: 0,
            y_tiles: 0,
            force_masks: false,
        };
        assert(qc.cells() =~= grid_cells(qc.rect, 0, 0, false));
        qc
    }

    /// Arms the classifier: lays a grid of `x_tiles` columns and `y_tiles`
    /// rows over `rect` and forgets all regions.
    pub fn reset(&mut self, x_tiles: usize, y_tiles: usize, rect: DeviceRect, force_masks: bool)
        requires
            old(self).wf(),
            old(self).x_tiles() == 0,
            old(self).y_tiles() == 0,
            x_tiles * y_tiles <= MAX_TILES_PER_QUAD,
        ensures
            final(self).wf(),
            final(self).x_tiles() == x_tiles,
            final(self).y_tiles() == y_tiles,
            final(self).rect() == rect,
            final(self).force_masks() == force_masks,
            final(self).mask_regions() == Seq::<DeviceRect>::empty(),
            final(self).clip_in_regions() == Seq::<DeviceRect>::empty(),
            final(self).clip_out_regions() == Seq::<DeviceRect>::empty(),
            final(self).cells() == grid_cells(rect, x_tiles as int, y_tiles as int, force_masks),
            final(self).cells().len() == x_tiles * y_tiles,
            final(self).cells().len() <= MAX_TILES_PER_QUAD,
    {
        self.x_tiles = x_tiles;
        self.y_tiles = y_tiles;
        self.rect = rect;
        self.force_masks = force_masks;
        self.mask_regions.clear();
        self.clip_in_regions.clear();
        self.clip_out_regions.clear();

        let ghost fresh = grid_cells(rect, x_tiles as int, y_tiles as int, force_masks);
        if x_tiles == 0 || y_tiles == 0 {
            assert(x_tiles * y_tiles == 0) by (nonlinear_arith)
                requires
                    x_tiles == 0 || y_tiles == 0,
            ;
            assert(self.cells() =~= fresh);
            return ;
        }
        assert(x_tiles <= MAX_TILES_PER_QUAD && y_tiles <= MAX_TILES_PER_QUAD) by (nonlinear_arith)
            requires
                x_tiles * y_tiles <= MAX_TILES_PER_QUAD,
                x_tiles >= 1,
                y_tiles >= 1,
        ;
        let mut y0: i32 = rect.min.y;
        let mut y: usize = 0;
        while y < y_tiles
            invariant
                y <= y_tiles,
                0 < x_tiles <= MAX_TILES_PER_QUAD,
                0 < y_tiles <= MAX_TILES_PER_QUAD,
                y * x_tiles <= x_tiles * y_tiles,
                x_tiles * y_tiles <= MAX_TILES_PER_QUAD,
                self.buffer@.len() == MAX_TILES_PER_QUAD,
                self.x_tiles == x_tiles,
                self.y_tiles == y_tiles,
                self.rect == rect,
                self.force_masks == force_masks,
                self.mask_regions@ == Seq::<DeviceRect>::empty(),
                self.clip_in_regions@ == Seq::<DeviceRect>::empty(),
                self.clip_out_regions@ == Seq::<DeviceRect>::empty(),
                fresh == grid_cells(rect, x_tiles as int, y_tiles as int, force_masks),
                y0 == grid_line(rect.min.y as int, rect.max.y as int, y_tiles as int, y as int),
                forall|i: int| 0 <= i < y * x_tiles ==> self.buffer@[i] == fresh[i],
            decreases y_tiles - y,
        {
            assert(y * x_tiles + x_tiles <= x_tiles * y_tiles) by (nonlinear_arith)
                requires
                    y < y_tiles,
                    x_tiles > 0,
            ;
            let y1: i32 = grid_line_i32(rect.min.y, rect.max.y, y_tiles, y + 1);
            let mut x0: i32 = rect.min.x;
            let mut x: usize = 0;
            while x < x_tiles
                invariant
                    x <= x_tiles,
                    y < y_tiles,
                    y * x_tiles + x_tiles <= x_tiles * y_tiles,
                    0 < x_tiles <= MAX_TILES_PER_QUAD,
                    0 < y_tiles <= MAX_TILES_PER_QUAD,
                    x_tiles * y_tiles <= MAX_TILES_PER_QUAD,
                    self.buffer@.len() == MAX_TILES_PER_QUAD,
                    self.x_tiles == x_tiles,
                    self.y_tiles == y_tiles,
                    self.rect == rect,
                    self.force_masks == force_masks,
                    self.mask_regions@ == Seq::<DeviceRect>::empty(),
                    self.clip_in_regions@ == Seq::<DeviceRect>::empty(),
                    self.clip_out_regions@ == Seq::<DeviceRect>::empty(),
                    fresh == grid_cells(rect, x_tiles as int, y_tiles as int, force_masks),
                    y0 == grid_line(rect.min.y as int, rect.max.y as int, y_tiles as int, y as int),
                    y1 == grid_line(
                        rect.min.y as int,
                        rect.max.y as int,
                        y_tiles as int,
                        y as int + 1,
                    ),
                    x0 == grid_line(rect.min.x as int, rect.max.x as int, x_tiles as int, x as int),
                    forall|i: int| 0 <= i < y * x_tiles + x ==> self.buffer@[i] == fresh[i],
                decreases x_tiles - x,
            {
                let x1: i32 = grid_line_i32(rect.min.x, rect.max.x, x_tiles, x + 1);
                let index: usize = y * x_tiles + x;
                let info = QuadTileInfo {
                    rect: Rect::new(Point::new(x0, y0), Point::new(x1, y1)),
                    kind: QuadTileKind::Pattern { has_mask: force_masks },
                };
                proof {
                    lemma_fundamental_div_mod_converse(
                        index as int,
                        x_tiles as int,
                        y as int,
                        x as int,
                    );
                    lemma_grid_cell_rect_exact(
                        rect,
                        x_tiles as int,
                        y_tiles as int,
                        x as int,
                        y as int,
                    );
                    assert(info == fresh[index as int]);
                }
                self.buffer.set(index, info);
                x0 = x1;
                x += 1;
            }
            assert((y + 1) * x_tiles == y * x_tiles + x_tiles) by (nonlinear_arith);
            y0 = y1;
            y += 1;
        }
        assert(y_tiles * x_tiles == x_tiles * y_tiles) by (nonlinear_arith);
        assert(self.cells() =~= fresh);
    }

    /// Adds an area in which surviving cells need a mask.
    pub fn add_mask_region(&mut self, mask_region: DeviceRect)
        requires
            old(self).wf(),
        ensures
            final(self).wf(),
            final(self).mask_regions() == old(self).mask_regions().push(mask_region),
            final(self).clip_in_regions() == old(self).clip_in_regions(),
            final(self).clip_out_regions() == old(self).clip_out_regions(),
            final(self).x_tiles() == old(self).x_tiles(),
            final(self).y_tiles() == old(self).y_tiles(),
            final(self).rect() == old(self).rect(),
            final(self).force_masks() == old(self).force_masks(),
            final(self).cells() == old(self).cells(),
    {
        self.mask_regions.push(mask_region);
    }

    /// Adds a clip rectangle. In `Clip` mode cells that do not intersect it
    /// will be clipped. In `ClipOut` mode cells that lie within it will be
    /// clipped, and the whole grid rectangle becomes a mask region.
    pub fn add_clip_rect(&mut self, clip_rect: DeviceRect, clip_mode: ClipMode)
        requires
            old(self).wf(),
        ensures
            final(self).wf(),
            final(self).x_tiles() == old(self).x_tiles(),
            final(self).y_tiles() == old(self).y_tiles(),
            final(self).rect() == old(self).rect(),
            final(self).force_masks() == old(self).force_masks(),
            final(self).cells() == old(self).cells(),
            clip_mode == ClipMode::Clip ==> {
                &&& final(self).clip_in_regions() == old(self).clip_in_regions().push(clip_rect)
                &&& final(self).clip_out_regions() == old(self).clip_out_regions()
                &&& final(self).mask_regions() == old(self).mask_regions()
            },
            clip_mode == ClipMode::ClipOut ==> {
                &&& final(self).clip_in_regions() == old(self).clip_in_regions()
                &&& final(self).clip_out_regions() == old(self).clip_out_regions().push(clip_rect)
                &&& final(self).mask_regions() == old(self).mask_regions().push(old(self).rect())
            },
    {
        match clip_mode {
            ClipMode::Clip => {
                self.clip_in_regions.push(clip_rect);
            },
            ClipMode::ClipOut => {
                self.clip_out_regions.push(clip_rect);
                let rect = self.rect;
                self.add_mask_region(rect);
            },
        }
    }

    /// Classifies every cell against the regions added since the last
    /// `reset`, disarms the classifier, and hands out the surviving cells
    /// as a sequence of merged tiles.
    pub fn classify(&mut self) -> (tiles: QuadTileIterator)
        requires
            old(self).wf(),
            old(self).x_tiles() != 0,
            old(self).y_tiles() != 0,
        ensures
            final(self).wf(),
            final(self).x_tiles() == 0,
            final(self).y_tiles() == 0,
            final(self).rect() == old(self).rect(),
            final(self).force_masks() == old(self).force_masks(),
            final(self).mask_regions() == old(self).mask_regions(),
            final(self).clip_in_regions() == old(self).clip_in_regions(),
            final(self).clip_out_regions() == old(self).clip_out_regions(),
            tiles.wf(),
            tiles.position() == 0,
            tiles.cells() == classified_cells(
                old(self).rect(),
                old(self).x_tiles() as int,
                old(self).y_tiles() as int,
                old(self).force_masks(),
                old(self).clip_in_regions(),
                old(self).clip_out_regions(),
                old(self).mask_regions(),
            ),
    {
        let tile_count: usize = self.x_tiles * self.y_tiles;
        let ghost fresh = self.cells();
        let ghost done = classified_cells(
            self.rect,
            self.x_tiles as int,
            self.y_tiles as int,
            self.force_masks,
            self.clip_in_regions@,
            self.clip_out_regions@,
            self.mask_regions@,
        );
        let mut tiles: Vec<QuadTileInfo> = Vec::new();
        let mut i: usize = 0;
        while i < tile_count
            invariant
                i <= tile_count,
                tile_count == self.x_tiles * self.y_tiles,
                tile_count <= MAX_TILES_PER_QUAD,
                self.buffer@.len() == MAX_TILES_PER_QUAD,
                fresh == self.buffer@.take(tile_count as int),
                fresh == grid_cells(
                    self.rect,
                    self.x_tiles as int,
                    self.y_tiles as int,
                    self.force_masks,
                ),
                done == classified_cells(
                    self.rect,
                    self.x_tiles as int,
                    self.y_tiles as int,
                    self.force_masks,
                    self.clip_in_regions@,
                    self.clip_out_regions@,
                    self.mask_regions@,
                ),
                tiles@.len() == i,
                forall|k: int| 0 <= k < i ==> tiles@[k] == done[k],
            decreases tile_count - i,
        {
            let cell = self.buffer[i];
            assert(cell == fresh[i as int]);
            let kind = classify_tile(
                &cell.rect,
                self.force_masks,
                &self.clip_in_regions,
                &self.clip_out_regions,
                &self.mask_regions,
            );
            tiles.push(QuadTileInfo { rect: cell.rect, kind });
            i += 1;
        }
        assert(tiles@ =~= done);
        self.x_tiles = 0;
        self.y_tiles = 0;
        assert(self.cells() =~= grid_cells(self.rect, 0, 0, self.force_masks));
        QuadTileIterator { tiles, pos: 0 }
    }
}

/// The surviving cells of a classified grid, yielded as merged tiles.
pub struct QuadTileIterator {
    tiles: Vec<QuadTileInfo>,
    pos: usize,
}

impl QuadTileIterator {
    /// All classified cells, row by row, clipped ones included.
    pub closed spec fn cells(&self) -> Seq<QuadTileInfo> {
        self.tiles@
    }

    /// Number of cells consumed so far.
    pub closed spec fn position(&self) -> int {
        self.pos as int
    }

    /// The position lies within the cells.
    pub open spec fn wf(&self) -> bool {
        0 <= self.position() <= self.cells().len()
    }

    /// Yields the next tile: skips clipped cells, takes the first surviving
    /// cell and stretches it over the run of cells that may join it.
    pub fn next(&mut self) -> (item: Option<QuadTileInfo>)
        requires
            old(self).wf(),
        ensures
            final(self).wf(),
            final(self).cells() == old(self).cells(),
            ({
                let cells = old(self).cells();
                let start = first_unclipped(cells, old(self).position());
                if start >= cells.len() {
                    item.is_none() && final(self).position() == cells.len()
                } else {
                    let end = run_end(cells, cells[start], start + 1);
                    item == Some(merged_tile(cells, start, end)) && final(self).position() == end
                }
            }),
    {
        let len = self.tiles.len();
        let ghost cells = self.tiles@;
        let ghost from = self.pos as int;
        while self.pos < len && self.tiles[self.pos].kind == QuadTileKind::Clipped
            invariant
                self.tiles@ == cells,
                len == cells.len(),
                from <= self.pos <= len,
                first_unclipped(cells, self.pos as int) == first_unclipped(cells, from),
            decreases len - self.pos,
        {
            self.pos += 1;
        }
        if self.pos >= len {
            return None;
        }
        let first = self.tiles[self.pos];
        let ghost start = self.pos as int;
        let mut tile = first;
        self.pos += 1;
        while self.pos < len
            invariant
                self.tiles@ == cells,
                len == cells.len(),
                0 <= start < self.pos <= len,
                first == cells[start],
                start == first_unclipped(cells, from),
                run_end(cells, first, self.pos as int) == run_end(cells, first, start + 1),
                tile == merged_tile(cells, start, self.pos as int),
            ensures
                self.tiles@ == cells,
                start < self.pos <= len,
                self.pos as int == run_end(cells, first, start + 1),
                tile == merged_tile(cells, start, self.pos as int),
            decreases len - self.pos,
        {
            let info = self.tiles[self.pos];
            if tile.rect.min.y != info.rect.min.y || tile.kind != info.kind {
                break;
            }
            let masked = match info.kind {
                QuadTileKind::Pattern { has_mask } => has_mask,
                QuadTileKind::Clipped => false,
            };
            if masked && info.rect.max.x as i64 - tile.rect.min.x as i64 > MAX_MASKED_TILE_WIDTH {
                break;
            }
            tile.rect.max.x = info.rect.max.x;
            self.pos += 1;
        }
        Some(tile)
    }

    /// Yields all remaining tiles at once.
    pub fn collect(&mut self) -> (tiles: Vec<QuadTileInfo>)
        requires
            old(self).wf(),
        ensures
            final(self).wf(),
            final(self).cells() == old(self).cells(),
            final(self).position() == old(self).cells().len(),
            tiles@ == merged_tiles(old(self).cells(), old(self).position()),
    {
        let mut out: Vec<QuadTileInfo> = Vec::new();
        let ghost cells = self.tiles@;
        let ghost from = self.pos as int;
        loop
            invariant
                self.wf(),
                self.tiles@ == cells,
                0 <= from <= self.pos,
                out@ + merged_tiles(cells, self.pos as int) == merged_tiles(cells, from),
            ensures
                self.wf(),
                self.tiles@ == cells,
                self.pos == cells.len(),
                out@ == merged_tiles(cells, from),
            decreases cells.len() - self.pos,
        {
            let ghost before = self.pos as int;
            proof {
                lemma_first_unclipped(cells, before);
                let start = first_unclipped(cells, before);
                if start < cells.len() {
                    lemma_run_end(cells, cells[start], start + 1);
                }
            }
            match self.next() {
                None => {
                    assert(merged_tiles(cells, before) =~= Seq::<QuadTileInfo>::empty());
                    assert(out@ + merged_tiles(cells, before) =~= out@);
                    break;
                },
                Some(tile) => {
                    proof {
                        let rest = merged_tiles(cells, self.pos as int);
                        assert(merged_tiles(cells, before) == seq![tile] + rest);
                        assert(out@.push(tile) + rest =~= out@ + (seq![tile] + rest));
                    }
                    out.push(tile);
                },
            }
        }
        out
    }
}

} // verus!
