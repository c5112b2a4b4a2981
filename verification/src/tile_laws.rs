//! Laws of the tile classifier, stated over the functions that its
//! contracts use.

use crate::geometry::{Point, Rect};
use crate::rounding::{
    in_grid_part, lemma_grid_line_monotone, lemma_grid_line_within,
    lemma_grid_lines_partition,
};
use crate::tile_classifier::{
    classified_cells, contained_by_some, first_unclipped, grid_cell_rect,
    grid_cells, lemma_first_unclipped, lemma_grid_cell_rect_exact, lemma_run_end, merged_tile,
    merged_tiles, misses_some, run_end, touched_by_some, QuadTileInfo, QuadTileKind,
    MAX_MASKED_TILE_WIDTH,
};
use vstd::arithmetic::div_mod::{lemma_fundamental_div_mod, lemma_fundamental_div_mod_converse, lemma_div_pos_is_pos};
use vstd::prelude::*;

verus! {

/// Cell `i` of a grid of `x_tiles` columns sits in column `i % x_tiles` of
/// row `i / x_tiles`, and a column and row make the index back.
pub proof fn lemma_cell_index(x_tiles: int, y_tiles: int, i: int)
    requires
        0 < x_tiles,
        0 <= i < x_tiles * y_tiles,
    ensures
        0 <= i % x_tiles < x_tiles,
        0 <= i / x_tiles < y_tiles,
        i == (i / x_tiles) * x_tiles + i % x_tiles,
{
    lemma_fundamental_div_mod(i, x_tiles);
    lemma_div_pos_is_pos(i, x_tiles);
    let q = i / x_tiles;
    assert(q < y_tiles) by (nonlinear_arith)
        requires
            i == x_tiles * q + i % x_tiles,
            0 <= i % x_tiles,
            i < x_tiles * y_tiles,
            0 < x_tiles,
    ;
    assert(x_tiles * q == q * x_tiles) by (nonlinear_arith);
}

/// A grid has one cell per column and row. Over a rectangle whose corners
/// are not swapped, the cells tile it exactly: each cell lies within the
/// rectangle with its corners not swapped, the first column and row start
/// at the rectangle's `min` edges, the last end exactly at its `max` edges,
/// neighbours share their common edge, and every position of the rectangle
/// lies in exactly one cell.
pub proof fn lemma_grid_tiles_rect(rect: Rect, x_tiles: int, y_tiles: int, force_masks: bool)
    requires
        0 < x_tiles,
        0 < y_tiles,
        rect.is_ordered(),
    ensures
        grid_cells(rect, x_tiles, y_tiles, force_masks).len() == x_tiles * y_tiles,
        forall|x: int, y: int|
            0 <= x < x_tiles && 0 <= y < y_tiles ==> {
                let c = #[trigger] grid_cell_rect(rect, x_tiles, y_tiles, x, y);
                &&& c.is_ordered()
                &&& rect.min.x <= c.min.x && c.max.x <= rect.max.x
                &&& rect.min.y <= c.min.y && c.max.y <= rect.max.y
                &&& (x == 0 ==> c.min.x == rect.min.x)
                &&& (y == 0 ==> c.min.y == rect.min.y)
                &&& (x == x_tiles - 1 ==> c.max.x == rect.max.x)
                &&& (y == y_tiles - 1 ==> c.max.y == rect.max.y)
                &&& (x > 0 ==> c.min.x == grid_cell_rect(rect, x_tiles, y_tiles, x - 1, y).max.x)
                &&& (y > 0 ==> c.min.y == grid_cell_rect(rect, x_tiles, y_tiles, x, y - 1).max.y)
            },
        forall|p: Point| #[trigger]
            rect.spec_contains(p) ==> exists|x: int, y: int|
                0 <= x < x_tiles && 0 <= y < y_tiles && (#[trigger] grid_cell_rect(
                    rect,
                    x_tiles,
                    y_tiles,
                    x,
                    y,
                )).spec_contains(p),
        forall|p: Point, x1: int, y1: int, x2: int, y2: int|
            0 <= x1 < x_tiles && 0 <= y1 < y_tiles && 0 <= x2 < x_tiles && 0 <= y2 < y_tiles
                && #[trigger] grid_cell_rect(rect, x_tiles, y_tiles, x1, y1).spec_contains(p)
                && #[trigger] grid_cell_rect(rect, x_tiles, y_tiles, x2, y2).spec_contains(p)
                ==> x1 == x2 && y1 == y2,
{
    let (lx, hx) = (rect.min.x as int, rect.max.x as int);
    let (ly, hy) = (rect.min.y as int, rect.max.y as int);
    assert(x_tiles * y_tiles >= 0) by (nonlinear_arith)
        requires
            0 < x_tiles,
            0 < y_tiles,
    ;
    assert forall|x: int, y: int| 0 <= x < x_tiles && 0 <= y < y_tiles implies {
        let c = #[trigger] grid_cell_rect(rect, x_tiles, y_tiles, x, y);
        &&& c.is_ordered()
        &&& rect.min.x <= c.min.x && c.max.x <= rect.max.x
        &&& rect.min.y <= c.min.y && c.max.y <= rect.max.y
        &&& (x == 0 ==> c.min.x == rect.min.x)
        &&& (y == 0 ==> c.min.y == rect.min.y)
        &&& (x == x_tiles - 1 ==> c.max.x == rect.max.x)
        &&& (y == y_tiles - 1 ==> c.max.y == rect.max.y)
        &&& (x > 0 ==> c.min.x == grid_cell_rect(rect, x_tiles, y_tiles, x - 1, y).max.x)
        &&& (y > 0 ==> c.min.y == grid_cell_rect(rect, x_tiles, y_tiles, x, y - 1).max.y)
    } by {
        lemma_grid_cell_rect_exact(rect, x_tiles, y_tiles, x, y);
        lemma_grid_cell_rect_exact(rect, x_tiles, y_tiles, x - 1, y);
        lemma_grid_cell_rect_exact(rect, x_tiles, y_tiles, x, y - 1);
        lemma_grid_line_within(lx, hx, x_tiles, x);
        lemma_grid_line_within(lx, hx, x_tiles, x + 1);
        lemma_grid_line_within(ly, hy, y_tiles, y);
        lemma_grid_line_within(ly, hy, y_tiles, y + 1);
        lemma_grid_line_monotone(lx, hx, x_tiles, x, x + 1);
        lemma_grid_line_monotone(ly, hy, y_tiles, y, y + 1);
    }
    assert forall|p: Point| #[trigger] rect.spec_contains(p) implies exists|x: int, y: int|
        0 <= x < x_tiles && 0 <= y < y_tiles && (#[trigger] grid_cell_rect(
            rect,
            x_tiles,
            y_tiles,
            x,
            y,
        )).spec_contains(p) by {
        lemma_grid_lines_partition(lx, hx, x_tiles, p.x as int);
        lemma_grid_lines_partition(ly, hy, y_tiles, p.y as int);
        let x = choose|k: int| 0 <= k < x_tiles && in_grid_part(lx, hx, x_tiles, k, p.x as int);
        let y = choose|k: int| 0 <= k < y_tiles && in_grid_part(ly, hy, y_tiles, k, p.y as int);
        lemma_grid_cell_rect_exact(rect, x_tiles, y_tiles, x, y);
        assert(grid_cell_rect(rect, x_tiles, y_tiles, x, y).spec_contains(p));
    }
    assert forall|p: Point, x1: int, y1: int, x2: int, y2: int|
        0 <= x1 < x_tiles && 0 <= y1 < y_tiles && 0 <= x2 < x_tiles && 0 <= y2 < y_tiles
            && #[trigger] grid_cell_rect(rect, x_tiles, y_tiles, x1, y1).spec_contains(p)
            && #[trigger] grid_cell_rect(rect, x_tiles, y_tiles, x2, y2).spec_contains(p)
            implies x1 == x2 && y1 == y2 by {
        lemma_grid_cell_rect_exact(rect, x_tiles, y_tiles, x1, y1);
        lemma_grid_cell_rect_exact(rect, x_tiles, y_tiles, x2, y2);
        let c1 = grid_cell_rect(rect, x_tiles, y_tiles, x1, y1);
        let c2 = grid_cell_rect(rect, x_tiles, y_tiles, x2, y2);
        assert(rect.min.x <= p.x < rect.max.x) by {
            lemma_grid_line_within(lx, hx, x_tiles, x1);
            lemma_grid_line_within(lx, hx, x_tiles, x1 + 1);
        }
        assert(rect.min.y <= p.y < rect.max.y) by {
            lemma_grid_line_within(ly, hy, y_tiles, y1);
            lemma_grid_line_within(ly, hy, y_tiles, y1 + 1);
        }
        lemma_grid_lines_partition(lx, hx, x_tiles, p.x as int);
        lemma_grid_lines_partition(ly, hy, y_tiles, p.y as int);
        assert(in_grid_part(lx, hx, x_tiles, x1, p.x as int));
        assert(in_grid_part(lx, hx, x_tiles, x2, p.x as int));
        assert(in_grid_part(ly, hy, y_tiles, y1, p.y as int));
        assert(in_grid_part(ly, hy, y_tiles, y2, p.y as int));
    }
}

/// A cell with an interior, of a grid over a rectangle whose corners are
/// not swapped, intersects that rectangle.
pub proof fn lemma_cell_with_interior_intersects_rect(
    rect: Rect,
    x_tiles: int,
    y_tiles: int,
    x: int,
    y: int,
)
    requires
        0 < x_tiles,
        0 < y_tiles,
        rect.is_ordered(),
        !grid_cell_rect(rect, x_tiles, y_tiles, x, y).spec_is_empty(),
    ensures
        rect.spec_intersects(grid_cell_rect(rect, x_tiles, y_tiles, x, y)),
{
    lemma_grid_cell_rect_exact(rect, x_tiles, y_tiles, x, y);
    lemma_grid_line_within(rect.min.x as int, rect.max.x as int, x_tiles, x);
    lemma_grid_line_within(rect.min.x as int, rect.max.x as int, x_tiles, x + 1);
    lemma_grid_line_within(rect.min.y as int, rect.max.y as int, y_tiles, y);
    lemma_grid_line_within(rect.min.y as int, rect.max.y as int, y_tiles, y + 1);
}

/// A `Clip` rectangle equal to the grid rectangle changes nothing: with no
/// other region and no forced masks, a cell stays an unmasked pattern cell
/// exactly if it intersects the grid rectangle, and every cell with an
/// interior does.
pub proof fn lemma_clip_covering_grid_is_noop(rect: Rect, x_tiles: int, y_tiles: int)
    requires
        0 < x_tiles,
        0 < y_tiles,
        rect.is_ordered(),
    ensures
        forall|i: int|
            0 <= i < x_tiles * y_tiles ==> {
                let c = (#[trigger] classified_cells(
                    rect,
                    x_tiles,
                    y_tiles,
                    false,
                    seq![rect],
                    Seq::empty(),
                    Seq::empty(),
                )[i]);
                &&& c.rect == grid_cells(rect, x_tiles, y_tiles, false)[i].rect
                &&& (rect.spec_intersects(c.rect) <==> c.kind == QuadTileKind::Pattern {
                    has_mask: false,
                })
                &&& (!c.rect.spec_is_empty() ==> c.kind == QuadTileKind::Pattern {
                    has_mask: false,
                })
            },
{
    let clip_in = seq![rect];
    let none = Seq::<Rect>::empty();
    assert forall|i: int| 0 <= i < x_tiles * y_tiles implies {
        let c = (#[trigger] classified_cells(rect, x_tiles, y_tiles, false, clip_in, none, none)[i]);
        &&& c.rect == grid_cells(rect, x_tiles, y_tiles, false)[i].rect
        &&& (rect.spec_intersects(c.rect) <==> c.kind == QuadTileKind::Pattern { has_mask: false })
        &&& (!c.rect.spec_is_empty() ==> c.kind == QuadTileKind::Pattern { has_mask: false })
    } by {
        let r = grid_cell_rect(rect, x_tiles, y_tiles, i % x_tiles, i / x_tiles);
        if !r.spec_is_empty() {
            lemma_cell_with_interior_intersects_rect(rect, x_tiles, y_tiles, i % x_tiles, i / x_tiles);
        }
        if misses_some(clip_in, r) {
            let w = choose|w: int| 0 <= w < clip_in.len() && !clip_in[w].spec_intersects(r);
            assert(clip_in[w] == rect);
        } else {
            assert(clip_in[0] == rect);
        }
        assert(!contained_by_some(none, r));
        assert(!touched_by_some(none, r));
    }
}

/// A `Clip` rectangle whose corners are not swapped and that lies strictly
/// inside one cell, with no other region and no forced masks, leaves that
/// cell an unmasked pattern cell and clips every other cell.
pub proof fn lemma_clip_inside_one_cell(
    rect: Rect,
    x_tiles: int,
    y_tiles: int,
    clip: Rect,
    x: int,
    y: int,
)
    requires
        0 < x_tiles,
        0 < y_tiles,
        rect.is_ordered(),
        clip.is_ordered(),
        0 <= x < x_tiles,
        0 <= y < y_tiles,
        grid_cell_rect(rect, x_tiles, y_tiles, x, y).min.x < clip.min.x,
        grid_cell_rect(rect, x_tiles, y_tiles, x, y).min.y < clip.min.y,
        clip.max.x < grid_cell_rect(rect, x_tiles, y_tiles, x, y).max.x,
        clip.max.y < grid_cell_rect(rect, x_tiles, y_tiles, x, y).max.y,
    ensures
        forall|i: int|
            0 <= i < x_tiles * y_tiles ==> (#[trigger] classified_cells(
                rect,
                x_tiles,
                y_tiles,
                false,
                seq![clip],
                Seq::empty(),
                Seq::empty(),
            )[i]).kind == (if i == y * x_tiles + x {
                QuadTileKind::Pattern { has_mask: false }
            } else {
                QuadTileKind::Clipped
            }),
{
    let clip_in = seq![clip];
    let none = Seq::<Rect>::empty();
    let (lx, hx) = (rect.min.x as int, rect.max.x as int);
    let (ly, hy) = (rect.min.y as int, rect.max.y as int);
    let home = grid_cell_rect(rect, x_tiles, y_tiles, x, y);
    lemma_grid_cell_rect_exact(rect, x_tiles, y_tiles, x, y);
    assert forall|i: int| 0 <= i < x_tiles * y_tiles implies (#[trigger] classified_cells(
        rect,
        x_tiles,
        y_tiles,
        false,
        clip_in,
        none,
        none,
    )[i]).kind == (if i == y * x_tiles + x {
        QuadTileKind::Pattern { has_mask: false }
    } else {
        QuadTileKind::Clipped
    }) by {
        lemma_cell_index(x_tiles, y_tiles, i);
        let cx = i % x_tiles;
        let cy = i / x_tiles;
        let r = grid_cell_rect(rect, x_tiles, y_tiles, cx, cy);
        lemma_grid_cell_rect_exact(rect, x_tiles, y_tiles, cx, cy);
        assert(clip_in[0] == clip);
        assert(!contained_by_some(none, r));
        assert(!touched_by_some(none, r));
        if i == y * x_tiles + x {
            lemma_fundamental_div_mod_converse(i, x_tiles, y, x);
            assert(r == home);
            if misses_some(clip_in, r) {
                let w = choose|w: int| 0 <= w < clip_in.len() && !clip_in[w].spec_intersects(r);
                assert(clip_in[w] == clip);
            }
        } else {
            assert(cx != x || cy != y);
            if cx < x {
                lemma_grid_line_monotone(lx, hx, x_tiles, cx + 1, x);
            }
            if cx > x {
                lemma_grid_line_monotone(lx, hx, x_tiles, x + 1, cx);
            }
            if cy < y {
                lemma_grid_line_monotone(ly, hy, y_tiles, cy + 1, y);
            }
            if cy > y {
                lemma_grid_line_monotone(ly, hy, y_tiles, y + 1, cy);
            }
            assert(!clip.spec_intersects(r));
            assert(misses_some(clip_in, r));
        }
    }
}

/// A `ClipOut` rectangle, with no other region added, clips exactly the
/// cells it contains, and every surviving cell is masked.
pub proof fn lemma_clip_out_masks_survivors(
    rect: Rect,
    x_tiles: int,
    y_tiles: int,
    force_masks: bool,
    clip: Rect,
)
    requires
        0 < x_tiles,
        0 < y_tiles,
        rect.is_ordered(),
    ensures
        forall|i: int|
            0 <= i < x_tiles * y_tiles ==> {
                let c = (#[trigger] classified_cells(
                    rect,
                    x_tiles,
                    y_tiles,
                    force_masks,
                    Seq::empty(),
                    seq![clip],
                    seq![rect],
                )[i]);
                c.kind == (if clip.spec_contains_box(c.rect) {
                    QuadTileKind::Clipped
                } else {
                    QuadTileKind::Pattern { has_mask: true }
                })
            },
{
    let clip_out = seq![clip];
    let masks = seq![rect];
    let none = Seq::<Rect>::empty();
    assert forall|i: int| 0 <= i < x_tiles * y_tiles implies {
        let c = (#[trigger] classified_cells(
            rect,
            x_tiles,
            y_tiles,
            force_masks,
            none,
            clip_out,
            masks,
        )[i]);
        c.kind == (if clip.spec_contains_box(c.rect) {
            QuadTileKind::Clipped
        } else {
            QuadTileKind::Pattern { has_mask: true }
        })
    } by {
        let r = grid_cell_rect(rect, x_tiles, y_tiles, i % x_tiles, i / x_tiles);
        assert(!misses_some(none, r));
        assert(clip_out[0] == clip);
        assert(masks[0] == rect);
        if contained_by_some(clip_out, r) {
            let w = choose|w: int| 0 <= w < clip_out.len() && clip_out[w].spec_contains_box(r);
            assert(clip_out[w] == clip);
        }
        if !clip.spec_contains_box(r) {
            lemma_cell_with_interior_intersects_rect(rect, x_tiles, y_tiles, i % x_tiles, i / x_tiles);
            assert(touched_by_some(masks, r));
        }
    }
}

/// A mask region marks exactly the cells it touches: with no other region
/// and no forced masks, every cell is a pattern cell, masked if and only if
/// the region intersects it.
pub proof fn lemma_mask_region_marks_touched_cells(
    rect: Rect,
    x_tiles: int,
    y_tiles: int,
    mask: Rect,
)
    ensures
        forall|i: int|
            0 <= i < x_tiles * y_tiles ==> {
                let c = (#[trigger] classified_cells(
                    rect,
                    x_tiles,
                    y_tiles,
                    false,
                    Seq::empty(),
                    Seq::empty(),
                    seq![mask],
                )[i]);
                c.kind == QuadTileKind::Pattern { has_mask: mask.spec_intersects(c.rect) }
            },
{
    let masks = seq![mask];
    let none = Seq::<Rect>::empty();
    assert forall|i: int| 0 <= i < x_tiles * y_tiles implies {
        let c = (#[trigger] classified_cells(rect, x_tiles, y_tiles, false, none, none, masks)[i]);
        c.kind == QuadTileKind::Pattern { has_mask: mask.spec_intersects(c.rect) }
    } by {
        let r = grid_cell_rect(rect, x_tiles, y_tiles, i % x_tiles, i / x_tiles);
        assert(!misses_some(none, r));
        assert(!contained_by_some(none, r));
        assert(masks[0] == mask);
        if touched_by_some(masks, r) {
            let w = choose|w: int| 0 <= w < masks.len() && masks[w].spec_intersects(r);
            assert(masks[w] == mask);
        }
    }
}

/// No yielded tile is clipped.
pub proof fn lemma_merged_tiles_never_clipped(cells: Seq<QuadTileInfo>, from: int)
    requires
        0 <= from <= cells.len(),
    ensures
        forall|i: int|
            0 <= i < merged_tiles(cells, from).len() ==> (#[trigger] merged_tiles(cells, from)[i]).kind
                != QuadTileKind::Clipped,
    decreases cells.len() - from,
{
    lemma_first_unclipped(cells, from);
    let start = first_unclipped(cells, from);
    if start < cells.len() {
        lemma_run_end(cells, cells[start], start + 1);
        let end = run_end(cells, cells[start], start + 1);
        lemma_merged_tiles_never_clipped(cells, end);
    }
}

/// A yielded tile is a run of cells of one row and one classification:
/// every cell of the run may join its first cell, the run cannot be
/// extended by the cell that follows it, and a masked tile made of more
/// than one cell is no wider than the limit.
pub proof fn lemma_merged_run(cells: Seq<QuadTileInfo>, start: int)
    requires
        0 <= start < cells.len(),
    ensures
        ({
            let end = run_end(cells, cells[start], start + 1);
            let tile = merged_tile(cells, start, end);
            &&& start < end <= cells.len()
            &&& forall|i: int|
                start < i < end ==> {
                    &&& (#[trigger] cells[i]).kind == cells[start].kind
                    &&& cells[i].rect.min.y == cells[start].rect.min.y
                }
            &&& (end < cells.len() ==> {
                ||| cells[end].kind != cells[start].kind
                ||| cells[end].rect.min.y != cells[start].rect.min.y
                ||| (cells[start].kind == (QuadTileKind::Pattern { has_mask: true })
                    && cells[end].rect.max.x - cells[start].rect.min.x > MAX_MASKED_TILE_WIDTH)
            })
            &&& (tile.kind == (QuadTileKind::Pattern { has_mask: true }) && end > start + 1
                ==> tile.rect.max.x - tile.rect.min.x <= MAX_MASKED_TILE_WIDTH)
        }),
{
    lemma_run_end(cells, cells[start], start + 1);
    let end = run_end(cells, cells[start], start + 1);
    if end > start + 1 {
        assert(crate::tile_classifier::mergeable(cells[start], cells[end - 1]));
    }
}

/// What holds of the classification of every surviving cell holds of the
/// classification of every yielded tile.
pub proof fn lemma_merged_tiles_kinds(
    cells: Seq<QuadTileInfo>,
    from: int,
    holds: spec_fn(QuadTileKind) -> bool,
)
    requires
        0 <= from <= cells.len(),
        forall|j: int|
            0 <= j < cells.len() && (#[trigger] cells[j]).kind != QuadTileKind::Clipped ==> holds(
                cells[j].kind,
            ),
    ensures
        forall|i: int|
            0 <= i < merged_tiles(cells, from).len() ==> holds(
                (#[trigger] merged_tiles(cells, from)[i]).kind,
            ),
    decreases cells.len() - from,
{
    lemma_first_unclipped(cells, from);
    let start = first_unclipped(cells, from);
    if start < cells.len() {
        lemma_run_end(cells, cells[start], start + 1);
        let end = run_end(cells, cells[start], start + 1);
        lemma_merged_tiles_kinds(cells, end, holds);
    }
}

} // verus!
