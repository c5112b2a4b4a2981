use quad_prep::geometry::{DevicePoint, DeviceRect};
use quad_prep::tile_classifier::{ClipMode, QuadTileClassifier, QuadTileInfo, QuadTileKind};

fn px(v: f32) -> i32 {
    assert_eq!(v, v.round());
    v as i32
}

fn rect(x0: f32, y0: f32, x1: f32, y1: f32) -> DeviceRect {
    DeviceRect::new(DevicePoint::new(px(x0), px(y0)), DevicePoint::new(px(x1), px(y1)))
}

fn qc_new(xc: usize, yc: usize, x0: f32, y0: f32, w: f32, h: f32) -> QuadTileClassifier {
    let mut qc = QuadTileClassifier::new();

    qc.reset(xc, yc, rect(x0, y0, x0 + w, y0 + h), false);

    qc
}

fn qc_tiles(mut qc: QuadTileClassifier) -> Vec<QuadTileInfo> {
    let mut tiles = qc.classify();
    let mut out = Vec::new();
    while let Some(tile) = tiles.next() {
        out.push(tile);
    }
    out
}

fn qc_verify(qc: QuadTileClassifier, expected: &[QuadTileKind]) {
    let tiles = qc_tiles(qc);

    let mut n = 0;
    for (tile, ex) in tiles.iter().zip(expected.iter()) {
        assert_eq!(tile.kind, *ex, "Failed for tile {:?}", tile.rect);
        n += 1;
    }

    assert_eq!(n, expected.len())
}

const P: QuadTileKind = QuadTileKind::Pattern { has_mask: false };

const M: QuadTileKind = QuadTileKind::Pattern { has_mask: true };

#[test]
fn quad_classify_1() {
    let qc = qc_new(3, 3, 0.0, 0.0, 100.0, 100.0);
    qc_verify(qc, &[
        P,
        P,
        P,
    ]);
}

#[test]
fn quad_classify_2() {
    let mut qc = qc_new(3, 3, 0.0, 0.0, 100.0, 100.0);

    let rect = rect(0.0, 0.0, 100.0, 100.0);
    qc.add_clip_rect(rect, ClipMode::Clip);

    qc_verify(qc, &[
        P,
        P,
        P,
    ]);
}

#[test]
fn quad_classify_3() {
    let mut qc = qc_new(3, 3, 0.0, 0.0, 100.0, 100.0);

    let rect = rect(40.0, 40.0, 60.0, 60.0);
    qc.add_clip_rect(rect, ClipMode::Clip);

    qc_verify(qc, &[P]);
}

#[test]
fn quad_classify_4() {
    let mut qc = qc_new(3, 3, 0.0, 0.0, 100.0, 100.0);

    let rect = rect(30.0, 30.0, 70.0, 70.0);
    qc.add_clip_rect(rect, ClipMode::Clip);

    qc_verify(qc, &[
        P,
        P,
        P,
    ]);
}

#[test]
fn quad_classify_5() {
    let mut qc = qc_new(3, 3, 0.0, 0.0, 100.0, 100.0);

    let rect = rect(30.0, 30.0, 70.0, 70.0);
    qc.add_clip_rect(rect, ClipMode::ClipOut);

    qc_verify(qc, &[
        M,
        M, M,
        M,
    ]);
}

#[test]
fn quad_classify_6() {
    let mut qc = qc_new(3, 3, 0.0, 0.0, 100.0, 100.0);

    let rect = rect(40.0, 40.0, 60.0, 60.0);
    qc.add_clip_rect(rect, ClipMode::ClipOut);

    qc_verify(qc, &[
        M,
        M,
        M,
    ]);
}

#[test]
fn quad_classify_7() {
    let mut qc = qc_new(3, 3, 0.0, 0.0, 100.0, 100.0);

    let rect = rect(20.0, 10.0, 90.0, 80.0);
    qc.add_mask_region(rect);

    qc_verify(qc, &[
        M,
        M,
        M,
    ]);
}

#[test]
fn quad_classify_8() {
    let mut qc = qc_new(3, 3, 0.0, 0.0, 100.0, 100.0);

    let rect = rect(40.0, 40.0, 60.0, 60.0);
    qc.add_mask_region(rect);

    qc_verify(qc, &[
        P,
        P, M, P,
        P,
    ]);
}

#[test]
fn quad_classify_9() {
    let mut qc = qc_new(4, 4, 100.0, 200.0, 100.0, 100.0);

    let rect = rect(90.0, 180.0, 140.0, 240.0);
    qc.add_mask_region(rect);

    qc_verify(qc, &[
        M, P,
        M, P,
        P,
        P,
    ]);
}

#[test]
fn quad_classify_10() {
    let mut qc = qc_new(4, 4, 100.0, 200.0, 100.0, 100.0);

    let mask_rect = rect(90.0, 180.0, 140.0, 240.0);
    qc.add_mask_region(mask_rect);

    let clip_rect = rect(120.0, 220.0, 160.0, 280.0);
    qc.add_clip_rect(clip_rect, ClipMode::Clip);

    qc_verify(qc, &[
        M, P,
        M, P,
        P,
        P,
    ]);
}

#[test]
fn quad_classify_11() {
    let mut qc = qc_new(4, 4, 100.0, 200.0, 100.0, 100.0);

    let mask_rect = rect(90.0, 180.0, 140.0, 240.0);
    qc.add_mask_region(mask_rect);

    let clip_rect = rect(120.0, 220.0, 160.0, 280.0);
    qc.add_clip_rect(clip_rect, ClipMode::Clip);

    let clip_out_rect = rect(130.0, 200.0, 160.0, 240.0);
    qc.add_clip_rect(clip_out_rect, ClipMode::ClipOut);

    qc_verify(qc, &[
        M,
        M,
        M,
        M,
    ]);
}

#[test]
fn quad_classify_12() {
    let mut qc = qc_new(4, 4, 100.0, 200.0, 100.0, 100.0);

    let clip_out_rect = rect(130.0, 200.0, 160.0, 240.0);
    qc.add_clip_rect(clip_out_rect, ClipMode::ClipOut);

    let clip_rect = rect(120.0, 220.0, 160.0, 280.0);
    qc.add_clip_rect(clip_rect, ClipMode::Clip);

    let mask_rect = rect(90.0, 180.0, 140.0, 240.0);
    qc.add_mask_region(mask_rect);

    qc_verify(qc, &[
        M,
        M,
        M,
        M,
    ]);
}

fn kinds_and_rects(tiles: &[QuadTileInfo]) -> Vec<(i32, i32, i32, i32, QuadTileKind)> {
    tiles
        .iter()
        .map(|t| (t.rect.min.x, t.rect.min.y, t.rect.max.x, t.rect.max.y, t.kind))
        .collect()
}

#[test]
fn unclipped_grid_merges_each_row_into_one_tile() {
    let qc = qc_new(3, 3, 0.0, 0.0, 100.0, 100.0);
    let tiles = qc_tiles(qc);
    assert_eq!(
        kinds_and_rects(&tiles),
        vec![(0, 0, 100, 33, P), (0, 33, 100, 67, P), (0, 67, 100, 100, P)]
    );
}

#[test]
fn collect_yields_what_next_yields() {
    let mut qc = qc_new(4, 4, 100.0, 200.0, 100.0, 100.0);
    qc.add_mask_region(rect(90.0, 180.0, 140.0, 240.0));
    let mut tiles = qc.classify();
    let all = tiles.collect();
    assert_eq!(
        kinds_and_rects(&all),
        vec![
            (100, 200, 150, 225, M),
            (150, 200, 200, 225, P),
            (100, 225, 150, 250, M),
            (150, 225, 200, 250, P),
            (100, 250, 200, 275, P),
            (100, 275, 200, 300, P),
        ]
    );
    assert_eq!(tiles.next(), None);
}

#[test]
fn mask_region_marks_only_the_center_cell() {
    let mut qc = qc_new(3, 3, 0.0, 0.0, 100.0, 100.0);
    qc.add_mask_region(rect(40.0, 40.0, 60.0, 60.0));
    let tiles = qc_tiles(qc);
    assert_eq!(
        kinds_and_rects(&tiles),
        vec![
            (0, 0, 100, 33, P),
            (0, 33, 33, 67, P),
            (33, 33, 67, 67, M),
            (67, 33, 100, 67, P),
            (0, 67, 100, 100, P),
        ]
    );
}

#[test]
fn clip_inside_one_cell_leaves_only_that_cell() {
    let mut qc = qc_new(3, 3, 0.0, 0.0, 100.0, 100.0);
    qc.add_clip_rect(rect(40.0, 40.0, 60.0, 60.0), ClipMode::Clip);
    let tiles = qc_tiles(qc);
    assert_eq!(kinds_and_rects(&tiles), vec![(33, 33, 67, 67, P)]);
}

#[test]
fn clip_out_clips_contained_cells_and_masks_the_rest() {
    let mut qc = qc_new(3, 3, 0.0, 0.0, 100.0, 100.0);
    qc.add_clip_rect(rect(30.0, 30.0, 70.0, 70.0), ClipMode::ClipOut);
    let tiles = qc_tiles(qc);
    assert_eq!(
        kinds_and_rects(&tiles),
        vec![
            (0, 0, 100, 33, M),
            (0, 33, 33, 67, M),
            (67, 33, 100, 67, M),
            (0, 67, 100, 100, M),
        ]
    );
}

#[test]
fn masked_runs_stop_at_the_width_limit() {
    let mut qc = QuadTileClassifier::new();
    qc.reset(8, 1, rect(0.0, 0.0, 4096.0, 100.0), true);
    let tiles = qc_tiles(qc);
    assert_eq!(
        kinds_and_rects(&tiles),
        vec![
            (0, 0, 1024, 100, M),
            (1024, 0, 2048, 100, M),
            (2048, 0, 3072, 100, M),
            (3072, 0, 4096, 100, M),
        ]
    );
}

#[test]
fn unmasked_runs_have_no_width_limit() {
    let mut qc = QuadTileClassifier::new();
    qc.reset(8, 1, rect(0.0, 0.0, 4096.0, 100.0), false);
    let tiles = qc_tiles(qc);
    assert_eq!(kinds_and_rects(&tiles), vec![(0, 0, 4096, 100, P)]);
}

#[test]
fn a_single_masked_cell_may_exceed_the_width_limit() {
    let mut qc = QuadTileClassifier::new();
    qc.reset(2, 1, rect(0.0, 0.0, 4000.0, 10.0), true);
    let tiles = qc_tiles(qc);
    assert_eq!(kinds_and_rects(&tiles), vec![(0, 0, 2000, 10, M), (2000, 0, 4000, 10, M)]);
}

#[test]
fn clip_covering_a_thin_grid_clips_its_cells_without_interior() {
    let mut qc = QuadTileClassifier::new();
    qc.reset(3, 1, rect(0.0, 0.0, 1.0, 10.0), false);
    qc.add_clip_rect(rect(0.0, 0.0, 1.0, 10.0), ClipMode::Clip);
    let tiles = qc_tiles(qc);
    assert_eq!(kinds_and_rects(&tiles), vec![(0, 0, 1, 10, P)]);
}

#[test]
fn classifier_can_be_used_again_after_reset() {
    let mut qc = QuadTileClassifier::new();
    qc.reset(2, 2, rect(0.0, 0.0, 10.0, 10.0), false);
    qc.add_clip_rect(rect(0.0, 0.0, 3.0, 3.0), ClipMode::Clip);
    let first = qc.classify().collect();
    assert_eq!(kinds_and_rects(&first), vec![(0, 0, 5, 5, P)]);
    qc.reset(1, 1, rect(0.0, 0.0, 10.0, 10.0), true);
    let second = qc.classify().collect();
    assert_eq!(kinds_and_rects(&second), vec![(0, 0, 10, 10, M)]);
}

#[test]
fn default_tile_is_an_unmasked_zero_box() {
    let info = QuadTileInfo::default();
    assert_eq!(info.rect, rect(0.0, 0.0, 0.0, 0.0));
    assert_eq!(info.kind, P);
}

#[test]
fn grid_cells_tile_the_rectangle() {
    let mut qc = QuadTileClassifier::new();
    qc.reset(4, 1, rect(3.0, 5.0, 10.0, 9.0), false);
    // Masks on the first and the third cell keep the four cells apart.
    qc.add_mask_region(rect(3.0, 5.0, 4.0, 9.0));
    qc.add_mask_region(rect(7.0, 5.0, 8.0, 9.0));
    let tiles = qc_tiles(qc);
    assert_eq!(
        kinds_and_rects(&tiles),
        vec![(3, 5, 5, 9, M), (5, 5, 7, 9, P), (7, 5, 8, 9, M), (8, 5, 10, 9, P)]
    );
}

#[test]
fn grid_of_full_capacity() {
    let mut qc = QuadTileClassifier::new();
    qc.reset(8, 4, rect(0.0, 0.0, 80.0, 40.0), false);
    qc.add_clip_rect(rect(0.0, 0.0, 80.0, 40.0), ClipMode::Clip);
    let tiles = qc_tiles(qc);
    assert_eq!(
        kinds_and_rects(&tiles),
        vec![(0, 0, 80, 10, P), (0, 10, 80, 20, P), (0, 20, 80, 30, P), (0, 30, 80, 40, P)]
    );
}

#[test]
fn classifier_says_whether_it_is_armed() {
    let mut qc = QuadTileClassifier::new();
    assert!(qc.is_disarmed());
    assert!(!qc.is_armed());
    qc.reset(2, 2, rect(0.0, 0.0, 10.0, 10.0), false);
    assert!(!qc.is_disarmed());
    assert!(qc.is_armed());
    let _ = qc.classify();
    assert!(qc.is_disarmed());
    assert!(!qc.is_armed());
    // A grid without cells is neither: it can neither be reset nor classify.
    qc.reset(0, 3, rect(0.0, 0.0, 10.0, 10.0), false);
    assert!(!qc.is_disarmed());
    assert!(!qc.is_armed());
}
