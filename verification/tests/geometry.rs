use quad_prep::geometry::{
    add_clamped, scale_then_shift, sub_clamped, Point, Rect, ScaleOffset, Size,
};
use quad_prep::rounding::{grid_line_i32, round_div_i64};

fn rect(x0: i32, y0: i32, x1: i32, y1: i32) -> Rect {
    Rect::new(Point::new(x0, y0), Point::new(x1, y1))
}

#[test]
fn round_div_rounds_to_nearest() {
    assert_eq!(round_div_i64(100, 3), 33);
    assert_eq!(round_div_i64(200, 3), 67);
    assert_eq!(round_div_i64(7, 7), 1);
    assert_eq!(round_div_i64(0, 5), 0);
    assert_eq!(round_div_i64(-100, 3), -33);
    assert_eq!(round_div_i64(-200, 3), -67);
    assert_eq!(round_div_i64(i64::MIN, 1), i64::MIN);
    assert_eq!(round_div_i64(i64::MAX, 1), i64::MAX);
    assert_eq!(round_div_i64(i64::MIN, 2), -4611686018427387904);
    assert_eq!(round_div_i64(i64::MAX, 2), 4611686018427387904);
    assert_eq!(round_div_i64(i64::MAX, i64::MAX), 1);
    assert_eq!(round_div_i64(i64::MIN, i64::MAX), -1);
    assert_eq!(round_div_i64(i64::MAX / 2, i64::MAX), 0);
    assert_eq!(round_div_i64(i64::MAX / 2 + 1, i64::MAX), 1);
}

#[test]
fn round_div_sends_ties_away_from_zero() {
    assert_eq!(round_div_i64(1, 2), 1);
    assert_eq!(round_div_i64(3, 2), 2);
    assert_eq!(round_div_i64(5, 2), 3);
    assert_eq!(round_div_i64(-1, 2), -1);
    assert_eq!(round_div_i64(-3, 2), -2);
    assert_eq!(round_div_i64(-5, 2), -3);
}

#[test]
fn grid_lines_cut_a_span_evenly() {
    assert_eq!(grid_line_i32(0, 100, 3, 0), 0);
    assert_eq!(grid_line_i32(0, 100, 3, 1), 33);
    assert_eq!(grid_line_i32(0, 100, 3, 2), 67);
    assert_eq!(grid_line_i32(0, 100, 3, 3), 100);
    assert_eq!(grid_line_i32(100, 200, 4, 1), 125);
    assert_eq!(grid_line_i32(100, 200, 4, 2), 150);
    assert_eq!(grid_line_i32(100, 200, 4, 3), 175);
    assert_eq!(grid_line_i32(-10, -3, 2, 1), -7);
}

#[test]
fn grid_lines_snap_the_last_line_to_the_far_end() {
    assert_eq!(grid_line_i32(0, 1, 3, 1), 0);
    assert_eq!(grid_line_i32(0, 1, 3, 2), 1);
    assert_eq!(grid_line_i32(0, 1, 3, 3), 1);
    assert_eq!(grid_line_i32(i32::MIN, i32::MAX, 32, 32), i32::MAX);
    assert_eq!(grid_line_i32(i32::MIN, i32::MAX, 2, 1), -1);
}

#[test]
fn grid_lines_of_a_reversed_span_stay_between_its_ends() {
    assert_eq!(grid_line_i32(10, 0, 2, 1), 5);
    assert_eq!(grid_line_i32(10, 0, 2, 2), 0);
}

#[test]
fn intersects_compares_opposite_edges_strictly() {
    let a = rect(0, 0, 10, 10);
    assert!(a.intersects(&rect(5, 5, 15, 15)));
    assert!(!a.intersects(&rect(10, 0, 20, 10)));
    assert!(!a.intersects(&rect(0, 10, 10, 20)));
    assert!(!a.intersects(&rect(-5, -5, 0, 0)));
    // A box without interior intersects when it lies strictly inside.
    assert!(a.intersects(&rect(5, 5, 5, 5)));
    assert!(!a.intersects(&rect(0, 0, 0, 0)));
}

#[test]
fn contains_box_holds_of_every_box_without_interior() {
    let a = rect(0, 0, 10, 10);
    assert!(a.contains_box(&rect(2, 2, 8, 8)));
    assert!(a.contains_box(&a));
    assert!(!a.contains_box(&rect(2, 2, 11, 8)));
    assert!(a.contains_box(&rect(50, 50, 50, 60)));
    assert!(!rect(3, 3, 3, 3).contains_box(&rect(2, 2, 8, 8)));
}

#[test]
fn intersection_is_absent_without_interior() {
    let a = rect(0, 0, 10, 10);
    assert_eq!(a.intersection(&rect(5, -5, 15, 5)), Some(rect(5, 0, 10, 5)));
    assert_eq!(a.intersection(&rect(10, 0, 20, 10)), None);
    assert_eq!(a.intersection(&rect(20, 20, 30, 30)), None);
    assert_eq!(a.intersection_unchecked(&rect(20, 20, 30, 30)), rect(20, 20, 10, 10));
    assert_eq!(a.intersection_unchecked(&rect(5, -5, 15, 5)), rect(5, 0, 10, 5));
}

#[test]
fn emptiness_and_extent() {
    assert!(rect(0, 0, 0, 10).is_empty());
    assert!(rect(0, 0, 10, 0).is_empty());
    assert!(rect(5, 0, 0, 10).is_empty());
    assert!(!rect(0, 0, 1, 1).is_empty());
    assert_eq!(rect(-3, 2, 7, 4).width(), 10);
    assert_eq!(rect(-3, 2, 7, 4).height(), 2);
    assert_eq!(rect(i32::MIN, 0, i32::MAX, 0).width(), 4294967295);
    assert_eq!(rect(-3, 2, 7, 4).size(), Size::new(10, 2));
    assert_eq!(rect(i32::MIN, 0, i32::MAX, 1).size(), Size::new(i32::MAX, 1));
    assert_eq!(rect(7, 4, -3, 2).size(), Size::new(-10, -2));
    assert!(Size::new(0, 5).is_empty());
    assert!(Size::new(5, -1).is_empty());
    assert!(!Size::new(1, 1).is_empty());
}

#[test]
fn contains_includes_min_edges_only() {
    let a = rect(0, 0, 2, 2);
    assert!(a.contains(Point::new(1, 1)));
    assert!(a.contains(Point::new(0, 1)));
    assert!(a.contains(Point::new(1, 0)));
    assert!(!a.contains(Point::new(2, 1)));
    assert!(!a.contains(Point::new(1, 2)));
}

#[test]
fn clamped_arithmetic_stays_in_range() {
    assert_eq!(add_clamped(1, 2), 3);
    assert_eq!(add_clamped(i32::MAX, 1), i32::MAX);
    assert_eq!(add_clamped(i32::MIN, -1), i32::MIN);
    assert_eq!(sub_clamped(5, 7), -2);
    assert_eq!(sub_clamped(i32::MIN, 1), i32::MIN);
    assert_eq!(sub_clamped(0, i32::MIN), i32::MAX);
    assert_eq!(scale_then_shift(10, 3, 4), 34);
    assert_eq!(scale_then_shift(i32::MAX, 2, 0), i32::MAX);
    assert_eq!(scale_then_shift(i32::MIN, 2, 0), i32::MIN);
    assert_eq!(scale_then_shift(10, -3, 4), -26);
}

#[test]
fn scale_offset_maps_boxes_and_extents() {
    let t = ScaleOffset { scale: Point::new(2, 3), offset: Point::new(10, -5) };
    assert_eq!(t.map_rect(&rect(1, 2, 4, 6)), rect(12, 1, 18, 13));
    assert_eq!(t.map_size(&Size::new(5, 7)), Size::new(10, 21));
    let flip = ScaleOffset { scale: Point::new(-1, 1), offset: Point::new(0, 0) };
    assert_eq!(flip.map_rect(&rect(1, 2, 4, 6)), rect(-4, 2, -1, 6));
    assert_eq!(ScaleOffset::identity().map_rect(&rect(1, 2, 4, 6)), rect(1, 2, 4, 6));
    assert_eq!(t.map_rect(&Rect::max_rect()), Rect::max_rect());
}

#[test]
fn inflate_and_origin_size() {
    assert_eq!(rect(0, 0, 10, 10).inflate(2, 3), rect(-2, -3, 12, 13));
    assert_eq!(Rect::max_rect().inflate(2, 2), Rect::max_rect());
    assert_eq!(
        Rect::from_origin_and_size(Point::new(3, 4), Size::new(10, 20)),
        rect(3, 4, 13, 24)
    );
    assert_eq!(Rect::zero(), rect(0, 0, 0, 0));
}
