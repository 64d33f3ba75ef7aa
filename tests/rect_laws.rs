use gfx_types::geometry::{Point, Rect};

#[test]
fn intersection_of_overlapping_squares() {
    let r1 = Rect::new(0, 0, 100, 100);
    let r2 = Rect::new(50, 50, 100, 100);
    assert_eq!(r1.intersection(&r2), Some(Rect::new(50, 50, 50, 50)));
}

#[test]
fn intersection_exists_exactly_when_rects_overlap() {
    let cases = [
        (Rect::new(0, 0, 10, 10), Rect::new(5, 5, 10, 10)),
        (Rect::new(0, 0, 10, 10), Rect::new(10, 0, 10, 10)),
        (Rect::new(0, 0, 10, 10), Rect::new(0, 10, 10, 10)),
        (Rect::new(-20, -20, 5, 5), Rect::new(0, 0, 10, 10)),
        (Rect::new(0, 0, 10, 10), Rect::new(2, 2, 3, 3)),
        (Rect::new(2, 2, 0, 3), Rect::new(0, 0, 10, 10)),
        (Rect::new(0, 0, u32::MAX, 5), Rect::new(0, 0, 10, 10)),
        (Rect::new(i32::MAX, 0, 5, 5), Rect::new(i32::MAX - 10, 0, 20, 20)),
    ];
    for (a, b) in cases {
        assert_eq!(a.intersection(&b).is_none(), !a.intersects(&b));
        if let Some(i) = a.intersection(&b) {
            assert!(a.contains_rect(&i));
            assert!(b.contains_rect(&i));
        }
    }
}

#[test]
fn intersection_holds_every_common_subrect() {
    let a = Rect::new(0, 0, 10, 10);
    let b = Rect::new(4, -3, 10, 8);
    let i = a.intersection(&b).unwrap();
    assert_eq!(i, Rect::new(4, 0, 6, 5));
    let inside_both = Rect::new(5, 1, 3, 2);
    assert!(a.contains_rect(&inside_both) && b.contains_rect(&inside_both));
    assert!(i.contains_rect(&inside_both));
}

#[test]
fn empty_rect_inside_another_does_not_intersect() {
    let empty = Rect::new(5, 5, 0, 0);
    let big = Rect::new(0, 0, 10, 10);
    assert!(!empty.intersects(&big));
    assert!(!big.intersects(&empty));
    assert_eq!(empty.intersection(&big), None);
    let flat = Rect::new(5, 5, 0, 10);
    assert!(!flat.intersects(&big));
    assert_eq!(flat.intersection(&big), None);
}

#[test]
fn touching_rects_do_not_intersect() {
    let a = Rect::new(0, 0, 10, 10);
    let b = Rect::new(10, 0, 10, 10);
    assert!(!a.intersects(&b));
    assert_eq!(a.intersection(&b), None);
}

#[test]
fn union_encloses_both_and_is_least() {
    let a = Rect::new(0, 0, 50, 50);
    let b = Rect::new(100, 100, 50, 50);
    let u = a.union(&b);
    assert_eq!(u, Rect::new(0, 0, 150, 150));
    assert!(u.contains_rect(&a) && u.contains_rect(&b));
    let bigger = Rect::new(-1, -1, 152, 152);
    assert!(bigger.contains_rect(&u));
}

#[test]
fn union_with_empty_operand_is_the_other() {
    let a = Rect::new(5, 5, 10, 10);
    let empty = Rect::new(500, 500, 0, 3);
    assert_eq!(a.union(&empty), a);
    assert_eq!(empty.union(&a), a);
}

#[test]
fn union_of_far_apart_rects_spans_full_width() {
    let a = Rect::new(i32::MIN, 0, 1, 1);
    let b = Rect::new(i32::MAX - 1, 0, 1, 1);
    let u = a.union(&b);
    assert_eq!(u.x, i32::MIN);
    assert_eq!(u.width, u32::MAX);
}

#[test]
fn right_edge_saturates() {
    let r = Rect::new(i32::MAX - 5, 0, 100, 1);
    assert_eq!(r.right(), i32::MAX);
    let r = Rect::new(0, i32::MIN + 2, 1, 10);
    assert_eq!(r.bottom(), i32::MIN + 12);
}

#[test]
fn width_above_i32_max_wraps_like_a_cast() {
    let r = Rect::new(0, 0, u32::MAX, 1);
    assert_eq!(r.right(), -1);
}

#[test]
fn contains_point_is_half_open() {
    let r = Rect::new(-5, -5, 10, 10);
    assert!(r.contains_point(Point::new(-5, -5)));
    assert!(r.contains_point(Point::new(4, 4)));
    assert!(!r.contains_point(Point::new(5, 0)));
    assert!(!r.contains_point(Point::new(0, 5)));
}

#[test]
fn center_rounds_toward_zero() {
    assert_eq!(Rect::new(10, 20, 5, 7).center(), Point::new(12, 23));
}

#[test]
fn expand_and_shrink() {
    let r = Rect::new(10, 10, 20, 20);
    assert_eq!(r.expand(5), Rect::new(5, 5, 30, 30));
    assert_eq!(r.shrink(5), Rect::new(15, 15, 10, 10));
    assert_eq!(r.shrink(15), Rect::new(25, 25, 0, 0));
}

#[test]
fn split_clamps_at_the_size() {
    let r = Rect::new(0, 0, 100, 40);
    assert_eq!(r.split_horizontal(30), (Rect::new(0, 0, 30, 40), Rect::new(30, 0, 70, 40)));
    assert_eq!(r.split_horizontal(500), (Rect::new(0, 0, 100, 40), Rect::new(100, 0, 0, 40)));
    assert_eq!(r.split_vertical(10), (Rect::new(0, 0, 100, 10), Rect::new(0, 10, 100, 30)));
}

#[test]
fn from_points_orders_corners() {
    let r = Rect::from_points(Point::new(110, 70), Point::new(10, 20));
    assert_eq!(r, Rect::new(10, 20, 100, 50));
}

#[test]
fn midpoint_rounds_toward_zero() {
    assert_eq!(Point::new(-3, 3).midpoint(&Point::new(0, 0)), Point::new(-1, 1));
    assert_eq!(Point::new(i32::MAX, i32::MAX).midpoint(&Point::new(i32::MAX, 1)), Point::new(i32::MAX, 1073741824));
}

#[test]
fn distance_squared_uses_wide_deltas() {
    let a = Point::new(-1_000_000, 0);
    let b = Point::new(1_000_000, 0);
    assert_eq!(a.distance_squared(&b), 4_000_000_000_000);
}
