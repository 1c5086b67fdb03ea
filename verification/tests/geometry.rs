//! Exact values of the geometry operations.

use uicore::geom::{Pos, Rect, Vec2};

fn rect(x0: i64, y0: i64, x1: i64, y1: i64) -> Rect {
    Rect::new(Pos::new(x0, y0), Pos::new(x1, y1))
}

#[test]
fn rect_construction() {
    let r = Rect::from_min_size(Pos::new(10, 20), Vec2::new(30, 40));
    assert_eq!(r, rect(10, 20, 40, 60));
    assert!(r.is_positive());
    assert!(!rect(5, 5, 5, 9).is_positive());
}

#[test]
fn rect_containment() {
    let r = rect(0, 0, 10, 10);
    assert!(r.contains(Pos::new(0, 0)));
    assert!(r.contains(Pos::new(10, 10)));
    assert!(!r.contains(Pos::new(11, 10)));
    assert!(r.contains_rect(&rect(2, 2, 8, 8)));
    assert!(!r.contains_rect(&rect(2, 2, 11, 8)));
}

#[test]
fn rect_intersection_and_union() {
    let a = rect(0, 0, 10, 10);
    let b = rect(5, 5, 20, 20);
    assert_eq!(a.intersect(&b), rect(5, 5, 10, 10));
    assert_eq!(a.union(&b), rect(0, 0, 20, 20));
    // Disjoint inputs intersect to a non-positive rectangle.
    assert!(!rect(0, 0, 4, 4).intersect(&rect(6, 6, 9, 9)).is_positive());
    assert_eq!(a.expand(2), rect(-2, -2, 12, 12));
    assert_eq!(a.expand2(1, 3), rect(-1, -3, 11, 13));
}
