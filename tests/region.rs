use smithay_ecs::geometry::{Point, Rect};
use smithay_ecs::region::{RectangleKind, RegionAttributes};

fn region(rects: &[(RectangleKind, Rect)]) -> RegionAttributes {
    let mut r = RegionAttributes::new();
    for (kind, rect) in rects {
        match kind {
            RectangleKind::Add => r.add(*rect),
            RectangleKind::Subtract => r.subtract(*rect),
        }
    }
    r
}

#[test]
fn region_add_then_subtract() {
    let r = region(&[
        (RectangleKind::Add, Rect::new(0, 0, 10, 10)),
        (RectangleKind::Subtract, Rect::new(0, 0, 5, 5)),
    ]);
    assert!(!r.contains(Point::new(2, 2)));
    assert!(r.contains(Point::new(7, 7)));
}

#[test]
fn region_subtract_then_add() {
    let r = region(&[
        (RectangleKind::Subtract, Rect::new(0, 0, 5, 5)),
        (RectangleKind::Add, Rect::new(0, 0, 10, 10)),
    ]);
    assert!(r.contains(Point::new(2, 2)));
    assert!(r.contains(Point::new(7, 7)));
}

#[test]
fn region_empty_contains_nothing() {
    let r = RegionAttributes::new();
    assert!(!r.contains(Point::new(0, 0)));
}

#[test]
fn region_keeps_order_of_rects() {
    let r = region(&[
        (RectangleKind::Add, Rect::new(0, 0, 1, 1)),
        (RectangleKind::Subtract, Rect::new(5, 5, 1, 1)),
    ]);
    assert_eq!(r.rects.len(), 2);
    assert_eq!(r.rects[0].0, RectangleKind::Add);
    assert_eq!(r.rects[1].1, Rect::new(5, 5, 1, 1));
}

#[test]
fn rect_far_edges_are_outside() {
    let rect = Rect::new(0, 0, 10, 10);
    assert!(rect.contains(Point::new(0, 0)));
    assert!(rect.contains(Point::new(9, 9)));
    assert!(!rect.contains(Point::new(10, 5)));
    assert!(!rect.contains(Point::new(5, 10)));
    assert!(!rect.contains(Point::new(-1, 5)));
}

#[test]
fn rect_edge_saturates_at_largest_coordinate() {
    let rect = Rect::new(i32::MAX - 5, 0, 100, 10);
    assert!(rect.contains(Point::new(i32::MAX - 1, 0)));
    assert!(!rect.contains(Point::new(i32::MAX, 0)));
}

#[test]
fn rect_empty_contains_nothing() {
    let rect = Rect::new(3, 3, 0, 0);
    assert!(!rect.contains(Point::new(3, 3)));
}
