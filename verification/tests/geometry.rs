use druid::geometry::{
    clamp_i64, sat_add, sat_sub, Axis, BoxConstraints, Point, Rect, Size, Vec2, INFINITE,
};

#[test]
fn saturating_sum_stops_at_the_ends() {
    assert_eq!(sat_add(2, 3), 5);
    assert_eq!(sat_add(i64::MAX, 1), i64::MAX);
    assert_eq!(sat_add(i64::MIN, -1), i64::MIN);
    assert_eq!(sat_sub(5, 7), -2);
    assert_eq!(sat_sub(i64::MIN, 1), i64::MIN);
    assert_eq!(sat_sub(i64::MAX, -1), i64::MAX);
}

#[test]
fn clamp_holds_between_bounds() {
    assert_eq!(clamp_i64(5, 0, 10), 5);
    assert_eq!(clamp_i64(-5, 0, 10), 0);
    assert_eq!(clamp_i64(50, 0, 10), 10);
    // crossed bounds: the upper bound wins
    assert_eq!(clamp_i64(5, 10, 0), 0);
}

#[test]
fn rect_from_origin_and_size() {
    let r = Rect::from_origin_size(Point::new(10, 20), Size::new(30, 40));
    assert_eq!(r, Rect::new(10, 20, 40, 60));
    assert_eq!(r.origin(), Point::new(10, 20));
    assert_eq!(r.size(), Size::new(30, 40));
    assert_eq!(r.with_size(Size::new(1, 2)), Rect::new(10, 20, 11, 22));
    assert_eq!(r.with_origin(Point::new(0, 0)), Rect::new(0, 0, 30, 40));
}

#[test]
fn rect_contains_excludes_far_edges() {
    let r = Rect::new(0, 0, 10, 10);
    assert!(r.contains(Point::new(0, 0)));
    assert!(r.contains(Point::new(9, 9)));
    assert!(!r.contains(Point::new(10, 5)));
    assert!(!r.contains(Point::new(5, 10)));
    assert!(!r.contains(Point::new(-1, 5)));
}

#[test]
fn rect_union_holds_both() {
    let a = Rect::new(0, 0, 10, 10);
    let b = Rect::new(5, -5, 20, 8);
    assert_eq!(a.union(b), Rect::new(0, -5, 20, 10));
}

#[test]
fn axis_packs_and_unpacks() {
    let size = Size::new(3, 7);
    assert_eq!(Axis::Horizontal.major(size), 3);
    assert_eq!(Axis::Horizontal.minor(size), 7);
    assert_eq!(Axis::Vertical.major(size), 7);
    assert_eq!(Axis::Vertical.minor(size), 3);
    assert_eq!(Axis::Horizontal.pack(1, 2), (1, 2));
    assert_eq!(Axis::Vertical.pack(1, 2), (2, 1));
    assert_eq!(Axis::Vertical.pack_size(1, 2), Size::new(2, 1));
    assert_eq!(Axis::Vertical.pack_point(1, 2), Point::new(2, 1));
    assert_eq!(Axis::Horizontal.cross(), Axis::Vertical);
    assert_eq!(Axis::Vertical.cross(), Axis::Horizontal);
    assert_eq!(Axis::Vertical.major_pos(Point::new(4, 9)), 9);
    let r = Rect::new(1, 2, 3, 4);
    assert_eq!(Axis::Horizontal.major_span(r), (1, 3));
    assert_eq!(Axis::Horizontal.minor_span(r), (2, 4));
    assert_eq!(Axis::Vertical.major_span(r), (2, 4));
}

#[test]
fn constraints_clamp_sizes() {
    let bc = BoxConstraints::new(Size::new(10, 10), Size::new(100, 50));
    assert_eq!(bc.constrain(Size::new(5, 500)), Size::new(10, 50));
    assert_eq!(bc.constrain(Size::new(20, 30)), Size::new(20, 30));
    assert!(bc.contains(Size::new(20, 30)));
    assert!(!bc.contains(Size::new(5, 30)));
    assert_eq!(bc.loosen(), BoxConstraints::new(Size::new(0, 0), Size::new(100, 50)));
    assert_eq!(bc.shrink(20, 20), BoxConstraints::new(Size::new(0, 0), Size::new(80, 30)));
    assert_eq!(BoxConstraints::tight(Size::new(7, 8)).constrain(Size::new(0, 0)), Size::new(7, 8));
    assert_eq!(bc.min(), Size::new(10, 10));
    assert_eq!(bc.max(), Size::new(100, 50));
}

#[test]
fn unbounded_sizes_are_recognised() {
    assert!(Size::new(INFINITE, 3).is_infinite());
    assert!(Size::new(3, INFINITE).is_infinite());
    assert!(!Size::new(3, 4).is_infinite());
    assert_eq!(Size::new(3, 4).to_rect(), Rect::new(0, 0, 3, 4));
}

#[test]
fn points_move_by_displacements() {
    let p = Point::new(5, 5);
    assert_eq!(p.plus(Vec2::new(1, -2)), Point::new(6, 3));
    assert_eq!(p.minus(Vec2::new(1, -2)), Point::new(4, 7));
    assert_eq!(p.to_vec2(), Vec2::new(5, 5));
    assert_eq!(Vec2::new(1, 2).to_point(), Point::new(1, 2));
    assert_eq!(Point::zero(), Point::new(0, 0));
    assert_eq!(Vec2::zero(), Vec2::new(0, 0));
    assert_eq!(Size::zero(), Size::new(0, 0));
    assert_eq!(Rect::zero(), Rect::new(0, 0, 0, 0));
}
