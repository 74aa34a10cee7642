use touch_gui::geometry::{Point, Rectangle, Size};

#[test]
fn rectangle_contains_is_half_open() {
    let r = Rectangle::new(Point::new(100, 60), Size::new(100, 50));
    assert!(r.contains(Point::new(100, 60)));
    assert!(r.contains(Point::new(199, 109)));
    assert!(r.contains(Point::new(150, 85)));
    assert!(!r.contains(Point::new(200, 85)));
    assert!(!r.contains(Point::new(150, 110)));
    assert!(!r.contains(Point::new(99, 85)));
    assert!(!r.contains(Point::new(150, 59)));
}

#[test]
fn empty_rectangle_contains_nothing() {
    let flat = Rectangle::new(Point::new(5, 5), Size::new(0, 10));
    assert!(!flat.contains(Point::new(5, 5)));
    let thin = Rectangle::new(Point::new(5, 5), Size::new(10, 0));
    assert!(!thin.contains(Point::new(5, 5)));
}

#[test]
fn rectangle_at_the_edge_of_the_coordinate_range() {
    let r = Rectangle::new(Point::new(i32::MAX - 1, i32::MIN), Size::new(u32::MAX, u32::MAX));
    // The rows run from the lowest row up to, not including, the highest.
    assert!(r.contains(Point::new(i32::MAX, i32::MAX - 1)));
    assert!(!r.contains(Point::new(i32::MAX, i32::MAX)));
    assert!(r.contains(Point::new(i32::MAX - 1, i32::MIN)));
    assert!(!r.contains(Point::new(i32::MAX - 2, 0)));
    let negative = Rectangle::new(Point::new(-10, -10), Size::new(10, 10));
    assert!(negative.contains(Point::new(-1, -1)));
    assert!(!negative.contains(Point::new(0, 0)));
}

#[test]
fn point_and_size_keep_their_parts() {
    let p = Point::new(-3, 9);
    assert_eq!((p.x, p.y), (-3, 9));
    assert_eq!(Point::zero(), Point::new(0, 0));
    let s = Size::new(7, 11);
    assert_eq!((s.width, s.height), (7, 11));
    let r = Rectangle::new(p, s);
    assert_eq!(r.top_left, p);
    assert_eq!(r.size, s);
}
