use selenial_sector::vector::{clamped_add, Point2D};
use std::ops::AddAssign;

#[test]
fn new_point_holds_its_coordinates() {
    let p = Point2D::new(3, -4);
    assert_eq!(p.x, 3);
    assert_eq!(p.y, -4);
}

#[test]
fn as_vec_lists_x_then_y() {
    assert_eq!(Point2D::new(7, 9).as_vec(), [7, 9]);
}

#[test]
fn add_translates_each_coordinate() {
    let p = Point2D::new(1, 2) + Point2D::new(10, 20);
    assert_eq!(p, Point2D::new(11, 22));
}

#[test]
fn add_assign_translates_in_place() {
    let mut p = Point2D::new(1, 2);
    p += Point2D::new(0, 18);
    assert_eq!(p, Point2D::new(1, 20));
    p.add_assign(Point2D::new(-1, -20));
    assert_eq!(p, Point2D::new(0, 0));
}

#[test]
fn add_stays_at_the_ends_of_the_range() {
    let p = Point2D::new(i64::MAX, i64::MIN) + Point2D::new(1, -1);
    assert_eq!(p, Point2D::new(i64::MAX, i64::MIN));
    let q = Point2D::new(i64::MAX - 1, i64::MIN + 1) + Point2D::new(1, -1);
    assert_eq!(q, Point2D::new(i64::MAX, i64::MIN));
}

#[test]
fn clamped_add_is_exact_within_the_range() {
    assert_eq!(clamped_add(40, 2), 42);
    assert_eq!(clamped_add(-40, -2), -42);
    assert_eq!(clamped_add(i64::MAX, -1), i64::MAX - 1);
    assert_eq!(clamped_add(i64::MIN, 1), i64::MIN + 1);
    assert_eq!(clamped_add(i64::MAX, 5), i64::MAX);
    assert_eq!(clamped_add(i64::MIN, -5), i64::MIN);
}
