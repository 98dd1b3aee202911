use contract_lab::point::Point;

#[test]
fn x_returns_the_first_coordinate() {
    let p = Point::new(5u32, 10u32);
    assert_eq!(*p.x(), 5);
    assert_eq!(*p.y(), 10);
}

#[test]
fn mixup_takes_x_from_self_and_y_from_other() {
    let p1 = Point::new(5i32, 10i32);
    let p2 = Point::new(String::from("six"), 11u8);
    let mixed = p1.mixup(&p2);
    assert_eq!(*mixed.x(), 5);
    assert_eq!(*mixed.y(), 11);
    assert_eq!(*p1.y(), 10);
    assert_eq!(p2.x().as_str(), "six");
}

#[test]
fn a_point_may_hold_a_point() {
    let inner = Point::new(1u8, 2u8);
    let outer = Point::new(inner, 3u64);
    assert_eq!(*outer.x().x(), 1);
    assert_eq!(*outer.x().y(), 2);
    assert_eq!(*outer.y(), 3);
}
