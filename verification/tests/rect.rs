use rsvg_internals::rect::{IRect, Rectangle, ViewBox};

#[test]
fn irect_new_accepts_corners_in_order() {
    assert_eq!(IRect::new(1, 2, 3, 4), Some(IRect { x0: 1, y0: 2, x1: 3, y1: 4 }));
    assert_eq!(IRect::new(1, 2, 1, 2), Some(IRect { x0: 1, y0: 2, x1: 1, y1: 2 }));
}

#[test]
fn irect_new_refuses_corners_out_of_order() {
    assert_eq!(IRect::new(3, 2, 1, 4), None);
    assert_eq!(IRect::new(1, 4, 3, 2), None);
}

#[test]
fn irect_from_size_starts_at_the_origin() {
    assert_eq!(IRect::from_size(10, 20), IRect { x0: 0, y0: 0, x1: 10, y1: 20 });
    assert_eq!(IRect::from_size(0, 0), IRect { x0: 0, y0: 0, x1: 0, y1: 0 });
}

#[test]
fn irect_is_empty_without_width_or_height() {
    assert!(IRect { x0: 0, y0: 0, x1: 0, y1: 5 }.is_empty());
    assert!(IRect { x0: 0, y0: 5, x1: 5, y1: 5 }.is_empty());
    assert!(!IRect { x0: 0, y0: 0, x1: 1, y1: 1 }.is_empty());
}

#[test]
fn intersection_of_overlapping_rectangles() {
    let a = IRect::new(0, 0, 10, 10).unwrap();
    let b = IRect::new(5, -5, 20, 5).unwrap();
    assert_eq!(a.intersection(&b), IRect { x0: 5, y0: 0, x1: 10, y1: 5 });
    assert_eq!(b.intersection(&a), IRect { x0: 5, y0: 0, x1: 10, y1: 5 });
}

#[test]
fn intersection_with_itself_and_with_a_part() {
    let a = IRect::new(-3, -4, 7, 9).unwrap();
    let inner = IRect::new(0, 0, 2, 2).unwrap();
    assert_eq!(a.intersection(&a), a);
    assert_eq!(a.intersection(&inner), inner);
}

#[test]
fn intersection_of_disjoint_rectangles_is_empty() {
    let a = IRect::new(0, 0, 10, 10).unwrap();
    let b = IRect::new(20, 30, 40, 50).unwrap();
    let r = a.intersection(&b);
    assert_eq!(r, IRect { x0: 20, y0: 30, x1: 20, y1: 30 });
    assert!(r.is_empty());
}

#[test]
fn intersection_at_the_limits_of_the_numbers() {
    let all = IRect { x0: i32::MIN, y0: i32::MIN, x1: i32::MAX, y1: i32::MAX };
    let r = IRect { x0: -1, y0: -1, x1: 1, y1: 1 };
    assert_eq!(all.intersection(&r), r);
}

#[test]
fn rectangle_and_view_box_are_empty_at_zero_size() {
    assert!(Rectangle { x: 1, y: 1, width: 0, height: 5 }.is_empty());
    assert!(Rectangle { x: 1, y: 1, width: 5, height: 0 }.is_empty());
    assert!(!Rectangle { x: 0, y: 0, width: 1, height: -1 }.is_empty());
    assert!(ViewBox { x: 1, y: 1, width: 0, height: 5 }.is_empty());
    assert!(ViewBox { x: 1, y: 1, width: 5, height: 0 }.is_empty());
    assert!(!ViewBox { x: 0, y: 0, width: 1, height: 1 }.is_empty());
}
