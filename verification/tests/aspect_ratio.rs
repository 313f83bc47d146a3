use rsvg_internals::aspect_ratio::{Align, Align1D, AspectRatio, FitMode};
use rsvg_internals::ratio::Ratio;
use rsvg_internals::rect::{Rectangle, ViewBox};

fn same(r: Ratio, n: i128, d: i128) -> bool {
    r.den > 0 && r.num * d == n * r.den
}

fn policy(x: Align1D, y: Align1D, fit: FitMode) -> AspectRatio {
    AspectRatio { align: Some(Align { x, y, fit }) }
}

#[test]
fn align_min_mid_max_place_an_object() {
    let obj = Ratio::of(30, 1);
    assert!(same(Align1D::Min.compute(10, 100, &obj), 10, 1));
    assert!(same(Align1D::Mid.compute(10, 100, &obj), 45, 1));
    assert!(same(Align1D::Max.compute(10, 100, &obj), 80, 1));
}

#[test]
fn align_mid_keeps_half_steps() {
    let obj = Ratio::of(3, 1);
    assert!(same(Align1D::Mid.compute(0, 4, &obj), 1, 2));
    assert_eq!(Align1D::Mid.compute(0, 4, &obj), Ratio { num: 1, den: 2 });
}

#[test]
fn fit_meet_takes_the_smaller_factor_and_slice_the_larger() {
    let two = Ratio::of(100, 50);
    let one = Ratio::of(50, 50);
    assert_eq!(FitMode::Meet.factor(&two, &one), one);
    assert_eq!(FitMode::Meet.factor(&one, &two), one);
    assert_eq!(FitMode::Slice.factor(&two, &one), two);
    assert_eq!(FitMode::Slice.factor(&one, &two), two);
}

#[test]
fn compute_meet_mid_mid_exact_fit() {
    let viewport = Rectangle { x: 0, y: 0, width: 100, height: 100 };
    let vbox = ViewBox { x: 0, y: 0, width: 50, height: 50 };
    let (x, y, w, h) = policy(Align1D::Mid, Align1D::Mid, FitMode::Meet).compute(&vbox, &viewport);
    assert!(same(x, 0, 1));
    assert!(same(y, 0, 1));
    assert!(same(w, 100, 1));
    assert!(same(h, 100, 1));
}

#[test]
fn compute_meet_mid_mid_limited_by_height() {
    let viewport = Rectangle { x: 0, y: 0, width: 100, height: 50 };
    let vbox = ViewBox { x: 0, y: 0, width: 50, height: 50 };
    let (x, y, w, h) = policy(Align1D::Mid, Align1D::Mid, FitMode::Meet).compute(&vbox, &viewport);
    assert!(same(x, 25, 1));
    assert!(same(y, 0, 1));
    assert!(same(w, 50, 1));
    assert!(same(h, 50, 1));
}

#[test]
fn compute_slice_covers_the_viewport() {
    let viewport = Rectangle { x: 10, y: 20, width: 100, height: 50 };
    let vbox = ViewBox { x: 7, y: 9, width: 50, height: 50 };
    let (x, y, w, h) = policy(Align1D::Min, Align1D::Max, FitMode::Slice).compute(&vbox, &viewport);
    assert!(same(x, 10, 1));
    assert!(same(y, -30, 1));
    assert!(same(w, 100, 1));
    assert!(same(h, 100, 1));
}

#[test]
fn compute_keeps_thirds_exact() {
    let viewport = Rectangle { x: 0, y: 0, width: 10, height: 100 };
    let vbox = ViewBox { x: 0, y: 0, width: 30, height: 20 };
    let (x, y, w, h) = policy(Align1D::Mid, Align1D::Mid, FitMode::Meet).compute(&vbox, &viewport);
    assert!(same(w, 10, 1));
    assert!(same(h, 20, 3));
    assert!(same(x, 0, 1));
    assert!(same(y, 140, 3));
}

#[test]
fn compute_without_alignment_is_the_viewport() {
    let viewport = Rectangle { x: 3, y: 4, width: 100, height: 50 };
    let vbox = ViewBox { x: 1, y: 2, width: 0, height: 0 };
    let (x, y, w, h) = (AspectRatio { align: None }).compute(&vbox, &viewport);
    assert_eq!(x, Ratio { num: 3, den: 1 });
    assert_eq!(y, Ratio { num: 4, den: 1 });
    assert_eq!(w, Ratio { num: 100, den: 1 });
    assert_eq!(h, Ratio { num: 50, den: 1 });
}

#[test]
fn compute_at_the_limits_of_the_numbers() {
    let viewport = Rectangle { x: i32::MIN, y: i32::MAX, width: i32::MIN, height: i32::MAX };
    let vbox = ViewBox { x: 0, y: 0, width: i32::MIN, height: 1 };
    let (x, y, w, h) = policy(Align1D::Mid, Align1D::Max, FitMode::Slice).compute(&vbox, &viewport);
    let big = i32::MAX as i128;
    let low = i32::MIN as i128;
    assert!(same(w, low * big, 1));
    assert!(same(h, big, 1));
    assert!(same(x, 2 * low + low - low * big, 2));
    assert!(same(y, big, 1));
}
