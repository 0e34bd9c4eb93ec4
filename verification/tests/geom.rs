use gl_gui::geom::{div_towards_zero, Rect, Vec2};

#[test]
fn vec2_checked_add_sums_components() {
    let a = Vec2::new(3, 4);
    let b = Vec2::new(10, -6);
    assert_eq!(a.checked_add(b), Some(Vec2::new(13, -2)));
}

#[test]
fn vec2_checked_add_reports_overflow() {
    let a = Vec2::new(i32::MAX, 0);
    assert_eq!(a.checked_add(Vec2::new(1, 0)), None);
    assert_eq!(Vec2::new(0, i32::MIN).checked_sub(Vec2::new(0, 1)), None);
}

#[test]
fn vec2_checked_sub_subtracts_components() {
    assert_eq!(Vec2::new(5, 5).checked_sub(Vec2::new(7, -3)), Some(Vec2::new(-2, 8)));
    assert_eq!(Vec2::zero(), Vec2::new(0, 0));
}

#[test]
fn rect_size_is_end_minus_start() {
    let r = Rect::new(Vec2::new(2, 3), Vec2::new(12, 8));
    assert_eq!(r.size(), Some(Vec2::new(10, 5)));
    assert_eq!(Rect::new(Vec2::new(i32::MIN, 0), Vec2::new(1, 0)).size(), None);
}

#[test]
fn rect_contains_point_is_half_open() {
    let r = Rect::new(Vec2::new(2, 3), Vec2::new(12, 8));
    assert!(r.contains_point(Vec2::new(2, 3)));
    assert!(r.contains_point(Vec2::new(11, 7)));
    assert!(!r.contains_point(Vec2::new(12, 7)));
    assert!(!r.contains_point(Vec2::new(11, 8)));
    assert!(!r.contains_point(Vec2::new(1, 3)));
}

#[test]
fn division_rounds_towards_zero() {
    assert_eq!(div_towards_zero(7, 2), 3);
    assert_eq!(div_towards_zero(-7, 2), -3);
    assert_eq!(div_towards_zero(7, -2), -3);
    assert_eq!(div_towards_zero(-7, -2), 3);
    assert_eq!(div_towards_zero(0, 5), 0);
    assert_eq!(div_towards_zero(-1, 3), 0);
}
