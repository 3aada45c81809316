use lightweight_screenshot_app::{Fixed, Pos2, Rect, Vec2};

#[test]
fn test_fixed_whole_numbers() {
    assert_eq!(Fixed::zero().raw, 0);
    assert_eq!(Fixed::one().raw, 65536);
    assert_eq!(Fixed::from_int(1920).raw, 1920 * 65536);
    assert_eq!(Fixed::from_int(-3).raw, -3 * 65536);
    assert_eq!(Fixed::from_count(7).raw, 7 * 65536);
    assert_eq!(Fixed::from_raw(5).raw, 5);
    assert_eq!(Fixed::from_int(i64::MAX).raw, i64::MAX);
    assert_eq!(Fixed::from_int(i64::MIN).raw, i64::MIN);
    assert_eq!(Fixed::from_count(usize::MAX).raw, i64::MAX);
}

#[test]
fn test_fixed_ratios_round_down() {
    assert_eq!(Fixed::from_ratio(3, 2).raw, 98304);
    assert_eq!(Fixed::from_ratio(1, 3).raw, 21845);
    assert_eq!(Fixed::from_ratio(-1, 3).raw, -21846);
    assert_eq!(Fixed::from_ratio(-3, 2).raw, -98304);
    assert_eq!(Fixed::from_ratio(0, 9).raw, 0);
    assert_eq!(Fixed::from_ratio(i32::MIN, 1).raw, i32::MIN as i64 * 65536);
    assert_eq!(Fixed::from_ratio(i32::MAX, u32::MAX).raw, 32767);
}

#[test]
fn test_fixed_sums_and_differences_are_clamped() {
    let a = Fixed::from_int(7);
    let b = Fixed::from_ratio(1, 2);
    assert_eq!(a.plus(b).raw, 7 * 65536 + 32768);
    assert_eq!(a.minus(b).raw, 7 * 65536 - 32768);
    assert_eq!(b.minus(a).raw, 32768 - 7 * 65536);
    let top = Fixed::from_raw(i64::MAX);
    let bottom = Fixed::from_raw(i64::MIN);
    assert_eq!(top.plus(Fixed::from_raw(1)), top);
    assert_eq!(bottom.minus(Fixed::from_raw(1)), bottom);
    assert_eq!(bottom.plus(top).raw, -1);
    assert_eq!(top.minus(bottom), top);
    assert_eq!(bottom.minus(top), bottom);
}

#[test]
fn test_fixed_products_round_down_and_are_clamped() {
    let half = Fixed::from_ratio(1, 2);
    assert_eq!(Fixed::from_int(50).times(Fixed::from_ratio(3, 2)), Fixed::from_int(75));
    assert_eq!(Fixed::from_int(-50).times(Fixed::from_ratio(3, 2)), Fixed::from_int(-75));
    assert_eq!(Fixed::from_raw(1).times(half).raw, 0);
    assert_eq!(Fixed::from_raw(-1).times(half).raw, -1);
    assert_eq!(Fixed::from_raw(3).times(half).raw, 1);
    assert_eq!(Fixed::from_raw(-3).times(half).raw, -2);
    assert_eq!(Fixed::from_int(-4).times(Fixed::from_int(-5)), Fixed::from_int(20));
    let top = Fixed::from_raw(i64::MAX);
    let bottom = Fixed::from_raw(i64::MIN);
    assert_eq!(top.times(Fixed::from_int(2)), top);
    assert_eq!(top.times(Fixed::from_int(-2)), bottom);
    assert_eq!(bottom.times(bottom), top);
    assert_eq!(top.times(Fixed::one()), top);
    assert_eq!(bottom.times(Fixed::one()), bottom);
}

#[test]
fn test_fixed_min_max_midpoint() {
    let a = Fixed::from_int(-2);
    let b = Fixed::from_int(5);
    assert_eq!(a.min(b), a);
    assert_eq!(b.min(a), a);
    assert_eq!(a.max(b), b);
    assert_eq!(b.max(a), b);
    assert_eq!(a.midpoint(b), Fixed::from_ratio(3, 2));
    assert_eq!(Fixed::from_raw(1).midpoint(Fixed::from_raw(2)).raw, 1);
    assert_eq!(Fixed::from_raw(-1).midpoint(Fixed::from_raw(-2)).raw, -2);
    let top = Fixed::from_raw(i64::MAX);
    let bottom = Fixed::from_raw(i64::MIN);
    assert_eq!(top.midpoint(top), top);
    assert_eq!(bottom.midpoint(bottom), bottom);
    assert_eq!(top.midpoint(bottom).raw, -1);
}

#[test]
fn test_fixed_to_pixels() {
    assert_eq!(Fixed::from_int(75).to_pixels(), 75);
    assert_eq!(Fixed::from_ratio(151, 2).to_pixels(), 75);
    assert_eq!(Fixed::from_raw(65535).to_pixels(), 0);
    assert_eq!(Fixed::from_raw(-1).to_pixels(), 0);
    assert_eq!(Fixed::from_int(-20).to_pixels(), 0);
    assert_eq!(Fixed::from_int(u32::MAX as i64).to_pixels(), u32::MAX);
    assert_eq!(Fixed::from_int(u32::MAX as i64 + 1).to_pixels(), u32::MAX);
    assert_eq!(Fixed::from_raw(i64::MAX).to_pixels(), u32::MAX);
}

#[test]
fn test_rect_accessors() {
    let fx = Fixed::from_int;
    let rect = Rect::from_min_size(Pos2::new(fx(10), fx(20)), Vec2::new(fx(100), fx(50)));
    assert_eq!(rect.min, Pos2::new(fx(10), fx(20)));
    assert_eq!(rect.max, Pos2::new(fx(110), fx(70)));
    assert_eq!(rect, Rect::from_min_max(Pos2::new(fx(10), fx(20)), Pos2::new(fx(110), fx(70))));
    assert_eq!(rect.width(), fx(100));
    assert_eq!(rect.height(), fx(50));
    assert_eq!(rect.size(), Vec2::new(fx(100), fx(50)));
    assert_eq!(rect.center(), Pos2::new(fx(60), fx(45)));
    assert_eq!(Pos2::zero(), Pos2::new(fx(0), fx(0)));
    assert_eq!(Vec2::zero(), Vec2::new(fx(0), fx(0)));
}

#[test]
fn test_rect_contains_is_half_open() {
    let fx = Fixed::from_int;
    let rect = Rect::from_min_max(Pos2::new(fx(10), fx(20)), Pos2::new(fx(110), fx(70)));
    assert!(rect.contains(Pos2::new(fx(10), fx(20))));
    assert!(rect.contains(Pos2::new(fx(109), fx(69))));
    assert!(!rect.contains(Pos2::new(fx(110), fx(69))));
    assert!(!rect.contains(Pos2::new(fx(109), fx(70))));
    assert!(!rect.contains(Pos2::new(fx(110), fx(70))));
    assert!(!rect.contains(Pos2::new(fx(9), fx(20))));
    assert!(!rect.contains(Pos2::new(fx(10), fx(19))));
    let empty = Rect::from_min_max(Pos2::new(fx(5), fx(5)), Pos2::new(fx(5), fx(5)));
    assert!(!empty.contains(Pos2::new(fx(5), fx(5))));
}
