use box_overlay::range::map_clamped;

#[test]
fn map_is_linear_between_the_bounds() {
    assert_eq!(box_overlay::range::map(5, 0, 10, 0, 100), 50);
    assert_eq!(box_overlay::range::map(25, 0, 100, 6400, 12800), 8000);
    assert_eq!(box_overlay::range::map(3, 1, 5, 10, 30), 20);
}

#[test]
fn map_sends_source_bounds_to_target_bounds() {
    assert_eq!(box_overlay::range::map(7, 7, 19, 0, 1), 0);
    assert_eq!(box_overlay::range::map(19, 7, 19, 0, 1), 1);
    assert_eq!(box_overlay::range::map(-4, -4, 9, -100, 250), -100);
    assert_eq!(box_overlay::range::map(9, -4, 9, -100, 250), 250);
    assert_eq!(box_overlay::range::map(9, 9, -4, 3, -3), 3);
    assert_eq!(box_overlay::range::map(-4, 9, -4, 3, -3), -3);
}

#[test]
fn map_rounds_down() {
    assert_eq!(box_overlay::range::map(1, 0, 3, 0, 10), 3);
    assert_eq!(box_overlay::range::map(2, 0, 3, 0, 10), 6);
    assert_eq!(box_overlay::range::map(-1, 0, 3, 0, 10), -4);
    assert_eq!(box_overlay::range::map(-1, 0, 10, 0, 15), -2);
    assert_eq!(box_overlay::range::map(-3, 0, 3, 0, 10), -10);
}

#[test]
fn map_goes_beyond_the_target_outside_the_source() {
    assert_eq!(box_overlay::range::map(20, 0, 10, 0, 100), 200);
    assert_eq!(box_overlay::range::map(-10, 0, 10, 0, 100), -100);
}

#[test]
fn map_takes_bounds_in_either_order() {
    assert_eq!(box_overlay::range::map(3, 10, 0, 0, 100), 70);
    assert_eq!(box_overlay::range::map(3, 0, 10, 100, 0), 70);
    assert_eq!(box_overlay::range::map(3, 10, 0, 100, 0), 30);
    assert_eq!(box_overlay::range::map(1, 3, 0, 0, 10), 6);
    assert_eq!(box_overlay::range::map(4, 3, 0, 0, 10), -4);
}

#[test]
fn map_onto_unit_interval_is_monotonic() {
    let mut last = box_overlay::range::map(-50, 10, 30, 0, 1);
    for x in -49..=80 {
        let y = box_overlay::range::map(x, 10, 30, 0, 1);
        assert!(last <= y);
        last = y;
    }
    assert_eq!(box_overlay::range::map(10, 10, 30, 0, 1), 0);
    assert_eq!(box_overlay::range::map(29, 10, 30, 0, 1), 0);
    assert_eq!(box_overlay::range::map(30, 10, 30, 0, 1), 1);
    assert_eq!(box_overlay::range::map(9, 10, 30, 0, 1), -1);
}

#[test]
fn map_is_monotonic_in_x() {
    let mut rising = box_overlay::range::map(-100, 0, 7, -3, 40);
    let mut falling = box_overlay::range::map(-100, 7, 0, -3, 40);
    for x in -99..=100 {
        let up = box_overlay::range::map(x, 0, 7, -3, 40);
        let down = box_overlay::range::map(x, 7, 0, -3, 40);
        assert!(rising <= up);
        assert!(falling >= down);
        rising = up;
        falling = down;
    }
}

#[test]
fn map_does_not_overflow_at_the_limits() {
    assert_eq!(
        box_overlay::range::map(i64::MAX, i64::MIN, i64::MIN + 1, i32::MIN, i32::MAX),
        i32::MIN as i128 + (u64::MAX as i128) * (u32::MAX as i128)
    );
    assert_eq!(
        box_overlay::range::map(i64::MIN, i64::MAX, i64::MAX - 1, i32::MAX, i32::MIN),
        i32::MAX as i128 - (u64::MAX as i128) * (u32::MAX as i128)
    );
    assert_eq!(box_overlay::range::map(0, i64::MIN, i64::MAX, 0, 1), 0);
    assert_eq!(box_overlay::range::map(-1, i64::MIN, i64::MAX, 0, 2), 0);
    assert_eq!(box_overlay::range::map(-1, i64::MIN, i64::MAX, 0, 1), 0);
    assert_eq!(box_overlay::range::map(i64::MIN, i64::MAX, i64::MIN, 0, 1), 1);
}

#[test]
fn map_clamped_is_map_inside_the_source() {
    assert_eq!(map_clamped(50, 0, 100, 6400, 12800), 9600);
    assert_eq!(map_clamped(0, 0, 100, 6400, 12800), 6400);
    assert_eq!(map_clamped(100, 0, 100, 6400, 12800), 12800);
    assert_eq!(map_clamped(1, 0, 3, 0, 10), 3);
}

#[test]
fn map_clamped_stays_in_the_target_interval() {
    assert_eq!(map_clamped(-50, 0, 100, 6400, 12800), 6400);
    assert_eq!(map_clamped(1_000_000, 0, 100, 6400, 12800), 12800);
    assert_eq!(map_clamped(i64::MIN, 0, 1, -7, 9), -7);
    assert_eq!(map_clamped(i64::MAX, 0, 1, -7, 9), 9);
    assert_eq!(map_clamped(i64::MAX, 1, 0, -7, 9), -7);
    assert_eq!(map_clamped(i64::MIN, i64::MAX, i64::MAX - 1, i32::MIN, i32::MAX), i32::MAX);
    for x in -300..=300 {
        let y = map_clamped(x, -20, 45, -7, 9);
        assert!(-7 <= y && y <= 9);
    }
}

#[test]
fn map_clamped_onto_a_single_value() {
    assert_eq!(map_clamped(-3, 0, 10, 5, 5), 5);
    assert_eq!(map_clamped(30, 0, 10, 5, 5), 5);
}
