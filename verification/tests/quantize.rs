use slider::geometry::Rectangle;
use slider::quantize::{decrement, increment, locate};

fn rail(x: i32, width: u32) -> Rectangle {
    Rectangle { x, y: 0, width, height: 16 }
}

#[test]
fn locate_at_or_before_the_left_edge_is_the_start() {
    assert_eq!(locate(10i32, 90, 1, rail(20, 200), 20), Some(10));
    assert_eq!(locate(10i32, 90, 1, rail(20, 200), 19), Some(10));
    assert_eq!(locate(10i32, 90, 1, rail(20, 200), i32::MIN), Some(10));
    assert_eq!(locate(10i32, 90, 0, rail(20, 200), 0), Some(10));
}

#[test]
fn locate_at_or_past_the_right_edge_is_the_end() {
    assert_eq!(locate(10i32, 90, 1, rail(20, 200), 220), Some(90));
    assert_eq!(locate(10i32, 90, 1, rail(20, 200), 221), Some(90));
    assert_eq!(locate(10i32, 90, 1, rail(20, 200), i32::MAX), Some(90));
    assert_eq!(locate(10i32, 90, 0, rail(20, 200), 500), Some(90));
}

#[test]
fn locate_on_a_rail_without_width() {
    assert_eq!(locate(10i32, 90, 1, rail(20, 0), 20), Some(10));
    assert_eq!(locate(10i32, 90, 1, rail(20, 0), 21), Some(90));
    assert_eq!(locate(10i32, 90, 1, rail(20, 0), 19), Some(10));
}

#[test]
fn locate_at_the_far_ends_of_the_screen() {
    let wide = Rectangle { x: i32::MIN, y: 0, width: u32::MAX, height: 1 };
    assert_eq!(locate(i64::MIN, i64::MAX, 1, wide, i32::MIN), Some(i64::MIN));
    assert_eq!(locate(i64::MIN, i64::MAX, 1, wide, i32::MAX), Some(i64::MAX));
    assert_eq!(locate(0u64, u64::MAX, 1, wide, -1), Some(9_223_372_034_707_292_159));
}

#[test]
fn locate_inside_takes_the_share_of_the_span() {
    assert_eq!(locate(0i32, 100, 1, rail(0, 200), 100), Some(50));
    assert_eq!(locate(0i32, 100, 1, rail(0, 200), 150), Some(75));
    assert_eq!(locate(0i32, 100, 1, rail(0, 200), 1), Some(1));
    assert_eq!(locate(0i32, 100, 1, rail(0, 200), 199), Some(100));
    assert_eq!(locate(-50i32, 50, 1, rail(0, 100), 25), Some(-25));
    assert_eq!(locate(10u8, 20, 1, rail(100, 10), 104), Some(14));
}

#[test]
fn locate_rounds_to_the_nearest_step_and_ties_away_from_zero() {
    assert_eq!(locate(0i32, 10, 1, rail(0, 20), 1), Some(1));
    assert_eq!(locate(0i32, 10, 1, rail(0, 20), 3), Some(2));
    assert_eq!(locate(0i32, 100, 5, rail(0, 200), 33), Some(15));
    assert_eq!(locate(0i32, 100, 5, rail(0, 200), 35), Some(20));
    assert_eq!(locate(0i32, 100, 5, rail(0, 200), 34), Some(15));
    assert_eq!(locate(3i32, 103, 5, rail(0, 200), 33), Some(18));
    assert_eq!(locate(0i32, 100, 10, rail(0, 200), 9), Some(0));
    assert_eq!(locate(0i32, 100, 10, rail(0, 200), 10), Some(10));
}

#[test]
fn locate_on_a_reversed_range() {
    assert_eq!(locate(100i32, 0, 1, rail(0, 200), 50), Some(75));
    assert_eq!(locate(10i32, 0, 1, rail(0, 20), 1), Some(9));
    assert_eq!(locate(10i32, 0, 1, rail(0, 20), 3), Some(8));
}

#[test]
fn locate_with_a_negative_step_is_as_with_the_positive() {
    assert_eq!(locate(0i32, 100, -5, rail(0, 200), 33), Some(15));
    assert_eq!(locate(0i32, 100, -5, rail(0, 200), 35), Some(20));
}

#[test]
fn locate_with_a_step_of_zero_selects_nothing_inside() {
    assert_eq!(locate(0i32, 100, 0, rail(0, 200), 100), None);
    assert_eq!(locate(0i32, 100, 0, rail(0, 200), 1), None);
}

#[test]
fn locate_can_pass_the_end_where_the_span_is_no_whole_number_of_steps() {
    assert_eq!(locate(0i32, 7, 4, rail(0, 10), 9), Some(8));
}

#[test]
fn locate_gives_nothing_where_the_value_type_cannot_hold_the_number() {
    assert_eq!(locate(252u8, 255, 4, rail(0, 10), 9), None);
    assert_eq!(locate(252u16, 255, 4, rail(0, 10), 9), Some(256));
    assert_eq!(locate(252u8, 255, 4, rail(0, 10), 1), Some(252));
}

#[test]
fn increment_adds_one_step() {
    assert_eq!(increment(50i32, 100, 1), Some(51));
    assert_eq!(increment(0u8, 255, 1), Some(1));
    assert_eq!(increment(10i32, 100, 5), Some(15));
}

#[test]
fn increment_rounds_to_a_whole_step_first() {
    assert_eq!(increment(7i32, 100, 5), Some(10));
    assert_eq!(increment(8i32, 100, 5), Some(15));
    assert_eq!(increment(5i32, 100, 10), Some(20));
    assert_eq!(increment(-5i32, 100, 10), Some(0));
    assert_eq!(increment(-7i32, 100, 5), Some(0));
    assert_eq!(increment(-8i32, 100, 5), Some(-5));
}

#[test]
fn increment_is_held_at_the_end() {
    assert_eq!(increment(99i32, 100, 5), Some(100));
    assert_eq!(increment(100i32, 100, 1), Some(100));
    assert_eq!(increment(255u8, 255, 1), Some(255));
    assert_eq!(increment(i64::MAX, i64::MAX, i64::MAX), Some(i64::MAX));
    assert_eq!(increment(150i32, 100, 1), Some(100));
}

#[test]
fn increment_with_a_step_of_zero_gives_nothing() {
    assert_eq!(increment(50i32, 100, 0), None);
    assert_eq!(increment(0i32, 100, 0), None);
}

#[test]
fn increment_with_a_negative_step_steps_down() {
    assert_eq!(increment(2i32, 255, -5), Some(-5));
    assert_eq!(increment(12i32, 255, -5), Some(5));
}

#[test]
fn increment_gives_nothing_where_the_value_type_cannot_hold_the_number() {
    assert_eq!(increment(-32_766i16, 0, -5), None);
    assert_eq!(increment(-32_766i32, 0, -5), Some(-32_770));
}

#[test]
fn repeated_increment_reaches_the_end_and_stays() {
    let mut value = 3i32;
    let mut steps = 0;
    while value != 40 {
        let next = increment(value, 40, 7).unwrap();
        assert!(next > value);
        assert!(next <= 40);
        value = next;
        steps += 1;
        assert!(steps <= 37);
    }
    assert_eq!(steps, 6);
    assert_eq!(increment(value, 40, 7), Some(40));
    assert_eq!(increment(40i32, 40, 7), Some(40));
}

#[test]
fn decrement_takes_one_step_off() {
    assert_eq!(decrement(50i32, 0, 1), Some(49));
    assert_eq!(decrement(255u8, 0, 1), Some(254));
    assert_eq!(decrement(10i32, 0, 5), Some(5));
}

#[test]
fn decrement_rounds_to_a_whole_step_first() {
    assert_eq!(decrement(7i32, 0, 5), Some(0));
    assert_eq!(decrement(8i32, 0, 5), Some(5));
    assert_eq!(decrement(15i32, 0, 10), Some(10));
    assert_eq!(decrement(-5i32, -100, 10), Some(-20));
}

#[test]
fn decrement_is_held_at_the_start() {
    assert_eq!(decrement(1i32, 0, 5), Some(0));
    assert_eq!(decrement(0i32, 0, 1), Some(0));
    assert_eq!(decrement(0u8, 0, 1), Some(0));
    assert_eq!(decrement(i64::MIN, i64::MIN, 1), Some(i64::MIN));
    assert_eq!(decrement(-20i32, 0, 1), Some(0));
}

#[test]
fn decrement_with_a_step_of_zero_gives_nothing() {
    assert_eq!(decrement(50i32, 0, 0), None);
}

#[test]
fn decrement_with_a_negative_step_steps_up() {
    assert_eq!(decrement(250i32, 0, -5), Some(255));
    assert_eq!(decrement(253i32, 0, -5), Some(260));
}

#[test]
fn decrement_gives_nothing_where_the_value_type_cannot_hold_the_number() {
    assert_eq!(decrement(32_765i16, 0, -5), None);
    assert_eq!(decrement(32_765i32, 0, -5), Some(32_770));
    assert_eq!(decrement(253u8, 0, 5), Some(250));
}

#[test]
fn repeated_decrement_reaches_the_start_and_stays() {
    let mut value = 38i32;
    let mut steps = 0;
    while value != 0 {
        let next = decrement(value, 0, 7).unwrap();
        assert!(next < value);
        value = next;
        steps += 1;
        assert!(steps <= 38);
    }
    assert_eq!(steps, 5);
    assert_eq!(decrement(0i32, 0, 7), Some(0));
}

#[test]
fn locate_inside_stays_on_the_steps_and_in_the_range() {
    for x in 1..200 {
        let value = locate(0i32, 100, 5, rail(0, 200), x).unwrap();
        assert_eq!(value % 5, 0);
        assert!((0..=100).contains(&value));
        let shifted = locate(-30i32, 60, 9, rail(0, 200), x).unwrap();
        assert_eq!((shifted + 30) % 9, 0);
        assert!((-30..=60).contains(&shifted));
        assert_eq!(locate(-30i32, 60, -9, rail(0, 200), x), Some(shifted));
    }
}

#[test]
fn steps_from_inside_the_range_stay_in_the_range() {
    for value in -30..=60 {
        let up = increment(value, 60i32, 9).unwrap();
        let down = decrement(value, -30i32, 9).unwrap();
        assert!((-30..=60).contains(&up));
        assert!((-30..=60).contains(&down));
        assert!(up > value || value == 60);
        assert!(down < value || value == -30);
    }
}
