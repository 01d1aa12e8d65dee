use falling_sand::fixed::{isqrt, minus, plus, speed_of, DIAGONAL_COST, ONE};

#[test]
fn one_is_a_million_millionths() {
    assert_eq!(ONE, 1_000_000);
}

#[test]
fn diagonal_cost_is_the_diagonal_less_the_side() {
    assert_eq!(DIAGONAL_COST, 414_213);
    assert_eq!(isqrt(2 * (ONE as u64) * (ONE as u64)) as i32 - ONE, DIAGONAL_COST);
}

#[test]
fn isqrt_of_squares_is_exact() {
    assert_eq!(isqrt(0), 0);
    assert_eq!(isqrt(1), 1);
    assert_eq!(isqrt(16), 4);
    assert_eq!(isqrt(1_000_000_000_000), 1_000_000);
}

#[test]
fn isqrt_rounds_down() {
    assert_eq!(isqrt(2), 1);
    assert_eq!(isqrt(3), 1);
    assert_eq!(isqrt(15), 3);
    assert_eq!(isqrt(17), 4);
    assert_eq!(isqrt(2_000_000_000_000), 1_414_213);
}

#[test]
fn isqrt_of_the_largest_number() {
    assert_eq!(isqrt(u64::MAX), 4_294_967_295);
    assert_eq!(isqrt(4_294_967_295 * 4_294_967_295), 4_294_967_295);
    assert_eq!(isqrt(4_294_967_295 * 4_294_967_295 - 1), 4_294_967_294);
}

#[test]
fn plus_adds() {
    assert_eq!(plus(2, 3), 5);
    assert_eq!(plus(-ONE, ONE), 0);
    assert_eq!(plus(0, ONE), 1_000_000);
}

#[test]
fn plus_stops_at_the_ends_of_the_range() {
    assert_eq!(plus(i32::MAX, 1), i32::MAX);
    assert_eq!(plus(i32::MAX, i32::MAX), i32::MAX);
    assert_eq!(plus(i32::MIN, -1), i32::MIN);
    assert_eq!(plus(i32::MAX, i32::MIN), -1);
}

#[test]
fn minus_subtracts() {
    assert_eq!(minus(5, 3), 2);
    assert_eq!(minus(ONE, DIAGONAL_COST), 585_787);
    assert_eq!(minus(0, 0), 0);
}

#[test]
fn minus_stops_at_the_ends_of_the_range() {
    assert_eq!(minus(i32::MIN, 1), i32::MIN);
    assert_eq!(minus(i32::MAX, -1), i32::MAX);
    assert_eq!(minus(0, i32::MIN), i32::MAX);
    assert_eq!(minus(-1, i32::MIN), i32::MAX);
}

#[test]
fn speed_is_the_length_of_the_velocity() {
    assert_eq!(speed_of(0, 0), 0);
    assert_eq!(speed_of(0, ONE), ONE);
    assert_eq!(speed_of(3_000_000, 4_000_000), 5_000_000);
    assert_eq!(speed_of(-3_000_000, 4_000_000), 5_000_000);
    assert_eq!(speed_of(-3_000_000, -4_000_000), 5_000_000);
    assert_eq!(speed_of(ONE, ONE), 1_414_213);
}

#[test]
fn speed_stops_at_the_end_of_the_range() {
    assert_eq!(speed_of(i32::MAX, i32::MAX), i32::MAX);
    assert_eq!(speed_of(i32::MIN, i32::MIN), i32::MAX);
    assert_eq!(speed_of(i32::MIN, 0), i32::MAX);
    assert_eq!(speed_of(i32::MAX, 0), i32::MAX);
}
