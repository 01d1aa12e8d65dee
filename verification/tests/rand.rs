use falling_sand::rand::{Rand, DENOMINATOR, MODULUS, MULTIPLIER};

#[test]
fn new_starts_one_above_the_seed() {
    assert_eq!(Rand::new(0).seed(), 1);
    assert_eq!(Rand::new(41).seed(), 42);
    assert_eq!(Rand::new(12345).seed(), 12346);
}

#[test]
fn new_reduces_the_seed_by_the_modulus() {
    assert_eq!(Rand::new(2147483645).seed(), 2147483646);
    assert_eq!(Rand::new(2147483646).seed(), 0);
    assert_eq!(Rand::new(2147483647).seed(), 1);
    assert_eq!(Rand::new(u32::MAX).seed(), 2);
}

#[test]
fn next_walks_the_known_sequence() {
    let mut rng = Rand::new(0);
    assert_eq!(rng.next(), 16807);
    assert_eq!(rng.next(), 282475249);
    assert_eq!(rng.next(), 1622650073);
    assert_eq!(rng.next(), 984943658);
    assert_eq!(rng.next(), 1144108930);
    assert_eq!(rng.seed(), 1144108930);
}

#[test]
fn next_multiplies_without_losing_the_upper_bits() {
    // 2147483646 * 16807 does not fit in 32 bits; the result is exact all the same.
    let mut rng = Rand::new(2147483645);
    assert_eq!(rng.next(), 2147466840);
    assert_eq!(MULTIPLIER, 16807);
    assert_eq!(MODULUS, 2147483647);
}

#[test]
fn float_is_one_below_the_state() {
    let mut rng = Rand::new(0);
    assert_eq!(rng.float(), 16806);
    assert_eq!(rng.seed(), 16807);
    assert_eq!(rng.float(), 282475248);
}

#[test]
fn float_stays_below_the_denominator() {
    assert_eq!(DENOMINATOR, 2147483646);
    let mut rng = Rand::new(2024);
    for _ in 0..10_000 {
        assert!(rng.float() < DENOMINATOR);
    }
}

#[test]
fn generator_stuck_at_zero_draws_zero() {
    let mut rng = Rand::new(2147483646);
    assert_eq!(rng.seed(), 0);
    assert_eq!(rng.next(), 0);
    assert_eq!(rng.float(), 0);
    assert_eq!(rng.range(0, 3), 0);
    assert_eq!(rng.range(5, -5), 5);
}

#[test]
fn range_scales_the_draw_into_the_span() {
    assert_eq!(Rand::new(99999).range(10, 20), 17);
    assert_eq!(Rand::new(99999).range(-5, 5), 2);
    assert_eq!(Rand::new(99999).range(0, 3), 2);
    assert_eq!(Rand::new(7).range(10, 20), 10);
    assert_eq!(Rand::new(7).range(0, 3), 0);
    assert_eq!(Rand::new(44108).range(0, 3), 1);
}

#[test]
fn range_counts_down_when_the_ends_are_reversed() {
    assert_eq!(Rand::new(99999).range(20, 10), 13);
    assert_eq!(Rand::new(7).range(20, 10), 20);
}

#[test]
fn range_of_an_empty_span_is_its_start() {
    assert_eq!(Rand::new(99999).range(4, 4), 4);
    assert_eq!(Rand::new(7).range(-9, -9), -9);
}

#[test]
fn range_spans_all_of_the_32_bit_numbers() {
    assert_eq!(Rand::new(99999).range(i32::MIN, i32::MAX), 1213916352);
    assert_eq!(Rand::new(7).range(i32::MIN, i32::MAX), -2147214738);
}

#[test]
fn range_moves_the_generator_on_by_one_draw() {
    let mut rng = Rand::new(0);
    rng.range(0, 3);
    assert_eq!(rng.seed(), 16807);
}

#[test]
fn range_stays_inside_its_ends() {
    let mut rng = Rand::new(1);
    let mut seen = [false; 3];
    for _ in 0..10_000 {
        let r = rng.range(0, 3);
        assert!((0..3).contains(&r));
        seen[r as usize] = true;
    }
    assert_eq!(seen, [true, true, true]);
}

#[test]
fn equal_seeds_give_equal_draws() {
    let mut a = Rand::new(77);
    let mut b = Rand::new(77);
    for _ in 0..100 {
        assert_eq!(a.float(), b.float());
    }
}
