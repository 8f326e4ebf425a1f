use arena_survival::direction::Direction;
use arena_survival::geometry::{add_scaled, distance_squared, normalize_or_zero, Vec2i};

#[test]
fn normalize_axis_vector() {
    assert_eq!(normalize_or_zero(Vec2i::new(200_000, 0)), Vec2i::new(1000, 0));
    assert_eq!(normalize_or_zero(Vec2i::new(0, -5)), Vec2i::new(0, -1000));
}

#[test]
fn normalize_three_four_five() {
    assert_eq!(normalize_or_zero(Vec2i::new(3000, -4000)), Vec2i::new(600, -800));
}

#[test]
fn normalize_zero_is_zero() {
    assert_eq!(normalize_or_zero(Vec2i::zero()), Vec2i::zero());
}

#[test]
fn distance_squared_exact() {
    assert_eq!(distance_squared(Vec2i::new(1, 2), Vec2i::new(4, 6)), 25);
    assert_eq!(distance_squared(Vec2i::new(-3, 0), Vec2i::new(-3, 0)), 0);
}

#[test]
fn add_scaled_rounds_toward_zero() {
    let v = add_scaled(Vec2i::new(10, 10), Vec2i::new(-707, 707), 3, 1000);
    // -707 * 3 / 1000 = -2.121 -> -2, 707 * 3 / 1000 = 2.121 -> 2
    assert_eq!(v, Vec2i::new(8, 12));
}

#[test]
fn add_scaled_clamps() {
    let v = add_scaled(Vec2i::new(999_999_999_999, 0), Direction::Right.vec(), 1_000_000, 1);
    assert_eq!(v, Vec2i::new(1_000_000_000_000, 0));
}
