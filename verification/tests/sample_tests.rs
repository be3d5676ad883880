use capture_core::sample::mix;
use capture_core::FULL_SCALE;

#[test]
fn mix_adds_in_range_samples_exactly() {
    assert_eq!(mix(500_000, 250_000), 750_000);
    assert_eq!(mix(0, 0), 0);
    assert_eq!(mix(-250_000, 250_000), 0);
    assert_eq!(mix(FULL_SCALE, 0), FULL_SCALE);
    assert_eq!(mix(0, -FULL_SCALE), -FULL_SCALE);
}

#[test]
fn mix_clips_to_full_scale() {
    assert_eq!(mix(900_000, 900_000), FULL_SCALE);
    assert_eq!(mix(-900_000, -900_000), -FULL_SCALE);
    assert_eq!(mix(FULL_SCALE, FULL_SCALE), FULL_SCALE);
    assert_eq!(mix(-FULL_SCALE, -FULL_SCALE), -FULL_SCALE);
    assert_eq!(mix(FULL_SCALE, 1), FULL_SCALE);
}

#[test]
fn mix_is_commutative_and_clipped() {
    let pairs = [
        (0, 0),
        (1, -1),
        (123_456, 654_321),
        (-1_000_000, 1_000_000),
        (999_999, 2),
        (-999_999, -2),
        (1_000_000, 1_000_000),
    ];
    for &(a, b) in pairs.iter() {
        let clamped = (a as i64 + b as i64).clamp(-(FULL_SCALE as i64), FULL_SCALE as i64) as i32;
        assert_eq!(mix(a, b), clamped);
        assert_eq!(mix(a, b), mix(b, a));
    }
}
