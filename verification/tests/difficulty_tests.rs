//! The score unit is 10^-4 points; a spawn-interval tick is 0.1 µs.

use meteor_dodge::{fall_speed_base, spawn_interval_ticks};

/// Whole points to score units.
fn points(p: u64) -> u64 {
    p * 10_000
}

#[test]
fn fall_speed_base_at_zero_score() {
    assert_eq!(fall_speed_base(0), 120);
}

#[test]
fn fall_speed_base_exact_values() {
    // 120 + 0.6 * score, exact on these scores.
    assert_eq!(fall_speed_base(points(100)), 180);
    assert_eq!(fall_speed_base(points(1000)), 720);
    // Rounded down between whole pixels per second: 0.6 * 1.6 points = 0.96.
    assert_eq!(fall_speed_base(16_000), 120);
    assert_eq!(fall_speed_base(32_000), 121);
}

#[test]
fn spawn_interval_at_zero_score_is_1_2_seconds() {
    assert_eq!(spawn_interval_ticks(0), 12_000_000);
}

#[test]
fn spawn_interval_decreases_linearly_then_floors() {
    // 1.2 s - 0.001 s per point, until the 0.8 s bound dominates.
    assert_eq!(spawn_interval_ticks(points(200)), 10_000_000);
    assert_eq!(spawn_interval_ticks(points(399)), 8_010_000);
    assert_eq!(spawn_interval_ticks(points(400)), 8_000_000);
    assert_eq!(spawn_interval_ticks(points(1050)), 8_000_000);
    assert_eq!(spawn_interval_ticks(points(100_000)), 8_000_000);
}

#[test]
fn difficulty_is_monotone_on_samples() {
    let scores: [u64; 6] = [0, 5_000, points(10), points(200), points(400), points(5000)];
    for i in 1..scores.len() {
        assert!(spawn_interval_ticks(scores[i - 1]) >= spawn_interval_ticks(scores[i]));
        assert!(fall_speed_base(scores[i - 1]) <= fall_speed_base(scores[i]));
    }
}
