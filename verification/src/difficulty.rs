//! Difficulty model: pure functions of the score.
//!
//! The score is kept in units of 10^-4 points (one unit per microsecond of
//! play). Spawn intervals are kept in ticks of 0.1 µs, which makes the
//! interval formula `max(0.15 s, max(0.8 s, 1.2 s - score * 0.001 s))` exact:
//! one score unit is exactly one tick of the linear term.

use vstd::arithmetic::div_mod::{lemma_div_is_ordered, lemma_div_pos_is_pos};
use vstd::prelude::*;

verus! {

/// Score value (in 10^-4 points) at which the score stops accruing; far beyond
/// any reachable play time (it corresponds to about 31 years of play).
pub const SCORE_CAP: u64 = 1_000_000_000_000_000;

/// 1.2 s, in ticks of 0.1 µs: the spawn interval at score zero.
pub const INTERVAL_START_TICKS: i64 = 12_000_000;

/// 0.8 s, in ticks of 0.1 µs: the effective lower bound of the spawn interval.
pub const INTERVAL_FLOOR_TICKS: i64 = 8_000_000;

/// 0.15 s, in ticks of 0.1 µs: the outer lower bound of the interval formula
/// (never reached, since the 0.8 s bound dominates it).
pub const INTERVAL_MIN_TICKS: i64 = 1_500_000;

/// Fall-speed base at score zero, in pixels per second.
pub const BASE_FALL_SPEED: i64 = 120;

/// The largest fall-speed base, reached at `SCORE_CAP`: 120 + 0.6 * 10^11.
pub const MAX_FALL_SPEED_BASE: i64 = 60_000_000_120;

/// Seconds between spawns, in ticks of 0.1 µs:
/// `max(0.15 s, max(0.8 s, 1.2 s - score * 0.001 s))`.
pub open spec fn spawn_interval_of(score: int) -> int {
    let linear = (INTERVAL_START_TICKS as int) - score;
    let floored = if linear < INTERVAL_FLOOR_TICKS as int {
        INTERVAL_FLOOR_TICKS as int
    } else {
        linear
    };
    if floored < INTERVAL_MIN_TICKS as int {
        INTERVAL_MIN_TICKS as int
    } else {
        floored
    }
}

/// Lower bound of a newly spawned object's fall speed, in pixels per second:
/// `120 + score * 0.6` points-to-speed (exact on whole pixels per second,
/// rounded down otherwise: `120 + (6 * score) / 100_000`).
pub open spec fn fall_speed_base_of(score: int) -> int {
    (BASE_FALL_SPEED as int) + (6 * score) / 100_000
}

/// The fall-speed base stays within `[120, MAX_FALL_SPEED_BASE]` for any
/// score up to the cap.
pub proof fn lemma_fall_speed_base_bounds(score: int)
    requires
        0 <= score <= SCORE_CAP,
    ensures
        BASE_FALL_SPEED <= fall_speed_base_of(score) <= MAX_FALL_SPEED_BASE,
{
    lemma_div_pos_is_pos(6 * score, 100_000);
    lemma_div_is_ordered(6 * score, 6 * (SCORE_CAP as int), 100_000);
}

/// Seconds between spawns as a function of the score (exact fixed point).
pub fn spawn_interval_ticks(score: u64) -> (r: i64)
    requires
        score <= SCORE_CAP,
    ensures
        r == spawn_interval_of(score as int),
        INTERVAL_FLOOR_TICKS <= r <= INTERVAL_START_TICKS,
{
    let linear = INTERVAL_START_TICKS - (score as i64);
    let floored = if linear < INTERVAL_FLOOR_TICKS {
        INTERVAL_FLOOR_TICKS
    } else {
        linear
    };
    if floored < INTERVAL_MIN_TICKS {
        INTERVAL_MIN_TICKS
    } else {
        floored
    }
}

/// Lower bound of a newly spawned object's fall speed, in pixels per second.
pub fn fall_speed_base(score: u64) -> (r: i64)
    requires
        score <= SCORE_CAP,
    ensures
        r == fall_speed_base_of(score as int),
        BASE_FALL_SPEED <= r <= MAX_FALL_SPEED_BASE,
{
    proof {
        lemma_fall_speed_base_bounds(score as int);
    }
    BASE_FALL_SPEED + ((6 * score) / 100_000) as i64
}

/// Difficulty is monotone in the score: as the score grows, the spawn
/// interval never increases and the fall-speed base never decreases.
pub proof fn lemma_difficulty_monotonic(score1: int, score2: int)
    requires
        0 <= score1 <= score2,
    ensures
        spawn_interval_of(score1) >= spawn_interval_of(score2),
        fall_speed_base_of(score1) <= fall_speed_base_of(score2),
{
    lemma_div_is_ordered(6 * score1, 6 * score2, 100_000);
}

/// From 400 points on (score units >= 4_000_000) the spawn interval sits at
/// its floor of 0.8 s: the linear term has fallen to the 0.8 s bound, which
/// dominates the outer 0.15 s bound.
pub proof fn lemma_spawn_interval_floor(score: int)
    requires
        score >= 4_000_000,
    ensures
        spawn_interval_of(score) == INTERVAL_FLOOR_TICKS,
{
}

} // verus!
