//! Simulation-step scenarios. Lengths are micro-pixels (10^-6 of a logical
//! pixel), times are microseconds, scores are 10^-4 points.

use meteor_dodge::{FallingObject, InputState, Phase, Rect, SimulationState};

const W: i64 = 400_000_000; // 400 px
const H: i64 = 600_000_000; // 600 px

fn released() -> InputState {
    InputState { move_left: false, move_right: false }
}

fn left() -> InputState {
    InputState { move_left: true, move_right: false }
}

fn right() -> InputState {
    InputState { move_left: false, move_right: true }
}

#[test]
fn new_session_is_at_the_baseline() {
    let s = SimulationState::new(W, H);
    assert_eq!(s.width, W);
    assert_eq!(s.height, H);
    // Player centered at the bottom: {185, 560, 30, 20} px.
    assert_eq!(s.player_box, Rect { x: 185_000_000, y: 560_000_000, w: 30_000_000, h: 20_000_000 });
    assert!(s.objects.is_empty());
    assert_eq!(s.spawn_countdown, 0);
    assert_eq!(s.score, 0);
    assert_eq!(s.fall_speed_base, 120);
    assert_eq!(s.phase, Phase::Playing);
}

#[test]
fn first_step_spawns_an_object() {
    let mut s = SimulationState::new(W, H);
    s.advance(16_000, released());
    assert_eq!(s.objects.len(), 1);
    assert_eq!(s.spawn_countdown, 12_000_000); // reset from score 0: 1.2 s
    let o = &s.objects[0];
    assert!((10_000_000..=24_000_000).contains(&o.rect.w));
    assert_eq!(o.rect.w, o.rect.h);
    assert!(o.rect.x >= 0 && o.rect.x + o.rect.w <= W);
    assert!((120..=280).contains(&o.fall_speed));
    // Spawned just above the field, then fell for this step.
    assert_eq!(o.rect.y, -o.rect.h + o.fall_speed * 16_000);
}

#[test]
fn overlapping_object_ends_the_round() {
    // Playfield 400x600, player {185,560,30,20}; an object at {185,555,20,20}
    // with fall speed 0 overlaps the player, so one step ends the round.
    let mut s = SimulationState::new(W, H);
    s.inject_object(FallingObject {
        rect: Rect { x: 185_000_000, y: 555_000_000, w: 20_000_000, h: 20_000_000 },
        fall_speed: 0,
    });
    s.advance(16_000, released());
    assert_eq!(s.phase, Phase::GameOver);
    // The score and difficulty still update on the transitioning frame.
    assert_eq!(s.score, 16_000);
}

#[test]
fn move_right_from_the_left_edge() {
    // Hold left until the player clamps at x = 0, then one 0.1 s step right
    // moves exactly 22 px.
    let mut s = SimulationState::new(W, H);
    for _ in 0..9 {
        s.advance(100_000, left());
        assert!(s.player_box.x >= 0);
    }
    assert_eq!(s.phase, Phase::Playing);
    assert_eq!(s.player_box.x, 0);
    s.advance(100_000, right());
    assert_eq!(s.player_box.x, 22_000_000);
}

#[test]
fn player_clamps_at_the_right_edge() {
    let mut s = SimulationState::new(W, H);
    for _ in 0..12 {
        s.advance(100_000, right());
        assert!(s.player_box.x <= W - s.player_box.w);
    }
    assert_eq!(s.player_box.x, W - 30_000_000);
}

#[test]
fn both_keys_held_cancel_out() {
    let mut s = SimulationState::new(W, H);
    let both = InputState { move_left: true, move_right: true };
    s.advance(100_000, both);
    assert_eq!(s.player_box.x, 185_000_000);
}

#[test]
fn score_accrues_and_difficulty_follows() {
    let mut s = SimulationState::new(W, H);
    s.advance(16_000, released());
    assert_eq!(s.score, 16_000); // 1.6 points
    assert_eq!(s.fall_speed_base, 120); // 120 + floor(0.96)
    s.advance(16_000, released());
    assert_eq!(s.score, 32_000); // 3.2 points
    assert_eq!(s.fall_speed_base, 121); // 120 + floor(1.92)
}

#[test]
fn object_reaching_the_margin_is_pruned() {
    // height + 60 px = 660 px. An object at 650 px falling 100 px/s crosses
    // the line in a 0.1 s step and is removed by that step.
    let mut s = SimulationState::new(W, H);
    s.inject_object(FallingObject {
        rect: Rect { x: 0, y: 650_000_000, w: 10_000_000, h: 10_000_000 },
        fall_speed: 100,
    });
    s.advance(100_000, released());
    assert_eq!(s.phase, Phase::Playing);
    // Only the object spawned this step remains; the injected one is gone.
    assert_eq!(s.objects.len(), 1);
    for o in s.objects.iter() {
        assert!(o.rect.y < H + 60_000_000);
    }
}

#[test]
fn game_over_freezes_everything_until_reset() {
    let mut s = SimulationState::new(W, H);
    s.inject_object(FallingObject {
        rect: Rect { x: 185_000_000, y: 555_000_000, w: 20_000_000, h: 20_000_000 },
        fall_speed: 0,
    });
    s.advance(16_000, released());
    assert_eq!(s.phase, Phase::GameOver);
    let frozen = s.clone();
    s.advance(100_000, right());
    s.advance(33_000, left());
    s.advance(16_000, InputState { move_left: true, move_right: true });
    assert_eq!(s, frozen);
}

#[test]
fn reset_restores_the_construction_baseline() {
    let mut s = SimulationState::new(W, H);
    for _ in 0..5 {
        s.advance(33_000, released());
    }
    s.inject_object(FallingObject {
        rect: Rect { x: 185_000_000, y: 555_000_000, w: 20_000_000, h: 20_000_000 },
        fall_speed: 0,
    });
    s.advance(16_000, released());
    assert_eq!(s.phase, Phase::GameOver);

    s.reset();
    let fresh = SimulationState::new(W, H);
    assert_eq!(s.player_box, fresh.player_box);
    assert!(s.objects.is_empty());
    assert_eq!(s.spawn_countdown, fresh.spawn_countdown);
    assert_eq!(s.score, fresh.score);
    assert_eq!(s.fall_speed_base, fresh.fall_speed_base);
    assert_eq!(s.phase, Phase::Playing);
    assert_eq!(s.width, fresh.width);
    assert_eq!(s.height, fresh.height);
}

#[test]
fn spawns_follow_the_countdown() {
    let mut s = SimulationState::new(W, H);
    // First step spawns (countdown starts elapsed) and resets to 1.2 s.
    s.advance(100_000, released());
    assert_eq!(s.objects.len(), 1);
    // 1.2 s / 0.1 s = 12 more steps until the countdown reaches zero again.
    for _ in 0..11 {
        s.advance(100_000, released());
        assert_eq!(s.objects.len(), 1);
    }
    s.advance(100_000, released());
    assert_eq!(s.objects.len(), 2);
}
