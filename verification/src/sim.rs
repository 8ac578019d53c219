//! The authoritative game state and the deterministic `advance` step.
//!
//! One step runs, in this order: early return when the round is over; player
//! movement and clamping; the spawn scheduler; object fall; collision
//! detection; pruning of off-screen objects; score and difficulty update
//! (unconditionally, including the frame that transitions to game over).

use crate::difficulty::{
    fall_speed_base, fall_speed_base_of, lemma_fall_speed_base_bounds, spawn_interval_of,
    spawn_interval_ticks, INTERVAL_START_TICKS, SCORE_CAP,
};
use crate::geometry::{rect_intersects, Rect};
use crate::input::InputState;
use crate::rng::{sample_in, xorshift_next, xorshift_out, RandomSource, DEFAULT_SEED};
use vstd::prelude::*;

verus! {

/// Micro-pixels per logical pixel.
pub const PX: i64 = 1_000_000;

/// Player paddle width: 30 px.
pub const PLAYER_W: i64 = 30_000_000;

/// Player paddle height: 20 px.
pub const PLAYER_H: i64 = 20_000_000;

/// The paddle's top edge sits 40 px above the bottom of the playfield.
pub const PLAYER_Y_GAP: i64 = 40_000_000;

/// Horizontal paddle speed: 220 px/s, i.e. 220 micro-pixels per microsecond.
pub const MOVE_SPEED: i64 = 220;

/// Largest accepted playfield extent: 10^6 logical pixels.
pub const MAX_DIM: i64 = 1_000_000_000_000;

/// Largest accepted step length: 100 s (far above the frame clamp).
pub const MAX_DT_US: u64 = 100_000_000;

/// Objects whose top edge falls this far (60 px) below the playfield are pruned.
pub const PRUNE_MARGIN: i64 = 60_000_000;

/// Smallest spawned object edge: 10 px.
pub const OBJ_MIN_SIZE: i64 = 10_000_000;

/// Largest spawned object edge: 24 px.
pub const OBJ_MAX_SIZE: i64 = 24_000_000;

/// A spawned fall speed lies within this many px/s above the base.
pub const FALL_SPEED_SPREAD: i64 = 160;

/// Largest possible object fall speed: the base at the score cap plus the spread.
pub const MAX_FALL_SPEED: i64 = 60_000_000_280;

/// The spawn countdown is held in ticks of 0.1 µs: 10 ticks per microsecond.
pub const TICKS_PER_US: i64 = 10;

/// One falling object: its box and its vertical speed in px/s.
#[derive(Clone, Copy, PartialEq, Eq, Structural, Debug)]
pub struct FallingObject {
    pub rect: Rect,
    pub fall_speed: i64,
}

/// The coarse session state.
#[derive(Clone, Copy, PartialEq, Eq, Structural, Debug)]
pub enum Phase {
    Playing,
    GameOver,
}

/// The authoritative game state. All fields are plain fixed-point values;
/// `wf()` is the documented invariant, established by `new` and preserved by
/// every method.
#[derive(Clone, Debug, PartialEq)]
pub struct SimulationState {
    /// Playfield width in micro-pixels; immutable for the session.
    pub width: i64,
    /// Playfield height in micro-pixels; immutable for the session.
    pub height: i64,
    /// The player's paddle.
    pub player_box: Rect,
    /// Active falling objects, in insertion order.
    pub objects: Vec<FallingObject>,
    /// Ticks of 0.1 µs until the next spawn.
    pub spawn_countdown: i64,
    /// Score in units of 10^-4 points (one unit per microsecond of play).
    pub score: u64,
    /// Current fall-speed base in px/s; always `fall_speed_base_of(score)`.
    pub fall_speed_base: i64,
    /// Playing or GameOver.
    pub phase: Phase,
    /// The session's deterministic random source.
    pub rng: RandomSource,
}

/// Well-formedness of one active object with respect to the playfield.
pub open spec fn obj_wf(o: FallingObject, width: int, height: int) -> bool {
    &&& 0 < o.rect.w
    &&& 0 <= o.rect.x
    &&& o.rect.x + o.rect.w <= width
    &&& 0 < o.rect.h <= OBJ_MAX_SIZE
    &&& -(OBJ_MAX_SIZE as int) <= o.rect.y < height + PRUNE_MARGIN
    &&& 0 <= o.fall_speed <= MAX_FALL_SPEED
}

/// Clamp `v` into `[lo, hi]`.
pub open spec fn clamp_i(v: int, lo: int, hi: int) -> int {
    if v < lo {
        lo
    } else if v > hi {
        hi
    } else {
        v
    }
}

/// Horizontal movement: each held key contributes 220 px/s for `dt`, then the
/// result is clamped into `[0, width - p.w]`. Both keys held cancel out.
pub open spec fn moved_player_x(p: Rect, width: int, dt: int, inp: InputState) -> int {
    let dl: int = if inp.move_left {
        (MOVE_SPEED as int) * dt
    } else {
        0
    };
    let dr: int = if inp.move_right {
        (MOVE_SPEED as int) * dt
    } else {
        0
    };
    clamp_i(p.x + dr - dl, 0, width - p.w)
}

/// The player's box after movement: only `x` changes.
pub open spec fn moved_player(p: Rect, width: int, dt: int, inp: InputState) -> Rect {
    Rect { x: moved_player_x(p, width, dt, inp) as i64, y: p.y, w: p.w, h: p.h }
}

/// The scheduler spawns when the countdown, decremented by `dt`, reaches zero.
pub open spec fn spawn_due(countdown: int, dt: int) -> bool {
    countdown - dt * (TICKS_PER_US as int) <= 0
}

/// Edge length of the object spawned from rng state `s` (first draw).
pub open spec fn spawned_size(s: u64) -> int {
    sample_in(OBJ_MIN_SIZE as int, OBJ_MAX_SIZE as int, xorshift_out(s) as int)
}

/// Horizontal position of the object spawned from rng state `s` (second draw),
/// uniform over `[0, width - size]`.
pub open spec fn spawned_x(s: u64, width: int) -> int {
    sample_in(0, width - spawned_size(s), xorshift_out(xorshift_next(s)) as int)
}

/// Fall speed of the object spawned from rng state `s` (third draw), uniform
/// over `[base, base + FALL_SPEED_SPREAD]`.
pub open spec fn spawned_fall_speed(s: u64, base: int) -> int {
    sample_in(base, base + FALL_SPEED_SPREAD, xorshift_out(xorshift_next(xorshift_next(s))) as int)
}

/// The object spawned from rng state `s`: a square of the drawn size, placed
/// just above the visible playfield at the drawn position and speed.
pub open spec fn spawned_object(s: u64, width: int, base: int) -> FallingObject {
    FallingObject {
        rect: Rect {
            x: spawned_x(s, width) as i64,
            y: (-spawned_size(s)) as i64,
            w: spawned_size(s) as i64,
            h: spawned_size(s) as i64,
        },
        fall_speed: spawned_fall_speed(s, base) as i64,
    }
}

/// One object after falling for `dt` microseconds.
pub open spec fn fall_one(o: FallingObject, dt: int) -> FallingObject {
    FallingObject {
        rect: Rect {
            x: o.rect.x,
            y: (o.rect.y + o.fall_speed * dt) as i64,
            w: o.rect.w,
            h: o.rect.h,
        },
        fall_speed: o.fall_speed,
    }
}

/// All objects after falling for `dt` microseconds.
pub open spec fn fallen(objs: Seq<FallingObject>, dt: int) -> Seq<FallingObject> {
    Seq::new(objs.len(), |i: int| fall_one(objs[i], dt))
}

/// The objects that survive pruning: those whose top edge is still above
/// `height + 60 px`, in their original order.
pub open spec fn pruned(objs: Seq<FallingObject>, height: int) -> Seq<FallingObject>
    decreases objs.len(),
{
    if objs.len() == 0 {
        Seq::empty()
    } else {
        let rest = pruned(objs.drop_last(), height);
        if objs.last().rect.y < height + PRUNE_MARGIN {
            rest.push(objs.last())
        } else {
            rest
        }
    }
}

/// Whether any object overlaps the player's box.
pub open spec fn any_hit(objs: Seq<FallingObject>, player: Rect) -> bool {
    exists|i: int| 0 <= i < objs.len() && rect_intersects(objs[i].rect, player)
}

/// The score after one step: `dt` units are added, saturating at the cap.
pub open spec fn score_after(score: int, dt: int) -> int {
    if score + dt > SCORE_CAP as int {
        SCORE_CAP as int
    } else {
        score + dt
    }
}

/// No field of the state differs between `pre` and `post`.
pub open spec fn frozen(pre: SimulationState, post: SimulationState) -> bool {
    &&& post.width == pre.width
    &&& post.height == pre.height
    &&& post.player_box == pre.player_box
    &&& post.objects@ == pre.objects@
    &&& post.spawn_countdown == pre.spawn_countdown
    &&& post.score == pre.score
    &&& post.fall_speed_base == pre.fall_speed_base
    &&& post.phase == pre.phase
    &&& post.rng == pre.rng
}

/// Full functional description of one `advance(dt, input)` step.
///
/// When the round is already over nothing changes. Otherwise the player moves
/// and is clamped; the scheduler may spawn one object (drawing size, position
/// and speed from the rng, and resetting the countdown from the score at
/// frame start); every object, the new one included, falls `fall_speed * dt`;
/// the phase becomes GameOver iff any fallen object overlaps the moved
/// player; objects at or below `height + 60 px` are pruned; and the score and
/// fall-speed base are updated unconditionally, including on the frame that
/// transitions to GameOver.
pub open spec fn advance_rel(
    pre: SimulationState,
    post: SimulationState,
    dt: int,
    inp: InputState,
) -> bool {
    if pre.phase == Phase::GameOver {
        frozen(pre, post)
    } else {
        let p2 = moved_player(pre.player_box, pre.width as int, dt, inp);
        let due = spawn_due(pre.spawn_countdown as int, dt);
        let objs0 = if due {
            pre.objects@.push(
                spawned_object(pre.rng.state, pre.width as int, pre.fall_speed_base as int),
            )
        } else {
            pre.objects@
        };
        let objs1 = fallen(objs0, dt);
        &&& post.width == pre.width
        &&& post.height == pre.height
        &&& post.player_box == p2
        &&& post.rng.state == if due {
            xorshift_next(xorshift_next(xorshift_next(pre.rng.state)))
        } else {
            pre.rng.state
        }
        &&& post.spawn_countdown as int == if due {
            spawn_interval_of(pre.score as int)
        } else {
            pre.spawn_countdown - dt * (TICKS_PER_US as int)
        }
        &&& post.objects@ == pruned(objs1, pre.height as int)
        &&& post.phase == if any_hit(objs1, p2) {
            Phase::GameOver
        } else {
            Phase::Playing
        }
        &&& post.score as int == score_after(pre.score as int, dt)
        &&& post.fall_speed_base as int == fall_speed_base_of(post.score as int)
    }
}

/// Every surviving object of `pruned(objs, height)` occurs in `objs` and lies
/// above the pruning line.
pub proof fn lemma_pruned_elements(objs: Seq<FallingObject>, height: int)
    ensures
        forall|k: int|
            0 <= k < pruned(objs, height).len() ==> {
                &&& (#[trigger] pruned(objs, height)[k]).rect.y < height + PRUNE_MARGIN
                &&& objs.contains(pruned(objs, height)[k])
            },
    decreases objs.len(),
{
    if objs.len() > 0 {
        lemma_pruned_elements(objs.drop_last(), height);
        let rest = pruned(objs.drop_last(), height);
        let out = pruned(objs, height);
        assert forall|k: int| 0 <= k < out.len() implies {
            &&& out[k].rect.y < height + PRUNE_MARGIN
            &&& objs.contains(out[k])
        } by {
            if k < rest.len() {
                assert(out[k] == rest[k]);
                assert(objs.drop_last().contains(rest[k]));
                let w = choose|q: int|
                    0 <= q < objs.drop_last().len() && objs.drop_last()[q] == rest[k];
                assert(objs[w] == rest[k]);
                assert(objs.contains(out[k]));
            } else {
                assert(out[k] == objs.last());
                assert(objs[objs.len() - 1] == objs.last());
                assert(objs.contains(out[k]));
            }
        }
    }
}

impl SimulationState {
    /// The documented state invariant.
    pub open spec fn wf(self) -> bool {
        &&& PLAYER_W <= self.width <= MAX_DIM
        &&& 0 < self.height <= MAX_DIM
        &&& self.player_box.w == PLAYER_W
        &&& self.player_box.h == PLAYER_H
        &&& self.player_box.y == self.height - PLAYER_Y_GAP
        &&& 0 <= self.player_box.x <= self.width - PLAYER_W
        &&& 0 <= self.spawn_countdown <= INTERVAL_START_TICKS
        &&& self.score <= SCORE_CAP
        &&& self.fall_speed_base == fall_speed_base_of(self.score as int)
        &&& forall|i: int|
            0 <= i < self.objects@.len() ==> obj_wf(
                #[trigger] self.objects@[i],
                self.width as int,
                self.height as int,
            )
    }

    /// The construction-time baseline for a playfield: player centered at the
    /// bottom, no objects, countdown elapsed, zero score, base speed, Playing.
    /// The random source is deliberately not part of the baseline.
    pub open spec fn is_baseline(self, width: int, height: int) -> bool {
        &&& self.width == width
        &&& self.height == height
        &&& self.player_box.x == width / 2 - (PLAYER_W as int) / 2
        &&& self.player_box.y == height - PLAYER_Y_GAP
        &&& self.player_box.w == PLAYER_W
        &&& self.player_box.h == PLAYER_H
        &&& self.objects@.len() == 0
        &&& self.spawn_countdown == 0
        &&& self.score == 0
        &&& self.fall_speed_base == fall_speed_base_of(0)
        &&& self.phase == Phase::Playing
    }

    /// A fresh session on a playfield of the given size (micro-pixel units),
    /// with the default rng seed.
    pub fn new(width: i64, height: i64) -> (r: SimulationState)
        requires
            PLAYER_W <= width <= MAX_DIM,
            0 < height <= MAX_DIM,
        ensures
            r.wf(),
            r.is_baseline(width as int, height as int),
            r.rng.state == DEFAULT_SEED,
    {
        let cx = ((width as u64) / 2 - (PLAYER_W as u64) / 2) as i64;
        let base = fall_speed_base(0);
        SimulationState {
            width,
            height,
            player_box: Rect { x: cx, y: height - PLAYER_Y_GAP, w: PLAYER_W, h: PLAYER_H },
            objects: Vec::new(),
            spawn_countdown: 0,
            score: 0,
            fall_speed_base: base,
            phase: Phase::Playing,
            rng: RandomSource::new(),
        }
    }

    /// Reinitialize every field to the construction baseline for the same
    /// playfield. The random source keeps its state, as a process-lifetime
    /// generator would across retries.
    pub fn reset(&mut self)
        requires
            old(self).wf(),
        ensures
            final(self).wf(),
            final(self).is_baseline(old(self).width as int, old(self).height as int),
            final(self).rng == old(self).rng,
            final(self).width == old(self).width,
            final(self).height == old(self).height,
    {
        let cx = ((self.width as u64) / 2 - (PLAYER_W as u64) / 2) as i64;
        self.player_box = Rect {
            x: cx,
            y: self.height - PLAYER_Y_GAP,
            w: PLAYER_W,
            h: PLAYER_H,
        };
        self.objects = Vec::new();
        self.spawn_countdown = 0;
        self.score = 0;
        self.fall_speed_base = fall_speed_base(0);
        self.phase = Phase::Playing;
    }

    /// Append one falling object. The simulation itself adds objects only
    /// through the scheduler; this lets a caller drive the session into a
    /// specific configuration.
    pub fn inject_object(&mut self, obj: FallingObject)
        requires
            old(self).wf(),
            obj_wf(obj, old(self).width as int, old(self).height as int),
        ensures
            final(self).wf(),
            final(self).objects@ == old(self).objects@.push(obj),
            final(self).width == old(self).width,
            final(self).height == old(self).height,
            final(self).player_box == old(self).player_box,
            final(self).spawn_countdown == old(self).spawn_countdown,
            final(self).score == old(self).score,
            final(self).fall_speed_base == old(self).fall_speed_base,
            final(self).phase == old(self).phase,
            final(self).rng == old(self).rng,
    {
        self.objects.push(obj);
    }

    /// One simulation step; see `advance_rel` for the full functional contract.
    pub fn advance(&mut self, dt: u64, input: InputState)
        requires
            old(self).wf(),
            dt <= MAX_DT_US,
        ensures
            final(self).wf(),
            advance_rel(*old(self), *final(self), dt as int, input),
    {
        let ghost pre = *self;
        if self.phase == Phase::GameOver {
            return ;
        }
        let dti = dt as i64;

        // 1. Horizontal movement, then clamp into the playfield.
        let dx = MOVE_SPEED * dti;
        let mut x = self.player_box.x;
        if input.move_left {
            x = x - dx;
        }
        if input.move_right {
            x = x + dx;
        }
        let hi = self.width - self.player_box.w;
        if x < 0 {
            x = 0;
        } else if x > hi {
            x = hi;
        }
        self.player_box.x = x;
        proof {
            assert(self.player_box == moved_player(
                pre.player_box,
                pre.width as int,
                dt as int,
                input,
            ));
        }

        // 2. Spawn scheduler: decrement the countdown; on expiry, draw one
        // object and reset the countdown from the difficulty model.
        let ghost pre_rng = self.rng.state;
        let c0 = self.spawn_countdown - dti * TICKS_PER_US;
        let ghost due = spawn_due(pre.spawn_countdown as int, dt as int);
        if c0 <= 0 {
            proof {
                lemma_fall_speed_base_bounds(self.score as int);
            }
            let size = self.rng.between(OBJ_MIN_SIZE, OBJ_MAX_SIZE);
            let sx = self.rng.between(0, self.width - size);
            let vy = self.rng.between(
                self.fall_speed_base,
                self.fall_speed_base + FALL_SPEED_SPREAD,
            );
            let obj = FallingObject {
                rect: Rect { x: sx, y: -size, w: size, h: size },
                fall_speed: vy,
            };
            proof {
                assert(obj == spawned_object(
                    pre_rng,
                    pre.width as int,
                    pre.fall_speed_base as int,
                ));
                assert(obj_wf(obj, pre.width as int, pre.height as int));
            }
            self.objects.push(obj);
            self.spawn_countdown = spawn_interval_ticks(self.score);
        } else {
            self.spawn_countdown = c0;
        }
        let ghost objs0 = self.objects@;
        proof {
            assert(objs0 == if due {
                pre.objects@.push(
                    spawned_object(pre.rng.state, pre.width as int, pre.fall_speed_base as int),
                )
            } else {
                pre.objects@
            });
            assert(forall|j: int|
                0 <= j < objs0.len() ==> obj_wf(
                    #[trigger] objs0[j],
                    pre.width as int,
                    pre.height as int,
                ));
        }

        // 3-5. In one pass over the objects: fall, collision check against
        // the moved player, and pruning of objects at or below the off-screen
        // line.
        let ghost objs1 = fallen(objs0, dt as int);
        let limit = self.height + PRUNE_MARGIN;
        let n = self.objects.len();
        let mut kept: Vec<FallingObject> = Vec::new();
        let mut hit = false;
        let mut i: usize = 0;
        while i < n
            invariant
                i <= n,
                n == self.objects@.len(),
                n == objs0.len(),
                self.objects@ == objs0,
                objs1 == fallen(objs0, dt as int),
                0 <= dti <= 100_000_000,
                dti == dt as int,
                self.width == pre.width,
                self.height == pre.height,
                pre.wf(),
                limit == pre.height + PRUNE_MARGIN,
                self.player_box == moved_player(pre.player_box, pre.width as int, dt as int, input),
                forall|j: int|
                    0 <= j < objs0.len() ==> obj_wf(
                        #[trigger] objs0[j],
                        pre.width as int,
                        pre.height as int,
                    ),
                hit == exists|j: int|
                    0 <= j < i && rect_intersects((#[trigger] objs1[j]).rect, self.player_box),
                kept@ == pruned(objs1.take(i as int), pre.height as int),
            decreases n - i,
        {
            let mut o = self.objects[i];
            proof {
                assert(obj_wf(objs0[i as int], pre.width as int, pre.height as int));
                assert(0 <= (o.fall_speed as int) * (dti as int) <= 60_000_000_280
                    * 100_000_000) by (nonlinear_arith)
                    requires
                        0 <= o.fall_speed <= 60_000_000_280,
                        0 <= dti <= 100_000_000,
                ;
            }
            let dy = o.fall_speed * dti;
            o.rect.y = o.rect.y + dy;
            proof {
                assert(o == objs1[i as int]);
            }
            if o.rect.intersects(&self.player_box) {
                hit = true;
                proof {
                    assert(rect_intersects(objs1[i as int].rect, self.player_box));
                }
            }
            if o.rect.y < limit {
                kept.push(o);
            }
            proof {
                assert(objs1.take(i as int + 1).drop_last() =~= objs1.take(i as int));
                assert(objs1.take(i as int + 1).last() == objs1[i as int]);
            }
            i = i + 1;
        }
        proof {
            assert(objs1.take(n as int) =~= objs1);
            let p2 = moved_player(pre.player_box, pre.width as int, dt as int, input);
            assert(hit == any_hit(objs1, p2));
        }
        self.objects = kept;
        if hit {
            self.phase = Phase::GameOver;
        }

        // 6. Score and difficulty update, unconditionally.
        let ns = if self.score + dt > SCORE_CAP {
            SCORE_CAP
        } else {
            self.score + dt
        };
        self.score = ns;
        self.fall_speed_base = fall_speed_base(self.score);

        proof {
            lemma_pruned_elements(objs1, pre.height as int);
            assert forall|j: int| 0 <= j < self.objects@.len() implies obj_wf(
                #[trigger] self.objects@[j],
                self.width as int,
                self.height as int,
            ) by {
                let o = self.objects@[j];
                assert(objs1.contains(o));
                let w = choose|q: int| 0 <= q < objs1.len() && objs1[q] == o;
                assert(obj_wf(objs0[w], pre.width as int, pre.height as int));
                assert(0 <= (objs0[w].fall_speed as int) * (dt as int) <= 60_000_000_280
                    * 100_000_000) by (nonlinear_arith)
                    requires
                        0 <= objs0[w].fall_speed <= 60_000_000_280,
                        0 <= dt <= 100_000_000,
                ;
            }
        }
    }
}

/// Clamp law: a step from a well-formed state leaves the player's `x` within
/// `[0, width - player width]`; by induction this holds over any sequence of
/// steps.
pub proof fn lemma_player_stays_clamped(
    pre: SimulationState,
    post: SimulationState,
    dt: int,
    inp: InputState,
)
    requires
        pre.wf(),
        0 <= dt,
        advance_rel(pre, post, dt, inp),
    ensures
        0 <= post.player_box.x <= post.width - PLAYER_W,
{
}

/// Irreversibility law: once the phase is GameOver, a step with any input
/// changes nothing — player, objects, score and phase all stay as they are,
/// until an explicit reset.
pub proof fn lemma_game_over_irreversible(
    pre: SimulationState,
    post: SimulationState,
    dt: int,
    inp: InputState,
)
    requires
        advance_rel(pre, post, dt, inp),
        pre.phase == Phase::GameOver,
    ensures
        frozen(pre, post),
        post.phase == Phase::GameOver,
{
}

/// Pruning law: after a step from a well-formed state, no remaining object's
/// top edge lies at or below `height + 60 px`.
pub proof fn lemma_objects_pruned(
    pre: SimulationState,
    post: SimulationState,
    dt: int,
    inp: InputState,
)
    requires
        pre.wf(),
        advance_rel(pre, post, dt, inp),
    ensures
        forall|i: int|
            0 <= i < post.objects@.len() ==> (#[trigger] post.objects@[i]).rect.y < post.height
                + PRUNE_MARGIN,
{
    if pre.phase == Phase::GameOver {
    } else {
        let due = spawn_due(pre.spawn_countdown as int, dt);
        let objs0 = if due {
            pre.objects@.push(
                spawned_object(pre.rng.state, pre.width as int, pre.fall_speed_base as int),
            )
        } else {
            pre.objects@
        };
        let objs1 = fallen(objs0, dt);
        lemma_pruned_elements(objs1, pre.height as int);
    }
}

/// Score law: across any step the score never decreases — it accrues with
/// play time while the round runs and is frozen once it is over.
pub proof fn lemma_score_monotone(
    pre: SimulationState,
    post: SimulationState,
    dt: int,
    inp: InputState,
)
    requires
        0 <= dt,
        pre.score <= SCORE_CAP,
        advance_rel(pre, post, dt, inp),
    ensures
        post.score >= pre.score,
{
}

/// Reset law: two states at the baseline of the same playfield agree on every
/// baseline field, so a reset session equals a freshly constructed one there.
pub proof fn lemma_baseline_unique(
    a: SimulationState,
    b: SimulationState,
    width: int,
    height: int,
)
    requires
        a.is_baseline(width, height),
        b.is_baseline(width, height),
    ensures
        a.player_box == b.player_box,
        a.objects@ =~= b.objects@,
        a.spawn_countdown == b.spawn_countdown,
        a.score == b.score,
        a.fall_speed_base == b.fall_speed_base,
        a.phase == b.phase,
{
}

} // verus!
