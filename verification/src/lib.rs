//! Core of a meteor-dodging arcade simulation: a player-controlled paddle at the
//! bottom of a fixed playfield dodges falling objects that spawn faster and fall
//! quicker as a time-based score accrues.
//!
//! Everything here is deterministic and exact. Quantities are fixed-point
//! integers rather than floats:
//!
//! - positions and sizes: micro-pixels (`1_000_000` per logical pixel), `i64`;
//! - time: microseconds, `u64`;
//! - spawn countdown: ticks of 0.1 µs (so the interval formula is exact), `i64`;
//! - score: units of 10^-4 points, `u64` — the score rate of 100 points per
//!   second makes the score in these units equal the accumulated playing time
//!   in microseconds;
//! - speeds: logical pixels per second, `i64`, which numerically equals
//!   micro-pixels per microsecond, so position updates are exact products.
//!
//! Platform concerns (canvas, keyboard, frame scheduling) live outside this
//! crate; the simulation consumes plain values and returns plain values.

pub mod controller;
pub mod difficulty;
pub mod geometry;
pub mod input;
pub mod rng;
pub mod sim;

pub use controller::GameController;
pub use difficulty::{fall_speed_base, spawn_interval_ticks};
pub use geometry::Rect;
pub use input::InputState;
pub use rng::RandomSource;
pub use sim::{FallingObject, Phase, SimulationState};
