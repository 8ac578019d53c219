//! Currently-held directional keys.

use vstd::prelude::*;

verus! {

/// The directional keys held at the moment a step runs. Written by the
/// platform's input collaborator, read-only during a step; last write wins.
/// Both keys held at once is legal and yields no net movement.
#[derive(Clone, Copy, PartialEq, Eq, Structural, Debug)]
pub struct InputState {
    pub move_left: bool,
    pub move_right: bool,
}

impl InputState {
    /// No key held.
    pub fn released() -> (r: InputState)
        ensures
            !r.move_left,
            !r.move_right,
    {
        InputState { move_left: false, move_right: false }
    }
}

} // verus!
