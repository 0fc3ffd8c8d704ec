//! The state shared by the entities during a tick.
use vstd::prelude::*;

use std::collections::HashSet;

use crate::geometry::Rect;

verus! {

broadcast use vstd::std_specs::hash::group_hash_axioms;

/// The pair of inputs that move a paddle.
#[derive(Clone, Copy, Debug, PartialEq, Eq, Structural)]
pub struct Controls {
    pub up: u32,
    pub down: u32,
}

/// The per-round state of a match. The tick driver owns it and hands it to
/// each entity's update by exclusive reference.
pub struct GameState {
    /// Width and height of the playable area, origin at the top left.
    pub view_port: (u32, u32),
    /// The inputs held during this tick.
    pub keyboard_state: HashSet<u32>,
    /// Whether a rally is live; false while the ball waits for a serve.
    pub playing: bool,
    /// The paddles' rectangles, player one's first.
    pub player_rects: Vec<Rect>,
    /// Points of player one and of player two.
    pub player_scores: (usize, usize),
}

impl GameState {
    /// The view port's extents fit in the `i32` coordinates of the entities.
    pub open spec fn fits(&self) -> bool {
        self.view_port.0 <= i32::MAX && self.view_port.1 <= i32::MAX
    }

    pub open spec fn pressed(&self, key: u32) -> bool {
        self.keyboard_state@.contains(key)
    }

    /// Whether `key` is held during this tick.
    pub fn is_pressed(&self, key: u32) -> (r: bool)
        ensures
            r == self.pressed(key),
    {
        self.keyboard_state.contains(&key)
    }
}

} // verus!
