//! A paddle: moves vertically only, within the view port.
use vstd::prelude::*;

use crate::geometry::{rect_at, Rect};
use crate::state::{Controls, GameState};

verus! {

/// How far a paddle moves in one tick.
pub const PLAYER_VELOCITY: i32 = 25;

pub const PLAYER_WIDTH: u32 = 20;

pub const PLAYER_HEIGHT: u32 = 150;

pub struct Player {
    size: (u32, u32),
    position: (i32, i32),
    controls: Controls,
}

/// What a paddle is: its extent, its top-left corner and its inputs.
pub struct PlayerView {
    pub size: (u32, u32),
    pub position: (i32, i32),
    pub controls: Controls,
}

impl View for Player {
    type V = PlayerView;

    closed spec fn view(&self) -> PlayerView {
        PlayerView { size: self.size, position: self.position, controls: self.controls }
    }
}

/// The top edge after one update, from the top edge `y` before it, the lowest
/// top edge `limit` that keeps the paddle in view, and the held inputs. The
/// up input is handled first, and both tests read the top edge from before
/// the update.
pub open spec fn paddle_top_after(y: int, limit: int, up: bool, down: bool) -> int {
    let after_up = if up {
        if y - PLAYER_VELOCITY > 0 {
            y - PLAYER_VELOCITY
        } else {
            0
        }
    } else {
        y
    };
    if down {
        if y + PLAYER_VELOCITY < limit {
            after_up + PLAYER_VELOCITY
        } else {
            limit
        }
    } else {
        after_up
    }
}

/// A paddle that starts inside the view port stays inside it, whatever
/// inputs are held.
pub proof fn lemma_paddle_stays_in_view(y: int, height: int, view_height: int, up: bool, down: bool)
    requires
        0 <= height <= view_height,
        0 <= y,
        y + height <= view_height,
    ensures
        0 <= paddle_top_after(y, view_height - height, up, down),
        paddle_top_after(y, view_height - height, up, down) + height <= view_height,
{
}

/// The top edge after `n` ticks with only the up input held.
pub open spec fn top_after_up_ticks(y: int, limit: int, n: nat) -> int
    decreases n,
{
    if n == 0 {
        y
    } else {
        paddle_top_after(top_after_up_ticks(y, limit, (n - 1) as nat), limit, true, false)
    }
}

/// Holding up moves a paddle from a top edge `y >= 0` up by
/// `PLAYER_VELOCITY` each tick until it stops at the top of the view port:
/// after `n` ticks its top edge is `max(y - n * PLAYER_VELOCITY, 0)`, never
/// negative.
pub proof fn lemma_up_ticks(y: int, limit: int, n: nat)
    requires
        0 <= y,
    ensures
        top_after_up_ticks(y, limit, n) == if y - n * PLAYER_VELOCITY > 0 {
            y - n * PLAYER_VELOCITY
        } else {
            0
        },
    decreases n,
{
    if n > 0 {
        lemma_up_ticks(y, limit, (n - 1) as nat);
        assert(n * PLAYER_VELOCITY == (n - 1) * PLAYER_VELOCITY + PLAYER_VELOCITY) by (nonlinear_arith);
    }
}

impl Player {
    pub fn new(controls: Controls) -> (r: Player)
        ensures
            r@.size == (PLAYER_WIDTH, PLAYER_HEIGHT),
            r@.position == (0i32, 0i32),
            r@.controls == controls,
    {
        Player { size: (PLAYER_WIDTH, PLAYER_HEIGHT), position: (0, 0), controls }
    }

    /// Places the paddle's top-left corner at `pos`.
    pub fn set_position(&mut self, pos: (i32, i32))
        ensures
            final(self)@.position == pos,
            final(self)@.size == old(self)@.size,
            final(self)@.controls == old(self)@.controls,
    {
        self.position = pos;
    }

    /// Places the paddle so that its center is at `pos`.
    pub fn set_center(&mut self, pos: (i32, i32))
        requires
            i32::MIN <= pos.0 - old(self)@.size.0 / 2,
            i32::MIN <= pos.1 - old(self)@.size.1 / 2,
        ensures
            final(self)@.position.0 == pos.0 - old(self)@.size.0 / 2,
            final(self)@.position.1 == pos.1 - old(self)@.size.1 / 2,
            final(self)@.size == old(self)@.size,
            final(self)@.controls == old(self)@.controls,
    {
        let x = pos.0 as i64 - (self.size.0 / 2) as i64;
        let y = pos.1 as i64 - (self.size.1 / 2) as i64;
        self.position = (x as i32, y as i32);
    }

    /// Moves the paddle by `delta`.
    pub fn move_by(&mut self, delta: (i32, i32))
        requires
            i32::MIN <= old(self)@.position.0 + delta.0 <= i32::MAX,
            i32::MIN <= old(self)@.position.1 + delta.1 <= i32::MAX,
        ensures
            final(self)@.position.0 == old(self)@.position.0 + delta.0,
            final(self)@.position.1 == old(self)@.position.1 + delta.1,
            final(self)@.size == old(self)@.size,
            final(self)@.controls == old(self)@.controls,
    {
        self.position = (self.position.0 + delta.0, self.position.1 + delta.1);
    }

    /// Moves the paddle by one step for each held input of its controls,
    /// keeping it inside the view port (see `paddle_top_after`). The state is
    /// read only.
    pub fn update(&mut self, game_state: &mut GameState)
        requires
            old(game_state).view_port.1 <= i32::MAX,
            old(self)@.size.1 <= i32::MAX,
        ensures
            *final(game_state) == *old(game_state),
            final(self)@.size == old(self)@.size,
            final(self)@.controls == old(self)@.controls,
            final(self)@.position.0 == old(self)@.position.0,
            final(self)@.position.1 == paddle_top_after(
                old(self)@.position.1 as int,
                old(game_state).view_port.1 - old(self)@.size.1,
                old(game_state).pressed(old(self)@.controls.up),
                old(game_state).pressed(old(self)@.controls.down),
            ),
            old(self)@.size.1 <= old(game_state).view_port.1 && 0 <= old(self)@.position.1
                && old(self)@.position.1 + old(self)@.size.1 <= old(game_state).view_port.1 ==> {
                &&& 0 <= final(self)@.position.1
                &&& final(self)@.position.1 + final(self)@.size.1 <= final(game_state).view_port.1
            },
    {
        let x = self.position.0;
        let y = self.position.1 as i64;
        let limit: i64 = game_state.view_port.1 as i64 - self.size.1 as i64;
        if game_state.is_pressed(self.controls.up) {
            if y - PLAYER_VELOCITY as i64 > 0 {
                self.move_by((0, -PLAYER_VELOCITY));
            } else {
                self.set_position((x, 0));
            }
        }
        if game_state.is_pressed(self.controls.down) {
            if y + (PLAYER_VELOCITY as i64) < limit {
                self.move_by((0, PLAYER_VELOCITY));
            } else {
                self.set_position((x, limit as i32));
            }
        }
        proof {
            if old(self)@.size.1 <= old(game_state).view_port.1 && 0 <= old(self)@.position.1
                && old(self)@.position.1 + old(self)@.size.1 <= old(game_state).view_port.1 {
                lemma_paddle_stays_in_view(
                    old(self)@.position.1 as int,
                    old(self)@.size.1 as int,
                    old(game_state).view_port.1 as int,
                    old(game_state).pressed(old(self)@.controls.up),
                    old(game_state).pressed(old(self)@.controls.down),
                );
            }
        }
    }

    pub fn size(&self) -> (r: (u32, u32))
        ensures
            r == self@.size,
    {
        self.size
    }

    pub fn position(&self) -> (r: (i32, i32))
        ensures
            r == self@.position,
    {
        self.position
    }

    /// The paddle's bounding rectangle.
    pub fn as_rect(&self) -> (r: Rect)
        ensures
            r == rect_at(self@.size, self@.position),
    {
        Rect::new(self.position.0, self.position.1, self.size.0, self.size.1)
    }
}

} // verus!
