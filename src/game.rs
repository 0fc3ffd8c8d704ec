//! The tick driver: one fixed logical frame of a match.
//!
//! Each tick stores the held inputs and the paddles' rectangles, holds the
//! ball at rest in the center while the round waits (serving it when the
//! serve input is held), then updates both paddles and the ball. The ball
//! meets the paddles where they stood before this tick's paddle moves.
use std::collections::HashSet;

use vstd::prelude::*;

use crate::ball::{
    can_step, first_hit, moved, moved_rect, reaches_left, reaches_right, step_velocity, Ball,
    BallView,
};
use crate::deflection::BALL_VELOCITY;
use crate::geometry::{rect_at, Rect};
use crate::player::{paddle_top_after, Player};
use crate::state::{Controls, GameState};

verus! {

broadcast use vstd::std_specs::hash::group_hash_axioms;

/// The view port width at which the paddles stand at `PLAYER_X`; wider view
/// ports scale that distance by whole multiples.
pub const DEFAULT_VIEW_WIDTH: u32 = 800;

/// Distance of a paddle's center from its side of the view port.
pub const PLAYER_X: i32 = 100;

pub struct Game {
    pub state: GameState,
    pub player1: Player,
    pub player2: Player,
    pub ball: Ball,
    /// The input that serves the ball while the round waits.
    pub serve_key: u32,
}

/// The top-left corner that centers an extent `size` in the view port.
pub open spec fn centered(size: (u32, u32), view_port: (u32, u32)) -> (int, int) {
    (view_port.0 / 2 - size.0 / 2, view_port.1 / 2 - size.1 / 2)
}

/// The horizontal centers of the two paddles in a view port `view_width` wide.
pub open spec fn paddle_centers_x(view_width: u32) -> (int, int) {
    let offset = PLAYER_X * (view_width / DEFAULT_VIEW_WIDTH);
    (offset, view_width - offset)
}

impl Game {
    /// The paddles' rectangles, player one's first.
    pub open spec fn paddle_rects(&self) -> Seq<Rect> {
        seq![
            rect_at(self.player1@.size, self.player1@.position),
            rect_at(self.player2@.size, self.player2@.position),
        ]
    }

    /// Whether a tick with the inputs `pressed` serves the ball.
    pub open spec fn serves(&self, pressed: Set<u32>) -> bool {
        !self.state.playing && pressed.contains(self.serve_key)
    }

    /// The ball as a tick with the inputs `pressed` hands it to its update:
    /// while the round waits, at rest in the center, or served from there.
    pub open spec fn ball_in_play(&self, pressed: Set<u32>) -> BallView {
        if self.state.playing {
            self.ball@
        } else {
            let c = centered(self.ball@.size, self.state.view_port);
            BallView {
                size: self.ball@.size,
                position: (c.0 as i32, c.1 as i32),
                velocity: if pressed.contains(self.serve_key) {
                    ((-BALL_VELOCITY) as i32, 0i32)
                } else {
                    (0i32, 0i32)
                },
            }
        }
    }

    /// A match in a view port of extent `view_port`: the paddles centered
    /// vertically near their sides, the ball at rest, no points, waiting
    /// for a serve.
    pub fn new(view_port: (u32, u32), controls1: Controls, controls2: Controls, serve_key: u32) -> (r:
        Game)
        requires
            view_port.0 <= i32::MAX,
            view_port.1 <= i32::MAX,
        ensures
            r.state.view_port == view_port,
            r.state.keyboard_state@ == Set::<u32>::empty(),
            !r.state.playing,
            r.state.player_rects@ == Seq::<Rect>::empty(),
            r.state.player_scores == (0usize, 0usize),
            r.serve_key == serve_key,
            r.player1@.controls == controls1,
            r.player2@.controls == controls2,
            r.player1@.size == r.player2@.size,
            r.player1@.size == (crate::player::PLAYER_WIDTH, crate::player::PLAYER_HEIGHT),
            r.player1@.position.0 == paddle_centers_x(view_port.0).0 - r.player1@.size.0 / 2,
            r.player2@.position.0 == paddle_centers_x(view_port.0).1 - r.player2@.size.0 / 2,
            r.player1@.position.1 == view_port.1 / 2 - r.player1@.size.1 / 2,
            r.player2@.position.1 == view_port.1 / 2 - r.player2@.size.1 / 2,
            r.ball@.size == (crate::ball::BALL_WIDTH, crate::ball::BALL_HEIGHT),
            r.ball@.position == (0i32, 0i32),
            r.ball@.velocity == (0i32, 0i32),
    {
        let mid_y = (view_port.1 / 2) as i32;
        let scale = view_port.0 / DEFAULT_VIEW_WIDTH;
        let x1: i32 = PLAYER_X * scale as i32;
        let x2: i32 = view_port.0 as i32 - x1;
        let mut player1 = Player::new(controls1);
        let mut player2 = Player::new(controls2);
        player1.set_center((x1, mid_y));
        player2.set_center((x2, mid_y));
        let state = GameState {
            view_port,
            keyboard_state: HashSet::new(),
            playing: false,
            player_rects: Vec::new(),
            player_scores: (0, 0),
        };
        Game { state, player1, player2, ball: Ball::new(), serve_key }
    }

    /// Runs one tick with the inputs held during it.
    pub fn tick(&mut self, pressed: HashSet<u32>)
        requires
            old(self).state.fits(),
            reaches_right(old(self).ball_in_play(pressed@), old(self).state.view_port.0 as int)
                ==> old(self).state.player_scores.0 < usize::MAX,
            reaches_left(old(self).ball_in_play(pressed@)) ==> old(self).state.player_scores.1
                < usize::MAX,
            old(self).player1@.size.1 <= i32::MAX,
            old(self).player2@.size.1 <= i32::MAX,
            old(self).ball@.size.0 <= i32::MAX,
            old(self).ball@.size.1 <= i32::MAX,
            old(self).state.playing ==> can_step(old(self).ball@),
        ensures
            final(self).serve_key == old(self).serve_key,
            final(self).state.view_port == old(self).state.view_port,
            final(self).state.keyboard_state@ == pressed@,
            final(self).state.player_rects@ == old(self).paddle_rects(),
            final(self).player1@.size == old(self).player1@.size,
            final(self).player1@.controls == old(self).player1@.controls,
            final(self).player1@.position.0 == old(self).player1@.position.0,
            final(self).player1@.position.1 == paddle_top_after(
                old(self).player1@.position.1 as int,
                old(self).state.view_port.1 - old(self).player1@.size.1,
                pressed@.contains(old(self).player1@.controls.up),
                pressed@.contains(old(self).player1@.controls.down),
            ),
            final(self).player2@.size == old(self).player2@.size,
            final(self).player2@.controls == old(self).player2@.controls,
            final(self).player2@.position.0 == old(self).player2@.position.0,
            final(self).player2@.position.1 == paddle_top_after(
                old(self).player2@.position.1 as int,
                old(self).state.view_port.1 - old(self).player2@.size.1,
                pressed@.contains(old(self).player2@.controls.up),
                pressed@.contains(old(self).player2@.controls.down),
            ),
            final(self).ball@.size == old(self).ball@.size,
            final(self).ball@.position == (
                moved(old(self).ball_in_play(pressed@)).0 as i32,
                moved(old(self).ball_in_play(pressed@)).1 as i32,
            ),
            final(self).ball@.velocity.0 == step_velocity(
                old(self).ball_in_play(pressed@),
                old(self).state.view_port,
                old(self).paddle_rects(),
            ).0,
            final(self).ball@.velocity.1 == step_velocity(
                old(self).ball_in_play(pressed@),
                old(self).state.view_port,
                old(self).paddle_rects(),
            ).1,
            final(self).state.player_scores.0 == old(self).state.player_scores.0 + if reaches_right(
                old(self).ball_in_play(pressed@),
                old(self).state.view_port.0 as int,
            ) {
                1int
            } else {
                0int
            },
            final(self).state.player_scores.1 == old(self).state.player_scores.1 + if reaches_left(
                old(self).ball_in_play(pressed@),
            ) {
                1int
            } else {
                0int
            },
            final(self).state.playing == ((old(self).state.playing || old(self).serves(pressed@))
                && !reaches_right(old(self).ball_in_play(pressed@), old(self).state.view_port.0 as int)
                && !reaches_left(old(self).ball_in_play(pressed@))),
    {
        let ghost pre = *self;
        self.state.keyboard_state = pressed;
        self.state.player_rects = vec![self.player1.as_rect(), self.player2.as_rect()];
        proof {
            assert(self.state.player_rects@ =~= pre.paddle_rects());
        }
        if !self.state.playing {
            let mid = ((self.state.view_port.0 / 2) as i32, (self.state.view_port.1 / 2) as i32);
            self.ball.set_velocity((0, 0));
            self.ball.set_center(mid);
        }
        if !self.state.playing && self.state.is_pressed(self.serve_key) {
            self.ball.starting_velocity();
            self.state.playing = true;
        }
        assert(self.ball@ == pre.ball_in_play(self.state.keyboard_state@));
        self.player1.update(&mut self.state);
        self.player2.update(&mut self.state);
        self.ball.update(&mut self.state);
    }
}

/// While the round waits for a serve, a tick without the serve input leaves
/// the ball at rest in the center of the view port, whatever its state
/// before the tick, and the round still waiting; so does any number of such
/// ticks. This holds where no paddle touches the centered ball.
pub proof fn lemma_waiting_holds_ball(g: Game, pressed: Set<u32>)
    requires
        !g.state.playing,
        !pressed.contains(g.serve_key),
        first_hit(g.paddle_rects(), moved_rect(g.ball_in_play(pressed))) is None,
        g.ball@.size.0 <= i32::MAX,
        g.ball@.size.1 <= i32::MAX,
    ensures
        step_velocity(g.ball_in_play(pressed), g.state.view_port, g.paddle_rects()) == (0int, 0int),
        moved(g.ball_in_play(pressed)) == centered(g.ball@.size, g.state.view_port),
        !((g.state.playing || g.serves(pressed)) && !reaches_right(
            g.ball_in_play(pressed),
            g.state.view_port.0 as int,
        ) && !reaches_left(g.ball_in_play(pressed))),
{
}

} // verus!
