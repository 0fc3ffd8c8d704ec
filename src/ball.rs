//! The ball: free motion, paddle bounces, wall reflection and scoring.
use vstd::prelude::*;

use crate::deflection::{bounce_spec, bounce_velocity, BALL_VELOCITY};
use crate::deflection::lemma_bounce_keeps_speed;
use crate::geometry::{center_spec, overlaps_spec, rect_at, Rect};
use crate::state::GameState;

verus! {

pub const BALL_WIDTH: u32 = 15;

pub const BALL_HEIGHT: u32 = 15;

pub struct Ball {
    size: (u32, u32),
    position: (i32, i32),
    velocity: (i32, i32),
}

/// What a ball is: its extent, its top-left corner and its velocity per tick.
pub struct BallView {
    pub size: (u32, u32),
    pub position: (i32, i32),
    pub velocity: (i32, i32),
}

impl View for Ball {
    type V = BallView;

    closed spec fn view(&self) -> BallView {
        BallView { size: self.size, position: self.position, velocity: self.velocity }
    }
}

/// The first rectangle of `rects`, in order, that overlaps `r`.
pub open spec fn first_hit(rects: Seq<Rect>, r: Rect) -> Option<Rect>
    decreases rects.len(),
{
    if rects.len() == 0 {
        None
    } else if overlaps_spec(r, rects[0]) {
        Some(rects[0])
    } else {
        first_hit(rects.drop_first(), r)
    }
}

/// The top-left corner a ball reaches in one tick.
pub open spec fn moved(b: BallView) -> (int, int) {
    (b.position.0 + b.velocity.0, b.position.1 + b.velocity.1)
}

/// The ball can take its next step: the corner it reaches and its reflected
/// velocity are `i32` values.
pub open spec fn can_step(b: BallView) -> bool {
    &&& i32::MIN <= moved(b).0 <= i32::MAX
    &&& i32::MIN <= moved(b).1 <= i32::MAX
    &&& b.velocity.0 != i32::MIN
    &&& b.velocity.1 != i32::MIN
}

/// The ball's rectangle after its step.
pub open spec fn moved_rect(b: BallView) -> Rect {
    rect_at(b.size, (moved(b).0 as i32, moved(b).1 as i32))
}

/// The velocity after meeting the paddles: deflected by the first paddle that
/// the moved ball overlaps, the incoming one if it meets none.
pub open spec fn contact_velocity(b: BallView, rects: Seq<Rect>) -> (int, int) {
    let r = moved_rect(b);
    match first_hit(rects, r) {
        Some(p) => bounce_spec(
            center_spec(r).0 - center_spec(p).0,
            center_spec(r).1 - center_spec(p).1,
            b.velocity,
        ),
        None => (b.velocity.0 as int, b.velocity.1 as int),
    }
}

/// The moved ball's right edge reaches the view port's right side: a point
/// for player one.
pub open spec fn reaches_right(b: BallView, view_width: int) -> bool {
    moved(b).0 >= view_width - b.size.0
}

/// The moved ball's left edge reaches the view port's left side: a point for
/// player two.
pub open spec fn reaches_left(b: BallView) -> bool {
    moved(b).0 <= 0
}

/// The moved ball touches the top or the bottom wall.
pub open spec fn touches_wall(b: BallView, view_height: int) -> bool {
    moved(b).1 >= view_height - b.size.1 || moved(b).1 <= 0
}

/// The velocity after one tick in a view port of extent `view_port` with the
/// paddles at `rects`: the velocity after meeting the paddles, its horizontal
/// part reversed once when a side is reached (one or both), its vertical part
/// reversed when a wall is touched. Reversing keeps the speed.
pub open spec fn step_velocity(b: BallView, view_port: (u32, u32), rects: Seq<Rect>) -> (int, int) {
    let c = contact_velocity(b, rects);
    (
        if reaches_right(b, view_port.0 as int) || reaches_left(b) {
            -c.0
        } else {
            c.0
        },
        if touches_wall(b, view_port.1 as int) {
            -c.1
        } else {
            c.1
        },
    )
}

/// A wall reverses the vertical velocity and leaves the horizontal one as
/// it was, where no paddle and no side is reached in the same tick.
pub proof fn lemma_wall_reflects(b: BallView, view_port: (u32, u32), rects: Seq<Rect>)
    requires
        touches_wall(b, view_port.1 as int),
        first_hit(rects, moved_rect(b)) is None,
        !reaches_right(b, view_port.0 as int),
        !reaches_left(b),
    ensures
        step_velocity(b, view_port, rects) == (b.velocity.0 as int, -b.velocity.1),
{
}

/// A ball that leaves a paddle moves at `BALL_VELOCITY` within one unit,
/// whether or not it also reaches a side or a wall in that tick: its squared
/// speed lies between `16²` and `18²`.
pub proof fn lemma_contact_keeps_speed(b: BallView, view_port: (u32, u32), rects: Seq<Rect>)
    requires
        first_hit(rects, moved_rect(b)) is Some,
    ensures
        16 * 16 <= step_velocity(b, view_port, rects).0 * step_velocity(b, view_port, rects).0
            + step_velocity(b, view_port, rects).1 * step_velocity(b, view_port, rects).1
            <= 18 * 18,
{
    let r = moved_rect(b);
    let p = first_hit(rects, r)->Some_0;
    let c = contact_velocity(b, rects);
    let s = step_velocity(b, view_port, rects);
    lemma_bounce_keeps_speed(
        center_spec(r).0 - center_spec(p).0,
        center_spec(r).1 - center_spec(p).1,
        b.velocity,
    );
    assert(s.0 * s.0 == c.0 * c.0 && s.1 * s.1 == c.1 * c.1) by (nonlinear_arith)
        requires
            s.0 == c.0 || s.0 == -c.0,
            s.1 == c.1 || s.1 == -c.1,
    ;
}

proof fn lemma_first_hit_skip(rects: Seq<Rect>, r: Rect, i: int)
    requires
        0 <= i < rects.len(),
        !overlaps_spec(r, rects[i]),
    ensures
        first_hit(rects.subrange(i, rects.len() as int), r) == first_hit(
            rects.subrange(i + 1, rects.len() as int),
            r,
        ),
{
    let s = rects.subrange(i, rects.len() as int);
    assert(s.drop_first() =~= rects.subrange(i + 1, rects.len() as int));
}

impl Ball {
    pub fn new() -> (r: Ball)
        ensures
            r@.size == (BALL_WIDTH, BALL_HEIGHT),
            r@.position == (0i32, 0i32),
            r@.velocity == (0i32, 0i32),
    {
        Ball { size: (BALL_WIDTH, BALL_HEIGHT), position: (0, 0), velocity: (0, 0) }
    }

    /// A ball at rest at the origin with the given extent.
    pub fn with_size(size: (u32, u32)) -> (r: Ball)
        ensures
            r@.size == size,
            r@.position == (0i32, 0i32),
            r@.velocity == (0i32, 0i32),
    {
        Ball { size, position: (0, 0), velocity: (0, 0) }
    }

    /// Places the ball's top-left corner at `pos`.
    pub fn set_position(&mut self, pos: (i32, i32))
        ensures
            final(self)@.position == pos,
            final(self)@.size == old(self)@.size,
            final(self)@.velocity == old(self)@.velocity,
    {
        self.position = pos;
    }

    /// Places the ball so that its center is at `pos`.
    pub fn set_center(&mut self, pos: (i32, i32))
        requires
            i32::MIN <= pos.0 - old(self)@.size.0 / 2,
            i32::MIN <= pos.1 - old(self)@.size.1 / 2,
        ensures
            final(self)@.position.0 == pos.0 - old(self)@.size.0 / 2,
            final(self)@.position.1 == pos.1 - old(self)@.size.1 / 2,
            final(self)@.size == old(self)@.size,
            final(self)@.velocity == old(self)@.velocity,
    {
        let x = pos.0 as i64 - (self.size.0 / 2) as i64;
        let y = pos.1 as i64 - (self.size.1 / 2) as i64;
        self.position = (x as i32, y as i32);
    }

    pub fn set_velocity(&mut self, vel: (i32, i32))
        ensures
            final(self)@.velocity == vel,
            final(self)@.size == old(self)@.size,
            final(self)@.position == old(self)@.position,
    {
        self.velocity = vel;
    }

    /// Serves the ball: full speed toward player one's side.
    pub fn starting_velocity(&mut self)
        ensures
            final(self)@.velocity.0 == -BALL_VELOCITY,
            final(self)@.velocity.1 == 0,
            final(self)@.size == old(self)@.size,
            final(self)@.position == old(self)@.position,
    {
        self.set_velocity((-BALL_VELOCITY, 0));
    }

    pub fn size(&self) -> (r: (u32, u32))
        ensures
            r == self@.size,
    {
        self.size
    }

    pub fn position(&self) -> (r: (i32, i32))
        ensures
            r == self@.position,
    {
        self.position
    }

    pub fn velocity(&self) -> (r: (i32, i32))
        ensures
            r == self@.velocity,
    {
        self.velocity
    }

    /// The ball's bounding rectangle.
    pub fn as_rect(&self) -> (r: Rect)
        ensures
            r == rect_at(self@.size, self@.position),
    {
        Rect::new(self.position.0, self.position.1, self.size.0, self.size.1)
    }

    /// Whether the ball touches or overlaps `rect`.
    pub fn collides_with(&self, rect: Rect) -> (r: bool)
        ensures
            r == overlaps_spec(rect_at(self@.size, self@.position), rect),
    {
        self.as_rect().overlaps(&rect)
    }

    /// The first rectangle of `rects`, in order, that the ball touches.
    fn first_contact(&self, rects: &Vec<Rect>) -> (r: Option<Rect>)
        ensures
            r == first_hit(rects@, rect_at(self@.size, self@.position)),
    {
        let ghost br = rect_at(self@.size, self@.position);
        let mut i: usize = 0;
        assert(rects@.subrange(0, rects@.len() as int) =~= rects@);
        while i < rects.len()
            invariant
                0 <= i <= rects@.len(),
                first_hit(rects@, br) == first_hit(rects@.subrange(i as int, rects@.len() as int), br),
                br == rect_at(self@.size, self@.position),
            decreases rects@.len() - i,
        {
            let rect = rects[i];
            if self.collides_with(rect) {
                return Some(rect);
            }
            proof {
                lemma_first_hit_skip(rects@, br, i as int);
            }
            i = i + 1;
        }
        proof {
            assert(rects@.subrange(i as int, rects@.len() as int).len() == 0);
        }
        None
    }

    /// Advances the ball by one tick: it moves by its velocity, is deflected
    /// by the first paddle it then touches (the deflection shows from the next
    /// tick on), scores a point when it reaches the left or the right side,
    /// and is reflected by the top and the bottom walls (see `step_velocity`).
    pub fn update(&mut self, game_state: &mut GameState)
        requires
            can_step(old(self)@),
            reaches_right(old(self)@, old(game_state).view_port.0 as int)
                ==> old(game_state).player_scores.0 < usize::MAX,
            reaches_left(old(self)@) ==> old(game_state).player_scores.1 < usize::MAX,
        ensures
            final(self)@.size == old(self)@.size,
            final(self)@.position == (moved(old(self)@).0 as i32, moved(old(self)@).1 as i32),
            final(self)@.velocity.0 == step_velocity(
                old(self)@,
                old(game_state).view_port,
                old(game_state).player_rects@,
            ).0,
            final(self)@.velocity.1 == step_velocity(
                old(self)@,
                old(game_state).view_port,
                old(game_state).player_rects@,
            ).1,
            touches_wall(old(self)@, old(game_state).view_port.1 as int) && first_hit(
                old(game_state).player_rects@,
                moved_rect(old(self)@),
            ) is None ==> final(self)@.velocity.1 == -old(self)@.velocity.1,
            final(game_state).player_scores.0 == old(game_state).player_scores.0 + if reaches_right(
                old(self)@,
                old(game_state).view_port.0 as int,
            ) {
                1int
            } else {
                0int
            },
            final(game_state).player_scores.1 == old(game_state).player_scores.1 + if reaches_left(
                old(self)@,
            ) {
                1int
            } else {
                0int
            },
            final(game_state).playing == (old(game_state).playing && !reaches_right(
                old(self)@,
                old(game_state).view_port.0 as int,
            ) && !reaches_left(old(self)@)),
            final(game_state).view_port == old(game_state).view_port,
            final(game_state).keyboard_state == old(game_state).keyboard_state,
            final(game_state).player_rects == old(game_state).player_rects,
    {
        let (view_width, view_height) = game_state.view_port;
        let (width, height) = self.size;
        let vel = self.velocity;
        self.position = (self.position.0 + vel.0, self.position.1 + vel.1);
        let ball_rect = self.as_rect();
        match self.first_contact(&game_state.player_rects) {
            Some(rect) => {
                self.velocity = bounce_velocity(ball_rect.center(), rect.center(), vel);
            },
            None => {},
        }
        let reaches_right = self.position.0 as i64 >= view_width as i64 - width as i64;
        let reaches_left = self.position.0 <= 0;
        if reaches_right {
            game_state.player_scores.0 = game_state.player_scores.0 + 1;
            game_state.playing = false;
        }
        if reaches_left {
            game_state.player_scores.1 = game_state.player_scores.1 + 1;
            game_state.playing = false;
        }
        if reaches_right || reaches_left {
            self.velocity.0 = -self.velocity.0;
        }
        if self.position.1 as i64 >= view_height as i64 - height as i64 || self.position.1 <= 0 {
            self.velocity.1 = -self.velocity.1;
        }
    }
}

} // verus!
