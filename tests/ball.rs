use std::collections::HashSet;

use pongrs::{Ball, GameState, Rect};

fn state(view_port: (u32, u32), rects: Vec<Rect>) -> GameState {
    GameState {
        view_port,
        keyboard_state: HashSet::new(),
        playing: true,
        player_rects: rects,
        player_scores: (3, 4),
    }
}

fn ball(size: (u32, u32), pos: (i32, i32), vel: (i32, i32)) -> Ball {
    let mut b = Ball::with_size(size);
    b.set_position(pos);
    b.set_velocity(vel);
    b
}

#[test]
fn new_ball_is_at_rest() {
    let b = Ball::new();
    assert_eq!(b.size(), (15, 15));
    assert_eq!(b.position(), (0, 0));
    assert_eq!(b.velocity(), (0, 0));
}

#[test]
fn serve_goes_toward_player_one() {
    let mut b = Ball::new();
    b.set_position((5, 6));
    b.starting_velocity();
    assert_eq!(b.velocity(), (-17, 0));
    assert_eq!(b.position(), (5, 6));
}

#[test]
fn free_motion() {
    let mut b = ball((15, 15), (100, 100), (7, -3));
    let mut st = state((800, 600), Vec::new());
    b.update(&mut st);
    assert_eq!(b.position(), (107, 97));
    assert_eq!(b.velocity(), (7, -3));
    assert_eq!(st.player_scores, (3, 4));
    assert!(st.playing);
}

#[test]
fn right_side_scores_for_player_one() {
    let mut b = ball((16, 16), (790, 300), (10, 0));
    let mut st = state((800, 600), Vec::new());
    st.player_scores = (0, 0);
    b.update(&mut st);
    assert_eq!(st.player_scores, (1, 0));
    assert!(!st.playing);
    assert_eq!(b.position(), (800, 300));
    assert_eq!(b.velocity(), (-10, 0));
}

#[test]
fn right_side_scores_at_exact_edge() {
    let mut b = ball((16, 16), (774, 300), (10, 0));
    let mut st = state((800, 600), Vec::new());
    b.update(&mut st);
    assert_eq!(st.player_scores, (4, 4));
    assert!(!st.playing);
    let mut c = ball((16, 16), (773, 300), (10, 0));
    let mut st2 = state((800, 600), Vec::new());
    c.update(&mut st2);
    assert_eq!(st2.player_scores, (3, 4));
    assert!(st2.playing);
}

#[test]
fn left_side_scores_for_player_two() {
    let mut b = ball((15, 15), (5, 300), (-10, 0));
    let mut st = state((800, 600), Vec::new());
    b.update(&mut st);
    assert_eq!(st.player_scores, (3, 5));
    assert!(!st.playing);
    assert_eq!(b.velocity(), (10, 0));
    let mut c = ball((15, 15), (10, 300), (-10, 0));
    let mut st2 = state((800, 600), Vec::new());
    c.update(&mut st2);
    assert_eq!(st2.player_scores, (3, 5));
}

#[test]
fn top_wall_reflects_vertical_velocity() {
    let mut b = ball((15, 15), (300, 5), (4, -10));
    let mut st = state((800, 600), Vec::new());
    b.update(&mut st);
    assert_eq!(b.position(), (304, -5));
    assert_eq!(b.velocity(), (4, 10));
    assert!(st.playing);
}

#[test]
fn bottom_wall_reflects_vertical_velocity() {
    let mut b = ball((15, 15), (300, 580), (3, 10));
    let mut st = state((800, 600), Vec::new());
    b.update(&mut st);
    assert_eq!(b.position(), (303, 590));
    assert_eq!(b.velocity(), (3, -10));
}

#[test]
fn paddle_contact_deflects_from_next_tick() {
    // the moved ball's center is (100, 300), the paddle's center (90, 310)
    let paddle = Rect::new(80, 235, 20, 150);
    let mut b = ball((16, 16), (109, 292), (-17, 0));
    let mut st = state((800, 600), vec![paddle, Rect::new(700, 0, 20, 150)]);
    b.update(&mut st);
    assert_eq!(b.position(), (92, 292));
    assert_eq!(b.velocity(), (17, -3));
    assert_eq!(st.player_scores, (3, 4));
    assert!(st.playing);
    b.update(&mut st);
    assert_eq!(b.position(), (109, 289));
}

#[test]
fn first_paddle_in_order_decides() {
    let first = Rect::new(80, 290, 20, 20);
    let second = Rect::new(100, 295, 20, 20);
    let mut b = ball((16, 16), (109, 292), (-17, 0));
    let mut st = state((800, 600), vec![first, second]);
    b.update(&mut st);
    // offset from the first paddle's center (90, 300) is (10, 0)
    assert_eq!(b.velocity(), (17, 0));
}

#[test]
fn collides_with_touching_rect() {
    let b = ball((15, 15), (100, 100), (0, 0));
    assert!(b.collides_with(Rect::new(115, 100, 10, 10)));
    assert!(!b.collides_with(Rect::new(116, 100, 10, 10)));
    assert_eq!(b.as_rect(), Rect::new(100, 100, 15, 15));
}

#[test]
fn set_center_places_ball() {
    let mut b = Ball::new();
    b.set_center((400, 300));
    assert_eq!(b.position(), (393, 293));
}

#[test]
fn bounce_on_a_scoring_tick_keeps_its_speed() {
    // the moved ball's center is (795, 308), the paddle's center (790, 280)
    let mut b = ball((16, 16), (770, 300), (17, 0));
    let mut st = state((800, 600), vec![Rect::new(785, 260, 10, 40)]);
    st.player_scores = (0, 0);
    b.update(&mut st);
    assert_eq!(b.velocity(), (-11, 13));
    assert_eq!(st.player_scores, (1, 0));
    assert!(!st.playing);
    let v = b.velocity();
    let sq = v.0 * v.0 + v.1 * v.1;
    assert!(16 * 16 <= sq && sq <= 18 * 18);
}

#[test]
fn centered_bounce_on_a_scoring_tick_goes_straight_down() {
    let mut b = ball((16, 16), (770, 300), (17, 0));
    let mut st = state((800, 600), vec![Rect::new(785, 260, 20, 40)]);
    b.update(&mut st);
    assert_eq!(b.velocity(), (0, 17));
    assert_eq!(st.player_scores, (4, 4));
}

#[test]
fn bounce_against_a_wall_reverses_the_bounced_velocity() {
    // the moved ball's center is (91, 3), the paddle's center (90, 75)
    let mut b = ball((16, 16), (100, 5), (-17, -10));
    let mut st = state((800, 600), vec![Rect::new(80, 0, 20, 150)]);
    b.update(&mut st);
    assert_eq!(b.position(), (83, -5));
    assert_eq!(b.velocity(), (1, 17));
    assert_eq!(st.player_scores, (3, 4));
}

#[test]
fn reaching_both_sides_reverses_once() {
    let mut b = ball((16, 16), (3, 300), (-3, 0));
    let mut st = state((10, 600), Vec::new());
    b.update(&mut st);
    assert_eq!(b.velocity(), (3, 0));
    assert_eq!(st.player_scores, (4, 5));
    assert!(!st.playing);
}

#[test]
fn scoring_needs_no_headroom_on_the_other_score() {
    let mut b = ball((15, 15), (5, 300), (-10, 0));
    let mut st = state((800, 600), Vec::new());
    st.player_scores = (usize::MAX, 0);
    b.update(&mut st);
    assert_eq!(st.player_scores, (usize::MAX, 1));
}
