use std::collections::HashSet;

use pongrs::{Controls, Game, Rect};

fn keys(held: &[u32]) -> HashSet<u32> {
    held.iter().copied().collect()
}

const SERVE: u32 = 44;
const P1: Controls = Controls { up: 26, down: 22 };
const P2: Controls = Controls { up: 82, down: 81 };

#[test]
fn new_game_places_paddles() {
    let g = Game::new((800, 600), P1, P2, SERVE);
    assert_eq!(g.player1.position(), (90, 225));
    assert_eq!(g.player2.position(), (690, 225));
    assert!(!g.state.playing);
    assert_eq!(g.state.player_scores, (0, 0));
    assert_eq!(g.ball.position(), (0, 0));
    assert_eq!(g.ball.velocity(), (0, 0));
    let wide = Game::new((1600, 1200), P1, P2, SERVE);
    assert_eq!(wide.player1.position(), (190, 525));
    assert_eq!(wide.player2.position(), (1390, 525));
}

#[test]
fn waiting_ticks_hold_ball_in_center() {
    let mut g = Game::new((800, 600), P1, P2, SERVE);
    for _ in 0..5 {
        g.tick(keys(&[]));
        assert_eq!(g.ball.velocity(), (0, 0));
        assert_eq!(g.ball.position(), (393, 293));
        assert!(!g.state.playing);
    }
    g.ball.set_position((12, 34));
    g.ball.set_velocity((5, 6));
    g.tick(keys(&[26]));
    assert_eq!(g.ball.velocity(), (0, 0));
    assert_eq!(g.ball.position(), (393, 293));
    assert_eq!(g.state.player_scores, (0, 0));
}

#[test]
fn serve_starts_the_rally() {
    let mut g = Game::new((800, 600), P1, P2, SERVE);
    g.tick(keys(&[SERVE]));
    assert!(g.state.playing);
    assert_eq!(g.ball.velocity(), (-17, 0));
    assert_eq!(g.ball.position(), (376, 293));
    g.tick(keys(&[]));
    assert_eq!(g.ball.position(), (359, 293));
    g.tick(keys(&[SERVE]));
    assert_eq!(g.ball.position(), (342, 293));
}

#[test]
fn tick_collects_paddles_before_they_move() {
    let mut g = Game::new((800, 600), P1, P2, SERVE);
    g.tick(keys(&[26, 81]));
    assert_eq!(g.state.player_rects, vec![Rect::new(90, 225, 20, 150), Rect::new(690, 225, 20, 150)]);
    assert_eq!(g.player1.position(), (90, 200));
    assert_eq!(g.player2.position(), (690, 250));
    assert_eq!(g.state.keyboard_state, keys(&[26, 81]));
}

#[test]
fn rally_ends_with_a_point_and_a_reset() {
    let mut g = Game::new((800, 600), P1, P2, SERVE);
    // move player one's paddle out of the ball's way
    for _ in 0..10 {
        g.tick(keys(&[26]));
    }
    g.tick(keys(&[SERVE]));
    let mut ticks = 0;
    while g.state.playing && ticks < 100 {
        g.tick(keys(&[26]));
        ticks += 1;
    }
    assert!(!g.state.playing);
    assert_eq!(g.state.player_scores, (0, 1));
    g.tick(keys(&[]));
    assert_eq!(g.ball.position(), (393, 293));
    assert_eq!(g.ball.velocity(), (0, 0));
}

#[test]
fn rally_returns_off_a_paddle() {
    let mut g = Game::new((800, 600), P1, P2, SERVE);
    g.tick(keys(&[SERVE]));
    let mut ticks = 0;
    while g.ball.velocity().0 < 0 && ticks < 100 {
        g.tick(keys(&[]));
        ticks += 1;
    }
    assert!(g.state.playing);
    let v = g.ball.velocity();
    assert!(v.0 > 0);
    let sq = v.0 * v.0 + v.1 * v.1;
    assert!(16 * 16 <= sq && sq <= 18 * 18);
}
