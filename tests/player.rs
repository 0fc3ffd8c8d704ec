use std::collections::HashSet;

use pongrs::player::{PLAYER_HEIGHT, PLAYER_WIDTH};
use pongrs::{Controls, GameState, Player};

const UP: u32 = 26;
const DOWN: u32 = 22;

fn state(keys: Vec<u32>) -> GameState {
    GameState {
        view_port: (800, 600),
        keyboard_state: keys.into_iter().collect(),
        playing: true,
        player_rects: Vec::new(),
        player_scores: (0, 0),
    }
}

fn paddle_at(x: i32, y: i32) -> Player {
    let mut p = Player::new(Controls { up: UP, down: DOWN });
    p.set_position((x, y));
    p
}

#[test]
fn new_paddle_has_default_size() {
    let p = Player::new(Controls { up: UP, down: DOWN });
    assert_eq!(p.size(), (PLAYER_WIDTH, PLAYER_HEIGHT));
    assert_eq!(p.size(), (20, 150));
    assert_eq!(p.position(), (0, 0));
}

#[test]
fn up_moves_then_clamps_at_top() {
    let mut p = paddle_at(0, 225);
    let mut st = state(vec![UP]);
    p.update(&mut st);
    assert_eq!(p.position(), (0, 200));
    let mut last = 200;
    for _ in 0..20 {
        p.update(&mut st);
        let y = p.position().1;
        assert!(y >= 0);
        assert!(y <= last);
        last = y;
    }
    assert_eq!(p.position(), (0, 0));
    let mut q = paddle_at(0, 10);
    q.update(&mut st);
    assert_eq!(q.position(), (0, 0));
}

#[test]
fn down_moves_then_clamps_at_bottom() {
    let mut p = paddle_at(30, 400);
    let mut st = state(vec![DOWN]);
    p.update(&mut st);
    assert_eq!(p.position(), (30, 425));
    p.update(&mut st);
    assert_eq!(p.position(), (30, 450));
    p.update(&mut st);
    assert_eq!(p.position(), (30, 450));
    assert_eq!(p.as_rect(), pongrs::Rect::new(30, 450, 20, 150));
}

#[test]
fn no_input_leaves_paddle() {
    let mut p = paddle_at(5, 123);
    let mut st = state(vec![1, 2, 3]);
    p.update(&mut st);
    assert_eq!(p.position(), (5, 123));
    assert_eq!(st.keyboard_state, HashSet::from([1, 2, 3]));
}

#[test]
fn up_and_down_together_check_up_first() {
    let mut p = paddle_at(0, 225);
    let mut st = state(vec![DOWN, UP]);
    p.update(&mut st);
    assert_eq!(p.position(), (0, 225));
    let mut q = paddle_at(0, 10);
    q.update(&mut st);
    assert_eq!(q.position(), (0, 25));
    let mut r = paddle_at(0, 440);
    r.update(&mut st);
    assert_eq!(r.position(), (0, 450));
}

#[test]
fn paddle_stays_in_view_for_every_input() {
    let keysets = [vec![], vec![UP], vec![DOWN], vec![UP, DOWN]];
    for y in 0..=450 {
        for keys in keysets.iter() {
            let mut p = paddle_at(0, y);
            let mut st = state(keys.clone());
            p.update(&mut st);
            let top = p.position().1;
            assert!(0 <= top && top + 150 <= 600, "from {} with {:?} to {}", y, keys, top);
        }
    }
}

#[test]
fn set_center_and_move_by() {
    let mut p = Player::new(Controls { up: UP, down: DOWN });
    p.set_center((100, 300));
    assert_eq!(p.position(), (90, 225));
    p.move_by((-5, 7));
    assert_eq!(p.position(), (85, 232));
}
