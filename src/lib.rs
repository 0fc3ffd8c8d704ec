//! Simulation core of a two-player Pong game: paddles, a ball, collisions,
//! the paddle-bounce deflection and the serve/score state machine.

pub mod ball;
pub mod court;
pub mod deflection;
pub mod game;
pub mod geometry;
pub mod player;
pub mod state;

pub use ball::Ball;
pub use game::Game;
pub use geometry::Rect;
pub use player::Player;
pub use state::{Controls, GameState};

