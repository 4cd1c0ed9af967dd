//! The top-down shooter: the score, the waves of enemies, the bullets' hits, the pickups, and the
//! states of a game.
pub mod combat;
pub mod enemy;
pub mod game;
pub mod pickup;
pub mod score;
