//! Asteroids: the score, the sizes and their worth, the waves, the bullets' strikes and the
//! states of a game.
pub mod asteroid;
pub mod combat;
pub mod game;
pub mod score;
pub mod ship;
