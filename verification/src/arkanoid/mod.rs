//! Arkanoid: the levels and their bricks, what a strike on a brick does, and the states of a game.
pub mod brick;
pub mod game;
pub mod level;
