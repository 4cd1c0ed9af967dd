//! Verified rules of a small collection of arcade games: the menu, Pong, Arkanoid, Asteroids,
//! a top-down shooter and a first-person room.
use vstd::prelude::*;

pub mod arkanoid;
pub mod asteroids;
pub mod collections;
pub mod menu;
pub mod pong;
pub mod room;
pub mod shooter;
pub mod text;

verus! {

} // verus!
