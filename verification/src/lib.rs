//! The rules of a two-paddle ball game on an integer grid: motion, collision
//! of the ball with walls and paddles, serving, scoring and the end of a game.
//!
//! Every length is a whole number of world units, [`fixed::PIXEL`] of them to
//! a pixel; every speed is in world units per second; every time step is in
//! microseconds. A stored coordinate is the exact result of its formula,
//! saturated to the range of `i32`.

mod chance;
pub mod collision;
pub mod components;
pub mod config;
pub mod events;
pub mod fixed;
pub mod helpers_sprite;
pub mod input;
pub mod laws;
pub mod mode_1p;
pub mod mode_2p;
pub mod mode_wall;
pub mod state;
pub mod systems_1v1;
pub mod systems_generic;
pub mod world;
