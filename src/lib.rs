//! Physics of a two-paddle Pong game, on integer fixed-point coordinates.
//!
//! Lengths are in milli-pixels, times in milliseconds, so a velocity in
//! milli-pixels per millisecond reads as pixels per second.
pub mod geometry;
pub mod collision;
pub mod world;
pub mod physics;
pub mod input;

pub use geometry::Vec2;
pub use collision::Collision;
pub use world::{Ball, Paddle, PaddleSide, World};
pub use physics::PhysicsPlugin;
pub use input::Keys;
