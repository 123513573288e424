//! A side-scrolling arcade simulation: a bird falls under gravity, flaps
//! upward on request, and must pass through a stream of recycled pipes.
//!
//! Lengths, speeds and times are fixed-point integers, scaled so that one
//! Euler step is exact: see [`config`].

pub mod config;
pub mod kinematics;
pub mod random;
pub mod recycle;
pub mod collision;
pub mod state;
pub mod animation;
pub mod world;
pub mod spacing;
