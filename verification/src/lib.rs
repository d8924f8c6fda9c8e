//! Core of a point-particle engine: a large particle population transitions
//! from a scripted entrance animation into a steady-state gravitational
//! simulation, with positions and velocities living in buffers shared between
//! a graphics context and a compute context.
//!
//! This crate verifies the host-side logic of that engine: particle-count
//! validation and rounding, the easing-function registry, the buffer-pair
//! model, the acquire/release ownership protocol of the device bridge, and
//! the animation lifecycle state machine. Device work itself (allocation,
//! kernel execution) is described as a sequence of [`bridge::DeviceCommand`]
//! values that each operation returns; an unverified driver executes those
//! commands against the real graphics and compute contexts.

pub mod animation;
pub mod bridge;
pub mod easing;
pub mod engine;
pub mod error;
pub mod particles;
pub mod point;
