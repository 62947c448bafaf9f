//! Core simulation of a two-paddle arcade game: paddle movement, ball
//! integration, wall and paddle bounces, scoring, and the ball spawn
//! scheduler, all over exact fixed-point integer state.
//!
//! Geometry is measured in microunits (one arena unit is 1_000_000
//! microunits), velocities in milliunits per second (one arena unit per
//! second is 1_000), and time in milliseconds. With these scales a
//! displacement is the plain product `velocity * delta_ms`, so frame
//! integration is exact and the stated laws hold with no rounding.

pub mod components;
pub mod config;
pub mod laws;
pub mod pong;
pub mod systems;
