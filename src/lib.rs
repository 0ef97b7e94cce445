//! Kinematic state of a robot moving in the plane: a commanded velocity,
//! a pose whose starting value is fixed per type, and a navigation waypoint.
//!
//! The types are generic over the scalar that carries distances and speeds
//! and over the heading's representation, so that they stay plain, fixed-size
//! values whatever numeric types the caller integrates with.

mod milestone;
mod position;
mod velocity;

pub use milestone::Milestone;
pub use position::Position;
pub use velocity::Velocity;
