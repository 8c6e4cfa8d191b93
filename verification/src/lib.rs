//! Verified control math for raycast-driven pseudo-suspension controllers.
//!
//! The crate provides two per-step controllers for rigid bodies: a floating
//! locomotion controller that keeps a body gliding at a rest height above the
//! ground through a spring-damper law, and an N-wheel vehicle suspension
//! controller that turns independent spring-damper wheel contacts into one
//! linear and one angular velocity correction.
//!
//! All quantities are fixed-point integers with [`fixed::SCALE`] ticks per
//! unit, so every formula is exact integer arithmetic with truncating
//! division, and every step function carries a contract that pins its result
//! down. The embedding that owns the physics engine converts its scalar type
//! to ticks, runs the spatial queries, and hands the results to the step
//! functions here.

pub mod fixed;
pub mod vec3;
pub mod probe;
pub mod floating;
pub mod vehicle;
