//! A physically-simulated character controller core.
//!
//! Each simulation tick, the library classifies the tick's collision
//! contacts against the world "up" direction to decide which bodies rest
//! on floor-like surfaces, then turns input and grounded state into
//! movement commands: an edge-triggered, buffered jump force, horizontal
//! impulses in the body's local frame, and a camera transform that
//! follows the body with a pure yaw rotation.
//!
//! Geometry is carried in fixed-point integers (see [`math::ONE`]); the
//! host that owns the floating-point physics state converts at the
//! boundary. The angular tolerance is supplied as the cosine of the
//! tolerated angle, so the floor test is a plain integer comparison.

pub mod contact;
pub mod controller;
pub mod math;
pub mod system;
