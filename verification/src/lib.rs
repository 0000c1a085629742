//! Configuration and control model of an articulated rigid-body scene.
//!
//! The library describes what a simulation is made of (joints with their
//! limits and motors, multibodies assembled link by link, a world that owns
//! bodies and colliders behind generational handles) and decides how motors
//! react to what the simulation reports. All quantities are fixed-point
//! integers; the numerical simulation itself is left to the embedding
//! program.

pub mod arena;
pub mod control;
pub mod error;
pub mod dof;
pub mod joint;
pub mod multibody;
pub mod scene;
pub mod vector;
pub mod world;
