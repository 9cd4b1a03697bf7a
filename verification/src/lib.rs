//! Integration parameters for one time-step of a rigid-body physics engine.
//!
//! The crate provides a plain configuration record,
//! [`params::IntegrationParameters`], read by the stages of a simulation step
//! (velocity and position solvers, broad phase, continuous collision
//! detection, island partitioning), together with an exact scalar type,
//! [`scalar::Real`], that carries the record's settings — in particular the
//! non-negative timestep and its derived frequency — without rounding.

pub mod codec;
pub mod params;
pub mod scalar;
