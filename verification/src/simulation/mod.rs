//! Simulation module: the stepping protocol and the physically simulated
//! entities that implement it.

pub mod boat;
pub mod flat_object_physics;
pub mod physical_integrator;
pub mod wind;
