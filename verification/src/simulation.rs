//! The decisions of the relativistic simulation.
//!
//! Each type stands beside one solver of the host. The host holds the
//! numbers; the types here hold the flags and modes that steer the solver,
//! and their methods say which formula or which restart is due for what the
//! host has measured.

pub mod observer;
pub mod orbit;
pub mod ray_connector;
pub mod sphere_ray_tracer;
