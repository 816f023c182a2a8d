//! Verified decision core of a Schwarzschild black-hole visualiser.
//!
//! The visualiser bends light rays and orbits around a non-rotating black
//! hole. Its solvers compute with floating-point numbers and live with the
//! host application. Everything they *decide* lives here: which branch of a
//! formula applies, when a solver must restart, when an orbit has ended, how
//! the overlay reacts to the pointer. The host measures, this crate decides,
//! and every decision carries a proved contract.
//!
//! - [`simulation`]: observer, orbit, ray connector and ray fan.
//! - [`gui`]: the overlay's panels and how pointer events reach them.
//! - [`renderer`]: the keys that move the observer.
//! - [`raytracer`]: the application between overlay, keyboard and
//!   simulation.
//!
//! The types of [`simulation`] are small state machines. A host calls them
//! with what it has measured (the observer is outside the horizon, the last
//! step left the integrator's range) and gets back what to do next; the laws
//! proved beside each type say what holds over whole runs of such calls.

pub mod gui;
pub mod raytracer;
pub mod renderer;
pub mod simulation;
