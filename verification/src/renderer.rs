//! What the keyboard tells the renderer.

pub mod observer_controller;
