//! Relay controller for a four-line motor-direction actuator, driven by
//! one-byte serial commands.

pub mod motion;
pub mod robot;
pub mod theorems;
