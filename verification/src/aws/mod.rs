//! The credential store, the session request and the rotation workflow.

pub mod ini_file;
pub mod model;
pub mod config;
pub mod connection;
pub mod key_rotator;
pub mod runs;
