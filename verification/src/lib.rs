//! Rotation of an identity's long-lived access key.
//!
//! A run loads the credential store, asks the operator for a one-time code,
//! opens a session, deletes the identity's inactive keys, creates a new
//! key, writes it into the store and disables the key that the store held
//! before. The library decides; it does not act. `aws::key_rotator` holds
//! the run as a state machine: a driver hands it the outcome of the last
//! action and is told the next one. `aws::config` is the store,
//! `aws::connection` the request for a session, `prompt` the prompt and the
//! validation of the answer, and `aws::runs` what holds of whole runs.

pub mod prompt;
pub mod aws;
