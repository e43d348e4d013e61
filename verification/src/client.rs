//! Client registration.

pub mod client;
