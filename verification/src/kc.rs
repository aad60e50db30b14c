//! The identity provider: where it is reached, and what a realm publishes.

pub mod client;
pub mod config;
