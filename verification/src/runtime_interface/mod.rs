//! What the hosted application exposes to the native side: its entry
//! functions and its configuration.

pub mod config;
pub mod entrypoint;
pub mod facade;
