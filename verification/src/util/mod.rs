//! Helpers shared by the bridge: wide text and fixed-step timing.

pub mod timing;
pub mod wide;
