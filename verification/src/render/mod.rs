//! The server that keeps what is drawn.

pub mod input;
pub mod render_server;
