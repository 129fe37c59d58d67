//! Sans-I/O core of a bridge that hosts a managed runtime inside a native
//! process.
//!
//! Every decision of the bridge lives here as verified code over plain
//! values: which native call to make next, how to classify what came back,
//! which references are still valid. The embedding program performs the
//! native calls and feeds the outcomes back in.

pub mod dotnet;
pub mod engine_main;
pub mod error;
pub mod render;
pub mod runtime_interface;
pub mod util;
