//! The hosting protocol: status codes, delegate kinds, host location, the
//! host context, and the names it interns.

pub mod context;
pub mod function_ptr;
pub mod hostfxr;
pub mod library;
pub mod nethost;
pub mod string_name;
