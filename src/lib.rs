//! A type-erased error handle: one owning word over a heap record that keeps
//! the wrapped value's type identity, its cause chain and a backtrace.

pub mod error;
pub mod laws;
pub mod render;
pub mod trace;
pub mod value;

pub use value::{ErrorValue, TypeKey};
pub use error::{Error, Errors};
