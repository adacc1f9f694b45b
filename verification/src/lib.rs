//! The failure type shared by the readers of binary containers: one closed set
//! of kinds, a fixed label for each kind, and a text for every value.

pub mod error;
pub mod hex;
pub mod outside;
pub mod text;

pub use crate::error::Error;
pub use crate::error::Result;
pub use crate::error::Wrapped;
