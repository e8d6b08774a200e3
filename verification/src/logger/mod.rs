//! The logging capability of an engine.

pub mod interface;

pub use crate::level::Level;
pub use interface::{Callsite, Logger};
