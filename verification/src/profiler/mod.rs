//! The profiling capability of an engine.

pub mod section;

use crate::field::Field;
use vstd::prelude::*;

pub use section::{Entered, Level, Section};

verus! {

/// The profiling capability: an engine numbers sections and receives
/// their timed records.
pub trait Profiler {
    /// Registers a section under a new nonzero identifier.
    fn section_register(&mut self, section: &Section) -> (r: u32)
        ensures
            r >= 1,
    ;

    /// Records one timed run of a section.
    fn section_record(&mut self, id: u32, start: u64, end: u64, fields: &[Field]);
}

} // verus!
