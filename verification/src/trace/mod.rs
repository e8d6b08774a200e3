//! The tracing capability of an engine.

pub mod span;

use crate::field::Field;
use vstd::prelude::*;

pub use span::{Callsite, Entered, Id, Span};

verus! {

/// The tracing capability: an engine numbers span call sites, creates
/// span instances, and follows them through their life.
pub trait Tracer {
    /// Registers a span call site under a new nonzero identifier.
    fn register_callsite(&mut self, callsite: &Callsite) -> (r: u32)
        ensures
            r >= 1,
    ;

    /// Creates a span instance of a call site, returning a nonzero
    /// instance number.
    fn span_create(&mut self, callsite: u32, fields: &[Field]) -> (r: u32)
        ensures
            r >= 1,
    ;

    /// Notes that a span was entered.
    fn span_enter(&mut self, id: Id);

    /// Attaches fields to a live span.
    fn span_record(&mut self, id: Id, fields: &[Field]);

    /// Notes that a span was exited.
    fn span_exit(&mut self, id: Id);
}

} // verus!
