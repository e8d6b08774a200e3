//! The void engine: it swallows every event.

use crate::field::Field;
use crate::logger::Callsite;
use crate::trace::Id;
use vstd::prelude::*;

verus! {

/// An engine that discards everything handed to it. It numbers every
/// section and span call site `1`.
pub struct VoidDebugger {}

impl crate::profiler::Profiler for VoidDebugger {
    fn section_register(&mut self, _section: &crate::profiler::Section) -> (r: u32) {
        1
    }

    fn section_record(&mut self, _id: u32, _start: u64, _end: u64, _fields: &[Field]) {
    }
}

impl crate::trace::Tracer for VoidDebugger {
    fn register_callsite(&mut self, _callsite: &crate::trace::Callsite) -> (r: u32) {
        1
    }

    fn span_create(&mut self, _callsite: u32, _fields: &[Field]) -> (r: u32) {
        1
    }

    fn span_enter(&mut self, _id: Id) {
    }

    fn span_record(&mut self, _id: Id, _fields: &[Field]) {
    }

    fn span_exit(&mut self, _id: Id) {
    }
}

impl crate::logger::Logger for VoidDebugger {
    fn log(&mut self, _callsite: &Callsite, _msg: &str, _fields: &[Field]) {
    }
}

impl crate::engine::Engine for VoidDebugger {

}

} // verus!
