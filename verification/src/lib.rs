//! Generator for the trace-builder module of a zero-knowledge virtual
//! machine: given a circuit name and an ordered column schema, it emits the
//! complete C++ source of a class that moves execution rows into
//! column-oriented polynomials and checks them against a named relation.
//!
//! The schema is an ordered list of column names (`all_cols`) plus the
//! ordered sub-list of columns that also get a shifted derivative
//! (`to_be_shifted`). Order is significant: it fixes the slot assignment
//! and the literal line order of the emitted code. Names are substituted
//! as given; that they are legal identifiers and path fragments is the
//! caller's obligation.

use vstd::prelude::*;

pub mod circuit;
pub mod emitter;
pub mod includes;
pub mod members;
pub mod numerals;

verus! {

/// A producer of trace-builder sources for a circuit.
pub trait TraceBuilder {
    /// Emits the complete trace-builder header module for the circuit
    /// `name` over the schema `(all_cols, to_be_shifted)`.
    fn create_trace_builder_hpp(
        &mut self,
        name: &str,
        all_cols: &[String],
        to_be_shifted: &[String],
    ) -> (hpp: String)
        requires
            all_cols@.len() + to_be_shifted@.len() <= usize::MAX,
        ensures
            hpp@ == emitter::spec_trace_builder_hpp(
                name@,
                all_cols.deep_view(),
                to_be_shifted.deep_view(),
            ),
    ;
}

/// The stock emitter: generates the module text and hands it whole to the
/// caller, which owns persisting it.
pub struct ModuleEmitter;

impl TraceBuilder for ModuleEmitter {
    fn create_trace_builder_hpp(
        &mut self,
        name: &str,
        all_cols: &[String],
        to_be_shifted: &[String],
    ) -> (hpp: String) {
        emitter::trace_builder_hpp(name, all_cols, to_be_shifted)
    }
}

} // verus!
