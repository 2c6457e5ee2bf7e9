//! The failure taxonomy shared by every fallible entry point of the crate.

use vstd::prelude::*;

verus! {

/// A parse entry point either yields a fully valid document or one of these
/// typed failures; partially populated documents are never produced.
#[derive(Clone, Copy, Debug, PartialEq, Eq, Structural)]
pub enum FeedError {
    /// The input is not well-formed JSON/XML at all.
    MalformedPayload,
    /// A structurally well-formed payload omits a field the schema marks
    /// non-optional.
    MissingRequiredField,
    /// A field is present but its value cannot be coerced to the declared
    /// semantic type.
    TypeMismatch,
    /// A season-period wire token is not one of the twelve recognized values.
    UnknownPeriodToken,
    /// The price transform's result cannot be represented in the declared
    /// integer width.
    NumericOverflow,
}

} // verus!
