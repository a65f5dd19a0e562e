use vstd::prelude::*;

verus! {

/// A user-supplied formatting callback failed; surfaced as a
/// compilation-level error by the stage that invoked the callback.
#[derive(Clone, Copy, PartialEq, Eq, Structural, Debug)]
pub struct CallbackError;

/// Failures of a counter query.
#[derive(Clone, Copy, PartialEq, Eq, Structural, Debug)]
pub enum CounterError {
    /// The query was issued before the event log was frozen.
    NotYetResolved,
    /// The queried location was never recorded in the document.
    UnknownLocation,
}

/// Failures of outline extraction for a single node.
#[derive(Clone, Copy, PartialEq, Eq, Structural, Debug)]
pub enum OutlineError {
    /// The node's numbering could not be resolved yet.
    NotYetResolved,
    /// The node's location is absent from the counter's index.
    UnknownLocation,
    /// A user-supplied outline callback failed.
    UserCallback,
}

impl OutlineError {
    /// Lifts a counter-query failure into an outline failure.
    pub fn from_counter(e: CounterError) -> (r: OutlineError)
        ensures
            r == counter_to_outline_error(e),
    {
        match e {
            CounterError::NotYetResolved => OutlineError::NotYetResolved,
            CounterError::UnknownLocation => OutlineError::UnknownLocation,
        }
    }
}

pub open spec fn counter_to_outline_error(e: CounterError) -> OutlineError {
    match e {
        CounterError::NotYetResolved => OutlineError::NotYetResolved,
        CounterError::UnknownLocation => OutlineError::UnknownLocation,
    }
}

} // verus!
