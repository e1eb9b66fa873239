use vstd::prelude::*;

verus! {

/// Why an operation on the calendar did not take effect.
#[derive(Debug, Clone, Copy, PartialEq, Eq, Structural)]
pub enum Error {
    /// The event identifier that the operation names is not in the store.
    NotFound,
    /// The candidate range meets a stored event while overlap is not allowed.
    Conflict,
    /// The store itself failed: it could not answer, or it has no identifier
    /// left to give.
    StoreError,
    /// What reached the calendar is not a well-formed input.
    InvalidInput,
}

} // verus!
