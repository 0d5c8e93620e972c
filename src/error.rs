//! The errors of the access layer.
use vstd::prelude::*;

verus! {

/// Why an operation failed.
///
/// A point lookup that finds nothing is no error: it yields the record type's
/// empty value.
#[derive(Debug, Clone)]
pub enum AccessError {
    /// A store item lacks an attribute that the record requires, or holds it
    /// with the wrong kind of value; `field` names the attribute.
    SchemaMismatch { field: String },
    /// The store could not be reached, or did not answer in time.
    StoreUnavailable,
    /// The store refused the request (throttling, permissions, validation).
    StoreRejected,
    /// The inbound request has no action that this layer knows.
    MalformedRequest,
}

/// How a call to the store failed.
#[derive(Debug, Clone, Copy, PartialEq, Eq)]
pub enum StoreFault {
    /// Transport failure or timeout.
    Unavailable,
    /// The store answered with a refusal.
    Rejected,
}

/// The access error that reports a store fault.
pub open spec fn fault_error_spec(f: StoreFault) -> AccessError {
    match f {
        StoreFault::Unavailable => AccessError::StoreUnavailable,
        StoreFault::Rejected => AccessError::StoreRejected,
    }
}

/// Turns a store fault into the access error that reports it.
pub fn fault_error(f: StoreFault) -> (r: AccessError)
    ensures
        r == fault_error_spec(f),
{
    match f {
        StoreFault::Unavailable => AccessError::StoreUnavailable,
        StoreFault::Rejected => AccessError::StoreRejected,
    }
}

} // verus!
