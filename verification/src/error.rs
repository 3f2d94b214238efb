//! The closed error taxonomy: everything that can go wrong when driving a
//! contract call through the execution session.
//!
//! Two tiers. Session-level failures (the call could not even be
//! attempted) wrap the session's own error or a decoding failure.
//! Operation-level failures are split per lifecycle stage and per failure
//! mode: a dispatch-level failure (the call never executed, carrying the
//! underlying dispatch error) is distinct from a contract-level revert
//! (the call executed and trapped). The two are mutually exclusive and
//! collectively exhaustive for "the call did not produce a usable result".

use vstd::prelude::*;
use crate::chain::DispatchError;
use crate::chain::SessionError;

verus! {

/// Everything a contract-lifecycle operation can fail with.
///
/// Exactly one variant applies to any failed operation; no catch-all
/// exists beyond [`Error::DrinkError`] and [`Error::DecodingError`], which
/// absorb whatever the session and decoding collaborators produce.
#[derive(Debug)]
pub enum Error {
    /// The execution session itself failed before the call was attempted.
    DrinkError(SessionError),
    /// The contract's return payload could not be decoded into the
    /// caller-requested type; carries a descriptive message.
    DecodingError(String),
    /// Uploaded code's computed hash does not match the expected hash.
    CodeHashMismatch,
    /// Instantiation dispatched, but the constructor trapped or reverted.
    DeploymentReverted,
    /// Instantiation could not dispatch at all.
    DeploymentFailed(DispatchError),
    /// A contract call dispatched, but the message trapped or reverted.
    CallReverted,
    /// A contract call could not dispatch at all.
    CallFailed(DispatchError),
}

impl From<SessionError> for Error {
    fn from(e: SessionError) -> (r: Self)
        ensures
            r == Error::DrinkError(e),
    {
        Error::DrinkError(e)
    }
}

impl vstd::std_specs::convert::FromSpecImpl<SessionError> for Error {
    open spec fn obeys_from_spec() -> bool {
        true
    }

    open spec fn from_spec(e: SessionError) -> Self {
        Error::DrinkError(e)
    }
}

} // verus!
