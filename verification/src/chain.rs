//! Value types exchanged with the runtime and execution-session
//! collaborators: execution-resource accounting, the collaborators' error
//! shapes, emitted contract events, and the decoded message outcome.

use vstd::prelude::*;

verus! {

/// Execution-resource accounting, gas-like. Two independent axes, copied
/// verbatim from the execution backend; this crate never interprets them.
#[derive(Clone, Copy, Debug)]
pub struct Weight {
    /// Computation time budget or consumption.
    pub ref_time: u64,
    /// State-proof size budget or consumption.
    pub proof_size: u64,
}

/// A failure reported by the execution session itself, before the call
/// could be attempted: configuration, encoding, or resource exhaustion
/// unrelated to the contract. Carried verbatim; this crate only wraps it.
#[derive(Clone, Debug)]
pub struct SessionError {
    /// The session's own description of the failure.
    pub message: String,
}

/// A failure that prevented a call from executing at all, as reported by
/// the runtime's dispatch layer — distinct from a contract-level revert.
/// Carried verbatim; this crate only wraps it.
#[derive(Clone, Debug)]
pub struct DispatchError {
    /// The dispatch layer's description of the failure.
    pub message: String,
}

/// An event emitted by the chain or a contract during execution, opaque to
/// this crate and handed back to the caller in emission order.
#[derive(Debug)]
pub struct ContractEvent {
    /// The account the event originates from.
    pub account: Vec<u8>,
    /// The event's payload bytes.
    pub data: Vec<u8>,
}

impl Clone for ContractEvent {
    fn clone(&self) -> (res: Self)
        ensures
            res.account@ == self.account@,
            res.data@ == self.data@,
    {
        let res = ContractEvent { account: self.account.clone(), data: self.data.clone() };
        proof {
            assert(res.account@ =~= self.account@);
            assert(res.data@ =~= self.data@);
        }
        res
    }
}

/// A language-level error a contract message can return inside an
/// otherwise successfully dispatched and non-reverted execution — a
/// contract-defined outcome, orthogonal to revert and dispatch failure.
#[derive(Clone, Copy, Debug, PartialEq, Eq, Structural)]
pub struct LangError {
    /// The language-level error code.
    pub code: u32,
}

/// A decoded contract-message outcome: the caller's payload, or a
/// contract-defined language-level error.
pub type MessageResult<T> = Result<T, LangError>;

/// The minimal capability set this crate needs from a runtime
/// configuration: the account-identifier type and the type of hashes of
/// uploaded code. Implemented by whoever binds the interface to a chain.
pub trait ChainConfig {
    /// The runtime's account-identifier type.
    type AccountId;
    /// The runtime's hash type for uploaded contract code.
    type Hash;
}

} // verus!
