//! The capability interface to a contract execution backend: one
//! call-shaped operation per contract-lifecycle stage.

use vstd::prelude::*;
use crate::calls::ExecCall;
use crate::calls::InstantiateCall;
use crate::calls::ReadCall;
use crate::calls::UploadCall;
use crate::chain::ChainConfig;
use crate::chain::MessageResult;
use crate::error::Error;
use crate::result::ContractExecResult;
use crate::result::ContractInstantiateResult;
use crate::result::ContractReadResult;

verus! {

/// One operation per contract-lifecycle stage, each translating a
/// caller-supplied descriptor into an attempt against an execution session
/// and normalizing the outcome into [`Error`] or a result envelope.
///
/// Every operation takes the connection by exclusive reference: one
/// logical execution session that cannot process two calls concurrently
/// without external synchronization. All operations mutate session state
/// except [`Connection::read`], which must discard any state change after
/// evaluating the call. Decode targets cross into whatever worker runs the
/// session, so they must be sendable between threads.
///
/// Implementations classify their session's raw outcome with
/// [`crate::outcome::instantiate_outcome`] and
/// [`crate::outcome::call_outcome`], which carry the contracts of the
/// uniform error-mapping algorithm; no operation retries.
pub trait Connection<R: ChainConfig> {
    /// Submits code to the session. On success, returns the runtime's
    /// computed code hash; fails with the wrapped session error if the
    /// session rejects the upload outright, and with
    /// [`Error::CodeHashMismatch`] if the computed hash does not match the
    /// hash the descriptor expects.
    fn upload_code(&mut self, call: UploadCall) -> Result<R::Hash, Error>;

    /// Instantiates uploaded code. Fails with
    /// [`Error::DeploymentFailed`] when the session cannot dispatch the
    /// instantiation at all, with [`Error::DeploymentReverted`] when the
    /// constructor traps; on success, the payload is the new contract's
    /// account identifier.
    fn instantiate<T: Send>(&mut self, call: InstantiateCall<T>) -> Result<
        ContractInstantiateResult<R::AccountId>,
        Error,
    >;

    /// Calls a contract message, committing state changes. Fails with
    /// [`Error::CallFailed`] when the session cannot dispatch the call at
    /// all, with [`Error::CallReverted`] when the message traps; on
    /// success, the payload is the returned bytes decoded into the
    /// caller-requested target.
    fn exec<T: parity_scale_codec::Decode + Send>(&mut self, call: ExecCall<T>) -> Result<
        ContractExecResult<MessageResult<T>>,
        Error,
    >;

    /// Like [`Connection::exec`], but the session must discard any state
    /// mutation after evaluating the call — inspection without committing
    /// effects, even if the message internally attempts writes.
    fn read<T: parity_scale_codec::Decode + Send>(&mut self, call: ReadCall<T>) -> Result<
        ContractReadResult<MessageResult<T>>,
        Error,
    >;
}

} // verus!
