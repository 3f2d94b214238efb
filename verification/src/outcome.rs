//! The uniform error-mapping algorithm: classify what the execution
//! session reports for one dispatched operation into the [`Error`]
//! taxonomy or a [`ContractResult`] envelope.
//!
//! A dispatch-level error short-circuits before any contract-level revert
//! is considered — an operation that never dispatched cannot have
//! reverted. Decoding the returned payload into the caller's target type
//! is the last step; a decode failure is reported as
//! [`Error::DecodingError`] with a descriptive message, never coerced or
//! panicked on.

use vstd::prelude::*;
use crate::chain::ContractEvent;
use crate::chain::DispatchError;
use crate::chain::LangError;
use crate::chain::MessageResult;
use crate::chain::Weight;
use crate::error::Error;
use crate::result::ContractExecResult;
use crate::result::ContractInstantiateResult;
use crate::result::ContractResult;

verus! {

/// What the session reports when an operation did dispatch and run: the
/// operation's raw value, and whether the contract trapped or reverted
/// while producing it.
pub struct Execution<R> {
    /// Whether the contract trapped or reverted during execution.
    pub reverted: bool,
    /// The operation's raw value: the new account for an instantiation,
    /// the returned payload bytes for a call.
    pub value: R,
}

/// Everything the session reports for one attempted operation, before this
/// crate classifies it: resource accounting, the dispatch outcome, and the
/// events emitted while the operation ran, in emission order.
pub struct ExecutionReport<R> {
    /// Resources actually consumed.
    pub gas_consumed: Weight,
    /// Resources the execution would have required at minimum.
    pub gas_required: Weight,
    /// The dispatch outcome: the execution, or the dispatch-level error
    /// that prevented the operation from executing at all.
    pub outcome: Result<Execution<R>, DispatchError>,
    /// Events emitted while the operation ran, in emission order.
    pub events: Vec<ContractEvent>,
}

/// Classifies the session's report of an instantiation.
///
/// A dispatch-level error becomes [`Error::DeploymentFailed`] carrying
/// that error, and never a revert; a constructor trap becomes
/// [`Error::DeploymentReverted`] with no partial envelope; otherwise the
/// envelope carries the new account and the session's resource accounting
/// and events, order preserved.
pub fn instantiate_outcome<A>(report: ExecutionReport<A>) -> (r: Result<
    ContractInstantiateResult<A>,
    Error,
>)
    ensures
        match report.outcome {
            Result::Err(e) => r == Err::<ContractInstantiateResult<A>, Error>(
                Error::DeploymentFailed(e),
            ),
            Result::Ok(ex) => if ex.reverted {
                r == Err::<ContractInstantiateResult<A>, Error>(Error::DeploymentReverted)
            } else {
                r matches Ok(cr) && cr.gas_consumed == report.gas_consumed && cr.gas_required
                    == report.gas_required && cr.result == ex.value && cr.events == report.events
            },
        },
{
    let ExecutionReport { gas_consumed, gas_required, outcome, events } = report;
    match outcome {
        Err(e) => Err(Error::DeploymentFailed(e)),
        Ok(ex) => {
            if ex.reverted {
                Err(Error::DeploymentReverted)
            } else {
                Ok(ContractResult { gas_consumed, gas_required, result: ex.value, events })
            }
        },
    }
}

/// The decoded message outcome that a raw decode of the returned payload
/// stands for: the caller's payload, or the contract's language-level
/// error under its code.
pub open spec fn message_result_of<T>(raw: Result<T, u32>) -> MessageResult<T> {
    match raw {
        Result::Ok(t) => Result::Ok(t),
        Result::Err(code) => Result::Err(LangError { code }),
    }
}

/// Relies on parity_scale_codec::Decode for Result<T, u32>: reads the
/// SCALE-encoded message outcome from the returned payload bytes, or
/// reports a descriptive error. The error string always carries a
/// non-empty prefix written here.
#[verifier::external_body]
fn decode_message<T: parity_scale_codec::Decode>(data: &[u8]) -> (r: Result<Result<T, u32>, String>)
    ensures
        r matches Err(m) ==> m@.len() > 0,
{
    match <Result<T, u32> as parity_scale_codec::Decode>::decode(&mut &data[..]) {
        Ok(v) => Ok(v),
        Err(e) => Err(format!("decoding contract response failed: {}", e)),
    }
}

/// Wraps a decoded message outcome into the result envelope, or reports
/// the decode failure.
///
/// Exactly: a successfully decoded outcome is returned in an envelope
/// carrying the given accounting and events unchanged; a decode failure
/// becomes [`Error::DecodingError`] carrying the decoder's message.
pub fn finish_call<T>(
    gas_consumed: Weight,
    gas_required: Weight,
    events: Vec<ContractEvent>,
    decoded: Result<Result<T, u32>, String>,
) -> (r: Result<ContractExecResult<MessageResult<T>>, Error>)
    ensures
        match decoded {
            Result::Ok(raw) => r matches Ok(cr) && cr.gas_consumed == gas_consumed
                && cr.gas_required == gas_required && cr.result == message_result_of(raw)
                && cr.events == events,
            Result::Err(m) => r == Err::<ContractExecResult<MessageResult<T>>, Error>(
                Error::DecodingError(m),
            ),
        },
{
    match decoded {
        Err(m) => Err(Error::DecodingError(m)),
        Ok(raw) => {
            let message = match raw {
                Ok(t) => Ok(t),
                Err(code) => Err(LangError { code }),
            };
            Ok(ContractResult { gas_consumed, gas_required, result: message, events })
        },
    }
}

/// Classifies the session's report of a contract call (state-mutating or
/// read-only) and decodes the returned payload.
///
/// A dispatch-level error becomes [`Error::CallFailed`] carrying that
/// error, and never a revert; a message trap becomes
/// [`Error::CallReverted`] with no partial envelope. Otherwise the payload
/// bytes are decoded into the caller-requested target: on success the
/// envelope carries the decoded outcome and the session's resource
/// accounting and events, order preserved; a malformed payload yields
/// [`Error::DecodingError`] with a non-empty message.
pub fn call_outcome<T: parity_scale_codec::Decode>(report: ExecutionReport<Vec<u8>>) -> (r: Result<
    ContractExecResult<MessageResult<T>>,
    Error,
>)
    ensures
        match report.outcome {
            Result::Err(e) => r == Err::<ContractExecResult<MessageResult<T>>, Error>(
                Error::CallFailed(e),
            ),
            Result::Ok(ex) => if ex.reverted {
                r == Err::<ContractExecResult<MessageResult<T>>, Error>(Error::CallReverted)
            } else {
                match r {
                    Result::Ok(cr) => cr.gas_consumed == report.gas_consumed && cr.gas_required
                        == report.gas_required && cr.events == report.events,
                    Result::Err(e2) => e2 matches Error::DecodingError(m) && m@.len() > 0,
                }
            },
        },
{
    let ExecutionReport { gas_consumed, gas_required, outcome, events } = report;
    match outcome {
        Err(e) => Err(Error::CallFailed(e)),
        Ok(ex) => {
            if ex.reverted {
                Err(Error::CallReverted)
            } else {
                let decoded = decode_message::<T>(ex.value.as_slice());
                finish_call(gas_consumed, gas_required, events, decoded)
            }
        },
    }
}

/// Law: the two-tier failure surface of instantiation, over every result
/// `r` that [`instantiate_outcome`] can return. Where dispatch cannot
/// proceed, `r` is `DeploymentFailed` carrying the original dispatch
/// error, and never `DeploymentReverted`. Where dispatch succeeds but the
/// constructor traps, `r` is `DeploymentReverted`, with no partial
/// envelope returned.
pub proof fn lemma_instantiate_failure_surface<A>(
    report: ExecutionReport<A>,
    r: Result<ContractInstantiateResult<A>, Error>,
)
    requires
        call_ensures(instantiate_outcome::<A>, (report,), r),
    ensures
        report.outcome matches Err(e) ==> r == Err::<ContractInstantiateResult<A>, Error>(
            Error::DeploymentFailed(e),
        ) && r != Err::<ContractInstantiateResult<A>, Error>(Error::DeploymentReverted),
        report.outcome matches Ok(ex) && ex.reverted ==> r is Err && r == Err::<
            ContractInstantiateResult<A>,
            Error,
        >(Error::DeploymentReverted),
{
}

/// Law: the two-tier failure surface of a contract call, over every result
/// `r` that [`call_outcome`] can return. Where dispatch cannot proceed,
/// `r` is `CallFailed` carrying the original dispatch error, and never
/// `CallReverted`. Where dispatch succeeds but the message traps, `r` is
/// `CallReverted`, with no partial envelope returned.
pub proof fn lemma_call_failure_surface<T: parity_scale_codec::Decode>(
    report: ExecutionReport<Vec<u8>>,
    r: Result<ContractExecResult<MessageResult<T>>, Error>,
)
    requires
        call_ensures(call_outcome::<T>, (report,), r),
    ensures
        report.outcome matches Err(e) ==> r == Err::<ContractExecResult<MessageResult<T>>, Error>(
            Error::CallFailed(e),
        ) && r != Err::<ContractExecResult<MessageResult<T>>, Error>(Error::CallReverted),
        report.outcome matches Ok(ex) && ex.reverted ==> r is Err && r == Err::<
            ContractExecResult<MessageResult<T>>,
            Error,
        >(Error::CallReverted),
{
}

/// Whether two byte strings hold the same bytes.
fn bytes_equal(a: &Vec<u8>, b: &Vec<u8>) -> (r: bool)
    ensures
        r <==> a@ == b@,
{
    if a.len() != b.len() {
        return false;
    }
    let mut i: usize = 0;
    while i < a.len()
        invariant
            0 <= i <= a.len(),
            a.len() == b.len(),
            forall|j: int| 0 <= j < i ==> a@[j] == b@[j],
        decreases a.len() - i,
    {
        if a[i] != b[i] {
            return false;
        }
        i = i + 1;
    }
    proof {
        assert(a@ =~= b@);
    }
    true
}

/// Checks a computed code hash against the hash a caller expects.
///
/// Exactly: with no expectation the check passes; with one, it passes when
/// the bytes agree and yields [`Error::CodeHashMismatch`] when they do
/// not.
pub fn check_code_hash(computed: &Vec<u8>, expected: &Option<Vec<u8>>) -> (r: Result<(), Error>)
    ensures
        match *expected {
            Option::None => r == Ok::<(), Error>(()),
            Option::Some(h) => if h@ == computed@ {
                r == Ok::<(), Error>(())
            } else {
                r == Err::<(), Error>(Error::CodeHashMismatch)
            },
        },
{
    match expected {
        None => Ok(()),
        Some(h) => {
            if bytes_equal(computed, h) {
                Ok(())
            } else {
                Err(Error::CodeHashMismatch)
            }
        },
    }
}

} // verus!
