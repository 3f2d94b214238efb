//! Caller-supplied descriptors for the four contract-lifecycle operations.
//!
//! Each descriptor bundles what the execution session needs to attempt one
//! operation. The descriptors are opaque to the interface: it forwards
//! them to the session and classifies the outcome, without interpreting
//! selector or argument bytes.

use vstd::prelude::*;
use core::marker::PhantomData;

verus! {

/// Describes a code upload: the compiled contract code, and optionally the
/// code hash the uploader expects the runtime to compute for it.
pub struct UploadCall {
    /// The compiled contract code to submit.
    pub code: Vec<u8>,
    /// The code hash the uploader expects, as bytes, if it wants the
    /// upload rejected on a mismatch.
    pub expected_code_hash: Option<Vec<u8>>,
}

/// Describes an instantiation: which uploaded code to instantiate, the
/// constructor selector and arguments, funding, and a salt that
/// disambiguates otherwise identical instances. `T` is the caller-side
/// handle type the new instance will be addressed through.
pub struct InstantiateCall<T> {
    /// Hash of the uploaded code to instantiate, as bytes.
    pub code_hash: Vec<u8>,
    /// Constructor selector and SCALE-encoded arguments.
    pub data: Vec<u8>,
    /// Funds endowed to the new contract.
    pub value: u128,
    /// Disambiguates instances of the same code and constructor.
    pub salt: Vec<u8>,
    /// The caller-side contract-handle type.
    pub handle: PhantomData<T>,
}

/// Describes a state-mutating call: the target contract, the message
/// selector and arguments, and funds transferred with the call. `T` is the
/// type the returned payload is decoded into.
pub struct ExecCall<T> {
    /// The target contract's account identifier, as bytes.
    pub account: Vec<u8>,
    /// Message selector and SCALE-encoded arguments.
    pub data: Vec<u8>,
    /// Funds transferred with the call.
    pub value: u128,
    /// The decode target for the returned payload.
    pub decode_target: PhantomData<T>,
}

/// Describes a read-only call: like [`ExecCall`], but the session must
/// discard any state mutation after evaluating it.
pub struct ReadCall<T> {
    /// The target contract's account identifier, as bytes.
    pub account: Vec<u8>,
    /// Message selector and SCALE-encoded arguments.
    pub data: Vec<u8>,
    /// The decode target for the returned payload.
    pub decode_target: PhantomData<T>,
}

} // verus!
