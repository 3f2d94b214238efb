//! A uniform abstraction for driving a smart-contract execution backend:
//! uploading compiled contract code, instantiating contracts, invoking
//! state-mutating calls and performing read-only calls, all against a
//! runtime that exposes account, weight and dispatch-error concepts.
//!
//! The core is the [`connection::Connection`] capability interface: four
//! contract-lifecycle operations unified by the [`result::ContractResult`]
//! envelope and the closed [`error::Error`] taxonomy, which normalizes
//! failures from an underlying execution session into a small set of
//! outcomes. The session itself is an external collaborator; this crate
//! only orchestrates calls against it and classifies the outcome.

pub mod calls;
pub mod chain;
pub mod connection;
pub mod error;
pub mod outcome;
pub mod result;

pub use calls::ExecCall;
pub use calls::InstantiateCall;
pub use calls::ReadCall;
pub use calls::UploadCall;
pub use chain::ChainConfig;
pub use chain::ContractEvent;
pub use chain::DispatchError;
pub use chain::LangError;
pub use chain::MessageResult;
pub use chain::SessionError;
pub use chain::Weight;
pub use connection::Connection;
pub use error::Error;
pub use result::ContractExecResult;
pub use result::ContractInstantiateResult;
pub use result::ContractReadResult;
pub use result::ContractResult;
