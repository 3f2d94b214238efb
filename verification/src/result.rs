//! The outcome envelope for a contract interaction that actually executed,
//! whether it succeeded or reverted at the contract level.
//!
//! A [`ContractResult`] is only constructed when the underlying session
//! actually ran the operation; session-level failures never produce one —
//! they produce an [`crate::error::Error`] instead.

use vstd::prelude::*;
use vstd::pervasive::cloned;
use crate::chain::ContractEvent;
use crate::chain::Weight;

verus! {

/// The outcome of a contract interaction that executed: resource
/// accounting, the operation-specific payload, and the events emitted
/// during execution, in emission order.
#[derive(Debug)]
pub struct ContractResult<R> {
    /// Resources actually consumed by the execution.
    pub gas_consumed: Weight,
    /// Resources the execution would have required at minimum.
    pub gas_required: Weight,
    /// The operation-specific payload: the new account for instantiation,
    /// a decoded message result for a call.
    pub result: R,
    /// Events emitted during execution, order-preserving, opaque here.
    pub events: Vec<ContractEvent>,
}

/// Field-for-field agreement of two events: same origin account bytes and
/// same payload bytes.
pub open spec fn event_like(a: ContractEvent, b: ContractEvent) -> bool {
    a.account@ == b.account@ && a.data@ == b.data@
}

/// Pointwise agreement of two event sequences: same length, and the events
/// agree position by position — cloning preserves emission order.
pub open spec fn events_like(a: Seq<ContractEvent>, b: Seq<ContractEvent>) -> bool {
    a.len() == b.len() && forall|i: int| 0 <= i < a.len() ==> event_like(a[i], #[trigger] b[i])
}

impl<R: Clone> Clone for ContractResult<R> {
    fn clone(&self) -> (res: Self)
        ensures
            res.gas_consumed == self.gas_consumed,
            res.gas_required == self.gas_required,
            cloned::<R>(self.result, res.result),
            events_like(self.events@, res.events@),
    {
        let res = ContractResult {
            gas_consumed: self.gas_consumed,
            gas_required: self.gas_required,
            result: self.result.clone(),
            events: self.events.clone(),
        };
        proof {
            assert forall|i: int| 0 <= i < self.events@.len() implies event_like(
                self.events@[i],
                #[trigger] res.events@[i],
            ) by {
                assert(cloned::<ContractEvent>(self.events@[i], res.events@[i]));
            }
        }
        res
    }
}

/// The envelope specialized to instantiation: the payload is the new
/// contract's account identifier.
pub type ContractInstantiateResult<AccountId> = ContractResult<AccountId>;

/// The envelope specialized to a state-mutating call.
pub type ContractExecResult<R> = ContractResult<R>;

/// The envelope specialized to a read-only call.
pub type ContractReadResult<R> = ContractResult<R>;

} // verus!
