//! What the chain-client collaborators hand back: the outcome of a
//! simulation (dry run) and the outcome of a real submission.

use vstd::prelude::*;
use crate::weight::Weight;

verus! {

/// A successfully dispatched execution. The contract's own logic may
/// still have reverted; dispatch success and revert are orthogonal and
/// both are surfaced.
pub struct ExecutionValue {
    pub reverted: bool,
    /// The raw return bytes, decoded later by the transcoder.
    pub data: Vec<u8>,
}

/// A failure of the chain's execution layer, opaque until decoded
/// against the chain's type metadata by the chain-client collaborator.
pub struct DispatchFailure {
    pub raw: Vec<u8>,
}

/// Balance the chain holds against storage the invocation created or
/// gives back for storage it freed.
pub enum StorageDeposit {
    Refund { amount: u128 },
    Charge { amount: u128 },
}

/// The outcome of one dry run against current chain state.
pub struct SimulationOutcome {
    pub execution: Result<ExecutionValue, DispatchFailure>,
    pub gas_consumed: Weight,
    pub gas_required: Weight,
    pub storage_deposit: StorageDeposit,
}

/// The two renderings of the events of a submitted transaction, as the
/// external event-display collaborator produced them.
pub struct EventsRendering {
    /// The collaborator's machine-readable JSON document.
    pub json: String,
    /// The collaborator's human-readable listing.
    pub human: String,
}

/// What a successful submission produced.
pub enum SubmissionOutcome {
    Call { events: EventsRendering },
    Instantiate {
        /// The address of the new contract.
        contract: String,
        /// The hash of the deployed code; absent when the code already
        /// existed on chain.
        code_hash: Option<Vec<u8>>,
        events: EventsRendering,
    },
}

/// What the transaction-build collaborator decodes out of an
/// instantiation dry run, beyond the simulation outcome itself.
pub struct InstantiateDecode {
    /// The decoded constructor return value.
    pub return_value: String,
    /// The address the new contract would get.
    pub contract: String,
}

} // verus!
