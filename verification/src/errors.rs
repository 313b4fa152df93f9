//! The failure taxonomy of one command. Configuration and transport
//! errors are local and rendered as plain messages; a dispatch failure
//! is always decoded against chain type metadata before it is rendered,
//! and a local error is never decoded as one. A revert and a declined
//! confirmation are not errors and do not appear here.

use vstd::prelude::*;
use crate::outcome::StorageDeposit;
use crate::weight::Weight;

verus! {

/// During which step of the workflow a dispatch failure surfaced.
#[derive(Clone, Copy, PartialEq, Eq, Structural, Debug)]
pub enum Phase {
    /// A dry run whose report was the whole point of the command.
    DryRun,
    /// The pre-submission dry run that estimates the weight.
    Estimation,
}

pub enum CommandError {
    /// `skip_dry_run` was set without both explicit weight components.
    /// Raised before any network interaction.
    MissingExplicitWeight,
    /// A connection, query or request-build failure. Local: never
    /// decoded against chain metadata.
    Transport { message: String },
    /// The transcoder could not decode a return value. Local: never
    /// decoded against chain metadata.
    DecodeFailed { message: String },
    /// The chain's execution layer rejected the simulated extrinsic.
    /// `object` is the failure decoded against the chain's type
    /// metadata; the weights and deposit are the simulation's partial
    /// summary, shown beside the error in human output.
    DispatchFailed {
        object: String,
        phase: Phase,
        gas_consumed: Weight,
        gas_required: Weight,
        storage_deposit: StorageDeposit,
    },
}

} // verus!
