//! The gas estimator: decides which weight a submission carries. With
//! `skip_dry_run`, both components must be explicit and no simulation
//! happens; otherwise one simulation supplies the estimate, and each
//! axis independently prefers the explicit value when present.

use vstd::prelude::*;
use crate::outcome::{DispatchFailure, SimulationOutcome};
use crate::request::ExecutionMode;
use crate::weight::Weight;

verus! {

pub enum EstimationError {
    /// `skip_dry_run` without both explicit weight components.
    MissingExplicitWeight,
    /// The dry run's execution failed; the failure is fatal to the
    /// command and no weight is derived from such a simulation.
    SimulationFailed { failure: DispatchFailure },
}

/// The weight a submission carries once a simulation estimate is known:
/// each axis independently takes the explicit value when present, else
/// the simulation's estimate for that axis.
pub open spec fn spec_resolved_weight(
    gas_limit: Option<u64>,
    proof_size: Option<u64>,
    required: Weight,
) -> Weight {
    Weight {
        ref_time: if gas_limit is Some {
            gas_limit->0
        } else {
            required.ref_time
        },
        proof_size: if proof_size is Some {
            proof_size->0
        } else {
            required.proof_size
        },
    }
}

/// Combines explicit per-axis overrides with a simulation's estimate.
pub fn resolve_weight(gas_limit: Option<u64>, proof_size: Option<u64>, required: Weight) -> (w:
    Weight)
    ensures
        w == spec_resolved_weight(gas_limit, proof_size, required),
{
    let ref_time = match gas_limit {
        Some(t) => t,
        None => required.ref_time,
    };
    let proof = match proof_size {
        Some(p) => p,
        None => required.proof_size,
    };
    Weight { ref_time, proof_size: proof }
}

/// Each axis independently prefers the explicit value: overrides are
/// per-axis, not all-or-nothing. In particular an explicit time with an
/// absent proof size resolves to the explicit time and the estimated
/// proof size.
pub proof fn lemma_per_axis_override(t_explicit: u64, required: Weight)
    ensures
        spec_resolved_weight(Some(t_explicit), None::<u64>, required) == (Weight {
            ref_time: t_explicit,
            proof_size: required.proof_size,
        }),
{
}

/// What the estimator decides before any network interaction: either
/// the weight is already fully explicit (`Some`), or a simulation is
/// required (`None`), or the flag combination is invalid.
pub fn pre_simulation_weight(mode: ExecutionMode, gas_limit: Option<u64>, proof_size: Option<u64>)
    -> (r: Result<Option<Weight>, EstimationError>)
    ensures
        mode is SkipDryRunSubmit && gas_limit is Some && proof_size is Some ==> r == Ok::<
            Option<Weight>,
            EstimationError,
        >(Some(Weight { ref_time: gas_limit->0, proof_size: proof_size->0 })),
        mode is SkipDryRunSubmit && !(gas_limit is Some && proof_size is Some) ==> r == Err::<
            Option<Weight>,
            EstimationError,
        >(EstimationError::MissingExplicitWeight),
        !(mode is SkipDryRunSubmit) ==> r == Ok::<Option<Weight>, EstimationError>(None),
{
    match mode {
        ExecutionMode::SkipDryRunSubmit => {
            match (gas_limit, proof_size) {
                (Some(ref_time), Some(proof)) => Ok(
                    Some(Weight { ref_time, proof_size: proof }),
                ),
                _ => Err(EstimationError::MissingExplicitWeight),
            }
        },
        _ => Ok(None),
    }
}

/// Turns a finished simulation into the submission weight. A failed
/// execution never yields a weight.
pub fn weight_from_simulation(
    gas_limit: Option<u64>,
    proof_size: Option<u64>,
    outcome: SimulationOutcome,
) -> (r: Result<Weight, EstimationError>)
    ensures
        outcome.execution is Err ==> r == Err::<Weight, EstimationError>(
            EstimationError::SimulationFailed { failure: outcome.execution->Err_0 },
        ),
        outcome.execution is Ok ==> r == Ok::<Weight, EstimationError>(
            spec_resolved_weight(gas_limit, proof_size, outcome.gas_required),
        ),
{
    match outcome.execution {
        Ok(_) => Ok(resolve_weight(gas_limit, proof_size, outcome.gas_required)),
        Err(failure) => Err(EstimationError::SimulationFailed { failure }),
    }
}

} // verus!
