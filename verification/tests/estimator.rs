//! The gas estimator's decision logic on concrete inputs.

use contract_workflow::estimator::{
    pre_simulation_weight, resolve_weight, weight_from_simulation, EstimationError,
};
use contract_workflow::outcome::{
    DispatchFailure, ExecutionValue, SimulationOutcome, StorageDeposit,
};
use contract_workflow::request::ExecutionMode;
use contract_workflow::weight::Weight;

fn simulation(execution_ok: bool, required: (u64, u64)) -> SimulationOutcome {
    SimulationOutcome {
        execution: if execution_ok {
            Ok(ExecutionValue { reverted: false, data: vec![] })
        } else {
            Err(DispatchFailure { raw: vec![9] })
        },
        gas_consumed: Weight { ref_time: 1, proof_size: 1 },
        gas_required: Weight { ref_time: required.0, proof_size: required.1 },
        storage_deposit: StorageDeposit::Refund { amount: 2 },
    }
}

#[test]
fn skip_dry_run_with_missing_gas_fails_without_simulation() {
    let r = pre_simulation_weight(ExecutionMode::SkipDryRunSubmit, None, Some(10));
    assert!(matches!(r, Err(EstimationError::MissingExplicitWeight)));
}

#[test]
fn skip_dry_run_with_missing_proof_size_fails_without_simulation() {
    let r = pre_simulation_weight(ExecutionMode::SkipDryRunSubmit, Some(10), None);
    assert!(matches!(r, Err(EstimationError::MissingExplicitWeight)));
}

#[test]
fn skip_dry_run_with_both_components_is_fully_explicit() {
    let r = pre_simulation_weight(ExecutionMode::SkipDryRunSubmit, Some(10), Some(20));
    match r {
        Ok(Some(w)) => assert_eq!(w, Weight { ref_time: 10, proof_size: 20 }),
        _ => panic!("expected the explicit weight"),
    }
}

#[test]
fn other_modes_require_a_simulation() {
    assert!(matches!(
        pre_simulation_weight(ExecutionMode::DryRunOnly, Some(1), Some(2)),
        Ok(None)
    ));
    assert!(matches!(
        pre_simulation_weight(ExecutionMode::EstimateThenSubmit, None, None),
        Ok(None)
    ));
}

#[test]
fn per_axis_override_takes_explicit_time_and_estimated_proof_size() {
    let w = resolve_weight(Some(7), None, Weight { ref_time: 100, proof_size: 10 });
    assert_eq!(w, Weight { ref_time: 7, proof_size: 10 });
}

#[test]
fn per_axis_override_takes_estimated_time_and_explicit_proof_size() {
    let w = resolve_weight(None, Some(8), Weight { ref_time: 100, proof_size: 10 });
    assert_eq!(w, Weight { ref_time: 100, proof_size: 8 });
}

#[test]
fn without_overrides_the_estimate_is_used_whole() {
    let w = resolve_weight(None, None, Weight { ref_time: 100, proof_size: 10 });
    assert_eq!(w, Weight { ref_time: 100, proof_size: 10 });
}

#[test]
fn with_both_overrides_the_estimate_is_ignored() {
    let w = resolve_weight(Some(1), Some(2), Weight { ref_time: 100, proof_size: 10 });
    assert_eq!(w, Weight { ref_time: 1, proof_size: 2 });
}

#[test]
fn successful_simulation_yields_the_resolved_weight() {
    let r = weight_from_simulation(Some(7), None, simulation(true, (100, 10)));
    match r {
        Ok(w) => assert_eq!(w, Weight { ref_time: 7, proof_size: 10 }),
        _ => panic!("expected a weight"),
    }
}

#[test]
fn failed_simulation_never_yields_a_weight() {
    let r = weight_from_simulation(Some(7), Some(8), simulation(false, (100, 10)));
    match r {
        Err(EstimationError::SimulationFailed { failure }) => assert_eq!(failure.raw, vec![9]),
        _ => panic!("expected the simulation failure"),
    }
}
