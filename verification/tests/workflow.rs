//! End-to-end walks through the orchestrator's state machine.

use contract_workflow::errors::CommandError;
use contract_workflow::orchestrator::{step, Action, Event, Stage, Termination};
use contract_workflow::outcome::{
    DispatchFailure, EventsRendering, ExecutionValue, SimulationOutcome, StorageDeposit,
    SubmissionOutcome,
};
use contract_workflow::report::{render_error, render_report, Report};
use contract_workflow::request::{CodeSource, InvocationRequest, OutputMode, RequestKind};
use contract_workflow::weight::Weight;

fn call_request(
    gas_limit: Option<u64>,
    proof_size: Option<u64>,
    execute: bool,
    skip_dry_run: bool,
    skip_confirm: bool,
    output_json: bool,
) -> InvocationRequest {
    InvocationRequest::build(
        RequestKind::Call {
            contract: String::from("5GrwvaEF5zXb26Fz9rcQpDWS57CtERHpNehXCPcNoHGKutQY"),
            message: String::from("transfer"),
        },
        vec![String::from("dest"), String::from("100")],
        0,
        gas_limit,
        proof_size,
        execute,
        skip_dry_run,
        skip_confirm,
        output_json,
        false,
    )
    .unwrap()
}

fn instantiate_request(execute: bool, skip_confirm: bool, output_json: bool) -> InvocationRequest {
    InvocationRequest::build(
        RequestKind::Instantiate {
            constructor: String::from("new"),
            salt: None,
            code: CodeSource::Existing { code_hash: vec![0xaa, 0xbb] },
        },
        vec![String::from("true")],
        0,
        None,
        None,
        execute,
        false,
        skip_confirm,
        output_json,
        false,
    )
    .unwrap()
}

fn ok_simulation(reverted: bool, data: Vec<u8>, required: (u64, u64)) -> SimulationOutcome {
    SimulationOutcome {
        execution: Ok(ExecutionValue { reverted, data }),
        gas_consumed: Weight { ref_time: 7, proof_size: 3 },
        gas_required: Weight { ref_time: required.0, proof_size: required.1 },
        storage_deposit: StorageDeposit::Charge { amount: 0 },
    }
}

fn failed_simulation() -> SimulationOutcome {
    SimulationOutcome {
        execution: Err(DispatchFailure { raw: vec![1, 2, 3] }),
        gas_consumed: Weight { ref_time: 7, proof_size: 3 },
        gas_required: Weight { ref_time: 0, proof_size: 0 },
        storage_deposit: StorageDeposit::Charge { amount: 0 },
    }
}

#[test]
fn scenario_call_dry_run_reports_without_submission() {
    let req = call_request(None, None, false, false, false, true);
    let out = step(&req, Stage::Built, Event::Start);
    assert!(matches!(out.action, Action::Simulate));

    let outcome = ok_simulation(false, vec![42], (100, 10));
    let out = step(&req, out.stage, Event::Simulated { outcome });
    assert!(matches!(out.action, Action::DecodeReturn));

    let out = step(
        &req,
        out.stage,
        Event::ReturnDecoded { result: Ok(String::from("42")) },
    );
    assert!(matches!(out.action, Action::Finish));
    match out.stage {
        Stage::Done { termination: Termination::Success { report } } => {
            match &report {
                Report::CallDryRun { report: r } => {
                    assert!(!r.reverted);
                    assert_eq!(r.data, "42");
                    assert_eq!(r.gas_required, Weight { ref_time: 100, proof_size: 10 });
                },
                _ => panic!("expected a call dry-run report"),
            }
            let json = render_report(&report, OutputMode::Json);
            let v: serde_json::Value = serde_json::from_str(&json).unwrap();
            assert_eq!(v["reverted"], serde_json::Value::Bool(false));
            assert_eq!(v["data"], serde_json::Value::String(String::from("42")));
            assert_eq!(v["gas_required"]["ref_time"].as_u64(), Some(100));
            assert_eq!(v["gas_consumed"]["proof_size"].as_u64(), Some(3));
        },
        _ => panic!("expected a successful termination"),
    }
}

#[test]
fn scenario_skip_dry_run_without_weight_fails_before_any_network_call() {
    let req = call_request(None, Some(10), true, true, false, false);
    let out = step(&req, Stage::Built, Event::Start);
    assert!(matches!(out.action, Action::Finish));
    assert!(matches!(
        out.stage,
        Stage::Done { termination: Termination::Failed { error: CommandError::MissingExplicitWeight } }
    ));
}

#[test]
fn scenario_skip_dry_run_with_both_weights_submits_directly() {
    let req = call_request(Some(500), Some(50), true, true, true, false);
    let out = step(&req, Stage::Built, Event::Start);
    match out.action {
        Action::Submit { gas } => {
            assert_eq!(gas, Weight { ref_time: 500, proof_size: 50 });
        },
        _ => panic!("expected an immediate submission"),
    }
}

#[test]
fn scenario_declined_confirmation_cancels_cleanly() {
    let req = instantiate_request(true, false, false);
    let out = step(&req, Stage::Built, Event::Start);
    assert!(matches!(out.action, Action::Simulate));

    let outcome = ok_simulation(false, vec![], (200, 20));
    let out = step(&req, out.stage, Event::Simulated { outcome });
    match &out.action {
        Action::Prompt { gas } => {
            assert_eq!(*gas, Weight { ref_time: 200, proof_size: 20 });
        },
        _ => panic!("expected the confirmation prompt"),
    }

    let out = step(&req, out.stage, Event::Confirmed { approved: false });
    assert!(matches!(out.action, Action::Finish));
    assert!(matches!(
        out.stage,
        Stage::Done { termination: Termination::Cancelled }
    ));
}

#[test]
fn scenario_failed_simulation_propagates_decoded_object_and_never_submits() {
    let req = call_request(None, None, true, false, false, true);
    let out = step(&req, Stage::Built, Event::Start);
    assert!(matches!(out.action, Action::Simulate));
    assert!(out.notice.is_none());

    let out = step(&req, out.stage, Event::Simulated { outcome: failed_simulation() });
    assert!(matches!(out.action, Action::DecodeDispatchError));

    let object = String::from("{\"ModuleError\":{\"pallet\":\"Contracts\",\"error\":\"OutOfGas\"}}");
    let out = step(&req, out.stage, Event::ErrorDecoded { object: object.clone() });
    assert!(matches!(out.action, Action::Finish));
    match out.stage {
        Stage::Done { termination: Termination::Failed { error } } => {
            let rendered = render_error(&error, OutputMode::Json);
            assert_eq!(rendered, object);
        },
        _ => panic!("expected a failed termination"),
    }
}

#[test]
fn scenario_instantiate_existing_code_reports_no_code_hash() {
    let req = instantiate_request(true, true, true);
    let out = step(&req, Stage::Built, Event::Start);

    let outcome = ok_simulation(false, vec![], (200, 20));
    let out = step(&req, out.stage, Event::Simulated { outcome });
    assert!(matches!(out.action, Action::Submit { .. }));

    let submission = SubmissionOutcome::Instantiate {
        contract: String::from("5FHneW46xGXgs5mUiveU4sbTyGBzmstUspZC92UhjJM694ty"),
        code_hash: None,
        events: EventsRendering {
            json: String::from("[]"),
            human: String::from("Event Contracts:Instantiated\n"),
        },
    };
    let out = step(&req, out.stage, Event::Submitted { result: Ok(submission) });
    match out.stage {
        Stage::Done { termination: Termination::Success { report } } => {
            let json = render_report(&report, OutputMode::Json);
            let v: serde_json::Value = serde_json::from_str(&json).unwrap();
            let obj = v.as_object().unwrap();
            assert!(!obj.contains_key("code_hash"));
            assert_eq!(
                v["contract"],
                serde_json::Value::String(String::from(
                    "5FHneW46xGXgs5mUiveU4sbTyGBzmstUspZC92UhjJM694ty"
                ))
            );
            assert_eq!(v["events"], serde_json::Value::Array(vec![]));
        },
        _ => panic!("expected a successful termination"),
    }
}

#[test]
fn instantiate_with_new_code_reports_code_hash() {
    let req = instantiate_request(true, true, true);
    let out = step(&req, Stage::Built, Event::Start);
    let out = step(
        &req,
        out.stage,
        Event::Simulated { outcome: ok_simulation(false, vec![], (1, 1)) },
    );
    assert!(matches!(out.action, Action::Submit { .. }));
    let submission = SubmissionOutcome::Instantiate {
        contract: String::from("5FHneW46xGXgs5mUiveU4sbTyGBzmstUspZC92UhjJM694ty"),
        code_hash: Some(vec![0x01, 0xab]),
        events: EventsRendering { json: String::from("[]"), human: String::new() },
    };
    let out = step(&req, out.stage, Event::Submitted { result: Ok(submission) });
    match out.stage {
        Stage::Done { termination: Termination::Success { report } } => {
            let json = render_report(&report, OutputMode::Json);
            let v: serde_json::Value = serde_json::from_str(&json).unwrap();
            assert_eq!(v["code_hash"], serde_json::Value::String(String::from("0x01ab")));
        },
        _ => panic!("expected a successful termination"),
    }
}

#[test]
fn revert_is_reported_as_success_with_reverted_true() {
    let req = call_request(None, None, false, false, false, true);
    let out = step(&req, Stage::Built, Event::Start);
    let outcome = ok_simulation(true, vec![0], (5, 5));
    let out = step(&req, out.stage, Event::Simulated { outcome });
    let out = step(
        &req,
        out.stage,
        Event::ReturnDecoded { result: Ok(String::from("Err(Overflow)")) },
    );
    match out.stage {
        Stage::Done { termination } => match termination {
            Termination::Success { report } => {
                let json = render_report(&report, OutputMode::Json);
                let v: serde_json::Value = serde_json::from_str(&json).unwrap();
                assert_eq!(v["reverted"], serde_json::Value::Bool(true));
            },
            _ => panic!("a revert must not end the command in failure"),
        },
        _ => panic!("expected a terminal stage"),
    }
}

#[test]
fn estimation_notices_are_present_in_human_mode_and_suppressed_in_json() {
    let human_req = call_request(None, None, true, false, true, false);
    let out = step(&human_req, Stage::Built, Event::Start);
    assert!(out.notice.is_some());
    let out = step(
        &human_req,
        out.stage,
        Event::Simulated { outcome: ok_simulation(false, vec![], (9, 9)) },
    );
    assert!(out.notice.is_some());

    let json_req = call_request(None, None, true, false, true, true);
    let out = step(&json_req, Stage::Built, Event::Start);
    assert!(out.notice.is_none());
    let out = step(
        &json_req,
        out.stage,
        Event::Simulated { outcome: ok_simulation(false, vec![], (9, 9)) },
    );
    assert!(out.notice.is_none());
}

#[test]
fn estimate_confirm_submit_call_with_per_axis_override() {
    let req = call_request(Some(7), None, true, false, false, false);
    let out = step(&req, Stage::Built, Event::Start);
    assert!(matches!(out.action, Action::Simulate));

    let out = step(
        &req,
        out.stage,
        Event::Simulated { outcome: ok_simulation(false, vec![], (100, 10)) },
    );
    match &out.action {
        Action::Prompt { gas } => {
            assert_eq!(*gas, Weight { ref_time: 7, proof_size: 10 });
        },
        _ => panic!("expected the confirmation prompt"),
    }

    let out = step(&req, out.stage, Event::Confirmed { approved: true });
    match &out.action {
        Action::Submit { gas } => {
            assert_eq!(*gas, Weight { ref_time: 7, proof_size: 10 });
        },
        _ => panic!("expected the submission"),
    }

    let submission = SubmissionOutcome::Call {
        events: EventsRendering {
            json: String::from("[{\"name\":\"Transfer\"}]"),
            human: String::from("Event Balances:Transfer\n"),
        },
    };
    let out = step(&req, out.stage, Event::Submitted { result: Ok(submission) });
    match out.stage {
        Stage::Done { termination: Termination::Success { report } } => {
            assert_eq!(
                render_report(&report, OutputMode::Human),
                "Event Balances:Transfer\n"
            );
            assert_eq!(
                render_report(&report, OutputMode::Json),
                "[{\"name\":\"Transfer\"}]"
            );
        },
        _ => panic!("expected a successful termination"),
    }
}

#[test]
fn transport_failure_during_simulation_is_a_local_error() {
    let req = call_request(None, None, true, false, false, false);
    let out = step(&req, Stage::Built, Event::Start);
    let out = step(
        &req,
        out.stage,
        Event::SimulationUnavailable { message: String::from("connection refused") },
    );
    match out.stage {
        Stage::Done { termination: Termination::Failed { error } } => {
            let rendered = render_error(&error, OutputMode::Human);
            assert_eq!(rendered, "connection refused\n");
        },
        _ => panic!("expected a failed termination"),
    }
}
