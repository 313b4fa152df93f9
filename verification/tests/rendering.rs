//! Exact expected output of the text and report rendering.

use contract_workflow::confirm::is_affirmative;
use contract_workflow::errors::{CommandError, Phase};
use contract_workflow::outcome::StorageDeposit;
use contract_workflow::report::{
    confirm_question, notice_text, render_error, render_preview, render_report,
    CallDryRunResult, InstantiateDryRunResult, Notice, Report,
};
use contract_workflow::request::{
    BuildError, CodeSource, InvocationRequest, OutputMode, RequestKind,
};
use contract_workflow::text::{
    dec_u128, dec_u64, decode_hex, hex_0x, join_spaces, json_escape, name_value_line, HexError,
};
use contract_workflow::weight::Weight;

#[test]
fn decimal_rendering() {
    assert_eq!(dec_u128(0), "0");
    assert_eq!(dec_u128(7), "7");
    assert_eq!(dec_u128(12345), "12345");
    assert_eq!(dec_u64(u64::MAX), "18446744073709551615");
    assert_eq!(dec_u128(u128::MAX), "340282366920938463463374607431768211455");
}

#[test]
fn hex_rendering() {
    assert_eq!(hex_0x(&vec![]), "0x");
    assert_eq!(hex_0x(&vec![0x01, 0xab, 0x00]), "0x01ab00");
}

#[test]
fn hex_decoding() {
    assert_eq!(decode_hex("0x01ab"), Ok(vec![0x01, 0xab]));
    assert_eq!(decode_hex("01AB"), Ok(vec![0x01, 0xab]));
    assert_eq!(decode_hex(""), Ok(vec![]));
    assert_eq!(decode_hex("0x"), Ok(vec![]));
    assert_eq!(decode_hex("0x1"), Err(HexError::OddLength));
    assert_eq!(decode_hex("zz"), Err(HexError::InvalidDigit));
    assert_eq!(decode_hex("0xz"), Err(HexError::OddLength));
    assert_eq!(decode_hex("zz0x"), Err(HexError::InvalidDigit));
    assert_eq!(decode_hex(&hex_0x(&vec![1, 2, 250])), Ok(vec![1, 2, 250]));
}

#[test]
fn conflicting_output_flags_are_rejected_at_construction() {
    let r = InvocationRequest::build(
        RequestKind::Call { contract: String::from("5Grw"), message: String::from("get") },
        vec![],
        0,
        None,
        None,
        false,
        false,
        false,
        true,
        true,
    );
    assert!(matches!(r, Err(BuildError::ConflictingOutputFlags)));
}

#[test]
fn json_escaping() {
    assert_eq!(json_escape("plain"), "plain");
    assert_eq!(json_escape("a\"b"), "a\\\"b");
    assert_eq!(json_escape("a\\b"), "a\\\\b");
    assert_eq!(json_escape("a\nb\tc\rd"), "a\\nb\\tc\\rd");
    assert_eq!(json_escape("\u{01}"), "\\u0001");
}

#[test]
fn label_value_lines() {
    assert_eq!(name_value_line("Result", "42", 12), "      Result 42\n");
    assert_eq!(name_value_line("Storage deposit", "x", 12), "Storage deposit x\n");
}

#[test]
fn joining_arguments() {
    assert_eq!(join_spaces(&vec![]), "");
    assert_eq!(join_spaces(&vec![String::from("a")]), "a");
    assert_eq!(
        join_spaces(&vec![String::from("a"), String::from("b"), String::from("c")]),
        "a b c"
    );
}

#[test]
fn weight_rendering() {
    let w = Weight { ref_time: 100, proof_size: 10 };
    assert_eq!(w.display(), "Weight(ref_time: 100, proof_size: 10)");
    assert_eq!(w.to_json(), "{\"ref_time\":100,\"proof_size\":10}");
    let v: serde_json::Value = serde_json::from_str(&w.to_json()).unwrap();
    assert_eq!(v["ref_time"].as_u64(), Some(100));
}

fn call_dry_run() -> CallDryRunResult {
    CallDryRunResult {
        reverted: false,
        data: String::from("42"),
        gas_consumed: Weight { ref_time: 7, proof_size: 3 },
        gas_required: Weight { ref_time: 100, proof_size: 10 },
        storage_deposit: StorageDeposit::Charge { amount: 500 },
    }
}

#[test]
fn call_dry_run_json_document() {
    let json = call_dry_run().to_json();
    assert_eq!(
        json,
        "{\"reverted\":false,\"data\":\"42\",\
         \"gas_consumed\":{\"ref_time\":7,\"proof_size\":3},\
         \"gas_required\":{\"ref_time\":100,\"proof_size\":10},\
         \"storage_deposit\":{\"Charge\":500}}"
    );
    let v: serde_json::Value = serde_json::from_str(&json).unwrap();
    assert_eq!(v["storage_deposit"]["Charge"].as_u64(), Some(500));
}

#[test]
fn call_dry_run_human_listing_shares_the_json_values() {
    let r = call_dry_run();
    let human = render_report(&Report::CallDryRun { report: r }, OutputMode::Human);
    let expected = "      Result 42\n\
                    \x20   Reverted false\n\
                    Gas consumed Weight(ref_time: 7, proof_size: 3)\n\
                    Gas required Weight(ref_time: 100, proof_size: 10)\n\
                    Storage deposit Charge(500)\n\
                    Dry run: the message was not submitted; a real execution may differ, as chain state may have changed.\n";
    assert_eq!(human, expected);
}

#[test]
fn instantiate_dry_run_json_document() {
    let r = InstantiateDryRunResult {
        result: String::from("Ok(())"),
        contract: String::from("5FHne"),
        reverted: true,
        gas_consumed: Weight { ref_time: 1, proof_size: 2 },
        gas_required: Weight { ref_time: 3, proof_size: 4 },
        storage_deposit: StorageDeposit::Refund { amount: 9 },
    };
    let json = r.to_json();
    let v: serde_json::Value = serde_json::from_str(&json).unwrap();
    assert_eq!(v["result"].as_str(), Some("Ok(())"));
    assert_eq!(v["contract"].as_str(), Some("5FHne"));
    assert_eq!(v["reverted"], serde_json::Value::Bool(true));
    assert_eq!(v["storage_deposit"]["Refund"].as_u64(), Some(9));
}

#[test]
fn missing_weight_error_renders_as_plain_message() {
    let e = CommandError::MissingExplicitWeight;
    assert_eq!(
        render_error(&e, OutputMode::Human),
        "Weight args `--gas` and `--proof-size` required if `--skip-dry-run` specified\n"
    );
    let v: serde_json::Value =
        serde_json::from_str(&render_error(&e, OutputMode::Json)).unwrap();
    assert_eq!(
        v["error"].as_str(),
        Some("Weight args `--gas` and `--proof-size` required if `--skip-dry-run` specified")
    );
}

#[test]
fn dispatch_failure_json_is_the_decoded_object_verbatim() {
    let e = CommandError::DispatchFailed {
        object: String::from("{\"ModuleError\":{\"error\":\"OutOfGas\"}}"),
        phase: Phase::Estimation,
        gas_consumed: Weight { ref_time: 1, proof_size: 1 },
        gas_required: Weight { ref_time: 0, proof_size: 0 },
        storage_deposit: StorageDeposit::Charge { amount: 0 },
    };
    assert_eq!(
        render_error(&e, OutputMode::Json),
        "{\"ModuleError\":{\"error\":\"OutOfGas\"}}"
    );
    let human = render_error(&e, OutputMode::Human);
    assert!(human.contains("{\"ModuleError\":{\"error\":\"OutOfGas\"}}"));
    assert!(human.ends_with(
        "Pre-submission dry-run failed. Use --skip-dry-run to skip this step.\n"
    ));
}

#[test]
fn dry_run_phase_dispatch_failure_has_no_estimation_hint() {
    let e = CommandError::DispatchFailed {
        object: String::from("obj"),
        phase: Phase::DryRun,
        gas_consumed: Weight { ref_time: 1, proof_size: 1 },
        gas_required: Weight { ref_time: 0, proof_size: 0 },
        storage_deposit: StorageDeposit::Charge { amount: 0 },
    };
    let human = render_error(&e, OutputMode::Human);
    assert!(!human.contains("--skip-dry-run"));
    assert!(human.contains("Gas consumed"));
}

fn existing_code_request() -> InvocationRequest {
    InvocationRequest::build(
        RequestKind::Instantiate {
            constructor: String::from("new"),
            salt: None,
            code: CodeSource::Existing { code_hash: vec![0xaa, 0xbb] },
        },
        vec![String::from("true"), String::from("7")],
        0,
        None,
        None,
        true,
        false,
        false,
        false,
        false,
    )
    .unwrap()
}

#[test]
fn preview_shows_code_hash_exactly_for_existing_code() {
    let gas = Weight { ref_time: 200, proof_size: 20 };
    let preview = render_preview(&existing_code_request(), gas);
    let expected = "\x20Constructor new\n\
                    \x20       Args true 7\n\
                    \x20  Gas limit Weight(ref_time: 200, proof_size: 20)\n\
                    \x20  Code hash 0xaabb\n";
    assert_eq!(preview, expected);

    let uploaded = InvocationRequest::build(
        RequestKind::Instantiate {
            constructor: String::from("new"),
            salt: None,
            code: CodeSource::Uploaded { code: vec![0, 97, 115, 109] },
        },
        vec![],
        0,
        None,
        None,
        true,
        false,
        false,
        false,
        false,
    )
    .unwrap();
    let preview = render_preview(&uploaded, gas);
    assert!(!preview.contains("Code hash"));
}

#[test]
fn notices_and_confirmation_question() {
    let req = existing_code_request();
    assert_eq!(
        notice_text(&req, &Notice::DryRunning),
        "Dry-running new (skip with --skip-dry-run)\n"
    );
    assert_eq!(
        notice_text(&req, &Notice::GasRequired { gas: Weight { ref_time: 5, proof_size: 6 } }),
        "Gas required estimated at Weight(ref_time: 5, proof_size: 6)\n"
    );
    assert_eq!(confirm_question(), "Submit? (y/n): ");
}

#[test]
fn affirmative_answers() {
    assert!(is_affirmative("y"));
    assert!(is_affirmative("Y"));
    assert!(is_affirmative("yes"));
    assert!(!is_affirmative("n"));
    assert!(!is_affirmative(""));
    assert!(!is_affirmative("Yes"));
    assert!(!is_affirmative("no"));
}
