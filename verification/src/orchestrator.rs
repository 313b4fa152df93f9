//! The invocation orchestrator: one state machine shared by the call
//! and the instantiate flow. Each step consumes the event the last
//! action produced and decides the next action; the surrounding driver
//! performs the network and prompt actions and hands the result back.
//! Submission is reachable only after the weight is resolved and the
//! confirmation gate (unless skipped) has approved; a failed simulation
//! or a declined confirmation makes the machine terminal with no
//! submission.

use vstd::prelude::*;
use crate::errors::{CommandError, Phase};
use crate::estimator::spec_resolved_weight;
use crate::outcome::{InstantiateDecode, SimulationOutcome, SubmissionOutcome};
use crate::report::{CallDryRunResult, InstantiateDryRunResult, Notice, Report};
use crate::request::{InvocationRequest, RequestKind};
use crate::weight::Weight;

verus! {

/// Why a simulation runs: to be reported as the command's result, or to
/// estimate the submission weight.
#[derive(Clone, Copy, PartialEq, Eq, Structural, Debug)]
pub enum Purpose {
    ForReport,
    ForEstimate,
}

/// How a finished command ended. A declined confirmation is its own
/// clean outcome, distinct from every failure.
pub enum Termination {
    Success { report: Report },
    Cancelled,
    Failed { error: CommandError },
}

/// Where the workflow stands between two steps.
pub enum Stage {
    Built,
    /// Waiting for the chain client's dry run.
    Simulating { purpose: Purpose },
    /// Waiting for the transcoder to decode a call's return bytes.
    DecodingReturn { outcome: SimulationOutcome },
    /// Waiting for the instantiation dry-run decode.
    DecodingDryRun { outcome: SimulationOutcome },
    /// Waiting for the dispatch failure to be decoded against chain
    /// type metadata.
    DecodingError { outcome: SimulationOutcome, purpose: Purpose },
    /// Waiting for the confirmation gate.
    Confirming { gas: Weight },
    /// Waiting for the submission to finish.
    Submitting { gas: Weight },
    Done { termination: Termination },
}

/// What the driver hands back after performing an action.
pub enum Event {
    Start,
    /// The dry run finished on the chain's side.
    Simulated { outcome: SimulationOutcome },
    /// The dry run could not be performed at all.
    SimulationUnavailable { message: String },
    /// The transcoder decoded the return bytes, or failed to.
    ReturnDecoded { result: Result<String, String> },
    /// The instantiation dry-run decode finished, or failed.
    DryRunDecoded { result: Result<InstantiateDecode, String> },
    /// The dispatch failure decoded against chain type metadata.
    ErrorDecoded { object: String },
    /// The confirmation gate's answer.
    Confirmed { approved: bool },
    /// The submission finished, or could not be performed.
    Submitted { result: Result<SubmissionOutcome, String> },
}

/// What the driver must do next.
pub enum Action {
    /// Dry-run the request against current chain state.
    Simulate,
    /// Decode the return bytes of the simulated call.
    DecodeReturn,
    /// Decode the instantiation dry run (return value and address).
    DecodeInstantiateDryRun,
    /// Decode the simulation's dispatch failure.
    DecodeDispatchError,
    /// Show the preview for this weight and ask for confirmation.
    Prompt { gas: Weight },
    /// Submit with this fully resolved weight.
    Submit { gas: Weight },
    /// Nothing more to do; the stage is terminal.
    Finish,
}

pub struct StepOut {
    pub stage: Stage,
    pub action: Action,
    /// A status notice to show before performing the action; never
    /// present in JSON output mode.
    pub notice: Option<Notice>,
}

/// Which event a stage can consume. The driver satisfies this by
/// construction: each event answers the action that asked for it.
pub open spec fn accepts(req: InvocationRequest, stage: Stage, event: Event) -> bool {
    match (stage, event) {
        (Stage::Built, Event::Start) => true,
        (Stage::Simulating { .. }, Event::Simulated { .. }) => true,
        (Stage::Simulating { .. }, Event::SimulationUnavailable { .. }) => true,
        (Stage::DecodingReturn { .. }, Event::ReturnDecoded { .. }) => true,
        (Stage::DecodingDryRun { .. }, Event::DryRunDecoded { .. }) => true,
        (Stage::DecodingError { .. }, Event::ErrorDecoded { .. }) => true,
        (Stage::Confirming { .. }, Event::Confirmed { .. }) => true,
        (Stage::Submitting { .. }, Event::Submitted { result }) => match result {
            Ok(SubmissionOutcome::Call { .. }) => req.kind is Call,
            Ok(SubmissionOutcome::Instantiate { .. }) => req.kind is Instantiate,
            Err(_) => true,
        },
        _ => false,
    }
}

/// What holds of every stage the machine can actually reach for this
/// request.
pub open spec fn stage_wf(req: InvocationRequest, stage: Stage) -> bool {
    match stage {
        Stage::Built => true,
        Stage::Simulating { purpose } => (purpose is ForEstimate ==> req.spec_mode()
            is EstimateThenSubmit) && (purpose is ForReport ==> req.spec_mode() is DryRunOnly),
        Stage::DecodingReturn { outcome } => req.kind is Call && req.spec_mode() is DryRunOnly
            && outcome.execution is Ok,
        Stage::DecodingDryRun { outcome } => req.kind is Instantiate && req.spec_mode()
            is DryRunOnly && outcome.execution is Ok,
        Stage::DecodingError { outcome, purpose } => outcome.execution is Err && (purpose
            is ForEstimate ==> req.spec_mode() is EstimateThenSubmit) && (purpose is ForReport
            ==> req.spec_mode() is DryRunOnly),
        Stage::Confirming { .. } => req.execute && !req.skip_confirm,
        Stage::Submitting { .. } => req.execute,
        Stage::Done { .. } => true,
    }
}

pub open spec fn spec_fail(error: CommandError) -> StepOut {
    StepOut {
        stage: Stage::Done { termination: Termination::Failed { error } },
        action: Action::Finish,
        notice: None,
    }
}

pub open spec fn spec_succeed(report: Report) -> StepOut {
    StepOut {
        stage: Stage::Done { termination: Termination::Success { report } },
        action: Action::Finish,
        notice: None,
    }
}

/// With the weight resolved, either ask for confirmation or, when
/// confirmation is skipped, submit at once.
pub open spec fn spec_confirm_or_submit(
    req: InvocationRequest,
    gas: Weight,
    notice: Option<Notice>,
) -> StepOut {
    if req.skip_confirm {
        StepOut { stage: Stage::Submitting { gas }, action: Action::Submit { gas }, notice }
    } else {
        StepOut { stage: Stage::Confirming { gas }, action: Action::Prompt { gas }, notice }
    }
}

/// The first step. With `skip_dry_run`, both weight components must be
/// explicit, and their absence is a configuration error raised before
/// any network interaction — the action is never `Simulate` then.
pub open spec fn spec_start(req: InvocationRequest) -> StepOut {
    if req.spec_mode() is DryRunOnly {
        StepOut {
            stage: Stage::Simulating { purpose: Purpose::ForReport },
            action: Action::Simulate,
            notice: None,
        }
    } else if req.spec_mode() is SkipDryRunSubmit {
        if req.gas_limit is Some && req.proof_size is Some {
            spec_confirm_or_submit(
                req,
                Weight { ref_time: req.gas_limit->0, proof_size: req.proof_size->0 },
                None,
            )
        } else {
            spec_fail(CommandError::MissingExplicitWeight)
        }
    } else {
        StepOut {
            stage: Stage::Simulating { purpose: Purpose::ForEstimate },
            action: Action::Simulate,
            notice: if req.output is Json {
                None
            } else {
                Some(Notice::DryRunning)
            },
        }
    }
}

/// What a finished dry run leads to. A failed execution goes to the
/// error decode, never towards submission; a successful estimate
/// resolves the weight per axis and moves towards confirmation.
pub open spec fn spec_simulated(
    req: InvocationRequest,
    purpose: Purpose,
    outcome: SimulationOutcome,
) -> StepOut {
    if outcome.execution is Ok {
        if purpose is ForReport {
            if req.kind is Call {
                StepOut {
                    stage: Stage::DecodingReturn { outcome },
                    action: Action::DecodeReturn,
                    notice: None,
                }
            } else {
                StepOut {
                    stage: Stage::DecodingDryRun { outcome },
                    action: Action::DecodeInstantiateDryRun,
                    notice: None,
                }
            }
        } else {
            let gas = spec_resolved_weight(req.gas_limit, req.proof_size, outcome.gas_required);
            spec_confirm_or_submit(
                req,
                gas,
                if req.output is Json {
                    None
                } else {
                    Some(Notice::GasRequired { gas: outcome.gas_required })
                },
            )
        }
    } else {
        StepOut {
            stage: Stage::DecodingError { outcome, purpose },
            action: Action::DecodeDispatchError,
            notice: None,
        }
    }
}

/// The whole transition relation of the orchestrator.
pub open spec fn spec_step(req: InvocationRequest, stage: Stage, event: Event) -> StepOut {
    match (stage, event) {
        (Stage::Built, Event::Start) => spec_start(req),
        (Stage::Simulating { purpose }, Event::Simulated { outcome }) => spec_simulated(
            req,
            purpose,
            outcome,
        ),
        (Stage::Simulating { .. }, Event::SimulationUnavailable { message }) => spec_fail(
            CommandError::Transport { message },
        ),
        (Stage::DecodingReturn { outcome }, Event::ReturnDecoded { result }) => match result {
            Ok(data) => spec_succeed(
                Report::CallDryRun {
                    report: CallDryRunResult {
                        reverted: outcome.execution->Ok_0.reverted,
                        data,
                        gas_consumed: outcome.gas_consumed,
                        gas_required: outcome.gas_required,
                        storage_deposit: outcome.storage_deposit,
                    },
                },
            ),
            Err(message) => spec_fail(CommandError::DecodeFailed { message }),
        },
        (Stage::DecodingDryRun { outcome }, Event::DryRunDecoded { result }) => match result {
            Ok(dec) => spec_succeed(
                Report::InstantiateDryRun {
                    report: InstantiateDryRunResult {
                        result: dec.return_value,
                        contract: dec.contract,
                        reverted: outcome.execution->Ok_0.reverted,
                        gas_consumed: outcome.gas_consumed,
                        gas_required: outcome.gas_required,
                        storage_deposit: outcome.storage_deposit,
                    },
                },
            ),
            Err(message) => spec_fail(CommandError::DecodeFailed { message }),
        },
        (Stage::DecodingError { outcome, purpose }, Event::ErrorDecoded { object }) => spec_fail(
            CommandError::DispatchFailed {
                object,
                phase: if purpose is ForEstimate {
                    Phase::Estimation
                } else {
                    Phase::DryRun
                },
                gas_consumed: outcome.gas_consumed,
                gas_required: outcome.gas_required,
                storage_deposit: outcome.storage_deposit,
            },
        ),
        (Stage::Confirming { gas }, Event::Confirmed { approved }) => if approved {
            StepOut {
                stage: Stage::Submitting { gas },
                action: Action::Submit { gas },
                notice: None,
            }
        } else {
            StepOut {
                stage: Stage::Done { termination: Termination::Cancelled },
                action: Action::Finish,
                notice: None,
            }
        },
        (Stage::Submitting { .. }, Event::Submitted { result }) => match result {
            Ok(SubmissionOutcome::Call { events }) => spec_succeed(Report::CallSubmitted { events }),
            Ok(
                SubmissionOutcome::Instantiate { contract, code_hash, events },
            ) => spec_succeed(Report::InstantiateSubmitted { contract, code_hash, events }),
            Err(message) => spec_fail(CommandError::Transport { message }),
        },
        (s, _) => StepOut { stage: s, action: Action::Finish, notice: None },
    }
}

/// Performs one step of the workflow.
pub fn step(req: &InvocationRequest, stage: Stage, event: Event) -> (out: StepOut)
    requires
        accepts(*req, stage, event),
        stage_wf(*req, stage),
    ensures
        out == spec_step(*req, stage, event),
        stage_wf(*req, out.stage),
        req.output is Json ==> out.notice is None,
        out.action is Submit ==> out.stage is Submitting,
{
    match (stage, event) {
        (Stage::Built, Event::Start) => step_start(req),
        (Stage::Simulating { purpose }, Event::Simulated { outcome }) => step_simulated(
            req,
            purpose,
            outcome,
        ),
        (Stage::Simulating { .. }, Event::SimulationUnavailable { message }) => fail_out(
            CommandError::Transport { message },
        ),
        (Stage::DecodingReturn { outcome }, Event::ReturnDecoded { result }) => match result {
            Ok(data) => {
                let reverted = match &outcome.execution {
                    Ok(v) => v.reverted,
                    Err(_) => false,
                };
                succeed_out(
                    Report::CallDryRun {
                        report: CallDryRunResult {
                            reverted,
                            data,
                            gas_consumed: outcome.gas_consumed,
                            gas_required: outcome.gas_required,
                            storage_deposit: outcome.storage_deposit,
                        },
                    },
                )
            },
            Err(message) => fail_out(CommandError::DecodeFailed { message }),
        },
        (Stage::DecodingDryRun { outcome }, Event::DryRunDecoded { result }) => match result {
            Ok(dec) => {
                let reverted = match &outcome.execution {
                    Ok(v) => v.reverted,
                    Err(_) => false,
                };
                succeed_out(
                    Report::InstantiateDryRun {
                        report: InstantiateDryRunResult {
                            result: dec.return_value,
                            contract: dec.contract,
                            reverted,
                            gas_consumed: outcome.gas_consumed,
                            gas_required: outcome.gas_required,
                            storage_deposit: outcome.storage_deposit,
                        },
                    },
                )
            },
            Err(message) => fail_out(CommandError::DecodeFailed { message }),
        },
        (Stage::DecodingError { outcome, purpose }, Event::ErrorDecoded { object }) => {
            let phase = match purpose {
                Purpose::ForEstimate => Phase::Estimation,
                Purpose::ForReport => Phase::DryRun,
            };
            fail_out(
                CommandError::DispatchFailed {
                    object,
                    phase,
                    gas_consumed: outcome.gas_consumed,
                    gas_required: outcome.gas_required,
                    storage_deposit: outcome.storage_deposit,
                },
            )
        },
        (Stage::Confirming { gas }, Event::Confirmed { approved }) => {
            if approved {
                StepOut {
                    stage: Stage::Submitting { gas },
                    action: Action::Submit { gas },
                    notice: None,
                }
            } else {
                StepOut {
                    stage: Stage::Done { termination: Termination::Cancelled },
                    action: Action::Finish,
                    notice: None,
                }
            }
        },
        (Stage::Submitting { .. }, Event::Submitted { result }) => match result {
            Ok(SubmissionOutcome::Call { events }) => succeed_out(
                Report::CallSubmitted { events },
            ),
            Ok(SubmissionOutcome::Instantiate { contract, code_hash, events }) => succeed_out(
                Report::InstantiateSubmitted { contract, code_hash, events },
            ),
            Err(message) => fail_out(CommandError::Transport { message }),
        },
        (s, _) => {
            proof {
                assert(false);
            }
            StepOut { stage: s, action: Action::Finish, notice: None }
        },
    }
}

fn fail_out(error: CommandError) -> (out: StepOut)
    ensures
        out == spec_fail(error),
{
    StepOut {
        stage: Stage::Done { termination: Termination::Failed { error } },
        action: Action::Finish,
        notice: None,
    }
}

fn succeed_out(report: Report) -> (out: StepOut)
    ensures
        out == spec_succeed(report),
{
    StepOut {
        stage: Stage::Done { termination: Termination::Success { report } },
        action: Action::Finish,
        notice: None,
    }
}

fn confirm_or_submit(req: &InvocationRequest, gas: Weight, notice: Option<Notice>) -> (out: StepOut)
    ensures
        out == spec_confirm_or_submit(*req, gas, notice),
{
    if req.skip_confirm {
        StepOut { stage: Stage::Submitting { gas }, action: Action::Submit { gas }, notice }
    } else {
        StepOut { stage: Stage::Confirming { gas }, action: Action::Prompt { gas }, notice }
    }
}

fn step_start(req: &InvocationRequest) -> (out: StepOut)
    ensures
        out == spec_start(*req),
{
    if !req.execute {
        StepOut {
            stage: Stage::Simulating { purpose: Purpose::ForReport },
            action: Action::Simulate,
            notice: None,
        }
    } else if req.skip_dry_run {
        match (req.gas_limit, req.proof_size) {
            (Some(ref_time), Some(proof_size)) => confirm_or_submit(
                req,
                Weight { ref_time, proof_size },
                None,
            ),
            _ => fail_out(CommandError::MissingExplicitWeight),
        }
    } else {
        let notice = if req.output_json() {
            None
        } else {
            Some(Notice::DryRunning)
        };
        StepOut {
            stage: Stage::Simulating { purpose: Purpose::ForEstimate },
            action: Action::Simulate,
            notice,
        }
    }
}

/// With `skip_dry_run` set and either explicit weight component
/// absent, the very first step fails with the missing-weight
/// configuration error, and no simulation is ever requested: the
/// machine is terminal before any network interaction.
pub proof fn lemma_skip_dry_run_requires_explicit_weight(req: InvocationRequest)
    requires
        req.spec_mode() is SkipDryRunSubmit,
        req.gas_limit is None || req.proof_size is None,
    ensures
        spec_step(req, Stage::Built, Event::Start) == spec_fail(CommandError::MissingExplicitWeight),
        !(spec_step(req, Stage::Built, Event::Start).action is Simulate),
        forall|e: Event| !accepts(req, spec_step(req, Stage::Built, Event::Start).stage, e),
{
}

/// A stage from which only failure is reachable: the dispatch-failure
/// decode, or a finished failed command.
pub open spec fn failure_pending(stage: Stage) -> bool {
    ||| stage is DecodingError
    ||| (stage matches Stage::Done { termination } && termination is Failed)
}

/// A simulation whose execution failed moves the machine into the
/// failure path at once, with no submission requested.
pub proof fn lemma_failed_simulation_enters_failure_path(
    req: InvocationRequest,
    purpose: Purpose,
    outcome: SimulationOutcome,
)
    requires
        outcome.execution is Err,
    ensures
        failure_pending(spec_step(req, Stage::Simulating { purpose }, Event::Simulated { outcome }).stage),
        !(spec_step(req, Stage::Simulating { purpose }, Event::Simulated { outcome }).action
            is Submit),
{
}

/// Once on the failure path the machine stays there, never requesting
/// a submission, and ends in a `Failed` termination.
pub proof fn lemma_failure_path_is_absorbing(req: InvocationRequest, stage: Stage, event: Event)
    requires
        accepts(req, stage, event),
        failure_pending(stage),
    ensures
        failure_pending(spec_step(req, stage, event).stage),
        !(spec_step(req, stage, event).action is Submit),
{
}

/// The stage after this whole sequence of events.
pub open spec fn run_stage(req: InvocationRequest, stage: Stage, events: Seq<Event>) -> Stage
    decreases events.len(),
{
    if events.len() == 0 {
        stage
    } else {
        run_stage(req, spec_step(req, stage, events[0]).stage, events.drop_first())
    }
}

/// Whether every event of the sequence is accepted by the stage it
/// meets. A driver that always answers the requested action produces
/// such a sequence.
pub open spec fn run_accepted(req: InvocationRequest, stage: Stage, events: Seq<Event>) -> bool
    decreases events.len(),
{
    if events.len() == 0 {
        true
    } else {
        accepts(req, stage, events[0]) && run_accepted(
            req,
            spec_step(req, stage, events[0]).stage,
            events.drop_first(),
        )
    }
}

/// From a stage on the failure path, no continuation of the run — of
/// any length, through any events — ever requests a submission.
pub proof fn lemma_failure_path_never_submits(
    req: InvocationRequest,
    stage: Stage,
    events: Seq<Event>,
)
    requires
        failure_pending(stage),
        run_accepted(req, stage, events),
    ensures
        forall|i: int|
            0 <= i < events.len() ==> !(spec_step(
                req,
                run_stage(req, stage, events.take(i)),
                events[i],
            ).action is Submit),
    decreases events.len(),
{
    if events.len() > 0 {
        let next = spec_step(req, stage, events[0]).stage;
        let tl = events.drop_first();
        lemma_failure_path_is_absorbing(req, stage, events[0]);
        lemma_failure_path_never_submits(req, next, tl);
        assert forall|i: int| 0 <= i < events.len() implies !(spec_step(
            req,
            run_stage(req, stage, events.take(i)),
            events[i],
        ).action is Submit) by {
            if i == 0 {
                assert(events.take(0).len() == 0);
                assert(run_stage(req, stage, events.take(0)) == stage);
            } else {
                let t = events.take(i);
                assert(t.len() == i);
                assert(t[0] == events[0]);
                assert(t.drop_first() =~= tl.take(i - 1));
                assert(run_stage(req, stage, t) == run_stage(req, next, tl.take(i - 1)));
                assert(events[i] == tl[i - 1]);
                assert(!(spec_step(req, run_stage(req, next, tl.take(i - 1)), tl[i - 1]).action
                    is Submit));
            }
        }
    }
}

/// No submission on a failed simulation: when a dry run's execution is
/// `Err`, the step consuming it requests no submission, and neither
/// does any later step of the command, however the remaining events
/// unfold; the machine is on the failure path for good.
pub proof fn lemma_no_submission_on_failed_simulation(
    req: InvocationRequest,
    purpose: Purpose,
    outcome: SimulationOutcome,
    events: Seq<Event>,
)
    requires
        outcome.execution is Err,
        run_accepted(
            req,
            spec_step(req, Stage::Simulating { purpose }, Event::Simulated { outcome }).stage,
            events,
        ),
    ensures
        !(spec_step(req, Stage::Simulating { purpose }, Event::Simulated { outcome }).action
            is Submit),
        forall|i: int|
            0 <= i < events.len() ==> !(spec_step(
                req,
                run_stage(
                    req,
                    spec_step(
                        req,
                        Stage::Simulating { purpose },
                        Event::Simulated { outcome },
                    ).stage,
                    events.take(i),
                ),
                events[i],
            ).action is Submit),
{
    lemma_failed_simulation_enters_failure_path(req, purpose, outcome);
    lemma_failure_path_never_submits(
        req,
        spec_step(req, Stage::Simulating { purpose }, Event::Simulated { outcome }).stage,
        events,
    );
}

/// Declining the confirmation gate ends the command cleanly: the
/// termination is `Cancelled` — distinct from every `Failed` outcome —
/// no submission is requested, and no further event is accepted, so no
/// submission can ever follow.
pub proof fn lemma_cancellation_is_clean(req: InvocationRequest, gas: Weight)
    ensures
        spec_step(req, Stage::Confirming { gas }, Event::Confirmed { approved: false }).stage
            == (Stage::Done { termination: Termination::Cancelled }),
        !(spec_step(req, Stage::Confirming { gas }, Event::Confirmed { approved: false }).action
            is Submit),
        forall|e: Event|
            !accepts(
                req,
                spec_step(req, Stage::Confirming { gas }, Event::Confirmed {
                    approved: false,
                }).stage,
                e,
            ),
{
}

/// A revert is not an error: when the dry run's execution succeeded
/// with the revert flag set, decoding its return value still ends the
/// command in a `Success` termination, whose report carries that very
/// flag.
pub proof fn lemma_revert_is_not_error(
    req: InvocationRequest,
    outcome: SimulationOutcome,
    data: String,
)
    requires
        outcome.execution is Ok,
    ensures
        ({
            let out = spec_step(req, Stage::DecodingReturn { outcome }, Event::ReturnDecoded {
                result: Ok(data),
            });
            &&& out.stage matches Stage::Done { termination }
            &&& termination matches Termination::Success { report }
            &&& report matches Report::CallDryRun { report: r }
            &&& r.reverted == outcome.execution->Ok_0.reverted
            &&& r.data == data
        }),
{
}

/// A finished command accepts no further event: nothing can happen
/// after any termination.
pub proof fn lemma_done_is_terminal(req: InvocationRequest, termination: Termination)
    ensures
        forall|e: Event| !accepts(req, Stage::Done { termination }, e),
{
}

/// A simulation is requested only by the very first step: each command
/// dry-runs at most once.
pub proof fn lemma_simulation_only_at_start(req: InvocationRequest, stage: Stage, event: Event)
    ensures
        spec_step(req, stage, event).action is Simulate ==> stage is Built,
{
}

/// The instantiation counterpart: a reverted but successfully
/// dispatched dry run still ends in a `Success` termination carrying
/// the revert flag.
pub proof fn lemma_revert_is_not_error_instantiate(
    req: InvocationRequest,
    outcome: SimulationOutcome,
    dec: InstantiateDecode,
)
    requires
        outcome.execution is Ok,
    ensures
        ({
            let out = spec_step(req, Stage::DecodingDryRun { outcome }, Event::DryRunDecoded {
                result: Ok(dec),
            });
            &&& out.stage matches Stage::Done { termination }
            &&& termination matches Termination::Success { report }
            &&& report matches Report::InstantiateDryRun { report: r }
            &&& r.reverted == outcome.execution->Ok_0.reverted
            &&& r.contract == dec.contract
        }),
{
}

fn step_simulated(req: &InvocationRequest, purpose: Purpose, outcome: SimulationOutcome) -> (out:
    StepOut)
    ensures
        out == spec_simulated(*req, purpose, outcome),
{
    if outcome.execution.is_ok() {
        match purpose {
            Purpose::ForReport => {
                match &req.kind {
                    RequestKind::Call { .. } => StepOut {
                        stage: Stage::DecodingReturn { outcome },
                        action: Action::DecodeReturn,
                        notice: None,
                    },
                    RequestKind::Instantiate { .. } => StepOut {
                        stage: Stage::DecodingDryRun { outcome },
                        action: Action::DecodeInstantiateDryRun,
                        notice: None,
                    },
                }
            },
            Purpose::ForEstimate => {
                let gas = crate::estimator::resolve_weight(
                    req.gas_limit,
                    req.proof_size,
                    outcome.gas_required,
                );
                let notice = if req.output_json() {
                    None
                } else {
                    Some(Notice::GasRequired { gas: outcome.gas_required })
                };
                confirm_or_submit(req, gas, notice)
            },
        }
    } else {
        StepOut {
            stage: Stage::DecodingError { outcome, purpose },
            action: Action::DecodeDispatchError,
            notice: None,
        }
    }
}

} // verus!
