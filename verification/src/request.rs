//! The immutable description of one invocation: what to call or
//! instantiate, with which arguments, and under which flags. Built once,
//! validated at construction, owned by the orchestrator for the length
//! of one command.

use vstd::prelude::*;

verus! {

/// Where the code of a contract to instantiate comes from: fresh code
/// to deploy, or a hash of code already uploaded on chain.
pub enum CodeSource {
    Uploaded { code: Vec<u8> },
    Existing { code_hash: Vec<u8> },
}

/// What is being invoked: a message of a deployed contract, or a
/// constructor of a contract to instantiate.
pub enum RequestKind {
    Call { contract: String, message: String },
    Instantiate { constructor: String, salt: Option<Vec<u8>>, code: CodeSource },
}

#[derive(Clone, Copy, PartialEq, Eq, Structural, Debug)]
pub enum OutputMode {
    Json,
    Human,
}

/// How the command runs, derived from the two independent flags
/// `execute` and `skip_dry_run`.
#[derive(Clone, Copy, PartialEq, Eq, Structural, Debug)]
pub enum ExecutionMode {
    /// Simulate and report; never submit.
    DryRunOnly,
    /// Simulate to estimate the weight, then submit.
    EstimateThenSubmit,
    /// Submit with explicitly supplied weight; no simulation.
    SkipDryRunSubmit,
}

/// Why a request cannot be built.
#[derive(Clone, Copy, PartialEq, Eq, Structural, Debug)]
pub enum BuildError {
    /// Machine-readable and verbose human output exclude each other.
    ConflictingOutputFlags,
}

pub struct InvocationRequest {
    pub kind: RequestKind,
    /// The message or constructor arguments, one encoded string each.
    pub args: Vec<String>,
    /// The balance transferred with the invocation.
    pub value: u128,
    /// Explicit time-weight limit; when absent, taken from a dry run.
    pub gas_limit: Option<u64>,
    /// Explicit proof-size limit; when absent, taken from a dry run.
    pub proof_size: Option<u64>,
    /// Submit the transaction rather than only dry-running it.
    pub execute: bool,
    /// Submit without a prior simulation; valid only with both explicit
    /// weight components.
    pub skip_dry_run: bool,
    /// Submit without asking for confirmation.
    pub skip_confirm: bool,
    pub output: OutputMode,
    /// Verbose human output; only forwarded to the event display.
    pub verbose: bool,
}

impl InvocationRequest {
    pub open spec fn spec_mode(&self) -> ExecutionMode {
        if !self.execute {
            ExecutionMode::DryRunOnly
        } else if self.skip_dry_run {
            ExecutionMode::SkipDryRunSubmit
        } else {
            ExecutionMode::EstimateThenSubmit
        }
    }

    pub fn mode(&self) -> (m: ExecutionMode)
        ensures
            m == self.spec_mode(),
    {
        if !self.execute {
            ExecutionMode::DryRunOnly
        } else if self.skip_dry_run {
            ExecutionMode::SkipDryRunSubmit
        } else {
            ExecutionMode::EstimateThenSubmit
        }
    }

    /// Validates the flag combination and builds the request. The JSON
    /// output flag conflicts with the verbose flag; every other
    /// combination is accepted here.
    pub fn build(
        kind: RequestKind,
        args: Vec<String>,
        value: u128,
        gas_limit: Option<u64>,
        proof_size: Option<u64>,
        execute: bool,
        skip_dry_run: bool,
        skip_confirm: bool,
        output_json: bool,
        verbose: bool,
    ) -> (r: Result<InvocationRequest, BuildError>)
        ensures
            r is Ok <==> !(output_json && verbose),
            r is Err ==> r == Err::<InvocationRequest, BuildError>(
                BuildError::ConflictingOutputFlags,
            ),
            r is Ok ==> {
                let q = r->Ok_0;
                &&& q.kind == kind
                &&& q.args == args
                &&& q.value == value
                &&& q.gas_limit == gas_limit
                &&& q.proof_size == proof_size
                &&& q.execute == execute
                &&& q.skip_dry_run == skip_dry_run
                &&& q.skip_confirm == skip_confirm
                &&& (q.output == OutputMode::Json <==> output_json)
                &&& q.verbose == verbose
            },
    {
        if output_json && verbose {
            return Err(BuildError::ConflictingOutputFlags);
        }
        let output = if output_json {
            OutputMode::Json
        } else {
            OutputMode::Human
        };
        Ok(
            InvocationRequest {
                kind,
                args,
                value,
                gas_limit,
                proof_size,
                execute,
                skip_dry_run,
                skip_confirm,
                output,
                verbose,
            },
        )
    }

    /// The name shown for the invoked entry point: the message name of
    /// a call, the constructor name of an instantiation.
    pub fn subject_name(&self) -> (r: &String)
        ensures
            r == self.spec_subject_name(),
    {
        match &self.kind {
            RequestKind::Call { message, .. } => message,
            RequestKind::Instantiate { constructor, .. } => constructor,
        }
    }

    pub open spec fn spec_subject_name(&self) -> String {
        match self.kind {
            RequestKind::Call { message, .. } => message,
            RequestKind::Instantiate { constructor, .. } => constructor,
        }
    }

    pub fn output_json(&self) -> (b: bool)
        ensures
            b == (self.output == OutputMode::Json),
    {
        match self.output {
            OutputMode::Json => true,
            OutputMode::Human => false,
        }
    }
}

} // verus!
