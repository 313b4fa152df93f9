//! The result reporter: renders every outcome of a command either as a
//! fixed-shape JSON document or as human-readable label/value lines.
//! Optional fields are omitted from JSON rather than emitted as null.
//! Both renderings of one outcome draw the shared field values from the
//! same value texts.

use vstd::prelude::*;
use crate::errors::{CommandError, Phase};
use crate::outcome::{EventsRendering, StorageDeposit};
use crate::request::{CodeSource, InvocationRequest, OutputMode, RequestKind};
use crate::text::{
    dec_u128, hex_0x, join_spaces, json_escape, name_value_line, spec_dec, spec_hex_0x,
    spec_join_spaces, spec_json_escape, spec_line,
};
use crate::weight::{spec_weight_json, spec_weight_text, Weight};

verus! {

/// Column width for the usual human label/value lines.
pub const KEY_COL_WIDTH: usize = 12;

/// Column width for the lines of an error block.
pub const ERR_KEY_COL_WIDTH: usize = 14;

/// The report of a dry run of a contract call.
pub struct CallDryRunResult {
    /// Whether the contract's own logic reverted; the dry run is still
    /// a success at the dispatch level.
    pub reverted: bool,
    /// The decoded return value.
    pub data: String,
    pub gas_consumed: Weight,
    pub gas_required: Weight,
    pub storage_deposit: StorageDeposit,
}

/// The report of a dry run of a contract instantiation.
pub struct InstantiateDryRunResult {
    /// The decoded constructor return value.
    pub result: String,
    /// The address the new contract would get.
    pub contract: String,
    pub reverted: bool,
    pub gas_consumed: Weight,
    pub gas_required: Weight,
    pub storage_deposit: StorageDeposit,
}

/// Every successful outcome a command can report.
pub enum Report {
    CallDryRun { report: CallDryRunResult },
    InstantiateDryRun { report: InstantiateDryRunResult },
    CallSubmitted { events: EventsRendering },
    InstantiateSubmitted {
        /// The address of the new contract.
        contract: String,
        /// The hash of freshly deployed code; absent when the code
        /// already existed on chain.
        code_hash: Option<Vec<u8>>,
        events: EventsRendering,
    },
}

pub open spec fn spec_bool_text(b: bool) -> Seq<char> {
    if b {
        "true"@
    } else {
        "false"@
    }
}

fn bool_text(b: bool) -> (r: &'static str)
    ensures
        r@ == spec_bool_text(b),
{
    if b {
        "true"
    } else {
        "false"
    }
}

/// JSON rendering of a storage deposit: the variant as the single key.
pub open spec fn spec_deposit_json(d: StorageDeposit) -> Seq<char> {
    match d {
        StorageDeposit::Refund { amount } => "{\"Refund\":"@ + spec_dec(amount as nat) + "}"@,
        StorageDeposit::Charge { amount } => "{\"Charge\":"@ + spec_dec(amount as nat) + "}"@,
    }
}

/// Human rendering of a storage deposit.
pub open spec fn spec_deposit_text(d: StorageDeposit) -> Seq<char> {
    match d {
        StorageDeposit::Refund { amount } => "Refund("@ + spec_dec(amount as nat) + ")"@,
        StorageDeposit::Charge { amount } => "Charge("@ + spec_dec(amount as nat) + ")"@,
    }
}

fn deposit_json(d: &StorageDeposit) -> (r: String)
    ensures
        r@ == spec_deposit_json(*d),
{
    proof {
        reveal_strlit("{\"Refund\":");
        reveal_strlit("{\"Charge\":");
        reveal_strlit("}");
    }
    match d {
        StorageDeposit::Refund { amount } => {
            let mut s = String::from_str("{\"Refund\":");
            let n = dec_u128(*amount);
            s.append(n.as_str());
            s.append("}");
            s
        },
        StorageDeposit::Charge { amount } => {
            let mut s = String::from_str("{\"Charge\":");
            let n = dec_u128(*amount);
            s.append(n.as_str());
            s.append("}");
            s
        },
    }
}

fn deposit_text(d: &StorageDeposit) -> (r: String)
    ensures
        r@ == spec_deposit_text(*d),
{
    proof {
        reveal_strlit("Refund(");
        reveal_strlit("Charge(");
        reveal_strlit(")");
    }
    match d {
        StorageDeposit::Refund { amount } => {
            let mut s = String::from_str("Refund(");
            let n = dec_u128(*amount);
            s.append(n.as_str());
            s.append(")");
            s
        },
        StorageDeposit::Charge { amount } => {
            let mut s = String::from_str("Charge(");
            let n = dec_u128(*amount);
            s.append(n.as_str());
            s.append(")");
            s
        },
    }
}

/// The one-line caution under every human dry-run report: a dry run is
/// an estimate, and chain state may change before a real submission.
pub open spec fn spec_dry_run_note(subject: Seq<char>) -> Seq<char> {
    "Dry run: the "@ + subject
        + " was not submitted; a real execution may differ, as chain state may have changed.\n"@
}

/// The machine-readable document for a call dry run.
pub open spec fn spec_call_dry_run_json(r: CallDryRunResult) -> Seq<char> {
    "{\"reverted\":"@ + spec_bool_text(r.reverted) + ",\"data\":\""@ + spec_json_escape(r.data@)
        + "\",\"gas_consumed\":"@ + spec_weight_json(r.gas_consumed) + ",\"gas_required\":"@
        + spec_weight_json(r.gas_required) + ",\"storage_deposit\":"@ + spec_deposit_json(
        r.storage_deposit,
    ) + "}"@
}

/// The human listing for a call dry run.
pub open spec fn spec_call_dry_run_human(r: CallDryRunResult) -> Seq<char> {
    spec_line("Result"@, r.data@, KEY_COL_WIDTH as nat) + spec_line(
        "Reverted"@,
        spec_bool_text(r.reverted),
        KEY_COL_WIDTH as nat,
    ) + spec_line("Gas consumed"@, spec_weight_text(r.gas_consumed), KEY_COL_WIDTH as nat)
        + spec_line("Gas required"@, spec_weight_text(r.gas_required), KEY_COL_WIDTH as nat)
        + spec_line("Storage deposit"@, spec_deposit_text(r.storage_deposit), KEY_COL_WIDTH as nat)
        + spec_dry_run_note("message"@)
}

/// The machine-readable document for an instantiation dry run.
pub open spec fn spec_instantiate_dry_run_json(r: InstantiateDryRunResult) -> Seq<char> {
    "{\"result\":\""@ + spec_json_escape(r.result@) + "\",\"contract\":\""@ + spec_json_escape(
        r.contract@,
    ) + "\",\"reverted\":"@ + spec_bool_text(r.reverted) + ",\"gas_consumed\":"@ + spec_weight_json(
        r.gas_consumed,
    ) + ",\"gas_required\":"@ + spec_weight_json(r.gas_required) + ",\"storage_deposit\":"@
        + spec_deposit_json(r.storage_deposit) + "}"@
}

/// The human listing for an instantiation dry run.
pub open spec fn spec_instantiate_dry_run_human(r: InstantiateDryRunResult) -> Seq<char> {
    spec_line("Result"@, r.result@, KEY_COL_WIDTH as nat) + spec_line(
        "Reverted"@,
        spec_bool_text(r.reverted),
        KEY_COL_WIDTH as nat,
    ) + spec_line("Contract"@, r.contract@, KEY_COL_WIDTH as nat) + spec_line(
        "Gas consumed"@,
        spec_weight_text(r.gas_consumed),
        KEY_COL_WIDTH as nat,
    ) + spec_line("Gas required"@, spec_weight_text(r.gas_required), KEY_COL_WIDTH as nat)
        + spec_line("Storage deposit"@, spec_deposit_text(r.storage_deposit), KEY_COL_WIDTH as nat)
        + spec_dry_run_note("instantiation"@)
}

/// The machine-readable document for a successful instantiation:
/// the new contract's address, the code hash only when new code was
/// deployed, and the events as the event display rendered them.
pub open spec fn spec_instantiate_submitted_json(
    contract: Seq<char>,
    code_hash: Option<Seq<u8>>,
    events_json: Seq<char>,
) -> Seq<char> {
    "{\"contract\":\""@ + spec_json_escape(contract) + "\""@ + (match code_hash {
        Some(h) => ",\"code_hash\":\""@ + spec_hex_0x(h) + "\""@,
        None => Seq::<char>::empty(),
    }) + ",\"events\":"@ + events_json + "}"@
}

/// The human listing for a successful instantiation: the events, the
/// code hash only when new code was deployed, the contract's address.
pub open spec fn spec_instantiate_submitted_human(
    contract: Seq<char>,
    code_hash: Option<Seq<u8>>,
    events_human: Seq<char>,
) -> Seq<char> {
    events_human + (match code_hash {
        Some(h) => spec_line("Code hash"@, spec_hex_0x(h), KEY_COL_WIDTH as nat),
        None => Seq::<char>::empty(),
    }) + spec_line("Contract"@, contract, KEY_COL_WIDTH as nat)
}

/// What one command reports for a given successful outcome and output
/// mode. For a submitted call the output is exactly what the event
/// display rendered.
pub open spec fn spec_render_report(report: Report, output: OutputMode) -> Seq<char> {
    match report {
        Report::CallDryRun { report: r } => if output is Json {
            spec_call_dry_run_json(r)
        } else {
            spec_call_dry_run_human(r)
        },
        Report::InstantiateDryRun { report: r } => if output is Json {
            spec_instantiate_dry_run_json(r)
        } else {
            spec_instantiate_dry_run_human(r)
        },
        Report::CallSubmitted { events } => if output is Json {
            events.json@
        } else {
            events.human@
        },
        Report::InstantiateSubmitted { contract, code_hash, events } => if output is Json {
            spec_instantiate_submitted_json(
                contract@,
                match code_hash {
                    Some(h) => Some(h@),
                    None => None,
                },
                events.json@,
            )
        } else {
            spec_instantiate_submitted_human(
                contract@,
                match code_hash {
                    Some(h) => Some(h@),
                    None => None,
                },
                events.human@,
            )
        },
    }
}

fn render_call_dry_run_json(r: &CallDryRunResult) -> (s: String)
    ensures
        s@ == spec_call_dry_run_json(*r),
{
    proof {
        reveal_strlit("{\"reverted\":");
        reveal_strlit(",\"data\":\"");
        reveal_strlit("\",\"gas_consumed\":");
        reveal_strlit(",\"gas_required\":");
        reveal_strlit(",\"storage_deposit\":");
        reveal_strlit("}");
    }
    let mut s = String::from_str("{\"reverted\":");
    s.append(bool_text(r.reverted));
    s.append(",\"data\":\"");
    let data = json_escape(r.data.as_str());
    s.append(data.as_str());
    s.append("\",\"gas_consumed\":");
    let gc = r.gas_consumed.to_json();
    s.append(gc.as_str());
    s.append(",\"gas_required\":");
    let gr = r.gas_required.to_json();
    s.append(gr.as_str());
    s.append(",\"storage_deposit\":");
    let sd = deposit_json(&r.storage_deposit);
    s.append(sd.as_str());
    s.append("}");
    assert(s@ =~= spec_call_dry_run_json(*r));
    s
}

fn render_call_dry_run_human(r: &CallDryRunResult) -> (s: String)
    ensures
        s@ == spec_call_dry_run_human(*r),
{
    let mut s = name_value_line("Result", r.data.as_str(), KEY_COL_WIDTH);
    let reverted = name_value_line("Reverted", bool_text(r.reverted), KEY_COL_WIDTH);
    s.append(reverted.as_str());
    let gc = r.gas_consumed.display();
    let line = name_value_line("Gas consumed", gc.as_str(), KEY_COL_WIDTH);
    s.append(line.as_str());
    let gr = r.gas_required.display();
    let line = name_value_line("Gas required", gr.as_str(), KEY_COL_WIDTH);
    s.append(line.as_str());
    let sd = deposit_text(&r.storage_deposit);
    let line = name_value_line("Storage deposit", sd.as_str(), KEY_COL_WIDTH);
    s.append(line.as_str());
    let note = dry_run_note_line("message");
    s.append(note.as_str());
    assert(s@ =~= spec_call_dry_run_human(*r));
    s
}

fn dry_run_note_line(subject: &str) -> (s: String)
    ensures
        s@ == spec_dry_run_note(subject@),
{
    let mut s = String::from_str("Dry run: the ");
    s.append(subject);
    s.append(" was not submitted; a real execution may differ, as chain state may have changed.\n");
    s
}

fn render_instantiate_dry_run_json(r: &InstantiateDryRunResult) -> (s: String)
    ensures
        s@ == spec_instantiate_dry_run_json(*r),
{
    proof {
        reveal_strlit("{\"result\":\"");
        reveal_strlit("\",\"contract\":\"");
        reveal_strlit("\",\"reverted\":");
        reveal_strlit(",\"gas_consumed\":");
        reveal_strlit(",\"gas_required\":");
        reveal_strlit(",\"storage_deposit\":");
        reveal_strlit("}");
    }
    let mut s = String::from_str("{\"result\":\"");
    let result = json_escape(r.result.as_str());
    s.append(result.as_str());
    s.append("\",\"contract\":\"");
    let contract = json_escape(r.contract.as_str());
    s.append(contract.as_str());
    s.append("\",\"reverted\":");
    s.append(bool_text(r.reverted));
    s.append(",\"gas_consumed\":");
    let gc = r.gas_consumed.to_json();
    s.append(gc.as_str());
    s.append(",\"gas_required\":");
    let gr = r.gas_required.to_json();
    s.append(gr.as_str());
    s.append(",\"storage_deposit\":");
    let sd = deposit_json(&r.storage_deposit);
    s.append(sd.as_str());
    s.append("}");
    assert(s@ =~= spec_instantiate_dry_run_json(*r));
    s
}

fn render_instantiate_dry_run_human(r: &InstantiateDryRunResult) -> (s: String)
    ensures
        s@ == spec_instantiate_dry_run_human(*r),
{
    let mut s = name_value_line("Result", r.result.as_str(), KEY_COL_WIDTH);
    let line = name_value_line("Reverted", bool_text(r.reverted), KEY_COL_WIDTH);
    s.append(line.as_str());
    let line = name_value_line("Contract", r.contract.as_str(), KEY_COL_WIDTH);
    s.append(line.as_str());
    let gc = r.gas_consumed.display();
    let line = name_value_line("Gas consumed", gc.as_str(), KEY_COL_WIDTH);
    s.append(line.as_str());
    let gr = r.gas_required.display();
    let line = name_value_line("Gas required", gr.as_str(), KEY_COL_WIDTH);
    s.append(line.as_str());
    let sd = deposit_text(&r.storage_deposit);
    let line = name_value_line("Storage deposit", sd.as_str(), KEY_COL_WIDTH);
    s.append(line.as_str());
    let note = dry_run_note_line("instantiation");
    s.append(note.as_str());
    assert(s@ =~= spec_instantiate_dry_run_human(*r));
    s
}

fn render_instantiate_submitted_json(
    contract: &String,
    code_hash: &Option<Vec<u8>>,
    events: &EventsRendering,
) -> (s: String)
    ensures
        s@ == spec_instantiate_submitted_json(
            contract@,
            match *code_hash {
                Some(h) => Some(h@),
                None => None,
            },
            events.json@,
        ),
{
    proof {
        reveal_strlit("{\"contract\":\"");
        reveal_strlit("\"");
        reveal_strlit(",\"code_hash\":\"");
        reveal_strlit(",\"events\":");
        reveal_strlit("}");
    }
    let mut s = String::from_str("{\"contract\":\"");
    let c = json_escape(contract.as_str());
    s.append(c.as_str());
    s.append("\"");
    match code_hash {
        Some(h) => {
            s.append(",\"code_hash\":\"");
            let hx = hex_0x(h);
            s.append(hx.as_str());
            s.append("\"");
        },
        None => {},
    }
    s.append(",\"events\":");
    s.append(events.json.as_str());
    s.append("}");
    assert(s@ =~= spec_instantiate_submitted_json(
        contract@,
        match *code_hash {
            Some(h) => Some(h@),
            None => None,
        },
        events.json@,
    ));
    s
}

fn render_instantiate_submitted_human(
    contract: &String,
    code_hash: &Option<Vec<u8>>,
    events: &EventsRendering,
) -> (s: String)
    ensures
        s@ == spec_instantiate_submitted_human(
            contract@,
            match *code_hash {
                Some(h) => Some(h@),
                None => None,
            },
            events.human@,
        ),
{
    let mut s = String::from_str("");
    s.append(events.human.as_str());
    match code_hash {
        Some(h) => {
            let hx = hex_0x(h);
            let line = name_value_line("Code hash", hx.as_str(), KEY_COL_WIDTH);
            s.append(line.as_str());
        },
        None => {},
    }
    let line = name_value_line("Contract", contract.as_str(), KEY_COL_WIDTH);
    s.append(line.as_str());
    proof {
        reveal_strlit("");
    }
    assert(s@ =~= spec_instantiate_submitted_human(
        contract@,
        match *code_hash {
            Some(h) => Some(h@),
            None => None,
        },
        events.human@,
    ));
    s
}

/// Renders a successful outcome for the chosen output mode.
pub fn render_report(report: &Report, output: OutputMode) -> (s: String)
    ensures
        s@ == spec_render_report(*report, output),
{
    match report {
        Report::CallDryRun { report: r } => {
            if output.is_json() {
                render_call_dry_run_json(r)
            } else {
                render_call_dry_run_human(r)
            }
        },
        Report::InstantiateDryRun { report: r } => {
            if output.is_json() {
                render_instantiate_dry_run_json(r)
            } else {
                render_instantiate_dry_run_human(r)
            }
        },
        Report::CallSubmitted { events } => {
            if output.is_json() {
                String::from_str(events.json.as_str())
            } else {
                String::from_str(events.human.as_str())
            }
        },
        Report::InstantiateSubmitted { contract, code_hash, events } => {
            if output.is_json() {
                render_instantiate_submitted_json(contract, code_hash, events)
            } else {
                render_instantiate_submitted_human(contract, code_hash, events)
            }
        },
    }
}

impl CallDryRunResult {
    /// The machine-readable document for this dry run.
    pub fn to_json(&self) -> (s: String)
        ensures
            s@ == spec_call_dry_run_json(*self),
    {
        render_call_dry_run_json(self)
    }
}

impl InstantiateDryRunResult {
    /// The machine-readable document for this dry run.
    pub fn to_json(&self) -> (s: String)
        ensures
            s@ == spec_instantiate_dry_run_json(*self),
    {
        render_instantiate_dry_run_json(self)
    }
}

impl OutputMode {
    pub fn is_json(&self) -> (b: bool)
        ensures
            b == (*self is Json),
    {
        match self {
            OutputMode::Json => true,
            OutputMode::Human => false,
        }
    }
}

/// The generic JSON error document for a local error.
pub open spec fn spec_error_json(message: Seq<char>) -> Seq<char> {
    "{\"error\":\""@ + spec_json_escape(message) + "\"}"@
}

/// What a failed command reports. A local error (configuration,
/// transport, decode) is rendered as its plain message, never decoded
/// against chain metadata; a dispatch failure's decoded object is
/// itself the JSON payload, and in human output it is shown beside the
/// simulation's partial summary.
pub open spec fn spec_render_error(e: CommandError, output: OutputMode) -> Seq<char> {
    match e {
        CommandError::MissingExplicitWeight => if output is Json {
            spec_error_json(
                "Weight args `--gas` and `--proof-size` required if `--skip-dry-run` specified"@,
            )
        } else {
            "Weight args `--gas` and `--proof-size` required if `--skip-dry-run` specified\n"@
        },
        CommandError::Transport { message } => if output is Json {
            spec_error_json(message@)
        } else {
            message@ + "\n"@
        },
        CommandError::DecodeFailed { message } => if output is Json {
            spec_error_json(message@)
        } else {
            message@ + "\n"@
        },
        CommandError::DispatchFailed { object, phase, gas_consumed, gas_required, storage_deposit } => if output
            is Json {
            object@
        } else {
            spec_line("Result"@, object@, ERR_KEY_COL_WIDTH as nat) + spec_line(
                "Gas consumed"@,
                spec_weight_text(gas_consumed),
                ERR_KEY_COL_WIDTH as nat,
            ) + spec_line("Gas required"@, spec_weight_text(gas_required), ERR_KEY_COL_WIDTH as nat)
                + spec_line(
                "Storage deposit"@,
                spec_deposit_text(storage_deposit),
                ERR_KEY_COL_WIDTH as nat,
            ) + (if phase is Estimation {
                "Pre-submission dry-run failed. Use --skip-dry-run to skip this step.\n"@
            } else {
                Seq::<char>::empty()
            })
        },
    }
}

/// Renders a failed command for the chosen output mode. In JSON output
/// a dispatch failure's decoded object is passed through verbatim, so
/// that automation can parse it.
pub fn render_error(e: &CommandError, output: OutputMode) -> (s: String)
    ensures
        s@ == spec_render_error(*e, output),
        e is DispatchFailed && output is Json ==> s@ == e->DispatchFailed_object@,
{
    match e {
        CommandError::MissingExplicitWeight => {
            if output.is_json() {
                let msg = json_escape(
                    "Weight args `--gas` and `--proof-size` required if `--skip-dry-run` specified",
                );
                let mut s = String::from_str("{\"error\":\"");
                s.append(msg.as_str());
                s.append("\"}");
                assert(s@ =~= spec_render_error(*e, output));
                s
            } else {
                String::from_str(
                    "Weight args `--gas` and `--proof-size` required if `--skip-dry-run` specified\n",
                )
            }
        },
        CommandError::Transport { message } => {
            if output.is_json() {
                let msg = json_escape(message.as_str());
                let mut s = String::from_str("{\"error\":\"");
                s.append(msg.as_str());
                s.append("\"}");
                assert(s@ =~= spec_render_error(*e, output));
                s
            } else {
                let mut s = String::from_str(message.as_str());
                s.append("\n");
                s
            }
        },
        CommandError::DecodeFailed { message } => {
            if output.is_json() {
                let msg = json_escape(message.as_str());
                let mut s = String::from_str("{\"error\":\"");
                s.append(msg.as_str());
                s.append("\"}");
                assert(s@ =~= spec_render_error(*e, output));
                s
            } else {
                let mut s = String::from_str(message.as_str());
                s.append("\n");
                s
            }
        },
        CommandError::DispatchFailed {
            object,
            phase,
            gas_consumed,
            gas_required,
            storage_deposit,
        } => {
            if output.is_json() {
                String::from_str(object.as_str())
            } else {
                let mut s = name_value_line("Result", object.as_str(), ERR_KEY_COL_WIDTH);
                let gc = gas_consumed.display();
                let line = name_value_line("Gas consumed", gc.as_str(), ERR_KEY_COL_WIDTH);
                s.append(line.as_str());
                let gr = gas_required.display();
                let line = name_value_line("Gas required", gr.as_str(), ERR_KEY_COL_WIDTH);
                s.append(line.as_str());
                let sd = deposit_text(storage_deposit);
                let line = name_value_line("Storage deposit", sd.as_str(), ERR_KEY_COL_WIDTH);
                s.append(line.as_str());
                if matches!(phase, Phase::Estimation) {
                    s.append(
                        "Pre-submission dry-run failed. Use --skip-dry-run to skip this step.\n",
                    );
                }
                assert(s@ =~= spec_render_error(*e, output));
                s
            }
        },
    }
}

/// The preview shown before asking for confirmation: the entry point,
/// the arguments, the resolved weight, and — for an instantiation from
/// already-uploaded code — the code hash.
pub open spec fn spec_preview(req: InvocationRequest, gas: Weight) -> Seq<char> {
    (match req.kind {
        RequestKind::Call { message, .. } => spec_line("Message"@, message@, KEY_COL_WIDTH as nat),
        RequestKind::Instantiate { constructor, .. } => spec_line(
            "Constructor"@,
            constructor@,
            KEY_COL_WIDTH as nat,
        ),
    }) + spec_line(
        "Args"@,
        spec_join_spaces(req.args@.map_values(|s: String| s@)),
        KEY_COL_WIDTH as nat,
    ) + spec_line("Gas limit"@, spec_weight_text(gas), KEY_COL_WIDTH as nat) + (match req.kind {
        RequestKind::Instantiate { code: CodeSource::Existing { code_hash }, .. } => spec_line(
            "Code hash"@,
            spec_hex_0x(code_hash@),
            KEY_COL_WIDTH as nat,
        ),
        _ => Seq::<char>::empty(),
    })
}

/// Renders the pre-confirmation preview. The code-hash line appears
/// exactly when the request instantiates from existing code.
pub fn render_preview(req: &InvocationRequest, gas: Weight) -> (s: String)
    ensures
        s@ == spec_preview(*req, gas),
{
    let mut s = match &req.kind {
        RequestKind::Call { message, .. } => name_value_line(
            "Message",
            message.as_str(),
            KEY_COL_WIDTH,
        ),
        RequestKind::Instantiate { constructor, .. } => name_value_line(
            "Constructor",
            constructor.as_str(),
            KEY_COL_WIDTH,
        ),
    };
    let args = join_spaces(&req.args);
    let line = name_value_line("Args", args.as_str(), KEY_COL_WIDTH);
    s.append(line.as_str());
    let g = gas.display();
    let line = name_value_line("Gas limit", g.as_str(), KEY_COL_WIDTH);
    s.append(line.as_str());
    match &req.kind {
        RequestKind::Instantiate { code: CodeSource::Existing { code_hash }, .. } => {
            let hx = hex_0x(code_hash);
            let line = name_value_line("Code hash", hx.as_str(), KEY_COL_WIDTH);
            s.append(line.as_str());
        },
        _ => {},
    }
    assert(s@ =~= spec_preview(*req, gas));
    s
}

/// The question the confirmation gate asks.
pub fn confirm_question() -> (s: String)
    ensures
        s@ == "Submit? (y/n): "@,
{
    String::from_str("Submit? (y/n): ")
}

/// A status notice shown while estimating; suppressed in JSON output.
pub enum Notice {
    /// The pre-submission dry run is starting.
    DryRunning,
    /// The dry run succeeded with this required weight.
    GasRequired { gas: Weight },
}

pub open spec fn spec_notice_text(req: InvocationRequest, n: Notice) -> Seq<char> {
    match n {
        Notice::DryRunning => "Dry-running "@ + req.spec_subject_name()@
            + " (skip with --skip-dry-run)\n"@,
        Notice::GasRequired { gas } => "Gas required estimated at "@ + spec_weight_text(gas)
            + "\n"@,
    }
}

/// Renders a status notice.
pub fn notice_text(req: &InvocationRequest, n: &Notice) -> (s: String)
    ensures
        s@ == spec_notice_text(*req, *n),
{
    match n {
        Notice::DryRunning => {
            let mut s = String::from_str("Dry-running ");
            s.append(req.subject_name().as_str());
            s.append(" (skip with --skip-dry-run)\n");
            s
        },
        Notice::GasRequired { gas } => {
            let mut s = String::from_str("Gas required estimated at ");
            let g = gas.display();
            s.append(g.as_str());
            s.append("\n");
            s
        },
    }
}

/// For one report, the JSON document and the human listing render the
/// shared fields from the very same value texts: the revert flag from
/// one boolean text, each weight axis from the decimal text of the same
/// number, the deposit amount likewise; the two outputs differ only in
/// their fixed framing.
pub proof fn lemma_json_human_symmetry_call_dry_run(r: CallDryRunResult)
    ensures
        spec_call_dry_run_json(r) =~= "{\"reverted\":"@ + spec_bool_text(r.reverted)
            + ",\"data\":\""@ + spec_json_escape(r.data@) + "\",\"gas_consumed\":"@
            + "{\"ref_time\":"@ + spec_dec(r.gas_consumed.ref_time as nat) + ",\"proof_size\":"@
            + spec_dec(r.gas_consumed.proof_size as nat) + "}"@ + ",\"gas_required\":"@
            + "{\"ref_time\":"@ + spec_dec(r.gas_required.ref_time as nat) + ",\"proof_size\":"@
            + spec_dec(r.gas_required.proof_size as nat) + "}"@ + ",\"storage_deposit\":"@
            + spec_deposit_json(r.storage_deposit) + "}"@,
        spec_call_dry_run_human(r) =~= spec_line("Result"@, r.data@, KEY_COL_WIDTH as nat)
            + spec_line("Reverted"@, spec_bool_text(r.reverted), KEY_COL_WIDTH as nat) + spec_line(
            "Gas consumed"@,
            "Weight(ref_time: "@ + spec_dec(r.gas_consumed.ref_time as nat) + ", proof_size: "@
                + spec_dec(r.gas_consumed.proof_size as nat) + ")"@,
            KEY_COL_WIDTH as nat,
        ) + spec_line(
            "Gas required"@,
            "Weight(ref_time: "@ + spec_dec(r.gas_required.ref_time as nat) + ", proof_size: "@
                + spec_dec(r.gas_required.proof_size as nat) + ")"@,
            KEY_COL_WIDTH as nat,
        ) + spec_line(
            "Storage deposit"@,
            spec_deposit_text(r.storage_deposit),
            KEY_COL_WIDTH as nat,
        ) + spec_dry_run_note("message"@),
{
}

/// As the call dry-run symmetry: both renderings of an instantiation
/// dry run draw the shared fields from the same value texts.
pub proof fn lemma_json_human_symmetry_instantiate_dry_run(r: InstantiateDryRunResult)
    ensures
        spec_instantiate_dry_run_json(r) =~= "{\"result\":\""@ + spec_json_escape(r.result@)
            + "\",\"contract\":\""@ + spec_json_escape(r.contract@) + "\",\"reverted\":"@
            + spec_bool_text(r.reverted) + ",\"gas_consumed\":"@ + "{\"ref_time\":"@ + spec_dec(
            r.gas_consumed.ref_time as nat,
        ) + ",\"proof_size\":"@ + spec_dec(r.gas_consumed.proof_size as nat) + "}"@
            + ",\"gas_required\":"@ + "{\"ref_time\":"@ + spec_dec(r.gas_required.ref_time as nat)
            + ",\"proof_size\":"@ + spec_dec(r.gas_required.proof_size as nat) + "}"@
            + ",\"storage_deposit\":"@ + spec_deposit_json(r.storage_deposit) + "}"@,
        spec_instantiate_dry_run_human(r) =~= spec_line("Result"@, r.result@, KEY_COL_WIDTH as nat)
            + spec_line("Reverted"@, spec_bool_text(r.reverted), KEY_COL_WIDTH as nat) + spec_line(
            "Contract"@,
            r.contract@,
            KEY_COL_WIDTH as nat,
        ) + spec_line(
            "Gas consumed"@,
            "Weight(ref_time: "@ + spec_dec(r.gas_consumed.ref_time as nat) + ", proof_size: "@
                + spec_dec(r.gas_consumed.proof_size as nat) + ")"@,
            KEY_COL_WIDTH as nat,
        ) + spec_line(
            "Gas required"@,
            "Weight(ref_time: "@ + spec_dec(r.gas_required.ref_time as nat) + ", proof_size: "@
                + spec_dec(r.gas_required.proof_size as nat) + ")"@,
            KEY_COL_WIDTH as nat,
        ) + spec_line(
            "Storage deposit"@,
            spec_deposit_text(r.storage_deposit),
            KEY_COL_WIDTH as nat,
        ) + spec_dry_run_note("instantiation"@),
{
}

} // verus!
