//! What is asked of inputs before they are used.
use vstd::prelude::*;

use crate::exit::{coded, done_result, error_with, usage, usage_error, ErrorView, Exit, ExitError, InputError};
use crate::model::{hive_named, Hive, RegFile, RegFormat};

use crate::number::{dec_of, push_dec};
use crate::text::{concat, concat3, debug_text, join, joined, opt_str, to_debug, views, views_push};

verus! {

/// What to do where an input says two things of one value.
#[derive(Clone, Copy, Debug, PartialEq, Eq, Structural)]
pub enum ConflictPolicy {
    LastWins,
    Error,
}

/// A value that an input gives twice.
#[derive(Debug)]
pub struct Conflict {
    pub path: String,
    pub value: String,
    pub old: String,
    pub new: String,
}

/// What reading an input gave.
#[derive(Debug)]
pub struct ReadOutcome {
    pub file: RegFile,
    /// What the input says that registry data cannot hold.
    pub losses: Vec<String>,
    pub conflicts: Vec<Conflict>,
}

/// The words for losses.
pub open spec fn losses_text(operation: Seq<char>, losses: Seq<Seq<char>>) -> Seq<char> {
    operation + " requires an exact registry-data model, but the input contains:\n  "@ + joined(
        losses,
        "\n  "@,
    )
}

/// An operation that needs its input exactly refuses one with losses.
pub fn require_lossless_input(outcome: ReadOutcome, label: &str, operation: &str) -> (r: Result<
    ReadOutcome,
    InputError,
>)
    ensures
        match r {
            Ok(o) => outcome.losses@.len() == 0 && o == outcome,
            Err(e) => outcome.losses@.len() != 0 && e.source@ == label@ && e.message@
                == losses_text(operation@, views(outcome.losses@)) && e.code == Exit::Parse,
        },
{
    if outcome.losses.len() == 0 {
        return Ok(outcome);
    }
    let mut message = concat(
        operation,
        " requires an exact registry-data model, but the input contains:\n  ",
    );
    message.append(join(outcome.losses.as_slice(), "\n  ").as_str());
    Err(InputError { source: label.to_owned(), message, code: Exit::Parse })
}

/// A conflict in words.
pub open spec fn conflict_text(c: Conflict) -> Seq<char> {
    c.path@ + "\\"@ + c.value@ + ": "@ + debug_text(c.old@) + " overridden by "@ + debug_text(
        c.new@,
    )
}

/// Conflicts in words.
pub open spec fn conflict_texts(cs: Seq<Conflict>) -> Seq<Seq<char>> {
    cs.map_values(|c: Conflict| conflict_text(c))
}

/// Each conflict in words.
pub fn conflict_lines(conflicts: &Vec<Conflict>) -> (out: Vec<String>)
    ensures
        views(out@) == conflict_texts(conflicts@),
{
    broadcast use views_push;

    let mut out: Vec<String> = Vec::new();
    for i in 0..conflicts.len()
        invariant
            views(out@) =~= conflict_texts(conflicts@.take(i as int)),
    {
        let c = &conflicts[i];
        let mut one = concat3(c.path.as_str(), "\\", c.value.as_str());
        one.append(": ");
        one.append(to_debug(c.old.as_str()).as_str());
        one.append(" overridden by ");
        one.append(to_debug(c.new.as_str()).as_str());
        let ghost before = out@;
        out.push(one);
        assert(views(out@) == views(before).push(one@));
    }
    assert(conflicts@.take(conflicts@.len() as int) =~= conflicts@);
    out
}

/// The words for conflicts inside one input.
pub open spec fn conflicts_text(operation: Seq<char>, cs: Seq<Conflict>) -> Seq<char> {
    operation + " refused "@ + dec_of(cs.len()) + " semantic conflict(s) inside this input:\n  "@
        + joined(conflict_texts(cs), "\n  "@)
}

/// Conflicts inside one input are refused, unless the last one wins.
pub fn require_allowed_conflicts(
    outcome: &ReadOutcome,
    label: &str,
    policy: ConflictPolicy,
    operation: &str,
) -> (r: Result<(), InputError>)
    ensures
        match r {
            Ok(_) => policy == ConflictPolicy::LastWins || outcome.conflicts@.len() == 0,
            Err(e) => policy == ConflictPolicy::Error && outcome.conflicts@.len() != 0
                && e.source@ == label@ && e.message@ == conflicts_text(
                operation@,
                outcome.conflicts@,
            ) && e.code == Exit::Parse,
        },
{
    if policy == ConflictPolicy::LastWins || outcome.conflicts.len() == 0 {
        return Ok(());
    }
    let mut message = concat(operation, " refused ");
    push_dec(&mut message, outcome.conflicts.len() as u64);
    message.append(" semantic conflict(s) inside this input:\n  ");
    message.append(join(conflict_lines(&outcome.conflicts).as_slice(), "\n  ").as_str());
    Err(InputError { source: label.to_owned(), message, code: Exit::Parse })
}

/// When conflicts come up.
#[derive(Clone, Copy, Debug, PartialEq, Eq, Structural)]
pub enum Stage {
    /// When the blocks of one input are brought together.
    Coalesced,
    /// When several inputs were combined and redirected.
    Combined,
    /// When one input was redirected.
    Redirected,
    /// When several inputs are merged.
    Merged,
    /// When the operations of a batch were redirected.
    Batch,
}

/// What to do about conflicts of a stage.
pub open spec fn advice(stage: Stage) -> Seq<char> {
    match stage {
        Stage::Coalesced => "; reconcile the input or use --conflicts last-wins"@,
        Stage::Combined =>
            " after combining and redirecting inputs; reconcile the sources or use --conflicts last-wins"@,
        Stage::Redirected =>
            " after redirection; reconcile the input or use --conflicts last-wins"@,
        Stage::Merged => "; reorder or reconcile the inputs, or use --conflicts last-wins"@,
        Stage::Batch =>
            " introduced inside operations by redirection; reconcile the manifest or use --conflicts last-wins"@,
    }
}

/// Conflicts between blocks end an operation, unless the last one wins.
pub open spec fn conflicts_end(
    count: nat,
    policy: ConflictPolicy,
    operation: Seq<char>,
    stage: Stage,
) -> Result<(), ErrorView> {
    if policy == ConflictPolicy::LastWins || count == 0 {
        Ok(())
    } else {
        Err(
            error_with(
                Exit::Parse,
                operation + " refused "@ + dec_of(count) + " semantic conflict(s)"@ + advice(stage),
            ),
        )
    }
}

/// Conflicts between blocks are refused, unless the last one wins.
pub fn require_coalesce_conflicts(
    count: usize,
    policy: ConflictPolicy,
    operation: &str,
    stage: Stage,
) -> (r: Result<(), ExitError>)
    ensures
        done_result(r) == conflicts_end(count as nat, policy, operation@, stage),
{
    if policy == ConflictPolicy::LastWins || count == 0 {
        return Ok(());
    }
    let mut message = concat(operation, " refused ");
    push_dec(&mut message, count as u64);
    message.append(" semantic conflict(s)");
    message.append(
        match stage {
            Stage::Coalesced => "; reconcile the input or use --conflicts last-wins",
            Stage::Combined =>
                " after combining and redirecting inputs; reconcile the sources or use --conflicts last-wins",
            Stage::Redirected =>
                " after redirection; reconcile the input or use --conflicts last-wins",
            Stage::Merged => "; reorder or reconcile the inputs, or use --conflicts last-wins",
            Stage::Batch =>
                " introduced inside operations by redirection; reconcile the manifest or use --conflicts last-wins",
        },
    );
    Err(coded(Exit::Parse, message))
}

// ---------------------------------------------------------------------------
// Formats
// ---------------------------------------------------------------------------

/// A format that registry data is written in.
#[derive(Clone, Copy, Debug, PartialEq, Eq, Structural)]
pub enum DataFormat {
    Reg,
    Json,
    Csv,
    Pol,
}

/// The name of a format.
pub open spec fn format_name(f: DataFormat) -> Seq<char> {
    match f {
        DataFormat::Reg => "reg"@,
        DataFormat::Json => "json"@,
        DataFormat::Csv => "csv"@,
        DataFormat::Pol => "pol"@,
    }
}

/// The name of a format.
pub fn data_format_name(format: DataFormat) -> (r: &'static str)
    ensures
        r@ == format_name(format),
{
    match format {
        DataFormat::Reg => "reg",
        DataFormat::Json => "json",
        DataFormat::Csv => "csv",
        DataFormat::Pol => "pol",
    }
}

/// The version of the text format that a command writes. Only the text format
/// has an older one.
pub fn output_version(reg4: bool, to: DataFormat) -> (r: Result<RegFormat, ExitError>)
    ensures
        match r {
            Ok(v) => !(reg4 && to != DataFormat::Reg) && v == if reg4 {
                RegFormat::V4
            } else {
                RegFormat::V5
            },
            Err(e) => reg4 && to != DataFormat::Reg && e@ == usage_error(
                "--reg4 can only be used with --to reg"@,
            ),
        },
{
    if reg4 && to != DataFormat::Reg {
        return Err(usage("--reg4 can only be used with --to reg".to_owned()));
    }
    Ok(
        if reg4 {
            RegFormat::V4
        } else {
            RegFormat::V5
        },
    )
}

/// The hive that policy files are read below.
pub fn read_pol_root(name: &str) -> (r: Result<Hive, ExitError>)
    ensures
        match (r, hive_named(name@)) {
            (Ok(h), Some(hive)) => h == hive,
            (Err(e), None) => e@ == usage_error(
                "--pol-root "@ + debug_text(name@) + " is not a hive name (try HKLM or HKCU)"@,
            ),
            _ => false,
        },
{
    match Hive::parse(name) {
        Some(h) => Ok(h),
        None => Err(
            usage(
                concat3(
                    "--pol-root ",
                    to_debug(name).as_str(),
                    " is not a hive name (try HKLM or HKCU)",
                ),
            ),
        ),
    }
}

/// What a run over JSON output and a data format would put on standard output.
pub open spec fn claims_stdout(json: bool, has_out: bool, to: DataFormat) -> bool {
    json && !has_out && to != DataFormat::Reg && to != DataFormat::Json
}

/// With JSON output, data in a format that is no text of its own needs a file.
pub fn check_stdout(json: bool, has_out: bool, to: DataFormat, complaint: &str) -> (r: Result<
    (),
    ExitError,
>)
    ensures
        done_result(r) == if claims_stdout(json, has_out, to) {
            Err::<(), ErrorView>(usage_error(complaint@))
        } else {
            Ok(())
        },
{
    if json && !has_out && to != DataFormat::Reg && to != DataFormat::Json {
        return Err(usage(complaint.to_owned()));
    }
    Ok(())
}

// ---------------------------------------------------------------------------
// Validation
// ---------------------------------------------------------------------------

/// How `validate` was asked for.
#[derive(Clone, Copy, Debug, PartialEq, Eq, Structural)]
pub struct ValidateRequest {
    pub files: usize,
    /// Some input is standard input or a pipe.
    pub stream: bool,
    pub fix: bool,
    pub has_out: bool,
    pub backup: bool,
}

/// Why a request to validate is refused.
pub open spec fn validate_refusal(q: ValidateRequest) -> Option<Seq<char>> {
    if q.fix && q.files != 1 {
        Some("`validate --fix` accepts exactly one input so repairs cannot be partially applied"@)
    } else if q.fix && q.stream && !q.has_out {
        Some(
            "`validate` stream input with `--fix` requires --out because a stream cannot be rewritten"@,
        )
    } else if q.backup && q.stream {
        Some("`validate --backup` is not meaningful for stream input"@)
    } else {
        None
    }
}

/// Whether a request to validate can be carried out.
pub fn check_validate(q: ValidateRequest) -> (r: Result<(), ExitError>)
    ensures
        done_result(r) == match validate_refusal(q) {
            Some(m) => Err::<(), ErrorView>(usage_error(m)),
            None => Ok(()),
        },
{
    if q.fix && q.files != 1 {
        return Err(
            usage(
                "`validate --fix` accepts exactly one input so repairs cannot be partially applied".to_owned(),
            ),
        );
    }
    if q.fix && q.stream && !q.has_out {
        return Err(
            usage(
                "`validate` stream input with `--fix` requires --out because a stream cannot be rewritten".to_owned(),
            ),
        );
    }
    if q.backup && q.stream {
        return Err(usage("`validate --backup` is not meaningful for stream input".to_owned()));
    }
    Ok(())
}

/// The extension of the copy that is kept of a repaired file.
pub fn backup_extension(extension: Option<&str>) -> (r: String)
    ensures
        r@ == (match opt_str(extension) {
            Some(e) => e,
            None => Seq::empty(),
        }) + ".bak"@,
{
    match extension {
        Some(e) => concat(e, ".bak"),
        None => {
            let r = ".bak".to_owned();
            assert(Seq::<char>::empty() + ".bak"@ =~= ".bak"@);
            r
        },
    }
}

// ---------------------------------------------------------------------------
// Laws
// ---------------------------------------------------------------------------

/// Where the last statement wins, conflicts refuse nothing, at any stage.
pub proof fn last_wins_refuses_nothing(count: nat, operation: Seq<char>, stage: Stage)
    ensures
        conflicts_end(count, ConflictPolicy::LastWins, operation, stage) is Ok,
{
}

} // verus!
