//! Which command runs, and what is refused before it does.
use vstd::prelude::*;

use crate::exit::{access_denied, denied_error, ErrorView, Exit, ExitError};
use crate::text::{concat, opt_str};

verus! {

/// The commands.
#[derive(Clone, Copy, Debug, PartialEq, Eq, Structural)]
pub enum CommandKind {
    Lnk,
    Validate,
    Convert,
    Merge,
    Import,
    Undo,
    Sync,
    Formats,
    Completions,
    Audit,
    Inspect,
    Discover,
    Export,
    Query,
    Ls,
    Stats,
    Fingerprint,
    SetValue,
    DeleteKey,
    Probe,
    Permissions,
    Search,
    Watch,
    Plan,
    ApplyPlan,
    BatchFile,
    CopyKey,
    MoveKey,
    CopyValue,
    MoveValue,
    ApplyCopyPlan,
    Backup,
    Restore,
    HiveOperation,
    /// Several operations on an offline hive.
    HiveScript,
    Diff,
}

/// Why a command cannot report its status as JSON: it owns standard output for
/// something else.
pub open spec fn json_conflict(command: CommandKind) -> Option<Seq<char>> {
    match command {
        CommandKind::Convert => Some("use `convert --to json` for registry-data JSON"@),
        CommandKind::Merge => Some("use `merge --to json` for registry-data JSON"@),
        CommandKind::Completions => Some(
            "completion scripts are shell source and cannot be encoded as JSON"@,
        ),
        CommandKind::HiveScript => Some(
            "`hive exec` can contain several operations; invoke each operation separately for JSON"@,
        ),
        _ => None,
    }
}

/// Why a command cannot report its status as JSON.
pub fn json_output_conflict(command: CommandKind) -> (r: Option<&'static str>)
    ensures
        opt_str(r) == json_conflict(command),
{
    match command {
        CommandKind::Convert => Some("use `convert --to json` for registry-data JSON"),
        CommandKind::Merge => Some("use `merge --to json` for registry-data JSON"),
        CommandKind::Completions => Some(
            "completion scripts are shell source and cannot be encoded as JSON",
        ),
        CommandKind::HiveScript => Some(
            "`hive exec` can contain several operations; invoke each operation separately for JSON",
        ),
        _ => None,
    }
}

/// What a run does before and instead of its command.
#[derive(Debug)]
pub enum Route {
    /// Says what is wrong with the request, and ends.
    Refuse(String),
    /// Writes a completion script; the policy is not even read.
    Completions,
    /// Reads the policy, checks the environment where asked to, and goes on.
    Run { self_check: bool, command: Option<CommandKind> },
}

/// What a `Route` stands for.
pub enum RouteView {
    Refuse(Seq<char>),
    Completions,
    Run { self_check: bool, command: Option<CommandKind> },
}

impl View for Route {
    type V = RouteView;

    open spec fn view(&self) -> RouteView {
        match self {
            Route::Refuse(s) => RouteView::Refuse(s@),
            Route::Completions => RouteView::Completions,
            Route::Run { self_check, command } => RouteView::Run {
                self_check: *self_check,
                command: *command,
            },
        }
    }
}

/// What a run does. With JSON output there is exactly one document on standard
/// output.
pub open spec fn route_of(json: bool, self_check: bool, command: Option<CommandKind>) -> RouteView {
    if json && self_check && command is Some {
        RouteView::Refuse(
            "`--self-check --output json` cannot be combined with a command because stdout must contain exactly one JSON document"@,
        )
    } else if json && command is Some && json_conflict(command->0) is Some {
        RouteView::Refuse(
            "this command produces a data/script stream rather than a status document; "@
                + json_conflict(command->0)->0,
        )
    } else if !self_check && command == Some(CommandKind::Completions) {
        RouteView::Completions
    } else if !self_check && command is None {
        RouteView::Refuse(
            "no command given. Try `regx --help`, or `regx --self-check`."@,
        )
    } else {
        RouteView::Run { self_check, command }
    }
}

fn is_completions(command: Option<CommandKind>) -> (b: bool)
    ensures
        b == (command == Some(CommandKind::Completions)),
{
    match command {
        Some(c) => c == CommandKind::Completions,
        None => false,
    }
}

/// What a run does.
pub fn route(json: bool, self_check: bool, command: Option<CommandKind>) -> (r: Route)
    ensures
        r@ == route_of(json, self_check, command),
{
    if json {
        if self_check && command.is_some() {
            return Route::Refuse(
                "`--self-check --output json` cannot be combined with a command because stdout must contain exactly one JSON document".to_owned(),
            );
        }
        if let Some(c) = command {
            if let Some(guidance) = json_output_conflict(c) {
                return Route::Refuse(
                    concat(
                        "this command produces a data/script stream rather than a status document; ",
                        guidance,
                    ),
                );
            }
        }
    }
    if !self_check && is_completions(command) {
        return Route::Completions;
    }
    if !self_check && command.is_none() {
        return Route::Refuse(
            "no command given. Try `regx --help`, or `regx --self-check`.".to_owned(),
        );
    }
    Route::Run { self_check, command }
}

/// With JSON output a check of the environment is never followed by a command,
/// and a command that owns standard output never runs.
pub proof fn json_runs_write_one_document(self_check: bool, command: Option<CommandKind>)
    ensures
        route_of(true, self_check, command) matches RouteView::Run { self_check: s, command: c }
            ==> !(s && c is Some) && (c matches Some(k) ==> json_conflict(k) is None),
{
}

/// The policy forbids a command: the offline hive engine can be disabled.
pub fn check_hive_allowed(command: CommandKind, disable_hive: bool) -> (r: Result<(), ExitError>)
    ensures
        crate::exit::done_result(r) == (if disable_hive && (command == CommandKind::HiveOperation
            || command == CommandKind::HiveScript) {
            Err::<(), ErrorView>(
                denied_error(
                    "the offline hive engine is disabled by administrative policy (HKLM\\SOFTWARE\\Policies\\regx, DisableHive)"@,
                ),
            )
        } else if disable_hive && (command == CommandKind::Backup || command
            == CommandKind::Restore) {
            Err(
                denied_error("the offline hive engine is disabled by administrative policy"@),
            )
        } else {
            Ok(())
        }),
{
    if disable_hive {
        if command == CommandKind::HiveOperation || command == CommandKind::HiveScript {
            return Err(
                access_denied(
                    "the offline hive engine is disabled by administrative policy (HKLM\\SOFTWARE\\Policies\\regx, DisableHive)".to_owned(),
                ),
            );
        }
        if command == CommandKind::Backup || command == CommandKind::Restore {
            return Err(
                access_denied(
                    "the offline hive engine is disabled by administrative policy".to_owned(),
                ),
            );
        }
    }
    Ok(())
}

// ---------------------------------------------------------------------------
// Operations on an offline hive
// ---------------------------------------------------------------------------

/// The operations on an offline hive.
#[derive(Clone, Copy, Debug, PartialEq, Eq, Structural)]
pub enum HiveOpKind {
    Info,
    Ls,
    Query,
    Stats,
    Fingerprint,
    Probe,
    Permissions,
    Search,
    Diff,
    SetValue,
    DeleteKey,
    CopyKey,
    MoveKey,
    CopyValue,
    MoveValue,
    Import,
    Undo,
    Sync,
    BatchFile,
    Export,
}

/// An operation changes the hive.
pub open spec fn writes(op: HiveOpKind) -> bool {
    match op {
        HiveOpKind::SetValue => true,
        HiveOpKind::DeleteKey => true,
        HiveOpKind::CopyKey => true,
        HiveOpKind::MoveKey => true,
        HiveOpKind::CopyValue => true,
        HiveOpKind::MoveValue => true,
        HiveOpKind::Import => true,
        HiveOpKind::Undo => true,
        HiveOpKind::Sync => true,
        HiveOpKind::BatchFile => true,
        _ => false,
    }
}

/// Whether an operation changes the hive.
pub fn op_needs_write(op: HiveOpKind) -> (b: bool)
    ensures
        b == writes(op),
{
    match op {
        HiveOpKind::SetValue => true,
        HiveOpKind::DeleteKey => true,
        HiveOpKind::CopyKey => true,
        HiveOpKind::MoveKey => true,
        HiveOpKind::CopyValue => true,
        HiveOpKind::MoveValue => true,
        HiveOpKind::Import => true,
        HiveOpKind::Undo => true,
        HiveOpKind::Sync => true,
        HiveOpKind::BatchFile => true,
        _ => false,
    }
}

/// A script changes the hive where one of its operations does. One that cannot
/// be read counts as one that does: its own error is the better one.
pub open spec fn script_writes(ops: Seq<Option<HiveOpKind>>) -> bool {
    exists|i: int|
        0 <= i < ops.len() && (#[trigger] ops[i] matches Some(op) ==> writes(op))
}

/// Whether a script changes the hive.
pub fn script_needs_write(ops: &Vec<Option<HiveOpKind>>) -> (b: bool)
    ensures
        b == script_writes(ops@),
{
    for i in 0..ops.len()
        invariant
            forall|j: int| 0 <= j < i ==> !(#[trigger] ops@[j] matches Some(op) ==> writes(op)),
    {
        let needs = match ops[i] {
            Some(op) => op_needs_write(op),
            None => true,
        };
        if needs {
            assert(ops@[i as int] matches Some(op) ==> writes(op));
            return true;
        }
    }
    false
}

/// What became of one operation of a script.
#[derive(Clone, Copy, Debug, PartialEq, Eq, Structural)]
pub enum ScriptOutcome {
    /// The line could not be read.
    Unreadable,
    /// It ran and ended in this way.
    Ended(Exit),
    /// It failed with an error.
    Failed,
}

/// How a script stands after an operation: the last failure counts, and it ends
/// the script unless it is to keep going.
pub open spec fn script_after(worst: Exit, outcome: ScriptOutcome, keep_going: bool) -> (
    Exit,
    bool,
) {
    match outcome {
        ScriptOutcome::Unreadable => (Exit::Usage, keep_going),
        ScriptOutcome::Failed => (Exit::Io, keep_going),
        ScriptOutcome::Ended(code) => if code == Exit::Success {
            (worst, true)
        } else {
            (code, keep_going)
        },
    }
}

/// How a script stands after an operation, and whether it goes on.
pub fn after_operation(worst: Exit, outcome: ScriptOutcome, keep_going: bool) -> (r: (Exit, bool))
    ensures
        r == script_after(worst, outcome, keep_going),
{
    match outcome {
        ScriptOutcome::Unreadable => (Exit::Usage, keep_going),
        ScriptOutcome::Failed => (Exit::Io, keep_going),
        ScriptOutcome::Ended(code) => if code == Exit::Success {
            (worst, true)
        } else {
            (code, keep_going)
        },
    }
}

/// A script that succeeded had no operation that did not.
pub proof fn failures_are_never_forgotten(
    worst: Exit,
    outcome: ScriptOutcome,
    keep_going: bool,
)
    ensures
        script_after(worst, outcome, keep_going).0 == Exit::Success ==> worst == Exit::Success
            && outcome == ScriptOutcome::Ended(Exit::Success),
{
}

} // verus!
