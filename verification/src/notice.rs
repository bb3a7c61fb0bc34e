//! What is said of a command while it runs.
use vstd::prelude::*;

use crate::number::{dec_of, push_dec};
use crate::question::{either, push_either};
use crate::text::{debug_text, to_debug};

verus! {

/// An optional text between two others, or nothing.
pub open spec fn framed(before: Seq<char>, text: Option<String>, after: Seq<char>) -> Seq<char> {
    match text {
        Some(t) => before + t@ + after,
        None => Seq::empty(),
    }
}

fn push_framed(out: &mut String, before: &str, text: &Option<String>, after: &str)
    ensures
        final(out)@ == old(out)@ + framed(before@, *text, after@),
{
    match text {
        Some(t) => {
            out.append(crate::text::concat3(before, t.as_str(), after).as_str());
        },
        None => {
            assert(out@ + Seq::<char>::empty() =~= out@);
        },
    }
}

/// A text between two others, or nothing where it is empty.
pub open spec fn unless_empty(before: Seq<char>, text: Seq<char>, after: Seq<char>) -> Seq<char> {
    if text.len() == 0 {
        Seq::empty()
    } else {
        before + text + after
    }
}

fn push_unless_empty(out: &mut String, before: &str, text: &str, after: &str)
    ensures
        final(out)@ == old(out)@ + unless_empty(before@, text@, after@),
{
    if text.is_empty() {
        assert(out@ + Seq::<char>::empty() =~= out@);
    } else {
        out.append(crate::text::concat3(before, text, after).as_str());
    }
}

/// A number between two texts, or nothing where it is zero.
pub open spec fn unless_zero(before: Seq<char>, n: nat, after: Seq<char>) -> Seq<char> {
    if n == 0 {
        Seq::empty()
    } else {
        before + dec_of(n) + after
    }
}

fn push_unless_zero(out: &mut String, before: &str, n: usize, after: &str)
    ensures
        final(out)@ == old(out)@ + unless_zero(before@, n as nat, after@),
{
    if n == 0 {
        assert(out@ + Seq::<char>::empty() =~= out@);
    } else {
        let mut one = before.to_owned();
        push_dec(&mut one, n as u64);
        one.append(after);
        out.append(one.as_str());
    }
}

/// A text, or another where it is empty.
pub open spec fn or_other(text: Seq<char>, other: Seq<char>) -> Seq<char> {
    if text.len() == 0 {
        other
    } else {
        text
    }
}

fn push_or_other(out: &mut String, text: &str, other: &str)
    ensures
        final(out)@ == old(out)@ + or_other(text@, other@),
{
    if text.is_empty() {
        out.append(other);
    } else {
        out.append(text);
    }
}

/// Why something is not done, or not in full.
#[derive(Debug)]
pub enum Refusal {
    /// Something failed.
    Failed { error: String },
    /// Something failed in a view.
    ViewFailed { view: String, error: String },
    /// A view could not be read.
    ViewNotRead { view: String, error: String },
    /// One side of a comparison could not be read in a view.
    SideNotRead { view: String, side: String, error: String },
    /// The question was not answered with yes.
    Aborted,
    /// Nothing is left to apply.
    NothingLeft,
    /// Keys have no place to go to.
    NotRedirected { keys: usize },
    /// Keys of a batch have no place to go to.
    BatchNotRedirected { keys: usize },
    /// No operation of a batch is left.
    BatchEmpty,
    /// A file with syntax errors is not repaired.
    SyntaxErrors { file: String },
    /// The values to prune could not be read in full.
    ValuesUnread { view: String, error: String },
    /// The keys to prune could not be read in full.
    KeysUnread { view: String, error: String },
    /// The values to prune in a hive could not be read in full.
    HiveValuesUnread { error: String },
    /// The keys to prune in a hive could not be read in full.
    HiveKeysUnread { error: String },
    /// A partial change cannot be taken back.
    ChangesRemain,
    /// A plan is not fit to be saved.
    PlanNotSaved,
    /// A saved plan no longer fits.
    StalePlan { error: String },
    /// The key of a value to copy could not be read in full.
    SourceKeyUnread { verb: String, view: String },
    /// The key to copy a value to could not be read in full.
    DestinationKeyUnread { verb: String, view: String },
    /// The value to copy does not exist.
    NoSourceValue { source: String, value: String, in_view: Option<String> },
    /// A key to back up could not be read in full.
    BackupIncomplete { view: String, subkeys: usize },
    /// A backup could not be read in full.
    RestoreIncomplete { in_view: Option<String>, subkeys: usize },
    /// A key to copy could not be read in full.
    CopyIncomplete { verb: String, in_view: Option<String>, subkeys: usize },
    /// A key of a hive to copy could not be read in full.
    HiveCopyIncomplete { verb: String, subkeys: usize },
    /// What could not be read could not be taken back.
    RollbackOmits { change: String, keys: usize },
    /// What could not be read could not be done again.
    RedoOmits { keys: usize },
    /// A copy could not be taken back in full.
    RollbackIncomplete { verb: String, keys: usize },
    /// A move keeps its source.
    SourcePreserved,
    /// An earlier view failed.
    NotAttempted,
    /// No value was selected.
    NoValues { hive: bool },
    /// No key was selected.
    NoKeys { hive: bool },
    /// Nothing lies in the scope.
    NoState { in_view: Option<String>, hive: bool, scope: String },
    /// A fingerprint is not the expected one.
    Mismatch { in_view: Option<String>, hive: bool, expected: String },
    /// A line of a script is no operation.
    OperationUnclear { position: usize, line: String, error: String },
    /// An operation of a script failed.
    OperationFailed { position: usize, error: String },
    /// A broken log is not rotated.
    RotateBroken,
    /// An empty or broken log is not anchored.
    AnchorBroken,
    /// An anchor is not authentic.
    AnchorForged { anchor: String, error: String },
    /// A side of a comparison could not be read in full.
    ComparisonIncomplete { subkeys: usize, source: String },
    /// A patch would be incomplete.
    PatchIncomplete,
    /// A patch is only rehearsed.
    PatchRehearsed,
    /// The patch of a view would be incomplete.
    ViewPatchIncomplete { view: String },
    /// A key to watch could not be read in full.
    BaselineIncomplete { in_view: Option<String>, subkeys: usize },
    /// What changed could not be read in full.
    ChangeIncomplete,
    /// What changed could not be read in full in some view.
    ViewsIncomplete,
    /// Permissions could not be read.
    PermissionsUnread { error: String },
}

/// The words of a refusal.
pub open spec fn refusal_text(n: Refusal) -> Seq<char> {
    match n {
        Refusal::Failed { error } => "regx: "@ + error@,
        Refusal::ViewFailed { view, error } => "regx: view "@ + view@ + ": "@ + error@,
        Refusal::ViewNotRead { view, error } => "regx: view "@ + view@ + " failed: "@ + error@,
        Refusal::SideNotRead { view, side, error } => "regx: view "@ + view@ + ", side "@ + side@
            + " failed: "@ + error@,
        Refusal::Aborted => "regx: aborted"@,
        Refusal::NothingLeft => "regx: nothing left to apply"@,
        Refusal::NotRedirected { keys } => "regx: "@ + dec_of(keys as nat)
            + " key(s) could not be redirected (--on-refuse fail)"@,
        Refusal::BatchNotRedirected { keys } => "regx: "@ + dec_of(keys as nat)
            + " key(s) could not be redirected; batch not started"@,
        Refusal::BatchEmpty => "regx: batch contains no operation left to apply"@,
        Refusal::SyntaxErrors { file } => file@
            + ": syntax errors present; --fix only repairs structurally valid files"@,
        Refusal::ValuesUnread { view, error } => "regx: refusing incomplete value reconciliation in view "@
            + view@ + ": "@ + error@,
        Refusal::KeysUnread { view, error } => "regx: refusing incomplete key reconciliation in view "@
            + view@ + ": "@ + error@,
        Refusal::HiveValuesUnread { error } => "regx: refusing incomplete hive value reconciliation: "@
            + error@,
        Refusal::HiveKeysUnread { error } => "regx: refusing incomplete hive key reconciliation: "@
            + error@,
        Refusal::ChangesRemain => "regx: WARNING - partial changes remain because --no-backup disabled automatic rollback"@,
        Refusal::PlanNotSaved => "regx: saved plan not written because the plan is incomplete or blocked"@,
        Refusal::StalePlan { error } => "regx: refusing stale saved plan: "@ + error@,
        Refusal::SourceKeyUnread { verb, view } => "regx: refusing "@ + verb@ + " in view "@
            + view@ + "; the source key is unreadable"@,
        Refusal::DestinationKeyUnread { verb, view } => "regx: refusing "@ + verb@ + " in view "@
            + view@ + "; the destination key is unreadable"@,
        Refusal::NoSourceValue { source, value, in_view } => "regx: source value "@ + source@
            + "\\"@ + value@ + " does not exist"@ + framed(" in view "@, in_view, ""@),
        Refusal::BackupIncomplete { view, subkeys } => "regx: refusing an incomplete backup for view "@
            + view@ + "; "@ + dec_of(subkeys as nat) + " subkey(s) were unreadable"@,
        Refusal::RestoreIncomplete { in_view, subkeys } => "regx: refusing an incomplete restore"@
            + framed(" for view "@, in_view, ""@) + "; "@ + dec_of(subkeys as nat)
            + " backup subkey(s) were unreadable"@,
        Refusal::CopyIncomplete { verb, in_view, subkeys } => "regx: refusing an incomplete "@
            + verb@ + framed(" in view "@, in_view, ""@) + "; "@ + dec_of(subkeys as nat)
            + " source subkey(s) were unreadable:"@,
        Refusal::HiveCopyIncomplete { verb, subkeys } => "regx: refusing an incomplete hive "@
            + verb@ + "; "@ + dec_of(subkeys as nat) + " source subkey(s) were unreadable"@,
        Refusal::RollbackOmits { change, keys } => "regx: refusing "@ + change@
            + "; rollback would omit "@ + dec_of(keys as nat) + " unreadable key(s)"@,
        Refusal::RedoOmits { keys } => "regx: refusing hive undo; redo would omit "@
            + dec_of(keys as nat) + " unreadable key(s)"@,
        Refusal::RollbackIncomplete { verb, keys } => "regx: refusing "@ + verb@
            + "; rollback would be incomplete because "@ + dec_of(keys as nat)
            + " key(s) are unreadable"@,
        Refusal::SourcePreserved => "regx: source preserved because the destination copy was incomplete"@,
        Refusal::NotAttempted => "regx: not attempted because an earlier view failed"@,
        Refusal::NoValues { hive } => "regx: no "@ + either(hive, "offline-hive"@, "registry"@)
            + " values matched the selection"@,
        Refusal::NoKeys { hive } => "regx: no "@ + either(hive, "offline-hive"@, "registry"@)
            + " keys matched the selection"@,
        Refusal::NoState { in_view, hive, scope } => "regx: "@ + framed("view "@, in_view, ": "@)
            + "no "@ + either(hive, "offline-hive"@, "registry"@) + " state matched the "@
            + scope@ + " scope"@,
        Refusal::Mismatch { in_view, hive, expected } => "regx: "@
            + framed("view "@, in_view, ": "@) + either(hive, "hive "@, ""@)
            + "fingerprint mismatch (expected "@ + expected@ + ")"@,
        Refusal::OperationUnclear { position, line, error } => "regx: op "@
            + dec_of(position as nat) + " ("@ + debug_text(line@) + "): "@ + error@,
        Refusal::OperationFailed { position, error } => "regx: op "@ + dec_of(position as nat)
            + " failed: "@ + error@,
        Refusal::RotateBroken => "regx: refusing to rotate a broken audit log"@,
        Refusal::AnchorBroken => "regx: refusing to anchor an empty or broken audit log"@,
        Refusal::AnchorForged { anchor, error } => "regx: audit anchor authentication failed for "@
            + anchor@ + ": "@ + error@,
        Refusal::ComparisonIncomplete { subkeys, source } => "regx: "@ + dec_of(subkeys as nat)
            + " subkey(s) of "@ + source@ + " were unreadable; the comparison is incomplete"@,
        Refusal::PatchIncomplete => "regx: patch not written because at least one source is incomplete or ambiguous; inspect and repair the source first"@,
        Refusal::PatchRehearsed => "regx: --dry-run, patch not written"@,
        Refusal::ViewPatchIncomplete { view } => "regx: view "@ + view@
            + " patch not written because the dual-view comparison failed or is incomplete"@,
        Refusal::BaselineIncomplete { in_view, subkeys } => "regx: refusing an incomplete watch baseline"@
            + framed(" in view "@, in_view, ""@) + "; "@ + dec_of(subkeys as nat)
            + " subkey(s) were unreadable"@,
        Refusal::ChangeIncomplete => "regx: change observed, but the resulting snapshot is incomplete"@,
        Refusal::ViewsIncomplete => "regx: change observed, but at least one resulting view is incomplete"@,
        Refusal::PermissionsUnread { error } => "  permissions failed: "@ + error@,
    }
}

impl Refusal {
    /// The words of a refusal.
    pub fn text(&self) -> (out: String)
        ensures
            out@ == refusal_text(*self),
    {
        let mut out = String::new();
        match self {
            Refusal::Failed { error } => {
                out = "regx: ".to_owned();
                out.append(error.as_str());
            },
            Refusal::ViewFailed { view, error } => {
                out = "regx: view ".to_owned();
                out.append(view.as_str());
                out.append(": ");
                out.append(error.as_str());
            },
            Refusal::ViewNotRead { view, error } => {
                out = "regx: view ".to_owned();
                out.append(view.as_str());
                out.append(" failed: ");
                out.append(error.as_str());
            },
            Refusal::SideNotRead { view, side, error } => {
                out = "regx: view ".to_owned();
                out.append(view.as_str());
                out.append(", side ");
                out.append(side.as_str());
                out.append(" failed: ");
                out.append(error.as_str());
            },
            Refusal::Aborted => {
                out = "regx: aborted".to_owned();
            },
            Refusal::NothingLeft => {
                out = "regx: nothing left to apply".to_owned();
            },
            Refusal::NotRedirected { keys } => {
                out = "regx: ".to_owned();
                push_dec(&mut out, *keys as u64);
                out.append(" key(s) could not be redirected (--on-refuse fail)");
            },
            Refusal::BatchNotRedirected { keys } => {
                out = "regx: ".to_owned();
                push_dec(&mut out, *keys as u64);
                out.append(" key(s) could not be redirected; batch not started");
            },
            Refusal::BatchEmpty => {
                out = "regx: batch contains no operation left to apply".to_owned();
            },
            Refusal::SyntaxErrors { file } => {
                out.append(file.as_str());
                out.append(": syntax errors present; --fix only repairs structurally valid files");
            },
            Refusal::ValuesUnread { view, error } => {
                out = "regx: refusing incomplete value reconciliation in view ".to_owned();
                out.append(view.as_str());
                out.append(": ");
                out.append(error.as_str());
            },
            Refusal::KeysUnread { view, error } => {
                out = "regx: refusing incomplete key reconciliation in view ".to_owned();
                out.append(view.as_str());
                out.append(": ");
                out.append(error.as_str());
            },
            Refusal::HiveValuesUnread { error } => {
                out = "regx: refusing incomplete hive value reconciliation: ".to_owned();
                out.append(error.as_str());
            },
            Refusal::HiveKeysUnread { error } => {
                out = "regx: refusing incomplete hive key reconciliation: ".to_owned();
                out.append(error.as_str());
            },
            Refusal::ChangesRemain => {
                out = "regx: WARNING - partial changes remain because --no-backup disabled automatic rollback".to_owned();
            },
            Refusal::PlanNotSaved => {
                out = "regx: saved plan not written because the plan is incomplete or blocked".to_owned();
            },
            Refusal::StalePlan { error } => {
                out = "regx: refusing stale saved plan: ".to_owned();
                out.append(error.as_str());
            },
            Refusal::SourceKeyUnread { verb, view } => {
                out = "regx: refusing ".to_owned();
                out.append(verb.as_str());
                out.append(" in view ");
                out.append(view.as_str());
                out.append("; the source key is unreadable");
            },
            Refusal::DestinationKeyUnread { verb, view } => {
                out = "regx: refusing ".to_owned();
                out.append(verb.as_str());
                out.append(" in view ");
                out.append(view.as_str());
                out.append("; the destination key is unreadable");
            },
            Refusal::NoSourceValue { source, value, in_view } => {
                out = "regx: source value ".to_owned();
                out.append(source.as_str());
                out.append("\\");
                out.append(value.as_str());
                out.append(" does not exist");
                push_framed(&mut out, " in view ", in_view, "");
            },
            Refusal::BackupIncomplete { view, subkeys } => {
                out = "regx: refusing an incomplete backup for view ".to_owned();
                out.append(view.as_str());
                out.append("; ");
                push_dec(&mut out, *subkeys as u64);
                out.append(" subkey(s) were unreadable");
            },
            Refusal::RestoreIncomplete { in_view, subkeys } => {
                out = "regx: refusing an incomplete restore".to_owned();
                push_framed(&mut out, " for view ", in_view, "");
                out.append("; ");
                push_dec(&mut out, *subkeys as u64);
                out.append(" backup subkey(s) were unreadable");
            },
            Refusal::CopyIncomplete { verb, in_view, subkeys } => {
                out = "regx: refusing an incomplete ".to_owned();
                out.append(verb.as_str());
                push_framed(&mut out, " in view ", in_view, "");
                out.append("; ");
                push_dec(&mut out, *subkeys as u64);
                out.append(" source subkey(s) were unreadable:");
            },
            Refusal::HiveCopyIncomplete { verb, subkeys } => {
                out = "regx: refusing an incomplete hive ".to_owned();
                out.append(verb.as_str());
                out.append("; ");
                push_dec(&mut out, *subkeys as u64);
                out.append(" source subkey(s) were unreadable");
            },
            Refusal::RollbackOmits { change, keys } => {
                out = "regx: refusing ".to_owned();
                out.append(change.as_str());
                out.append("; rollback would omit ");
                push_dec(&mut out, *keys as u64);
                out.append(" unreadable key(s)");
            },
            Refusal::RedoOmits { keys } => {
                out = "regx: refusing hive undo; redo would omit ".to_owned();
                push_dec(&mut out, *keys as u64);
                out.append(" unreadable key(s)");
            },
            Refusal::RollbackIncomplete { verb, keys } => {
                out = "regx: refusing ".to_owned();
                out.append(verb.as_str());
                out.append("; rollback would be incomplete because ");
                push_dec(&mut out, *keys as u64);
                out.append(" key(s) are unreadable");
            },
            Refusal::SourcePreserved => {
                out = "regx: source preserved because the destination copy was incomplete".to_owned();
            },
            Refusal::NotAttempted => {
                out = "regx: not attempted because an earlier view failed".to_owned();
            },
            Refusal::NoValues { hive } => {
                out = "regx: no ".to_owned();
                push_either(&mut out, *hive, "offline-hive", "registry");
                out.append(" values matched the selection");
            },
            Refusal::NoKeys { hive } => {
                out = "regx: no ".to_owned();
                push_either(&mut out, *hive, "offline-hive", "registry");
                out.append(" keys matched the selection");
            },
            Refusal::NoState { in_view, hive, scope } => {
                out = "regx: ".to_owned();
                push_framed(&mut out, "view ", in_view, ": ");
                out.append("no ");
                push_either(&mut out, *hive, "offline-hive", "registry");
                out.append(" state matched the ");
                out.append(scope.as_str());
                out.append(" scope");
            },
            Refusal::Mismatch { in_view, hive, expected } => {
                out = "regx: ".to_owned();
                push_framed(&mut out, "view ", in_view, ": ");
                push_either(&mut out, *hive, "hive ", "");
                out.append("fingerprint mismatch (expected ");
                out.append(expected.as_str());
                out.append(")");
            },
            Refusal::OperationUnclear { position, line, error } => {
                out = "regx: op ".to_owned();
                push_dec(&mut out, *position as u64);
                out.append(" (");
                out.append(to_debug(line.as_str()).as_str());
                out.append("): ");
                out.append(error.as_str());
            },
            Refusal::OperationFailed { position, error } => {
                out = "regx: op ".to_owned();
                push_dec(&mut out, *position as u64);
                out.append(" failed: ");
                out.append(error.as_str());
            },
            Refusal::RotateBroken => {
                out = "regx: refusing to rotate a broken audit log".to_owned();
            },
            Refusal::AnchorBroken => {
                out = "regx: refusing to anchor an empty or broken audit log".to_owned();
            },
            Refusal::AnchorForged { anchor, error } => {
                out = "regx: audit anchor authentication failed for ".to_owned();
                out.append(anchor.as_str());
                out.append(": ");
                out.append(error.as_str());
            },
            Refusal::ComparisonIncomplete { subkeys, source } => {
                out = "regx: ".to_owned();
                push_dec(&mut out, *subkeys as u64);
                out.append(" subkey(s) of ");
                out.append(source.as_str());
                out.append(" were unreadable; the comparison is incomplete");
            },
            Refusal::PatchIncomplete => {
                out = "regx: patch not written because at least one source is incomplete or ambiguous; inspect and repair the source first".to_owned();
            },
            Refusal::PatchRehearsed => {
                out = "regx: --dry-run, patch not written".to_owned();
            },
            Refusal::ViewPatchIncomplete { view } => {
                out = "regx: view ".to_owned();
                out.append(view.as_str());
                out.append(" patch not written because the dual-view comparison failed or is incomplete");
            },
            Refusal::BaselineIncomplete { in_view, subkeys } => {
                out = "regx: refusing an incomplete watch baseline".to_owned();
                push_framed(&mut out, " in view ", in_view, "");
                out.append("; ");
                push_dec(&mut out, *subkeys as u64);
                out.append(" subkey(s) were unreadable");
            },
            Refusal::ChangeIncomplete => {
                out = "regx: change observed, but the resulting snapshot is incomplete".to_owned();
            },
            Refusal::ViewsIncomplete => {
                out = "regx: change observed, but at least one resulting view is incomplete".to_owned();
            },
            Refusal::PermissionsUnread { error } => {
                out = "  permissions failed: ".to_owned();
                out.append(error.as_str());
            },
        }
        out
    }
}

/// What has been done, and what follows.
#[derive(Debug)]
pub enum Progress {
    /// A file was read in a format.
    ReadAs { file: String, format: String, forced: bool },
    /// A note on what was read.
    Noted { note: String },
    /// Something that could not be kept.
    Lost { loss: String },
    /// A value was given twice.
    Overridden { path: String, value: String, old: String, new: String },
    /// A value was given twice, at two lines.
    OverriddenAt {
        path: String,
        value: String,
        first_line: usize,
        old: String,
        last_line: usize,
        new: String,
    },
    /// Something is wrong at a line.
    Diagnosed { file: String, line: usize, tag: String, message: String },
    /// Changes are recorded.
    AuditLog { file: String, required: bool, redacted: bool },
    /// The policy asks for confirmation.
    ConfirmAnyway,
    /// A question awaits its answer.
    Prompt { question: String },
    /// Blocks of one key were merged.
    Merged { blocks: usize, conflicts: usize },
    /// A file was written as a policy file.
    ConvertedPol { file: String, root: String, keys: usize, skipped: usize, refused: usize },
    /// A file was written in a format.
    Converted { file: String, format: String, keys: usize, skipped: usize, refused: usize },
    /// Files were merged.
    MergedFiles { files: usize, keys: usize, conflicts: usize },
    /// Merged files were written as a policy file.
    MergedPol { file: String, root: String },
    /// Values to import were selected.
    ImportSelected { kept: usize, omitted: usize, operations: usize },
    /// Values to export were selected.
    ExportSelected { kept: usize, omitted: usize, keys: usize },
    /// Values of a hive were selected.
    HiveSelected { kept: usize, omitted: usize, operations: usize },
    /// An undo file was written.
    UndoSaved { in_view: Option<String>, file: String },
    /// A redo file was written.
    RedoSaved { view: String, file: String },
    /// The undo file of a plan was written.
    PlanUndoSaved { view: String, file: String },
    /// The undo file of a batch was written.
    BatchUndoSaved { view: String, file: String },
    /// The undo file of a hive was written.
    HiveUndoSaved { file: String },
    /// The undo file of a batch in a hive was written.
    HiveBatchUndoSaved { file: String },
    /// A plan was saved.
    PlanSaved { file: String },
    /// A copy plan was saved.
    CopyPlanSaved { verb: String, in_view: Option<String>, file: String },
    /// How an operation of a batch ended.
    BatchStatus { operation: String, status: String },
    /// A view of an operation of a batch.
    BatchView { view: String },
    /// A batch is taken back in a view.
    BatchRollback { view: String },
    /// What follows happened in a view.
    InView { view: String },
    /// What follows took a change back.
    Rollback { change: Option<String> },
    /// A partial copy was taken back.
    CopyRollback { verb: String },
    /// A failed plan was taken back.
    PlanRollback,
    /// A key was backed up.
    BackedUp { dry_run: bool, keys: usize, values: usize, in_view: Option<String>, file: String },
    /// What a backup holds.
    BackupScope,
    /// A place that could not be read.
    Unread { place: String, error: String },
    /// A key that was left out.
    Skipped { place: String, error: String },
    /// Keys were exported.
    Exported { keys: usize, values: usize, format: String, file: String, skipped: usize },
    /// A view was exported.
    ViewExported { view: String, dry_run: bool, keys: usize, values: usize, file: String },
    /// More keys match than are shown.
    Truncated { in_view: Option<String>, limit: usize },
    /// Conflicts were resolved.
    Resolved { source: String, conflicts: usize },
    /// A hive was created.
    HiveCreated { file: String },
    /// A hive was opened.
    HiveMounted { file: String, writable: bool },
    /// A hive was closed.
    HiveUnmounted { file: String },
    /// An operation of a script begins.
    Operation { position: usize, operations: usize, operation: String },
    /// How many matches were found.
    Matches { in_view: Option<String>, matches: usize, truncated: bool, incomplete: bool },
    /// How many matches a source holds.
    SourceMatches { matches: usize, truncated: bool, incomplete: bool },
    /// A log would be rotated.
    WouldRotate { records: usize, file: String, archive: String },
    /// A patch was written.
    PatchWritten { file: String, keys: usize },
    /// The patch of a view was written.
    ViewPatchWritten { view: String, dry_run: bool, file: String },
    /// Nothing changed in time.
    NoChange { both: bool, key: String, seconds: usize },
    /// A view reported a change.
    TriggeredBy { view: String },
}

/// The words of a report on progress.
pub open spec fn progress_text(n: Progress) -> Seq<char> {
    match n {
        Progress::ReadAs { file, format, forced } => "regx: "@ + file@ + " read as "@ + format@
            + either(forced, " (forced)"@, " (detected)"@),
        Progress::Noted { note } => "  note: "@ + note@,
        Progress::Lost { loss } => "  loss: "@ + loss@,
        Progress::Overridden { path, value, old, new } => "  conflict "@ + path@ + "\\"@ + value@
            + ": "@ + debug_text(old@) + " overridden by "@ + debug_text(new@),
        Progress::OverriddenAt { path, value, first_line, old, last_line, new } => "  conflict "@
            + path@ + "\\"@ + value@ + ": line "@ + dec_of(first_line as nat) + " "@
            + debug_text(old@) + " overridden by line "@ + dec_of(last_line as nat) + " "@
            + debug_text(new@),
        Progress::Diagnosed { file, line, tag, message } => file@ + ":"@ + dec_of(line as nat)
            + ": "@ + tag@ + ": "@ + message@,
        Progress::AuditLog { file, required, redacted } => "regx: audit log -> "@ + file@
            + either(required, " (required by policy)"@, ""@)
            + either(redacted, " (values redacted to digests)"@, ""@),
        Progress::ConfirmAnyway => "regx: policy requires confirmation; -y does not apply"@,
        Progress::Prompt { question } => question@ + " [y/N] "@,
        Progress::Merged { blocks, conflicts } => "  merged "@ + dec_of(blocks as nat)
            + " duplicate key block(s), "@ + dec_of(conflicts as nat) + " semantic conflict(s)"@,
        Progress::ConvertedPol { file, root, keys, skipped, refused } => "regx: wrote "@ + file@
            + " as Registry.pol rooted at "@ + root@ + " ("@ + dec_of(keys as nat)
            + " key block(s), "@ + dec_of(skipped as nat) + " skipped, "@ + dec_of(refused as nat)
            + " refused)"@,
        Progress::Converted { file, format, keys, skipped, refused } => "regx: wrote "@ + file@
            + " as "@ + format@ + " ("@ + dec_of(keys as nat) + " key block(s), "@
            + dec_of(skipped as nat) + " skipped, "@ + dec_of(refused as nat) + " refused)"@,
        Progress::MergedFiles { files, keys, conflicts } => "regx: merged "@
            + dec_of(files as nat) + " file(s) -> "@ + dec_of(keys as nat) + " key block(s), "@
            + dec_of(conflicts as nat) + " conflict(s)"@,
        Progress::MergedPol { file, root } => "regx: wrote "@ + file@
            + " as Registry.pol rooted at "@ + root@,
        Progress::ImportSelected { kept, omitted, operations } => "regx: value selection kept "@
            + dec_of(kept as nat) + ", omitted "@ + dec_of(omitted as nat) + " value(s) and "@
            + dec_of(operations as nat) + " whole-key operation(s)"@,
        Progress::ExportSelected { kept, omitted, keys } => "regx: value selection kept "@
            + dec_of(kept as nat) + ", omitted "@ + dec_of(omitted as nat) + " value(s) and "@
            + dec_of(keys as nat) + " empty key(s)"@,
        Progress::HiveSelected { kept, omitted, operations } => "regx: value selection kept "@
            + dec_of(kept as nat) + ", omitted "@ + dec_of(omitted as nat) + " value(s) and "@
            + dec_of(operations as nat) + " key operation(s)"@,
        Progress::UndoSaved { in_view, file } => "regx: undo snapshot"@
            + framed(" (view "@, in_view, ")"@) + " -> "@ + file@,
        Progress::RedoSaved { view, file } => "regx: redo snapshot (view "@ + view@ + ") -> "@
            + file@,
        Progress::PlanUndoSaved { view, file } => "regx: view "@ + view@ + " undo snapshot -> "@
            + file@,
        Progress::BatchUndoSaved { view, file } => "regx: shared batch undo (view "@ + view@
            + ") -> "@ + file@,
        Progress::HiveUndoSaved { file } => "regx: offline-hive undo -> "@ + file@,
        Progress::HiveBatchUndoSaved { file } => "regx: shared hive-batch undo -> "@ + file@,
        Progress::PlanSaved { file } => "regx: saved digest-bound plan -> "@ + file@,
        Progress::CopyPlanSaved { verb, in_view, file } => "regx: saved digest-bound "@ + verb@
            + " preview"@ + framed(" (view "@, in_view, ")"@) + " -> "@ + file@,
        Progress::BatchStatus { operation, status } => "regx: batch "@ + operation@ + ": "@
            + status@,
        Progress::BatchView { view } => "  view "@ + view@,
        Progress::BatchRollback { view } => "regx: batch rollback (view "@ + view@ + "):"@,
        Progress::InView { view } => "regx: view "@ + view@,
        Progress::Rollback { change } => "regx: "@ + framed(""@, change, " "@) + "rollback:"@,
        Progress::CopyRollback { verb } => "regx: "@ + verb@
            + " was partial; automatic rollback result:"@,
        Progress::PlanRollback => "regx: verified plan failed; automatic rollback result:"@,
        Progress::BackedUp { dry_run, keys, values, in_view, file } => "regx: "@
            + either(dry_run, "would back up"@, "backed up"@) + " "@ + dec_of(keys as nat)
            + " key(s), "@ + dec_of(values as nat) + " value(s)"@
            + framed(" (view "@, in_view, ")"@) + " -> "@ + file@,
        Progress::BackupScope => "regx: note: application-hive backups preserve keys, types, and raw data; not ACLs, key classes, or timestamps"@,
        Progress::Unread { place, error } => "  "@ + place@ + ": "@ + error@,
        Progress::Skipped { place, error } => "  skipped "@ + place@ + ": "@ + error@,
        Progress::Exported { keys, values, format, file, skipped } => "regx: exported "@
            + dec_of(keys as nat) + " key(s), "@ + dec_of(values as nat) + " value(s) as "@
            + format@ + " -> "@ + file@
            + unless_zero(" ("@, skipped as nat, " subkey(s) skipped)"@),
        Progress::ViewExported { view, dry_run, keys, values, file } => "regx: view "@ + view@
            + " "@ + either(dry_run, "would have "@, ""@) + "exported "@ + dec_of(keys as nat)
            + " key(s), "@ + dec_of(values as nat) + " value(s) -> "@ + file@,
        Progress::Truncated { in_view, limit } => "regx: "@ + framed("view "@, in_view, ": "@)
            + "result truncated at "@ + dec_of(limit as nat) + " matching key(s)"@,
        Progress::Resolved { source, conflicts } => "regx: "@ + source@ + ": "@
            + dec_of(conflicts as nat) + " conflict(s) resolved by last-write-wins"@,
        Progress::HiveCreated { file } => "regx: created a new hive file at "@ + file@,
        Progress::HiveMounted { file, writable } => "regx: mounted "@ + file@
            + " via RegLoadAppKey ("@ + either(writable, "read/write"@, "read-only"@)
            + "), no elevation used"@,
        Progress::HiveUnmounted { file } => "regx: unmounted "@ + file@,
        Progress::Operation { position, operations, operation } => "regx: ["@
            + dec_of(position as nat) + "/"@ + dec_of(operations as nat) + "] "@ + operation@,
        Progress::Matches { in_view, matches, truncated, incomplete } => "regx: "@
            + framed("view "@, in_view, ": "@) + dec_of(matches as nat) + " match(es)"@
            + either(truncated, " (limit reached)"@, ""@)
            + either(incomplete, " (incomplete)"@, ""@),
        Progress::SourceMatches { matches, truncated, incomplete } => "regx: "@
            + dec_of(matches as nat) + " match(es)"@ + either(truncated, " (limit reached)"@, ""@)
            + either(incomplete, " (source incomplete or ambiguous)"@, ""@),
        Progress::WouldRotate { records, file, archive } => "regx: would rotate "@
            + dec_of(records as nat) + " record(s) from "@ + file@ + " -> "@ + archive@,
        Progress::PatchWritten { file, keys } => "regx: patch -> "@ + file@ + " ("@
            + dec_of(keys as nat) + " key block(s))"@,
        Progress::ViewPatchWritten { view, dry_run, file } => "regx: view "@ + view@ + " "@
            + either(dry_run, "would write "@, ""@) + "patch -> "@ + file@,
        Progress::NoChange { both, key, seconds } => "regx: no change "@
            + either(both, "in either view "@, ""@) + "under "@ + key@ + " within "@
            + dec_of(seconds as nat) + " second(s)"@,
        Progress::TriggeredBy { view } => "regx: notification triggered by view "@ + view@,
    }
}

impl Progress {
    /// The words of a report on progress.
    pub fn text(&self) -> (out: String)
        ensures
            out@ == progress_text(*self),
    {
        let mut out = String::new();
        match self {
            Progress::ReadAs { file, format, forced } => {
                out = "regx: ".to_owned();
                out.append(file.as_str());
                out.append(" read as ");
                out.append(format.as_str());
                push_either(&mut out, *forced, " (forced)", " (detected)");
            },
            Progress::Noted { note } => {
                out = "  note: ".to_owned();
                out.append(note.as_str());
            },
            Progress::Lost { loss } => {
                out = "  loss: ".to_owned();
                out.append(loss.as_str());
            },
            Progress::Overridden { path, value, old, new } => {
                out = "  conflict ".to_owned();
                out.append(path.as_str());
                out.append("\\");
                out.append(value.as_str());
                out.append(": ");
                out.append(to_debug(old.as_str()).as_str());
                out.append(" overridden by ");
                out.append(to_debug(new.as_str()).as_str());
            },
            Progress::OverriddenAt { path, value, first_line, old, last_line, new } => {
                out = "  conflict ".to_owned();
                out.append(path.as_str());
                out.append("\\");
                out.append(value.as_str());
                out.append(": line ");
                push_dec(&mut out, *first_line as u64);
                out.append(" ");
                out.append(to_debug(old.as_str()).as_str());
                out.append(" overridden by line ");
                push_dec(&mut out, *last_line as u64);
                out.append(" ");
                out.append(to_debug(new.as_str()).as_str());
            },
            Progress::Diagnosed { file, line, tag, message } => {
                out.append(file.as_str());
                out.append(":");
                push_dec(&mut out, *line as u64);
                out.append(": ");
                out.append(tag.as_str());
                out.append(": ");
                out.append(message.as_str());
            },
            Progress::AuditLog { file, required, redacted } => {
                out = "regx: audit log -> ".to_owned();
                out.append(file.as_str());
                push_either(&mut out, *required, " (required by policy)", "");
                push_either(&mut out, *redacted, " (values redacted to digests)", "");
            },
            Progress::ConfirmAnyway => {
                out = "regx: policy requires confirmation; -y does not apply".to_owned();
            },
            Progress::Prompt { question } => {
                out.append(question.as_str());
                out.append(" [y/N] ");
            },
            Progress::Merged { blocks, conflicts } => {
                out = "  merged ".to_owned();
                push_dec(&mut out, *blocks as u64);
                out.append(" duplicate key block(s), ");
                push_dec(&mut out, *conflicts as u64);
                out.append(" semantic conflict(s)");
            },
            Progress::ConvertedPol { file, root, keys, skipped, refused } => {
                out = "regx: wrote ".to_owned();
                out.append(file.as_str());
                out.append(" as Registry.pol rooted at ");
                out.append(root.as_str());
                out.append(" (");
                push_dec(&mut out, *keys as u64);
                out.append(" key block(s), ");
                push_dec(&mut out, *skipped as u64);
                out.append(" skipped, ");
                push_dec(&mut out, *refused as u64);
                out.append(" refused)");
            },
            Progress::Converted { file, format, keys, skipped, refused } => {
                out = "regx: wrote ".to_owned();
                out.append(file.as_str());
                out.append(" as ");
                out.append(format.as_str());
                out.append(" (");
                push_dec(&mut out, *keys as u64);
                out.append(" key block(s), ");
                push_dec(&mut out, *skipped as u64);
                out.append(" skipped, ");
                push_dec(&mut out, *refused as u64);
                out.append(" refused)");
            },
            Progress::MergedFiles { files, keys, conflicts } => {
                out = "regx: merged ".to_owned();
                push_dec(&mut out, *files as u64);
                out.append(" file(s) -> ");
                push_dec(&mut out, *keys as u64);
                out.append(" key block(s), ");
                push_dec(&mut out, *conflicts as u64);
                out.append(" conflict(s)");
            },
            Progress::MergedPol { file, root } => {
                out = "regx: wrote ".to_owned();
                out.append(file.as_str());
                out.append(" as Registry.pol rooted at ");
                out.append(root.as_str());
            },
            Progress::ImportSelected { kept, omitted, operations } => {
                out = "regx: value selection kept ".to_owned();
                push_dec(&mut out, *kept as u64);
                out.append(", omitted ");
                push_dec(&mut out, *omitted as u64);
                out.append(" value(s) and ");
                push_dec(&mut out, *operations as u64);
                out.append(" whole-key operation(s)");
            },
            Progress::ExportSelected { kept, omitted, keys } => {
                out = "regx: value selection kept ".to_owned();
                push_dec(&mut out, *kept as u64);
                out.append(", omitted ");
                push_dec(&mut out, *omitted as u64);
                out.append(" value(s) and ");
                push_dec(&mut out, *keys as u64);
                out.append(" empty key(s)");
            },
            Progress::HiveSelected { kept, omitted, operations } => {
                out = "regx: value selection kept ".to_owned();
                push_dec(&mut out, *kept as u64);
                out.append(", omitted ");
                push_dec(&mut out, *omitted as u64);
                out.append(" value(s) and ");
                push_dec(&mut out, *operations as u64);
                out.append(" key operation(s)");
            },
            Progress::UndoSaved { in_view, file } => {
                out = "regx: undo snapshot".to_owned();
                push_framed(&mut out, " (view ", in_view, ")");
                out.append(" -> ");
                out.append(file.as_str());
            },
            Progress::RedoSaved { view, file } => {
                out = "regx: redo snapshot (view ".to_owned();
                out.append(view.as_str());
                out.append(") -> ");
                out.append(file.as_str());
            },
            Progress::PlanUndoSaved { view, file } => {
                out = "regx: view ".to_owned();
                out.append(view.as_str());
                out.append(" undo snapshot -> ");
                out.append(file.as_str());
            },
            Progress::BatchUndoSaved { view, file } => {
                out = "regx: shared batch undo (view ".to_owned();
                out.append(view.as_str());
                out.append(") -> ");
                out.append(file.as_str());
            },
            Progress::HiveUndoSaved { file } => {
                out = "regx: offline-hive undo -> ".to_owned();
                out.append(file.as_str());
            },
            Progress::HiveBatchUndoSaved { file } => {
                out = "regx: shared hive-batch undo -> ".to_owned();
                out.append(file.as_str());
            },
            Progress::PlanSaved { file } => {
                out = "regx: saved digest-bound plan -> ".to_owned();
                out.append(file.as_str());
            },
            Progress::CopyPlanSaved { verb, in_view, file } => {
                out = "regx: saved digest-bound ".to_owned();
                out.append(verb.as_str());
                out.append(" preview");
                push_framed(&mut out, " (view ", in_view, ")");
                out.append(" -> ");
                out.append(file.as_str());
            },
            Progress::BatchStatus { operation, status } => {
                out = "regx: batch ".to_owned();
                out.append(operation.as_str());
                out.append(": ");
                out.append(status.as_str());
            },
            Progress::BatchView { view } => {
                out = "  view ".to_owned();
                out.append(view.as_str());
            },
            Progress::BatchRollback { view } => {
                out = "regx: batch rollback (view ".to_owned();
                out.append(view.as_str());
                out.append("):");
            },
            Progress::InView { view } => {
                out = "regx: view ".to_owned();
                out.append(view.as_str());
            },
            Progress::Rollback { change } => {
                out = "regx: ".to_owned();
                push_framed(&mut out, "", change, " ");
                out.append("rollback:");
            },
            Progress::CopyRollback { verb } => {
                out = "regx: ".to_owned();
                out.append(verb.as_str());
                out.append(" was partial; automatic rollback result:");
            },
            Progress::PlanRollback => {
                out = "regx: verified plan failed; automatic rollback result:".to_owned();
            },
            Progress::BackedUp { dry_run, keys, values, in_view, file } => {
                out = "regx: ".to_owned();
                push_either(&mut out, *dry_run, "would back up", "backed up");
                out.append(" ");
                push_dec(&mut out, *keys as u64);
                out.append(" key(s), ");
                push_dec(&mut out, *values as u64);
                out.append(" value(s)");
                push_framed(&mut out, " (view ", in_view, ")");
                out.append(" -> ");
                out.append(file.as_str());
            },
            Progress::BackupScope => {
                out = "regx: note: application-hive backups preserve keys, types, and raw data; not ACLs, key classes, or timestamps".to_owned();
            },
            Progress::Unread { place, error } => {
                out = "  ".to_owned();
                out.append(place.as_str());
                out.append(": ");
                out.append(error.as_str());
            },
            Progress::Skipped { place, error } => {
                out = "  skipped ".to_owned();
                out.append(place.as_str());
                out.append(": ");
                out.append(error.as_str());
            },
            Progress::Exported { keys, values, format, file, skipped } => {
                out = "regx: exported ".to_owned();
                push_dec(&mut out, *keys as u64);
                out.append(" key(s), ");
                push_dec(&mut out, *values as u64);
                out.append(" value(s) as ");
                out.append(format.as_str());
                out.append(" -> ");
                out.append(file.as_str());
                push_unless_zero(&mut out, " (", *skipped, " subkey(s) skipped)");
            },
            Progress::ViewExported { view, dry_run, keys, values, file } => {
                out = "regx: view ".to_owned();
                out.append(view.as_str());
                out.append(" ");
                push_either(&mut out, *dry_run, "would have ", "");
                out.append("exported ");
                push_dec(&mut out, *keys as u64);
                out.append(" key(s), ");
                push_dec(&mut out, *values as u64);
                out.append(" value(s) -> ");
                out.append(file.as_str());
            },
            Progress::Truncated { in_view, limit } => {
                out = "regx: ".to_owned();
                push_framed(&mut out, "view ", in_view, ": ");
                out.append("result truncated at ");
                push_dec(&mut out, *limit as u64);
                out.append(" matching key(s)");
            },
            Progress::Resolved { source, conflicts } => {
                out = "regx: ".to_owned();
                out.append(source.as_str());
                out.append(": ");
                push_dec(&mut out, *conflicts as u64);
                out.append(" conflict(s) resolved by last-write-wins");
            },
            Progress::HiveCreated { file } => {
                out = "regx: created a new hive file at ".to_owned();
                out.append(file.as_str());
            },
            Progress::HiveMounted { file, writable } => {
                out = "regx: mounted ".to_owned();
                out.append(file.as_str());
                out.append(" via RegLoadAppKey (");
                push_either(&mut out, *writable, "read/write", "read-only");
                out.append("), no elevation used");
            },
            Progress::HiveUnmounted { file } => {
                out = "regx: unmounted ".to_owned();
                out.append(file.as_str());
            },
            Progress::Operation { position, operations, operation } => {
                out = "regx: [".to_owned();
                push_dec(&mut out, *position as u64);
                out.append("/");
                push_dec(&mut out, *operations as u64);
                out.append("] ");
                out.append(operation.as_str());
            },
            Progress::Matches { in_view, matches, truncated, incomplete } => {
                out = "regx: ".to_owned();
                push_framed(&mut out, "view ", in_view, ": ");
                push_dec(&mut out, *matches as u64);
                out.append(" match(es)");
                push_either(&mut out, *truncated, " (limit reached)", "");
                push_either(&mut out, *incomplete, " (incomplete)", "");
            },
            Progress::SourceMatches { matches, truncated, incomplete } => {
                out = "regx: ".to_owned();
                push_dec(&mut out, *matches as u64);
                out.append(" match(es)");
                push_either(&mut out, *truncated, " (limit reached)", "");
                push_either(&mut out, *incomplete, " (source incomplete or ambiguous)", "");
            },
            Progress::WouldRotate { records, file, archive } => {
                out = "regx: would rotate ".to_owned();
                push_dec(&mut out, *records as u64);
                out.append(" record(s) from ");
                out.append(file.as_str());
                out.append(" -> ");
                out.append(archive.as_str());
            },
            Progress::PatchWritten { file, keys } => {
                out = "regx: patch -> ".to_owned();
                out.append(file.as_str());
                out.append(" (");
                push_dec(&mut out, *keys as u64);
                out.append(" key block(s))");
            },
            Progress::ViewPatchWritten { view, dry_run, file } => {
                out = "regx: view ".to_owned();
                out.append(view.as_str());
                out.append(" ");
                push_either(&mut out, *dry_run, "would write ", "");
                out.append("patch -> ");
                out.append(file.as_str());
            },
            Progress::NoChange { both, key, seconds } => {
                out = "regx: no change ".to_owned();
                push_either(&mut out, *both, "in either view ", "");
                out.append("under ");
                out.append(key.as_str());
                out.append(" within ");
                push_dec(&mut out, *seconds as u64);
                out.append(" second(s)");
            },
            Progress::TriggeredBy { view } => {
                out = "regx: notification triggered by view ".to_owned();
                out.append(view.as_str());
            },
        }
        out
    }
}

/// What was found out.
#[derive(Debug)]
pub enum Listing {
    /// What follows is of a view.
    View { view: String },
    /// What follows is of a source.
    Source { source: String, format: String },
    /// What follows is of a key of a hive.
    Subkey { subkey: String },
    /// A fingerprint.
    Fingerprint { digest: String, in_view: Option<String> },
    /// What a file holds.
    Checked { file: String, dialect: String, encoding: String, keys: usize, values: usize },
    /// A line was repaired.
    Repaired { lossy: bool, line: usize, what: String },
    /// A line was not repaired.
    NotRepaired { line: usize, why: String },
    /// A file is sound.
    NothingToRepair,
    /// Repairs are only rehearsed.
    RepairsRehearsed { repairs: usize },
    /// A file was kept before its repair.
    RepairBackup { file: String },
    /// A repaired file was written.
    RepairsWritten { file: String, repairs: usize, lost: usize },
    /// What can be done with a key.
    Probed {
        key: String,
        computer: Option<String>,
        exists: bool,
        readable: bool,
        writable: bool,
        creatable: bool,
        detail: String,
    },
    /// What can be done with a key in a view.
    ProbedView {
        view: String,
        exists: bool,
        readable: bool,
        writable: bool,
        creatable: bool,
        detail: String,
    },
    /// A key, perhaps of another computer.
    Place { key: String, computer: Option<String> },
    /// Two keys that are compared.
    Compared {
        key: String,
        computer: Option<String>,
        other: String,
        other_computer: Option<String>,
    },
    /// Whether permissions are equal in a view.
    ComparedView { view: String, equal: bool },
    /// The permissions of a key.
    Permissions {
        in_view: Option<String>,
        owner: String,
        inherits: bool,
        sddl: String,
        query: bool,
        enumerate: bool,
        notify: bool,
        set_value: bool,
        create_subkey: bool,
        delete: bool,
    },
    /// What is known of a hive file.
    HiveFile {
        file: String,
        size: u64,
        signed: bool,
        readable: bool,
        writable: bool,
        detail: String,
        root_keys: String,
    },
    /// A log was rotated.
    Rotated { records: usize, file: String, archive: String, digest: String, previous: String },
    /// How many segments a log has.
    Chain { segments: usize, records: usize, sessions: usize },
    /// Every segment is intact.
    ChainIntact,
    /// Where a chain of logs is broken.
    BrokenSegment { position: usize, problem: String },
    /// Where a log is broken.
    BrokenLine { line: usize, problem: String },
    /// A log would be anchored.
    WouldAnchor { records: usize, file: String, anchor: String },
    /// A log was anchored.
    Anchored { anchor: String, records: usize, digest: String, tail: String, signed: bool },
    /// How a log agrees with its anchor.
    AnchorChecked { file: String, intact: bool, matches: bool, signed: bool },
    /// A change of a watched key.
    Changed { sequence: usize, key: String, added: usize, modified: usize, removed: usize },
    /// A change of a watched key in a view.
    ViewChanged { view: String, added: usize, modified: usize, removed: usize, gone: bool },
    /// How much differs.
    Differences { added: usize, modified: usize, removed: usize },
}

/// The words of a finding.
pub open spec fn listing_text(n: Listing) -> Seq<char> {
    match n {
        Listing::View { view } => "view "@ + view@,
        Listing::Source { source, format } => "source         "@ + source@ + "\nformat         "@
            + format@,
        Listing::Subkey { subkey } => "subkey         "@ + or_other(subkey@, "\\"@),
        Listing::Fingerprint { digest, in_view } => digest@ + framed("  "@, in_view, ""@),
        Listing::Checked { file, dialect, encoding, keys, values } => file@ + ": "@ + dialect@
            + " / "@ + encoding@ + " - "@ + dec_of(keys as nat) + " key block(s), "@
            + dec_of(values as nat) + " value(s)"@,
        Listing::Repaired { lossy, line, what } => "  fix"@ + either(lossy, " (lossy)"@, ""@)
            + " line "@ + dec_of(line as nat) + ": "@ + what@,
        Listing::NotRepaired { line, why } => "  not fixed, line "@ + dec_of(line as nat) + ": "@
            + why@,
        Listing::NothingToRepair => "  nothing to repair"@,
        Listing::RepairsRehearsed { repairs } => "  --dry-run: "@ + dec_of(repairs as nat)
            + " repair(s) not written"@,
        Listing::RepairBackup { file } => "  backup: "@ + file@,
        Listing::RepairsWritten { file, repairs, lost } => "  wrote "@ + file@ + " ("@
            + dec_of(repairs as nat) + " repair(s), "@ + dec_of(lost as nat) + " lossy)"@,
        Listing::Probed { key, computer, exists, readable, writable, creatable, detail } => or_other(key@, "\\"@)
            + framed(" on \\\\"@, computer, ""@) + "\n  exists    "@
            + either(exists, "true"@, "false"@) + "\n  readable  "@
            + either(readable, "true"@, "false"@) + "\n  writable  "@
            + either(writable, "true"@, "false"@) + "\n  creatable "@
            + either(creatable, "true"@, "false"@) + unless_empty("\n  detail    "@, detail@, ""@),
        Listing::ProbedView { view, exists, readable, writable, creatable, detail } => "  view "@
            + view@ + ": exists="@ + either(exists, "true"@, "false"@) + " readable="@
            + either(readable, "true"@, "false"@) + " writable="@
            + either(writable, "true"@, "false"@) + " creatable="@
            + either(creatable, "true"@, "false"@) + unless_empty("\n    "@, detail@, ""@),
        Listing::Place { key, computer } => or_other(key@, "\\"@)
            + framed(" on \\\\"@, computer, ""@),
        Listing::Compared { key, computer, other, other_computer } => key@
            + framed(" on \\\\"@, computer, ""@) + " compared with "@ + other@
            + framed(" on \\\\"@, other_computer, ""@),
        Listing::ComparedView { view, equal } => "  view "@ + view@ + "       "@
            + either(equal, "equal"@, "DIFFERENT"@),
        Listing::Permissions {
            in_view,
            owner,
            inherits,
            sddl,
            query,
            enumerate,
            notify,
            set_value,
            create_subkey,
            delete,
        } => framed("  view          "@, in_view, "\n"@) + "  owner SID     "@ + owner@
            + "\n  inheritance   "@ + either(inherits, "enabled"@, "protected"@)
            + "\n  SDDL          "@ + sddl@ + "\n  effective     query="@
            + either(query, "true"@, "false"@) + " enumerate="@
            + either(enumerate, "true"@, "false"@) + " notify="@
            + either(notify, "true"@, "false"@) + " set="@ + either(set_value, "true"@, "false"@)
            + " create-subkey="@ + either(create_subkey, "true"@, "false"@) + " delete="@
            + either(delete, "true"@, "false"@),
        Listing::HiveFile { file, size, signed, readable, writable, detail, root_keys } => file@
            + "\n  size        "@ + dec_of(size as nat) + " bytes\n  hive header "@
            + either(signed, "regf (valid)"@, "MISSING"@) + "\n  mountable   read="@
            + either(readable, "true"@, "false"@) + " write="@
            + either(writable, "true"@, "false"@)
            + unless_empty("\n  detail      "@, detail@, ""@)
            + unless_empty("\n  root keys   "@, root_keys@, ""@),
        Listing::Rotated { records, file, archive, digest, previous } => "rotated "@
            + dec_of(records as nat) + " record(s): "@ + file@ + " -> "@ + archive@
            + "\n  archive sha256  "@ + digest@ + "\n  previous hash   "@ + previous@,
        Listing::Chain { segments, records, sessions } => dec_of(segments as nat)
            + " segment(s), "@ + dec_of(records as nat) + " record(s), "@
            + dec_of(sessions as nat) + " session(s)"@,
        Listing::ChainIntact => "  Chain intact across every rotated segment."@,
        Listing::BrokenSegment { position, problem } => "    segment "@ + dec_of(position as nat)
            + ": "@ + problem@,
        Listing::BrokenLine { line, problem } => "    line "@ + dec_of(line as nat) + ": "@
            + problem@,
        Listing::WouldAnchor { records, file, anchor } => "would anchor "@
            + dec_of(records as nat) + " record(s): "@ + file@ + " -> "@ + anchor@,
        Listing::Anchored { anchor, records, digest, tail, signed } => "anchor written: "@
            + anchor@ + "\n  records  "@ + dec_of(records as nat) + "\n  sha256   "@ + digest@
            + "\n  tail     "@ + tail@ + "\n  signed   "@ + either(signed, "HMAC-SHA256"@, "no"@),
        Listing::AnchorChecked { file, intact, matches, signed } => file@ + "\n  chain    "@
            + either(intact, "intact"@, "BROKEN"@) + "\n  anchor   "@
            + either(matches, "matches"@, "MISMATCH"@) + "\n  auth     "@
            + either(signed, "valid HMAC-SHA256 signature"@, "unsigned"@),
        Listing::Changed { sequence, key, added, modified, removed } => "change "@
            + dec_of(sequence as nat) + ": "@ + key@ + " ("@ + dec_of(added as nat) + " added, "@
            + dec_of(modified as nat) + " modified, "@ + dec_of(removed as nat) + " removed)"@,
        Listing::ViewChanged { view, added, modified, removed, gone } => "view "@ + view@ + ": "@
            + dec_of(added as nat) + " added, "@ + dec_of(modified as nat) + " modified, "@
            + dec_of(removed as nat) + " removed"@ + either(gone, " (key removed)"@, ""@),
        Listing::Differences { added, modified, removed } => dec_of(added as nat) + " added, "@
            + dec_of(modified as nat) + " modified, "@ + dec_of(removed as nat) + " removed"@,
    }
}

impl Listing {
    /// The words of a finding.
    pub fn text(&self) -> (out: String)
        ensures
            out@ == listing_text(*self),
    {
        let mut out = String::new();
        match self {
            Listing::View { view } => {
                out = "view ".to_owned();
                out.append(view.as_str());
            },
            Listing::Source { source, format } => {
                out = "source         ".to_owned();
                out.append(source.as_str());
                out.append("\nformat         ");
                out.append(format.as_str());
            },
            Listing::Subkey { subkey } => {
                out = "subkey         ".to_owned();
                push_or_other(&mut out, subkey.as_str(), "\\");
            },
            Listing::Fingerprint { digest, in_view } => {
                out.append(digest.as_str());
                push_framed(&mut out, "  ", in_view, "");
            },
            Listing::Checked { file, dialect, encoding, keys, values } => {
                out.append(file.as_str());
                out.append(": ");
                out.append(dialect.as_str());
                out.append(" / ");
                out.append(encoding.as_str());
                out.append(" - ");
                push_dec(&mut out, *keys as u64);
                out.append(" key block(s), ");
                push_dec(&mut out, *values as u64);
                out.append(" value(s)");
            },
            Listing::Repaired { lossy, line, what } => {
                out = "  fix".to_owned();
                push_either(&mut out, *lossy, " (lossy)", "");
                out.append(" line ");
                push_dec(&mut out, *line as u64);
                out.append(": ");
                out.append(what.as_str());
            },
            Listing::NotRepaired { line, why } => {
                out = "  not fixed, line ".to_owned();
                push_dec(&mut out, *line as u64);
                out.append(": ");
                out.append(why.as_str());
            },
            Listing::NothingToRepair => {
                out = "  nothing to repair".to_owned();
            },
            Listing::RepairsRehearsed { repairs } => {
                out = "  --dry-run: ".to_owned();
                push_dec(&mut out, *repairs as u64);
                out.append(" repair(s) not written");
            },
            Listing::RepairBackup { file } => {
                out = "  backup: ".to_owned();
                out.append(file.as_str());
            },
            Listing::RepairsWritten { file, repairs, lost } => {
                out = "  wrote ".to_owned();
                out.append(file.as_str());
                out.append(" (");
                push_dec(&mut out, *repairs as u64);
                out.append(" repair(s), ");
                push_dec(&mut out, *lost as u64);
                out.append(" lossy)");
            },
            Listing::Probed { key, computer, exists, readable, writable, creatable, detail } => {
                push_or_other(&mut out, key.as_str(), "\\");
                push_framed(&mut out, " on \\\\", computer, "");
                out.append("\n  exists    ");
                push_either(&mut out, *exists, "true", "false");
                out.append("\n  readable  ");
                push_either(&mut out, *readable, "true", "false");
                out.append("\n  writable  ");
                push_either(&mut out, *writable, "true", "false");
                out.append("\n  creatable ");
                push_either(&mut out, *creatable, "true", "false");
                push_unless_empty(&mut out, "\n  detail    ", detail.as_str(), "");
            },
            Listing::ProbedView { view, exists, readable, writable, creatable, detail } => {
                out = "  view ".to_owned();
                out.append(view.as_str());
                out.append(": exists=");
                push_either(&mut out, *exists, "true", "false");
                out.append(" readable=");
                push_either(&mut out, *readable, "true", "false");
                out.append(" writable=");
                push_either(&mut out, *writable, "true", "false");
                out.append(" creatable=");
                push_either(&mut out, *creatable, "true", "false");
                push_unless_empty(&mut out, "\n    ", detail.as_str(), "");
            },
            Listing::Place { key, computer } => {
                push_or_other(&mut out, key.as_str(), "\\");
                push_framed(&mut out, " on \\\\", computer, "");
            },
            Listing::Compared { key, computer, other, other_computer } => {
                out.append(key.as_str());
                push_framed(&mut out, " on \\\\", computer, "");
                out.append(" compared with ");
                out.append(other.as_str());
                push_framed(&mut out, " on \\\\", other_computer, "");
            },
            Listing::ComparedView { view, equal } => {
                out = "  view ".to_owned();
                out.append(view.as_str());
                out.append("       ");
                push_either(&mut out, *equal, "equal", "DIFFERENT");
            },
            Listing::Permissions {
                in_view,
                owner,
                inherits,
                sddl,
                query,
                enumerate,
                notify,
                set_value,
                create_subkey,
                delete,
            } => {
                push_framed(&mut out, "  view          ", in_view, "\n");
                out.append("  owner SID     ");
                out.append(owner.as_str());
                out.append("\n  inheritance   ");
                push_either(&mut out, *inherits, "enabled", "protected");
                out.append("\n  SDDL          ");
                out.append(sddl.as_str());
                out.append("\n  effective     query=");
                push_either(&mut out, *query, "true", "false");
                out.append(" enumerate=");
                push_either(&mut out, *enumerate, "true", "false");
                out.append(" notify=");
                push_either(&mut out, *notify, "true", "false");
                out.append(" set=");
                push_either(&mut out, *set_value, "true", "false");
                out.append(" create-subkey=");
                push_either(&mut out, *create_subkey, "true", "false");
                out.append(" delete=");
                push_either(&mut out, *delete, "true", "false");
            },
            Listing::HiveFile { file, size, signed, readable, writable, detail, root_keys } => {
                out.append(file.as_str());
                out.append("\n  size        ");
                push_dec(&mut out, *size);
                out.append(" bytes\n  hive header ");
                push_either(&mut out, *signed, "regf (valid)", "MISSING");
                out.append("\n  mountable   read=");
                push_either(&mut out, *readable, "true", "false");
                out.append(" write=");
                push_either(&mut out, *writable, "true", "false");
                push_unless_empty(&mut out, "\n  detail      ", detail.as_str(), "");
                push_unless_empty(&mut out, "\n  root keys   ", root_keys.as_str(), "");
            },
            Listing::Rotated { records, file, archive, digest, previous } => {
                out = "rotated ".to_owned();
                push_dec(&mut out, *records as u64);
                out.append(" record(s): ");
                out.append(file.as_str());
                out.append(" -> ");
                out.append(archive.as_str());
                out.append("\n  archive sha256  ");
                out.append(digest.as_str());
                out.append("\n  previous hash   ");
                out.append(previous.as_str());
            },
            Listing::Chain { segments, records, sessions } => {
                push_dec(&mut out, *segments as u64);
                out.append(" segment(s), ");
                push_dec(&mut out, *records as u64);
                out.append(" record(s), ");
                push_dec(&mut out, *sessions as u64);
                out.append(" session(s)");
            },
            Listing::ChainIntact => {
                out = "  Chain intact across every rotated segment.".to_owned();
            },
            Listing::BrokenSegment { position, problem } => {
                out = "    segment ".to_owned();
                push_dec(&mut out, *position as u64);
                out.append(": ");
                out.append(problem.as_str());
            },
            Listing::BrokenLine { line, problem } => {
                out = "    line ".to_owned();
                push_dec(&mut out, *line as u64);
                out.append(": ");
                out.append(problem.as_str());
            },
            Listing::WouldAnchor { records, file, anchor } => {
                out = "would anchor ".to_owned();
                push_dec(&mut out, *records as u64);
                out.append(" record(s): ");
                out.append(file.as_str());
                out.append(" -> ");
                out.append(anchor.as_str());
            },
            Listing::Anchored { anchor, records, digest, tail, signed } => {
                out = "anchor written: ".to_owned();
                out.append(anchor.as_str());
                out.append("\n  records  ");
                push_dec(&mut out, *records as u64);
                out.append("\n  sha256   ");
                out.append(digest.as_str());
                out.append("\n  tail     ");
                out.append(tail.as_str());
                out.append("\n  signed   ");
                push_either(&mut out, *signed, "HMAC-SHA256", "no");
            },
            Listing::AnchorChecked { file, intact, matches, signed } => {
                out.append(file.as_str());
                out.append("\n  chain    ");
                push_either(&mut out, *intact, "intact", "BROKEN");
                out.append("\n  anchor   ");
                push_either(&mut out, *matches, "matches", "MISMATCH");
                out.append("\n  auth     ");
                push_either(&mut out, *signed, "valid HMAC-SHA256 signature", "unsigned");
            },
            Listing::Changed { sequence, key, added, modified, removed } => {
                out = "change ".to_owned();
                push_dec(&mut out, *sequence as u64);
                out.append(": ");
                out.append(key.as_str());
                out.append(" (");
                push_dec(&mut out, *added as u64);
                out.append(" added, ");
                push_dec(&mut out, *modified as u64);
                out.append(" modified, ");
                push_dec(&mut out, *removed as u64);
                out.append(" removed)");
            },
            Listing::ViewChanged { view, added, modified, removed, gone } => {
                out = "view ".to_owned();
                out.append(view.as_str());
                out.append(": ");
                push_dec(&mut out, *added as u64);
                out.append(" added, ");
                push_dec(&mut out, *modified as u64);
                out.append(" modified, ");
                push_dec(&mut out, *removed as u64);
                out.append(" removed");
                push_either(&mut out, *gone, " (key removed)", "");
            },
            Listing::Differences { added, modified, removed } => {
                push_dec(&mut out, *added as u64);
                out.append(" added, ");
                push_dec(&mut out, *modified as u64);
                out.append(" modified, ");
                push_dec(&mut out, *removed as u64);
                out.append(" removed");
            },
        }
        out
    }
}

} // verus!
