//! What became of a change, and how a run ends because of it.
use vstd::prelude::*;

use crate::exit::Exit;
use crate::json::{json_string, jstr};
use crate::number::{dec_of, push_dec};
use crate::text::{concat3, join, joined, views, views_push};
use crate::transaction::StepOutcome;

verus! {

/// What became of applying a file to one registry view.
#[derive(Debug)]
pub struct ApplyReport {
    pub keys_created: usize,
    pub keys_deleted: usize,
    pub values_set: usize,
    pub values_deleted: usize,
    /// What failed, and why.
    pub failures: Vec<(String, String)>,
}

impl ApplyReport {
    /// Something failed.
    pub open spec fn failed(&self) -> bool {
        self.failures@.len() != 0
    }

    /// Something was changed.
    pub open spec fn changed(&self) -> bool {
        self.keys_created > 0 || self.keys_deleted > 0 || self.values_set > 0
            || self.values_deleted > 0
    }

    /// Whether something failed.
    pub fn has_failures(&self) -> (b: bool)
        ensures
            b == self.failed(),
    {
        self.failures.len() != 0
    }

    /// Whether something was changed.
    pub fn touched(&self) -> (b: bool)
        ensures
            b == self.changed(),
    {
        self.keys_created > 0 || self.keys_deleted > 0 || self.values_set > 0
            || self.values_deleted > 0
    }

    /// The outcome as a step of a transaction.
    pub fn outcome(&self) -> (r: StepOutcome)
        ensures
            r == (StepOutcome { failed: self.failed(), touched: self.changed() }),
    {
        StepOutcome { failed: self.has_failures(), touched: self.touched() }
    }
}

/// A report that is there and has failures.
pub open spec fn some_failed(r: Option<ApplyReport>) -> bool {
    r matches Some(a) && a.failed()
}

/// A report that is there and has no failures.
pub open spec fn some_clean(r: Option<ApplyReport>) -> bool {
    r matches Some(a) && !a.failed()
}

/// A report that is there and changed something.
pub open spec fn some_changed(r: Option<ApplyReport>) -> bool {
    r matches Some(a) && a.changed()
}

fn is_failed(r: &Option<ApplyReport>) -> (b: bool)
    ensures
        b == some_failed(*r),
{
    match r {
        Some(a) => a.has_failures(),
        None => false,
    }
}

fn is_clean(r: &Option<ApplyReport>) -> (b: bool)
    ensures
        b == some_clean(*r),
{
    match r {
        Some(a) => !a.has_failures(),
        None => false,
    }
}

fn is_changed(r: &Option<ApplyReport>) -> (b: bool)
    ensures
        b == some_changed(*r),
{
    match r {
        Some(a) => a.touched(),
        None => false,
    }
}

// ---------------------------------------------------------------------------
// One view
// ---------------------------------------------------------------------------

/// A change that failed half-way is taken back, unless it is a dry run or
/// nothing was changed.
pub open spec fn rollback_due(applied: ApplyReport, dry_run: bool) -> bool {
    !dry_run && applied.failed() && applied.changed()
}

/// Whether a change has to be taken back.
pub fn needs_rollback(applied: &ApplyReport, dry_run: bool) -> (b: bool)
    ensures
        b == rollback_due(*applied, dry_run),
{
    !dry_run && applied.has_failures() && applied.touched()
}

/// How a change to one view ends: a change that failed and was taken back is a
/// refusal, one that could not be taken back is partial.
pub open spec fn atomic_exit(applied: ApplyReport, rollback: Option<ApplyReport>) -> Exit {
    if !applied.failed() {
        Exit::Success
    } else if some_clean(rollback) {
        Exit::AccessDenied
    } else {
        Exit::Partial
    }
}

/// How a change to one view ends.
pub fn hive_atomic_exit(applied: &ApplyReport, rollback: &Option<ApplyReport>) -> (r: Exit)
    ensures
        r == atomic_exit(*applied, *rollback),
{
    if !applied.has_failures() {
        Exit::Success
    } else if is_clean(rollback) {
        Exit::AccessDenied
    } else {
        Exit::Partial
    }
}

// ---------------------------------------------------------------------------
// Several views
// ---------------------------------------------------------------------------

/// What became of a change in one of several views; nothing was applied where
/// an earlier view failed.
#[derive(Debug)]
pub struct ViewApplyReport {
    pub label: String,
    pub applied: Option<ApplyReport>,
    pub rollback: Option<ApplyReport>,
}

/// Some view was not reached or failed.
pub open spec fn any_view_failed(reports: Seq<ViewApplyReport>) -> bool {
    exists|i: int|
        0 <= i < reports.len() && !some_clean((#[trigger] reports[i]).applied)
}

/// Taking back failed in some view.
pub open spec fn any_rollback_failed(reports: Seq<ViewApplyReport>) -> bool {
    exists|i: int| 0 <= i < reports.len() && some_failed((#[trigger] reports[i]).rollback)
}

/// Some view was changed and not taken back.
pub open spec fn any_change_left(reports: Seq<ViewApplyReport>) -> bool {
    exists|i: int|
        0 <= i < reports.len() && some_changed((#[trigger] reports[i]).applied)
            && reports[i].rollback is None
}

/// How a change to several views ends.
pub open spec fn views_exit(reports: Seq<ViewApplyReport>) -> Exit {
    if any_rollback_failed(reports) || any_view_failed(reports) && any_change_left(reports) {
        Exit::Partial
    } else if any_view_failed(reports) {
        Exit::AccessDenied
    } else {
        Exit::Success
    }
}

/// How a change to several views ends.
pub fn view_apply_exit(reports: &Vec<ViewApplyReport>) -> (r: Exit)
    ensures
        r == views_exit(reports@),
{
    let mut failed = false;
    let mut rollback_failed = false;
    let mut left = false;
    for i in 0..reports.len()
        invariant
            failed == exists|j: int|
                0 <= j < i && !some_clean((#[trigger] reports@[j]).applied),
            rollback_failed == exists|j: int|
                0 <= j < i && some_failed((#[trigger] reports@[j]).rollback),
            left == exists|j: int|
                0 <= j < i && some_changed((#[trigger] reports@[j]).applied)
                    && reports@[j].rollback is None,
    {
        let report = &reports[i];
        if !is_clean(&report.applied) {
            failed = true;
            assert(!some_clean(reports@[i as int].applied));
        }
        if is_failed(&report.rollback) {
            rollback_failed = true;
            assert(some_failed(reports@[i as int].rollback));
        }
        if is_changed(&report.applied) && report.rollback.is_none() {
            left = true;
            assert(some_changed(reports@[i as int].applied) && reports@[i as int].rollback is None);
        }
    }
    if rollback_failed || failed && left {
        Exit::Partial
    } else if failed {
        Exit::AccessDenied
    } else {
        Exit::Success
    }
}

/// A view failed after something was changed in it.
pub open spec fn half_changed(r: ViewApplyReport) -> bool {
    r.applied matches Some(a) && a.failed() && a.changed()
}

/// Whether to warn that a partial change stays: only where nothing is kept that
/// it could be taken back with.
pub fn changes_remain(no_backup: bool, reports: &Vec<ViewApplyReport>) -> (b: bool)
    ensures
        b == (no_backup && exists|i: int|
            0 <= i < reports@.len() && half_changed(#[trigger] reports@[i])),
{
    if !no_backup {
        return false;
    }
    for i in 0..reports.len()
        invariant
            no_backup,
            forall|j: int| 0 <= j < i ==> !half_changed(#[trigger] reports@[j]),
    {
        if let Some(applied) = &reports[i].applied {
            if applied.has_failures() && applied.touched() {
                assert(half_changed(reports@[i as int]));
                return true;
            }
        }
    }
    false
}

/// A change to several views succeeds only where every view was reached and
/// none failed.
pub proof fn success_means_every_view(reports: Seq<ViewApplyReport>)
    ensures
        views_exit(reports) == Exit::Success ==> forall|i: int|
            0 <= i < reports.len() ==> some_clean((#[trigger] reports[i]).applied),
{
}

/// Where a change fails and anything of it stays, the run is partial: a failed
/// run that is not partial left nothing behind.
pub proof fn refusals_leave_nothing(reports: Seq<ViewApplyReport>, i: int)
    requires
        views_exit(reports) == Exit::AccessDenied,
        0 <= i < reports.len(),
        some_changed(reports[i].applied),
    ensures
        some_clean(reports[i].rollback),
{
    assert(some_changed(reports[i].applied));
    assert(!some_failed(reports[i].rollback));
}

// ---------------------------------------------------------------------------
// Copying and moving
// ---------------------------------------------------------------------------

/// What is to be done next in copying or moving.
#[derive(Clone, Copy, Debug, PartialEq, Eq, Structural)]
pub enum CopyStep {
    Copy,
    RemoveSource,
    Rollback,
    Finish,
}

/// What has been done of copying or moving in one view.
#[derive(Debug)]
pub struct CopyRun {
    /// The source has to be removed.
    pub removes: bool,
    pub dry_run: bool,
    pub copied: Option<ApplyReport>,
    pub removed: Option<ApplyReport>,
    pub rollback: Option<ApplyReport>,
}

impl CopyRun {
    /// Copying or removing failed.
    pub open spec fn failed(&self) -> bool {
        some_failed(self.copied) || some_failed(self.removed)
    }

    /// Copying or removing changed something.
    pub open spec fn changed(&self) -> bool {
        some_changed(self.copied) || some_changed(self.removed)
    }

    /// What is to be done next. The source is only removed where every write to
    /// the destination succeeded.
    pub open spec fn step(&self) -> CopyStep {
        if self.copied is None {
            CopyStep::Copy
        } else if self.removes && some_clean(self.copied) && self.removed is None {
            CopyStep::RemoveSource
        } else if self.failed() && self.changed() && !self.dry_run && self.rollback is None {
            CopyStep::Rollback
        } else {
            CopyStep::Finish
        }
    }

    /// The steps were taken in order.
    pub open spec fn wf(&self) -> bool {
        &&& self.copied is None ==> self.removed is None && self.rollback is None
        &&& self.removed is Some ==> self.removes && some_clean(self.copied)
        &&& self.rollback is Some ==> self.failed() && self.changed() && !self.dry_run
    }

    /// A run of copying or moving.
    pub fn start(removes: bool, dry_run: bool) -> (r: CopyRun)
        ensures
            r.wf(),
            r.removes == removes,
            r.dry_run == dry_run,
            r.copied is None,
            r.removed is None,
            r.rollback is None,
    {
        CopyRun { removes, dry_run, copied: None, removed: None, rollback: None }
    }

    /// Whether copying or removing failed.
    pub fn has_failed(&self) -> (b: bool)
        ensures
            b == self.failed(),
    {
        is_failed(&self.copied) || is_failed(&self.removed)
    }

    /// What is to be done next.
    pub fn next(&self) -> (r: CopyStep)
        ensures
            r == self.step(),
    {
        if self.copied.is_none() {
            CopyStep::Copy
        } else if self.removes && is_clean(&self.copied) && self.removed.is_none() {
            CopyStep::RemoveSource
        } else if self.has_failed() && (is_changed(&self.copied) || is_changed(&self.removed))
            && !self.dry_run && self.rollback.is_none() {
            CopyStep::Rollback
        } else {
            CopyStep::Finish
        }
    }

    /// Records what became of the step that `next` asked for.
    pub fn record(self, report: ApplyReport) -> (r: CopyRun)
        requires
            self.wf(),
            self.step() != CopyStep::Finish,
        ensures
            r.wf(),
            r.removes == self.removes,
            r.dry_run == self.dry_run,
            r.copied == (if self.step() == CopyStep::Copy {
                Some(report)
            } else {
                self.copied
            }),
            r.removed == (if self.step() == CopyStep::RemoveSource {
                Some(report)
            } else {
                self.removed
            }),
            r.rollback == (if self.step() == CopyStep::Rollback {
                Some(report)
            } else {
                self.rollback
            }),
    {
        let step = self.next();
        match step {
            CopyStep::Copy => CopyRun { copied: Some(report), ..self },
            CopyStep::RemoveSource => CopyRun { removed: Some(report), ..self },
            CopyStep::Rollback => CopyRun { rollback: Some(report), ..self },
            CopyStep::Finish => self,
        }
    }

    /// How copying or moving in one view ends.
    pub open spec fn ends(&self) -> Exit {
        if !self.failed() {
            Exit::Success
        } else if some_failed(self.rollback) {
            Exit::Partial
        } else {
            Exit::AccessDenied
        }
    }

    /// How copying or moving in one view ends.
    pub fn exit(&self) -> (r: Exit)
        ensures
            r == self.ends(),
    {
        if !self.has_failed() {
            Exit::Success
        } else if is_failed(&self.rollback) {
            Exit::Partial
        } else {
            Exit::AccessDenied
        }
    }
}

/// The source is never removed unless the whole destination was written.
pub proof fn sources_survive_a_partial_copy(run: CopyRun)
    requires
        run.wf(),
    ensures
        run.step() == CopyStep::RemoveSource ==> some_clean(run.copied),
        run.removed is Some ==> some_clean(run.copied),
{
}

/// A finished run that failed and changed something was taken back, unless it
/// was a dry run.
pub proof fn failed_copies_are_taken_back(run: CopyRun)
    requires
        run.wf(),
        run.step() == CopyStep::Finish,
        run.failed(),
        run.changed(),
        !run.dry_run,
    ensures
        run.rollback is Some,
{
}

/// Nothing was removed where only a copy was asked for.
pub proof fn copies_remove_nothing(run: CopyRun)
    requires
        run.wf(),
        !run.removes,
    ensures
        run.removed is None,
        run.step() != CopyStep::RemoveSource,
{
}

/// Some view was not reached or failed.
pub open spec fn any_copy_failed(runs: Seq<CopyRun>) -> bool {
    exists|i: int|
        0 <= i < runs.len() && (!some_clean((#[trigger] runs[i]).copied) || some_failed(
            runs[i].removed,
        ))
}

/// Taking back failed in some view.
pub open spec fn any_copy_rollback_failed(runs: Seq<CopyRun>) -> bool {
    exists|i: int| 0 <= i < runs.len() && some_failed((#[trigger] runs[i]).rollback)
}

/// How copying or moving in several views ends.
pub open spec fn copies_exit(runs: Seq<CopyRun>) -> Exit {
    if any_copy_rollback_failed(runs) {
        Exit::Partial
    } else if any_copy_failed(runs) {
        Exit::AccessDenied
    } else {
        Exit::Success
    }
}

/// How copying or moving in several views ends.
pub fn copy_views_exit(runs: &Vec<CopyRun>) -> (r: Exit)
    ensures
        r == copies_exit(runs@),
{
    let mut failed = false;
    let mut rollback_failed = false;
    for i in 0..runs.len()
        invariant
            failed == exists|j: int|
                0 <= j < i && (!some_clean((#[trigger] runs@[j]).copied) || some_failed(
                    runs@[j].removed,
                )),
            rollback_failed == exists|j: int|
                0 <= j < i && some_failed((#[trigger] runs@[j]).rollback),
    {
        if !is_clean(&runs[i].copied) || is_failed(&runs[i].removed) {
            failed = true;
            assert(!some_clean(runs@[i as int].copied) || some_failed(runs@[i as int].removed));
        }
        if is_failed(&runs[i].rollback) {
            rollback_failed = true;
            assert(some_failed(runs@[i as int].rollback));
        }
    }
    if rollback_failed {
        Exit::Partial
    } else if failed {
        Exit::AccessDenied
    } else {
        Exit::Success
    }
}

// ---------------------------------------------------------------------------
// Reports as JSON
// ---------------------------------------------------------------------------

/// A failure as JSON.
pub open spec fn failure_json(f: (String, String)) -> Seq<char> {
    "{\"target\": "@ + json_string(f.0@) + ", \"problem\": "@ + json_string(f.1@) + "}"@
}

/// A report as JSON.
pub open spec fn report_json(r: ApplyReport) -> Seq<char> {
    "{\"keysCreated\": "@ + dec_of(r.keys_created as nat) + ", \"keysDeleted\": "@ + dec_of(
        r.keys_deleted as nat,
    ) + ", \"valuesSet\": "@ + dec_of(r.values_set as nat) + ", \"valuesDeleted\": "@ + dec_of(
        r.values_deleted as nat,
    ) + ", \"failures\": ["@ + joined(
        r.failures@.map_values(|f: (String, String)| failure_json(f)),
        ", "@,
    ) + "]}"@
}

/// A report as JSON, or `null`.
pub open spec fn opt_report_json(r: Option<ApplyReport>) -> Seq<char> {
    match r {
        Some(a) => report_json(a),
        None => "null"@,
    }
}

/// A report as JSON.
pub fn apply_report_json(report: &ApplyReport) -> (out: String)
    ensures
        out@ == report_json(*report),
{
    broadcast use views_push;

    let mut parts: Vec<String> = Vec::new();
    let ghost all = report.failures@;
    for i in 0..report.failures.len()
        invariant
            all == report.failures@,
            views(parts@) =~= all.take(i as int).map_values(
                |f: (String, String)| failure_json(f),
            ),
    {
        let mut one = "{\"target\": ".to_owned();
        one.append(jstr(report.failures[i].0.as_str()).as_str());
        one.append(", \"problem\": ");
        one.append(jstr(report.failures[i].1.as_str()).as_str());
        one.append("}");
        let ghost before = parts@;
        parts.push(one);
        assert(views(parts@) == views(before).push(one@));
    }
    assert(all.take(all.len() as int) =~= all);
    let mut out = "{\"keysCreated\": ".to_owned();
    push_dec(&mut out, report.keys_created as u64);
    out.append(", \"keysDeleted\": ");
    push_dec(&mut out, report.keys_deleted as u64);
    out.append(", \"valuesSet\": ");
    push_dec(&mut out, report.values_set as u64);
    out.append(", \"valuesDeleted\": ");
    push_dec(&mut out, report.values_deleted as u64);
    out.append(", \"failures\": [");
    out.append(join(parts.as_slice(), ", ").as_str());
    out.append("]}");
    out
}

/// A report as JSON, or `null`.
pub fn opt_apply_report_json(report: &Option<ApplyReport>) -> (out: String)
    ensures
        out@ == opt_report_json(*report),
{
    match report {
        Some(a) => apply_report_json(a),
        None => "null".to_owned(),
    }
}

/// The evidence of a file that was written: its size and digest under the given
/// names, `null` where nothing was written.
pub open spec fn evidence_json(
    bytes_name: Seq<char>,
    digest_name: Seq<char>,
    written: Option<(u64, Seq<char>)>,
) -> Seq<char> {
    match written {
        Some((bytes, digest)) => "\""@ + bytes_name + "\":"@ + dec_of(bytes as nat) + ",\""@
            + digest_name + "\":"@ + json_string(digest),
        None => "\""@ + bytes_name + "\":null,\""@ + digest_name + "\":null"@,
    }
}

/// What was written, as a view.
pub open spec fn written_view(w: Option<(u64, String)>) -> Option<(u64, Seq<char>)> {
    match w {
        Some((bytes, digest)) => Some((bytes, digest@)),
        None => None,
    }
}

fn evidence(bytes_name: &str, digest_name: &str, written: &Option<(u64, String)>) -> (out: String)
    ensures
        out@ == evidence_json(bytes_name@, digest_name@, written_view(*written)),
{
    let mut out = concat3("\"", bytes_name, match written {
        Some(_) => "\":",
        None => "\":null,\"",
    });
    match written {
        Some((bytes, digest)) => {
            push_dec(&mut out, *bytes);
            out.append(",\"");
            out.append(digest_name);
            out.append("\":");
            out.append(jstr(digest.as_str()).as_str());
        },
        None => {
            out.append(digest_name);
            out.append("\":null");
        },
    }
    out
}

/// The evidence of an artifact.
pub fn artifact_evidence_json(written: &Option<(u64, String)>) -> (out: String)
    ensures
        out@ == evidence_json("bytes"@, "sha256"@, written_view(*written)),
{
    evidence("bytes", "sha256", written)
}

/// The evidence of an undo file.
pub fn undo_evidence_json(written: &Option<(u64, String)>) -> (out: String)
    ensures
        out@ == evidence_json("undoBytes"@, "undoSha256"@, written_view(*written)),
{
    evidence("undoBytes", "undoSha256", written)
}

/// The evidence of a redo file.
pub fn redo_evidence_json(written: &Option<(u64, String)>) -> (out: String)
    ensures
        out@ == evidence_json("redoBytes"@, "redoSha256"@, written_view(*written)),
{
    evidence("redoBytes", "redoSha256", written)
}

/// The evidence of a backup.
pub fn backup_evidence_json(written: &Option<(u64, String)>) -> (out: String)
    ensures
        out@ == evidence_json("backupBytes"@, "backupSha256"@, written_view(*written)),
{
    evidence("backupBytes", "backupSha256", written)
}

} // verus!
