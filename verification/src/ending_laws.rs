//! What the end of a run tells.
use vstd::prelude::*;

use crate::apply::{
    atomic_exit, copies_exit, half_changed, rollback_due, views_exit, ApplyReport, CopyRun,
    CopyStep, ViewApplyReport,
};
use crate::batch::{batch_end, status_of, BatchOperationReport};
use crate::exit::{failure_exit, worse_of, Exit, RegistryFailure};
use crate::outcome::{
    export_end, import_stops, inspected, listing, permissions_end, scope_one_end, scoped,
    search_end, unsafe_plan, validated, wait_limit, Inspected, Validated, ViewTally,
};
use crate::shortcut_run::{link_begun, LinkChange, LinkEventView, LinkStage};
use crate::transaction::{finished_runs_took_back_what_is_due, TransactionView, UndoRule};

verus! {

// ---------------------------------------------------------------------------
// Ends
// ---------------------------------------------------------------------------

/// The worse of two ends is one of them, whichever comes first, and success is
/// worse than nothing. A run that was cut short is worse than any other.
pub proof fn the_worse_end_counts(a: Exit, b: Exit, c: Exit)
    ensures
        worse_of(a, b) == a || worse_of(a, b) == b,
        worse_of(a, b) == worse_of(b, a),
        worse_of(a, worse_of(b, c)) == worse_of(worse_of(a, b), c),
        worse_of(a, Exit::Success) == a,
        worse_of(a, b) == Exit::Success <==> a == Exit::Success && b == Exit::Success,
        worse_of(a, Exit::Partial) == Exit::Partial,
        worse_of(Exit::Usage, Exit::Parse) == Exit::Parse,
        worse_of(Exit::Parse, Exit::RedirectRefused) == Exit::RedirectRefused,
        worse_of(Exit::RedirectRefused, Exit::NotFound) == Exit::NotFound,
        worse_of(Exit::NotFound, Exit::AccessDenied) == Exit::AccessDenied,
        worse_of(Exit::AccessDenied, Exit::Io) == Exit::Io,
{
}

/// A missing key and a refusal are told apart from each other and from every
/// other failure, and no failure is a success.
pub proof fn failures_are_told_apart(f: RegistryFailure)
    ensures
        failure_exit(f) != Exit::Success,
        failure_exit(f) == Exit::NotFound <==> f == RegistryFailure::NotFound,
        failure_exit(f) == Exit::AccessDenied <==> f == RegistryFailure::AccessDenied,
        failure_exit(f) == Exit::Io <==> f == RegistryFailure::Other,
{
}

// ---------------------------------------------------------------------------
// Reading
// ---------------------------------------------------------------------------

/// Listing succeeds where views were read and nothing was missed, is partial
/// where something was, and fails as the first view did where none was read.
pub proof fn listings_tell_what_was_missed(t: ViewTally)
    ensures
        listing(t) == Exit::Success <==> t.views > 0 && t.first_failure is None && !t.incomplete,
        listing(t) == Exit::Partial <==> t.views > 0 && (t.first_failure is Some || t.incomplete),
        t.views == 0 && t.first_failure is None ==> listing(t) == Exit::NotFound,
        t.views == 0 && t.first_failure is Some ==> listing(t) == failure_exit(
            t.first_failure->0,
        ),
{
}

/// Counting succeeds where the scope matched in every view, all of it was read
/// and the fingerprint is the expected one. A scope that matched in no view is
/// not found.
pub proof fn scopes_tell_what_was_missed(
    t: ViewTally,
    any_matched: bool,
    all_matched: bool,
    mismatch: bool,
)
    ensures
        scoped(t, any_matched, all_matched, mismatch) == Exit::Success <==> t.views > 0
            && any_matched && all_matched && !mismatch && t.first_failure is None && !t.incomplete,
        t.views > 0 ==> (scoped(t, any_matched, all_matched, mismatch) == Exit::NotFound
            <==> !any_matched),
        t.views > 0 && any_matched && (mismatch || !all_matched || t.incomplete
            || t.first_failure is Some) ==> scoped(t, any_matched, all_matched, mismatch)
            == Exit::Partial,
        t.views == 0 ==> scoped(t, any_matched, all_matched, mismatch) == listing(t),
{
}

/// One source is counted in the same way as several views that agree.
pub proof fn one_source_ends_as_one_view(
    t: ViewTally,
    matched: bool,
    incomplete: bool,
    mismatch: bool,
)
    requires
        t.views > 0,
        t.first_failure is None,
        t.incomplete == incomplete,
    ensures
        scope_one_end(matched, incomplete, mismatch) == scoped(t, matched, matched, mismatch),
        scope_one_end(matched, incomplete, mismatch) == Exit::Success <==> matched && !incomplete
            && !mismatch,
{
}

/// Permissions are shown where there are any; a failure beside them makes the
/// run partial.
pub proof fn permissions_tell_what_was_missed(reports: nat, failures: nat)
    ensures
        permissions_end(reports, failures) == Exit::Success <==> reports > 0 && failures == 0,
        permissions_end(reports, failures) == Exit::AccessDenied <==> reports == 0,
        permissions_end(reports, failures) == Exit::Partial <==> reports > 0 && failures > 0,
{
}

/// A search succeeds where it found something and read everything; it says that
/// there is nothing only where it read everything.
pub proof fn searches_tell_what_was_missed(incomplete: bool, matches: nat)
    ensures
        search_end(incomplete, matches) == Exit::Success <==> !incomplete && matches > 0,
        search_end(incomplete, matches) == Exit::NotFound <==> !incomplete && matches == 0,
        search_end(incomplete, matches) == Exit::Partial <==> incomplete,
{
}

/// An export succeeds where nothing was left out and a selection, if there is
/// one, has something.
pub proof fn exports_tell_what_was_missed(selected: bool, keys: nat, skipped: nat)
    ensures
        export_end(selected, keys, skipped) == Exit::Success <==> skipped == 0 && (selected ==> keys
            > 0),
        export_end(selected, keys, skipped) == Exit::Partial <==> skipped > 0,
        export_end(selected, keys, skipped) == Exit::NotFound <==> skipped == 0 && selected && keys
            == 0,
{
}

/// Waiting lasts the seconds asked for, in milliseconds; it is without end
/// where none are asked for or they do not fit.
pub proof fn waiting_lasts_as_asked(seconds: u32)
    ensures
        0 < seconds <= 4_294_967 ==> wait_limit(seconds) == seconds * 1_000,
        seconds == 0 || seconds > 4_294_967 ==> wait_limit(seconds) == u32::MAX,
{
}

// ---------------------------------------------------------------------------
// Checking
// ---------------------------------------------------------------------------

/// Validation stays a success over a file where the file has no errors and
/// nothing is held against it.
pub proof fn sound_files_pass(worst: Exit, v: Validated)
    ensures
        v.has_errors ==> validated(worst, v) == Exit::Parse,
        !v.has_errors && !v.fix && (v.strict ==> v.diagnostics == 0) ==> validated(worst, v)
            == worst,
        !v.has_errors && !v.fix && v.strict && v.diagnostics > 0 ==> validated(worst, v)
            != Exit::Success,
        !v.has_errors && v.fix && v.repairs == 0 && v.unfixable == 0 ==> validated(worst, v)
            == worst,
        !v.has_errors && v.fix && v.unfixable > 0 && v.repairs == 0 ==> validated(worst, v)
            == Exit::Parse,
        validated(worst, v) == Exit::Success ==> !v.has_errors,
{
}

/// Inspecting stays a success over a file that was read, lost nothing and has
/// no refused key; an unreadable file is not passed over.
pub proof fn inspection_tells_what_was_lost(worst: Exit, one: Inspected, json: bool)
    ensures
        one == Inspected::Unreadable ==> inspected(worst, one, json) == Exit::Parse,
        one matches Inspected::Read { inexact, refused } ==> {
            &&& !inexact && (json || refused == 0) ==> inspected(worst, one, json) == worst
            &&& inexact || (!json && refused > 0) ==> inspected(worst, one, json) == Exit::Partial
        },
{
}

/// An import goes on only where keys are left and a refusal does not fail it,
/// and ends well without applying anything only where nothing was refused.
pub proof fn imports_stop_where_nothing_is_left(refused: nat, fail_on_refuse: bool, keys: nat)
    ensures
        import_stops(refused, fail_on_refuse, keys) is None <==> keys > 0 && !(refused > 0
            && fail_on_refuse),
        import_stops(refused, fail_on_refuse, keys) == Some(Exit::Success) <==> keys == 0
            && refused == 0,
        import_stops(refused, fail_on_refuse, keys) == Some(Exit::RedirectRefused) <==> refused > 0
            && (fail_on_refuse || keys == 0),
{
}

/// A plan is safe where nothing at all stands against it.
pub proof fn plans_are_safe_where_nothing_is_wrong(
    denied: nat,
    failures: nat,
    complete: bool,
    skipped: nat,
    refused: nat,
)
    ensures
        !unsafe_plan(denied, failures, complete, skipped, refused) <==> denied + failures + skipped
            + refused == 0 && complete,
{
}

// ---------------------------------------------------------------------------
// Changing
// ---------------------------------------------------------------------------

/// What failed half-way is taken back: something failed, something was changed,
/// and it was no dry run.
pub proof fn half_changes_are_taken_back(a: ApplyReport, dry_run: bool)
    ensures
        rollback_due(a, dry_run) <==> !dry_run && a.failures@.len() > 0 && a.keys_created
            + a.keys_deleted + a.values_set + a.values_deleted > 0,
{
}

/// A change succeeds where nothing failed, whatever else is known; one that
/// failed is refused where it was taken back, and partial otherwise.
pub proof fn changes_end_as_they_stand(a: ApplyReport, rollback: Option<ApplyReport>)
    ensures
        atomic_exit(a, rollback) == Exit::Success <==> a.failures@.len() == 0,
        atomic_exit(a, rollback) == Exit::AccessDenied <==> a.failures@.len() > 0
            && rollback is Some && (rollback->0).failures@.len() == 0,
        atomic_exit(a, rollback) == Exit::Partial <==> a.failures@.len() > 0 && (rollback is None
            || (rollback->0).failures@.len() > 0),
{
}

/// A change to several views succeeds exactly where each was reached, none
/// failed and nothing had to be taken back in vain.
pub proof fn views_succeed_together(reports: Seq<ViewApplyReport>)
    ensures
        views_exit(reports) == Exit::Success <==> forall|i: int|
            0 <= i < reports.len() ==> (#[trigger] reports[i]).applied is Some
                && (reports[i].applied->0).failures@.len() == 0 && (reports[i].rollback is Some
                ==> (reports[i].rollback->0).failures@.len() == 0),
{
    if views_exit(reports) != Exit::Success && forall|i: int|
        0 <= i < reports.len() ==> (#[trigger] reports[i]).applied is Some && (
        reports[i].applied->0).failures@.len() == 0 && (reports[i].rollback is Some ==> (
        reports[i].rollback->0).failures@.len() == 0) {
        let i = choose|i: int|
            0 <= i < reports.len() && (!crate::apply::some_clean((#[trigger] reports[i]).applied)
                || crate::apply::some_failed(reports[i].rollback));
        assert(reports[i].applied is Some);
    }
    if views_exit(reports) == Exit::Success {
        assert forall|i: int| 0 <= i < reports.len() implies (#[trigger] reports[i]).applied is Some
            && (reports[i].applied->0).failures@.len() == 0 && (reports[i].rollback is Some ==> (
        reports[i].rollback->0).failures@.len() == 0) by {
            assert(crate::apply::some_clean(reports[i].applied));
            assert(!crate::apply::some_failed(reports[i].rollback));
        }
    }
}

/// Copying or moving succeeds in every view or not at all: a copy that was not
/// made or failed, a source that was not removed, or a rollback that failed
/// stand against it.
pub proof fn copies_succeed_together(runs: Seq<CopyRun>, i: int)
    requires
        0 <= i < runs.len(),
    ensures
        runs[i].rollback is Some && (runs[i].rollback->0).failures@.len() > 0 ==> copies_exit(runs)
            == Exit::Partial,
        runs[i].copied is None || (runs[i].copied->0).failures@.len() > 0 ==> copies_exit(runs)
            != Exit::Success,
        runs[i].removed is Some && (runs[i].removed->0).failures@.len() > 0 ==> copies_exit(runs)
            != Exit::Success,
{
    if runs[i].rollback is Some && (runs[i].rollback->0).failures@.len() > 0 {
        assert(crate::apply::some_failed(runs[i].rollback));
    }
    assert(crate::apply::some_clean(runs[i].copied) <==> runs[i].copied is Some && (
    runs[i].copied->0).failures@.len() == 0);
}

/// Where every copy was made, every removal worked and nothing had to be taken
/// back in vain, copying succeeds.
pub proof fn clean_copies_succeed(runs: Seq<CopyRun>)
    requires
        forall|i: int|
            0 <= i < runs.len() ==> (#[trigger] runs[i]).copied is Some
                && (runs[i].copied->0).failures@.len() == 0 && (runs[i].removed is Some ==> (
            runs[i].removed->0).failures@.len() == 0) && runs[i].rollback is None,
    ensures
        copies_exit(runs) == Exit::Success,
{
}

/// A move copies first, removes the source where the whole copy was made, and
/// takes back what failed half-way; a copy leaves the source alone.
pub proof fn copying_comes_before_removing(run: CopyRun)
    ensures
        run.step() == CopyStep::Copy <==> run.copied is None,
        run.step() == CopyStep::RemoveSource <==> run.removes && run.removed is None
            && run.copied is Some && (run.copied->0).failures@.len() == 0,
        run.step() == CopyStep::Rollback ==> !run.dry_run && run.rollback is None && run.failed()
            && run.changed(),
        run.ends() == Exit::Success <==> !(run.copied is Some && (run.copied->0).failures@.len()
            > 0) && !(run.removed is Some && (run.removed->0).failures@.len() > 0),
        run.ends() == Exit::Partial ==> run.rollback is Some && (run.rollback->0).failures@.len()
            > 0,
{
}

/// A view is half changed where it was reached, something failed in it and
/// something was changed.
pub proof fn half_changed_views_failed(r: ViewApplyReport)
    ensures
        half_changed(r) <==> r.applied is Some && rollback_due(r.applied->0, false),
{
}

/// An operation that was applied in a batch that went well is reported so, one
/// up to the failure as taken back or not, one behind it as not attempted, and
/// one that was left out as skipped.
pub proof fn operations_are_reported_as_they_ended(
    r: BatchOperationReport,
    index: int,
    failed_at: Option<usize>,
    rollback_failed: bool,
)
    ensures
        r.skipped ==> status_of(r, index, failed_at, rollback_failed, false) == "skipped"@,
        !r.skipped && !r.attempted ==> status_of(r, index, failed_at, rollback_failed, false)
            == "notAttempted"@,
        !r.skipped && r.attempted && failed_at is None ==> status_of(
            r,
            index,
            failed_at,
            rollback_failed,
            false,
        ) == "applied"@,
        !r.skipped && failed_at is Some && index > failed_at->0 ==> status_of(
            r,
            index,
            failed_at,
            rollback_failed,
            false,
        ) == "notAttempted"@,
        !r.skipped && r.attempted && failed_at is Some && index <= failed_at->0 ==> status_of(
            r,
            index,
            failed_at,
            rollback_failed,
            false,
        ) == (if rollback_failed {
            "rollbackFailed"@
        } else {
            "rolledBack"@
        }),
        !r.skipped && r.attempted && (forall|i: int|
            0 <= i < r.views@.len() ==> (#[trigger] r.views@[i]).failures@.len() == 0)
            ==> status_of(r, index, failed_at, rollback_failed, true) == "planned"@,
        !r.skipped && r.attempted && !(forall|i: int|
            0 <= i < r.views@.len() ==> (#[trigger] r.views@[i]).failures@.len() == 0)
            ==> status_of(r, index, failed_at, rollback_failed, true) == "failed"@,
{
    if forall|i: int| 0 <= i < r.views@.len() ==> (#[trigger] r.views@[i]).failures@.len() == 0 {
        assert(!crate::batch::any_failed(r.views@)) by {
            if crate::batch::any_failed(r.views@) {
                let i = choose|i: int|
                    0 <= i < r.views@.len() && (#[trigger] r.views@[i]).failed();
                assert(r.views@[i].failures@.len() == 0);
            }
        }
    } else {
        let i = choose|i: int|
            0 <= i < r.views@.len() && !((#[trigger] r.views@[i]).failures@.len() == 0);
        assert(r.views@[i].failed());
    }
}

/// A batch succeeds where nothing failed and nothing was left out; a failure
/// that was taken back is a refusal.
pub proof fn batches_end_as_they_stand(
    rollback_failed: bool,
    failed: bool,
    skipped: nat,
    refused: nat,
)
    ensures
        batch_end(rollback_failed, failed, skipped, refused) == Exit::Success
            <==> !rollback_failed && !failed && skipped == 0 && refused == 0,
        batch_end(rollback_failed, failed, skipped, refused) == Exit::AccessDenied <==> failed
            && !rollback_failed,
        batch_end(rollback_failed, failed, skipped, refused) == Exit::Partial <==> rollback_failed
            || !failed && skipped + refused > 0,
{
}

/// A finished run that failed took back, by its rule, every step that changed
/// anything, every step but the failing one, or none.
pub proof fn failed_runs_take_back_by_their_rule(t: TransactionView, i: int)
    requires
        t.valid(),
        t.stopped(),
        t.next() is Finish,
        0 <= i < t.outcomes.len(),
    ensures
        t.rule == UndoRule::Touched ==> (t.undone.contains(i) <==> t.outcomes[i].touched),
        t.rule == UndoRule::Earlier ==> (t.undone.contains(i) <==> i < t.outcomes.len() - 1),
        t.rule == UndoRule::Nothing ==> !t.undone.contains(i),
{
    finished_runs_took_back_what_is_due(t, i);
}

/// A change to shortcuts is asked about unless it is a dry run, or `-y` was
/// given and the policy does not insist; nothing is written before the log is
/// open, and nothing at all in a dry run.
pub proof fn shortcuts_are_asked_about(
    change: LinkChange,
    dry_run: bool,
    yes: bool,
    require_confirm: bool,
)
    ensures
        ({
            let g = link_begun(change, dry_run, yes, require_confirm);
            &&& g.stage == LinkStage::OpenLog <==> dry_run || yes && !require_confirm
            &&& g.stage == LinkStage::Ask <==> !(dry_run || yes && !require_confirm)
            &&& g.stage == LinkStage::Ask ==> g.after(LinkEventView::Answered(true)).stage
                == LinkStage::OpenLog
            &&& g.stage == LinkStage::Ask ==> (g.after(LinkEventView::Answered(false)).end matches
                Some(Err(e)) && e.code == Exit::AccessDenied)
            &&& g.stage == LinkStage::OpenLog ==> g.after(LinkEventView::Logged(None)).stage == (
            if dry_run {
                LinkStage::Rehearse
            } else {
                LinkStage::Write
            })
        }),
{
}

} // verus!
