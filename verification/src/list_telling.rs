//! What the lists of documents tell, element by element.
use vstd::prelude::*;

use crate::audit::{Break, line_items, line_json, segment_items, segment_json};
use crate::change_report::{AppliedPlanView, BackupView, BatchOperation, CopyView, RestoreView, SavedCopyPlan, SavedViewPlan, UndoFile, ViewApplied, ViewChange, ViewRedo, ViewResult, applied_plan_view_items, applied_plan_view_json, backup_view_items, backup_view_json, batch_operation_items, batch_operation_json, copy_view_items, copy_view_json, restore_view_items, restore_view_json, saved_copy_plan_items, saved_copy_plan_json, saved_view_plan_items, saved_view_plan_json, undo_file_items, undo_file_json, view_applied_items, view_applied_json, view_change_items, view_change_json, view_redo_items, view_redo_json, view_result_items, view_result_json};
use crate::find_report::{FoundView, SideProblem, ViewDiff, WatchView, found_view_items, found_view_json, side_problem_items, side_problem_json, view_diff_items, view_diff_json, watch_view_items, watch_view_json};
use crate::inspection::{Companion, FoundConflict, companion_items, companion_json, found_conflict_items, found_conflict_json};
use crate::parts::{permission_items};
use crate::read_report::{ExportView, FingerprintView, ListView, PermissionComparison, ProbeView, QueryView, SideError, StatsView, export_view_items, export_view_json, fingerprint_view_items, fingerprint_view_json, list_view_items, list_view_json, permission_comparison_items, permission_comparison_json, probe_view_items, probe_view_json, query_view_items, query_view_json, side_error_items, side_error_json, stats_view_items, stats_view_json};
use crate::report::{PermissionView, permission_json};

verus! {

/// In a list of segments each has a place of its own, in their order.
pub proof fn segment_items_follow_each_other(items: Seq<Break>, one: Break)
    ensures
        segment_items(Seq::empty()) == Seq::<char>::empty(),
        segment_items(items.push(one)) == (if items.len() == 0 {
            segment_json(one)
        } else {
            segment_items(items) + ","@ + segment_json(one)
        }),
{
    let all = items.push(one).map_values(|b: Break| segment_json(b));
    assert(all.drop_last() =~= items.map_values(|b: Break| segment_json(b)));
    assert(all.last() == segment_json(one));
}

/// In a list of lines each has a place of its own, in their order.
pub proof fn line_items_follow_each_other(items: Seq<Break>, one: Break)
    ensures
        line_items(Seq::empty()) == Seq::<char>::empty(),
        line_items(items.push(one)) == (if items.len() == 0 {
            line_json(one)
        } else {
            line_items(items) + ",\n"@ + line_json(one)
        }),
{
    let all = items.push(one).map_values(|b: Break| line_json(b));
    assert(all.drop_last() =~= items.map_values(|b: Break| line_json(b)));
    assert(all.last() == line_json(one));
}

/// In a list of view changes each has a place of its own, in their order.
pub proof fn view_change_items_follow_each_other(items: Seq<ViewChange>, one: ViewChange)
    ensures
        view_change_items(Seq::empty()) == Seq::<char>::empty(),
        view_change_items(items.push(one)) == (if items.len() == 0 {
            view_change_json(one)
        } else {
            view_change_items(items) + ","@ + view_change_json(one)
        }),
{
    let all = items.push(one).map_values(|d: ViewChange| view_change_json(d));
    assert(all.drop_last() =~= items.map_values(|d: ViewChange| view_change_json(d)));
    assert(all.last() == view_change_json(one));
}

/// In a list of view results each has a place of its own, in their order.
pub proof fn view_result_items_follow_each_other(items: Seq<ViewResult>, one: ViewResult)
    ensures
        view_result_items(Seq::empty()) == Seq::<char>::empty(),
        view_result_items(items.push(one)) == (if items.len() == 0 {
            view_result_json(one)
        } else {
            view_result_items(items) + ","@ + view_result_json(one)
        }),
{
    let all = items.push(one).map_values(|d: ViewResult| view_result_json(d));
    assert(all.drop_last() =~= items.map_values(|d: ViewResult| view_result_json(d)));
    assert(all.last() == view_result_json(one));
}

/// In a list of view redos each has a place of its own, in their order.
pub proof fn view_redo_items_follow_each_other(items: Seq<ViewRedo>, one: ViewRedo)
    ensures
        view_redo_items(Seq::empty()) == Seq::<char>::empty(),
        view_redo_items(items.push(one)) == (if items.len() == 0 {
            view_redo_json(one)
        } else {
            view_redo_items(items) + ","@ + view_redo_json(one)
        }),
{
    let all = items.push(one).map_values(|d: ViewRedo| view_redo_json(d));
    assert(all.drop_last() =~= items.map_values(|d: ViewRedo| view_redo_json(d)));
    assert(all.last() == view_redo_json(one));
}

/// In a list of view applieds each has a place of its own, in their order.
pub proof fn view_applied_items_follow_each_other(items: Seq<ViewApplied>, one: ViewApplied)
    ensures
        view_applied_items(Seq::empty()) == Seq::<char>::empty(),
        view_applied_items(items.push(one)) == (if items.len() == 0 {
            view_applied_json(one)
        } else {
            view_applied_items(items) + ","@ + view_applied_json(one)
        }),
{
    let all = items.push(one).map_values(|d: ViewApplied| view_applied_json(d));
    assert(all.drop_last() =~= items.map_values(|d: ViewApplied| view_applied_json(d)));
    assert(all.last() == view_applied_json(one));
}

/// In a list of batch operations each has a place of its own, in their order.
pub proof fn batch_operation_items_follow_each_other(items: Seq<BatchOperation>, one: BatchOperation)
    ensures
        batch_operation_items(Seq::empty()) == Seq::<char>::empty(),
        batch_operation_items(items.push(one)) == (if items.len() == 0 {
            batch_operation_json(one)
        } else {
            batch_operation_items(items) + ","@ + batch_operation_json(one)
        }),
{
    let all = items.push(one).map_values(|d: BatchOperation| batch_operation_json(d));
    assert(all.drop_last() =~= items.map_values(|d: BatchOperation| batch_operation_json(d)));
    assert(all.last() == batch_operation_json(one));
}

/// In a list of undo files each has a place of its own, in their order.
pub proof fn undo_file_items_follow_each_other(items: Seq<UndoFile>, one: UndoFile)
    ensures
        undo_file_items(Seq::empty()) == Seq::<char>::empty(),
        undo_file_items(items.push(one)) == (if items.len() == 0 {
            undo_file_json(one)
        } else {
            undo_file_items(items) + ","@ + undo_file_json(one)
        }),
{
    let all = items.push(one).map_values(|d: UndoFile| undo_file_json(d));
    assert(all.drop_last() =~= items.map_values(|d: UndoFile| undo_file_json(d)));
    assert(all.last() == undo_file_json(one));
}

/// In a list of saved copy plans each has a place of its own, in their order.
pub proof fn saved_copy_plan_items_follow_each_other(items: Seq<SavedCopyPlan>, one: SavedCopyPlan)
    ensures
        saved_copy_plan_items(Seq::empty()) == Seq::<char>::empty(),
        saved_copy_plan_items(items.push(one)) == (if items.len() == 0 {
            saved_copy_plan_json(one)
        } else {
            saved_copy_plan_items(items) + ","@ + saved_copy_plan_json(one)
        }),
{
    let all = items.push(one).map_values(|d: SavedCopyPlan| saved_copy_plan_json(d));
    assert(all.drop_last() =~= items.map_values(|d: SavedCopyPlan| saved_copy_plan_json(d)));
    assert(all.last() == saved_copy_plan_json(one));
}

/// In a list of saved view plans each has a place of its own, in their order.
pub proof fn saved_view_plan_items_follow_each_other(items: Seq<SavedViewPlan>, one: SavedViewPlan)
    ensures
        saved_view_plan_items(Seq::empty()) == Seq::<char>::empty(),
        saved_view_plan_items(items.push(one)) == (if items.len() == 0 {
            saved_view_plan_json(one)
        } else {
            saved_view_plan_items(items) + ","@ + saved_view_plan_json(one)
        }),
{
    let all = items.push(one).map_values(|d: SavedViewPlan| saved_view_plan_json(d));
    assert(all.drop_last() =~= items.map_values(|d: SavedViewPlan| saved_view_plan_json(d)));
    assert(all.last() == saved_view_plan_json(one));
}

/// In a list of copy views each has a place of its own, in their order.
pub proof fn copy_view_items_follow_each_other(items: Seq<CopyView>, one: CopyView)
    ensures
        copy_view_items(Seq::empty()) == Seq::<char>::empty(),
        copy_view_items(items.push(one)) == (if items.len() == 0 {
            copy_view_json(one)
        } else {
            copy_view_items(items) + ","@ + copy_view_json(one)
        }),
{
    let all = items.push(one).map_values(|d: CopyView| copy_view_json(d));
    assert(all.drop_last() =~= items.map_values(|d: CopyView| copy_view_json(d)));
    assert(all.last() == copy_view_json(one));
}

/// In a list of applied plan views each has a place of its own, in their order.
pub proof fn applied_plan_view_items_follow_each_other(items: Seq<AppliedPlanView>, one: AppliedPlanView)
    ensures
        applied_plan_view_items(Seq::empty()) == Seq::<char>::empty(),
        applied_plan_view_items(items.push(one)) == (if items.len() == 0 {
            applied_plan_view_json(one)
        } else {
            applied_plan_view_items(items) + ","@ + applied_plan_view_json(one)
        }),
{
    let all = items.push(one).map_values(|d: AppliedPlanView| applied_plan_view_json(d));
    assert(all.drop_last() =~= items.map_values(|d: AppliedPlanView| applied_plan_view_json(d)));
    assert(all.last() == applied_plan_view_json(one));
}

/// In a list of backup views each has a place of its own, in their order.
pub proof fn backup_view_items_follow_each_other(items: Seq<BackupView>, one: BackupView)
    ensures
        backup_view_items(Seq::empty()) == Seq::<char>::empty(),
        backup_view_items(items.push(one)) == (if items.len() == 0 {
            backup_view_json(one)
        } else {
            backup_view_items(items) + ","@ + backup_view_json(one)
        }),
{
    let all = items.push(one).map_values(|d: BackupView| backup_view_json(d));
    assert(all.drop_last() =~= items.map_values(|d: BackupView| backup_view_json(d)));
    assert(all.last() == backup_view_json(one));
}

/// In a list of restore views each has a place of its own, in their order.
pub proof fn restore_view_items_follow_each_other(items: Seq<RestoreView>, one: RestoreView)
    ensures
        restore_view_items(Seq::empty()) == Seq::<char>::empty(),
        restore_view_items(items.push(one)) == (if items.len() == 0 {
            restore_view_json(one)
        } else {
            restore_view_items(items) + ","@ + restore_view_json(one)
        }),
{
    let all = items.push(one).map_values(|d: RestoreView| restore_view_json(d));
    assert(all.drop_last() =~= items.map_values(|d: RestoreView| restore_view_json(d)));
    assert(all.last() == restore_view_json(one));
}

/// In a list of view diffs each has a place of its own, in their order.
pub proof fn view_diff_items_follow_each_other(items: Seq<ViewDiff>, one: ViewDiff)
    ensures
        view_diff_items(Seq::empty()) == Seq::<char>::empty(),
        view_diff_items(items.push(one)) == (if items.len() == 0 {
            view_diff_json(one)
        } else {
            view_diff_items(items) + ","@ + view_diff_json(one)
        }),
{
    let all = items.push(one).map_values(|d: ViewDiff| view_diff_json(d));
    assert(all.drop_last() =~= items.map_values(|d: ViewDiff| view_diff_json(d)));
    assert(all.last() == view_diff_json(one));
}

/// In a list of side problems each has a place of its own, in their order.
pub proof fn side_problem_items_follow_each_other(items: Seq<SideProblem>, one: SideProblem)
    ensures
        side_problem_items(Seq::empty()) == Seq::<char>::empty(),
        side_problem_items(items.push(one)) == (if items.len() == 0 {
            side_problem_json(one)
        } else {
            side_problem_items(items) + ","@ + side_problem_json(one)
        }),
{
    let all = items.push(one).map_values(|d: SideProblem| side_problem_json(d));
    assert(all.drop_last() =~= items.map_values(|d: SideProblem| side_problem_json(d)));
    assert(all.last() == side_problem_json(one));
}

/// In a list of found views each has a place of its own, in their order.
pub proof fn found_view_items_follow_each_other(items: Seq<FoundView>, one: FoundView)
    ensures
        found_view_items(Seq::empty()) == Seq::<char>::empty(),
        found_view_items(items.push(one)) == (if items.len() == 0 {
            found_view_json(one)
        } else {
            found_view_items(items) + ","@ + found_view_json(one)
        }),
{
    let all = items.push(one).map_values(|d: FoundView| found_view_json(d));
    assert(all.drop_last() =~= items.map_values(|d: FoundView| found_view_json(d)));
    assert(all.last() == found_view_json(one));
}

/// In a list of watch views each has a place of its own, in their order.
pub proof fn watch_view_items_follow_each_other(items: Seq<WatchView>, one: WatchView)
    ensures
        watch_view_items(Seq::empty()) == Seq::<char>::empty(),
        watch_view_items(items.push(one)) == (if items.len() == 0 {
            watch_view_json(one)
        } else {
            watch_view_items(items) + ","@ + watch_view_json(one)
        }),
{
    let all = items.push(one).map_values(|d: WatchView| watch_view_json(d));
    assert(all.drop_last() =~= items.map_values(|d: WatchView| watch_view_json(d)));
    assert(all.last() == watch_view_json(one));
}

/// In a list of found conflicts each has a place of its own, in their order.
pub proof fn found_conflict_items_follow_each_other(items: Seq<FoundConflict>, one: FoundConflict)
    ensures
        found_conflict_items(Seq::empty()) == Seq::<char>::empty(),
        found_conflict_items(items.push(one)) == (if items.len() == 0 {
            found_conflict_json(one)
        } else {
            found_conflict_items(items) + ","@ + found_conflict_json(one)
        }),
{
    let all = items.push(one).map_values(|d: FoundConflict| found_conflict_json(d));
    assert(all.drop_last() =~= items.map_values(|d: FoundConflict| found_conflict_json(d)));
    assert(all.last() == found_conflict_json(one));
}

/// In a list of companions each has a place of its own, in their order.
pub proof fn companion_items_follow_each_other(items: Seq<Companion>, one: Companion)
    ensures
        companion_items(Seq::empty()) == Seq::<char>::empty(),
        companion_items(items.push(one)) == (if items.len() == 0 {
            companion_json(one)
        } else {
            companion_items(items) + ",\n"@ + companion_json(one)
        }),
{
    let all = items.push(one).map_values(|c: Companion| companion_json(c));
    assert(all.drop_last() =~= items.map_values(|c: Companion| companion_json(c)));
    assert(all.last() == companion_json(one));
}

/// In a list of permissions each has a place of its own, in their order.
pub proof fn permission_items_follow_each_other(items: Seq<PermissionView>, one: PermissionView)
    ensures
        permission_items(Seq::empty()) == Seq::<char>::empty(),
        permission_items(items.push(one)) == (if items.len() == 0 {
            permission_json(one)
        } else {
            permission_items(items) + ","@ + permission_json(one)
        }),
{
    let all = items.push(one).map_values(|p: PermissionView| permission_json(p));
    assert(all.drop_last() =~= items.map_values(|p: PermissionView| permission_json(p)));
    assert(all.last() == permission_json(one));
}

/// In a list of export views each has a place of its own, in their order.
pub proof fn export_view_items_follow_each_other(items: Seq<ExportView>, one: ExportView)
    ensures
        export_view_items(Seq::empty()) == Seq::<char>::empty(),
        export_view_items(items.push(one)) == (if items.len() == 0 {
            export_view_json(one)
        } else {
            export_view_items(items) + ","@ + export_view_json(one)
        }),
{
    let all = items.push(one).map_values(|d: ExportView| export_view_json(d));
    assert(all.drop_last() =~= items.map_values(|d: ExportView| export_view_json(d)));
    assert(all.last() == export_view_json(one));
}

/// In a list of query views each has a place of its own, in their order.
pub proof fn query_view_items_follow_each_other(items: Seq<QueryView>, one: QueryView)
    ensures
        query_view_items(Seq::empty()) == Seq::<char>::empty(),
        query_view_items(items.push(one)) == (if items.len() == 0 {
            query_view_json(one)
        } else {
            query_view_items(items) + ","@ + query_view_json(one)
        }),
{
    let all = items.push(one).map_values(|d: QueryView| query_view_json(d));
    assert(all.drop_last() =~= items.map_values(|d: QueryView| query_view_json(d)));
    assert(all.last() == query_view_json(one));
}

/// In a list of list views each has a place of its own, in their order.
pub proof fn list_view_items_follow_each_other(items: Seq<ListView>, one: ListView)
    ensures
        list_view_items(Seq::empty()) == Seq::<char>::empty(),
        list_view_items(items.push(one)) == (if items.len() == 0 {
            list_view_json(one)
        } else {
            list_view_items(items) + ","@ + list_view_json(one)
        }),
{
    let all = items.push(one).map_values(|d: ListView| list_view_json(d));
    assert(all.drop_last() =~= items.map_values(|d: ListView| list_view_json(d)));
    assert(all.last() == list_view_json(one));
}

/// In a list of stats views each has a place of its own, in their order.
pub proof fn stats_view_items_follow_each_other(items: Seq<StatsView>, one: StatsView)
    ensures
        stats_view_items(Seq::empty()) == Seq::<char>::empty(),
        stats_view_items(items.push(one)) == (if items.len() == 0 {
            stats_view_json(one)
        } else {
            stats_view_items(items) + ","@ + stats_view_json(one)
        }),
{
    let all = items.push(one).map_values(|d: StatsView| stats_view_json(d));
    assert(all.drop_last() =~= items.map_values(|d: StatsView| stats_view_json(d)));
    assert(all.last() == stats_view_json(one));
}

/// In a list of fingerprint views each has a place of its own, in their order.
pub proof fn fingerprint_view_items_follow_each_other(items: Seq<FingerprintView>, one: FingerprintView)
    ensures
        fingerprint_view_items(Seq::empty()) == Seq::<char>::empty(),
        fingerprint_view_items(items.push(one)) == (if items.len() == 0 {
            fingerprint_view_json(one)
        } else {
            fingerprint_view_items(items) + ","@ + fingerprint_view_json(one)
        }),
{
    let all = items.push(one).map_values(|d: FingerprintView| fingerprint_view_json(d));
    assert(all.drop_last() =~= items.map_values(|d: FingerprintView| fingerprint_view_json(d)));
    assert(all.last() == fingerprint_view_json(one));
}

/// In a list of probe views each has a place of its own, in their order.
pub proof fn probe_view_items_follow_each_other(items: Seq<ProbeView>, one: ProbeView)
    ensures
        probe_view_items(Seq::empty()) == Seq::<char>::empty(),
        probe_view_items(items.push(one)) == (if items.len() == 0 {
            probe_view_json(one)
        } else {
            probe_view_items(items) + ","@ + probe_view_json(one)
        }),
{
    let all = items.push(one).map_values(|d: ProbeView| probe_view_json(d));
    assert(all.drop_last() =~= items.map_values(|d: ProbeView| probe_view_json(d)));
    assert(all.last() == probe_view_json(one));
}

/// In a list of permission comparisons each has a place of its own, in their order.
pub proof fn permission_comparison_items_follow_each_other(items: Seq<PermissionComparison>, one: PermissionComparison)
    ensures
        permission_comparison_items(Seq::empty()) == Seq::<char>::empty(),
        permission_comparison_items(items.push(one)) == (if items.len() == 0 {
            permission_comparison_json(one)
        } else {
            permission_comparison_items(items) + ","@ + permission_comparison_json(one)
        }),
{
    let all = items.push(one).map_values(|d: PermissionComparison| permission_comparison_json(d));
    assert(all.drop_last() =~= items.map_values(|d: PermissionComparison| permission_comparison_json(d)));
    assert(all.last() == permission_comparison_json(one));
}

/// In a list of side errors each has a place of its own, in their order.
pub proof fn side_error_items_follow_each_other(items: Seq<SideError>, one: SideError)
    ensures
        side_error_items(Seq::empty()) == Seq::<char>::empty(),
        side_error_items(items.push(one)) == (if items.len() == 0 {
            side_error_json(one)
        } else {
            side_error_items(items) + ","@ + side_error_json(one)
        }),
{
    let all = items.push(one).map_values(|d: SideError| side_error_json(d));
    assert(all.drop_last() =~= items.map_values(|d: SideError| side_error_json(d)));
    assert(all.last() == side_error_json(one));
}

} // verus!
